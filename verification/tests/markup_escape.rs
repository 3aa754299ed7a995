use glgen::markup::escape_markup;

#[test]
fn escapes_the_five_special_characters() {
    assert_eq!(escape_markup("&"), "&amp;");
    assert_eq!(escape_markup("<"), "&lt;");
    assert_eq!(escape_markup(">"), "&gt;");
    assert_eq!(escape_markup("\""), "&quot;");
    assert_eq!(escape_markup("'"), "&apos;");
}

#[test]
fn leaves_plain_text_unchanged() {
    assert_eq!(escape_markup(""), "");
    assert_eq!(escape_markup("Error compiling vertex shader"), "Error compiling vertex shader");
}

#[test]
fn escapes_mixed_text_in_place() {
    assert_eq!(escape_markup("a<b & c>\"d'"), "a&lt;b &amp; c&gt;&quot;d&apos;");
    assert_eq!(escape_markup("&&"), "&amp;&amp;");
}
