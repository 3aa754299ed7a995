//! Escaping text for widget markup: the five characters that markup gives a
//! meaning are replaced by their named entities.

use vstd::prelude::*;

verus! {

/// What one character becomes in escaped markup.
pub open spec fn spec_escape_char(c: char) -> Seq<char> {
    if c == '&' {
        "&amp;"@
    } else if c == '<' {
        "&lt;"@
    } else if c == '>' {
        "&gt;"@
    } else if c == '"' {
        "&quot;"@
    } else if c == '\'' {
        "&apos;"@
    } else {
        seq![c]
    }
}

/// The escaped form of a text: each character replaced independently.
pub open spec fn spec_escape_markup(s: Seq<char>) -> Seq<char>
    decreases s.len(),
{
    if s.len() == 0 {
        Seq::empty()
    } else {
        spec_escape_markup(s.drop_last()) + spec_escape_char(s.last())
    }
}

/// Relies on std's `String::push`: appends exactly the one character.
#[verifier::external_body]
fn push_char(s: &mut String, c: char)
    ensures
        final(s)@ == old(s)@ + seq![c],
{
    s.push(c);
}

/// Escapes a text for use as widget markup.
pub fn escape_markup(markup: &str) -> (r: String)
    ensures
        r@ == spec_escape_markup(markup@),
{
    let mut r = String::new();
    let n: usize = markup.unicode_len();
    let mut i: usize = 0;
    while i < n
        invariant
            n == markup@.len(),
            0 <= i <= n,
            r@ == spec_escape_markup(markup@.take(i as int)),
        decreases n - i,
    {
        let c = markup.get_char(i);
        if c == '&' {
            r.append("&amp;");
        } else if c == '<' {
            r.append("&lt;");
        } else if c == '>' {
            r.append("&gt;");
        } else if c == '"' {
            r.append("&quot;");
        } else if c == '\'' {
            r.append("&apos;");
        } else {
            push_char(&mut r, c);
        }
        proof {
            assert(markup@.take(i as int + 1).drop_last() =~= markup@.take(i as int));
            assert(markup@.take(i as int + 1).last() == markup@[i as int]);
            assert(r@ =~= spec_escape_markup(markup@.take(i as int + 1)));
        }
        i = i + 1;
    }
    proof {
        assert(markup@.take(n as int) =~= markup@);
    }
    r
}

} // verus!
