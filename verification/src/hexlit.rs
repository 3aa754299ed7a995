//! Hexadecimal literals for the emitted enum constants: canonical rendering
//! of an integer as `0x` followed by lowercase digits without leading zeros,
//! a parser for such literals, and the proof that parsing a rendered literal
//! recovers the integer.

use vstd::prelude::*;

verus! {

/// The lowercase hexadecimal digit character for a value below sixteen.
pub open spec fn spec_hex_digit_char(d: nat) -> char
    recommends
        d < 16,
{
    if d == 0 {
        '0'
    } else if d == 1 {
        '1'
    } else if d == 2 {
        '2'
    } else if d == 3 {
        '3'
    } else if d == 4 {
        '4'
    } else if d == 5 {
        '5'
    } else if d == 6 {
        '6'
    } else if d == 7 {
        '7'
    } else if d == 8 {
        '8'
    } else if d == 9 {
        '9'
    } else if d == 10 {
        'a'
    } else if d == 11 {
        'b'
    } else if d == 12 {
        'c'
    } else if d == 13 {
        'd'
    } else if d == 14 {
        'e'
    } else {
        'f'
    }
}

/// The value of a hexadecimal digit character; sixteen for any other
/// character.
pub open spec fn spec_hex_digit_value(c: char) -> nat {
    match c {
        '0' => 0,
        '1' => 1,
        '2' => 2,
        '3' => 3,
        '4' => 4,
        '5' => 5,
        '6' => 6,
        '7' => 7,
        '8' => 8,
        '9' => 9,
        'a' => 10,
        'b' => 11,
        'c' => 12,
        'd' => 13,
        'e' => 14,
        'f' => 15,
        _ => 16,
    }
}

/// The character is a lowercase hexadecimal digit.
pub open spec fn spec_is_hex_digit(c: char) -> bool {
    spec_hex_digit_value(c) < 16
}

/// The canonical digit sequence of an integer: lowercase, no leading zeros,
/// a single `0` for zero.
pub open spec fn spec_hex_digits(n: nat) -> Seq<char>
    decreases n,
{
    if n < 16 {
        seq![spec_hex_digit_char(n)]
    } else {
        spec_hex_digits(n / 16) + seq![spec_hex_digit_char(n % 16)]
    }
}

/// The canonical hexadecimal literal of an integer, e.g. `0x1a2b`.
pub open spec fn spec_hex_literal(n: nat) -> Seq<char> {
    "0x"@ + spec_hex_digits(n)
}

/// The integer a sequence of hexadecimal digit characters denotes; `None` if
/// the sequence is empty or holds a character that is no lowercase digit.
pub open spec fn spec_parse_hex_digits(s: Seq<char>) -> Option<nat>
    decreases s.len(),
{
    if s.len() == 0 {
        None
    } else if s.len() == 1 {
        if spec_is_hex_digit(s[0]) {
            Some(spec_hex_digit_value(s[0]))
        } else {
            None
        }
    } else {
        match spec_parse_hex_digits(s.drop_last()) {
            Some(v) => if spec_is_hex_digit(s.last()) {
                Some(v * 16 + spec_hex_digit_value(s.last()))
            } else {
                None
            },
            None => None,
        }
    }
}

/// The integer a hexadecimal literal denotes: a `0x` prefix followed by at
/// least one lowercase digit.
pub open spec fn spec_parse_hex_literal(s: Seq<char>) -> Option<nat> {
    if s.len() >= 3 && s[0] == '0' && s[1] == 'x' {
        spec_parse_hex_digits(s.subrange(2, s.len() as int))
    } else {
        None
    }
}

/// Rendering a digit and reading it back gives the digit.
proof fn lemma_digit_char_value(d: nat)
    requires
        d < 16,
    ensures
        spec_is_hex_digit(spec_hex_digit_char(d)),
        spec_hex_digit_value(spec_hex_digit_char(d)) == d,
{
}

/// Parsing the canonical digit sequence of an integer recovers the integer.
pub proof fn lemma_hex_digits_round_trip(n: nat)
    ensures
        spec_parse_hex_digits(spec_hex_digits(n)) == Some(n),
    decreases n,
{
    if n < 16 {
        lemma_digit_char_value(n);
    } else {
        lemma_hex_digits_round_trip(n / 16);
        lemma_digit_char_value(n % 16);
        let s = spec_hex_digits(n);
        assert(s.drop_last() =~= spec_hex_digits(n / 16));
        assert(s.last() == spec_hex_digit_char(n % 16));
        assert(n / 16 * 16 + n % 16 == n);
    }
}

/// Parsing the canonical literal of an integer recovers the integer.
pub proof fn lemma_hex_literal_round_trip(n: nat)
    ensures
        spec_parse_hex_literal(spec_hex_literal(n)) == Some(n),
{
    reveal_strlit("0x");
    let s = spec_hex_literal(n);
    assert(s.len() >= 3);
    assert(s[0] == '0' && s[1] == 'x');
    assert(s.subrange(2, s.len() as int) =~= spec_hex_digits(n));
    lemma_hex_digits_round_trip(n);
}

/// A parsed value never shrinks as more digit characters follow: if the
/// whole sequence parses, so does every nonempty prefix, to a value no
/// larger.
proof fn lemma_parse_hex_digits_prefix(s: Seq<char>, k: int)
    requires
        1 <= k <= s.len(),
        spec_parse_hex_digits(s) is Some,
    ensures
        spec_parse_hex_digits(s.subrange(0, k)) is Some,
        spec_parse_hex_digits(s.subrange(0, k)).unwrap() <= spec_parse_hex_digits(s).unwrap(),
    decreases s.len() - k,
{
    if k == s.len() {
        assert(s.subrange(0, k) =~= s);
    } else {
        let t = s.drop_last();
        assert(s.len() >= 2);
        assert(spec_parse_hex_digits(t) is Some);
        assert(spec_parse_hex_digits(s).unwrap() >= spec_parse_hex_digits(t).unwrap() * 16)
            by {
            assert(spec_parse_hex_digits(s).unwrap() == spec_parse_hex_digits(t).unwrap() * 16
                + spec_hex_digit_value(s.last()));
        };
        assert(spec_parse_hex_digits(t).unwrap() * 16 >= spec_parse_hex_digits(t).unwrap())
            by (nonlinear_arith);
        lemma_parse_hex_digits_prefix(t, k);
        assert(t.subrange(0, k) =~= s.subrange(0, k));
    }
}

/// The lowercase hexadecimal digit character for a value below sixteen.
pub fn hex_digit_str(d: u64) -> (r: &'static str)
    requires
        d < 16,
    ensures
        r@ == seq![spec_hex_digit_char(d as nat)],
{
    proof {
        reveal_strlit("0");
        reveal_strlit("1");
        reveal_strlit("2");
        reveal_strlit("3");
        reveal_strlit("4");
        reveal_strlit("5");
        reveal_strlit("6");
        reveal_strlit("7");
        reveal_strlit("8");
        reveal_strlit("9");
        reveal_strlit("a");
        reveal_strlit("b");
        reveal_strlit("c");
        reveal_strlit("d");
        reveal_strlit("e");
        reveal_strlit("f");
    }
    if d == 0 {
        "0"
    } else if d == 1 {
        "1"
    } else if d == 2 {
        "2"
    } else if d == 3 {
        "3"
    } else if d == 4 {
        "4"
    } else if d == 5 {
        "5"
    } else if d == 6 {
        "6"
    } else if d == 7 {
        "7"
    } else if d == 8 {
        "8"
    } else if d == 9 {
        "9"
    } else if d == 10 {
        "a"
    } else if d == 11 {
        "b"
    } else if d == 12 {
        "c"
    } else if d == 13 {
        "d"
    } else if d == 14 {
        "e"
    } else {
        "f"
    }
}

/// The canonical digit sequence of an integer.
pub fn hex_digits_string(n: u64) -> (r: String)
    ensures
        r@ == spec_hex_digits(n as nat),
    decreases n,
{
    if n < 16 {
        String::from_str(hex_digit_str(n))
    } else {
        let mut s = hex_digits_string(n / 16);
        s.append(hex_digit_str(n % 16));
        s
    }
}

/// The canonical hexadecimal literal of an integer, e.g. `0x1a2b`.
pub fn hex_literal_string(n: u64) -> (r: String)
    ensures
        r@ == spec_hex_literal(n as nat),
{
    let mut s = String::from_str("0x");
    let digits = hex_digits_string(n);
    s.append(digits.as_str());
    s
}

/// The value of a lowercase hexadecimal digit character, if it is one.
pub fn hex_digit_value(c: char) -> (r: Option<u64>)
    ensures
        match r {
            Some(v) => spec_is_hex_digit(c) && v as nat == spec_hex_digit_value(c),
            None => !spec_is_hex_digit(c),
        },
{
    match c {
        '0' => Some(0),
        '1' => Some(1),
        '2' => Some(2),
        '3' => Some(3),
        '4' => Some(4),
        '5' => Some(5),
        '6' => Some(6),
        '7' => Some(7),
        '8' => Some(8),
        '9' => Some(9),
        'a' => Some(10),
        'b' => Some(11),
        'c' => Some(12),
        'd' => Some(13),
        'e' => Some(14),
        'f' => Some(15),
        _ => None,
    }
}

/// Parses a hexadecimal literal. Returns the denoted value where the text
/// is a literal and the value fits the result type; `None` where the text
/// is no literal or the value is too large.
pub fn parse_hex_literal(s: &str) -> (r: Option<u64>)
    ensures
        match r {
            Some(v) => spec_parse_hex_literal(s@) == Some(v as nat),
            None => spec_parse_hex_literal(s@) is None || spec_parse_hex_literal(
                s@,
            ).unwrap() > u64::MAX,
        },
{
    let len: usize = s.unicode_len();
    if len < 3 {
        return None;
    }
    if s.get_char(0) != '0' || s.get_char(1) != 'x' {
        return None;
    }
    let ghost digits = s@.subrange(2, len as int);
    let first = match hex_digit_value(s.get_char(2)) {
        Some(v) => v,
        None => {
            proof {
                if spec_parse_hex_digits(digits) is Some {
                    lemma_parse_hex_digits_prefix(digits, 1);
                    assert(digits.subrange(0, 1)[0] == digits[0]);
                }
            }
            return None;
        },
    };
    let mut acc: u64 = first;
    let mut i: usize = 3;
    proof {
        assert(digits.subrange(0, 1) =~= seq![digits[0]]);
    }
    while i < len
        invariant
            3 <= i <= len,
            len == s@.len(),
            digits == s@.subrange(2, len as int),
            spec_parse_hex_digits(digits.subrange(0, i - 2)) == Some(acc as nat),
        decreases len - i,
    {
        let c = s.get_char(i);
        let ghost j = i - 2;
        proof {
            assert(digits.subrange(0, j + 1).drop_last() =~= digits.subrange(0, j as int));
            assert(digits.subrange(0, j + 1).last() == digits[j as int]);
            assert(digits[j as int] == s@[i as int]);
        }
        let d = match hex_digit_value(c) {
            Some(v) => v,
            None => {
                proof {
                    assert(spec_parse_hex_digits(digits.subrange(0, j + 1)) is None);
                    if spec_parse_hex_digits(digits) is Some {
                        lemma_parse_hex_digits_prefix(digits, j + 1);
                    }
                }
                return None;
            },
        };
        if acc > (u64::MAX - d) / 16 {
            proof {
                let m = u64::MAX as nat;
                let dv = d as nat;
                assert(acc as nat >= (m - dv) / 16 + 1);
                assert(((m - dv) / 16 + 1) * 16 >= m - dv + 1) by (nonlinear_arith);
                assert(acc as nat * 16 >= ((m - dv) / 16 + 1) * 16) by (nonlinear_arith)
                    requires
                        acc as nat >= (m - dv) / 16 + 1,
                ;
                assert(spec_parse_hex_digits(digits.subrange(0, j + 1)) == Some(
                    acc as nat * 16 + dv,
                ));
                assert(acc as nat * 16 + dv > m);
                if spec_parse_hex_digits(digits) is Some {
                    lemma_parse_hex_digits_prefix(digits, j + 1);
                }
            }
            return None;
        }
        proof {
            let m = u64::MAX as nat;
            let dv = d as nat;
            assert((m - dv) / 16 * 16 <= m - dv) by (nonlinear_arith);
            assert(acc as nat * 16 <= (m - dv) / 16 * 16) by (nonlinear_arith)
                requires
                    acc as nat <= (m - dv) / 16,
            ;
        }
        acc = acc * 16 + d;
        i = i + 1;
    }
    proof {
        assert(digits.subrange(0, len - 2) =~= digits);
    }
    Some(acc)
}

} // verus!
