//! The port to listen on, as the environment spells it.

use crate::text::text_of_str;
use vstd::prelude::*;
use vstd::string::*;

verus! {

/// Name of the environment variable that holds the port.
pub const PORT_VARIABLE: &'static str = "PORT";

/// The port to listen on where none is configured.
pub const DEFAULT_PORT: u16 = 8080;

/// Whether a character is a decimal digit.
pub open spec fn is_digit(c: char) -> bool {
    '0' <= c <= '9'
}

/// Whether a text holds decimal digits and nothing else.
pub open spec fn all_digits(s: Seq<char>) -> bool {
    forall|i: int| 0 <= i < s.len() ==> is_digit(#[trigger] s[i])
}

/// The number that a text of decimal digits spells.
pub open spec fn digits_value(s: Seq<char>) -> nat
    decreases s.len(),
{
    if s.len() == 0 {
        0
    } else {
        (digits_value(s.drop_last()) * 10 + (s.last() as u32 - '0' as u32)) as nat
    }
}

/// A text without the one `+` that may stand at its head.
pub open spec fn unsigned_part(text: Seq<char>) -> Seq<char> {
    if text.len() > 0 && text[0] == '+' {
        text.skip(1)
    } else {
        text
    }
}

/// The port that a text spells: an optional `+`, then one or more decimal
/// digits and nothing else, whose number is at most 65535.
pub open spec fn port_of(text: Seq<char>) -> Option<u16> {
    let digits = unsigned_part(text);
    if digits.len() > 0 && all_digits(digits) && digits_value(digits) <= u16::MAX {
        Some(digits_value(digits) as u16)
    } else {
        None
    }
}

/// The port for a setting that may be unset: the default where it is
/// unset, else the port that it spells, if it spells one.
pub open spec fn configured_port(raw: Option<Seq<char>>) -> Option<u16> {
    match raw {
        None => Some(DEFAULT_PORT),
        Some(text) => port_of(text),
    }
}

/// A sequence of digits spells at least what any of its prefixes spells.
proof fn lemma_prefix_value(s: Seq<char>, k: int)
    requires
        0 <= k <= s.len(),
        all_digits(s),
    ensures
        digits_value(s.take(k)) <= digits_value(s),
    decreases s.len(),
{
    if k == s.len() {
        assert(s.take(k) =~= s);
    } else {
        assert(s.drop_last().take(k) =~= s.take(k));
        lemma_prefix_value(s.drop_last(), k);
    }
}

/// The default port is the one that the text `8080` spells.
pub proof fn lemma_default_port()
    ensures
        port_of("8080"@) == Some(DEFAULT_PORT),
        configured_port(None) == port_of("8080"@),
{
    reveal_strlit("8080");
    let s = "8080"@;
    assert(s =~= seq!['8', '0', '8', '0']);
    assert(unsigned_part(s) == s);
    assert(s.drop_last() =~= seq!['8', '0', '8']);
    assert(s.drop_last().drop_last() =~= seq!['8', '0']);
    assert(s.drop_last().drop_last().drop_last() =~= seq!['8']);
    assert(s.drop_last().drop_last().drop_last().drop_last() =~= Seq::<char>::empty());
    reveal_with_fuel(digits_value, 5);
    assert(digits_value(s) == 8080);
}

/// The port that a text spells, or `None` where it spells none.
pub fn parse_port(text: &str) -> (port: Option<u16>)
    ensures
        port == port_of(text@),
{
    let ghost digits = unsigned_part(text@);
    if !text.is_ascii() {
        proof {
            let k = choose|k: int| 0 <= k < text@.len() && !('\0' <= #[trigger] text@[k] <= '\u{7f}');
            if text@[0] == '+' {
                assert(digits[k - 1] == text@[k]);
            }
        }
        return None;
    }
    proof {
        is_ascii_spec_bytes(text);
    }
    let bytes = text.as_bytes();
    let n = bytes.len();
    let start: usize = if n > 0 && bytes[0] == 43u8 {
        1
    } else {
        0
    };
    if start == n {
        return None;
    }
    let mut value: u32 = 0;
    let mut i: usize = start;
    assert(digits.take(0) =~= Seq::<char>::empty());
    assert(digits =~= text@.skip(start as int));
    while i < n
        invariant
            start <= i <= n,
            n == text@.len(),
            n == bytes@.len(),
            start <= 1,
            digits == unsigned_part(text@),
            digits == text@.skip(start as int),
            digits.len() == n - start,
            forall|j: int| 0 <= j < n ==> #[trigger] bytes@[j] == text@[j] as u8,
            forall|j: int| 0 <= j < n ==> '\0' <= #[trigger] text@[j] <= '\u{7f}',
            all_digits(digits.take(i - start)),
            value == digits_value(digits.take(i - start)),
            value <= u16::MAX,
        decreases n - i,
    {
        let b = bytes[i];
        let ghost c = text@[i as int];
        assert(digits[i - start] == c);
        if b < 48u8 || b > 57u8 {
            assert(!is_digit(c));
            return None;
        }
        let ghost longer = digits.take(i - start + 1);
        assert(longer.drop_last() =~= digits.take(i - start));
        assert(longer.last() == c);
        assert(is_digit(c));
        value = value * 10 + (b - 48u8) as u32;
        assert(value == digits_value(longer));
        if value > 65535 {
            proof {
                if all_digits(digits) {
                    lemma_prefix_value(digits, i - start + 1);
                }
            }
            return None;
        }
        i += 1;
    }
    assert(digits.take(i - start) =~= digits);
    Some(value as u16)
}

/// The port for a setting that may be unset.
pub fn port_from_setting(raw: Option<&str>) -> (port: Option<u16>)
    ensures
        port == configured_port(text_of_str(raw)),
{
    match raw {
        None => Some(DEFAULT_PORT),
        Some(text) => parse_port(text),
    }
}

} // verus!
