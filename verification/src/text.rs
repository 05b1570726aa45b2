//! Verified rendering of numbers as decimal text, and small string helpers.
//!
//! Temperatures, wind speeds and coordinates are carried through the crate as
//! fixed-point integers (tenths or thousandths of a unit); these functions
//! render them exactly as the display expects, with the text pinned down
//! character by character in the contracts.

use vstd::prelude::*;
use vstd::string::StringExecFns;

verus! {

/// The decimal digit character for `d` in 0..=9.
pub open spec fn digit_str(d: int) -> Seq<char> {
    if d == 0 {
        "0"@
    } else if d == 1 {
        "1"@
    } else if d == 2 {
        "2"@
    } else if d == 3 {
        "3"@
    } else if d == 4 {
        "4"@
    } else if d == 5 {
        "5"@
    } else if d == 6 {
        "6"@
    } else if d == 7 {
        "7"@
    } else if d == 8 {
        "8"@
    } else {
        "9"@
    }
}

/// The decimal rendering of a non-negative integer, most significant digit
/// first, with no leading zeros (a single "0" for zero).
pub open spec fn dec_str(n: int) -> Seq<char>
    decreases n,
{
    if n < 10 {
        digit_str(n)
    } else {
        dec_str(n / 10) + digit_str(n % 10)
    }
}

/// The rendering of a fixed-point value held as tenths: the integer part,
/// a decimal point, and one fractional digit, with a leading minus sign for
/// negative values.
pub open spec fn deci_str(d: int) -> Seq<char> {
    if d < 0 {
        "-"@ + dec_str((-d) / 10) + "."@ + digit_str((-d) % 10)
    } else {
        dec_str(d / 10) + "."@ + digit_str(d % 10)
    }
}

/// Appends the digit character for `d` in 0..=9.
fn push_digit(s: &mut String, d: u64)
    requires
        d < 10,
    ensures
        final(s)@ == old(s)@ + digit_str(d as int),
{
    if d == 0 {
        s.append("0")
    } else if d == 1 {
        s.append("1")
    } else if d == 2 {
        s.append("2")
    } else if d == 3 {
        s.append("3")
    } else if d == 4 {
        s.append("4")
    } else if d == 5 {
        s.append("5")
    } else if d == 6 {
        s.append("6")
    } else if d == 7 {
        s.append("7")
    } else if d == 8 {
        s.append("8")
    } else {
        s.append("9")
    }
}

/// Renders a non-negative integer as decimal text.
pub fn u64_to_string(n: u64) -> (s: String)
    ensures
        s@ == dec_str(n as int),
    decreases n,
{
    if n < 10 {
        let mut s = String::new();
        push_digit(&mut s, n);
        assert(s@ =~= digit_str(n as int));
        s
    } else {
        let mut s = u64_to_string(n / 10);
        push_digit(&mut s, n % 10);
        s
    }
}

/// Renders a fixed-point value held as tenths, one fractional digit, with a
/// leading minus sign for negative values.
pub fn deci_to_string(d: i64) -> (s: String)
    requires
        d > i64::MIN,
    ensures
        s@ == deci_str(d as int),
{
    let neg = d < 0;
    let mag: u64 = if neg {
        (-d) as u64
    } else {
        d as u64
    };
    let mut s = if neg {
        String::from_str("-")
    } else {
        String::new()
    };
    let whole = u64_to_string(mag / 10);
    s.append(whole.as_str());
    s.append(".");
    push_digit(&mut s, mag % 10);
    if neg {
        assert(s@ =~= "-"@ + dec_str((-d) as int / 10) + "."@ + digit_str((-d) as int % 10));
    } else {
        assert(s@ =~= dec_str(d as int / 10) + "."@ + digit_str(d as int % 10));
    }
    s
}

/// Relies on `String::push`: appends the given character to the end of the
/// string.
#[verifier::external_body]
fn push_char(s: &mut String, c: char)
    ensures
        final(s)@ == old(s)@ + seq![c],
{
    s.push(c)
}

/// The character `c` with an ASCII lower-case letter mapped to its upper-case
/// counterpart. The mapping is deliberately ASCII-only: every other
/// character, accented letters included, is left exactly as it is.
pub open spec fn upper_char(c: char) -> char {
    match c {
        'a' => 'A',
        'b' => 'B',
        'c' => 'C',
        'd' => 'D',
        'e' => 'E',
        'f' => 'F',
        'g' => 'G',
        'h' => 'H',
        'i' => 'I',
        'j' => 'J',
        'k' => 'K',
        'l' => 'L',
        'm' => 'M',
        'n' => 'N',
        'o' => 'O',
        'p' => 'P',
        'q' => 'Q',
        'r' => 'R',
        's' => 'S',
        't' => 'T',
        'u' => 'U',
        'v' => 'V',
        'w' => 'W',
        'x' => 'X',
        'y' => 'Y',
        'z' => 'Z',
        _ => c,
    }
}

fn upper_char_exec(c: char) -> (r: char)
    ensures
        r == upper_char(c),
{
    match c {
        'a' => 'A',
        'b' => 'B',
        'c' => 'C',
        'd' => 'D',
        'e' => 'E',
        'f' => 'F',
        'g' => 'G',
        'h' => 'H',
        'i' => 'I',
        'j' => 'J',
        'k' => 'K',
        'l' => 'L',
        'm' => 'M',
        'n' => 'N',
        'o' => 'O',
        'p' => 'P',
        'q' => 'Q',
        'r' => 'R',
        's' => 'S',
        't' => 'T',
        'u' => 'U',
        'v' => 'V',
        'w' => 'W',
        'x' => 'X',
        'y' => 'Y',
        'z' => 'Z',
        _ => c,
    }
}

/// `s` with its first character upper-cased and the rest unchanged; empty
/// input stays empty. The upper-casing is ASCII-only ([`upper_char`]): a
/// first character outside ASCII stays as it is.
pub open spec fn capitalized(s: Seq<char>) -> Seq<char> {
    if s.len() == 0 {
        s
    } else {
        seq![upper_char(s[0])] + s.drop_first()
    }
}

/// Upper-cases only the first character of `s`; the rest of the string is
/// unchanged, and the empty string comes back empty. Only an ASCII letter
/// is mapped: upstream weather descriptions are ASCII, and a first character
/// outside that range is left unchanged rather than case-folded.
pub fn capitalize_first_letter(s: &str) -> (r: String)
    ensures
        r@ == capitalized(s@),
{
    let n = s.unicode_len();
    if n == 0 {
        return String::new();
    }
    let first = upper_char_exec(s.get_char(0));
    let mut r = String::new();
    push_char(&mut r, first);
    let rest = s.substring_char(1, n);
    r.append(rest);
    assert(r@ =~= seq![upper_char(s@[0])] + s@.drop_first());
    r
}

} // verus!
