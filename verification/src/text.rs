//! Small helpers over the characters of a string: ASCII case folding,
//! comparison against a fixed word and decimal rendering.

use vstd::prelude::*;
use vstd::string::*;

verus! {

/// The lower-case form of an ASCII letter; every other character is itself.
pub open spec fn lower(c: char) -> char {
    if 'A' <= c && c <= 'Z' {
        ((c as u8) + 32) as char
    } else {
        c
    }
}

/// A sequence of characters with every ASCII capital replaced by its
/// lower-case letter.
pub open spec fn folded(s: Seq<char>) -> Seq<char> {
    Seq::new(s.len(), |i: int| lower(s[i]))
}

/// Lower-cases one character.
pub fn lower_char(c: char) -> (r: char)
    ensures
        r == lower(c),
{
    if 'A' <= c && c <= 'Z' {
        ((c as u8) + 32) as char
    } else {
        c
    }
}

/// The characters of `value`.
pub fn chars_of(value: &str) -> (r: Vec<char>)
    ensures
        r@ == value@,
{
    let n: usize = value.unicode_len();
    let mut out: Vec<char> = Vec::new();
    let mut i: usize = 0;
    while i < n
        invariant
            n == value@.len(),
            i <= n,
            out@.len() == i,
            forall|j: int| 0 <= j < i ==> out@[j] == value@[j],
        decreases n - i,
    {
        out.push(value.get_char(i));
        i = i + 1;
    }
    assert(out@ =~= value@);
    out
}

/// The characters of `value`, case-folded.
pub fn fold(value: &str) -> (r: Vec<char>)
    ensures
        r@ == folded(value@),
{
    let n: usize = value.unicode_len();
    let mut out: Vec<char> = Vec::new();
    let mut i: usize = 0;
    while i < n
        invariant
            n == value@.len(),
            i <= n,
            out@.len() == i,
            forall|j: int| 0 <= j < i ==> out@[j] == lower(value@[j]),
        decreases n - i,
    {
        out.push(lower_char(value.get_char(i)));
        i = i + 1;
    }
    assert(out@ =~= folded(value@));
    out
}

/// The characters of `value`, case-folded, unless there are more than
/// `limit` of them. A long text is turned down after one pass over it.
pub fn fold_short(value: &str, limit: usize) -> (r: Option<Vec<char>>)
    ensures
        r is Some <==> value@.len() <= limit,
        r matches Some(chars) ==> chars@ == folded(value@),
{
    if value.unicode_len() > limit {
        None
    } else {
        Some(fold(value))
    }
}

/// Whether `chars` spells exactly `word`.
pub fn spells(chars: &Vec<char>, word: &str) -> (r: bool)
    ensures
        r == (chars@ == word@),
{
    let n: usize = word.unicode_len();
    if chars.len() != n {
        return false;
    }
    let mut i: usize = 0;
    while i < n
        invariant
            n == word@.len(),
            chars@.len() == n,
            i <= n,
            forall|j: int| 0 <= j < i ==> chars@[j] == word@[j],
        decreases n - i,
    {
        if chars[i] != word.get_char(i) {
            return false;
        }
        i = i + 1;
    }
    assert(chars@ =~= word@);
    true
}

/// The one-character text of a decimal digit.
pub open spec fn digit_text(d: int) -> Seq<char> {
    if d == 0 {
        "0"@
    } else if d == 1 {
        "1"@
    } else if d == 2 {
        "2"@
    } else if d == 3 {
        "3"@
    } else if d == 4 {
        "4"@
    } else if d == 5 {
        "5"@
    } else if d == 6 {
        "6"@
    } else if d == 7 {
        "7"@
    } else if d == 8 {
        "8"@
    } else {
        "9"@
    }
}

/// The decimal digits of a natural number, without leading zeros.
pub open spec fn digits(n: nat) -> Seq<char>
    decreases n,
{
    if n < 10 {
        digit_text(n as int)
    } else {
        digits(n / 10) + digit_text((n % 10) as int)
    }
}

/// The decimal text of an integer, with a minus sign when it is negative.
pub open spec fn decimal(n: int) -> Seq<char> {
    if n < 0 {
        "-"@ + digits((-n) as nat)
    } else {
        digits(n as nat)
    }
}

/// The one-character word of a decimal digit.
fn digit_word(d: u32) -> (r: &'static str)
    requires
        d < 10,
    ensures
        r@ == digit_text(d as int),
{
    if d == 0 {
        "0"
    } else if d == 1 {
        "1"
    } else if d == 2 {
        "2"
    } else if d == 3 {
        "3"
    } else if d == 4 {
        "4"
    } else if d == 5 {
        "5"
    } else if d == 6 {
        "6"
    } else if d == 7 {
        "7"
    } else if d == 8 {
        "8"
    } else {
        "9"
    }
}

/// Appends the decimal digits of `n` to `out`.
pub fn push_digits(out: &mut String, n: u32)
    ensures
        final(out)@ == old(out)@ + digits(n as nat),
    decreases n,
{
    if n >= 10 {
        push_digits(out, n / 10);
    }
    out.append(digit_word(n % 10));
    assert(final(out)@ =~= old(out)@ + digits(n as nat));
}

/// Appends the decimal text of `n` to `out`.
pub fn push_decimal(out: &mut String, n: i32)
    ensures
        final(out)@ == old(out)@ + decimal(n as int),
{
    if n < 0 {
        out.append("-");
        let magnitude: i64 = -(n as i64);
        push_digits(out, magnitude as u32);
        assert(final(out)@ =~= old(out)@ + decimal(n as int));
    } else {
        push_digits(out, n as u32);
    }
}

/// `std::num::ParseIntError` of the standard library, carried through as an
/// opaque value: the error that `str::parse` gives for a text that is no
/// integer.
#[verifier::external_type_specification]
#[verifier::external_body]
pub struct ExParseIntError(std::num::ParseIntError);

/// Whether a character is one of the ten decimal digits.
pub open spec fn is_digit(c: char) -> bool {
    '0' <= c && c <= '9'
}

/// The number that a run of decimal digits writes; leading zeros count for
/// nothing.
pub open spec fn digits_value(run: Seq<char>) -> int
    decreases run.len(),
{
    if run.len() == 0 {
        0
    } else {
        10 * digits_value(run.drop_last()) + (run.last() as int - '0' as int)
    }
}

/// The 32-bit integer that a text writes in decimal: an optional `+` or `-`,
/// then one or more digits and nothing else, with a value that fits.
/// Any other text writes none.
pub open spec fn integer_of(text: Seq<char>) -> Option<i32> {
    let signed = text.len() > 0 && (text[0] == '-' || text[0] == '+');
    let run = if signed {
        text.skip(1)
    } else {
        text
    };
    let value = if signed && text[0] == '-' {
        -digits_value(run)
    } else {
        digits_value(run)
    };
    if run.len() > 0 && (forall|i: int| 0 <= i < run.len() ==> is_digit(#[trigger] run[i]))
        && i32::MIN <= value <= i32::MAX {
        Some(value as i32)
    } else {
        None
    }
}

/// `str::parse::<i32>` of the standard library. Trusted: it accepts an
/// optional sign followed by decimal digits only, gives the number they
/// write where that fits in 32 bits, and reports an error for every other
/// text, the empty one and a lone sign included.
#[verifier::external_body]
pub(crate) fn parse_integer(text: &str) -> (r: Result<i32, std::num::ParseIntError>)
    ensures
        r matches Ok(n) ==> integer_of(text@) == Some(n),
        r is Err ==> integer_of(text@) is None,
{
    text.parse::<i32>()
}

} // verus!
