//! Character-level string building for the crate's wire formats:
//! decimal digits, fixed-width numbers, and a trusted primitive that
//! appends one character to a `String`.

use vstd::prelude::*;

verus! {

/// The character for one decimal digit (`0` maps to `'0'`, ..., `9` to `'9'`).
pub open spec fn digit_char(d: int) -> char {
    ((d + 48) as char)
}

/// Decimal rendering of a non-negative number, most significant digit first,
/// with no padding: `0` is `"0"`, `507` is `"507"`.
pub open spec fn spec_dec(n: int) -> Seq<char>
    decreases n,
{
    if n < 10 {
        seq![digit_char(n)]
    } else {
        spec_dec(n / 10).push(digit_char(n % 10))
    }
}

/// The last two decimal digits of a number, zero-padded: `7` is `"07"`.
pub open spec fn spec_two_digits(n: int) -> Seq<char> {
    seq![digit_char((n / 10) % 10), digit_char(n % 10)]
}

/// The last four decimal digits of a number, zero-padded: `842` is `"0842"`.
pub open spec fn spec_four_digits(n: int) -> Seq<char> {
    seq![
        digit_char((n / 1000) % 10),
        digit_char((n / 100) % 10),
        digit_char((n / 10) % 10),
        digit_char(n % 10),
    ]
}

/// Relies on `String::push`: appends exactly the given character.
#[verifier::external_body]
pub fn string_push(s: &mut String, c: char)
    ensures
        final(s)@ == old(s)@.push(c),
{
    s.push(c);
}

fn digit_to_char(d: u8) -> (c: char)
    requires
        d < 10,
    ensures
        c == digit_char(d as int),
{
    (d + 48) as char
}

pub fn push_two_digits(s: &mut String, n: u64)
    ensures
        final(s)@ == old(s)@ + spec_two_digits(n as int),
{
    string_push(s, digit_to_char(((n / 10) % 10) as u8));
    string_push(s, digit_to_char((n % 10) as u8));
    assert(s@ =~= old(s)@ + spec_two_digits(n as int));
}

pub fn push_four_digits(s: &mut String, n: u64)
    ensures
        final(s)@ == old(s)@ + spec_four_digits(n as int),
{
    string_push(s, digit_to_char(((n / 1000) % 10) as u8));
    string_push(s, digit_to_char(((n / 100) % 10) as u8));
    string_push(s, digit_to_char(((n / 10) % 10) as u8));
    string_push(s, digit_to_char((n % 10) as u8));
    assert(s@ =~= old(s)@ + spec_four_digits(n as int));
}

pub fn push_dec(s: &mut String, n: u64)
    ensures
        final(s)@ == old(s)@ + spec_dec(n as int),
    decreases n,
{
    if n < 10 {
        string_push(s, digit_to_char(n as u8));
        assert(s@ =~= old(s)@ + spec_dec(n as int));
    } else {
        push_dec(s, n / 10);
        string_push(s, digit_to_char((n % 10) as u8));
        assert(s@ =~= old(s)@ + spec_dec(n as int));
    }
}

} // verus!
