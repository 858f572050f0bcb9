//! Character-level helpers for building response bodies.

use vstd::prelude::*;

verus! {

/// Relies on `String::push` from std: appends exactly the one character.
#[verifier::external_body]
pub(crate) fn push_char(s: &mut String, c: char)
    ensures
        final(s)@ == old(s)@ + seq![c],
{
    s.push(c);
}

/// The character for a single decimal digit.
pub open spec fn spec_digit_char(d: int) -> char
    recommends
        0 <= d < 10,
{
    ((d + 48) as u8) as char
}

/// The lower-case character for a single hexadecimal digit.
pub open spec fn spec_hex_char(d: int) -> char
    recommends
        0 <= d < 16,
{
    if d < 10 {
        ((d + 48) as u8) as char
    } else {
        ((d + 87) as u8) as char
    }
}

/// Turns a decimal digit into its character.
pub fn digit_char(d: u8) -> (c: char)
    requires
        d < 10,
    ensures
        c == spec_digit_char(d as int),
{
    (d + 48) as char
}

/// Turns a hexadecimal digit into its lower-case character.
pub fn hex_char(d: u8) -> (c: char)
    requires
        d < 16,
    ensures
        c == spec_hex_char(d as int),
{
    if d < 10 {
        (d + 48) as char
    } else {
        (d + 87) as char
    }
}

} // verus!
