//! The server-assigned creation time, modelled as a civil calendar date
//! with a time of day, and its rendering as an ISO 8601 string.
//!
//! The rendering matches the common serialization of such a value:
//! `YYYY-MM-DDTHH:MM:SS`, followed by a fractional part of three or six
//! digits when the microseconds are non-zero (three when they are a whole
//! number of milliseconds), and by nothing when they are zero.

use vstd::prelude::*;
use crate::text::{digit_char, push_char, spec_digit_char};

verus! {

/// A calendar timestamp: date, time of day, and microseconds.
#[derive(Clone, Copy, PartialEq, Eq, Structural)]
pub struct Timestamp {
    pub year: u16,
    pub month: u8,
    pub day: u8,
    pub hour: u8,
    pub minute: u8,
    pub second: u8,
    pub micros: u32,
}

/// Whether a year is a leap year in the Gregorian calendar.
pub open spec fn spec_is_leap_year(y: int) -> bool {
    (y % 4 == 0 && y % 100 != 0) || y % 400 == 0
}

/// The number of days of a month of a given year.
pub open spec fn spec_days_in_month(y: int, m: int) -> int
    recommends
        1 <= m <= 12,
{
    if m == 2 {
        if spec_is_leap_year(y) {
            29
        } else {
            28
        }
    } else if m == 4 || m == 6 || m == 9 || m == 11 {
        30
    } else {
        31
    }
}

/// Whether a year is a leap year in the Gregorian calendar.
pub fn is_leap_year(y: u16) -> (r: bool)
    ensures
        r == spec_is_leap_year(y as int),
{
    (y % 4 == 0 && y % 100 != 0) || y % 400 == 0
}

/// The number of days of a month of a given year.
pub fn days_in_month(y: u16, m: u8) -> (r: u8)
    requires
        1 <= m <= 12,
    ensures
        r == spec_days_in_month(y as int, m as int),
{
    if m == 2 {
        if is_leap_year(y) {
            29
        } else {
            28
        }
    } else if m == 4 || m == 6 || m == 9 || m == 11 {
        30
    } else {
        31
    }
}

impl Timestamp {
    /// A well-formed timestamp: every component within its calendar range.
    pub open spec fn wf(self) -> bool {
        &&& 1 <= self.year <= 9999
        &&& 1 <= self.month <= 12
        &&& 1 <= self.day <= spec_days_in_month(self.year as int, self.month as int)
        &&& self.hour < 24
        &&& self.minute < 60
        &&& self.second < 60
        &&& self.micros < 1000000
    }

    /// Builds a timestamp, accepting exactly the component values that lie
    /// within their calendar ranges.
    pub fn new(year: u16, month: u8, day: u8, hour: u8, minute: u8, second: u8, micros: u32) -> (r: Option<Timestamp>)
        ensures
            r is Some <==> (Timestamp { year, month, day, hour, minute, second, micros }).wf(),
            r is Some ==> r->0 == (Timestamp { year, month, day, hour, minute, second, micros }),
    {
        if 1 <= year && year <= 9999 && 1 <= month && month <= 12 && 1 <= day && day
            <= days_in_month(year, month) && hour < 24 && minute < 60 && second < 60 && micros
            < 1000000 {
            Some(Timestamp { year, month, day, hour, minute, second, micros })
        } else {
            None
        }
    }

    /// The rendered form of the timestamp.
    pub open spec fn spec_render(self) -> Seq<char> {
        spec_dec4(self.year as int) + seq!['-'] + spec_dec2(self.month as int) + seq!['-']
            + spec_dec2(self.day as int) + seq!['T'] + spec_dec2(self.hour as int) + seq![':']
            + spec_dec2(self.minute as int) + seq![':'] + spec_dec2(self.second as int)
            + spec_frac(self.micros as int)
    }

    /// Appends the rendered timestamp to a body under construction.
    pub fn render_onto(&self, out: &mut String)
        requires
            self.wf(),
        ensures
            final(out)@ == old(out)@ + self.spec_render(),
    {
        append_dec4(out, self.year);
        push_char(out, '-');
        append_dec2(out, self.month);
        push_char(out, '-');
        append_dec2(out, self.day);
        push_char(out, 'T');
        append_dec2(out, self.hour);
        push_char(out, ':');
        append_dec2(out, self.minute);
        push_char(out, ':');
        append_dec2(out, self.second);
        append_frac(out, self.micros);
    }

    /// The rendered timestamp on its own.
    pub fn render(&self) -> (r: String)
        requires
            self.wf(),
        ensures
            r@ == self.spec_render(),
    {
        let mut out = String::new();
        self.render_onto(&mut out);
        out
    }
}

/// Two decimal digits, zero-padded.
pub open spec fn spec_dec2(n: int) -> Seq<char>
    recommends
        0 <= n < 100,
{
    seq![spec_digit_char(n / 10 % 10), spec_digit_char(n % 10)]
}

/// Three decimal digits, zero-padded.
pub open spec fn spec_dec3(n: int) -> Seq<char>
    recommends
        0 <= n < 1000,
{
    seq![spec_digit_char(n / 100 % 10), spec_digit_char(n / 10 % 10), spec_digit_char(n % 10)]
}

/// Four decimal digits, zero-padded.
pub open spec fn spec_dec4(n: int) -> Seq<char>
    recommends
        0 <= n < 10000,
{
    seq![
        spec_digit_char(n / 1000 % 10),
        spec_digit_char(n / 100 % 10),
        spec_digit_char(n / 10 % 10),
        spec_digit_char(n % 10),
    ]
}

/// The fractional-second part: empty for zero microseconds, three digits
/// for a whole number of milliseconds, six digits otherwise.
pub open spec fn spec_frac(micros: int) -> Seq<char>
    recommends
        0 <= micros < 1000000,
{
    if micros == 0 {
        Seq::<char>::empty()
    } else if micros % 1000 == 0 {
        seq!['.'] + spec_dec3(micros / 1000)
    } else {
        seq!['.'] + spec_dec3(micros / 1000 % 1000) + spec_dec3(micros % 1000)
    }
}

fn append_dec2(out: &mut String, n: u8)
    requires
        n < 100,
    ensures
        final(out)@ == old(out)@ + spec_dec2(n as int),
{
    push_char(out, digit_char(n / 10 % 10));
    push_char(out, digit_char(n % 10));
    proof {
        assert(out@ =~= old(out)@ + spec_dec2(n as int));
    }
}

fn append_dec3_u32(out: &mut String, n: u32)
    requires
        n < 1000,
    ensures
        final(out)@ == old(out)@ + spec_dec3(n as int),
{
    push_char(out, digit_char((n / 100 % 10) as u8));
    push_char(out, digit_char((n / 10 % 10) as u8));
    push_char(out, digit_char((n % 10) as u8));
    proof {
        assert(out@ =~= old(out)@ + spec_dec3(n as int));
    }
}

fn append_dec4(out: &mut String, n: u16)
    requires
        n < 10000,
    ensures
        final(out)@ == old(out)@ + spec_dec4(n as int),
{
    push_char(out, digit_char((n / 1000 % 10) as u8));
    push_char(out, digit_char((n / 100 % 10) as u8));
    push_char(out, digit_char((n / 10 % 10) as u8));
    push_char(out, digit_char((n % 10) as u8));
    proof {
        assert(out@ =~= old(out)@ + spec_dec4(n as int));
    }
}

fn append_frac(out: &mut String, micros: u32)
    requires
        micros < 1000000,
    ensures
        final(out)@ == old(out)@ + spec_frac(micros as int),
{
    if micros == 0 {
        proof {
            assert(out@ =~= old(out)@ + spec_frac(micros as int));
        }
    } else if micros % 1000 == 0 {
        push_char(out, '.');
        append_dec3_u32(out, micros / 1000);
        proof {
            assert(out@ =~= old(out)@ + spec_frac(micros as int));
        }
    } else {
        push_char(out, '.');
        append_dec3_u32(out, micros / 1000 % 1000);
        append_dec3_u32(out, micros % 1000);
        proof {
            assert(out@ =~= old(out)@ + spec_frac(micros as int));
        }
    }
}

} // verus!
