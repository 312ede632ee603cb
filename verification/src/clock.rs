//! The wall-clock reading that a report starts with.

use vstd::prelude::*;
use crate::text::two_digit_text;

verus! {

/// The error type of the `time` crate's formatting functions.
#[verifier::external_type_specification]
#[verifier::external_body]
pub struct ExParseError(time::ParseError);

/// A time of day as `HH:MM`: two digits each, zero-padded, 24-hour.
pub open spec fn clock_text(hour: nat, minute: nat) -> Seq<char> {
    two_digit_text(hour) + seq![':'] + two_digit_text(minute)
}

/// Formats a time of day with `time::strftime` and the format `%H:%M`.
///
/// Trusted: the call is made on an otherwise empty `time::Tm` whose hour and
/// minute fields are the arguments. For that value and that format the
/// `time` crate accepts the request and writes each field with two digits,
/// zero-padded, and the colon between them.
#[verifier::external_body]
fn strftime_hour_minute(hour: u8, minute: u8) -> (r: Result<String, time::ParseError>)
    requires
        hour < 24,
        minute < 60,
    ensures
        r is Ok,
        r->Ok_0@ == clock_text(hour as nat, minute as nat),
{
    let mut tm = time::empty_tm();
    tm.tm_hour = hour as i32;
    tm.tm_min = minute as i32;
    time::strftime("%H:%M", &tm)
}

/// One reading of the clock: the seconds since the epoch, and the local hour
/// and minute that the same instant shows.
#[derive(Clone, Copy, Debug)]
pub struct WallClock {
    seconds: i64,
    hour: u8,
    minute: u8,
}

impl WallClock {
    /// The hour is below 24 and the minute below 60.
    #[verifier::type_invariant]
    pub closed spec fn wf(self) -> bool {
        self.hour < 24 && self.minute < 60
    }

    /// Seconds since the epoch.
    pub closed spec fn epoch_seconds(self) -> int {
        self.seconds as int
    }

    /// Hour of the day, 0 to 23.
    pub closed spec fn hour_of_day(self) -> nat {
        self.hour as nat
    }

    /// Minute of the hour, 0 to 59.
    pub closed spec fn minute_of_hour(self) -> nat {
        self.minute as nat
    }

    /// The time of day as the report shows it.
    pub open spec fn text(self) -> Seq<char> {
        clock_text(self.hour_of_day(), self.minute_of_hour())
    }

    /// A reading, where the hour and minute are those of a clock face.
    pub fn new(seconds: i64, hour: u8, minute: u8) -> (r: Option<WallClock>)
        ensures
            r is Some <==> hour < 24 && minute < 60,
            r matches Some(c) ==> c.wf() && c.epoch_seconds() == seconds && c.hour_of_day() == hour
                && c.minute_of_hour() == minute,
    {
        if hour < 24 && minute < 60 {
            Some(WallClock { seconds, hour, minute })
        } else {
            None
        }
    }

    pub fn seconds(&self) -> (s: i64)
        ensures
            s == self.epoch_seconds(),
    {
        self.seconds
    }

    pub fn hour(&self) -> (h: u8)
        ensures
            h == self.hour_of_day(),
            h < 24,
    {
        proof {
            use_type_invariant(self);
        }
        self.hour
    }

    pub fn minute(&self) -> (m: u8)
        ensures
            m == self.minute_of_hour(),
            m < 60,
    {
        proof {
            use_type_invariant(self);
        }
        self.minute
    }

    /// The time of day as `HH:MM`.
    pub fn time_of_day(&self) -> (s: String)
        ensures
            s@ == self.text(),
            s@.len() == 5,
    {
        proof {
            use_type_invariant(self);
        }
        match strftime_hour_minute(self.hour, self.minute) {
            Ok(s) => s,
            Err(_) => unreached(),
        }
    }
}

/// The time of day always takes five characters: two digits, a colon, two
/// digits.
pub proof fn clock_text_shape(hour: nat, minute: nat)
    ensures
        clock_text(hour, minute).len() == 5,
        clock_text(hour, minute)[2] == ':',
        clock_text(hour, minute).subrange(0, 2) == two_digit_text(hour),
        clock_text(hour, minute).subrange(3, 5) == two_digit_text(minute),
{
    assert(clock_text(hour, minute).subrange(0, 2) =~= two_digit_text(hour));
    assert(clock_text(hour, minute).subrange(3, 5) =~= two_digit_text(minute));
}

} // verus!
