//! Simple representation of time.
//!
//! This is a simplified representation of time, so that it can also be used
//! in applications without a full operating system.

use vstd::prelude::*;

verus! {

/// A clock time, decomposed into local hour, minute and second fields.
///
/// The fields are always derived from an absolute instant or from another
/// `Time`, never set independently, so every value satisfies [`Time::inv`]:
/// minutes and seconds stay below 60 and the hour stays below 24, except
/// that rounding up to the next hour may produce the documented edge value
/// of hour 24 with minute and second zero (the hour does not wrap).
#[derive(Eq, PartialEq, Structural, Debug, Clone, Copy)]
pub struct Time {
    hours_local: u8,
    minutes_local: u8,
    seconds_local: u8,
}

impl Time {
    /// Hours in the local timezone, as an abstract value.
    pub closed spec fn spec_hours(&self) -> u8 {
        self.hours_local
    }

    /// Minutes in the local timezone, as an abstract value.
    pub closed spec fn spec_minutes(&self) -> u8 {
        self.minutes_local
    }

    /// Seconds in the local timezone, as an abstract value.
    pub closed spec fn spec_seconds(&self) -> u8 {
        self.seconds_local
    }

    /// Every constructed `Time` keeps its fields in clock range; only the
    /// quarter-hour rounding may reach hour 24, and then only as `24:00:00`.
    pub open spec fn inv(&self) -> bool {
        &&& self.spec_hours() <= 23 || (self.spec_hours() == 24 && self.spec_minutes() == 0
            && self.spec_seconds() == 0)
        &&& self.spec_minutes() <= 59
        &&& self.spec_seconds() <= 59
    }

    /// Return a time from a unix epoch and timezone offset.
    ///
    /// # Arguments
    /// * `epoch` - The number of seconds since 1970-01-01T00:00:00
    /// * `timezone_offset` - The number of seconds timezone offset
    pub fn from_unix_epoch(epoch: u64, timezone_offset: u64) -> (r: Self)
        requires
            epoch + timezone_offset <= u64::MAX,
        ensures
            r.spec_hours() == ((epoch + timezone_offset) / 3600) % 24,
            r.spec_minutes() == ((epoch + timezone_offset) / 60) % 60,
            r.spec_seconds() == (epoch + timezone_offset) % 60,
            r.inv(),
    {
        let local_epoch = epoch + timezone_offset;
        proof {
            vstd::arithmetic::div_mod::lemma_div_denominator(local_epoch as int, 60, 60);
        }
        Time {
            hours_local: (local_epoch / 60 / 60 % 24) as u8,
            minutes_local: (local_epoch / 60 % 60) as u8,
            seconds_local: (local_epoch % 60) as u8,
        }
    }

    /// Return a time from already-decomposed local clock fields, for
    /// callers that read a wall clock through some other time library.
    pub fn from_hms(hours: u8, minutes: u8, seconds: u8) -> (r: Self)
        requires
            hours <= 23,
            minutes <= 59,
            seconds <= 59,
        ensures
            r.spec_hours() == hours,
            r.spec_minutes() == minutes,
            r.spec_seconds() == seconds,
            r.inv(),
    {
        Time { hours_local: hours, minutes_local: minutes, seconds_local: seconds }
    }

    /// Get hours in local timezone.
    pub fn hours_local(&self) -> (r: u8)
        ensures
            r == self.spec_hours(),
    {
        self.hours_local
    }

    /// Get minutes in local timezone.
    pub fn minutes_local(&self) -> (r: u8)
        ensures
            r == self.spec_minutes(),
    {
        self.minutes_local
    }

    /// Get seconds in local timezone.
    pub fn seconds_local(&self) -> (r: u8)
        ensures
            r == self.spec_seconds(),
    {
        self.seconds_local
    }

    /// The quarter that this time's minutes round to: the half-open bins
    /// 0 to 7, 8 to 22, 23 to 37 and 38 to 52 round to `:00`, `:15`, `:30`
    /// and `:45`, and 53 to 59 rounds up to `:00` of the next hour.
    pub open spec fn spec_rounded_minutes(&self) -> int {
        if self.spec_minutes() <= 7 {
            0
        } else if self.spec_minutes() <= 22 {
            15
        } else if self.spec_minutes() <= 37 {
            30
        } else if self.spec_minutes() <= 52 {
            45
        } else {
            0
        }
    }

    /// The hour after quarter rounding: unchanged, except that minutes 53
    /// to 59 round up into the next hour, without wrapping at 24.
    pub open spec fn spec_rounded_hours(&self) -> int {
        if self.spec_minutes() <= 52 {
            self.spec_hours() as int
        } else {
            self.spec_hours() + 1
        }
    }

    /// Round a time to its closest quarter hour.
    ///
    /// Minutes 0 to 7 round to `:00`, 8 to 22 to `:15`, 23 to 37 to `:30`,
    /// 38 to 52 to `:45`, and 53 to 59 to `:00` of the next hour. Seconds
    /// are always zeroed. When rounding crosses into the next hour the hour
    /// increments without wrapping at 24.
    pub fn round_to_quarters(self) -> (r: Time)
        requires
            self.inv(),
        ensures
            r.inv(),
            r.spec_hours() == self.spec_rounded_hours(),
            r.spec_minutes() == self.spec_rounded_minutes(),
            r.spec_seconds() == 0,
    {
        let mut hours = self.hours_local;
        let mut minutes = self.minutes_local;
        if minutes <= 7 {
            minutes = 0;
        } else if minutes > 7 && minutes <= 22 {
            minutes = 15;
        } else if minutes > 22 && minutes <= 37 {
            minutes = 30;
        } else if minutes > 37 && minutes <= 52 {
            minutes = 45;
        } else {
            hours += 1;
            minutes = 0;
        }
        Self { hours_local: hours, minutes_local: minutes, seconds_local: 0 }
    }
}

impl Default for Time {
    /// The zero time, `00:00:00`.
    fn default() -> (r: Self)
        ensures
            r.spec_hours() == 0,
            r.spec_minutes() == 0,
            r.spec_seconds() == 0,
            r.inv(),
    {
        Time { hours_local: 0, minutes_local: 0, seconds_local: 0 }
    }
}

} // verus!
