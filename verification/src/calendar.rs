//! Plain calendar values: dates, wall-clock times, and their pairing.
//!
//! The wire types carry dates and times as packed BCD; these are the
//! human-facing counterparts the rest of the library converts to and from.
//! Validity is the ordinary civil calendar: months run 1 to 12, days fit the
//! month (leap years included), and wall-clock fields stay under 24/60/60.

use vstd::prelude::*;

verus! {

/// A civil calendar date. The wire protocol writes years as four decimal
/// digits, so only years up to 9999 are representable on a controller.
#[derive(PartialEq, Eq, Structural, Clone, Copy, Debug)]
pub struct Date {
    pub year: u16,
    pub month: u8,
    pub day: u8,
}

/// A wall-clock time of day.
#[derive(PartialEq, Eq, Structural, Clone, Copy, Debug)]
pub struct Time {
    pub hour: u8,
    pub minute: u8,
    pub second: u8,
}

/// A date paired with a wall-clock time.
#[derive(PartialEq, Eq, Structural, Clone, Copy, Debug)]
pub struct Timestamp {
    pub date: Date,
    pub time: Time,
}

pub open spec fn spec_is_leap_year(y: int) -> bool {
    y % 4 == 0 && (y % 100 != 0 || y % 400 == 0)
}

pub open spec fn spec_days_in_month(y: int, m: int) -> int
    recommends
        1 <= m <= 12,
{
    if m == 2 {
        if spec_is_leap_year(y) {
            29
        } else {
            28
        }
    } else if m == 4 || m == 6 || m == 9 || m == 11 {
        30
    } else {
        31
    }
}

impl Date {
    /// A real civil date whose year a four-digit wire field can hold.
    pub open spec fn is_valid(self) -> bool {
        &&& self.year <= 9999
        &&& 1 <= self.month <= 12
        &&& 1 <= self.day <= spec_days_in_month(self.year as int, self.month as int)
    }

    pub fn new(year: u16, month: u8, day: u8) -> (r: Date)
        ensures
            r == (Date { year, month, day }),
    {
        Date { year, month, day }
    }

    /// Whether this value is a real civil date with a four-digit year.
    pub fn valid(&self) -> (r: bool)
        ensures
            r == self.is_valid(),
    {
        let days: u8 = if self.month == 2 {
            if (self.year % 4 == 0) && (self.year % 100 != 0 || self.year % 400 == 0) {
                29
            } else {
                28
            }
        } else if self.month == 4 || self.month == 6 || self.month == 9 || self.month == 11 {
            30
        } else {
            31
        };
        self.year <= 9999 && 1 <= self.month && self.month <= 12 && 1 <= self.day && self.day
            <= days
    }
}

impl Time {
    /// A real wall-clock time.
    pub open spec fn is_valid(self) -> bool {
        self.hour < 24 && self.minute < 60 && self.second < 60
    }

    pub fn new(hour: u8, minute: u8, second: u8) -> (r: Time)
        ensures
            r == (Time { hour, minute, second }),
    {
        Time { hour, minute, second }
    }

    /// Whether the fields stay under 24/60/60.
    pub fn valid(&self) -> (r: bool)
        ensures
            r == self.is_valid(),
    {
        self.hour < 24 && self.minute < 60 && self.second < 60
    }
}

impl Timestamp {
    pub open spec fn is_valid(self) -> bool {
        self.date.is_valid() && self.time.is_valid()
    }

    pub fn new(date: Date, time: Time) -> (r: Timestamp)
        ensures
            r == (Timestamp { date, time }),
    {
        Timestamp { date, time }
    }
}

} // verus!
