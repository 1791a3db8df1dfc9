//! The wire field types: packed BCD dates and times, MAC addresses, firmware
//! versions, and raw IPv4 addresses, with their conversions to and from
//! calendar values.
//!
//! Each type stores exactly the bytes that travel on the wire, so the frame
//! codec stays total: a frame with illegal BCD nibbles still decodes, and the
//! conversion to a calendar value is where validity is enforced.

use vstd::prelude::*;
use crate::bcd::{
    bcd_byte_of,
    bcd_byte_valid,
    bcd_byte_value,
    bcd_pack,
    bcd_unpack,
    lemma_bcd_byte_of_value,
    lemma_bcd_value_byte_of,
};
use crate::calendar::{Date, Time, Timestamp};
use crate::error::UhppoteError;
use crate::frame::{push_u8, read_u8};
use crate::text::{dec_byte, hex_pair, push_dec_byte, push_hex_pair};

verus! {

// ---------------------------------------------------------------------------
// DateBCD: four bytes YY YY MM DD, each a packed pair of decimal digits.
// ---------------------------------------------------------------------------
/// A calendar date as it travels on the wire: four BCD bytes, two for the
/// four-digit year and one each for month and day.
#[derive(PartialEq, Eq, Structural, Clone, Copy, Debug)]
pub struct DateBCD {
    pub year_hi: u8,
    pub year_lo: u8,
    pub month: u8,
    pub day: u8,
}

impl DateBCD {
    /// All four bytes carry decimal digits in both nibbles.
    pub open spec fn bcd_ok(self) -> bool {
        bcd_byte_valid(self.year_hi) && bcd_byte_valid(self.year_lo) && bcd_byte_valid(self.month)
            && bcd_byte_valid(self.day)
    }

    pub open spec fn spec_year(self) -> int {
        bcd_byte_value(self.year_hi) * 100 + bcd_byte_value(self.year_lo)
    }

    pub open spec fn spec_month(self) -> int {
        bcd_byte_value(self.month)
    }

    pub open spec fn spec_day(self) -> int {
        bcd_byte_value(self.day)
    }

    /// The calendar date the BCD digits spell (meaningful when `bcd_ok`).
    pub open spec fn spec_date(self) -> Date {
        Date {
            year: self.spec_year() as u16,
            month: self.spec_month() as u8,
            day: self.spec_day() as u8,
        }
    }

    /// The packed form of a year, month and day.
    pub open spec fn spec_of_ymd(year: int, month: int, day: int) -> DateBCD
        recommends
            1000 <= year <= 9999,
            0 <= month < 100,
            0 <= day < 100,
    {
        DateBCD {
            year_hi: bcd_byte_of(year / 100),
            year_lo: bcd_byte_of(year % 100),
            month: bcd_byte_of(month),
            day: bcd_byte_of(day),
        }
    }

    pub open spec fn spec_bytes(self) -> Seq<u8> {
        seq![self.year_hi, self.year_lo, self.month, self.day]
    }

    pub open spec fn spec_at(b: Seq<u8>, i: int) -> DateBCD
        recommends
            0 <= i && i + 4 <= b.len(),
    {
        DateBCD { year_hi: b[i], year_lo: b[i + 1], month: b[i + 2], day: b[i + 3] }
    }

    /// Pack a four-digit year and two-digit month and day into BCD. The codec
    /// does not judge semantic validity: month 13 packs fine.
    pub fn new(year: u16, month: u8, day: u8) -> (r: DateBCD)
        requires
            1000 <= year <= 9999,
            month < 100,
            day < 100,
        ensures
            r == DateBCD::spec_of_ymd(year as int, month as int, day as int),
            r.bcd_ok(),
            r.spec_year() == year,
            r.spec_month() == month,
            r.spec_day() == day,
    {
        let r = DateBCD {
            year_hi: bcd_pack((year / 100) as u8),
            year_lo: bcd_pack((year % 100) as u8),
            month: bcd_pack(month),
            day: bcd_pack(day),
        };
        proof {
            lemma_bcd_byte_of_value(year as int / 100);
            lemma_bcd_byte_of_value(year as int % 100);
            lemma_bcd_byte_of_value(month as int);
            lemma_bcd_byte_of_value(day as int);
        }
        r
    }

    pub fn push_onto(&self, buf: &mut Vec<u8>)
        ensures
            final(buf)@ == old(buf)@ + self.spec_bytes(),
    {
        push_u8(buf, self.year_hi);
        push_u8(buf, self.year_lo);
        push_u8(buf, self.month);
        push_u8(buf, self.day);
        proof {
            assert(buf@ =~= old(buf)@ + self.spec_bytes());
        }
    }

    pub fn read_at(bytes: &[u8], i: usize) -> (r: DateBCD)
        requires
            i + 4 <= bytes@.len(),
        ensures
            r == DateBCD::spec_at(bytes@, i as int),
    {
        let n = bytes.len();
        assert(i + 4 <= n);
        DateBCD {
            year_hi: read_u8(bytes, i),
            year_lo: read_u8(bytes, i + 1),
            month: read_u8(bytes, i + 2),
            day: read_u8(bytes, i + 3),
        }
    }

    /// The result of converting these bytes to a calendar date.
    pub open spec fn spec_to_date(self) -> Result<Date, UhppoteError> {
        if !self.bcd_ok() {
            Err(UhppoteError::InvalidBcd)
        } else if !self.spec_date().is_valid() {
            Err(UhppoteError::InvalidDate)
        } else {
            Ok(self.spec_date())
        }
    }

    /// The calendar date these bytes spell; fails when a nibble is not a
    /// decimal digit or the digits name no real date.
    pub fn to_date(&self) -> (r: Result<Date, UhppoteError>)
        ensures
            r == self.spec_to_date(),
            r is Ok <==> self.bcd_ok() && self.spec_date().is_valid(),
            self.bcd_ok() && self.spec_date().is_valid() ==> r == Ok::<Date, UhppoteError>(
                self.spec_date(),
            ),
            !self.bcd_ok() ==> r == Err::<Date, UhppoteError>(UhppoteError::InvalidBcd),
            self.bcd_ok() && !self.spec_date().is_valid() ==> r == Err::<Date, UhppoteError>(
                UhppoteError::InvalidDate,
            ),
    {
        let yh = bcd_unpack(self.year_hi);
        let yl = bcd_unpack(self.year_lo);
        let mo = bcd_unpack(self.month);
        let dy = bcd_unpack(self.day);
        match (yh, yl, mo, dy) {
            (Some(yh), Some(yl), Some(mo), Some(dy)) => {
                let date = Date::new(yh as u16 * 100 + yl as u16, mo, dy);
                if date.valid() {
                    Ok(date)
                } else {
                    Err(UhppoteError::InvalidDate)
                }
            },
            _ => Err(UhppoteError::InvalidBcd),
        }
    }

    /// The date's text in the form `YYYY-MM-DD`, reading each BCD byte as two
    /// hexadecimal digits.
    pub open spec fn spec_display(self) -> Seq<char> {
        hex_pair(self.year_hi) + hex_pair(self.year_lo) + seq!['-'] + hex_pair(self.month)
            + seq!['-'] + hex_pair(self.day)
    }

    pub fn display_string(&self) -> (r: String)
        ensures
            r@ == self.spec_display(),
    {
        let mut s = String::new();
        push_hex_pair(&mut s, self.year_hi);
        push_hex_pair(&mut s, self.year_lo);
        proof {
            reveal_strlit("-");
        }
        s.append("-");
        push_hex_pair(&mut s, self.month);
        s.append("-");
        push_hex_pair(&mut s, self.day);
        proof {
            assert(s@ =~= self.spec_display());
        }
        s
    }
}

impl Date {
    /// Whether the wire's four-digit date field can carry this value: a real
    /// civil date whose year has four digits.
    pub open spec fn fits_bcd(self) -> bool {
        self.is_valid() && self.year >= 1000
    }

    /// The four BCD bytes of this date; fails when the value is not a real
    /// civil date or the year has fewer than four digits.
    pub fn to_bcd(&self) -> (r: Result<DateBCD, UhppoteError>)
        ensures
            r is Ok <==> self.fits_bcd(),
            self.fits_bcd() ==> r == Ok::<DateBCD, UhppoteError>(
                DateBCD::spec_of_ymd(self.year as int, self.month as int, self.day as int),
            ),
            r is Err ==> r == Err::<DateBCD, UhppoteError>(UhppoteError::InvalidDate),
    {
        if self.valid() && self.year >= 1000 {
            Ok(DateBCD::new(self.year, self.month, self.day))
        } else {
            Err(UhppoteError::InvalidDate)
        }
    }
}

/// A date field that spells a valid date of the years 2000 through 2099
/// converts to the calendar and packs back to the identical wire bytes.
pub proof fn lemma_date_bcd_calendar_round_trip(d: DateBCD)
    requires
        d.bcd_ok(),
        d.spec_date().is_valid(),
        2000 <= d.spec_date().year <= 2099,
    ensures
        DateBCD::spec_of_ymd(
            d.spec_date().year as int,
            d.spec_date().month as int,
            d.spec_date().day as int,
        ) == d,
{
    lemma_bcd_value_byte_of(d.year_hi);
    lemma_bcd_value_byte_of(d.year_lo);
    lemma_bcd_value_byte_of(d.month);
    lemma_bcd_value_byte_of(d.day);
    let vh = bcd_byte_value(d.year_hi);
    let vl = bcd_byte_value(d.year_lo);
    let y = d.spec_year();
    vstd::arithmetic::div_mod::lemma_fundamental_div_mod_converse(y, 100, vh, vl);
    assert(y / 100 == vh && y % 100 == vl);
}

// ---------------------------------------------------------------------------
// DateShortBCD: three bytes YY MM DD with a two-digit year read as 20YY.
// ---------------------------------------------------------------------------
/// A short date as it travels on the wire: three BCD bytes with a two-digit
/// year that stands for 20YY.
#[derive(PartialEq, Eq, Structural, Clone, Copy, Debug)]
pub struct DateShortBCD {
    pub year: u8,
    pub month: u8,
    pub day: u8,
}

impl DateShortBCD {
    pub open spec fn bcd_ok(self) -> bool {
        bcd_byte_valid(self.year) && bcd_byte_valid(self.month) && bcd_byte_valid(self.day)
    }

    /// The calendar date the digits spell, the two-digit year read as 20YY.
    pub open spec fn spec_date(self) -> Date {
        Date {
            year: (2000 + bcd_byte_value(self.year)) as u16,
            month: bcd_byte_value(self.month) as u8,
            day: bcd_byte_value(self.day) as u8,
        }
    }

    pub open spec fn spec_of_ymd(year: int, month: int, day: int) -> DateShortBCD
        recommends
            0 <= year,
            0 <= month < 100,
            0 <= day < 100,
    {
        DateShortBCD {
            year: bcd_byte_of(year % 100),
            month: bcd_byte_of(month),
            day: bcd_byte_of(day),
        }
    }

    pub open spec fn spec_bytes(self) -> Seq<u8> {
        seq![self.year, self.month, self.day]
    }

    pub open spec fn spec_at(b: Seq<u8>, i: int) -> DateShortBCD
        recommends
            0 <= i && i + 3 <= b.len(),
    {
        DateShortBCD { year: b[i], month: b[i + 1], day: b[i + 2] }
    }

    /// Pack a date with the year reduced to its last two digits.
    pub fn new(year: u16, month: u8, day: u8) -> (r: DateShortBCD)
        requires
            month < 100,
            day < 100,
        ensures
            r == DateShortBCD::spec_of_ymd(year as int, month as int, day as int),
            r.bcd_ok(),
    {
        let r = DateShortBCD {
            year: bcd_pack((year % 100) as u8),
            month: bcd_pack(month),
            day: bcd_pack(day),
        };
        proof {
            lemma_bcd_byte_of_value(year as int % 100);
            lemma_bcd_byte_of_value(month as int);
            lemma_bcd_byte_of_value(day as int);
        }
        r
    }

    pub fn push_onto(&self, buf: &mut Vec<u8>)
        ensures
            final(buf)@ == old(buf)@ + self.spec_bytes(),
    {
        push_u8(buf, self.year);
        push_u8(buf, self.month);
        push_u8(buf, self.day);
        proof {
            assert(buf@ =~= old(buf)@ + self.spec_bytes());
        }
    }

    pub fn read_at(bytes: &[u8], i: usize) -> (r: DateShortBCD)
        requires
            i + 3 <= bytes@.len(),
        ensures
            r == DateShortBCD::spec_at(bytes@, i as int),
    {
        let n = bytes.len();
        assert(i + 3 <= n);
        DateShortBCD {
            year: read_u8(bytes, i),
            month: read_u8(bytes, i + 1),
            day: read_u8(bytes, i + 2),
        }
    }

    /// The result of converting these bytes to a calendar date.
    pub open spec fn spec_to_date(self) -> Result<Date, UhppoteError> {
        if !self.bcd_ok() {
            Err(UhppoteError::InvalidBcd)
        } else if !self.spec_date().is_valid() {
            Err(UhppoteError::InvalidDate)
        } else {
            Ok(self.spec_date())
        }
    }

    /// The calendar date these bytes spell, the year read as 20YY.
    pub fn to_date(&self) -> (r: Result<Date, UhppoteError>)
        ensures
            r == self.spec_to_date(),
            r is Ok <==> self.bcd_ok() && self.spec_date().is_valid(),
            self.bcd_ok() && self.spec_date().is_valid() ==> r == Ok::<Date, UhppoteError>(
                self.spec_date(),
            ),
            !self.bcd_ok() ==> r == Err::<Date, UhppoteError>(UhppoteError::InvalidBcd),
            self.bcd_ok() && !self.spec_date().is_valid() ==> r == Err::<Date, UhppoteError>(
                UhppoteError::InvalidDate,
            ),
    {
        let yy = bcd_unpack(self.year);
        let mo = bcd_unpack(self.month);
        let dy = bcd_unpack(self.day);
        match (yy, mo, dy) {
            (Some(yy), Some(mo), Some(dy)) => {
                let date = Date::new(2000 + yy as u16, mo, dy);
                if date.valid() {
                    Ok(date)
                } else {
                    Err(UhppoteError::InvalidDate)
                }
            },
            _ => Err(UhppoteError::InvalidBcd),
        }
    }

    /// The date's text in the form `YYMMDD`.
    pub open spec fn spec_display(self) -> Seq<char> {
        hex_pair(self.year) + hex_pair(self.month) + hex_pair(self.day)
    }

    pub fn display_string(&self) -> (r: String)
        ensures
            r@ == self.spec_display(),
    {
        let mut s = String::new();
        push_hex_pair(&mut s, self.year);
        push_hex_pair(&mut s, self.month);
        push_hex_pair(&mut s, self.day);
        proof {
            assert(s@ =~= self.spec_display());
        }
        s
    }
}

// ---------------------------------------------------------------------------
// TimeWithoutSecondsBCD: two bytes HH MM.
// ---------------------------------------------------------------------------
/// A wall-clock time without seconds as it travels on the wire: two BCD
/// bytes.
#[derive(PartialEq, Eq, Structural, Clone, Copy, Debug)]
pub struct TimeWithoutSecondsBCD {
    pub hour: u8,
    pub minute: u8,
}

impl TimeWithoutSecondsBCD {
    pub open spec fn bcd_ok(self) -> bool {
        bcd_byte_valid(self.hour) && bcd_byte_valid(self.minute)
    }

    /// The wall-clock time the digits spell, with zero seconds.
    pub open spec fn spec_time(self) -> Time {
        Time {
            hour: bcd_byte_value(self.hour) as u8,
            minute: bcd_byte_value(self.minute) as u8,
            second: 0,
        }
    }

    pub open spec fn spec_of_hm(hour: int, minute: int) -> TimeWithoutSecondsBCD
        recommends
            0 <= hour < 100,
            0 <= minute < 100,
    {
        TimeWithoutSecondsBCD { hour: bcd_byte_of(hour), minute: bcd_byte_of(minute) }
    }

    pub open spec fn spec_bytes(self) -> Seq<u8> {
        seq![self.hour, self.minute]
    }

    pub open spec fn spec_at(b: Seq<u8>, i: int) -> TimeWithoutSecondsBCD
        recommends
            0 <= i && i + 2 <= b.len(),
    {
        TimeWithoutSecondsBCD { hour: b[i], minute: b[i + 1] }
    }

    pub fn new(hour: u8, minute: u8) -> (r: TimeWithoutSecondsBCD)
        requires
            hour < 100,
            minute < 100,
        ensures
            r == TimeWithoutSecondsBCD::spec_of_hm(hour as int, minute as int),
            r.bcd_ok(),
            r.spec_time() == (Time { hour, minute, second: 0u8 }),
    {
        let r = TimeWithoutSecondsBCD { hour: bcd_pack(hour), minute: bcd_pack(minute) };
        proof {
            lemma_bcd_byte_of_value(hour as int);
            lemma_bcd_byte_of_value(minute as int);
        }
        r
    }

    pub fn push_onto(&self, buf: &mut Vec<u8>)
        ensures
            final(buf)@ == old(buf)@ + self.spec_bytes(),
    {
        push_u8(buf, self.hour);
        push_u8(buf, self.minute);
        proof {
            assert(buf@ =~= old(buf)@ + self.spec_bytes());
        }
    }

    pub fn read_at(bytes: &[u8], i: usize) -> (r: TimeWithoutSecondsBCD)
        requires
            i + 2 <= bytes@.len(),
        ensures
            r == TimeWithoutSecondsBCD::spec_at(bytes@, i as int),
    {
        let n = bytes.len();
        assert(i + 2 <= n);
        TimeWithoutSecondsBCD { hour: read_u8(bytes, i), minute: read_u8(bytes, i + 1) }
    }

    /// The result of converting these bytes to a wall-clock time.
    pub open spec fn spec_to_time(self) -> Result<Time, UhppoteError> {
        if !self.bcd_ok() {
            Err(UhppoteError::InvalidBcd)
        } else if !self.spec_time().is_valid() {
            Err(UhppoteError::InvalidTime)
        } else {
            Ok(self.spec_time())
        }
    }

    /// The wall-clock time these bytes spell, seconds at zero.
    pub fn to_time(&self) -> (r: Result<Time, UhppoteError>)
        ensures
            r == self.spec_to_time(),
            r is Ok <==> self.bcd_ok() && self.spec_time().is_valid(),
            self.bcd_ok() && self.spec_time().is_valid() ==> r == Ok::<Time, UhppoteError>(
                self.spec_time(),
            ),
            !self.bcd_ok() ==> r == Err::<Time, UhppoteError>(UhppoteError::InvalidBcd),
            self.bcd_ok() && !self.spec_time().is_valid() ==> r == Err::<Time, UhppoteError>(
                UhppoteError::InvalidTime,
            ),
    {
        let hh = bcd_unpack(self.hour);
        let mm = bcd_unpack(self.minute);
        match (hh, mm) {
            (Some(hh), Some(mm)) => {
                let time = Time::new(hh, mm, 0);
                if time.valid() {
                    Ok(time)
                } else {
                    Err(UhppoteError::InvalidTime)
                }
            },
            _ => Err(UhppoteError::InvalidBcd),
        }
    }

    /// The time's text in the form `HH:MM`.
    pub open spec fn spec_display(self) -> Seq<char> {
        hex_pair(self.hour) + seq![':'] + hex_pair(self.minute)
    }

    pub fn display_string(&self) -> (r: String)
        ensures
            r@ == self.spec_display(),
    {
        let mut s = String::new();
        push_hex_pair(&mut s, self.hour);
        proof {
            reveal_strlit(":");
        }
        s.append(":");
        push_hex_pair(&mut s, self.minute);
        proof {
            assert(s@ =~= self.spec_display());
        }
        s
    }
}

// ---------------------------------------------------------------------------
// TimeWithSecondsBCD: three bytes HH MM SS.
// ---------------------------------------------------------------------------
/// A wall-clock time with seconds as it travels on the wire: three BCD
/// bytes.
#[derive(PartialEq, Eq, Structural, Clone, Copy, Debug)]
pub struct TimeWithSecondsBCD {
    pub hour: u8,
    pub minute: u8,
    pub second: u8,
}

impl TimeWithSecondsBCD {
    pub open spec fn bcd_ok(self) -> bool {
        bcd_byte_valid(self.hour) && bcd_byte_valid(self.minute) && bcd_byte_valid(self.second)
    }

    /// The wall-clock time the digits spell.
    pub open spec fn spec_time(self) -> Time {
        Time {
            hour: bcd_byte_value(self.hour) as u8,
            minute: bcd_byte_value(self.minute) as u8,
            second: bcd_byte_value(self.second) as u8,
        }
    }

    pub open spec fn spec_of_hms(hour: int, minute: int, second: int) -> TimeWithSecondsBCD
        recommends
            0 <= hour < 100,
            0 <= minute < 100,
            0 <= second < 100,
    {
        TimeWithSecondsBCD {
            hour: bcd_byte_of(hour),
            minute: bcd_byte_of(minute),
            second: bcd_byte_of(second),
        }
    }

    pub open spec fn spec_bytes(self) -> Seq<u8> {
        seq![self.hour, self.minute, self.second]
    }

    pub open spec fn spec_at(b: Seq<u8>, i: int) -> TimeWithSecondsBCD
        recommends
            0 <= i && i + 3 <= b.len(),
    {
        TimeWithSecondsBCD { hour: b[i], minute: b[i + 1], second: b[i + 2] }
    }

    pub fn new(hour: u8, minute: u8, second: u8) -> (r: TimeWithSecondsBCD)
        requires
            hour < 100,
            minute < 100,
            second < 100,
        ensures
            r == TimeWithSecondsBCD::spec_of_hms(hour as int, minute as int, second as int),
            r.bcd_ok(),
            r.spec_time() == (Time { hour, minute, second }),
    {
        let r = TimeWithSecondsBCD {
            hour: bcd_pack(hour),
            minute: bcd_pack(minute),
            second: bcd_pack(second),
        };
        proof {
            lemma_bcd_byte_of_value(hour as int);
            lemma_bcd_byte_of_value(minute as int);
            lemma_bcd_byte_of_value(second as int);
        }
        r
    }

    pub fn push_onto(&self, buf: &mut Vec<u8>)
        ensures
            final(buf)@ == old(buf)@ + self.spec_bytes(),
    {
        push_u8(buf, self.hour);
        push_u8(buf, self.minute);
        push_u8(buf, self.second);
        proof {
            assert(buf@ =~= old(buf)@ + self.spec_bytes());
        }
    }

    pub fn read_at(bytes: &[u8], i: usize) -> (r: TimeWithSecondsBCD)
        requires
            i + 3 <= bytes@.len(),
        ensures
            r == TimeWithSecondsBCD::spec_at(bytes@, i as int),
    {
        let n = bytes.len();
        assert(i + 3 <= n);
        TimeWithSecondsBCD {
            hour: read_u8(bytes, i),
            minute: read_u8(bytes, i + 1),
            second: read_u8(bytes, i + 2),
        }
    }

    /// The result of converting these bytes to a wall-clock time.
    pub open spec fn spec_to_time(self) -> Result<Time, UhppoteError> {
        if !self.bcd_ok() {
            Err(UhppoteError::InvalidBcd)
        } else if !self.spec_time().is_valid() {
            Err(UhppoteError::InvalidTime)
        } else {
            Ok(self.spec_time())
        }
    }

    /// The wall-clock time these bytes spell.
    pub fn to_time(&self) -> (r: Result<Time, UhppoteError>)
        ensures
            r == self.spec_to_time(),
            r is Ok <==> self.bcd_ok() && self.spec_time().is_valid(),
            self.bcd_ok() && self.spec_time().is_valid() ==> r == Ok::<Time, UhppoteError>(
                self.spec_time(),
            ),
            !self.bcd_ok() ==> r == Err::<Time, UhppoteError>(UhppoteError::InvalidBcd),
            self.bcd_ok() && !self.spec_time().is_valid() ==> r == Err::<Time, UhppoteError>(
                UhppoteError::InvalidTime,
            ),
    {
        let hh = bcd_unpack(self.hour);
        let mm = bcd_unpack(self.minute);
        let ss = bcd_unpack(self.second);
        match (hh, mm, ss) {
            (Some(hh), Some(mm), Some(ss)) => {
                let time = Time::new(hh, mm, ss);
                if time.valid() {
                    Ok(time)
                } else {
                    Err(UhppoteError::InvalidTime)
                }
            },
            _ => Err(UhppoteError::InvalidBcd),
        }
    }

    /// The time's text in the form `HH:MM:SS`.
    pub open spec fn spec_display(self) -> Seq<char> {
        hex_pair(self.hour) + seq![':'] + hex_pair(self.minute) + seq![':'] + hex_pair(self.second)
    }

    pub fn display_string(&self) -> (r: String)
        ensures
            r@ == self.spec_display(),
    {
        let mut s = String::new();
        push_hex_pair(&mut s, self.hour);
        proof {
            reveal_strlit(":");
        }
        s.append(":");
        push_hex_pair(&mut s, self.minute);
        s.append(":");
        push_hex_pair(&mut s, self.second);
        proof {
            assert(s@ =~= self.spec_display());
        }
        s
    }
}

/// A time field that spells a valid wall-clock time converts to the calendar
/// and packs back to the identical wire bytes.
pub proof fn lemma_time_bcd_calendar_round_trip(t: TimeWithSecondsBCD)
    requires
        t.bcd_ok(),
        t.spec_time().is_valid(),
    ensures
        TimeWithSecondsBCD::spec_of_hms(
            t.spec_time().hour as int,
            t.spec_time().minute as int,
            t.spec_time().second as int,
        ) == t,
{
    lemma_bcd_value_byte_of(t.hour);
    lemma_bcd_value_byte_of(t.minute);
    lemma_bcd_value_byte_of(t.second);
}

/// The same round trip for the two-byte time field, seconds being zero.
pub proof fn lemma_time_hm_bcd_calendar_round_trip(t: TimeWithoutSecondsBCD)
    requires
        t.bcd_ok(),
        t.spec_time().is_valid(),
    ensures
        TimeWithoutSecondsBCD::spec_of_hm(
            t.spec_time().hour as int,
            t.spec_time().minute as int,
        ) == t,
{
    lemma_bcd_value_byte_of(t.hour);
    lemma_bcd_value_byte_of(t.minute);
}

impl Time {
    /// The three BCD bytes of this time; fails when the value is not a real
    /// wall-clock time.
    pub fn to_hms_bcd(&self) -> (r: Result<TimeWithSecondsBCD, UhppoteError>)
        ensures
            r is Ok <==> self.is_valid(),
            self.is_valid() ==> r == Ok::<TimeWithSecondsBCD, UhppoteError>(
                TimeWithSecondsBCD::spec_of_hms(
                    self.hour as int,
                    self.minute as int,
                    self.second as int,
                ),
            ),
            r is Err ==> r == Err::<TimeWithSecondsBCD, UhppoteError>(UhppoteError::InvalidTime),
    {
        if self.valid() {
            Ok(TimeWithSecondsBCD::new(self.hour, self.minute, self.second))
        } else {
            Err(UhppoteError::InvalidTime)
        }
    }

    /// The two BCD bytes of this time without its seconds; fails when hour or
    /// minute is out of range.
    pub fn to_hm_bcd(&self) -> (r: Result<TimeWithoutSecondsBCD, UhppoteError>)
        ensures
            r is Ok <==> self.hour < 24 && self.minute < 60,
            self.hour < 24 && self.minute < 60 ==> r == Ok::<TimeWithoutSecondsBCD, UhppoteError>(
                TimeWithoutSecondsBCD::spec_of_hm(self.hour as int, self.minute as int),
            ),
            r is Err ==> r == Err::<TimeWithoutSecondsBCD, UhppoteError>(UhppoteError::InvalidTime),
    {
        if self.hour < 24 && self.minute < 60 {
            Ok(TimeWithoutSecondsBCD::new(self.hour, self.minute))
        } else {
            Err(UhppoteError::InvalidTime)
        }
    }
}

// ---------------------------------------------------------------------------
// DateTime: a DateBCD followed by a TimeWithSecondsBCD, seven bytes.
// ---------------------------------------------------------------------------
/// A full timestamp as it travels on the wire: a date followed by a time
/// with seconds.
#[derive(PartialEq, Eq, Structural, Clone, Copy, Debug)]
pub struct DateTime {
    pub date: DateBCD,
    pub time: TimeWithSecondsBCD,
}

impl DateTime {
    pub open spec fn bcd_ok(self) -> bool {
        self.date.bcd_ok() && self.time.bcd_ok()
    }

    /// The calendar timestamp the digits spell.
    pub open spec fn spec_timestamp(self) -> Timestamp {
        Timestamp { date: self.date.spec_date(), time: self.time.spec_time() }
    }

    pub open spec fn spec_bytes(self) -> Seq<u8> {
        self.date.spec_bytes() + self.time.spec_bytes()
    }

    pub open spec fn spec_at(b: Seq<u8>, i: int) -> DateTime
        recommends
            0 <= i && i + 7 <= b.len(),
    {
        DateTime { date: DateBCD::spec_at(b, i), time: TimeWithSecondsBCD::spec_at(b, i + 4) }
    }

    pub fn new(year: u16, month: u8, day: u8, hour: u8, minute: u8, second: u8) -> (r: DateTime)
        requires
            1000 <= year <= 9999,
            month < 100,
            day < 100,
            hour < 100,
            minute < 100,
            second < 100,
        ensures
            r.date == DateBCD::spec_of_ymd(year as int, month as int, day as int),
            r.time == TimeWithSecondsBCD::spec_of_hms(hour as int, minute as int, second as int),
            r.bcd_ok(),
    {
        DateTime {
            date: DateBCD::new(year, month, day),
            time: TimeWithSecondsBCD::new(hour, minute, second),
        }
    }

    pub fn push_onto(&self, buf: &mut Vec<u8>)
        ensures
            final(buf)@ == old(buf)@ + self.spec_bytes(),
    {
        self.date.push_onto(buf);
        self.time.push_onto(buf);
        proof {
            assert(buf@ =~= old(buf)@ + self.spec_bytes());
        }
    }

    pub fn read_at(bytes: &[u8], i: usize) -> (r: DateTime)
        requires
            i + 7 <= bytes@.len(),
        ensures
            r == DateTime::spec_at(bytes@, i as int),
    {
        let n = bytes.len();
        assert(i + 7 <= n);
        DateTime {
            date: DateBCD::read_at(bytes, i),
            time: TimeWithSecondsBCD::read_at(bytes, i + 4),
        }
    }

    /// The result of converting these bytes to a calendar timestamp; the
    /// date is judged first.
    pub open spec fn spec_to_timestamp(self) -> Result<Timestamp, UhppoteError> {
        match self.date.spec_to_date() {
            Err(e) => Err(e),
            Ok(d) => match self.time.spec_to_time() {
                Err(e) => Err(e),
                Ok(t) => Ok(Timestamp { date: d, time: t }),
            },
        }
    }

    /// The calendar timestamp these bytes spell; the date is judged first.
    pub fn to_timestamp(&self) -> (r: Result<Timestamp, UhppoteError>)
        ensures
            r == self.spec_to_timestamp(),
            r is Ok <==> self.bcd_ok() && self.spec_timestamp().is_valid(),
            self.bcd_ok() && self.spec_timestamp().is_valid() ==> r == Ok::<
                Timestamp,
                UhppoteError,
            >(self.spec_timestamp()),
    {
        let date = match self.date.to_date() {
            Ok(d) => d,
            Err(e) => {
                return Err(e);
            },
        };
        let time = match self.time.to_time() {
            Ok(t) => t,
            Err(e) => {
                return Err(e);
            },
        };
        Ok(Timestamp::new(date, time))
    }

    /// The timestamp's text in the form `YYYY-MM-DD HH:MM:SS`.
    pub open spec fn spec_display(self) -> Seq<char> {
        self.date.spec_display() + seq![' '] + self.time.spec_display()
    }

    pub fn display_string(&self) -> (r: String)
        ensures
            r@ == self.spec_display(),
    {
        let mut s = self.date.display_string();
        proof {
            reveal_strlit(" ");
        }
        s.append(" ");
        let t = self.time.display_string();
        s.append(t.as_str());
        proof {
            assert(s@ =~= self.spec_display());
        }
        s
    }
}

impl Timestamp {
    /// The seven BCD bytes of this timestamp; the date is judged first.
    pub fn to_date_time(&self) -> (r: Result<DateTime, UhppoteError>)
        ensures
            r is Ok <==> self.is_valid() && self.date.year >= 1000,
            self.is_valid() && self.date.year >= 1000 ==> (r matches Ok(dt) && dt.date
                == DateBCD::spec_of_ymd(
                self.date.year as int,
                self.date.month as int,
                self.date.day as int,
            ) && dt.time == TimeWithSecondsBCD::spec_of_hms(
                self.time.hour as int,
                self.time.minute as int,
                self.time.second as int,
            )),
    {
        let date = match self.date.to_bcd() {
            Ok(d) => d,
            Err(e) => {
                return Err(e);
            },
        };
        let time = match self.time.to_hms_bcd() {
            Ok(t) => t,
            Err(e) => {
                return Err(e);
            },
        };
        Ok(DateTime { date, time })
    }
}

// ---------------------------------------------------------------------------
// MacAddress: six raw bytes.
// ---------------------------------------------------------------------------
/// A hardware address: six raw bytes, displayed as colon-separated lowercase
/// hex.
#[derive(PartialEq, Eq, Clone, Copy, Debug)]
pub struct MacAddress {
    pub addr: (u8, u8, u8, u8, u8, u8),
}

impl MacAddress {
    pub fn new(addr: (u8, u8, u8, u8, u8, u8)) -> (r: MacAddress)
        ensures
            r.addr == addr,
    {
        MacAddress { addr }
    }

    pub open spec fn spec_bytes(self) -> Seq<u8> {
        seq![self.addr.0, self.addr.1, self.addr.2, self.addr.3, self.addr.4, self.addr.5]
    }

    pub open spec fn spec_at(b: Seq<u8>, i: int) -> MacAddress
        recommends
            0 <= i && i + 6 <= b.len(),
    {
        MacAddress { addr: (b[i], b[i + 1], b[i + 2], b[i + 3], b[i + 4], b[i + 5]) }
    }

    pub fn push_onto(&self, buf: &mut Vec<u8>)
        ensures
            final(buf)@ == old(buf)@ + self.spec_bytes(),
    {
        push_u8(buf, self.addr.0);
        push_u8(buf, self.addr.1);
        push_u8(buf, self.addr.2);
        push_u8(buf, self.addr.3);
        push_u8(buf, self.addr.4);
        push_u8(buf, self.addr.5);
        proof {
            assert(buf@ =~= old(buf)@ + self.spec_bytes());
        }
    }

    pub fn read_at(bytes: &[u8], i: usize) -> (r: MacAddress)
        requires
            i + 6 <= bytes@.len(),
        ensures
            r == MacAddress::spec_at(bytes@, i as int),
    {
        let n = bytes.len();
        assert(i + 6 <= n);
        MacAddress {
            addr: (
                read_u8(bytes, i),
                read_u8(bytes, i + 1),
                read_u8(bytes, i + 2),
                read_u8(bytes, i + 3),
                read_u8(bytes, i + 4),
                read_u8(bytes, i + 5),
            ),
        }
    }

    /// The address as colon-separated lowercase hexadecimal pairs.
    pub open spec fn spec_display(self) -> Seq<char> {
        hex_pair(self.addr.0) + seq![':'] + hex_pair(self.addr.1) + seq![':'] + hex_pair(
            self.addr.2,
        ) + seq![':'] + hex_pair(self.addr.3) + seq![':'] + hex_pair(self.addr.4) + seq![':']
            + hex_pair(self.addr.5)
    }

    pub fn display_string(&self) -> (r: String)
        ensures
            r@ == self.spec_display(),
    {
        let mut s = String::new();
        proof {
            reveal_strlit(":");
        }
        push_hex_pair(&mut s, self.addr.0);
        s.append(":");
        push_hex_pair(&mut s, self.addr.1);
        s.append(":");
        push_hex_pair(&mut s, self.addr.2);
        s.append(":");
        push_hex_pair(&mut s, self.addr.3);
        s.append(":");
        push_hex_pair(&mut s, self.addr.4);
        s.append(":");
        push_hex_pair(&mut s, self.addr.5);
        proof {
            assert(s@ =~= self.spec_display());
        }
        s
    }
}

// ---------------------------------------------------------------------------
// Version: two raw bytes, displayed in decimal as major.minor.
// ---------------------------------------------------------------------------
/// A firmware version: two raw bytes, displayed as `major.minor` with both
/// parts in plain decimal.
#[derive(PartialEq, Eq, Structural, Clone, Copy, Debug)]
pub struct Version {
    pub major: u8,
    pub minor: u8,
}

impl Version {
    pub fn new(major: u8, minor: u8) -> (r: Version)
        ensures
            r == (Version { major, minor }),
    {
        Version { major, minor }
    }

    pub open spec fn spec_bytes(self) -> Seq<u8> {
        seq![self.major, self.minor]
    }

    pub open spec fn spec_at(b: Seq<u8>, i: int) -> Version
        recommends
            0 <= i && i + 2 <= b.len(),
    {
        Version { major: b[i], minor: b[i + 1] }
    }

    pub fn push_onto(&self, buf: &mut Vec<u8>)
        ensures
            final(buf)@ == old(buf)@ + self.spec_bytes(),
    {
        push_u8(buf, self.major);
        push_u8(buf, self.minor);
        proof {
            assert(buf@ =~= old(buf)@ + self.spec_bytes());
        }
    }

    pub fn read_at(bytes: &[u8], i: usize) -> (r: Version)
        requires
            i + 2 <= bytes@.len(),
        ensures
            r == Version::spec_at(bytes@, i as int),
    {
        let n = bytes.len();
        assert(i + 2 <= n);
        Version { major: read_u8(bytes, i), minor: read_u8(bytes, i + 1) }
    }

    /// The version as `major.minor`, both parts in decimal.
    pub open spec fn spec_display(self) -> Seq<char> {
        dec_byte(self.major) + seq!['.'] + dec_byte(self.minor)
    }

    pub fn display_string(&self) -> (r: String)
        ensures
            r@ == self.spec_display(),
    {
        let mut s = String::new();
        push_dec_byte(&mut s, self.major);
        proof {
            reveal_strlit(".");
        }
        s.append(".");
        push_dec_byte(&mut s, self.minor);
        proof {
            assert(s@ =~= self.spec_display());
        }
        s
    }
}

// ---------------------------------------------------------------------------
// Ipv4: four raw bytes in network order.
// ---------------------------------------------------------------------------
/// An IPv4 address as the wire carries it: four raw bytes in network order.
#[derive(PartialEq, Eq, Structural, Clone, Copy, Debug)]
pub struct Ipv4 {
    pub a: u8,
    pub b: u8,
    pub c: u8,
    pub d: u8,
}

impl Ipv4 {
    pub fn new(a: u8, b: u8, c: u8, d: u8) -> (r: Ipv4)
        ensures
            r == (Ipv4 { a, b, c, d }),
    {
        Ipv4 { a, b, c, d }
    }

    pub open spec fn spec_bytes(self) -> Seq<u8> {
        seq![self.a, self.b, self.c, self.d]
    }

    pub open spec fn spec_at(bs: Seq<u8>, i: int) -> Ipv4
        recommends
            0 <= i && i + 4 <= bs.len(),
    {
        Ipv4 { a: bs[i], b: bs[i + 1], c: bs[i + 2], d: bs[i + 3] }
    }

    pub fn push_onto(&self, buf: &mut Vec<u8>)
        ensures
            final(buf)@ == old(buf)@ + self.spec_bytes(),
    {
        push_u8(buf, self.a);
        push_u8(buf, self.b);
        push_u8(buf, self.c);
        push_u8(buf, self.d);
        proof {
            assert(buf@ =~= old(buf)@ + self.spec_bytes());
        }
    }

    pub fn read_at(bytes: &[u8], i: usize) -> (r: Ipv4)
        requires
            i + 4 <= bytes@.len(),
        ensures
            r == Ipv4::spec_at(bytes@, i as int),
    {
        let n = bytes.len();
        assert(i + 4 <= n);
        Ipv4 {
            a: read_u8(bytes, i),
            b: read_u8(bytes, i + 1),
            c: read_u8(bytes, i + 2),
            d: read_u8(bytes, i + 3),
        }
    }
}

} // verus!
