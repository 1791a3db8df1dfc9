//! The BCD codec and the wire field types: packing, display text, and
//! calendar conversions.

use uhppote::bcd::{decode, encode};
use uhppote::calendar::{Date, Time, Timestamp};
use uhppote::error::UhppoteError;
use uhppote::wire::{DateBCD, DateShortBCD, DateTime, TimeWithSecondsBCD, TimeWithoutSecondsBCD};

#[test]
fn test_encode() {
    assert_eq!(encode("".to_string()), vec![]);
    assert_eq!(encode("1".to_string()), vec![0x01]);
    assert_eq!(encode("12".to_string()), vec![0x12]);
    assert_eq!(encode("123".to_string()), vec![0x01, 0x23]);
    assert_eq!(encode("1234".to_string()), vec![0x12, 0x34]);
    assert_eq!(encode("20191231".to_string()), vec![0x20, 0x19, 0x12, 0x31]);
}

#[test]
fn bcd_decode_inverts_encode() {
    assert_eq!(decode(&encode("20191231".to_string())).unwrap(), "20191231".to_string());
    assert_eq!(decode(&encode("123".to_string())).unwrap(), "0123".to_string());
    assert_eq!(decode(&vec![0x1a]), None);
}

#[test]
fn test_date_bcd_into_naive_date() {
    let date = Date::new(2019, 1, 1);
    let bcd = DateBCD::new(2019, 1, 1);
    let converted: Date = bcd.to_date().unwrap();
    assert_eq!(converted, date);
}

#[test]
fn test_date_bcd_from_naive_date() {
    let date = Date::new(2019, 1, 1);
    let bcd = DateBCD::new(2019, 1, 1);
    let converted = date.to_bcd().unwrap();
    assert_eq!(converted, bcd);
}

#[test]
fn test_date_bcd_display() {
    let date = DateBCD::new(2019, 1, 1);
    assert_eq!(date.display_string(), "2019-01-01".to_string());
}

#[test]
fn test_time_without_seconds_bcd_from_naive_time() {
    let time = Time::new(8, 12, 0);
    let bcd = TimeWithoutSecondsBCD::new(8, 12);
    let converted = time.to_hm_bcd().unwrap();
    assert_eq!(converted, bcd);
}

#[test]
fn test_time_without_seconds_bcd_into_naive_time() {
    let time = Time::new(8, 12, 0);
    let bcd = TimeWithoutSecondsBCD::new(8, 12);
    let converted: Time = bcd.to_time().unwrap();
    assert_eq!(converted, time);
}

#[test]
fn test_time_without_seconds_bcd_display() {
    let time = TimeWithoutSecondsBCD::new(8, 12);
    assert_eq!(time.display_string(), "08:12".to_string());
}

#[test]
fn test_time_with_seconds_bcd_from_naive_time() {
    let time = Time::new(8, 12, 13);
    let bcd = TimeWithSecondsBCD::new(8, 12, 13);
    let converted = time.to_hms_bcd().unwrap();
    assert_eq!(converted, bcd);
}

#[test]
fn test_time_with_seconds_bcd_into_naive_time() {
    let time = Time::new(8, 12, 13);
    let bcd = TimeWithSecondsBCD::new(8, 12, 13);
    let converted: Time = bcd.to_time().unwrap();
    assert_eq!(converted, time);
}

#[test]
fn test_time_with_seconds_bcd_display() {
    let time = TimeWithSecondsBCD::new(8, 12, 13);
    assert_eq!(time.display_string(), "08:12:13".to_string());
}

#[test]
fn test_date_time_bcd_from_naive_time() {
    let date_time = Timestamp::new(Date::new(2019, 8, 1), Time::new(8, 31, 22));
    let bcd = DateTime::new(2019, 8, 1, 8, 31, 22);
    let converted = date_time.to_date_time().unwrap();
    assert_eq!(converted, bcd);
}

#[test]
fn test_date_time_bcd_into_naive_date_time() {
    let date_time = Timestamp::new(Date::new(2019, 8, 1), Time::new(8, 31, 22));
    let bcd = DateTime::new(2019, 8, 1, 8, 31, 22);
    let converted: Timestamp = bcd.to_timestamp().unwrap();
    assert_eq!(converted, date_time);
}

#[test]
fn test_date_time_bcd_display() {
    let date_time = DateTime::new(2019, 8, 1, 8, 31, 22);
    assert_eq!(date_time.display_string(), "2019-08-01 08:31:22".to_string());
}

#[test]
fn test_date_short_bcd_into_naive_date() {
    let date = Date::new(2019, 1, 1);
    let bcd = DateShortBCD::new(2019, 1, 1);
    let converted: Date = bcd.to_date().unwrap();
    assert_eq!(converted, date);
}

#[test]
fn test_date_short_bcd_display() {
    let date_time = DateShortBCD::new(2019, 8, 1);
    assert_eq!(date_time.display_string(), "190801".to_string());
}

#[test]
fn date_conversion_rejects_bad_nibbles_and_unreal_dates() {
    // 0x2a in the year: not a decimal pair.
    let bad_nibble = DateBCD { year_hi: 0x20, year_lo: 0x2a, month: 0x01, day: 0x01 };
    assert_eq!(bad_nibble.to_date(), Err(UhppoteError::InvalidBcd));
    // 2019-02-29 does not exist.
    let unreal = DateBCD::new(2019, 2, 29);
    assert_eq!(unreal.to_date(), Err(UhppoteError::InvalidDate));
    // 2020-02-29 does.
    let leap = DateBCD::new(2020, 2, 29);
    assert_eq!(leap.to_date().unwrap(), Date::new(2020, 2, 29));
}

#[test]
fn time_conversion_rejects_out_of_range_fields() {
    let late = TimeWithSecondsBCD::new(24, 0, 0);
    assert_eq!(late.to_time(), Err(UhppoteError::InvalidTime));
    let bad_nibble = TimeWithSecondsBCD { hour: 0x1f, minute: 0x00, second: 0x00 };
    assert_eq!(bad_nibble.to_time(), Err(UhppoteError::InvalidBcd));
    assert_eq!(Time::new(25, 0, 0).to_hms_bcd(), Err(UhppoteError::InvalidTime));
}
