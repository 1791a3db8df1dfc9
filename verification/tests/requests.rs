//! Request encodings checked byte for byte against captured frames.
//!
//! Each expected frame is written as its meaningful prefix; the rest of
//! the 64 bytes is zero padding.

use uhppote::messages::add_task::AddTaskRequest;
use uhppote::messages::clear_time_profiles::ClearTimeProfilesRequest;
use uhppote::messages::get_card_by_index::GetCardByIndexRequest;
use uhppote::messages::get_config::GetConfigRequest;
use uhppote::messages::get_event::GetEventRequest;
use uhppote::messages::get_event_index::GetEventIndexRequest;
use uhppote::messages::get_status::GetStatusRequest;
use uhppote::messages::get_time_profile::GetTimeProfileRequest;
use uhppote::messages::put_card::PutCardRequest;
use uhppote::messages::set_address::SetAddressRequest;
use uhppote::messages::set_door_control_state::SetDoorControlStateRequest;
use uhppote::messages::set_event_index::SetEventIndexRequest;
use uhppote::messages::set_first_card::SetFirstCardRequest;
use uhppote::messages::set_listener::SetListenerRequest;
use uhppote::messages::set_time_profile::SetTimeProfileRequest;
use uhppote::wire::{DateBCD, Ipv4, TimeWithoutSecondsBCD};

/// A full frame: the given prefix padded with zeros to 64 bytes.
fn frame64(prefix: &[u8]) -> Vec<u8> {
    let mut v = prefix.to_vec();
    v.resize(64, 0);
    v
}

#[test]
fn add_task_request_to_bytes() {
    let expected = frame64(&[
        0x17, 0xa8, 0x00, 0x00, 0x2d, 0x55, 0x39, 0x19, 0x20, 0x21,
        0x04, 0x01, 0x20, 0x21, 0x12, 0x29, 0x01, 0x01, 0x00, 0x01,
        0x00, 0x01, 0x01, 0x08, 0x30, 0x03, 0x04, 0x07,
    ]);
    let r = AddTaskRequest::new(423187757, DateBCD::new(2021, 4, 1), DateBCD::new(2021, 12, 29), true, true, false, true, false, true, true, TimeWithoutSecondsBCD::new(8, 30), 3, 4, 7);
    assert_eq!(expected, r.to_bytes());
}

#[test]
fn clear_time_profile_request_to_bytes() {
    let expected = frame64(&[
        0x17, 0x8a, 0x00, 0x00, 0x2d, 0x55, 0x39, 0x19, 0x55, 0xaa,
        0xaa, 0x55,
    ]);
    let r = ClearTimeProfilesRequest::new(423187757, 0x55aaaa55);
    assert_eq!(expected, r.to_bytes());
}

#[test]
fn get_card_by_index_request_to_bytes() {
    let expected = frame64(&[
        0x17, 0x5c, 0x00, 0x00, 0x2d, 0x55, 0x39, 0x19, 0x04,
    ]);
    let r = GetCardByIndexRequest::new(423187757, 4);
    assert_eq!(expected, r.to_bytes());
}

#[test]
fn get_config_request_to_bytes() {
    let expected = frame64(&[
        0x17, 0x94,
    ]);
    let r = GetConfigRequest::new(0);
    assert_eq!(expected, r.to_bytes());
}

#[test]
fn get_event_request_to_bytes() {
    let expected = frame64(&[
        0x17, 0xb0, 0x00, 0x00, 0x2d, 0x55, 0x39, 0x19, 0x01,
    ]);
    let r = GetEventRequest::new(423187757, 1);
    assert_eq!(expected, r.to_bytes());
}

#[test]
fn get_event_index_request_to_bytes() {
    let expected = frame64(&[
        0x17, 0xb4, 0x00, 0x00, 0x2d, 0x55, 0x39, 0x19,
    ]);
    let r = GetEventIndexRequest::new(423187757);
    assert_eq!(expected, r.to_bytes());
}

#[test]
fn get_status_request_to_bytes() {
    let expected = frame64(&[
        0x17, 0x20, 0x00, 0x00, 0x2d, 0x55, 0x39, 0x19,
    ]);
    let r = GetStatusRequest::new(423187757);
    assert_eq!(expected, r.to_bytes());
}

#[test]
fn get_time_profile_request_to_bytes() {
    let expected = frame64(&[
        0x17, 0x98, 0x00, 0x00, 0x2d, 0x55, 0x39, 0x19, 0x04,
    ]);
    let r = GetTimeProfileRequest::new(423187757, 4);
    assert_eq!(expected, r.to_bytes());
}

#[test]
fn put_card_request_to_bytes() {
    let expected = frame64(&[
        0x17, 0x50, 0x00, 0x00, 0x2d, 0x55, 0x39, 0x19, 0xac, 0xe8,
        0x5d, 0x00, 0x20, 0x19, 0x01, 0x02, 0x20, 0x19, 0x12, 0x31,
        0x01, 0x00, 0x1d, 0x01,
    ]);
    let r = PutCardRequest::new(423187757, 6154412, DateBCD::new(2019, 1, 2), DateBCD::new(2019, 12, 31), 1, 0, 29, 1);
    assert_eq!(expected, r.to_bytes());
}

#[test]
fn set_address_request_to_bytes() {
    let expected = frame64(&[
        0x17, 0x96, 0x00, 0x00, 0x2d, 0x55, 0x39, 0x19, 0xc0, 0xa8,
        0x01, 0x7d, 0xff, 0xff, 0xff, 0x00, 0xc0, 0xa8, 0x01, 0x00,
        0x55, 0xaa, 0xaa, 0x55,
    ]);
    let r = SetAddressRequest::new(423187757, Ipv4::new(192, 168, 1, 125), Ipv4::new(255, 255, 255, 0), Ipv4::new(192, 168, 1, 0), 0x55_aa_aa_55);
    assert_eq!(expected, r.to_bytes());
}

#[test]
fn set_door_control_state_request_to_bytes() {
    let expected = frame64(&[
        0x17, 0x80, 0x00, 0x00, 0x2d, 0x55, 0x39, 0x19, 0x04, 0x02,
        0x05,
    ]);
    let r = SetDoorControlStateRequest::new(423187757, 4, 0x02, 5);
    assert_eq!(expected, r.to_bytes());
}

#[test]
fn set_event_index_request_to_bytes() {
    let expected = frame64(&[
        0x17, 0xb2, 0x00, 0x00, 0x2d, 0x55, 0x39, 0x19, 0x11, 0x00,
        0x00, 0x00, 0x55, 0xaa, 0xaa, 0x55,
    ]);
    let r = SetEventIndexRequest::new(423187757, 17, 0x55aaaa55);
    assert_eq!(expected, r.to_bytes());
}

#[test]
fn set_first_card_set_listener_request_to_bytes() {
    let expected = frame64(&[
        0x17, 0xaa, 0x00, 0x00, 0x2d, 0x55, 0x39, 0x19, 0x03, 0x08,
        0x30, 0x01, 0x17, 0x45, 0x02, 0x01, 0x01, 0x00, 0x01, 0x00,
        0x01, 0x01,
    ]);
    let r = SetFirstCardRequest::new(423187757, 3, TimeWithoutSecondsBCD::new(8, 30), 1, TimeWithoutSecondsBCD::new(17, 45), 2, true, true, false, true, false, true, true);
    assert_eq!(expected, r.to_bytes());
}

#[test]
fn set_listener_set_listener_request_to_bytes() {
    let expected = frame64(&[
        0x17, 0x90, 0x00, 0x00, 0x2d, 0x55, 0x39, 0x19, 0xc0, 0xa8,
        0x01, 0x64, 0x40, 0x9c,
    ]);
    let r = SetListenerRequest::new(423187757, Ipv4::new(192, 168, 1, 100), 40000);
    assert_eq!(expected, r.to_bytes());
}

#[test]
fn set_time_profile_request_to_bytes() {
    let expected = frame64(&[
        0x17, 0x88, 0x00, 0x00, 0x2d, 0x55, 0x39, 0x19, 0x04, 0x20,
        0x21, 0x04, 0x01, 0x20, 0x21, 0x12, 0x29, 0x01, 0x01, 0x00,
        0x01, 0x00, 0x01, 0x01, 0x08, 0x30, 0x09, 0x45, 0x11, 0x35,
        0x13, 0x15, 0x14, 0x01, 0x17, 0x59, 0x13,
    ]);
    let r = SetTimeProfileRequest::new(423187757, 4, DateBCD::new(2021, 4, 1), DateBCD::new(2021, 12, 29), true, true, false, true, false, true, true, TimeWithoutSecondsBCD::new(8, 30), TimeWithoutSecondsBCD::new(9, 45), TimeWithoutSecondsBCD::new(11, 35), TimeWithoutSecondsBCD::new(13, 15), TimeWithoutSecondsBCD::new(14, 1), TimeWithoutSecondsBCD::new(17, 59), 19);
    assert_eq!(expected, r.to_bytes());
}
