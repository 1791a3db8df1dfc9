//! Response decodings checked field for field against captured frames.
//!
//! Each frame is written as its meaningful prefix; the rest of the 64
//! bytes is zero padding.

use uhppote::messages::add_task::AddTaskResponse;
use uhppote::messages::clear_time_profiles::ClearTimeProfilesResponse;
use uhppote::messages::get_card_by_index::GetCardByIndexResponse;
use uhppote::messages::get_config::GetConfigResponse;
use uhppote::messages::get_event::GetEventResponse;
use uhppote::messages::get_event_index::GetEventIndexResponse;
use uhppote::messages::get_status::GetStatusResponse;
use uhppote::messages::get_time_profile::GetTimeProfileResponse;
use uhppote::messages::put_card::PutCardResponse;
use uhppote::messages::set_door_control_state::SetDoorControlStateResponse;
use uhppote::messages::set_event_index::SetEventIndexResponse;
use uhppote::messages::set_first_card::SetFirstCardResponse;
use uhppote::messages::set_listener::SetListenerResponse;
use uhppote::messages::set_time_profile::SetTimeProfileResponse;
use uhppote::opcode::RequestResponseType;
use uhppote::wire::{
    DateBCD, DateShortBCD, DateTime, Ipv4, TimeWithSecondsBCD, TimeWithoutSecondsBCD,
};

/// A full frame: the given prefix padded with zeros to 64 bytes.
fn frame64(prefix: &[u8]) -> Vec<u8> {
    let mut v = prefix.to_vec();
    v.resize(64, 0);
    v
}

#[test]
fn add_task_response_from_bytes() {
    let bytes = frame64(&[
        0x17, 0xa8, 0x00, 0x00, 0x2d, 0x55, 0x39, 0x19, 0x01,
    ]);
    let r = AddTaskResponse::from_bytes(&bytes).unwrap();
    assert_eq!(r.message_type, RequestResponseType::AddTask.as_byte());
    assert_eq!(r.device_id, 423187757);
    assert!(r.success);
}

#[test]
fn clear_time_profile_response_from_bytes() {
    let bytes = frame64(&[
        0x17, 0x8a, 0x00, 0x00, 0x2d, 0x55, 0x39, 0x19, 0x55, 0xaa,
        0xaa, 0x55,
    ]);
    let r = ClearTimeProfilesResponse::from_bytes(&bytes).unwrap();
    assert_eq!(r.message_type, RequestResponseType::ClearTimeProfiles.as_byte());
    assert_eq!(r.device_id, 423187757);
    assert_eq!(r.magic_word, 0x55aaaa55);
}

#[test]
fn get_card_by_index_response_from_bytes() {
    let bytes = frame64(&[
        0x17, 0x5c, 0x00, 0x00, 0x2d, 0x55, 0x39, 0x19, 0xac, 0xe8,
        0x5d, 0x00, 0x20, 0x19, 0x02, 0x03, 0x20, 0x19, 0x12, 0x29,
        0x00, 0x00, 0x1d, 0x01,
    ]);
    let r = GetCardByIndexResponse::from_bytes(&bytes).unwrap();
    assert_eq!(r.message_type, RequestResponseType::GetCardByIndex.as_byte());
    assert_eq!(r.device_id, 423187757);
    assert_eq!(r.card_number, 6154412);
    assert_eq!(r.from, DateBCD::new(2019, 2, 3));
    assert_eq!(r.to, DateBCD::new(2019, 12, 29));
    assert_eq!(r.door_1, 0);
    assert_eq!(r.door_2, 0);
    assert_eq!(r.door_3, 29);
    assert_eq!(r.door_4, 1);
}

#[test]
fn get_config_response_from_bytes() {
    let bytes = frame64(&[
        0x17, 0x94, 0x00, 0x00, 0x2d, 0x55, 0x39, 0x19, 0xc0, 0xa8,
        0x00, 0x00, 0xff, 0xff, 0xff, 0x00, 0x00, 0x00, 0x00, 0x00,
        0x00, 0x66, 0x19, 0x39, 0x55, 0x2d, 0x08, 0x92, 0x20, 0x18,
        0x08, 0x16,
    ]);
    let r = GetConfigResponse::from_bytes(&bytes).unwrap();
    assert_eq!(r.message_type, RequestResponseType::GetConfig.as_byte());
    assert_eq!(r.device_id, 423187757);
    assert_eq!(r.ip_address, Ipv4::new(192, 168, 0, 0));
    assert_eq!(r.subnet, Ipv4::new(255, 255, 255, 0));
    assert_eq!(r.gateway, Ipv4::new(0, 0, 0, 0));
    assert_eq!(r.mac.display_string(), "00:66:19:39:55:2d".to_string());
    assert_eq!(r.version.display_string(), "8.146".to_string());
    assert_eq!(r.date.display_string(), "2018-08-16".to_string());
}

#[test]
fn get_event_response_from_bytes() {
    let mut prefix = vec![
        0x17, 0xb0, 0x00, 0x00, 0x2d, 0x55, 0x39, 0x19, 0x08, 0x00,
        0x00, 0x00, 0x02, 0x01, 0x03, 0x01, 0xad, 0xe8, 0x5d, 0x00,
        0x20, 0x19, 0x02, 0x10, 0x07, 0x12, 0x01, 0x06,
    ];
    // The captured frame carries stray bytes in its padding; the decoder
    // ignores them.
    prefix.resize(56, 0);
    prefix.extend_from_slice(&[0x4a, 0x26, 0x80, 0x39, 0x08, 0x92]);
    let bytes = frame64(&prefix);
    let r = GetEventResponse::from_bytes(&bytes).unwrap();
    assert_eq!(r.message_type, RequestResponseType::GetEvent.as_byte());
    assert_eq!(r.device_id, 423187757);
    assert_eq!(r.index, 8);
    assert_eq!(r.type_, 2);
    assert!(r.granted);
    assert_eq!(r.door, 3);
    assert_eq!(r.direction, 1);
    assert_eq!(r.card_number, 6154413);
    assert_eq!(r.timestamp, DateTime::new(2019, 2, 10, 7, 12, 1));
    assert_eq!(r.reason, 6);
}

#[test]
fn get_event_index_response_from_bytes() {
    let bytes = frame64(&[
        0x17, 0xb4, 0x00, 0x00, 0x2d, 0x55, 0x39, 0x19, 0x11,
    ]);
    let r = GetEventIndexResponse::from_bytes(&bytes).unwrap();
    assert_eq!(r.message_type, RequestResponseType::GetEventIndex.as_byte());
    assert_eq!(r.device_id, 423187757);
    assert_eq!(r.index, 17);
}

#[test]
fn get_status_response_to_bytes() {
    let expected = frame64(&[
        0x17, 0x20, 0x00, 0x00, 0x2d, 0x55, 0x39, 0x19, 0x39, 0x00,
        0x00, 0x00, 0x02, 0x01, 0x03, 0x01, 0xaa, 0xe8, 0x5d, 0x00,
        0x20, 0x19, 0x04, 0x19, 0x17, 0x00, 0x09, 0x06, 0x01, 0x00,
        0x01, 0x01, 0x00, 0x00, 0x01, 0x01, 0x09, 0x14, 0x37, 0x02,
        0x11, 0x00, 0x00, 0x00, 0x00, 0x00, 0x00, 0x00, 0x2b, 0x04,
        0x01, 0x19, 0x04, 0x20,
    ]);
    let r = GetStatusResponse::new(
        423187757,
        57,
        2,
        true,
        3,
        1,
        6154410,
        DateTime::new(2019, 4, 19, 17, 0, 9),
        6,
        true,
        false,
        true,
        true,
        false,
        false,
        true,
        true,
        9,
        TimeWithSecondsBCD::new(14, 37, 2),
        17,
        43,
        4,
        1,
        DateShortBCD::new(2019, 4, 20),
    );
    assert_eq!(expected, r.to_bytes());
}

#[test]
fn get_status_response_from_bytes() {
    let mut prefix = vec![
        0x17, 0x20, 0x00, 0x00, 0x2d, 0x55, 0x39, 0x19, 0x39, 0x00,
        0x00, 0x00, 0x01, 0x00, 0x03, 0x01, 0xaa, 0xe8, 0x5d, 0x00,
        0x20, 0x19, 0x04, 0x19, 0x17, 0x00, 0x09, 0x06, 0x01, 0x00,
        0x01, 0x01, 0x00, 0x00, 0x01, 0x01, 0x09, 0x14, 0x37, 0x02,
        0x11, 0x00, 0x00, 0x00, 0x21, 0x00, 0x00, 0x00, 0x2b, 0x04,
        0x01, 0x19, 0x04, 0x20,
    ];
    // The captured frame carries stray bytes in its padding; the decoder
    // ignores them.
    prefix.resize(56, 0);
    prefix.extend_from_slice(&[0x93, 0x26, 0x04, 0x88, 0x08, 0x92]);
    let bytes = frame64(&prefix);
    let r = GetStatusResponse::from_bytes(&bytes).unwrap();
    assert_eq!(r.message_type, RequestResponseType::Status.as_byte());
    assert_eq!(r.device_id, 423187757);
    assert_eq!(r.event_index, 57);
    assert_eq!(r.event_type, 1);
    assert!(!r.granted);
    assert_eq!(r.door, 3);
    assert_eq!(r.direction, 1);
    assert_eq!(r.card_number, 6154410);
    assert_eq!(r.timestamp, DateTime::new(2019, 4, 19, 17, 0, 9));
    assert_eq!(r.reason, 6);
    assert!(r.door1_state);
    assert!(!r.door2_state);
    assert!(r.door3_state);
    assert!(r.door4_state);
    assert!(!r.door1_button);
    assert!(!r.door2_button);
    assert!(r.door3_button);
    assert!(r.door4_button);
    assert_eq!(r.system_error, 9);
    assert_eq!(r.system_time, TimeWithSecondsBCD::new(14, 37, 2));
    assert_eq!(r.system_date, DateShortBCD::new(2019, 4, 20));
    assert_eq!(r.sequence_id, 17);
    assert_eq!(r.special_info, 43);
    assert_eq!(r.relay_state, 4);
    assert_eq!(r.input_state, 1);
}

#[test]
fn get_time_profile_response_from_bytes() {
    let bytes = frame64(&[
        0x17, 0x98, 0x00, 0x00, 0x2d, 0x55, 0x39, 0x19, 0x04, 0x20,
        0x21, 0x04, 0x01, 0x20, 0x21, 0x12, 0x29, 0x01, 0x01, 0x00,
        0x01, 0x00, 0x01, 0x01, 0x08, 0x30, 0x09, 0x45, 0x11, 0x35,
        0x13, 0x15, 0x14, 0x01, 0x17, 0x59, 0x13,
    ]);
    let r = GetTimeProfileResponse::from_bytes(&bytes).unwrap();
    assert_eq!(r.message_type, RequestResponseType::GetTimeProfile.as_byte());
    assert_eq!(r.device_id, 423187757);
    assert_eq!(r.profile_id, 4);
    assert_eq!(r.from, DateBCD::new(2021, 4, 1));
    assert_eq!(r.to, DateBCD::new(2021, 12, 29));
    assert!(r.monday);
    assert!(r.tuesday);
    assert!(!r.wednesday);
    assert!(r.thursday);
    assert!(!r.friday);
    assert!(r.saturday);
    assert!(r.sunday);
    assert_eq!(r.segment1_start, TimeWithoutSecondsBCD::new(8, 30));
    assert_eq!(r.segment1_end, TimeWithoutSecondsBCD::new(9, 45));
    assert_eq!(r.segment2_start, TimeWithoutSecondsBCD::new(11, 35));
    assert_eq!(r.segment2_end, TimeWithoutSecondsBCD::new(13, 15));
    assert_eq!(r.segment3_start, TimeWithoutSecondsBCD::new(14, 1));
    assert_eq!(r.segment3_end, TimeWithoutSecondsBCD::new(17, 59));
    assert_eq!(r.linked_profile_id, 19);
}

#[test]
fn put_card_response_from_bytes() {
    let bytes = frame64(&[
        0x17, 0x50, 0x00, 0x00, 0x2d, 0x55, 0x39, 0x19, 0x01,
    ]);
    let r = PutCardResponse::from_bytes(&bytes).unwrap();
    assert_eq!(r.message_type, RequestResponseType::PutCard.as_byte());
    assert!(r.success);
}

#[test]
fn set_door_control_state_response_from_bytes() {
    let bytes = frame64(&[
        0x17, 0x80, 0x00, 0x00, 0x2d, 0x55, 0x39, 0x19, 0x04, 0x02,
        0x05,
    ]);
    let r = SetDoorControlStateResponse::from_bytes(&bytes).unwrap();
    assert_eq!(r.message_type, RequestResponseType::SetDoorControlState.as_byte());
    assert_eq!(r.device_id, 423187757);
    assert_eq!(r.door, 4);
    assert_eq!(r.control_state, 2);
    assert_eq!(r.delay, 5);
}

#[test]
fn set_event_index_response_from_bytes() {
    let bytes = frame64(&[
        0x17, 0xb2, 0x00, 0x00, 0x2d, 0x55, 0x39, 0x19, 0x01,
    ]);
    let r = SetEventIndexResponse::from_bytes(&bytes).unwrap();
    assert_eq!(r.message_type, RequestResponseType::SetEventIndex.as_byte());
    assert!(r.success);
}

#[test]
fn set_first_card_set_listener_response_from_bytes() {
    let bytes = frame64(&[
        0x17, 0xaa, 0x00, 0x00, 0x2d, 0x55, 0x39, 0x19, 0x01,
    ]);
    let r = SetFirstCardResponse::from_bytes(&bytes).unwrap();
    assert_eq!(r.message_type, RequestResponseType::SetFirstCard.as_byte());
    assert!(r.success);
}

#[test]
fn set_listener_set_listener_response_from_bytes() {
    let bytes = frame64(&[
        0x17, 0x90, 0x00, 0x00, 0x2d, 0x55, 0x39, 0x19, 0x01,
    ]);
    let r = SetListenerResponse::from_bytes(&bytes).unwrap();
    assert_eq!(r.message_type, RequestResponseType::SetListener.as_byte());
    assert!(r.success);
}

#[test]
fn set_time_profile_response_from_bytes() {
    let bytes = frame64(&[
        0x17, 0x88, 0x00, 0x00, 0x2d, 0x55, 0x39, 0x19, 0x01,
    ]);
    let r = SetTimeProfileResponse::from_bytes(&bytes).unwrap();
    assert_eq!(r.message_type, RequestResponseType::SetTimeProfile.as_byte());
    assert_eq!(r.device_id, 423187757);
    assert!(r.success);
}
