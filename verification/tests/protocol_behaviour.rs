//! Frame-layout laws on concrete values, the error taxonomy, and the
//! exchange decisions.

use uhppote::calendar::{Date, Time, Timestamp};
use uhppote::error::UhppoteError;
use uhppote::messages::delete_cards::DeleteCardsRequest;
use uhppote::messages::get_card_by_index::GetCardByIndexResponse;
use uhppote::messages::get_status::GetStatusResponse;
use uhppote::messages::get_time_profile::GetTimeProfileResponse;
use uhppote::messages::open_door::{OpenDoorRequest, OpenDoorResponse};
use uhppote::messages::put_card::PutCardRequest;
use uhppote::messages::refresh_task_list::RefreshTaskListRequest;
use uhppote::messages::set_address::SetAddressRequest;
use uhppote::messages::set_event_index::SetEventIndexRequest;
use uhppote::messages::set_time_profile::SetTimeProfileRequest;
use uhppote::messages::add_task::AddTaskRequest;
use uhppote::opcode::{RequestResponseType, HEADER, MAGIC_WORD};
use uhppote::protocol::{
    decode_listen_frame, destination_address, require_magic_echo, require_success,
};
use uhppote::types::card::Card;
use uhppote::types::direction::Direction;
use uhppote::types::event::{EventReason, EventType};
use uhppote::types::task::{Task, TaskID};
use uhppote::types::time_profile::{TimeProfile, TimeProfileSegment};
use uhppote::wire::{DateBCD, Ipv4, TimeWithoutSecondsBCD};

/// Decoding an encoded request restores every field.
#[test]
fn request_round_trip_restores_fields() {
    let v = OpenDoorRequest::new(423187757, 3);
    let frame = v.to_bytes();
    let w = OpenDoorRequest::from_bytes(&frame).unwrap();
    assert_eq!(w.device_id, 423187757);
    assert_eq!(w.door, 3);

    let v = SetEventIndexRequest::new(77, 17, MAGIC_WORD);
    let w = SetEventIndexRequest::from_bytes(&v.to_bytes()).unwrap();
    assert_eq!(w.device_id, 77);
    assert_eq!(w.index, 17);
    assert_eq!(w.magic_word, MAGIC_WORD);
}

/// Re-encoding a decoded frame gives the same 64 bytes back.
#[test]
fn response_decode_then_encode_is_byte_exact() {
    let original = GetStatusResponse::new(
        423187757,
        57,
        2,
        true,
        3,
        1,
        6154410,
        uhppote::wire::DateTime::new(2019, 4, 19, 17, 0, 9),
        6,
        true,
        false,
        true,
        true,
        false,
        false,
        true,
        true,
        9,
        uhppote::wire::TimeWithSecondsBCD::new(14, 37, 2),
        17,
        43,
        4,
        1,
        uhppote::wire::DateShortBCD::new(2019, 4, 20),
    );
    let frame = original.to_bytes();
    let decoded = GetStatusResponse::from_bytes(&frame).unwrap();
    assert_eq!(decoded.to_bytes(), frame);
}

/// Every encoded request is 64 bytes, starts with the header byte, and
/// carries its opcode in byte 1.
#[test]
fn request_frames_carry_header_and_opcode() {
    let frames = vec![
        (OpenDoorRequest::new(1, 1).to_bytes(), 0x40u8),
        (DeleteCardsRequest::new(1, MAGIC_WORD).to_bytes(), 0x54u8),
        (RefreshTaskListRequest::new(1, MAGIC_WORD).to_bytes(), 0xacu8),
        (
            SetAddressRequest::new(
                1,
                Ipv4::new(10, 0, 0, 1),
                Ipv4::new(255, 0, 0, 0),
                Ipv4::new(10, 0, 0, 254),
                MAGIC_WORD,
            ).to_bytes(),
            0x96u8,
        ),
    ];
    for (frame, opcode) in frames {
        assert_eq!(frame.len(), 64);
        assert_eq!(frame[0], HEADER);
        assert_eq!(frame[1], opcode);
    }
}

/// Destructive requests built with the magic word carry the sentinel bytes
/// 55 aa aa 55 in their payload.
#[test]
fn destructive_requests_carry_magic_bytes() {
    let frame = DeleteCardsRequest::new(1, MAGIC_WORD).to_bytes();
    assert_eq!(&frame[8..12], &[0x55, 0xaa, 0xaa, 0x55]);
    let frame = SetEventIndexRequest::new(1, 9, MAGIC_WORD).to_bytes();
    assert_eq!(&frame[12..16], &[0x55, 0xaa, 0xaa, 0x55]);
    let frame = SetAddressRequest::new(
        1,
        Ipv4::new(10, 0, 0, 1),
        Ipv4::new(255, 0, 0, 0),
        Ipv4::new(10, 0, 0, 254),
        MAGIC_WORD,
    )
    .to_bytes();
    assert_eq!(&frame[20..24], &[0x55, 0xaa, 0xaa, 0x55]);
}

/// A short datagram and a frame of the wrong opcode fail with the two frame
/// errors.
#[test]
fn decode_rejects_wrong_length_and_opcode() {
    let short = [0u8; 10];
    assert!(matches!(
        OpenDoorRequest::from_bytes(&short),
        Err(UhppoteError::FrameLength)
    ));
    let mut other = [0u8; 64];
    other[0] = HEADER;
    other[1] = 0x32;
    assert!(matches!(
        OpenDoorResponse::from_bytes(&other),
        Err(UhppoteError::UnexpectedOpcode)
    ));
}

#[test]
fn opcode_table_round_trips() {
    let kinds = vec![
        RequestResponseType::Status,
        RequestResponseType::SetTime,
        RequestResponseType::DeleteCards,
        RequestResponseType::SetAddress,
        RequestResponseType::GetEventIndex,
    ];
    for kind in kinds {
        assert_eq!(RequestResponseType::try_from_byte(kind.as_byte()).unwrap(), kind);
    }
    assert!(matches!(
        RequestResponseType::try_from_byte(0x21),
        Err(UhppoteError::UnknownOpcode(0x21))
    ));
}

#[test]
fn verdict_checks_report_rejections() {
    assert!(require_success(true, RequestResponseType::OpenDoor).is_ok());
    assert_eq!(
        require_success(false, RequestResponseType::OpenDoor),
        Err(UhppoteError::Rejected(RequestResponseType::OpenDoor))
    );
    assert!(require_magic_echo(MAGIC_WORD).is_ok());
    assert_eq!(require_magic_echo(0), Err(UhppoteError::MagicMismatch));
}

#[test]
fn destination_prefers_unicast_over_broadcast() {
    let broadcast = Ipv4::new(255, 255, 255, 255);
    let unicast = Ipv4::new(192, 168, 0, 5);
    assert_eq!(destination_address(Some(unicast), broadcast), unicast);
    assert_eq!(destination_address(None, broadcast), broadcast);
}

/// A status push decodes into a status record; its event comes along when
/// the event index is non-zero.
#[test]
fn listen_accepts_status_pushes() {
    let resp = GetStatusResponse::new(
        423187757,
        57,
        1,
        false,
        3,
        1,
        6154410,
        uhppote::wire::DateTime::new(2019, 4, 19, 17, 0, 9),
        6,
        true,
        false,
        true,
        true,
        false,
        false,
        true,
        true,
        9,
        uhppote::wire::TimeWithSecondsBCD::new(14, 37, 2),
        17,
        43,
        4,
        1,
        uhppote::wire::DateShortBCD::new(2019, 4, 20),
    );
    let frame = resp.to_bytes();
    let status = decode_listen_frame(&frame).unwrap();
    assert_eq!(status.device_id, 423187757);
    assert_eq!(status.system_time, Time::new(14, 37, 2));
    assert_eq!(status.system_date, Date::new(2019, 4, 20));
    assert_eq!(status.doors, vec![true, false, true, true]);
    assert_eq!(status.buttons, vec![false, false, true, true]);
    assert_eq!(status.sequence_number, 17);
    let event = status.last_event.unwrap();
    assert_eq!(event.index, 57);
    assert_eq!(event.event_type, EventType::Swipe);
    assert_eq!(event.direction, Direction::In);
    assert_eq!(event.reason, EventReason::NoAccessRights);
    assert_eq!(event.timestamp, Timestamp::new(Date::new(2019, 4, 19), Time::new(17, 0, 9)));
}

/// A frame whose second byte is the SetTime opcode cannot be listened for.
#[test]
fn listen_rejects_other_opcodes() {
    let mut frame = [0u8; 64];
    frame[0] = HEADER;
    frame[1] = 0x30;
    assert!(matches!(decode_listen_frame(&frame), Err(UhppoteError::CannotListen(0x30))));
    let short = [0u8; 5];
    assert!(matches!(decode_listen_frame(&short), Err(UhppoteError::FrameLength)));
}

/// A status whose event index is zero carries no last event, and zeroed
/// event bytes do not make the conversion fail.
#[test]
fn status_without_event_converts() {
    let mut frame = GetStatusResponse::new(
        9,
        0,
        0,
        false,
        0,
        0,
        0,
        uhppote::wire::DateTime::new(2000, 1, 1, 0, 0, 0),
        0,
        false,
        false,
        false,
        false,
        false,
        false,
        false,
        false,
        0,
        uhppote::wire::TimeWithSecondsBCD::new(1, 2, 3),
        5,
        0,
        0,
        0,
        uhppote::wire::DateShortBCD::new(2024, 2, 29),
    )
    .to_bytes();
    // Zero out the event timestamp bytes as a controller with no event does.
    for i in 20..27 {
        frame[i] = 0;
    }
    let status = decode_listen_frame(&frame).unwrap();
    assert!(status.last_event.is_none());
    assert_eq!(status.system_date, Date::new(2024, 2, 29));
}

#[test]
fn card_responses_convert_to_cards() {
    let bytes: [u8; 64] = {
        let mut b = [0u8; 64];
        b[0] = HEADER;
        b[1] = 0x5c;
        b[4] = 0x2d;
        b[5] = 0x55;
        b[6] = 0x39;
        b[7] = 0x19;
        b[8] = 0xac;
        b[9] = 0xe8;
        b[10] = 0x5d;
        b[12] = 0x20;
        b[13] = 0x19;
        b[14] = 0x02;
        b[15] = 0x03;
        b[16] = 0x20;
        b[17] = 0x19;
        b[18] = 0x12;
        b[19] = 0x29;
        b[22] = 29;
        b[23] = 1;
        b
    };
    let r = GetCardByIndexResponse::from_bytes(&bytes).unwrap();
    let card = r.to_card().unwrap();
    assert_eq!(card.number, 6154412);
    assert_eq!(card.from, Date::new(2019, 2, 3));
    assert_eq!(card.to, Date::new(2019, 12, 29));
    assert_eq!(card.doors, vec![0, 0, 29, 1]);

    // An empty slot is all zeros: its dates are not real dates.
    let mut empty = [0u8; 64];
    empty[0] = HEADER;
    empty[1] = 0x5c;
    let r = GetCardByIndexResponse::from_bytes(&empty).unwrap();
    assert!(matches!(r.to_card(), Err(UhppoteError::InvalidDate)));
}

#[test]
fn card_builds_put_card_request() {
    let card = Card {
        number: 6154412,
        from: Date::new(2019, 1, 2),
        to: Date::new(2019, 12, 31),
        doors: vec![1, 0, 29, 1],
    };
    let q = PutCardRequest::for_card(423187757, &card).unwrap();
    let frame = q.to_bytes();
    assert_eq!(frame[1], 0x50);
    assert_eq!(&frame[12..16], &[0x20, 0x19, 0x01, 0x02]);

    let bad = Card { from: Date::new(2019, 2, 30), ..card };
    assert!(matches!(PutCardRequest::for_card(423187757, &bad), Err(UhppoteError::InvalidDate)));
}

#[test]
fn task_builds_add_task_request() {
    let task = Task {
        task: TaskID::DisableTimeProfile,
        door: 3,
        from: Date::new(2021, 4, 1),
        to: Date::new(2021, 12, 29),
        monday: true,
        tuesday: true,
        wednesday: false,
        thursday: true,
        friday: false,
        saturday: true,
        sunday: true,
        at: Time::new(8, 30, 0),
        more_cards: 7,
    };
    let q = AddTaskRequest::for_task(423187757, &task).unwrap();
    assert_eq!(q.task, 4);
    let frame = q.to_bytes();
    assert_eq!(frame[1], 0xa8);
    assert_eq!(&frame[23..28], &[0x08, 0x30, 0x03, 0x04, 0x07]);

    let late = Task { at: Time::new(25, 0, 0), ..task };
    assert!(matches!(AddTaskRequest::for_task(423187757, &late), Err(UhppoteError::InvalidTime)));
}

#[test]
fn reserved_profile_ids_are_refused() {
    let segment = TimeProfileSegment { start: Time::new(0, 0, 0), end: Time::new(0, 0, 0) };
    let profile = TimeProfile {
        id: 1,
        linked_profile_id: 0,
        from: Date::new(2021, 4, 1),
        to: Date::new(2021, 12, 29),
        monday: true,
        tuesday: true,
        wednesday: false,
        thursday: true,
        friday: false,
        saturday: true,
        sunday: true,
        segments: vec![segment, segment, segment],
    };
    assert!(matches!(
        SetTimeProfileRequest::for_profile(423187757, &profile),
        Err(UhppoteError::InvalidProfileId)
    ));
    let ok = TimeProfile { id: 4, ..profile };
    let q = SetTimeProfileRequest::for_profile(423187757, &ok).unwrap();
    assert_eq!(q.profile_id, 4);
}

#[test]
fn time_profile_response_converts_back() {
    let bytes: [u8; 64] = [
        0x17, 0x98, 0x00, 0x00, 0x2d, 0x55, 0x39, 0x19, 0x04, 0x20, 0x21, 0x04, 0x01, 0x20, 0x21,
        0x12, 0x29, 0x01, 0x01, 0x00, 0x01, 0x00, 0x01, 0x01, 0x08, 0x30, 0x09, 0x45, 0x11, 0x35,
        0x13, 0x15, 0x14, 0x01, 0x17, 0x59, 0x13, 0x00, 0x00, 0x00, 0x00, 0x00, 0x00, 0x00, 0x00,
        0x00, 0x00, 0x00, 0x00, 0x00, 0x00, 0x00, 0x00, 0x00, 0x00, 0x00, 0x00, 0x00, 0x00, 0x00,
        0x00, 0x00, 0x00, 0x00,
    ];
    let r = GetTimeProfileResponse::from_bytes(&bytes).unwrap();
    let p = r.to_time_profile().unwrap();
    assert_eq!(p.id, 4);
    assert_eq!(p.linked_profile_id, 19);
    assert_eq!(p.from, Date::new(2021, 4, 1));
    assert_eq!(p.to, Date::new(2021, 12, 29));
    assert_eq!(p.segments[0].start, Time::new(8, 30, 0));
    assert_eq!(p.segments[2].end, Time::new(17, 59, 0));
}

#[test]
fn bcd_packing_needs_four_digit_years() {
    assert!(matches!(Date::new(999, 5, 5).to_bcd(), Err(UhppoteError::InvalidDate)));
    assert!(Date::new(1000, 5, 5).to_bcd().is_ok());
}

/// The date round trip of the wire type: bytes to calendar and back, for a
/// date in the 2000 to 2099 window.
#[test]
fn date_bcd_calendar_round_trip_concrete() {
    let bcd = DateBCD::new(2047, 11, 30);
    let date = bcd.to_date().unwrap();
    assert_eq!(date.to_bcd().unwrap(), bcd);
}

/// The time round trip of the wire type: bytes to calendar and back.
#[test]
fn time_bcd_calendar_round_trip_concrete() {
    let bcd = uhppote::wire::TimeWithSecondsBCD::new(23, 59, 58);
    let time = bcd.to_time().unwrap();
    assert_eq!(time.to_hms_bcd().unwrap(), bcd);
    let hm = TimeWithoutSecondsBCD::new(23, 59);
    let t = hm.to_time().unwrap();
    assert_eq!(t.to_hm_bcd().unwrap(), hm);
}
