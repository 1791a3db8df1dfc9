//! AddTask: store a scheduled task: what to do, at which door, on which
//! weekdays within a date range, and at what time of day.

use vstd::prelude::*;
use crate::error::UhppoteError;
use crate::frame::{
    begin_frame,
    bool_byte,
    finish_frame,
    lemma_u32_le_round_trip,
    parse_prefix,
    push_bool,
    push_u8,
    read_bool,
    read_u8,
    u32_le_bytes,
    u32_of_bytes,
    zeros,
};
use crate::opcode::HEADER;
use crate::wire::{DateBCD, TimeWithoutSecondsBCD};

verus! {

/// The opcode byte of AddTask frames.
pub const OPCODE: u8 = 0xa8;

/// Store a task; the task byte names one of the thirteen task kinds.
#[derive(Clone, Copy, Debug)]
pub struct AddTaskRequest {
    pub device_id: u32,
    pub from: DateBCD,
    pub to: DateBCD,
    pub monday: bool,
    pub tuesday: bool,
    pub wednesday: bool,
    pub thursday: bool,
    pub friday: bool,
    pub saturday: bool,
    pub sunday: bool,
    pub at: TimeWithoutSecondsBCD,
    pub door: u8,
    pub task: u8,
    pub more_cards: u8,
}

impl AddTaskRequest {
    /// The 64-byte frame this value serialises to: header, opcode, the
    /// reserved gap, the controller identifier, the payload fields in
    /// order, and zero padding.
    pub open spec fn spec_to_bytes(self) -> Seq<u8> {
        seq![HEADER, OPCODE, 0u8, 0u8]
            + u32_le_bytes(self.device_id)
            + self.from.spec_bytes()
            + self.to.spec_bytes()
            + seq![bool_byte(self.monday)]
            + seq![bool_byte(self.tuesday)]
            + seq![bool_byte(self.wednesday)]
            + seq![bool_byte(self.thursday)]
            + seq![bool_byte(self.friday)]
            + seq![bool_byte(self.saturday)]
            + seq![bool_byte(self.sunday)]
            + self.at.spec_bytes()
            + seq![self.door]
            + seq![self.task]
            + seq![self.more_cards]
            + zeros(36)
    }

    /// The value a 64-byte frame of this opcode decodes to.
    pub open spec fn spec_from_bytes(b: Seq<u8>) -> Option<AddTaskRequest> {
        if b.len() == 64 && b[1] == OPCODE {
            Some(AddTaskRequest {
                device_id: u32_of_bytes(b[4], b[5], b[6], b[7]),
                from: DateBCD::spec_at(b, 8),
                to: DateBCD::spec_at(b, 12),
                monday: b[16] != 0,
                tuesday: b[17] != 0,
                wednesday: b[18] != 0,
                thursday: b[19] != 0,
                friday: b[20] != 0,
                saturday: b[21] != 0,
                sunday: b[22] != 0,
                at: TimeWithoutSecondsBCD::spec_at(b, 23),
                door: b[25],
                task: b[26],
                more_cards: b[27],
            })
        } else {
            None
        }
    }

    pub fn new(device_id: u32, from: DateBCD, to: DateBCD, monday: bool, tuesday: bool, wednesday: bool, thursday: bool, friday: bool, saturday: bool, sunday: bool, at: TimeWithoutSecondsBCD, door: u8, task: u8, more_cards: u8) -> (r: AddTaskRequest)
        ensures
            r.device_id == device_id,
            r.from == from,
            r.to == to,
            r.monday == monday,
            r.tuesday == tuesday,
            r.wednesday == wednesday,
            r.thursday == thursday,
            r.friday == friday,
            r.saturday == saturday,
            r.sunday == sunday,
            r.at == at,
            r.door == door,
            r.task == task,
            r.more_cards == more_cards,
    {
        AddTaskRequest { device_id, from, to, monday, tuesday, wednesday, thursday, friday, saturday, sunday, at, door, task, more_cards }
    }

    /// Serialise to the fixed 64-byte frame: the header byte first, the
    /// opcode in byte 1, and unused trailing bytes zero.
    pub fn to_bytes(&self) -> (r: Vec<u8>)
        ensures
            r@ == self.spec_to_bytes(),
            r@.len() == 64,
            r@[0] == HEADER,
            r@[1] == OPCODE,
    {
        let mut buf = begin_frame(HEADER, OPCODE, self.device_id);
        self.from.push_onto(&mut buf);
        self.to.push_onto(&mut buf);
        push_bool(&mut buf, self.monday);
        push_bool(&mut buf, self.tuesday);
        push_bool(&mut buf, self.wednesday);
        push_bool(&mut buf, self.thursday);
        push_bool(&mut buf, self.friday);
        push_bool(&mut buf, self.saturday);
        push_bool(&mut buf, self.sunday);
        self.at.push_onto(&mut buf);
        push_u8(&mut buf, self.door);
        push_u8(&mut buf, self.task);
        push_u8(&mut buf, self.more_cards);
        finish_frame(&mut buf);
        proof {
            assert(buf@ == self.spec_to_bytes());
        }
        buf
    }

    /// Decode a received frame; fails when the length is not 64 or the
    /// opcode is not this message's.
    pub fn from_bytes(bytes: &[u8]) -> (r: Result<AddTaskRequest, UhppoteError>)
        ensures
            r is Ok <==> bytes@.len() == 64 && bytes@[1] == OPCODE,
            r matches Ok(v) ==> AddTaskRequest::spec_from_bytes(bytes@) == Some(v),
            bytes@.len() != 64 ==> r == Err::<AddTaskRequest, UhppoteError>(UhppoteError::FrameLength),
            bytes@.len() == 64 && bytes@[1] != OPCODE ==> r == Err::<AddTaskRequest, UhppoteError>(
                UhppoteError::UnexpectedOpcode,
            ),
    {
        let (_header, device_id) = match parse_prefix(OPCODE, bytes) {
            Ok(p) => p,
            Err(e) => {
                return Err(e);
            },
        };
        let from = DateBCD::read_at(bytes, 8);
        let to = DateBCD::read_at(bytes, 12);
        let monday = read_bool(bytes, 16);
        let tuesday = read_bool(bytes, 17);
        let wednesday = read_bool(bytes, 18);
        let thursday = read_bool(bytes, 19);
        let friday = read_bool(bytes, 20);
        let saturday = read_bool(bytes, 21);
        let sunday = read_bool(bytes, 22);
        let at = TimeWithoutSecondsBCD::read_at(bytes, 23);
        let door = read_u8(bytes, 25);
        let task = read_u8(bytes, 26);
        let more_cards = read_u8(bytes, 27);
        Ok(AddTaskRequest { device_id, from, to, monday, tuesday, wednesday, thursday, friday, saturday, sunday, at, door, task, more_cards })
    }

    /// Decoding inverts encoding, and the decoded value serialises back to
    /// the identical frame.
    pub proof fn lemma_round_trip(v: AddTaskRequest)
        ensures
            AddTaskRequest::spec_from_bytes(v.spec_to_bytes()) == Some(v),
            AddTaskRequest::spec_from_bytes(v.spec_to_bytes()) matches Some(w) ==> w.spec_to_bytes()
                == v.spec_to_bytes(),
    {
        let b = v.spec_to_bytes();
        lemma_u32_le_round_trip(v.device_id);
        assert(b.len() == 64);
        assert(b[1] == OPCODE);
        assert(u32_of_bytes(b[4], b[5], b[6], b[7]) == v.device_id);
        assert(DateBCD::spec_at(b, 8) == v.from);
        assert(DateBCD::spec_at(b, 12) == v.to);
        assert((b[16] != 0) == v.monday);
        assert((b[17] != 0) == v.tuesday);
        assert((b[18] != 0) == v.wednesday);
        assert((b[19] != 0) == v.thursday);
        assert((b[20] != 0) == v.friday);
        assert((b[21] != 0) == v.saturday);
        assert((b[22] != 0) == v.sunday);
        assert(TimeWithoutSecondsBCD::spec_at(b, 23) == v.at);
        assert(b[25] == v.door);
        assert(b[26] == v.task);
        assert(b[27] == v.more_cards);
        assert(AddTaskRequest::spec_from_bytes(b) == Some(v));
    }
}

/// The controller's answer: whether the task was stored.
#[derive(Clone, Copy, Debug)]
pub struct AddTaskResponse {
    pub header: u8,
    pub message_type: u8,
    pub device_id: u32,
    pub success: bool,
}

impl AddTaskResponse {
    /// A decoded frame of this kind carries its own opcode in byte 1.
    pub open spec fn wf(self) -> bool {
        self.message_type == OPCODE
    }

    /// The 64-byte frame this value serialises to: header, opcode, the
    /// reserved gap, the controller identifier, the payload fields in
    /// order, and zero padding.
    pub open spec fn spec_to_bytes(self) -> Seq<u8> {
        seq![self.header, self.message_type, 0u8, 0u8]
            + u32_le_bytes(self.device_id)
            + seq![bool_byte(self.success)]
            + zeros(55)
    }

    /// The value a 64-byte frame of this opcode decodes to.
    pub open spec fn spec_from_bytes(b: Seq<u8>) -> Option<AddTaskResponse> {
        if b.len() == 64 && b[1] == OPCODE {
            Some(AddTaskResponse {
                header: b[0],
                message_type: b[1],
                device_id: u32_of_bytes(b[4], b[5], b[6], b[7]),
                success: b[8] != 0,
            })
        } else {
            None
        }
    }

    /// Decode a received frame; fails when the length is not 64 or the
    /// opcode is not this message's.
    pub fn from_bytes(bytes: &[u8]) -> (r: Result<AddTaskResponse, UhppoteError>)
        ensures
            r is Ok <==> bytes@.len() == 64 && bytes@[1] == OPCODE,
            r matches Ok(v) ==> AddTaskResponse::spec_from_bytes(bytes@) == Some(v),
            bytes@.len() != 64 ==> r == Err::<AddTaskResponse, UhppoteError>(UhppoteError::FrameLength),
            bytes@.len() == 64 && bytes@[1] != OPCODE ==> r == Err::<AddTaskResponse, UhppoteError>(
                UhppoteError::UnexpectedOpcode,
            ),
    {
        let (header, device_id) = match parse_prefix(OPCODE, bytes) {
            Ok(p) => p,
            Err(e) => {
                return Err(e);
            },
        };
        let success = read_bool(bytes, 8);
        Ok(AddTaskResponse { header, message_type: OPCODE, device_id, success })
    }

    /// Decoding inverts encoding, and the decoded value serialises back to
    /// the identical frame.
    pub proof fn lemma_round_trip(v: AddTaskResponse)
        requires
            v.wf(),
        ensures
            AddTaskResponse::spec_from_bytes(v.spec_to_bytes()) == Some(v),
            AddTaskResponse::spec_from_bytes(v.spec_to_bytes()) matches Some(w) ==> w.spec_to_bytes()
                == v.spec_to_bytes(),
    {
        let b = v.spec_to_bytes();
        lemma_u32_le_round_trip(v.device_id);
        assert(b.len() == 64);
        assert(b[0] == v.header);
        assert(b[1] == OPCODE);
        assert(u32_of_bytes(b[4], b[5], b[6], b[7]) == v.device_id);
        assert((b[8] != 0) == v.success);
        assert(AddTaskResponse::spec_from_bytes(b) == Some(v));
    }
}

} // verus!
