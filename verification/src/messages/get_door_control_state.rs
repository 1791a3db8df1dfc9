//! GetDoorControlState: read a door's control mode and open delay.

use vstd::prelude::*;
use crate::error::UhppoteError;
use crate::frame::{
    begin_frame,
    finish_frame,
    lemma_u32_le_round_trip,
    parse_prefix,
    push_u8,
    read_u8,
    u32_le_bytes,
    u32_of_bytes,
    zeros,
};
use crate::opcode::HEADER;

verus! {

/// The opcode byte of GetDoorControlState frames.
pub const OPCODE: u8 = 0x82;

/// Ask the controller for a door's control mode and delay.
#[derive(Clone, Copy, Debug)]
pub struct GetDoorControlStateRequest {
    pub device_id: u32,
    pub door: u8,
}

impl GetDoorControlStateRequest {
    /// The 64-byte frame this value serialises to: header, opcode, the
    /// reserved gap, the controller identifier, the payload fields in
    /// order, and zero padding.
    pub open spec fn spec_to_bytes(self) -> Seq<u8> {
        seq![HEADER, OPCODE, 0u8, 0u8]
            + u32_le_bytes(self.device_id)
            + seq![self.door]
            + zeros(55)
    }

    /// The value a 64-byte frame of this opcode decodes to.
    pub open spec fn spec_from_bytes(b: Seq<u8>) -> Option<GetDoorControlStateRequest> {
        if b.len() == 64 && b[1] == OPCODE {
            Some(GetDoorControlStateRequest {
                device_id: u32_of_bytes(b[4], b[5], b[6], b[7]),
                door: b[8],
            })
        } else {
            None
        }
    }

    pub fn new(device_id: u32, door: u8) -> (r: GetDoorControlStateRequest)
        ensures
            r.device_id == device_id,
            r.door == door,
    {
        GetDoorControlStateRequest { device_id, door }
    }

    /// Serialise to the fixed 64-byte frame: the header byte first, the
    /// opcode in byte 1, and unused trailing bytes zero.
    pub fn to_bytes(&self) -> (r: Vec<u8>)
        ensures
            r@ == self.spec_to_bytes(),
            r@.len() == 64,
            r@[0] == HEADER,
            r@[1] == OPCODE,
    {
        let mut buf = begin_frame(HEADER, OPCODE, self.device_id);
        push_u8(&mut buf, self.door);
        finish_frame(&mut buf);
        proof {
            assert(buf@ == self.spec_to_bytes());
        }
        buf
    }

    /// Decode a received frame; fails when the length is not 64 or the
    /// opcode is not this message's.
    pub fn from_bytes(bytes: &[u8]) -> (r: Result<GetDoorControlStateRequest, UhppoteError>)
        ensures
            r is Ok <==> bytes@.len() == 64 && bytes@[1] == OPCODE,
            r matches Ok(v) ==> GetDoorControlStateRequest::spec_from_bytes(bytes@) == Some(v),
            bytes@.len() != 64 ==> r == Err::<GetDoorControlStateRequest, UhppoteError>(UhppoteError::FrameLength),
            bytes@.len() == 64 && bytes@[1] != OPCODE ==> r == Err::<GetDoorControlStateRequest, UhppoteError>(
                UhppoteError::UnexpectedOpcode,
            ),
    {
        let (_header, device_id) = match parse_prefix(OPCODE, bytes) {
            Ok(p) => p,
            Err(e) => {
                return Err(e);
            },
        };
        let door = read_u8(bytes, 8);
        Ok(GetDoorControlStateRequest { device_id, door })
    }

    /// Decoding inverts encoding, and the decoded value serialises back to
    /// the identical frame.
    pub proof fn lemma_round_trip(v: GetDoorControlStateRequest)
        ensures
            GetDoorControlStateRequest::spec_from_bytes(v.spec_to_bytes()) == Some(v),
            GetDoorControlStateRequest::spec_from_bytes(v.spec_to_bytes()) matches Some(w) ==> w.spec_to_bytes()
                == v.spec_to_bytes(),
    {
        let b = v.spec_to_bytes();
        lemma_u32_le_round_trip(v.device_id);
        assert(b.len() == 64);
        assert(b[1] == OPCODE);
        assert(u32_of_bytes(b[4], b[5], b[6], b[7]) == v.device_id);
        assert(b[8] == v.door);
        assert(GetDoorControlStateRequest::spec_from_bytes(b) == Some(v));
    }
}

/// The controller's answer: the door's mode and delay.
#[derive(Clone, Copy, Debug)]
pub struct GetDoorControlStateResponse {
    pub header: u8,
    pub message_type: u8,
    pub device_id: u32,
    pub door: u8,
    pub control_state: u8,
    pub delay: u8,
}

impl GetDoorControlStateResponse {
    /// A decoded frame of this kind carries its own opcode in byte 1.
    pub open spec fn wf(self) -> bool {
        self.message_type == OPCODE
    }

    /// The 64-byte frame this value serialises to: header, opcode, the
    /// reserved gap, the controller identifier, the payload fields in
    /// order, and zero padding.
    pub open spec fn spec_to_bytes(self) -> Seq<u8> {
        seq![self.header, self.message_type, 0u8, 0u8]
            + u32_le_bytes(self.device_id)
            + seq![self.door]
            + seq![self.control_state]
            + seq![self.delay]
            + zeros(53)
    }

    /// The value a 64-byte frame of this opcode decodes to.
    pub open spec fn spec_from_bytes(b: Seq<u8>) -> Option<GetDoorControlStateResponse> {
        if b.len() == 64 && b[1] == OPCODE {
            Some(GetDoorControlStateResponse {
                header: b[0],
                message_type: b[1],
                device_id: u32_of_bytes(b[4], b[5], b[6], b[7]),
                door: b[8],
                control_state: b[9],
                delay: b[10],
            })
        } else {
            None
        }
    }

    /// Decode a received frame; fails when the length is not 64 or the
    /// opcode is not this message's.
    pub fn from_bytes(bytes: &[u8]) -> (r: Result<GetDoorControlStateResponse, UhppoteError>)
        ensures
            r is Ok <==> bytes@.len() == 64 && bytes@[1] == OPCODE,
            r matches Ok(v) ==> GetDoorControlStateResponse::spec_from_bytes(bytes@) == Some(v),
            bytes@.len() != 64 ==> r == Err::<GetDoorControlStateResponse, UhppoteError>(UhppoteError::FrameLength),
            bytes@.len() == 64 && bytes@[1] != OPCODE ==> r == Err::<GetDoorControlStateResponse, UhppoteError>(
                UhppoteError::UnexpectedOpcode,
            ),
    {
        let (header, device_id) = match parse_prefix(OPCODE, bytes) {
            Ok(p) => p,
            Err(e) => {
                return Err(e);
            },
        };
        let door = read_u8(bytes, 8);
        let control_state = read_u8(bytes, 9);
        let delay = read_u8(bytes, 10);
        Ok(GetDoorControlStateResponse { header, message_type: OPCODE, device_id, door, control_state, delay })
    }

    /// Decoding inverts encoding, and the decoded value serialises back to
    /// the identical frame.
    pub proof fn lemma_round_trip(v: GetDoorControlStateResponse)
        requires
            v.wf(),
        ensures
            GetDoorControlStateResponse::spec_from_bytes(v.spec_to_bytes()) == Some(v),
            GetDoorControlStateResponse::spec_from_bytes(v.spec_to_bytes()) matches Some(w) ==> w.spec_to_bytes()
                == v.spec_to_bytes(),
    {
        let b = v.spec_to_bytes();
        lemma_u32_le_round_trip(v.device_id);
        assert(b.len() == 64);
        assert(b[0] == v.header);
        assert(b[1] == OPCODE);
        assert(u32_of_bytes(b[4], b[5], b[6], b[7]) == v.device_id);
        assert(b[8] == v.door);
        assert(b[9] == v.control_state);
        assert(b[10] == v.delay);
        assert(GetDoorControlStateResponse::spec_from_bytes(b) == Some(v));
    }
}

} // verus!
