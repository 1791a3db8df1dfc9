//! SetTime: set the controller's clock.

use vstd::prelude::*;
use crate::error::UhppoteError;
use crate::frame::{
    begin_frame,
    finish_frame,
    lemma_u32_le_round_trip,
    parse_prefix,
    u32_le_bytes,
    u32_of_bytes,
    zeros,
};
use crate::opcode::HEADER;
use crate::wire::{DateTime};

verus! {

/// The opcode byte of SetTime frames.
pub const OPCODE: u8 = 0x30;

/// Set the controller's clock to this timestamp.
#[derive(Clone, Copy, Debug)]
pub struct SetTimeRequest {
    pub device_id: u32,
    pub datetime: DateTime,
}

impl SetTimeRequest {
    /// The 64-byte frame this value serialises to: header, opcode, the
    /// reserved gap, the controller identifier, the payload fields in
    /// order, and zero padding.
    pub open spec fn spec_to_bytes(self) -> Seq<u8> {
        seq![HEADER, OPCODE, 0u8, 0u8]
            + u32_le_bytes(self.device_id)
            + self.datetime.spec_bytes()
            + zeros(49)
    }

    /// The value a 64-byte frame of this opcode decodes to.
    pub open spec fn spec_from_bytes(b: Seq<u8>) -> Option<SetTimeRequest> {
        if b.len() == 64 && b[1] == OPCODE {
            Some(SetTimeRequest {
                device_id: u32_of_bytes(b[4], b[5], b[6], b[7]),
                datetime: DateTime::spec_at(b, 8),
            })
        } else {
            None
        }
    }

    pub fn new(device_id: u32, datetime: DateTime) -> (r: SetTimeRequest)
        ensures
            r.device_id == device_id,
            r.datetime == datetime,
    {
        SetTimeRequest { device_id, datetime }
    }

    /// Serialise to the fixed 64-byte frame: the header byte first, the
    /// opcode in byte 1, and unused trailing bytes zero.
    pub fn to_bytes(&self) -> (r: Vec<u8>)
        ensures
            r@ == self.spec_to_bytes(),
            r@.len() == 64,
            r@[0] == HEADER,
            r@[1] == OPCODE,
    {
        let mut buf = begin_frame(HEADER, OPCODE, self.device_id);
        self.datetime.push_onto(&mut buf);
        finish_frame(&mut buf);
        proof {
            assert(buf@ == self.spec_to_bytes());
        }
        buf
    }

    /// Decode a received frame; fails when the length is not 64 or the
    /// opcode is not this message's.
    pub fn from_bytes(bytes: &[u8]) -> (r: Result<SetTimeRequest, UhppoteError>)
        ensures
            r is Ok <==> bytes@.len() == 64 && bytes@[1] == OPCODE,
            r matches Ok(v) ==> SetTimeRequest::spec_from_bytes(bytes@) == Some(v),
            bytes@.len() != 64 ==> r == Err::<SetTimeRequest, UhppoteError>(UhppoteError::FrameLength),
            bytes@.len() == 64 && bytes@[1] != OPCODE ==> r == Err::<SetTimeRequest, UhppoteError>(
                UhppoteError::UnexpectedOpcode,
            ),
    {
        let (_header, device_id) = match parse_prefix(OPCODE, bytes) {
            Ok(p) => p,
            Err(e) => {
                return Err(e);
            },
        };
        let datetime = DateTime::read_at(bytes, 8);
        Ok(SetTimeRequest { device_id, datetime })
    }

    /// Decoding inverts encoding, and the decoded value serialises back to
    /// the identical frame.
    pub proof fn lemma_round_trip(v: SetTimeRequest)
        ensures
            SetTimeRequest::spec_from_bytes(v.spec_to_bytes()) == Some(v),
            SetTimeRequest::spec_from_bytes(v.spec_to_bytes()) matches Some(w) ==> w.spec_to_bytes()
                == v.spec_to_bytes(),
    {
        let b = v.spec_to_bytes();
        lemma_u32_le_round_trip(v.device_id);
        assert(b.len() == 64);
        assert(b[1] == OPCODE);
        assert(u32_of_bytes(b[4], b[5], b[6], b[7]) == v.device_id);
        assert(DateTime::spec_at(b, 8) == v.datetime);
        assert(SetTimeRequest::spec_from_bytes(b) == Some(v));
    }
}

/// The controller's answer: the clock value it now holds.
#[derive(Clone, Copy, Debug)]
pub struct SetTimeResponse {
    pub header: u8,
    pub message_type: u8,
    pub device_id: u32,
    pub datetime: DateTime,
}

impl SetTimeResponse {
    /// A decoded frame of this kind carries its own opcode in byte 1.
    pub open spec fn wf(self) -> bool {
        self.message_type == OPCODE
    }

    /// The 64-byte frame this value serialises to: header, opcode, the
    /// reserved gap, the controller identifier, the payload fields in
    /// order, and zero padding.
    pub open spec fn spec_to_bytes(self) -> Seq<u8> {
        seq![self.header, self.message_type, 0u8, 0u8]
            + u32_le_bytes(self.device_id)
            + self.datetime.spec_bytes()
            + zeros(49)
    }

    /// The value a 64-byte frame of this opcode decodes to.
    pub open spec fn spec_from_bytes(b: Seq<u8>) -> Option<SetTimeResponse> {
        if b.len() == 64 && b[1] == OPCODE {
            Some(SetTimeResponse {
                header: b[0],
                message_type: b[1],
                device_id: u32_of_bytes(b[4], b[5], b[6], b[7]),
                datetime: DateTime::spec_at(b, 8),
            })
        } else {
            None
        }
    }

    /// Decode a received frame; fails when the length is not 64 or the
    /// opcode is not this message's.
    pub fn from_bytes(bytes: &[u8]) -> (r: Result<SetTimeResponse, UhppoteError>)
        ensures
            r is Ok <==> bytes@.len() == 64 && bytes@[1] == OPCODE,
            r matches Ok(v) ==> SetTimeResponse::spec_from_bytes(bytes@) == Some(v),
            bytes@.len() != 64 ==> r == Err::<SetTimeResponse, UhppoteError>(UhppoteError::FrameLength),
            bytes@.len() == 64 && bytes@[1] != OPCODE ==> r == Err::<SetTimeResponse, UhppoteError>(
                UhppoteError::UnexpectedOpcode,
            ),
    {
        let (header, device_id) = match parse_prefix(OPCODE, bytes) {
            Ok(p) => p,
            Err(e) => {
                return Err(e);
            },
        };
        let datetime = DateTime::read_at(bytes, 8);
        Ok(SetTimeResponse { header, message_type: OPCODE, device_id, datetime })
    }

    /// Decoding inverts encoding, and the decoded value serialises back to
    /// the identical frame.
    pub proof fn lemma_round_trip(v: SetTimeResponse)
        requires
            v.wf(),
        ensures
            SetTimeResponse::spec_from_bytes(v.spec_to_bytes()) == Some(v),
            SetTimeResponse::spec_from_bytes(v.spec_to_bytes()) matches Some(w) ==> w.spec_to_bytes()
                == v.spec_to_bytes(),
    {
        let b = v.spec_to_bytes();
        lemma_u32_le_round_trip(v.device_id);
        assert(b.len() == 64);
        assert(b[0] == v.header);
        assert(b[1] == OPCODE);
        assert(u32_of_bytes(b[4], b[5], b[6], b[7]) == v.device_id);
        assert(DateTime::spec_at(b, 8) == v.datetime);
        assert(SetTimeResponse::spec_from_bytes(b) == Some(v));
    }
}

} // verus!
