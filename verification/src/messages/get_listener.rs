//! GetListener: read the address the controller pushes unsolicited status
//! frames to.

use vstd::prelude::*;
use crate::error::UhppoteError;
use crate::frame::{
    begin_frame,
    finish_frame,
    lemma_u16_le_round_trip,
    lemma_u32_le_round_trip,
    parse_prefix,
    push_u16,
    read_u16,
    u16_le_bytes,
    u16_of_bytes,
    u32_le_bytes,
    u32_of_bytes,
    zeros,
};
use crate::opcode::HEADER;
use crate::wire::{Ipv4};

verus! {

/// The opcode byte of GetListener frames.
pub const OPCODE: u8 = 0x92;

/// Ask the controller where it pushes status frames.
#[derive(Clone, Copy, Debug)]
pub struct GetListenerRequest {
    pub device_id: u32,
}

impl GetListenerRequest {
    /// The 64-byte frame this value serialises to: header, opcode, the
    /// reserved gap, the controller identifier, the payload fields in
    /// order, and zero padding.
    pub open spec fn spec_to_bytes(self) -> Seq<u8> {
        seq![HEADER, OPCODE, 0u8, 0u8]
            + u32_le_bytes(self.device_id)
            + zeros(56)
    }

    /// The value a 64-byte frame of this opcode decodes to.
    pub open spec fn spec_from_bytes(b: Seq<u8>) -> Option<GetListenerRequest> {
        if b.len() == 64 && b[1] == OPCODE {
            Some(GetListenerRequest {
                device_id: u32_of_bytes(b[4], b[5], b[6], b[7]),
            })
        } else {
            None
        }
    }

    pub fn new(device_id: u32) -> (r: GetListenerRequest)
        ensures
            r.device_id == device_id,
    {
        GetListenerRequest { device_id }
    }

    /// Serialise to the fixed 64-byte frame: the header byte first, the
    /// opcode in byte 1, and unused trailing bytes zero.
    pub fn to_bytes(&self) -> (r: Vec<u8>)
        ensures
            r@ == self.spec_to_bytes(),
            r@.len() == 64,
            r@[0] == HEADER,
            r@[1] == OPCODE,
    {
        let mut buf = begin_frame(HEADER, OPCODE, self.device_id);
        finish_frame(&mut buf);
        proof {
            assert(buf@ == self.spec_to_bytes());
        }
        buf
    }

    /// Decode a received frame; fails when the length is not 64 or the
    /// opcode is not this message's.
    pub fn from_bytes(bytes: &[u8]) -> (r: Result<GetListenerRequest, UhppoteError>)
        ensures
            r is Ok <==> bytes@.len() == 64 && bytes@[1] == OPCODE,
            r matches Ok(v) ==> GetListenerRequest::spec_from_bytes(bytes@) == Some(v),
            bytes@.len() != 64 ==> r == Err::<GetListenerRequest, UhppoteError>(UhppoteError::FrameLength),
            bytes@.len() == 64 && bytes@[1] != OPCODE ==> r == Err::<GetListenerRequest, UhppoteError>(
                UhppoteError::UnexpectedOpcode,
            ),
    {
        let (_header, device_id) = match parse_prefix(OPCODE, bytes) {
            Ok(p) => p,
            Err(e) => {
                return Err(e);
            },
        };
        Ok(GetListenerRequest { device_id })
    }

    /// Decoding inverts encoding, and the decoded value serialises back to
    /// the identical frame.
    pub proof fn lemma_round_trip(v: GetListenerRequest)
        ensures
            GetListenerRequest::spec_from_bytes(v.spec_to_bytes()) == Some(v),
            GetListenerRequest::spec_from_bytes(v.spec_to_bytes()) matches Some(w) ==> w.spec_to_bytes()
                == v.spec_to_bytes(),
    {
        let b = v.spec_to_bytes();
        lemma_u32_le_round_trip(v.device_id);
        assert(b.len() == 64);
        assert(b[1] == OPCODE);
        assert(u32_of_bytes(b[4], b[5], b[6], b[7]) == v.device_id);
        assert(GetListenerRequest::spec_from_bytes(b) == Some(v));
    }
}

/// The controller's answer: the configured listener address and port.
#[derive(Clone, Copy, Debug)]
pub struct GetListenerResponse {
    pub header: u8,
    pub message_type: u8,
    pub device_id: u32,
    pub ip_address: Ipv4,
    pub port: u16,
}

impl GetListenerResponse {
    /// A decoded frame of this kind carries its own opcode in byte 1.
    pub open spec fn wf(self) -> bool {
        self.message_type == OPCODE
    }

    /// The 64-byte frame this value serialises to: header, opcode, the
    /// reserved gap, the controller identifier, the payload fields in
    /// order, and zero padding.
    pub open spec fn spec_to_bytes(self) -> Seq<u8> {
        seq![self.header, self.message_type, 0u8, 0u8]
            + u32_le_bytes(self.device_id)
            + self.ip_address.spec_bytes()
            + u16_le_bytes(self.port)
            + zeros(50)
    }

    /// The value a 64-byte frame of this opcode decodes to.
    pub open spec fn spec_from_bytes(b: Seq<u8>) -> Option<GetListenerResponse> {
        if b.len() == 64 && b[1] == OPCODE {
            Some(GetListenerResponse {
                header: b[0],
                message_type: b[1],
                device_id: u32_of_bytes(b[4], b[5], b[6], b[7]),
                ip_address: Ipv4::spec_at(b, 8),
                port: u16_of_bytes(b[12], b[13]),
            })
        } else {
            None
        }
    }

    /// Decode a received frame; fails when the length is not 64 or the
    /// opcode is not this message's.
    pub fn from_bytes(bytes: &[u8]) -> (r: Result<GetListenerResponse, UhppoteError>)
        ensures
            r is Ok <==> bytes@.len() == 64 && bytes@[1] == OPCODE,
            r matches Ok(v) ==> GetListenerResponse::spec_from_bytes(bytes@) == Some(v),
            bytes@.len() != 64 ==> r == Err::<GetListenerResponse, UhppoteError>(UhppoteError::FrameLength),
            bytes@.len() == 64 && bytes@[1] != OPCODE ==> r == Err::<GetListenerResponse, UhppoteError>(
                UhppoteError::UnexpectedOpcode,
            ),
    {
        let (header, device_id) = match parse_prefix(OPCODE, bytes) {
            Ok(p) => p,
            Err(e) => {
                return Err(e);
            },
        };
        let ip_address = Ipv4::read_at(bytes, 8);
        let port = read_u16(bytes, 12);
        Ok(GetListenerResponse { header, message_type: OPCODE, device_id, ip_address, port })
    }

    /// Decoding inverts encoding, and the decoded value serialises back to
    /// the identical frame.
    pub proof fn lemma_round_trip(v: GetListenerResponse)
        requires
            v.wf(),
        ensures
            GetListenerResponse::spec_from_bytes(v.spec_to_bytes()) == Some(v),
            GetListenerResponse::spec_from_bytes(v.spec_to_bytes()) matches Some(w) ==> w.spec_to_bytes()
                == v.spec_to_bytes(),
    {
        let b = v.spec_to_bytes();
        lemma_u32_le_round_trip(v.device_id);
        lemma_u16_le_round_trip(v.port);
        assert(b.len() == 64);
        assert(b[0] == v.header);
        assert(b[1] == OPCODE);
        assert(u32_of_bytes(b[4], b[5], b[6], b[7]) == v.device_id);
        assert(Ipv4::spec_at(b, 8) == v.ip_address);
        assert(u16_of_bytes(b[12], b[13]) == v.port);
        assert(GetListenerResponse::spec_from_bytes(b) == Some(v));
    }
}

} // verus!
