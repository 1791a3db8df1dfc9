//! GetConfig: the controller's network configuration, hardware address,
//! firmware version and manufacture date. Also the discovery message: a
//! broadcast GetConfig request gathers one reply per controller.

use vstd::prelude::*;
use crate::error::UhppoteError;
use crate::frame::{
    begin_frame,
    finish_frame,
    lemma_u32_le_round_trip,
    parse_prefix,
    u32_le_bytes,
    u32_of_bytes,
    zeros,
};
use crate::opcode::HEADER;
use crate::wire::{DateBCD, Ipv4, MacAddress, Version};

verus! {

/// The opcode byte of GetConfig frames.
pub const OPCODE: u8 = 0x94;

/// Ask a controller (or, broadcast with identifier 0, every controller) for its configuration.
#[derive(Clone, Copy, Debug)]
pub struct GetConfigRequest {
    pub device_id: u32,
}

impl GetConfigRequest {
    /// The 64-byte frame this value serialises to: header, opcode, the
    /// reserved gap, the controller identifier, the payload fields in
    /// order, and zero padding.
    pub open spec fn spec_to_bytes(self) -> Seq<u8> {
        seq![HEADER, OPCODE, 0u8, 0u8]
            + u32_le_bytes(self.device_id)
            + zeros(56)
    }

    /// The value a 64-byte frame of this opcode decodes to.
    pub open spec fn spec_from_bytes(b: Seq<u8>) -> Option<GetConfigRequest> {
        if b.len() == 64 && b[1] == OPCODE {
            Some(GetConfigRequest {
                device_id: u32_of_bytes(b[4], b[5], b[6], b[7]),
            })
        } else {
            None
        }
    }

    pub fn new(device_id: u32) -> (r: GetConfigRequest)
        ensures
            r.device_id == device_id,
    {
        GetConfigRequest { device_id }
    }

    /// Serialise to the fixed 64-byte frame: the header byte first, the
    /// opcode in byte 1, and unused trailing bytes zero.
    pub fn to_bytes(&self) -> (r: Vec<u8>)
        ensures
            r@ == self.spec_to_bytes(),
            r@.len() == 64,
            r@[0] == HEADER,
            r@[1] == OPCODE,
    {
        let mut buf = begin_frame(HEADER, OPCODE, self.device_id);
        finish_frame(&mut buf);
        proof {
            assert(buf@ == self.spec_to_bytes());
        }
        buf
    }

    /// Decode a received frame; fails when the length is not 64 or the
    /// opcode is not this message's.
    pub fn from_bytes(bytes: &[u8]) -> (r: Result<GetConfigRequest, UhppoteError>)
        ensures
            r is Ok <==> bytes@.len() == 64 && bytes@[1] == OPCODE,
            r matches Ok(v) ==> GetConfigRequest::spec_from_bytes(bytes@) == Some(v),
            bytes@.len() != 64 ==> r == Err::<GetConfigRequest, UhppoteError>(UhppoteError::FrameLength),
            bytes@.len() == 64 && bytes@[1] != OPCODE ==> r == Err::<GetConfigRequest, UhppoteError>(
                UhppoteError::UnexpectedOpcode,
            ),
    {
        let (_header, device_id) = match parse_prefix(OPCODE, bytes) {
            Ok(p) => p,
            Err(e) => {
                return Err(e);
            },
        };
        Ok(GetConfigRequest { device_id })
    }

    /// Decoding inverts encoding, and the decoded value serialises back to
    /// the identical frame.
    pub proof fn lemma_round_trip(v: GetConfigRequest)
        ensures
            GetConfigRequest::spec_from_bytes(v.spec_to_bytes()) == Some(v),
            GetConfigRequest::spec_from_bytes(v.spec_to_bytes()) matches Some(w) ==> w.spec_to_bytes()
                == v.spec_to_bytes(),
    {
        let b = v.spec_to_bytes();
        lemma_u32_le_round_trip(v.device_id);
        assert(b.len() == 64);
        assert(b[1] == OPCODE);
        assert(u32_of_bytes(b[4], b[5], b[6], b[7]) == v.device_id);
        assert(GetConfigRequest::spec_from_bytes(b) == Some(v));
    }
}

/// The controller's answer: addresses, hardware address, firmware version and manufacture date.
#[derive(Clone, Copy, Debug)]
pub struct GetConfigResponse {
    pub header: u8,
    pub message_type: u8,
    pub device_id: u32,
    pub ip_address: Ipv4,
    pub subnet: Ipv4,
    pub gateway: Ipv4,
    pub mac: MacAddress,
    pub version: Version,
    pub date: DateBCD,
}

impl GetConfigResponse {
    /// A decoded frame of this kind carries its own opcode in byte 1.
    pub open spec fn wf(self) -> bool {
        self.message_type == OPCODE
    }

    /// The 64-byte frame this value serialises to: header, opcode, the
    /// reserved gap, the controller identifier, the payload fields in
    /// order, and zero padding.
    pub open spec fn spec_to_bytes(self) -> Seq<u8> {
        seq![self.header, self.message_type, 0u8, 0u8]
            + u32_le_bytes(self.device_id)
            + self.ip_address.spec_bytes()
            + self.subnet.spec_bytes()
            + self.gateway.spec_bytes()
            + self.mac.spec_bytes()
            + self.version.spec_bytes()
            + self.date.spec_bytes()
            + zeros(32)
    }

    /// The value a 64-byte frame of this opcode decodes to.
    pub open spec fn spec_from_bytes(b: Seq<u8>) -> Option<GetConfigResponse> {
        if b.len() == 64 && b[1] == OPCODE {
            Some(GetConfigResponse {
                header: b[0],
                message_type: b[1],
                device_id: u32_of_bytes(b[4], b[5], b[6], b[7]),
                ip_address: Ipv4::spec_at(b, 8),
                subnet: Ipv4::spec_at(b, 12),
                gateway: Ipv4::spec_at(b, 16),
                mac: MacAddress::spec_at(b, 20),
                version: Version::spec_at(b, 26),
                date: DateBCD::spec_at(b, 28),
            })
        } else {
            None
        }
    }

    /// Decode a received frame; fails when the length is not 64 or the
    /// opcode is not this message's.
    pub fn from_bytes(bytes: &[u8]) -> (r: Result<GetConfigResponse, UhppoteError>)
        ensures
            r is Ok <==> bytes@.len() == 64 && bytes@[1] == OPCODE,
            r matches Ok(v) ==> GetConfigResponse::spec_from_bytes(bytes@) == Some(v),
            bytes@.len() != 64 ==> r == Err::<GetConfigResponse, UhppoteError>(UhppoteError::FrameLength),
            bytes@.len() == 64 && bytes@[1] != OPCODE ==> r == Err::<GetConfigResponse, UhppoteError>(
                UhppoteError::UnexpectedOpcode,
            ),
    {
        let (header, device_id) = match parse_prefix(OPCODE, bytes) {
            Ok(p) => p,
            Err(e) => {
                return Err(e);
            },
        };
        let ip_address = Ipv4::read_at(bytes, 8);
        let subnet = Ipv4::read_at(bytes, 12);
        let gateway = Ipv4::read_at(bytes, 16);
        let mac = MacAddress::read_at(bytes, 20);
        let version = Version::read_at(bytes, 26);
        let date = DateBCD::read_at(bytes, 28);
        Ok(GetConfigResponse { header, message_type: OPCODE, device_id, ip_address, subnet, gateway, mac, version, date })
    }

    /// Decoding inverts encoding, and the decoded value serialises back to
    /// the identical frame.
    pub proof fn lemma_round_trip(v: GetConfigResponse)
        requires
            v.wf(),
        ensures
            GetConfigResponse::spec_from_bytes(v.spec_to_bytes()) == Some(v),
            GetConfigResponse::spec_from_bytes(v.spec_to_bytes()) matches Some(w) ==> w.spec_to_bytes()
                == v.spec_to_bytes(),
    {
        let b = v.spec_to_bytes();
        lemma_u32_le_round_trip(v.device_id);
        assert(b.len() == 64);
        assert(b[0] == v.header);
        assert(b[1] == OPCODE);
        assert(u32_of_bytes(b[4], b[5], b[6], b[7]) == v.device_id);
        assert(Ipv4::spec_at(b, 8) == v.ip_address);
        assert(Ipv4::spec_at(b, 12) == v.subnet);
        assert(Ipv4::spec_at(b, 16) == v.gateway);
        assert(MacAddress::spec_at(b, 20) == v.mac);
        assert(Version::spec_at(b, 26) == v.version);
        assert(DateBCD::spec_at(b, 28) == v.date);
        assert(GetConfigResponse::spec_from_bytes(b) == Some(v));
    }
}

} // verus!
