//! The opcode table: every message kind the protocol knows, and the byte
//! that selects it on the wire.

use vstd::prelude::*;
use crate::error::UhppoteError;

verus! {

/// Every frame starts with this byte.
pub const HEADER: u8 = 0x17;

/// The sentinel a destructive command must carry in its payload; controllers
/// silently ignore the command without it.
pub const MAGIC_WORD: u32 = 0x55aaaa55;

/// The kind of a request or response frame, selected by the frame's second
/// byte.
#[derive(PartialEq, Eq, Structural, Clone, Copy, Debug)]
pub enum RequestResponseType {
    Status,
    SetTime,
    GetTime,
    OpenDoor,
    PutCard,
    DeleteCard,
    DeleteCards,
    GetCards,
    GetCardByID,
    GetCardByIndex,
    SetDoorControlState,
    GetDoorControlState,
    SetTimeProfile,
    ClearTimeProfiles,
    SetRecordSpecialEvents,
    SetListener,
    GetListener,
    GetConfig,
    SetAddress,
    GetTimeProfile,
    ClearTaskList,
    AddTask,
    SetFirstCard,
    RefreshTaskList,
    GetEvent,
    SetEventIndex,
    GetEventIndex,
}

impl RequestResponseType {
    /// The opcode byte this message kind puts in byte 1 of its frames.
    pub open spec fn spec_byte(self) -> u8 {
        match self {
            RequestResponseType::Status => 0x20,
            RequestResponseType::SetTime => 0x30,
            RequestResponseType::GetTime => 0x32,
            RequestResponseType::OpenDoor => 0x40,
            RequestResponseType::PutCard => 0x50,
            RequestResponseType::DeleteCard => 0x52,
            RequestResponseType::DeleteCards => 0x54,
            RequestResponseType::GetCards => 0x58,
            RequestResponseType::GetCardByID => 0x5a,
            RequestResponseType::GetCardByIndex => 0x5c,
            RequestResponseType::SetDoorControlState => 0x80,
            RequestResponseType::GetDoorControlState => 0x82,
            RequestResponseType::SetTimeProfile => 0x88,
            RequestResponseType::ClearTimeProfiles => 0x8a,
            RequestResponseType::SetRecordSpecialEvents => 0x8e,
            RequestResponseType::SetListener => 0x90,
            RequestResponseType::GetListener => 0x92,
            RequestResponseType::GetConfig => 0x94,
            RequestResponseType::SetAddress => 0x96,
            RequestResponseType::GetTimeProfile => 0x98,
            RequestResponseType::ClearTaskList => 0xa6,
            RequestResponseType::AddTask => 0xa8,
            RequestResponseType::SetFirstCard => 0xaa,
            RequestResponseType::RefreshTaskList => 0xac,
            RequestResponseType::GetEvent => 0xb0,
            RequestResponseType::SetEventIndex => 0xb2,
            RequestResponseType::GetEventIndex => 0xb4,
        }
    }

    /// The message kind an opcode byte selects, if any.
    pub open spec fn spec_of_byte(b: u8) -> Option<RequestResponseType> {
        if b == 0x20 {
            Some(RequestResponseType::Status)
        } else if b == 0x30 {
            Some(RequestResponseType::SetTime)
        } else if b == 0x32 {
            Some(RequestResponseType::GetTime)
        } else if b == 0x40 {
            Some(RequestResponseType::OpenDoor)
        } else if b == 0x50 {
            Some(RequestResponseType::PutCard)
        } else if b == 0x52 {
            Some(RequestResponseType::DeleteCard)
        } else if b == 0x54 {
            Some(RequestResponseType::DeleteCards)
        } else if b == 0x58 {
            Some(RequestResponseType::GetCards)
        } else if b == 0x5a {
            Some(RequestResponseType::GetCardByID)
        } else if b == 0x5c {
            Some(RequestResponseType::GetCardByIndex)
        } else if b == 0x80 {
            Some(RequestResponseType::SetDoorControlState)
        } else if b == 0x82 {
            Some(RequestResponseType::GetDoorControlState)
        } else if b == 0x88 {
            Some(RequestResponseType::SetTimeProfile)
        } else if b == 0x8a {
            Some(RequestResponseType::ClearTimeProfiles)
        } else if b == 0x8e {
            Some(RequestResponseType::SetRecordSpecialEvents)
        } else if b == 0x90 {
            Some(RequestResponseType::SetListener)
        } else if b == 0x92 {
            Some(RequestResponseType::GetListener)
        } else if b == 0x94 {
            Some(RequestResponseType::GetConfig)
        } else if b == 0x96 {
            Some(RequestResponseType::SetAddress)
        } else if b == 0x98 {
            Some(RequestResponseType::GetTimeProfile)
        } else if b == 0xa6 {
            Some(RequestResponseType::ClearTaskList)
        } else if b == 0xa8 {
            Some(RequestResponseType::AddTask)
        } else if b == 0xaa {
            Some(RequestResponseType::SetFirstCard)
        } else if b == 0xac {
            Some(RequestResponseType::RefreshTaskList)
        } else if b == 0xb0 {
            Some(RequestResponseType::GetEvent)
        } else if b == 0xb2 {
            Some(RequestResponseType::SetEventIndex)
        } else if b == 0xb4 {
            Some(RequestResponseType::GetEventIndex)
        } else {
            None
        }
    }

    /// The opcode byte of this message kind.
    pub fn as_byte(self) -> (r: u8)
        ensures
            r == self.spec_byte(),
    {
        match self {
            RequestResponseType::Status => 0x20,
            RequestResponseType::SetTime => 0x30,
            RequestResponseType::GetTime => 0x32,
            RequestResponseType::OpenDoor => 0x40,
            RequestResponseType::PutCard => 0x50,
            RequestResponseType::DeleteCard => 0x52,
            RequestResponseType::DeleteCards => 0x54,
            RequestResponseType::GetCards => 0x58,
            RequestResponseType::GetCardByID => 0x5a,
            RequestResponseType::GetCardByIndex => 0x5c,
            RequestResponseType::SetDoorControlState => 0x80,
            RequestResponseType::GetDoorControlState => 0x82,
            RequestResponseType::SetTimeProfile => 0x88,
            RequestResponseType::ClearTimeProfiles => 0x8a,
            RequestResponseType::SetRecordSpecialEvents => 0x8e,
            RequestResponseType::SetListener => 0x90,
            RequestResponseType::GetListener => 0x92,
            RequestResponseType::GetConfig => 0x94,
            RequestResponseType::SetAddress => 0x96,
            RequestResponseType::GetTimeProfile => 0x98,
            RequestResponseType::ClearTaskList => 0xa6,
            RequestResponseType::AddTask => 0xa8,
            RequestResponseType::SetFirstCard => 0xaa,
            RequestResponseType::RefreshTaskList => 0xac,
            RequestResponseType::GetEvent => 0xb0,
            RequestResponseType::SetEventIndex => 0xb2,
            RequestResponseType::GetEventIndex => 0xb4,
        }
    }

    /// The message kind an opcode byte selects; an error for a byte no kind
    /// carries.
    pub fn try_from_byte(b: u8) -> (r: Result<RequestResponseType, UhppoteError>)
        ensures
            r matches Ok(t) ==> Self::spec_of_byte(b) == Some(t),
            r is Ok <==> Self::spec_of_byte(b) is Some,
            Self::spec_of_byte(b) is None ==> r == Err::<RequestResponseType, UhppoteError>(
                UhppoteError::UnknownOpcode(b),
            ),
    {
        if b == 0x20 {
            Ok(RequestResponseType::Status)
        } else if b == 0x30 {
            Ok(RequestResponseType::SetTime)
        } else if b == 0x32 {
            Ok(RequestResponseType::GetTime)
        } else if b == 0x40 {
            Ok(RequestResponseType::OpenDoor)
        } else if b == 0x50 {
            Ok(RequestResponseType::PutCard)
        } else if b == 0x52 {
            Ok(RequestResponseType::DeleteCard)
        } else if b == 0x54 {
            Ok(RequestResponseType::DeleteCards)
        } else if b == 0x58 {
            Ok(RequestResponseType::GetCards)
        } else if b == 0x5a {
            Ok(RequestResponseType::GetCardByID)
        } else if b == 0x5c {
            Ok(RequestResponseType::GetCardByIndex)
        } else if b == 0x80 {
            Ok(RequestResponseType::SetDoorControlState)
        } else if b == 0x82 {
            Ok(RequestResponseType::GetDoorControlState)
        } else if b == 0x88 {
            Ok(RequestResponseType::SetTimeProfile)
        } else if b == 0x8a {
            Ok(RequestResponseType::ClearTimeProfiles)
        } else if b == 0x8e {
            Ok(RequestResponseType::SetRecordSpecialEvents)
        } else if b == 0x90 {
            Ok(RequestResponseType::SetListener)
        } else if b == 0x92 {
            Ok(RequestResponseType::GetListener)
        } else if b == 0x94 {
            Ok(RequestResponseType::GetConfig)
        } else if b == 0x96 {
            Ok(RequestResponseType::SetAddress)
        } else if b == 0x98 {
            Ok(RequestResponseType::GetTimeProfile)
        } else if b == 0xa6 {
            Ok(RequestResponseType::ClearTaskList)
        } else if b == 0xa8 {
            Ok(RequestResponseType::AddTask)
        } else if b == 0xaa {
            Ok(RequestResponseType::SetFirstCard)
        } else if b == 0xac {
            Ok(RequestResponseType::RefreshTaskList)
        } else if b == 0xb0 {
            Ok(RequestResponseType::GetEvent)
        } else if b == 0xb2 {
            Ok(RequestResponseType::SetEventIndex)
        } else if b == 0xb4 {
            Ok(RequestResponseType::GetEventIndex)
        } else {
            Err(UhppoteError::UnknownOpcode(b))
        }
    }
}

/// The opcode table is bidirectional: reading back the byte of any message
/// kind selects that kind again.
pub proof fn lemma_opcode_table_round_trip(t: RequestResponseType)
    ensures
        RequestResponseType::spec_of_byte(t.spec_byte()) == Some(t),
{
}

/// The opcode table is bidirectional the other way too: any byte that selects
/// a message kind is that kind's own opcode byte.
pub proof fn lemma_opcode_byte_round_trip(b: u8)
    ensures
        RequestResponseType::spec_of_byte(b) matches Some(t) ==> t.spec_byte() == b,
{
}

} // verus!
