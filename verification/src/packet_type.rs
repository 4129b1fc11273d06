//! The kinds of an outer message: the four-byte tag that opens every frame.

use vstd::prelude::*;
use vstd::std_specs::convert::FromSpecImpl;

verus! {

/// What an outer message carries. On the wire it is a little-endian number,
/// the position of the variant in this list, counted from zero.
#[derive(Debug, Clone, Copy, PartialEq, Eq, Structural)]
pub enum EPacketType {
    NetMessageUnknown,
    NetMessageServerHello,
    NetMessageGenericText,
    NetMessageGameMessage,
    NetMessageGamePacket,
    NetMessageError,
    NetMessageTrack,
    NetMessageClientLogRequest,
    NetMessageClientLogResponse,
    NetMessageMax,
}

impl EPacketType {
    /// The tag of this kind.
    pub open spec fn tag(self) -> u32 {
        match self {
            EPacketType::NetMessageUnknown => 0u32,
            EPacketType::NetMessageServerHello => 1u32,
            EPacketType::NetMessageGenericText => 2u32,
            EPacketType::NetMessageGameMessage => 3u32,
            EPacketType::NetMessageGamePacket => 4u32,
            EPacketType::NetMessageError => 5u32,
            EPacketType::NetMessageTrack => 6u32,
            EPacketType::NetMessageClientLogRequest => 7u32,
            EPacketType::NetMessageClientLogResponse => 8u32,
            EPacketType::NetMessageMax => 9u32,
        }
    }

    /// The kind that a tag stands for; a number that no kind owns reads as
    /// `NetMessageUnknown`.
    pub open spec fn of_tag(value: u32) -> EPacketType {
        match value {
            1u32 => EPacketType::NetMessageServerHello,
            2u32 => EPacketType::NetMessageGenericText,
            3u32 => EPacketType::NetMessageGameMessage,
            4u32 => EPacketType::NetMessageGamePacket,
            5u32 => EPacketType::NetMessageError,
            6u32 => EPacketType::NetMessageTrack,
            7u32 => EPacketType::NetMessageClientLogRequest,
            8u32 => EPacketType::NetMessageClientLogResponse,
            9u32 => EPacketType::NetMessageMax,
            _ => EPacketType::NetMessageUnknown,
        }
    }

    /// The tag of this kind.
    pub fn to_u32(self) -> (r: u32)
        ensures
            r == self.tag(),
            r < 10,
            EPacketType::of_tag(r) == self,
    {
        match self {
            EPacketType::NetMessageUnknown => 0,
            EPacketType::NetMessageServerHello => 1,
            EPacketType::NetMessageGenericText => 2,
            EPacketType::NetMessageGameMessage => 3,
            EPacketType::NetMessageGamePacket => 4,
            EPacketType::NetMessageError => 5,
            EPacketType::NetMessageTrack => 6,
            EPacketType::NetMessageClientLogRequest => 7,
            EPacketType::NetMessageClientLogResponse => 8,
            EPacketType::NetMessageMax => 9,
        }
    }
}

impl FromSpecImpl<u32> for EPacketType {
    open spec fn obeys_from_spec() -> bool {
        true
    }

    open spec fn from_spec(value: u32) -> EPacketType {
        EPacketType::of_tag(value)
    }
}

impl From<u32> for EPacketType {
    fn from(value: u32) -> (r: EPacketType)
        ensures
            r == EPacketType::of_tag(value),
    {
        match value {
            1 => EPacketType::NetMessageServerHello,
            2 => EPacketType::NetMessageGenericText,
            3 => EPacketType::NetMessageGameMessage,
            4 => EPacketType::NetMessageGamePacket,
            5 => EPacketType::NetMessageError,
            6 => EPacketType::NetMessageTrack,
            7 => EPacketType::NetMessageClientLogRequest,
            8 => EPacketType::NetMessageClientLogResponse,
            9 => EPacketType::NetMessageMax,
            _ => EPacketType::NetMessageUnknown,
        }
    }
}

} // verus!
