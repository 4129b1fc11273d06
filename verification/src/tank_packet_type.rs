//! The action kinds of a game packet: the one-byte tag that opens its header.

use vstd::prelude::*;
use vstd::std_specs::convert::FromSpecImpl;

verus! {

/// What a game packet asks for or reports. On the wire it is one byte, the
/// position of the variant in this list, counted from zero.
#[derive(Debug, Clone, Copy, PartialEq, Eq, Structural)]
pub enum ETankPacketType {
    NetGamePacketState,
    NetGamePacketCallFunction,
    NetGamePacketUpdateStatus,
    NetGamePacketTileChangeRequest,
    NetGamePacketSendMapData,
    NetGamePacketSendTileUpdateData,
    NetGamePacketSendTileUpdateDataMultiple,
    NetGamePacketTileActivateRequest,
    NetGamePacketTileApplyDamage,
    NetGamePacketSendInventoryState,
    NetGamePacketItemActivateRequest,
    NetGamePacketItemActivateObjectRequest,
    NetGamePacketSendTileTreeState,
    NetGamePacketModifyItemInventory,
    NetGamePacketItemChangeObject,
    NetGamePacketSendLock,
    NetGamePacketSendItemDatabaseData,
    NetGamePacketSendParticleEffect,
    NetGamePacketSetIconState,
    NetGamePacketItemEffect,
    NetGamePacketSetCharacterState,
    NetGamePacketPingReply,
    NetGamePacketPingRequest,
    NetGamePacketGotPunched,
    NetGamePacketAppCheckResponse,
    NetGamePacketAppIntegrityFail,
    NetGamePacketDisconnect,
    NetGamePacketBattleJoin,
    NetGamePacketBattleEvent,
    NetGamePacketUseDoor,
    NetGamePacketSendParental,
    NetGamePacketGoneFishin,
    NetGamePacketSteam,
    NetGamePacketPetBattle,
    NetGamePacketNpc,
    NetGamePacketSpecial,
    NetGamePacketSendParticleEffectV2,
    NetGamePacketActiveArrowToItem,
    NetGamePacketSelectTileIndex,
    NetGamePacketSendPlayerTributeData,
}

/// The number of action kinds that have a tag of their own.
pub const TANK_PACKET_TYPE_COUNT: u8 = 40;

impl ETankPacketType {
    /// The tag byte of this kind.
    pub open spec fn tag(self) -> u8 {
        match self {
            ETankPacketType::NetGamePacketState => 0u8,
            ETankPacketType::NetGamePacketCallFunction => 1u8,
            ETankPacketType::NetGamePacketUpdateStatus => 2u8,
            ETankPacketType::NetGamePacketTileChangeRequest => 3u8,
            ETankPacketType::NetGamePacketSendMapData => 4u8,
            ETankPacketType::NetGamePacketSendTileUpdateData => 5u8,
            ETankPacketType::NetGamePacketSendTileUpdateDataMultiple => 6u8,
            ETankPacketType::NetGamePacketTileActivateRequest => 7u8,
            ETankPacketType::NetGamePacketTileApplyDamage => 8u8,
            ETankPacketType::NetGamePacketSendInventoryState => 9u8,
            ETankPacketType::NetGamePacketItemActivateRequest => 10u8,
            ETankPacketType::NetGamePacketItemActivateObjectRequest => 11u8,
            ETankPacketType::NetGamePacketSendTileTreeState => 12u8,
            ETankPacketType::NetGamePacketModifyItemInventory => 13u8,
            ETankPacketType::NetGamePacketItemChangeObject => 14u8,
            ETankPacketType::NetGamePacketSendLock => 15u8,
            ETankPacketType::NetGamePacketSendItemDatabaseData => 16u8,
            ETankPacketType::NetGamePacketSendParticleEffect => 17u8,
            ETankPacketType::NetGamePacketSetIconState => 18u8,
            ETankPacketType::NetGamePacketItemEffect => 19u8,
            ETankPacketType::NetGamePacketSetCharacterState => 20u8,
            ETankPacketType::NetGamePacketPingReply => 21u8,
            ETankPacketType::NetGamePacketPingRequest => 22u8,
            ETankPacketType::NetGamePacketGotPunched => 23u8,
            ETankPacketType::NetGamePacketAppCheckResponse => 24u8,
            ETankPacketType::NetGamePacketAppIntegrityFail => 25u8,
            ETankPacketType::NetGamePacketDisconnect => 26u8,
            ETankPacketType::NetGamePacketBattleJoin => 27u8,
            ETankPacketType::NetGamePacketBattleEvent => 28u8,
            ETankPacketType::NetGamePacketUseDoor => 29u8,
            ETankPacketType::NetGamePacketSendParental => 30u8,
            ETankPacketType::NetGamePacketGoneFishin => 31u8,
            ETankPacketType::NetGamePacketSteam => 32u8,
            ETankPacketType::NetGamePacketPetBattle => 33u8,
            ETankPacketType::NetGamePacketNpc => 34u8,
            ETankPacketType::NetGamePacketSpecial => 35u8,
            ETankPacketType::NetGamePacketSendParticleEffectV2 => 36u8,
            ETankPacketType::NetGamePacketActiveArrowToItem => 37u8,
            ETankPacketType::NetGamePacketSelectTileIndex => 38u8,
            ETankPacketType::NetGamePacketSendPlayerTributeData => 39u8,
        }
    }

    /// The kind that a tag byte stands for; a byte that no kind owns reads as
    /// `NetGamePacketState`.
    pub open spec fn of_tag(value: u8) -> ETankPacketType {
        match value {
            1u8 => ETankPacketType::NetGamePacketCallFunction,
            2u8 => ETankPacketType::NetGamePacketUpdateStatus,
            3u8 => ETankPacketType::NetGamePacketTileChangeRequest,
            4u8 => ETankPacketType::NetGamePacketSendMapData,
            5u8 => ETankPacketType::NetGamePacketSendTileUpdateData,
            6u8 => ETankPacketType::NetGamePacketSendTileUpdateDataMultiple,
            7u8 => ETankPacketType::NetGamePacketTileActivateRequest,
            8u8 => ETankPacketType::NetGamePacketTileApplyDamage,
            9u8 => ETankPacketType::NetGamePacketSendInventoryState,
            10u8 => ETankPacketType::NetGamePacketItemActivateRequest,
            11u8 => ETankPacketType::NetGamePacketItemActivateObjectRequest,
            12u8 => ETankPacketType::NetGamePacketSendTileTreeState,
            13u8 => ETankPacketType::NetGamePacketModifyItemInventory,
            14u8 => ETankPacketType::NetGamePacketItemChangeObject,
            15u8 => ETankPacketType::NetGamePacketSendLock,
            16u8 => ETankPacketType::NetGamePacketSendItemDatabaseData,
            17u8 => ETankPacketType::NetGamePacketSendParticleEffect,
            18u8 => ETankPacketType::NetGamePacketSetIconState,
            19u8 => ETankPacketType::NetGamePacketItemEffect,
            20u8 => ETankPacketType::NetGamePacketSetCharacterState,
            21u8 => ETankPacketType::NetGamePacketPingReply,
            22u8 => ETankPacketType::NetGamePacketPingRequest,
            23u8 => ETankPacketType::NetGamePacketGotPunched,
            24u8 => ETankPacketType::NetGamePacketAppCheckResponse,
            25u8 => ETankPacketType::NetGamePacketAppIntegrityFail,
            26u8 => ETankPacketType::NetGamePacketDisconnect,
            27u8 => ETankPacketType::NetGamePacketBattleJoin,
            28u8 => ETankPacketType::NetGamePacketBattleEvent,
            29u8 => ETankPacketType::NetGamePacketUseDoor,
            30u8 => ETankPacketType::NetGamePacketSendParental,
            31u8 => ETankPacketType::NetGamePacketGoneFishin,
            32u8 => ETankPacketType::NetGamePacketSteam,
            33u8 => ETankPacketType::NetGamePacketPetBattle,
            34u8 => ETankPacketType::NetGamePacketNpc,
            35u8 => ETankPacketType::NetGamePacketSpecial,
            36u8 => ETankPacketType::NetGamePacketSendParticleEffectV2,
            37u8 => ETankPacketType::NetGamePacketActiveArrowToItem,
            38u8 => ETankPacketType::NetGamePacketSelectTileIndex,
            39u8 => ETankPacketType::NetGamePacketSendPlayerTributeData,
            _ => ETankPacketType::NetGamePacketState,
        }
    }

    /// The tag byte of this kind.
    pub fn to_u8(self) -> (r: u8)
        ensures
            r == self.tag(),
            r < TANK_PACKET_TYPE_COUNT,
            ETankPacketType::of_tag(r) == self,
    {
        match self {
            ETankPacketType::NetGamePacketState => 0,
            ETankPacketType::NetGamePacketCallFunction => 1,
            ETankPacketType::NetGamePacketUpdateStatus => 2,
            ETankPacketType::NetGamePacketTileChangeRequest => 3,
            ETankPacketType::NetGamePacketSendMapData => 4,
            ETankPacketType::NetGamePacketSendTileUpdateData => 5,
            ETankPacketType::NetGamePacketSendTileUpdateDataMultiple => 6,
            ETankPacketType::NetGamePacketTileActivateRequest => 7,
            ETankPacketType::NetGamePacketTileApplyDamage => 8,
            ETankPacketType::NetGamePacketSendInventoryState => 9,
            ETankPacketType::NetGamePacketItemActivateRequest => 10,
            ETankPacketType::NetGamePacketItemActivateObjectRequest => 11,
            ETankPacketType::NetGamePacketSendTileTreeState => 12,
            ETankPacketType::NetGamePacketModifyItemInventory => 13,
            ETankPacketType::NetGamePacketItemChangeObject => 14,
            ETankPacketType::NetGamePacketSendLock => 15,
            ETankPacketType::NetGamePacketSendItemDatabaseData => 16,
            ETankPacketType::NetGamePacketSendParticleEffect => 17,
            ETankPacketType::NetGamePacketSetIconState => 18,
            ETankPacketType::NetGamePacketItemEffect => 19,
            ETankPacketType::NetGamePacketSetCharacterState => 20,
            ETankPacketType::NetGamePacketPingReply => 21,
            ETankPacketType::NetGamePacketPingRequest => 22,
            ETankPacketType::NetGamePacketGotPunched => 23,
            ETankPacketType::NetGamePacketAppCheckResponse => 24,
            ETankPacketType::NetGamePacketAppIntegrityFail => 25,
            ETankPacketType::NetGamePacketDisconnect => 26,
            ETankPacketType::NetGamePacketBattleJoin => 27,
            ETankPacketType::NetGamePacketBattleEvent => 28,
            ETankPacketType::NetGamePacketUseDoor => 29,
            ETankPacketType::NetGamePacketSendParental => 30,
            ETankPacketType::NetGamePacketGoneFishin => 31,
            ETankPacketType::NetGamePacketSteam => 32,
            ETankPacketType::NetGamePacketPetBattle => 33,
            ETankPacketType::NetGamePacketNpc => 34,
            ETankPacketType::NetGamePacketSpecial => 35,
            ETankPacketType::NetGamePacketSendParticleEffectV2 => 36,
            ETankPacketType::NetGamePacketActiveArrowToItem => 37,
            ETankPacketType::NetGamePacketSelectTileIndex => 38,
            ETankPacketType::NetGamePacketSendPlayerTributeData => 39,
        }
    }
}

impl FromSpecImpl<u8> for ETankPacketType {
    open spec fn obeys_from_spec() -> bool {
        true
    }

    open spec fn from_spec(value: u8) -> ETankPacketType {
        ETankPacketType::of_tag(value)
    }
}

impl From<u8> for ETankPacketType {
    fn from(value: u8) -> (r: ETankPacketType)
        ensures
            r == ETankPacketType::of_tag(value),
            value < TANK_PACKET_TYPE_COUNT ==> r.tag() == value,
            value >= TANK_PACKET_TYPE_COUNT ==> r == ETankPacketType::NetGamePacketState,
    {
        match value {
            1 => ETankPacketType::NetGamePacketCallFunction,
            2 => ETankPacketType::NetGamePacketUpdateStatus,
            3 => ETankPacketType::NetGamePacketTileChangeRequest,
            4 => ETankPacketType::NetGamePacketSendMapData,
            5 => ETankPacketType::NetGamePacketSendTileUpdateData,
            6 => ETankPacketType::NetGamePacketSendTileUpdateDataMultiple,
            7 => ETankPacketType::NetGamePacketTileActivateRequest,
            8 => ETankPacketType::NetGamePacketTileApplyDamage,
            9 => ETankPacketType::NetGamePacketSendInventoryState,
            10 => ETankPacketType::NetGamePacketItemActivateRequest,
            11 => ETankPacketType::NetGamePacketItemActivateObjectRequest,
            12 => ETankPacketType::NetGamePacketSendTileTreeState,
            13 => ETankPacketType::NetGamePacketModifyItemInventory,
            14 => ETankPacketType::NetGamePacketItemChangeObject,
            15 => ETankPacketType::NetGamePacketSendLock,
            16 => ETankPacketType::NetGamePacketSendItemDatabaseData,
            17 => ETankPacketType::NetGamePacketSendParticleEffect,
            18 => ETankPacketType::NetGamePacketSetIconState,
            19 => ETankPacketType::NetGamePacketItemEffect,
            20 => ETankPacketType::NetGamePacketSetCharacterState,
            21 => ETankPacketType::NetGamePacketPingReply,
            22 => ETankPacketType::NetGamePacketPingRequest,
            23 => ETankPacketType::NetGamePacketGotPunched,
            24 => ETankPacketType::NetGamePacketAppCheckResponse,
            25 => ETankPacketType::NetGamePacketAppIntegrityFail,
            26 => ETankPacketType::NetGamePacketDisconnect,
            27 => ETankPacketType::NetGamePacketBattleJoin,
            28 => ETankPacketType::NetGamePacketBattleEvent,
            29 => ETankPacketType::NetGamePacketUseDoor,
            30 => ETankPacketType::NetGamePacketSendParental,
            31 => ETankPacketType::NetGamePacketGoneFishin,
            32 => ETankPacketType::NetGamePacketSteam,
            33 => ETankPacketType::NetGamePacketPetBattle,
            34 => ETankPacketType::NetGamePacketNpc,
            35 => ETankPacketType::NetGamePacketSpecial,
            36 => ETankPacketType::NetGamePacketSendParticleEffectV2,
            37 => ETankPacketType::NetGamePacketActiveArrowToItem,
            38 => ETankPacketType::NetGamePacketSelectTileIndex,
            39 => ETankPacketType::NetGamePacketSendPlayerTributeData,
            _ => ETankPacketType::NetGamePacketState,
        }
    }
}

/// Every kind is read back from its own tag, and every byte below the count
/// is the tag of the kind it reads as.
pub proof fn lemma_tag_round_trip(kind: ETankPacketType, value: u8)
    ensures
        ETankPacketType::of_tag(kind.tag()) == kind,
        kind.tag() < TANK_PACKET_TYPE_COUNT,
        value < TANK_PACKET_TYPE_COUNT ==> ETankPacketType::of_tag(value).tag() == value,
{
}

} // verus!
