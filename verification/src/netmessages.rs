//! Numeric identifiers of the network messages the packet dispatcher
//! distinguishes.  Identifiers outside this set are skipped by the
//! dispatcher, never fatal.

use vstd::prelude::*;

verus! {

/// Symbolic kind of one in-packet network message.
#[derive(Debug, PartialEq, Eq, Clone, Copy, Structural)]
#[allow(non_camel_case_types)]
pub enum NetmessageType {
    net_SetConVar,
    net_SignonState,
    net_SpawnGroup_Load,
    net_Tick,
    svc_ClassInfo,
    svc_ClearAllStringTables,
    svc_CreateStringTable,
    svc_PacketEntities,
    svc_ServerInfo,
    svc_UpdateStringTable,
    svc_UserCmds,
    svc_VoiceInit,
    GE_Source1LegacyGameEvent,
    GE_Source1LegacyGameEventList,
    GE_SosStartSoundEvent,
    GE_SosStopSoundEvent,
    UM_SayText2,
    UM_TextMsg,
    CS_GE_FireBullets,
    CS_GE_PlayerAnimationEvent,
    CS_GE_RadioIconEvent,
    CS_UM_EndOfMatchAllPlayersData,
    CS_UM_MatchEndConditions,
    CS_UM_RadioText,
    CS_UM_ServerRankRevealAll,
    CS_UM_ServerRankUpdate,
    CS_UM_VoteFailed,
    CS_UM_WeaponSound,
    CS_UM_XpUpdate,
    TE_EffectDispatch,
    TE_Explosion,
    TE_PhysicsProp,
    TE_WorldDecal,
}

/// The numeric message table.
pub open spec fn spec_netmessage(value: i32) -> Result<NetmessageType, i32> {
    if value == 4 {
        Ok(NetmessageType::net_Tick)
    } else if value == 6 {
        Ok(NetmessageType::net_SetConVar)
    } else if value == 7 {
        Ok(NetmessageType::net_SignonState)
    } else if value == 8 {
        Ok(NetmessageType::net_SpawnGroup_Load)
    } else if value == 40 {
        Ok(NetmessageType::svc_ServerInfo)
    } else if value == 42 {
        Ok(NetmessageType::svc_ClassInfo)
    } else if value == 44 {
        Ok(NetmessageType::svc_CreateStringTable)
    } else if value == 45 {
        Ok(NetmessageType::svc_UpdateStringTable)
    } else if value == 46 {
        Ok(NetmessageType::svc_VoiceInit)
    } else if value == 51 {
        Ok(NetmessageType::svc_ClearAllStringTables)
    } else if value == 55 {
        Ok(NetmessageType::svc_PacketEntities)
    } else if value == 76 {
        Ok(NetmessageType::svc_UserCmds)
    } else if value == 118 {
        Ok(NetmessageType::UM_SayText2)
    } else if value == 124 {
        Ok(NetmessageType::UM_TextMsg)
    } else if value == 205 {
        Ok(NetmessageType::GE_Source1LegacyGameEventList)
    } else if value == 207 {
        Ok(NetmessageType::GE_Source1LegacyGameEvent)
    } else if value == 208 {
        Ok(NetmessageType::GE_SosStartSoundEvent)
    } else if value == 209 {
        Ok(NetmessageType::GE_SosStopSoundEvent)
    } else if value == 322 {
        Ok(NetmessageType::CS_UM_RadioText)
    } else if value == 334 {
        Ok(NetmessageType::CS_UM_MatchEndConditions)
    } else if value == 348 {
        Ok(NetmessageType::CS_UM_VoteFailed)
    } else if value == 350 {
        Ok(NetmessageType::CS_UM_ServerRankRevealAll)
    } else if value == 352 {
        Ok(NetmessageType::CS_UM_ServerRankUpdate)
    } else if value == 365 {
        Ok(NetmessageType::CS_UM_XpUpdate)
    } else if value == 369 {
        Ok(NetmessageType::CS_UM_WeaponSound)
    } else if value == 375 {
        Ok(NetmessageType::CS_UM_EndOfMatchAllPlayersData)
    } else if value == 400 {
        Ok(NetmessageType::TE_EffectDispatch)
    } else if value == 407 {
        Ok(NetmessageType::TE_Explosion)
    } else if value == 408 {
        Ok(NetmessageType::TE_PhysicsProp)
    } else if value == 411 {
        Ok(NetmessageType::TE_WorldDecal)
    } else if value == 450 {
        Ok(NetmessageType::CS_GE_RadioIconEvent)
    } else if value == 451 {
        Ok(NetmessageType::CS_GE_PlayerAnimationEvent)
    } else if value == 452 {
        Ok(NetmessageType::CS_GE_FireBullets)
    } else {
        Err(value)
    }
}

impl NetmessageType {
    /// Decodes a numeric message identifier; unknown identifiers come
    /// back unchanged as the error, and callers skip such messages.
    pub fn try_from(value: i32) -> (r: Result<NetmessageType, i32>)
        ensures
            r == spec_netmessage(value),
    {
        match value {
            4 => Ok(NetmessageType::net_Tick),
            6 => Ok(NetmessageType::net_SetConVar),
            7 => Ok(NetmessageType::net_SignonState),
            8 => Ok(NetmessageType::net_SpawnGroup_Load),
            40 => Ok(NetmessageType::svc_ServerInfo),
            42 => Ok(NetmessageType::svc_ClassInfo),
            44 => Ok(NetmessageType::svc_CreateStringTable),
            45 => Ok(NetmessageType::svc_UpdateStringTable),
            46 => Ok(NetmessageType::svc_VoiceInit),
            51 => Ok(NetmessageType::svc_ClearAllStringTables),
            55 => Ok(NetmessageType::svc_PacketEntities),
            76 => Ok(NetmessageType::svc_UserCmds),
            118 => Ok(NetmessageType::UM_SayText2),
            124 => Ok(NetmessageType::UM_TextMsg),
            205 => Ok(NetmessageType::GE_Source1LegacyGameEventList),
            207 => Ok(NetmessageType::GE_Source1LegacyGameEvent),
            208 => Ok(NetmessageType::GE_SosStartSoundEvent),
            209 => Ok(NetmessageType::GE_SosStopSoundEvent),
            322 => Ok(NetmessageType::CS_UM_RadioText),
            334 => Ok(NetmessageType::CS_UM_MatchEndConditions),
            348 => Ok(NetmessageType::CS_UM_VoteFailed),
            350 => Ok(NetmessageType::CS_UM_ServerRankRevealAll),
            352 => Ok(NetmessageType::CS_UM_ServerRankUpdate),
            365 => Ok(NetmessageType::CS_UM_XpUpdate),
            369 => Ok(NetmessageType::CS_UM_WeaponSound),
            375 => Ok(NetmessageType::CS_UM_EndOfMatchAllPlayersData),
            400 => Ok(NetmessageType::TE_EffectDispatch),
            407 => Ok(NetmessageType::TE_Explosion),
            408 => Ok(NetmessageType::TE_PhysicsProp),
            411 => Ok(NetmessageType::TE_WorldDecal),
            450 => Ok(NetmessageType::CS_GE_RadioIconEvent),
            451 => Ok(NetmessageType::CS_GE_PlayerAnimationEvent),
            452 => Ok(NetmessageType::CS_GE_FireBullets),
            unknown => Err(unknown),
        }
    }
}

} // verus!
