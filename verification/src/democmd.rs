//! The closed set of frame commands of the outer demo stream.

use vstd::prelude::*;

verus! {

/// Command of one demo frame.  Unknown codes fail frame parsing with the
/// numeric code preserved.
#[derive(Debug, PartialEq, Eq, Clone, Copy, Structural)]
pub enum DemoCommand {
    Error,
    Stop,
    FileHeader,
    FileInfo,
    SyncTick,
    SendTables,
    ClassInfo,
    StringTables,
    Packet,
    SignonPacket,
    ConsoleCmd,
    CustomData,
    CustomDataCallbacks,
    UserCmd,
    FullPacket,
    SaveGame,
    SpawnGroups,
    AnimationData,
    AnimationHeader,
    Max,
    IsCompressed,
}

/// The numeric command table: which code stands for which command, and
/// which codes are unknown.
pub open spec fn spec_democmd(value: i32) -> Result<DemoCommand, i32> {
    if value == -1 {
        Ok(DemoCommand::Error)
    } else if value == 0 {
        Ok(DemoCommand::Stop)
    } else if value == 1 {
        Ok(DemoCommand::FileHeader)
    } else if value == 2 {
        Ok(DemoCommand::FileInfo)
    } else if value == 3 {
        Ok(DemoCommand::SyncTick)
    } else if value == 4 {
        Ok(DemoCommand::SendTables)
    } else if value == 5 {
        Ok(DemoCommand::ClassInfo)
    } else if value == 6 {
        Ok(DemoCommand::StringTables)
    } else if value == 7 {
        Ok(DemoCommand::Packet)
    } else if value == 8 {
        Ok(DemoCommand::SignonPacket)
    } else if value == 9 {
        Ok(DemoCommand::ConsoleCmd)
    } else if value == 10 {
        Ok(DemoCommand::CustomData)
    } else if value == 11 {
        Ok(DemoCommand::CustomDataCallbacks)
    } else if value == 12 {
        Ok(DemoCommand::UserCmd)
    } else if value == 13 {
        Ok(DemoCommand::FullPacket)
    } else if value == 14 {
        Ok(DemoCommand::SaveGame)
    } else if value == 15 {
        Ok(DemoCommand::SpawnGroups)
    } else if value == 16 {
        Ok(DemoCommand::AnimationData)
    } else if value == 17 {
        Ok(DemoCommand::AnimationHeader)
    } else if value == 18 {
        Ok(DemoCommand::Max)
    } else if value == 64 {
        Ok(DemoCommand::IsCompressed)
    } else {
        Err(value)
    }
}

impl DemoCommand {
    /// Decodes a numeric frame command; unknown codes come back unchanged
    /// as the error.
    pub fn try_from(value: i32) -> (r: Result<DemoCommand, i32>)
        ensures
            r == spec_democmd(value),
    {
        match value {
            -1 => Ok(Self::Error),
            0 => Ok(Self::Stop),
            1 => Ok(Self::FileHeader),
            2 => Ok(Self::FileInfo),
            3 => Ok(Self::SyncTick),
            4 => Ok(Self::SendTables),
            5 => Ok(Self::ClassInfo),
            6 => Ok(Self::StringTables),
            7 => Ok(Self::Packet),
            8 => Ok(Self::SignonPacket),
            9 => Ok(Self::ConsoleCmd),
            10 => Ok(Self::CustomData),
            11 => Ok(Self::CustomDataCallbacks),
            12 => Ok(Self::UserCmd),
            13 => Ok(Self::FullPacket),
            14 => Ok(Self::SaveGame),
            15 => Ok(Self::SpawnGroups),
            16 => Ok(Self::AnimationData),
            17 => Ok(Self::AnimationHeader),
            18 => Ok(Self::Max),
            64 => Ok(Self::IsCompressed),
            unknown => Err(unknown),
        }
    }
}

} // verus!
