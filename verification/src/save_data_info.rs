//! Variable and shape enumerations of the save format, and the slot address
//! resolver that maps a slot ordinal to its fixed base offset in the file.

use vstd::prelude::*;

verus! {

/// A logical variable of one save slot. The set is closed: every variant has
/// exactly one descriptor per slot, produced by
/// [`crate::save_file_parser::get_save_file_variable`].
#[derive(Debug, Clone, Copy, PartialEq, Eq, Structural)]
pub enum SaveDataVar {
    FileExists,
    SaveDate,
    PlayTimeHours,
    PlayTimeMinutes,
    PlayTimeSeconds,
    StageFlagList,
    ScoreList,
    TimeTrialList,
    TimeTrialCoopList,
    FriendsFlagList,
    FriendsTalkList,
    StageMazeFlagList,
    LastStageId,
    LastGameModeId,
    Lives,
    MazeFlagList,
    MazesScoreList,
    FruitsGetNum,
    CapsuleGetNum,
    MedalGetNum,
    BombDotKillNum,
    DotKillNum,
    RevRollKillNum,
    ButtBounceKillNum,
    GhostKillNum,
    MagicKeyUnlocked,
    TrueEnding,
    MarathonUnlocked,
    MarathonHighScore,
    MarathonClear,
    LastGISaveArea,
    LoadInitScene,
    DLCApplyFlag,
    JukeBoxBGM,
    JukeBoxMode,
    JukeBoxLoop,
    JukeBoxOrder,
    JukeBoxFlag,
    JukeBoxUnlockFlagList,
    MedalNum,
    StageCherryFlag,
    StageStrawberryFlag,
    StageOrangeFlag,
    StageAppleFlag,
    StageMelonFlag,
    StageCherryNum,
    StageStrawberryNum,
    StageOrangeNum,
    StageAppleNum,
    StageMelonNum,
    VillageCherryFlag,
    VillageStrawberryFlag,
    VillageOrangeFlag,
    VillageAppleFlag,
    VillageMelonFlag,
    VillageCherryGetNum,
    VillageStrawberryGetNum,
    VillageOrangeGetNum,
    VillageAppleGetNum,
    VillageMelonGetNum,
    VillageGFFlag,
    CameraMode,
    CameraSpeedY,
    CameraSpeedX,
    CameraControlY,
    CameraControlX,
    CameraAssistFlag,
    CameraYAutoRotateFlag,
    SwimControlY,
    MissionRewardFlag,
    PlayerSkinId,
    PlayerSkinId2,
    FigureInfo,
    FigureDisplayInfo,
    GashaFlag,
    GashaLotteryNum,
    FlipKillNum,
    SupperHipStunNum,
    SuperDolphinKillNum,
    UnlockStageSelectFlag,
    GameLevel,
    EnterPast,
    OriginalFlag,
    OriginalStageNum,
    OriginalHighScore,
    PacManiaStageNum,
    PacmaniaHighScore,
    PacAttackLevelNum,
    PacAttackHighScore,
    HelpFlag,
    DroneReticleSpeed,
    DroneReticleColor,
    DroneVacuumRangeFlag,
    EarlyBonusFigureFlag,
    KeyConfigP1,
    KeyConfigP2,
    GashaDLCFlag,
    FigureInfoDLC,
    EnterSonic,
    VillageSonicFlag,
    LoadInitSceneCollab,
    LoadInitSceneKind,
    LastStageIdCollab,
    LastStageIdKindCollab,
    PlayerSkinIdCollab,
    FigureDisplayInfoCollab,
    JukeBoxBGMCollab,
    JukeBoxModeCollab,
}

/// The binary shape of a variable: how many bytes it occupies and how they
/// are interpreted. Array shapes store their element count.
#[derive(Debug, Clone, Copy, PartialEq, Eq, Structural)]
pub enum SaveDataIntType {
    /// One byte, expected to hold 0 or 1.
    Bool,
    /// Four bytes, little-endian, unsigned.
    U32,
    /// Four bytes, little-endian, signed.
    I32,
    /// Contiguous 4-byte little-endian signed integers; stores the count.
    Arrayi32(u32),
    /// Contiguous single bytes; stores the count.
    Arrayu8(u32),
    /// Fixed-length UTF-8 text; stores the byte length.
    ArrayText(u32),
    /// Contiguous 8-byte records (4-byte signed id, 4-byte angle);
    /// stores the record count.
    SFigureDisplayInfoArray(u32),
}

/// The resolved descriptor of one variable in one slot: its identifier,
/// display and in-code names, the slot's base offset, the variable's offset
/// relative to that base, and its shape.
#[derive(Debug, Clone)]
pub struct SaveFileData {
    pub var: SaveDataVar,
    pub variable_name: String,
    pub variable_name_simple: String,
    pub slot_base_add: u32,
    pub offset: u32,
    pub int_type: SaveDataIntType,
}

/// The fixed base offset of each save slot. Slots outside 1..=4 fall back to
/// slot 1's base.
pub open spec fn spec_slot_base(slot: u8) -> u32 {
    match slot {
        1u8 => 0x298u32,
        2u8 => 0x7BC8u32,
        3u8 => 0xF4F8u32,
        4u8 => 0x16E28u32,
        _ => 0x298u32,
    }
}

/// Maps a slot ordinal in 1..=4 to its fixed base byte offset in the file.
/// An out-of-domain slot degrades to slot 1's base rather than producing an
/// invalid offset for later byte arithmetic.
pub fn get_save_slot_base_add(slot: u8) -> (base: u32)
    ensures
        base == spec_slot_base(slot),
{
    match slot {
        1 => 0x298,
        2 => 0x7BC8,
        3 => 0xF4F8,
        4 => 0x16E28,
        _ => 0x298,
    }
}

} // verus!
