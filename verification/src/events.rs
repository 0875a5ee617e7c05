//! The typed event registry: which payload schema each `(event code,
//! game mode)` pair decodes under, and the decode and encode entry
//! points that enforce it.
//!
//! The table is a closed value: [`spec_entry`] gives each event code at
//! most one payload kind together with the set of modes the code is
//! legal in, so one code can never resolve to two different payload
//! shapes ([`lemma_registry_unique`]). A pair with no entry is a
//! definite, reportable condition ([`DecodeError::UnregisteredEvent`]),
//! never a guessed type.

use vstd::prelude::*;

use crate::error::{DecodeError, EncodeError};
use crate::events::ingame::{
    CosmeticAction, CurrentSurrenderVotes, DestroyCubeEffectOnly, DestroyCubeNoEffect,
    DestroyCubesFull, FireMiss, GameEnd, GameLoseWin, GameStart, HealAllyCubes, Kill,
    LockOnNotifier, MapPing, MultiPlayerInputChanged, MultipleFireMisses,
    NetworkStunnedMachineEffect, PlayerId, RequestPing, RespawnTime, SelectWeapon,
    SetFinalGameScore, SpawnEmpLocator, SurrenderDeclined, SurrenderTimes, Taunt,
    TeamBaseBoolean, TeamBaseState, TeleportActivateEffect, UpdateGameStats,
    UpdateVotingAfterBattle, WeaponFireEffect,
};
use crate::events::loading::{LoadingProgress, PlayerIDs, PlayerIDsAndNames};
use crate::events::sync::{
    EqualizerNotification, FusionShieldState, GetCapturePoints, GetEqualizer, GetTeamBase,
    InitialiseGameStats, SpawnPoint, SyncMachineCubes, UpdateGameModeSettings,
    UpdateTeamDeathMatch,
};
use crate::types::{FloatBits, HitCubeInfo, StringCode, StringCodeV, TargetType};
use crate::wire::{
    counted_ok_u16, dec_counted_u16, decode_counted_u16, encode_counted_u16, lemma_round_trip,
    lemma_dec_wire_counted_u16, lemma_subrange_split, wire_counted_u16, Codec,
};

use crate::events::ingame::{CurrentSurrenderVotesV, DestroyCubeNoEffectV, DestroyCubesFullV, HealAllyCubesV, MultiPlayerInputChangedV, MultipleFireMissesV, TauntV, UpdateVotingAfterBattleV};
use crate::events::loading::{LoadingProgressV, PlayerIDsAndNamesV, PlayerIDsV};
use crate::events::sync::{GetCapturePointsV, InitialiseGameStatsV, SyncMachineCubesV, UpdateTeamDeathMatchV};

pub mod ingame;
pub mod loading;
pub mod sync;

verus! {


/// A server game-time announcement, in seconds, carried bit-for-bit.
#[derive(Debug, Default, Clone, Copy, PartialEq)]
#[verifier::ext_equal]
pub struct GameTime(pub FloatBits);

impl DeepView for GameTime {
    type V = GameTime;

    open spec fn deep_view(&self) -> GameTime {
        *self
    }
}

impl Codec for GameTime {
    open spec fn enc_ok(v: GameTime) -> bool {
        true
    }

    open spec fn wire(v: GameTime) -> Seq<u8> {
        FloatBits::wire(v.0)
    }

    open spec fn dec(b: Seq<u8>, pos: int) -> Result<(GameTime, int), DecodeError> {
        match FloatBits::dec(b, pos) {
            Ok((f0, p1)) => {
            Ok((GameTime(f0), p1))
            },
            Err(e) => Err(e),
        }
    }

    proof fn lemma_dec_wire(v: GameTime, b: Seq<u8>, pos: int) {
        let w0 = FloatBits::wire(v.0);
        let p0 = pos;
        FloatBits::lemma_dec_wire(v.0, b, p0);
        assert(GameTime(v.0) =~= v);
    }

    fn decode(b: &[u8], pos: usize) -> (r: Result<(GameTime, usize), DecodeError>) {
        let (f0, at1) = match FloatBits::decode(b, pos) {
            Ok(x) => x,
            Err(e) => return Err(e),
        };
        Ok((GameTime(f0), at1))
    }

    fn encode(&self, out: &mut Vec<u8>) -> (r: Result<(), EncodeError>) {
        match self.0.encode(out) {
            Ok(()) => (),
            Err(e) => return Err(e),
        };
        proof {
            assert(out@ =~= old(out)@ + Self::wire(self.deep_view()));
        }
        Ok(())
    }
}
/// Cubes healed on one machine, and by what.
#[derive(Debug, Default, Clone, PartialEq)]
#[verifier::ext_equal]
pub struct HealedCubes {
    pub healed_machine: u16,
    pub type_performing_healing: TargetType,
    pub target_type: TargetType,
    pub hit_cubes: Vec<HitCubeInfo>,
}

/// Model of a [`HealedCubes`] value: sequences stand for the vectors.
#[verifier::ext_equal]
pub struct HealedCubesV {
    pub healed_machine: u16,
    pub type_performing_healing: TargetType,
    pub target_type: TargetType,
    pub hit_cubes: Seq<HitCubeInfo>,
}

impl DeepView for HealedCubes {
    type V = HealedCubesV;

    open spec fn deep_view(&self) -> HealedCubesV {
        HealedCubesV {
            healed_machine: self.healed_machine,
            type_performing_healing: self.type_performing_healing,
            target_type: self.target_type,
            hit_cubes: self.hit_cubes.deep_view(),
        }
    }
}

impl Codec for HealedCubes {
    open spec fn enc_ok(v: HealedCubesV) -> bool {
        counted_ok_u16::<HitCubeInfo>(v.hit_cubes)
    }

    open spec fn wire(v: HealedCubesV) -> Seq<u8> {
        u16::wire(v.healed_machine) + TargetType::wire(v.type_performing_healing) + TargetType::wire(v.target_type) + wire_counted_u16::<HitCubeInfo>(v.hit_cubes)
    }

    open spec fn dec(b: Seq<u8>, pos: int) -> Result<(HealedCubesV, int), DecodeError> {
        match u16::dec(b, pos) {
            Ok((healed_machine, p1)) => {
            match TargetType::dec(b, p1) {
                Ok((type_performing_healing, p2)) => {
                match TargetType::dec(b, p2) {
                    Ok((target_type, p3)) => {
                    match dec_counted_u16::<HitCubeInfo>(b, p3) {
                        Ok((hit_cubes, p4)) => {
                        Ok((HealedCubesV { healed_machine, type_performing_healing, target_type, hit_cubes }, p4))
                        },
                        Err(e) => Err(e),
                    }
                    },
                    Err(e) => Err(e),
                }
                },
                Err(e) => Err(e),
            }
            },
            Err(e) => Err(e),
        }
    }

    proof fn lemma_dec_wire(v: HealedCubesV, b: Seq<u8>, pos: int) {
        let w0 = u16::wire(v.healed_machine);
        let w1 = TargetType::wire(v.type_performing_healing);
        let w2 = TargetType::wire(v.target_type);
        let w3 = wire_counted_u16::<HitCubeInfo>(v.hit_cubes);
        assert(Self::wire(v) =~= w0 + (w1 + (w2 + (w3))));
        let p0 = pos;
        lemma_subrange_split(b, p0, w0, w1 + (w2 + (w3)));
        u16::lemma_dec_wire(v.healed_machine, b, p0);
        let p1 = p0 + w0.len();
        lemma_subrange_split(b, p1, w1, w2 + (w3));
        TargetType::lemma_dec_wire(v.type_performing_healing, b, p1);
        let p2 = p1 + w1.len();
        lemma_subrange_split(b, p2, w2, w3);
        TargetType::lemma_dec_wire(v.target_type, b, p2);
        let p3 = p2 + w2.len();
        lemma_dec_wire_counted_u16::<HitCubeInfo>(v.hit_cubes, b, p3);
        assert((HealedCubesV { healed_machine: v.healed_machine, type_performing_healing: v.type_performing_healing, target_type: v.target_type, hit_cubes: v.hit_cubes }) =~= v);
    }

    fn decode(b: &[u8], pos: usize) -> (r: Result<(HealedCubes, usize), DecodeError>) {
        let (healed_machine, at1) = match u16::decode(b, pos) {
            Ok(x) => x,
            Err(e) => return Err(e),
        };
        let (type_performing_healing, at2) = match TargetType::decode(b, at1) {
            Ok(x) => x,
            Err(e) => return Err(e),
        };
        let (target_type, at3) = match TargetType::decode(b, at2) {
            Ok(x) => x,
            Err(e) => return Err(e),
        };
        let (hit_cubes, at4) = match decode_counted_u16::<HitCubeInfo>(b, at3) {
            Ok(x) => x,
            Err(e) => return Err(e),
        };
        Ok((HealedCubes { healed_machine, type_performing_healing, target_type, hit_cubes }, at4))
    }

    fn encode(&self, out: &mut Vec<u8>) -> (r: Result<(), EncodeError>) {
        match self.healed_machine.encode(out) {
            Ok(()) => (),
            Err(e) => return Err(e),
        };
        match self.type_performing_healing.encode(out) {
            Ok(()) => (),
            Err(e) => return Err(e),
        };
        match self.target_type.encode(out) {
            Ok(()) => (),
            Err(e) => return Err(e),
        };
        match encode_counted_u16::<HitCubeInfo>(&self.hit_cubes, out) {
            Ok(()) => (),
            Err(e) => return Err(e),
        };
        proof {
            assert(out@ =~= old(out)@ + Self::wire(self.deep_view()));
        }
        Ok(())
    }
}
/// An event whose code is its whole message: it carries no payload
/// bytes at all.
#[derive(Debug, Default, Clone, Copy, PartialEq)]
#[verifier::ext_equal]
pub struct CommandOnly;

impl DeepView for CommandOnly {
    type V = CommandOnly;

    open spec fn deep_view(&self) -> CommandOnly {
        *self
    }
}

impl Codec for CommandOnly {
    open spec fn enc_ok(v: CommandOnly) -> bool {
        true
    }

    open spec fn wire(v: CommandOnly) -> Seq<u8> {
        Seq::empty()
    }

    open spec fn dec(b: Seq<u8>, pos: int) -> Result<(CommandOnly, int), DecodeError> {
        Ok((CommandOnly, pos))
    }

    proof fn lemma_dec_wire(v: CommandOnly, b: Seq<u8>, pos: int) {
    }

    fn decode(b: &[u8], pos: usize) -> (r: Result<(CommandOnly, usize), DecodeError>) {
        Ok((CommandOnly, pos))
    }

    fn encode(&self, out: &mut Vec<u8>) -> (r: Result<(), EncodeError>) {
        proof {
            assert(out@ =~= old(out)@ + Self::wire(self.deep_view()));
        }
        Ok(())
    }
}

/// The ruleset context an event stream runs under. An event is legal
/// only in the modes its registration names.
#[derive(Debug, Clone, Copy, PartialEq, Eq, Hash)]
pub enum GameMode {
    BattleArena,
    TeamDeathMatch,
    Elimination,
    Pit,
}

/// The set of modes one registration covers.
#[derive(Debug, Clone, Copy, PartialEq, Eq)]
#[verifier::ext_equal]
pub struct ModeSet {
    pub battle_arena: bool,
    pub team_death_match: bool,
    pub elimination: bool,
    pub pit: bool,
}

impl ModeSet {
    /// Whether this set covers the given mode.
    pub open spec fn spec_has(self, mode: GameMode) -> bool {
        match mode {
            GameMode::BattleArena => self.battle_arena,
            GameMode::TeamDeathMatch => self.team_death_match,
            GameMode::Elimination => self.elimination,
            GameMode::Pit => self.pit,
        }
    }

    /// Whether this set covers the given mode.
    pub fn has(self, mode: GameMode) -> (r: bool)
        ensures
            r == self.spec_has(mode),
    {
        match mode {
            GameMode::BattleArena => self.battle_arena,
            GameMode::TeamDeathMatch => self.team_death_match,
            GameMode::Elimination => self.elimination,
            GameMode::Pit => self.pit,
        }
    }
}


/// A handle naming one payload schema of the catalog.
#[derive(Debug, Clone, Copy, PartialEq, Eq, Hash)]
pub enum PayloadKind {
    SpawnPoint,
    GetTeamBase,
    GetCapturePoints,
    GetEqualizer,
    PlayerIDsAndNames,
    SyncMachineCubes,
    GameStart,
    MultiPlayerInputChanged,
    PlayerId,
    WeaponFireEffect,
    FireMiss,
    MultipleFireMisses,
    GameTime,
    GameEnd,
    GameLoseWin,
    RespawnTime,
    TeamBaseState,
    RequestPing,
    StringCode,
    TeamBaseBoolean,
    Kill,
    FusionShieldState,
    InitialiseGameStats,
    UpdateGameStats,
    MapPing,
    HealedCubes,
    CurrentSurrenderVotes,
    SurrenderDeclined,
    SurrenderTimes,
    SetFinalGameScore,
    LockOnNotifier,
    TeleportActivateEffect,
    SpawnEmpLocator,
    NetworkStunnedMachineEffect,
    SelectWeapon,
    PlayerIDs,
    HealAllyCubes,
    UpdateGameModeSettings,
    UpdateTeamDeathMatch,
    LoadingProgress,
    EqualizerNotification,
    Taunt,
    CommandOnly,
    DestroyCubeEffectOnly,
    DestroyCubeNoEffect,
    DestroyCubesFull,
    UpdateVotingAfterBattle,
    CosmeticAction,
}

/// One decoded event payload, tagged by its schema.
#[derive(Debug, Clone, PartialEq)]
pub enum Payload {
    SpawnPoint(SpawnPoint),
    GetTeamBase(GetTeamBase),
    GetCapturePoints(GetCapturePoints),
    GetEqualizer(GetEqualizer),
    PlayerIDsAndNames(PlayerIDsAndNames),
    SyncMachineCubes(SyncMachineCubes),
    GameStart(GameStart),
    MultiPlayerInputChanged(MultiPlayerInputChanged),
    PlayerId(PlayerId),
    WeaponFireEffect(WeaponFireEffect),
    FireMiss(FireMiss),
    MultipleFireMisses(MultipleFireMisses),
    GameTime(GameTime),
    GameEnd(GameEnd),
    GameLoseWin(GameLoseWin),
    RespawnTime(RespawnTime),
    TeamBaseState(TeamBaseState),
    RequestPing(RequestPing),
    StringCode(StringCode),
    TeamBaseBoolean(TeamBaseBoolean),
    Kill(Kill),
    FusionShieldState(FusionShieldState),
    InitialiseGameStats(InitialiseGameStats),
    UpdateGameStats(UpdateGameStats),
    MapPing(MapPing),
    HealedCubes(HealedCubes),
    CurrentSurrenderVotes(CurrentSurrenderVotes),
    SurrenderDeclined(SurrenderDeclined),
    SurrenderTimes(SurrenderTimes),
    SetFinalGameScore(SetFinalGameScore),
    LockOnNotifier(LockOnNotifier),
    TeleportActivateEffect(TeleportActivateEffect),
    SpawnEmpLocator(SpawnEmpLocator),
    NetworkStunnedMachineEffect(NetworkStunnedMachineEffect),
    SelectWeapon(SelectWeapon),
    PlayerIDs(PlayerIDs),
    HealAllyCubes(HealAllyCubes),
    UpdateGameModeSettings(UpdateGameModeSettings),
    UpdateTeamDeathMatch(UpdateTeamDeathMatch),
    LoadingProgress(LoadingProgress),
    EqualizerNotification(EqualizerNotification),
    Taunt(Taunt),
    CommandOnly(CommandOnly),
    DestroyCubeEffectOnly(DestroyCubeEffectOnly),
    DestroyCubeNoEffect(DestroyCubeNoEffect),
    DestroyCubesFull(DestroyCubesFull),
    UpdateVotingAfterBattle(UpdateVotingAfterBattle),
    CosmeticAction(CosmeticAction),
}

/// Model of a [`Payload`] value.
#[verifier::ext_equal]
pub enum PayloadV {
    SpawnPoint(SpawnPoint),
    GetTeamBase(GetTeamBase),
    GetCapturePoints(GetCapturePointsV),
    GetEqualizer(GetEqualizer),
    PlayerIDsAndNames(PlayerIDsAndNamesV),
    SyncMachineCubes(SyncMachineCubesV),
    GameStart(GameStart),
    MultiPlayerInputChanged(MultiPlayerInputChangedV),
    PlayerId(PlayerId),
    WeaponFireEffect(WeaponFireEffect),
    FireMiss(FireMiss),
    MultipleFireMisses(MultipleFireMissesV),
    GameTime(GameTime),
    GameEnd(GameEnd),
    GameLoseWin(GameLoseWin),
    RespawnTime(RespawnTime),
    TeamBaseState(TeamBaseState),
    RequestPing(RequestPing),
    StringCode(StringCodeV),
    TeamBaseBoolean(TeamBaseBoolean),
    Kill(Kill),
    FusionShieldState(FusionShieldState),
    InitialiseGameStats(InitialiseGameStatsV),
    UpdateGameStats(UpdateGameStats),
    MapPing(MapPing),
    HealedCubes(HealedCubesV),
    CurrentSurrenderVotes(CurrentSurrenderVotesV),
    SurrenderDeclined(SurrenderDeclined),
    SurrenderTimes(SurrenderTimes),
    SetFinalGameScore(SetFinalGameScore),
    LockOnNotifier(LockOnNotifier),
    TeleportActivateEffect(TeleportActivateEffect),
    SpawnEmpLocator(SpawnEmpLocator),
    NetworkStunnedMachineEffect(NetworkStunnedMachineEffect),
    SelectWeapon(SelectWeapon),
    PlayerIDs(PlayerIDsV),
    HealAllyCubes(HealAllyCubesV),
    UpdateGameModeSettings(UpdateGameModeSettings),
    UpdateTeamDeathMatch(UpdateTeamDeathMatchV),
    LoadingProgress(LoadingProgressV),
    EqualizerNotification(EqualizerNotification),
    Taunt(TauntV),
    CommandOnly(CommandOnly),
    DestroyCubeEffectOnly(DestroyCubeEffectOnly),
    DestroyCubeNoEffect(DestroyCubeNoEffectV),
    DestroyCubesFull(DestroyCubesFullV),
    UpdateVotingAfterBattle(UpdateVotingAfterBattleV),
    CosmeticAction(CosmeticAction),
}

impl DeepView for Payload {
    type V = PayloadV;

    open spec fn deep_view(&self) -> PayloadV {
        match self {
            Payload::SpawnPoint(v) => PayloadV::SpawnPoint(v.deep_view()),
            Payload::GetTeamBase(v) => PayloadV::GetTeamBase(v.deep_view()),
            Payload::GetCapturePoints(v) => PayloadV::GetCapturePoints(v.deep_view()),
            Payload::GetEqualizer(v) => PayloadV::GetEqualizer(v.deep_view()),
            Payload::PlayerIDsAndNames(v) => PayloadV::PlayerIDsAndNames(v.deep_view()),
            Payload::SyncMachineCubes(v) => PayloadV::SyncMachineCubes(v.deep_view()),
            Payload::GameStart(v) => PayloadV::GameStart(v.deep_view()),
            Payload::MultiPlayerInputChanged(v) => PayloadV::MultiPlayerInputChanged(v.deep_view()),
            Payload::PlayerId(v) => PayloadV::PlayerId(v.deep_view()),
            Payload::WeaponFireEffect(v) => PayloadV::WeaponFireEffect(v.deep_view()),
            Payload::FireMiss(v) => PayloadV::FireMiss(v.deep_view()),
            Payload::MultipleFireMisses(v) => PayloadV::MultipleFireMisses(v.deep_view()),
            Payload::GameTime(v) => PayloadV::GameTime(v.deep_view()),
            Payload::GameEnd(v) => PayloadV::GameEnd(v.deep_view()),
            Payload::GameLoseWin(v) => PayloadV::GameLoseWin(v.deep_view()),
            Payload::RespawnTime(v) => PayloadV::RespawnTime(v.deep_view()),
            Payload::TeamBaseState(v) => PayloadV::TeamBaseState(v.deep_view()),
            Payload::RequestPing(v) => PayloadV::RequestPing(v.deep_view()),
            Payload::StringCode(v) => PayloadV::StringCode(v.deep_view()),
            Payload::TeamBaseBoolean(v) => PayloadV::TeamBaseBoolean(v.deep_view()),
            Payload::Kill(v) => PayloadV::Kill(v.deep_view()),
            Payload::FusionShieldState(v) => PayloadV::FusionShieldState(v.deep_view()),
            Payload::InitialiseGameStats(v) => PayloadV::InitialiseGameStats(v.deep_view()),
            Payload::UpdateGameStats(v) => PayloadV::UpdateGameStats(v.deep_view()),
            Payload::MapPing(v) => PayloadV::MapPing(v.deep_view()),
            Payload::HealedCubes(v) => PayloadV::HealedCubes(v.deep_view()),
            Payload::CurrentSurrenderVotes(v) => PayloadV::CurrentSurrenderVotes(v.deep_view()),
            Payload::SurrenderDeclined(v) => PayloadV::SurrenderDeclined(v.deep_view()),
            Payload::SurrenderTimes(v) => PayloadV::SurrenderTimes(v.deep_view()),
            Payload::SetFinalGameScore(v) => PayloadV::SetFinalGameScore(v.deep_view()),
            Payload::LockOnNotifier(v) => PayloadV::LockOnNotifier(v.deep_view()),
            Payload::TeleportActivateEffect(v) => PayloadV::TeleportActivateEffect(v.deep_view()),
            Payload::SpawnEmpLocator(v) => PayloadV::SpawnEmpLocator(v.deep_view()),
            Payload::NetworkStunnedMachineEffect(v) => PayloadV::NetworkStunnedMachineEffect(v.deep_view()),
            Payload::SelectWeapon(v) => PayloadV::SelectWeapon(v.deep_view()),
            Payload::PlayerIDs(v) => PayloadV::PlayerIDs(v.deep_view()),
            Payload::HealAllyCubes(v) => PayloadV::HealAllyCubes(v.deep_view()),
            Payload::UpdateGameModeSettings(v) => PayloadV::UpdateGameModeSettings(v.deep_view()),
            Payload::UpdateTeamDeathMatch(v) => PayloadV::UpdateTeamDeathMatch(v.deep_view()),
            Payload::LoadingProgress(v) => PayloadV::LoadingProgress(v.deep_view()),
            Payload::EqualizerNotification(v) => PayloadV::EqualizerNotification(v.deep_view()),
            Payload::Taunt(v) => PayloadV::Taunt(v.deep_view()),
            Payload::CommandOnly(v) => PayloadV::CommandOnly(v.deep_view()),
            Payload::DestroyCubeEffectOnly(v) => PayloadV::DestroyCubeEffectOnly(v.deep_view()),
            Payload::DestroyCubeNoEffect(v) => PayloadV::DestroyCubeNoEffect(v.deep_view()),
            Payload::DestroyCubesFull(v) => PayloadV::DestroyCubesFull(v.deep_view()),
            Payload::UpdateVotingAfterBattle(v) => PayloadV::UpdateVotingAfterBattle(v.deep_view()),
            Payload::CosmeticAction(v) => PayloadV::CosmeticAction(v.deep_view()),
        }
    }
}

impl Payload {
    /// The schema this payload was decoded under.
    pub open spec fn spec_kind(self) -> PayloadKind {
        match self {
            Payload::SpawnPoint(_) => PayloadKind::SpawnPoint,
            Payload::GetTeamBase(_) => PayloadKind::GetTeamBase,
            Payload::GetCapturePoints(_) => PayloadKind::GetCapturePoints,
            Payload::GetEqualizer(_) => PayloadKind::GetEqualizer,
            Payload::PlayerIDsAndNames(_) => PayloadKind::PlayerIDsAndNames,
            Payload::SyncMachineCubes(_) => PayloadKind::SyncMachineCubes,
            Payload::GameStart(_) => PayloadKind::GameStart,
            Payload::MultiPlayerInputChanged(_) => PayloadKind::MultiPlayerInputChanged,
            Payload::PlayerId(_) => PayloadKind::PlayerId,
            Payload::WeaponFireEffect(_) => PayloadKind::WeaponFireEffect,
            Payload::FireMiss(_) => PayloadKind::FireMiss,
            Payload::MultipleFireMisses(_) => PayloadKind::MultipleFireMisses,
            Payload::GameTime(_) => PayloadKind::GameTime,
            Payload::GameEnd(_) => PayloadKind::GameEnd,
            Payload::GameLoseWin(_) => PayloadKind::GameLoseWin,
            Payload::RespawnTime(_) => PayloadKind::RespawnTime,
            Payload::TeamBaseState(_) => PayloadKind::TeamBaseState,
            Payload::RequestPing(_) => PayloadKind::RequestPing,
            Payload::StringCode(_) => PayloadKind::StringCode,
            Payload::TeamBaseBoolean(_) => PayloadKind::TeamBaseBoolean,
            Payload::Kill(_) => PayloadKind::Kill,
            Payload::FusionShieldState(_) => PayloadKind::FusionShieldState,
            Payload::InitialiseGameStats(_) => PayloadKind::InitialiseGameStats,
            Payload::UpdateGameStats(_) => PayloadKind::UpdateGameStats,
            Payload::MapPing(_) => PayloadKind::MapPing,
            Payload::HealedCubes(_) => PayloadKind::HealedCubes,
            Payload::CurrentSurrenderVotes(_) => PayloadKind::CurrentSurrenderVotes,
            Payload::SurrenderDeclined(_) => PayloadKind::SurrenderDeclined,
            Payload::SurrenderTimes(_) => PayloadKind::SurrenderTimes,
            Payload::SetFinalGameScore(_) => PayloadKind::SetFinalGameScore,
            Payload::LockOnNotifier(_) => PayloadKind::LockOnNotifier,
            Payload::TeleportActivateEffect(_) => PayloadKind::TeleportActivateEffect,
            Payload::SpawnEmpLocator(_) => PayloadKind::SpawnEmpLocator,
            Payload::NetworkStunnedMachineEffect(_) => PayloadKind::NetworkStunnedMachineEffect,
            Payload::SelectWeapon(_) => PayloadKind::SelectWeapon,
            Payload::PlayerIDs(_) => PayloadKind::PlayerIDs,
            Payload::HealAllyCubes(_) => PayloadKind::HealAllyCubes,
            Payload::UpdateGameModeSettings(_) => PayloadKind::UpdateGameModeSettings,
            Payload::UpdateTeamDeathMatch(_) => PayloadKind::UpdateTeamDeathMatch,
            Payload::LoadingProgress(_) => PayloadKind::LoadingProgress,
            Payload::EqualizerNotification(_) => PayloadKind::EqualizerNotification,
            Payload::Taunt(_) => PayloadKind::Taunt,
            Payload::CommandOnly(_) => PayloadKind::CommandOnly,
            Payload::DestroyCubeEffectOnly(_) => PayloadKind::DestroyCubeEffectOnly,
            Payload::DestroyCubeNoEffect(_) => PayloadKind::DestroyCubeNoEffect,
            Payload::DestroyCubesFull(_) => PayloadKind::DestroyCubesFull,
            Payload::UpdateVotingAfterBattle(_) => PayloadKind::UpdateVotingAfterBattle,
            Payload::CosmeticAction(_) => PayloadKind::CosmeticAction,
        }
    }

    /// The schema this payload was decoded under.
    pub fn kind(&self) -> (r: PayloadKind)
        ensures
            r == self.spec_kind(),
    {
        match self {
            Payload::SpawnPoint(_) => PayloadKind::SpawnPoint,
            Payload::GetTeamBase(_) => PayloadKind::GetTeamBase,
            Payload::GetCapturePoints(_) => PayloadKind::GetCapturePoints,
            Payload::GetEqualizer(_) => PayloadKind::GetEqualizer,
            Payload::PlayerIDsAndNames(_) => PayloadKind::PlayerIDsAndNames,
            Payload::SyncMachineCubes(_) => PayloadKind::SyncMachineCubes,
            Payload::GameStart(_) => PayloadKind::GameStart,
            Payload::MultiPlayerInputChanged(_) => PayloadKind::MultiPlayerInputChanged,
            Payload::PlayerId(_) => PayloadKind::PlayerId,
            Payload::WeaponFireEffect(_) => PayloadKind::WeaponFireEffect,
            Payload::FireMiss(_) => PayloadKind::FireMiss,
            Payload::MultipleFireMisses(_) => PayloadKind::MultipleFireMisses,
            Payload::GameTime(_) => PayloadKind::GameTime,
            Payload::GameEnd(_) => PayloadKind::GameEnd,
            Payload::GameLoseWin(_) => PayloadKind::GameLoseWin,
            Payload::RespawnTime(_) => PayloadKind::RespawnTime,
            Payload::TeamBaseState(_) => PayloadKind::TeamBaseState,
            Payload::RequestPing(_) => PayloadKind::RequestPing,
            Payload::StringCode(_) => PayloadKind::StringCode,
            Payload::TeamBaseBoolean(_) => PayloadKind::TeamBaseBoolean,
            Payload::Kill(_) => PayloadKind::Kill,
            Payload::FusionShieldState(_) => PayloadKind::FusionShieldState,
            Payload::InitialiseGameStats(_) => PayloadKind::InitialiseGameStats,
            Payload::UpdateGameStats(_) => PayloadKind::UpdateGameStats,
            Payload::MapPing(_) => PayloadKind::MapPing,
            Payload::HealedCubes(_) => PayloadKind::HealedCubes,
            Payload::CurrentSurrenderVotes(_) => PayloadKind::CurrentSurrenderVotes,
            Payload::SurrenderDeclined(_) => PayloadKind::SurrenderDeclined,
            Payload::SurrenderTimes(_) => PayloadKind::SurrenderTimes,
            Payload::SetFinalGameScore(_) => PayloadKind::SetFinalGameScore,
            Payload::LockOnNotifier(_) => PayloadKind::LockOnNotifier,
            Payload::TeleportActivateEffect(_) => PayloadKind::TeleportActivateEffect,
            Payload::SpawnEmpLocator(_) => PayloadKind::SpawnEmpLocator,
            Payload::NetworkStunnedMachineEffect(_) => PayloadKind::NetworkStunnedMachineEffect,
            Payload::SelectWeapon(_) => PayloadKind::SelectWeapon,
            Payload::PlayerIDs(_) => PayloadKind::PlayerIDs,
            Payload::HealAllyCubes(_) => PayloadKind::HealAllyCubes,
            Payload::UpdateGameModeSettings(_) => PayloadKind::UpdateGameModeSettings,
            Payload::UpdateTeamDeathMatch(_) => PayloadKind::UpdateTeamDeathMatch,
            Payload::LoadingProgress(_) => PayloadKind::LoadingProgress,
            Payload::EqualizerNotification(_) => PayloadKind::EqualizerNotification,
            Payload::Taunt(_) => PayloadKind::Taunt,
            Payload::CommandOnly(_) => PayloadKind::CommandOnly,
            Payload::DestroyCubeEffectOnly(_) => PayloadKind::DestroyCubeEffectOnly,
            Payload::DestroyCubeNoEffect(_) => PayloadKind::DestroyCubeNoEffect,
            Payload::DestroyCubesFull(_) => PayloadKind::DestroyCubesFull,
            Payload::UpdateVotingAfterBattle(_) => PayloadKind::UpdateVotingAfterBattle,
            Payload::CosmeticAction(_) => PayloadKind::CosmeticAction,
        }
    }
}

/// The schema a payload model is tagged with.
pub open spec fn spec_kind_of(v: PayloadV) -> PayloadKind {
    match v {
        PayloadV::SpawnPoint(_) => PayloadKind::SpawnPoint,
        PayloadV::GetTeamBase(_) => PayloadKind::GetTeamBase,
        PayloadV::GetCapturePoints(_) => PayloadKind::GetCapturePoints,
        PayloadV::GetEqualizer(_) => PayloadKind::GetEqualizer,
        PayloadV::PlayerIDsAndNames(_) => PayloadKind::PlayerIDsAndNames,
        PayloadV::SyncMachineCubes(_) => PayloadKind::SyncMachineCubes,
        PayloadV::GameStart(_) => PayloadKind::GameStart,
        PayloadV::MultiPlayerInputChanged(_) => PayloadKind::MultiPlayerInputChanged,
        PayloadV::PlayerId(_) => PayloadKind::PlayerId,
        PayloadV::WeaponFireEffect(_) => PayloadKind::WeaponFireEffect,
        PayloadV::FireMiss(_) => PayloadKind::FireMiss,
        PayloadV::MultipleFireMisses(_) => PayloadKind::MultipleFireMisses,
        PayloadV::GameTime(_) => PayloadKind::GameTime,
        PayloadV::GameEnd(_) => PayloadKind::GameEnd,
        PayloadV::GameLoseWin(_) => PayloadKind::GameLoseWin,
        PayloadV::RespawnTime(_) => PayloadKind::RespawnTime,
        PayloadV::TeamBaseState(_) => PayloadKind::TeamBaseState,
        PayloadV::RequestPing(_) => PayloadKind::RequestPing,
        PayloadV::StringCode(_) => PayloadKind::StringCode,
        PayloadV::TeamBaseBoolean(_) => PayloadKind::TeamBaseBoolean,
        PayloadV::Kill(_) => PayloadKind::Kill,
        PayloadV::FusionShieldState(_) => PayloadKind::FusionShieldState,
        PayloadV::InitialiseGameStats(_) => PayloadKind::InitialiseGameStats,
        PayloadV::UpdateGameStats(_) => PayloadKind::UpdateGameStats,
        PayloadV::MapPing(_) => PayloadKind::MapPing,
        PayloadV::HealedCubes(_) => PayloadKind::HealedCubes,
        PayloadV::CurrentSurrenderVotes(_) => PayloadKind::CurrentSurrenderVotes,
        PayloadV::SurrenderDeclined(_) => PayloadKind::SurrenderDeclined,
        PayloadV::SurrenderTimes(_) => PayloadKind::SurrenderTimes,
        PayloadV::SetFinalGameScore(_) => PayloadKind::SetFinalGameScore,
        PayloadV::LockOnNotifier(_) => PayloadKind::LockOnNotifier,
        PayloadV::TeleportActivateEffect(_) => PayloadKind::TeleportActivateEffect,
        PayloadV::SpawnEmpLocator(_) => PayloadKind::SpawnEmpLocator,
        PayloadV::NetworkStunnedMachineEffect(_) => PayloadKind::NetworkStunnedMachineEffect,
        PayloadV::SelectWeapon(_) => PayloadKind::SelectWeapon,
        PayloadV::PlayerIDs(_) => PayloadKind::PlayerIDs,
        PayloadV::HealAllyCubes(_) => PayloadKind::HealAllyCubes,
        PayloadV::UpdateGameModeSettings(_) => PayloadKind::UpdateGameModeSettings,
        PayloadV::UpdateTeamDeathMatch(_) => PayloadKind::UpdateTeamDeathMatch,
        PayloadV::LoadingProgress(_) => PayloadKind::LoadingProgress,
        PayloadV::EqualizerNotification(_) => PayloadKind::EqualizerNotification,
        PayloadV::Taunt(_) => PayloadKind::Taunt,
        PayloadV::CommandOnly(_) => PayloadKind::CommandOnly,
        PayloadV::DestroyCubeEffectOnly(_) => PayloadKind::DestroyCubeEffectOnly,
        PayloadV::DestroyCubeNoEffect(_) => PayloadKind::DestroyCubeNoEffect,
        PayloadV::DestroyCubesFull(_) => PayloadKind::DestroyCubesFull,
        PayloadV::UpdateVotingAfterBattle(_) => PayloadKind::UpdateVotingAfterBattle,
        PayloadV::CosmeticAction(_) => PayloadKind::CosmeticAction,
    }
}

/// The registry table: each registered event code's payload kind and
/// the modes it is legal in. One code has at most one entry, so the
/// same code can never denote two wire schemas. Opaque so that callers
/// reason through [`entry`]'s contract instead of the whole table.
#[verifier::opaque]
pub open spec fn spec_entry(code: u8) -> Option<(PayloadKind, ModeSet)> {
    if code == 15 {
        Some((PayloadKind::SpawnPoint, ModeSet { battle_arena: true, team_death_match: true, elimination: true, pit: true }))
    } else if code == 19 {
        Some((PayloadKind::GetTeamBase, ModeSet { battle_arena: true, team_death_match: false, elimination: false, pit: false }))
    } else if code == 20 {
        Some((PayloadKind::GetCapturePoints, ModeSet { battle_arena: true, team_death_match: false, elimination: false, pit: false }))
    } else if code == 21 {
        Some((PayloadKind::GetEqualizer, ModeSet { battle_arena: true, team_death_match: false, elimination: false, pit: false }))
    } else if code == 22 {
        Some((PayloadKind::SpawnPoint, ModeSet { battle_arena: true, team_death_match: true, elimination: false, pit: true }))
    } else if code == 23 {
        Some((PayloadKind::PlayerIDsAndNames, ModeSet { battle_arena: true, team_death_match: true, elimination: true, pit: true }))
    } else if code == 24 {
        Some((PayloadKind::SyncMachineCubes, ModeSet { battle_arena: true, team_death_match: true, elimination: true, pit: true }))
    } else if code == 26 {
        Some((PayloadKind::GameStart, ModeSet { battle_arena: true, team_death_match: true, elimination: true, pit: true }))
    } else if code == 28 {
        Some((PayloadKind::MultiPlayerInputChanged, ModeSet { battle_arena: true, team_death_match: true, elimination: true, pit: true }))
    } else if code == 30 {
        Some((PayloadKind::PlayerId, ModeSet { battle_arena: true, team_death_match: true, elimination: true, pit: true }))
    } else if code == 31 {
        Some((PayloadKind::PlayerId, ModeSet { battle_arena: true, team_death_match: true, elimination: true, pit: true }))
    } else if code == 33 {
        Some((PayloadKind::WeaponFireEffect, ModeSet { battle_arena: true, team_death_match: true, elimination: true, pit: true }))
    } else if code == 35 {
        Some((PayloadKind::FireMiss, ModeSet { battle_arena: true, team_death_match: true, elimination: true, pit: true }))
    } else if code == 36 {
        Some((PayloadKind::MultipleFireMisses, ModeSet { battle_arena: true, team_death_match: true, elimination: true, pit: true }))
    } else if code == 37 {
        Some((PayloadKind::GameTime, ModeSet { battle_arena: true, team_death_match: true, elimination: true, pit: false }))
    } else if code == 38 {
        Some((PayloadKind::GameEnd, ModeSet { battle_arena: true, team_death_match: true, elimination: true, pit: true }))
    } else if code == 39 {
        Some((PayloadKind::GameLoseWin, ModeSet { battle_arena: true, team_death_match: true, elimination: true, pit: true }))
    } else if code == 40 {
        Some((PayloadKind::GameLoseWin, ModeSet { battle_arena: true, team_death_match: true, elimination: true, pit: true }))
    } else if code == 41 {
        Some((PayloadKind::GameLoseWin, ModeSet { battle_arena: true, team_death_match: false, elimination: false, pit: false }))
    } else if code == 42 {
        Some((PayloadKind::GameLoseWin, ModeSet { battle_arena: true, team_death_match: false, elimination: false, pit: false }))
    } else if code == 45 {
        Some((PayloadKind::GameTime, ModeSet { battle_arena: true, team_death_match: true, elimination: true, pit: true }))
    } else if code == 46 {
        Some((PayloadKind::RespawnTime, ModeSet { battle_arena: true, team_death_match: true, elimination: false, pit: true }))
    } else if code == 47 {
        Some((PayloadKind::TeamBaseState, ModeSet { battle_arena: true, team_death_match: false, elimination: false, pit: false }))
    } else if code == 48 {
        Some((PayloadKind::TeamBaseState, ModeSet { battle_arena: true, team_death_match: false, elimination: false, pit: false }))
    } else if code == 50 {
        Some((PayloadKind::TeamBaseState, ModeSet { battle_arena: true, team_death_match: false, elimination: false, pit: false }))
    } else if code == 51 {
        Some((PayloadKind::TeamBaseState, ModeSet { battle_arena: true, team_death_match: false, elimination: false, pit: false }))
    } else if code == 52 {
        Some((PayloadKind::TeamBaseState, ModeSet { battle_arena: true, team_death_match: false, elimination: false, pit: false }))
    } else if code == 53 {
        Some((PayloadKind::TeamBaseState, ModeSet { battle_arena: true, team_death_match: false, elimination: false, pit: false }))
    } else if code == 54 {
        Some((PayloadKind::RequestPing, ModeSet { battle_arena: true, team_death_match: true, elimination: true, pit: true }))
    } else if code == 55 {
        Some((PayloadKind::RequestPing, ModeSet { battle_arena: true, team_death_match: true, elimination: true, pit: true }))
    } else if code == 56 {
        Some((PayloadKind::StringCode, ModeSet { battle_arena: true, team_death_match: true, elimination: true, pit: true }))
    } else if code == 58 {
        Some((PayloadKind::PlayerId, ModeSet { battle_arena: true, team_death_match: true, elimination: true, pit: false }))
    } else if code == 60 {
        Some((PayloadKind::TeamBaseBoolean, ModeSet { battle_arena: true, team_death_match: false, elimination: false, pit: false }))
    } else if code == 61 {
        Some((PayloadKind::PlayerId, ModeSet { battle_arena: true, team_death_match: true, elimination: true, pit: true }))
    } else if code == 70 {
        Some((PayloadKind::Kill, ModeSet { battle_arena: true, team_death_match: true, elimination: true, pit: true }))
    } else if code == 72 {
        Some((PayloadKind::PlayerId, ModeSet { battle_arena: true, team_death_match: true, elimination: true, pit: true }))
    } else if code == 74 {
        Some((PayloadKind::FusionShieldState, ModeSet { battle_arena: true, team_death_match: false, elimination: false, pit: false }))
    } else if code == 77 {
        Some((PayloadKind::InitialiseGameStats, ModeSet { battle_arena: true, team_death_match: true, elimination: true, pit: true }))
    } else if code == 78 {
        Some((PayloadKind::UpdateGameStats, ModeSet { battle_arena: true, team_death_match: true, elimination: true, pit: true }))
    } else if code == 79 {
        Some((PayloadKind::MapPing, ModeSet { battle_arena: true, team_death_match: true, elimination: true, pit: true }))
    } else if code == 82 {
        Some((PayloadKind::HealedCubes, ModeSet { battle_arena: true, team_death_match: true, elimination: true, pit: true }))
    } else if code == 83 {
        Some((PayloadKind::CurrentSurrenderVotes, ModeSet { battle_arena: true, team_death_match: true, elimination: false, pit: false }))
    } else if code == 85 {
        Some((PayloadKind::CurrentSurrenderVotes, ModeSet { battle_arena: true, team_death_match: true, elimination: false, pit: false }))
    } else if code == 87 {
        Some((PayloadKind::SurrenderDeclined, ModeSet { battle_arena: true, team_death_match: true, elimination: false, pit: false }))
    } else if code == 88 {
        Some((PayloadKind::SurrenderTimes, ModeSet { battle_arena: true, team_death_match: true, elimination: false, pit: false }))
    } else if code == 89 {
        Some((PayloadKind::SetFinalGameScore, ModeSet { battle_arena: true, team_death_match: true, elimination: true, pit: true }))
    } else if code == 95 {
        Some((PayloadKind::TeamBaseBoolean, ModeSet { battle_arena: true, team_death_match: false, elimination: false, pit: false }))
    } else if code == 97 {
        Some((PayloadKind::Kill, ModeSet { battle_arena: true, team_death_match: true, elimination: true, pit: true }))
    } else if code == 99 {
        Some((PayloadKind::LockOnNotifier, ModeSet { battle_arena: true, team_death_match: true, elimination: true, pit: true }))
    } else if code == 105 {
        Some((PayloadKind::PlayerId, ModeSet { battle_arena: true, team_death_match: true, elimination: true, pit: true }))
    } else if code == 107 {
        Some((PayloadKind::PlayerId, ModeSet { battle_arena: true, team_death_match: true, elimination: true, pit: true }))
    } else if code == 109 {
        Some((PayloadKind::TeleportActivateEffect, ModeSet { battle_arena: true, team_death_match: true, elimination: true, pit: true }))
    } else if code == 113 {
        Some((PayloadKind::SpawnEmpLocator, ModeSet { battle_arena: true, team_death_match: true, elimination: true, pit: true }))
    } else if code == 115 {
        Some((PayloadKind::NetworkStunnedMachineEffect, ModeSet { battle_arena: true, team_death_match: true, elimination: true, pit: true }))
    } else if code == 117 {
        Some((PayloadKind::SelectWeapon, ModeSet { battle_arena: true, team_death_match: true, elimination: true, pit: true }))
    } else if code == 118 {
        Some((PayloadKind::PlayerIDs, ModeSet { battle_arena: true, team_death_match: true, elimination: true, pit: true }))
    } else if code == 120 {
        Some((PayloadKind::HealAllyCubes, ModeSet { battle_arena: true, team_death_match: true, elimination: true, pit: true }))
    } else if code == 122 {
        Some((PayloadKind::UpdateGameModeSettings, ModeSet { battle_arena: true, team_death_match: false, elimination: true, pit: true }))
    } else if code == 123 {
        Some((PayloadKind::UpdateTeamDeathMatch, ModeSet { battle_arena: false, team_death_match: true, elimination: false, pit: false }))
    } else if code == 127 {
        Some((PayloadKind::Kill, ModeSet { battle_arena: true, team_death_match: true, elimination: true, pit: true }))
    } else if code == 128 {
        Some((PayloadKind::PlayerId, ModeSet { battle_arena: true, team_death_match: true, elimination: true, pit: true }))
    } else if code == 129 {
        Some((PayloadKind::LoadingProgress, ModeSet { battle_arena: true, team_death_match: true, elimination: true, pit: true }))
    } else if code == 136 {
        Some((PayloadKind::EqualizerNotification, ModeSet { battle_arena: true, team_death_match: false, elimination: false, pit: false }))
    } else if code == 141 {
        Some((PayloadKind::PlayerId, ModeSet { battle_arena: true, team_death_match: true, elimination: true, pit: true }))
    } else if code == 143 {
        Some((PayloadKind::Taunt, ModeSet { battle_arena: true, team_death_match: true, elimination: true, pit: true }))
    } else if code == 146 {
        Some((PayloadKind::CommandOnly, ModeSet { battle_arena: true, team_death_match: true, elimination: true, pit: true }))
    } else if code == 147 {
        Some((PayloadKind::CommandOnly, ModeSet { battle_arena: true, team_death_match: true, elimination: true, pit: true }))
    } else if code == 148 {
        Some((PayloadKind::HealedCubes, ModeSet { battle_arena: true, team_death_match: false, elimination: false, pit: false }))
    } else if code == 152 {
        Some((PayloadKind::CommandOnly, ModeSet { battle_arena: true, team_death_match: true, elimination: true, pit: true }))
    } else if code == 155 {
        Some((PayloadKind::DestroyCubeEffectOnly, ModeSet { battle_arena: true, team_death_match: true, elimination: true, pit: true }))
    } else if code == 156 {
        Some((PayloadKind::DestroyCubeNoEffect, ModeSet { battle_arena: true, team_death_match: true, elimination: true, pit: true }))
    } else if code == 157 {
        Some((PayloadKind::DestroyCubesFull, ModeSet { battle_arena: true, team_death_match: true, elimination: true, pit: true }))
    } else if code == 171 {
        Some((PayloadKind::UpdateVotingAfterBattle, ModeSet { battle_arena: true, team_death_match: true, elimination: true, pit: true }))
    } else if code == 172 {
        Some((PayloadKind::CosmeticAction, ModeSet { battle_arena: true, team_death_match: true, elimination: true, pit: true }))
    } else {
        None
    }
}

/// The registry table, executable form.
pub fn entry(code: u8) -> (r: Option<(PayloadKind, ModeSet)>)
    ensures
        r == spec_entry(code),
{
    proof {
        reveal(spec_entry);
    }
    if code == 15 {
        Some((PayloadKind::SpawnPoint, ModeSet { battle_arena: true, team_death_match: true, elimination: true, pit: true }))
    } else if code == 19 {
        Some((PayloadKind::GetTeamBase, ModeSet { battle_arena: true, team_death_match: false, elimination: false, pit: false }))
    } else if code == 20 {
        Some((PayloadKind::GetCapturePoints, ModeSet { battle_arena: true, team_death_match: false, elimination: false, pit: false }))
    } else if code == 21 {
        Some((PayloadKind::GetEqualizer, ModeSet { battle_arena: true, team_death_match: false, elimination: false, pit: false }))
    } else if code == 22 {
        Some((PayloadKind::SpawnPoint, ModeSet { battle_arena: true, team_death_match: true, elimination: false, pit: true }))
    } else if code == 23 {
        Some((PayloadKind::PlayerIDsAndNames, ModeSet { battle_arena: true, team_death_match: true, elimination: true, pit: true }))
    } else if code == 24 {
        Some((PayloadKind::SyncMachineCubes, ModeSet { battle_arena: true, team_death_match: true, elimination: true, pit: true }))
    } else if code == 26 {
        Some((PayloadKind::GameStart, ModeSet { battle_arena: true, team_death_match: true, elimination: true, pit: true }))
    } else if code == 28 {
        Some((PayloadKind::MultiPlayerInputChanged, ModeSet { battle_arena: true, team_death_match: true, elimination: true, pit: true }))
    } else if code == 30 {
        Some((PayloadKind::PlayerId, ModeSet { battle_arena: true, team_death_match: true, elimination: true, pit: true }))
    } else if code == 31 {
        Some((PayloadKind::PlayerId, ModeSet { battle_arena: true, team_death_match: true, elimination: true, pit: true }))
    } else if code == 33 {
        Some((PayloadKind::WeaponFireEffect, ModeSet { battle_arena: true, team_death_match: true, elimination: true, pit: true }))
    } else if code == 35 {
        Some((PayloadKind::FireMiss, ModeSet { battle_arena: true, team_death_match: true, elimination: true, pit: true }))
    } else if code == 36 {
        Some((PayloadKind::MultipleFireMisses, ModeSet { battle_arena: true, team_death_match: true, elimination: true, pit: true }))
    } else if code == 37 {
        Some((PayloadKind::GameTime, ModeSet { battle_arena: true, team_death_match: true, elimination: true, pit: false }))
    } else if code == 38 {
        Some((PayloadKind::GameEnd, ModeSet { battle_arena: true, team_death_match: true, elimination: true, pit: true }))
    } else if code == 39 {
        Some((PayloadKind::GameLoseWin, ModeSet { battle_arena: true, team_death_match: true, elimination: true, pit: true }))
    } else if code == 40 {
        Some((PayloadKind::GameLoseWin, ModeSet { battle_arena: true, team_death_match: true, elimination: true, pit: true }))
    } else if code == 41 {
        Some((PayloadKind::GameLoseWin, ModeSet { battle_arena: true, team_death_match: false, elimination: false, pit: false }))
    } else if code == 42 {
        Some((PayloadKind::GameLoseWin, ModeSet { battle_arena: true, team_death_match: false, elimination: false, pit: false }))
    } else if code == 45 {
        Some((PayloadKind::GameTime, ModeSet { battle_arena: true, team_death_match: true, elimination: true, pit: true }))
    } else if code == 46 {
        Some((PayloadKind::RespawnTime, ModeSet { battle_arena: true, team_death_match: true, elimination: false, pit: true }))
    } else if code == 47 {
        Some((PayloadKind::TeamBaseState, ModeSet { battle_arena: true, team_death_match: false, elimination: false, pit: false }))
    } else if code == 48 {
        Some((PayloadKind::TeamBaseState, ModeSet { battle_arena: true, team_death_match: false, elimination: false, pit: false }))
    } else if code == 50 {
        Some((PayloadKind::TeamBaseState, ModeSet { battle_arena: true, team_death_match: false, elimination: false, pit: false }))
    } else if code == 51 {
        Some((PayloadKind::TeamBaseState, ModeSet { battle_arena: true, team_death_match: false, elimination: false, pit: false }))
    } else if code == 52 {
        Some((PayloadKind::TeamBaseState, ModeSet { battle_arena: true, team_death_match: false, elimination: false, pit: false }))
    } else if code == 53 {
        Some((PayloadKind::TeamBaseState, ModeSet { battle_arena: true, team_death_match: false, elimination: false, pit: false }))
    } else if code == 54 {
        Some((PayloadKind::RequestPing, ModeSet { battle_arena: true, team_death_match: true, elimination: true, pit: true }))
    } else if code == 55 {
        Some((PayloadKind::RequestPing, ModeSet { battle_arena: true, team_death_match: true, elimination: true, pit: true }))
    } else if code == 56 {
        Some((PayloadKind::StringCode, ModeSet { battle_arena: true, team_death_match: true, elimination: true, pit: true }))
    } else if code == 58 {
        Some((PayloadKind::PlayerId, ModeSet { battle_arena: true, team_death_match: true, elimination: true, pit: false }))
    } else if code == 60 {
        Some((PayloadKind::TeamBaseBoolean, ModeSet { battle_arena: true, team_death_match: false, elimination: false, pit: false }))
    } else if code == 61 {
        Some((PayloadKind::PlayerId, ModeSet { battle_arena: true, team_death_match: true, elimination: true, pit: true }))
    } else if code == 70 {
        Some((PayloadKind::Kill, ModeSet { battle_arena: true, team_death_match: true, elimination: true, pit: true }))
    } else if code == 72 {
        Some((PayloadKind::PlayerId, ModeSet { battle_arena: true, team_death_match: true, elimination: true, pit: true }))
    } else if code == 74 {
        Some((PayloadKind::FusionShieldState, ModeSet { battle_arena: true, team_death_match: false, elimination: false, pit: false }))
    } else if code == 77 {
        Some((PayloadKind::InitialiseGameStats, ModeSet { battle_arena: true, team_death_match: true, elimination: true, pit: true }))
    } else if code == 78 {
        Some((PayloadKind::UpdateGameStats, ModeSet { battle_arena: true, team_death_match: true, elimination: true, pit: true }))
    } else if code == 79 {
        Some((PayloadKind::MapPing, ModeSet { battle_arena: true, team_death_match: true, elimination: true, pit: true }))
    } else if code == 82 {
        Some((PayloadKind::HealedCubes, ModeSet { battle_arena: true, team_death_match: true, elimination: true, pit: true }))
    } else if code == 83 {
        Some((PayloadKind::CurrentSurrenderVotes, ModeSet { battle_arena: true, team_death_match: true, elimination: false, pit: false }))
    } else if code == 85 {
        Some((PayloadKind::CurrentSurrenderVotes, ModeSet { battle_arena: true, team_death_match: true, elimination: false, pit: false }))
    } else if code == 87 {
        Some((PayloadKind::SurrenderDeclined, ModeSet { battle_arena: true, team_death_match: true, elimination: false, pit: false }))
    } else if code == 88 {
        Some((PayloadKind::SurrenderTimes, ModeSet { battle_arena: true, team_death_match: true, elimination: false, pit: false }))
    } else if code == 89 {
        Some((PayloadKind::SetFinalGameScore, ModeSet { battle_arena: true, team_death_match: true, elimination: true, pit: true }))
    } else if code == 95 {
        Some((PayloadKind::TeamBaseBoolean, ModeSet { battle_arena: true, team_death_match: false, elimination: false, pit: false }))
    } else if code == 97 {
        Some((PayloadKind::Kill, ModeSet { battle_arena: true, team_death_match: true, elimination: true, pit: true }))
    } else if code == 99 {
        Some((PayloadKind::LockOnNotifier, ModeSet { battle_arena: true, team_death_match: true, elimination: true, pit: true }))
    } else if code == 105 {
        Some((PayloadKind::PlayerId, ModeSet { battle_arena: true, team_death_match: true, elimination: true, pit: true }))
    } else if code == 107 {
        Some((PayloadKind::PlayerId, ModeSet { battle_arena: true, team_death_match: true, elimination: true, pit: true }))
    } else if code == 109 {
        Some((PayloadKind::TeleportActivateEffect, ModeSet { battle_arena: true, team_death_match: true, elimination: true, pit: true }))
    } else if code == 113 {
        Some((PayloadKind::SpawnEmpLocator, ModeSet { battle_arena: true, team_death_match: true, elimination: true, pit: true }))
    } else if code == 115 {
        Some((PayloadKind::NetworkStunnedMachineEffect, ModeSet { battle_arena: true, team_death_match: true, elimination: true, pit: true }))
    } else if code == 117 {
        Some((PayloadKind::SelectWeapon, ModeSet { battle_arena: true, team_death_match: true, elimination: true, pit: true }))
    } else if code == 118 {
        Some((PayloadKind::PlayerIDs, ModeSet { battle_arena: true, team_death_match: true, elimination: true, pit: true }))
    } else if code == 120 {
        Some((PayloadKind::HealAllyCubes, ModeSet { battle_arena: true, team_death_match: true, elimination: true, pit: true }))
    } else if code == 122 {
        Some((PayloadKind::UpdateGameModeSettings, ModeSet { battle_arena: true, team_death_match: false, elimination: true, pit: true }))
    } else if code == 123 {
        Some((PayloadKind::UpdateTeamDeathMatch, ModeSet { battle_arena: false, team_death_match: true, elimination: false, pit: false }))
    } else if code == 127 {
        Some((PayloadKind::Kill, ModeSet { battle_arena: true, team_death_match: true, elimination: true, pit: true }))
    } else if code == 128 {
        Some((PayloadKind::PlayerId, ModeSet { battle_arena: true, team_death_match: true, elimination: true, pit: true }))
    } else if code == 129 {
        Some((PayloadKind::LoadingProgress, ModeSet { battle_arena: true, team_death_match: true, elimination: true, pit: true }))
    } else if code == 136 {
        Some((PayloadKind::EqualizerNotification, ModeSet { battle_arena: true, team_death_match: false, elimination: false, pit: false }))
    } else if code == 141 {
        Some((PayloadKind::PlayerId, ModeSet { battle_arena: true, team_death_match: true, elimination: true, pit: true }))
    } else if code == 143 {
        Some((PayloadKind::Taunt, ModeSet { battle_arena: true, team_death_match: true, elimination: true, pit: true }))
    } else if code == 146 {
        Some((PayloadKind::CommandOnly, ModeSet { battle_arena: true, team_death_match: true, elimination: true, pit: true }))
    } else if code == 147 {
        Some((PayloadKind::CommandOnly, ModeSet { battle_arena: true, team_death_match: true, elimination: true, pit: true }))
    } else if code == 148 {
        Some((PayloadKind::HealedCubes, ModeSet { battle_arena: true, team_death_match: false, elimination: false, pit: false }))
    } else if code == 152 {
        Some((PayloadKind::CommandOnly, ModeSet { battle_arena: true, team_death_match: true, elimination: true, pit: true }))
    } else if code == 155 {
        Some((PayloadKind::DestroyCubeEffectOnly, ModeSet { battle_arena: true, team_death_match: true, elimination: true, pit: true }))
    } else if code == 156 {
        Some((PayloadKind::DestroyCubeNoEffect, ModeSet { battle_arena: true, team_death_match: true, elimination: true, pit: true }))
    } else if code == 157 {
        Some((PayloadKind::DestroyCubesFull, ModeSet { battle_arena: true, team_death_match: true, elimination: true, pit: true }))
    } else if code == 171 {
        Some((PayloadKind::UpdateVotingAfterBattle, ModeSet { battle_arena: true, team_death_match: true, elimination: true, pit: true }))
    } else if code == 172 {
        Some((PayloadKind::CosmeticAction, ModeSet { battle_arena: true, team_death_match: true, elimination: true, pit: true }))
    } else {
        None
    }
}

/// The payload kind registered for a `(code, mode)` pair, or nothing:
/// an unregistered pair is a definite condition, never a fallback.
pub open spec fn spec_resolve(code: u8, mode: GameMode) -> Option<PayloadKind> {
    match spec_entry(code) {
        Some((kind, modes)) => if modes.spec_has(mode) {
            Some(kind)
        } else {
            None
        },
        None => None,
    }
}

/// The payload kind registered for a `(code, mode)` pair, or nothing.
pub fn resolve(code: u8, mode: GameMode) -> (r: Option<PayloadKind>)
    ensures
        r == spec_resolve(code, mode),
{
    match entry(code) {
        Some((kind, modes)) => if modes.has(mode) {
            Some(kind)
        } else {
            None
        },
        None => None,
    }
}

/// Registry uniqueness: every registration of one event code, under
/// whatever mode, resolves to the same payload kind.
pub proof fn lemma_registry_unique(code: u8, m1: GameMode, m2: GameMode)
    ensures
        match (spec_resolve(code, m1), spec_resolve(code, m2)) {
            (Some(k1), Some(k2)) => k1 == k2,
            _ => true,
        },
{
}


/// The outcome of decoding a payload under the SpawnPoint schema,
/// wrapped as a payload value. Opaque: one schema's tree at a time.
#[verifier::opaque]
pub open spec fn dec_as_spawnpoint(b: Seq<u8>) -> Result<(PayloadV, int), DecodeError> {
    match SpawnPoint::dec(b, 0) {
        Ok((v, end)) => Ok((PayloadV::SpawnPoint(v), end)),
        Err(e) => Err(e),
    }
}

/// The outcome of decoding a payload under the GetTeamBase schema,
/// wrapped as a payload value. Opaque: one schema's tree at a time.
#[verifier::opaque]
pub open spec fn dec_as_getteambase(b: Seq<u8>) -> Result<(PayloadV, int), DecodeError> {
    match GetTeamBase::dec(b, 0) {
        Ok((v, end)) => Ok((PayloadV::GetTeamBase(v), end)),
        Err(e) => Err(e),
    }
}

/// The outcome of decoding a payload under the GetCapturePoints schema,
/// wrapped as a payload value. Opaque: one schema's tree at a time.
#[verifier::opaque]
pub open spec fn dec_as_getcapturepoints(b: Seq<u8>) -> Result<(PayloadV, int), DecodeError> {
    match GetCapturePoints::dec(b, 0) {
        Ok((v, end)) => Ok((PayloadV::GetCapturePoints(v), end)),
        Err(e) => Err(e),
    }
}

/// The outcome of decoding a payload under the GetEqualizer schema,
/// wrapped as a payload value. Opaque: one schema's tree at a time.
#[verifier::opaque]
pub open spec fn dec_as_getequalizer(b: Seq<u8>) -> Result<(PayloadV, int), DecodeError> {
    match GetEqualizer::dec(b, 0) {
        Ok((v, end)) => Ok((PayloadV::GetEqualizer(v), end)),
        Err(e) => Err(e),
    }
}

/// The outcome of decoding a payload under the PlayerIDsAndNames schema,
/// wrapped as a payload value. Opaque: one schema's tree at a time.
#[verifier::opaque]
pub open spec fn dec_as_playeridsandnames(b: Seq<u8>) -> Result<(PayloadV, int), DecodeError> {
    match PlayerIDsAndNames::dec(b, 0) {
        Ok((v, end)) => Ok((PayloadV::PlayerIDsAndNames(v), end)),
        Err(e) => Err(e),
    }
}

/// The outcome of decoding a payload under the SyncMachineCubes schema,
/// wrapped as a payload value. Opaque: one schema's tree at a time.
#[verifier::opaque]
pub open spec fn dec_as_syncmachinecubes(b: Seq<u8>) -> Result<(PayloadV, int), DecodeError> {
    match SyncMachineCubes::dec(b, 0) {
        Ok((v, end)) => Ok((PayloadV::SyncMachineCubes(v), end)),
        Err(e) => Err(e),
    }
}

/// The outcome of decoding a payload under the GameStart schema,
/// wrapped as a payload value. Opaque: one schema's tree at a time.
#[verifier::opaque]
pub open spec fn dec_as_gamestart(b: Seq<u8>) -> Result<(PayloadV, int), DecodeError> {
    match GameStart::dec(b, 0) {
        Ok((v, end)) => Ok((PayloadV::GameStart(v), end)),
        Err(e) => Err(e),
    }
}

/// The outcome of decoding a payload under the MultiPlayerInputChanged schema,
/// wrapped as a payload value. Opaque: one schema's tree at a time.
#[verifier::opaque]
pub open spec fn dec_as_multiplayerinputchanged(b: Seq<u8>) -> Result<(PayloadV, int), DecodeError> {
    match MultiPlayerInputChanged::dec(b, 0) {
        Ok((v, end)) => Ok((PayloadV::MultiPlayerInputChanged(v), end)),
        Err(e) => Err(e),
    }
}

/// The outcome of decoding a payload under the PlayerId schema,
/// wrapped as a payload value. Opaque: one schema's tree at a time.
#[verifier::opaque]
pub open spec fn dec_as_playerid(b: Seq<u8>) -> Result<(PayloadV, int), DecodeError> {
    match PlayerId::dec(b, 0) {
        Ok((v, end)) => Ok((PayloadV::PlayerId(v), end)),
        Err(e) => Err(e),
    }
}

/// The outcome of decoding a payload under the WeaponFireEffect schema,
/// wrapped as a payload value. Opaque: one schema's tree at a time.
#[verifier::opaque]
pub open spec fn dec_as_weaponfireeffect(b: Seq<u8>) -> Result<(PayloadV, int), DecodeError> {
    match WeaponFireEffect::dec(b, 0) {
        Ok((v, end)) => Ok((PayloadV::WeaponFireEffect(v), end)),
        Err(e) => Err(e),
    }
}

/// The outcome of decoding a payload under the FireMiss schema,
/// wrapped as a payload value. Opaque: one schema's tree at a time.
#[verifier::opaque]
pub open spec fn dec_as_firemiss(b: Seq<u8>) -> Result<(PayloadV, int), DecodeError> {
    match FireMiss::dec(b, 0) {
        Ok((v, end)) => Ok((PayloadV::FireMiss(v), end)),
        Err(e) => Err(e),
    }
}

/// The outcome of decoding a payload under the MultipleFireMisses schema,
/// wrapped as a payload value. Opaque: one schema's tree at a time.
#[verifier::opaque]
pub open spec fn dec_as_multiplefiremisses(b: Seq<u8>) -> Result<(PayloadV, int), DecodeError> {
    match MultipleFireMisses::dec(b, 0) {
        Ok((v, end)) => Ok((PayloadV::MultipleFireMisses(v), end)),
        Err(e) => Err(e),
    }
}

/// The outcome of decoding a payload under the GameTime schema,
/// wrapped as a payload value. Opaque: one schema's tree at a time.
#[verifier::opaque]
pub open spec fn dec_as_gametime(b: Seq<u8>) -> Result<(PayloadV, int), DecodeError> {
    match GameTime::dec(b, 0) {
        Ok((v, end)) => Ok((PayloadV::GameTime(v), end)),
        Err(e) => Err(e),
    }
}

/// The outcome of decoding a payload under the GameEnd schema,
/// wrapped as a payload value. Opaque: one schema's tree at a time.
#[verifier::opaque]
pub open spec fn dec_as_gameend(b: Seq<u8>) -> Result<(PayloadV, int), DecodeError> {
    match GameEnd::dec(b, 0) {
        Ok((v, end)) => Ok((PayloadV::GameEnd(v), end)),
        Err(e) => Err(e),
    }
}

/// The outcome of decoding a payload under the GameLoseWin schema,
/// wrapped as a payload value. Opaque: one schema's tree at a time.
#[verifier::opaque]
pub open spec fn dec_as_gamelosewin(b: Seq<u8>) -> Result<(PayloadV, int), DecodeError> {
    match GameLoseWin::dec(b, 0) {
        Ok((v, end)) => Ok((PayloadV::GameLoseWin(v), end)),
        Err(e) => Err(e),
    }
}

/// The outcome of decoding a payload under the RespawnTime schema,
/// wrapped as a payload value. Opaque: one schema's tree at a time.
#[verifier::opaque]
pub open spec fn dec_as_respawntime(b: Seq<u8>) -> Result<(PayloadV, int), DecodeError> {
    match RespawnTime::dec(b, 0) {
        Ok((v, end)) => Ok((PayloadV::RespawnTime(v), end)),
        Err(e) => Err(e),
    }
}

/// The outcome of decoding a payload under the TeamBaseState schema,
/// wrapped as a payload value. Opaque: one schema's tree at a time.
#[verifier::opaque]
pub open spec fn dec_as_teambasestate(b: Seq<u8>) -> Result<(PayloadV, int), DecodeError> {
    match TeamBaseState::dec(b, 0) {
        Ok((v, end)) => Ok((PayloadV::TeamBaseState(v), end)),
        Err(e) => Err(e),
    }
}

/// The outcome of decoding a payload under the RequestPing schema,
/// wrapped as a payload value. Opaque: one schema's tree at a time.
#[verifier::opaque]
pub open spec fn dec_as_requestping(b: Seq<u8>) -> Result<(PayloadV, int), DecodeError> {
    match RequestPing::dec(b, 0) {
        Ok((v, end)) => Ok((PayloadV::RequestPing(v), end)),
        Err(e) => Err(e),
    }
}

/// The outcome of decoding a payload under the StringCode schema,
/// wrapped as a payload value. Opaque: one schema's tree at a time.
#[verifier::opaque]
pub open spec fn dec_as_stringcode(b: Seq<u8>) -> Result<(PayloadV, int), DecodeError> {
    match StringCode::dec(b, 0) {
        Ok((v, end)) => Ok((PayloadV::StringCode(v), end)),
        Err(e) => Err(e),
    }
}

/// The outcome of decoding a payload under the TeamBaseBoolean schema,
/// wrapped as a payload value. Opaque: one schema's tree at a time.
#[verifier::opaque]
pub open spec fn dec_as_teambaseboolean(b: Seq<u8>) -> Result<(PayloadV, int), DecodeError> {
    match TeamBaseBoolean::dec(b, 0) {
        Ok((v, end)) => Ok((PayloadV::TeamBaseBoolean(v), end)),
        Err(e) => Err(e),
    }
}

/// The outcome of decoding a payload under the Kill schema,
/// wrapped as a payload value. Opaque: one schema's tree at a time.
#[verifier::opaque]
pub open spec fn dec_as_kill(b: Seq<u8>) -> Result<(PayloadV, int), DecodeError> {
    match Kill::dec(b, 0) {
        Ok((v, end)) => Ok((PayloadV::Kill(v), end)),
        Err(e) => Err(e),
    }
}

/// The outcome of decoding a payload under the FusionShieldState schema,
/// wrapped as a payload value. Opaque: one schema's tree at a time.
#[verifier::opaque]
pub open spec fn dec_as_fusionshieldstate(b: Seq<u8>) -> Result<(PayloadV, int), DecodeError> {
    match FusionShieldState::dec(b, 0) {
        Ok((v, end)) => Ok((PayloadV::FusionShieldState(v), end)),
        Err(e) => Err(e),
    }
}

/// The outcome of decoding a payload under the InitialiseGameStats schema,
/// wrapped as a payload value. Opaque: one schema's tree at a time.
#[verifier::opaque]
pub open spec fn dec_as_initialisegamestats(b: Seq<u8>) -> Result<(PayloadV, int), DecodeError> {
    match InitialiseGameStats::dec(b, 0) {
        Ok((v, end)) => Ok((PayloadV::InitialiseGameStats(v), end)),
        Err(e) => Err(e),
    }
}

/// The outcome of decoding a payload under the UpdateGameStats schema,
/// wrapped as a payload value. Opaque: one schema's tree at a time.
#[verifier::opaque]
pub open spec fn dec_as_updategamestats(b: Seq<u8>) -> Result<(PayloadV, int), DecodeError> {
    match UpdateGameStats::dec(b, 0) {
        Ok((v, end)) => Ok((PayloadV::UpdateGameStats(v), end)),
        Err(e) => Err(e),
    }
}

/// The outcome of decoding a payload under the MapPing schema,
/// wrapped as a payload value. Opaque: one schema's tree at a time.
#[verifier::opaque]
pub open spec fn dec_as_mapping(b: Seq<u8>) -> Result<(PayloadV, int), DecodeError> {
    match MapPing::dec(b, 0) {
        Ok((v, end)) => Ok((PayloadV::MapPing(v), end)),
        Err(e) => Err(e),
    }
}

/// The outcome of decoding a payload under the HealedCubes schema,
/// wrapped as a payload value. Opaque: one schema's tree at a time.
#[verifier::opaque]
pub open spec fn dec_as_healedcubes(b: Seq<u8>) -> Result<(PayloadV, int), DecodeError> {
    match HealedCubes::dec(b, 0) {
        Ok((v, end)) => Ok((PayloadV::HealedCubes(v), end)),
        Err(e) => Err(e),
    }
}

/// The outcome of decoding a payload under the CurrentSurrenderVotes schema,
/// wrapped as a payload value. Opaque: one schema's tree at a time.
#[verifier::opaque]
pub open spec fn dec_as_currentsurrendervotes(b: Seq<u8>) -> Result<(PayloadV, int), DecodeError> {
    match CurrentSurrenderVotes::dec(b, 0) {
        Ok((v, end)) => Ok((PayloadV::CurrentSurrenderVotes(v), end)),
        Err(e) => Err(e),
    }
}

/// The outcome of decoding a payload under the SurrenderDeclined schema,
/// wrapped as a payload value. Opaque: one schema's tree at a time.
#[verifier::opaque]
pub open spec fn dec_as_surrenderdeclined(b: Seq<u8>) -> Result<(PayloadV, int), DecodeError> {
    match SurrenderDeclined::dec(b, 0) {
        Ok((v, end)) => Ok((PayloadV::SurrenderDeclined(v), end)),
        Err(e) => Err(e),
    }
}

/// The outcome of decoding a payload under the SurrenderTimes schema,
/// wrapped as a payload value. Opaque: one schema's tree at a time.
#[verifier::opaque]
pub open spec fn dec_as_surrendertimes(b: Seq<u8>) -> Result<(PayloadV, int), DecodeError> {
    match SurrenderTimes::dec(b, 0) {
        Ok((v, end)) => Ok((PayloadV::SurrenderTimes(v), end)),
        Err(e) => Err(e),
    }
}

/// The outcome of decoding a payload under the SetFinalGameScore schema,
/// wrapped as a payload value. Opaque: one schema's tree at a time.
#[verifier::opaque]
pub open spec fn dec_as_setfinalgamescore(b: Seq<u8>) -> Result<(PayloadV, int), DecodeError> {
    match SetFinalGameScore::dec(b, 0) {
        Ok((v, end)) => Ok((PayloadV::SetFinalGameScore(v), end)),
        Err(e) => Err(e),
    }
}

/// The outcome of decoding a payload under the LockOnNotifier schema,
/// wrapped as a payload value. Opaque: one schema's tree at a time.
#[verifier::opaque]
pub open spec fn dec_as_lockonnotifier(b: Seq<u8>) -> Result<(PayloadV, int), DecodeError> {
    match LockOnNotifier::dec(b, 0) {
        Ok((v, end)) => Ok((PayloadV::LockOnNotifier(v), end)),
        Err(e) => Err(e),
    }
}

/// The outcome of decoding a payload under the TeleportActivateEffect schema,
/// wrapped as a payload value. Opaque: one schema's tree at a time.
#[verifier::opaque]
pub open spec fn dec_as_teleportactivateeffect(b: Seq<u8>) -> Result<(PayloadV, int), DecodeError> {
    match TeleportActivateEffect::dec(b, 0) {
        Ok((v, end)) => Ok((PayloadV::TeleportActivateEffect(v), end)),
        Err(e) => Err(e),
    }
}

/// The outcome of decoding a payload under the SpawnEmpLocator schema,
/// wrapped as a payload value. Opaque: one schema's tree at a time.
#[verifier::opaque]
pub open spec fn dec_as_spawnemplocator(b: Seq<u8>) -> Result<(PayloadV, int), DecodeError> {
    match SpawnEmpLocator::dec(b, 0) {
        Ok((v, end)) => Ok((PayloadV::SpawnEmpLocator(v), end)),
        Err(e) => Err(e),
    }
}

/// The outcome of decoding a payload under the NetworkStunnedMachineEffect schema,
/// wrapped as a payload value. Opaque: one schema's tree at a time.
#[verifier::opaque]
pub open spec fn dec_as_networkstunnedmachineeffect(b: Seq<u8>) -> Result<(PayloadV, int), DecodeError> {
    match NetworkStunnedMachineEffect::dec(b, 0) {
        Ok((v, end)) => Ok((PayloadV::NetworkStunnedMachineEffect(v), end)),
        Err(e) => Err(e),
    }
}

/// The outcome of decoding a payload under the SelectWeapon schema,
/// wrapped as a payload value. Opaque: one schema's tree at a time.
#[verifier::opaque]
pub open spec fn dec_as_selectweapon(b: Seq<u8>) -> Result<(PayloadV, int), DecodeError> {
    match SelectWeapon::dec(b, 0) {
        Ok((v, end)) => Ok((PayloadV::SelectWeapon(v), end)),
        Err(e) => Err(e),
    }
}

/// The outcome of decoding a payload under the PlayerIDs schema,
/// wrapped as a payload value. Opaque: one schema's tree at a time.
#[verifier::opaque]
pub open spec fn dec_as_playerids(b: Seq<u8>) -> Result<(PayloadV, int), DecodeError> {
    match PlayerIDs::dec(b, 0) {
        Ok((v, end)) => Ok((PayloadV::PlayerIDs(v), end)),
        Err(e) => Err(e),
    }
}

/// The outcome of decoding a payload under the HealAllyCubes schema,
/// wrapped as a payload value. Opaque: one schema's tree at a time.
#[verifier::opaque]
pub open spec fn dec_as_healallycubes(b: Seq<u8>) -> Result<(PayloadV, int), DecodeError> {
    match HealAllyCubes::dec(b, 0) {
        Ok((v, end)) => Ok((PayloadV::HealAllyCubes(v), end)),
        Err(e) => Err(e),
    }
}

/// The outcome of decoding a payload under the UpdateGameModeSettings schema,
/// wrapped as a payload value. Opaque: one schema's tree at a time.
#[verifier::opaque]
pub open spec fn dec_as_updategamemodesettings(b: Seq<u8>) -> Result<(PayloadV, int), DecodeError> {
    match UpdateGameModeSettings::dec(b, 0) {
        Ok((v, end)) => Ok((PayloadV::UpdateGameModeSettings(v), end)),
        Err(e) => Err(e),
    }
}

/// The outcome of decoding a payload under the UpdateTeamDeathMatch schema,
/// wrapped as a payload value. Opaque: one schema's tree at a time.
#[verifier::opaque]
pub open spec fn dec_as_updateteamdeathmatch(b: Seq<u8>) -> Result<(PayloadV, int), DecodeError> {
    match UpdateTeamDeathMatch::dec(b, 0) {
        Ok((v, end)) => Ok((PayloadV::UpdateTeamDeathMatch(v), end)),
        Err(e) => Err(e),
    }
}

/// The outcome of decoding a payload under the LoadingProgress schema,
/// wrapped as a payload value. Opaque: one schema's tree at a time.
#[verifier::opaque]
pub open spec fn dec_as_loadingprogress(b: Seq<u8>) -> Result<(PayloadV, int), DecodeError> {
    match LoadingProgress::dec(b, 0) {
        Ok((v, end)) => Ok((PayloadV::LoadingProgress(v), end)),
        Err(e) => Err(e),
    }
}

/// The outcome of decoding a payload under the EqualizerNotification schema,
/// wrapped as a payload value. Opaque: one schema's tree at a time.
#[verifier::opaque]
pub open spec fn dec_as_equalizernotification(b: Seq<u8>) -> Result<(PayloadV, int), DecodeError> {
    match EqualizerNotification::dec(b, 0) {
        Ok((v, end)) => Ok((PayloadV::EqualizerNotification(v), end)),
        Err(e) => Err(e),
    }
}

/// The outcome of decoding a payload under the Taunt schema,
/// wrapped as a payload value. Opaque: one schema's tree at a time.
#[verifier::opaque]
pub open spec fn dec_as_taunt(b: Seq<u8>) -> Result<(PayloadV, int), DecodeError> {
    match Taunt::dec(b, 0) {
        Ok((v, end)) => Ok((PayloadV::Taunt(v), end)),
        Err(e) => Err(e),
    }
}

/// The outcome of decoding a payload under the CommandOnly schema,
/// wrapped as a payload value. Opaque: one schema's tree at a time.
#[verifier::opaque]
pub open spec fn dec_as_commandonly(b: Seq<u8>) -> Result<(PayloadV, int), DecodeError> {
    match CommandOnly::dec(b, 0) {
        Ok((v, end)) => Ok((PayloadV::CommandOnly(v), end)),
        Err(e) => Err(e),
    }
}

/// The outcome of decoding a payload under the DestroyCubeEffectOnly schema,
/// wrapped as a payload value. Opaque: one schema's tree at a time.
#[verifier::opaque]
pub open spec fn dec_as_destroycubeeffectonly(b: Seq<u8>) -> Result<(PayloadV, int), DecodeError> {
    match DestroyCubeEffectOnly::dec(b, 0) {
        Ok((v, end)) => Ok((PayloadV::DestroyCubeEffectOnly(v), end)),
        Err(e) => Err(e),
    }
}

/// The outcome of decoding a payload under the DestroyCubeNoEffect schema,
/// wrapped as a payload value. Opaque: one schema's tree at a time.
#[verifier::opaque]
pub open spec fn dec_as_destroycubenoeffect(b: Seq<u8>) -> Result<(PayloadV, int), DecodeError> {
    match DestroyCubeNoEffect::dec(b, 0) {
        Ok((v, end)) => Ok((PayloadV::DestroyCubeNoEffect(v), end)),
        Err(e) => Err(e),
    }
}

/// The outcome of decoding a payload under the DestroyCubesFull schema,
/// wrapped as a payload value. Opaque: one schema's tree at a time.
#[verifier::opaque]
pub open spec fn dec_as_destroycubesfull(b: Seq<u8>) -> Result<(PayloadV, int), DecodeError> {
    match DestroyCubesFull::dec(b, 0) {
        Ok((v, end)) => Ok((PayloadV::DestroyCubesFull(v), end)),
        Err(e) => Err(e),
    }
}

/// The outcome of decoding a payload under the UpdateVotingAfterBattle schema,
/// wrapped as a payload value. Opaque: one schema's tree at a time.
#[verifier::opaque]
pub open spec fn dec_as_updatevotingafterbattle(b: Seq<u8>) -> Result<(PayloadV, int), DecodeError> {
    match UpdateVotingAfterBattle::dec(b, 0) {
        Ok((v, end)) => Ok((PayloadV::UpdateVotingAfterBattle(v), end)),
        Err(e) => Err(e),
    }
}

/// The outcome of decoding a payload under the CosmeticAction schema,
/// wrapped as a payload value. Opaque: one schema's tree at a time.
#[verifier::opaque]
pub open spec fn dec_as_cosmeticaction(b: Seq<u8>) -> Result<(PayloadV, int), DecodeError> {
    match CosmeticAction::dec(b, 0) {
        Ok((v, end)) => Ok((PayloadV::CosmeticAction(v), end)),
        Err(e) => Err(e),
    }
}

/// The outcome of decoding one event's payload bytes under the
/// registry: the typed payload and how many bytes its schema consumed,
/// or the decode error; an unregistered pair is refused before any
/// byte is read.
pub open spec fn spec_decode_event(code: u8, mode: GameMode, b: Seq<u8>) -> Result<
    (PayloadV, int),
    DecodeError,
> {
    match spec_resolve(code, mode) {
        Some(kind) => match kind {
            PayloadKind::SpawnPoint => dec_as_spawnpoint(b),
            PayloadKind::GetTeamBase => dec_as_getteambase(b),
            PayloadKind::GetCapturePoints => dec_as_getcapturepoints(b),
            PayloadKind::GetEqualizer => dec_as_getequalizer(b),
            PayloadKind::PlayerIDsAndNames => dec_as_playeridsandnames(b),
            PayloadKind::SyncMachineCubes => dec_as_syncmachinecubes(b),
            PayloadKind::GameStart => dec_as_gamestart(b),
            PayloadKind::MultiPlayerInputChanged => dec_as_multiplayerinputchanged(b),
            PayloadKind::PlayerId => dec_as_playerid(b),
            PayloadKind::WeaponFireEffect => dec_as_weaponfireeffect(b),
            PayloadKind::FireMiss => dec_as_firemiss(b),
            PayloadKind::MultipleFireMisses => dec_as_multiplefiremisses(b),
            PayloadKind::GameTime => dec_as_gametime(b),
            PayloadKind::GameEnd => dec_as_gameend(b),
            PayloadKind::GameLoseWin => dec_as_gamelosewin(b),
            PayloadKind::RespawnTime => dec_as_respawntime(b),
            PayloadKind::TeamBaseState => dec_as_teambasestate(b),
            PayloadKind::RequestPing => dec_as_requestping(b),
            PayloadKind::StringCode => dec_as_stringcode(b),
            PayloadKind::TeamBaseBoolean => dec_as_teambaseboolean(b),
            PayloadKind::Kill => dec_as_kill(b),
            PayloadKind::FusionShieldState => dec_as_fusionshieldstate(b),
            PayloadKind::InitialiseGameStats => dec_as_initialisegamestats(b),
            PayloadKind::UpdateGameStats => dec_as_updategamestats(b),
            PayloadKind::MapPing => dec_as_mapping(b),
            PayloadKind::HealedCubes => dec_as_healedcubes(b),
            PayloadKind::CurrentSurrenderVotes => dec_as_currentsurrendervotes(b),
            PayloadKind::SurrenderDeclined => dec_as_surrenderdeclined(b),
            PayloadKind::SurrenderTimes => dec_as_surrendertimes(b),
            PayloadKind::SetFinalGameScore => dec_as_setfinalgamescore(b),
            PayloadKind::LockOnNotifier => dec_as_lockonnotifier(b),
            PayloadKind::TeleportActivateEffect => dec_as_teleportactivateeffect(b),
            PayloadKind::SpawnEmpLocator => dec_as_spawnemplocator(b),
            PayloadKind::NetworkStunnedMachineEffect => dec_as_networkstunnedmachineeffect(b),
            PayloadKind::SelectWeapon => dec_as_selectweapon(b),
            PayloadKind::PlayerIDs => dec_as_playerids(b),
            PayloadKind::HealAllyCubes => dec_as_healallycubes(b),
            PayloadKind::UpdateGameModeSettings => dec_as_updategamemodesettings(b),
            PayloadKind::UpdateTeamDeathMatch => dec_as_updateteamdeathmatch(b),
            PayloadKind::LoadingProgress => dec_as_loadingprogress(b),
            PayloadKind::EqualizerNotification => dec_as_equalizernotification(b),
            PayloadKind::Taunt => dec_as_taunt(b),
            PayloadKind::CommandOnly => dec_as_commandonly(b),
            PayloadKind::DestroyCubeEffectOnly => dec_as_destroycubeeffectonly(b),
            PayloadKind::DestroyCubeNoEffect => dec_as_destroycubenoeffect(b),
            PayloadKind::DestroyCubesFull => dec_as_destroycubesfull(b),
            PayloadKind::UpdateVotingAfterBattle => dec_as_updatevotingafterbattle(b),
            PayloadKind::CosmeticAction => dec_as_cosmeticaction(b),
        },
        None => Err(DecodeError::UnregisteredEvent),
    }
}

fn decode_event_spawnpoint(code: u8, mode: GameMode, bytes: &[u8]) -> (r: Result<
    (Payload, usize),
    DecodeError,
>)
    requires
        spec_resolve(code, mode) == Some(PayloadKind::SpawnPoint),
    ensures
        match r {
            Ok((p, used)) => spec_decode_event(code, mode, bytes@) == Ok::<
                (PayloadV, int),
                DecodeError,
            >((p.deep_view(), used as int)) && used <= bytes@.len(),
            Err(e) => spec_decode_event(code, mode, bytes@) == Err::<
                (PayloadV, int),
                DecodeError,
            >(e),
        },
{
    proof {
        reveal(dec_as_spawnpoint);
    }
    match SpawnPoint::decode(bytes, 0) {
        Ok((v, end)) => Ok((Payload::SpawnPoint(v), end)),
        Err(e) => Err(e),
    }
}

fn decode_event_getteambase(code: u8, mode: GameMode, bytes: &[u8]) -> (r: Result<
    (Payload, usize),
    DecodeError,
>)
    requires
        spec_resolve(code, mode) == Some(PayloadKind::GetTeamBase),
    ensures
        match r {
            Ok((p, used)) => spec_decode_event(code, mode, bytes@) == Ok::<
                (PayloadV, int),
                DecodeError,
            >((p.deep_view(), used as int)) && used <= bytes@.len(),
            Err(e) => spec_decode_event(code, mode, bytes@) == Err::<
                (PayloadV, int),
                DecodeError,
            >(e),
        },
{
    proof {
        reveal(dec_as_getteambase);
    }
    match GetTeamBase::decode(bytes, 0) {
        Ok((v, end)) => Ok((Payload::GetTeamBase(v), end)),
        Err(e) => Err(e),
    }
}

fn decode_event_getcapturepoints(code: u8, mode: GameMode, bytes: &[u8]) -> (r: Result<
    (Payload, usize),
    DecodeError,
>)
    requires
        spec_resolve(code, mode) == Some(PayloadKind::GetCapturePoints),
    ensures
        match r {
            Ok((p, used)) => spec_decode_event(code, mode, bytes@) == Ok::<
                (PayloadV, int),
                DecodeError,
            >((p.deep_view(), used as int)) && used <= bytes@.len(),
            Err(e) => spec_decode_event(code, mode, bytes@) == Err::<
                (PayloadV, int),
                DecodeError,
            >(e),
        },
{
    proof {
        reveal(dec_as_getcapturepoints);
    }
    match GetCapturePoints::decode(bytes, 0) {
        Ok((v, end)) => Ok((Payload::GetCapturePoints(v), end)),
        Err(e) => Err(e),
    }
}

fn decode_event_getequalizer(code: u8, mode: GameMode, bytes: &[u8]) -> (r: Result<
    (Payload, usize),
    DecodeError,
>)
    requires
        spec_resolve(code, mode) == Some(PayloadKind::GetEqualizer),
    ensures
        match r {
            Ok((p, used)) => spec_decode_event(code, mode, bytes@) == Ok::<
                (PayloadV, int),
                DecodeError,
            >((p.deep_view(), used as int)) && used <= bytes@.len(),
            Err(e) => spec_decode_event(code, mode, bytes@) == Err::<
                (PayloadV, int),
                DecodeError,
            >(e),
        },
{
    proof {
        reveal(dec_as_getequalizer);
    }
    match GetEqualizer::decode(bytes, 0) {
        Ok((v, end)) => Ok((Payload::GetEqualizer(v), end)),
        Err(e) => Err(e),
    }
}

fn decode_event_playeridsandnames(code: u8, mode: GameMode, bytes: &[u8]) -> (r: Result<
    (Payload, usize),
    DecodeError,
>)
    requires
        spec_resolve(code, mode) == Some(PayloadKind::PlayerIDsAndNames),
    ensures
        match r {
            Ok((p, used)) => spec_decode_event(code, mode, bytes@) == Ok::<
                (PayloadV, int),
                DecodeError,
            >((p.deep_view(), used as int)) && used <= bytes@.len(),
            Err(e) => spec_decode_event(code, mode, bytes@) == Err::<
                (PayloadV, int),
                DecodeError,
            >(e),
        },
{
    proof {
        reveal(dec_as_playeridsandnames);
    }
    match PlayerIDsAndNames::decode(bytes, 0) {
        Ok((v, end)) => Ok((Payload::PlayerIDsAndNames(v), end)),
        Err(e) => Err(e),
    }
}

fn decode_event_syncmachinecubes(code: u8, mode: GameMode, bytes: &[u8]) -> (r: Result<
    (Payload, usize),
    DecodeError,
>)
    requires
        spec_resolve(code, mode) == Some(PayloadKind::SyncMachineCubes),
    ensures
        match r {
            Ok((p, used)) => spec_decode_event(code, mode, bytes@) == Ok::<
                (PayloadV, int),
                DecodeError,
            >((p.deep_view(), used as int)) && used <= bytes@.len(),
            Err(e) => spec_decode_event(code, mode, bytes@) == Err::<
                (PayloadV, int),
                DecodeError,
            >(e),
        },
{
    proof {
        reveal(dec_as_syncmachinecubes);
    }
    match SyncMachineCubes::decode(bytes, 0) {
        Ok((v, end)) => Ok((Payload::SyncMachineCubes(v), end)),
        Err(e) => Err(e),
    }
}

fn decode_event_gamestart(code: u8, mode: GameMode, bytes: &[u8]) -> (r: Result<
    (Payload, usize),
    DecodeError,
>)
    requires
        spec_resolve(code, mode) == Some(PayloadKind::GameStart),
    ensures
        match r {
            Ok((p, used)) => spec_decode_event(code, mode, bytes@) == Ok::<
                (PayloadV, int),
                DecodeError,
            >((p.deep_view(), used as int)) && used <= bytes@.len(),
            Err(e) => spec_decode_event(code, mode, bytes@) == Err::<
                (PayloadV, int),
                DecodeError,
            >(e),
        },
{
    proof {
        reveal(dec_as_gamestart);
    }
    match GameStart::decode(bytes, 0) {
        Ok((v, end)) => Ok((Payload::GameStart(v), end)),
        Err(e) => Err(e),
    }
}

fn decode_event_multiplayerinputchanged(code: u8, mode: GameMode, bytes: &[u8]) -> (r: Result<
    (Payload, usize),
    DecodeError,
>)
    requires
        spec_resolve(code, mode) == Some(PayloadKind::MultiPlayerInputChanged),
    ensures
        match r {
            Ok((p, used)) => spec_decode_event(code, mode, bytes@) == Ok::<
                (PayloadV, int),
                DecodeError,
            >((p.deep_view(), used as int)) && used <= bytes@.len(),
            Err(e) => spec_decode_event(code, mode, bytes@) == Err::<
                (PayloadV, int),
                DecodeError,
            >(e),
        },
{
    proof {
        reveal(dec_as_multiplayerinputchanged);
    }
    match MultiPlayerInputChanged::decode(bytes, 0) {
        Ok((v, end)) => Ok((Payload::MultiPlayerInputChanged(v), end)),
        Err(e) => Err(e),
    }
}

fn decode_event_playerid(code: u8, mode: GameMode, bytes: &[u8]) -> (r: Result<
    (Payload, usize),
    DecodeError,
>)
    requires
        spec_resolve(code, mode) == Some(PayloadKind::PlayerId),
    ensures
        match r {
            Ok((p, used)) => spec_decode_event(code, mode, bytes@) == Ok::<
                (PayloadV, int),
                DecodeError,
            >((p.deep_view(), used as int)) && used <= bytes@.len(),
            Err(e) => spec_decode_event(code, mode, bytes@) == Err::<
                (PayloadV, int),
                DecodeError,
            >(e),
        },
{
    proof {
        reveal(dec_as_playerid);
    }
    match PlayerId::decode(bytes, 0) {
        Ok((v, end)) => Ok((Payload::PlayerId(v), end)),
        Err(e) => Err(e),
    }
}

fn decode_event_weaponfireeffect(code: u8, mode: GameMode, bytes: &[u8]) -> (r: Result<
    (Payload, usize),
    DecodeError,
>)
    requires
        spec_resolve(code, mode) == Some(PayloadKind::WeaponFireEffect),
    ensures
        match r {
            Ok((p, used)) => spec_decode_event(code, mode, bytes@) == Ok::<
                (PayloadV, int),
                DecodeError,
            >((p.deep_view(), used as int)) && used <= bytes@.len(),
            Err(e) => spec_decode_event(code, mode, bytes@) == Err::<
                (PayloadV, int),
                DecodeError,
            >(e),
        },
{
    proof {
        reveal(dec_as_weaponfireeffect);
    }
    match WeaponFireEffect::decode(bytes, 0) {
        Ok((v, end)) => Ok((Payload::WeaponFireEffect(v), end)),
        Err(e) => Err(e),
    }
}

fn decode_event_firemiss(code: u8, mode: GameMode, bytes: &[u8]) -> (r: Result<
    (Payload, usize),
    DecodeError,
>)
    requires
        spec_resolve(code, mode) == Some(PayloadKind::FireMiss),
    ensures
        match r {
            Ok((p, used)) => spec_decode_event(code, mode, bytes@) == Ok::<
                (PayloadV, int),
                DecodeError,
            >((p.deep_view(), used as int)) && used <= bytes@.len(),
            Err(e) => spec_decode_event(code, mode, bytes@) == Err::<
                (PayloadV, int),
                DecodeError,
            >(e),
        },
{
    proof {
        reveal(dec_as_firemiss);
    }
    match FireMiss::decode(bytes, 0) {
        Ok((v, end)) => Ok((Payload::FireMiss(v), end)),
        Err(e) => Err(e),
    }
}

fn decode_event_multiplefiremisses(code: u8, mode: GameMode, bytes: &[u8]) -> (r: Result<
    (Payload, usize),
    DecodeError,
>)
    requires
        spec_resolve(code, mode) == Some(PayloadKind::MultipleFireMisses),
    ensures
        match r {
            Ok((p, used)) => spec_decode_event(code, mode, bytes@) == Ok::<
                (PayloadV, int),
                DecodeError,
            >((p.deep_view(), used as int)) && used <= bytes@.len(),
            Err(e) => spec_decode_event(code, mode, bytes@) == Err::<
                (PayloadV, int),
                DecodeError,
            >(e),
        },
{
    proof {
        reveal(dec_as_multiplefiremisses);
    }
    match MultipleFireMisses::decode(bytes, 0) {
        Ok((v, end)) => Ok((Payload::MultipleFireMisses(v), end)),
        Err(e) => Err(e),
    }
}

fn decode_event_gametime(code: u8, mode: GameMode, bytes: &[u8]) -> (r: Result<
    (Payload, usize),
    DecodeError,
>)
    requires
        spec_resolve(code, mode) == Some(PayloadKind::GameTime),
    ensures
        match r {
            Ok((p, used)) => spec_decode_event(code, mode, bytes@) == Ok::<
                (PayloadV, int),
                DecodeError,
            >((p.deep_view(), used as int)) && used <= bytes@.len(),
            Err(e) => spec_decode_event(code, mode, bytes@) == Err::<
                (PayloadV, int),
                DecodeError,
            >(e),
        },
{
    proof {
        reveal(dec_as_gametime);
    }
    match GameTime::decode(bytes, 0) {
        Ok((v, end)) => Ok((Payload::GameTime(v), end)),
        Err(e) => Err(e),
    }
}

fn decode_event_gameend(code: u8, mode: GameMode, bytes: &[u8]) -> (r: Result<
    (Payload, usize),
    DecodeError,
>)
    requires
        spec_resolve(code, mode) == Some(PayloadKind::GameEnd),
    ensures
        match r {
            Ok((p, used)) => spec_decode_event(code, mode, bytes@) == Ok::<
                (PayloadV, int),
                DecodeError,
            >((p.deep_view(), used as int)) && used <= bytes@.len(),
            Err(e) => spec_decode_event(code, mode, bytes@) == Err::<
                (PayloadV, int),
                DecodeError,
            >(e),
        },
{
    proof {
        reveal(dec_as_gameend);
    }
    match GameEnd::decode(bytes, 0) {
        Ok((v, end)) => Ok((Payload::GameEnd(v), end)),
        Err(e) => Err(e),
    }
}

fn decode_event_gamelosewin(code: u8, mode: GameMode, bytes: &[u8]) -> (r: Result<
    (Payload, usize),
    DecodeError,
>)
    requires
        spec_resolve(code, mode) == Some(PayloadKind::GameLoseWin),
    ensures
        match r {
            Ok((p, used)) => spec_decode_event(code, mode, bytes@) == Ok::<
                (PayloadV, int),
                DecodeError,
            >((p.deep_view(), used as int)) && used <= bytes@.len(),
            Err(e) => spec_decode_event(code, mode, bytes@) == Err::<
                (PayloadV, int),
                DecodeError,
            >(e),
        },
{
    proof {
        reveal(dec_as_gamelosewin);
    }
    match GameLoseWin::decode(bytes, 0) {
        Ok((v, end)) => Ok((Payload::GameLoseWin(v), end)),
        Err(e) => Err(e),
    }
}

fn decode_event_respawntime(code: u8, mode: GameMode, bytes: &[u8]) -> (r: Result<
    (Payload, usize),
    DecodeError,
>)
    requires
        spec_resolve(code, mode) == Some(PayloadKind::RespawnTime),
    ensures
        match r {
            Ok((p, used)) => spec_decode_event(code, mode, bytes@) == Ok::<
                (PayloadV, int),
                DecodeError,
            >((p.deep_view(), used as int)) && used <= bytes@.len(),
            Err(e) => spec_decode_event(code, mode, bytes@) == Err::<
                (PayloadV, int),
                DecodeError,
            >(e),
        },
{
    proof {
        reveal(dec_as_respawntime);
    }
    match RespawnTime::decode(bytes, 0) {
        Ok((v, end)) => Ok((Payload::RespawnTime(v), end)),
        Err(e) => Err(e),
    }
}

fn decode_event_teambasestate(code: u8, mode: GameMode, bytes: &[u8]) -> (r: Result<
    (Payload, usize),
    DecodeError,
>)
    requires
        spec_resolve(code, mode) == Some(PayloadKind::TeamBaseState),
    ensures
        match r {
            Ok((p, used)) => spec_decode_event(code, mode, bytes@) == Ok::<
                (PayloadV, int),
                DecodeError,
            >((p.deep_view(), used as int)) && used <= bytes@.len(),
            Err(e) => spec_decode_event(code, mode, bytes@) == Err::<
                (PayloadV, int),
                DecodeError,
            >(e),
        },
{
    proof {
        reveal(dec_as_teambasestate);
    }
    match TeamBaseState::decode(bytes, 0) {
        Ok((v, end)) => Ok((Payload::TeamBaseState(v), end)),
        Err(e) => Err(e),
    }
}

fn decode_event_requestping(code: u8, mode: GameMode, bytes: &[u8]) -> (r: Result<
    (Payload, usize),
    DecodeError,
>)
    requires
        spec_resolve(code, mode) == Some(PayloadKind::RequestPing),
    ensures
        match r {
            Ok((p, used)) => spec_decode_event(code, mode, bytes@) == Ok::<
                (PayloadV, int),
                DecodeError,
            >((p.deep_view(), used as int)) && used <= bytes@.len(),
            Err(e) => spec_decode_event(code, mode, bytes@) == Err::<
                (PayloadV, int),
                DecodeError,
            >(e),
        },
{
    proof {
        reveal(dec_as_requestping);
    }
    match RequestPing::decode(bytes, 0) {
        Ok((v, end)) => Ok((Payload::RequestPing(v), end)),
        Err(e) => Err(e),
    }
}

fn decode_event_stringcode(code: u8, mode: GameMode, bytes: &[u8]) -> (r: Result<
    (Payload, usize),
    DecodeError,
>)
    requires
        spec_resolve(code, mode) == Some(PayloadKind::StringCode),
    ensures
        match r {
            Ok((p, used)) => spec_decode_event(code, mode, bytes@) == Ok::<
                (PayloadV, int),
                DecodeError,
            >((p.deep_view(), used as int)) && used <= bytes@.len(),
            Err(e) => spec_decode_event(code, mode, bytes@) == Err::<
                (PayloadV, int),
                DecodeError,
            >(e),
        },
{
    proof {
        reveal(dec_as_stringcode);
    }
    match StringCode::decode(bytes, 0) {
        Ok((v, end)) => Ok((Payload::StringCode(v), end)),
        Err(e) => Err(e),
    }
}

fn decode_event_teambaseboolean(code: u8, mode: GameMode, bytes: &[u8]) -> (r: Result<
    (Payload, usize),
    DecodeError,
>)
    requires
        spec_resolve(code, mode) == Some(PayloadKind::TeamBaseBoolean),
    ensures
        match r {
            Ok((p, used)) => spec_decode_event(code, mode, bytes@) == Ok::<
                (PayloadV, int),
                DecodeError,
            >((p.deep_view(), used as int)) && used <= bytes@.len(),
            Err(e) => spec_decode_event(code, mode, bytes@) == Err::<
                (PayloadV, int),
                DecodeError,
            >(e),
        },
{
    proof {
        reveal(dec_as_teambaseboolean);
    }
    match TeamBaseBoolean::decode(bytes, 0) {
        Ok((v, end)) => Ok((Payload::TeamBaseBoolean(v), end)),
        Err(e) => Err(e),
    }
}

fn decode_event_kill(code: u8, mode: GameMode, bytes: &[u8]) -> (r: Result<
    (Payload, usize),
    DecodeError,
>)
    requires
        spec_resolve(code, mode) == Some(PayloadKind::Kill),
    ensures
        match r {
            Ok((p, used)) => spec_decode_event(code, mode, bytes@) == Ok::<
                (PayloadV, int),
                DecodeError,
            >((p.deep_view(), used as int)) && used <= bytes@.len(),
            Err(e) => spec_decode_event(code, mode, bytes@) == Err::<
                (PayloadV, int),
                DecodeError,
            >(e),
        },
{
    proof {
        reveal(dec_as_kill);
    }
    match Kill::decode(bytes, 0) {
        Ok((v, end)) => Ok((Payload::Kill(v), end)),
        Err(e) => Err(e),
    }
}

fn decode_event_fusionshieldstate(code: u8, mode: GameMode, bytes: &[u8]) -> (r: Result<
    (Payload, usize),
    DecodeError,
>)
    requires
        spec_resolve(code, mode) == Some(PayloadKind::FusionShieldState),
    ensures
        match r {
            Ok((p, used)) => spec_decode_event(code, mode, bytes@) == Ok::<
                (PayloadV, int),
                DecodeError,
            >((p.deep_view(), used as int)) && used <= bytes@.len(),
            Err(e) => spec_decode_event(code, mode, bytes@) == Err::<
                (PayloadV, int),
                DecodeError,
            >(e),
        },
{
    proof {
        reveal(dec_as_fusionshieldstate);
    }
    match FusionShieldState::decode(bytes, 0) {
        Ok((v, end)) => Ok((Payload::FusionShieldState(v), end)),
        Err(e) => Err(e),
    }
}

fn decode_event_initialisegamestats(code: u8, mode: GameMode, bytes: &[u8]) -> (r: Result<
    (Payload, usize),
    DecodeError,
>)
    requires
        spec_resolve(code, mode) == Some(PayloadKind::InitialiseGameStats),
    ensures
        match r {
            Ok((p, used)) => spec_decode_event(code, mode, bytes@) == Ok::<
                (PayloadV, int),
                DecodeError,
            >((p.deep_view(), used as int)) && used <= bytes@.len(),
            Err(e) => spec_decode_event(code, mode, bytes@) == Err::<
                (PayloadV, int),
                DecodeError,
            >(e),
        },
{
    proof {
        reveal(dec_as_initialisegamestats);
    }
    match InitialiseGameStats::decode(bytes, 0) {
        Ok((v, end)) => Ok((Payload::InitialiseGameStats(v), end)),
        Err(e) => Err(e),
    }
}

fn decode_event_updategamestats(code: u8, mode: GameMode, bytes: &[u8]) -> (r: Result<
    (Payload, usize),
    DecodeError,
>)
    requires
        spec_resolve(code, mode) == Some(PayloadKind::UpdateGameStats),
    ensures
        match r {
            Ok((p, used)) => spec_decode_event(code, mode, bytes@) == Ok::<
                (PayloadV, int),
                DecodeError,
            >((p.deep_view(), used as int)) && used <= bytes@.len(),
            Err(e) => spec_decode_event(code, mode, bytes@) == Err::<
                (PayloadV, int),
                DecodeError,
            >(e),
        },
{
    proof {
        reveal(dec_as_updategamestats);
    }
    match UpdateGameStats::decode(bytes, 0) {
        Ok((v, end)) => Ok((Payload::UpdateGameStats(v), end)),
        Err(e) => Err(e),
    }
}

fn decode_event_mapping(code: u8, mode: GameMode, bytes: &[u8]) -> (r: Result<
    (Payload, usize),
    DecodeError,
>)
    requires
        spec_resolve(code, mode) == Some(PayloadKind::MapPing),
    ensures
        match r {
            Ok((p, used)) => spec_decode_event(code, mode, bytes@) == Ok::<
                (PayloadV, int),
                DecodeError,
            >((p.deep_view(), used as int)) && used <= bytes@.len(),
            Err(e) => spec_decode_event(code, mode, bytes@) == Err::<
                (PayloadV, int),
                DecodeError,
            >(e),
        },
{
    proof {
        reveal(dec_as_mapping);
    }
    match MapPing::decode(bytes, 0) {
        Ok((v, end)) => Ok((Payload::MapPing(v), end)),
        Err(e) => Err(e),
    }
}

fn decode_event_healedcubes(code: u8, mode: GameMode, bytes: &[u8]) -> (r: Result<
    (Payload, usize),
    DecodeError,
>)
    requires
        spec_resolve(code, mode) == Some(PayloadKind::HealedCubes),
    ensures
        match r {
            Ok((p, used)) => spec_decode_event(code, mode, bytes@) == Ok::<
                (PayloadV, int),
                DecodeError,
            >((p.deep_view(), used as int)) && used <= bytes@.len(),
            Err(e) => spec_decode_event(code, mode, bytes@) == Err::<
                (PayloadV, int),
                DecodeError,
            >(e),
        },
{
    proof {
        reveal(dec_as_healedcubes);
    }
    match HealedCubes::decode(bytes, 0) {
        Ok((v, end)) => Ok((Payload::HealedCubes(v), end)),
        Err(e) => Err(e),
    }
}

fn decode_event_currentsurrendervotes(code: u8, mode: GameMode, bytes: &[u8]) -> (r: Result<
    (Payload, usize),
    DecodeError,
>)
    requires
        spec_resolve(code, mode) == Some(PayloadKind::CurrentSurrenderVotes),
    ensures
        match r {
            Ok((p, used)) => spec_decode_event(code, mode, bytes@) == Ok::<
                (PayloadV, int),
                DecodeError,
            >((p.deep_view(), used as int)) && used <= bytes@.len(),
            Err(e) => spec_decode_event(code, mode, bytes@) == Err::<
                (PayloadV, int),
                DecodeError,
            >(e),
        },
{
    proof {
        reveal(dec_as_currentsurrendervotes);
    }
    match CurrentSurrenderVotes::decode(bytes, 0) {
        Ok((v, end)) => Ok((Payload::CurrentSurrenderVotes(v), end)),
        Err(e) => Err(e),
    }
}

fn decode_event_surrenderdeclined(code: u8, mode: GameMode, bytes: &[u8]) -> (r: Result<
    (Payload, usize),
    DecodeError,
>)
    requires
        spec_resolve(code, mode) == Some(PayloadKind::SurrenderDeclined),
    ensures
        match r {
            Ok((p, used)) => spec_decode_event(code, mode, bytes@) == Ok::<
                (PayloadV, int),
                DecodeError,
            >((p.deep_view(), used as int)) && used <= bytes@.len(),
            Err(e) => spec_decode_event(code, mode, bytes@) == Err::<
                (PayloadV, int),
                DecodeError,
            >(e),
        },
{
    proof {
        reveal(dec_as_surrenderdeclined);
    }
    match SurrenderDeclined::decode(bytes, 0) {
        Ok((v, end)) => Ok((Payload::SurrenderDeclined(v), end)),
        Err(e) => Err(e),
    }
}

fn decode_event_surrendertimes(code: u8, mode: GameMode, bytes: &[u8]) -> (r: Result<
    (Payload, usize),
    DecodeError,
>)
    requires
        spec_resolve(code, mode) == Some(PayloadKind::SurrenderTimes),
    ensures
        match r {
            Ok((p, used)) => spec_decode_event(code, mode, bytes@) == Ok::<
                (PayloadV, int),
                DecodeError,
            >((p.deep_view(), used as int)) && used <= bytes@.len(),
            Err(e) => spec_decode_event(code, mode, bytes@) == Err::<
                (PayloadV, int),
                DecodeError,
            >(e),
        },
{
    proof {
        reveal(dec_as_surrendertimes);
    }
    match SurrenderTimes::decode(bytes, 0) {
        Ok((v, end)) => Ok((Payload::SurrenderTimes(v), end)),
        Err(e) => Err(e),
    }
}

fn decode_event_setfinalgamescore(code: u8, mode: GameMode, bytes: &[u8]) -> (r: Result<
    (Payload, usize),
    DecodeError,
>)
    requires
        spec_resolve(code, mode) == Some(PayloadKind::SetFinalGameScore),
    ensures
        match r {
            Ok((p, used)) => spec_decode_event(code, mode, bytes@) == Ok::<
                (PayloadV, int),
                DecodeError,
            >((p.deep_view(), used as int)) && used <= bytes@.len(),
            Err(e) => spec_decode_event(code, mode, bytes@) == Err::<
                (PayloadV, int),
                DecodeError,
            >(e),
        },
{
    proof {
        reveal(dec_as_setfinalgamescore);
    }
    match SetFinalGameScore::decode(bytes, 0) {
        Ok((v, end)) => Ok((Payload::SetFinalGameScore(v), end)),
        Err(e) => Err(e),
    }
}

fn decode_event_lockonnotifier(code: u8, mode: GameMode, bytes: &[u8]) -> (r: Result<
    (Payload, usize),
    DecodeError,
>)
    requires
        spec_resolve(code, mode) == Some(PayloadKind::LockOnNotifier),
    ensures
        match r {
            Ok((p, used)) => spec_decode_event(code, mode, bytes@) == Ok::<
                (PayloadV, int),
                DecodeError,
            >((p.deep_view(), used as int)) && used <= bytes@.len(),
            Err(e) => spec_decode_event(code, mode, bytes@) == Err::<
                (PayloadV, int),
                DecodeError,
            >(e),
        },
{
    proof {
        reveal(dec_as_lockonnotifier);
    }
    match LockOnNotifier::decode(bytes, 0) {
        Ok((v, end)) => Ok((Payload::LockOnNotifier(v), end)),
        Err(e) => Err(e),
    }
}

fn decode_event_teleportactivateeffect(code: u8, mode: GameMode, bytes: &[u8]) -> (r: Result<
    (Payload, usize),
    DecodeError,
>)
    requires
        spec_resolve(code, mode) == Some(PayloadKind::TeleportActivateEffect),
    ensures
        match r {
            Ok((p, used)) => spec_decode_event(code, mode, bytes@) == Ok::<
                (PayloadV, int),
                DecodeError,
            >((p.deep_view(), used as int)) && used <= bytes@.len(),
            Err(e) => spec_decode_event(code, mode, bytes@) == Err::<
                (PayloadV, int),
                DecodeError,
            >(e),
        },
{
    proof {
        reveal(dec_as_teleportactivateeffect);
    }
    match TeleportActivateEffect::decode(bytes, 0) {
        Ok((v, end)) => Ok((Payload::TeleportActivateEffect(v), end)),
        Err(e) => Err(e),
    }
}

fn decode_event_spawnemplocator(code: u8, mode: GameMode, bytes: &[u8]) -> (r: Result<
    (Payload, usize),
    DecodeError,
>)
    requires
        spec_resolve(code, mode) == Some(PayloadKind::SpawnEmpLocator),
    ensures
        match r {
            Ok((p, used)) => spec_decode_event(code, mode, bytes@) == Ok::<
                (PayloadV, int),
                DecodeError,
            >((p.deep_view(), used as int)) && used <= bytes@.len(),
            Err(e) => spec_decode_event(code, mode, bytes@) == Err::<
                (PayloadV, int),
                DecodeError,
            >(e),
        },
{
    proof {
        reveal(dec_as_spawnemplocator);
    }
    match SpawnEmpLocator::decode(bytes, 0) {
        Ok((v, end)) => Ok((Payload::SpawnEmpLocator(v), end)),
        Err(e) => Err(e),
    }
}

fn decode_event_networkstunnedmachineeffect(code: u8, mode: GameMode, bytes: &[u8]) -> (r: Result<
    (Payload, usize),
    DecodeError,
>)
    requires
        spec_resolve(code, mode) == Some(PayloadKind::NetworkStunnedMachineEffect),
    ensures
        match r {
            Ok((p, used)) => spec_decode_event(code, mode, bytes@) == Ok::<
                (PayloadV, int),
                DecodeError,
            >((p.deep_view(), used as int)) && used <= bytes@.len(),
            Err(e) => spec_decode_event(code, mode, bytes@) == Err::<
                (PayloadV, int),
                DecodeError,
            >(e),
        },
{
    proof {
        reveal(dec_as_networkstunnedmachineeffect);
    }
    match NetworkStunnedMachineEffect::decode(bytes, 0) {
        Ok((v, end)) => Ok((Payload::NetworkStunnedMachineEffect(v), end)),
        Err(e) => Err(e),
    }
}

fn decode_event_selectweapon(code: u8, mode: GameMode, bytes: &[u8]) -> (r: Result<
    (Payload, usize),
    DecodeError,
>)
    requires
        spec_resolve(code, mode) == Some(PayloadKind::SelectWeapon),
    ensures
        match r {
            Ok((p, used)) => spec_decode_event(code, mode, bytes@) == Ok::<
                (PayloadV, int),
                DecodeError,
            >((p.deep_view(), used as int)) && used <= bytes@.len(),
            Err(e) => spec_decode_event(code, mode, bytes@) == Err::<
                (PayloadV, int),
                DecodeError,
            >(e),
        },
{
    proof {
        reveal(dec_as_selectweapon);
    }
    match SelectWeapon::decode(bytes, 0) {
        Ok((v, end)) => Ok((Payload::SelectWeapon(v), end)),
        Err(e) => Err(e),
    }
}

fn decode_event_playerids(code: u8, mode: GameMode, bytes: &[u8]) -> (r: Result<
    (Payload, usize),
    DecodeError,
>)
    requires
        spec_resolve(code, mode) == Some(PayloadKind::PlayerIDs),
    ensures
        match r {
            Ok((p, used)) => spec_decode_event(code, mode, bytes@) == Ok::<
                (PayloadV, int),
                DecodeError,
            >((p.deep_view(), used as int)) && used <= bytes@.len(),
            Err(e) => spec_decode_event(code, mode, bytes@) == Err::<
                (PayloadV, int),
                DecodeError,
            >(e),
        },
{
    proof {
        reveal(dec_as_playerids);
    }
    match PlayerIDs::decode(bytes, 0) {
        Ok((v, end)) => Ok((Payload::PlayerIDs(v), end)),
        Err(e) => Err(e),
    }
}

fn decode_event_healallycubes(code: u8, mode: GameMode, bytes: &[u8]) -> (r: Result<
    (Payload, usize),
    DecodeError,
>)
    requires
        spec_resolve(code, mode) == Some(PayloadKind::HealAllyCubes),
    ensures
        match r {
            Ok((p, used)) => spec_decode_event(code, mode, bytes@) == Ok::<
                (PayloadV, int),
                DecodeError,
            >((p.deep_view(), used as int)) && used <= bytes@.len(),
            Err(e) => spec_decode_event(code, mode, bytes@) == Err::<
                (PayloadV, int),
                DecodeError,
            >(e),
        },
{
    proof {
        reveal(dec_as_healallycubes);
    }
    match HealAllyCubes::decode(bytes, 0) {
        Ok((v, end)) => Ok((Payload::HealAllyCubes(v), end)),
        Err(e) => Err(e),
    }
}

fn decode_event_updategamemodesettings(code: u8, mode: GameMode, bytes: &[u8]) -> (r: Result<
    (Payload, usize),
    DecodeError,
>)
    requires
        spec_resolve(code, mode) == Some(PayloadKind::UpdateGameModeSettings),
    ensures
        match r {
            Ok((p, used)) => spec_decode_event(code, mode, bytes@) == Ok::<
                (PayloadV, int),
                DecodeError,
            >((p.deep_view(), used as int)) && used <= bytes@.len(),
            Err(e) => spec_decode_event(code, mode, bytes@) == Err::<
                (PayloadV, int),
                DecodeError,
            >(e),
        },
{
    proof {
        reveal(dec_as_updategamemodesettings);
    }
    match UpdateGameModeSettings::decode(bytes, 0) {
        Ok((v, end)) => Ok((Payload::UpdateGameModeSettings(v), end)),
        Err(e) => Err(e),
    }
}

fn decode_event_updateteamdeathmatch(code: u8, mode: GameMode, bytes: &[u8]) -> (r: Result<
    (Payload, usize),
    DecodeError,
>)
    requires
        spec_resolve(code, mode) == Some(PayloadKind::UpdateTeamDeathMatch),
    ensures
        match r {
            Ok((p, used)) => spec_decode_event(code, mode, bytes@) == Ok::<
                (PayloadV, int),
                DecodeError,
            >((p.deep_view(), used as int)) && used <= bytes@.len(),
            Err(e) => spec_decode_event(code, mode, bytes@) == Err::<
                (PayloadV, int),
                DecodeError,
            >(e),
        },
{
    proof {
        reveal(dec_as_updateteamdeathmatch);
    }
    match UpdateTeamDeathMatch::decode(bytes, 0) {
        Ok((v, end)) => Ok((Payload::UpdateTeamDeathMatch(v), end)),
        Err(e) => Err(e),
    }
}

fn decode_event_loadingprogress(code: u8, mode: GameMode, bytes: &[u8]) -> (r: Result<
    (Payload, usize),
    DecodeError,
>)
    requires
        spec_resolve(code, mode) == Some(PayloadKind::LoadingProgress),
    ensures
        match r {
            Ok((p, used)) => spec_decode_event(code, mode, bytes@) == Ok::<
                (PayloadV, int),
                DecodeError,
            >((p.deep_view(), used as int)) && used <= bytes@.len(),
            Err(e) => spec_decode_event(code, mode, bytes@) == Err::<
                (PayloadV, int),
                DecodeError,
            >(e),
        },
{
    proof {
        reveal(dec_as_loadingprogress);
    }
    match LoadingProgress::decode(bytes, 0) {
        Ok((v, end)) => Ok((Payload::LoadingProgress(v), end)),
        Err(e) => Err(e),
    }
}

fn decode_event_equalizernotification(code: u8, mode: GameMode, bytes: &[u8]) -> (r: Result<
    (Payload, usize),
    DecodeError,
>)
    requires
        spec_resolve(code, mode) == Some(PayloadKind::EqualizerNotification),
    ensures
        match r {
            Ok((p, used)) => spec_decode_event(code, mode, bytes@) == Ok::<
                (PayloadV, int),
                DecodeError,
            >((p.deep_view(), used as int)) && used <= bytes@.len(),
            Err(e) => spec_decode_event(code, mode, bytes@) == Err::<
                (PayloadV, int),
                DecodeError,
            >(e),
        },
{
    proof {
        reveal(dec_as_equalizernotification);
    }
    match EqualizerNotification::decode(bytes, 0) {
        Ok((v, end)) => Ok((Payload::EqualizerNotification(v), end)),
        Err(e) => Err(e),
    }
}

fn decode_event_taunt(code: u8, mode: GameMode, bytes: &[u8]) -> (r: Result<
    (Payload, usize),
    DecodeError,
>)
    requires
        spec_resolve(code, mode) == Some(PayloadKind::Taunt),
    ensures
        match r {
            Ok((p, used)) => spec_decode_event(code, mode, bytes@) == Ok::<
                (PayloadV, int),
                DecodeError,
            >((p.deep_view(), used as int)) && used <= bytes@.len(),
            Err(e) => spec_decode_event(code, mode, bytes@) == Err::<
                (PayloadV, int),
                DecodeError,
            >(e),
        },
{
    proof {
        reveal(dec_as_taunt);
    }
    match Taunt::decode(bytes, 0) {
        Ok((v, end)) => Ok((Payload::Taunt(v), end)),
        Err(e) => Err(e),
    }
}

fn decode_event_commandonly(code: u8, mode: GameMode, bytes: &[u8]) -> (r: Result<
    (Payload, usize),
    DecodeError,
>)
    requires
        spec_resolve(code, mode) == Some(PayloadKind::CommandOnly),
    ensures
        match r {
            Ok((p, used)) => spec_decode_event(code, mode, bytes@) == Ok::<
                (PayloadV, int),
                DecodeError,
            >((p.deep_view(), used as int)) && used <= bytes@.len(),
            Err(e) => spec_decode_event(code, mode, bytes@) == Err::<
                (PayloadV, int),
                DecodeError,
            >(e),
        },
{
    proof {
        reveal(dec_as_commandonly);
    }
    match CommandOnly::decode(bytes, 0) {
        Ok((v, end)) => Ok((Payload::CommandOnly(v), end)),
        Err(e) => Err(e),
    }
}

fn decode_event_destroycubeeffectonly(code: u8, mode: GameMode, bytes: &[u8]) -> (r: Result<
    (Payload, usize),
    DecodeError,
>)
    requires
        spec_resolve(code, mode) == Some(PayloadKind::DestroyCubeEffectOnly),
    ensures
        match r {
            Ok((p, used)) => spec_decode_event(code, mode, bytes@) == Ok::<
                (PayloadV, int),
                DecodeError,
            >((p.deep_view(), used as int)) && used <= bytes@.len(),
            Err(e) => spec_decode_event(code, mode, bytes@) == Err::<
                (PayloadV, int),
                DecodeError,
            >(e),
        },
{
    proof {
        reveal(dec_as_destroycubeeffectonly);
    }
    match DestroyCubeEffectOnly::decode(bytes, 0) {
        Ok((v, end)) => Ok((Payload::DestroyCubeEffectOnly(v), end)),
        Err(e) => Err(e),
    }
}

fn decode_event_destroycubenoeffect(code: u8, mode: GameMode, bytes: &[u8]) -> (r: Result<
    (Payload, usize),
    DecodeError,
>)
    requires
        spec_resolve(code, mode) == Some(PayloadKind::DestroyCubeNoEffect),
    ensures
        match r {
            Ok((p, used)) => spec_decode_event(code, mode, bytes@) == Ok::<
                (PayloadV, int),
                DecodeError,
            >((p.deep_view(), used as int)) && used <= bytes@.len(),
            Err(e) => spec_decode_event(code, mode, bytes@) == Err::<
                (PayloadV, int),
                DecodeError,
            >(e),
        },
{
    proof {
        reveal(dec_as_destroycubenoeffect);
    }
    match DestroyCubeNoEffect::decode(bytes, 0) {
        Ok((v, end)) => Ok((Payload::DestroyCubeNoEffect(v), end)),
        Err(e) => Err(e),
    }
}

fn decode_event_destroycubesfull(code: u8, mode: GameMode, bytes: &[u8]) -> (r: Result<
    (Payload, usize),
    DecodeError,
>)
    requires
        spec_resolve(code, mode) == Some(PayloadKind::DestroyCubesFull),
    ensures
        match r {
            Ok((p, used)) => spec_decode_event(code, mode, bytes@) == Ok::<
                (PayloadV, int),
                DecodeError,
            >((p.deep_view(), used as int)) && used <= bytes@.len(),
            Err(e) => spec_decode_event(code, mode, bytes@) == Err::<
                (PayloadV, int),
                DecodeError,
            >(e),
        },
{
    proof {
        reveal(dec_as_destroycubesfull);
    }
    match DestroyCubesFull::decode(bytes, 0) {
        Ok((v, end)) => Ok((Payload::DestroyCubesFull(v), end)),
        Err(e) => Err(e),
    }
}

fn decode_event_updatevotingafterbattle(code: u8, mode: GameMode, bytes: &[u8]) -> (r: Result<
    (Payload, usize),
    DecodeError,
>)
    requires
        spec_resolve(code, mode) == Some(PayloadKind::UpdateVotingAfterBattle),
    ensures
        match r {
            Ok((p, used)) => spec_decode_event(code, mode, bytes@) == Ok::<
                (PayloadV, int),
                DecodeError,
            >((p.deep_view(), used as int)) && used <= bytes@.len(),
            Err(e) => spec_decode_event(code, mode, bytes@) == Err::<
                (PayloadV, int),
                DecodeError,
            >(e),
        },
{
    proof {
        reveal(dec_as_updatevotingafterbattle);
    }
    match UpdateVotingAfterBattle::decode(bytes, 0) {
        Ok((v, end)) => Ok((Payload::UpdateVotingAfterBattle(v), end)),
        Err(e) => Err(e),
    }
}

fn decode_event_cosmeticaction(code: u8, mode: GameMode, bytes: &[u8]) -> (r: Result<
    (Payload, usize),
    DecodeError,
>)
    requires
        spec_resolve(code, mode) == Some(PayloadKind::CosmeticAction),
    ensures
        match r {
            Ok((p, used)) => spec_decode_event(code, mode, bytes@) == Ok::<
                (PayloadV, int),
                DecodeError,
            >((p.deep_view(), used as int)) && used <= bytes@.len(),
            Err(e) => spec_decode_event(code, mode, bytes@) == Err::<
                (PayloadV, int),
                DecodeError,
            >(e),
        },
{
    proof {
        reveal(dec_as_cosmeticaction);
    }
    match CosmeticAction::decode(bytes, 0) {
        Ok((v, end)) => Ok((Payload::CosmeticAction(v), end)),
        Err(e) => Err(e),
    }
}

/// Decode one event's payload under the registry. The caller learns
/// how many bytes the schema consumed, so trailing bytes are
/// observable; [`decode_event_exact`] makes them an error.
pub fn decode_event(code: u8, mode: GameMode, bytes: &[u8]) -> (r: Result<
    (Payload, usize),
    DecodeError,
>)
    ensures
        match r {
            Ok((p, used)) => spec_decode_event(code, mode, bytes@) == Ok::<
                (PayloadV, int),
                DecodeError,
            >((p.deep_view(), used as int)) && used <= bytes@.len(),
            Err(e) => spec_decode_event(code, mode, bytes@) == Err::<
                (PayloadV, int),
                DecodeError,
            >(e),
        },
        spec_resolve(code, mode) is None ==> r == Err::<(Payload, usize), DecodeError>(
            DecodeError::UnregisteredEvent,
        ),
{
    let kind = match resolve(code, mode) {
        Some(k) => k,
        None => {
            return Err(DecodeError::UnregisteredEvent);
        },
    };
    match kind {
        PayloadKind::SpawnPoint => decode_event_spawnpoint(code, mode, bytes),
        PayloadKind::GetTeamBase => decode_event_getteambase(code, mode, bytes),
        PayloadKind::GetCapturePoints => decode_event_getcapturepoints(code, mode, bytes),
        PayloadKind::GetEqualizer => decode_event_getequalizer(code, mode, bytes),
        PayloadKind::PlayerIDsAndNames => decode_event_playeridsandnames(code, mode, bytes),
        PayloadKind::SyncMachineCubes => decode_event_syncmachinecubes(code, mode, bytes),
        PayloadKind::GameStart => decode_event_gamestart(code, mode, bytes),
        PayloadKind::MultiPlayerInputChanged => decode_event_multiplayerinputchanged(code, mode, bytes),
        PayloadKind::PlayerId => decode_event_playerid(code, mode, bytes),
        PayloadKind::WeaponFireEffect => decode_event_weaponfireeffect(code, mode, bytes),
        PayloadKind::FireMiss => decode_event_firemiss(code, mode, bytes),
        PayloadKind::MultipleFireMisses => decode_event_multiplefiremisses(code, mode, bytes),
        PayloadKind::GameTime => decode_event_gametime(code, mode, bytes),
        PayloadKind::GameEnd => decode_event_gameend(code, mode, bytes),
        PayloadKind::GameLoseWin => decode_event_gamelosewin(code, mode, bytes),
        PayloadKind::RespawnTime => decode_event_respawntime(code, mode, bytes),
        PayloadKind::TeamBaseState => decode_event_teambasestate(code, mode, bytes),
        PayloadKind::RequestPing => decode_event_requestping(code, mode, bytes),
        PayloadKind::StringCode => decode_event_stringcode(code, mode, bytes),
        PayloadKind::TeamBaseBoolean => decode_event_teambaseboolean(code, mode, bytes),
        PayloadKind::Kill => decode_event_kill(code, mode, bytes),
        PayloadKind::FusionShieldState => decode_event_fusionshieldstate(code, mode, bytes),
        PayloadKind::InitialiseGameStats => decode_event_initialisegamestats(code, mode, bytes),
        PayloadKind::UpdateGameStats => decode_event_updategamestats(code, mode, bytes),
        PayloadKind::MapPing => decode_event_mapping(code, mode, bytes),
        PayloadKind::HealedCubes => decode_event_healedcubes(code, mode, bytes),
        PayloadKind::CurrentSurrenderVotes => decode_event_currentsurrendervotes(code, mode, bytes),
        PayloadKind::SurrenderDeclined => decode_event_surrenderdeclined(code, mode, bytes),
        PayloadKind::SurrenderTimes => decode_event_surrendertimes(code, mode, bytes),
        PayloadKind::SetFinalGameScore => decode_event_setfinalgamescore(code, mode, bytes),
        PayloadKind::LockOnNotifier => decode_event_lockonnotifier(code, mode, bytes),
        PayloadKind::TeleportActivateEffect => decode_event_teleportactivateeffect(code, mode, bytes),
        PayloadKind::SpawnEmpLocator => decode_event_spawnemplocator(code, mode, bytes),
        PayloadKind::NetworkStunnedMachineEffect => decode_event_networkstunnedmachineeffect(code, mode, bytes),
        PayloadKind::SelectWeapon => decode_event_selectweapon(code, mode, bytes),
        PayloadKind::PlayerIDs => decode_event_playerids(code, mode, bytes),
        PayloadKind::HealAllyCubes => decode_event_healallycubes(code, mode, bytes),
        PayloadKind::UpdateGameModeSettings => decode_event_updategamemodesettings(code, mode, bytes),
        PayloadKind::UpdateTeamDeathMatch => decode_event_updateteamdeathmatch(code, mode, bytes),
        PayloadKind::LoadingProgress => decode_event_loadingprogress(code, mode, bytes),
        PayloadKind::EqualizerNotification => decode_event_equalizernotification(code, mode, bytes),
        PayloadKind::Taunt => decode_event_taunt(code, mode, bytes),
        PayloadKind::CommandOnly => decode_event_commandonly(code, mode, bytes),
        PayloadKind::DestroyCubeEffectOnly => decode_event_destroycubeeffectonly(code, mode, bytes),
        PayloadKind::DestroyCubeNoEffect => decode_event_destroycubenoeffect(code, mode, bytes),
        PayloadKind::DestroyCubesFull => decode_event_destroycubesfull(code, mode, bytes),
        PayloadKind::UpdateVotingAfterBattle => decode_event_updatevotingafterbattle(code, mode, bytes),
        PayloadKind::CosmeticAction => decode_event_cosmeticaction(code, mode, bytes),
    }
}

/// Decode one event's payload and demand that it consume the whole
/// buffer: bytes left over after the schema's declared fields are
/// [`DecodeError::TrailingBytes`].
pub fn decode_event_exact(code: u8, mode: GameMode, bytes: &[u8]) -> (r: Result<
    Payload,
    DecodeError,
>)
    ensures
        match r {
            Ok(p) => spec_decode_event(code, mode, bytes@) == Ok::<(PayloadV, int), DecodeError>(
                (p.deep_view(), bytes@.len() as int),
            ),
            Err(e) => e == DecodeError::TrailingBytes && (spec_decode_event(
                code,
                mode,
                bytes@,
            ) matches Ok((p, used)) && used < bytes@.len()) || spec_decode_event(
                code,
                mode,
                bytes@,
            ) == Err::<(PayloadV, int), DecodeError>(e),
        },
{
    match decode_event(code, mode, bytes) {
        Ok((p, used)) => {
            if used == bytes.len() {
                Ok(p)
            } else {
                Err(DecodeError::TrailingBytes)
            }
        },
        Err(e) => Err(e),
    }
}


/// Whether a payload model can be encoded exactly.
pub open spec fn payload_enc_ok(v: PayloadV) -> bool {
    match v {
        PayloadV::SpawnPoint(x) => SpawnPoint::enc_ok(x),
        PayloadV::GetTeamBase(x) => GetTeamBase::enc_ok(x),
        PayloadV::GetCapturePoints(x) => GetCapturePoints::enc_ok(x),
        PayloadV::GetEqualizer(x) => GetEqualizer::enc_ok(x),
        PayloadV::PlayerIDsAndNames(x) => PlayerIDsAndNames::enc_ok(x),
        PayloadV::SyncMachineCubes(x) => SyncMachineCubes::enc_ok(x),
        PayloadV::GameStart(x) => GameStart::enc_ok(x),
        PayloadV::MultiPlayerInputChanged(x) => MultiPlayerInputChanged::enc_ok(x),
        PayloadV::PlayerId(x) => PlayerId::enc_ok(x),
        PayloadV::WeaponFireEffect(x) => WeaponFireEffect::enc_ok(x),
        PayloadV::FireMiss(x) => FireMiss::enc_ok(x),
        PayloadV::MultipleFireMisses(x) => MultipleFireMisses::enc_ok(x),
        PayloadV::GameTime(x) => GameTime::enc_ok(x),
        PayloadV::GameEnd(x) => GameEnd::enc_ok(x),
        PayloadV::GameLoseWin(x) => GameLoseWin::enc_ok(x),
        PayloadV::RespawnTime(x) => RespawnTime::enc_ok(x),
        PayloadV::TeamBaseState(x) => TeamBaseState::enc_ok(x),
        PayloadV::RequestPing(x) => RequestPing::enc_ok(x),
        PayloadV::StringCode(x) => StringCode::enc_ok(x),
        PayloadV::TeamBaseBoolean(x) => TeamBaseBoolean::enc_ok(x),
        PayloadV::Kill(x) => Kill::enc_ok(x),
        PayloadV::FusionShieldState(x) => FusionShieldState::enc_ok(x),
        PayloadV::InitialiseGameStats(x) => InitialiseGameStats::enc_ok(x),
        PayloadV::UpdateGameStats(x) => UpdateGameStats::enc_ok(x),
        PayloadV::MapPing(x) => MapPing::enc_ok(x),
        PayloadV::HealedCubes(x) => HealedCubes::enc_ok(x),
        PayloadV::CurrentSurrenderVotes(x) => CurrentSurrenderVotes::enc_ok(x),
        PayloadV::SurrenderDeclined(x) => SurrenderDeclined::enc_ok(x),
        PayloadV::SurrenderTimes(x) => SurrenderTimes::enc_ok(x),
        PayloadV::SetFinalGameScore(x) => SetFinalGameScore::enc_ok(x),
        PayloadV::LockOnNotifier(x) => LockOnNotifier::enc_ok(x),
        PayloadV::TeleportActivateEffect(x) => TeleportActivateEffect::enc_ok(x),
        PayloadV::SpawnEmpLocator(x) => SpawnEmpLocator::enc_ok(x),
        PayloadV::NetworkStunnedMachineEffect(x) => NetworkStunnedMachineEffect::enc_ok(x),
        PayloadV::SelectWeapon(x) => SelectWeapon::enc_ok(x),
        PayloadV::PlayerIDs(x) => PlayerIDs::enc_ok(x),
        PayloadV::HealAllyCubes(x) => HealAllyCubes::enc_ok(x),
        PayloadV::UpdateGameModeSettings(x) => UpdateGameModeSettings::enc_ok(x),
        PayloadV::UpdateTeamDeathMatch(x) => UpdateTeamDeathMatch::enc_ok(x),
        PayloadV::LoadingProgress(x) => LoadingProgress::enc_ok(x),
        PayloadV::EqualizerNotification(x) => EqualizerNotification::enc_ok(x),
        PayloadV::Taunt(x) => Taunt::enc_ok(x),
        PayloadV::CommandOnly(x) => CommandOnly::enc_ok(x),
        PayloadV::DestroyCubeEffectOnly(x) => DestroyCubeEffectOnly::enc_ok(x),
        PayloadV::DestroyCubeNoEffect(x) => DestroyCubeNoEffect::enc_ok(x),
        PayloadV::DestroyCubesFull(x) => DestroyCubesFull::enc_ok(x),
        PayloadV::UpdateVotingAfterBattle(x) => UpdateVotingAfterBattle::enc_ok(x),
        PayloadV::CosmeticAction(x) => CosmeticAction::enc_ok(x),
    }
}

/// The byte encoding of a payload model.
pub open spec fn wire_payload(v: PayloadV) -> Seq<u8> {
    match v {
        PayloadV::SpawnPoint(x) => SpawnPoint::wire(x),
        PayloadV::GetTeamBase(x) => GetTeamBase::wire(x),
        PayloadV::GetCapturePoints(x) => GetCapturePoints::wire(x),
        PayloadV::GetEqualizer(x) => GetEqualizer::wire(x),
        PayloadV::PlayerIDsAndNames(x) => PlayerIDsAndNames::wire(x),
        PayloadV::SyncMachineCubes(x) => SyncMachineCubes::wire(x),
        PayloadV::GameStart(x) => GameStart::wire(x),
        PayloadV::MultiPlayerInputChanged(x) => MultiPlayerInputChanged::wire(x),
        PayloadV::PlayerId(x) => PlayerId::wire(x),
        PayloadV::WeaponFireEffect(x) => WeaponFireEffect::wire(x),
        PayloadV::FireMiss(x) => FireMiss::wire(x),
        PayloadV::MultipleFireMisses(x) => MultipleFireMisses::wire(x),
        PayloadV::GameTime(x) => GameTime::wire(x),
        PayloadV::GameEnd(x) => GameEnd::wire(x),
        PayloadV::GameLoseWin(x) => GameLoseWin::wire(x),
        PayloadV::RespawnTime(x) => RespawnTime::wire(x),
        PayloadV::TeamBaseState(x) => TeamBaseState::wire(x),
        PayloadV::RequestPing(x) => RequestPing::wire(x),
        PayloadV::StringCode(x) => StringCode::wire(x),
        PayloadV::TeamBaseBoolean(x) => TeamBaseBoolean::wire(x),
        PayloadV::Kill(x) => Kill::wire(x),
        PayloadV::FusionShieldState(x) => FusionShieldState::wire(x),
        PayloadV::InitialiseGameStats(x) => InitialiseGameStats::wire(x),
        PayloadV::UpdateGameStats(x) => UpdateGameStats::wire(x),
        PayloadV::MapPing(x) => MapPing::wire(x),
        PayloadV::HealedCubes(x) => HealedCubes::wire(x),
        PayloadV::CurrentSurrenderVotes(x) => CurrentSurrenderVotes::wire(x),
        PayloadV::SurrenderDeclined(x) => SurrenderDeclined::wire(x),
        PayloadV::SurrenderTimes(x) => SurrenderTimes::wire(x),
        PayloadV::SetFinalGameScore(x) => SetFinalGameScore::wire(x),
        PayloadV::LockOnNotifier(x) => LockOnNotifier::wire(x),
        PayloadV::TeleportActivateEffect(x) => TeleportActivateEffect::wire(x),
        PayloadV::SpawnEmpLocator(x) => SpawnEmpLocator::wire(x),
        PayloadV::NetworkStunnedMachineEffect(x) => NetworkStunnedMachineEffect::wire(x),
        PayloadV::SelectWeapon(x) => SelectWeapon::wire(x),
        PayloadV::PlayerIDs(x) => PlayerIDs::wire(x),
        PayloadV::HealAllyCubes(x) => HealAllyCubes::wire(x),
        PayloadV::UpdateGameModeSettings(x) => UpdateGameModeSettings::wire(x),
        PayloadV::UpdateTeamDeathMatch(x) => UpdateTeamDeathMatch::wire(x),
        PayloadV::LoadingProgress(x) => LoadingProgress::wire(x),
        PayloadV::EqualizerNotification(x) => EqualizerNotification::wire(x),
        PayloadV::Taunt(x) => Taunt::wire(x),
        PayloadV::CommandOnly(x) => CommandOnly::wire(x),
        PayloadV::DestroyCubeEffectOnly(x) => DestroyCubeEffectOnly::wire(x),
        PayloadV::DestroyCubeNoEffect(x) => DestroyCubeNoEffect::wire(x),
        PayloadV::DestroyCubesFull(x) => DestroyCubesFull::wire(x),
        PayloadV::UpdateVotingAfterBattle(x) => UpdateVotingAfterBattle::wire(x),
        PayloadV::CosmeticAction(x) => CosmeticAction::wire(x),
    }
}

/// Append one payload's encoding to `out`: the mirror of
/// [`decode_event`] for its schema.
pub fn encode_event(payload: &Payload, out: &mut Vec<u8>) -> (r: Result<(), EncodeError>)
    ensures
        r matches Ok(()) ==> payload_enc_ok(payload.deep_view()) && final(out)@ == old(out)@
            + wire_payload(payload.deep_view()),
        r is Err ==> !payload_enc_ok(payload.deep_view()),
{
    match payload {
        Payload::SpawnPoint(v) => v.encode(out),
        Payload::GetTeamBase(v) => v.encode(out),
        Payload::GetCapturePoints(v) => v.encode(out),
        Payload::GetEqualizer(v) => v.encode(out),
        Payload::PlayerIDsAndNames(v) => v.encode(out),
        Payload::SyncMachineCubes(v) => v.encode(out),
        Payload::GameStart(v) => v.encode(out),
        Payload::MultiPlayerInputChanged(v) => v.encode(out),
        Payload::PlayerId(v) => v.encode(out),
        Payload::WeaponFireEffect(v) => v.encode(out),
        Payload::FireMiss(v) => v.encode(out),
        Payload::MultipleFireMisses(v) => v.encode(out),
        Payload::GameTime(v) => v.encode(out),
        Payload::GameEnd(v) => v.encode(out),
        Payload::GameLoseWin(v) => v.encode(out),
        Payload::RespawnTime(v) => v.encode(out),
        Payload::TeamBaseState(v) => v.encode(out),
        Payload::RequestPing(v) => v.encode(out),
        Payload::StringCode(v) => v.encode(out),
        Payload::TeamBaseBoolean(v) => v.encode(out),
        Payload::Kill(v) => v.encode(out),
        Payload::FusionShieldState(v) => v.encode(out),
        Payload::InitialiseGameStats(v) => v.encode(out),
        Payload::UpdateGameStats(v) => v.encode(out),
        Payload::MapPing(v) => v.encode(out),
        Payload::HealedCubes(v) => v.encode(out),
        Payload::CurrentSurrenderVotes(v) => v.encode(out),
        Payload::SurrenderDeclined(v) => v.encode(out),
        Payload::SurrenderTimes(v) => v.encode(out),
        Payload::SetFinalGameScore(v) => v.encode(out),
        Payload::LockOnNotifier(v) => v.encode(out),
        Payload::TeleportActivateEffect(v) => v.encode(out),
        Payload::SpawnEmpLocator(v) => v.encode(out),
        Payload::NetworkStunnedMachineEffect(v) => v.encode(out),
        Payload::SelectWeapon(v) => v.encode(out),
        Payload::PlayerIDs(v) => v.encode(out),
        Payload::HealAllyCubes(v) => v.encode(out),
        Payload::UpdateGameModeSettings(v) => v.encode(out),
        Payload::UpdateTeamDeathMatch(v) => v.encode(out),
        Payload::LoadingProgress(v) => v.encode(out),
        Payload::EqualizerNotification(v) => v.encode(out),
        Payload::Taunt(v) => v.encode(out),
        Payload::CommandOnly(v) => v.encode(out),
        Payload::DestroyCubeEffectOnly(v) => v.encode(out),
        Payload::DestroyCubeNoEffect(v) => v.encode(out),
        Payload::DestroyCubesFull(v) => v.encode(out),
        Payload::UpdateVotingAfterBattle(v) => v.encode(out),
        Payload::CosmeticAction(v) => v.encode(out),
    }
}

proof fn lemma_event_round_trip_spawnpoint(code: u8, mode: GameMode, v: PayloadV)
    requires
        spec_resolve(code, mode) == Some(spec_kind_of(v)),
        payload_enc_ok(v),
        v is SpawnPoint,
    ensures
        spec_decode_event(code, mode, wire_payload(v)) == Ok::<(PayloadV, int), DecodeError>(
            (v, wire_payload(v).len() as int),
        ),
{
    reveal(dec_as_spawnpoint);
    match v {
        PayloadV::SpawnPoint(x) => {
            lemma_round_trip::<SpawnPoint>(x);
        },
        _ => {
        },
    }
}

proof fn lemma_event_round_trip_getteambase(code: u8, mode: GameMode, v: PayloadV)
    requires
        spec_resolve(code, mode) == Some(spec_kind_of(v)),
        payload_enc_ok(v),
        v is GetTeamBase,
    ensures
        spec_decode_event(code, mode, wire_payload(v)) == Ok::<(PayloadV, int), DecodeError>(
            (v, wire_payload(v).len() as int),
        ),
{
    reveal(dec_as_getteambase);
    match v {
        PayloadV::GetTeamBase(x) => {
            lemma_round_trip::<GetTeamBase>(x);
        },
        _ => {
        },
    }
}

proof fn lemma_event_round_trip_getcapturepoints(code: u8, mode: GameMode, v: PayloadV)
    requires
        spec_resolve(code, mode) == Some(spec_kind_of(v)),
        payload_enc_ok(v),
        v is GetCapturePoints,
    ensures
        spec_decode_event(code, mode, wire_payload(v)) == Ok::<(PayloadV, int), DecodeError>(
            (v, wire_payload(v).len() as int),
        ),
{
    reveal(dec_as_getcapturepoints);
    match v {
        PayloadV::GetCapturePoints(x) => {
            lemma_round_trip::<GetCapturePoints>(x);
        },
        _ => {
        },
    }
}

proof fn lemma_event_round_trip_getequalizer(code: u8, mode: GameMode, v: PayloadV)
    requires
        spec_resolve(code, mode) == Some(spec_kind_of(v)),
        payload_enc_ok(v),
        v is GetEqualizer,
    ensures
        spec_decode_event(code, mode, wire_payload(v)) == Ok::<(PayloadV, int), DecodeError>(
            (v, wire_payload(v).len() as int),
        ),
{
    reveal(dec_as_getequalizer);
    match v {
        PayloadV::GetEqualizer(x) => {
            lemma_round_trip::<GetEqualizer>(x);
        },
        _ => {
        },
    }
}

proof fn lemma_event_round_trip_playeridsandnames(code: u8, mode: GameMode, v: PayloadV)
    requires
        spec_resolve(code, mode) == Some(spec_kind_of(v)),
        payload_enc_ok(v),
        v is PlayerIDsAndNames,
    ensures
        spec_decode_event(code, mode, wire_payload(v)) == Ok::<(PayloadV, int), DecodeError>(
            (v, wire_payload(v).len() as int),
        ),
{
    reveal(dec_as_playeridsandnames);
    match v {
        PayloadV::PlayerIDsAndNames(x) => {
            lemma_round_trip::<PlayerIDsAndNames>(x);
        },
        _ => {
        },
    }
}

proof fn lemma_event_round_trip_syncmachinecubes(code: u8, mode: GameMode, v: PayloadV)
    requires
        spec_resolve(code, mode) == Some(spec_kind_of(v)),
        payload_enc_ok(v),
        v is SyncMachineCubes,
    ensures
        spec_decode_event(code, mode, wire_payload(v)) == Ok::<(PayloadV, int), DecodeError>(
            (v, wire_payload(v).len() as int),
        ),
{
    reveal(dec_as_syncmachinecubes);
    match v {
        PayloadV::SyncMachineCubes(x) => {
            lemma_round_trip::<SyncMachineCubes>(x);
        },
        _ => {
        },
    }
}

proof fn lemma_event_round_trip_gamestart(code: u8, mode: GameMode, v: PayloadV)
    requires
        spec_resolve(code, mode) == Some(spec_kind_of(v)),
        payload_enc_ok(v),
        v is GameStart,
    ensures
        spec_decode_event(code, mode, wire_payload(v)) == Ok::<(PayloadV, int), DecodeError>(
            (v, wire_payload(v).len() as int),
        ),
{
    reveal(dec_as_gamestart);
    match v {
        PayloadV::GameStart(x) => {
            lemma_round_trip::<GameStart>(x);
        },
        _ => {
        },
    }
}

proof fn lemma_event_round_trip_multiplayerinputchanged(code: u8, mode: GameMode, v: PayloadV)
    requires
        spec_resolve(code, mode) == Some(spec_kind_of(v)),
        payload_enc_ok(v),
        v is MultiPlayerInputChanged,
    ensures
        spec_decode_event(code, mode, wire_payload(v)) == Ok::<(PayloadV, int), DecodeError>(
            (v, wire_payload(v).len() as int),
        ),
{
    reveal(dec_as_multiplayerinputchanged);
    match v {
        PayloadV::MultiPlayerInputChanged(x) => {
            lemma_round_trip::<MultiPlayerInputChanged>(x);
        },
        _ => {
        },
    }
}

proof fn lemma_event_round_trip_playerid(code: u8, mode: GameMode, v: PayloadV)
    requires
        spec_resolve(code, mode) == Some(spec_kind_of(v)),
        payload_enc_ok(v),
        v is PlayerId,
    ensures
        spec_decode_event(code, mode, wire_payload(v)) == Ok::<(PayloadV, int), DecodeError>(
            (v, wire_payload(v).len() as int),
        ),
{
    reveal(dec_as_playerid);
    match v {
        PayloadV::PlayerId(x) => {
            lemma_round_trip::<PlayerId>(x);
        },
        _ => {
        },
    }
}

proof fn lemma_event_round_trip_weaponfireeffect(code: u8, mode: GameMode, v: PayloadV)
    requires
        spec_resolve(code, mode) == Some(spec_kind_of(v)),
        payload_enc_ok(v),
        v is WeaponFireEffect,
    ensures
        spec_decode_event(code, mode, wire_payload(v)) == Ok::<(PayloadV, int), DecodeError>(
            (v, wire_payload(v).len() as int),
        ),
{
    reveal(dec_as_weaponfireeffect);
    match v {
        PayloadV::WeaponFireEffect(x) => {
            lemma_round_trip::<WeaponFireEffect>(x);
        },
        _ => {
        },
    }
}

proof fn lemma_event_round_trip_firemiss(code: u8, mode: GameMode, v: PayloadV)
    requires
        spec_resolve(code, mode) == Some(spec_kind_of(v)),
        payload_enc_ok(v),
        v is FireMiss,
    ensures
        spec_decode_event(code, mode, wire_payload(v)) == Ok::<(PayloadV, int), DecodeError>(
            (v, wire_payload(v).len() as int),
        ),
{
    reveal(dec_as_firemiss);
    match v {
        PayloadV::FireMiss(x) => {
            lemma_round_trip::<FireMiss>(x);
        },
        _ => {
        },
    }
}

proof fn lemma_event_round_trip_multiplefiremisses(code: u8, mode: GameMode, v: PayloadV)
    requires
        spec_resolve(code, mode) == Some(spec_kind_of(v)),
        payload_enc_ok(v),
        v is MultipleFireMisses,
    ensures
        spec_decode_event(code, mode, wire_payload(v)) == Ok::<(PayloadV, int), DecodeError>(
            (v, wire_payload(v).len() as int),
        ),
{
    reveal(dec_as_multiplefiremisses);
    match v {
        PayloadV::MultipleFireMisses(x) => {
            lemma_round_trip::<MultipleFireMisses>(x);
        },
        _ => {
        },
    }
}

proof fn lemma_event_round_trip_gametime(code: u8, mode: GameMode, v: PayloadV)
    requires
        spec_resolve(code, mode) == Some(spec_kind_of(v)),
        payload_enc_ok(v),
        v is GameTime,
    ensures
        spec_decode_event(code, mode, wire_payload(v)) == Ok::<(PayloadV, int), DecodeError>(
            (v, wire_payload(v).len() as int),
        ),
{
    reveal(dec_as_gametime);
    match v {
        PayloadV::GameTime(x) => {
            lemma_round_trip::<GameTime>(x);
        },
        _ => {
        },
    }
}

proof fn lemma_event_round_trip_gameend(code: u8, mode: GameMode, v: PayloadV)
    requires
        spec_resolve(code, mode) == Some(spec_kind_of(v)),
        payload_enc_ok(v),
        v is GameEnd,
    ensures
        spec_decode_event(code, mode, wire_payload(v)) == Ok::<(PayloadV, int), DecodeError>(
            (v, wire_payload(v).len() as int),
        ),
{
    reveal(dec_as_gameend);
    match v {
        PayloadV::GameEnd(x) => {
            lemma_round_trip::<GameEnd>(x);
        },
        _ => {
        },
    }
}

proof fn lemma_event_round_trip_gamelosewin(code: u8, mode: GameMode, v: PayloadV)
    requires
        spec_resolve(code, mode) == Some(spec_kind_of(v)),
        payload_enc_ok(v),
        v is GameLoseWin,
    ensures
        spec_decode_event(code, mode, wire_payload(v)) == Ok::<(PayloadV, int), DecodeError>(
            (v, wire_payload(v).len() as int),
        ),
{
    reveal(dec_as_gamelosewin);
    match v {
        PayloadV::GameLoseWin(x) => {
            lemma_round_trip::<GameLoseWin>(x);
        },
        _ => {
        },
    }
}

proof fn lemma_event_round_trip_respawntime(code: u8, mode: GameMode, v: PayloadV)
    requires
        spec_resolve(code, mode) == Some(spec_kind_of(v)),
        payload_enc_ok(v),
        v is RespawnTime,
    ensures
        spec_decode_event(code, mode, wire_payload(v)) == Ok::<(PayloadV, int), DecodeError>(
            (v, wire_payload(v).len() as int),
        ),
{
    reveal(dec_as_respawntime);
    match v {
        PayloadV::RespawnTime(x) => {
            lemma_round_trip::<RespawnTime>(x);
        },
        _ => {
        },
    }
}

proof fn lemma_event_round_trip_teambasestate(code: u8, mode: GameMode, v: PayloadV)
    requires
        spec_resolve(code, mode) == Some(spec_kind_of(v)),
        payload_enc_ok(v),
        v is TeamBaseState,
    ensures
        spec_decode_event(code, mode, wire_payload(v)) == Ok::<(PayloadV, int), DecodeError>(
            (v, wire_payload(v).len() as int),
        ),
{
    reveal(dec_as_teambasestate);
    match v {
        PayloadV::TeamBaseState(x) => {
            lemma_round_trip::<TeamBaseState>(x);
        },
        _ => {
        },
    }
}

proof fn lemma_event_round_trip_requestping(code: u8, mode: GameMode, v: PayloadV)
    requires
        spec_resolve(code, mode) == Some(spec_kind_of(v)),
        payload_enc_ok(v),
        v is RequestPing,
    ensures
        spec_decode_event(code, mode, wire_payload(v)) == Ok::<(PayloadV, int), DecodeError>(
            (v, wire_payload(v).len() as int),
        ),
{
    reveal(dec_as_requestping);
    match v {
        PayloadV::RequestPing(x) => {
            lemma_round_trip::<RequestPing>(x);
        },
        _ => {
        },
    }
}

proof fn lemma_event_round_trip_stringcode(code: u8, mode: GameMode, v: PayloadV)
    requires
        spec_resolve(code, mode) == Some(spec_kind_of(v)),
        payload_enc_ok(v),
        v is StringCode,
    ensures
        spec_decode_event(code, mode, wire_payload(v)) == Ok::<(PayloadV, int), DecodeError>(
            (v, wire_payload(v).len() as int),
        ),
{
    reveal(dec_as_stringcode);
    match v {
        PayloadV::StringCode(x) => {
            lemma_round_trip::<StringCode>(x);
        },
        _ => {
        },
    }
}

proof fn lemma_event_round_trip_teambaseboolean(code: u8, mode: GameMode, v: PayloadV)
    requires
        spec_resolve(code, mode) == Some(spec_kind_of(v)),
        payload_enc_ok(v),
        v is TeamBaseBoolean,
    ensures
        spec_decode_event(code, mode, wire_payload(v)) == Ok::<(PayloadV, int), DecodeError>(
            (v, wire_payload(v).len() as int),
        ),
{
    reveal(dec_as_teambaseboolean);
    match v {
        PayloadV::TeamBaseBoolean(x) => {
            lemma_round_trip::<TeamBaseBoolean>(x);
        },
        _ => {
        },
    }
}

proof fn lemma_event_round_trip_kill(code: u8, mode: GameMode, v: PayloadV)
    requires
        spec_resolve(code, mode) == Some(spec_kind_of(v)),
        payload_enc_ok(v),
        v is Kill,
    ensures
        spec_decode_event(code, mode, wire_payload(v)) == Ok::<(PayloadV, int), DecodeError>(
            (v, wire_payload(v).len() as int),
        ),
{
    reveal(dec_as_kill);
    match v {
        PayloadV::Kill(x) => {
            lemma_round_trip::<Kill>(x);
        },
        _ => {
        },
    }
}

proof fn lemma_event_round_trip_fusionshieldstate(code: u8, mode: GameMode, v: PayloadV)
    requires
        spec_resolve(code, mode) == Some(spec_kind_of(v)),
        payload_enc_ok(v),
        v is FusionShieldState,
    ensures
        spec_decode_event(code, mode, wire_payload(v)) == Ok::<(PayloadV, int), DecodeError>(
            (v, wire_payload(v).len() as int),
        ),
{
    reveal(dec_as_fusionshieldstate);
    match v {
        PayloadV::FusionShieldState(x) => {
            lemma_round_trip::<FusionShieldState>(x);
        },
        _ => {
        },
    }
}

proof fn lemma_event_round_trip_initialisegamestats(code: u8, mode: GameMode, v: PayloadV)
    requires
        spec_resolve(code, mode) == Some(spec_kind_of(v)),
        payload_enc_ok(v),
        v is InitialiseGameStats,
    ensures
        spec_decode_event(code, mode, wire_payload(v)) == Ok::<(PayloadV, int), DecodeError>(
            (v, wire_payload(v).len() as int),
        ),
{
    reveal(dec_as_initialisegamestats);
    match v {
        PayloadV::InitialiseGameStats(x) => {
            lemma_round_trip::<InitialiseGameStats>(x);
        },
        _ => {
        },
    }
}

proof fn lemma_event_round_trip_updategamestats(code: u8, mode: GameMode, v: PayloadV)
    requires
        spec_resolve(code, mode) == Some(spec_kind_of(v)),
        payload_enc_ok(v),
        v is UpdateGameStats,
    ensures
        spec_decode_event(code, mode, wire_payload(v)) == Ok::<(PayloadV, int), DecodeError>(
            (v, wire_payload(v).len() as int),
        ),
{
    reveal(dec_as_updategamestats);
    match v {
        PayloadV::UpdateGameStats(x) => {
            lemma_round_trip::<UpdateGameStats>(x);
        },
        _ => {
        },
    }
}

proof fn lemma_event_round_trip_mapping(code: u8, mode: GameMode, v: PayloadV)
    requires
        spec_resolve(code, mode) == Some(spec_kind_of(v)),
        payload_enc_ok(v),
        v is MapPing,
    ensures
        spec_decode_event(code, mode, wire_payload(v)) == Ok::<(PayloadV, int), DecodeError>(
            (v, wire_payload(v).len() as int),
        ),
{
    reveal(dec_as_mapping);
    match v {
        PayloadV::MapPing(x) => {
            lemma_round_trip::<MapPing>(x);
        },
        _ => {
        },
    }
}

proof fn lemma_event_round_trip_healedcubes(code: u8, mode: GameMode, v: PayloadV)
    requires
        spec_resolve(code, mode) == Some(spec_kind_of(v)),
        payload_enc_ok(v),
        v is HealedCubes,
    ensures
        spec_decode_event(code, mode, wire_payload(v)) == Ok::<(PayloadV, int), DecodeError>(
            (v, wire_payload(v).len() as int),
        ),
{
    reveal(dec_as_healedcubes);
    match v {
        PayloadV::HealedCubes(x) => {
            lemma_round_trip::<HealedCubes>(x);
        },
        _ => {
        },
    }
}

proof fn lemma_event_round_trip_currentsurrendervotes(code: u8, mode: GameMode, v: PayloadV)
    requires
        spec_resolve(code, mode) == Some(spec_kind_of(v)),
        payload_enc_ok(v),
        v is CurrentSurrenderVotes,
    ensures
        spec_decode_event(code, mode, wire_payload(v)) == Ok::<(PayloadV, int), DecodeError>(
            (v, wire_payload(v).len() as int),
        ),
{
    reveal(dec_as_currentsurrendervotes);
    match v {
        PayloadV::CurrentSurrenderVotes(x) => {
            lemma_round_trip::<CurrentSurrenderVotes>(x);
        },
        _ => {
        },
    }
}

proof fn lemma_event_round_trip_surrenderdeclined(code: u8, mode: GameMode, v: PayloadV)
    requires
        spec_resolve(code, mode) == Some(spec_kind_of(v)),
        payload_enc_ok(v),
        v is SurrenderDeclined,
    ensures
        spec_decode_event(code, mode, wire_payload(v)) == Ok::<(PayloadV, int), DecodeError>(
            (v, wire_payload(v).len() as int),
        ),
{
    reveal(dec_as_surrenderdeclined);
    match v {
        PayloadV::SurrenderDeclined(x) => {
            lemma_round_trip::<SurrenderDeclined>(x);
        },
        _ => {
        },
    }
}

proof fn lemma_event_round_trip_surrendertimes(code: u8, mode: GameMode, v: PayloadV)
    requires
        spec_resolve(code, mode) == Some(spec_kind_of(v)),
        payload_enc_ok(v),
        v is SurrenderTimes,
    ensures
        spec_decode_event(code, mode, wire_payload(v)) == Ok::<(PayloadV, int), DecodeError>(
            (v, wire_payload(v).len() as int),
        ),
{
    reveal(dec_as_surrendertimes);
    match v {
        PayloadV::SurrenderTimes(x) => {
            lemma_round_trip::<SurrenderTimes>(x);
        },
        _ => {
        },
    }
}

proof fn lemma_event_round_trip_setfinalgamescore(code: u8, mode: GameMode, v: PayloadV)
    requires
        spec_resolve(code, mode) == Some(spec_kind_of(v)),
        payload_enc_ok(v),
        v is SetFinalGameScore,
    ensures
        spec_decode_event(code, mode, wire_payload(v)) == Ok::<(PayloadV, int), DecodeError>(
            (v, wire_payload(v).len() as int),
        ),
{
    reveal(dec_as_setfinalgamescore);
    match v {
        PayloadV::SetFinalGameScore(x) => {
            lemma_round_trip::<SetFinalGameScore>(x);
        },
        _ => {
        },
    }
}

proof fn lemma_event_round_trip_lockonnotifier(code: u8, mode: GameMode, v: PayloadV)
    requires
        spec_resolve(code, mode) == Some(spec_kind_of(v)),
        payload_enc_ok(v),
        v is LockOnNotifier,
    ensures
        spec_decode_event(code, mode, wire_payload(v)) == Ok::<(PayloadV, int), DecodeError>(
            (v, wire_payload(v).len() as int),
        ),
{
    reveal(dec_as_lockonnotifier);
    match v {
        PayloadV::LockOnNotifier(x) => {
            lemma_round_trip::<LockOnNotifier>(x);
        },
        _ => {
        },
    }
}

proof fn lemma_event_round_trip_teleportactivateeffect(code: u8, mode: GameMode, v: PayloadV)
    requires
        spec_resolve(code, mode) == Some(spec_kind_of(v)),
        payload_enc_ok(v),
        v is TeleportActivateEffect,
    ensures
        spec_decode_event(code, mode, wire_payload(v)) == Ok::<(PayloadV, int), DecodeError>(
            (v, wire_payload(v).len() as int),
        ),
{
    reveal(dec_as_teleportactivateeffect);
    match v {
        PayloadV::TeleportActivateEffect(x) => {
            lemma_round_trip::<TeleportActivateEffect>(x);
        },
        _ => {
        },
    }
}

proof fn lemma_event_round_trip_spawnemplocator(code: u8, mode: GameMode, v: PayloadV)
    requires
        spec_resolve(code, mode) == Some(spec_kind_of(v)),
        payload_enc_ok(v),
        v is SpawnEmpLocator,
    ensures
        spec_decode_event(code, mode, wire_payload(v)) == Ok::<(PayloadV, int), DecodeError>(
            (v, wire_payload(v).len() as int),
        ),
{
    reveal(dec_as_spawnemplocator);
    match v {
        PayloadV::SpawnEmpLocator(x) => {
            lemma_round_trip::<SpawnEmpLocator>(x);
        },
        _ => {
        },
    }
}

proof fn lemma_event_round_trip_networkstunnedmachineeffect(code: u8, mode: GameMode, v: PayloadV)
    requires
        spec_resolve(code, mode) == Some(spec_kind_of(v)),
        payload_enc_ok(v),
        v is NetworkStunnedMachineEffect,
    ensures
        spec_decode_event(code, mode, wire_payload(v)) == Ok::<(PayloadV, int), DecodeError>(
            (v, wire_payload(v).len() as int),
        ),
{
    reveal(dec_as_networkstunnedmachineeffect);
    match v {
        PayloadV::NetworkStunnedMachineEffect(x) => {
            lemma_round_trip::<NetworkStunnedMachineEffect>(x);
        },
        _ => {
        },
    }
}

proof fn lemma_event_round_trip_selectweapon(code: u8, mode: GameMode, v: PayloadV)
    requires
        spec_resolve(code, mode) == Some(spec_kind_of(v)),
        payload_enc_ok(v),
        v is SelectWeapon,
    ensures
        spec_decode_event(code, mode, wire_payload(v)) == Ok::<(PayloadV, int), DecodeError>(
            (v, wire_payload(v).len() as int),
        ),
{
    reveal(dec_as_selectweapon);
    match v {
        PayloadV::SelectWeapon(x) => {
            lemma_round_trip::<SelectWeapon>(x);
        },
        _ => {
        },
    }
}

proof fn lemma_event_round_trip_playerids(code: u8, mode: GameMode, v: PayloadV)
    requires
        spec_resolve(code, mode) == Some(spec_kind_of(v)),
        payload_enc_ok(v),
        v is PlayerIDs,
    ensures
        spec_decode_event(code, mode, wire_payload(v)) == Ok::<(PayloadV, int), DecodeError>(
            (v, wire_payload(v).len() as int),
        ),
{
    reveal(dec_as_playerids);
    match v {
        PayloadV::PlayerIDs(x) => {
            lemma_round_trip::<PlayerIDs>(x);
        },
        _ => {
        },
    }
}

proof fn lemma_event_round_trip_healallycubes(code: u8, mode: GameMode, v: PayloadV)
    requires
        spec_resolve(code, mode) == Some(spec_kind_of(v)),
        payload_enc_ok(v),
        v is HealAllyCubes,
    ensures
        spec_decode_event(code, mode, wire_payload(v)) == Ok::<(PayloadV, int), DecodeError>(
            (v, wire_payload(v).len() as int),
        ),
{
    reveal(dec_as_healallycubes);
    match v {
        PayloadV::HealAllyCubes(x) => {
            lemma_round_trip::<HealAllyCubes>(x);
        },
        _ => {
        },
    }
}

proof fn lemma_event_round_trip_updategamemodesettings(code: u8, mode: GameMode, v: PayloadV)
    requires
        spec_resolve(code, mode) == Some(spec_kind_of(v)),
        payload_enc_ok(v),
        v is UpdateGameModeSettings,
    ensures
        spec_decode_event(code, mode, wire_payload(v)) == Ok::<(PayloadV, int), DecodeError>(
            (v, wire_payload(v).len() as int),
        ),
{
    reveal(dec_as_updategamemodesettings);
    match v {
        PayloadV::UpdateGameModeSettings(x) => {
            lemma_round_trip::<UpdateGameModeSettings>(x);
        },
        _ => {
        },
    }
}

proof fn lemma_event_round_trip_updateteamdeathmatch(code: u8, mode: GameMode, v: PayloadV)
    requires
        spec_resolve(code, mode) == Some(spec_kind_of(v)),
        payload_enc_ok(v),
        v is UpdateTeamDeathMatch,
    ensures
        spec_decode_event(code, mode, wire_payload(v)) == Ok::<(PayloadV, int), DecodeError>(
            (v, wire_payload(v).len() as int),
        ),
{
    reveal(dec_as_updateteamdeathmatch);
    match v {
        PayloadV::UpdateTeamDeathMatch(x) => {
            lemma_round_trip::<UpdateTeamDeathMatch>(x);
        },
        _ => {
        },
    }
}

proof fn lemma_event_round_trip_loadingprogress(code: u8, mode: GameMode, v: PayloadV)
    requires
        spec_resolve(code, mode) == Some(spec_kind_of(v)),
        payload_enc_ok(v),
        v is LoadingProgress,
    ensures
        spec_decode_event(code, mode, wire_payload(v)) == Ok::<(PayloadV, int), DecodeError>(
            (v, wire_payload(v).len() as int),
        ),
{
    reveal(dec_as_loadingprogress);
    match v {
        PayloadV::LoadingProgress(x) => {
            lemma_round_trip::<LoadingProgress>(x);
        },
        _ => {
        },
    }
}

proof fn lemma_event_round_trip_equalizernotification(code: u8, mode: GameMode, v: PayloadV)
    requires
        spec_resolve(code, mode) == Some(spec_kind_of(v)),
        payload_enc_ok(v),
        v is EqualizerNotification,
    ensures
        spec_decode_event(code, mode, wire_payload(v)) == Ok::<(PayloadV, int), DecodeError>(
            (v, wire_payload(v).len() as int),
        ),
{
    reveal(dec_as_equalizernotification);
    match v {
        PayloadV::EqualizerNotification(x) => {
            lemma_round_trip::<EqualizerNotification>(x);
        },
        _ => {
        },
    }
}

proof fn lemma_event_round_trip_taunt(code: u8, mode: GameMode, v: PayloadV)
    requires
        spec_resolve(code, mode) == Some(spec_kind_of(v)),
        payload_enc_ok(v),
        v is Taunt,
    ensures
        spec_decode_event(code, mode, wire_payload(v)) == Ok::<(PayloadV, int), DecodeError>(
            (v, wire_payload(v).len() as int),
        ),
{
    reveal(dec_as_taunt);
    match v {
        PayloadV::Taunt(x) => {
            lemma_round_trip::<Taunt>(x);
        },
        _ => {
        },
    }
}

proof fn lemma_event_round_trip_commandonly(code: u8, mode: GameMode, v: PayloadV)
    requires
        spec_resolve(code, mode) == Some(spec_kind_of(v)),
        payload_enc_ok(v),
        v is CommandOnly,
    ensures
        spec_decode_event(code, mode, wire_payload(v)) == Ok::<(PayloadV, int), DecodeError>(
            (v, wire_payload(v).len() as int),
        ),
{
    reveal(dec_as_commandonly);
    match v {
        PayloadV::CommandOnly(x) => {
            lemma_round_trip::<CommandOnly>(x);
        },
        _ => {
        },
    }
}

proof fn lemma_event_round_trip_destroycubeeffectonly(code: u8, mode: GameMode, v: PayloadV)
    requires
        spec_resolve(code, mode) == Some(spec_kind_of(v)),
        payload_enc_ok(v),
        v is DestroyCubeEffectOnly,
    ensures
        spec_decode_event(code, mode, wire_payload(v)) == Ok::<(PayloadV, int), DecodeError>(
            (v, wire_payload(v).len() as int),
        ),
{
    reveal(dec_as_destroycubeeffectonly);
    match v {
        PayloadV::DestroyCubeEffectOnly(x) => {
            lemma_round_trip::<DestroyCubeEffectOnly>(x);
        },
        _ => {
        },
    }
}

proof fn lemma_event_round_trip_destroycubenoeffect(code: u8, mode: GameMode, v: PayloadV)
    requires
        spec_resolve(code, mode) == Some(spec_kind_of(v)),
        payload_enc_ok(v),
        v is DestroyCubeNoEffect,
    ensures
        spec_decode_event(code, mode, wire_payload(v)) == Ok::<(PayloadV, int), DecodeError>(
            (v, wire_payload(v).len() as int),
        ),
{
    reveal(dec_as_destroycubenoeffect);
    match v {
        PayloadV::DestroyCubeNoEffect(x) => {
            lemma_round_trip::<DestroyCubeNoEffect>(x);
        },
        _ => {
        },
    }
}

proof fn lemma_event_round_trip_destroycubesfull(code: u8, mode: GameMode, v: PayloadV)
    requires
        spec_resolve(code, mode) == Some(spec_kind_of(v)),
        payload_enc_ok(v),
        v is DestroyCubesFull,
    ensures
        spec_decode_event(code, mode, wire_payload(v)) == Ok::<(PayloadV, int), DecodeError>(
            (v, wire_payload(v).len() as int),
        ),
{
    reveal(dec_as_destroycubesfull);
    match v {
        PayloadV::DestroyCubesFull(x) => {
            lemma_round_trip::<DestroyCubesFull>(x);
        },
        _ => {
        },
    }
}

proof fn lemma_event_round_trip_updatevotingafterbattle(code: u8, mode: GameMode, v: PayloadV)
    requires
        spec_resolve(code, mode) == Some(spec_kind_of(v)),
        payload_enc_ok(v),
        v is UpdateVotingAfterBattle,
    ensures
        spec_decode_event(code, mode, wire_payload(v)) == Ok::<(PayloadV, int), DecodeError>(
            (v, wire_payload(v).len() as int),
        ),
{
    reveal(dec_as_updatevotingafterbattle);
    match v {
        PayloadV::UpdateVotingAfterBattle(x) => {
            lemma_round_trip::<UpdateVotingAfterBattle>(x);
        },
        _ => {
        },
    }
}

proof fn lemma_event_round_trip_cosmeticaction(code: u8, mode: GameMode, v: PayloadV)
    requires
        spec_resolve(code, mode) == Some(spec_kind_of(v)),
        payload_enc_ok(v),
        v is CosmeticAction,
    ensures
        spec_decode_event(code, mode, wire_payload(v)) == Ok::<(PayloadV, int), DecodeError>(
            (v, wire_payload(v).len() as int),
        ),
{
    reveal(dec_as_cosmeticaction);
    match v {
        PayloadV::CosmeticAction(x) => {
            lemma_round_trip::<CosmeticAction>(x);
        },
        _ => {
        },
    }
}

/// A payload encoded for a registered `(code, mode)` pair decodes, under
/// that pair, back to exactly the payload that was encoded, consuming
/// the whole encoding.
pub proof fn lemma_event_round_trip(code: u8, mode: GameMode, v: PayloadV)
    requires
        spec_resolve(code, mode) == Some(spec_kind_of(v)),
        payload_enc_ok(v),
    ensures
        spec_decode_event(code, mode, wire_payload(v)) == Ok::<(PayloadV, int), DecodeError>(
            (v, wire_payload(v).len() as int),
        ),
{
    match v {
        PayloadV::SpawnPoint(x) => {
            lemma_event_round_trip_spawnpoint(code, mode, v);
        },
        PayloadV::GetTeamBase(x) => {
            lemma_event_round_trip_getteambase(code, mode, v);
        },
        PayloadV::GetCapturePoints(x) => {
            lemma_event_round_trip_getcapturepoints(code, mode, v);
        },
        PayloadV::GetEqualizer(x) => {
            lemma_event_round_trip_getequalizer(code, mode, v);
        },
        PayloadV::PlayerIDsAndNames(x) => {
            lemma_event_round_trip_playeridsandnames(code, mode, v);
        },
        PayloadV::SyncMachineCubes(x) => {
            lemma_event_round_trip_syncmachinecubes(code, mode, v);
        },
        PayloadV::GameStart(x) => {
            lemma_event_round_trip_gamestart(code, mode, v);
        },
        PayloadV::MultiPlayerInputChanged(x) => {
            lemma_event_round_trip_multiplayerinputchanged(code, mode, v);
        },
        PayloadV::PlayerId(x) => {
            lemma_event_round_trip_playerid(code, mode, v);
        },
        PayloadV::WeaponFireEffect(x) => {
            lemma_event_round_trip_weaponfireeffect(code, mode, v);
        },
        PayloadV::FireMiss(x) => {
            lemma_event_round_trip_firemiss(code, mode, v);
        },
        PayloadV::MultipleFireMisses(x) => {
            lemma_event_round_trip_multiplefiremisses(code, mode, v);
        },
        PayloadV::GameTime(x) => {
            lemma_event_round_trip_gametime(code, mode, v);
        },
        PayloadV::GameEnd(x) => {
            lemma_event_round_trip_gameend(code, mode, v);
        },
        PayloadV::GameLoseWin(x) => {
            lemma_event_round_trip_gamelosewin(code, mode, v);
        },
        PayloadV::RespawnTime(x) => {
            lemma_event_round_trip_respawntime(code, mode, v);
        },
        PayloadV::TeamBaseState(x) => {
            lemma_event_round_trip_teambasestate(code, mode, v);
        },
        PayloadV::RequestPing(x) => {
            lemma_event_round_trip_requestping(code, mode, v);
        },
        PayloadV::StringCode(x) => {
            lemma_event_round_trip_stringcode(code, mode, v);
        },
        PayloadV::TeamBaseBoolean(x) => {
            lemma_event_round_trip_teambaseboolean(code, mode, v);
        },
        PayloadV::Kill(x) => {
            lemma_event_round_trip_kill(code, mode, v);
        },
        PayloadV::FusionShieldState(x) => {
            lemma_event_round_trip_fusionshieldstate(code, mode, v);
        },
        PayloadV::InitialiseGameStats(x) => {
            lemma_event_round_trip_initialisegamestats(code, mode, v);
        },
        PayloadV::UpdateGameStats(x) => {
            lemma_event_round_trip_updategamestats(code, mode, v);
        },
        PayloadV::MapPing(x) => {
            lemma_event_round_trip_mapping(code, mode, v);
        },
        PayloadV::HealedCubes(x) => {
            lemma_event_round_trip_healedcubes(code, mode, v);
        },
        PayloadV::CurrentSurrenderVotes(x) => {
            lemma_event_round_trip_currentsurrendervotes(code, mode, v);
        },
        PayloadV::SurrenderDeclined(x) => {
            lemma_event_round_trip_surrenderdeclined(code, mode, v);
        },
        PayloadV::SurrenderTimes(x) => {
            lemma_event_round_trip_surrendertimes(code, mode, v);
        },
        PayloadV::SetFinalGameScore(x) => {
            lemma_event_round_trip_setfinalgamescore(code, mode, v);
        },
        PayloadV::LockOnNotifier(x) => {
            lemma_event_round_trip_lockonnotifier(code, mode, v);
        },
        PayloadV::TeleportActivateEffect(x) => {
            lemma_event_round_trip_teleportactivateeffect(code, mode, v);
        },
        PayloadV::SpawnEmpLocator(x) => {
            lemma_event_round_trip_spawnemplocator(code, mode, v);
        },
        PayloadV::NetworkStunnedMachineEffect(x) => {
            lemma_event_round_trip_networkstunnedmachineeffect(code, mode, v);
        },
        PayloadV::SelectWeapon(x) => {
            lemma_event_round_trip_selectweapon(code, mode, v);
        },
        PayloadV::PlayerIDs(x) => {
            lemma_event_round_trip_playerids(code, mode, v);
        },
        PayloadV::HealAllyCubes(x) => {
            lemma_event_round_trip_healallycubes(code, mode, v);
        },
        PayloadV::UpdateGameModeSettings(x) => {
            lemma_event_round_trip_updategamemodesettings(code, mode, v);
        },
        PayloadV::UpdateTeamDeathMatch(x) => {
            lemma_event_round_trip_updateteamdeathmatch(code, mode, v);
        },
        PayloadV::LoadingProgress(x) => {
            lemma_event_round_trip_loadingprogress(code, mode, v);
        },
        PayloadV::EqualizerNotification(x) => {
            lemma_event_round_trip_equalizernotification(code, mode, v);
        },
        PayloadV::Taunt(x) => {
            lemma_event_round_trip_taunt(code, mode, v);
        },
        PayloadV::CommandOnly(x) => {
            lemma_event_round_trip_commandonly(code, mode, v);
        },
        PayloadV::DestroyCubeEffectOnly(x) => {
            lemma_event_round_trip_destroycubeeffectonly(code, mode, v);
        },
        PayloadV::DestroyCubeNoEffect(x) => {
            lemma_event_round_trip_destroycubenoeffect(code, mode, v);
        },
        PayloadV::DestroyCubesFull(x) => {
            lemma_event_round_trip_destroycubesfull(code, mode, v);
        },
        PayloadV::UpdateVotingAfterBattle(x) => {
            lemma_event_round_trip_updatevotingafterbattle(code, mode, v);
        },
        PayloadV::CosmeticAction(x) => {
            lemma_event_round_trip_cosmeticaction(code, mode, v);
        },
    }
}

} // verus!
