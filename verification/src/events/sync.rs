//! World and state synchronisation payloads.

use vstd::prelude::*;

use crate::error::{DecodeError, EncodeError};
use crate::types::{CapturePoint, CubeState, EqualizerState, FloatBits, GameModeSettings, IngamePlayerStats, IngamePlayerStatsV, PosQuatPair};
use crate::wire::{Codec, counted_ok_i32, counted_ok_u8, dec_counted_i32, dec_counted_u8, dec_elems, decode_counted_i32, decode_counted_u8, decode_elems, elems_ok, encode_counted_i32, encode_counted_u8, encode_elems, lemma_dec_wire_counted_i32, lemma_dec_wire_counted_u8, lemma_dec_wire_elems, lemma_subrange_split, wire_counted_i32, wire_counted_u8, wire_elems};

verus! {

/// Respawn healing timings for the current mode.
#[derive(Debug, Default, Clone, Copy, PartialEq)]
#[verifier::ext_equal]
pub struct UpdateGameModeSettings {
    pub respawn_heal_duration: FloatBits,
    pub respawn_full_heal_duration: FloatBits,
}

impl DeepView for UpdateGameModeSettings {
    type V = UpdateGameModeSettings;

    open spec fn deep_view(&self) -> UpdateGameModeSettings {
        *self
    }
}

impl Codec for UpdateGameModeSettings {
    open spec fn enc_ok(v: UpdateGameModeSettings) -> bool {
        true
    }

    open spec fn wire(v: UpdateGameModeSettings) -> Seq<u8> {
        FloatBits::wire(v.respawn_heal_duration) + FloatBits::wire(v.respawn_full_heal_duration)
    }

    open spec fn dec(b: Seq<u8>, pos: int) -> Result<(UpdateGameModeSettings, int), DecodeError> {
        match FloatBits::dec(b, pos) {
            Ok((respawn_heal_duration, p1)) => {
            match FloatBits::dec(b, p1) {
                Ok((respawn_full_heal_duration, p2)) => {
                Ok((UpdateGameModeSettings { respawn_heal_duration, respawn_full_heal_duration }, p2))
                },
                Err(e) => Err(e),
            }
            },
            Err(e) => Err(e),
        }
    }

    proof fn lemma_dec_wire(v: UpdateGameModeSettings, b: Seq<u8>, pos: int) {
        let w0 = FloatBits::wire(v.respawn_heal_duration);
        let w1 = FloatBits::wire(v.respawn_full_heal_duration);
        assert(Self::wire(v) =~= w0 + (w1));
        let p0 = pos;
        lemma_subrange_split(b, p0, w0, w1);
        FloatBits::lemma_dec_wire(v.respawn_heal_duration, b, p0);
        let p1 = p0 + w0.len();
        FloatBits::lemma_dec_wire(v.respawn_full_heal_duration, b, p1);
        assert((UpdateGameModeSettings { respawn_heal_duration: v.respawn_heal_duration, respawn_full_heal_duration: v.respawn_full_heal_duration }) =~= v);
    }

    fn decode(b: &[u8], pos: usize) -> (r: Result<(UpdateGameModeSettings, usize), DecodeError>) {
        let (respawn_heal_duration, at1) = match FloatBits::decode(b, pos) {
            Ok(x) => x,
            Err(e) => return Err(e),
        };
        let (respawn_full_heal_duration, at2) = match FloatBits::decode(b, at1) {
            Ok(x) => x,
            Err(e) => return Err(e),
        };
        Ok((UpdateGameModeSettings { respawn_heal_duration, respawn_full_heal_duration }, at2))
    }

    fn encode(&self, out: &mut Vec<u8>) -> (r: Result<(), EncodeError>) {
        match self.respawn_heal_duration.encode(out) {
            Ok(()) => (),
            Err(e) => return Err(e),
        };
        match self.respawn_full_heal_duration.encode(out) {
            Ok(()) => (),
            Err(e) => return Err(e),
        };
        proof {
            assert(out@ =~= old(out)@ + Self::wire(self.deep_view()));
        }
        Ok(())
    }
}
/// Both team bases and the protonium health they start with.
#[derive(Debug, Clone, Copy, PartialEq)]
#[verifier::ext_equal]
pub struct GetTeamBase {
    pub base_1: PosQuatPair,
    pub base_2: PosQuatPair,
    pub protonium_cube_health: i32,
}

impl DeepView for GetTeamBase {
    type V = GetTeamBase;

    open spec fn deep_view(&self) -> GetTeamBase {
        *self
    }
}

impl Codec for GetTeamBase {
    open spec fn enc_ok(v: GetTeamBase) -> bool {
        true
    }

    open spec fn wire(v: GetTeamBase) -> Seq<u8> {
        PosQuatPair::wire(v.base_1) + PosQuatPair::wire(v.base_2) + i32::wire(v.protonium_cube_health)
    }

    open spec fn dec(b: Seq<u8>, pos: int) -> Result<(GetTeamBase, int), DecodeError> {
        match PosQuatPair::dec(b, pos) {
            Ok((base_1, p1)) => {
            match PosQuatPair::dec(b, p1) {
                Ok((base_2, p2)) => {
                match i32::dec(b, p2) {
                    Ok((protonium_cube_health, p3)) => {
                    Ok((GetTeamBase { base_1, base_2, protonium_cube_health }, p3))
                    },
                    Err(e) => Err(e),
                }
                },
                Err(e) => Err(e),
            }
            },
            Err(e) => Err(e),
        }
    }

    proof fn lemma_dec_wire(v: GetTeamBase, b: Seq<u8>, pos: int) {
        let w0 = PosQuatPair::wire(v.base_1);
        let w1 = PosQuatPair::wire(v.base_2);
        let w2 = i32::wire(v.protonium_cube_health);
        assert(Self::wire(v) =~= w0 + (w1 + (w2)));
        let p0 = pos;
        lemma_subrange_split(b, p0, w0, w1 + (w2));
        PosQuatPair::lemma_dec_wire(v.base_1, b, p0);
        let p1 = p0 + w0.len();
        lemma_subrange_split(b, p1, w1, w2);
        PosQuatPair::lemma_dec_wire(v.base_2, b, p1);
        let p2 = p1 + w1.len();
        i32::lemma_dec_wire(v.protonium_cube_health, b, p2);
        assert((GetTeamBase { base_1: v.base_1, base_2: v.base_2, protonium_cube_health: v.protonium_cube_health }) =~= v);
    }

    fn decode(b: &[u8], pos: usize) -> (r: Result<(GetTeamBase, usize), DecodeError>) {
        let (base_1, at1) = match PosQuatPair::decode(b, pos) {
            Ok(x) => x,
            Err(e) => return Err(e),
        };
        let (base_2, at2) = match PosQuatPair::decode(b, at1) {
            Ok(x) => x,
            Err(e) => return Err(e),
        };
        let (protonium_cube_health, at3) = match i32::decode(b, at2) {
            Ok(x) => x,
            Err(e) => return Err(e),
        };
        Ok((GetTeamBase { base_1, base_2, protonium_cube_health }, at3))
    }

    fn encode(&self, out: &mut Vec<u8>) -> (r: Result<(), EncodeError>) {
        match self.base_1.encode(out) {
            Ok(()) => (),
            Err(e) => return Err(e),
        };
        match self.base_2.encode(out) {
            Ok(()) => (),
            Err(e) => return Err(e),
        };
        match self.protonium_cube_health.encode(out) {
            Ok(()) => (),
            Err(e) => return Err(e),
        };
        proof {
            assert(out@ =~= old(out)@ + Self::wire(self.deep_view()));
        }
        Ok(())
    }
}
/// The three capture points of the arena. The wire carries exactly
/// three, with no count prefix.
#[derive(Debug, Clone, PartialEq)]
#[verifier::ext_equal]
pub struct GetCapturePoints {
    pub points: Vec<CapturePoint>,
}

/// Model of a [`GetCapturePoints`] value: sequences stand for the vectors.
#[verifier::ext_equal]
pub struct GetCapturePointsV {
    pub points: Seq<CapturePoint>,
}

impl DeepView for GetCapturePoints {
    type V = GetCapturePointsV;

    open spec fn deep_view(&self) -> GetCapturePointsV {
        GetCapturePointsV {
            points: self.points.deep_view(),
        }
    }
}

impl Codec for GetCapturePoints {
    open spec fn enc_ok(v: GetCapturePointsV) -> bool {
        v.points.len() == 3 && elems_ok::<CapturePoint>(v.points)
    }

    open spec fn wire(v: GetCapturePointsV) -> Seq<u8> {
        wire_elems::<CapturePoint>(v.points)
    }

    open spec fn dec(b: Seq<u8>, pos: int) -> Result<(GetCapturePointsV, int), DecodeError> {
        match dec_elems::<CapturePoint>(b, pos, 3nat) {
            Ok((points, p1)) => {
            Ok((GetCapturePointsV { points }, p1))
            },
            Err(e) => Err(e),
        }
    }

    proof fn lemma_dec_wire(v: GetCapturePointsV, b: Seq<u8>, pos: int) {
        let w0 = wire_elems::<CapturePoint>(v.points);
        let p0 = pos;
        lemma_dec_wire_elems::<CapturePoint>(v.points, b, p0);
        assert((GetCapturePointsV { points: v.points }) =~= v);
    }

    fn decode(b: &[u8], pos: usize) -> (r: Result<(GetCapturePoints, usize), DecodeError>) {
        let (points, at1) = match decode_elems::<CapturePoint>(b, pos, 3) {
            Ok(x) => x,
            Err(e) => return Err(e),
        };
        Ok((GetCapturePoints { points }, at1))
    }

    fn encode(&self, out: &mut Vec<u8>) -> (r: Result<(), EncodeError>) {
        if self.points.len() != 3 {
            return Err(EncodeError::LengthOverflow);
        }
        match encode_elems::<CapturePoint>(&self.points, out) {
            Ok(()) => (),
            Err(e) => return Err(e),
        };
        proof {
            assert(out@ =~= old(out)@ + Self::wire(self.deep_view()));
        }
        Ok(())
    }
}
/// The equalizer's placement and health.
#[derive(Debug, Default, Clone, Copy, PartialEq)]
#[verifier::ext_equal]
pub struct GetEqualizer {
    pub pos: PosQuatPair,
    pub total_health: i32,
}

impl DeepView for GetEqualizer {
    type V = GetEqualizer;

    open spec fn deep_view(&self) -> GetEqualizer {
        *self
    }
}

impl Codec for GetEqualizer {
    open spec fn enc_ok(v: GetEqualizer) -> bool {
        true
    }

    open spec fn wire(v: GetEqualizer) -> Seq<u8> {
        PosQuatPair::wire(v.pos) + i32::wire(v.total_health)
    }

    open spec fn dec(b: Seq<u8>, pos: int) -> Result<(GetEqualizer, int), DecodeError> {
        match PosQuatPair::dec(b, pos) {
            Ok((pos, p1)) => {
            match i32::dec(b, p1) {
                Ok((total_health, p2)) => {
                Ok((GetEqualizer { pos, total_health }, p2))
                },
                Err(e) => Err(e),
            }
            },
            Err(e) => Err(e),
        }
    }

    proof fn lemma_dec_wire(v: GetEqualizer, b: Seq<u8>, pos: int) {
        let w0 = PosQuatPair::wire(v.pos);
        let w1 = i32::wire(v.total_health);
        assert(Self::wire(v) =~= w0 + (w1));
        let p0 = pos;
        lemma_subrange_split(b, p0, w0, w1);
        PosQuatPair::lemma_dec_wire(v.pos, b, p0);
        let p1 = p0 + w0.len();
        i32::lemma_dec_wire(v.total_health, b, p1);
        assert((GetEqualizer { pos: v.pos, total_health: v.total_health }) =~= v);
    }

    fn decode(b: &[u8], pos: usize) -> (r: Result<(GetEqualizer, usize), DecodeError>) {
        let (pos, at1) = match PosQuatPair::decode(b, pos) {
            Ok(x) => x,
            Err(e) => return Err(e),
        };
        let (total_health, at2) = match i32::decode(b, at1) {
            Ok(x) => x,
            Err(e) => return Err(e),
        };
        Ok((GetEqualizer { pos, total_health }, at2))
    }

    fn encode(&self, out: &mut Vec<u8>) -> (r: Result<(), EncodeError>) {
        match self.pos.encode(out) {
            Ok(()) => (),
            Err(e) => return Err(e),
        };
        match self.total_health.encode(out) {
            Ok(()) => (),
            Err(e) => return Err(e),
        };
        proof {
            assert(out@ =~= old(out)@ + Self::wire(self.deep_view()));
        }
        Ok(())
    }
}
/// One team's fusion shield power state.
#[derive(Debug, Default, Clone, Copy, PartialEq)]
#[verifier::ext_equal]
pub struct FusionShieldState {
    pub team_id: i8,
    pub full_power: u8,
}

impl DeepView for FusionShieldState {
    type V = FusionShieldState;

    open spec fn deep_view(&self) -> FusionShieldState {
        *self
    }
}

impl Codec for FusionShieldState {
    open spec fn enc_ok(v: FusionShieldState) -> bool {
        true
    }

    open spec fn wire(v: FusionShieldState) -> Seq<u8> {
        i8::wire(v.team_id) + u8::wire(v.full_power)
    }

    open spec fn dec(b: Seq<u8>, pos: int) -> Result<(FusionShieldState, int), DecodeError> {
        match i8::dec(b, pos) {
            Ok((team_id, p1)) => {
            match u8::dec(b, p1) {
                Ok((full_power, p2)) => {
                Ok((FusionShieldState { team_id, full_power }, p2))
                },
                Err(e) => Err(e),
            }
            },
            Err(e) => Err(e),
        }
    }

    proof fn lemma_dec_wire(v: FusionShieldState, b: Seq<u8>, pos: int) {
        let w0 = i8::wire(v.team_id);
        let w1 = u8::wire(v.full_power);
        assert(Self::wire(v) =~= w0 + (w1));
        let p0 = pos;
        lemma_subrange_split(b, p0, w0, w1);
        i8::lemma_dec_wire(v.team_id, b, p0);
        let p1 = p0 + w0.len();
        u8::lemma_dec_wire(v.full_power, b, p1);
        assert((FusionShieldState { team_id: v.team_id, full_power: v.full_power }) =~= v);
    }

    fn decode(b: &[u8], pos: usize) -> (r: Result<(FusionShieldState, usize), DecodeError>) {
        let (team_id, at1) = match i8::decode(b, pos) {
            Ok(x) => x,
            Err(e) => return Err(e),
        };
        let (full_power, at2) = match u8::decode(b, at1) {
            Ok(x) => x,
            Err(e) => return Err(e),
        };
        Ok((FusionShieldState { team_id, full_power }, at2))
    }

    fn encode(&self, out: &mut Vec<u8>) -> (r: Result<(), EncodeError>) {
        match self.team_id.encode(out) {
            Ok(()) => (),
            Err(e) => return Err(e),
        };
        match self.full_power.encode(out) {
            Ok(()) => (),
            Err(e) => return Err(e),
        };
        proof {
            assert(out@ =~= old(out)@ + Self::wire(self.deep_view()));
        }
        Ok(())
    }
}
/// A phase change in the equalizer encounter.
#[derive(Debug, Default, Clone, Copy, PartialEq)]
#[verifier::ext_equal]
pub struct EqualizerNotification {
    pub notification: EqualizerState,
    pub team_id: i16,
    pub time: i16,
    pub max_health: i32,
    pub health: i32,
}

impl DeepView for EqualizerNotification {
    type V = EqualizerNotification;

    open spec fn deep_view(&self) -> EqualizerNotification {
        *self
    }
}

impl Codec for EqualizerNotification {
    open spec fn enc_ok(v: EqualizerNotification) -> bool {
        true
    }

    open spec fn wire(v: EqualizerNotification) -> Seq<u8> {
        EqualizerState::wire(v.notification) + i16::wire(v.team_id) + i16::wire(v.time) + i32::wire(v.max_health) + i32::wire(v.health)
    }

    open spec fn dec(b: Seq<u8>, pos: int) -> Result<(EqualizerNotification, int), DecodeError> {
        match EqualizerState::dec(b, pos) {
            Ok((notification, p1)) => {
            match i16::dec(b, p1) {
                Ok((team_id, p2)) => {
                match i16::dec(b, p2) {
                    Ok((time, p3)) => {
                    match i32::dec(b, p3) {
                        Ok((max_health, p4)) => {
                        match i32::dec(b, p4) {
                            Ok((health, p5)) => {
                            Ok((EqualizerNotification { notification, team_id, time, max_health, health }, p5))
                            },
                            Err(e) => Err(e),
                        }
                        },
                        Err(e) => Err(e),
                    }
                    },
                    Err(e) => Err(e),
                }
                },
                Err(e) => Err(e),
            }
            },
            Err(e) => Err(e),
        }
    }

    proof fn lemma_dec_wire(v: EqualizerNotification, b: Seq<u8>, pos: int) {
        let w0 = EqualizerState::wire(v.notification);
        let w1 = i16::wire(v.team_id);
        let w2 = i16::wire(v.time);
        let w3 = i32::wire(v.max_health);
        let w4 = i32::wire(v.health);
        assert(Self::wire(v) =~= w0 + (w1 + (w2 + (w3 + (w4)))));
        let p0 = pos;
        lemma_subrange_split(b, p0, w0, w1 + (w2 + (w3 + (w4))));
        EqualizerState::lemma_dec_wire(v.notification, b, p0);
        let p1 = p0 + w0.len();
        lemma_subrange_split(b, p1, w1, w2 + (w3 + (w4)));
        i16::lemma_dec_wire(v.team_id, b, p1);
        let p2 = p1 + w1.len();
        lemma_subrange_split(b, p2, w2, w3 + (w4));
        i16::lemma_dec_wire(v.time, b, p2);
        let p3 = p2 + w2.len();
        lemma_subrange_split(b, p3, w3, w4);
        i32::lemma_dec_wire(v.max_health, b, p3);
        let p4 = p3 + w3.len();
        i32::lemma_dec_wire(v.health, b, p4);
        assert((EqualizerNotification { notification: v.notification, team_id: v.team_id, time: v.time, max_health: v.max_health, health: v.health }) =~= v);
    }

    fn decode(b: &[u8], pos: usize) -> (r: Result<(EqualizerNotification, usize), DecodeError>) {
        let (notification, at1) = match EqualizerState::decode(b, pos) {
            Ok(x) => x,
            Err(e) => return Err(e),
        };
        let (team_id, at2) = match i16::decode(b, at1) {
            Ok(x) => x,
            Err(e) => return Err(e),
        };
        let (time, at3) = match i16::decode(b, at2) {
            Ok(x) => x,
            Err(e) => return Err(e),
        };
        let (max_health, at4) = match i32::decode(b, at3) {
            Ok(x) => x,
            Err(e) => return Err(e),
        };
        let (health, at5) = match i32::decode(b, at4) {
            Ok(x) => x,
            Err(e) => return Err(e),
        };
        Ok((EqualizerNotification { notification, team_id, time, max_health, health }, at5))
    }

    fn encode(&self, out: &mut Vec<u8>) -> (r: Result<(), EncodeError>) {
        match self.notification.encode(out) {
            Ok(()) => (),
            Err(e) => return Err(e),
        };
        match self.team_id.encode(out) {
            Ok(()) => (),
            Err(e) => return Err(e),
        };
        match self.time.encode(out) {
            Ok(()) => (),
            Err(e) => return Err(e),
        };
        match self.max_health.encode(out) {
            Ok(()) => (),
            Err(e) => return Err(e),
        };
        match self.health.encode(out) {
            Ok(()) => (),
            Err(e) => return Err(e),
        };
        proof {
            assert(out@ =~= old(out)@ + Self::wire(self.deep_view()));
        }
        Ok(())
    }
}
/// Team-deathmatch rule settings, wrapped whole.
#[derive(Debug, Default, Clone, Copy, PartialEq)]
#[verifier::ext_equal]
pub struct UpdateTeamDeathmatchSettings {
    pub settings: GameModeSettings,
}

impl DeepView for UpdateTeamDeathmatchSettings {
    type V = UpdateTeamDeathmatchSettings;

    open spec fn deep_view(&self) -> UpdateTeamDeathmatchSettings {
        *self
    }
}

impl Codec for UpdateTeamDeathmatchSettings {
    open spec fn enc_ok(v: UpdateTeamDeathmatchSettings) -> bool {
        true
    }

    open spec fn wire(v: UpdateTeamDeathmatchSettings) -> Seq<u8> {
        GameModeSettings::wire(v.settings)
    }

    open spec fn dec(b: Seq<u8>, pos: int) -> Result<(UpdateTeamDeathmatchSettings, int), DecodeError> {
        match GameModeSettings::dec(b, pos) {
            Ok((settings, p1)) => {
            Ok((UpdateTeamDeathmatchSettings { settings }, p1))
            },
            Err(e) => Err(e),
        }
    }

    proof fn lemma_dec_wire(v: UpdateTeamDeathmatchSettings, b: Seq<u8>, pos: int) {
        let w0 = GameModeSettings::wire(v.settings);
        let p0 = pos;
        GameModeSettings::lemma_dec_wire(v.settings, b, p0);
        assert((UpdateTeamDeathmatchSettings { settings: v.settings }) =~= v);
    }

    fn decode(b: &[u8], pos: usize) -> (r: Result<(UpdateTeamDeathmatchSettings, usize), DecodeError>) {
        let (settings, at1) = match GameModeSettings::decode(b, pos) {
            Ok(x) => x,
            Err(e) => return Err(e),
        };
        Ok((UpdateTeamDeathmatchSettings { settings }, at1))
    }

    fn encode(&self, out: &mut Vec<u8>) -> (r: Result<(), EncodeError>) {
        match self.settings.encode(out) {
            Ok(()) => (),
            Err(e) => return Err(e),
        };
        proof {
            assert(out@ =~= old(out)@ + Self::wire(self.deep_view()));
        }
        Ok(())
    }
}
/// One team's score.
#[derive(Debug, Default, Clone, Copy, PartialEq)]
#[verifier::ext_equal]
pub struct TeamScore {
    pub team_id: i32,
    pub score: i32,
}

impl DeepView for TeamScore {
    type V = TeamScore;

    open spec fn deep_view(&self) -> TeamScore {
        *self
    }
}

impl Codec for TeamScore {
    open spec fn enc_ok(v: TeamScore) -> bool {
        true
    }

    open spec fn wire(v: TeamScore) -> Seq<u8> {
        i32::wire(v.team_id) + i32::wire(v.score)
    }

    open spec fn dec(b: Seq<u8>, pos: int) -> Result<(TeamScore, int), DecodeError> {
        match i32::dec(b, pos) {
            Ok((team_id, p1)) => {
            match i32::dec(b, p1) {
                Ok((score, p2)) => {
                Ok((TeamScore { team_id, score }, p2))
                },
                Err(e) => Err(e),
            }
            },
            Err(e) => Err(e),
        }
    }

    proof fn lemma_dec_wire(v: TeamScore, b: Seq<u8>, pos: int) {
        let w0 = i32::wire(v.team_id);
        let w1 = i32::wire(v.score);
        assert(Self::wire(v) =~= w0 + (w1));
        let p0 = pos;
        lemma_subrange_split(b, p0, w0, w1);
        i32::lemma_dec_wire(v.team_id, b, p0);
        let p1 = p0 + w0.len();
        i32::lemma_dec_wire(v.score, b, p1);
        assert((TeamScore { team_id: v.team_id, score: v.score }) =~= v);
    }

    fn decode(b: &[u8], pos: usize) -> (r: Result<(TeamScore, usize), DecodeError>) {
        let (team_id, at1) = match i32::decode(b, pos) {
            Ok(x) => x,
            Err(e) => return Err(e),
        };
        let (score, at2) = match i32::decode(b, at1) {
            Ok(x) => x,
            Err(e) => return Err(e),
        };
        Ok((TeamScore { team_id, score }, at2))
    }

    fn encode(&self, out: &mut Vec<u8>) -> (r: Result<(), EncodeError>) {
        match self.team_id.encode(out) {
            Ok(()) => (),
            Err(e) => return Err(e),
        };
        match self.score.encode(out) {
            Ok(()) => (),
            Err(e) => return Err(e),
        };
        proof {
            assert(out@ =~= old(out)@ + Self::wire(self.deep_view()));
        }
        Ok(())
    }
}
/// The deathmatch scoreboard and whether time ran out.
#[derive(Debug, Default, Clone, PartialEq)]
#[verifier::ext_equal]
pub struct UpdateTeamDeathMatch {
    pub team_scores: Vec<TeamScore>,
    pub time_expired: u8,
}

/// Model of a [`UpdateTeamDeathMatch`] value: sequences stand for the vectors.
#[verifier::ext_equal]
pub struct UpdateTeamDeathMatchV {
    pub team_scores: Seq<TeamScore>,
    pub time_expired: u8,
}

impl DeepView for UpdateTeamDeathMatch {
    type V = UpdateTeamDeathMatchV;

    open spec fn deep_view(&self) -> UpdateTeamDeathMatchV {
        UpdateTeamDeathMatchV {
            team_scores: self.team_scores.deep_view(),
            time_expired: self.time_expired,
        }
    }
}

impl Codec for UpdateTeamDeathMatch {
    open spec fn enc_ok(v: UpdateTeamDeathMatchV) -> bool {
        counted_ok_i32::<TeamScore>(v.team_scores)
    }

    open spec fn wire(v: UpdateTeamDeathMatchV) -> Seq<u8> {
        wire_counted_i32::<TeamScore>(v.team_scores) + u8::wire(v.time_expired)
    }

    open spec fn dec(b: Seq<u8>, pos: int) -> Result<(UpdateTeamDeathMatchV, int), DecodeError> {
        match dec_counted_i32::<TeamScore>(b, pos) {
            Ok((team_scores, p1)) => {
            match u8::dec(b, p1) {
                Ok((time_expired, p2)) => {
                Ok((UpdateTeamDeathMatchV { team_scores, time_expired }, p2))
                },
                Err(e) => Err(e),
            }
            },
            Err(e) => Err(e),
        }
    }

    proof fn lemma_dec_wire(v: UpdateTeamDeathMatchV, b: Seq<u8>, pos: int) {
        let w0 = wire_counted_i32::<TeamScore>(v.team_scores);
        let w1 = u8::wire(v.time_expired);
        assert(Self::wire(v) =~= w0 + (w1));
        let p0 = pos;
        lemma_subrange_split(b, p0, w0, w1);
        lemma_dec_wire_counted_i32::<TeamScore>(v.team_scores, b, p0);
        let p1 = p0 + w0.len();
        u8::lemma_dec_wire(v.time_expired, b, p1);
        assert((UpdateTeamDeathMatchV { team_scores: v.team_scores, time_expired: v.time_expired }) =~= v);
    }

    fn decode(b: &[u8], pos: usize) -> (r: Result<(UpdateTeamDeathMatch, usize), DecodeError>) {
        let (team_scores, at1) = match decode_counted_i32::<TeamScore>(b, pos) {
            Ok(x) => x,
            Err(e) => return Err(e),
        };
        let (time_expired, at2) = match u8::decode(b, at1) {
            Ok(x) => x,
            Err(e) => return Err(e),
        };
        Ok((UpdateTeamDeathMatch { team_scores, time_expired }, at2))
    }

    fn encode(&self, out: &mut Vec<u8>) -> (r: Result<(), EncodeError>) {
        match encode_counted_i32::<TeamScore>(&self.team_scores, out) {
            Ok(()) => (),
            Err(e) => return Err(e),
        };
        match self.time_expired.encode(out) {
            Ok(()) => (),
            Err(e) => return Err(e),
        };
        proof {
            assert(out@ =~= old(out)@ + Self::wire(self.deep_view()));
        }
        Ok(())
    }
}
/// Every player's opening statistics block.
#[derive(Debug, Default, Clone, PartialEq)]
#[verifier::ext_equal]
pub struct InitialiseGameStats {
    pub stats: Vec<IngamePlayerStats>,
}

/// Model of a [`InitialiseGameStats`] value: sequences stand for the vectors.
#[verifier::ext_equal]
pub struct InitialiseGameStatsV {
    pub stats: Seq<IngamePlayerStatsV>,
}

impl DeepView for InitialiseGameStats {
    type V = InitialiseGameStatsV;

    open spec fn deep_view(&self) -> InitialiseGameStatsV {
        InitialiseGameStatsV {
            stats: self.stats.deep_view(),
        }
    }
}

impl Codec for InitialiseGameStats {
    open spec fn enc_ok(v: InitialiseGameStatsV) -> bool {
        counted_ok_u8::<IngamePlayerStats>(v.stats)
    }

    open spec fn wire(v: InitialiseGameStatsV) -> Seq<u8> {
        wire_counted_u8::<IngamePlayerStats>(v.stats)
    }

    open spec fn dec(b: Seq<u8>, pos: int) -> Result<(InitialiseGameStatsV, int), DecodeError> {
        match dec_counted_u8::<IngamePlayerStats>(b, pos) {
            Ok((stats, p1)) => {
            Ok((InitialiseGameStatsV { stats }, p1))
            },
            Err(e) => Err(e),
        }
    }

    proof fn lemma_dec_wire(v: InitialiseGameStatsV, b: Seq<u8>, pos: int) {
        let w0 = wire_counted_u8::<IngamePlayerStats>(v.stats);
        let p0 = pos;
        lemma_dec_wire_counted_u8::<IngamePlayerStats>(v.stats, b, p0);
        assert((InitialiseGameStatsV { stats: v.stats }) =~= v);
    }

    fn decode(b: &[u8], pos: usize) -> (r: Result<(InitialiseGameStats, usize), DecodeError>) {
        let (stats, at1) = match decode_counted_u8::<IngamePlayerStats>(b, pos) {
            Ok(x) => x,
            Err(e) => return Err(e),
        };
        Ok((InitialiseGameStats { stats }, at1))
    }

    fn encode(&self, out: &mut Vec<u8>) -> (r: Result<(), EncodeError>) {
        match encode_counted_u8::<IngamePlayerStats>(&self.stats, out) {
            Ok(()) => (),
            Err(e) => return Err(e),
        };
        proof {
            assert(out@ =~= old(out)@ + Self::wire(self.deep_view()));
        }
        Ok(())
    }
}
/// A spawn point granted to one player.
#[derive(Debug, Default, Clone, Copy, PartialEq)]
#[verifier::ext_equal]
pub struct SpawnPoint {
    pub pos: PosQuatPair,
    pub owner: u8,
}

impl DeepView for SpawnPoint {
    type V = SpawnPoint;

    open spec fn deep_view(&self) -> SpawnPoint {
        *self
    }
}

impl Codec for SpawnPoint {
    open spec fn enc_ok(v: SpawnPoint) -> bool {
        true
    }

    open spec fn wire(v: SpawnPoint) -> Seq<u8> {
        PosQuatPair::wire(v.pos) + u8::wire(v.owner)
    }

    open spec fn dec(b: Seq<u8>, pos: int) -> Result<(SpawnPoint, int), DecodeError> {
        match PosQuatPair::dec(b, pos) {
            Ok((pos, p1)) => {
            match u8::dec(b, p1) {
                Ok((owner, p2)) => {
                Ok((SpawnPoint { pos, owner }, p2))
                },
                Err(e) => Err(e),
            }
            },
            Err(e) => Err(e),
        }
    }

    proof fn lemma_dec_wire(v: SpawnPoint, b: Seq<u8>, pos: int) {
        let w0 = PosQuatPair::wire(v.pos);
        let w1 = u8::wire(v.owner);
        assert(Self::wire(v) =~= w0 + (w1));
        let p0 = pos;
        lemma_subrange_split(b, p0, w0, w1);
        PosQuatPair::lemma_dec_wire(v.pos, b, p0);
        let p1 = p0 + w0.len();
        u8::lemma_dec_wire(v.owner, b, p1);
        assert((SpawnPoint { pos: v.pos, owner: v.owner }) =~= v);
    }

    fn decode(b: &[u8], pos: usize) -> (r: Result<(SpawnPoint, usize), DecodeError>) {
        let (pos, at1) = match PosQuatPair::decode(b, pos) {
            Ok(x) => x,
            Err(e) => return Err(e),
        };
        let (owner, at2) = match u8::decode(b, at1) {
            Ok(x) => x,
            Err(e) => return Err(e),
        };
        Ok((SpawnPoint { pos, owner }, at2))
    }

    fn encode(&self, out: &mut Vec<u8>) -> (r: Result<(), EncodeError>) {
        match self.pos.encode(out) {
            Ok(()) => (),
            Err(e) => return Err(e),
        };
        match self.owner.encode(out) {
            Ok(()) => (),
            Err(e) => return Err(e),
        };
        proof {
            assert(out@ =~= old(out)@ + Self::wire(self.deep_view()));
        }
        Ok(())
    }
}
/// A machine's cube history, replayed for a late or resynced client.
#[derive(Debug, Default, Clone, PartialEq)]
#[verifier::ext_equal]
pub struct SyncMachineCubes {
    pub machine_id: u16,
    pub events: Vec<CubeState>,
}

/// Model of a [`SyncMachineCubes`] value: sequences stand for the vectors.
#[verifier::ext_equal]
pub struct SyncMachineCubesV {
    pub machine_id: u16,
    pub events: Seq<CubeState>,
}

impl DeepView for SyncMachineCubes {
    type V = SyncMachineCubesV;

    open spec fn deep_view(&self) -> SyncMachineCubesV {
        SyncMachineCubesV {
            machine_id: self.machine_id,
            events: self.events.deep_view(),
        }
    }
}

impl Codec for SyncMachineCubes {
    open spec fn enc_ok(v: SyncMachineCubesV) -> bool {
        counted_ok_i32::<CubeState>(v.events)
    }

    open spec fn wire(v: SyncMachineCubesV) -> Seq<u8> {
        u16::wire(v.machine_id) + wire_counted_i32::<CubeState>(v.events)
    }

    open spec fn dec(b: Seq<u8>, pos: int) -> Result<(SyncMachineCubesV, int), DecodeError> {
        match u16::dec(b, pos) {
            Ok((machine_id, p1)) => {
            match dec_counted_i32::<CubeState>(b, p1) {
                Ok((events, p2)) => {
                Ok((SyncMachineCubesV { machine_id, events }, p2))
                },
                Err(e) => Err(e),
            }
            },
            Err(e) => Err(e),
        }
    }

    proof fn lemma_dec_wire(v: SyncMachineCubesV, b: Seq<u8>, pos: int) {
        let w0 = u16::wire(v.machine_id);
        let w1 = wire_counted_i32::<CubeState>(v.events);
        assert(Self::wire(v) =~= w0 + (w1));
        let p0 = pos;
        lemma_subrange_split(b, p0, w0, w1);
        u16::lemma_dec_wire(v.machine_id, b, p0);
        let p1 = p0 + w0.len();
        lemma_dec_wire_counted_i32::<CubeState>(v.events, b, p1);
        assert((SyncMachineCubesV { machine_id: v.machine_id, events: v.events }) =~= v);
    }

    fn decode(b: &[u8], pos: usize) -> (r: Result<(SyncMachineCubes, usize), DecodeError>) {
        let (machine_id, at1) = match u16::decode(b, pos) {
            Ok(x) => x,
            Err(e) => return Err(e),
        };
        let (events, at2) = match decode_counted_i32::<CubeState>(b, at1) {
            Ok(x) => x,
            Err(e) => return Err(e),
        };
        Ok((SyncMachineCubes { machine_id, events }, at2))
    }

    fn encode(&self, out: &mut Vec<u8>) -> (r: Result<(), EncodeError>) {
        match self.machine_id.encode(out) {
            Ok(()) => (),
            Err(e) => return Err(e),
        };
        match encode_counted_i32::<CubeState>(&self.events, out) {
            Ok(()) => (),
            Err(e) => return Err(e),
        };
        proof {
            assert(out@ =~= old(out)@ + Self::wire(self.deep_view()));
        }
        Ok(())
    }
}

} // verus!
