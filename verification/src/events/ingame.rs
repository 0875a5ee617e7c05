//! In-combat event payloads: fire, damage, heals, kills, pings, input
//! and the surrender flow.

use vstd::prelude::*;

use crate::error::{DecodeError, EncodeError};
use crate::types::{BinaryWriterString, Byte3, ByteFloat, CompressedVec3, CubeStatus, DVec3, FloatBits, GameEndReason, HitCubeInfo, IngameStatId, ItemDescriptor, PingType, PosQuatPair, SQuat, SVec3, TargetType, VoteType};
use crate::wire::{Codec, counted_ok_i32, counted_ok_u16, counted_ok_u8, dec_counted_i32, dec_counted_u16, dec_counted_u8, dec_elems, decode_counted_i32, decode_counted_u16, decode_counted_u8, decode_elems, elems_ok, encode_counted_i32, encode_counted_u16, encode_counted_u8, encode_elems, lemma_dec_wire_counted_i32, lemma_dec_wire_counted_u16, lemma_dec_wire_counted_u8, lemma_dec_wire_elems, lemma_subrange_split, wire_counted_i32, wire_counted_u16, wire_counted_u8, wire_elems};

verus! {

/// A player's final score for the battle.
#[derive(Debug, Clone, Copy, PartialEq)]
#[verifier::ext_equal]
pub struct SetFinalGameScore {
    pub player_id: u8,
    pub score: i32,
}

impl DeepView for SetFinalGameScore {
    type V = SetFinalGameScore;

    open spec fn deep_view(&self) -> SetFinalGameScore {
        *self
    }
}

impl Codec for SetFinalGameScore {
    open spec fn enc_ok(v: SetFinalGameScore) -> bool {
        true
    }

    open spec fn wire(v: SetFinalGameScore) -> Seq<u8> {
        u8::wire(v.player_id) + i32::wire(v.score)
    }

    open spec fn dec(b: Seq<u8>, pos: int) -> Result<(SetFinalGameScore, int), DecodeError> {
        match u8::dec(b, pos) {
            Ok((player_id, p1)) => {
            match i32::dec(b, p1) {
                Ok((score, p2)) => {
                Ok((SetFinalGameScore { player_id, score }, p2))
                },
                Err(e) => Err(e),
            }
            },
            Err(e) => Err(e),
        }
    }

    proof fn lemma_dec_wire(v: SetFinalGameScore, b: Seq<u8>, pos: int) {
        let w0 = u8::wire(v.player_id);
        let w1 = i32::wire(v.score);
        assert(Self::wire(v) =~= w0 + (w1));
        let p0 = pos;
        lemma_subrange_split(b, p0, w0, w1);
        u8::lemma_dec_wire(v.player_id, b, p0);
        let p1 = p0 + w0.len();
        i32::lemma_dec_wire(v.score, b, p1);
        assert((SetFinalGameScore { player_id: v.player_id, score: v.score }) =~= v);
    }

    fn decode(b: &[u8], pos: usize) -> (r: Result<(SetFinalGameScore, usize), DecodeError>) {
        let (player_id, at1) = match u8::decode(b, pos) {
            Ok(x) => x,
            Err(e) => return Err(e),
        };
        let (score, at2) = match i32::decode(b, at1) {
            Ok(x) => x,
            Err(e) => return Err(e),
        };
        Ok((SetFinalGameScore { player_id, score }, at2))
    }

    fn encode(&self, out: &mut Vec<u8>) -> (r: Result<(), EncodeError>) {
        match self.player_id.encode(out) {
            Ok(()) => (),
            Err(e) => return Err(e),
        };
        match self.score.encode(out) {
            Ok(()) => (),
            Err(e) => return Err(e),
        };
        proof {
            assert(out@ =~= old(out)@ + Self::wire(self.deep_view()));
        }
        Ok(())
    }
}
/// One statistic update for one player.
#[derive(Debug, Clone, Copy, PartialEq)]
#[verifier::ext_equal]
pub struct UpdateGameStats {
    pub player_id: u8,
    pub stat_id: IngameStatId,
    pub amount: u32,
    pub score: u32,
    pub delta_score: u32,
}

impl DeepView for UpdateGameStats {
    type V = UpdateGameStats;

    open spec fn deep_view(&self) -> UpdateGameStats {
        *self
    }
}

impl Codec for UpdateGameStats {
    open spec fn enc_ok(v: UpdateGameStats) -> bool {
        true
    }

    open spec fn wire(v: UpdateGameStats) -> Seq<u8> {
        u8::wire(v.player_id) + IngameStatId::wire(v.stat_id) + u32::wire(v.amount) + u32::wire(v.score) + u32::wire(v.delta_score)
    }

    open spec fn dec(b: Seq<u8>, pos: int) -> Result<(UpdateGameStats, int), DecodeError> {
        match u8::dec(b, pos) {
            Ok((player_id, p1)) => {
            match IngameStatId::dec(b, p1) {
                Ok((stat_id, p2)) => {
                match u32::dec(b, p2) {
                    Ok((amount, p3)) => {
                    match u32::dec(b, p3) {
                        Ok((score, p4)) => {
                        match u32::dec(b, p4) {
                            Ok((delta_score, p5)) => {
                            Ok((UpdateGameStats { player_id, stat_id, amount, score, delta_score }, p5))
                            },
                            Err(e) => Err(e),
                        }
                        },
                        Err(e) => Err(e),
                    }
                    },
                    Err(e) => Err(e),
                }
                },
                Err(e) => Err(e),
            }
            },
            Err(e) => Err(e),
        }
    }

    proof fn lemma_dec_wire(v: UpdateGameStats, b: Seq<u8>, pos: int) {
        let w0 = u8::wire(v.player_id);
        let w1 = IngameStatId::wire(v.stat_id);
        let w2 = u32::wire(v.amount);
        let w3 = u32::wire(v.score);
        let w4 = u32::wire(v.delta_score);
        assert(Self::wire(v) =~= w0 + (w1 + (w2 + (w3 + (w4)))));
        let p0 = pos;
        lemma_subrange_split(b, p0, w0, w1 + (w2 + (w3 + (w4))));
        u8::lemma_dec_wire(v.player_id, b, p0);
        let p1 = p0 + w0.len();
        lemma_subrange_split(b, p1, w1, w2 + (w3 + (w4)));
        IngameStatId::lemma_dec_wire(v.stat_id, b, p1);
        let p2 = p1 + w1.len();
        lemma_subrange_split(b, p2, w2, w3 + (w4));
        u32::lemma_dec_wire(v.amount, b, p2);
        let p3 = p2 + w2.len();
        lemma_subrange_split(b, p3, w3, w4);
        u32::lemma_dec_wire(v.score, b, p3);
        let p4 = p3 + w3.len();
        u32::lemma_dec_wire(v.delta_score, b, p4);
        assert((UpdateGameStats { player_id: v.player_id, stat_id: v.stat_id, amount: v.amount, score: v.score, delta_score: v.delta_score }) =~= v);
    }

    fn decode(b: &[u8], pos: usize) -> (r: Result<(UpdateGameStats, usize), DecodeError>) {
        let (player_id, at1) = match u8::decode(b, pos) {
            Ok(x) => x,
            Err(e) => return Err(e),
        };
        let (stat_id, at2) = match IngameStatId::decode(b, at1) {
            Ok(x) => x,
            Err(e) => return Err(e),
        };
        let (amount, at3) = match u32::decode(b, at2) {
            Ok(x) => x,
            Err(e) => return Err(e),
        };
        let (score, at4) = match u32::decode(b, at3) {
            Ok(x) => x,
            Err(e) => return Err(e),
        };
        let (delta_score, at5) = match u32::decode(b, at4) {
            Ok(x) => x,
            Err(e) => return Err(e),
        };
        Ok((UpdateGameStats { player_id, stat_id, amount, score, delta_score }, at5))
    }

    fn encode(&self, out: &mut Vec<u8>) -> (r: Result<(), EncodeError>) {
        match self.player_id.encode(out) {
            Ok(()) => (),
            Err(e) => return Err(e),
        };
        match self.stat_id.encode(out) {
            Ok(()) => (),
            Err(e) => return Err(e),
        };
        match self.amount.encode(out) {
            Ok(()) => (),
            Err(e) => return Err(e),
        };
        match self.score.encode(out) {
            Ok(()) => (),
            Err(e) => return Err(e),
        };
        match self.delta_score.encode(out) {
            Ok(()) => (),
            Err(e) => return Err(e),
        };
        proof {
            assert(out@ =~= old(out)@ + Self::wire(self.deep_view()));
        }
        Ok(())
    }
}
/// The running tally of one after-battle vote.
#[derive(Debug, Clone, PartialEq)]
#[verifier::ext_equal]
pub struct UpdateVotingAfterBattle {
    pub player_name: BinaryWriterString,
    pub amount: i32,
    pub vote_type: VoteType,
}

/// Model of a [`UpdateVotingAfterBattle`] value: sequences stand for the vectors.
#[verifier::ext_equal]
pub struct UpdateVotingAfterBattleV {
    pub player_name: Seq<u16>,
    pub amount: i32,
    pub vote_type: VoteType,
}

impl DeepView for UpdateVotingAfterBattle {
    type V = UpdateVotingAfterBattleV;

    open spec fn deep_view(&self) -> UpdateVotingAfterBattleV {
        UpdateVotingAfterBattleV {
            player_name: self.player_name.deep_view(),
            amount: self.amount,
            vote_type: self.vote_type,
        }
    }
}

impl Codec for UpdateVotingAfterBattle {
    open spec fn enc_ok(v: UpdateVotingAfterBattleV) -> bool {
        BinaryWriterString::enc_ok(v.player_name)
    }

    open spec fn wire(v: UpdateVotingAfterBattleV) -> Seq<u8> {
        BinaryWriterString::wire(v.player_name) + i32::wire(v.amount) + VoteType::wire(v.vote_type)
    }

    open spec fn dec(b: Seq<u8>, pos: int) -> Result<(UpdateVotingAfterBattleV, int), DecodeError> {
        match BinaryWriterString::dec(b, pos) {
            Ok((player_name, p1)) => {
            match i32::dec(b, p1) {
                Ok((amount, p2)) => {
                match VoteType::dec(b, p2) {
                    Ok((vote_type, p3)) => {
                    Ok((UpdateVotingAfterBattleV { player_name, amount, vote_type }, p3))
                    },
                    Err(e) => Err(e),
                }
                },
                Err(e) => Err(e),
            }
            },
            Err(e) => Err(e),
        }
    }

    proof fn lemma_dec_wire(v: UpdateVotingAfterBattleV, b: Seq<u8>, pos: int) {
        let w0 = BinaryWriterString::wire(v.player_name);
        let w1 = i32::wire(v.amount);
        let w2 = VoteType::wire(v.vote_type);
        assert(Self::wire(v) =~= w0 + (w1 + (w2)));
        let p0 = pos;
        lemma_subrange_split(b, p0, w0, w1 + (w2));
        BinaryWriterString::lemma_dec_wire(v.player_name, b, p0);
        let p1 = p0 + w0.len();
        lemma_subrange_split(b, p1, w1, w2);
        i32::lemma_dec_wire(v.amount, b, p1);
        let p2 = p1 + w1.len();
        VoteType::lemma_dec_wire(v.vote_type, b, p2);
        assert((UpdateVotingAfterBattleV { player_name: v.player_name, amount: v.amount, vote_type: v.vote_type }) =~= v);
    }

    fn decode(b: &[u8], pos: usize) -> (r: Result<(UpdateVotingAfterBattle, usize), DecodeError>) {
        let (player_name, at1) = match BinaryWriterString::decode(b, pos) {
            Ok(x) => x,
            Err(e) => return Err(e),
        };
        let (amount, at2) = match i32::decode(b, at1) {
            Ok(x) => x,
            Err(e) => return Err(e),
        };
        let (vote_type, at3) = match VoteType::decode(b, at2) {
            Ok(x) => x,
            Err(e) => return Err(e),
        };
        Ok((UpdateVotingAfterBattle { player_name, amount, vote_type }, at3))
    }

    fn encode(&self, out: &mut Vec<u8>) -> (r: Result<(), EncodeError>) {
        match self.player_name.encode(out) {
            Ok(()) => (),
            Err(e) => return Err(e),
        };
        match self.amount.encode(out) {
            Ok(()) => (),
            Err(e) => return Err(e),
        };
        match self.vote_type.encode(out) {
            Ok(()) => (),
            Err(e) => return Err(e),
        };
        proof {
            assert(out@ =~= old(out)@ + Self::wire(self.deep_view()));
        }
        Ok(())
    }
}
/// A confirmed kill or assist: who fell and who is credited.
#[derive(Debug, Clone, Copy, PartialEq)]
#[verifier::ext_equal]
pub struct Kill {
    pub killee_player_id: i32,
    pub killer_player_id: u8,
}

impl DeepView for Kill {
    type V = Kill;

    open spec fn deep_view(&self) -> Kill {
        *self
    }
}

impl Codec for Kill {
    open spec fn enc_ok(v: Kill) -> bool {
        true
    }

    open spec fn wire(v: Kill) -> Seq<u8> {
        i32::wire(v.killee_player_id) + u8::wire(v.killer_player_id)
    }

    open spec fn dec(b: Seq<u8>, pos: int) -> Result<(Kill, int), DecodeError> {
        match i32::dec(b, pos) {
            Ok((killee_player_id, p1)) => {
            match u8::dec(b, p1) {
                Ok((killer_player_id, p2)) => {
                Ok((Kill { killee_player_id, killer_player_id }, p2))
                },
                Err(e) => Err(e),
            }
            },
            Err(e) => Err(e),
        }
    }

    proof fn lemma_dec_wire(v: Kill, b: Seq<u8>, pos: int) {
        let w0 = i32::wire(v.killee_player_id);
        let w1 = u8::wire(v.killer_player_id);
        assert(Self::wire(v) =~= w0 + (w1));
        let p0 = pos;
        lemma_subrange_split(b, p0, w0, w1);
        i32::lemma_dec_wire(v.killee_player_id, b, p0);
        let p1 = p0 + w0.len();
        u8::lemma_dec_wire(v.killer_player_id, b, p1);
        assert((Kill { killee_player_id: v.killee_player_id, killer_player_id: v.killer_player_id }) =~= v);
    }

    fn decode(b: &[u8], pos: usize) -> (r: Result<(Kill, usize), DecodeError>) {
        let (killee_player_id, at1) = match i32::decode(b, pos) {
            Ok(x) => x,
            Err(e) => return Err(e),
        };
        let (killer_player_id, at2) = match u8::decode(b, at1) {
            Ok(x) => x,
            Err(e) => return Err(e),
        };
        Ok((Kill { killee_player_id, killer_player_id }, at2))
    }

    fn encode(&self, out: &mut Vec<u8>) -> (r: Result<(), EncodeError>) {
        match self.killee_player_id.encode(out) {
            Ok(()) => (),
            Err(e) => return Err(e),
        };
        match self.killer_player_id.encode(out) {
            Ok(()) => (),
            Err(e) => return Err(e),
        };
        proof {
            assert(out@ =~= old(out)@ + Self::wire(self.deep_view()));
        }
        Ok(())
    }
}
/// Bit-packed player input flags in one 16-bit word. Decoding
/// reinterprets the raw integer and keeps unknown bits, so flags added by
/// a newer peer survive a round trip; encoding writes the raw bit pattern
/// verbatim.
#[derive(Debug, Clone, Copy, PartialEq, Eq)]
#[verifier::ext_equal]
pub struct PackedInputData {
    pub bits: u16,
}

/// The jump input bit.
pub const JUMP: u16 = 1u16 << 1;

/// The crouch input bit.
pub const CROUCH: u16 = 1u16 << 2;

/// The pulse-AR input bit.
pub const PULSE_AR: u16 = 1u16 << 3;

/// The toggle-lights input bit.
pub const TOGGLE_LIGHTS: u16 = 1u16 << 4;

/// The positive horizontal axis bit.
pub const HORIZONTAL_POSITIVE: u16 = 1u16 << 5;

/// The negative horizontal axis bit.
pub const HORIZONTAL_NEGATIVE: u16 = 1u16 << 6;

/// The positive vertical axis bit.
pub const VERTICAL_POSITIVE: u16 = 1u16 << 7;

/// The negative vertical axis bit.
pub const VERTICAL_NEGATIVE: u16 = 1u16 << 8;

/// The strafe-left input bit.
pub const STRAFE_LEFT: u16 = 1u16 << 9;

/// The strafe-right input bit.
pub const STRAFE_RIGHT: u16 = 1u16 << 10;

impl PackedInputData {
    /// Wrap a raw flag word, keeping every bit as it is.
    pub fn from_bits_retain(bits: u16) -> (r: PackedInputData)
        ensures
            r.bits == bits,
    {
        PackedInputData { bits }
    }

    /// The raw flag word.
    pub fn bits(&self) -> (r: u16)
        ensures
            r == self.bits,
    {
        self.bits
    }

    /// Whether any bit of `mask` is set.
    pub fn contains(&self, mask: u16) -> (r: bool)
        ensures
            r == (self.bits & mask != 0),
    {
        self.bits & mask != 0
    }
}

impl DeepView for PackedInputData {
    type V = PackedInputData;

    open spec fn deep_view(&self) -> PackedInputData {
        *self
    }
}

impl Codec for PackedInputData {
    open spec fn enc_ok(v: PackedInputData) -> bool {
        true
    }

    open spec fn wire(v: PackedInputData) -> Seq<u8> {
        u16::wire(v.bits)
    }

    open spec fn dec(b: Seq<u8>, pos: int) -> Result<(PackedInputData, int), DecodeError> {
        match u16::dec(b, pos) {
            Ok((bits, end)) => Ok((PackedInputData { bits }, end)),
            Err(e) => Err(e),
        }
    }

    proof fn lemma_dec_wire(v: PackedInputData, b: Seq<u8>, pos: int) {
        u16::lemma_dec_wire(v.bits, b, pos);
        assert((PackedInputData { bits: v.bits }) =~= v);
    }

    fn decode(b: &[u8], pos: usize) -> (r: Result<(PackedInputData, usize), DecodeError>) {
        match u16::decode(b, pos) {
            Ok((bits, end)) => Ok((PackedInputData { bits }, end)),
            Err(e) => Err(e),
        }
    }

    fn encode(&self, out: &mut Vec<u8>) -> (r: Result<(), EncodeError>) {
        self.bits.encode(out)
    }
}

/// One player's current input flags.
#[derive(Debug, Clone, Copy, PartialEq)]
#[verifier::ext_equal]
pub struct PlayerIdAndInputData {
    pub player_id: u8,
    pub input_data: PackedInputData,
}

impl DeepView for PlayerIdAndInputData {
    type V = PlayerIdAndInputData;

    open spec fn deep_view(&self) -> PlayerIdAndInputData {
        *self
    }
}

impl Codec for PlayerIdAndInputData {
    open spec fn enc_ok(v: PlayerIdAndInputData) -> bool {
        true
    }

    open spec fn wire(v: PlayerIdAndInputData) -> Seq<u8> {
        u8::wire(v.player_id) + PackedInputData::wire(v.input_data)
    }

    open spec fn dec(b: Seq<u8>, pos: int) -> Result<(PlayerIdAndInputData, int), DecodeError> {
        match u8::dec(b, pos) {
            Ok((player_id, p1)) => {
            match PackedInputData::dec(b, p1) {
                Ok((input_data, p2)) => {
                Ok((PlayerIdAndInputData { player_id, input_data }, p2))
                },
                Err(e) => Err(e),
            }
            },
            Err(e) => Err(e),
        }
    }

    proof fn lemma_dec_wire(v: PlayerIdAndInputData, b: Seq<u8>, pos: int) {
        let w0 = u8::wire(v.player_id);
        let w1 = PackedInputData::wire(v.input_data);
        assert(Self::wire(v) =~= w0 + (w1));
        let p0 = pos;
        lemma_subrange_split(b, p0, w0, w1);
        u8::lemma_dec_wire(v.player_id, b, p0);
        let p1 = p0 + w0.len();
        PackedInputData::lemma_dec_wire(v.input_data, b, p1);
        assert((PlayerIdAndInputData { player_id: v.player_id, input_data: v.input_data }) =~= v);
    }

    fn decode(b: &[u8], pos: usize) -> (r: Result<(PlayerIdAndInputData, usize), DecodeError>) {
        let (player_id, at1) = match u8::decode(b, pos) {
            Ok(x) => x,
            Err(e) => return Err(e),
        };
        let (input_data, at2) = match PackedInputData::decode(b, at1) {
            Ok(x) => x,
            Err(e) => return Err(e),
        };
        Ok((PlayerIdAndInputData { player_id, input_data }, at2))
    }

    fn encode(&self, out: &mut Vec<u8>) -> (r: Result<(), EncodeError>) {
        match self.player_id.encode(out) {
            Ok(()) => (),
            Err(e) => return Err(e),
        };
        match self.input_data.encode(out) {
            Ok(()) => (),
            Err(e) => return Err(e),
        };
        proof {
            assert(out@ =~= old(out)@ + Self::wire(self.deep_view()));
        }
        Ok(())
    }
}
/// Input changes for several players at once, count-prefixed.
#[derive(Debug, Clone, PartialEq)]
#[verifier::ext_equal]
pub struct MultiPlayerInputChanged {
    pub changes: Vec<PlayerIdAndInputData>,
}

/// Model of a [`MultiPlayerInputChanged`] value: sequences stand for the vectors.
#[verifier::ext_equal]
pub struct MultiPlayerInputChangedV {
    pub changes: Seq<PlayerIdAndInputData>,
}

impl DeepView for MultiPlayerInputChanged {
    type V = MultiPlayerInputChangedV;

    open spec fn deep_view(&self) -> MultiPlayerInputChangedV {
        MultiPlayerInputChangedV {
            changes: self.changes.deep_view(),
        }
    }
}

impl Codec for MultiPlayerInputChanged {
    open spec fn enc_ok(v: MultiPlayerInputChangedV) -> bool {
        counted_ok_u8::<PlayerIdAndInputData>(v.changes)
    }

    open spec fn wire(v: MultiPlayerInputChangedV) -> Seq<u8> {
        wire_counted_u8::<PlayerIdAndInputData>(v.changes)
    }

    open spec fn dec(b: Seq<u8>, pos: int) -> Result<(MultiPlayerInputChangedV, int), DecodeError> {
        match dec_counted_u8::<PlayerIdAndInputData>(b, pos) {
            Ok((changes, p1)) => {
            Ok((MultiPlayerInputChangedV { changes }, p1))
            },
            Err(e) => Err(e),
        }
    }

    proof fn lemma_dec_wire(v: MultiPlayerInputChangedV, b: Seq<u8>, pos: int) {
        let w0 = wire_counted_u8::<PlayerIdAndInputData>(v.changes);
        let p0 = pos;
        lemma_dec_wire_counted_u8::<PlayerIdAndInputData>(v.changes, b, p0);
        assert((MultiPlayerInputChangedV { changes: v.changes }) =~= v);
    }

    fn decode(b: &[u8], pos: usize) -> (r: Result<(MultiPlayerInputChanged, usize), DecodeError>) {
        let (changes, at1) = match decode_counted_u8::<PlayerIdAndInputData>(b, pos) {
            Ok(x) => x,
            Err(e) => return Err(e),
        };
        Ok((MultiPlayerInputChanged { changes }, at1))
    }

    fn encode(&self, out: &mut Vec<u8>) -> (r: Result<(), EncodeError>) {
        match encode_counted_u8::<PlayerIdAndInputData>(&self.changes, out) {
            Ok(()) => (),
            Err(e) => return Err(e),
        };
        proof {
            assert(out@ =~= old(out)@ + Self::wire(self.deep_view()));
        }
        Ok(())
    }
}
/// A full cube-destruction report: the shot, the affected cubes, and
/// the effect placement.
#[derive(Debug, Clone, PartialEq)]
#[verifier::ext_equal]
pub struct DestroyCubesFull {
    pub shooting_machine_id: i16,
    pub hit_machine_id: i16,
    pub item_category: i16,
    pub item_size: i16,
    pub stack_count: u8,
    pub target_type: TargetType,
    pub weapon_damage: i32,
    pub hit_effect_offset: CompressedVec3<768>,
    pub hit_effect_normal: CompressedVec3<255>,
    pub hit_cubes: Vec<CubeStatus>,
    pub timestamp: FloatBits,
}

/// Model of a [`DestroyCubesFull`] value: sequences stand for the vectors.
#[verifier::ext_equal]
pub struct DestroyCubesFullV {
    pub shooting_machine_id: i16,
    pub hit_machine_id: i16,
    pub item_category: i16,
    pub item_size: i16,
    pub stack_count: u8,
    pub target_type: TargetType,
    pub weapon_damage: i32,
    pub hit_effect_offset: CompressedVec3<768>,
    pub hit_effect_normal: CompressedVec3<255>,
    pub hit_cubes: Seq<CubeStatus>,
    pub timestamp: FloatBits,
}

impl DeepView for DestroyCubesFull {
    type V = DestroyCubesFullV;

    open spec fn deep_view(&self) -> DestroyCubesFullV {
        DestroyCubesFullV {
            shooting_machine_id: self.shooting_machine_id,
            hit_machine_id: self.hit_machine_id,
            item_category: self.item_category,
            item_size: self.item_size,
            stack_count: self.stack_count,
            target_type: self.target_type,
            weapon_damage: self.weapon_damage,
            hit_effect_offset: self.hit_effect_offset,
            hit_effect_normal: self.hit_effect_normal,
            hit_cubes: self.hit_cubes.deep_view(),
            timestamp: self.timestamp,
        }
    }
}

impl Codec for DestroyCubesFull {
    open spec fn enc_ok(v: DestroyCubesFullV) -> bool {
        counted_ok_u16::<CubeStatus>(v.hit_cubes)
    }

    open spec fn wire(v: DestroyCubesFullV) -> Seq<u8> {
        i16::wire(v.shooting_machine_id) + i16::wire(v.hit_machine_id) + i16::wire(v.item_category) + i16::wire(v.item_size) + u8::wire(v.stack_count) + TargetType::wire(v.target_type) + i32::wire(v.weapon_damage) + CompressedVec3::<768>::wire(v.hit_effect_offset) + CompressedVec3::<255>::wire(v.hit_effect_normal) + wire_counted_u16::<CubeStatus>(v.hit_cubes) + FloatBits::wire(v.timestamp)
    }

    open spec fn dec(b: Seq<u8>, pos: int) -> Result<(DestroyCubesFullV, int), DecodeError> {
        match i16::dec(b, pos) {
            Ok((shooting_machine_id, p1)) => {
            match i16::dec(b, p1) {
                Ok((hit_machine_id, p2)) => {
                match i16::dec(b, p2) {
                    Ok((item_category, p3)) => {
                    match i16::dec(b, p3) {
                        Ok((item_size, p4)) => {
                        match u8::dec(b, p4) {
                            Ok((stack_count, p5)) => {
                            match TargetType::dec(b, p5) {
                                Ok((target_type, p6)) => {
                                match i32::dec(b, p6) {
                                    Ok((weapon_damage, p7)) => {
                                    match CompressedVec3::<768>::dec(b, p7) {
                                        Ok((hit_effect_offset, p8)) => {
                                        match CompressedVec3::<255>::dec(b, p8) {
                                            Ok((hit_effect_normal, p9)) => {
                                            match dec_counted_u16::<CubeStatus>(b, p9) {
                                                Ok((hit_cubes, p10)) => {
                                                match FloatBits::dec(b, p10) {
                                                    Ok((timestamp, p11)) => {
                                                    Ok((DestroyCubesFullV { shooting_machine_id, hit_machine_id, item_category, item_size, stack_count, target_type, weapon_damage, hit_effect_offset, hit_effect_normal, hit_cubes, timestamp }, p11))
                                                    },
                                                    Err(e) => Err(e),
                                                }
                                                },
                                                Err(e) => Err(e),
                                            }
                                            },
                                            Err(e) => Err(e),
                                        }
                                        },
                                        Err(e) => Err(e),
                                    }
                                    },
                                    Err(e) => Err(e),
                                }
                                },
                                Err(e) => Err(e),
                            }
                            },
                            Err(e) => Err(e),
                        }
                        },
                        Err(e) => Err(e),
                    }
                    },
                    Err(e) => Err(e),
                }
                },
                Err(e) => Err(e),
            }
            },
            Err(e) => Err(e),
        }
    }

    proof fn lemma_dec_wire(v: DestroyCubesFullV, b: Seq<u8>, pos: int) {
        let w0 = i16::wire(v.shooting_machine_id);
        let w1 = i16::wire(v.hit_machine_id);
        let w2 = i16::wire(v.item_category);
        let w3 = i16::wire(v.item_size);
        let w4 = u8::wire(v.stack_count);
        let w5 = TargetType::wire(v.target_type);
        let w6 = i32::wire(v.weapon_damage);
        let w7 = CompressedVec3::<768>::wire(v.hit_effect_offset);
        let w8 = CompressedVec3::<255>::wire(v.hit_effect_normal);
        let w9 = wire_counted_u16::<CubeStatus>(v.hit_cubes);
        let w10 = FloatBits::wire(v.timestamp);
        assert(Self::wire(v) =~= w0 + (w1 + (w2 + (w3 + (w4 + (w5 + (w6 + (w7 + (w8 + (w9 + (w10)))))))))));
        let p0 = pos;
        lemma_subrange_split(b, p0, w0, w1 + (w2 + (w3 + (w4 + (w5 + (w6 + (w7 + (w8 + (w9 + (w10))))))))));
        i16::lemma_dec_wire(v.shooting_machine_id, b, p0);
        let p1 = p0 + w0.len();
        lemma_subrange_split(b, p1, w1, w2 + (w3 + (w4 + (w5 + (w6 + (w7 + (w8 + (w9 + (w10)))))))));
        i16::lemma_dec_wire(v.hit_machine_id, b, p1);
        let p2 = p1 + w1.len();
        lemma_subrange_split(b, p2, w2, w3 + (w4 + (w5 + (w6 + (w7 + (w8 + (w9 + (w10))))))));
        i16::lemma_dec_wire(v.item_category, b, p2);
        let p3 = p2 + w2.len();
        lemma_subrange_split(b, p3, w3, w4 + (w5 + (w6 + (w7 + (w8 + (w9 + (w10)))))));
        i16::lemma_dec_wire(v.item_size, b, p3);
        let p4 = p3 + w3.len();
        lemma_subrange_split(b, p4, w4, w5 + (w6 + (w7 + (w8 + (w9 + (w10))))));
        u8::lemma_dec_wire(v.stack_count, b, p4);
        let p5 = p4 + w4.len();
        lemma_subrange_split(b, p5, w5, w6 + (w7 + (w8 + (w9 + (w10)))));
        TargetType::lemma_dec_wire(v.target_type, b, p5);
        let p6 = p5 + w5.len();
        lemma_subrange_split(b, p6, w6, w7 + (w8 + (w9 + (w10))));
        i32::lemma_dec_wire(v.weapon_damage, b, p6);
        let p7 = p6 + w6.len();
        lemma_subrange_split(b, p7, w7, w8 + (w9 + (w10)));
        CompressedVec3::<768>::lemma_dec_wire(v.hit_effect_offset, b, p7);
        let p8 = p7 + w7.len();
        lemma_subrange_split(b, p8, w8, w9 + (w10));
        CompressedVec3::<255>::lemma_dec_wire(v.hit_effect_normal, b, p8);
        let p9 = p8 + w8.len();
        lemma_subrange_split(b, p9, w9, w10);
        lemma_dec_wire_counted_u16::<CubeStatus>(v.hit_cubes, b, p9);
        let p10 = p9 + w9.len();
        FloatBits::lemma_dec_wire(v.timestamp, b, p10);
        assert((DestroyCubesFullV { shooting_machine_id: v.shooting_machine_id, hit_machine_id: v.hit_machine_id, item_category: v.item_category, item_size: v.item_size, stack_count: v.stack_count, target_type: v.target_type, weapon_damage: v.weapon_damage, hit_effect_offset: v.hit_effect_offset, hit_effect_normal: v.hit_effect_normal, hit_cubes: v.hit_cubes, timestamp: v.timestamp }) =~= v);
    }

    fn decode(b: &[u8], pos: usize) -> (r: Result<(DestroyCubesFull, usize), DecodeError>) {
        let (shooting_machine_id, at1) = match i16::decode(b, pos) {
            Ok(x) => x,
            Err(e) => return Err(e),
        };
        let (hit_machine_id, at2) = match i16::decode(b, at1) {
            Ok(x) => x,
            Err(e) => return Err(e),
        };
        let (item_category, at3) = match i16::decode(b, at2) {
            Ok(x) => x,
            Err(e) => return Err(e),
        };
        let (item_size, at4) = match i16::decode(b, at3) {
            Ok(x) => x,
            Err(e) => return Err(e),
        };
        let (stack_count, at5) = match u8::decode(b, at4) {
            Ok(x) => x,
            Err(e) => return Err(e),
        };
        let (target_type, at6) = match TargetType::decode(b, at5) {
            Ok(x) => x,
            Err(e) => return Err(e),
        };
        let (weapon_damage, at7) = match i32::decode(b, at6) {
            Ok(x) => x,
            Err(e) => return Err(e),
        };
        let (hit_effect_offset, at8) = match CompressedVec3::<768>::decode(b, at7) {
            Ok(x) => x,
            Err(e) => return Err(e),
        };
        let (hit_effect_normal, at9) = match CompressedVec3::<255>::decode(b, at8) {
            Ok(x) => x,
            Err(e) => return Err(e),
        };
        let (hit_cubes, at10) = match decode_counted_u16::<CubeStatus>(b, at9) {
            Ok(x) => x,
            Err(e) => return Err(e),
        };
        let (timestamp, at11) = match FloatBits::decode(b, at10) {
            Ok(x) => x,
            Err(e) => return Err(e),
        };
        Ok((DestroyCubesFull { shooting_machine_id, hit_machine_id, item_category, item_size, stack_count, target_type, weapon_damage, hit_effect_offset, hit_effect_normal, hit_cubes, timestamp }, at11))
    }

    fn encode(&self, out: &mut Vec<u8>) -> (r: Result<(), EncodeError>) {
        match self.shooting_machine_id.encode(out) {
            Ok(()) => (),
            Err(e) => return Err(e),
        };
        match self.hit_machine_id.encode(out) {
            Ok(()) => (),
            Err(e) => return Err(e),
        };
        match self.item_category.encode(out) {
            Ok(()) => (),
            Err(e) => return Err(e),
        };
        match self.item_size.encode(out) {
            Ok(()) => (),
            Err(e) => return Err(e),
        };
        match self.stack_count.encode(out) {
            Ok(()) => (),
            Err(e) => return Err(e),
        };
        match self.target_type.encode(out) {
            Ok(()) => (),
            Err(e) => return Err(e),
        };
        match self.weapon_damage.encode(out) {
            Ok(()) => (),
            Err(e) => return Err(e),
        };
        match self.hit_effect_offset.encode(out) {
            Ok(()) => (),
            Err(e) => return Err(e),
        };
        match self.hit_effect_normal.encode(out) {
            Ok(()) => (),
            Err(e) => return Err(e),
        };
        match encode_counted_u16::<CubeStatus>(&self.hit_cubes, out) {
            Ok(()) => (),
            Err(e) => return Err(e),
        };
        match self.timestamp.encode(out) {
            Ok(()) => (),
            Err(e) => return Err(e),
        };
        proof {
            assert(out@ =~= old(out)@ + Self::wire(self.deep_view()));
        }
        Ok(())
    }
}
/// A cube destruction that only plays an effect at one cube.
#[derive(Debug, Clone, Copy, PartialEq)]
#[verifier::ext_equal]
pub struct DestroyCubeEffectOnly {
    pub shooting_machine_id: i16,
    pub hit_machine_id: i16,
    pub item_category: i16,
    pub stack_count: u8,
    pub target_type: TargetType,
    pub hit_effect_offset: CompressedVec3<768>,
    pub hit_effect_normal: CompressedVec3<255>,
    pub hit_cube: Byte3,
}

impl DeepView for DestroyCubeEffectOnly {
    type V = DestroyCubeEffectOnly;

    open spec fn deep_view(&self) -> DestroyCubeEffectOnly {
        *self
    }
}

impl Codec for DestroyCubeEffectOnly {
    open spec fn enc_ok(v: DestroyCubeEffectOnly) -> bool {
        true
    }

    open spec fn wire(v: DestroyCubeEffectOnly) -> Seq<u8> {
        i16::wire(v.shooting_machine_id) + i16::wire(v.hit_machine_id) + i16::wire(v.item_category) + u8::wire(v.stack_count) + TargetType::wire(v.target_type) + CompressedVec3::<768>::wire(v.hit_effect_offset) + CompressedVec3::<255>::wire(v.hit_effect_normal) + Byte3::wire(v.hit_cube)
    }

    open spec fn dec(b: Seq<u8>, pos: int) -> Result<(DestroyCubeEffectOnly, int), DecodeError> {
        match i16::dec(b, pos) {
            Ok((shooting_machine_id, p1)) => {
            match i16::dec(b, p1) {
                Ok((hit_machine_id, p2)) => {
                match i16::dec(b, p2) {
                    Ok((item_category, p3)) => {
                    match u8::dec(b, p3) {
                        Ok((stack_count, p4)) => {
                        match TargetType::dec(b, p4) {
                            Ok((target_type, p5)) => {
                            match CompressedVec3::<768>::dec(b, p5) {
                                Ok((hit_effect_offset, p6)) => {
                                match CompressedVec3::<255>::dec(b, p6) {
                                    Ok((hit_effect_normal, p7)) => {
                                    match Byte3::dec(b, p7) {
                                        Ok((hit_cube, p8)) => {
                                        Ok((DestroyCubeEffectOnly { shooting_machine_id, hit_machine_id, item_category, stack_count, target_type, hit_effect_offset, hit_effect_normal, hit_cube }, p8))
                                        },
                                        Err(e) => Err(e),
                                    }
                                    },
                                    Err(e) => Err(e),
                                }
                                },
                                Err(e) => Err(e),
                            }
                            },
                            Err(e) => Err(e),
                        }
                        },
                        Err(e) => Err(e),
                    }
                    },
                    Err(e) => Err(e),
                }
                },
                Err(e) => Err(e),
            }
            },
            Err(e) => Err(e),
        }
    }

    proof fn lemma_dec_wire(v: DestroyCubeEffectOnly, b: Seq<u8>, pos: int) {
        let w0 = i16::wire(v.shooting_machine_id);
        let w1 = i16::wire(v.hit_machine_id);
        let w2 = i16::wire(v.item_category);
        let w3 = u8::wire(v.stack_count);
        let w4 = TargetType::wire(v.target_type);
        let w5 = CompressedVec3::<768>::wire(v.hit_effect_offset);
        let w6 = CompressedVec3::<255>::wire(v.hit_effect_normal);
        let w7 = Byte3::wire(v.hit_cube);
        assert(Self::wire(v) =~= w0 + (w1 + (w2 + (w3 + (w4 + (w5 + (w6 + (w7))))))));
        let p0 = pos;
        lemma_subrange_split(b, p0, w0, w1 + (w2 + (w3 + (w4 + (w5 + (w6 + (w7)))))));
        i16::lemma_dec_wire(v.shooting_machine_id, b, p0);
        let p1 = p0 + w0.len();
        lemma_subrange_split(b, p1, w1, w2 + (w3 + (w4 + (w5 + (w6 + (w7))))));
        i16::lemma_dec_wire(v.hit_machine_id, b, p1);
        let p2 = p1 + w1.len();
        lemma_subrange_split(b, p2, w2, w3 + (w4 + (w5 + (w6 + (w7)))));
        i16::lemma_dec_wire(v.item_category, b, p2);
        let p3 = p2 + w2.len();
        lemma_subrange_split(b, p3, w3, w4 + (w5 + (w6 + (w7))));
        u8::lemma_dec_wire(v.stack_count, b, p3);
        let p4 = p3 + w3.len();
        lemma_subrange_split(b, p4, w4, w5 + (w6 + (w7)));
        TargetType::lemma_dec_wire(v.target_type, b, p4);
        let p5 = p4 + w4.len();
        lemma_subrange_split(b, p5, w5, w6 + (w7));
        CompressedVec3::<768>::lemma_dec_wire(v.hit_effect_offset, b, p5);
        let p6 = p5 + w5.len();
        lemma_subrange_split(b, p6, w6, w7);
        CompressedVec3::<255>::lemma_dec_wire(v.hit_effect_normal, b, p6);
        let p7 = p6 + w6.len();
        Byte3::lemma_dec_wire(v.hit_cube, b, p7);
        assert((DestroyCubeEffectOnly { shooting_machine_id: v.shooting_machine_id, hit_machine_id: v.hit_machine_id, item_category: v.item_category, stack_count: v.stack_count, target_type: v.target_type, hit_effect_offset: v.hit_effect_offset, hit_effect_normal: v.hit_effect_normal, hit_cube: v.hit_cube }) =~= v);
    }

    fn decode(b: &[u8], pos: usize) -> (r: Result<(DestroyCubeEffectOnly, usize), DecodeError>) {
        let (shooting_machine_id, at1) = match i16::decode(b, pos) {
            Ok(x) => x,
            Err(e) => return Err(e),
        };
        let (hit_machine_id, at2) = match i16::decode(b, at1) {
            Ok(x) => x,
            Err(e) => return Err(e),
        };
        let (item_category, at3) = match i16::decode(b, at2) {
            Ok(x) => x,
            Err(e) => return Err(e),
        };
        let (stack_count, at4) = match u8::decode(b, at3) {
            Ok(x) => x,
            Err(e) => return Err(e),
        };
        let (target_type, at5) = match TargetType::decode(b, at4) {
            Ok(x) => x,
            Err(e) => return Err(e),
        };
        let (hit_effect_offset, at6) = match CompressedVec3::<768>::decode(b, at5) {
            Ok(x) => x,
            Err(e) => return Err(e),
        };
        let (hit_effect_normal, at7) = match CompressedVec3::<255>::decode(b, at6) {
            Ok(x) => x,
            Err(e) => return Err(e),
        };
        let (hit_cube, at8) = match Byte3::decode(b, at7) {
            Ok(x) => x,
            Err(e) => return Err(e),
        };
        Ok((DestroyCubeEffectOnly { shooting_machine_id, hit_machine_id, item_category, stack_count, target_type, hit_effect_offset, hit_effect_normal, hit_cube }, at8))
    }

    fn encode(&self, out: &mut Vec<u8>) -> (r: Result<(), EncodeError>) {
        match self.shooting_machine_id.encode(out) {
            Ok(()) => (),
            Err(e) => return Err(e),
        };
        match self.hit_machine_id.encode(out) {
            Ok(()) => (),
            Err(e) => return Err(e),
        };
        match self.item_category.encode(out) {
            Ok(()) => (),
            Err(e) => return Err(e),
        };
        match self.stack_count.encode(out) {
            Ok(()) => (),
            Err(e) => return Err(e),
        };
        match self.target_type.encode(out) {
            Ok(()) => (),
            Err(e) => return Err(e),
        };
        match self.hit_effect_offset.encode(out) {
            Ok(()) => (),
            Err(e) => return Err(e),
        };
        match self.hit_effect_normal.encode(out) {
            Ok(()) => (),
            Err(e) => return Err(e),
        };
        match self.hit_cube.encode(out) {
            Ok(()) => (),
            Err(e) => return Err(e),
        };
        proof {
            assert(out@ =~= old(out)@ + Self::wire(self.deep_view()));
        }
        Ok(())
    }
}
/// A cube destruction with no visual effect.
#[derive(Debug, Clone, PartialEq)]
#[verifier::ext_equal]
pub struct DestroyCubeNoEffect {
    pub shooting_machine_id: i16,
    pub hit_machine_id: i16,
    pub target_type: TargetType,
    pub hit_cubes: Vec<CubeStatus>,
}

/// Model of a [`DestroyCubeNoEffect`] value: sequences stand for the vectors.
#[verifier::ext_equal]
pub struct DestroyCubeNoEffectV {
    pub shooting_machine_id: i16,
    pub hit_machine_id: i16,
    pub target_type: TargetType,
    pub hit_cubes: Seq<CubeStatus>,
}

impl DeepView for DestroyCubeNoEffect {
    type V = DestroyCubeNoEffectV;

    open spec fn deep_view(&self) -> DestroyCubeNoEffectV {
        DestroyCubeNoEffectV {
            shooting_machine_id: self.shooting_machine_id,
            hit_machine_id: self.hit_machine_id,
            target_type: self.target_type,
            hit_cubes: self.hit_cubes.deep_view(),
        }
    }
}

impl Codec for DestroyCubeNoEffect {
    open spec fn enc_ok(v: DestroyCubeNoEffectV) -> bool {
        counted_ok_u16::<CubeStatus>(v.hit_cubes)
    }

    open spec fn wire(v: DestroyCubeNoEffectV) -> Seq<u8> {
        i16::wire(v.shooting_machine_id) + i16::wire(v.hit_machine_id) + TargetType::wire(v.target_type) + wire_counted_u16::<CubeStatus>(v.hit_cubes)
    }

    open spec fn dec(b: Seq<u8>, pos: int) -> Result<(DestroyCubeNoEffectV, int), DecodeError> {
        match i16::dec(b, pos) {
            Ok((shooting_machine_id, p1)) => {
            match i16::dec(b, p1) {
                Ok((hit_machine_id, p2)) => {
                match TargetType::dec(b, p2) {
                    Ok((target_type, p3)) => {
                    match dec_counted_u16::<CubeStatus>(b, p3) {
                        Ok((hit_cubes, p4)) => {
                        Ok((DestroyCubeNoEffectV { shooting_machine_id, hit_machine_id, target_type, hit_cubes }, p4))
                        },
                        Err(e) => Err(e),
                    }
                    },
                    Err(e) => Err(e),
                }
                },
                Err(e) => Err(e),
            }
            },
            Err(e) => Err(e),
        }
    }

    proof fn lemma_dec_wire(v: DestroyCubeNoEffectV, b: Seq<u8>, pos: int) {
        let w0 = i16::wire(v.shooting_machine_id);
        let w1 = i16::wire(v.hit_machine_id);
        let w2 = TargetType::wire(v.target_type);
        let w3 = wire_counted_u16::<CubeStatus>(v.hit_cubes);
        assert(Self::wire(v) =~= w0 + (w1 + (w2 + (w3))));
        let p0 = pos;
        lemma_subrange_split(b, p0, w0, w1 + (w2 + (w3)));
        i16::lemma_dec_wire(v.shooting_machine_id, b, p0);
        let p1 = p0 + w0.len();
        lemma_subrange_split(b, p1, w1, w2 + (w3));
        i16::lemma_dec_wire(v.hit_machine_id, b, p1);
        let p2 = p1 + w1.len();
        lemma_subrange_split(b, p2, w2, w3);
        TargetType::lemma_dec_wire(v.target_type, b, p2);
        let p3 = p2 + w2.len();
        lemma_dec_wire_counted_u16::<CubeStatus>(v.hit_cubes, b, p3);
        assert((DestroyCubeNoEffectV { shooting_machine_id: v.shooting_machine_id, hit_machine_id: v.hit_machine_id, target_type: v.target_type, hit_cubes: v.hit_cubes }) =~= v);
    }

    fn decode(b: &[u8], pos: usize) -> (r: Result<(DestroyCubeNoEffect, usize), DecodeError>) {
        let (shooting_machine_id, at1) = match i16::decode(b, pos) {
            Ok(x) => x,
            Err(e) => return Err(e),
        };
        let (hit_machine_id, at2) = match i16::decode(b, at1) {
            Ok(x) => x,
            Err(e) => return Err(e),
        };
        let (target_type, at3) = match TargetType::decode(b, at2) {
            Ok(x) => x,
            Err(e) => return Err(e),
        };
        let (hit_cubes, at4) = match decode_counted_u16::<CubeStatus>(b, at3) {
            Ok(x) => x,
            Err(e) => return Err(e),
        };
        Ok((DestroyCubeNoEffect { shooting_machine_id, hit_machine_id, target_type, hit_cubes }, at4))
    }

    fn encode(&self, out: &mut Vec<u8>) -> (r: Result<(), EncodeError>) {
        match self.shooting_machine_id.encode(out) {
            Ok(()) => (),
            Err(e) => return Err(e),
        };
        match self.hit_machine_id.encode(out) {
            Ok(()) => (),
            Err(e) => return Err(e),
        };
        match self.target_type.encode(out) {
            Ok(()) => (),
            Err(e) => return Err(e),
        };
        match encode_counted_u16::<CubeStatus>(&self.hit_cubes, out) {
            Ok(()) => (),
            Err(e) => return Err(e),
        };
        proof {
            assert(out@ =~= old(out)@ + Self::wire(self.deep_view()));
        }
        Ok(())
    }
}
/// Where a weapon fired from and in which direction.
#[derive(Debug, Clone, Copy, PartialEq)]
#[verifier::ext_equal]
pub struct WeaponFireEffect {
    pub launch_position: CompressedVec3<768>,
    pub direction: CompressedVec3<768>,
    pub shooting_machine_id: i16,
    pub shooting_player_id: u8,
    pub weapon_grid_key: Byte3,
}

impl DeepView for WeaponFireEffect {
    type V = WeaponFireEffect;

    open spec fn deep_view(&self) -> WeaponFireEffect {
        *self
    }
}

impl Codec for WeaponFireEffect {
    open spec fn enc_ok(v: WeaponFireEffect) -> bool {
        true
    }

    open spec fn wire(v: WeaponFireEffect) -> Seq<u8> {
        CompressedVec3::<768>::wire(v.launch_position) + CompressedVec3::<768>::wire(v.direction) + i16::wire(v.shooting_machine_id) + u8::wire(v.shooting_player_id) + Byte3::wire(v.weapon_grid_key)
    }

    open spec fn dec(b: Seq<u8>, pos: int) -> Result<(WeaponFireEffect, int), DecodeError> {
        match CompressedVec3::<768>::dec(b, pos) {
            Ok((launch_position, p1)) => {
            match CompressedVec3::<768>::dec(b, p1) {
                Ok((direction, p2)) => {
                match i16::dec(b, p2) {
                    Ok((shooting_machine_id, p3)) => {
                    match u8::dec(b, p3) {
                        Ok((shooting_player_id, p4)) => {
                        match Byte3::dec(b, p4) {
                            Ok((weapon_grid_key, p5)) => {
                            Ok((WeaponFireEffect { launch_position, direction, shooting_machine_id, shooting_player_id, weapon_grid_key }, p5))
                            },
                            Err(e) => Err(e),
                        }
                        },
                        Err(e) => Err(e),
                    }
                    },
                    Err(e) => Err(e),
                }
                },
                Err(e) => Err(e),
            }
            },
            Err(e) => Err(e),
        }
    }

    proof fn lemma_dec_wire(v: WeaponFireEffect, b: Seq<u8>, pos: int) {
        let w0 = CompressedVec3::<768>::wire(v.launch_position);
        let w1 = CompressedVec3::<768>::wire(v.direction);
        let w2 = i16::wire(v.shooting_machine_id);
        let w3 = u8::wire(v.shooting_player_id);
        let w4 = Byte3::wire(v.weapon_grid_key);
        assert(Self::wire(v) =~= w0 + (w1 + (w2 + (w3 + (w4)))));
        let p0 = pos;
        lemma_subrange_split(b, p0, w0, w1 + (w2 + (w3 + (w4))));
        CompressedVec3::<768>::lemma_dec_wire(v.launch_position, b, p0);
        let p1 = p0 + w0.len();
        lemma_subrange_split(b, p1, w1, w2 + (w3 + (w4)));
        CompressedVec3::<768>::lemma_dec_wire(v.direction, b, p1);
        let p2 = p1 + w1.len();
        lemma_subrange_split(b, p2, w2, w3 + (w4));
        i16::lemma_dec_wire(v.shooting_machine_id, b, p2);
        let p3 = p2 + w2.len();
        lemma_subrange_split(b, p3, w3, w4);
        u8::lemma_dec_wire(v.shooting_player_id, b, p3);
        let p4 = p3 + w3.len();
        Byte3::lemma_dec_wire(v.weapon_grid_key, b, p4);
        assert((WeaponFireEffect { launch_position: v.launch_position, direction: v.direction, shooting_machine_id: v.shooting_machine_id, shooting_player_id: v.shooting_player_id, weapon_grid_key: v.weapon_grid_key }) =~= v);
    }

    fn decode(b: &[u8], pos: usize) -> (r: Result<(WeaponFireEffect, usize), DecodeError>) {
        let (launch_position, at1) = match CompressedVec3::<768>::decode(b, pos) {
            Ok(x) => x,
            Err(e) => return Err(e),
        };
        let (direction, at2) = match CompressedVec3::<768>::decode(b, at1) {
            Ok(x) => x,
            Err(e) => return Err(e),
        };
        let (shooting_machine_id, at3) = match i16::decode(b, at2) {
            Ok(x) => x,
            Err(e) => return Err(e),
        };
        let (shooting_player_id, at4) = match u8::decode(b, at3) {
            Ok(x) => x,
            Err(e) => return Err(e),
        };
        let (weapon_grid_key, at5) = match Byte3::decode(b, at4) {
            Ok(x) => x,
            Err(e) => return Err(e),
        };
        Ok((WeaponFireEffect { launch_position, direction, shooting_machine_id, shooting_player_id, weapon_grid_key }, at5))
    }

    fn encode(&self, out: &mut Vec<u8>) -> (r: Result<(), EncodeError>) {
        match self.launch_position.encode(out) {
            Ok(()) => (),
            Err(e) => return Err(e),
        };
        match self.direction.encode(out) {
            Ok(()) => (),
            Err(e) => return Err(e),
        };
        match self.shooting_machine_id.encode(out) {
            Ok(()) => (),
            Err(e) => return Err(e),
        };
        match self.shooting_player_id.encode(out) {
            Ok(()) => (),
            Err(e) => return Err(e),
        };
        match self.weapon_grid_key.encode(out) {
            Ok(()) => (),
            Err(e) => return Err(e),
        };
        proof {
            assert(out@ =~= old(out)@ + Self::wire(self.deep_view()));
        }
        Ok(())
    }
}
/// A shot that missed: where it landed instead. The item fields travel
/// unpacked here, unlike in an item descriptor.
#[derive(Debug, Clone, Copy, PartialEq)]
#[verifier::ext_equal]
pub struct FireMiss {
    pub shooting_machine_id: u16,
    pub hit_point: CompressedVec3<32768>,
    pub hit_normal: CompressedVec3<255>,
    pub time_stamp: FloatBits,
    pub packed_hit_hitself: u8,
    pub target_type: TargetType,
    pub item_category: i32,
    pub item_size: i32,
}

impl DeepView for FireMiss {
    type V = FireMiss;

    open spec fn deep_view(&self) -> FireMiss {
        *self
    }
}

impl Codec for FireMiss {
    open spec fn enc_ok(v: FireMiss) -> bool {
        true
    }

    open spec fn wire(v: FireMiss) -> Seq<u8> {
        u16::wire(v.shooting_machine_id) + CompressedVec3::<32768>::wire(v.hit_point) + CompressedVec3::<255>::wire(v.hit_normal) + FloatBits::wire(v.time_stamp) + u8::wire(v.packed_hit_hitself) + TargetType::wire(v.target_type) + i32::wire(v.item_category) + i32::wire(v.item_size)
    }

    open spec fn dec(b: Seq<u8>, pos: int) -> Result<(FireMiss, int), DecodeError> {
        match u16::dec(b, pos) {
            Ok((shooting_machine_id, p1)) => {
            match CompressedVec3::<32768>::dec(b, p1) {
                Ok((hit_point, p2)) => {
                match CompressedVec3::<255>::dec(b, p2) {
                    Ok((hit_normal, p3)) => {
                    match FloatBits::dec(b, p3) {
                        Ok((time_stamp, p4)) => {
                        match u8::dec(b, p4) {
                            Ok((packed_hit_hitself, p5)) => {
                            match TargetType::dec(b, p5) {
                                Ok((target_type, p6)) => {
                                match i32::dec(b, p6) {
                                    Ok((item_category, p7)) => {
                                    match i32::dec(b, p7) {
                                        Ok((item_size, p8)) => {
                                        Ok((FireMiss { shooting_machine_id, hit_point, hit_normal, time_stamp, packed_hit_hitself, target_type, item_category, item_size }, p8))
                                        },
                                        Err(e) => Err(e),
                                    }
                                    },
                                    Err(e) => Err(e),
                                }
                                },
                                Err(e) => Err(e),
                            }
                            },
                            Err(e) => Err(e),
                        }
                        },
                        Err(e) => Err(e),
                    }
                    },
                    Err(e) => Err(e),
                }
                },
                Err(e) => Err(e),
            }
            },
            Err(e) => Err(e),
        }
    }

    proof fn lemma_dec_wire(v: FireMiss, b: Seq<u8>, pos: int) {
        let w0 = u16::wire(v.shooting_machine_id);
        let w1 = CompressedVec3::<32768>::wire(v.hit_point);
        let w2 = CompressedVec3::<255>::wire(v.hit_normal);
        let w3 = FloatBits::wire(v.time_stamp);
        let w4 = u8::wire(v.packed_hit_hitself);
        let w5 = TargetType::wire(v.target_type);
        let w6 = i32::wire(v.item_category);
        let w7 = i32::wire(v.item_size);
        assert(Self::wire(v) =~= w0 + (w1 + (w2 + (w3 + (w4 + (w5 + (w6 + (w7))))))));
        let p0 = pos;
        lemma_subrange_split(b, p0, w0, w1 + (w2 + (w3 + (w4 + (w5 + (w6 + (w7)))))));
        u16::lemma_dec_wire(v.shooting_machine_id, b, p0);
        let p1 = p0 + w0.len();
        lemma_subrange_split(b, p1, w1, w2 + (w3 + (w4 + (w5 + (w6 + (w7))))));
        CompressedVec3::<32768>::lemma_dec_wire(v.hit_point, b, p1);
        let p2 = p1 + w1.len();
        lemma_subrange_split(b, p2, w2, w3 + (w4 + (w5 + (w6 + (w7)))));
        CompressedVec3::<255>::lemma_dec_wire(v.hit_normal, b, p2);
        let p3 = p2 + w2.len();
        lemma_subrange_split(b, p3, w3, w4 + (w5 + (w6 + (w7))));
        FloatBits::lemma_dec_wire(v.time_stamp, b, p3);
        let p4 = p3 + w3.len();
        lemma_subrange_split(b, p4, w4, w5 + (w6 + (w7)));
        u8::lemma_dec_wire(v.packed_hit_hitself, b, p4);
        let p5 = p4 + w4.len();
        lemma_subrange_split(b, p5, w5, w6 + (w7));
        TargetType::lemma_dec_wire(v.target_type, b, p5);
        let p6 = p5 + w5.len();
        lemma_subrange_split(b, p6, w6, w7);
        i32::lemma_dec_wire(v.item_category, b, p6);
        let p7 = p6 + w6.len();
        i32::lemma_dec_wire(v.item_size, b, p7);
        assert((FireMiss { shooting_machine_id: v.shooting_machine_id, hit_point: v.hit_point, hit_normal: v.hit_normal, time_stamp: v.time_stamp, packed_hit_hitself: v.packed_hit_hitself, target_type: v.target_type, item_category: v.item_category, item_size: v.item_size }) =~= v);
    }

    fn decode(b: &[u8], pos: usize) -> (r: Result<(FireMiss, usize), DecodeError>) {
        let (shooting_machine_id, at1) = match u16::decode(b, pos) {
            Ok(x) => x,
            Err(e) => return Err(e),
        };
        let (hit_point, at2) = match CompressedVec3::<32768>::decode(b, at1) {
            Ok(x) => x,
            Err(e) => return Err(e),
        };
        let (hit_normal, at3) = match CompressedVec3::<255>::decode(b, at2) {
            Ok(x) => x,
            Err(e) => return Err(e),
        };
        let (time_stamp, at4) = match FloatBits::decode(b, at3) {
            Ok(x) => x,
            Err(e) => return Err(e),
        };
        let (packed_hit_hitself, at5) = match u8::decode(b, at4) {
            Ok(x) => x,
            Err(e) => return Err(e),
        };
        let (target_type, at6) = match TargetType::decode(b, at5) {
            Ok(x) => x,
            Err(e) => return Err(e),
        };
        let (item_category, at7) = match i32::decode(b, at6) {
            Ok(x) => x,
            Err(e) => return Err(e),
        };
        let (item_size, at8) = match i32::decode(b, at7) {
            Ok(x) => x,
            Err(e) => return Err(e),
        };
        Ok((FireMiss { shooting_machine_id, hit_point, hit_normal, time_stamp, packed_hit_hitself, target_type, item_category, item_size }, at8))
    }

    fn encode(&self, out: &mut Vec<u8>) -> (r: Result<(), EncodeError>) {
        match self.shooting_machine_id.encode(out) {
            Ok(()) => (),
            Err(e) => return Err(e),
        };
        match self.hit_point.encode(out) {
            Ok(()) => (),
            Err(e) => return Err(e),
        };
        match self.hit_normal.encode(out) {
            Ok(()) => (),
            Err(e) => return Err(e),
        };
        match self.time_stamp.encode(out) {
            Ok(()) => (),
            Err(e) => return Err(e),
        };
        match self.packed_hit_hitself.encode(out) {
            Ok(()) => (),
            Err(e) => return Err(e),
        };
        match self.target_type.encode(out) {
            Ok(()) => (),
            Err(e) => return Err(e),
        };
        match self.item_category.encode(out) {
            Ok(()) => (),
            Err(e) => return Err(e),
        };
        match self.item_size.encode(out) {
            Ok(()) => (),
            Err(e) => return Err(e),
        };
        proof {
            assert(out@ =~= old(out)@ + Self::wire(self.deep_view()));
        }
        Ok(())
    }
}
/// One miss in a burst of misses.
#[derive(Debug, Clone, Copy, PartialEq)]
#[verifier::ext_equal]
pub struct FireMissEntry {
    pub hit_point: CompressedVec3<32768>,
    pub hit_normal: CompressedVec3<255>,
    pub packed_hit_hitself: u8,
    pub target_type: TargetType,
}

impl DeepView for FireMissEntry {
    type V = FireMissEntry;

    open spec fn deep_view(&self) -> FireMissEntry {
        *self
    }
}

impl Codec for FireMissEntry {
    open spec fn enc_ok(v: FireMissEntry) -> bool {
        true
    }

    open spec fn wire(v: FireMissEntry) -> Seq<u8> {
        CompressedVec3::<32768>::wire(v.hit_point) + CompressedVec3::<255>::wire(v.hit_normal) + u8::wire(v.packed_hit_hitself) + TargetType::wire(v.target_type)
    }

    open spec fn dec(b: Seq<u8>, pos: int) -> Result<(FireMissEntry, int), DecodeError> {
        match CompressedVec3::<32768>::dec(b, pos) {
            Ok((hit_point, p1)) => {
            match CompressedVec3::<255>::dec(b, p1) {
                Ok((hit_normal, p2)) => {
                match u8::dec(b, p2) {
                    Ok((packed_hit_hitself, p3)) => {
                    match TargetType::dec(b, p3) {
                        Ok((target_type, p4)) => {
                        Ok((FireMissEntry { hit_point, hit_normal, packed_hit_hitself, target_type }, p4))
                        },
                        Err(e) => Err(e),
                    }
                    },
                    Err(e) => Err(e),
                }
                },
                Err(e) => Err(e),
            }
            },
            Err(e) => Err(e),
        }
    }

    proof fn lemma_dec_wire(v: FireMissEntry, b: Seq<u8>, pos: int) {
        let w0 = CompressedVec3::<32768>::wire(v.hit_point);
        let w1 = CompressedVec3::<255>::wire(v.hit_normal);
        let w2 = u8::wire(v.packed_hit_hitself);
        let w3 = TargetType::wire(v.target_type);
        assert(Self::wire(v) =~= w0 + (w1 + (w2 + (w3))));
        let p0 = pos;
        lemma_subrange_split(b, p0, w0, w1 + (w2 + (w3)));
        CompressedVec3::<32768>::lemma_dec_wire(v.hit_point, b, p0);
        let p1 = p0 + w0.len();
        lemma_subrange_split(b, p1, w1, w2 + (w3));
        CompressedVec3::<255>::lemma_dec_wire(v.hit_normal, b, p1);
        let p2 = p1 + w1.len();
        lemma_subrange_split(b, p2, w2, w3);
        u8::lemma_dec_wire(v.packed_hit_hitself, b, p2);
        let p3 = p2 + w2.len();
        TargetType::lemma_dec_wire(v.target_type, b, p3);
        assert((FireMissEntry { hit_point: v.hit_point, hit_normal: v.hit_normal, packed_hit_hitself: v.packed_hit_hitself, target_type: v.target_type }) =~= v);
    }

    fn decode(b: &[u8], pos: usize) -> (r: Result<(FireMissEntry, usize), DecodeError>) {
        let (hit_point, at1) = match CompressedVec3::<32768>::decode(b, pos) {
            Ok(x) => x,
            Err(e) => return Err(e),
        };
        let (hit_normal, at2) = match CompressedVec3::<255>::decode(b, at1) {
            Ok(x) => x,
            Err(e) => return Err(e),
        };
        let (packed_hit_hitself, at3) = match u8::decode(b, at2) {
            Ok(x) => x,
            Err(e) => return Err(e),
        };
        let (target_type, at4) = match TargetType::decode(b, at3) {
            Ok(x) => x,
            Err(e) => return Err(e),
        };
        Ok((FireMissEntry { hit_point, hit_normal, packed_hit_hitself, target_type }, at4))
    }

    fn encode(&self, out: &mut Vec<u8>) -> (r: Result<(), EncodeError>) {
        match self.hit_point.encode(out) {
            Ok(()) => (),
            Err(e) => return Err(e),
        };
        match self.hit_normal.encode(out) {
            Ok(()) => (),
            Err(e) => return Err(e),
        };
        match self.packed_hit_hitself.encode(out) {
            Ok(()) => (),
            Err(e) => return Err(e),
        };
        match self.target_type.encode(out) {
            Ok(()) => (),
            Err(e) => return Err(e),
        };
        proof {
            assert(out@ =~= old(out)@ + Self::wire(self.deep_view()));
        }
        Ok(())
    }
}
/// A burst of missed shots. The count prefix travels ahead of the
/// shooter id while its entries follow it.
#[derive(Debug, Clone, PartialEq)]
#[verifier::ext_equal]
pub struct MultipleFireMisses {
    pub shooting_machine_id: i16,
    pub hits: Vec<FireMissEntry>,
    pub timestamp: FloatBits,
    pub desc: ItemDescriptor,
}

/// Model of a [`MultipleFireMisses`] value: sequences stand for the vectors.
#[verifier::ext_equal]
pub struct MultipleFireMissesV {
    pub shooting_machine_id: i16,
    pub hits: Seq<FireMissEntry>,
    pub timestamp: FloatBits,
    pub desc: ItemDescriptor,
}

impl DeepView for MultipleFireMisses {
    type V = MultipleFireMissesV;

    open spec fn deep_view(&self) -> MultipleFireMissesV {
        MultipleFireMissesV {
            shooting_machine_id: self.shooting_machine_id,
            hits: self.hits.deep_view(),
            timestamp: self.timestamp,
            desc: self.desc,
        }
    }
}

impl Codec for MultipleFireMisses {
    open spec fn enc_ok(v: MultipleFireMissesV) -> bool {
        v.hits.len() <= 255 && elems_ok::<FireMissEntry>(v.hits)
    }

    open spec fn wire(v: MultipleFireMissesV) -> Seq<u8> {
        u8::wire(v.hits.len() as u8) + i16::wire(v.shooting_machine_id) + wire_elems::<FireMissEntry>(v.hits) + FloatBits::wire(v.timestamp) + ItemDescriptor::wire(v.desc)
    }

    open spec fn dec(b: Seq<u8>, pos: int) -> Result<(MultipleFireMissesV, int), DecodeError> {
        match u8::dec(b, pos) {
            Ok((n_hits, p1)) => {
            match i16::dec(b, p1) {
                Ok((shooting_machine_id, p2)) => {
                match dec_elems::<FireMissEntry>(b, p2, n_hits as nat) {
                    Ok((hits, p3)) => {
                    match FloatBits::dec(b, p3) {
                        Ok((timestamp, p4)) => {
                        match ItemDescriptor::dec(b, p4) {
                            Ok((desc, p5)) => {
                            Ok((MultipleFireMissesV { shooting_machine_id, hits, timestamp, desc }, p5))
                            },
                            Err(e) => Err(e),
                        }
                        },
                        Err(e) => Err(e),
                    }
                    },
                    Err(e) => Err(e),
                }
                },
                Err(e) => Err(e),
            }
            },
            Err(e) => Err(e),
        }
    }

    proof fn lemma_dec_wire(v: MultipleFireMissesV, b: Seq<u8>, pos: int) {
        let w0 = u8::wire(v.hits.len() as u8);
        let w1 = i16::wire(v.shooting_machine_id);
        let w2 = wire_elems::<FireMissEntry>(v.hits);
        let w3 = FloatBits::wire(v.timestamp);
        let w4 = ItemDescriptor::wire(v.desc);
        assert(Self::wire(v) =~= w0 + (w1 + (w2 + (w3 + (w4)))));
        let p0 = pos;
        lemma_subrange_split(b, p0, w0, w1 + (w2 + (w3 + (w4))));
        u8::lemma_dec_wire(v.hits.len() as u8, b, p0);
        let p1 = p0 + w0.len();
        lemma_subrange_split(b, p1, w1, w2 + (w3 + (w4)));
        i16::lemma_dec_wire(v.shooting_machine_id, b, p1);
        let p2 = p1 + w1.len();
        lemma_subrange_split(b, p2, w2, w3 + (w4));
        lemma_dec_wire_elems::<FireMissEntry>(v.hits, b, p2);
        let p3 = p2 + w2.len();
        lemma_subrange_split(b, p3, w3, w4);
        FloatBits::lemma_dec_wire(v.timestamp, b, p3);
        let p4 = p3 + w3.len();
        ItemDescriptor::lemma_dec_wire(v.desc, b, p4);
        assert((MultipleFireMissesV { shooting_machine_id: v.shooting_machine_id, hits: v.hits, timestamp: v.timestamp, desc: v.desc }) =~= v);
    }

    fn decode(b: &[u8], pos: usize) -> (r: Result<(MultipleFireMisses, usize), DecodeError>) {
        let (n_hits, at1) = match u8::decode(b, pos) {
            Ok(x) => x,
            Err(e) => return Err(e),
        };
        let (shooting_machine_id, at2) = match i16::decode(b, at1) {
            Ok(x) => x,
            Err(e) => return Err(e),
        };
        let (hits, at3) = match decode_elems::<FireMissEntry>(b, at2, n_hits as usize) {
            Ok(x) => x,
            Err(e) => return Err(e),
        };
        let (timestamp, at4) = match FloatBits::decode(b, at3) {
            Ok(x) => x,
            Err(e) => return Err(e),
        };
        let (desc, at5) = match ItemDescriptor::decode(b, at4) {
            Ok(x) => x,
            Err(e) => return Err(e),
        };
        Ok((MultipleFireMisses { shooting_machine_id, hits, timestamp, desc }, at5))
    }

    fn encode(&self, out: &mut Vec<u8>) -> (r: Result<(), EncodeError>) {
        if self.hits.len() > 255 {
            return Err(EncodeError::LengthOverflow);
        }
        match (self.hits.len() as u8).encode(out) {
            Ok(()) => (),
            Err(e) => return Err(e),
        };
        match self.shooting_machine_id.encode(out) {
            Ok(()) => (),
            Err(e) => return Err(e),
        };
        match encode_elems::<FireMissEntry>(&self.hits, out) {
            Ok(()) => (),
            Err(e) => return Err(e),
        };
        match self.timestamp.encode(out) {
            Ok(()) => (),
            Err(e) => return Err(e),
        };
        match self.desc.encode(out) {
            Ok(()) => (),
            Err(e) => return Err(e),
        };
        proof {
            assert(out@ =~= old(out)@ + Self::wire(self.deep_view()));
        }
        Ok(())
    }
}
/// The game has started; nonzero when this client is reconnecting.
#[derive(Debug, Clone, Copy, PartialEq)]
#[verifier::ext_equal]
pub struct GameStart {
    pub is_reconnecting: u8,
}

impl DeepView for GameStart {
    type V = GameStart;

    open spec fn deep_view(&self) -> GameStart {
        *self
    }
}

impl Codec for GameStart {
    open spec fn enc_ok(v: GameStart) -> bool {
        true
    }

    open spec fn wire(v: GameStart) -> Seq<u8> {
        u8::wire(v.is_reconnecting)
    }

    open spec fn dec(b: Seq<u8>, pos: int) -> Result<(GameStart, int), DecodeError> {
        match u8::dec(b, pos) {
            Ok((is_reconnecting, p1)) => {
            Ok((GameStart { is_reconnecting }, p1))
            },
            Err(e) => Err(e),
        }
    }

    proof fn lemma_dec_wire(v: GameStart, b: Seq<u8>, pos: int) {
        let w0 = u8::wire(v.is_reconnecting);
        let p0 = pos;
        u8::lemma_dec_wire(v.is_reconnecting, b, p0);
        assert((GameStart { is_reconnecting: v.is_reconnecting }) =~= v);
    }

    fn decode(b: &[u8], pos: usize) -> (r: Result<(GameStart, usize), DecodeError>) {
        let (is_reconnecting, at1) = match u8::decode(b, pos) {
            Ok(x) => x,
            Err(e) => return Err(e),
        };
        Ok((GameStart { is_reconnecting }, at1))
    }

    fn encode(&self, out: &mut Vec<u8>) -> (r: Result<(), EncodeError>) {
        match self.is_reconnecting.encode(out) {
            Ok(()) => (),
            Err(e) => return Err(e),
        };
        proof {
            assert(out@ =~= old(out)@ + Self::wire(self.deep_view()));
        }
        Ok(())
    }
}
/// The game has ended, and why.
#[derive(Debug, Clone, Copy, PartialEq)]
#[verifier::ext_equal]
pub struct GameEnd {
    pub reason: GameEndReason,
}

impl DeepView for GameEnd {
    type V = GameEnd;

    open spec fn deep_view(&self) -> GameEnd {
        *self
    }
}

impl Codec for GameEnd {
    open spec fn enc_ok(v: GameEnd) -> bool {
        true
    }

    open spec fn wire(v: GameEnd) -> Seq<u8> {
        GameEndReason::wire(v.reason)
    }

    open spec fn dec(b: Seq<u8>, pos: int) -> Result<(GameEnd, int), DecodeError> {
        match GameEndReason::dec(b, pos) {
            Ok((reason, p1)) => {
            Ok((GameEnd { reason }, p1))
            },
            Err(e) => Err(e),
        }
    }

    proof fn lemma_dec_wire(v: GameEnd, b: Seq<u8>, pos: int) {
        let w0 = GameEndReason::wire(v.reason);
        let p0 = pos;
        GameEndReason::lemma_dec_wire(v.reason, b, p0);
        assert((GameEnd { reason: v.reason }) =~= v);
    }

    fn decode(b: &[u8], pos: usize) -> (r: Result<(GameEnd, usize), DecodeError>) {
        let (reason, at1) = match GameEndReason::decode(b, pos) {
            Ok(x) => x,
            Err(e) => return Err(e),
        };
        Ok((GameEnd { reason }, at1))
    }

    fn encode(&self, out: &mut Vec<u8>) -> (r: Result<(), EncodeError>) {
        match self.reason.encode(out) {
            Ok(()) => (),
            Err(e) => return Err(e),
        };
        proof {
            assert(out@ =~= old(out)@ + Self::wire(self.deep_view()));
        }
        Ok(())
    }
}
/// A ping measurement request or reply.
#[derive(Debug, Clone, Copy, PartialEq)]
#[verifier::ext_equal]
pub struct RequestPing {
    pub player_id: u8,
    pub requester: u8,
    pub timestamp: FloatBits,
}

impl DeepView for RequestPing {
    type V = RequestPing;

    open spec fn deep_view(&self) -> RequestPing {
        *self
    }
}

impl Codec for RequestPing {
    open spec fn enc_ok(v: RequestPing) -> bool {
        true
    }

    open spec fn wire(v: RequestPing) -> Seq<u8> {
        u8::wire(v.player_id) + u8::wire(v.requester) + FloatBits::wire(v.timestamp)
    }

    open spec fn dec(b: Seq<u8>, pos: int) -> Result<(RequestPing, int), DecodeError> {
        match u8::dec(b, pos) {
            Ok((player_id, p1)) => {
            match u8::dec(b, p1) {
                Ok((requester, p2)) => {
                match FloatBits::dec(b, p2) {
                    Ok((timestamp, p3)) => {
                    Ok((RequestPing { player_id, requester, timestamp }, p3))
                    },
                    Err(e) => Err(e),
                }
                },
                Err(e) => Err(e),
            }
            },
            Err(e) => Err(e),
        }
    }

    proof fn lemma_dec_wire(v: RequestPing, b: Seq<u8>, pos: int) {
        let w0 = u8::wire(v.player_id);
        let w1 = u8::wire(v.requester);
        let w2 = FloatBits::wire(v.timestamp);
        assert(Self::wire(v) =~= w0 + (w1 + (w2)));
        let p0 = pos;
        lemma_subrange_split(b, p0, w0, w1 + (w2));
        u8::lemma_dec_wire(v.player_id, b, p0);
        let p1 = p0 + w0.len();
        lemma_subrange_split(b, p1, w1, w2);
        u8::lemma_dec_wire(v.requester, b, p1);
        let p2 = p1 + w1.len();
        FloatBits::lemma_dec_wire(v.timestamp, b, p2);
        assert((RequestPing { player_id: v.player_id, requester: v.requester, timestamp: v.timestamp }) =~= v);
    }

    fn decode(b: &[u8], pos: usize) -> (r: Result<(RequestPing, usize), DecodeError>) {
        let (player_id, at1) = match u8::decode(b, pos) {
            Ok(x) => x,
            Err(e) => return Err(e),
        };
        let (requester, at2) = match u8::decode(b, at1) {
            Ok(x) => x,
            Err(e) => return Err(e),
        };
        let (timestamp, at3) = match FloatBits::decode(b, at2) {
            Ok(x) => x,
            Err(e) => return Err(e),
        };
        Ok((RequestPing { player_id, requester, timestamp }, at3))
    }

    fn encode(&self, out: &mut Vec<u8>) -> (r: Result<(), EncodeError>) {
        match self.player_id.encode(out) {
            Ok(()) => (),
            Err(e) => return Err(e),
        };
        match self.requester.encode(out) {
            Ok(()) => (),
            Err(e) => return Err(e),
        };
        match self.timestamp.encode(out) {
            Ok(()) => (),
            Err(e) => return Err(e),
        };
        proof {
            assert(out@ =~= old(out)@ + Self::wire(self.deep_view()));
        }
        Ok(())
    }
}
/// An event that names one player and nothing else.
#[derive(Debug, Clone, Copy, PartialEq)]
#[verifier::ext_equal]
pub struct PlayerId {
    pub player: u8,
}

impl DeepView for PlayerId {
    type V = PlayerId;

    open spec fn deep_view(&self) -> PlayerId {
        *self
    }
}

impl Codec for PlayerId {
    open spec fn enc_ok(v: PlayerId) -> bool {
        true
    }

    open spec fn wire(v: PlayerId) -> Seq<u8> {
        u8::wire(v.player)
    }

    open spec fn dec(b: Seq<u8>, pos: int) -> Result<(PlayerId, int), DecodeError> {
        match u8::dec(b, pos) {
            Ok((player, p1)) => {
            Ok((PlayerId { player }, p1))
            },
            Err(e) => Err(e),
        }
    }

    proof fn lemma_dec_wire(v: PlayerId, b: Seq<u8>, pos: int) {
        let w0 = u8::wire(v.player);
        let p0 = pos;
        u8::lemma_dec_wire(v.player, b, p0);
        assert((PlayerId { player: v.player }) =~= v);
    }

    fn decode(b: &[u8], pos: usize) -> (r: Result<(PlayerId, usize), DecodeError>) {
        let (player, at1) = match u8::decode(b, pos) {
            Ok(x) => x,
            Err(e) => return Err(e),
        };
        Ok((PlayerId { player }, at1))
    }

    fn encode(&self, out: &mut Vec<u8>) -> (r: Result<(), EncodeError>) {
        match self.player.encode(out) {
            Ok(()) => (),
            Err(e) => return Err(e),
        };
        proof {
            assert(out@ =~= old(out)@ + Self::wire(self.deep_view()));
        }
        Ok(())
    }
}
/// A ping placed on the map for teammates.
#[derive(Debug, Clone, Copy, PartialEq)]
#[verifier::ext_equal]
pub struct MapPing {
    pub sender: i32,
    pub team_id: i32,
    pub ty: PingType,
    pub pos: DVec3,
}

impl DeepView for MapPing {
    type V = MapPing;

    open spec fn deep_view(&self) -> MapPing {
        *self
    }
}

impl Codec for MapPing {
    open spec fn enc_ok(v: MapPing) -> bool {
        true
    }

    open spec fn wire(v: MapPing) -> Seq<u8> {
        i32::wire(v.sender) + i32::wire(v.team_id) + PingType::wire(v.ty) + DVec3::wire(v.pos)
    }

    open spec fn dec(b: Seq<u8>, pos: int) -> Result<(MapPing, int), DecodeError> {
        match i32::dec(b, pos) {
            Ok((sender, p1)) => {
            match i32::dec(b, p1) {
                Ok((team_id, p2)) => {
                match PingType::dec(b, p2) {
                    Ok((ty, p3)) => {
                    match DVec3::dec(b, p3) {
                        Ok((pos, p4)) => {
                        Ok((MapPing { sender, team_id, ty, pos }, p4))
                        },
                        Err(e) => Err(e),
                    }
                    },
                    Err(e) => Err(e),
                }
                },
                Err(e) => Err(e),
            }
            },
            Err(e) => Err(e),
        }
    }

    proof fn lemma_dec_wire(v: MapPing, b: Seq<u8>, pos: int) {
        let w0 = i32::wire(v.sender);
        let w1 = i32::wire(v.team_id);
        let w2 = PingType::wire(v.ty);
        let w3 = DVec3::wire(v.pos);
        assert(Self::wire(v) =~= w0 + (w1 + (w2 + (w3))));
        let p0 = pos;
        lemma_subrange_split(b, p0, w0, w1 + (w2 + (w3)));
        i32::lemma_dec_wire(v.sender, b, p0);
        let p1 = p0 + w0.len();
        lemma_subrange_split(b, p1, w1, w2 + (w3));
        i32::lemma_dec_wire(v.team_id, b, p1);
        let p2 = p1 + w1.len();
        lemma_subrange_split(b, p2, w2, w3);
        PingType::lemma_dec_wire(v.ty, b, p2);
        let p3 = p2 + w2.len();
        DVec3::lemma_dec_wire(v.pos, b, p3);
        assert((MapPing { sender: v.sender, team_id: v.team_id, ty: v.ty, pos: v.pos }) =~= v);
    }

    fn decode(b: &[u8], pos: usize) -> (r: Result<(MapPing, usize), DecodeError>) {
        let (sender, at1) = match i32::decode(b, pos) {
            Ok(x) => x,
            Err(e) => return Err(e),
        };
        let (team_id, at2) = match i32::decode(b, at1) {
            Ok(x) => x,
            Err(e) => return Err(e),
        };
        let (ty, at3) = match PingType::decode(b, at2) {
            Ok(x) => x,
            Err(e) => return Err(e),
        };
        let (pos, at4) = match DVec3::decode(b, at3) {
            Ok(x) => x,
            Err(e) => return Err(e),
        };
        Ok((MapPing { sender, team_id, ty, pos }, at4))
    }

    fn encode(&self, out: &mut Vec<u8>) -> (r: Result<(), EncodeError>) {
        match self.sender.encode(out) {
            Ok(()) => (),
            Err(e) => return Err(e),
        };
        match self.team_id.encode(out) {
            Ok(()) => (),
            Err(e) => return Err(e),
        };
        match self.ty.encode(out) {
            Ok(()) => (),
            Err(e) => return Err(e),
        };
        match self.pos.encode(out) {
            Ok(()) => (),
            Err(e) => return Err(e),
        };
        proof {
            assert(out@ =~= old(out)@ + Self::wire(self.deep_view()));
        }
        Ok(())
    }
}
/// A lock-on warning: who locks whom, and with what.
#[derive(Debug, Clone, Copy, PartialEq)]
#[verifier::ext_equal]
pub struct LockOnNotifier {
    pub firing_player_id: u8,
    pub target_player_id: u8,
    pub lock_stage: u8,
    pub locked_cube_pos: Byte3,
    pub item_category: i32,
    pub item_size: i32,
}

impl DeepView for LockOnNotifier {
    type V = LockOnNotifier;

    open spec fn deep_view(&self) -> LockOnNotifier {
        *self
    }
}

impl Codec for LockOnNotifier {
    open spec fn enc_ok(v: LockOnNotifier) -> bool {
        true
    }

    open spec fn wire(v: LockOnNotifier) -> Seq<u8> {
        u8::wire(v.firing_player_id) + u8::wire(v.target_player_id) + u8::wire(v.lock_stage) + Byte3::wire(v.locked_cube_pos) + i32::wire(v.item_category) + i32::wire(v.item_size)
    }

    open spec fn dec(b: Seq<u8>, pos: int) -> Result<(LockOnNotifier, int), DecodeError> {
        match u8::dec(b, pos) {
            Ok((firing_player_id, p1)) => {
            match u8::dec(b, p1) {
                Ok((target_player_id, p2)) => {
                match u8::dec(b, p2) {
                    Ok((lock_stage, p3)) => {
                    match Byte3::dec(b, p3) {
                        Ok((locked_cube_pos, p4)) => {
                        match i32::dec(b, p4) {
                            Ok((item_category, p5)) => {
                            match i32::dec(b, p5) {
                                Ok((item_size, p6)) => {
                                Ok((LockOnNotifier { firing_player_id, target_player_id, lock_stage, locked_cube_pos, item_category, item_size }, p6))
                                },
                                Err(e) => Err(e),
                            }
                            },
                            Err(e) => Err(e),
                        }
                        },
                        Err(e) => Err(e),
                    }
                    },
                    Err(e) => Err(e),
                }
                },
                Err(e) => Err(e),
            }
            },
            Err(e) => Err(e),
        }
    }

    proof fn lemma_dec_wire(v: LockOnNotifier, b: Seq<u8>, pos: int) {
        let w0 = u8::wire(v.firing_player_id);
        let w1 = u8::wire(v.target_player_id);
        let w2 = u8::wire(v.lock_stage);
        let w3 = Byte3::wire(v.locked_cube_pos);
        let w4 = i32::wire(v.item_category);
        let w5 = i32::wire(v.item_size);
        assert(Self::wire(v) =~= w0 + (w1 + (w2 + (w3 + (w4 + (w5))))));
        let p0 = pos;
        lemma_subrange_split(b, p0, w0, w1 + (w2 + (w3 + (w4 + (w5)))));
        u8::lemma_dec_wire(v.firing_player_id, b, p0);
        let p1 = p0 + w0.len();
        lemma_subrange_split(b, p1, w1, w2 + (w3 + (w4 + (w5))));
        u8::lemma_dec_wire(v.target_player_id, b, p1);
        let p2 = p1 + w1.len();
        lemma_subrange_split(b, p2, w2, w3 + (w4 + (w5)));
        u8::lemma_dec_wire(v.lock_stage, b, p2);
        let p3 = p2 + w2.len();
        lemma_subrange_split(b, p3, w3, w4 + (w5));
        Byte3::lemma_dec_wire(v.locked_cube_pos, b, p3);
        let p4 = p3 + w3.len();
        lemma_subrange_split(b, p4, w4, w5);
        i32::lemma_dec_wire(v.item_category, b, p4);
        let p5 = p4 + w4.len();
        i32::lemma_dec_wire(v.item_size, b, p5);
        assert((LockOnNotifier { firing_player_id: v.firing_player_id, target_player_id: v.target_player_id, lock_stage: v.lock_stage, locked_cube_pos: v.locked_cube_pos, item_category: v.item_category, item_size: v.item_size }) =~= v);
    }

    fn decode(b: &[u8], pos: usize) -> (r: Result<(LockOnNotifier, usize), DecodeError>) {
        let (firing_player_id, at1) = match u8::decode(b, pos) {
            Ok(x) => x,
            Err(e) => return Err(e),
        };
        let (target_player_id, at2) = match u8::decode(b, at1) {
            Ok(x) => x,
            Err(e) => return Err(e),
        };
        let (lock_stage, at3) = match u8::decode(b, at2) {
            Ok(x) => x,
            Err(e) => return Err(e),
        };
        let (locked_cube_pos, at4) = match Byte3::decode(b, at3) {
            Ok(x) => x,
            Err(e) => return Err(e),
        };
        let (item_category, at5) = match i32::decode(b, at4) {
            Ok(x) => x,
            Err(e) => return Err(e),
        };
        let (item_size, at6) = match i32::decode(b, at5) {
            Ok(x) => x,
            Err(e) => return Err(e),
        };
        Ok((LockOnNotifier { firing_player_id, target_player_id, lock_stage, locked_cube_pos, item_category, item_size }, at6))
    }

    fn encode(&self, out: &mut Vec<u8>) -> (r: Result<(), EncodeError>) {
        match self.firing_player_id.encode(out) {
            Ok(()) => (),
            Err(e) => return Err(e),
        };
        match self.target_player_id.encode(out) {
            Ok(()) => (),
            Err(e) => return Err(e),
        };
        match self.lock_stage.encode(out) {
            Ok(()) => (),
            Err(e) => return Err(e),
        };
        match self.locked_cube_pos.encode(out) {
            Ok(()) => (),
            Err(e) => return Err(e),
        };
        match self.item_category.encode(out) {
            Ok(()) => (),
            Err(e) => return Err(e),
        };
        match self.item_size.encode(out) {
            Ok(()) => (),
            Err(e) => return Err(e),
        };
        proof {
            assert(out@ =~= old(out)@ + Self::wire(self.deep_view()));
        }
        Ok(())
    }
}
/// A shield module placed in the world.
#[derive(Debug, Clone, Copy, PartialEq)]
#[verifier::ext_equal]
pub struct ShieldModuleEvent {
    pub pos: PosQuatPair,
    pub firing_player_id: u8,
}

impl DeepView for ShieldModuleEvent {
    type V = ShieldModuleEvent;

    open spec fn deep_view(&self) -> ShieldModuleEvent {
        *self
    }
}

impl Codec for ShieldModuleEvent {
    open spec fn enc_ok(v: ShieldModuleEvent) -> bool {
        true
    }

    open spec fn wire(v: ShieldModuleEvent) -> Seq<u8> {
        PosQuatPair::wire(v.pos) + u8::wire(v.firing_player_id)
    }

    open spec fn dec(b: Seq<u8>, pos: int) -> Result<(ShieldModuleEvent, int), DecodeError> {
        match PosQuatPair::dec(b, pos) {
            Ok((pos, p1)) => {
            match u8::dec(b, p1) {
                Ok((firing_player_id, p2)) => {
                Ok((ShieldModuleEvent { pos, firing_player_id }, p2))
                },
                Err(e) => Err(e),
            }
            },
            Err(e) => Err(e),
        }
    }

    proof fn lemma_dec_wire(v: ShieldModuleEvent, b: Seq<u8>, pos: int) {
        let w0 = PosQuatPair::wire(v.pos);
        let w1 = u8::wire(v.firing_player_id);
        assert(Self::wire(v) =~= w0 + (w1));
        let p0 = pos;
        lemma_subrange_split(b, p0, w0, w1);
        PosQuatPair::lemma_dec_wire(v.pos, b, p0);
        let p1 = p0 + w0.len();
        u8::lemma_dec_wire(v.firing_player_id, b, p1);
        assert((ShieldModuleEvent { pos: v.pos, firing_player_id: v.firing_player_id }) =~= v);
    }

    fn decode(b: &[u8], pos: usize) -> (r: Result<(ShieldModuleEvent, usize), DecodeError>) {
        let (pos, at1) = match PosQuatPair::decode(b, pos) {
            Ok(x) => x,
            Err(e) => return Err(e),
        };
        let (firing_player_id, at2) = match u8::decode(b, at1) {
            Ok(x) => x,
            Err(e) => return Err(e),
        };
        Ok((ShieldModuleEvent { pos, firing_player_id }, at2))
    }

    fn encode(&self, out: &mut Vec<u8>) -> (r: Result<(), EncodeError>) {
        match self.pos.encode(out) {
            Ok(()) => (),
            Err(e) => return Err(e),
        };
        match self.firing_player_id.encode(out) {
            Ok(()) => (),
            Err(e) => return Err(e),
        };
        proof {
            assert(out@ =~= old(out)@ + Self::wire(self.deep_view()));
        }
        Ok(())
    }
}
/// A teleport effect switching on or off.
#[derive(Debug, Clone, Copy, PartialEq)]
#[verifier::ext_equal]
pub struct TeleportActivateEffect {
    pub activate: u8,
    pub player_id: u8,
    pub module_index: u8,
}

impl DeepView for TeleportActivateEffect {
    type V = TeleportActivateEffect;

    open spec fn deep_view(&self) -> TeleportActivateEffect {
        *self
    }
}

impl Codec for TeleportActivateEffect {
    open spec fn enc_ok(v: TeleportActivateEffect) -> bool {
        true
    }

    open spec fn wire(v: TeleportActivateEffect) -> Seq<u8> {
        u8::wire(v.activate) + u8::wire(v.player_id) + u8::wire(v.module_index)
    }

    open spec fn dec(b: Seq<u8>, pos: int) -> Result<(TeleportActivateEffect, int), DecodeError> {
        match u8::dec(b, pos) {
            Ok((activate, p1)) => {
            match u8::dec(b, p1) {
                Ok((player_id, p2)) => {
                match u8::dec(b, p2) {
                    Ok((module_index, p3)) => {
                    Ok((TeleportActivateEffect { activate, player_id, module_index }, p3))
                    },
                    Err(e) => Err(e),
                }
                },
                Err(e) => Err(e),
            }
            },
            Err(e) => Err(e),
        }
    }

    proof fn lemma_dec_wire(v: TeleportActivateEffect, b: Seq<u8>, pos: int) {
        let w0 = u8::wire(v.activate);
        let w1 = u8::wire(v.player_id);
        let w2 = u8::wire(v.module_index);
        assert(Self::wire(v) =~= w0 + (w1 + (w2)));
        let p0 = pos;
        lemma_subrange_split(b, p0, w0, w1 + (w2));
        u8::lemma_dec_wire(v.activate, b, p0);
        let p1 = p0 + w0.len();
        lemma_subrange_split(b, p1, w1, w2);
        u8::lemma_dec_wire(v.player_id, b, p1);
        let p2 = p1 + w1.len();
        u8::lemma_dec_wire(v.module_index, b, p2);
        assert((TeleportActivateEffect { activate: v.activate, player_id: v.player_id, module_index: v.module_index }) =~= v);
    }

    fn decode(b: &[u8], pos: usize) -> (r: Result<(TeleportActivateEffect, usize), DecodeError>) {
        let (activate, at1) = match u8::decode(b, pos) {
            Ok(x) => x,
            Err(e) => return Err(e),
        };
        let (player_id, at2) = match u8::decode(b, at1) {
            Ok(x) => x,
            Err(e) => return Err(e),
        };
        let (module_index, at3) = match u8::decode(b, at2) {
            Ok(x) => x,
            Err(e) => return Err(e),
        };
        Ok((TeleportActivateEffect { activate, player_id, module_index }, at3))
    }

    fn encode(&self, out: &mut Vec<u8>) -> (r: Result<(), EncodeError>) {
        match self.activate.encode(out) {
            Ok(()) => (),
            Err(e) => return Err(e),
        };
        match self.player_id.encode(out) {
            Ok(()) => (),
            Err(e) => return Err(e),
        };
        match self.module_index.encode(out) {
            Ok(()) => (),
            Err(e) => return Err(e),
        };
        proof {
            assert(out@ =~= old(out)@ + Self::wire(self.deep_view()));
        }
        Ok(())
    }
}
/// An EMP charge placed in the world.
#[derive(Debug, Clone, Copy, PartialEq)]
#[verifier::ext_equal]
pub struct SpawnEmpLocator {
    pub pos: CompressedVec3<768>,
    pub range: FloatBits,
    pub countdown: FloatBits,
    pub stun_duration: FloatBits,
    pub owner_id: u8,
    pub owner_machine_id: i16,
}

impl DeepView for SpawnEmpLocator {
    type V = SpawnEmpLocator;

    open spec fn deep_view(&self) -> SpawnEmpLocator {
        *self
    }
}

impl Codec for SpawnEmpLocator {
    open spec fn enc_ok(v: SpawnEmpLocator) -> bool {
        true
    }

    open spec fn wire(v: SpawnEmpLocator) -> Seq<u8> {
        CompressedVec3::<768>::wire(v.pos) + FloatBits::wire(v.range) + FloatBits::wire(v.countdown) + FloatBits::wire(v.stun_duration) + u8::wire(v.owner_id) + i16::wire(v.owner_machine_id)
    }

    open spec fn dec(b: Seq<u8>, pos: int) -> Result<(SpawnEmpLocator, int), DecodeError> {
        match CompressedVec3::<768>::dec(b, pos) {
            Ok((pos, p1)) => {
            match FloatBits::dec(b, p1) {
                Ok((range, p2)) => {
                match FloatBits::dec(b, p2) {
                    Ok((countdown, p3)) => {
                    match FloatBits::dec(b, p3) {
                        Ok((stun_duration, p4)) => {
                        match u8::dec(b, p4) {
                            Ok((owner_id, p5)) => {
                            match i16::dec(b, p5) {
                                Ok((owner_machine_id, p6)) => {
                                Ok((SpawnEmpLocator { pos, range, countdown, stun_duration, owner_id, owner_machine_id }, p6))
                                },
                                Err(e) => Err(e),
                            }
                            },
                            Err(e) => Err(e),
                        }
                        },
                        Err(e) => Err(e),
                    }
                    },
                    Err(e) => Err(e),
                }
                },
                Err(e) => Err(e),
            }
            },
            Err(e) => Err(e),
        }
    }

    proof fn lemma_dec_wire(v: SpawnEmpLocator, b: Seq<u8>, pos: int) {
        let w0 = CompressedVec3::<768>::wire(v.pos);
        let w1 = FloatBits::wire(v.range);
        let w2 = FloatBits::wire(v.countdown);
        let w3 = FloatBits::wire(v.stun_duration);
        let w4 = u8::wire(v.owner_id);
        let w5 = i16::wire(v.owner_machine_id);
        assert(Self::wire(v) =~= w0 + (w1 + (w2 + (w3 + (w4 + (w5))))));
        let p0 = pos;
        lemma_subrange_split(b, p0, w0, w1 + (w2 + (w3 + (w4 + (w5)))));
        CompressedVec3::<768>::lemma_dec_wire(v.pos, b, p0);
        let p1 = p0 + w0.len();
        lemma_subrange_split(b, p1, w1, w2 + (w3 + (w4 + (w5))));
        FloatBits::lemma_dec_wire(v.range, b, p1);
        let p2 = p1 + w1.len();
        lemma_subrange_split(b, p2, w2, w3 + (w4 + (w5)));
        FloatBits::lemma_dec_wire(v.countdown, b, p2);
        let p3 = p2 + w2.len();
        lemma_subrange_split(b, p3, w3, w4 + (w5));
        FloatBits::lemma_dec_wire(v.stun_duration, b, p3);
        let p4 = p3 + w3.len();
        lemma_subrange_split(b, p4, w4, w5);
        u8::lemma_dec_wire(v.owner_id, b, p4);
        let p5 = p4 + w4.len();
        i16::lemma_dec_wire(v.owner_machine_id, b, p5);
        assert((SpawnEmpLocator { pos: v.pos, range: v.range, countdown: v.countdown, stun_duration: v.stun_duration, owner_id: v.owner_id, owner_machine_id: v.owner_machine_id }) =~= v);
    }

    fn decode(b: &[u8], pos: usize) -> (r: Result<(SpawnEmpLocator, usize), DecodeError>) {
        let (pos, at1) = match CompressedVec3::<768>::decode(b, pos) {
            Ok(x) => x,
            Err(e) => return Err(e),
        };
        let (range, at2) = match FloatBits::decode(b, at1) {
            Ok(x) => x,
            Err(e) => return Err(e),
        };
        let (countdown, at3) = match FloatBits::decode(b, at2) {
            Ok(x) => x,
            Err(e) => return Err(e),
        };
        let (stun_duration, at4) = match FloatBits::decode(b, at3) {
            Ok(x) => x,
            Err(e) => return Err(e),
        };
        let (owner_id, at5) = match u8::decode(b, at4) {
            Ok(x) => x,
            Err(e) => return Err(e),
        };
        let (owner_machine_id, at6) = match i16::decode(b, at5) {
            Ok(x) => x,
            Err(e) => return Err(e),
        };
        Ok((SpawnEmpLocator { pos, range, countdown, stun_duration, owner_id, owner_machine_id }, at6))
    }

    fn encode(&self, out: &mut Vec<u8>) -> (r: Result<(), EncodeError>) {
        match self.pos.encode(out) {
            Ok(()) => (),
            Err(e) => return Err(e),
        };
        match self.range.encode(out) {
            Ok(()) => (),
            Err(e) => return Err(e),
        };
        match self.countdown.encode(out) {
            Ok(()) => (),
            Err(e) => return Err(e),
        };
        match self.stun_duration.encode(out) {
            Ok(()) => (),
            Err(e) => return Err(e),
        };
        match self.owner_id.encode(out) {
            Ok(()) => (),
            Err(e) => return Err(e),
        };
        match self.owner_machine_id.encode(out) {
            Ok(()) => (),
            Err(e) => return Err(e),
        };
        proof {
            assert(out@ =~= old(out)@ + Self::wire(self.deep_view()));
        }
        Ok(())
    }
}
/// A machine entering or leaving the stunned state.
#[derive(Debug, Clone, Copy, PartialEq)]
#[verifier::ext_equal]
pub struct NetworkStunnedMachineEffect {
    pub machine_id: i32,
    pub is_stunned: u8,
    pub owner_id: i32,
}

impl DeepView for NetworkStunnedMachineEffect {
    type V = NetworkStunnedMachineEffect;

    open spec fn deep_view(&self) -> NetworkStunnedMachineEffect {
        *self
    }
}

impl Codec for NetworkStunnedMachineEffect {
    open spec fn enc_ok(v: NetworkStunnedMachineEffect) -> bool {
        true
    }

    open spec fn wire(v: NetworkStunnedMachineEffect) -> Seq<u8> {
        i32::wire(v.machine_id) + u8::wire(v.is_stunned) + i32::wire(v.owner_id)
    }

    open spec fn dec(b: Seq<u8>, pos: int) -> Result<(NetworkStunnedMachineEffect, int), DecodeError> {
        match i32::dec(b, pos) {
            Ok((machine_id, p1)) => {
            match u8::dec(b, p1) {
                Ok((is_stunned, p2)) => {
                match i32::dec(b, p2) {
                    Ok((owner_id, p3)) => {
                    Ok((NetworkStunnedMachineEffect { machine_id, is_stunned, owner_id }, p3))
                    },
                    Err(e) => Err(e),
                }
                },
                Err(e) => Err(e),
            }
            },
            Err(e) => Err(e),
        }
    }

    proof fn lemma_dec_wire(v: NetworkStunnedMachineEffect, b: Seq<u8>, pos: int) {
        let w0 = i32::wire(v.machine_id);
        let w1 = u8::wire(v.is_stunned);
        let w2 = i32::wire(v.owner_id);
        assert(Self::wire(v) =~= w0 + (w1 + (w2)));
        let p0 = pos;
        lemma_subrange_split(b, p0, w0, w1 + (w2));
        i32::lemma_dec_wire(v.machine_id, b, p0);
        let p1 = p0 + w0.len();
        lemma_subrange_split(b, p1, w1, w2);
        u8::lemma_dec_wire(v.is_stunned, b, p1);
        let p2 = p1 + w1.len();
        i32::lemma_dec_wire(v.owner_id, b, p2);
        assert((NetworkStunnedMachineEffect { machine_id: v.machine_id, is_stunned: v.is_stunned, owner_id: v.owner_id }) =~= v);
    }

    fn decode(b: &[u8], pos: usize) -> (r: Result<(NetworkStunnedMachineEffect, usize), DecodeError>) {
        let (machine_id, at1) = match i32::decode(b, pos) {
            Ok(x) => x,
            Err(e) => return Err(e),
        };
        let (is_stunned, at2) = match u8::decode(b, at1) {
            Ok(x) => x,
            Err(e) => return Err(e),
        };
        let (owner_id, at3) = match i32::decode(b, at2) {
            Ok(x) => x,
            Err(e) => return Err(e),
        };
        Ok((NetworkStunnedMachineEffect { machine_id, is_stunned, owner_id }, at3))
    }

    fn encode(&self, out: &mut Vec<u8>) -> (r: Result<(), EncodeError>) {
        match self.machine_id.encode(out) {
            Ok(()) => (),
            Err(e) => return Err(e),
        };
        match self.is_stunned.encode(out) {
            Ok(()) => (),
            Err(e) => return Err(e),
        };
        match self.owner_id.encode(out) {
            Ok(()) => (),
            Err(e) => return Err(e),
        };
        proof {
            assert(out@ =~= old(out)@ + Self::wire(self.deep_view()));
        }
        Ok(())
    }
}
/// A taunt played at a position relative to a machine.
#[derive(Debug, Clone, PartialEq)]
#[verifier::ext_equal]
pub struct Taunt {
    pub machine_id: i32,
    pub taunt_id: BinaryWriterString,
    pub relative_position: SVec3,
    pub relative_orientation: SQuat,
}

/// Model of a [`Taunt`] value: sequences stand for the vectors.
#[verifier::ext_equal]
pub struct TauntV {
    pub machine_id: i32,
    pub taunt_id: Seq<u16>,
    pub relative_position: SVec3,
    pub relative_orientation: SQuat,
}

impl DeepView for Taunt {
    type V = TauntV;

    open spec fn deep_view(&self) -> TauntV {
        TauntV {
            machine_id: self.machine_id,
            taunt_id: self.taunt_id.deep_view(),
            relative_position: self.relative_position,
            relative_orientation: self.relative_orientation,
        }
    }
}

impl Codec for Taunt {
    open spec fn enc_ok(v: TauntV) -> bool {
        BinaryWriterString::enc_ok(v.taunt_id)
    }

    open spec fn wire(v: TauntV) -> Seq<u8> {
        i32::wire(v.machine_id) + BinaryWriterString::wire(v.taunt_id) + SVec3::wire(v.relative_position) + SQuat::wire(v.relative_orientation)
    }

    open spec fn dec(b: Seq<u8>, pos: int) -> Result<(TauntV, int), DecodeError> {
        match i32::dec(b, pos) {
            Ok((machine_id, p1)) => {
            match BinaryWriterString::dec(b, p1) {
                Ok((taunt_id, p2)) => {
                match SVec3::dec(b, p2) {
                    Ok((relative_position, p3)) => {
                    match SQuat::dec(b, p3) {
                        Ok((relative_orientation, p4)) => {
                        Ok((TauntV { machine_id, taunt_id, relative_position, relative_orientation }, p4))
                        },
                        Err(e) => Err(e),
                    }
                    },
                    Err(e) => Err(e),
                }
                },
                Err(e) => Err(e),
            }
            },
            Err(e) => Err(e),
        }
    }

    proof fn lemma_dec_wire(v: TauntV, b: Seq<u8>, pos: int) {
        let w0 = i32::wire(v.machine_id);
        let w1 = BinaryWriterString::wire(v.taunt_id);
        let w2 = SVec3::wire(v.relative_position);
        let w3 = SQuat::wire(v.relative_orientation);
        assert(Self::wire(v) =~= w0 + (w1 + (w2 + (w3))));
        let p0 = pos;
        lemma_subrange_split(b, p0, w0, w1 + (w2 + (w3)));
        i32::lemma_dec_wire(v.machine_id, b, p0);
        let p1 = p0 + w0.len();
        lemma_subrange_split(b, p1, w1, w2 + (w3));
        BinaryWriterString::lemma_dec_wire(v.taunt_id, b, p1);
        let p2 = p1 + w1.len();
        lemma_subrange_split(b, p2, w2, w3);
        SVec3::lemma_dec_wire(v.relative_position, b, p2);
        let p3 = p2 + w2.len();
        SQuat::lemma_dec_wire(v.relative_orientation, b, p3);
        assert((TauntV { machine_id: v.machine_id, taunt_id: v.taunt_id, relative_position: v.relative_position, relative_orientation: v.relative_orientation }) =~= v);
    }

    fn decode(b: &[u8], pos: usize) -> (r: Result<(Taunt, usize), DecodeError>) {
        let (machine_id, at1) = match i32::decode(b, pos) {
            Ok(x) => x,
            Err(e) => return Err(e),
        };
        let (taunt_id, at2) = match BinaryWriterString::decode(b, at1) {
            Ok(x) => x,
            Err(e) => return Err(e),
        };
        let (relative_position, at3) = match SVec3::decode(b, at2) {
            Ok(x) => x,
            Err(e) => return Err(e),
        };
        let (relative_orientation, at4) = match SQuat::decode(b, at3) {
            Ok(x) => x,
            Err(e) => return Err(e),
        };
        Ok((Taunt { machine_id, taunt_id, relative_position, relative_orientation }, at4))
    }

    fn encode(&self, out: &mut Vec<u8>) -> (r: Result<(), EncodeError>) {
        match self.machine_id.encode(out) {
            Ok(()) => (),
            Err(e) => return Err(e),
        };
        match self.taunt_id.encode(out) {
            Ok(()) => (),
            Err(e) => return Err(e),
        };
        match self.relative_position.encode(out) {
            Ok(()) => (),
            Err(e) => return Err(e),
        };
        match self.relative_orientation.encode(out) {
            Ok(()) => (),
            Err(e) => return Err(e),
        };
        proof {
            assert(out@ =~= old(out)@ + Self::wire(self.deep_view()));
        }
        Ok(())
    }
}
/// A purely cosmetic action on a machine.
#[derive(Debug, Clone, Copy, PartialEq)]
#[verifier::ext_equal]
pub struct CosmeticAction {
    pub owner_machine_id: i32,
    pub cosmetic_action_data_index: i32,
}

impl DeepView for CosmeticAction {
    type V = CosmeticAction;

    open spec fn deep_view(&self) -> CosmeticAction {
        *self
    }
}

impl Codec for CosmeticAction {
    open spec fn enc_ok(v: CosmeticAction) -> bool {
        true
    }

    open spec fn wire(v: CosmeticAction) -> Seq<u8> {
        i32::wire(v.owner_machine_id) + i32::wire(v.cosmetic_action_data_index)
    }

    open spec fn dec(b: Seq<u8>, pos: int) -> Result<(CosmeticAction, int), DecodeError> {
        match i32::dec(b, pos) {
            Ok((owner_machine_id, p1)) => {
            match i32::dec(b, p1) {
                Ok((cosmetic_action_data_index, p2)) => {
                Ok((CosmeticAction { owner_machine_id, cosmetic_action_data_index }, p2))
                },
                Err(e) => Err(e),
            }
            },
            Err(e) => Err(e),
        }
    }

    proof fn lemma_dec_wire(v: CosmeticAction, b: Seq<u8>, pos: int) {
        let w0 = i32::wire(v.owner_machine_id);
        let w1 = i32::wire(v.cosmetic_action_data_index);
        assert(Self::wire(v) =~= w0 + (w1));
        let p0 = pos;
        lemma_subrange_split(b, p0, w0, w1);
        i32::lemma_dec_wire(v.owner_machine_id, b, p0);
        let p1 = p0 + w0.len();
        i32::lemma_dec_wire(v.cosmetic_action_data_index, b, p1);
        assert((CosmeticAction { owner_machine_id: v.owner_machine_id, cosmetic_action_data_index: v.cosmetic_action_data_index }) =~= v);
    }

    fn decode(b: &[u8], pos: usize) -> (r: Result<(CosmeticAction, usize), DecodeError>) {
        let (owner_machine_id, at1) = match i32::decode(b, pos) {
            Ok(x) => x,
            Err(e) => return Err(e),
        };
        let (cosmetic_action_data_index, at2) = match i32::decode(b, at1) {
            Ok(x) => x,
            Err(e) => return Err(e),
        };
        Ok((CosmeticAction { owner_machine_id, cosmetic_action_data_index }, at2))
    }

    fn encode(&self, out: &mut Vec<u8>) -> (r: Result<(), EncodeError>) {
        match self.owner_machine_id.encode(out) {
            Ok(()) => (),
            Err(e) => return Err(e),
        };
        match self.cosmetic_action_data_index.encode(out) {
            Ok(()) => (),
            Err(e) => return Err(e),
        };
        proof {
            assert(out@ =~= old(out)@ + Self::wire(self.deep_view()));
        }
        Ok(())
    }
}
/// A weapon selection broadcast.
#[derive(Debug, Clone, Copy, PartialEq)]
#[verifier::ext_equal]
pub struct SelectWeapon {
    pub machine_id: u8,
    pub item_category: u32,
    pub item_size: u32,
}

impl DeepView for SelectWeapon {
    type V = SelectWeapon;

    open spec fn deep_view(&self) -> SelectWeapon {
        *self
    }
}

impl Codec for SelectWeapon {
    open spec fn enc_ok(v: SelectWeapon) -> bool {
        true
    }

    open spec fn wire(v: SelectWeapon) -> Seq<u8> {
        u8::wire(v.machine_id) + u32::wire(v.item_category) + u32::wire(v.item_size)
    }

    open spec fn dec(b: Seq<u8>, pos: int) -> Result<(SelectWeapon, int), DecodeError> {
        match u8::dec(b, pos) {
            Ok((machine_id, p1)) => {
            match u32::dec(b, p1) {
                Ok((item_category, p2)) => {
                match u32::dec(b, p2) {
                    Ok((item_size, p3)) => {
                    Ok((SelectWeapon { machine_id, item_category, item_size }, p3))
                    },
                    Err(e) => Err(e),
                }
                },
                Err(e) => Err(e),
            }
            },
            Err(e) => Err(e),
        }
    }

    proof fn lemma_dec_wire(v: SelectWeapon, b: Seq<u8>, pos: int) {
        let w0 = u8::wire(v.machine_id);
        let w1 = u32::wire(v.item_category);
        let w2 = u32::wire(v.item_size);
        assert(Self::wire(v) =~= w0 + (w1 + (w2)));
        let p0 = pos;
        lemma_subrange_split(b, p0, w0, w1 + (w2));
        u8::lemma_dec_wire(v.machine_id, b, p0);
        let p1 = p0 + w0.len();
        lemma_subrange_split(b, p1, w1, w2);
        u32::lemma_dec_wire(v.item_category, b, p1);
        let p2 = p1 + w1.len();
        u32::lemma_dec_wire(v.item_size, b, p2);
        assert((SelectWeapon { machine_id: v.machine_id, item_category: v.item_category, item_size: v.item_size }) =~= v);
    }

    fn decode(b: &[u8], pos: usize) -> (r: Result<(SelectWeapon, usize), DecodeError>) {
        let (machine_id, at1) = match u8::decode(b, pos) {
            Ok(x) => x,
            Err(e) => return Err(e),
        };
        let (item_category, at2) = match u32::decode(b, at1) {
            Ok(x) => x,
            Err(e) => return Err(e),
        };
        let (item_size, at3) = match u32::decode(b, at2) {
            Ok(x) => x,
            Err(e) => return Err(e),
        };
        Ok((SelectWeapon { machine_id, item_category, item_size }, at3))
    }

    fn encode(&self, out: &mut Vec<u8>) -> (r: Result<(), EncodeError>) {
        match self.machine_id.encode(out) {
            Ok(()) => (),
            Err(e) => return Err(e),
        };
        match self.item_category.encode(out) {
            Ok(()) => (),
            Err(e) => return Err(e),
        };
        match self.item_size.encode(out) {
            Ok(()) => (),
            Err(e) => return Err(e),
        };
        proof {
            assert(out@ =~= old(out)@ + Self::wire(self.deep_view()));
        }
        Ok(())
    }
}
/// One healed cube in an ally heal.
#[derive(Debug, Clone, Copy, PartialEq)]
#[verifier::ext_equal]
pub struct HealAllyEntry {
    pub cube_info: HitCubeInfo,
    pub type_performing_healing: TargetType,
}

impl DeepView for HealAllyEntry {
    type V = HealAllyEntry;

    open spec fn deep_view(&self) -> HealAllyEntry {
        *self
    }
}

impl Codec for HealAllyEntry {
    open spec fn enc_ok(v: HealAllyEntry) -> bool {
        true
    }

    open spec fn wire(v: HealAllyEntry) -> Seq<u8> {
        HitCubeInfo::wire(v.cube_info) + TargetType::wire(v.type_performing_healing)
    }

    open spec fn dec(b: Seq<u8>, pos: int) -> Result<(HealAllyEntry, int), DecodeError> {
        match HitCubeInfo::dec(b, pos) {
            Ok((cube_info, p1)) => {
            match TargetType::dec(b, p1) {
                Ok((type_performing_healing, p2)) => {
                Ok((HealAllyEntry { cube_info, type_performing_healing }, p2))
                },
                Err(e) => Err(e),
            }
            },
            Err(e) => Err(e),
        }
    }

    proof fn lemma_dec_wire(v: HealAllyEntry, b: Seq<u8>, pos: int) {
        let w0 = HitCubeInfo::wire(v.cube_info);
        let w1 = TargetType::wire(v.type_performing_healing);
        assert(Self::wire(v) =~= w0 + (w1));
        let p0 = pos;
        lemma_subrange_split(b, p0, w0, w1);
        HitCubeInfo::lemma_dec_wire(v.cube_info, b, p0);
        let p1 = p0 + w0.len();
        TargetType::lemma_dec_wire(v.type_performing_healing, b, p1);
        assert((HealAllyEntry { cube_info: v.cube_info, type_performing_healing: v.type_performing_healing }) =~= v);
    }

    fn decode(b: &[u8], pos: usize) -> (r: Result<(HealAllyEntry, usize), DecodeError>) {
        let (cube_info, at1) = match HitCubeInfo::decode(b, pos) {
            Ok(x) => x,
            Err(e) => return Err(e),
        };
        let (type_performing_healing, at2) = match TargetType::decode(b, at1) {
            Ok(x) => x,
            Err(e) => return Err(e),
        };
        Ok((HealAllyEntry { cube_info, type_performing_healing }, at2))
    }

    fn encode(&self, out: &mut Vec<u8>) -> (r: Result<(), EncodeError>) {
        match self.cube_info.encode(out) {
            Ok(()) => (),
            Err(e) => return Err(e),
        };
        match self.type_performing_healing.encode(out) {
            Ok(()) => (),
            Err(e) => return Err(e),
        };
        proof {
            assert(out@ =~= old(out)@ + Self::wire(self.deep_view()));
        }
        Ok(())
    }
}
/// An ally heal: the machines involved and every healed cube.
#[derive(Debug, Clone, PartialEq)]
#[verifier::ext_equal]
pub struct HealAllyCubes {
    pub healed_machine: i16,
    pub shooting_machine: i16,
    pub shooting_player_id: u8,
    pub item_size: i32,
    pub hit_effect_offset: CompressedVec3<768>,
    pub hit_effect_normal: CompressedVec3<255>,
    pub time_stamp: FloatBits,
    pub hit_cubes: Vec<HealAllyEntry>,
}

/// Model of a [`HealAllyCubes`] value: sequences stand for the vectors.
#[verifier::ext_equal]
pub struct HealAllyCubesV {
    pub healed_machine: i16,
    pub shooting_machine: i16,
    pub shooting_player_id: u8,
    pub item_size: i32,
    pub hit_effect_offset: CompressedVec3<768>,
    pub hit_effect_normal: CompressedVec3<255>,
    pub time_stamp: FloatBits,
    pub hit_cubes: Seq<HealAllyEntry>,
}

impl DeepView for HealAllyCubes {
    type V = HealAllyCubesV;

    open spec fn deep_view(&self) -> HealAllyCubesV {
        HealAllyCubesV {
            healed_machine: self.healed_machine,
            shooting_machine: self.shooting_machine,
            shooting_player_id: self.shooting_player_id,
            item_size: self.item_size,
            hit_effect_offset: self.hit_effect_offset,
            hit_effect_normal: self.hit_effect_normal,
            time_stamp: self.time_stamp,
            hit_cubes: self.hit_cubes.deep_view(),
        }
    }
}

impl Codec for HealAllyCubes {
    open spec fn enc_ok(v: HealAllyCubesV) -> bool {
        counted_ok_u16::<HealAllyEntry>(v.hit_cubes)
    }

    open spec fn wire(v: HealAllyCubesV) -> Seq<u8> {
        i16::wire(v.healed_machine) + i16::wire(v.shooting_machine) + u8::wire(v.shooting_player_id) + i32::wire(v.item_size) + CompressedVec3::<768>::wire(v.hit_effect_offset) + CompressedVec3::<255>::wire(v.hit_effect_normal) + FloatBits::wire(v.time_stamp) + wire_counted_u16::<HealAllyEntry>(v.hit_cubes)
    }

    open spec fn dec(b: Seq<u8>, pos: int) -> Result<(HealAllyCubesV, int), DecodeError> {
        match i16::dec(b, pos) {
            Ok((healed_machine, p1)) => {
            match i16::dec(b, p1) {
                Ok((shooting_machine, p2)) => {
                match u8::dec(b, p2) {
                    Ok((shooting_player_id, p3)) => {
                    match i32::dec(b, p3) {
                        Ok((item_size, p4)) => {
                        match CompressedVec3::<768>::dec(b, p4) {
                            Ok((hit_effect_offset, p5)) => {
                            match CompressedVec3::<255>::dec(b, p5) {
                                Ok((hit_effect_normal, p6)) => {
                                match FloatBits::dec(b, p6) {
                                    Ok((time_stamp, p7)) => {
                                    match dec_counted_u16::<HealAllyEntry>(b, p7) {
                                        Ok((hit_cubes, p8)) => {
                                        Ok((HealAllyCubesV { healed_machine, shooting_machine, shooting_player_id, item_size, hit_effect_offset, hit_effect_normal, time_stamp, hit_cubes }, p8))
                                        },
                                        Err(e) => Err(e),
                                    }
                                    },
                                    Err(e) => Err(e),
                                }
                                },
                                Err(e) => Err(e),
                            }
                            },
                            Err(e) => Err(e),
                        }
                        },
                        Err(e) => Err(e),
                    }
                    },
                    Err(e) => Err(e),
                }
                },
                Err(e) => Err(e),
            }
            },
            Err(e) => Err(e),
        }
    }

    proof fn lemma_dec_wire(v: HealAllyCubesV, b: Seq<u8>, pos: int) {
        let w0 = i16::wire(v.healed_machine);
        let w1 = i16::wire(v.shooting_machine);
        let w2 = u8::wire(v.shooting_player_id);
        let w3 = i32::wire(v.item_size);
        let w4 = CompressedVec3::<768>::wire(v.hit_effect_offset);
        let w5 = CompressedVec3::<255>::wire(v.hit_effect_normal);
        let w6 = FloatBits::wire(v.time_stamp);
        let w7 = wire_counted_u16::<HealAllyEntry>(v.hit_cubes);
        assert(Self::wire(v) =~= w0 + (w1 + (w2 + (w3 + (w4 + (w5 + (w6 + (w7))))))));
        let p0 = pos;
        lemma_subrange_split(b, p0, w0, w1 + (w2 + (w3 + (w4 + (w5 + (w6 + (w7)))))));
        i16::lemma_dec_wire(v.healed_machine, b, p0);
        let p1 = p0 + w0.len();
        lemma_subrange_split(b, p1, w1, w2 + (w3 + (w4 + (w5 + (w6 + (w7))))));
        i16::lemma_dec_wire(v.shooting_machine, b, p1);
        let p2 = p1 + w1.len();
        lemma_subrange_split(b, p2, w2, w3 + (w4 + (w5 + (w6 + (w7)))));
        u8::lemma_dec_wire(v.shooting_player_id, b, p2);
        let p3 = p2 + w2.len();
        lemma_subrange_split(b, p3, w3, w4 + (w5 + (w6 + (w7))));
        i32::lemma_dec_wire(v.item_size, b, p3);
        let p4 = p3 + w3.len();
        lemma_subrange_split(b, p4, w4, w5 + (w6 + (w7)));
        CompressedVec3::<768>::lemma_dec_wire(v.hit_effect_offset, b, p4);
        let p5 = p4 + w4.len();
        lemma_subrange_split(b, p5, w5, w6 + (w7));
        CompressedVec3::<255>::lemma_dec_wire(v.hit_effect_normal, b, p5);
        let p6 = p5 + w5.len();
        lemma_subrange_split(b, p6, w6, w7);
        FloatBits::lemma_dec_wire(v.time_stamp, b, p6);
        let p7 = p6 + w6.len();
        lemma_dec_wire_counted_u16::<HealAllyEntry>(v.hit_cubes, b, p7);
        assert((HealAllyCubesV { healed_machine: v.healed_machine, shooting_machine: v.shooting_machine, shooting_player_id: v.shooting_player_id, item_size: v.item_size, hit_effect_offset: v.hit_effect_offset, hit_effect_normal: v.hit_effect_normal, time_stamp: v.time_stamp, hit_cubes: v.hit_cubes }) =~= v);
    }

    fn decode(b: &[u8], pos: usize) -> (r: Result<(HealAllyCubes, usize), DecodeError>) {
        let (healed_machine, at1) = match i16::decode(b, pos) {
            Ok(x) => x,
            Err(e) => return Err(e),
        };
        let (shooting_machine, at2) = match i16::decode(b, at1) {
            Ok(x) => x,
            Err(e) => return Err(e),
        };
        let (shooting_player_id, at3) = match u8::decode(b, at2) {
            Ok(x) => x,
            Err(e) => return Err(e),
        };
        let (item_size, at4) = match i32::decode(b, at3) {
            Ok(x) => x,
            Err(e) => return Err(e),
        };
        let (hit_effect_offset, at5) = match CompressedVec3::<768>::decode(b, at4) {
            Ok(x) => x,
            Err(e) => return Err(e),
        };
        let (hit_effect_normal, at6) = match CompressedVec3::<255>::decode(b, at5) {
            Ok(x) => x,
            Err(e) => return Err(e),
        };
        let (time_stamp, at7) = match FloatBits::decode(b, at6) {
            Ok(x) => x,
            Err(e) => return Err(e),
        };
        let (hit_cubes, at8) = match decode_counted_u16::<HealAllyEntry>(b, at7) {
            Ok(x) => x,
            Err(e) => return Err(e),
        };
        Ok((HealAllyCubes { healed_machine, shooting_machine, shooting_player_id, item_size, hit_effect_offset, hit_effect_normal, time_stamp, hit_cubes }, at8))
    }

    fn encode(&self, out: &mut Vec<u8>) -> (r: Result<(), EncodeError>) {
        match self.healed_machine.encode(out) {
            Ok(()) => (),
            Err(e) => return Err(e),
        };
        match self.shooting_machine.encode(out) {
            Ok(()) => (),
            Err(e) => return Err(e),
        };
        match self.shooting_player_id.encode(out) {
            Ok(()) => (),
            Err(e) => return Err(e),
        };
        match self.item_size.encode(out) {
            Ok(()) => (),
            Err(e) => return Err(e),
        };
        match self.hit_effect_offset.encode(out) {
            Ok(()) => (),
            Err(e) => return Err(e),
        };
        match self.hit_effect_normal.encode(out) {
            Ok(()) => (),
            Err(e) => return Err(e),
        };
        match self.time_stamp.encode(out) {
            Ok(()) => (),
            Err(e) => return Err(e),
        };
        match encode_counted_u16::<HealAllyEntry>(&self.hit_cubes, out) {
            Ok(()) => (),
            Err(e) => return Err(e),
        };
        proof {
            assert(out@ =~= old(out)@ + Self::wire(self.deep_view()));
        }
        Ok(())
    }
}
/// How long a player waits before respawning.
#[derive(Debug, Clone, Copy, PartialEq)]
#[verifier::ext_equal]
pub struct RespawnTime {
    pub owner: u8,
    pub waiting_time: i16,
}

impl DeepView for RespawnTime {
    type V = RespawnTime;

    open spec fn deep_view(&self) -> RespawnTime {
        *self
    }
}

impl Codec for RespawnTime {
    open spec fn enc_ok(v: RespawnTime) -> bool {
        true
    }

    open spec fn wire(v: RespawnTime) -> Seq<u8> {
        u8::wire(v.owner) + i16::wire(v.waiting_time)
    }

    open spec fn dec(b: Seq<u8>, pos: int) -> Result<(RespawnTime, int), DecodeError> {
        match u8::dec(b, pos) {
            Ok((owner, p1)) => {
            match i16::dec(b, p1) {
                Ok((waiting_time, p2)) => {
                Ok((RespawnTime { owner, waiting_time }, p2))
                },
                Err(e) => Err(e),
            }
            },
            Err(e) => Err(e),
        }
    }

    proof fn lemma_dec_wire(v: RespawnTime, b: Seq<u8>, pos: int) {
        let w0 = u8::wire(v.owner);
        let w1 = i16::wire(v.waiting_time);
        assert(Self::wire(v) =~= w0 + (w1));
        let p0 = pos;
        lemma_subrange_split(b, p0, w0, w1);
        u8::lemma_dec_wire(v.owner, b, p0);
        let p1 = p0 + w0.len();
        i16::lemma_dec_wire(v.waiting_time, b, p1);
        assert((RespawnTime { owner: v.owner, waiting_time: v.waiting_time }) =~= v);
    }

    fn decode(b: &[u8], pos: usize) -> (r: Result<(RespawnTime, usize), DecodeError>) {
        let (owner, at1) = match u8::decode(b, pos) {
            Ok(x) => x,
            Err(e) => return Err(e),
        };
        let (waiting_time, at2) = match i16::decode(b, at1) {
            Ok(x) => x,
            Err(e) => return Err(e),
        };
        Ok((RespawnTime { owner, waiting_time }, at2))
    }

    fn encode(&self, out: &mut Vec<u8>) -> (r: Result<(), EncodeError>) {
        match self.owner.encode(out) {
            Ok(()) => (),
            Err(e) => return Err(e),
        };
        match self.waiting_time.encode(out) {
            Ok(()) => (),
            Err(e) => return Err(e),
        };
        proof {
            assert(out@ =~= old(out)@ + Self::wire(self.deep_view()));
        }
        Ok(())
    }
}
/// The game is decided: the winning team and the reason.
#[derive(Debug, Clone, Copy, PartialEq)]
#[verifier::ext_equal]
pub struct GameLoseWin {
    pub winning_team: u8,
    pub end_reason: GameEndReason,
}

impl DeepView for GameLoseWin {
    type V = GameLoseWin;

    open spec fn deep_view(&self) -> GameLoseWin {
        *self
    }
}

impl Codec for GameLoseWin {
    open spec fn enc_ok(v: GameLoseWin) -> bool {
        true
    }

    open spec fn wire(v: GameLoseWin) -> Seq<u8> {
        u8::wire(v.winning_team) + GameEndReason::wire(v.end_reason)
    }

    open spec fn dec(b: Seq<u8>, pos: int) -> Result<(GameLoseWin, int), DecodeError> {
        match u8::dec(b, pos) {
            Ok((winning_team, p1)) => {
            match GameEndReason::dec(b, p1) {
                Ok((end_reason, p2)) => {
                Ok((GameLoseWin { winning_team, end_reason }, p2))
                },
                Err(e) => Err(e),
            }
            },
            Err(e) => Err(e),
        }
    }

    proof fn lemma_dec_wire(v: GameLoseWin, b: Seq<u8>, pos: int) {
        let w0 = u8::wire(v.winning_team);
        let w1 = GameEndReason::wire(v.end_reason);
        assert(Self::wire(v) =~= w0 + (w1));
        let p0 = pos;
        lemma_subrange_split(b, p0, w0, w1);
        u8::lemma_dec_wire(v.winning_team, b, p0);
        let p1 = p0 + w0.len();
        GameEndReason::lemma_dec_wire(v.end_reason, b, p1);
        assert((GameLoseWin { winning_team: v.winning_team, end_reason: v.end_reason }) =~= v);
    }

    fn decode(b: &[u8], pos: usize) -> (r: Result<(GameLoseWin, usize), DecodeError>) {
        let (winning_team, at1) = match u8::decode(b, pos) {
            Ok(x) => x,
            Err(e) => return Err(e),
        };
        let (end_reason, at2) = match GameEndReason::decode(b, at1) {
            Ok(x) => x,
            Err(e) => return Err(e),
        };
        Ok((GameLoseWin { winning_team, end_reason }, at2))
    }

    fn encode(&self, out: &mut Vec<u8>) -> (r: Result<(), EncodeError>) {
        match self.winning_team.encode(out) {
            Ok(()) => (),
            Err(e) => return Err(e),
        };
        match self.end_reason.encode(out) {
            Ok(()) => (),
            Err(e) => return Err(e),
        };
        proof {
            assert(out@ =~= old(out)@ + Self::wire(self.deep_view()));
        }
        Ok(())
    }
}
/// The state of a surrender vote: team size and each cast vote.
#[derive(Debug, Clone, PartialEq)]
#[verifier::ext_equal]
pub struct CurrentSurrenderVotes {
    pub players_on_team: i32,
    pub votes: Vec<u8>,
}

/// Model of a [`CurrentSurrenderVotes`] value: sequences stand for the vectors.
#[verifier::ext_equal]
pub struct CurrentSurrenderVotesV {
    pub players_on_team: i32,
    pub votes: Seq<u8>,
}

impl DeepView for CurrentSurrenderVotes {
    type V = CurrentSurrenderVotesV;

    open spec fn deep_view(&self) -> CurrentSurrenderVotesV {
        CurrentSurrenderVotesV {
            players_on_team: self.players_on_team,
            votes: self.votes.deep_view(),
        }
    }
}

impl Codec for CurrentSurrenderVotes {
    open spec fn enc_ok(v: CurrentSurrenderVotesV) -> bool {
        counted_ok_i32::<u8>(v.votes)
    }

    open spec fn wire(v: CurrentSurrenderVotesV) -> Seq<u8> {
        i32::wire(v.players_on_team) + wire_counted_i32::<u8>(v.votes)
    }

    open spec fn dec(b: Seq<u8>, pos: int) -> Result<(CurrentSurrenderVotesV, int), DecodeError> {
        match i32::dec(b, pos) {
            Ok((players_on_team, p1)) => {
            match dec_counted_i32::<u8>(b, p1) {
                Ok((votes, p2)) => {
                Ok((CurrentSurrenderVotesV { players_on_team, votes }, p2))
                },
                Err(e) => Err(e),
            }
            },
            Err(e) => Err(e),
        }
    }

    proof fn lemma_dec_wire(v: CurrentSurrenderVotesV, b: Seq<u8>, pos: int) {
        let w0 = i32::wire(v.players_on_team);
        let w1 = wire_counted_i32::<u8>(v.votes);
        assert(Self::wire(v) =~= w0 + (w1));
        let p0 = pos;
        lemma_subrange_split(b, p0, w0, w1);
        i32::lemma_dec_wire(v.players_on_team, b, p0);
        let p1 = p0 + w0.len();
        lemma_dec_wire_counted_i32::<u8>(v.votes, b, p1);
        assert((CurrentSurrenderVotesV { players_on_team: v.players_on_team, votes: v.votes }) =~= v);
    }

    fn decode(b: &[u8], pos: usize) -> (r: Result<(CurrentSurrenderVotes, usize), DecodeError>) {
        let (players_on_team, at1) = match i32::decode(b, pos) {
            Ok(x) => x,
            Err(e) => return Err(e),
        };
        let (votes, at2) = match decode_counted_i32::<u8>(b, at1) {
            Ok(x) => x,
            Err(e) => return Err(e),
        };
        Ok((CurrentSurrenderVotes { players_on_team, votes }, at2))
    }

    fn encode(&self, out: &mut Vec<u8>) -> (r: Result<(), EncodeError>) {
        match self.players_on_team.encode(out) {
            Ok(()) => (),
            Err(e) => return Err(e),
        };
        match encode_counted_i32::<u8>(&self.votes, out) {
            Ok(()) => (),
            Err(e) => return Err(e),
        };
        proof {
            assert(out@ =~= old(out)@ + Self::wire(self.deep_view()));
        }
        Ok(())
    }
}
/// A surrender request was declined.
#[derive(Debug, Clone, Copy, PartialEq)]
#[verifier::ext_equal]
pub struct SurrenderDeclined {
    pub surrendering_player_id: i32,
    pub game_time_elapsed: FloatBits,
}

impl DeepView for SurrenderDeclined {
    type V = SurrenderDeclined;

    open spec fn deep_view(&self) -> SurrenderDeclined {
        *self
    }
}

impl Codec for SurrenderDeclined {
    open spec fn enc_ok(v: SurrenderDeclined) -> bool {
        true
    }

    open spec fn wire(v: SurrenderDeclined) -> Seq<u8> {
        i32::wire(v.surrendering_player_id) + FloatBits::wire(v.game_time_elapsed)
    }

    open spec fn dec(b: Seq<u8>, pos: int) -> Result<(SurrenderDeclined, int), DecodeError> {
        match i32::dec(b, pos) {
            Ok((surrendering_player_id, p1)) => {
            match FloatBits::dec(b, p1) {
                Ok((game_time_elapsed, p2)) => {
                Ok((SurrenderDeclined { surrendering_player_id, game_time_elapsed }, p2))
                },
                Err(e) => Err(e),
            }
            },
            Err(e) => Err(e),
        }
    }

    proof fn lemma_dec_wire(v: SurrenderDeclined, b: Seq<u8>, pos: int) {
        let w0 = i32::wire(v.surrendering_player_id);
        let w1 = FloatBits::wire(v.game_time_elapsed);
        assert(Self::wire(v) =~= w0 + (w1));
        let p0 = pos;
        lemma_subrange_split(b, p0, w0, w1);
        i32::lemma_dec_wire(v.surrendering_player_id, b, p0);
        let p1 = p0 + w0.len();
        FloatBits::lemma_dec_wire(v.game_time_elapsed, b, p1);
        assert((SurrenderDeclined { surrendering_player_id: v.surrendering_player_id, game_time_elapsed: v.game_time_elapsed }) =~= v);
    }

    fn decode(b: &[u8], pos: usize) -> (r: Result<(SurrenderDeclined, usize), DecodeError>) {
        let (surrendering_player_id, at1) = match i32::decode(b, pos) {
            Ok(x) => x,
            Err(e) => return Err(e),
        };
        let (game_time_elapsed, at2) = match FloatBits::decode(b, at1) {
            Ok(x) => x,
            Err(e) => return Err(e),
        };
        Ok((SurrenderDeclined { surrendering_player_id, game_time_elapsed }, at2))
    }

    fn encode(&self, out: &mut Vec<u8>) -> (r: Result<(), EncodeError>) {
        match self.surrendering_player_id.encode(out) {
            Ok(()) => (),
            Err(e) => return Err(e),
        };
        match self.game_time_elapsed.encode(out) {
            Ok(()) => (),
            Err(e) => return Err(e),
        };
        proof {
            assert(out@ =~= old(out)@ + Self::wire(self.deep_view()));
        }
        Ok(())
    }
}
/// The cooldowns and timeouts that govern surrender votes.
#[derive(Debug, Clone, Copy, PartialEq)]
#[verifier::ext_equal]
pub struct SurrenderTimes {
    pub player_cooldown_seconds: i32,
    pub team_cooldown_seconds: i32,
    pub surrender_timeout_seconds: i32,
    pub initial_surrender_timeout_seconds: i32,
}

impl DeepView for SurrenderTimes {
    type V = SurrenderTimes;

    open spec fn deep_view(&self) -> SurrenderTimes {
        *self
    }
}

impl Codec for SurrenderTimes {
    open spec fn enc_ok(v: SurrenderTimes) -> bool {
        true
    }

    open spec fn wire(v: SurrenderTimes) -> Seq<u8> {
        i32::wire(v.player_cooldown_seconds) + i32::wire(v.team_cooldown_seconds) + i32::wire(v.surrender_timeout_seconds) + i32::wire(v.initial_surrender_timeout_seconds)
    }

    open spec fn dec(b: Seq<u8>, pos: int) -> Result<(SurrenderTimes, int), DecodeError> {
        match i32::dec(b, pos) {
            Ok((player_cooldown_seconds, p1)) => {
            match i32::dec(b, p1) {
                Ok((team_cooldown_seconds, p2)) => {
                match i32::dec(b, p2) {
                    Ok((surrender_timeout_seconds, p3)) => {
                    match i32::dec(b, p3) {
                        Ok((initial_surrender_timeout_seconds, p4)) => {
                        Ok((SurrenderTimes { player_cooldown_seconds, team_cooldown_seconds, surrender_timeout_seconds, initial_surrender_timeout_seconds }, p4))
                        },
                        Err(e) => Err(e),
                    }
                    },
                    Err(e) => Err(e),
                }
                },
                Err(e) => Err(e),
            }
            },
            Err(e) => Err(e),
        }
    }

    proof fn lemma_dec_wire(v: SurrenderTimes, b: Seq<u8>, pos: int) {
        let w0 = i32::wire(v.player_cooldown_seconds);
        let w1 = i32::wire(v.team_cooldown_seconds);
        let w2 = i32::wire(v.surrender_timeout_seconds);
        let w3 = i32::wire(v.initial_surrender_timeout_seconds);
        assert(Self::wire(v) =~= w0 + (w1 + (w2 + (w3))));
        let p0 = pos;
        lemma_subrange_split(b, p0, w0, w1 + (w2 + (w3)));
        i32::lemma_dec_wire(v.player_cooldown_seconds, b, p0);
        let p1 = p0 + w0.len();
        lemma_subrange_split(b, p1, w1, w2 + (w3));
        i32::lemma_dec_wire(v.team_cooldown_seconds, b, p1);
        let p2 = p1 + w1.len();
        lemma_subrange_split(b, p2, w2, w3);
        i32::lemma_dec_wire(v.surrender_timeout_seconds, b, p2);
        let p3 = p2 + w2.len();
        i32::lemma_dec_wire(v.initial_surrender_timeout_seconds, b, p3);
        assert((SurrenderTimes { player_cooldown_seconds: v.player_cooldown_seconds, team_cooldown_seconds: v.team_cooldown_seconds, surrender_timeout_seconds: v.surrender_timeout_seconds, initial_surrender_timeout_seconds: v.initial_surrender_timeout_seconds }) =~= v);
    }

    fn decode(b: &[u8], pos: usize) -> (r: Result<(SurrenderTimes, usize), DecodeError>) {
        let (player_cooldown_seconds, at1) = match i32::decode(b, pos) {
            Ok(x) => x,
            Err(e) => return Err(e),
        };
        let (team_cooldown_seconds, at2) = match i32::decode(b, at1) {
            Ok(x) => x,
            Err(e) => return Err(e),
        };
        let (surrender_timeout_seconds, at3) = match i32::decode(b, at2) {
            Ok(x) => x,
            Err(e) => return Err(e),
        };
        let (initial_surrender_timeout_seconds, at4) = match i32::decode(b, at3) {
            Ok(x) => x,
            Err(e) => return Err(e),
        };
        Ok((SurrenderTimes { player_cooldown_seconds, team_cooldown_seconds, surrender_timeout_seconds, initial_surrender_timeout_seconds }, at4))
    }

    fn encode(&self, out: &mut Vec<u8>) -> (r: Result<(), EncodeError>) {
        match self.player_cooldown_seconds.encode(out) {
            Ok(()) => (),
            Err(e) => return Err(e),
        };
        match self.team_cooldown_seconds.encode(out) {
            Ok(()) => (),
            Err(e) => return Err(e),
        };
        match self.surrender_timeout_seconds.encode(out) {
            Ok(()) => (),
            Err(e) => return Err(e),
        };
        match self.initial_surrender_timeout_seconds.encode(out) {
            Ok(()) => (),
            Err(e) => return Err(e),
        };
        proof {
            assert(out@ =~= old(out)@ + Self::wire(self.deep_view()));
        }
        Ok(())
    }
}
/// A yes/no fact about one team's base.
#[derive(Debug, Clone, Copy, PartialEq)]
#[verifier::ext_equal]
pub struct TeamBaseBoolean {
    pub team: u8,
    pub value: u8,
}

impl DeepView for TeamBaseBoolean {
    type V = TeamBaseBoolean;

    open spec fn deep_view(&self) -> TeamBaseBoolean {
        *self
    }
}

impl Codec for TeamBaseBoolean {
    open spec fn enc_ok(v: TeamBaseBoolean) -> bool {
        true
    }

    open spec fn wire(v: TeamBaseBoolean) -> Seq<u8> {
        u8::wire(v.team) + u8::wire(v.value)
    }

    open spec fn dec(b: Seq<u8>, pos: int) -> Result<(TeamBaseBoolean, int), DecodeError> {
        match u8::dec(b, pos) {
            Ok((team, p1)) => {
            match u8::dec(b, p1) {
                Ok((value, p2)) => {
                Ok((TeamBaseBoolean { team, value }, p2))
                },
                Err(e) => Err(e),
            }
            },
            Err(e) => Err(e),
        }
    }

    proof fn lemma_dec_wire(v: TeamBaseBoolean, b: Seq<u8>, pos: int) {
        let w0 = u8::wire(v.team);
        let w1 = u8::wire(v.value);
        assert(Self::wire(v) =~= w0 + (w1));
        let p0 = pos;
        lemma_subrange_split(b, p0, w0, w1);
        u8::lemma_dec_wire(v.team, b, p0);
        let p1 = p0 + w0.len();
        u8::lemma_dec_wire(v.value, b, p1);
        assert((TeamBaseBoolean { team: v.team, value: v.value }) =~= v);
    }

    fn decode(b: &[u8], pos: usize) -> (r: Result<(TeamBaseBoolean, usize), DecodeError>) {
        let (team, at1) = match u8::decode(b, pos) {
            Ok(x) => x,
            Err(e) => return Err(e),
        };
        let (value, at2) = match u8::decode(b, at1) {
            Ok(x) => x,
            Err(e) => return Err(e),
        };
        Ok((TeamBaseBoolean { team, value }, at2))
    }

    fn encode(&self, out: &mut Vec<u8>) -> (r: Result<(), EncodeError>) {
        match self.team.encode(out) {
            Ok(()) => (),
            Err(e) => return Err(e),
        };
        match self.value.encode(out) {
            Ok(()) => (),
            Err(e) => return Err(e),
        };
        proof {
            assert(out@ =~= old(out)@ + Self::wire(self.deep_view()));
        }
        Ok(())
    }
}
/// Capture progress at a base or mining point.
#[derive(Debug, Clone, Copy, PartialEq)]
#[verifier::ext_equal]
pub struct TeamBaseState {
    pub base_team_or_mining_point_index: u8,
    pub current_progress: ByteFloat<4>,
    pub max_progress: ByteFloat<4>,
}

impl DeepView for TeamBaseState {
    type V = TeamBaseState;

    open spec fn deep_view(&self) -> TeamBaseState {
        *self
    }
}

impl Codec for TeamBaseState {
    open spec fn enc_ok(v: TeamBaseState) -> bool {
        true
    }

    open spec fn wire(v: TeamBaseState) -> Seq<u8> {
        u8::wire(v.base_team_or_mining_point_index) + ByteFloat::<4>::wire(v.current_progress) + ByteFloat::<4>::wire(v.max_progress)
    }

    open spec fn dec(b: Seq<u8>, pos: int) -> Result<(TeamBaseState, int), DecodeError> {
        match u8::dec(b, pos) {
            Ok((base_team_or_mining_point_index, p1)) => {
            match ByteFloat::<4>::dec(b, p1) {
                Ok((current_progress, p2)) => {
                match ByteFloat::<4>::dec(b, p2) {
                    Ok((max_progress, p3)) => {
                    Ok((TeamBaseState { base_team_or_mining_point_index, current_progress, max_progress }, p3))
                    },
                    Err(e) => Err(e),
                }
                },
                Err(e) => Err(e),
            }
            },
            Err(e) => Err(e),
        }
    }

    proof fn lemma_dec_wire(v: TeamBaseState, b: Seq<u8>, pos: int) {
        let w0 = u8::wire(v.base_team_or_mining_point_index);
        let w1 = ByteFloat::<4>::wire(v.current_progress);
        let w2 = ByteFloat::<4>::wire(v.max_progress);
        assert(Self::wire(v) =~= w0 + (w1 + (w2)));
        let p0 = pos;
        lemma_subrange_split(b, p0, w0, w1 + (w2));
        u8::lemma_dec_wire(v.base_team_or_mining_point_index, b, p0);
        let p1 = p0 + w0.len();
        lemma_subrange_split(b, p1, w1, w2);
        ByteFloat::<4>::lemma_dec_wire(v.current_progress, b, p1);
        let p2 = p1 + w1.len();
        ByteFloat::<4>::lemma_dec_wire(v.max_progress, b, p2);
        assert((TeamBaseState { base_team_or_mining_point_index: v.base_team_or_mining_point_index, current_progress: v.current_progress, max_progress: v.max_progress }) =~= v);
    }

    fn decode(b: &[u8], pos: usize) -> (r: Result<(TeamBaseState, usize), DecodeError>) {
        let (base_team_or_mining_point_index, at1) = match u8::decode(b, pos) {
            Ok(x) => x,
            Err(e) => return Err(e),
        };
        let (current_progress, at2) = match ByteFloat::<4>::decode(b, at1) {
            Ok(x) => x,
            Err(e) => return Err(e),
        };
        let (max_progress, at3) = match ByteFloat::<4>::decode(b, at2) {
            Ok(x) => x,
            Err(e) => return Err(e),
        };
        Ok((TeamBaseState { base_team_or_mining_point_index, current_progress, max_progress }, at3))
    }

    fn encode(&self, out: &mut Vec<u8>) -> (r: Result<(), EncodeError>) {
        match self.base_team_or_mining_point_index.encode(out) {
            Ok(()) => (),
            Err(e) => return Err(e),
        };
        match self.current_progress.encode(out) {
            Ok(()) => (),
            Err(e) => return Err(e),
        };
        match self.max_progress.encode(out) {
            Ok(()) => (),
            Err(e) => return Err(e),
        };
        proof {
            assert(out@ =~= old(out)@ + Self::wire(self.deep_view()));
        }
        Ok(())
    }
}

/// Round trip on the bit-packed input flags: the raw word survives
/// encode-then-decode exactly, unnamed bits included.
pub proof fn lemma_packed_input_round_trip(v: PackedInputData)
    ensures
        PackedInputData::dec(PackedInputData::wire(v), 0) == Ok::<
            (PackedInputData, int),
            DecodeError,
        >((v, PackedInputData::wire(v).len() as int)),
{
    crate::wire::lemma_round_trip::<PackedInputData>(v);
}


} // verus!
