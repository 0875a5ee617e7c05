//! Loading-handshake payloads: rosters and load progress.

use vstd::prelude::*;

use crate::error::{DecodeError, EncodeError};
use crate::types::{BinaryWriterString, FloatBits};
use crate::wire::{Codec, counted_ok_i32, counted_ok_u8, dec_counted_i32, dec_counted_u8, decode_counted_i32, decode_counted_u8, encode_counted_i32, encode_counted_u8, lemma_dec_wire_counted_i32, lemma_dec_wire_counted_u8, lemma_subrange_split, wire_counted_i32, wire_counted_u8};

verus! {

/// One player's id with account and display names.
#[derive(Debug, Clone, PartialEq)]
#[verifier::ext_equal]
pub struct PlayerIDAndName {
    pub player_id: i32,
    pub name: BinaryWriterString,
    pub display_name: BinaryWriterString,
}

/// Model of a [`PlayerIDAndName`] value: sequences stand for the vectors.
#[verifier::ext_equal]
pub struct PlayerIDAndNameV {
    pub player_id: i32,
    pub name: Seq<u16>,
    pub display_name: Seq<u16>,
}

impl DeepView for PlayerIDAndName {
    type V = PlayerIDAndNameV;

    open spec fn deep_view(&self) -> PlayerIDAndNameV {
        PlayerIDAndNameV {
            player_id: self.player_id,
            name: self.name.deep_view(),
            display_name: self.display_name.deep_view(),
        }
    }
}

impl Codec for PlayerIDAndName {
    open spec fn enc_ok(v: PlayerIDAndNameV) -> bool {
        BinaryWriterString::enc_ok(v.name) && BinaryWriterString::enc_ok(v.display_name)
    }

    open spec fn wire(v: PlayerIDAndNameV) -> Seq<u8> {
        i32::wire(v.player_id) + BinaryWriterString::wire(v.name) + BinaryWriterString::wire(v.display_name)
    }

    open spec fn dec(b: Seq<u8>, pos: int) -> Result<(PlayerIDAndNameV, int), DecodeError> {
        match i32::dec(b, pos) {
            Ok((player_id, p1)) => {
            match BinaryWriterString::dec(b, p1) {
                Ok((name, p2)) => {
                match BinaryWriterString::dec(b, p2) {
                    Ok((display_name, p3)) => {
                    Ok((PlayerIDAndNameV { player_id, name, display_name }, p3))
                    },
                    Err(e) => Err(e),
                }
                },
                Err(e) => Err(e),
            }
            },
            Err(e) => Err(e),
        }
    }

    proof fn lemma_dec_wire(v: PlayerIDAndNameV, b: Seq<u8>, pos: int) {
        let w0 = i32::wire(v.player_id);
        let w1 = BinaryWriterString::wire(v.name);
        let w2 = BinaryWriterString::wire(v.display_name);
        assert(Self::wire(v) =~= w0 + (w1 + (w2)));
        let p0 = pos;
        lemma_subrange_split(b, p0, w0, w1 + (w2));
        i32::lemma_dec_wire(v.player_id, b, p0);
        let p1 = p0 + w0.len();
        lemma_subrange_split(b, p1, w1, w2);
        BinaryWriterString::lemma_dec_wire(v.name, b, p1);
        let p2 = p1 + w1.len();
        BinaryWriterString::lemma_dec_wire(v.display_name, b, p2);
        assert((PlayerIDAndNameV { player_id: v.player_id, name: v.name, display_name: v.display_name }) =~= v);
    }

    fn decode(b: &[u8], pos: usize) -> (r: Result<(PlayerIDAndName, usize), DecodeError>) {
        let (player_id, at1) = match i32::decode(b, pos) {
            Ok(x) => x,
            Err(e) => return Err(e),
        };
        let (name, at2) = match BinaryWriterString::decode(b, at1) {
            Ok(x) => x,
            Err(e) => return Err(e),
        };
        let (display_name, at3) = match BinaryWriterString::decode(b, at2) {
            Ok(x) => x,
            Err(e) => return Err(e),
        };
        Ok((PlayerIDAndName { player_id, name, display_name }, at3))
    }

    fn encode(&self, out: &mut Vec<u8>) -> (r: Result<(), EncodeError>) {
        match self.player_id.encode(out) {
            Ok(()) => (),
            Err(e) => return Err(e),
        };
        match self.name.encode(out) {
            Ok(()) => (),
            Err(e) => return Err(e),
        };
        match self.display_name.encode(out) {
            Ok(()) => (),
            Err(e) => return Err(e),
        };
        proof {
            assert(out@ =~= old(out)@ + Self::wire(self.deep_view()));
        }
        Ok(())
    }
}
/// The roster: every player's id and names, count-prefixed.
#[derive(Debug, Clone, PartialEq)]
#[verifier::ext_equal]
pub struct PlayerIDsAndNames {
    pub players: Vec<PlayerIDAndName>,
}

/// Model of a [`PlayerIDsAndNames`] value: sequences stand for the vectors.
#[verifier::ext_equal]
pub struct PlayerIDsAndNamesV {
    pub players: Seq<PlayerIDAndNameV>,
}

impl DeepView for PlayerIDsAndNames {
    type V = PlayerIDsAndNamesV;

    open spec fn deep_view(&self) -> PlayerIDsAndNamesV {
        PlayerIDsAndNamesV {
            players: self.players.deep_view(),
        }
    }
}

impl Codec for PlayerIDsAndNames {
    open spec fn enc_ok(v: PlayerIDsAndNamesV) -> bool {
        counted_ok_u8::<PlayerIDAndName>(v.players)
    }

    open spec fn wire(v: PlayerIDsAndNamesV) -> Seq<u8> {
        wire_counted_u8::<PlayerIDAndName>(v.players)
    }

    open spec fn dec(b: Seq<u8>, pos: int) -> Result<(PlayerIDsAndNamesV, int), DecodeError> {
        match dec_counted_u8::<PlayerIDAndName>(b, pos) {
            Ok((players, p1)) => {
            Ok((PlayerIDsAndNamesV { players }, p1))
            },
            Err(e) => Err(e),
        }
    }

    proof fn lemma_dec_wire(v: PlayerIDsAndNamesV, b: Seq<u8>, pos: int) {
        let w0 = wire_counted_u8::<PlayerIDAndName>(v.players);
        let p0 = pos;
        lemma_dec_wire_counted_u8::<PlayerIDAndName>(v.players, b, p0);
        assert((PlayerIDsAndNamesV { players: v.players }) =~= v);
    }

    fn decode(b: &[u8], pos: usize) -> (r: Result<(PlayerIDsAndNames, usize), DecodeError>) {
        let (players, at1) = match decode_counted_u8::<PlayerIDAndName>(b, pos) {
            Ok(x) => x,
            Err(e) => return Err(e),
        };
        Ok((PlayerIDsAndNames { players }, at1))
    }

    fn encode(&self, out: &mut Vec<u8>) -> (r: Result<(), EncodeError>) {
        match encode_counted_u8::<PlayerIDAndName>(&self.players, out) {
            Ok(()) => (),
            Err(e) => return Err(e),
        };
        proof {
            assert(out@ =~= old(out)@ + Self::wire(self.deep_view()));
        }
        Ok(())
    }
}
/// A plain list of player ids, count-prefixed.
#[derive(Debug, Clone, PartialEq)]
#[verifier::ext_equal]
pub struct PlayerIDs {
    pub players: Vec<i32>,
}

/// Model of a [`PlayerIDs`] value: sequences stand for the vectors.
#[verifier::ext_equal]
pub struct PlayerIDsV {
    pub players: Seq<i32>,
}

impl DeepView for PlayerIDs {
    type V = PlayerIDsV;

    open spec fn deep_view(&self) -> PlayerIDsV {
        PlayerIDsV {
            players: self.players.deep_view(),
        }
    }
}

impl Codec for PlayerIDs {
    open spec fn enc_ok(v: PlayerIDsV) -> bool {
        counted_ok_i32::<i32>(v.players)
    }

    open spec fn wire(v: PlayerIDsV) -> Seq<u8> {
        wire_counted_i32::<i32>(v.players)
    }

    open spec fn dec(b: Seq<u8>, pos: int) -> Result<(PlayerIDsV, int), DecodeError> {
        match dec_counted_i32::<i32>(b, pos) {
            Ok((players, p1)) => {
            Ok((PlayerIDsV { players }, p1))
            },
            Err(e) => Err(e),
        }
    }

    proof fn lemma_dec_wire(v: PlayerIDsV, b: Seq<u8>, pos: int) {
        let w0 = wire_counted_i32::<i32>(v.players);
        let p0 = pos;
        lemma_dec_wire_counted_i32::<i32>(v.players, b, p0);
        assert((PlayerIDsV { players: v.players }) =~= v);
    }

    fn decode(b: &[u8], pos: usize) -> (r: Result<(PlayerIDs, usize), DecodeError>) {
        let (players, at1) = match decode_counted_i32::<i32>(b, pos) {
            Ok(x) => x,
            Err(e) => return Err(e),
        };
        Ok((PlayerIDs { players }, at1))
    }

    fn encode(&self, out: &mut Vec<u8>) -> (r: Result<(), EncodeError>) {
        match encode_counted_i32::<i32>(&self.players, out) {
            Ok(()) => (),
            Err(e) => return Err(e),
        };
        proof {
            assert(out@ =~= old(out)@ + Self::wire(self.deep_view()));
        }
        Ok(())
    }
}
/// One player's loading progress.
#[derive(Debug, Clone, PartialEq)]
#[verifier::ext_equal]
pub struct LoadingProgress {
    pub user_name: BinaryWriterString,
    pub progress: FloatBits,
}

/// Model of a [`LoadingProgress`] value: sequences stand for the vectors.
#[verifier::ext_equal]
pub struct LoadingProgressV {
    pub user_name: Seq<u16>,
    pub progress: FloatBits,
}

impl DeepView for LoadingProgress {
    type V = LoadingProgressV;

    open spec fn deep_view(&self) -> LoadingProgressV {
        LoadingProgressV {
            user_name: self.user_name.deep_view(),
            progress: self.progress,
        }
    }
}

impl Codec for LoadingProgress {
    open spec fn enc_ok(v: LoadingProgressV) -> bool {
        BinaryWriterString::enc_ok(v.user_name)
    }

    open spec fn wire(v: LoadingProgressV) -> Seq<u8> {
        BinaryWriterString::wire(v.user_name) + FloatBits::wire(v.progress)
    }

    open spec fn dec(b: Seq<u8>, pos: int) -> Result<(LoadingProgressV, int), DecodeError> {
        match BinaryWriterString::dec(b, pos) {
            Ok((user_name, p1)) => {
            match FloatBits::dec(b, p1) {
                Ok((progress, p2)) => {
                Ok((LoadingProgressV { user_name, progress }, p2))
                },
                Err(e) => Err(e),
            }
            },
            Err(e) => Err(e),
        }
    }

    proof fn lemma_dec_wire(v: LoadingProgressV, b: Seq<u8>, pos: int) {
        let w0 = BinaryWriterString::wire(v.user_name);
        let w1 = FloatBits::wire(v.progress);
        assert(Self::wire(v) =~= w0 + (w1));
        let p0 = pos;
        lemma_subrange_split(b, p0, w0, w1);
        BinaryWriterString::lemma_dec_wire(v.user_name, b, p0);
        let p1 = p0 + w0.len();
        FloatBits::lemma_dec_wire(v.progress, b, p1);
        assert((LoadingProgressV { user_name: v.user_name, progress: v.progress }) =~= v);
    }

    fn decode(b: &[u8], pos: usize) -> (r: Result<(LoadingProgress, usize), DecodeError>) {
        let (user_name, at1) = match BinaryWriterString::decode(b, pos) {
            Ok(x) => x,
            Err(e) => return Err(e),
        };
        let (progress, at2) = match FloatBits::decode(b, at1) {
            Ok(x) => x,
            Err(e) => return Err(e),
        };
        Ok((LoadingProgress { user_name, progress }, at2))
    }

    fn encode(&self, out: &mut Vec<u8>) -> (r: Result<(), EncodeError>) {
        match self.user_name.encode(out) {
            Ok(()) => (),
            Err(e) => return Err(e),
        };
        match self.progress.encode(out) {
            Ok(()) => (),
            Err(e) => return Err(e),
        };
        proof {
            assert(out@ =~= old(out)@ + Self::wire(self.deep_view()));
        }
        Ok(())
    }
}

} // verus!
