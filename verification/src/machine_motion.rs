//! Physics-state payloads: machine motion samples.

use vstd::prelude::*;

use crate::error::{DecodeError, EncodeError};
use crate::types::{CompressedVec3, DoubleBits, FloatBits, PosQuatPair};
use crate::wire::{Codec, lemma_subrange_split};

verus! {

/// A rigid body's pose and motion, quantized.
#[derive(Debug, Clone, Copy, PartialEq)]
#[verifier::ext_equal]
pub struct RigidBodyState {
    pub rb_pos_rot: PosQuatPair,
    pub angular_velocity: CompressedVec3<768>,
    pub center_of_mass: CompressedVec3<32>,
}

impl DeepView for RigidBodyState {
    type V = RigidBodyState;

    open spec fn deep_view(&self) -> RigidBodyState {
        *self
    }
}

impl Codec for RigidBodyState {
    open spec fn enc_ok(v: RigidBodyState) -> bool {
        true
    }

    open spec fn wire(v: RigidBodyState) -> Seq<u8> {
        PosQuatPair::wire(v.rb_pos_rot) + CompressedVec3::<768>::wire(v.angular_velocity) + CompressedVec3::<32>::wire(v.center_of_mass)
    }

    open spec fn dec(b: Seq<u8>, pos: int) -> Result<(RigidBodyState, int), DecodeError> {
        match PosQuatPair::dec(b, pos) {
            Ok((rb_pos_rot, p1)) => {
            match CompressedVec3::<768>::dec(b, p1) {
                Ok((angular_velocity, p2)) => {
                match CompressedVec3::<32>::dec(b, p2) {
                    Ok((center_of_mass, p3)) => {
                    Ok((RigidBodyState { rb_pos_rot, angular_velocity, center_of_mass }, p3))
                    },
                    Err(e) => Err(e),
                }
                },
                Err(e) => Err(e),
            }
            },
            Err(e) => Err(e),
        }
    }

    proof fn lemma_dec_wire(v: RigidBodyState, b: Seq<u8>, pos: int) {
        let w0 = PosQuatPair::wire(v.rb_pos_rot);
        let w1 = CompressedVec3::<768>::wire(v.angular_velocity);
        let w2 = CompressedVec3::<32>::wire(v.center_of_mass);
        assert(Self::wire(v) =~= w0 + (w1 + (w2)));
        let p0 = pos;
        lemma_subrange_split(b, p0, w0, w1 + (w2));
        PosQuatPair::lemma_dec_wire(v.rb_pos_rot, b, p0);
        let p1 = p0 + w0.len();
        lemma_subrange_split(b, p1, w1, w2);
        CompressedVec3::<768>::lemma_dec_wire(v.angular_velocity, b, p1);
        let p2 = p1 + w1.len();
        CompressedVec3::<32>::lemma_dec_wire(v.center_of_mass, b, p2);
        assert((RigidBodyState { rb_pos_rot: v.rb_pos_rot, angular_velocity: v.angular_velocity, center_of_mass: v.center_of_mass }) =~= v);
    }

    fn decode(b: &[u8], pos: usize) -> (r: Result<(RigidBodyState, usize), DecodeError>) {
        let (rb_pos_rot, at1) = match PosQuatPair::decode(b, pos) {
            Ok(x) => x,
            Err(e) => return Err(e),
        };
        let (angular_velocity, at2) = match CompressedVec3::<768>::decode(b, at1) {
            Ok(x) => x,
            Err(e) => return Err(e),
        };
        let (center_of_mass, at3) = match CompressedVec3::<32>::decode(b, at2) {
            Ok(x) => x,
            Err(e) => return Err(e),
        };
        Ok((RigidBodyState { rb_pos_rot, angular_velocity, center_of_mass }, at3))
    }

    fn encode(&self, out: &mut Vec<u8>) -> (r: Result<(), EncodeError>) {
        match self.rb_pos_rot.encode(out) {
            Ok(()) => (),
            Err(e) => return Err(e),
        };
        match self.angular_velocity.encode(out) {
            Ok(()) => (),
            Err(e) => return Err(e),
        };
        match self.center_of_mass.encode(out) {
            Ok(()) => (),
            Err(e) => return Err(e),
        };
        proof {
            assert(out@ =~= old(out)@ + Self::wire(self.deep_view()));
        }
        Ok(())
    }
}
/// One machine's motion sample.
#[derive(Debug, Clone, Copy, PartialEq)]
#[verifier::ext_equal]
pub struct MachineMotion {
    pub last_sent_seconds_a: FloatBits,
    pub last_sent_seconds_b: DoubleBits,
    pub timestamp: FloatBits,
    pub player_id: u8,
    pub target_point: CompressedVec3<768>,
    pub rb_state: RigidBodyState,
}

impl DeepView for MachineMotion {
    type V = MachineMotion;

    open spec fn deep_view(&self) -> MachineMotion {
        *self
    }
}

impl Codec for MachineMotion {
    open spec fn enc_ok(v: MachineMotion) -> bool {
        true
    }

    open spec fn wire(v: MachineMotion) -> Seq<u8> {
        FloatBits::wire(v.last_sent_seconds_a) + DoubleBits::wire(v.last_sent_seconds_b) + FloatBits::wire(v.timestamp) + u8::wire(v.player_id) + CompressedVec3::<768>::wire(v.target_point) + RigidBodyState::wire(v.rb_state)
    }

    open spec fn dec(b: Seq<u8>, pos: int) -> Result<(MachineMotion, int), DecodeError> {
        match FloatBits::dec(b, pos) {
            Ok((last_sent_seconds_a, p1)) => {
            match DoubleBits::dec(b, p1) {
                Ok((last_sent_seconds_b, p2)) => {
                match FloatBits::dec(b, p2) {
                    Ok((timestamp, p3)) => {
                    match u8::dec(b, p3) {
                        Ok((player_id, p4)) => {
                        match CompressedVec3::<768>::dec(b, p4) {
                            Ok((target_point, p5)) => {
                            match RigidBodyState::dec(b, p5) {
                                Ok((rb_state, p6)) => {
                                Ok((MachineMotion { last_sent_seconds_a, last_sent_seconds_b, timestamp, player_id, target_point, rb_state }, p6))
                                },
                                Err(e) => Err(e),
                            }
                            },
                            Err(e) => Err(e),
                        }
                        },
                        Err(e) => Err(e),
                    }
                    },
                    Err(e) => Err(e),
                }
                },
                Err(e) => Err(e),
            }
            },
            Err(e) => Err(e),
        }
    }

    proof fn lemma_dec_wire(v: MachineMotion, b: Seq<u8>, pos: int) {
        let w0 = FloatBits::wire(v.last_sent_seconds_a);
        let w1 = DoubleBits::wire(v.last_sent_seconds_b);
        let w2 = FloatBits::wire(v.timestamp);
        let w3 = u8::wire(v.player_id);
        let w4 = CompressedVec3::<768>::wire(v.target_point);
        let w5 = RigidBodyState::wire(v.rb_state);
        assert(Self::wire(v) =~= w0 + (w1 + (w2 + (w3 + (w4 + (w5))))));
        let p0 = pos;
        lemma_subrange_split(b, p0, w0, w1 + (w2 + (w3 + (w4 + (w5)))));
        FloatBits::lemma_dec_wire(v.last_sent_seconds_a, b, p0);
        let p1 = p0 + w0.len();
        lemma_subrange_split(b, p1, w1, w2 + (w3 + (w4 + (w5))));
        DoubleBits::lemma_dec_wire(v.last_sent_seconds_b, b, p1);
        let p2 = p1 + w1.len();
        lemma_subrange_split(b, p2, w2, w3 + (w4 + (w5)));
        FloatBits::lemma_dec_wire(v.timestamp, b, p2);
        let p3 = p2 + w2.len();
        lemma_subrange_split(b, p3, w3, w4 + (w5));
        u8::lemma_dec_wire(v.player_id, b, p3);
        let p4 = p3 + w3.len();
        lemma_subrange_split(b, p4, w4, w5);
        CompressedVec3::<768>::lemma_dec_wire(v.target_point, b, p4);
        let p5 = p4 + w4.len();
        RigidBodyState::lemma_dec_wire(v.rb_state, b, p5);
        assert((MachineMotion { last_sent_seconds_a: v.last_sent_seconds_a, last_sent_seconds_b: v.last_sent_seconds_b, timestamp: v.timestamp, player_id: v.player_id, target_point: v.target_point, rb_state: v.rb_state }) =~= v);
    }

    fn decode(b: &[u8], pos: usize) -> (r: Result<(MachineMotion, usize), DecodeError>) {
        let (last_sent_seconds_a, at1) = match FloatBits::decode(b, pos) {
            Ok(x) => x,
            Err(e) => return Err(e),
        };
        let (last_sent_seconds_b, at2) = match DoubleBits::decode(b, at1) {
            Ok(x) => x,
            Err(e) => return Err(e),
        };
        let (timestamp, at3) = match FloatBits::decode(b, at2) {
            Ok(x) => x,
            Err(e) => return Err(e),
        };
        let (player_id, at4) = match u8::decode(b, at3) {
            Ok(x) => x,
            Err(e) => return Err(e),
        };
        let (target_point, at5) = match CompressedVec3::<768>::decode(b, at4) {
            Ok(x) => x,
            Err(e) => return Err(e),
        };
        let (rb_state, at6) = match RigidBodyState::decode(b, at5) {
            Ok(x) => x,
            Err(e) => return Err(e),
        };
        Ok((MachineMotion { last_sent_seconds_a, last_sent_seconds_b, timestamp, player_id, target_point, rb_state }, at6))
    }

    fn encode(&self, out: &mut Vec<u8>) -> (r: Result<(), EncodeError>) {
        match self.last_sent_seconds_a.encode(out) {
            Ok(()) => (),
            Err(e) => return Err(e),
        };
        match self.last_sent_seconds_b.encode(out) {
            Ok(()) => (),
            Err(e) => return Err(e),
        };
        match self.timestamp.encode(out) {
            Ok(()) => (),
            Err(e) => return Err(e),
        };
        match self.player_id.encode(out) {
            Ok(()) => (),
            Err(e) => return Err(e),
        };
        match self.target_point.encode(out) {
            Ok(()) => (),
            Err(e) => return Err(e),
        };
        match self.rb_state.encode(out) {
            Ok(()) => (),
            Err(e) => return Err(e),
        };
        proof {
            assert(out@ =~= old(out)@ + Self::wire(self.deep_view()));
        }
        Ok(())
    }
}

} // verus!
