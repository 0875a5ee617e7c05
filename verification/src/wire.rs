//! The primitive codec layer: the byte-level encode/decode rules shared by
//! every payload schema.
//!
//! Each wire type implements [`Codec`]. The trait ties the executable
//! decoder and encoder of a type to two spec-level descriptions of its
//! format: `wire` gives the exact byte string a value encodes to, and `dec`
//! gives the exact outcome of decoding at a position in a buffer. The
//! proof obligation [`Codec::lemma_dec_wire`] makes every implementation
//! show that decoding its own encoding returns the original value, so the
//! round-trip law [`lemma_round_trip`] holds for every wire type at once.
//!
//! All multi-byte integers on the wire are little-endian; only the
//! UTF-16 string body is big-endian, one unit at a time.

use vstd::prelude::*;

use crate::error::{DecodeError, EncodeError};

verus! {

/// A type with an exact binary wire format.
///
/// The model of a value is its [`DeepView`]; contracts speak of models, so
/// a payload holding a `Vec` is described by a `Seq` and so on.
///
/// On failure `encode` may leave a partial prefix in `out`; a caller that
/// must not see partial bytes uses [`encode_to_vec`], which hands out a
/// buffer only on success.
pub trait Codec: DeepView + Sized {
    /// Which model values the encoder can represent exactly (for example,
    /// a sequence no longer than its count prefix can express).
    spec fn enc_ok(v: Self::V) -> bool;

    /// The byte string a model value encodes to.
    spec fn wire(v: Self::V) -> Seq<u8>;

    /// The outcome of decoding one value at position `pos` of buffer `b`:
    /// the value and the position just past it, or the error.
    spec fn dec(b: Seq<u8>, pos: int) -> Result<(Self::V, int), DecodeError>;

    /// Decoding an encoded value embedded at any position of any buffer
    /// returns exactly that value and consumes exactly its bytes.
    proof fn lemma_dec_wire(v: Self::V, b: Seq<u8>, pos: int)
        requires
            Self::enc_ok(v),
            0 <= pos,
            pos + Self::wire(v).len() <= b.len(),
            b.subrange(pos, pos + Self::wire(v).len()) == Self::wire(v),
        ensures
            Self::dec(b, pos) == Ok::<(Self::V, int), DecodeError>((v, pos + Self::wire(v).len())),
    ;

    /// Decode one value at `pos`, returning it with the position just past
    /// it. The result is exactly what the `dec` relation prescribes.
    fn decode(b: &[u8], pos: usize) -> (r: Result<(Self, usize), DecodeError>)
        requires
            pos <= b@.len(),
        ensures
            match r {
                Ok((v, end)) => Self::dec(b@, pos as int) == Ok::<(Self::V, int), DecodeError>(
                    (v.deep_view(), end as int),
                ) && pos <= end <= b@.len(),
                Err(e) => Self::dec(b@, pos as int) == Err::<(Self::V, int), DecodeError>(e),
            },
    ;

    /// Append the encoding of `self` to `out`. Succeeds exactly on values
    /// `enc_ok` admits, and then appends exactly `wire(self)`.
    fn encode(&self, out: &mut Vec<u8>) -> (r: Result<(), EncodeError>)
        ensures
            r matches Ok(()) ==> Self::enc_ok(self.deep_view()) && final(out)@ == old(out)@ + Self::wire(
                self.deep_view(),
            ),
            r is Err ==> !Self::enc_ok(self.deep_view()),
    ;
}

/// Round trip: decoding the encoding of any representable value returns
/// exactly that value and consumes the whole encoding.
pub proof fn lemma_round_trip<T: Codec>(v: T::V)
    requires
        T::enc_ok(v),
    ensures
        T::dec(T::wire(v), 0) == Ok::<(T::V, int), DecodeError>((v, T::wire(v).len() as int)),
{
    assert(T::wire(v).subrange(0, T::wire(v).len() as int) =~= T::wire(v));
    T::lemma_dec_wire(v, T::wire(v), 0);
}

/// Encode a value into a fresh buffer, or report why it cannot be encoded.
pub fn encode_to_vec<T: Codec>(v: &T) -> (r: Result<Vec<u8>, EncodeError>)
    ensures
        match r {
            Ok(bytes) => T::enc_ok(v.deep_view()) && bytes@ == T::wire(v.deep_view()),
            Err(_) => !T::enc_ok(v.deep_view()),
        },
{
    let mut out: Vec<u8> = Vec::new();
    match v.encode(&mut out) {
        Ok(()) => {
            proof {
                assert(out@ =~= Seq::<u8>::empty() + T::wire(v.deep_view()));
            }
            Ok(out)
        },
        Err(e) => Err(e),
    }
}

// ---------------------------------------------------------------------------
// Little-endian views of the fixed-width integers.
// ---------------------------------------------------------------------------

/// The two little-endian bytes of a 16-bit integer.
pub open spec fn le2(v: u16) -> Seq<u8> {
    seq![(v & 0xff) as u8, ((v >> 8) & 0xff) as u8]
}

/// The 16-bit integer with the given low and high bytes.
pub open spec fn u16_of(lo: u8, hi: u8) -> u16 {
    (lo as u16) | ((hi as u16) << 8)
}

/// The four little-endian bytes of a 32-bit integer.
pub open spec fn le4(v: u32) -> Seq<u8> {
    seq![
        (v & 0xff) as u8,
        ((v >> 8) & 0xff) as u8,
        ((v >> 16) & 0xff) as u8,
        ((v >> 24) & 0xff) as u8,
    ]
}

/// The 32-bit integer with the given bytes, least significant first.
pub open spec fn u32_of(b0: u8, b1: u8, b2: u8, b3: u8) -> u32 {
    (b0 as u32) | ((b1 as u32) << 8) | ((b2 as u32) << 16) | ((b3 as u32) << 24)
}

/// The eight little-endian bytes of a 64-bit integer.
pub open spec fn le8(v: u64) -> Seq<u8> {
    seq![
        (v & 0xff) as u8,
        ((v >> 8) & 0xff) as u8,
        ((v >> 16) & 0xff) as u8,
        ((v >> 24) & 0xff) as u8,
        ((v >> 32) & 0xff) as u8,
        ((v >> 40) & 0xff) as u8,
        ((v >> 48) & 0xff) as u8,
        ((v >> 56) & 0xff) as u8,
    ]
}

/// The 64-bit integer with the given bytes, least significant first.
pub open spec fn u64_of(
    b0: u8,
    b1: u8,
    b2: u8,
    b3: u8,
    b4: u8,
    b5: u8,
    b6: u8,
    b7: u8,
) -> u64 {
    (b0 as u64) | ((b1 as u64) << 8) | ((b2 as u64) << 16) | ((b3 as u64) << 24) | ((b4
        as u64) << 32) | ((b5 as u64) << 40) | ((b6 as u64) << 48) | ((b7 as u64) << 56)
}

/// Reassembling the little-endian bytes of a 16-bit integer gives it back.
pub proof fn lemma_le2_of(v: u16)
    ensures
        u16_of((v & 0xff) as u8, ((v >> 8) & 0xff) as u8) == v,
{
    assert((((v & 0xff) as u8) as u16) | (((((v >> 8) & 0xff) as u8) as u16) << 8) == v)
        by (bit_vector);
}

/// Reassembling the little-endian bytes of a 32-bit integer gives it back.
pub proof fn lemma_le4_of(v: u32)
    ensures
        u32_of(
            (v & 0xff) as u8,
            ((v >> 8) & 0xff) as u8,
            ((v >> 16) & 0xff) as u8,
            ((v >> 24) & 0xff) as u8,
        ) == v,
{
    assert((((v & 0xff) as u8) as u32) | (((((v >> 8) & 0xff) as u8) as u32) << 8) | (((((v
        >> 16) & 0xff) as u8) as u32) << 16) | (((((v >> 24) & 0xff) as u8) as u32) << 24) == v)
        by (bit_vector);
}

/// Reassembling the little-endian bytes of a 64-bit integer gives it back.
pub proof fn lemma_le8_of(v: u64)
    ensures
        u64_of(
            (v & 0xff) as u8,
            ((v >> 8) & 0xff) as u8,
            ((v >> 16) & 0xff) as u8,
            ((v >> 24) & 0xff) as u8,
            ((v >> 32) & 0xff) as u8,
            ((v >> 40) & 0xff) as u8,
            ((v >> 48) & 0xff) as u8,
            ((v >> 56) & 0xff) as u8,
        ) == v,
{
    assert((((v & 0xff) as u8) as u64) | (((((v >> 8) & 0xff) as u8) as u64) << 8) | (((((v
        >> 16) & 0xff) as u8) as u64) << 16) | (((((v >> 24) & 0xff) as u8) as u64) << 24)
        | (((((v >> 32) & 0xff) as u8) as u64) << 32) | (((((v >> 40) & 0xff) as u8) as u64)
        << 40) | (((((v >> 48) & 0xff) as u8) as u64) << 48) | (((((v >> 56) & 0xff) as u8)
        as u64) << 56) == v) by (bit_vector);
}

// ---------------------------------------------------------------------------
// Codec implementations for the plain fixed-width integers.
// ---------------------------------------------------------------------------

impl Codec for u8 {
    open spec fn enc_ok(v: u8) -> bool {
        true
    }

    open spec fn wire(v: u8) -> Seq<u8> {
        seq![v]
    }

    open spec fn dec(b: Seq<u8>, pos: int) -> Result<(u8, int), DecodeError> {
        if pos + 1 <= b.len() {
            Ok((b[pos], pos + 1))
        } else {
            Err(DecodeError::TruncatedInput)
        }
    }

    proof fn lemma_dec_wire(v: u8, b: Seq<u8>, pos: int) {
        assert(b.subrange(pos, pos + 1)[0] == b[pos]);
    }

    fn decode(b: &[u8], pos: usize) -> (r: Result<(u8, usize), DecodeError>) {
        if b.len() - pos >= 1 {
            Ok((b[pos], pos + 1))
        } else {
            Err(DecodeError::TruncatedInput)
        }
    }

    fn encode(&self, out: &mut Vec<u8>) -> (r: Result<(), EncodeError>) {
        out.push(*self);
        proof {
            assert(out@ =~= old(out)@ + seq![*self]);
        }
        Ok(())
    }
}

impl Codec for i8 {
    open spec fn enc_ok(v: i8) -> bool {
        true
    }

    open spec fn wire(v: i8) -> Seq<u8> {
        seq![v as u8]
    }

    open spec fn dec(b: Seq<u8>, pos: int) -> Result<(i8, int), DecodeError> {
        if pos + 1 <= b.len() {
            Ok((b[pos] as i8, pos + 1))
        } else {
            Err(DecodeError::TruncatedInput)
        }
    }

    proof fn lemma_dec_wire(v: i8, b: Seq<u8>, pos: int) {
        assert(b.subrange(pos, pos + 1)[0] == b[pos]);
        assert(((v as u8) as i8) == v) by (bit_vector);
    }

    fn decode(b: &[u8], pos: usize) -> (r: Result<(i8, usize), DecodeError>) {
        if b.len() - pos >= 1 {
            Ok((b[pos] as i8, pos + 1))
        } else {
            Err(DecodeError::TruncatedInput)
        }
    }

    fn encode(&self, out: &mut Vec<u8>) -> (r: Result<(), EncodeError>) {
        out.push(*self as u8);
        proof {
            assert(out@ =~= old(out)@ + seq![*self as u8]);
        }
        Ok(())
    }
}

impl Codec for u16 {
    open spec fn enc_ok(v: u16) -> bool {
        true
    }

    open spec fn wire(v: u16) -> Seq<u8> {
        le2(v)
    }

    open spec fn dec(b: Seq<u8>, pos: int) -> Result<(u16, int), DecodeError> {
        if pos + 2 <= b.len() {
            Ok((u16_of(b[pos], b[pos + 1]), pos + 2))
        } else {
            Err(DecodeError::TruncatedInput)
        }
    }

    proof fn lemma_dec_wire(v: u16, b: Seq<u8>, pos: int) {
        assert(b.subrange(pos, pos + 2)[0] == b[pos]);
        assert(b.subrange(pos, pos + 2)[1] == b[pos + 1]);
        lemma_le2_of(v);
    }

    fn decode(b: &[u8], pos: usize) -> (r: Result<(u16, usize), DecodeError>) {
        if b.len() - pos >= 2 {
            let lo = b[pos];
            let hi = b[pos + 1];
            let v = (lo as u16) | ((hi as u16) << 8);
            proof {
                assert(v == u16_of(b@[pos as int], b@[pos as int + 1]));
                assert(Self::dec(b@, pos as int) == Ok::<(u16, int), DecodeError>(
                    (v, pos + 2 as int),
                ));
            }
            Ok((v, pos + 2))
        } else {
            Err(DecodeError::TruncatedInput)
        }
    }

    fn encode(&self, out: &mut Vec<u8>) -> (r: Result<(), EncodeError>) {
        let v = *self;
        out.push((v & 0xff) as u8);
        out.push(((v >> 8) & 0xff) as u8);
        proof {
            assert(out@ =~= old(out)@ + le2(v));
        }
        Ok(())
    }
}

impl Codec for i16 {
    open spec fn enc_ok(v: i16) -> bool {
        true
    }

    open spec fn wire(v: i16) -> Seq<u8> {
        le2(v as u16)
    }

    open spec fn dec(b: Seq<u8>, pos: int) -> Result<(i16, int), DecodeError> {
        if pos + 2 <= b.len() {
            Ok((u16_of(b[pos], b[pos + 1]) as i16, pos + 2))
        } else {
            Err(DecodeError::TruncatedInput)
        }
    }

    proof fn lemma_dec_wire(v: i16, b: Seq<u8>, pos: int) {
        assert(b.subrange(pos, pos + 2)[0] == b[pos]);
        assert(b.subrange(pos, pos + 2)[1] == b[pos + 1]);
        lemma_le2_of(v as u16);
        assert(((v as u16) as i16) == v) by (bit_vector);
    }

    fn decode(b: &[u8], pos: usize) -> (r: Result<(i16, usize), DecodeError>) {
        match u16::decode(b, pos) {
            Ok((v, end)) => Ok((v as i16, end)),
            Err(e) => Err(e),
        }
    }

    fn encode(&self, out: &mut Vec<u8>) -> (r: Result<(), EncodeError>) {
        (*self as u16).encode(out)
    }
}

impl Codec for u32 {
    open spec fn enc_ok(v: u32) -> bool {
        true
    }

    open spec fn wire(v: u32) -> Seq<u8> {
        le4(v)
    }

    open spec fn dec(b: Seq<u8>, pos: int) -> Result<(u32, int), DecodeError> {
        if pos + 4 <= b.len() {
            Ok((u32_of(b[pos], b[pos + 1], b[pos + 2], b[pos + 3]), pos + 4))
        } else {
            Err(DecodeError::TruncatedInput)
        }
    }

    proof fn lemma_dec_wire(v: u32, b: Seq<u8>, pos: int) {
        assert(b.subrange(pos, pos + 4)[0] == b[pos]);
        assert(b.subrange(pos, pos + 4)[1] == b[pos + 1]);
        assert(b.subrange(pos, pos + 4)[2] == b[pos + 2]);
        assert(b.subrange(pos, pos + 4)[3] == b[pos + 3]);
        lemma_le4_of(v);
    }

    fn decode(b: &[u8], pos: usize) -> (r: Result<(u32, usize), DecodeError>) {
        if b.len() - pos >= 4 {
            let b0 = b[pos];
            let b1 = b[pos + 1];
            let b2 = b[pos + 2];
            let b3 = b[pos + 3];
            let v = (b0 as u32) | ((b1 as u32) << 8) | ((b2 as u32) << 16) | ((b3 as u32) << 24);
            proof {
                assert(v == u32_of(
                    b@[pos as int],
                    b@[pos as int + 1],
                    b@[pos as int + 2],
                    b@[pos as int + 3],
                ));
                assert(Self::dec(b@, pos as int) == Ok::<(u32, int), DecodeError>(
                    (v, pos + 4 as int),
                ));
            }
            Ok((v, pos + 4))
        } else {
            Err(DecodeError::TruncatedInput)
        }
    }

    fn encode(&self, out: &mut Vec<u8>) -> (r: Result<(), EncodeError>) {
        let v = *self;
        out.push((v & 0xff) as u8);
        out.push(((v >> 8) & 0xff) as u8);
        out.push(((v >> 16) & 0xff) as u8);
        out.push(((v >> 24) & 0xff) as u8);
        proof {
            assert(out@ =~= old(out)@ + le4(v));
        }
        Ok(())
    }
}

impl Codec for i32 {
    open spec fn enc_ok(v: i32) -> bool {
        true
    }

    open spec fn wire(v: i32) -> Seq<u8> {
        le4(v as u32)
    }

    open spec fn dec(b: Seq<u8>, pos: int) -> Result<(i32, int), DecodeError> {
        if pos + 4 <= b.len() {
            Ok((u32_of(b[pos], b[pos + 1], b[pos + 2], b[pos + 3]) as i32, pos + 4))
        } else {
            Err(DecodeError::TruncatedInput)
        }
    }

    proof fn lemma_dec_wire(v: i32, b: Seq<u8>, pos: int) {
        assert(b.subrange(pos, pos + 4)[0] == b[pos]);
        assert(b.subrange(pos, pos + 4)[1] == b[pos + 1]);
        assert(b.subrange(pos, pos + 4)[2] == b[pos + 2]);
        assert(b.subrange(pos, pos + 4)[3] == b[pos + 3]);
        lemma_le4_of(v as u32);
        assert(((v as u32) as i32) == v) by (bit_vector);
    }

    fn decode(b: &[u8], pos: usize) -> (r: Result<(i32, usize), DecodeError>) {
        match u32::decode(b, pos) {
            Ok((v, end)) => Ok((v as i32, end)),
            Err(e) => Err(e),
        }
    }

    fn encode(&self, out: &mut Vec<u8>) -> (r: Result<(), EncodeError>) {
        (*self as u32).encode(out)
    }
}

impl Codec for u64 {
    open spec fn enc_ok(v: u64) -> bool {
        true
    }

    open spec fn wire(v: u64) -> Seq<u8> {
        le8(v)
    }

    open spec fn dec(b: Seq<u8>, pos: int) -> Result<(u64, int), DecodeError> {
        if pos + 8 <= b.len() {
            Ok((
                u64_of(
                    b[pos],
                    b[pos + 1],
                    b[pos + 2],
                    b[pos + 3],
                    b[pos + 4],
                    b[pos + 5],
                    b[pos + 6],
                    b[pos + 7],
                ),
                pos + 8,
            ))
        } else {
            Err(DecodeError::TruncatedInput)
        }
    }

    proof fn lemma_dec_wire(v: u64, b: Seq<u8>, pos: int) {
        assert(b.subrange(pos, pos + 8)[0] == b[pos]);
        assert(b.subrange(pos, pos + 8)[1] == b[pos + 1]);
        assert(b.subrange(pos, pos + 8)[2] == b[pos + 2]);
        assert(b.subrange(pos, pos + 8)[3] == b[pos + 3]);
        assert(b.subrange(pos, pos + 8)[4] == b[pos + 4]);
        assert(b.subrange(pos, pos + 8)[5] == b[pos + 5]);
        assert(b.subrange(pos, pos + 8)[6] == b[pos + 6]);
        assert(b.subrange(pos, pos + 8)[7] == b[pos + 7]);
        lemma_le8_of(v);
    }

    fn decode(b: &[u8], pos: usize) -> (r: Result<(u64, usize), DecodeError>) {
        if b.len() - pos >= 8 {
            let b0 = b[pos];
            let b1 = b[pos + 1];
            let b2 = b[pos + 2];
            let b3 = b[pos + 3];
            let b4 = b[pos + 4];
            let b5 = b[pos + 5];
            let b6 = b[pos + 6];
            let b7 = b[pos + 7];
            Ok((
                (b0 as u64) | ((b1 as u64) << 8) | ((b2 as u64) << 16) | ((b3 as u64) << 24) | ((b4
                    as u64) << 32) | ((b5 as u64) << 40) | ((b6 as u64) << 48) | ((b7 as u64)
                    << 56),
                pos + 8,
            ))
        } else {
            Err(DecodeError::TruncatedInput)
        }
    }

    fn encode(&self, out: &mut Vec<u8>) -> (r: Result<(), EncodeError>) {
        let v = *self;
        out.push((v & 0xff) as u8);
        out.push(((v >> 8) & 0xff) as u8);
        out.push(((v >> 16) & 0xff) as u8);
        out.push(((v >> 24) & 0xff) as u8);
        out.push(((v >> 32) & 0xff) as u8);
        out.push(((v >> 40) & 0xff) as u8);
        out.push(((v >> 48) & 0xff) as u8);
        out.push(((v >> 56) & 0xff) as u8);
        proof {
            assert(out@ =~= old(out)@ + le8(v));
        }
        Ok(())
    }
}


// ---------------------------------------------------------------------------
// Sequences of wire values, and count-prefixed sequences.
// ---------------------------------------------------------------------------

/// Every element of the sequence can be encoded.
pub open spec fn elems_ok<T: Codec>(s: Seq<T::V>) -> bool {
    forall|i: int| 0 <= i < s.len() ==> T::enc_ok(#[trigger] s[i])
}

/// The concatenated encodings of the elements, in order.
pub open spec fn wire_elems<T: Codec>(s: Seq<T::V>) -> Seq<u8>
    decreases s.len(),
{
    if s.len() == 0 {
        Seq::empty()
    } else {
        T::wire(s[0]) + wire_elems::<T>(s.skip(1))
    }
}

/// The outcome of decoding exactly `n` consecutive elements at `pos`.
pub open spec fn dec_elems<T: Codec>(b: Seq<u8>, pos: int, n: nat) -> Result<
    (Seq<T::V>, int),
    DecodeError,
>
    decreases n,
{
    if n == 0 {
        Ok((Seq::empty(), pos))
    } else {
        match T::dec(b, pos) {
            Ok((v, p1)) => match dec_elems::<T>(b, p1, (n - 1) as nat) {
                Ok((s, end)) => Ok((seq![v] + s, end)),
                Err(e) => Err(e),
            },
            Err(e) => Err(e),
        }
    }
}

/// Appending one element to a sequence appends its encoding to the wire.
pub proof fn lemma_wire_elems_push<T: Codec>(s: Seq<T::V>, v: T::V)
    ensures
        wire_elems::<T>(s.push(v)) == wire_elems::<T>(s) + T::wire(v),
    decreases s.len(),
{
    if s.len() == 0 {
        assert(s.push(v).skip(1) =~= Seq::<T::V>::empty());
        assert(s =~= Seq::<T::V>::empty());
        assert(wire_elems::<T>(Seq::<T::V>::empty()) == Seq::<u8>::empty());
        assert(s.push(v)[0] == v);
        assert(wire_elems::<T>(s.push(v)) == T::wire(v) + Seq::<u8>::empty());
        assert(T::wire(v) + Seq::<u8>::empty() =~= Seq::<u8>::empty() + T::wire(v));
    } else {
        assert(s.push(v).skip(1) =~= s.skip(1).push(v));
        lemma_wire_elems_push::<T>(s.skip(1), v);
        assert(s.push(v)[0] == s[0]);
        assert(s.push(v).len() != 0);
        assert(wire_elems::<T>(s.push(v)) == T::wire(s[0]) + wire_elems::<T>(
            s.skip(1).push(v),
        ));
        assert(wire_elems::<T>(s.skip(1).push(v)) == wire_elems::<T>(s.skip(1)) + T::wire(v));
        assert(T::wire(s[0]) + (wire_elems::<T>(s.skip(1)) + T::wire(v)) =~= (T::wire(s[0])
            + wire_elems::<T>(s.skip(1))) + T::wire(v));
    }
}

/// A concatenation found at `pos` splits into its two parts.
pub proof fn lemma_subrange_split(b: Seq<u8>, pos: int, s1: Seq<u8>, s2: Seq<u8>)
    requires
        0 <= pos,
        pos + s1.len() + s2.len() <= b.len(),
        b.subrange(pos, pos + s1.len() + s2.len()) == s1 + s2,
    ensures
        b.subrange(pos, pos + s1.len()) == s1,
        b.subrange(pos + s1.len(), pos + s1.len() + s2.len()) == s2,
{
    let whole = b.subrange(pos, pos + s1.len() + s2.len());
    assert forall|i: int| 0 <= i < s1.len() implies b.subrange(pos, pos + s1.len())[i] == s1[i] by {
        assert(whole[i] == (s1 + s2)[i]);
    }
    assert(b.subrange(pos, pos + s1.len()) =~= s1);
    assert forall|i: int| 0 <= i < s2.len() implies b.subrange(
        pos + s1.len(),
        pos + s1.len() + s2.len(),
    )[i] == s2[i] by {
        assert(whole[s1.len() + i] == (s1 + s2)[s1.len() + i]);
    }
    assert(b.subrange(pos + s1.len(), pos + s1.len() + s2.len()) =~= s2);
}

/// Decoding `s.len()` elements from the encoding of `s` gives back `s`.
pub proof fn lemma_dec_wire_elems<T: Codec>(s: Seq<T::V>, b: Seq<u8>, pos: int)
    requires
        elems_ok::<T>(s),
        0 <= pos,
        pos + wire_elems::<T>(s).len() <= b.len(),
        b.subrange(pos, pos + wire_elems::<T>(s).len()) == wire_elems::<T>(s),
    ensures
        dec_elems::<T>(b, pos, s.len() as nat) == Ok::<(Seq<T::V>, int), DecodeError>(
            (s, pos + wire_elems::<T>(s).len()),
        ),
    decreases s.len(),
{
    if s.len() == 0 {
        assert(s =~= Seq::<T::V>::empty());
    } else {
        let w0 = T::wire(s[0]);
        let rest = wire_elems::<T>(s.skip(1));
        lemma_subrange_split(b, pos, w0, rest);
        T::lemma_dec_wire(s[0], b, pos);
        lemma_dec_wire_elems::<T>(s.skip(1), b, pos + w0.len());
        assert(seq![s[0]] + s.skip(1) =~= s);
    }
}

/// A decoded sequence has exactly as many elements as were asked for.
pub proof fn lemma_dec_elems_len<T: Codec>(b: Seq<u8>, pos: int, n: nat)
    ensures
        dec_elems::<T>(b, pos, n) matches Ok((s, end)) ==> s.len() == n,
    decreases n,
{
    if n > 0 {
        if let Ok((v, p1)) = T::dec(b, pos) {
            lemma_dec_elems_len::<T>(b, p1, (n - 1) as nat);
        }
    }
}

/// Decode exactly `n` consecutive elements starting at `pos`.
pub fn decode_elems<T: Codec>(b: &[u8], pos: usize, n: usize) -> (r: Result<
    (Vec<T>, usize),
    DecodeError,
>)
    requires
        pos <= b@.len(),
    ensures
        match r {
            Ok((vs, end)) => dec_elems::<T>(b@, pos as int, n as nat) == Ok::<
                (Seq<T::V>, int),
                DecodeError,
            >((vs.deep_view(), end as int)) && pos <= end <= b@.len() && vs@.len() == n,
            Err(e) => dec_elems::<T>(b@, pos as int, n as nat) == Err::<
                (Seq<T::V>, int),
                DecodeError,
            >(e),
        },
{
    let mut acc: Vec<T> = Vec::new();
    let mut cur: usize = pos;
    let mut i: usize = 0;
    proof {
        assert(acc.deep_view() =~= Seq::<T::V>::empty());
    }
    while i < n
        invariant
            i <= n,
            pos <= cur <= b@.len(),
            acc@.len() == i,
            acc.deep_view().len() == i,
            dec_elems::<T>(b@, pos as int, n as nat) == (match dec_elems::<T>(
                b@,
                cur as int,
                (n - i) as nat,
            ) {
                Ok((s, end)) => Ok::<(Seq<T::V>, int), DecodeError>((acc.deep_view() + s, end)),
                Err(e) => Err::<(Seq<T::V>, int), DecodeError>(e),
            }),
        decreases n - i,
    {
        let ghost acc_old = acc.deep_view();
        match T::decode(b, cur) {
            Ok((v, end)) => {
                let ghost vv = v.deep_view();
                acc.push(v);
                proof {
                    assert(acc.deep_view() =~= acc_old.push(vv));
                }
                cur = end;
                i = i + 1;
                proof {
                    if let Ok((s, e2)) = dec_elems::<T>(b@, cur as int, (n - i) as nat) {
                        assert(acc_old + (seq![vv] + s) =~= acc.deep_view() + s);
                    }
                }
            },
            Err(e) => {
                return Err(e);
            },
        }
    }
    proof {
        assert(acc.deep_view() + Seq::<T::V>::empty() =~= acc.deep_view());
    }
    Ok((acc, cur))
}

/// Append the encodings of all elements, in order, to `out`.
pub fn encode_elems<T: Codec>(items: &Vec<T>, out: &mut Vec<u8>) -> (r: Result<(), EncodeError>)
    ensures
        r matches Ok(()) ==> elems_ok::<T>(items.deep_view()) && final(out)@ == old(out)@
            + wire_elems::<T>(items.deep_view()),
        r is Err ==> !elems_ok::<T>(items.deep_view()),
{
    let ghost base = out@;
    let ghost all = items.deep_view();
    let mut i: usize = 0;
    proof {
        assert(all.take(0) =~= Seq::<T::V>::empty());
    }
    while i < items.len()
        invariant
            i <= items@.len(),
            all == items.deep_view(),
            all.len() == items@.len(),
            out@ == base + wire_elems::<T>(all.take(i as int)),
            elems_ok::<T>(all.take(i as int)),
        decreases items@.len() - i,
    {
        let item = &items[i];
        proof {
            assert(item.deep_view() == all[i as int]);
        }
        match item.encode(out) {
            Ok(()) => {
                proof {
                    lemma_wire_elems_push::<T>(all.take(i as int), all[i as int]);
                    assert(all.take(i as int).push(all[i as int]) =~= all.take(i + 1));
                }
                i = i + 1;
            },
            Err(e) => {
                proof {
                    assert(!T::enc_ok(all[i as int]));
                }
                return Err(e);
            },
        }
    }
    proof {
        assert(all.take(items@.len() as int) =~= all);
    }
    Ok(())
}


/// A sequence with a u8 count prefix can be encoded when the count
/// fits the prefix and every element can be encoded.
pub open spec fn counted_ok_u8<T: Codec>(s: Seq<T::V>) -> bool {
    s.len() <= 255usize && elems_ok::<T>(s)
}

/// Count prefix, then the elements: the count is the sequence's length.
pub open spec fn wire_counted_u8<T: Codec>(s: Seq<T::V>) -> Seq<u8> {
    u8::wire(s.len() as u8) + wire_elems::<T>(s)
}

/// The outcome of decoding a u8 count and then that many elements.
pub open spec fn dec_counted_u8<T: Codec>(b: Seq<u8>, pos: int) -> Result<
    (Seq<T::V>, int),
    DecodeError,
> {
    match u8::dec(b, pos) {
        Ok((n, p)) => dec_elems::<T>(b, p, n as nat),
        Err(e) => Err(e),
    }
}

/// Round trip for a u8-counted sequence embedded in a buffer.
pub proof fn lemma_dec_wire_counted_u8<T: Codec>(s: Seq<T::V>, b: Seq<u8>, pos: int)
    requires
        counted_ok_u8::<T>(s),
        0 <= pos,
        pos + wire_counted_u8::<T>(s).len() <= b.len(),
        b.subrange(pos, pos + wire_counted_u8::<T>(s).len()) == wire_counted_u8::<T>(s),
    ensures
        dec_counted_u8::<T>(b, pos) == Ok::<(Seq<T::V>, int), DecodeError>(
            (s, pos + wire_counted_u8::<T>(s).len()),
        ),
{
    let n = s.len() as u8;
    let cw = u8::wire(n);
    let ew = wire_elems::<T>(s);
    lemma_subrange_split(b, pos, cw, ew);
    u8::lemma_dec_wire(n, b, pos);
    lemma_dec_wire_elems::<T>(s, b, pos + cw.len());
}

/// Decode a u8 count prefix and then exactly that many elements.
pub fn decode_counted_u8<T: Codec>(b: &[u8], pos: usize) -> (r: Result<
    (Vec<T>, usize),
    DecodeError,
>)
    requires
        pos <= b@.len(),
    ensures
        match r {
            Ok((vs, end)) => dec_counted_u8::<T>(b@, pos as int) == Ok::<
                (Seq<T::V>, int),
                DecodeError,
            >((vs.deep_view(), end as int)) && pos <= end <= b@.len(),
            Err(e) => dec_counted_u8::<T>(b@, pos as int) == Err::<
                (Seq<T::V>, int),
                DecodeError,
            >(e),
        },
{
    match u8::decode(b, pos) {
        Ok((n, p)) => {
            match decode_elems::<T>(b, p, n as usize) {
                Ok((vs, end)) => Ok((vs, end)),
                Err(e) => Err(e),
            }
        },
        Err(e) => Err(e),
    }
}

/// Encode a u8 count prefix derived from the sequence's length, then
/// the elements.
pub fn encode_counted_u8<T: Codec>(items: &Vec<T>, out: &mut Vec<u8>) -> (r: Result<
    (),
    EncodeError,
>)
    ensures
        r matches Ok(()) ==> counted_ok_u8::<T>(items.deep_view()) && final(out)@ == old(out)@
            + wire_counted_u8::<T>(items.deep_view()),
        r is Err ==> !counted_ok_u8::<T>(items.deep_view()),
{
    if items.len() > 255usize {
        return Err(EncodeError::LengthOverflow);
    }
    let n = items.len() as u8;
    let r1 = n.encode(out);
    proof {
        assert(r1 is Ok);
    }
    match encode_elems::<T>(items, out) {
        Ok(()) => Ok(()),
        Err(e) => Err(e),
    }
}

/// A sequence with a u16 count prefix can be encoded when the count
/// fits the prefix and every element can be encoded.
pub open spec fn counted_ok_u16<T: Codec>(s: Seq<T::V>) -> bool {
    s.len() <= 65535usize && elems_ok::<T>(s)
}

/// Count prefix, then the elements: the count is the sequence's length.
pub open spec fn wire_counted_u16<T: Codec>(s: Seq<T::V>) -> Seq<u8> {
    u16::wire(s.len() as u16) + wire_elems::<T>(s)
}

/// The outcome of decoding a u16 count and then that many elements.
pub open spec fn dec_counted_u16<T: Codec>(b: Seq<u8>, pos: int) -> Result<
    (Seq<T::V>, int),
    DecodeError,
> {
    match u16::dec(b, pos) {
        Ok((n, p)) => dec_elems::<T>(b, p, n as nat),
        Err(e) => Err(e),
    }
}

/// Round trip for a u16-counted sequence embedded in a buffer.
pub proof fn lemma_dec_wire_counted_u16<T: Codec>(s: Seq<T::V>, b: Seq<u8>, pos: int)
    requires
        counted_ok_u16::<T>(s),
        0 <= pos,
        pos + wire_counted_u16::<T>(s).len() <= b.len(),
        b.subrange(pos, pos + wire_counted_u16::<T>(s).len()) == wire_counted_u16::<T>(s),
    ensures
        dec_counted_u16::<T>(b, pos) == Ok::<(Seq<T::V>, int), DecodeError>(
            (s, pos + wire_counted_u16::<T>(s).len()),
        ),
{
    let n = s.len() as u16;
    let cw = u16::wire(n);
    let ew = wire_elems::<T>(s);
    lemma_subrange_split(b, pos, cw, ew);
    u16::lemma_dec_wire(n, b, pos);
    lemma_dec_wire_elems::<T>(s, b, pos + cw.len());
}

/// Decode a u16 count prefix and then exactly that many elements.
pub fn decode_counted_u16<T: Codec>(b: &[u8], pos: usize) -> (r: Result<
    (Vec<T>, usize),
    DecodeError,
>)
    requires
        pos <= b@.len(),
    ensures
        match r {
            Ok((vs, end)) => dec_counted_u16::<T>(b@, pos as int) == Ok::<
                (Seq<T::V>, int),
                DecodeError,
            >((vs.deep_view(), end as int)) && pos <= end <= b@.len(),
            Err(e) => dec_counted_u16::<T>(b@, pos as int) == Err::<
                (Seq<T::V>, int),
                DecodeError,
            >(e),
        },
{
    match u16::decode(b, pos) {
        Ok((n, p)) => {
            match decode_elems::<T>(b, p, n as usize) {
                Ok((vs, end)) => Ok((vs, end)),
                Err(e) => Err(e),
            }
        },
        Err(e) => Err(e),
    }
}

/// Encode a u16 count prefix derived from the sequence's length, then
/// the elements.
pub fn encode_counted_u16<T: Codec>(items: &Vec<T>, out: &mut Vec<u8>) -> (r: Result<
    (),
    EncodeError,
>)
    ensures
        r matches Ok(()) ==> counted_ok_u16::<T>(items.deep_view()) && final(out)@ == old(out)@
            + wire_counted_u16::<T>(items.deep_view()),
        r is Err ==> !counted_ok_u16::<T>(items.deep_view()),
{
    if items.len() > 65535usize {
        return Err(EncodeError::LengthOverflow);
    }
    let n = items.len() as u16;
    let r1 = n.encode(out);
    proof {
        assert(r1 is Ok);
    }
    match encode_elems::<T>(items, out) {
        Ok(()) => Ok(()),
        Err(e) => Err(e),
    }
}

/// A sequence with a i32 count prefix can be encoded when the count
/// fits the prefix and every element can be encoded.
pub open spec fn counted_ok_i32<T: Codec>(s: Seq<T::V>) -> bool {
    s.len() <= 0x7fff_ffffusize && elems_ok::<T>(s)
}

/// Count prefix, then the elements: the count is the sequence's length.
pub open spec fn wire_counted_i32<T: Codec>(s: Seq<T::V>) -> Seq<u8> {
    i32::wire(s.len() as i32) + wire_elems::<T>(s)
}

/// The outcome of decoding a i32 count and then that many elements.
pub open spec fn dec_counted_i32<T: Codec>(b: Seq<u8>, pos: int) -> Result<
    (Seq<T::V>, int),
    DecodeError,
> {
    match i32::dec(b, pos) {
        Ok((n, p)) => if n < 0 {
            Err(DecodeError::NegativeCount)
        } else {
            dec_elems::<T>(b, p, n as nat)
        },
        Err(e) => Err(e),
    }
}

/// Round trip for a i32-counted sequence embedded in a buffer.
pub proof fn lemma_dec_wire_counted_i32<T: Codec>(s: Seq<T::V>, b: Seq<u8>, pos: int)
    requires
        counted_ok_i32::<T>(s),
        0 <= pos,
        pos + wire_counted_i32::<T>(s).len() <= b.len(),
        b.subrange(pos, pos + wire_counted_i32::<T>(s).len()) == wire_counted_i32::<T>(s),
    ensures
        dec_counted_i32::<T>(b, pos) == Ok::<(Seq<T::V>, int), DecodeError>(
            (s, pos + wire_counted_i32::<T>(s).len()),
        ),
{
    let n = s.len() as i32;
    let cw = i32::wire(n);
    let ew = wire_elems::<T>(s);
    lemma_subrange_split(b, pos, cw, ew);
    i32::lemma_dec_wire(n, b, pos);
    lemma_dec_wire_elems::<T>(s, b, pos + cw.len());
}

/// Decode a i32 count prefix and then exactly that many elements.
pub fn decode_counted_i32<T: Codec>(b: &[u8], pos: usize) -> (r: Result<
    (Vec<T>, usize),
    DecodeError,
>)
    requires
        pos <= b@.len(),
    ensures
        match r {
            Ok((vs, end)) => dec_counted_i32::<T>(b@, pos as int) == Ok::<
                (Seq<T::V>, int),
                DecodeError,
            >((vs.deep_view(), end as int)) && pos <= end <= b@.len(),
            Err(e) => dec_counted_i32::<T>(b@, pos as int) == Err::<
                (Seq<T::V>, int),
                DecodeError,
            >(e),
        },
{
    match i32::decode(b, pos) {
        Ok((n, p)) => {
            if n < 0 {
                return Err(DecodeError::NegativeCount);
            }
            match decode_elems::<T>(b, p, n as usize) {
                Ok((vs, end)) => Ok((vs, end)),
                Err(e) => Err(e),
            }
        },
        Err(e) => Err(e),
    }
}

/// Encode a i32 count prefix derived from the sequence's length, then
/// the elements.
pub fn encode_counted_i32<T: Codec>(items: &Vec<T>, out: &mut Vec<u8>) -> (r: Result<
    (),
    EncodeError,
>)
    ensures
        r matches Ok(()) ==> counted_ok_i32::<T>(items.deep_view()) && final(out)@ == old(out)@
            + wire_counted_i32::<T>(items.deep_view()),
        r is Err ==> !counted_ok_i32::<T>(items.deep_view()),
{
    if items.len() > 0x7fff_ffffusize {
        return Err(EncodeError::LengthOverflow);
    }
    let n = items.len() as i32;
    let r1 = n.encode(out);
    proof {
        assert(r1 is Ok);
    }
    match encode_elems::<T>(items, out) {
        Ok(()) => Ok(()),
        Err(e) => Err(e),
    }
}


// ---------------------------------------------------------------------------
// The 7-bit variable-length count and the UTF-16 string body.
// ---------------------------------------------------------------------------

/// The 7-bit variable-length encoding of an unsigned count: each byte
/// carries seven bits, least-significant group first, and the high bit of
/// a byte says another byte follows.
pub open spec fn wire_varint(n: nat) -> Seq<u8>
    decreases n,
{
    if n < 128 {
        seq![n as u8]
    } else {
        seq![(128 + (n % 128)) as u8] + wire_varint(n / 128)
    }
}

/// The outcome of reading a 7-bit variable-length count at `pos`: its
/// mathematical value and the position just past it. Redundant leading
/// groups (a continuation byte with all seven bits clear) are accepted.
pub open spec fn dec_varint(b: Seq<u8>, pos: int) -> Result<(nat, int), DecodeError>
    decreases b.len() - pos,
{
    if pos < 0 || pos + 1 > b.len() {
        Err(DecodeError::TruncatedInput)
    } else {
        let x = b[pos];
        if x < 128 {
            Ok((x as nat, pos + 1))
        } else {
            match dec_varint(b, pos + 1) {
                Ok((m, end)) => Ok(((x - 128) as nat + 128 * m, end)),
                Err(e) => Err(e),
            }
        }
    }
}

/// Reading the variable-length encoding of `n` embedded in a buffer gives
/// back `n` and consumes exactly its bytes.
pub proof fn lemma_dec_wire_varint(n: nat, b: Seq<u8>, pos: int)
    requires
        0 <= pos,
        pos + wire_varint(n).len() <= b.len(),
        b.subrange(pos, pos + wire_varint(n).len()) == wire_varint(n),
    ensures
        dec_varint(b, pos) == Ok::<(nat, int), DecodeError>((n, pos + wire_varint(n).len())),
    decreases n,
{
    if n < 128 {
        assert(b.subrange(pos, pos + 1)[0] == b[pos]);
        assert(b[pos] == n as u8);
    } else {
        let head = seq![(128 + (n % 128)) as u8];
        let tail = wire_varint(n / 128);
        lemma_subrange_split(b, pos, head, tail);
        assert(b.subrange(pos, pos + 1)[0] == b[pos]);
        assert(b[pos] == (128 + (n % 128)) as u8);
        assert(b[pos] >= 128);
        lemma_dec_wire_varint(n / 128, b, pos + 1);
        vstd::arithmetic::div_mod::lemma_fundamental_div_mod(n as int, 128);
        assert((b[pos] - 128) as nat + 128 * (n / 128) == n);
    }
}

/// Append the variable-length encoding of `n` to `out`.
pub fn encode_varint(n0: usize, out: &mut Vec<u8>)
    ensures
        final(out)@ == old(out)@ + wire_varint(n0 as nat),
{
    let mut n = n0;
    while n >= 128
        invariant
            old(out)@ + wire_varint(n0 as nat) == out@ + wire_varint(n as nat),
        decreases n,
    {
        let ghost before = out@;
        out.push((128 + (n % 128)) as u8);
        proof {
            assert(wire_varint(n as nat) == seq![(128 + (n as nat % 128)) as u8] + wire_varint(
                (n as nat) / 128,
            ));
            assert((128 + (n as nat % 128)) as u8 == (128 + (n % 128)) as u8);
            assert(before + wire_varint(n as nat) =~= out@ + wire_varint((n / 128) as nat));
        }
        n = n / 128;
    }
    let ghost before = out@;
    out.push(n as u8);
    proof {
        assert(wire_varint(n as nat) == seq![n as u8]);
        assert(before + wire_varint(n as nat) =~= out@);
    }
}

/// Read a variable-length count meant to prefix `n` two-byte units, and
/// check that the units fit in the rest of the buffer. A count too large
/// for the buffer (even one beyond the machine's address space) is
/// truncated input.
pub(crate) fn decode_string_len(b: &[u8], pos: usize) -> (r: Result<(usize, usize), DecodeError>)
    requires
        pos <= b@.len(),
    ensures
        match r {
            Ok((n, end)) => dec_varint(b@, pos as int) == Ok::<(nat, int), DecodeError>(
                (n as nat, end as int),
            ) && pos <= end <= b@.len() && end + 2 * n <= b@.len(),
            Err(e) => match dec_varint(b@, pos as int) {
                Ok((n, end)) => e == DecodeError::TruncatedInput && end + 2 * n > b@.len(),
                Err(e2) => e == e2,
            },
        },
{
    let blen = b.len();
    let mut cur: usize = pos;
    let mut acc: usize = 0;
    let mut mul: usize = 1;
    let mut sat = false;
    let mut mul_sat = false;
    let ghost mut acc_math: nat = 0nat;
    let ghost mut pow: nat = 1nat;
    loop
        invariant
            pos <= cur <= blen,
            blen == b@.len(),
            !sat ==> acc == acc_math,
            sat ==> acc_math > usize::MAX,
            !mul_sat ==> mul == pow,
            mul_sat ==> pow > usize::MAX,
            dec_varint(b@, pos as int) == (match dec_varint(b@, cur as int) {
                Ok((m, e)) => Ok::<(nat, int), DecodeError>((acc_math + m * pow, e)),
                Err(x) => Err::<(nat, int), DecodeError>(x),
            }),
        decreases blen - cur,
    {
        if cur >= blen {
            return Err(DecodeError::TruncatedInput);
        }
        let x = b[cur];
        if x < 128 {
            // Last group: the count is acc_math + x * pow.
            let ghost total: nat = acc_math + (x as nat) * pow;
            proof {
                assert(dec_varint(b@, cur as int) == Ok::<(nat, int), DecodeError>(
                    (x as nat, cur + 1),
                ));
            }
            let end = cur + 1;
            if sat {
                proof {
                    assert(total > usize::MAX) by (nonlinear_arith)
                        requires
                            total == acc_math + (x as nat) * pow,
                            pow >= 0,
                            x >= 0,
                            acc_math > usize::MAX,
                    ;
                }
                return Err(DecodeError::TruncatedInput);
            }
            let n: usize;
            if x == 0 {
                n = acc;
                proof {
                    assert(total == acc_math) by (nonlinear_arith)
                        requires
                            total == acc_math + (x as nat) * pow,
                            x == 0,
                    ;
                }
            } else if mul_sat {
                proof {
                    assert(total > usize::MAX) by (nonlinear_arith)
                        requires
                            total == acc_math + (x as nat) * pow,
                            pow > usize::MAX,
                            x >= 1,
                            acc_math >= 0,
                    ;
                }
                return Err(DecodeError::TruncatedInput);
            } else {
                match (x as usize).checked_mul(mul) {
                    Some(c) => match acc.checked_add(c) {
                        Some(a) => {
                            proof {
                                assert(a == total) by (nonlinear_arith)
                                    requires
                                        total == acc_math + (x as nat) * pow,
                                        acc == acc_math,
                                        c == (x as usize) * mul,
                                        mul == pow,
                                        a == acc + c,
                                ;
                            }
                            n = a;
                        },
                        None => {
                            proof {
                                assert(total > usize::MAX) by (nonlinear_arith)
                                    requires
                                        total == acc_math + (x as nat) * pow,
                                        acc == acc_math,
                                        c == (x as usize) * mul,
                                        mul == pow,
                                        acc + c > usize::MAX,
                                ;
                            }
                            return Err(DecodeError::TruncatedInput);
                        },
                    },
                    None => {
                        proof {
                            assert(total > usize::MAX) by (nonlinear_arith)
                                requires
                                    total == acc_math + (x as nat) * pow,
                                    (x as usize) * mul > usize::MAX,
                                    mul == pow,
                                    acc_math >= 0,
                            ;
                        }
                        return Err(DecodeError::TruncatedInput);
                    },
                }
            }
            if n <= (blen - end) / 2 {
                return Ok((n, end));
            } else {
                return Err(DecodeError::TruncatedInput);
            }
        } else {
            let xl = x - 128;
            let ghost acc_math_old = acc_math;
            let ghost pow_old = pow;
            proof {
                acc_math = acc_math + (xl as nat) * pow;
                pow = pow * 128;
            }
            if xl == 0 {
                proof {
                    assert(acc_math == acc_math_old) by (nonlinear_arith)
                        requires
                            acc_math == acc_math_old + (xl as nat) * pow_old,
                            xl == 0,
                    ;
                }
            } else {
                if mul_sat {
                    proof {
                        assert(acc_math > usize::MAX) by (nonlinear_arith)
                            requires
                                acc_math == acc_math_old + (xl as nat) * pow_old,
                                pow_old > usize::MAX,
                                xl >= 1,
                                acc_math_old >= 0,
                        ;
                    }
                    sat = true;
                } else if !sat {
                    match (xl as usize).checked_mul(mul) {
                        Some(c) => match acc.checked_add(c) {
                            Some(a) => {
                                proof {
                                    assert(a == acc_math) by (nonlinear_arith)
                                        requires
                                            acc_math == acc_math_old + (xl as nat) * pow_old,
                                            acc == acc_math_old,
                                            c == (xl as usize) * mul,
                                            mul == pow_old,
                                            a == acc + c,
                                    ;
                                }
                                acc = a;
                            },
                            None => {
                                proof {
                                    assert(acc_math > usize::MAX) by (nonlinear_arith)
                                        requires
                                            acc_math == acc_math_old + (xl as nat) * pow_old,
                                            acc == acc_math_old,
                                            c == (xl as usize) * mul,
                                            mul == pow_old,
                                            acc + c > usize::MAX,
                                    ;
                                }
                                sat = true;
                            },
                        },
                        None => {
                            proof {
                                assert(acc_math > usize::MAX) by (nonlinear_arith)
                                    requires
                                        acc_math == acc_math_old + (xl as nat) * pow_old,
                                        (xl as usize) * mul > usize::MAX,
                                        mul == pow_old,
                                        acc_math_old >= 0,
                                ;
                            }
                            sat = true;
                        },
                    }
                } else {
                    proof {
                        assert(acc_math > usize::MAX) by (nonlinear_arith)
                            requires
                                acc_math == acc_math_old + (xl as nat) * pow_old,
                                pow_old >= 0,
                                xl >= 0,
                                acc_math_old > usize::MAX,
                        ;
                    }
                }
            }
            if !mul_sat {
                match mul.checked_mul(128) {
                    Some(m2) => {
                        mul = m2;
                    },
                    None => {
                        proof {
                            assert(pow > usize::MAX) by (nonlinear_arith)
                                requires
                                    pow == pow_old * 128,
                                    mul == pow_old,
                                    mul * 128 > usize::MAX,
                            ;
                        }
                        mul_sat = true;
                    },
                }
            } else {
                proof {
                    assert(pow > usize::MAX) by (nonlinear_arith)
                        requires
                            pow == pow_old * 128,
                            pow_old > usize::MAX,
                    ;
                }
            }
            proof {
                let inner = dec_varint(b@, (cur + 1) as int);
                assert(dec_varint(b@, cur as int) == (match inner {
                    Ok((m, e)) => Ok::<(nat, int), DecodeError>(((x - 128) as nat + 128 * m, e)),
                    Err(e) => Err::<(nat, int), DecodeError>(e),
                }));
                if let Ok((m, e)) = inner {
                    assert(acc_math_old + ((xl as nat + 128 * m) * pow_old) == acc_math + m * pow)
                        by (nonlinear_arith)
                        requires
                            acc_math == acc_math_old + (xl as nat) * pow_old,
                            pow == pow_old * 128,
                    ;
                }
            }
            cur = cur + 1;
        }
    }
}

/// The two big-endian bytes of a UTF-16 code unit.
pub open spec fn be2(u: u16) -> Seq<u8> {
    seq![((u >> 8) & 0xff) as u8, (u & 0xff) as u8]
}

/// The code unit with the given big-endian bytes.
pub open spec fn u16_of_be(hi: u8, lo: u8) -> u16 {
    ((hi as u16) << 8) | (lo as u16)
}

/// Reassembling the big-endian bytes of a code unit gives it back.
pub proof fn lemma_be2_of(u: u16)
    ensures
        u16_of_be((((u >> 8) & 0xff) as u8), ((u & 0xff) as u8)) == u,
{
    assert(((((u >> 8) & 0xff) as u8 as u16) << 8) | ((u & 0xff) as u8 as u16) == u)
        by (bit_vector);
}

/// The UTF-16 body: each code unit as two big-endian bytes, in order.
pub open spec fn wire_utf16(s: Seq<u16>) -> Seq<u8>
    decreases s.len(),
{
    if s.len() == 0 {
        Seq::empty()
    } else {
        be2(s[0]) + wire_utf16(s.skip(1))
    }
}

/// The length and bytes of a UTF-16 body, unit by unit.
pub proof fn lemma_wire_utf16_index(s: Seq<u16>)
    ensures
        wire_utf16(s).len() == 2 * s.len(),
        forall|i: int|
            0 <= i < s.len() ==> wire_utf16(s)[2 * i] == (((#[trigger] s[i]) >> 8) & 0xff) as u8
                && wire_utf16(s)[2 * i + 1] == (s[i] & 0xff) as u8,
    decreases s.len(),
{
    if s.len() > 0 {
        lemma_wire_utf16_index(s.skip(1));
        assert forall|i: int| 0 <= i < s.len() implies wire_utf16(s)[2 * i] == (((#[trigger] s[i])
            >> 8) & 0xff) as u8 && wire_utf16(s)[2 * i + 1] == (s[i] & 0xff) as u8 by {
            if i > 0 {
                assert(s.skip(1)[i - 1] == s[i]);
                assert(wire_utf16(s)[2 * i] == wire_utf16(s.skip(1))[2 * (i - 1)]);
                assert(wire_utf16(s)[2 * i + 1] == wire_utf16(s.skip(1))[2 * (i - 1) + 1]);
            }
        }
    }
}

/// Appending one code unit appends its two bytes.
pub proof fn lemma_wire_utf16_push(s: Seq<u16>, u: u16)
    ensures
        wire_utf16(s.push(u)) == wire_utf16(s) + be2(u),
    decreases s.len(),
{
    if s.len() == 0 {
        assert(s.push(u).skip(1) =~= Seq::<u16>::empty());
        assert(s =~= Seq::<u16>::empty());
        assert(wire_utf16(Seq::<u16>::empty()) == Seq::<u8>::empty());
        assert(s.push(u)[0] == u);
        assert(wire_utf16(s.push(u)) == be2(u) + Seq::<u8>::empty());
        assert(be2(u) + Seq::<u8>::empty() =~= Seq::<u8>::empty() + be2(u));
    } else {
        assert(s.push(u).skip(1) =~= s.skip(1).push(u));
        lemma_wire_utf16_push(s.skip(1), u);
        assert(s.push(u)[0] == s[0]);
        assert(wire_utf16(s.push(u)) == be2(s[0]) + wire_utf16(s.skip(1).push(u)));
        assert(be2(s[0]) + (wire_utf16(s.skip(1)) + be2(u)) =~= (be2(s[0]) + wire_utf16(s.skip(1)))
            + be2(u));
    }
}

/// The code units found at `p`, read as big-endian pairs.
pub open spec fn dec_utf16_units(b: Seq<u8>, p: int, n: nat) -> Seq<u16> {
    Seq::new(n, |i: int| u16_of_be(b[p + 2 * i], b[p + 2 * i + 1]))
}

/// A leading surrogate, the first half of a surrogate pair.
pub open spec fn is_high_surrogate(u: u16) -> bool {
    0xd800 <= u < 0xdc00
}

/// A trailing surrogate, the second half of a surrogate pair.
pub open spec fn is_low_surrogate(u: u16) -> bool {
    0xdc00 <= u < 0xe000
}

/// Valid UTF-16: every leading surrogate is followed by a trailing one,
/// and no trailing surrogate stands alone.
pub open spec fn valid_utf16(s: Seq<u16>) -> bool
    decreases s.len(),
{
    if s.len() == 0 {
        true
    } else if is_high_surrogate(s[0]) {
        s.len() >= 2 && is_low_surrogate(s[1]) && valid_utf16(s.skip(2))
    } else if is_low_surrogate(s[0]) {
        false
    } else {
        valid_utf16(s.skip(1))
    }
}

/// Check whether a sequence of code units forms valid UTF-16 text.
pub fn utf16_ok(units: &Vec<u16>) -> (r: bool)
    ensures
        r == valid_utf16(units@),
{
    let n = units.len();
    let mut i: usize = 0;
    proof {
        assert(units@.skip(0) =~= units@);
    }
    while i < n
        invariant
            i <= n,
            n == units@.len(),
            valid_utf16(units@) == valid_utf16(units@.skip(i as int)),
        decreases n - i,
    {
        let ghost rest = units@.skip(i as int);
        let u = units[i];
        proof {
            assert(rest[0] == units@[i as int]);
        }
        if u >= 0xd800 && u < 0xdc00 {
            if i + 1 < n && units[i + 1] >= 0xdc00 && units[i + 1] < 0xe000 {
                proof {
                    assert(rest[1] == units@[i as int + 1]);
                    assert(rest.skip(2) =~= units@.skip(i as int + 2));
                }
                i = i + 2;
            } else {
                proof {
                    if i + 1 < n {
                        assert(rest[1] == units@[i as int + 1]);
                    }
                    assert(!valid_utf16(rest));
                }
                return false;
            }
        } else if u >= 0xdc00 && u < 0xe000 {
            proof {
                assert(!valid_utf16(rest));
            }
            return false;
        } else {
            proof {
                assert(rest.skip(1) =~= units@.skip(i as int + 1));
            }
            i = i + 1;
        }
    }
    proof {
        assert(units@.skip(n as int) =~= Seq::<u16>::empty());
    }
    true
}

/// Count/length agreement: the count prefix written for a sequence is
/// exactly the sequence's length, derived from the content and never
/// stored separately.
pub proof fn lemma_count_prefix_is_len_u8<T: Codec>(s: Seq<T::V>)
    requires
        s.len() <= 255,
    ensures
        u8::dec(wire_counted_u8::<T>(s), 0) == Ok::<(u8, int), DecodeError>((s.len() as u8, 1)),
{
    let w = wire_counted_u8::<T>(s);
    let cw = u8::wire(s.len() as u8);
    assert(w.subrange(0, (cw.len() + wire_elems::<T>(s).len()) as int) =~= w);
    lemma_subrange_split(w, 0, cw, wire_elems::<T>(s));
    u8::lemma_dec_wire(s.len() as u8, w, 0);
}

/// Count/length agreement for a two-byte count prefix.
pub proof fn lemma_count_prefix_is_len_u16<T: Codec>(s: Seq<T::V>)
    requires
        s.len() <= 65535,
    ensures
        u16::dec(wire_counted_u16::<T>(s), 0) == Ok::<(u16, int), DecodeError>(
            (s.len() as u16, 2),
        ),
{
    let w = wire_counted_u16::<T>(s);
    let cw = u16::wire(s.len() as u16);
    assert(w.subrange(0, (cw.len() + wire_elems::<T>(s).len()) as int) =~= w);
    lemma_subrange_split(w, 0, cw, wire_elems::<T>(s));
    u16::lemma_dec_wire(s.len() as u16, w, 0);
}

/// Count/length agreement for a four-byte signed count prefix.
pub proof fn lemma_count_prefix_is_len_i32<T: Codec>(s: Seq<T::V>)
    requires
        s.len() <= 0x7fff_ffff,
    ensures
        i32::dec(wire_counted_i32::<T>(s), 0) == Ok::<(i32, int), DecodeError>(
            (s.len() as i32, 4),
        ),
{
    let w = wire_counted_i32::<T>(s);
    let cw = i32::wire(s.len() as i32);
    assert(w.subrange(0, (cw.len() + wire_elems::<T>(s).len()) as int) =~= w);
    lemma_subrange_split(w, 0, cw, wire_elems::<T>(s));
    i32::lemma_dec_wire(s.len() as i32, w, 0);
}


} // verus!
