//! Error kinds for a single decode or encode call.
//!
//! Every failure is fatal to the one call that raised it and never to the
//! process: decoders return these values instead of panicking, and no
//! partial result is ever substituted for a failed decode.

use vstd::prelude::*;

verus! {

/// Why one decode call failed.
#[derive(Debug, Clone, Copy, PartialEq, Eq)]
pub enum DecodeError {
    /// The `(event code, game mode)` pair has no registered payload type.
    UnregisteredEvent,
    /// Fewer bytes remain than a field or count-prefixed sequence needs.
    TruncatedInput,
    /// A signed count-prefix field decoded to a negative value.
    NegativeCount,
    /// An integer did not match any declared enum value.
    InvalidEnumValue,
    /// UTF-16 code units did not form valid text.
    InvalidStringEncoding,
    /// Bytes remained after the payload's declared fields were consumed.
    TrailingBytes,
}

/// Why one encode call failed.
#[derive(Debug, Clone, Copy, PartialEq, Eq)]
pub enum EncodeError {
    /// A sequence is longer than its count-prefix field can represent.
    LengthOverflow,
    /// A string value holds UTF-16 code units that do not form valid text.
    InvalidStringData,
    /// A discriminant-conditional field was present or absent against its
    /// tag.
    TagMismatch,
}

} // verus!
