//! Binary protocol codec for a real-time multiplayer game's network layer.
//!
//! The crate has three parts:
//!
//! * a primitive codec layer ([`wire`], [`types`]): byte-exact encode/decode
//!   rules for the scalar and compound wire types every payload is built
//!   from (little-endian integers, fixed-point quantized vectors and
//!   quaternions, bit-packed flag words, count-prefixed sequences,
//!   discriminant-conditional fields, and length-prefixed UTF-16 strings);
//! * a closed event-code space ([`event_code`]) and a typed event registry
//!   ([`events`]) that binds each `(event code, game mode)` pair to at most
//!   one payload schema and decodes raw bytes under exactly that schema;
//! * the payload catalog ([`events::ingame`], [`events::loading`],
//!   [`events::sync`], [`machine_motion`]) and the battle-entry parameter
//!   table ([`photon`]).
//!
//! Every decoder and encoder carries a contract tying it to a spec-level
//! description of the wire format, and each wire type proves that decoding
//! its own encoding returns the original value.

pub mod error;
pub mod event_code;
pub mod events;
pub mod machine_motion;
pub mod photon;
pub mod types;
pub mod wire;
