//! Each error kind has an input that produces it, and no input is ever
//! recovered from silently.

use netcodec::error::{DecodeError, EncodeError};
use netcodec::events::ingame::{MultiPlayerInputChanged, PackedInputData, PlayerIdAndInputData};
use netcodec::events::loading::PlayerIDs;
use netcodec::events::sync::UpdateTeamDeathMatch;
use netcodec::events::{decode_event, GameMode};
use netcodec::types::{
    BinaryWriterString, GameEndReason, GameServerErrorCodes, StringCode,
};
use netcodec::wire::{encode_to_vec, Codec};

#[test]
fn unregistered_event() {
    // Code 34 has no registration at all.
    assert_eq!(
        decode_event(34, GameMode::BattleArena, &[]),
        Err(DecodeError::UnregisteredEvent)
    );
}

#[test]
fn truncated_scalar() {
    let bytes = [0x01u8];
    assert_eq!(u32::decode(&bytes, 0), Err(DecodeError::TruncatedInput));
    assert_eq!(u16::decode(&bytes, 1), Err(DecodeError::TruncatedInput));
}

#[test]
fn negative_count() {
    // A signed count prefix of -1.
    let bytes = [0xffu8, 0xff, 0xff, 0xff];
    assert_eq!(PlayerIDs::decode(&bytes, 0), Err(DecodeError::NegativeCount));
    assert_eq!(
        UpdateTeamDeathMatch::decode(&bytes, 0),
        Err(DecodeError::NegativeCount)
    );
}

#[test]
fn invalid_enum_value() {
    // 99 names no game-end reason.
    let bytes = [99u8];
    assert_eq!(GameEndReason::decode(&bytes, 0), Err(DecodeError::InvalidEnumValue));
    // 3 sits in a gap of the server code numbering.
    let bytes = [3u8, 0, 0, 0];
    assert_eq!(
        GameServerErrorCodes::decode(&bytes, 0),
        Err(DecodeError::InvalidEnumValue)
    );
}

#[test]
fn invalid_string_encoding() {
    // One unit that is a lone leading surrogate.
    let bytes = [0x01u8, 0xd8, 0x00];
    assert_eq!(
        BinaryWriterString::decode(&bytes, 0),
        Err(DecodeError::InvalidStringEncoding)
    );
    // A trailing surrogate with no leader before it.
    let bytes = [0x01u8, 0xdc, 0x00];
    assert_eq!(
        BinaryWriterString::decode(&bytes, 0),
        Err(DecodeError::InvalidStringEncoding)
    );
}

#[test]
fn string_truncated_body() {
    // Length 2 promised, one unit present.
    let bytes = [0x02u8, 0x00, 0x41];
    assert_eq!(
        BinaryWriterString::decode(&bytes, 0),
        Err(DecodeError::TruncatedInput)
    );
}

#[test]
fn string_huge_varint_is_truncated_input() {
    // A count far beyond the buffer, spread over many varint groups.
    let bytes = [0xffu8, 0xff, 0xff, 0xff, 0xff, 0xff, 0xff, 0xff, 0xff, 0x7f];
    assert_eq!(
        BinaryWriterString::decode(&bytes, 0),
        Err(DecodeError::TruncatedInput)
    );
}

#[test]
fn length_overflow_on_encode() {
    // 256 input records cannot be counted by a one-byte prefix.
    let changes: Vec<PlayerIdAndInputData> = (0..256)
        .map(|i| PlayerIdAndInputData {
            player_id: i as u8,
            input_data: PackedInputData::from_bits_retain(0),
        })
        .collect();
    let v = MultiPlayerInputChanged { changes };
    assert_eq!(encode_to_vec(&v), Err(EncodeError::LengthOverflow));
}

#[test]
fn invalid_string_data_on_encode() {
    let v = BinaryWriterString(vec![0xd800]);
    assert_eq!(encode_to_vec(&v), Err(EncodeError::InvalidStringData));
}

#[test]
fn tag_mismatch_on_encode() {
    // A custom message under a tag that denies one, and the reverse.
    let v = StringCode {
        ty: GameServerErrorCodes::StrErrTimedOut,
        custom: Some(BinaryWriterString(vec![0x41])),
    };
    assert_eq!(encode_to_vec(&v), Err(EncodeError::TagMismatch));
    let v = StringCode { ty: GameServerErrorCodes::StrErrCustomString, custom: None };
    assert_eq!(encode_to_vec(&v), Err(EncodeError::TagMismatch));
}

#[test]
fn string_code_conditional_round_trip() {
    let v = StringCode {
        ty: GameServerErrorCodes::StrErrCustomString,
        custom: Some(BinaryWriterString(vec![0x41, 0x42])),
    };
    let bytes = encode_to_vec(&v).unwrap();
    assert_eq!(bytes, vec![13, 0, 0, 0, 2, 0x00, 0x41, 0x00, 0x42]);
    let (back, used) = StringCode::decode(&bytes, 0).unwrap();
    assert_eq!(used, bytes.len());
    assert_eq!(back, v);

    // A plain code carries no message and consumes only its own bytes.
    let v = StringCode { ty: GameServerErrorCodes::StrErrTimedOut, custom: None };
    let bytes = encode_to_vec(&v).unwrap();
    assert_eq!(bytes, vec![14, 0, 0, 0]);
    let (back, used) = StringCode::decode(&bytes, 0).unwrap();
    assert_eq!(used, 4);
    assert_eq!(back, v);
}
