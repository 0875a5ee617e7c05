//! End-to-end decode scenarios: conditional fields, unregistered events,
//! truncated sequences, and trailing bytes.

use netcodec::error::DecodeError;
use netcodec::events::ingame::GameStart;
use netcodec::events::{decode_event, decode_event_exact, resolve, GameMode, Payload, PayloadKind};
use netcodec::types::{CubeHistoryEventType, CubeStatus};
use netcodec::wire::Codec;

#[test]
fn cube_status_heal_carries_damage() {
    // Tag 2 (heal), then four little-endian bytes of the damage amount.
    let bytes = [0x02u8, 0x0a, 0x00, 0x00, 0x00];
    let (v, used) = CubeStatus::decode(&bytes, 0).unwrap();
    assert_eq!(used, 5);
    assert_eq!(v.ty(), CubeHistoryEventType::Heal);
    assert_eq!(v.damage(), Some(10));
    assert_eq!(v, CubeStatus::Heal { damage: 10 });
}

#[test]
fn cube_status_destroy_consumes_one_byte() {
    // Tag 1 (destroy) with no trailing bytes at all: the record is
    // complete after exactly one byte.
    let bytes = [0x01u8];
    let (v, used) = CubeStatus::decode(&bytes, 0).unwrap();
    assert_eq!(used, 1);
    assert_eq!(v.ty(), CubeHistoryEventType::Destroy);
    assert_eq!(v.damage(), None);
}

#[test]
fn cube_status_heal_truncated() {
    // A heal tag demands four more bytes; three are not enough.
    let bytes = [0x02u8, 0x0a, 0x00, 0x00];
    assert_eq!(CubeStatus::decode(&bytes, 0), Err(DecodeError::TruncatedInput));
}

#[test]
fn unregistered_event_in_mode() {
    // Code 41 is registered only under battle arena; any other mode must
    // refuse it outright instead of decoding under a guessed schema.
    let bytes = [0x01u8, 0x00];
    for mode in [GameMode::TeamDeathMatch, GameMode::Elimination, GameMode::Pit] {
        assert_eq!(resolve(41, mode), None);
        assert_eq!(
            decode_event(41, mode, &bytes),
            Err(DecodeError::UnregisteredEvent)
        );
    }
    assert_eq!(resolve(41, GameMode::BattleArena), Some(PayloadKind::GameLoseWin));
}

#[test]
fn truncated_sequence() {
    // A count prefix of 5 ids followed by only 3 ids' worth of bytes.
    let mut bytes = vec![0x05u8, 0x00, 0x00, 0x00];
    bytes.extend_from_slice(&[0u8; 12]);
    // Code 118 decodes a count-prefixed id list in every mode.
    assert_eq!(
        decode_event(118, GameMode::Pit, &bytes),
        Err(DecodeError::TruncatedInput)
    );
}

#[test]
fn trailing_bytes_are_observable() {
    // Code 26 (game started) carries exactly one byte.
    let bytes = [0x01u8, 0xff];
    let (p, used) = decode_event(26, GameMode::BattleArena, &bytes).unwrap();
    assert_eq!(used, 1);
    assert_eq!(p, Payload::GameStart(GameStart { is_reconnecting: 1 }));
    assert_eq!(
        decode_event_exact(26, GameMode::BattleArena, &bytes),
        Err(DecodeError::TrailingBytes)
    );
    assert_eq!(
        decode_event_exact(26, GameMode::BattleArena, &bytes[..1]),
        Ok(Payload::GameStart(GameStart { is_reconnecting: 1 }))
    );
}
