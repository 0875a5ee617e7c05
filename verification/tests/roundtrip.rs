//! Round trips through encode-then-decode, on primitives, strings and
//! whole events.

use netcodec::events::ingame::{
    Kill, MultipleFireMisses, PackedInputData, JUMP, STRAFE_RIGHT,
};
use netcodec::events::{decode_event, encode_event, GameMode, Payload};
use netcodec::types::{
    BinaryWriterString, ByteFloat, CompressedQuat, CompressedVec3, FloatBits, ItemCategory,
    ItemDescriptor, ItemSize, TargetType,
};
use netcodec::wire::{encode_to_vec, Codec};

#[test]
fn compressed_vec3_round_trip() {
    let v: CompressedVec3<768> = CompressedVec3 { x: -32768, y: 32767, z: 12345 };
    let bytes = encode_to_vec(&v).unwrap();
    assert_eq!(bytes, vec![0x00, 0x80, 0xff, 0x7f, 0x39, 0x30]);
    let (back, used) = CompressedVec3::<768>::decode(&bytes, 0).unwrap();
    assert_eq!(used, 6);
    assert_eq!(back, v);
}

#[test]
fn compressed_quat_round_trip() {
    let v: CompressedQuat<4> = CompressedQuat { x: -1, y: 0, z: 1 };
    let bytes = encode_to_vec(&v).unwrap();
    let (back, used) = CompressedQuat::<4>::decode(&bytes, 0).unwrap();
    assert_eq!(used, 6);
    assert_eq!(back, v);
}

#[test]
fn packed_flags_keep_unknown_bits() {
    // Every bit set, including ones no flag names: the raw pattern must
    // survive a round trip untouched.
    let v = PackedInputData::from_bits_retain(0xffff);
    let bytes = encode_to_vec(&v).unwrap();
    assert_eq!(bytes, vec![0xff, 0xff]);
    let (back, _) = PackedInputData::decode(&bytes, 0).unwrap();
    assert_eq!(back.bits(), 0xffff);
    let w = PackedInputData::from_bits_retain(JUMP | STRAFE_RIGHT);
    assert!(w.contains(JUMP));
    assert!(!w.contains(1 << 2));
    let bytes = encode_to_vec(&w).unwrap();
    assert_eq!(bytes, vec![0x02, 0x04]);
    let (back, _) = PackedInputData::decode(&bytes, 0).unwrap();
    assert_eq!(back, w);
}

#[test]
fn byte_float_round_trip() {
    for raw in [0u8, 1, 127, 255] {
        let v: ByteFloat<4> = ByteFloat(raw);
        let bytes = encode_to_vec(&v).unwrap();
        assert_eq!(bytes, vec![raw]);
        let (back, _) = ByteFloat::<4>::decode(&bytes, 0).unwrap();
        assert_eq!(back, v);
    }
}

#[test]
fn float_bits_round_trip() {
    let v = FloatBits(1.5f32.to_bits());
    let bytes = encode_to_vec(&v).unwrap();
    assert_eq!(bytes, 1.5f32.to_le_bytes().to_vec());
    let (back, _) = FloatBits::decode(&bytes, 0).unwrap();
    assert_eq!(f32::from_bits(back.0), 1.5f32);
}

#[test]
fn string_round_trip_with_surrogate_pair() {
    // A string whose last character needs two UTF-16 code units.
    let text = "héllo\u{1F600}";
    let units: Vec<u16> = text.encode_utf16().collect();
    assert_eq!(units.len(), 7); // five characters, one of them counted twice
    let s = BinaryWriterString(units.clone());
    let bytes = encode_to_vec(&s).unwrap();
    // One-byte varint of the unit count, then two bytes per unit.
    assert_eq!(bytes.len(), 1 + 2 * units.len());
    assert_eq!(bytes[0], units.len() as u8);
    let (back, used) = BinaryWriterString::decode(&bytes, 0).unwrap();
    assert_eq!(used, bytes.len());
    assert_eq!(back.0, units);
    assert_eq!(String::from_utf16(&back.0).unwrap(), text);
}

#[test]
fn string_varint_prefix_two_bytes() {
    // 300 units: the count takes two varint bytes, 0xac then 0x02.
    let units: Vec<u16> = std::iter::repeat(0x0041u16).take(300).collect();
    let s = BinaryWriterString(units.clone());
    let bytes = encode_to_vec(&s).unwrap();
    assert_eq!(bytes[0], 0xac);
    assert_eq!(bytes[1], 0x02);
    assert_eq!(bytes.len(), 2 + 600);
    let (back, used) = BinaryWriterString::decode(&bytes, 0).unwrap();
    assert_eq!(used, bytes.len());
    assert_eq!(back.0, units);
}

#[test]
fn string_accepts_redundant_varint_groups() {
    // A zero-valued continuation group before the final byte still reads
    // as length one.
    let bytes = [0x81u8, 0x00, 0x00, 0x41];
    let (back, used) = BinaryWriterString::decode(&bytes, 0).unwrap();
    assert_eq!(used, 4);
    assert_eq!(back.0, vec![0x0041]);
}

#[test]
fn event_round_trip_kill() {
    let payload = Payload::Kill(Kill { killee_player_id: 0x01020304, killer_player_id: 5 });
    let mut bytes: Vec<u8> = Vec::new();
    encode_event(&payload, &mut bytes).unwrap();
    assert_eq!(bytes, vec![0x04, 0x03, 0x02, 0x01, 0x05]);
    // Code 70 resolves to the kill schema in every mode.
    let (back, used) = decode_event(70, GameMode::Elimination, &bytes).unwrap();
    assert_eq!(used, 5);
    assert_eq!(back, payload);
}

#[test]
fn event_round_trip_split_count() {
    // The miss burst writes its count ahead of the shooter id while the
    // entries follow it.
    let payload = Payload::MultipleFireMisses(MultipleFireMisses {
        shooting_machine_id: -2,
        hits: vec![],
        timestamp: FloatBits(0),
        desc: ItemDescriptor { category: ItemCategory::Laser, size: ItemSize::T1 },
    });
    let mut bytes: Vec<u8> = Vec::new();
    encode_event(&payload, &mut bytes).unwrap();
    assert_eq!(bytes[0], 0); // the count, derived from the empty entry list
    assert_eq!(&bytes[1..3], &[0xfe, 0xff]); // the shooter id
    assert_eq!(&bytes[7..9], &[100, 0x00]); // the item category, 100 = laser
    let (back, used) = decode_event(36, GameMode::Pit, &bytes).unwrap();
    assert_eq!(used, bytes.len());
    assert_eq!(back, payload);
}

#[test]
fn scalar_target_type_round_trip() {
    for t in [
        TargetType::Player,
        TargetType::Environment,
        TargetType::TeamBase,
        TargetType::FusionShield,
        TargetType::EqualizerCrystal,
        TargetType::CapturePoint,
    ] {
        let bytes = encode_to_vec(&t).unwrap();
        assert_eq!(bytes, vec![t.repr()]);
        let (back, _) = TargetType::decode(&bytes, 0).unwrap();
        assert_eq!(back, t);
    }
}
