//! Exact wire layouts for composed payloads, and the battle-entry
//! parameter table.

use netcodec::events::sync::{GetCapturePoints, InitialiseGameStats, SyncMachineCubes};
use netcodec::events::{HealedCubes, CommandOnly, decode_event, GameMode, Payload};
use netcodec::error::DecodeError;
use netcodec::photon::enter_battle::{
    BattleParametersData, ClanInfo, EnterBattle, GameModeKey, GameModeType, NetworkConfig,
    ParamValue, PlayerData, GAME_MODE_KEY, HOST_IP_KEY, PLAYERS_KEY,
};
use netcodec::events::ingame::UpdateVotingAfterBattle;
use netcodec::machine_motion::{MachineMotion, RigidBodyState};
use netcodec::types::{
    BinaryWriterString, Byte3, CompressedQuat, CubeState, CubeStatus, DoubleBits, FloatBits,
    HitCubeInfo, IngamePlayerStats, IngameStat, IngameStatId, PosQuatPair, TargetType, VoteType,
};
use netcodec::wire::{encode_to_vec, Codec};

#[test]
fn healed_cubes_layout() {
    let v = HealedCubes {
        healed_machine: 7,
        type_performing_healing: TargetType::Player,
        target_type: TargetType::TeamBase,
        hit_cubes: vec![HitCubeInfo { pos: Byte3 { x: 1, y: 2, z: 3 }, damage: -1 }],
    };
    let bytes = encode_to_vec(&v).unwrap();
    assert_eq!(
        bytes,
        vec![
            0x07, 0x00, // healed machine
            0x00, // healer target type
            0x02, // healed target type
            0x01, 0x00, // cube count, derived from the list
            0x01, 0x02, 0x03, // cube position
            0xff, 0xff, 0xff, 0xff, // damage
        ]
    );
    let (back, used) = HealedCubes::decode(&bytes, 0).unwrap();
    assert_eq!(used, bytes.len());
    assert_eq!(back, v);
}

#[test]
fn nested_counted_blocks() {
    // A roster of two players, each with their own counted stat run.
    let v = InitialiseGameStats {
        stats: vec![
            IngamePlayerStats {
                player_name: 1,
                stats: vec![IngameStat { id: IngameStatId::Kill, amount: 2, score: 30 }],
            },
            IngamePlayerStats { player_name: 2, stats: vec![] },
        ],
    };
    let bytes = encode_to_vec(&v).unwrap();
    assert_eq!(bytes[0], 2); // outer count
    assert_eq!(bytes[1], 1); // first player
    assert_eq!(bytes[2], 1); // first player's stat count
    assert_eq!(bytes[3], 4); // the kill stat id
    let (back, used) = InitialiseGameStats::decode(&bytes, 0).unwrap();
    assert_eq!(used, bytes.len());
    assert_eq!(back, v);
}

#[test]
fn sync_machine_cubes_round_trip() {
    let v = SyncMachineCubes {
        machine_id: 9,
        events: vec![
            CubeState { loc: Byte3 { x: 0, y: 0, z: 0 }, status: CubeStatus::Destroy },
            CubeState { loc: Byte3 { x: 1, y: 1, z: 1 }, status: CubeStatus::Heal { damage: 4 } },
        ],
    };
    let bytes = encode_to_vec(&v).unwrap();
    // Machine id, four-byte count, then two records of different lengths.
    assert_eq!(bytes.len(), 2 + 4 + 4 + 8);
    let (back, used) = SyncMachineCubes::decode(&bytes, 0).unwrap();
    assert_eq!(used, bytes.len());
    assert_eq!(back, v);
}

#[test]
fn capture_points_are_exactly_three() {
    // Fifteen bytes per point, three points, no count prefix.
    let bytes = vec![0u8; 45];
    let (v, used) = GetCapturePoints::decode(&bytes, 0).unwrap();
    assert_eq!(used, 45);
    assert_eq!(v.points.len(), 3);
    assert_eq!(
        GetCapturePoints::decode(&bytes[..44], 0),
        Err(DecodeError::TruncatedInput)
    );
}

#[test]
fn command_only_event_is_empty() {
    let mut bytes: Vec<u8> = Vec::new();
    netcodec::events::encode_event(&Payload::CommandOnly(CommandOnly), &mut bytes).unwrap();
    assert_eq!(bytes, Vec::<u8>::new());
    let (p, used) = decode_event(146, GameMode::Elimination, &bytes).unwrap();
    assert_eq!(used, 0);
    assert_eq!(p, Payload::CommandOnly(CommandOnly));
}

fn config() -> NetworkConfig {
    NetworkConfig {
        network_channel_type: "ReliableFragmented".to_string(),
        max_sent_message_queue_size: 150,
        is_acks_long: true,
        network_drop_threshold: 30,
        packet_size: 1470,
        max_combined_reliable_message_count: 10,
        max_combined_reliable_message_size: 100,
        min_update_timeout: 10,
        max_delay: 250,
        overflow_threshold: 90,
        max_packet_size: 1500,
        resend_delay_base: DoubleBits(1.0f64.to_bits()),
        resend_delay_rtt_mult: DoubleBits(2.5f64.to_bits()),
        network_peer_update_interval: 50,
        max_milliseconds_delay_for_being_disconnected: 9000,
    }
}

#[test]
fn network_config_table_entries() {
    let t = match config().as_transmissible() {
        ParamValue::Table(t) => t,
        other => panic!("expected a table, got {:?}", other),
    };
    assert_eq!(t.len(), 15);
    assert_eq!(
        t[0],
        ("NetworkChannelType", ParamValue::Str("ReliableFragmented".to_string()))
    );
    assert_eq!(t[1], ("MaxSentMessageQueueSize", ParamValue::Long(150)));
    assert_eq!(t[2], ("IsAcksLong", ParamValue::Long(1)));
    assert_eq!(t[8], ("MaxDelay", ParamValue::Long(250)));
    assert_eq!(t[11], ("ResendDelayBase", ParamValue::Double(DoubleBits(1.0f64.to_bits()))));
    assert_eq!(t[13], ("NetworkPeerUpdateInterval", ParamValue::DoubleOfLong(50)));
}

#[test]
fn player_data_optional_entries() {
    let player = PlayerData {
        name: "ada".to_string(),
        display_name: "Ada".to_string(),
        robot_name: "bot".to_string(),
        cube_map: vec![1, 2],
        color_map: vec![3],
        spawn_effect: None,
        death_effect: Some("boom".to_string()),
        group_id: None,
        team: 1,
        has_premium: false,
        weapon_order: vec![10, 20],
        robot_unique_id: "r1".to_string(),
        cpu: 1000,
        non_custom_avatar_id: Some(7),
        mastery_level: 3,
        tier: 4,
        player_rank: 5,
        weapon_ranks: vec![(10, 2)],
        is_ai: false,
        clan_info: Some(ClanInfo {
            name: "clan".to_string(),
            use_custom_avatar: true,
            default_avatar_id: 9,
        }),
    };
    let t = match player.as_transmissible() {
        ParamValue::Table(t) => t,
        other => panic!("expected a table, got {:?}", other),
    };
    // 16 fixed entries, death effect, avatar id, three clan entries.
    assert_eq!(t.len(), 16 + 1 + 1 + 3);
    assert_eq!(t[0], ("name", ParamValue::Str("ada".to_string())));
    assert_eq!(t[10], ("useCustomAvatar", ParamValue::Bool(false)));
    assert_eq!(t[16], ("deathEffect", ParamValue::Str("boom".to_string())));
    assert_eq!(t[17], ("avatarId", ParamValue::Int(7)));
    assert_eq!(t[18], ("clanName", ParamValue::Str("clan".to_string())));
    assert_eq!(t[20], ("clanDefaultAvatarID", ParamValue::Int(9)));
}

#[test]
fn enter_battle_table_shape() {
    let battle = EnterBattle {
        params: BattleParametersData {
            host_ip: "203.0.113.9".to_string(),
            host_port: 5055,
            map_name: "canyon".to_string(),
            game_mode: GameModeKey {
                ty: GameModeType::TeamDeathmatch,
                is_ranked: true,
                is_custom: false,
            },
            network_config: config(),
            game_guid: "battle-0001".to_string(),
            map_visibility: None,
            is_autoheal: false,
        },
        players: vec![],
    };
    let table = battle.as_param_table();
    assert_eq!(table.entries.len(), 9);
    assert_eq!(table.entries[0].0, HOST_IP_KEY);
    assert_eq!(table.entries[3], (GAME_MODE_KEY, ParamValue::Int(5)));
    let last = &table.entries[8];
    assert_eq!(last.0, PLAYERS_KEY);
    match &last.1 {
        ParamValue::Arr(items) => assert_eq!(items.len(), 0),
        other => panic!("expected an array, got {:?}", other),
    }
}

#[test]
fn machine_motion_round_trip() {
    let v = MachineMotion {
        last_sent_seconds_a: FloatBits(0.25f32.to_bits()),
        last_sent_seconds_b: DoubleBits(0.5f64.to_bits()),
        timestamp: FloatBits(1.0f32.to_bits()),
        player_id: 3,
        target_point: netcodec::types::CompressedVec3 { x: 1, y: -1, z: 0 },
        rb_state: RigidBodyState {
            rb_pos_rot: PosQuatPair {
                pos: netcodec::types::CompressedVec3 { x: 5, y: 6, z: 7 },
                rot: CompressedQuat { x: 0, y: 0, z: 0 },
            },
            angular_velocity: netcodec::types::CompressedVec3 { x: 0, y: 0, z: 0 },
            center_of_mass: netcodec::types::CompressedVec3 { x: 2, y: 2, z: 2 },
        },
    };
    let bytes = encode_to_vec(&v).unwrap();
    // Two floats (4 + 8), a float, a byte, a quantized target point,
    // and the rigid body's pose pair plus two more quantized triples.
    assert_eq!(bytes.len(), 4 + 8 + 4 + 1 + 6 + 24);
    let (back, used) = MachineMotion::decode(&bytes, 0).unwrap();
    assert_eq!(used, bytes.len());
    assert_eq!(back, v);
}

#[test]
fn string_payload_round_trip() {
    let v = UpdateVotingAfterBattle {
        player_name: BinaryWriterString("nörbi".encode_utf16().collect()),
        amount: 2,
        vote_type: VoteType::BestLooking,
    };
    let bytes = encode_to_vec(&v).unwrap();
    // Code 171 resolves to this schema in every mode.
    let (p, used) = decode_event(171, GameMode::TeamDeathMatch, &bytes).unwrap();
    assert_eq!(used, bytes.len());
    assert_eq!(p, Payload::UpdateVotingAfterBattle(v));
}
