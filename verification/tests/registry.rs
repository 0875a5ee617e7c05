//! The event-code space and the registry table.

use netcodec::event_code::NetworkEvent;
use netcodec::events::{entry, resolve, GameMode, PayloadKind};

#[test]
fn code_lookup_both_ways() {
    assert_eq!(NetworkEvent::GameLostBaseDestroyed.code(), 42);
    assert_eq!(NetworkEvent::GameWonBaseDestroyed.code(), 41);
    assert_eq!(NetworkEvent::CosmeticAction.code(), 172);
    assert_eq!(NetworkEvent::from_code(42), Some(NetworkEvent::GameLostBaseDestroyed));
    assert_eq!(NetworkEvent::from_code(0), Some(NetworkEvent::OnFailedToConnectToMasterServer));
}

#[test]
fn retired_codes_fail_cleanly() {
    // The gaps in the table: retired or never-assigned codes.
    for code in [34u8, 62, 92, 96, 133, 139, 149, 158, 169, 173, 255] {
        assert_eq!(NetworkEvent::from_code(code), None);
    }
}

#[test]
fn code_round_trips_for_every_event() {
    // Spot-check injectivity over a spread of the table.
    for code in 0u8..=255 {
        if let Some(e) = NetworkEvent::from_code(code) {
            assert_eq!(e.code(), code);
        }
    }
}

#[test]
fn resolve_respects_mode_sets() {
    // Battle-arena-only events.
    assert_eq!(resolve(19, GameMode::BattleArena), Some(PayloadKind::GetTeamBase));
    assert_eq!(resolve(19, GameMode::Pit), None);
    // An event registered for every mode.
    for mode in [
        GameMode::BattleArena,
        GameMode::TeamDeathMatch,
        GameMode::Elimination,
        GameMode::Pit,
    ] {
        assert_eq!(resolve(26, mode), Some(PayloadKind::GameStart));
    }
    // The mode-settings event: three modes share one schema, and the
    // deathmatch scoreboard event is deathmatch-only.
    assert_eq!(resolve(122, GameMode::BattleArena), Some(PayloadKind::UpdateGameModeSettings));
    assert_eq!(resolve(122, GameMode::Elimination), Some(PayloadKind::UpdateGameModeSettings));
    assert_eq!(resolve(122, GameMode::Pit), Some(PayloadKind::UpdateGameModeSettings));
    assert_eq!(resolve(123, GameMode::TeamDeathMatch), Some(PayloadKind::UpdateTeamDeathMatch));
    assert_eq!(resolve(123, GameMode::BattleArena), None);
}

#[test]
fn one_code_one_schema() {
    // Every registered code resolves to the same kind under every mode
    // that admits it.
    let modes = [
        GameMode::BattleArena,
        GameMode::TeamDeathMatch,
        GameMode::Elimination,
        GameMode::Pit,
    ];
    for code in 0u8..=255 {
        let mut seen: Option<PayloadKind> = None;
        for mode in modes {
            if let Some(kind) = resolve(code, mode) {
                if let Some(prev) = seen {
                    assert_eq!(prev, kind);
                }
                seen = Some(kind);
            }
        }
        assert_eq!(seen.is_some(), entry(code).is_some());
    }
}

#[test]
fn shared_schemas() {
    // Distinct kill notifications share the kill schema.
    assert_eq!(resolve(70, GameMode::Pit), Some(PayloadKind::Kill));
    assert_eq!(resolve(97, GameMode::Pit), Some(PayloadKind::Kill));
    assert_eq!(resolve(127, GameMode::Pit), Some(PayloadKind::Kill));
    // The capture lifecycle events all carry the base-state schema.
    for code in [47u8, 48, 50, 51, 52, 53] {
        assert_eq!(resolve(code, GameMode::BattleArena), Some(PayloadKind::TeamBaseState));
        assert_eq!(resolve(code, GameMode::Elimination), None);
    }
}
