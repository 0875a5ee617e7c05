//! The event-code space: the closed, stable set of numeric event
//! identifiers.
//!
//! Codes are dictated by an external peer and never reassigned; the gaps
//! in the numbering belong to retired codes and stay reserved. Lookup by
//! name always succeeds; lookup by integer fails cleanly for a code not
//! in the table, so an unknown or future code can be reported instead of
//! crashing a decoder.

use vstd::prelude::*;

verus! {

/// A network event, one name for each stable wire code.
#[derive(Debug, Clone, Copy, PartialEq, Eq, Hash)]
pub enum NetworkEvent {
    OnFailedToConnectToMasterServer,
    OnConnectingToLobbyServer,
    OnConnectedToLobbyServer,
    OnDisconnectingFromLobbyServer,
    OnDisconnectedFromLobbyServer,
    OnConnectedToServer,
    OnFailedToConnectToServer,
    OnConnectionLost,
    OnDisconnectedFromServer,
    OnConnectedToGameServer,
    OnServerStarted,
    OnServerStopped,
    OnPlayerConnectedToServer,
    OnPlayerDisconnectedFromServer,
    RequestRespawnPoint,
    FreeSpawnPoint,
    RequestTeamBaseModel,
    RequestCapturePoints,
    RequestEqualizerModel,
    TeamBase,
    RegisterCapturePoints,
    RegisterEqualizer,
    FreeRespawnPoint,
    PlayerIDs,
    SyncMachineCubes,
    MachineDestroyed,
    GameStarted,
    OnPlayerInputChanged,
    OnServerReceivedInputChange,
    ClientUnregistered,
    OnAnotherClientDisconnected,
    OnClientReconnected,
    DamageCube,
    FireWeaponEffect,
    FireMiss,
    MultipleFireMisses,
    CurrentGameTime,
    EndGame,
    GameWon,
    GameLost,
    GameWonBaseDestroyed,
    GameLostBaseDestroyed,
    BuffTeamPlayers,
    PlayerThreateningBase,
    TimeToGameStart,
    SetRespawnWaitingTime,
    TeamBaseState,
    TeamBaseCaptureStart,
    TeamBaseCaptureReset,
    TeamBaseCaptureStop,
    TeamBaseSectionComplete,
    TeamBaseFinalSectionComplete,
    TeamBaseInitialise,
    GetClientPings,
    SetClientPing,
    WarnPlayer,
    EnemySpotted,
    RemoteEnemySpotted,
    AssistBonusRequest,
    TeamBaseContested,
    AcquireRemoteAI,
    KillBonusRequest,
    EACRegisterToken,
    HeallingAssistBonusRequest,
    ProtectTeamMateBonusRequest,
    DefendTheBaseBonusRequest,
    DestroyCubesBonusRequest,
    DestroyHealCubesPointsAwarded,
    ConfirmedKill,
    BonusesFlushDone,
    AlignmentRectifierStarted,
    HealCubesBonusRequest,
    SetShieldState,
    TeamBaseLowHealth,
    AwardTeamBaseProtoniumDestroyedRequest,
    InitialiseGameStats,
    UpdateGameStats,
    MapPingEvent,
    SurrenderRequest,
    HealSelf,
    HealSelfResponse,
    SurrenderVoteStarted,
    SurrenderVoteCast,
    CurrentSurrenderVotes,
    SurrenderAccepted,
    SurrenderDeclined,
    SetSurrenderTimes,
    SetFinalGameScore,
    PitLeaderBoardUpdate,
    PitModeState,
    ValidateGameGuid,
    GameGuidValidated,
    PlayerInsideBase,
    ConfirmedAssist,
    LockOnNotification,
    LockOnNotificationBroadcast,
    ShieldSpawned,
    SpawnShield,
    BroadcastOpenShield,
    OpenShield,
    BroadcastInvisible,
    MakeInvisible,
    BroadcastVisible,
    MakeVisible,
    BroadcastActivateTeleportEffect,
    ActivateTeleportEffect,
    BroadcastActivateReadyEffect,
    ActivateReadyEffect,
    BroadcastSpawnEmpLocator,
    SpawnEmpLocator,
    BroadcastSpawnEmpMachineEffect,
    SpawnEmpMachineEffect,
    WeaponSelect,
    BroadcastWeaponSelect,
    HostAIs,
    HealAlly,
    HealAllyResponse,
    SelfDestructClassicMode,
    GameModeSettings,
    TeamDeathMatchState,
    ClientDisconnecting,
    SendBonus,
    TestConnection,
    MachineDestroyedConfirmed,
    EnergyModuleActivated,
    BroadcastLoadingProgress,
    RequestLoadingProgressAllUsers,
    LoadingComplete,
    GameAborted,
    SendDamagedByEnemyShield,
    DamagedByEnemyShield,
    EqualizerNotification,
    CapturePointProgress,
    CapturePointNotification,
    RadarModuleActivated,
    RemoteRadarModuleActivated,
    EACMessage,
    Taunt,
    MachineFullHealth,
    RequestSync,
    BeginSync,
    EndOfSync,
    SyncTeamBaseCubes,
    SyncEqualizerNotification,
    PlayerQuitRequest,
    PlayerQuitRequestComplete,
    DamageCubeEffectOnly,
    DamageCubeNoEffect,
    DestroyCubeEffectOnly,
    DestroyCubeNoEffect,
    DestroyCubesFull,
    LongPlayValue,
    UpdateVotingAfterBattle,
    CosmeticAction,
}

impl NetworkEvent {
    /// The stable wire code of this event.
    pub open spec fn spec_code(self) -> u8 {
        match self {
            NetworkEvent::OnFailedToConnectToMasterServer => 0,
            NetworkEvent::OnConnectingToLobbyServer => 1,
            NetworkEvent::OnConnectedToLobbyServer => 2,
            NetworkEvent::OnDisconnectingFromLobbyServer => 3,
            NetworkEvent::OnDisconnectedFromLobbyServer => 4,
            NetworkEvent::OnConnectedToServer => 5,
            NetworkEvent::OnFailedToConnectToServer => 6,
            NetworkEvent::OnConnectionLost => 7,
            NetworkEvent::OnDisconnectedFromServer => 8,
            NetworkEvent::OnConnectedToGameServer => 9,
            NetworkEvent::OnServerStarted => 10,
            NetworkEvent::OnServerStopped => 11,
            NetworkEvent::OnPlayerConnectedToServer => 12,
            NetworkEvent::OnPlayerDisconnectedFromServer => 13,
            NetworkEvent::RequestRespawnPoint => 14,
            NetworkEvent::FreeSpawnPoint => 15,
            NetworkEvent::RequestTeamBaseModel => 16,
            NetworkEvent::RequestCapturePoints => 17,
            NetworkEvent::RequestEqualizerModel => 18,
            NetworkEvent::TeamBase => 19,
            NetworkEvent::RegisterCapturePoints => 20,
            NetworkEvent::RegisterEqualizer => 21,
            NetworkEvent::FreeRespawnPoint => 22,
            NetworkEvent::PlayerIDs => 23,
            NetworkEvent::SyncMachineCubes => 24,
            NetworkEvent::MachineDestroyed => 25,
            NetworkEvent::GameStarted => 26,
            NetworkEvent::OnPlayerInputChanged => 27,
            NetworkEvent::OnServerReceivedInputChange => 28,
            NetworkEvent::ClientUnregistered => 29,
            NetworkEvent::OnAnotherClientDisconnected => 30,
            NetworkEvent::OnClientReconnected => 31,
            NetworkEvent::DamageCube => 32,
            NetworkEvent::FireWeaponEffect => 33,
            NetworkEvent::FireMiss => 35,
            NetworkEvent::MultipleFireMisses => 36,
            NetworkEvent::CurrentGameTime => 37,
            NetworkEvent::EndGame => 38,
            NetworkEvent::GameWon => 39,
            NetworkEvent::GameLost => 40,
            NetworkEvent::GameWonBaseDestroyed => 41,
            NetworkEvent::GameLostBaseDestroyed => 42,
            NetworkEvent::BuffTeamPlayers => 43,
            NetworkEvent::PlayerThreateningBase => 44,
            NetworkEvent::TimeToGameStart => 45,
            NetworkEvent::SetRespawnWaitingTime => 46,
            NetworkEvent::TeamBaseState => 47,
            NetworkEvent::TeamBaseCaptureStart => 48,
            NetworkEvent::TeamBaseCaptureReset => 49,
            NetworkEvent::TeamBaseCaptureStop => 50,
            NetworkEvent::TeamBaseSectionComplete => 51,
            NetworkEvent::TeamBaseFinalSectionComplete => 52,
            NetworkEvent::TeamBaseInitialise => 53,
            NetworkEvent::GetClientPings => 54,
            NetworkEvent::SetClientPing => 55,
            NetworkEvent::WarnPlayer => 56,
            NetworkEvent::EnemySpotted => 57,
            NetworkEvent::RemoteEnemySpotted => 58,
            NetworkEvent::AssistBonusRequest => 59,
            NetworkEvent::TeamBaseContested => 60,
            NetworkEvent::AcquireRemoteAI => 61,
            NetworkEvent::KillBonusRequest => 63,
            NetworkEvent::EACRegisterToken => 64,
            NetworkEvent::HeallingAssistBonusRequest => 65,
            NetworkEvent::ProtectTeamMateBonusRequest => 66,
            NetworkEvent::DefendTheBaseBonusRequest => 67,
            NetworkEvent::DestroyCubesBonusRequest => 68,
            NetworkEvent::DestroyHealCubesPointsAwarded => 69,
            NetworkEvent::ConfirmedKill => 70,
            NetworkEvent::BonusesFlushDone => 71,
            NetworkEvent::AlignmentRectifierStarted => 72,
            NetworkEvent::HealCubesBonusRequest => 73,
            NetworkEvent::SetShieldState => 74,
            NetworkEvent::TeamBaseLowHealth => 75,
            NetworkEvent::AwardTeamBaseProtoniumDestroyedRequest => 76,
            NetworkEvent::InitialiseGameStats => 77,
            NetworkEvent::UpdateGameStats => 78,
            NetworkEvent::MapPingEvent => 79,
            NetworkEvent::SurrenderRequest => 80,
            NetworkEvent::HealSelf => 81,
            NetworkEvent::HealSelfResponse => 82,
            NetworkEvent::SurrenderVoteStarted => 83,
            NetworkEvent::SurrenderVoteCast => 84,
            NetworkEvent::CurrentSurrenderVotes => 85,
            NetworkEvent::SurrenderAccepted => 86,
            NetworkEvent::SurrenderDeclined => 87,
            NetworkEvent::SetSurrenderTimes => 88,
            NetworkEvent::SetFinalGameScore => 89,
            NetworkEvent::PitLeaderBoardUpdate => 90,
            NetworkEvent::PitModeState => 91,
            NetworkEvent::ValidateGameGuid => 93,
            NetworkEvent::GameGuidValidated => 94,
            NetworkEvent::PlayerInsideBase => 95,
            NetworkEvent::ConfirmedAssist => 97,
            NetworkEvent::LockOnNotification => 98,
            NetworkEvent::LockOnNotificationBroadcast => 99,
            NetworkEvent::ShieldSpawned => 100,
            NetworkEvent::SpawnShield => 101,
            NetworkEvent::BroadcastOpenShield => 102,
            NetworkEvent::OpenShield => 103,
            NetworkEvent::BroadcastInvisible => 104,
            NetworkEvent::MakeInvisible => 105,
            NetworkEvent::BroadcastVisible => 106,
            NetworkEvent::MakeVisible => 107,
            NetworkEvent::BroadcastActivateTeleportEffect => 108,
            NetworkEvent::ActivateTeleportEffect => 109,
            NetworkEvent::BroadcastActivateReadyEffect => 110,
            NetworkEvent::ActivateReadyEffect => 111,
            NetworkEvent::BroadcastSpawnEmpLocator => 112,
            NetworkEvent::SpawnEmpLocator => 113,
            NetworkEvent::BroadcastSpawnEmpMachineEffect => 114,
            NetworkEvent::SpawnEmpMachineEffect => 115,
            NetworkEvent::WeaponSelect => 116,
            NetworkEvent::BroadcastWeaponSelect => 117,
            NetworkEvent::HostAIs => 118,
            NetworkEvent::HealAlly => 119,
            NetworkEvent::HealAllyResponse => 120,
            NetworkEvent::SelfDestructClassicMode => 121,
            NetworkEvent::GameModeSettings => 122,
            NetworkEvent::TeamDeathMatchState => 123,
            NetworkEvent::ClientDisconnecting => 124,
            NetworkEvent::SendBonus => 125,
            NetworkEvent::TestConnection => 126,
            NetworkEvent::MachineDestroyedConfirmed => 127,
            NetworkEvent::EnergyModuleActivated => 128,
            NetworkEvent::BroadcastLoadingProgress => 129,
            NetworkEvent::RequestLoadingProgressAllUsers => 130,
            NetworkEvent::LoadingComplete => 131,
            NetworkEvent::GameAborted => 132,
            NetworkEvent::SendDamagedByEnemyShield => 134,
            NetworkEvent::DamagedByEnemyShield => 135,
            NetworkEvent::EqualizerNotification => 136,
            NetworkEvent::CapturePointProgress => 137,
            NetworkEvent::CapturePointNotification => 138,
            NetworkEvent::RadarModuleActivated => 140,
            NetworkEvent::RemoteRadarModuleActivated => 141,
            NetworkEvent::EACMessage => 142,
            NetworkEvent::Taunt => 143,
            NetworkEvent::MachineFullHealth => 144,
            NetworkEvent::RequestSync => 145,
            NetworkEvent::BeginSync => 146,
            NetworkEvent::EndOfSync => 147,
            NetworkEvent::SyncTeamBaseCubes => 148,
            NetworkEvent::SyncEqualizerNotification => 150,
            NetworkEvent::PlayerQuitRequest => 151,
            NetworkEvent::PlayerQuitRequestComplete => 152,
            NetworkEvent::DamageCubeEffectOnly => 153,
            NetworkEvent::DamageCubeNoEffect => 154,
            NetworkEvent::DestroyCubeEffectOnly => 155,
            NetworkEvent::DestroyCubeNoEffect => 156,
            NetworkEvent::DestroyCubesFull => 157,
            NetworkEvent::LongPlayValue => 170,
            NetworkEvent::UpdateVotingAfterBattle => 171,
            NetworkEvent::CosmeticAction => 172,
        }
    }

    /// The event a wire code names, if the current table has it.
    pub open spec fn spec_from_code(code: u8) -> Option<NetworkEvent> {
        if code == 0 {
            Some(NetworkEvent::OnFailedToConnectToMasterServer)
        } else if code == 1 {
            Some(NetworkEvent::OnConnectingToLobbyServer)
        } else if code == 2 {
            Some(NetworkEvent::OnConnectedToLobbyServer)
        } else if code == 3 {
            Some(NetworkEvent::OnDisconnectingFromLobbyServer)
        } else if code == 4 {
            Some(NetworkEvent::OnDisconnectedFromLobbyServer)
        } else if code == 5 {
            Some(NetworkEvent::OnConnectedToServer)
        } else if code == 6 {
            Some(NetworkEvent::OnFailedToConnectToServer)
        } else if code == 7 {
            Some(NetworkEvent::OnConnectionLost)
        } else if code == 8 {
            Some(NetworkEvent::OnDisconnectedFromServer)
        } else if code == 9 {
            Some(NetworkEvent::OnConnectedToGameServer)
        } else if code == 10 {
            Some(NetworkEvent::OnServerStarted)
        } else if code == 11 {
            Some(NetworkEvent::OnServerStopped)
        } else if code == 12 {
            Some(NetworkEvent::OnPlayerConnectedToServer)
        } else if code == 13 {
            Some(NetworkEvent::OnPlayerDisconnectedFromServer)
        } else if code == 14 {
            Some(NetworkEvent::RequestRespawnPoint)
        } else if code == 15 {
            Some(NetworkEvent::FreeSpawnPoint)
        } else if code == 16 {
            Some(NetworkEvent::RequestTeamBaseModel)
        } else if code == 17 {
            Some(NetworkEvent::RequestCapturePoints)
        } else if code == 18 {
            Some(NetworkEvent::RequestEqualizerModel)
        } else if code == 19 {
            Some(NetworkEvent::TeamBase)
        } else if code == 20 {
            Some(NetworkEvent::RegisterCapturePoints)
        } else if code == 21 {
            Some(NetworkEvent::RegisterEqualizer)
        } else if code == 22 {
            Some(NetworkEvent::FreeRespawnPoint)
        } else if code == 23 {
            Some(NetworkEvent::PlayerIDs)
        } else if code == 24 {
            Some(NetworkEvent::SyncMachineCubes)
        } else if code == 25 {
            Some(NetworkEvent::MachineDestroyed)
        } else if code == 26 {
            Some(NetworkEvent::GameStarted)
        } else if code == 27 {
            Some(NetworkEvent::OnPlayerInputChanged)
        } else if code == 28 {
            Some(NetworkEvent::OnServerReceivedInputChange)
        } else if code == 29 {
            Some(NetworkEvent::ClientUnregistered)
        } else if code == 30 {
            Some(NetworkEvent::OnAnotherClientDisconnected)
        } else if code == 31 {
            Some(NetworkEvent::OnClientReconnected)
        } else if code == 32 {
            Some(NetworkEvent::DamageCube)
        } else if code == 33 {
            Some(NetworkEvent::FireWeaponEffect)
        } else if code == 35 {
            Some(NetworkEvent::FireMiss)
        } else if code == 36 {
            Some(NetworkEvent::MultipleFireMisses)
        } else if code == 37 {
            Some(NetworkEvent::CurrentGameTime)
        } else if code == 38 {
            Some(NetworkEvent::EndGame)
        } else if code == 39 {
            Some(NetworkEvent::GameWon)
        } else if code == 40 {
            Some(NetworkEvent::GameLost)
        } else if code == 41 {
            Some(NetworkEvent::GameWonBaseDestroyed)
        } else if code == 42 {
            Some(NetworkEvent::GameLostBaseDestroyed)
        } else if code == 43 {
            Some(NetworkEvent::BuffTeamPlayers)
        } else if code == 44 {
            Some(NetworkEvent::PlayerThreateningBase)
        } else if code == 45 {
            Some(NetworkEvent::TimeToGameStart)
        } else if code == 46 {
            Some(NetworkEvent::SetRespawnWaitingTime)
        } else if code == 47 {
            Some(NetworkEvent::TeamBaseState)
        } else if code == 48 {
            Some(NetworkEvent::TeamBaseCaptureStart)
        } else if code == 49 {
            Some(NetworkEvent::TeamBaseCaptureReset)
        } else if code == 50 {
            Some(NetworkEvent::TeamBaseCaptureStop)
        } else if code == 51 {
            Some(NetworkEvent::TeamBaseSectionComplete)
        } else if code == 52 {
            Some(NetworkEvent::TeamBaseFinalSectionComplete)
        } else if code == 53 {
            Some(NetworkEvent::TeamBaseInitialise)
        } else if code == 54 {
            Some(NetworkEvent::GetClientPings)
        } else if code == 55 {
            Some(NetworkEvent::SetClientPing)
        } else if code == 56 {
            Some(NetworkEvent::WarnPlayer)
        } else if code == 57 {
            Some(NetworkEvent::EnemySpotted)
        } else if code == 58 {
            Some(NetworkEvent::RemoteEnemySpotted)
        } else if code == 59 {
            Some(NetworkEvent::AssistBonusRequest)
        } else if code == 60 {
            Some(NetworkEvent::TeamBaseContested)
        } else if code == 61 {
            Some(NetworkEvent::AcquireRemoteAI)
        } else if code == 63 {
            Some(NetworkEvent::KillBonusRequest)
        } else if code == 64 {
            Some(NetworkEvent::EACRegisterToken)
        } else if code == 65 {
            Some(NetworkEvent::HeallingAssistBonusRequest)
        } else if code == 66 {
            Some(NetworkEvent::ProtectTeamMateBonusRequest)
        } else if code == 67 {
            Some(NetworkEvent::DefendTheBaseBonusRequest)
        } else if code == 68 {
            Some(NetworkEvent::DestroyCubesBonusRequest)
        } else if code == 69 {
            Some(NetworkEvent::DestroyHealCubesPointsAwarded)
        } else if code == 70 {
            Some(NetworkEvent::ConfirmedKill)
        } else if code == 71 {
            Some(NetworkEvent::BonusesFlushDone)
        } else if code == 72 {
            Some(NetworkEvent::AlignmentRectifierStarted)
        } else if code == 73 {
            Some(NetworkEvent::HealCubesBonusRequest)
        } else if code == 74 {
            Some(NetworkEvent::SetShieldState)
        } else if code == 75 {
            Some(NetworkEvent::TeamBaseLowHealth)
        } else if code == 76 {
            Some(NetworkEvent::AwardTeamBaseProtoniumDestroyedRequest)
        } else if code == 77 {
            Some(NetworkEvent::InitialiseGameStats)
        } else if code == 78 {
            Some(NetworkEvent::UpdateGameStats)
        } else if code == 79 {
            Some(NetworkEvent::MapPingEvent)
        } else if code == 80 {
            Some(NetworkEvent::SurrenderRequest)
        } else if code == 81 {
            Some(NetworkEvent::HealSelf)
        } else if code == 82 {
            Some(NetworkEvent::HealSelfResponse)
        } else if code == 83 {
            Some(NetworkEvent::SurrenderVoteStarted)
        } else if code == 84 {
            Some(NetworkEvent::SurrenderVoteCast)
        } else if code == 85 {
            Some(NetworkEvent::CurrentSurrenderVotes)
        } else if code == 86 {
            Some(NetworkEvent::SurrenderAccepted)
        } else if code == 87 {
            Some(NetworkEvent::SurrenderDeclined)
        } else if code == 88 {
            Some(NetworkEvent::SetSurrenderTimes)
        } else if code == 89 {
            Some(NetworkEvent::SetFinalGameScore)
        } else if code == 90 {
            Some(NetworkEvent::PitLeaderBoardUpdate)
        } else if code == 91 {
            Some(NetworkEvent::PitModeState)
        } else if code == 93 {
            Some(NetworkEvent::ValidateGameGuid)
        } else if code == 94 {
            Some(NetworkEvent::GameGuidValidated)
        } else if code == 95 {
            Some(NetworkEvent::PlayerInsideBase)
        } else if code == 97 {
            Some(NetworkEvent::ConfirmedAssist)
        } else if code == 98 {
            Some(NetworkEvent::LockOnNotification)
        } else if code == 99 {
            Some(NetworkEvent::LockOnNotificationBroadcast)
        } else if code == 100 {
            Some(NetworkEvent::ShieldSpawned)
        } else if code == 101 {
            Some(NetworkEvent::SpawnShield)
        } else if code == 102 {
            Some(NetworkEvent::BroadcastOpenShield)
        } else if code == 103 {
            Some(NetworkEvent::OpenShield)
        } else if code == 104 {
            Some(NetworkEvent::BroadcastInvisible)
        } else if code == 105 {
            Some(NetworkEvent::MakeInvisible)
        } else if code == 106 {
            Some(NetworkEvent::BroadcastVisible)
        } else if code == 107 {
            Some(NetworkEvent::MakeVisible)
        } else if code == 108 {
            Some(NetworkEvent::BroadcastActivateTeleportEffect)
        } else if code == 109 {
            Some(NetworkEvent::ActivateTeleportEffect)
        } else if code == 110 {
            Some(NetworkEvent::BroadcastActivateReadyEffect)
        } else if code == 111 {
            Some(NetworkEvent::ActivateReadyEffect)
        } else if code == 112 {
            Some(NetworkEvent::BroadcastSpawnEmpLocator)
        } else if code == 113 {
            Some(NetworkEvent::SpawnEmpLocator)
        } else if code == 114 {
            Some(NetworkEvent::BroadcastSpawnEmpMachineEffect)
        } else if code == 115 {
            Some(NetworkEvent::SpawnEmpMachineEffect)
        } else if code == 116 {
            Some(NetworkEvent::WeaponSelect)
        } else if code == 117 {
            Some(NetworkEvent::BroadcastWeaponSelect)
        } else if code == 118 {
            Some(NetworkEvent::HostAIs)
        } else if code == 119 {
            Some(NetworkEvent::HealAlly)
        } else if code == 120 {
            Some(NetworkEvent::HealAllyResponse)
        } else if code == 121 {
            Some(NetworkEvent::SelfDestructClassicMode)
        } else if code == 122 {
            Some(NetworkEvent::GameModeSettings)
        } else if code == 123 {
            Some(NetworkEvent::TeamDeathMatchState)
        } else if code == 124 {
            Some(NetworkEvent::ClientDisconnecting)
        } else if code == 125 {
            Some(NetworkEvent::SendBonus)
        } else if code == 126 {
            Some(NetworkEvent::TestConnection)
        } else if code == 127 {
            Some(NetworkEvent::MachineDestroyedConfirmed)
        } else if code == 128 {
            Some(NetworkEvent::EnergyModuleActivated)
        } else if code == 129 {
            Some(NetworkEvent::BroadcastLoadingProgress)
        } else if code == 130 {
            Some(NetworkEvent::RequestLoadingProgressAllUsers)
        } else if code == 131 {
            Some(NetworkEvent::LoadingComplete)
        } else if code == 132 {
            Some(NetworkEvent::GameAborted)
        } else if code == 134 {
            Some(NetworkEvent::SendDamagedByEnemyShield)
        } else if code == 135 {
            Some(NetworkEvent::DamagedByEnemyShield)
        } else if code == 136 {
            Some(NetworkEvent::EqualizerNotification)
        } else if code == 137 {
            Some(NetworkEvent::CapturePointProgress)
        } else if code == 138 {
            Some(NetworkEvent::CapturePointNotification)
        } else if code == 140 {
            Some(NetworkEvent::RadarModuleActivated)
        } else if code == 141 {
            Some(NetworkEvent::RemoteRadarModuleActivated)
        } else if code == 142 {
            Some(NetworkEvent::EACMessage)
        } else if code == 143 {
            Some(NetworkEvent::Taunt)
        } else if code == 144 {
            Some(NetworkEvent::MachineFullHealth)
        } else if code == 145 {
            Some(NetworkEvent::RequestSync)
        } else if code == 146 {
            Some(NetworkEvent::BeginSync)
        } else if code == 147 {
            Some(NetworkEvent::EndOfSync)
        } else if code == 148 {
            Some(NetworkEvent::SyncTeamBaseCubes)
        } else if code == 150 {
            Some(NetworkEvent::SyncEqualizerNotification)
        } else if code == 151 {
            Some(NetworkEvent::PlayerQuitRequest)
        } else if code == 152 {
            Some(NetworkEvent::PlayerQuitRequestComplete)
        } else if code == 153 {
            Some(NetworkEvent::DamageCubeEffectOnly)
        } else if code == 154 {
            Some(NetworkEvent::DamageCubeNoEffect)
        } else if code == 155 {
            Some(NetworkEvent::DestroyCubeEffectOnly)
        } else if code == 156 {
            Some(NetworkEvent::DestroyCubeNoEffect)
        } else if code == 157 {
            Some(NetworkEvent::DestroyCubesFull)
        } else if code == 170 {
            Some(NetworkEvent::LongPlayValue)
        } else if code == 171 {
            Some(NetworkEvent::UpdateVotingAfterBattle)
        } else if code == 172 {
            Some(NetworkEvent::CosmeticAction)
        } else {
            None
        }
    }

    /// The stable wire code of this event.
    pub fn code(self) -> (r: u8)
        ensures
            r == self.spec_code(),
    {
        match self {
            NetworkEvent::OnFailedToConnectToMasterServer => 0,
            NetworkEvent::OnConnectingToLobbyServer => 1,
            NetworkEvent::OnConnectedToLobbyServer => 2,
            NetworkEvent::OnDisconnectingFromLobbyServer => 3,
            NetworkEvent::OnDisconnectedFromLobbyServer => 4,
            NetworkEvent::OnConnectedToServer => 5,
            NetworkEvent::OnFailedToConnectToServer => 6,
            NetworkEvent::OnConnectionLost => 7,
            NetworkEvent::OnDisconnectedFromServer => 8,
            NetworkEvent::OnConnectedToGameServer => 9,
            NetworkEvent::OnServerStarted => 10,
            NetworkEvent::OnServerStopped => 11,
            NetworkEvent::OnPlayerConnectedToServer => 12,
            NetworkEvent::OnPlayerDisconnectedFromServer => 13,
            NetworkEvent::RequestRespawnPoint => 14,
            NetworkEvent::FreeSpawnPoint => 15,
            NetworkEvent::RequestTeamBaseModel => 16,
            NetworkEvent::RequestCapturePoints => 17,
            NetworkEvent::RequestEqualizerModel => 18,
            NetworkEvent::TeamBase => 19,
            NetworkEvent::RegisterCapturePoints => 20,
            NetworkEvent::RegisterEqualizer => 21,
            NetworkEvent::FreeRespawnPoint => 22,
            NetworkEvent::PlayerIDs => 23,
            NetworkEvent::SyncMachineCubes => 24,
            NetworkEvent::MachineDestroyed => 25,
            NetworkEvent::GameStarted => 26,
            NetworkEvent::OnPlayerInputChanged => 27,
            NetworkEvent::OnServerReceivedInputChange => 28,
            NetworkEvent::ClientUnregistered => 29,
            NetworkEvent::OnAnotherClientDisconnected => 30,
            NetworkEvent::OnClientReconnected => 31,
            NetworkEvent::DamageCube => 32,
            NetworkEvent::FireWeaponEffect => 33,
            NetworkEvent::FireMiss => 35,
            NetworkEvent::MultipleFireMisses => 36,
            NetworkEvent::CurrentGameTime => 37,
            NetworkEvent::EndGame => 38,
            NetworkEvent::GameWon => 39,
            NetworkEvent::GameLost => 40,
            NetworkEvent::GameWonBaseDestroyed => 41,
            NetworkEvent::GameLostBaseDestroyed => 42,
            NetworkEvent::BuffTeamPlayers => 43,
            NetworkEvent::PlayerThreateningBase => 44,
            NetworkEvent::TimeToGameStart => 45,
            NetworkEvent::SetRespawnWaitingTime => 46,
            NetworkEvent::TeamBaseState => 47,
            NetworkEvent::TeamBaseCaptureStart => 48,
            NetworkEvent::TeamBaseCaptureReset => 49,
            NetworkEvent::TeamBaseCaptureStop => 50,
            NetworkEvent::TeamBaseSectionComplete => 51,
            NetworkEvent::TeamBaseFinalSectionComplete => 52,
            NetworkEvent::TeamBaseInitialise => 53,
            NetworkEvent::GetClientPings => 54,
            NetworkEvent::SetClientPing => 55,
            NetworkEvent::WarnPlayer => 56,
            NetworkEvent::EnemySpotted => 57,
            NetworkEvent::RemoteEnemySpotted => 58,
            NetworkEvent::AssistBonusRequest => 59,
            NetworkEvent::TeamBaseContested => 60,
            NetworkEvent::AcquireRemoteAI => 61,
            NetworkEvent::KillBonusRequest => 63,
            NetworkEvent::EACRegisterToken => 64,
            NetworkEvent::HeallingAssistBonusRequest => 65,
            NetworkEvent::ProtectTeamMateBonusRequest => 66,
            NetworkEvent::DefendTheBaseBonusRequest => 67,
            NetworkEvent::DestroyCubesBonusRequest => 68,
            NetworkEvent::DestroyHealCubesPointsAwarded => 69,
            NetworkEvent::ConfirmedKill => 70,
            NetworkEvent::BonusesFlushDone => 71,
            NetworkEvent::AlignmentRectifierStarted => 72,
            NetworkEvent::HealCubesBonusRequest => 73,
            NetworkEvent::SetShieldState => 74,
            NetworkEvent::TeamBaseLowHealth => 75,
            NetworkEvent::AwardTeamBaseProtoniumDestroyedRequest => 76,
            NetworkEvent::InitialiseGameStats => 77,
            NetworkEvent::UpdateGameStats => 78,
            NetworkEvent::MapPingEvent => 79,
            NetworkEvent::SurrenderRequest => 80,
            NetworkEvent::HealSelf => 81,
            NetworkEvent::HealSelfResponse => 82,
            NetworkEvent::SurrenderVoteStarted => 83,
            NetworkEvent::SurrenderVoteCast => 84,
            NetworkEvent::CurrentSurrenderVotes => 85,
            NetworkEvent::SurrenderAccepted => 86,
            NetworkEvent::SurrenderDeclined => 87,
            NetworkEvent::SetSurrenderTimes => 88,
            NetworkEvent::SetFinalGameScore => 89,
            NetworkEvent::PitLeaderBoardUpdate => 90,
            NetworkEvent::PitModeState => 91,
            NetworkEvent::ValidateGameGuid => 93,
            NetworkEvent::GameGuidValidated => 94,
            NetworkEvent::PlayerInsideBase => 95,
            NetworkEvent::ConfirmedAssist => 97,
            NetworkEvent::LockOnNotification => 98,
            NetworkEvent::LockOnNotificationBroadcast => 99,
            NetworkEvent::ShieldSpawned => 100,
            NetworkEvent::SpawnShield => 101,
            NetworkEvent::BroadcastOpenShield => 102,
            NetworkEvent::OpenShield => 103,
            NetworkEvent::BroadcastInvisible => 104,
            NetworkEvent::MakeInvisible => 105,
            NetworkEvent::BroadcastVisible => 106,
            NetworkEvent::MakeVisible => 107,
            NetworkEvent::BroadcastActivateTeleportEffect => 108,
            NetworkEvent::ActivateTeleportEffect => 109,
            NetworkEvent::BroadcastActivateReadyEffect => 110,
            NetworkEvent::ActivateReadyEffect => 111,
            NetworkEvent::BroadcastSpawnEmpLocator => 112,
            NetworkEvent::SpawnEmpLocator => 113,
            NetworkEvent::BroadcastSpawnEmpMachineEffect => 114,
            NetworkEvent::SpawnEmpMachineEffect => 115,
            NetworkEvent::WeaponSelect => 116,
            NetworkEvent::BroadcastWeaponSelect => 117,
            NetworkEvent::HostAIs => 118,
            NetworkEvent::HealAlly => 119,
            NetworkEvent::HealAllyResponse => 120,
            NetworkEvent::SelfDestructClassicMode => 121,
            NetworkEvent::GameModeSettings => 122,
            NetworkEvent::TeamDeathMatchState => 123,
            NetworkEvent::ClientDisconnecting => 124,
            NetworkEvent::SendBonus => 125,
            NetworkEvent::TestConnection => 126,
            NetworkEvent::MachineDestroyedConfirmed => 127,
            NetworkEvent::EnergyModuleActivated => 128,
            NetworkEvent::BroadcastLoadingProgress => 129,
            NetworkEvent::RequestLoadingProgressAllUsers => 130,
            NetworkEvent::LoadingComplete => 131,
            NetworkEvent::GameAborted => 132,
            NetworkEvent::SendDamagedByEnemyShield => 134,
            NetworkEvent::DamagedByEnemyShield => 135,
            NetworkEvent::EqualizerNotification => 136,
            NetworkEvent::CapturePointProgress => 137,
            NetworkEvent::CapturePointNotification => 138,
            NetworkEvent::RadarModuleActivated => 140,
            NetworkEvent::RemoteRadarModuleActivated => 141,
            NetworkEvent::EACMessage => 142,
            NetworkEvent::Taunt => 143,
            NetworkEvent::MachineFullHealth => 144,
            NetworkEvent::RequestSync => 145,
            NetworkEvent::BeginSync => 146,
            NetworkEvent::EndOfSync => 147,
            NetworkEvent::SyncTeamBaseCubes => 148,
            NetworkEvent::SyncEqualizerNotification => 150,
            NetworkEvent::PlayerQuitRequest => 151,
            NetworkEvent::PlayerQuitRequestComplete => 152,
            NetworkEvent::DamageCubeEffectOnly => 153,
            NetworkEvent::DamageCubeNoEffect => 154,
            NetworkEvent::DestroyCubeEffectOnly => 155,
            NetworkEvent::DestroyCubeNoEffect => 156,
            NetworkEvent::DestroyCubesFull => 157,
            NetworkEvent::LongPlayValue => 170,
            NetworkEvent::UpdateVotingAfterBattle => 171,
            NetworkEvent::CosmeticAction => 172,
        }
    }

    /// The event a wire code names, if the current table has it. A code
    /// outside the table (retired or newer than this build) is reported
    /// as unknown, never guessed at.
    pub fn from_code(code: u8) -> (r: Option<NetworkEvent>)
        ensures
            r == NetworkEvent::spec_from_code(code),
    {
        if code == 0 {
            Some(NetworkEvent::OnFailedToConnectToMasterServer)
        } else if code == 1 {
            Some(NetworkEvent::OnConnectingToLobbyServer)
        } else if code == 2 {
            Some(NetworkEvent::OnConnectedToLobbyServer)
        } else if code == 3 {
            Some(NetworkEvent::OnDisconnectingFromLobbyServer)
        } else if code == 4 {
            Some(NetworkEvent::OnDisconnectedFromLobbyServer)
        } else if code == 5 {
            Some(NetworkEvent::OnConnectedToServer)
        } else if code == 6 {
            Some(NetworkEvent::OnFailedToConnectToServer)
        } else if code == 7 {
            Some(NetworkEvent::OnConnectionLost)
        } else if code == 8 {
            Some(NetworkEvent::OnDisconnectedFromServer)
        } else if code == 9 {
            Some(NetworkEvent::OnConnectedToGameServer)
        } else if code == 10 {
            Some(NetworkEvent::OnServerStarted)
        } else if code == 11 {
            Some(NetworkEvent::OnServerStopped)
        } else if code == 12 {
            Some(NetworkEvent::OnPlayerConnectedToServer)
        } else if code == 13 {
            Some(NetworkEvent::OnPlayerDisconnectedFromServer)
        } else if code == 14 {
            Some(NetworkEvent::RequestRespawnPoint)
        } else if code == 15 {
            Some(NetworkEvent::FreeSpawnPoint)
        } else if code == 16 {
            Some(NetworkEvent::RequestTeamBaseModel)
        } else if code == 17 {
            Some(NetworkEvent::RequestCapturePoints)
        } else if code == 18 {
            Some(NetworkEvent::RequestEqualizerModel)
        } else if code == 19 {
            Some(NetworkEvent::TeamBase)
        } else if code == 20 {
            Some(NetworkEvent::RegisterCapturePoints)
        } else if code == 21 {
            Some(NetworkEvent::RegisterEqualizer)
        } else if code == 22 {
            Some(NetworkEvent::FreeRespawnPoint)
        } else if code == 23 {
            Some(NetworkEvent::PlayerIDs)
        } else if code == 24 {
            Some(NetworkEvent::SyncMachineCubes)
        } else if code == 25 {
            Some(NetworkEvent::MachineDestroyed)
        } else if code == 26 {
            Some(NetworkEvent::GameStarted)
        } else if code == 27 {
            Some(NetworkEvent::OnPlayerInputChanged)
        } else if code == 28 {
            Some(NetworkEvent::OnServerReceivedInputChange)
        } else if code == 29 {
            Some(NetworkEvent::ClientUnregistered)
        } else if code == 30 {
            Some(NetworkEvent::OnAnotherClientDisconnected)
        } else if code == 31 {
            Some(NetworkEvent::OnClientReconnected)
        } else if code == 32 {
            Some(NetworkEvent::DamageCube)
        } else if code == 33 {
            Some(NetworkEvent::FireWeaponEffect)
        } else if code == 35 {
            Some(NetworkEvent::FireMiss)
        } else if code == 36 {
            Some(NetworkEvent::MultipleFireMisses)
        } else if code == 37 {
            Some(NetworkEvent::CurrentGameTime)
        } else if code == 38 {
            Some(NetworkEvent::EndGame)
        } else if code == 39 {
            Some(NetworkEvent::GameWon)
        } else if code == 40 {
            Some(NetworkEvent::GameLost)
        } else if code == 41 {
            Some(NetworkEvent::GameWonBaseDestroyed)
        } else if code == 42 {
            Some(NetworkEvent::GameLostBaseDestroyed)
        } else if code == 43 {
            Some(NetworkEvent::BuffTeamPlayers)
        } else if code == 44 {
            Some(NetworkEvent::PlayerThreateningBase)
        } else if code == 45 {
            Some(NetworkEvent::TimeToGameStart)
        } else if code == 46 {
            Some(NetworkEvent::SetRespawnWaitingTime)
        } else if code == 47 {
            Some(NetworkEvent::TeamBaseState)
        } else if code == 48 {
            Some(NetworkEvent::TeamBaseCaptureStart)
        } else if code == 49 {
            Some(NetworkEvent::TeamBaseCaptureReset)
        } else if code == 50 {
            Some(NetworkEvent::TeamBaseCaptureStop)
        } else if code == 51 {
            Some(NetworkEvent::TeamBaseSectionComplete)
        } else if code == 52 {
            Some(NetworkEvent::TeamBaseFinalSectionComplete)
        } else if code == 53 {
            Some(NetworkEvent::TeamBaseInitialise)
        } else if code == 54 {
            Some(NetworkEvent::GetClientPings)
        } else if code == 55 {
            Some(NetworkEvent::SetClientPing)
        } else if code == 56 {
            Some(NetworkEvent::WarnPlayer)
        } else if code == 57 {
            Some(NetworkEvent::EnemySpotted)
        } else if code == 58 {
            Some(NetworkEvent::RemoteEnemySpotted)
        } else if code == 59 {
            Some(NetworkEvent::AssistBonusRequest)
        } else if code == 60 {
            Some(NetworkEvent::TeamBaseContested)
        } else if code == 61 {
            Some(NetworkEvent::AcquireRemoteAI)
        } else if code == 63 {
            Some(NetworkEvent::KillBonusRequest)
        } else if code == 64 {
            Some(NetworkEvent::EACRegisterToken)
        } else if code == 65 {
            Some(NetworkEvent::HeallingAssistBonusRequest)
        } else if code == 66 {
            Some(NetworkEvent::ProtectTeamMateBonusRequest)
        } else if code == 67 {
            Some(NetworkEvent::DefendTheBaseBonusRequest)
        } else if code == 68 {
            Some(NetworkEvent::DestroyCubesBonusRequest)
        } else if code == 69 {
            Some(NetworkEvent::DestroyHealCubesPointsAwarded)
        } else if code == 70 {
            Some(NetworkEvent::ConfirmedKill)
        } else if code == 71 {
            Some(NetworkEvent::BonusesFlushDone)
        } else if code == 72 {
            Some(NetworkEvent::AlignmentRectifierStarted)
        } else if code == 73 {
            Some(NetworkEvent::HealCubesBonusRequest)
        } else if code == 74 {
            Some(NetworkEvent::SetShieldState)
        } else if code == 75 {
            Some(NetworkEvent::TeamBaseLowHealth)
        } else if code == 76 {
            Some(NetworkEvent::AwardTeamBaseProtoniumDestroyedRequest)
        } else if code == 77 {
            Some(NetworkEvent::InitialiseGameStats)
        } else if code == 78 {
            Some(NetworkEvent::UpdateGameStats)
        } else if code == 79 {
            Some(NetworkEvent::MapPingEvent)
        } else if code == 80 {
            Some(NetworkEvent::SurrenderRequest)
        } else if code == 81 {
            Some(NetworkEvent::HealSelf)
        } else if code == 82 {
            Some(NetworkEvent::HealSelfResponse)
        } else if code == 83 {
            Some(NetworkEvent::SurrenderVoteStarted)
        } else if code == 84 {
            Some(NetworkEvent::SurrenderVoteCast)
        } else if code == 85 {
            Some(NetworkEvent::CurrentSurrenderVotes)
        } else if code == 86 {
            Some(NetworkEvent::SurrenderAccepted)
        } else if code == 87 {
            Some(NetworkEvent::SurrenderDeclined)
        } else if code == 88 {
            Some(NetworkEvent::SetSurrenderTimes)
        } else if code == 89 {
            Some(NetworkEvent::SetFinalGameScore)
        } else if code == 90 {
            Some(NetworkEvent::PitLeaderBoardUpdate)
        } else if code == 91 {
            Some(NetworkEvent::PitModeState)
        } else if code == 93 {
            Some(NetworkEvent::ValidateGameGuid)
        } else if code == 94 {
            Some(NetworkEvent::GameGuidValidated)
        } else if code == 95 {
            Some(NetworkEvent::PlayerInsideBase)
        } else if code == 97 {
            Some(NetworkEvent::ConfirmedAssist)
        } else if code == 98 {
            Some(NetworkEvent::LockOnNotification)
        } else if code == 99 {
            Some(NetworkEvent::LockOnNotificationBroadcast)
        } else if code == 100 {
            Some(NetworkEvent::ShieldSpawned)
        } else if code == 101 {
            Some(NetworkEvent::SpawnShield)
        } else if code == 102 {
            Some(NetworkEvent::BroadcastOpenShield)
        } else if code == 103 {
            Some(NetworkEvent::OpenShield)
        } else if code == 104 {
            Some(NetworkEvent::BroadcastInvisible)
        } else if code == 105 {
            Some(NetworkEvent::MakeInvisible)
        } else if code == 106 {
            Some(NetworkEvent::BroadcastVisible)
        } else if code == 107 {
            Some(NetworkEvent::MakeVisible)
        } else if code == 108 {
            Some(NetworkEvent::BroadcastActivateTeleportEffect)
        } else if code == 109 {
            Some(NetworkEvent::ActivateTeleportEffect)
        } else if code == 110 {
            Some(NetworkEvent::BroadcastActivateReadyEffect)
        } else if code == 111 {
            Some(NetworkEvent::ActivateReadyEffect)
        } else if code == 112 {
            Some(NetworkEvent::BroadcastSpawnEmpLocator)
        } else if code == 113 {
            Some(NetworkEvent::SpawnEmpLocator)
        } else if code == 114 {
            Some(NetworkEvent::BroadcastSpawnEmpMachineEffect)
        } else if code == 115 {
            Some(NetworkEvent::SpawnEmpMachineEffect)
        } else if code == 116 {
            Some(NetworkEvent::WeaponSelect)
        } else if code == 117 {
            Some(NetworkEvent::BroadcastWeaponSelect)
        } else if code == 118 {
            Some(NetworkEvent::HostAIs)
        } else if code == 119 {
            Some(NetworkEvent::HealAlly)
        } else if code == 120 {
            Some(NetworkEvent::HealAllyResponse)
        } else if code == 121 {
            Some(NetworkEvent::SelfDestructClassicMode)
        } else if code == 122 {
            Some(NetworkEvent::GameModeSettings)
        } else if code == 123 {
            Some(NetworkEvent::TeamDeathMatchState)
        } else if code == 124 {
            Some(NetworkEvent::ClientDisconnecting)
        } else if code == 125 {
            Some(NetworkEvent::SendBonus)
        } else if code == 126 {
            Some(NetworkEvent::TestConnection)
        } else if code == 127 {
            Some(NetworkEvent::MachineDestroyedConfirmed)
        } else if code == 128 {
            Some(NetworkEvent::EnergyModuleActivated)
        } else if code == 129 {
            Some(NetworkEvent::BroadcastLoadingProgress)
        } else if code == 130 {
            Some(NetworkEvent::RequestLoadingProgressAllUsers)
        } else if code == 131 {
            Some(NetworkEvent::LoadingComplete)
        } else if code == 132 {
            Some(NetworkEvent::GameAborted)
        } else if code == 134 {
            Some(NetworkEvent::SendDamagedByEnemyShield)
        } else if code == 135 {
            Some(NetworkEvent::DamagedByEnemyShield)
        } else if code == 136 {
            Some(NetworkEvent::EqualizerNotification)
        } else if code == 137 {
            Some(NetworkEvent::CapturePointProgress)
        } else if code == 138 {
            Some(NetworkEvent::CapturePointNotification)
        } else if code == 140 {
            Some(NetworkEvent::RadarModuleActivated)
        } else if code == 141 {
            Some(NetworkEvent::RemoteRadarModuleActivated)
        } else if code == 142 {
            Some(NetworkEvent::EACMessage)
        } else if code == 143 {
            Some(NetworkEvent::Taunt)
        } else if code == 144 {
            Some(NetworkEvent::MachineFullHealth)
        } else if code == 145 {
            Some(NetworkEvent::RequestSync)
        } else if code == 146 {
            Some(NetworkEvent::BeginSync)
        } else if code == 147 {
            Some(NetworkEvent::EndOfSync)
        } else if code == 148 {
            Some(NetworkEvent::SyncTeamBaseCubes)
        } else if code == 150 {
            Some(NetworkEvent::SyncEqualizerNotification)
        } else if code == 151 {
            Some(NetworkEvent::PlayerQuitRequest)
        } else if code == 152 {
            Some(NetworkEvent::PlayerQuitRequestComplete)
        } else if code == 153 {
            Some(NetworkEvent::DamageCubeEffectOnly)
        } else if code == 154 {
            Some(NetworkEvent::DamageCubeNoEffect)
        } else if code == 155 {
            Some(NetworkEvent::DestroyCubeEffectOnly)
        } else if code == 156 {
            Some(NetworkEvent::DestroyCubeNoEffect)
        } else if code == 157 {
            Some(NetworkEvent::DestroyCubesFull)
        } else if code == 170 {
            Some(NetworkEvent::LongPlayValue)
        } else if code == 171 {
            Some(NetworkEvent::UpdateVotingAfterBattle)
        } else if code == 172 {
            Some(NetworkEvent::CosmeticAction)
        } else {
            None
        }
    }
}

/// The name-to-code table is injective: looking an event's own code back
/// up finds exactly that event.
pub proof fn lemma_code_round(e: NetworkEvent)
    ensures
        NetworkEvent::spec_from_code(e.spec_code()) == Some(e),
{
    match e {
        NetworkEvent::OnFailedToConnectToMasterServer => {
            assert(NetworkEvent::spec_from_code(0) == Some(NetworkEvent::OnFailedToConnectToMasterServer));
        },
        NetworkEvent::OnConnectingToLobbyServer => {
            assert(NetworkEvent::spec_from_code(1) == Some(NetworkEvent::OnConnectingToLobbyServer));
        },
        NetworkEvent::OnConnectedToLobbyServer => {
            assert(NetworkEvent::spec_from_code(2) == Some(NetworkEvent::OnConnectedToLobbyServer));
        },
        NetworkEvent::OnDisconnectingFromLobbyServer => {
            assert(NetworkEvent::spec_from_code(3) == Some(NetworkEvent::OnDisconnectingFromLobbyServer));
        },
        NetworkEvent::OnDisconnectedFromLobbyServer => {
            assert(NetworkEvent::spec_from_code(4) == Some(NetworkEvent::OnDisconnectedFromLobbyServer));
        },
        NetworkEvent::OnConnectedToServer => {
            assert(NetworkEvent::spec_from_code(5) == Some(NetworkEvent::OnConnectedToServer));
        },
        NetworkEvent::OnFailedToConnectToServer => {
            assert(NetworkEvent::spec_from_code(6) == Some(NetworkEvent::OnFailedToConnectToServer));
        },
        NetworkEvent::OnConnectionLost => {
            assert(NetworkEvent::spec_from_code(7) == Some(NetworkEvent::OnConnectionLost));
        },
        NetworkEvent::OnDisconnectedFromServer => {
            assert(NetworkEvent::spec_from_code(8) == Some(NetworkEvent::OnDisconnectedFromServer));
        },
        NetworkEvent::OnConnectedToGameServer => {
            assert(NetworkEvent::spec_from_code(9) == Some(NetworkEvent::OnConnectedToGameServer));
        },
        NetworkEvent::OnServerStarted => {
            assert(NetworkEvent::spec_from_code(10) == Some(NetworkEvent::OnServerStarted));
        },
        NetworkEvent::OnServerStopped => {
            assert(NetworkEvent::spec_from_code(11) == Some(NetworkEvent::OnServerStopped));
        },
        NetworkEvent::OnPlayerConnectedToServer => {
            assert(NetworkEvent::spec_from_code(12) == Some(NetworkEvent::OnPlayerConnectedToServer));
        },
        NetworkEvent::OnPlayerDisconnectedFromServer => {
            assert(NetworkEvent::spec_from_code(13) == Some(NetworkEvent::OnPlayerDisconnectedFromServer));
        },
        NetworkEvent::RequestRespawnPoint => {
            assert(NetworkEvent::spec_from_code(14) == Some(NetworkEvent::RequestRespawnPoint));
        },
        NetworkEvent::FreeSpawnPoint => {
            assert(NetworkEvent::spec_from_code(15) == Some(NetworkEvent::FreeSpawnPoint));
        },
        NetworkEvent::RequestTeamBaseModel => {
            assert(NetworkEvent::spec_from_code(16) == Some(NetworkEvent::RequestTeamBaseModel));
        },
        NetworkEvent::RequestCapturePoints => {
            assert(NetworkEvent::spec_from_code(17) == Some(NetworkEvent::RequestCapturePoints));
        },
        NetworkEvent::RequestEqualizerModel => {
            assert(NetworkEvent::spec_from_code(18) == Some(NetworkEvent::RequestEqualizerModel));
        },
        NetworkEvent::TeamBase => {
            assert(NetworkEvent::spec_from_code(19) == Some(NetworkEvent::TeamBase));
        },
        NetworkEvent::RegisterCapturePoints => {
            assert(NetworkEvent::spec_from_code(20) == Some(NetworkEvent::RegisterCapturePoints));
        },
        NetworkEvent::RegisterEqualizer => {
            assert(NetworkEvent::spec_from_code(21) == Some(NetworkEvent::RegisterEqualizer));
        },
        NetworkEvent::FreeRespawnPoint => {
            assert(NetworkEvent::spec_from_code(22) == Some(NetworkEvent::FreeRespawnPoint));
        },
        NetworkEvent::PlayerIDs => {
            assert(NetworkEvent::spec_from_code(23) == Some(NetworkEvent::PlayerIDs));
        },
        NetworkEvent::SyncMachineCubes => {
            assert(NetworkEvent::spec_from_code(24) == Some(NetworkEvent::SyncMachineCubes));
        },
        NetworkEvent::MachineDestroyed => {
            assert(NetworkEvent::spec_from_code(25) == Some(NetworkEvent::MachineDestroyed));
        },
        NetworkEvent::GameStarted => {
            assert(NetworkEvent::spec_from_code(26) == Some(NetworkEvent::GameStarted));
        },
        NetworkEvent::OnPlayerInputChanged => {
            assert(NetworkEvent::spec_from_code(27) == Some(NetworkEvent::OnPlayerInputChanged));
        },
        NetworkEvent::OnServerReceivedInputChange => {
            assert(NetworkEvent::spec_from_code(28) == Some(NetworkEvent::OnServerReceivedInputChange));
        },
        NetworkEvent::ClientUnregistered => {
            assert(NetworkEvent::spec_from_code(29) == Some(NetworkEvent::ClientUnregistered));
        },
        NetworkEvent::OnAnotherClientDisconnected => {
            assert(NetworkEvent::spec_from_code(30) == Some(NetworkEvent::OnAnotherClientDisconnected));
        },
        NetworkEvent::OnClientReconnected => {
            assert(NetworkEvent::spec_from_code(31) == Some(NetworkEvent::OnClientReconnected));
        },
        NetworkEvent::DamageCube => {
            assert(NetworkEvent::spec_from_code(32) == Some(NetworkEvent::DamageCube));
        },
        NetworkEvent::FireWeaponEffect => {
            assert(NetworkEvent::spec_from_code(33) == Some(NetworkEvent::FireWeaponEffect));
        },
        NetworkEvent::FireMiss => {
            assert(NetworkEvent::spec_from_code(35) == Some(NetworkEvent::FireMiss));
        },
        NetworkEvent::MultipleFireMisses => {
            assert(NetworkEvent::spec_from_code(36) == Some(NetworkEvent::MultipleFireMisses));
        },
        NetworkEvent::CurrentGameTime => {
            assert(NetworkEvent::spec_from_code(37) == Some(NetworkEvent::CurrentGameTime));
        },
        NetworkEvent::EndGame => {
            assert(NetworkEvent::spec_from_code(38) == Some(NetworkEvent::EndGame));
        },
        NetworkEvent::GameWon => {
            assert(NetworkEvent::spec_from_code(39) == Some(NetworkEvent::GameWon));
        },
        NetworkEvent::GameLost => {
            assert(NetworkEvent::spec_from_code(40) == Some(NetworkEvent::GameLost));
        },
        NetworkEvent::GameWonBaseDestroyed => {
            assert(NetworkEvent::spec_from_code(41) == Some(NetworkEvent::GameWonBaseDestroyed));
        },
        NetworkEvent::GameLostBaseDestroyed => {
            assert(NetworkEvent::spec_from_code(42) == Some(NetworkEvent::GameLostBaseDestroyed));
        },
        NetworkEvent::BuffTeamPlayers => {
            assert(NetworkEvent::spec_from_code(43) == Some(NetworkEvent::BuffTeamPlayers));
        },
        NetworkEvent::PlayerThreateningBase => {
            assert(NetworkEvent::spec_from_code(44) == Some(NetworkEvent::PlayerThreateningBase));
        },
        NetworkEvent::TimeToGameStart => {
            assert(NetworkEvent::spec_from_code(45) == Some(NetworkEvent::TimeToGameStart));
        },
        NetworkEvent::SetRespawnWaitingTime => {
            assert(NetworkEvent::spec_from_code(46) == Some(NetworkEvent::SetRespawnWaitingTime));
        },
        NetworkEvent::TeamBaseState => {
            assert(NetworkEvent::spec_from_code(47) == Some(NetworkEvent::TeamBaseState));
        },
        NetworkEvent::TeamBaseCaptureStart => {
            assert(NetworkEvent::spec_from_code(48) == Some(NetworkEvent::TeamBaseCaptureStart));
        },
        NetworkEvent::TeamBaseCaptureReset => {
            assert(NetworkEvent::spec_from_code(49) == Some(NetworkEvent::TeamBaseCaptureReset));
        },
        NetworkEvent::TeamBaseCaptureStop => {
            assert(NetworkEvent::spec_from_code(50) == Some(NetworkEvent::TeamBaseCaptureStop));
        },
        NetworkEvent::TeamBaseSectionComplete => {
            assert(NetworkEvent::spec_from_code(51) == Some(NetworkEvent::TeamBaseSectionComplete));
        },
        NetworkEvent::TeamBaseFinalSectionComplete => {
            assert(NetworkEvent::spec_from_code(52) == Some(NetworkEvent::TeamBaseFinalSectionComplete));
        },
        NetworkEvent::TeamBaseInitialise => {
            assert(NetworkEvent::spec_from_code(53) == Some(NetworkEvent::TeamBaseInitialise));
        },
        NetworkEvent::GetClientPings => {
            assert(NetworkEvent::spec_from_code(54) == Some(NetworkEvent::GetClientPings));
        },
        NetworkEvent::SetClientPing => {
            assert(NetworkEvent::spec_from_code(55) == Some(NetworkEvent::SetClientPing));
        },
        NetworkEvent::WarnPlayer => {
            assert(NetworkEvent::spec_from_code(56) == Some(NetworkEvent::WarnPlayer));
        },
        NetworkEvent::EnemySpotted => {
            assert(NetworkEvent::spec_from_code(57) == Some(NetworkEvent::EnemySpotted));
        },
        NetworkEvent::RemoteEnemySpotted => {
            assert(NetworkEvent::spec_from_code(58) == Some(NetworkEvent::RemoteEnemySpotted));
        },
        NetworkEvent::AssistBonusRequest => {
            assert(NetworkEvent::spec_from_code(59) == Some(NetworkEvent::AssistBonusRequest));
        },
        NetworkEvent::TeamBaseContested => {
            assert(NetworkEvent::spec_from_code(60) == Some(NetworkEvent::TeamBaseContested));
        },
        NetworkEvent::AcquireRemoteAI => {
            assert(NetworkEvent::spec_from_code(61) == Some(NetworkEvent::AcquireRemoteAI));
        },
        NetworkEvent::KillBonusRequest => {
            assert(NetworkEvent::spec_from_code(63) == Some(NetworkEvent::KillBonusRequest));
        },
        NetworkEvent::EACRegisterToken => {
            assert(NetworkEvent::spec_from_code(64) == Some(NetworkEvent::EACRegisterToken));
        },
        NetworkEvent::HeallingAssistBonusRequest => {
            assert(NetworkEvent::spec_from_code(65) == Some(NetworkEvent::HeallingAssistBonusRequest));
        },
        NetworkEvent::ProtectTeamMateBonusRequest => {
            assert(NetworkEvent::spec_from_code(66) == Some(NetworkEvent::ProtectTeamMateBonusRequest));
        },
        NetworkEvent::DefendTheBaseBonusRequest => {
            assert(NetworkEvent::spec_from_code(67) == Some(NetworkEvent::DefendTheBaseBonusRequest));
        },
        NetworkEvent::DestroyCubesBonusRequest => {
            assert(NetworkEvent::spec_from_code(68) == Some(NetworkEvent::DestroyCubesBonusRequest));
        },
        NetworkEvent::DestroyHealCubesPointsAwarded => {
            assert(NetworkEvent::spec_from_code(69) == Some(NetworkEvent::DestroyHealCubesPointsAwarded));
        },
        NetworkEvent::ConfirmedKill => {
            assert(NetworkEvent::spec_from_code(70) == Some(NetworkEvent::ConfirmedKill));
        },
        NetworkEvent::BonusesFlushDone => {
            assert(NetworkEvent::spec_from_code(71) == Some(NetworkEvent::BonusesFlushDone));
        },
        NetworkEvent::AlignmentRectifierStarted => {
            assert(NetworkEvent::spec_from_code(72) == Some(NetworkEvent::AlignmentRectifierStarted));
        },
        NetworkEvent::HealCubesBonusRequest => {
            assert(NetworkEvent::spec_from_code(73) == Some(NetworkEvent::HealCubesBonusRequest));
        },
        NetworkEvent::SetShieldState => {
            assert(NetworkEvent::spec_from_code(74) == Some(NetworkEvent::SetShieldState));
        },
        NetworkEvent::TeamBaseLowHealth => {
            assert(NetworkEvent::spec_from_code(75) == Some(NetworkEvent::TeamBaseLowHealth));
        },
        NetworkEvent::AwardTeamBaseProtoniumDestroyedRequest => {
            assert(NetworkEvent::spec_from_code(76) == Some(NetworkEvent::AwardTeamBaseProtoniumDestroyedRequest));
        },
        NetworkEvent::InitialiseGameStats => {
            assert(NetworkEvent::spec_from_code(77) == Some(NetworkEvent::InitialiseGameStats));
        },
        NetworkEvent::UpdateGameStats => {
            assert(NetworkEvent::spec_from_code(78) == Some(NetworkEvent::UpdateGameStats));
        },
        NetworkEvent::MapPingEvent => {
            assert(NetworkEvent::spec_from_code(79) == Some(NetworkEvent::MapPingEvent));
        },
        NetworkEvent::SurrenderRequest => {
            assert(NetworkEvent::spec_from_code(80) == Some(NetworkEvent::SurrenderRequest));
        },
        NetworkEvent::HealSelf => {
            assert(NetworkEvent::spec_from_code(81) == Some(NetworkEvent::HealSelf));
        },
        NetworkEvent::HealSelfResponse => {
            assert(NetworkEvent::spec_from_code(82) == Some(NetworkEvent::HealSelfResponse));
        },
        NetworkEvent::SurrenderVoteStarted => {
            assert(NetworkEvent::spec_from_code(83) == Some(NetworkEvent::SurrenderVoteStarted));
        },
        NetworkEvent::SurrenderVoteCast => {
            assert(NetworkEvent::spec_from_code(84) == Some(NetworkEvent::SurrenderVoteCast));
        },
        NetworkEvent::CurrentSurrenderVotes => {
            assert(NetworkEvent::spec_from_code(85) == Some(NetworkEvent::CurrentSurrenderVotes));
        },
        NetworkEvent::SurrenderAccepted => {
            assert(NetworkEvent::spec_from_code(86) == Some(NetworkEvent::SurrenderAccepted));
        },
        NetworkEvent::SurrenderDeclined => {
            assert(NetworkEvent::spec_from_code(87) == Some(NetworkEvent::SurrenderDeclined));
        },
        NetworkEvent::SetSurrenderTimes => {
            assert(NetworkEvent::spec_from_code(88) == Some(NetworkEvent::SetSurrenderTimes));
        },
        NetworkEvent::SetFinalGameScore => {
            assert(NetworkEvent::spec_from_code(89) == Some(NetworkEvent::SetFinalGameScore));
        },
        NetworkEvent::PitLeaderBoardUpdate => {
            assert(NetworkEvent::spec_from_code(90) == Some(NetworkEvent::PitLeaderBoardUpdate));
        },
        NetworkEvent::PitModeState => {
            assert(NetworkEvent::spec_from_code(91) == Some(NetworkEvent::PitModeState));
        },
        NetworkEvent::ValidateGameGuid => {
            assert(NetworkEvent::spec_from_code(93) == Some(NetworkEvent::ValidateGameGuid));
        },
        NetworkEvent::GameGuidValidated => {
            assert(NetworkEvent::spec_from_code(94) == Some(NetworkEvent::GameGuidValidated));
        },
        NetworkEvent::PlayerInsideBase => {
            assert(NetworkEvent::spec_from_code(95) == Some(NetworkEvent::PlayerInsideBase));
        },
        NetworkEvent::ConfirmedAssist => {
            assert(NetworkEvent::spec_from_code(97) == Some(NetworkEvent::ConfirmedAssist));
        },
        NetworkEvent::LockOnNotification => {
            assert(NetworkEvent::spec_from_code(98) == Some(NetworkEvent::LockOnNotification));
        },
        NetworkEvent::LockOnNotificationBroadcast => {
            assert(NetworkEvent::spec_from_code(99) == Some(NetworkEvent::LockOnNotificationBroadcast));
        },
        NetworkEvent::ShieldSpawned => {
            assert(NetworkEvent::spec_from_code(100) == Some(NetworkEvent::ShieldSpawned));
        },
        NetworkEvent::SpawnShield => {
            assert(NetworkEvent::spec_from_code(101) == Some(NetworkEvent::SpawnShield));
        },
        NetworkEvent::BroadcastOpenShield => {
            assert(NetworkEvent::spec_from_code(102) == Some(NetworkEvent::BroadcastOpenShield));
        },
        NetworkEvent::OpenShield => {
            assert(NetworkEvent::spec_from_code(103) == Some(NetworkEvent::OpenShield));
        },
        NetworkEvent::BroadcastInvisible => {
            assert(NetworkEvent::spec_from_code(104) == Some(NetworkEvent::BroadcastInvisible));
        },
        NetworkEvent::MakeInvisible => {
            assert(NetworkEvent::spec_from_code(105) == Some(NetworkEvent::MakeInvisible));
        },
        NetworkEvent::BroadcastVisible => {
            assert(NetworkEvent::spec_from_code(106) == Some(NetworkEvent::BroadcastVisible));
        },
        NetworkEvent::MakeVisible => {
            assert(NetworkEvent::spec_from_code(107) == Some(NetworkEvent::MakeVisible));
        },
        NetworkEvent::BroadcastActivateTeleportEffect => {
            assert(NetworkEvent::spec_from_code(108) == Some(NetworkEvent::BroadcastActivateTeleportEffect));
        },
        NetworkEvent::ActivateTeleportEffect => {
            assert(NetworkEvent::spec_from_code(109) == Some(NetworkEvent::ActivateTeleportEffect));
        },
        NetworkEvent::BroadcastActivateReadyEffect => {
            assert(NetworkEvent::spec_from_code(110) == Some(NetworkEvent::BroadcastActivateReadyEffect));
        },
        NetworkEvent::ActivateReadyEffect => {
            assert(NetworkEvent::spec_from_code(111) == Some(NetworkEvent::ActivateReadyEffect));
        },
        NetworkEvent::BroadcastSpawnEmpLocator => {
            assert(NetworkEvent::spec_from_code(112) == Some(NetworkEvent::BroadcastSpawnEmpLocator));
        },
        NetworkEvent::SpawnEmpLocator => {
            assert(NetworkEvent::spec_from_code(113) == Some(NetworkEvent::SpawnEmpLocator));
        },
        NetworkEvent::BroadcastSpawnEmpMachineEffect => {
            assert(NetworkEvent::spec_from_code(114) == Some(NetworkEvent::BroadcastSpawnEmpMachineEffect));
        },
        NetworkEvent::SpawnEmpMachineEffect => {
            assert(NetworkEvent::spec_from_code(115) == Some(NetworkEvent::SpawnEmpMachineEffect));
        },
        NetworkEvent::WeaponSelect => {
            assert(NetworkEvent::spec_from_code(116) == Some(NetworkEvent::WeaponSelect));
        },
        NetworkEvent::BroadcastWeaponSelect => {
            assert(NetworkEvent::spec_from_code(117) == Some(NetworkEvent::BroadcastWeaponSelect));
        },
        NetworkEvent::HostAIs => {
            assert(NetworkEvent::spec_from_code(118) == Some(NetworkEvent::HostAIs));
        },
        NetworkEvent::HealAlly => {
            assert(NetworkEvent::spec_from_code(119) == Some(NetworkEvent::HealAlly));
        },
        NetworkEvent::HealAllyResponse => {
            assert(NetworkEvent::spec_from_code(120) == Some(NetworkEvent::HealAllyResponse));
        },
        NetworkEvent::SelfDestructClassicMode => {
            assert(NetworkEvent::spec_from_code(121) == Some(NetworkEvent::SelfDestructClassicMode));
        },
        NetworkEvent::GameModeSettings => {
            assert(NetworkEvent::spec_from_code(122) == Some(NetworkEvent::GameModeSettings));
        },
        NetworkEvent::TeamDeathMatchState => {
            assert(NetworkEvent::spec_from_code(123) == Some(NetworkEvent::TeamDeathMatchState));
        },
        NetworkEvent::ClientDisconnecting => {
            assert(NetworkEvent::spec_from_code(124) == Some(NetworkEvent::ClientDisconnecting));
        },
        NetworkEvent::SendBonus => {
            assert(NetworkEvent::spec_from_code(125) == Some(NetworkEvent::SendBonus));
        },
        NetworkEvent::TestConnection => {
            assert(NetworkEvent::spec_from_code(126) == Some(NetworkEvent::TestConnection));
        },
        NetworkEvent::MachineDestroyedConfirmed => {
            assert(NetworkEvent::spec_from_code(127) == Some(NetworkEvent::MachineDestroyedConfirmed));
        },
        NetworkEvent::EnergyModuleActivated => {
            assert(NetworkEvent::spec_from_code(128) == Some(NetworkEvent::EnergyModuleActivated));
        },
        NetworkEvent::BroadcastLoadingProgress => {
            assert(NetworkEvent::spec_from_code(129) == Some(NetworkEvent::BroadcastLoadingProgress));
        },
        NetworkEvent::RequestLoadingProgressAllUsers => {
            assert(NetworkEvent::spec_from_code(130) == Some(NetworkEvent::RequestLoadingProgressAllUsers));
        },
        NetworkEvent::LoadingComplete => {
            assert(NetworkEvent::spec_from_code(131) == Some(NetworkEvent::LoadingComplete));
        },
        NetworkEvent::GameAborted => {
            assert(NetworkEvent::spec_from_code(132) == Some(NetworkEvent::GameAborted));
        },
        NetworkEvent::SendDamagedByEnemyShield => {
            assert(NetworkEvent::spec_from_code(134) == Some(NetworkEvent::SendDamagedByEnemyShield));
        },
        NetworkEvent::DamagedByEnemyShield => {
            assert(NetworkEvent::spec_from_code(135) == Some(NetworkEvent::DamagedByEnemyShield));
        },
        NetworkEvent::EqualizerNotification => {
            assert(NetworkEvent::spec_from_code(136) == Some(NetworkEvent::EqualizerNotification));
        },
        NetworkEvent::CapturePointProgress => {
            assert(NetworkEvent::spec_from_code(137) == Some(NetworkEvent::CapturePointProgress));
        },
        NetworkEvent::CapturePointNotification => {
            assert(NetworkEvent::spec_from_code(138) == Some(NetworkEvent::CapturePointNotification));
        },
        NetworkEvent::RadarModuleActivated => {
            assert(NetworkEvent::spec_from_code(140) == Some(NetworkEvent::RadarModuleActivated));
        },
        NetworkEvent::RemoteRadarModuleActivated => {
            assert(NetworkEvent::spec_from_code(141) == Some(NetworkEvent::RemoteRadarModuleActivated));
        },
        NetworkEvent::EACMessage => {
            assert(NetworkEvent::spec_from_code(142) == Some(NetworkEvent::EACMessage));
        },
        NetworkEvent::Taunt => {
            assert(NetworkEvent::spec_from_code(143) == Some(NetworkEvent::Taunt));
        },
        NetworkEvent::MachineFullHealth => {
            assert(NetworkEvent::spec_from_code(144) == Some(NetworkEvent::MachineFullHealth));
        },
        NetworkEvent::RequestSync => {
            assert(NetworkEvent::spec_from_code(145) == Some(NetworkEvent::RequestSync));
        },
        NetworkEvent::BeginSync => {
            assert(NetworkEvent::spec_from_code(146) == Some(NetworkEvent::BeginSync));
        },
        NetworkEvent::EndOfSync => {
            assert(NetworkEvent::spec_from_code(147) == Some(NetworkEvent::EndOfSync));
        },
        NetworkEvent::SyncTeamBaseCubes => {
            assert(NetworkEvent::spec_from_code(148) == Some(NetworkEvent::SyncTeamBaseCubes));
        },
        NetworkEvent::SyncEqualizerNotification => {
            assert(NetworkEvent::spec_from_code(150) == Some(NetworkEvent::SyncEqualizerNotification));
        },
        NetworkEvent::PlayerQuitRequest => {
            assert(NetworkEvent::spec_from_code(151) == Some(NetworkEvent::PlayerQuitRequest));
        },
        NetworkEvent::PlayerQuitRequestComplete => {
            assert(NetworkEvent::spec_from_code(152) == Some(NetworkEvent::PlayerQuitRequestComplete));
        },
        NetworkEvent::DamageCubeEffectOnly => {
            assert(NetworkEvent::spec_from_code(153) == Some(NetworkEvent::DamageCubeEffectOnly));
        },
        NetworkEvent::DamageCubeNoEffect => {
            assert(NetworkEvent::spec_from_code(154) == Some(NetworkEvent::DamageCubeNoEffect));
        },
        NetworkEvent::DestroyCubeEffectOnly => {
            assert(NetworkEvent::spec_from_code(155) == Some(NetworkEvent::DestroyCubeEffectOnly));
        },
        NetworkEvent::DestroyCubeNoEffect => {
            assert(NetworkEvent::spec_from_code(156) == Some(NetworkEvent::DestroyCubeNoEffect));
        },
        NetworkEvent::DestroyCubesFull => {
            assert(NetworkEvent::spec_from_code(157) == Some(NetworkEvent::DestroyCubesFull));
        },
        NetworkEvent::LongPlayValue => {
            assert(NetworkEvent::spec_from_code(170) == Some(NetworkEvent::LongPlayValue));
        },
        NetworkEvent::UpdateVotingAfterBattle => {
            assert(NetworkEvent::spec_from_code(171) == Some(NetworkEvent::UpdateVotingAfterBattle));
        },
        NetworkEvent::CosmeticAction => {
            assert(NetworkEvent::spec_from_code(172) == Some(NetworkEvent::CosmeticAction));
        },
    }
}

} // verus!
