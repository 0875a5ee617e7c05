//! The battle-entry parameter table.
//!
//! An outbound battle-entry call travels as a generic key-to-value table
//! for a remote-procedure transport. This module builds that table as a
//! plain value of the library's own: numeric keys at the top level,
//! string keys inside nested tables, and [`ParamValue`] for the values.
//! The transport layer turns the finished table into its own value model
//! verbatim; no entry is added, dropped or reordered after this point.
//!
//! Doubles travel as raw bit patterns ([`DoubleBits`]); an integer that
//! the table presents as a double keeps its integer form under
//! [`ParamValue::DoubleOfLong`] and is widened by the transport.

use vstd::prelude::*;

use crate::types::DoubleBits;

verus! {

/// The mode a battle is entered under.
#[derive(Debug, Clone, Copy, PartialEq, Eq)]
pub enum GameModeType {
    BattleArena,
    SuddenDeath,
    Pit,
    TestMode,
    SinglePlayerTDM,
    TeamDeathmatch,
    Campaign,
}

impl GameModeType {
    /// The numeric form the table carries.
    pub open spec fn spec_repr(self) -> u8 {
        match self {
            GameModeType::BattleArena => 0,
            GameModeType::SuddenDeath => 1,
            GameModeType::Pit => 2,
            GameModeType::TestMode => 3,
            GameModeType::SinglePlayerTDM => 4,
            GameModeType::TeamDeathmatch => 5,
            GameModeType::Campaign => 6,
        }
    }

    /// The numeric form the table carries.
    pub fn repr(self) -> (r: u8)
        ensures
            r == self.spec_repr(),
    {
        match self {
            GameModeType::BattleArena => 0,
            GameModeType::SuddenDeath => 1,
            GameModeType::Pit => 2,
            GameModeType::TestMode => 3,
            GameModeType::SinglePlayerTDM => 4,
            GameModeType::TeamDeathmatch => 5,
            GameModeType::Campaign => 6,
        }
    }
}

/// One value of the parameter table.
#[derive(Debug, PartialEq)]
pub enum ParamValue {
    /// A text value.
    Str(String),
    /// A 64-bit integer.
    Long(i64),
    /// A 32-bit integer.
    Int(i32),
    /// A boolean.
    Bool(bool),
    /// A raw byte block.
    Bytes(Vec<u8>),
    /// An array of 32-bit integers.
    IntArr(Vec<i32>),
    /// An integer-to-integer dictionary, as ordered pairs.
    IntDict(Vec<(i32, i32)>),
    /// A double, as its raw bit pattern.
    Double(DoubleBits),
    /// A double whose value is this integer; the transport widens it.
    DoubleOfLong(i64),
    /// A nested string-keyed table, in insertion order.
    Table(Vec<(&'static str, ParamValue)>),
    /// An array of values.
    Arr(Vec<ParamValue>),
}

/// The top-level parameter table: numeric keys in insertion order.
#[derive(Debug, PartialEq)]
pub struct ParamTable {
    pub entries: Vec<(u8, ParamValue)>,
}

impl ParamTable {
    /// An empty table.
    pub fn new() -> (r: ParamTable)
        ensures
            r.entries@ == Seq::<(u8, ParamValue)>::empty(),
    {
        ParamTable { entries: Vec::new() }
    }

    /// Append one entry.
    pub fn insert(&mut self, key: u8, value: ParamValue)
        ensures
            final(self).entries@ == old(self).entries@.push((key, value)),
    {
        self.entries.push((key, value));
    }
}

/// Copy a vector of plain values.
fn copied_vec<T: Copy>(v: &Vec<T>) -> (r: Vec<T>)
    ensures
        r@ == v@,
{
    let mut r: Vec<T> = Vec::new();
    let mut i: usize = 0;
    proof {
        assert(v@.take(0) =~= Seq::<T>::empty());
    }
    while i < v.len()
        invariant
            i <= v@.len(),
            r@ == v@.take(i as int),
        decreases v@.len() - i,
    {
        r.push(v[i]);
        proof {
            assert(v@.take(i as int).push(v@[i as int]) =~= v@.take(i + 1));
        }
        i = i + 1;
    }
    proof {
        assert(v@.take(v@.len() as int) =~= v@);
    }
    r
}

/// One nested-table entry holds the given key and a string whose text is
/// `val`.
pub open spec fn is_str_entry(
    e: (&'static str, ParamValue),
    key: Seq<char>,
    val: Seq<char>,
) -> bool {
    e.0@ == key && (e.1 matches ParamValue::Str(s) && s@ == val)
}

/// Connection tuning handed to the peer when entering a battle.
#[derive(Debug, Clone, PartialEq)]
pub struct NetworkConfig {
    pub network_channel_type: String,
    pub max_sent_message_queue_size: u16,
    pub is_acks_long: bool,
    pub network_drop_threshold: u8,
    pub packet_size: u16,
    pub max_combined_reliable_message_count: u16,
    pub max_combined_reliable_message_size: u16,
    pub min_update_timeout: u16,
    pub max_delay: i64,
    pub overflow_threshold: u8,
    pub max_packet_size: u16,
    pub resend_delay_base: DoubleBits,
    pub resend_delay_rtt_mult: DoubleBits,
    pub network_peer_update_interval: i64,
    pub max_milliseconds_delay_for_being_disconnected: i32,
}

/// The transmissible form of a network config: these fifteen entries, in
/// this order.
pub open spec fn network_config_table(
    c: NetworkConfig,
    s: Seq<(&'static str, ParamValue)>,
) -> bool {
    &&& s.len() == 15
    &&& is_str_entry(s[0], "NetworkChannelType"@, c.network_channel_type@)
    &&& s[1].0@ == "MaxSentMessageQueueSize"@ && s[1].1 == ParamValue::Long(
        c.max_sent_message_queue_size as i64,
    )
    &&& s[2].0@ == "IsAcksLong"@ && s[2].1 == ParamValue::Long(
        if c.is_acks_long {
            1i64
        } else {
            0i64
        },
    )
    &&& s[3].0@ == "NetworkDropThreshold"@ && s[3].1 == ParamValue::Long(
        c.network_drop_threshold as i64,
    )
    &&& s[4].0@ == "PacketSize"@ && s[4].1 == ParamValue::Long(c.packet_size as i64)
    &&& s[5].0@ == "MaxCombinedReliableMessageCount"@ && s[5].1 == ParamValue::Long(
        c.max_combined_reliable_message_count as i64,
    )
    &&& s[6].0@ == "MaxCombinedReliableMessageSize"@ && s[6].1 == ParamValue::Long(
        c.max_combined_reliable_message_size as i64,
    )
    &&& s[7].0@ == "MinUpdateTimeout"@ && s[7].1 == ParamValue::Long(c.min_update_timeout as i64)
    &&& s[8].0@ == "MaxDelay"@ && s[8].1 == ParamValue::Long(c.max_delay)
    &&& s[9].0@ == "OverflowThreshold"@ && s[9].1 == ParamValue::Long(
        c.overflow_threshold as i64,
    )
    &&& s[10].0@ == "MaxPacketSize"@ && s[10].1 == ParamValue::Long(c.max_packet_size as i64)
    &&& s[11].0@ == "ResendDelayBase"@ && s[11].1 == ParamValue::Double(c.resend_delay_base)
    &&& s[12].0@ == "ResendDelayRttMult"@ && s[12].1 == ParamValue::Double(c.resend_delay_rtt_mult)
    &&& s[13].0@ == "NetworkPeerUpdateInterval"@ && s[13].1 == ParamValue::DoubleOfLong(
        c.network_peer_update_interval,
    )
    &&& s[14].0@ == "MaxMillisecondsDelayForBeingDisconnected"@ && s[14].1 == ParamValue::Long(
        c.max_milliseconds_delay_for_being_disconnected as i64,
    )
}

impl NetworkConfig {
    /// Build the nested table the transport sends for this config.
    pub fn as_transmissible(&self) -> (r: ParamValue)
        ensures
            (r matches ParamValue::Table(t) && network_config_table(*self, t@)),
    {
        let mut t: Vec<(&'static str, ParamValue)> = Vec::new();
        t.push(("NetworkChannelType", ParamValue::Str(self.network_channel_type.clone())));
        t.push((
            "MaxSentMessageQueueSize",
            ParamValue::Long(self.max_sent_message_queue_size as i64),
        ));
        t.push((
            "IsAcksLong",
            ParamValue::Long(
                if self.is_acks_long {
                    1i64
                } else {
                    0i64
                },
            ),
        ));
        t.push(("NetworkDropThreshold", ParamValue::Long(self.network_drop_threshold as i64)));
        t.push(("PacketSize", ParamValue::Long(self.packet_size as i64)));
        t.push((
            "MaxCombinedReliableMessageCount",
            ParamValue::Long(self.max_combined_reliable_message_count as i64),
        ));
        t.push((
            "MaxCombinedReliableMessageSize",
            ParamValue::Long(self.max_combined_reliable_message_size as i64),
        ));
        t.push(("MinUpdateTimeout", ParamValue::Long(self.min_update_timeout as i64)));
        t.push(("MaxDelay", ParamValue::Long(self.max_delay)));
        t.push(("OverflowThreshold", ParamValue::Long(self.overflow_threshold as i64)));
        t.push(("MaxPacketSize", ParamValue::Long(self.max_packet_size as i64)));
        t.push(("ResendDelayBase", ParamValue::Double(self.resend_delay_base)));
        t.push(("ResendDelayRttMult", ParamValue::Double(self.resend_delay_rtt_mult)));
        t.push(("NetworkPeerUpdateInterval", ParamValue::DoubleOfLong(
            self.network_peer_update_interval,
        )));
        t.push((
            "MaxMillisecondsDelayForBeingDisconnected",
            ParamValue::Long(self.max_milliseconds_delay_for_being_disconnected as i64),
        ));
        ParamValue::Table(t)
    }
}

/// A clan as it appears inside a player's entry.
#[derive(Debug, Clone, PartialEq)]
pub struct ClanInfo {
    pub name: String,
    pub use_custom_avatar: bool,
    pub default_avatar_id: i32,
}

/// One player's battle-entry data.
#[derive(Debug, Clone, PartialEq)]
pub struct PlayerData {
    pub name: String,
    pub display_name: String,
    pub robot_name: String,
    pub cube_map: Vec<u8>,
    pub color_map: Vec<u8>,
    pub spawn_effect: Option<String>,
    pub death_effect: Option<String>,
    pub group_id: Option<String>,
    pub team: i32,
    pub has_premium: bool,
    pub weapon_order: Vec<i32>,
    pub robot_unique_id: String,
    pub cpu: i32,
    pub non_custom_avatar_id: Option<i32>,
    pub mastery_level: i32,
    pub tier: i32,
    pub player_rank: i32,
    pub weapon_ranks: Vec<(i32, i32)>,
    pub is_ai: bool,
    pub clan_info: Option<ClanInfo>,
}

/// The transmissible form of one player: sixteen fixed entries, then the
/// optional effect, group, avatar and clan entries, in this order.
pub open spec fn player_data_table(p: PlayerData, s: Seq<(&'static str, ParamValue)>) -> bool {
    let n1 = 16int + (if p.spawn_effect is Some {
        1int
    } else {
        0int
    });
    let n2 = n1 + (if p.death_effect is Some {
        1int
    } else {
        0int
    });
    let n3 = n2 + (if p.group_id is Some {
        1int
    } else {
        0int
    });
    let n4 = n3 + (if p.non_custom_avatar_id is Some {
        1int
    } else {
        0int
    });
    let n5 = n4 + (if p.clan_info is Some {
        3int
    } else {
        0int
    });
    &&& s.len() == n5
    &&& is_str_entry(s[0], "name"@, p.name@)
    &&& is_str_entry(s[1], "displayName"@, p.display_name@)
    &&& is_str_entry(s[2], "robotName"@, p.robot_name@)
    &&& s[3].0@ == "cubeMap"@ && (s[3].1 matches ParamValue::Bytes(b) && b@ == p.cube_map@)
    &&& s[4].0@ == "colorMap"@ && (s[4].1 matches ParamValue::Bytes(b) && b@ == p.color_map@)
    &&& s[5].0@ == "team"@ && s[5].1 == ParamValue::Int(p.team)
    &&& s[6].0@ == "hasPremium"@ && s[6].1 == ParamValue::Bool(p.has_premium)
    &&& s[7].0@ == "weaponOrder"@ && (s[7].1 matches ParamValue::IntArr(a) && a@
        == p.weapon_order@)
    &&& is_str_entry(s[8], "robotUniqueID"@, p.robot_unique_id@)
    &&& s[9].0@ == "cpu"@ && s[9].1 == ParamValue::Int(p.cpu)
    &&& s[10].0@ == "useCustomAvatar"@ && s[10].1 == ParamValue::Bool(
        p.non_custom_avatar_id is None,
    )
    &&& s[11].0@ == "masteryLevel"@ && s[11].1 == ParamValue::Int(p.mastery_level)
    &&& s[12].0@ == "tier"@ && s[12].1 == ParamValue::Int(p.tier)
    &&& s[13].0@ == "playerRank"@ && s[13].1 == ParamValue::Int(p.player_rank)
    &&& s[14].0@ == "weaponRanks"@ && (s[14].1 matches ParamValue::IntDict(d) && d@
        == p.weapon_ranks@)
    &&& s[15].0@ == "isAI"@ && s[15].1 == ParamValue::Bool(p.is_ai)
    &&& match p.spawn_effect {
        Some(e) => is_str_entry(s[16], "spawnEffect"@, e@),
        None => true,
    }
    &&& match p.death_effect {
        Some(e) => is_str_entry(s[n1], "deathEffect"@, e@),
        None => true,
    }
    &&& match p.group_id {
        Some(e) => is_str_entry(s[n2], "groupId"@, e@),
        None => true,
    }
    &&& match p.non_custom_avatar_id {
        Some(v) => s[n3].0@ == "avatarId"@ && s[n3].1 == ParamValue::Int(v),
        None => true,
    }
    &&& match p.clan_info {
        Some(ci) => is_str_entry(s[n4], "clanName"@, ci.name@) && s[n4 + 1].0@
            == "clanUseCustomAvatar"@ && s[n4 + 1].1 == ParamValue::Bool(ci.use_custom_avatar)
            && s[n4 + 2].0@ == "clanDefaultAvatarID"@ && s[n4 + 2].1 == ParamValue::Int(
            ci.default_avatar_id,
        ),
        None => true,
    }
}

impl PlayerData {
    /// Build the nested table the transport sends for this player.
    pub fn as_transmissible(&self) -> (r: ParamValue)
        ensures
            (r matches ParamValue::Table(t) && player_data_table(*self, t@)),
    {
        let mut t: Vec<(&'static str, ParamValue)> = Vec::new();
        t.push(("name", ParamValue::Str(self.name.clone())));
        t.push(("displayName", ParamValue::Str(self.display_name.clone())));
        t.push(("robotName", ParamValue::Str(self.robot_name.clone())));
        t.push(("cubeMap", ParamValue::Bytes(copied_vec(&self.cube_map))));
        t.push(("colorMap", ParamValue::Bytes(copied_vec(&self.color_map))));
        t.push(("team", ParamValue::Int(self.team)));
        t.push(("hasPremium", ParamValue::Bool(self.has_premium)));
        t.push(("weaponOrder", ParamValue::IntArr(copied_vec(&self.weapon_order))));
        t.push(("robotUniqueID", ParamValue::Str(self.robot_unique_id.clone())));
        t.push(("cpu", ParamValue::Int(self.cpu)));
        t.push(("useCustomAvatar", ParamValue::Bool(self.non_custom_avatar_id.is_none())));
        t.push(("masteryLevel", ParamValue::Int(self.mastery_level)));
        t.push(("tier", ParamValue::Int(self.tier)));
        t.push(("playerRank", ParamValue::Int(self.player_rank)));
        t.push(("weaponRanks", ParamValue::IntDict(copied_vec(&self.weapon_ranks))));
        t.push(("isAI", ParamValue::Bool(self.is_ai)));
        match &self.spawn_effect {
            Some(e) => t.push(("spawnEffect", ParamValue::Str(e.clone()))),
            None => (),
        };
        match &self.death_effect {
            Some(e) => t.push(("deathEffect", ParamValue::Str(e.clone()))),
            None => (),
        };
        match &self.group_id {
            Some(e) => t.push(("groupId", ParamValue::Str(e.clone()))),
            None => (),
        };
        match self.non_custom_avatar_id {
            Some(v) => t.push(("avatarId", ParamValue::Int(v))),
            None => (),
        };
        match &self.clan_info {
            Some(ci) => {
                t.push(("clanName", ParamValue::Str(ci.name.clone())));
                t.push(("clanUseCustomAvatar", ParamValue::Bool(ci.use_custom_avatar)));
                t.push(("clanDefaultAvatarID", ParamValue::Int(ci.default_avatar_id)));
            },
            None => (),
        };
        ParamValue::Table(t)
    }
}

/// Which battle a client is entering, and how to reach it.
#[derive(Debug, Clone, Copy, PartialEq, Eq)]
pub struct GameModeKey {
    pub ty: GameModeType,
    pub is_ranked: bool,
    pub is_custom: bool,
}

/// The per-battle parameters of a battle-entry call.
#[derive(Debug, Clone, PartialEq)]
pub struct BattleParametersData {
    pub host_ip: String,
    pub host_port: i32,
    pub map_name: String,
    pub game_mode: GameModeKey,
    pub network_config: NetworkConfig,
    pub game_guid: String,
    pub map_visibility: Option<i32>,
    pub is_autoheal: bool,
}

/// The host address key of the top-level table.
pub const HOST_IP_KEY: u8 = 6;

/// The host port key of the top-level table.
pub const HOST_PORT_KEY: u8 = 7;

/// The map name key of the top-level table.
pub const MAP_NAME_KEY: u8 = 8;

/// The game mode key of the top-level table.
pub const GAME_MODE_KEY: u8 = 1;

/// The game GUID key of the top-level table.
pub const GAME_GUID_KEY: u8 = 40;

/// The ranked flag key of the top-level table.
pub const IS_RANKED_KEY: u8 = 25;

/// The custom-game flag key of the top-level table.
pub const IS_CUSTOM_GAME_KEY: u8 = 27;

/// The network config key of the top-level table.
pub const NETWORK_CONFIG_KEY: u8 = 23;

/// The map visibility key of the top-level table.
pub const MAP_VISIBILITY_KEY: u8 = 28;

/// The players key of the top-level table.
pub const PLAYERS_KEY: u8 = 5;

/// The entries a battle's parameters contribute to the top-level table,
/// in insertion order; the map visibility entry appears only when set.
pub open spec fn battle_params_entries(d: BattleParametersData, s: Seq<(u8, ParamValue)>) -> bool {
    &&& s.len() == 8 + (if d.map_visibility is Some {
        1int
    } else {
        0int
    })
    &&& s[0].0 == HOST_IP_KEY && (s[0].1 matches ParamValue::Str(x) && x@ == d.host_ip@)
    &&& s[1].0 == HOST_PORT_KEY && s[1].1 == ParamValue::Int(d.host_port)
    &&& s[2].0 == MAP_NAME_KEY && (s[2].1 matches ParamValue::Str(x) && x@ == d.map_name@)
    &&& s[3].0 == GAME_MODE_KEY && s[3].1 == ParamValue::Int(d.game_mode.ty.spec_repr() as i32)
    &&& s[4].0 == GAME_GUID_KEY && (s[4].1 matches ParamValue::Str(x) && x@ == d.game_guid@)
    &&& s[5].0 == IS_RANKED_KEY && s[5].1 == ParamValue::Bool(d.game_mode.is_ranked)
    &&& s[6].0 == IS_CUSTOM_GAME_KEY && s[6].1 == ParamValue::Bool(d.game_mode.is_custom)
    &&& s[7].0 == NETWORK_CONFIG_KEY && (s[7].1 matches ParamValue::Table(t)
        && network_config_table(d.network_config, t@))
    &&& match d.map_visibility {
        Some(v) => s[8].0 == MAP_VISIBILITY_KEY && s[8].1 == ParamValue::Int(v),
        None => true,
    }
}

impl BattleParametersData {
    /// Append this battle's parameters to the table.
    pub fn insert_params(&self, dict: &mut ParamTable)
        ensures
            final(dict).entries@.len() > old(dict).entries@.len(),
            final(dict).entries@.subrange(0, old(dict).entries@.len() as int) == old(
                dict,
            ).entries@,
            battle_params_entries(
                *self,
                final(dict).entries@.skip(old(dict).entries@.len() as int),
            ),
    {
        let ghost base = dict.entries@;
        dict.insert(HOST_IP_KEY, ParamValue::Str(self.host_ip.clone()));
        dict.insert(HOST_PORT_KEY, ParamValue::Int(self.host_port));
        dict.insert(MAP_NAME_KEY, ParamValue::Str(self.map_name.clone()));
        dict.insert(GAME_MODE_KEY, ParamValue::Int(self.game_mode.ty.repr() as i32));
        dict.insert(GAME_GUID_KEY, ParamValue::Str(self.game_guid.clone()));
        dict.insert(IS_RANKED_KEY, ParamValue::Bool(self.game_mode.is_ranked));
        dict.insert(IS_CUSTOM_GAME_KEY, ParamValue::Bool(self.game_mode.is_custom));
        dict.insert(NETWORK_CONFIG_KEY, self.network_config.as_transmissible());
        match self.map_visibility {
            Some(vis) => dict.insert(MAP_VISIBILITY_KEY, ParamValue::Int(vis)),
            None => (),
        };
        proof {
            assert(dict.entries@.subrange(0, base.len() as int) =~= base);
        }
    }
}

/// A whole battle-entry call: the battle's parameters and every player.
#[derive(Debug, Clone, PartialEq)]
pub struct EnterBattle {
    pub params: BattleParametersData,
    pub players: Vec<PlayerData>,
}

/// The players entry: one nested table per player, in roster order.
pub open spec fn players_arr(players: Seq<PlayerData>, v: ParamValue) -> bool {
    v matches ParamValue::Arr(items) && items@.len() == players.len() && (forall|i: int|
        0 <= i < players.len() ==> ((#[trigger] items@[i]) matches ParamValue::Table(t)
            && player_data_table(players[i], t@)))
}

impl EnterBattle {
    /// Build the whole battle-entry table: the battle's parameters, then
    /// the players entry.
    pub fn as_param_table(&self) -> (r: ParamTable)
        ensures
            r.entries@.len() > 0,
            battle_params_entries(
                self.params,
                r.entries@.subrange(0, r.entries@.len() - 1),
            ),
            r.entries@.last().0 == PLAYERS_KEY,
            players_arr(self.players@, r.entries@.last().1),
    {
        let mut table = ParamTable::new();
        self.params.insert_params(&mut table);
        let ghost params_part = table.entries@;
        let mut items: Vec<ParamValue> = Vec::new();
        let mut i: usize = 0;
        while i < self.players.len()
            invariant
                i <= self.players@.len(),
                items@.len() == i,
                forall|j: int|
                    0 <= j < i ==> ((#[trigger] items@[j]) matches ParamValue::Table(t)
                        && player_data_table(self.players@[j], t@)),
            decreases self.players@.len() - i,
        {
            let entry = self.players[i].as_transmissible();
            items.push(entry);
            i = i + 1;
        }
        table.insert(PLAYERS_KEY, ParamValue::Arr(items));
        proof {
            assert(table.entries@.subrange(0, table.entries@.len() - 1) =~= params_part);
            assert(params_part.subrange(0, params_part.len() as int) =~= params_part);
            assert(params_part.skip(0) =~= params_part);
        }
        table
    }
}

} // verus!
