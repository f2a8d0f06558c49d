//! The records that the API's JSON bodies decode into.
use vstd::prelude::*;

verus! {

/// A player's profile and statistics.
pub struct ApexUser {
    pub global: ApexGlobal,
    pub realtime: ApexRealtime,
    pub stats: ApexStats,
}

/// A player's account-wide data.
pub struct ApexGlobal {
    pub name: String,
    pub uid: i64,
    pub avatar: String,
    pub platform: String,
    pub level: i32,
    pub level_prestige: i32,
    pub to_next_level_percent: i32,
    pub rank: ApexRank,
    pub arena: ApexRank,
    pub bans: ApexBans,
    pub battlepass: ApexBattlepass,
}

/// What a player is doing right now.
pub struct ApexRealtime {
    pub lobby_state: String,
    pub is_online: i32,
    pub is_in_game: i32,
    pub can_join: i32,
    pub party_full: i32,
    pub selected_legend: String,
    pub current_state: String,
}

/// A player's battle pass progress.
pub struct ApexBattlepass {
    pub level: String,
    pub history: ApexBattlepassHistory,
}

/// The battle pass level reached in each past season.
pub struct ApexBattlepassHistory {
    pub season1: i32,
    pub season2: i32,
    pub season3: i32,
    pub season4: i32,
    pub season5: i32,
    pub season6: i32,
    pub season7: i32,
    pub season8: i32,
    pub season9: i32,
    pub season10: i32,
}

/// A rank in one ranked mode.
pub struct ApexRank {
    pub rank_score: i32,
    pub rank_name: String,
    pub rank_division: i32,
    pub rank_img: String,
    pub ranked_season: String,
}

/// A player's ban state.
pub struct ApexBans {
    pub is_active: bool,
    pub remaining_seconds: i32,
    pub last_ban_reason: String,
}

/// One match of a player's history.
#[derive(Debug)]
pub struct ApexGame {
    pub uid: String,
    pub name: String,
    pub legend_played: String,
    pub game_mode: String,
    pub game_length_seconds: i32,
    pub game_end_timestamp: i32,
    pub game_data: Vec<ApexGameData>,
    pub estimated_level_progress: i32,
    pub br_score_change: i32,
    pub br_score: i32,
    pub arenas_score_change: i32,
    pub arenas_score: i32,
    pub cosmetics: ApexCosmetics,
}

/// The cosmetics a player had equipped in a match.
#[derive(Debug)]
pub struct ApexCosmetics {
    pub pose: String,
    pub skin: String,
    pub frame: String,
    pub intro: String,
    pub pose_rarity: String,
    pub skin_rarity: String,
    pub frame_rarity: String,
    pub intro_rarity: String,
}

/// One tracked value of a match.
#[derive(Debug)]
pub struct ApexGameData {
    pub key: String,
    pub value: i32,
    pub name: Option<String>,
}

/// The profile that a player name resolves to.
#[derive(Debug)]
pub struct ApexProfile {
    pub name: String,
    pub uid: String,
    pub pid: String,
    pub avatar: String,
}

/// The map rotation of every mode.
#[derive(Debug)]
pub struct ApexMapRotation {
    pub battle_royale: ApexMapRotationData,
    pub arenas: ApexMapRotationData,
    pub ranked: ApexRankedMapRotationData,
    pub arenas_ranked: ApexMapRotationData,
}

/// The current and next map of a timed rotation.
#[derive(Debug)]
pub struct ApexMapRotationData {
    pub current: ApexMapRotationItem,
    pub next: ApexMapRotationItem,
}

/// The current and next ranked map.
#[derive(Debug)]
pub struct ApexRankedMapRotationData {
    pub current: ApexRankedMapRotationItem,
    pub next: ApexRankedMapRotationItem,
}

/// A ranked map.
#[derive(Debug)]
pub struct ApexRankedMapRotationItem {
    pub map: String,
}

/// A map with the time window it is played in.
#[derive(Debug)]
pub struct ApexMapRotationItem {
    pub start: i64,
    pub end: i64,
    pub readable_date_start: String,
    pub readable_date_end: String,
    pub map: String,
    pub duration_in_seconds: i32,
    pub duration_in_minutes: i32,
}

/// A named statistic.
#[derive(Debug)]
pub struct Stat<V> {
    pub name: String,
    pub value: V,
}

/// A player's tracked statistics.
#[derive(Debug)]
pub struct ApexStats {
    pub br_kills: Stat<i32>,
    pub br_damage: Stat<i32>,
    pub arenas_damage: Stat<i32>,
    pub games_played: Stat<i32>,
    pub kd: Stat<String>,
}

} // verus!
