//! Decoding of JSON documents into the API's records. Each record has a
//! predicate saying when a document decodes, and a relation saying which
//! record it decodes to; the decoders are proved against both.
use vstd::prelude::*;
use crate::data_types::{
    ApexBans, ApexBattlepass, ApexBattlepassHistory, ApexCosmetics, ApexGame, ApexGameData,
    ApexGlobal, ApexMapRotation, ApexMapRotationData, ApexMapRotationItem, ApexProfile, ApexRank,
    ApexRankedMapRotationData, ApexRankedMapRotationItem, ApexRealtime, ApexStats, ApexUser, Stat,
};
use crate::json::{
    aliased, bool_of, field, get_aliased, get_bool, get_field, get_i32, get_i64, get_opt_text,
    get_text, i32_of, i64_of, json_as_array, json_of, opt_text_of, text_of, Json,
};

verus! {

/// Whether a document decodes as `ApexUser`.
pub open spec fn user_ok(j: Json) -> bool {
    &&& field(j, "global"@) is Some && global_ok(field(j, "global"@).unwrap())
    &&& field(j, "realtime"@) is Some && realtime_ok(field(j, "realtime"@).unwrap())
    &&& aliased(j, "stats"@, "total"@) is Some && stats_ok(aliased(j, "stats"@, "total"@).unwrap())
}

/// Whether `x` is the `ApexUser` that a document decodes to, field by field.
pub open spec fn decodes_user(j: Json, x: ApexUser) -> bool {
    &&& field(j, "global"@) is Some && decodes_global(field(j, "global"@).unwrap(), x.global)
    &&& field(j, "realtime"@) is Some && decodes_realtime(field(j, "realtime"@).unwrap(), x.realtime)
    &&& aliased(j, "stats"@, "total"@) is Some && decodes_stats(aliased(j, "stats"@, "total"@).unwrap(), x.stats)
}

/// Decodes `ApexUser` from a JSON value; `None` where a field is missing or
/// of the wrong kind.
pub fn decode_user(v: &serde_json::Value) -> (r: Option<ApexUser>)
    ensures
        r.is_some() == user_ok(json_of(*v)),
        r.is_some() ==> decodes_user(json_of(*v), r.unwrap()),
{
    let global = match get_field(v, "global") {
        Some(w) => match decode_global(w) {
            Some(d) => d,
            None => return None,
        },
        None => return None,
    };
    let realtime = match get_field(v, "realtime") {
        Some(w) => match decode_realtime(w) {
            Some(d) => d,
            None => return None,
        },
        None => return None,
    };
    proof {
        reveal_strlit("stats");
        reveal_strlit("total");
        assert("stats"@[0] != "total"@[0]);
    }
    let stats = match get_aliased(v, "stats", "total") {
        Some(w) => match decode_stats(w) {
            Some(d) => d,
            None => return None,
        },
        None => return None,
    };
    Some(ApexUser { global, realtime, stats })
}

/// Whether a document decodes as `ApexGlobal`.
pub open spec fn global_ok(j: Json) -> bool {
    &&& text_of(field(j, "name"@)) is Some
    &&& i64_of(field(j, "uid"@)) is Some
    &&& text_of(field(j, "avatar"@)) is Some
    &&& text_of(field(j, "platform"@)) is Some
    &&& i32_of(field(j, "level"@)) is Some
    &&& i32_of(aliased(j, "level_prestige"@, "levelPrestige"@)) is Some
    &&& i32_of(aliased(j, "to_next_level_percent"@, "toNextLevelPercent"@)) is Some
    &&& field(j, "rank"@) is Some && rank_ok(field(j, "rank"@).unwrap())
    &&& field(j, "arena"@) is Some && rank_ok(field(j, "arena"@).unwrap())
    &&& field(j, "bans"@) is Some && bans_ok(field(j, "bans"@).unwrap())
    &&& field(j, "battlepass"@) is Some && battlepass_ok(field(j, "battlepass"@).unwrap())
}

/// Whether `x` is the `ApexGlobal` that a document decodes to, field by field.
pub open spec fn decodes_global(j: Json, x: ApexGlobal) -> bool {
    &&& text_of(field(j, "name"@)) == Some(x.name@)
    &&& i64_of(field(j, "uid"@)) == Some(x.uid)
    &&& text_of(field(j, "avatar"@)) == Some(x.avatar@)
    &&& text_of(field(j, "platform"@)) == Some(x.platform@)
    &&& i32_of(field(j, "level"@)) == Some(x.level)
    &&& i32_of(aliased(j, "level_prestige"@, "levelPrestige"@)) == Some(x.level_prestige)
    &&& i32_of(aliased(j, "to_next_level_percent"@, "toNextLevelPercent"@)) == Some(x.to_next_level_percent)
    &&& field(j, "rank"@) is Some && decodes_rank(field(j, "rank"@).unwrap(), x.rank)
    &&& field(j, "arena"@) is Some && decodes_rank(field(j, "arena"@).unwrap(), x.arena)
    &&& field(j, "bans"@) is Some && decodes_bans(field(j, "bans"@).unwrap(), x.bans)
    &&& field(j, "battlepass"@) is Some && decodes_battlepass(field(j, "battlepass"@).unwrap(), x.battlepass)
}

/// Decodes `ApexGlobal` from a JSON value; `None` where a field is missing or
/// of the wrong kind.
pub fn decode_global(v: &serde_json::Value) -> (r: Option<ApexGlobal>)
    ensures
        r.is_some() == global_ok(json_of(*v)),
        r.is_some() ==> decodes_global(json_of(*v), r.unwrap()),
{
    let name = match get_text(get_field(v, "name")) {
        Some(d) => d,
        None => return None,
    };
    let uid = match get_i64(get_field(v, "uid")) {
        Some(d) => d,
        None => return None,
    };
    let avatar = match get_text(get_field(v, "avatar")) {
        Some(d) => d,
        None => return None,
    };
    let platform = match get_text(get_field(v, "platform")) {
        Some(d) => d,
        None => return None,
    };
    let level = match get_i32(get_field(v, "level")) {
        Some(d) => d,
        None => return None,
    };
    proof {
        reveal_strlit("level_prestige");
        reveal_strlit("levelPrestige");
        assert("level_prestige"@.len() != "levelPrestige"@.len());
    }
    let level_prestige = match get_i32(get_aliased(v, "level_prestige", "levelPrestige")) {
        Some(d) => d,
        None => return None,
    };
    proof {
        reveal_strlit("to_next_level_percent");
        reveal_strlit("toNextLevelPercent");
        assert("to_next_level_percent"@.len() != "toNextLevelPercent"@.len());
    }
    let to_next_level_percent = match get_i32(get_aliased(v, "to_next_level_percent", "toNextLevelPercent")) {
        Some(d) => d,
        None => return None,
    };
    let rank = match get_field(v, "rank") {
        Some(w) => match decode_rank(w) {
            Some(d) => d,
            None => return None,
        },
        None => return None,
    };
    let arena = match get_field(v, "arena") {
        Some(w) => match decode_rank(w) {
            Some(d) => d,
            None => return None,
        },
        None => return None,
    };
    let bans = match get_field(v, "bans") {
        Some(w) => match decode_bans(w) {
            Some(d) => d,
            None => return None,
        },
        None => return None,
    };
    let battlepass = match get_field(v, "battlepass") {
        Some(w) => match decode_battlepass(w) {
            Some(d) => d,
            None => return None,
        },
        None => return None,
    };
    Some(ApexGlobal { name, uid, avatar, platform, level, level_prestige, to_next_level_percent, rank, arena, bans, battlepass })
}

/// Whether a document decodes as `ApexRealtime`.
pub open spec fn realtime_ok(j: Json) -> bool {
    &&& text_of(aliased(j, "lobby_state"@, "lobbyState"@)) is Some
    &&& i32_of(aliased(j, "is_online"@, "isOnline"@)) is Some
    &&& i32_of(aliased(j, "is_in_game"@, "isInGame"@)) is Some
    &&& i32_of(aliased(j, "can_join"@, "canJoin"@)) is Some
    &&& i32_of(aliased(j, "party_full"@, "partyFull"@)) is Some
    &&& text_of(aliased(j, "selected_legend"@, "selectedLegend"@)) is Some
    &&& text_of(aliased(j, "current_state"@, "currentState"@)) is Some
}

/// Whether `x` is the `ApexRealtime` that a document decodes to, field by field.
pub open spec fn decodes_realtime(j: Json, x: ApexRealtime) -> bool {
    &&& text_of(aliased(j, "lobby_state"@, "lobbyState"@)) == Some(x.lobby_state@)
    &&& i32_of(aliased(j, "is_online"@, "isOnline"@)) == Some(x.is_online)
    &&& i32_of(aliased(j, "is_in_game"@, "isInGame"@)) == Some(x.is_in_game)
    &&& i32_of(aliased(j, "can_join"@, "canJoin"@)) == Some(x.can_join)
    &&& i32_of(aliased(j, "party_full"@, "partyFull"@)) == Some(x.party_full)
    &&& text_of(aliased(j, "selected_legend"@, "selectedLegend"@)) == Some(x.selected_legend@)
    &&& text_of(aliased(j, "current_state"@, "currentState"@)) == Some(x.current_state@)
}

/// Decodes `ApexRealtime` from a JSON value; `None` where a field is missing or
/// of the wrong kind.
pub fn decode_realtime(v: &serde_json::Value) -> (r: Option<ApexRealtime>)
    ensures
        r.is_some() == realtime_ok(json_of(*v)),
        r.is_some() ==> decodes_realtime(json_of(*v), r.unwrap()),
{
    proof {
        reveal_strlit("lobby_state");
        reveal_strlit("lobbyState");
        assert("lobby_state"@.len() != "lobbyState"@.len());
    }
    let lobby_state = match get_text(get_aliased(v, "lobby_state", "lobbyState")) {
        Some(d) => d,
        None => return None,
    };
    proof {
        reveal_strlit("is_online");
        reveal_strlit("isOnline");
        assert("is_online"@.len() != "isOnline"@.len());
    }
    let is_online = match get_i32(get_aliased(v, "is_online", "isOnline")) {
        Some(d) => d,
        None => return None,
    };
    proof {
        reveal_strlit("is_in_game");
        reveal_strlit("isInGame");
        assert("is_in_game"@.len() != "isInGame"@.len());
    }
    let is_in_game = match get_i32(get_aliased(v, "is_in_game", "isInGame")) {
        Some(d) => d,
        None => return None,
    };
    proof {
        reveal_strlit("can_join");
        reveal_strlit("canJoin");
        assert("can_join"@.len() != "canJoin"@.len());
    }
    let can_join = match get_i32(get_aliased(v, "can_join", "canJoin")) {
        Some(d) => d,
        None => return None,
    };
    proof {
        reveal_strlit("party_full");
        reveal_strlit("partyFull");
        assert("party_full"@.len() != "partyFull"@.len());
    }
    let party_full = match get_i32(get_aliased(v, "party_full", "partyFull")) {
        Some(d) => d,
        None => return None,
    };
    proof {
        reveal_strlit("selected_legend");
        reveal_strlit("selectedLegend");
        assert("selected_legend"@.len() != "selectedLegend"@.len());
    }
    let selected_legend = match get_text(get_aliased(v, "selected_legend", "selectedLegend")) {
        Some(d) => d,
        None => return None,
    };
    proof {
        reveal_strlit("current_state");
        reveal_strlit("currentState");
        assert("current_state"@.len() != "currentState"@.len());
    }
    let current_state = match get_text(get_aliased(v, "current_state", "currentState")) {
        Some(d) => d,
        None => return None,
    };
    Some(ApexRealtime { lobby_state, is_online, is_in_game, can_join, party_full, selected_legend, current_state })
}

/// Whether a document decodes as `ApexBattlepass`.
pub open spec fn battlepass_ok(j: Json) -> bool {
    &&& text_of(field(j, "level"@)) is Some
    &&& field(j, "history"@) is Some && battlepass_history_ok(field(j, "history"@).unwrap())
}

/// Whether `x` is the `ApexBattlepass` that a document decodes to, field by field.
pub open spec fn decodes_battlepass(j: Json, x: ApexBattlepass) -> bool {
    &&& text_of(field(j, "level"@)) == Some(x.level@)
    &&& field(j, "history"@) is Some && decodes_battlepass_history(field(j, "history"@).unwrap(), x.history)
}

/// Decodes `ApexBattlepass` from a JSON value; `None` where a field is missing or
/// of the wrong kind.
pub fn decode_battlepass(v: &serde_json::Value) -> (r: Option<ApexBattlepass>)
    ensures
        r.is_some() == battlepass_ok(json_of(*v)),
        r.is_some() ==> decodes_battlepass(json_of(*v), r.unwrap()),
{
    let level = match get_text(get_field(v, "level")) {
        Some(d) => d,
        None => return None,
    };
    let history = match get_field(v, "history") {
        Some(w) => match decode_battlepass_history(w) {
            Some(d) => d,
            None => return None,
        },
        None => return None,
    };
    Some(ApexBattlepass { level, history })
}

/// Whether a document decodes as `ApexBattlepassHistory`.
pub open spec fn battlepass_history_ok(j: Json) -> bool {
    &&& i32_of(field(j, "season1"@)) is Some
    &&& i32_of(field(j, "season2"@)) is Some
    &&& i32_of(field(j, "season3"@)) is Some
    &&& i32_of(field(j, "season4"@)) is Some
    &&& i32_of(field(j, "season5"@)) is Some
    &&& i32_of(field(j, "season6"@)) is Some
    &&& i32_of(field(j, "season7"@)) is Some
    &&& i32_of(field(j, "season8"@)) is Some
    &&& i32_of(field(j, "season9"@)) is Some
    &&& i32_of(field(j, "season10"@)) is Some
}

/// Whether `x` is the `ApexBattlepassHistory` that a document decodes to, field by field.
pub open spec fn decodes_battlepass_history(j: Json, x: ApexBattlepassHistory) -> bool {
    &&& i32_of(field(j, "season1"@)) == Some(x.season1)
    &&& i32_of(field(j, "season2"@)) == Some(x.season2)
    &&& i32_of(field(j, "season3"@)) == Some(x.season3)
    &&& i32_of(field(j, "season4"@)) == Some(x.season4)
    &&& i32_of(field(j, "season5"@)) == Some(x.season5)
    &&& i32_of(field(j, "season6"@)) == Some(x.season6)
    &&& i32_of(field(j, "season7"@)) == Some(x.season7)
    &&& i32_of(field(j, "season8"@)) == Some(x.season8)
    &&& i32_of(field(j, "season9"@)) == Some(x.season9)
    &&& i32_of(field(j, "season10"@)) == Some(x.season10)
}

/// Decodes `ApexBattlepassHistory` from a JSON value; `None` where a field is missing or
/// of the wrong kind.
pub fn decode_battlepass_history(v: &serde_json::Value) -> (r: Option<ApexBattlepassHistory>)
    ensures
        r.is_some() == battlepass_history_ok(json_of(*v)),
        r.is_some() ==> decodes_battlepass_history(json_of(*v), r.unwrap()),
{
    let season1 = match get_i32(get_field(v, "season1")) {
        Some(d) => d,
        None => return None,
    };
    let season2 = match get_i32(get_field(v, "season2")) {
        Some(d) => d,
        None => return None,
    };
    let season3 = match get_i32(get_field(v, "season3")) {
        Some(d) => d,
        None => return None,
    };
    let season4 = match get_i32(get_field(v, "season4")) {
        Some(d) => d,
        None => return None,
    };
    let season5 = match get_i32(get_field(v, "season5")) {
        Some(d) => d,
        None => return None,
    };
    let season6 = match get_i32(get_field(v, "season6")) {
        Some(d) => d,
        None => return None,
    };
    let season7 = match get_i32(get_field(v, "season7")) {
        Some(d) => d,
        None => return None,
    };
    let season8 = match get_i32(get_field(v, "season8")) {
        Some(d) => d,
        None => return None,
    };
    let season9 = match get_i32(get_field(v, "season9")) {
        Some(d) => d,
        None => return None,
    };
    let season10 = match get_i32(get_field(v, "season10")) {
        Some(d) => d,
        None => return None,
    };
    Some(ApexBattlepassHistory { season1, season2, season3, season4, season5, season6, season7, season8, season9, season10 })
}

/// Whether a document decodes as `ApexRank`.
pub open spec fn rank_ok(j: Json) -> bool {
    &&& i32_of(aliased(j, "rank_score"@, "rankScore"@)) is Some
    &&& text_of(aliased(j, "rank_name"@, "rankName"@)) is Some
    &&& i32_of(aliased(j, "rank_division"@, "rankDiv"@)) is Some
    &&& text_of(aliased(j, "rank_img"@, "rankImg"@)) is Some
    &&& text_of(aliased(j, "ranked_season"@, "rankedSeason"@)) is Some
}

/// Whether `x` is the `ApexRank` that a document decodes to, field by field.
pub open spec fn decodes_rank(j: Json, x: ApexRank) -> bool {
    &&& i32_of(aliased(j, "rank_score"@, "rankScore"@)) == Some(x.rank_score)
    &&& text_of(aliased(j, "rank_name"@, "rankName"@)) == Some(x.rank_name@)
    &&& i32_of(aliased(j, "rank_division"@, "rankDiv"@)) == Some(x.rank_division)
    &&& text_of(aliased(j, "rank_img"@, "rankImg"@)) == Some(x.rank_img@)
    &&& text_of(aliased(j, "ranked_season"@, "rankedSeason"@)) == Some(x.ranked_season@)
}

/// Decodes `ApexRank` from a JSON value; `None` where a field is missing or
/// of the wrong kind.
pub fn decode_rank(v: &serde_json::Value) -> (r: Option<ApexRank>)
    ensures
        r.is_some() == rank_ok(json_of(*v)),
        r.is_some() ==> decodes_rank(json_of(*v), r.unwrap()),
{
    proof {
        reveal_strlit("rank_score");
        reveal_strlit("rankScore");
        assert("rank_score"@.len() != "rankScore"@.len());
    }
    let rank_score = match get_i32(get_aliased(v, "rank_score", "rankScore")) {
        Some(d) => d,
        None => return None,
    };
    proof {
        reveal_strlit("rank_name");
        reveal_strlit("rankName");
        assert("rank_name"@.len() != "rankName"@.len());
    }
    let rank_name = match get_text(get_aliased(v, "rank_name", "rankName")) {
        Some(d) => d,
        None => return None,
    };
    proof {
        reveal_strlit("rank_division");
        reveal_strlit("rankDiv");
        assert("rank_division"@.len() != "rankDiv"@.len());
    }
    let rank_division = match get_i32(get_aliased(v, "rank_division", "rankDiv")) {
        Some(d) => d,
        None => return None,
    };
    proof {
        reveal_strlit("rank_img");
        reveal_strlit("rankImg");
        assert("rank_img"@.len() != "rankImg"@.len());
    }
    let rank_img = match get_text(get_aliased(v, "rank_img", "rankImg")) {
        Some(d) => d,
        None => return None,
    };
    proof {
        reveal_strlit("ranked_season");
        reveal_strlit("rankedSeason");
        assert("ranked_season"@.len() != "rankedSeason"@.len());
    }
    let ranked_season = match get_text(get_aliased(v, "ranked_season", "rankedSeason")) {
        Some(d) => d,
        None => return None,
    };
    Some(ApexRank { rank_score, rank_name, rank_division, rank_img, ranked_season })
}

/// Whether a document decodes as `ApexBans`.
pub open spec fn bans_ok(j: Json) -> bool {
    &&& bool_of(aliased(j, "is_active"@, "isActive"@)) is Some
    &&& i32_of(aliased(j, "remaining_seconds"@, "remainingSeconds"@)) is Some
    &&& text_of(aliased(j, "last_ban_reason"@, "last_banReason"@)) is Some
}

/// Whether `x` is the `ApexBans` that a document decodes to, field by field.
pub open spec fn decodes_bans(j: Json, x: ApexBans) -> bool {
    &&& bool_of(aliased(j, "is_active"@, "isActive"@)) == Some(x.is_active)
    &&& i32_of(aliased(j, "remaining_seconds"@, "remainingSeconds"@)) == Some(x.remaining_seconds)
    &&& text_of(aliased(j, "last_ban_reason"@, "last_banReason"@)) == Some(x.last_ban_reason@)
}

/// Decodes `ApexBans` from a JSON value; `None` where a field is missing or
/// of the wrong kind.
pub fn decode_bans(v: &serde_json::Value) -> (r: Option<ApexBans>)
    ensures
        r.is_some() == bans_ok(json_of(*v)),
        r.is_some() ==> decodes_bans(json_of(*v), r.unwrap()),
{
    proof {
        reveal_strlit("is_active");
        reveal_strlit("isActive");
        assert("is_active"@.len() != "isActive"@.len());
    }
    let is_active = match get_bool(get_aliased(v, "is_active", "isActive")) {
        Some(d) => d,
        None => return None,
    };
    proof {
        reveal_strlit("remaining_seconds");
        reveal_strlit("remainingSeconds");
        assert("remaining_seconds"@.len() != "remainingSeconds"@.len());
    }
    let remaining_seconds = match get_i32(get_aliased(v, "remaining_seconds", "remainingSeconds")) {
        Some(d) => d,
        None => return None,
    };
    proof {
        reveal_strlit("last_ban_reason");
        reveal_strlit("last_banReason");
        assert("last_ban_reason"@.len() != "last_banReason"@.len());
    }
    let last_ban_reason = match get_text(get_aliased(v, "last_ban_reason", "last_banReason")) {
        Some(d) => d,
        None => return None,
    };
    Some(ApexBans { is_active, remaining_seconds, last_ban_reason })
}

/// Whether a document decodes as `ApexGame`.
pub open spec fn game_ok(j: Json) -> bool {
    &&& text_of(field(j, "uid"@)) is Some
    &&& text_of(field(j, "name"@)) is Some
    &&& text_of(aliased(j, "legend_played"@, "legendPlayed"@)) is Some
    &&& text_of(aliased(j, "game_mode"@, "gameMode"@)) is Some
    &&& i32_of(aliased(j, "game_length_seconds"@, "gameLengthSecs"@)) is Some
    &&& i32_of(aliased(j, "game_end_timestamp"@, "gameEndTimestamp"@)) is Some
    &&& aliased(j, "game_data"@, "gameData"@) is Some && game_data_list_ok(aliased(j, "game_data"@, "gameData"@).unwrap())
    &&& i32_of(aliased(j, "estimated_level_progress"@, "estimatedLevelProgress"@)) is Some
    &&& i32_of(aliased(j, "br_score_change"@, "BRScoreChange"@)) is Some
    &&& i32_of(aliased(j, "br_score"@, "BRScore"@)) is Some
    &&& i32_of(aliased(j, "arenas_score_change"@, "ArenasScoreChange"@)) is Some
    &&& i32_of(aliased(j, "arenas_score"@, "ArenasScore"@)) is Some
    &&& field(j, "cosmetics"@) is Some && cosmetics_ok(field(j, "cosmetics"@).unwrap())
}

/// Whether `x` is the `ApexGame` that a document decodes to, field by field.
pub open spec fn decodes_game(j: Json, x: ApexGame) -> bool {
    &&& text_of(field(j, "uid"@)) == Some(x.uid@)
    &&& text_of(field(j, "name"@)) == Some(x.name@)
    &&& text_of(aliased(j, "legend_played"@, "legendPlayed"@)) == Some(x.legend_played@)
    &&& text_of(aliased(j, "game_mode"@, "gameMode"@)) == Some(x.game_mode@)
    &&& i32_of(aliased(j, "game_length_seconds"@, "gameLengthSecs"@)) == Some(x.game_length_seconds)
    &&& i32_of(aliased(j, "game_end_timestamp"@, "gameEndTimestamp"@)) == Some(x.game_end_timestamp)
    &&& aliased(j, "game_data"@, "gameData"@) is Some && decodes_game_data_list(aliased(j, "game_data"@, "gameData"@).unwrap(), x.game_data@)
    &&& i32_of(aliased(j, "estimated_level_progress"@, "estimatedLevelProgress"@)) == Some(x.estimated_level_progress)
    &&& i32_of(aliased(j, "br_score_change"@, "BRScoreChange"@)) == Some(x.br_score_change)
    &&& i32_of(aliased(j, "br_score"@, "BRScore"@)) == Some(x.br_score)
    &&& i32_of(aliased(j, "arenas_score_change"@, "ArenasScoreChange"@)) == Some(x.arenas_score_change)
    &&& i32_of(aliased(j, "arenas_score"@, "ArenasScore"@)) == Some(x.arenas_score)
    &&& field(j, "cosmetics"@) is Some && decodes_cosmetics(field(j, "cosmetics"@).unwrap(), x.cosmetics)
}

/// Decodes `ApexGame` from a JSON value; `None` where a field is missing or
/// of the wrong kind.
pub fn decode_game(v: &serde_json::Value) -> (r: Option<ApexGame>)
    ensures
        r.is_some() == game_ok(json_of(*v)),
        r.is_some() ==> decodes_game(json_of(*v), r.unwrap()),
{
    let uid = match get_text(get_field(v, "uid")) {
        Some(d) => d,
        None => return None,
    };
    let name = match get_text(get_field(v, "name")) {
        Some(d) => d,
        None => return None,
    };
    proof {
        reveal_strlit("legend_played");
        reveal_strlit("legendPlayed");
        assert("legend_played"@.len() != "legendPlayed"@.len());
    }
    let legend_played = match get_text(get_aliased(v, "legend_played", "legendPlayed")) {
        Some(d) => d,
        None => return None,
    };
    proof {
        reveal_strlit("game_mode");
        reveal_strlit("gameMode");
        assert("game_mode"@.len() != "gameMode"@.len());
    }
    let game_mode = match get_text(get_aliased(v, "game_mode", "gameMode")) {
        Some(d) => d,
        None => return None,
    };
    proof {
        reveal_strlit("game_length_seconds");
        reveal_strlit("gameLengthSecs");
        assert("game_length_seconds"@.len() != "gameLengthSecs"@.len());
    }
    let game_length_seconds = match get_i32(get_aliased(v, "game_length_seconds", "gameLengthSecs")) {
        Some(d) => d,
        None => return None,
    };
    proof {
        reveal_strlit("game_end_timestamp");
        reveal_strlit("gameEndTimestamp");
        assert("game_end_timestamp"@.len() != "gameEndTimestamp"@.len());
    }
    let game_end_timestamp = match get_i32(get_aliased(v, "game_end_timestamp", "gameEndTimestamp")) {
        Some(d) => d,
        None => return None,
    };
    proof {
        reveal_strlit("game_data");
        reveal_strlit("gameData");
        assert("game_data"@.len() != "gameData"@.len());
    }
    let game_data = match get_aliased(v, "game_data", "gameData") {
        Some(w) => match decode_game_data_list(w) {
            Some(d) => d,
            None => return None,
        },
        None => return None,
    };
    proof {
        reveal_strlit("estimated_level_progress");
        reveal_strlit("estimatedLevelProgress");
        assert("estimated_level_progress"@.len() != "estimatedLevelProgress"@.len());
    }
    let estimated_level_progress = match get_i32(get_aliased(v, "estimated_level_progress", "estimatedLevelProgress")) {
        Some(d) => d,
        None => return None,
    };
    proof {
        reveal_strlit("br_score_change");
        reveal_strlit("BRScoreChange");
        assert("br_score_change"@.len() != "BRScoreChange"@.len());
    }
    let br_score_change = match get_i32(get_aliased(v, "br_score_change", "BRScoreChange")) {
        Some(d) => d,
        None => return None,
    };
    proof {
        reveal_strlit("br_score");
        reveal_strlit("BRScore");
        assert("br_score"@.len() != "BRScore"@.len());
    }
    let br_score = match get_i32(get_aliased(v, "br_score", "BRScore")) {
        Some(d) => d,
        None => return None,
    };
    proof {
        reveal_strlit("arenas_score_change");
        reveal_strlit("ArenasScoreChange");
        assert("arenas_score_change"@.len() != "ArenasScoreChange"@.len());
    }
    let arenas_score_change = match get_i32(get_aliased(v, "arenas_score_change", "ArenasScoreChange")) {
        Some(d) => d,
        None => return None,
    };
    proof {
        reveal_strlit("arenas_score");
        reveal_strlit("ArenasScore");
        assert("arenas_score"@.len() != "ArenasScore"@.len());
    }
    let arenas_score = match get_i32(get_aliased(v, "arenas_score", "ArenasScore")) {
        Some(d) => d,
        None => return None,
    };
    let cosmetics = match get_field(v, "cosmetics") {
        Some(w) => match decode_cosmetics(w) {
            Some(d) => d,
            None => return None,
        },
        None => return None,
    };
    Some(ApexGame { uid, name, legend_played, game_mode, game_length_seconds, game_end_timestamp, game_data, estimated_level_progress, br_score_change, br_score, arenas_score_change, arenas_score, cosmetics })
}

/// Whether a document decodes as `ApexCosmetics`.
pub open spec fn cosmetics_ok(j: Json) -> bool {
    &&& text_of(field(j, "pose"@)) is Some
    &&& text_of(field(j, "skin"@)) is Some
    &&& text_of(field(j, "frame"@)) is Some
    &&& text_of(field(j, "intro"@)) is Some
    &&& text_of(aliased(j, "pose_rarity"@, "poseRarity"@)) is Some
    &&& text_of(aliased(j, "skin_rarity"@, "skinRarity"@)) is Some
    &&& text_of(aliased(j, "frame_rarity"@, "frameRarity"@)) is Some
    &&& text_of(aliased(j, "intro_rarity"@, "introRarity"@)) is Some
}

/// Whether `x` is the `ApexCosmetics` that a document decodes to, field by field.
pub open spec fn decodes_cosmetics(j: Json, x: ApexCosmetics) -> bool {
    &&& text_of(field(j, "pose"@)) == Some(x.pose@)
    &&& text_of(field(j, "skin"@)) == Some(x.skin@)
    &&& text_of(field(j, "frame"@)) == Some(x.frame@)
    &&& text_of(field(j, "intro"@)) == Some(x.intro@)
    &&& text_of(aliased(j, "pose_rarity"@, "poseRarity"@)) == Some(x.pose_rarity@)
    &&& text_of(aliased(j, "skin_rarity"@, "skinRarity"@)) == Some(x.skin_rarity@)
    &&& text_of(aliased(j, "frame_rarity"@, "frameRarity"@)) == Some(x.frame_rarity@)
    &&& text_of(aliased(j, "intro_rarity"@, "introRarity"@)) == Some(x.intro_rarity@)
}

/// Decodes `ApexCosmetics` from a JSON value; `None` where a field is missing or
/// of the wrong kind.
pub fn decode_cosmetics(v: &serde_json::Value) -> (r: Option<ApexCosmetics>)
    ensures
        r.is_some() == cosmetics_ok(json_of(*v)),
        r.is_some() ==> decodes_cosmetics(json_of(*v), r.unwrap()),
{
    let pose = match get_text(get_field(v, "pose")) {
        Some(d) => d,
        None => return None,
    };
    let skin = match get_text(get_field(v, "skin")) {
        Some(d) => d,
        None => return None,
    };
    let frame = match get_text(get_field(v, "frame")) {
        Some(d) => d,
        None => return None,
    };
    let intro = match get_text(get_field(v, "intro")) {
        Some(d) => d,
        None => return None,
    };
    proof {
        reveal_strlit("pose_rarity");
        reveal_strlit("poseRarity");
        assert("pose_rarity"@.len() != "poseRarity"@.len());
    }
    let pose_rarity = match get_text(get_aliased(v, "pose_rarity", "poseRarity")) {
        Some(d) => d,
        None => return None,
    };
    proof {
        reveal_strlit("skin_rarity");
        reveal_strlit("skinRarity");
        assert("skin_rarity"@.len() != "skinRarity"@.len());
    }
    let skin_rarity = match get_text(get_aliased(v, "skin_rarity", "skinRarity")) {
        Some(d) => d,
        None => return None,
    };
    proof {
        reveal_strlit("frame_rarity");
        reveal_strlit("frameRarity");
        assert("frame_rarity"@.len() != "frameRarity"@.len());
    }
    let frame_rarity = match get_text(get_aliased(v, "frame_rarity", "frameRarity")) {
        Some(d) => d,
        None => return None,
    };
    proof {
        reveal_strlit("intro_rarity");
        reveal_strlit("introRarity");
        assert("intro_rarity"@.len() != "introRarity"@.len());
    }
    let intro_rarity = match get_text(get_aliased(v, "intro_rarity", "introRarity")) {
        Some(d) => d,
        None => return None,
    };
    Some(ApexCosmetics { pose, skin, frame, intro, pose_rarity, skin_rarity, frame_rarity, intro_rarity })
}

/// Whether a document decodes as `ApexGameData`.
pub open spec fn game_data_ok(j: Json) -> bool {
    &&& text_of(field(j, "key"@)) is Some
    &&& i32_of(field(j, "value"@)) is Some
    &&& opt_text_of(field(j, "name"@)) is Some
}

/// Whether `x` is the `ApexGameData` that a document decodes to, field by field.
pub open spec fn decodes_game_data(j: Json, x: ApexGameData) -> bool {
    &&& text_of(field(j, "key"@)) == Some(x.key@)
    &&& i32_of(field(j, "value"@)) == Some(x.value)
    &&& opt_text_of(field(j, "name"@)) == Some(match x.name { Some(s) => Some(s@), None => None })
}

/// Decodes `ApexGameData` from a JSON value; `None` where a field is missing or
/// of the wrong kind.
pub fn decode_game_data(v: &serde_json::Value) -> (r: Option<ApexGameData>)
    ensures
        r.is_some() == game_data_ok(json_of(*v)),
        r.is_some() ==> decodes_game_data(json_of(*v), r.unwrap()),
{
    let key = match get_text(get_field(v, "key")) {
        Some(d) => d,
        None => return None,
    };
    let value = match get_i32(get_field(v, "value")) {
        Some(d) => d,
        None => return None,
    };
    let name = match get_opt_text(get_field(v, "name")) {
        Some(d) => d,
        None => return None,
    };
    Some(ApexGameData { key, value, name })
}

/// Whether a document decodes as `ApexProfile`.
pub open spec fn profile_ok(j: Json) -> bool {
    &&& text_of(field(j, "name"@)) is Some
    &&& text_of(field(j, "uid"@)) is Some
    &&& text_of(field(j, "pid"@)) is Some
    &&& text_of(field(j, "avatar"@)) is Some
}

/// Whether `x` is the `ApexProfile` that a document decodes to, field by field.
pub open spec fn decodes_profile(j: Json, x: ApexProfile) -> bool {
    &&& text_of(field(j, "name"@)) == Some(x.name@)
    &&& text_of(field(j, "uid"@)) == Some(x.uid@)
    &&& text_of(field(j, "pid"@)) == Some(x.pid@)
    &&& text_of(field(j, "avatar"@)) == Some(x.avatar@)
}

/// Decodes `ApexProfile` from a JSON value; `None` where a field is missing or
/// of the wrong kind.
pub fn decode_profile(v: &serde_json::Value) -> (r: Option<ApexProfile>)
    ensures
        r.is_some() == profile_ok(json_of(*v)),
        r.is_some() ==> decodes_profile(json_of(*v), r.unwrap()),
{
    let name = match get_text(get_field(v, "name")) {
        Some(d) => d,
        None => return None,
    };
    let uid = match get_text(get_field(v, "uid")) {
        Some(d) => d,
        None => return None,
    };
    let pid = match get_text(get_field(v, "pid")) {
        Some(d) => d,
        None => return None,
    };
    let avatar = match get_text(get_field(v, "avatar")) {
        Some(d) => d,
        None => return None,
    };
    Some(ApexProfile { name, uid, pid, avatar })
}

/// Whether a document decodes as `ApexMapRotation`.
pub open spec fn map_rotation_ok(j: Json) -> bool {
    &&& field(j, "battle_royale"@) is Some && map_rotation_data_ok(field(j, "battle_royale"@).unwrap())
    &&& field(j, "arenas"@) is Some && map_rotation_data_ok(field(j, "arenas"@).unwrap())
    &&& field(j, "ranked"@) is Some && ranked_map_rotation_data_ok(field(j, "ranked"@).unwrap())
    &&& aliased(j, "arenas_ranked"@, "arenasRanked"@) is Some && map_rotation_data_ok(aliased(j, "arenas_ranked"@, "arenasRanked"@).unwrap())
}

/// Whether `x` is the `ApexMapRotation` that a document decodes to, field by field.
pub open spec fn decodes_map_rotation(j: Json, x: ApexMapRotation) -> bool {
    &&& field(j, "battle_royale"@) is Some && decodes_map_rotation_data(field(j, "battle_royale"@).unwrap(), x.battle_royale)
    &&& field(j, "arenas"@) is Some && decodes_map_rotation_data(field(j, "arenas"@).unwrap(), x.arenas)
    &&& field(j, "ranked"@) is Some && decodes_ranked_map_rotation_data(field(j, "ranked"@).unwrap(), x.ranked)
    &&& aliased(j, "arenas_ranked"@, "arenasRanked"@) is Some && decodes_map_rotation_data(aliased(j, "arenas_ranked"@, "arenasRanked"@).unwrap(), x.arenas_ranked)
}

/// Decodes `ApexMapRotation` from a JSON value; `None` where a field is missing or
/// of the wrong kind.
pub fn decode_map_rotation(v: &serde_json::Value) -> (r: Option<ApexMapRotation>)
    ensures
        r.is_some() == map_rotation_ok(json_of(*v)),
        r.is_some() ==> decodes_map_rotation(json_of(*v), r.unwrap()),
{
    let battle_royale = match get_field(v, "battle_royale") {
        Some(w) => match decode_map_rotation_data(w) {
            Some(d) => d,
            None => return None,
        },
        None => return None,
    };
    let arenas = match get_field(v, "arenas") {
        Some(w) => match decode_map_rotation_data(w) {
            Some(d) => d,
            None => return None,
        },
        None => return None,
    };
    let ranked = match get_field(v, "ranked") {
        Some(w) => match decode_ranked_map_rotation_data(w) {
            Some(d) => d,
            None => return None,
        },
        None => return None,
    };
    proof {
        reveal_strlit("arenas_ranked");
        reveal_strlit("arenasRanked");
        assert("arenas_ranked"@.len() != "arenasRanked"@.len());
    }
    let arenas_ranked = match get_aliased(v, "arenas_ranked", "arenasRanked") {
        Some(w) => match decode_map_rotation_data(w) {
            Some(d) => d,
            None => return None,
        },
        None => return None,
    };
    Some(ApexMapRotation { battle_royale, arenas, ranked, arenas_ranked })
}

/// Whether a document decodes as `ApexMapRotationData`.
pub open spec fn map_rotation_data_ok(j: Json) -> bool {
    &&& field(j, "current"@) is Some && map_rotation_item_ok(field(j, "current"@).unwrap())
    &&& field(j, "next"@) is Some && map_rotation_item_ok(field(j, "next"@).unwrap())
}

/// Whether `x` is the `ApexMapRotationData` that a document decodes to, field by field.
pub open spec fn decodes_map_rotation_data(j: Json, x: ApexMapRotationData) -> bool {
    &&& field(j, "current"@) is Some && decodes_map_rotation_item(field(j, "current"@).unwrap(), x.current)
    &&& field(j, "next"@) is Some && decodes_map_rotation_item(field(j, "next"@).unwrap(), x.next)
}

/// Decodes `ApexMapRotationData` from a JSON value; `None` where a field is missing or
/// of the wrong kind.
pub fn decode_map_rotation_data(v: &serde_json::Value) -> (r: Option<ApexMapRotationData>)
    ensures
        r.is_some() == map_rotation_data_ok(json_of(*v)),
        r.is_some() ==> decodes_map_rotation_data(json_of(*v), r.unwrap()),
{
    let current = match get_field(v, "current") {
        Some(w) => match decode_map_rotation_item(w) {
            Some(d) => d,
            None => return None,
        },
        None => return None,
    };
    let next = match get_field(v, "next") {
        Some(w) => match decode_map_rotation_item(w) {
            Some(d) => d,
            None => return None,
        },
        None => return None,
    };
    Some(ApexMapRotationData { current, next })
}

/// Whether a document decodes as `ApexRankedMapRotationData`.
pub open spec fn ranked_map_rotation_data_ok(j: Json) -> bool {
    &&& field(j, "current"@) is Some && ranked_map_rotation_item_ok(field(j, "current"@).unwrap())
    &&& field(j, "next"@) is Some && ranked_map_rotation_item_ok(field(j, "next"@).unwrap())
}

/// Whether `x` is the `ApexRankedMapRotationData` that a document decodes to, field by field.
pub open spec fn decodes_ranked_map_rotation_data(j: Json, x: ApexRankedMapRotationData) -> bool {
    &&& field(j, "current"@) is Some && decodes_ranked_map_rotation_item(field(j, "current"@).unwrap(), x.current)
    &&& field(j, "next"@) is Some && decodes_ranked_map_rotation_item(field(j, "next"@).unwrap(), x.next)
}

/// Decodes `ApexRankedMapRotationData` from a JSON value; `None` where a field is missing or
/// of the wrong kind.
pub fn decode_ranked_map_rotation_data(v: &serde_json::Value) -> (r: Option<ApexRankedMapRotationData>)
    ensures
        r.is_some() == ranked_map_rotation_data_ok(json_of(*v)),
        r.is_some() ==> decodes_ranked_map_rotation_data(json_of(*v), r.unwrap()),
{
    let current = match get_field(v, "current") {
        Some(w) => match decode_ranked_map_rotation_item(w) {
            Some(d) => d,
            None => return None,
        },
        None => return None,
    };
    let next = match get_field(v, "next") {
        Some(w) => match decode_ranked_map_rotation_item(w) {
            Some(d) => d,
            None => return None,
        },
        None => return None,
    };
    Some(ApexRankedMapRotationData { current, next })
}

/// Whether a document decodes as `ApexRankedMapRotationItem`.
pub open spec fn ranked_map_rotation_item_ok(j: Json) -> bool {
    &&& text_of(field(j, "map"@)) is Some
}

/// Whether `x` is the `ApexRankedMapRotationItem` that a document decodes to, field by field.
pub open spec fn decodes_ranked_map_rotation_item(j: Json, x: ApexRankedMapRotationItem) -> bool {
    &&& text_of(field(j, "map"@)) == Some(x.map@)
}

/// Decodes `ApexRankedMapRotationItem` from a JSON value; `None` where a field is missing or
/// of the wrong kind.
pub fn decode_ranked_map_rotation_item(v: &serde_json::Value) -> (r: Option<ApexRankedMapRotationItem>)
    ensures
        r.is_some() == ranked_map_rotation_item_ok(json_of(*v)),
        r.is_some() ==> decodes_ranked_map_rotation_item(json_of(*v), r.unwrap()),
{
    let map = match get_text(get_field(v, "map")) {
        Some(d) => d,
        None => return None,
    };
    Some(ApexRankedMapRotationItem { map })
}

/// Whether a document decodes as `ApexMapRotationItem`.
pub open spec fn map_rotation_item_ok(j: Json) -> bool {
    &&& i64_of(field(j, "start"@)) is Some
    &&& i64_of(field(j, "end"@)) is Some
    &&& text_of(aliased(j, "readable_date_start"@, "readableDate_start"@)) is Some
    &&& text_of(aliased(j, "readable_date_end"@, "readableDate_end"@)) is Some
    &&& text_of(field(j, "map"@)) is Some
    &&& i32_of(aliased(j, "duration_in_seconds"@, "DurationInSecs"@)) is Some
    &&& i32_of(aliased(j, "duration_in_minutes"@, "DurationInMinutes"@)) is Some
}

/// Whether `x` is the `ApexMapRotationItem` that a document decodes to, field by field.
pub open spec fn decodes_map_rotation_item(j: Json, x: ApexMapRotationItem) -> bool {
    &&& i64_of(field(j, "start"@)) == Some(x.start)
    &&& i64_of(field(j, "end"@)) == Some(x.end)
    &&& text_of(aliased(j, "readable_date_start"@, "readableDate_start"@)) == Some(x.readable_date_start@)
    &&& text_of(aliased(j, "readable_date_end"@, "readableDate_end"@)) == Some(x.readable_date_end@)
    &&& text_of(field(j, "map"@)) == Some(x.map@)
    &&& i32_of(aliased(j, "duration_in_seconds"@, "DurationInSecs"@)) == Some(x.duration_in_seconds)
    &&& i32_of(aliased(j, "duration_in_minutes"@, "DurationInMinutes"@)) == Some(x.duration_in_minutes)
}

/// Decodes `ApexMapRotationItem` from a JSON value; `None` where a field is missing or
/// of the wrong kind.
pub fn decode_map_rotation_item(v: &serde_json::Value) -> (r: Option<ApexMapRotationItem>)
    ensures
        r.is_some() == map_rotation_item_ok(json_of(*v)),
        r.is_some() ==> decodes_map_rotation_item(json_of(*v), r.unwrap()),
{
    let start = match get_i64(get_field(v, "start")) {
        Some(d) => d,
        None => return None,
    };
    let end = match get_i64(get_field(v, "end")) {
        Some(d) => d,
        None => return None,
    };
    proof {
        reveal_strlit("readable_date_start");
        reveal_strlit("readableDate_start");
        assert("readable_date_start"@.len() != "readableDate_start"@.len());
    }
    let readable_date_start = match get_text(get_aliased(v, "readable_date_start", "readableDate_start")) {
        Some(d) => d,
        None => return None,
    };
    proof {
        reveal_strlit("readable_date_end");
        reveal_strlit("readableDate_end");
        assert("readable_date_end"@.len() != "readableDate_end"@.len());
    }
    let readable_date_end = match get_text(get_aliased(v, "readable_date_end", "readableDate_end")) {
        Some(d) => d,
        None => return None,
    };
    let map = match get_text(get_field(v, "map")) {
        Some(d) => d,
        None => return None,
    };
    proof {
        reveal_strlit("duration_in_seconds");
        reveal_strlit("DurationInSecs");
        assert("duration_in_seconds"@.len() != "DurationInSecs"@.len());
    }
    let duration_in_seconds = match get_i32(get_aliased(v, "duration_in_seconds", "DurationInSecs")) {
        Some(d) => d,
        None => return None,
    };
    proof {
        reveal_strlit("duration_in_minutes");
        reveal_strlit("DurationInMinutes");
        assert("duration_in_minutes"@.len() != "DurationInMinutes"@.len());
    }
    let duration_in_minutes = match get_i32(get_aliased(v, "duration_in_minutes", "DurationInMinutes")) {
        Some(d) => d,
        None => return None,
    };
    Some(ApexMapRotationItem { start, end, readable_date_start, readable_date_end, map, duration_in_seconds, duration_in_minutes })
}

/// Whether a document decodes as `Stat<i32>`.
pub open spec fn stat_i32_ok(j: Json) -> bool {
    &&& text_of(field(j, "name"@)) is Some
    &&& i32_of(field(j, "value"@)) is Some
}

/// Whether `x` is the `Stat<i32>` that a document decodes to, field by field.
pub open spec fn decodes_stat_i32(j: Json, x: Stat<i32>) -> bool {
    &&& text_of(field(j, "name"@)) == Some(x.name@)
    &&& i32_of(field(j, "value"@)) == Some(x.value)
}

/// Decodes `Stat<i32>` from a JSON value; `None` where a field is missing or
/// of the wrong kind.
pub fn decode_stat_i32(v: &serde_json::Value) -> (r: Option<Stat<i32>>)
    ensures
        r.is_some() == stat_i32_ok(json_of(*v)),
        r.is_some() ==> decodes_stat_i32(json_of(*v), r.unwrap()),
{
    let name = match get_text(get_field(v, "name")) {
        Some(d) => d,
        None => return None,
    };
    let value = match get_i32(get_field(v, "value")) {
        Some(d) => d,
        None => return None,
    };
    Some(Stat { name, value })
}

/// Whether a document decodes as `Stat<String>`.
pub open spec fn stat_text_ok(j: Json) -> bool {
    &&& text_of(field(j, "name"@)) is Some
    &&& text_of(field(j, "value"@)) is Some
}

/// Whether `x` is the `Stat<String>` that a document decodes to, field by field.
pub open spec fn decodes_stat_text(j: Json, x: Stat<String>) -> bool {
    &&& text_of(field(j, "name"@)) == Some(x.name@)
    &&& text_of(field(j, "value"@)) == Some(x.value@)
}

/// Decodes `Stat<String>` from a JSON value; `None` where a field is missing or
/// of the wrong kind.
pub fn decode_stat_text(v: &serde_json::Value) -> (r: Option<Stat<String>>)
    ensures
        r.is_some() == stat_text_ok(json_of(*v)),
        r.is_some() ==> decodes_stat_text(json_of(*v), r.unwrap()),
{
    let name = match get_text(get_field(v, "name")) {
        Some(d) => d,
        None => return None,
    };
    let value = match get_text(get_field(v, "value")) {
        Some(d) => d,
        None => return None,
    };
    Some(Stat { name, value })
}

/// Whether a document decodes as `ApexStats`.
pub open spec fn stats_ok(j: Json) -> bool {
    &&& aliased(j, "br_kills"@, "kills"@) is Some && stat_i32_ok(aliased(j, "br_kills"@, "kills"@).unwrap())
    &&& aliased(j, "br_damage"@, "damage"@) is Some && stat_i32_ok(aliased(j, "br_damage"@, "damage"@).unwrap())
    &&& field(j, "arenas_damage"@) is Some && stat_i32_ok(field(j, "arenas_damage"@).unwrap())
    &&& field(j, "games_played"@) is Some && stat_i32_ok(field(j, "games_played"@).unwrap())
    &&& field(j, "kd"@) is Some && stat_text_ok(field(j, "kd"@).unwrap())
}

/// Whether `x` is the `ApexStats` that a document decodes to, field by field.
pub open spec fn decodes_stats(j: Json, x: ApexStats) -> bool {
    &&& aliased(j, "br_kills"@, "kills"@) is Some && decodes_stat_i32(aliased(j, "br_kills"@, "kills"@).unwrap(), x.br_kills)
    &&& aliased(j, "br_damage"@, "damage"@) is Some && decodes_stat_i32(aliased(j, "br_damage"@, "damage"@).unwrap(), x.br_damage)
    &&& field(j, "arenas_damage"@) is Some && decodes_stat_i32(field(j, "arenas_damage"@).unwrap(), x.arenas_damage)
    &&& field(j, "games_played"@) is Some && decodes_stat_i32(field(j, "games_played"@).unwrap(), x.games_played)
    &&& field(j, "kd"@) is Some && decodes_stat_text(field(j, "kd"@).unwrap(), x.kd)
}

/// Decodes `ApexStats` from a JSON value; `None` where a field is missing or
/// of the wrong kind.
pub fn decode_stats(v: &serde_json::Value) -> (r: Option<ApexStats>)
    ensures
        r.is_some() == stats_ok(json_of(*v)),
        r.is_some() ==> decodes_stats(json_of(*v), r.unwrap()),
{
    proof {
        reveal_strlit("br_kills");
        reveal_strlit("kills");
        assert("br_kills"@.len() != "kills"@.len());
    }
    let br_kills = match get_aliased(v, "br_kills", "kills") {
        Some(w) => match decode_stat_i32(w) {
            Some(d) => d,
            None => return None,
        },
        None => return None,
    };
    proof {
        reveal_strlit("br_damage");
        reveal_strlit("damage");
        assert("br_damage"@.len() != "damage"@.len());
    }
    let br_damage = match get_aliased(v, "br_damage", "damage") {
        Some(w) => match decode_stat_i32(w) {
            Some(d) => d,
            None => return None,
        },
        None => return None,
    };
    let arenas_damage = match get_field(v, "arenas_damage") {
        Some(w) => match decode_stat_i32(w) {
            Some(d) => d,
            None => return None,
        },
        None => return None,
    };
    let games_played = match get_field(v, "games_played") {
        Some(w) => match decode_stat_i32(w) {
            Some(d) => d,
            None => return None,
        },
        None => return None,
    };
    let kd = match get_field(v, "kd") {
        Some(w) => match decode_stat_text(w) {
            Some(d) => d,
            None => return None,
        },
        None => return None,
    };
    Some(ApexStats { br_kills, br_damage, arenas_damage, games_played, kd })
}

/// Whether a document is an array whose elements all decode as `ApexGameData`.
pub open spec fn game_data_list_ok(j: Json) -> bool {
    match j {
        Json::Array(xs) => forall|i: int| 0 <= i < xs.len() ==> game_data_ok(#[trigger] xs[i]),
        _ => false,
    }
}

/// Whether `ys` is what an array document decodes to, element by element.
pub open spec fn decodes_game_data_list(j: Json, ys: Seq<ApexGameData>) -> bool {
    match j {
        Json::Array(xs) => xs.len() == ys.len() && forall|i: int|
            0 <= i < xs.len() ==> decodes_game_data(#[trigger] xs[i], ys[i]),
        _ => false,
    }
}

/// Decodes a JSON array of `ApexGameData`; `None` where the value is no
/// array or one of its elements does not decode.
pub fn decode_game_data_list(v: &serde_json::Value) -> (r: Option<Vec<ApexGameData>>)
    ensures
        r.is_some() == game_data_list_ok(json_of(*v)),
        r.is_some() ==> decodes_game_data_list(json_of(*v), r.unwrap()@),
{
    let items = match json_as_array(v) {
        Some(items) => items,
        None => return None,
    };
    let ghost xs = json_of(*v)->Array_0;
    let mut out: Vec<ApexGameData> = Vec::new();
    let mut i: usize = 0;
    while i < items.len()
        invariant
            i <= items@.len(),
            items@.len() == xs.len(),
            json_of(*v) == Json::Array(xs),
            forall|k: int| 0 <= k < items@.len() ==> json_of(#[trigger] items@[k]) == xs[k],
            out@.len() == i,
            forall|k: int| 0 <= k < i ==> game_data_ok(#[trigger] xs[k]),
            forall|k: int| 0 <= k < i ==> decodes_game_data(#[trigger] xs[k], out@[k]),
        decreases items@.len() - i,
    {
        match decode_game_data(&items[i]) {
            Some(d) => out.push(d),
            None => {
                assert(!game_data_ok(json_of(*v)->Array_0[i as int]));
                return None;
            },
        }
        i = i + 1;
    }
    Some(out)
}

/// Whether a document is an array whose elements all decode as `ApexGame`.
pub open spec fn game_list_ok(j: Json) -> bool {
    match j {
        Json::Array(xs) => forall|i: int| 0 <= i < xs.len() ==> game_ok(#[trigger] xs[i]),
        _ => false,
    }
}

/// Whether `ys` is what an array document decodes to, element by element.
pub open spec fn decodes_game_list(j: Json, ys: Seq<ApexGame>) -> bool {
    match j {
        Json::Array(xs) => xs.len() == ys.len() && forall|i: int|
            0 <= i < xs.len() ==> decodes_game(#[trigger] xs[i], ys[i]),
        _ => false,
    }
}

/// Decodes a JSON array of `ApexGame`; `None` where the value is no
/// array or one of its elements does not decode.
pub fn decode_game_list(v: &serde_json::Value) -> (r: Option<Vec<ApexGame>>)
    ensures
        r.is_some() == game_list_ok(json_of(*v)),
        r.is_some() ==> decodes_game_list(json_of(*v), r.unwrap()@),
{
    let items = match json_as_array(v) {
        Some(items) => items,
        None => return None,
    };
    let ghost xs = json_of(*v)->Array_0;
    let mut out: Vec<ApexGame> = Vec::new();
    let mut i: usize = 0;
    while i < items.len()
        invariant
            i <= items@.len(),
            items@.len() == xs.len(),
            json_of(*v) == Json::Array(xs),
            forall|k: int| 0 <= k < items@.len() ==> json_of(#[trigger] items@[k]) == xs[k],
            out@.len() == i,
            forall|k: int| 0 <= k < i ==> game_ok(#[trigger] xs[k]),
            forall|k: int| 0 <= k < i ==> decodes_game(#[trigger] xs[k], out@[k]),
        decreases items@.len() - i,
    {
        match decode_game(&items[i]) {
            Some(d) => out.push(d),
            None => {
                assert(!game_ok(json_of(*v)->Array_0[i as int]));
                return None;
            },
        }
        i = i + 1;
    }
    Some(out)
}

/// Whether two `ApexUser` records hold the same values.
pub open spec fn same_user(a: ApexUser, b: ApexUser) -> bool {
    &&& same_global(a.global, b.global)
    &&& same_realtime(a.realtime, b.realtime)
    &&& same_stats(a.stats, b.stats)
}

/// A document decodes to at most one `ApexUser`, up to the values it holds.
pub proof fn lemma_decodes_user_unique(j: Json, a: ApexUser, b: ApexUser)
    requires
        decodes_user(j, a),
        decodes_user(j, b),
    ensures
        same_user(a, b),
{
    lemma_decodes_global_unique(field(j, "global"@).unwrap(), a.global, b.global);
    lemma_decodes_realtime_unique(field(j, "realtime"@).unwrap(), a.realtime, b.realtime);
    lemma_decodes_stats_unique(aliased(j, "stats"@, "total"@).unwrap(), a.stats, b.stats);
}

/// Whether two `ApexGlobal` records hold the same values.
pub open spec fn same_global(a: ApexGlobal, b: ApexGlobal) -> bool {
    &&& a.name@ == b.name@
    &&& a.uid == b.uid
    &&& a.avatar@ == b.avatar@
    &&& a.platform@ == b.platform@
    &&& a.level == b.level
    &&& a.level_prestige == b.level_prestige
    &&& a.to_next_level_percent == b.to_next_level_percent
    &&& same_rank(a.rank, b.rank)
    &&& same_rank(a.arena, b.arena)
    &&& same_bans(a.bans, b.bans)
    &&& same_battlepass(a.battlepass, b.battlepass)
}

/// A document decodes to at most one `ApexGlobal`, up to the values it holds.
pub proof fn lemma_decodes_global_unique(j: Json, a: ApexGlobal, b: ApexGlobal)
    requires
        decodes_global(j, a),
        decodes_global(j, b),
    ensures
        same_global(a, b),
{
    lemma_decodes_rank_unique(field(j, "rank"@).unwrap(), a.rank, b.rank);
    lemma_decodes_rank_unique(field(j, "arena"@).unwrap(), a.arena, b.arena);
    lemma_decodes_bans_unique(field(j, "bans"@).unwrap(), a.bans, b.bans);
    lemma_decodes_battlepass_unique(field(j, "battlepass"@).unwrap(), a.battlepass, b.battlepass);
}

/// Whether two `ApexRealtime` records hold the same values.
pub open spec fn same_realtime(a: ApexRealtime, b: ApexRealtime) -> bool {
    &&& a.lobby_state@ == b.lobby_state@
    &&& a.is_online == b.is_online
    &&& a.is_in_game == b.is_in_game
    &&& a.can_join == b.can_join
    &&& a.party_full == b.party_full
    &&& a.selected_legend@ == b.selected_legend@
    &&& a.current_state@ == b.current_state@
}

/// A document decodes to at most one `ApexRealtime`, up to the values it holds.
pub proof fn lemma_decodes_realtime_unique(j: Json, a: ApexRealtime, b: ApexRealtime)
    requires
        decodes_realtime(j, a),
        decodes_realtime(j, b),
    ensures
        same_realtime(a, b),
{
}

/// Whether two `ApexBattlepass` records hold the same values.
pub open spec fn same_battlepass(a: ApexBattlepass, b: ApexBattlepass) -> bool {
    &&& a.level@ == b.level@
    &&& same_battlepass_history(a.history, b.history)
}

/// A document decodes to at most one `ApexBattlepass`, up to the values it holds.
pub proof fn lemma_decodes_battlepass_unique(j: Json, a: ApexBattlepass, b: ApexBattlepass)
    requires
        decodes_battlepass(j, a),
        decodes_battlepass(j, b),
    ensures
        same_battlepass(a, b),
{
    lemma_decodes_battlepass_history_unique(field(j, "history"@).unwrap(), a.history, b.history);
}

/// Whether two `ApexBattlepassHistory` records hold the same values.
pub open spec fn same_battlepass_history(a: ApexBattlepassHistory, b: ApexBattlepassHistory) -> bool {
    &&& a.season1 == b.season1
    &&& a.season2 == b.season2
    &&& a.season3 == b.season3
    &&& a.season4 == b.season4
    &&& a.season5 == b.season5
    &&& a.season6 == b.season6
    &&& a.season7 == b.season7
    &&& a.season8 == b.season8
    &&& a.season9 == b.season9
    &&& a.season10 == b.season10
}

/// A document decodes to at most one `ApexBattlepassHistory`, up to the values it holds.
pub proof fn lemma_decodes_battlepass_history_unique(j: Json, a: ApexBattlepassHistory, b: ApexBattlepassHistory)
    requires
        decodes_battlepass_history(j, a),
        decodes_battlepass_history(j, b),
    ensures
        same_battlepass_history(a, b),
{
}

/// Whether two `ApexRank` records hold the same values.
pub open spec fn same_rank(a: ApexRank, b: ApexRank) -> bool {
    &&& a.rank_score == b.rank_score
    &&& a.rank_name@ == b.rank_name@
    &&& a.rank_division == b.rank_division
    &&& a.rank_img@ == b.rank_img@
    &&& a.ranked_season@ == b.ranked_season@
}

/// A document decodes to at most one `ApexRank`, up to the values it holds.
pub proof fn lemma_decodes_rank_unique(j: Json, a: ApexRank, b: ApexRank)
    requires
        decodes_rank(j, a),
        decodes_rank(j, b),
    ensures
        same_rank(a, b),
{
}

/// Whether two `ApexBans` records hold the same values.
pub open spec fn same_bans(a: ApexBans, b: ApexBans) -> bool {
    &&& a.is_active == b.is_active
    &&& a.remaining_seconds == b.remaining_seconds
    &&& a.last_ban_reason@ == b.last_ban_reason@
}

/// A document decodes to at most one `ApexBans`, up to the values it holds.
pub proof fn lemma_decodes_bans_unique(j: Json, a: ApexBans, b: ApexBans)
    requires
        decodes_bans(j, a),
        decodes_bans(j, b),
    ensures
        same_bans(a, b),
{
}

/// Whether two `ApexGame` records hold the same values.
pub open spec fn same_game(a: ApexGame, b: ApexGame) -> bool {
    &&& a.uid@ == b.uid@
    &&& a.name@ == b.name@
    &&& a.legend_played@ == b.legend_played@
    &&& a.game_mode@ == b.game_mode@
    &&& a.game_length_seconds == b.game_length_seconds
    &&& a.game_end_timestamp == b.game_end_timestamp
    &&& same_game_data_list(a.game_data@, b.game_data@)
    &&& a.estimated_level_progress == b.estimated_level_progress
    &&& a.br_score_change == b.br_score_change
    &&& a.br_score == b.br_score
    &&& a.arenas_score_change == b.arenas_score_change
    &&& a.arenas_score == b.arenas_score
    &&& same_cosmetics(a.cosmetics, b.cosmetics)
}

/// A document decodes to at most one `ApexGame`, up to the values it holds.
pub proof fn lemma_decodes_game_unique(j: Json, a: ApexGame, b: ApexGame)
    requires
        decodes_game(j, a),
        decodes_game(j, b),
    ensures
        same_game(a, b),
{
    lemma_decodes_game_data_list_unique(aliased(j, "game_data"@, "gameData"@).unwrap(), a.game_data@, b.game_data@);
    lemma_decodes_cosmetics_unique(field(j, "cosmetics"@).unwrap(), a.cosmetics, b.cosmetics);
}

/// Whether two `ApexCosmetics` records hold the same values.
pub open spec fn same_cosmetics(a: ApexCosmetics, b: ApexCosmetics) -> bool {
    &&& a.pose@ == b.pose@
    &&& a.skin@ == b.skin@
    &&& a.frame@ == b.frame@
    &&& a.intro@ == b.intro@
    &&& a.pose_rarity@ == b.pose_rarity@
    &&& a.skin_rarity@ == b.skin_rarity@
    &&& a.frame_rarity@ == b.frame_rarity@
    &&& a.intro_rarity@ == b.intro_rarity@
}

/// A document decodes to at most one `ApexCosmetics`, up to the values it holds.
pub proof fn lemma_decodes_cosmetics_unique(j: Json, a: ApexCosmetics, b: ApexCosmetics)
    requires
        decodes_cosmetics(j, a),
        decodes_cosmetics(j, b),
    ensures
        same_cosmetics(a, b),
{
}

/// Whether two `ApexGameData` records hold the same values.
pub open spec fn same_game_data(a: ApexGameData, b: ApexGameData) -> bool {
    &&& a.key@ == b.key@
    &&& a.value == b.value
    &&& match (a.name, b.name) { (Some(x), Some(y)) => x@ == y@, (None, None) => true, _ => false }
}

/// A document decodes to at most one `ApexGameData`, up to the values it holds.
pub proof fn lemma_decodes_game_data_unique(j: Json, a: ApexGameData, b: ApexGameData)
    requires
        decodes_game_data(j, a),
        decodes_game_data(j, b),
    ensures
        same_game_data(a, b),
{
}

/// Whether two `ApexProfile` records hold the same values.
pub open spec fn same_profile(a: ApexProfile, b: ApexProfile) -> bool {
    &&& a.name@ == b.name@
    &&& a.uid@ == b.uid@
    &&& a.pid@ == b.pid@
    &&& a.avatar@ == b.avatar@
}

/// A document decodes to at most one `ApexProfile`, up to the values it holds.
pub proof fn lemma_decodes_profile_unique(j: Json, a: ApexProfile, b: ApexProfile)
    requires
        decodes_profile(j, a),
        decodes_profile(j, b),
    ensures
        same_profile(a, b),
{
}

/// Whether two `ApexMapRotation` records hold the same values.
pub open spec fn same_map_rotation(a: ApexMapRotation, b: ApexMapRotation) -> bool {
    &&& same_map_rotation_data(a.battle_royale, b.battle_royale)
    &&& same_map_rotation_data(a.arenas, b.arenas)
    &&& same_ranked_map_rotation_data(a.ranked, b.ranked)
    &&& same_map_rotation_data(a.arenas_ranked, b.arenas_ranked)
}

/// A document decodes to at most one `ApexMapRotation`, up to the values it holds.
pub proof fn lemma_decodes_map_rotation_unique(j: Json, a: ApexMapRotation, b: ApexMapRotation)
    requires
        decodes_map_rotation(j, a),
        decodes_map_rotation(j, b),
    ensures
        same_map_rotation(a, b),
{
    lemma_decodes_map_rotation_data_unique(field(j, "battle_royale"@).unwrap(), a.battle_royale, b.battle_royale);
    lemma_decodes_map_rotation_data_unique(field(j, "arenas"@).unwrap(), a.arenas, b.arenas);
    lemma_decodes_ranked_map_rotation_data_unique(field(j, "ranked"@).unwrap(), a.ranked, b.ranked);
    lemma_decodes_map_rotation_data_unique(aliased(j, "arenas_ranked"@, "arenasRanked"@).unwrap(), a.arenas_ranked, b.arenas_ranked);
}

/// Whether two `ApexMapRotationData` records hold the same values.
pub open spec fn same_map_rotation_data(a: ApexMapRotationData, b: ApexMapRotationData) -> bool {
    &&& same_map_rotation_item(a.current, b.current)
    &&& same_map_rotation_item(a.next, b.next)
}

/// A document decodes to at most one `ApexMapRotationData`, up to the values it holds.
pub proof fn lemma_decodes_map_rotation_data_unique(j: Json, a: ApexMapRotationData, b: ApexMapRotationData)
    requires
        decodes_map_rotation_data(j, a),
        decodes_map_rotation_data(j, b),
    ensures
        same_map_rotation_data(a, b),
{
    lemma_decodes_map_rotation_item_unique(field(j, "current"@).unwrap(), a.current, b.current);
    lemma_decodes_map_rotation_item_unique(field(j, "next"@).unwrap(), a.next, b.next);
}

/// Whether two `ApexRankedMapRotationData` records hold the same values.
pub open spec fn same_ranked_map_rotation_data(a: ApexRankedMapRotationData, b: ApexRankedMapRotationData) -> bool {
    &&& same_ranked_map_rotation_item(a.current, b.current)
    &&& same_ranked_map_rotation_item(a.next, b.next)
}

/// A document decodes to at most one `ApexRankedMapRotationData`, up to the values it holds.
pub proof fn lemma_decodes_ranked_map_rotation_data_unique(j: Json, a: ApexRankedMapRotationData, b: ApexRankedMapRotationData)
    requires
        decodes_ranked_map_rotation_data(j, a),
        decodes_ranked_map_rotation_data(j, b),
    ensures
        same_ranked_map_rotation_data(a, b),
{
    lemma_decodes_ranked_map_rotation_item_unique(field(j, "current"@).unwrap(), a.current, b.current);
    lemma_decodes_ranked_map_rotation_item_unique(field(j, "next"@).unwrap(), a.next, b.next);
}

/// Whether two `ApexRankedMapRotationItem` records hold the same values.
pub open spec fn same_ranked_map_rotation_item(a: ApexRankedMapRotationItem, b: ApexRankedMapRotationItem) -> bool {
    &&& a.map@ == b.map@
}

/// A document decodes to at most one `ApexRankedMapRotationItem`, up to the values it holds.
pub proof fn lemma_decodes_ranked_map_rotation_item_unique(j: Json, a: ApexRankedMapRotationItem, b: ApexRankedMapRotationItem)
    requires
        decodes_ranked_map_rotation_item(j, a),
        decodes_ranked_map_rotation_item(j, b),
    ensures
        same_ranked_map_rotation_item(a, b),
{
}

/// Whether two `ApexMapRotationItem` records hold the same values.
pub open spec fn same_map_rotation_item(a: ApexMapRotationItem, b: ApexMapRotationItem) -> bool {
    &&& a.start == b.start
    &&& a.end == b.end
    &&& a.readable_date_start@ == b.readable_date_start@
    &&& a.readable_date_end@ == b.readable_date_end@
    &&& a.map@ == b.map@
    &&& a.duration_in_seconds == b.duration_in_seconds
    &&& a.duration_in_minutes == b.duration_in_minutes
}

/// A document decodes to at most one `ApexMapRotationItem`, up to the values it holds.
pub proof fn lemma_decodes_map_rotation_item_unique(j: Json, a: ApexMapRotationItem, b: ApexMapRotationItem)
    requires
        decodes_map_rotation_item(j, a),
        decodes_map_rotation_item(j, b),
    ensures
        same_map_rotation_item(a, b),
{
}

/// Whether two `Stat<i32>` records hold the same values.
pub open spec fn same_stat_i32(a: Stat<i32>, b: Stat<i32>) -> bool {
    &&& a.name@ == b.name@
    &&& a.value == b.value
}

/// A document decodes to at most one `Stat<i32>`, up to the values it holds.
pub proof fn lemma_decodes_stat_i32_unique(j: Json, a: Stat<i32>, b: Stat<i32>)
    requires
        decodes_stat_i32(j, a),
        decodes_stat_i32(j, b),
    ensures
        same_stat_i32(a, b),
{
}

/// Whether two `Stat<String>` records hold the same values.
pub open spec fn same_stat_text(a: Stat<String>, b: Stat<String>) -> bool {
    &&& a.name@ == b.name@
    &&& a.value@ == b.value@
}

/// A document decodes to at most one `Stat<String>`, up to the values it holds.
pub proof fn lemma_decodes_stat_text_unique(j: Json, a: Stat<String>, b: Stat<String>)
    requires
        decodes_stat_text(j, a),
        decodes_stat_text(j, b),
    ensures
        same_stat_text(a, b),
{
}

/// Whether two `ApexStats` records hold the same values.
pub open spec fn same_stats(a: ApexStats, b: ApexStats) -> bool {
    &&& same_stat_i32(a.br_kills, b.br_kills)
    &&& same_stat_i32(a.br_damage, b.br_damage)
    &&& same_stat_i32(a.arenas_damage, b.arenas_damage)
    &&& same_stat_i32(a.games_played, b.games_played)
    &&& same_stat_text(a.kd, b.kd)
}

/// A document decodes to at most one `ApexStats`, up to the values it holds.
pub proof fn lemma_decodes_stats_unique(j: Json, a: ApexStats, b: ApexStats)
    requires
        decodes_stats(j, a),
        decodes_stats(j, b),
    ensures
        same_stats(a, b),
{
    lemma_decodes_stat_i32_unique(aliased(j, "br_kills"@, "kills"@).unwrap(), a.br_kills, b.br_kills);
    lemma_decodes_stat_i32_unique(aliased(j, "br_damage"@, "damage"@).unwrap(), a.br_damage, b.br_damage);
    lemma_decodes_stat_i32_unique(field(j, "arenas_damage"@).unwrap(), a.arenas_damage, b.arenas_damage);
    lemma_decodes_stat_i32_unique(field(j, "games_played"@).unwrap(), a.games_played, b.games_played);
    lemma_decodes_stat_text_unique(field(j, "kd"@).unwrap(), a.kd, b.kd);
}

/// Whether two sequences of `ApexGameData` hold the same values, element by element.
pub open spec fn same_game_data_list(a: Seq<ApexGameData>, b: Seq<ApexGameData>) -> bool {
    a.len() == b.len() && forall|i: int| 0 <= i < a.len() ==> same_game_data(#[trigger] a[i], b[i])
}

/// An array document decodes to at most one sequence of `ApexGameData`.
pub proof fn lemma_decodes_game_data_list_unique(j: Json, a: Seq<ApexGameData>, b: Seq<ApexGameData>)
    requires
        decodes_game_data_list(j, a),
        decodes_game_data_list(j, b),
    ensures
        same_game_data_list(a, b),
{
    let xs = j->Array_0;
    assert forall|i: int| 0 <= i < a.len() implies same_game_data(#[trigger] a[i], b[i]) by {
        lemma_decodes_game_data_unique(xs[i], a[i], b[i]);
    }
}

/// Whether two sequences of `ApexGame` hold the same values, element by element.
pub open spec fn same_game_list(a: Seq<ApexGame>, b: Seq<ApexGame>) -> bool {
    a.len() == b.len() && forall|i: int| 0 <= i < a.len() ==> same_game(#[trigger] a[i], b[i])
}

/// An array document decodes to at most one sequence of `ApexGame`.
pub proof fn lemma_decodes_game_list_unique(j: Json, a: Seq<ApexGame>, b: Seq<ApexGame>)
    requires
        decodes_game_list(j, a),
        decodes_game_list(j, b),
    ensures
        same_game_list(a, b),
{
    let xs = j->Array_0;
    assert forall|i: int| 0 <= i < a.len() implies same_game(#[trigger] a[i], b[i]) by {
        lemma_decodes_game_unique(xs[i], a[i], b[i]);
    }
}

} // verus!
