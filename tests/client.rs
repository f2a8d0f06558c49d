use apex_legends::client::{
    map_rotation_step, map_rotation_url, recent_games_step, recent_games_url, status_message,
    uid_step, uid_url, user_from_body, user_step, user_url, Attempt, Reply, Step,
};
use apex_legends::rate::{parse_rate_millis, retry_delay, DEFAULT_RATE_MILLIS};

fn rank(score: i32, name: &str) -> String {
    format!(
        r#"{{"rankScore":{},"rankName":"{}","rankDiv":2,"rankImg":"img.png","rankedSeason":"season17_split_1"}}"#,
        score, name
    )
}

fn stat(name: &str, value: &str) -> String {
    format!(r#"{{"name":"{}","value":{}}}"#, name, value)
}

fn user_body(name: &str, uid: i64) -> String {
    let history: Vec<String> = (1..=10).map(|i| format!(r#""season{}":{}"#, i, i * 10)).collect();
    let global = format!(
        r#"{{"name":"{}","uid":{},"avatar":"a.png","platform":"PC","level":512,"levelPrestige":1,"toNextLevelPercent":37,"rank":{},"arena":{},"bans":{{"isActive":false,"remainingSeconds":0,"last_banReason":"NONE"}},"battlepass":{{"level":"110","history":{{{}}}}}}}"#,
        name,
        uid,
        rank(9000, "Diamond"),
        rank(1200, "Gold"),
        history.join(",")
    );
    let realtime = r#"{"lobbyState":"open","isOnline":1,"isInGame":0,"canJoin":1,"partyFull":0,"selectedLegend":"Wraith","currentState":"inLobby"}"#;
    let total = format!(
        r#"{{"kills":{},"damage":{},"arenas_damage":{},"games_played":{},"kd":{}}}"#,
        stat("BR Kills", "4321"),
        stat("BR Damage", "1234567"),
        stat("Arenas Damage", "800"),
        stat("Games Played", "99"),
        stat("KD", "\"1.25\"")
    );
    format!(r#"{{"global":{},"realtime":{},"total":{},"extra":[1,2,3]}}"#, global, realtime, total)
}

fn item(map: &str, start: i64) -> String {
    format!(
        r#"{{"start":{},"end":{},"readableDate_start":"s","readableDate_end":"e","map":"{}","DurationInSecs":5400,"DurationInMinutes":90}}"#,
        start,
        start + 5400,
        map
    )
}

fn rotation_body() -> String {
    format!(
        r#"{{"battle_royale":{{"current":{},"next":{}}},"arenas":{{"current":{},"next":{}}},"ranked":{{"current":{{"map":"Olympus"}},"next":{{"map":"Storm Point"}}}},"arenasRanked":{{"current":{},"next":{}}}}}"#,
        item("Kings Canyon", 100),
        item("World's Edge", 5500),
        item("Habitat", 200),
        item("Encore", 5600),
        item("Phase Runner", 300),
        item("Overflow", 5700)
    )
}

fn game_body() -> String {
    String::from(
        r#"[{"uid":"1000","name":"Player","legendPlayed":"Bangalore","gameMode":"BATTLE_ROYALE","gameLengthSecs":1200,"gameEndTimestamp":1650000000,"gameData":[{"key":"kills","value":3,"name":"BR Kills"},{"key":"damage","value":900}],"estimatedLevelProgress":40,"BRScoreChange":12,"BRScore":5000,"ArenasScoreChange":0,"ArenasScore":1500,"cosmetics":{"pose":"p","skin":"s","frame":"f","intro":"i","poseRarity":"COMMON","skinRarity":"RARE","frameRarity":"EPIC","introRarity":"LEGENDARY"}}]"#,
    )
}

fn body(s: &str) -> Reply {
    Reply::Body(String::from(s))
}

fn status(code: u16, hint: Option<&str>) -> Reply {
    Reply::Status { code, rate_hint: hint.map(String::from) }
}

fn done_err<T>(step: Step<T>) -> String {
    match step {
        Step::Done(Err(e)) => e,
        Step::Done(Ok(_)) => panic!("expected an error, got a record"),
        Step::Wait(ms) => panic!("expected an error, got a wait of {} ms", ms),
    }
}

#[test]
fn profile_example_decodes_name_and_uid() {
    let reply = body(&user_body("ExampleUser", 123));
    match user_step(Attempt::First, true, &reply) {
        Step::Done(Ok(u)) => {
            assert_eq!(u.global.name, "ExampleUser");
            assert_eq!(u.global.uid, 123);
        }
        _ => panic!("expected a profile"),
    }
}

#[test]
fn user_fields_all_populated() {
    let u = user_from_body(&user_body("Someone", -5)).ok().unwrap();
    assert_eq!(u.global.uid, -5);
    assert_eq!(u.global.avatar, "a.png");
    assert_eq!(u.global.platform, "PC");
    assert_eq!(u.global.level, 512);
    assert_eq!(u.global.level_prestige, 1);
    assert_eq!(u.global.to_next_level_percent, 37);
    assert_eq!(u.global.rank.rank_score, 9000);
    assert_eq!(u.global.rank.rank_name, "Diamond");
    assert_eq!(u.global.rank.rank_division, 2);
    assert_eq!(u.global.rank.rank_img, "img.png");
    assert_eq!(u.global.rank.ranked_season, "season17_split_1");
    assert_eq!(u.global.arena.rank_score, 1200);
    assert!(!u.global.bans.is_active);
    assert_eq!(u.global.bans.remaining_seconds, 0);
    assert_eq!(u.global.bans.last_ban_reason, "NONE");
    assert_eq!(u.global.battlepass.level, "110");
    assert_eq!(u.global.battlepass.history.season1, 10);
    assert_eq!(u.global.battlepass.history.season10, 100);
    assert_eq!(u.realtime.lobby_state, "open");
    assert_eq!(u.realtime.is_online, 1);
    assert_eq!(u.realtime.is_in_game, 0);
    assert_eq!(u.realtime.can_join, 1);
    assert_eq!(u.realtime.party_full, 0);
    assert_eq!(u.realtime.selected_legend, "Wraith");
    assert_eq!(u.realtime.current_state, "inLobby");
    assert_eq!(u.stats.br_kills.name, "BR Kills");
    assert_eq!(u.stats.br_kills.value, 4321);
    assert_eq!(u.stats.br_damage.value, 1234567);
    assert_eq!(u.stats.arenas_damage.value, 800);
    assert_eq!(u.stats.games_played.value, 99);
    assert_eq!(u.stats.kd.name, "KD");
    assert_eq!(u.stats.kd.value, "1.25");
}

#[test]
fn field_named_twice_fails_to_decode() {
    let text = user_body("Dup", 1).replace(r#""levelPrestige":1"#, r#""levelPrestige":1,"level_prestige":2"#);
    assert_eq!(user_from_body(&text).err().unwrap(), text);
}

#[test]
fn integer_out_of_range_fails_to_decode() {
    let text = user_body("Big", 1).replace(r#""level":512"#, r#""level":3000000000"#);
    assert!(user_from_body(&text).is_err());
    let text = user_body("Frac", 1).replace(r#""level":512"#, r#""level":5.5"#);
    assert!(user_from_body(&text).is_err());
}

#[test]
fn profile_lookup_decodes() {
    let reply = body(r#"{"name":"Player","uid":"1000","pid":"2000","avatar":"av.png"}"#);
    match uid_step(Attempt::First, false, &reply) {
        Step::Done(Ok(p)) => {
            assert_eq!(p.name, "Player");
            assert_eq!(p.uid, "1000");
            assert_eq!(p.pid, "2000");
            assert_eq!(p.avatar, "av.png");
        }
        _ => panic!("expected a profile"),
    }
}

#[test]
fn map_rotation_decodes() {
    let reply = body(&rotation_body());
    match map_rotation_step(Attempt::First, true, &reply) {
        Step::Done(Ok(r)) => {
            assert_eq!(r.battle_royale.current.map, "Kings Canyon");
            assert_eq!(r.battle_royale.current.start, 100);
            assert_eq!(r.battle_royale.current.end, 5500);
            assert_eq!(r.battle_royale.next.map, "World's Edge");
            assert_eq!(r.arenas.current.duration_in_seconds, 5400);
            assert_eq!(r.arenas.next.duration_in_minutes, 90);
            assert_eq!(r.ranked.current.map, "Olympus");
            assert_eq!(r.ranked.next.map, "Storm Point");
            assert_eq!(r.arenas_ranked.current.map, "Phase Runner");
            assert_eq!(r.arenas_ranked.current.readable_date_start, "s");
            assert_eq!(r.arenas_ranked.current.readable_date_end, "e");
        }
        _ => panic!("expected a map rotation"),
    }
}

#[test]
fn recent_games_decode() {
    let reply = body(&game_body());
    match recent_games_step(Attempt::First, true, &reply) {
        Step::Done(Ok(games)) => {
            assert_eq!(games.len(), 1);
            let g = &games[0];
            assert_eq!(g.uid, "1000");
            assert_eq!(g.legend_played, "Bangalore");
            assert_eq!(g.game_mode, "BATTLE_ROYALE");
            assert_eq!(g.game_length_seconds, 1200);
            assert_eq!(g.game_end_timestamp, 1650000000);
            assert_eq!(g.game_data.len(), 2);
            assert_eq!(g.game_data[0].key, "kills");
            assert_eq!(g.game_data[0].value, 3);
            assert_eq!(g.game_data[0].name, Some(String::from("BR Kills")));
            assert_eq!(g.game_data[1].name, None);
            assert_eq!(g.estimated_level_progress, 40);
            assert_eq!(g.br_score_change, 12);
            assert_eq!(g.br_score, 5000);
            assert_eq!(g.arenas_score_change, 0);
            assert_eq!(g.arenas_score, 1500);
            assert_eq!(g.cosmetics.skin_rarity, "RARE");
            assert_eq!(g.cosmetics.intro_rarity, "LEGENDARY");
        }
        _ => panic!("expected the recent games"),
    }
    let empty = body("[]");
    assert!(matches!(recent_games_step(Attempt::First, true, &empty), Step::Done(Ok(v)) if v.is_empty()));
}

#[test]
fn malformed_body_is_an_error() {
    let text = r#"{"name":"Player","uid":"#;
    let reply = body(text);
    assert_eq!(done_err(uid_step(Attempt::First, true, &reply)), text);
    assert_eq!(done_err(user_step(Attempt::First, true, &reply)), text);
    assert_eq!(done_err(map_rotation_step(Attempt::First, true, &reply)), text);
    assert_eq!(done_err(recent_games_step(Attempt::First, true, &reply)), text);
}

#[test]
fn wrong_shape_is_an_error() {
    let reply = body(r#"{"Error":"Player not found. Try again?"}"#);
    assert_eq!(done_err(uid_step(Attempt::First, true, &reply)), r#"{"Error":"Player not found. Try again?"}"#);
    let reply = body(r#"{"name":"Player","uid":1000,"pid":"2000","avatar":"av.png"}"#);
    assert!(done_err(uid_step(Attempt::First, true, &reply)).contains("1000"));
}

#[test]
fn table_statuses_give_their_messages() {
    for step in [
        done_err(user_step(Attempt::First, true, &status(401, None))),
        done_err(uid_step(Attempt::First, true, &status(401, None))),
        done_err(map_rotation_step(Attempt::First, true, &status(401, None))),
        done_err(recent_games_step(Attempt::First, true, &status(401, None))),
    ] {
        assert_eq!(step, "invalid API key");
    }
    assert_eq!(done_err(user_step(Attempt::First, true, &status(404, None))), "resource not found");
    assert_eq!(done_err(uid_step(Attempt::Retried, true, &status(500, None))), "upstream server error");
    assert_eq!(status_message(429), "too many requests, please wait before retrying");
}

#[test]
fn other_status_gives_code_and_reason() {
    assert_eq!(status_message(418), "418 I'm a teapot");
    assert_eq!(status_message(503), "503 Service Unavailable");
    assert_eq!(done_err(map_rotation_step(Attempt::First, true, &status(502, None))), "502 Bad Gateway");
}

#[test]
fn rate_limited_waits_for_hint_then_gives_up() {
    let reply = status(429, Some("1.0"));
    assert!(matches!(user_step(Attempt::First, true, &reply), Step::Wait(1000)));
    assert_eq!(
        done_err(user_step(Attempt::Retried, true, &reply)),
        "too many requests, please wait before retrying"
    );
    assert_eq!(
        done_err(user_step(Attempt::First, false, &reply)),
        "too many requests, please wait before retrying"
    );
}

#[test]
fn rate_limited_without_hint_waits_default() {
    let reply = status(429, None);
    assert!(matches!(map_rotation_step(Attempt::First, true, &reply), Step::Wait(3000)));
    let reply = status(429, Some("soon"));
    assert!(matches!(uid_step(Attempt::First, true, &reply), Step::Wait(3000)));
    assert_eq!(DEFAULT_RATE_MILLIS, 3000);
}

#[test]
fn transport_failure_message() {
    let reply = Reply::Failed(String::from("connection refused"));
    assert_eq!(done_err(user_step(Attempt::First, true, &reply)), "request failed: connection refused");
}

#[test]
fn rate_hints_parse_to_millis() {
    assert_eq!(parse_rate_millis("1.0"), Some(1000));
    assert_eq!(parse_rate_millis("0.5"), Some(500));
    assert_eq!(parse_rate_millis("2"), Some(2000));
    assert_eq!(parse_rate_millis(".25"), Some(250));
    assert_eq!(parse_rate_millis("3."), Some(3000));
    assert_eq!(parse_rate_millis("1.2345"), Some(1234));
    assert_eq!(parse_rate_millis(""), None);
    assert_eq!(parse_rate_millis("."), None);
    assert_eq!(parse_rate_millis("abc"), None);
    assert_eq!(parse_rate_millis("1.2.3"), None);
    assert_eq!(parse_rate_millis("-1"), None);
    assert_eq!(parse_rate_millis("18446744073709551"), Some(18446744073709551000));
    assert_eq!(parse_rate_millis("18446744073709552"), None);
    assert_eq!(parse_rate_millis("99999999999999999999999"), None);
    assert_eq!(retry_delay(None), 3000);
    assert_eq!(retry_delay(Some("1e3")), 1_000_000);
    assert_eq!(retry_delay(Some("+2")), 2000);
    assert_eq!(retry_delay(Some("2.5E-1")), 250);
    assert_eq!(retry_delay(Some("x1")), 3000);
    assert_eq!(retry_delay(Some("0.75")), 750);
}

#[test]
fn rate_hints_with_sign_and_exponent() {
    assert_eq!(parse_rate_millis("1e3"), Some(1_000_000));
    assert_eq!(parse_rate_millis("+2"), Some(2000));
    assert_eq!(parse_rate_millis("2.5E-1"), Some(250));
    assert_eq!(parse_rate_millis("1E+1"), Some(10_000));
    assert_eq!(parse_rate_millis("123.4567e2"), Some(12_345_670));
    assert_eq!(parse_rate_millis("+.5"), Some(500));
    assert_eq!(parse_rate_millis("1.e1"), Some(10_000));
    assert_eq!(parse_rate_millis("1e-4"), Some(0));
    assert_eq!(parse_rate_millis("15e-4"), Some(1));
    assert_eq!(parse_rate_millis("0e99999999999999999999999"), Some(0));
    assert_eq!(parse_rate_millis("1e99999999999999999999999"), None);
    assert_eq!(parse_rate_millis("5e-99999999999999999999999"), Some(0));
    assert_eq!(parse_rate_millis("18446744073709551.615e0"), Some(u64::MAX));
    assert_eq!(parse_rate_millis("1.8446744073709551616e16"), None);
    assert_eq!(parse_rate_millis("+"), None);
    assert_eq!(parse_rate_millis("e5"), None);
    assert_eq!(parse_rate_millis("1e"), None);
    assert_eq!(parse_rate_millis("1e+"), None);
    assert_eq!(parse_rate_millis("1.5e2x"), None);
    assert_eq!(parse_rate_millis("++1"), None);
    assert_eq!(parse_rate_millis("inf"), None);
    assert_eq!(parse_rate_millis("NaN"), None);
    let reply = status(429, Some("1e3"));
    assert!(matches!(user_step(Attempt::First, true, &reply), Step::Wait(1_000_000)));
}

#[test]
fn urls_carry_their_parameters() {
    assert_eq!(
        user_url("Player", "KEY"),
        "https://api.mozambiquehe.re/bridge?version=5&platform=PC&player=Player&auth=KEY"
    );
    assert_eq!(recent_games_url("1000", "KEY"), "https://api.mozambiquehe.re/games?auth=KEY&uid=1000");
    assert_eq!(
        uid_url("Player", "KEY"),
        "https://api.mozambiquehe.re/nametouid?player=Player&platform=PC&auth=KEY"
    );
    assert_eq!(map_rotation_url("KEY"), "https://api.mozambiquehe.re/maprotation?version=2&auth=KEY");
}

#[test]
fn same_reply_twice_gives_same_record() {
    let reply = body(&user_body("Twice", 77));
    let a = match user_step(Attempt::First, true, &reply) {
        Step::Done(Ok(u)) => u,
        _ => panic!("expected a profile"),
    };
    let b = match user_step(Attempt::First, true, &reply) {
        Step::Done(Ok(u)) => u,
        _ => panic!("expected a profile"),
    };
    assert_eq!(a.global.name, b.global.name);
    assert_eq!(a.global.uid, b.global.uid);
    assert_eq!(a.stats.kd.value, b.stats.kd.value);
    let r = status(404, None);
    assert_eq!(done_err(uid_step(Attempt::First, true, &r)), done_err(uid_step(Attempt::First, true, &r)));
}
