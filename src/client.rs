//! The resource client: request URLs, the status-to-message table, and the
//! decision taken on each reply, including the single rate-limited retry.
use vstd::prelude::*;
use vstd::string::StringExecFns;
use crate::data_types::{ApexGame, ApexMapRotation, ApexProfile, ApexUser};
use crate::decode::{
    decode_game_list, decode_map_rotation, decode_profile, decode_user, decodes_game_list,
    decodes_map_rotation, decodes_profile, decodes_user, game_list_ok, lemma_decodes_game_list_unique,
    lemma_decodes_map_rotation_unique, lemma_decodes_profile_unique, lemma_decodes_user_unique,
    map_rotation_ok, profile_ok, same_game_list, same_map_rotation, same_profile, same_user, user_ok,
};
use crate::json::{parse_json, parsed_json};
use crate::rate::{retry_delay, retry_delay_spec, DEFAULT_RATE_MILLIS};

verus! {

pub const TOO_MANY_REQUESTS: u16 = 429;

pub const UNAUTHORIZED: u16 = 401;

pub const NOT_FOUND: u16 = 404;

pub const INTERNAL_SERVER_ERROR: u16 = 500;

/// The API's origin.
pub open spec fn origin() -> Seq<char> {
    "https://api.mozambiquehe.re"@
}

/// The URL of a player's profile and statistics.
pub fn user_url(username: &str, api_key: &str) -> (r: String)
    ensures
        r@ == origin() + "/bridge?version=5&platform=PC&player="@ + username@ + "&auth="@ + api_key@,
{
    let mut u = String::from_str("https://api.mozambiquehe.re");
    u.append("/bridge?version=5&platform=PC&player=");
    u.append(username);
    u.append("&auth=");
    u.append(api_key);
    u
}

/// The URL of a player's recent matches.
pub fn recent_games_url(user_id: &str, api_key: &str) -> (r: String)
    ensures
        r@ == origin() + "/games?auth="@ + api_key@ + "&uid="@ + user_id@,
{
    let mut u = String::from_str("https://api.mozambiquehe.re");
    u.append("/games?auth=");
    u.append(api_key);
    u.append("&uid=");
    u.append(user_id);
    u
}

/// The URL that resolves a player name to a profile.
pub fn uid_url(username: &str, api_key: &str) -> (r: String)
    ensures
        r@ == origin() + "/nametouid?player="@ + username@ + "&platform=PC&auth="@ + api_key@,
{
    let mut u = String::from_str("https://api.mozambiquehe.re");
    u.append("/nametouid?player=");
    u.append(username);
    u.append("&platform=PC&auth=");
    u.append(api_key);
    u
}

/// The URL of the map rotation.
pub fn map_rotation_url(api_key: &str) -> (r: String)
    ensures
        r@ == origin() + "/maprotation?version=2&auth="@ + api_key@,
{
    let mut u = String::from_str("https://api.mozambiquehe.re");
    u.append("/maprotation?version=2&auth=");
    u.append(api_key);
    u
}

/// What one GET request came back with.
pub enum Reply {
    /// A 2xx response, with its body.
    Body(String),
    /// Any other status, with the value of the `x-current-rate` header where
    /// the response carried a readable one.
    Status { code: u16, rate_hint: Option<String> },
    /// No response at all, with the transport's error text.
    Failed(String),
}

/// A status code as HTTP defines it: three decimal digits.
pub open spec fn valid_status(code: u16) -> bool {
    100 <= code <= 999
}

pub open spec fn reply_wf(r: Reply) -> bool {
    match r {
        Reply::Status { code, .. } => valid_status(code),
        _ => true,
    }
}

/// Whether this is the first request of a call or the one retry.
#[derive(Clone, Copy, PartialEq, Eq, Structural)]
pub enum Attempt {
    First,
    Retried,
}

/// What to do with a reply.
pub enum Action {
    /// Decode the body.
    Decode,
    /// Sleep this many milliseconds, then send the request once more.
    Wait(u64),
    /// Give up with this message.
    Fail(String),
}

/// The model of an `Action`.
pub enum Plan {
    Decode,
    Wait(u64),
    Fail(Seq<char>),
}

impl View for Action {
    type V = Plan;

    open spec fn view(&self) -> Plan {
        match self {
            Action::Decode => Plan::Decode,
            Action::Wait(ms) => Plan::Wait(*ms),
            Action::Fail(m) => Plan::Fail(m@),
        }
    }
}

/// The text that `reqwest::StatusCode` displays for a code: the code and its
/// canonical reason.
pub uninterp spec fn status_display(code: u16) -> Seq<char>;

/// Relies on `reqwest::StatusCode::from_u16`, which accepts 100 to 999, and on
/// the `Display` of `StatusCode`.
#[verifier::external_body]
fn status_text(code: u16) -> (r: String)
    requires
        valid_status(code),
    ensures
        r@ == status_display(code),
{
    reqwest::StatusCode::from_u16(code).unwrap().to_string()
}

/// The message for a status that is not retried.
pub open spec fn status_message_spec(code: u16) -> Seq<char> {
    if code == TOO_MANY_REQUESTS {
        "too many requests, please wait before retrying"@
    } else if code == UNAUTHORIZED {
        "invalid API key"@
    } else if code == NOT_FOUND {
        "resource not found"@
    } else if code == INTERNAL_SERVER_ERROR {
        "upstream server error"@
    } else {
        status_display(code)
    }
}

/// Maps a status code to the message that a caller sees.
pub fn status_message(code: u16) -> (r: String)
    requires
        valid_status(code),
    ensures
        r@ == status_message_spec(code),
{
    if code == TOO_MANY_REQUESTS {
        String::from_str("too many requests, please wait before retrying")
    } else if code == UNAUTHORIZED {
        String::from_str("invalid API key")
    } else if code == NOT_FOUND {
        String::from_str("resource not found")
    } else if code == INTERNAL_SERVER_ERROR {
        String::from_str("upstream server error")
    } else {
        status_text(code)
    }
}

/// The message for a request that got no response.
pub open spec fn failure_message_spec(err: Seq<char>) -> Seq<char> {
    "request failed: "@ + err
}

pub open spec fn hint_view(h: Option<String>) -> Option<Seq<char>> {
    match h {
        Some(s) => Some(s@),
        None => None,
    }
}

/// The decision on a reply: decode a body; wait and retry once on a 429 when
/// retrying is allowed and this was the first attempt; otherwise fail with the
/// status's message, or with the transport's error.
pub open spec fn plan(attempt: Attempt, allow_retry: bool, reply: Reply) -> Plan {
    match reply {
        Reply::Body(_) => Plan::Decode,
        Reply::Status { code, rate_hint } => if code == TOO_MANY_REQUESTS && allow_retry
            && attempt == Attempt::First {
            Plan::Wait(retry_delay_spec(hint_view(rate_hint)))
        } else {
            Plan::Fail(status_message_spec(code))
        },
        Reply::Failed(e) => Plan::Fail(failure_message_spec(e@)),
    }
}

/// A call retries at most once: on the first attempt only a 429 with retrying
/// allowed leads to a wait, and on the retried attempt no reply does.
pub proof fn lemma_retry_at_most_once(allow_retry: bool, first: Reply, second: Reply)
    ensures
        plan(Attempt::First, allow_retry, first) is Wait <==> (allow_retry && first is Status
            && first->code == TOO_MANY_REQUESTS),
        !(plan(Attempt::Retried, allow_retry, second) is Wait),
{
}

/// A 429 on the first attempt with retrying allowed waits for the hinted
/// delay, or for the default delay where the response carried no hint.
pub proof fn lemma_rate_limited_waits(hint: Option<String>)
    ensures
        plan(Attempt::First, true, Reply::Status { code: TOO_MANY_REQUESTS, rate_hint: hint })
            == Plan::Wait(retry_delay_spec(hint_view(hint))),
        hint is None ==> plan(
            Attempt::First,
            true,
            Reply::Status { code: TOO_MANY_REQUESTS, rate_hint: hint },
        ) == Plan::Wait(DEFAULT_RATE_MILLIS),
{
}

/// A status of the table that is not retried fails with exactly the table's
/// message, whatever the resource.
pub proof fn lemma_table_statuses(attempt: Attempt, allow_retry: bool, code: u16, hint: Option<String>)
    requires
        code == UNAUTHORIZED || code == NOT_FOUND || code == INTERNAL_SERVER_ERROR || (code
            == TOO_MANY_REQUESTS && !(allow_retry && attempt == Attempt::First)),
    ensures
        plan(attempt, allow_retry, Reply::Status { code, rate_hint: hint }) == Plan::Fail(
            status_message_spec(code),
        ),
        code == TOO_MANY_REQUESTS ==> status_message_spec(code)
            == "too many requests, please wait before retrying"@,
        code == UNAUTHORIZED ==> status_message_spec(code) == "invalid API key"@,
        code == NOT_FOUND ==> status_message_spec(code) == "resource not found"@,
        code == INTERNAL_SERVER_ERROR ==> status_message_spec(code) == "upstream server error"@,
{
}

/// Decides what to do with a reply.
pub fn next_action(attempt: Attempt, allow_retry: bool, reply: &Reply) -> (r: Action)
    requires
        reply_wf(*reply),
    ensures
        r@ == plan(attempt, allow_retry, *reply),
{
    match reply {
        Reply::Body(_) => Action::Decode,
        Reply::Status { code, rate_hint } => {
            if *code == TOO_MANY_REQUESTS && allow_retry && attempt == Attempt::First {
                let hint = match rate_hint {
                    Some(h) => Some(h.as_str()),
                    None => None,
                };
                Action::Wait(retry_delay(hint))
            } else {
                Action::Fail(status_message(*code))
            }
        },
        Reply::Failed(e) => {
            let mut m = String::from_str("request failed: ");
            m.append(e.as_str());
            Action::Fail(m)
        },
    }
}

/// What a request comes to after one reply.
pub enum Step<T> {
    /// The call is over, with this result.
    Done(Result<T, String>),
    /// Sleep this many milliseconds, then send the request once more.
    Wait(u64),
}

/// The outcome of decoding a 2xx body as the player's profile and statistics: the record where the
/// body is JSON that decodes, else the raw body as the error.
pub open spec fn user_result(body: Seq<char>, r: Result<ApexUser, String>) -> bool {
    if parsed_json(body) is Some && user_ok(parsed_json(body).unwrap()) {
        r is Ok && decodes_user(parsed_json(body).unwrap(), r->Ok_0)
    } else {
        r is Err && r->Err_0@ == body
    }
}

/// Decodes a 2xx body as the player's profile and statistics.
pub fn user_from_body(body: &str) -> (r: Result<ApexUser, String>)
    ensures
        user_result(body@, r),
{
    match parse_json(body) {
        Some(v) => match decode_user(&v) {
            Some(x) => Ok(x),
            None => Err(String::from_str(body)),
        },
        None => Err(String::from_str(body)),
    }
}

/// The outcome of a reply to a request for `ApexUser`, as `plan` decides it.
pub open spec fn user_outcome(attempt: Attempt, allow_retry: bool, reply: Reply, r: Step<ApexUser>) -> bool {
    match plan(attempt, allow_retry, reply) {
        Plan::Decode => r is Done && user_result(reply->Body_0@, r->Done_0),
        Plan::Wait(ms) => r is Wait && r->Wait_0 == ms,
        Plan::Fail(m) => r is Done && r->Done_0 is Err && r->Done_0->Err_0@ == m,
    }
}

/// Handling the same reply twice on the same attempt gives the same outcome:
/// records that hold the same values, equal messages, or equal waits.
pub proof fn lemma_user_step_repeatable(
    attempt: Attempt,
    allow_retry: bool,
    reply: Reply,
    r1: Step<ApexUser>,
    r2: Step<ApexUser>,
)
    requires
        user_outcome(attempt, allow_retry, reply, r1),
        user_outcome(attempt, allow_retry, reply, r2),
    ensures
        match (r1, r2) {
            (Step::Done(Ok(a)), Step::Done(Ok(b))) => same_user(a, b),
            (Step::Done(Err(x)), Step::Done(Err(y))) => x@ == y@,
            (Step::Wait(m), Step::Wait(n)) => m == n,
            _ => false,
        },
{
    if plan(attempt, allow_retry, reply) is Decode {
        let body = reply->Body_0@;
        if parsed_json(body) is Some && user_ok(parsed_json(body).unwrap()) {
            lemma_decodes_user_unique(
                parsed_json(body).unwrap(),
                r1->Done_0->Ok_0,
                r2->Done_0->Ok_0,
            );
        }
    }
}

/// Handles one reply to a request for the player's profile and statistics: the result, or the delay after
/// which to send the request once more.
pub fn user_step(attempt: Attempt, allow_retry: bool, reply: &Reply) -> (r: Step<ApexUser>)
    requires
        reply_wf(*reply),
    ensures
        user_outcome(attempt, allow_retry, *reply, r),
{
    match next_action(attempt, allow_retry, reply) {
        Action::Decode => match reply {
            Reply::Body(b) => Step::Done(user_from_body(b.as_str())),
            // only a body is ever decoded
            _ => Step::Wait(0),
        },
        Action::Wait(ms) => Step::Wait(ms),
        Action::Fail(m) => Step::Done(Err(m)),
    }
}

/// The outcome of decoding a 2xx body as the player's recent matches: the record where the
/// body is JSON that decodes, else the raw body as the error.
pub open spec fn recent_games_result(body: Seq<char>, r: Result<Vec<ApexGame>, String>) -> bool {
    if parsed_json(body) is Some && game_list_ok(parsed_json(body).unwrap()) {
        r is Ok && decodes_game_list(parsed_json(body).unwrap(), r->Ok_0@)
    } else {
        r is Err && r->Err_0@ == body
    }
}

/// Decodes a 2xx body as the player's recent matches.
pub fn recent_games_from_body(body: &str) -> (r: Result<Vec<ApexGame>, String>)
    ensures
        recent_games_result(body@, r),
{
    match parse_json(body) {
        Some(v) => match decode_game_list(&v) {
            Some(x) => Ok(x),
            None => Err(String::from_str(body)),
        },
        None => Err(String::from_str(body)),
    }
}

/// The outcome of a reply to a request for `Vec<ApexGame>`, as `plan` decides it.
pub open spec fn recent_games_outcome(attempt: Attempt, allow_retry: bool, reply: Reply, r: Step<Vec<ApexGame>>) -> bool {
    match plan(attempt, allow_retry, reply) {
        Plan::Decode => r is Done && recent_games_result(reply->Body_0@, r->Done_0),
        Plan::Wait(ms) => r is Wait && r->Wait_0 == ms,
        Plan::Fail(m) => r is Done && r->Done_0 is Err && r->Done_0->Err_0@ == m,
    }
}

/// Handling the same reply twice on the same attempt gives the same outcome:
/// records that hold the same values, equal messages, or equal waits.
pub proof fn lemma_recent_games_step_repeatable(
    attempt: Attempt,
    allow_retry: bool,
    reply: Reply,
    r1: Step<Vec<ApexGame>>,
    r2: Step<Vec<ApexGame>>,
)
    requires
        recent_games_outcome(attempt, allow_retry, reply, r1),
        recent_games_outcome(attempt, allow_retry, reply, r2),
    ensures
        match (r1, r2) {
            (Step::Done(Ok(a)), Step::Done(Ok(b))) => same_game_list(a@, b@),
            (Step::Done(Err(x)), Step::Done(Err(y))) => x@ == y@,
            (Step::Wait(m), Step::Wait(n)) => m == n,
            _ => false,
        },
{
    if plan(attempt, allow_retry, reply) is Decode {
        let body = reply->Body_0@;
        if parsed_json(body) is Some && game_list_ok(parsed_json(body).unwrap()) {
            lemma_decodes_game_list_unique(
                parsed_json(body).unwrap(),
                r1->Done_0->Ok_0@,
                r2->Done_0->Ok_0@,
            );
        }
    }
}

/// Handles one reply to a request for the player's recent matches: the result, or the delay after
/// which to send the request once more.
pub fn recent_games_step(attempt: Attempt, allow_retry: bool, reply: &Reply) -> (r: Step<Vec<ApexGame>>)
    requires
        reply_wf(*reply),
    ensures
        recent_games_outcome(attempt, allow_retry, *reply, r),
{
    match next_action(attempt, allow_retry, reply) {
        Action::Decode => match reply {
            Reply::Body(b) => Step::Done(recent_games_from_body(b.as_str())),
            // only a body is ever decoded
            _ => Step::Wait(0),
        },
        Action::Wait(ms) => Step::Wait(ms),
        Action::Fail(m) => Step::Done(Err(m)),
    }
}

/// The outcome of decoding a 2xx body as the profile that a player name resolves to: the record where the
/// body is JSON that decodes, else the raw body as the error.
pub open spec fn uid_result(body: Seq<char>, r: Result<ApexProfile, String>) -> bool {
    if parsed_json(body) is Some && profile_ok(parsed_json(body).unwrap()) {
        r is Ok && decodes_profile(parsed_json(body).unwrap(), r->Ok_0)
    } else {
        r is Err && r->Err_0@ == body
    }
}

/// Decodes a 2xx body as the profile that a player name resolves to.
pub fn uid_from_body(body: &str) -> (r: Result<ApexProfile, String>)
    ensures
        uid_result(body@, r),
{
    match parse_json(body) {
        Some(v) => match decode_profile(&v) {
            Some(x) => Ok(x),
            None => Err(String::from_str(body)),
        },
        None => Err(String::from_str(body)),
    }
}

/// The outcome of a reply to a request for `ApexProfile`, as `plan` decides it.
pub open spec fn uid_outcome(attempt: Attempt, allow_retry: bool, reply: Reply, r: Step<ApexProfile>) -> bool {
    match plan(attempt, allow_retry, reply) {
        Plan::Decode => r is Done && uid_result(reply->Body_0@, r->Done_0),
        Plan::Wait(ms) => r is Wait && r->Wait_0 == ms,
        Plan::Fail(m) => r is Done && r->Done_0 is Err && r->Done_0->Err_0@ == m,
    }
}

/// Handling the same reply twice on the same attempt gives the same outcome:
/// records that hold the same values, equal messages, or equal waits.
pub proof fn lemma_uid_step_repeatable(
    attempt: Attempt,
    allow_retry: bool,
    reply: Reply,
    r1: Step<ApexProfile>,
    r2: Step<ApexProfile>,
)
    requires
        uid_outcome(attempt, allow_retry, reply, r1),
        uid_outcome(attempt, allow_retry, reply, r2),
    ensures
        match (r1, r2) {
            (Step::Done(Ok(a)), Step::Done(Ok(b))) => same_profile(a, b),
            (Step::Done(Err(x)), Step::Done(Err(y))) => x@ == y@,
            (Step::Wait(m), Step::Wait(n)) => m == n,
            _ => false,
        },
{
    if plan(attempt, allow_retry, reply) is Decode {
        let body = reply->Body_0@;
        if parsed_json(body) is Some && profile_ok(parsed_json(body).unwrap()) {
            lemma_decodes_profile_unique(
                parsed_json(body).unwrap(),
                r1->Done_0->Ok_0,
                r2->Done_0->Ok_0,
            );
        }
    }
}

/// Handles one reply to a request for the profile that a player name resolves to: the result, or the delay after
/// which to send the request once more.
pub fn uid_step(attempt: Attempt, allow_retry: bool, reply: &Reply) -> (r: Step<ApexProfile>)
    requires
        reply_wf(*reply),
    ensures
        uid_outcome(attempt, allow_retry, *reply, r),
{
    match next_action(attempt, allow_retry, reply) {
        Action::Decode => match reply {
            Reply::Body(b) => Step::Done(uid_from_body(b.as_str())),
            // only a body is ever decoded
            _ => Step::Wait(0),
        },
        Action::Wait(ms) => Step::Wait(ms),
        Action::Fail(m) => Step::Done(Err(m)),
    }
}

/// The outcome of decoding a 2xx body as the current map rotation: the record where the
/// body is JSON that decodes, else the raw body as the error.
pub open spec fn map_rotation_result(body: Seq<char>, r: Result<ApexMapRotation, String>) -> bool {
    if parsed_json(body) is Some && map_rotation_ok(parsed_json(body).unwrap()) {
        r is Ok && decodes_map_rotation(parsed_json(body).unwrap(), r->Ok_0)
    } else {
        r is Err && r->Err_0@ == body
    }
}

/// Decodes a 2xx body as the current map rotation.
pub fn map_rotation_from_body(body: &str) -> (r: Result<ApexMapRotation, String>)
    ensures
        map_rotation_result(body@, r),
{
    match parse_json(body) {
        Some(v) => match decode_map_rotation(&v) {
            Some(x) => Ok(x),
            None => Err(String::from_str(body)),
        },
        None => Err(String::from_str(body)),
    }
}

/// The outcome of a reply to a request for `ApexMapRotation`, as `plan` decides it.
pub open spec fn map_rotation_outcome(attempt: Attempt, allow_retry: bool, reply: Reply, r: Step<ApexMapRotation>) -> bool {
    match plan(attempt, allow_retry, reply) {
        Plan::Decode => r is Done && map_rotation_result(reply->Body_0@, r->Done_0),
        Plan::Wait(ms) => r is Wait && r->Wait_0 == ms,
        Plan::Fail(m) => r is Done && r->Done_0 is Err && r->Done_0->Err_0@ == m,
    }
}

/// Handling the same reply twice on the same attempt gives the same outcome:
/// records that hold the same values, equal messages, or equal waits.
pub proof fn lemma_map_rotation_step_repeatable(
    attempt: Attempt,
    allow_retry: bool,
    reply: Reply,
    r1: Step<ApexMapRotation>,
    r2: Step<ApexMapRotation>,
)
    requires
        map_rotation_outcome(attempt, allow_retry, reply, r1),
        map_rotation_outcome(attempt, allow_retry, reply, r2),
    ensures
        match (r1, r2) {
            (Step::Done(Ok(a)), Step::Done(Ok(b))) => same_map_rotation(a, b),
            (Step::Done(Err(x)), Step::Done(Err(y))) => x@ == y@,
            (Step::Wait(m), Step::Wait(n)) => m == n,
            _ => false,
        },
{
    if plan(attempt, allow_retry, reply) is Decode {
        let body = reply->Body_0@;
        if parsed_json(body) is Some && map_rotation_ok(parsed_json(body).unwrap()) {
            lemma_decodes_map_rotation_unique(
                parsed_json(body).unwrap(),
                r1->Done_0->Ok_0,
                r2->Done_0->Ok_0,
            );
        }
    }
}

/// Handles one reply to a request for the current map rotation: the result, or the delay after
/// which to send the request once more.
pub fn map_rotation_step(attempt: Attempt, allow_retry: bool, reply: &Reply) -> (r: Step<ApexMapRotation>)
    requires
        reply_wf(*reply),
    ensures
        map_rotation_outcome(attempt, allow_retry, *reply, r),
{
    match next_action(attempt, allow_retry, reply) {
        Action::Decode => match reply {
            Reply::Body(b) => Step::Done(map_rotation_from_body(b.as_str())),
            // only a body is ever decoded
            _ => Step::Wait(0),
        },
        Action::Wait(ms) => Step::Wait(ms),
        Action::Fail(m) => Step::Done(Err(m)),
    }
}
/// A 2xx body that is not JSON is an error for every resource, never a record.
pub proof fn lemma_malformed_body_is_error(
    body: Seq<char>,
    user: Result<ApexUser, String>,
    games: Result<Vec<ApexGame>, String>,
    profile: Result<ApexProfile, String>,
    rotation: Result<ApexMapRotation, String>,
)
    requires
        parsed_json(body) is None,
    ensures
        user_result(body, user) ==> user is Err && user->Err_0@ == body,
        recent_games_result(body, games) ==> games is Err && games->Err_0@ == body,
        uid_result(body, profile) ==> profile is Err && profile->Err_0@ == body,
        map_rotation_result(body, rotation) ==> rotation is Err && rotation->Err_0@ == body,
{
}

} // verus!
