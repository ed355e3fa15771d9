//! The decisions of the websocket sessions: which broadcasts reach a
//! client, and which client messages are relayed.
use vstd::prelude::*;
use crate::application::dto::apperror::AppError;
use crate::application::dto::token_dto::Claims;
use crate::application::events::{Event, event_server};
use crate::application::utils::avatar::{uuid_string, uuid_text};
use crate::domain::models::user::UserStatus;
use crate::text::{join, same_text};

verus! {

/// The value of a run of ASCII digits.
pub open spec fn digits_value(s: Seq<char>) -> int
    decreases s.len(),
{
    if s.len() == 0 {
        0
    } else {
        digits_value(s.drop_last()) * 10 + (s.last() as int - '0' as int)
    }
}

/// A non-empty run of ASCII digits.
pub open spec fn all_digits(s: Seq<char>) -> bool {
    s.len() > 0 && forall|i: int| 0 <= i < s.len() ==> '0' <= #[trigger] s[i] <= '9'
}

/// What `str::parse::<i32>` gives: an optional `+` or `-` sign, then
/// digits only, of a value that fits in an `i32`.
pub open spec fn parsed_i32(s: Seq<char>) -> Option<i32> {
    let neg = s.len() > 0 && s[0] == '-';
    let body = if s.len() > 0 && (s[0] == '-' || s[0] == '+') {
        s.drop_first()
    } else {
        s
    };
    if all_digits(body) {
        let v = if neg {
            -digits_value(body)
        } else {
            digits_value(body)
        };
        if i32::MIN <= v <= i32::MAX {
            Some(v as i32)
        } else {
            None
        }
    } else {
        None
    }
}

/// `str::parse::<i32>`, keeping the value and dropping the error.
#[verifier::external_body]
fn std_parse_i32(s: &str) -> (r: Option<i32>)
    ensures
        r == parsed_i32(s@),
{
    s.parse::<i32>().ok()
}

/// The `data.server_id` field of a broadcast, as the JSON reads: an integer
/// that fits in an `i64`, a string, or anything else (missing among them).
#[derive(Debug)]
pub enum ServerField {
    Int(i64),
    Text(String),
    Other,
}

/// The server a broadcast is routed by: an integer is cut to 32 bits, a
/// string must parse as an `i32`.
pub open spec fn routed_server(f: ServerField) -> Option<i32> {
    match f {
        ServerField::Int(n) => Some(n as i32),
        ServerField::Text(s) => parsed_i32(s@),
        ServerField::Other => None,
    }
}

/// Whether a broadcast reaches a client whose user belongs to `servers`:
/// only when it names one of them.
pub open spec fn delivered(f: ServerField, servers: Seq<i32>) -> bool {
    match routed_server(f) {
        Some(s) => servers.contains(s),
        None => false,
    }
}

/// Whether a broadcast reaches a client whose user belongs to `servers`.
pub fn deliver(f: &ServerField, servers: &Vec<i32>) -> (r: bool)
    ensures
        r == delivered(*f, servers@),
{
    let target = match f {
        ServerField::Int(n) => Some(*n as i32),
        ServerField::Text(s) => std_parse_i32(s.as_str()),
        ServerField::Other => None,
    };
    match target {
        Some(s) => holds(servers, s),
        None => false,
    }
}

/// Whether the list holds the value.
fn holds(servers: &Vec<i32>, s: i32) -> (r: bool)
    ensures
        r == servers@.contains(s),
{
    let n = servers.len();
    for i in 0..n
        invariant
            n == servers@.len(),
            forall|k: int| 0 <= k < i ==> servers@[k] != s,
    {
        if servers[i] == s {
            assert(servers@[i as int] == s);
            return true;
        }
    }
    false
}

/// The message type that opens a session.
pub fn is_auth_request(kind: &str) -> (r: bool)
    ensures
        r == (kind@ == "auth"@),
{
    same_text(kind, "auth")
}

/// The client message types that are relayed to the others: typing notices.
pub fn is_typing_notice(kind: &str) -> (r: bool)
    ensures
        r == (kind@ == "typing_start"@ || kind@ == "typing_stop"@),
{
    same_text(kind, "typing_start") || same_text(kind, "typing_stop")
}

/// The notice relayed for a client message of kind `kind`: typing notices
/// only, in the name of the session's user whatever the client claims, with
/// the client's server and channel fields (JSON text) as they came.
pub fn typing_notice(kind: &str, user_id: u128, username: &String, server_id: String, channel_id: String) -> (r:
    Option<Event>)
    ensures
        match r {
            Some(e) => {
                &&& (kind@ == "typing_start"@ || kind@ == "typing_stop"@)
                &&& e matches Event::Typing { kind: k, server_id: s, channel_id: c, user_id: u, username: n }
                &&& k@ == kind@
                &&& s == server_id
                &&& c == channel_id
                &&& u == user_id
                &&& n == *username
            },
            None => !(kind@ == "typing_start"@ || kind@ == "typing_stop"@),
        },
{
    if is_typing_notice(kind) {
        Some(Event::Typing { kind: kind.to_owned(), server_id, channel_id, user_id, username: username.clone() })
    } else {
        None
    }
}

// ---------------------------------------------------------------- frames

/// The `data.server_id` field of a broadcast's JSON text, as
/// `serde_json::from_str` reads it: an integer that fits in an `i64`, a
/// string, or anything else (the text not JSON, the field missing, another
/// kind of value).
pub uninterp spec fn routed_field(text: Seq<char>) -> ServerField;

/// `serde_json::from_str` of a broadcast's text, then its `data.server_id`
/// field, told apart by kind.
#[verifier::external_body]
fn broadcast_field(text: &str) -> (r: ServerField)
    ensures
        r == routed_field(text@),
{
    let v: serde_json::Value = match serde_json::from_str(text) {
        Ok(v) => v,
        Err(_) => return ServerField::Other,
    };
    match &v["data"]["server_id"] {
        serde_json::Value::Number(n) => match n.as_i64() {
            Some(i) => ServerField::Int(i),
            None => ServerField::Other,
        },
        serde_json::Value::String(t) => ServerField::Text(t.clone()),
        _ => ServerField::Other,
    }
}

/// Whether a broadcast, as text, reaches a client whose user belongs to
/// `servers`: only when it names one of them.
pub fn route_broadcast(text: &str, servers: &Vec<i32>) -> (r: bool)
    ensures
        r == delivered(routed_field(text@), servers@),
{
    let f = broadcast_field(text);
    deliver(&f, servers)
}

/// The `type` and `token` strings of a client's first frames, as
/// `serde_json::from_str` reads a JSON object holding both; `None` when the
/// text is not such an object.
pub uninterp spec fn auth_frame(text: Seq<char>) -> Option<(Seq<char>, Seq<char>)>;

/// `serde_json::from_str` of a frame's text, then its `type` and `token`
/// strings.
#[verifier::external_body]
fn read_auth_frame(text: &str) -> (r: Option<(String, String)>)
    ensures
        match r {
            Some(f) => auth_frame(text@) == Some((f.0@, f.1@)),
            None => auth_frame(text@) is None,
        },
{
    let v: serde_json::Value = serde_json::from_str(text).ok()?;
    match (&v["type"], &v["token"]) {
        (serde_json::Value::String(t), serde_json::Value::String(k)) => Some((t.clone(), k.clone())),
        _ => None,
    }
}

/// What a session still waiting for authentication does with a frame.
#[derive(Debug)]
pub enum AuthStep {
    /// Not an authentication request: wait for the next frame.
    Skip,
    /// An authentication request: check this token.
    Check(String),
}

/// The step for a frame of a session still waiting for authentication: a
/// frame of type "auth" hands over its token, any other frame is skipped.
pub fn auth_step(text: &str) -> (r: AuthStep)
    ensures
        match auth_frame(text@) {
            Some(f) => if f.0 == "auth"@ {
                match r {
                    AuthStep::Check(t) => t@ == f.1,
                    AuthStep::Skip => false,
                }
            } else {
                r is Skip
            },
            None => r is Skip,
        },
{
    match read_auth_frame(text) {
        Some((kind, token)) => {
            if is_auth_request(kind.as_str()) {
                AuthStep::Check(token)
            } else {
                AuthStep::Skip
            }
        },
        None => AuthStep::Skip,
    }
}

/// The frame that accepts a session: `{"data":{"user_id":"<uuid>"},"type":"auth_success"}`.
pub open spec fn success_reply(user_id: u128) -> Seq<char> {
    "{\"data\":{\"user_id\":\""@ + uuid_text(user_id) + "\"},\"type\":\"auth_success\"}"@
}

/// The frame that refuses a session.
pub open spec fn refusal_reply() -> Seq<char> {
    "{\"error\":\"Invalid token\"}"@
}

/// The end of the handshake.
#[derive(Debug)]
pub enum Handshake {
    /// The session belongs to this user; send the reply and go on.
    Accept { user_id: u128, username: String, reply: String },
    /// The token was refused; send the reply and close.
    Refuse { reply: String },
}

/// The end of the handshake given the check of the token: a token that
/// checks out opens the session in the name of its user, any refusal closes
/// it.
pub fn handshake(verdict: Result<Claims, AppError>) -> (r: Handshake)
    ensures
        match verdict {
            Ok(c) => match r {
                Handshake::Accept { user_id, username, reply } => user_id == c.sub && username == c.username
                    && reply@ == success_reply(c.sub),
                Handshake::Refuse { .. } => false,
            },
            Err(_) => match r {
                Handshake::Refuse { reply } => reply@ == refusal_reply(),
                Handshake::Accept { .. } => false,
            },
        },
{
    match verdict {
        Ok(c) => {
            let id = uuid_string(c.sub);
            let head = join("{\"data\":{\"user_id\":\"", id.as_str());
            let reply = join(head.as_str(), "\"},\"type\":\"auth_success\"}");
            Handshake::Accept { user_id: c.sub, username: c.username, reply }
        },
        Err(_) => Handshake::Refuse { reply: "{\"error\":\"Invalid token\"}".to_owned() },
    }
}

/// A client frame of an open session as `serde_json::from_str` reads it: its
/// `type` string (empty when there is none) and the JSON text of its
/// `server_id` and `channel_id` values (`null` when missing); `None` when the
/// text is not JSON.
pub uninterp spec fn client_frame(text: Seq<char>) -> Option<(Seq<char>, Seq<char>, Seq<char>)>;

/// `serde_json::from_str` of a frame's text, then its `type`, `server_id` and
/// `channel_id` fields.
#[verifier::external_body]
fn read_client_frame(text: &str) -> (r: Option<(String, String, String)>)
    ensures
        match r {
            Some(f) => client_frame(text@) == Some((f.0@, f.1@, f.2@)),
            None => client_frame(text@) is None,
        },
{
    let v: serde_json::Value = serde_json::from_str(text).ok()?;
    Some((v["type"].as_str().unwrap_or("").to_owned(), v["server_id"].to_string(), v["channel_id"].to_string()))
}

/// The notice relayed for a client frame of an open session: typing notices
/// only, in the name of the session's user, with the frame's server and
/// channel values as they came.
pub fn relay_frame(text: &str, user_id: u128, username: &String) -> (r: Option<Event>)
    ensures
        match client_frame(text@) {
            Some(f) => if f.0 == "typing_start"@ || f.0 == "typing_stop"@ {
                match r {
                    Some(Event::Typing { kind, server_id, channel_id, user_id: u, username: n }) => {
                        &&& kind@ == f.0
                        &&& server_id@ == f.1
                        &&& channel_id@ == f.2
                        &&& u == user_id
                        &&& n == *username
                    },
                    _ => false,
                }
            } else {
                r is None
            },
            None => r is None,
        },
{
    match read_client_frame(text) {
        Some((kind, server_id, channel_id)) => typing_notice(kind.as_str(), user_id, username, server_id, channel_id),
        None => None,
    }
}

/// The presence a websocket session stores and broadcasts: online when it
/// opens, offline when it closes.
pub fn session_presence(open: bool) -> (r: (UserStatus, &'static str))
    ensures
        r.0 == (if open { UserStatus::Online } else { UserStatus::Offline }),
        r.1@ == (if open { "online"@ } else { "offline"@ }),
{
    if open {
        (UserStatus::Online, "online")
    } else {
        (UserStatus::Offline, "offline")
    }
}

} // verus!
