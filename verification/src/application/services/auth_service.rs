//! The rules of the account endpoints: sign-up, log-in and sessions,
//! log-out, the "me" summary, presence and avatars.
use vstd::prelude::*;
use crate::application::dto::apperror::{AppError, Fault};
use crate::application::dto::auth_dto::{BanInfo, LoginResponse, LogoutResponse, MeResponse, SignupRequest, SignupResponse};
use crate::application::dto::server_dto::ServerItem;
use crate::application::events::Event;
use crate::application::services::access::{found, outcome};
use crate::application::utils::clock::{now_micros, time_in_range};
use crate::application::utils::ids::fresh_id;
use crate::application::utils::passwords::{argon2_verdict, hash_password, check_password, max_password_len, password_check};
use crate::domain::models::{refresh_token, server_ban, server_member, server_model, user};
use crate::domain::models::user::UserStatus;
use crate::text::{byte_len, utf8_len, copy_opt};

verus! {

// ---------------------------------------------------------------- sign-up

/// Passwords have at least 8 bytes.
pub open spec fn password_verdict(password: Seq<char>) -> Result<(), Fault> {
    if byte_len(password) < 8 {
        Err(Fault::BadRequest("Password too short"@))
    } else {
        Ok(())
    }
}

/// Checks the length of a new password.
pub fn check_new_password(password: &str) -> (r: Result<(), AppError>)
    ensures
        outcome(r) == password_verdict(password@),
{
    if utf8_len(password) < 8 {
        Err(AppError::BadRequest("Password too short".to_owned()))
    } else {
        Ok(())
    }
}

/// A user name is taken once.
pub fn check_username_free(taken: bool) -> (r: Result<(), AppError>)
    ensures
        outcome(r) == (if taken {
            Err(Fault::BadRequest("Username already in use"@))
        } else {
            Ok::<(), Fault>(())
        }),
{
    if taken {
        Err(AppError::BadRequest("Username already in use".to_owned()))
    } else {
        Ok(())
    }
}

/// The user that a sign-up inserts: a fresh id, the name, the password
/// hashed under a fresh salt (the hash verifies the password), offline,
/// with no display name and no avatar.
pub fn new_user(req: &SignupRequest) -> (r: Result<user::Model, AppError>)
    ensures
        match r {
            Ok(u) => {
                &&& u.id != 0
                &&& u.username == req.username
                &&& argon2_verdict(u.password_hash@, req.password@) == Ok::<bool, Seq<char>>(true)
                &&& u.status == UserStatus::Offline
                &&& u.display_name == None::<String>
                &&& u.avatar_url == None::<String>
            },
            Err(e) => e@ is InternalServerError,
        },
        byte_len(req.password@) <= max_password_len() ==> r is Ok,
{
    let hash = hash_password(req.password.as_str())?;
    Ok(user::Model {
        id: fresh_id(),
        username: req.username.clone(),
        password_hash: hash,
        display_name: None,
        avatar_url: None,
        status: UserStatus::Offline,
    })
}

/// The answer to a sign-up: the new user's id and name.
pub fn signed_up(u: &user::Model) -> (r: SignupResponse)
    ensures
        r.id == u.id,
        r.username == u.username,
{
    SignupResponse { id: u.id, username: u.username.clone() }
}

// ---------------------------------------------------------------- log-in

/// The answer to a log-in: an unknown name is "not found", then the password
/// must match the stored hash.
pub open spec fn login_verdict(u: Option<user::Model>, password: Seq<char>) -> Result<user::Model, Fault> {
    match u {
        None => Err(Fault::NotFound("User not found"@)),
        Some(u) => match password_check(u.password_hash@, password) {
            Ok(()) => Ok(u),
            Err(f) => Err(f),
        },
    }
}

/// Checks a log-in against the user found under the name.
pub fn check_login(u: Option<user::Model>, password: &str) -> (r: Result<user::Model, AppError>)
    ensures
        outcome(r) == login_verdict(u, password@),
{
    let u = found(u, AppError::NotFound("User not found".to_owned()))?;
    check_password(u.password_hash.as_str(), password)?;
    Ok(u)
}

/// The presence notices for a user, one per membership, in order.
pub fn status_events(user_id: u128, memberships: &Vec<server_member::Model>, status: &str) -> (r: Vec<Event>)
    ensures
        r@.len() == memberships@.len(),
        forall|k: int|
            0 <= k < r@.len() ==> match #[trigger] r@[k] {
                Event::UserStatusChange { server_id, user_id: u, status: st } => {
                    &&& server_id == memberships@[k].server_id
                    &&& u == user_id
                    &&& st@ == status@
                },
                _ => false,
            },
{
    let mut r: Vec<Event> = Vec::new();
    let n = memberships.len();
    for i in 0..n
        invariant
            n == memberships@.len(),
            r@.len() == i,
            forall|k: int|
                0 <= k < i ==> match #[trigger] r@[k] {
                    Event::UserStatusChange { server_id, user_id: u, status: st } => {
                        &&& server_id == memberships@[k].server_id
                        &&& u == user_id
                        &&& st@ == status@
                    },
                    _ => false,
                },
    {
        r.push(
            Event::UserStatusChange {
                server_id: memberships[i].server_id,
                user_id,
                status: status.to_owned(),
            },
        );
    }
    r
}

/// What a log-in does with the user's stored session.
#[derive(Debug)]
pub enum SessionPlan {
    /// The stored session is still valid: answer its token.
    Reuse(String),
    /// The stored session (this id) has expired: delete it, then open a new one.
    Replace(u128),
    /// No session is stored: open one.
    Open,
}

/// The plan for a log-in at time `now` given the user's stored session: a
/// session that expires after `now` is reused, an expired one replaced.
pub open spec fn session_plan(existing: Option<refresh_token::Model>, now: i64) -> SessionPlan {
    match existing {
        None => SessionPlan::Open,
        Some(t) => if t.expires_at > now {
            SessionPlan::Reuse(t.token)
        } else {
            SessionPlan::Replace(t.id)
        },
    }
}

/// The plan for a log-in at time `now` given the user's stored session.
pub fn plan_session_at(existing: Option<refresh_token::Model>, now: i64) -> (r: SessionPlan)
    ensures
        r == session_plan(existing, now),
{
    match existing {
        None => SessionPlan::Open,
        Some(t) => {
            if t.expires_at > now {
                SessionPlan::Reuse(t.token)
            } else {
                SessionPlan::Replace(t.id)
            }
        },
    }
}

/// The plan for a log-in now (read from the system clock): that of
/// [`plan_session_at`] at some instant that chrono can hold.
pub fn plan_session(existing: Option<refresh_token::Model>) -> (r: SessionPlan)
    ensures
        exists|now: i64| #![trigger session_plan(existing, now)] time_in_range(now as int) && r == session_plan(existing, now),
{
    let now = now_micros();
    let ghost plan = session_plan(existing, now);
    plan_session_at(existing, now)
}

/// How long a session lives, in microseconds (48 hours).
pub open spec fn session_lifetime() -> int {
    172_800_000_000
}

/// The session row that a log-in at time `now` stores for a token: it
/// expires 48 hours later.
pub fn new_session_at(user_id: u128, token: String, now: i64) -> (r: refresh_token::Model)
    requires
        time_in_range(now + session_lifetime()),
    ensures
        r.user_id == user_id,
        r.token == token,
        r.created_at == now,
        r.expires_at == now + session_lifetime(),
        r.id != 0,
{
    refresh_token::Model {
        id: fresh_id(),
        token,
        user_id,
        expires_at: now + 172_800_000_000,
        created_at: now,
    }
}

/// When a session opened at `now` expires.
pub open spec fn session_end(now: i64) -> int {
    now + session_lifetime()
}

/// The session row that a log-in stores now (read from the system clock)
/// for a token: that of [`new_session_at`] at that instant.  `None` when the
/// clock reads so late that the expiry lies beyond the dates chrono can hold
/// (adding 48 hours panics there).
pub fn new_session(user_id: u128, token: String) -> (r: Option<refresh_token::Model>)
    ensures
        exists|now: i64|
            #![trigger session_end(now)]
            time_in_range(now as int) && match r {
                Some(t) => {
                    &&& t.user_id == user_id
                    &&& t.token == token
                    &&& t.created_at == now
                    &&& t.expires_at == session_end(now)
                    &&& t.id != 0
                },
                None => !time_in_range(session_end(now)),
            },
{
    let now = now_micros();
    let ghost end = session_end(now);
    if now <= 8_210_266_876_799_999_999 - 172_800_000_000 {
        Some(new_session_at(user_id, token, now))
    } else {
        None
    }
}

/// The answer to a log-in.
pub fn logged_in(token: String, u: &user::Model) -> (r: LoginResponse)
    ensures
        r.access_token == token,
        r.id == u.id,
        r.username == u.username,
{
    LoginResponse { access_token: token, id: u.id, username: u.username.clone() }
}

/// The answer to a log-out.
pub fn logged_out() -> (r: LogoutResponse)
    ensures
        r.message@ == "Logged out successfully"@,
{
    LogoutResponse { message: "Logged out successfully".to_owned() }
}

// ---------------------------------------------------------------- refresh

/// The answer to a refresh at time `now`: the session must exist and must
/// not have expired before `now`; its user gets a new token.
pub open spec fn refresh_verdict(t: Option<refresh_token::Model>, now: i64) -> Result<u128, Fault> {
    match t {
        None => Err(Fault::Unauthorized("Invalid refresh token"@)),
        Some(t) => if t.expires_at < now {
            Err(Fault::Unauthorized("Refresh token expired"@))
        } else {
            Ok(t.user_id)
        },
    }
}

/// Checks a refresh at time `now`; answers the user to issue a token for.
pub fn check_refresh_at(t: Option<refresh_token::Model>, now: i64) -> (r: Result<u128, AppError>)
    ensures
        outcome(r) == refresh_verdict(t, now),
{
    match t {
        None => Err(AppError::Unauthorized("Invalid refresh token".to_owned())),
        Some(t) => {
            if t.expires_at < now {
                Err(AppError::Unauthorized("Refresh token expired".to_owned()))
            } else {
                Ok(t.user_id)
            }
        },
    }
}

/// Checks a refresh now (read from the system clock).
pub fn check_refresh(t: Option<refresh_token::Model>) -> (r: Result<u128, AppError>)
    ensures
        exists|now: i64| #![trigger refresh_verdict(t, now)] time_in_range(now as int) && outcome(r) == refresh_verdict(t, now),
{
    let now = now_micros();
    let ghost verdict = refresh_verdict(t, now);
    check_refresh_at(t, now)
}

// ---------------------------------------------------------------- me

/// Whether a ban still holds at time `now`.
pub open spec fn ban_active(b: server_ban::Model, now: i64) -> bool {
    match b.banned_until {
        None => true,
        Some(t) => t > now,
    }
}

/// The bans that still hold at `now` and whose server was found, in order.
pub open spec fn pending(rows: Seq<(server_ban::Model, Option<server_model::Model>)>, now: i64) -> Seq<
    (server_ban::Model, server_model::Model),
>
    decreases rows.len(),
{
    if rows.len() == 0 {
        Seq::empty()
    } else {
        let rest = pending(rows.drop_last(), now);
        let last = rows.last();
        match last.1 {
            Some(s) => if ban_active(last.0, now) {
                rest.push((last.0, s))
            } else {
                rest
            },
            None => rest,
        }
    }
}

/// The text of an instant, as chrono prints a `NaiveDateTime` in UTC
/// (for instance "2024-05-01 12:30:00.250").
pub uninterp spec fn instant_text(micros: i64) -> Seq<char>;

/// `chrono::DateTime::from_timestamp_micros(t)`, printed as a
/// `NaiveDateTime`; `None` exactly for the instants that chrono cannot hold.
#[verifier::external_body]
fn chrono_instant_text(micros: i64) -> (r: Option<String>)
    ensures
        match r {
            Some(x) => time_in_range(micros as int) && x@ == instant_text(micros),
            None => !time_in_range(micros as int),
        },
{
    chrono::DateTime::from_timestamp_micros(micros).map(|d| d.naive_utc().to_string())
}

/// The text of an instant, as chrono prints it.
pub fn format_instant(micros: i64) -> (r: String)
    requires
        time_in_range(micros as int),
    ensures
        r@ == instant_text(micros),
{
    match chrono_instant_text(micros) {
        Some(x) => x,
        None => String::new(),
    }
}

/// Whether `it` tells of ban `b` in server `s`.
pub open spec fn is_ban_info(it: BanInfo, b: server_ban::Model, s: server_model::Model) -> bool {
    &&& it.server_id == s.id
    &&& it.server_name == s.name
    &&& match b.banned_until {
        None => it.banned_until is None,
        Some(t) => it.banned_until matches Some(x) && x@ == instant_text(t),
    }
}

/// The bans of a user that still hold at `now`, with their servers.
pub fn pending_bans_at(rows: &Vec<(server_ban::Model, Option<server_model::Model>)>, now: i64) -> (r: Vec<BanInfo>)
    requires
        forall|k: int| 0 <= k < rows@.len() ==> match (#[trigger] rows@[k]).0.banned_until {
            Some(t) => time_in_range(t as int),
            None => true,
        },
    ensures
        r@.len() == pending(rows@, now).len(),
        forall|k: int|
            0 <= k < r@.len() ==> is_ban_info(#[trigger] r@[k], pending(rows@, now)[k].0, pending(rows@, now)[k].1),
{
    let mut r: Vec<BanInfo> = Vec::new();
    let n = rows.len();
    for i in 0..n
        invariant
            n == rows@.len(),
            forall|k: int| 0 <= k < rows@.len() ==> match (#[trigger] rows@[k]).0.banned_until {
                Some(t) => time_in_range(t as int),
                None => true,
            },
            r@.len() == pending(rows@.take(i as int), now).len(),
            forall|k: int|
                0 <= k < r@.len() ==> is_ban_info(
                    #[trigger] r@[k],
                    pending(rows@.take(i as int), now)[k].0,
                    pending(rows@.take(i as int), now)[k].1,
                ),
    {
        assert(rows@.take(i + 1).drop_last() =~= rows@.take(i as int));
        let row = &rows[i];
        let b = row.0;
        match &row.1 {
            Some(s) => {
                let active = match b.banned_until {
                    None => true,
                    Some(t) => t > now,
                };
                if active {
                    let until = match b.banned_until {
                        None => None,
                        Some(t) => Some(format_instant(t)),
                    };
                    r.push(BanInfo { server_id: s.id, server_name: s.name.clone(), banned_until: until });
                }
            },
            None => {},
        }
    }
    assert(rows@.take(n as int) =~= rows@);
    r
}

/// The "me" summary: the user, the servers (as described by
/// `describe_servers`) and the bans that still hold.
pub fn me_summary(u: user::Model, servers: Vec<ServerItem>, pending_bans: Vec<BanInfo>) -> (r: MeResponse)
    ensures
        r.id == u.id,
        r.username == u.username,
        r.display_name == u.display_name,
        r.avatar_url == u.avatar_url,
        r.servers == servers,
        r.pending_bans == pending_bans,
{
    MeResponse {
        id: u.id,
        username: u.username,
        display_name: u.display_name,
        avatar_url: u.avatar_url,
        servers,
        pending_bans,
    }
}

// ---------------------------------------------------------------- presence

/// The word that a presence change broadcasts.
pub open spec fn status_word(s: UserStatus) -> Seq<char> {
    match s {
        UserStatus::Online => "online"@,
        UserStatus::Invisible => "invisible"@,
        UserStatus::Offline => "offline"@,
    }
}

/// The word that a presence change broadcasts.
pub fn status_text(s: UserStatus) -> (r: &'static str)
    ensures
        r@ == status_word(s),
{
    match s {
        UserStatus::Online => "online",
        UserStatus::Invisible => "invisible",
        UserStatus::Offline => "offline",
    }
}

/// The user with another presence.
pub fn with_status(u: user::Model, s: UserStatus) -> (r: user::Model)
    ensures
        r == (user::Model { status: s, ..u }),
{
    user::Model { status: s, ..u }
}


/// The bans of a user that still hold now (read from the system clock).
pub fn pending_bans(rows: &Vec<(server_ban::Model, Option<server_model::Model>)>) -> (r: Vec<BanInfo>)
    requires
        forall|k: int| 0 <= k < rows@.len() ==> match (#[trigger] rows@[k]).0.banned_until {
            Some(t) => time_in_range(t as int),
            None => true,
        },
    ensures
        exists|now: i64|
            #![trigger pending(rows@, now)]
            time_in_range(now as int) && r@.len() == pending(rows@, now).len() && forall|k: int|
                0 <= k < r@.len() ==> is_ban_info(#[trigger] r@[k], pending(rows@, now)[k].0, pending(rows@, now)[k].1),
{
    let now = now_micros();
    let r = pending_bans_at(rows, now);
    assert(r@.len() == pending(rows@, now).len());
    r
}

// ---------------------------------------------------------------- avatars

/// The avatar notices for a user, one per membership, in order.
pub fn avatar_events(user_id: u128, memberships: &Vec<server_member::Model>, url: &String) -> (r: Vec<Event>)
    ensures
        r@.len() == memberships@.len(),
        forall|k: int|
            0 <= k < r@.len() ==> #[trigger] r@[k] == (Event::UserAvatarChange {
                server_id: memberships@[k].server_id,
                user_id,
                avatar_url: *url,
            }),
{
    let mut r: Vec<Event> = Vec::new();
    let n = memberships.len();
    for i in 0..n
        invariant
            n == memberships@.len(),
            r@.len() == i,
            forall|k: int|
                0 <= k < i ==> #[trigger] r@[k] == (Event::UserAvatarChange {
                    server_id: memberships@[k].server_id,
                    user_id,
                    avatar_url: *url,
                }),
    {
        r.push(Event::UserAvatarChange { server_id: memberships[i].server_id, user_id, avatar_url: url.clone() });
    }
    r
}

/// The user with another avatar.
pub fn with_avatar(u: user::Model, url: String) -> (r: user::Model)
    ensures
        r == (user::Model { avatar_url: Some(url), ..u }),
{
    user::Model { avatar_url: Some(url), ..u }
}

} // verus!
