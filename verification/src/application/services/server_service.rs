//! The rules of the server endpoints: creating, reading, changing and
//! deleting servers, joining and leaving them, ranks, kicks and bans.
//! Each function decides one step of a request from the rows that the
//! database returned; the caller reads and writes the database in between.
use vstd::prelude::*;
use crate::application::dto::apperror::{AppError, Fault};
use crate::application::dto::channel_dto::{ChannelItem, channel_item, to_channel_item};
use crate::application::dto::server_dto::{
    CreateChannelRequest, CreateServerRequest, CreateServerResponse, JoinServerRequest, MemberItem,
    UpdateMemberResponse, UpdateServerRequest, UpdateServerResponse,
};
use crate::application::events::Event;
use crate::application::services::access::{Rank, authorization, authorize, found, outcome, require_member};
use crate::application::services::roster::{is_member_item, member_item, member_item_named};
use crate::application::utils::clock::{now_micros, time_in_range};
use crate::application::utils::ids::fresh_id;
use crate::domain::models::{channel, server_ban, server_member, server_model, user};
use crate::domain::models::server_member::{MemberRole, manages, role_name, role_label};
use crate::domain::models::user::status_name;
use crate::text::{all_ascii, ascii_lowercase, blank, byte_len, lowercase, trimmed, is_blank, utf8_len, trim_owned, to_lowercase, same_text, copy_opt};

verus! {

// ---------------------------------------------------------------- create

/// The answer to a request to create a server: a name already in use, a
/// blank name, a name of more than 20 bytes and a blank description are
/// refused, in that order.
pub open spec fn new_server_verdict(name_taken: bool, name: Seq<char>, description: Seq<char>) -> Result<
    (),
    Fault,
> {
    if name_taken {
        Err(Fault::BadRequest("Server's name already in use"@))
    } else if blank(name) {
        Err(Fault::BadRequest("Server name cannot be empty"@))
    } else if byte_len(name) > 20 {
        Err(Fault::BadRequest("Server name too long"@))
    } else if blank(description) {
        Err(Fault::BadRequest("Description required"@))
    } else {
        Ok(())
    }
}

/// Checks a request to create a server, given whether a server of that name exists.
pub fn check_new_server(name_taken: bool, req: &CreateServerRequest) -> (r: Result<(), AppError>)
    ensures
        outcome(r) == new_server_verdict(name_taken, req.name@, req.description@),
{
    if name_taken {
        return Err(AppError::BadRequest("Server's name already in use".to_owned()));
    }
    if is_blank(req.name.as_str()) {
        return Err(AppError::BadRequest("Server name cannot be empty".to_owned()));
    }
    if utf8_len(req.name.as_str()) > 20 {
        return Err(AppError::BadRequest("Server name too long".to_owned()));
    }
    if is_blank(req.description.as_str()) {
        return Err(AppError::BadRequest("Description required".to_owned()));
    }
    Ok(())
}

/// The invitation code drawn from a random value: its last four decimal digits.
pub fn invite_code_of(x: u128) -> (c: i32)
    ensures
        c as int == x % 10000,
        0 <= c < 10000,
{
    (x % 10000) as i32
}

/// A server to insert; the database gives it its id.
#[derive(Debug)]
pub struct NewServer {
    pub name: String,
    pub description: String,
    pub icon_url: Option<String>,
    pub owner_id: u128,
    pub invitcode: i32,
}

/// The server that a valid creation request inserts, owned by the requester,
/// with a random invitation code of at most four digits.
pub fn new_server(req: CreateServerRequest, owner_id: u128) -> (r: NewServer)
    ensures
        r.name == req.name,
        r.description == req.description,
        r.icon_url == req.icon_url,
        r.owner_id == owner_id,
        0 <= r.invitcode < 10000,
{
    let code = invite_code_of(fresh_id());
    NewServer {
        name: req.name,
        description: req.description,
        icon_url: req.icon_url,
        owner_id,
        invitcode: code,
    }
}

/// A new membership of a user in a server with a rank, under a fresh id.
pub fn new_membership(server_id: i32, user_id: u128, role: MemberRole) -> (r: server_member::Model)
    ensures
        r.server_id == server_id,
        r.user_id == user_id,
        r.role == role,
        r.id != 0,
{
    server_member::Model { id: fresh_id(), server_id, user_id, role }
}

/// The channel that every new server starts with: "general", at position 0.
pub fn default_channel(server_id: i32) -> (r: channel::Model)
    ensures
        r.server_id == server_id,
        r.name@ == "general"@,
        r.description@ == "General discussion"@,
        r.position == 0,
        r.id != 0,
{
    channel::Model {
        id: fresh_id(),
        server_id,
        name: "general".to_owned(),
        description: "General discussion".to_owned(),
        position: 0,
    }
}

/// The answer to a creation: the stored server, the code drawn for it and its channel.
pub fn created_server(server: server_model::Model, invitcode: i32, general: &channel::Model) -> (r:
    CreateServerResponse)
    ensures
        r.id == server.id,
        r.name == server.name,
        r.description == server.description,
        r.icon_url == server.icon_url,
        r.owner_id == server.owner_id,
        r.invitcode == invitcode,
        r.channels@ == seq![channel_item(*general)],
{
    let mut channels: Vec<ChannelItem> = Vec::new();
    channels.push(to_channel_item(general));
    CreateServerResponse {
        id: server.id,
        name: server.name,
        description: server.description,
        icon_url: server.icon_url,
        invitcode,
        owner_id: server.owner_id,
        channels,
    }
}

// ---------------------------------------------------------------- update

/// The answer to a change of a server's fields: a given name must be
/// non-blank and of at most 20 bytes, a given description non-blank; the
/// stored name and description are trimmed, a given icon replaces the old one.
pub open spec fn server_update_verdict(s: server_model::Model, req: UpdateServerRequest) -> Result<
    server_model::Model,
    Fault,
> {
    match req.name {
        Some(n) if blank(n@) => Err(Fault::BadRequest("Server name cannot be empty"@)),
        Some(n) if byte_len(n@) > 20 => Err(
            Fault::BadRequest("Server name too long (max 20 characters)"@),
        ),
        _ => match req.description {
            Some(d) if blank(d@) => Err(Fault::BadRequest("Description cannot be empty"@)),
            _ => Ok(s),
        },
    }
}

/// Whether `r` is server `s` with the changes of `req` applied.
pub open spec fn server_updated(r: server_model::Model, s: server_model::Model, req: UpdateServerRequest) -> bool {
    &&& r.id == s.id
    &&& r.owner_id == s.owner_id
    &&& r.invitcode == s.invitcode
    &&& match req.name {
        Some(n) => r.name@ == trimmed(n@),
        None => r.name == s.name,
    }
    &&& match req.description {
        Some(d) => r.description@ == trimmed(d@),
        None => r.description == s.description,
    }
    &&& match req.icon_url {
        Some(i) => r.icon_url == Some(i),
        None => r.icon_url == s.icon_url,
    }
}

/// Applies a change of fields to a server row, or refuses it.
pub fn apply_server_update(s: server_model::Model, req: UpdateServerRequest) -> (r: Result<
    server_model::Model,
    AppError,
>)
    ensures
        match r {
            Ok(v) => server_update_verdict(s, req) is Ok && server_updated(v, s, req),
            Err(e) => server_update_verdict(s, req) == Err::<server_model::Model, Fault>(e@),
        },
{
    let mut s2 = s;
    match &req.name {
        Some(n) => {
            if is_blank(n.as_str()) {
                return Err(AppError::BadRequest("Server name cannot be empty".to_owned()));
            }
            if utf8_len(n.as_str()) > 20 {
                return Err(AppError::BadRequest("Server name too long (max 20 characters)".to_owned()));
            }
            s2.name = trim_owned(n.as_str());
        },
        None => {},
    }
    match &req.description {
        Some(d) => {
            if is_blank(d.as_str()) {
                return Err(AppError::BadRequest("Description cannot be empty".to_owned()));
            }
            s2.description = trim_owned(d.as_str());
        },
        None => {},
    }
    match req.icon_url {
        Some(i) => {
            s2.icon_url = Some(i);
        },
        None => {},
    }
    Ok(s2)
}

/// The answer to a change: the fields that the request named, as stored.
pub fn updated_server_answer(
    stored: server_model::Model,
    name_given: bool,
    description_given: bool,
    icon_given: bool,
) -> (r: UpdateServerResponse)
    ensures
        r.id == stored.id,
        r.new_name == (if name_given { Some(stored.name) } else { None }),
        r.new_description == (if description_given { Some(stored.description) } else { None }),
        r.new_icon_url == (if icon_given { stored.icon_url } else { None }),
{
    UpdateServerResponse {
        id: stored.id,
        new_name: if name_given { Some(stored.name) } else { None },
        new_description: if description_given { Some(stored.description) } else { None },
        new_icon_url: if icon_given { stored.icon_url } else { None },
    }
}

// ---------------------------------------------------------------- join and leave

/// What to do with the ban record of a user who asks to join.
#[derive(Debug, Clone, Copy, PartialEq, Eq, Structural)]
pub enum BanCheck {
    /// No ban: go on.
    Clear,
    /// The ban with this id has run out: delete it and go on.
    Lift(u128),
}

/// The answer to a join request given the user's ban in the server at time
/// `now`: a ban that runs past `now` or never ends refuses the request, a
/// ban that has run out is lifted.
pub open spec fn ban_verdict(ban: Option<server_ban::Model>, now: i64) -> Result<BanCheck, Fault> {
    match ban {
        None => Ok(BanCheck::Clear),
        Some(b) => match b.banned_until {
            Some(until) => if until > now {
                Err(Fault::Forbidden("You are temporarily banned from this server"@))
            } else {
                Ok(BanCheck::Lift(b.id))
            },
            None => Err(Fault::Forbidden("You are permanently banned from this server"@)),
        },
    }
}

/// Checks a user's ban in a server at time `now`.
pub fn check_ban_at(ban: Option<server_ban::Model>, now: i64) -> (r: Result<BanCheck, AppError>)
    ensures
        outcome(r) == ban_verdict(ban, now),
{
    match ban {
        None => Ok(BanCheck::Clear),
        Some(b) => match b.banned_until {
            Some(until) => {
                if until > now {
                    Err(AppError::Forbidden("You are temporarily banned from this server".to_owned()))
                } else {
                    Ok(BanCheck::Lift(b.id))
                }
            },
            None => Err(AppError::Forbidden("You are permanently banned from this server".to_owned())),
        },
    }
}

/// Checks a user's ban in a server now; the answer is that of
/// [`check_ban_at`] at some instant, read from the system clock.
pub fn check_ban(ban: Option<server_ban::Model>) -> (r: Result<BanCheck, AppError>)
    ensures
        exists|now: i64| #![trigger ban_verdict(ban, now)] time_in_range(now as int) && outcome(r) == ban_verdict(ban, now),
{
    let now = now_micros();
    let ghost verdict = ban_verdict(ban, now);
    check_ban_at(ban, now)
}

/// The answer to a join request once the bans are cleared: a member cannot
/// join again, and the code must be the server's.
pub open spec fn join_verdict(already_member: bool, code: i32, server_code: i32) -> Result<(), Fault> {
    if already_member {
        Err(Fault::BadRequest("Already a member of this server"@))
    } else if code != server_code {
        Err(Fault::BadRequest("Invalid invitation code"@))
    } else {
        Ok(())
    }
}

/// Checks a join request against the membership and the server's code.
pub fn check_join(already_member: bool, req: &JoinServerRequest, server: &server_model::Model) -> (r: Result<
    (),
    AppError,
>)
    ensures
        outcome(r) == join_verdict(already_member, req.invitcode, server.invitcode),
{
    if already_member {
        return Err(AppError::BadRequest("Already a member of this server".to_owned()));
    }
    if req.invitcode != server.invitcode {
        return Err(AppError::BadRequest("Invalid invitation code".to_owned()));
    }
    Ok(())
}

/// What a join request decides from the rows read at time `now`: the server
/// must exist, a ban that holds refuses, a member cannot join again, and the
/// code must be the server's, in that order.  A ban that has run out is
/// lifted as soon as the bans are cleared, whatever follows.
#[derive(Debug)]
pub struct JoinOutcome {
    /// The ban to delete, if one has run out.
    pub lift: Option<u128>,
    /// The server to join, or the refusal.
    pub result: Result<server_model::Model, AppError>,
}

/// The ban that a join lifts: the one that has run out, once the server is found.
pub open spec fn join_lift(server: Option<server_model::Model>, ban: Option<server_ban::Model>, now: i64) -> Option<u128> {
    match server {
        None => None,
        Some(_) => match ban_verdict(ban, now) {
            Ok(BanCheck::Lift(id)) => Some(id),
            _ => None,
        },
    }
}

/// The answer to a join request.
pub open spec fn join_decision(
    server: Option<server_model::Model>,
    ban: Option<server_ban::Model>,
    already_member: bool,
    code: i32,
    now: i64,
) -> Result<server_model::Model, Fault> {
    match server {
        None => Err(Fault::NotFound("Server not found"@)),
        Some(s) => match ban_verdict(ban, now) {
            Err(f) => Err(f),
            Ok(_) => match join_verdict(already_member, code, s.invitcode) {
                Err(f) => Err(f),
                Ok(_) => Ok(s),
            },
        },
    }
}

/// Decides a join request at time `now` from the server found, the user's
/// ban in it and whether the user is a member already.
pub fn join_outcome_at(
    server: Option<server_model::Model>,
    ban: Option<server_ban::Model>,
    already_member: bool,
    req: &JoinServerRequest,
    now: i64,
) -> (r: JoinOutcome)
    ensures
        r.lift == join_lift(server, ban, now),
        outcome(r.result) == join_decision(server, ban, already_member, req.invitcode, now),
{
    let s = match server_found(server) {
        Ok(s) => s,
        Err(e) => {
            return JoinOutcome { lift: None, result: Err(e) };
        },
    };
    let lift = match check_ban_at(ban, now) {
        Ok(BanCheck::Lift(id)) => Some(id),
        Ok(BanCheck::Clear) => None,
        Err(e) => {
            return JoinOutcome { lift: None, result: Err(e) };
        },
    };
    match check_join(already_member, req, &s) {
        Ok(()) => JoinOutcome { lift, result: Ok(s) },
        Err(e) => JoinOutcome { lift, result: Err(e) },
    }
}

/// Decides a join request now (read from the system clock): the answer of
/// [`join_outcome_at`] at that instant.
pub fn join_outcome(
    server: Option<server_model::Model>,
    ban: Option<server_ban::Model>,
    already_member: bool,
    req: &JoinServerRequest,
) -> (r: JoinOutcome)
    ensures
        exists|now: i64|
            #![trigger join_decision(server, ban, already_member, req.invitcode, now)]
            time_in_range(now as int) && r.lift == join_lift(server, ban, now) && outcome(r.result)
                == join_decision(server, ban, already_member, req.invitcode, now),
{
    let now = now_micros();
    let ghost d = join_decision(server, ban, already_member, req.invitcode, now);
    join_outcome_at(server, ban, already_member, req, now)
}

/// The notice that a user joined: the new membership shown with rank "Member".
pub fn joined_event(server_id: i32, m: &server_member::Model, u: &user::Model) -> (e: Event)
    ensures
        match e {
            Event::UserJoined { server_id: sid, member } => {
                &&& sid == server_id
                &&& member.id == m.id
                &&& member.user_id == u.id
                &&& member.username == u.username
                &&& member.display_name == u.display_name
                &&& member.avatar_url == u.avatar_url
                &&& member.role@ == "Member"@
                &&& member.status@ == status_name(u.status)
            },
            _ => false,
        },
{
    Event::UserJoined { server_id, member: member_item_named(m, u, "Member".to_owned()) }
}

/// The answer to a request to leave: only a member can leave, and the owner cannot.
pub open spec fn leave_verdict(m: Option<server_member::Model>) -> Result<server_member::Model, Fault> {
    match m {
        None => Err(Fault::Forbidden("Not a member of this server"@)),
        Some(m) => if m.role == MemberRole::Owner {
            Err(Fault::Forbidden("Owner cannot leave server. Delete the server instead"@))
        } else {
            Ok(m)
        },
    }
}

/// Checks a request to leave given the requester's membership; answers the membership to delete.
pub fn check_leave(m: Option<server_member::Model>) -> (r: Result<server_member::Model, AppError>)
    ensures
        outcome(r) == leave_verdict(m),
{
    match m {
        None => Err(AppError::Forbidden("Not a member of this server".to_owned())),
        Some(m) => {
            if m.role == MemberRole::Owner {
                Err(AppError::Forbidden("Owner cannot leave server. Delete the server instead".to_owned()))
            } else {
                Ok(m)
            }
        },
    }
}

/// The notice that a member left.
pub fn left_event(m: &server_member::Model) -> (e: Event)
    ensures
        e == (Event::UserLeft { server_id: m.server_id, user_id: m.user_id, member_id: m.id }),
{
    Event::UserLeft { server_id: m.server_id, user_id: m.user_id, member_id: m.id }
}


// ---------------------------------------------------------------- ranks

/// The rank that a lowercase word names: "admin", "member" or "owner".
pub open spec fn role_of_word(t: Seq<char>) -> Option<MemberRole> {
    if t == "admin"@ {
        Some(MemberRole::Admin)
    } else if t == "member"@ {
        Some(MemberRole::Member)
    } else if t == "owner"@ {
        Some(MemberRole::Owner)
    } else {
        None
    }
}

/// The rank that a role request names, after lowercasing: "admin",
/// "member" or "owner".
pub open spec fn role_named(text: Seq<char>) -> Option<MemberRole> {
    role_of_word(lowercase(text))
}

/// The answer to a change of rank, once the requester is known to own the
/// server: the target must be a member, must not be the requester, and the
/// rank must be one of the three.
pub open spec fn rank_change_verdict(
    target: Option<server_member::Model>,
    requester_id: u128,
    target_id: u128,
    new_role: Seq<char>,
) -> Result<(server_member::Model, MemberRole), Fault> {
    match target {
        None => Err(Fault::BadRequest("User is not a member of this server"@)),
        Some(t) => if requester_id == target_id {
            Err(Fault::Forbidden("Cannot modify your own role"@))
        } else {
            match role_named(new_role) {
                Some(r) => Ok((t, r)),
                None => Err(Fault::Forbidden("Invalid role. Use 'admin', 'member', or 'owner'"@)),
            }
        },
    }
}

/// The rank that a text names.
pub fn parse_role(text: &str) -> (r: Option<MemberRole>)
    ensures
        r == role_named(text@),
        all_ascii(text@) ==> r == role_of_word(ascii_lowercase(text@)),
{
    let t = to_lowercase(text);
    if same_text(t.as_str(), "admin") {
        Some(MemberRole::Admin)
    } else if same_text(t.as_str(), "member") {
        Some(MemberRole::Member)
    } else if same_text(t.as_str(), "owner") {
        Some(MemberRole::Owner)
    } else {
        None
    }
}

/// Checks a change of rank; answers the target's membership and its new rank.
pub fn check_rank_change(
    target: Option<server_member::Model>,
    requester_id: u128,
    target_id: u128,
    new_role: &str,
) -> (r: Result<(server_member::Model, MemberRole), AppError>)
    ensures
        outcome(r) == rank_change_verdict(target, requester_id, target_id, new_role@),
{
    match target {
        None => Err(AppError::BadRequest("User is not a member of this server".to_owned())),
        Some(t) => {
            if requester_id == target_id {
                return Err(AppError::Forbidden("Cannot modify your own role".to_owned()));
            }
            match parse_role(new_role) {
                Some(r) => Ok((t, r)),
                None => Err(
                    AppError::Forbidden("Invalid role. Use 'admin', 'member', or 'owner'".to_owned()),
                ),
            }
        },
    }
}

/// A membership with another rank.
pub open spec fn with_role(m: server_member::Model, r: MemberRole) -> server_member::Model {
    server_member::Model { role: r, ..m }
}

/// A membership with another rank.
pub fn set_role(m: server_member::Model, r: MemberRole) -> (out: server_member::Model)
    ensures
        out == with_role(m, r),
{
    server_member::Model { role: r, ..m }
}

/// The server with another owner.
pub fn hand_over(s: server_model::Model, new_owner: u128) -> (r: server_model::Model)
    ensures
        r == (server_model::Model { owner_id: new_owner, ..s }),
{
    server_model::Model { owner_id: new_owner, ..s }
}

/// What a change of rank writes: the target's membership with its new rank
/// and, when that rank is "owner", the requester's membership made admin and
/// the server handed over to the target.
#[derive(Debug)]
pub struct RankPlan {
    pub target: server_member::Model,
    pub demoted: Option<server_member::Model>,
    pub new_owner: Option<u128>,
}

/// The writes of a change of rank.
pub open spec fn rank_plan(requester: server_member::Model, target: server_member::Model, new_role: MemberRole) -> RankPlan {
    if new_role == MemberRole::Owner {
        RankPlan {
            target: with_role(target, new_role),
            demoted: Some(with_role(requester, MemberRole::Admin)),
            new_owner: Some(target.user_id),
        }
    } else {
        RankPlan { target: with_role(target, new_role), demoted: None, new_owner: None }
    }
}

/// Plans the writes of a change of rank that `check_rank_change` allowed.
pub fn plan_rank_change(requester: server_member::Model, target: server_member::Model, new_role: MemberRole) -> (p:
    RankPlan)
    ensures
        p == rank_plan(requester, target, new_role),
{
    if new_role == MemberRole::Owner {
        RankPlan {
            target: set_role(target, new_role),
            demoted: Some(set_role(requester, MemberRole::Admin)),
            new_owner: Some(target.user_id),
        }
    } else {
        RankPlan { target: set_role(target, new_role), demoted: None, new_owner: None }
    }
}

/// The notice that a member's rank changed, shown with the given rank name.
pub fn member_updated_event(server_id: i32, member: MemberItem) -> (e: Event)
    ensures
        e == (Event::MemberUpdated { server_id, member }),
{
    Event::MemberUpdated { server_id, member }
}

/// The old owner, now an admin, as clients see it after a hand-over.
pub fn demoted_owner_item(m: &server_member::Model, u: &user::Model) -> (r: MemberItem)
    ensures
        r.id == m.id,
        r.user_id == u.id,
        r.username == u.username,
        r.display_name == u.display_name,
        r.avatar_url == u.avatar_url,
        r.role@ == "Admin"@,
        r.status@ == status_name(u.status),
{
    member_item_named(m, u, "Admin".to_owned())
}

/// The answer to a change of rank: the updated membership shown with its new rank.
pub fn rank_change_answer(updated: &server_member::Model, u: &user::Model, new_role: MemberRole) -> (r:
    UpdateMemberResponse)
    ensures
        r.id == updated.id,
        r.new_user.id == updated.id,
        r.new_user.user_id == u.id,
        r.new_user.username == u.username,
        r.new_user.display_name == u.display_name,
        r.new_user.avatar_url == u.avatar_url,
        r.new_user.role@ == role_name(new_role),
        r.new_user.status@ == status_name(u.status),
{
    UpdateMemberResponse { id: updated.id, new_user: member_item_named(updated, u, role_label(new_role)) }
}

// ---------------------------------------------------------------- kick and ban

/// The answer to a kick by a manager whose role is `requester`: the target
/// must be a member, cannot be the owner, an admin cannot kick an admin,
/// and nobody kicks themselves.
pub open spec fn kick_verdict(
    requester: MemberRole,
    target: Option<server_member::Model>,
    requester_id: u128,
    target_id: u128,
) -> Result<server_member::Model, Fault> {
    match target {
        None => Err(Fault::BadRequest("Target user is not a member of this server"@)),
        Some(t) => if t.role == MemberRole::Owner {
            Err(Fault::Forbidden("Cannot kick the server owner"@))
        } else if requester == MemberRole::Admin && t.role == MemberRole::Admin {
            Err(Fault::Forbidden("Admins cannot kick other admins"@))
        } else if requester_id == target_id {
            Err(Fault::BadRequest("Cannot kick yourself. Use leave instead"@))
        } else {
            Ok(t)
        },
    }
}

/// Checks a kick; answers the membership to delete.
pub fn check_kick(
    requester: MemberRole,
    target: Option<server_member::Model>,
    requester_id: u128,
    target_id: u128,
) -> (r: Result<server_member::Model, AppError>)
    ensures
        outcome(r) == kick_verdict(requester, target, requester_id, target_id),
{
    match target {
        None => Err(AppError::BadRequest("Target user is not a member of this server".to_owned())),
        Some(t) => {
            if t.role == MemberRole::Owner {
                Err(AppError::Forbidden("Cannot kick the server owner".to_owned()))
            } else if requester == MemberRole::Admin && t.role == MemberRole::Admin {
                Err(AppError::Forbidden("Admins cannot kick other admins".to_owned()))
            } else if requester_id == target_id {
                Err(AppError::BadRequest("Cannot kick yourself. Use leave instead".to_owned()))
            } else {
                Ok(t)
            }
        },
    }
}

/// The notice that a member was kicked.
pub fn kicked_event(server_id: i32, user_id: u128, member_id: u128) -> (e: Event)
    ensures
        e == (Event::UserKicked { server_id, user_id, member_id }),
{
    Event::UserKicked { server_id, user_id, member_id }
}

/// The answer to a ban by a manager whose role is `requester`: nobody bans
/// themselves; a target who is a member cannot be the owner, and an admin
/// cannot ban an admin.  A user who is no member can be banned too.
pub open spec fn ban_target_verdict(
    requester: MemberRole,
    target: Option<server_member::Model>,
    requester_id: u128,
    target_id: u128,
) -> Result<Option<server_member::Model>, Fault> {
    if requester_id == target_id {
        Err(Fault::BadRequest("Cannot ban yourself"@))
    } else {
        match target {
            None => Ok(None),
            Some(t) => if t.role == MemberRole::Owner {
                Err(Fault::Forbidden("Cannot ban the server owner"@))
            } else if requester == MemberRole::Admin && t.role == MemberRole::Admin {
                Err(Fault::Forbidden("Admins cannot ban other admins"@))
            } else {
                Ok(Some(t))
            },
        }
    }
}

/// Checks a ban; answers the membership to delete, if the target is a member.
pub fn check_ban_target(
    requester: MemberRole,
    target: Option<server_member::Model>,
    requester_id: u128,
    target_id: u128,
) -> (r: Result<Option<server_member::Model>, AppError>)
    ensures
        outcome(r) == ban_target_verdict(requester, target, requester_id, target_id),
{
    if requester_id == target_id {
        return Err(AppError::BadRequest("Cannot ban yourself".to_owned()));
    }
    match target {
        None => Ok(None),
        Some(t) => {
            if t.role == MemberRole::Owner {
                Err(AppError::Forbidden("Cannot ban the server owner".to_owned()))
            } else if requester == MemberRole::Admin && t.role == MemberRole::Admin {
                Err(AppError::Forbidden("Admins cannot ban other admins".to_owned()))
            } else {
                Ok(Some(t))
            }
        },
    }
}

/// When a ban of `duration` seconds given at time `now` (microseconds) ends;
/// `None` for a ban without end.
pub open spec fn ban_end(duration: Option<i32>, now: i64) -> Option<i64> {
    match duration {
        Some(secs) => Some((now + secs * 1_000_000) as i64),
        None => None,
    }
}

/// Whether a ban of `duration` seconds given at `now` ends at an instant
/// that chrono can hold (adding the duration panics otherwise).
pub open spec fn ban_end_in_range(duration: Option<i32>, now: i64) -> bool {
    match duration {
        Some(secs) => time_in_range(now + secs * 1_000_000),
        None => true,
    }
}

/// The ban row for a user, given at time `now`, under a fresh id.
pub fn new_ban_at(server_id: i32, user_id: u128, banned_by: u128, duration: Option<i32>, now: i64) -> (r:
    server_ban::Model)
    requires
        time_in_range(now as int),
        ban_end_in_range(duration, now),
    ensures
        r.server_id == server_id,
        r.user_id == user_id,
        r.banned_by == banned_by,
        r.banned_until == ban_end(duration, now),
        r.id != 0,
{
    let until = match duration {
        Some(secs) => {
            let span: i64 = (secs as i64) * 1_000_000;
            Some(now + span)
        },
        None => None,
    };
    server_ban::Model { id: fresh_id(), server_id, user_id, banned_by, banned_until: until }
}

/// The ban row for a user, given now (read from the system clock); its end
/// is `duration` seconds after that instant, or never.  `None` when that end
/// lies beyond the dates chrono can hold.
pub fn new_ban(server_id: i32, user_id: u128, banned_by: u128, duration: Option<i32>) -> (r: Option<
    server_ban::Model,
>)
    ensures
        exists|now: i64|
            #![trigger ban_end(duration, now)]
            time_in_range(now as int) && match r {
                Some(b) => {
                    &&& ban_end_in_range(duration, now)
                    &&& b.server_id == server_id
                    &&& b.user_id == user_id
                    &&& b.banned_by == banned_by
                    &&& b.banned_until == ban_end(duration, now)
                },
                None => !ban_end_in_range(duration, now),
            },
{
    let now = now_micros();
    let ghost end = ban_end(duration, now);
    let fits = match duration {
        Some(secs) => {
            let end: i64 = now + (secs as i64) * 1_000_000;
            -8_334_601_315_200_000_000 <= end && end <= 8_210_266_876_799_999_999
        },
        None => true,
    };
    if fits {
        Some(new_ban_at(server_id, user_id, banned_by, duration, now))
    } else {
        None
    }
}

/// The notice that a user was banned, with the end of the ban as text.
pub fn banned_event(ban: &server_ban::Model, member_id: Option<u128>, until_text: Option<String>) -> (e: Event)
    ensures
        e == (Event::UserBanned {
            server_id: ban.server_id,
            user_id: ban.user_id,
            member_id,
            banned_until: until_text,
        }),
{
    Event::UserBanned { server_id: ban.server_id, user_id: ban.user_id, member_id, banned_until: until_text }
}

// ---------------------------------------------------------------- whole moderation requests

/// The role of a membership, if there is one.
pub open spec fn role_in(m: Option<server_member::Model>) -> Option<MemberRole> {
    match m {
        Some(m) => Some(m.role),
        None => None,
    }
}

fn role_of(m: &Option<server_member::Model>) -> (r: Option<MemberRole>)
    ensures
        r == role_in(*m),
{
    match m {
        Some(m) => Some(m.role),
        None => None,
    }
}

/// The answer to a kick from the requester's and the target's memberships:
/// the requester must manage the server, then `kick_verdict` decides.
pub open spec fn kick_decision(
    requester: Option<server_member::Model>,
    target: Option<server_member::Model>,
    requester_id: u128,
    target_id: u128,
) -> Result<server_member::Model, Fault> {
    match authorization(
        role_in(requester),
        Rank::Manager,
        "Not a member of this server"@,
        "Only Owner or Admin can kick users"@,
    ) {
        Err(f) => Err(f),
        Ok(r) => kick_verdict(r, target, requester_id, target_id),
    }
}

/// Decides a kick; answers the membership to delete.
pub fn kick_outcome(
    requester: Option<server_member::Model>,
    target: Option<server_member::Model>,
    requester_id: u128,
    target_id: u128,
) -> (r: Result<server_member::Model, AppError>)
    ensures
        outcome(r) == kick_decision(requester, target, requester_id, target_id),
{
    let role = authorize_kick(role_of(&requester))?;
    check_kick(role, target, requester_id, target_id)
}

/// The answer to a ban from the requester's and the target's memberships:
/// the requester must manage the server, then `ban_target_verdict` decides.
pub open spec fn ban_decision(
    requester: Option<server_member::Model>,
    target: Option<server_member::Model>,
    requester_id: u128,
    target_id: u128,
) -> Result<Option<server_member::Model>, Fault> {
    match authorization(
        role_in(requester),
        Rank::Manager,
        "Not a member of this server"@,
        "Only Owner or Admin can ban users"@,
    ) {
        Err(f) => Err(f),
        Ok(r) => ban_target_verdict(r, target, requester_id, target_id),
    }
}

/// Decides a ban; answers the membership to delete, if the target is a member.
pub fn ban_outcome(
    requester: Option<server_member::Model>,
    target: Option<server_member::Model>,
    requester_id: u128,
    target_id: u128,
) -> (r: Result<Option<server_member::Model>, AppError>)
    ensures
        outcome(r) == ban_decision(requester, target, requester_id, target_id),
{
    let role = authorize_ban(role_of(&requester))?;
    check_ban_target(role, target, requester_id, target_id)
}

/// The answer to a change of rank from the requester's and the target's
/// memberships: the requester must own the server, then
/// `rank_change_verdict` decides, and `rank_plan` gives the writes.
pub open spec fn rank_change_decision(
    requester: Option<server_member::Model>,
    target: Option<server_member::Model>,
    requester_id: u128,
    target_id: u128,
    new_role: Seq<char>,
) -> Result<(RankPlan, MemberRole), Fault> {
    match requester {
        None => Err(Fault::Forbidden("Not a member of this server"@)),
        Some(q) => if q.role != MemberRole::Owner {
            Err(Fault::Forbidden("Only the owner can update member roles"@))
        } else {
            match rank_change_verdict(target, requester_id, target_id, new_role) {
                Err(f) => Err(f),
                Ok((t, r)) => Ok((rank_plan(q, t, r), r)),
            }
        },
    }
}

/// Decides a change of rank; answers its writes and the new rank.
pub fn rank_change_outcome(
    requester: Option<server_member::Model>,
    target: Option<server_member::Model>,
    requester_id: u128,
    target_id: u128,
    new_role: &str,
) -> (r: Result<(RankPlan, MemberRole), AppError>)
    ensures
        outcome(r) == rank_change_decision(requester, target, requester_id, target_id, new_role@),
{
    authorize_rank_change(role_of(&requester))?;
    let q = match requester {
        Some(q) => q,
        None => {
            return Err(AppError::Forbidden("Not a member of this server".to_owned()));
        },
    };
    let (t, role) = check_rank_change(target, requester_id, target_id, new_role)?;
    Ok((plan_rank_change(q, t, role), role))
}

// ---------------------------------------------------------------- channels

/// The answer to a request to create a channel, once the requester is known
/// to manage the server: the name must not be blank.
pub open spec fn new_channel_verdict(name: Seq<char>) -> Result<(), Fault> {
    if blank(name) {
        Err(Fault::BadRequest("Channel name cannot be empty"@))
    } else {
        Ok(())
    }
}

/// The channel that a valid creation request inserts, at position 0, under a fresh id.
pub fn new_channel(server_id: i32, req: CreateChannelRequest) -> (r: Result<channel::Model, AppError>)
    ensures
        match r {
            Ok(c) => {
                &&& new_channel_verdict(req.name@) is Ok
                &&& c.server_id == server_id
                &&& c.name == req.name
                &&& c.description == req.description
                &&& c.position == 0
                &&& c.id != 0
            },
            Err(e) => new_channel_verdict(req.name@) == Err::<(), Fault>(e@),
        },
{
    if is_blank(req.name.as_str()) {
        return Err(AppError::BadRequest("Channel name cannot be empty".to_owned()));
    }
    Ok(channel::Model {
        id: fresh_id(),
        server_id,
        name: req.name,
        description: req.description,
        position: 0,
    })
}

/// The notice that a channel was created.
pub fn channel_created_event(c: &channel::Model) -> (e: Event)
    ensures
        e == (Event::ChannelCreated { server_id: c.server_id, channel: channel_item(*c) }),
{
    Event::ChannelCreated { server_id: c.server_id, channel: to_channel_item(c) }
}


// ---------------------------------------------------------------- lookups and ranks needed

/// The server that a lookup found, or "not found".
pub fn server_found(s: Option<server_model::Model>) -> (r: Result<server_model::Model, AppError>)
    ensures
        match s {
            Some(v) => r == Ok::<server_model::Model, AppError>(v),
            None => outcome(r) == Err::<server_model::Model, Fault>(Fault::NotFound("Server not found"@)),
        },
{
    found(s, AppError::NotFound("Server not found".to_owned()))
}

/// The user that a lookup found, or "not found".
pub fn user_found(u: Option<user::Model>) -> (r: Result<user::Model, AppError>)
    ensures
        match u {
            Some(v) => r == Ok::<user::Model, AppError>(v),
            None => outcome(r) == Err::<user::Model, Fault>(Fault::NotFound("User not found"@)),
        },
{
    found(u, AppError::NotFound("User not found".to_owned()))
}

/// Only members read a server, its members and its channels.
pub fn check_server_member(is_member: bool) -> (r: Result<(), AppError>)
    ensures
        outcome(r) == (if is_member {
            Ok::<(), Fault>(())
        } else {
            Err(Fault::Forbidden("Not a member of this server"@))
        }),
{
    require_member(is_member, "Not a member of this server")
}

/// A server is shown to its members alone; to anyone else it is not found.
pub fn check_server_visible(is_member: bool) -> (r: Result<(), AppError>)
    ensures
        outcome(r) == (if is_member {
            Ok::<(), Fault>(())
        } else {
            Err(Fault::NotFound("Not a member of this server"@))
        }),
{
    if is_member {
        Ok(())
    } else {
        Err(AppError::NotFound("Not a member of this server".to_owned()))
    }
}

/// Only the owner and the admins change a server.
pub fn authorize_server_update(role: Option<MemberRole>) -> (r: Result<MemberRole, AppError>)
    ensures
        outcome(r) == authorization(
            role,
            Rank::Manager,
            "Not a member of this server"@,
            "Only owners and admins can update server"@,
        ),
{
    authorize(role, Rank::Manager, "Not a member of this server", "Only owners and admins can update server")
}

/// Only the owner deletes a server.
pub fn authorize_server_delete(role: Option<MemberRole>) -> (r: Result<MemberRole, AppError>)
    ensures
        outcome(r) == authorization(
            role,
            Rank::OwnerOnly,
            "Not a member of this server"@,
            "Only owners can delete server"@,
        ),
{
    authorize(role, Rank::OwnerOnly, "Not a member of this server", "Only owners can delete server")
}

/// Only the owner changes ranks.
pub fn authorize_rank_change(role: Option<MemberRole>) -> (r: Result<MemberRole, AppError>)
    ensures
        outcome(r) == authorization(
            role,
            Rank::OwnerOnly,
            "Not a member of this server"@,
            "Only the owner can update member roles"@,
        ),
{
    authorize(role, Rank::OwnerOnly, "Not a member of this server", "Only the owner can update member roles")
}

/// The answer to a request to create a channel given the requester's role:
/// an outsider is forbidden, a plain member's request is a bad request, the
/// owner and the admins go on.
pub open spec fn channel_creation_verdict(role: Option<MemberRole>) -> Result<MemberRole, Fault> {
    match role {
        None => Err(Fault::Forbidden("Not a member of this server"@)),
        Some(r) => if manages(r) {
            Ok(r)
        } else {
            Err(Fault::BadRequest("Only Owner or Admin can create channels"@))
        },
    }
}

/// Only the owner and the admins create channels.
pub fn authorize_channel_creation(role: Option<MemberRole>) -> (r: Result<MemberRole, AppError>)
    ensures
        outcome(r) == channel_creation_verdict(role),
{
    match role {
        None => Err(AppError::Forbidden("Not a member of this server".to_owned())),
        Some(r) => {
            if r == MemberRole::Owner || r == MemberRole::Admin {
                Ok(r)
            } else {
                Err(AppError::BadRequest("Only Owner or Admin can create channels".to_owned()))
            }
        },
    }
}

/// Only the owner and the admins kick.
pub fn authorize_kick(role: Option<MemberRole>) -> (r: Result<MemberRole, AppError>)
    ensures
        outcome(r) == authorization(
            role,
            Rank::Manager,
            "Not a member of this server"@,
            "Only Owner or Admin can kick users"@,
        ),
{
    authorize(role, Rank::Manager, "Not a member of this server", "Only Owner or Admin can kick users")
}

/// Only the owner and the admins ban.
pub fn authorize_ban(role: Option<MemberRole>) -> (r: Result<MemberRole, AppError>)
    ensures
        outcome(r) == authorization(
            role,
            Rank::Manager,
            "Not a member of this server"@,
            "Only Owner or Admin can ban users"@,
        ),
{
    authorize(role, Rank::Manager, "Not a member of this server", "Only Owner or Admin can ban users")
}

} // verus!
