//! The rules of the channel endpoints: reading, changing and deleting a channel.
use vstd::prelude::*;
use crate::application::dto::apperror::{AppError, Fault};
use crate::application::dto::channel_dto::{UpdateChannelRequest, channel_item};
use crate::application::events::Event;
use crate::application::services::access::{Rank, authorization, authorize, found, outcome, require_member};
use crate::domain::models::server_member::MemberRole;
use crate::domain::models::channel;
use crate::text::{blank, is_blank};

verus! {

/// The answer to a change of a channel's fields: a given name and a given
/// description must not be blank; a given position is taken as it is.
pub open spec fn channel_update_verdict(req: UpdateChannelRequest) -> Result<(), Fault> {
    match req.name {
        Some(n) if blank(n@) => Err(Fault::BadRequest("Channel name cannot be empty"@)),
        _ => match req.description {
            Some(d) if blank(d@) => Err(Fault::BadRequest("Channel description cannot be empty"@)),
            _ => Ok(()),
        },
    }
}

/// Whether `r` is channel `c` with the changes of `req` applied.
pub open spec fn channel_updated(r: channel::Model, c: channel::Model, req: UpdateChannelRequest) -> bool {
    &&& r.id == c.id
    &&& r.server_id == c.server_id
    &&& r.name == (match req.name {
        Some(n) => n,
        None => c.name,
    })
    &&& r.description == (match req.description {
        Some(d) => d,
        None => c.description,
    })
    &&& r.position == (match req.position {
        Some(p) => p,
        None => c.position,
    })
}

/// Applies a change of fields to a channel row, or refuses it.
pub fn apply_channel_update(c: channel::Model, req: UpdateChannelRequest) -> (r: Result<
    channel::Model,
    AppError,
>)
    ensures
        match r {
            Ok(v) => channel_update_verdict(req) is Ok && channel_updated(v, c, req),
            Err(e) => channel_update_verdict(req) == Err::<(), Fault>(e@),
        },
        r is Ok && req.name is Some ==> r->Ok_0.name == req.name.unwrap(),
        r is Ok && req.description is Some ==> r->Ok_0.description == req.description.unwrap(),
        r is Ok && req.position is Some ==> r->Ok_0.position == req.position.unwrap(),
{
    let mut c2 = c;
    match req.name {
        Some(n) => {
            if is_blank(n.as_str()) {
                return Err(AppError::BadRequest("Channel name cannot be empty".to_owned()));
            }
            c2.name = n;
        },
        None => {},
    }
    match req.description {
        Some(d) => {
            if is_blank(d.as_str()) {
                return Err(AppError::BadRequest("Channel description cannot be empty".to_owned()));
            }
            c2.description = d;
        },
        None => {},
    }
    match req.position {
        Some(p) => {
            c2.position = p;
        },
        None => {},
    }
    Ok(c2)
}

/// The notice that a channel changed.
pub fn channel_updated_event(c: &channel::Model) -> (e: Event)
    ensures
        e == (Event::UpdateChannel {
            server_id: c.server_id,
            channel_id: c.id,
            name: c.name,
            description: c.description,
        }),
{
    Event::UpdateChannel {
        server_id: c.server_id,
        channel_id: c.id,
        name: c.name.clone(),
        description: c.description.clone(),
    }
}


/// The channel that a lookup found, or "not found".
pub fn channel_found(c: Option<channel::Model>) -> (r: Result<channel::Model, AppError>)
    ensures
        match c {
            Some(v) => r == Ok::<channel::Model, AppError>(v),
            None => outcome(r) == Err::<channel::Model, Fault>(Fault::NotFound("Channel not found"@)),
        },
{
    found(c, AppError::NotFound("Channel not found".to_owned()))
}

/// Only members of its server read a channel.
pub fn check_channel_access(is_member: bool) -> (r: Result<(), AppError>)
    ensures
        outcome(r) == (if is_member {
            Ok::<(), Fault>(())
        } else {
            Err(Fault::Forbidden("Access denied: You are not a member of the server containing this channel"@))
        }),
{
    require_member(is_member, "Access denied: You are not a member of the server containing this channel")
}

/// Only the owner and the admins of its server change a channel.
pub fn authorize_channel_update(role: Option<MemberRole>) -> (r: Result<MemberRole, AppError>)
    ensures
        outcome(r) == authorization(
            role,
            Rank::Manager,
            "Not a member of the server"@,
            "Insufficient permissions: Only Owner or Admin can update channels"@,
        ),
{
    authorize(
        role,
        Rank::Manager,
        "Not a member of the server",
        "Insufficient permissions: Only Owner or Admin can update channels",
    )
}

/// Only the owner and the admins of its server delete a channel.
pub fn authorize_channel_delete(role: Option<MemberRole>) -> (r: Result<MemberRole, AppError>)
    ensures
        outcome(r) == authorization(
            role,
            Rank::Manager,
            "You are not a member of this server"@,
            "Only owners and admins can delete a channel"@,
        ),
{
    authorize(role, Rank::Manager, "You are not a member of this server", "Only owners and admins can delete a channel")
}

} // verus!
