//! What the services broadcast to connected clients, and which of them a
//! client receives.
use vstd::prelude::*;
use crate::application::dto::channel_dto::ChannelItem;
use crate::application::dto::server_dto::MemberItem;

verus! {

/// A notice broadcast to the websocket clients.  Ids are UUID values, times
/// microseconds since the Unix epoch.
#[derive(Debug)]
#[allow(inconsistent_fields)]
pub enum Event {
    /// A user's presence changed (sent once per server of the user).
    UserStatusChange { server_id: i32, user_id: u128, status: String },
    /// A user's avatar changed (sent once per server of the user).
    UserAvatarChange { server_id: i32, user_id: u128, avatar_url: String },
    /// A channel was renamed or described anew.
    UpdateChannel { server_id: i32, channel_id: u128, name: String, description: String },
    /// A message was posted in a channel.
    NewMessage {
        id: u128,
        content: String,
        user_id: u128,
        author_username: String,
        server_id: Option<i32>,
        channel_id: Option<u128>,
        created_at: i64,
    },
    /// A message was posted in a direct conversation between two users.
    NewDmMessage {
        id: u128,
        content: String,
        user_id: u128,
        author_username: String,
        direct_message_id: u128,
        target_users: (u128, u128),
        created_at: i64,
    },
    /// A message was deleted; the server id travels as text.
    DeleteMessage {
        server_id: Option<i32>,
        channel_id: Option<u128>,
        direct_message: Option<u128>,
        message_id: u128,
    },
    /// A message was edited; the server id travels as text.
    UpdateMessage {
        server_id: Option<i32>,
        channel_id: Option<u128>,
        direct_message: Option<u128>,
        message_id: u128,
        new_content: String,
    },
    /// A reaction was added (`added`) or removed.
    Reaction {
        added: bool,
        message_id: u128,
        user_id: u128,
        emoji: String,
        server_id: Option<i32>,
        channel_id: Option<u128>,
    },
    /// A user joined a server.
    UserJoined { server_id: i32, member: MemberItem },
    /// A user left a server.
    UserLeft { server_id: i32, user_id: u128, member_id: u128 },
    /// A member's rank changed.
    MemberUpdated { server_id: i32, member: MemberItem },
    /// A channel was created.
    ChannelCreated { server_id: i32, channel: ChannelItem },
    /// A member was kicked.
    UserKicked { server_id: i32, user_id: u128, member_id: u128 },
    /// A user was banned; `member_id` is the membership removed, if any.
    UserBanned { server_id: i32, user_id: u128, member_id: Option<u128>, banned_until: Option<String> },
    /// A client started or stopped typing (`kind`); the server and channel
    /// are the client's own JSON values, as text.
    Typing { kind: String, server_id: String, channel_id: String, user_id: u128, username: String },
}

/// The server that an event concerns, if it names one.
pub open spec fn event_server(e: Event) -> Option<i32> {
    match e {
        Event::UserStatusChange { server_id, .. } => Some(server_id),
        Event::UserAvatarChange { server_id, .. } => Some(server_id),
        Event::UpdateChannel { server_id, .. } => Some(server_id),
        Event::NewMessage { server_id, .. } => server_id,
        Event::NewDmMessage { .. } => None,
        Event::DeleteMessage { server_id, .. } => server_id,
        Event::UpdateMessage { server_id, .. } => server_id,
        Event::Reaction { server_id, .. } => server_id,
        Event::UserJoined { server_id, .. } => Some(server_id),
        Event::UserLeft { server_id, .. } => Some(server_id),
        Event::MemberUpdated { server_id, .. } => Some(server_id),
        Event::ChannelCreated { server_id, .. } => Some(server_id),
        Event::UserKicked { server_id, .. } => Some(server_id),
        Event::UserBanned { server_id, .. } => Some(server_id),
        Event::Typing { .. } => None,
    }
}

impl Event {
    /// The server that this event concerns, if it names one.
    pub fn server(&self) -> (r: Option<i32>)
        ensures
            r == event_server(*self),
    {
        match self {
            Event::UserStatusChange { server_id, .. } => Some(*server_id),
            Event::UserAvatarChange { server_id, .. } => Some(*server_id),
            Event::UpdateChannel { server_id, .. } => Some(*server_id),
            Event::NewMessage { server_id, .. } => *server_id,
            Event::NewDmMessage { .. } => None,
            Event::DeleteMessage { server_id, .. } => *server_id,
            Event::UpdateMessage { server_id, .. } => *server_id,
            Event::Reaction { server_id, .. } => *server_id,
            Event::UserJoined { server_id, .. } => Some(*server_id),
            Event::UserLeft { server_id, .. } => Some(*server_id),
            Event::MemberUpdated { server_id, .. } => Some(*server_id),
            Event::ChannelCreated { server_id, .. } => Some(*server_id),
            Event::UserKicked { server_id, .. } => Some(*server_id),
            Event::UserBanned { server_id, .. } => Some(*server_id),
            Event::Typing { .. } => None,
        }
    }
}

} // verus!
