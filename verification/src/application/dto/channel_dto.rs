//! Requests and answers about channels.
use vstd::prelude::*;
use crate::domain::models::channel;

verus! {

/// A channel as clients see it.
#[derive(Debug)]
pub struct ChannelItem {
    pub id: u128,
    pub server_id: i32,
    pub name: String,
    pub description: String,
    pub position: i32,
}

/// The client's view of a channel row.
pub open spec fn channel_item(c: channel::Model) -> ChannelItem {
    ChannelItem {
        id: c.id,
        server_id: c.server_id,
        name: c.name,
        description: c.description,
        position: c.position,
    }
}

/// The client's view of a channel row.
pub fn to_channel_item(c: &channel::Model) -> (r: ChannelItem)
    ensures
        r == channel_item(*c),
{
    ChannelItem {
        id: c.id,
        server_id: c.server_id,
        name: c.name.clone(),
        description: c.description.clone(),
        position: c.position,
    }
}

#[derive(Debug)]
pub struct GetChannelResponse {
    pub channel: ChannelItem,
}

/// The fields of a channel to change; `None` leaves a field as it is.
#[derive(Debug)]
pub struct UpdateChannelRequest {
    pub name: Option<String>,
    pub description: Option<String>,
    pub position: Option<i32>,
}

#[derive(Debug)]
pub struct UpdateChannelResponse {
    pub channel: ChannelItem,
}

/// A typing notice; the server is named by a UUID here.
#[derive(Debug)]
pub struct TypingEvent {
    pub server_id: u128,
}

} // verus!
