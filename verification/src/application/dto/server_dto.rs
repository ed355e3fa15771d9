//! Requests and answers about servers and their members.
use vstd::prelude::*;
use crate::application::dto::channel_dto::ChannelItem;

verus! {

#[derive(Debug)]
pub struct CreateServerRequest {
    pub name: String,
    pub description: String,
    pub icon_url: Option<String>,
}

#[derive(Debug)]
pub struct CreateServerResponse {
    pub id: i32,
    pub name: String,
    pub description: String,
    pub icon_url: Option<String>,
    pub invitcode: i32,
    pub owner_id: u128,
    pub channels: Vec<ChannelItem>,
}

/// A server with its channels, its members and the ids of its admins.
#[derive(Debug)]
pub struct ServerItem {
    pub id: i32,
    pub name: String,
    pub description: String,
    pub icon_url: Option<String>,
    pub owner_id: u128,
    pub admins: Vec<u128>,
    pub invitcode: i32,
    pub channels: Vec<ChannelItem>,
    pub members: Vec<MemberItem>,
}

#[derive(Debug)]
pub struct GetServerResponse {
    pub server_list: Vec<ServerItem>,
}

#[derive(Debug)]
pub struct GetServerIdResponse {
    pub server: ServerItem,
}

/// The fields of a server to change; `None` leaves a field as it is.
#[derive(Debug)]
pub struct UpdateServerRequest {
    pub id: i32,
    pub name: Option<String>,
    pub description: Option<String>,
    pub icon_url: Option<String>,
}

/// The fields that a request changed, with their new values.
#[derive(Debug)]
pub struct UpdateServerResponse {
    pub id: i32,
    pub new_name: Option<String>,
    pub new_description: Option<String>,
    pub new_icon_url: Option<String>,
}

#[derive(Debug)]
pub struct JoinServerResponse {
    pub server: ServerItem,
}

#[derive(Debug)]
pub struct JoinServerRequest {
    pub invitcode: i32,
}

/// A member of a server as clients see it: membership, user and rank.
#[derive(Debug)]
pub struct MemberItem {
    pub id: u128,
    pub user_id: u128,
    pub username: String,
    pub display_name: Option<String>,
    pub avatar_url: Option<String>,
    pub role: String,
    pub status: String,
}

#[derive(Debug)]
pub struct GetServerMemberResponse {
    pub members: Vec<MemberItem>,
}

#[derive(Debug)]
pub struct UpdateMemberRequest {
    pub new_role: String,
}

#[derive(Debug)]
pub struct UpdateMemberResponse {
    pub id: u128,
    pub new_user: MemberItem,
}

#[derive(Debug)]
pub struct CreateChannelRequest {
    pub name: String,
    pub description: String,
}

#[derive(Debug)]
pub struct GetChannelsResponse {
    pub channels: Vec<ChannelItem>,
}

/// The length of a ban in seconds; `None` bans for ever.
#[derive(Debug)]
pub struct BanUserRequest {
    pub duration: Option<i32>,
}

} // verus!
