//! Requests and answers about messages; times are microseconds since the Unix epoch.
use vstd::prelude::*;

verus! {

#[derive(Debug)]
pub struct SendMessageRequest {
    pub content: String,
    pub server_id: Option<i32>,
    pub target_id: Option<u128>,
}

/// The users who put one emoji on a message.
#[derive(Debug)]
pub struct ReactionItem {
    pub emoji: String,
    pub user_ids: Vec<u128>,
}

/// A message as clients see it.
#[derive(Debug)]
pub struct MessageItem {
    pub id: u128,
    pub content: String,
    pub user_id: u128,
    pub author: String,
    pub channel_id: Option<u128>,
    pub direct_message_id: Option<u128>,
    pub server_id: Option<i32>,
    pub created_at: i64,
    pub reactions: Vec<ReactionItem>,
}

#[derive(Debug)]
pub struct GetMessagesResponse {
    pub message_list: Vec<MessageItem>,
}

#[derive(Debug)]
pub struct UpdateMessageRequest {
    pub new_content: String,
}

#[derive(Debug)]
pub struct UpdateMessageResponse {
    pub new_message: MessageItem,
}

#[derive(Debug)]
pub struct ToggleReactionRequest {
    pub emoji: String,
}

/// A direct conversation with the names of both users.
#[derive(Debug)]
pub struct DmItem {
    pub id: u128,
    pub user1: u128,
    pub user2: u128,
    pub user1_username: String,
    pub user2_username: String,
}

#[derive(Debug)]
pub struct GetDMSresponse {
    pub dm_list: Vec<DmItem>,
}

} // verus!
