//! A row of the messages table; times are microseconds since the Unix epoch.
use vstd::prelude::*;

verus! {

/// A message, posted either in a channel of a server or in a direct conversation.
#[derive(Debug)]
pub struct Model {
    pub id: u128,
    pub content: String,
    pub user_id: u128,
    pub server_id: Option<i32>,
    pub channel_id: Option<u128>,
    pub direct_message: Option<u128>,
    pub created_at: i64,
}

} // verus!
