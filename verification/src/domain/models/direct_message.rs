//! A row of the direct messages table: the room of a conversation between two users.
use vstd::prelude::*;

verus! {

/// A private conversation between two users.
#[derive(Debug)]
pub struct Model {
    pub id: u128,
    pub user1_id: u128,
    pub user2_id: u128,
    pub content: String,
    pub created_at: i64,
}

} // verus!
