//! A row of the message reactions table; at most one per (message, user, emoji).
use vstd::prelude::*;

verus! {

/// An emoji that a user put on a message.
#[derive(Debug)]
pub struct Model {
    pub id: u128,
    pub message_id: u128,
    pub user_id: u128,
    pub emoji: String,
    pub created_at: i64,
}

} // verus!
