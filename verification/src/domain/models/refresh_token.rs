//! A row of the refresh tokens table: an open session.
use vstd::prelude::*;

verus! {

/// A session token of a user; times in microseconds since the Unix epoch.
#[derive(Debug)]
pub struct Model {
    pub id: u128,
    pub token: String,
    pub user_id: u128,
    pub expires_at: i64,
    pub created_at: i64,
}

} // verus!
