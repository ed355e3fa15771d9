//! A row of the server bans table.
use vstd::prelude::*;

verus! {

/// A ban of a user from a server, permanent when `banned_until` is `None`
/// (microseconds since the Unix epoch otherwise).
#[derive(Debug, Clone, Copy)]
pub struct Model {
    pub id: u128,
    pub server_id: i32,
    pub user_id: u128,
    pub banned_by: u128,
    pub banned_until: Option<i64>,
}

} // verus!
