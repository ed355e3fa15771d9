//! A row of the channels table.
use vstd::prelude::*;

verus! {

/// A text channel of a server.
#[derive(Debug)]
pub struct Model {
    pub id: u128,
    pub server_id: i32,
    pub name: String,
    pub description: String,
    pub position: i32,
}

} // verus!
