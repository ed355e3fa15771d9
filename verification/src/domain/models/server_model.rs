//! A row of the servers table.
use vstd::prelude::*;

verus! {

/// A community server; its id is given by the database.
#[derive(Debug)]
pub struct Model {
    pub id: i32,
    pub name: String,
    pub description: String,
    pub icon_url: Option<String>,
    pub owner_id: u128,
    pub invitcode: i32,
}

} // verus!
