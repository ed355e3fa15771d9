//! A row of the users table.
use vstd::prelude::*;

verus! {

/// Presence of a user as the others see it.
#[derive(Debug, Clone, Copy, PartialEq, Eq, Structural)]
pub enum UserStatus {
    Online,
    Offline,
    Invisible,
}

/// A registered user; ids are the 128-bit values of UUIDs.
#[derive(Debug)]
pub struct Model {
    pub id: u128,
    pub username: String,
    pub password_hash: String,
    pub display_name: Option<String>,
    pub avatar_url: Option<String>,
    pub status: UserStatus,
}

/// The name of a status variant, as `{:?}` prints it.
pub open spec fn status_name(s: UserStatus) -> Seq<char> {
    match s {
        UserStatus::Online => "Online"@,
        UserStatus::Offline => "Offline"@,
        UserStatus::Invisible => "Invisible"@,
    }
}

/// The name of a status variant, as `{:?}` prints it.
pub fn status_label(s: UserStatus) -> (r: String)
    ensures
        r@ == status_name(s),
{
    match s {
        UserStatus::Online => "Online".to_owned(),
        UserStatus::Offline => "Offline".to_owned(),
        UserStatus::Invisible => "Invisible".to_owned(),
    }
}

} // verus!
