//! A row of the server members table: a user's place in a server.
use vstd::prelude::*;

verus! {

/// The rank of a member in a server.
#[derive(Debug, Clone, Copy, PartialEq, Eq, Structural)]
pub enum MemberRole {
    Owner,
    Admin,
    Member,
}

/// A membership; at most one per (server, user).
#[derive(Debug, Clone, Copy)]
pub struct Model {
    pub id: u128,
    pub server_id: i32,
    pub user_id: u128,
    pub role: MemberRole,
}

/// The owner and the admins manage a server.
pub open spec fn manages(r: MemberRole) -> bool {
    r == MemberRole::Owner || r == MemberRole::Admin
}

/// Whether the role manages its server (owner or admin).
pub fn is_manager(r: MemberRole) -> (b: bool)
    ensures
        b == manages(r),
{
    r == MemberRole::Owner || r == MemberRole::Admin
}

/// The name of a role variant, as `{:?}` prints it.
pub open spec fn role_name(r: MemberRole) -> Seq<char> {
    match r {
        MemberRole::Owner => "Owner"@,
        MemberRole::Admin => "Admin"@,
        MemberRole::Member => "Member"@,
    }
}

/// The name of a role variant, as `{:?}` prints it.
pub fn role_label(r: MemberRole) -> (s: String)
    ensures
        s@ == role_name(r),
{
    match r {
        MemberRole::Owner => "Owner".to_owned(),
        MemberRole::Admin => "Admin".to_owned(),
        MemberRole::Member => "Member".to_owned(),
    }
}

} // verus!
