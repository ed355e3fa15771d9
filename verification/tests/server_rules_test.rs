use backend::application::dto::apperror::AppError;
use backend::application::dto::server_dto::{
    CreateChannelRequest, CreateServerRequest, JoinServerRequest, UpdateServerRequest,
};
use backend::application::services::server_service::{
    apply_server_update, authorize_ban, authorize_channel_creation, authorize_kick, authorize_rank_change,
    authorize_server_delete, authorize_server_update, check_ban_at, check_ban_target, check_join, check_kick,
    check_leave, check_new_server, check_rank_change, check_server_member, check_server_visible, created_server, default_channel,
    hand_over, invite_code_of, plan_rank_change, new_ban_at, new_channel, new_membership, new_server, parse_role, rank_change_answer,
    set_role, updated_server_answer, BanCheck,
};
use backend::domain::models::server_member::{self, MemberRole};
use backend::domain::models::user::{self, UserStatus};
use backend::domain::models::{server_ban, server_model};

fn bad(m: &str) -> AppError {
    AppError::BadRequest(m.to_string())
}

fn forbidden(m: &str) -> AppError {
    AppError::Forbidden(m.to_string())
}

fn create(name: &str, description: &str) -> CreateServerRequest {
    CreateServerRequest { name: name.to_string(), description: description.to_string(), icon_url: None }
}

fn server(code: i32) -> server_model::Model {
    server_model::Model {
        id: 3,
        name: "Rustaceans".to_string(),
        description: "Talk about Rust".to_string(),
        icon_url: None,
        owner_id: 10,
        invitcode: code,
    }
}

fn member(id: u128, user_id: u128, role: MemberRole) -> server_member::Model {
    server_member::Model { id, server_id: 3, user_id, role }
}

fn ban(until: Option<i64>) -> server_ban::Model {
    server_ban::Model { id: 77, server_id: 3, user_id: 20, banned_by: 10, banned_until: until }
}

#[test]
fn new_server_requests_are_checked_in_order() {
    assert_eq!(check_new_server(true, &create("", "")), Err(bad("Server's name already in use")));
    assert_eq!(check_new_server(false, &create("   ", "d")), Err(bad("Server name cannot be empty")));
    assert_eq!(check_new_server(false, &create("abcdefghijklmnopqrstu", "d")), Err(bad("Server name too long")));
    assert_eq!(check_new_server(false, &create("ok", " \t")), Err(bad("Description required")));
    assert_eq!(check_new_server(false, &create("abcdefghijklmnopqrst", "d")), Ok(()));
}

#[test]
fn server_name_limit_counts_bytes() {
    // Ten two-byte letters make twenty bytes; eleven make twenty-two.
    assert_eq!(check_new_server(false, &create("éééééééééé", "d")), Ok(()));
    assert_eq!(check_new_server(false, &create("ééééééééééé", "d")), Err(bad("Server name too long")));
}

#[test]
fn invite_codes_keep_four_digits() {
    assert_eq!(invite_code_of(123_456_789), 6789);
    assert_eq!(invite_code_of(42), 42);
    assert_eq!(invite_code_of(u128::MAX), (u128::MAX % 10000) as i32);
}

#[test]
fn created_server_is_owned_by_requester_with_general_channel() {
    let n = new_server(create("Rustaceans", "Talk"), 10);
    assert_eq!(n.name, "Rustaceans");
    assert_eq!(n.owner_id, 10);
    assert!(0 <= n.invitcode && n.invitcode < 10000);

    let owner = new_membership(3, 10, MemberRole::Owner);
    assert_eq!(owner.role, MemberRole::Owner);
    assert_eq!(owner.user_id, 10);
    assert_ne!(owner.id, 0);

    let general = default_channel(3);
    assert_eq!(general.name, "general");
    assert_eq!(general.description, "General discussion");
    assert_eq!(general.position, 0);

    let answer = created_server(server(1234), 1234, &general);
    assert_eq!(answer.id, 3);
    assert_eq!(answer.invitcode, 1234);
    assert_eq!(answer.channels.len(), 1);
    assert_eq!(answer.channels[0].id, general.id);
    assert_eq!(answer.channels[0].name, "general");
}

#[test]
fn server_update_trims_and_keeps_what_is_not_named() {
    let req = UpdateServerRequest {
        id: 3,
        name: Some("  New name  ".to_string()),
        description: None,
        icon_url: Some("/i.png".to_string()),
    };
    let s = apply_server_update(server(1), req).unwrap();
    assert_eq!(s.name, "New name");
    assert_eq!(s.description, "Talk about Rust");
    assert_eq!(s.icon_url, Some("/i.png".to_string()));
    assert_eq!(s.owner_id, 10);

    let answer = updated_server_answer(s, true, false, true);
    assert_eq!(answer.new_name, Some("New name".to_string()));
    assert_eq!(answer.new_description, None);
    assert_eq!(answer.new_icon_url, Some("/i.png".to_string()));
}

#[test]
fn server_update_refusals() {
    let blank = UpdateServerRequest { id: 3, name: Some(" ".to_string()), description: None, icon_url: None };
    assert_eq!(apply_server_update(server(1), blank).unwrap_err(), bad("Server name cannot be empty"));
    let long = UpdateServerRequest { id: 3, name: Some("x".repeat(21)), description: None, icon_url: None };
    assert_eq!(apply_server_update(server(1), long).unwrap_err(), bad("Server name too long (max 20 characters)"));
    let desc = UpdateServerRequest { id: 3, name: None, description: Some("\n".to_string()), icon_url: None };
    assert_eq!(apply_server_update(server(1), desc).unwrap_err(), bad("Description cannot be empty"));
}

#[test]
fn bans_refuse_joins_while_they_hold() {
    assert_eq!(check_ban_at(None, 100), Ok(BanCheck::Clear));
    assert_eq!(check_ban_at(Some(ban(Some(200))), 100), Err(forbidden("You are temporarily banned from this server")));
    assert_eq!(check_ban_at(Some(ban(Some(100))), 100), Ok(BanCheck::Lift(77)));
    assert_eq!(check_ban_at(Some(ban(None)), 100), Err(forbidden("You are permanently banned from this server")));
}

#[test]
fn joins_need_the_code_and_no_membership() {
    let s = server(4321);
    assert_eq!(check_join(true, &JoinServerRequest { invitcode: 4321 }, &s), Err(bad("Already a member of this server")));
    assert_eq!(check_join(false, &JoinServerRequest { invitcode: 1 }, &s), Err(bad("Invalid invitation code")));
    assert_eq!(check_join(false, &JoinServerRequest { invitcode: 4321 }, &s), Ok(()));
}

#[test]
fn owners_cannot_leave() {
    assert_eq!(check_leave(None).unwrap_err(), forbidden("Not a member of this server"));
    assert_eq!(
        check_leave(Some(member(1, 10, MemberRole::Owner))).unwrap_err(),
        forbidden("Owner cannot leave server. Delete the server instead")
    );
    assert_eq!(check_leave(Some(member(2, 20, MemberRole::Admin))).unwrap().id, 2);
}

#[test]
fn roles_parse_without_regard_to_case() {
    assert_eq!(parse_role("ADMIN"), Some(MemberRole::Admin));
    assert_eq!(parse_role("Member"), Some(MemberRole::Member));
    assert_eq!(parse_role("owner"), Some(MemberRole::Owner));
    assert_eq!(parse_role("moderator"), None);
    assert_eq!(parse_role(" admin"), None);
}

#[test]
fn rank_changes_are_checked() {
    assert_eq!(check_rank_change(None, 10, 20, "admin").unwrap_err(), bad("User is not a member of this server"));
    assert_eq!(
        check_rank_change(Some(member(1, 10, MemberRole::Owner)), 10, 10, "admin").unwrap_err(),
        forbidden("Cannot modify your own role")
    );
    assert_eq!(
        check_rank_change(Some(member(2, 20, MemberRole::Member)), 10, 20, "boss").unwrap_err(),
        forbidden("Invalid role. Use 'admin', 'member', or 'owner'")
    );
    let (m, r) = check_rank_change(Some(member(2, 20, MemberRole::Member)), 10, 20, "Admin").unwrap();
    assert_eq!(m.id, 2);
    assert_eq!(r, MemberRole::Admin);
}

#[test]
fn hand_over_makes_target_owner() {
    let s = hand_over(server(1), 20);
    assert_eq!(s.owner_id, 20);
    assert_eq!(s.id, 3);
    let old = set_role(member(1, 10, MemberRole::Owner), MemberRole::Admin);
    let new = set_role(member(2, 20, MemberRole::Member), MemberRole::Owner);
    assert_eq!(old.role, MemberRole::Admin);
    assert_eq!(new.role, MemberRole::Owner);
    assert_eq!(new.id, 2);

    let u = user::Model {
        id: 20,
        username: "bob".to_string(),
        password_hash: String::new(),
        display_name: Some("Bob".to_string()),
        avatar_url: None,
        status: UserStatus::Online,
    };
    let answer = rank_change_answer(&new, &u, MemberRole::Owner);
    assert_eq!(answer.id, 2);
    assert_eq!(answer.new_user.role, "Owner");
    assert_eq!(answer.new_user.status, "Online");
    assert_eq!(answer.new_user.username, "bob");
}

#[test]
fn kicks_spare_owner_admins_and_self() {
    assert_eq!(
        check_kick(MemberRole::Owner, None, 10, 20).unwrap_err(),
        bad("Target user is not a member of this server")
    );
    assert_eq!(
        check_kick(MemberRole::Admin, Some(member(1, 10, MemberRole::Owner)), 20, 10).unwrap_err(),
        forbidden("Cannot kick the server owner")
    );
    assert_eq!(
        check_kick(MemberRole::Admin, Some(member(3, 30, MemberRole::Admin)), 20, 30).unwrap_err(),
        forbidden("Admins cannot kick other admins")
    );
    assert_eq!(
        check_kick(MemberRole::Admin, Some(member(2, 20, MemberRole::Admin)), 20, 20).unwrap_err(),
        forbidden("Admins cannot kick other admins")
    );
    assert_eq!(
        check_kick(MemberRole::Owner, Some(member(3, 30, MemberRole::Member)), 30, 30).unwrap_err(),
        bad("Cannot kick yourself. Use leave instead")
    );
    assert_eq!(check_kick(MemberRole::Owner, Some(member(3, 30, MemberRole::Admin)), 10, 30).unwrap().id, 3);
}

#[test]
fn bans_spare_owner_admins_and_self() {
    assert_eq!(check_ban_target(MemberRole::Owner, None, 10, 10).unwrap_err(), bad("Cannot ban yourself"));
    assert!(check_ban_target(MemberRole::Admin, None, 20, 99).unwrap().is_none());
    assert_eq!(
        check_ban_target(MemberRole::Admin, Some(member(1, 10, MemberRole::Owner)), 20, 10).unwrap_err(),
        forbidden("Cannot ban the server owner")
    );
    assert_eq!(
        check_ban_target(MemberRole::Admin, Some(member(3, 30, MemberRole::Admin)), 20, 30).unwrap_err(),
        forbidden("Admins cannot ban other admins")
    );
    assert_eq!(
        check_ban_target(MemberRole::Owner, Some(member(3, 30, MemberRole::Admin)), 10, 30).unwrap().unwrap().id,
        3
    );
}

#[test]
fn ban_ends_after_its_duration() {
    let b = new_ban_at(3, 20, 10, Some(3600), 1_000_000);
    assert_eq!(b.banned_until, Some(1_000_000 + 3_600_000_000));
    assert_eq!(b.user_id, 20);
    assert_eq!(b.banned_by, 10);
    let forever = new_ban_at(3, 20, 10, None, 1_000_000);
    assert_eq!(forever.banned_until, None);
    // The ban keeps the user out until it ends, and not after.
    assert!(check_ban_at(Some(b), 1_000_000 + 3_599_999_999).is_err());
    assert_eq!(check_ban_at(Some(b), 1_000_000 + 3_600_000_000), Ok(BanCheck::Lift(b.id)));
}

#[test]
fn channels_need_a_name() {
    let bad_req = CreateChannelRequest { name: "  ".to_string(), description: "d".to_string() };
    assert_eq!(new_channel(3, bad_req).unwrap_err(), bad("Channel name cannot be empty"));
    let c = new_channel(3, CreateChannelRequest { name: "random".to_string(), description: String::new() }).unwrap();
    assert_eq!(c.server_id, 3);
    assert_eq!(c.name, "random");
    assert_eq!(c.position, 0);
}

#[test]
fn ranks_gate_server_operations() {
    let outsider = forbidden("Not a member of this server");
    assert_eq!(authorize_server_update(None).unwrap_err(), outsider);
    assert_eq!(authorize_server_update(Some(MemberRole::Admin)), Ok(MemberRole::Admin));
    assert_eq!(
        authorize_server_update(Some(MemberRole::Member)).unwrap_err(),
        forbidden("Only owners and admins can update server")
    );
    assert_eq!(authorize_server_delete(Some(MemberRole::Admin)).unwrap_err(), forbidden("Only owners can delete server"));
    assert_eq!(authorize_server_delete(Some(MemberRole::Owner)), Ok(MemberRole::Owner));
    assert_eq!(
        authorize_rank_change(Some(MemberRole::Admin)).unwrap_err(),
        forbidden("Only the owner can update member roles")
    );
    assert_eq!(
        authorize_channel_creation(Some(MemberRole::Member)).unwrap_err(),
        bad("Only Owner or Admin can create channels")
    );
    assert_eq!(authorize_channel_creation(Some(MemberRole::Member)).unwrap_err().status_code(), 400);
    assert_eq!(authorize_channel_creation(None).unwrap_err(), outsider);
    assert_eq!(authorize_channel_creation(Some(MemberRole::Admin)), Ok(MemberRole::Admin));
    assert_eq!(authorize_kick(Some(MemberRole::Member)).unwrap_err(), forbidden("Only Owner or Admin can kick users"));
    assert_eq!(authorize_ban(Some(MemberRole::Member)).unwrap_err(), forbidden("Only Owner or Admin can ban users"));
    assert_eq!(authorize_ban(Some(MemberRole::Owner)), Ok(MemberRole::Owner));
    assert_eq!(check_server_member(false).unwrap_err(), outsider);
    assert_eq!(check_server_member(true), Ok(()));
    // A server read by a non-member is not found.
    assert_eq!(check_server_visible(false), Err(AppError::NotFound("Not a member of this server".to_string())));
    assert_eq!(check_server_visible(false).unwrap_err().status_code(), 404);
    assert_eq!(check_server_visible(true), Ok(()));
}

#[test]
fn rank_plans_hand_over_only_for_owner() {
    let p = plan_rank_change(member(1, 10, MemberRole::Owner), member(2, 20, MemberRole::Member), MemberRole::Owner);
    assert_eq!(p.new_owner, Some(20));
    assert_eq!(p.demoted.unwrap().role, MemberRole::Admin);
    assert_eq!(p.demoted.unwrap().id, 1);
    assert_eq!(p.target.role, MemberRole::Owner);
    assert_eq!(p.target.id, 2);
    let q = plan_rank_change(member(1, 10, MemberRole::Owner), member(2, 20, MemberRole::Member), MemberRole::Admin);
    assert!(q.new_owner.is_none());
    assert!(q.demoted.is_none());
    assert_eq!(q.target.role, MemberRole::Admin);
}
