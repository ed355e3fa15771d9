use backend::application::dto::apperror::AppError;
use backend::application::dto::server_dto::JoinServerRequest;
use backend::application::dto::token_dto::Claims;
use backend::application::events::Event;
use backend::application::services::server_service::{
    ban_outcome, join_outcome_at, kick_outcome, rank_change_outcome,
};
use backend::domain::models::server_member::{self, MemberRole};
use backend::domain::models::user::UserStatus;
use backend::domain::models::{server_ban, server_model};
use backend::infrastructure::api::sockets::websocket::{
    auth_step, handshake, relay_frame, route_broadcast, session_presence, AuthStep, Handshake,
};

fn object(pairs: Vec<(&str, serde_json::Value)>) -> serde_json::Value {
    let mut m = serde_json::Map::new();
    for (k, v) in pairs {
        m.insert(k.to_string(), v);
    }
    serde_json::Value::Object(m)
}

fn server(code: i32) -> server_model::Model {
    server_model::Model {
        id: 3,
        name: "s".to_string(),
        description: "d".to_string(),
        icon_url: None,
        owner_id: 10,
        invitcode: code,
    }
}

fn member(id: u128, user_id: u128, role: MemberRole) -> server_member::Model {
    server_member::Model { id, server_id: 3, user_id, role }
}

fn ban(until: Option<i64>) -> server_ban::Model {
    server_ban::Model { id: 77, server_id: 3, user_id: 20, banned_by: 10, banned_until: until }
}

#[test]
fn broadcasts_are_routed_by_their_server_field() {
    let servers = vec![3];
    let as_int = object(vec![("type", "x".into()), ("data", object(vec![("server_id", 3.into())]))]).to_string();
    let as_text = object(vec![("data", object(vec![("server_id", "3".into())]))]).to_string();
    let other = object(vec![("data", object(vec![("server_id", 4.into())]))]).to_string();
    let missing = object(vec![("data", object(vec![]))]).to_string();
    assert!(route_broadcast(&as_int, &servers));
    assert!(route_broadcast(&as_text, &servers));
    assert!(!route_broadcast(&other, &servers));
    assert!(!route_broadcast(&missing, &servers));
    assert!(!route_broadcast("not json", &servers));
}

#[test]
fn sessions_open_with_an_auth_frame() {
    let frame = object(vec![("type", "auth".into()), ("token", "abc".into())]).to_string();
    assert!(matches!(auth_step(&frame), AuthStep::Check(t) if t == "abc"));
    let other = object(vec![("type", "hello".into()), ("token", "abc".into())]).to_string();
    assert!(matches!(auth_step(&other), AuthStep::Skip));
    let no_token = object(vec![("type", "auth".into())]).to_string();
    assert!(matches!(auth_step(&no_token), AuthStep::Skip));
    assert!(matches!(auth_step("{"), AuthStep::Skip));
}

#[test]
fn handshake_replies() {
    let id = 0x67e5_5044_10b1_426f_9247_bb68_0e5f_e0c8u128;
    let claims = Claims { sub: id, username: "alice".to_string(), exp: 2, iat: 1 };
    match handshake(Ok(claims)) {
        Handshake::Accept { user_id, username, reply } => {
            assert_eq!(user_id, id);
            assert_eq!(username, "alice");
            let expected = object(vec![
                ("type", "auth_success".into()),
                ("data", object(vec![("user_id", uuid::Uuid::from_u128(id).to_string().into())])),
            ]);
            assert_eq!(reply, expected.to_string());
        },
        other => panic!("unexpected {:?}", other),
    }
    match handshake(Err(AppError::InternalServerError("InvalidSignature".to_string()))) {
        Handshake::Refuse { reply } => {
            assert_eq!(reply, object(vec![("error", "Invalid token".into())]).to_string());
        },
        other => panic!("unexpected {:?}", other),
    }
}

#[test]
fn typing_frames_are_relayed_in_the_session_name() {
    let name = "alice".to_string();
    let frame = object(vec![
        ("type", "typing_start".into()),
        ("server_id", 3.into()),
        ("user_id", "someone-else".into()),
    ])
    .to_string();
    match relay_frame(&frame, 10, &name) {
        Some(Event::Typing { kind, server_id, channel_id, user_id, username }) => {
            assert_eq!(kind, "typing_start");
            assert_eq!(server_id, "3");
            assert_eq!(channel_id, "null");
            assert_eq!(user_id, 10);
            assert_eq!(username, "alice");
        },
        other => panic!("unexpected {:?}", other),
    }
    let chat = object(vec![("type", "chat".into())]).to_string();
    assert!(relay_frame(&chat, 10, &name).is_none());
    assert!(relay_frame("nope", 10, &name).is_none());
    assert_eq!(session_presence(true), (UserStatus::Online, "online"));
    assert_eq!(session_presence(false), (UserStatus::Offline, "offline"));
}

#[test]
fn joins_are_decided_in_order() {
    let req = JoinServerRequest { invitcode: 1234 };
    let r = join_outcome_at(None, Some(ban(None)), true, &req, 100);
    assert_eq!(r.result.unwrap_err(), AppError::NotFound("Server not found".to_string()));
    assert_eq!(r.lift, None);
    let r = join_outcome_at(Some(server(1234)), Some(ban(Some(200))), false, &req, 100);
    assert_eq!(r.result.unwrap_err(), AppError::Forbidden("You are temporarily banned from this server".to_string()));
    let r = join_outcome_at(Some(server(1234)), Some(ban(Some(50))), true, &req, 100);
    assert_eq!(r.lift, Some(77));
    assert_eq!(r.result.unwrap_err(), AppError::BadRequest("Already a member of this server".to_string()));
    let r = join_outcome_at(Some(server(9)), None, false, &req, 100);
    assert_eq!(r.result.unwrap_err(), AppError::BadRequest("Invalid invitation code".to_string()));
    let r = join_outcome_at(Some(server(1234)), None, false, &req, 100);
    assert_eq!(r.result.unwrap().id, 3);
}

#[test]
fn moderation_is_decided_from_both_memberships() {
    let owner = Some(member(1, 10, MemberRole::Owner));
    let plain = Some(member(2, 20, MemberRole::Member));
    assert_eq!(
        kick_outcome(None, plain, 10, 20).unwrap_err(),
        AppError::Forbidden("Not a member of this server".to_string())
    );
    assert_eq!(
        kick_outcome(plain, owner, 20, 10).unwrap_err(),
        AppError::Forbidden("Only Owner or Admin can kick users".to_string())
    );
    assert_eq!(kick_outcome(owner, plain, 10, 20).unwrap().id, 2);
    assert_eq!(
        ban_outcome(plain, None, 20, 30).unwrap_err(),
        AppError::Forbidden("Only Owner or Admin can ban users".to_string())
    );
    assert!(ban_outcome(owner, None, 10, 30).unwrap().is_none());
    assert_eq!(
        rank_change_outcome(plain, owner, 20, 10, "admin").unwrap_err(),
        AppError::Forbidden("Only the owner can update member roles".to_string())
    );
    let (plan, role) = rank_change_outcome(owner, plain, 10, 20, "OWNER").unwrap();
    assert_eq!(role, MemberRole::Owner);
    assert_eq!(plan.new_owner, Some(20));
    assert_eq!(plan.demoted.unwrap().role, MemberRole::Admin);
}
