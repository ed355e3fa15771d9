use backend::application::dto::apperror::{bad_request, AppError};
use backend::application::dto::channel_dto::UpdateChannelRequest;
use backend::application::events::Event;
use backend::application::services::channel_service::{
    apply_channel_update, authorize_channel_delete, authorize_channel_update, channel_found, channel_updated_event,
    check_channel_access,
};
use backend::application::services::message_service::channel_message;
use backend::application::services::server_service::new_membership;
use backend::application::utils::avatar::{avatar_place_for, new_avatar_place, prepare_avatar};
use backend::infrastructure::api::middlewares::middleware::{bearer_token, check_session};
use backend::infrastructure::api::sockets::websocket::{deliver, is_auth_request, is_typing_notice, typing_notice, ServerField};
use backend::domain::models::channel;
use backend::domain::models::server_member::MemberRole;
use backend::text::{is_blank, join, to_lowercase, trim_owned, utf8_len};

fn png_of(width: u32, height: u32) -> Vec<u8> {
    let img = image::DynamicImage::ImageRgb8(image::RgbImage::new(width, height));
    let mut out = std::io::Cursor::new(Vec::new());
    img.write_to(&mut out, image::ImageFormat::Png).unwrap();
    out.into_inner()
}

fn chan() -> channel::Model {
    channel::Model { id: 5, server_id: 3, name: "general".to_string(), description: "d".to_string(), position: 0 }
}

#[test]
fn broadcasts_reach_members_of_the_named_server() {
    let servers = vec![1, 3];
    assert!(deliver(&ServerField::Int(3), &servers));
    assert!(!deliver(&ServerField::Int(2), &servers));
    assert!(deliver(&ServerField::Text("3".to_string()), &servers));
    assert!(deliver(&ServerField::Text("+1".to_string()), &servers));
    assert!(!deliver(&ServerField::Text("3a".to_string()), &servers));
    assert!(!deliver(&ServerField::Text(" 3".to_string()), &servers));
    assert!(!deliver(&ServerField::Other, &servers));
    // An integer is cut to 32 bits.
    assert!(deliver(&ServerField::Int((1i64 << 32) + 3), &servers));
    assert!(!deliver(&ServerField::Int(3), &Vec::new()));
}

#[test]
fn socket_message_kinds() {
    assert!(is_auth_request("auth"));
    assert!(!is_auth_request("Auth"));
    assert!(is_typing_notice("typing_start"));
    assert!(is_typing_notice("typing_stop"));
    assert!(!is_typing_notice("typing"));
}

#[test]
fn bearer_headers() {
    assert_eq!(bearer_token(Some("Bearer abc.def")), Ok("abc.def"));
    assert_eq!(bearer_token(Some("Bearer ")), Ok(""));
    assert_eq!(
        bearer_token(Some("bearer abc")),
        Err(AppError::Unauthorized("Invalid Authorization header format".to_string()))
    );
    assert_eq!(bearer_token(None), Err(AppError::Unauthorized("Missing Authorization header".to_string())));
    assert_eq!(check_session(false), Err(AppError::Unauthorized("Session expired or logged out".to_string())));
    assert_eq!(check_session(true), Ok(()));
}

#[test]
fn channel_updates() {
    let req = UpdateChannelRequest { name: Some("news".to_string()), description: None, position: Some(2) };
    let c = apply_channel_update(chan(), req).unwrap();
    assert_eq!(c.name, "news");
    assert_eq!(c.description, "d");
    assert_eq!(c.position, 2);
    match channel_updated_event(&c) {
        Event::UpdateChannel { server_id, channel_id, name, .. } => {
            assert_eq!(server_id, 3);
            assert_eq!(channel_id, 5);
            assert_eq!(name, "news");
        },
        other => panic!("unexpected event {:?}", other),
    }
    let blank_name = UpdateChannelRequest { name: Some(" ".to_string()), description: None, position: None };
    assert_eq!(apply_channel_update(chan(), blank_name).unwrap_err(), bad_request("Channel name cannot be empty"));
    let blank_desc = UpdateChannelRequest { name: None, description: Some("".to_string()), position: None };
    assert_eq!(
        apply_channel_update(chan(), blank_desc).unwrap_err(),
        bad_request("Channel description cannot be empty")
    );
    assert_eq!(channel_found(None).unwrap_err(), AppError::NotFound("Channel not found".to_string()));
    assert_eq!(
        check_channel_access(false),
        Err(AppError::Forbidden(
            "Access denied: You are not a member of the server containing this channel".to_string()
        ))
    );
    assert_eq!(authorize_channel_update(Some(MemberRole::Admin)), Ok(MemberRole::Admin));
    assert_eq!(
        authorize_channel_update(Some(MemberRole::Member)),
        Err(AppError::Forbidden("Insufficient permissions: Only Owner or Admin can update channels".to_string()))
    );
    assert_eq!(
        authorize_channel_update(None),
        Err(AppError::Forbidden("Not a member of the server".to_string()))
    );
    assert_eq!(
        authorize_channel_delete(None),
        Err(AppError::Forbidden("You are not a member of this server".to_string()))
    );
    assert_eq!(
        authorize_channel_delete(Some(MemberRole::Member)),
        Err(AppError::Forbidden("Only owners and admins can delete a channel".to_string()))
    );
}

#[test]
fn avatars_are_checked_and_shrunk() {
    assert_eq!(prepare_avatar(&[]), Err(AppError::BadRequest("Image size invalid (max 5MB)".to_string())));
    assert_eq!(prepare_avatar(b"not an image"), Err(AppError::BadRequest("Invalid image format".to_string())));
    let big = vec![0u8; 5 * 1024 * 1024 + 1];
    assert_eq!(prepare_avatar(&big), Err(AppError::BadRequest("Image size invalid (max 5MB)".to_string())));

    let small = prepare_avatar(&png_of(100, 50)).unwrap();
    let back = image::load_from_memory(&small).unwrap();
    assert_eq!((back.width(), back.height()), (100, 50));

    let large = prepare_avatar(&png_of(1024, 256)).unwrap();
    let back = image::load_from_memory(&large).unwrap();
    assert_eq!((back.width(), back.height()), (512, 128));
    assert_eq!(image::guess_format(&large).unwrap(), image::ImageFormat::Png);
}

#[test]
fn avatar_places() {
    let p = avatar_place_for(0x67e5_5044_10b1_426f_9247_bb68_0e5f_e0c8);
    assert_eq!(p.file_path, "./uploads/avatars/avatar_67e55044-10b1-426f-9247-bb680e5fe0c8.png");
    assert_eq!(p.url, "/uploads/avatars/avatar_67e55044-10b1-426f-9247-bb680e5fe0c8.png");
    let q = new_avatar_place();
    assert!(q.url.starts_with("/uploads/avatars/avatar_"));
    assert!(q.file_path.ends_with(".png"));
    assert_eq!(q.url.len(), "/uploads/avatars/avatar_".len() + 36 + 4);
}

#[test]
fn text_helpers() {
    assert!(is_blank(" \t\n"));
    assert!(is_blank(""));
    assert!(!is_blank(" a "));
    assert_eq!(trim_owned("  a b  "), "a b");
    assert_eq!(to_lowercase("AdMiN"), "admin");
    assert_eq!(utf8_len("é"), 2);
    assert_eq!(join("a", "b"), "ab");
}

#[test]
fn fresh_ids_and_clock_readings() {
    let before = chrono::Utc::now().timestamp_micros();
    let m = channel_message(5, 3, 10, "hi".to_string());
    let after = chrono::Utc::now().timestamp_micros();
    assert!(before <= m.created_at && m.created_at <= after);
    assert_eq!(uuid::Uuid::from_u128(m.id).get_version_num(), 4);
    let a = new_membership(3, 10, MemberRole::Member);
    let b = new_membership(3, 10, MemberRole::Member);
    assert_ne!(a.id, b.id);
    assert_eq!(uuid::Uuid::from_u128(a.id).get_version_num(), 4);
}

#[test]
fn typing_notices_carry_the_session_identity() {
    let name = "alice".to_string();
    match typing_notice("typing_start", 10, &name, "3".to_string(), "\"c\"".to_string()) {
        Some(Event::Typing { kind, server_id, channel_id, user_id, username }) => {
            assert_eq!(kind, "typing_start");
            assert_eq!(server_id, "3");
            assert_eq!(channel_id, "\"c\"");
            assert_eq!(user_id, 10);
            assert_eq!(username, "alice");
        },
        other => panic!("unexpected notice {:?}", other),
    }
    assert!(typing_notice("chat", 10, &name, "3".to_string(), "null".to_string()).is_none());
    assert!(Event::Typing {
        kind: "typing_stop".to_string(),
        server_id: "3".to_string(),
        channel_id: "null".to_string(),
        user_id: 1,
        username: String::new(),
    }
    .server()
    .is_none());
}

#[test]
fn large_avatars_are_scaled_in_proportion() {
    let tall = prepare_avatar(&png_of(300, 900)).unwrap();
    let back = image::load_from_memory(&tall).unwrap();
    assert_eq!((back.width(), back.height()), (171, 512));
    let exact = prepare_avatar(&png_of(512, 512)).unwrap();
    let back = image::load_from_memory(&exact).unwrap();
    assert_eq!((back.width(), back.height()), (512, 512));
}
