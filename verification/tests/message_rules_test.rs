use backend::application::dto::apperror::AppError;
use backend::application::events::Event;
use backend::application::services::message_service::{
    apply_edit, author_found, author_name, check_channel_server, check_content, check_delete_access,
    check_delete_permission, check_delete_rank, check_emoji, check_poster, choose_room_at, channel_message_at,
    deleted_event, direct_message_at, dm_history, find_room, dm_items, edited_event, message_found, message_ids, message_items,
    new_dm_event, participants, reaction_event, reaction_items, required_server, toggle_at, DeleteAccess,
    RoomChoice, Toggle,
};
use backend::domain::models::server_member::MemberRole;
use backend::domain::models::user::{self, UserStatus};
use backend::domain::models::{channel, direct_message, message, message_reaction};

fn msg(id: u128, author: u128, channel_id: Option<u128>) -> message::Model {
    message::Model {
        id,
        content: "hello".to_string(),
        user_id: author,
        server_id: channel_id.map(|_| 3),
        channel_id,
        direct_message: if channel_id.is_none() { Some(900) } else { None },
        created_at: 1_000,
    }
}

fn person(id: u128, name: &str) -> user::Model {
    user::Model {
        id,
        username: name.to_string(),
        password_hash: String::new(),
        display_name: None,
        avatar_url: None,
        status: UserStatus::Offline,
    }
}

fn reaction(id: u128, message_id: u128, user_id: u128, emoji: &str) -> message_reaction::Model {
    message_reaction::Model { id, message_id, user_id, emoji: emoji.to_string(), created_at: 0 }
}

fn room(id: u128, a: u128, b: u128) -> direct_message::Model {
    direct_message::Model { id, user1_id: a, user2_id: b, content: String::new(), created_at: 0 }
}

#[test]
fn posting_checks() {
    assert_eq!(required_server(None), Err(AppError::BadRequest("server_id is required for channel messages".to_string())));
    assert_eq!(required_server(Some(3)), Ok(3));
    let c = channel::Model { id: 5, server_id: 3, name: "general".to_string(), description: String::new(), position: 0 };
    assert_eq!(check_channel_server(&c, 4), Err(AppError::BadRequest("Channel error".to_string())));
    assert_eq!(check_channel_server(&c, 3), Ok(()));
    assert_eq!(check_poster(false), Err(AppError::Forbidden("Not a member".to_string())));
    assert_eq!(check_content(" \n\t"), Err(AppError::BadRequest("Empty content".to_string())));
    assert_eq!(check_content(" hi "), Ok(()));
    assert_eq!(author_found(None).unwrap_err(), AppError::InternalServerError("User not found".to_string()));
    assert_eq!(message_found(None).unwrap_err(), AppError::NotFound("Message not found".to_string()));
}

#[test]
fn messages_are_stored_where_they_are_posted() {
    let m = channel_message_at(5, 3, 10, "hi".to_string(), 42);
    assert_eq!(m.channel_id, Some(5));
    assert_eq!(m.server_id, Some(3));
    assert_eq!(m.direct_message, None);
    assert_eq!(m.created_at, 42);
    let d = direct_message_at(900, 10, "psst".to_string(), 43);
    assert_eq!(d.direct_message, Some(900));
    assert_eq!(d.channel_id, None);
    assert_eq!(d.server_id, None);
    assert_eq!(d.content, "psst");
}

#[test]
fn conversations_are_reused_or_opened() {
    let rooms = vec![room(899, 10, 30), room(900, 10, 20)];
    assert_eq!(find_room(&rooms, 20, 10), Some(900));
    assert_eq!(find_room(&rooms, 10, 20), Some(900));
    assert_eq!(find_room(&rooms, 20, 30), None);
    match choose_room_at(find_room(&rooms, 20, 10), 20, 10, 5) {
        RoomChoice::Existing(id) => assert_eq!(id, 900),
        RoomChoice::Create(_) => panic!("the room exists"),
    }
    match choose_room_at(None, 10, 20, 5) {
        RoomChoice::Create(r) => {
            assert_eq!(r.user1_id, 10);
            assert_eq!(r.user2_id, 20);
            assert_eq!(r.content, "");
            assert_eq!(r.created_at, 5);
        },
        RoomChoice::Existing(_) => panic!("no room was found"),
    }
    let m = direct_message_at(900, 10, "psst".to_string(), 43);
    match new_dm_event(&m, &person(10, "alice"), 900, 10, 20) {
        Event::NewDmMessage { target_users, author_username, direct_message_id, .. } => {
            assert_eq!(target_users, (10, 20));
            assert_eq!(author_username, "alice");
            assert_eq!(direct_message_id, 900);
        },
        other => panic!("unexpected event {:?}", other),
    }
}

#[test]
fn reactions_are_grouped_by_emoji_in_order_of_first_use() {
    let rs = vec![
        reaction(1, 100, 10, "👍"),
        reaction(2, 100, 20, "😂"),
        reaction(3, 200, 30, "👍"),
        reaction(4, 100, 30, "👍"),
    ];
    let items = reaction_items(&rs, 100);
    assert_eq!(items.len(), 2);
    assert_eq!(items[0].emoji, "👍");
    assert_eq!(items[0].user_ids, vec![10, 30]);
    assert_eq!(items[1].emoji, "😂");
    assert_eq!(items[1].user_ids, vec![20]);
    assert!(reaction_items(&rs, 300).is_empty());
}

#[test]
fn message_lists_name_authors_and_carry_reactions() {
    let rows = vec![(msg(100, 10, Some(5)), Some(person(10, "alice"))), (msg(101, 99, Some(5)), None)];
    let rs = vec![reaction(1, 101, 10, "😊")];
    let items = message_items(&rows, &rs);
    assert_eq!(items.len(), 2);
    assert_eq!(items[0].author, "alice");
    assert!(items[0].reactions.is_empty());
    assert_eq!(items[1].author, "Utilisateur Inconnu");
    assert_eq!(items[1].reactions.len(), 1);
    assert_eq!(items[1].reactions[0].user_ids, vec![10]);
    assert_eq!(message_ids(&rows), vec![100, 101]);
    assert_eq!(author_name(&None), "Utilisateur Inconnu");
}

#[test]
fn deletion_rights() {
    assert_eq!(check_delete_access(&msg(100, 10, Some(5)), 10), DeleteAccess::Author);
    assert_eq!(check_delete_access(&msg(100, 10, Some(5)), 20), DeleteAccess::ByRank(5));
    assert_eq!(check_delete_access(&msg(100, 10, None), 20), DeleteAccess::Denied);
    assert_eq!(check_delete_rank(None), Err(AppError::Forbidden("Not a member".to_string())));
    assert_eq!(check_delete_rank(Some(MemberRole::Admin)), Ok(true));
    assert_eq!(check_delete_rank(Some(MemberRole::Member)), Ok(false));
    assert_eq!(check_delete_permission(false), Err(AppError::Forbidden("Permission denied".to_string())));
    match deleted_event(&msg(100, 10, Some(5))) {
        Event::DeleteMessage { message_id, channel_id, server_id, .. } => {
            assert_eq!(message_id, 100);
            assert_eq!(channel_id, Some(5));
            assert_eq!(server_id, Some(3));
        },
        other => panic!("unexpected event {:?}", other),
    }
}

#[test]
fn only_authors_edit_and_not_to_blank() {
    assert_eq!(
        apply_edit(msg(100, 10, Some(5)), 20, "x".to_string()).unwrap_err(),
        AppError::Forbidden("You can only edit your own messages".to_string())
    );
    assert_eq!(
        apply_edit(msg(100, 10, Some(5)), 10, "  ".to_string()).unwrap_err(),
        AppError::BadRequest("Message content cannot be empty".to_string())
    );
    let m = apply_edit(msg(100, 10, Some(5)), 10, "edited".to_string()).unwrap();
    assert_eq!(m.content, "edited");
    assert_eq!(m.id, 100);
    assert_eq!(m.created_at, 1_000);
    match edited_event(&m) {
        Event::UpdateMessage { new_content, message_id, .. } => {
            assert_eq!(new_content, "edited");
            assert_eq!(message_id, 100);
        },
        other => panic!("unexpected event {:?}", other),
    }
}

#[test]
fn conversation_list_names_both_users() {
    let dms = vec![room(900, 30, 10), room(901, 10, 20), room(902, 20, 30)];
    assert_eq!(participants(&dms), vec![10, 20, 30]);
    let users = vec![person(10, "alice"), person(30, "carol")];
    let items = dm_items(&dms, &users);
    assert_eq!(items.len(), 3);
    assert_eq!(items[0].user1_username, "carol");
    assert_eq!(items[0].user2_username, "alice");
    assert_eq!(items[1].user2_username, "Utilisateur Inconnu");
    assert_eq!(items[2].id, 902);
}

#[test]
fn only_six_emojis_are_allowed() {
    for e in ["👍", "👎", "😊", "😢", "❤️", "😂"] {
        assert_eq!(check_emoji(e), Ok(()));
    }
    assert_eq!(check_emoji("❤"), Err(AppError::BadRequest("Invalid emoji".to_string())));
    assert_eq!(check_emoji("🚀"), Err(AppError::BadRequest("Invalid emoji".to_string())));
}

#[test]
fn toggling_twice_restores_the_reactions() {
    let added = match toggle_at(None, 100, 10, "👍".to_string(), 7) {
        Toggle::Add(r) => r,
        Toggle::Remove(_) => panic!("nothing to remove"),
    };
    assert_eq!(added.message_id, 100);
    assert_eq!(added.user_id, 10);
    assert_eq!(added.emoji, "👍");
    assert_eq!(added.created_at, 7);
    let id = added.id;
    match toggle_at(Some(added), 100, 10, "👍".to_string(), 8) {
        Toggle::Remove(gone) => assert_eq!(gone, id),
        Toggle::Add(_) => panic!("the reaction is there"),
    }
    match reaction_event(false, &msg(100, 10, Some(5)), 10, "👍".to_string()) {
        Event::Reaction { added, server_id, channel_id, .. } => {
            assert!(!added);
            assert_eq!(server_id, Some(3));
            assert_eq!(channel_id, Some(5));
        },
        other => panic!("unexpected event {:?}", other),
    }
}

#[test]
fn direct_histories_are_empty_without_a_room() {
    let rows = vec![(direct_message_at(900, 10, "a".to_string(), 1), Some(person(10, "alice"))), (direct_message_at(900, 20, "b".to_string(), 2), None)];
    assert!(dm_history(None, &Vec::new()).is_empty());
    let items = dm_history(Some(900), &rows);
    assert_eq!(items.len(), 2);
    assert_eq!(items[0].author, "alice");
    assert_eq!(items[1].author, "Utilisateur Inconnu");
    assert!(items[1].reactions.is_empty());
    assert_eq!(items[0].direct_message_id, Some(900));
}
