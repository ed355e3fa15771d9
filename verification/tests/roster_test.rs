use backend::application::services::roster::{
    collect_admins, collect_channels, collect_members, describe_server, describe_servers, member_item, server_ids,
};
use backend::domain::models::server_member::{self, MemberRole};
use backend::domain::models::user::{self, UserStatus};
use backend::domain::models::{channel, server_model};

fn server(id: i32, name: &str) -> server_model::Model {
    server_model::Model {
        id,
        name: name.to_string(),
        description: format!("about {}", name),
        icon_url: None,
        owner_id: 10,
        invitcode: 1000 + id,
    }
}

fn chan(id: u128, server_id: i32, name: &str) -> channel::Model {
    channel::Model { id, server_id, name: name.to_string(), description: String::new(), position: 0 }
}

fn member(id: u128, server_id: i32, user_id: u128, role: MemberRole) -> server_member::Model {
    server_member::Model { id, server_id, user_id, role }
}

fn person(id: u128, name: &str, status: UserStatus) -> user::Model {
    user::Model {
        id,
        username: name.to_string(),
        password_hash: String::new(),
        display_name: None,
        avatar_url: Some(format!("/{}.png", name)),
        status,
    }
}

fn rows() -> Vec<(server_member::Model, Option<user::Model>)> {
    vec![
        (member(1, 1, 10, MemberRole::Owner), Some(person(10, "alice", UserStatus::Online))),
        (member(2, 1, 20, MemberRole::Admin), Some(person(20, "bob", UserStatus::Invisible))),
        (member(3, 2, 20, MemberRole::Owner), Some(person(20, "bob", UserStatus::Invisible))),
        (member(4, 1, 30, MemberRole::Admin), None),
        (member(5, 2, 10, MemberRole::Member), Some(person(10, "alice", UserStatus::Online))),
    ]
}

#[test]
fn members_show_rank_and_presence_by_name() {
    let it = member_item(&member(2, 1, 20, MemberRole::Admin), &person(20, "bob", UserStatus::Invisible));
    assert_eq!(it.id, 2);
    assert_eq!(it.user_id, 20);
    assert_eq!(it.role, "Admin");
    assert_eq!(it.status, "Invisible");
    assert_eq!(it.avatar_url, Some("/bob.png".to_string()));
}

#[test]
fn collections_keep_the_rows_of_one_server() {
    let cs = vec![chan(100, 1, "general"), chan(101, 2, "general"), chan(102, 1, "random")];
    let ones = collect_channels(&cs, Some(1));
    assert_eq!(ones.iter().map(|c| c.id).collect::<Vec<_>>(), vec![100, 102]);
    assert_eq!(collect_channels(&cs, None).len(), 3);

    let members = collect_members(&rows(), Some(1));
    // The membership whose user is gone is left out.
    assert_eq!(members.iter().map(|m| m.id).collect::<Vec<_>>(), vec![1, 2]);
    // Admins come from the memberships, found user or not.
    assert_eq!(collect_admins(&rows(), Some(1)), vec![20, 30]);
    assert_eq!(collect_admins(&rows(), Some(2)), Vec::<u128>::new());
}

#[test]
fn a_server_is_described_with_its_own_channels_and_members() {
    let cs = vec![chan(100, 1, "general"), chan(101, 2, "general")];
    let it = describe_server(server(2, "two"), &cs, &rows(), Some(2));
    assert_eq!(it.id, 2);
    assert_eq!(it.name, "two");
    assert_eq!(it.invitcode, 1002);
    assert_eq!(it.channels.len(), 1);
    assert_eq!(it.channels[0].id, 101);
    assert_eq!(it.members.iter().map(|m| m.user_id).collect::<Vec<_>>(), vec![20, 10]);
    assert!(it.admins.is_empty());
}

#[test]
fn the_servers_of_a_user_are_each_described() {
    let ms = vec![
        (member(1, 1, 10, MemberRole::Owner), Some(server(1, "one"))),
        (member(9, 7, 10, MemberRole::Member), None),
        (member(5, 2, 10, MemberRole::Member), Some(server(2, "two"))),
    ];
    assert_eq!(server_ids(&ms), vec![1, 2]);
    let cs = vec![chan(100, 1, "general"), chan(101, 2, "general")];
    let items = describe_servers(&ms, &cs, &rows());
    assert_eq!(items.len(), 2);
    assert_eq!(items[0].id, 1);
    assert_eq!(items[0].admins, vec![20, 30]);
    assert_eq!(items[0].members.len(), 2);
    assert_eq!(items[1].id, 2);
    assert_eq!(items[1].channels[0].id, 101);
    for it in &items {
        for m in &it.members {
            assert!(rows().iter().any(|(mm, _)| mm.id == m.id && mm.server_id == it.id));
        }
    }
}
