//! How the rows read from the database become the server descriptions that
//! clients receive: channels, members and admins of each server.
use vstd::prelude::*;
use crate::application::dto::channel_dto::{ChannelItem, channel_item, to_channel_item};
use crate::application::dto::server_dto::{MemberItem, ServerItem};
use crate::domain::models::{channel, server_member, server_model, user};
use crate::domain::models::server_member::{MemberRole, role_name, role_label};
use crate::domain::models::user::{status_name, status_label};
use crate::text::copy_opt;

verus! {

/// Whether a row belongs to the server that a filter names (`None` keeps all rows).
pub open spec fn in_scope(filter: Option<i32>, server_id: i32) -> bool {
    match filter {
        Some(s) => server_id == s,
        None => true,
    }
}

/// The client items of the channels in scope, in the order of the rows.
pub open spec fn channel_items(cs: Seq<channel::Model>, filter: Option<i32>) -> Seq<ChannelItem>
    decreases cs.len(),
{
    if cs.len() == 0 {
        Seq::empty()
    } else {
        let rest = channel_items(cs.drop_last(), filter);
        if in_scope(filter, cs.last().server_id) {
            rest.push(channel_item(cs.last()))
        } else {
            rest
        }
    }
}

/// The memberships in scope whose user was found, with that user, in the order of the rows.
pub open spec fn member_rows(
    rows: Seq<(server_member::Model, Option<user::Model>)>,
    filter: Option<i32>,
) -> Seq<(server_member::Model, user::Model)>
    decreases rows.len(),
{
    if rows.len() == 0 {
        Seq::empty()
    } else {
        let rest = member_rows(rows.drop_last(), filter);
        let last = rows.last();
        match last.1 {
            Some(u) => if in_scope(filter, last.0.server_id) {
                rest.push((last.0, u))
            } else {
                rest
            },
            None => rest,
        }
    }
}

/// The user ids of the admins in scope, in the order of the rows.
pub open spec fn admin_ids(rows: Seq<(server_member::Model, Option<user::Model>)>, filter: Option<i32>) -> Seq<u128>
    decreases rows.len(),
{
    if rows.len() == 0 {
        Seq::empty()
    } else {
        let rest = admin_ids(rows.drop_last(), filter);
        let m = rows.last().0;
        if in_scope(filter, m.server_id) && m.role == MemberRole::Admin {
            rest.push(m.user_id)
        } else {
            rest
        }
    }
}

/// Whether `it` shows membership `m` of user `u`, with the rank and presence by name.
pub open spec fn is_member_item(it: MemberItem, m: server_member::Model, u: user::Model) -> bool {
    &&& it.id == m.id
    &&& it.user_id == u.id
    &&& it.username == u.username
    &&& it.display_name == u.display_name
    &&& it.avatar_url == u.avatar_url
    &&& it.role@ == role_name(m.role)
    &&& it.status@ == status_name(u.status)
}

/// Whether `items` shows exactly the members in scope of `rows`, in order.
pub open spec fn shows_members(
    items: Seq<MemberItem>,
    rows: Seq<(server_member::Model, Option<user::Model>)>,
    filter: Option<i32>,
) -> bool {
    &&& items.len() == member_rows(rows, filter).len()
    &&& forall|k: int|
        0 <= k < items.len() ==> is_member_item(
            #[trigger] items[k],
            member_rows(rows, filter)[k].0,
            member_rows(rows, filter)[k].1,
        )
}

/// Whether `it` describes server `s`, with the channels and members in scope.
pub open spec fn is_server_item(
    it: ServerItem,
    s: server_model::Model,
    cs: Seq<channel::Model>,
    rows: Seq<(server_member::Model, Option<user::Model>)>,
    filter: Option<i32>,
) -> bool {
    &&& it.id == s.id
    &&& it.name == s.name
    &&& it.description == s.description
    &&& it.icon_url == s.icon_url
    &&& it.owner_id == s.owner_id
    &&& it.invitcode == s.invitcode
    &&& it.channels@ == channel_items(cs, filter)
    &&& it.admins@ == admin_ids(rows, filter)
    &&& shows_members(it.members@, rows, filter)
}

/// The servers of a user's memberships, where the server was found, in order.
pub open spec fn servers_of(ms: Seq<(server_member::Model, Option<server_model::Model>)>) -> Seq<
    server_model::Model,
>
    decreases ms.len(),
{
    if ms.len() == 0 {
        Seq::empty()
    } else {
        let rest = servers_of(ms.drop_last());
        match ms.last().1 {
            Some(s) => rest.push(s),
            None => rest,
        }
    }
}

/// Whether `items` describes the servers of a user's memberships, in order,
/// each with its own channels, members and admins.
pub open spec fn lists_servers(
    items: Seq<ServerItem>,
    ms: Seq<(server_member::Model, Option<server_model::Model>)>,
    cs: Seq<channel::Model>,
    rows: Seq<(server_member::Model, Option<user::Model>)>,
) -> bool {
    &&& items.len() == servers_of(ms).len()
    &&& forall|k: int|
        0 <= k < items.len() ==> is_server_item(
            #[trigger] items[k],
            servers_of(ms)[k],
            cs,
            rows,
            Some(servers_of(ms)[k].id),
        )
}

/// A copy of a server row.
pub fn copy_server(s: &server_model::Model) -> (r: server_model::Model)
    ensures
        r == *s,
{
    server_model::Model {
        id: s.id,
        name: s.name.clone(),
        description: s.description.clone(),
        icon_url: copy_opt(&s.icon_url),
        owner_id: s.owner_id,
        invitcode: s.invitcode,
    }
}

/// A member as clients see it, with the given name of its rank.
pub fn member_item_named(m: &server_member::Model, u: &user::Model, role: String) -> (r: MemberItem)
    ensures
        r.id == m.id,
        r.user_id == u.id,
        r.username == u.username,
        r.display_name == u.display_name,
        r.avatar_url == u.avatar_url,
        r.role == role,
        r.status@ == status_name(u.status),
{
    MemberItem {
        id: m.id,
        user_id: u.id,
        username: u.username.clone(),
        display_name: copy_opt(&u.display_name),
        avatar_url: copy_opt(&u.avatar_url),
        role,
        status: status_label(u.status),
    }
}

/// A member as clients see it.
pub fn member_item(m: &server_member::Model, u: &user::Model) -> (r: MemberItem)
    ensures
        is_member_item(r, *m, *u),
{
    member_item_named(m, u, role_label(m.role))
}

/// The client items of the channels in scope.
pub fn collect_channels(cs: &Vec<channel::Model>, filter: Option<i32>) -> (r: Vec<ChannelItem>)
    ensures
        r@ == channel_items(cs@, filter),
{
    let mut r: Vec<ChannelItem> = Vec::new();
    let n = cs.len();
    for i in 0..n
        invariant
            n == cs@.len(),
            r@ == channel_items(cs@.take(i as int), filter),
    {
        assert(cs@.take(i + 1).drop_last() =~= cs@.take(i as int));
        let c = &cs[i];
        let keep = match filter {
            Some(s) => c.server_id == s,
            None => true,
        };
        if keep {
            r.push(to_channel_item(c));
        }
    }
    assert(cs@.take(n as int) =~= cs@);
    r
}

/// The members in scope whose user was found.
pub fn collect_members(rows: &Vec<(server_member::Model, Option<user::Model>)>, filter: Option<i32>) -> (r:
    Vec<MemberItem>)
    ensures
        shows_members(r@, rows@, filter),
{
    let mut r: Vec<MemberItem> = Vec::new();
    let n = rows.len();
    for i in 0..n
        invariant
            n == rows@.len(),
            shows_members(r@, rows@.take(i as int), filter),
    {
        assert(rows@.take(i + 1).drop_last() =~= rows@.take(i as int));
        let row = &rows[i];
        let keep = match filter {
            Some(s) => row.0.server_id == s,
            None => true,
        };
        match &row.1 {
            Some(u) => {
                if keep {
                    let it = member_item(&row.0, u);
                    r.push(it);
                }
            },
            None => {},
        }
    }
    assert(rows@.take(n as int) =~= rows@);
    r
}

/// The user ids of the admins in scope.
pub fn collect_admins(rows: &Vec<(server_member::Model, Option<user::Model>)>, filter: Option<i32>) -> (r:
    Vec<u128>)
    ensures
        r@ == admin_ids(rows@, filter),
{
    let mut r: Vec<u128> = Vec::new();
    let n = rows.len();
    for i in 0..n
        invariant
            n == rows@.len(),
            r@ == admin_ids(rows@.take(i as int), filter),
    {
        assert(rows@.take(i + 1).drop_last() =~= rows@.take(i as int));
        let m = &rows[i].0;
        let keep = match filter {
            Some(s) => m.server_id == s,
            None => true,
        };
        if keep && m.role == MemberRole::Admin {
            r.push(m.user_id);
        }
    }
    assert(rows@.take(n as int) =~= rows@);
    r
}

/// The description of a server, with its channels, members and admins in scope.
pub fn describe_server(
    s: server_model::Model,
    cs: &Vec<channel::Model>,
    rows: &Vec<(server_member::Model, Option<user::Model>)>,
    filter: Option<i32>,
) -> (r: ServerItem)
    ensures
        is_server_item(r, s, cs@, rows@, filter),
{
    let channels = collect_channels(cs, filter);
    let members = collect_members(rows, filter);
    let admins = collect_admins(rows, filter);
    ServerItem {
        id: s.id,
        name: s.name,
        description: s.description,
        icon_url: s.icon_url,
        owner_id: s.owner_id,
        admins,
        invitcode: s.invitcode,
        channels,
        members,
    }
}

/// The ids of the servers of a user's memberships (for fetching their channels and members).
pub fn server_ids(ms: &Vec<(server_member::Model, Option<server_model::Model>)>) -> (r: Vec<i32>)
    ensures
        r@ == servers_of(ms@).map_values(|s: server_model::Model| s.id),
{
    let mut r: Vec<i32> = Vec::new();
    let n = ms.len();
    for i in 0..n
        invariant
            n == ms@.len(),
            r@ == servers_of(ms@.take(i as int)).map_values(|s: server_model::Model| s.id),
    {
        assert(ms@.take(i + 1).drop_last() =~= ms@.take(i as int));
        match &ms[i].1 {
            Some(s) => {
                r.push(s.id);
                assert(r@ =~= servers_of(ms@.take(i + 1)).map_values(|s: server_model::Model| s.id));
            },
            None => {},
        }
    }
    assert(ms@.take(n as int) =~= ms@);
    r
}

/// The servers of a user's memberships, each with its own channels, members and admins.
pub fn describe_servers(
    ms: &Vec<(server_member::Model, Option<server_model::Model>)>,
    cs: &Vec<channel::Model>,
    rows: &Vec<(server_member::Model, Option<user::Model>)>,
) -> (r: Vec<ServerItem>)
    ensures
        lists_servers(r@, ms@, cs@, rows@),
{
    let mut r: Vec<ServerItem> = Vec::new();
    let n = ms.len();
    for i in 0..n
        invariant
            n == ms@.len(),
            r@.len() == servers_of(ms@.take(i as int)).len(),
            forall|k: int|
                0 <= k < r@.len() ==> is_server_item(
                    #[trigger] r@[k],
                    servers_of(ms@.take(i as int))[k],
                    cs@,
                    rows@,
                    Some(servers_of(ms@.take(i as int))[k].id),
                ),
    {
        assert(ms@.take(i + 1).drop_last() =~= ms@.take(i as int));
        match &ms[i].1 {
            Some(s) => {
                let sid = s.id;
                let it = describe_server(copy_server(s), cs, rows, Some(sid));
                r.push(it);
            },
            None => {},
        }
    }
    assert(ms@.take(n as int) =~= ms@);
    r
}

} // verus!
