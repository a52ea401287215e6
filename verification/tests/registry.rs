//! Room-registry behaviour: membership replay, handle bookkeeping,
//! relay fanout and presence listing.

use forum_core::packet::{
    ActiveUser, Connect, ConnectNotification, Disconnect, DisconnectNotification, InComment,
    ListActiveUsers, OutPacket, PersistedComment,
};
use forum_core::registry::RtServer;

fn user(id: i32, name: &str) -> ActiveUser {
    ActiveUser {
        id,
        username: name.to_string(),
        display_name: name.to_uppercase(),
        bio: None,
        pfp: None,
        banner: None,
    }
}

fn connect_msg(sid: u64, post_id: i32, addr: u64, u: &ActiveUser) -> Connect {
    Connect { addr, id: sid, post_id, notif: ConnectNotification { user: u.clone() } }
}

fn disconnect_msg(sid: u64, post_id: i32, user_id: i32) -> Disconnect {
    Disconnect { id: sid, post_id, notif: DisconnectNotification { id: user_id } }
}

fn member_ids(server: &RtServer, post_id: i32) -> Vec<u64> {
    server
        .members
        .iter()
        .filter(|m| m.post_id == post_id)
        .map(|m| m.session_id)
        .collect()
}

#[test]
fn replay_keeps_connected_sessions_in_connect_order() {
    let mut server = RtServer::new();
    let a = user(1, "ann");
    let b = user(2, "ben");
    let c = user(3, "cam");
    server.connect(connect_msg(101, 42, 1001, &a));
    server.connect(connect_msg(102, 42, 1002, &b));
    server.connect(connect_msg(103, 42, 1003, &c));
    assert_eq!(member_ids(&server, 42), vec![101, 102, 103]);

    server.disconnect(disconnect_msg(102, 42, 2));
    assert_eq!(member_ids(&server, 42), vec![101, 103]);

    // reconnecting after a disconnect re-enters at the back
    server.connect(connect_msg(104, 42, 1004, &b));
    assert_eq!(member_ids(&server, 42), vec![101, 103, 104]);

    // disconnecting an absent session is a no-op on membership
    server.disconnect(disconnect_msg(999, 42, 9));
    assert_eq!(member_ids(&server, 42), vec![101, 103, 104]);
}

#[test]
fn rooms_are_independent() {
    let mut server = RtServer::new();
    let a = user(1, "ann");
    let b = user(2, "ben");
    server.connect(connect_msg(201, 7, 1, &a));
    server.connect(connect_msg(202, 8, 2, &b));
    assert_eq!(member_ids(&server, 7), vec![201]);
    assert_eq!(member_ids(&server, 8), vec![202]);
    server.disconnect(disconnect_msg(201, 7, 1));
    assert_eq!(member_ids(&server, 7), Vec::<u64>::new());
    assert_eq!(member_ids(&server, 8), vec![202]);
}

#[test]
fn membership_and_handles_agree_after_any_interleaving() {
    let mut server = RtServer::new();
    let a = user(1, "ann");
    let b = user(2, "ben");
    let c = user(3, "cam");
    server.connect(connect_msg(301, 10, 31, &a));
    server.connect(connect_msg(302, 10, 32, &b));
    server.disconnect(disconnect_msg(301, 10, 1));
    server.connect(connect_msg(303, 11, 33, &c));
    server.disconnect(disconnect_msg(999, 11, 9));

    let member_sids: Vec<u64> = server.members.iter().map(|m| m.session_id).collect();
    let handle_sids: Vec<u64> = server.handles.iter().map(|h| h.session_id).collect();
    for sid in &member_sids {
        assert!(handle_sids.contains(sid), "member without a handle");
    }
    for sid in &handle_sids {
        assert!(member_sids.contains(sid), "handle without a membership");
    }
    assert_eq!(member_sids, vec![302, 303]);
}

#[test]
fn connect_notifies_only_prior_members() {
    let mut server = RtServer::new();
    let a = user(1, "ann");
    let b = user(2, "ben");
    let first = server.connect(connect_msg(401, 5, 41, &a));
    assert_eq!(first.recipients, Vec::<u64>::new());
    let second = server.connect(connect_msg(402, 5, 42, &b));
    assert_eq!(second.recipients, vec![41]);
    match &second.packet {
        OutPacket::ConnectNotification(n) => assert_eq!(n.user.id, 2),
        _ => panic!("expected a connect notification"),
    }
}

#[test]
fn disconnect_notifies_remaining_members() {
    let mut server = RtServer::new();
    let a = user(1, "ann");
    let b = user(2, "ben");
    server.connect(connect_msg(501, 5, 51, &a));
    server.connect(connect_msg(502, 5, 52, &b));
    let fanout = server.disconnect(disconnect_msg(502, 5, 2));
    assert_eq!(fanout.recipients, vec![51]);
    match &fanout.packet {
        OutPacket::DisconnectNotification(n) => assert_eq!(n.id, 2),
        _ => panic!("expected a disconnect notification"),
    }
}

fn in_comment(u: &ActiveUser, post_id: i32, forum_id: i32, content: &str) -> InComment {
    InComment {
        user: u.clone(),
        post_id,
        forum_id,
        parent_id: None,
        content: content.to_string(),
        media: None,
    }
}

#[test]
fn relay_pushes_once_per_member_on_success() {
    let mut server = RtServer::new();
    let a = user(1, "ann");
    let b = user(2, "ben");
    let c = user(3, "cam");
    server.connect(connect_msg(601, 42, 61, &a));
    server.connect(connect_msg(602, 42, 62, &b));
    server.connect(connect_msg(603, 42, 63, &c));

    let persisted = Some(PersistedComment { id: 900, created_at: 1700000000 });
    let fanout = server
        .relay(42, in_comment(&a, 42, 7, "hello"), persisted)
        .expect("successful persistence must broadcast");
    assert_eq!(fanout.recipients.len(), 3);
    assert_eq!(fanout.recipients, vec![61, 62, 63]);
    match &fanout.packet {
        OutPacket::OutComment(oc) => {
            assert_eq!(oc.id, 900);
            assert_eq!(oc.created_at, 1700000000);
            assert_eq!(oc.post_id, 42);
            assert_eq!(oc.forum_id, 7);
            assert_eq!(oc.content, "hello");
            assert_eq!(oc.user.id, 1);
        }
        _ => panic!("expected an out-comment"),
    }
}

#[test]
fn relay_pushes_nothing_on_persistence_failure() {
    let mut server = RtServer::new();
    let a = user(1, "ann");
    server.connect(connect_msg(701, 42, 71, &a));
    let fanout = server.relay(42, in_comment(&a, 42, 7, "lost"), None);
    assert!(fanout.is_none());
}

#[test]
fn presence_listing_skips_dead_members() {
    let mut server = RtServer::new();
    let a = user(1, "ann");
    let b = user(2, "ben");
    let c = user(3, "cam");
    server.connect(connect_msg(801, 42, 81, &a));
    server.connect(connect_msg(802, 42, 82, &b));
    server.connect(connect_msg(803, 42, 83, &c));

    let targets = server.list_targets(ListActiveUsers { post_id: 42 });
    assert_eq!(targets, vec![81, 82, 83]);

    // the member behind handle 82 no longer answers its probe
    let replies = vec![Some(a.clone()), None, Some(c.clone())];
    let present = RtServer::gather_active_users(replies);
    let mut ids: Vec<i32> = present.iter().map(|u| u.id).collect();
    ids.sort();
    assert_eq!(ids, vec![1, 3]);
}

#[test]
fn presence_listing_of_unknown_room_is_empty() {
    let server = RtServer::new();
    let targets = server.list_targets(ListActiveUsers { post_id: 77 });
    assert_eq!(targets, Vec::<u64>::new());
}
