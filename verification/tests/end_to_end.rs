//! A full exchange through sessions and the registry, with the
//! transport pushes simulated by a token-indexed mailbox table.

use std::collections::HashMap;

use forum_core::packet::{ActiveUser, InPacket, OutPacket, PersistedComment};
use forum_core::registry::{Fanout, RtServer};
use forum_core::session::{FrameEffect, InFrame, RtSession};

fn user(id: i32, name: &str) -> ActiveUser {
    ActiveUser {
        id,
        username: name.to_string(),
        display_name: name.to_string(),
        bio: None,
        pfp: None,
        banner: None,
    }
}

/// Pushes one fanout into the mailboxes, cloning the packet once per
/// recipient as the transport would.
fn deliver(mailboxes: &mut HashMap<u64, Vec<OutPacket>>, fanout: Fanout) {
    for handle in &fanout.recipients {
        let copy = match &fanout.packet {
            OutPacket::ConnectNotification(n) => OutPacket::ConnectNotification(n.clone()),
            OutPacket::DisconnectNotification(n) => OutPacket::DisconnectNotification(*n),
            OutPacket::OutComment(oc) => OutPacket::OutComment(forum_core::packet::OutComment {
                id: oc.id,
                created_at: oc.created_at,
                user: oc.user.clone(),
                post_id: oc.post_id,
                forum_id: oc.forum_id,
                parent_id: oc.parent_id,
                content: oc.content.clone(),
                media: None,
            }),
            OutPacket::ActiveUserList(v) => OutPacket::ActiveUserList(v.clone()),
            OutPacket::Identify => OutPacket::Identify,
        };
        mailboxes.entry(*handle).or_default().push(copy);
    }
}

#[test]
fn two_users_share_a_room_comment_and_part() {
    let mut server = RtServer::new();
    let mut mailboxes: HashMap<u64, Vec<OutPacket>> = HashMap::new();

    // user one connects to room 42, which belongs to forum 7
    let mut s1 = RtSession::new(1001, 42, 7, user(1, "one"), 0);
    let f = server.connect(s1.connect_command(11));
    deliver(&mut mailboxes, f);
    s1.on_connect_ack();
    assert!(mailboxes.get(&11).is_none(), "nobody else was present yet");

    // user two joins the same room; user one is notified
    let mut s2 = RtSession::new(1002, 42, 7, user(2, "two"), 0);
    let f = server.connect(s2.connect_command(22));
    deliver(&mut mailboxes, f);
    s2.on_connect_ack();
    match &mailboxes[&11][0] {
        OutPacket::ConnectNotification(n) => assert_eq!(n.user.id, 2),
        _ => panic!("user one sees user two join"),
    }

    // user one authors a comment; the store assigns id and timestamp
    let frame = InFrame::Packet(InPacket::Message {
        parent_id: None,
        content: "hi".to_string(),
        media: None,
    });
    let inc = match s1.handle_frame(frame, 5) {
        FrameEffect::SendComment(inc) => inc,
        _ => panic!("a message becomes a relay command"),
    };
    let persisted = Some(PersistedComment { id: 77, created_at: 1_700_000_000 });
    let fanout = server.relay(inc.post_id, inc, persisted).expect("persisted comments broadcast");
    assert_eq!(fanout.recipients.len(), 2);
    deliver(&mut mailboxes, fanout);

    // both members, the author included, receive the same comment
    for handle in [11u64, 22u64] {
        let last = mailboxes[&handle].last().unwrap();
        match last {
            OutPacket::OutComment(oc) => {
                assert_eq!(oc.post_id, 42);
                assert_eq!(oc.forum_id, 7);
                assert_eq!(oc.content, "hi");
                assert_eq!(oc.id, 77);
                assert_eq!(oc.user.id, 1);
            }
            _ => panic!("both members receive the comment"),
        }
    }

    // user two leaves; user one is told which user departed
    let f = server.disconnect(s2.disconnect_command());
    deliver(&mut mailboxes, f);
    match mailboxes[&11].last().unwrap() {
        OutPacket::DisconnectNotification(n) => assert_eq!(n.id, 2),
        _ => panic!("user one sees user two leave"),
    }
    assert!(mailboxes[&22].len() == 1, "the departed member got only the comment");
}
