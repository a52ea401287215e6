//! Session state-machine behaviour: heartbeat eviction, protocol
//! handling and the internal presence probe.

use forum_core::packet::{ActiveUser, InPacket, OutPacket};
use forum_core::session::{
    FrameEffect, HbDecision, InFrame, OutEffect, RtSession, SessionState, HEARTBEAT_INTERVAL_MS,
    SESSION_TIMEOUT_MS,
};

fn user(id: i32, name: &str) -> ActiveUser {
    ActiveUser {
        id,
        username: name.to_string(),
        display_name: name.to_string(),
        bio: Some("hi".to_string()),
        pfp: None,
        banner: None,
    }
}

#[test]
fn heartbeat_probes_within_the_window_and_evicts_past_it() {
    let session = RtSession::new(1, 42, 7, user(5, "ann"), 1_000);
    assert_eq!(session.heartbeat_tick(1_000), HbDecision::Probe);
    assert_eq!(session.heartbeat_tick(1_000 + SESSION_TIMEOUT_MS), HbDecision::Probe);
    assert_eq!(session.heartbeat_tick(1_000 + SESSION_TIMEOUT_MS + 1), HbDecision::Evict);
}

#[test]
fn silent_peer_is_evicted_within_one_interval_of_the_timeout() {
    // ticks every HEARTBEAT_INTERVAL_MS, last activity at t = 1_000
    let session = RtSession::new(1, 42, 7, user(5, "ann"), 1_000);
    let mut tick = 1_000;
    let mut evicted_at = None;
    while evicted_at.is_none() {
        tick += HEARTBEAT_INTERVAL_MS;
        if session.heartbeat_tick(tick) == HbDecision::Evict {
            evicted_at = Some(tick);
        }
    }
    let evicted_at = evicted_at.unwrap();
    assert!(evicted_at > 1_000 + SESSION_TIMEOUT_MS);
    assert!(evicted_at <= 1_000 + SESSION_TIMEOUT_MS + HEARTBEAT_INTERVAL_MS);
    // the eviction command names the room and carries the user id
    let cmd = session.disconnect_command();
    assert_eq!(cmd.id, 1);
    assert_eq!(cmd.post_id, 42);
    assert_eq!(cmd.notif.id, 5);
}

#[test]
fn inbound_activity_refreshes_the_clock() {
    let mut session = RtSession::new(1, 42, 7, user(5, "ann"), 1_000);
    let effect = session.handle_frame(InFrame::Pong, 9_000);
    assert!(matches!(effect, FrameEffect::Ignore));
    assert_eq!(session.hb, 9_000);
    assert_eq!(session.heartbeat_tick(9_000 + SESSION_TIMEOUT_MS), HbDecision::Probe);

    let effect = session.handle_frame(InFrame::Ping(vec![1, 2]), 12_000);
    match effect {
        FrameEffect::ReplyPong(data) => assert_eq!(data, vec![1, 2]),
        _ => panic!("a ping is answered with its payload"),
    }
    assert_eq!(session.hb, 12_000);
}

#[test]
fn message_frame_becomes_a_relay_command_with_own_snapshot() {
    let mut session = RtSession::new(9, 42, 7, user(5, "ann"), 0);
    let frame = InFrame::Packet(InPacket::Message {
        parent_id: Some(3),
        content: "hi".to_string(),
        media: None,
    });
    match session.handle_frame(frame, 100) {
        FrameEffect::SendComment(inc) => {
            assert_eq!(inc.user.id, 5);
            assert_eq!(inc.post_id, 42);
            assert_eq!(inc.forum_id, 7);
            assert_eq!(inc.parent_id, Some(3));
            assert_eq!(inc.content, "hi");
        }
        _ => panic!("a message is forwarded to the registry"),
    }
}

#[test]
fn list_request_queries_the_registry_for_own_room() {
    let mut session = RtSession::new(9, 42, 7, user(5, "ann"), 0);
    match session.handle_frame(InFrame::Packet(InPacket::ListActiveUsers), 100) {
        FrameEffect::QueryActiveUsers(q) => assert_eq!(q.post_id, 42),
        _ => panic!("a presence request queries the registry"),
    }
}

#[test]
fn protocol_violation_is_fatal_to_the_session_only() {
    let mut session = RtSession::new(9, 42, 7, user(5, "ann"), 0);
    assert!(matches!(session.handle_frame(InFrame::Malformed, 100), FrameEffect::Stop));
    assert_eq!(session.state, SessionState::Closing);

    let mut session = RtSession::new(9, 42, 7, user(5, "ann"), 0);
    assert!(matches!(session.handle_frame(InFrame::TransportError, 100), FrameEffect::Stop));
    assert_eq!(session.state, SessionState::Closing);

    let mut session = RtSession::new(9, 42, 7, user(5, "ann"), 0);
    assert!(matches!(session.handle_frame(InFrame::Close, 100), FrameEffect::CloseAndStop));
    assert_eq!(session.state, SessionState::Closing);
}

#[test]
fn lifecycle_moves_from_connecting_through_active_to_closed() {
    let mut session = RtSession::new(9, 42, 7, user(5, "ann"), 0);
    assert_eq!(session.state, SessionState::Connecting);
    let cmd = session.connect_command(77);
    assert_eq!(cmd.addr, 77);
    assert_eq!(cmd.id, 9);
    assert_eq!(cmd.post_id, 42);
    assert_eq!(cmd.notif.user.id, 5);
    session.on_connect_ack();
    assert_eq!(session.state, SessionState::Active);
    session.handle_frame(InFrame::Close, 10);
    assert_eq!(session.state, SessionState::Closing);
    session.on_closed();
    assert_eq!(session.state, SessionState::Closed);
}

#[test]
fn identify_is_answered_locally_and_never_forwarded() {
    let session = RtSession::new(9, 42, 7, user(5, "ann"), 0);
    match session.handle_out(OutPacket::Identify) {
        OutEffect::Identity(u) => assert_eq!(u.id, 5),
        OutEffect::Forward(_) => panic!("the identify probe must not reach the wire"),
    }
    match session.handle_out(OutPacket::ActiveUserList(vec![])) {
        OutEffect::Forward(OutPacket::ActiveUserList(v)) => assert!(v.is_empty()),
        _ => panic!("client-visible packets are forwarded verbatim"),
    }
}
