//! The per-connection session state machine: protocol handling,
//! heartbeat bookkeeping and the presence snapshot.  One session owns
//! one live connection.  The transport decodes frames and performs
//! the sends and timers; every decision — what a frame means, when a
//! silent peer is evicted, which command goes to the registry — is
//! made here.

use vstd::prelude::*;

use crate::packet::{
    ActiveUser, Connect, ConnectNotification, Disconnect, DisconnectNotification, InComment,
    InPacket, ListActiveUsers, OutPacket,
};

verus! {

/// How often a session probes its peer for liveness, in milliseconds.
pub const HEARTBEAT_INTERVAL_MS: u64 = 5000;

/// How long a session tolerates silence before it evicts itself, in
/// milliseconds.
pub const SESSION_TIMEOUT_MS: u64 = 10000;

/// The session lifecycle.  `Closed` is terminal.
#[derive(Debug, Clone, Copy, PartialEq, Eq, Structural)]
pub enum SessionState {
    /// The transport handshake completed; the registry has not yet
    /// acknowledged the `Connect`.
    Connecting,
    /// Registered with the registry and relaying traffic.
    Active,
    /// A fatal condition was seen; teardown has begun.
    Closing,
    /// Torn down.
    Closed,
}

/// One inbound transport frame, already decoded: either a packet that
/// parsed against the packet model, a liveness frame, or one of the
/// fatal conditions.
#[derive(Debug)]
pub enum InFrame {
    /// A text frame that parsed as an inbound packet.
    Packet(InPacket),
    /// A liveness probe from the peer, carrying its payload.
    Ping(Vec<u8>),
    /// The peer answered a probe.
    Pong,
    /// The peer closed the connection.
    Close,
    /// A text frame that failed to parse: a protocol violation.
    Malformed,
    /// The transport reported an error.
    TransportError,
    /// Any other frame kind; ignored.
    Other,
}

/// What the transport must do after a frame is handled.
#[derive(Debug)]
pub enum FrameEffect {
    /// Send this relay command to the registry.
    SendComment(InComment),
    /// Ask the registry for the room's presence snapshot and return
    /// the reply to this client only.
    QueryActiveUsers(ListActiveUsers),
    /// Answer the peer's probe with its payload.
    ReplyPong(Vec<u8>),
    /// Echo the close and stop the session.
    CloseAndStop,
    /// Stop the session without a close handshake.
    Stop,
    /// Nothing to do.
    Ignore,
}

/// What the transport must do with an outbound packet.
#[derive(Debug)]
pub enum OutEffect {
    /// Serialize the packet and send it to the client verbatim.
    Forward(OutPacket),
    /// The packet was the internal `Identify` probe: hand this
    /// snapshot back to the asking party; nothing reaches the wire.
    Identity(ActiveUser),
}

/// What a heartbeat tick decides.
#[derive(Debug, Clone, Copy, PartialEq, Eq, Structural)]
pub enum HbDecision {
    /// The peer has been quiet for longer than the timeout window:
    /// disconnect from the registry and terminate the transport.
    Evict,
    /// Probe the peer and keep going.
    Probe,
}

/// The server-side state of one live connection.
#[derive(Debug)]
pub struct RtSession {
    /// Opaque session id, generated fresh at connect time.
    pub id: u64,
    /// Time of the last observed activity from the peer, in
    /// milliseconds of a monotonic clock.
    pub hb: u64,
    /// The room (post) this connection watches.
    pub post_id: i32,
    /// The room's owning forum, for event filtering.
    pub forum_id: i32,
    /// Snapshot of the connected user, never refreshed.
    pub user: ActiveUser,
    /// Lifecycle state.
    pub state: SessionState,
}

/// Whether a tick at time `now` evicts a session last heard from at
/// time `hb`: the silence exceeds the timeout window.
pub open spec fn evicts_at(hb: u64, now: u64) -> bool {
    now - hb > SESSION_TIMEOUT_MS
}

impl RtSession {
    /// A fresh session for a completed handshake: not yet registered,
    /// with the clock started at `now`.
    pub fn new(id: u64, post_id: i32, forum_id: i32, user: ActiveUser, now: u64) -> (r: Self)
        ensures
            r.id == id,
            r.post_id == post_id,
            r.forum_id == forum_id,
            r.user == user,
            r.hb == now,
            r.state is Connecting,
    {
        RtSession { id, hb: now, post_id, forum_id, user, state: SessionState::Connecting }
    }

    /// The registration command sent when the session starts: it
    /// carries the outbound-handle token the transport assigned and
    /// the join notification with this user's snapshot.
    pub fn connect_command(&self, addr: u64) -> (r: Connect)
        ensures
            r.id == self.id,
            r.post_id == self.post_id,
            r.addr == addr,
            r.notif.user == self.user,
    {
        Connect {
            addr,
            id: self.id,
            post_id: self.post_id,
            notif: ConnectNotification { user: self.user.clone() },
        }
    }

    /// The registry acknowledged the registration.
    pub fn on_connect_ack(&mut self)
        requires
            old(self).state is Connecting,
        ensures
            *final(self) == (RtSession { state: SessionState::Active, ..*old(self) }),
    {
        self.state = SessionState::Active;
    }

    /// The deregistration command sent when the session stops, for
    /// any reason: it carries the leave notification with just this
    /// user's id.
    pub fn disconnect_command(&self) -> (r: Disconnect)
        ensures
            r.id == self.id,
            r.post_id == self.post_id,
            r.notif == (DisconnectNotification { id: self.user.id }),
    {
        Disconnect {
            id: self.id,
            post_id: self.post_id,
            notif: DisconnectNotification { id: self.user.id },
        }
    }

    /// The session is fully torn down.
    pub fn on_closed(&mut self)
        ensures
            *final(self) == (RtSession { state: SessionState::Closed, ..*old(self) }),
    {
        self.state = SessionState::Closed;
    }

    /// One heartbeat tick, run every `HEARTBEAT_INTERVAL_MS`: evicts
    /// the peer exactly when it has been silent for longer than
    /// `SESSION_TIMEOUT_MS`, and probes it otherwise.
    pub fn heartbeat_tick(&self, now: u64) -> (r: HbDecision)
        requires
            now >= self.hb,
        ensures
            r is Evict <==> evicts_at(self.hb, now),
    {
        if now - self.hb > SESSION_TIMEOUT_MS {
            HbDecision::Evict
        } else {
            HbDecision::Probe
        }
    }

    /// Handles one decoded inbound frame.  A `Message` becomes a
    /// relay command stamped with this session's snapshot and room; a
    /// presence request becomes a registry query; liveness frames
    /// refresh the activity clock; a protocol violation, transport
    /// error or peer close is fatal to this session only.
    pub fn handle_frame(&mut self, frame: InFrame, now: u64) -> (r: FrameEffect)
        ensures
            match frame {
                InFrame::Packet(InPacket::Message { parent_id, content, media }) => {
                    &&& r == FrameEffect::SendComment(
                        (InComment {
                            user: old(self).user,
                            post_id: old(self).post_id,
                            forum_id: old(self).forum_id,
                            parent_id,
                            content,
                            media,
                        }),
                    )
                    &&& *final(self) == *old(self)
                },
                InFrame::Packet(InPacket::ListActiveUsers) => {
                    &&& r == FrameEffect::QueryActiveUsers(
                        (ListActiveUsers { post_id: old(self).post_id }),
                    )
                    &&& *final(self) == *old(self)
                },
                InFrame::Ping(data) => {
                    &&& r == FrameEffect::ReplyPong(data)
                    &&& *final(self) == (RtSession { hb: now, ..*old(self) })
                },
                InFrame::Pong => {
                    &&& r is Ignore
                    &&& *final(self) == (RtSession { hb: now, ..*old(self) })
                },
                InFrame::Close => {
                    &&& r is CloseAndStop
                    &&& *final(self) == (RtSession { state: SessionState::Closing, ..*old(self) })
                },
                InFrame::Malformed | InFrame::TransportError => {
                    &&& r is Stop
                    &&& *final(self) == (RtSession { state: SessionState::Closing, ..*old(self) })
                },
                InFrame::Other => {
                    &&& r is Ignore
                    &&& *final(self) == *old(self)
                },
            },
    {
        match frame {
            InFrame::Packet(packet) => match packet {
                InPacket::Message { parent_id, content, media } => FrameEffect::SendComment(
                    InComment {
                        user: self.user.clone(),
                        post_id: self.post_id,
                        forum_id: self.forum_id,
                        parent_id,
                        content,
                        media,
                    },
                ),
                InPacket::ListActiveUsers => FrameEffect::QueryActiveUsers(
                    ListActiveUsers { post_id: self.post_id },
                ),
            },
            InFrame::Ping(data) => {
                self.hb = now;
                FrameEffect::ReplyPong(data)
            },
            InFrame::Pong => {
                self.hb = now;
                FrameEffect::Ignore
            },
            InFrame::Close => {
                self.state = SessionState::Closing;
                FrameEffect::CloseAndStop
            },
            InFrame::Malformed => {
                self.state = SessionState::Closing;
                FrameEffect::Stop
            },
            InFrame::TransportError => {
                self.state = SessionState::Closing;
                FrameEffect::Stop
            },
            InFrame::Other => FrameEffect::Ignore,
        }
    }

    /// Handles one packet pushed to this session.  The internal
    /// `Identify` probe is answered locally with the session's own
    /// snapshot and never reaches the wire; everything else goes to
    /// the client verbatim.
    pub fn handle_out(&self, packet: OutPacket) -> (r: OutEffect)
        ensures
            packet is Identify ==> r == OutEffect::Identity(self.user),
            !(packet is Identify) ==> r == OutEffect::Forward(packet),
    {
        match packet {
            OutPacket::Identify => OutEffect::Identity(self.user.clone()),
            other => OutEffect::Forward(other),
        }
    }
}

/// A session that stops responding is evicted by the first heartbeat
/// tick past the timeout window, and the ticks are one interval
/// apart, so eviction comes within one heartbeat interval of the
/// timeout elapsing.
pub proof fn lemma_eviction_within_one_interval(hb: u64, t_prev: u64, t_next: u64)
    requires
        hb <= t_prev,
        t_next == t_prev + HEARTBEAT_INTERVAL_MS,
        // the previous tick did not evict: silence had not yet
        // outlasted the window
        !evicts_at(hb, t_prev),
    ensures
        evicts_at(hb, t_next) ==> t_next <= hb + SESSION_TIMEOUT_MS + HEARTBEAT_INTERVAL_MS,
        t_next > hb + SESSION_TIMEOUT_MS ==> evicts_at(hb, t_next),
{
}

} // verus!
