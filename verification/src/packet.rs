//! Wire-level shapes for the real-time relay: inbound client messages,
//! outbound server messages, and the internal control commands that
//! sessions send to the room registry.  Pure data; the JSON encoding
//! and decoding of these shapes happens at the transport edge, outside
//! the library.

use vstd::prelude::*;

use crate::models::file::MaybeEmptyFile;

verus! {

/// Immutable snapshot of the connected user, taken once when the
/// connection is established and never refreshed afterwards.
#[derive(Debug)]
pub struct ActiveUser {
    pub id: i32,
    pub username: String,
    pub display_name: String,
    pub bio: Option<String>,
    pub pfp: Option<MaybeEmptyFile>,
    pub banner: Option<MaybeEmptyFile>,
}

impl Clone for ActiveUser {
    fn clone(&self) -> (r: Self)
        ensures
            r == *self,
    {
        let r = ActiveUser {
            id: self.id,
            username: self.username.clone(),
            display_name: self.display_name.clone(),
            bio: self.bio.clone(),
            pfp: self.pfp.clone(),
            banner: self.banner.clone(),
        };
        proof {
            assert(r.bio == self.bio);
            assert(r.pfp == self.pfp);
            assert(r.banner == self.banner);
        }
        r
    }
}

/// A media attachment list as it appears on the wire.
pub type MediaList = Option<Vec<Option<MaybeEmptyFile>>>;

/// An inbound frame, already decoded from JSON by the transport.
#[derive(Debug)]
pub enum InPacket {
    /// A newly authored comment to relay to the room.
    Message { parent_id: Option<i32>, content: String, media: MediaList },
    /// A request for the presence snapshot of the room.
    ListActiveUsers,
}

/// A relay command: one inbound comment, stamped with the sending
/// session's own snapshot and room coordinates.
#[derive(Debug)]
pub struct InComment {
    pub user: ActiveUser,
    pub post_id: i32,
    pub forum_id: i32,
    pub parent_id: Option<i32>,
    pub content: String,
    pub media: MediaList,
}

/// What the persistence collaborator reports back for a successfully
/// stored comment: the row id and creation timestamp (seconds since
/// the epoch) that the store assigned.
#[derive(Debug, Clone, Copy, PartialEq, Eq, Structural)]
pub struct PersistedComment {
    pub id: i32,
    pub created_at: i64,
}

/// A comment as broadcast to every member of a room.
#[derive(Debug)]
pub struct OutComment {
    pub id: i32,
    pub created_at: i64,
    pub user: ActiveUser,
    pub post_id: i32,
    pub forum_id: i32,
    pub parent_id: Option<i32>,
    pub content: String,
    pub media: MediaList,
}

/// Notifies remaining room members that a user joined.
#[derive(Debug)]
pub struct ConnectNotification {
    pub user: ActiveUser,
}

impl Clone for ConnectNotification {
    fn clone(&self) -> (r: Self)
        ensures
            r == *self,
    {
        ConnectNotification { user: self.user.clone() }
    }
}

/// Notifies remaining room members that a user left; carries just the
/// departing user's id.
#[derive(Debug, Clone, Copy, PartialEq, Eq, Structural)]
pub struct DisconnectNotification {
    pub id: i32,
}

/// An outbound frame.  Every variant but `Identify` is serialized to
/// the client verbatim; `Identify` is a server-internal presence probe
/// that the owning session answers locally and that must never reach
/// the wire.
#[derive(Debug)]
pub enum OutPacket {
    ConnectNotification(ConnectNotification),
    DisconnectNotification(DisconnectNotification),
    OutComment(OutComment),
    ActiveUserList(Vec<ActiveUser>),
    Identify,
}

/// Registers a session with the registry: the session id, the room it
/// joins, an opaque token for its outbound handle, and the join
/// notification to fan out to the room's other members.
#[derive(Debug)]
pub struct Connect {
    pub addr: u64,
    pub id: u64,
    pub post_id: i32,
    pub notif: ConnectNotification,
}

/// Removes a session from the registry and tells the remaining room
/// members that it left.
#[derive(Debug)]
pub struct Disconnect {
    pub id: u64,
    pub post_id: i32,
    pub notif: DisconnectNotification,
}

/// Asks the registry for the presence snapshot of one room.
#[derive(Debug, Clone, Copy, PartialEq, Eq, Structural)]
pub struct ListActiveUsers {
    pub post_id: i32,
}

} // verus!
