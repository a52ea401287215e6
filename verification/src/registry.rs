//! The room registry: the single owner of the mapping from room
//! (post id) to the sessions currently watching it, and from session
//! id to that session's outbound handle.  All mutations are meant to
//! be applied one at a time by a single consumer; the functions here
//! are the decisions that consumer makes.  Each command returns the
//! fanout it caused — which handles must be pushed which packet — and
//! the caller performs the actual pushes.

use vstd::prelude::*;
use vstd::seq_lib::*;

use crate::ids::{
    drop_member, lemma_contains_after_remove, lemma_drop_member, lemma_drop_member_distributes,
    lemma_filter_keeps_all, lemma_nodup_push, lemma_nodup_remove,
};

use crate::packet::{
    ActiveUser, Connect, ConnectNotification, Disconnect, DisconnectNotification, InComment,
    ListActiveUsers, OutComment, OutPacket, PersistedComment,
};

verus! {

/// One room membership entry: a session currently present in a room.
/// Entries are kept in connect order.
#[derive(Debug, Clone, Copy, PartialEq, Eq, Structural)]
pub struct Member {
    pub post_id: i32,
    pub session_id: u64,
}

/// One outbound-handle entry: the opaque handle token under which the
/// transport can reach a session.
#[derive(Debug, Clone, Copy, PartialEq, Eq, Structural)]
pub struct HandleEntry {
    pub session_id: u64,
    pub handle: u64,
}

/// One fanout: the same packet is pushed once into every listed
/// handle.  A push that fails is not retried and does not stop the
/// pushes to the remaining handles.
#[derive(Debug)]
pub struct Fanout {
    pub recipients: Vec<u64>,
    pub packet: OutPacket,
}

/// The session ids present in room `post_id`, in connect order.
pub open spec fn room_members(list: Seq<Member>, post_id: i32) -> Seq<u64> {
    list.filter(|m: Member| m.post_id == post_id).map_values(|m: Member| m.session_id)
}

/// The handle registered for session `sid`, scanning front to back.
pub open spec fn find_handle(handles: Seq<HandleEntry>, sid: u64) -> Option<u64>
    decreases handles.len(),
{
    if handles.len() == 0 {
        None
    } else if handles[0].session_id == sid {
        Some(handles[0].handle)
    } else {
        find_handle(handles.drop_first(), sid)
    }
}

/// The handles of the given sessions, in order, skipping sessions
/// without a handle entry.
pub open spec fn handles_for(handles: Seq<HandleEntry>, sids: Seq<u64>) -> Seq<u64>
    decreases sids.len(),
{
    if sids.len() == 0 {
        Seq::empty()
    } else {
        let prefix = handles_for(handles, sids.drop_last());
        match find_handle(handles, sids.last()) {
            Some(h) => prefix.push(h),
            None => prefix,
        }
    }
}

/// The room broadcast server's state: who is in which room, and how
/// to reach them.
pub struct RtServer {
    pub members: Vec<Member>,
    pub handles: Vec<HandleEntry>,
}

impl RtServer {
    /// The session ids that hold a handle entry.
    pub open spec fn handle_sids(self) -> Seq<u64> {
        self.handles@.map_values(|h: HandleEntry| h.session_id)
    }

    /// The session ids present in some room, in connect order.
    pub open spec fn member_sids(self) -> Seq<u64> {
        self.members@.map_values(|m: Member| m.session_id)
    }

    /// The members of room `post_id`, in connect order.
    pub open spec fn members_of(self, post_id: i32) -> Seq<u64> {
        room_members(self.members@, post_id)
    }

    /// The handle registered for a session, if any.
    pub open spec fn handle_of(self, sid: u64) -> Option<u64> {
        find_handle(self.handles@, sid)
    }

    /// Whether the registry knows the session at all.
    pub open spec fn has_session(self, sid: u64) -> bool {
        self.handle_of(sid) is Some
    }

    /// The registry invariant: a session id appears in at most one
    /// room (and only once there), and it appears in a room exactly
    /// when it holds a handle entry.
    pub open spec fn wf(self) -> bool {
        &&& self.member_sids().no_duplicates()
        &&& self.handle_sids().no_duplicates()
        &&& forall|s: u64| self.member_sids().contains(s) <==> self.handle_sids().contains(s)
    }

    /// An empty registry: no rooms, no handles.
    pub fn new() -> (r: Self)
        ensures
            r.wf(),
            r.members@ == Seq::<Member>::empty(),
            r.handles@ == Seq::<HandleEntry>::empty(),
    {
        RtServer { members: Vec::new(), handles: Vec::new() }
    }

    /// Looks up the outbound handle registered for a session.
    fn lookup_handle(&self, sid: u64) -> (r: Option<u64>)
        ensures
            r == self.handle_of(sid),
    {
        let mut i: usize = 0;
        proof {
            assert(self.handles@.skip(0) =~= self.handles@);
        }
        while i < self.handles.len()
            invariant
                i <= self.handles@.len(),
                find_handle(self.handles@, sid) == find_handle(self.handles@.skip(i as int), sid),
            decreases self.handles@.len() - i,
        {
            proof {
                assert(self.handles@.skip(i as int)[0] == self.handles@[i as int]);
                assert(self.handles@.skip(i as int).drop_first() =~= self.handles@.skip(
                    i as int + 1,
                ));
            }
            if self.handles[i].session_id == sid {
                return Some(self.handles[i].handle);
            }
            i = i + 1;
        }
        proof {
            assert(self.handles@.skip(self.handles@.len() as int).len() == 0);
        }
        None
    }

    /// Collects the outbound handles of every member of a room, in
    /// connect order, skipping members without a handle entry (under
    /// the invariant there are none).
    fn collect_room_handles(&self, post_id: i32) -> (r: Vec<u64>)
        ensures
            r@ == handles_for(self.handles@, self.members_of(post_id)),
    {
        let mut r: Vec<u64> = Vec::new();
        let mut i: usize = 0;
        proof {
            lemma_room_members_empty(post_id);
            assert(self.members@.take(0) =~= Seq::<Member>::empty());
        }
        while i < self.members.len()
            invariant
                i <= self.members@.len(),
                r@ == handles_for(
                    self.handles@,
                    room_members(self.members@.take(i as int), post_id),
                ),
            decreases self.members@.len() - i,
        {
            let m = self.members[i];
            proof {
                assert(self.members@.take(i as int + 1) =~= self.members@.take(i as int).push(m));
                lemma_room_members_push(self.members@.take(i as int), m, post_id);
                let sids = room_members(self.members@.take(i as int + 1), post_id);
                if m.post_id == post_id {
                    assert(sids.drop_last() =~= room_members(
                        self.members@.take(i as int),
                        post_id,
                    ));
                    assert(sids.last() == m.session_id);
                }
            }
            if m.post_id == post_id {
                match self.lookup_handle(m.session_id) {
                    Some(h) => {
                        r.push(h);
                    },
                    None => {},
                }
            }
            i = i + 1;
        }
        proof {
            assert(self.members@.take(self.members@.len() as int) =~= self.members@);
        }
        r
    }
}

impl RtServer {
    /// Inserts the session into the room and the handle table, then
    /// reports the join notification for fanout to every member the
    /// room had before the join.  Session ids are generated fresh at
    /// connect time, so an id already registered never connects.
    pub fn connect(&mut self, msg: Connect) -> (r: Fanout)
        requires
            old(self).wf(),
            !old(self).has_session(msg.id),
        ensures
            final(self).wf(),
            final(self).members_of(msg.post_id) == old(self).members_of(msg.post_id).push(msg.id),
            forall|q: i32|
                q != msg.post_id ==> final(self).members_of(q) == old(self).members_of(q),
            final(self).handle_of(msg.id) == Some(msg.addr),
            forall|s: u64| s != msg.id ==> final(self).handle_of(s) == old(self).handle_of(s),
            r.packet == OutPacket::ConnectNotification(msg.notif),
            r.recipients@ == handles_for(old(self).handles@, old(self).members_of(msg.post_id)),
            r.recipients@.len() == old(self).members_of(msg.post_id).len(),
    {
        let ghost old_self = *self;
        let recipients = self.collect_room_handles(msg.post_id);
        let entry = HandleEntry { session_id: msg.id, handle: msg.addr };
        let member = Member { post_id: msg.post_id, session_id: msg.id };
        self.handles.push(entry);
        self.members.push(member);
        proof {
            lemma_find_handle_contains(old_self.handles@, msg.id);
            assert(self.handles@ =~= old_self.handles@.push(entry));
            assert(self.members@ =~= old_self.members@.push(member));
            assert(self.handle_sids() =~= old_self.handle_sids().push(msg.id));
            assert(self.member_sids() =~= old_self.member_sids().push(msg.id));
            assert forall|s: u64| #[trigger] find_handle(self.handles@, s) == (if s == msg.id {
                Some(msg.addr)
            } else {
                find_handle(old_self.handles@, s)
            }) by {
                lemma_find_handle_push(old_self.handles@, entry, s);
            }
            assert forall|q: i32| q != msg.post_id implies self.members_of(q) == old_self.members_of(
                q,
            ) by {
                lemma_room_members_push(old_self.members@, member, q);
            }
            lemma_room_members_push(old_self.members@, member, msg.post_id);
            // the fresh id keeps both id lists duplicate-free
            assert(!old_self.member_sids().contains(msg.id));
            assert(self.member_sids().no_duplicates());
            assert(self.handle_sids().no_duplicates());
            assert forall|s: u64| self.member_sids().contains(s) <==> self.handle_sids().contains(
                s,
            ) by {
                assert(self.member_sids() == old_self.member_sids().push(msg.id));
                assert(self.handle_sids() == old_self.handle_sids().push(msg.id));
                if old_self.member_sids().contains(s) {
                    let j = choose|j: int|
                        0 <= j < old_self.member_sids().len() && old_self.member_sids()[j] == s;
                    assert(self.member_sids()[j] == s);
                    assert(self.member_sids().contains(s));
                }
                if old_self.handle_sids().contains(s) {
                    let j = choose|j: int|
                        0 <= j < old_self.handle_sids().len() && old_self.handle_sids()[j] == s;
                    assert(self.handle_sids()[j] == s);
                    assert(self.handle_sids().contains(s));
                }
                if s == msg.id {
                    assert(self.member_sids()[self.member_sids().len() - 1] == s);
                    assert(self.handle_sids()[self.handle_sids().len() - 1] == s);
                }
                if s != msg.id {
                    if self.member_sids().contains(s) {
                        let j = choose|j: int|
                            0 <= j < self.member_sids().len() && self.member_sids()[j] == s;
                        assert(old_self.member_sids()[j] == s);
                    }
                    if self.handle_sids().contains(s) {
                        let j = choose|j: int|
                            0 <= j < self.handle_sids().len() && self.handle_sids()[j] == s;
                        assert(old_self.handle_sids()[j] == s);
                    }
                }
            }
            lemma_room_handles_complete(old_self, msg.post_id);
        }
        Fanout { recipients, packet: OutPacket::ConnectNotification(msg.notif) }
    }

    /// Removes the session from its room and the handle table —
    /// removing an absent session is a no-op — then reports the leave
    /// notification for fanout to the room's remaining members.  A
    /// session that is present at all is present in the room it names.
    pub fn disconnect(&mut self, msg: Disconnect) -> (r: Fanout)
        requires
            old(self).wf(),
            old(self).member_sids().contains(msg.id) ==> old(self).members_of(
                msg.post_id,
            ).contains(msg.id),
        ensures
            final(self).wf(),
            !final(self).has_session(msg.id),
            final(self).members_of(msg.post_id) == drop_member(
                old(self).members_of(msg.post_id),
                msg.id,
            ),
            forall|q: i32|
                q != msg.post_id ==> final(self).members_of(q) == old(self).members_of(q),
            forall|s: u64| s != msg.id ==> final(self).handle_of(s) == old(self).handle_of(s),
            r.packet == OutPacket::DisconnectNotification(msg.notif),
            r.recipients@ == handles_for(final(self).handles@, final(self).members_of(msg.post_id)),
            r.recipients@.len() == final(self).members_of(msg.post_id).len(),
    {
        let ghost old_self = *self;
        // drop the membership entry, if there is one
        let mut i: usize = 0;
        let mut found: bool = false;
        while i < self.members.len() && !found
            invariant
                i <= self.members@.len(),
                *self == old_self,
                found ==> i < self.members@.len() && self.members@[i as int].session_id == msg.id,
                !found ==> forall|j: int| 0 <= j < i ==> self.members@[j].session_id != msg.id,
            decreases self.members@.len() - i + (if found {
                0int
            } else {
                1int
            }),
        {
            if self.members[i].session_id == msg.id {
                found = true;
            } else {
                i = i + 1;
            }
        }
        if found {
            proof {
                assert(old_self.member_sids()[i as int] == msg.id);
                assert(old_self.member_sids().contains(msg.id));
                lemma_room_members_within(old_self.members@, msg.post_id);
                // the entry found is in the room the command names
                let sids = old_self.members_of(msg.post_id);
                let j = choose|j: int| 0 <= j < sids.len() && sids[j] == msg.id;
                let k2 = choose|k2: int|
                    0 <= k2 < old_self.members@.len() && old_self.members@[k2].post_id
                        == msg.post_id && old_self.members@[k2].session_id == sids[j];
                assert(old_self.member_sids()[k2] == msg.id);
                assert(k2 == i as int);
                lemma_room_members_remove(old_self.members@, i as int, msg.post_id);
            }
            self.members.remove(i);
            proof {
                assert(self.members@ =~= old_self.members@.remove(i as int));
                lemma_map_sid_remove(old_self.members@, i as int);
                lemma_contains_after_remove(old_self.member_sids(), i as int, msg.id);
            }
            // the handle entry exists and is dropped with the member entry
            let mut k: usize = 0;
            let mut hfound: bool = false;
            while k < self.handles.len() && !hfound
                invariant
                    k <= self.handles@.len(),
                    self.handles@ == old_self.handles@,
                    hfound ==> k < self.handles@.len() && self.handles@[k as int].session_id
                        == msg.id,
                    !hfound ==> forall|j: int| 0 <= j < k ==> self.handles@[j].session_id
                        != msg.id,
                decreases self.handles@.len() - k + (if hfound {
                    0int
                } else {
                    1int
                }),
            {
                if self.handles[k].session_id == msg.id {
                    hfound = true;
                } else {
                    k = k + 1;
                }
            }
            proof {
                if !hfound {
                    assert(old_self.handle_sids().contains(msg.id));
                    let j = choose|j: int|
                        0 <= j < old_self.handle_sids().len() && old_self.handle_sids()[j]
                            == msg.id;
                    assert(old_self.handles@[j].session_id == msg.id);
                    assert(false);
                }
                lemma_find_handle_remove(old_self.handles@, k as int, msg.id);
            }
            self.handles.remove(k);
            proof {
                assert(self.handles@ =~= old_self.handles@.remove(k as int));
                lemma_map_hid_remove(old_self.handles@, k as int);
                lemma_contains_after_remove(old_self.handle_sids(), k as int, msg.id);
                lemma_nodup_remove(old_self.member_sids(), i as int);
                lemma_nodup_remove(old_self.handle_sids(), k as int);
                assert forall|s: u64|
                    self.member_sids().contains(s) <==> self.handle_sids().contains(s) by {
                    assert(self.member_sids() == old_self.member_sids().remove(i as int));
                    assert(self.handle_sids() == old_self.handle_sids().remove(k as int));
                    assert(old_self.member_sids().remove(i as int).contains(s) <==> (
                    old_self.member_sids().contains(s) && s != msg.id));
                    assert(old_self.handle_sids().remove(k as int).contains(s) <==> (
                    old_self.handle_sids().contains(s) && s != msg.id));
                }
                assert forall|s: u64| s != msg.id implies find_handle(self.handles@, s)
                    == find_handle(old_self.handles@, s) by {
                    lemma_find_handle_remove(old_self.handles@, k as int, s);
                }
                assert forall|q: i32| q != msg.post_id implies room_members(self.members@, q)
                    == room_members(old_self.members@, q) by {
                    assert(room_members(old_self.members@.remove(i as int), q) == room_members(
                        old_self.members@,
                        q,
                    ));
                }
                assert(room_members(old_self.members@.remove(i as int), msg.post_id)
                    == drop_member(room_members(old_self.members@, msg.post_id), msg.id));
            }
        } else {
            proof {
                if old_self.member_sids().contains(msg.id) {
                    let j = choose|j: int|
                        0 <= j < old_self.member_sids().len() && old_self.member_sids()[j]
                            == msg.id;
                    assert(old_self.members@[j].session_id == msg.id);
                    assert(false);
                }
                lemma_find_handle_contains(old_self.handles@, msg.id);
                lemma_room_members_within(old_self.members@, msg.post_id);
                if old_self.members_of(msg.post_id).contains(msg.id) {
                    assert(old_self.member_sids().contains(msg.id));
                    assert(false);
                }
                lemma_filter_keeps_all(old_self.members_of(msg.post_id), msg.id);
            }
        }
        let recipients = self.collect_room_handles(msg.post_id);
        proof {
            lemma_room_handles_complete(*self, msg.post_id);
        }
        Fanout { recipients, packet: OutPacket::DisconnectNotification(msg.notif) }
    }
}

/// The presence snapshots that actually arrived, in scatter order.
pub open spec fn some_values(replies: Seq<Option<ActiveUser>>) -> Seq<ActiveUser>
    decreases replies.len(),
{
    if replies.len() == 0 {
        Seq::empty()
    } else {
        let prefix = some_values(replies.drop_last());
        match replies.last() {
            Some(u) => prefix.push(u),
            None => prefix,
        }
    }
}

impl RtServer {
    /// Relays one inbound comment.  The caller first hands the comment
    /// to the persistence collaborator; this function turns the
    /// outcome into the broadcast: on success, one `OutComment` push
    /// per current room member, built from the inbound snapshot and
    /// the persisted id and timestamp; on failure, no push at all.
    /// The submitting client is not told of a failure either — the
    /// relay is fire-and-forget, a known limitation.
    pub fn relay(&self, post_id: i32, inc: InComment, persisted: Option<PersistedComment>) -> (r:
        Option<Fanout>)
        requires
            self.wf(),
        ensures
            persisted is None ==> r is None,
            persisted matches Some(p) ==> {
                &&& r is Some
                &&& r->0.packet == OutPacket::OutComment(
                    (OutComment {
                        id: p.id,
                        created_at: p.created_at,
                        user: inc.user,
                        post_id: inc.post_id,
                        forum_id: inc.forum_id,
                        parent_id: inc.parent_id,
                        content: inc.content,
                        media: inc.media,
                    }),
                )
                &&& r->0.recipients@ == handles_for(self.handles@, self.members_of(post_id))
                &&& r->0.recipients@.len() == self.members_of(post_id).len()
            },
    {
        match persisted {
            None => None,
            Some(p) => {
                let recipients = self.collect_room_handles(post_id);
                proof {
                    lemma_room_handles_complete(*self, post_id);
                }
                let out = OutComment {
                    id: p.id,
                    created_at: p.created_at,
                    user: inc.user,
                    post_id: inc.post_id,
                    forum_id: inc.forum_id,
                    parent_id: inc.parent_id,
                    content: inc.content,
                    media: inc.media,
                };
                Some(Fanout { recipients, packet: OutPacket::OutComment(out) })
            },
        }
    }

    /// The scatter half of a presence query: the handles to send an
    /// `Identify` probe to — one per current member of the room.
    pub fn list_targets(&self, msg: ListActiveUsers) -> (r: Vec<u64>)
        requires
            self.wf(),
        ensures
            r@ == handles_for(self.handles@, self.members_of(msg.post_id)),
            r@.len() == self.members_of(msg.post_id).len(),
    {
        let r = self.collect_room_handles(msg.post_id);
        proof {
            lemma_room_handles_complete(*self, msg.post_id);
        }
        r
    }

    /// The gather half of a presence query: keeps every snapshot that
    /// arrived and drops every probe that failed or timed out, so a
    /// dead member costs an entry but never the whole answer.
    pub fn gather_active_users(replies: Vec<Option<ActiveUser>>) -> (r: Vec<ActiveUser>)
        ensures
            r@ == some_values(replies@),
    {
        let mut r: Vec<ActiveUser> = Vec::new();
        let mut i: usize = 0;
        while i < replies.len()
            invariant
                i <= replies@.len(),
                r@ == some_values(replies@.take(i as int)),
            decreases replies@.len() - i,
        {
            proof {
                assert(replies@.take(i as int + 1).drop_last() =~= replies@.take(i as int));
                assert(replies@.take(i as int + 1).last() == replies@[i as int]);
            }
            match &replies[i] {
                Some(user) => {
                    r.push(user.clone());
                },
                None => {},
            }
            i = i + 1;
        }
        proof {
            assert(replies@.take(replies@.len() as int) =~= replies@);
        }
        r
    }
}

/// One registry command as it affects room membership.
#[derive(Debug, Clone, Copy, PartialEq, Eq, Structural)]
pub enum RoomEvent {
    Connect { session_id: u64, post_id: i32 },
    Disconnect { session_id: u64, post_id: i32 },
}

/// Whether a command is a connect of session `s` into `room`.
pub open spec fn connects(ev: RoomEvent, s: u64, room: i32) -> bool {
    ev == (RoomEvent::Connect { session_id: s, post_id: room })
}

/// Whether a command is a disconnect of session `s` from `room`.
pub open spec fn disconnects(ev: RoomEvent, s: u64, room: i32) -> bool {
    ev == (RoomEvent::Disconnect { session_id: s, post_id: room })
}

/// How one command changes the member list of room `room`: a connect
/// appends a session not yet present, a disconnect filters it out,
/// and commands aimed at other rooms change nothing.
pub open spec fn step_room(members: Seq<u64>, ev: RoomEvent, room: i32) -> Seq<u64> {
    match ev {
        RoomEvent::Connect { session_id, post_id } => if post_id == room && !members.contains(
            session_id,
        ) {
            members.push(session_id)
        } else {
            members
        },
        RoomEvent::Disconnect { session_id, post_id } => if post_id == room {
            drop_member(members, session_id)
        } else {
            members
        },
    }
}

/// The member list of room `room` after replaying a command sequence
/// against the empty registry.
pub open spec fn replay_room(events: Seq<RoomEvent>, room: i32) -> Seq<u64>
    decreases events.len(),
{
    if events.len() == 0 {
        Seq::empty()
    } else {
        step_room(replay_room(events.drop_last(), room), events.last(), room)
    }
}

/// No disconnect of session `s` from `room` occurs after position `i`.
pub open spec fn no_later_disconnect(events: Seq<RoomEvent>, room: i32, s: u64, i: int) -> bool {
    forall|j: int| i < j < events.len() ==> !disconnects(#[trigger] events[j], s, room)
}

/// Session `s` has connected to `room` and not disconnected since.
pub open spec fn live_in_room(events: Seq<RoomEvent>, room: i32, s: u64) -> bool {
    exists|i: int|
        0 <= i < events.len() && connects(#[trigger] events[i], s, room) && no_later_disconnect(
            events,
            room,
            s,
            i,
        )
}

/// Replaying any sequence of connects and disconnects leaves a room's
/// member list holding exactly the sessions that connected to it and
/// have not disconnected since — each at most once.
pub proof fn lemma_replay_membership(events: Seq<RoomEvent>, room: i32, s: u64)
    ensures
        replay_room(events, room).contains(s) <==> live_in_room(events, room, s),
        replay_room(events, room).no_duplicates(),
    decreases events.len(),
{
    if events.len() == 0 {
    } else {
        let prefix = events.drop_last();
        let ev = events.last();
        lemma_replay_membership(prefix, room, s);
        let mp = replay_room(prefix, room);
        let mm = replay_room(events, room);
        // every session: nodup needs the induction for arbitrary ids
        assert forall|x: u64| true implies (replay_room(prefix, room).contains(x)
            <==> live_in_room(prefix, room, x)) by {
            lemma_replay_membership(prefix, room, x);
        }
        match ev {
            RoomEvent::Connect { session_id: s2, post_id: p2 } => {
                if p2 == room && !mp.contains(s2) {
                    lemma_nodup_push(mp, s2);
                    assert(mm == mp.push(s2));
                } else {
                    assert(mm == mp);
                }
                // membership, left to right
                if mm.contains(s) {
                    if s == s2 && p2 == room {
                        assert(connects(events[events.len() - 1], s, room));
                        assert(no_later_disconnect(events, room, s, events.len() - 1));
                        assert(live_in_room(events, room, s));
                    } else {
                        assert(mp.contains(s)) by {
                            let idx = choose|idx: int| 0 <= idx < mm.len() && mm[idx] == s;
                            if p2 == room && !mp.contains(s2) {
                                assert(idx < mp.len());
                                assert(mp[idx] == s);
                            } else {
                                assert(mp[idx] == s);
                            }
                        }
                        let i = choose|i: int|
                            0 <= i < prefix.len() && connects(#[trigger] prefix[i], s, room)
                                && no_later_disconnect(prefix, room, s, i);
                        assert(events[i] == prefix[i]);
                        assert(no_later_disconnect(events, room, s, i)) by {
                            assert forall|j: int|
                                i < j < events.len() implies !disconnects(
                                #[trigger] events[j],
                                s,
                                room,
                            ) by {
                                if j < events.len() - 1 {
                                    assert(events[j] == prefix[j]);
                                }
                            }
                        }
                        assert(live_in_room(events, room, s));
                    }
                }
                // membership, right to left
                if live_in_room(events, room, s) {
                    let i = choose|i: int|
                        0 <= i < events.len() && connects(#[trigger] events[i], s, room)
                            && no_later_disconnect(events, room, s, i);
                    if i == events.len() - 1 {
                        assert(s == s2 && p2 == room);
                        if mp.contains(s2) {
                            assert(mm.contains(s));
                        } else {
                            assert(mm[mm.len() - 1] == s);
                            assert(mm.contains(s));
                        }
                    } else {
                        assert(connects(prefix[i], s, room));
                        assert(no_later_disconnect(prefix, room, s, i)) by {
                            assert forall|j: int|
                                i < j < prefix.len() implies !disconnects(
                                #[trigger] prefix[j],
                                s,
                                room,
                            ) by {
                                assert(prefix[j] == events[j]);
                            }
                        }
                        assert(live_in_room(prefix, room, s));
                        assert(mp.contains(s));
                        if p2 == room && !mp.contains(s2) {
                            let idx = choose|idx: int| 0 <= idx < mp.len() && mp[idx] == s;
                            assert(mm[idx] == s);
                            assert(mm.contains(s));
                        }
                    }
                }
            },
            RoomEvent::Disconnect { session_id: s2, post_id: p2 } => {
                if p2 == room {
                    lemma_drop_member(mp, s2);
                    assert(mm == drop_member(mp, s2));
                } else {
                    assert(mm == mp);
                }
                // membership, left to right
                if mm.contains(s) {
                    if p2 == room {
                        assert(s != s2);
                        assert(mp.contains(s));
                    } else {
                        assert(mp.contains(s));
                    }
                    let i = choose|i: int|
                        0 <= i < prefix.len() && connects(#[trigger] prefix[i], s, room)
                            && no_later_disconnect(prefix, room, s, i);
                    assert(events[i] == prefix[i]);
                    assert(no_later_disconnect(events, room, s, i)) by {
                        assert forall|j: int|
                            i < j < events.len() implies !disconnects(
                            #[trigger] events[j],
                            s,
                            room,
                        ) by {
                            if j < events.len() - 1 {
                                assert(events[j] == prefix[j]);
                            } else {
                                assert(events[j] == ev);
                                if p2 == room {
                                    assert(s != s2);
                                }
                            }
                        }
                    }
                    assert(live_in_room(events, room, s));
                }
                // membership, right to left
                if live_in_room(events, room, s) {
                    let i = choose|i: int|
                        0 <= i < events.len() && connects(#[trigger] events[i], s, room)
                            && no_later_disconnect(events, room, s, i);
                    assert(i < events.len() - 1);
                    assert(!disconnects(events[events.len() - 1], s, room));
                    if p2 == room {
                        assert(s != s2);
                    }
                    assert(connects(prefix[i], s, room));
                    assert(no_later_disconnect(prefix, room, s, i)) by {
                        assert forall|j: int|
                            i < j < prefix.len() implies !disconnects(
                            #[trigger] prefix[j],
                            s,
                            room,
                        ) by {
                            assert(prefix[j] == events[j]);
                        }
                    }
                    assert(live_in_room(prefix, room, s));
                    assert(mp.contains(s));
                    if p2 == room {
                        assert(mm.contains(s));
                    }
                }
            },
        }
    }
}

/// Two values stand in `s` in this order somewhere.
pub open spec fn order_embedded(s: Seq<u64>, x: u64, y: u64) -> bool {
    exists|i: int, j: int|
        #![trigger s[i], s[j]]
        0 <= i < j < s.len() && s[i] == x && s[j] == y
}

/// Filtering a value out keeps the relative order of what remains:
/// any two surviving entries sit in the source in the same order.
proof fn lemma_drop_member_order(s: Seq<u64>, sid: u64, a: int, b: int)
    requires
        0 <= a < b < drop_member(s, sid).len(),
    ensures
        order_embedded(s, drop_member(s, sid)[a], drop_member(s, sid)[b]),
    decreases s.len(),
{
    reveal(Seq::filter);
    let d = drop_member(s, sid);
    if s.len() == 0 {
    } else {
        let dp = drop_member(s.drop_last(), sid);
        assert(s.drop_last().push(s.last()) =~= s);
        if s.last() != sid {
            assert(d == dp.push(s.last()));
            if b < dp.len() {
                lemma_drop_member_order(s.drop_last(), sid, a, b);
                let (i, j) = choose|i: int, j: int|
                    #![trigger s.drop_last()[i], s.drop_last()[j]]
                    0 <= i < j < s.drop_last().len() && s.drop_last()[i] == dp[a]
                        && s.drop_last()[j] == dp[b];
                assert(s[i] == d[a] && s[j] == d[b]);
            } else {
                // the later entry is the appended one
                assert(d[b] == s.last());
                assert(dp.contains(dp[a]));
                lemma_drop_member(s.drop_last(), sid);
                assert(s.drop_last().contains(dp[a]));
                let i = choose|i: int| 0 <= i < s.drop_last().len() && s.drop_last()[i] == dp[a];
                let j = s.len() - 1;
                assert(s[i] == d[a] && s[j] == d[b]);
            }
        } else {
            assert(d == dp);
            lemma_drop_member_order(s.drop_last(), sid, a, b);
            let (i, j) = choose|i: int, j: int|
                #![trigger s.drop_last()[i], s.drop_last()[j]]
                0 <= i < j < s.drop_last().len() && s.drop_last()[i] == dp[a] && s.drop_last()[j]
                    == dp[b];
            assert(s[i] == d[a] && s[j] == d[b]);
        }
    }
}

/// Sessions `sa` then `sb` have live connects to `room` in that
/// order: each connected and never disconnected afterwards, and
/// `sa`'s connect came first.
pub open spec fn connects_in_order(events: Seq<RoomEvent>, room: i32, sa: u64, sb: u64) -> bool {
    exists|i: int, j: int|
        #![trigger events[i], events[j]]
        {
            &&& 0 <= i < j < events.len()
            &&& connects(events[i], sa, room)
            &&& connects(events[j], sb, room)
            &&& no_later_disconnect(events, room, sa, i)
            &&& no_later_disconnect(events, room, sb, j)
        }
}

/// The member list is in connect order: of any two present sessions,
/// the one listed first connected first — each session's live
/// connect (the connect after which it never disconnected) comes
/// earlier in the command sequence than the other's.
pub proof fn lemma_replay_connect_order(events: Seq<RoomEvent>, room: i32, a: int, b: int)
    requires
        0 <= a < b < replay_room(events, room).len(),
    ensures
        connects_in_order(
            events,
            room,
            replay_room(events, room)[a],
            replay_room(events, room)[b],
        ),
    decreases events.len(),
{
    let mm = replay_room(events, room);
    if events.len() == 0 {
    } else {
        let prefix = events.drop_last();
        let ev = events.last();
        let mp = replay_room(prefix, room);
        // lifting a live connect from the prefix stays live: the
        // appended command is not a disconnect of that session
        assert forall|s: u64, i: int|
            0 <= i < prefix.len() && #[trigger] connects(prefix[i], s, room)
                && no_later_disconnect(prefix, room, s, i) && !disconnects(
                ev,
                s,
                room,
            ) implies connects(events[i], s, room) && no_later_disconnect(events, room, s, i) by {
            assert(events[i] == prefix[i]);
            assert forall|j: int| i < j < events.len() implies !disconnects(
                #[trigger] events[j],
                s,
                room,
            ) by {
                if j < events.len() - 1 {
                    assert(events[j] == prefix[j]);
                } else {
                    assert(events[j] == ev);
                }
            }
        }
        match ev {
            RoomEvent::Connect { session_id: s2, post_id: p2 } => {
                if p2 == room && !mp.contains(s2) {
                    assert(mm == mp.push(s2));
                    if b < mp.len() {
                        lemma_replay_connect_order(prefix, room, a, b);
                        let (i, j) = choose|i: int, j: int|
                            #![trigger prefix[i], prefix[j]]
                            {
                                &&& 0 <= i < j < prefix.len()
                                &&& connects(prefix[i], mp[a], room)
                                &&& connects(prefix[j], mp[b], room)
                                &&& no_later_disconnect(prefix, room, mp[a], i)
                                &&& no_later_disconnect(prefix, room, mp[b], j)
                            };
                        assert(mm[a] == mp[a] && mm[b] == mp[b]);
                        assert(!disconnects(ev, mp[a], room) && !disconnects(ev, mp[b], room));
                        assert(connects(events[i], mm[a], room) && no_later_disconnect(
                            events,
                            room,
                            mm[a],
                            i,
                        ));
                        assert(connects(events[j], mm[b], room) && no_later_disconnect(
                            events,
                            room,
                            mm[b],
                            j,
                        ));
                        assert(connects_in_order(events, room, mm[a], mm[b]));
                    } else {
                        // the later entry is the connecting session
                        assert(b == mp.len() && mm[b] == s2);
                        let j = events.len() - 1;
                        assert(connects(events[j], s2, room));
                        assert(no_later_disconnect(events, room, s2, j));
                        assert(mm[a] == mp[a]);
                        assert(mp.contains(mp[a]));
                        lemma_replay_membership(prefix, room, mp[a]);
                        let i = choose|i: int|
                            0 <= i < prefix.len() && connects(#[trigger] prefix[i], mp[a], room)
                                && no_later_disconnect(prefix, room, mp[a], i);
                        assert(!disconnects(ev, mp[a], room));
                        assert(connects(events[i], mm[a], room) && no_later_disconnect(
                            events,
                            room,
                            mm[a],
                            i,
                        ));
                        assert(i < j);
                        assert(connects_in_order(events, room, mm[a], mm[b]));
                    }
                } else {
                    assert(mm == mp);
                    lemma_replay_connect_order(prefix, room, a, b);
                    let (i, j) = choose|i: int, j: int|
                        #![trigger prefix[i], prefix[j]]
                        {
                            &&& 0 <= i < j < prefix.len()
                            &&& connects(prefix[i], mp[a], room)
                            &&& connects(prefix[j], mp[b], room)
                            &&& no_later_disconnect(prefix, room, mp[a], i)
                            &&& no_later_disconnect(prefix, room, mp[b], j)
                        };
                    assert(!disconnects(ev, mp[a], room) && !disconnects(ev, mp[b], room));
                    assert(connects(events[i], mm[a], room) && no_later_disconnect(
                        events,
                        room,
                        mm[a],
                        i,
                    ));
                    assert(connects(events[j], mm[b], room) && no_later_disconnect(
                        events,
                        room,
                        mm[b],
                        j,
                    ));
                    assert(connects_in_order(events, room, mm[a], mm[b]));
                }
            },
            RoomEvent::Disconnect { session_id: s2, post_id: p2 } => {
                if p2 == room {
                    assert(mm == drop_member(mp, s2));
                    lemma_drop_member(mp, s2);
                    lemma_drop_member_order(mp, s2, a, b);
                    let (pa, pb) = choose|pa: int, pb: int|
                        #![trigger mp[pa], mp[pb]]
                        0 <= pa < pb < mp.len() && mp[pa] == drop_member(mp, s2)[a] && mp[pb]
                            == drop_member(mp, s2)[b];
                    lemma_replay_connect_order(prefix, room, pa, pb);
                    let (i, j) = choose|i: int, j: int|
                        #![trigger prefix[i], prefix[j]]
                        {
                            &&& 0 <= i < j < prefix.len()
                            &&& connects(prefix[i], mp[pa], room)
                            &&& connects(prefix[j], mp[pb], room)
                            &&& no_later_disconnect(prefix, room, mp[pa], i)
                            &&& no_later_disconnect(prefix, room, mp[pb], j)
                        };
                    // neither surviving session is the disconnected one
                    assert(mm.contains(mm[a]) && mm.contains(mm[b]));
                    assert(mm[a] != s2 && mm[b] != s2);
                    assert(!disconnects(ev, mm[a], room) && !disconnects(ev, mm[b], room));
                    assert(connects(events[i], mm[a], room) && no_later_disconnect(
                        events,
                        room,
                        mm[a],
                        i,
                    ));
                    assert(connects(events[j], mm[b], room) && no_later_disconnect(
                        events,
                        room,
                        mm[b],
                        j,
                    ));
                    assert(connects_in_order(events, room, mm[a], mm[b]));
                } else {
                    assert(mm == mp);
                    lemma_replay_connect_order(prefix, room, a, b);
                    let (i, j) = choose|i: int, j: int|
                        #![trigger prefix[i], prefix[j]]
                        {
                            &&& 0 <= i < j < prefix.len()
                            &&& connects(prefix[i], mp[a], room)
                            &&& connects(prefix[j], mp[b], room)
                            &&& no_later_disconnect(prefix, room, mp[a], i)
                            &&& no_later_disconnect(prefix, room, mp[b], j)
                        };
                    assert(!disconnects(ev, mp[a], room) && !disconnects(ev, mp[b], room));
                    assert(connects(events[i], mm[a], room) && no_later_disconnect(
                        events,
                        room,
                        mm[a],
                        i,
                    ));
                    assert(connects(events[j], mm[b], room) && no_later_disconnect(
                        events,
                        room,
                        mm[b],
                        j,
                    ));
                    assert(connects_in_order(events, room, mm[a], mm[b]));
                }
            },
        }
    }
}

/// A session present in a room's member set always has an outbound
/// handle entry, and a session with a handle entry is present in some
/// room: the two tables never disagree.
pub proof fn lemma_membership_handle_agreement(r: RtServer, post_id: i32, s: u64)
    requires
        r.wf(),
    ensures
        r.members_of(post_id).contains(s) ==> r.handle_of(s) is Some,
        r.handle_of(s) is Some ==> exists|q: i32| r.members_of(q).contains(s),
        r.handle_of(s) is None ==> !r.members_of(post_id).contains(s),
{
    lemma_room_members_within(r.members@, post_id);
    lemma_find_handle_contains(r.handles@, s);
    if r.members_of(post_id).contains(s) {
        let sids = r.members_of(post_id);
        let j = choose|j: int| 0 <= j < sids.len() && sids[j] == s;
        let k = choose|k: int|
            0 <= k < r.members@.len() && r.members@[k].post_id == post_id
                && r.members@[k].session_id == sids[j];
        assert(r.member_sids()[k] == s);
        assert(r.member_sids().contains(s));
    }
    if r.handle_of(s) is Some {
        assert(r.member_sids().contains(s));
        let k = choose|k: int| 0 <= k < r.member_sids().len() && r.member_sids()[k] == s;
        let q = r.members@[k].post_id;
        lemma_room_members_within(r.members@, q);
        assert(r.members@[k].session_id == s);
        assert(r.members_of(q).contains(s));
    }
}

/// Registering a fresh session is exactly the replay model's connect
/// step on every room: what `connect` leaves in a room equals
/// `step_room` applied to what was there.
pub proof fn lemma_connect_is_replay_step(r: RtServer, session_id: u64, post_id: i32, room: i32)
    requires
        r.wf(),
        !r.has_session(session_id),
    ensures
        room == post_id ==> step_room(
            r.members_of(room),
            RoomEvent::Connect { session_id, post_id },
            room,
        ) == r.members_of(room).push(session_id),
        room != post_id ==> step_room(
            r.members_of(room),
            RoomEvent::Connect { session_id, post_id },
            room,
        ) == r.members_of(room),
{
    lemma_membership_handle_agreement(r, room, session_id);
}

/// Removing a session is exactly the replay model's disconnect step
/// on every room: what `disconnect` leaves in a room equals
/// `step_room` applied to what was there.
pub proof fn lemma_disconnect_is_replay_step(r: RtServer, session_id: u64, post_id: i32, room: i32)
    ensures
        room == post_id ==> step_room(
            r.members_of(room),
            RoomEvent::Disconnect { session_id, post_id },
            room,
        ) == drop_member(r.members_of(room), session_id),
        room != post_id ==> step_room(
            r.members_of(room),
            RoomEvent::Disconnect { session_id, post_id },
            room,
        ) == r.members_of(room),
{
}

/// The members of any room of an empty membership list.
proof fn lemma_room_members_empty(post_id: i32)
    ensures
        room_members(Seq::<Member>::empty(), post_id) == Seq::<u64>::empty(),
{
    reveal(Seq::filter);
    assert(Seq::<Member>::empty().filter(|m: Member| m.post_id == post_id).map_values(
        |m: Member| m.session_id,
    ) =~= Seq::<u64>::empty());
}

/// Unfolds `room_members` over an appended membership entry.
proof fn lemma_room_members_push(list: Seq<Member>, m: Member, post_id: i32)
    ensures
        m.post_id == post_id ==> room_members(list.push(m), post_id) == room_members(
            list,
            post_id,
        ).push(m.session_id),
        m.post_id != post_id ==> room_members(list.push(m), post_id) == room_members(list, post_id),
{
    reveal(Seq::filter);
    let pred = |x: Member| x.post_id == post_id;
    assert(list.push(m).drop_last() =~= list);
    assert(list.push(m).last() == m);
    if pred(m) {
        assert(list.push(m).filter(pred) == list.filter(pred).push(m));
        assert(list.filter(pred).push(m).map_values(|x: Member| x.session_id) =~= list.filter(
            pred,
        ).map_values(|x: Member| x.session_id).push(m.session_id));
    }
}

/// Appending a handle entry changes no earlier lookup and serves
/// lookups of the new session id.
proof fn lemma_find_handle_push(handles: Seq<HandleEntry>, e: HandleEntry, sid: u64)
    ensures
        find_handle(handles.push(e), sid) == (if find_handle(handles, sid) is Some {
            find_handle(handles, sid)
        } else if e.session_id == sid {
            Some(e.handle)
        } else {
            None
        }),
    decreases handles.len(),
{
    if handles.len() == 0 {
        assert(handles.push(e)[0] == e);
        assert(handles.push(e).drop_first() =~= Seq::<HandleEntry>::empty());
        assert(find_handle(Seq::<HandleEntry>::empty(), sid) is None);
        if e.session_id == sid {
            assert(find_handle(handles.push(e), sid) == Some(e.handle));
        } else {
            assert(find_handle(handles.push(e), sid) == find_handle(
                handles.push(e).drop_first(),
                sid,
            ));
        }
    } else {
        assert(handles.push(e)[0] == handles[0]);
        assert(handles.push(e).drop_first() =~= handles.drop_first().push(e));
        lemma_find_handle_push(handles.drop_first(), e, sid);
        if handles[0].session_id != sid {
            assert(find_handle(handles.push(e), sid) == find_handle(
                handles.drop_first().push(e),
                sid,
            ));
            assert(find_handle(handles, sid) == find_handle(handles.drop_first(), sid));
        }
    }
}

/// A lookup succeeds exactly when the session id occurs in the table.
proof fn lemma_find_handle_contains(handles: Seq<HandleEntry>, sid: u64)
    ensures
        find_handle(handles, sid) is Some <==> handles.map_values(
            |h: HandleEntry| h.session_id,
        ).contains(sid),
    decreases handles.len(),
{
    let sids = handles.map_values(|h: HandleEntry| h.session_id);
    if handles.len() == 0 {
    } else {
        lemma_find_handle_contains(handles.drop_first(), sid);
        assert(handles.drop_first().map_values(|h: HandleEntry| h.session_id)
            =~= sids.drop_first());
        if handles[0].session_id == sid {
            assert(sids[0] == sid);
        } else {
            if sids.contains(sid) {
                let j = choose|j: int| 0 <= j < sids.len() && sids[j] == sid;
                assert(sids.drop_first()[j - 1] == sid);
            }
            if sids.drop_first().contains(sid) {
                let j = choose|j: int|
                    0 <= j < sids.drop_first().len() && sids.drop_first()[j] == sid;
                assert(sids[j + 1] == sid);
            }
        }
    }
}

/// Removing a handle entry removes exactly that session's lookup,
/// provided no session id occurs twice.
proof fn lemma_find_handle_remove(handles: Seq<HandleEntry>, k: int, sid: u64)
    requires
        0 <= k < handles.len(),
        handles.map_values(|h: HandleEntry| h.session_id).no_duplicates(),
    ensures
        find_handle(handles.remove(k), sid) == (if handles[k].session_id == sid {
            None
        } else {
            find_handle(handles, sid)
        }),
    decreases handles.len(),
{
    let sids = handles.map_values(|h: HandleEntry| h.session_id);
    if k == 0 {
        assert(handles.remove(0) =~= handles.drop_first());
        if handles[0].session_id == sid {
            lemma_find_handle_contains(handles.drop_first(), sid);
            assert(handles.drop_first().map_values(|h: HandleEntry| h.session_id)
                =~= sids.drop_first());
            if sids.drop_first().contains(sid) {
                let j = choose|j: int|
                    0 <= j < sids.drop_first().len() && sids.drop_first()[j] == sid;
                assert(sids[j + 1] == sid);
                assert(sids[0] == sid);
                assert(false);
            }
        }
    } else {
        assert(handles.remove(k)[0] == handles[0]);
        assert(handles.remove(k).drop_first() =~= handles.drop_first().remove(k - 1));
        assert(handles.drop_first().map_values(|h: HandleEntry| h.session_id)
            =~= sids.drop_first());
        assert(handles.drop_first().map_values(
            |h: HandleEntry| h.session_id,
        ).no_duplicates()) by {
            assert forall|a: int, b: int|
                0 <= a < sids.drop_first().len() && 0 <= b < sids.drop_first().len() && a
                    != b implies sids.drop_first()[a] != sids.drop_first()[b] by {
                assert(sids.drop_first()[a] == sids[a + 1]);
                assert(sids.drop_first()[b] == sids[b + 1]);
            }
        }
        lemma_find_handle_remove(handles.drop_first(), k - 1, sid);
        if handles[0].session_id == sid {
            assert(handles[k].session_id != sid) by {
                assert(sids[0] == sid);
                assert(sids[k] == handles[k].session_id);
            }
        }
    }
}

/// `map_values` over the session ids commutes with removing an entry.
proof fn lemma_map_sid_remove(list: Seq<Member>, i: int)
    requires
        0 <= i < list.len(),
    ensures
        list.remove(i).map_values(|m: Member| m.session_id) == list.map_values(
            |m: Member| m.session_id,
        ).remove(i),
{
    assert(list.remove(i).map_values(|m: Member| m.session_id) =~= list.map_values(
        |m: Member| m.session_id,
    ).remove(i));
}

/// `map_values` over the session ids commutes with removing an entry.
proof fn lemma_map_hid_remove(handles: Seq<HandleEntry>, i: int)
    requires
        0 <= i < handles.len(),
    ensures
        handles.remove(i).map_values(|h: HandleEntry| h.session_id) == handles.map_values(
            |h: HandleEntry| h.session_id,
        ).remove(i),
{
    assert(handles.remove(i).map_values(|h: HandleEntry| h.session_id) =~= handles.map_values(
        |h: HandleEntry| h.session_id,
    ).remove(i));
}

/// Every room member comes from a membership entry of that room, and
/// a duplicate-free member list yields a duplicate-free room.
proof fn lemma_room_members_within(list: Seq<Member>, post_id: i32)
    ensures
        forall|j: int|
            0 <= j < room_members(list, post_id).len() ==> exists|k: int|
                0 <= k < list.len() && list[k].post_id == post_id && list[k].session_id == #[trigger] room_members(list, post_id)[j],
        forall|k: int|
            0 <= k < list.len() && (#[trigger] list[k]).post_id == post_id ==> room_members(
                list,
                post_id,
            ).contains(list[k].session_id),
        list.map_values(|m: Member| m.session_id).no_duplicates() ==> room_members(
            list,
            post_id,
        ).no_duplicates(),
    decreases list.len(),
{
    if list.len() == 0 {
        lemma_room_members_empty(post_id);
        assert(list =~= Seq::<Member>::empty());
    } else {
        let prefix = list.drop_last();
        let last = list.last();
        lemma_room_members_within(prefix, post_id);
        lemma_room_members_push(prefix, last, post_id);
        assert(prefix.push(last) =~= list);
        let rm = room_members(list, post_id);
        let rmp = room_members(prefix, post_id);
        assert forall|k: int|
            0 <= k < list.len() && (#[trigger] list[k]).post_id == post_id implies rm.contains(
            list[k].session_id,
        ) by {
            if k < list.len() - 1 {
                assert(prefix[k].post_id == post_id);
                assert(rmp.contains(prefix[k].session_id));
                let j = choose|j: int| 0 <= j < rmp.len() && rmp[j] == prefix[k].session_id;
                assert(rm[j] == list[k].session_id);
            } else {
                assert(rm[rm.len() - 1] == last.session_id);
            }
        }
        assert forall|j: int|
            0 <= j < rm.len() implies exists|k: int|
            0 <= k < list.len() && list[k].post_id == post_id && list[k].session_id
                == #[trigger] rm[j] by {
            if last.post_id == post_id && j == rm.len() - 1 {
                assert(list[list.len() - 1].post_id == post_id && list[list.len()
                    - 1].session_id == rm[j]);
            } else {
                assert(rm[j] == rmp[j]);
                let k = choose|k: int|
                    0 <= k < prefix.len() && prefix[k].post_id == post_id && prefix[k].session_id
                        == rmp[j];
                assert(list[k].post_id == post_id && list[k].session_id == rm[j]);
            }
        }
        if list.map_values(|m: Member| m.session_id).no_duplicates() {
            let sids = list.map_values(|m: Member| m.session_id);
            assert(prefix.map_values(|m: Member| m.session_id) =~= sids.drop_last());
            assert(sids.drop_last().no_duplicates()) by {
                assert forall|a: int, b: int|
                    0 <= a < sids.drop_last().len() && 0 <= b < sids.drop_last().len() && a
                        != b implies sids.drop_last()[a] != sids.drop_last()[b] by {
                    assert(sids.drop_last()[a] == sids[a]);
                    assert(sids.drop_last()[b] == sids[b]);
                }
            }
            if last.post_id == post_id {
                // the appended member is new to the room
                assert(!rmp.contains(last.session_id)) by {
                    if rmp.contains(last.session_id) {
                        let j = choose|j: int| 0 <= j < rmp.len() && rmp[j] == last.session_id;
                        let k = choose|k: int|
                            0 <= k < prefix.len() && prefix[k].post_id == post_id
                                && prefix[k].session_id == rmp[j];
                        assert(sids[k] == last.session_id);
                        assert(sids[list.len() - 1] == last.session_id);
                        assert(false);
                    }
                }
                assert(rm == rmp.push(last.session_id));
                assert(rm.no_duplicates()) by {
                    assert forall|a: int, b: int|
                        0 <= a < rm.len() && 0 <= b < rm.len() && a != b implies rm[a] != rm[b] by {
                        if a < rm.len() - 1 && b < rm.len() - 1 {
                            assert(rm[a] == rmp[a] && rm[b] == rmp[b]);
                        } else if b == rm.len() - 1 {
                            assert(rm[a] == rmp[a]);
                            assert(rmp.contains(rmp[a]));
                        } else {
                            assert(rm[b] == rmp[b]);
                            assert(rmp.contains(rmp[b]));
                        }
                    }
                }
            }
        }
    }
}

/// Mapping to session ids commutes with concatenation.
proof fn lemma_map_sid_add(a: Seq<Member>, b: Seq<Member>)
    ensures
        (a + b).map_values(|m: Member| m.session_id) == a.map_values(|m: Member| m.session_id)
            + b.map_values(|m: Member| m.session_id),
{
    assert((a + b).map_values(|m: Member| m.session_id) =~= a.map_values(
        |m: Member| m.session_id,
    ) + b.map_values(|m: Member| m.session_id));
}

/// Removing a membership entry takes exactly that session out of its
/// room and leaves every other room untouched.
proof fn lemma_room_members_remove(list: Seq<Member>, kk: int, post_id: i32)
    requires
        0 <= kk < list.len(),
        list.map_values(|m: Member| m.session_id).no_duplicates(),
    ensures
        list[kk].post_id == post_id ==> room_members(list.remove(kk), post_id) == drop_member(
            room_members(list, post_id),
            list[kk].session_id,
        ),
        forall|q: i32|
            q != list[kk].post_id ==> room_members(list.remove(kk), q) == room_members(list, q),
{
    reveal(Seq::filter);
    let front = list.subrange(0, kk);
    let mid = list.subrange(kk, kk + 1);
    let back = list.subrange(kk + 1, list.len() as int);
    let entry = list[kk];
    assert(list =~= front + mid + back);
    assert(list.remove(kk) =~= front + back);
    assert forall|q: i32| true implies #[trigger] room_members(list, q) == room_members(front, q)
        + room_members(mid, q) + room_members(back, q) by {
        let pred = |m: Member| m.post_id == q;
        Seq::filter_distributes_over_add(front + mid, back, pred);
        Seq::filter_distributes_over_add(front, mid, pred);
        lemma_map_sid_add((front + mid).filter(pred), back.filter(pred));
        lemma_map_sid_add(front.filter(pred), mid.filter(pred));
        assert((front + mid) + back =~= list);
        assert((front + mid).filter(pred) + back.filter(pred) == ((front + mid) + back).filter(
            pred,
        ));
    }
    assert forall|q: i32| true implies #[trigger] room_members(list.remove(kk), q) == room_members(
        front,
        q,
    ) + room_members(back, q) by {
        let pred = |m: Member| m.post_id == q;
        Seq::filter_distributes_over_add(front, back, pred);
        lemma_map_sid_add(front.filter(pred), back.filter(pred));
    }
    // the middle singleton filters to itself in its own room and to
    // nothing in any other
    assert forall|q: i32| true implies #[trigger] room_members(mid, q) == (if entry.post_id == q {
        Seq::<u64>::empty().push(entry.session_id)
    } else {
        Seq::<u64>::empty()
    }) by {
        let pred = |m: Member| m.post_id == q;
        assert(mid.len() == 1);
        assert(mid.drop_last() =~= Seq::<Member>::empty());
        assert(mid.last() == entry);
        assert(Seq::<Member>::empty().filter(pred) =~= Seq::<Member>::empty());
        if entry.post_id == q {
            assert(mid.filter(pred) == Seq::<Member>::empty().push(entry));
            assert(mid.filter(pred).map_values(|m: Member| m.session_id) =~= Seq::<
                u64,
            >::empty().push(entry.session_id));
        } else {
            assert(mid.filter(pred) =~= Seq::<Member>::empty());
            assert(mid.filter(pred).map_values(|m: Member| m.session_id) =~= Seq::<u64>::empty());
        }
    }
    assert forall|q: i32| q != entry.post_id implies room_members(list.remove(kk), q)
        == room_members(list, q) by {
        assert(room_members(front, q) + Seq::<u64>::empty() + room_members(back, q)
            =~= room_members(front, q) + room_members(back, q));
    }
    if entry.post_id == post_id {
        let rmf = room_members(front, post_id);
        let rmb = room_members(back, post_id);
        let sid = entry.session_id;
        let sids = list.map_values(|m: Member| m.session_id);
        lemma_room_members_within(front, post_id);
        lemma_room_members_within(back, post_id);
        assert(!rmf.contains(sid)) by {
            if rmf.contains(sid) {
                let j = choose|j: int| 0 <= j < rmf.len() && rmf[j] == sid;
                let k = choose|k: int|
                    0 <= k < front.len() && front[k].post_id == post_id && front[k].session_id
                        == rmf[j];
                assert(sids[k] == sid);
                assert(sids[kk] == sid);
                assert(false);
            }
        }
        assert(!rmb.contains(sid)) by {
            if rmb.contains(sid) {
                let j = choose|j: int| 0 <= j < rmb.len() && rmb[j] == sid;
                let k = choose|k: int|
                    0 <= k < back.len() && back[k].post_id == post_id && back[k].session_id
                        == rmb[j];
                assert(sids[k + kk + 1] == sid);
                assert(sids[kk] == sid);
                assert(false);
            }
        }
        let single = Seq::<u64>::empty().push(sid);
        let whole = room_members(list, post_id);
        assert(whole == rmf + single + rmb);
        lemma_drop_member_distributes(rmf + single, rmb, sid);
        lemma_drop_member_distributes(rmf, single, sid);
        lemma_filter_keeps_all(rmf, sid);
        lemma_filter_keeps_all(rmb, sid);
        assert(drop_member(single, sid) =~= Seq::<u64>::empty()) by {
            reveal(Seq::filter);
            assert(drop_member(Seq::<u64>::empty(), sid) =~= Seq::<u64>::empty());
            assert(single.drop_last() =~= Seq::<u64>::empty());
            assert(single.len() == 1);
            assert(single.last() == sid);
        }
        assert((rmf + single) + rmb =~= whole);
        assert(drop_member(whole, sid) == (rmf + Seq::<u64>::empty()) + rmb);
        assert((rmf + Seq::<u64>::empty()) + rmb =~= rmf + rmb);
    }
}

/// The lookups the room fanout makes: one per member, each successful.
proof fn lemma_handles_for_len(handles: Seq<HandleEntry>, sids: Seq<u64>)
    requires
        forall|j: int| 0 <= j < sids.len() ==> find_handle(handles, #[trigger] sids[j]) is Some,
    ensures
        handles_for(handles, sids).len() == sids.len(),
    decreases sids.len(),
{
    if sids.len() > 0 {
        assert forall|j: int|
            0 <= j < sids.drop_last().len() implies find_handle(
            handles,
            #[trigger] sids.drop_last()[j],
        ) is Some by {
            assert(sids.drop_last()[j] == sids[j]);
        }
        lemma_handles_for_len(handles, sids.drop_last());
        assert(sids.contains(sids.last()));
    }
}

/// Under the registry invariant, every member of a room has a handle,
/// so a room fanout reaches exactly the room's members.
pub proof fn lemma_room_handles_complete(r: RtServer, post_id: i32)
    requires
        r.wf(),
    ensures
        handles_for(r.handles@, r.members_of(post_id)).len() == r.members_of(post_id).len(),
{
    lemma_room_members_within(r.members@, post_id);
    let sids = r.members_of(post_id);
    assert forall|j: int| 0 <= j < sids.len() implies find_handle(
        r.handles@,
        #[trigger] sids[j],
    ) is Some by {
        let k = choose|k: int|
            0 <= k < r.members@.len() && r.members@[k].post_id == post_id
                && r.members@[k].session_id == sids[j];
        assert(r.member_sids()[k] == sids[j]);
        assert(r.member_sids().contains(sids[j]));
        assert(r.handle_sids().contains(sids[j]));
        lemma_find_handle_contains(r.handles@, sids[j]);
    }
    lemma_handles_for_len(r.handles@, sids);
}

} // verus!
