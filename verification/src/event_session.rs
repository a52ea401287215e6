//! Per-subscriber adapters between the event bus and one outbound
//! stream.  Each adapter subscribes to exactly one entity type on
//! start and unsubscribes on teardown, and owns a bounded outbound
//! queue: an event that would overflow the queue closes the adapter
//! (slow-consumer eviction) instead of blocking the publisher.  The
//! comment adapter additionally filters by a fixed set of forum ids.

use vstd::prelude::*;

use crate::event::{Com, CommentEvent, ForumEvent, PostEvent, UserEvent};

verus! {

/// What one pushed event did to an adapter.
#[derive(Debug, Clone, Copy, PartialEq, Eq, Structural)]
pub enum PushOutcome {
    /// The event was queued for the subscriber.
    Forwarded,
    /// The event did not pass the adapter's filter; nothing changed.
    Filtered,
    /// The queue was full: the adapter closed itself.
    Overflowed,
}

/// Whether a forum id list holds a given id.
fn contains_forum(v: &Vec<i32>, x: i32) -> (r: bool)
    ensures
        r == v@.contains(x),
{
    let mut i: usize = 0;
    while i < v.len()
        invariant
            i <= v@.len(),
            forall|j: int| 0 <= j < i ==> v@[j] != x,
        decreases v@.len() - i,
    {
        if v[i] == x {
            return true;
        }
        i = i + 1;
    }
    proof {
        if v@.contains(x) {
            let j = choose|j: int| 0 <= j < v@.len() && v@[j] == x;
            assert(false);
        }
    }
    false
}

/// Adapter for user events.
#[derive(Debug)]
pub struct UserEventSession {
    /// The token under which this adapter sits in the listener set.
    pub subscriber: u64,
    /// The bounded outbound queue toward the transport.
    pub queue: Vec<UserEvent>,
    /// The queue's capacity.
    pub cap: usize,
    /// False once the adapter has closed itself.
    pub alive: bool,
}

impl UserEventSession {
    /// A fresh adapter with an empty queue of capacity `cap`.
    pub fn new(subscriber: u64, cap: usize) -> (r: Self)
        ensures
            r.subscriber == subscriber,
            r.cap == cap,
            r.queue@ == Seq::<UserEvent>::empty(),
            r.alive,
    {
        UserEventSession { subscriber, queue: Vec::new(), cap, alive: true }
    }

    /// The subscription sent when the adapter starts.
    pub fn started(&self) -> (r: Com)
        ensures
            r == Com::SubUser(self.subscriber),
    {
        Com::SubUser(self.subscriber)
    }

    /// The unsubscription sent when the adapter stops.
    pub fn stopping(&self) -> (r: Com)
        ensures
            r == Com::UnsubUser(self.subscriber),
    {
        Com::UnsubUser(self.subscriber)
    }

    /// Queues one published event, or closes the adapter when the
    /// subscriber is too slow to drain its queue.
    pub fn handle(&mut self, ev: UserEvent) -> (r: PushOutcome)
        ensures
            old(self).queue@.len() < old(self).cap ==> {
                &&& r is Forwarded
                &&& *final(self) == (UserEventSession {
                    queue: final(self).queue,
                    ..*old(self)
                })
                &&& final(self).queue@ == old(self).queue@.push(ev)
            },
            old(self).queue@.len() >= old(self).cap ==> {
                &&& r is Overflowed
                &&& *final(self) == (UserEventSession { alive: false, ..*old(self) })
            },
    {
        if self.queue.len() < self.cap {
            self.queue.push(ev);
            PushOutcome::Forwarded
        } else {
            self.alive = false;
            PushOutcome::Overflowed
        }
    }

    /// Hands the queued events to the transport, in push order.
    pub fn drain(&mut self) -> (r: Vec<UserEvent>)
        ensures
            r@ == old(self).queue@,
            *final(self) == (UserEventSession { queue: final(self).queue, ..*old(self) }),
            final(self).queue@ == Seq::<UserEvent>::empty(),
    {
        let mut out: Vec<UserEvent> = Vec::new();
        core::mem::swap(&mut out, &mut self.queue);
        out
    }
}

/// Adapter for forum events.
#[derive(Debug)]
pub struct ForumEventSession {
    pub subscriber: u64,
    pub queue: Vec<ForumEvent>,
    pub cap: usize,
    pub alive: bool,
}

impl ForumEventSession {
    /// A fresh adapter with an empty queue of capacity `cap`.
    pub fn new(subscriber: u64, cap: usize) -> (r: Self)
        ensures
            r.subscriber == subscriber,
            r.cap == cap,
            r.queue@ == Seq::<ForumEvent>::empty(),
            r.alive,
    {
        ForumEventSession { subscriber, queue: Vec::new(), cap, alive: true }
    }

    /// The subscription sent when the adapter starts.
    pub fn started(&self) -> (r: Com)
        ensures
            r == Com::SubForum(self.subscriber),
    {
        Com::SubForum(self.subscriber)
    }

    /// The unsubscription sent when the adapter stops.
    pub fn stopping(&self) -> (r: Com)
        ensures
            r == Com::UnsubForum(self.subscriber),
    {
        Com::UnsubForum(self.subscriber)
    }

    /// Queues one published event, or closes the adapter when the
    /// subscriber is too slow to drain its queue.
    pub fn handle(&mut self, ev: ForumEvent) -> (r: PushOutcome)
        ensures
            old(self).queue@.len() < old(self).cap ==> {
                &&& r is Forwarded
                &&& *final(self) == (ForumEventSession {
                    queue: final(self).queue,
                    ..*old(self)
                })
                &&& final(self).queue@ == old(self).queue@.push(ev)
            },
            old(self).queue@.len() >= old(self).cap ==> {
                &&& r is Overflowed
                &&& *final(self) == (ForumEventSession { alive: false, ..*old(self) })
            },
    {
        if self.queue.len() < self.cap {
            self.queue.push(ev);
            PushOutcome::Forwarded
        } else {
            self.alive = false;
            PushOutcome::Overflowed
        }
    }

    /// Hands the queued events to the transport, in push order.
    pub fn drain(&mut self) -> (r: Vec<ForumEvent>)
        ensures
            r@ == old(self).queue@,
            *final(self) == (ForumEventSession { queue: final(self).queue, ..*old(self) }),
            final(self).queue@ == Seq::<ForumEvent>::empty(),
    {
        let mut out: Vec<ForumEvent> = Vec::new();
        core::mem::swap(&mut out, &mut self.queue);
        out
    }
}

/// Adapter for post events.
#[derive(Debug)]
pub struct PostEventSession {
    pub subscriber: u64,
    pub queue: Vec<PostEvent>,
    pub cap: usize,
    pub alive: bool,
}

impl PostEventSession {
    /// A fresh adapter with an empty queue of capacity `cap`.
    pub fn new(subscriber: u64, cap: usize) -> (r: Self)
        ensures
            r.subscriber == subscriber,
            r.cap == cap,
            r.queue@ == Seq::<PostEvent>::empty(),
            r.alive,
    {
        PostEventSession { subscriber, queue: Vec::new(), cap, alive: true }
    }

    /// The subscription sent when the adapter starts.
    pub fn started(&self) -> (r: Com)
        ensures
            r == Com::SubPost(self.subscriber),
    {
        Com::SubPost(self.subscriber)
    }

    /// The unsubscription sent when the adapter stops.
    pub fn stopping(&self) -> (r: Com)
        ensures
            r == Com::UnsubPost(self.subscriber),
    {
        Com::UnsubPost(self.subscriber)
    }

    /// Queues one published event, or closes the adapter when the
    /// subscriber is too slow to drain its queue.
    pub fn handle(&mut self, ev: PostEvent) -> (r: PushOutcome)
        ensures
            old(self).queue@.len() < old(self).cap ==> {
                &&& r is Forwarded
                &&& *final(self) == (PostEventSession { queue: final(self).queue, ..*old(self) })
                &&& final(self).queue@ == old(self).queue@.push(ev)
            },
            old(self).queue@.len() >= old(self).cap ==> {
                &&& r is Overflowed
                &&& *final(self) == (PostEventSession { alive: false, ..*old(self) })
            },
    {
        if self.queue.len() < self.cap {
            self.queue.push(ev);
            PushOutcome::Forwarded
        } else {
            self.alive = false;
            PushOutcome::Overflowed
        }
    }

    /// Hands the queued events to the transport, in push order.
    pub fn drain(&mut self) -> (r: Vec<PostEvent>)
        ensures
            r@ == old(self).queue@,
            *final(self) == (PostEventSession { queue: final(self).queue, ..*old(self) }),
            final(self).queue@ == Seq::<PostEvent>::empty(),
    {
        let mut out: Vec<PostEvent> = Vec::new();
        core::mem::swap(&mut out, &mut self.queue);
        out
    }
}

/// Adapter for comment events, filtered to a fixed set of forums of
/// interest.
#[derive(Debug)]
pub struct CommentEventSession {
    pub subscriber: u64,
    /// Only comment events whose forum id is in this set are
    /// forwarded; the rest are dropped silently.
    pub forum_ids: Vec<i32>,
    pub queue: Vec<CommentEvent>,
    pub cap: usize,
    pub alive: bool,
}

impl CommentEventSession {
    /// Whether this adapter's filter admits an event.
    pub open spec fn accepts(self, ev: CommentEvent) -> bool {
        self.forum_ids@.contains(ev.comment.forum_id)
    }

    /// The adapter's queue after one pushed event: extended exactly
    /// when the filter admits the event and there is room.
    pub open spec fn queue_after(self, ev: CommentEvent) -> Seq<CommentEvent> {
        if self.accepts(ev) && self.queue@.len() < self.cap {
            self.queue@.push(ev)
        } else {
            self.queue@
        }
    }

    /// A fresh adapter filtering on `forum_ids`, with an empty queue
    /// of capacity `cap`.
    pub fn new(subscriber: u64, forum_ids: Vec<i32>, cap: usize) -> (r: Self)
        ensures
            r.subscriber == subscriber,
            r.forum_ids == forum_ids,
            r.cap == cap,
            r.queue@ == Seq::<CommentEvent>::empty(),
            r.alive,
    {
        CommentEventSession { subscriber, forum_ids, queue: Vec::new(), cap, alive: true }
    }

    /// The subscription sent when the adapter starts.
    pub fn started(&self) -> (r: Com)
        ensures
            r == Com::SubComment(self.subscriber),
    {
        Com::SubComment(self.subscriber)
    }

    /// The unsubscription sent when the adapter stops.
    pub fn stopping(&self) -> (r: Com)
        ensures
            r == Com::UnsubComment(self.subscriber),
    {
        Com::UnsubComment(self.subscriber)
    }

    /// Queues one published event if its forum id passes the filter;
    /// drops it silently otherwise; closes the adapter when the
    /// subscriber is too slow to drain its queue.
    pub fn handle(&mut self, ev: CommentEvent) -> (r: PushOutcome)
        ensures
            !old(self).accepts(ev) ==> {
                &&& r is Filtered
                &&& *final(self) == *old(self)
            },
            old(self).accepts(ev) && old(self).queue@.len() < old(self).cap ==> {
                &&& r is Forwarded
                &&& *final(self) == (CommentEventSession {
                    queue: final(self).queue,
                    ..*old(self)
                })
                &&& final(self).queue@ == old(self).queue@.push(ev)
            },
            old(self).accepts(ev) && old(self).queue@.len() >= old(self).cap ==> {
                &&& r is Overflowed
                &&& *final(self) == (CommentEventSession { alive: false, ..*old(self) })
            },
            final(self).queue@ == old(self).queue_after(ev),
    {
        if !contains_forum(&self.forum_ids, ev.comment.forum_id) {
            return PushOutcome::Filtered;
        }
        if self.queue.len() < self.cap {
            self.queue.push(ev);
            PushOutcome::Forwarded
        } else {
            self.alive = false;
            PushOutcome::Overflowed
        }
    }

    /// Hands the queued events to the transport, in push order.
    pub fn drain(&mut self) -> (r: Vec<CommentEvent>)
        ensures
            r@ == old(self).queue@,
            *final(self) == (CommentEventSession { queue: final(self).queue, ..*old(self) }),
            final(self).queue@ == Seq::<CommentEvent>::empty(),
    {
        let mut out: Vec<CommentEvent> = Vec::new();
        core::mem::swap(&mut out, &mut self.queue);
        out
    }
}

/// A published comment event is received only by subscribers whose
/// filter set contains its forum id.  The bus half is the contract of
/// `EventManager::publish_comment`: the recipients are exactly the
/// comment listener set, so an unsubscribed adapter never sees the
/// event.  This lemma is the adapter half: an adapter whose filter
/// set lacks the event's forum id leaves its queue unchanged even
/// when the event is pushed to it, while an adapter whose filter set
/// contains it (and whose queue has room) appends it.
pub proof fn lemma_comment_event_filtering(cs: CommentEventSession, ev: CommentEvent)
    ensures
        !cs.forum_ids@.contains(ev.comment.forum_id) ==> cs.queue_after(ev) == cs.queue@,
        cs.forum_ids@.contains(ev.comment.forum_id) && cs.queue@.len() < cs.cap
            ==> cs.queue_after(ev) == cs.queue@.push(ev),
{
}

} // verus!
