//! The event bus: a single owner of four independent listener sets —
//! one per domain-entity type — that fans published domain events out
//! to every subscriber of the matching set.  Subscribers are known by
//! opaque handle tokens; the caller performs the pushes a publish
//! reports.

use vstd::prelude::*;

use crate::ids::{drop_member, lemma_drop_member, lemma_nodup_push};
use crate::models::comment::Comment;
use crate::models::forum::Forum;
use crate::models::post::Post;
use crate::models::user::User;

verus! {

/// What happened to a user.
#[derive(Debug, Clone, Copy, PartialEq, Eq, Structural)]
pub enum UserEventTy {
    UserCreation,
    UserBasicUpdate,
}

/// What happened to a forum.
#[derive(Debug, Clone, Copy, PartialEq, Eq, Structural)]
pub enum ForumEventTy {
    ForumCreation,
    ForumBasicUpdate,
}

/// What happened to a post.
#[derive(Debug, Clone, Copy, PartialEq, Eq, Structural)]
pub enum PostEventTy {
    PostCreation,
    PostBasicUpdate,
}

/// What happened to a comment.
#[derive(Debug, Clone, Copy, PartialEq, Eq, Structural)]
pub enum CommentEventTy {
    CommentCreation,
    CommentBasicUpdate,
}

/// A user mutation with the full entity payload.
#[derive(Debug)]
pub struct UserEvent {
    pub ty: UserEventTy,
    pub user: User,
}

/// A forum mutation with the full entity payload.
#[derive(Debug)]
pub struct ForumEvent {
    pub ty: ForumEventTy,
    pub forum: Forum,
}

/// A post mutation with the full entity payload.
#[derive(Debug)]
pub struct PostEvent {
    pub ty: PostEventTy,
    pub post: Post,
}

/// A comment mutation with the full entity payload.
#[derive(Debug)]
pub struct CommentEvent {
    pub ty: CommentEventTy,
    pub comment: Comment,
}

/// A subscription command: enter or leave one entity type's listener
/// set.  Both directions are idempotent.
#[derive(Debug, Clone, Copy, PartialEq, Eq, Structural)]
pub enum Com {
    SubUser(u64),
    SubForum(u64),
    SubPost(u64),
    SubComment(u64),
    UnsubUser(u64),
    UnsubForum(u64),
    UnsubPost(u64),
    UnsubComment(u64),
}

/// A listener set after inserting a subscriber: unchanged when the
/// subscriber is already present.
pub open spec fn with_listener(listeners: Seq<u64>, r: u64) -> Seq<u64> {
    if listeners.contains(r) {
        listeners
    } else {
        listeners.push(r)
    }
}

/// Whether a subscriber token occurs in a listener set.
fn contains_token(v: &Vec<u64>, x: u64) -> (r: bool)
    ensures
        r == v@.contains(x),
{
    let mut i: usize = 0;
    while i < v.len()
        invariant
            i <= v@.len(),
            forall|j: int| 0 <= j < i ==> v@[j] != x,
        decreases v@.len() - i,
    {
        if v[i] == x {
            return true;
        }
        i = i + 1;
    }
    proof {
        if v@.contains(x) {
            let j = choose|j: int| 0 <= j < v@.len() && v@[j] == x;
            assert(false);
        }
    }
    false
}

/// Set-inserts a subscriber into a listener set.
fn insert_listener(listeners: &mut Vec<u64>, r: u64)
    requires
        old(listeners)@.no_duplicates(),
    ensures
        final(listeners)@ == with_listener(old(listeners)@, r),
        final(listeners)@.no_duplicates(),
{
    if !contains_token(listeners, r) {
        proof {
            lemma_nodup_push(listeners@, r);
        }
        listeners.push(r);
    }
}

/// Set-removes a subscriber from a listener set; removing an absent
/// subscriber is a no-op.
fn remove_listener(listeners: &mut Vec<u64>, r: u64)
    requires
        old(listeners)@.no_duplicates(),
    ensures
        final(listeners)@ == drop_member(old(listeners)@, r),
        final(listeners)@.no_duplicates(),
{
    let ghost orig = listeners@;
    let mut i: usize = 0;
    proof {
        lemma_drop_member(orig, r);
    }
    while i < listeners.len()
        invariant
            i <= listeners@.len(),
            listeners@ == orig,
            orig == old(listeners)@,
            orig.no_duplicates(),
            forall|j: int| 0 <= j < i ==> listeners@[j] != r,
        decreases listeners@.len() - i,
    {
        if listeners[i] == r {
            proof {
                crate::ids::lemma_remove_is_drop(orig, i as int);
            }
            listeners.remove(i);
            return ;
        }
        i = i + 1;
    }
    proof {
        if orig.contains(r) {
            let j = choose|j: int| 0 <= j < orig.len() && orig[j] == r;
            assert(false);
        }
    }
}

/// The event bus state: who listens to which entity type.  A
/// subscriber may sit in several sets at once; within one set it is
/// counted once.
pub struct EventManager {
    pub user_event_listeners: Vec<u64>,
    pub forum_event_listeners: Vec<u64>,
    pub post_event_listeners: Vec<u64>,
    pub comment_event_listeners: Vec<u64>,
}

impl EventManager {
    /// Each listener set holds a subscriber at most once.
    pub open spec fn wf(self) -> bool {
        &&& self.user_event_listeners@.no_duplicates()
        &&& self.forum_event_listeners@.no_duplicates()
        &&& self.post_event_listeners@.no_duplicates()
        &&& self.comment_event_listeners@.no_duplicates()
    }

    /// A bus with no subscribers.
    pub fn new() -> (r: Self)
        ensures
            r.wf(),
            r.user_event_listeners@ == Seq::<u64>::empty(),
            r.forum_event_listeners@ == Seq::<u64>::empty(),
            r.post_event_listeners@ == Seq::<u64>::empty(),
            r.comment_event_listeners@ == Seq::<u64>::empty(),
    {
        EventManager {
            user_event_listeners: Vec::new(),
            forum_event_listeners: Vec::new(),
            post_event_listeners: Vec::new(),
            comment_event_listeners: Vec::new(),
        }
    }

    /// Applies one subscription command to exactly the listener set
    /// it names, leaving the other three untouched.
    pub fn handle(&mut self, com: Com)
        requires
            old(self).wf(),
        ensures
            final(self).wf(),
            final(self).user_event_listeners@ == match com {
                Com::SubUser(r) => with_listener(old(self).user_event_listeners@, r),
                Com::UnsubUser(r) => drop_member(old(self).user_event_listeners@, r),
                _ => old(self).user_event_listeners@,
            },
            final(self).forum_event_listeners@ == match com {
                Com::SubForum(r) => with_listener(old(self).forum_event_listeners@, r),
                Com::UnsubForum(r) => drop_member(old(self).forum_event_listeners@, r),
                _ => old(self).forum_event_listeners@,
            },
            final(self).post_event_listeners@ == match com {
                Com::SubPost(r) => with_listener(old(self).post_event_listeners@, r),
                Com::UnsubPost(r) => drop_member(old(self).post_event_listeners@, r),
                _ => old(self).post_event_listeners@,
            },
            final(self).comment_event_listeners@ == match com {
                Com::SubComment(r) => with_listener(old(self).comment_event_listeners@, r),
                Com::UnsubComment(r) => drop_member(old(self).comment_event_listeners@, r),
                _ => old(self).comment_event_listeners@,
            },
    {
        match com {
            Com::SubUser(r) => insert_listener(&mut self.user_event_listeners, r),
            Com::SubForum(r) => insert_listener(&mut self.forum_event_listeners, r),
            Com::SubPost(r) => insert_listener(&mut self.post_event_listeners, r),
            Com::SubComment(r) => insert_listener(&mut self.comment_event_listeners, r),
            Com::UnsubUser(r) => remove_listener(&mut self.user_event_listeners, r),
            Com::UnsubForum(r) => remove_listener(&mut self.forum_event_listeners, r),
            Com::UnsubPost(r) => remove_listener(&mut self.post_event_listeners, r),
            Com::UnsubComment(r) => remove_listener(&mut self.comment_event_listeners, r),
        }
    }

    /// The recipients of a published user event: every current user
    /// listener, each exactly once, in subscription order.
    pub fn publish_user(&self, ev: &UserEvent) -> (r: Vec<u64>)
        ensures
            r@ == self.user_event_listeners@,
    {
        copy_tokens(&self.user_event_listeners)
    }

    /// The recipients of a published forum event.
    pub fn publish_forum(&self, ev: &ForumEvent) -> (r: Vec<u64>)
        ensures
            r@ == self.forum_event_listeners@,
    {
        copy_tokens(&self.forum_event_listeners)
    }

    /// The recipients of a published post event.
    pub fn publish_post(&self, ev: &PostEvent) -> (r: Vec<u64>)
        ensures
            r@ == self.post_event_listeners@,
    {
        copy_tokens(&self.post_event_listeners)
    }

    /// The recipients of a published comment event.
    pub fn publish_comment(&self, ev: &CommentEvent) -> (r: Vec<u64>)
        ensures
            r@ == self.comment_event_listeners@,
    {
        copy_tokens(&self.comment_event_listeners)
    }
}

/// Copies a token list, push by push.
fn copy_tokens(v: &Vec<u64>) -> (r: Vec<u64>)
    ensures
        r@ == v@,
{
    let mut r: Vec<u64> = Vec::new();
    let mut i: usize = 0;
    while i < v.len()
        invariant
            i <= v@.len(),
            r@ == v@.take(i as int),
        decreases v@.len() - i,
    {
        r.push(v[i]);
        proof {
            assert(r@ =~= v@.take(i as int + 1));
        }
        i = i + 1;
    }
    proof {
        assert(v@.take(v@.len() as int) =~= v@);
    }
    r
}

} // verus!
