//! Event-bus behaviour: idempotent subscription, per-type fanout and
//! the comment adapter's forum filter with slow-consumer eviction.

use forum_core::event::{
    Com, CommentEvent, CommentEventTy, EventManager, ForumEvent, ForumEventTy, PostEvent,
    PostEventTy, UserEvent, UserEventTy,
};
use forum_core::event_session::{CommentEventSession, PushOutcome, UserEventSession};
use forum_core::models::comment::Comment;
use forum_core::models::file::{FileList, MaybeEmptyFile};
use forum_core::models::forum::Forum;
use forum_core::models::post::Post;
use forum_core::models::user::User;

fn sample_user(id: i32) -> User {
    User {
        id,
        username: format!("user{id}"),
        password: "stored-hash".to_string(),
        display_name: format!("User {id}"),
        bio: None,
        pfp: MaybeEmptyFile { id: None },
        banner: MaybeEmptyFile { id: None },
        created_at: 0,
        v: 0,
        admin: false,
    }
}

fn sample_forum(id: i32) -> Forum {
    Forum {
        id,
        name: format!("forum{id}"),
        display_name: format!("Forum {id}"),
        icon: MaybeEmptyFile { id: None },
        banner: MaybeEmptyFile { id: None },
        description: None,
        created_at: 0,
        owner_id: 1,
    }
}

fn sample_post(id: i32, forum_id: i32) -> Post {
    Post {
        id,
        tags: None,
        stars: 0,
        title: "t".to_string(),
        slug: "t-1".to_string(),
        content: None,
        media: FileList { files: None },
        created_at: 0,
        edited: false,
        edited_at: None,
        forum_id,
        poster_id: 1,
    }
}

fn sample_comment(id: i32, forum_id: i32) -> Comment {
    Comment {
        id,
        user_id: 1,
        post_id: 42,
        forum_id,
        parent_id: None,
        content: "c".to_string(),
        media: FileList { files: None },
        created_at: 0,
        edited: false,
        edited_at: None,
    }
}

#[test]
fn subscribe_and_unsubscribe_are_idempotent_set_operations() {
    let mut bus = EventManager::new();
    bus.handle(Com::SubUser(10));
    bus.handle(Com::SubUser(10));
    bus.handle(Com::SubUser(11));
    let ev = UserEvent { ty: UserEventTy::UserCreation, user: sample_user(1) };
    assert_eq!(bus.publish_user(&ev), vec![10, 11]);

    bus.handle(Com::UnsubUser(10));
    bus.handle(Com::UnsubUser(10));
    assert_eq!(bus.publish_user(&ev), vec![11]);
    bus.handle(Com::UnsubUser(99));
    assert_eq!(bus.publish_user(&ev), vec![11]);
}

#[test]
fn publish_reaches_only_the_matching_listener_set() {
    let mut bus = EventManager::new();
    bus.handle(Com::SubUser(1));
    bus.handle(Com::SubForum(2));
    bus.handle(Com::SubPost(3));
    bus.handle(Com::SubComment(4));

    let ue = UserEvent { ty: UserEventTy::UserBasicUpdate, user: sample_user(1) };
    let fe = ForumEvent { ty: ForumEventTy::ForumCreation, forum: sample_forum(5) };
    let pe = PostEvent { ty: PostEventTy::PostCreation, post: sample_post(6, 5) };
    let ce = CommentEvent { ty: CommentEventTy::CommentCreation, comment: sample_comment(7, 5) };

    assert_eq!(bus.publish_user(&ue), vec![1]);
    assert_eq!(bus.publish_forum(&fe), vec![2]);
    assert_eq!(bus.publish_post(&pe), vec![3]);
    assert_eq!(bus.publish_comment(&ce), vec![4]);
}

#[test]
fn comment_events_reach_only_subscribers_whose_filter_has_the_forum() {
    let mut bus = EventManager::new();
    let mut watching_seven = CommentEventSession::new(21, vec![7, 8], 100);
    let mut watching_nine = CommentEventSession::new(22, vec![9], 100);
    bus.handle(watching_seven.started());
    bus.handle(watching_nine.started());

    let ev = CommentEvent { ty: CommentEventTy::CommentCreation, comment: sample_comment(1, 7) };
    let recipients = bus.publish_comment(&ev);
    assert_eq!(recipients, vec![21, 22]);

    // the transport pushes the event to each listed adapter
    let ev_for_seven =
        CommentEvent { ty: CommentEventTy::CommentCreation, comment: sample_comment(1, 7) };
    let ev_for_nine =
        CommentEvent { ty: CommentEventTy::CommentCreation, comment: sample_comment(1, 7) };
    assert_eq!(watching_seven.handle(ev_for_seven), PushOutcome::Forwarded);
    assert_eq!(watching_nine.handle(ev_for_nine), PushOutcome::Filtered);

    let got = watching_seven.drain();
    assert_eq!(got.len(), 1);
    assert_eq!(got[0].comment.forum_id, 7);
    assert!(watching_nine.drain().is_empty());
}

#[test]
fn unsubscribed_adapter_is_not_among_recipients() {
    let mut bus = EventManager::new();
    let adapter = CommentEventSession::new(31, vec![7], 100);
    bus.handle(adapter.started());
    bus.handle(adapter.stopping());
    let ev = CommentEvent { ty: CommentEventTy::CommentCreation, comment: sample_comment(1, 7) };
    assert_eq!(bus.publish_comment(&ev), Vec::<u64>::new());
}

#[test]
fn slow_consumer_is_evicted_on_queue_overflow() {
    let mut adapter = UserEventSession::new(41, 2);
    let mk = || UserEvent { ty: UserEventTy::UserCreation, user: sample_user(1) };
    assert_eq!(adapter.handle(mk()), PushOutcome::Forwarded);
    assert_eq!(adapter.handle(mk()), PushOutcome::Forwarded);
    assert!(adapter.alive);
    assert_eq!(adapter.handle(mk()), PushOutcome::Overflowed);
    assert!(!adapter.alive);
    assert_eq!(adapter.drain().len(), 2);
}

#[test]
fn comment_adapter_overflow_requires_a_passing_filter() {
    let mut adapter = CommentEventSession::new(51, vec![7], 1);
    let mk = |forum| CommentEvent {
        ty: CommentEventTy::CommentCreation,
        comment: sample_comment(1, forum),
    };
    assert_eq!(adapter.handle(mk(7)), PushOutcome::Forwarded);
    // a filtered event never counts against the queue
    assert_eq!(adapter.handle(mk(9)), PushOutcome::Filtered);
    assert!(adapter.alive);
    assert_eq!(adapter.handle(mk(7)), PushOutcome::Overflowed);
    assert!(!adapter.alive);
}
