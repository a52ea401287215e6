//! Validation helpers, error messages, file references, pagination
//! defaults and the update-shape conversions.

use forum_core::error::{ForumCreationError, PostCreationError, UserAuthError, UserCreationError};
use forum_core::helpers::{
    calculate_password_strength, check_reserved_username, check_valid_uservane, validate_new_user,
    validate_password, validate_username,
};
use forum_core::models::comment::{Comment, CommentHierarchy};
use forum_core::models::file::{FileList, FileStatus, MaybeEmptyFile};
use forum_core::models::forum::{Forum, SearchForum};
use forum_core::models::post::Post;
use forum_core::models::user::{NewUser, SearchUser, User};
use forum_core::mutation::{
    BasicCommentUpdate, BasicForumUpdate, BasicPostUpdate, BasicUserUpdate,
};
use forum_core::query::{
    Page, PageOrder, RawCountRange, RawPage, RawUserFilter, RawUserOrder, UserOrder, UserOrderType,
};

#[test]
fn reserved_usernames_are_exactly_the_platform_names() {
    for name in ["admin", "administrator", "moderator", "mod", "system"] {
        assert!(check_reserved_username(name));
    }
    assert!(!check_reserved_username("admin2"));
    assert!(!check_reserved_username(""));
    assert!(!check_reserved_username("Admin"));
}

#[test]
fn username_charset_is_lowercase_alphanumeric_and_underscore() {
    assert!(check_valid_uservane("good_name_42"));
    assert!(check_valid_uservane(""));
    assert!(!check_valid_uservane("Bad"));
    assert!(!check_valid_uservane("has space"));
    assert!(!check_valid_uservane("dash-ed"));
    assert!(!check_valid_uservane("ümläut"));
}

#[test]
fn username_validation_orders_its_errors() {
    assert!(matches!(
        validate_username("admin"),
        Err(UserCreationError::ReservedUsername(_))
    ));
    assert!(matches!(
        validate_username("a_very_long_username_indeed"),
        Err(UserCreationError::InvalidUsername(_))
    ));
    assert!(matches!(
        validate_username("CAPS"),
        Err(UserCreationError::InvalidUsername(_))
    ));
    assert!(validate_username("fine_name").is_ok());
}

#[test]
fn password_strength_scores_real_passwords() {
    // a dictionary password scores low
    let weak = calculate_password_strength("password", "someone").unwrap();
    assert!(weak < 3, "a dictionary word must score low, got {weak}");
    // a long random password scores high
    let strong = calculate_password_strength("xk3#Pz9!mQv7wL2t", "someone").unwrap();
    assert!(strong >= 3, "a random password must score high, got {strong}");
    assert!(strong <= 4);
    // the username counts as a known input
    let self_named = calculate_password_strength("someone", "someone").unwrap();
    assert!(self_named < 3);
    // a blank password cannot be scored
    assert!(calculate_password_strength("", "someone").is_err());
}

#[test]
fn password_validation_orders_its_errors() {
    assert!(matches!(
        validate_password("whatever", 2),
        Err(UserCreationError::LowPasswordStrength(_))
    ));
    assert!(matches!(
        validate_password("abcdefghijklmnopqrstuvwxyz0123456789", 4),
        Err(UserCreationError::PasswordTooLong(_))
    ));
    assert!(validate_password("ok-length", 3).is_ok());
}

#[test]
fn new_user_validation_combines_all_checks() {
    assert!(matches!(
        validate_new_user("admin", "xk3#Pz9!mQv7wL2t"),
        Err(UserCreationError::ReservedUsername(_))
    ));
    assert!(matches!(
        validate_new_user("fine_name", ""),
        Err(UserCreationError::PasswordTooShort(_))
    ));
    assert!(matches!(
        validate_new_user("fine_name", "password"),
        Err(UserCreationError::LowPasswordStrength(_))
    ));
    assert!(validate_new_user("fine_name", "xk3#Pz9!mQv7wL2t").is_ok());
}

#[test]
fn error_messages_carry_their_text() {
    assert_eq!(UserCreationError::InternalError("boom").message(), "boom");
    assert_eq!(UserAuthError::UserNotFound("who").message(), "who");
    assert_eq!(ForumCreationError::InvalidName("bad").message(), "bad");
    assert_eq!(PostCreationError::ForumNotFound("gone").message(), "gone");
}

#[test]
fn file_status_controls_updates_and_inserts() {
    assert!(FileStatus::Empty.updatable());
    assert!(FileStatus::Exists.updatable());
    assert!(!FileStatus::Invalid.updatable());
    assert!(FileStatus::Exists.insertable());
    assert!(!FileStatus::Empty.insertable());
    assert!(!FileStatus::Invalid.insertable());
}

#[test]
fn file_status_follows_the_store_lookup() {
    let named = MaybeEmptyFile::new("pic.png".to_string());
    assert!(matches!(named.status(Some(true)), Some(FileStatus::Exists)));
    assert!(matches!(named.status(Some(false)), Some(FileStatus::Invalid)));
    assert!(named.status(None).is_none(), "a failed lookup fails the status check");
    // an empty reference never consults the store
    assert!(matches!(MaybeEmptyFile::empty().status(None), Some(FileStatus::Empty)));
    assert!(matches!(MaybeEmptyFile::empty().status(Some(false)), Some(FileStatus::Empty)));
}

#[test]
fn signup_rows_start_with_the_username_as_display_name() {
    let row = NewUser::new("fine_name", "stored-hash");
    assert_eq!(row.username, "fine_name");
    assert_eq!(row.password, "stored-hash");
    assert_eq!(row.display_name, "fine_name");
}

#[test]
fn empty_file_ids_are_normalized() {
    assert_eq!(MaybeEmptyFile::new("pic.png".to_string()).id, Some("pic.png".to_string()));
    assert_eq!(MaybeEmptyFile::new(String::new()).id, None);
    assert_eq!(MaybeEmptyFile::empty().id, None);
}

#[test]
fn absolute_paths_carry_the_cdn_prefix() {
    let file = MaybeEmptyFile::new("pic.png".to_string());
    assert_eq!(file.absolute_path(), Some("/cdn/pic.png".to_string()));
    assert_eq!(MaybeEmptyFile::empty().absolute_path(), None);
    assert_eq!(MaybeEmptyFile::from(Some("x.png".to_string())).id, Some("x.png".to_string()));
    assert_eq!(MaybeEmptyFile::from(Some(String::new())).id, None);
    assert_eq!(MaybeEmptyFile::from(None).id, None);
}

#[test]
fn file_lists_keep_present_ids_in_order() {
    let list = FileList::new(vec!["a.png".to_string(), "".to_string(), "b.png".to_string()]);
    let files = list.files.as_ref().unwrap();
    assert_eq!(files.len(), 3);
    assert_eq!(list.ids(), Some(vec!["a.png".to_string(), "b.png".to_string()]));

    let empty = FileList::new(vec![]);
    assert!(empty.files.is_none());
    assert_eq!(empty.ids(), None);
    assert_eq!(FileList::empty().ids(), None);
}

#[test]
fn page_defaults_fill_in_order_cursor_and_size() {
    let raw = RawPage::from(None);
    assert_eq!(raw.order, PageOrder::DESC);
    assert_eq!(raw.next_from, i32::MAX);
    assert_eq!(raw.per, 10);

    let raw = RawPage::from(Some(Page { order: None, next_from: 5, limit: Some(200) }));
    assert_eq!(raw.order, PageOrder::DESC);
    assert_eq!(raw.next_from, 5);
    assert_eq!(raw.per, 50, "the page size is clamped");

    let raw = RawPage::from(Some(Page {
        order: Some(PageOrder::ASC),
        next_from: 1,
        limit: None,
    }));
    assert_eq!(raw.order, PageOrder::ASC);
    assert_eq!(raw.per, 10);

    assert_eq!(PageOrder::ASC.as_str(), "ASC");
    assert_eq!(PageOrder::DESC.as_str(), "DESC");
}

#[test]
fn user_filter_defaults_admit_everyone() {
    let raw = RawUserFilter::from(None);
    assert_eq!(raw.forum_count, RawCountRange { ge: 0, le: i64::MAX });
    assert_eq!(raw.stars, RawCountRange { ge: 0, le: i64::MAX });
    assert_eq!(raw.admin, None);
    assert_eq!(raw.admin_str(), "IS NOT NULL");
    let t = RawUserFilter { admin: Some(true), ..raw };
    assert_eq!(t.admin_str(), "= true");
    let f = RawUserFilter { admin: Some(false), ..raw };
    assert_eq!(f.admin_str(), "= false");
}

#[test]
fn user_order_cursor_defaults_follow_the_direction() {
    let raw = RawUserOrder::from(None);
    assert_eq!(raw.ty, UserOrderType::NoOrder);
    assert_eq!(raw.last_id, 0);
    let raw = RawUserOrder::from(Some(UserOrder { ty: UserOrderType::PostCountDesc, last_id: None }));
    assert_eq!(raw.last_id, i32::MAX);
    let raw = RawUserOrder::from(Some(UserOrder { ty: UserOrderType::PostCountAsc, last_id: None }));
    assert_eq!(raw.last_id, 0);
    let raw = RawUserOrder::from(Some(UserOrder { ty: UserOrderType::PostCountDesc, last_id: Some(9) }));
    assert_eq!(raw.last_id, 9);
}

#[test]
fn comment_update_tombstones_cleared_content() {
    let upd = BasicCommentUpdate {
        id: 4,
        content: Some(String::new()),
        media: Some(vec!["m.png".to_string()]),
    }
    .into_update(1234);
    assert_eq!(upd.id, 4);
    assert_eq!(upd.content.as_deref(), Some("User cleared this comment"));
    assert!(upd.edited);
    assert_eq!(upd.edited_at, Some(1234));
    let media = upd.media.unwrap().files.unwrap();
    assert_eq!(media.len(), 1);
    assert_eq!(media[0].id, Some("m.png".to_string()));

    let upd = BasicCommentUpdate { id: 4, content: Some("kept".to_string()), media: None }
        .into_update(1);
    assert_eq!(upd.content.as_deref(), Some("kept"));
    assert!(upd.media.is_none());
}

#[test]
fn forum_update_clears_empty_description_and_wraps_files() {
    let upd = BasicForumUpdate {
        id: 8,
        display_name: Some("Name".to_string()),
        icon: Some("i.png".to_string()),
        banner: Some(String::new()),
        description: Some(String::new()),
    }
    .into_update();
    assert_eq!(upd.id, 8);
    assert!(upd.name.is_none());
    assert!(upd.owner_id.is_none());
    assert_eq!(upd.description, Some(None));
    assert_eq!(upd.icon.unwrap().id, Some("i.png".to_string()));
    assert_eq!(upd.banner.unwrap().id, None);
}

#[test]
fn post_update_rederives_the_slug_from_the_title() {
    let upd = BasicPostUpdate {
        id: 3,
        tags: Some(vec![]),
        title: Some("My Test String!!!1!1".to_string()),
        content: Some(String::new()),
        media: None,
    }
    .into_update(99);
    assert_eq!(upd.slug.as_deref(), Some("my-test-string-1-1"));
    assert_eq!(upd.title.as_deref(), Some("My Test String!!!1!1"));
    assert_eq!(upd.tags, Some(None));
    assert_eq!(upd.content, Some(None));
    assert!(upd.edited);
    assert_eq!(upd.edited_at, Some(99));

    let upd = BasicPostUpdate { id: 3, tags: None, title: None, content: None, media: None }
        .into_update(99);
    assert!(upd.slug.is_none());
}

#[test]
fn user_update_clears_empty_bio_and_wraps_pictures() {
    let upd = BasicUserUpdate {
        display_name: None,
        bio: Some(String::new()),
        pfp: Some("p.png".to_string()),
        banner: None,
    }
    .into_update();
    assert_eq!(upd.bio, Some(None));
    assert_eq!(upd.pfp.unwrap().id, Some("p.png".to_string()));
    assert!(upd.banner.is_none());
    assert!(upd.username.is_none());
    assert!(upd.password.is_none());
    assert!(upd.admin.is_none());
}

fn stored_user(id: i32, name: &str) -> User {
    User {
        id,
        username: name.to_string(),
        password: "stored-hash".to_string(),
        display_name: name.to_string(),
        bio: Some("bio".to_string()),
        pfp: MaybeEmptyFile { id: None },
        banner: MaybeEmptyFile { id: None },
        created_at: 0,
        v: 0,
        admin: false,
    }
}

fn stored_comment(id: i32, parent_id: Option<i32>, content: &str) -> Comment {
    Comment {
        id,
        user_id: 1,
        post_id: 42,
        forum_id: 7,
        parent_id,
        content: content.to_string(),
        media: FileList { files: None },
        created_at: 0,
        edited: false,
        edited_at: None,
    }
}

#[test]
fn comment_hierarchy_nests_children_under_their_parents() {
    let rows = vec![
        (stored_comment(1, None, "root one"), stored_user(1, "ann")),
        (stored_comment(2, Some(1), "child of one"), stored_user(2, "ben")),
        (stored_comment(3, None, "root two"), stored_user(3, "cam")),
        (stored_comment(4, Some(2), "grandchild"), stored_user(1, "ann")),
    ];
    let tree = CommentHierarchy::load_hierarchy(&rows, None);
    assert_eq!(tree.len(), 2);
    assert_eq!(tree[0].id, 1);
    assert_eq!(tree[1].id, 3);
    let children = tree[0].child_comments.as_ref().unwrap();
    assert_eq!(children.len(), 1);
    assert_eq!(children[0].content, "child of one");
    assert_eq!(children[0].user.username, "ben");
    let grand = children[0].child_comments.as_ref().unwrap();
    assert_eq!(grand.len(), 1);
    assert_eq!(grand[0].id, 4);
    assert!(tree[1].child_comments.as_ref().unwrap().is_empty());
}

#[test]
fn search_slices_carry_the_indexed_fields() {
    let su = SearchUser::from(stored_user(5, "ann"));
    assert_eq!(su.id, 5);
    assert_eq!(su.username, "ann");
    assert_eq!(su.bio.as_deref(), Some("bio"));

    let forum = Forum {
        id: 6,
        name: "rust".to_string(),
        display_name: "Rust".to_string(),
        icon: MaybeEmptyFile { id: None },
        banner: MaybeEmptyFile { id: None },
        description: Some("a forum".to_string()),
        created_at: 0,
        owner_id: 1,
    };
    let sf = SearchForum::from(forum);
    assert_eq!(sf.id, 6);
    assert_eq!(sf.decsription.as_deref(), Some("a forum"));

    let post = Post {
        id: 9,
        tags: Some(vec!["t".to_string()]),
        stars: 0,
        title: "Title".to_string(),
        slug: "title-1".to_string(),
        content: None,
        media: FileList { files: None },
        created_at: 0,
        edited: false,
        edited_at: None,
        forum_id: 6,
        poster_id: 5,
    };
    let sp = post.into_search();
    assert_eq!(sp.id, 9);
    assert_eq!(sp.title, "Title");
    assert_eq!(sp.tags, Some(vec!["t".to_string()]));
}
