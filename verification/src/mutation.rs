//! Mutation-side input shapes: the partial-update forms a client may
//! send and their conversion into the store's update rows.  An empty
//! string in an optional text field means "clear it"; a new title
//! re-derives the post's slug.

use vstd::prelude::*;

use crate::models::comment::UpdateComment;
use crate::models::file::{file_list_matches, FileList, MaybeEmptyFile};
use crate::models::forum::UpdateForum;
use crate::models::post::UpdatePost;
use crate::models::user::UpdateUser;

verus! {

/// The GraphQL mutation root.  Its operations write through the
/// persistence, search and event-bus collaborators; the validation
/// and update-shaping they rely on lives here and in the helpers.
#[derive(Debug)]
pub struct Mutation;

/// The slug the slugifier derives from a title: a function of the
/// title's characters alone.
pub uninterp spec fn slug_of(s: Seq<char>) -> Seq<char>;

/// Relies on slug::slugify: the result depends on the input
/// characters alone, and consists of lowercase ascii letters, digits
/// and single dashes.
#[verifier::external_body]
fn slugify(s: &str) -> (r: String)
    ensures
        r@ == slug_of(s@),
        forall|i: int|
            0 <= i < r@.len() ==> {
                ||| 'a' as u32 <= #[trigger] r@[i] as u32 <= 'z' as u32
                ||| '0' as u32 <= r@[i] as u32 <= '9' as u32
                ||| r@[i] == '-'
            },
{
    slug::slugify(s)
}

/// The fields of a comment a client may edit.
#[derive(Debug)]
pub struct BasicCommentUpdate {
    pub id: i32,
    pub content: Option<String>,
    pub media: Option<Vec<String>>,
}

impl BasicCommentUpdate {
    /// The update row this edit stands for, stamped with the edit
    /// time: an empty content string is replaced by a tombstone
    /// message, and the media list is rebuilt from the given ids.
    pub fn into_update(self, edited_at: i64) -> (r: UpdateComment)
        ensures
            r.id == self.id,
            r.user_id is None,
            r.edited,
            r.edited_at == Some(edited_at),
            r.content is Some <==> self.content is Some,
            self.content matches Some(c) ==> (if c@.len() > 0 {
                r.content == Some(c)
            } else {
                r.content->0@ == "User cleared this comment"@
            }),
            r.media is Some <==> self.media is Some,
            self.media matches Some(ids) ==> file_list_matches(r.media->0, ids@),
    {
        let content = match self.content {
            None => None,
            Some(c) => {
                if c.as_str().is_empty() {
                    Some(String::from_str("User cleared this comment"))
                } else {
                    Some(c)
                }
            },
        };
        let media = match self.media {
            None => None,
            Some(ids) => Some(FileList::new(ids)),
        };
        UpdateComment {
            id: self.id,
            user_id: None,
            content,
            media,
            edited: true,
            edited_at: Some(edited_at),
        }
    }
}

/// The fields of a forum a client may edit.
#[derive(Debug)]
pub struct BasicForumUpdate {
    pub id: i32,
    pub display_name: Option<String>,
    pub icon: Option<String>,
    pub banner: Option<String>,
    pub description: Option<String>,
}

impl BasicForumUpdate {
    /// The update row this edit stands for: the name and owner are
    /// never touched, an empty description clears the column, and
    /// icon and banner ids become file references.
    pub fn into_update(self) -> (r: UpdateForum)
        ensures
            r.id == self.id,
            r.name is None,
            r.owner_id is None,
            r.display_name == self.display_name,
            r.description is Some <==> self.description is Some,
            self.description matches Some(d) ==> (if d@.len() > 0 {
                r.description == Some(Some(d))
            } else {
                r.description == Some(None::<String>)
            }),
            r.icon is Some <==> self.icon is Some,
            self.icon matches Some(p) ==> (if p@.len() > 0 {
                r.icon == Some((MaybeEmptyFile { id: Some(p) }))
            } else {
                r.icon matches Some(f) && f.id is None
            }),
            r.banner is Some <==> self.banner is Some,
            self.banner matches Some(p) ==> (if p@.len() > 0 {
                r.banner == Some((MaybeEmptyFile { id: Some(p) }))
            } else {
                r.banner matches Some(f) && f.id is None
            }),
    {
        let icon = match self.icon {
            None => None,
            Some(p) => Some(MaybeEmptyFile::new(p)),
        };
        let banner = match self.banner {
            None => None,
            Some(p) => Some(MaybeEmptyFile::new(p)),
        };
        let description = match self.description {
            None => None,
            Some(d) => {
                if d.as_str().is_empty() {
                    Some(None)
                } else {
                    Some(Some(d))
                }
            },
        };
        UpdateForum {
            id: self.id,
            name: None,
            display_name: self.display_name,
            icon,
            banner,
            description,
            owner_id: None,
        }
    }
}

/// The fields of a post a client may edit.
#[derive(Debug)]
pub struct BasicPostUpdate {
    pub id: i32,
    pub tags: Option<Vec<String>>,
    pub title: Option<String>,
    pub content: Option<String>,
    pub media: Option<Vec<String>>,
}

impl BasicPostUpdate {
    /// The update row this edit stands for, stamped with the edit
    /// time: a new title re-derives the slug, an empty tag list or
    /// content string clears its column, and the media list is
    /// rebuilt from the given ids.
    pub fn into_update(self, edited_at: i64) -> (r: UpdatePost)
        ensures
            r.id == self.id,
            r.stars is None,
            r.poster_id is None,
            r.edited,
            r.edited_at == Some(edited_at),
            r.title == self.title,
            r.slug is Some <==> self.title is Some,
            self.title matches Some(t) ==> r.slug->0@ == slug_of(t@),
            r.tags is Some <==> self.tags is Some,
            self.tags matches Some(tags) ==> (if tags@.len() == 0 {
                r.tags == Some(None::<Vec<String>>)
            } else {
                r.tags == Some(Some(tags))
            }),
            r.content is Some <==> self.content is Some,
            self.content matches Some(c) ==> (if c@.len() > 0 {
                r.content == Some(Some(c))
            } else {
                r.content == Some(None::<String>)
            }),
            r.media is Some <==> self.media is Some,
            self.media matches Some(ids) ==> file_list_matches(r.media->0, ids@),
    {
        let slug = match &self.title {
            Some(t) => Some(slugify(t.as_str())),
            None => None,
        };
        let tags = match self.tags {
            None => None,
            Some(tags) => {
                if tags.len() == 0 {
                    Some(None)
                } else {
                    Some(Some(tags))
                }
            },
        };
        let content = match self.content {
            None => None,
            Some(c) => {
                if c.as_str().is_empty() {
                    Some(None)
                } else {
                    Some(Some(c))
                }
            },
        };
        let media = match self.media {
            None => None,
            Some(ids) => Some(FileList::new(ids)),
        };
        UpdatePost {
            id: self.id,
            tags,
            stars: None,
            title: self.title,
            slug,
            content,
            media,
            edited: true,
            edited_at: Some(edited_at),
            poster_id: None,
        }
    }
}

/// The fields of their own profile a user may edit.
#[derive(Debug)]
pub struct BasicUserUpdate {
    pub display_name: Option<String>,
    pub bio: Option<String>,
    pub pfp: Option<String>,
    pub banner: Option<String>,
}

impl BasicUserUpdate {
    /// The update row this edit stands for.  The caller fills in the
    /// id of the authenticated user; username, password and the
    /// admin flag are never touched here.  An empty bio clears the
    /// column, and picture ids become file references.
    pub fn into_update(self) -> (r: UpdateUser)
        ensures
            r.id == 0,
            r.username is None,
            r.password is None,
            r.admin is None,
            r.display_name == self.display_name,
            r.bio is Some <==> self.bio is Some,
            self.bio matches Some(b) ==> (if b@.len() > 0 {
                r.bio == Some(Some(b))
            } else {
                r.bio == Some(None::<String>)
            }),
            r.pfp is Some <==> self.pfp is Some,
            self.pfp matches Some(p) ==> (if p@.len() > 0 {
                r.pfp == Some((MaybeEmptyFile { id: Some(p) }))
            } else {
                r.pfp matches Some(f) && f.id is None
            }),
            r.banner is Some <==> self.banner is Some,
            self.banner matches Some(p) ==> (if p@.len() > 0 {
                r.banner == Some((MaybeEmptyFile { id: Some(p) }))
            } else {
                r.banner matches Some(f) && f.id is None
            }),
    {
        let bio = match self.bio {
            None => None,
            Some(b) => {
                if b.as_str().is_empty() {
                    Some(None)
                } else {
                    Some(Some(b))
                }
            },
        };
        let pfp = match self.pfp {
            None => None,
            Some(p) => Some(MaybeEmptyFile::new(p)),
        };
        let banner = match self.banner {
            None => None,
            Some(p) => Some(MaybeEmptyFile::new(p)),
        };
        UpdateUser {
            id: 0,
            username: None,
            password: None,
            display_name: self.display_name,
            bio,
            pfp,
            banner,
            admin: None,
        }
    }
}

} // verus!
