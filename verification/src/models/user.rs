//! The user model: the stored row, the update and insert shapes, and
//! the slice of a user that the search index keeps.  Timestamps are
//! seconds since the epoch.

use vstd::prelude::*;

use crate::models::file::MaybeEmptyFile;

verus! {

/// A stored user row.
#[derive(Debug)]
pub struct User {
    pub id: i32,
    pub username: String,
    pub password: String,
    pub display_name: String,
    pub bio: Option<String>,
    pub pfp: MaybeEmptyFile,
    pub banner: MaybeEmptyFile,
    pub created_at: i64,
    pub v: i32,
    pub admin: bool,
}

impl Clone for User {
    fn clone(&self) -> (r: Self)
        ensures
            r == *self,
    {
        let r = User {
            id: self.id,
            username: self.username.clone(),
            password: self.password.clone(),
            display_name: self.display_name.clone(),
            bio: self.bio.clone(),
            pfp: self.pfp.clone(),
            banner: self.banner.clone(),
            created_at: self.created_at,
            v: self.v,
            admin: self.admin,
        };
        proof {
            assert(r.bio == self.bio);
        }
        r
    }
}

/// A partial update of a user row; `None` leaves the column alone.
#[derive(Debug)]
pub struct UpdateUser {
    pub id: i32,
    pub username: Option<String>,
    pub password: Option<String>,
    pub display_name: Option<String>,
    pub bio: Option<Option<String>>,
    pub pfp: Option<MaybeEmptyFile>,
    pub banner: Option<MaybeEmptyFile>,
    pub admin: Option<bool>,
}

/// A new user row to insert.
#[derive(Debug)]
pub struct NewUser<'a> {
    pub username: &'a str,
    pub password: &'a str,
    pub display_name: &'a str,
}

impl<'a> NewUser<'a> {
    /// The row a signup inserts, given the validated username and the
    /// already-hashed password: a new account's display name starts
    /// out as its username.
    pub fn new(username: &'a str, hashed_password: &'a str) -> (r: Self)
        ensures
            r.username == username,
            r.password == hashed_password,
            r.display_name == username,
    {
        NewUser { username, password: hashed_password, display_name: username }
    }
}

/// The slice of a user that the search index stores.
#[derive(Debug)]
pub struct SearchUser {
    pub id: i32,
    pub username: String,
    pub display_name: String,
    pub bio: Option<String>,
}

impl From<User> for SearchUser {
    fn from(value: User) -> (r: Self) {
        SearchUser {
            id: value.id,
            username: value.username,
            display_name: value.display_name,
            bio: value.bio,
        }
    }
}

impl vstd::std_specs::convert::FromSpecImpl<User> for SearchUser {
    open spec fn obeys_from_spec() -> bool {
        true
    }

    open spec fn from_spec(value: User) -> Self {
        SearchUser {
            id: value.id,
            username: value.username,
            display_name: value.display_name,
            bio: value.bio,
        }
    }
}

} // verus!
