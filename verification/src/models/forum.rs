//! The forum model: the stored row, the update and insert shapes,
//! and the slice of a forum that the search index keeps.

use vstd::prelude::*;

use crate::models::file::MaybeEmptyFile;

verus! {

/// A stored forum row.
#[derive(Debug)]
pub struct Forum {
    pub id: i32,
    pub name: String,
    pub display_name: String,
    pub icon: MaybeEmptyFile,
    pub banner: MaybeEmptyFile,
    pub description: Option<String>,
    pub created_at: i64,
    pub owner_id: i32,
}

impl Clone for Forum {
    fn clone(&self) -> (r: Self)
        ensures
            r == *self,
    {
        let r = Forum {
            id: self.id,
            name: self.name.clone(),
            display_name: self.display_name.clone(),
            icon: self.icon.clone(),
            banner: self.banner.clone(),
            description: self.description.clone(),
            created_at: self.created_at,
            owner_id: self.owner_id,
        };
        proof {
            assert(r.description == self.description);
        }
        r
    }
}

/// A partial update of a forum row; `None` leaves the column alone,
/// and a `Some(None)` description clears it.
#[derive(Debug)]
pub struct UpdateForum {
    pub id: i32,
    pub name: Option<String>,
    pub display_name: Option<String>,
    pub icon: Option<MaybeEmptyFile>,
    pub banner: Option<MaybeEmptyFile>,
    pub description: Option<Option<String>>,
    pub owner_id: Option<i32>,
}

/// A new forum row to insert.
#[derive(Debug)]
pub struct NewForum<'a> {
    pub name: &'a str,
    pub display_name: &'a str,
    pub description: Option<&'a str>,
    pub owner_id: i32,
}

/// The slice of a forum that the search index stores.
#[derive(Debug)]
pub struct SearchForum {
    pub id: i32,
    pub name: String,
    pub display_name: String,
    pub decsription: Option<String>,
}

impl From<Forum> for SearchForum {
    fn from(value: Forum) -> (r: Self) {
        SearchForum {
            id: value.id,
            name: value.name,
            display_name: value.display_name,
            decsription: value.description,
        }
    }
}

impl vstd::std_specs::convert::FromSpecImpl<Forum> for SearchForum {
    open spec fn obeys_from_spec() -> bool {
        true
    }

    open spec fn from_spec(value: Forum) -> Self {
        SearchForum {
            id: value.id,
            name: value.name,
            display_name: value.display_name,
            decsription: value.description,
        }
    }
}

} // verus!
