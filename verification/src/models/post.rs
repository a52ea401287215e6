//! The post model: the stored row, the update, insert and input
//! shapes, and the slice of a post that the search index keeps.

use vstd::prelude::*;

use crate::models::file::FileList;

verus! {

/// A stored post row.
#[derive(Debug, Clone)]
pub struct Post {
    pub id: i32,
    pub tags: Option<Vec<String>>,
    pub stars: i32,
    pub title: String,
    pub slug: String,
    pub content: Option<String>,
    pub media: FileList,
    pub created_at: i64,
    pub edited: bool,
    pub edited_at: Option<i64>,
    pub forum_id: i32,
    pub poster_id: i32,
}

impl Post {
    /// The slice of this post that the search index stores.
    pub fn into_search(self) -> (r: SearchPost)
        ensures
            r.id == self.id,
            r.tags == self.tags,
            r.title == self.title,
            r.content == self.content,
    {
        SearchPost { id: self.id, tags: self.tags, title: self.title, content: self.content }
    }
}

/// A partial update of a post row; `None` leaves the column alone.
#[derive(Debug)]
pub struct UpdatePost {
    pub id: i32,
    pub tags: Option<Option<Vec<String>>>,
    pub stars: Option<i32>,
    pub title: Option<String>,
    pub slug: Option<String>,
    pub content: Option<Option<String>>,
    pub media: Option<FileList>,
    pub edited: bool,
    pub edited_at: Option<i64>,
    pub poster_id: Option<i32>,
}

/// A new post row to insert.
#[derive(Debug)]
pub struct NewPost {
    pub tags: Option<Vec<String>>,
    pub title: String,
    pub slug: String,
    pub content: Option<String>,
    pub media: Option<Vec<String>>,
    pub forum_id: i32,
    pub poster_id: i32,
}

/// A post as a client submits it.
#[derive(Debug)]
pub struct InputPost {
    pub tags: Option<Vec<String>>,
    pub title: String,
    pub content: Option<String>,
    pub media: Option<Vec<String>>,
    pub forum: i32,
}

/// The slice of a post that the search index stores.
#[derive(Debug)]
pub struct SearchPost {
    pub id: i32,
    pub tags: Option<Vec<String>>,
    pub title: String,
    pub content: Option<String>,
}

} // verus!
