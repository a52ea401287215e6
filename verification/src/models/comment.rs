//! The comment model: the stored row, the update and insert shapes,
//! and the nested hierarchy that a thread view renders.

use vstd::prelude::*;

use crate::models::file::FileList;
use crate::models::user::User;

verus! {

/// A stored comment row.
#[derive(Debug)]
pub struct Comment {
    pub id: i32,
    pub user_id: i32,
    pub post_id: i32,
    pub forum_id: i32,
    pub parent_id: Option<i32>,
    pub content: String,
    pub media: FileList,
    pub created_at: i64,
    pub edited: bool,
    pub edited_at: Option<i64>,
}

/// A partial update of a comment row; `None` leaves the column alone.
#[derive(Debug)]
pub struct UpdateComment {
    pub id: i32,
    pub user_id: Option<i32>,
    pub content: Option<String>,
    pub media: Option<FileList>,
    pub edited: bool,
    pub edited_at: Option<i64>,
}

/// A new comment row to insert.
#[derive(Debug)]
pub struct NewComment {
    pub user_id: i32,
    pub post_id: i32,
    pub forum_id: i32,
    pub parent_id: Option<i32>,
    pub content: String,
    pub media: Option<Vec<String>>,
}

/// A comment joined with its author and nested under its parent.
#[derive(Debug)]
pub struct CommentHierarchy {
    pub id: i32,
    pub user_id: i32,
    pub post_id: i32,
    pub forum_id: i32,
    pub parent_id: Option<i32>,
    pub content: String,
    pub media: FileList,
    pub created_at: i64,
    pub edited: bool,
    pub edited_at: Option<i64>,
    pub user: User,
    pub child_comments: Option<Vec<CommentHierarchy>>,
}

/// A recursion measure for walking down a comment tree: a comment's
/// children all have larger ids than their parent, so the remaining
/// id range shrinks at every level.
pub open spec fn hier_measure(parent_id: Option<i32>) -> int {
    match parent_id {
        None => 0x2_0000_0000,
        Some(p) => 0x8000_0000 - p,
    }
}

/// Whether every stored parent reference points at an older (smaller)
/// id than the comment's own — true of rows the store assigns ids to,
/// since a parent exists before its children.
pub open spec fn parents_precede(comments: Seq<(Comment, User)>) -> bool {
    forall|i: int|
        0 <= i < comments.len() ==> ((#[trigger] comments[i]).0.parent_id is Some
            ==> comments[i].0.parent_id->0 < comments[i].0.id)
}

/// Whether one hierarchy entry carries exactly this row and author.
pub open spec fn hierarchy_entry_matches(h: CommentHierarchy, c: Comment, u: User) -> bool {
    &&& h.id == c.id
    &&& h.user_id == c.user_id
    &&& h.post_id == c.post_id
    &&& h.forum_id == c.forum_id
    &&& h.parent_id == c.parent_id
    &&& h.content == c.content
    &&& h.media@ == c.media@
    &&& h.created_at == c.created_at
    &&& h.edited == c.edited
    &&& h.edited_at == c.edited_at
    &&& h.user == u
    &&& h.child_comments is Some
}

impl CommentHierarchy {
    /// Builds one level of the thread view: the entries whose parent
    /// is `parent_id`, in stored order, each joined with its author
    /// and its (recursively built) children.
    pub fn load_hierarchy(comments: &Vec<(Comment, User)>, parent_id: Option<i32>) -> (r: Vec<
        CommentHierarchy,
    >)
        requires
            parents_precede(comments@),
        ensures
            ({
                let matching = comments@.filter(
                    |cu: (Comment, User)| cu.0.parent_id == parent_id,
                );
                &&& r@.len() == matching.len()
                &&& forall|j: int|
                    0 <= j < r@.len() ==> hierarchy_entry_matches(
                        #[trigger] r@[j],
                        matching[j].0,
                        matching[j].1,
                    )
            }),
        decreases hier_measure(parent_id),
    {
        let mut r: Vec<CommentHierarchy> = Vec::new();
        let mut i: usize = 0;
        proof {
            lemma_matching_empty(parent_id);
            assert(comments@.take(0) =~= Seq::<(Comment, User)>::empty());
        }
        while i < comments.len()
            invariant
                parents_precede(comments@),
                i <= comments@.len(),
                r@.len() == comments@.take(i as int).filter(
                    |cu: (Comment, User)| cu.0.parent_id == parent_id,
                ).len(),
                forall|j: int|
                    0 <= j < r@.len() ==> hierarchy_entry_matches(
                        #[trigger] r@[j],
                        comments@.take(i as int).filter(
                            |cu: (Comment, User)| cu.0.parent_id == parent_id,
                        )[j].0,
                        comments@.take(i as int).filter(
                            |cu: (Comment, User)| cu.0.parent_id == parent_id,
                        )[j].1,
                    ),
            decreases comments@.len() - i,
        {
            proof {
                assert(comments@.take(i as int + 1) =~= comments@.take(i as int).push(
                    comments@[i as int],
                ));
                lemma_matching_push(comments@.take(i as int), comments@[i as int], parent_id);
            }
            let cu = &comments[i];
            let matches_here = match (&cu.0.parent_id, &parent_id) {
                (Some(a), Some(b)) => *a == *b,
                (None, None) => true,
                _ => false,
            };
            if matches_here {
                proof {
                    assert(cu.0.parent_id == parent_id);
                    assert(comments@.contains(comments@[i as int]));
                }
                let child_parent = Some(cu.0.id);
                let children = Self::load_hierarchy(comments, child_parent);
                let entry = CommentHierarchy {
                    id: cu.0.id,
                    user_id: cu.0.user_id,
                    post_id: cu.0.post_id,
                    forum_id: cu.0.forum_id,
                    parent_id: cu.0.parent_id,
                    content: cu.0.content.clone(),
                    media: cu.0.media.clone(),
                    created_at: cu.0.created_at,
                    edited: cu.0.edited,
                    edited_at: cu.0.edited_at,
                    user: cu.1.clone(),
                    child_comments: Some(children),
                };
                r.push(entry);
            } else {
                proof {
                    assert(cu.0.parent_id != parent_id);
                }
            }
            i = i + 1;
        }
        proof {
            assert(comments@.take(comments@.len() as int) =~= comments@);
        }
        r
    }
}

/// Filtering an empty row list leaves nothing.
proof fn lemma_matching_empty(parent_id: Option<i32>)
    ensures
        Seq::<(Comment, User)>::empty().filter(|cu: (Comment, User)| cu.0.parent_id == parent_id)
            == Seq::<(Comment, User)>::empty(),
{
    reveal(Seq::filter);
}

/// Unfolds the parent filter over an appended row.
proof fn lemma_matching_push(list: Seq<(Comment, User)>, x: (Comment, User), parent_id: Option<
    i32,
>)
    ensures
        x.0.parent_id == parent_id ==> list.push(x).filter(
            |cu: (Comment, User)| cu.0.parent_id == parent_id,
        ) == list.filter(|cu: (Comment, User)| cu.0.parent_id == parent_id).push(x),
        x.0.parent_id != parent_id ==> list.push(x).filter(
            |cu: (Comment, User)| cu.0.parent_id == parent_id,
        ) == list.filter(|cu: (Comment, User)| cu.0.parent_id == parent_id),
{
    reveal(Seq::filter);
    assert(list.push(x).drop_last() =~= list);
    assert(list.push(x).last() == x);
}

} // verus!
