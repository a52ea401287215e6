//! Query-side input shapes: pagination, per-entity filters, search
//! criteria and orderings, and the defaulting rules that turn the
//! optional client-side filters into the concrete values the store
//! is queried with.

use vstd::prelude::*;

verus! {

/// Which way a page walks the table.
#[derive(Debug, Clone, Copy, PartialEq, Eq, Structural)]
pub enum PageOrder {
    ASC,
    DESC,
}

impl PageOrder {
    /// The keyword this order contributes to a query.
    pub fn as_str(&self) -> (r: &'static str)
        ensures
            self is ASC ==> r@ == "ASC"@,
            self is DESC ==> r@ == "DESC"@,
    {
        match self {
            Self::ASC => "ASC",
            Self::DESC => "DESC",
        }
    }
}

/// A page request as a client sends it: every part optional.
#[derive(Debug, Clone)]
pub struct Page {
    pub order: Option<PageOrder>,
    pub next_from: i32,
    pub limit: Option<i64>,
}

/// The largest page a client may request.
pub const MAX_PAGE_LIMIT: i64 = 50;

/// The page size used when a client names none.
pub const DEFAULT_PAGE_LIMIT: i64 = 10;

/// A page request with every default filled in.
#[derive(Debug, Clone, Copy, PartialEq, Eq, Structural)]
pub struct RawPage {
    pub order: PageOrder,
    pub next_from: i32,
    pub per: i64,
}

impl From<Option<Page>> for RawPage {
    /// An absent page means: newest first, from the top, ten rows; a
    /// present one keeps its values, with the size defaulted and
    /// clamped to `MAX_PAGE_LIMIT`.
    fn from(value: Option<Page>) -> (r: Self) {
        match value {
            None => RawPage { order: PageOrder::DESC, next_from: i32::MAX, per: 10 },
            Some(filter) => RawPage {
                order: match filter.order {
                    Some(o) => o,
                    None => PageOrder::DESC,
                },
                next_from: filter.next_from,
                per: match filter.limit {
                    None => DEFAULT_PAGE_LIMIT,
                    Some(l) => if l > MAX_PAGE_LIMIT {
                        MAX_PAGE_LIMIT
                    } else {
                        l
                    },
                },
            },
        }
    }
}

/// The page defaults, as a specification: what `RawPage::from` owes.
pub open spec fn raw_page_of(value: Option<Page>) -> RawPage {
    match value {
        None => RawPage { order: PageOrder::DESC, next_from: i32::MAX, per: 10 },
        Some(filter) => RawPage {
            order: match filter.order {
                Some(o) => o,
                None => PageOrder::DESC,
            },
            next_from: filter.next_from,
            per: match filter.limit {
                None => DEFAULT_PAGE_LIMIT,
                Some(l) => if l > MAX_PAGE_LIMIT {
                    MAX_PAGE_LIMIT
                } else {
                    l
                },
            },
        },
    }
}

impl vstd::std_specs::convert::FromSpecImpl<Option<Page>> for RawPage {
    open spec fn obeys_from_spec() -> bool {
        true
    }

    open spec fn from_spec(value: Option<Page>) -> Self {
        raw_page_of(value)
    }
}

/// The GraphQL query root.  Its operations read stored entities
/// through the persistence and search collaborators; the input
/// defaulting they rely on lives in the types of this module.
#[derive(Debug)]
pub struct Query;

/// Optional forum-query refinements.
#[derive(Debug, Clone)]
pub struct ForumFilter {
    pub page: Option<Page>,
}

/// How forums are looked up.
#[derive(Debug, Clone)]
pub enum ForumCriteria {
    Search(String),
    ByNames(Vec<String>),
    ByIds(Vec<i32>),
}

/// How a forum listing is sorted.
#[derive(Debug, Clone, Copy, PartialEq, Eq, Structural)]
pub enum ForumOrderBy {
    Posts,
    Comments,
    Newest,
    Oldest,
    RecentPost,
    NoOrder,
}

impl Default for ForumOrderBy {
    /// An unspecified ordering means none.
    fn default() -> (r: Self)
        ensures
            r is NoOrder,
    {
        Self::NoOrder
    }
}

/// A forum filter with its page defaults filled in.
#[derive(Debug, Clone, Copy, PartialEq, Eq, Structural)]
pub struct RawForumFilter {
    pub page: RawPage,
}

impl From<Option<ForumFilter>> for RawForumFilter {
    /// An absent filter defaults every part.
    fn from(value: Option<ForumFilter>) -> (r: Self) {
        match value {
            None => RawForumFilter { page: RawPage::from(None) },
            Some(filter) => RawForumFilter { page: RawPage::from(filter.page) },
        }
    }
}

impl vstd::std_specs::convert::FromSpecImpl<Option<ForumFilter>> for RawForumFilter {
    open spec fn obeys_from_spec() -> bool {
        true
    }

    open spec fn from_spec(value: Option<ForumFilter>) -> Self {
        match value {
            None => RawForumFilter { page: raw_page_of(None) },
            Some(filter) => RawForumFilter { page: raw_page_of(filter.page) },
        }
    }
}

/// A floor on a post's star count.
#[derive(Debug, Clone, Copy, PartialEq, Eq, Structural)]
pub struct StarFilter {
    pub gt: i32,
}

/// Optional post-query refinements.
#[derive(Debug, Clone)]
pub struct PostFilter {
    pub page: Option<Page>,
    pub star_count: Option<StarFilter>,
}

/// How posts are looked up.
#[derive(Debug, Clone)]
pub enum PostCriteria {
    Search(String),
    BySlugs(Vec<String>),
    ByIds(Vec<i32>),
}

/// A post filter with its defaults filled in.
#[derive(Debug, Clone, Copy, PartialEq, Eq, Structural)]
pub struct RawPostFilter {
    pub page: RawPage,
    pub star: StarFilter,
}

impl From<Option<PostFilter>> for RawPostFilter {
    /// An absent filter defaults every part; an absent star floor
    /// means zero.
    fn from(value: Option<PostFilter>) -> (r: Self) {
        match value {
            None => RawPostFilter { page: RawPage::from(None), star: StarFilter { gt: 0 } },
            Some(filter) => RawPostFilter {
                page: RawPage::from(filter.page),
                star: match filter.star_count {
                    Some(s) => s,
                    None => StarFilter { gt: 0 },
                },
            },
        }
    }
}

impl vstd::std_specs::convert::FromSpecImpl<Option<PostFilter>> for RawPostFilter {
    open spec fn obeys_from_spec() -> bool {
        true
    }

    open spec fn from_spec(value: Option<PostFilter>) -> Self {
        match value {
            None => RawPostFilter { page: raw_page_of(None), star: StarFilter { gt: 0 } },
            Some(filter) => RawPostFilter {
                page: raw_page_of(filter.page),
                star: match filter.star_count {
                    Some(s) => s,
                    None => StarFilter { gt: 0 },
                },
            },
        }
    }
}

/// Optional comment-query refinements.
#[derive(Debug, Clone)]
pub struct CommentFilter {
    pub page: Option<Page>,
    pub parent: Option<i32>,
}

/// How comments are looked up.
#[derive(Debug, Clone)]
pub enum CommentCriteria {
    Search(String),
    ByPostId(i32),
}

/// A closed integer range on a per-user count, with an open top end
/// when no ceiling is named.
#[derive(Debug, Clone, Copy, PartialEq, Eq, Structural)]
pub struct CountRange {
    pub ge: i64,
    pub le: Option<i64>,
}

/// A count range with its defaults filled in: from zero, to the
/// named ceiling or no ceiling at all.
#[derive(Debug, Clone, Copy, PartialEq, Eq, Structural)]
pub struct RawCountRange {
    pub ge: i64,
    pub le: i64,
}

impl From<Option<CountRange>> for RawCountRange {
    /// An absent range admits everything; an absent ceiling means
    /// the largest representable count.
    fn from(value: Option<CountRange>) -> (r: Self) {
        match value {
            None => RawCountRange { ge: 0, le: i64::MAX },
            Some(range) => RawCountRange {
                ge: range.ge,
                le: match range.le {
                    Some(l) => l,
                    None => i64::MAX,
                },
            },
        }
    }
}

/// The count-range defaults, as a specification.
pub open spec fn raw_count_range_of(value: Option<CountRange>) -> RawCountRange {
    match value {
        None => RawCountRange { ge: 0, le: i64::MAX },
        Some(range) => RawCountRange {
            ge: range.ge,
            le: match range.le {
                Some(l) => l,
                None => i64::MAX,
            },
        },
    }
}

impl vstd::std_specs::convert::FromSpecImpl<Option<CountRange>> for RawCountRange {
    open spec fn obeys_from_spec() -> bool {
        true
    }

    open spec fn from_spec(value: Option<CountRange>) -> Self {
        raw_count_range_of(value)
    }
}

/// Optional user-query refinements: pagination plus floors and
/// ceilings on the user's activity counts, and an admin flag filter.
#[derive(Debug, Clone)]
pub struct UserFilter {
    pub page: Option<Page>,
    pub forum_count: Option<CountRange>,
    pub post_count: Option<CountRange>,
    pub comment_count: Option<CountRange>,
    pub stars: Option<CountRange>,
    pub admin: Option<bool>,
}

/// How users are looked up.
#[derive(Debug, Clone)]
pub enum UserCriteria {
    Search(String),
    ByUsernames(Vec<String>),
    ByIds(Vec<i32>),
}

/// A user filter with every default filled in.  The admin filter
/// becomes the predicate the store applies to the admin column.
#[derive(Debug, Clone, Copy, PartialEq, Eq, Structural)]
pub struct RawUserFilter {
    pub page: RawPage,
    pub forum_count: RawCountRange,
    pub post_count: RawCountRange,
    pub comment_count: RawCountRange,
    pub stars: RawCountRange,
    pub admin: Option<bool>,
}

impl RawUserFilter {
    /// The predicate the admin filter contributes to a query: any
    /// value, true only, or false only.
    pub fn admin_str(&self) -> (r: &'static str)
        ensures
            self.admin is None ==> r@ == "IS NOT NULL"@,
            self.admin == Some(true) ==> r@ == "= true"@,
            self.admin == Some(false) ==> r@ == "= false"@,
    {
        match self.admin {
            None => "IS NOT NULL",
            Some(true) => "= true",
            Some(false) => "= false",
        }
    }
}

impl From<Option<UserFilter>> for RawUserFilter {
    /// An absent filter admits every user, pages with the defaults,
    /// and leaves the admin flag unconstrained.
    fn from(value: Option<UserFilter>) -> (r: Self) {
        match value {
            None => RawUserFilter {
                page: RawPage::from(None),
                forum_count: RawCountRange::from(None),
                post_count: RawCountRange::from(None),
                comment_count: RawCountRange::from(None),
                stars: RawCountRange::from(None),
                admin: None,
            },
            Some(filter) => RawUserFilter {
                page: RawPage::from(filter.page),
                forum_count: RawCountRange::from(filter.forum_count),
                post_count: RawCountRange::from(filter.post_count),
                comment_count: RawCountRange::from(filter.comment_count),
                stars: RawCountRange::from(filter.stars),
                admin: filter.admin,
            },
        }
    }
}

impl vstd::std_specs::convert::FromSpecImpl<Option<UserFilter>> for RawUserFilter {
    open spec fn obeys_from_spec() -> bool {
        true
    }

    open spec fn from_spec(value: Option<UserFilter>) -> Self {
        match value {
            None => RawUserFilter {
                page: raw_page_of(None),
                forum_count: raw_count_range_of(None),
                post_count: raw_count_range_of(None),
                comment_count: raw_count_range_of(None),
                stars: raw_count_range_of(None),
                admin: None,
            },
            Some(filter) => RawUserFilter {
                page: raw_page_of(filter.page),
                forum_count: raw_count_range_of(filter.forum_count),
                post_count: raw_count_range_of(filter.post_count),
                comment_count: raw_count_range_of(filter.comment_count),
                stars: raw_count_range_of(filter.stars),
                admin: filter.admin,
            },
        }
    }
}

/// How a user listing is sorted.
#[derive(Debug, Clone, Copy, PartialEq, Eq, Structural)]
pub enum UserOrderType {
    NoOrder,
    OwnedForumCountAsc,
    OwnedForumCountDesc,
    PostCountAsc,
    PostCountDesc,
    CommentCountAsc,
    CommentCountDesc,
}

/// A requested user ordering with an optional cursor.
#[derive(Debug, Clone, Copy, PartialEq, Eq, Structural)]
pub struct UserOrder {
    pub ty: UserOrderType,
    pub last_id: Option<i32>,
}

/// A user ordering with its cursor default filled in: ascending
/// orders start from the bottom, descending ones from the top.
#[derive(Debug, Clone, Copy, PartialEq, Eq, Structural)]
pub struct RawUserOrder {
    pub ty: UserOrderType,
    pub last_id: i32,
}

impl From<Option<UserOrder>> for RawUserOrder {
    /// An absent ordering means none, from the bottom.
    fn from(value: Option<UserOrder>) -> (r: Self) {
        match value {
            None => RawUserOrder { ty: UserOrderType::NoOrder, last_id: 0 },
            Some(order) => RawUserOrder {
                ty: order.ty,
                last_id: match order.last_id {
                    Some(id) => id,
                    None => match order.ty {
                        UserOrderType::NoOrder
                        | UserOrderType::CommentCountAsc
                        | UserOrderType::OwnedForumCountAsc
                        | UserOrderType::PostCountAsc => 0,
                        UserOrderType::CommentCountDesc
                        | UserOrderType::OwnedForumCountDesc
                        | UserOrderType::PostCountDesc => i32::MAX,
                    },
                },
            },
        }
    }
}

impl vstd::std_specs::convert::FromSpecImpl<Option<UserOrder>> for RawUserOrder {
    open spec fn obeys_from_spec() -> bool {
        true
    }

    open spec fn from_spec(value: Option<UserOrder>) -> Self {
        match value {
            None => RawUserOrder { ty: UserOrderType::NoOrder, last_id: 0 },
            Some(order) => RawUserOrder {
                ty: order.ty,
                last_id: match order.last_id {
                    Some(id) => id,
                    None => match order.ty {
                        UserOrderType::NoOrder
                        | UserOrderType::CommentCountAsc
                        | UserOrderType::OwnedForumCountAsc
                        | UserOrderType::PostCountAsc => 0,
                        UserOrderType::CommentCountDesc
                        | UserOrderType::OwnedForumCountDesc
                        | UserOrderType::PostCountDesc => i32::MAX,
                    },
                },
            },
        }
    }
}

} // verus!
