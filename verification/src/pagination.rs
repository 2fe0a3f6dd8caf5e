//! Pagination of list endpoints: the limit is clamped to the endpoint's
//! maximum and replaced by its default where it is absent or not positive.

use vstd::prelude::*;

verus! {

pub const BLOG_DEFAULT_LIMIT: i64 = 10;
pub const BLOG_MAX_LIMIT: i64 = 50;
pub const ADMIN_DEFAULT_LIMIT: i64 = 100;
pub const ADMIN_MAX_LIMIT: i64 = 200;

/// The number of posts that the sitemap lists at most.
pub const SITEMAP_LIMIT: i64 = 100;

/// The query parameters of a list request.
#[derive(Debug, Clone, Copy, PartialEq, Eq, Structural)]
pub struct PaginationParams {
    pub limit: Option<i64>,
    pub offset: Option<i64>,
}

/// The limit and offset handed to the store.
#[derive(Debug, Clone, Copy, PartialEq, Eq, Structural)]
pub struct Page {
    pub limit: i64,
    pub offset: i64,
}

/// The limit in force for a request.
pub open spec fn effective_limit(limit: Option<i64>, default_limit: i64, max_limit: i64) -> i64 {
    match limit {
        Some(l) => if l <= 0 {
            default_limit
        } else if l > max_limit {
            max_limit
        } else {
            l
        },
        None => default_limit,
    }
}

/// The offset in force for a request: the one given, else zero.
pub open spec fn effective_offset(offset: Option<i64>) -> i64 {
    match offset {
        Some(o) => o,
        None => 0,
    }
}

impl PaginationParams {
    /// Resolves the parameters against an endpoint's default and maximum.
    pub fn resolve(&self, default_limit: i64, max_limit: i64) -> (page: Page)
        ensures
            page.limit == effective_limit(self.limit, default_limit, max_limit),
            page.offset == effective_offset(self.offset),
            0 < default_limit <= max_limit ==> 0 < page.limit <= max_limit,
    {
        let limit = match self.limit {
            Some(l) => if l <= 0 {
                default_limit
            } else if l > max_limit {
                max_limit
            } else {
                l
            },
            None => default_limit,
        };
        let offset = match self.offset {
            Some(o) => o,
            None => 0,
        };
        Page { limit, offset }
    }
}

/// The page of the public blog list: ten posts by default, fifty at most.
pub fn list_posts(params: &PaginationParams) -> (page: Page)
    ensures
        page.limit == effective_limit(params.limit, BLOG_DEFAULT_LIMIT, BLOG_MAX_LIMIT),
        page.offset == effective_offset(params.offset),
        1 <= page.limit <= 50,
        params.limit is None || params.limit->0 <= 0 ==> page.limit == 10,
{
    params.resolve(BLOG_DEFAULT_LIMIT, BLOG_MAX_LIMIT)
}

/// The page of an admin list: a hundred rows by default, two hundred at
/// most.
pub fn admin_page(params: &PaginationParams) -> (page: Page)
    ensures
        page.limit == effective_limit(params.limit, ADMIN_DEFAULT_LIMIT, ADMIN_MAX_LIMIT),
        page.offset == effective_offset(params.offset),
        1 <= page.limit <= 200,
        params.limit is None || params.limit->0 <= 0 ==> page.limit == 100,
{
    params.resolve(ADMIN_DEFAULT_LIMIT, ADMIN_MAX_LIMIT)
}

/// A store that returns at most `limit` rows returns at most the endpoint's
/// maximum, whatever limit the client asked for.
pub proof fn lemma_page_size_bounded(
    requested: Option<i64>,
    default_limit: i64,
    max_limit: i64,
    rows: nat,
)
    requires
        0 < default_limit <= max_limit,
        rows <= effective_limit(requested, default_limit, max_limit),
    ensures
        rows <= max_limit,
{
}

} // verus!
