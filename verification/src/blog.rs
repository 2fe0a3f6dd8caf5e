//! Detail lookup of blog posts: only published posts are shown.

use vstd::prelude::*;
use vstd::string::StringExecFns;
use crate::errors::ApiError;
use crate::errors::ApiErrorView;
use crate::models::BlogPost;

verus! {

/// The text of the failure for a slug that names no published post.
pub open spec fn not_found_text(slug: Seq<char>) -> Seq<char> {
    "Post '"@ + slug + "' not found"@
}

/// The row may be shown: it exists and is published.
pub open spec fn visible(row: Option<BlogPost>) -> bool {
    row matches Some(post) && post.published
}

/// Decides what a lookup by slug returns, given the row that the store
/// holds under that slug. A row that is not published is treated like no
/// row at all.
pub fn get_blog_post_by_slug(row: Option<BlogPost>, slug: &str) -> (r: Result<BlogPost, ApiError>)
    ensures
        visible(row) ==> r == Ok::<BlogPost, ApiError>(row->0),
        !visible(row) ==> (r matches Err(e) && e@ == ApiErrorView::NotFound(not_found_text(slug@))),
{
    match row {
        Some(post) => {
            if post.published {
                return Ok(post);
            }
        },
        None => {},
    }
    let mut text = String::from_str("Post '");
    text.append(slug);
    text.append("' not found");
    Err(ApiError::NotFound(text))
}

} // verus!
