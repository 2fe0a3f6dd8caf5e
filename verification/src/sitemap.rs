//! The XML sitemap: the site's static routes, then one entry for each
//! published post.

use vstd::prelude::*;
use vstd::string::StringExecFns;
use crate::errors::ApiError;
use crate::models::BlogPostSummary;
use crate::models::Timestamp;
use crate::timefmt::display_text;

verus! {

/// The declaration, the opening tag and the entries of the static routes.
pub open spec fn sitemap_head() -> Seq<char> {
    "<?xml version=\"1.0\" encoding=\"UTF-8\"?>\n<urlset xmlns=\"http://www.sitemaps.org/schemas/sitemap/0.9\">\n  <url><loc>https://terroirai.com/</loc><changefreq>weekly</changefreq><priority>1.0</priority></url>\n  <url><loc>https://terroirai.com/blog</loc><changefreq>weekly</changefreq><priority>0.8</priority></url>\n  <url><loc>https://terroirai.com/contact</loc><changefreq>monthly</changefreq><priority>0.7</priority></url>\n"@
}

/// The entry of a post with the given slug and last-modified text.
pub open spec fn entry_line(slug: Seq<char>, date: Seq<char>) -> Seq<char> {
    "  <url><loc>https://terroirai.com/blog/"@ + slug + "</loc><lastmod>"@ + date
        + "</lastmod><changefreq>monthly</changefreq><priority>0.6</priority></url>\n"@
}

/// The last-modified text of a post: its publication time as displayed, or
/// nothing where it has none.
pub open spec fn lastmod_text(published_at: Option<Timestamp>) -> Seq<char> {
    match published_at {
        Some(t) => display_text(t),
        None => Seq::empty(),
    }
}

/// The entries of the posts, in their order.
pub open spec fn entry_lines(posts: Seq<BlogPostSummary>) -> Seq<char>
    decreases posts.len(),
{
    if posts.len() == 0 {
        Seq::empty()
    } else {
        entry_lines(posts.drop_last()) + entry_line(
            posts.last().slug@,
            lastmod_text(posts.last().published_at),
        )
    }
}

/// The posts that the sitemap lists: those that the store returned, none
/// where it failed.
pub open spec fn listed_posts(posts: Result<Vec<BlogPostSummary>, ApiError>) -> Seq<
    BlogPostSummary,
> {
    match posts {
        Ok(v) => v@,
        Err(_) => Seq::empty(),
    }
}

/// The whole document.
pub open spec fn sitemap_text(posts: Seq<BlogPostSummary>) -> Seq<char> {
    sitemap_head() + entry_lines(posts) + "</urlset>"@
}

/// Writes the entry of one post.
pub fn sitemap_entry(slug: &str, date: &str) -> (r: String)
    ensures
        r@ == entry_line(slug@, date@),
{
    let mut line = String::from_str("  <url><loc>https://terroirai.com/blog/");
    line.append(slug);
    line.append("</loc><lastmod>");
    line.append(date);
    line.append("</lastmod><changefreq>monthly</changefreq><priority>0.6</priority></url>\n");
    line
}

/// Writes the sitemap for the posts that the store returned. A failure of
/// the store leaves the static routes only.
pub fn dynamic_sitemap(posts: &Result<Vec<BlogPostSummary>, ApiError>) -> (xml: String)
    ensures
        xml@ == sitemap_text(listed_posts(*posts)),
{
    let mut xml = String::from_str(
        "<?xml version=\"1.0\" encoding=\"UTF-8\"?>\n<urlset xmlns=\"http://www.sitemaps.org/schemas/sitemap/0.9\">\n  <url><loc>https://terroirai.com/</loc><changefreq>weekly</changefreq><priority>1.0</priority></url>\n  <url><loc>https://terroirai.com/blog</loc><changefreq>weekly</changefreq><priority>0.8</priority></url>\n  <url><loc>https://terroirai.com/contact</loc><changefreq>monthly</changefreq><priority>0.7</priority></url>\n",
    );
    if let Ok(list) = posts {
        let mut i: usize = 0;
        while i < list.len()
            invariant
                0 <= i <= list.len(),
                xml@ == sitemap_head() + entry_lines(list@.take(i as int)),
            decreases list.len() - i,
        {
            let post = &list[i];
            let date = match post.published_at {
                Some(t) => t.display(),
                None => String::new(),
            };
            let line = sitemap_entry(post.slug.as_str(), date.as_str());
            proof {
                assert(list@.take(i + 1).drop_last() =~= list@.take(i as int));
                assert(list@.take(i + 1).last() == list@[i as int]);
                assert(xml@ + line@ =~= sitemap_head() + entry_lines(list@.take(i + 1)));
            }
            xml.append(line.as_str());
            i = i + 1;
        }
        proof {
            assert(list@.take(i as int) =~= list@);
        }
    } else {
        proof {
            assert(sitemap_head() + entry_lines(Seq::empty()) =~= sitemap_head());
        }
    }
    xml.append("</urlset>");
    xml
}

} // verus!
