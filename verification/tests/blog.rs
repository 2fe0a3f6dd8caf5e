use terroir_api::blog::get_blog_post_by_slug;
use terroir_api::errors::ApiError;
use terroir_api::models::{BlogPost, Timestamp};

fn post(slug: &str, published: bool) -> BlogPost {
    let at = Timestamp { secs: 1_700_000_000, nanos: 0 };
    BlogPost {
        id: 7,
        slug: slug.to_string(),
        title: "Soil".to_string(),
        subtitle: None,
        category: "field-notes".to_string(),
        hero_image_url: None,
        content_html: "<p>Soil.</p>".to_string(),
        excerpt: "Soil.".to_string(),
        author_name: "Ada".to_string(),
        read_time_minutes: 3,
        published,
        published_at: if published { Some(at) } else { None },
        created_at: at,
        updated_at: at,
    }
}

#[test]
fn published_post_is_returned() {
    let p = post("soil", true);
    assert_eq!(get_blog_post_by_slug(Some(p.clone()), "soil"), Ok(p));
}

#[test]
fn unpublished_post_is_not_found_though_the_row_exists() {
    assert_eq!(
        get_blog_post_by_slug(Some(post("draft", false)), "draft"),
        Err(ApiError::NotFound("Post 'draft' not found".to_string()))
    );
}

#[test]
fn missing_post_is_not_found() {
    assert_eq!(
        get_blog_post_by_slug(None, "nothing-here"),
        Err(ApiError::NotFound("Post 'nothing-here' not found".to_string()))
    );
    assert_eq!(get_blog_post_by_slug(None, ""), Err(ApiError::NotFound("Post '' not found".to_string())));
}

#[test]
fn unpublished_and_missing_posts_are_answered_alike() {
    let hidden = get_blog_post_by_slug(Some(post("x", false)), "x").unwrap_err().into_response();
    let missing = get_blog_post_by_slug(None, "x").unwrap_err().into_response();
    assert_eq!(hidden, missing);
    assert_eq!(hidden.status, 404);
}
