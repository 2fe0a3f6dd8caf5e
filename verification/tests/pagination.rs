use terroir_api::pagination::{admin_page, list_posts, Page, PaginationParams};

fn params(limit: Option<i64>, offset: Option<i64>) -> PaginationParams {
    PaginationParams { limit, offset }
}

#[test]
fn blog_limit_of_1000_is_clamped_to_50() {
    assert_eq!(list_posts(&params(Some(1000), None)), Page { limit: 50, offset: 0 });
}

#[test]
fn blog_limit_of_zero_gives_the_default() {
    assert_eq!(list_posts(&params(Some(0), None)).limit, 10);
}

#[test]
fn blog_limit_absent_gives_the_default() {
    assert_eq!(list_posts(&params(None, None)), Page { limit: 10, offset: 0 });
}

#[test]
fn blog_limit_negative_gives_the_default() {
    assert_eq!(list_posts(&params(Some(-5), None)).limit, 10);
    assert_eq!(list_posts(&params(Some(i64::MIN), None)).limit, 10);
}

#[test]
fn blog_limit_in_range_is_kept() {
    assert_eq!(list_posts(&params(Some(1), None)).limit, 1);
    assert_eq!(list_posts(&params(Some(25), None)).limit, 25);
    assert_eq!(list_posts(&params(Some(50), None)).limit, 50);
    assert_eq!(list_posts(&params(Some(51), None)).limit, 50);
    assert_eq!(list_posts(&params(Some(i64::MAX), None)).limit, 50);
}

#[test]
fn offset_is_passed_on() {
    assert_eq!(list_posts(&params(None, Some(30))), Page { limit: 10, offset: 30 });
    assert_eq!(admin_page(&params(Some(7), Some(14))), Page { limit: 7, offset: 14 });
}

#[test]
fn admin_lists_default_to_100_and_stop_at_200() {
    assert_eq!(admin_page(&params(None, None)).limit, 100);
    assert_eq!(admin_page(&params(Some(0), None)).limit, 100);
    assert_eq!(admin_page(&params(Some(-1), None)).limit, 100);
    assert_eq!(admin_page(&params(Some(150), None)).limit, 150);
    assert_eq!(admin_page(&params(Some(200), None)).limit, 200);
    assert_eq!(admin_page(&params(Some(1000), None)).limit, 200);
}

#[test]
fn resolve_uses_the_given_default_and_maximum() {
    assert_eq!(params(Some(9), Some(2)).resolve(3, 5), Page { limit: 5, offset: 2 });
    assert_eq!(params(None, None).resolve(3, 5), Page { limit: 3, offset: 0 });
    assert_eq!(params(Some(4), None).resolve(3, 5).limit, 4);
}
