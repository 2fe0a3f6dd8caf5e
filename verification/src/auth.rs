//! Authorisation of the admin endpoints by bearer token.

use vstd::prelude::*;
use vstd::string::StringExecFns;
use crate::config::AppConfig;
use crate::errors::ApiError;
use crate::pagination::admin_page;
use crate::pagination::effective_limit;
use crate::pagination::effective_offset;
use crate::pagination::Page;
use crate::pagination::PaginationParams;
use crate::pagination::ADMIN_DEFAULT_LIMIT;
use crate::pagination::ADMIN_MAX_LIMIT;
use crate::text::option_text;

verus! {

/// The value of the `Authorization` header that carries `token`.
pub open spec fn bearer_header(token: Seq<char>) -> Seq<char> {
    "Bearer "@ + token
}

/// A request is authorised where the server holds a token and the header
/// carries exactly that token.
pub open spec fn authorized(admin_token: Option<Seq<char>>, authorization: Option<Seq<char>>) -> bool {
    admin_token matches Some(t) && authorization matches Some(h) && h == bearer_header(t)
}

/// Checks the `Authorization` header of an admin request against the
/// server's token. `authorization` is the header's value, absent where the
/// request has none or it is no text. Every failure is the same
/// `Unauthorized`.
pub fn validate_admin_token(config: &AppConfig, authorization: &Option<String>) -> (r: Result<
    (),
    ApiError,
>)
    ensures
        r is Ok <==> authorized(option_text(config.admin_token), option_text(*authorization)),
        r matches Err(e) ==> e == ApiError::Unauthorized,
{
    match &config.admin_token {
        None => Err(ApiError::Unauthorized),
        Some(expected) => {
            match authorization {
                None => Err(ApiError::Unauthorized),
                Some(value) => {
                    let wanted = String::from_str("Bearer ").concat(expected.as_str());
                    if *value == wanted {
                        Ok(())
                    } else {
                        Err(ApiError::Unauthorized)
                    }
                },
            }
        },
    }
}

/// Admits a request for the site's statistics.
pub fn admin_stats(config: &AppConfig, authorization: &Option<String>) -> (r: Result<(), ApiError>)
    ensures
        r is Ok <==> authorized(option_text(config.admin_token), option_text(*authorization)),
        r matches Err(e) ==> e == ApiError::Unauthorized,
{
    validate_admin_token(config, authorization)
}

/// Admits a request for the list of contact submissions and resolves its
/// page.
pub fn admin_contacts(
    config: &AppConfig,
    authorization: &Option<String>,
    params: &PaginationParams,
) -> (r: Result<Page, ApiError>)
    ensures
        r is Ok <==> authorized(option_text(config.admin_token), option_text(*authorization)),
        r matches Err(e) ==> e == ApiError::Unauthorized,
        r matches Ok(page) ==> page.limit == effective_limit(
            params.limit,
            ADMIN_DEFAULT_LIMIT,
            ADMIN_MAX_LIMIT,
        ) && page.offset == effective_offset(params.offset),
{
    match validate_admin_token(config, authorization) {
        Ok(()) => Ok(admin_page(params)),
        Err(e) => Err(e),
    }
}

/// Admits a request for the list of waitlist entries and resolves its page.
pub fn admin_waitlist(
    config: &AppConfig,
    authorization: &Option<String>,
    params: &PaginationParams,
) -> (r: Result<Page, ApiError>)
    ensures
        r is Ok <==> authorized(option_text(config.admin_token), option_text(*authorization)),
        r matches Err(e) ==> e == ApiError::Unauthorized,
        r matches Ok(page) ==> page.limit == effective_limit(
            params.limit,
            ADMIN_DEFAULT_LIMIT,
            ADMIN_MAX_LIMIT,
        ) && page.offset == effective_offset(params.offset),
{
    match validate_admin_token(config, authorization) {
        Ok(()) => Ok(admin_page(params)),
        Err(e) => Err(e),
    }
}

/// A request without header is refused, and so is one whose header differs
/// from the bearer form of the server's token; where the server holds no
/// token, every request is refused.
pub proof fn lemma_only_the_token_opens(admin_token: Option<Seq<char>>, header: Seq<char>)
    ensures
        !authorized(admin_token, None),
        !authorized(None, Some(header)),
        admin_token matches Some(t) ==> (authorized(admin_token, Some(header)) <==> header
            == bearer_header(t)),
{
}

} // verus!
