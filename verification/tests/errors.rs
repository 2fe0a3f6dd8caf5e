use terroir_api::errors::{ApiError, ApiResponse, ResponseBody};

fn error_response(status: u16, message: &str) -> ApiResponse {
    ApiResponse { status, body: ResponseBody::Error { message: message.to_string() } }
}

#[test]
fn spam_is_answered_as_success() {
    assert_eq!(
        ApiError::SpamDetected.into_response(),
        ApiResponse {
            status: 200,
            body: ResponseBody::Success {
                message: "Thank you! We'll be in touch shortly.".to_string()
            },
        }
    );
}

#[test]
fn not_found_carries_its_message() {
    assert_eq!(
        ApiError::NotFound("Post 'x' not found".to_string()).into_response(),
        error_response(404, "Post 'x' not found")
    );
}

#[test]
fn validation_failure_carries_its_reason() {
    assert_eq!(
        ApiError::Validation("email: must be a valid email address".to_string()).into_response(),
        error_response(400, "email: must be a valid email address")
    );
}

#[test]
fn storage_failure_hides_its_detail() {
    let r = ApiError::Database("relation \"contact_submissions\" does not exist".to_string())
        .into_response();
    assert_eq!(r, error_response(500, "An internal error occurred"));
}

#[test]
fn internal_failure_hides_its_detail() {
    let r = ApiError::Internal("stack overflow in handler".to_string()).into_response();
    assert_eq!(r, error_response(500, "An internal error occurred"));
}

#[test]
fn unauthorized_is_401() {
    assert_eq!(ApiError::Unauthorized.into_response(), error_response(401, "Unauthorized"));
}

#[test]
fn rate_limited_is_429() {
    assert_eq!(
        ApiError::RateLimited.into_response(),
        error_response(429, "Too many submissions. Please try again later.")
    );
}

#[test]
fn failures_describe_themselves_for_the_log() {
    assert_eq!(ApiError::NotFound("a".to_string()).to_string(), "Not found: a");
    assert_eq!(ApiError::Validation("b".to_string()).to_string(), "Validation error: b");
    assert_eq!(ApiError::Database("c".to_string()).to_string(), "Database error: c");
    assert_eq!(ApiError::Internal("d".to_string()).to_string(), "Internal error: d");
    assert_eq!(ApiError::Unauthorized.to_string(), "Unauthorized");
    assert_eq!(ApiError::SpamDetected.to_string(), "Spam detected");
    assert_eq!(ApiError::RateLimited.to_string(), "Too many requests");
}
