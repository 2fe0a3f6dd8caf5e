//! The failure taxonomy and its mapping to client-visible responses.

use vstd::prelude::*;
use vstd::string::StringExecFns;

verus! {

pub const STATUS_OK: u16 = 200;
pub const STATUS_BAD_REQUEST: u16 = 400;
pub const STATUS_UNAUTHORIZED: u16 = 401;
pub const STATUS_NOT_FOUND: u16 = 404;
pub const STATUS_TOO_MANY_REQUESTS: u16 = 429;
pub const STATUS_INTERNAL_SERVER_ERROR: u16 = 500;

/// Everything that can go wrong while serving a request.
///
/// `Database` and `Internal` carry the server-side detail of the failure; it
/// is meant for the log and never reaches a client.
#[derive(Debug, Clone, PartialEq, Eq)]
pub enum ApiError {
    NotFound(String),
    Validation(String),
    Database(String),
    Internal(String),
    Unauthorized,
    SpamDetected,
    RateLimited,
}

pub type ApiResult<T> = Result<T, ApiError>;

/// Mathematical model of an [`ApiError`].
pub enum ApiErrorView {
    NotFound(Seq<char>),
    Validation(Seq<char>),
    Database(Seq<char>),
    Internal(Seq<char>),
    Unauthorized,
    SpamDetected,
    RateLimited,
}

impl View for ApiError {
    type V = ApiErrorView;

    open spec fn view(&self) -> ApiErrorView {
        match self {
            ApiError::NotFound(m) => ApiErrorView::NotFound(m@),
            ApiError::Validation(m) => ApiErrorView::Validation(m@),
            ApiError::Database(m) => ApiErrorView::Database(m@),
            ApiError::Internal(m) => ApiErrorView::Internal(m@),
            ApiError::Unauthorized => ApiErrorView::Unauthorized,
            ApiError::SpamDetected => ApiErrorView::SpamDetected,
            ApiError::RateLimited => ApiErrorView::RateLimited,
        }
    }
}

/// The JSON object sent to the client: either `{success: true, message}` or
/// `{error: message}`.
#[derive(Debug, Clone, PartialEq, Eq)]
pub enum ResponseBody {
    Success { message: String },
    Error { message: String },
}

/// A status code with its body.
#[derive(Debug, Clone, PartialEq, Eq)]
pub struct ApiResponse {
    pub status: u16,
    pub body: ResponseBody,
}

/// Mathematical model of an [`ApiResponse`].
pub struct ApiResponseView {
    pub status: int,
    pub success: bool,
    pub message: Seq<char>,
}

impl View for ApiResponse {
    type V = ApiResponseView;

    open spec fn view(&self) -> ApiResponseView {
        match self.body {
            ResponseBody::Success { message } => ApiResponseView {
                status: self.status as int,
                success: true,
                message: message@,
            },
            ResponseBody::Error { message } => ApiResponseView {
                status: self.status as int,
                success: false,
                message: message@,
            },
        }
    }
}

/// The text shown in place of any storage or internal failure.
pub open spec fn generic_failure_text() -> Seq<char> {
    "An internal error occurred"@
}

/// The text of the disguised answer to a submission classified as spam.
pub open spec fn disguised_success_text() -> Seq<char> {
    "Thank you! We'll be in touch shortly."@
}

/// The response owed to a client for each failure.
///
/// Spam is answered like an accepted submission; storage and internal
/// failures are answered with a fixed text whatever their detail.
pub open spec fn response_for(e: ApiErrorView) -> ApiResponseView {
    match e {
        ApiErrorView::SpamDetected => ApiResponseView {
            status: 200,
            success: true,
            message: disguised_success_text(),
        },
        ApiErrorView::NotFound(m) => ApiResponseView { status: 404, success: false, message: m },
        ApiErrorView::Validation(m) => ApiResponseView { status: 400, success: false, message: m },
        ApiErrorView::Database(_) => ApiResponseView {
            status: 500,
            success: false,
            message: generic_failure_text(),
        },
        ApiErrorView::Internal(_) => ApiResponseView {
            status: 500,
            success: false,
            message: generic_failure_text(),
        },
        ApiErrorView::Unauthorized => ApiResponseView {
            status: 401,
            success: false,
            message: "Unauthorized"@,
        },
        ApiErrorView::RateLimited => ApiResponseView {
            status: 429,
            success: false,
            message: "Too many submissions. Please try again later."@,
        },
    }
}

/// The one-line description of a failure, as written to the log.
pub open spec fn description_of(e: ApiErrorView) -> Seq<char> {
    match e {
        ApiErrorView::NotFound(m) => "Not found: "@ + m,
        ApiErrorView::Validation(m) => "Validation error: "@ + m,
        ApiErrorView::Database(m) => "Database error: "@ + m,
        ApiErrorView::Internal(m) => "Internal error: "@ + m,
        ApiErrorView::Unauthorized => "Unauthorized"@,
        ApiErrorView::SpamDetected => "Spam detected"@,
        ApiErrorView::RateLimited => "Too many requests"@,
    }
}

impl ApiError {
    /// Maps the failure to the response that the client sees.
    pub fn into_response(self) -> (r: ApiResponse)
        ensures
            r@ == response_for(self@),
    {
        match self {
            ApiError::SpamDetected => ApiResponse {
                status: STATUS_OK,
                body: ResponseBody::Success {
                    message: String::from_str("Thank you! We'll be in touch shortly."),
                },
            },
            ApiError::NotFound(msg) => ApiResponse {
                status: STATUS_NOT_FOUND,
                body: ResponseBody::Error { message: msg },
            },
            ApiError::Validation(msg) => ApiResponse {
                status: STATUS_BAD_REQUEST,
                body: ResponseBody::Error { message: msg },
            },
            ApiError::Database(_) => ApiResponse {
                status: STATUS_INTERNAL_SERVER_ERROR,
                body: ResponseBody::Error {
                    message: String::from_str("An internal error occurred"),
                },
            },
            ApiError::Internal(_) => ApiResponse {
                status: STATUS_INTERNAL_SERVER_ERROR,
                body: ResponseBody::Error {
                    message: String::from_str("An internal error occurred"),
                },
            },
            ApiError::Unauthorized => ApiResponse {
                status: STATUS_UNAUTHORIZED,
                body: ResponseBody::Error { message: String::from_str("Unauthorized") },
            },
            ApiError::RateLimited => ApiResponse {
                status: STATUS_TOO_MANY_REQUESTS,
                body: ResponseBody::Error {
                    message: String::from_str("Too many submissions. Please try again later."),
                },
            },
        }
    }

    /// The description of the failure for the server's log.
    pub fn to_string(&self) -> (r: String)
        ensures
            r@ == description_of(self@),
    {
        match self {
            ApiError::NotFound(m) => String::from_str("Not found: ").concat(m.as_str()),
            ApiError::Validation(m) => String::from_str("Validation error: ").concat(m.as_str()),
            ApiError::Database(m) => String::from_str("Database error: ").concat(m.as_str()),
            ApiError::Internal(m) => String::from_str("Internal error: ").concat(m.as_str()),
            ApiError::Unauthorized => String::from_str("Unauthorized"),
            ApiError::SpamDetected => String::from_str("Spam detected"),
            ApiError::RateLimited => String::from_str("Too many requests"),
        }
    }
}

/// A failure's detail never reaches the client: two storage failures, or two
/// internal failures, are answered alike whatever they carry.
pub proof fn lemma_failure_detail_is_hidden(a: Seq<char>, b: Seq<char>)
    ensures
        response_for(ApiErrorView::Database(a)) == response_for(ApiErrorView::Database(b)),
        response_for(ApiErrorView::Internal(a)) == response_for(ApiErrorView::Internal(b)),
        response_for(ApiErrorView::Database(a)) == response_for(ApiErrorView::Internal(b)),
{
}

} // verus!
