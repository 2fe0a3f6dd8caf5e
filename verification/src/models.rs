//! The records that travel between the HTTP surface, the rules and the
//! relational store.

use vstd::prelude::*;
use crate::text::owned_or;
use crate::text::text_or;

verus! {

/// A moment in time: seconds since the Unix epoch and the nanoseconds within
/// that second.
#[derive(Debug, Clone, Copy, PartialEq, Eq, Structural)]
pub struct Timestamp {
    pub secs: i64,
    pub nanos: u32,
}

#[derive(Debug, Clone, PartialEq, Eq)]
pub struct BlogPost {
    pub id: u128,
    pub slug: String,
    pub title: String,
    pub subtitle: Option<String>,
    pub category: String,
    pub hero_image_url: Option<String>,
    pub content_html: String,
    pub excerpt: String,
    pub author_name: String,
    pub read_time_minutes: i32,
    pub published: bool,
    pub published_at: Option<Timestamp>,
    pub created_at: Timestamp,
    pub updated_at: Timestamp,
}

#[derive(Debug, Clone, PartialEq, Eq)]
pub struct BlogPostSummary {
    pub id: u128,
    pub slug: String,
    pub title: String,
    pub subtitle: Option<String>,
    pub category: String,
    pub hero_image_url: Option<String>,
    pub excerpt: String,
    pub author_name: String,
    pub read_time_minutes: i32,
    pub published_at: Option<Timestamp>,
}

/// A stored contact submission. It is written once and never changed.
#[derive(Debug, Clone, PartialEq, Eq)]
pub struct ContactSubmission {
    pub id: u128,
    pub name: String,
    pub email: String,
    pub company: Option<String>,
    pub phone: Option<String>,
    pub acreage: Option<String>,
    pub crop_type: Option<String>,
    pub message: String,
    pub source: String,
    pub created_at: Timestamp,
}

/// The body of a contact form. `website` is the honeypot; `_form_loaded_at`
/// is the time, in milliseconds since the epoch, at which the client says
/// the form was shown.
#[derive(Debug, Clone, PartialEq, Eq)]
pub struct ContactRequest {
    pub name: String,
    pub email: String,
    pub company: Option<String>,
    pub phone: Option<String>,
    pub acreage: Option<String>,
    pub crop_type: Option<String>,
    pub message: String,
    pub source: Option<String>,
    pub website: Option<String>,
    pub _form_loaded_at: Option<i64>,
}

/// A stored waitlist entry; `email` and `interest` together are its key.
#[derive(Debug, Clone, PartialEq, Eq)]
pub struct WaitlistEntry {
    pub id: u128,
    pub email: String,
    pub name: Option<String>,
    pub company: Option<String>,
    pub interest: String,
    pub created_at: Timestamp,
}

/// The body of a waitlist form, with the same two anti-spam fields as
/// [`ContactRequest`].
#[derive(Debug, Clone, PartialEq, Eq)]
pub struct WaitlistRequest {
    pub email: String,
    pub name: Option<String>,
    pub company: Option<String>,
    pub interest: Option<String>,
    pub website: Option<String>,
    pub _form_loaded_at: Option<i64>,
}

#[derive(Debug, Clone, PartialEq, Eq)]
pub struct HealthResponse {
    pub status: String,
    pub version: String,
    pub database: String,
}

#[derive(Debug, Clone, PartialEq, Eq)]
pub struct PageViewRequest {
    pub session_id: String,
    pub visitor_id: String,
    pub path: String,
    pub referrer: Option<String>,
    pub utm_source: Option<String>,
    pub utm_medium: Option<String>,
    pub utm_campaign: Option<String>,
    pub utm_term: Option<String>,
    pub utm_content: Option<String>,
    pub screen_width: Option<i32>,
}

impl ContactRequest {
    /// The source stored with the submission: the one given, else `website`.
    pub fn source_or_default(&self) -> (r: String)
        ensures
            r@ == text_or(self.source, "website"@),
    {
        owned_or(&self.source, "website")
    }
}

impl WaitlistRequest {
    /// The interest stored with the entry: the one given, else `general`.
    pub fn interest_or_default(&self) -> (r: String)
        ensures
            r@ == text_or(self.interest, "general"@),
    {
        owned_or(&self.interest, "general")
    }
}

/// The category stored with an analytics event: the one given, else
/// `interaction`.
pub fn event_category_or_default(category: &Option<String>) -> (r: String)
    ensures
        r@ == text_or(*category, "interaction"@),
{
    owned_or(category, "interaction")
}

} // verus!
