//! Timestamps as text, rendered by `chrono`.

use std::fmt::Write;
use vstd::prelude::*;
use crate::models::Timestamp;
use crate::text::option_text;

verus! {

/// The text that `chrono` displays for the UTC time `secs` seconds and
/// `nanos` nanoseconds after the epoch; `None` where `chrono` has no such
/// time.
pub uninterp spec fn utc_display(secs: i64, nanos: u32) -> Option<Seq<char>>;

/// The text that `chrono` gives the same time under a `strftime` pattern;
/// `None` where `chrono` has no such time or refuses the pattern.
pub uninterp spec fn utc_formatted(secs: i64, nanos: u32, pattern: Seq<char>) -> Option<Seq<char>>;

/// Builds the time with `chrono::DateTime::from_timestamp` and renders it
/// with the `Display` impl of `DateTime<Utc>`. The text depends on the two
/// numbers alone and is named [`utc_display`]; no more is claimed of it.
#[verifier::external_body]
pub(crate) fn display_utc(secs: i64, nanos: u32) -> (r: Option<String>)
    ensures
        option_text(r) == utc_display(secs, nanos),
{
    match chrono::DateTime::from_timestamp(secs, nanos) {
        Some(d) => Some(d.to_string()),
        None => None,
    }
}

/// Builds the time with `chrono::DateTime::from_timestamp` and renders it
/// with `DateTime::format`. A pattern that `chrono` refuses gives `None`.
/// The text depends on the arguments alone and is named [`utc_formatted`];
/// no more is claimed of it.
#[verifier::external_body]
pub(crate) fn format_utc(secs: i64, nanos: u32, pattern: &str) -> (r: Option<String>)
    ensures
        option_text(r) == utc_formatted(secs, nanos, pattern@),
{
    let mut out = String::new();
    match chrono::DateTime::from_timestamp(secs, nanos) {
        Some(d) => match write!(out, "{}", d.format(pattern)) {
            Ok(()) => Some(out),
            Err(_) => None,
        },
        None => None,
    }
}

/// The displayed text of a timestamp, empty where there is none.
pub open spec fn display_text(t: Timestamp) -> Seq<char> {
    match utc_display(t.secs, t.nanos) {
        Some(s) => s,
        None => Seq::empty(),
    }
}

/// The formatted text of a timestamp, empty where there is none.
pub open spec fn formatted_text(t: Timestamp, pattern: Seq<char>) -> Seq<char> {
    match utc_formatted(t.secs, t.nanos, pattern) {
        Some(s) => s,
        None => Seq::empty(),
    }
}

impl Timestamp {
    /// The timestamp as `chrono` displays it, or the empty text where
    /// `chrono` cannot represent it.
    pub fn display(&self) -> (r: String)
        ensures
            r@ == display_text(*self),
    {
        match display_utc(self.secs, self.nanos) {
            Some(s) => s,
            None => String::new(),
        }
    }

    /// The timestamp under a `strftime` pattern, or the empty text where
    /// `chrono` cannot represent the time or refuses the pattern.
    pub fn format(&self, pattern: &str) -> (r: String)
        ensures
            r@ == formatted_text(*self, pattern@),
    {
        match format_utc(self.secs, self.nanos, pattern) {
            Some(s) => s,
            None => String::new(),
        }
    }
}

} // verus!
