//! The anti-spam heuristic: a honeypot field and a minimum fill time.

use vstd::prelude::*;
use crate::errors::ApiError;
use crate::text::option_text;

verus! {

/// A form sent back sooner than this many milliseconds after it was loaded
/// was not filled in by a person.
pub const MIN_FILL_MILLIS: i64 = 2_000;

/// Why a submission was classified as automated.
#[derive(Debug, Clone, Copy, PartialEq, Eq, Structural)]
pub enum SpamReason {
    /// The field that people cannot see held a value.
    HoneypotFilled,
    /// Less than [`MIN_FILL_MILLIS`] passed between loading and sending.
    TooFast,
}

/// The honeypot is present and holds at least one character.
pub open spec fn honeypot_filled(honeypot: Option<Seq<char>>) -> bool {
    honeypot matches Some(h) && h.len() > 0
}

/// The load time is present and less than two seconds before `now_ms`.
/// The difference is taken over the integers: it never wraps.
pub open spec fn submitted_too_fast(form_loaded_at: Option<i64>, now_ms: i64) -> bool {
    form_loaded_at matches Some(t) && now_ms - t < MIN_FILL_MILLIS
}

/// The heuristic as a whole.
pub open spec fn is_spam(
    honeypot: Option<Seq<char>>,
    form_loaded_at: Option<i64>,
    now_ms: i64,
) -> bool {
    honeypot_filled(honeypot) || submitted_too_fast(form_loaded_at, now_ms)
}

/// The reason reported for a submission; the honeypot is looked at first.
pub open spec fn reason_for(
    honeypot: Option<Seq<char>>,
    form_loaded_at: Option<i64>,
    now_ms: i64,
) -> Option<SpamReason> {
    if honeypot_filled(honeypot) {
        Some(SpamReason::HoneypotFilled)
    } else if submitted_too_fast(form_loaded_at, now_ms) {
        Some(SpamReason::TooFast)
    } else {
        None
    }
}

/// Milliseconds since the Unix epoch on the system clock, read through
/// `chrono::Utc::now` and `DateTime::timestamp_millis`. Nothing is claimed of
/// the value: it differs from call to call. chrono stops the process if the
/// system clock stands before 1970.
#[verifier::external_body]
pub(crate) fn now_millis() -> i64 {
    chrono::Utc::now().timestamp_millis()
}

/// Classifies a submission at the time `now_ms`.
pub fn classify(honeypot: &Option<String>, form_loaded_at: &Option<i64>, now_ms: i64) -> (r:
    Option<SpamReason>)
    ensures
        r == reason_for(option_text(*honeypot), *form_loaded_at, now_ms),
        r is Some <==> is_spam(option_text(*honeypot), *form_loaded_at, now_ms),
{
    if let Some(hp) = honeypot {
        if !hp.as_str().is_empty() {
            return Some(SpamReason::HoneypotFilled);
        }
    }
    if let Some(loaded_at) = form_loaded_at {
        let too_fast = match now_ms.checked_sub(*loaded_at) {
            Some(elapsed_ms) => elapsed_ms < MIN_FILL_MILLIS,
            // The difference left the range of i64: it is negative exactly
            // where the form claims to have been loaded in the future.
            None => *loaded_at > now_ms,
        };
        if too_fast {
            return Some(SpamReason::TooFast);
        }
    }
    None
}

/// The heuristic at the time `now_ms`: fails with `SpamDetected` exactly on
/// the submissions that [`is_spam`] describes.
pub fn spam_verdict(honeypot: &Option<String>, form_loaded_at: &Option<i64>, now_ms: i64) -> (r:
    Result<(), ApiError>)
    ensures
        r is Err <==> is_spam(option_text(*honeypot), *form_loaded_at, now_ms),
        r matches Err(e) ==> e == ApiError::SpamDetected,
{
    match classify(honeypot, form_loaded_at, now_ms) {
        Some(_) => Err(ApiError::SpamDetected),
        None => Ok(()),
    }
}

/// The heuristic at the present time. The clock decides only where a load
/// time is given and the honeypot is empty; the result is the verdict of
/// [`spam_verdict`] at some time.
pub fn check_spam(honeypot: &Option<String>, form_loaded_at: &Option<i64>) -> (r: Result<(), ApiError>)
    ensures
        exists|now_ms: i64|
            r is Err <==> #[trigger] is_spam(option_text(*honeypot), *form_loaded_at, now_ms),
        honeypot_filled(option_text(*honeypot)) ==> r is Err,
        *form_loaded_at is None ==> (r is Err <==> honeypot_filled(option_text(*honeypot))),
        r matches Err(e) ==> e == ApiError::SpamDetected,
{
    let now_ms = now_millis();
    spam_verdict(honeypot, form_loaded_at, now_ms)
}

/// Where the timing does not flag a submission, the honeypot alone decides:
/// the submission is spam if and only if the honeypot is present and not
/// empty.
pub proof fn lemma_honeypot_decides(
    honeypot: Option<Seq<char>>,
    form_loaded_at: Option<i64>,
    now_ms: i64,
)
    requires
        !submitted_too_fast(form_loaded_at, now_ms),
    ensures
        is_spam(honeypot, form_loaded_at, now_ms) <==> (honeypot is Some && honeypot->0.len()
            > 0),
{
}

/// Where the honeypot does not flag a submission that carries a load time
/// `t`, the timing alone decides: the submission is spam if and only if
/// `now_ms - t` is under two seconds.
pub proof fn lemma_elapsed_time_decides(honeypot: Option<Seq<char>>, t: i64, now_ms: i64)
    requires
        !honeypot_filled(honeypot),
    ensures
        is_spam(honeypot, Some(t), now_ms) <==> now_ms - t < 2000,
{
}

} // verus!
