//! The rate limiter: a count of one sender's earlier submissions inside a
//! look-back window, and the verdict on that count.

use vstd::prelude::*;
use crate::errors::ApiError;

verus! {

/// The look-back window, in minutes.
pub const RATE_LIMIT_WINDOW_MINUTES: i64 = 60;

/// The number of earlier submissions inside the window at which the next
/// one is refused.
pub const RATE_LIMIT_MAX_SUBMISSIONS: i64 = 3;

/// The public write endpoint that a submission came through.
#[derive(Debug, Clone, Copy, PartialEq, Eq, Structural)]
pub enum EndpointKind {
    Contact,
    Waitlist,
}

/// What the rate limiter knows of an earlier submission: who sent it, where
/// to, and when (milliseconds since the epoch).
#[derive(Debug, Clone, PartialEq, Eq)]
pub struct SubmissionAttempt {
    pub email: String,
    pub kind: EndpointKind,
    pub at_ms: i64,
}

/// The attempt was made less than `window_minutes` before `now_ms`.
pub open spec fn in_window(at_ms: i64, now_ms: i64, window_minutes: i64) -> bool {
    now_ms - at_ms < window_minutes * 60_000
}

/// The attempts that count against a sender: same address, same endpoint,
/// inside the window.
pub open spec fn counts_against(
    email: Seq<char>,
    kind: EndpointKind,
    now_ms: i64,
    window_minutes: i64,
) -> spec_fn(SubmissionAttempt) -> bool {
    |a: SubmissionAttempt|
        a.email@ == email && a.kind == kind && in_window(a.at_ms, now_ms, window_minutes)
}

/// The number of attempts that count against a sender.
pub open spec fn recent_count(
    attempts: Seq<SubmissionAttempt>,
    email: Seq<char>,
    kind: EndpointKind,
    now_ms: i64,
    window_minutes: i64,
) -> nat {
    attempts.filter(counts_against(email, kind, now_ms, window_minutes)).len()
}

/// The rule: a sender with three or more counted attempts is refused.
pub open spec fn limit_reached(recent: int) -> bool {
    recent >= RATE_LIMIT_MAX_SUBMISSIONS
}

fn within_window(at_ms: i64, now_ms: i64, window_minutes: i64) -> (r: bool)
    ensures
        r == in_window(at_ms, now_ms, window_minutes),
{
    let elapsed: i128 = now_ms as i128 - at_ms as i128;
    let window: i128 = window_minutes as i128 * 60_000;
    elapsed < window
}

proof fn lemma_count_step(s: Seq<SubmissionAttempt>, pred: spec_fn(SubmissionAttempt) -> bool, i: int)
    requires
        0 <= i < s.len(),
    ensures
        s.take(i + 1).filter(pred).len() == s.take(i).filter(pred).len() + if pred(s[i]) {
            1int
        } else {
            0int
        },
{
    reveal(Seq::filter);
    assert(s.take(i + 1).drop_last() =~= s.take(i));
}

/// Counts the attempts in `attempts` that count against `email` on the
/// endpoint `kind` at the time `now_ms`.
pub fn count_recent(
    attempts: &Vec<SubmissionAttempt>,
    email: &String,
    kind: EndpointKind,
    now_ms: i64,
    window_minutes: i64,
) -> (n: usize)
    ensures
        n == recent_count(attempts@, email@, kind, now_ms, window_minutes),
{
    let ghost pred = counts_against(email@, kind, now_ms, window_minutes);
    let mut n: usize = 0;
    let mut i: usize = 0;
    proof {
        reveal(Seq::filter);
        assert(attempts@.take(0).filter(pred).len() == 0);
    }
    while i < attempts.len()
        invariant
            0 <= i <= attempts.len(),
            pred == counts_against(email@, kind, now_ms, window_minutes),
            n == attempts@.take(i as int).filter(pred).len(),
            n <= i,
        decreases attempts.len() - i,
    {
        let a = &attempts[i];
        proof {
            lemma_count_step(attempts@, pred, i as int);
        }
        if a.email == *email && a.kind == kind && within_window(a.at_ms, now_ms, window_minutes) {
            n = n + 1;
        }
        i = i + 1;
    }
    proof {
        assert(attempts@.take(i as int) =~= attempts@);
    }
    n
}

/// The verdict on a count: refuses with `RateLimited` exactly where the
/// limit is reached.
pub fn check_rate_limit(recent: i64) -> (r: Result<(), ApiError>)
    ensures
        r is Err <==> limit_reached(recent as int),
        r matches Err(e) ==> e == ApiError::RateLimited,
{
    if recent >= RATE_LIMIT_MAX_SUBMISSIONS {
        Err(ApiError::RateLimited)
    } else {
        Ok(())
    }
}

/// An attempt that counts raises the count by one; any other leaves it.
pub proof fn lemma_attempt_recorded(
    attempts: Seq<SubmissionAttempt>,
    a: SubmissionAttempt,
    email: Seq<char>,
    kind: EndpointKind,
    now_ms: i64,
    window_minutes: i64,
)
    ensures
        recent_count(attempts.push(a), email, kind, now_ms, window_minutes) == recent_count(
            attempts,
            email,
            kind,
            now_ms,
            window_minutes,
        ) + if counts_against(email, kind, now_ms, window_minutes)(a) {
            1int
        } else {
            0int
        },
{
    reveal(Seq::filter);
    assert(attempts.push(a).drop_last() =~= attempts);
}

/// Once every earlier attempt lies a full window or more in the past, none
/// counts, and the sender is accepted again.
pub proof fn lemma_window_elapsed(
    attempts: Seq<SubmissionAttempt>,
    email: Seq<char>,
    kind: EndpointKind,
    now_ms: i64,
    window_minutes: i64,
)
    requires
        forall|i: int|
            0 <= i < attempts.len() ==> !in_window(
                (#[trigger] attempts[i]).at_ms,
                now_ms,
                window_minutes,
            ),
    ensures
        recent_count(attempts, email, kind, now_ms, window_minutes) == 0,
        !limit_reached(recent_count(attempts, email, kind, now_ms, window_minutes) as int),
    decreases attempts.len(),
{
    reveal(Seq::filter);
    if attempts.len() > 0 {
        lemma_window_elapsed(attempts.drop_last(), email, kind, now_ms, window_minutes);
    }
}

/// Three submissions from one sender inside the window are accepted in
/// turn, and the one after them is refused.
pub proof fn lemma_fourth_submission_refused(
    a: SubmissionAttempt,
    b: SubmissionAttempt,
    c: SubmissionAttempt,
    email: Seq<char>,
    kind: EndpointKind,
    now_ms: i64,
    window_minutes: i64,
)
    requires
        counts_against(email, kind, now_ms, window_minutes)(a),
        counts_against(email, kind, now_ms, window_minutes)(b),
        counts_against(email, kind, now_ms, window_minutes)(c),
    ensures
        !limit_reached(recent_count(seq![], email, kind, now_ms, window_minutes) as int),
        !limit_reached(recent_count(seq![a], email, kind, now_ms, window_minutes) as int),
        !limit_reached(recent_count(seq![a, b], email, kind, now_ms, window_minutes) as int),
        limit_reached(recent_count(seq![a, b, c], email, kind, now_ms, window_minutes) as int),
{
    let e = Seq::<SubmissionAttempt>::empty();
    reveal(Seq::filter);
    assert(recent_count(e, email, kind, now_ms, window_minutes) == 0);
    lemma_attempt_recorded(e, a, email, kind, now_ms, window_minutes);
    lemma_attempt_recorded(e.push(a), b, email, kind, now_ms, window_minutes);
    lemma_attempt_recorded(e.push(a).push(b), c, email, kind, now_ms, window_minutes);
    assert(seq![] =~= e);
    assert(seq![a] =~= e.push(a));
    assert(seq![a, b] =~= e.push(a).push(b));
    assert(seq![a, b, c] =~= e.push(a).push(b).push(c));
}

} // verus!
