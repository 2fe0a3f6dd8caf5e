//! The submission pipeline of the public write endpoints: spam check,
//! validation, rate limit, storage, notification. The rules decide; the
//! caller does the outside work that a step asks for and reports back what
//! came of it.

use vstd::prelude::*;
use vstd::string::StringExecFns;
use crate::errors::response_for;
use crate::errors::ApiError;
use crate::errors::ApiErrorView;
use crate::errors::ApiResponse;
use crate::errors::ApiResponseView;
use crate::errors::ResponseBody;
use crate::errors::STATUS_OK;
use crate::models::ContactRequest;
use crate::models::WaitlistRequest;
use crate::ratelimit::check_rate_limit;
use crate::ratelimit::limit_reached;
use crate::ratelimit::EndpointKind;
use crate::ratelimit::RATE_LIMIT_WINDOW_MINUTES;
use crate::spam::classify;
use crate::spam::honeypot_filled;
use crate::spam::is_spam;
use crate::spam::now_millis;
use crate::text::option_text;
use crate::validation::contact_violation;
use crate::validation::email_is_well_formed;
use crate::validation::email_shape;
use crate::validation::violation_text;
use crate::validation::waitlist_violation;
use crate::validation::Violation;

verus! {

/// How a request ended.
#[derive(Debug, Clone, Copy, PartialEq, Eq, Structural)]
pub enum Outcome {
    Accepted,
    RejectedSpam,
    RejectedInvalid,
    RejectedRateLimited,
    Failed,
}

/// Where a request stands.
#[derive(Debug, Clone, Copy, PartialEq, Eq, Structural)]
pub enum Stage {
    /// The sender's recent submissions are being counted.
    Counting,
    /// The submission is being written to the store.
    Persisting,
    /// The request is over.
    Finished(Outcome),
}

/// What the outside world reports back. A failure of the store comes as
/// its description.
#[derive(Debug, PartialEq, Eq)]
pub enum Event {
    /// The count of the sender's submissions inside the window.
    Counted(Result<i64, String>),
    /// The submission was written, or the store failed.
    Persisted(Result<(), String>),
}

/// What the caller is to do next.
#[derive(Debug, Clone, PartialEq, Eq)]
pub enum Action {
    /// Count the sender's submissions of the last `window_minutes` minutes.
    CountRecent { window_minutes: i64 },
    /// Write the submission to the store.
    Persist,
    /// Answer with the response of this failure.
    Reject(ApiError),
    /// Answer with the endpoint's acceptance, then send the notification
    /// without waiting for it.
    Accept,
    /// Nothing: the request was over already.
    Done,
}

/// A stage and the action that leads on from it.
#[derive(Debug, Clone, PartialEq, Eq)]
pub struct Step {
    pub stage: Stage,
    pub action: Action,
}

pub enum EventView {
    Counted(Result<i64, Seq<char>>),
    Persisted(Result<(), Seq<char>>),
}

pub enum ActionView {
    CountRecent { window_minutes: i64 },
    Persist,
    Reject(ApiErrorView),
    Accept,
    Done,
}

pub struct StepView {
    pub stage: Stage,
    pub action: ActionView,
}

impl View for Event {
    type V = EventView;

    open spec fn view(&self) -> EventView {
        match self {
            Event::Counted(Ok(n)) => EventView::Counted(Ok(*n)),
            Event::Counted(Err(d)) => EventView::Counted(Err(d@)),
            Event::Persisted(Ok(_)) => EventView::Persisted(Ok(())),
            Event::Persisted(Err(d)) => EventView::Persisted(Err(d@)),
        }
    }
}

impl View for Action {
    type V = ActionView;

    open spec fn view(&self) -> ActionView {
        match self {
            Action::CountRecent { window_minutes } => ActionView::CountRecent {
                window_minutes: *window_minutes,
            },
            Action::Persist => ActionView::Persist,
            Action::Reject(e) => ActionView::Reject(e@),
            Action::Accept => ActionView::Accept,
            Action::Done => ActionView::Done,
        }
    }
}

impl View for Step {
    type V = StepView;

    open spec fn view(&self) -> StepView {
        StepView { stage: self.stage, action: self.action@ }
    }
}

/// The text of the internal failure raised by an event that does not
/// answer the action last asked for.
pub open spec fn out_of_order_text() -> Seq<char> {
    "event out of order"@
}

/// The first step of a request: spam ends it in disguise, a violation ends
/// it with its reason, and anything else goes on to the count.
pub open spec fn first_step(spam: bool, violation: Option<Violation>) -> StepView {
    if spam {
        StepView {
            stage: Stage::Finished(Outcome::RejectedSpam),
            action: ActionView::Reject(ApiErrorView::SpamDetected),
        }
    } else {
        match violation {
            Some(v) => StepView {
                stage: Stage::Finished(Outcome::RejectedInvalid),
                action: ActionView::Reject(ApiErrorView::Validation(violation_text(v))),
            },
            None => StepView {
                stage: Stage::Counting,
                action: ActionView::CountRecent { window_minutes: RATE_LIMIT_WINDOW_MINUTES },
            },
        }
    }
}

/// The step that follows a stage on an event.
pub open spec fn next_step(stage: Stage, event: EventView) -> StepView {
    match (stage, event) {
        (Stage::Finished(o), _) => StepView { stage: Stage::Finished(o), action: ActionView::Done },
        (Stage::Counting, EventView::Counted(Ok(n))) => if limit_reached(n as int) {
            StepView {
                stage: Stage::Finished(Outcome::RejectedRateLimited),
                action: ActionView::Reject(ApiErrorView::RateLimited),
            }
        } else {
            StepView { stage: Stage::Persisting, action: ActionView::Persist }
        },
        (Stage::Counting, EventView::Counted(Err(d))) => StepView {
            stage: Stage::Finished(Outcome::Failed),
            action: ActionView::Reject(ApiErrorView::Database(d)),
        },
        (Stage::Persisting, EventView::Persisted(Ok(_))) => StepView {
            stage: Stage::Finished(Outcome::Accepted),
            action: ActionView::Accept,
        },
        (Stage::Persisting, EventView::Persisted(Err(d))) => StepView {
            stage: Stage::Finished(Outcome::Failed),
            action: ActionView::Reject(ApiErrorView::Database(d)),
        },
        _ => StepView {
            stage: Stage::Finished(Outcome::Failed),
            action: ActionView::Reject(ApiErrorView::Internal(out_of_order_text())),
        },
    }
}

/// The answer to an accepted submission.
pub open spec fn acceptance_of(kind: EndpointKind) -> ApiResponseView {
    ApiResponseView {
        status: 200,
        success: true,
        message: match kind {
            EndpointKind::Contact => "Thank you for reaching out. We'll be in touch shortly."@,
            EndpointKind::Waitlist => "You're on the list! We'll reach out when your spot is ready."@,
        },
    }
}

fn begin(spam: bool, checked: Result<(), Violation>) -> (r: Step)
    ensures
        r@ == first_step(
            spam,
            match checked {
                Ok(_) => None,
                Err(v) => Some(v),
            },
        ),
{
    if spam {
        Step { stage: Stage::Finished(Outcome::RejectedSpam), action: Action::Reject(ApiError::SpamDetected) }
    } else {
        match checked {
            Err(v) => Step {
                stage: Stage::Finished(Outcome::RejectedInvalid),
                action: Action::Reject(v.into_error()),
            },
            Ok(()) => Step {
                stage: Stage::Counting,
                action: Action::CountRecent { window_minutes: RATE_LIMIT_WINDOW_MINUTES },
            },
        }
    }
}

/// The first step of a contact submission received at `now_ms`, given
/// whether its email address is well formed.
pub fn submit_contact_at(req: &ContactRequest, now_ms: i64, email_ok: bool) -> (r: Step)
    ensures
        r@ == first_step(
            is_spam(option_text(req.website), req._form_loaded_at, now_ms),
            contact_violation(req.name@, email_ok, req.message@),
        ),
{
    let spam = classify(&req.website, &req._form_loaded_at, now_ms).is_some();
    begin(spam, req.check_fields(email_ok))
}

/// The first step of a waitlist submission received at `now_ms`, given
/// whether its email address is well formed.
pub fn submit_waitlist_at(req: &WaitlistRequest, now_ms: i64, email_ok: bool) -> (r: Step)
    ensures
        r@ == first_step(
            is_spam(option_text(req.website), req._form_loaded_at, now_ms),
            waitlist_violation(email_ok),
        ),
{
    let spam = classify(&req.website, &req._form_loaded_at, now_ms).is_some();
    begin(spam, req.check_fields(email_ok))
}

/// The first step of a contact submission received now. The clock decides
/// only where a load time is given and the honeypot is empty.
pub fn submit_contact(req: &ContactRequest) -> (r: Step)
    ensures
        exists|now_ms: i64|
            r@ == first_step(
                #[trigger] is_spam(option_text(req.website), req._form_loaded_at, now_ms),
                contact_violation(req.name@, email_shape(req.email@), req.message@),
            ),
        honeypot_filled(option_text(req.website)) ==> r@ == first_step(true, None),
        req._form_loaded_at is None ==> r@ == first_step(
            honeypot_filled(option_text(req.website)),
            contact_violation(req.name@, email_shape(req.email@), req.message@),
        ),
{
    let now_ms = now_millis();
    let email_ok = email_is_well_formed(req.email.as_str());
    submit_contact_at(req, now_ms, email_ok)
}

/// The first step of a waitlist submission received now. The clock decides
/// only where a load time is given and the honeypot is empty.
pub fn submit_waitlist(req: &WaitlistRequest) -> (r: Step)
    ensures
        exists|now_ms: i64|
            r@ == first_step(
                #[trigger] is_spam(option_text(req.website), req._form_loaded_at, now_ms),
                waitlist_violation(email_shape(req.email@)),
            ),
        honeypot_filled(option_text(req.website)) ==> r@ == first_step(true, None),
        req._form_loaded_at is None ==> r@ == first_step(
            honeypot_filled(option_text(req.website)),
            waitlist_violation(email_shape(req.email@)),
        ),
{
    let now_ms = now_millis();
    let email_ok = email_is_well_formed(req.email.as_str());
    submit_waitlist_at(req, now_ms, email_ok)
}

/// Moves a request on: from its stage and the event that the caller
/// reports to the next stage and action.
pub fn advance(stage: Stage, event: Event) -> (r: Step)
    ensures
        r@ == next_step(stage, event@),
{
    match stage {
        Stage::Finished(o) => Step { stage: Stage::Finished(o), action: Action::Done },
        Stage::Counting => match event {
            Event::Counted(Ok(n)) => match check_rate_limit(n) {
                Err(e) => Step {
                    stage: Stage::Finished(Outcome::RejectedRateLimited),
                    action: Action::Reject(e),
                },
                Ok(()) => Step { stage: Stage::Persisting, action: Action::Persist },
            },
            Event::Counted(Err(d)) => Step {
                stage: Stage::Finished(Outcome::Failed),
                action: Action::Reject(ApiError::Database(d)),
            },
            Event::Persisted(_) => out_of_order(),
        },
        Stage::Persisting => match event {
            Event::Persisted(Ok(())) => Step {
                stage: Stage::Finished(Outcome::Accepted),
                action: Action::Accept,
            },
            Event::Persisted(Err(d)) => Step {
                stage: Stage::Finished(Outcome::Failed),
                action: Action::Reject(ApiError::Database(d)),
            },
            Event::Counted(_) => out_of_order(),
        },
    }
}

fn out_of_order() -> (r: Step)
    ensures
        r@ == (StepView {
            stage: Stage::Finished(Outcome::Failed),
            action: ActionView::Reject(ApiErrorView::Internal(out_of_order_text())),
        }),
{
    Step {
        stage: Stage::Finished(Outcome::Failed),
        action: Action::Reject(ApiError::Internal(String::from_str("event out of order"))),
    }
}

/// The answer to an accepted submission on the endpoint `kind`.
pub fn acceptance(kind: EndpointKind) -> (r: ApiResponse)
    ensures
        r@ == acceptance_of(kind),
{
    let message = match kind {
        EndpointKind::Contact => String::from_str(
            "Thank you for reaching out. We'll be in touch shortly.",
        ),
        EndpointKind::Waitlist => String::from_str(
            "You're on the list! We'll reach out when your spot is ready.",
        ),
    };
    ApiResponse { status: STATUS_OK, body: ResponseBody::Success { message } }
}

/// The actions that a run of events draws from a stage, in order.
pub open spec fn actions_from(stage: Stage, events: Seq<EventView>) -> Seq<ActionView>
    decreases events.len(),
{
    if events.len() == 0 {
        Seq::empty()
    } else {
        let step = next_step(stage, events.first());
        seq![step.action] + actions_from(step.stage, events.drop_first())
    }
}

/// All actions of a request: the first step's, then those of its events.
pub open spec fn actions_of_request(
    spam: bool,
    violation: Option<Violation>,
    events: Seq<EventView>,
) -> Seq<ActionView> {
    let step = first_step(spam, violation);
    seq![step.action] + actions_from(step.stage, events)
}

/// A finished request stays finished and asks for nothing more, whatever
/// is reported to it.
pub proof fn lemma_finished_is_final(outcome: Outcome, events: Seq<EventView>)
    ensures
        forall|i: int|
            0 <= i < events.len() ==> #[trigger] actions_from(Stage::Finished(outcome), events)[i]
                == ActionView::Done,
        actions_from(Stage::Finished(outcome), events).len() == events.len(),
    decreases events.len(),
{
    if events.len() > 0 {
        lemma_finished_is_final(outcome, events.drop_first());
    }
}

/// A submission classified as spam is answered with status 200 and a
/// success body, as an accepted one is, and nothing is ever written for
/// it, whatever is reported afterwards.
pub proof fn lemma_spam_is_disguised(
    kind: EndpointKind,
    violation: Option<Violation>,
    events: Seq<EventView>,
)
    ensures
        first_step(true, violation).action == ActionView::Reject(ApiErrorView::SpamDetected),
        response_for(ApiErrorView::SpamDetected).status == 200,
        response_for(ApiErrorView::SpamDetected).status == acceptance_of(kind).status,
        response_for(ApiErrorView::SpamDetected).success,
        acceptance_of(kind).success,
        !actions_of_request(true, violation, events).contains(ActionView::Persist),
{
    lemma_finished_is_final(Outcome::RejectedSpam, events);
    let all = actions_of_request(true, violation, events);
    assert forall|i: int| 0 <= i < all.len() implies all[i] != ActionView::Persist by {
        if i > 0 {
            assert(all[i] == actions_from(Stage::Finished(Outcome::RejectedSpam), events)[i - 1]);
        }
    }
}

/// Whatever is written to the store has passed the spam check and the
/// validation: a request that asks for a write was neither spam nor
/// invalid.
pub proof fn lemma_only_clean_submissions_are_stored(
    spam: bool,
    violation: Option<Violation>,
    events: Seq<EventView>,
)
    requires
        actions_of_request(spam, violation, events).contains(ActionView::Persist),
    ensures
        !spam,
        violation is None,
{
    let all = actions_of_request(spam, violation, events);
    let i = choose|i: int| 0 <= i < all.len() && all[i] == ActionView::Persist;
    if spam || violation is Some {
        let outcome = if spam {
            Outcome::RejectedSpam
        } else {
            Outcome::RejectedInvalid
        };
        lemma_finished_is_final(outcome, events);
        if i > 0 {
            assert(all[i] == actions_from(Stage::Finished(outcome), events)[i - 1]);
        }
    }
}

/// The write is asked for only after a count below the limit, and the
/// acceptance only after the write succeeded.
pub proof fn lemma_order_of_steps(stage: Stage, event: EventView)
    ensures
        next_step(stage, event).action == ActionView::Persist ==> stage == Stage::Counting && (
        event matches EventView::Counted(Ok(n)) && !limit_reached(n as int)),
        next_step(stage, event).action == ActionView::Accept ==> stage == Stage::Persisting
            && (event matches EventView::Persisted(Ok(_))),
        stage == Stage::Counting && (event matches EventView::Counted(Ok(n)) && limit_reached(
            n as int,
        )) ==> next_step(stage, event).action == ActionView::Reject(ApiErrorView::RateLimited),
{
}

} // verus!
