//! Field-level validation of the public write payloads.

use vstd::prelude::*;
use vstd::string::StringExecFns;
use crate::errors::ApiError;
use crate::errors::ApiErrorView;
use crate::models::ContactRequest;
use crate::models::WaitlistRequest;

verus! {

/// Whether a text has the shape of an email address, as the `validator`
/// crate judges it (the address grammar of the HTML standard, with length
/// limits on both parts).
pub uninterp spec fn email_shape(s: Seq<char>) -> bool;

/// Calls `validator::ValidateEmail::validate_email` on a string slice.
///
/// The result is a function of the text alone and is named [`email_shape`].
/// Two facts are taken from the first test in that function: a text that is
/// empty, or holds no `@`, is not an address.
#[verifier::external_body]
pub(crate) fn email_is_well_formed(s: &str) -> (b: bool)
    ensures
        b == email_shape(s@),
        s@.len() == 0 ==> !b,
        !s@.contains('@') ==> !b,
{
    validator::ValidateEmail::validate_email(&s)
}

/// A constraint that a payload failed to meet.
#[derive(Debug, Clone, Copy, PartialEq, Eq, Structural)]
pub enum Violation {
    NameMissing,
    EmailMalformed,
    MessageEmpty,
}

/// The reason shown to the client for each violation.
pub open spec fn violation_text(v: Violation) -> Seq<char> {
    match v {
        Violation::NameMissing => "name: must not be empty"@,
        Violation::EmailMalformed => "email: must be a valid email address"@,
        Violation::MessageEmpty => "message: must not be empty"@,
    }
}

/// The first constraint that a contact form breaks, if any: a name, a
/// well-formed email address and a message are required, in that order.
pub open spec fn contact_violation(name: Seq<char>, email_ok: bool, message: Seq<char>) -> Option<
    Violation,
> {
    if name.len() == 0 {
        Some(Violation::NameMissing)
    } else if !email_ok {
        Some(Violation::EmailMalformed)
    } else if message.len() == 0 {
        Some(Violation::MessageEmpty)
    } else {
        None
    }
}

/// The constraint that a waitlist form breaks, if any: a well-formed email
/// address is required.
pub open spec fn waitlist_violation(email_ok: bool) -> Option<Violation> {
    if !email_ok {
        Some(Violation::EmailMalformed)
    } else {
        None
    }
}

/// The outcome of validation, given the first violation.
pub open spec fn validation_outcome(v: Option<Violation>, r: Result<(), ApiError>) -> bool {
    match v {
        None => r is Ok,
        Some(v) => r matches Err(e) && e@ == ApiErrorView::Validation(violation_text(v)),
    }
}

impl Violation {
    /// The reason as text.
    pub fn describe(&self) -> (r: String)
        ensures
            r@ == violation_text(*self),
    {
        match self {
            Violation::NameMissing => String::from_str("name: must not be empty"),
            Violation::EmailMalformed => String::from_str("email: must be a valid email address"),
            Violation::MessageEmpty => String::from_str("message: must not be empty"),
        }
    }

    /// The validation failure that reports this violation.
    pub fn into_error(self) -> (e: ApiError)
        ensures
            e@ == ApiErrorView::Validation(violation_text(self)),
    {
        ApiError::Validation(self.describe())
    }
}

fn outcome_of(v: Result<(), Violation>) -> (r: Result<(), ApiError>)
    ensures
        validation_outcome(
            match v {
                Ok(_) => None,
                Err(x) => Some(x),
            },
            r,
        ),
{
    match v {
        Ok(()) => Ok(()),
        Err(x) => Err(x.into_error()),
    }
}

impl ContactRequest {
    /// Checks the fields, given whether the email address is well formed.
    pub fn check_fields(&self, email_ok: bool) -> (r: Result<(), Violation>)
        ensures
            r == match contact_violation(self.name@, email_ok, self.message@) {
                Some(v) => Err::<(), Violation>(v),
                None => Ok(()),
            },
    {
        if self.name.as_str().is_empty() {
            Err(Violation::NameMissing)
        } else if !email_ok {
            Err(Violation::EmailMalformed)
        } else if self.message.as_str().is_empty() {
            Err(Violation::MessageEmpty)
        } else {
            Ok(())
        }
    }

    /// Validates the form: succeeds exactly where no constraint is broken,
    /// and otherwise reports the first broken one.
    pub fn validate(&self) -> (r: Result<(), ApiError>)
        ensures
            validation_outcome(
                contact_violation(self.name@, email_shape(self.email@), self.message@),
                r,
            ),
            self.name@.len() == 0 || self.email@.len() == 0 || !self.email@.contains('@')
                || self.message@.len() == 0 ==> r is Err,
    {
        let email_ok = email_is_well_formed(self.email.as_str());
        outcome_of(self.check_fields(email_ok))
    }
}

impl WaitlistRequest {
    /// Checks the fields, given whether the email address is well formed.
    pub fn check_fields(&self, email_ok: bool) -> (r: Result<(), Violation>)
        ensures
            r == match waitlist_violation(email_ok) {
                Some(v) => Err::<(), Violation>(v),
                None => Ok(()),
            },
    {
        if !email_ok {
            Err(Violation::EmailMalformed)
        } else {
            Ok(())
        }
    }

    /// Validates the form: succeeds exactly where the email address is well
    /// formed.
    pub fn validate(&self) -> (r: Result<(), ApiError>)
        ensures
            validation_outcome(waitlist_violation(email_shape(self.email@)), r),
            self.email@.len() == 0 || !self.email@.contains('@') ==> r is Err,
    {
        let email_ok = email_is_well_formed(self.email.as_str());
        outcome_of(self.check_fields(email_ok))
    }
}

} // verus!
