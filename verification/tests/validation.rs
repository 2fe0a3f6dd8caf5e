use terroir_api::errors::ApiError;
use terroir_api::models::{ContactRequest, WaitlistRequest};
use terroir_api::validation::Violation;

fn contact(name: &str, email: &str, message: &str) -> ContactRequest {
    ContactRequest {
        name: name.to_string(),
        email: email.to_string(),
        company: None,
        phone: None,
        acreage: None,
        crop_type: None,
        message: message.to_string(),
        source: None,
        website: None,
        _form_loaded_at: None,
    }
}

fn waitlist(email: &str) -> WaitlistRequest {
    WaitlistRequest {
        email: email.to_string(),
        name: None,
        company: None,
        interest: None,
        website: None,
        _form_loaded_at: None,
    }
}

#[test]
fn complete_contact_form_is_valid() {
    assert_eq!(contact("Ada", "ada@example.com", "Hello").validate(), Ok(()));
}

#[test]
fn contact_without_name_is_refused() {
    assert_eq!(
        contact("", "ada@example.com", "Hello").validate(),
        Err(ApiError::Validation("name: must not be empty".to_string()))
    );
}

#[test]
fn contact_with_malformed_email_is_refused() {
    let expected = Err(ApiError::Validation("email: must be a valid email address".to_string()));
    assert_eq!(contact("Ada", "not-an-email", "Hello").validate(), expected);
    assert_eq!(contact("Ada", "", "Hello").validate(), expected);
    assert_eq!(contact("Ada", "ada@", "Hello").validate(), expected);
    assert_eq!(contact("Ada", "@example.com", "Hello").validate(), expected);
    assert_eq!(contact("Ada", "ada lovelace@example.com", "Hello").validate(), expected);
}

#[test]
fn contact_without_message_is_refused() {
    assert_eq!(
        contact("Ada", "ada@example.com", "").validate(),
        Err(ApiError::Validation("message: must not be empty".to_string()))
    );
}

#[test]
fn first_broken_constraint_is_reported() {
    assert_eq!(
        contact("", "nope", "").validate(),
        Err(ApiError::Validation("name: must not be empty".to_string()))
    );
    assert_eq!(
        contact("Ada", "nope", "").validate(),
        Err(ApiError::Validation("email: must be a valid email address".to_string()))
    );
}

#[test]
fn check_fields_goes_by_the_given_email_verdict() {
    let req = contact("Ada", "whatever", "Hello");
    assert_eq!(req.check_fields(true), Ok(()));
    assert_eq!(req.check_fields(false), Err(Violation::EmailMalformed));
    assert_eq!(contact("", "x", "").check_fields(true), Err(Violation::NameMissing));
    assert_eq!(contact("Ada", "x", "").check_fields(true), Err(Violation::MessageEmpty));
}

#[test]
fn waitlist_needs_a_well_formed_email() {
    assert_eq!(waitlist("grower@vineyard.example").validate(), Ok(()));
    let expected = Err(ApiError::Validation("email: must be a valid email address".to_string()));
    assert_eq!(waitlist("grower").validate(), expected);
    assert_eq!(waitlist("").validate(), expected);
    assert_eq!(waitlist("grower@vineyard.example").check_fields(false), Err(Violation::EmailMalformed));
    assert_eq!(waitlist("grower").check_fields(true), Ok(()));
}

#[test]
fn email_verdict_depends_on_the_address() {
    // Both are non-empty and hold an `@`; only the shape tells them apart.
    assert_eq!(waitlist("a@b.example").validate(), Ok(()));
    assert!(waitlist("a@b..example").validate().is_err());
    assert!(waitlist("a@@").validate().is_err());
}

#[test]
fn violations_describe_themselves() {
    assert_eq!(Violation::NameMissing.describe(), "name: must not be empty");
    assert_eq!(Violation::EmailMalformed.describe(), "email: must be a valid email address");
    assert_eq!(Violation::MessageEmpty.describe(), "message: must not be empty");
    assert_eq!(
        Violation::MessageEmpty.into_error(),
        ApiError::Validation("message: must not be empty".to_string())
    );
}
