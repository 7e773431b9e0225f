use fake::faker::internet::en::SafeEmail;
use fake::Fake;
use zero2prod::domain::{
    SubscriberDetails, SubscriberEmail, SubscriberName, SubscriptionFormData, ValidationError,
};

fn form(name: &str, email: &str) -> SubscriptionFormData {
    SubscriptionFormData { name: name.to_string(), email: email.to_string() }
}

#[test]
fn test_parse_invalid_name_raises_err() {
    let invalid_name = "a".repeat(257);
    assert!(SubscriberName::parse(invalid_name).is_err());
}

#[test]
fn test_parse_vali_name_returns_ok() {
    let valid_name = "a".repeat(25);
    assert!(SubscriberName::parse(valid_name).is_ok());
}

#[test]
fn test_parse_invalid_email_raises_err() {
    let invalid_email = "      ".to_string();
    assert!(SubscriberEmail::parse(invalid_email).is_err());
}

#[test]
fn test_parse_valid_email_returns_ok() {
    let valid_email = "dylan@gmail.com".to_string();
    assert!(SubscriberEmail::parse(valid_email).is_ok());
}

#[test]
fn test_parse_valid_email_is_successful() {
    let email = SafeEmail().fake();
    assert!(SubscriberEmail::parse(email).is_ok());
}

#[test]
fn a_name_that_is_too_long_fails_with_invalid_name() {
    let error = SubscriberName::parse("a".repeat(257)).unwrap_err();
    assert_eq!(error, ValidationError::InvalidName);
}

#[test]
fn a_parsed_name_reads_as_it_was_written() {
    let name = SubscriberName::parse("  Dylan Kirby ".to_string()).unwrap();
    assert_eq!(name.as_ref(), "  Dylan Kirby ");
    let name = SubscriberName::parse("a".repeat(25)).unwrap();
    assert_eq!(name.as_ref(), "a".repeat(25));
}

#[test]
fn a_parsed_email_reads_as_it_was_written() {
    let email = SubscriberEmail::parse("Dylan@Gmail.com".to_string()).unwrap();
    assert_eq!(email.as_ref(), "Dylan@Gmail.com");
}

#[test]
fn an_invalid_email_fails_with_invalid_email() {
    for raw in ["", "      ", "somedomain.com", "@gmail.com", "dylan@"] {
        let error = SubscriberEmail::parse(raw.to_string()).unwrap_err();
        assert_eq!(error, ValidationError::InvalidEmail, "{:?}", raw);
    }
}

#[test]
fn an_invalid_name_fails_with_invalid_name() {
    for raw in ["", "   ", "a/b", "(x)", "{", "\"quoted\"", "back\\slash", "<b>"] {
        let error = SubscriberName::parse(raw.to_string()).unwrap_err();
        assert_eq!(error, ValidationError::InvalidName, "{:?}", raw);
    }
}

#[test]
fn a_valid_submission_becomes_subscriber_details() {
    let details = SubscriberDetails::from_submission(form("Dylan Kirby", "dk@gmail.com")).unwrap();
    assert_eq!(details.name.as_ref(), "Dylan Kirby");
    assert_eq!(details.email.as_ref(), "dk@gmail.com");
}

#[test]
fn the_name_is_checked_before_the_email() {
    let error = SubscriberDetails::from_submission(form("", "not-an-email")).unwrap_err();
    assert_eq!(error, ValidationError::InvalidName);
    let error = SubscriberDetails::from_submission(form("", "jim@gmail.com")).unwrap_err();
    assert_eq!(error, ValidationError::InvalidName);
    let error = SubscriberDetails::from_submission(form("Jim", "")).unwrap_err();
    assert_eq!(error, ValidationError::InvalidEmail);
    let error = SubscriberDetails::from_submission(form("Jim", "qpp-123-not-an-email")).unwrap_err();
    assert_eq!(error, ValidationError::InvalidEmail);
}

#[test]
fn try_into_parses_the_submission() {
    let details = form("Dylan Kirby", "dk@gmail.com").try_into().unwrap();
    assert_eq!(details.name.as_ref(), "Dylan Kirby");
    assert_eq!(details.email.as_ref(), "dk@gmail.com");
    assert_eq!(form("a(b", "dk@gmail.com").try_into().unwrap_err(), ValidationError::InvalidName);
    assert_eq!(form("ab", "dk").try_into().unwrap_err(), ValidationError::InvalidEmail);
}
