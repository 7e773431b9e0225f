//! The values a subscription is made of: a validated name, a validated email
//! address, and the pair of them parsed from a raw submission.

use vstd::prelude::*;
use crate::validation::{is_valid_email, is_valid_name, valid_email, valid_name};

verus! {

/// Why a submission was turned down.
#[derive(Debug, Clone, Copy, PartialEq, Eq, Structural)]
pub enum ValidationError {
    /// The name is blank, too long, or holds a forbidden character.
    InvalidName,
    /// The email address is not a well-formed address.
    InvalidEmail,
}

/// A submission as it arrives: two unconstrained strings.
pub struct SubscriptionFormData {
    pub name: String,
    pub email: String,
}

/// A subscriber's name. Every value holds a valid name.
#[derive(Debug)]
pub struct SubscriberName(String);

/// A subscriber's email address. Every value holds a valid address.
#[derive(Debug)]
pub struct SubscriberEmail(String);

/// A validated name together with a validated email address.
#[derive(Debug)]
pub struct SubscriberDetails {
    pub name: SubscriberName,
    pub email: SubscriberEmail,
}

impl View for SubscriberName {
    type V = Seq<char>;

    closed spec fn view(&self) -> Seq<char> {
        self.0@
    }
}

impl View for SubscriberEmail {
    type V = Seq<char>;

    closed spec fn view(&self) -> Seq<char> {
        self.0@
    }
}

impl SubscriberName {
    #[verifier::type_invariant]
    spec fn holds_valid_name(self) -> bool {
        valid_name(self.0@)
    }

    /// Accepts `s` as a name exactly when it is valid, and keeps it unchanged.
    pub fn parse(s: String) -> (r: Result<SubscriberName, ValidationError>)
        ensures
            match r {
                Ok(name) => valid_name(s@) && name@ == s@,
                Err(e) => !valid_name(s@) && e == ValidationError::InvalidName,
            },
    {
        if !is_valid_name(s.as_str()) {
            Err(ValidationError::InvalidName)
        } else {
            Ok(Self(s))
        }
    }

    /// The name, for reading.
    pub fn as_ref(&self) -> (s: &str)
        ensures
            s@ == self@,
            valid_name(self@),
    {
        proof {
            use_type_invariant(self);
        }
        self.0.as_str()
    }
}

impl SubscriberEmail {
    #[verifier::type_invariant]
    spec fn holds_valid_email(self) -> bool {
        valid_email(self.0@)
    }

    /// Accepts `s` as an address exactly when it is valid, and keeps it
    /// unchanged.
    pub fn parse(s: String) -> (r: Result<SubscriberEmail, ValidationError>)
        ensures
            match r {
                Ok(email) => valid_email(s@) && email@ == s@,
                Err(e) => !valid_email(s@) && e == ValidationError::InvalidEmail,
            },
    {
        if !is_valid_email(s.as_str()) {
            Err(ValidationError::InvalidEmail)
        } else {
            Ok(Self(s))
        }
    }

    /// The address, for reading.
    pub fn as_ref(&self) -> (s: &str)
        ensures
            s@ == self@,
            valid_email(self@),
    {
        proof {
            use_type_invariant(self);
        }
        self.0.as_str()
    }
}

/// What parsing a submission reports: the first field that fails, the name
/// before the address, or nothing when both are valid.
pub open spec fn first_failure(name: Seq<char>, email: Seq<char>) -> Option<ValidationError> {
    if !valid_name(name) {
        Some(ValidationError::InvalidName)
    } else if !valid_email(email) {
        Some(ValidationError::InvalidEmail)
    } else {
        None
    }
}

impl SubscriberDetails {
    /// Parses both fields of `raw`, the name first, and stops at the first
    /// one that is not valid.
    pub fn from_submission(raw: SubscriptionFormData) -> (r: Result<
        SubscriberDetails,
        ValidationError,
    >)
        ensures
            match r {
                Ok(details) => first_failure(raw.name@, raw.email@) is None && details.name@
                    == raw.name@ && details.email@ == raw.email@,
                Err(e) => first_failure(raw.name@, raw.email@) == Some(e),
            },
    {
        let name = match SubscriberName::parse(raw.name) {
            Ok(name) => name,
            Err(e) => { return Err(e); },
        };
        let email = match SubscriberEmail::parse(raw.email) {
            Ok(email) => email,
            Err(e) => { return Err(e); },
        };
        Ok(SubscriberDetails { name, email })
    }
}

impl SubscriptionFormData {
    /// Turns the submission into subscriber details, or says which field is
    /// not valid.
    pub fn try_into(self) -> (r: Result<SubscriberDetails, ValidationError>)
        ensures
            match r {
                Ok(details) => first_failure(self.name@, self.email@) is None && details.name@
                    == self.name@ && details.email@ == self.email@,
                Err(e) => first_failure(self.name@, self.email@) == Some(e),
            },
    {
        SubscriberDetails::from_submission(self)
    }
}

} // verus!
