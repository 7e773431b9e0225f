//! Subscriber onboarding for a mailing list: validation of submitted names and
//! addresses, the request sent to the email provider and the workflow that
//! stores a subscriber before notifying them.

pub mod configurations;
pub mod domain;
pub mod email_client;
pub mod routes;
pub mod validation;
