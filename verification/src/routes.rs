//! What the application does for each kind of request.

pub mod subscriptions;
