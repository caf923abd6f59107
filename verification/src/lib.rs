//! Verified core of a newsletter service: subscription tokens, subscriber
//! records, confirmation e-mails, page rendering decisions and the request
//! flows of the HTTP handlers, written as state machines whose outside work
//! (database, HTTP, sessions) is performed by the caller.

pub mod text;
pub mod domain;
pub mod email_client;
pub mod helpers;
pub mod routes;
pub mod startup;
