//! Subscription lifecycle of a newsletter service: validation of untrusted
//! input into domain values, confirmation tokens, confirmation emails, and the
//! decisions of the signup and confirmation workflows.
pub mod configuration;
pub mod domain;
pub mod email_client;
pub mod routes;
pub mod startup;
