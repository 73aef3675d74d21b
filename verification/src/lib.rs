//! A stateless gateway core for Alexa Smart Home directives: it validates an
//! inbound directive document, extracts a bearer credential through an ordered
//! scope fallback, derives the backend endpoint from a configured base URL,
//! and translates the backend's HTTP answer into either a verbatim success
//! passthrough or a structured Smart Home error envelope.

pub mod config;
pub mod diag;
pub mod forward;
pub mod json;
pub mod strutil;
pub mod validate;

