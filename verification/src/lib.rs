//! Streaming translation core of a chat-completion gateway.
//!
//! The gateway takes a unified chat request, forwards it to one upstream
//! provider and republishes what comes back, either as one aggregated
//! document or as a sequence of named events, together with the cost of the
//! tokens consumed. This crate holds the rules of that translation: the cost
//! model, the per-event translator, the lifecycle of one client-facing stream
//! and the request-level checks that precede any upstream call.

pub mod content;
pub mod error;
pub mod events;
pub mod handlers;
pub mod headers;
pub mod json;
pub mod pricing;
pub mod request;
pub mod response;
pub mod stream;
pub mod translate;
pub mod usage;
