//! Admission-controlled HTTP forwarding: a leaky-bucket rate limiter over a
//! shared counter store, and the request-forwarding rules that it gates.

pub mod forward;
pub mod gateway;
pub mod limiter;
