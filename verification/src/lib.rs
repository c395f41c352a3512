//! A verified core for a scraping gateway: the per-request pipeline that
//! parses the target URL out of a request's query string, frames the exchange
//! with an internal backend service, interprets the backend's reply, and
//! encodes the client-visible response, with every failure mapped to a
//! structured, client-safe error payload.
//!
//! Transport concerns (the multiplexed listener, TLS material, sockets) live
//! outside this crate; it works on plain values and states what it returns
//! for every input.

pub mod errors;
pub mod response;
pub mod strutil;
pub mod query;
pub mod dispatch;
pub mod backend;
pub mod encoder;
pub mod staticserve;
