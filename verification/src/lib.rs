//! Request building, response decoding and run polling for a remote
//! assistant service, plus a small IP-geolocation lookup.
//!
//! The library is the computing half of a thin HTTP client: it builds each
//! request (URL, headers, JSON body) as plain values, decides when a polling
//! loop over a run's status must stop, and extracts the fields the caller
//! needs from response bodies. Sending the requests and awaiting the
//! responses is left to the surrounding program.

pub mod codec;
pub mod geo;
pub mod http;
pub mod poll;
pub mod requests;
pub mod responses;
pub mod strutil;
