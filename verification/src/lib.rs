//! A client library for a hosted chat-completion service, reachable either
//! directly or through a gateway that routes to a named, versioned deployment.
//!
//! The library assembles outgoing requests and resolves completed exchanges;
//! sending a request over the network is left to the embedding program.

pub mod api;
pub mod json;
pub mod response_wrapper;
pub mod client;
