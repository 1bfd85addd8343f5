//! A tiny web-service core: a coin-flip message generator and the adapter
//! that turns its outcome into an HTTP response.
//!
//! The generator either produces a fixed welcome message or a simulated
//! failure, each with probability one half. The handler maps a successful
//! generation to a `200` response whose body is the JSON object
//! `{"message": <text>}`, and a failure to a `500` response whose body is
//! the failure reason wrapped with a context phrase. Server plumbing
//! (sockets, routing, panic containment) lives outside this library.

pub mod generator;
pub mod handler;
