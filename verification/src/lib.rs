//! A small HTTP request router with fixed JSON responses.
//!
//! The library decides, for a method and a path, which of four handlers
//! answers, and builds each handler's reply: a status code, a fixed set of
//! headers (JSON content type and a permissive cross-origin policy), and a
//! JSON body whose exact text the contracts state.

pub mod config;
pub mod method;
pub mod router;
pub mod timestamp;
pub mod response;
pub mod reply;
