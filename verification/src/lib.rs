//! Adapter between an agent-messaging host and a local language-model server.
//!
//! The crate decides which server endpoint a request is for, writes the
//! request that goes over the wire, and brings the server's answers into one
//! result shape. It performs no I/O itself: a caller sends each [`http::HttpCall`]
//! and hands the answer back.

pub mod json;
pub mod http;
pub mod ops;
pub mod dispatch;
pub mod poll;
pub mod lifecycle;
pub mod laws;
