//! Streaming of JPEG frames to any number of HTTP viewers with
//! `multipart/x-mixed-replace` (MJPEG over HTTP).
//!
//! The library holds the verified logic: the server configuration, the
//! validation of an incoming request and the reply it gets, the framing of
//! each broadcast frame, the set of registered connections with its eviction
//! rule, and the decisions of the start / stop / send lifecycle.
pub mod config;
pub mod wire;
pub mod request;
pub mod registry;
pub mod lifecycle;
pub mod dispatch;
