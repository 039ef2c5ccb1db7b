//! A single-camera MJPEG-over-HTTP streaming server core: request
//! classification and token gating, response framing, and the per-connection
//! session state machine that drives snapshots and multipart streams.

pub mod config;
pub mod request;
pub mod response;
pub mod session;
