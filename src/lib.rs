//! Decision logic of a local reverse proxy for a CCTV stream server and its
//! camera-directory API.
//!
//! The proxy's network work (HTTP server, upstream requests, cookie jars) is
//! done by its host; this library decides what that work should be and what is
//! sent back: header inference for relayed stream bodies, when the session
//! must be renewed, the single 403-triggered retry, and the fallback cascade of
//! the directory endpoint.

use vstd::prelude::*;

pub mod directory;
pub mod session;
pub mod status;
pub mod stream;

verus! {

/// Loopback port the proxy listens on.
pub const PROXY_PORT: u16 = 9877;

} // verus!
