//! An HTTP-to-WebSocket upgrade gateway: request validation, accept-key
//! computation, response construction, routing, and the per-connection
//! session state machine that drives a route's handler.
pub mod digest;
pub mod handshake;
pub mod routing;
pub mod session;
