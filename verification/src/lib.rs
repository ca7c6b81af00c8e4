//! Cross-site request forgery protection by the double submit cookie pattern: the part that
//! issues tokens.
//!
//! A client keeps a long-lived secret in a cookie. For each request the server derives a token
//! from that secret and hands it to its rendered output, for the client to send back with a
//! later request that changes state. This crate holds the life cycle of one request: how the
//! secret is taken from the request's cookie or minted, how the token is derived once and
//! cached, and whether the response has to carry a new cookie.

pub mod interceptor;
pub mod laws;
pub mod set_cookie;
pub mod state;
pub mod token;

pub use interceptor::{post_hook, ProtectXSRF, ProtectXSRFTransform};
pub use state::{RequestState, RequestXSRF, StateView};
