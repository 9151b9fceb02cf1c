//! A small, self-contained OpenID Connect integration: authorization code with PKCE, one-time
//! state that is bound to the browser, nonce, verified email, a required role, and opaque sessions
//! that are kept by the server.

pub mod config;
pub mod reply;
pub mod session;
pub mod token;
pub mod binding;
pub mod provision;
pub mod login;
pub mod callback;
pub mod validator;
