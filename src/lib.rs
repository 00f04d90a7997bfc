//! Core of an OAuth2 code-grant relay: flow-state transport, PKCE and
//! authorization-request construction, the encrypted session cookie and
//! the decisions taken at each step of the login flow.

pub mod error;
pub mod flow;
pub mod flow_state;
pub mod hex_text;
pub mod provider;
pub mod redacted;
pub mod runtime;
pub mod session;
