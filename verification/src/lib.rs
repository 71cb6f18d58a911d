//! An authentication gate for HTTP request pipelines, implementing the
//! browser-facing half of the OpenID Connect Authorization Code flow:
//! initiating login, validating the provider's callback, and marking
//! requests as authenticated for downstream handlers.
//!
//! Requests, responses, cookies and the session are modelled as plain
//! values, so the whole protocol sequence — classification, anti-forgery
//! checks, session establishment — is verified. The embedding web server
//! converts its own request type into [`http::Request`], drives the
//! state machine, and performs the network exchange with the provider.

pub mod bytes;
pub mod callback;
pub mod ephemeral;
pub mod gate;
pub mod http;
pub mod initiator;
pub mod laws;
pub mod middleware;
pub mod provider;
pub mod query;
pub mod session;
pub mod urlenc;
pub mod urlpath;
