//! Three-legged OAuth 1.0a sign-on against a single provider.
//!
//! The crate holds the protocol engine only: the signer that produces the
//! `Authorization` header, the relay that carries the temporary token secret
//! from the redirect step to the callback step, and the three stages of the
//! flow. Sending a request and serving a page are left to the caller, who
//! hands the provider's answers back as plain values.
pub mod credentials;
pub mod flow;
pub mod relay;
pub mod response;
pub mod signer;
pub mod text;
