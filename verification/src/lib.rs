//! Signing of outbound HTTP requests with a per-request HMAC-SHA256 signature.
//!
//! A request is described by a [`canonical::SigningContext`]; its fields are
//! joined into a fixed seven-field canonical string, a MAC is computed over
//! that string with the caller's secret key, and the base64-encoded MAC is
//! placed into the three authentication headers the remote service expects.

pub mod canonical;
pub mod clock;
pub mod credentials;
pub mod decimal;
pub mod errors;
pub mod headers;
pub mod requests;
pub mod signer;
pub mod transport;
