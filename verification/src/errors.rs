use vstd::prelude::*;

verus! {

/// Every failure the signing library can report.
///
/// The first three are fatal: they concern process configuration or the
/// environment and are raised before any request goes out. The last two are
/// per-call: the caller may retry with a fresh timestamp and signature.
#[derive(Clone, Copy, Debug, PartialEq, Eq, Structural)]
pub enum SignError {
    /// A required credential (API key or secret key) was absent or empty.
    MissingCredential,
    /// The system clock reported a time before the Unix epoch.
    Clock,
    /// The secret key could not be interpreted as bytes.
    Configuration,
    /// The transport failed before any response arrived.
    Transport,
    /// The transport did not answer within the configured timeout.
    Timeout,
}

impl SignError {
    /// A short description of the failure, for diagnostics outside the library.
    pub fn message(&self) -> (r: &'static str)
        ensures
            r@ == match *self {
                SignError::MissingCredential => "missing credential"@,
                SignError::Clock => "system clock before Unix epoch"@,
                SignError::Configuration => "malformed secret key"@,
                SignError::Transport => "transport failure"@,
                SignError::Timeout => "transport timeout"@,
            },
    {
        match self {
            SignError::MissingCredential => "missing credential",
            SignError::Clock => "system clock before Unix epoch",
            SignError::Configuration => "malformed secret key",
            SignError::Transport => "transport failure",
            SignError::Timeout => "transport timeout",
        }
    }
}

} // verus!
