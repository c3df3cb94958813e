use crate::errors::SignError;
use vstd::prelude::*;
use vstd::utf8::encode_utf8;

verus! {

/// The per-process credentials: loaded once at startup, immutable for the
/// process lifetime, passed into each signing call, never logged.
pub struct Credentials {
    /// The caller's public API key.
    pub api_key: String,
    /// The shared secret, as raw bytes of any length.
    pub secret_key: Vec<u8>,
}

/// Builds the process credentials from configuration values that may be
/// absent. Absence of either value is fatal at startup: the result is
/// `MissingCredential`, and nothing else is attempted.
pub fn load_credentials(api_key: Option<String>, secret_key: Option<String>) -> (r: Result<
    Credentials,
    SignError,
>)
    ensures
        r is Ok <==> (api_key is Some && secret_key is Some),
        match r {
            Ok(c) => {
                &&& c.api_key@ == api_key->0@
                &&& c.secret_key@ == encode_utf8(secret_key->0@)
            },
            Err(e) => e == SignError::MissingCredential,
        },
{
    match (api_key, secret_key) {
        (Some(key), Some(secret)) => {
            let secret_bytes = secret.as_str().as_bytes_vec();
            Ok(Credentials { api_key: key, secret_key: secret_bytes })
        },
        _ => Err(SignError::MissingCredential),
    }
}

} // verus!
