use crate::decimal::{decimal_of, u64_to_decimal};
use crate::errors::SignError;
use vstd::prelude::*;

verus! {

/// The three headers that authenticate one outbound request. Derived from
/// the signing inputs and consumed by the transport; nothing is kept.
pub struct AuthHeaders {
    /// The value of the `X-API-Key` header: the caller's API key.
    pub x_api_key: String,
    /// The value of the `X-Timestamp` header: the timestamp in decimal.
    pub x_timestamp: String,
    /// The value of the `Authorization` header: the scheme prefix and the
    /// signature.
    pub authorization: String,
}

/// The `Authorization` value for a signature: the literal scheme prefix
/// `"HMAC-SHA256 "` followed by the signature.
pub open spec fn authorization_value_of(signature: Seq<char>) -> Seq<char> {
    "HMAC-SHA256 "@ + signature
}

/// The `Authorization` value always begins with the twelve characters of the
/// scheme prefix, whatever the signature; the signature follows in full.
pub proof fn lemma_authorization_prefix(signature: Seq<char>)
    ensures
        authorization_value_of(signature).len() == 12 + signature.len(),
        authorization_value_of(signature).subrange(0, 12) == "HMAC-SHA256 "@,
        authorization_value_of(signature).subrange(
            12,
            authorization_value_of(signature).len() as int,
        ) == signature,
{
    reveal_strlit("HMAC-SHA256 ");
    assert(authorization_value_of(signature).subrange(0, 12) =~= "HMAC-SHA256 "@);
    assert(authorization_value_of(signature).subrange(
        12,
        authorization_value_of(signature).len() as int,
    ) =~= signature);
}

/// Assembles the header set for one signed request: the API key, the decimal
/// timestamp, and the prefixed signature. The only validation is that the
/// API key must be non-empty; an empty one is a missing credential.
pub fn build_headers(api_key: &String, timestamp: u64, signature: &String) -> (r: Result<
    AuthHeaders,
    SignError,
>)
    ensures
        r is Ok <==> api_key@.len() > 0,
        match r {
            Ok(h) => {
                &&& h.x_api_key@ == api_key@
                &&& h.x_timestamp@ == decimal_of(timestamp as nat)
                &&& h.authorization@ == authorization_value_of(signature@)
            },
            Err(e) => e == SignError::MissingCredential,
        },
{
    if api_key.as_str().is_empty() {
        Err(SignError::MissingCredential)
    } else {
        let mut authorization = String::from_str("HMAC-SHA256 ");
        authorization.append(signature.as_str());
        Ok(
            AuthHeaders {
                x_api_key: api_key.clone(),
                x_timestamp: u64_to_decimal(timestamp),
                authorization,
            },
        )
    }
}

} // verus!
