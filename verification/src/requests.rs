use crate::canonical::{canonical_parts, SigningContext};
use crate::credentials::Credentials;
use crate::decimal::decimal_of;
use crate::errors::SignError;
use crate::headers::{authorization_value_of, build_headers, AuthHeaders};
use crate::signer::{sign, signature_of};
use vstd::prelude::*;

verus! {

/// One fully prepared outbound request: everything the transport needs, with
/// the body it carries being the exact text the signature was computed over.
pub struct SignedRequest {
    /// The uppercase HTTP verb.
    pub method: String,
    /// The full request URL.
    pub url: String,
    /// The three authentication headers.
    pub headers: AuthHeaders,
    /// The raw body to send — byte for byte what was signed.
    pub body: String,
    /// The transport timeout for this call, in seconds.
    pub timeout_seconds: u64,
}

/// The `Authorization` value a prepared request must carry: the prefixed
/// signature over the canonical string of the given attributes. The query
/// field is empty in every current operation but stays in the canonical
/// string as an empty field.
pub open spec fn prepared_authorization(
    creds: Credentials,
    timestamp: u64,
    host: Seq<char>,
    method: Seq<char>,
    path: Seq<char>,
    body: Seq<char>,
) -> Seq<char> {
    authorization_value_of(
        signature_of(
            creds.secret_key@,
            canonical_parts(
                creds.api_key@,
                timestamp,
                host,
                method,
                path,
                Seq::<char>::empty(),
                body,
            ),
        ),
    )
}

/// Prepares one signed request: signs the canonical string of the given
/// attributes under the process credentials, assembles the headers, and
/// pairs them with the exact body and the URL to send. Fails only when the
/// API key is empty — a missing credential.
pub fn prepare_request(
    creds: &Credentials,
    timestamp: u64,
    host: &str,
    method: &str,
    path: String,
    body: String,
    timeout_seconds: u64,
) -> (r: Result<SignedRequest, SignError>)
    ensures
        r is Ok <==> creds.api_key@.len() > 0,
        match r {
            Ok(request) => {
                &&& request.method@ == method@
                &&& request.url@ == "https://"@ + host@ + path@
                &&& request.body@ == body@
                &&& request.timeout_seconds == timeout_seconds
                &&& request.headers.x_api_key@ == creds.api_key@
                &&& request.headers.x_timestamp@ == decimal_of(timestamp as nat)
                &&& request.headers.authorization@ == prepared_authorization(
                    *creds,
                    timestamp,
                    host@,
                    method@,
                    path@,
                    body@,
                )
            },
            Err(e) => e == SignError::MissingCredential,
        },
{
    let context = SigningContext {
        api_key: creds.api_key.clone(),
        timestamp,
        host: host.to_owned(),
        method: method.to_owned(),
        path,
        query: String::new(),
        body,
    };
    let signature = sign(&context, creds.secret_key.as_slice());
    match build_headers(&creds.api_key, timestamp, &signature) {
        Ok(headers) => {
            let mut url = String::from_str("https://");
            url.append(context.host.as_str());
            url.append(context.path.as_str());
            Ok(
                SignedRequest {
                    method: context.method,
                    url,
                    headers,
                    body: context.body,
                    timeout_seconds,
                },
            )
        },
        Err(e) => Err(e),
    }
}

/// Prepares the balance query: a GET of the balance path on the production
/// host, with no query and no body, under the longer read timeout.
pub fn prepare_balance_request(creds: &Credentials, timestamp: u64) -> (r: Result<
    SignedRequest,
    SignError,
>)
    ensures
        r is Ok <==> creds.api_key@.len() > 0,
        match r {
            Ok(request) => {
                &&& request.method@ == "GET"@
                &&& request.url@ == "https://"@ + "api.prod.mountainprotocol.com"@
                    + "/v1/balance"@
                &&& request.body@.len() == 0
                &&& request.timeout_seconds == 30
                &&& request.headers.x_api_key@ == creds.api_key@
                &&& request.headers.x_timestamp@ == decimal_of(timestamp as nat)
                &&& request.headers.authorization@ == prepared_authorization(
                    *creds,
                    timestamp,
                    "api.prod.mountainprotocol.com"@,
                    "GET"@,
                    "/v1/balance"@,
                    Seq::<char>::empty(),
                )
            },
            Err(e) => e == SignError::MissingCredential,
        },
{
    prepare_request(
        creds,
        timestamp,
        "api.prod.mountainprotocol.com",
        "GET",
        String::from_str("/v1/balance"),
        String::new(),
        30,
    )
}

/// Prepares the withdrawal submission: a POST of the given serialized
/// payload to the withdraw path on the beta host, under the shorter write
/// timeout. The body handed in is signed and returned byte for byte: the
/// bytes signed must be the bytes sent, or the server rejects the signature.
pub fn prepare_withdraw_request(creds: &Credentials, timestamp: u64, body: String) -> (r: Result<
    SignedRequest,
    SignError,
>)
    ensures
        r is Ok <==> creds.api_key@.len() > 0,
        match r {
            Ok(request) => {
                &&& request.method@ == "POST"@
                &&& request.url@ == "https://"@ + "api.beta.mountainprotocol.com"@
                    + "/v1/withdraw/submit"@
                &&& request.body@ == body@
                &&& request.timeout_seconds == 10
                &&& request.headers.x_api_key@ == creds.api_key@
                &&& request.headers.x_timestamp@ == decimal_of(timestamp as nat)
                &&& request.headers.authorization@ == prepared_authorization(
                    *creds,
                    timestamp,
                    "api.beta.mountainprotocol.com"@,
                    "POST"@,
                    "/v1/withdraw/submit"@,
                    body@,
                )
            },
            Err(e) => e == SignError::MissingCredential,
        },
{
    prepare_request(
        creds,
        timestamp,
        "api.beta.mountainprotocol.com",
        "POST",
        String::from_str("/v1/withdraw/submit"),
        body,
        10,
    )
}

/// The path of the transaction detail lookup: the detail prefix with the
/// transaction identifier interpolated at its end.
pub open spec fn transaction_detail_path(transaction_id: Seq<char>) -> Seq<char> {
    "/v1/transaction/detail/"@ + transaction_id
}

/// Prepares the transaction detail lookup: a GET of the detail path for the
/// given transaction identifier on the beta host, with no query and no body,
/// under the shorter timeout.
pub fn prepare_transaction_detail_request(
    creds: &Credentials,
    timestamp: u64,
    transaction_id: &str,
) -> (r: Result<SignedRequest, SignError>)
    ensures
        r is Ok <==> creds.api_key@.len() > 0,
        match r {
            Ok(request) => {
                &&& request.method@ == "GET"@
                &&& request.url@ == "https://"@ + "api.beta.mountainprotocol.com"@
                    + transaction_detail_path(transaction_id@)
                &&& request.body@.len() == 0
                &&& request.timeout_seconds == 10
                &&& request.headers.x_api_key@ == creds.api_key@
                &&& request.headers.x_timestamp@ == decimal_of(timestamp as nat)
                &&& request.headers.authorization@ == prepared_authorization(
                    *creds,
                    timestamp,
                    "api.beta.mountainprotocol.com"@,
                    "GET"@,
                    transaction_detail_path(transaction_id@),
                    Seq::<char>::empty(),
                )
            },
            Err(e) => e == SignError::MissingCredential,
        },
{
    let mut path = String::from_str("/v1/transaction/detail/");
    path.append(transaction_id);
    prepare_request(
        creds,
        timestamp,
        "api.beta.mountainprotocol.com",
        "GET",
        path,
        String::new(),
        10,
    )
}

} // verus!
