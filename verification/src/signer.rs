use crate::canonical::SigningContext;
use base64::Engine;
use hmac::{Hmac, KeyInit, Mac};
use sha2::Sha256;
use vstd::prelude::*;
use vstd::string::StringSliceAdditionalSpecFns;
use vstd::utf8::encode_utf8;

verus! {

/// The HMAC-SHA256 tag over `msg` under `key`: a function of the two
/// arguments alone, left otherwise uninterpreted here — the computation is
/// the hmac crate's.
pub uninterp spec fn hmac_sha256_of(key: Seq<u8>, msg: Seq<u8>) -> Seq<u8>;

/// The standard base64 rendering, with padding, of `bytes`: a function of the
/// bytes alone, left otherwise uninterpreted here — the computation is the
/// base64 crate's.
pub uninterp spec fn base64_of(bytes: Seq<u8>) -> Seq<char>;

/// Relies on the hmac crate's `Hmac<Sha256>`: the tag depends on key and
/// message alone, is 32 bytes long (SHA-256's output size), and any key
/// length is accepted.
#[verifier::external_body]
fn hmac_sha256(key: &[u8], msg: &[u8]) -> (r: Vec<u8>)
    ensures
        r@ == hmac_sha256_of(key@, msg@),
        r@.len() == 32,
{
    let mut mac = Hmac::<Sha256>::new_from_slice(key).expect("HMAC accepts keys of any length");
    mac.update(msg);
    mac.finalize().into_bytes().to_vec()
}

/// Relies on the base64 crate's `STANDARD` engine: the standard alphabet with
/// padding, a function of the input bytes alone, four output characters for
/// every started group of three input bytes.
#[verifier::external_body]
fn base64_encode(bytes: &[u8]) -> (r: String)
    ensures
        r@ == base64_of(bytes@),
        r@.len() == 4 * ((bytes@.len() + 2) / 3),
{
    base64::engine::general_purpose::STANDARD.encode(bytes)
}

/// The signature for a canonical string under a secret key: the base64
/// rendering of the HMAC-SHA256 tag over the string's UTF-8 bytes.
pub open spec fn signature_of(secret: Seq<u8>, canon: Seq<char>) -> Seq<char> {
    base64_of(hmac_sha256_of(secret, encode_utf8(canon)))
}

/// Signs one request: computes the HMAC-SHA256 tag of the context's canonical
/// string under `secret` and renders it in base64.
///
/// The result is a function of the context and the secret alone — two calls
/// on identical inputs return identical signatures — and is always 44
/// characters long, the padded base64 rendering of a 32-byte tag.
pub fn sign(context: &SigningContext, secret: &[u8]) -> (sig: String)
    ensures
        sig@ == signature_of(secret@, context.canonical_view()),
        sig@.len() == 44,
{
    let canon = context.canonical_string();
    let msg = canon.as_str().as_bytes();
    proof {
        assert(msg@ == encode_utf8(context.canonical_view()));
    }
    let mac = hmac_sha256(secret, msg);
    base64_encode(mac.as_slice())
}

} // verus!
