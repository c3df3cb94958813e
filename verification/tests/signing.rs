use base64::Engine;
use hmac::{Hmac, KeyInit, Mac};
use request_signer::canonical::SigningContext;
use request_signer::signer::sign;
use sha2::Sha256;

fn context(
    api_key: &str,
    timestamp: u64,
    host: &str,
    method: &str,
    path: &str,
    query: &str,
    body: &str,
) -> SigningContext {
    SigningContext {
        api_key: api_key.to_string(),
        timestamp,
        host: host.to_string(),
        method: method.to_string(),
        path: path.to_string(),
        query: query.to_string(),
        body: body.to_string(),
    }
}

fn balance_context() -> SigningContext {
    context(
        "abc",
        1700000000,
        "api.example.com",
        "GET",
        "/v1/balance",
        "",
        "",
    )
}

#[test]
fn canonical_string_balance_scenario() {
    let canonical = balance_context().canonical_string();
    assert_eq!(canonical, "abc:1700000000:api.example.com:GET:/v1/balance::");
}

#[test]
fn canonical_string_keeps_empty_fields() {
    let canonical = balance_context().canonical_string();
    assert!(canonical.ends_with("::"));
    assert_eq!(canonical.matches(':').count(), 6);
}

#[test]
fn canonical_string_six_colons_with_body() {
    let ctx = context(
        "key",
        1,
        "h.example.com",
        "POST",
        "/v1/withdraw/submit",
        "",
        "{\"amount\":10}",
    );
    let canonical = ctx.canonical_string();
    assert_eq!(canonical.matches(':').count(), 7);
    let ctx = context(
        "key",
        1,
        "h.example.com",
        "POST",
        "/v1/withdraw/submit",
        "",
        "payload-without-colon",
    );
    assert_eq!(ctx.canonical_string().matches(':').count(), 6);
}

#[test]
fn sign_is_deterministic() {
    let secret = b"topsecret".to_vec();
    let first = sign(&balance_context(), &secret);
    let second = sign(&balance_context(), &secret);
    assert_eq!(first, second);
}

#[test]
fn signature_changes_with_timestamp() {
    let secret = b"topsecret".to_vec();
    let base = sign(&balance_context(), &secret);
    let mut ctx = balance_context();
    ctx.timestamp += 1;
    assert_ne!(base, sign(&ctx, &secret));
}

#[test]
fn signature_changes_with_body() {
    let secret = b"topsecret".to_vec();
    let ctx = context("abc", 1700000000, "api.example.com", "POST", "/v1/x", "", "aaaa");
    let changed = context("abc", 1700000000, "api.example.com", "POST", "/v1/x", "", "aaab");
    assert_ne!(sign(&ctx, &secret), sign(&changed, &secret));
}

#[test]
fn signature_changes_with_secret() {
    let base = sign(&balance_context(), b"topsecret".as_slice());
    let other = sign(&balance_context(), b"topsecrez".as_slice());
    assert_ne!(base, other);
}

#[test]
fn signature_decodes_to_32_bytes() {
    let signature = sign(&balance_context(), b"topsecret".as_slice());
    assert_eq!(signature.len(), 44);
    let mac = base64::engine::general_purpose::STANDARD
        .decode(signature.as_bytes())
        .expect("a signature is valid base64");
    assert_eq!(mac.len(), 32);
}

#[test]
fn sign_matches_known_vector() {
    let signature = sign(&balance_context(), b"topsecret".as_slice());
    assert_eq!(signature, "fIh+6IKxNcLLiOXnwNG7NUm5+c35MJaoacEiIV1kHoc=");
}

#[test]
fn sign_matches_direct_hmac_computation() {
    let secret = b"topsecret";
    let signature = sign(&balance_context(), secret.as_slice());
    let mut mac = Hmac::<Sha256>::new_from_slice(secret).unwrap();
    mac.update(b"abc:1700000000:api.example.com:GET:/v1/balance::");
    let expected =
        base64::engine::general_purpose::STANDARD.encode(mac.finalize().into_bytes());
    assert_eq!(signature, expected);
}

#[test]
fn sign_accepts_empty_secret_and_long_secret() {
    let short = sign(&balance_context(), b"".as_slice());
    assert_eq!(short.len(), 44);
    let long_secret = vec![0x5au8; 200];
    let long = sign(&balance_context(), &long_secret);
    assert_eq!(long.len(), 44);
    assert_ne!(short, long);
}
