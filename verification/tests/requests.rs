use base64::Engine;
use hmac::{Hmac, KeyInit, Mac};
use request_signer::credentials::Credentials;
use request_signer::decimal::u64_to_decimal;
use request_signer::errors::SignError;
use request_signer::requests::{
    prepare_balance_request, prepare_transaction_detail_request, prepare_withdraw_request,
};
use sha2::Sha256;

fn credentials() -> Credentials {
    Credentials {
        api_key: "abc".to_string(),
        secret_key: b"topsecret".to_vec(),
    }
}

fn expected_signature(secret: &[u8], canonical: &str) -> String {
    let mut mac = Hmac::<Sha256>::new_from_slice(secret).unwrap();
    mac.update(canonical.as_bytes());
    base64::engine::general_purpose::STANDARD.encode(mac.finalize().into_bytes())
}

#[test]
fn balance_request_is_fully_prepared() {
    let request = prepare_balance_request(&credentials(), 1700000000).unwrap();
    assert_eq!(request.method, "GET");
    assert_eq!(request.url, "https://api.prod.mountainprotocol.com/v1/balance");
    assert_eq!(request.body, "");
    assert_eq!(request.timeout_seconds, 30);
    assert_eq!(request.headers.x_api_key, "abc");
    assert_eq!(request.headers.x_timestamp, "1700000000");
    let expected = expected_signature(
        b"topsecret",
        "abc:1700000000:api.prod.mountainprotocol.com:GET:/v1/balance::",
    );
    assert_eq!(request.headers.authorization, format!("HMAC-SHA256 {}", expected));
    assert_eq!(
        request.headers.authorization,
        "HMAC-SHA256 cnxHyPfC8EZdwL1wrZeyHCUZ5bmr0C7sFEOSJDaCNDg="
    );
}

#[test]
fn withdraw_request_signs_the_exact_body_it_sends() {
    let body = "{\"amount\":10,\"currency\":\"USDC\"}".to_string();
    let request = prepare_withdraw_request(&credentials(), 1700000001, body.clone()).unwrap();
    assert_eq!(request.method, "POST");
    assert_eq!(request.url, "https://api.beta.mountainprotocol.com/v1/withdraw/submit");
    assert_eq!(request.body, body);
    assert_eq!(request.timeout_seconds, 10);
    let canonical = format!(
        "abc:1700000001:api.beta.mountainprotocol.com:POST:/v1/withdraw/submit::{}",
        body
    );
    let expected = expected_signature(b"topsecret", &canonical);
    assert_eq!(request.headers.authorization, format!("HMAC-SHA256 {}", expected));
}

#[test]
fn transaction_detail_request_interpolates_the_id() {
    let request =
        prepare_transaction_detail_request(&credentials(), 1700000002, "TiapVIN-SFrRhAWsDBq8JA")
            .unwrap();
    assert_eq!(request.method, "GET");
    assert_eq!(
        request.url,
        "https://api.beta.mountainprotocol.com/v1/transaction/detail/TiapVIN-SFrRhAWsDBq8JA"
    );
    assert_eq!(request.body, "");
    assert_eq!(request.timeout_seconds, 10);
    let expected = expected_signature(
        b"topsecret",
        "abc:1700000002:api.beta.mountainprotocol.com:GET:/v1/transaction/detail/TiapVIN-SFrRhAWsDBq8JA::",
    );
    assert_eq!(request.headers.authorization, format!("HMAC-SHA256 {}", expected));
}

#[test]
fn empty_api_key_is_a_missing_credential() {
    let creds = Credentials {
        api_key: String::new(),
        secret_key: b"topsecret".to_vec(),
    };
    let r = prepare_balance_request(&creds, 1700000000);
    assert_eq!(r.err(), Some(SignError::MissingCredential));
}

#[test]
fn decimal_rendering_is_exact() {
    assert_eq!(u64_to_decimal(0), "0");
    assert_eq!(u64_to_decimal(7), "7");
    assert_eq!(u64_to_decimal(10), "10");
    assert_eq!(u64_to_decimal(1700000000), "1700000000");
    assert_eq!(u64_to_decimal(u64::MAX), "18446744073709551615");
}
