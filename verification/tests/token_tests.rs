use identity_access::token::{TokenError, TokenService, VALIDITY_WINDOW};

fn service() -> TokenService {
    TokenService::new(b"secret".to_vec())
}

#[test]
fn token_is_payload_time_and_signature() {
    let token = service().sign_at("bob@x.com", 1700000000);
    assert_eq!(token, "bob@x.com.1700000000.Nz4JkUmD9b8PhKNPEHYL7OyMSRpZqKOzet_0ll1RF-w");
}

#[test]
fn token_with_dots_in_payload_and_negative_time() {
    let svc = TokenService::new(b"k".to_vec());
    let token = svc.sign_at("a.b", -5);
    assert_eq!(token, "a.b.-5.9kjepa8AsBR48VF2TvqlBgFGre3vv8SbGLpl5wgH5Qs");
    assert_eq!(svc.verify_at(&token, 0), Ok("a.b".to_string()));
}

#[test]
fn verify_right_after_sign_returns_payload() {
    let svc = service();
    for payload in ["bob@x.com", "", "a.b.c", "with space", "\u{00e9}\u{4e2d}", "..."] {
        let token = svc.sign_at(payload, 1700000000);
        assert_eq!(svc.verify_at(&token, 1700000000), Ok(payload.to_string()));
    }
}

#[test]
fn sign_and_verify_with_the_clock() {
    let svc = service();
    let token = svc.sign("bob@x.com");
    assert_eq!(svc.verify(&token), Ok("bob@x.com".to_string()));
}

#[test]
fn token_is_valid_through_the_last_second_of_the_window() {
    let svc = service();
    let token = svc.sign_at("bob@x.com", 1000);
    assert_eq!(VALIDITY_WINDOW, 86400);
    assert_eq!(svc.verify_at(&token, 1000 + 86400), Ok("bob@x.com".to_string()));
    assert_eq!(svc.verify_at(&token, 1000 + 86401), Err(TokenError::Expired));
}

#[test]
fn token_from_the_future_is_valid() {
    let svc = service();
    let token = svc.sign_at("bob@x.com", 5000);
    assert_eq!(svc.verify_at(&token, 10), Ok("bob@x.com".to_string()));
}

#[test]
fn expired_token_is_expired_and_not_invalid() {
    let svc = service();
    let token = svc.sign_at("bob@x.com", 1700000000);
    let later = 1700000000 + 25 * 3600;
    assert_eq!(svc.verify_at(&token, later), Err(TokenError::Expired));
    assert_eq!(svc.verify_at(&token, i64::MAX), Err(TokenError::Expired));
}

#[test]
fn expiry_does_not_overflow_at_the_ends() {
    let svc = service();
    let old = svc.sign_at("p", i64::MIN);
    assert_eq!(svc.verify_at(&old, i64::MAX), Err(TokenError::Expired));
    let new = svc.sign_at("p", i64::MAX);
    assert_eq!(svc.verify_at(&new, i64::MIN), Ok("p".to_string()));
}

#[test]
fn altered_payload_is_refused_for_its_signature() {
    let svc = service();
    let token = svc.sign_at("bob@x.com", 1700000000);
    let altered = token.replacen("bob", "bop", 1);
    assert_eq!(svc.verify_at(&altered, 1700000000), Err(TokenError::InvalidSignature));
    let later = 1700000000 + 25 * 3600;
    assert_eq!(svc.verify_at(&altered, later), Err(TokenError::InvalidSignature));
}

#[test]
fn altered_time_is_refused_for_its_signature() {
    let svc = service();
    let token = svc.sign_at("bob@x.com", 1700000000);
    let altered = token.replacen("1700000000", "1700000001", 1);
    assert_eq!(svc.verify_at(&altered, 1700000000), Err(TokenError::InvalidSignature));
    let padded = token.replacen("1700000000", "01700000000", 1);
    assert_eq!(svc.verify_at(&padded, 1700000000), Err(TokenError::InvalidSignature));
}

#[test]
fn altered_signature_is_refused() {
    let svc = service();
    let token = svc.sign_at("bob@x.com", 1700000000);
    let mut altered = token.clone();
    altered.pop();
    altered.push('A');
    assert_ne!(altered, token);
    assert_eq!(svc.verify_at(&altered, 1700000000), Err(TokenError::InvalidSignature));
}

#[test]
fn token_of_another_secret_is_refused() {
    let token = TokenService::new(b"other".to_vec()).sign_at("bob@x.com", 1700000000);
    assert_eq!(service().verify_at(&token, 1700000000), Err(TokenError::InvalidSignature));
}

#[test]
fn text_that_is_no_token_is_refused() {
    let svc = service();
    for text in ["", "nodots", ".", "..", "a.b", "a.b.c", "bob@x.com.1700000000."] {
        assert_eq!(svc.verify_at(text, 1700000000), Err(TokenError::InvalidSignature));
    }
}

#[test]
fn genuine_signature_over_text_without_time_is_refused() {
    let svc = service();
    let signed = svc.sign_at("payload", 12);
    let signature = signed.rsplit('.').next().unwrap().to_string();
    assert_eq!(signature.len(), 43);
    let key = jsonwebtoken::EncodingKey::from_secret(b"secret");
    let no_time = jsonwebtoken::crypto::sign(b"payload.x12", &key, jsonwebtoken::Algorithm::HS256).unwrap();
    let token = format!("payload.x12.{}", no_time);
    assert_eq!(svc.verify_at(&token, 12), Err(TokenError::InvalidSignature));
    let no_dot = jsonwebtoken::crypto::sign(b"payload", &key, jsonwebtoken::Algorithm::HS256).unwrap();
    let token = format!("payload.{}", no_dot);
    assert_eq!(svc.verify_at(&token, 12), Err(TokenError::InvalidSignature));
}

#[test]
fn clock_gives_a_time_within_its_range() {
    let token = service().sign("p");
    let mut parts = token.rsplit('.');
    let _signature = parts.next().unwrap();
    let issued_at: i64 = parts.next().unwrap().parse().unwrap();
    assert!(issued_at > 1_600_000_000);
    assert!(issued_at <= 281_474_976_710_656);
    assert_eq!(service().verify_at(&token, issued_at), Ok("p".to_string()));
}
