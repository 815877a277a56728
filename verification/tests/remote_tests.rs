use newsletter_core::auth::AuthError;
use newsletter_core::auth::JwtConfig;
use newsletter_core::auth::PendingRemote;
use newsletter_core::auth::VerifyStep;
use newsletter_core::auth::verify_finish;

const SECRET: &[u8] = b"0123456789abcdef0123456789abcdef";
const NOW: i64 = 1_700_000_000;
const SUB: &str = "11111111-2222-3333-4444-555555555555";
const ISSUER: &str = "https://proj.supabase.co/auth/v1";

/// A key set holding one symmetric key under the id `k1`; the `k` value is
/// the base64url form of `SECRET`.
fn key_set() -> jsonwebtoken::jwk::JwkSet {
    let doc = r#"{"keys":[{"kty":"oct","kid":"k1","k":"MDEyMzQ1Njc4OWFiY2RlZjAxMjM0NTY3ODlhYmNkZWY"}]}"#;
    serde_json::from_str(doc).expect("the fixture key set parses")
}

fn remote_config() -> JwtConfig {
    JwtConfig::from_env(None, None, None, Some("https://proj.supabase.co"))
        .expect("a service URL configures the verifier")
}

fn claims_value(sub: &str, exp: i64, iss: Option<&str>) -> serde_json::Value {
    let mut m = serde_json::Map::new();
    m.insert("sub".to_string(), serde_json::Value::String(sub.to_string()));
    m.insert(
        "exp".to_string(),
        serde_json::Value::Number(serde_json::Number::from(exp)),
    );
    if let Some(i) = iss {
        m.insert("iss".to_string(), serde_json::Value::String(i.to_string()));
    }
    serde_json::Value::Object(m)
}

fn sign_with_kid(claims: &serde_json::Value, kid: &str) -> String {
    let mut header = jsonwebtoken::Header::new(jsonwebtoken::Algorithm::HS256);
    header.kid = Some(kid.to_string());
    jsonwebtoken::encode(&header, claims, &jsonwebtoken::EncodingKey::from_secret(SECRET))
        .expect("signing in tests must succeed")
}

/// Drive the two verification steps, handing over the fixture key set when
/// it is asked for.
fn run_remote(header: Option<&str>) -> Result<newsletter_core::auth::Identity, AuthError> {
    match remote_config().verify_start(header, NOW) {
        VerifyStep::Done(r) => r,
        VerifyStep::NeedKeySet(pending) => {
            assert_eq!(pending.jwks_url, "https://proj.supabase.co/auth/v1/.well-known/jwks.json");
            let keys = key_set();
            verify_finish(pending, Some(&keys), NOW)
        }
    }
}

#[test]
fn valid_remote_token_yields_identity() {
    let token = sign_with_kid(&claims_value(SUB, NOW + 3600, Some(ISSUER)), "k1");
    let header = format!("Bearer {}", token);
    let id = run_remote(Some(&header)).expect("a valid token verifies");
    assert_eq!(id.user_id, uuid::Uuid::parse_str(SUB).unwrap().as_u128());
}

#[test]
fn unknown_key_id_is_rejected() {
    let token = sign_with_kid(&claims_value(SUB, NOW + 3600, Some(ISSUER)), "nope");
    let header = format!("Bearer {}", token);
    assert_eq!(run_remote(Some(&header)), Err(AuthError::UnknownKeyId));
}

#[test]
fn mismatched_issuer_is_rejected_despite_valid_signature() {
    let token = sign_with_kid(&claims_value(SUB, NOW + 3600, Some("https://evil.example")), "k1");
    let header = format!("Bearer {}", token);
    assert_eq!(run_remote(Some(&header)), Err(AuthError::WrongIssuer));
}

#[test]
fn missing_issuer_claim_is_rejected() {
    let token = sign_with_kid(&claims_value(SUB, NOW + 3600, None), "k1");
    let header = format!("Bearer {}", token);
    assert_eq!(run_remote(Some(&header)), Err(AuthError::WrongIssuer));
}

#[test]
fn token_without_key_id_is_rejected() {
    let token = jsonwebtoken::encode(
        &jsonwebtoken::Header::new(jsonwebtoken::Algorithm::HS256),
        &claims_value(SUB, NOW + 3600, Some(ISSUER)),
        &jsonwebtoken::EncodingKey::from_secret(SECRET),
    )
    .unwrap();
    let header = format!("Bearer {}", token);
    match remote_config().verify_start(Some(&header), NOW) {
        VerifyStep::Done(r) => assert_eq!(r, Err(AuthError::MissingKeyId)),
        VerifyStep::NeedKeySet(_) => panic!("a token without kid cannot name a key"),
    }
}

#[test]
fn undecodable_token_is_rejected_in_remote_mode() {
    match remote_config().verify_start(Some("Bearer garbage"), NOW) {
        VerifyStep::Done(r) => assert_eq!(r, Err(AuthError::MalformedToken)),
        VerifyStep::NeedKeySet(_) => panic!("garbage has no decodable header"),
    }
}

#[test]
fn failed_key_fetch_is_rejected() {
    let token = sign_with_kid(&claims_value(SUB, NOW + 3600, Some(ISSUER)), "k1");
    let header = format!("Bearer {}", token);
    match remote_config().verify_start(Some(&header), NOW) {
        VerifyStep::NeedKeySet(pending) => {
            assert_eq!(verify_finish(pending, None, NOW), Err(AuthError::KeyFetchFailed));
        }
        VerifyStep::Done(_) => panic!("a token with kid asks for the key set"),
    }
}

#[test]
fn unusable_key_entry_is_rejected() {
    // The key id matches, but the entry's key material is not valid base64,
    // so no verification key can be built from it.
    let bad: jsonwebtoken::jwk::JwkSet =
        serde_json::from_str(r#"{"keys":[{"kty":"oct","kid":"k1","k":"!!!not-base64!!!"}]}"#)
            .expect("the fixture parses");
    let token = sign_with_kid(&claims_value(SUB, NOW + 3600, Some(ISSUER)), "k1");
    let header = format!("Bearer {}", token);
    match remote_config().verify_start(Some(&header), NOW) {
        VerifyStep::NeedKeySet(pending) => {
            assert_eq!(verify_finish(pending, Some(&bad), NOW), Err(AuthError::UnusableKey));
        }
        VerifyStep::Done(_) => panic!("a token with kid asks for the key set"),
    }
}

#[test]
fn expired_remote_token_is_rejected() {
    let token = sign_with_kid(&claims_value(SUB, NOW - 1, Some(ISSUER)), "k1");
    let header = format!("Bearer {}", token);
    assert_eq!(run_remote(Some(&header)), Err(AuthError::Expired));
}

#[test]
fn pending_state_carries_the_request() {
    let token = sign_with_kid(&claims_value(SUB, NOW + 3600, Some(ISSUER)), "k1");
    let header = format!("Bearer {}", token);
    match remote_config().verify_start(Some(&header), NOW) {
        VerifyStep::NeedKeySet(PendingRemote { token: t, kid, issuer, audience, .. }) => {
            assert_eq!(t, token);
            assert_eq!(kid, "k1");
            assert_eq!(issuer, ISSUER);
            assert_eq!(audience, None);
        }
        VerifyStep::Done(_) => panic!("a token with kid asks for the key set"),
    }
}
