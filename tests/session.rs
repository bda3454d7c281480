use std::collections::BTreeMap;

use brains::model::JwtInformation;
use brains::session::{
    claims_information, create_jwt, information_of, konvertera_jwt, lookup, payload,
    session_claims, verify_session_claims, SessionError,
    SessionKeys, AUDIENCE, ISSUER, MAX_LIFETIME_DAYS,
};
use jwt_simple::prelude::{Claims, Duration, RS384KeyPair, RSAKeyPairLike};

fn keys() -> (RS384KeyPair, SessionKeys) {
    let pair = RS384KeyPair::generate(2048).unwrap();
    let public = pair.public_key();
    let keys = SessionKeys::new(RS384KeyPair::from_pem(&pair.to_pem().unwrap()).unwrap(), public, 1)
        .unwrap();
    (pair, keys)
}

fn pairs(items: &[(&str, &str)]) -> Vec<(String, String)> {
    items.iter().map(|(k, v)| (k.to_string(), v.to_string())).collect()
}

#[test]
fn claims_carry_the_user() {
    let c = session_claims("u1", "Ada", 1000, 60).unwrap();
    assert_eq!(c.issued_at, 1000);
    assert_eq!(c.invalid_before, 1000);
    assert_eq!(c.expires_at, 1060);
    assert_eq!(c.issuer, "Brainn");
    assert_eq!(c.audience, "HjärnorFörening");
    assert_eq!(c.subject, "u1");
    assert_eq!(c.custom, pairs(&[("brainname", "Ada"), ("id", "u1")]));
}

#[test]
fn claims_past_the_last_second_are_refused() {
    assert!(session_claims("u1", "Ada", 0xffff_fff0, 100).is_none());
    assert!(session_claims("u1", "Ada", 0xffff_fff0, 15).is_some());
}

#[test]
fn payload_round_trip() {
    let info = JwtInformation { brainname: "Ada".to_string(), id: "u1".to_string() };
    let p = payload(&info);
    assert_eq!(information_of(&p), Some(info));
}

#[test]
fn payload_lookup() {
    let p = pairs(&[("a", "1"), ("id", "x"), ("id", "y")]);
    assert_eq!(lookup(&p, "id"), Some("x".to_string()));
    assert_eq!(lookup(&p, "brainname"), None);
    assert_eq!(information_of(&p), None);
}

#[test]
fn lifetime_beyond_timestamps_is_refused() {
    let pair = RS384KeyPair::generate(2048).unwrap();
    let public = pair.public_key();
    let r = SessionKeys::new(pair, public, MAX_LIFETIME_DAYS + 1);
    assert_eq!(r.err(), Some(SessionError::LifetimeTooLong));
}

#[test]
fn token_round_trip() {
    let (_, keys) = keys();
    let token = create_jwt(&keys, "u1", "Ada").unwrap();
    let info = konvertera_jwt(&keys, &token).unwrap();
    assert_eq!(info.id, "u1");
    assert_eq!(info.brainname, "Ada");
    let claims = verify_session_claims(&keys, &token).unwrap();
    assert_eq!(claims.issuer.as_deref(), Some("Brainn"));
    assert_eq!(claims.subject.as_deref(), Some("u1"));
    assert_eq!(claims.audiences, vec!["HjärnorFörening".to_string()]);
    assert_eq!(claims_information(&claims), Some(info));
}

#[test]
fn tampered_or_foreign_tokens_fail() {
    let (pair, keys) = keys();
    let token = create_jwt(&keys, "u1", "Ada").unwrap();
    let mut tampered = token.clone();
    let last = tampered.pop().unwrap();
    tampered.push(if last == 'A' { 'B' } else { 'A' });
    assert_eq!(konvertera_jwt(&keys, &tampered), None);

    let mut custom = BTreeMap::new();
    custom.insert("brainname".to_string(), "Ada".to_string());
    custom.insert("id".to_string(), "u1".to_string());
    let wrong_issuer = Claims::with_custom_claims(custom.clone(), Duration::from_hours(1))
        .with_issuer("Someone else")
        .with_audience(AUDIENCE)
        .with_subject("u1");
    let t = pair.sign(wrong_issuer).unwrap();
    assert_eq!(konvertera_jwt(&keys, &t), None);

    let wrong_audience = Claims::with_custom_claims(custom.clone(), Duration::from_hours(1))
        .with_issuer(ISSUER)
        .with_audience("Another club")
        .with_subject("u1");
    let t = pair.sign(wrong_audience).unwrap();
    assert_eq!(konvertera_jwt(&keys, &t), None);

    let right = Claims::with_custom_claims(custom, Duration::from_hours(1))
        .with_issuer(ISSUER)
        .with_audience(AUDIENCE)
        .with_subject("u1");
    let t = pair.sign(right).unwrap();
    assert!(konvertera_jwt(&keys, &t).is_some());
}
