use polkahub_tokens::claims::Claims;
use polkahub_tokens::clock::{current_timestamp, nanos_since_epoch};
use polkahub_tokens::session::{sign_claims, token};
use std::collections::HashSet;
use std::time::{SystemTime, UNIX_EPOCH};

const UID: &str = "123e4567-e89b-42d3-a456-426614174000";

fn decode_segment(seg: &str) -> String {
    let bytes = base64::decode_config(seg, base64::URL_SAFE_NO_PAD).expect("segment is base64url");
    String::from_utf8(bytes).expect("segment is UTF-8")
}

fn claims_of(token: &str) -> serde_json::Value {
    let parts: Vec<&str> = token.split('.').collect();
    assert_eq!(parts.len(), 3);
    serde_json::from_str(&decode_segment(parts[1])).expect("claims are JSON")
}

fn is_uuid_v4_text(s: &str) -> bool {
    let b = s.as_bytes();
    if b.len() != 36 {
        return false;
    }
    for (i, c) in b.iter().enumerate() {
        let ok = if i == 8 || i == 13 || i == 18 || i == 23 {
            *c == b'-'
        } else {
            c.is_ascii_digit() || (b'a'..=b'f').contains(c)
        };
        if !ok {
            return false;
        }
    }
    b[14] == b'4' && matches!(b[19], b'8' | b'9' | b'a' | b'b')
}

fn now_nanos() -> u128 {
    SystemTime::now().duration_since(UNIX_EPOCH).unwrap().as_nanos()
}

#[test]
fn session_token_has_header_claims_and_signature() {
    let t = token(b"test-secret").expect("token is issued");
    let parts: Vec<&str> = t.split('.').collect();
    assert_eq!(parts.len(), 3);
    let header = decode_segment(parts[0]);
    assert!(header.contains("\"alg\":\"HS256\""));
    let claims = claims_of(&t);
    let name: Vec<u64> = claims["project_name"]
        .as_array()
        .unwrap()
        .iter()
        .map(|v| v.as_u64().unwrap())
        .collect();
    assert_eq!(name, vec![112, 111, 108, 107, 97, 104, 117, 98]);
    assert!(is_uuid_v4_text(claims["uid"].as_str().unwrap()));
    assert!(claims["timestamp"].as_u64().unwrap() > 0);
}

#[test]
fn session_token_header_is_exact() {
    let t = token(b"test-secret").unwrap();
    let first = t.split('.').next().unwrap();
    assert_eq!(decode_segment(first), "{\"typ\":\"JWT\",\"alg\":\"HS256\"}");
}

#[test]
fn session_token_timestamp_is_now_in_nanoseconds() {
    let before = now_nanos();
    let t = token(b"test-secret").unwrap();
    let after = now_nanos();
    let ts = claims_of(&t)["timestamp"].as_u64().unwrap() as u128;
    assert!(ts + 2_000_000_000 >= before);
    assert!(ts <= after + 2_000_000_000);
}

#[test]
fn two_session_tokens_differ() {
    let a = claims_of(&token(b"test-secret").unwrap());
    let b = claims_of(&token(b"test-secret").unwrap());
    assert_ne!(a["uid"], b["uid"]);
    assert!(b["timestamp"].as_u64().unwrap() >= a["timestamp"].as_u64().unwrap());
}

#[test]
fn session_token_uids_do_not_collide() {
    let mut seen = HashSet::new();
    for _ in 0..500 {
        let c = claims_of(&token(b"k").unwrap());
        seen.insert(c["uid"].as_str().unwrap().to_string());
    }
    assert_eq!(seen.len(), 500);
}

#[test]
fn session_token_verifies_only_with_its_secret() {
    let t = token(b"test-secret").unwrap();
    let cut = t.rfind('.').unwrap();
    let (message, signature) = (&t[..cut], &t[cut + 1..]);
    let alg = jsonwebtoken::Algorithm::HS256;
    let same = jsonwebtoken::DecodingKey::from_secret(b"test-secret");
    let other = jsonwebtoken::DecodingKey::from_secret(b"other-secret");
    assert!(jsonwebtoken::crypto::verify(signature, message, &same, alg).unwrap());
    assert!(!jsonwebtoken::crypto::verify(signature, message, &other, alg).unwrap());
}

#[test]
fn secret_need_not_be_text() {
    let t = token(&[0xff, 0x00, 0xfe]).unwrap();
    assert_eq!(t.split('.').count(), 3);
}

#[test]
fn claims_json_is_exact() {
    let c = Claims::new(1_600_000_000_123_456_789, UID.to_string());
    assert_eq!(
        c.to_json(),
        "{\"project_name\":[112,111,108,107,97,104,117,98],\"timestamp\":1600000000123456789,\
         \"uid\":\"123e4567-e89b-42d3-a456-426614174000\"}"
    );
}

#[test]
fn claims_json_writes_small_and_large_timestamps() {
    assert!(Claims::new(0, UID.to_string()).to_json().contains("\"timestamp\":0,"));
    let max = Claims::new(u128::MAX, UID.to_string()).to_json();
    assert!(max.contains("\"timestamp\":340282366920938463463374607431768211455,"));
}

#[test]
fn signed_claims_are_exact() {
    let c = Claims::new(1_600_000_000_123_456_789, UID.to_string());
    assert_eq!(
        sign_claims(b"test-secret", &c).unwrap(),
        "eyJ0eXAiOiJKV1QiLCJhbGciOiJIUzI1NiJ9.\
         eyJwcm9qZWN0X25hbWUiOlsxMTIsMTExLDEwOCwxMDcsOTcsMTA0LDExNyw5OF0sInRpbWVzdGFtcCI6MTYwMDAwMDAwMDEyMzQ1Njc4OSwidWlkIjoiMTIzZTQ1NjctZTg5Yi00MmQzLWE0NTYtNDI2NjE0MTc0MDAwIn0.\
         P7aeBMSspFDvKPFFel6d4aCIQYsN9KfM6V-1tNpVs7M"
    );
}

#[test]
fn signed_claims_depend_on_the_secret() {
    let c = Claims::new(1, UID.to_string());
    let a = sign_claims(b"one", &c).unwrap();
    let b = sign_claims(b"two", &c).unwrap();
    assert_eq!(a.rsplit_once('.').unwrap().0, b.rsplit_once('.').unwrap().0);
    assert_ne!(a, b);
}

#[test]
fn current_timestamp_is_nanoseconds_since_epoch() {
    let before = now_nanos();
    let ts = current_timestamp().unwrap();
    let after = now_nanos();
    assert!(before <= ts && ts <= after);
}

#[test]
fn nanos_since_epoch_is_exact() {
    assert_eq!(nanos_since_epoch(0, 0), 0);
    assert_eq!(nanos_since_epoch(1_600_000_000, 123_456_789), 1_600_000_000_123_456_789);
    assert_eq!(
        nanos_since_epoch(u64::MAX, 999_999_999),
        u64::MAX as u128 * 1_000_000_000 + 999_999_999
    );
}
