use vstd::prelude::*;

use crate::claims::{claims_json, is_uuid_v4_text, project_name, Claims};
use crate::clock::current_timestamp;
use crate::error::TokenError;

verus! {

#[verifier::external_type_specification]
#[verifier::external_body]
pub struct ExJwtError(jsonwebtoken::errors::Error);

/// Base64url text without padding (RFC 4648, section 5) of the UTF-8 bytes of
/// `text`.
pub uninterp spec fn b64url_of(text: Seq<char>) -> Seq<char>;

/// Base64url text without padding of the HMAC-SHA-256 tag of the UTF-8 bytes
/// of `message` under `key`.
pub uninterp spec fn hs256_signature_of(key: Seq<u8>, message: Seq<char>) -> Seq<char>;

/// A character of the base64url alphabet: `A-Z`, `a-z`, `0-9`, `-`, `_`.
pub open spec fn is_b64url_char(c: char) -> bool {
    ('A' <= c && c <= 'Z') || ('a' <= c && c <= 'z') || ('0' <= c && c <= '9') || c == '-' || c
        == '_'
}

pub open spec fn is_b64url_text(s: Seq<char>) -> bool {
    forall|i: int| 0 <= i < s.len() ==> is_b64url_char(#[trigger] s[i])
}

/// The header of every session token: the compact-token type and HMAC-SHA-256.
pub open spec fn jwt_header() -> Seq<char> {
    "{\"typ\":\"JWT\",\"alg\":\"HS256\"}"@
}

/// The part of a token that the signature covers: the encoded header and the
/// encoded claims, joined by a dot.
pub open spec fn signing_input(claims: Seq<char>) -> Seq<char> {
    b64url_of(jwt_header()) + seq!['.'] + b64url_of(claims)
}

/// The compact signed token over the JSON text `claims` under `key`.
pub open spec fn compact_token(key: Seq<u8>, claims: Seq<char>) -> Seq<char> {
    signing_input(claims) + seq!['.'] + hs256_signature_of(key, signing_input(claims))
}

/// The three segments of a compact token are base64url text.
pub open spec fn segments_are_b64url(key: Seq<u8>, claims: Seq<char>) -> bool {
    &&& is_b64url_text(b64url_of(jwt_header()))
    &&& is_b64url_text(b64url_of(claims))
    &&& is_b64url_text(hs256_signature_of(key, signing_input(claims)))
}

/// A compact token splits on `.` into exactly three segments: its only dots
/// stand after the encoded header and after the encoded claims.
pub proof fn lemma_token_has_three_segments(key: Seq<u8>, claims: Seq<char>)
    requires
        segments_are_b64url(key, claims),
    ensures
        ({
            let t = compact_token(key, claims);
            let h = b64url_of(jwt_header()).len();
            let c = b64url_of(claims).len();
            forall|i: int|
                0 <= i < t.len() ==> (#[trigger] t[i] == '.' <==> (i == h || i == h + 1 + c))
        }),
{
    let a = b64url_of(jwt_header());
    let b = b64url_of(claims);
    let m = signing_input(claims);
    let s = hs256_signature_of(key, m);
    let t = compact_token(key, claims);
    assert forall|i: int| 0 <= i < t.len() implies (#[trigger] t[i] == '.' <==> (i == a.len() || i
        == a.len() + 1 + b.len())) by {
        if i < a.len() {
            assert(t[i] == a[i]);
            assert(is_b64url_char(a[i]));
        } else if i == a.len() {
        } else if i < a.len() + 1 + b.len() {
            assert(t[i] == b[i - a.len() - 1]);
            assert(is_b64url_char(b[i - a.len() - 1]));
        } else if i == a.len() + 1 + b.len() {
        } else {
            assert(t[i] == s[i - m.len() - 1]);
            assert(is_b64url_char(s[i - m.len() - 1]));
        }
    }
}

/// Relies on base64's `encode_config` with `URL_SAFE_NO_PAD`: the encoding
/// of the bytes of `text`, written in the base64url alphabet. It panics only
/// where the encoded length overflows `usize`, which no `str` can reach.
#[verifier::external_body]
fn b64url(text: &str) -> (r: String)
    ensures
        r@ == b64url_of(text@),
        is_b64url_text(r@),
{
    base64::encode_config(text, base64::URL_SAFE_NO_PAD)
}

/// Relies on jsonwebtoken's `crypto::sign` with `Algorithm::HS256` and a key
/// made by `EncodingKey::from_secret`: the base64url (no padding) text of the
/// HMAC-SHA-256 tag of `message` under `secret`. For the HMAC algorithms it
/// returns `Ok` on every input.
#[verifier::external_body]
fn hs256_sign(message: &str, secret: &[u8]) -> (r: Result<String, jsonwebtoken::errors::Error>)
    ensures
        r is Ok,
        r->Ok_0@ == hs256_signature_of(secret@, message@),
        is_b64url_text(r->Ok_0@),
{
    let key = jsonwebtoken::EncodingKey::from_secret(secret);
    jsonwebtoken::crypto::sign(message, &key, jsonwebtoken::Algorithm::HS256)
}

/// Relies on uuid's `Uuid::new_v4` and its `Display`: a fresh random UUID of
/// version 4 and RFC 4122 variant, in hyphenated lower-case text.
/// `new_v4` panics only where the system's random source fails.
#[verifier::external_body]
fn new_uid() -> (r: String)
    ensures
        is_uuid_v4_text(r@),
{
    uuid::Uuid::new_v4().to_string()
}

/// Signs a claim record into a compact token: base64url of the header, of the
/// claims' JSON text, and of the HMAC-SHA-256 tag of the first two under
/// `secret`, joined by dots.
///
/// The claims' JSON text is this library's frozen wire format, written and
/// proved here, so the token is framed here too: jsonwebtoken's `encode`
/// takes only a serde-serialisable value, which a verified type cannot be.
/// The framing uses the same pieces as `encode`: the fixed header text,
/// base64url without padding, and jsonwebtoken's own `crypto::sign`.
pub fn sign_claims(secret: &[u8], claims: &Claims) -> (r: Result<String, TokenError>)
    requires
        claims.wf(),
    ensures
        r is Ok,
        r->Ok_0@ == compact_token(
            secret@,
            claims_json(claims.project_name@, claims.timestamp as nat, claims.uid@),
        ),
        segments_are_b64url(
            secret@,
            claims_json(claims.project_name@, claims.timestamp as nat, claims.uid@),
        ),
{
    let json = claims.to_json();
    let header = b64url("{\"typ\":\"JWT\",\"alg\":\"HS256\"}");
    let body = b64url(json.as_str());
    let mut message = String::new();
    message.push_str(header.as_str());
    message.push('.');
    message.push_str(body.as_str());
    assert(message@ =~= signing_input(json@));
    let signature = match hs256_sign(message.as_str(), secret) {
        Ok(s) => s,
        Err(_) => return Err(TokenError::Encoder),
    };
    let mut out = message;
    out.push('.');
    out.push_str(signature.as_str());
    assert(out@ =~= compact_token(secret@, json@));
    Ok(out)
}

/// Issues a session token: a fresh claim record for the project, stamped
/// with the current time in nanoseconds and a fresh version-4 UUID, signed
/// with `secret` under HMAC-SHA-256. Fails only on a clock set before the
/// Unix epoch.
pub fn token(secret: &[u8]) -> (r: Result<String, TokenError>)
    ensures
        r is Ok || r == Err::<String, TokenError>(TokenError::ClockBeforeEpoch),
        r is Ok ==> exists|timestamp: u128, uid: Seq<char>|
            {
                &&& is_uuid_v4_text(uid)
                &&& r->Ok_0@ == compact_token(
                    secret@,
                    claims_json(project_name(), timestamp as nat, uid),
                )
                &&& segments_are_b64url(
                    secret@,
                    claims_json(project_name(), timestamp as nat, uid),
                )
            },
{
    let timestamp = match current_timestamp() {
        Ok(t) => t,
        Err(e) => return Err(e),
    };
    let claims = Claims::new(timestamp, new_uid());
    sign_claims(secret, &claims)
}

} // verus!
