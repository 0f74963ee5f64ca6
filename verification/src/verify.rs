//! Verification of the identity provider's signed tokens.
//!
//! A token is checked in the order the provider prescribes: its header
//! names a signing key id; the key is resolved through the key cache;
//! the RSA-SHA256 signature is checked under that key; and finally the
//! claims are validated against the configured audience, the provider's
//! two issuer strings, and the clock.  The token parsing primitives
//! come from the jsonwebtoken crate and the signature check from the
//! rsa crate, both behind trusted wrappers; everything that decides
//! acceptance is verified here.

use vstd::prelude::*;

use base64::engine::general_purpose::URL_SAFE_NO_PAD;
use base64::Engine;
use rsa::pkcs1v15::{Signature, VerifyingKey};
use rsa::sha2::Sha256;
use rsa::signature::Verifier;
use rsa::{BigUint, RsaPublicKey};

use crate::errors::{AuthError, ClaimReason};
use crate::keys::{KeyCache, SigningKey};

verus! {

/// The request body of the login endpoint: one opaque signed token.
pub struct TokenPayload {
    credential: String,
}

impl TokenPayload {
    /// The token text, for specifications.
    pub closed spec fn spec_credential(self) -> Seq<char> {
        self.credential@
    }

    pub fn new(credential: String) -> (r: TokenPayload)
        ensures
            r.spec_credential() == credential@,
    {
        TokenPayload { credential }
    }

    pub fn credential(&self) -> (r: &String)
        ensures
            r@ == self.spec_credential(),
    {
        &self.credential
    }
}

/// The identity claims carried by a verified token.  Transient: they
/// are produced here and consumed once by the reconciler.
#[derive(Debug)]
pub struct GoogleClaims {
    pub sub: String,
    pub email: String,
    pub name: String,
    pub picture: String,
    pub exp: u64,
    pub iss: String,
    pub aud: String,
    pub issued_at: i64,
}

/// The mathematical content of a claims record.
pub ghost struct ClaimsView {
    pub sub: Seq<char>,
    pub email: Seq<char>,
    pub name: Seq<char>,
    pub picture: Seq<char>,
    pub exp: u64,
    pub iss: Seq<char>,
    pub aud: Seq<char>,
    pub issued_at: i64,
}

impl View for GoogleClaims {
    type V = ClaimsView;

    open spec fn view(&self) -> ClaimsView {
        ClaimsView {
            sub: self.sub@,
            email: self.email@,
            name: self.name@,
            picture: self.picture@,
            exp: self.exp,
            iss: self.iss@,
            aud: self.aud@,
            issued_at: self.issued_at,
        }
    }
}

impl Clone for GoogleClaims {
    fn clone(&self) -> (r: Self)
        ensures
            r@ == self@,
    {
        GoogleClaims {
            sub: self.sub.clone(),
            email: self.email.clone(),
            name: self.name.clone(),
            picture: self.picture.clone(),
            exp: self.exp,
            iss: self.iss.clone(),
            aud: self.aud.clone(),
            issued_at: self.issued_at,
        }
    }
}

/// The signing key id named by a token's header, if the token text is
/// a well-formed token whose header carries one.
pub uninterp spec fn jwt_header_kid(token: Seq<char>) -> Option<Seq<char>>;

/// Whether the token carries a signature part and its RSA-SHA256
/// (PKCS#1 v1.5) signature over everything before the last dot
/// verifies under the public key with the given modulus and exponent
/// (all three base64url text).
pub uninterp spec fn rs256_valid(token: Seq<char>, modulus: Seq<char>, exponent: Seq<char>) -> bool;

/// The text of the named claim in the token's payload, if the payload
/// decodes and carries that claim as a string.
pub uninterp spec fn jwt_claim_string(token: Seq<char>, name: Seq<char>) -> Option<Seq<char>>;

/// The value of the named claim in the token's payload, if the payload
/// decodes and carries that claim as an integer.
pub uninterp spec fn jwt_claim_int(token: Seq<char>, name: Seq<char>) -> Option<i64>;

pub open spec fn view_opt_string(o: Option<String>) -> Option<Seq<char>> {
    match o {
        Some(s) => Some(s@),
        None => None,
    }
}

/// Relies on jsonwebtoken::decode_header: parses the token's unsigned
/// header without touching the signature, and hands back its key id.
#[verifier::external_body]
fn header_kid(token: &str) -> (r: Option<String>)
    ensures
        view_opt_string(r) == jwt_header_kid(token@),
{
    match jsonwebtoken::decode_header(token) {
        Ok(h) => h.kid,
        Err(_) => None,
    }
}

/// Relies on base64's URL_SAFE_NO_PAD engine, rsa::RsaPublicKey::new,
/// rsa::pkcs1v15::{VerifyingKey, Signature} and rsa::signature's
/// Verifier: decodes the signature part and the key components out of
/// base64url and checks the RSA-SHA256 (PKCS#1 v1.5) signature over
/// everything before the token's last dot, the scheme the provider
/// signs its tokens under.  The claim checks are done by verified
/// code instead.
#[verifier::external_body]
fn signature_valid(token: &str, modulus: &str, exponent: &str) -> (r: bool)
    ensures
        r == rs256_valid(token@, modulus@, exponent@),
{
    let (msg, sig64) = match token.rsplit_once('.') { Some(p) => p, None => return false };
    let parts = (URL_SAFE_NO_PAD.decode(sig64), URL_SAFE_NO_PAD.decode(modulus), URL_SAFE_NO_PAD.decode(exponent));
    let (sig, n, e) = match parts { (Ok(s), Ok(n), Ok(e)) => (s, n, e), _ => return false };
    let key = match RsaPublicKey::new(BigUint::from_bytes_be(&n), BigUint::from_bytes_be(&e)) { Ok(k) => k, Err(_) => return false };
    let sig = match Signature::try_from(sig.as_slice()) { Ok(s) => s, Err(_) => return false };
    Verifier::verify(&VerifyingKey::<Sha256>::new(key), msg.as_bytes(), &sig).is_ok()
}

/// Relies on jsonwebtoken::dangerous::insecure_decode_claims, serde_json::Value::get
/// and the Value::String variant: decodes the token's payload without
/// validating anything and hands back the named string claim.
#[verifier::external_body]
fn claim_string(token: &str, name: &str) -> (r: Option<String>)
    ensures
        view_opt_string(r) == jwt_claim_string(token@, name@),
{
    let claims: serde_json::Value = match jsonwebtoken::dangerous::insecure_decode_claims(token) {
        Ok(v) => v,
        Err(_) => return None,
    };
    match claims.get(name) {
        Some(serde_json::Value::String(s)) => Some(s.clone()),
        _ => None,
    }
}

/// Relies on jsonwebtoken::dangerous::insecure_decode_claims, serde_json::Value::get
/// and serde_json::Value::as_i64: decodes the token's payload without
/// validating anything and hands back the named integer claim.
#[verifier::external_body]
fn claim_int(token: &str, name: &str) -> (r: Option<i64>)
    ensures
        r == jwt_claim_int(token@, name@),
{
    let claims: serde_json::Value = match jsonwebtoken::dangerous::insecure_decode_claims(token) {
        Ok(v) => v,
        Err(_) => return None,
    };
    match claims.get(name) {
        Some(v) => v.as_i64(),
        None => None,
    }
}

/// The claims record a token's payload decodes to, if every claim the
/// core consumes is present and of the right shape.
pub open spec fn spec_decode_claims(token: Seq<char>) -> Option<ClaimsView> {
    if jwt_claim_string(token, "sub"@) is Some && jwt_claim_string(token, "email"@) is Some
        && jwt_claim_string(token, "name"@) is Some && jwt_claim_string(token, "picture"@) is Some
        && jwt_claim_string(token, "iss"@) is Some && jwt_claim_string(token, "aud"@) is Some && (
    jwt_claim_int(token, "exp"@) matches Some(e) && e >= 0) && jwt_claim_int(token, "iat"@)
        is Some {
        Some(
            ClaimsView {
                sub: jwt_claim_string(token, "sub"@).unwrap(),
                email: jwt_claim_string(token, "email"@).unwrap(),
                name: jwt_claim_string(token, "name"@).unwrap(),
                picture: jwt_claim_string(token, "picture"@).unwrap(),
                exp: jwt_claim_int(token, "exp"@).unwrap() as u64,
                iss: jwt_claim_string(token, "iss"@).unwrap(),
                aud: jwt_claim_string(token, "aud"@).unwrap(),
                issued_at: jwt_claim_int(token, "iat"@).unwrap(),
            },
        )
    } else {
        None
    }
}

pub open spec fn view_opt_claims(o: Option<GoogleClaims>) -> Option<ClaimsView> {
    match o {
        Some(c) => Some(c@),
        None => None,
    }
}

/// Decodes the claims the core consumes out of a token's payload.
/// Returns None exactly when one of them is missing or ill-shaped.
pub fn decode_claims(token: &str) -> (r: Option<GoogleClaims>)
    ensures
        view_opt_claims(r) == spec_decode_claims(token@),
{
    let sub = match claim_string(token, "sub") {
        Some(s) => s,
        None => return None,
    };
    let email = match claim_string(token, "email") {
        Some(s) => s,
        None => return None,
    };
    let name = match claim_string(token, "name") {
        Some(s) => s,
        None => return None,
    };
    let picture = match claim_string(token, "picture") {
        Some(s) => s,
        None => return None,
    };
    let iss = match claim_string(token, "iss") {
        Some(s) => s,
        None => return None,
    };
    let aud = match claim_string(token, "aud") {
        Some(s) => s,
        None => return None,
    };
    let exp_signed = match claim_int(token, "exp") {
        Some(v) => v,
        None => return None,
    };
    if exp_signed < 0 {
        return None;
    }
    let issued_at = match claim_int(token, "iat") {
        Some(v) => v,
        None => return None,
    };
    Some(
        GoogleClaims {
            sub,
            email,
            name,
            picture,
            exp: exp_signed as u64,
            iss,
            aud,
            issued_at,
        },
    )
}

/// The two issuer strings the provider signs tokens under.
pub open spec fn accepted_issuer(iss: Seq<char>) -> bool {
    iss == "https://accounts.google.com"@ || iss == "accounts.google.com"@
}

/// How a decoded claims record is judged at time `now` (seconds since
/// the epoch) against the configured audience: audience first, then
/// issuer, then expiry, strictly and with no leeway.
pub open spec fn spec_validate(c: ClaimsView, expected_aud: Seq<char>, now: u64) -> Result<
    (),
    AuthError,
> {
    if c.aud != expected_aud {
        Err(AuthError::ClaimRejected(ClaimReason::WrongAudience))
    } else if !accepted_issuer(c.iss) {
        Err(AuthError::ClaimRejected(ClaimReason::WrongIssuer))
    } else if c.exp <= now {
        Err(AuthError::ClaimRejected(ClaimReason::Expired))
    } else {
        Ok(())
    }
}

/// Validates a decoded claims record: the audience must equal the
/// configured one exactly, the issuer must be one of the provider's
/// two accepted strings, and the expiry must lie in the future.
pub fn validate_claims(claims: &GoogleClaims, expected_aud: &String, now: u64) -> (r: Result<
    (),
    AuthError,
>)
    ensures
        r == spec_validate(claims@, expected_aud@, now),
{
    if !(claims.aud == *expected_aud) {
        return Err(AuthError::ClaimRejected(ClaimReason::WrongAudience));
    }
    let iss_ok = claims.iss == "https://accounts.google.com".to_owned() || claims.iss
        == "accounts.google.com".to_owned();
    if !iss_ok {
        return Err(AuthError::ClaimRejected(ClaimReason::WrongIssuer));
    }
    if claims.exp <= now {
        return Err(AuthError::ClaimRejected(ClaimReason::Expired));
    }
    Ok(())
}

pub open spec fn view_res_claims(r: Result<GoogleClaims, AuthError>) -> Result<
    ClaimsView,
    AuthError,
> {
    match r {
        Ok(c) => Ok(c@),
        Err(e) => Err(e),
    }
}

/// What verifying a token under a resolved key yields: the signature
/// is judged first, then the payload's shape, then the claims.
pub open spec fn spec_verify_with_key(
    token: Seq<char>,
    key: SigningKey,
    expected_aud: Seq<char>,
    now: u64,
) -> Result<ClaimsView, AuthError> {
    if !rs256_valid(token, key.modulus@, key.exponent@) {
        Err(AuthError::InvalidSignature)
    } else {
        match spec_decode_claims(token) {
            None => Err(AuthError::MalformedToken),
            Some(c) => match spec_validate(c, expected_aud, now) {
                Err(e) => Err(e),
                Ok(()) => Ok(c),
            },
        }
    }
}

/// Verifies a token under an already resolved signing key: checks the
/// RSA-SHA256 signature, decodes the claims, and validates them
/// against the configured audience and the clock.
pub fn verify_token_with_key(
    token: &str,
    key: &SigningKey,
    expected_aud: &String,
    now: u64,
) -> (r: Result<GoogleClaims, AuthError>)
    ensures
        view_res_claims(r) == spec_verify_with_key(token@, *key, expected_aud@, now),
{
    if !signature_valid(token, key.modulus.as_str(), key.exponent.as_str()) {
        return Err(AuthError::InvalidSignature);
    }
    let claims = match decode_claims(token) {
        Some(c) => c,
        None => return Err(AuthError::MalformedToken),
    };
    match validate_claims(&claims, expected_aud, now) {
        Err(e) => Err(e),
        Ok(()) => Ok(claims),
    }
}

/// Pulls the signing key id out of a token's header; a token without
/// one cannot be verified and is rejected as malformed.
pub fn extract_kid(token: &str) -> (r: Result<String, AuthError>)
    ensures
        r matches Ok(k) ==> jwt_header_kid(token@) == Some(k@),
        r matches Err(e) ==> e == AuthError::MalformedToken && jwt_header_kid(token@) is None,
{
    match header_kid(token) {
        Some(k) => Ok(k),
        None => Err(AuthError::MalformedToken),
    }
}

/// Where a verification stands after consulting the key cache: either
/// finished, or suspended on a fetch of the provider's current keys.
pub enum VerifyStage {
    Done(Result<GoogleClaims, AuthError>),
    NeedKeyFetch { kid: String },
}

/// Starts verifying a token at time `now` (seconds since the epoch),
/// resolving its key id against the cache as of `cache_now`.  Answers
/// out of a valid cache entry without any fetch; asks for exactly one
/// fetch otherwise.
pub fn verify_begin(
    cache: &KeyCache,
    token: &str,
    expected_aud: &String,
    cache_now: u64,
    now: u64,
) -> (r: VerifyStage)
    ensures
        jwt_header_kid(token@) is None ==> (r matches VerifyStage::Done(res) && res == Err::<
            GoogleClaims,
            AuthError,
        >(AuthError::MalformedToken)),
        jwt_header_kid(token@) matches Some(kid) ==> {
            &&& (cache.spec_lookup(kid, cache_now) matches Some(key) ==> (
            r matches VerifyStage::Done(res) && view_res_claims(res) == spec_verify_with_key(
                token@,
                key,
                expected_aud@,
                now,
            )))
            &&& (cache.spec_lookup(kid, cache_now) is None ==> (
            r matches VerifyStage::NeedKeyFetch { kid: k } && k@ == kid))
        },
{
    let kid = match extract_kid(token) {
        Ok(k) => k,
        Err(e) => return VerifyStage::Done(Err(e)),
    };
    match cache.lookup(&kid, cache_now) {
        Some(key) => VerifyStage::Done(verify_token_with_key(token, &key, expected_aud, now)),
        None => VerifyStage::NeedKeyFetch { kid },
    }
}

/// Finishes a verification that was suspended on a key fetch.  The
/// caller hands in the fetch's outcome: `None` if the fetch failed,
/// else the provider's current key set, which is installed wholesale
/// before the key id is searched once more.
pub fn verify_resume(
    cache: &mut KeyCache,
    token: &str,
    expected_aud: &String,
    kid: &String,
    fetched: Option<Vec<SigningKey>>,
    cache_now: u64,
    now: u64,
) -> (r: Result<GoogleClaims, AuthError>)
    ensures
        fetched is None ==> r == Err::<GoogleClaims, _>(AuthError::UpstreamUnavailable)
            && final(cache).spec_entry() == old(cache).spec_entry(),
        fetched matches Some(keys) ==> (final(cache).spec_entry() matches Some(e) && e.keys@
            == keys@ && e.fetched_at == cache_now && e.ttl == crate::keys::KEY_TTL_SECS),
        fetched matches Some(keys) ==> match crate::keys::find_key(keys@, kid@) {
            None => r == Err::<GoogleClaims, _>(AuthError::KeyNotFound),
            Some(key) => view_res_claims(r) == spec_verify_with_key(
                token@,
                key,
                expected_aud@,
                now,
            ),
        },
{
    let keys = match fetched {
        Some(keys) => keys,
        None => return Err(AuthError::UpstreamUnavailable),
    };
    cache.install(keys, cache_now);
    match cache.lookup(kid, cache_now) {
        Some(key) => verify_token_with_key(token, &key, expected_aud, now),
        None => Err(AuthError::KeyNotFound),
    }
}

} // verus!
