//! Issuing and verifying tokens.
//!
//! A token is the compact form of a JSON web token, signed with HMAC-SHA256
//! under one shared secret. Signing and opening are left to `jsonwebtoken`;
//! what is signed, what an opened token must hold and when it has expired are
//! decided here.

use crate::claims::{
    claims_at, claims_in, claims_payload, claims_survive_payload, payload_claims, payload_entries,
    payload_tells_claims_apart, viewed, Claims, ClaimsView, VALIDITY_SECONDS,
};
use crate::clock::current_time;
use crate::payload::{object_entries, Entry, JsonObject};
use vstd::prelude::*;

verus! {

/// `jsonwebtoken::errors::Error`, carried through as an opaque value.
#[verifier::external_type_specification]
#[verifier::external_body]
pub struct ExTokenError(jsonwebtoken::errors::Error);

/// Why a token could not be opened.
#[derive(Debug, Clone, Copy, PartialEq, Eq, Structural)]
pub enum DecodeFault {
    /// The signature does not belong to the token's header and claims under
    /// the secret.
    Signature,
    /// The text is no token of three parts with a readable header signed with
    /// HMAC-SHA256, or its claims are no JSON object.
    Structure,
}

/// Why no token was issued.
#[derive(Debug, Clone, Copy, PartialEq, Eq, Structural)]
pub enum SigningError {
    /// The time of issue, or the expiry that follows from it, does not fit
    /// the claims.
    TimeOutOfRange,
    /// The signing library gave no token.
    Rejected,
}

/// Why a token was not accepted.
#[derive(Debug, Clone, Copy, PartialEq, Eq, Structural)]
pub enum VerificationError {
    /// The text is no token, or its claims are not those of this service.
    Malformed,
    /// The token was not signed with the secret.
    BadSignature,
    /// The token's expiry has been reached.
    Expired,
}

/// What `jsonwebtoken::decode` makes of a text under a secret, when it checks
/// the HMAC-SHA256 signature and nothing about the claims: the members of
/// the claims object, or the fault.
pub uninterp spec fn decoded(token: Seq<char>, secret: Seq<char>) -> Result<
    Map<Seq<char>, Entry>,
    DecodeFault,
>;

/// The token that `jsonwebtoken::encode` makes of a claims object under a
/// secret, with the default header; `None` where it gives an error.
pub uninterp spec fn signed_token(entries: Map<Seq<char>, Entry>, secret: Seq<char>) -> Option<
    Seq<char>,
>;

/// The text of the token that signing returned, if it returned one.
pub open spec fn token_text(signed: Result<String, jsonwebtoken::errors::Error>) -> Option<
    Seq<char>,
> {
    match signed {
        Ok(token) => Some(token@),
        Err(_) => None,
    }
}

/// The outcome of opening a token, with the object taken by its members.
pub open spec fn outcome_of(opened: Result<JsonObject, DecodeFault>) -> Result<
    Map<Seq<char>, Entry>,
    DecodeFault,
> {
    match opened {
        Ok(object) => Ok(object_entries(object)),
        Err(fault) => Err(fault),
    }
}

/// Every member is a number or a string.
pub open spec fn scalar_entries(entries: Map<Seq<char>, Entry>) -> bool {
    forall|key: Seq<char>| entries.contains_key(key) ==> !(#[trigger] entries[key] is Other)
}

/// Where a token's signature starts: behind its last dot (0 without a dot).
pub open spec fn signature_start(token: Seq<char>) -> int
    decreases token.len(),
{
    if token.len() == 0 {
        0
    } else if token.last() == '.' {
        token.len() as int
    } else {
        signature_start(token.drop_last())
    }
}

/// The signature part of a token.
pub open spec fn signature_of(token: Seq<char>) -> Seq<char> {
    token.skip(signature_start(token))
}

/// The token with another text in place of its signature.
pub open spec fn with_signature(token: Seq<char>, other: Seq<char>) -> Seq<char> {
    token.take(signature_start(token)) + other
}

/// `token` is a token that carries `entries`, signed under `secret`: it opens
/// to them, and with any other dot-free text in place of its signature it is
/// refused for its signature.
pub open spec fn sealed(token: Seq<char>, secret: Seq<char>, entries: Map<Seq<char>, Entry>) -> bool {
    &&& decoded(token, secret) == Ok::<Map<Seq<char>, Entry>, DecodeFault>(entries)
    &&& forall|other: Seq<char>|
        !other.contains('.') && other != signature_of(token) ==> #[trigger] decoded(
            with_signature(token, other),
            secret,
        ) == Err::<Map<Seq<char>, Entry>, DecodeFault>(DecodeFault::Signature)
}

/// `jsonwebtoken::encode` with the default header (HMAC-SHA256) and the
/// secret's bytes as key. The crate writes the header and the object as
/// JSON, the object's members in the order of their keys, each in
/// base64url, joins them with a dot, and appends a dot and the HMAC of that
/// text; so what comes back depends on the members and the secret alone. Its
/// `decode` splits at the last dot and compares the signature with the HMAC
/// it computes itself. So a token that comes back opens under the same
/// secret to the members that went in, and is refused for its signature once
/// that is replaced. Nothing is claimed about when a token comes back.
#[verifier::external_body]
pub(crate) fn sign_object(object: &JsonObject, secret: &str) -> (signed: Result<
    String,
    jsonwebtoken::errors::Error,
>)
    requires
        scalar_entries(object_entries(*object)),
    ensures
        token_text(signed) == signed_token(object_entries(*object), secret@),
        signed matches Ok(token) ==> sealed(token@, secret@, object_entries(*object)),
{
    let key = jsonwebtoken::EncodingKey::from_secret(secret.as_bytes());
    jsonwebtoken::encode(&jsonwebtoken::Header::default(), object, &key)
}

/// `jsonwebtoken::decode` into a JSON object, with the secret's bytes as key
/// and HMAC-SHA256 as the one algorithm admitted. The validation of claims
/// that the crate offers is switched off, so the clock is not read and the
/// outcome depends on the two texts alone. Of the crate's errors only
/// `InvalidSignature` is told apart.
#[verifier::external_body]
pub(crate) fn open_token(token: &str, secret: &str) -> (opened: Result<JsonObject, DecodeFault>)
    ensures
        outcome_of(opened) == decoded(token@, secret@),
{
    let mut rules = jsonwebtoken::Validation::new(jsonwebtoken::Algorithm::HS256);
    rules.validate_exp = false;
    rules.validate_aud = false;
    rules.required_spec_claims.clear();
    let key = jsonwebtoken::DecodingKey::from_secret(secret.as_bytes());
    match jsonwebtoken::decode::<JsonObject>(token, &key, &rules) {
        Ok(data) => Ok(data.claims),
        Err(error) => match error.kind() {
            jsonwebtoken::errors::ErrorKind::InvalidSignature => Err(DecodeFault::Signature),
            _ => Err(DecodeFault::Structure),
        },
    }
}

/// Whether claims issued at `now` fit the claims' fields on this machine.
pub open spec fn issuable(now: int) -> bool {
    0 <= now && now + VALIDITY_SECONDS <= usize::MAX
}

/// The claims of a token issued at `now`, `None` where they do not fit.
pub fn new_claims(licence: &String, username: &String, now: u64) -> (claims: Option<Claims>)
    ensures
        issuable(now as int) ==> viewed(claims) == Some(claims_at(licence@, username@, now as nat)),
        !issuable(now as int) ==> claims is None,
{
    if now > usize::MAX as u64 - VALIDITY_SECONDS as u64 {
        return None;
    }
    let iat = now as usize;
    Some(
        Claims {
            exp: iat + VALIDITY_SECONDS,
            iat,
            licence: licence.clone(),
            username: username.clone(),
        },
    )
}

/// What the issuer returns for what signing returned: the token, or
/// `Rejected` where there is none.
pub open spec fn issue_result(signed: Option<Seq<char>>) -> Result<Seq<char>, SigningError> {
    match signed {
        Some(token) => Ok(token),
        None => Err(SigningError::Rejected),
    }
}

/// What the issuer returns at the time `now`: `TimeOutOfRange` where the
/// claims do not fit; else what signing the claims' object gives.
pub open spec fn issuance(
    secret: Seq<char>,
    licence: Seq<char>,
    username: Seq<char>,
    now: int,
) -> Result<Seq<char>, SigningError> {
    if issuable(now) {
        issue_result(signed_token(payload_entries(claims_at(licence, username, now as nat)), secret))
    } else {
        Err(SigningError::TimeOutOfRange)
    }
}

/// The issuer's result with the token taken by its text.
pub open spec fn issued_text(issued: Result<String, SigningError>) -> Result<
    Seq<char>,
    SigningError,
> {
    match issued {
        Ok(token) => Ok(token@),
        Err(error) => Err(error),
    }
}

/// What the issuer returns for what the signing library returned.
pub fn signing_outcome(signed: Result<String, jsonwebtoken::errors::Error>) -> (issued: Result<
    String,
    SigningError,
>)
    ensures
        issued_text(issued) == issue_result(token_text(signed)),
        signed matches Ok(token) ==> (issued matches Ok(given) && given == token),
{
    match signed {
        Ok(token) => Ok(token),
        Err(_) => Err(SigningError::Rejected),
    }
}

/// Issues a token to `username` with `licence` at the time `now`. The token
/// carries the two names, `now` as time of issue and an expiry five days
/// later. Fails with `TimeOutOfRange` exactly when those times do not fit
/// the claims, and with `Rejected` exactly when they fit and the signing
/// library gives no token.
pub fn issue_at(secret: &str, licence: &String, username: &String, now: u64) -> (issued: Result<
    String,
    SigningError,
>)
    ensures
        issued_text(issued) == issuance(secret@, licence@, username@, now as int),
        issued matches Ok(token) ==> sealed(
            token@,
            secret@,
            payload_entries(claims_at(licence@, username@, now as nat)),
        ),
{
    match new_claims(licence, username, now) {
        None => Err(SigningError::TimeOutOfRange),
        Some(claims) => {
            let object = claims_payload(&claims);
            signing_outcome(sign_object(&object, secret))
        },
    }
}

/// `token` is what the issuer returned at some time, and, where it is a
/// token, one that carries the claims of that time, signed under `secret`.
pub open spec fn issued_at_some_time(
    issued: Result<Seq<char>, SigningError>,
    secret: Seq<char>,
    licence: Seq<char>,
    username: Seq<char>,
) -> bool {
    exists|now: nat|
        {
            &&& issued == #[trigger] issuance(secret, licence, username, now as int)
            &&& issued matches Ok(token) ==> sealed(
                token,
                secret,
                payload_entries(claims_at(licence, username, now)),
            )
        }
}

/// Issues a token to `user_name` with `licence_plate` at the current time.
pub fn encode_jwt(secret: &str, licence_plate: &String, user_name: &String) -> (issued: Result<
    String,
    SigningError,
>)
    ensures
        issued_at_some_time(issued_text(issued), secret@, licence_plate@, user_name@),
{
    let now = current_time();
    let issued = issue_at(secret, licence_plate, user_name, now);
    assert(issued_text(issued) == issuance(secret@, licence_plate@, user_name@, now as nat as int));
    issued
}

/// What the verifier returns at the time `now` for an opened token: the
/// fault of the opening as `BadSignature` or `Malformed`; `Malformed` where
/// the object holds no claims; `Expired` where the expiry is not after
/// `now`; else the claims.
pub open spec fn verification(
    outcome: Result<Map<Seq<char>, Entry>, DecodeFault>,
    now: int,
) -> Result<ClaimsView, VerificationError> {
    match outcome {
        Err(DecodeFault::Signature) => Err(VerificationError::BadSignature),
        Err(DecodeFault::Structure) => Err(VerificationError::Malformed),
        Ok(entries) => match claims_in(entries) {
            None => Err(VerificationError::Malformed),
            Some(claims) => if claims.exp <= now {
                Err(VerificationError::Expired)
            } else {
                Ok(claims)
            },
        },
    }
}

/// The verifier's result that accepts a token with these claims.
pub open spec fn accepted(claims: ClaimsView) -> Result<ClaimsView, VerificationError> {
    Ok(claims)
}

/// The verifier's result that refuses a token.
pub open spec fn refused(error: VerificationError) -> Result<ClaimsView, VerificationError> {
    Err(error)
}

/// The verifier's result with the claims taken by their view.
pub open spec fn viewed_result(result: Result<Claims, VerificationError>) -> Result<
    ClaimsView,
    VerificationError,
> {
    match result {
        Ok(claims) => Ok(claims@),
        Err(error) => Err(error),
    }
}

/// Decides on an opened token at the time `now`.
pub fn verify_decoded(opened: Result<JsonObject, DecodeFault>, now: u64) -> (result: Result<
    Claims,
    VerificationError,
>)
    ensures
        viewed_result(result) == verification(outcome_of(opened), now as int),
{
    match opened {
        Err(DecodeFault::Signature) => Err(VerificationError::BadSignature),
        Err(DecodeFault::Structure) => Err(VerificationError::Malformed),
        Ok(object) => match payload_claims(&object) {
            None => Err(VerificationError::Malformed),
            Some(claims) => {
                if claims.exp as u64 <= now {
                    Err(VerificationError::Expired)
                } else {
                    Ok(claims)
                }
            },
        },
    }
}

/// Verifies a token at the time `now`: its signature under `secret`, its
/// claims, and that its expiry lies after `now`.
pub fn verify_at(secret: &str, token: &str, now: u64) -> (result: Result<Claims, VerificationError>)
    ensures
        viewed_result(result) == verification(decoded(token@, secret@), now as int),
{
    verify_decoded(open_token(token, secret), now)
}

/// Verifies a token at the current time.
pub fn decode_jwt(secret: &str, jwt_token: String) -> (result: Result<Claims, VerificationError>)
    ensures
        exists|now: int| viewed_result(result) == #[trigger] verification(
            decoded(jwt_token@, secret@),
            now,
        ),
{
    let now = current_time();
    let result = verify_at(secret, jwt_token.as_str(), now);
    assert(viewed_result(result) == verification(decoded(jwt_token@, secret@), now as int));
    result
}

/// A token verifies to the claims it carries at every time before their
/// expiry, and is refused as expired at the expiry and at every time after
/// it.
pub proof fn expiry_is_the_boundary(
    token: Seq<char>,
    secret: Seq<char>,
    claims: ClaimsView,
    now: int,
)
    requires
        claims.representable(),
        sealed(token, secret, payload_entries(claims)),
    ensures
        now < claims.exp ==> verification(decoded(token, secret), now) == accepted(claims),
        now >= claims.exp ==> verification(decoded(token, secret), now) == refused(VerificationError::Expired),
{
    claims_survive_payload(claims);
}

/// A token issued to an identity verifies, at every time before its expiry,
/// to the claims it was issued with: the two names, the time of issue, and an
/// expiry five days later.
pub proof fn issued_token_verifies(
    token: Seq<char>,
    secret: Seq<char>,
    licence: Seq<char>,
    username: Seq<char>,
    issued_at: nat,
    now: int,
)
    requires
        issuable(issued_at as int),
        sealed(token, secret, payload_entries(claims_at(licence, username, issued_at))),
        now < issued_at + VALIDITY_SECONDS,
    ensures
        verification(decoded(token, secret), now) == accepted(
            claims_at(licence, username, issued_at),
        ),
        claims_at(licence, username, issued_at).well_formed(),
{
    expiry_is_the_boundary(token, secret, claims_at(licence, username, issued_at), now);
}

/// A token whose signature was replaced by any other text without a dot is
/// refused with `BadSignature`, whatever the time. The signature with one bit
/// of one character changed is such a text, unless the change makes a dot.
pub proof fn replaced_signature_is_refused(
    token: Seq<char>,
    secret: Seq<char>,
    entries: Map<Seq<char>, Entry>,
    other: Seq<char>,
    now: int,
)
    requires
        sealed(token, secret, entries),
        !other.contains('.'),
        other != signature_of(token),
    ensures
        verification(decoded(with_signature(token, other), secret), now) == refused(VerificationError::BadSignature),
{
}

/// Two tokens issued to one identity at different times differ, and each
/// verifies until its own expiry.
pub proof fn tokens_of_different_times_differ(
    secret: Seq<char>,
    licence: Seq<char>,
    username: Seq<char>,
    first_time: nat,
    first_token: Seq<char>,
    second_time: nat,
    second_token: Seq<char>,
)
    requires
        issuable(first_time as int),
        issuable(second_time as int),
        first_time != second_time,
        sealed(first_token, secret, payload_entries(claims_at(licence, username, first_time))),
        sealed(second_token, secret, payload_entries(claims_at(licence, username, second_time))),
    ensures
        first_token != second_token,
        forall|now: int|
            now < first_time + VALIDITY_SECONDS ==> #[trigger] verification(
                decoded(first_token, secret),
                now,
            ) == accepted(claims_at(licence, username, first_time)),
        forall|now: int|
            now < second_time + VALIDITY_SECONDS ==> #[trigger] verification(
                decoded(second_token, secret),
                now,
            ) == accepted(claims_at(licence, username, second_time)),
{
    let first = claims_at(licence, username, first_time);
    let second = claims_at(licence, username, second_time);
    if first_token == second_token {
        payload_tells_claims_apart(first, second);
    }
    assert forall|now: int| now < first_time + VALIDITY_SECONDS implies #[trigger] verification(
        decoded(first_token, secret),
        now,
    ) == accepted(first) by {
        expiry_is_the_boundary(first_token, secret, first, now);
    }
    assert forall|now: int| now < second_time + VALIDITY_SECONDS implies #[trigger] verification(
        decoded(second_token, secret),
        now,
    ) == accepted(second) by {
        expiry_is_the_boundary(second_token, secret, second, now);
    }
}

} // verus!
