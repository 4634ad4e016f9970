//! The authorization gate: from the `Authorization` header of a request to a
//! decision, in two steps with the lookup of the identity between them.
//!
//! It reads the header, takes the credential out of it and verifies it
//! as a token. Where that succeeds it hands the claims out, so that the
//! caller can ask the identity store whether a user with both names is
//! registered; the answer decides.

use crate::claims::{claims_survive_payload, payload_entries, Claims, ClaimsView};
use crate::clock::current_time;
use crate::header::{
    chars_of, credential_of, credential_text, credential_text_of, is_text, is_text_byte, is_word,
    scheme_alone, scheme_and_credential,
};
use crate::token::{
    decoded, sealed, verification, verify_at, viewed_result, VerificationError,
};
use vstd::prelude::*;

verus! {

/// Why a request was let through or turned away.
#[derive(Debug, Clone, Copy, PartialEq, Eq, Structural)]
pub enum Reason {
    /// The token holds and its identity is registered.
    Valid,
    /// The request has no `Authorization` header.
    MissingToken,
    /// The header does not read as text or holds no credential.
    MalformedHeader,
    /// The credential is no token of this service, or one that has expired.
    InvalidSignatureOrExpired,
    /// No user with the token's two names is registered, or the lookup
    /// failed.
    UnknownIdentity,
}

/// The decision on one request.
#[derive(Debug, Clone, Copy, PartialEq, Eq, Structural)]
pub struct AuthorizationDecision {
    pub allowed: bool,
    pub reason: Reason,
}

/// The decision that goes with a reason: allowed exactly for `Valid`.
pub open spec fn decision_for(reason: Reason) -> AuthorizationDecision {
    AuthorizationDecision { allowed: reason == Reason::Valid, reason }
}

/// The HTTP status that goes with a reason.
pub open spec fn status_of(reason: Reason) -> u16 {
    match reason {
        Reason::Valid => 200,
        Reason::InvalidSignatureOrExpired | Reason::UnknownIdentity => 401,
        Reason::MissingToken | Reason::MalformedHeader => 403,
    }
}

/// The message that goes with a reason.
pub open spec fn message_of(reason: Reason) -> Seq<char> {
    match reason {
        Reason::Valid => "Valid User"@,
        Reason::MissingToken => "Please add the JWT token to the header"@,
        Reason::MalformedHeader => "Empty header is not allowed"@,
        Reason::InvalidSignatureOrExpired => "Please add the JWT token to the header"@,
        Reason::UnknownIdentity => "Unauthorized User"@,
    }
}

impl AuthorizationDecision {
    /// A request is allowed exactly when the reason is `Valid`.
    pub open spec fn well_formed(self) -> bool {
        self.allowed == (self.reason == Reason::Valid)
    }

    /// The decision that goes with a reason.
    pub fn new(reason: Reason) -> (decision: AuthorizationDecision)
        ensures
            decision == decision_for(reason),
            decision.well_formed(),
    {
        AuthorizationDecision { allowed: reason == Reason::Valid, reason }
    }

    /// The HTTP status of the response: 200 for a request that passes, 401
    /// for a token or an identity that does not hold, 403 for a header that
    /// is missing or malformed.
    pub fn status_code(&self) -> (status: u16)
        ensures
            status == status_of(self.reason),
    {
        match self.reason {
            Reason::Valid => 200,
            Reason::InvalidSignatureOrExpired => 401,
            Reason::UnknownIdentity => 401,
            Reason::MissingToken => 403,
            Reason::MalformedHeader => 403,
        }
    }

    /// The message of the response.
    pub fn message(&self) -> (message: String)
        ensures
            message@ == message_of(self.reason),
    {
        match self.reason {
            Reason::Valid => "Valid User".to_owned(),
            Reason::MissingToken => "Please add the JWT token to the header".to_owned(),
            Reason::MalformedHeader => "Empty header is not allowed".to_owned(),
            Reason::InvalidSignatureOrExpired => "Please add the JWT token to the header".to_owned(),
            Reason::UnknownIdentity => "Unauthorized User".to_owned(),
        }
    }
}

/// Where a request stands after the first step.
#[derive(Debug, Clone, PartialEq, Eq)]
pub enum GateStep {
    /// The request is turned away.
    Decided(AuthorizationDecision),
    /// The token holds; whether its identity is registered is still to be
    /// looked up.
    ConfirmIdentity(Claims),
}

/// The first step as mathematical values.
pub enum GateStepView {
    Decided(AuthorizationDecision),
    ConfirmIdentity(ClaimsView),
}

impl View for GateStep {
    type V = GateStepView;

    open spec fn view(&self) -> GateStepView {
        match self {
            GateStep::Decided(decision) => GateStepView::Decided(*decision),
            GateStep::ConfirmIdentity(claims) => GateStepView::ConfirmIdentity(claims@),
        }
    }
}

/// The header value by its bytes.
pub open spec fn header_view(authorization: Option<&[u8]>) -> Option<Seq<u8>> {
    match authorization {
        Some(value) => Some(value@),
        None => None,
    }
}

/// The step that follows the verifier's result: any refusal turns the request
/// away as `InvalidSignatureOrExpired`; claims go on to the lookup.
pub open spec fn step_after(verified: Result<ClaimsView, VerificationError>) -> GateStepView {
    match verified {
        Ok(claims) => GateStepView::ConfirmIdentity(claims),
        Err(_) => GateStepView::Decided(decision_for(Reason::InvalidSignatureOrExpired)),
    }
}

/// The first step at the time `now`. Without a header the
/// request is turned away as `MissingToken`; with one that does not read as
/// text or holds no credential, as `MalformedHeader`; else the credential is
/// verified as a token under `secret`.
pub open spec fn gate_step(authorization: Option<Seq<u8>>, secret: Seq<char>, now: int) -> GateStepView {
    match authorization {
        None => GateStepView::Decided(decision_for(Reason::MissingToken)),
        Some(value) => match credential_text_of(value) {
            None => GateStepView::Decided(decision_for(Reason::MalformedHeader)),
            Some(token) => step_after(verification(decoded(token, secret), now)),
        },
    }
}

/// The decision of the whole gate, where `registered` says whether the
/// identity store holds a user with both names of the claims.
pub open spec fn gate_decision(
    authorization: Option<Seq<u8>>,
    secret: Seq<char>,
    now: int,
    registered: bool,
) -> AuthorizationDecision {
    match gate_step(authorization, secret, now) {
        GateStepView::Decided(decision) => decision,
        GateStepView::ConfirmIdentity(_) => identity_decision(registered),
    }
}

/// The decision after the lookup: `Valid` for a registered identity,
/// `UnknownIdentity` else.
pub open spec fn identity_decision(registered: bool) -> AuthorizationDecision {
    if registered {
        decision_for(Reason::Valid)
    } else {
        decision_for(Reason::UnknownIdentity)
    }
}

/// The step that follows the verifier's result.
pub fn after_verification(verified: Result<Claims, VerificationError>) -> (step: GateStep)
    ensures
        step@ == step_after(viewed_result(verified)),
{
    match verified {
        Ok(claims) => GateStep::ConfirmIdentity(claims),
        Err(_) => GateStep::Decided(AuthorizationDecision::new(Reason::InvalidSignatureOrExpired)),
    }
}

/// The first step at the time `now`, for a request with the
/// given `Authorization` header, if it has one.
pub fn authorize_at(secret: &str, authorization: Option<&[u8]>, now: u64) -> (step: GateStep)
    ensures
        step@ == gate_step(header_view(authorization), secret@, now as int),
{
    match authorization {
        None => GateStep::Decided(AuthorizationDecision::new(Reason::MissingToken)),
        Some(value) => match credential_text(value) {
            None => GateStep::Decided(AuthorizationDecision::new(Reason::MalformedHeader)),
            Some(token) => after_verification(verify_at(secret, token.as_str(), now)),
        },
    }
}

/// The first step at the current time.
pub fn authorize(secret: &str, authorization: Option<&[u8]>) -> (step: GateStep)
    ensures
        exists|now: int| step@ == #[trigger] gate_step(header_view(authorization), secret@, now),
{
    let now = current_time();
    let step = authorize_at(secret, authorization, now);
    assert(step@ == gate_step(header_view(authorization), secret@, now as int));
    step
}

/// The second step: the decision once the identity store has
/// said whether the token's identity is registered.
pub fn confirm_identity(registered: bool) -> (decision: AuthorizationDecision)
    ensures
        decision == identity_decision(registered),
        decision.well_formed(),
{
    if registered {
        AuthorizationDecision::new(Reason::Valid)
    } else {
        AuthorizationDecision::new(Reason::UnknownIdentity)
    }
}

/// Every decision is well formed: a request passes exactly when
/// the reason is `Valid`, and that takes a verified token and a registered
/// identity.
pub proof fn gate_allows_only_registered_identities(
    authorization: Option<Seq<u8>>,
    secret: Seq<char>,
    now: int,
    registered: bool,
)
    ensures
        gate_decision(authorization, secret, now, registered).well_formed(),
        gate_decision(authorization, secret, now, registered).allowed <==> registered && gate_step(
            authorization,
            secret,
            now,
        ) is ConfirmIdentity,
{
}

/// A request without an `Authorization` header is turned away as
/// `MissingToken`, whatever else holds.
pub proof fn missing_header_is_missing_token(secret: Seq<char>, now: int, registered: bool)
    ensures
        gate_decision(None, secret, now, registered) == decision_for(Reason::MissingToken),
        !gate_decision(None, secret, now, registered).allowed,
{
}

/// A request whose header is a single word, a scheme without a credential,
/// is turned away as `MalformedHeader`.
pub proof fn lone_scheme_is_malformed(scheme: Seq<u8>, secret: Seq<char>, now: int, registered: bool)
    requires
        is_word(scheme),
    ensures
        gate_decision(Some(scheme), secret, now, registered) == decision_for(
            Reason::MalformedHeader,
        ),
{
    scheme_alone(scheme);
}

/// A request whose header is a scheme, a blank and a token that carries
/// claims and has not expired reaches the lookup with those claims. It
/// passes as `Valid` when the identity is registered and is turned away as
/// `UnknownIdentity` when it is not.
pub proof fn token_in_header_reaches_the_lookup(
    scheme: Seq<u8>,
    token: Seq<u8>,
    secret: Seq<char>,
    claims: ClaimsView,
    now: int,
)
    requires
        is_word(scheme),
        is_word(token),
        claims.representable(),
        sealed(chars_of(token), secret, payload_entries(claims)),
        now < claims.exp,
    ensures
        gate_step(Some(scheme + seq![32u8] + token), secret, now) == GateStepView::ConfirmIdentity(
            claims,
        ),
        gate_decision(Some(scheme + seq![32u8] + token), secret, now, true) == decision_for(
            Reason::Valid,
        ),
        gate_decision(Some(scheme + seq![32u8] + token), secret, now, false) == decision_for(
            Reason::UnknownIdentity,
        ),
{
    let value = scheme + seq![32u8] + token;
    scheme_and_credential(scheme, token);
    assert forall|i: int| 0 <= i < value.len() implies is_text_byte(#[trigger] value[i]) by {
        if i < scheme.len() {
            assert(value[i] == scheme[i]);
        } else if i > scheme.len() {
            assert(value[i] == token[i - scheme.len() - 1]);
        }
    }
    assert(is_text(value));
    assert(credential_of(value) == Some(token));
    claims_survive_payload(claims);
}

} // verus!
