//! The claims that a token carries, and their form as a JSON object.

use crate::payload::{
    empty_object, get_number, get_text, number_at, object_entries, put_number, put_text, text_at,
    Entry, JsonObject,
};
use vstd::prelude::*;

verus! {

/// How long a token stays valid after it was issued: five days, in seconds.
pub const VALIDITY_SECONDS: usize = 432_000;

/// Who a token was issued to, when, and until when it holds. Times are in
/// seconds since the Unix epoch.
#[derive(Debug, Clone, PartialEq, Eq)]
pub struct Claims {
    pub exp: usize,
    pub iat: usize,
    pub licence: String,
    pub username: String,
}

/// The claims as mathematical values.
pub struct ClaimsView {
    pub exp: nat,
    pub iat: nat,
    pub licence: Seq<char>,
    pub username: Seq<char>,
}

impl View for Claims {
    type V = ClaimsView;

    open spec fn view(&self) -> ClaimsView {
        ClaimsView {
            exp: self.exp as nat,
            iat: self.iat as nat,
            licence: self.licence@,
            username: self.username@,
        }
    }
}

impl ClaimsView {
    /// A token expires after it was issued.
    pub open spec fn well_formed(self) -> bool {
        self.exp > self.iat
    }

    /// Both times fit the fields of [`Claims`] on this machine.
    pub open spec fn representable(self) -> bool {
        self.exp <= usize::MAX && self.iat <= usize::MAX
    }
}

/// The claims of a token issued to `username` with `licence` at `now`.
pub open spec fn claims_at(licence: Seq<char>, username: Seq<char>, now: nat) -> ClaimsView {
    ClaimsView { exp: now + VALIDITY_SECONDS as nat, iat: now, licence, username }
}

/// The view of claims that may be absent.
pub open spec fn viewed(claims: Option<Claims>) -> Option<ClaimsView> {
    match claims {
        Some(c) => Some(c@),
        None => None,
    }
}

/// The JSON object that stands for the claims: the members `exp`, `iat`,
/// `licence` and `username`, and no other.
pub open spec fn payload_entries(claims: ClaimsView) -> Map<Seq<char>, Entry> {
    Map::<Seq<char>, Entry>::empty().insert("exp"@, Entry::Number(claims.exp as u64)).insert(
        "iat"@,
        Entry::Number(claims.iat as u64),
    ).insert("licence"@, Entry::Text(claims.licence)).insert(
        "username"@,
        Entry::Text(claims.username),
    )
}

/// The claims that a JSON object holds. It holds claims when `exp` and `iat`
/// are numbers that fit a `usize` and `licence` and `username` are strings;
/// members under other keys are passed over.
pub open spec fn claims_in(entries: Map<Seq<char>, Entry>) -> Option<ClaimsView> {
    match (
        number_at(entries, "exp"@),
        number_at(entries, "iat"@),
        text_at(entries, "licence"@),
        text_at(entries, "username"@),
    ) {
        (Some(exp), Some(iat), Some(licence), Some(username)) => {
            if exp <= usize::MAX && iat <= usize::MAX {
                Some(ClaimsView { exp: exp as nat, iat: iat as nat, licence, username })
            } else {
                None
            }
        },
        _ => None,
    }
}

/// The four keys of a claims object differ from one another.
pub proof fn keys_differ()
    ensures
        "exp"@ != "iat"@,
        "exp"@ != "licence"@,
        "exp"@ != "username"@,
        "iat"@ != "licence"@,
        "iat"@ != "username"@,
        "licence"@ != "username"@,
{
    reveal_strlit("exp");
    reveal_strlit("iat");
    reveal_strlit("licence");
    reveal_strlit("username");
    assert("exp"@.len() == 3 && "iat"@.len() == 3);
    assert("licence"@.len() == 7 && "username"@.len() == 8);
    assert("exp"@[0] == 'e' && "iat"@[0] == 'i');
}

/// Reading the object written for some claims gives the same claims back.
pub proof fn claims_survive_payload(claims: ClaimsView)
    requires
        claims.representable(),
    ensures
        claims_in(payload_entries(claims)) == Some(claims),
{
    keys_differ();
    let entries = payload_entries(claims);
    assert(number_at(entries, "exp"@) == Some(claims.exp as u64));
    assert(number_at(entries, "iat"@) == Some(claims.iat as u64));
    assert(text_at(entries, "licence"@) == Some(claims.licence));
    assert(text_at(entries, "username"@) == Some(claims.username));
}

/// Objects written for different claims differ.
pub proof fn payload_tells_claims_apart(a: ClaimsView, b: ClaimsView)
    requires
        a.representable(),
        b.representable(),
        payload_entries(a) == payload_entries(b),
    ensures
        a == b,
{
    claims_survive_payload(a);
    claims_survive_payload(b);
}

/// Writes the claims as a JSON object.
pub fn claims_payload(claims: &Claims) -> (object: JsonObject)
    ensures
        object_entries(object) == payload_entries(claims@),
{
    let mut object = empty_object();
    put_number(&mut object, "exp", claims.exp as u64);
    put_number(&mut object, "iat", claims.iat as u64);
    put_text(&mut object, "licence", claims.licence.as_str());
    put_text(&mut object, "username", claims.username.as_str());
    object
}

/// Reads the claims out of a JSON object, `None` where it holds none.
pub fn payload_claims(object: &JsonObject) -> (claims: Option<Claims>)
    ensures
        viewed(claims) == claims_in(object_entries(*object)),
{
    let exp = get_number(object, "exp");
    let iat = get_number(object, "iat");
    let licence = get_text(object, "licence");
    let username = get_text(object, "username");
    match (exp, iat, licence, username) {
        (Some(exp), Some(iat), Some(licence), Some(username)) => {
            if exp <= usize::MAX as u64 && iat <= usize::MAX as u64 {
                Some(Claims { exp: exp as usize, iat: iat as usize, licence, username })
            } else {
                None
            }
        },
        _ => None,
    }
}

} // verus!
