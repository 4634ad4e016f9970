//! What the service answers about its users, decided from what the user
//! store returned.
//!
//! The store itself is outside this library. A caller runs the query, hands
//! the outcome in as a [`Lookup`], performs what the answer asks for, and
//! hands the next outcome in.

use crate::claims::{claims_at, payload_entries};
use crate::clock::current_time;
use crate::token::{
    issuance, issue_at, issued_at_some_time, sealed, SigningError,
};
use vstd::prelude::*;

verus! {

/// A request to register a user.
#[derive(Debug, Clone, PartialEq, Eq)]
pub struct CreateUser {
    pub username: String,
    pub licence: String,
    pub profile_url: String,
}

/// A request to sign in.
#[derive(Debug, Clone, PartialEq, Eq)]
pub struct LoginUser {
    pub username: String,
    pub licence: String,
}

/// A registered user, as the service reports it.
#[derive(Debug, Clone, PartialEq, Eq)]
pub struct CreatedUser {
    pub id: i32,
    pub username: String,
    pub licence: String,
    pub profile_url: String,
    pub payment_plan: bool,
}

/// A user who signed in, with the token issued to them.
#[derive(Debug, Clone, PartialEq, Eq)]
pub struct AuthorizedUser {
    pub username: String,
    pub licence: String,
    pub profile_url: String,
    pub payment_plan: bool,
    pub token: String,
}

/// The fields of a user to change; an absent field stays as it is.
#[derive(Debug, Clone, PartialEq, Eq)]
pub struct UpdateUser {
    pub username: Option<String>,
    pub licence: Option<String>,
    pub profile_url: Option<String>,
    pub payment_plan: Option<bool>,
}

/// A user as the store holds it.
#[derive(Debug, Clone, PartialEq, Eq)]
pub struct UserRecord {
    pub id: i32,
    pub username: String,
    pub license_plate: String,
    pub profile_url: String,
    pub payment_plan: bool,
}

/// A user to be stored; the store gives the id.
#[derive(Debug, Clone, PartialEq, Eq)]
pub struct NewUser {
    pub username: String,
    pub license_plate: String,
    pub profile_url: String,
    pub payment_plan: bool,
}

/// What a query for one user returned.
#[derive(Debug, Clone, PartialEq, Eq)]
pub enum Lookup {
    /// The store holds the user.
    Found(UserRecord),
    /// The store holds no such user.
    Missing,
    /// The query failed.
    Failed,
}

/// What the service answers to a request about a user.
#[derive(Debug, Clone, PartialEq, Eq)]
pub enum UserResponse {
    /// The request failed, with the message for the client.
    Failure { message: String },
    /// The user was stored.
    Created(CreatedUser),
    /// The user signed in.
    Authorized(AuthorizedUser),
}

/// A refusal with an HTTP status and a message for the client.
#[derive(Debug, Clone, PartialEq, Eq)]
pub struct Refusal {
    pub status: u16,
    pub message: String,
}

/// The report has the values of the record.
pub open spec fn reports(report: CreatedUser, record: UserRecord) -> bool {
    &&& report.id == record.id
    &&& report.username@ == record.username@
    &&& report.licence@ == record.license_plate@
    &&& report.profile_url@ == record.profile_url@
    &&& report.payment_plan == record.payment_plan
}

/// The new user has the values of the request, and no payment plan.
pub open spec fn registers(user: NewUser, request: CreateUser) -> bool {
    &&& user.username@ == request.username@
    &&& user.license_plate@ == request.licence@
    &&& user.profile_url@ == request.profile_url@
    &&& !user.payment_plan
}

/// The signed-in user has the values of the record.
pub open spec fn signs_in(user: AuthorizedUser, record: UserRecord) -> bool {
    &&& user.username@ == record.username@
    &&& user.licence@ == record.license_plate@
    &&& user.profile_url@ == record.profile_url@
    &&& user.payment_plan == record.payment_plan
}

/// The record is that of the user with both names.
pub open spec fn identifies(record: UserRecord, username: Seq<char>, licence: Seq<char>) -> bool {
    record.username@ == username && record.license_plate@ == licence
}

/// The store returned the user with both names.
pub open spec fn holds_identity(lookup: Lookup, username: Seq<char>, licence: Seq<char>) -> bool {
    lookup matches Lookup::Found(record) && identifies(record, username, licence)
}

/// The text after a change: the new one where there is one.
pub open spec fn changed_text(before: String, change: Option<String>) -> Seq<char> {
    match change {
        Some(text) => text@,
        None => before@,
    }
}

/// `after` is `before` with the changes applied: each field that the changes
/// hold has the new value, every other field and the id stay.
pub open spec fn updates(after: UserRecord, before: UserRecord, changes: UpdateUser) -> bool {
    &&& after.id == before.id
    &&& after.username@ == changed_text(before.username, changes.username)
    &&& after.license_plate@ == changed_text(before.license_plate, changes.licence)
    &&& after.profile_url@ == changed_text(before.profile_url, changes.profile_url)
    &&& after.payment_plan == match changes.payment_plan {
        Some(plan) => plan,
        None => before.payment_plan,
    }
}

/// The response is a failure with this message.
pub open spec fn fails_with(response: UserResponse, message: Seq<char>) -> bool {
    response matches UserResponse::Failure { message: given } && given@ == message
}

/// The refusal has this status and this message.
pub open spec fn refuses_with(refusal: Refusal, status: u16, message: Seq<char>) -> bool {
    refusal.status == status && refusal.message@ == message
}

impl UserRecord {
    /// Whether the record is that of the user with both names: the name and
    /// the licence plate must both be the record's own.
    pub fn belongs_to(&self, username: &String, licence: &String) -> (own: bool)
        ensures
            own == identifies(*self, username@, licence@),
    {
        self.username == *username && self.license_plate == *licence
    }
}

/// Whether a user with both names is registered: the store returned the
/// record of that user. A failed query counts as none.
pub fn is_valid_user(lookup: &Lookup, username: &String, licence: &String) -> (valid: bool)
    ensures
        valid == holds_identity(*lookup, username@, licence@),
{
    match lookup {
        Lookup::Found(record) => record.belongs_to(username, licence),
        Lookup::Missing => false,
        Lookup::Failed => false,
    }
}

/// The report of a stored user.
pub fn created_user(record: UserRecord) -> (report: CreatedUser)
    ensures
        reports(report, record),
{
    CreatedUser {
        id: record.id,
        username: record.username,
        licence: record.license_plate,
        profile_url: record.profile_url,
        payment_plan: record.payment_plan,
    }
}

/// The first step of a registration, once the store was asked for a user
/// with the request's licence plate. A plate in use and a failed query are
/// refused; else the user to store is the request's, without a payment plan.
pub fn create_user(request: CreateUser, existing: &Lookup) -> (step: Result<NewUser, UserResponse>)
    ensures
        existing is Found ==> (step matches Err(response) && fails_with(
            response,
            "License plate already in use"@,
        )),
        existing is Failed ==> (step matches Err(response) && fails_with(
            response,
            "Failed to check existing user"@,
        )),
        existing is Missing ==> (step matches Ok(user) && registers(user, request)),
{
    match existing {
        Lookup::Found(_) => Err(
            UserResponse::Failure { message: "License plate already in use".to_owned() },
        ),
        Lookup::Failed => Err(
            UserResponse::Failure { message: "Failed to check existing user".to_owned() },
        ),
        Lookup::Missing => Ok(
            NewUser {
                username: request.username,
                license_plate: request.licence,
                profile_url: request.profile_url,
                payment_plan: false,
            },
        ),
    }
}

/// The second step of a registration, once the store was asked to save the
/// user: the report of the stored user, or a failure where nothing was
/// stored.
pub fn user_created(saved: Option<UserRecord>) -> (response: UserResponse)
    ensures
        saved matches Some(record) ==> (response matches UserResponse::Created(report) && reports(
            report,
            record,
        )),
        saved is None ==> fails_with(response, "Failed to fetch sensors"@),
{
    match saved {
        Some(record) => UserResponse::Created(created_user(record)),
        None => UserResponse::Failure { message: "Failed to fetch sensors".to_owned() },
    }
}

/// The user who signed in, with their token.
pub fn authorized_user(record: UserRecord, token: String) -> (user: AuthorizedUser)
    ensures
        signs_in(user, record),
        user.token@ == token@,
{
    AuthorizedUser {
        username: record.username,
        licence: record.license_plate,
        profile_url: record.profile_url,
        payment_plan: record.payment_plan,
        token,
    }
}

/// The answer is the signed-in user of the record with this token, or the
/// error for which none was issued.
pub open spec fn answers_sign_in(
    answer: Result<UserResponse, SigningError>,
    record: UserRecord,
    issued: Result<Seq<char>, SigningError>,
) -> bool {
    match issued {
        Ok(token) => {
            &&& answer matches Ok(UserResponse::Authorized(user))
            &&& signs_in(user, record)
            &&& user.token@ == token
        },
        Err(error) => answer matches Err(given) && given == error,
    }
}

/// The token that the answer holds, or the error; `Rejected` for an answer
/// without either.
pub open spec fn answer_token(answer: Result<UserResponse, SigningError>) -> Result<
    Seq<char>,
    SigningError,
> {
    match answer {
        Ok(UserResponse::Authorized(user)) => Ok(user.token@),
        Ok(_) => Err(SigningError::Rejected),
        Err(error) => Err(error),
    }
}

/// The answer to a sign-in at the time `now`, once the store was asked for
/// the user with both names of the request. That user gets a token, issued to
/// their licence plate and name; where none can be issued, the error says
/// why. A failed query is refused, and so is a request for which the store
/// returned no user or another one.
pub fn signin_user_at(secret: &str, login: &LoginUser, lookup: Lookup, now: u64) -> (answer: Result<
    UserResponse,
    SigningError,
>)
    ensures
        lookup is Failed ==> (answer matches Ok(response) && fails_with(
            response,
            "Failed to fetch user"@,
        )),
        !(lookup is Failed) && !holds_identity(lookup, login.username@, login.licence@) ==> (
        answer matches Ok(response) && fails_with(response, "User not found. Please do register"@)),
        holds_identity(lookup, login.username@, login.licence@) ==> answers_sign_in(
            answer,
            lookup->Found_0,
            issuance(secret@, login.licence@, login.username@, now as int),
        ),
        holds_identity(lookup, login.username@, login.licence@) ==> (answer_token(answer) matches Ok(
            token,
        ) ==> sealed(
            token,
            secret@,
            payload_entries(claims_at(login.licence@, login.username@, now as nat)),
        )),
{
    match lookup {
        Lookup::Found(record) => {
            if !record.belongs_to(&login.username, &login.licence) {
                return Ok(
                    UserResponse::Failure {
                        message: "User not found. Please do register".to_owned(),
                    },
                );
            }
            match issue_at(secret, &record.license_plate, &record.username, now) {
                Ok(token) => Ok(UserResponse::Authorized(authorized_user(record, token))),
                Err(error) => Err(error),
            }
        },
        Lookup::Missing => Ok(
            UserResponse::Failure { message: "User not found. Please do register".to_owned() },
        ),
        Lookup::Failed => Ok(UserResponse::Failure { message: "Failed to fetch user".to_owned() }),
    }
}

/// The answer to a sign-in at the current time.
pub fn signin_user(secret: &str, login: &LoginUser, lookup: Lookup) -> (answer: Result<
    UserResponse,
    SigningError,
>)
    ensures
        lookup is Failed ==> (answer matches Ok(response) && fails_with(
            response,
            "Failed to fetch user"@,
        )),
        !(lookup is Failed) && !holds_identity(lookup, login.username@, login.licence@) ==> (
        answer matches Ok(response) && fails_with(response, "User not found. Please do register"@)),
        holds_identity(lookup, login.username@, login.licence@) ==> answers_sign_in(
            answer,
            lookup->Found_0,
            answer_token(answer),
        ),
        holds_identity(lookup, login.username@, login.licence@) ==> issued_at_some_time(
            answer_token(answer),
            secret@,
            login.licence@,
            login.username@,
        ),
{
    let now = current_time();
    let answer = signin_user_at(secret, login, lookup, now);
    proof {
        if holds_identity(lookup, login.username@, login.licence@) {
            assert(answer_token(answer) == issuance(
                secret@,
                login.licence@,
                login.username@,
                now as nat as int,
            ));
        }
    }
    answer
}

/// The record with the changes applied.
pub fn apply_update(record: UserRecord, changes: UpdateUser) -> (after: UserRecord)
    ensures
        updates(after, record, changes),
{
    let username = match changes.username {
        Some(text) => text,
        None => record.username,
    };
    let license_plate = match changes.licence {
        Some(text) => text,
        None => record.license_plate,
    };
    let profile_url = match changes.profile_url {
        Some(text) => text,
        None => record.profile_url,
    };
    let payment_plan = match changes.payment_plan {
        Some(plan) => plan,
        None => record.payment_plan,
    };
    UserRecord { id: record.id, username, license_plate, profile_url, payment_plan }
}

/// The first step of an update, once the store was asked for the user with
/// the request's id. A failed query is refused with status 500, a user that
/// the store does not hold with 404; else the record to store is the one
/// found, with the changes applied.
pub fn update_user(found: Lookup, changes: UpdateUser) -> (step: Result<UserRecord, Refusal>)
    ensures
        found is Failed ==> (step matches Err(refusal) && refuses_with(
            refusal,
            500,
            "Failed to fetch user"@,
        )),
        found is Missing ==> (step matches Err(refusal) && refuses_with(
            refusal,
            404,
            "User not found"@,
        )),
        found matches Lookup::Found(record) ==> (step matches Ok(after) && updates(
            after,
            record,
            changes,
        )),
{
    match found {
        Lookup::Failed => Err(Refusal { status: 500, message: "Failed to fetch user".to_owned() }),
        Lookup::Missing => Err(Refusal { status: 404, message: "User not found".to_owned() }),
        Lookup::Found(record) => Ok(apply_update(record, changes)),
    }
}

/// The second step of an update, once the store was asked to save the
/// record: the report of the stored user, or a refusal with status 500 where
/// nothing was stored.
pub fn user_updated(saved: Option<UserRecord>) -> (answer: Result<CreatedUser, Refusal>)
    ensures
        saved matches Some(record) ==> (answer matches Ok(report) && reports(report, record)),
        saved is None ==> (answer matches Err(refusal) && refuses_with(
            refusal,
            500,
            "Failed to update user"@,
        )),
{
    match saved {
        Some(record) => Ok(created_user(record)),
        None => Err(Refusal { status: 500, message: "Failed to update user".to_owned() }),
    }
}

} // verus!
