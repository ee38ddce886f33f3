//! Registration and login.
//!
//! Each operation is decided here and carried out by the caller: the caller
//! looks an account up or stores one, and hands what came of it to the next
//! step.

use crate::clock::unix_time;
use crate::credential::bcrypt_verdict;
use crate::credential::hash_password;
use crate::credential::verify_password;
use crate::error::ErrorKind;
use crate::error::StoreError;
use crate::models::User;
use crate::object_id::ObjectId;
use crate::token::issuance;
use crate::token::issue_token;
use crate::token::JWTClaims;
use crate::token::SigningSecret;
use crate::token::TOKEN_LIFETIME;
use vstd::prelude::*;

verus! {

/// What a new user sends to register.
#[derive(Clone, Debug)]
pub struct RegisterRequest {
    pub name: String,
    pub email: String,
    pub password: String,
}

/// The answer to a registration.
#[derive(Clone, Debug)]
pub struct AuthResponse {
    pub msg: String,
    pub user_id: ObjectId,
}

/// What a user sends to log in.
#[derive(Clone, Debug)]
pub struct LoginRequest {
    pub email: String,
    pub password: String,
}

/// The answer to a login: the token to send with later requests.
#[derive(Clone, Debug)]
pub struct LoginResponse {
    pub msg: String,
    pub user_id: ObjectId,
    pub token: String,
}

/// Why a registration or a login failed.
#[derive(Clone, Copy, Debug, PartialEq, Eq, Structural)]
pub enum AuthError {
    /// A registration without a name, an email or a password.
    FieldsRequired,
    /// A registration under an email that has an account.
    EmailTaken,
    /// The lookup before a registration failed.
    FindFailed,
    /// The password could not be hashed.
    HashFailed,
    /// The account could not be stored.
    InsertFailed,
    /// The store did not say under which identifier it put the account.
    MissingUserId,
    /// A login without an email or a password.
    CredentialsRequired,
    /// A login under an email that has no account.
    EmailNotFound,
    /// A login with a password that is not the account's.
    InvalidPassword,
    /// The stored digest could not be read.
    VerifyFailed,
    /// The lookup before a login failed, or no token could be issued.
    Internal,
}

impl AuthError {
    /// The class of the failure.
    pub open spec fn class(self) -> ErrorKind {
        match self {
            AuthError::FieldsRequired => ErrorKind::Validation,
            AuthError::EmailTaken => ErrorKind::Validation,
            AuthError::FindFailed => ErrorKind::Internal,
            AuthError::HashFailed => ErrorKind::Internal,
            AuthError::InsertFailed => ErrorKind::Internal,
            AuthError::MissingUserId => ErrorKind::Internal,
            AuthError::CredentialsRequired => ErrorKind::Validation,
            AuthError::EmailNotFound => ErrorKind::NotFound,
            AuthError::InvalidPassword => ErrorKind::Authentication,
            AuthError::VerifyFailed => ErrorKind::Internal,
            AuthError::Internal => ErrorKind::Internal,
        }
    }

    /// The class of the failure.
    pub fn kind(&self) -> (kind: ErrorKind)
        ensures
            kind == self.class(),
    {
        match self {
            AuthError::FieldsRequired => ErrorKind::Validation,
            AuthError::EmailTaken => ErrorKind::Validation,
            AuthError::FindFailed => ErrorKind::Internal,
            AuthError::HashFailed => ErrorKind::Internal,
            AuthError::InsertFailed => ErrorKind::Internal,
            AuthError::MissingUserId => ErrorKind::Internal,
            AuthError::CredentialsRequired => ErrorKind::Validation,
            AuthError::EmailNotFound => ErrorKind::NotFound,
            AuthError::InvalidPassword => ErrorKind::Authentication,
            AuthError::VerifyFailed => ErrorKind::Internal,
            AuthError::Internal => ErrorKind::Internal,
        }
    }

    /// The status sent with the failure: that of its class.
    pub fn status(&self) -> (status: u16)
        ensures
            status == self.class().code(),
    {
        self.kind().status()
    }

    /// The message sent with the failure.
    pub fn message(&self) -> (message: String)
        ensures
            message@ == match *self {
                AuthError::FieldsRequired => "Name, email and password are required"@,
                AuthError::EmailTaken => "Email already exists"@,
                AuthError::FindFailed => "Failed to find user"@,
                AuthError::HashFailed => "Failed to hash password"@,
                AuthError::InsertFailed => "Failed to insert user"@,
                AuthError::MissingUserId => "Failed to get user id"@,
                AuthError::CredentialsRequired => "Email and password cannot be empty"@,
                AuthError::EmailNotFound => "Email not Found"@,
                AuthError::InvalidPassword => "Invalid password"@,
                AuthError::VerifyFailed => "Error in verifying the password"@,
                AuthError::Internal => "Internal Server Error"@,
            },
    {
        match self {
            AuthError::FieldsRequired => String::from_str("Name, email and password are required"),
            AuthError::EmailTaken => String::from_str("Email already exists"),
            AuthError::FindFailed => String::from_str("Failed to find user"),
            AuthError::HashFailed => String::from_str("Failed to hash password"),
            AuthError::InsertFailed => String::from_str("Failed to insert user"),
            AuthError::MissingUserId => String::from_str("Failed to get user id"),
            AuthError::CredentialsRequired => String::from_str(
                "Email and password cannot be empty",
            ),
            AuthError::EmailNotFound => String::from_str("Email not Found"),
            AuthError::InvalidPassword => String::from_str("Invalid password"),
            AuthError::VerifyFailed => String::from_str("Error in verifying the password"),
            AuthError::Internal => String::from_str("Internal Server Error"),
        }
    }
}

/// The message of a successful registration, and of a successful login.
pub open spec fn success_text() -> Seq<char> {
    "User created Successfully"@
}

impl RegisterRequest {
    /// A registration is complete when none of its fields is empty.
    pub open spec fn complete(self) -> bool {
        self.name@.len() > 0 && self.email@.len() > 0 && self.password@.len() > 0
    }

    /// Whether the registration is complete.
    pub fn is_complete(&self) -> (complete: bool)
        ensures
            complete == self.complete(),
    {
        !(self.name.as_str().is_empty() || self.email.as_str().is_empty()
            || self.password.as_str().is_empty())
    }
}

impl LoginRequest {
    /// A login is complete when neither of its fields is empty.
    pub open spec fn complete(self) -> bool {
        self.email@.len() > 0 && self.password@.len() > 0
    }

    /// Whether the login is complete.
    pub fn is_complete(&self) -> (complete: bool)
        ensures
            complete == self.complete(),
    {
        !(self.email.as_str().is_empty() || self.password.as_str().is_empty())
    }
}

/// The first step of a registration: `Ok` where it is complete.
pub fn validate_registration(payload: &RegisterRequest) -> (res: Result<(), AuthError>)
    ensures
        res == if payload.complete() {
            Ok::<(), AuthError>(())
        } else {
            Err(AuthError::FieldsRequired)
        },
{
    if payload.is_complete() {
        Ok(())
    } else {
        Err(AuthError::FieldsRequired)
    }
}

/// The first step of a login: `Ok` where it is complete.
pub fn validate_login(payload: &LoginRequest) -> (res: Result<(), AuthError>)
    ensures
        res == if payload.complete() {
            Ok::<(), AuthError>(())
        } else {
            Err(AuthError::CredentialsRequired)
        },
{
    if payload.is_complete() {
        Ok(())
    } else {
        Err(AuthError::CredentialsRequired)
    }
}

/// Whether a registration may go on, given what the lookup of its email gave:
/// it may where it is complete and the email has no account yet.
pub open spec fn registration_admitted(
    payload: RegisterRequest,
    existing: Result<Option<User>, StoreError>,
) -> Result<(), AuthError> {
    if !payload.complete() {
        Err(AuthError::FieldsRequired)
    } else {
        match existing {
            Ok(Some(_)) => Err(AuthError::EmailTaken),
            Ok(None) => Ok(()),
            Err(_) => Err(AuthError::FindFailed),
        }
    }
}

/// Decides whether a registration may go on, given what the lookup of its
/// email gave.
pub fn check_registration(payload: &RegisterRequest, existing: &Result<Option<User>, StoreError>) -> (res:
    Result<(), AuthError>)
    ensures
        res == registration_admitted(*payload, *existing),
{
    if !payload.is_complete() {
        Err(AuthError::FieldsRequired)
    } else {
        match existing {
            Ok(Some(_)) => Err(AuthError::EmailTaken),
            Ok(None) => Ok(()),
            Err(_) => Err(AuthError::FindFailed),
        }
    }
}

/// The account of a registration, under the identifier `id` and with the
/// digest that hashing the password gave, if it gave one.
pub fn new_account(payload: &RegisterRequest, id: ObjectId, digest: Option<String>) -> (res: Result<
    User,
    AuthError,
>)
    ensures
        digest is None ==> res == Err::<User, AuthError>(AuthError::HashFailed),
        digest matches Some(d) ==> (res matches Ok(user) && user.id == id && user.name@
            == payload.name@ && user.email@ == payload.email@ && user.password@ == d@),
{
    match digest {
        None => Err(AuthError::HashFailed),
        Some(password) => Ok(
            User { id, name: payload.name.clone(), email: payload.email.clone(), password },
        ),
    }
}

/// Registers a user, given what the lookup of the email gave: the account to
/// store, under a new identifier and with a digest of the password.
///
/// A registration that is not admitted fails as `registration_admitted` says.
/// One that is admitted fails only where the password cannot be hashed. What
/// is stored of the password is a digest of it: one that the password
/// verifies against.
pub fn register(payload: &RegisterRequest, existing: &Result<Option<User>, StoreError>) -> (res:
    Result<User, AuthError>)
    ensures
        registration_admitted(*payload, *existing) matches Err(e) ==> res == Err::<User, AuthError>(
            e,
        ),
        registration_admitted(*payload, *existing) is Ok ==> (res == Err::<User, AuthError>(
            AuthError::HashFailed,
        ) || (res matches Ok(user) && user.name@ == payload.name@ && user.email@
            == payload.email@ && bcrypt_verdict(payload.password@, user.password@) == Some(true))),
{
    match check_registration(payload, existing) {
        Err(e) => Err(e),
        Ok(()) => {
            let digest = hash_password(payload.password.as_str());
            new_account(payload, ObjectId::new(), digest)
        },
    }
}

/// The answer to a registration, given what storing the account gave: the
/// identifier under which it was stored, where the store gave one.
pub fn registered(inserted: &Result<Option<ObjectId>, StoreError>) -> (res: Result<
    AuthResponse,
    AuthError,
>)
    ensures
        match *inserted {
            Ok(Some(id)) => res matches Ok(response) && response.user_id == id && response.msg@
                == success_text(),
            Ok(None) => res == Err::<AuthResponse, AuthError>(AuthError::MissingUserId),
            Err(_) => res == Err::<AuthResponse, AuthError>(AuthError::InsertFailed),
        },
{
    match inserted {
        Ok(Some(id)) => Ok(
            AuthResponse { msg: String::from_str("User created Successfully"), user_id: *id },
        ),
        Ok(None) => Err(AuthError::MissingUserId),
        Err(_) => Err(AuthError::InsertFailed),
    }
}

/// Whether a login has the account and the password that it takes to get a
/// token: the account's identifier where it has. This is decided before the
/// clock is read.
pub open spec fn login_admitted(payload: LoginRequest, found: Result<Option<User>, StoreError>) -> Result<
    ObjectId,
    AuthError,
> {
    if !payload.complete() {
        Err(AuthError::CredentialsRequired)
    } else {
        match found {
            Err(_) => Err(AuthError::Internal),
            Ok(None) => Err(AuthError::EmailNotFound),
            Ok(Some(user)) => match bcrypt_verdict(payload.password@, user.password@) {
                None => Err(AuthError::VerifyFailed),
                Some(false) => Err(AuthError::InvalidPassword),
                Some(true) => Ok(user.id),
            },
        }
    }
}

/// The token that an admitted login gets at the time `now`.
pub open spec fn login_token(user_id: ObjectId, secret: Seq<u8>, now: u64) -> Option<Seq<char>> {
    if now + TOKEN_LIFETIME > u64::MAX {
        None
    } else {
        issuance(JWTClaims::issued(user_id, now), secret)
    }
}

/// What a login at the time `now` comes to, given what the lookup of its email
/// gave: the account's identifier and a token for it, where the password is
/// the account's.
pub open spec fn login_outcome(
    payload: LoginRequest,
    found: Result<Option<User>, StoreError>,
    secret: Seq<u8>,
    now: u64,
) -> Result<(ObjectId, Seq<char>), AuthError> {
    match login_admitted(payload, found) {
        Err(e) => Err(e),
        Ok(user_id) => match login_token(user_id, secret, now) {
            Some(token) => Ok((user_id, token)),
            None => Err(AuthError::Internal),
        },
    }
}

/// A token is one of a login of `user_id` when it is the token of such a
/// login at some time.
pub open spec fn is_login_token(user_id: ObjectId, secret: Seq<u8>, token: Seq<char>) -> bool {
    exists|now: u64| #[trigger] login_token(user_id, secret, now) == Some(token)
}

/// Decides whether a login is admitted, given what the lookup of its email
/// gave.
pub fn admit_login(payload: &LoginRequest, found: &Result<Option<User>, StoreError>) -> (res: Result<
    ObjectId,
    AuthError,
>)
    ensures
        res == login_admitted(*payload, *found),
{
    if !payload.is_complete() {
        return Err(AuthError::CredentialsRequired);
    }
    match found {
        Err(_) => Err(AuthError::Internal),
        Ok(None) => Err(AuthError::EmailNotFound),
        Ok(Some(user)) => match verify_password(payload.password.as_str(), user.password.as_str()) {
            None => Err(AuthError::VerifyFailed),
            Some(false) => Err(AuthError::InvalidPassword),
            Some(true) => Ok(user.id),
        },
    }
}

/// The answer to an admitted login at the time `now`.
fn grant_token(user_id: ObjectId, secret: &SigningSecret, now: u64) -> (res: Result<
    LoginResponse,
    AuthError,
>)
    ensures
        match res {
            Ok(response) => login_token(user_id, secret@, now) == Some(response.token@)
                && response.user_id == user_id && response.msg@ == success_text(),
            Err(e) => login_token(user_id, secret@, now) is None && e == AuthError::Internal,
        },
{
    match JWTClaims::new(user_id, now) {
        None => Err(AuthError::Internal),
        Some(claims) => match issue_token(&claims, secret) {
            Some(token) => Ok(
                LoginResponse { msg: String::from_str("User created Successfully"), user_id, token },
            ),
            None => Err(AuthError::Internal),
        },
    }
}

/// Logs a user in at the time `now`, given what the lookup of the email gave.
pub fn login_at(
    payload: &LoginRequest,
    found: &Result<Option<User>, StoreError>,
    secret: &SigningSecret,
    now: u64,
) -> (res: Result<LoginResponse, AuthError>)
    ensures
        match res {
            Ok(response) => login_outcome(*payload, *found, secret@, now) == Ok::<
                (ObjectId, Seq<char>),
                AuthError,
            >((response.user_id, response.token@)) && response.msg@ == success_text(),
            Err(e) => login_outcome(*payload, *found, secret@, now) == Err::<
                (ObjectId, Seq<char>),
                AuthError,
            >(e),
        },
{
    match admit_login(payload, found) {
        Err(e) => Err(e),
        Ok(user_id) => grant_token(user_id, secret, now),
    }
}

/// Logs a user in now, given what the lookup of the email gave.
///
/// A login that is not admitted fails as `login_admitted` says. One that is
/// admitted gets the token of a login at the time that the clock gave, and
/// fails where the clock gives a time before the epoch or no token can be
/// issued at the time it gives.
pub fn login(
    payload: &LoginRequest,
    found: &Result<Option<User>, StoreError>,
    secret: &SigningSecret,
) -> (res: Result<LoginResponse, AuthError>)
    ensures
        login_admitted(*payload, *found) matches Err(e) ==> res == Err::<LoginResponse, AuthError>(e),
        login_admitted(*payload, *found) matches Ok(user_id) ==> match res {
            Ok(response) => response.user_id == user_id && response.msg@ == success_text()
                && is_login_token(user_id, secret@, response.token@),
            Err(e) => e == AuthError::Internal,
        },
{
    match admit_login(payload, found) {
        Err(e) => Err(e),
        Ok(user_id) => match unix_time() {
            None => Err(AuthError::Internal),
            Some(now) => {
                let res = grant_token(user_id, secret, now);
                proof {
                    if res is Ok {
                        assert(login_token(user_id, secret@, now) == Some(res->Ok_0.token@));
                    }
                }
                res
            },
        },
    }
}

/// One who registered logs in with the password of the registration: a login
/// under an account whose stored digest the password verifies against is
/// admitted as that account.
pub proof fn registered_password_is_admitted(payload: LoginRequest, user: User)
    requires
        payload.complete(),
        bcrypt_verdict(payload.password@, user.password@) == Some(true),
    ensures
        login_admitted(payload, Ok(Some(user))) == Ok::<ObjectId, AuthError>(user.id),
{
}

} // verus!
