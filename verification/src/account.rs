//! The account handlers' decision logic: registration, login, profile
//! update, and password change.
//!
//! The user store itself is an outside collaborator reached over a narrow
//! interface: the caller looks records up and writes them, and hands the
//! results in as plain values. Everything that decides — which error a
//! taken e-mail yields, when credentials are refused, what the fresh token
//! carries — is here and verified. Password hashing and checking are the
//! work of an outside library behind trusted wrappers.

use vstd::prelude::*;
use crate::token::{create_token, issued_claims, signed_token, TOKEN_VALIDITY_SECONDS};
use crate::ids::fresh_user_id;

verus! {

/// A registration request: the credentials and display name of the new
/// account.
pub struct RegisterRequest {
    pub email: String,
    pub username: String,
    pub password: String,
}

/// A login request.
pub struct LoginRequest {
    pub email: String,
    pub password: String,
}

/// A profile update: the new display name.
pub struct UpdateProfileRequest {
    pub username: String,
}

/// A password change: the current password, to be checked, and its
/// replacement.
pub struct ChangePasswordRequest {
    pub current_password: String,
    pub new_password: String,
}

/// The short diagnostic body every failing endpoint answers with.
pub struct ErrorResponse {
    pub message: String,
}

/// A stored user record, as the outside store hands it back: the
/// identifier, credentials and display name, and the creation time as
/// seconds of the Unix epoch.
#[derive(Debug, Clone)]
pub struct User {
    pub id: u128,
    pub email: String,
    pub username: String,
    pub password_hash: String,
    pub created_at: u64,
}

/// What a successful registration or login answers: the fresh token and the
/// identity it was issued for.
#[derive(Debug, Clone)]
pub struct AuthResponse {
    pub token: Vec<u8>,
    pub user_id: u128,
    pub username: String,
}

/// What a successful profile update answers: the updated identity and a
/// fresh token carrying the new display name.
#[derive(Debug, Clone)]
pub struct UpdateProfileResponse {
    pub user_id: u128,
    pub username: String,
    pub email: String,
    pub token: Vec<u8>,
}

/// The failures of the account endpoints, each mapped to one status.
#[derive(Debug, PartialEq, Eq, Clone, Copy)]
pub enum ServiceError {
    /// The e-mail or the password was wrong; which one is never said.
    InvalidCredentials,
    /// The current password given for a password change was wrong.
    WrongPassword,
    /// The e-mail is already taken.
    EmailTaken,
    /// An unexpected failure in hashing, signing or the store.
    Internal,
}

impl ServiceError {
    /// The HTTP status of this failure: unauthorized for refused
    /// credentials, conflict for a taken e-mail, and a generic server error
    /// otherwise.
    pub fn status_code(&self) -> (r: u16)
        ensures
            (self is InvalidCredentials || self is WrongPassword) ==> r == 401,
            self is EmailTaken ==> r == 409,
            self is Internal ==> r == 500,
    {
        match self {
            ServiceError::InvalidCredentials => 401,
            ServiceError::WrongPassword => 401,
            ServiceError::EmailTaken => 409,
            ServiceError::Internal => 500,
        }
    }

    /// The short diagnostic message of this failure.
    pub open spec fn message_spec(&self) -> Seq<char> {
        match self {
            ServiceError::InvalidCredentials => "Invalid email or password"@,
            ServiceError::WrongPassword => "Current password is incorrect"@,
            ServiceError::EmailTaken => "Email already taken"@,
            ServiceError::Internal => "Internal server error"@,
        }
    }

    /// The short diagnostic message of this failure.
    pub fn message(&self) -> (r: String)
        ensures
            r@ == self.message_spec(),
    {
        match self {
            ServiceError::InvalidCredentials => "Invalid email or password".to_owned(),
            ServiceError::WrongPassword => "Current password is incorrect".to_owned(),
            ServiceError::EmailTaken => "Email already taken".to_owned(),
            ServiceError::Internal => "Internal server error".to_owned(),
        }
    }

    /// The error body of this failure.
    pub fn body(&self) -> (r: ErrorResponse)
        ensures
            r.message@ == self.message_spec(),
    {
        ErrorResponse { message: self.message() }
    }
}

/// Whether a password matches a stored hash, as the outside hashing library
/// decides it: a function of the password and the hash alone.
pub uninterp spec fn bcrypt_matches(password: Seq<char>, hash: Seq<char>) -> bool;

/// Whether a stored hash is one the outside hashing library can read — its
/// prefix, cost and salt fields are well-formed. The check's success is a
/// function of the hash text alone; every hash the library itself produced
/// is readable.
pub uninterp spec fn bcrypt_hash_readable(hash: Seq<char>) -> bool;

/// Relies on `bcrypt::hash` at the library's default cost: it draws a fresh
/// salt from the operating system — so the hash itself is not a function of
/// the password, and the draw can fail — but `bcrypt::verify` reads every
/// hash it produces and accepts the very password it was given.
#[verifier::external_body]
pub(crate) fn hash_password(password: &str) -> (r: Result<String, ()>)
    ensures
        r is Ok ==> bcrypt_matches(password@, r->Ok_0@) && bcrypt_hash_readable(r->Ok_0@),
{
    match bcrypt::hash(password, bcrypt::DEFAULT_COST) {
        Ok(h) => Ok(h),
        Err(_) => Err(()),
    }
}

/// Relies on `bcrypt::verify`: a deterministic check of a password against
/// a stored hash. It fails exactly on a hash the library cannot read — the
/// parse of the hash's prefix, cost and salt is a function of the hash text
/// alone, and nothing else in the check can fail.
#[verifier::external_body]
pub(crate) fn verify_password(password: &str, hash: &str) -> (r: Result<bool, ()>)
    ensures
        r is Ok <==> bcrypt_hash_readable(hash@),
        r is Ok ==> r->Ok_0 == bcrypt_matches(password@, hash@),
{
    match bcrypt::verify(password, hash) {
        Ok(b) => Ok(b),
        Err(_) => Err(()),
    }
}

/// Completes a login after the password has been checked: a wrong password
/// is refused as invalid credentials — the same error a missing account
/// yields — and a right one is answered with a fresh token for the user's
/// identity.
pub fn finish_login(user: &User, password_valid: bool, secret: &[u8], now: u64) -> (r: Result<
    AuthResponse,
    ServiceError,
>)
    requires
        now + TOKEN_VALIDITY_SECONDS <= u64::MAX,
    ensures
        !password_valid <==> r == Err::<AuthResponse, ServiceError>(
            ServiceError::InvalidCredentials,
        ),
        password_valid <==> r is Ok,
        r is Ok ==> r->Ok_0.user_id == user.id && r->Ok_0.username@ == user.username@
            && r->Ok_0.token@ == signed_token(
            issued_claims(user.id, user.username@, user.email@, now),
            secret@,
        ),
{
    if !password_valid {
        return Err(ServiceError::InvalidCredentials);
    }
    let token = create_token(user.id, user.username.as_str(), user.email.as_str(), secret, now);
    Ok(AuthResponse { token, user_id: user.id, username: user.username.clone() })
}

/// Logs a user in: the store's lookup result and the request come in as
/// values, the password is checked against the stored hash, and a fresh
/// token is issued on success. A missing account and a wrong password are
/// answered identically — though not in identical time: a missing account
/// skips the hash check, so the timing difference remains observable, a
/// known limitation kept rather than fixed.
pub fn login(user: Option<&User>, req: &LoginRequest, secret: &[u8], now: u64) -> (r: Result<
    AuthResponse,
    ServiceError,
>)
    requires
        now + TOKEN_VALIDITY_SECONDS <= u64::MAX,
    ensures
        user is None ==> r == Err::<AuthResponse, ServiceError>(ServiceError::InvalidCredentials),
        r is Ok ==> (user matches Some(u) && bcrypt_matches(req.password@, u.password_hash@)
            && r->Ok_0.user_id == u.id && r->Ok_0.username@ == u.username@ && r->Ok_0.token@
            == signed_token(issued_claims(u.id, u.username@, u.email@, now), secret@)),
        user is Some && bcrypt_hash_readable(user->Some_0.password_hash@) && bcrypt_matches(
            req.password@,
            user->Some_0.password_hash@,
        ) ==> r is Ok,
        user is Some && bcrypt_hash_readable(user->Some_0.password_hash@) && !bcrypt_matches(
            req.password@,
            user->Some_0.password_hash@,
        ) ==> r == Err::<AuthResponse, ServiceError>(ServiceError::InvalidCredentials),
        user is Some && !bcrypt_hash_readable(user->Some_0.password_hash@) ==> r == Err::<
            AuthResponse,
            ServiceError,
        >(ServiceError::Internal),
        r is Err ==> (r->Err_0 is InvalidCredentials || r->Err_0 is Internal),
{
    let u = match user {
        None => {
            return Err(ServiceError::InvalidCredentials);
        },
        Some(u) => u,
    };
    let valid = match verify_password(req.password.as_str(), u.password_hash.as_str()) {
        Ok(b) => b,
        Err(()) => {
            return Err(ServiceError::Internal);
        },
    };
    finish_login(u, valid, secret, now)
}

/// Registers a new account: a taken e-mail is a conflict and nothing is
/// stored; otherwise a fresh identifier is drawn, the password is hashed,
/// and the record to insert is returned together with the answer carrying a
/// fresh token. The record's hash matches the requested password, so a
/// later login with it succeeds.
pub fn register(req: &RegisterRequest, email_taken: bool, secret: &[u8], now: u64) -> (r: Result<
    (User, AuthResponse),
    ServiceError,
>)
    requires
        now + TOKEN_VALIDITY_SECONDS <= u64::MAX,
    ensures
        email_taken <==> r == Err::<(User, AuthResponse), ServiceError>(ServiceError::EmailTaken),
        r is Ok ==> ({
            let (u, resp) = r->Ok_0;
            &&& u.email@ == req.email@
            &&& u.username@ == req.username@
            &&& bcrypt_matches(req.password@, u.password_hash@)
            &&& u.created_at == now
            &&& resp.user_id == u.id
            &&& resp.username@ == req.username@
            &&& resp.token@ == signed_token(
                issued_claims(u.id, req.username@, req.email@, now),
                secret@,
            )
        }),
        !email_taken ==> (r is Ok || r == Err::<(User, AuthResponse), ServiceError>(
            ServiceError::Internal,
        )),
{
    if email_taken {
        return Err(ServiceError::EmailTaken);
    }
    let password_hash = match hash_password(req.password.as_str()) {
        Ok(h) => h,
        Err(()) => {
            return Err(ServiceError::Internal);
        },
    };
    let id = fresh_user_id();
    let token = create_token(id, req.username.as_str(), req.email.as_str(), secret, now);
    let user = User {
        id,
        email: req.email.clone(),
        username: req.username.clone(),
        password_hash,
        created_at: now,
    };
    let resp = AuthResponse { token, user_id: id, username: req.username.clone() };
    Ok((user, resp))
}

/// Answers a profile update: the requested display name replaces the stored
/// one — the store writes it — and a fresh token carrying the new name goes
/// back with the updated identity. Nothing here can fail: signing a token
/// for plain claims always succeeds.
pub fn update_profile(user: &User, req: &UpdateProfileRequest, secret: &[u8], now: u64) -> (r:
    UpdateProfileResponse)
    requires
        now + TOKEN_VALIDITY_SECONDS <= u64::MAX,
    ensures
        r.user_id == user.id,
        r.username@ == req.username@,
        r.email@ == user.email@,
        r.token@ == signed_token(issued_claims(user.id, req.username@, user.email@, now), secret@),
{
    let token = create_token(user.id, req.username.as_str(), user.email.as_str(), secret, now);
    UpdateProfileResponse {
        user_id: user.id,
        username: req.username.clone(),
        email: user.email.clone(),
        token,
    }
}

/// Decides a password change: the current password must match the stored
/// hash — a mismatch is refused without saying more — and the result is the
/// new hash for the store to write, which matches the new password. Only
/// hashing the replacement can fail otherwise, since it draws a fresh salt
/// from the operating system.
pub fn change_password(user: &User, req: &ChangePasswordRequest) -> (r: Result<
    String,
    ServiceError,
>)
    ensures
        r is Ok ==> bcrypt_matches(req.current_password@, user.password_hash@) && bcrypt_matches(
            req.new_password@,
            r->Ok_0@,
        ) && bcrypt_hash_readable(r->Ok_0@),
        r == Err::<String, ServiceError>(ServiceError::WrongPassword) ==> !bcrypt_matches(
            req.current_password@,
            user.password_hash@,
        ),
        bcrypt_hash_readable(user.password_hash@) && !bcrypt_matches(
            req.current_password@,
            user.password_hash@,
        ) ==> r == Err::<String, ServiceError>(ServiceError::WrongPassword),
        !bcrypt_hash_readable(user.password_hash@) ==> r == Err::<String, ServiceError>(
            ServiceError::Internal,
        ),
        bcrypt_hash_readable(user.password_hash@) && bcrypt_matches(
            req.current_password@,
            user.password_hash@,
        ) ==> (r is Ok || r == Err::<String, ServiceError>(ServiceError::Internal)),
        r is Err ==> (r->Err_0 is WrongPassword || r->Err_0 is Internal),
{
    let valid = match verify_password(req.current_password.as_str(), user.password_hash.as_str()) {
        Ok(b) => b,
        Err(()) => {
            return Err(ServiceError::Internal);
        },
    };
    if !valid {
        return Err(ServiceError::WrongPassword);
    }
    match hash_password(req.new_password.as_str()) {
        Ok(h) => Ok(h),
        Err(()) => Err(ServiceError::Internal),
    }
}

} // verus!
