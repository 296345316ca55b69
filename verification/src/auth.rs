//! The authentication middleware: from a request's headers to a caller
//! identity, or a rejection before any handler logic runs.
//!
//! A protected request must carry `Authorization: Bearer <token>`. A missing
//! header, a value without the `Bearer ` prefix, a token the codec refuses,
//! and a subject that is not a well-formed user identifier each reject the
//! request; every rejection maps to the same unauthorized status, and the
//! caller never learns which check failed beyond its short message.

use vstd::prelude::*;
use vstd::string::*;
use crate::bytestr::{is_prefix_of, starts_with};
use crate::http::{first_header_value, header_value, headers_view, HeaderEntry};
use crate::ids::{parse_user_id, parsed_uuid};
use crate::token::{decode_token, signed_token, Claims, ClaimsView};

verus! {

/// Why a request was rejected. Every variant maps to the same unauthorized
/// status; the messages mirror the services' short diagnostic bodies.
#[derive(Debug, PartialEq, Eq, Clone, Copy)]
pub enum AuthError {
    /// No `Authorization` header was present.
    MissingHeader,
    /// The header did not have the form `Bearer <token>`.
    InvalidFormat,
    /// The token was malformed, its signature did not match, or it expired.
    InvalidToken,
    /// The token's subject is not a well-formed user identifier.
    InvalidUserId,
}

/// The status every authentication rejection maps to.
pub const STATUS_UNAUTHORIZED: u16 = 401;

impl AuthError {
    /// The HTTP status of this rejection.
    pub fn status_code(&self) -> (r: u16)
        ensures
            r == STATUS_UNAUTHORIZED,
    {
        STATUS_UNAUTHORIZED
    }

    /// The short diagnostic message of this rejection.
    pub open spec fn message_spec(&self) -> Seq<char> {
        match self {
            AuthError::MissingHeader => "Missing authorization header"@,
            AuthError::InvalidFormat => "Invalid authorization format"@,
            AuthError::InvalidToken => "Invalid or expired token"@,
            AuthError::InvalidUserId => "Invalid user id in token"@,
        }
    }

    /// The short diagnostic message of this rejection.
    pub fn message(&self) -> (r: String)
        ensures
            r@ == self.message_spec(),
    {
        match self {
            AuthError::MissingHeader => "Missing authorization header".to_owned(),
            AuthError::InvalidFormat => "Invalid authorization format".to_owned(),
            AuthError::InvalidToken => "Invalid or expired token".to_owned(),
            AuthError::InvalidUserId => "Invalid user id in token".to_owned(),
        }
    }
}

/// The authenticated caller a handler receives: the minimal identity fact,
/// created per request and never persisted.
#[derive(Debug, Clone)]
pub struct AuthUser {
    pub user_id: u128,
    pub username: String,
}

/// The name of the header the middleware reads.
pub open spec fn authorization_name() -> Seq<u8> {
    "authorization".spec_bytes()
}

/// The scheme prefix the header value must carry.
pub open spec fn bearer_prefix() -> Seq<u8> {
    "Bearer ".spec_bytes()
}

/// The token carried by a header list, when one is carried at all: the
/// value of the first `Authorization` header, with the `Bearer ` prefix
/// removed.
pub open spec fn bearer_token_of(hs: Seq<crate::http::HeaderView>) -> Option<Seq<u8>> {
    match first_header_value(hs, authorization_name()) {
        None => None,
        Some(v) => if is_prefix_of(bearer_prefix(), v) {
            Some(v.skip(bearer_prefix().len() as int))
        } else {
            None
        },
    }
}

/// Extracts the bearer token from a request's headers: the first
/// `Authorization` header must exist and begin with `Bearer `.
pub fn extract_bearer(headers: &Vec<HeaderEntry>) -> (r: Result<Vec<u8>, AuthError>)
    ensures
        first_header_value(headers_view(headers@), authorization_name()) is None <==> r
            == Err::<Vec<u8>, AuthError>(AuthError::MissingHeader),
        r is Ok ==> bearer_token_of(headers_view(headers@)) == Some(r->Ok_0@),
        r is Err ==> bearer_token_of(headers_view(headers@)) is None,
        (first_header_value(headers_view(headers@), authorization_name()) is Some
            && bearer_token_of(headers_view(headers@)) is None) <==> r == Err::<
            Vec<u8>,
            AuthError,
        >(AuthError::InvalidFormat),
{
    let name = "authorization".as_bytes();
    let value = match header_value(headers, name) {
        None => {
            return Err(AuthError::MissingHeader);
        },
        Some(v) => v,
    };
    let prefix = "Bearer ".as_bytes();
    if !starts_with(value.as_slice(), prefix) {
        return Err(AuthError::InvalidFormat);
    }
    let token = vstd::slice::slice_subrange(value.as_slice(), prefix.len(), value.len());
    Ok(vstd::slice::slice_to_vec(token))
}

/// Checks the bearer token of a request at time `now` and returns the full
/// claims it carries. Every request whose token was issued with this secret
/// and is still valid passes, with exactly its issued claims; a missing or
/// malformed header, a refused token, and an expired one are each rejected.
pub fn verify_token(headers: &Vec<HeaderEntry>, secret: &[u8], now: u64) -> (r: Result<
    Claims,
    AuthError,
>)
    ensures
        first_header_value(headers_view(headers@), authorization_name()) is None <==> r
            == Err::<Claims, AuthError>(AuthError::MissingHeader),
        (first_header_value(headers_view(headers@), authorization_name()) is Some
            && bearer_token_of(headers_view(headers@)) is None) <==> r == Err::<
            Claims,
            AuthError,
        >(AuthError::InvalidFormat),
        forall|c: ClaimsView|
            bearer_token_of(headers_view(headers@)) == Some(#[trigger] signed_token(c, secret@))
                && now < c.exp ==> r is Ok && r->Ok_0@ == c,
        forall|c: ClaimsView|
            bearer_token_of(headers_view(headers@)) == Some(#[trigger] signed_token(c, secret@))
                && now >= c.exp ==> r == Err::<Claims, AuthError>(AuthError::InvalidToken),
        r is Ok ==> now < r->Ok_0@.exp && bearer_token_of(headers_view(headers@)) is Some,
{
    let ghost hs = headers_view(headers@);
    let token = match extract_bearer(headers) {
        Ok(t) => t,
        Err(e) => {
            return Err(e);
        },
    };
    let r = match decode_token(token.as_slice(), secret, now) {
        Ok(claims) => Ok(claims),
        Err(_) => Err(AuthError::InvalidToken),
    };
    proof {
        assert forall|c: ClaimsView|
            bearer_token_of(hs) == Some(#[trigger] signed_token(c, secret@)) && now
                < c.exp implies r is Ok && r->Ok_0@ == c by {
            assert(token@ == signed_token(c, secret@));
        }
    }
    r
}

impl AuthUser {
    /// Authenticates a request at time `now`: checks the bearer token as
    /// `verify_token` does, then requires the subject to parse as a user
    /// identifier. A request carrying a valid token whose subject is the
    /// canonical text of an identifier yields that identifier and the
    /// token's display name; a valid token with an ill-formed subject is
    /// unauthorized, not a server error.
    pub fn from_headers(headers: &Vec<HeaderEntry>, secret: &[u8], now: u64) -> (r: Result<
        AuthUser,
        AuthError,
    >)
        ensures
            first_header_value(headers_view(headers@), authorization_name()) is None <==> r
                == Err::<AuthUser, AuthError>(AuthError::MissingHeader),
            (first_header_value(headers_view(headers@), authorization_name()) is Some
                && bearer_token_of(headers_view(headers@)) is None) <==> r == Err::<
                AuthUser,
                AuthError,
            >(AuthError::InvalidFormat),
            forall|c: ClaimsView|
                bearer_token_of(headers_view(headers@)) == Some(
                    #[trigger] signed_token(c, secret@),
                ) && now < c.exp && parsed_uuid(c.sub) is Some ==> r is Ok && r->Ok_0.user_id
                    == parsed_uuid(c.sub)->Some_0 && r->Ok_0.username@ == c.username,
            forall|c: ClaimsView|
                bearer_token_of(headers_view(headers@)) == Some(
                    #[trigger] signed_token(c, secret@),
                ) && now < c.exp && parsed_uuid(c.sub) is None ==> r == Err::<
                    AuthUser,
                    AuthError,
                >(AuthError::InvalidUserId),
            forall|c: ClaimsView|
                bearer_token_of(headers_view(headers@)) == Some(
                    #[trigger] signed_token(c, secret@),
                ) && now >= c.exp ==> r == Err::<AuthUser, AuthError>(AuthError::InvalidToken),
    {
        let claims = match verify_token(headers, secret, now) {
            Ok(c) => c,
            Err(e) => {
                return Err(e);
            },
        };
        match parse_user_id(claims.sub.as_str()) {
            Ok(id) => Ok(AuthUser { user_id: id, username: claims.username }),
            Err(()) => Err(AuthError::InvalidUserId),
        }
    }
}

} // verus!
