//! The token codec: issuing signed identity tokens and decoding them.
//!
//! A token is a self-contained signed structure carrying the caller's
//! subject identifier, display name, optional e-mail and an expiration
//! timestamp, set at issuance to seven days after the time of issue. The
//! signing and the signature check are the work of an outside library and
//! stand behind two trusted wrappers; what a signed token means — and that
//! an expired one is refused — is stated and proved here. Decoding fails
//! with one undifferentiated error: a caller cannot tell a tampered token
//! from a malformed or an expired one, by design.

use vstd::prelude::*;
use crate::ids::{uuid_text, uuid_to_string};

verus! {

/// The claims a token carries.
#[derive(Debug, Clone)]
pub struct Claims {
    /// The subject: the canonical text of the user identifier.
    pub sub: String,
    /// The display name of the user.
    pub username: String,
    /// The e-mail of the user; services that issue tokens without one leave
    /// it empty.
    pub email: String,
    /// Expiration, as seconds of the Unix epoch.
    pub exp: u64,
}

/// The mathematical value of a set of claims.
pub ghost struct ClaimsView {
    pub sub: Seq<char>,
    pub username: Seq<char>,
    pub email: Seq<char>,
    pub exp: u64,
}

impl View for Claims {
    type V = ClaimsView;

    open spec fn view(&self) -> ClaimsView {
        ClaimsView {
            sub: self.sub@,
            username: self.username@,
            email: self.email@,
            exp: self.exp,
        }
    }
}

/// The signed token the outside library produces for given claims and
/// signing secret: a function of the two alone.
pub uninterp spec fn signed_token(claims: ClaimsView, secret: Seq<u8>) -> Seq<u8>;

/// How long an issued token is valid: seven days.
pub const TOKEN_VALIDITY_SECONDS: u64 = 604800;

/// The claims issued to a user at a given time: the identifier's canonical
/// text as subject, the name and e-mail as given, and an expiration seven
/// days later.
pub open spec fn issued_claims(
    user_id: u128,
    username: Seq<char>,
    email: Seq<char>,
    now: u64,
) -> ClaimsView {
    ClaimsView {
        sub: uuid_text(user_id),
        username: username,
        email: email,
        exp: (now + TOKEN_VALIDITY_SECONDS) as u64,
    }
}

/// A token is accepted at time `now` with claims `c`: it is the signed form
/// of `c` under the secret, and `c` has not yet expired.
pub open spec fn accepts(token: Seq<u8>, secret: Seq<u8>, now: u64, c: ClaimsView) -> bool {
    token == signed_token(c, secret) && now < c.exp
}

/// Issuing a token at the current time fails only when the clock reads a
/// time too large for the expiration arithmetic.
#[derive(Debug, PartialEq, Eq)]
pub struct ClockOutOfRange;

/// The one error decoding can yield: signature mismatch, malformed
/// structure, and expiration are deliberately indistinguishable.
#[derive(Debug, PartialEq, Eq)]
pub struct InvalidToken;

/// Relies on `jsonwebtoken::encode` with the default header: it signs the
/// claims with HMAC-SHA256 over the secret, producing a self-contained
/// token that is a function of the claims and the secret alone. For an HMAC
/// secret and these claims the call cannot fail: the key family matches the
/// default header's algorithm, a JSON object of strings and a number always
/// serializes, and HMAC signing returns no error.
#[verifier::external_body]
fn sign_claims(claims: &Claims, secret: &[u8]) -> (r: Vec<u8>)
    ensures
        r@ == signed_token(claims@, secret@),
{
    let mut m = serde_json::Map::new();
    m.insert("sub".to_string(), serde_json::Value::String(claims.sub.clone()));
    m.insert("username".to_string(), serde_json::Value::String(claims.username.clone()));
    m.insert("email".to_string(), serde_json::Value::String(claims.email.clone()));
    m.insert("exp".to_string(), serde_json::Value::from(claims.exp));
    let key = jsonwebtoken::EncodingKey::from_secret(secret);
    jsonwebtoken::encode(&jsonwebtoken::Header::default(), &serde_json::Value::Object(m), &key)
        .expect("HMAC signing of plain claims cannot fail")
        .into_bytes()
}

/// Relies on `jsonwebtoken::decode`: it accepts a token exactly when the
/// token's HMAC-SHA256 signature matches the secret and the claims are
/// present with their expected types; in particular it accepts every token
/// `jsonwebtoken::encode` signed with the same secret, and returns the very
/// claims that went in. Expiration is not checked here: the caller checks
/// it against its own clock.
#[verifier::external_body]
fn check_signature(token: &[u8], secret: &[u8]) -> (r: Result<Claims, ()>)
    ensures
        forall|c: ClaimsView|
            token@ == signed_token(c, secret@) ==> r is Ok && r->Ok_0@ == c,
{
    let text = std::str::from_utf8(token).map_err(|_| ())?;
    let mut v = jsonwebtoken::Validation::default();
    v.validate_exp = false;
    v.required_spec_claims = std::collections::HashSet::new();
    let key = jsonwebtoken::DecodingKey::from_secret(secret);
    let data = jsonwebtoken::decode::<serde_json::Value>(text, &key, &v).map_err(|_| ())?;
    let s = |k: &str| data.claims.get(k).and_then(|x| x.as_str()).map(str::to_string).ok_or(());
    let exp = data.claims.get("exp").and_then(|x| x.as_u64()).ok_or(())?;
    Ok(Claims { sub: s("sub")?, username: s("username")?, email: s("email")?, exp })
}

/// Issues a token for the given identity at time `now`: exactly the signed
/// form of `issued_claims`, with an expiration seven days out.
pub fn create_token(user_id: u128, username: &str, email: &str, secret: &[u8], now: u64) -> (r:
    Vec<u8>)
    requires
        now + TOKEN_VALIDITY_SECONDS <= u64::MAX,
    ensures
        r@ == signed_token(issued_claims(user_id, username@, email@, now), secret@),
{
    let sub = uuid_to_string(user_id);
    let claims = Claims {
        sub,
        username: username.to_owned(),
        email: email.to_owned(),
        exp: now + TOKEN_VALIDITY_SECONDS,
    };
    sign_claims(&claims, secret)
}

/// Decodes a token at time `now`: the signature must match the secret and
/// the claims must not have expired. Every token issued with this secret
/// and still inside its validity window is accepted with exactly the claims
/// it was issued with; one whose claims have expired is refused; and the
/// error never says why.
pub fn decode_token(token: &[u8], secret: &[u8], now: u64) -> (r: Result<Claims, InvalidToken>)
    ensures
        forall|c: ClaimsView|
            token@ == #[trigger] signed_token(c, secret@) && now < c.exp ==> r is Ok && r->Ok_0@
                == c,
        forall|c: ClaimsView|
            token@ == #[trigger] signed_token(c, secret@) && now >= c.exp ==> r is Err,
        r is Ok ==> now < r->Ok_0@.exp,
{
    match check_signature(token, secret) {
        Ok(claims) => {
            if now < claims.exp {
                Ok(claims)
            } else {
                Err(InvalidToken)
            }
        },
        Err(()) => Err(InvalidToken),
    }
}

/// Relies on `chrono::Utc::now`: the current time as seconds of the Unix
/// epoch, clamped to zero for a clock set before the epoch; nothing is
/// assumed of the value.
#[verifier::external_body]
pub(crate) fn now_unix_seconds() -> u64 {
    chrono::Utc::now().timestamp().max(0) as u64
}

/// Issues a token for the given identity at the current time, as
/// `create_token` does at a caller-supplied time.
pub fn issue_token(user_id: u128, username: &str, email: &str, secret: &[u8]) -> (r: Result<
    Vec<u8>,
    ClockOutOfRange,
>)
    ensures
        r is Ok ==> exists|t: u64|
            r->Ok_0@ == signed_token(
                issued_claims(user_id, username@, email@, t),
                secret@,
            ),
{
    let now = now_unix_seconds();
    if now > u64::MAX - TOKEN_VALIDITY_SECONDS {
        return Err(ClockOutOfRange);
    }
    let t = create_token(user_id, username, email, secret, now);
    proof {
        assert(t@ == signed_token(issued_claims(user_id, username@, email@, now), secret@));
    }
    Ok(t)
}

// ---------------------------------------------------------------------------
// Laws of the codec.
// ---------------------------------------------------------------------------

/// Round trip: a token issued for an identity is accepted at every time
/// inside its validity window, with the very claims it was issued with —
/// the same subject text and the same display name.
pub proof fn lemma_issue_decode_round_trip(
    user_id: u128,
    username: Seq<char>,
    email: Seq<char>,
    secret: Seq<u8>,
    issued_at: u64,
    now: u64,
)
    requires
        issued_at + TOKEN_VALIDITY_SECONDS <= u64::MAX,
        now < issued_at + TOKEN_VALIDITY_SECONDS,
    ensures
        ({
            let c = issued_claims(user_id, username, email, issued_at);
            accepts(signed_token(c, secret), secret, now, c) && c.sub == uuid_text(user_id)
                && c.username == username
        }),
{
}

/// Expiry window: a token issued at time `t` is still accepted six days
/// later, and no longer accepted — with its issued claims — eight days
/// later.
pub proof fn lemma_expiry_window(
    user_id: u128,
    username: Seq<char>,
    email: Seq<char>,
    secret: Seq<u8>,
    issued_at: u64,
)
    requires
        issued_at + 8 * 86400 <= u64::MAX,
    ensures
        ({
            let c = issued_claims(user_id, username, email, issued_at);
            let token = signed_token(c, secret);
            accepts(token, secret, (issued_at + 6 * 86400) as u64, c) && !accepts(
                token,
                secret,
                (issued_at + 8 * 86400) as u64,
                c,
            )
        }),
{
}

} // verus!
