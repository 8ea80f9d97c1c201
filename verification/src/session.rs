//! Sessions: the signed token (an HS256 JWT) that the login cookie holds,
//! how long it lasts and what the pages read from it.
use jsonwebtoken::{decode, encode, Algorithm, DecodingKey, EncodingKey, Header, Validation};
use serde_json::{from_value, Value};
use vstd::prelude::*;

verus! {

/// Seconds a session lasts: seven days.
pub const SESSION_SECONDS: u64 = 604800;

/// Seconds of grace after a token's expiry during which it is still taken.
pub const EXPIRY_LEEWAY: u64 = 60;

/// The claims a session token carries.
pub struct SessionClaims {
    /// The account's id.
    pub id: i32,
    /// The account's email.
    pub email: String,
    /// The account's name, when it has one.
    pub nome: Option<String>,
    /// The account's profile, when it has one.
    pub perfil: Option<i32>,
    /// Whether the account is a demo account.
    pub is_demo: bool,
    /// Expiry, in seconds since the Unix epoch.
    pub exp: u64,
}

/// The claims as plain values: id, email, name, profile, demo flag, expiry.
pub type ClaimsView = (i32, Seq<char>, Option<Seq<char>>, Option<i32>, bool, u64);

/// The view of an optional text.
pub open spec fn opt_text(o: Option<String>) -> Option<Seq<char>> {
    match o {
        Some(s) => Some(s@),
        None => None,
    }
}

impl View for SessionClaims {
    type V = ClaimsView;

    open spec fn view(&self) -> ClaimsView {
        (self.id, self.email@, opt_text(self.nome), self.perfil, self.is_demo, self.exp)
    }
}

/// The view of optional claims.
pub open spec fn opt_claims(o: Option<SessionClaims>) -> Option<ClaimsView> {
    match o {
        Some(c) => Some(c@),
        None => None,
    }
}

/// The text of the HS256 JWT that carries `claims`, signed with `secret`.
pub uninterp spec fn hs256_token(claims: ClaimsView, secret: Seq<u8>) -> Seq<char>;

/// The claims of `token` when it is an HS256 JWT whose signature checks out
/// under `secret` and whose payload carries the claims' fields with their
/// types (the expiry as a whole number, without an audience); `None`
/// otherwise. The expiry is not compared with any clock here.
pub uninterp spec fn signed_claims(token: Seq<char>, secret: Seq<u8>) -> Option<ClaimsView>;

/// `jsonwebtoken::encode` with the default header (HS256), of a JSON object
/// holding the claims (`nome` and `perfil` as `null` when absent; the keys
/// come out in sorted order, as `serde_json::Map` keeps them), keyed with
/// `EncodingKey::from_secret`. Trusted: a token always comes back (an HMAC
/// key passes the key check, a JSON value always serialises and HMAC
/// signing does not fail); it is
/// `hs256_token` of the claims and the secret, and `jsonwebtoken::decode`
/// with the same secret gives the same claims back (`signed_claims`).
#[verifier::external_body]
fn encode_session(claims: &SessionClaims, secret: &[u8]) -> (r: Option<String>)
    ensures
        r is Some,
        r matches Some(t) ==> t@ == hs256_token(claims@, secret@) && signed_claims(t@, secret@)
            == Some(claims@),
{
    let mut m = serde_json::Map::new();
    m.insert("id".to_string(), Value::from(claims.id));
    m.insert("email".to_string(), Value::from(claims.email.clone()));
    m.insert("nome".to_string(), Value::from(claims.nome.clone()));
    m.insert("perfil".to_string(), Value::from(claims.perfil));
    m.insert("is_demo".to_string(), Value::from(claims.is_demo));
    m.insert("exp".to_string(), Value::from(claims.exp));
    encode(&Header::default(), &Value::Object(m), &EncodingKey::from_secret(secret)).ok()
}

/// `jsonwebtoken::decode` of `token` into a JSON value, with
/// `Validation::new(Algorithm::HS256)` but `validate_exp` off (the expiry is
/// checked by `fresh_claims`), keyed with `DecodingKey::from_secret`; then
/// each field is read from the value with `serde_json::from_value` (a
/// missing name or profile reads as absent). Trusted: the result is
/// `signed_claims` of the token and the secret.
#[verifier::external_body]
fn decode_session(token: &str, secret: &[u8]) -> (r: Option<SessionClaims>)
    ensures
        opt_claims(r) == signed_claims(token@, secret@),
{
    let mut v = Validation::new(Algorithm::HS256);
    v.validate_exp = false;
    let c = decode::<Value>(token, &DecodingKey::from_secret(secret), &v).ok()?.claims;
    Some(SessionClaims {
        id: from_value(c.get("id")?.clone()).ok()?,
        email: from_value(c.get("email")?.clone()).ok()?,
        nome: from_value(c.get("nome").cloned().unwrap_or(Value::Null)).ok()?,
        perfil: from_value(c.get("perfil").cloned().unwrap_or(Value::Null)).ok()?,
        is_demo: from_value(c.get("is_demo")?.clone()).ok()?,
        exp: from_value(c.get("exp")?.clone()).ok()?,
    })
}

/// Whether a token with expiry `exp` is still taken at time `now`: up to
/// `EXPIRY_LEEWAY` seconds after it expires.
pub open spec fn fresh(exp: u64, now: u64) -> bool {
    exp + EXPIRY_LEEWAY >= now
}

/// The claims that sign someone in at time `now`, from what a token holds.
pub open spec fn live(claims: Option<ClaimsView>, now: u64) -> Option<ClaimsView> {
    match claims {
        Some(c) => if fresh(c.5, now) {
            Some(c)
        } else {
            None
        },
        None => None,
    }
}

/// The claims of `token` that sign someone in at time `now`.
pub open spec fn live_claims(token: Seq<char>, secret: Seq<u8>, now: u64) -> Option<ClaimsView> {
    live(signed_claims(token, secret), now)
}

/// The user a session token signs in at time `now`.
pub open spec fn live_user(token: Option<Seq<char>>, secret: Seq<u8>, now: u64) -> Option<i32> {
    match token {
        Some(t) => match live_claims(t, secret, now) {
            Some(c) => Some(c.0),
            None => None,
        },
        None => None,
    }
}

/// The expiry of a session that starts at `now`, when it fits in a `u64`.
pub fn session_expiry(now: u64) -> (r: Option<u64>)
    ensures
        now + SESSION_SECONDS <= u64::MAX ==> r == Some((now + SESSION_SECONDS) as u64),
        now + SESSION_SECONDS > u64::MAX ==> r is None,
{
    now.checked_add(SESSION_SECONDS)
}

/// The session token for an account that signs in at `now`: its claims with
/// an expiry seven days later, signed with `secret`. `None` exactly when
/// the expiry does not fit in a `u64`.
pub fn create_auth_token(
    id: i32,
    email: String,
    nome: Option<String>,
    perfil: Option<i32>,
    is_demo: bool,
    now: u64,
    secret: &[u8],
) -> (r: Option<String>)
    ensures
        r is Some <==> now + SESSION_SECONDS <= u64::MAX,
        r matches Some(t) ==> {
            let c: ClaimsView = (
                id,
                email@,
                opt_text(nome),
                perfil,
                is_demo,
                (now + SESSION_SECONDS) as u64,
            );
            &&& now + SESSION_SECONDS <= u64::MAX
            &&& t@ == hs256_token(c, secret@)
            &&& signed_claims(t@, secret@) == Some(c)
        },
{
    let exp = match session_expiry(now) {
        Some(e) => e,
        None => {
            return None;
        },
    };
    let claims = SessionClaims { id, email, nome, perfil, is_demo, exp };
    encode_session(&claims, secret)
}

/// The claims that sign someone in at time `now`: `claims` when present and
/// not expired (with `EXPIRY_LEEWAY` seconds of grace), `None` otherwise.
pub fn fresh_claims(claims: Option<SessionClaims>, now: u64) -> (r: Option<SessionClaims>)
    ensures
        opt_claims(r) == live(opt_claims(claims), now),
{
    match claims {
        Some(c) => {
            if now <= EXPIRY_LEEWAY || c.exp >= now - EXPIRY_LEEWAY {
                Some(c)
            } else {
                None
            }
        },
        None => None,
    }
}

/// The claims of a session token at time `now`: the token's signature must
/// check out under `secret` and the token must not have expired.
pub fn session_claims(token: &str, secret: &[u8], now: u64) -> (r: Option<SessionClaims>)
    ensures
        opt_claims(r) == live_claims(token@, secret@, now),
{
    fresh_claims(decode_session(token, secret), now)
}

/// The account that claims name, if any.
pub fn session_user(claims: Option<SessionClaims>) -> (r: Option<i32>)
    ensures
        r == match claims {
            Some(c) => Some(c.id),
            None => None::<i32>,
        },
{
    match claims {
        Some(c) => Some(c.id),
        None => None,
    }
}

/// Whether claims name a demo account (no claims: no).
pub fn session_is_demo(claims: Option<SessionClaims>) -> (r: bool)
    ensures
        r == match claims {
            Some(c) => c.is_demo,
            None => false,
        },
{
    match claims {
        Some(c) => c.is_demo,
        None => false,
    }
}

/// The signed-in user: the account named by the session cookie's token
/// (`None` without a cookie, or with a token that is forged or expired).
pub fn authenticated_user_id(token: Option<&str>, secret: &[u8], now: u64) -> (r: Option<i32>)
    ensures
        r == live_user(
            match token {
                Some(t) => Some(t@),
                None => None,
            },
            secret@,
            now,
        ),
{
    match token {
        Some(t) => session_user(session_claims(t, secret, now)),
        None => None,
    }
}

/// Whether the session cookie's token names a demo account.
pub fn is_demo_user(token: Option<&str>, secret: &[u8], now: u64) -> (r: bool)
    ensures
        r == match token {
            Some(t) => match live_claims(t@, secret@, now) {
                Some(c) => c.4,
                None => false,
            },
            None => false,
        },
{
    match token {
        Some(t) => session_is_demo(session_claims(t, secret, now)),
        None => false,
    }
}

/// A token made at sign-in signs its account in for the seven days of the
/// session and the minute of grace after: read back at any time from the
/// sign-in to then, it names the account it was made for.
pub proof fn law_session_lasts_a_week(
    id: i32,
    email: Seq<char>,
    nome: Option<Seq<char>>,
    perfil: Option<i32>,
    is_demo: bool,
    login: u64,
    now: u64,
    secret: Seq<u8>,
    token: Seq<char>,
)
    requires
        login + SESSION_SECONDS <= u64::MAX,
        signed_claims(token, secret) == Some(
            (id, email, nome, perfil, is_demo, (login + SESSION_SECONDS) as u64),
        ),
        now <= login + SESSION_SECONDS + EXPIRY_LEEWAY,
    ensures
        live_user(Some(token), secret, now) == Some(id),
{
}

/// Once the session and its minute of grace are over, the token signs no
/// one in, whatever it names.
pub proof fn law_expired_session_signs_nobody_in(token: Seq<char>, secret: Seq<u8>, now: u64)
    requires
        signed_claims(token, secret) matches Some(c) && c.5 + EXPIRY_LEEWAY < now,
    ensures
        live_user(Some(token), secret, now) is None,
{
}

} // verus!
