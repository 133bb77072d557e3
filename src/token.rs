use vstd::prelude::*;
use jsonwebtoken::{decode, encode, Algorithm, DecodingKey, EncodingKey, Header, Validation};
use serde_json::Value;
use uuid::Uuid;
use crate::error::{AppError, AppResult};
use crate::user::{PublicUser, User, UserId};

verus! {

/// How long a token stays valid after it is issued: 24 hours, in seconds.
pub const TOKEN_TTL_SECS: u64 = 24 * 60 * 60;

#[verifier::external_type_specification]
#[verifier::external_body]
pub struct ExJwtError(jsonwebtoken::errors::Error);

/// What jsonwebtoken's `decode` makes of `token` under the HMAC secret
/// `secret`, with HS256, the signature checked and the expiry left to the
/// caller: `None` where it refuses the token or the claims lack a UUID `sub`
/// or an integer `exp`, else those two claims (the UUID as its 128 bits).
pub uninterp spec fn jwt_claims(token: Seq<char>, secret: Seq<char>) -> Option<(u128, u64)>;

/// Relies on jsonwebtoken's `encode` (default header, HS256) of the claims
/// object `{"sub": <hyphenated UUID>, "exp": <seconds>}`: decoding the token
/// under the same secret gives those claims back. It always succeeds here:
/// the default header's HS256 matches the HMAC key made by `from_secret`,
/// serialising the header and a JSON object cannot fail, and HMAC signing
/// returns no error.
#[verifier::external_body]
fn jwt_encode(sub: u128, exp: u64, secret: &str) -> (r: Result<String, jsonwebtoken::errors::Error>)
    ensures
        r is Ok,
        r matches Ok(t) ==> jwt_claims(t@, secret@) == Some((sub, exp)),
{
    let mut claims = serde_json::Map::new();
    claims.insert("sub".to_string(), Value::String(Uuid::from_u128(sub).to_string()));
    claims.insert("exp".to_string(), Value::from(exp));
    encode(&Header::default(), &claims, &EncodingKey::from_secret(secret.as_bytes()))
}

/// Relies on jsonwebtoken's `decode` with HS256 and the `exp` check switched
/// off (expiry is judged by `validate_jwt` against the time it is given), and
/// on `Uuid::parse_str` for the subject.
#[verifier::external_body]
fn jwt_decode(token: &str, secret: &str) -> (r: Option<(u128, u64)>)
    ensures
        r == jwt_claims(token@, secret@),
{
    let mut validation = Validation::new(Algorithm::HS256);
    validation.validate_exp = false;
    let key = DecodingKey::from_secret(secret.as_bytes());
    let data = decode::<serde_json::Map<String, Value>>(token, &key, &validation).ok()?;
    let sub = Uuid::parse_str(data.claims.get("sub")?.as_str()?).ok()?;
    Some((sub.as_u128(), data.claims.get("exp")?.as_u64()?))
}

/// The payload of a token: whom it names and until when (seconds since the
/// Unix epoch) it is valid.
#[derive(Debug, Clone, Copy, PartialEq, Eq, Structural)]
pub struct Claims {
    pub sub: UserId,
    pub exp: u64,
}

/// The user that a request acts for, as its bearer token names it.
#[derive(Debug, Clone, Copy, PartialEq, Eq, Structural)]
pub struct AuthUser(pub UserId);

impl<'a> From<&'a User> for AuthUser {
    fn from(user: &'a User) -> (r: AuthUser) {
        AuthUser(user.id)
    }
}

impl<'a> vstd::std_specs::convert::FromSpecImpl<&'a User> for AuthUser {
    open spec fn obeys_from_spec() -> bool {
        true
    }

    open spec fn from_spec(user: &'a User) -> AuthUser {
        AuthUser(user.id)
    }
}

impl<'a> From<&'a PublicUser> for AuthUser {
    fn from(user: &'a PublicUser) -> (r: AuthUser) {
        AuthUser(user.id)
    }
}

impl<'a> vstd::std_specs::convert::FromSpecImpl<&'a PublicUser> for AuthUser {
    open spec fn obeys_from_spec() -> bool {
        true
    }

    open spec fn from_spec(user: &'a PublicUser) -> AuthUser {
        AuthUser(user.id)
    }
}

/// `token`, under `secret`, carries exactly `claims`.
pub open spec fn token_carries(token: Seq<char>, secret: Seq<char>, claims: Claims) -> bool {
    jwt_claims(token, secret) == Some((claims.sub.0, claims.exp))
}

/// The claims that `validate_jwt` accepts from `token` at time `now`: those it
/// carries under `secret`, where the expiry is strictly after `now`.
pub open spec fn accepted_claims(token: Seq<char>, secret: Seq<char>, now: u64) -> Option<Claims> {
    match jwt_claims(token, secret) {
        Some((sub, exp)) => if now < exp {
            Some(Claims { sub: UserId(sub), exp })
        } else {
            None
        },
        None => None,
    }
}

/// The single refusal given for a missing, malformed, forged or expired
/// token, so that a caller cannot tell which check failed.
pub open spec fn is_unauthorized<T>(r: AppResult<T>) -> bool {
    r matches Err(AppError::Auth(m)) && m@ == "Invalid or expired token"@
}

fn unauthorized<T>() -> (r: AppResult<T>)
    ensures
        is_unauthorized(r),
{
    Err(AppError::Auth(String::from_str("Invalid or expired token")))
}

/// Issues a token for `user`, valid for 24 hours from `now` (seconds since
/// the Unix epoch), signed with `secret`.
pub fn generate_jwt_token(user: &User, secret: &str, now: u64) -> (r: AppResult<String>)
    requires
        now <= u64::MAX - TOKEN_TTL_SECS,
    ensures
        r matches Ok(t) && token_carries(t@, secret@, Claims { sub: user.id, exp: (now + TOKEN_TTL_SECS) as u64 }),
{
    let exp = now + TOKEN_TTL_SECS;
    match jwt_encode(user.id.0, exp, secret) {
        Ok(t) => Ok(t),
        Err(_) => Err(AppError::Internal(String::from_str("Failed to generate token"))),
    }
}

/// Checks a token's signature under `secret` and its expiry against `now`,
/// and returns its claims. Every kind of failure gives the same refusal.
pub fn validate_jwt(token: &str, secret: &str, now: u64) -> (r: AppResult<Claims>)
    ensures
        match accepted_claims(token@, secret@, now) {
            Some(c) => r == Ok::<Claims, AppError>(c),
            None => is_unauthorized(r),
        },
{
    match jwt_decode(token, secret) {
        Some((sub, exp)) => if now < exp {
            Ok(Claims { sub: UserId(sub), exp })
        } else {
            unauthorized()
        },
        None => unauthorized(),
    }
}

/// The credentials of an `Authorization` header value: what follows the
/// `Bearer ` scheme, where the value starts with it.
pub open spec fn bearer_token(header: Seq<char>) -> Option<Seq<char>> {
    if header.len() >= 7 && header.subrange(0, 7) == "Bearer "@ {
        Some(header.skip(7))
    } else {
        None
    }
}

/// The text of an optional header value.
pub open spec fn header_text(header: Option<&str>) -> Option<Seq<char>> {
    match header {
        Some(h) => Some(h@),
        None => None,
    }
}

/// The user that a request carrying the `Authorization` header value `header`
/// acts for at time `now`, if the header carries a bearer token that
/// `validate_jwt` accepts.
pub open spec fn authenticated_user(header: Option<Seq<char>>, secret: Seq<char>, now: u64) -> Option<UserId> {
    match header {
        Some(h) => match bearer_token(h) {
            Some(t) => match accepted_claims(t, secret, now) {
                Some(c) => Some(c.sub),
                None => None,
            },
            None => None,
        },
        None => None,
    }
}

/// Takes the token out of an `Authorization` header value of the form
/// `Bearer <token>`.
pub fn strip_bearer(header: &str) -> (r: Option<&str>)
    ensures
        match bearer_token(header@) {
            Some(t) => r matches Some(s) && s@ == t,
            None => r is None,
        },
{
    let scheme = "Bearer ";
    proof {
        reveal_strlit("Bearer ");
        assert(scheme@.len() == 7);
    }
    let n = header.unicode_len();
    if n < 7 {
        return None;
    }
    let mut i: usize = 0;
    while i < 7
        invariant
            i <= 7,
            n == header@.len(),
            n >= 7,
            scheme@ == "Bearer "@,
            scheme@.len() == 7,
            forall|j: int| 0 <= j < i ==> header@[j] == scheme@[j],
        decreases 7 - i,
    {
        if header.get_char(i) != scheme.get_char(i) {
            assert(header@.subrange(0, 7)[i as int] != scheme@[i as int]);
            return None;
        }
        i = i + 1;
    }
    assert(header@.subrange(0, 7) =~= "Bearer "@);
    Some(header.substring_char(7, n))
}

impl AuthUser {
    /// Resolves the acting user from the request's `Authorization` header
    /// value (`None` where the request has none). A missing header, another
    /// scheme and a token that `validate_jwt` refuses all give the same
    /// refusal.
    pub fn from_authorization(header: Option<&str>, secret: &str, now: u64) -> (r: AppResult<AuthUser>)
        ensures
            match authenticated_user(header_text(header), secret@, now) {
                Some(id) => r == Ok::<AuthUser, AppError>(AuthUser(id)),
                None => is_unauthorized(r),
            },
    {
        match header {
            None => unauthorized(),
            Some(h) => match strip_bearer(h) {
                None => unauthorized(),
                Some(token) => match validate_jwt(token, secret, now) {
                    Ok(claims) => Ok(AuthUser(claims.sub)),
                    Err(_) => unauthorized(),
                },
            },
        }
    }
}

/// Issuing and then validating a token round-trips: a token issued for `user`
/// at `issued` is accepted at every time `now` before it expires, and its
/// claims name the same user.
pub proof fn issued_token_accepted(token: Seq<char>, secret: Seq<char>, user: UserId, issued: u64, now: u64)
    requires
        issued <= u64::MAX - TOKEN_TTL_SECS,
        token_carries(token, secret, Claims { sub: user, exp: (issued + TOKEN_TTL_SECS) as u64 }),
        issued <= now < issued + TOKEN_TTL_SECS,
    ensures
        accepted_claims(token, secret, now) == Some(Claims { sub: user, exp: (issued + TOKEN_TTL_SECS) as u64 }),
{
}

/// A token whose expiry is not strictly after `now` is refused.
pub proof fn expired_token_refused(token: Seq<char>, secret: Seq<char>, claims: Claims, now: u64)
    requires
        token_carries(token, secret, claims),
        claims.exp <= now,
    ensures
        accepted_claims(token, secret, now) is None,
{
}

/// Presenting an issued token as `Bearer <token>` before it expires
/// authenticates the user it was issued for.
pub proof fn bearer_header_authenticates(token: Seq<char>, secret: Seq<char>, user: UserId, issued: u64, now: u64)
    requires
        issued <= u64::MAX - TOKEN_TTL_SECS,
        token_carries(token, secret, Claims { sub: user, exp: (issued + TOKEN_TTL_SECS) as u64 }),
        issued <= now < issued + TOKEN_TTL_SECS,
    ensures
        authenticated_user(Some("Bearer "@ + token), secret, now) == Some(user),
{
    reveal_strlit("Bearer ");
    let h = "Bearer "@ + token;
    assert(h.subrange(0, 7) =~= "Bearer "@);
    assert(h.skip(7) =~= token);
}

} // verus!
