//! Authentication: JSON Web Tokens signed with the admin password, constant-time
//! password comparison, and the bearer-token check of protected requests.
use vstd::prelude::*;
use subtle::ConstantTimeEq;
use crate::errors::ApiError;
use crate::text::{decimal, decimal_string, copy_text, concat2, strip_prefix_text, is_err_with};

verus! {

/// The claims carried by a token.
#[derive(Debug, Clone)]
pub struct Claims {
    /// The user the token was issued to.
    pub sub: String,
    /// Expiry, in Unix seconds.
    pub exp: u64,
    /// Issue time, in Unix seconds.
    pub iat: u64,
    /// Token id: "jti_" and the issue time.
    pub jti: String,
}

/// Seconds in an hour.
pub const SECONDS_PER_HOUR: u64 = 3600;

/// The token id of a token issued at `now`.
pub open spec fn token_id(now: u64) -> Seq<char> {
    "jti_"@ + decimal(now as nat)
}

/// The expiry of a token issued at `now` that lives `hours` hours, capped at the
/// largest time a `u64` holds.
pub open spec fn expiry(now: u64, hours: u64) -> u64 {
    if now + hours * 3600 <= u64::MAX { (now + hours * 3600) as u64 } else { u64::MAX }
}

/// The current Unix time in seconds (`SystemTime::now` since `UNIX_EPOCH`); a
/// clock set before the epoch reads as 0.
#[verifier::external_body]
fn unix_now_secs() -> u64 {
    std::time::SystemTime::now().duration_since(std::time::UNIX_EPOCH).map(|d| d.as_secs()).unwrap_or_default()
}

impl Claims {
    /// Claims for `user_id`, issued at `now` and valid for `expires_in_hours` hours.
    pub fn new_at(user_id: String, expires_in_hours: u64, now: u64) -> (r: Self)
        requires
            now + expires_in_hours * 3600 <= u64::MAX,
        ensures
            r.sub@ == user_id@,
            r.iat == now,
            r.exp == now + expires_in_hours * 3600,
            r.jti@ == token_id(now),
    {
        let exp = now + expires_in_hours * SECONDS_PER_HOUR;
        let d = decimal_string(now);
        Claims { sub: user_id, exp, iat: now, jti: concat2("jti_", d.as_str()) }
    }

    /// Claims for `user_id`, issued now and valid for `expires_in_hours` hours.
    pub fn new(user_id: String, expires_in_hours: u64) -> (r: Self)
        requires
            expires_in_hours * 3600 <= u64::MAX,
        ensures
            r.sub@ == user_id@,
            r.exp == expiry(r.iat, expires_in_hours),
            r.jti@ == token_id(r.iat),
    {
        let now = unix_now_secs();
        let life = expires_in_hours * SECONDS_PER_HOUR;
        if now <= u64::MAX - life {
            Claims::new_at(user_id, expires_in_hours, now)
        } else {
            let d = decimal_string(now);
            Claims { sub: user_id, exp: u64::MAX, iat: now, jti: concat2("jti_", d.as_str()) }
        }
    }
}

/// The HS256 token that `jsonwebtoken` signs for the given claims and secret.
pub uninterp spec fn hs256_token(sub: Seq<char>, exp: u64, iat: u64, jti: Seq<char>, secret: Seq<char>) -> Seq<char>;

/// `jsonwebtoken::encode` with the default header (HS256) and an HMAC key made
/// from the secret's bytes, of a JSON object holding the four claims in the
/// order `sub`, `exp`, `iat`, `jti` (`serde_json` keeps insertion order). Its source
/// shows that this never fails for an HMAC key: the key family matches the
/// algorithm, a JSON object always serializes, and HMAC signing cannot fail.
/// The token is a function of the claims and the secret, never empty (it
/// joins three encoded parts with dots), and decoding it with the same secret
/// passes every check that does not read the clock and reads these claims
/// back (the header names HS256, the signature is the one just made, and the
/// payload is the JSON object of the four claims).
#[verifier::external_body]
fn jwt_encode(sub: &str, exp: u64, iat: u64, jti: &str, secret: &str) -> (r: Result<String, String>)
    ensures
        r is Ok,
        r->Ok_0@ == hs256_token(sub@, exp, iat, jti@, secret@),
        r->Ok_0@.len() > 0,
        hs256_decoded(r->Ok_0@, secret@) == Some((Some(sub@), Some(exp), Some(iat), Some(jti@))),
{
    let mut claims = serde_json::Map::new();
    claims.insert("sub".to_string(), serde_json::Value::from(sub));
    claims.insert("exp".to_string(), serde_json::Value::from(exp));
    claims.insert("iat".to_string(), serde_json::Value::from(iat));
    claims.insert("jti".to_string(), serde_json::Value::from(jti));
    let key = jsonwebtoken::EncodingKey::from_secret(secret.as_bytes());
    jsonwebtoken::encode(&jsonwebtoken::Header::default(), &claims, &key).map_err(|e| e.to_string())
}

/// The claims `sub`, `exp`, `iat` and `jti` (each absent where the payload
/// lacks it or holds a value of another type) that `jsonwebtoken` reads from
/// `token` checked with `secret`, when every check of the crate that does not
/// read the clock passes: three dot-separated parts, a header naming HS256, an
/// HMAC-SHA256 signature that matches under the secret's bytes, a JSON payload
/// with a numeric `exp`, and no audience. `None` when one of them fails.
pub uninterp spec fn hs256_decoded(token: Seq<char>, secret: Seq<char>) -> Option<(Option<Seq<char>>, Option<u64>, Option<u64>, Option<Seq<char>>)>;

/// Decoded claim fields as text.
pub open spec fn fields_view(f: (Option<String>, Option<u64>, Option<u64>, Option<String>)) -> (Option<Seq<char>>, Option<u64>, Option<u64>, Option<Seq<char>>) {
    (
        match f.0 { Some(s) => Some(s@), None => None },
        f.1,
        f.2,
        match f.3 { Some(j) => Some(j@), None => None },
    )
}

/// `jsonwebtoken::decode` into a JSON value, with an HMAC key made from the
/// secret's bytes and the default validation (HS256 only, `exp` required and
/// checked against the clock with 60 seconds of leeway, no audience, issuer or
/// subject expected); the claims `sub`, `exp`, `iat` and `jti` are then read
/// from the value with `Value::get` and `as_str` / `as_u64`, and an error is
/// given by its text. Stated: a token that fails a check that does not read
/// the clock is refused; one that passes them gives back its claims, or, when
/// the clock has passed its expiry, the error `ExpiredSignature` (the crate
/// refuses when `exp < now - 60`, so never for an `exp` of `u64::MAX`).
/// Not stated: the text of the other errors, and that the crate panics when
/// the clock reads before 1970.
#[verifier::external_body]
fn jwt_decode_claims(token: &str, secret: &str) -> (r: Result<(Option<String>, Option<u64>, Option<u64>, Option<String>), String>)
    ensures
        match hs256_decoded(token@, secret@) {
            None => r is Err,
            Some(f) => match r {
                Ok(g) => fields_view(g) == f,
                Err(m) => m@ == "ExpiredSignature"@ && f.1 != Some(u64::MAX),
            },
        },
{
    let key = jsonwebtoken::DecodingKey::from_secret(secret.as_bytes());
    let data = jsonwebtoken::decode::<serde_json::Value>(token, &key, &jsonwebtoken::Validation::default());
    let v = data.map_err(|e| e.to_string())?.claims;
    Ok((
        v.get("sub").and_then(serde_json::Value::as_str).map(str::to_string),
        v.get("exp").and_then(serde_json::Value::as_u64),
        v.get("iat").and_then(serde_json::Value::as_u64),
        v.get("jti").and_then(serde_json::Value::as_str).map(str::to_string),
    ))
}

/// Assembles claims from the decoded fields; the first one missing is named.
pub fn claims_from_fields(sub: Option<String>, exp: Option<u64>, iat: Option<u64>, jti: Option<String>) -> (r: Result<Claims, String>)
    ensures
        match (sub, exp, iat, jti) {
            (Some(s), Some(e), Some(i), Some(j)) => r matches Ok(c) && c.sub@ == s@ && c.exp == e && c.iat == i && c.jti@ == j@,
            (None, _, _, _) => is_err_with(r, "missing field `sub`"@),
            (Some(_), None, _, _) => is_err_with(r, "missing field `exp`"@),
            (Some(_), Some(_), None, _) => is_err_with(r, "missing field `iat`"@),
            (Some(_), Some(_), Some(_), None) => is_err_with(r, "missing field `jti`"@),
        },
{
    match (sub, exp, iat, jti) {
        (Some(s), Some(e), Some(i), Some(j)) => Ok(Claims { sub: s, exp: e, iat: i, jti: j }),
        (None, _, _, _) => Err(copy_text("missing field `sub`")),
        (Some(_), None, _, _) => Err(copy_text("missing field `exp`")),
        (Some(_), Some(_), None, _) => Err(copy_text("missing field `iat`")),
        (Some(_), Some(_), Some(_), None) => Err(copy_text("missing field `jti`")),
    }
}

/// Whether `r` is the verdict on decoded claims at time `now`: a decoding
/// failure is a bad signature; claims that expired before `now` are refused;
/// others are accepted as they are.
pub open spec fn checked_at(r: Result<Claims, String>, decoded: Result<Claims, String>, now: u64) -> bool {
    match decoded {
        Err(e) => is_err_with(r, "Invalid token signature: "@ + e@),
        Ok(c) => if c.exp < now {
            is_err_with(r, "Token expired"@)
        } else {
            r matches Ok(d) && d.sub@ == c.sub@ && d.exp == c.exp && d.iat == c.iat && d.jti@ == c.jti@
        },
    }
}

/// The verdict on a decoded token at time `now`: a decoding failure is a bad
/// signature; claims that expired before `now` are refused; others are accepted.
pub fn check_token_claims(decoded: Result<Claims, String>, now: u64) -> (r: Result<Claims, String>)
    ensures
        checked_at(r, decoded, now),
{
    match decoded {
        Err(e) => Err(concat2("Invalid token signature: ", e.as_str())),
        Ok(c) => {
            if c.exp < now {
                Err(copy_text("Token expired"))
            } else {
                Ok(c)
            }
        },
    }
}

/// Whether `e` starts with the prefix of a decoding refusal.
pub open spec fn is_signature_refusal(e: Seq<char>) -> bool {
    e.len() >= 25 && e.subrange(0, 25) == "Invalid token signature: "@
}

/// What validating a token whose checks without the clock pass, with claims
/// `sub`, `exp`, `iat`, `jti`, gives: these claims, or one of the two expiry
/// errors (the decoder's, past its leeway, or this check's, within it); a
/// token whose expiry is the last second of `u64` never expires.
pub open spec fn issued_token_verdict(r: Result<Claims, String>, sub: Seq<char>, exp: u64, iat: u64, jti: Seq<char>) -> bool {
    match r {
        Ok(c) => c.sub@ == sub && c.exp == exp && c.iat == iat && c.jti@ == jti,
        Err(e) => (e@ == "Invalid token signature: ExpiredSignature"@ || e@ == "Token expired"@) && exp < u64::MAX,
    }
}

/// The verdict on `token` checked with `secret`: an empty token is refused as
/// such; one that fails the decoder's checks without the clock, or lacks a
/// claim, is refused with the decoder's complaint; otherwise the verdict is
/// the token's claims or an expiry error.
pub open spec fn validation_verdict(r: Result<Claims, String>, token: Seq<char>, secret: Seq<char>) -> bool {
    if token.len() == 0 {
        is_err_with(r, "Empty auth token"@)
    } else {
        match hs256_decoded(token, secret) {
            Some((Some(s), Some(e), Some(i), Some(j))) => issued_token_verdict(r, s, e, i, j),
            _ => r matches Err(e) && is_signature_refusal(e@),
        }
    }
}

/// Validates a token's signature and expiry with the given secret. An empty
/// token is refused without decoding.
pub fn validate_auth_token(token: &str, secret: &str) -> (r: Result<Claims, String>)
    ensures
        validation_verdict(r, token@, secret@),
{
    if token.is_empty() {
        return Err(copy_text("Empty auth token"));
    }
    let raw = jwt_decode_claims(token, secret);
    let ghost raw0 = raw;
    let decoded = match raw {
        Err(e) => Err(e),
        Ok((sub, exp, iat, jti)) => claims_from_fields(sub, exp, iat, jti),
    };
    let now = unix_now_secs();
    let ghost d0 = decoded;
    let r = check_token_claims(decoded, now);
    proof {
        reveal_strlit("Invalid token signature: ");
        reveal_strlit("ExpiredSignature");
        reveal_strlit("Invalid token signature: ExpiredSignature");
        assert("Invalid token signature: "@ + "ExpiredSignature"@ =~= "Invalid token signature: ExpiredSignature"@);
        if d0 is Err {
            assert(r->Err_0@ == "Invalid token signature: "@ + d0->Err_0@);
            assert(r->Err_0@.subrange(0, 25) =~= "Invalid token signature: "@);
        }
    }
    r
}

/// Whether `token` is one that was issued for `user`, valid for `hours` hours,
/// signed with `secret` at some time `now`: the token of those claims, which
/// decoding with the secret reads back.
pub open spec fn issued_token(token: Seq<char>, user: Seq<char>, hours: u64, secret: Seq<char>) -> bool {
    &&& token.len() > 0
    &&& exists|now: u64| {
        &&& token == #[trigger] hs256_token(user, expiry(now, hours), now, token_id(now), secret)
        &&& hs256_decoded(token, secret) == Some((Some(user), Some(expiry(now, hours)), Some(now), Some(token_id(now))))
    }
}

/// A token issued for `user`, valid for `hours` hours, and validated with the
/// same secret gives back that user, an expiry `hours` after its issue time and
/// an id naming that time; otherwise it has expired.
pub proof fn law_issued_token_validates(token: Seq<char>, user: Seq<char>, hours: u64, secret: Seq<char>, v: Result<Claims, String>)
    requires
        issued_token(token, user, hours, secret),
        validation_verdict(v, token, secret),
    ensures
        v matches Ok(c) ==> c.sub@ == user && c.exp == expiry(c.iat, hours) && c.jti@ == token_id(c.iat),
        v matches Err(e) ==> e@ == "Invalid token signature: ExpiredSignature"@ || e@ == "Token expired"@,
{
    let now = choose|now: u64| {
        &&& token == #[trigger] hs256_token(user, expiry(now, hours), now, token_id(now), secret)
        &&& hs256_decoded(token, secret) == Some((Some(user), Some(expiry(now, hours)), Some(now), Some(token_id(now))))
    };
    assert(issued_token_verdict(v, user, expiry(now, hours), now, token_id(now)));
}

/// Issues a token for `user_id`, valid for `expires_in_hours` hours from now and
/// signed with `secret`.
pub fn generate_token(user_id: String, expires_in_hours: u64, secret: &str) -> (r: Result<String, String>)
    requires
        expires_in_hours * 3600 <= u64::MAX,
    ensures
        r matches Ok(t) && issued_token(t@, user_id@, expires_in_hours, secret@),
{
    let ghost u = user_id@;
    let now = unix_now_secs();
    if now <= u64::MAX - expires_in_hours * SECONDS_PER_HOUR {
        let r = issue_token_at(user_id, expires_in_hours, secret, now);
        proof {
            let t = r->Ok_0@;
            assert(expiry(now, expires_in_hours) == now + expires_in_hours * 3600);
            assert(t == hs256_token(u, expiry(now, expires_in_hours), now, token_id(now), secret@));
        }
        return r;
    }
    let claims = Claims::new(user_id, expires_in_hours);
    let r = jwt_encode(claims.sub.as_str(), claims.exp, claims.iat, claims.jti.as_str(), secret);
    match r {
        Ok(t) => Ok(t),
        Err(e) => Err(concat2("Token generation failed: ", e.as_str())),
    }
}

/// Whether `token` is the one issued at time `now` for `user`, valid for `hours`
/// hours, signed with `secret`: the token of the claims `sub = user`,
/// `iat = now`, `exp = now + hours * 3600` and `jti = "jti_" + now`, which
/// decoding with the secret reads back.
pub open spec fn issued_at(token: Seq<char>, user: Seq<char>, hours: u64, secret: Seq<char>, now: u64) -> bool {
    &&& token.len() > 0
    &&& token == hs256_token(user, (now + hours * 3600) as u64, now, token_id(now), secret)
    &&& hs256_decoded(token, secret) == Some((Some(user), Some((now + hours * 3600) as u64), Some(now), Some(token_id(now))))
}

/// Issues a token for `user_id` at time `now`, valid for `expires_in_hours`
/// hours and signed with `secret`.
pub fn issue_token_at(user_id: String, expires_in_hours: u64, secret: &str, now: u64) -> (r: Result<String, String>)
    requires
        now + expires_in_hours * 3600 <= u64::MAX,
    ensures
        r matches Ok(t) && issued_at(t@, user_id@, expires_in_hours, secret@, now),
{
    let claims = Claims::new_at(user_id, expires_in_hours, now);
    let r = jwt_encode(claims.sub.as_str(), claims.exp, claims.iat, claims.jti.as_str(), secret);
    match r {
        Ok(t) => Ok(t),
        Err(e) => Err(concat2("Token generation failed: ", e.as_str())),
    }
}

/// Whether `decoded` holds the claims that `fields` were decoded into.
pub open spec fn holds_decoded(decoded: Result<Claims, String>, fields: Option<(Option<Seq<char>>, Option<u64>, Option<u64>, Option<Seq<char>>)>) -> bool {
    decoded matches Ok(c) && fields == Some((Some(c.sub@), Some(c.exp), Some(c.iat), Some(c.jti@)))
}

/// A token's lifetime: a token issued at time `issued` for `hours` hours, read
/// back by the decoder and checked at time `checked`, is accepted with the
/// issuing user and its issue and expiry times when `checked` lies within the
/// lifetime, and refused as expired once the lifetime is over.
pub proof fn law_token_lifetime(
    token: Seq<char>,
    user: Seq<char>,
    hours: u64,
    secret: Seq<char>,
    issued: u64,
    checked: u64,
    decoded: Result<Claims, String>,
    r: Result<Claims, String>,
)
    requires
        issued + hours * 3600 <= u64::MAX,
        issued_at(token, user, hours, secret, issued),
        holds_decoded(decoded, hs256_decoded(token, secret)),
        checked_at(r, decoded, checked),
    ensures
        checked <= issued + hours * 3600 ==> (r matches Ok(c) && c.sub@ == user && c.iat == issued
            && c.exp == issued + hours * 3600),
        checked > issued + hours * 3600 ==> is_err_with(r, "Token expired"@),
{
}

/// `ConstantTimeEq::ct_eq` of `subtle` on the UTF-8 bytes of two strings: true
/// exactly when the byte strings have equal length and equal contents, which for
/// UTF-8 text means equal strings.
#[verifier::external_body]
fn constant_time_text_eq(a: &str, b: &str) -> (r: bool)
    ensures
        r == (a@ == b@),
{
    a.as_bytes().ct_eq(b.as_bytes()).into()
}

/// Compares a password with the expected one in constant time; an empty input
/// never matches.
pub fn verify_password(input: &str, expected: &str) -> (r: bool)
    ensures
        r == (input@.len() > 0 && input@ == expected@),
{
    if input.is_empty() {
        return false;
    }
    constant_time_text_eq(input, expected)
}

/// The token of an `Authorization: Bearer <token>` header value.
pub fn bearer_token(header: Option<&str>) -> (r: Option<String>)
    ensures
        match header {
            None => r is None,
            Some(h) => match r {
                Some(t) => h@.len() >= 7 && h@.subrange(0, 7) == "Bearer "@ && t@ == h@.subrange(7, h@.len() as int),
                None => !(h@.len() >= 7 && h@.subrange(0, 7) == "Bearer "@),
            },
        },
{
    match header {
        None => None,
        Some(h) => {
            proof { reveal_strlit("Bearer "); }
            strip_prefix_text(h, "Bearer ")
        },
    }
}

/// The verdict that an authorization result carries: its claims, or the
/// message of its error.
pub open spec fn carried_verdict(r: Result<Claims, ApiError>) -> Result<Claims, String> {
    match r {
        Ok(c) => Ok(c),
        Err(ApiError::Unauthorized(m)) => Err(m),
        Err(ApiError::ValidationError(m)) => Err(m),
        Err(ApiError::FieldValidationError { field, .. }) => Err(field),
        Err(ApiError::NotFound(m)) => Err(m),
        Err(ApiError::DatabaseError(m)) => Err(m),
        Err(ApiError::InternalError(m)) => Err(m),
    }
}

/// The check of a protected request: its `Authorization` header must carry a
/// bearer token that validates with `secret`; the validator's verdict on that
/// token is passed on.
pub fn authorize(header: Option<&str>, secret: &str) -> (r: Result<Claims, ApiError>)
    ensures
        match bearer_token_of(header) {
            None => unauthorized_with(r, "缺少 Authorization header"@),
            Some(t) => (r is Ok || r matches Err(ApiError::Unauthorized(_)))
                && validation_verdict(carried_verdict(r), t, secret@),
        },
{
    let token = bearer_token(header);
    match token {
        None => Err(ApiError::Unauthorized(copy_text("缺少 Authorization header"))),
        Some(t) => {
            let v = validate_auth_token(t.as_str(), secret);
            let ghost v0 = v;
            let r = match v {
                Ok(c) => Ok(c),
                Err(e) => Err(ApiError::Unauthorized(e)),
            };
            proof {
                assert(bearer_token_of(header) == Some(t@));
                assert(carried_verdict(r) == v0);
            }
            r
        },
    }
}

/// Whether `r` is a refusal as unauthorized with message `m`.
pub open spec fn unauthorized_with<T>(r: Result<T, ApiError>, m: Seq<char>) -> bool {
    match r {
        Err(ApiError::Unauthorized(x)) => x@ == m,
        _ => false,
    }
}

/// The bearer token of a header value, as text.
pub open spec fn bearer_token_of(header: Option<&str>) -> Option<Seq<char>> {
    match header {
        None => None,
        Some(h) => if h@.len() >= 7 && h@.subrange(0, 7) == "Bearer "@ {
            Some(h@.subrange(7, h@.len() as int))
        } else {
            None
        },
    }
}

} // verus!
