use vstd::prelude::*;
use jsonwebtoken::{Algorithm, DecodingKey, EncodingKey, Header, Validation};
use serde_json::{Map as JsonMap, Value as JsonValue};
use crate::errors::ApiError;

verus! {

/// A token lives for one hour from issue.
pub const TOKEN_LIFETIME_SECS: u64 = 3600;

/// A token is refreshed when under 15 minutes of lifetime remain.
pub const REFRESH_WINDOW_SECS: u64 = 900;

/// The claims a signed token carries: identity, resolved plan, and the
/// expiry and issue instants as epoch seconds.
#[derive(Debug)]
pub struct UserClaims {
    pub user_id: String,
    pub email: String,
    pub plan: String,
    pub exp: u64,
    pub iat: u64,
}

pub struct UserClaimsModel {
    pub user_id: Seq<char>,
    pub email: Seq<char>,
    pub plan: Seq<char>,
    pub exp: u64,
    pub iat: u64,
}

impl View for UserClaims {
    type V = UserClaimsModel;

    open spec fn view(&self) -> UserClaimsModel {
        UserClaimsModel {
            user_id: self.user_id@,
            email: self.email@,
            plan: self.plan@,
            exp: self.exp,
            iat: self.iat,
        }
    }
}

impl DeepView for UserClaims {
    type V = UserClaimsModel;

    open spec fn deep_view(&self) -> UserClaimsModel {
        self.view()
    }
}

impl Clone for UserClaims {
    fn clone(&self) -> (r: Self)
        ensures
            r@ == self@,
    {
        UserClaims {
            user_id: self.user_id.clone(),
            email: self.email.clone(),
            plan: self.plan.clone(),
            exp: self.exp,
            iat: self.iat,
        }
    }
}

/// The claims of a token minted at `now`: an hour of lifetime, stamped with
/// its issue time.
pub fn make_claims(user_id: &str, email: &str, plan: &str, now: u64) -> (c: UserClaims)
    requires
        now + TOKEN_LIFETIME_SECS <= u64::MAX,
    ensures
        c@.user_id == user_id@,
        c@.email == email@,
        c@.plan == plan@,
        c@.iat == now,
        c@.exp == now + TOKEN_LIFETIME_SECS,
{
    UserClaims {
        user_id: user_id.to_owned(),
        email: email.to_owned(),
        plan: plan.to_owned(),
        exp: now + TOKEN_LIFETIME_SECS,
        iat: now,
    }
}

/// Whether a token expiring at `exp` needs a replacement at time `now`:
/// exactly when under 15 minutes of lifetime remain (an expired token
/// trivially does).
pub fn needs_refresh_at(exp: u64, now: u64) -> (r: bool)
    ensures
        r == (exp < now + REFRESH_WINDOW_SECS),
{
    (exp as u128) < (now as u128) + (REFRESH_WINDOW_SECS as u128)
}

// ---------------------------------------------------------------------------
// The signing boundary
// ---------------------------------------------------------------------------

#[verifier::external_type_specification]
#[verifier::external_body]
pub struct ExJwtError(jsonwebtoken::errors::Error);

/// The token jsonwebtoken's HS256 encoding produces for given claims and
/// secret. HS256 signing and the claims' JSON serialization are functions of
/// their inputs alone, so the whole token is.
pub uninterp spec fn jwt_token_of(
    user_id: Seq<char>,
    email: Seq<char>,
    plan: Seq<char>,
    exp: u64,
    iat: u64,
    secret: Seq<char>,
) -> Seq<char>;

/// Relies on jsonwebtoken::encode with HS256: the token is a deterministic
/// function of the claims and the signing secret. With a secret (HMAC) key
/// the family checks pass, HMAC accepts any key length, and serializing
/// these claims cannot fail, so the call always succeeds.
#[verifier::external_body]
fn jwt_encode(claims: &UserClaims, secret: &str) -> (r: Result<
    String,
    jsonwebtoken::errors::Error,
>)
    ensures
        r is Ok,
        r matches Ok(t) ==> t@ == jwt_token_of(
            claims@.user_id,
            claims@.email,
            claims@.plan,
            claims@.exp,
            claims@.iat,
            secret@,
        ),
{
    let mut m = JsonMap::new();
    m.insert("user_id".to_string(), JsonValue::from(claims.user_id.clone()));
    m.insert("email".to_string(), JsonValue::from(claims.email.clone()));
    m.insert("plan".to_string(), JsonValue::from(claims.plan.clone()));
    m.insert("exp".to_string(), JsonValue::from(claims.exp));
    m.insert("iat".to_string(), JsonValue::from(claims.iat));
    let key = EncodingKey::from_secret(secret.as_bytes());
    jsonwebtoken::encode(&Header::new(Algorithm::HS256), &JsonValue::Object(m), &key)
}

#[verifier::external_type_specification]
#[verifier::external_body]
pub struct ExJsonValue(JsonValue);

#[verifier::external_type_specification]
#[verifier::external_body]
#[verifier::reject_recursive_types(K)]
#[verifier::reject_recursive_types(V)]
pub struct ExJsonMap<K, V>(JsonMap<K, V>);

/// Relies on jsonwebtoken::decode with HS256: the signature and the expiry
/// (against the real clock, with the library's leeway) are checked together,
/// and the raw claims object comes back only when both pass. The expiry
/// check reads the wall clock and would abort only on a host clock set
/// before the Unix epoch.
#[verifier::external_body]
fn jwt_decode_raw(token: &str, secret: &str) -> (r: Result<
    JsonMap<String, JsonValue>,
    jsonwebtoken::errors::Error,
>)
{
    let key = DecodingKey::from_secret(secret.as_bytes());
    let v = Validation::new(Algorithm::HS256);
    Ok(jsonwebtoken::decode::<JsonMap<String, JsonValue>>(token, &key, &v)?.claims)
}

/// Relies on serde_json's Map and Value accessors to read the claims fields
/// out of a decoded token; a missing or mistyped field yields nothing.
#[verifier::external_body]
fn claims_from_map(m: &JsonMap<String, JsonValue>) -> (r: Option<UserClaims>)
{
    let s = |k: &str| m.get(k).and_then(|x| x.as_str()).map(|x| x.to_string());
    let n = |k: &str| m.get(k).and_then(|x| x.as_u64());
    match (s("user_id"), s("email"), s("plan"), n("exp"), n("iat")) {
        (Some(user_id), Some(email), Some(plan), Some(exp), Some(iat)) =>
            Some(UserClaims { user_id, email, plan, exp, iat }),
        _ => None,
    }
}

/// Relies on jsonwebtoken::get_current_timestamp: the wall clock as seconds
/// since the Unix epoch. Nothing is assumed of the value it returns; it
/// would abort only on a host clock set before the Unix epoch.
#[verifier::external_body]
pub fn get_current_timestamp() -> (r: u64) {
    jsonwebtoken::get_current_timestamp()
}

// ---------------------------------------------------------------------------
// Issue and validate
// ---------------------------------------------------------------------------

/// Mint a signed token at a known instant, valid for an hour. Issuing never
/// fails: the signing path is total for an HMAC secret.
pub fn generate_jwt_at(user_id: &str, email: &str, plan: &str, secret: &str, now: u64) -> (r:
    Result<String, ApiError>)
    requires
        now + TOKEN_LIFETIME_SECS <= u64::MAX,
    ensures
        r is Ok,
        r matches Ok(t) ==> t@ == jwt_token_of(
            user_id@,
            email@,
            plan@,
            (now + TOKEN_LIFETIME_SECS) as u64,
            now,
            secret@,
        ),
{
    let claims = make_claims(user_id, email, plan, now);
    match jwt_encode(&claims, secret) {
        Ok(t) => Ok(t),
        Err(_) => {
            proof {
                assert(false);
            }
            Err(ApiError::Internal)
        },
    }
}

/// Mint a signed token stamped with the real clock; this fails only when
/// the clock reads within an hour of the end of the 64-bit range.
pub fn generate_jwt(user_id: &str, email: &str, plan: &str, secret: &str) -> (r: Result<
    String,
    ApiError,
>)
    ensures
        r matches Ok(t) ==> exists|iat: u64|
            iat + TOKEN_LIFETIME_SECS <= u64::MAX && t@ == #[trigger] jwt_token_of(
                user_id@,
                email@,
                plan@,
                (iat + TOKEN_LIFETIME_SECS) as u64,
                iat,
                secret@,
            ),
        r is Err ==> r == Err::<String, ApiError>(ApiError::Internal),
{
    let now = get_current_timestamp();
    if now > u64::MAX - TOKEN_LIFETIME_SECS {
        return Err(ApiError::Internal);
    }
    let r = generate_jwt_at(user_id, email, plan, secret, now);
    proof {
        if r is Ok {
            assert(r->Ok_0@ == jwt_token_of(
                user_id@,
                email@,
                plan@,
                (now + TOKEN_LIFETIME_SECS) as u64,
                now,
                secret@,
            ));
        }
    }
    r
}

/// Validate a token's signature and expiry; a failure of either is
/// Unauthorized.
pub fn validate_jwt(token: &str, secret: &str) -> (r: Result<UserClaims, ApiError>)
    ensures
        r is Err ==> r == Err::<UserClaims, ApiError>(ApiError::Unauthorized),
{
    let raw = match jwt_decode_raw(token, secret) {
        Ok(m) => m,
        Err(_) => {
            return Err(ApiError::Unauthorized);
        },
    };
    match claims_from_map(&raw) {
        Some(c) => Ok(c),
        None => Err(ApiError::Unauthorized),
    }
}

/// Whether a valid token is close enough to expiry, at the real clock, that
/// the middleware should mint a replacement; an invalid token is
/// Unauthorized.
pub fn needs_refresh(token: &str, secret: &str) -> (r: Result<bool, ApiError>)
    ensures
        r is Err ==> r == Err::<bool, ApiError>(ApiError::Unauthorized),
{
    let claims = match validate_jwt(token, secret) {
        Ok(c) => c,
        Err(e) => {
            return Err(e);
        },
    };
    let now = get_current_timestamp();
    Ok(needs_refresh_at(claims.exp, now))
}

} // verus!
