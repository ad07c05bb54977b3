use vstd::prelude::*;
use crate::errors::ApiError;
use crate::model::UserContext;
use crate::token::{UserClaims, needs_refresh_at, REFRESH_WINDOW_SECS};
use crate::str_eq;

verus! {

/// Whether a request path is public: no bearer token is demanded there.
pub fn is_public_path(path: &str) -> (r: bool)
    ensures
        r == (path@ == "/login"@ || path@ == "/register"@ || path@ == "/staging_login"@ || path@
            == "/health"@),
{
    str_eq(path, "/login") || str_eq(path, "/register") || str_eq(path, "/staging_login")
        || str_eq(path, "/health")
}

/// The token text with every leading `Bearer ` marker removed.
pub open spec fn spec_strip_bearer(s: Seq<char>) -> Seq<char>
    decreases s.len(),
{
    if s.len() >= 7 && s.subrange(0, 7) == "Bearer "@ {
        spec_strip_bearer(s.subrange(7, s.len() as int))
    } else {
        s
    }
}

/// Strip the `Bearer ` marker off an Authorization header value.
pub fn strip_bearer_prefix(header: &str) -> (r: String)
    ensures
        r@ == spec_strip_bearer(header@),
{
    let mut s: String = header.to_owned();
    loop
        invariant
            spec_strip_bearer(s@) == spec_strip_bearer(header@),
        decreases s@.len(),
    {
        let n = s.unicode_len();
        if n < 7 {
            return s;
        }
        let has_marker = str_eq(s.as_str().substring_char(0, 7), "Bearer ");
        if !has_marker {
            return s;
        }
        let rest = s.as_str().substring_char(7, n).to_owned();
        s = rest;
    }
}

/// The claims must belong to the user a request names; anything else is
/// Unauthorized.
pub fn authorize_token_user(claims: &UserClaims, user_id: &str) -> (r: Result<(), ApiError>)
    ensures
        r is Ok <==> claims@.user_id == user_id@,
        r is Err ==> r == Err::<(), ApiError>(ApiError::Unauthorized),
{
    if str_eq(claims.user_id.as_str(), user_id) {
        Ok(())
    } else {
        Err(ApiError::Unauthorized)
    }
}

/// Whether a plan admits the premium features (suggestions, metadata
/// fetching): every plan but the free one.
pub fn plan_allows_premium(plan: &str) -> (r: bool)
    ensures
        r == (plan@ != "free"@),
{
    !str_eq(plan, "free")
}

/// Gate the suggestion endpoint: the token must belong to the requesting
/// user (else Unauthorized), and the user's plan must admit suggestions
/// (else Forbidden).
pub fn authorize_suggestion(claims: &UserClaims, user_id: &str) -> (r: Result<(), ApiError>)
    ensures
        match r {
            Ok(()) => claims@.user_id == user_id@ && claims@.plan != "free"@,
            Err(e) => (e == ApiError::Unauthorized && claims@.user_id != user_id@) || (e
                == ApiError::Forbidden && claims@.user_id == user_id@ && claims@.plan == "free"@),
        },
{
    if !str_eq(claims.user_id.as_str(), user_id) {
        return Err(ApiError::Unauthorized);
    }
    if str_eq(claims.plan.as_str(), "free") {
        return Err(ApiError::Forbidden);
    }
    Ok(())
}

/// Gate the staging deployment: the supplied password must equal the
/// configured one (Forbidden otherwise); an unset configuration is a server
/// error.
pub fn staging_login(password: &str, configured: &Option<String>) -> (r: Result<(), ApiError>)
    ensures
        match r {
            Ok(()) => configured.deep_view() matches Some(c) && c == password@,
            Err(e) => (e == ApiError::Internal && configured.deep_view() is None) || (e
                == ApiError::Forbidden && (configured.deep_view() matches Some(c) && c
                != password@)),
        },
{
    match configured {
        None => Err(ApiError::Internal),
        Some(c) => {
            if str_eq(password, c.as_str()) {
                Ok(())
            } else {
                Err(ApiError::Forbidden)
            }
        },
    }
}

/// What the session middleware decides from validated claims at time `now`:
/// the request's user context, and whether to mint a replacement token on
/// the way out.
pub fn authenticate_claims(claims: &UserClaims, now: u64) -> (r: (UserContext, bool))
    ensures
        r.0@.user_id == claims@.user_id,
        r.0@.email == claims@.email,
        r.1 == (claims@.exp < now + REFRESH_WINDOW_SECS),
{
    let context = UserContext { user_id: claims.user_id.clone(), email: claims.email.clone() };
    let refresh = needs_refresh_at(claims.exp, now);
    (context, refresh)
}

/// The session middleware's whole decision: validate the bearer token and
/// derive the request context and the refresh flag at the real clock. An
/// invalid or expired token is Unauthorized.
pub fn authenticate_user(token: &str, secret: &str) -> (r: Result<(UserContext, bool), ApiError>)
    ensures
        r is Err ==> r == Err::<(UserContext, bool), ApiError>(ApiError::Unauthorized),
{
    let claims = match crate::token::validate_jwt(token, secret) {
        Ok(c) => c,
        Err(_) => {
            return Err(ApiError::Unauthorized);
        },
    };
    let now = crate::token::get_current_timestamp();
    Ok(authenticate_claims(&claims, now))
}

} // verus!
