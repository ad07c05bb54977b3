use newtab_server::auth::{
    authenticate_claims, authorize_suggestion, authorize_token_user, is_public_path,
    plan_allows_premium, staging_login, strip_bearer_prefix,
};
use newtab_server::errors::ApiError;
use newtab_server::token::{
    generate_jwt, generate_jwt_at, get_current_timestamp, make_claims, needs_refresh,
    needs_refresh_at, validate_jwt, UserClaims,
};

const SECRET: &str = "test-signing-secret";

#[test]
fn make_claims_stamps_hour_lifetime() {
    let c = make_claims("u1", "a@x.com", "pro", 1_000_000);
    assert_eq!(c.user_id, "u1");
    assert_eq!(c.email, "a@x.com");
    assert_eq!(c.plan, "pro");
    assert_eq!(c.iat, 1_000_000);
    assert_eq!(c.exp, 1_003_600);
}

#[test]
fn token_issued_with_pro_plan_reports_refresh_after_fifty_minutes() {
    // Simulated clock: a pro-plan token consumed 50 minutes after issue
    // needs a refresh; consumed after 5 minutes it does not.
    let issued_at: u64 = 1_000_000;
    let claims = make_claims("u1", "a@x.com", "pro", issued_at);
    assert!(needs_refresh_at(claims.exp, issued_at + 50 * 60));
    assert!(!needs_refresh_at(claims.exp, issued_at + 5 * 60));
}

#[test]
fn expired_token_needs_refresh() {
    let claims = make_claims("u1", "a@x.com", "pro", 1_000_000);
    assert!(needs_refresh_at(claims.exp, claims.exp + 1));
}

#[test]
fn jwt_round_trip_preserves_claims() {
    let now = get_current_timestamp();
    let token = generate_jwt_at("u1", "a@x.com", "pro", SECRET, now).unwrap();
    let claims = validate_jwt(token.as_str(), SECRET).unwrap();
    assert_eq!(claims.user_id, "u1");
    assert_eq!(claims.email, "a@x.com");
    assert_eq!(claims.plan, "pro");
    assert_eq!(claims.iat, now);
    assert_eq!(claims.exp, now + 3600);
}

#[test]
fn validate_rejects_wrong_secret() {
    let token = generate_jwt("u1", "a@x.com", "pro", SECRET).unwrap();
    let err = validate_jwt(token.as_str(), "other-secret").unwrap_err();
    assert_eq!(err, ApiError::Unauthorized);
}

#[test]
fn validate_rejects_garbage() {
    let err = validate_jwt("not-a-token", SECRET).unwrap_err();
    assert_eq!(err, ApiError::Unauthorized);
}

#[test]
fn fresh_token_does_not_need_refresh_at_real_clock() {
    let token = generate_jwt("u1", "a@x.com", "pro", SECRET).unwrap();
    assert!(!needs_refresh(token.as_str(), SECRET).unwrap());
}

#[test]
fn needs_refresh_rejects_invalid_token() {
    let err = needs_refresh("garbage", SECRET).unwrap_err();
    assert_eq!(err, ApiError::Unauthorized);
}

#[test]
fn public_paths_skip_authentication() {
    assert!(is_public_path("/login"));
    assert!(is_public_path("/register"));
    assert!(is_public_path("/staging_login"));
    assert!(is_public_path("/health"));
    assert!(!is_public_path("/confirm"));
    assert!(!is_public_path("/user_data"));
}

#[test]
fn bearer_marker_is_stripped() {
    assert_eq!(strip_bearer_prefix("Bearer abc.def.ghi"), "abc.def.ghi");
    assert_eq!(strip_bearer_prefix("abc.def.ghi"), "abc.def.ghi");
    assert_eq!(strip_bearer_prefix("Bearer Bearer tok"), "tok");
    assert_eq!(strip_bearer_prefix(""), "");
}

fn claims(user_id: &str, plan: &str) -> UserClaims {
    UserClaims {
        user_id: user_id.to_string(),
        email: "a@x.com".to_string(),
        plan: plan.to_string(),
        exp: 1_003_600,
        iat: 1_000_000,
    }
}

#[test]
fn token_user_must_match_request_user() {
    assert!(authorize_token_user(&claims("u1", "pro"), "u1").is_ok());
    assert_eq!(
        authorize_token_user(&claims("u1", "pro"), "u2").unwrap_err(),
        ApiError::Unauthorized
    );
}

#[test]
fn free_plan_is_not_premium() {
    assert!(!plan_allows_premium("free"));
    assert!(plan_allows_premium("pro"));
}

#[test]
fn suggestions_are_gated_by_user_and_plan() {
    assert!(authorize_suggestion(&claims("u1", "Pro"), "u1").is_ok());
    assert_eq!(
        authorize_suggestion(&claims("u1", "Pro"), "u2").unwrap_err(),
        ApiError::Unauthorized
    );
    assert_eq!(
        authorize_suggestion(&claims("u1", "free"), "u1").unwrap_err(),
        ApiError::Forbidden
    );
}

#[test]
fn staging_login_compares_configured_password() {
    let configured = Some("hunter2".to_string());
    assert!(staging_login("hunter2", &configured).is_ok());
    assert_eq!(
        staging_login("wrong", &configured).unwrap_err(),
        ApiError::Forbidden
    );
    assert_eq!(staging_login("hunter2", &None).unwrap_err(), ApiError::Internal);
}

#[test]
fn authentication_decides_context_and_refresh() {
    let c = claims("u1", "pro");
    let (context, refresh_soon) = authenticate_claims(&c, c.exp - 100);
    assert_eq!(context.user_id, "u1");
    assert_eq!(context.email, "a@x.com");
    assert!(refresh_soon);
    let (_, refresh_far) = authenticate_claims(&c, c.iat + 60);
    assert!(!refresh_far);
}
