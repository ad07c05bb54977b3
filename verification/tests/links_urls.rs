use newtab_server::errors::ApiError;
use newtab_server::links::{
    assemble_link, choose_text, favicon_base, favicon_base_for, favicon_candidates,
    favicon_data_url, normalize_url, trim_trailing_slash,
};
use newtab_server::model::{CreateLinkRequest, EntityKind};

#[test]
fn urls_get_a_scheme_once() {
    assert_eq!(normalize_url("example.com"), "https://example.com");
    assert_eq!(normalize_url("https://example.com"), "https://example.com");
    assert_eq!(normalize_url("http://example.com"), "https://http://example.com");
    assert_eq!(normalize_url(""), "https://");
}

#[test]
fn user_text_wins_unless_empty_or_absent() {
    let meta = Some("Page title".to_string());
    assert_eq!(choose_text(&Some("Mine".to_string()), &meta), "Mine");
    assert_eq!(choose_text(&Some("".to_string()), &meta), "Page title");
    assert_eq!(choose_text(&None, &meta), "Page title");
    assert_eq!(choose_text(&Some("".to_string()), &None), "");
}

#[test]
fn assembled_link_carries_request_fields() {
    let req = CreateLinkRequest {
        url: "example.com".to_string(),
        description: None,
        title: None,
        next_order_index: 7,
        owner_type: EntityKind::User,
        owner_id: "u1".to_string(),
        column_type: "left".to_string(),
    };
    let l = assemble_link(
        "l1".to_string(),
        &req,
        "https://example.com".to_string(),
        "Title".to_string(),
        "Desc".to_string(),
        "".to_string(),
        1234,
    );
    assert_eq!(l.id, "l1");
    assert_eq!(l.url, "https://example.com");
    assert_eq!(l.title, "Title");
    assert_eq!(l.description.as_deref(), Some("Desc"));
    assert_eq!(l.icon.as_deref(), Some(""));
    assert_eq!(l.order_index, 7);
    assert_eq!(l.owner_id, "u1");
    assert_eq!(l.column_type, "left");
    assert_eq!(l.created_at, 1234);
}

#[test]
fn host_extraction_uses_the_url_parser() {
    assert_eq!(
        favicon_base_for("https://example.com/some/page").as_deref(),
        Some("https://example.com")
    );
    assert_eq!(favicon_base_for("not a url"), None);
}

#[test]
fn trailing_slashes_are_trimmed() {
    assert_eq!(trim_trailing_slash("https://example.com/"), "https://example.com");
    assert_eq!(trim_trailing_slash("https://example.com///"), "https://example.com");
    assert_eq!(trim_trailing_slash("https://example.com"), "https://example.com");
    assert_eq!(trim_trailing_slash(""), "");
}

#[test]
fn favicon_base_prefixes_and_trims() {
    assert_eq!(favicon_base("example.com/"), "https://example.com");
}

#[test]
fn favicon_candidates_probe_the_known_locations() {
    let c = favicon_candidates("https://example.com");
    assert_eq!(c.len(), 9);
    assert_eq!(c[0], "https://example.com/favicon.ico");
    assert_eq!(c[1], "https://example.com/images/favicon.ico");
    assert_eq!(c[7], "https://example.com/icon.svg");
    assert_eq!(c[8], "https://example.com/favicon-32x32.png");
}

#[test]
fn favicon_bytes_become_a_data_url() {
    // 0x01 0x02 0x03 encodes to AQID under the standard alphabet.
    let url = favicon_data_url(&Some("image/png".to_string()), &[1u8, 2, 3]);
    assert_eq!(url, "data:image/png;base64,AQID");
    let unknown = favicon_data_url(&None, &[1u8, 2, 3]);
    assert_eq!(unknown, "data:unknown;base64,AQID");
}

#[test]
fn error_status_codes_match_the_taxonomy() {
    assert_eq!(ApiError::BadRequest.status_code(), 400);
    assert_eq!(ApiError::Unauthorized.status_code(), 401);
    assert_eq!(ApiError::Forbidden.status_code(), 403);
    assert_eq!(ApiError::NotFound.status_code(), 404);
    assert_eq!(ApiError::Conflict.status_code(), 409);
    assert_eq!(ApiError::RateLimited.status_code(), 429);
    assert_eq!(ApiError::BadGateway.status_code(), 502);
    assert_eq!(ApiError::Internal.status_code(), 500);
}
