//! The service's scenarios, driven through the library: creating a link,
//! redirecting, reading, updating, deleting, rendering and counting scans.

use qr_code_generator::error::AppError;
use qr_code_generator::handlers::{
    analytics_response, apply_update, create_response, qr_image_of, require_active, short_url,
};
use qr_code_generator::models::{DailyScan, UrlMapping};
use qr_code_generator::qr::render_qr_png;
use qr_code_generator::schemas::{QRInfoResponse, UpdateRequest};
use qr_code_generator::state::AppState;
use qr_code_generator::timestamp::Timestamp;
use qr_code_generator::token::{RandomTokenGenerator, TokenGenerator};
use qr_code_generator::url_validator::validate_url;

fn ts(secs: i64) -> Timestamp {
    Timestamp { secs, nanos: 0 }
}

/// 2020-01-01T00:00:00Z and 2099-01-01T00:00:00Z.
const PAST: i64 = 1_577_836_800;
const FUTURE: i64 = 4_070_908_800;

/// Creates a link the way the create endpoint does: validate, draw a token,
/// store, warm the cache.
fn create(state: &mut AppState, url: &str, expires_at: Option<Timestamp>) -> UrlMapping {
    let normalized = validate_url(url).expect("create should succeed");
    let token = RandomTokenGenerator.generate().into_inner();
    let m = UrlMapping::new_active(token, normalized, ts(1_700_000_000), expires_at);
    state.cache_put(&m.token, &m.original_url, m.expires_at);
    m
}

fn copy_of(m: &UrlMapping) -> UrlMapping {
    UrlMapping {
        id: m.id,
        token: m.token.clone(),
        original_url: m.original_url.clone(),
        created_at: m.created_at,
        updated_at: m.updated_at,
        expires_at: m.expires_at,
        is_deleted: m.is_deleted,
    }
}

#[test]
fn prompt_create_returns_token_and_urls() {
    let mut state = AppState::new();
    let m = create(&mut state, "https://example.com", None);
    let body = create_response(m);
    let token = body.token.clone();
    assert_eq!(token.len(), 7);
    assert_eq!(body.short_url, format!("http://localhost:8000/r/{token}"));
    assert_eq!(body.qr_code_url, format!("http://localhost:8000/api/qr/{token}/image"));
    assert_eq!(body.original_url, "https://example.com");
}

#[test]
fn prompt_redirect_returns_302() {
    let mut state = AppState::new();
    let m = create(&mut state, "https://example.com", None);
    let r = state.redirect_cached(&m.token).expect("cache hit");
    assert_eq!(r.expect("redirect"), "https://example.com");
}

#[test]
fn prompt_get_info() {
    let mut state = AppState::new();
    let m = create(&mut state, "https://example.com", None);
    let token = m.token.clone();
    let info = QRInfoResponse::from(require_active(Some(m)).expect("active"));
    assert_eq!(info.token, token);
    assert_eq!(info.original_url, "https://example.com");
    assert_eq!(info.is_deleted, false);
}

#[test]
fn prompt_update_changes_redirect_target() {
    let mut state = AppState::new();
    let m = create(&mut state, "https://example.com", None);
    let token = m.token.clone();
    let req = UpdateRequest { url: Some("https://new-url.com".to_string()), expires_at: None };
    let updated = apply_update(&mut state, &token, m, req).expect("update");
    assert_eq!(updated.original_url, "https://new-url.com");
    // The stale cache entry is gone, so the redirect consults storage.
    assert!(state.redirect_cached(&token).is_none());
    let r = state.redirect_stored(Some(updated)).expect("redirect");
    assert_eq!(r, "https://new-url.com");
    // ... and the served link is cached again.
    assert_eq!(state.redirect_cached(&token).unwrap().unwrap(), "https://new-url.com");
}

#[test]
fn prompt_delete_then_redirect_is_410() {
    let mut state = AppState::new();
    let m = create(&mut state, "https://example.com", None);
    let token = m.token.clone();
    let mut deleted = require_active(Some(m)).expect("active");
    deleted.is_deleted = true;
    state.cache_invalidate(&token);

    assert!(state.redirect_cached(&token).is_none());
    let err = state.redirect_stored(Some(copy_of(&deleted))).unwrap_err();
    assert_eq!(err.status_code(), 410);

    let err = require_active(Some(deleted)).unwrap_err();
    assert_eq!(err.status_code(), 404);
}

#[test]
fn prompt_nonexistent_token_is_404() {
    let mut state = AppState::new();
    assert!(state.redirect_cached("INVALID").is_none());
    let err = state.redirect_stored(None).unwrap_err();
    assert_eq!(err.status_code(), 404);
}

#[test]
fn prompt_qr_image_is_png() {
    let mut state = AppState::new();
    let m = create(&mut state, "https://example.com", None);
    let token = m.token.clone();
    let png = qr_image_of(&token, Some(m)).expect("png");
    assert_eq!(png, render_qr_png(&short_url(&token)).unwrap());
    assert_eq!(&png[0..8], &[0x89, b'P', b'N', b'G', 0x0D, 0x0A, 0x1A, 0x0A]);
}

#[test]
fn prompt_analytics_counts_scans() {
    let mut state = AppState::new();
    let m = create(&mut state, "https://example.com", None);
    let token = m.token.clone();
    // Two scans.
    assert!(state.redirect_cached(&token).unwrap().is_ok());
    assert!(state.redirect_cached(&token).unwrap().is_ok());

    let daily = vec![DailyScan { date: "2025-01-01".to_string(), count: 2 }];
    let body = analytics_response(token.clone(), 2, daily);
    assert_eq!(body.token, token);
    assert_eq!(body.total_scans, 2);
    assert_eq!(body.scans_by_day.len(), 1);
    assert_eq!(body.scans_by_day[0].count, 2);
}

#[test]
fn expired_link_is_410_future_is_302() {
    let mut state = AppState::new();
    let expired = create(&mut state, "https://expired.com", Some(ts(PAST)));
    let r = state.redirect_cached(&expired.token).expect("cache hit");
    assert_eq!(r.unwrap_err().status_code(), 410, "expired link must be 410 even on a cache hit");

    let future = create(&mut state, "https://future.com", Some(ts(FUTURE)));
    let r = state.redirect_cached(&future.token).expect("cache hit");
    assert_eq!(r.expect("redirect"), "https://future.com");
}

#[test]
fn invalid_urls_are_rejected_400() {
    // Blocklisted domain.
    assert_eq!(validate_url("https://evil.com/x").unwrap_err().status_code(), 400);
    // Disallowed scheme.
    assert_eq!(validate_url("ftp://example.com").unwrap_err().status_code(), 400);
}

#[test]
fn sqli_tautology_token_does_not_match() {
    let mut state = AppState::new();
    create(&mut state, "https://secret.example.com", None);
    let token = "' OR '1'='1";
    assert!(state.redirect_cached(token).is_none(), "tautology token must not match any entry");
    let err = state.redirect_stored(None).unwrap_err();
    assert_eq!(err.status_code(), 404);
}

#[test]
fn sqli_metachars_in_url_are_stored_as_data() {
    let mut state = AppState::new();
    let malicious = "https://example.com/path?q=%27%29%3B+DROP+TABLE+url_mappings%3B--";
    let m = create(&mut state, malicious, None);
    let info = QRInfoResponse::from(require_active(Some(m)).expect("active"));
    assert_eq!(info.original_url, malicious);
    assert!(validate_url("https://still-here.com").is_ok());
}

#[test]
fn sqli_in_analytics_token_is_inert() {
    // The token does not exist, so the existence check answers 404 first.
    let err = require_active(None).unwrap_err();
    assert!(matches!(err, AppError::NotFound));
    assert_eq!(err.status_code(), 404);
}
