//! The library's rules on concrete values: URL validation and normalisation,
//! tokens, error answers, the retry rule, the cache, and QR rasterising.

use qr_code_generator::error::AppError;
use qr_code_generator::handlers::{
    apply_update, qr_code_url, qr_image_of, require_active, short_url,
};
use qr_code_generator::models::UrlMapping;
use qr_code_generator::qr::{rasterize, render_qr_png};
use qr_code_generator::repo::{next_insert_step, InsertOutcome, InsertStep, MAX_TOKEN_RETRIES};
use qr_code_generator::schemas::UpdateRequest;
use qr_code_generator::state::{resolve_cached_at, resolve_stored_at, AppState, CachedTarget};
use qr_code_generator::text::{strip_trailing_slash, trim, white_space};
use qr_code_generator::timestamp::{is_expired_at, Timestamp};
use qr_code_generator::token::{
    alphabet_char, token_from_indices, RandomTokenGenerator, Token, TokenGenerator,
};
use qr_code_generator::url_validator::{
    check_parsed_url, is_blocked_domain, is_blocked_lowercase, validate_url, ParsedUrl,
};

fn ts(secs: i64, nanos: u32) -> Timestamp {
    Timestamp { secs, nanos }
}

fn mapping(token: &str, url: &str, expires_at: Option<Timestamp>, is_deleted: bool) -> UrlMapping {
    UrlMapping {
        id: 7,
        token: token.to_string(),
        original_url: url.to_string(),
        created_at: ts(100, 0),
        updated_at: ts(200, 0),
        expires_at,
        is_deleted,
    }
}

fn bad_request(r: Result<String, AppError>) -> String {
    match r {
        Err(AppError::BadRequest(m)) => m,
        other => panic!("expected a bad request, got {other:?}"),
    }
}

// ---- URL validation ------------------------------------------------------

#[test]
fn url_scheme_and_host_are_lowercased_and_slash_dropped() {
    assert_eq!(validate_url("HTTPS://Example.COM/").unwrap(), "https://example.com");
}

#[test]
fn url_path_case_and_query_are_kept() {
    assert_eq!(
        validate_url("https://example.com/Some/Path?Q=A").unwrap(),
        "https://example.com/Some/Path?Q=A"
    );
}

#[test]
fn url_http_is_not_upgraded() {
    assert_eq!(validate_url("http://example.com").unwrap(), "http://example.com");
}

#[test]
fn url_only_one_trailing_slash_is_dropped() {
    assert_eq!(validate_url("https://example.com/a//").unwrap(), "https://example.com/a/");
}

#[test]
fn url_surrounding_white_space_is_trimmed() {
    assert_eq!(validate_url("  \t https://example.com/x \n").unwrap(), "https://example.com/x");
}

#[test]
fn url_default_port_is_dropped() {
    assert_eq!(validate_url("https://example.com:443/x").unwrap(), "https://example.com/x");
}

#[test]
fn url_too_long_is_rejected() {
    let long = format!("https://example.com/{}", "a".repeat(2048));
    assert_eq!(bad_request(validate_url(&long)), "URL exceeds max length");
}

#[test]
fn url_of_exactly_max_length_is_accepted() {
    let base = "https://example.com/";
    let url = format!("{base}{}", "a".repeat(2048 - base.len()));
    assert_eq!(url.len(), 2048);
    assert_eq!(validate_url(&url).unwrap(), url);
}

#[test]
fn url_length_counts_bytes() {
    // 1000 two-byte chars: 2000 bytes of path, over the limit with the prefix.
    let url = format!("https://example.com/{}", "é".repeat(1020));
    assert_eq!(bad_request(validate_url(&url)), "URL exceeds max length");
}

#[test]
fn url_unparsable_is_rejected() {
    assert_eq!(bad_request(validate_url("not a url")), "Invalid URL format");
    assert_eq!(bad_request(validate_url("")), "Invalid URL format");
}

#[test]
fn url_bad_scheme_is_named() {
    assert_eq!(bad_request(validate_url("ftp://example.com")), "Invalid scheme: ftp");
    assert_eq!(bad_request(validate_url("mailto:a@b.c")), "Invalid scheme: mailto");
}

#[test]
fn url_blocklisted_hosts_are_rejected() {
    assert_eq!(bad_request(validate_url("https://evil.com/x")), "URL is on the blocklist");
    assert_eq!(bad_request(validate_url("http://EVIL.com")), "URL is on the blocklist");
    assert_eq!(
        bad_request(validate_url("https://malware.example.com")),
        "URL is on the blocklist"
    );
    assert_eq!(
        bad_request(validate_url("https://phishing.example.com/login")),
        "URL is on the blocklist"
    );
    assert!(validate_url("https://notevil.com").is_ok());
    assert!(validate_url("https://sub.evil.com").is_ok());
}

#[test]
fn parsed_url_without_host_is_rejected() {
    let p = ParsedUrl {
        scheme: "https".to_string(),
        host: None,
        serialization: "https:x".to_string(),
    };
    assert_eq!(bad_request(check_parsed_url(Some(p))), "URL has no host");
}

#[test]
fn parsed_url_checks_in_order() {
    assert_eq!(bad_request(check_parsed_url(None)), "Invalid URL format");
    let p = ParsedUrl {
        scheme: "gopher".to_string(),
        host: None,
        serialization: "gopher:x".to_string(),
    };
    assert_eq!(bad_request(check_parsed_url(Some(p))), "Invalid scheme: gopher");
    let p = ParsedUrl {
        scheme: "http".to_string(),
        host: Some("ok.org".to_string()),
        serialization: "http://ok.org/".to_string(),
    };
    assert_eq!(check_parsed_url(Some(p)).unwrap(), "http://ok.org");
}

#[test]
fn blocklist_lowercases_the_host() {
    assert!(is_blocked_domain("EVIL.COM"));
    assert!(is_blocked_domain("Malware.Example.Com"));
    assert!(!is_blocked_domain("example.com"));
    assert!(is_blocked_lowercase("evil.com"));
    assert!(!is_blocked_lowercase("EVIL.COM"));
}

#[test]
fn trim_removes_unicode_white_space_only_at_the_ends() {
    assert_eq!(trim("\u{3000} a b \u{2028}"), "a b");
    assert_eq!(trim("   "), "");
    assert_eq!(trim("x"), "x");
    assert!(white_space('\u{85}'));
    assert!(!white_space('\u{200b}'));
}

#[test]
fn strip_trailing_slash_drops_one() {
    assert_eq!(strip_trailing_slash("a//"), "a/");
    assert_eq!(strip_trailing_slash("a"), "a");
    assert_eq!(strip_trailing_slash(""), "");
}

// ---- tokens --------------------------------------------------------------

#[test]
fn generated_tokens_are_seven_base62_chars() {
    for _ in 0..200 {
        let t = RandomTokenGenerator.generate();
        let s = t.as_str().to_string();
        assert_eq!(s.chars().count(), 7);
        assert!(s.chars().all(|c| c.is_ascii_alphanumeric()));
        assert_eq!(t.to_string(), s);
        assert_eq!(t.into_inner(), s);
    }
}

#[test]
fn generated_tokens_differ() {
    let a = RandomTokenGenerator.generate().into_inner();
    let b = RandomTokenGenerator.generate().into_inner();
    let c = RandomTokenGenerator.generate().into_inner();
    assert!(a != b || b != c);
}

#[test]
fn tokens_spell_the_drawn_indices() {
    let t = token_from_indices(&vec![0, 25, 26, 51, 52, 61, 10]);
    assert_eq!(t.as_str(), "AZaz09K");
    let c = t.clone();
    assert_eq!(c.into_inner(), t.as_str().to_string());
}

#[test]
fn alphabet_is_upper_lower_digits() {
    assert_eq!(alphabet_char(0), 'A');
    assert_eq!(alphabet_char(25), 'Z');
    assert_eq!(alphabet_char(26), 'a');
    assert_eq!(alphabet_char(51), 'z');
    assert_eq!(alphabet_char(52), '0');
    assert_eq!(alphabet_char(61), '9');
}

#[test]
fn token_type_is_usable_through_a_trait_object() {
    let g: Box<dyn TokenGenerator> = Box::new(RandomTokenGenerator);
    let t: Token = g.generate();
    assert_eq!(t.as_str().len(), 7);
}

// ---- error answers -------------------------------------------------------

#[test]
fn error_statuses_and_details() {
    let cases = [
        (AppError::NotFound, 404, "Not Found"),
        (AppError::Gone("This link has expired".to_string()), 410, "This link has expired"),
        (AppError::BadRequest("URL has no host".to_string()), 400, "URL has no host"),
        (AppError::Db("disk I/O error".to_string()), 500, "Internal Server Error"),
        (AppError::Internal("QR encode failed".to_string()), 500, "Internal Server Error"),
    ];
    for (e, code, detail) in cases {
        assert_eq!(e.status_code(), code);
        assert_eq!(e.detail(), detail);
    }
}

// ---- retry rule ----------------------------------------------------------

#[test]
fn insert_is_retried_on_clashes_only() {
    assert!(matches!(next_insert_step(1, InsertOutcome::Inserted), InsertStep::Stored));
    assert!(matches!(next_insert_step(1, InsertOutcome::UniqueViolation), InsertStep::Retry));
    assert!(matches!(
        next_insert_step(MAX_TOKEN_RETRIES - 1, InsertOutcome::UniqueViolation),
        InsertStep::Retry
    ));
    match next_insert_step(MAX_TOKEN_RETRIES, InsertOutcome::UniqueViolation) {
        InsertStep::Fail(AppError::Internal(m)) => {
            assert_eq!(m, "failed to generate a unique token after 10 retries")
        }
        _ => panic!("expected to give up"),
    }
    match next_insert_step(3, InsertOutcome::Failed("locked".to_string())) {
        InsertStep::Fail(AppError::Db(m)) => assert_eq!(m, "locked"),
        _ => panic!("expected a storage failure"),
    }
}

#[test]
fn insert_loop_makes_at_most_ten_attempts() {
    let mut attempts = 0;
    loop {
        attempts += 1;
        match next_insert_step(attempts, InsertOutcome::UniqueViolation) {
            InsertStep::Retry => continue,
            _ => break,
        }
    }
    assert_eq!(attempts, 10);
}

// ---- expiry and the redirect decisions -----------------------------------

#[test]
fn expiry_compares_seconds_then_nanos() {
    assert!(is_expired_at(Some(ts(10, 5)), ts(10, 6)));
    assert!(!is_expired_at(Some(ts(10, 5)), ts(10, 5)));
    assert!(!is_expired_at(Some(ts(10, 5)), ts(9, 999_999_999)));
    assert!(is_expired_at(Some(ts(-1, 0)), ts(0, 0)));
    assert!(!is_expired_at(None, ts(i64::MAX, 0)));
}

#[test]
fn stored_decisions() {
    let now = ts(1000, 0);
    let live = mapping("abc", "https://a.com", Some(ts(2000, 0)), false);
    assert_eq!(resolve_stored_at(&Some(live), now).unwrap(), "https://a.com");
    let expired = mapping("abc", "https://a.com", Some(ts(999, 0)), false);
    match resolve_stored_at(&Some(expired), now) {
        Err(AppError::Gone(m)) => assert_eq!(m, "This link has expired"),
        _ => panic!(),
    }
    // deletion wins over expiry
    let both = mapping("abc", "https://a.com", Some(ts(999, 0)), true);
    match resolve_stored_at(&Some(both), now) {
        Err(AppError::Gone(m)) => assert_eq!(m, "This link has been deleted"),
        _ => panic!(),
    }
    assert!(matches!(resolve_stored_at(&None, now), Err(AppError::NotFound)));
}

#[test]
fn cached_decisions() {
    let t = CachedTarget { url: "https://a.com".to_string(), expires_at: Some(ts(50, 0)) };
    assert_eq!(resolve_cached_at(&t, ts(50, 0)).unwrap(), "https://a.com");
    assert!(matches!(resolve_cached_at(&t, ts(50, 1)), Err(AppError::Gone(_))));
    assert!(t.is_expired());
    let never = CachedTarget { url: "https://b.com".to_string(), expires_at: None };
    assert!(!never.is_expired());
    assert!(!mapping("t", "https://b.com", None, false).is_expired());
}

#[test]
fn cache_put_get_invalidate() {
    let mut s = AppState::new();
    assert!(s.cache_get("a").is_none());
    s.cache_put("a", "https://one.com", None);
    s.cache_put("b", "https://two.com", Some(ts(5, 0)));
    s.cache_put("a", "https://three.com", None);
    assert_eq!(s.cache_get("a").unwrap().url, "https://three.com");
    assert_eq!(s.cache_get("b").unwrap().expires_at, Some(ts(5, 0)));
    s.cache_invalidate("a");
    assert!(s.cache_get("a").is_none());
    assert!(s.cache_get("b").is_some());
}

#[test]
fn expired_hit_drops_the_entry() {
    let mut s = AppState::new();
    s.cache_put("t", "https://a.com", Some(ts(10, 0)));
    let r = s.redirect_cached_at("t", ts(11, 0)).unwrap();
    assert!(matches!(r, Err(AppError::Gone(_))));
    assert!(s.cache_get("t").is_none());
    assert!(s.redirect_cached_at("t", ts(11, 0)).is_none());
}

#[test]
fn live_hit_keeps_the_entry() {
    let mut s = AppState::new();
    s.cache_put("t", "https://a.com", Some(ts(10, 0)));
    assert_eq!(s.redirect_cached_at("t", ts(9, 0)).unwrap().unwrap(), "https://a.com");
    assert!(s.cache_get("t").is_some());
}

#[test]
fn stored_lookup_backfills_only_served_links() {
    let mut s = AppState::new();
    let r = s.redirect_stored_at(Some(mapping("d", "https://d.com", None, true)), ts(1, 0));
    assert!(r.is_err());
    assert!(s.cache_get("d").is_none());
    let r = s.redirect_stored_at(Some(mapping("e", "https://e.com", Some(ts(9, 0)), false)), ts(1, 0));
    assert_eq!(r.unwrap(), "https://e.com");
    let c = s.cache_get("e").unwrap();
    assert_eq!(c.url, "https://e.com");
    assert_eq!(c.expires_at, Some(ts(9, 0)));
    // later, the cached entry expires exactly as the stored link does
    assert!(matches!(s.redirect_cached_at("e", ts(10, 0)), Some(Err(AppError::Gone(_)))));
}

// ---- management endpoints ------------------------------------------------

#[test]
fn deleted_or_missing_links_are_404_for_management() {
    assert!(matches!(require_active(None), Err(AppError::NotFound)));
    assert!(matches!(
        require_active(Some(mapping("x", "https://x.com", None, true))),
        Err(AppError::NotFound)
    ));
    let m = require_active(Some(mapping("x", "https://x.com", None, false))).unwrap();
    assert_eq!(m.token, "x");
}

#[test]
fn update_with_bad_url_changes_nothing() {
    let mut s = AppState::new();
    s.cache_put("x", "https://x.com", None);
    let req = UpdateRequest { url: Some("ftp://x.com".to_string()), expires_at: Some(ts(5, 0)) };
    let r = apply_update(&mut s, "x", mapping("x", "https://x.com", None, false), req);
    assert_eq!(bad_request(r.map(|m| m.original_url)), "Invalid scheme: ftp");
    assert!(s.cache_get("x").is_some());
}

#[test]
fn update_of_expiry_alone_drops_the_cache() {
    let mut s = AppState::new();
    s.cache_put("x", "https://x.com", None);
    let req = UpdateRequest { url: None, expires_at: Some(ts(5, 0)) };
    let m = apply_update(&mut s, "x", mapping("x", "https://x.com", None, false), req).unwrap();
    assert_eq!(m.expires_at, Some(ts(5, 0)));
    assert_eq!(m.original_url, "https://x.com");
    assert_eq!(m.id, 7);
    assert!(s.cache_get("x").is_none());
}

#[test]
fn expiry_set_in_the_past_is_410_after_update() {
    let mut s = AppState::new();
    let m = mapping("x", "https://x.com", None, false);
    s.cache_put("x", "https://x.com", None);
    // 2020-01-01T00:00:00Z
    let req = UpdateRequest { url: None, expires_at: Some(ts(1_577_836_800, 0)) };
    let updated = apply_update(&mut s, "x", m, req).unwrap();
    let now = ts(1_750_000_000, 0);
    assert!(s.redirect_cached_at("x", now).is_none());
    match s.redirect_stored_at(Some(updated), now) {
        Err(AppError::Gone(msg)) => assert_eq!(msg, "This link has expired"),
        other => panic!("expected 410, got {other:?}"),
    }
}

#[test]
fn update_that_changes_nothing_keeps_the_cache() {
    let mut s = AppState::new();
    s.cache_put("x", "https://x.com", None);
    let req = UpdateRequest { url: None, expires_at: None };
    let m = apply_update(&mut s, "x", mapping("x", "https://x.com", None, false), req).unwrap();
    assert_eq!(m.original_url, "https://x.com");
    assert!(s.cache_get("x").is_some());
}

#[test]
fn update_of_url_normalises_and_invalidates() {
    let mut s = AppState::new();
    s.cache_put("x", "https://x.com", None);
    let req = UpdateRequest { url: Some(" HTTP://NEW.com/ ".to_string()), expires_at: None };
    let m = apply_update(&mut s, "x", mapping("x", "https://x.com", Some(ts(3, 0)), false), req)
        .unwrap();
    assert_eq!(m.original_url, "http://new.com");
    assert_eq!(m.expires_at, Some(ts(3, 0)));
    assert!(s.cache_get("x").is_none());
}

#[test]
fn links_are_built_from_the_base_url() {
    assert_eq!(short_url("AbC1234"), "http://localhost:8000/r/AbC1234");
    assert_eq!(qr_code_url("AbC1234"), "http://localhost:8000/api/qr/AbC1234/image");
}

// ---- QR rendering --------------------------------------------------------

#[test]
fn rasterize_one_module() {
    let (dim, px) = rasterize(1, &vec![true]);
    assert_eq!(dim, 72);
    assert_eq!(px.len(), 72 * 72);
    for y in 0..72usize {
        for x in 0..72usize {
            let inside = (32..40).contains(&x) && (32..40).contains(&y);
            assert_eq!(px[y * 72 + x], if inside { 0 } else { 255 });
        }
    }
    let (_, px) = rasterize(1, &vec![false]);
    assert!(px.iter().all(|&p| p == 255));
}

#[test]
fn rasterize_is_row_major() {
    // 2x2 code, only the top-right module dark
    let (dim, px) = rasterize(2, &vec![false, true, false, false]);
    assert_eq!(dim, 80);
    assert_eq!(px[32 * 80 + 40], 0);
    assert_eq!(px[32 * 80 + 32], 255);
    assert_eq!(px[40 * 80 + 40], 255);
}

#[test]
fn qr_png_has_the_code_size() {
    let png = render_qr_png("http://localhost:8000/r/AbC1234").unwrap();
    assert_eq!(&png[1..4], b"PNG");
    // IHDR width and height: a version-2 code (25 modules) at 8 px plus quiet zone
    let w = u32::from_be_bytes([png[16], png[17], png[18], png[19]]);
    let h = u32::from_be_bytes([png[20], png[21], png[22], png[23]]);
    assert_eq!(w, h);
    assert_eq!(w % 8, 0);
    assert!(w / 8 >= 21 + 8);
}

#[test]
fn qr_too_much_data_fails_internally() {
    let data = "x".repeat(8000);
    match render_qr_png(&data) {
        Err(AppError::Internal(m)) => assert!(m.starts_with("QR encode failed: ")),
        _ => panic!("expected an encoder failure"),
    }
}

#[test]
fn qr_image_follows_the_token_not_the_target() {
    let a = qr_image_of("AbC1234", Some(mapping("AbC1234", "https://a.com", None, false))).unwrap();
    let b = qr_image_of("AbC1234", Some(mapping("AbC1234", "https://b.org/x", None, false))).unwrap();
    assert_eq!(a, b);
    assert_eq!(a, render_qr_png("http://localhost:8000/r/AbC1234").unwrap());
    assert!(matches!(qr_image_of("AbC1234", None), Err(AppError::NotFound)));
    assert!(matches!(
        qr_image_of("AbC1234", Some(mapping("AbC1234", "https://a.com", None, true))),
        Err(AppError::NotFound)
    ));
}

#[test]
fn accepted_urls_keep_their_scheme_and_validate_to_themselves() {
    for input in ["HTTP://Example.com/A?b=C", "https://example.com/", "https://example.com:8443/p"] {
        let n = validate_url(input).unwrap();
        assert!(n.starts_with("http://") || n.starts_with("https://"));
        assert_eq!(n.starts_with("https://"), input.to_ascii_lowercase().starts_with("https://"));
        assert_eq!(validate_url(&n).unwrap(), n);
    }
}
