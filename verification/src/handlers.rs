//! The decisions of the API endpoints: which status answers which situation,
//! what a response holds, and how an update changes a link and the cache.
//! Reading and writing storage, and speaking HTTP, happen around these.

use vstd::prelude::*;
use crate::error::{AppError, ErrorView};
use crate::models::{DailyScan, UrlMapping};
use crate::schemas::{AnalyticsResponse, CreateResponse, DailyScanResponse, UpdateRequest};
use crate::state::{AppState, BASE_URL, TargetView, target_of};
use crate::url_validator::{spec_validate_url, validate_url};
use crate::qr::{bytes_outcome, render_qr_png, spec_render_qr_png};
use vstd::utf8::encode_utf8;

verus! {

/// The short link of `token`: `{BASE_URL}/r/{token}`.
pub fn short_url(token: &str) -> (r: String)
    ensures
        r@ == BASE_URL@ + "/r/"@ + token@,
{
    let mut r = String::from_str(BASE_URL);
    r.append("/r/");
    r.append(token);
    r
}

/// The QR image link of `token`: `{BASE_URL}/api/qr/{token}/image`.
pub fn qr_code_url(token: &str) -> (r: String)
    ensures
        r@ == BASE_URL@ + "/api/qr/"@ + token@ + "/image"@,
{
    let mut r = String::from_str(BASE_URL);
    r.append("/api/qr/");
    r.append(token);
    r.append("/image");
    r
}

/// The answer to a successful shortening of `mapping`.
pub fn create_response(mapping: UrlMapping) -> (r: CreateResponse)
    ensures
        r.token@ == mapping.token@,
        r.short_url@ == BASE_URL@ + "/r/"@ + mapping.token@,
        r.qr_code_url@ == BASE_URL@ + "/api/qr/"@ + mapping.token@ + "/image"@,
        r.original_url@ == mapping.original_url@,
{
    let short = short_url(mapping.token.as_str());
    let qr = qr_code_url(mapping.token.as_str());
    CreateResponse {
        short_url: short,
        qr_code_url: qr,
        original_url: mapping.original_url,
        token: mapping.token,
    }
}

/// What the management endpoints accept: a link that exists and is not
/// deleted. Both a missing and a deleted link are answered 404 there; only the
/// redirect tells a deleted link (410) from an unknown one.
pub fn require_active(mapping: Option<UrlMapping>) -> (r: Result<UrlMapping, AppError>)
    ensures
        match mapping {
            None => r matches Err(e) && e@ == ErrorView::NotFound,
            Some(m) => if m.is_deleted {
                r matches Err(e) && e@ == ErrorView::NotFound
            } else {
                r == Ok::<UrlMapping, AppError>(m)
            },
        },
{
    match mapping {
        None => Err(AppError::NotFound),
        Some(m) => {
            if m.is_deleted {
                Err(AppError::NotFound)
            } else {
                Ok(m)
            }
        },
    }
}

/// An update request changes something: a new URL or a new expiry.
pub open spec fn changes_link(req: UpdateRequest) -> bool {
    req.url is Some || req.expires_at is Some
}

/// The cache after a successful update of the link under `token`: a change
/// to the link drops its entry, so the next hit cannot decide on a stale
/// target or expiry; an update that changes nothing leaves the cache.
pub open spec fn cache_after_update(
    cache: Map<Seq<char>, TargetView>,
    token: Seq<char>,
    changed: bool,
) -> Map<Seq<char>, TargetView> {
    if changed {
        cache.remove(token)
    } else {
        cache
    }
}

/// Applies an update request to a live link. A new URL is validated first (a
/// rejected URL leaves link and cache untouched) and replaces the target; a
/// new expiry replaces the old one. When either changes, the cache entry of
/// `token` is dropped, so a cache hit never answers from the old target or
/// the old expiry. Nothing else of the link changes.
pub fn apply_update(state: &mut AppState, token: &str, mapping: UrlMapping, req: UpdateRequest) -> (r:
    Result<UrlMapping, AppError>)
    ensures
        match req.url {
            Some(u) => match spec_validate_url(u@) {
                Err(e) => (r matches Err(x) && x@ == e) && final(state)@ == old(state)@,
                Ok(n) => r matches Ok(m2) && m2.original_url@ == n,
            },
            None => r matches Ok(m2) && m2.original_url == mapping.original_url,
        },
        r is Ok ==> final(state)@ == cache_after_update(old(state)@, token@, changes_link(req)),
        r matches Ok(m2) ==> {
            &&& m2.id == mapping.id
            &&& m2.token == mapping.token
            &&& m2.created_at == mapping.created_at
            &&& m2.updated_at == mapping.updated_at
            &&& m2.is_deleted == mapping.is_deleted
            &&& m2.expires_at == match req.expires_at {
                Some(e) => Some(e),
                None => mapping.expires_at,
            }
        },
        r matches Ok(m2) ==> !final(state)@.contains_key(token@) || (!changes_link(req)
            && final(state)@ == old(state)@ && target_of(m2) == target_of(mapping)),
{
    let mut m = mapping;
    let mut changed = false;
    match req.url {
        Some(u) => {
            match validate_url(u.as_str()) {
                Ok(n) => {
                    m.original_url = n;
                    changed = true;
                },
                Err(e) => {
                    return Err(e);
                },
            }
        },
        None => {},
    }
    match req.expires_at {
        Some(e) => {
            m.expires_at = Some(e);
            changed = true;
        },
        None => {},
    }
    if changed {
        state.cache_invalidate(token);
    }
    Ok(m)
}

/// An update keeps the cache faithful to storage: if the entry of `token`
/// was absent or matched the link before, then after the update it is absent
/// or matches the updated link, so a later cache hit decides as storage does.
pub proof fn law_update_keeps_cache_consistent(
    cache: Map<Seq<char>, TargetView>,
    token: Seq<char>,
    before: UrlMapping,
    after: UrlMapping,
    changed: bool,
)
    requires
        !cache.contains_key(token) || cache[token] == target_of(before),
        changed || target_of(after) == target_of(before),
    ensures
        !cache_after_update(cache, token, changed).contains_key(token) || cache_after_update(
            cache,
            token,
            changed,
        )[token] == target_of(after),
{
}

/// The QR image answered for `token`: 404 for a missing or deleted link,
/// else the PNG of the QR code of the token's short link. The image depends
/// on the token alone, never on the link's target.
pub open spec fn spec_qr_image(token: Seq<char>, mapping: Option<UrlMapping>) -> Result<
    Seq<u8>,
    ErrorView,
> {
    match mapping {
        None => Err(ErrorView::NotFound),
        Some(m) => if m.is_deleted {
            Err(ErrorView::NotFound)
        } else {
            spec_render_qr_png(encode_utf8(BASE_URL@ + "/r/"@ + token))
        },
    }
}

/// The QR image of the link stored under `token` (`mapping` is what storage
/// holds for it).
pub fn qr_image_of(token: &str, mapping: Option<UrlMapping>) -> (r: Result<Vec<u8>, AppError>)
    ensures
        bytes_outcome(r) == spec_qr_image(token@, mapping),
{
    match require_active(mapping) {
        Err(e) => Err(e),
        Ok(_) => {
            let url = short_url(token);
            render_qr_png(url.as_str())
        },
    }
}

/// Retargeting a link keeps its QR image: for two live links under the same
/// token, whatever their targets and expiries, the image is the same.
pub proof fn law_qr_image_ignores_target(token: Seq<char>, m1: UrlMapping, m2: UrlMapping)
    requires
        !m1.is_deleted,
        !m2.is_deleted,
    ensures
        spec_qr_image(token, Some(m1)) == spec_qr_image(token, Some(m2)),
{
}

/// The scan statistics of `token`: the total and the per-day counts, in the
/// order given.
pub fn analytics_response(token: String, total_scans: i64, daily: Vec<DailyScan>) -> (r:
    AnalyticsResponse)
    ensures
        r.token == token,
        r.total_scans == total_scans,
        r.scans_by_day@.len() == daily@.len(),
        forall|i: int|
            0 <= i < daily@.len() ==> (#[trigger] r.scans_by_day@[i]).date == daily@[i].date
                && r.scans_by_day@[i].count == daily@[i].count,
{
    let mut rest = daily;
    let ghost orig = rest@;
    let ghost n = orig.len();
    // move the days onto a stack, last day first, then pop them back in order
    let mut stack: Vec<DailyScan> = Vec::new();
    while rest.len() > 0
        invariant
            n == orig.len(),
            rest@ == orig.subrange(0, rest@.len() as int),
            stack@.len() + rest@.len() == n,
            forall|i: int| 0 <= i < stack@.len() ==> #[trigger] stack@[i] == orig[n - 1 - i],
        decreases rest@.len(),
    {
        let d = rest.pop().unwrap();
        stack.push(d);
        assert(rest@ =~= orig.subrange(0, rest@.len() as int));
    }
    let mut out: Vec<DailyScanResponse> = Vec::new();
    while stack.len() > 0
        invariant
            n == orig.len(),
            out@.len() + stack@.len() == n,
            forall|i: int| 0 <= i < stack@.len() ==> #[trigger] stack@[i] == orig[n - 1 - i],
            forall|i: int|
                0 <= i < out@.len() ==> (#[trigger] out@[i]).date == orig[i].date && out@[i].count
                    == orig[i].count,
        decreases stack@.len(),
    {
        let d = stack.pop().unwrap();
        out.push(DailyScanResponse::from(d));
    }
    AnalyticsResponse { token, total_scans, scans_by_day: out }
}

} // verus!
