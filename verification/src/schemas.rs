//! The request and response bodies of the API, kept apart from the stored rows
//! so the wire format can change without the storage layout (the storage key
//! is never sent).

use vstd::prelude::*;
use vstd::std_specs::convert::FromSpecImpl;
use vstd::std_specs::convert::FromSpec;
use crate::models::{DailyScan, UrlMapping};
use crate::timestamp::Timestamp;

verus! {

/// Body of a request to shorten a URL.
#[derive(Debug)]
pub struct CreateRequest {
    pub url: String,
    pub expires_at: Option<Timestamp>,
}

/// Answer to a shortening request.
#[derive(Debug)]
pub struct CreateResponse {
    pub token: String,
    pub short_url: String,
    pub qr_code_url: String,
    pub original_url: String,
}

/// Body of a request to change a link; absent fields stay as they are.
#[derive(Debug)]
pub struct UpdateRequest {
    pub url: Option<String>,
    pub expires_at: Option<Timestamp>,
}

/// What is shown of a link.
#[derive(Debug)]
pub struct QRInfoResponse {
    pub token: String,
    pub original_url: String,
    pub created_at: Timestamp,
    pub updated_at: Timestamp,
    pub expires_at: Option<Timestamp>,
    pub is_deleted: bool,
}

impl From<UrlMapping> for QRInfoResponse {
    fn from(m: UrlMapping) -> (r: QRInfoResponse)
        ensures
            r.token == m.token,
            r.original_url == m.original_url,
            r.created_at == m.created_at,
            r.updated_at == m.updated_at,
            r.expires_at == m.expires_at,
            r.is_deleted == m.is_deleted,
    {
        QRInfoResponse {
            token: m.token,
            original_url: m.original_url,
            created_at: m.created_at,
            updated_at: m.updated_at,
            expires_at: m.expires_at,
            is_deleted: m.is_deleted,
        }
    }
}

impl FromSpecImpl<UrlMapping> for QRInfoResponse {
    open spec fn obeys_from_spec() -> bool {
        true
    }

    open spec fn from_spec(m: UrlMapping) -> QRInfoResponse {
        QRInfoResponse {
            token: m.token,
            original_url: m.original_url,
            created_at: m.created_at,
            updated_at: m.updated_at,
            expires_at: m.expires_at,
            is_deleted: m.is_deleted,
        }
    }
}

/// Scans of one day, as answered.
#[derive(Debug)]
pub struct DailyScanResponse {
    pub date: String,
    pub count: i64,
}

impl From<DailyScan> for DailyScanResponse {
    fn from(d: DailyScan) -> (r: DailyScanResponse)
        ensures
            r.date == d.date,
            r.count == d.count,
    {
        DailyScanResponse { date: d.date, count: d.count }
    }
}

impl FromSpecImpl<DailyScan> for DailyScanResponse {
    open spec fn obeys_from_spec() -> bool {
        true
    }

    open spec fn from_spec(d: DailyScan) -> DailyScanResponse {
        DailyScanResponse { date: d.date, count: d.count }
    }
}

/// Scan statistics of a link.
#[derive(Debug)]
pub struct AnalyticsResponse {
    pub token: String,
    pub total_scans: i64,
    pub scans_by_day: Vec<DailyScanResponse>,
}

/// The details shown of a link carry each of its fields unchanged; only the
/// storage key is left out.
pub proof fn law_info_shows_the_link(m: UrlMapping)
    ensures
        <QRInfoResponse as FromSpec<UrlMapping>>::obeys_from_spec(),
        <QRInfoResponse as FromSpec<UrlMapping>>::from_spec(m).token == m.token,
        <QRInfoResponse as FromSpec<UrlMapping>>::from_spec(m).original_url == m.original_url,
        <QRInfoResponse as FromSpec<UrlMapping>>::from_spec(m).created_at == m.created_at,
        <QRInfoResponse as FromSpec<UrlMapping>>::from_spec(m).updated_at == m.updated_at,
        <QRInfoResponse as FromSpec<UrlMapping>>::from_spec(m).expires_at == m.expires_at,
        <QRInfoResponse as FromSpec<UrlMapping>>::from_spec(m).is_deleted == m.is_deleted,
{
}

/// A day's scans are shown with their date and count unchanged.
pub proof fn law_daily_scan_shown_as_counted(d: DailyScan)
    ensures
        <DailyScanResponse as FromSpec<DailyScan>>::obeys_from_spec(),
        <DailyScanResponse as FromSpec<DailyScan>>::from_spec(d).date == d.date,
        <DailyScanResponse as FromSpec<DailyScan>>::from_spec(d).count == d.count,
{
}

} // verus!
