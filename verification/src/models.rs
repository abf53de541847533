//! The stored rows: a link (token to target URL) and a per-day scan count.

use vstd::prelude::*;
use crate::timestamp::{Timestamp, expired_at, is_expired_at, now};

verus! {

/// A stored short link.
#[derive(Debug, Clone)]
pub struct UrlMapping {
    /// Storage key; never shown to clients.
    pub id: i64,
    pub token: String,
    pub original_url: String,
    pub created_at: Timestamp,
    pub updated_at: Timestamp,
    pub expires_at: Option<Timestamp>,
    /// Soft deletion: the row stays, so a scan can tell 410 from 404.
    pub is_deleted: bool,
}

impl UrlMapping {
    /// A freshly inserted, live link: created and updated at `now`, with the
    /// storage key left at 0 as it is not read back.
    pub fn new_active(
        token: String,
        original_url: String,
        now: Timestamp,
        expires_at: Option<Timestamp>,
    ) -> (m: UrlMapping)
        ensures
            m.id == 0,
            m.token == token,
            m.original_url == original_url,
            m.created_at == now,
            m.updated_at == now,
            m.expires_at == expires_at,
            !m.is_deleted,
    {
        UrlMapping {
            id: 0,
            token,
            original_url,
            created_at: now,
            updated_at: now,
            expires_at,
            is_deleted: false,
        }
    }

    /// Whether an expiry is set and lies before `now`.
    pub fn is_expired_at(&self, now: Timestamp) -> (b: bool)
        ensures
            b == expired_at(self.expires_at, now),
    {
        is_expired_at(self.expires_at, now)
    }

    /// Whether an expiry is set and already in the past, by the system clock.
    /// A link without an expiry never expires; otherwise the answer is the one
    /// `is_expired_at` gives for the instant the clock reported.
    pub fn is_expired(&self) -> (b: bool)
        ensures
            exists|t: Timestamp| t.nanos < 2_000_000_000 && b == expired_at(self.expires_at, t),
            self.expires_at is None ==> !b,
    {
        let t = now();
        self.is_expired_at(t)
    }
}

/// Scans of one token on one calendar day (`YYYY-MM-DD`).
#[derive(Debug, Clone)]
pub struct DailyScan {
    pub date: String,
    pub count: i64,
}

} // verus!
