//! The redirect cache and the decisions of the redirect path.
//!
//! A cache entry keeps a link's expiry beside its URL, so that a cache hit
//! makes the same decision as the stored mapping would: an expired link is
//! answered 410 even when it is cached.

use vstd::prelude::*;
use vstd::hash_map::StringHashMap;
use crate::error::{AppError, ErrorView, outcome_view};
use crate::models::UrlMapping;
use crate::timestamp::{Timestamp, expired_at, is_expired_at, now};

verus! {

/// Public base URL of short links and QR image links.
pub const BASE_URL: &'static str = "http://localhost:8000";

/// What is cached for a token: its target and its expiry.
#[derive(Debug)]
pub struct CachedTarget {
    pub url: String,
    pub expires_at: Option<Timestamp>,
}

/// A cached target, its URL seen as a sequence of chars.
pub struct TargetView {
    pub url: Seq<char>,
    pub expires_at: Option<Timestamp>,
}

impl View for CachedTarget {
    type V = TargetView;

    open spec fn view(&self) -> TargetView {
        TargetView { url: self.url@, expires_at: self.expires_at }
    }
}

impl Clone for CachedTarget {
    fn clone(&self) -> (r: Self)
        ensures
            r@ == self@,
    {
        CachedTarget { url: self.url.clone(), expires_at: self.expires_at }
    }
}

impl CachedTarget {
    /// Whether the cached expiry is set and lies before `now`.
    pub fn is_expired_at(&self, now: Timestamp) -> (b: bool)
        ensures
            b == expired_at(self.expires_at, now),
    {
        is_expired_at(self.expires_at, now)
    }

    /// Whether the cached expiry is set and already past, by the system clock.
    pub fn is_expired(&self) -> (b: bool)
        ensures
            exists|t: Timestamp| t.nanos < 2_000_000_000 && b == expired_at(self.expires_at, t),
            self.expires_at is None ==> !b,
    {
        let t = now();
        self.is_expired_at(t)
    }
}

/// The cache entry that a stored link is cached as.
pub open spec fn target_of(m: UrlMapping) -> TargetView {
    TargetView { url: m.original_url@, expires_at: m.expires_at }
}

/// The redirect decision on a cache hit: 410 once expired, else the target.
pub open spec fn spec_resolve_cached(t: TargetView, now: Timestamp) -> Result<
    Seq<char>,
    ErrorView,
> {
    if expired_at(t.expires_at, now) {
        Err(ErrorView::Gone("This link has expired"@))
    } else {
        Ok(t.url)
    }
}

/// The redirect decision from storage: 404 for a token that never existed,
/// 410 for a deleted or an expired link, else the target.
pub open spec fn spec_resolve_stored(m: Option<UrlMapping>, now: Timestamp) -> Result<
    Seq<char>,
    ErrorView,
> {
    match m {
        None => Err(ErrorView::NotFound),
        Some(m) => if m.is_deleted {
            Err(ErrorView::Gone("This link has been deleted"@))
        } else if expired_at(m.expires_at, now) {
            Err(ErrorView::Gone("This link has expired"@))
        } else {
            Ok(m.original_url@)
        },
    }
}

/// Decides a redirect from a cache hit at `now`.
pub fn resolve_cached_at(target: &CachedTarget, now: Timestamp) -> (r: Result<String, AppError>)
    ensures
        outcome_view(r) == spec_resolve_cached(target@, now),
{
    if target.is_expired_at(now) {
        Err(AppError::Gone(String::from_str("This link has expired")))
    } else {
        Ok(target.url.clone())
    }
}

/// Decides a redirect from what storage holds for the token, at `now`.
pub fn resolve_stored_at(mapping: &Option<UrlMapping>, now: Timestamp) -> (r: Result<
    String,
    AppError,
>)
    ensures
        outcome_view(r) == spec_resolve_stored(*mapping, now),
{
    match mapping {
        None => Err(AppError::NotFound),
        Some(m) => {
            if m.is_deleted {
                Err(AppError::Gone(String::from_str("This link has been deleted")))
            } else if m.is_expired_at(now) {
                Err(AppError::Gone(String::from_str("This link has expired")))
            } else {
                Ok(m.original_url.clone())
            }
        },
    }
}

/// The state shared by all requests: the redirect cache, token to target.
pub struct AppState {
    cache: StringHashMap<CachedTarget>,
}

impl View for AppState {
    type V = Map<Seq<char>, TargetView>;

    closed spec fn view(&self) -> Map<Seq<char>, TargetView> {
        self.cache@.map_values(|t: CachedTarget| t@)
    }
}

/// The cache after a redirect served from a hit at `now`: an expired entry
/// is dropped, anything else stays.
pub open spec fn cache_after_hit(
    cache: Map<Seq<char>, TargetView>,
    token: Seq<char>,
    now: Timestamp,
) -> Map<Seq<char>, TargetView> {
    if cache.contains_key(token) && expired_at(cache[token].expires_at, now) {
        cache.remove(token)
    } else {
        cache
    }
}

/// The cache after a redirect decided from storage at `now`: a link that is
/// served is cached under its own token, anything else leaves the cache.
pub open spec fn cache_after_lookup(
    cache: Map<Seq<char>, TargetView>,
    m: Option<UrlMapping>,
    now: Timestamp,
) -> Map<Seq<char>, TargetView> {
    match m {
        Some(m) => if spec_resolve_stored(Some(m), now) is Ok {
            cache.insert(m.token@, target_of(m))
        } else {
            cache
        },
        None => cache,
    }
}

impl AppState {
    /// A state with an empty cache.
    pub fn new() -> (s: AppState)
        ensures
            s@ == Map::<Seq<char>, TargetView>::empty(),
    {
        let s = AppState { cache: StringHashMap::new() };
        assert(s@ =~= Map::<Seq<char>, TargetView>::empty());
        s
    }

    /// Caches `url` and its expiry under `token`.
    pub fn cache_put(&mut self, token: &str, url: &str, expires_at: Option<Timestamp>)
        ensures
            final(self)@ == old(self)@.insert(token@, TargetView { url: url@, expires_at }),
    {
        let target = CachedTarget { url: String::from_str(url), expires_at };
        self.cache.insert(String::from_str(token), target);
        assert(self@ =~= old(self)@.insert(token@, TargetView { url: url@, expires_at }));
    }

    /// The cached target of `token`, if any.
    pub fn cache_get(&self, token: &str) -> (r: Option<CachedTarget>)
        ensures
            match r {
                Some(t) => self@.contains_key(token@) && t@ == self@[token@],
                None => !self@.contains_key(token@),
            },
    {
        match self.cache.get(token) {
            Some(t) => Some(t.clone()),
            None => None,
        }
    }

    /// Drops whatever is cached under `token`.
    pub fn cache_invalidate(&mut self, token: &str)
        ensures
            final(self)@ == old(self)@.remove(token@),
    {
        self.cache.remove(token);
        assert(self@ =~= old(self)@.remove(token@));
    }

    /// The redirect path's first step at `now`: `None` on a cache miss; on a
    /// hit, the decision, dropping the entry when it has expired.
    pub fn redirect_cached_at(&mut self, token: &str, now: Timestamp) -> (r: Option<
        Result<String, AppError>,
    >)
        ensures
            match r {
                None => !old(self)@.contains_key(token@),
                Some(d) => old(self)@.contains_key(token@) && outcome_view(d)
                    == spec_resolve_cached(old(self)@[token@], now),
            },
            final(self)@ == cache_after_hit(old(self)@, token@, now),
    {
        match self.cache_get(token) {
            None => None,
            Some(target) => {
                let d = resolve_cached_at(&target, now);
                if d.is_err() {
                    self.cache_invalidate(token);
                }
                Some(d)
            },
        }
    }

    /// The redirect path's first step, by the system clock.
    pub fn redirect_cached(&mut self, token: &str) -> (r: Option<Result<String, AppError>>)
        ensures
            exists|t: Timestamp|
                {
                    &&& t.nanos < 2_000_000_000
                    &&& final(self)@ == cache_after_hit(old(self)@, token@, t)
                    &&& match r {
                        None => !old(self)@.contains_key(token@),
                        Some(d) => old(self)@.contains_key(token@) && outcome_view(d)
                            == spec_resolve_cached(old(self)@[token@], t),
                    }
                },
    {
        let t = now();
        self.redirect_cached_at(token, t)
    }

    /// The redirect path on a cache miss, at `now`: decides from what storage
    /// holds for the token, and caches a link that is served.
    pub fn redirect_stored_at(&mut self, mapping: Option<UrlMapping>, now: Timestamp) -> (r: Result<
        String,
        AppError,
    >)
        ensures
            outcome_view(r) == spec_resolve_stored(mapping, now),
            final(self)@ == cache_after_lookup(old(self)@, mapping, now),
    {
        let d = resolve_stored_at(&mapping, now);
        if d.is_ok() {
            match &mapping {
                Some(m) => self.cache_put(m.token.as_str(), m.original_url.as_str(), m.expires_at),
                None => {},
            }
        }
        d
    }

    /// The redirect path on a cache miss, by the system clock.
    pub fn redirect_stored(&mut self, mapping: Option<UrlMapping>) -> (r: Result<String, AppError>)
        ensures
            exists|t: Timestamp|
                {
                    &&& t.nanos < 2_000_000_000
                    &&& outcome_view(r) == spec_resolve_stored(mapping, t)
                    &&& final(self)@ == cache_after_lookup(old(self)@, mapping, t)
                },
    {
        let t = now();
        self.redirect_stored_at(mapping, t)
    }
}

/// Reading a token back after caching it gives what was cached; other
/// tokens keep their entries.
pub proof fn law_get_after_put(
    cache: Map<Seq<char>, TargetView>,
    token: Seq<char>,
    target: TargetView,
    other: Seq<char>,
)
    requires
        other != token,
    ensures
        cache.insert(token, target).contains_key(token),
        cache.insert(token, target)[token] == target,
        cache.insert(token, target).contains_key(other) == cache.contains_key(other),
        cache.contains_key(other) ==> cache.insert(token, target)[other] == cache[other],
{
}

/// After a token is invalidated it is a cache miss; other tokens keep their
/// entries.
pub proof fn law_get_after_invalidate(
    cache: Map<Seq<char>, TargetView>,
    token: Seq<char>,
    other: Seq<char>,
)
    requires
        other != token,
    ensures
        !cache.remove(token).contains_key(token),
        cache.remove(token).contains_key(other) == cache.contains_key(other),
        cache.contains_key(other) ==> cache.remove(token)[other] == cache[other],
{
}

/// Once an expiry has passed, it stays passed at every later instant.
pub proof fn law_expiry_is_permanent(expires_at: Option<Timestamp>, t1: Timestamp, t2: Timestamp)
    requires
        expired_at(expires_at, t1),
        !t2.spec_before(t1),
    ensures
        expired_at(expires_at, t2),
{
}

/// For a link that is not deleted, a cache hit on its entry decides exactly
/// as storage would, at every instant: the cache keeps the expiry beside the
/// URL.
pub proof fn law_cache_agrees_with_store(m: UrlMapping, now: Timestamp)
    requires
        !m.is_deleted,
    ensures
        spec_resolve_cached(target_of(m), now) == spec_resolve_stored(Some(m), now),
{
}

/// A link served from storage is cached under its token, and from then on a
/// cache hit on it decides as storage does at any later instant, as long as
/// the stored link is unchanged: in particular, once it expires the hit is
/// answered 410.
pub proof fn law_backfilled_hit_matches_store(
    cache: Map<Seq<char>, TargetView>,
    m: UrlMapping,
    t0: Timestamp,
    t1: Timestamp,
)
    requires
        spec_resolve_stored(Some(m), t0) is Ok,
    ensures
        cache_after_lookup(cache, Some(m), t0).contains_key(m.token@),
        spec_resolve_cached(cache_after_lookup(cache, Some(m), t0)[m.token@], t1)
            == spec_resolve_stored(Some(m), t1),
{
}

/// Once a link is deleted and its cache entry invalidated, a redirect finds
/// no cache entry, and storage answers 410 with the deletion message at any
/// instant; the cache is not refilled with it.
pub proof fn law_redirect_after_delete(
    cache: Map<Seq<char>, TargetView>,
    m: UrlMapping,
    now: Timestamp,
)
    requires
        m.is_deleted,
    ensures
        !cache.remove(m.token@).contains_key(m.token@),
        spec_resolve_stored(Some(m), now) == Err::<Seq<char>, ErrorView>(
            ErrorView::Gone("This link has been deleted"@),
        ),
        cache_after_lookup(cache.remove(m.token@), Some(m), now) == cache.remove(m.token@),
{
}

} // verus!
