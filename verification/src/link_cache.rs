use vstd::prelude::*;
use crate::kvlist::{KvList, kv_other_keys_kept, kv_remove_applied, kv_set_applied};
use crate::meta::FileDownloadSource;

verus! {

/// Relies on `chrono::Utc::now`: the current wall-clock time, converted to
/// milliseconds since the Unix epoch.  Nothing is assumed of the value; all
/// cache decisions are proved for every time the clock may hand back.
#[verifier::external_body]
fn now_utc_ms() -> (t: i64) {
    chrono::Utc::now().timestamp_millis()
}

/// One cached signed link: the URL, when it was stored, and an optional
/// advisory lock marking "a fetch is in flight; do not start another".
#[derive(Debug, Clone, PartialEq, Eq)]
pub struct SignedLinkCache {
    pub link: String,
    /// Milliseconds since the Unix epoch.
    pub created_at: i64,
    /// While `now < lock_until`, an upstream fetch for this entry is
    /// considered in flight.  A lock whose time has passed counts for
    /// nothing: it heals itself.
    pub lock_until: Option<i64>,
}

/// The advisory lock is held at `now`.  A `lock_until` in the past is
/// treated as no lock at all, so a crashed fetcher cannot wedge the entry.
pub open spec fn entry_locked(e: SignedLinkCache, now: i64) -> bool {
    match e.lock_until {
        Some(t) => now < t,
        None => false,
    }
}

/// The cached URL is still within its time-to-live at `now`.
pub open spec fn entry_fresh(e: SignedLinkCache, now: i64, ttl: i64) -> bool {
    now - e.created_at < ttl
}

/// When the lock would expire if taken at `now` for `lock_ms` milliseconds,
/// saturating at the largest representable time.
pub open spec fn lock_expiry(now: i64, lock_ms: u64) -> i64 {
    if now + lock_ms <= i64::MAX {
        (now + lock_ms) as i64
    } else {
        i64::MAX
    }
}

impl SignedLinkCache {
    /// A fresh, unlocked entry stored at the given time.
    pub fn new_at(link: String, now: i64) -> (r: SignedLinkCache)
        ensures
            r == (SignedLinkCache { link, created_at: now, lock_until: None }),
    {
        SignedLinkCache { link, created_at: now, lock_until: None }
    }

    /// A fresh, unlocked entry stored at the current wall-clock time.
    pub fn new(link: String) -> (r: SignedLinkCache)
        ensures
            r.link == link,
            r.lock_until is None,
    {
        let now = now_utc_ms();
        SignedLinkCache::new_at(link, now)
    }

    /// The entry with its advisory lock set to expire `ms` milliseconds
    /// after `now`.
    pub fn lock_at(self, now: i64, ms: u64) -> (r: SignedLinkCache)
        requires
            ms <= i64::MAX as u64,
        ensures
            r == (SignedLinkCache { lock_until: Some(lock_expiry(now, ms)), ..self }),
    {
        let delta = ms as i64;
        let until: i64 = if now <= i64::MAX - delta {
            now + delta
        } else {
            i64::MAX
        };
        SignedLinkCache { lock_until: Some(until), ..self }
    }

    /// The entry with its advisory lock set from the current wall-clock
    /// time.
    pub fn lock(self, ms: u64) -> (r: SignedLinkCache)
        requires
            ms <= i64::MAX as u64,
        ensures
            r.link == self.link,
            r.created_at == self.created_at,
            r.lock_until is Some,
    {
        let now = now_utc_ms();
        self.lock_at(now, ms)
    }

    /// The entry with its advisory lock cleared.
    pub fn unlock(self) -> (r: SignedLinkCache)
        ensures
            r == (SignedLinkCache { lock_until: None, ..self }),
    {
        SignedLinkCache { lock_until: None, ..self }
    }

    /// The deterministic cache fingerprint of a download source.
    pub fn get_uuid(source: FileDownloadSource) -> (r: String)
        ensures
            r@ == source.fingerprint(),
    {
        source.get_cache_uuid()
    }
}

/// What a requester must do after consulting the cache.
#[derive(Debug, Clone, PartialEq, Eq)]
pub enum CacheDecision {
    /// The cached URL is fresh and unlocked: use it, no upstream call.
    Hit(String),
    /// Another fetch is in flight for this fingerprint: wait or fail fast,
    /// but do not issue a duplicate upstream call.
    InFlight,
    /// This caller won the right (and the duty) to fetch upstream; the
    /// entry is now locked on its behalf.
    Fetch,
}

/// The decision the cache owes a requester, as a function of the entry (if
/// any), the clock, and the time-to-live.  A fresh unlocked entry is a hit;
/// a locked entry means a fetch is in flight; everything else — no entry,
/// or a stale one whose lock (if any) has itself expired — calls for a
/// fetch.  A lock marker that never received its URL carries the earliest
/// representable creation time, so it is never fresh.
pub open spec fn decide_spec(entry: Option<SignedLinkCache>, now: i64, ttl: i64) -> CacheDecision {
    match entry {
        None => CacheDecision::Fetch,
        Some(e) => if entry_fresh(e, now, ttl) && !entry_locked(e, now) {
            CacheDecision::Hit(e.link)
        } else if entry_locked(e, now) {
            CacheDecision::InFlight
        } else {
            CacheDecision::Fetch
        },
    }
}

/// Holds between the cache states before and after a `Fetch` decision at
/// `now`: the entry under `fp` is locked until `lock_expiry(now, lock_ms)`,
/// its URL and creation time carry over (an absent entry becomes a bare lock
/// marker: empty URL, creation time at the earliest representable instant,
/// so it can never count as fresh), and every other fingerprint keeps its
/// binding.
pub open spec fn fetch_begun(
    oldc: LinkCache,
    newc: LinkCache,
    fp: Seq<char>,
    now: i64,
    lock_ms: u64,
) -> bool {
    &&& newc.entries.has_key(fp)
    &&& newc.entry_val(fp).lock_until == Some(lock_expiry(now, lock_ms))
    &&& match oldc.entry_for(fp) {
        Some(e) => newc.entry_val(fp).link == e.link && newc.entry_val(fp).created_at
            == e.created_at,
        None => newc.entry_val(fp).link@ == Seq::<char>::empty() && newc.entry_val(fp).created_at
            == i64::MIN,
    }
    &&& kv_other_keys_kept(oldc.entries.entries@, newc.entries.entries@, fp)
}

/// The signed-link cache: fingerprints to cached URLs, with per-entry
/// advisory locks collapsing concurrent misses into one upstream fetch.
pub struct LinkCache {
    pub entries: KvList<SignedLinkCache>,
}

impl LinkCache {
    pub open spec fn wf(&self) -> bool {
        self.entries.wf()
    }

    /// The entry stored under a fingerprint (meaningful only when one is
    /// there).
    pub open spec fn entry_val(&self, fp: Seq<char>) -> SignedLinkCache {
        self.entries.value_of(fp)
    }

    /// The entry stored under a fingerprint, if any.
    pub open spec fn entry_for(&self, fp: Seq<char>) -> Option<SignedLinkCache> {
        if self.entries.has_key(fp) {
            Some(self.entries.value_of(fp))
        } else {
            None
        }
    }

    /// The empty cache.
    pub fn new() -> (r: LinkCache)
        ensures
            r.wf(),
            forall|fp: Seq<char>| #[trigger] r.entry_for(fp) is None,
    {
        LinkCache { entries: KvList::new() }
    }

    /// The one atomic critical section of a lookup: decides between hit,
    /// fetch-in-flight and fetch, and, when the decision is `Fetch`, marks
    /// the entry locked until `lock_expiry(now, lock_ms)` in the same step,
    /// so no two callers can both believe they won the right to fetch.
    pub fn get_or_begin(&mut self, fp: &str, now: i64, ttl: i64, lock_ms: u64) -> (d: CacheDecision)
        requires
            old(self).wf(),
            lock_ms <= i64::MAX as u64,
        ensures
            final(self).wf(),
            d == decide_spec(old(self).entry_for(fp@), now, ttl),
            (d is Hit || d is InFlight) ==> final(self).entries.entries@ == old(
                self,
            ).entries.entries@,
            d is Fetch ==> fetch_begun(*old(self), *final(self), fp@, now, lock_ms),
    {
        let prior = self.entries.get(fp);
        match prior {
            Some(e) => {
                let locked = match e.lock_until {
                    Some(t) => now < t,
                    None => false,
                };
                let fresh = (now as i128) - (e.created_at as i128) < (ttl as i128);
                if fresh && !locked {
                    let url = e.link.clone();
                    return CacheDecision::Hit(url);
                }
                if locked {
                    return CacheDecision::InFlight;
                }
                let marker = SignedLinkCache {
                    link: e.link.clone(),
                    created_at: e.created_at,
                    lock_until: None,
                }.lock_at(now, lock_ms);
                self.entries.set(fp.to_owned(), marker);
                CacheDecision::Fetch
            },
            None => {
                let marker = SignedLinkCache::new_at(String::new(), i64::MIN).lock_at(now, lock_ms);
                self.entries.set(fp.to_owned(), marker);
                CacheDecision::Fetch
            },
        }
    }

    /// Stores the fetched URL with a fresh creation time and clears the
    /// lock, all as one whole-entry write.
    pub fn complete_fetch(&mut self, fp: &str, url: String, now: i64)
        requires
            old(self).wf(),
        ensures
            final(self).wf(),
            kv_set_applied(
                old(self).entries.entries@,
                final(self).entries.entries@,
                fp@,
                (SignedLinkCache { link: url, created_at: now, lock_until: None }),
            ),
    {
        let entry = SignedLinkCache::new_at(url, now);
        self.entries.set(fp.to_owned(), entry);
    }

    /// Clears the lock after a failed or timed-out fetch without storing a
    /// URL, so the next caller may retry at once.
    pub fn fail_fetch(&mut self, fp: &str)
        requires
            old(self).wf(),
        ensures
            final(self).wf(),
            match old(self).entry_for(fp@) {
                Some(e) => kv_set_applied(
                    old(self).entries.entries@,
                    final(self).entries.entries@,
                    fp@,
                    (SignedLinkCache { lock_until: None, ..e }),
                ),
                None => final(self).entries.entries@ == old(self).entries.entries@,
            },
    {
        let prior = self.entries.get(fp);
        match prior {
            Some(e) => {
                let cleared = SignedLinkCache {
                    link: e.link.clone(),
                    created_at: e.created_at,
                    lock_until: None,
                };
                self.entries.set(fp.to_owned(), cleared);
            },
            None => {},
        }
    }

    /// Explicit removal, used when the provider signals that the cached URL
    /// is no longer valid.
    pub fn invalidate(&mut self, fp: &str)
        requires
            old(self).wf(),
        ensures
            final(self).wf(),
            kv_remove_applied(old(self).entries.entries@, final(self).entries.entries@, fp@),
    {
        self.entries.remove(fp);
    }
}

/// Concurrent misses collapse into one fetch: once one caller's `Fetch`
/// decision has locked the entry, every further lookup before the lock
/// expires is told a fetch is in flight, whatever the time-to-live — so N
/// racing callers trigger exactly one upstream call.
pub proof fn lemma_fetch_begun_blocks_duplicates(
    oldc: LinkCache,
    newc: LinkCache,
    fp: Seq<char>,
    now: i64,
    lock_ms: u64,
    now2: i64,
    ttl: i64,
)
    requires
        fetch_begun(oldc, newc, fp, now, lock_ms),
        now2 < lock_expiry(now, lock_ms),
    ensures
        decide_spec(newc.entry_for(fp), now2, ttl) is InFlight,
{
}

/// The same, stated of the entry alone: a lock held until `t` turns every
/// lookup before `t` into a fetch-in-flight answer.
pub proof fn lemma_lock_collapses_concurrent_fetches(
    e: SignedLinkCache,
    now2: i64,
    ttl: i64,
    t: i64,
)
    requires
        e.lock_until == Some(t),
        now2 < t,
    ensures
        decide_spec(Some(e), now2, ttl) is InFlight,
{
}

/// Once the winning fetch has stored its URL, every caller within the
/// time-to-live is handed that same URL without a further upstream call.
pub proof fn lemma_all_callers_get_stored_url(e: SignedLinkCache, now2: i64, ttl: i64)
    requires
        e.lock_until is None,
        now2 - e.created_at < ttl,
    ensures
        decide_spec(Some(e), now2, ttl) == CacheDecision::Hit(e.link),
{
}

/// Lock self-healing: an entry whose `lock_until` lies in the past is
/// treated exactly as an unlocked one, even though no explicit unlock ever
/// ran — a crashed fetcher cannot wedge the entry, and no caller is ever
/// told a fetch is in flight.
pub proof fn lemma_stale_lock_self_heals(e: SignedLinkCache, now: i64, ttl: i64, t: i64)
    requires
        e.lock_until == Some(t),
        t <= now,
    ensures
        !entry_locked(e, now),
        decide_spec(Some(e), now, ttl) == decide_spec(
            Some(SignedLinkCache { lock_until: None, ..e }),
            now,
            ttl,
        ),
        !(decide_spec(Some(e), now, ttl) is InFlight),
{
}

} // verus!
