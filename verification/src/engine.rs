use vstd::prelude::*;
use crate::downloadable::LiveAccessToken;
use crate::drivers::{DynamicDriver, OnedriveDriver, RootDriver};
use crate::errors::RequestError;
use crate::kvlist::{kv_has_key, kv_value_of};
use crate::link_cache::{CacheDecision, LinkCache, decide_spec, fetch_begun};
use crate::meta::FileDownloadSource;

verus! {

/// What the caller must do next for one signed-URL request, after the
/// registry, the pool and the cache have been consulted.
#[derive(Debug, Clone, PartialEq, Eq)]
pub enum RequestStep {
    /// A fresh cached URL: hand it out, no upstream call.
    UseCachedUrl(String),
    /// Another fetch for this fingerprint is in flight: wait or fail fast.
    FetchInProgress,
    /// This caller must issue the provider request at the given URL, then
    /// report back through `complete_fetch` or `fail_fetch`.
    FetchUpstream(String),
    /// The request cannot be served: unknown driver or unknown account.
    Failed(RequestError),
}

/// The inner driver of a registered dynamic driver.
pub open spec fn onedrive_of(d: DynamicDriver) -> OnedriveDriver {
    match d {
        DynamicDriver::Onedrive(inner) => inner,
    }
}

/// A link lifetime configured in seconds, as milliseconds, saturating at
/// the largest representable time.
pub open spec fn ttl_ms_of(secs: u64) -> i64 {
    if 1000 * secs <= i64::MAX {
        (1000 * secs) as i64
    } else {
        i64::MAX
    }
}

/// Converts a link lifetime from seconds to milliseconds, saturating.
pub fn link_ttl_ms(secs: u64) -> (r: i64)
    ensures
        r == ttl_ms_of(secs),
{
    if secs <= (i64::MAX as u64) / 1000 {
        (secs * 1000) as i64
    } else {
        i64::MAX
    }
}

/// One pass of the engine's control flow for a download request: resolve
/// the driver by the source's provider type, resolve the account by the
/// source's provider index, then consult the signed-link cache under the
/// source's fingerprint.  A miss locks the entry and tells the caller which
/// provider URL to fetch; every failure is local to this one request.
pub fn plan_download(
    root: &RootDriver,
    cache: &mut LinkCache,
    source: &FileDownloadSource,
    now: i64,
    lock_ms: u64,
) -> (step: RequestStep)
    requires
        root.wf(),
        old(cache).wf(),
        lock_ms <= i64::MAX as u64,
    ensures
        final(cache).wf(),
        !kv_has_key(root.dynamic_drivers.entries@, source.provider_type@) ==> step
            == RequestStep::Failed(RequestError::DriverNotFound) && final(cache).entries.entries@
            == old(cache).entries.entries@,
        kv_has_key(root.dynamic_drivers.entries@, source.provider_type@) ==> ({
            let d = onedrive_of(
                kv_value_of(root.dynamic_drivers.entries@, source.provider_type@),
            );
            if !d.pool.spec_has(source.provider_index@) {
                step == RequestStep::Failed(RequestError::AccountNotFound)
                    && final(cache).entries.entries@ == old(cache).entries.entries@
            } else {
                let a = d.pool.spec_account(source.provider_index@);
                let dec = decide_spec(
                    old(cache).entry_for(source.fingerprint()),
                    now,
                    ttl_ms_of(d.link_expire_seconds),
                );
                &&& match dec {
                    CacheDecision::Hit(u) => step == RequestStep::UseCachedUrl(u),
                    CacheDecision::InFlight => step == RequestStep::FetchInProgress,
                    CacheDecision::Fetch => step matches RequestStep::FetchUpstream(u2)
                        && u2@ == a.request_url_spec(source.object_key@),
                }
                &&& (dec is Hit || dec is InFlight)
                    ==> final(cache).entries.entries@ == old(cache).entries.entries@
                &&& dec is Fetch ==> fetch_begun(
                    *old(cache),
                    *final(cache),
                    source.fingerprint(),
                    now,
                    lock_ms,
                )
            }
        }),
{
    let driver = match root.resolve(source.provider_type.as_str()) {
        Some(d) => d,
        None => {
            return RequestStep::Failed(RequestError::DriverNotFound);
        },
    };
    let DynamicDriver::Onedrive(inner) = driver;
    let account = match inner.pool.lookup(source.provider_index.as_str()) {
        Some(a) => a,
        None => {
            return RequestStep::Failed(RequestError::AccountNotFound);
        },
    };
    let fp = source.get_cache_uuid();
    let ttl = link_ttl_ms(inner.link_expire_seconds);
    match cache.get_or_begin(fp.as_str(), now, ttl, lock_ms) {
        CacheDecision::Hit(url) => RequestStep::UseCachedUrl(url),
        CacheDecision::InFlight => RequestStep::FetchInProgress,
        CacheDecision::Fetch => {
            let url = account.request_url(source.object_key.as_str());
            RequestStep::FetchUpstream(url)
        },
    }
}

} // verus!
