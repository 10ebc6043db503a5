use vstd::prelude::*;
use crate::errors::ConfigError;
use crate::kvlist::{KvList, kv_has_key, kv_set_applied, kv_value_of};
use crate::pool::{Account, AccountPool, TokenState, keys_unique, flatten_pools};

verus! {

/// Secret material for one provider account: the long-lived refresh token
/// and the application's client credentials.
#[derive(Debug, Clone)]
pub struct OnedriveConfig {
    pub refresh_token: String,
    pub client_id: String,
    pub client_secret: String,
}

/// One account's configuration inside a multi-account driver; the client id
/// doubles as the account's index key.
#[derive(Debug, Clone)]
pub struct OnedriveAccountConfig {
    pub refresh_token: String,
    pub client_id: String,
    pub client_secret: String,
}

/// Per-driver configuration, tagged by provider type.
pub enum DriversConfig {
    Onedrive(OnedriveConfig),
}

/// Per-account configuration inside a driver's index, tagged by provider
/// type.
pub enum DriverIndexConfig {
    Onedrive(OnedriveAccountConfig),
}

/// The values a completed token exchange hands back for one account.
#[derive(Debug, Clone, PartialEq, Eq)]
pub struct OnedriveLiveAccessToken {
    pub access_token: String,
    pub my_drive_id: String,
}

/// An account configuration can assemble the token value its provider's
/// exchange produced; the exchange itself is the caller's network work.
pub trait ProviderAccount<A> {
    /// The token assembled from the exchanged values.
    spec fn assembled(&self, access_token: String, my_drive_id: String) -> A;

    /// Assembles the token from the exchanged values.
    fn assemble_access_token(&self, access_token: String, my_drive_id: String) -> (r: A)
        ensures
            r == self.assembled(access_token, my_drive_id),
    ;
}

/// An account whose tokens are short-lived and must be refreshed
/// periodically.
pub trait DynamicAccessTokenAccount<A>: ProviderAccount<A> {
    /// How long a freshly issued token stays valid, in seconds.
    spec fn lifetime_spec() -> u64;

    /// How long a freshly issued token stays valid, in seconds.
    fn general_lifetime() -> (r: u64)
        ensures
            r == Self::lifetime_spec(),
    ;
}

impl ProviderAccount<OnedriveLiveAccessToken> for OnedriveConfig {
    open spec fn assembled(&self, access_token: String, my_drive_id: String) -> OnedriveLiveAccessToken {
        OnedriveLiveAccessToken { access_token, my_drive_id }
    }

    fn assemble_access_token(&self, access_token: String, my_drive_id: String) -> (r:
        OnedriveLiveAccessToken) {
        OnedriveLiveAccessToken { access_token, my_drive_id }
    }
}

impl DynamicAccessTokenAccount<OnedriveLiveAccessToken> for OnedriveConfig {
    open spec fn lifetime_spec() -> u64 {
        3600
    }

    fn general_lifetime() -> (r: u64) {
        60 * 60
    }
}

/// A pool can be built from a set of per-account configurations; building
/// fails wholesale when the set is not admissible.
pub trait ConfigurablePoolTrait<Config>: Sized {
    /// The configurations admit a pool (no index collision).
    spec fn buildable(configs: Seq<Config>) -> bool;

    /// The pool was built from exactly these configurations.
    spec fn built_from(&self, configs: Seq<Config>) -> bool;

    /// Builds the pool, rejecting the whole set on any index collision.
    fn from_configs(configs: Vec<Config>) -> (r: Result<Self, ConfigError>)
        ensures
            r is Ok <==> Self::buildable(configs@),
            match r {
                Ok(p) => p.built_from(configs@),
                Err(e) => e == ConfigError::DuplicateIndexKey,
            },
    ;
}

impl ConfigurablePoolTrait<Account> for AccountPool {
    open spec fn buildable(configs: Seq<Account>) -> bool {
        keys_unique(configs)
    }

    open spec fn built_from(&self, configs: Seq<Account>) -> bool {
        self.accounts@ == configs && self.wf()
    }

    fn from_configs(configs: Vec<Account>) -> (r: Result<AccountPool, ConfigError>) {
        AccountPool::build(configs)
    }
}

/// Assembles the account state for one configured account, once the initial
/// token exchange and drive lookup have completed upstream.  The client id
/// becomes the account's index key.
pub fn account_from_config(
    config: OnedriveAccountConfig,
    access_token: String,
    my_drive_id: String,
    expires_at: i64,
) -> (a: Account)
    ensures
        a.index_key == config.client_id,
        a.refresh_token == config.refresh_token,
        a.client_id == config.client_id,
        a.client_secret == config.client_secret,
        a.access_token == access_token,
        a.my_drive_id == my_drive_id,
        a.expires_at == expires_at,
        a.state == TokenState::Fresh,
{
    let index_key = config.client_id.clone();
    Account {
        index_key,
        refresh_token: config.refresh_token,
        client_id: config.client_id,
        client_secret: config.client_secret,
        access_token,
        my_drive_id,
        expires_at,
        state: TokenState::Fresh,
    }
}

/// A driver whose accounts hold short-lived tokens that a background
/// scheduler refreshes periodically.
pub trait DynamicAccessTokenDriver {
    /// The refresh cadence the scheduler should use, in seconds.
    spec fn expire_seconds_spec(&self) -> u64;

    /// The refresh cadence the scheduler should use, in seconds.
    fn access_token_expire_seconds(&self) -> (r: u64)
        ensures
            r == self.expire_seconds_spec(),
    ;
}

/// One provider instance bound to its account pool and its policy values:
/// how long its signed links live and how often its tokens are refreshed.
pub struct OnedriveDriver {
    pub identifier: String,
    pub link_expire_seconds: u64,
    pub refresh_interval_seconds: u64,
    pub pool: AccountPool,
}

impl DynamicAccessTokenDriver for OnedriveDriver {
    open spec fn expire_seconds_spec(&self) -> u64 {
        self.refresh_interval_seconds
    }

    fn access_token_expire_seconds(&self) -> (r: u64) {
        self.refresh_interval_seconds
    }
}

impl OnedriveDriver {
    pub open spec fn wf(&self) -> bool {
        self.pool.wf()
    }

    /// Combines two drivers for the same provider instance by merging their
    /// account pools; any index key collision across the union rejects the
    /// combination wholesale.  Policy values are kept from the existing
    /// driver.
    pub fn combine(existing: OnedriveDriver, incoming: OnedriveDriver) -> (r: Result<
        OnedriveDriver,
        ConfigError,
    >)
        ensures
            r is Ok <==> keys_unique(existing.pool.accounts@ + incoming.pool.accounts@),
            match r {
                Ok(d) => d.identifier == existing.identifier && d.link_expire_seconds
                    == existing.link_expire_seconds && d.refresh_interval_seconds
                    == existing.refresh_interval_seconds && d.pool.accounts@
                    == existing.pool.accounts@ + incoming.pool.accounts@ && d.wf(),
                Err(e) => e == ConfigError::DuplicateIndexKey,
            },
    {
        let ghost e_accs = existing.pool.accounts@;
        let ghost i_accs = incoming.pool.accounts@;
        let identifier = existing.identifier;
        let link_expire_seconds = existing.link_expire_seconds;
        let refresh_interval_seconds = existing.refresh_interval_seconds;
        let mut pools: Vec<AccountPool> = Vec::new();
        pools.push(existing.pool);
        pools.push(incoming.pool);
        proof {
            let ps = pools@;
            assert(ps.drop_first().drop_first() =~= Seq::<AccountPool>::empty());
            assert(flatten_pools(ps.drop_first().drop_first()) =~= Seq::<Account>::empty());
            assert(flatten_pools(ps.drop_first()) =~= i_accs);
            assert(flatten_pools(ps) =~= e_accs + i_accs);
        }
        match AccountPool::merge(pools) {
            Ok(pool) => Ok(
                OnedriveDriver { identifier, link_expire_seconds, refresh_interval_seconds, pool },
            ),
            Err(e) => Err(e),
        }
    }
}

/// Static drivers: provider types whose links need no token refresh.  No
/// such provider type is configured yet; the placeholder variant stands in
/// until one is.
pub enum StaticDriver {
    Unconfigured,
}

/// Dynamic drivers: provider types whose tokens are refreshed periodically.
pub enum DynamicDriver {
    Onedrive(OnedriveDriver),
}

impl DynamicDriver {
    pub open spec fn wf(&self) -> bool {
        match *self {
            DynamicDriver::Onedrive(d) => d.wf(),
        }
    }

    /// Combines two registered drivers of the same provider type by merging
    /// their pools; collisions reject the combination wholesale.
    pub fn combine(existing: DynamicDriver, incoming: DynamicDriver) -> (r: Result<
        DynamicDriver,
        ConfigError,
    >)
        ensures
            match (existing, incoming) {
                (DynamicDriver::Onedrive(e), DynamicDriver::Onedrive(i)) => {
                    &&& r is Ok <==> keys_unique(e.pool.accounts@ + i.pool.accounts@)
                    &&& match r {
                        Ok(d) => match d {
                            DynamicDriver::Onedrive(c) => c.identifier == e.identifier
                                && c.link_expire_seconds == e.link_expire_seconds
                                && c.refresh_interval_seconds == e.refresh_interval_seconds
                                && c.pool.accounts@ == e.pool.accounts@ + i.pool.accounts@
                                && c.wf(),
                        },
                        Err(err) => err == ConfigError::DuplicateIndexKey,
                    }
                },
            },
    {
        match (existing, incoming) {
            (DynamicDriver::Onedrive(e), DynamicDriver::Onedrive(i)) => {
                match OnedriveDriver::combine(e, i) {
                    Ok(d) => Ok(DynamicDriver::Onedrive(d)),
                    Err(err) => Err(err),
                }
            },
        }
    }
}

/// The process-wide driver registry: driver identifiers to drivers.
/// Membership changes are whole-value swaps, never partial edits.
pub struct RootDriver {
    pub static_drivers: KvList<StaticDriver>,
    pub dynamic_drivers: KvList<DynamicDriver>,
}

impl RootDriver {
    /// Well-formedness: identifiers are unique and every registered driver
    /// is itself well-formed.
    pub open spec fn wf(&self) -> bool {
        &&& self.static_drivers.wf()
        &&& self.dynamic_drivers.wf()
        &&& forall|k: Seq<char>|
            #[trigger] kv_has_key(self.dynamic_drivers.entries@, k) ==> kv_value_of(
                self.dynamic_drivers.entries@,
                k,
            ).wf()
    }

    /// An empty registry, as built at startup before configuration loads.
    pub fn new() -> (r: RootDriver)
        ensures
            r.wf(),
            r.static_drivers.entries@.len() == 0,
            r.dynamic_drivers.entries@.len() == 0,
    {
        RootDriver { static_drivers: KvList::new(), dynamic_drivers: KvList::new() }
    }

    /// Resolves a driver by its identifier; absence is a request-level
    /// `None`, not a fault.
    pub fn resolve<'a>(&'a self, driver_id: &str) -> (r: Option<&'a DynamicDriver>)
        requires
            self.wf(),
        ensures
            match r {
                Some(d) => self.dynamic_drivers.has_key(driver_id@) && *d
                    == self.dynamic_drivers.value_of(driver_id@),
                None => !self.dynamic_drivers.has_key(driver_id@),
            },
    {
        self.dynamic_drivers.get(driver_id)
    }

    /// Registers (or replaces wholesale) the driver under an identifier;
    /// every other driver is untouched.
    pub fn register(&mut self, driver_id: String, driver: DynamicDriver)
        requires
            old(self).wf(),
            driver.wf(),
        ensures
            final(self).wf(),
            kv_set_applied(
                old(self).dynamic_drivers.entries@,
                final(self).dynamic_drivers.entries@,
                driver_id@,
                driver,
            ),
            final(self).static_drivers == old(self).static_drivers,
    {
        let ghost olds = self.dynamic_drivers.entries@;
        self.dynamic_drivers.set(driver_id, driver);
        proof {
            assert forall|k: Seq<char>|
                #[trigger] kv_has_key(self.dynamic_drivers.entries@, k) implies kv_value_of(
                self.dynamic_drivers.entries@,
                k,
            ).wf() by {
                if k == driver_id@ {
                    assert(kv_value_of(self.dynamic_drivers.entries@, k) == driver);
                } else {
                    assert(kv_has_key(olds, k));
                    assert(kv_value_of(self.dynamic_drivers.entries@, k) == kv_value_of(olds, k));
                }
            }
        }
    }
}

} // verus!
