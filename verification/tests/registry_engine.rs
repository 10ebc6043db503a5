use driver_pool::drivers::{
    account_from_config, DynamicDriver, OnedriveAccountConfig, OnedriveConfig, OnedriveDriver,
    ProviderAccount, DynamicAccessTokenAccount, DynamicAccessTokenDriver, ConfigurablePoolTrait,
    RootDriver,
};
use driver_pool::engine::{link_ttl_ms, plan_download, RequestStep};
use driver_pool::errors::{ConfigError, RequestError};
use driver_pool::link_cache::LinkCache;
use driver_pool::meta::FileDownloadSource;
use driver_pool::pool::{Account, AccountPool, TokenState};

fn config(client_id: &str) -> OnedriveAccountConfig {
    OnedriveAccountConfig {
        refresh_token: "SECRET-REDACTED".to_string(),
        client_id: client_id.to_string(),
        client_secret: "SECRET-REDACTED".to_string(),
    }
}

fn onedrive_driver(identifier: &str, accounts: Vec<Account>) -> OnedriveDriver {
    OnedriveDriver {
        identifier: identifier.to_string(),
        link_expire_seconds: 3600,
        refresh_interval_seconds: 1800,
        pool: AccountPool::build(accounts).unwrap(),
    }
}

fn source(provider_type: &str, provider_index: &str, object_key: &str) -> FileDownloadSource {
    FileDownloadSource {
        file_id: "f1".to_string(),
        provider_type: provider_type.to_string(),
        provider_index: provider_index.to_string(),
        object_key: object_key.to_string(),
    }
}

#[test]
fn account_from_config_uses_the_client_id_as_index_key() {
    let a = account_from_config(config("client-7"), "tok".to_string(), "drv".to_string(), 900);
    assert_eq!(a.index_key, "client-7");
    assert_eq!(a.client_id, "client-7");
    assert_eq!(a.access_token, "tok");
    assert_eq!(a.my_drive_id, "drv");
    assert_eq!(a.expires_at, 900);
    assert_eq!(a.state, TokenState::Fresh);
}

#[test]
fn assemble_access_token_carries_the_exchanged_values() {
    let cfg = OnedriveConfig {
        refresh_token: "SECRET-REDACTED".to_string(),
        client_id: "c".to_string(),
        client_secret: "SECRET-REDACTED".to_string(),
    };
    let t = cfg.assemble_access_token("at".to_string(), "drive-1".to_string());
    assert_eq!(t.access_token, "at");
    assert_eq!(t.my_drive_id, "drive-1");
}

#[test]
fn general_lifetime_is_one_hour() {
    let secs = <OnedriveConfig as DynamicAccessTokenAccount<_>>::general_lifetime();
    assert_eq!(secs, 3600);
}

#[test]
fn from_configs_builds_a_pool_or_rejects_it_wholesale() {
    let a1 = account_from_config(config("c1"), "t1".to_string(), "d1".to_string(), 10);
    let a2 = account_from_config(config("c2"), "t2".to_string(), "d2".to_string(), 20);
    let pool = AccountPool::from_configs(vec![a1.clone(), a2]).unwrap();
    assert!(pool.lookup("c1").is_some());
    let dup = AccountPool::from_configs(vec![a1.clone(), a1]);
    assert_eq!(dup.err(), Some(ConfigError::DuplicateIndexKey));
}

#[test]
fn registry_registers_and_resolves_by_identifier() {
    let mut root = RootDriver::new();
    assert!(root.resolve("onedrive").is_none());
    let a = account_from_config(config("c1"), "t1".to_string(), "d1".to_string(), 10);
    root.register("onedrive".to_string(), DynamicDriver::Onedrive(onedrive_driver("onedrive", vec![a])));
    let got = root.resolve("onedrive").unwrap();
    let DynamicDriver::Onedrive(d) = got;
    assert_eq!(d.identifier, "onedrive");
    assert!(root.resolve("gdrive").is_none());
}

#[test]
fn register_replaces_wholesale() {
    let mut root = RootDriver::new();
    let a1 = account_from_config(config("c1"), "t1".to_string(), "d1".to_string(), 10);
    let a2 = account_from_config(config("c2"), "t2".to_string(), "d2".to_string(), 20);
    root.register("onedrive".to_string(), DynamicDriver::Onedrive(onedrive_driver("onedrive", vec![a1])));
    root.register("onedrive".to_string(), DynamicDriver::Onedrive(onedrive_driver("onedrive", vec![a2])));
    let DynamicDriver::Onedrive(d) = root.resolve("onedrive").unwrap();
    assert!(d.pool.lookup("c1").is_none());
    assert!(d.pool.lookup("c2").is_some());
}

#[test]
fn combine_merges_pools_and_rejects_shared_index_keys() {
    let a1 = account_from_config(config("c1"), "t1".to_string(), "d1".to_string(), 10);
    let a2 = account_from_config(config("c2"), "t2".to_string(), "d2".to_string(), 20);
    let merged = OnedriveDriver::combine(
        onedrive_driver("onedrive", vec![a1.clone()]),
        onedrive_driver("onedrive", vec![a2]),
    )
    .unwrap();
    assert!(merged.pool.lookup("c1").is_some());
    assert!(merged.pool.lookup("c2").is_some());

    let collision = OnedriveDriver::combine(
        onedrive_driver("onedrive", vec![a1.clone()]),
        onedrive_driver("onedrive", vec![a1]),
    );
    assert_eq!(collision.err(), Some(ConfigError::DuplicateIndexKey));
}

#[test]
fn the_refresh_cadence_comes_from_the_driver() {
    let a = account_from_config(config("c1"), "t".to_string(), "d".to_string(), 1);
    let d = onedrive_driver("onedrive", vec![a]);
    assert_eq!(d.access_token_expire_seconds(), 1800);
}

#[test]
fn link_ttl_ms_converts_and_saturates() {
    assert_eq!(link_ttl_ms(3600), 3_600_000);
    assert_eq!(link_ttl_ms(0), 0);
    assert_eq!(link_ttl_ms(u64::MAX), i64::MAX);
}

#[test]
fn plan_download_runs_the_full_control_flow() {
    let mut root = RootDriver::new();
    let a = account_from_config(config("c1"), "t1".to_string(), "drive-9".to_string(), 10);
    root.register("onedrive".to_string(), DynamicDriver::Onedrive(onedrive_driver("onedrive", vec![a])));
    let mut cache = LinkCache::new();
    let src = source("onedrive", "c1", "item42");

    // cold: the caller is told which provider URL to fetch
    let step = plan_download(&root, &mut cache, &src, 0, 30_000);
    assert_eq!(
        step,
        RequestStep::FetchUpstream(
            "https://graph.microsoft.com/v1.0/drives/drive-9/items/item42".to_string()
        )
    );

    // the fetch completes; the next request is served from the cache
    let fp = src.get_cache_uuid();
    cache.complete_fetch(&fp, "https://signed.example/win".to_string(), 0);
    let step2 = plan_download(&root, &mut cache, &src, 1_000, 30_000);
    assert_eq!(step2, RequestStep::UseCachedUrl("https://signed.example/win".to_string()));

    // while a fetch is in flight, racing requests are told so
    let src2 = source("onedrive", "c1", "item43");
    let step3 = plan_download(&root, &mut cache, &src2, 0, 30_000);
    assert!(matches!(step3, RequestStep::FetchUpstream(_)));
    let step4 = plan_download(&root, &mut cache, &src2, 10, 30_000);
    assert_eq!(step4, RequestStep::FetchInProgress);
}

#[test]
fn plan_download_reports_unknown_driver_and_account() {
    let mut root = RootDriver::new();
    let a = account_from_config(config("c1"), "t1".to_string(), "d1".to_string(), 10);
    root.register("onedrive".to_string(), DynamicDriver::Onedrive(onedrive_driver("onedrive", vec![a])));
    let mut cache = LinkCache::new();

    let bad_driver = source("gdrive", "c1", "item");
    assert_eq!(
        plan_download(&root, &mut cache, &bad_driver, 0, 30_000),
        RequestStep::Failed(RequestError::DriverNotFound)
    );

    let bad_account = source("onedrive", "missing", "item");
    assert_eq!(
        plan_download(&root, &mut cache, &bad_account, 0, 30_000),
        RequestStep::Failed(RequestError::AccountNotFound)
    );
}
