use omnecache::configuration::{DiskCfg, MemoryCfg, OmneCacheCfg, SideloadCfg};
use omnecache::error::ConfigurationError;
use omnecache::fs::PathProbe;
use omnecache::OmneCache;

#[test]
fn test_disk_cfg() {
    let cfg = DiskCfg {
        disabled: true,
        path: Some("cache".to_string()),
        items: Some(100),
    };
    assert_eq!(cfg.path, Some("cache".to_string()));
    assert_eq!(cfg.items, Some(100));
}

#[test]
fn test_disk_cfg_default() {
    let cfg = DiskCfg::default();
    assert_eq!(cfg.path, None);
    assert_eq!(cfg.items, None);
}

#[test]
fn test_memory_cfg() {
    let cfg = MemoryCfg {
        disabled: true,
        items: Some(100),
    };
    assert_eq!(cfg.disabled, true);
    assert_eq!(cfg.items, Some(100));
}

#[test]
fn test_memory_cfg_default() {
    let cfg = MemoryCfg::default();
    assert_eq!(cfg.disabled, false);
    assert_eq!(cfg.items, None);
}

#[test]
fn test_sideload_cfg() {
    let cfg = SideloadCfg {
        disabled: true,
        path: Some("sideload".to_string()),
        items: Some(100),
    };
    assert_eq!(cfg.path, Some("sideload".to_string()));
    assert_eq!(cfg.items, Some(100));
}

#[test]
fn test_sideload_cfg_default() {
    let cfg = SideloadCfg::default();
    assert_eq!(cfg.path, None);
    assert_eq!(cfg.items, None);
}

#[test]
fn test_byte_cache_builder() {
    let builder = OmneCacheCfg {
        memory: Some(MemoryCfg {
            disabled: false,
            items: Some(2000),
        }),
        disk: Some(DiskCfg {
            disabled: false,
            path: Some("/var/cache/SomeOmneCacheApp/evidence".into()),
            items: Some(10000),
        }),
        sideload: Some(SideloadCfg {
            disabled: false,
            path: Some("/var/sideload/SomeOmneCacheApp/evidence".into()),
            items: Some(5000),
        }),
    };

    assert_eq!(builder.memory.is_some(), true);
    assert_eq!(builder.disk.is_some(), true);
    assert_eq!(builder.sideload.is_some(), true);
}

#[test]
fn sideload_cfg_new_records_path_and_count() {
    let cfg = SideloadCfg::new("sideload".to_string(), 7);
    assert_eq!(cfg.disabled, false);
    assert_eq!(cfg.path, Some("sideload".to_string()));
    assert_eq!(cfg.items, Some(7));
}

#[test]
fn memory_cfg_disabled_is_an_error() {
    let cfg = MemoryCfg {
        disabled: true,
        items: Some(10),
    };
    assert!(matches!(cfg.lru_cache(), Err(ConfigurationError::Disabled)));
}

#[test]
fn memory_cfg_without_items_is_an_error() {
    let cfg = MemoryCfg {
        disabled: false,
        items: None,
    };
    assert!(matches!(cfg.lru_cache(), Err(ConfigurationError::MissingItems)));
}

#[test]
fn memory_cfg_with_zero_items_is_an_error() {
    let cfg = MemoryCfg {
        disabled: false,
        items: Some(0),
    };
    assert!(matches!(cfg.lru_cache(), Err(ConfigurationError::InvalidItems)));
}

#[test]
fn disk_cfg_errors() {
    let disabled = DiskCfg {
        disabled: true,
        path: Some("cache".to_string()),
        items: Some(10),
    };
    assert!(matches!(disabled.as_fs_cache(0), Err(ConfigurationError::Disabled)));

    let no_path = DiskCfg {
        disabled: false,
        path: None,
        items: Some(10),
    };
    assert!(matches!(no_path.as_fs_cache(0), Err(ConfigurationError::MissingPath)));

    let no_items = DiskCfg {
        disabled: false,
        path: Some("cache".to_string()),
        items: None,
    };
    assert!(matches!(no_items.as_fs_cache(0), Err(ConfigurationError::MissingItems)));
}

#[test]
fn sideload_cfg_missing_dir_is_an_error() {
    let cfg = SideloadCfg {
        disabled: false,
        path: Some("sideload".to_string()),
        items: None,
    };
    let probe = PathProbe {
        exists: false,
        locked: false,
        readonly: false,
    };
    assert!(matches!(cfg.as_fs_cache(probe), Err(ConfigurationError::CfgDirNotFound)));
}

#[test]
fn try_from_memory_only() {
    let cfg = OmneCacheCfg {
        memory: Some(MemoryCfg {
            disabled: false,
            items: Some(100),
        }),
        sideload: None,
        disk: None,
    };
    let probe = PathProbe {
        exists: false,
        locked: false,
        readonly: false,
    };
    let mut cache = OmneCache::try_from(cfg, probe, 0).unwrap();
    assert!(cache.memory.is_some());
    assert!(cache.sideload.is_none());
    assert!(cache.disk.is_none());
    // The fresh memory tier starts empty.
    assert!(cache.get_memory("key1").is_none());
}

#[test]
fn try_from_disabled_memory_leaves_tier_out() {
    let cfg = OmneCacheCfg {
        memory: Some(MemoryCfg {
            disabled: true,
            items: None,
        }),
        sideload: None,
        disk: None,
    };
    let probe = PathProbe {
        exists: false,
        locked: false,
        readonly: false,
    };
    let cache = OmneCache::try_from(cfg, probe, 0).unwrap();
    assert!(cache.memory.is_none());
}

#[test]
fn try_from_disabled_disk_fails_construction() {
    let cfg = OmneCacheCfg {
        memory: None,
        sideload: None,
        disk: Some(DiskCfg {
            disabled: true,
            path: Some("cache".to_string()),
            items: Some(10),
        }),
    };
    let probe = PathProbe {
        exists: false,
        locked: false,
        readonly: false,
    };
    assert!(matches!(
        OmneCache::try_from(cfg, probe, 0),
        Err(ConfigurationError::Disabled)
    ));
}
