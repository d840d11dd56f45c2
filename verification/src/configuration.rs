//! Configuration of the cache tiers.
//!
//! A [`OmneCacheCfg`] carries one optional sub-configuration per tier:
//! [`MemoryCfg`] for the in-memory table, [`SideloadCfg`] for the read-only
//! sideload directory and [`DiskCfg`] for the durable disk directory.  Each
//! sub-configuration converts to its tier or to a typed
//! [`ConfigurationError`](crate::error::ConfigurationError).
//!
//! Loading and saving these values from a configuration file is the work
//! of an outside collaborator; here they are plain data.

use vstd::prelude::*;
use crate::error::ConfigurationError;
use crate::fs::{FsCache, PathProbe, Read, ReadWrite};
use crate::memory::{MemoryTable, lru_contents, lru_limit, lru_new, no_contents};

verus! {

/// Settings of the in-memory tier: whether it is disabled and how many
/// items it may hold.
#[derive(Debug, Clone, Copy, PartialEq, Eq, Structural)]
pub struct MemoryCfg {
    /// Whether the memory cache is disabled
    pub disabled: bool,
    /// Maximum number of items to store in the memory cache
    pub items: Option<usize>,
}

impl Default for MemoryCfg {
    /// An absent configuration: enabled but without a capacity.
    fn default() -> (d: MemoryCfg)
        ensures
            !d.disabled,
            d.items is None,
    {
        MemoryCfg { disabled: false, items: None }
    }
}

impl MemoryCfg {
    /// Builds the in-memory table this configuration describes.
    ///
    /// Fails when the tier is disabled, when no capacity is given, or when
    /// the capacity is zero; otherwise the table starts empty with exactly
    /// the configured bound.
    pub fn lru_cache(&self) -> (r: Result<MemoryTable, ConfigurationError>)
        ensures
            self.disabled ==> r == Err::<MemoryTable, ConfigurationError>(
                ConfigurationError::Disabled,
            ),
            !self.disabled && self.items is None ==> r == Err::<MemoryTable, ConfigurationError>(
                ConfigurationError::MissingItems,
            ),
            !self.disabled && self.items == Some(0usize) ==> r == Err::<
                MemoryTable,
                ConfigurationError,
            >(ConfigurationError::InvalidItems),
            !self.disabled && (self.items matches Some(n) && n > 0) ==> (r matches Ok(c)
                && lru_contents(c) == no_contents() && lru_limit(c)
                == self.items->0),
    {
        if self.disabled {
            return Err(ConfigurationError::Disabled);
        }
        match self.items {
            None => Err(ConfigurationError::MissingItems),
            Some(items) => {
                if items == 0 {
                    Err(ConfigurationError::InvalidItems)
                } else {
                    Ok(lru_new(items))
                }
            },
        }
    }
}

/// Settings of the durable disk tier: whether it is disabled, where its
/// directory lives and how many entries it may admit.
#[derive(Debug, Clone, PartialEq, Eq)]
pub struct DiskCfg {
    /// Whether the disk cache is disabled
    pub disabled: bool,
    /// Optional path to the directory where cached items will be stored
    pub path: Option<String>,
    /// Maximum number of items to store in the disk cache
    pub items: Option<usize>,
}

impl Default for DiskCfg {
    /// An absent configuration: enabled but without a path or capacity.
    fn default() -> (d: DiskCfg)
        ensures
            !d.disabled,
            d.path is None,
            d.items is None,
    {
        DiskCfg { disabled: false, path: None, items: None }
    }
}

impl DiskCfg {
    /// Builds the read-write disk store this configuration describes, over
    /// a directory the driver has created (if needed) and run startup
    /// recovery on; `existing` counts the live entries that survived.
    ///
    /// Fails when the tier is disabled or when the path or the capacity is
    /// not given.
    pub fn as_fs_cache(&self, existing: usize) -> (r: Result<
        FsCache<ReadWrite>,
        ConfigurationError,
    >)
        ensures
            self.disabled ==> r == Err::<FsCache<ReadWrite>, ConfigurationError>(
                ConfigurationError::Disabled,
            ),
            !self.disabled && self.path is None ==> r == Err::<
                FsCache<ReadWrite>,
                ConfigurationError,
            >(ConfigurationError::MissingPath),
            !self.disabled && self.path is Some && self.items is None ==> r == Err::<
                FsCache<ReadWrite>,
                ConfigurationError,
            >(ConfigurationError::MissingItems),
            !self.disabled && self.path is Some && self.items is Some ==> (r matches Ok(s)
                && s.path@ == self.path->0@ && s.kind.limit == self.items->0 && s.kind.used == (
            if self.items->0 > 0 && existing >= self.items->0 {
                self.items->0 as int
            } else if self.items->0 > 0 {
                existing as int
            } else {
                0int
            }) && s.kind.stored@ == Map::<Seq<char>, Seq<u8>>::empty() && s.wf()),
    {
        if self.disabled {
            return Err(ConfigurationError::Disabled);
        }
        match (&self.path, self.items) {
            (Some(path), Some(items)) => Ok(
                FsCache::<ReadWrite>::new_write(path.clone(), items, existing),
            ),
            (None, _) => Err(ConfigurationError::MissingPath),
            (Some(_), None) => Err(ConfigurationError::MissingItems),
        }
    }
}

/// Settings of the read-only sideload tier: whether it is disabled, where
/// its pre-seeded directory lives and how many entries it was seen to
/// hold.
#[derive(Debug, Clone, PartialEq, Eq)]
pub struct SideloadCfg {
    /// Whether the sideload cache is disabled
    pub disabled: bool,
    /// Optional path to the directory containing sideloaded content
    pub path: Option<String>,
    /// Number of items the sideload directory holds
    pub items: Option<usize>,
}

impl Default for SideloadCfg {
    /// An absent configuration: enabled but without a path or item count.
    fn default() -> (d: SideloadCfg)
        ensures
            !d.disabled,
            d.path is None,
            d.items is None,
    {
        SideloadCfg { disabled: false, path: None, items: None }
    }
}

impl SideloadCfg {
    /// A sideload configuration over the given path, holding the number of
    /// entries the driver counted there (zero when the path is absent).
    pub fn new(path: String, existing: usize) -> (r: SideloadCfg)
        ensures
            !r.disabled,
            r.path matches Some(p) && p@ == path@,
            r.items == Some(existing),
    {
        SideloadCfg { disabled: false, path: Some(path), items: Some(existing) }
    }

    /// Builds the read-only sideload store this configuration describes,
    /// after the driver probed the path under a shared lock.
    ///
    /// Fails when the tier is disabled, when no path is given, when the
    /// path does not exist, or when the store's own checks (shared lock,
    /// read-only permissions) refuse it.
    pub fn as_fs_cache(&self, probe: PathProbe) -> (r: Result<FsCache<Read>, ConfigurationError>)
        ensures
            self.disabled ==> r == Err::<FsCache<Read>, ConfigurationError>(
                ConfigurationError::Disabled,
            ),
            !self.disabled && self.path is None ==> r == Err::<FsCache<Read>, ConfigurationError>(
                ConfigurationError::MissingPath,
            ),
            !self.disabled && self.path is Some && !probe.exists ==> r == Err::<
                FsCache<Read>,
                ConfigurationError,
            >(ConfigurationError::CfgDirNotFound),
            !self.disabled && self.path is Some && probe.exists && !(probe.locked
                && probe.readonly) ==> (r matches Err(e) && e is Io),
            !self.disabled && self.path is Some && probe.exists && probe.locked
                && probe.readonly ==> (r matches Ok(s) && s.path@ == self.path->0@),
    {
        if self.disabled {
            return Err(ConfigurationError::Disabled);
        }
        match &self.path {
            None => Err(ConfigurationError::MissingPath),
            Some(path) => {
                if !probe.exists {
                    return Err(ConfigurationError::CfgDirNotFound);
                }
                match FsCache::<Read>::new_read(path.clone(), probe) {
                    Ok(store) => Ok(store),
                    Err(e) => Err(ConfigurationError::Io(String::from_str(e.message()))),
                }
            },
        }
    }
}

/// The configuration of a whole cache: one optional sub-configuration per
/// tier.
#[derive(Debug, Clone, PartialEq, Eq)]
pub struct OmneCacheCfg {
    /// Configuration for the in-memory LRU cache
    pub memory: Option<MemoryCfg>,
    /// Configuration for sideloaded content cache
    pub sideload: Option<SideloadCfg>,
    /// Configuration for persistent disk storage
    pub disk: Option<DiskCfg>,
}

impl Default for OmneCacheCfg {
    /// An absent configuration: no tier configured.
    fn default() -> (d: OmneCacheCfg)
        ensures
            d.memory is None,
            d.sideload is None,
            d.disk is None,
    {
        OmneCacheCfg { memory: None, sideload: None, disk: None }
    }
}

} // verus!
