//! # OmneCache
//!
//! A multi-layer caching system for byte-oriented data.
//!
//! OmneCache composes up to three cache tiers behind one lookup/store
//! interface:
//!
//! * **Memory**: a bounded in-memory LRU table for recently used items
//! * **Sideload**: pre-seeded, read-only content served from a directory
//! * **Disk**: a durable read-write directory of byte blobs
//!
//! A lookup descends the tiers in that fixed order, stops at the first hit,
//! and promotes the value into the memory tier; a store writes into the
//! memory tier and writes through into the disk tier.
//!
//! The decision logic of every tier lives here, verified: key validation,
//! capacity admission, startup-recovery choices, write-retry classification
//! and the orchestration across tiers.  The blocking filesystem work that
//! those decisions direct (opening, locking, syncing, renaming) is performed
//! by an unverified driver around this library, which hands each outcome
//! back as a plain value.

pub mod configuration;
pub mod error;
pub mod fs;
pub mod memory;
pub mod recovery;
pub mod write;

use vstd::prelude::*;
use vstd::string::*;
use vstd::slice::slice_to_vec;
use crate::configuration::{DiskCfg, MemoryCfg, OmneCacheCfg, SideloadCfg};
use crate::error::{CacheableError, ConfigurationError};
use crate::fs::{FsCache, PathProbe, Read, ReadWrite, tier_lookup};
use crate::memory::{MemoryTable, lru_contents, lru_get, lru_limit, lru_put, no_contents};

verus! {

/// A memory sub-configuration either yields a table or is left out: absent
/// or disabled means no memory tier, anything else must carry a positive
/// capacity.
pub open spec fn memory_cfg_ok(m: Option<MemoryCfg>) -> bool {
    match m {
        None => true,
        Some(c) => c.disabled || (c.items matches Some(n) && n > 0),
    }
}

/// A present sideload sub-configuration must be enabled, carry a path, and
/// the probed path must exist, be lockable and be read-only.
pub open spec fn sideload_cfg_ok(s: Option<SideloadCfg>, probe: PathProbe) -> bool {
    match s {
        None => true,
        Some(c) => !c.disabled && c.path is Some && probe.exists && probe.locked && probe.readonly,
    }
}

/// A present disk sub-configuration must be enabled and carry both a path
/// and a capacity.
pub open spec fn disk_cfg_ok(d: Option<DiskCfg>) -> bool {
    match d {
        None => true,
        Some(c) => !c.disabled && c.path is Some && c.items is Some,
    }
}

/// The error a bad memory sub-configuration fails construction with.
pub open spec fn memory_cfg_err(c: MemoryCfg) -> ConfigurationError {
    if c.items is None {
        ConfigurationError::MissingItems
    } else {
        ConfigurationError::InvalidItems
    }
}

/// The error a bad disk sub-configuration fails construction with.
pub open spec fn disk_cfg_err(c: DiskCfg) -> ConfigurationError {
    if c.disabled {
        ConfigurationError::Disabled
    } else if c.path is None {
        ConfigurationError::MissingPath
    } else {
        ConfigurationError::MissingItems
    }
}

/// What storing a pair does to the fast tier's contents.  While the key is
/// already present or the table holds fewer entries than its bound, the
/// new contents are exactly the old with the pair inserted — nothing is
/// evicted.  Only a fresh key arriving at capacity evicts, and then
/// exactly one existing entry leaves.
pub open spec fn promoted(
    before: Map<Seq<char>, Seq<u8>>,
    after: Map<Seq<char>, Seq<u8>>,
    bound: nat,
    key: Seq<char>,
    val: Seq<u8>,
) -> bool {
    if before.dom().contains(key) || before.dom().len() < bound {
        after == before.insert(key, val)
    } else {
        exists|victim: Seq<char>|
            #![auto]
            before.dom().contains(victim) && victim != key && after == before.remove(
                victim,
            ).insert(key, val)
    }
}

/// Distinct keys do not collide: storing a second key while the table's
/// entries are only inserted (no eviction) keeps the first key's payload
/// retrievable, each under its own key.
pub proof fn lemma_distinct_keys_retained(
    m: Map<Seq<char>, Seq<u8>>,
    k1: Seq<char>,
    d1: Seq<u8>,
    k2: Seq<char>,
    d2: Seq<u8>,
)
    requires
        k1 != k2,
    ensures
        tier_lookup(m.insert(k1, d1).insert(k2, d2), k1) == Some(d1),
        tier_lookup(m.insert(k1, d1).insert(k2, d2), k2) == Some(d2),
{
}

/// The durable tiers a lookup may probe, in descent order.
#[derive(Debug, Clone, Copy, PartialEq, Eq, Structural)]
pub enum DurableTier {
    /// The read-only sideload store
    Sideload,
    /// The read-write disk store
    Disk,
}

/// What the driver does next in a lookup.
#[derive(Debug, PartialEq, Eq)]
pub enum LookupStep {
    /// The key was found: serve these bytes to the caller
    Serve(Vec<u8>),
    /// Probe this durable tier and report its outcome
    Probe(DurableTier),
    /// Every tier missed: the lookup ends not-found
    Miss,
}

/// Multi-layer cache: up to one tier of each kind, owned exclusively.
pub struct OmneCache {
    /// In-memory LRU table for fast access to recently used items
    pub memory: Option<MemoryTable>,
    /// Read-only store of sideloaded content
    pub sideload: Option<FsCache<Read>>,
    /// Durable read-write disk store
    pub disk: Option<FsCache<ReadWrite>>,
}

impl OmneCache {
    /// Derives the physical cache key of an item: its type's unique
    /// prefix, an underscore, then the item's own natural key.
    pub fn build_key(prefix: &str, key: &str) -> (r: String)
        ensures
            r@ == prefix@ + "_"@ + key@,
    {
        String::from_str(prefix).concat("_").concat(key)
    }

    /// Builds a cache from its configuration: each present
    /// sub-configuration converts to its tier or fails construction with
    /// its typed error, in tier order (memory, sideload, disk).
    ///
    /// The driver supplies the two observations the directory tiers need:
    /// the probe of the sideload path and the count of live entries that
    /// survived startup recovery under the disk path.
    pub fn try_from(cfg: OmneCacheCfg, sideload_probe: PathProbe, disk_existing: usize) -> (r:
        Result<OmneCache, ConfigurationError>)
        ensures
            r is Ok <==> (memory_cfg_ok(cfg.memory) && sideload_cfg_ok(
                cfg.sideload,
                sideload_probe,
            ) && disk_cfg_ok(cfg.disk)),
            !memory_cfg_ok(cfg.memory) ==> r == Err::<OmneCache, ConfigurationError>(
                memory_cfg_err(cfg.memory->0),
            ),
            memory_cfg_ok(cfg.memory) && !sideload_cfg_ok(cfg.sideload, sideload_probe) ==> ({
                let s = cfg.sideload->0;
                if s.disabled {
                    r == Err::<OmneCache, ConfigurationError>(ConfigurationError::Disabled)
                } else if s.path is None {
                    r == Err::<OmneCache, ConfigurationError>(ConfigurationError::MissingPath)
                } else if !sideload_probe.exists {
                    r == Err::<OmneCache, ConfigurationError>(ConfigurationError::CfgDirNotFound)
                } else {
                    r matches Err(ConfigurationError::Io(_))
                }
            }),
            memory_cfg_ok(cfg.memory) && sideload_cfg_ok(cfg.sideload, sideload_probe)
                && !disk_cfg_ok(cfg.disk) ==> r == Err::<OmneCache, ConfigurationError>(
                disk_cfg_err(cfg.disk->0),
            ),
            r matches Ok(c) ==> ({
                &&& c.memory is Some <==> (cfg.memory matches Some(m) && !m.disabled)
                &&& (cfg.memory matches Some(m) && !m.disabled) ==> lru_contents(c.memory->0)
                    == no_contents() && lru_limit(c.memory->0) == cfg.memory->0.items->0
                &&& c.sideload is Some <==> cfg.sideload is Some
                &&& cfg.sideload is Some ==> c.sideload->0.path@ == cfg.sideload->0.path->0@
                &&& c.disk is Some <==> cfg.disk is Some
                &&& cfg.disk is Some ==> c.disk->0.path@ == cfg.disk->0.path->0@
                    && c.disk->0.kind.limit == cfg.disk->0.items->0 && c.disk->0.kind.used == (
                if cfg.disk->0.items->0 > 0 && disk_existing >= cfg.disk->0.items->0 {
                    cfg.disk->0.items->0 as int
                } else if cfg.disk->0.items->0 > 0 {
                    disk_existing as int
                } else {
                    0int
                }) && c.disk->0.kind.stored@ == Map::<Seq<char>, Seq<u8>>::empty()
                    && c.disk->0.wf()
            }),
    {
        let memory = match cfg.memory {
            Some(m) => if !m.disabled {
                Some(m.lru_cache()?)
            } else {
                None
            },
            None => None,
        };
        let sideload = match cfg.sideload {
            Some(s) => Some(s.as_fs_cache(sideload_probe)?),
            None => None,
        };
        let disk = match cfg.disk {
            Some(d) => Some(d.as_fs_cache(disk_existing)?),
            None => None,
        };
        Ok(OmneCache { memory, sideload, disk })
    }

    /// Looks the key up in the fast tier, the first stop of every get.
    ///
    /// A hit returns the stored bytes; without a memory tier, or on a
    /// miss, the caller goes on to probe the sideload and disk tiers.
    pub fn get_memory(&mut self, key: &str) -> (r: Option<Vec<u8>>)
        ensures
            final(self).sideload == old(self).sideload,
            final(self).disk == old(self).disk,
            old(self).memory is None ==> (r is None && final(self).memory is None),
            old(self).memory matches Some(m) ==> (final(self).memory matches Some(m2)
                && lru_contents(m2) == lru_contents(m) && lru_limit(m2) == lru_limit(m) && (
            match tier_lookup(lru_contents(m), key@) {
                Some(s) => r matches Some(v) && v@ == s,
                None => r is None,
            })),
    {
        match &mut self.memory {
            Some(m) => lru_get(m, key),
            None => None,
        }
    }

    /// Promotes a value that a slower tier served into the fast tier, so
    /// the next lookup of the key stops there.
    ///
    /// Without a memory tier this is a no-op.  Promotion can evict at most
    /// one least-recently-used entry; every other entry stays.
    pub fn promote(&mut self, key: &str, data: Vec<u8>)
        ensures
            final(self).sideload == old(self).sideload,
            final(self).disk == old(self).disk,
            old(self).memory is None ==> final(self).memory is None,
            old(self).memory matches Some(m) ==> (final(self).memory matches Some(m2) && lru_limit(
                m2,
            ) == lru_limit(m) && promoted(
                lru_contents(m),
                lru_contents(m2),
                lru_limit(m),
                key@,
                data@,
            )),
    {
        let owned: String = String::from_str(key);
        match &mut self.memory {
            Some(m) => lru_put(m, owned, data),
            None => {},
        }
    }

    /// Stores a value: writes it into the fast tier when one exists and
    /// says whether the caller must write through into the disk tier.
    ///
    /// `Ok(true)` directs the caller to run the durable write pipeline;
    /// with neither a memory nor a disk tier there is nowhere to write and
    /// the store fails.
    pub fn put_through(&mut self, key: &str, value: &[u8]) -> (r: Result<bool, CacheableError>)
        ensures
            final(self).sideload == old(self).sideload,
            final(self).disk == old(self).disk,
            old(self).memory is None && old(self).disk is None ==> (r == Err::<
                bool,
                CacheableError,
            >(CacheableError::WriteError) && final(self).memory is None),
            old(self).memory is None && old(self).disk is Some ==> (r == Ok::<bool, CacheableError>(
                true,
            ) && final(self).memory is None),
            old(self).memory matches Some(m) ==> (r == Ok::<bool, CacheableError>(
                old(self).disk is Some,
            ) && (final(self).memory matches Some(m2) && lru_limit(m2) == lru_limit(m) && promoted(
                lru_contents(m),
                lru_contents(m2),
                lru_limit(m),
                key@,
                value@,
            ))),
    {
        if self.memory.is_none() && self.disk.is_none() {
            return Err(CacheableError::WriteError);
        }
        let wrote_disk_needed = self.disk.is_some();
        let owned: String = String::from_str(key);
        let data: Vec<u8> = slice_to_vec(value);
        match &mut self.memory {
            Some(m) => lru_put(m, owned, data),
            None => {},
        }
        Ok(wrote_disk_needed)
    }

    /// Decides the lookup's next step from the outcome of the tier just
    /// probed (`None` names the fast tier, whose probe is
    /// [`get_memory`](OmneCache::get_memory)).
    ///
    /// A hit is served and the descent stops; a durable hit is promoted
    /// into the fast tier first, on this same lookup.  A miss descends in
    /// the fixed order — fast tier, sideload, disk, skipping absent tiers
    /// — and after the last tier the lookup ends not-found.
    pub fn lookup_next(
        &mut self,
        probed: Option<DurableTier>,
        outcome: Option<Vec<u8>>,
        key: &str,
    ) -> (step: LookupStep)
        ensures
            final(self).sideload == old(self).sideload,
            final(self).disk == old(self).disk,
            match outcome {
                Some(d) => {
                    &&& step matches LookupStep::Serve(v) && v@ == d@
                    &&& probed is None ==> final(self).memory == old(self).memory
                    &&& probed is Some ==> {
                        &&& old(self).memory is None ==> final(self).memory is None
                        &&& old(self).memory matches Some(m) ==> (final(self).memory matches Some(
                            m2,
                        ) && lru_limit(m2) == lru_limit(m) && promoted(
                            lru_contents(m),
                            lru_contents(m2),
                            lru_limit(m),
                            key@,
                            d@,
                        ))
                    }
                },
                None => final(self).memory == old(self).memory && step == (match probed {
                    None => if old(self).sideload is Some {
                        LookupStep::Probe(DurableTier::Sideload)
                    } else if old(self).disk is Some {
                        LookupStep::Probe(DurableTier::Disk)
                    } else {
                        LookupStep::Miss
                    },
                    Some(DurableTier::Sideload) => if old(self).disk is Some {
                        LookupStep::Probe(DurableTier::Disk)
                    } else {
                        LookupStep::Miss
                    },
                    Some(DurableTier::Disk) => LookupStep::Miss,
                }),
            },
    {
        match outcome {
            Some(data) => {
                if probed.is_some() {
                    let copy: Vec<u8> = slice_to_vec(data.as_slice());
                    self.promote(key, copy);
                }
                LookupStep::Serve(data)
            },
            None => match probed {
                None => if self.sideload.is_some() {
                    LookupStep::Probe(DurableTier::Sideload)
                } else if self.disk.is_some() {
                    LookupStep::Probe(DurableTier::Disk)
                } else {
                    LookupStep::Miss
                },
                Some(DurableTier::Sideload) => if self.disk.is_some() {
                    LookupStep::Probe(DurableTier::Disk)
                } else {
                    LookupStep::Miss
                },
                Some(DurableTier::Disk) => LookupStep::Miss,
            },
        }
    }
}

/// Hit promotion pays off: once a value stands in the fast tier under its
/// key, the next lookup of that key is served by the fast tier, so the get
/// never reaches the durable tiers again while the entry stays.
pub proof fn lemma_promotion_serves_next_lookup(
    m: Map<Seq<char>, Seq<u8>>,
    k: Seq<char>,
    d: Seq<u8>,
)
    requires
        m.contains_pair(k, d),
    ensures
        tier_lookup(m, k) == Some(d),
{
}

} // verus!
