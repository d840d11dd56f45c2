use std::num::NonZeroUsize;

use omnecache::error::CacheableError;
use omnecache::fs::{FsCache, PathProbe, Read, ReadWrite};
use omnecache::{DurableTier, LookupStep, OmneCache};

fn memory_only(cap: usize) -> OmneCache {
    OmneCache {
        memory: Some(lru::LruCache::new(NonZeroUsize::new(cap).unwrap())),
        sideload: None,
        disk: None,
    }
}

#[test]
fn test_key_collision() {
    let mut cache = memory_only(100);

    let key1 = OmneCache::build_key("CustomString", "key1");
    let key2 = OmneCache::build_key("CustomString", "key2");
    assert_eq!(key1, "CustomString_key1");
    assert_eq!(key2, "CustomString_key2");

    assert!(cache.get_memory(&key1).is_none());

    cache.put_through(&key1, "hello world!".as_bytes()).unwrap();
    assert_eq!(cache.memory.as_ref().unwrap().len(), 1);

    assert!(cache.get_memory(&key2).is_none());
    cache.put_through(&key2, "hello world 2!".as_bytes()).unwrap();

    let something = cache.get_memory(&key1).unwrap();
    let something_else = cache.get_memory(&key2).unwrap();

    assert_eq!(something, b"hello world!".to_vec());
    assert_eq!(something_else, b"hello world 2!".to_vec());
}

#[test]
fn test_insert_duplicate_key() {
    let mut cache = memory_only(100);

    let key = OmneCache::build_key("CustomString", "key");

    assert!(cache.get_memory(&key).is_none());
    cache.put_through(&key, b"hello world!").unwrap();
    assert_eq!(cache.memory.as_ref().unwrap().len(), 1);

    let _ = cache.get_memory(&key);

    cache.put_through(&key, b"hello world 2!").unwrap();
    assert_eq!(cache.memory.as_ref().unwrap().len(), 1);

    assert_eq!(cache.get_memory(&key).unwrap(), b"hello world 2!".to_vec());
}

// Round trip: a store followed by a lookup of the same key returns exactly
// the stored payload.
#[test]
fn round_trip_through_fast_tier() {
    let mut cache = memory_only(10);
    cache.put_through("key1", b"payload").unwrap();
    assert_eq!(cache.get_memory("key1").unwrap(), b"payload".to_vec());
}

// A value found in a durable tier is promoted into the fast tier on the
// same get: the next lookup of that key stops at the fast tier, so the
// durable tiers see no further I/O for it.
#[test]
fn durable_hit_promoted_into_fast_tier() {
    let mut cache = memory_only(10);
    assert!(cache.get_memory("key1").is_none());
    // The driver probed the durable tier and got a hit; it promotes.
    cache.promote("key1", b"from disk".to_vec());
    // The follow-up get is served by the fast tier.
    assert_eq!(cache.get_memory("key1").unwrap(), b"from disk".to_vec());
}

// The lookup descends the tiers in the fixed order, skipping none that
// exists, and ends not-found only after the last tier missed.
#[test]
fn lookup_descends_in_fixed_order() {
    let good = PathProbe { exists: true, locked: true, readonly: true };
    let sideload = FsCache::<Read>::new_read("sideload".to_string(), good).unwrap();
    let disk = FsCache::<ReadWrite>::new_write("cache".to_string(), 10, 0);
    let mut cache = OmneCache {
        memory: Some(lru::LruCache::new(NonZeroUsize::new(10).unwrap())),
        sideload: Some(sideload),
        disk: Some(disk),
    };

    let step = cache.lookup_next(None, None, "key1");
    assert_eq!(step, LookupStep::Probe(DurableTier::Sideload));
    let step = cache.lookup_next(Some(DurableTier::Sideload), None, "key1");
    assert_eq!(step, LookupStep::Probe(DurableTier::Disk));
    let step = cache.lookup_next(Some(DurableTier::Disk), None, "key1");
    assert_eq!(step, LookupStep::Miss);
}

// Absent tiers are skipped in the descent.
#[test]
fn lookup_skips_missing_tiers() {
    let mut memory_alone = memory_only(10);
    assert_eq!(memory_alone.lookup_next(None, None, "key1"), LookupStep::Miss);

    let disk = FsCache::<ReadWrite>::new_write("cache".to_string(), 10, 0);
    let mut no_sideload = OmneCache {
        memory: None,
        sideload: None,
        disk: Some(disk),
    };
    assert_eq!(
        no_sideload.lookup_next(None, None, "key1"),
        LookupStep::Probe(DurableTier::Disk)
    );
    assert_eq!(
        no_sideload.lookup_next(Some(DurableTier::Disk), None, "key1"),
        LookupStep::Miss
    );
}

// A hit stops the descent; a durable hit is promoted on the same lookup,
// so the next lookup of the key is served by the fast tier.
#[test]
fn lookup_serves_and_promotes_durable_hit() {
    let mut cache = memory_only(10);
    let step = cache.lookup_next(Some(DurableTier::Disk), Some(b"from disk".to_vec()), "key1");
    assert_eq!(step, LookupStep::Serve(b"from disk".to_vec()));
    assert_eq!(cache.get_memory("key1").unwrap(), b"from disk".to_vec());
    // The second lookup never asks for a durable probe.
    let again = cache.get_memory("key1");
    assert_eq!(cache.lookup_next(None, again, "key1"), LookupStep::Serve(b"from disk".to_vec()));
}

// A memory hit is served as is, with no promotion and no probe.
#[test]
fn lookup_serves_memory_hit_directly() {
    let mut cache = memory_only(10);
    cache.put_through("key1", b"v").unwrap();
    let outcome = cache.get_memory("key1");
    assert_eq!(cache.lookup_next(None, outcome, "key1"), LookupStep::Serve(b"v".to_vec()));
}

#[test]
fn promotion_without_fast_tier_is_a_no_op() {
    let mut cache = OmneCache {
        memory: None,
        sideload: None,
        disk: None,
    };
    cache.promote("key1", b"data".to_vec());
    assert!(cache.get_memory("key1").is_none());
}

#[test]
fn store_without_any_writable_tier_fails() {
    let mut cache = OmneCache {
        memory: None,
        sideload: None,
        disk: None,
    };
    assert!(matches!(
        cache.put_through("key1", b"data"),
        Err(CacheableError::WriteError)
    ));
}

#[test]
fn eviction_keeps_the_newest_entry() {
    let mut cache = memory_only(2);
    cache.put_through("k1", b"a").unwrap();
    cache.put_through("k2", b"b").unwrap();
    cache.put_through("k3", b"c").unwrap();
    // The bound holds and the newest entry is present.
    assert_eq!(cache.memory.as_ref().unwrap().len(), 2);
    assert_eq!(cache.get_memory("k3").unwrap(), b"c".to_vec());
}

#[test]
fn build_key_joins_prefix_and_natural_key() {
    assert_eq!(OmneCache::build_key("Evidence", "chain:a:b"), "Evidence_chain:a:b");
    assert_eq!(OmneCache::build_key("", ""), "_");
}
