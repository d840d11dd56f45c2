//! Filesystem cache stores.
//!
//! A [`FsCache`] represents a directory-backed store of byte blobs, one file
//! per validated key.  The marker type parameter fixes the store's
//! capability: [`Read`] for the pre-seeded, read-only sideload tier and
//! [`ReadWrite`] for the durable disk tier with capacity admission.
//!
//! Every decision of the two capabilities is made here and verified: key
//! validation, construction checks, admission accounting and the mapping of
//! each I/O outcome to a caller-visible result.  The blocking I/O itself
//! (opening, advisory locking, reading, creating directories) is carried out
//! by an unverified driver, which probes the filesystem and passes each
//! observation in as a plain value.

use vstd::prelude::*;
use vstd::string::*;
use crate::error::CacheableError;

verus! {

/// Longest accepted key, in bytes.
pub const MAX_KEY_LEN: usize = 255;

/// A key is safe to use as a single filesystem entry name: non-empty, at
/// most [`MAX_KEY_LEN`] bytes, free of path separators and NUL, and not
/// starting with a dot (which also rules out `.` and `..`).
pub open spec fn valid_key_bytes(b: Seq<u8>) -> bool {
    &&& 1 <= b.len() <= 255
    &&& b[0] != 46u8  // '.'
    &&& forall|i: int| 0 <= i < b.len() ==> b[i] != 47u8 && b[i] != 0u8  // '/' and NUL
}

/// A key string is valid when its UTF-8 bytes are.
pub open spec fn valid_key(s: &str) -> bool {
    valid_key_bytes(s.spec_bytes())
}

/// The UTF-8 bytes of an owned string, for specifications.
pub open spec fn string_bytes(s: String) -> Seq<u8> {
    vstd::utf8::encode_utf8(s@)
}

/// Validates that a key is safe to use as a filename.
///
/// Rejects the empty string with its own error; every other failure
/// (overlong, separator, NUL, leading dot) is an invalid-key error.
/// Pure: runs before any store operation may touch the filesystem.
pub fn validate_key(key: &str) -> (r: Result<(), CacheableError>)
    ensures
        r is Ok <==> valid_key(key),
        r is Err ==> r == Err::<(), CacheableError>(
            if key.spec_bytes().len() == 0 {
                CacheableError::EmptyKey
            } else {
                CacheableError::InvalidKey
            },
        ),
{
    let b: &[u8] = key.as_bytes();
    if b.len() == 0 {
        return Err(CacheableError::EmptyKey);
    }
    if b.len() > MAX_KEY_LEN {
        return Err(CacheableError::InvalidKey);
    }
    if b[0] == 46 {
        return Err(CacheableError::InvalidKey);
    }
    let mut i: usize = 0;
    while i < b.len()
        invariant
            0 <= i <= b@.len(),
            b@ == key.spec_bytes(),
            1 <= b@.len() <= 255,
            b@[0] != 46u8,
            forall|j: int| 0 <= j < i ==> b@[j] != 47u8 && b@[j] != 0u8,
        decreases b@.len() - i,
    {
        if b[i] == 47 || b[i] == 0 {
            return Err(CacheableError::InvalidKey);
        }
        i = i + 1;
    }
    Ok(())
}

/// Marker type for read-only filesystem stores.
///
/// Used for the sideload tier, which serves pre-seeded content and never
/// creates or modifies anything under its root.
pub struct Read(());

/// Marker type for read-write filesystem stores with capacity admission.
///
/// Used for the durable disk tier.  Capacity is enforced as admission
/// control: `limit` tokens exist for the store's lifetime, a new key
/// consumes one, and overwriting an existing key consumes none.
/// `limit == 0` means unbounded.
pub struct ReadWrite {
    /// Maximum number of distinct entries; 0 means unbounded
    pub limit: usize,
    /// Admission tokens consumed so far
    pub used: usize,
    /// The entries this store instance has committed: key to payload
    pub stored: Ghost<Map<Seq<char>, Seq<u8>>>,
}

/// A directory-backed cache store whose operations are fixed by the
/// capability marker `T` (either [`Read`] or [`ReadWrite`]).
pub struct FsCache<T> {
    /// Path of the directory holding the cached entries
    pub path: String,
    /// Capability marker carrying any capability-specific state
    pub kind: T,
}

/// What the driver observed about a path before a read-only store is built:
/// whether it exists, whether a shared advisory lock could be taken on it,
/// and whether its permissions are read-only.
#[derive(Debug, Clone, Copy, PartialEq, Eq, Structural)]
pub struct PathProbe {
    /// The path exists
    pub exists: bool,
    /// A shared advisory lock on the path was obtained
    pub locked: bool,
    /// The path's permissions are read-only
    pub readonly: bool,
}

/// The outcome of one driver attempt to read an entry's file in full under
/// a shared lock.
pub enum ReadOutcome {
    /// The file's complete contents
    Success(Vec<u8>),
    /// The file does not exist
    Absent,
    /// The file could not be opened
    OpenFailed,
    /// The shared lock could not be obtained
    LockFailed,
    /// The contents could not be read
    ReadFailed,
    /// The bounded wait for the blocking read ran out
    TimedOut,
}

/// What a finished read maps to: the bytes on success, a miss otherwise.
pub open spec fn read_result(outcome: ReadOutcome) -> Option<Seq<u8>> {
    match outcome {
        ReadOutcome::Success(d) => Some(d@),
        _ => None,
    }
}

/// What a lookup finds in a tier holding the given entries: the payload
/// stored under the key, or a miss.
pub open spec fn tier_lookup(m: Map<Seq<char>, Seq<u8>>, key: Seq<char>) -> Option<Seq<u8>> {
    if m.dom().contains(key) {
        Some(m[key])
    } else {
        None
    }
}

/// Round trip: once a write of payload `d` under key `k` has committed, a
/// lookup of `k` on the resulting entries yields exactly `d`.
pub proof fn lemma_put_get_round_trip(m: Map<Seq<char>, Seq<u8>>, k: Seq<char>, d: Seq<u8>)
    ensures
        tier_lookup(m.insert(k, d), k) == Some(d),
{
}

/// Two writers to one key serialize: each commit stores its payload whole,
/// so in whichever order the two commits land, the entries afterwards hold
/// one of the two payloads in full — never a mix of both.
pub proof fn lemma_writers_serialize(
    m: Map<Seq<char>, Seq<u8>>,
    k: Seq<char>,
    d1: Seq<u8>,
    d2: Seq<u8>,
)
    ensures
        tier_lookup(m.insert(k, d1).insert(k, d2), k) == Some(d2),
        tier_lookup(m.insert(k, d2).insert(k, d1), k) == Some(d1),
        ({
            let after = tier_lookup(m.insert(k, d1).insert(k, d2), k);
            after == Some(d1) || after == Some(d2)
        }),
{
}

impl<T> FsCache<T> {
    /// The full path of the live file for a validated key.
    ///
    /// Returns `None`, without any filesystem involvement, when the key is
    /// invalid: an invalid key is indistinguishable from a miss by design.
    /// The driver must obtain this request before it may read.
    pub fn get_request(&self, key: &str) -> (r: Option<String>)
        ensures
            r is Some <==> valid_key(key),
            r matches Some(p) ==> p@ == self.path@ + "/"@ + key@,
    {
        if validate_key(key).is_err() {
            return None;
        }
        Some(self.path.clone().concat("/").concat(key))
    }

    /// Maps the outcome the driver observed to the caller's result.
    ///
    /// Only a complete read is a hit; absence, open or lock failure, a read
    /// fault and a timeout all collapse to a miss, never to an error.
    pub fn get_conclude(&self, outcome: ReadOutcome) -> (r: Option<Vec<u8>>)
        ensures
            match read_result(outcome) {
                Some(s) => r matches Some(v) && v@ == s,
                None => r is None,
            },
    {
        match outcome {
            ReadOutcome::Success(data) => Some(data),
            _ => None,
        }
    }
}

impl FsCache<Read> {
    /// Builds the read-only sideload store after the driver has probed the
    /// path under a shared lock.
    ///
    /// Fails when the path is missing, when the shared lock could not be
    /// obtained, or when the path's permissions are not read-only; this
    /// capability never creates the directory and never writes.
    pub fn new_read(path: String, probe: PathProbe) -> (r: Result<FsCache<Read>, CacheableError>)
        ensures
            !probe.exists ==> r == Err::<FsCache<Read>, CacheableError>(
                CacheableError::NotFoundOnDisk,
            ),
            probe.exists && !probe.locked ==> r == Err::<FsCache<Read>, CacheableError>(
                CacheableError::LockContention,
            ),
            probe.exists && probe.locked && !probe.readonly ==> r == Err::<
                FsCache<Read>,
                CacheableError,
            >(CacheableError::PermissionDenied),
            probe.exists && probe.locked && probe.readonly ==> (r matches Ok(s) && s.path@
                == path@),
    {
        if !probe.exists {
            return Err(CacheableError::NotFoundOnDisk);
        }
        if !probe.locked {
            return Err(CacheableError::LockContention);
        }
        if !probe.readonly {
            return Err(CacheableError::PermissionDenied);
        }
        Ok(FsCache { path, kind: Read(()) })
    }
}

impl FsCache<ReadWrite> {
    /// The store's bookkeeping is consistent: when a limit is set, no more
    /// tokens are consumed than exist.
    pub open spec fn wf(self) -> bool {
        self.kind.limit > 0 ==> self.kind.used <= self.kind.limit
    }

    /// Builds the read-write disk store over a directory that the driver
    /// has created (if needed) and already run startup recovery on.
    ///
    /// `existing` is the number of live entries that survived recovery;
    /// when a limit is set, `min(existing, limit)` admission tokens are
    /// consumed up front so pre-existing content is accounted for.
    pub fn new_write(path: String, limit: usize, existing: usize) -> (s: FsCache<ReadWrite>)
        ensures
            s.path@ == path@,
            s.kind.limit == limit,
            s.kind.used == if limit > 0 {
                if existing < limit {
                    existing
                } else {
                    limit
                }
            } else {
                0
            },
            s.kind.stored@ == Map::<Seq<char>, Seq<u8>>::empty(),
            s.wf(),
    {
        let used: usize = if limit > 0 {
            if existing < limit {
                existing
            } else {
                limit
            }
        } else {
            0
        };
        FsCache {
            path,
            kind: ReadWrite { limit, used, stored: Ghost(Map::empty()) },
        }
    }
}

} // verus!
