//! The durable write path of the read-write store.
//!
//! A `put` runs as a fixed pipeline.  Every decision of that pipeline is
//! made here, verified; the driver around the library performs the I/O each
//! decision calls for and reports what happened:
//!
//! 1. [`FsCache::put_begin`] validates the key and rejects an empty
//!    payload, before anything may touch the filesystem.
//! 2. [`put_dir_check`] decides whether the store directory must be created
//!    or refuses a read-only directory.
//! 3. [`tmp_guard`] refuses a stale temp file that is a symbolic link (a
//!    symlink-attack guard) or not writable.
//! 4. [`FsCache::put_admit`] decides capacity admission and consumes a
//!    token when one is owed.
//! 5. [`space_check`] compares the free space against the payload plus a
//!    fixed margin.
//! 6. The driver then runs up to [`WRITE_ATTEMPTS`] write attempts (write
//!    to `<key>.tmp` under an exclusive lock, sync, re-read and verify with
//!    [`verify_payload`], atomically rename).  After a failed attempt,
//!    [`WriteLoop::on_failure`] classifies the fault and decides between
//!    retrying and giving up.
//! 7. [`FsCache::put_commit`] records a completed write;
//!    [`FsCache::put_abort`] returns the admission token on every failing
//!    path.

use vstd::prelude::*;
use vstd::string::StringSliceAdditionalSpecFns;
use crate::error::CacheableError;
use crate::fs::{FsCache, ReadWrite, valid_key};

verus! {

/// Number of attempts the write loop makes before giving up.
pub const WRITE_ATTEMPTS: u8 = 3;

/// Fixed delay between two write attempts, in milliseconds.
pub const RETRY_DELAY_MS: u64 = 100;

/// Free space demanded beyond the payload itself, in bytes.
pub const SPACE_MARGIN: u64 = 4096;

/// Base delay of the directory-sync backoff, in milliseconds.
pub const DIR_SYNC_BASE_MS: u64 = 100;

/// How often a failed directory-metadata sync is retried.
pub const DIR_SYNC_RETRIES: u8 = 3;

/// What the driver found the store directory to be before a write.
#[derive(Debug, Clone, Copy, PartialEq, Eq, Structural)]
pub enum DirState {
    /// The directory does not exist yet
    Missing,
    /// The directory exists and is writable
    Writable,
    /// The directory exists but its permissions are read-only
    ReadOnly,
}

/// What the driver found at the key's `.tmp` path before a write.
#[derive(Debug, Clone, Copy, PartialEq, Eq, Structural)]
pub struct TmpProbe {
    /// A stale temp file exists at the path
    pub exists: bool,
    /// The stale temp file is a symbolic link
    pub is_symlink: bool,
    /// The stale temp file's permissions are read-only
    pub readonly: bool,
}

/// How one write attempt failed, as the driver classified the fault.
#[derive(Debug, Clone, Copy, PartialEq, Eq, Structural)]
pub enum AttemptError {
    /// The filesystem refused the operation's permissions
    PermissionDenied,
    /// A path the attempt needs disappeared
    NotFound,
    /// The filesystem rejected the operation's input
    InvalidInput,
    /// A path the attempt creates already exists
    AlreadyExists,
    /// The exclusive lock on the temp file could not be taken
    LockFailed,
    /// The re-read temp file did not match the payload
    IntegrityMismatch,
    /// The process ran against its open-file limit
    TooManyOpenFiles,
    /// The bounded wait for the blocking attempt ran out
    TimedOut,
    /// Any other I/O failure
    Other,
}

/// Permanent faults abort the write immediately; everything else is
/// transient and worth retrying.
pub open spec fn is_permanent(e: AttemptError) -> bool {
    match e {
        AttemptError::PermissionDenied => true,
        AttemptError::NotFound => true,
        AttemptError::InvalidInput => true,
        AttemptError::AlreadyExists => true,
        _ => false,
    }
}

/// The caller-visible error each attempt fault maps to.
pub open spec fn attempt_error_code(e: AttemptError) -> CacheableError {
    match e {
        AttemptError::PermissionDenied => CacheableError::PermissionDenied,
        AttemptError::NotFound => CacheableError::NotFoundOnDisk,
        AttemptError::InvalidInput => CacheableError::InvalidInput,
        AttemptError::AlreadyExists => CacheableError::Io,
        AttemptError::LockFailed => CacheableError::LockContention,
        AttemptError::IntegrityMismatch => CacheableError::IntegrityFailure,
        AttemptError::TooManyOpenFiles => CacheableError::Io,
        AttemptError::TimedOut => CacheableError::Timeout,
        AttemptError::Other => CacheableError::Io,
    }
}

/// Maps an attempt fault to the error the caller sees.
pub fn attempt_error(e: AttemptError) -> (r: CacheableError)
    ensures
        r == attempt_error_code(e),
{
    match e {
        AttemptError::PermissionDenied => CacheableError::PermissionDenied,
        AttemptError::NotFound => CacheableError::NotFoundOnDisk,
        AttemptError::InvalidInput => CacheableError::InvalidInput,
        AttemptError::AlreadyExists => CacheableError::Io,
        AttemptError::LockFailed => CacheableError::LockContention,
        AttemptError::IntegrityMismatch => CacheableError::IntegrityFailure,
        AttemptError::TooManyOpenFiles => CacheableError::Io,
        AttemptError::TimedOut => CacheableError::Timeout,
        AttemptError::Other => CacheableError::Io,
    }
}

/// Decides the store directory's fate before a write: create it when it is
/// missing (`Ok(true)`), use it as is (`Ok(false)`), or refuse a read-only
/// directory with a permission error.
pub fn put_dir_check(dir: DirState) -> (r: Result<bool, CacheableError>)
    ensures
        dir == DirState::Missing ==> r == Ok::<bool, CacheableError>(true),
        dir == DirState::Writable ==> r == Ok::<bool, CacheableError>(false),
        dir == DirState::ReadOnly ==> r == Err::<bool, CacheableError>(
            CacheableError::PermissionDenied,
        ),
{
    match dir {
        DirState::Missing => Ok(true),
        DirState::Writable => Ok(false),
        DirState::ReadOnly => Err(CacheableError::PermissionDenied),
    }
}

/// Refuses a stale temp file that is a symbolic link — the write must fail
/// immediately rather than follow it — or that cannot be replaced.
pub fn tmp_guard(probe: TmpProbe) -> (r: Result<(), CacheableError>)
    ensures
        probe.exists && probe.is_symlink ==> r == Err::<(), CacheableError>(
            CacheableError::InvalidInput,
        ),
        probe.exists && !probe.is_symlink && probe.readonly ==> r == Err::<(), CacheableError>(
            CacheableError::PermissionDenied,
        ),
        !probe.exists || (!probe.is_symlink && !probe.readonly) ==> r == Ok::<(), CacheableError>(
            (),
        ),
{
    if probe.exists {
        if probe.is_symlink {
            return Err(CacheableError::InvalidInput);
        }
        if probe.readonly {
            return Err(CacheableError::PermissionDenied);
        }
    }
    Ok(())
}

/// Compares the filesystem's free bytes against the payload plus the fixed
/// margin; falling short is a capacity error.
pub fn space_check(payload_len: usize, free_bytes: u64) -> (r: Result<(), CacheableError>)
    ensures
        r is Ok <==> free_bytes >= payload_len as int + SPACE_MARGIN as int,
        r is Err ==> r == Err::<(), CacheableError>(CacheableError::StorageFull),
{
    if free_bytes >= SPACE_MARGIN && free_bytes - SPACE_MARGIN >= payload_len as u64 {
        Ok(())
    } else {
        Err(CacheableError::StorageFull)
    }
}

/// Whether a failed open of the temp file is retried once immediately:
/// only on the transient "too many open files" condition, and only if that
/// quick retry has not happened yet.
pub fn retry_open_once(already_retried: bool, e: AttemptError) -> (r: bool)
    ensures
        r <==> (e == AttemptError::TooManyOpenFiles && !already_retried),
{
    matches!(e, AttemptError::TooManyOpenFiles) && !already_retried
}

/// Compares the re-read temp file against the payload byte for byte; any
/// difference is an integrity failure of the attempt.
pub fn verify_payload(expected: &[u8], readback: &[u8]) -> (r: bool)
    ensures
        r <==> expected@ == readback@,
{
    if expected.len() != readback.len() {
        return false;
    }
    let mut i: usize = 0;
    while i < expected.len()
        invariant
            0 <= i <= expected@.len(),
            expected@.len() == readback@.len(),
            forall|j: int| 0 <= j < i ==> expected@[j] == readback@[j],
        decreases expected@.len() - i,
    {
        if expected[i] != readback[i] {
            return false;
        }
        i = i + 1;
    }
    proof {
        assert(expected@ =~= readback@);
    }
    true
}

/// The delay before directory-sync retry `attempt`, in milliseconds:
/// exponential backoff with a jitter of up to a quarter of the base delay
/// in either direction, computed from a random value the driver supplies.
pub fn dir_sync_backoff(attempt: u8, jitter: u64) -> (d: u64)
    requires
        attempt < DIR_SYNC_RETRIES,
    ensures
        ({
            let base = DIR_SYNC_BASE_MS as int * (if attempt == 0 {
                1int
            } else if attempt == 1 {
                2int
            } else {
                4int
            });
            base - base / 4 <= d <= base + base / 4
        }),
{
    let base: u64 = if attempt == 0 {
        DIR_SYNC_BASE_MS
    } else if attempt == 1 {
        2 * DIR_SYNC_BASE_MS
    } else {
        4 * DIR_SYNC_BASE_MS
    };
    let quarter: u64 = base / 4;
    let spread: u64 = jitter % (2 * quarter + 1);
    base - quarter + spread
}

/// A capacity token in hand: evidence that admission ran for this write.
///
/// The store hands one out per admitted write; the driver must spend it on
/// exactly one of [`FsCache::put_commit`] (the token, if any, stays
/// assigned to the key) or [`FsCache::put_abort`] (the token returns to
/// the pool).
pub struct AdmissionPermit {
    took_token: bool,
}

impl AdmissionPermit {
    /// Whether this write consumed a token from the pool.
    pub closed spec fn spec_took(self) -> bool {
        self.took_token
    }

    /// Whether this write consumed a token from the pool.
    pub fn took_token(&self) -> (b: bool)
        ensures
            b == self.spec_took(),
    {
        self.took_token
    }
}

/// The bounded retry state of the write loop.
///
/// The loop starts with [`WRITE_ATTEMPTS`] attempts; each failure consumes
/// one.  A permanent fault gives up at once, a transient fault retries
/// while attempts remain, and exhaustion gives up with the last fault.
pub struct WriteLoop {
    /// Attempts not yet consumed
    pub remaining: u8,
}

/// What the driver must do after a failed write attempt.
#[derive(Debug, Clone, Copy, PartialEq, Eq, Structural)]
pub enum WriteDecision {
    /// Sleep the fixed delay, then run the next attempt with a fresh temp file
    Retry,
    /// Clean up and return this error
    GiveUp(CacheableError),
}

impl WriteLoop {
    /// A fresh write loop with the full attempt budget.
    pub fn new() -> (s: WriteLoop)
        ensures
            s.remaining == WRITE_ATTEMPTS,
    {
        WriteLoop { remaining: WRITE_ATTEMPTS }
    }

    /// Classifies a failed attempt and decides its fate: permanent faults
    /// are never retried, transient faults are retried until the attempt
    /// budget is spent, and the last observed fault is what the caller
    /// sees.
    pub fn on_failure(&mut self, e: AttemptError) -> (d: WriteDecision)
        requires
            old(self).remaining >= 1,
        ensures
            final(self).remaining == old(self).remaining - 1,
            is_permanent(e) ==> d == WriteDecision::GiveUp(attempt_error_code(e)),
            !is_permanent(e) && old(self).remaining > 1 ==> d == WriteDecision::Retry,
            !is_permanent(e) && old(self).remaining == 1 ==> d == WriteDecision::GiveUp(
                attempt_error_code(e),
            ),
    {
        self.remaining = self.remaining - 1;
        let permanent = match e {
            AttemptError::PermissionDenied => true,
            AttemptError::NotFound => true,
            AttemptError::InvalidInput => true,
            AttemptError::AlreadyExists => true,
            _ => false,
        };
        if permanent || self.remaining == 0 {
            WriteDecision::GiveUp(attempt_error(e))
        } else {
            WriteDecision::Retry
        }
    }
}

impl FsCache<ReadWrite> {
    /// Admission would let this write proceed: a token is owed only for a
    /// new key under a positive limit, and one is free.
    pub open spec fn admit_ok(self, key_live: bool) -> bool {
        !(self.kind.limit > 0 && !key_live && self.kind.used == self.kind.limit)
    }

    /// Capacity is admission control, not eviction: with a positive limit
    /// whose tokens are all consumed, admission refuses every new key and
    /// still admits an overwrite of a key whose live file exists.
    pub proof fn lemma_admission_at_capacity(self)
        requires
            self.wf(),
            self.kind.limit > 0,
            self.kind.used == self.kind.limit,
        ensures
            !self.admit_ok(false),
            self.admit_ok(true),
    {
    }

    /// Opens a write: validates the key and rejects an empty payload.
    ///
    /// Pure — this runs before the driver may create any lock, temp file
    /// or directory, so a rejected write leaves nothing behind.
    pub fn put_begin(&self, key: &str, data: &[u8]) -> (r: Result<(), CacheableError>)
        ensures
            r is Ok <==> (valid_key(key) && data@.len() > 0),
            !valid_key(key) ==> r == Err::<(), CacheableError>(
                if key.spec_bytes().len() == 0 {
                    CacheableError::EmptyKey
                } else {
                    CacheableError::InvalidKey
                },
            ),
            valid_key(key) && data@.len() == 0 ==> r == Err::<(), CacheableError>(
                CacheableError::EmptyBuffer,
            ),
    {
        crate::fs::validate_key(key)?;
        if data.len() == 0 {
            return Err(CacheableError::EmptyBuffer);
        }
        Ok(())
    }

    /// Decides capacity admission for a write whose per-key lock the
    /// driver already holds.
    ///
    /// `key_live` reports whether a live file for this key exists: a token
    /// is required only if none does and a limit is set.  When the pool is
    /// empty the write fails with a capacity error and nothing changes;
    /// otherwise the permit records whether a token was consumed.
    pub fn put_admit(&mut self, key_live: bool) -> (r: Result<AdmissionPermit, CacheableError>)
        requires
            old(self).wf(),
        ensures
            final(self).path == old(self).path,
            final(self).kind.limit == old(self).kind.limit,
            final(self).kind.stored == old(self).kind.stored,
            final(self).wf(),
            !old(self).admit_ok(key_live) ==> (r == Err::<AdmissionPermit, CacheableError>(
                CacheableError::StorageFull,
            ) && final(self).kind.used == old(self).kind.used),
            old(self).admit_ok(key_live) ==> ({
                let need = old(self).kind.limit > 0 && !key_live;
                (r matches Ok(p) && p.spec_took() == need) && final(self).kind.used == old(
                    self,
                ).kind.used + (
                if need {
                    1int
                } else {
                    0int
                })
            }),
    {
        let need = self.kind.limit > 0 && !key_live;
        if !need {
            return Ok(AdmissionPermit { took_token: false });
        }
        if self.kind.used == self.kind.limit {
            return Err(CacheableError::StorageFull);
        }
        self.kind.used = self.kind.used + 1;
        Ok(AdmissionPermit { took_token: true })
    }

    /// Records a write whose rename has landed: the key now holds exactly
    /// this payload.  The permit is spent; its token, if any, stays
    /// assigned to the key for the lifetime of its file.
    pub fn put_commit(&mut self, key: &str, data: &[u8], permit: AdmissionPermit)
        requires
            old(self).wf(),
        ensures
            final(self).path == old(self).path,
            final(self).kind.limit == old(self).kind.limit,
            final(self).kind.used == old(self).kind.used,
            final(self).kind.stored@ == old(self).kind.stored@.insert(key@, data@),
            final(self).wf(),
    {
        let ghost updated = self.kind.stored@.insert(key@, data@);
        self.kind.stored = Ghost(updated);
    }

    /// Returns the permit of a write that did not produce a new live
    /// file: its token, if one was consumed, goes back to the pool.
    /// Called on every failing exit path after admission.
    pub fn put_abort(&mut self, permit: AdmissionPermit)
        requires
            old(self).wf(),
            permit.spec_took() ==> old(self).kind.used >= 1,
        ensures
            final(self).path == old(self).path,
            final(self).kind.limit == old(self).kind.limit,
            final(self).kind.stored == old(self).kind.stored,
            final(self).kind.used == old(self).kind.used - (if permit.spec_took() {
                1int
            } else {
                0int
            }),
            final(self).wf(),
    {
        if permit.took_token {
            self.kind.used = self.kind.used - 1;
        }
    }
}

} // verus!
