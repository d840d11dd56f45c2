//! Startup recovery for the read-write store.
//!
//! When a read-write store opens over an existing directory, leftovers of
//! interrupted operations may still be present: `*.tmp` files are always
//! the residue of an incomplete write and are removed unconditionally,
//! while `*.lock` files are removed only once they are old enough that no
//! in-flight operation can still own them.  The driver scans the directory
//! and deletes exactly what the plan computed here names.

use vstd::prelude::*;
use vstd::string::*;
use crate::fs::string_bytes;

verus! {

/// A lock file older than this many seconds cannot belong to an in-flight
/// operation and is removed at startup.
pub const STALE_LOCK_SECS: u64 = 300;

/// One directory entry as the driver scanned it: its name and the seconds
/// elapsed since its last modification.
pub struct DirEntry {
    /// The entry's file name
    pub name: String,
    /// Seconds since the entry was last modified
    pub age_secs: u64,
}

/// The name ends in `.tmp`.
pub open spec fn is_tmp_name(b: Seq<u8>) -> bool {
    &&& b.len() >= 4
    &&& b[b.len() - 4] == 46u8  // '.'
    &&& b[b.len() - 3] == 116u8  // 't'
    &&& b[b.len() - 2] == 109u8  // 'm'
    &&& b[b.len() - 1] == 112u8  // 'p'
}

/// The name ends in `.lock`.
pub open spec fn is_lock_name(b: Seq<u8>) -> bool {
    &&& b.len() >= 5
    &&& b[b.len() - 5] == 46u8  // '.'
    &&& b[b.len() - 4] == 108u8  // 'l'
    &&& b[b.len() - 3] == 111u8  // 'o'
    &&& b[b.len() - 2] == 99u8  // 'c'
    &&& b[b.len() - 1] == 107u8  // 'k'
}

/// The entry is a transient artifact of a write, not live data.
pub open spec fn is_artifact_name(b: Seq<u8>) -> bool {
    is_tmp_name(b) || is_lock_name(b)
}

/// Recovery removes an entry when it is a temp file, or a lock file stale
/// enough that no in-flight operation can still own it.
pub open spec fn should_remove(name: Seq<u8>, age_secs: u64) -> bool {
    is_tmp_name(name) || (is_lock_name(name) && age_secs > STALE_LOCK_SECS)
}

/// Whether the name's UTF-8 bytes end in `.tmp`.
pub fn name_is_tmp(name: &str) -> (r: bool)
    ensures
        r == is_tmp_name(name.spec_bytes()),
{
    let b: &[u8] = name.as_bytes();
    let n = b.len();
    n >= 4 && b[n - 4] == 46 && b[n - 3] == 116 && b[n - 2] == 109 && b[n - 1] == 112
}

/// Whether the name's UTF-8 bytes end in `.lock`.
pub fn name_is_lock(name: &str) -> (r: bool)
    ensures
        r == is_lock_name(name.spec_bytes()),
{
    let b: &[u8] = name.as_bytes();
    let n = b.len();
    n >= 5 && b[n - 5] == 46 && b[n - 4] == 108 && b[n - 3] == 111 && b[n - 2] == 99 && b[n - 1]
        == 107
}

/// Decides whether startup recovery removes this entry.
///
/// A `.tmp` file goes unconditionally; a `.lock` file goes only when it is
/// older than [`STALE_LOCK_SECS`] — a fresher lock may belong to an
/// in-flight operation and must be left alone.
pub fn recovery_removes(entry: &DirEntry) -> (r: bool)
    ensures
        r == should_remove(string_bytes(entry.name), entry.age_secs),
{
    if name_is_tmp(entry.name.as_str()) {
        true
    } else {
        name_is_lock(entry.name.as_str()) && entry.age_secs > STALE_LOCK_SECS
    }
}

/// The indices of the scanned entries that startup recovery removes.
///
/// Exactly the entries [`should_remove`] names are listed, in scan order.
pub fn recovery_plan(entries: &Vec<DirEntry>) -> (r: Vec<usize>)
    ensures
        forall|j: int| #![auto]
            0 <= j < r@.len() ==> r@[j] < entries@.len() && should_remove(
                string_bytes(entries@[r@[j] as int].name),
                entries@[r@[j] as int].age_secs,
            ),
        forall|i: int| #![auto]
            0 <= i < entries@.len() && should_remove(
                string_bytes(entries@[i].name),
                entries@[i].age_secs,
            ) ==> r@.contains(i as usize),
        forall|j: int, k: int| 0 <= j < k < r@.len() ==> r@[j] < r@[k],
{
    let mut r: Vec<usize> = Vec::new();
    let mut i: usize = 0;
    while i < entries.len()
        invariant
            0 <= i <= entries@.len(),
            forall|j: int| #![auto]
                0 <= j < r@.len() ==> r@[j] < i && should_remove(
                    string_bytes(entries@[r@[j] as int].name),
                    entries@[r@[j] as int].age_secs,
                ),
            forall|k: int| #![auto]
                0 <= k < i && should_remove(
                    string_bytes(entries@[k].name),
                    entries@[k].age_secs,
                ) ==> r@.contains(k as usize),
            forall|j: int, k: int| 0 <= j < k < r@.len() ==> r@[j] < r@[k],
        decreases entries@.len() - i,
    {
        let ghost r_prev = r@;
        if recovery_removes(&entries[i]) {
            r.push(i);
        }
        proof {
            assert forall|k: int|
                0 <= k < i + 1 && should_remove(
                    string_bytes(entries@[k].name),
                    entries@[k].age_secs,
                ) implies r@.contains(k as usize) by {
                if k < i {
                    let j = choose|j: int| 0 <= j < r_prev.len() && r_prev[j] == k as usize;
                    assert(r@[j] == k as usize);
                } else {
                    assert(r@[r@.len() - 1] == i);
                }
            }
        }
        i = i + 1;
    }
    r
}

/// How many scanned entries are live data: neither `.tmp` nor `.lock`
/// artifacts.  Counts the first `n` entries of the sequence.
pub open spec fn live_count(s: Seq<DirEntry>, n: int) -> int
    decreases n,
{
    if n <= 0 {
        0
    } else {
        live_count(s, n - 1) + if is_artifact_name(string_bytes(s[n - 1].name)) {
            0int
        } else {
            1int
        }
    }
}

/// Counts the live entries of a scan: those that are neither temp files
/// nor lock files.  This is the count the admission pool is seeded with.
pub fn live_entry_count(entries: &Vec<DirEntry>) -> (n: usize)
    ensures
        n == live_count(entries@, entries@.len() as int),
{
    let mut n: usize = 0;
    let mut i: usize = 0;
    while i < entries.len()
        invariant
            0 <= i <= entries@.len(),
            n == live_count(entries@, i as int),
            n <= i,
        decreases entries@.len() - i,
    {
        if !name_is_tmp(entries[i].name.as_str()) && !name_is_lock(entries[i].name.as_str()) {
            n = n + 1;
        }
        i = i + 1;
    }
    n
}

} // verus!
