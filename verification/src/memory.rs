//! The in-memory fast tier.
//!
//! The fast tier is a bounded key-to-bytes table with move-to-front
//! eviction, supplied by the `lru` crate.  The table itself is external
//! collaborator code: what it holds is named by [`lru_contents`] and
//! [`lru_limit`], and each operation the orchestrator uses goes through a
//! trusted wrapper whose contract states, over those names, what the
//! crate's code does.

use vstd::prelude::*;
use std::num::NonZeroUsize;

verus! {

/// The fast tier's table type, as the `lru` crate supplies it.
pub type MemoryTable = lru::LruCache<String, Vec<u8>>;

#[verifier::external_type_specification]
#[verifier::external_body]
#[verifier::reject_recursive_types(K)]
#[verifier::reject_recursive_types(V)]
#[verifier::reject_recursive_types(S)]
pub struct ExLruCache<K, V, S>(lru::LruCache<K, V, S>);

/// What the table holds: each cached key's payload bytes.
pub uninterp spec fn lru_contents(c: MemoryTable) -> Map<Seq<char>, Seq<u8>>;

/// The contents of a table that holds nothing yet.
pub open spec fn no_contents() -> Map<Seq<char>, Seq<u8>> {
    Map::empty()
}

/// The bound the table was created with.
pub uninterp spec fn lru_limit(c: MemoryTable) -> nat;

/// The table's bookkeeping as the `lru` crate maintains it: finitely many
/// entries, never more than the bound.
pub open spec fn lru_wf(c: MemoryTable) -> bool {
    &&& lru_contents(c).dom().finite()
    &&& lru_contents(c).dom().len() <= lru_limit(c)
}

/// Relies on lru::LruCache::new: creates an empty table that holds at most
/// `cap` pairs.
#[verifier::external_body]
pub fn lru_new(cap: usize) -> (table: MemoryTable)
    requires
        cap >= 1,
    ensures
        lru_contents(table) == no_contents(),
        lru_limit(table) == cap,
{
    lru::LruCache::new(NonZeroUsize::new(cap).unwrap())
}

/// Relies on lru::LruCache::get: returns the value stored under the key
/// and leaves the contents unchanged (only the recency order moves).
#[verifier::external_body]
pub fn lru_get(c: &mut MemoryTable, key: &str) -> (r: Option<Vec<u8>>)
    ensures
        lru_wf(*old(c)),
        lru_wf(*final(c)),
        lru_contents(*final(c)) == lru_contents(*old(c)),
        lru_limit(*final(c)) == lru_limit(*old(c)),
        lru_contents(*old(c)).dom().contains(key@) ==> (r matches Some(v) && v@ == lru_contents(
            *old(c),
        )[key@]),
        !lru_contents(*old(c)).dom().contains(key@) ==> r is None,
{
    c.get(key).cloned()
}

/// Relies on lru::LruCache::put: stores the pair, replacing the key's old
/// value in place; a fresh key arriving with the table full first evicts
/// the least-recently-used entry.
#[verifier::external_body]
pub fn lru_put(c: &mut MemoryTable, key: String, value: Vec<u8>)
    ensures
        lru_wf(*old(c)),
        lru_wf(*final(c)),
        lru_limit(*final(c)) == lru_limit(*old(c)),
        ({
            let m = lru_contents(*old(c));
            let m2 = lru_contents(*final(c));
            if m.dom().contains(key@) || m.dom().len() < lru_limit(*old(c)) {
                m2 == m.insert(key@, value@)
            } else {
                exists|victim: Seq<char>|
                    #![auto]
                    m.dom().contains(victim) && victim != key@ && m2 == m.remove(victim).insert(
                        key@,
                        value@,
                    )
            }
        }),
{
    c.put(key, value);
}

} // verus!
