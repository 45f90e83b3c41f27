use vstd::prelude::*;

use crate::boot::{last_index_of, without_last, BootView, Phase};

verus! {

/// Obtaining a block from the pool and giving it straight back leaves the
/// outstanding pool memory exactly as it was: nothing leaks.
pub proof fn lemma_allocate_release_restores(v: BootView, address: usize)
    ensures
        v.allocated(address).released(address).pool == v.pool,
{
    let s = v.pool.push(address);
    assert(last_index_of(s, address) == v.pool.len());
    assert(without_last(s, address) =~= v.pool);
}

/// Once the memory map has been read with `key`, and while boot services are
/// available, exiting them may be asked with `key` and with no other key;
/// any allocation or release in between makes `key` stale too; and once
/// they have been exited, no key is accepted again.
pub proof fn lemma_exit_needs_fresh_key(v: BootView, key: usize, other: usize, address: usize)
    requires
        v.phase == Phase::Available,
        other != key,
    ensures
        v.mapped(key).exit_allowed(key),
        !v.mapped(key).exit_allowed(other),
        !v.mapped(key).allocated(address).exit_allowed(key),
        !v.mapped(key).released(address).exit_allowed(key),
        !v.mapped(key).retired().exit_allowed(key),
        !v.mapped(key).retired().exit_allowed(other),
{
}

} // verus!
