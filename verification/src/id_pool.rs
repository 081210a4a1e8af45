//! Pools of free handler ids, kept in a `HashSet`.

use crate::status::StatusCode;
use std::collections::HashSet;
use vstd::prelude::*;

verus! {

broadcast use vstd::std_specs::hash::group_hash_axioms;

/// Picks some id out of a pool, or `None` when the pool is empty.  Which id comes out
/// depends on the set's iteration order.
pub fn pick_id(pool: &HashSet<usize>) -> (r: Option<usize>)
    ensures
        match r {
            Some(id) => pool@.contains(id),
            None => pool@.is_empty(),
        },
{
    proof {
        vstd::std_specs::hash::axiom_spec_hash_keys_iter(pool);
    }
    for id in it: pool.iter()
        invariant
            it.index() == 0,
            it.seq().unref().to_set() == pool@,
        ensures
            pool@.is_empty(),
    {
        proof {
            assert(it.seq().unref().to_set().contains(*id));
        }
        return Some(*id);
    }
    None
}

/// Takes some id out of a pool; `RESOURCE_EXHAUSTED` when the pool is empty.
pub fn take_available_id(pool: &mut HashSet<usize>) -> (r: Result<usize, StatusCode>)
    ensures
        match r {
            Ok(id) => old(pool)@.contains(id) && final(pool)@ == old(pool)@.remove(id),
            Err(code) => code == StatusCode::RESOURCE_EXHAUSTED && old(pool)@.is_empty()
                && final(pool)@ == old(pool)@,
        },
{
    match pick_id(pool) {
        Some(id) => {
            pool.remove(&id);
            Ok(id)
        },
        None => Err(StatusCode::RESOURCE_EXHAUSTED),
    }
}

/// Puts an id back into a pool.
pub fn return_id(pool: &mut HashSet<usize>, id: usize) -> (r: Result<(), StatusCode>)
    ensures
        r is Ok,
        final(pool)@ == old(pool)@.insert(id),
{
    pool.insert(id);
    Ok(())
}

/// A pool holding the ids `0 .. n`.
pub fn full_pool(n: usize) -> (pool: HashSet<usize>)
    ensures
        pool@ == Set::new(|id: usize| id < n),
{
    let mut pool: HashSet<usize> = HashSet::new();
    let mut i: usize = 0;
    while i < n
        invariant
            i <= n,
            pool@ == Set::new(|id: usize| id < i),
        decreases n - i,
    {
        pool.insert(i);
        i = i + 1;
        assert(pool@ =~= Set::new(|id: usize| id < i));
    }
    pool
}

} // verus!
