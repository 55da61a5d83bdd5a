//! The individual health checks.
//!
//! Each check extracts the primitive data it cares about from the snapshot
//! at construction time, resolving an absent configuration value to the
//! tool's hard-coded default, and evaluates its pass/fail predicate over
//! that stored state alone.

use vstd::prelude::*;

pub mod caches;
pub mod flake_enabled;
pub mod max_jobs;

verus! {

/// Whether a list of configuration strings contains the given entry.
pub(crate) fn list_contains(v: &Vec<String>, needle: &String) -> (b: bool)
    ensures
        b == v.deep_view().contains(needle@),
{
    let mut i: usize = 0;
    while i < v.len()
        invariant
            i <= v.len(),
            forall|j: int| 0 <= j < i ==> v.deep_view()[j] != needle@,
        decreases v.len() - i,
    {
        if needle.eq(&v[i]) {
            assert(v.deep_view()[i as int] == needle@);
            return true;
        }
        i += 1;
    }
    false
}

} // verus!
