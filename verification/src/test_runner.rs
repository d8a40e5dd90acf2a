//! Boot-time self checks.
//!
//! The kernel runs a small suite after boot; the checks whose subjects are
//! plain computation live here, proved rather than merely executed. The
//! rest of the suite (trap-provoking checks, floating point) runs outside
//! the verified core.

use vstd::prelude::*;

verus! {

/// Equality self-check.
pub fn eq_assertion() {
    assert(1int == 1int);
}

/// Allocation self-check: a vector filled element by element has exactly
/// the requested length.
pub fn memory_allocation_vectors() {
    let mut v: Vec<u8> = Vec::new();
    let mut i: usize = 0;
    while i < 100
        invariant
            i <= 100,
            v@.len() == i,
        decreases 100 - i,
    {
        v.push(i as u8);
        i = i + 1;
    }
    assert(v@.len() == 100);
}

} // verus!
