//! The one metric the core needs: a monotonic, process-lifetime counter of
//! output-root mismatches. Exposing it for scraping is the shell's job; the
//! core only increments.

use vstd::prelude::*;

verus! {

/// The root-mismatch counter: increment-only, never reset or decremented.
#[derive(Clone, Copy, Debug, PartialEq, Eq, Structural)]
pub struct MismatchCounter {
    pub count: u64,
}

impl MismatchCounter {
    /// A fresh counter, at zero.
    pub fn new() -> (r: MismatchCounter)
        ensures
            r.count == 0,
    {
        MismatchCounter { count: 0 }
    }

    /// The current reading, for the export hook.
    pub fn reading(&self) -> (r: u64)
        ensures
            r == self.count,
    {
        self.count
    }
}

/// Increments the root mismatch count metric by 1.
pub fn increment_root_mismatch_count(counter: &mut MismatchCounter)
    requires
        old(counter).count < u64::MAX,
    ensures
        final(counter).count == old(counter).count + 1,
{
    counter.count = counter.count + 1;
}

} // verus!
