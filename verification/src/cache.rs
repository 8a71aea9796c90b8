//! The compiled-kernel cache.
//!
//! A compute backend compiles its convolution program once per process
//! and reuses it afterwards.  This module holds the decision state for
//! that protocol: which program identifiers have been compiled and
//! loaded so far.  The caller that owns the device performs the actual
//! compilation exactly when `needs_compile` says so, then records it
//! with `mark_loaded`; concurrent callers are expected to serialize
//! access to one cache with a single lock.

use vstd::prelude::*;

verus! {

/// The set of program identifiers whose compiled form is loaded.
pub struct KernelCache {
    loaded: Vec<u64>,
}

impl KernelCache {
    /// The identifiers recorded as loaded, in recording order.
    pub closed spec fn view(&self) -> Seq<u64> {
        self.loaded@
    }

    /// An empty cache: nothing compiled yet.
    pub fn new() -> (c: KernelCache)
        ensures
            c@ == Seq::<u64>::empty(),
    {
        KernelCache { loaded: Vec::new() }
    }

    /// Whether the program must still be compiled: true exactly when
    /// its identifier has not been recorded as loaded.
    pub fn needs_compile(&self, id: u64) -> (r: bool)
        ensures
            r == !self@.contains(id),
    {
        let mut i: usize = 0;
        while i < self.loaded.len()
            invariant
                i <= self.loaded.len(),
                forall|j: int| 0 <= j < i ==> self.loaded@[j] != id,
            decreases self.loaded.len() - i,
        {
            if self.loaded[i] == id {
                proof {
                    assert(self@.contains(id));
                }
                return false;
            }
            i = i + 1;
        }
        true
    }

    /// Record a program as compiled and loaded.  Recording an
    /// identifier twice leaves the cache unchanged.
    pub fn mark_loaded(&mut self, id: u64)
        ensures
            final(self)@ == if old(self)@.contains(id) {
                old(self)@
            } else {
                old(self)@.push(id)
            },
            final(self)@.contains(id),
    {
        if self.needs_compile(id) {
            self.loaded.push(id);
            proof {
                assert(self@.contains(id)) by {
                    assert(self@[self@.len() - 1] == id);
                }
            }
        }
    }
}

} // verus!
