//! Numbers for layers.

use vstd::prelude::*;

verus! {

/// A source of numbers: each number once, in order.
#[derive(Debug)]
pub struct LayerIds {
    pub next: usize,
}

impl LayerIds {
    pub fn new() -> (r: LayerIds)
        ensures
            r.next == 0,
    {
        LayerIds { next: 0 }
    }

    /// The next number.
    pub fn take(&mut self) -> (r: usize)
        requires
            old(self).next < usize::MAX,
        ensures
            r == old(self).next,
            final(self).next == old(self).next + 1,
    {
        let id = self.next;
        self.next = id + 1;
        id
    }
}

} // verus!
