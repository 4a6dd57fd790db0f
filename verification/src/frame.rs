//! The per-tick frame token.

use vstd::prelude::*;

verus! {

/// A single-use access token for one animation tick.
///
/// Only the `Renderer` issues frames, one per tick, and `Renderer::submit`
/// consumes the token by value, so a frame cannot be submitted twice, and a
/// stale token (one issued for an earlier tick) is rejected by `submit`'s
/// precondition.
pub struct Frame {
    index: u64,
}

impl Frame {
    /// The tick this frame was issued for.
    pub closed spec fn idx(self) -> u64 {
        self.index
    }

    pub(crate) fn issue(index: u64) -> (f: Frame)
        ensures
            f.idx() == index,
    {
        Frame { index }
    }

    /// The tick this frame was issued for.
    pub fn index(&self) -> (r: u64)
        ensures
            r == self.idx(),
    {
        self.index
    }
}

} // verus!
