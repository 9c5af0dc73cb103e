//! Finished frames on their way from the engine to the user interface.

use vstd::prelude::*;

verus! {

/// CPU-prepared scene.  What a single draw holds is the renderer's own affair.
pub struct BrowserFrame<D> {
    pub revision: u64,
    pub width: u32,
    pub height: u32,
    pub draws: Vec<D>,
}

/// The size, but never zero.
pub open spec fn at_least_one(size: u32) -> u32 {
    if size == 0 {
        1
    } else {
        size
    }
}

/// The size, but never zero.
pub fn clamp_size(size: u32) -> (result: u32)
    ensures
        result == at_least_one(size),
{
    if size == 0 {
        1
    } else {
        size
    }
}

impl<D> BrowserFrame<D> {
    /// A frame of the given size that draws nothing.
    pub fn empty(width: u32, height: u32) -> (result: BrowserFrame<D>)
        ensures
            result.revision == 0,
            result.width == at_least_one(width),
            result.height == at_least_one(height),
            result.draws@ == Seq::<D>::empty(),
    {
        BrowserFrame {
            revision: 0,
            width: clamp_size(width),
            height: clamp_size(height),
            draws: Vec::new(),
        }
    }

    /// How many draws the frame holds.
    pub fn draw_count(&self) -> (result: usize)
        ensures
            result == self.draws@.len(),
    {
        self.draws.len()
    }
}

/// A frame has the size that is asked for, but is never without extent.
pub proof fn frames_have_extent(size: u32)
    ensures
        at_least_one(size) >= 1,
        size >= 1 ==> at_least_one(size) == size,
        size == 0 ==> at_least_one(size) == 1,
{
}

} // verus!
