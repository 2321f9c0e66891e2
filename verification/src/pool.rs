//! The frame-buffer pool, modelled as a counted resource.
//!
//! The driver owns a fixed number of frame buffers, pre-sized at startup;
//! nothing allocates in the steady state.  Exhaustion is a first-class,
//! recoverable condition: an allocation attempt on an empty pool fails with
//! `OutOfMemory` and the current receive or transmit attempt is dropped.

use vstd::prelude::*;

verus! {

/// Number of frame buffers the pool is provisioned with.
pub const FRAME_POOL_BLOCKS: usize = 8;

/// A fixed-count pool of frame buffers.  Only the count of free blocks is
/// tracked; the buffers themselves are plain byte vectors handed out by the
/// frame constructors.
pub struct FramePool {
    free: usize,
    blocks: usize,
}

impl FramePool {
    /// How many blocks are currently free.
    pub closed spec fn free_blocks(self) -> int {
        self.free as int
    }

    /// How many blocks the pool was created with.
    pub closed spec fn block_count(self) -> int {
        self.blocks as int
    }

    /// The pool never holds more free blocks than it was created with.
    pub open spec fn wf(self) -> bool {
        0 <= self.free_blocks() <= self.block_count()
    }

    /// Creates a pool with `blocks` free buffers.
    pub fn new(blocks: usize) -> (r: Self)
        ensures
            r.wf(),
            r.free_blocks() == blocks,
            r.block_count() == blocks,
    {
        FramePool { free: blocks, blocks }
    }

    /// Non-blocking allocation try: takes one block when one is free.
    pub fn try_alloc(&mut self) -> (ok: bool)
        requires
            old(self).wf(),
        ensures
            final(self).wf(),
            final(self).block_count() == old(self).block_count(),
            ok <==> old(self).free_blocks() > 0,
            ok ==> final(self).free_blocks() == old(self).free_blocks() - 1,
            !ok ==> *final(self) == *old(self),
    {
        if self.free > 0 {
            self.free = self.free - 1;
            true
        } else {
            false
        }
    }

    /// Returns one block to the pool.  A return beyond the pool's capacity
    /// is ignored, so the count can never overflow the block count.
    pub fn release(&mut self)
        requires
            old(self).wf(),
        ensures
            final(self).wf(),
            final(self).block_count() == old(self).block_count(),
            final(self).free_blocks() == if old(self).free_blocks() < old(self).block_count() {
                old(self).free_blocks() + 1
            } else {
                old(self).free_blocks()
            },
    {
        if self.free < self.blocks {
            self.free = self.free + 1;
        }
    }
}

} // verus!
