//! The graphics device as the core sees it: a byte-indexed video RAM of
//! 0x2000 slots, reached only through the two narrow accessors below. The
//! device's rendering algorithm is out of scope here; the bus owns the device
//! and forwards the memory-mapped window [0x8000, 0x9FFF] to it.

use vstd::prelude::*;

verus! {

/// First address of the memory-mapped video-RAM window.
pub const VRAM_BEGIN: u16 = 0x8000;

/// Last address of the memory-mapped video-RAM window.
pub const VRAM_END: u16 = 0x9FFF;

/// Number of bytes in the video-RAM window.
pub const VRAM_SIZE: usize = 0x2000;

/// The graphics device: owns the video RAM.
pub struct Gpu {
    pub vram: Vec<u8>,
}

impl Gpu {
    /// The video RAM always holds exactly `VRAM_SIZE` bytes.
    pub open spec fn wf(&self) -> bool {
        self.vram@.len() == VRAM_SIZE
    }

    /// A device with all of video RAM zeroed.
    pub fn new() -> (r: Gpu)
        ensures
            r.wf(),
            forall|i: int| 0 <= i < VRAM_SIZE ==> r.vram@[i] == 0u8,
    {
        let mut vram: Vec<u8> = Vec::new();
        let mut i: usize = 0;
        while i < VRAM_SIZE
            invariant
                i <= VRAM_SIZE,
                vram@.len() == i,
                forall|j: int| 0 <= j < i ==> vram@[j] == 0u8,
            decreases VRAM_SIZE - i,
        {
            vram.push(0);
            i = i + 1;
        }
        Gpu { vram }
    }

    /// Read one byte of video RAM at the given window offset.
    pub fn read_vram(&self, offset: usize) -> (r: u8)
        requires
            self.wf(),
            offset < VRAM_SIZE,
        ensures
            r == self.vram@[offset as int],
    {
        self.vram[offset]
    }

    /// Write one byte of video RAM at the given window offset.
    pub fn write_vram(&mut self, offset: usize, value: u8)
        requires
            old(self).wf(),
            offset < VRAM_SIZE,
        ensures
            final(self).wf(),
            final(self).vram@ == old(self).vram@.update(offset as int, value),
    {
        self.vram[offset] = value;
    }
}

} // verus!
