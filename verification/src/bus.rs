//! The memory bus: a flat 64KB byte-addressed space. Addresses inside
//! [VRAM_BEGIN, VRAM_END] are not backed by local storage but forwarded, at
//! offset `address - VRAM_BEGIN`, to the graphics device's video RAM; every
//! other address touches a local byte array directly. The bus is the sole
//! contact point between the core and the device.

use crate::gpu::Gpu;
use crate::gpu::VRAM_BEGIN;
use crate::gpu::VRAM_END;
use crate::gpu::VRAM_SIZE;
use vstd::prelude::*;

verus! {

/// Number of addressable byte slots.
pub const MEMORY_SIZE: usize = 0x10000;

pub struct MemoryBus {
    pub memory: Vec<u8>,
    pub gpu: Gpu,
}

impl View for MemoryBus {
    type V = Seq<u8>;

    /// The bus viewed as one flat 64KB byte sequence: the video-RAM window
    /// shows the device's bytes, everything else the local array.
    open spec fn view(&self) -> Seq<u8> {
        Seq::new(
            MEMORY_SIZE as nat,
            |i: int|
                if VRAM_BEGIN <= i <= VRAM_END {
                    self.gpu.vram@[i - VRAM_BEGIN]
                } else {
                    self.memory@[i]
                },
        )
    }
}

impl MemoryBus {
    pub open spec fn wf(&self) -> bool {
        &&& self.memory@.len() == MEMORY_SIZE
        &&& self.gpu.wf()
    }

    /// A bus whose 64KB space reads zero everywhere.
    pub fn new() -> (r: MemoryBus)
        ensures
            r.wf(),
            forall|i: int| 0 <= i < MEMORY_SIZE ==> r@[i] == 0u8,
    {
        let mut memory: Vec<u8> = Vec::new();
        let mut i: usize = 0;
        while i < MEMORY_SIZE
            invariant
                i <= MEMORY_SIZE,
                memory@.len() == i,
                forall|j: int| 0 <= j < i ==> memory@[j] == 0u8,
            decreases MEMORY_SIZE - i,
        {
            memory.push(0);
            i = i + 1;
        }
        MemoryBus { memory, gpu: Gpu::new() }
    }

    /// Read the byte visible at `address`; every 16-bit address is in range
    /// by construction.
    pub fn read_byte(&self, address: u16) -> (r: u8)
        requires
            self.wf(),
        ensures
            r == self@[address as int],
    {
        if VRAM_BEGIN <= address && address <= VRAM_END {
            self.gpu.read_vram((address - VRAM_BEGIN) as usize)
        } else {
            self.memory[address as usize]
        }
    }

    /// Write `value` at `address`: the byte visible there becomes `value`
    /// and no other address changes.
    pub fn write_byte(&mut self, address: u16, value: u8)
        requires
            old(self).wf(),
        ensures
            final(self).wf(),
            final(self)@ == old(self)@.update(address as int, value),
    {
        if VRAM_BEGIN <= address && address <= VRAM_END {
            self.gpu.write_vram((address - VRAM_BEGIN) as usize, value);
        } else {
            self.memory[address as usize] = value;
        }
        proof {
            assert(self@ =~= old(self)@.update(address as int, value));
        }
    }
}

} // verus!
