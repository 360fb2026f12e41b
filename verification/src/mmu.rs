//! Memory bus: a flat 64KB byte store with bounds-checked access.
//!
//! Addresses 0 through 0xFFFF inclusive are valid; any other address fails
//! with [`Failure::OutOfRangeAddress`] rather than wrapping or clamping.
//! The bus performs no bank switching and no address-range special-casing;
//! redirection of ranges is a collaborator's concern, layered around this
//! bus.  A host populates program data through [`MMU::set_byte`] or
//! [`MMU::load_rom`] before stepping the CPU, and may read any range back
//! through [`MMU::get_byte`].

use crate::Failure;
use vstd::pervasive::VecAdditionalExecFns;
use vstd::prelude::*;

verus! {

/// Number of addressable bytes on the bus.
pub const MEMORY_SIZE: usize = 0x10000;

/// The contents of memory at power-on: every byte zero.
pub open spec fn zero_memory() -> Seq<u8> {
    Seq::new(MEMORY_SIZE as nat, |i: int| 0u8)
}

/// The flat 64KB memory bus, exclusively owned by one CPU instance.
#[derive(Clone)]
pub struct MMU {
    pub memory: Vec<u8>,
}

impl View for MMU {
    type V = Seq<u8>;

    open spec fn view(&self) -> Seq<u8> {
        self.memory@
    }
}

impl MMU {
    /// A well-formed bus always holds exactly 64KB.
    pub open spec fn wf(&self) -> bool {
        self@.len() == MEMORY_SIZE
    }

    /// Creates the power-on bus: 64KB of zeroed memory.
    pub fn new() -> (r: MMU)
        ensures
            r.wf(),
            r@ == zero_memory(),
    {
        let mut memory: Vec<u8> = Vec::new();
        while memory.len() < MEMORY_SIZE
            invariant
                memory@.len() <= MEMORY_SIZE,
                forall|i: int| 0 <= i < memory@.len() ==> memory@[i] == 0u8,
            decreases MEMORY_SIZE - memory@.len(),
        {
            memory.push(0);
        }
        let r = MMU { memory };
        assert(r@ =~= zero_memory());
        r
    }

    /// Reads the byte at `addr`, or fails when `addr` lies outside the
    /// 64KB address space.
    pub fn get_byte(&self, addr: usize) -> (r: Result<u8, Failure>)
        requires
            self.wf(),
        ensures
            addr < MEMORY_SIZE ==> r == Ok::<u8, Failure>(self@[addr as int]),
            addr >= MEMORY_SIZE ==> r == Err::<u8, Failure>(
                Failure::OutOfRangeAddress { address: addr },
            ),
    {
        if addr < MEMORY_SIZE {
            Ok(self.memory[addr])
        } else {
            Err(Failure::OutOfRangeAddress { address: addr })
        }
    }

    /// Writes `data` at `addr`, or fails — leaving memory unchanged — when
    /// `addr` lies outside the 64KB address space.
    pub fn set_byte(&mut self, addr: usize, data: u8) -> (r: Result<(), Failure>)
        requires
            old(self).wf(),
        ensures
            final(self).wf(),
            addr < MEMORY_SIZE ==> r == Ok::<(), Failure>(()) && final(self)@ == old(self)@.update(
                addr as int,
                data,
            ),
            addr >= MEMORY_SIZE ==> r == Err::<(), Failure>(
                Failure::OutOfRangeAddress { address: addr },
            ) && final(self)@ == old(self)@,
    {
        if addr < MEMORY_SIZE {
            self.memory.set(addr, data);
            Ok(())
        } else {
            Err(Failure::OutOfRangeAddress { address: addr })
        }
    }

    /// Reads the byte at a 16-bit address, which is always in range.
    pub fn byte_at(&self, addr: u16) -> (r: u8)
        requires
            self.wf(),
        ensures
            r == self@[addr as int],
    {
        self.memory[addr as usize]
    }

    /// Writes the byte at a 16-bit address, which is always in range.
    pub fn write_byte(&mut self, addr: u16, data: u8)
        requires
            old(self).wf(),
        ensures
            final(self).wf(),
            final(self)@ == old(self)@.update(addr as int, data),
    {
        self.memory.set(addr as usize, data);
    }

    /// Sets every bit of the interrupt-enable register, the top byte of the
    /// address space.
    pub fn enable_interrupts(&mut self)
        requires
            old(self).wf(),
        ensures
            final(self).wf(),
            final(self)@ == old(self)@.update(0xFFFF, 0xFFu8),
    {
        self.memory.set(0xFFFF, 0xFF);
    }

    /// Clears the interrupt-enable register, the top byte of the address
    /// space.
    pub fn disable_interrupts(&mut self)
        requires
            old(self).wf(),
        ensures
            final(self).wf(),
            final(self)@ == old(self)@.update(0xFFFF, 0x00u8),
    {
        self.memory.set(0xFFFF, 0x00);
    }

    /// Copies a program image into the bottom of memory, leaving the rest
    /// untouched.  The image must fit in the 64KB address space.
    pub fn load_rom(&mut self, rom_data: Vec<u8>)
        requires
            old(self).wf(),
            rom_data@.len() <= MEMORY_SIZE,
        ensures
            final(self).wf(),
            forall|i: int| 0 <= i < rom_data@.len() ==> final(self)@[i] == rom_data@[i],
            forall|i: int|
                rom_data@.len() <= i < MEMORY_SIZE ==> final(self)@[i] == old(self)@[i],
    {
        let mut i: usize = 0;
        while i < rom_data.len()
            invariant
                i <= rom_data@.len(),
                rom_data@.len() <= MEMORY_SIZE,
                self@.len() == MEMORY_SIZE,
                forall|j: int| 0 <= j < i ==> self@[j] == rom_data@[j],
                forall|j: int| i <= j < MEMORY_SIZE ==> self@[j] == old(self)@[j],
            decreases rom_data@.len() - i,
        {
            self.memory.set(i, rom_data[i]);
            i = i + 1;
        }
    }
}

/// A write followed by a read of the same in-range address returns the
/// written byte, and every other address still reads its old byte.
pub proof fn lemma_write_read_round_trip(mem: Seq<u8>, addr: int, v: u8)
    requires
        0 <= addr < mem.len(),
    ensures
        mem.update(addr, v)[addr] == v,
        forall|other: int|
            0 <= other < mem.len() && other != addr ==> mem.update(addr, v)[other] == mem[other],
{
}

} // verus!
