//! The part of the emulated machine that the hooks see: the two registers they
//! touch, the address space, the cartridge banks and the frame being drawn.
use vstd::prelude::*;

verus! {

/// Width of the Game Boy screen in pixels.
pub const SCREEN_WIDTH: usize = 160;

/// Height of the Game Boy screen in pixels.
pub const SCREEN_HEIGHT: usize = 144;

/// Number of addressable bytes.
pub const ADDRESS_SPACE: usize = 0x10000;

/// The registers that hooks read and write.
#[derive(Clone, Copy, Debug, PartialEq, Eq, Structural)]
pub struct Cpu {
    /// The address of the next instruction.
    pub pc: u16,
    /// The accumulator, through which the text processor receives characters.
    pub a: u8,
}

impl Cpu {
    /// Continues execution at `addr`.
    pub fn jump(&mut self, addr: u16)
        ensures
            *final(self) == (Cpu { pc: addr, a: old(self).a }),
    {
        self.pc = addr;
    }
}

/// The picture unit's state that sprite drawing uses. The frame holds one
/// shade (0 to 3) per pixel, row after row.
#[derive(Clone, Debug)]
pub struct Gpu {
    pub framebuffer: Vec<u8>,
    /// The background priority of each pixel of the frame.
    pub pixel_priorities: Vec<u8>,
    /// The two sprite palettes.
    pub obp0: u8,
    pub obp1: u8,
}

impl Gpu {
    pub open spec fn wf(&self) -> bool {
        &&& self.framebuffer@.len() == SCREEN_WIDTH * SCREEN_HEIGHT
        &&& self.pixel_priorities@.len() == SCREEN_WIDTH * SCREEN_HEIGHT
    }

    /// A blank frame with no background priority and both palettes zero.
    pub fn new() -> (r: Gpu)
        ensures
            r.wf(),
            forall|i: int| 0 <= i < r.framebuffer@.len() ==> r.framebuffer@[i] == 0,
            forall|i: int| 0 <= i < r.pixel_priorities@.len() ==> r.pixel_priorities@[i] == 0,
            r.obp0 == 0 && r.obp1 == 0,
    {
        Gpu {
            framebuffer: vec![0u8; SCREEN_WIDTH * SCREEN_HEIGHT],
            pixel_priorities: vec![0u8; SCREEN_WIDTH * SCREEN_HEIGHT],
            obp0: 0,
            obp1: 0,
        }
    }
}

/// The memory of the emulated machine: the 64 KiB address space as the
/// program sees it, the cartridge banks, and the picture unit.
#[derive(Clone, Debug)]
pub struct Memory {
    pub ram: Vec<u8>,
    pub rom: Vec<Vec<u8>>,
    pub gpu: Gpu,
}

/// The little-endian word at `addr` of `ram`.
pub open spec fn word_at(ram: Seq<u8>, addr: u16) -> u16 {
    (ram[addr as int] + 256 * ram[((addr + 1) % 0x10000) as int]) as u16
}

impl Memory {
    pub open spec fn wf(&self) -> bool {
        &&& self.ram@.len() == ADDRESS_SPACE
        &&& self.gpu.wf()
    }

    /// A machine with the given cartridge banks, all memory cleared.
    pub fn new(rom: Vec<Vec<u8>>) -> (r: Memory)
        ensures
            r.wf(),
            r.rom@ == rom@,
            forall|i: int| 0 <= i < r.ram@.len() ==> r.ram@[i] == 0,
    {
        Memory { ram: vec![0u8; ADDRESS_SPACE], rom, gpu: Gpu::new() }
    }

    /// Loads the byte at `addr`.
    pub fn lb(&self, addr: u16) -> (r: u8)
        requires
            self.wf(),
        ensures
            r == self.ram@[addr as int],
    {
        self.ram[addr as usize]
    }

    /// Loads the little-endian word at `addr`.
    pub fn lw(&self, addr: u16) -> (r: u16)
        requires
            self.wf(),
        ensures
            r == word_at(self.ram@, addr),
    {
        let lo = self.ram[addr as usize] as u16;
        let hi_addr: u16 = if addr == 0xFFFF { 0 } else { addr + 1 };
        let hi = self.ram[hi_addr as usize] as u16;
        lo + 256 * hi
    }

    /// Stores `val` at `addr`.
    pub fn sb(&mut self, addr: u16, val: u8)
        requires
            old(self).wf(),
        ensures
            final(self).wf(),
            final(self).ram@ == old(self).ram@.update(addr as int, val),
            final(self).rom == old(self).rom,
            final(self).gpu == old(self).gpu,
    {
        self.ram.set(addr as usize, val);
    }
}

} // verus!
