use vstd::prelude::*;

use crate::apu::Apu;
use crate::ioport::IoPort;
use crate::ppu::Ppu;

verus! {

/// A byte-addressable region. Reads never change what the region holds, and no access
/// fails: an address with nothing behind it reads as a fixed stub value.
pub trait Mem: Sized {
    /// What a read of `addr` returns.
    spec fn peek(&self, addr: u16) -> u8;

    /// Whether `post` is this region after `val` was written to `addr`.
    spec fn written(&self, addr: u16, val: u8, post: Self) -> bool;

    /// Reads the byte at `addr`, counted from the start of the region.
    fn loadb(&mut self, addr: u16) -> (r: u8)
        ensures
            *final(self) == *old(self),
            r == old(self).peek(addr),
    ;

    /// Writes `val` to `addr`, counted from the start of the region.
    fn storeb(&mut self, addr: u16, val: u8)
        ensures
            old(self).written(addr, val, *final(self)),
    ;
}

/// Size of the internal RAM.
pub const RAM_SIZE: usize = 0x0800;

/// The 2 KiB of internal RAM. Addresses past its end wrap around to its start.
pub struct Ram {
    /// The bytes of RAM.
    pub mem: [u8; 0x0800],
}

impl Ram {
    pub open spec fn view(&self) -> Seq<u8> {
        self.mem@
    }

    /// RAM holds exactly its 2 KiB.
    pub proof fn lemma_len(&self)
        ensures
            self@.len() == RAM_SIZE,
    {
    }

    /// RAM filled with zeros.
    pub fn new() -> (r: Ram)
        ensures
            r@ == Seq::new(RAM_SIZE as nat, |i: int| 0u8),
    {
        let r = Ram { mem: [0u8; 0x0800] };
        assert(r@ =~= Seq::new(RAM_SIZE as nat, |i: int| 0u8));
        r
    }
}

impl Mem for Ram {
    open spec fn peek(&self, addr: u16) -> u8 {
        self@[addr as int % RAM_SIZE as int]
    }

    open spec fn written(&self, addr: u16, val: u8, post: Self) -> bool {
        post@ == self@.update(addr as int % RAM_SIZE as int, val)
    }

    fn loadb(&mut self, addr: u16) -> (r: u8) {
        self.mem[addr as usize % RAM_SIZE]
    }

    fn storeb(&mut self, addr: u16, val: u8) {
        self.mem[addr as usize % RAM_SIZE] = val;
    }
}

/// The processor's address space:
///
/// - 0x0000..=0x1FFF: internal RAM, its 2 KiB seen four times;
/// - 0x2000..=0x3FFF: the eight picture-unit registers, seen every 8 bytes;
/// - 0x4000..=0x4015: the audio-unit registers;
/// - 0x4016, 0x4017: the two controller ports;
/// - 0x8000..=0xFFFF: the cartridge's program ROM, repeated to fill the window;
/// - everything else reads as 0 and ignores writes.
pub struct MemoryMap {
    pub ram: Ram,
    pub ppu_regs: Ppu,
    pub apu_regs: Apu,
    pub joy1: IoPort,
    pub joy2: IoPort,
    /// The cartridge's program ROM.
    pub prg: Vec<u8>,
}

impl MemoryMap {
    pub open spec fn ram_view(&self) -> Seq<u8> {
        self.ram@
    }

    pub open spec fn prg_view(&self) -> Seq<u8> {
        self.prg@
    }

    /// Powers on the bus with RAM cleared and `prg` as the cartridge's program ROM.
    pub fn new(prg: Vec<u8>) -> (r: MemoryMap)
        ensures
            r.ram_view() == Seq::new(RAM_SIZE as nat, |i: int| 0u8),
            r.prg_view() == prg@,
    {
        MemoryMap {
            ram: Ram::new(),
            ppu_regs: Ppu::new(),
            apu_regs: Apu::new(),
            joy1: IoPort::new(),
            joy2: IoPort::new(),
            prg,
        }
    }
}

impl MemoryMap {
    /// RAM holds exactly its 2 KiB, and the audio window its registers.
    pub proof fn lemma_lens(&self)
        ensures
            self.ram_view().len() == RAM_SIZE,
            self.apu_regs@.len() == crate::apu::APU_REGISTERS,
    {
        self.ram.lemma_len();
        self.apu_regs.lemma_len();
    }
}

impl Mem for MemoryMap {
    open spec fn peek(&self, addr: u16) -> u8 {
        if addr <= 0x1FFF {
            self.ram_view()[addr as int % RAM_SIZE as int]
        } else {
            self.peek_devices(addr)
        }
    }

    open spec fn written(&self, addr: u16, val: u8, post: Self) -> bool {
        if addr <= 0x1FFF {
            &&& post.ram_view() == self.ram_view().update(addr as int % RAM_SIZE as int, val)
            &&& post.same_devices(*self)
        } else {
            &&& post.ram_view() == self.ram_view()
            &&& self.devices_written(addr, val, post)
        }
    }

    fn loadb(&mut self, addr: u16) -> (r: u8) {
        if addr <= 0x1FFF {
            // The three mirrors of RAM share its low eleven bits.
            self.ram.loadb(addr % 0x0800)
        } else if addr <= 0x3FFF {
            // The picture unit's registers repeat every 8 bytes.
            self.ppu_regs.loadb(addr % 8)
        } else if addr <= 0x4015 {
            self.apu_regs.loadb(addr - 0x4000)
        } else if addr == 0x4016 {
            self.joy1.loadb(0)
        } else if addr == 0x4017 {
            self.joy2.loadb(0)
        } else if addr >= 0x8000 && self.prg.len() > 0 {
            self.prg[(addr - 0x8000) as usize % self.prg.len()]
        } else {
            0
        }
    }

    fn storeb(&mut self, addr: u16, val: u8) {
        if addr <= 0x1FFF {
            self.ram.storeb(addr % 0x0800, val);
        } else if addr <= 0x3FFF {
            self.ppu_regs.storeb(addr % 8, val);
        } else if addr <= 0x4015 {
            self.apu_regs.storeb(addr - 0x4000, val);
        } else if addr == 0x4016 {
            self.joy1.storeb(0, val);
        } else if addr == 0x4017 {
            self.joy2.storeb(0, val);
        }
    }
}

impl MemoryMap {
    /// What a read of `addr` returns outside RAM.
    pub open spec fn peek_devices(&self, addr: u16) -> u8 {
        if addr <= 0x3FFF {
            self.ppu_regs.peek((addr % 8) as u16)
        } else if addr <= 0x4015 {
            self.apu_regs.peek((addr - 0x4000) as u16)
        } else if addr == 0x4016 {
            self.joy1.peek(0)
        } else if addr == 0x4017 {
            self.joy2.peek(0)
        } else if addr >= 0x8000 && self.prg@.len() > 0 {
            self.prg@[(addr - 0x8000) % self.prg@.len() as int]
        } else {
            0
        }
    }

    pub open spec fn same_devices(&self, other: Self) -> bool {
        &&& self.ppu_regs == other.ppu_regs
        &&& self.apu_regs == other.apu_regs
        &&& self.joy1 == other.joy1
        &&& self.joy2 == other.joy2
        &&& self.prg@ == other.prg@
    }

    /// Whether `post`'s devices are these after `val` was written to `addr`, outside RAM.
    pub open spec fn devices_written(&self, addr: u16, val: u8, post: Self) -> bool {
        &&& self.prg@ == post.prg@
        &&& if addr <= 0x3FFF {
            self.ppu_regs.written((addr % 8) as u16, val, post.ppu_regs)
                && self.apu_regs == post.apu_regs && self.joy1 == post.joy1 && self.joy2 == post.joy2
        } else if addr <= 0x4015 {
            self.apu_regs.written((addr - 0x4000) as u16, val, post.apu_regs)
                && self.ppu_regs == post.ppu_regs && self.joy1 == post.joy1 && self.joy2 == post.joy2
        } else if addr == 0x4016 {
            self.joy1.written(0, val, post.joy1)
                && self.ppu_regs == post.ppu_regs && self.apu_regs == post.apu_regs && self.joy2 == post.joy2
        } else if addr == 0x4017 {
            self.joy2.written(0, val, post.joy2)
                && self.ppu_regs == post.ppu_regs && self.apu_regs == post.apu_regs && self.joy1 == post.joy1
        } else {
            post.same_devices(*self)
        }
    }
}

/// A write to internal RAM through any of its four mirrors is seen at the same offset
/// through every mirror, and nowhere else changes.
pub proof fn lemma_ram_mirroring(m: MemoryMap, addr: u16, val: u8, post: MemoryMap, other: u16)
    requires
        m.written(addr, val, post),
        addr <= 0x1FFF,
    ensures
        other <= 0x1FFF && other as int % 0x0800 == addr as int % 0x0800 ==> post.peek(other) == val,
        other <= 0x1FFF && other as int % 0x0800 != addr as int % 0x0800 ==> post.peek(other) == m.peek(other),
        other > 0x1FFF ==> post.peek(other) == m.peek(other),
{
}

} // verus!
