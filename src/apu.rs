use vstd::prelude::*;

use crate::mem::Mem;

verus! {

/// Number of audio registers behind the window that starts at 0x4000.
pub const APU_REGISTERS: usize = 22;

/// The audio unit's registers, as the processor sees them:
///
/// - 0x00..=0x03 pulse 1, 0x04..=0x07 pulse 2, 0x08..=0x0B triangle,
///   0x0C..=0x0F noise, 0x10..=0x13 sample channel;
/// - 0x14 channel enable and status, 0x15 frame counter.
///
/// Offsets past the last register read as 0 and ignore writes.
pub struct Apu {
    pub pulse_1: [u8; 4],
    pub pulse_2: [u8; 4],
    pub triangle: [u8; 4],
    pub noise: [u8; 4],
    pub dmc: [u8; 4],
    pub status: u8,
    pub frame_counter: u8,
}

impl Apu {
    /// The registers in window order.
    pub open spec fn view(&self) -> Seq<u8> {
        self.pulse_1@ + self.pulse_2@ + self.triangle@ + self.noise@ + self.dmc@ + seq![
            self.status,
            self.frame_counter,
        ]
    }

    /// The window holds exactly its registers.
    pub proof fn lemma_len(&self)
        ensures
            self@.len() == APU_REGISTERS,
    {
    }

    /// All registers cleared.
    pub fn new() -> (r: Apu)
        ensures
            r@ == Seq::new(APU_REGISTERS as nat, |i: int| 0u8),
    {
        let r = Apu {
            pulse_1: [0u8; 4],
            pulse_2: [0u8; 4],
            triangle: [0u8; 4],
            noise: [0u8; 4],
            dmc: [0u8; 4],
            status: 0,
            frame_counter: 0,
        };
        assert(r@ =~= Seq::new(APU_REGISTERS as nat, |i: int| 0u8));
        r
    }

    /// The register at offset `addr` of the window.
    fn register(&self, addr: usize) -> (r: u8)
        requires
            addr < APU_REGISTERS,
        ensures
            r == self@[addr as int],
    {
        if addr < 4 {
            self.pulse_1[addr]
        } else if addr < 8 {
            self.pulse_2[addr - 4]
        } else if addr < 12 {
            self.triangle[addr - 8]
        } else if addr < 16 {
            self.noise[addr - 12]
        } else if addr < 20 {
            self.dmc[addr - 16]
        } else if addr == 20 {
            self.status
        } else {
            self.frame_counter
        }
    }

    /// Writes the register at offset `addr` of the window.
    fn set_register(&mut self, addr: usize, val: u8)
        requires
            addr < APU_REGISTERS,
        ensures
            final(self)@ == old(self)@.update(addr as int, val),
    {
        if addr < 4 {
            self.pulse_1[addr] = val;
        } else if addr < 8 {
            self.pulse_2[addr - 4] = val;
        } else if addr < 12 {
            self.triangle[addr - 8] = val;
        } else if addr < 16 {
            self.noise[addr - 12] = val;
        } else if addr < 20 {
            self.dmc[addr - 16] = val;
        } else if addr == 20 {
            self.status = val;
        } else {
            self.frame_counter = val;
        }
        assert(self@ =~= old(self)@.update(addr as int, val));
    }
}

impl Mem for Apu {
    open spec fn peek(&self, addr: u16) -> u8 {
        if addr < APU_REGISTERS {
            self@[addr as int]
        } else {
            0
        }
    }

    open spec fn written(&self, addr: u16, val: u8, post: Self) -> bool {
        if addr < APU_REGISTERS {
            post@ == self@.update(addr as int, val)
        } else {
            post@ == self@
        }
    }

    fn loadb(&mut self, addr: u16) -> (r: u8) {
        if (addr as usize) < APU_REGISTERS {
            self.register(addr as usize)
        } else {
            0
        }
    }

    fn storeb(&mut self, addr: u16, val: u8) {
        if (addr as usize) < APU_REGISTERS {
            self.set_register(addr as usize, val);
        }
    }
}

} // verus!
