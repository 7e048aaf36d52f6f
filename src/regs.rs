use vstd::prelude::*;

verus! {

/// The flags of the status byte that the emulation logic reads or writes.
#[derive(Clone, Copy, Debug, PartialEq, Eq, Structural)]
pub enum Flags {
    Carry,
    Zero,
    Interrupt,
    Decimal,
    Break,
    Overflow,
    Negative,
}

/// The bit of the status byte that holds `f`.
pub open spec fn flag_mask(f: Flags) -> u8 {
    match f {
        Flags::Carry => 0x01,
        Flags::Zero => 0x02,
        Flags::Interrupt => 0x04,
        Flags::Decimal => 0x08,
        Flags::Break => 0x10,
        Flags::Overflow => 0x40,
        Flags::Negative => 0x80,
    }
}

/// Whether `f` is set in the status byte `status`.
pub open spec fn flag_of(status: u8, f: Flags) -> bool {
    status & flag_mask(f) != 0
}

/// The status byte `status` with `f` set to `on` and every other bit kept.
pub open spec fn with_flag(status: u8, f: Flags, on: bool) -> u8 {
    if on {
        status | flag_mask(f)
    } else {
        status & !flag_mask(f)
    }
}

/// The status byte after Zero and Negative are derived from `v`.
pub open spec fn with_zn(status: u8, v: u8) -> u8 {
    with_flag(with_flag(status, Flags::Zero, v == 0), Flags::Negative, v & 0x80 != 0)
}

impl Flags {
    /// The bit that holds this flag in the status byte.
    pub fn mask(self) -> (r: u8)
        ensures
            r == flag_mask(self),
    {
        match self {
            Flags::Carry => 0x01,
            Flags::Zero => 0x02,
            Flags::Interrupt => 0x04,
            Flags::Decimal => 0x08,
            Flags::Break => 0x10,
            Flags::Overflow => 0x40,
            Flags::Negative => 0x80,
        }
    }
}

/// The programmer-visible registers of the processor.
#[derive(Clone, Copy, Debug, PartialEq, Eq, Structural)]
pub struct Registers {
    /// Accumulator.
    pub a: u8,
    /// Index register X.
    pub x: u8,
    /// Index register Y.
    pub y: u8,
    /// Program counter.
    pub pc: u16,
    /// Stack pointer: an offset into the stack page 0x0100..=0x01FF.
    pub sp: u8,
    /// Status byte, one bit per flag.
    pub status: u8,
}

impl Registers {
    pub open spec fn flag(self, f: Flags) -> bool {
        flag_of(self.status, f)
    }

    /// Whether `flag` is set.
    pub fn flag_set(&self, flag: Flags) -> (r: bool)
        ensures
            r == self.flag(flag),
    {
        self.status & flag.mask() != 0
    }

    /// Sets `flag` to `state`, keeping every other bit of the status byte.
    pub fn save_flag(&mut self, flag: Flags, state: bool)
        ensures
            *final(self) == (Registers { status: with_flag(old(self).status, flag, state), ..*old(self) }),
    {
        if state {
            self.status = self.status | flag.mask();
        } else {
            self.status = self.status & !flag.mask();
        }
    }

    /// Sets Zero exactly when `value` is 0.
    pub fn check_zero(&mut self, value: u8)
        ensures
            *final(self) == (Registers { status: with_flag(old(self).status, Flags::Zero, value == 0), ..*old(self) }),
    {
        self.save_flag(Flags::Zero, value == 0);
    }

    /// Sets Negative exactly when bit 7 of `value` is set.
    pub fn check_negative(&mut self, value: u8)
        ensures
            *final(self) == (Registers {
                status: with_flag(old(self).status, Flags::Negative, value & 0x80 != 0),
                ..*old(self)
            }),
    {
        self.save_flag(Flags::Negative, value & 0x80 != 0)
    }

    /// Derives Zero and Negative from `value`.
    pub fn update_zero_negative(&mut self, value: u8)
        ensures
            *final(self) == (Registers { status: with_zn(old(self).status, value), ..*old(self) }),
    {
        self.check_zero(value);
        self.check_negative(value);
    }
}

pub open spec fn is_flag_bit(m: u8) -> bool {
    m == 0x01 || m == 0x02 || m == 0x04 || m == 0x08 || m == 0x10 || m == 0x40 || m == 0x80
}

proof fn lemma_flag_bits(s: u8, m: u8, n: u8)
    by (bit_vector)
    requires
        is_flag_bit(m),
        is_flag_bit(n),
    ensures
        ((s | m) & n != 0) == (m == n || s & n != 0),
        ((s & !m) & n != 0) == (m != n && s & n != 0),
{
}

/// Setting one flag leaves it as asked and every other flag as it was.
pub proof fn lemma_with_flag(status: u8, f: Flags, on: bool, g: Flags)
    ensures
        flag_of(with_flag(status, f, on), g) == if f == g { on } else { flag_of(status, g) },
{
    lemma_flag_bits(status, flag_mask(f), flag_mask(g));
}

/// Deriving Zero and Negative from `v` sets Zero exactly when `v` is 0 and Negative
/// exactly when bit 7 of `v` is set, whatever the status byte held, and keeps the other
/// flags.
pub proof fn lemma_update_zero_negative(status: u8, v: u8, g: Flags)
    ensures
        flag_of(with_zn(status, v), Flags::Zero) == (v == 0),
        flag_of(with_zn(status, v), Flags::Negative) == (v & 0x80 != 0),
        g != Flags::Zero && g != Flags::Negative ==> flag_of(with_zn(status, v), g) == flag_of(status, g),
{
    let s1 = with_flag(status, Flags::Zero, v == 0);
    lemma_with_flag(status, Flags::Zero, v == 0, g);
    lemma_with_flag(status, Flags::Zero, v == 0, Flags::Zero);
    lemma_with_flag(s1, Flags::Negative, v & 0x80 != 0, g);
    lemma_with_flag(s1, Flags::Negative, v & 0x80 != 0, Flags::Zero);
    lemma_with_flag(s1, Flags::Negative, v & 0x80 != 0, Flags::Negative);
}

} // verus!
