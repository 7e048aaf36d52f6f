use vstd::prelude::*;

verus! {

/// How an instruction finds its operand.
#[derive(Clone, Copy, Debug, PartialEq, Eq, Structural)]
pub enum AddressingMode {
    /// No operand.
    Implied,
    /// The accumulator.
    Accumulator,
    /// The byte after the opcode.
    Immediate,
    /// A one-byte address in page 0.
    ZeroPage,
    /// A one-byte address plus X, within page 0.
    ZeroPageX,
    /// A one-byte address plus Y, within page 0.
    ZeroPageY,
    /// A two-byte address.
    Absolute,
    /// A two-byte address plus X.
    AbsoluteX,
    /// A two-byte address plus Y.
    AbsoluteY,
    /// The address stored at a two-byte pointer (jumps only).
    Indirect,
    /// The address stored in page 0 at a one-byte pointer plus X.
    IndirectX,
    /// The address stored in page 0 at a one-byte pointer, plus Y.
    IndirectY,
    /// A signed one-byte offset from the next instruction (branches only).
    Relative,
}

/// Number of operand bytes that follow the opcode.
pub open spec fn operand_len(mode: AddressingMode) -> nat {
    match mode {
        AddressingMode::Implied | AddressingMode::Accumulator => 0,
        AddressingMode::Absolute | AddressingMode::AbsoluteX | AddressingMode::AbsoluteY
        | AddressingMode::Indirect => 2,
        _ => 1,
    }
}

/// Whether the mode names a byte of memory that an instruction can read and write.
pub open spec fn is_memory_mode(mode: AddressingMode) -> bool {
    match mode {
        AddressingMode::ZeroPage | AddressingMode::ZeroPageX | AddressingMode::ZeroPageY
        | AddressingMode::Absolute | AddressingMode::AbsoluteX | AddressingMode::AbsoluteY
        | AddressingMode::IndirectX | AddressingMode::IndirectY => true,
        _ => false,
    }
}

/// What an addressing mode resolved to.
#[derive(Clone, Copy, Debug, PartialEq, Eq, Structural)]
pub enum Operand {
    /// No operand.
    Implied,
    /// The accumulator.
    Accumulator,
    /// A constant taken from the instruction stream; it cannot be written.
    Immediate(u8),
    /// A byte of memory at this effective address.
    Memory(u16),
    /// A branch offset, in two's complement.
    Relative(u8),
}

impl Operand {
    /// Whether an instruction can read a byte from this operand.
    pub open spec fn is_readable(self) -> bool {
        self is Accumulator || self is Immediate || self is Memory
    }

    /// Whether an instruction can write a byte to this operand.
    pub open spec fn is_writable(self) -> bool {
        self is Accumulator || self is Memory
    }
}

/// An operand and whether finding it crossed a page boundary.
#[derive(Clone, Copy, Debug, PartialEq, Eq, Structural)]
pub struct Resolved {
    pub operand: Operand,
    pub page_crossed: bool,
}

/// The page (high byte) of an address.
pub open spec fn page_of(addr: int) -> int {
    addr / 256
}

/// The little-endian word made of `lo` and `hi`.
pub open spec fn word_of(lo: u8, hi: u8) -> u16 {
    (hi as int * 256 + lo as int) as u16
}

/// `base + index`, wrapping within page 0.
pub open spec fn zero_page_sum(base: u8, index: u8) -> u16 {
    ((base as int + index as int) % 256) as u16
}

/// `base + index`, wrapping at the end of the address space.
pub open spec fn wrapping_sum(base: u16, index: int) -> u16 {
    ((base as int + index) % 0x10000) as u16
}

/// Where an indirect jump through `ptr` reads the high byte of its target: the byte
/// after `ptr` within the same page, so a pointer at the end of a page wraps to that
/// page's start.
pub open spec fn indirect_high(ptr: u16) -> u16 {
    (page_of(ptr as int) * 256 + (ptr as int + 1) % 256) as u16
}

/// The signed value of a two's-complement byte.
pub open spec fn signed_of(b: u8) -> int {
    if b < 128 {
        b as int
    } else {
        b as int - 256
    }
}

/// The little-endian word made of `lo` and `hi`.
pub fn word(lo: u8, hi: u8) -> (r: u16)
    ensures
        r == word_of(lo, hi),
{
    hi as u16 * 256 + lo as u16
}

/// The effective address of zero-page indexed addressing: `base + index`, wrapped
/// within page 0.
pub fn zero_page_indexed(base: u8, index: u8) -> (r: u16)
    ensures
        r == zero_page_sum(base, index),
        r < 256,
{
    ((base as u16 + index as u16) % 256) as u16
}

/// The effective address of absolute indexed addressing, and whether it lies on
/// another page than `base`.
pub fn absolute_indexed(base: u16, index: u8) -> (r: (u16, bool))
    ensures
        r.0 == wrapping_sum(base, index as int),
        r.1 == (page_of(base as int) != page_of(r.0 as int)),
{
    let addr = ((base as u32 + index as u32) % 0x10000) as u16;
    (addr, base / 256 != addr / 256)
}

/// The address from which an indirect jump through `ptr` takes its high byte.
pub fn indirect_high_address(ptr: u16) -> (r: u16)
    ensures
        r == indirect_high(ptr),
        page_of(r as int) == page_of(ptr as int),
{
    (ptr / 256) * 256 + (ptr % 256 + 1) % 256
}

/// The target of a branch at `pc` (the address after the branch instruction) with
/// offset `offset`, and whether it lies on another page than `pc`.
pub fn branch_target(pc: u16, offset: u8) -> (r: (u16, bool))
    ensures
        r.0 == wrapping_sum(pc, signed_of(offset) + 0x10000),
        r.1 == (page_of(pc as int) != page_of(r.0 as int)),
{
    let sum: u32 = if offset < 128 {
        pc as u32 + offset as u32
    } else {
        pc as u32 + 0x10000 - (256 - offset as u32)
    };
    let target = (sum % 0x10000) as u16;
    (target, pc / 256 != target / 256)
}

} // verus!
