use vstd::prelude::*;

use crate::addressing::{is_memory_mode, AddressingMode};

verus! {

/// The operations of the instruction set.
#[derive(Clone, Copy, Debug, PartialEq, Eq, Structural)]
pub enum Op {
    Adc,
    And,
    Asl,
    Bcc,
    Bcs,
    Beq,
    Bit,
    Bmi,
    Bne,
    Bpl,
    Brk,
    Bvc,
    Bvs,
    Clc,
    Cld,
    Cli,
    Clv,
    Cmp,
    Cpx,
    Cpy,
    Dec,
    Dex,
    Dey,
    Eor,
    Inc,
    Inx,
    Iny,
    Jmp,
    Jsr,
    Lda,
    Ldx,
    Ldy,
    Lsr,
    Nop,
    Ora,
    Pha,
    Php,
    Pla,
    Plp,
    Rol,
    Ror,
    Rti,
    Rts,
    Sbc,
    Sec,
    Sed,
    Sei,
    Sta,
    Stx,
    Sty,
    Tax,
    Tay,
    Tsx,
    Txa,
    Txs,
    Tya,
}

/// One entry of the dispatch table.
#[derive(Clone, Copy, Debug, PartialEq, Eq, Structural)]
pub struct Instruction {
    pub op: Op,
    pub mode: AddressingMode,
    /// Cycles taken before any page-crossing or branch penalty.
    pub cycles: u8,
}

/// Operations that read one byte through their addressing mode and write none.
pub open spec fn reads_operand(op: Op) -> bool {
    match op {
        Op::Adc | Op::And | Op::Bit | Op::Cmp | Op::Cpx | Op::Cpy | Op::Eor | Op::Lda | Op::Ldx
        | Op::Ldy | Op::Ora | Op::Sbc => true,
        _ => false,
    }
}

/// Operations that read a byte, change it and write it back to the same place.
pub open spec fn modifies_operand(op: Op) -> bool {
    match op {
        Op::Asl | Op::Lsr | Op::Rol | Op::Ror | Op::Inc | Op::Dec => true,
        _ => false,
    }
}

/// Operations that only write a register to memory.
pub open spec fn stores_operand(op: Op) -> bool {
    match op {
        Op::Sta | Op::Stx | Op::Sty => true,
        _ => false,
    }
}

/// The conditional branches.
pub open spec fn is_branch(op: Op) -> bool {
    match op {
        Op::Bcc | Op::Bcs | Op::Beq | Op::Bmi | Op::Bne | Op::Bpl | Op::Bvc | Op::Bvs => true,
        _ => false,
    }
}

/// Whether `mode` gives `op` the kind of operand it needs: a readable one to readers,
/// a writable one to writers, a target to jumps, an offset to branches and none to the
/// rest. In particular no write ever goes to an immediate or relative operand.
pub open spec fn mode_fits(op: Op, mode: AddressingMode) -> bool {
    if reads_operand(op) {
        mode == AddressingMode::Immediate || is_memory_mode(mode)
    } else if op == Op::Asl || op == Op::Lsr || op == Op::Rol || op == Op::Ror {
        mode == AddressingMode::Accumulator || is_memory_mode(mode)
    } else if modifies_operand(op) || stores_operand(op) {
        is_memory_mode(mode)
    } else if op == Op::Jmp {
        mode == AddressingMode::Absolute || mode == AddressingMode::Indirect
    } else if op == Op::Jsr {
        mode == AddressingMode::Absolute
    } else if is_branch(op) {
        mode == AddressingMode::Relative
    } else {
        mode == AddressingMode::Implied
    }
}

/// Whether `op` with `mode` takes one more cycle when its effective address lies on
/// another page than the base address: reads through an indexed absolute or an
/// indirect indexed mode. Writes and read-modify-writes never do.
pub open spec fn page_penalty(op: Op, mode: AddressingMode) -> bool {
    reads_operand(op) && (mode == AddressingMode::AbsoluteX || mode == AddressingMode::AbsoluteY
        || mode == AddressingMode::IndirectY)
}

/// Whether the table entry is one the processor can run.
pub open spec fn well_formed(i: Instruction) -> bool {
    &&& mode_fits(i.op, i.mode)
    &&& 2 <= i.cycles <= 7
    &&& page_penalty(i.op, i.mode) ==> i.cycles <= 6
    &&& is_branch(i.op) ==> i.cycles == 2
}

/// Whether `op` with `mode` takes one more cycle when its effective address lies on
/// another page than the base address.
pub fn has_page_penalty(op: Op, mode: AddressingMode) -> (r: bool)
    ensures
        r == page_penalty(op, mode),
{
    let reads = match op {
        Op::Adc | Op::And | Op::Bit | Op::Cmp | Op::Cpx | Op::Cpy | Op::Eor | Op::Lda | Op::Ldx
        | Op::Ldy | Op::Ora | Op::Sbc => true,
        _ => false,
    };
    let indexed = match mode {
        AddressingMode::AbsoluteX | AddressingMode::AbsoluteY | AddressingMode::IndirectY => true,
        _ => false,
    };
    reads && indexed
}

/// The cycles an instruction takes: its base cost, plus one when its read crossed a
/// page boundary.
pub open spec fn cycles_of(i: Instruction, page_crossed: bool) -> int {
    i.cycles + if page_crossed && page_penalty(i.op, i.mode) {
        1int
    } else {
        0int
    }
}

/// The cycles an instruction takes: its base cost, plus one when its read crossed a
/// page boundary.
pub fn instruction_cycles(i: Instruction, page_crossed: bool) -> (r: u64)
    ensures
        r == cycles_of(i, page_crossed),
{
    if page_crossed && has_page_penalty(i.op, i.mode) {
        i.cycles as u64 + 1
    } else {
        i.cycles as u64
    }
}

/// The dispatch table: the instruction that `opcode` stands for. Opcodes outside the
/// documented instruction set run as a one-byte, two-cycle no-op.
pub open spec fn decode_spec(opcode: u8) -> Instruction {
    match opcode {
        0x00 => Instruction { op: Op::Brk, mode: AddressingMode::Implied, cycles: 7 },
        0x01 => Instruction { op: Op::Ora, mode: AddressingMode::IndirectX, cycles: 6 },
        0x05 => Instruction { op: Op::Ora, mode: AddressingMode::ZeroPage, cycles: 3 },
        0x06 => Instruction { op: Op::Asl, mode: AddressingMode::ZeroPage, cycles: 5 },
        0x08 => Instruction { op: Op::Php, mode: AddressingMode::Implied, cycles: 3 },
        0x09 => Instruction { op: Op::Ora, mode: AddressingMode::Immediate, cycles: 2 },
        0x0A => Instruction { op: Op::Asl, mode: AddressingMode::Accumulator, cycles: 2 },
        0x0D => Instruction { op: Op::Ora, mode: AddressingMode::Absolute, cycles: 4 },
        0x0E => Instruction { op: Op::Asl, mode: AddressingMode::Absolute, cycles: 6 },
        0x10 => Instruction { op: Op::Bpl, mode: AddressingMode::Relative, cycles: 2 },
        0x11 => Instruction { op: Op::Ora, mode: AddressingMode::IndirectY, cycles: 5 },
        0x15 => Instruction { op: Op::Ora, mode: AddressingMode::ZeroPageX, cycles: 4 },
        0x16 => Instruction { op: Op::Asl, mode: AddressingMode::ZeroPageX, cycles: 6 },
        0x18 => Instruction { op: Op::Clc, mode: AddressingMode::Implied, cycles: 2 },
        0x19 => Instruction { op: Op::Ora, mode: AddressingMode::AbsoluteY, cycles: 4 },
        0x1D => Instruction { op: Op::Ora, mode: AddressingMode::AbsoluteX, cycles: 4 },
        0x1E => Instruction { op: Op::Asl, mode: AddressingMode::AbsoluteX, cycles: 7 },
        0x20 => Instruction { op: Op::Jsr, mode: AddressingMode::Absolute, cycles: 6 },
        0x21 => Instruction { op: Op::And, mode: AddressingMode::IndirectX, cycles: 6 },
        0x24 => Instruction { op: Op::Bit, mode: AddressingMode::ZeroPage, cycles: 3 },
        0x25 => Instruction { op: Op::And, mode: AddressingMode::ZeroPage, cycles: 3 },
        0x26 => Instruction { op: Op::Rol, mode: AddressingMode::ZeroPage, cycles: 5 },
        0x28 => Instruction { op: Op::Plp, mode: AddressingMode::Implied, cycles: 4 },
        0x29 => Instruction { op: Op::And, mode: AddressingMode::Immediate, cycles: 2 },
        0x2A => Instruction { op: Op::Rol, mode: AddressingMode::Accumulator, cycles: 2 },
        0x2C => Instruction { op: Op::Bit, mode: AddressingMode::Absolute, cycles: 4 },
        0x2D => Instruction { op: Op::And, mode: AddressingMode::Absolute, cycles: 4 },
        0x2E => Instruction { op: Op::Rol, mode: AddressingMode::Absolute, cycles: 6 },
        0x30 => Instruction { op: Op::Bmi, mode: AddressingMode::Relative, cycles: 2 },
        0x31 => Instruction { op: Op::And, mode: AddressingMode::IndirectY, cycles: 5 },
        0x35 => Instruction { op: Op::And, mode: AddressingMode::ZeroPageX, cycles: 4 },
        0x36 => Instruction { op: Op::Rol, mode: AddressingMode::ZeroPageX, cycles: 6 },
        0x38 => Instruction { op: Op::Sec, mode: AddressingMode::Implied, cycles: 2 },
        0x39 => Instruction { op: Op::And, mode: AddressingMode::AbsoluteY, cycles: 4 },
        0x3D => Instruction { op: Op::And, mode: AddressingMode::AbsoluteX, cycles: 4 },
        0x3E => Instruction { op: Op::Rol, mode: AddressingMode::AbsoluteX, cycles: 7 },
        0x40 => Instruction { op: Op::Rti, mode: AddressingMode::Implied, cycles: 6 },
        0x41 => Instruction { op: Op::Eor, mode: AddressingMode::IndirectX, cycles: 6 },
        0x45 => Instruction { op: Op::Eor, mode: AddressingMode::ZeroPage, cycles: 3 },
        0x46 => Instruction { op: Op::Lsr, mode: AddressingMode::ZeroPage, cycles: 5 },
        0x48 => Instruction { op: Op::Pha, mode: AddressingMode::Implied, cycles: 3 },
        0x49 => Instruction { op: Op::Eor, mode: AddressingMode::Immediate, cycles: 2 },
        0x4A => Instruction { op: Op::Lsr, mode: AddressingMode::Accumulator, cycles: 2 },
        0x4C => Instruction { op: Op::Jmp, mode: AddressingMode::Absolute, cycles: 3 },
        0x4D => Instruction { op: Op::Eor, mode: AddressingMode::Absolute, cycles: 4 },
        0x4E => Instruction { op: Op::Lsr, mode: AddressingMode::Absolute, cycles: 6 },
        0x50 => Instruction { op: Op::Bvc, mode: AddressingMode::Relative, cycles: 2 },
        0x51 => Instruction { op: Op::Eor, mode: AddressingMode::IndirectY, cycles: 5 },
        0x55 => Instruction { op: Op::Eor, mode: AddressingMode::ZeroPageX, cycles: 4 },
        0x56 => Instruction { op: Op::Lsr, mode: AddressingMode::ZeroPageX, cycles: 6 },
        0x58 => Instruction { op: Op::Cli, mode: AddressingMode::Implied, cycles: 2 },
        0x59 => Instruction { op: Op::Eor, mode: AddressingMode::AbsoluteY, cycles: 4 },
        0x5D => Instruction { op: Op::Eor, mode: AddressingMode::AbsoluteX, cycles: 4 },
        0x5E => Instruction { op: Op::Lsr, mode: AddressingMode::AbsoluteX, cycles: 7 },
        0x60 => Instruction { op: Op::Rts, mode: AddressingMode::Implied, cycles: 6 },
        0x61 => Instruction { op: Op::Adc, mode: AddressingMode::IndirectX, cycles: 6 },
        0x65 => Instruction { op: Op::Adc, mode: AddressingMode::ZeroPage, cycles: 3 },
        0x66 => Instruction { op: Op::Ror, mode: AddressingMode::ZeroPage, cycles: 5 },
        0x68 => Instruction { op: Op::Pla, mode: AddressingMode::Implied, cycles: 4 },
        0x69 => Instruction { op: Op::Adc, mode: AddressingMode::Immediate, cycles: 2 },
        0x6A => Instruction { op: Op::Ror, mode: AddressingMode::Accumulator, cycles: 2 },
        0x6C => Instruction { op: Op::Jmp, mode: AddressingMode::Indirect, cycles: 5 },
        0x6D => Instruction { op: Op::Adc, mode: AddressingMode::Absolute, cycles: 4 },
        0x6E => Instruction { op: Op::Ror, mode: AddressingMode::Absolute, cycles: 6 },
        0x70 => Instruction { op: Op::Bvs, mode: AddressingMode::Relative, cycles: 2 },
        0x71 => Instruction { op: Op::Adc, mode: AddressingMode::IndirectY, cycles: 5 },
        0x75 => Instruction { op: Op::Adc, mode: AddressingMode::ZeroPageX, cycles: 4 },
        0x76 => Instruction { op: Op::Ror, mode: AddressingMode::ZeroPageX, cycles: 6 },
        0x78 => Instruction { op: Op::Sei, mode: AddressingMode::Implied, cycles: 2 },
        0x79 => Instruction { op: Op::Adc, mode: AddressingMode::AbsoluteY, cycles: 4 },
        0x7D => Instruction { op: Op::Adc, mode: AddressingMode::AbsoluteX, cycles: 4 },
        0x7E => Instruction { op: Op::Ror, mode: AddressingMode::AbsoluteX, cycles: 7 },
        0x81 => Instruction { op: Op::Sta, mode: AddressingMode::IndirectX, cycles: 6 },
        0x84 => Instruction { op: Op::Sty, mode: AddressingMode::ZeroPage, cycles: 3 },
        0x85 => Instruction { op: Op::Sta, mode: AddressingMode::ZeroPage, cycles: 3 },
        0x86 => Instruction { op: Op::Stx, mode: AddressingMode::ZeroPage, cycles: 3 },
        0x88 => Instruction { op: Op::Dey, mode: AddressingMode::Implied, cycles: 2 },
        0x8A => Instruction { op: Op::Txa, mode: AddressingMode::Implied, cycles: 2 },
        0x8C => Instruction { op: Op::Sty, mode: AddressingMode::Absolute, cycles: 4 },
        0x8D => Instruction { op: Op::Sta, mode: AddressingMode::Absolute, cycles: 4 },
        0x8E => Instruction { op: Op::Stx, mode: AddressingMode::Absolute, cycles: 4 },
        0x90 => Instruction { op: Op::Bcc, mode: AddressingMode::Relative, cycles: 2 },
        0x91 => Instruction { op: Op::Sta, mode: AddressingMode::IndirectY, cycles: 6 },
        0x94 => Instruction { op: Op::Sty, mode: AddressingMode::ZeroPageX, cycles: 4 },
        0x95 => Instruction { op: Op::Sta, mode: AddressingMode::ZeroPageX, cycles: 4 },
        0x96 => Instruction { op: Op::Stx, mode: AddressingMode::ZeroPageY, cycles: 4 },
        0x98 => Instruction { op: Op::Tya, mode: AddressingMode::Implied, cycles: 2 },
        0x99 => Instruction { op: Op::Sta, mode: AddressingMode::AbsoluteY, cycles: 5 },
        0x9A => Instruction { op: Op::Txs, mode: AddressingMode::Implied, cycles: 2 },
        0x9D => Instruction { op: Op::Sta, mode: AddressingMode::AbsoluteX, cycles: 5 },
        0xA0 => Instruction { op: Op::Ldy, mode: AddressingMode::Immediate, cycles: 2 },
        0xA1 => Instruction { op: Op::Lda, mode: AddressingMode::IndirectX, cycles: 6 },
        0xA2 => Instruction { op: Op::Ldx, mode: AddressingMode::Immediate, cycles: 2 },
        0xA4 => Instruction { op: Op::Ldy, mode: AddressingMode::ZeroPage, cycles: 3 },
        0xA5 => Instruction { op: Op::Lda, mode: AddressingMode::ZeroPage, cycles: 3 },
        0xA6 => Instruction { op: Op::Ldx, mode: AddressingMode::ZeroPage, cycles: 3 },
        0xA8 => Instruction { op: Op::Tay, mode: AddressingMode::Implied, cycles: 2 },
        0xA9 => Instruction { op: Op::Lda, mode: AddressingMode::Immediate, cycles: 2 },
        0xAA => Instruction { op: Op::Tax, mode: AddressingMode::Implied, cycles: 2 },
        0xAC => Instruction { op: Op::Ldy, mode: AddressingMode::Absolute, cycles: 4 },
        0xAD => Instruction { op: Op::Lda, mode: AddressingMode::Absolute, cycles: 4 },
        0xAE => Instruction { op: Op::Ldx, mode: AddressingMode::Absolute, cycles: 4 },
        0xB0 => Instruction { op: Op::Bcs, mode: AddressingMode::Relative, cycles: 2 },
        0xB1 => Instruction { op: Op::Lda, mode: AddressingMode::IndirectY, cycles: 5 },
        0xB4 => Instruction { op: Op::Ldy, mode: AddressingMode::ZeroPageX, cycles: 4 },
        0xB5 => Instruction { op: Op::Lda, mode: AddressingMode::ZeroPageX, cycles: 4 },
        0xB6 => Instruction { op: Op::Ldx, mode: AddressingMode::ZeroPageY, cycles: 4 },
        0xB8 => Instruction { op: Op::Clv, mode: AddressingMode::Implied, cycles: 2 },
        0xB9 => Instruction { op: Op::Lda, mode: AddressingMode::AbsoluteY, cycles: 4 },
        0xBA => Instruction { op: Op::Tsx, mode: AddressingMode::Implied, cycles: 2 },
        0xBC => Instruction { op: Op::Ldy, mode: AddressingMode::AbsoluteX, cycles: 4 },
        0xBD => Instruction { op: Op::Lda, mode: AddressingMode::AbsoluteX, cycles: 4 },
        0xBE => Instruction { op: Op::Ldx, mode: AddressingMode::AbsoluteY, cycles: 4 },
        0xC0 => Instruction { op: Op::Cpy, mode: AddressingMode::Immediate, cycles: 2 },
        0xC1 => Instruction { op: Op::Cmp, mode: AddressingMode::IndirectX, cycles: 6 },
        0xC4 => Instruction { op: Op::Cpy, mode: AddressingMode::ZeroPage, cycles: 3 },
        0xC5 => Instruction { op: Op::Cmp, mode: AddressingMode::ZeroPage, cycles: 3 },
        0xC6 => Instruction { op: Op::Dec, mode: AddressingMode::ZeroPage, cycles: 5 },
        0xC8 => Instruction { op: Op::Iny, mode: AddressingMode::Implied, cycles: 2 },
        0xC9 => Instruction { op: Op::Cmp, mode: AddressingMode::Immediate, cycles: 2 },
        0xCA => Instruction { op: Op::Dex, mode: AddressingMode::Implied, cycles: 2 },
        0xCC => Instruction { op: Op::Cpy, mode: AddressingMode::Absolute, cycles: 4 },
        0xCD => Instruction { op: Op::Cmp, mode: AddressingMode::Absolute, cycles: 4 },
        0xCE => Instruction { op: Op::Dec, mode: AddressingMode::Absolute, cycles: 6 },
        0xD0 => Instruction { op: Op::Bne, mode: AddressingMode::Relative, cycles: 2 },
        0xD1 => Instruction { op: Op::Cmp, mode: AddressingMode::IndirectY, cycles: 5 },
        0xD5 => Instruction { op: Op::Cmp, mode: AddressingMode::ZeroPageX, cycles: 4 },
        0xD6 => Instruction { op: Op::Dec, mode: AddressingMode::ZeroPageX, cycles: 6 },
        0xD8 => Instruction { op: Op::Cld, mode: AddressingMode::Implied, cycles: 2 },
        0xD9 => Instruction { op: Op::Cmp, mode: AddressingMode::AbsoluteY, cycles: 4 },
        0xDD => Instruction { op: Op::Cmp, mode: AddressingMode::AbsoluteX, cycles: 4 },
        0xDE => Instruction { op: Op::Dec, mode: AddressingMode::AbsoluteX, cycles: 7 },
        0xE0 => Instruction { op: Op::Cpx, mode: AddressingMode::Immediate, cycles: 2 },
        0xE1 => Instruction { op: Op::Sbc, mode: AddressingMode::IndirectX, cycles: 6 },
        0xE4 => Instruction { op: Op::Cpx, mode: AddressingMode::ZeroPage, cycles: 3 },
        0xE5 => Instruction { op: Op::Sbc, mode: AddressingMode::ZeroPage, cycles: 3 },
        0xE6 => Instruction { op: Op::Inc, mode: AddressingMode::ZeroPage, cycles: 5 },
        0xE8 => Instruction { op: Op::Inx, mode: AddressingMode::Implied, cycles: 2 },
        0xE9 => Instruction { op: Op::Sbc, mode: AddressingMode::Immediate, cycles: 2 },
        0xEA => Instruction { op: Op::Nop, mode: AddressingMode::Implied, cycles: 2 },
        0xEC => Instruction { op: Op::Cpx, mode: AddressingMode::Absolute, cycles: 4 },
        0xED => Instruction { op: Op::Sbc, mode: AddressingMode::Absolute, cycles: 4 },
        0xEE => Instruction { op: Op::Inc, mode: AddressingMode::Absolute, cycles: 6 },
        0xF0 => Instruction { op: Op::Beq, mode: AddressingMode::Relative, cycles: 2 },
        0xF1 => Instruction { op: Op::Sbc, mode: AddressingMode::IndirectY, cycles: 5 },
        0xF5 => Instruction { op: Op::Sbc, mode: AddressingMode::ZeroPageX, cycles: 4 },
        0xF6 => Instruction { op: Op::Inc, mode: AddressingMode::ZeroPageX, cycles: 6 },
        0xF8 => Instruction { op: Op::Sed, mode: AddressingMode::Implied, cycles: 2 },
        0xF9 => Instruction { op: Op::Sbc, mode: AddressingMode::AbsoluteY, cycles: 4 },
        0xFD => Instruction { op: Op::Sbc, mode: AddressingMode::AbsoluteX, cycles: 4 },
        0xFE => Instruction { op: Op::Inc, mode: AddressingMode::AbsoluteX, cycles: 7 },
        _ => Instruction { op: Op::Nop, mode: AddressingMode::Implied, cycles: 2 },
    }
}

/// Every entry of the dispatch table is one the processor can run: in particular no
/// entry asks for a write to an immediate or relative operand.
pub proof fn lemma_table_well_formed(opcode: u8)
    ensures
        well_formed(decode_spec(opcode)),
{
}

fn ins(op: Op, mode: AddressingMode, cycles: u8) -> (r: Instruction)
    ensures
        r == (Instruction { op, mode, cycles }),
{
    Instruction { op, mode, cycles }
}

/// Looks `opcode` up in the dispatch table.
#[verifier::spinoff_prover]
#[verifier::rlimit(100)]
pub fn decode_op(opcode: u8) -> (r: Instruction)
    ensures
        r == decode_spec(opcode),
        well_formed(r),
{
    proof {
        lemma_table_well_formed(opcode);
    }
    match opcode {
        0x00 => ins(Op::Brk, AddressingMode::Implied, 7),
        0x01 => ins(Op::Ora, AddressingMode::IndirectX, 6),
        0x05 => ins(Op::Ora, AddressingMode::ZeroPage, 3),
        0x06 => ins(Op::Asl, AddressingMode::ZeroPage, 5),
        0x08 => ins(Op::Php, AddressingMode::Implied, 3),
        0x09 => ins(Op::Ora, AddressingMode::Immediate, 2),
        0x0A => ins(Op::Asl, AddressingMode::Accumulator, 2),
        0x0D => ins(Op::Ora, AddressingMode::Absolute, 4),
        0x0E => ins(Op::Asl, AddressingMode::Absolute, 6),
        0x10 => ins(Op::Bpl, AddressingMode::Relative, 2),
        0x11 => ins(Op::Ora, AddressingMode::IndirectY, 5),
        0x15 => ins(Op::Ora, AddressingMode::ZeroPageX, 4),
        0x16 => ins(Op::Asl, AddressingMode::ZeroPageX, 6),
        0x18 => ins(Op::Clc, AddressingMode::Implied, 2),
        0x19 => ins(Op::Ora, AddressingMode::AbsoluteY, 4),
        0x1D => ins(Op::Ora, AddressingMode::AbsoluteX, 4),
        0x1E => ins(Op::Asl, AddressingMode::AbsoluteX, 7),
        0x20 => ins(Op::Jsr, AddressingMode::Absolute, 6),
        0x21 => ins(Op::And, AddressingMode::IndirectX, 6),
        0x24 => ins(Op::Bit, AddressingMode::ZeroPage, 3),
        0x25 => ins(Op::And, AddressingMode::ZeroPage, 3),
        0x26 => ins(Op::Rol, AddressingMode::ZeroPage, 5),
        0x28 => ins(Op::Plp, AddressingMode::Implied, 4),
        0x29 => ins(Op::And, AddressingMode::Immediate, 2),
        0x2A => ins(Op::Rol, AddressingMode::Accumulator, 2),
        0x2C => ins(Op::Bit, AddressingMode::Absolute, 4),
        0x2D => ins(Op::And, AddressingMode::Absolute, 4),
        0x2E => ins(Op::Rol, AddressingMode::Absolute, 6),
        0x30 => ins(Op::Bmi, AddressingMode::Relative, 2),
        0x31 => ins(Op::And, AddressingMode::IndirectY, 5),
        0x35 => ins(Op::And, AddressingMode::ZeroPageX, 4),
        0x36 => ins(Op::Rol, AddressingMode::ZeroPageX, 6),
        0x38 => ins(Op::Sec, AddressingMode::Implied, 2),
        0x39 => ins(Op::And, AddressingMode::AbsoluteY, 4),
        0x3D => ins(Op::And, AddressingMode::AbsoluteX, 4),
        0x3E => ins(Op::Rol, AddressingMode::AbsoluteX, 7),
        0x40 => ins(Op::Rti, AddressingMode::Implied, 6),
        0x41 => ins(Op::Eor, AddressingMode::IndirectX, 6),
        0x45 => ins(Op::Eor, AddressingMode::ZeroPage, 3),
        0x46 => ins(Op::Lsr, AddressingMode::ZeroPage, 5),
        0x48 => ins(Op::Pha, AddressingMode::Implied, 3),
        0x49 => ins(Op::Eor, AddressingMode::Immediate, 2),
        0x4A => ins(Op::Lsr, AddressingMode::Accumulator, 2),
        0x4C => ins(Op::Jmp, AddressingMode::Absolute, 3),
        0x4D => ins(Op::Eor, AddressingMode::Absolute, 4),
        0x4E => ins(Op::Lsr, AddressingMode::Absolute, 6),
        0x50 => ins(Op::Bvc, AddressingMode::Relative, 2),
        0x51 => ins(Op::Eor, AddressingMode::IndirectY, 5),
        0x55 => ins(Op::Eor, AddressingMode::ZeroPageX, 4),
        0x56 => ins(Op::Lsr, AddressingMode::ZeroPageX, 6),
        0x58 => ins(Op::Cli, AddressingMode::Implied, 2),
        0x59 => ins(Op::Eor, AddressingMode::AbsoluteY, 4),
        0x5D => ins(Op::Eor, AddressingMode::AbsoluteX, 4),
        0x5E => ins(Op::Lsr, AddressingMode::AbsoluteX, 7),
        0x60 => ins(Op::Rts, AddressingMode::Implied, 6),
        0x61 => ins(Op::Adc, AddressingMode::IndirectX, 6),
        0x65 => ins(Op::Adc, AddressingMode::ZeroPage, 3),
        0x66 => ins(Op::Ror, AddressingMode::ZeroPage, 5),
        0x68 => ins(Op::Pla, AddressingMode::Implied, 4),
        0x69 => ins(Op::Adc, AddressingMode::Immediate, 2),
        0x6A => ins(Op::Ror, AddressingMode::Accumulator, 2),
        0x6C => ins(Op::Jmp, AddressingMode::Indirect, 5),
        0x6D => ins(Op::Adc, AddressingMode::Absolute, 4),
        0x6E => ins(Op::Ror, AddressingMode::Absolute, 6),
        0x70 => ins(Op::Bvs, AddressingMode::Relative, 2),
        0x71 => ins(Op::Adc, AddressingMode::IndirectY, 5),
        0x75 => ins(Op::Adc, AddressingMode::ZeroPageX, 4),
        0x76 => ins(Op::Ror, AddressingMode::ZeroPageX, 6),
        0x78 => ins(Op::Sei, AddressingMode::Implied, 2),
        0x79 => ins(Op::Adc, AddressingMode::AbsoluteY, 4),
        0x7D => ins(Op::Adc, AddressingMode::AbsoluteX, 4),
        0x7E => ins(Op::Ror, AddressingMode::AbsoluteX, 7),
        0x81 => ins(Op::Sta, AddressingMode::IndirectX, 6),
        0x84 => ins(Op::Sty, AddressingMode::ZeroPage, 3),
        0x85 => ins(Op::Sta, AddressingMode::ZeroPage, 3),
        0x86 => ins(Op::Stx, AddressingMode::ZeroPage, 3),
        0x88 => ins(Op::Dey, AddressingMode::Implied, 2),
        0x8A => ins(Op::Txa, AddressingMode::Implied, 2),
        0x8C => ins(Op::Sty, AddressingMode::Absolute, 4),
        0x8D => ins(Op::Sta, AddressingMode::Absolute, 4),
        0x8E => ins(Op::Stx, AddressingMode::Absolute, 4),
        0x90 => ins(Op::Bcc, AddressingMode::Relative, 2),
        0x91 => ins(Op::Sta, AddressingMode::IndirectY, 6),
        0x94 => ins(Op::Sty, AddressingMode::ZeroPageX, 4),
        0x95 => ins(Op::Sta, AddressingMode::ZeroPageX, 4),
        0x96 => ins(Op::Stx, AddressingMode::ZeroPageY, 4),
        0x98 => ins(Op::Tya, AddressingMode::Implied, 2),
        0x99 => ins(Op::Sta, AddressingMode::AbsoluteY, 5),
        0x9A => ins(Op::Txs, AddressingMode::Implied, 2),
        0x9D => ins(Op::Sta, AddressingMode::AbsoluteX, 5),
        0xA0 => ins(Op::Ldy, AddressingMode::Immediate, 2),
        0xA1 => ins(Op::Lda, AddressingMode::IndirectX, 6),
        0xA2 => ins(Op::Ldx, AddressingMode::Immediate, 2),
        0xA4 => ins(Op::Ldy, AddressingMode::ZeroPage, 3),
        0xA5 => ins(Op::Lda, AddressingMode::ZeroPage, 3),
        0xA6 => ins(Op::Ldx, AddressingMode::ZeroPage, 3),
        0xA8 => ins(Op::Tay, AddressingMode::Implied, 2),
        0xA9 => ins(Op::Lda, AddressingMode::Immediate, 2),
        0xAA => ins(Op::Tax, AddressingMode::Implied, 2),
        0xAC => ins(Op::Ldy, AddressingMode::Absolute, 4),
        0xAD => ins(Op::Lda, AddressingMode::Absolute, 4),
        0xAE => ins(Op::Ldx, AddressingMode::Absolute, 4),
        0xB0 => ins(Op::Bcs, AddressingMode::Relative, 2),
        0xB1 => ins(Op::Lda, AddressingMode::IndirectY, 5),
        0xB4 => ins(Op::Ldy, AddressingMode::ZeroPageX, 4),
        0xB5 => ins(Op::Lda, AddressingMode::ZeroPageX, 4),
        0xB6 => ins(Op::Ldx, AddressingMode::ZeroPageY, 4),
        0xB8 => ins(Op::Clv, AddressingMode::Implied, 2),
        0xB9 => ins(Op::Lda, AddressingMode::AbsoluteY, 4),
        0xBA => ins(Op::Tsx, AddressingMode::Implied, 2),
        0xBC => ins(Op::Ldy, AddressingMode::AbsoluteX, 4),
        0xBD => ins(Op::Lda, AddressingMode::AbsoluteX, 4),
        0xBE => ins(Op::Ldx, AddressingMode::AbsoluteY, 4),
        0xC0 => ins(Op::Cpy, AddressingMode::Immediate, 2),
        0xC1 => ins(Op::Cmp, AddressingMode::IndirectX, 6),
        0xC4 => ins(Op::Cpy, AddressingMode::ZeroPage, 3),
        0xC5 => ins(Op::Cmp, AddressingMode::ZeroPage, 3),
        0xC6 => ins(Op::Dec, AddressingMode::ZeroPage, 5),
        0xC8 => ins(Op::Iny, AddressingMode::Implied, 2),
        0xC9 => ins(Op::Cmp, AddressingMode::Immediate, 2),
        0xCA => ins(Op::Dex, AddressingMode::Implied, 2),
        0xCC => ins(Op::Cpy, AddressingMode::Absolute, 4),
        0xCD => ins(Op::Cmp, AddressingMode::Absolute, 4),
        0xCE => ins(Op::Dec, AddressingMode::Absolute, 6),
        0xD0 => ins(Op::Bne, AddressingMode::Relative, 2),
        0xD1 => ins(Op::Cmp, AddressingMode::IndirectY, 5),
        0xD5 => ins(Op::Cmp, AddressingMode::ZeroPageX, 4),
        0xD6 => ins(Op::Dec, AddressingMode::ZeroPageX, 6),
        0xD8 => ins(Op::Cld, AddressingMode::Implied, 2),
        0xD9 => ins(Op::Cmp, AddressingMode::AbsoluteY, 4),
        0xDD => ins(Op::Cmp, AddressingMode::AbsoluteX, 4),
        0xDE => ins(Op::Dec, AddressingMode::AbsoluteX, 7),
        0xE0 => ins(Op::Cpx, AddressingMode::Immediate, 2),
        0xE1 => ins(Op::Sbc, AddressingMode::IndirectX, 6),
        0xE4 => ins(Op::Cpx, AddressingMode::ZeroPage, 3),
        0xE5 => ins(Op::Sbc, AddressingMode::ZeroPage, 3),
        0xE6 => ins(Op::Inc, AddressingMode::ZeroPage, 5),
        0xE8 => ins(Op::Inx, AddressingMode::Implied, 2),
        0xE9 => ins(Op::Sbc, AddressingMode::Immediate, 2),
        0xEA => ins(Op::Nop, AddressingMode::Implied, 2),
        0xEC => ins(Op::Cpx, AddressingMode::Absolute, 4),
        0xED => ins(Op::Sbc, AddressingMode::Absolute, 4),
        0xEE => ins(Op::Inc, AddressingMode::Absolute, 6),
        0xF0 => ins(Op::Beq, AddressingMode::Relative, 2),
        0xF1 => ins(Op::Sbc, AddressingMode::IndirectY, 5),
        0xF5 => ins(Op::Sbc, AddressingMode::ZeroPageX, 4),
        0xF6 => ins(Op::Inc, AddressingMode::ZeroPageX, 6),
        0xF8 => ins(Op::Sed, AddressingMode::Implied, 2),
        0xF9 => ins(Op::Sbc, AddressingMode::AbsoluteY, 4),
        0xFD => ins(Op::Sbc, AddressingMode::AbsoluteX, 4),
        0xFE => ins(Op::Inc, AddressingMode::AbsoluteX, 7),
        _ => ins(Op::Nop, AddressingMode::Implied, 2),
    }
}

} // verus!
