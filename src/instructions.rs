use vstd::prelude::*;

use crate::addressing::{branch_target, page_of, signed_of, word, word_of, wrapping_sum, Operand};
use crate::cpu::{high_byte, low_byte, sp_down, sp_up, stack_addr, NesCpu, IRQ_VECTOR};
use crate::opcodes::{is_branch, Op};
use crate::mem::Mem;
use crate::regs::{lemma_update_zero_negative, lemma_with_flag, with_flag, with_zn, Flags, Registers};

verus! {

pub open spec fn carry_in(r: Registers) -> int {
    if r.flag(Flags::Carry) {
        1
    } else {
        0
    }
}

/// `a + v + carry`, before truncation to 8 bits.
pub open spec fn adc_sum(r: Registers, v: u8) -> int {
    r.a as int + v as int + carry_in(r)
}

/// Signed overflow of an addition of `a` and `v` that gave `res`: both inputs have the
/// same sign and the result has the other.
pub open spec fn adc_overflow(a: u8, v: u8, res: u8) -> bool {
    (a ^ res) & (v ^ res) & 0x80 != 0
}

/// The registers after `v` and the carry are added to the accumulator.
pub open spec fn adc_regs(r: Registers, v: u8) -> Registers {
    let sum = adc_sum(r, v);
    let res = (sum % 256) as u8;
    Registers {
        a: res,
        status: with_zn(
            with_flag(with_flag(r.status, Flags::Carry, sum > 255), Flags::Overflow, adc_overflow(r.a, v, res)),
            res,
        ),
        ..r
    }
}

/// The registers after `reg` is compared with `v`: Carry when `reg >= v`, Zero and
/// Negative from `reg - v` modulo 256.
pub open spec fn compare_regs(r: Registers, reg: u8, v: u8) -> Registers {
    Registers {
        status: with_zn(with_flag(r.status, Flags::Carry, reg >= v), ((reg as int + 256 - v as int) % 256) as u8),
        ..r
    }
}

/// The status byte after a shift or rotate that let `carry` out and left `res`.
pub open spec fn shift_status(status: u8, carry: bool, res: u8) -> u8 {
    with_zn(with_flag(status, Flags::Carry, carry), res)
}

pub open spec fn asl_of(v: u8) -> u8 {
    ((v as int * 2) % 256) as u8
}

pub open spec fn lsr_of(v: u8) -> u8 {
    (v as int / 2) as u8
}

pub open spec fn rol_of(v: u8, carry: int) -> u8 {
    ((v as int * 2) % 256 + carry) as u8
}

pub open spec fn ror_of(v: u8, carry: int) -> u8 {
    (v as int / 2 + 128 * carry) as u8
}

pub open spec fn inc_of(v: u8) -> u8 {
    ((v as int + 1) % 256) as u8
}

pub open spec fn dec_of(v: u8) -> u8 {
    ((v as int + 255) % 256) as u8
}

/// The registers after `v` is loaded into the accumulator, with Zero and Negative from it.
pub open spec fn into_a(r: Registers, v: u8) -> Registers {
    Registers { a: v, status: with_zn(r.status, v), ..r }
}

/// The registers after `v` is loaded into X, with Zero and Negative from it.
pub open spec fn into_x(r: Registers, v: u8) -> Registers {
    Registers { x: v, status: with_zn(r.status, v), ..r }
}

/// The registers after `v` is loaded into Y, with Zero and Negative from it.
pub open spec fn into_y(r: Registers, v: u8) -> Registers {
    Registers { y: v, status: with_zn(r.status, v), ..r }
}

/// The registers with `f` set to `on`.
pub open spec fn flag_to(r: Registers, f: Flags, on: bool) -> Registers {
    Registers { status: with_flag(r.status, f, on), ..r }
}

/// Whether the branch `op` is taken with registers `r`.
pub open spec fn branch_taken(op: Op, r: Registers) -> bool {
    match op {
        Op::Bpl => !r.flag(Flags::Negative),
        Op::Bmi => r.flag(Flags::Negative),
        Op::Bvc => !r.flag(Flags::Overflow),
        Op::Bvs => r.flag(Flags::Overflow),
        Op::Bcc => !r.flag(Flags::Carry),
        Op::Bcs => r.flag(Flags::Carry),
        Op::Bne => !r.flag(Flags::Zero),
        _ => r.flag(Flags::Zero),
    }
}

impl<M: Mem> NesCpu<M> {
    /// `post` is this state after a branch on `cond` with offset `offset`, which took
    /// `extra` cycles beyond the base cost.
    pub open spec fn branched(&self, cond: bool, offset: u8, extra: u64, post: Self) -> bool {
        let pc = self.regs.pc;
        let target = wrapping_sum(pc, signed_of(offset) + 0x10000);
        if cond {
            &&& self.regs_become(self.at_pc(target), post)
            &&& extra == if page_of(pc as int) != page_of(target as int) {
                2int
            } else {
                1int
            }
        } else {
            &&& post == *self
            &&& extra == 0
        }
    }

    /// Adds `v` and the carry to the accumulator.
    fn add_to_accumulator(&mut self, v: u8)
        ensures
            old(self).regs_become(adc_regs(old(self).regs, v), *final(self)),
    {
        let a = self.regs.a;
        let carry: u16 = if self.regs.flag_set(Flags::Carry) {
            1
        } else {
            0
        };
        let sum: u16 = a as u16 + v as u16 + carry;
        let result = (sum % 256) as u8;
        self.regs.save_flag(Flags::Carry, sum > 255);
        self.regs.save_flag(Flags::Overflow, (a ^ result) & (v ^ result) & 0x80 != 0);
        self.regs.a = result;
        self.regs.update_zero_negative(result);
    }

    /// Compares `reg` with `v`.
    fn compare(&mut self, reg: u8, v: u8)
        ensures
            old(self).regs_become(compare_regs(old(self).regs, reg, v), *final(self)),
    {
        self.regs.save_flag(Flags::Carry, reg >= v);
        let diff = ((reg as u16 + 256 - v as u16) % 256) as u8;
        self.regs.update_zero_negative(diff);
    }

    /// Add with carry.
    pub fn adc(&mut self, operand: Operand)
        requires
            operand.is_readable(),
        ensures
            old(self).regs_become(adc_regs(old(self).regs, old(self).value_of(operand)), *final(self)),
    {
        let v = self.load(operand);
        self.add_to_accumulator(v);
    }

    /// Subtract with borrow: an addition of the operand's complement.
    pub fn sbc(&mut self, operand: Operand)
        requires
            operand.is_readable(),
        ensures
            old(self).regs_become(adc_regs(old(self).regs, !old(self).value_of(operand)), *final(self)),
    {
        let v = self.load(operand);
        self.add_to_accumulator(!v);
    }

    /// Bitwise and into the accumulator.
    pub fn and(&mut self, operand: Operand)
        requires
            operand.is_readable(),
        ensures
            ({
                let r = old(self).regs.a & old(self).value_of(operand);
                old(self).regs_become(
                    Registers { a: r, status: with_zn(old(self).regs.status, r), ..old(self).regs },
                    *final(self),
                )
            }),
    {
        let val = self.load(operand);
        let result = self.regs.a & val;
        self.regs.a = result;
        self.regs.update_zero_negative(result);
    }

    /// Bitwise or into the accumulator.
    pub fn ora(&mut self, operand: Operand)
        requires
            operand.is_readable(),
        ensures
            ({
                let r = old(self).regs.a | old(self).value_of(operand);
                old(self).regs_become(
                    Registers { a: r, status: with_zn(old(self).regs.status, r), ..old(self).regs },
                    *final(self),
                )
            }),
    {
        let val = self.load(operand);
        let result = self.regs.a | val;
        self.regs.a = result;
        self.regs.update_zero_negative(result);
    }

    /// Bitwise exclusive or into the accumulator.
    pub fn eor(&mut self, operand: Operand)
        requires
            operand.is_readable(),
        ensures
            ({
                let r = old(self).regs.a ^ old(self).value_of(operand);
                old(self).regs_become(
                    Registers { a: r, status: with_zn(old(self).regs.status, r), ..old(self).regs },
                    *final(self),
                )
            }),
    {
        let val = self.load(operand);
        let result = self.regs.a ^ val;
        self.regs.a = result;
        self.regs.update_zero_negative(result);
    }

    /// Bit test: Zero from `A & operand`, Negative and Overflow from bits 7 and 6 of the
    /// operand.
    pub fn bit(&mut self, operand: Operand)
        requires
            operand.is_readable(),
        ensures
            ({
                let v = old(self).value_of(operand);
                let s = with_flag(old(self).regs.status, Flags::Zero, old(self).regs.a & v == 0);
                let s = with_flag(s, Flags::Negative, v & 0x80 != 0);
                let s = with_flag(s, Flags::Overflow, v & 0x40 != 0);
                old(self).regs_become(Registers { status: s, ..old(self).regs }, *final(self))
            }),
    {
        let val = self.load(operand);
        let a = self.regs.a;
        self.regs.save_flag(Flags::Zero, a & val == 0);
        self.regs.save_flag(Flags::Negative, val & 0x80 != 0);
        self.regs.save_flag(Flags::Overflow, val & 0x40 != 0);
    }

    /// Compare with the accumulator.
    pub fn cmp(&mut self, operand: Operand)
        requires
            operand.is_readable(),
        ensures
            old(self).regs_become(
                compare_regs(old(self).regs, old(self).regs.a, old(self).value_of(operand)),
                *final(self),
            ),
    {
        let val = self.load(operand);
        let a = self.regs.a;
        self.compare(a, val);
    }

    /// Compare with X.
    pub fn cpx(&mut self, operand: Operand)
        requires
            operand.is_readable(),
        ensures
            old(self).regs_become(
                compare_regs(old(self).regs, old(self).regs.x, old(self).value_of(operand)),
                *final(self),
            ),
    {
        let val = self.load(operand);
        let x = self.regs.x;
        self.compare(x, val);
    }

    /// Compare with Y.
    pub fn cpy(&mut self, operand: Operand)
        requires
            operand.is_readable(),
        ensures
            old(self).regs_become(
                compare_regs(old(self).regs, old(self).regs.y, old(self).value_of(operand)),
                *final(self),
            ),
    {
        let val = self.load(operand);
        let y = self.regs.y;
        self.compare(y, val);
    }

    /// Load the accumulator.
    pub fn lda(&mut self, operand: Operand)
        requires
            operand.is_readable(),
        ensures
            ({
                let v = old(self).value_of(operand);
                old(self).regs_become(
                    Registers { a: v, status: with_zn(old(self).regs.status, v), ..old(self).regs },
                    *final(self),
                )
            }),
    {
        let val = self.load(operand);
        self.regs.a = val;
        self.regs.update_zero_negative(val);
    }

    /// Load X.
    pub fn ldx(&mut self, operand: Operand)
        requires
            operand.is_readable(),
        ensures
            ({
                let v = old(self).value_of(operand);
                old(self).regs_become(
                    Registers { x: v, status: with_zn(old(self).regs.status, v), ..old(self).regs },
                    *final(self),
                )
            }),
    {
        let val = self.load(operand);
        self.regs.x = val;
        self.regs.update_zero_negative(val);
    }

    /// Load Y.
    pub fn ldy(&mut self, operand: Operand)
        requires
            operand.is_readable(),
        ensures
            ({
                let v = old(self).value_of(operand);
                old(self).regs_become(
                    Registers { y: v, status: with_zn(old(self).regs.status, v), ..old(self).regs },
                    *final(self),
                )
            }),
    {
        let val = self.load(operand);
        self.regs.y = val;
        self.regs.update_zero_negative(val);
    }

    /// Arithmetic shift left, in place.
    pub fn asl(&mut self, operand: Operand)
        requires
            operand.is_writable(),
        ensures
            ({
                let v = old(self).value_of(operand);
                old(self).writes_back(
                    operand,
                    asl_of(v),
                    shift_status(old(self).regs.status, v >= 128, asl_of(v)),
                    *final(self),
                )
            }),
    {
        let old_val = self.load(operand);
        let new_val = ((old_val as u16 * 2) % 256) as u8;
        self.regs.save_flag(Flags::Carry, old_val >= 128);
        self.regs.update_zero_negative(new_val);
        self.store(operand, new_val);
    }

    /// Logical shift right, in place.
    pub fn lsr(&mut self, operand: Operand)
        requires
            operand.is_writable(),
        ensures
            ({
                let v = old(self).value_of(operand);
                old(self).writes_back(
                    operand,
                    lsr_of(v),
                    shift_status(old(self).regs.status, v % 2 == 1, lsr_of(v)),
                    *final(self),
                )
            }),
    {
        let val = self.load(operand);
        let new_val = val / 2;
        self.regs.save_flag(Flags::Carry, val % 2 == 1);
        self.regs.update_zero_negative(new_val);
        self.store(operand, new_val);
    }

    /// Rotate left through the carry, in place.
    pub fn rol(&mut self, operand: Operand)
        requires
            operand.is_writable(),
        ensures
            ({
                let v = old(self).value_of(operand);
                let r = rol_of(v, carry_in(old(self).regs));
                old(self).writes_back(operand, r, shift_status(old(self).regs.status, v >= 128, r), *final(self))
            }),
    {
        let val = self.load(operand);
        let carry: u16 = if self.regs.flag_set(Flags::Carry) {
            1
        } else {
            0
        };
        let new_val = ((val as u16 * 2) % 256 + carry) as u8;
        self.regs.save_flag(Flags::Carry, val >= 128);
        self.regs.update_zero_negative(new_val);
        self.store(operand, new_val);
    }

    /// Rotate right through the carry, in place.
    pub fn ror(&mut self, operand: Operand)
        requires
            operand.is_writable(),
        ensures
            ({
                let v = old(self).value_of(operand);
                let r = ror_of(v, carry_in(old(self).regs));
                old(self).writes_back(operand, r, shift_status(old(self).regs.status, v % 2 == 1, r), *final(self))
            }),
    {
        let val = self.load(operand);
        let carry: u16 = if self.regs.flag_set(Flags::Carry) {
            1
        } else {
            0
        };
        let new_val = (val as u16 / 2 + 128 * carry) as u8;
        self.regs.save_flag(Flags::Carry, val % 2 == 1);
        self.regs.update_zero_negative(new_val);
        self.store(operand, new_val);
    }

    /// Increment memory, wrapping 0xFF to 0x00.
    pub fn inc(&mut self, operand: Operand)
        requires
            operand is Memory,
        ensures
            ({
                let r = inc_of(old(self).value_of(operand));
                old(self).writes_back(operand, r, with_zn(old(self).regs.status, r), *final(self))
            }),
    {
        let val = ((self.load(operand) as u16 + 1) % 256) as u8;
        self.regs.update_zero_negative(val);
        self.store(operand, val);
    }

    /// Decrement memory, wrapping 0x00 to 0xFF.
    pub fn dec(&mut self, operand: Operand)
        requires
            operand is Memory,
        ensures
            ({
                let r = dec_of(old(self).value_of(operand));
                old(self).writes_back(operand, r, with_zn(old(self).regs.status, r), *final(self))
            }),
    {
        let val = ((self.load(operand) as u16 + 255) % 256) as u8;
        self.regs.update_zero_negative(val);
        self.store(operand, val);
    }

    /// Store the accumulator.
    pub fn sta(&mut self, operand: Operand)
        requires
            operand is Memory,
        ensures
            old(self).writes_back(operand, old(self).regs.a, old(self).regs.status, *final(self)),
    {
        let a = self.regs.a;
        self.store(operand, a);
    }

    /// Store X.
    pub fn stx(&mut self, operand: Operand)
        requires
            operand is Memory,
        ensures
            old(self).writes_back(operand, old(self).regs.x, old(self).regs.status, *final(self)),
    {
        let x = self.regs.x;
        self.store(operand, x);
    }

    /// Store Y.
    pub fn sty(&mut self, operand: Operand)
        requires
            operand is Memory,
        ensures
            old(self).writes_back(operand, old(self).regs.y, old(self).regs.status, *final(self)),
    {
        let y = self.regs.y;
        self.store(operand, y);
    }
}


impl<M: Mem> NesCpu<M> {
    /// Increment X, wrapping 0xFF to 0x00.
    pub fn inx(&mut self)
        ensures
            ({
                let v = inc_of(old(self).regs.x);
                old(self).regs_become(
                    Registers { x: v, status: with_zn(old(self).regs.status, v), ..old(self).regs },
                    *final(self),
                )
            }),
    {
        let val = ((self.regs.x as u16 + 1) % 256) as u8;
        self.regs.x = val;
        self.regs.update_zero_negative(val);
    }

    /// Increment Y, wrapping 0xFF to 0x00.
    pub fn iny(&mut self)
        ensures
            ({
                let v = inc_of(old(self).regs.y);
                old(self).regs_become(
                    Registers { y: v, status: with_zn(old(self).regs.status, v), ..old(self).regs },
                    *final(self),
                )
            }),
    {
        let val = ((self.regs.y as u16 + 1) % 256) as u8;
        self.regs.y = val;
        self.regs.update_zero_negative(val);
    }

    /// Decrement X, wrapping 0x00 to 0xFF.
    pub fn dex(&mut self)
        ensures
            ({
                let v = dec_of(old(self).regs.x);
                old(self).regs_become(
                    Registers { x: v, status: with_zn(old(self).regs.status, v), ..old(self).regs },
                    *final(self),
                )
            }),
    {
        let val = ((self.regs.x as u16 + 255) % 256) as u8;
        self.regs.x = val;
        self.regs.update_zero_negative(val);
    }

    /// Decrement Y, wrapping 0x00 to 0xFF.
    pub fn dey(&mut self)
        ensures
            ({
                let v = dec_of(old(self).regs.y);
                old(self).regs_become(
                    Registers { y: v, status: with_zn(old(self).regs.status, v), ..old(self).regs },
                    *final(self),
                )
            }),
    {
        let val = ((self.regs.y as u16 + 255) % 256) as u8;
        self.regs.y = val;
        self.regs.update_zero_negative(val);
    }

    /// Transfer A to X.
    pub fn tax(&mut self)
        ensures
            ({
                let v = old(self).regs.a;
                old(self).regs_become(
                    Registers { x: v, status: with_zn(old(self).regs.status, v), ..old(self).regs },
                    *final(self),
                )
            }),
    {
        let v = self.regs.a;
        self.regs.x = v;
        self.regs.update_zero_negative(v);
    }

    /// Transfer X to A.
    pub fn txa(&mut self)
        ensures
            ({
                let v = old(self).regs.x;
                old(self).regs_become(
                    Registers { a: v, status: with_zn(old(self).regs.status, v), ..old(self).regs },
                    *final(self),
                )
            }),
    {
        let v = self.regs.x;
        self.regs.a = v;
        self.regs.update_zero_negative(v);
    }

    /// Transfer A to Y.
    pub fn tay(&mut self)
        ensures
            ({
                let v = old(self).regs.a;
                old(self).regs_become(
                    Registers { y: v, status: with_zn(old(self).regs.status, v), ..old(self).regs },
                    *final(self),
                )
            }),
    {
        let v = self.regs.a;
        self.regs.y = v;
        self.regs.update_zero_negative(v);
    }

    /// Transfer Y to A.
    pub fn tya(&mut self)
        ensures
            ({
                let v = old(self).regs.y;
                old(self).regs_become(
                    Registers { a: v, status: with_zn(old(self).regs.status, v), ..old(self).regs },
                    *final(self),
                )
            }),
    {
        let v = self.regs.y;
        self.regs.a = v;
        self.regs.update_zero_negative(v);
    }

    /// Transfer the stack pointer to X.
    pub fn tsx(&mut self)
        ensures
            ({
                let v = old(self).regs.sp;
                old(self).regs_become(
                    Registers { x: v, status: with_zn(old(self).regs.status, v), ..old(self).regs },
                    *final(self),
                )
            }),
    {
        let v = self.regs.sp;
        self.regs.x = v;
        self.regs.update_zero_negative(v);
    }

    /// Clear carry.
    pub fn clc(&mut self)
        ensures
            old(self).regs_become(
                (Registers { status: with_flag(old(self).regs.status, Flags::Carry, false), ..old(self).regs }),
                *final(self),
            ),
    {
        self.regs.save_flag(Flags::Carry, false);
    }

    /// Set carry.
    pub fn sec(&mut self)
        ensures
            old(self).regs_become(
                (Registers { status: with_flag(old(self).regs.status, Flags::Carry, true), ..old(self).regs }),
                *final(self),
            ),
    {
        self.regs.save_flag(Flags::Carry, true);
    }

    /// Clear interrupt disable.
    pub fn cli(&mut self)
        ensures
            old(self).regs_become(
                (Registers { status: with_flag(old(self).regs.status, Flags::Interrupt, false), ..old(self).regs }),
                *final(self),
            ),
    {
        self.regs.save_flag(Flags::Interrupt, false);
    }

    /// Set interrupt disable.
    pub fn sei(&mut self)
        ensures
            old(self).regs_become(
                (Registers { status: with_flag(old(self).regs.status, Flags::Interrupt, true), ..old(self).regs }),
                *final(self),
            ),
    {
        self.regs.save_flag(Flags::Interrupt, true);
    }

    /// Clear overflow.
    pub fn clv(&mut self)
        ensures
            old(self).regs_become(
                (Registers { status: with_flag(old(self).regs.status, Flags::Overflow, false), ..old(self).regs }),
                *final(self),
            ),
    {
        self.regs.save_flag(Flags::Overflow, false);
    }

    /// Clear decimal.
    pub fn cld(&mut self)
        ensures
            old(self).regs_become(
                (Registers { status: with_flag(old(self).regs.status, Flags::Decimal, false), ..old(self).regs }),
                *final(self),
            ),
    {
        self.regs.save_flag(Flags::Decimal, false);
    }

    /// Set decimal.
    pub fn sed(&mut self)
        ensures
            old(self).regs_become(
                (Registers { status: with_flag(old(self).regs.status, Flags::Decimal, true), ..old(self).regs }),
                *final(self),
            ),
    {
        self.regs.save_flag(Flags::Decimal, true);
    }

    /// Transfer X to the stack pointer; no flag changes.
    pub fn txs(&mut self)
        ensures
            old(self).regs_become((Registers { sp: old(self).regs.x, ..old(self).regs }), *final(self)),
    {
        self.regs.sp = self.regs.x;
    }

    /// No operation.
    pub fn nop(&mut self)
        ensures
            *final(self) == *old(self),
    {
    }

    /// Branches by the offset in `operand` when `taken`, and says how many cycles that
    /// added: one for a taken branch, and one more when the target lies on another page
    /// than the next instruction.
    pub fn try_branch(&mut self, taken: bool, operand: Operand) -> (extra: u64)
        requires
            operand is Relative,
        ensures
            old(self).branched(taken, operand->Relative_0, extra, *final(self)),
    {
        if taken {
            let offset = match operand {
                Operand::Relative(o) => o,
                _ => 0,
            };
            let (target, crossed) = branch_target(self.regs.pc, offset);
            self.regs.pc = target;
            if crossed {
                2
            } else {
                1
            }
        } else {
            0
        }
    }

    /// Branch on plus.
    pub fn bpl(&mut self, operand: Operand) -> (extra: u64)
        requires
            operand is Relative,
        ensures
            old(self).branched(!old(self).regs.flag(Flags::Negative), operand->Relative_0, extra, *final(self)),
    {
        let taken = !self.regs.flag_set(Flags::Negative);
        self.try_branch(taken, operand)
    }

    /// Branch on minus.
    pub fn bmi(&mut self, operand: Operand) -> (extra: u64)
        requires
            operand is Relative,
        ensures
            old(self).branched(old(self).regs.flag(Flags::Negative), operand->Relative_0, extra, *final(self)),
    {
        let taken = self.regs.flag_set(Flags::Negative);
        self.try_branch(taken, operand)
    }

    /// Branch on overflow clear.
    pub fn bvc(&mut self, operand: Operand) -> (extra: u64)
        requires
            operand is Relative,
        ensures
            old(self).branched(!old(self).regs.flag(Flags::Overflow), operand->Relative_0, extra, *final(self)),
    {
        let taken = !self.regs.flag_set(Flags::Overflow);
        self.try_branch(taken, operand)
    }

    /// Branch on overflow set.
    pub fn bvs(&mut self, operand: Operand) -> (extra: u64)
        requires
            operand is Relative,
        ensures
            old(self).branched(old(self).regs.flag(Flags::Overflow), operand->Relative_0, extra, *final(self)),
    {
        let taken = self.regs.flag_set(Flags::Overflow);
        self.try_branch(taken, operand)
    }

    /// Branch on carry clear.
    pub fn bcc(&mut self, operand: Operand) -> (extra: u64)
        requires
            operand is Relative,
        ensures
            old(self).branched(!old(self).regs.flag(Flags::Carry), operand->Relative_0, extra, *final(self)),
    {
        let taken = !self.regs.flag_set(Flags::Carry);
        self.try_branch(taken, operand)
    }

    /// Branch on carry set.
    pub fn bcs(&mut self, operand: Operand) -> (extra: u64)
        requires
            operand is Relative,
        ensures
            old(self).branched(old(self).regs.flag(Flags::Carry), operand->Relative_0, extra, *final(self)),
    {
        let taken = self.regs.flag_set(Flags::Carry);
        self.try_branch(taken, operand)
    }

    /// Branch on not equal.
    pub fn bne(&mut self, operand: Operand) -> (extra: u64)
        requires
            operand is Relative,
        ensures
            old(self).branched(!old(self).regs.flag(Flags::Zero), operand->Relative_0, extra, *final(self)),
    {
        let taken = !self.regs.flag_set(Flags::Zero);
        self.try_branch(taken, operand)
    }

    /// Branch on equal.
    pub fn beq(&mut self, operand: Operand) -> (extra: u64)
        requires
            operand is Relative,
        ensures
            old(self).branched(old(self).regs.flag(Flags::Zero), operand->Relative_0, extra, *final(self)),
    {
        let taken = self.regs.flag_set(Flags::Zero);
        self.try_branch(taken, operand)
    }

    /// Jump to the effective address.
    pub fn jmp(&mut self, operand: Operand)
        requires
            operand is Memory,
        ensures
            old(self).regs_become(old(self).at_pc(operand->Memory_0), *final(self)),
    {
        if let Operand::Memory(addr) = operand {
            self.regs.pc = addr;
        }
    }

    /// Jump to a subroutine: pushes the address of the instruction's last byte, high
    /// byte first, then jumps.
    pub fn jsr(&mut self, operand: Operand)
        requires
            operand is Memory,
        ensures
            ({
                let ret = wrapping_sum(old(self).regs.pc, 0xFFFF);
                old(self).pushed_two(
                    high_byte(ret),
                    low_byte(ret),
                    old(self).at_pc(operand->Memory_0),
                    *final(self),
                )
            }),
    {
        let ret = ((self.regs.pc as u32 + 0xFFFF) % 0x10000) as u16;
        self.push((ret / 256) as u8);
        let ghost m = self.mem;
        self.push((ret % 256) as u8);
        if let Operand::Memory(addr) = operand {
            self.regs.pc = addr;
        }
        assert(old(self).mem.written(stack_addr(old(self).regs.sp), high_byte(ret), m));
    }

    /// Return from a subroutine: pops the return address, low byte first, and goes to
    /// the byte after it.
    pub fn rts(&mut self)
        ensures
            ({
                let sp1 = sp_up(old(self).regs.sp);
                let sp2 = sp_up(sp1);
                let ret = word_of(old(self).peek(stack_addr(sp1)), old(self).peek(stack_addr(sp2)));
                old(self).regs_become(
                    (Registers { pc: wrapping_sum(ret, 1), sp: sp2, ..old(self).regs }),
                    *final(self),
                )
            }),
    {
        let lo = self.pop();
        let hi = self.pop();
        self.regs.pc = ((word(lo, hi) as u32 + 1) % 0x10000) as u16;
    }

    /// Return from an interrupt: pops the status byte, then the return address.
    pub fn rti(&mut self)
        ensures
            ({
                let sp1 = sp_up(old(self).regs.sp);
                let sp2 = sp_up(sp1);
                let sp3 = sp_up(sp2);
                old(self).regs_become(
                    (Registers {
                        status: old(self).peek(stack_addr(sp1)),
                        pc: word_of(old(self).peek(stack_addr(sp2)), old(self).peek(stack_addr(sp3))),
                        sp: sp3,
                        ..old(self).regs
                    }),
                    *final(self),
                )
            }),
    {
        let status = self.pop();
        let lo = self.pop();
        let hi = self.pop();
        self.regs.status = status;
        self.regs.pc = word(lo, hi);
    }

    /// Software interrupt: skips the padding byte after the opcode, pushes that return
    /// address and the status byte with Break set in the pushed copy only, and enters
    /// the handler stored at the interrupt-request vector.
    pub fn brk(&mut self)
        ensures
            old(self).enters_handler(
                wrapping_sum(old(self).regs.pc, 1),
                with_flag(old(self).regs.status, Flags::Break, true),
                IRQ_VECTOR,
                *final(self),
            ),
            final(self).nmi_pending == old(self).nmi_pending,
            final(self).irq_line == old(self).irq_line,
    {
        let ret = ((self.regs.pc as u32 + 1) % 0x10000) as u16;
        let status = self.regs.status | Flags::Break.mask();
        self.enter_handler(ret, status, IRQ_VECTOR);
    }

    /// Push the accumulator.
    pub fn pha(&mut self)
        ensures
            old(self).mem.written(stack_addr(old(self).regs.sp), old(self).regs.a, final(self).mem),
            final(self).regs == (Registers { sp: sp_down(old(self).regs.sp), ..old(self).regs }),
            old(self).lines_kept(*final(self)),
    {
        let a = self.regs.a;
        self.push(a);
    }

    /// Push the status byte, every bit as it is.
    pub fn php(&mut self)
        ensures
            old(self).mem.written(stack_addr(old(self).regs.sp), old(self).regs.status, final(self).mem),
            final(self).regs == (Registers { sp: sp_down(old(self).regs.sp), ..old(self).regs }),
            old(self).lines_kept(*final(self)),
    {
        let p = self.regs.status;
        self.push(p);
    }

    /// Pop the accumulator.
    pub fn pla(&mut self)
        ensures
            ({
                let sp = sp_up(old(self).regs.sp);
                let v = old(self).peek(stack_addr(sp));
                old(self).regs_become(
                    (Registers { a: v, sp, status: with_zn(old(self).regs.status, v), ..old(self).regs }),
                    *final(self),
                )
            }),
    {
        let a = self.pop();
        self.regs.a = a;
        self.regs.update_zero_negative(a);
    }

    /// Pop the status byte, every bit as it was pushed.
    pub fn plp(&mut self)
        ensures
            ({
                let sp = sp_up(old(self).regs.sp);
                old(self).regs_become(
                    (Registers { status: old(self).peek(stack_addr(sp)), sp, ..old(self).regs }),
                    *final(self),
                )
            }),
    {
        let p = self.pop();
        self.regs.status = p;
    }
}

impl<M: Mem> NesCpu<M> {
    /// `post` is this state after `op` ran on `operand`, taking `extra` cycles beyond its
    /// base cost.
    pub open spec fn performs(&self, op: Op, operand: Operand, extra: u64, post: Self) -> bool {
        let r = self.regs;
        let v = self.value_of(operand);
        let sp1 = sp_up(r.sp);
        let sp2 = sp_up(sp1);
        let sp3 = sp_up(sp2);
        if is_branch(op) {
            self.branched(branch_taken(op, r), operand->Relative_0, extra, post)
        } else {
            &&& extra == 0
            &&& match op {
                Op::Adc => self.regs_become(adc_regs(r, v), post),
                Op::Sbc => self.regs_become(adc_regs(r, !v), post),
                Op::And => self.regs_become(into_a(r, r.a & v), post),
                Op::Ora => self.regs_become(into_a(r, r.a | v), post),
                Op::Eor => self.regs_become(into_a(r, r.a ^ v), post),
                Op::Bit => self.regs_become(
                    flag_to(
                        flag_to(flag_to(r, Flags::Zero, r.a & v == 0), Flags::Negative, v & 0x80 != 0),
                        Flags::Overflow,
                        v & 0x40 != 0,
                    ),
                    post,
                ),
                Op::Cmp => self.regs_become(compare_regs(r, r.a, v), post),
                Op::Cpx => self.regs_become(compare_regs(r, r.x, v), post),
                Op::Cpy => self.regs_become(compare_regs(r, r.y, v), post),
                Op::Lda => self.regs_become(into_a(r, v), post),
                Op::Ldx => self.regs_become(into_x(r, v), post),
                Op::Ldy => self.regs_become(into_y(r, v), post),
                Op::Asl => self.writes_back(operand, asl_of(v), shift_status(r.status, v >= 128, asl_of(v)), post),
                Op::Lsr => self.writes_back(operand, lsr_of(v), shift_status(r.status, v % 2 == 1, lsr_of(v)), post),
                Op::Rol => self.writes_back(
                    operand,
                    rol_of(v, carry_in(r)),
                    shift_status(r.status, v >= 128, rol_of(v, carry_in(r))),
                    post,
                ),
                Op::Ror => self.writes_back(
                    operand,
                    ror_of(v, carry_in(r)),
                    shift_status(r.status, v % 2 == 1, ror_of(v, carry_in(r))),
                    post,
                ),
                Op::Inc => self.writes_back(operand, inc_of(v), with_zn(r.status, inc_of(v)), post),
                Op::Dec => self.writes_back(operand, dec_of(v), with_zn(r.status, dec_of(v)), post),
                Op::Sta => self.writes_back(operand, r.a, r.status, post),
                Op::Stx => self.writes_back(operand, r.x, r.status, post),
                Op::Sty => self.writes_back(operand, r.y, r.status, post),
                Op::Inx => self.regs_become(into_x(r, inc_of(r.x)), post),
                Op::Iny => self.regs_become(into_y(r, inc_of(r.y)), post),
                Op::Dex => self.regs_become(into_x(r, dec_of(r.x)), post),
                Op::Dey => self.regs_become(into_y(r, dec_of(r.y)), post),
                Op::Tax => self.regs_become(into_x(r, r.a), post),
                Op::Txa => self.regs_become(into_a(r, r.x), post),
                Op::Tay => self.regs_become(into_y(r, r.a), post),
                Op::Tya => self.regs_become(into_a(r, r.y), post),
                Op::Tsx => self.regs_become(into_x(r, r.sp), post),
                Op::Txs => self.regs_become(Registers { sp: r.x, ..r }, post),
                Op::Clc => self.regs_become(flag_to(r, Flags::Carry, false), post),
                Op::Sec => self.regs_become(flag_to(r, Flags::Carry, true), post),
                Op::Cli => self.regs_become(flag_to(r, Flags::Interrupt, false), post),
                Op::Sei => self.regs_become(flag_to(r, Flags::Interrupt, true), post),
                Op::Clv => self.regs_become(flag_to(r, Flags::Overflow, false), post),
                Op::Cld => self.regs_become(flag_to(r, Flags::Decimal, false), post),
                Op::Sed => self.regs_become(flag_to(r, Flags::Decimal, true), post),
                Op::Nop => post == *self,
                Op::Jmp => self.regs_become(self.at_pc(operand->Memory_0), post),
                Op::Jsr => {
                    let ret = wrapping_sum(r.pc, 0xFFFF);
                    self.pushed_two(high_byte(ret), low_byte(ret), self.at_pc(operand->Memory_0), post)
                },
                Op::Rts => self.regs_become(
                    Registers {
                        pc: wrapping_sum(word_of(self.peek(stack_addr(sp1)), self.peek(stack_addr(sp2))), 1),
                        sp: sp2,
                        ..r
                    },
                    post,
                ),
                Op::Rti => self.regs_become(
                    Registers {
                        status: self.peek(stack_addr(sp1)),
                        pc: word_of(self.peek(stack_addr(sp2)), self.peek(stack_addr(sp3))),
                        sp: sp3,
                        ..r
                    },
                    post,
                ),
                Op::Brk => {
                    &&& self.enters_handler(
                        wrapping_sum(r.pc, 1),
                        with_flag(r.status, Flags::Break, true),
                        IRQ_VECTOR,
                        post,
                    )
                    &&& post.nmi_pending == self.nmi_pending
                    &&& post.irq_line == self.irq_line
                },
                Op::Pha => {
                    &&& self.mem.written(stack_addr(r.sp), r.a, post.mem)
                    &&& post.regs == (Registers { sp: sp_down(r.sp), ..r })
                    &&& self.lines_kept(post)
                },
                Op::Php => {
                    &&& self.mem.written(stack_addr(r.sp), r.status, post.mem)
                    &&& post.regs == (Registers { sp: sp_down(r.sp), ..r })
                    &&& self.lines_kept(post)
                },
                Op::Pla => self.regs_become(Registers { sp: sp1, ..into_a(r, self.peek(stack_addr(sp1))) }, post),
                Op::Plp => self.regs_become(Registers { status: self.peek(stack_addr(sp1)), sp: sp1, ..r }, post),
                _ => false,
            }
        }
    }
}

proof fn lemma_sign_bits(a: u8, v: u8, res: u8)
    by (bit_vector)
    ensures
        ((a ^ res) & (v ^ res) & 0x80 != 0) == (((a >= 128) == (v >= 128)) && ((res >= 128) != (a
            >= 128))),
        (res & 0x80 != 0) == (res >= 128),
{
}

/// Addition with carry, on every accumulator `r.a`, operand `v` and carry-in: the
/// accumulator becomes the sum modulo 256; Carry is set exactly when the unsigned sum
/// exceeds 0xFF; Overflow exactly when the sum of the operands read as signed bytes lies
/// outside -128..=127; Zero and Negative come from the truncated result.
pub proof fn lemma_adc_truth_table(r: Registers, v: u8)
    ensures
        ({
            let post = adc_regs(r, v);
            let sum = r.a as int + v as int + carry_in(r);
            let signed_sum = signed_of(r.a) + signed_of(v) + carry_in(r);
            &&& post.a == sum % 256
            &&& post.flag(Flags::Carry) == (sum > 255)
            &&& post.flag(Flags::Overflow) == (signed_sum < -128 || signed_sum > 127)
            &&& post.flag(Flags::Zero) == (post.a == 0)
            &&& post.flag(Flags::Negative) == (post.a >= 128)
            &&& post.x == r.x && post.y == r.y && post.pc == r.pc && post.sp == r.sp
        }),
{
    let sum = adc_sum(r, v);
    let res = (sum % 256) as u8;
    let ovf = adc_overflow(r.a, v, res);
    let s1 = with_flag(r.status, Flags::Carry, sum > 255);
    let s2 = with_flag(s1, Flags::Overflow, ovf);
    lemma_sign_bits(r.a, v, res);
    lemma_update_zero_negative(s2, res, Flags::Carry);
    lemma_update_zero_negative(s2, res, Flags::Overflow);
    lemma_with_flag(s1, Flags::Overflow, ovf, Flags::Carry);
    lemma_with_flag(s1, Flags::Overflow, ovf, Flags::Overflow);
    lemma_with_flag(r.status, Flags::Carry, sum > 255, Flags::Carry);
    assert(res as int == sum % 256);
    if sum >= 256 {
        assert(res as int == sum - 256);
    } else {
        assert(res as int == sum);
    }
}

/// Comparison, on every register value `reg` and operand `v`, never fails: Carry is set
/// exactly when `reg >= v`, Zero exactly when they are equal, and Negative is bit 7 of
/// `reg - v` taken modulo 256. The other registers are kept.
pub proof fn lemma_compare_flags(r: Registers, reg: u8, v: u8)
    ensures
        ({
            let post = compare_regs(r, reg, v);
            let diff = (reg as int - v as int + 256) % 256;
            &&& post.flag(Flags::Carry) == (reg >= v)
            &&& post.flag(Flags::Zero) == (reg == v)
            &&& post.flag(Flags::Negative) == (diff >= 128)
            &&& post.a == r.a && post.x == r.x && post.y == r.y && post.pc == r.pc && post.sp == r.sp
        }),
{
    let diff = ((reg as int + 256 - v as int) % 256) as u8;
    let s1 = with_flag(r.status, Flags::Carry, reg >= v);
    lemma_sign_bits(0, 0, diff);
    lemma_update_zero_negative(s1, diff, Flags::Carry);
    lemma_with_flag(r.status, Flags::Carry, reg >= v, Flags::Carry);
}

} // verus!
