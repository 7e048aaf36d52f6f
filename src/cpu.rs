use vstd::prelude::*;

use crate::addressing::{
    absolute_indexed, indirect_high, indirect_high_address, operand_len, page_of, word, word_of,
    wrapping_sum, zero_page_indexed, zero_page_sum, AddressingMode, Operand, Resolved,
};
use crate::mem::Mem;
use crate::opcodes::{
    cycles_of, decode_op, decode_spec, instruction_cycles, is_branch, modifies_operand,
    reads_operand, stores_operand, Op,
};
use crate::regs::{with_flag, Flags, Registers};

verus! {

/// Where the handler address of a non-maskable interrupt is stored.
pub const NMI_VECTOR: u16 = 0xFFFA;

/// Where the start address is stored.
pub const RESET_VECTOR: u16 = 0xFFFC;

/// Where the handler address of an interrupt request or a BRK is stored.
pub const IRQ_VECTOR: u16 = 0xFFFE;

/// Cycles taken to enter an interrupt handler.
pub const INTERRUPT_CYCLES: u64 = 7;

/// The most cycles that one instruction, or one entry into a handler, takes.
pub const MAX_STEP_CYCLES: u64 = 7;

/// Stack pointer after power-on.
pub const POWER_ON_SP: u8 = 0xFD;

/// Status byte after power-on: interrupts disabled, and the unused bit 5 set.
pub const POWER_ON_STATUS: u8 = 0x24;

/// The address of the stack slot at `sp`.
pub open spec fn stack_addr(sp: u8) -> u16 {
    (0x0100 + sp as int) as u16
}

/// The stack pointer after one push.
pub open spec fn sp_down(sp: u8) -> u8 {
    ((sp as int + 255) % 256) as u8
}

/// The stack pointer after one pop.
pub open spec fn sp_up(sp: u8) -> u8 {
    ((sp as int + 1) % 256) as u8
}

pub open spec fn high_byte(w: u16) -> u8 {
    (w as int / 256) as u8
}

pub open spec fn low_byte(w: u16) -> u8 {
    (w as int % 256) as u8
}

/// An absolute indexed effective address, and whether it left the base's page.
pub open spec fn indexed_spec(base: u16, index: u8) -> Resolved {
    let addr = wrapping_sum(base, index as int);
    Resolved {
        operand: Operand::Memory(addr),
        page_crossed: page_of(base as int) != page_of(addr as int),
    }
}

/// The processor: its registers, its cycle counter, its interrupt lines, and the bus it
/// drives.
pub struct NesCpu<M: Mem> {
    /// Cycles run since power-on.
    pub clock: u64,
    pub regs: Registers,
    pub mem: M,
    /// A non-maskable interrupt is waiting to be taken.
    pub nmi_pending: bool,
    /// The interrupt-request line is held active.
    pub irq_line: bool,
}

impl<M: Mem> NesCpu<M> {
    pub open spec fn peek(&self, addr: u16) -> u8 {
        self.mem.peek(addr)
    }

    /// The little-endian word at `addr`.
    pub open spec fn peek_word(&self, addr: u16) -> u16 {
        word_of(self.peek(addr), self.peek(wrapping_sum(addr, 1)))
    }

    /// The little-endian word at `ptr` in page 0, its high byte wrapping within page 0.
    pub open spec fn peek_zp_word(&self, ptr: u8) -> u16 {
        word_of(self.peek(ptr as u16), self.peek(zero_page_sum(ptr, 1)))
    }

    /// `post` keeps this state's clock and interrupt lines.
    pub open spec fn lines_kept(&self, post: Self) -> bool {
        &&& post.clock == self.clock
        &&& post.nmi_pending == self.nmi_pending
        &&& post.irq_line == self.irq_line
    }

    /// `post` is this state with its registers replaced by `regs`.
    pub open spec fn regs_become(&self, regs: Registers, post: Self) -> bool {
        &&& self.lines_kept(post)
        &&& post.mem == self.mem
        &&& post.regs == regs
    }

    /// This state's registers with the program counter at `pc`.
    pub open spec fn at_pc(&self, pc: u16) -> Registers {
        Registers { pc, ..self.regs }
    }

    /// What addressing mode `mode` resolves to, the program counter pointing at the
    /// first operand byte.
    pub open spec fn resolve_spec(&self, mode: AddressingMode) -> Resolved {
        let pc = self.regs.pc;
        let b = self.peek(pc);
        let w = self.peek_word(pc);
        let plain = |operand: Operand| Resolved { operand, page_crossed: false };
        match mode {
            AddressingMode::Implied => plain(Operand::Implied),
            AddressingMode::Accumulator => plain(Operand::Accumulator),
            AddressingMode::Immediate => plain(Operand::Immediate(b)),
            AddressingMode::Relative => plain(Operand::Relative(b)),
            AddressingMode::ZeroPage => plain(Operand::Memory(b as u16)),
            AddressingMode::ZeroPageX => plain(Operand::Memory(zero_page_sum(b, self.regs.x))),
            AddressingMode::ZeroPageY => plain(Operand::Memory(zero_page_sum(b, self.regs.y))),
            AddressingMode::Absolute => plain(Operand::Memory(w)),
            AddressingMode::AbsoluteX => indexed_spec(w, self.regs.x),
            AddressingMode::AbsoluteY => indexed_spec(w, self.regs.y),
            AddressingMode::Indirect => plain(
                Operand::Memory(word_of(self.peek(w), self.peek(indirect_high(w)))),
            ),
            AddressingMode::IndirectX => plain(
                Operand::Memory(self.peek_zp_word(zero_page_sum(b, self.regs.x) as u8)),
            ),
            AddressingMode::IndirectY => indexed_spec(self.peek_zp_word(b), self.regs.y),
        }
    }

    /// The byte that an instruction reads from `operand`.
    pub open spec fn value_of(&self, operand: Operand) -> u8 {
        match operand {
            Operand::Accumulator => self.regs.a,
            Operand::Immediate(v) => v,
            Operand::Memory(addr) => self.peek(addr),
            _ => 0,
        }
    }

    /// `post` is this state after `val` was written to `operand` and the status byte
    /// became `status`.
    pub open spec fn writes_back(&self, operand: Operand, val: u8, status: u8, post: Self) -> bool {
        &&& self.lines_kept(post)
        &&& match operand {
            Operand::Accumulator => post.mem == self.mem && post.regs == (Registers {
                a: val,
                status,
                ..self.regs
            }),
            Operand::Memory(addr) => self.mem.written(addr, val, post.mem) && post.regs == (
            Registers { status, ..self.regs }),
            _ => false,
        }
    }

    /// `post` is this state after `hi` then `lo` were pushed, and the registers, but for
    /// the stack pointer, became `regs`.
    pub open spec fn pushed_two(&self, hi: u8, lo: u8, regs: Registers, post: Self) -> bool {
        let sp = self.regs.sp;
        &&& self.lines_kept(post)
        &&& exists|m: M|
            #![trigger self.mem.written(stack_addr(sp), hi, m)]
            self.mem.written(stack_addr(sp), hi, m) && m.written(stack_addr(sp_down(sp)), lo, post.mem)
        &&& post.regs == (Registers { sp: sp_down(sp_down(sp)), ..regs })
    }

    /// `post` is this state after it pushed `ret` and then `status`, disabled interrupts
    /// and jumped to the handler whose address is stored at `vector`.
    pub open spec fn enters_handler(&self, ret: u16, status: u8, vector: u16, post: Self) -> bool {
        let sp = self.regs.sp;
        &&& post.clock == self.clock
        &&& exists|m1: M, m2: M|
            #![trigger self.mem.written(stack_addr(sp), high_byte(ret), m1), m1.written(stack_addr(sp_down(sp)), low_byte(ret), m2)]
            self.mem.written(stack_addr(sp), high_byte(ret), m1) && m1.written(
                stack_addr(sp_down(sp)),
                low_byte(ret),
                m2,
            ) && m2.written(stack_addr(sp_down(sp_down(sp))), status, post.mem)
        &&& post.regs == (Registers {
            pc: post.peek_word(vector),
            sp: sp_down(sp_down(sp_down(sp))),
            status: with_flag(self.regs.status, Flags::Interrupt, true),
            ..self.regs
        })
    }

    /// Powers on: registers cleared but for the stack pointer and status byte, and the
    /// program counter loaded from the reset vector.
    pub fn new(mem: M) -> (r: Self)
        ensures
            r.mem == mem,
            r.clock == 0,
            !r.nmi_pending,
            !r.irq_line,
            r.regs == (Registers {
                a: 0,
                x: 0,
                y: 0,
                pc: r.peek_word(RESET_VECTOR),
                sp: POWER_ON_SP,
                status: POWER_ON_STATUS,
            }),
    {
        let regs = Registers { a: 0, x: 0, y: 0, pc: 0, sp: POWER_ON_SP, status: POWER_ON_STATUS };
        let mut cpu = NesCpu { clock: 0, regs, mem, nmi_pending: false, irq_line: false };
        let lo = cpu.loadb(RESET_VECTOR);
        let hi = cpu.loadb(RESET_VECTOR + 1);
        cpu.regs.pc = word(lo, hi);
        cpu
    }

    /// A processor in the given state, at cycle 0, with no interrupt waiting.
    pub fn with_registers(mem: M, regs: Registers) -> (r: Self)
        ensures
            r.mem == mem,
            r.regs == regs,
            r.clock == 0,
            !r.nmi_pending,
            !r.irq_line,
    {
        NesCpu { clock: 0, regs, mem, nmi_pending: false, irq_line: false }
    }

    /// Cycles run since power-on.
    pub fn clock(&self) -> (r: u64)
        ensures
            r == self.clock,
    {
        self.clock
    }

    /// The registers.
    pub fn registers(&self) -> (r: Registers)
        ensures
            r == self.regs,
    {
        self.regs
    }

    /// Signals a non-maskable interrupt, taken before the next instruction.
    pub fn request_nmi(&mut self)
        ensures
            *final(self) == (NesCpu { nmi_pending: true, ..*old(self) }),
    {
        self.nmi_pending = true;
    }

    /// Holds the interrupt-request line active or releases it.
    pub fn set_irq(&mut self, active: bool)
        ensures
            *final(self) == (NesCpu { irq_line: active, ..*old(self) }),
    {
        self.irq_line = active;
    }

    /// Reads a byte from the bus.
    pub fn loadb(&mut self, addr: u16) -> (r: u8)
        ensures
            *final(self) == *old(self),
            r == old(self).peek(addr),
    {
        self.mem.loadb(addr)
    }

    /// Writes a byte to the bus.
    pub fn storeb(&mut self, addr: u16, val: u8)
        ensures
            old(self).mem.written(addr, val, final(self).mem),
            final(self).regs == old(self).regs,
            old(self).lines_kept(*final(self)),
    {
        self.mem.storeb(addr, val);
    }

    /// Reads the byte at the program counter and moves past it.
    fn load_pc_bump(&mut self) -> (r: u8)
        ensures
            r == old(self).peek(old(self).regs.pc),
            old(self).regs_become(old(self).at_pc(wrapping_sum(old(self).regs.pc, 1)), *final(self)),
    {
        let pc = self.regs.pc;
        let val = self.loadb(pc);
        self.regs.pc = ((pc as u32 + 1) % 0x10000) as u16;
        val
    }

    /// Reads the word at the program counter and moves past it.
    fn loadw_pc_bump(&mut self) -> (r: u16)
        ensures
            r == old(self).peek_word(old(self).regs.pc),
            old(self).regs_become(old(self).at_pc(wrapping_sum(old(self).regs.pc, 2)), *final(self)),
    {
        let pc = self.regs.pc;
        let lo = self.loadb(pc);
        let hi = self.loadb(((pc as u32 + 1) % 0x10000) as u16);
        self.regs.pc = ((pc as u32 + 2) % 0x10000) as u16;
        word(lo, hi)
    }

    /// Reads the word at `base` in page 0; its high byte wraps within page 0.
    fn loadw_from_zp(&mut self, base: u8) -> (r: u16)
        ensures
            *final(self) == *old(self),
            r == old(self).peek_zp_word(base),
    {
        let lower = self.loadb(base as u16);
        let higher = self.loadb(zero_page_indexed(base, 1));
        word(lower, higher)
    }

    /// Resolves `mode` with the program counter at the first operand byte, and moves the
    /// program counter past the operand.
    #[verifier::spinoff_prover]
    #[verifier::rlimit(50)]
    pub fn resolve(&mut self, mode: AddressingMode) -> (r: Resolved)
        ensures
            r == old(self).resolve_spec(mode),
            old(self).regs_become(
                old(self).at_pc(wrapping_sum(old(self).regs.pc, operand_len(mode) as int)),
                *final(self),
            ),
    {
        match mode {
            AddressingMode::Implied => Resolved { operand: Operand::Implied, page_crossed: false },
            AddressingMode::Accumulator => Resolved {
                operand: Operand::Accumulator,
                page_crossed: false,
            },
            AddressingMode::Immediate => {
                let v = self.load_pc_bump();
                Resolved { operand: Operand::Immediate(v), page_crossed: false }
            },
            AddressingMode::Relative => {
                let v = self.load_pc_bump();
                Resolved { operand: Operand::Relative(v), page_crossed: false }
            },
            AddressingMode::ZeroPage => {
                let b = self.load_pc_bump();
                Resolved { operand: Operand::Memory(b as u16), page_crossed: false }
            },
            AddressingMode::ZeroPageX => {
                let b = self.load_pc_bump();
                let addr = zero_page_indexed(b, self.regs.x);
                Resolved { operand: Operand::Memory(addr), page_crossed: false }
            },
            AddressingMode::ZeroPageY => {
                let b = self.load_pc_bump();
                let addr = zero_page_indexed(b, self.regs.y);
                Resolved { operand: Operand::Memory(addr), page_crossed: false }
            },
            AddressingMode::Absolute => {
                let w = self.loadw_pc_bump();
                Resolved { operand: Operand::Memory(w), page_crossed: false }
            },
            AddressingMode::AbsoluteX => {
                let w = self.loadw_pc_bump();
                let (addr, crossed) = absolute_indexed(w, self.regs.x);
                Resolved { operand: Operand::Memory(addr), page_crossed: crossed }
            },
            AddressingMode::AbsoluteY => {
                let w = self.loadw_pc_bump();
                let (addr, crossed) = absolute_indexed(w, self.regs.y);
                Resolved { operand: Operand::Memory(addr), page_crossed: crossed }
            },
            AddressingMode::Indirect => {
                let ptr = self.loadw_pc_bump();
                let lo = self.loadb(ptr);
                // The high byte comes from the same page as the pointer, even when the
                // pointer sits at the page's last byte.
                let hi = self.loadb(indirect_high_address(ptr));
                Resolved { operand: Operand::Memory(word(lo, hi)), page_crossed: false }
            },
            AddressingMode::IndirectX => {
                let b = self.load_pc_bump();
                let ptr = zero_page_indexed(b, self.regs.x) as u8;
                let addr = self.loadw_from_zp(ptr);
                Resolved { operand: Operand::Memory(addr), page_crossed: false }
            },
            AddressingMode::IndirectY => {
                let b = self.load_pc_bump();
                let base = self.loadw_from_zp(b);
                let (addr, crossed) = absolute_indexed(base, self.regs.y);
                Resolved { operand: Operand::Memory(addr), page_crossed: crossed }
            },
        }
    }

    /// Reads the byte that an instruction takes from `operand`.
    pub fn load(&mut self, operand: Operand) -> (r: u8)
        requires
            operand.is_readable(),
        ensures
            *final(self) == *old(self),
            r == old(self).value_of(operand),
    {
        match operand {
            Operand::Accumulator => self.regs.a,
            Operand::Immediate(v) => v,
            Operand::Memory(addr) => self.loadb(addr),
            _ => 0,
        }
    }

    /// Writes `val` to `operand`. Immediate and relative operands cannot be written.
    pub fn store(&mut self, operand: Operand, val: u8)
        requires
            operand.is_writable(),
        ensures
            old(self).writes_back(operand, val, old(self).regs.status, *final(self)),
    {
        match operand {
            Operand::Memory(addr) => self.storeb(addr, val),
            _ => self.regs.a = val,
        }
    }

    /// Pushes `val`: writes it at the stack pointer, then moves the pointer down.
    pub fn push(&mut self, val: u8)
        ensures
            old(self).mem.written(stack_addr(old(self).regs.sp), val, final(self).mem),
            final(self).regs == (Registers { sp: sp_down(old(self).regs.sp), ..old(self).regs }),
            old(self).lines_kept(*final(self)),
    {
        let sp = self.regs.sp;
        self.storeb(0x0100 + sp as u16, val);
        self.regs.sp = ((sp as u16 + 255) % 256) as u8;
    }

    /// Pops a byte: moves the stack pointer up, then reads at it.
    pub fn pop(&mut self) -> (r: u8)
        ensures
            r == old(self).peek(stack_addr(sp_up(old(self).regs.sp))),
            old(self).regs_become(
                (Registers { sp: sp_up(old(self).regs.sp), ..old(self).regs }),
                *final(self),
            ),
    {
        let sp = ((self.regs.sp as u16 + 1) % 256) as u8;
        self.regs.sp = sp;
        self.loadb(0x0100 + sp as u16)
    }

    /// Pushes the return address `ret` and then `status`, disables interrupts and jumps
    /// to the handler stored at `vector`.
    pub fn enter_handler(&mut self, ret: u16, status: u8, vector: u16)
        ensures
            old(self).enters_handler(ret, status, vector, *final(self)),
            final(self).nmi_pending == old(self).nmi_pending,
            final(self).irq_line == old(self).irq_line,
    {
        self.push((ret / 256) as u8);
        let ghost m1 = self.mem;
        self.push((ret % 256) as u8);
        let ghost m2 = self.mem;
        self.push(status);
        self.regs.save_flag(Flags::Interrupt, true);
        let lo = self.loadb(vector);
        let hi = self.loadb(((vector as u32 + 1) % 0x10000) as u16);
        self.regs.pc = word(lo, hi);
        assert(old(self).mem.written(stack_addr(old(self).regs.sp), high_byte(ret), m1));
        assert(m1.written(stack_addr(sp_down(old(self).regs.sp)), low_byte(ret), m2));
    }
}

/// Whether `operand` is of the kind that `op` reads, writes or jumps through.
pub open spec fn operand_fits(op: Op, operand: Operand) -> bool {
    if reads_operand(op) {
        operand.is_readable()
    } else if op == Op::Asl || op == Op::Lsr || op == Op::Rol || op == Op::Ror {
        operand.is_writable()
    } else if modifies_operand(op) || stores_operand(op) || op == Op::Jmp || op == Op::Jsr {
        operand is Memory
    } else if is_branch(op) {
        operand is Relative
    } else {
        true
    }
}

impl<M: Mem> NesCpu<M> {
    /// `post` is this state after the instruction at the program counter was fetched,
    /// decoded, resolved and run, its clock aside, and `cycles` is what it cost: the
    /// table's base cost, one more for a read that crossed a page, and what a taken
    /// branch added.
    pub open spec fn runs_instruction(&self, cycles: u64, post: Self) -> bool {
        let ins = decode_spec(self.peek(self.regs.pc));
        let fetched = NesCpu { regs: self.at_pc(wrapping_sum(self.regs.pc, 1)), ..*self };
        let res = fetched.resolve_spec(ins.mode);
        let ready = NesCpu {
            regs: fetched.at_pc(wrapping_sum(fetched.regs.pc, operand_len(ins.mode) as int)),
            ..fetched
        };
        let extra = cycles - cycles_of(ins, res.page_crossed);
        &&& extra >= 0
        &&& ready.performs(ins.op, res.operand, extra as u64, NesCpu { clock: self.clock, ..post })
    }

    /// Runs `op` on the resolved `operand`, and says how many cycles a taken branch
    /// added.
    pub fn execute(&mut self, op: Op, operand: Operand) -> (extra: u64)
        requires
            operand_fits(op, operand),
        ensures
            old(self).performs(op, operand, extra, *final(self)),
            final(self).clock == old(self).clock,
            extra <= 2,
            extra > 0 ==> is_branch(op),
    {
        match op {
            Op::Adc => {
                self.adc(operand);
                0
            },
            Op::Sbc => {
                self.sbc(operand);
                0
            },
            Op::And => {
                self.and(operand);
                0
            },
            Op::Ora => {
                self.ora(operand);
                0
            },
            Op::Eor => {
                self.eor(operand);
                0
            },
            Op::Bit => {
                self.bit(operand);
                0
            },
            Op::Cmp => {
                self.cmp(operand);
                0
            },
            Op::Cpx => {
                self.cpx(operand);
                0
            },
            Op::Cpy => {
                self.cpy(operand);
                0
            },
            Op::Lda => {
                self.lda(operand);
                0
            },
            Op::Ldx => {
                self.ldx(operand);
                0
            },
            Op::Ldy => {
                self.ldy(operand);
                0
            },
            Op::Asl => {
                self.asl(operand);
                0
            },
            Op::Lsr => {
                self.lsr(operand);
                0
            },
            Op::Rol => {
                self.rol(operand);
                0
            },
            Op::Ror => {
                self.ror(operand);
                0
            },
            Op::Inc => {
                self.inc(operand);
                0
            },
            Op::Dec => {
                self.dec(operand);
                0
            },
            Op::Sta => {
                self.sta(operand);
                0
            },
            Op::Stx => {
                self.stx(operand);
                0
            },
            Op::Sty => {
                self.sty(operand);
                0
            },
            Op::Jmp => {
                self.jmp(operand);
                0
            },
            Op::Jsr => {
                self.jsr(operand);
                0
            },
            Op::Bpl => self.bpl(operand),
            Op::Bmi => self.bmi(operand),
            Op::Bvc => self.bvc(operand),
            Op::Bvs => self.bvs(operand),
            Op::Bcc => self.bcc(operand),
            Op::Bcs => self.bcs(operand),
            Op::Bne => self.bne(operand),
            Op::Beq => self.beq(operand),
            Op::Inx => {
                self.inx();
                0
            },
            Op::Iny => {
                self.iny();
                0
            },
            Op::Dex => {
                self.dex();
                0
            },
            Op::Dey => {
                self.dey();
                0
            },
            Op::Tax => {
                self.tax();
                0
            },
            Op::Txa => {
                self.txa();
                0
            },
            Op::Tay => {
                self.tay();
                0
            },
            Op::Tya => {
                self.tya();
                0
            },
            Op::Tsx => {
                self.tsx();
                0
            },
            Op::Txs => {
                self.txs();
                0
            },
            Op::Clc => {
                self.clc();
                0
            },
            Op::Sec => {
                self.sec();
                0
            },
            Op::Cli => {
                self.cli();
                0
            },
            Op::Sei => {
                self.sei();
                0
            },
            Op::Clv => {
                self.clv();
                0
            },
            Op::Cld => {
                self.cld();
                0
            },
            Op::Sed => {
                self.sed();
                0
            },
            Op::Nop => {
                self.nop();
                0
            },
            Op::Rts => {
                self.rts();
                0
            },
            Op::Rti => {
                self.rti();
                0
            },
            Op::Brk => {
                self.brk();
                0
            },
            Op::Pha => {
                self.pha();
                0
            },
            Op::Php => {
                self.php();
                0
            },
            Op::Pla => {
                self.pla();
                0
            },
            Op::Plp => {
                self.plp();
                0
            },
        }
    }

    /// `post` is this state after one whole step: entering the handler of a waiting
    /// non-maskable interrupt, else of an interrupt request while interrupts are enabled,
    /// else running the instruction at the program counter. Entering a handler pushes the
    /// program counter and the status byte exactly as they are.
    #[verifier::opaque]
    pub open spec fn steps_to(&self, post: Self) -> bool {
        let cycles = post.clock - self.clock;
        let ret = self.regs.pc;
        let status = self.regs.status;
        let unclocked = NesCpu { clock: self.clock, ..post };
        &&& 2 <= cycles <= MAX_STEP_CYCLES
        &&& if self.nmi_pending {
            &&& cycles == INTERRUPT_CYCLES
            &&& !post.nmi_pending
            &&& post.irq_line == self.irq_line
            &&& self.enters_handler(ret, status, NMI_VECTOR, unclocked)
        } else if self.irq_line && !self.regs.flag(Flags::Interrupt) {
            &&& cycles == INTERRUPT_CYCLES
            &&& post.nmi_pending == self.nmi_pending
            &&& post.irq_line == self.irq_line
            &&& self.enters_handler(ret, status, IRQ_VECTOR, unclocked)
        } else {
            self.runs_instruction(cycles as u64, post)
        }
    }

    /// `states` is a run of whole steps from this state to `post`: it starts here, ends
    /// at `post`, and each state is one whole step from the one before.
    pub open spec fn runs_through(&self, states: Seq<Self>, post: Self) -> bool {
        &&& states.len() >= 1
        &&& states[0] == *self
        &&& states.last() == post
        &&& forall|i: int| 0 <= i < states.len() - 1 ==> #[trigger] states[i].steps_to(states[i + 1])
    }

    /// Runs one step: enters a waiting interrupt's handler, or else fetches, decodes and
    /// runs one whole instruction. Adds the cycles taken to the clock and returns them.
    ///
    /// A non-maskable interrupt is taken first; an interrupt request only while
    /// interrupts are not disabled.
    pub fn execute_instruction(&mut self) -> (cycles: u64)
        requires
            old(self).clock <= u64::MAX - MAX_STEP_CYCLES,
        ensures
            2 <= cycles <= MAX_STEP_CYCLES,
            final(self).clock == old(self).clock + cycles,
            old(self).steps_to(*final(self)),
    {
        proof {
            reveal(NesCpu::steps_to);
        }
        if self.nmi_pending {
            self.nmi_pending = false;
            let pc = self.regs.pc;
            let status = self.regs.status;
            self.enter_handler(pc, status, NMI_VECTOR);
            self.clock = self.clock + INTERRUPT_CYCLES;
            return INTERRUPT_CYCLES;
        }
        if self.irq_line && !self.regs.flag_set(Flags::Interrupt) {
            let pc = self.regs.pc;
            let status = self.regs.status;
            self.enter_handler(pc, status, IRQ_VECTOR);
            self.clock = self.clock + INTERRUPT_CYCLES;
            return INTERRUPT_CYCLES;
        }
        let opcode = self.load_pc_bump();
        let ins = decode_op(opcode);
        let resolved = self.resolve(ins.mode);
        let extra = self.execute(ins.op, resolved.operand);
        let cycles = instruction_cycles(ins, resolved.page_crossed) + extra;
        self.clock = self.clock + cycles;
        cycles
    }

    /// Runs whole steps until the clock reaches `cycle`. No step is cut short, so the
    /// clock may pass `cycle` by less than the cost of one step.
    pub fn step_to(&mut self, cycle: u64)
        requires
            cycle <= u64::MAX - MAX_STEP_CYCLES,
        ensures
            final(self).clock >= cycle,
            old(self).clock >= cycle ==> *final(self) == *old(self),
            old(self).clock < cycle ==> final(self).clock < cycle + MAX_STEP_CYCLES,
            exists|states: Seq<Self>|
                {
                    &&& old(self).runs_through(states, *final(self))
                    &&& forall|i: int| 0 <= i < states.len() - 1 ==> (#[trigger] states[i]).clock < cycle
                },
    {
        let mut now = self.clock;
        let ghost mut states: Seq<Self> = seq![*self];
        while now < cycle
            invariant
                now == self.clock,
                cycle <= u64::MAX - MAX_STEP_CYCLES,
                old(self).clock >= cycle ==> *self == *old(self),
                now == old(self).clock || (old(self).clock < cycle && now < cycle + MAX_STEP_CYCLES),
                old(self).runs_through(states, *self),
                forall|i: int| 0 <= i < states.len() - 1 ==> (#[trigger] states[i]).clock < cycle,
            decreases u64::MAX - now,
        {
            let ghost before = *self;
            self.execute_instruction();
            now = self.clock;
            proof {
                let prev = states;
                states = states.push(*self);
                assert forall|i: int| 0 <= i < states.len() - 1 implies #[trigger] states[i].steps_to(
                    states[i + 1],
                ) by {
                    if i < prev.len() - 1 {
                        assert(prev[i].steps_to(prev[i + 1]));
                    }
                }
                assert forall|i: int| 0 <= i < states.len() - 1 implies (#[trigger] states[i]).clock
                    < cycle by {
                    if i < prev.len() - 1 {
                        assert(prev[i].clock < cycle);
                    } else {
                        assert(states[i] == before);
                    }
                }
            }
        }
        assert(old(self).runs_through(states, *self));
    }
}

} // verus!
