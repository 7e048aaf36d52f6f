use nes_cpu::addressing::{absolute_indexed, branch_target, indirect_high_address, zero_page_indexed, Operand};
use nes_cpu::cpu::NesCpu;
use nes_cpu::mem::{Mem, MemoryMap};
use nes_cpu::regs::{Flags, Registers};

const C: u8 = 0x01;
const Z: u8 = 0x02;
const I: u8 = 0x04;
const V: u8 = 0x40;
const N: u8 = 0x80;

/// A 16 KiB program ROM holding `program` at 0x8000, with every vector pointing there
/// unless `irq` names another handler.
fn rom_with(program: &[u8], irq: u16) -> Vec<u8> {
    let mut prg = vec![0xEAu8; 0x4000];
    prg[..program.len()].copy_from_slice(program);
    prg[0x3FFA] = 0x00;
    prg[0x3FFB] = 0x80;
    prg[0x3FFC] = 0x00;
    prg[0x3FFD] = 0x80;
    prg[0x3FFE] = (irq & 0xFF) as u8;
    prg[0x3FFF] = (irq >> 8) as u8;
    prg
}

fn cpu_with(program: &[u8]) -> NesCpu<MemoryMap> {
    NesCpu::new(MemoryMap::new(rom_with(program, 0x8000)))
}

fn regs(a: u8, x: u8, y: u8, status: u8) -> Registers {
    Registers { a, x, y, pc: 0x8000, sp: 0xFD, status }
}

fn cpu_regs(program: &[u8], r: Registers) -> NesCpu<MemoryMap> {
    NesCpu::with_registers(MemoryMap::new(rom_with(program, 0x8000)), r)
}

#[test]
fn power_on_reads_reset_vector() {
    let cpu = cpu_with(&[]);
    let r = cpu.registers();
    assert_eq!(r.pc, 0x8000);
    assert_eq!(r.sp, 0xFD);
    assert!(r.flag_set(Flags::Interrupt));
    assert_eq!(cpu.clock(), 0);
}

#[test]
fn update_zero_negative_ignores_prior_flags() {
    for prior in [0x00u8, 0xFF, Z, N, Z | N] {
        for v in [0x00u8, 0x01, 0x7F, 0x80, 0xFF] {
            let mut r = regs(0, 0, 0, prior);
            r.update_zero_negative(v);
            assert_eq!(r.flag_set(Flags::Zero), v == 0);
            assert_eq!(r.flag_set(Flags::Negative), v & 0x80 != 0);
            assert_eq!(r.status & !(Z | N), prior & !(Z | N));
        }
    }
}

#[test]
fn save_flag_keeps_other_bits() {
    let mut r = regs(0, 0, 0, 0x30);
    r.save_flag(Flags::Carry, true);
    assert_eq!(r.status, 0x31);
    r.save_flag(Flags::Overflow, true);
    assert_eq!(r.status, 0x71);
    r.save_flag(Flags::Carry, false);
    assert_eq!(r.status, 0x70);
    r.check_zero(0);
    r.check_negative(0x80);
    assert_eq!(r.status, 0xF2);
}

#[test]
fn adc_signed_overflow() {
    let mut cpu = cpu_regs(&[], regs(0x50, 0, 0, 0));
    cpu.adc(Operand::Immediate(0x50));
    let r = cpu.registers();
    assert_eq!(r.a, 0xA0);
    assert!(!r.flag_set(Flags::Carry));
    assert!(r.flag_set(Flags::Overflow));
    assert!(r.flag_set(Flags::Negative));
    assert!(!r.flag_set(Flags::Zero));
}

#[test]
fn adc_carry_out_and_zero() {
    let mut cpu = cpu_regs(&[], regs(0xFF, 0, 0, C));
    cpu.adc(Operand::Immediate(0x00));
    let r = cpu.registers();
    assert_eq!(r.a, 0x00);
    assert!(r.flag_set(Flags::Carry));
    assert!(!r.flag_set(Flags::Overflow));
    assert!(r.flag_set(Flags::Zero));
}

#[test]
fn adc_matches_reference_for_all_inputs() {
    let mut cpu = NesCpu::with_registers(MemoryMap::new(Vec::new()), regs(0, 0, 0, 0));
    for a in 0..=255u8 {
        for b in 0..=255u8 {
            for c in 0..=1u8 {
                cpu.lda(Operand::Immediate(a));
                if c == 1 {
                    cpu.sec();
                } else {
                    cpu.clc();
                }
                cpu.adc(Operand::Immediate(b));
                let r = cpu.registers();
                let sum = a as u16 + b as u16 + c as u16;
                let signed = a as i8 as i16 + b as i8 as i16 + c as i16;
                assert_eq!(r.a, sum as u8);
                assert_eq!(r.flag_set(Flags::Carry), sum > 0xFF);
                assert_eq!(r.flag_set(Flags::Overflow), !(-128..=127).contains(&signed));
                assert_eq!(r.flag_set(Flags::Zero), sum as u8 == 0);
                assert_eq!(r.flag_set(Flags::Negative), sum as u8 >= 0x80);
            }
        }
    }
}

#[test]
fn sbc_borrows() {
    // 0x50 - 0xF0 with no borrow in: 0x60, borrow out, no signed overflow.
    let mut cpu = cpu_regs(&[], regs(0x50, 0, 0, C));
    cpu.sbc(Operand::Immediate(0xF0));
    let r = cpu.registers();
    assert_eq!(r.a, 0x60);
    assert!(!r.flag_set(Flags::Carry));
    assert!(!r.flag_set(Flags::Overflow));
    // 0x50 - 0xB0: 0xA0, borrow out, signed overflow.
    let mut cpu = cpu_regs(&[], regs(0x50, 0, 0, C));
    cpu.sbc(Operand::Immediate(0xB0));
    let r = cpu.registers();
    assert_eq!(r.a, 0xA0);
    assert!(!r.flag_set(Flags::Carry));
    assert!(r.flag_set(Flags::Overflow));
}

#[test]
fn cmp_below_wraps() {
    let mut cpu = cpu_regs(&[], regs(0x00, 0, 0, 0));
    cpu.cmp(Operand::Immediate(0x01));
    let r = cpu.registers();
    assert!(!r.flag_set(Flags::Carry));
    assert!(r.flag_set(Flags::Negative));
    assert!(!r.flag_set(Flags::Zero));
    assert_eq!(r.a, 0x00);
}

#[test]
fn cpx_cpy_equal_and_above() {
    let mut cpu = cpu_regs(&[], regs(0, 0x10, 0x20, 0));
    cpu.cpx(Operand::Immediate(0x10));
    assert_eq!(cpu.registers().status, C | Z);
    cpu.cpy(Operand::Immediate(0x10));
    assert_eq!(cpu.registers().status, C);
}

#[test]
fn increments_and_decrements_wrap() {
    let mut cpu = cpu_regs(&[], regs(0, 0xFF, 0x00, 0));
    cpu.inx();
    cpu.dey();
    let r = cpu.registers();
    assert_eq!(r.x, 0x00);
    assert_eq!(r.y, 0xFF);
    assert!(r.flag_set(Flags::Negative));
    assert!(!r.flag_set(Flags::Zero));
    cpu.mem.storeb(0x0010, 0xFF);
    cpu.inc(Operand::Memory(0x0010));
    assert_eq!(cpu.mem.loadb(0x0010), 0x00);
    assert!(cpu.registers().flag_set(Flags::Zero));
    cpu.dec(Operand::Memory(0x0010));
    assert_eq!(cpu.mem.loadb(0x0010), 0xFF);
    assert!(cpu.registers().flag_set(Flags::Negative));
}

#[test]
fn shifts_write_back_and_flag_new_value() {
    let mut cpu = cpu_regs(&[], regs(0x81, 0, 0, 0));
    cpu.asl(Operand::Accumulator);
    assert_eq!(cpu.registers().a, 0x02);
    assert_eq!(cpu.registers().status, C);
    cpu.mem.storeb(0x0020, 0x01);
    cpu.lsr(Operand::Memory(0x0020));
    assert_eq!(cpu.mem.loadb(0x0020), 0x00);
    assert_eq!(cpu.registers().status, C | Z);
    cpu.mem.storeb(0x0021, 0x80);
    cpu.rol(Operand::Memory(0x0021));
    assert_eq!(cpu.mem.loadb(0x0021), 0x01);
    assert_eq!(cpu.registers().status, C);
    cpu.ror(Operand::Accumulator);
    assert_eq!(cpu.registers().a, 0x81);
    assert_eq!(cpu.registers().status, N);
}

#[test]
fn bit_takes_n_and_v_from_operand() {
    let mut cpu = cpu_regs(&[], regs(0x01, 0, 0, 0));
    cpu.bit(Operand::Immediate(0xC0));
    assert_eq!(cpu.registers().status, Z | N | V);
}

#[test]
fn logic_ops() {
    let mut cpu = cpu_regs(&[], regs(0xF0, 0, 0, 0));
    cpu.and(Operand::Immediate(0x3C));
    assert_eq!(cpu.registers().a, 0x30);
    cpu.ora(Operand::Immediate(0x81));
    assert_eq!(cpu.registers().a, 0xB1);
    assert!(cpu.registers().flag_set(Flags::Negative));
    cpu.eor(Operand::Immediate(0xB1));
    assert_eq!(cpu.registers().a, 0x00);
    assert!(cpu.registers().flag_set(Flags::Zero));
}

#[test]
fn zero_page_index_wraps_in_page_zero() {
    assert_eq!(zero_page_indexed(0xFF, 0x02), 0x01);
    let mut cpu = cpu_regs(&[0xB5, 0xFF], regs(0, 0x02, 0, 0));
    cpu.mem.storeb(0x0001, 0x42);
    cpu.mem.storeb(0x0101, 0x99);
    cpu.execute_instruction();
    assert_eq!(cpu.registers().a, 0x42);
}

#[test]
fn indirect_jump_wraps_within_page() {
    assert_eq!(indirect_high_address(0x02FF), 0x0200);
    assert_eq!(indirect_high_address(0x0210), 0x0211);
    let mut cpu = cpu_with(&[0x6C, 0xFF, 0x02]);
    cpu.mem.storeb(0x02FF, 0x34);
    cpu.mem.storeb(0x0200, 0x12);
    cpu.mem.storeb(0x0300, 0x56);
    let cycles = cpu.execute_instruction();
    assert_eq!(cpu.registers().pc, 0x1234);
    assert_eq!(cycles, 5);
}

#[test]
fn indexed_indirect_modes() {
    // LDA ($FE,X) with X = 1: pointer at 0xFF, high byte from 0x00.
    let mut cpu = cpu_regs(&[0xA1, 0xFE], regs(0, 0x01, 0, 0));
    cpu.mem.storeb(0x00FF, 0x10);
    cpu.mem.storeb(0x0000, 0x03);
    cpu.mem.storeb(0x0310, 0x77);
    assert_eq!(cpu.execute_instruction(), 6);
    assert_eq!(cpu.registers().a, 0x77);
    // LDA ($40),Y crossing a page: one extra cycle.
    let mut cpu = cpu_regs(&[0xB1, 0x40], regs(0, 0, 0x20, 0));
    cpu.mem.storeb(0x0040, 0xF0);
    cpu.mem.storeb(0x0041, 0x02);
    cpu.mem.storeb(0x0310, 0x55);
    assert_eq!(cpu.execute_instruction(), 6);
    assert_eq!(cpu.registers().a, 0x55);
}

#[test]
fn absolute_x_page_cross_costs_one_cycle_on_reads_only() {
    assert_eq!(absolute_indexed(0x01F0, 0x20), (0x0210, true));
    assert_eq!(absolute_indexed(0x0100, 0x20), (0x0120, false));
    assert_eq!(absolute_indexed(0xFFFF, 0x01), (0x0000, true));
    // LDA $01F0,X
    let mut no_cross = cpu_regs(&[0xBD, 0xF0, 0x01], regs(0, 0x05, 0, 0));
    let mut cross = cpu_regs(&[0xBD, 0xF0, 0x01], regs(0, 0x20, 0, 0));
    let a = no_cross.execute_instruction();
    let b = cross.execute_instruction();
    assert_eq!(a, 4);
    assert_eq!(b, a + 1);
    // STA $01F0,X
    let mut no_cross = cpu_regs(&[0x9D, 0xF0, 0x01], regs(7, 0x05, 0, 0));
    let mut cross = cpu_regs(&[0x9D, 0xF0, 0x01], regs(7, 0x20, 0, 0));
    assert_eq!(no_cross.execute_instruction(), 5);
    assert_eq!(cross.execute_instruction(), 5);
    assert_eq!(cross.mem.loadb(0x0210), 7);
}

#[test]
fn branch_cycles() {
    assert_eq!(branch_target(0x8002, 0xFE), (0x8000, false));
    assert_eq!(branch_target(0x80FE, 0x04), (0x8102, true));
    // BNE not taken: 2 cycles.
    let mut cpu = cpu_regs(&[0xD0, 0x05], regs(0, 0, 0, Z));
    assert_eq!(cpu.execute_instruction(), 2);
    assert_eq!(cpu.registers().pc, 0x8002);
    // BNE taken, same page: 3 cycles.
    let mut cpu = cpu_regs(&[0xD0, 0x05], regs(0, 0, 0, 0));
    assert_eq!(cpu.execute_instruction(), 3);
    assert_eq!(cpu.registers().pc, 0x8007);
    // BEQ taken backwards across a page: 4 cycles.
    let mut cpu = cpu_regs(&[0xF0, 0xF0], regs(0, 0, 0, Z));
    assert_eq!(cpu.execute_instruction(), 4);
    assert_eq!(cpu.registers().pc, 0x7FF2);
}

#[test]
fn jsr_rts_round_trip() {
    // JSR $8010 ; at $8010: RTS
    let mut program = vec![0x20, 0x10, 0x80];
    program.resize(0x10, 0xEA);
    program.push(0x60);
    let mut cpu = cpu_with(&program);
    assert_eq!(cpu.execute_instruction(), 6);
    assert_eq!(cpu.registers().pc, 0x8010);
    assert_eq!(cpu.registers().sp, 0xFB);
    assert_eq!(cpu.mem.loadb(0x01FD), 0x80);
    assert_eq!(cpu.mem.loadb(0x01FC), 0x02);
    assert_eq!(cpu.execute_instruction(), 6);
    assert_eq!(cpu.registers().pc, 0x8003);
    assert_eq!(cpu.registers().sp, 0xFD);
}

#[test]
fn brk_and_rti() {
    let mut program = vec![0x00, 0xFF];
    program.resize(0x20, 0xEA);
    program.push(0x40);
    let mut cpu = NesCpu::with_registers(
        MemoryMap::new(rom_with(&program, 0x8020)),
        regs(0, 0, 0, C),
    );
    assert_eq!(cpu.execute_instruction(), 7);
    let r = cpu.registers();
    assert_eq!(r.pc, 0x8020);
    assert!(r.flag_set(Flags::Interrupt));
    assert_eq!(r.sp, 0xFA);
    assert_eq!(cpu.mem.loadb(0x01FD), 0x80);
    assert_eq!(cpu.mem.loadb(0x01FC), 0x02);
    // The pushed copy has Break set; the live status does not.
    assert_eq!(cpu.mem.loadb(0x01FB), C | 0x10);
    assert!(!r.flag_set(Flags::Break));
    assert_eq!(cpu.execute_instruction(), 6);
    let r = cpu.registers();
    assert_eq!(r.pc, 0x8002);
    assert_eq!(r.sp, 0xFD);
    assert_eq!(r.status, C | 0x10);
}

#[test]
fn stack_ops_round_trip_every_status_bit() {
    // PHP ; PLA ; PHA ; PLP
    let mut cpu = cpu_regs(&[0x08, 0x68, 0x48, 0x28], regs(0, 0, 0, 0xFF));
    cpu.execute_instruction();
    assert_eq!(cpu.mem.loadb(0x01FD), 0xFF);
    cpu.execute_instruction();
    assert_eq!(cpu.registers().a, 0xFF);
    cpu.execute_instruction();
    cpu.execute_instruction();
    assert_eq!(cpu.registers().status, 0xFF);
    assert_eq!(cpu.registers().sp, 0xFD);
}

#[test]
fn stack_pointer_wraps_within_page() {
    let mut cpu = cpu_regs(&[], Registers { a: 0x11, x: 0, y: 0, pc: 0x8000, sp: 0x00, status: 0 });
    cpu.pha();
    assert_eq!(cpu.registers().sp, 0xFF);
    assert_eq!(cpu.mem.loadb(0x0100), 0x11);
    cpu.pla();
    assert_eq!(cpu.registers().sp, 0x00);
    assert_eq!(cpu.registers().a, 0x11);
}

#[test]
fn transfers_and_flag_instructions() {
    let mut cpu = cpu_regs(&[], regs(0x80, 0, 0, 0));
    cpu.tax();
    cpu.tay();
    assert_eq!(cpu.registers().x, 0x80);
    assert_eq!(cpu.registers().y, 0x80);
    cpu.txs();
    assert_eq!(cpu.registers().sp, 0x80);
    cpu.lda(Operand::Immediate(0));
    cpu.tsx();
    assert!(cpu.registers().flag_set(Flags::Negative));
    cpu.sec();
    cpu.sed();
    cpu.sei();
    assert_eq!(cpu.registers().status & (C | 0x08 | I), C | 0x08 | I);
    cpu.clc();
    cpu.cld();
    cpu.cli();
    cpu.clv();
    assert_eq!(cpu.registers().status & (C | 0x08 | I | V), 0);
}

#[test]
fn stores_do_not_touch_flags() {
    let mut cpu = cpu_regs(&[], regs(0x00, 0x80, 0x01, 0));
    cpu.sta(Operand::Memory(0x0030));
    cpu.stx(Operand::Memory(0x0031));
    cpu.sty(Operand::Memory(0x0032));
    assert_eq!(cpu.registers().status, 0);
    assert_eq!(cpu.mem.loadb(0x0031), 0x80);
    assert_eq!(cpu.mem.loadb(0x0032), 0x01);
}

#[test]
fn nmi_then_irq() {
    let mut cpu = cpu_regs(&[0xEA], regs(0, 0, 0, 0));
    cpu.request_nmi();
    assert_eq!(cpu.execute_instruction(), 7);
    assert_eq!(cpu.registers().pc, 0x8000);
    assert!(cpu.registers().flag_set(Flags::Interrupt));
    assert_eq!(cpu.mem.loadb(0x01FB), 0x00);
    // Interrupts are now disabled: an interrupt request waits.
    cpu.set_irq(true);
    assert_eq!(cpu.execute_instruction(), 2);
    assert_eq!(cpu.registers().pc, 0x8001);
}

#[test]
fn step_to_stops_on_instruction_boundary() {
    // LDA #$01 (2) ; STA $0200 (4) ; LDX $0200 (4) ; INX (2) ; JMP $8000 (3)
    let program = [0xA9, 0x01, 0x8D, 0x00, 0x02, 0xAE, 0x00, 0x02, 0xE8, 0x4C, 0x00, 0x80];
    let starts = [0x8000u16, 0x8002, 0x8005, 0x8008, 0x8009];
    for target in 0..40u64 {
        let mut cpu = cpu_with(&program);
        cpu.step_to(target);
        assert!(cpu.clock() >= target);
        assert!(cpu.clock() < target.max(1) + 7);
        assert!(starts.contains(&cpu.registers().pc));
    }
    let mut cpu = cpu_with(&program);
    cpu.step_to(7);
    assert_eq!(cpu.clock(), 10);
    assert_eq!(cpu.registers().pc, 0x8008);
    assert_eq!(cpu.registers().x, 0x01);
    cpu.step_to(5);
    assert_eq!(cpu.clock(), 10);
}

#[test]
fn unknown_opcode_is_one_byte_no_op() {
    let mut cpu = cpu_with(&[0x02, 0xEA]);
    assert_eq!(cpu.execute_instruction(), 2);
    assert_eq!(cpu.registers().pc, 0x8001);
}

#[test]
fn interrupt_pushes_status_unchanged() {
    let mut cpu = cpu_regs(&[0xEA], regs(0, 0, 0, 0x30));
    cpu.request_nmi();
    assert_eq!(cpu.execute_instruction(), 7);
    assert_eq!(cpu.mem.loadb(0x01FB), 0x30);
    assert_eq!(cpu.mem.loadb(0x01FC), 0x00);
    assert_eq!(cpu.mem.loadb(0x01FD), 0x80);
    // Return from the handler: every bit comes back.
    let mut cpu = cpu_regs(&[0x40], regs(0, 0, 0, 0x30));
    cpu.set_irq(true);
    assert_eq!(cpu.execute_instruction(), 7);
    assert_eq!(cpu.mem.loadb(0x01FB), 0x30);
    cpu.set_irq(false);
    cpu.execute_instruction();
    assert_eq!(cpu.registers().status, 0x30);
    assert_eq!(cpu.registers().pc, 0x8000);
}

#[test]
fn step_to_stops_at_first_step_reaching_target() {
    let program = [0xA9, 0x01, 0x8D, 0x00, 0x02, 0xAE, 0x00, 0x02, 0xE8, 0x4C, 0x00, 0x80];
    for t1 in 0..30u64 {
        for t2 in t1..30u64 {
            let mut direct = cpu_with(&program);
            direct.step_to(t2);
            let mut staged = cpu_with(&program);
            staged.step_to(t1);
            staged.step_to(t2);
            assert_eq!(direct.clock(), staged.clock());
            assert_eq!(direct.registers(), staged.registers());
        }
    }
}
