use gb_core::cpu::{StepError, CPU};
use gb_core::instructions::{Instruction, StackTarget};
use gb_core::interrupts::InterruptSource;

fn cpu_at(pc: u16) -> CPU {
    let mut cpu = CPU::new();
    cpu.pc = pc;
    cpu.sp = 0xFFFE;
    // Run with the boot overlay already removed, as after boot hand-off.
    cpu.bus.write_byte(0xFF50, 0x01);
    cpu
}

#[test]
fn push_pop_round_trip_restores_sp() {
    // PUSH BC; POP DE leaves DE equal to BC and SP where it was.
    let mut cpu = cpu_at(0xC000);
    cpu.regs.set_bc(0x1234);
    let cycles_push = cpu.execute(Instruction::PUSH(StackTarget::BC));
    assert_eq!(cycles_push, 16);
    assert_eq!(cpu.sp, 0xFFFC);
    let cycles_pop = cpu.execute(Instruction::POP(StackTarget::DE));
    assert_eq!(cycles_pop, 12);
    assert_eq!(cpu.regs.get_de(), 0x1234);
    assert_eq!(cpu.sp, 0xFFFE);
    assert_eq!(cpu.regs.get_bc(), 0x1234);
}

#[test]
fn push_stores_high_byte_at_higher_address() {
    let mut cpu = cpu_at(0xC000);
    cpu.regs.set_bc(0xABCD);
    cpu.execute(Instruction::PUSH(StackTarget::BC));
    assert_eq!(cpu.bus.read_byte(0xFFFD), 0xAB);
    assert_eq!(cpu.bus.read_byte(0xFFFC), 0xCD);
}

#[test]
fn pop_into_af_masks_low_nibble() {
    let mut cpu = cpu_at(0xC000);
    cpu.bus.write_byte(0xFFFC, 0xFF);
    cpu.bus.write_byte(0xFFFD, 0x12);
    cpu.sp = 0xFFFC;
    cpu.execute(Instruction::POP(StackTarget::AF));
    assert_eq!(cpu.regs.a, 0x12);
    assert_eq!(cpu.regs.f, 0xF0);
}

#[test]
fn timer_interrupt_dispatch_in_one_step() {
    // IME set, timer enable and flag bits set: one step pushes PC, jumps to
    // the timer vector, clears IME and the timer flag, and costs 20 cycles.
    let mut cpu = cpu_at(0x1234);
    cpu.bus.write_byte(0xFFFF, 0x04);
    cpu.bus.write_byte(0xFF0F, 0x04);
    cpu.bus.set_ime(true);
    let r = cpu.step();
    assert_eq!(r, Ok(20));
    assert_eq!(cpu.pc, 0x0050);
    assert!(!cpu.bus.get_ime());
    assert_eq!(cpu.bus.read_byte(0xFF0F), 0x00);
    assert_eq!(cpu.bus.read_byte(0xFFFF), 0x04);
    assert_eq!(cpu.sp, 0xFFFC);
    assert_eq!(cpu.bus.read_byte(0xFFFD), 0x12);
    assert_eq!(cpu.bus.read_byte(0xFFFC), 0x34);
}

#[test]
fn interrupt_priority_vblank_first() {
    let mut cpu = cpu_at(0xC000);
    cpu.bus.write_byte(0xFFFF, 0x1F);
    cpu.bus.write_byte(0xFF0F, 0x05); // vblank and timer both flagged
    cpu.bus.set_ime(true);
    let r = cpu.step();
    assert_eq!(r, Ok(20));
    assert_eq!(cpu.pc, 0x0040);
    // Only the serviced source's flag bit is cleared.
    assert_eq!(cpu.bus.read_byte(0xFF0F), 0x04);
}

#[test]
fn no_dispatch_while_ime_clear() {
    let mut cpu = cpu_at(0xC000);
    cpu.bus.write_byte(0xFFFF, 0x04);
    cpu.bus.write_byte(0xFF0F, 0x04);
    // NOP at PC; with IME clear the pending timer is not serviced.
    let r = cpu.step();
    assert_eq!(r, Ok(4));
    assert_eq!(cpu.pc, 0xC001);
    assert_eq!(cpu.bus.read_byte(0xFF0F), 0x04);
}

#[test]
fn halt_idles_until_interrupt_pending() {
    // HALT with nothing pending: PC stays put, one cycle unit per step.
    let mut cpu = cpu_at(0xC000);
    cpu.bus.write_byte(0xC000, 0x76);
    let r = cpu.step();
    assert_eq!(r, Ok(4));
    assert_eq!(cpu.pc, 0xC001);
    assert!(cpu.is_halted);
    for _ in 0..3 {
        assert_eq!(cpu.step(), Ok(4));
        assert_eq!(cpu.pc, 0xC001);
        assert!(cpu.is_halted);
    }
    // A source with both bits set wakes the engine even with IME clear, and
    // fetch resumes at the instruction following HALT (here INC B).
    cpu.bus.write_byte(0xC001, 0x04);
    cpu.bus.write_byte(0xFFFF, 0x04);
    cpu.bus.request_interrupt(InterruptSource::Timer);
    let r = cpu.step();
    assert_eq!(r, Ok(4));
    assert!(!cpu.is_halted);
    assert_eq!(cpu.pc, 0xC002);
    assert_eq!(cpu.regs.b, 0x01);
}

#[test]
fn halted_with_ime_dispatches_on_wake() {
    let mut cpu = cpu_at(0xC000);
    cpu.bus.write_byte(0xC000, 0x76);
    cpu.bus.set_ime(true);
    assert_eq!(cpu.step(), Ok(4));
    assert!(cpu.is_halted);
    cpu.bus.write_byte(0xFFFF, 0x04);
    cpu.bus.request_interrupt(InterruptSource::Timer);
    let r = cpu.step();
    assert_eq!(r, Ok(20));
    assert_eq!(cpu.pc, 0x0050);
    assert!(!cpu.is_halted);
    // The dispatch pushed the address after HALT.
    assert_eq!(cpu.bus.read_byte(0xFFFD), 0xC0);
    assert_eq!(cpu.bus.read_byte(0xFFFC), 0x01);
}

#[test]
fn jp_nz_takes_and_falls_through() {
    // JP NZ,nn: taken when Z=0 at the longer cost, fall through when Z=1.
    let mut cpu = cpu_at(0xC000);
    cpu.bus.write_byte(0xC000, 0xC2);
    cpu.bus.write_byte(0xC001, 0x34);
    cpu.bus.write_byte(0xC002, 0x12);
    cpu.regs.set_flags(false, false, false, false);
    let r = cpu.step();
    assert_eq!(r, Ok(16));
    assert_eq!(cpu.pc, 0x1234);

    let mut cpu = cpu_at(0xC000);
    cpu.bus.write_byte(0xC000, 0xC2);
    cpu.bus.write_byte(0xC001, 0x34);
    cpu.bus.write_byte(0xC002, 0x12);
    cpu.regs.set_flags(true, false, false, false);
    let r = cpu.step();
    assert_eq!(r, Ok(12));
    assert_eq!(cpu.pc, 0xC003);
}

#[test]
fn jr_signed_displacement() {
    let mut cpu = cpu_at(0xC000);
    cpu.bus.write_byte(0xC000, 0x18);
    cpu.bus.write_byte(0xC001, 0xFE); // -2: a tight loop onto itself
    let r = cpu.step();
    assert_eq!(r, Ok(12));
    assert_eq!(cpu.pc, 0xC000);

    let mut cpu = cpu_at(0xC000);
    cpu.bus.write_byte(0xC000, 0x28); // JR Z with Z clear falls through
    cpu.bus.write_byte(0xC001, 0x10);
    let r = cpu.step();
    assert_eq!(r, Ok(8));
    assert_eq!(cpu.pc, 0xC002);
}

#[test]
fn call_and_ret_round_trip() {
    let mut cpu = cpu_at(0xC000);
    cpu.bus.write_byte(0xC000, 0xCD); // CALL 0xC100
    cpu.bus.write_byte(0xC001, 0x00);
    cpu.bus.write_byte(0xC002, 0xC1);
    cpu.bus.write_byte(0xC100, 0xC9); // RET
    assert_eq!(cpu.step(), Ok(24));
    assert_eq!(cpu.pc, 0xC100);
    assert_eq!(cpu.sp, 0xFFFC);
    assert_eq!(cpu.step(), Ok(16));
    assert_eq!(cpu.pc, 0xC003);
    assert_eq!(cpu.sp, 0xFFFE);
}

#[test]
fn conditional_ret_cycle_costs() {
    let mut cpu = cpu_at(0xC000);
    cpu.bus.write_byte(0xC000, 0xC0); // RET NZ, Z set: falls through
    cpu.regs.set_flags(true, false, false, false);
    assert_eq!(cpu.step(), Ok(8));
    assert_eq!(cpu.pc, 0xC001);

    let mut cpu = cpu_at(0xC000);
    cpu.sp = 0xFFFC;
    cpu.bus.write_byte(0xFFFC, 0x00);
    cpu.bus.write_byte(0xFFFD, 0xC1);
    cpu.bus.write_byte(0xC000, 0xC0); // RET NZ, Z clear: taken
    cpu.regs.set_flags(false, false, false, false);
    assert_eq!(cpu.step(), Ok(20));
    assert_eq!(cpu.pc, 0xC100);
    assert_eq!(cpu.sp, 0xFFFE);
}

#[test]
fn rst_jumps_to_fixed_vector() {
    let mut cpu = cpu_at(0xC000);
    cpu.bus.write_byte(0xC000, 0xEF); // RST to 0x28
    assert_eq!(cpu.step(), Ok(16));
    assert_eq!(cpu.pc, 0x0028);
    assert_eq!(cpu.bus.read_byte(0xFFFD), 0xC0);
    assert_eq!(cpu.bus.read_byte(0xFFFC), 0x01);
}

#[test]
fn reti_restores_pc_and_enables_ime() {
    let mut cpu = cpu_at(0xC000);
    cpu.sp = 0xFFFC;
    cpu.bus.write_byte(0xFFFC, 0x34);
    cpu.bus.write_byte(0xFFFD, 0x12);
    cpu.bus.write_byte(0xC000, 0xD9);
    assert_eq!(cpu.step(), Ok(16));
    assert_eq!(cpu.pc, 0x1234);
    assert!(cpu.bus.get_ime());
}

#[test]
fn di_and_ei_toggle_ime() {
    let mut cpu = cpu_at(0xC000);
    cpu.bus.write_byte(0xC000, 0xFB); // EI
    cpu.bus.write_byte(0xC001, 0xF3); // DI
    assert_eq!(cpu.step(), Ok(4));
    assert!(cpu.bus.get_ime());
    assert_eq!(cpu.step(), Ok(4));
    assert!(!cpu.bus.get_ime());
}

#[test]
fn undefined_opcode_is_fatal_and_leaves_state() {
    let mut cpu = cpu_at(0xC000);
    cpu.bus.write_byte(0xC000, 0xD3);
    let r = cpu.step();
    assert_eq!(r, Err(StepError::Undefined { pc: 0xC000, opcode: 0xD3 }));
    assert_eq!(cpu.pc, 0xC000);
}

#[test]
fn prefixed_bit_test_and_set_through_step() {
    let mut cpu = cpu_at(0xC000);
    cpu.bus.write_byte(0xC000, 0xCB);
    cpu.bus.write_byte(0xC001, 0x40); // BIT 0,B
    cpu.regs.b = 0xFE;
    assert_eq!(cpu.step(), Ok(8));
    assert!(cpu.regs.flag_z());
    assert!(!cpu.regs.flag_n());
    assert!(cpu.regs.flag_h());
    assert_eq!(cpu.regs.b, 0xFE);
    assert_eq!(cpu.pc, 0xC002);

    cpu.bus.write_byte(0xC002, 0xCB);
    cpu.bus.write_byte(0xC003, 0xC0); // SET 0,B
    assert_eq!(cpu.step(), Ok(8));
    assert_eq!(cpu.regs.b, 0xFF);

    cpu.bus.write_byte(0xC004, 0xCB);
    cpu.bus.write_byte(0xC005, 0xB8); // RES 7,B
    assert_eq!(cpu.step(), Ok(8));
    assert_eq!(cpu.regs.b, 0x7F);
}

#[test]
fn prefixed_shifts_and_swap() {
    let mut cpu = cpu_at(0xC000);
    cpu.regs.a = 0x81;
    cpu.bus.write_byte(0xC000, 0xCB);
    cpu.bus.write_byte(0xC001, 0x27); // SLA A
    assert_eq!(cpu.step(), Ok(8));
    assert_eq!(cpu.regs.a, 0x02);
    assert!(cpu.regs.flag_c());

    let mut cpu = cpu_at(0xC000);
    cpu.regs.d = 0x81;
    cpu.bus.write_byte(0xC000, 0xCB);
    cpu.bus.write_byte(0xC001, 0x2A); // SRA D keeps the sign bit
    assert_eq!(cpu.step(), Ok(8));
    assert_eq!(cpu.regs.d, 0xC0);
    assert!(cpu.regs.flag_c());

    let mut cpu = cpu_at(0xC000);
    cpu.regs.e = 0x81;
    cpu.bus.write_byte(0xC000, 0xCB);
    cpu.bus.write_byte(0xC001, 0x3B); // SRL E clears the sign bit
    assert_eq!(cpu.step(), Ok(8));
    assert_eq!(cpu.regs.e, 0x40);
    assert!(cpu.regs.flag_c());

    let mut cpu = cpu_at(0xC000);
    cpu.regs.h = 0xA5;
    cpu.bus.write_byte(0xC000, 0xCB);
    cpu.bus.write_byte(0xC001, 0x34); // SWAP H
    assert_eq!(cpu.step(), Ok(8));
    assert_eq!(cpu.regs.h, 0x5A);
    assert_eq!(cpu.regs.f, 0x00);
}

#[test]
fn prefixed_rotates_through_carry() {
    let mut cpu = cpu_at(0xC000);
    cpu.regs.c = 0x01;
    cpu.bus.write_byte(0xC000, 0xCB);
    cpu.bus.write_byte(0xC001, 0x09); // RRC C
    assert_eq!(cpu.step(), Ok(8));
    assert_eq!(cpu.regs.c, 0x80);
    assert!(cpu.regs.flag_c());

    let mut cpu = cpu_at(0xC000);
    cpu.regs.b = 0x80;
    cpu.regs.set_flags(false, false, false, false);
    cpu.bus.write_byte(0xC000, 0xCB);
    cpu.bus.write_byte(0xC001, 0x10); // RL B: bit 7 out, carry (0) in
    assert_eq!(cpu.step(), Ok(8));
    assert_eq!(cpu.regs.b, 0x00);
    assert!(cpu.regs.flag_z());
    assert!(cpu.regs.flag_c());

    let mut cpu = cpu_at(0xC000);
    cpu.regs.l = 0x01;
    cpu.regs.set_flags(false, false, false, true);
    cpu.bus.write_byte(0xC000, 0xCB);
    cpu.bus.write_byte(0xC001, 0x1D); // RR L: bit 0 out, carry (1) in
    assert_eq!(cpu.step(), Ok(8));
    assert_eq!(cpu.regs.l, 0x80);
    assert!(cpu.regs.flag_c());
}

#[test]
fn prefixed_rlc_through_step() {
    let mut cpu = cpu_at(0xC000);
    cpu.bus.write_byte(0xC000, 0xCB);
    cpu.bus.write_byte(0xC001, 0x00); // RLC B
    cpu.regs.b = 0x80;
    let r = cpu.step();
    assert_eq!(r, Ok(8));
    assert_eq!(cpu.regs.b, 0x01);
    assert!(cpu.regs.flag_c());
    assert!(!cpu.regs.flag_z());
    assert_eq!(cpu.pc, 0xC002);

    let mut cpu = cpu_at(0xC000);
    cpu.bus.write_byte(0xC000, 0xCB);
    cpu.bus.write_byte(0xC001, 0x06); // RLC (HL)
    cpu.regs.set_hl(0xC800);
    cpu.bus.write_byte(0xC800, 0x00);
    let r = cpu.step();
    assert_eq!(r, Ok(16));
    assert_eq!(cpu.bus.read_byte(0xC800), 0x00);
    assert!(cpu.regs.flag_z());
}

#[test]
fn load_family_moves_bytes_and_words() {
    // LD B,d8; LD (HL),B; LD A,(HL+); LD SP,HL.
    let mut cpu = cpu_at(0xC000);
    cpu.bus.write_byte(0xC000, 0x06);
    cpu.bus.write_byte(0xC001, 0x7E);
    assert_eq!(cpu.step(), Ok(8));
    assert_eq!(cpu.regs.b, 0x7E);

    cpu.regs.set_hl(0xC900);
    cpu.bus.write_byte(cpu.pc, 0x70); // LD (HL),B
    assert_eq!(cpu.step(), Ok(8));
    assert_eq!(cpu.bus.read_byte(0xC900), 0x7E);

    cpu.bus.write_byte(cpu.pc, 0x2A); // LD A,(HL+)
    assert_eq!(cpu.step(), Ok(8));
    assert_eq!(cpu.regs.a, 0x7E);
    assert_eq!(cpu.regs.get_hl(), 0xC901);

    cpu.bus.write_byte(cpu.pc, 0xF9); // LD SP,HL
    assert_eq!(cpu.step(), Ok(8));
    assert_eq!(cpu.sp, 0xC901);
}

#[test]
fn load_word_and_direct_sp_store() {
    let mut cpu = cpu_at(0xC000);
    cpu.bus.write_byte(0xC000, 0x31); // LD SP,d16
    cpu.bus.write_byte(0xC001, 0xCD);
    cpu.bus.write_byte(0xC002, 0xAB);
    assert_eq!(cpu.step(), Ok(12));
    assert_eq!(cpu.sp, 0xABCD);
    assert_eq!(cpu.pc, 0xC003);

    cpu.bus.write_byte(0xC003, 0x08); // LD (a16),SP
    cpu.bus.write_byte(0xC004, 0x00);
    cpu.bus.write_byte(0xC005, 0xCA);
    assert_eq!(cpu.step(), Ok(20));
    assert_eq!(cpu.bus.read_byte(0xCA00), 0xCD);
    assert_eq!(cpu.bus.read_byte(0xCA01), 0xAB);
}

#[test]
fn high_page_loads() {
    let mut cpu = cpu_at(0xC000);
    cpu.regs.a = 0x5A;
    cpu.bus.write_byte(0xC000, 0xE0); // LDH (a8),A
    cpu.bus.write_byte(0xC001, 0x80);
    assert_eq!(cpu.step(), Ok(12));
    assert_eq!(cpu.bus.read_byte(0xFF80), 0x5A);

    cpu.regs.c = 0x81;
    cpu.bus.write_byte(0xFF81, 0xA5);
    cpu.bus.write_byte(cpu.pc, 0xF2); // LD A,(C)
    assert_eq!(cpu.step(), Ok(8));
    assert_eq!(cpu.regs.a, 0xA5);
}

#[test]
fn jphl_jumps_to_hl() {
    let mut cpu = cpu_at(0xC000);
    cpu.regs.set_hl(0xD000);
    cpu.bus.write_byte(0xC000, 0xE9);
    assert_eq!(cpu.step(), Ok(4));
    assert_eq!(cpu.pc, 0xD000);
}

#[test]
fn stop_suspends_like_halt() {
    let mut cpu = cpu_at(0xC000);
    cpu.bus.write_byte(0xC000, 0x10);
    assert_eq!(cpu.step(), Ok(4));
    assert!(cpu.is_halted);
    assert_eq!(cpu.pc, 0xC001);
}
