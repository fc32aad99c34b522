use gb_core::cpu::CPU;
use gb_core::instructions::{ArithmeticTarget, IncDecTarget, Instruction, WordRegister};

fn cpu_at(pc: u16) -> CPU {
    let mut cpu = CPU::new();
    cpu.pc = pc;
    cpu.sp = 0xFFFE;
    cpu
}

#[test]
fn add_half_carry_boundary() {
    // ADD A,B with A=0x0F, B=0x01: A=0x10, Z=0, N=0, H=1, C=0.
    let mut cpu = cpu_at(0xC000);
    cpu.regs.a = 0x0F;
    cpu.regs.b = 0x01;
    let cycles = cpu.execute(Instruction::ADD(ArithmeticTarget::B));
    assert_eq!(cycles, 4);
    assert_eq!(cpu.regs.a, 0x10);
    assert!(!cpu.regs.flag_z());
    assert!(!cpu.regs.flag_n());
    assert!(cpu.regs.flag_h());
    assert!(!cpu.regs.flag_c());
    assert_eq!(cpu.pc, 0xC001);
}

#[test]
fn sub_borrow_boundary() {
    // SUB A,B with A=0x00, B=0x01: A=0xFF, Z=0, N=1, H=1, C=1.
    let mut cpu = cpu_at(0xC000);
    cpu.regs.a = 0x00;
    cpu.regs.b = 0x01;
    cpu.execute(Instruction::SUB(ArithmeticTarget::B));
    assert_eq!(cpu.regs.a, 0xFF);
    assert!(!cpu.regs.flag_z());
    assert!(cpu.regs.flag_n());
    assert!(cpu.regs.flag_h());
    assert!(cpu.regs.flag_c());
}

#[test]
fn add_full_carry_and_zero() {
    // ADD A,B with A=0xFF, B=0x01 wraps to zero with both carries.
    let mut cpu = cpu_at(0xC000);
    cpu.regs.a = 0xFF;
    cpu.regs.b = 0x01;
    cpu.execute(Instruction::ADD(ArithmeticTarget::B));
    assert_eq!(cpu.regs.a, 0x00);
    assert!(cpu.regs.flag_z());
    assert!(cpu.regs.flag_h());
    assert!(cpu.regs.flag_c());
}

#[test]
fn adc_uses_carry_in() {
    let mut cpu = cpu_at(0xC000);
    cpu.regs.a = 0x01;
    cpu.regs.c = 0x01;
    cpu.regs.set_flags(false, false, false, true);
    cpu.execute(Instruction::ADC(ArithmeticTarget::C));
    assert_eq!(cpu.regs.a, 0x03);
    assert!(!cpu.regs.flag_c());
}

#[test]
fn sbc_uses_carry_in() {
    let mut cpu = cpu_at(0xC000);
    cpu.regs.a = 0x03;
    cpu.regs.d = 0x01;
    cpu.regs.set_flags(false, false, false, true);
    cpu.execute(Instruction::SBC(ArithmeticTarget::D));
    assert_eq!(cpu.regs.a, 0x01);
    assert!(cpu.regs.flag_n());
    assert!(!cpu.regs.flag_c());
}

#[test]
fn and_sets_h_clears_c() {
    let mut cpu = cpu_at(0xC000);
    cpu.regs.a = 0xF0;
    cpu.regs.b = 0x0F;
    cpu.regs.set_flags(false, true, false, true);
    cpu.execute(Instruction::AND(ArithmeticTarget::B));
    assert_eq!(cpu.regs.a, 0x00);
    assert!(cpu.regs.flag_z());
    assert!(!cpu.regs.flag_n());
    assert!(cpu.regs.flag_h());
    assert!(!cpu.regs.flag_c());
}

#[test]
fn or_and_xor_clear_h_and_c() {
    let mut cpu = cpu_at(0xC000);
    cpu.regs.a = 0x55;
    cpu.regs.e = 0xAA;
    cpu.regs.set_flags(true, true, true, true);
    cpu.execute(Instruction::OR(ArithmeticTarget::E));
    assert_eq!(cpu.regs.a, 0xFF);
    assert_eq!(cpu.regs.f, 0x00);

    let mut cpu = cpu_at(0xC000);
    cpu.regs.a = 0xFF;
    cpu.execute(Instruction::XOR(ArithmeticTarget::A));
    assert_eq!(cpu.regs.a, 0x00);
    assert!(cpu.regs.flag_z());
    assert!(!cpu.regs.flag_h());
    assert!(!cpu.regs.flag_c());
}

#[test]
fn cp_keeps_accumulator() {
    let mut cpu = cpu_at(0xC000);
    cpu.regs.a = 0x42;
    cpu.regs.h = 0x42;
    cpu.execute(Instruction::CP(ArithmeticTarget::H));
    assert_eq!(cpu.regs.a, 0x42);
    assert!(cpu.regs.flag_z());
    assert!(cpu.regs.flag_n());
}

#[test]
fn inc_leaves_carry_untouched() {
    // The required asymmetry: INC/DEC update Z/N/H but never C.
    let mut cpu = cpu_at(0xC000);
    cpu.regs.b = 0x0F;
    cpu.regs.set_flags(false, true, false, true);
    cpu.execute(Instruction::INC(IncDecTarget::B));
    assert_eq!(cpu.regs.b, 0x10);
    assert!(!cpu.regs.flag_z());
    assert!(!cpu.regs.flag_n());
    assert!(cpu.regs.flag_h());
    assert!(cpu.regs.flag_c());
}

#[test]
fn dec_leaves_carry_untouched() {
    let mut cpu = cpu_at(0xC000);
    cpu.regs.d = 0x10;
    cpu.regs.set_flags(false, false, false, true);
    cpu.execute(Instruction::DEC(IncDecTarget::D));
    assert_eq!(cpu.regs.d, 0x0F);
    assert!(cpu.regs.flag_n());
    assert!(cpu.regs.flag_h());
    assert!(cpu.regs.flag_c());
}

#[test]
fn inc_wraps_to_zero() {
    let mut cpu = cpu_at(0xC000);
    cpu.regs.l = 0xFF;
    cpu.execute(Instruction::INC(IncDecTarget::L));
    assert_eq!(cpu.regs.l, 0x00);
    assert!(cpu.regs.flag_z());
    assert!(cpu.regs.flag_h());
}

#[test]
fn add16_carries_from_bit_11_and_15() {
    // ADD HL,BC with HL=0x0FFF, BC=0x0001: H from bit 11, Z untouched.
    let mut cpu = cpu_at(0xC000);
    cpu.regs.set_hl(0x0FFF);
    cpu.regs.set_bc(0x0001);
    cpu.regs.set_flags(true, true, false, false);
    let cycles = cpu.execute(Instruction::ADD16(WordRegister::BC));
    assert_eq!(cycles, 8);
    assert_eq!(cpu.regs.get_hl(), 0x1000);
    assert!(cpu.regs.flag_z());
    assert!(!cpu.regs.flag_n());
    assert!(cpu.regs.flag_h());
    assert!(!cpu.regs.flag_c());

    let mut cpu = cpu_at(0xC000);
    cpu.regs.set_hl(0xFFFF);
    cpu.regs.set_de(0x0001);
    cpu.execute(Instruction::ADD16(WordRegister::DE));
    assert_eq!(cpu.regs.get_hl(), 0x0000);
    assert!(cpu.regs.flag_h());
    assert!(cpu.regs.flag_c());
}

#[test]
fn inc16_and_dec16_touch_no_flags() {
    let mut cpu = cpu_at(0xC000);
    cpu.regs.set_bc(0xFFFF);
    cpu.regs.set_flags(true, true, true, true);
    cpu.execute(Instruction::INC16(WordRegister::BC));
    assert_eq!(cpu.regs.get_bc(), 0x0000);
    assert_eq!(cpu.regs.f, 0xF0);
    cpu.execute(Instruction::DEC16(WordRegister::BC));
    assert_eq!(cpu.regs.get_bc(), 0xFFFF);
    assert_eq!(cpu.regs.f, 0xF0);
}

#[test]
fn daa_corrects_bcd_addition() {
    // 0x15 + 0x27 = 0x3C; DAA turns it into BCD 0x42.
    let mut cpu = cpu_at(0xC000);
    cpu.regs.a = 0x15;
    cpu.regs.b = 0x27;
    cpu.execute(Instruction::ADD(ArithmeticTarget::B));
    assert_eq!(cpu.regs.a, 0x3C);
    cpu.execute(Instruction::DAA);
    assert_eq!(cpu.regs.a, 0x42);
    assert!(!cpu.regs.flag_z());
    assert!(!cpu.regs.flag_h());
    assert!(!cpu.regs.flag_c());
}

#[test]
fn scf_ccf_cpl_fixed_effects() {
    let mut cpu = cpu_at(0xC000);
    cpu.regs.set_flags(true, true, true, false);
    cpu.execute(Instruction::SCF);
    assert!(cpu.regs.flag_z());
    assert!(!cpu.regs.flag_n());
    assert!(!cpu.regs.flag_h());
    assert!(cpu.regs.flag_c());

    cpu.execute(Instruction::CCF);
    assert!(!cpu.regs.flag_c());

    cpu.regs.a = 0x35;
    cpu.execute(Instruction::CPL);
    assert_eq!(cpu.regs.a, 0xCA);
    assert!(cpu.regs.flag_n());
    assert!(cpu.regs.flag_h());
}

#[test]
fn rotates_on_accumulator() {
    let mut cpu = cpu_at(0xC000);
    cpu.regs.a = 0x85;
    cpu.execute(Instruction::RLCA);
    assert_eq!(cpu.regs.a, 0x0B);
    assert!(cpu.regs.flag_c());
    assert!(!cpu.regs.flag_z());

    let mut cpu = cpu_at(0xC000);
    cpu.regs.a = 0x80;
    cpu.regs.set_flags(false, false, false, false);
    cpu.execute(Instruction::RLA);
    assert_eq!(cpu.regs.a, 0x00);
    assert!(cpu.regs.flag_c());

    let mut cpu = cpu_at(0xC000);
    cpu.regs.a = 0x01;
    cpu.execute(Instruction::RRCA);
    assert_eq!(cpu.regs.a, 0x80);
    assert!(cpu.regs.flag_c());

    let mut cpu = cpu_at(0xC000);
    cpu.regs.a = 0x01;
    cpu.regs.set_flags(false, false, false, true);
    cpu.execute(Instruction::RRA);
    assert_eq!(cpu.regs.a, 0x80);
    assert!(cpu.regs.flag_c());
}

#[test]
fn add_sp_signed_displacement() {
    let mut cpu = cpu_at(0xC000);
    cpu.sp = 0xFFF8;
    cpu.bus.write_byte(0xC001, 0x08);
    let cycles = cpu.execute(Instruction::ADDSP8);
    assert_eq!(cycles, 16);
    assert_eq!(cpu.sp, 0x0000);
    assert!(!cpu.regs.flag_z());
    assert!(!cpu.regs.flag_n());

    let mut cpu = cpu_at(0xC000);
    cpu.sp = 0x0002;
    cpu.bus.write_byte(0xC001, 0xFE); // -2
    cpu.execute(Instruction::ADDSP8);
    assert_eq!(cpu.sp, 0x0000);
}
