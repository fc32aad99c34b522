//! The execution engine: fetch, decode, execute and interrupt dispatch, one
//! `step()` at a time, specified against a mathematical machine state.
//!
//! HALT is modeled as a clean suspend: fetch stops, each idle step costs one
//! machine-cycle unit, and fetch resumes at the following instruction once a
//! source has both its enable and flag bits set.  The hardware's double-fetch
//! glitch on entering HALT with interrupts disabled and a source already
//! pending is deliberately not reproduced.  STOP suspends the same way,
//! leaving a resumable state.  EI takes effect immediately rather than after
//! one instruction.

use vstd::prelude::*;
use crate::words::{
    spec_word, spec_hi, spec_lo, spec_wrap_add16, spec_wrap_sub16, make_word, hi_byte, lo_byte,
    wrap_add16, wrap_sub16, wrap_add8, wrap_sub8,
};
use crate::registers::{Registers, spec_flag_z, spec_flag_c};
use crate::instructions::{
    Instruction, JumpTest, ArithmeticTarget, IncDecTarget, PrefixTarget, WordRegister,
    StackTarget, AFromIndirectSource, LoadByteTarget, LoadByteSource, LoadType, RestartTarget,
    spec_decode_prefixed, spec_from_byte_not_prefixed, PREFIX_BYTE,
};
use crate::interrupts::{InterruptSource, InterruptController, INTERRUPT_DISPATCH_CYCLES};
use crate::bus::{MemoryBus, BusState, spec_bus_read, spec_bus_write};
use crate::alu;
use crate::alu::AluOut;

verus! {

/// The address an instruction leaves in the program counter.
pub type ProgramCounter = u16;

/// Cycle cost of one idle step while the engine is suspended.
pub const HALT_IDLE_CYCLES: u8 = 4;

/// A fatal condition `step()` surfaces to its caller, carrying the last-good
/// program counter and the offending opcode for diagnostics.
#[derive(Clone, Copy, PartialEq, Eq, Structural, Debug)]
pub enum StepError {
    /// The fetched opcode byte has no defined mapping: a decode failure,
    /// never silently treated as a no-op.
    Undefined { pc: u16, opcode: u8 },
}

/// Mathematical state of the whole machine: the register file, the two
/// control-flow registers, the suspend flag and the bus (which owns the
/// interrupt controller).
#[verifier::ext_equal]
pub ghost struct MachineState {
    pub regs: Registers,
    pub pc: u16,
    pub sp: u16,
    pub halted: bool,
    pub bus: BusState,
}

impl MachineState {
    pub open spec fn wf(self) -> bool {
        self.regs.wf() && self.bus.wf()
    }
}

/// The byte at `addr` as the bus resolves it.
pub open spec fn spec_mem_read(m: MachineState, addr: u16) -> u8 {
    spec_bus_read(m.bus, addr)
}

/// The machine after one bus write.
pub open spec fn spec_mem_write(m: MachineState, addr: u16, v: u8) -> MachineState {
    MachineState { bus: spec_bus_write(m.bus, addr, v), ..m }
}

/// The immediate byte following the opcode.
pub open spec fn spec_imm8(m: MachineState) -> u8 {
    spec_mem_read(m, spec_wrap_add16(m.pc, 1))
}

/// The 16-bit immediate following the opcode, little-endian.
pub open spec fn spec_imm16(m: MachineState) -> u16 {
    spec_word(
        spec_mem_read(m, spec_wrap_add16(m.pc, 2)),
        spec_mem_read(m, spec_wrap_add16(m.pc, 1)),
    )
}

/// Stack push: decrement, store the high byte, decrement, store the low
/// byte; the high byte ends at the higher address.
pub open spec fn spec_push16(m: MachineState, v: u16) -> MachineState {
    let sp1 = spec_wrap_sub16(m.sp, 1);
    let m1 = spec_mem_write(m, sp1, spec_hi(v));
    let sp2 = spec_wrap_sub16(m.sp, 2);
    let m2 = spec_mem_write(m1, sp2, spec_lo(v));
    MachineState { sp: sp2, ..m2 }
}

/// The word a stack pop yields: low byte at SP, high byte above it.
pub open spec fn spec_pop16_value(m: MachineState) -> u16 {
    spec_word(spec_mem_read(m, spec_wrap_add16(m.sp, 1)), spec_mem_read(m, m.sp))
}

/// The machine after a pop: only SP moves.
pub open spec fn spec_pop16_state(m: MachineState) -> MachineState {
    MachineState { sp: spec_wrap_add16(m.sp, 2), ..m }
}

/// `w` plus the byte `d` read as a two's-complement displacement.
pub open spec fn spec_signed_add16(w: u16, d: u8) -> u16 {
    if d < 0x80 {
        spec_wrap_add16(w, d as u16)
    } else {
        spec_wrap_add16(w, (0xFF00 + d) as u16)
    }
}

fn signed_add16(w: u16, d: u8) -> (r: u16)
    ensures
        r == spec_signed_add16(w, d),
{
    if d < 0x80 {
        wrap_add16(w, d as u16)
    } else {
        wrap_add16(w, 0xFF00 + d as u16)
    }
}

/// Whether a conditional instruction's test succeeds against the flags.
pub open spec fn spec_test(r: Registers, t: JumpTest) -> bool {
    match t {
        JumpTest::NotZero => !spec_flag_z(r.f),
        JumpTest::Zero => spec_flag_z(r.f),
        JumpTest::NotCarry => !spec_flag_c(r.f),
        JumpTest::Carry => spec_flag_c(r.f),
        JumpTest::Always => true,
    }
}

/// Cycle cost of a load, fixed by its descriptor alone.
pub open spec fn spec_load_cycles(lt: LoadType) -> u8 {
    match lt {
        LoadType::Byte(t, s) => if t is HLI && s is D8 {
            12
        } else if t is HLI || s is HLI || s is D8 {
            8
        } else {
            4
        },
        LoadType::Word(_) => 12,
        LoadType::AFromIndirect(_) => 8,
        LoadType::IndirectFromA(_) => 8,
        LoadType::AFromHighImmediate => 12,
        LoadType::HighImmediateFromA => 12,
        LoadType::AFromHighC => 8,
        LoadType::HighCFromA => 8,
        LoadType::AFromDirect => 16,
        LoadType::DirectFromA => 16,
        LoadType::SPFromHL => 8,
        LoadType::HLFromSPOffset => 12,
        LoadType::DirectFromSP => 20,
    }
}

/// Effect of a load on the machine (the program counter is left in place)
/// and the program counter the load hands back for the commit.
pub open spec fn spec_load(m: MachineState, lt: LoadType) -> (MachineState, u16) {
    match lt {
        LoadType::Byte(target, source) => {
            let v = match source {
                LoadByteSource::A => m.regs.a,
                LoadByteSource::B => m.regs.b,
                LoadByteSource::C => m.regs.c,
                LoadByteSource::D => m.regs.d,
                LoadByteSource::E => m.regs.e,
                LoadByteSource::H => m.regs.h,
                LoadByteSource::L => m.regs.l,
                LoadByteSource::D8 => spec_imm8(m),
                LoadByteSource::HLI => spec_mem_read(m, m.regs.spec_hl()),
            };
            let m1 = match target {
                LoadByteTarget::A => MachineState { regs: Registers { a: v, ..m.regs }, ..m },
                LoadByteTarget::B => MachineState { regs: Registers { b: v, ..m.regs }, ..m },
                LoadByteTarget::C => MachineState { regs: Registers { c: v, ..m.regs }, ..m },
                LoadByteTarget::D => MachineState { regs: Registers { d: v, ..m.regs }, ..m },
                LoadByteTarget::E => MachineState { regs: Registers { e: v, ..m.regs }, ..m },
                LoadByteTarget::H => MachineState { regs: Registers { h: v, ..m.regs }, ..m },
                LoadByteTarget::L => MachineState { regs: Registers { l: v, ..m.regs }, ..m },
                LoadByteTarget::HLI => spec_mem_write(m, m.regs.spec_hl(), v),
            };
            let npc = if source is D8 {
                spec_wrap_add16(m.pc, 2)
            } else {
                spec_wrap_add16(m.pc, 1)
            };
            (m1, npc)
        },
        LoadType::Word(target) => {
            let v = spec_imm16(m);
            let m1 = match target {
                WordRegister::BC => MachineState { regs: m.regs.spec_with_bc(v), ..m },
                WordRegister::DE => MachineState { regs: m.regs.spec_with_de(v), ..m },
                WordRegister::HL => MachineState { regs: m.regs.spec_with_hl(v), ..m },
                WordRegister::SP => MachineState { sp: v, ..m },
            };
            (m1, spec_wrap_add16(m.pc, 3))
        },
        LoadType::AFromIndirect(source) => {
            let m1 = match source {
                AFromIndirectSource::BC => MachineState {
                    regs: Registers { a: spec_mem_read(m, m.regs.spec_bc()), ..m.regs },
                    ..m
                },
                AFromIndirectSource::DE => MachineState {
                    regs: Registers { a: spec_mem_read(m, m.regs.spec_de()), ..m.regs },
                    ..m
                },
                AFromIndirectSource::HLInc => MachineState {
                    regs: Registers {
                        a: spec_mem_read(m, m.regs.spec_hl()),
                        ..m.regs
                    }.spec_with_hl(spec_wrap_add16(m.regs.spec_hl(), 1)),
                    ..m
                },
                AFromIndirectSource::HLDec => MachineState {
                    regs: Registers {
                        a: spec_mem_read(m, m.regs.spec_hl()),
                        ..m.regs
                    }.spec_with_hl(spec_wrap_sub16(m.regs.spec_hl(), 1)),
                    ..m
                },
            };
            (m1, spec_wrap_add16(m.pc, 1))
        },
        LoadType::IndirectFromA(target) => {
            let m1 = match target {
                AFromIndirectSource::BC => spec_mem_write(m, m.regs.spec_bc(), m.regs.a),
                AFromIndirectSource::DE => spec_mem_write(m, m.regs.spec_de(), m.regs.a),
                AFromIndirectSource::HLInc => MachineState {
                    regs: m.regs.spec_with_hl(spec_wrap_add16(m.regs.spec_hl(), 1)),
                    ..spec_mem_write(m, m.regs.spec_hl(), m.regs.a)
                },
                AFromIndirectSource::HLDec => MachineState {
                    regs: m.regs.spec_with_hl(spec_wrap_sub16(m.regs.spec_hl(), 1)),
                    ..spec_mem_write(m, m.regs.spec_hl(), m.regs.a)
                },
            };
            (m1, spec_wrap_add16(m.pc, 1))
        },
        LoadType::AFromHighImmediate => {
            let addr = (0xFF00 + spec_imm8(m)) as u16;
            (
                MachineState { regs: Registers { a: spec_mem_read(m, addr), ..m.regs }, ..m },
                spec_wrap_add16(m.pc, 2),
            )
        },
        LoadType::HighImmediateFromA => {
            let addr = (0xFF00 + spec_imm8(m)) as u16;
            (spec_mem_write(m, addr, m.regs.a), spec_wrap_add16(m.pc, 2))
        },
        LoadType::AFromHighC => {
            let addr = (0xFF00 + m.regs.c) as u16;
            (
                MachineState { regs: Registers { a: spec_mem_read(m, addr), ..m.regs }, ..m },
                spec_wrap_add16(m.pc, 1),
            )
        },
        LoadType::HighCFromA => {
            let addr = (0xFF00 + m.regs.c) as u16;
            (spec_mem_write(m, addr, m.regs.a), spec_wrap_add16(m.pc, 1))
        },
        LoadType::AFromDirect => {
            (
                MachineState {
                    regs: Registers { a: spec_mem_read(m, spec_imm16(m)), ..m.regs },
                    ..m
                },
                spec_wrap_add16(m.pc, 3),
            )
        },
        LoadType::DirectFromA => {
            (spec_mem_write(m, spec_imm16(m), m.regs.a), spec_wrap_add16(m.pc, 3))
        },
        LoadType::SPFromHL => {
            (MachineState { sp: m.regs.spec_hl(), ..m }, spec_wrap_add16(m.pc, 1))
        },
        LoadType::HLFromSPOffset => {
            let d = spec_imm8(m);
            let v = spec_signed_add16(m.sp, d);
            let h = m.sp % 0x10 + d % 0x10 > 0xF;
            let c = m.sp % 0x100 + d > 0xFF;
            (
                MachineState {
                    regs: m.regs.spec_with_hl(v).spec_with_flags(false, false, h, c),
                    ..m
                },
                spec_wrap_add16(m.pc, 2),
            )
        },
        LoadType::DirectFromSP => {
            let addr = spec_imm16(m);
            let m1 = spec_mem_write(m, addr, spec_lo(m.sp));
            let m2 = spec_mem_write(m1, spec_wrap_add16(addr, 1), spec_hi(m.sp));
            (m2, spec_wrap_add16(m.pc, 3))
        },
    }
}

/// The 16-bit value a stack instruction moves for its target pair.
pub open spec fn spec_stack_value(r: Registers, target: StackTarget) -> u16 {
    match target {
        StackTarget::BC => r.spec_bc(),
        StackTarget::DE => r.spec_de(),
        StackTarget::HL => r.spec_hl(),
        StackTarget::AF => r.spec_af(),
    }
}

/// The register file after a pop writes the target pair; a pop into AF
/// masks F so its low nibble stays zero.
pub open spec fn spec_pop_regs(r: Registers, target: StackTarget, v: u16) -> Registers {
    match target {
        StackTarget::BC => r.spec_with_bc(v),
        StackTarget::DE => r.spec_with_de(v),
        StackTarget::HL => r.spec_with_hl(v),
        StackTarget::AF => r.spec_with_af(v),
    }
}

/// The operand an accumulator-class instruction reads: a named register,
/// the byte addressed by HL, or the immediate byte after the opcode.
pub open spec fn spec_arith_operand(m: MachineState, t: ArithmeticTarget) -> u8 {
    match t {
        ArithmeticTarget::A => m.regs.a,
        ArithmeticTarget::B => m.regs.b,
        ArithmeticTarget::C => m.regs.c,
        ArithmeticTarget::D => m.regs.d,
        ArithmeticTarget::E => m.regs.e,
        ArithmeticTarget::H => m.regs.h,
        ArithmeticTarget::L => m.regs.l,
        ArithmeticTarget::HLI => spec_mem_read(m, m.regs.spec_hl()),
        ArithmeticTarget::D8 => spec_imm8(m),
    }
}

/// Program counter after an accumulator-class instruction: two bytes for an
/// immediate operand, one otherwise.
pub open spec fn spec_arith_npc(m: MachineState, t: ArithmeticTarget) -> u16 {
    if t is D8 {
        spec_wrap_add16(m.pc, 2)
    } else {
        spec_wrap_add16(m.pc, 1)
    }
}

/// Cycle cost of an accumulator-class instruction.
pub open spec fn spec_arith_cycles(t: ArithmeticTarget) -> u8 {
    if t is HLI || t is D8 {
        8
    } else {
        4
    }
}

/// Commit an ALU result: the accumulator takes the value, the flags take
/// the four outputs, the program counter moves.
pub open spec fn spec_apply_acc(m: MachineState, out: AluOut, npc: u16) -> MachineState {
    MachineState {
        regs: Registers { a: out.v, ..m.regs }.spec_with_flags(out.z, out.n, out.h, out.c),
        pc: npc,
        ..m
    }
}

/// Commit a compare: the flags take the outputs, the accumulator is kept.
pub open spec fn spec_apply_cp(m: MachineState, out: AluOut, npc: u16) -> MachineState {
    MachineState {
        regs: m.regs.spec_with_flags(out.z, out.n, out.h, out.c),
        pc: npc,
        ..m
    }
}

/// The byte an INC/DEC target currently holds.
pub open spec fn spec_incdec_read(m: MachineState, t: IncDecTarget) -> u8 {
    match t {
        IncDecTarget::A => m.regs.a,
        IncDecTarget::B => m.regs.b,
        IncDecTarget::C => m.regs.c,
        IncDecTarget::D => m.regs.d,
        IncDecTarget::E => m.regs.e,
        IncDecTarget::H => m.regs.h,
        IncDecTarget::L => m.regs.l,
        IncDecTarget::HLI => spec_mem_read(m, m.regs.spec_hl()),
    }
}

/// The machine after an INC/DEC target takes a new byte.
pub open spec fn spec_incdec_write(m: MachineState, t: IncDecTarget, v: u8) -> MachineState {
    match t {
        IncDecTarget::A => MachineState { regs: Registers { a: v, ..m.regs }, ..m },
        IncDecTarget::B => MachineState { regs: Registers { b: v, ..m.regs }, ..m },
        IncDecTarget::C => MachineState { regs: Registers { c: v, ..m.regs }, ..m },
        IncDecTarget::D => MachineState { regs: Registers { d: v, ..m.regs }, ..m },
        IncDecTarget::E => MachineState { regs: Registers { e: v, ..m.regs }, ..m },
        IncDecTarget::H => MachineState { regs: Registers { h: v, ..m.regs }, ..m },
        IncDecTarget::L => MachineState { regs: Registers { l: v, ..m.regs }, ..m },
        IncDecTarget::HLI => spec_mem_write(m, m.regs.spec_hl(), v),
    }
}

/// Cycle cost of INC/DEC: a memory target reads and writes back.
pub open spec fn spec_incdec_cycles(t: IncDecTarget) -> u8 {
    if t is HLI {
        12
    } else {
        4
    }
}

/// The byte a prefixed rotate reads.
pub open spec fn spec_prefix_read(m: MachineState, t: PrefixTarget) -> u8 {
    match t {
        PrefixTarget::A => m.regs.a,
        PrefixTarget::B => m.regs.b,
        PrefixTarget::C => m.regs.c,
        PrefixTarget::D => m.regs.d,
        PrefixTarget::E => m.regs.e,
        PrefixTarget::H => m.regs.h,
        PrefixTarget::L => m.regs.l,
        PrefixTarget::HLI => spec_mem_read(m, m.regs.spec_hl()),
    }
}

/// The machine after a prefixed rotate writes its result back.
pub open spec fn spec_prefix_write(m: MachineState, t: PrefixTarget, v: u8) -> MachineState {
    match t {
        PrefixTarget::A => MachineState { regs: Registers { a: v, ..m.regs }, ..m },
        PrefixTarget::B => MachineState { regs: Registers { b: v, ..m.regs }, ..m },
        PrefixTarget::C => MachineState { regs: Registers { c: v, ..m.regs }, ..m },
        PrefixTarget::D => MachineState { regs: Registers { d: v, ..m.regs }, ..m },
        PrefixTarget::E => MachineState { regs: Registers { e: v, ..m.regs }, ..m },
        PrefixTarget::H => MachineState { regs: Registers { h: v, ..m.regs }, ..m },
        PrefixTarget::L => MachineState { regs: Registers { l: v, ..m.regs }, ..m },
        PrefixTarget::HLI => spec_mem_write(m, m.regs.spec_hl(), v),
    }
}

pub open spec fn spec_prefix_cycles(t: PrefixTarget) -> u8 {
    if t is HLI {
        16
    } else {
        8
    }
}

/// The value of a 16-bit arithmetic register: BC, DE, HL or SP.
pub open spec fn spec_word_reg(m: MachineState, wr: WordRegister) -> u16 {
    match wr {
        WordRegister::BC => m.regs.spec_bc(),
        WordRegister::DE => m.regs.spec_de(),
        WordRegister::HL => m.regs.spec_hl(),
        WordRegister::SP => m.sp,
    }
}

/// The machine after a 16-bit arithmetic register takes a new value.
pub open spec fn spec_word_reg_write(m: MachineState, wr: WordRegister, v: u16) -> MachineState {
    match wr {
        WordRegister::BC => MachineState { regs: m.regs.spec_with_bc(v), ..m },
        WordRegister::DE => MachineState { regs: m.regs.spec_with_de(v), ..m },
        WordRegister::HL => MachineState { regs: m.regs.spec_with_hl(v), ..m },
        WordRegister::SP => MachineState { sp: v, ..m },
    }
}

/// The fixed service address a restart instruction jumps to.
pub open spec fn spec_rst_vector(t: RestartTarget) -> u16 {
    match t {
        RestartTarget::Zero => 0x00,
        RestartTarget::One => 0x08,
        RestartTarget::Two => 0x10,
        RestartTarget::Three => 0x18,
        RestartTarget::Four => 0x20,
        RestartTarget::Five => 0x28,
        RestartTarget::Six => 0x30,
        RestartTarget::Seven => 0x38,
    }
}

/// The machine with the master-enable flag replaced.
pub open spec fn spec_with_ime(m: MachineState, enabled: bool) -> MachineState {
    MachineState {
        bus: BusState {
            ints: InterruptController { ime: enabled, ..m.bus.ints },
            ..m.bus
        },
        ..m
    }
}

/// One byte rotated left circularly, and the bit that fell out.
pub open spec fn spec_rlc_byte(v: u8) -> (u8, bool) {
    (((v % 0x80) * 2 + v / 0x80) as u8, v >= 0x80)
}

/// One byte rotated right circularly, and the bit that fell out.
pub open spec fn spec_rrc_byte(v: u8) -> (u8, bool) {
    ((v / 2 + (v % 2) * 0x80) as u8, v % 2 == 1)
}

/// One byte rotated left through the carry flag.
pub open spec fn spec_rl_byte(v: u8, cin: bool) -> (u8, bool) {
    (((v % 0x80) * 2 + (if cin { 1u8 } else { 0u8 })) as u8, v >= 0x80)
}

/// One byte rotated right through the carry flag.
pub open spec fn spec_rr_byte(v: u8, cin: bool) -> (u8, bool) {
    ((v / 2 + (if cin { 0x80u8 } else { 0u8 })) as u8, v % 2 == 1)
}

/// One byte shifted left arithmetically, low bit cleared.
pub open spec fn spec_sla_byte(v: u8) -> (u8, bool) {
    (((v % 0x80) * 2) as u8, v >= 0x80)
}

/// One byte shifted right arithmetically, sign bit kept.
pub open spec fn spec_sra_byte(v: u8) -> (u8, bool) {
    ((v / 2 + (v / 0x80) * 0x80) as u8, v % 2 == 1)
}

/// The two nibbles of one byte exchanged.
pub open spec fn spec_swap_byte(v: u8) -> u8 {
    ((v % 0x10) * 0x10 + v / 0x10) as u8
}

/// One byte shifted right logically, high bit cleared.
pub open spec fn spec_srl_byte(v: u8) -> (u8, bool) {
    ((v / 2) as u8, v % 2 == 1)
}

/// Cycle cost of a prefixed bit test: a memory operand only reads.
pub open spec fn spec_bit_cycles(t: PrefixTarget) -> u8 {
    if t is HLI {
        12
    } else {
        8
    }
}

/// Effect of one decoded instruction: the machine after it (program counter
/// committed) and its cycle cost.
#[verifier::opaque]
pub open spec fn spec_execute(m: MachineState, instr: Instruction) -> (MachineState, u8) {
    let pc1 = spec_wrap_add16(m.pc, 1);
    match instr {
        Instruction::NOP => (MachineState { pc: pc1, ..m }, 4),
        Instruction::HALT => (MachineState { pc: pc1, halted: true, ..m }, 4),
        Instruction::STOP => (MachineState { pc: pc1, halted: true, ..m }, 4),
        Instruction::SCF => (
            MachineState {
                regs: m.regs.spec_with_flags(m.regs.spec_z(), false, false, true),
                pc: pc1,
                ..m
            },
            4,
        ),
        Instruction::CCF => (
            MachineState {
                regs: m.regs.spec_with_flags(m.regs.spec_z(), false, false, !m.regs.spec_c_flag()),
                pc: pc1,
                ..m
            },
            4,
        ),
        Instruction::CPL => (
            MachineState {
                regs: Registers { a: (0xFF - m.regs.a) as u8, ..m.regs }.spec_with_flags(
                    m.regs.spec_z(),
                    true,
                    true,
                    m.regs.spec_c_flag(),
                ),
                pc: pc1,
                ..m
            },
            4,
        ),
        Instruction::DAA => {
            let (v, c) = alu::spec_daa(m.regs.a, m.regs.spec_n(), m.regs.spec_h_flag(), m.regs.spec_c_flag());
            (
                MachineState {
                    regs: Registers { a: v, ..m.regs }.spec_with_flags(v == 0, m.regs.spec_n(), false, c),
                    pc: pc1,
                    ..m
                },
                4,
            )
        },
        Instruction::DI => (MachineState { pc: pc1, ..spec_with_ime(m, false) }, 4),
        Instruction::EI => (MachineState { pc: pc1, ..spec_with_ime(m, true) }, 4),
        Instruction::RLCA => {
            let (v, c) = spec_rlc_byte(m.regs.a);
            (
                MachineState {
                    regs: Registers { a: v, ..m.regs }.spec_with_flags(false, false, false, c),
                    pc: pc1,
                    ..m
                },
                4,
            )
        },
        Instruction::RLA => {
            let cin: u8 = if m.regs.spec_c_flag() { 1 } else { 0 };
            let v = ((m.regs.a % 0x80) * 2 + cin) as u8;
            (
                MachineState {
                    regs: Registers { a: v, ..m.regs }.spec_with_flags(
                        false,
                        false,
                        false,
                        m.regs.a >= 0x80,
                    ),
                    pc: pc1,
                    ..m
                },
                4,
            )
        },
        Instruction::RRCA => {
            let v = (m.regs.a / 2 + (m.regs.a % 2) * 0x80) as u8;
            (
                MachineState {
                    regs: Registers { a: v, ..m.regs }.spec_with_flags(
                        false,
                        false,
                        false,
                        m.regs.a % 2 == 1,
                    ),
                    pc: pc1,
                    ..m
                },
                4,
            )
        },
        Instruction::RRA => {
            let cin: u8 = if m.regs.spec_c_flag() { 0x80 } else { 0 };
            let v = (m.regs.a / 2 + cin) as u8;
            (
                MachineState {
                    regs: Registers { a: v, ..m.regs }.spec_with_flags(
                        false,
                        false,
                        false,
                        m.regs.a % 2 == 1,
                    ),
                    pc: pc1,
                    ..m
                },
                4,
            )
        },
        Instruction::ADD(t) => (
            spec_apply_acc(
                m,
                alu::spec_add8(m.regs.a, spec_arith_operand(m, t), false),
                spec_arith_npc(m, t),
            ),
            spec_arith_cycles(t),
        ),
        Instruction::ADC(t) => (
            spec_apply_acc(
                m,
                alu::spec_add8(m.regs.a, spec_arith_operand(m, t), m.regs.spec_c_flag()),
                spec_arith_npc(m, t),
            ),
            spec_arith_cycles(t),
        ),
        Instruction::SUB(t) => (
            spec_apply_acc(
                m,
                alu::spec_sub8(m.regs.a, spec_arith_operand(m, t), false),
                spec_arith_npc(m, t),
            ),
            spec_arith_cycles(t),
        ),
        Instruction::SBC(t) => (
            spec_apply_acc(
                m,
                alu::spec_sub8(m.regs.a, spec_arith_operand(m, t), m.regs.spec_c_flag()),
                spec_arith_npc(m, t),
            ),
            spec_arith_cycles(t),
        ),
        Instruction::AND(t) => (
            spec_apply_acc(
                m,
                alu::spec_and8(m.regs.a, spec_arith_operand(m, t)),
                spec_arith_npc(m, t),
            ),
            spec_arith_cycles(t),
        ),
        Instruction::OR(t) => (
            spec_apply_acc(
                m,
                alu::spec_or8(m.regs.a, spec_arith_operand(m, t)),
                spec_arith_npc(m, t),
            ),
            spec_arith_cycles(t),
        ),
        Instruction::XOR(t) => (
            spec_apply_acc(
                m,
                alu::spec_xor8(m.regs.a, spec_arith_operand(m, t)),
                spec_arith_npc(m, t),
            ),
            spec_arith_cycles(t),
        ),
        Instruction::CP(t) => (
            spec_apply_cp(
                m,
                alu::spec_sub8(m.regs.a, spec_arith_operand(m, t), false),
                spec_arith_npc(m, t),
            ),
            spec_arith_cycles(t),
        ),
        Instruction::INC(t) => {
            let (v, z, n, h) = alu::spec_inc8(spec_incdec_read(m, t));
            let m1 = spec_incdec_write(m, t, v);
            (
                MachineState {
                    regs: m1.regs.spec_with_flags(z, n, h, m.regs.spec_c_flag()),
                    pc: pc1,
                    ..m1
                },
                spec_incdec_cycles(t),
            )
        },
        Instruction::DEC(t) => {
            let (v, z, n, h) = alu::spec_dec8(spec_incdec_read(m, t));
            let m1 = spec_incdec_write(m, t, v);
            (
                MachineState {
                    regs: m1.regs.spec_with_flags(z, n, h, m.regs.spec_c_flag()),
                    pc: pc1,
                    ..m1
                },
                spec_incdec_cycles(t),
            )
        },
        Instruction::ADDSP8 => {
            let d = spec_imm8(m);
            (
                MachineState {
                    regs: m.regs.spec_with_flags(
                        false,
                        false,
                        m.sp % 0x10 + d % 0x10 > 0xF,
                        m.sp % 0x100 + d > 0xFF,
                    ),
                    sp: spec_signed_add16(m.sp, d),
                    pc: spec_wrap_add16(m.pc, 2),
                    ..m
                },
                16,
            )
        },
        Instruction::ADD16(wr) => {
            let (v, h, c) = alu::spec_add16(m.regs.spec_hl(), spec_word_reg(m, wr));
            (
                MachineState {
                    regs: m.regs.spec_with_hl(v).spec_with_flags(m.regs.spec_z(), false, h, c),
                    pc: pc1,
                    ..m
                },
                8,
            )
        },
        Instruction::INC16(wr) => (
            MachineState {
                pc: pc1,
                ..spec_word_reg_write(m, wr, spec_wrap_add16(spec_word_reg(m, wr), 1))
            },
            8,
        ),
        Instruction::DEC16(wr) => (
            MachineState {
                pc: pc1,
                ..spec_word_reg_write(m, wr, spec_wrap_sub16(spec_word_reg(m, wr), 1))
            },
            8,
        ),
        Instruction::LD(lt) => {
            let (m1, npc) = spec_load(m, lt);
            (MachineState { pc: npc, ..m1 }, spec_load_cycles(lt))
        },
        Instruction::JP(test) => if spec_test(m.regs, test) {
            (MachineState { pc: spec_imm16(m), ..m }, 16)
        } else {
            (MachineState { pc: spec_wrap_add16(m.pc, 3), ..m }, 12)
        },
        Instruction::JR(test) => if spec_test(m.regs, test) {
            (
                MachineState {
                    pc: spec_signed_add16(spec_wrap_add16(m.pc, 2), spec_imm8(m)),
                    ..m
                },
                12,
            )
        } else {
            (MachineState { pc: spec_wrap_add16(m.pc, 2), ..m }, 8)
        },
        Instruction::JPHL => (MachineState { pc: m.regs.spec_hl(), ..m }, 4),
        Instruction::CALL(test) => if spec_test(m.regs, test) {
            (
                MachineState {
                    pc: spec_imm16(m),
                    ..spec_push16(m, spec_wrap_add16(m.pc, 3))
                },
                24,
            )
        } else {
            (MachineState { pc: spec_wrap_add16(m.pc, 3), ..m }, 12)
        },
        Instruction::RET(test) => if test is Always {
            (
                MachineState { pc: spec_pop16_value(m), ..spec_pop16_state(m) },
                16,
            )
        } else if spec_test(m.regs, test) {
            (
                MachineState { pc: spec_pop16_value(m), ..spec_pop16_state(m) },
                20,
            )
        } else {
            (MachineState { pc: pc1, ..m }, 8)
        },
        Instruction::RETI => (
            spec_with_ime(
                MachineState { pc: spec_pop16_value(m), ..spec_pop16_state(m) },
                true,
            ),
            16,
        ),
        Instruction::RST(t) => (
            MachineState { pc: spec_rst_vector(t), ..spec_push16(m, pc1) },
            16,
        ),
        Instruction::PUSH(st) => (
            MachineState { pc: pc1, ..spec_push16(m, spec_stack_value(m.regs, st)) },
            16,
        ),
        Instruction::POP(st) => (
            MachineState {
                regs: spec_pop_regs(m.regs, st, spec_pop16_value(m)),
                pc: pc1,
                ..spec_pop16_state(m)
            },
            12,
        ),
        Instruction::RLC(t) => {
            let (v, c) = spec_rlc_byte(spec_prefix_read(m, t));
            let m1 = spec_prefix_write(m, t, v);
            (
                MachineState {
                    regs: m1.regs.spec_with_flags(v == 0, false, false, c),
                    pc: spec_wrap_add16(m.pc, 2),
                    ..m1
                },
                spec_prefix_cycles(t),
            )
        },
        Instruction::RRC(t) => {
            let (v, c) = spec_rrc_byte(spec_prefix_read(m, t));
            let m1 = spec_prefix_write(m, t, v);
            (
                MachineState {
                    regs: m1.regs.spec_with_flags(v == 0, false, false, c),
                    pc: spec_wrap_add16(m.pc, 2),
                    ..m1
                },
                spec_prefix_cycles(t),
            )
        },
        Instruction::RL(t) => {
            let (v, c) = spec_rl_byte(spec_prefix_read(m, t), m.regs.spec_c_flag());
            let m1 = spec_prefix_write(m, t, v);
            (
                MachineState {
                    regs: m1.regs.spec_with_flags(v == 0, false, false, c),
                    pc: spec_wrap_add16(m.pc, 2),
                    ..m1
                },
                spec_prefix_cycles(t),
            )
        },
        Instruction::RR(t) => {
            let (v, c) = spec_rr_byte(spec_prefix_read(m, t), m.regs.spec_c_flag());
            let m1 = spec_prefix_write(m, t, v);
            (
                MachineState {
                    regs: m1.regs.spec_with_flags(v == 0, false, false, c),
                    pc: spec_wrap_add16(m.pc, 2),
                    ..m1
                },
                spec_prefix_cycles(t),
            )
        },
        Instruction::SLA(t) => {
            let (v, c) = spec_sla_byte(spec_prefix_read(m, t));
            let m1 = spec_prefix_write(m, t, v);
            (
                MachineState {
                    regs: m1.regs.spec_with_flags(v == 0, false, false, c),
                    pc: spec_wrap_add16(m.pc, 2),
                    ..m1
                },
                spec_prefix_cycles(t),
            )
        },
        Instruction::SRA(t) => {
            let (v, c) = spec_sra_byte(spec_prefix_read(m, t));
            let m1 = spec_prefix_write(m, t, v);
            (
                MachineState {
                    regs: m1.regs.spec_with_flags(v == 0, false, false, c),
                    pc: spec_wrap_add16(m.pc, 2),
                    ..m1
                },
                spec_prefix_cycles(t),
            )
        },
        Instruction::SWAP(t) => {
            let v = spec_swap_byte(spec_prefix_read(m, t));
            let m1 = spec_prefix_write(m, t, v);
            (
                MachineState {
                    regs: m1.regs.spec_with_flags(v == 0, false, false, false),
                    pc: spec_wrap_add16(m.pc, 2),
                    ..m1
                },
                spec_prefix_cycles(t),
            )
        },
        Instruction::SRL(t) => {
            let (v, c) = spec_srl_byte(spec_prefix_read(m, t));
            let m1 = spec_prefix_write(m, t, v);
            (
                MachineState {
                    regs: m1.regs.spec_with_flags(v == 0, false, false, c),
                    pc: spec_wrap_add16(m.pc, 2),
                    ..m1
                },
                spec_prefix_cycles(t),
            )
        },
        Instruction::BIT(b, t) => {
            let z = !crate::words::spec_bit_set(spec_prefix_read(m, t), b.spec_mask());
            (
                MachineState {
                    regs: m.regs.spec_with_flags(z, false, true, m.regs.spec_c_flag()),
                    pc: spec_wrap_add16(m.pc, 2),
                    ..m
                },
                spec_bit_cycles(t),
            )
        },
        Instruction::RES(b, t) => (
            MachineState {
                pc: spec_wrap_add16(m.pc, 2),
                ..spec_prefix_write(
                    m,
                    t,
                    crate::words::spec_clear_bit(spec_prefix_read(m, t), b.spec_mask()),
                )
            },
            spec_prefix_cycles(t),
        ),
        Instruction::SET(b, t) => (
            MachineState {
                pc: spec_wrap_add16(m.pc, 2),
                ..spec_prefix_write(
                    m,
                    t,
                    crate::words::spec_set_bit(spec_prefix_read(m, t), b.spec_mask()),
                )
            },
            spec_prefix_cycles(t),
        ),
    }
}

/// The interrupt-dispatch sequence for source `src`: push the current
/// program counter, clear IME, clear the source's flag bit, jump to its
/// fixed service vector, and leave any suspend.
pub open spec fn spec_dispatch(m: MachineState, src: InterruptSource) -> MachineState {
    let m1 = spec_push16(m, m.pc);
    MachineState {
        pc: src.spec_vector(),
        halted: false,
        bus: BusState {
            ints: InterruptController {
                ime: false,
                flags: crate::words::spec_clear_bit(m1.bus.ints.flags, src.spec_mask()),
                ..m1.bus.ints
            },
            ..m1.bus
        },
        ..m1
    }
}

/// Fetch the byte at PC, decode it (through the prefix escape if present)
/// and execute it; an undecodable byte is a fatal result, never a silent
/// no-op.
#[verifier::opaque]
pub open spec fn spec_fetch_exec(m: MachineState) -> Result<(MachineState, u8), StepError> {
    let op = spec_mem_read(m, m.pc);
    if op == PREFIX_BYTE {
        let op2 = spec_mem_read(m, spec_wrap_add16(m.pc, 1));
        Ok(spec_execute(m, spec_decode_prefixed(op2)))
    } else {
        match spec_from_byte_not_prefixed(op) {
            Some(i) => Ok(spec_execute(m, i)),
            None => Err(StepError::Undefined { pc: m.pc, opcode: op }),
        }
    }
}

/// One step of the machine: interrupt dispatch pre-empts fetch when IME is
/// set and a source is serviceable; a suspended machine idles until a source
/// has both bits set, then resumes at the instruction after the suspend;
/// otherwise fetch, decode and execute.
pub open spec fn spec_step(m: MachineState) -> Result<(MachineState, u8), StepError> {
    match (if m.bus.ints.ime {
        m.bus.ints.spec_next_pending()
    } else {
        None
    }) {
        Some(src) => Ok((spec_dispatch(m, src), INTERRUPT_DISPATCH_CYCLES)),
        None => if m.halted {
            if m.bus.ints.spec_any_pending() {
                spec_fetch_exec(MachineState { halted: false, ..m })
            } else {
                Ok((m, HALT_IDLE_CYCLES))
            }
        } else {
            spec_fetch_exec(m)
        },
    }
}

/// The execution context: the register file, PC and SP (owned here, not by
/// the register file, since they drive control flow), the suspend flag and
/// the bus.
pub struct CPU {
    pub regs: Registers,
    pub pc: u16,
    pub sp: u16,
    pub is_halted: bool,
    pub bus: MemoryBus,
}

impl View for CPU {
    type V = MachineState;

    open spec fn view(&self) -> MachineState {
        MachineState {
            regs: self.regs,
            pc: self.pc,
            sp: self.sp,
            halted: self.is_halted,
            bus: self.bus@,
        }
    }
}

impl CPU {
    /// Power-on state: cleared registers, PC and SP at zero, not suspended,
    /// the bus in its power-on state with the boot overlay mapped.
    pub fn new() -> (r: CPU)
        ensures
            r@.wf(),
            r@.regs == (Registers { a: 0u8, b: 0u8, c: 0u8, d: 0u8, e: 0u8, f: 0u8, h: 0u8, l: 0u8 }),
            r@.pc == 0u16,
            r@.sp == 0u16,
            !r@.halted,
            r@.bus.boot_mapped,
            r@.bus.ints == (InterruptController { enable: 0u8, flags: 0u8, ime: false }),
            forall|i: int| 0 <= i < 0x10000 ==> r@.bus.mem[i] == 0u8,
            forall|i: int| 0 <= i < 0x100 ==> r@.bus.boot_rom[i] == 0u8,
    {
        CPU {
            regs: Registers::new(),
            pc: 0,
            sp: 0,
            is_halted: false,
            bus: MemoryBus::new(),
        }
    }

    /// The byte after the opcode at PC; the decoder itself never reads it.
    pub fn read_next_byte(&self) -> (r: u8)
        requires
            self@.wf(),
        ensures
            r == spec_imm8(self@),
    {
        self.bus.read_byte(wrap_add16(self.pc, 1))
    }

    /// The 16-bit immediate after the opcode at PC, low byte first.
    pub fn read_next_word(&self) -> (r: u16)
        requires
            self@.wf(),
        ensures
            r == spec_imm16(self@),
    {
        make_word(
            self.bus.read_byte(wrap_add16(self.pc, 2)),
            self.bus.read_byte(wrap_add16(self.pc, 1)),
        )
    }

    /// Push a word: SP moves down twice, one byte stored at a time, the high
    /// byte at the higher address.
    pub fn push_value(&mut self, value: u16)
        requires
            old(self)@.wf(),
        ensures
            final(self)@ == spec_push16(old(self)@, value),
            final(self)@.wf(),
    {
        self.sp = wrap_sub16(self.sp, 1);
        self.bus.write_byte(self.sp, hi_byte(value));
        self.sp = wrap_sub16(self.sp, 1);
        self.bus.write_byte(self.sp, lo_byte(value));
        proof {
            crate::words::lemma_sub16_twice(old(self).sp);
            assert(self@ =~= spec_push16(old(self)@, value));
        }
    }

    /// Pop a word: read at SP and above it, SP moves up twice.
    pub fn pop_value(&mut self) -> (r: u16)
        requires
            old(self)@.wf(),
        ensures
            r == spec_pop16_value(old(self)@),
            final(self)@ == spec_pop16_state(old(self)@),
            final(self)@.wf(),
    {
        let lsb = self.bus.read_byte(self.sp);
        self.sp = wrap_add16(self.sp, 1);
        let msb = self.bus.read_byte(self.sp);
        self.sp = wrap_add16(self.sp, 1);
        proof {
            crate::words::lemma_add16_twice(old(self).sp);
            assert(self@ =~= spec_pop16_state(old(self)@));
        }
        make_word(msb, lsb)
    }

    /// A load moves a byte or word between a register, an immediate operand
    /// or a memory location addressed by a register pair; the caller commits
    /// the returned program counter.
    pub fn load(&mut self, load_type: LoadType) -> (npc: ProgramCounter)
        requires
            old(self)@.wf(),
        ensures
            final(self)@ == spec_load(old(self)@, load_type).0,
            npc == spec_load(old(self)@, load_type).1,
            final(self)@.wf(),
    {
        match load_type {
            LoadType::Byte(target, source) => {
                let source_value = match source {
                    LoadByteSource::A => self.regs.a,
                    LoadByteSource::B => self.regs.b,
                    LoadByteSource::C => self.regs.c,
                    LoadByteSource::D => self.regs.d,
                    LoadByteSource::E => self.regs.e,
                    LoadByteSource::H => self.regs.h,
                    LoadByteSource::L => self.regs.l,
                    LoadByteSource::D8 => self.read_next_byte(),
                    LoadByteSource::HLI => self.bus.read_byte(self.regs.get_hl()),
                };
                match target {
                    LoadByteTarget::A => self.regs.a = source_value,
                    LoadByteTarget::B => self.regs.b = source_value,
                    LoadByteTarget::C => self.regs.c = source_value,
                    LoadByteTarget::D => self.regs.d = source_value,
                    LoadByteTarget::E => self.regs.e = source_value,
                    LoadByteTarget::H => self.regs.h = source_value,
                    LoadByteTarget::L => self.regs.l = source_value,
                    LoadByteTarget::HLI => self.bus.write_byte(self.regs.get_hl(), source_value),
                };
                match source {
                    LoadByteSource::D8 => wrap_add16(self.pc, 2),
                    _ => wrap_add16(self.pc, 1),
                }
            },
            LoadType::Word(target) => {
                let v = self.read_next_word();
                match target {
                    WordRegister::BC => self.regs.set_bc(v),
                    WordRegister::DE => self.regs.set_de(v),
                    WordRegister::HL => self.regs.set_hl(v),
                    WordRegister::SP => self.sp = v,
                }
                wrap_add16(self.pc, 3)
            },
            LoadType::AFromIndirect(source) => {
                match source {
                    AFromIndirectSource::BC => {
                        let addr = self.regs.get_bc();
                        self.regs.a = self.bus.read_byte(addr);
                    },
                    AFromIndirectSource::DE => {
                        let addr = self.regs.get_de();
                        self.regs.a = self.bus.read_byte(addr);
                    },
                    AFromIndirectSource::HLInc => {
                        let addr = self.regs.get_hl();
                        self.regs.a = self.bus.read_byte(addr);
                        self.regs.set_hl(wrap_add16(addr, 1));
                    },
                    AFromIndirectSource::HLDec => {
                        let addr = self.regs.get_hl();
                        self.regs.a = self.bus.read_byte(addr);
                        self.regs.set_hl(wrap_sub16(addr, 1));
                    },
                }
                wrap_add16(self.pc, 1)
            },
            LoadType::IndirectFromA(target) => {
                match target {
                    AFromIndirectSource::BC => {
                        let addr = self.regs.get_bc();
                        self.bus.write_byte(addr, self.regs.a);
                    },
                    AFromIndirectSource::DE => {
                        let addr = self.regs.get_de();
                        self.bus.write_byte(addr, self.regs.a);
                    },
                    AFromIndirectSource::HLInc => {
                        let addr = self.regs.get_hl();
                        self.bus.write_byte(addr, self.regs.a);
                        self.regs.set_hl(wrap_add16(addr, 1));
                    },
                    AFromIndirectSource::HLDec => {
                        let addr = self.regs.get_hl();
                        self.bus.write_byte(addr, self.regs.a);
                        self.regs.set_hl(wrap_sub16(addr, 1));
                    },
                }
                wrap_add16(self.pc, 1)
            },
            LoadType::AFromHighImmediate => {
                let addr = 0xFF00u16 + self.read_next_byte() as u16;
                self.regs.a = self.bus.read_byte(addr);
                wrap_add16(self.pc, 2)
            },
            LoadType::HighImmediateFromA => {
                let addr = 0xFF00u16 + self.read_next_byte() as u16;
                self.bus.write_byte(addr, self.regs.a);
                wrap_add16(self.pc, 2)
            },
            LoadType::AFromHighC => {
                let addr = 0xFF00u16 + self.regs.c as u16;
                self.regs.a = self.bus.read_byte(addr);
                wrap_add16(self.pc, 1)
            },
            LoadType::HighCFromA => {
                let addr = 0xFF00u16 + self.regs.c as u16;
                self.bus.write_byte(addr, self.regs.a);
                wrap_add16(self.pc, 1)
            },
            LoadType::AFromDirect => {
                let addr = self.read_next_word();
                self.regs.a = self.bus.read_byte(addr);
                wrap_add16(self.pc, 3)
            },
            LoadType::DirectFromA => {
                let addr = self.read_next_word();
                self.bus.write_byte(addr, self.regs.a);
                wrap_add16(self.pc, 3)
            },
            LoadType::SPFromHL => {
                self.sp = self.regs.get_hl();
                wrap_add16(self.pc, 1)
            },
            LoadType::HLFromSPOffset => {
                let d = self.read_next_byte();
                let v = signed_add16(self.sp, d);
                let h = self.sp % 0x10 + (d % 0x10) as u16 > 0xF;
                let c = self.sp % 0x100 + d as u16 > 0xFF;
                self.regs.set_hl(v);
                self.regs.set_flags(false, false, h, c);
                wrap_add16(self.pc, 2)
            },
            LoadType::DirectFromSP => {
                let addr = self.read_next_word();
                self.bus.write_byte(addr, lo_byte(self.sp));
                self.bus.write_byte(wrap_add16(addr, 1), hi_byte(self.sp));
                wrap_add16(self.pc, 3)
            },
        }
    }

    /// PUSH rr: the pair goes to the stack; the caller commits the returned
    /// program counter.
    pub fn push(&mut self, target: StackTarget) -> (npc: ProgramCounter)
        requires
            old(self)@.wf(),
        ensures
            final(self)@ == spec_push16(old(self)@, spec_stack_value(old(self)@.regs, target)),
            final(self)@.wf(),
            npc == spec_wrap_add16(old(self)@.pc, 1),
    {
        let value = match target {
            StackTarget::BC => self.regs.get_bc(),
            StackTarget::DE => self.regs.get_de(),
            StackTarget::HL => self.regs.get_hl(),
            StackTarget::AF => self.regs.get_af(),
        };
        self.push_value(value);
        wrap_add16(self.pc, 1)
    }

    /// POP rr: the word at SP goes to the pair; the caller commits the
    /// returned program counter.
    pub fn pop(&mut self, target: StackTarget) -> (npc: ProgramCounter)
        requires
            old(self)@.wf(),
        ensures
            final(self)@ == (MachineState {
                regs: spec_pop_regs(old(self)@.regs, target, spec_pop16_value(old(self)@)),
                ..spec_pop16_state(old(self)@)
            }),
            final(self)@.wf(),
            npc == spec_wrap_add16(old(self)@.pc, 1),
    {
        let result = self.pop_value();
        match target {
            StackTarget::BC => self.regs.set_bc(result),
            StackTarget::DE => self.regs.set_de(result),
            StackTarget::HL => self.regs.set_hl(result),
            StackTarget::AF => self.regs.set_af(result),
        };
        wrap_add16(self.pc, 1)
    }

    fn arith_operand(&self, t: ArithmeticTarget) -> (v: u8)
        requires
            self@.wf(),
        ensures
            v == spec_arith_operand(self@, t),
    {
        match t {
            ArithmeticTarget::A => self.regs.a,
            ArithmeticTarget::B => self.regs.b,
            ArithmeticTarget::C => self.regs.c,
            ArithmeticTarget::D => self.regs.d,
            ArithmeticTarget::E => self.regs.e,
            ArithmeticTarget::H => self.regs.h,
            ArithmeticTarget::L => self.regs.l,
            ArithmeticTarget::HLI => self.bus.read_byte(self.regs.get_hl()),
            ArithmeticTarget::D8 => self.read_next_byte(),
        }
    }

    /// Commit an accumulator-class result: value to A (unless the operation
    /// is a compare), flags, program counter.
    fn apply_acc(&mut self, out: AluOut, write_a: bool, t: ArithmeticTarget)
        requires
            old(self)@.wf(),
        ensures
            write_a ==> final(self)@ == spec_apply_acc(old(self)@, out, spec_arith_npc(old(self)@, t)),
            !write_a ==> final(self)@ == spec_apply_cp(old(self)@, out, spec_arith_npc(old(self)@, t)),
            final(self)@.wf(),
    {
        if write_a {
            self.regs.a = out.v;
        }
        self.regs.set_flags(out.z, out.n, out.h, out.c);
        self.pc = if matches!(t, ArithmeticTarget::D8) {
            wrap_add16(self.pc, 2)
        } else {
            wrap_add16(self.pc, 1)
        };
    }

    fn incdec_read(&self, t: IncDecTarget) -> (v: u8)
        requires
            self@.wf(),
        ensures
            v == spec_incdec_read(self@, t),
    {
        match t {
            IncDecTarget::A => self.regs.a,
            IncDecTarget::B => self.regs.b,
            IncDecTarget::C => self.regs.c,
            IncDecTarget::D => self.regs.d,
            IncDecTarget::E => self.regs.e,
            IncDecTarget::H => self.regs.h,
            IncDecTarget::L => self.regs.l,
            IncDecTarget::HLI => self.bus.read_byte(self.regs.get_hl()),
        }
    }

    fn incdec_write(&mut self, t: IncDecTarget, v: u8)
        requires
            old(self)@.wf(),
        ensures
            final(self)@ == spec_incdec_write(old(self)@, t, v),
            final(self)@.wf(),
    {
        match t {
            IncDecTarget::A => self.regs.a = v,
            IncDecTarget::B => self.regs.b = v,
            IncDecTarget::C => self.regs.c = v,
            IncDecTarget::D => self.regs.d = v,
            IncDecTarget::E => self.regs.e = v,
            IncDecTarget::H => self.regs.h = v,
            IncDecTarget::L => self.regs.l = v,
            IncDecTarget::HLI => {
                let addr = self.regs.get_hl();
                self.bus.write_byte(addr, v);
            },
        }
    }

    fn prefix_read(&self, t: PrefixTarget) -> (v: u8)
        requires
            self@.wf(),
        ensures
            v == spec_prefix_read(self@, t),
    {
        match t {
            PrefixTarget::A => self.regs.a,
            PrefixTarget::B => self.regs.b,
            PrefixTarget::C => self.regs.c,
            PrefixTarget::D => self.regs.d,
            PrefixTarget::E => self.regs.e,
            PrefixTarget::H => self.regs.h,
            PrefixTarget::L => self.regs.l,
            PrefixTarget::HLI => self.bus.read_byte(self.regs.get_hl()),
        }
    }

    fn prefix_write(&mut self, t: PrefixTarget, v: u8)
        requires
            old(self)@.wf(),
        ensures
            final(self)@ == spec_prefix_write(old(self)@, t, v),
            final(self)@.wf(),
    {
        match t {
            PrefixTarget::A => self.regs.a = v,
            PrefixTarget::B => self.regs.b = v,
            PrefixTarget::C => self.regs.c = v,
            PrefixTarget::D => self.regs.d = v,
            PrefixTarget::E => self.regs.e = v,
            PrefixTarget::H => self.regs.h = v,
            PrefixTarget::L => self.regs.l = v,
            PrefixTarget::HLI => {
                let addr = self.regs.get_hl();
                self.bus.write_byte(addr, v);
            },
        }
    }

    fn word_reg_get(&self, wr: WordRegister) -> (v: u16)
        ensures
            v == spec_word_reg(self@, wr),
    {
        match wr {
            WordRegister::BC => self.regs.get_bc(),
            WordRegister::DE => self.regs.get_de(),
            WordRegister::HL => self.regs.get_hl(),
            WordRegister::SP => self.sp,
        }
    }

    fn word_reg_set(&mut self, wr: WordRegister, v: u16)
        ensures
            final(self)@ == spec_word_reg_write(old(self)@, wr, v),
    {
        match wr {
            WordRegister::BC => self.regs.set_bc(v),
            WordRegister::DE => self.regs.set_de(v),
            WordRegister::HL => self.regs.set_hl(v),
            WordRegister::SP => self.sp = v,
        }
    }

    fn test_flag(&self, t: JumpTest) -> (r: bool)
        ensures
            r == spec_test(self@.regs, t),
    {
        match t {
            JumpTest::NotZero => !self.regs.flag_z(),
            JumpTest::Zero => self.regs.flag_z(),
            JumpTest::NotCarry => !self.regs.flag_c(),
            JumpTest::Carry => self.regs.flag_c(),
            JumpTest::Always => true,
        }
    }

    /// Apply one decoded instruction: commit its result program counter and
    /// return its cycle cost.
    pub fn execute(&mut self, instr: Instruction) -> (cycles: u8)
        requires
            old(self)@.wf(),
        ensures
            final(self)@ == spec_execute(old(self)@, instr).0,
            cycles == spec_execute(old(self)@, instr).1,
            final(self)@.wf(),
    {
        match instr {
            Instruction::NOP
            | Instruction::HALT
            | Instruction::STOP
            | Instruction::SCF
            | Instruction::CCF
            | Instruction::CPL
            | Instruction::DAA
            | Instruction::DI
            | Instruction::EI => self.execute_misc(instr),
            Instruction::RLCA
            | Instruction::RLA
            | Instruction::RRCA
            | Instruction::RRA
            | Instruction::ADD(_)
            | Instruction::ADC(_)
            | Instruction::SUB(_)
            | Instruction::SBC(_)
            | Instruction::AND(_)
            | Instruction::OR(_)
            | Instruction::XOR(_)
            | Instruction::CP(_) => self.execute_acc(instr),
            Instruction::INC(_)
            | Instruction::DEC(_)
            | Instruction::ADDSP8
            | Instruction::ADD16(_)
            | Instruction::INC16(_)
            | Instruction::DEC16(_)
            | Instruction::LD(_) => self.execute_arith16_ld(instr),
            Instruction::JP(_)
            | Instruction::JR(_)
            | Instruction::JPHL
            | Instruction::CALL(_)
            | Instruction::RET(_)
            | Instruction::RETI
            | Instruction::RST(_)
            | Instruction::PUSH(_)
            | Instruction::POP(_) => self.execute_flow(instr),
            Instruction::RLC(_)
            | Instruction::RRC(_)
            | Instruction::RL(_)
            | Instruction::RR(_)
            | Instruction::SLA(_)
            | Instruction::SRA(_)
            | Instruction::SWAP(_)
            | Instruction::SRL(_)
            | Instruction::BIT(_, _)
            | Instruction::RES(_, _)
            | Instruction::SET(_, _) => self.execute_prefixed(instr),
        }
    }

    /// The no-operand instructions: suspend, flag twiddles, BCD correction
    /// and the master-enable switches.
    #[verifier::spinoff_prover]
    #[verifier::rlimit(60)]
    fn execute_misc(&mut self, instr: Instruction) -> (cycles: u8)
        requires
            old(self)@.wf(),
            instr is NOP
                || instr is HALT
                || instr is STOP
                || instr is SCF
                || instr is CCF
                || instr is CPL
                || instr is DAA
                || instr is DI
                || instr is EI,
        ensures
            final(self)@ == spec_execute(old(self)@, instr).0,
            cycles == spec_execute(old(self)@, instr).1,
            final(self)@.wf(),
    {
        proof {
            reveal(spec_execute);
        }
        match instr {
            Instruction::NOP => {
                self.pc = wrap_add16(self.pc, 1);
                4
            },
            Instruction::HALT => {
                self.is_halted = true;
                self.pc = wrap_add16(self.pc, 1);
                4
            },
            Instruction::STOP => {
                self.is_halted = true;
                self.pc = wrap_add16(self.pc, 1);
                4
            },
            Instruction::SCF => {
                let z = self.regs.flag_z();
                self.regs.set_flags(z, false, false, true);
                self.pc = wrap_add16(self.pc, 1);
                4
            },
            Instruction::CCF => {
                let z = self.regs.flag_z();
                let c = self.regs.flag_c();
                self.regs.set_flags(z, false, false, !c);
                self.pc = wrap_add16(self.pc, 1);
                4
            },
            Instruction::CPL => {
                let z = self.regs.flag_z();
                let c = self.regs.flag_c();
                self.regs.a = 0xFF - self.regs.a;
                self.regs.set_flags(z, true, true, c);
                self.pc = wrap_add16(self.pc, 1);
                4
            },
            Instruction::DAA => {
                let n = self.regs.flag_n();
                let h = self.regs.flag_h();
                let c = self.regs.flag_c();
                let (v, cout) = alu::daa_adjust(self.regs.a, n, h, c);
                self.regs.a = v;
                self.regs.set_flags(v == 0, n, false, cout);
                self.pc = wrap_add16(self.pc, 1);
                4
            },
            Instruction::DI => {
                self.bus.set_ime(false);
                self.pc = wrap_add16(self.pc, 1);
                4
            },
            Instruction::EI => {
                self.bus.set_ime(true);
                self.pc = wrap_add16(self.pc, 1);
                4
            },
            _ => {
                proof {
                    assert(false);
                }
                0
            },
        }
    }

    /// The accumulator rotates and the eight accumulator arithmetic/logic
    /// operations.
    #[verifier::spinoff_prover]
    #[verifier::rlimit(60)]
    fn execute_acc(&mut self, instr: Instruction) -> (cycles: u8)
        requires
            old(self)@.wf(),
            instr is RLCA
                || instr is RLA
                || instr is RRCA
                || instr is RRA
                || instr is ADD
                || instr is ADC
                || instr is SUB
                || instr is SBC
                || instr is AND
                || instr is OR
                || instr is XOR
                || instr is CP,
        ensures
            final(self)@ == spec_execute(old(self)@, instr).0,
            cycles == spec_execute(old(self)@, instr).1,
            final(self)@.wf(),
    {
        proof {
            reveal(spec_execute);
        }
        match instr {
            Instruction::RLCA => {
                let a = self.regs.a;
                self.regs.a = (a % 0x80) * 2 + a / 0x80;
                self.regs.set_flags(false, false, false, a >= 0x80);
                self.pc = wrap_add16(self.pc, 1);
                4
            },
            Instruction::RLA => {
                let a = self.regs.a;
                let cin: u8 = if self.regs.flag_c() { 1 } else { 0 };
                self.regs.a = (a % 0x80) * 2 + cin;
                self.regs.set_flags(false, false, false, a >= 0x80);
                self.pc = wrap_add16(self.pc, 1);
                4
            },
            Instruction::RRCA => {
                let a = self.regs.a;
                self.regs.a = a / 2 + (a % 2) * 0x80;
                self.regs.set_flags(false, false, false, a % 2 == 1);
                self.pc = wrap_add16(self.pc, 1);
                4
            },
            Instruction::RRA => {
                let a = self.regs.a;
                let cin: u8 = if self.regs.flag_c() { 0x80 } else { 0 };
                self.regs.a = a / 2 + cin;
                self.regs.set_flags(false, false, false, a % 2 == 1);
                self.pc = wrap_add16(self.pc, 1);
                4
            },
            Instruction::ADD(t) => {
                let v = self.arith_operand(t);
                let out = alu::add8(self.regs.a, v, false);
                self.apply_acc(out, true, t);
                self.arith_cycles(t)
            },
            Instruction::ADC(t) => {
                let v = self.arith_operand(t);
                let out = alu::add8(self.regs.a, v, self.regs.flag_c());
                self.apply_acc(out, true, t);
                self.arith_cycles(t)
            },
            Instruction::SUB(t) => {
                let v = self.arith_operand(t);
                let out = alu::sub8(self.regs.a, v, false);
                self.apply_acc(out, true, t);
                self.arith_cycles(t)
            },
            Instruction::SBC(t) => {
                let v = self.arith_operand(t);
                let out = alu::sub8(self.regs.a, v, self.regs.flag_c());
                self.apply_acc(out, true, t);
                self.arith_cycles(t)
            },
            Instruction::AND(t) => {
                let v = self.arith_operand(t);
                let out = alu::and8(self.regs.a, v);
                self.apply_acc(out, true, t);
                self.arith_cycles(t)
            },
            Instruction::OR(t) => {
                let v = self.arith_operand(t);
                let out = alu::or8(self.regs.a, v);
                self.apply_acc(out, true, t);
                self.arith_cycles(t)
            },
            Instruction::XOR(t) => {
                let v = self.arith_operand(t);
                let out = alu::xor8(self.regs.a, v);
                self.apply_acc(out, true, t);
                self.arith_cycles(t)
            },
            Instruction::CP(t) => {
                let v = self.arith_operand(t);
                let out = alu::sub8(self.regs.a, v, false);
                self.apply_acc(out, false, t);
                self.arith_cycles(t)
            },
            _ => {
                proof {
                    assert(false);
                }
                0
            },
        }
    }

    /// INC/DEC, the 16-bit arithmetic family and the loads.
    #[verifier::spinoff_prover]
    #[verifier::rlimit(60)]
    fn execute_arith16_ld(&mut self, instr: Instruction) -> (cycles: u8)
        requires
            old(self)@.wf(),
            instr is INC
                || instr is DEC
                || instr is ADDSP8
                || instr is ADD16
                || instr is INC16
                || instr is DEC16
                || instr is LD,
        ensures
            final(self)@ == spec_execute(old(self)@, instr).0,
            cycles == spec_execute(old(self)@, instr).1,
            final(self)@.wf(),
    {
        proof {
            reveal(spec_execute);
        }
        match instr {
            Instruction::INC(t) => {
                let v = self.incdec_read(t);
                let nv = wrap_add8(v, 1);
                let c = self.regs.flag_c();
                self.incdec_write(t, nv);
                self.regs.set_flags(nv == 0, false, v % 0x10 == 0xF, c);
                self.pc = wrap_add16(self.pc, 1);
                if matches!(t, IncDecTarget::HLI) {
                    12
                } else {
                    4
                }
            },
            Instruction::DEC(t) => {
                let v = self.incdec_read(t);
                let nv = wrap_sub8(v, 1);
                let c = self.regs.flag_c();
                self.incdec_write(t, nv);
                self.regs.set_flags(nv == 0, true, v % 0x10 == 0, c);
                self.pc = wrap_add16(self.pc, 1);
                if matches!(t, IncDecTarget::HLI) {
                    12
                } else {
                    4
                }
            },
            Instruction::ADDSP8 => {
                let d = self.read_next_byte();
                let h = self.sp % 0x10 + (d % 0x10) as u16 > 0xF;
                let c = self.sp % 0x100 + d as u16 > 0xFF;
                self.sp = signed_add16(self.sp, d);
                self.regs.set_flags(false, false, h, c);
                self.pc = wrap_add16(self.pc, 2);
                16
            },
            Instruction::ADD16(wr) => {
                let hl = self.regs.get_hl();
                let rr = self.word_reg_get(wr);
                let z = self.regs.flag_z();
                let sum: u32 = hl as u32 + rr as u32;
                let h = hl % 0x1000 + rr % 0x1000 > 0xFFF;
                let c = sum > 0xFFFF;
                self.regs.set_hl((sum % 0x10000) as u16);
                self.regs.set_flags(z, false, h, c);
                self.pc = wrap_add16(self.pc, 1);
                8
            },
            Instruction::INC16(wr) => {
                let v = self.word_reg_get(wr);
                self.word_reg_set(wr, wrap_add16(v, 1));
                self.pc = wrap_add16(self.pc, 1);
                8
            },
            Instruction::DEC16(wr) => {
                let v = self.word_reg_get(wr);
                self.word_reg_set(wr, wrap_sub16(v, 1));
                self.pc = wrap_add16(self.pc, 1);
                8
            },
            Instruction::LD(lt) => {
                let npc = self.load(lt);
                self.pc = npc;
                load_cycles(lt)
            },
            _ => {
                proof {
                    assert(false);
                }
                0
            },
        }
    }

    /// Control flow, the stack instructions and the prefixed rotate.
    #[verifier::spinoff_prover]
    #[verifier::rlimit(60)]
    fn execute_flow(&mut self, instr: Instruction) -> (cycles: u8)
        requires
            old(self)@.wf(),
            instr is JP
                || instr is JR
                || instr is JPHL
                || instr is CALL
                || instr is RET
                || instr is RETI
                || instr is RST
                || instr is PUSH
                || instr is POP,
        ensures
            final(self)@ == spec_execute(old(self)@, instr).0,
            cycles == spec_execute(old(self)@, instr).1,
            final(self)@.wf(),
    {
        proof {
            reveal(spec_execute);
        }
        match instr {
            Instruction::JP(test) => {
                let target = self.read_next_word();
                if self.test_flag(test) {
                    self.pc = target;
                    16
                } else {
                    self.pc = wrap_add16(self.pc, 3);
                    12
                }
            },
            Instruction::JR(test) => {
                let d = self.read_next_byte();
                if self.test_flag(test) {
                    self.pc = signed_add16(wrap_add16(self.pc, 2), d);
                    12
                } else {
                    self.pc = wrap_add16(self.pc, 2);
                    8
                }
            },
            Instruction::JPHL => {
                self.pc = self.regs.get_hl();
                4
            },
            Instruction::CALL(test) => {
                let target = self.read_next_word();
                if self.test_flag(test) {
                    let ret = wrap_add16(self.pc, 3);
                    self.push_value(ret);
                    self.pc = target;
                    24
                } else {
                    self.pc = wrap_add16(self.pc, 3);
                    12
                }
            },
            Instruction::RET(test) => {
                match test {
                    JumpTest::Always => {
                        let target = self.pop_value();
                        self.pc = target;
                        16
                    },
                    _ => {
                        if self.test_flag(test) {
                            let target = self.pop_value();
                            self.pc = target;
                            20
                        } else {
                            self.pc = wrap_add16(self.pc, 1);
                            8
                        }
                    },
                }
            },
            Instruction::RETI => {
                let target = self.pop_value();
                self.pc = target;
                self.bus.set_ime(true);
                16
            },
            Instruction::RST(t) => {
                let ret = wrap_add16(self.pc, 1);
                self.push_value(ret);
                self.pc = rst_vector(t);
                16
            },
            Instruction::PUSH(st) => {
                let npc = self.push(st);
                self.pc = npc;
                16
            },
            Instruction::POP(st) => {
                let npc = self.pop(st);
                self.pc = npc;
                12
            },
            _ => {
                proof {
                    assert(false);
                }
                0
            },
        }
    }

    /// The prefixed instructions: rotates, shifts, the nibble swap and the
    /// single-bit test/reset/set family.
    #[verifier::spinoff_prover]
    #[verifier::rlimit(60)]
    fn execute_prefixed(&mut self, instr: Instruction) -> (cycles: u8)
        requires
            old(self)@.wf(),
            instr is RLC
                || instr is RRC
                || instr is RL
                || instr is RR
                || instr is SLA
                || instr is SRA
                || instr is SWAP
                || instr is SRL
                || instr is BIT
                || instr is RES
                || instr is SET,
        ensures
            final(self)@ == spec_execute(old(self)@, instr).0,
            cycles == spec_execute(old(self)@, instr).1,
            final(self)@.wf(),
    {
        proof {
            reveal(spec_execute);
        }
        match instr {
            Instruction::RLC(t) => {
                let v = self.prefix_read(t);
                let nv = (v % 0x80) * 2 + v / 0x80;
                self.prefix_write(t, nv);
                self.regs.set_flags(nv == 0, false, false, v >= 0x80);
                self.pc = wrap_add16(self.pc, 2);
                prefix_cycles(t)
            },
            Instruction::RRC(t) => {
                let v = self.prefix_read(t);
                let nv = v / 2 + (v % 2) * 0x80;
                self.prefix_write(t, nv);
                self.regs.set_flags(nv == 0, false, false, v % 2 == 1);
                self.pc = wrap_add16(self.pc, 2);
                prefix_cycles(t)
            },
            Instruction::RL(t) => {
                let v = self.prefix_read(t);
                let cin: u8 = if self.regs.flag_c() { 1 } else { 0 };
                let nv = (v % 0x80) * 2 + cin;
                self.prefix_write(t, nv);
                self.regs.set_flags(nv == 0, false, false, v >= 0x80);
                self.pc = wrap_add16(self.pc, 2);
                prefix_cycles(t)
            },
            Instruction::RR(t) => {
                let v = self.prefix_read(t);
                let cin: u8 = if self.regs.flag_c() { 0x80 } else { 0 };
                let nv = v / 2 + cin;
                self.prefix_write(t, nv);
                self.regs.set_flags(nv == 0, false, false, v % 2 == 1);
                self.pc = wrap_add16(self.pc, 2);
                prefix_cycles(t)
            },
            Instruction::SLA(t) => {
                let v = self.prefix_read(t);
                let nv = (v % 0x80) * 2;
                self.prefix_write(t, nv);
                self.regs.set_flags(nv == 0, false, false, v >= 0x80);
                self.pc = wrap_add16(self.pc, 2);
                prefix_cycles(t)
            },
            Instruction::SRA(t) => {
                let v = self.prefix_read(t);
                let nv = v / 2 + (v / 0x80) * 0x80;
                self.prefix_write(t, nv);
                self.regs.set_flags(nv == 0, false, false, v % 2 == 1);
                self.pc = wrap_add16(self.pc, 2);
                prefix_cycles(t)
            },
            Instruction::SWAP(t) => {
                let v = self.prefix_read(t);
                let nv = (v % 0x10) * 0x10 + v / 0x10;
                self.prefix_write(t, nv);
                self.regs.set_flags(nv == 0, false, false, false);
                self.pc = wrap_add16(self.pc, 2);
                prefix_cycles(t)
            },
            Instruction::SRL(t) => {
                let v = self.prefix_read(t);
                let nv = v / 2;
                self.prefix_write(t, nv);
                self.regs.set_flags(nv == 0, false, false, v % 2 == 1);
                self.pc = wrap_add16(self.pc, 2);
                prefix_cycles(t)
            },
            Instruction::BIT(b, t) => {
                let v = self.prefix_read(t);
                let z = !crate::words::test_bit8(v, b.mask());
                let c = self.regs.flag_c();
                self.regs.set_flags(z, false, true, c);
                self.pc = wrap_add16(self.pc, 2);
                if matches!(t, PrefixTarget::HLI) {
                    12
                } else {
                    8
                }
            },
            Instruction::RES(b, t) => {
                let v = self.prefix_read(t);
                self.prefix_write(t, crate::words::clear_bit8(v, b.mask()));
                self.pc = wrap_add16(self.pc, 2);
                prefix_cycles(t)
            },
            Instruction::SET(b, t) => {
                let v = self.prefix_read(t);
                self.prefix_write(t, crate::words::set_bit8(v, b.mask()));
                self.pc = wrap_add16(self.pc, 2);
                prefix_cycles(t)
            },
            _ => {
                proof {
                    assert(false);
                }
                0
            },
        }
    }

    /// Fetch, decode and execute the instruction at PC; surface an
    /// undecodable byte as the fatal decode failure, never a silent no-op.
    fn fetch_exec(&mut self) -> (r: Result<u8, StepError>)
        requires
            old(self)@.wf(),
        ensures
            final(self)@.wf(),
            match r {
                Ok(c) => spec_fetch_exec(old(self)@) == Ok::<(MachineState, u8), StepError>(
                    (final(self)@, c),
                ),
                Err(e) => spec_fetch_exec(old(self)@) == Err::<(MachineState, u8), StepError>(e)
                    && final(self)@ == old(self)@,
            },
    {
        proof {
            reveal(spec_fetch_exec);
        }
        let op = self.bus.read_byte(self.pc);
        if op == PREFIX_BYTE {
            let op2 = self.read_next_byte();
            let instr = Instruction::decode_prefixed(op2);
            Ok(self.execute(instr))
        } else {
            match Instruction::from_byte_not_prefixed(op) {
                Some(instr) => Ok(self.execute(instr)),
                None => Err(StepError::Undefined { pc: self.pc, opcode: op }),
            }
        }
    }

    /// Service one interrupt source: push the pre-interrupt PC, clear IME
    /// and the source's flag bit, jump to its vector, leave any suspend.
    #[verifier::spinoff_prover]
    fn dispatch(&mut self, src: InterruptSource)
        requires
            old(self)@.wf(),
        ensures
            final(self)@ == spec_dispatch(old(self)@, src),
            final(self)@.wf(),
    {
        let return_pc = self.pc;
        self.push_value(return_pc);
        self.bus.set_ime(false);
        self.bus.acknowledge_interrupt(src);
        self.pc = src.vector();
        self.is_halted = false;
        proof {
            assert(self@ =~= spec_dispatch(old(self)@, src));
        }
    }

    /// Advance the simulation by exactly one instruction or one
    /// interrupt-dispatch sequence and report the cycles consumed; a decode
    /// failure is surfaced to the caller and leaves the machine unchanged.
    #[verifier::spinoff_prover]
    #[verifier::rlimit(100)]
    pub fn step(&mut self) -> (r: Result<u8, StepError>)
        requires
            old(self)@.wf(),
        ensures
            final(self)@.wf(),
            match r {
                Ok(c) => spec_step(old(self)@) == Ok::<(MachineState, u8), StepError>(
                    (final(self)@, c),
                ),
                Err(e) => spec_step(old(self)@) == Err::<(MachineState, u8), StepError>(e)
                    && final(self)@ == old(self)@,
            },
    {
        if self.bus.get_ime() {
            match self.bus.next_pending() {
                Some(src) => {
                    self.dispatch(src);
                    return Ok(INTERRUPT_DISPATCH_CYCLES);
                },
                None => {},
            }
        }
        if self.is_halted {
            if self.bus.any_pending() {
                self.is_halted = false;
                proof {
                    assert(self@ =~= (MachineState { halted: false, ..old(self)@ }));
                }
                match self.fetch_exec() {
                    Ok(c) => Ok(c),
                    Err(e) => {
                        // A fatal decode failure leaves the machine exactly as
                        // it was, the suspend flag included.
                        self.is_halted = true;
                        proof {
                            assert(self@ =~= old(self)@);
                        }
                        Err(e)
                    },
                }
            } else {
                Ok(HALT_IDLE_CYCLES)
            }
        } else {
            self.fetch_exec()
        }
    }

    fn arith_cycles(&self, t: ArithmeticTarget) -> (r: u8)
        ensures
            r == spec_arith_cycles(t),
    {
        if matches!(t, ArithmeticTarget::HLI) || matches!(t, ArithmeticTarget::D8) {
            8
        } else {
            4
        }
    }
}

fn rst_vector(t: RestartTarget) -> (r: u16)
    ensures
        r == spec_rst_vector(t),
{
    match t {
        RestartTarget::Zero => 0x00,
        RestartTarget::One => 0x08,
        RestartTarget::Two => 0x10,
        RestartTarget::Three => 0x18,
        RestartTarget::Four => 0x20,
        RestartTarget::Five => 0x28,
        RestartTarget::Six => 0x30,
        RestartTarget::Seven => 0x38,
    }
}

fn prefix_cycles(t: PrefixTarget) -> (r: u8)
    ensures
        r == spec_prefix_cycles(t),
{
    if matches!(t, PrefixTarget::HLI) {
        16
    } else {
        8
    }
}

fn load_cycles(lt: LoadType) -> (r: u8)
    ensures
        r == spec_load_cycles(lt),
{
    match lt {
        LoadType::Byte(t, s) => {
            if matches!(t, LoadByteTarget::HLI) && matches!(s, LoadByteSource::D8) {
                12
            } else if matches!(t, LoadByteTarget::HLI) || matches!(s, LoadByteSource::HLI)
                || matches!(s, LoadByteSource::D8) {
                8
            } else {
                4
            }
        },
        LoadType::Word(_) => 12,
        LoadType::AFromIndirect(_) => 8,
        LoadType::IndirectFromA(_) => 8,
        LoadType::AFromHighImmediate => 12,
        LoadType::HighImmediateFromA => 12,
        LoadType::AFromHighC => 8,
        LoadType::HighCFromA => 8,
        LoadType::AFromDirect => 16,
        LoadType::DirectFromA => 16,
        LoadType::SPFromHL => 8,
        LoadType::HLFromSPOffset => 12,
        LoadType::DirectFromSP => 20,
    }
}

} // verus!
