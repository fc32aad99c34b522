//! Machine-checked statements of the properties the simulator promises:
//! totality of the decoder, the arithmetic flag rules, the stack round trip,
//! the one-way boot-ROM disable, interrupt dispatch, the suspended idle step
//! and the conditional jump.

use vstd::prelude::*;
use crate::words::{spec_wrap_add16, spec_wrap_sub16, lemma_word_decompose, spec_clear_bit};
use crate::registers::{spec_flag_z, spec_flag_n, spec_flag_h, spec_flag_c, lemma_flags_byte};
use crate::instructions::{
    ArithmeticTarget, Instruction, JumpTest, StackTarget, spec_from_byte_prefixed,
    spec_from_byte_not_prefixed,
};
use crate::interrupts::{InterruptSource, INTERRUPT_DISPATCH_CYCLES};
use crate::bus::{
    BusState, spec_bus_read, spec_bus_write, BOOT_SWITCH_ADDRESS, LCD_LINE_ADDRESS,
    INTERRUPT_FLAG_ADDRESS, INTERRUPT_ENABLE_ADDRESS,
};
use crate::cpu::{
    MachineState, StepError, spec_execute, spec_step, spec_fetch_exec, spec_dispatch,
    spec_push16, spec_pop16_value, spec_imm16, spec_arith_operand, HALT_IDLE_CYCLES,
};

verus! {

/// The unprefixed opcode bytes with no defined mapping on the hardware,
/// together with the prefix escape byte itself, which is never an
/// instruction on its own.
pub open spec fn spec_unprefixed_undecodable(b: u8) -> bool {
    b == 0xCB || b == 0xD3 || b == 0xDB || b == 0xDD || b == 0xE3 || b == 0xE4 || b == 0xEB
        || b == 0xEC || b == 0xED || b == 0xF4 || b == 0xFC || b == 0xFD
}

/// Decoding is a total function of the opcode byte alone, so it is
/// deterministic and reads no argument bytes; an unprefixed byte fails to
/// decode exactly on the escape byte and the eleven undefined encodings,
/// and every prefixed byte decodes.
pub proof fn lemma_decode_total(b: u8)
    ensures
        (spec_from_byte_not_prefixed(b) is None) <==> spec_unprefixed_undecodable(b),
        spec_from_byte_prefixed(b) is Some,
{
}

/// ADD A,t, for any operand selector: the accumulator takes the byte sum of
/// A and the operand; Z is set iff the result byte is zero, N is cleared,
/// H is set iff the low nibbles overflow past 0xF, C is set iff the full
/// byte overflows.
pub proof fn lemma_add_flag_rules(m: MachineState, t: ArithmeticTarget)
    ensures
        ({
            let a = m.regs.a;
            let v = spec_arith_operand(m, t);
            let r = spec_execute(m, Instruction::ADD(t)).0;
            &&& r.regs.a == (a + v) % 0x100
            &&& spec_flag_z(r.regs.f) == ((a + v) % 0x100 == 0)
            &&& !spec_flag_n(r.regs.f)
            &&& spec_flag_h(r.regs.f) == (a % 0x10 + v % 0x10 > 0xF)
            &&& spec_flag_c(r.regs.f) == (a + v > 0xFF)
        }),
{
    reveal(spec_execute);
    let a = m.regs.a;
    let v = spec_arith_operand(m, t);
    let out = crate::alu::spec_add8(a, v, false);
    lemma_flags_byte(out.z, out.n, out.h, out.c);
}

/// SUB A,t, for any operand selector: the accumulator takes the byte
/// difference of A and the operand; Z is set iff the result byte is zero,
/// N is set, H is set iff the low nibble borrows, C is set iff the full
/// byte borrows.
#[verifier::spinoff_prover]
#[verifier::rlimit(100)]
pub proof fn lemma_sub_flag_rules(m: MachineState, t: ArithmeticTarget)
    ensures
        ({
            let a = m.regs.a;
            let v = spec_arith_operand(m, t);
            let r = spec_execute(m, Instruction::SUB(t)).0;
            &&& r.regs.a == (a - v + 0x100) % 0x100
            &&& spec_flag_z(r.regs.f) == ((a - v + 0x100) % 0x100 == 0)
            &&& spec_flag_n(r.regs.f)
            &&& spec_flag_h(r.regs.f) == (a % 0x10 < v % 0x10)
            &&& spec_flag_c(r.regs.f) == (a < v)
        }),
{
    reveal(spec_execute);
    let a = m.regs.a;
    let v = spec_arith_operand(m, t);
    let out = crate::alu::spec_sub8(a, v, false);
    lemma_flags_byte(out.z, out.n, out.h, out.c);
    let d: int = a - v;
    assert((d + 0x200) % 0x100 == (d + 0x100) % 0x100) by (nonlinear_arith);
}

/// A write to an address reads back as the written value, unless the
/// address is shadowed by the mapped boot overlay or is the fixed LCD-line
/// sentinel.  Writes to the two interrupt registers read back through the
/// controller.
pub proof fn lemma_write_read_back(b: BusState, addr: u16, v: u8)
    requires
        b.wf(),
        !(b.boot_mapped && addr < 0x100),
        addr != LCD_LINE_ADDRESS,
    ensures
        spec_bus_read(spec_bus_write(b, addr, v), addr) == v,
{
}

/// A word pushed onto the stack is the word a pop then yields, and the push
/// moves SP down by exactly two.  The two stack bytes must land at
/// addresses that read back what was written: not under the mapped boot
/// overlay and not at the LCD-line sentinel address.
#[verifier::spinoff_prover]
#[verifier::rlimit(100)]
pub proof fn lemma_push16_pop_value(m: MachineState, v: u16)
    requires
        m.wf(),
        !(m.bus.boot_mapped && spec_wrap_sub16(m.sp, 1) < 0x100),
        !(m.bus.boot_mapped && spec_wrap_sub16(m.sp, 2) < 0x100),
        spec_wrap_sub16(m.sp, 1) != LCD_LINE_ADDRESS,
        spec_wrap_sub16(m.sp, 2) != LCD_LINE_ADDRESS,
    ensures
        spec_pop16_value(spec_push16(m, v)) == v,
        spec_push16(m, v).sp == spec_wrap_sub16(m.sp, 2),
        spec_wrap_add16(spec_push16(m, v).sp, 2) == m.sp,
{
    lemma_word_decompose(v);
    let a1 = spec_wrap_sub16(m.sp, 1);
    let a2 = spec_wrap_sub16(m.sp, 2);
    assert(a1 != a2);
    assert(spec_wrap_add16(a2, 1) == a1);
    assert(spec_wrap_add16(a2, 2) == m.sp);
    let b1 = spec_bus_write(m.bus, a1, crate::words::spec_hi(v));
    let b2 = spec_bus_write(b1, a2, crate::words::spec_lo(v));
    assert(spec_bus_read(b2, a2) == crate::words::spec_lo(v));
    assert(spec_bus_read(b2, a1) == crate::words::spec_hi(v));
}

/// `PUSH BC; POP DE` leaves DE equal to the original BC and restores SP.
/// The two stack bytes must land at addresses that read back what was
/// written: not under the mapped boot overlay and not at the LCD-line
/// sentinel address.
#[verifier::spinoff_prover]
#[verifier::rlimit(100)]
pub proof fn lemma_push_pop_round_trip(m: MachineState)
    requires
        m.wf(),
        !(m.bus.boot_mapped && spec_wrap_sub16(m.sp, 1) < 0x100),
        !(m.bus.boot_mapped && spec_wrap_sub16(m.sp, 2) < 0x100),
        spec_wrap_sub16(m.sp, 1) != LCD_LINE_ADDRESS,
        spec_wrap_sub16(m.sp, 2) != LCD_LINE_ADDRESS,
    ensures
        spec_execute(
            spec_execute(m, Instruction::PUSH(StackTarget::BC)).0,
            Instruction::POP(StackTarget::DE),
        ).0.regs.spec_de() == m.regs.spec_bc(),
        spec_execute(
            spec_execute(m, Instruction::PUSH(StackTarget::BC)).0,
            Instruction::POP(StackTarget::DE),
        ).0.sp == m.sp,
{
    reveal(spec_execute);
    let bc = m.regs.spec_bc();
    lemma_push16_pop_value(m, bc);
    let m1 = spec_execute(m, Instruction::PUSH(StackTarget::BC)).0;
    assert(m1 == (MachineState { pc: spec_wrap_add16(m.pc, 1), ..spec_push16(m, bc) }));
    assert(spec_pop16_value(m1) == bc);
    let m2 = spec_execute(m1, Instruction::POP(StackTarget::DE)).0;
    assert(m2.regs == crate::cpu::spec_pop_regs(m1.regs, StackTarget::DE, bc));
    lemma_word_decompose(bc);
}

/// Writes applied to the bus one after the other, first element first.
pub open spec fn spec_bus_write_seq(b: BusState, ws: Seq<(u16, u8)>) -> BusState
    decreases ws.len(),
{
    if ws.len() == 0 {
        b
    } else {
        spec_bus_write_seq(spec_bus_write(b, ws[0].0, ws[0].1), ws.skip(1))
    }
}

/// No write ever restores the boot overlay.
pub proof fn lemma_boot_unmapped_stays(b: BusState, ws: Seq<(u16, u8)>)
    requires
        !b.boot_mapped,
    ensures
        !spec_bus_write_seq(b, ws).boot_mapped,
    decreases ws.len(),
{
    if ws.len() > 0 {
        lemma_boot_unmapped_stays(spec_bus_write(b, ws[0].0, ws[0].1), ws.skip(1));
    }
}

/// Boot-ROM disable is one way: after a write of any value to the
/// boot-switch address, and any sequence of further writes (the boot-switch
/// address included), every read of the bottom 256 bytes comes from the
/// cartridge region of the flat store, never from the boot image.
pub proof fn lemma_boot_disable_one_way(b: BusState, v: u8, ws: Seq<(u16, u8)>, addr: u16)
    requires
        addr < 0x100,
    ensures
        !spec_bus_write_seq(spec_bus_write(b, BOOT_SWITCH_ADDRESS, v), ws).boot_mapped,
        spec_bus_read(spec_bus_write_seq(spec_bus_write(b, BOOT_SWITCH_ADDRESS, v), ws), addr)
            == spec_bus_write_seq(spec_bus_write(b, BOOT_SWITCH_ADDRESS, v), ws).mem[addr as int],
{
    lemma_boot_unmapped_stays(spec_bus_write(b, BOOT_SWITCH_ADDRESS, v), ws);
}

/// One bus write never touches the boot image and never restores the
/// overlay once it is down.
pub proof fn lemma_write_keeps_boot(b: BusState, a: u16, v: u8)
    ensures
        spec_bus_write(b, a, v).boot_rom == b.boot_rom,
        !b.boot_mapped ==> !spec_bus_write(b, a, v).boot_mapped,
{
}

/// A load never touches the boot image and never restores the overlay.
#[verifier::spinoff_prover]
#[verifier::rlimit(100)]
pub proof fn lemma_load_keeps_boot(m: MachineState, lt: crate::instructions::LoadType)
    ensures
        crate::cpu::spec_load(m, lt).0.bus.boot_rom == m.bus.boot_rom,
        !m.bus.boot_mapped ==> !crate::cpu::spec_load(m, lt).0.bus.boot_mapped,
{
}

#[verifier::spinoff_prover]
#[verifier::rlimit(100)]
proof fn lemma_execute_keeps_boot_misc(m: MachineState, i: Instruction)
    requires
        i is NOP
            || i is HALT
            || i is STOP
            || i is SCF
            || i is CCF
            || i is CPL
            || i is DAA
            || i is DI
            || i is EI,
    ensures
        spec_execute(m, i).0.bus.boot_rom == m.bus.boot_rom,
        !m.bus.boot_mapped ==> !spec_execute(m, i).0.bus.boot_mapped,
{
    reveal(spec_execute);
}

#[verifier::spinoff_prover]
#[verifier::rlimit(100)]
proof fn lemma_execute_keeps_boot_acc(m: MachineState, i: Instruction)
    requires
        i is RLCA
            || i is RLA
            || i is RRCA
            || i is RRA
            || i is ADD
            || i is ADC
            || i is SUB
            || i is SBC
            || i is AND
            || i is OR
            || i is XOR
            || i is CP,
    ensures
        spec_execute(m, i).0.bus.boot_rom == m.bus.boot_rom,
        !m.bus.boot_mapped ==> !spec_execute(m, i).0.bus.boot_mapped,
{
    reveal(spec_execute);
}

#[verifier::spinoff_prover]
#[verifier::rlimit(100)]
proof fn lemma_execute_keeps_boot_arith16_ld(m: MachineState, i: Instruction)
    requires
        i is INC
            || i is DEC
            || i is ADDSP8
            || i is ADD16
            || i is INC16
            || i is DEC16
            || i is LD,
    ensures
        spec_execute(m, i).0.bus.boot_rom == m.bus.boot_rom,
        !m.bus.boot_mapped ==> !spec_execute(m, i).0.bus.boot_mapped,
{
    reveal(spec_execute);
    if let Instruction::LD(lt) = i {
        lemma_load_keeps_boot(m, lt);
    }
}

#[verifier::spinoff_prover]
#[verifier::rlimit(100)]
proof fn lemma_execute_keeps_boot_flow(m: MachineState, i: Instruction)
    requires
        i is JP
            || i is JR
            || i is JPHL
            || i is CALL
            || i is RET
            || i is RETI
            || i is RST
            || i is PUSH
            || i is POP,
    ensures
        spec_execute(m, i).0.bus.boot_rom == m.bus.boot_rom,
        !m.bus.boot_mapped ==> !spec_execute(m, i).0.bus.boot_mapped,
{
    reveal(spec_execute);
}

#[verifier::spinoff_prover]
#[verifier::rlimit(100)]
proof fn lemma_execute_keeps_boot_prefixed(m: MachineState, i: Instruction)
    requires
        i is RLC
            || i is RRC
            || i is RL
            || i is RR
            || i is SLA
            || i is SRA
            || i is SWAP
            || i is SRL
            || i is BIT
            || i is RES
            || i is SET,
    ensures
        spec_execute(m, i).0.bus.boot_rom == m.bus.boot_rom,
        !m.bus.boot_mapped ==> !spec_execute(m, i).0.bus.boot_mapped,
{
    reveal(spec_execute);
}

/// Executing any instruction leaves the boot image itself untouched, and
/// once the overlay is down no instruction brings it back.
pub proof fn lemma_execute_keeps_boot(m: MachineState, i: Instruction)
    ensures
        spec_execute(m, i).0.bus.boot_rom == m.bus.boot_rom,
        !m.bus.boot_mapped ==> !spec_execute(m, i).0.bus.boot_mapped,
{
    if i is NOP || i is HALT || i is STOP || i is SCF || i is CCF || i is CPL || i is DAA || i is DI || i is EI {
        lemma_execute_keeps_boot_misc(m, i);
    }
    if i is RLCA || i is RLA || i is RRCA || i is RRA || i is ADD || i is ADC || i is SUB || i is SBC || i is AND || i is OR || i is XOR || i is CP {
        lemma_execute_keeps_boot_acc(m, i);
    }
    if i is INC || i is DEC || i is ADDSP8 || i is ADD16 || i is INC16 || i is DEC16 || i is LD {
        lemma_execute_keeps_boot_arith16_ld(m, i);
    }
    if i is JP || i is JR || i is JPHL || i is CALL || i is RET || i is RETI || i is RST || i is PUSH || i is POP {
        lemma_execute_keeps_boot_flow(m, i);
    }
    if i is RLC || i is RRC || i is RL || i is RR || i is SLA || i is SRA || i is SWAP || i is SRL || i is BIT || i is RES || i is SET {
        lemma_execute_keeps_boot_prefixed(m, i);
    }
}

/// A whole step keeps the boot image fixed, and once the overlay is down it
/// stays down: the read-only store loaded at power-on is never written and
/// the one-way transition never reverts, whatever the engine does.
#[verifier::spinoff_prover]
#[verifier::rlimit(100)]
pub proof fn lemma_step_keeps_boot(m: MachineState)
    ensures
        (spec_step(m) matches Ok(r)) ==> spec_step(m)->Ok_0.0.bus.boot_rom == m.bus.boot_rom,
        ((spec_step(m) matches Ok(r)) && !m.bus.boot_mapped) ==> !spec_step(
            m,
        )->Ok_0.0.bus.boot_mapped,
{
    reveal(spec_fetch_exec);
    let woken = MachineState { halted: false, ..m };
    let op = crate::cpu::spec_mem_read(m, m.pc);
    let op2 = crate::cpu::spec_mem_read(m, spec_wrap_add16(m.pc, 1));
    if op == crate::instructions::PREFIX_BYTE {
        lemma_execute_keeps_boot(m, crate::instructions::spec_decode_prefixed(op2));
        lemma_execute_keeps_boot(woken, crate::instructions::spec_decode_prefixed(op2));
    } else {
        match spec_from_byte_not_prefixed(op) {
            Some(i) => {
                lemma_execute_keeps_boot(m, i);
                lemma_execute_keeps_boot(woken, i);
            },
            None => {},
        }
    }
}

/// Interrupt dispatch for the timer source: when IME is set, the timer's
/// enable and flag bits are both set, and no higher-priority source is
/// serviceable, one step pushes the pre-interrupt PC, jumps to the timer
/// vector, clears IME and the timer flag bit, and costs the fixed dispatch
/// cycles.  The two pushed bytes must land at addresses that read back what
/// was written and must not land on the interrupt registers themselves.
pub proof fn lemma_timer_dispatch(m: MachineState)
    requires
        m.wf(),
        m.bus.ints.ime,
        m.bus.ints.spec_is_pending(InterruptSource::Timer),
        !m.bus.ints.spec_is_pending(InterruptSource::VBlank),
        !m.bus.ints.spec_is_pending(InterruptSource::LcdStat),
        !(m.bus.boot_mapped && spec_wrap_sub16(m.sp, 1) < 0x100),
        !(m.bus.boot_mapped && spec_wrap_sub16(m.sp, 2) < 0x100),
        spec_wrap_sub16(m.sp, 1) != LCD_LINE_ADDRESS,
        spec_wrap_sub16(m.sp, 2) != LCD_LINE_ADDRESS,
        spec_wrap_sub16(m.sp, 1) != INTERRUPT_FLAG_ADDRESS,
        spec_wrap_sub16(m.sp, 2) != INTERRUPT_FLAG_ADDRESS,
        spec_wrap_sub16(m.sp, 1) != INTERRUPT_ENABLE_ADDRESS,
        spec_wrap_sub16(m.sp, 2) != INTERRUPT_ENABLE_ADDRESS,
    ensures
        spec_step(m) == Ok::<(MachineState, u8), StepError>(
            (spec_dispatch(m, InterruptSource::Timer), INTERRUPT_DISPATCH_CYCLES),
        ),
        spec_dispatch(m, InterruptSource::Timer).pc == InterruptSource::Timer.spec_vector(),
        !spec_dispatch(m, InterruptSource::Timer).bus.ints.ime,
        spec_dispatch(m, InterruptSource::Timer).bus.ints.flags == spec_clear_bit(
            m.bus.ints.flags,
            InterruptSource::Timer.spec_mask(),
        ),
        spec_dispatch(m, InterruptSource::Timer).bus.ints.enable == m.bus.ints.enable,
        spec_dispatch(m, InterruptSource::Timer).sp == spec_wrap_sub16(m.sp, 2),
        spec_pop16_value(spec_dispatch(m, InterruptSource::Timer)) == m.pc,
{
    lemma_word_decompose(m.pc);
}

/// A suspended machine with no source serviceable idles: the step changes
/// nothing, the program counter included, and costs one idle cycle unit.
pub proof fn lemma_halt_idle(m: MachineState)
    requires
        m.halted,
        !m.bus.ints.spec_any_pending(),
    ensures
        spec_step(m) == Ok::<(MachineState, u8), StepError>((m, HALT_IDLE_CYCLES)),
{
}

/// Once a source has both bits set while IME is clear, the suspend ends and
/// the step fetches normally at the instruction after the suspend point.
pub proof fn lemma_halt_wake(m: MachineState)
    requires
        m.halted,
        m.bus.ints.spec_any_pending(),
        !m.bus.ints.ime,
    ensures
        spec_step(m) == spec_fetch_exec(MachineState { halted: false, ..m }),
{
}

/// Executing HALT suspends the machine and advances PC past the one-byte
/// instruction, so fetch later resumes at the instruction following it.
pub proof fn lemma_halt_enter(m: MachineState)
    ensures
        spec_execute(m, Instruction::HALT).0 == (MachineState {
            pc: spec_wrap_add16(m.pc, 1),
            halted: true,
            ..m
        }),
        spec_execute(m, Instruction::HALT).1 == HALT_IDLE_CYCLES,
{
    reveal(spec_execute);
}

/// `JP NZ,nn` takes the jump to the immediate address at the longer cycle
/// cost when Z is clear, and falls through past the three-byte instruction
/// at the shorter cost when Z is set.
pub proof fn lemma_jp_nz(m: MachineState)
    ensures
        !spec_flag_z(m.regs.f) ==> spec_execute(m, Instruction::JP(JumpTest::NotZero))
            == (MachineState { pc: spec_imm16(m), ..m }, 16u8),
        spec_flag_z(m.regs.f) ==> spec_execute(m, Instruction::JP(JumpTest::NotZero))
            == (MachineState { pc: spec_wrap_add16(m.pc, 3), ..m }, 12u8),
{
    reveal(spec_execute);
}

} // verus!
