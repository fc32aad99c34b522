//! The instruction descriptor and the opcode decoder.
//!
//! Decoding is a pure, total function from a raw opcode byte (and a flag
//! saying whether it followed the 0xCB prefix escape) to either a
//! fully-specified descriptor or `None`.  The decoder never reads the
//! instruction's argument bytes; immediates are fetched by the execution
//! engine.  For unprefixed bytes, `None` means the byte has no defined
//! mapping on the hardware (a fatal decode failure for the engine); every
//! prefixed byte is defined on the hardware and decodes to a descriptor.

use vstd::prelude::*;

verus! {

#[derive(Clone, Copy, PartialEq, Eq, Structural, Debug)]
pub enum JumpTest {
    NotZero,
    Zero,
    NotCarry,
    Carry,
    Always,
}

#[derive(Clone, Copy, PartialEq, Eq, Structural, Debug)]
pub enum ArithmeticTarget {
    A,
    B,
    C,
    D,
    E,
    H,
    L,
    HLI,
    D8,
}

#[derive(Clone, Copy, PartialEq, Eq, Structural, Debug)]
pub enum IncDecTarget {
    A,
    B,
    C,
    D,
    E,
    H,
    L,
    HLI,
}

#[derive(Clone, Copy, PartialEq, Eq, Structural, Debug)]
pub enum PrefixTarget {
    A,
    B,
    C,
    D,
    E,
    H,
    L,
    HLI,
}

#[derive(Clone, Copy, PartialEq, Eq, Structural, Debug)]
pub enum WordRegister {
    BC,
    DE,
    HL,
    SP,
}

#[derive(Clone, Copy, PartialEq, Eq, Structural, Debug)]
pub enum StackTarget {
    BC,
    DE,
    HL,
    AF,
}

#[derive(Clone, Copy, PartialEq, Eq, Structural, Debug)]
pub enum AFromIndirectSource {
    BC,
    DE,
    HLInc,
    HLDec,
}

#[derive(Clone, Copy, PartialEq, Eq, Structural, Debug)]
pub enum LoadByteTarget {
    A,
    B,
    C,
    D,
    E,
    H,
    L,
    HLI,
}

#[derive(Clone, Copy, PartialEq, Eq, Structural, Debug)]
pub enum LoadByteSource {
    A,
    B,
    C,
    D,
    E,
    H,
    L,
    D8,
    HLI,
}

#[derive(Clone, Copy, PartialEq, Eq, Structural, Debug)]
pub enum LoadType {
    /// LD r,r' / LD r,d8 / LD r,(HL) / LD (HL),r / LD (HL),d8.
    Byte(LoadByteTarget, LoadByteSource),
    /// LD rr,d16.
    Word(WordRegister),
    /// LD A,(BC) / LD A,(DE) / LD A,(HL+) / LD A,(HL-).
    AFromIndirect(AFromIndirectSource),
    /// LD (BC),A / LD (DE),A / LD (HL+),A / LD (HL-),A.
    IndirectFromA(AFromIndirectSource),
    /// LDH A,(a8): read from 0xFF00 + immediate byte.
    AFromHighImmediate,
    /// LDH (a8),A: write to 0xFF00 + immediate byte.
    HighImmediateFromA,
    /// LD A,(C): read from 0xFF00 + register C.
    AFromHighC,
    /// LD (C),A: write to 0xFF00 + register C.
    HighCFromA,
    /// LD A,(a16): read from the immediate 16-bit address.
    AFromDirect,
    /// LD (a16),A: write to the immediate 16-bit address.
    DirectFromA,
    /// LD SP,HL.
    SPFromHL,
    /// LD HL,SP+s8: signed immediate offset, flags from the low-byte add.
    HLFromSPOffset,
    /// LD (a16),SP: store SP little-endian at the immediate address.
    DirectFromSP,
}

/// A bit index operand of the prefixed single-bit instructions.
#[derive(Clone, Copy, PartialEq, Eq, Structural, Debug)]
pub enum BitPosition {
    Zero,
    One,
    Two,
    Three,
    Four,
    Five,
    Six,
    Seven,
}

impl BitPosition {
    /// The single-bit mask the index selects.
    pub open spec fn spec_mask(self) -> u8 {
        match self {
            BitPosition::Zero => 0x01,
            BitPosition::One => 0x02,
            BitPosition::Two => 0x04,
            BitPosition::Three => 0x08,
            BitPosition::Four => 0x10,
            BitPosition::Five => 0x20,
            BitPosition::Six => 0x40,
            BitPosition::Seven => 0x80,
        }
    }

    pub fn mask(self) -> (r: u8)
        ensures
            r == self.spec_mask(),
    {
        match self {
            BitPosition::Zero => 0x01,
            BitPosition::One => 0x02,
            BitPosition::Two => 0x04,
            BitPosition::Three => 0x08,
            BitPosition::Four => 0x10,
            BitPosition::Five => 0x20,
            BitPosition::Six => 0x40,
            BitPosition::Seven => 0x80,
        }
    }
}

#[derive(Clone, Copy, PartialEq, Eq, Structural, Debug)]
pub enum RestartTarget {
    Zero,
    One,
    Two,
    Three,
    Four,
    Five,
    Six,
    Seven,
}

#[derive(Clone, Copy, PartialEq, Eq, Structural, Debug)]
pub enum Instruction {
    NOP,
    HALT,
    STOP,
    SCF,
    DAA,
    CCF,
    CPL,
    DI,
    EI,
    RLCA,
    RLA,
    RRCA,
    RRA,
    ADD(ArithmeticTarget),
    ADC(ArithmeticTarget),
    SUB(ArithmeticTarget),
    SBC(ArithmeticTarget),
    AND(ArithmeticTarget),
    OR(ArithmeticTarget),
    CP(ArithmeticTarget),
    XOR(ArithmeticTarget),
    INC(IncDecTarget),
    DEC(IncDecTarget),
    ADDSP8,
    ADD16(WordRegister),
    INC16(WordRegister),
    DEC16(WordRegister),
    LD(LoadType),
    JP(JumpTest),
    JR(JumpTest),
    JPHL,
    CALL(JumpTest),
    RET(JumpTest),
    RST(RestartTarget),
    RETI,
    PUSH(StackTarget),
    POP(StackTarget),
    RLC(PrefixTarget),
    RRC(PrefixTarget),
    RL(PrefixTarget),
    RR(PrefixTarget),
    SLA(PrefixTarget),
    SRA(PrefixTarget),
    SWAP(PrefixTarget),
    SRL(PrefixTarget),
    BIT(BitPosition, PrefixTarget),
    RES(BitPosition, PrefixTarget),
    SET(BitPosition, PrefixTarget),
}

/// The two-byte prefix escape code.
pub const PREFIX_BYTE: u8 = 0xCB;

/// The register selected by a 3-bit operand field, in the hardware's fixed
/// order B, C, D, E, H, L, (HL), A.
pub open spec fn spec_arith_target_of(i: u8) -> ArithmeticTarget {
    if i == 0 {
        ArithmeticTarget::B
    } else if i == 1 {
        ArithmeticTarget::C
    } else if i == 2 {
        ArithmeticTarget::D
    } else if i == 3 {
        ArithmeticTarget::E
    } else if i == 4 {
        ArithmeticTarget::H
    } else if i == 5 {
        ArithmeticTarget::L
    } else if i == 6 {
        ArithmeticTarget::HLI
    } else {
        ArithmeticTarget::A
    }
}

/// The load source selected by the low 3 bits of an 0x40..0x7F opcode.
pub open spec fn spec_load_source_of(i: u8) -> LoadByteSource {
    if i == 0 {
        LoadByteSource::B
    } else if i == 1 {
        LoadByteSource::C
    } else if i == 2 {
        LoadByteSource::D
    } else if i == 3 {
        LoadByteSource::E
    } else if i == 4 {
        LoadByteSource::H
    } else if i == 5 {
        LoadByteSource::L
    } else if i == 6 {
        LoadByteSource::HLI
    } else {
        LoadByteSource::A
    }
}

/// The load target selected by bits 3..5 of an 0x40..0x7F opcode.
pub open spec fn spec_load_target_of(i: u8) -> LoadByteTarget {
    if i == 0 {
        LoadByteTarget::B
    } else if i == 1 {
        LoadByteTarget::C
    } else if i == 2 {
        LoadByteTarget::D
    } else if i == 3 {
        LoadByteTarget::E
    } else if i == 4 {
        LoadByteTarget::H
    } else if i == 5 {
        LoadByteTarget::L
    } else if i == 6 {
        LoadByteTarget::HLI
    } else {
        LoadByteTarget::A
    }
}

/// The register selected by a 3-bit prefixed-opcode operand field.
pub open spec fn spec_prefix_target_of(i: u8) -> PrefixTarget {
    if i == 0 {
        PrefixTarget::B
    } else if i == 1 {
        PrefixTarget::C
    } else if i == 2 {
        PrefixTarget::D
    } else if i == 3 {
        PrefixTarget::E
    } else if i == 4 {
        PrefixTarget::H
    } else if i == 5 {
        PrefixTarget::L
    } else if i == 6 {
        PrefixTarget::HLI
    } else {
        PrefixTarget::A
    }
}

/// The arithmetic-class instruction selected by bits 3..5 of an 0x80..0xBF
/// opcode, applied to the operand its low 3 bits select.
pub open spec fn spec_arith_instr_of(op: u8, t: ArithmeticTarget) -> Instruction {
    if op == 0 {
        Instruction::ADD(t)
    } else if op == 1 {
        Instruction::ADC(t)
    } else if op == 2 {
        Instruction::SUB(t)
    } else if op == 3 {
        Instruction::SBC(t)
    } else if op == 4 {
        Instruction::AND(t)
    } else if op == 5 {
        Instruction::XOR(t)
    } else if op == 6 {
        Instruction::OR(t)
    } else {
        Instruction::CP(t)
    }
}

/// The bit index selected by bits 3..5 of a prefixed single-bit opcode.
pub open spec fn spec_bit_position_of(i: u8) -> BitPosition {
    if i == 0 {
        BitPosition::Zero
    } else if i == 1 {
        BitPosition::One
    } else if i == 2 {
        BitPosition::Two
    } else if i == 3 {
        BitPosition::Three
    } else if i == 4 {
        BitPosition::Four
    } else if i == 5 {
        BitPosition::Five
    } else if i == 6 {
        BitPosition::Six
    } else {
        BitPosition::Seven
    }
}

/// Total decode table for the 256 prefixed opcodes: eight rotate/shift/swap
/// rows selected by bits 3..7, then the bit-test, bit-reset and bit-set
/// blocks, each applied to the register its low 3 bits select.  Every
/// prefixed byte is defined.
pub open spec fn spec_decode_prefixed(byte: u8) -> Instruction {
    let t = spec_prefix_target_of((byte % 8) as u8);
    if byte <= 0x07 {
        Instruction::RLC(t)
    } else if byte <= 0x0F {
        Instruction::RRC(t)
    } else if byte <= 0x17 {
        Instruction::RL(t)
    } else if byte <= 0x1F {
        Instruction::RR(t)
    } else if byte <= 0x27 {
        Instruction::SLA(t)
    } else if byte <= 0x2F {
        Instruction::SRA(t)
    } else if byte <= 0x37 {
        Instruction::SWAP(t)
    } else if byte <= 0x3F {
        Instruction::SRL(t)
    } else if byte <= 0x7F {
        Instruction::BIT(spec_bit_position_of(((byte - 0x40) / 8) as u8), t)
    } else if byte <= 0xBF {
        Instruction::RES(spec_bit_position_of(((byte - 0x80) / 8) as u8), t)
    } else {
        Instruction::SET(spec_bit_position_of(((byte - 0xC0) / 8) as u8), t)
    }
}

/// The prefixed table through the same interface as the unprefixed one; a
/// prefixed byte always decodes.
pub open spec fn spec_from_byte_prefixed(byte: u8) -> Option<Instruction> {
    Some(spec_decode_prefixed(byte))
}

/// Total decode table for the 256 unprefixed opcodes.  `None` exactly on the
/// eleven undefined encodings and on the prefix escape byte itself.
pub open spec fn spec_from_byte_not_prefixed(byte: u8) -> Option<Instruction> {
    if byte == 0x00 {
        Some(Instruction::NOP)
    } else if byte == 0x01 {
        Some(Instruction::LD(LoadType::Word(WordRegister::BC)))
    } else if byte == 0x02 {
        Some(Instruction::LD(LoadType::IndirectFromA(AFromIndirectSource::BC)))
    } else if byte == 0x03 {
        Some(Instruction::INC16(WordRegister::BC))
    } else if byte == 0x04 {
        Some(Instruction::INC(IncDecTarget::B))
    } else if byte == 0x05 {
        Some(Instruction::DEC(IncDecTarget::B))
    } else if byte == 0x06 {
        Some(Instruction::LD(LoadType::Byte(LoadByteTarget::B, LoadByteSource::D8)))
    } else if byte == 0x07 {
        Some(Instruction::RLCA)
    } else if byte == 0x08 {
        Some(Instruction::LD(LoadType::DirectFromSP))
    } else if byte == 0x09 {
        Some(Instruction::ADD16(WordRegister::BC))
    } else if byte == 0x0A {
        Some(Instruction::LD(LoadType::AFromIndirect(AFromIndirectSource::BC)))
    } else if byte == 0x0B {
        Some(Instruction::DEC16(WordRegister::BC))
    } else if byte == 0x0C {
        Some(Instruction::INC(IncDecTarget::C))
    } else if byte == 0x0D {
        Some(Instruction::DEC(IncDecTarget::C))
    } else if byte == 0x0E {
        Some(Instruction::LD(LoadType::Byte(LoadByteTarget::C, LoadByteSource::D8)))
    } else if byte == 0x0F {
        Some(Instruction::RRCA)
    } else if byte == 0x10 {
        Some(Instruction::STOP)
    } else if byte == 0x11 {
        Some(Instruction::LD(LoadType::Word(WordRegister::DE)))
    } else if byte == 0x12 {
        Some(Instruction::LD(LoadType::IndirectFromA(AFromIndirectSource::DE)))
    } else if byte == 0x13 {
        Some(Instruction::INC16(WordRegister::DE))
    } else if byte == 0x14 {
        Some(Instruction::INC(IncDecTarget::D))
    } else if byte == 0x15 {
        Some(Instruction::DEC(IncDecTarget::D))
    } else if byte == 0x16 {
        Some(Instruction::LD(LoadType::Byte(LoadByteTarget::D, LoadByteSource::D8)))
    } else if byte == 0x17 {
        Some(Instruction::RLA)
    } else if byte == 0x18 {
        Some(Instruction::JR(JumpTest::Always))
    } else if byte == 0x19 {
        Some(Instruction::ADD16(WordRegister::DE))
    } else if byte == 0x1A {
        Some(Instruction::LD(LoadType::AFromIndirect(AFromIndirectSource::DE)))
    } else if byte == 0x1B {
        Some(Instruction::DEC16(WordRegister::DE))
    } else if byte == 0x1C {
        Some(Instruction::INC(IncDecTarget::E))
    } else if byte == 0x1D {
        Some(Instruction::DEC(IncDecTarget::E))
    } else if byte == 0x1E {
        Some(Instruction::LD(LoadType::Byte(LoadByteTarget::E, LoadByteSource::D8)))
    } else if byte == 0x1F {
        Some(Instruction::RRA)
    } else if byte == 0x20 {
        Some(Instruction::JR(JumpTest::NotZero))
    } else if byte == 0x21 {
        Some(Instruction::LD(LoadType::Word(WordRegister::HL)))
    } else if byte == 0x22 {
        Some(Instruction::LD(LoadType::IndirectFromA(AFromIndirectSource::HLInc)))
    } else if byte == 0x23 {
        Some(Instruction::INC16(WordRegister::HL))
    } else if byte == 0x24 {
        Some(Instruction::INC(IncDecTarget::H))
    } else if byte == 0x25 {
        Some(Instruction::DEC(IncDecTarget::H))
    } else if byte == 0x26 {
        Some(Instruction::LD(LoadType::Byte(LoadByteTarget::H, LoadByteSource::D8)))
    } else if byte == 0x27 {
        Some(Instruction::DAA)
    } else if byte == 0x28 {
        Some(Instruction::JR(JumpTest::Zero))
    } else if byte == 0x29 {
        Some(Instruction::ADD16(WordRegister::HL))
    } else if byte == 0x2A {
        Some(Instruction::LD(LoadType::AFromIndirect(AFromIndirectSource::HLInc)))
    } else if byte == 0x2B {
        Some(Instruction::DEC16(WordRegister::HL))
    } else if byte == 0x2C {
        Some(Instruction::INC(IncDecTarget::L))
    } else if byte == 0x2D {
        Some(Instruction::DEC(IncDecTarget::L))
    } else if byte == 0x2E {
        Some(Instruction::LD(LoadType::Byte(LoadByteTarget::L, LoadByteSource::D8)))
    } else if byte == 0x2F {
        Some(Instruction::CPL)
    } else if byte == 0x30 {
        Some(Instruction::JR(JumpTest::NotCarry))
    } else if byte == 0x31 {
        Some(Instruction::LD(LoadType::Word(WordRegister::SP)))
    } else if byte == 0x32 {
        Some(Instruction::LD(LoadType::IndirectFromA(AFromIndirectSource::HLDec)))
    } else if byte == 0x33 {
        Some(Instruction::INC16(WordRegister::SP))
    } else if byte == 0x34 {
        Some(Instruction::INC(IncDecTarget::HLI))
    } else if byte == 0x35 {
        Some(Instruction::DEC(IncDecTarget::HLI))
    } else if byte == 0x36 {
        Some(Instruction::LD(LoadType::Byte(LoadByteTarget::HLI, LoadByteSource::D8)))
    } else if byte == 0x37 {
        Some(Instruction::SCF)
    } else if byte == 0x38 {
        Some(Instruction::JR(JumpTest::Carry))
    } else if byte == 0x39 {
        Some(Instruction::ADD16(WordRegister::SP))
    } else if byte == 0x3A {
        Some(Instruction::LD(LoadType::AFromIndirect(AFromIndirectSource::HLDec)))
    } else if byte == 0x3B {
        Some(Instruction::DEC16(WordRegister::SP))
    } else if byte == 0x3C {
        Some(Instruction::INC(IncDecTarget::A))
    } else if byte == 0x3D {
        Some(Instruction::DEC(IncDecTarget::A))
    } else if byte == 0x3E {
        Some(Instruction::LD(LoadType::Byte(LoadByteTarget::A, LoadByteSource::D8)))
    } else if byte == 0x3F {
        Some(Instruction::CCF)
    } else if byte == 0x76 {
        Some(Instruction::HALT)
    } else if 0x40 <= byte && byte <= 0x7F {
        Some(
            Instruction::LD(
                LoadType::Byte(
                    spec_load_target_of(((byte - 0x40) / 8) as u8),
                    spec_load_source_of((byte % 8) as u8),
                ),
            ),
        )
    } else if 0x80 <= byte && byte <= 0xBF {
        Some(
            spec_arith_instr_of(((byte - 0x80) / 8) as u8, spec_arith_target_of((byte % 8) as u8)),
        )
    } else if byte == 0xC0 {
        Some(Instruction::RET(JumpTest::NotZero))
    } else if byte == 0xC1 {
        Some(Instruction::POP(StackTarget::BC))
    } else if byte == 0xC2 {
        Some(Instruction::JP(JumpTest::NotZero))
    } else if byte == 0xC3 {
        Some(Instruction::JP(JumpTest::Always))
    } else if byte == 0xC4 {
        Some(Instruction::CALL(JumpTest::NotZero))
    } else if byte == 0xC5 {
        Some(Instruction::PUSH(StackTarget::BC))
    } else if byte == 0xC6 {
        Some(Instruction::ADD(ArithmeticTarget::D8))
    } else if byte == 0xC7 {
        Some(Instruction::RST(RestartTarget::Zero))
    } else if byte == 0xC8 {
        Some(Instruction::RET(JumpTest::Zero))
    } else if byte == 0xC9 {
        Some(Instruction::RET(JumpTest::Always))
    } else if byte == 0xCA {
        Some(Instruction::JP(JumpTest::Zero))
    } else if byte == 0xCC {
        Some(Instruction::CALL(JumpTest::Zero))
    } else if byte == 0xCD {
        Some(Instruction::CALL(JumpTest::Always))
    } else if byte == 0xCE {
        Some(Instruction::ADC(ArithmeticTarget::D8))
    } else if byte == 0xCF {
        Some(Instruction::RST(RestartTarget::One))
    } else if byte == 0xD0 {
        Some(Instruction::RET(JumpTest::NotCarry))
    } else if byte == 0xD1 {
        Some(Instruction::POP(StackTarget::DE))
    } else if byte == 0xD2 {
        Some(Instruction::JP(JumpTest::NotCarry))
    } else if byte == 0xD4 {
        Some(Instruction::CALL(JumpTest::NotCarry))
    } else if byte == 0xD5 {
        Some(Instruction::PUSH(StackTarget::DE))
    } else if byte == 0xD6 {
        Some(Instruction::SUB(ArithmeticTarget::D8))
    } else if byte == 0xD7 {
        Some(Instruction::RST(RestartTarget::Two))
    } else if byte == 0xD8 {
        Some(Instruction::RET(JumpTest::Carry))
    } else if byte == 0xD9 {
        Some(Instruction::RETI)
    } else if byte == 0xDA {
        Some(Instruction::JP(JumpTest::Carry))
    } else if byte == 0xDC {
        Some(Instruction::CALL(JumpTest::Carry))
    } else if byte == 0xDE {
        Some(Instruction::SBC(ArithmeticTarget::D8))
    } else if byte == 0xDF {
        Some(Instruction::RST(RestartTarget::Three))
    } else if byte == 0xE0 {
        Some(Instruction::LD(LoadType::HighImmediateFromA))
    } else if byte == 0xE1 {
        Some(Instruction::POP(StackTarget::HL))
    } else if byte == 0xE2 {
        Some(Instruction::LD(LoadType::HighCFromA))
    } else if byte == 0xE5 {
        Some(Instruction::PUSH(StackTarget::HL))
    } else if byte == 0xE6 {
        Some(Instruction::AND(ArithmeticTarget::D8))
    } else if byte == 0xE7 {
        Some(Instruction::RST(RestartTarget::Four))
    } else if byte == 0xE8 {
        Some(Instruction::ADDSP8)
    } else if byte == 0xE9 {
        Some(Instruction::JPHL)
    } else if byte == 0xEA {
        Some(Instruction::LD(LoadType::DirectFromA))
    } else if byte == 0xEE {
        Some(Instruction::XOR(ArithmeticTarget::D8))
    } else if byte == 0xEF {
        Some(Instruction::RST(RestartTarget::Five))
    } else if byte == 0xF0 {
        Some(Instruction::LD(LoadType::AFromHighImmediate))
    } else if byte == 0xF1 {
        Some(Instruction::POP(StackTarget::AF))
    } else if byte == 0xF2 {
        Some(Instruction::LD(LoadType::AFromHighC))
    } else if byte == 0xF3 {
        Some(Instruction::DI)
    } else if byte == 0xF5 {
        Some(Instruction::PUSH(StackTarget::AF))
    } else if byte == 0xF6 {
        Some(Instruction::OR(ArithmeticTarget::D8))
    } else if byte == 0xF7 {
        Some(Instruction::RST(RestartTarget::Six))
    } else if byte == 0xF8 {
        Some(Instruction::LD(LoadType::HLFromSPOffset))
    } else if byte == 0xF9 {
        Some(Instruction::LD(LoadType::SPFromHL))
    } else if byte == 0xFA {
        Some(Instruction::LD(LoadType::AFromDirect))
    } else if byte == 0xFB {
        Some(Instruction::EI)
    } else if byte == 0xFE {
        Some(Instruction::CP(ArithmeticTarget::D8))
    } else if byte == 0xFF {
        Some(Instruction::RST(RestartTarget::Seven))
    } else {
        None
    }
}

/// The one decode function the engine calls: a prefixed byte goes through the
/// prefixed table, any other through the unprefixed one.
pub open spec fn spec_from_byte(byte: u8, prefixed: bool) -> Option<Instruction> {
    if prefixed {
        spec_from_byte_prefixed(byte)
    } else {
        spec_from_byte_not_prefixed(byte)
    }
}

impl Instruction {
    pub fn from_byte(byte: u8, prefixed: bool) -> (r: Option<Instruction>)
        ensures
            r == spec_from_byte(byte, prefixed),
    {
        if prefixed {
            Instruction::from_byte_prefixed(byte)
        } else {
            Instruction::from_byte_not_prefixed(byte)
        }
    }

    pub fn from_byte_prefixed(byte: u8) -> (r: Option<Instruction>)
        ensures
            r == spec_from_byte_prefixed(byte),
    {
        Some(Instruction::decode_prefixed(byte))
    }

    /// The prefixed decode as the total function it is.
    pub fn decode_prefixed(byte: u8) -> (r: Instruction)
        ensures
            r == spec_decode_prefixed(byte),
    {
        let t = prefix_target_of(byte % 8);
        if byte <= 0x07 {
            Instruction::RLC(t)
        } else if byte <= 0x0F {
            Instruction::RRC(t)
        } else if byte <= 0x17 {
            Instruction::RL(t)
        } else if byte <= 0x1F {
            Instruction::RR(t)
        } else if byte <= 0x27 {
            Instruction::SLA(t)
        } else if byte <= 0x2F {
            Instruction::SRA(t)
        } else if byte <= 0x37 {
            Instruction::SWAP(t)
        } else if byte <= 0x3F {
            Instruction::SRL(t)
        } else if byte <= 0x7F {
            Instruction::BIT(bit_position_of((byte - 0x40) / 8), t)
        } else if byte <= 0xBF {
            Instruction::RES(bit_position_of((byte - 0x80) / 8), t)
        } else {
            Instruction::SET(bit_position_of((byte - 0xC0) / 8), t)
        }
    }

    pub fn from_byte_not_prefixed(byte: u8) -> (r: Option<Instruction>)
        ensures
            r == spec_from_byte_not_prefixed(byte),
    {
        if byte < 0x40 {
            Instruction::decode_low(byte)
        } else if byte == 0x76 {
            Some(Instruction::HALT)
        } else if byte <= 0x7F {
            Some(
                Instruction::LD(
                    LoadType::Byte(load_target_of((byte - 0x40) / 8), load_source_of(byte % 8)),
                ),
            )
        } else if byte <= 0xBF {
            Some(arith_instr_of((byte - 0x80) / 8, arith_target_of(byte % 8)))
        } else {
            Instruction::decode_high(byte)
        }
    }

    fn decode_low(byte: u8) -> (r: Option<Instruction>)
        requires
            byte < 0x40,
        ensures
            r == spec_from_byte_not_prefixed(byte),
    {
        match byte {
            0x00 => Some(Instruction::NOP),
            0x01 => Some(Instruction::LD(LoadType::Word(WordRegister::BC))),
            0x02 => Some(Instruction::LD(LoadType::IndirectFromA(AFromIndirectSource::BC))),
            0x03 => Some(Instruction::INC16(WordRegister::BC)),
            0x04 => Some(Instruction::INC(IncDecTarget::B)),
            0x05 => Some(Instruction::DEC(IncDecTarget::B)),
            0x06 => Some(Instruction::LD(LoadType::Byte(LoadByteTarget::B, LoadByteSource::D8))),
            0x07 => Some(Instruction::RLCA),
            0x08 => Some(Instruction::LD(LoadType::DirectFromSP)),
            0x09 => Some(Instruction::ADD16(WordRegister::BC)),
            0x0A => Some(Instruction::LD(LoadType::AFromIndirect(AFromIndirectSource::BC))),
            0x0B => Some(Instruction::DEC16(WordRegister::BC)),
            0x0C => Some(Instruction::INC(IncDecTarget::C)),
            0x0D => Some(Instruction::DEC(IncDecTarget::C)),
            0x0E => Some(Instruction::LD(LoadType::Byte(LoadByteTarget::C, LoadByteSource::D8))),
            0x0F => Some(Instruction::RRCA),
            0x10 => Some(Instruction::STOP),
            0x11 => Some(Instruction::LD(LoadType::Word(WordRegister::DE))),
            0x12 => Some(Instruction::LD(LoadType::IndirectFromA(AFromIndirectSource::DE))),
            0x13 => Some(Instruction::INC16(WordRegister::DE)),
            0x14 => Some(Instruction::INC(IncDecTarget::D)),
            0x15 => Some(Instruction::DEC(IncDecTarget::D)),
            0x16 => Some(Instruction::LD(LoadType::Byte(LoadByteTarget::D, LoadByteSource::D8))),
            0x17 => Some(Instruction::RLA),
            0x18 => Some(Instruction::JR(JumpTest::Always)),
            0x19 => Some(Instruction::ADD16(WordRegister::DE)),
            0x1A => Some(Instruction::LD(LoadType::AFromIndirect(AFromIndirectSource::DE))),
            0x1B => Some(Instruction::DEC16(WordRegister::DE)),
            0x1C => Some(Instruction::INC(IncDecTarget::E)),
            0x1D => Some(Instruction::DEC(IncDecTarget::E)),
            0x1E => Some(Instruction::LD(LoadType::Byte(LoadByteTarget::E, LoadByteSource::D8))),
            0x1F => Some(Instruction::RRA),
            0x20 => Some(Instruction::JR(JumpTest::NotZero)),
            0x21 => Some(Instruction::LD(LoadType::Word(WordRegister::HL))),
            0x22 => Some(Instruction::LD(LoadType::IndirectFromA(AFromIndirectSource::HLInc))),
            0x23 => Some(Instruction::INC16(WordRegister::HL)),
            0x24 => Some(Instruction::INC(IncDecTarget::H)),
            0x25 => Some(Instruction::DEC(IncDecTarget::H)),
            0x26 => Some(Instruction::LD(LoadType::Byte(LoadByteTarget::H, LoadByteSource::D8))),
            0x27 => Some(Instruction::DAA),
            0x28 => Some(Instruction::JR(JumpTest::Zero)),
            0x29 => Some(Instruction::ADD16(WordRegister::HL)),
            0x2A => Some(Instruction::LD(LoadType::AFromIndirect(AFromIndirectSource::HLInc))),
            0x2B => Some(Instruction::DEC16(WordRegister::HL)),
            0x2C => Some(Instruction::INC(IncDecTarget::L)),
            0x2D => Some(Instruction::DEC(IncDecTarget::L)),
            0x2E => Some(Instruction::LD(LoadType::Byte(LoadByteTarget::L, LoadByteSource::D8))),
            0x2F => Some(Instruction::CPL),
            0x30 => Some(Instruction::JR(JumpTest::NotCarry)),
            0x31 => Some(Instruction::LD(LoadType::Word(WordRegister::SP))),
            0x32 => Some(Instruction::LD(LoadType::IndirectFromA(AFromIndirectSource::HLDec))),
            0x33 => Some(Instruction::INC16(WordRegister::SP)),
            0x34 => Some(Instruction::INC(IncDecTarget::HLI)),
            0x35 => Some(Instruction::DEC(IncDecTarget::HLI)),
            0x36 => Some(Instruction::LD(LoadType::Byte(LoadByteTarget::HLI, LoadByteSource::D8))),
            0x37 => Some(Instruction::SCF),
            0x38 => Some(Instruction::JR(JumpTest::Carry)),
            0x39 => Some(Instruction::ADD16(WordRegister::SP)),
            0x3A => Some(Instruction::LD(LoadType::AFromIndirect(AFromIndirectSource::HLDec))),
            0x3B => Some(Instruction::DEC16(WordRegister::SP)),
            0x3C => Some(Instruction::INC(IncDecTarget::A)),
            0x3D => Some(Instruction::DEC(IncDecTarget::A)),
            0x3E => Some(Instruction::LD(LoadType::Byte(LoadByteTarget::A, LoadByteSource::D8))),
            _ => Some(Instruction::CCF),
        }
    }

    fn decode_high(byte: u8) -> (r: Option<Instruction>)
        requires
            byte >= 0xC0,
        ensures
            r == spec_from_byte_not_prefixed(byte),
    {
        match byte {
            0xC0 => Some(Instruction::RET(JumpTest::NotZero)),
            0xC1 => Some(Instruction::POP(StackTarget::BC)),
            0xC2 => Some(Instruction::JP(JumpTest::NotZero)),
            0xC3 => Some(Instruction::JP(JumpTest::Always)),
            0xC4 => Some(Instruction::CALL(JumpTest::NotZero)),
            0xC5 => Some(Instruction::PUSH(StackTarget::BC)),
            0xC6 => Some(Instruction::ADD(ArithmeticTarget::D8)),
            0xC7 => Some(Instruction::RST(RestartTarget::Zero)),
            0xC8 => Some(Instruction::RET(JumpTest::Zero)),
            0xC9 => Some(Instruction::RET(JumpTest::Always)),
            0xCA => Some(Instruction::JP(JumpTest::Zero)),
            0xCC => Some(Instruction::CALL(JumpTest::Zero)),
            0xCD => Some(Instruction::CALL(JumpTest::Always)),
            0xCE => Some(Instruction::ADC(ArithmeticTarget::D8)),
            0xCF => Some(Instruction::RST(RestartTarget::One)),
            0xD0 => Some(Instruction::RET(JumpTest::NotCarry)),
            0xD1 => Some(Instruction::POP(StackTarget::DE)),
            0xD2 => Some(Instruction::JP(JumpTest::NotCarry)),
            0xD4 => Some(Instruction::CALL(JumpTest::NotCarry)),
            0xD5 => Some(Instruction::PUSH(StackTarget::DE)),
            0xD6 => Some(Instruction::SUB(ArithmeticTarget::D8)),
            0xD7 => Some(Instruction::RST(RestartTarget::Two)),
            0xD8 => Some(Instruction::RET(JumpTest::Carry)),
            0xD9 => Some(Instruction::RETI),
            0xDA => Some(Instruction::JP(JumpTest::Carry)),
            0xDC => Some(Instruction::CALL(JumpTest::Carry)),
            0xDE => Some(Instruction::SBC(ArithmeticTarget::D8)),
            0xDF => Some(Instruction::RST(RestartTarget::Three)),
            0xE0 => Some(Instruction::LD(LoadType::HighImmediateFromA)),
            0xE1 => Some(Instruction::POP(StackTarget::HL)),
            0xE2 => Some(Instruction::LD(LoadType::HighCFromA)),
            0xE5 => Some(Instruction::PUSH(StackTarget::HL)),
            0xE6 => Some(Instruction::AND(ArithmeticTarget::D8)),
            0xE7 => Some(Instruction::RST(RestartTarget::Four)),
            0xE8 => Some(Instruction::ADDSP8),
            0xE9 => Some(Instruction::JPHL),
            0xEA => Some(Instruction::LD(LoadType::DirectFromA)),
            0xEE => Some(Instruction::XOR(ArithmeticTarget::D8)),
            0xEF => Some(Instruction::RST(RestartTarget::Five)),
            0xF0 => Some(Instruction::LD(LoadType::AFromHighImmediate)),
            0xF1 => Some(Instruction::POP(StackTarget::AF)),
            0xF2 => Some(Instruction::LD(LoadType::AFromHighC)),
            0xF3 => Some(Instruction::DI),
            0xF5 => Some(Instruction::PUSH(StackTarget::AF)),
            0xF6 => Some(Instruction::OR(ArithmeticTarget::D8)),
            0xF7 => Some(Instruction::RST(RestartTarget::Six)),
            0xF8 => Some(Instruction::LD(LoadType::HLFromSPOffset)),
            0xF9 => Some(Instruction::LD(LoadType::SPFromHL)),
            0xFA => Some(Instruction::LD(LoadType::AFromDirect)),
            0xFB => Some(Instruction::EI),
            0xFE => Some(Instruction::CP(ArithmeticTarget::D8)),
            0xFF => Some(Instruction::RST(RestartTarget::Seven)),
            _ => None,
        }
    }
}

fn arith_target_of(i: u8) -> (r: ArithmeticTarget)
    requires
        i < 8,
    ensures
        r == spec_arith_target_of(i),
{
    match i {
        0 => ArithmeticTarget::B,
        1 => ArithmeticTarget::C,
        2 => ArithmeticTarget::D,
        3 => ArithmeticTarget::E,
        4 => ArithmeticTarget::H,
        5 => ArithmeticTarget::L,
        6 => ArithmeticTarget::HLI,
        _ => ArithmeticTarget::A,
    }
}

fn load_source_of(i: u8) -> (r: LoadByteSource)
    requires
        i < 8,
    ensures
        r == spec_load_source_of(i),
{
    match i {
        0 => LoadByteSource::B,
        1 => LoadByteSource::C,
        2 => LoadByteSource::D,
        3 => LoadByteSource::E,
        4 => LoadByteSource::H,
        5 => LoadByteSource::L,
        6 => LoadByteSource::HLI,
        _ => LoadByteSource::A,
    }
}

fn load_target_of(i: u8) -> (r: LoadByteTarget)
    requires
        i < 8,
    ensures
        r == spec_load_target_of(i),
{
    match i {
        0 => LoadByteTarget::B,
        1 => LoadByteTarget::C,
        2 => LoadByteTarget::D,
        3 => LoadByteTarget::E,
        4 => LoadByteTarget::H,
        5 => LoadByteTarget::L,
        6 => LoadByteTarget::HLI,
        _ => LoadByteTarget::A,
    }
}

fn prefix_target_of(i: u8) -> (r: PrefixTarget)
    requires
        i < 8,
    ensures
        r == spec_prefix_target_of(i),
{
    match i {
        0 => PrefixTarget::B,
        1 => PrefixTarget::C,
        2 => PrefixTarget::D,
        3 => PrefixTarget::E,
        4 => PrefixTarget::H,
        5 => PrefixTarget::L,
        6 => PrefixTarget::HLI,
        _ => PrefixTarget::A,
    }
}

fn bit_position_of(i: u8) -> (r: BitPosition)
    requires
        i < 8,
    ensures
        r == spec_bit_position_of(i),
{
    match i {
        0 => BitPosition::Zero,
        1 => BitPosition::One,
        2 => BitPosition::Two,
        3 => BitPosition::Three,
        4 => BitPosition::Four,
        5 => BitPosition::Five,
        6 => BitPosition::Six,
        _ => BitPosition::Seven,
    }
}

fn arith_instr_of(op: u8, t: ArithmeticTarget) -> (r: Instruction)
    requires
        op < 8,
    ensures
        r == spec_arith_instr_of(op, t),
{
    match op {
        0 => Instruction::ADD(t),
        1 => Instruction::ADC(t),
        2 => Instruction::SUB(t),
        3 => Instruction::SBC(t),
        4 => Instruction::AND(t),
        5 => Instruction::XOR(t),
        6 => Instruction::OR(t),
        _ => Instruction::CP(t),
    }
}

} // verus!
