use gb_core::instructions::{
    AFromIndirectSource, ArithmeticTarget, BitPosition, IncDecTarget, Instruction, JumpTest,
    LoadByteSource, LoadByteTarget, LoadType, PrefixTarget, RestartTarget, StackTarget,
    WordRegister,
};

const UNDEFINED_UNPREFIXED: [u8; 12] = [
    0xCB, 0xD3, 0xDB, 0xDD, 0xE3, 0xE4, 0xEB, 0xEC, 0xED, 0xF4, 0xFC, 0xFD,
];

#[test]
fn decode_is_deterministic_and_total_unprefixed() {
    for byte in 0..=255u8 {
        let first = Instruction::from_byte(byte, false);
        let second = Instruction::from_byte(byte, false);
        assert_eq!(first, second);
        let undefined = UNDEFINED_UNPREFIXED.contains(&byte);
        assert_eq!(first.is_none(), undefined, "byte {byte:#04x}");
    }
}

#[test]
fn decode_is_deterministic_and_total_prefixed() {
    for byte in 0..=255u8 {
        let first = Instruction::from_byte(byte, true);
        let second = Instruction::from_byte(byte, true);
        assert_eq!(first, second);
        assert!(first.is_some(), "byte {byte:#04x}");
        assert_eq!(first, Some(Instruction::decode_prefixed(byte)));
    }
}

#[test]
fn decode_register_grouping() {
    assert_eq!(
        Instruction::from_byte_not_prefixed(0x80),
        Some(Instruction::ADD(ArithmeticTarget::B))
    );
    assert_eq!(
        Instruction::from_byte_not_prefixed(0x86),
        Some(Instruction::ADD(ArithmeticTarget::HLI))
    );
    assert_eq!(
        Instruction::from_byte_not_prefixed(0x87),
        Some(Instruction::ADD(ArithmeticTarget::A))
    );
    assert_eq!(
        Instruction::from_byte_not_prefixed(0x9D),
        Some(Instruction::SBC(ArithmeticTarget::L))
    );
    assert_eq!(
        Instruction::from_byte_not_prefixed(0xBE),
        Some(Instruction::CP(ArithmeticTarget::HLI))
    );
    assert_eq!(
        Instruction::from_byte_not_prefixed(0x42),
        Some(Instruction::LD(LoadType::Byte(LoadByteTarget::B, LoadByteSource::D)))
    );
    assert_eq!(
        Instruction::from_byte_not_prefixed(0x6E),
        Some(Instruction::LD(LoadType::Byte(LoadByteTarget::L, LoadByteSource::HLI)))
    );
    assert_eq!(
        Instruction::from_byte_not_prefixed(0x3E),
        Some(Instruction::LD(LoadType::Byte(LoadByteTarget::A, LoadByteSource::D8)))
    );
    assert_eq!(Instruction::from_byte_not_prefixed(0x76), Some(Instruction::HALT));
}

#[test]
fn decode_stack_and_word_instructions() {
    assert_eq!(
        Instruction::from_byte_not_prefixed(0xC5),
        Some(Instruction::PUSH(StackTarget::BC))
    );
    assert_eq!(
        Instruction::from_byte_not_prefixed(0xF1),
        Some(Instruction::POP(StackTarget::AF))
    );
    assert_eq!(
        Instruction::from_byte_not_prefixed(0x31),
        Some(Instruction::LD(LoadType::Word(WordRegister::SP)))
    );
    assert_eq!(
        Instruction::from_byte_not_prefixed(0x39),
        Some(Instruction::ADD16(WordRegister::SP))
    );
    assert_eq!(Instruction::from_byte_not_prefixed(0x33), Some(Instruction::INC16(WordRegister::SP)));
    assert_eq!(Instruction::from_byte_not_prefixed(0x2B), Some(Instruction::DEC16(WordRegister::HL)));
}

#[test]
fn decode_control_flow() {
    assert_eq!(Instruction::from_byte_not_prefixed(0xC2), Some(Instruction::JP(JumpTest::NotZero)));
    assert_eq!(Instruction::from_byte_not_prefixed(0xC3), Some(Instruction::JP(JumpTest::Always)));
    assert_eq!(Instruction::from_byte_not_prefixed(0x20), Some(Instruction::JR(JumpTest::NotZero)));
    assert_eq!(Instruction::from_byte_not_prefixed(0xCD), Some(Instruction::CALL(JumpTest::Always)));
    assert_eq!(Instruction::from_byte_not_prefixed(0xC0), Some(Instruction::RET(JumpTest::NotZero)));
    assert_eq!(Instruction::from_byte_not_prefixed(0xC9), Some(Instruction::RET(JumpTest::Always)));
    assert_eq!(Instruction::from_byte_not_prefixed(0xD9), Some(Instruction::RETI));
    assert_eq!(Instruction::from_byte_not_prefixed(0xE9), Some(Instruction::JPHL));
    assert_eq!(
        Instruction::from_byte_not_prefixed(0xEF),
        Some(Instruction::RST(RestartTarget::Five))
    );
}

#[test]
fn decode_indirect_accumulator_loads() {
    assert_eq!(
        Instruction::from_byte_not_prefixed(0x22),
        Some(Instruction::LD(LoadType::IndirectFromA(AFromIndirectSource::HLInc)))
    );
    assert_eq!(
        Instruction::from_byte_not_prefixed(0x3A),
        Some(Instruction::LD(LoadType::AFromIndirect(AFromIndirectSource::HLDec)))
    );
    assert_eq!(
        Instruction::from_byte_not_prefixed(0x0A),
        Some(Instruction::LD(LoadType::AFromIndirect(AFromIndirectSource::BC)))
    );
}

#[test]
fn decode_misc_and_interrupt_switches() {
    assert_eq!(Instruction::from_byte_not_prefixed(0x00), Some(Instruction::NOP));
    assert_eq!(Instruction::from_byte_not_prefixed(0x10), Some(Instruction::STOP));
    assert_eq!(Instruction::from_byte_not_prefixed(0x27), Some(Instruction::DAA));
    assert_eq!(Instruction::from_byte_not_prefixed(0x2F), Some(Instruction::CPL));
    assert_eq!(Instruction::from_byte_not_prefixed(0x37), Some(Instruction::SCF));
    assert_eq!(Instruction::from_byte_not_prefixed(0x3F), Some(Instruction::CCF));
    assert_eq!(Instruction::from_byte_not_prefixed(0xF3), Some(Instruction::DI));
    assert_eq!(Instruction::from_byte_not_prefixed(0xFB), Some(Instruction::EI));
    assert_eq!(Instruction::from_byte_not_prefixed(0x34), Some(Instruction::INC(IncDecTarget::HLI)));
    assert_eq!(Instruction::from_byte_not_prefixed(0x3D), Some(Instruction::DEC(IncDecTarget::A)));
}

#[test]
fn decode_prefixed_families() {
    assert_eq!(Instruction::from_byte_prefixed(0x00), Some(Instruction::RLC(PrefixTarget::B)));
    assert_eq!(Instruction::from_byte_prefixed(0x05), Some(Instruction::RLC(PrefixTarget::L)));
    assert_eq!(Instruction::from_byte_prefixed(0x06), Some(Instruction::RLC(PrefixTarget::HLI)));
    assert_eq!(Instruction::from_byte_prefixed(0x07), Some(Instruction::RLC(PrefixTarget::A)));
    assert_eq!(Instruction::from_byte_prefixed(0x08), Some(Instruction::RRC(PrefixTarget::B)));
    assert_eq!(Instruction::from_byte_prefixed(0x11), Some(Instruction::RL(PrefixTarget::C)));
    assert_eq!(Instruction::from_byte_prefixed(0x1A), Some(Instruction::RR(PrefixTarget::D)));
    assert_eq!(Instruction::from_byte_prefixed(0x23), Some(Instruction::SLA(PrefixTarget::E)));
    assert_eq!(Instruction::from_byte_prefixed(0x2C), Some(Instruction::SRA(PrefixTarget::H)));
    assert_eq!(Instruction::from_byte_prefixed(0x35), Some(Instruction::SWAP(PrefixTarget::L)));
    assert_eq!(Instruction::from_byte_prefixed(0x3E), Some(Instruction::SRL(PrefixTarget::HLI)));
    assert_eq!(
        Instruction::from_byte_prefixed(0x40),
        Some(Instruction::BIT(BitPosition::Zero, PrefixTarget::B))
    );
    assert_eq!(
        Instruction::from_byte_prefixed(0x7E),
        Some(Instruction::BIT(BitPosition::Seven, PrefixTarget::HLI))
    );
    assert_eq!(
        Instruction::from_byte_prefixed(0x87),
        Some(Instruction::RES(BitPosition::Zero, PrefixTarget::A))
    );
    assert_eq!(
        Instruction::from_byte_prefixed(0xFF),
        Some(Instruction::SET(BitPosition::Seven, PrefixTarget::A))
    );
}
