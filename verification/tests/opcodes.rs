use gb7_core::cpu::{Flag, Register, WideRegister};
use gb7_core::opcodes::Opcode;

const UNDEFINED: [u8; 11] = [0xD3, 0xDB, 0xDD, 0xE3, 0xE4, 0xEB, 0xEC, 0xED, 0xF4, 0xFC, 0xFD];

#[test]
fn eleven_bytes_of_the_first_table_are_undefined() {
    let mut undefined = 0;
    for byte in 0..=255u8 {
        match Opcode::decode(byte) {
            Some(_) => assert!(!UNDEFINED.contains(&byte)),
            None => {
                assert!(UNDEFINED.contains(&byte));
                undefined += 1;
            },
        }
    }
    assert_eq!(undefined, 11);
}

#[test]
fn first_table_samples() {
    assert_eq!(Opcode::decode(0x00), Some(Opcode::NOP));
    assert_eq!(Opcode::decode(0x01), Some(Opcode::LDWRI(WideRegister::BC)));
    assert_eq!(Opcode::decode(0x08), Some(Opcode::LDISP));
    assert_eq!(Opcode::decode(0x10), Some(Opcode::STOP));
    assert_eq!(Opcode::decode(0x18), Some(Opcode::JR));
    assert_eq!(Opcode::decode(0x20), Some(Opcode::JRNCC(Flag::Z)));
    assert_eq!(Opcode::decode(0x28), Some(Opcode::JRCC(Flag::Z)));
    assert_eq!(Opcode::decode(0x30), Some(Opcode::JRNCC(Flag::C)));
    assert_eq!(Opcode::decode(0x38), Some(Opcode::JRCC(Flag::C)));
    assert_eq!(Opcode::decode(0x27), Some(Opcode::DAA));
    assert_eq!(Opcode::decode(0x31), Some(Opcode::LDWRI(WideRegister::SP)));
    assert_eq!(Opcode::decode(0x34), Some(Opcode::INCHL));
    assert_eq!(Opcode::decode(0x36), Some(Opcode::LDHLI));
    assert_eq!(Opcode::decode(0x40), Some(Opcode::LDRR(Register::B, Register::B)));
    assert_eq!(Opcode::decode(0x46), Some(Opcode::LDRHL(Register::B)));
    assert_eq!(Opcode::decode(0x70), Some(Opcode::LDHLR(Register::B)));
    assert_eq!(Opcode::decode(0x76), Some(Opcode::HALT));
    assert_eq!(Opcode::decode(0x7F), Some(Opcode::LDRR(Register::A, Register::A)));
    assert_eq!(Opcode::decode(0x80), Some(Opcode::ADD(Register::B)));
    assert_eq!(Opcode::decode(0x8E), Some(Opcode::ADCHL));
    assert_eq!(Opcode::decode(0x97), Some(Opcode::SUB(Register::A)));
    assert_eq!(Opcode::decode(0xBE), Some(Opcode::CPHL));
    assert_eq!(Opcode::decode(0xC1), Some(Opcode::POPWR(WideRegister::BC)));
    assert_eq!(Opcode::decode(0xF1), Some(Opcode::POPWR(WideRegister::AF)));
    assert_eq!(Opcode::decode(0xF5), Some(Opcode::PUSHWR(WideRegister::AF)));
    assert_eq!(Opcode::decode(0xC3), Some(Opcode::JP));
    assert_eq!(Opcode::decode(0xC9), Some(Opcode::RET));
    assert_eq!(Opcode::decode(0xCB), Some(Opcode::CB));
    assert_eq!(Opcode::decode(0xCD), Some(Opcode::CALL));
    assert_eq!(Opcode::decode(0xD6), Some(Opcode::SUBI));
    assert_eq!(Opcode::decode(0xD9), Some(Opcode::RETI));
    assert_eq!(Opcode::decode(0xE8), Some(Opcode::ADDSP));
    assert_eq!(Opcode::decode(0xE9), Some(Opcode::JPHL));
    assert_eq!(Opcode::decode(0xF3), Some(Opcode::DI));
    assert_eq!(Opcode::decode(0xF8), Some(Opcode::LDHLSP));
    assert_eq!(Opcode::decode(0xFB), Some(Opcode::EI));
    assert_eq!(Opcode::decode(0xFF), Some(Opcode::RST(0x38)));
}

#[test]
fn load_block_follows_the_operand_fields() {
    let regs = [
        Some(Register::B),
        Some(Register::C),
        Some(Register::D),
        Some(Register::E),
        Some(Register::H),
        Some(Register::L),
        None,
        Some(Register::A),
    ];
    for byte in 0x40..=0x7Fu8 {
        let dest = regs[((byte >> 3) & 7) as usize];
        let source = regs[(byte & 7) as usize];
        let expected = match (dest, source) {
            (Some(d), Some(s)) => Opcode::LDRR(d, s),
            (Some(d), None) => Opcode::LDRHL(d),
            (None, Some(s)) => Opcode::LDHLR(s),
            (None, None) => Opcode::HALT,
        };
        assert_eq!(Opcode::decode(byte), Some(expected));
    }
}

#[test]
fn second_table_follows_its_fields() {
    let regs = [
        Some(Register::B),
        Some(Register::C),
        Some(Register::D),
        Some(Register::E),
        Some(Register::H),
        Some(Register::L),
        None,
        Some(Register::A),
    ];
    for byte in 0x40..=0xFFu8 {
        let bit = (byte >> 3) & 7;
        let expected = match (byte >> 6, regs[(byte & 7) as usize]) {
            (1, Some(r)) => Opcode::BIT(bit, r),
            (1, None) => Opcode::BITHL(bit),
            (2, Some(r)) => Opcode::RES(bit, r),
            (2, None) => Opcode::RESHL(bit),
            (_, Some(r)) => Opcode::SET(bit, r),
            (_, None) => Opcode::SETHL(bit),
        };
        assert_eq!(Opcode::decode_prefixed(byte), expected);
    }
}

#[test]
fn second_table_samples() {
    assert_eq!(Opcode::decode_prefixed(0x00), Opcode::RLC(Register::B));
    assert_eq!(Opcode::decode_prefixed(0x0E), Opcode::RRCHL);
    assert_eq!(Opcode::decode_prefixed(0x11), Opcode::RL(Register::C));
    assert_eq!(Opcode::decode_prefixed(0x1F), Opcode::RR(Register::A));
    assert_eq!(Opcode::decode_prefixed(0x26), Opcode::SLAHL);
    assert_eq!(Opcode::decode_prefixed(0x2A), Opcode::SRA(Register::D));
    assert_eq!(Opcode::decode_prefixed(0x37), Opcode::SWAP(Register::A));
    assert_eq!(Opcode::decode_prefixed(0x3B), Opcode::SRL(Register::E));
    assert_eq!(Opcode::decode_prefixed(0x46), Opcode::BITHL(0));
    assert_eq!(Opcode::decode_prefixed(0x7C), Opcode::BIT(7, Register::H));
    assert_eq!(Opcode::decode_prefixed(0x86), Opcode::RESHL(0));
    assert_eq!(Opcode::decode_prefixed(0xFF), Opcode::SET(7, Register::A));
}
