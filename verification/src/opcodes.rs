//! The instruction set: what each opcode byte stands for.

use crate::cpu::{Flag, Register, WideRegister};
use vstd::prelude::*;

verus! {

/// An instruction with its operands. `[HL]` is the byte at the address held
/// in HL, and an immediate is the byte or the word that follows the opcode.
#[derive(Clone, Copy, Debug, PartialEq, Eq)]
pub enum Opcode {
    /// Add a register and the carry to A.
    ADC(Register),
    /// Add `[HL]` and the carry to A.
    ADCHL,
    /// Add an immediate byte and the carry to A.
    ADCI,
    /// Add a register to A.
    ADD(Register),
    /// Add `[HL]` to A.
    ADDHL,
    /// Add an immediate byte to A.
    ADDI,
    /// Add a wide register to HL.
    ADDHLR(WideRegister),
    /// Add an immediate signed byte to SP.
    ADDSP,
    /// AND a register into A.
    AND(Register),
    /// AND `[HL]` into A.
    ANDHL,
    /// AND an immediate byte into A.
    ANDI,
    /// Test a bit of a register.
    BIT(u8, Register),
    /// Test a bit of `[HL]`.
    BITHL(u8),
    /// Call the immediate address.
    CALL,
    /// Call if the flag is set.
    CALLCC(Flag),
    /// Call if the flag is clear.
    CALLNCC(Flag),
    /// The prefix of the second table: the next byte selects the instruction.
    CB,
    /// Complement the carry flag.
    CCF,
    /// Compare a register with A.
    CP(Register),
    /// Compare `[HL]` with A.
    CPHL,
    /// Compare an immediate byte with A.
    CPI,
    /// Complement A.
    CPL,
    /// Adjust A to packed decimal.
    DAA,
    /// Decrement a register.
    DEC(Register),
    /// Decrement `[HL]`.
    DECHL,
    /// Decrement a wide register.
    DECW(WideRegister),
    /// Disable interrupts.
    DI,
    /// Enable interrupts.
    EI,
    /// Halt until an interrupt is requested.
    HALT,
    /// Increment a register.
    INC(Register),
    /// Increment `[HL]`.
    INCHL,
    /// Increment a wide register.
    INCW(WideRegister),
    /// Jump to the immediate address.
    JP,
    /// Jump if the flag is set.
    JPCC(Flag),
    /// Jump if the flag is clear.
    JPNCC(Flag),
    /// Jump to the address in HL.
    JPHL,
    /// Jump by an immediate signed byte.
    JR,
    /// Jump by an immediate signed byte if the flag is set.
    JRCC(Flag),
    /// Jump by an immediate signed byte if the flag is clear.
    JRNCC(Flag),
    /// Load the second register into the first.
    LDRR(Register, Register),
    /// Load an immediate byte into a register.
    LDRI(Register),
    /// Load an immediate word into a wide register.
    LDWRI(WideRegister),
    /// Store a register at `[HL]`.
    LDHLR(Register),
    /// Store an immediate byte at `[HL]`.
    LDHLI,
    /// Load `[HL]` into a register.
    LDRHL(Register),
    /// Store A at the address in a wide register.
    LDWRA(WideRegister),
    /// Store A at the immediate address.
    LDIWA,
    /// Load A from the address in a wide register.
    LDAWR(WideRegister),
    /// Load A from the immediate address.
    LDAIW,
    /// Store A at `[HL]` and increment HL.
    LDHLIA,
    /// Store A at `[HL]` and decrement HL.
    LDHLDA,
    /// Load A from `[HL]` and decrement HL.
    LDAHLD,
    /// Load A from `[HL]` and increment HL.
    LDAHLI,
    /// Store SP at the immediate address.
    LDISP,
    /// Load SP plus an immediate signed byte into HL.
    LDHLSP,
    /// Load HL into SP.
    LDSPHL,
    /// Store A at 0xFF00 plus an immediate byte.
    LDIOA,
    /// Store A at 0xFF00 plus C.
    LDIOCA,
    /// Load A from 0xFF00 plus an immediate byte.
    LDAIO,
    /// Load A from 0xFF00 plus C.
    LDAIOC,
    /// Do nothing.
    NOP,
    /// OR a register into A.
    OR(Register),
    /// OR `[HL]` into A.
    ORHL,
    /// OR an immediate byte into A.
    ORI,
    /// Pop a wide register from the stack.
    POPWR(WideRegister),
    /// Push a wide register onto the stack.
    PUSHWR(WideRegister),
    /// Clear a bit of a register.
    RES(u8, Register),
    /// Clear a bit of `[HL]`.
    RESHL(u8),
    /// Return from a call.
    RET,
    /// Return if the flag is set.
    RETCC(Flag),
    /// Return if the flag is clear.
    RETNCC(Flag),
    /// Return and enable interrupts.
    RETI,
    /// Rotate a register left through the carry.
    RL(Register),
    /// Rotate `[HL]` left through the carry.
    RLHL,
    /// Rotate A left through the carry; Z is cleared.
    RLA,
    /// Rotate a register left.
    RLC(Register),
    /// Rotate `[HL]` left.
    RLCHL,
    /// Rotate A left; Z is cleared.
    RLCA,
    /// Rotate a register right through the carry.
    RR(Register),
    /// Rotate `[HL]` right through the carry.
    RRHL,
    /// Rotate A right through the carry; Z is cleared.
    RRA,
    /// Rotate a register right.
    RRC(Register),
    /// Rotate `[HL]` right.
    RRCHL,
    /// Rotate A right; Z is cleared.
    RRCA,
    /// Call a fixed address.
    RST(u16),
    /// Subtract a register and the carry from A.
    SBC(Register),
    /// Subtract `[HL]` and the carry from A.
    SBCHL,
    /// Subtract an immediate byte and the carry from A.
    SBCI,
    /// Set the carry flag.
    SCF,
    /// Set a bit of a register.
    SET(u8, Register),
    /// Set a bit of `[HL]`.
    SETHL(u8),
    /// Shift a register left.
    SLA(Register),
    /// Shift `[HL]` left.
    SLAHL,
    /// Shift a register right, keeping bit 7.
    SRA(Register),
    /// Shift `[HL]` right, keeping bit 7.
    SRAHL,
    /// Shift a register right.
    SRL(Register),
    /// Shift `[HL]` right.
    SRLHL,
    /// Stop the processor; it behaves as HALT.
    STOP,
    /// Subtract a register from A.
    SUB(Register),
    /// Subtract `[HL]` from A.
    SUBHL,
    /// Subtract an immediate byte from A.
    SUBI,
    /// Exchange the nibbles of a register.
    SWAP(Register),
    /// Exchange the nibbles of `[HL]`.
    SWAPHL,
    /// XOR a register into A.
    XOR(Register),
    /// XOR `[HL]` into A.
    XORHL,
    /// XOR an immediate byte into A.
    XORI,
}

/// An operand field of three bits: a register, or `[HL]` for 6.
pub open spec fn operand(field: int) -> Option<Register> {
    if field == 0 {
        Some(Register::B)
    } else if field == 1 {
        Some(Register::C)
    } else if field == 2 {
        Some(Register::D)
    } else if field == 3 {
        Some(Register::E)
    } else if field == 4 {
        Some(Register::H)
    } else if field == 5 {
        Some(Register::L)
    } else if field == 6 {
        None
    } else {
        Some(Register::A)
    }
}

/// A register pair field of two bits; the last pair is SP, or AF for PUSH
/// and POP.
pub open spec fn pair_operand(field: int, stack: bool) -> WideRegister {
    if field == 0 {
        WideRegister::BC
    } else if field == 1 {
        WideRegister::DE
    } else if field == 2 {
        WideRegister::HL
    } else if stack {
        WideRegister::AF
    } else {
        WideRegister::SP
    }
}

/// A condition field of two bits: NZ, Z, NC, C. The pair holds the flag, and
/// whether the flag has to be set.
pub open spec fn condition(field: int) -> (Flag, bool) {
    if field == 0 {
        (Flag::Z, false)
    } else if field == 1 {
        (Flag::Z, true)
    } else if field == 2 {
        (Flag::C, false)
    } else {
        (Flag::C, true)
    }
}

/// The eight operations on A, by their field of three bits, with a register
/// operand, with `[HL]` and with an immediate byte.
pub open spec fn alu_opcode(field: int, source: Option<Option<Register>>) -> Opcode {
    match source {
        Some(Some(r)) => if field == 0 {
            Opcode::ADD(r)
        } else if field == 1 {
            Opcode::ADC(r)
        } else if field == 2 {
            Opcode::SUB(r)
        } else if field == 3 {
            Opcode::SBC(r)
        } else if field == 4 {
            Opcode::AND(r)
        } else if field == 5 {
            Opcode::XOR(r)
        } else if field == 6 {
            Opcode::OR(r)
        } else {
            Opcode::CP(r)
        },
        Some(None) => if field == 0 {
            Opcode::ADDHL
        } else if field == 1 {
            Opcode::ADCHL
        } else if field == 2 {
            Opcode::SUBHL
        } else if field == 3 {
            Opcode::SBCHL
        } else if field == 4 {
            Opcode::ANDHL
        } else if field == 5 {
            Opcode::XORHL
        } else if field == 6 {
            Opcode::ORHL
        } else {
            Opcode::CPHL
        },
        None => if field == 0 {
            Opcode::ADDI
        } else if field == 1 {
            Opcode::ADCI
        } else if field == 2 {
            Opcode::SUBI
        } else if field == 3 {
            Opcode::SBCI
        } else if field == 4 {
            Opcode::ANDI
        } else if field == 5 {
            Opcode::XORI
        } else if field == 6 {
            Opcode::ORI
        } else {
            Opcode::CPI
        },
    }
}

/// The first quarter of the table, 0x00 to 0x3F, by the fields `y` (bits 5
/// to 3) and `z` (bits 2 to 0) of the opcode.
pub open spec fn first_quarter(y: int, z: int) -> Opcode {
    let p = y / 2;
    let q = y % 2;
    if z == 0 {
        if y == 0 {
            Opcode::NOP
        } else if y == 1 {
            Opcode::LDISP
        } else if y == 2 {
            Opcode::STOP
        } else if y == 3 {
            Opcode::JR
        } else if condition(y - 4).1 {
            Opcode::JRCC(condition(y - 4).0)
        } else {
            Opcode::JRNCC(condition(y - 4).0)
        }
    } else if z == 1 {
        if q == 0 {
            Opcode::LDWRI(pair_operand(p, false))
        } else {
            Opcode::ADDHLR(pair_operand(p, false))
        }
    } else if z == 2 {
        if q == 0 {
            if p == 0 {
                Opcode::LDWRA(WideRegister::BC)
            } else if p == 1 {
                Opcode::LDWRA(WideRegister::DE)
            } else if p == 2 {
                Opcode::LDHLIA
            } else {
                Opcode::LDHLDA
            }
        } else {
            if p == 0 {
                Opcode::LDAWR(WideRegister::BC)
            } else if p == 1 {
                Opcode::LDAWR(WideRegister::DE)
            } else if p == 2 {
                Opcode::LDAHLI
            } else {
                Opcode::LDAHLD
            }
        }
    } else if z == 3 {
        if q == 0 {
            Opcode::INCW(pair_operand(p, false))
        } else {
            Opcode::DECW(pair_operand(p, false))
        }
    } else if z == 4 {
        match operand(y) {
            Some(r) => Opcode::INC(r),
            None => Opcode::INCHL,
        }
    } else if z == 5 {
        match operand(y) {
            Some(r) => Opcode::DEC(r),
            None => Opcode::DECHL,
        }
    } else if z == 6 {
        match operand(y) {
            Some(r) => Opcode::LDRI(r),
            None => Opcode::LDHLI,
        }
    } else {
        if y == 0 {
            Opcode::RLCA
        } else if y == 1 {
            Opcode::RRCA
        } else if y == 2 {
            Opcode::RLA
        } else if y == 3 {
            Opcode::RRA
        } else if y == 4 {
            Opcode::DAA
        } else if y == 5 {
            Opcode::CPL
        } else if y == 6 {
            Opcode::SCF
        } else {
            Opcode::CCF
        }
    }
}

/// The second quarter, 0x40 to 0x7F: the loads between registers and
/// `[HL]`, with HALT where `[HL]` would be loaded into itself.
pub open spec fn second_quarter(y: int, z: int) -> Opcode {
    match (operand(y), operand(z)) {
        (Some(dest), Some(source)) => Opcode::LDRR(dest, source),
        (Some(dest), None) => Opcode::LDRHL(dest),
        (None, Some(source)) => Opcode::LDHLR(source),
        (None, None) => Opcode::HALT,
    }
}

/// The last quarter, 0xC0 to 0xFF. Eleven of its bytes stand for nothing.
pub open spec fn last_quarter(y: int, z: int) -> Option<Opcode> {
    let p = y / 2;
    let q = y % 2;
    if z == 0 {
        if y < 4 {
            if condition(y).1 {
                Some(Opcode::RETCC(condition(y).0))
            } else {
                Some(Opcode::RETNCC(condition(y).0))
            }
        } else if y == 4 {
            Some(Opcode::LDIOA)
        } else if y == 5 {
            Some(Opcode::ADDSP)
        } else if y == 6 {
            Some(Opcode::LDAIO)
        } else {
            Some(Opcode::LDHLSP)
        }
    } else if z == 1 {
        if q == 0 {
            Some(Opcode::POPWR(pair_operand(p, true)))
        } else if p == 0 {
            Some(Opcode::RET)
        } else if p == 1 {
            Some(Opcode::RETI)
        } else if p == 2 {
            Some(Opcode::JPHL)
        } else {
            Some(Opcode::LDSPHL)
        }
    } else if z == 2 {
        if y < 4 {
            if condition(y).1 {
                Some(Opcode::JPCC(condition(y).0))
            } else {
                Some(Opcode::JPNCC(condition(y).0))
            }
        } else if y == 4 {
            Some(Opcode::LDIOCA)
        } else if y == 5 {
            Some(Opcode::LDIWA)
        } else if y == 6 {
            Some(Opcode::LDAIOC)
        } else {
            Some(Opcode::LDAIW)
        }
    } else if z == 3 {
        if y == 0 {
            Some(Opcode::JP)
        } else if y == 1 {
            Some(Opcode::CB)
        } else if y == 6 {
            Some(Opcode::DI)
        } else if y == 7 {
            Some(Opcode::EI)
        } else {
            None
        }
    } else if z == 4 {
        if y < 4 {
            if condition(y).1 {
                Some(Opcode::CALLCC(condition(y).0))
            } else {
                Some(Opcode::CALLNCC(condition(y).0))
            }
        } else {
            None
        }
    } else if z == 5 {
        if q == 0 {
            Some(Opcode::PUSHWR(pair_operand(p, true)))
        } else if p == 0 {
            Some(Opcode::CALL)
        } else {
            None
        }
    } else if z == 6 {
        Some(alu_opcode(y, None))
    } else {
        Some(Opcode::RST((y * 8) as u16))
    }
}

/// The instruction that an opcode byte stands for in the first table, by its
/// fields: bits 7 and 6 select the quarter.
pub open spec fn primary(byte: u8) -> Option<Opcode> {
    let y = (byte as int / 8) % 8;
    let z = byte as int % 8;
    if byte < 0x40 {
        Some(first_quarter(y, z))
    } else if byte < 0x80 {
        Some(second_quarter(y, z))
    } else if byte < 0xC0 {
        Some(alu_opcode(y, Some(operand(z))))
    } else {
        last_quarter(y, z)
    }
}

/// The rotations and shifts of the second table, by their field of three
/// bits.
pub open spec fn shift_opcode(field: int, target: Option<Register>) -> Opcode {
    match target {
        Some(r) => if field == 0 {
            Opcode::RLC(r)
        } else if field == 1 {
            Opcode::RRC(r)
        } else if field == 2 {
            Opcode::RL(r)
        } else if field == 3 {
            Opcode::RR(r)
        } else if field == 4 {
            Opcode::SLA(r)
        } else if field == 5 {
            Opcode::SRA(r)
        } else if field == 6 {
            Opcode::SWAP(r)
        } else {
            Opcode::SRL(r)
        },
        None => if field == 0 {
            Opcode::RLCHL
        } else if field == 1 {
            Opcode::RRCHL
        } else if field == 2 {
            Opcode::RLHL
        } else if field == 3 {
            Opcode::RRHL
        } else if field == 4 {
            Opcode::SLAHL
        } else if field == 5 {
            Opcode::SRAHL
        } else if field == 6 {
            Opcode::SWAPHL
        } else {
            Opcode::SRLHL
        },
    }
}

/// The instruction that a byte stands for after the prefix 0xCB: bits 7 and
/// 6 select among shift, BIT, RES and SET, bits 5 to 3 the shift or the
/// bit, bits 2 to 0 the operand.
pub open spec fn prefixed(byte: u8) -> Opcode {
    let y = (byte as int / 8) % 8;
    let target = operand(byte as int % 8);
    if byte < 0x40 {
        shift_opcode(y, target)
    } else if byte < 0x80 {
        match target {
            Some(r) => Opcode::BIT(y as u8, r),
            None => Opcode::BITHL(y as u8),
        }
    } else if byte < 0xC0 {
        match target {
            Some(r) => Opcode::RES(y as u8, r),
            None => Opcode::RESHL(y as u8),
        }
    } else {
        match target {
            Some(r) => Opcode::SET(y as u8, r),
            None => Opcode::SETHL(y as u8),
        }
    }
}

/// The eleven bytes of the first table that stand for no instruction.
pub open spec fn undefined(byte: u8) -> bool {
    byte == 0xD3 || byte == 0xDB || byte == 0xDD || byte == 0xE3 || byte == 0xE4 || byte == 0xEB
        || byte == 0xEC || byte == 0xED || byte == 0xF4 || byte == 0xFC || byte == 0xFD
}

/// Every byte of the first table but the eleven undefined ones stands for
/// an instruction.
pub proof fn lemma_primary_defined(byte: u8)
    ensures
        primary(byte) is None <==> undefined(byte),
{
}

impl Opcode {
    /// An instruction that names a bit names one of the bits 0 to 7.
    pub open spec fn wf(self) -> bool {
        match self {
            Opcode::BIT(bit, _) => bit < 8,
            Opcode::BITHL(bit) => bit < 8,
            Opcode::RES(bit, _) => bit < 8,
            Opcode::RESHL(bit) => bit < 8,
            Opcode::SET(bit, _) => bit < 8,
            Opcode::SETHL(bit) => bit < 8,
            _ => true,
        }
    }

    /// The instructions of the second table.
    pub open spec fn is_prefixed(self) -> bool {
        match self {
            Opcode::RLC(_) | Opcode::RRC(_) | Opcode::RL(_) | Opcode::RR(_) | Opcode::SLA(_)
            | Opcode::SRA(_) | Opcode::SWAP(_) | Opcode::SRL(_) | Opcode::RLCHL | Opcode::RRCHL
            | Opcode::RLHL | Opcode::RRHL | Opcode::SLAHL | Opcode::SRAHL | Opcode::SWAPHL
            | Opcode::SRLHL | Opcode::BIT(_, _) | Opcode::BITHL(_) | Opcode::RES(_, _)
            | Opcode::RESHL(_) | Opcode::SET(_, _) | Opcode::SETHL(_) => true,
            _ => false,
        }
    }

    /// Looks an opcode byte up in the first table.
    pub fn decode(byte: u8) -> (r: Option<Opcode>)
        ensures
            r == primary(byte),
            r is None <==> undefined(byte),
            r is Some ==> r->0.wf() && !r->0.is_prefixed(),
    {
        proof {
            lemma_primary_defined(byte);
        }
        match byte {
            0x00 => Some(Opcode::NOP),
            0x01 => Some(Opcode::LDWRI(WideRegister::BC)),
            0x02 => Some(Opcode::LDWRA(WideRegister::BC)),
            0x03 => Some(Opcode::INCW(WideRegister::BC)),
            0x04 => Some(Opcode::INC(Register::B)),
            0x05 => Some(Opcode::DEC(Register::B)),
            0x06 => Some(Opcode::LDRI(Register::B)),
            0x07 => Some(Opcode::RLCA),
            0x08 => Some(Opcode::LDISP),
            0x09 => Some(Opcode::ADDHLR(WideRegister::BC)),
            0x0A => Some(Opcode::LDAWR(WideRegister::BC)),
            0x0B => Some(Opcode::DECW(WideRegister::BC)),
            0x0C => Some(Opcode::INC(Register::C)),
            0x0D => Some(Opcode::DEC(Register::C)),
            0x0E => Some(Opcode::LDRI(Register::C)),
            0x0F => Some(Opcode::RRCA),
            0x10 => Some(Opcode::STOP),
            0x11 => Some(Opcode::LDWRI(WideRegister::DE)),
            0x12 => Some(Opcode::LDWRA(WideRegister::DE)),
            0x13 => Some(Opcode::INCW(WideRegister::DE)),
            0x14 => Some(Opcode::INC(Register::D)),
            0x15 => Some(Opcode::DEC(Register::D)),
            0x16 => Some(Opcode::LDRI(Register::D)),
            0x17 => Some(Opcode::RLA),
            0x18 => Some(Opcode::JR),
            0x19 => Some(Opcode::ADDHLR(WideRegister::DE)),
            0x1A => Some(Opcode::LDAWR(WideRegister::DE)),
            0x1B => Some(Opcode::DECW(WideRegister::DE)),
            0x1C => Some(Opcode::INC(Register::E)),
            0x1D => Some(Opcode::DEC(Register::E)),
            0x1E => Some(Opcode::LDRI(Register::E)),
            0x1F => Some(Opcode::RRA),
            0x20 => Some(Opcode::JRNCC(Flag::Z)),
            0x21 => Some(Opcode::LDWRI(WideRegister::HL)),
            0x22 => Some(Opcode::LDHLIA),
            0x23 => Some(Opcode::INCW(WideRegister::HL)),
            0x24 => Some(Opcode::INC(Register::H)),
            0x25 => Some(Opcode::DEC(Register::H)),
            0x26 => Some(Opcode::LDRI(Register::H)),
            0x27 => Some(Opcode::DAA),
            0x28 => Some(Opcode::JRCC(Flag::Z)),
            0x29 => Some(Opcode::ADDHLR(WideRegister::HL)),
            0x2A => Some(Opcode::LDAHLI),
            0x2B => Some(Opcode::DECW(WideRegister::HL)),
            0x2C => Some(Opcode::INC(Register::L)),
            0x2D => Some(Opcode::DEC(Register::L)),
            0x2E => Some(Opcode::LDRI(Register::L)),
            0x2F => Some(Opcode::CPL),
            0x30 => Some(Opcode::JRNCC(Flag::C)),
            0x31 => Some(Opcode::LDWRI(WideRegister::SP)),
            0x32 => Some(Opcode::LDHLDA),
            0x33 => Some(Opcode::INCW(WideRegister::SP)),
            0x34 => Some(Opcode::INCHL),
            0x35 => Some(Opcode::DECHL),
            0x36 => Some(Opcode::LDHLI),
            0x37 => Some(Opcode::SCF),
            0x38 => Some(Opcode::JRCC(Flag::C)),
            0x39 => Some(Opcode::ADDHLR(WideRegister::SP)),
            0x3A => Some(Opcode::LDAHLD),
            0x3B => Some(Opcode::DECW(WideRegister::SP)),
            0x3C => Some(Opcode::INC(Register::A)),
            0x3D => Some(Opcode::DEC(Register::A)),
            0x3E => Some(Opcode::LDRI(Register::A)),
            0x3F => Some(Opcode::CCF),
            0x40 => Some(Opcode::LDRR(Register::B, Register::B)),
            0x41 => Some(Opcode::LDRR(Register::B, Register::C)),
            0x42 => Some(Opcode::LDRR(Register::B, Register::D)),
            0x43 => Some(Opcode::LDRR(Register::B, Register::E)),
            0x44 => Some(Opcode::LDRR(Register::B, Register::H)),
            0x45 => Some(Opcode::LDRR(Register::B, Register::L)),
            0x46 => Some(Opcode::LDRHL(Register::B)),
            0x47 => Some(Opcode::LDRR(Register::B, Register::A)),
            0x48 => Some(Opcode::LDRR(Register::C, Register::B)),
            0x49 => Some(Opcode::LDRR(Register::C, Register::C)),
            0x4A => Some(Opcode::LDRR(Register::C, Register::D)),
            0x4B => Some(Opcode::LDRR(Register::C, Register::E)),
            0x4C => Some(Opcode::LDRR(Register::C, Register::H)),
            0x4D => Some(Opcode::LDRR(Register::C, Register::L)),
            0x4E => Some(Opcode::LDRHL(Register::C)),
            0x4F => Some(Opcode::LDRR(Register::C, Register::A)),
            0x50 => Some(Opcode::LDRR(Register::D, Register::B)),
            0x51 => Some(Opcode::LDRR(Register::D, Register::C)),
            0x52 => Some(Opcode::LDRR(Register::D, Register::D)),
            0x53 => Some(Opcode::LDRR(Register::D, Register::E)),
            0x54 => Some(Opcode::LDRR(Register::D, Register::H)),
            0x55 => Some(Opcode::LDRR(Register::D, Register::L)),
            0x56 => Some(Opcode::LDRHL(Register::D)),
            0x57 => Some(Opcode::LDRR(Register::D, Register::A)),
            0x58 => Some(Opcode::LDRR(Register::E, Register::B)),
            0x59 => Some(Opcode::LDRR(Register::E, Register::C)),
            0x5A => Some(Opcode::LDRR(Register::E, Register::D)),
            0x5B => Some(Opcode::LDRR(Register::E, Register::E)),
            0x5C => Some(Opcode::LDRR(Register::E, Register::H)),
            0x5D => Some(Opcode::LDRR(Register::E, Register::L)),
            0x5E => Some(Opcode::LDRHL(Register::E)),
            0x5F => Some(Opcode::LDRR(Register::E, Register::A)),
            0x60 => Some(Opcode::LDRR(Register::H, Register::B)),
            0x61 => Some(Opcode::LDRR(Register::H, Register::C)),
            0x62 => Some(Opcode::LDRR(Register::H, Register::D)),
            0x63 => Some(Opcode::LDRR(Register::H, Register::E)),
            0x64 => Some(Opcode::LDRR(Register::H, Register::H)),
            0x65 => Some(Opcode::LDRR(Register::H, Register::L)),
            0x66 => Some(Opcode::LDRHL(Register::H)),
            0x67 => Some(Opcode::LDRR(Register::H, Register::A)),
            0x68 => Some(Opcode::LDRR(Register::L, Register::B)),
            0x69 => Some(Opcode::LDRR(Register::L, Register::C)),
            0x6A => Some(Opcode::LDRR(Register::L, Register::D)),
            0x6B => Some(Opcode::LDRR(Register::L, Register::E)),
            0x6C => Some(Opcode::LDRR(Register::L, Register::H)),
            0x6D => Some(Opcode::LDRR(Register::L, Register::L)),
            0x6E => Some(Opcode::LDRHL(Register::L)),
            0x6F => Some(Opcode::LDRR(Register::L, Register::A)),
            0x70 => Some(Opcode::LDHLR(Register::B)),
            0x71 => Some(Opcode::LDHLR(Register::C)),
            0x72 => Some(Opcode::LDHLR(Register::D)),
            0x73 => Some(Opcode::LDHLR(Register::E)),
            0x74 => Some(Opcode::LDHLR(Register::H)),
            0x75 => Some(Opcode::LDHLR(Register::L)),
            0x76 => Some(Opcode::HALT),
            0x77 => Some(Opcode::LDHLR(Register::A)),
            0x78 => Some(Opcode::LDRR(Register::A, Register::B)),
            0x79 => Some(Opcode::LDRR(Register::A, Register::C)),
            0x7A => Some(Opcode::LDRR(Register::A, Register::D)),
            0x7B => Some(Opcode::LDRR(Register::A, Register::E)),
            0x7C => Some(Opcode::LDRR(Register::A, Register::H)),
            0x7D => Some(Opcode::LDRR(Register::A, Register::L)),
            0x7E => Some(Opcode::LDRHL(Register::A)),
            0x7F => Some(Opcode::LDRR(Register::A, Register::A)),
            0x80 => Some(Opcode::ADD(Register::B)),
            0x81 => Some(Opcode::ADD(Register::C)),
            0x82 => Some(Opcode::ADD(Register::D)),
            0x83 => Some(Opcode::ADD(Register::E)),
            0x84 => Some(Opcode::ADD(Register::H)),
            0x85 => Some(Opcode::ADD(Register::L)),
            0x86 => Some(Opcode::ADDHL),
            0x87 => Some(Opcode::ADD(Register::A)),
            0x88 => Some(Opcode::ADC(Register::B)),
            0x89 => Some(Opcode::ADC(Register::C)),
            0x8A => Some(Opcode::ADC(Register::D)),
            0x8B => Some(Opcode::ADC(Register::E)),
            0x8C => Some(Opcode::ADC(Register::H)),
            0x8D => Some(Opcode::ADC(Register::L)),
            0x8E => Some(Opcode::ADCHL),
            0x8F => Some(Opcode::ADC(Register::A)),
            0x90 => Some(Opcode::SUB(Register::B)),
            0x91 => Some(Opcode::SUB(Register::C)),
            0x92 => Some(Opcode::SUB(Register::D)),
            0x93 => Some(Opcode::SUB(Register::E)),
            0x94 => Some(Opcode::SUB(Register::H)),
            0x95 => Some(Opcode::SUB(Register::L)),
            0x96 => Some(Opcode::SUBHL),
            0x97 => Some(Opcode::SUB(Register::A)),
            0x98 => Some(Opcode::SBC(Register::B)),
            0x99 => Some(Opcode::SBC(Register::C)),
            0x9A => Some(Opcode::SBC(Register::D)),
            0x9B => Some(Opcode::SBC(Register::E)),
            0x9C => Some(Opcode::SBC(Register::H)),
            0x9D => Some(Opcode::SBC(Register::L)),
            0x9E => Some(Opcode::SBCHL),
            0x9F => Some(Opcode::SBC(Register::A)),
            0xA0 => Some(Opcode::AND(Register::B)),
            0xA1 => Some(Opcode::AND(Register::C)),
            0xA2 => Some(Opcode::AND(Register::D)),
            0xA3 => Some(Opcode::AND(Register::E)),
            0xA4 => Some(Opcode::AND(Register::H)),
            0xA5 => Some(Opcode::AND(Register::L)),
            0xA6 => Some(Opcode::ANDHL),
            0xA7 => Some(Opcode::AND(Register::A)),
            0xA8 => Some(Opcode::XOR(Register::B)),
            0xA9 => Some(Opcode::XOR(Register::C)),
            0xAA => Some(Opcode::XOR(Register::D)),
            0xAB => Some(Opcode::XOR(Register::E)),
            0xAC => Some(Opcode::XOR(Register::H)),
            0xAD => Some(Opcode::XOR(Register::L)),
            0xAE => Some(Opcode::XORHL),
            0xAF => Some(Opcode::XOR(Register::A)),
            0xB0 => Some(Opcode::OR(Register::B)),
            0xB1 => Some(Opcode::OR(Register::C)),
            0xB2 => Some(Opcode::OR(Register::D)),
            0xB3 => Some(Opcode::OR(Register::E)),
            0xB4 => Some(Opcode::OR(Register::H)),
            0xB5 => Some(Opcode::OR(Register::L)),
            0xB6 => Some(Opcode::ORHL),
            0xB7 => Some(Opcode::OR(Register::A)),
            0xB8 => Some(Opcode::CP(Register::B)),
            0xB9 => Some(Opcode::CP(Register::C)),
            0xBA => Some(Opcode::CP(Register::D)),
            0xBB => Some(Opcode::CP(Register::E)),
            0xBC => Some(Opcode::CP(Register::H)),
            0xBD => Some(Opcode::CP(Register::L)),
            0xBE => Some(Opcode::CPHL),
            0xBF => Some(Opcode::CP(Register::A)),
            0xC0 => Some(Opcode::RETNCC(Flag::Z)),
            0xC1 => Some(Opcode::POPWR(WideRegister::BC)),
            0xC2 => Some(Opcode::JPNCC(Flag::Z)),
            0xC3 => Some(Opcode::JP),
            0xC4 => Some(Opcode::CALLNCC(Flag::Z)),
            0xC5 => Some(Opcode::PUSHWR(WideRegister::BC)),
            0xC6 => Some(Opcode::ADDI),
            0xC7 => Some(Opcode::RST(0x00)),
            0xC8 => Some(Opcode::RETCC(Flag::Z)),
            0xC9 => Some(Opcode::RET),
            0xCA => Some(Opcode::JPCC(Flag::Z)),
            0xCB => Some(Opcode::CB),
            0xCC => Some(Opcode::CALLCC(Flag::Z)),
            0xCD => Some(Opcode::CALL),
            0xCE => Some(Opcode::ADCI),
            0xCF => Some(Opcode::RST(0x08)),
            0xD0 => Some(Opcode::RETNCC(Flag::C)),
            0xD1 => Some(Opcode::POPWR(WideRegister::DE)),
            0xD2 => Some(Opcode::JPNCC(Flag::C)),
            0xD4 => Some(Opcode::CALLNCC(Flag::C)),
            0xD5 => Some(Opcode::PUSHWR(WideRegister::DE)),
            0xD6 => Some(Opcode::SUBI),
            0xD7 => Some(Opcode::RST(0x10)),
            0xD8 => Some(Opcode::RETCC(Flag::C)),
            0xD9 => Some(Opcode::RETI),
            0xDA => Some(Opcode::JPCC(Flag::C)),
            0xDC => Some(Opcode::CALLCC(Flag::C)),
            0xDE => Some(Opcode::SBCI),
            0xDF => Some(Opcode::RST(0x18)),
            0xE0 => Some(Opcode::LDIOA),
            0xE1 => Some(Opcode::POPWR(WideRegister::HL)),
            0xE2 => Some(Opcode::LDIOCA),
            0xE5 => Some(Opcode::PUSHWR(WideRegister::HL)),
            0xE6 => Some(Opcode::ANDI),
            0xE7 => Some(Opcode::RST(0x20)),
            0xE8 => Some(Opcode::ADDSP),
            0xE9 => Some(Opcode::JPHL),
            0xEA => Some(Opcode::LDIWA),
            0xEE => Some(Opcode::XORI),
            0xEF => Some(Opcode::RST(0x28)),
            0xF0 => Some(Opcode::LDAIO),
            0xF1 => Some(Opcode::POPWR(WideRegister::AF)),
            0xF2 => Some(Opcode::LDAIOC),
            0xF3 => Some(Opcode::DI),
            0xF5 => Some(Opcode::PUSHWR(WideRegister::AF)),
            0xF6 => Some(Opcode::ORI),
            0xF7 => Some(Opcode::RST(0x30)),
            0xF8 => Some(Opcode::LDHLSP),
            0xF9 => Some(Opcode::LDSPHL),
            0xFA => Some(Opcode::LDAIW),
            0xFB => Some(Opcode::EI),
            0xFE => Some(Opcode::CPI),
            0xFF => Some(Opcode::RST(0x38)),
            _ => None,
        }
    }

    /// Looks a byte up in the second table, the one behind the prefix 0xCB.
    pub fn decode_prefixed(byte: u8) -> (r: Opcode)
        ensures
            r == prefixed(byte),
            r.wf(),
            r.is_prefixed(),
    {
        match byte {
            0x00 => Opcode::RLC(Register::B),
            0x01 => Opcode::RLC(Register::C),
            0x02 => Opcode::RLC(Register::D),
            0x03 => Opcode::RLC(Register::E),
            0x04 => Opcode::RLC(Register::H),
            0x05 => Opcode::RLC(Register::L),
            0x06 => Opcode::RLCHL,
            0x07 => Opcode::RLC(Register::A),
            0x08 => Opcode::RRC(Register::B),
            0x09 => Opcode::RRC(Register::C),
            0x0A => Opcode::RRC(Register::D),
            0x0B => Opcode::RRC(Register::E),
            0x0C => Opcode::RRC(Register::H),
            0x0D => Opcode::RRC(Register::L),
            0x0E => Opcode::RRCHL,
            0x0F => Opcode::RRC(Register::A),
            0x10 => Opcode::RL(Register::B),
            0x11 => Opcode::RL(Register::C),
            0x12 => Opcode::RL(Register::D),
            0x13 => Opcode::RL(Register::E),
            0x14 => Opcode::RL(Register::H),
            0x15 => Opcode::RL(Register::L),
            0x16 => Opcode::RLHL,
            0x17 => Opcode::RL(Register::A),
            0x18 => Opcode::RR(Register::B),
            0x19 => Opcode::RR(Register::C),
            0x1A => Opcode::RR(Register::D),
            0x1B => Opcode::RR(Register::E),
            0x1C => Opcode::RR(Register::H),
            0x1D => Opcode::RR(Register::L),
            0x1E => Opcode::RRHL,
            0x1F => Opcode::RR(Register::A),
            0x20 => Opcode::SLA(Register::B),
            0x21 => Opcode::SLA(Register::C),
            0x22 => Opcode::SLA(Register::D),
            0x23 => Opcode::SLA(Register::E),
            0x24 => Opcode::SLA(Register::H),
            0x25 => Opcode::SLA(Register::L),
            0x26 => Opcode::SLAHL,
            0x27 => Opcode::SLA(Register::A),
            0x28 => Opcode::SRA(Register::B),
            0x29 => Opcode::SRA(Register::C),
            0x2A => Opcode::SRA(Register::D),
            0x2B => Opcode::SRA(Register::E),
            0x2C => Opcode::SRA(Register::H),
            0x2D => Opcode::SRA(Register::L),
            0x2E => Opcode::SRAHL,
            0x2F => Opcode::SRA(Register::A),
            0x30 => Opcode::SWAP(Register::B),
            0x31 => Opcode::SWAP(Register::C),
            0x32 => Opcode::SWAP(Register::D),
            0x33 => Opcode::SWAP(Register::E),
            0x34 => Opcode::SWAP(Register::H),
            0x35 => Opcode::SWAP(Register::L),
            0x36 => Opcode::SWAPHL,
            0x37 => Opcode::SWAP(Register::A),
            0x38 => Opcode::SRL(Register::B),
            0x39 => Opcode::SRL(Register::C),
            0x3A => Opcode::SRL(Register::D),
            0x3B => Opcode::SRL(Register::E),
            0x3C => Opcode::SRL(Register::H),
            0x3D => Opcode::SRL(Register::L),
            0x3E => Opcode::SRLHL,
            0x3F => Opcode::SRL(Register::A),
            0x40 => Opcode::BIT(0, Register::B),
            0x41 => Opcode::BIT(0, Register::C),
            0x42 => Opcode::BIT(0, Register::D),
            0x43 => Opcode::BIT(0, Register::E),
            0x44 => Opcode::BIT(0, Register::H),
            0x45 => Opcode::BIT(0, Register::L),
            0x46 => Opcode::BITHL(0),
            0x47 => Opcode::BIT(0, Register::A),
            0x48 => Opcode::BIT(1, Register::B),
            0x49 => Opcode::BIT(1, Register::C),
            0x4A => Opcode::BIT(1, Register::D),
            0x4B => Opcode::BIT(1, Register::E),
            0x4C => Opcode::BIT(1, Register::H),
            0x4D => Opcode::BIT(1, Register::L),
            0x4E => Opcode::BITHL(1),
            0x4F => Opcode::BIT(1, Register::A),
            0x50 => Opcode::BIT(2, Register::B),
            0x51 => Opcode::BIT(2, Register::C),
            0x52 => Opcode::BIT(2, Register::D),
            0x53 => Opcode::BIT(2, Register::E),
            0x54 => Opcode::BIT(2, Register::H),
            0x55 => Opcode::BIT(2, Register::L),
            0x56 => Opcode::BITHL(2),
            0x57 => Opcode::BIT(2, Register::A),
            0x58 => Opcode::BIT(3, Register::B),
            0x59 => Opcode::BIT(3, Register::C),
            0x5A => Opcode::BIT(3, Register::D),
            0x5B => Opcode::BIT(3, Register::E),
            0x5C => Opcode::BIT(3, Register::H),
            0x5D => Opcode::BIT(3, Register::L),
            0x5E => Opcode::BITHL(3),
            0x5F => Opcode::BIT(3, Register::A),
            0x60 => Opcode::BIT(4, Register::B),
            0x61 => Opcode::BIT(4, Register::C),
            0x62 => Opcode::BIT(4, Register::D),
            0x63 => Opcode::BIT(4, Register::E),
            0x64 => Opcode::BIT(4, Register::H),
            0x65 => Opcode::BIT(4, Register::L),
            0x66 => Opcode::BITHL(4),
            0x67 => Opcode::BIT(4, Register::A),
            0x68 => Opcode::BIT(5, Register::B),
            0x69 => Opcode::BIT(5, Register::C),
            0x6A => Opcode::BIT(5, Register::D),
            0x6B => Opcode::BIT(5, Register::E),
            0x6C => Opcode::BIT(5, Register::H),
            0x6D => Opcode::BIT(5, Register::L),
            0x6E => Opcode::BITHL(5),
            0x6F => Opcode::BIT(5, Register::A),
            0x70 => Opcode::BIT(6, Register::B),
            0x71 => Opcode::BIT(6, Register::C),
            0x72 => Opcode::BIT(6, Register::D),
            0x73 => Opcode::BIT(6, Register::E),
            0x74 => Opcode::BIT(6, Register::H),
            0x75 => Opcode::BIT(6, Register::L),
            0x76 => Opcode::BITHL(6),
            0x77 => Opcode::BIT(6, Register::A),
            0x78 => Opcode::BIT(7, Register::B),
            0x79 => Opcode::BIT(7, Register::C),
            0x7A => Opcode::BIT(7, Register::D),
            0x7B => Opcode::BIT(7, Register::E),
            0x7C => Opcode::BIT(7, Register::H),
            0x7D => Opcode::BIT(7, Register::L),
            0x7E => Opcode::BITHL(7),
            0x7F => Opcode::BIT(7, Register::A),
            0x80 => Opcode::RES(0, Register::B),
            0x81 => Opcode::RES(0, Register::C),
            0x82 => Opcode::RES(0, Register::D),
            0x83 => Opcode::RES(0, Register::E),
            0x84 => Opcode::RES(0, Register::H),
            0x85 => Opcode::RES(0, Register::L),
            0x86 => Opcode::RESHL(0),
            0x87 => Opcode::RES(0, Register::A),
            0x88 => Opcode::RES(1, Register::B),
            0x89 => Opcode::RES(1, Register::C),
            0x8A => Opcode::RES(1, Register::D),
            0x8B => Opcode::RES(1, Register::E),
            0x8C => Opcode::RES(1, Register::H),
            0x8D => Opcode::RES(1, Register::L),
            0x8E => Opcode::RESHL(1),
            0x8F => Opcode::RES(1, Register::A),
            0x90 => Opcode::RES(2, Register::B),
            0x91 => Opcode::RES(2, Register::C),
            0x92 => Opcode::RES(2, Register::D),
            0x93 => Opcode::RES(2, Register::E),
            0x94 => Opcode::RES(2, Register::H),
            0x95 => Opcode::RES(2, Register::L),
            0x96 => Opcode::RESHL(2),
            0x97 => Opcode::RES(2, Register::A),
            0x98 => Opcode::RES(3, Register::B),
            0x99 => Opcode::RES(3, Register::C),
            0x9A => Opcode::RES(3, Register::D),
            0x9B => Opcode::RES(3, Register::E),
            0x9C => Opcode::RES(3, Register::H),
            0x9D => Opcode::RES(3, Register::L),
            0x9E => Opcode::RESHL(3),
            0x9F => Opcode::RES(3, Register::A),
            0xA0 => Opcode::RES(4, Register::B),
            0xA1 => Opcode::RES(4, Register::C),
            0xA2 => Opcode::RES(4, Register::D),
            0xA3 => Opcode::RES(4, Register::E),
            0xA4 => Opcode::RES(4, Register::H),
            0xA5 => Opcode::RES(4, Register::L),
            0xA6 => Opcode::RESHL(4),
            0xA7 => Opcode::RES(4, Register::A),
            0xA8 => Opcode::RES(5, Register::B),
            0xA9 => Opcode::RES(5, Register::C),
            0xAA => Opcode::RES(5, Register::D),
            0xAB => Opcode::RES(5, Register::E),
            0xAC => Opcode::RES(5, Register::H),
            0xAD => Opcode::RES(5, Register::L),
            0xAE => Opcode::RESHL(5),
            0xAF => Opcode::RES(5, Register::A),
            0xB0 => Opcode::RES(6, Register::B),
            0xB1 => Opcode::RES(6, Register::C),
            0xB2 => Opcode::RES(6, Register::D),
            0xB3 => Opcode::RES(6, Register::E),
            0xB4 => Opcode::RES(6, Register::H),
            0xB5 => Opcode::RES(6, Register::L),
            0xB6 => Opcode::RESHL(6),
            0xB7 => Opcode::RES(6, Register::A),
            0xB8 => Opcode::RES(7, Register::B),
            0xB9 => Opcode::RES(7, Register::C),
            0xBA => Opcode::RES(7, Register::D),
            0xBB => Opcode::RES(7, Register::E),
            0xBC => Opcode::RES(7, Register::H),
            0xBD => Opcode::RES(7, Register::L),
            0xBE => Opcode::RESHL(7),
            0xBF => Opcode::RES(7, Register::A),
            0xC0 => Opcode::SET(0, Register::B),
            0xC1 => Opcode::SET(0, Register::C),
            0xC2 => Opcode::SET(0, Register::D),
            0xC3 => Opcode::SET(0, Register::E),
            0xC4 => Opcode::SET(0, Register::H),
            0xC5 => Opcode::SET(0, Register::L),
            0xC6 => Opcode::SETHL(0),
            0xC7 => Opcode::SET(0, Register::A),
            0xC8 => Opcode::SET(1, Register::B),
            0xC9 => Opcode::SET(1, Register::C),
            0xCA => Opcode::SET(1, Register::D),
            0xCB => Opcode::SET(1, Register::E),
            0xCC => Opcode::SET(1, Register::H),
            0xCD => Opcode::SET(1, Register::L),
            0xCE => Opcode::SETHL(1),
            0xCF => Opcode::SET(1, Register::A),
            0xD0 => Opcode::SET(2, Register::B),
            0xD1 => Opcode::SET(2, Register::C),
            0xD2 => Opcode::SET(2, Register::D),
            0xD3 => Opcode::SET(2, Register::E),
            0xD4 => Opcode::SET(2, Register::H),
            0xD5 => Opcode::SET(2, Register::L),
            0xD6 => Opcode::SETHL(2),
            0xD7 => Opcode::SET(2, Register::A),
            0xD8 => Opcode::SET(3, Register::B),
            0xD9 => Opcode::SET(3, Register::C),
            0xDA => Opcode::SET(3, Register::D),
            0xDB => Opcode::SET(3, Register::E),
            0xDC => Opcode::SET(3, Register::H),
            0xDD => Opcode::SET(3, Register::L),
            0xDE => Opcode::SETHL(3),
            0xDF => Opcode::SET(3, Register::A),
            0xE0 => Opcode::SET(4, Register::B),
            0xE1 => Opcode::SET(4, Register::C),
            0xE2 => Opcode::SET(4, Register::D),
            0xE3 => Opcode::SET(4, Register::E),
            0xE4 => Opcode::SET(4, Register::H),
            0xE5 => Opcode::SET(4, Register::L),
            0xE6 => Opcode::SETHL(4),
            0xE7 => Opcode::SET(4, Register::A),
            0xE8 => Opcode::SET(5, Register::B),
            0xE9 => Opcode::SET(5, Register::C),
            0xEA => Opcode::SET(5, Register::D),
            0xEB => Opcode::SET(5, Register::E),
            0xEC => Opcode::SET(5, Register::H),
            0xED => Opcode::SET(5, Register::L),
            0xEE => Opcode::SETHL(5),
            0xEF => Opcode::SET(5, Register::A),
            0xF0 => Opcode::SET(6, Register::B),
            0xF1 => Opcode::SET(6, Register::C),
            0xF2 => Opcode::SET(6, Register::D),
            0xF3 => Opcode::SET(6, Register::E),
            0xF4 => Opcode::SET(6, Register::H),
            0xF5 => Opcode::SET(6, Register::L),
            0xF6 => Opcode::SETHL(6),
            0xF7 => Opcode::SET(6, Register::A),
            0xF8 => Opcode::SET(7, Register::B),
            0xF9 => Opcode::SET(7, Register::C),
            0xFA => Opcode::SET(7, Register::D),
            0xFB => Opcode::SET(7, Register::E),
            0xFC => Opcode::SET(7, Register::H),
            0xFD => Opcode::SET(7, Register::L),
            0xFE => Opcode::SETHL(7),
            _ => Opcode::SET(7, Register::A),
        }
    }
}

} // verus!
