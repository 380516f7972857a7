//! What each instruction does to the machine, and the executor that does it.

use crate::alu::{
    add16, add8, add_signed, and8, bit_test, complement, daa8, dec16, dec8, inc16, inc8, offset16,
    or8, res_bit, rl8, rlc8, rr8, rrc8, set_bit, sla8, sra8, srl8, sub8, swap8, xor8,
};
use crate::bits::lemma_shift_byte;
use crate::cpu::{Cpu, CpuFlags, CpuRegisters, Flag, Register, WideRegister};
use crate::gameboy::{lemma_processor_work, Gameboy, GameboyView};
use crate::opcodes::{prefixed, Opcode};
use vstd::prelude::*;

verus! {

/// Where an instruction takes a byte from.
pub enum Source {
    Register(Register),
    /// The byte at the address in HL.
    AtHL,
    /// The byte that follows the opcode.
    Immediate,
}

/// The eight operations between A and a byte.
pub enum AluOp {
    Add,
    Adc,
    Sub,
    Sbc,
    And,
    Xor,
    Or,
    Cp,
}

/// The eight rotations and shifts.
pub enum ShiftOp {
    Rlc,
    Rrc,
    Rl,
    Rr,
    Sla,
    Sra,
    Swap,
    Srl,
}

/// What an operation between A and a byte leaves in A and in the flags. A
/// comparison is a subtraction that leaves A alone.
pub open spec fn alu_result(op: AluOp, a: u8, v: u8, flags: CpuFlags) -> (u8, CpuFlags) {
    match op {
        AluOp::Add => add8(a, v, false),
        AluOp::Adc => add8(a, v, flags.c),
        AluOp::Sub => sub8(a, v, false),
        AluOp::Sbc => sub8(a, v, flags.c),
        AluOp::And => and8(a, v),
        AluOp::Xor => xor8(a, v),
        AluOp::Or => or8(a, v),
        AluOp::Cp => (a, sub8(a, v, false).1),
    }
}

/// What a rotation or shift makes of a byte and the flags.
pub open spec fn shift_result(op: ShiftOp, v: u8, flags: CpuFlags) -> (u8, CpuFlags) {
    match op {
        ShiftOp::Rlc => rlc8(v),
        ShiftOp::Rrc => rrc8(v),
        ShiftOp::Rl => rl8(v, flags),
        ShiftOp::Rr => rr8(v, flags),
        ShiftOp::Sla => sla8(v),
        ShiftOp::Sra => sra8(v),
        ShiftOp::Swap => swap8(v),
        ShiftOp::Srl => srl8(v),
    }
}

impl GameboyView {
    /// The pair HL.
    pub open spec fn hl(self) -> u16 {
        self.cpu.registers.spec_hl()
    }

    /// The flags.
    pub open spec fn flags(self) -> CpuFlags {
        self.cpu.registers.flags
    }

    /// The machine with other flags.
    pub open spec fn with_flags(self, flags: CpuFlags) -> GameboyView {
        self.with_cpu(Cpu { registers: CpuRegisters { flags, ..self.cpu.registers }, ..self.cpu })
    }

    /// The machine with another value in A.
    pub open spec fn with_a(self, a: u8) -> GameboyView {
        self.with_cpu(Cpu { registers: CpuRegisters { a, ..self.cpu.registers }, ..self.cpu })
    }

    /// The machine with an 8-bit register replaced.
    pub open spec fn with_reg(self, register: Register, val: u8) -> GameboyView {
        self.with_cpu(self.cpu.with_reg(register, val))
    }

    /// The machine with a 16-bit register replaced.
    pub open spec fn with_wide(self, register: WideRegister, val: u16) -> GameboyView {
        self.with_cpu(self.cpu.with_wide(register, val))
    }

    /// The machine with another PC.
    pub open spec fn with_pc(self, pc: u16) -> GameboyView {
        self.with_cpu(Cpu { pc, ..self.cpu })
    }

    /// The byte that a source gives, the machine after it was taken, and the
    /// machine cycles that taking it costs.
    pub open spec fn operand(self, source: Source) -> (u8, GameboyView, u8) {
        match source {
            Source::Register(r) => (self.cpu.reg(r), self, 0),
            Source::AtHL => (self.read(self.hl()), self, 1),
            Source::Immediate => (self.fetch().0, self.fetch().1, 1),
        }
    }

    /// An operation between A and a byte: A and the flags take its result.
    pub open spec fn alu(self, op: AluOp, source: Source) -> (GameboyView, u8) {
        let (v, s, extra) = self.operand(source);
        let (a, flags) = alu_result(op, s.cpu.registers.a, v, s.flags());
        (s.with_a(a).with_flags(flags), (1 + extra) as u8)
    }

    /// The byte in a register, or at the address in HL for `None`.
    pub open spec fn target_value(self, target: Option<Register>) -> u8 {
        match target {
            Some(r) => self.cpu.reg(r),
            None => self.read(self.hl()),
        }
    }

    /// The machine after a byte was put into a register, or written at the
    /// address in HL for `None`.
    pub open spec fn store_target(self, target: Option<Register>, val: u8) -> GameboyView {
        match target {
            Some(r) => self.with_reg(r, val),
            None => self.write(self.hl(), val),
        }
    }

    /// A register or the byte at HL replaced by what an operation made of
    /// it; the flags are set before the byte is stored.
    pub open spec fn modify(self, target: Option<Register>, result: (u8, CpuFlags)) -> GameboyView {
        self.with_flags(result.1).store_target(target, result.0)
    }

    /// A rotation or shift of a register or of the byte at HL.
    pub open spec fn shift(self, op: ShiftOp, target: Option<Register>) -> (GameboyView, u8) {
        (
            self.modify(target, shift_result(op, self.target_value(target), self.flags())),
            if target is Some {
                2
            } else {
                4
            },
        )
    }

    /// A rotation of A by a one-byte instruction: as the rotation of a
    /// register, but Z is cleared.
    pub open spec fn shift_a(self, op: ShiftOp) -> (GameboyView, u8) {
        let (a, flags) = shift_result(op, self.cpu.registers.a, self.flags());
        (self.with_a(a).with_flags(CpuFlags { z: false, ..flags }), 1)
    }

    /// Whether a branch is taken: always without a condition, else when the
    /// flag has the wanted value.
    pub open spec fn takes(self, condition: Option<(Flag, bool)>) -> bool {
        match condition {
            None => true,
            Some((flag, wanted)) => self.flags().get(flag) == wanted,
        }
    }

    /// A jump by a signed displacement, counted from behind the
    /// displacement byte.
    pub open spec fn jump_relative(self, condition: Option<(Flag, bool)>) -> (GameboyView, u8) {
        let (e, s) = self.fetch();
        if s.takes(condition) {
            (s.with_pc(offset16(s.cpu.pc, e)), 3)
        } else {
            (s, 2)
        }
    }

    /// A jump to the immediate address. The address is consumed whether the
    /// jump is taken or not.
    pub open spec fn jump(self, condition: Option<(Flag, bool)>) -> (GameboyView, u8) {
        let (target, s) = self.fetch_word();
        if s.takes(condition) {
            (s.with_pc(target), 4)
        } else {
            (s, 3)
        }
    }

    /// A call of the immediate address: the address behind the instruction
    /// is pushed.
    pub open spec fn call(self, condition: Option<(Flag, bool)>) -> (GameboyView, u8) {
        let (target, s) = self.fetch_word();
        if s.takes(condition) {
            (s.push_word(s.cpu.pc).with_pc(target), 6)
        } else {
            (s, 3)
        }
    }

    /// A return: PC is popped.
    pub open spec fn ret(self, condition: Option<(Flag, bool)>) -> (GameboyView, u8) {
        if self.takes(condition) {
            let (target, s) = self.pop_word();
            (
                s.with_pc(target),
                if condition is None {
                    4
                } else {
                    5
                },
            )
        } else {
            (self, 2)
        }
    }

    /// A call of a fixed address: PC is pushed.
    pub open spec fn restart(self, vector: u16) -> GameboyView {
        self.push_word(self.cpu.pc).with_pc(vector)
    }

    /// The arithmetic on the wide registers, the increments and decrements,
    /// and the instructions that adjust A or the flags alone. Any other
    /// instruction does nothing here and takes one machine cycle.
    pub open spec fn step_arith(self, opcode: Opcode) -> (GameboyView, u8) {
        let a = self.cpu.registers.a;
        let f = self.flags();
        match opcode {
            Opcode::ADDHLR(w) => {
                let (res, flags) = add16(self.hl(), self.cpu.wide(w), f);
                (self.with_flags(flags).with_wide(WideRegister::HL, res), 2)
            },
            Opcode::ADDSP => {
                let (e, s) = self.fetch();
                let (res, flags) = add_signed(self.cpu.sp, e);
                (s.with_flags(flags).with_wide(WideRegister::SP, res), 4)
            },
            Opcode::CCF => (self.with_flags(CpuFlags { n: false, h: false, c: !f.c, ..f }), 1),
            Opcode::CPL => (
                self.with_a(complement(a)).with_flags(CpuFlags { n: true, h: true, ..f }),
                1,
            ),
            Opcode::DAA => (self.with_a(daa8(a, f).0).with_flags(daa8(a, f).1), 1),
            Opcode::DEC(r) => (self.modify(Some(r), dec8(self.cpu.reg(r), f)), 1),
            Opcode::DECHL => (self.modify(None, dec8(self.read(self.hl()), f)), 3),
            Opcode::DECW(w) => (self.with_wide(w, dec16(self.cpu.wide(w))), 2),
            Opcode::INC(r) => (self.modify(Some(r), inc8(self.cpu.reg(r), f)), 1),
            Opcode::INCHL => (self.modify(None, inc8(self.read(self.hl()), f)), 3),
            Opcode::INCW(w) => (self.with_wide(w, inc16(self.cpu.wide(w))), 2),
            Opcode::SCF => (self.with_flags(CpuFlags { n: false, h: false, c: true, ..f }), 1),
            _ => (self, 1),
        }
    }

    /// The loads and stores. Any other instruction does nothing here and
    /// takes one machine cycle.
    pub open spec fn step_load(self, opcode: Opcode) -> (GameboyView, u8) {
        let a = self.cpu.registers.a;
        match opcode {
            Opcode::LDRR(dest, source) => (self.with_reg(dest, self.cpu.reg(source)), 1),
            Opcode::LDRI(dest) => (self.fetch().1.with_reg(dest, self.fetch().0), 2),
            Opcode::LDWRI(dest) => (self.fetch_word().1.with_wide(dest, self.fetch_word().0), 3),
            Opcode::LDHLR(source) => (self.write(self.hl(), self.cpu.reg(source)), 2),
            Opcode::LDHLI => (self.fetch().1.write(self.hl(), self.fetch().0), 3),
            Opcode::LDRHL(dest) => (self.with_reg(dest, self.read(self.hl())), 2),
            Opcode::LDWRA(dest) => (self.write(self.cpu.wide(dest), a), 2),
            Opcode::LDIWA => (self.fetch_word().1.write(self.fetch_word().0, a), 4),
            Opcode::LDAWR(source) => (self.with_a(self.read(self.cpu.wide(source))), 2),
            Opcode::LDAIW => {
                let (addr, s) = self.fetch_word();
                (s.with_a(s.read(addr)), 4)
            },
            Opcode::LDHLIA => (
                self.write(self.hl(), a).with_wide(WideRegister::HL, inc16(self.hl())),
                2,
            ),
            Opcode::LDHLDA => (
                self.write(self.hl(), a).with_wide(WideRegister::HL, dec16(self.hl())),
                2,
            ),
            Opcode::LDAHLD => (
                self.with_a(self.read(self.hl())).with_wide(WideRegister::HL, dec16(self.hl())),
                2,
            ),
            Opcode::LDAHLI => (
                self.with_a(self.read(self.hl())).with_wide(WideRegister::HL, inc16(self.hl())),
                2,
            ),
            Opcode::LDISP => (self.fetch_word().1.write_word(self.fetch_word().0, self.cpu.sp), 5),
            Opcode::LDHLSP => {
                let (e, s) = self.fetch();
                let (res, flags) = add_signed(self.cpu.sp, e);
                (s.with_flags(flags).with_wide(WideRegister::HL, res), 3)
            },
            Opcode::LDSPHL => (self.with_wide(WideRegister::SP, self.hl()), 2),
            Opcode::LDIOA => (self.fetch().1.write((0xFF00 + self.fetch().0) as u16, a), 3),
            Opcode::LDIOCA => (self.write((0xFF00 + self.cpu.registers.c) as u16, a), 2),
            Opcode::LDAIO => {
                let (n, s) = self.fetch();
                (s.with_a(s.read((0xFF00 + n) as u16)), 3)
            },
            Opcode::LDAIOC => (self.with_a(self.read((0xFF00 + self.cpu.registers.c) as u16)), 2),
            _ => (self, 1),
        }
    }

    /// The jumps, calls and returns, the stack instructions and the
    /// instructions that switch a latch of the processor. The prefix of the
    /// second table is no instruction by itself. It and any other instruction
    /// do nothing here and take one machine cycle.
    pub open spec fn step_control(self, opcode: Opcode) -> (GameboyView, u8) {
        match opcode {
            Opcode::CALL => self.call(None),
            Opcode::CALLCC(flag) => self.call(Some((flag, true))),
            Opcode::CALLNCC(flag) => self.call(Some((flag, false))),
            Opcode::CB => (self, 1),
            Opcode::DI => (self.with_cpu(Cpu { ime: false, ..self.cpu }), 1),
            Opcode::EI => (self.with_cpu(Cpu { ime: true, ..self.cpu }), 1),
            Opcode::HALT => (self.with_cpu(Cpu { halted: true, ..self.cpu }), 1),
            Opcode::JP => self.jump(None),
            Opcode::JPCC(flag) => self.jump(Some((flag, true))),
            Opcode::JPNCC(flag) => self.jump(Some((flag, false))),
            Opcode::JPHL => (self.with_pc(self.hl()), 1),
            Opcode::JR => self.jump_relative(None),
            Opcode::JRCC(flag) => self.jump_relative(Some((flag, true))),
            Opcode::JRNCC(flag) => self.jump_relative(Some((flag, false))),
            Opcode::NOP => (self, 1),
            Opcode::POPWR(w) => (self.pop_word().1.with_wide(w, self.pop_word().0), 3),
            Opcode::PUSHWR(w) => (self.push_word(self.cpu.wide(w)), 4),
            Opcode::RET => self.ret(None),
            Opcode::RETCC(flag) => self.ret(Some((flag, true))),
            Opcode::RETNCC(flag) => self.ret(Some((flag, false))),
            Opcode::RETI => self.with_cpu(Cpu { ime: true, ..self.cpu }).ret(None),
            Opcode::RST(vector) => (self.restart(vector), 4),
            Opcode::STOP => (self.with_cpu(Cpu { halted: true, ..self.cpu }), 1),
            _ => (self, 1),
        }
    }

    /// The instructions on single bits. Any other instruction does nothing
    /// here and takes one machine cycle.
    pub open spec fn step_bits(self, opcode: Opcode) -> (GameboyView, u8) {
        let f = self.flags();
        match opcode {
            Opcode::BIT(bit, r) => (self.with_flags(bit_test(bit, self.cpu.reg(r), f)), 2),
            Opcode::BITHL(bit) => (self.with_flags(bit_test(bit, self.read(self.hl()), f)), 2),
            Opcode::RES(bit, r) => (self.with_reg(r, res_bit(bit, self.cpu.reg(r))), 2),
            Opcode::RESHL(bit) => (
                self.write(self.hl(), res_bit(bit, self.read(self.hl()))),
                4,
            ),
            Opcode::SET(bit, r) => (self.with_reg(r, set_bit(bit, self.cpu.reg(r))), 2),
            Opcode::SETHL(bit) => (
                self.write(self.hl(), set_bit(bit, self.read(self.hl()))),
                4,
            ),
            _ => (self, 1),
        }
    }

    /// The machine after an instruction of either table whose opcode was
    /// fetched, and the machine cycles that the instruction takes.
    pub open spec fn step_plain(self, opcode: Opcode) -> (GameboyView, u8) {
        match opcode {
            Opcode::ADC(r) => self.alu(AluOp::Adc, Source::Register(r)),
            Opcode::ADCHL => self.alu(AluOp::Adc, Source::AtHL),
            Opcode::ADCI => self.alu(AluOp::Adc, Source::Immediate),
            Opcode::ADD(r) => self.alu(AluOp::Add, Source::Register(r)),
            Opcode::ADDHL => self.alu(AluOp::Add, Source::AtHL),
            Opcode::ADDI => self.alu(AluOp::Add, Source::Immediate),
            Opcode::AND(r) => self.alu(AluOp::And, Source::Register(r)),
            Opcode::ANDHL => self.alu(AluOp::And, Source::AtHL),
            Opcode::ANDI => self.alu(AluOp::And, Source::Immediate),
            Opcode::CP(r) => self.alu(AluOp::Cp, Source::Register(r)),
            Opcode::CPHL => self.alu(AluOp::Cp, Source::AtHL),
            Opcode::CPI => self.alu(AluOp::Cp, Source::Immediate),
            Opcode::OR(r) => self.alu(AluOp::Or, Source::Register(r)),
            Opcode::ORHL => self.alu(AluOp::Or, Source::AtHL),
            Opcode::ORI => self.alu(AluOp::Or, Source::Immediate),
            Opcode::SBC(r) => self.alu(AluOp::Sbc, Source::Register(r)),
            Opcode::SBCHL => self.alu(AluOp::Sbc, Source::AtHL),
            Opcode::SBCI => self.alu(AluOp::Sbc, Source::Immediate),
            Opcode::SUB(r) => self.alu(AluOp::Sub, Source::Register(r)),
            Opcode::SUBHL => self.alu(AluOp::Sub, Source::AtHL),
            Opcode::SUBI => self.alu(AluOp::Sub, Source::Immediate),
            Opcode::XOR(r) => self.alu(AluOp::Xor, Source::Register(r)),
            Opcode::XORHL => self.alu(AluOp::Xor, Source::AtHL),
            Opcode::XORI => self.alu(AluOp::Xor, Source::Immediate),
            Opcode::RL(r) => self.shift(ShiftOp::Rl, Some(r)),
            Opcode::RLHL => self.shift(ShiftOp::Rl, None),
            Opcode::RLA => self.shift_a(ShiftOp::Rl),
            Opcode::RLC(r) => self.shift(ShiftOp::Rlc, Some(r)),
            Opcode::RLCHL => self.shift(ShiftOp::Rlc, None),
            Opcode::RLCA => self.shift_a(ShiftOp::Rlc),
            Opcode::RR(r) => self.shift(ShiftOp::Rr, Some(r)),
            Opcode::RRHL => self.shift(ShiftOp::Rr, None),
            Opcode::RRA => self.shift_a(ShiftOp::Rr),
            Opcode::RRC(r) => self.shift(ShiftOp::Rrc, Some(r)),
            Opcode::RRCHL => self.shift(ShiftOp::Rrc, None),
            Opcode::RRCA => self.shift_a(ShiftOp::Rrc),
            Opcode::SLA(r) => self.shift(ShiftOp::Sla, Some(r)),
            Opcode::SLAHL => self.shift(ShiftOp::Sla, None),
            Opcode::SRA(r) => self.shift(ShiftOp::Sra, Some(r)),
            Opcode::SRAHL => self.shift(ShiftOp::Sra, None),
            Opcode::SRL(r) => self.shift(ShiftOp::Srl, Some(r)),
            Opcode::SRLHL => self.shift(ShiftOp::Srl, None),
            Opcode::SWAP(r) => self.shift(ShiftOp::Swap, Some(r)),
            Opcode::SWAPHL => self.shift(ShiftOp::Swap, None),
            Opcode::ADDHLR(_) | Opcode::ADDSP | Opcode::CCF | Opcode::CPL | Opcode::DAA
            | Opcode::DEC(_) | Opcode::DECHL | Opcode::DECW(_) | Opcode::INC(_) | Opcode::INCHL
            | Opcode::INCW(_) | Opcode::SCF => self.step_arith(opcode),
            Opcode::LDRR(_, _) | Opcode::LDRI(_) | Opcode::LDWRI(_) | Opcode::LDHLR(_)
            | Opcode::LDHLI | Opcode::LDRHL(_) | Opcode::LDWRA(_) | Opcode::LDIWA
            | Opcode::LDAWR(_) | Opcode::LDAIW | Opcode::LDHLIA | Opcode::LDHLDA
            | Opcode::LDAHLD | Opcode::LDAHLI | Opcode::LDISP | Opcode::LDHLSP | Opcode::LDSPHL
            | Opcode::LDIOA | Opcode::LDIOCA | Opcode::LDAIO | Opcode::LDAIOC => self.step_load(opcode),
            Opcode::CALL | Opcode::CALLCC(_) | Opcode::CALLNCC(_) | Opcode::CB | Opcode::DI
            | Opcode::EI | Opcode::HALT | Opcode::JP | Opcode::JPCC(_) | Opcode::JPNCC(_)
            | Opcode::JPHL | Opcode::JR | Opcode::JRCC(_) | Opcode::JRNCC(_) | Opcode::NOP
            | Opcode::POPWR(_) | Opcode::PUSHWR(_) | Opcode::RET | Opcode::RETCC(_)
            | Opcode::RETNCC(_) | Opcode::RETI | Opcode::RST(_) | Opcode::STOP => self.step_control(opcode),
            Opcode::BIT(_, _) | Opcode::BITHL(_) | Opcode::RES(_, _) | Opcode::RESHL(_)
            | Opcode::SET(_, _) | Opcode::SETHL(_) => self.step_bits(opcode),
        }
    }

    /// The machine after an instruction whose opcode was fetched from the
    /// first table, and the machine cycles that it takes. After the prefix
    /// 0xCB the next byte is fetched and names the instruction in the second
    /// table.
    pub open spec fn step_opcode(self, opcode: Opcode) -> (GameboyView, u8) {
        match opcode {
            Opcode::CB => self.fetch().1.step_plain(prefixed(self.fetch().0)),
            _ => self.step_plain(opcode),
        }
    }
}

impl GameboyView {
    proof fn lemma_alu_follows(self, origin: GameboyView, op: AluOp, source: Source)
        requires
            self.follows(origin),
        ensures
            self.alu(op, source).0.follows(origin),
    {
        lemma_processor_work(origin);
    }

    proof fn lemma_shift_follows(self, origin: GameboyView, op: ShiftOp, target: Option<Register>)
        requires
            self.follows(origin),
        ensures
            self.shift(op, target).0.follows(origin),
            self.shift_a(op).0.follows(origin),
    {
        lemma_processor_work(origin);
    }

    proof fn lemma_arith_follows(self, origin: GameboyView, opcode: Opcode)
        requires
            self.follows(origin),
        ensures
            self.step_arith(opcode).0.follows(origin),
    {
        lemma_processor_work(origin);
    }

    proof fn lemma_load_follows(self, origin: GameboyView, opcode: Opcode)
        requires
            self.follows(origin),
        ensures
            self.step_load(opcode).0.follows(origin),
    {
        lemma_processor_work(origin);
    }

    proof fn lemma_control_follows(self, origin: GameboyView, opcode: Opcode)
        requires
            self.follows(origin),
        ensures
            self.step_control(opcode).0.follows(origin),
    {
        lemma_processor_work(origin);
    }

    proof fn lemma_bits_follows(self, origin: GameboyView, opcode: Opcode)
        requires
            self.follows(origin),
        ensures
            self.step_bits(opcode).0.follows(origin),
    {
        lemma_processor_work(origin);
    }

    proof fn lemma_plain_follows(self, origin: GameboyView, opcode: Opcode)
        requires
            self.follows(origin),
        ensures
            self.step_plain(opcode).0.follows(origin),
    {
        match opcode {
            Opcode::ADC(r) => self.lemma_alu_follows(origin, AluOp::Adc, Source::Register(r)),
            Opcode::ADCHL => self.lemma_alu_follows(origin, AluOp::Adc, Source::AtHL),
            Opcode::ADCI => self.lemma_alu_follows(origin, AluOp::Adc, Source::Immediate),
            Opcode::ADD(r) => self.lemma_alu_follows(origin, AluOp::Add, Source::Register(r)),
            Opcode::ADDHL => self.lemma_alu_follows(origin, AluOp::Add, Source::AtHL),
            Opcode::ADDI => self.lemma_alu_follows(origin, AluOp::Add, Source::Immediate),
            Opcode::AND(r) => self.lemma_alu_follows(origin, AluOp::And, Source::Register(r)),
            Opcode::ANDHL => self.lemma_alu_follows(origin, AluOp::And, Source::AtHL),
            Opcode::ANDI => self.lemma_alu_follows(origin, AluOp::And, Source::Immediate),
            Opcode::CP(r) => self.lemma_alu_follows(origin, AluOp::Cp, Source::Register(r)),
            Opcode::CPHL => self.lemma_alu_follows(origin, AluOp::Cp, Source::AtHL),
            Opcode::CPI => self.lemma_alu_follows(origin, AluOp::Cp, Source::Immediate),
            Opcode::OR(r) => self.lemma_alu_follows(origin, AluOp::Or, Source::Register(r)),
            Opcode::ORHL => self.lemma_alu_follows(origin, AluOp::Or, Source::AtHL),
            Opcode::ORI => self.lemma_alu_follows(origin, AluOp::Or, Source::Immediate),
            Opcode::SBC(r) => self.lemma_alu_follows(origin, AluOp::Sbc, Source::Register(r)),
            Opcode::SBCHL => self.lemma_alu_follows(origin, AluOp::Sbc, Source::AtHL),
            Opcode::SBCI => self.lemma_alu_follows(origin, AluOp::Sbc, Source::Immediate),
            Opcode::SUB(r) => self.lemma_alu_follows(origin, AluOp::Sub, Source::Register(r)),
            Opcode::SUBHL => self.lemma_alu_follows(origin, AluOp::Sub, Source::AtHL),
            Opcode::SUBI => self.lemma_alu_follows(origin, AluOp::Sub, Source::Immediate),
            Opcode::XOR(r) => self.lemma_alu_follows(origin, AluOp::Xor, Source::Register(r)),
            Opcode::XORHL => self.lemma_alu_follows(origin, AluOp::Xor, Source::AtHL),
            Opcode::XORI => self.lemma_alu_follows(origin, AluOp::Xor, Source::Immediate),
            Opcode::RL(r) => self.lemma_shift_follows(origin, ShiftOp::Rl, Some(r)),
            Opcode::RLHL => self.lemma_shift_follows(origin, ShiftOp::Rl, None),
            Opcode::RLA => self.lemma_shift_follows(origin, ShiftOp::Rl, None),
            Opcode::RLC(r) => self.lemma_shift_follows(origin, ShiftOp::Rlc, Some(r)),
            Opcode::RLCHL => self.lemma_shift_follows(origin, ShiftOp::Rlc, None),
            Opcode::RLCA => self.lemma_shift_follows(origin, ShiftOp::Rlc, None),
            Opcode::RR(r) => self.lemma_shift_follows(origin, ShiftOp::Rr, Some(r)),
            Opcode::RRHL => self.lemma_shift_follows(origin, ShiftOp::Rr, None),
            Opcode::RRA => self.lemma_shift_follows(origin, ShiftOp::Rr, None),
            Opcode::RRC(r) => self.lemma_shift_follows(origin, ShiftOp::Rrc, Some(r)),
            Opcode::RRCHL => self.lemma_shift_follows(origin, ShiftOp::Rrc, None),
            Opcode::RRCA => self.lemma_shift_follows(origin, ShiftOp::Rrc, None),
            Opcode::SLA(r) => self.lemma_shift_follows(origin, ShiftOp::Sla, Some(r)),
            Opcode::SLAHL => self.lemma_shift_follows(origin, ShiftOp::Sla, None),
            Opcode::SRA(r) => self.lemma_shift_follows(origin, ShiftOp::Sra, Some(r)),
            Opcode::SRAHL => self.lemma_shift_follows(origin, ShiftOp::Sra, None),
            Opcode::SRL(r) => self.lemma_shift_follows(origin, ShiftOp::Srl, Some(r)),
            Opcode::SRLHL => self.lemma_shift_follows(origin, ShiftOp::Srl, None),
            Opcode::SWAP(r) => self.lemma_shift_follows(origin, ShiftOp::Swap, Some(r)),
            Opcode::SWAPHL => self.lemma_shift_follows(origin, ShiftOp::Swap, None),
            Opcode::ADDHLR(_) | Opcode::ADDSP | Opcode::CCF | Opcode::CPL | Opcode::DAA
            | Opcode::DEC(_) | Opcode::DECHL | Opcode::DECW(_) | Opcode::INC(_) | Opcode::INCHL
            | Opcode::INCW(_) | Opcode::SCF => self.lemma_arith_follows(origin, opcode),
            Opcode::LDRR(_, _) | Opcode::LDRI(_) | Opcode::LDWRI(_) | Opcode::LDHLR(_)
            | Opcode::LDHLI | Opcode::LDRHL(_) | Opcode::LDWRA(_) | Opcode::LDIWA
            | Opcode::LDAWR(_) | Opcode::LDAIW | Opcode::LDHLIA | Opcode::LDHLDA
            | Opcode::LDAHLD | Opcode::LDAHLI | Opcode::LDISP | Opcode::LDHLSP | Opcode::LDSPHL
            | Opcode::LDIOA | Opcode::LDIOCA | Opcode::LDAIO | Opcode::LDAIOC => self.lemma_load_follows(origin, opcode),
            Opcode::CALL | Opcode::CALLCC(_) | Opcode::CALLNCC(_) | Opcode::CB | Opcode::DI
            | Opcode::EI | Opcode::HALT | Opcode::JP | Opcode::JPCC(_) | Opcode::JPNCC(_)
            | Opcode::JPHL | Opcode::JR | Opcode::JRCC(_) | Opcode::JRNCC(_) | Opcode::NOP
            | Opcode::POPWR(_) | Opcode::PUSHWR(_) | Opcode::RET | Opcode::RETCC(_)
            | Opcode::RETNCC(_) | Opcode::RETI | Opcode::RST(_) | Opcode::STOP => self.lemma_control_follows(origin, opcode),
            Opcode::BIT(_, _) | Opcode::BITHL(_) | Opcode::RES(_, _) | Opcode::RESHL(_)
            | Opcode::SET(_, _) | Opcode::SETHL(_) => self.lemma_bits_follows(origin, opcode),
        }
    }

    proof fn lemma_alu_cycles(self, op: AluOp, source: Source)
        ensures
            1 <= self.alu(op, source).1 <= 6,
    {
    }

    proof fn lemma_shift_cycles(self, op: ShiftOp, target: Option<Register>)
        ensures
            1 <= self.shift(op, target).1 <= 6,
            1 <= self.shift_a(op).1 <= 6,
    {
    }

    proof fn lemma_arith_cycles(self, opcode: Opcode)
        ensures
            1 <= self.step_arith(opcode).1 <= 6,
    {
    }

    proof fn lemma_load_cycles(self, opcode: Opcode)
        ensures
            1 <= self.step_load(opcode).1 <= 6,
    {
    }

    proof fn lemma_control_cycles(self, opcode: Opcode)
        ensures
            1 <= self.step_control(opcode).1 <= 6,
    {
    }

    proof fn lemma_bits_cycles(self, opcode: Opcode)
        ensures
            1 <= self.step_bits(opcode).1 <= 6,
    {
    }

    proof fn lemma_plain_cycles(self, opcode: Opcode)
        ensures
            1 <= self.step_plain(opcode).1 <= 6,
    {
        match opcode {
            Opcode::ADC(r) => self.lemma_alu_cycles(AluOp::Adc, Source::Register(r)),
            Opcode::ADCHL => self.lemma_alu_cycles(AluOp::Adc, Source::AtHL),
            Opcode::ADCI => self.lemma_alu_cycles(AluOp::Adc, Source::Immediate),
            Opcode::ADD(r) => self.lemma_alu_cycles(AluOp::Add, Source::Register(r)),
            Opcode::ADDHL => self.lemma_alu_cycles(AluOp::Add, Source::AtHL),
            Opcode::ADDI => self.lemma_alu_cycles(AluOp::Add, Source::Immediate),
            Opcode::AND(r) => self.lemma_alu_cycles(AluOp::And, Source::Register(r)),
            Opcode::ANDHL => self.lemma_alu_cycles(AluOp::And, Source::AtHL),
            Opcode::ANDI => self.lemma_alu_cycles(AluOp::And, Source::Immediate),
            Opcode::CP(r) => self.lemma_alu_cycles(AluOp::Cp, Source::Register(r)),
            Opcode::CPHL => self.lemma_alu_cycles(AluOp::Cp, Source::AtHL),
            Opcode::CPI => self.lemma_alu_cycles(AluOp::Cp, Source::Immediate),
            Opcode::OR(r) => self.lemma_alu_cycles(AluOp::Or, Source::Register(r)),
            Opcode::ORHL => self.lemma_alu_cycles(AluOp::Or, Source::AtHL),
            Opcode::ORI => self.lemma_alu_cycles(AluOp::Or, Source::Immediate),
            Opcode::SBC(r) => self.lemma_alu_cycles(AluOp::Sbc, Source::Register(r)),
            Opcode::SBCHL => self.lemma_alu_cycles(AluOp::Sbc, Source::AtHL),
            Opcode::SBCI => self.lemma_alu_cycles(AluOp::Sbc, Source::Immediate),
            Opcode::SUB(r) => self.lemma_alu_cycles(AluOp::Sub, Source::Register(r)),
            Opcode::SUBHL => self.lemma_alu_cycles(AluOp::Sub, Source::AtHL),
            Opcode::SUBI => self.lemma_alu_cycles(AluOp::Sub, Source::Immediate),
            Opcode::XOR(r) => self.lemma_alu_cycles(AluOp::Xor, Source::Register(r)),
            Opcode::XORHL => self.lemma_alu_cycles(AluOp::Xor, Source::AtHL),
            Opcode::XORI => self.lemma_alu_cycles(AluOp::Xor, Source::Immediate),
            Opcode::RL(r) => self.lemma_shift_cycles(ShiftOp::Rl, Some(r)),
            Opcode::RLHL => self.lemma_shift_cycles(ShiftOp::Rl, None),
            Opcode::RLA => self.lemma_shift_cycles(ShiftOp::Rl, None),
            Opcode::RLC(r) => self.lemma_shift_cycles(ShiftOp::Rlc, Some(r)),
            Opcode::RLCHL => self.lemma_shift_cycles(ShiftOp::Rlc, None),
            Opcode::RLCA => self.lemma_shift_cycles(ShiftOp::Rlc, None),
            Opcode::RR(r) => self.lemma_shift_cycles(ShiftOp::Rr, Some(r)),
            Opcode::RRHL => self.lemma_shift_cycles(ShiftOp::Rr, None),
            Opcode::RRA => self.lemma_shift_cycles(ShiftOp::Rr, None),
            Opcode::RRC(r) => self.lemma_shift_cycles(ShiftOp::Rrc, Some(r)),
            Opcode::RRCHL => self.lemma_shift_cycles(ShiftOp::Rrc, None),
            Opcode::RRCA => self.lemma_shift_cycles(ShiftOp::Rrc, None),
            Opcode::SLA(r) => self.lemma_shift_cycles(ShiftOp::Sla, Some(r)),
            Opcode::SLAHL => self.lemma_shift_cycles(ShiftOp::Sla, None),
            Opcode::SRA(r) => self.lemma_shift_cycles(ShiftOp::Sra, Some(r)),
            Opcode::SRAHL => self.lemma_shift_cycles(ShiftOp::Sra, None),
            Opcode::SRL(r) => self.lemma_shift_cycles(ShiftOp::Srl, Some(r)),
            Opcode::SRLHL => self.lemma_shift_cycles(ShiftOp::Srl, None),
            Opcode::SWAP(r) => self.lemma_shift_cycles(ShiftOp::Swap, Some(r)),
            Opcode::SWAPHL => self.lemma_shift_cycles(ShiftOp::Swap, None),
            Opcode::ADDHLR(_) | Opcode::ADDSP | Opcode::CCF | Opcode::CPL | Opcode::DAA
            | Opcode::DEC(_) | Opcode::DECHL | Opcode::DECW(_) | Opcode::INC(_) | Opcode::INCHL
            | Opcode::INCW(_) | Opcode::SCF => self.lemma_arith_cycles(opcode),
            Opcode::LDRR(_, _) | Opcode::LDRI(_) | Opcode::LDWRI(_) | Opcode::LDHLR(_)
            | Opcode::LDHLI | Opcode::LDRHL(_) | Opcode::LDWRA(_) | Opcode::LDIWA
            | Opcode::LDAWR(_) | Opcode::LDAIW | Opcode::LDHLIA | Opcode::LDHLDA
            | Opcode::LDAHLD | Opcode::LDAHLI | Opcode::LDISP | Opcode::LDHLSP | Opcode::LDSPHL
            | Opcode::LDIOA | Opcode::LDIOCA | Opcode::LDAIO | Opcode::LDAIOC => self.lemma_load_cycles(opcode),
            Opcode::CALL | Opcode::CALLCC(_) | Opcode::CALLNCC(_) | Opcode::CB | Opcode::DI
            | Opcode::EI | Opcode::HALT | Opcode::JP | Opcode::JPCC(_) | Opcode::JPNCC(_)
            | Opcode::JPHL | Opcode::JR | Opcode::JRCC(_) | Opcode::JRNCC(_) | Opcode::NOP
            | Opcode::POPWR(_) | Opcode::PUSHWR(_) | Opcode::RET | Opcode::RETCC(_)
            | Opcode::RETNCC(_) | Opcode::RETI | Opcode::RST(_) | Opcode::STOP => self.lemma_control_cycles(opcode),
            Opcode::BIT(_, _) | Opcode::BITHL(_) | Opcode::RES(_, _) | Opcode::RESHL(_)
            | Opcode::SET(_, _) | Opcode::SETHL(_) => self.lemma_bits_cycles(opcode),
        }
    }

    /// Every instruction takes from one to six machine cycles.
    pub proof fn lemma_step_opcode_cycles(self, opcode: Opcode)
        ensures
            1 <= self.step_opcode(opcode).1 <= 6,
    {
        self.lemma_plain_cycles(opcode);
        self.fetch().1.lemma_plain_cycles(prefixed(self.fetch().0));
    }

    /// An instruction is work of the processor.
    pub proof fn lemma_step_opcode_follows(self, origin: GameboyView, opcode: Opcode)
        requires
            self.follows(origin),
        ensures
            self.step_opcode(opcode).0.follows(origin),
    {
        lemma_processor_work(origin);
        self.lemma_plain_follows(origin, opcode);
        self.fetch().1.lemma_plain_follows(origin, prefixed(self.fetch().0));
    }

    /// A call of a fixed address keeps the machine in order.
    pub proof fn lemma_restart_wf(self, vector: u16)
        requires
            self.wf(),
        ensures
            self.restart(vector).wf(),
    {
        self.lemma_follows_itself();
        self.lemma_restart_follows(self, vector);
        reveal(GameboyView::follows);
    }

    /// A call of a fixed address is work of the processor.
    pub proof fn lemma_restart_follows(self, origin: GameboyView, vector: u16)
        requires
            self.follows(origin),
        ensures
            self.restart(vector).follows(origin),
    {
        lemma_processor_work(origin);
    }

    /// No instruction breaks what holds of a machine between instructions.
    pub proof fn lemma_step_opcode_wf(self, opcode: Opcode)
        requires
            self.wf(),
        ensures
            self.step_opcode(opcode).0.wf(),
    {
        reveal(GameboyView::follows);
        self.lemma_follows_itself();
        self.lemma_step_opcode_follows(self, opcode);
    }
}

/// Moves an address by a signed displacement.
fn displace(base: u16, e: u8) -> (r: u16)
    ensures
        r == offset16(base, e),
{
    let wide: u16 = if e < 128 { e as u16 } else { 0xFF00 + e as u16 };
    proof {
        let t = base + crate::alu::signed(e);
        if t < 0 {
            assert(t % 65536 == t + 65536);
        } else if t >= 65536 {
            assert(t % 65536 == t - 65536);
        } else {
            assert(t % 65536 == t);
        }
    }
    base.wrapping_add(wide)
}

impl Gameboy {
    /// Calls a fixed address.
    pub fn rst(&mut self, vector: u16)
        ensures
            final(self)@ == old(self)@.restart(vector),
            old(self)@.wf() ==> final(self)@.wf(),
    {
        proof {
            if self@.wf() {
                self@.lemma_restart_wf(vector);
            }
        }
        self.stack_push_word(self.cpu.pc);
        self.cpu.pc = vector;
    }

    /// Takes the byte that an instruction works on, and returns it with the
    /// machine cycles that taking it costs.
    fn operand(&mut self, source: Source) -> (r: (u8, u8))
        ensures
            (r.0, final(self)@, r.1) == old(self)@.operand(source),
    {
        match source {
            Source::Register(register) => (self.cpu.read_register(register), 0),
            Source::AtHL => (self.read(self.cpu.registers.hl()), 1),
            Source::Immediate => (self.fetch(), 1),
        }
    }

    /// Computes an operation between A and a byte.
    fn do_alu(op: AluOp, a: u8, rhs: u8, flags: &mut CpuFlags) -> (res: u8)
        ensures
            (res, *final(flags)) == alu_result(op, a, rhs, *old(flags)),
    {
        match op {
            AluOp::Add => Gameboy::do_add(a, rhs, false, flags),
            AluOp::Adc => Gameboy::do_add(a, rhs, true, flags),
            AluOp::Sub => Gameboy::do_sub(a, rhs, false, flags),
            AluOp::Sbc => Gameboy::do_sub(a, rhs, true, flags),
            AluOp::And => Gameboy::do_and(a, rhs, flags),
            AluOp::Xor => Gameboy::do_xor(a, rhs, flags),
            AluOp::Or => Gameboy::do_or(a, rhs, flags),
            AluOp::Cp => {
                Gameboy::do_sub(a, rhs, false, flags);
                a
            },
        }
    }

    /// Executes an operation between A and a byte.
    fn alu_op(&mut self, op: AluOp, source: Source) -> (m_cycles: u8)
        ensures
            (final(self)@, m_cycles) == old(self)@.alu(op, source),
    {
        let (rhs, extra) = self.operand(source);
        self.cpu.registers.a = Gameboy::do_alu(
            op,
            self.cpu.registers.a,
            rhs,
            &mut self.cpu.registers.flags,
        );
        1 + extra
    }

    /// Rotates or shifts a byte.
    fn do_shift(op: ShiftOp, value: u8, flags: &mut CpuFlags) -> (res: u8)
        ensures
            (res, *final(flags)) == shift_result(op, value, *old(flags)),
    {
        match op {
            ShiftOp::Rlc => Gameboy::do_rlc(value, flags),
            ShiftOp::Rrc => Gameboy::do_rrc(value, flags),
            ShiftOp::Rl => Gameboy::do_rl(value, flags),
            ShiftOp::Rr => Gameboy::do_rr(value, flags),
            ShiftOp::Sla => Gameboy::do_sla(value, flags),
            ShiftOp::Sra => Gameboy::do_sra(value, flags),
            ShiftOp::Swap => Gameboy::do_swap(value, flags),
            ShiftOp::Srl => Gameboy::do_srl(value, flags),
        }
    }

    /// Executes a rotation or shift of a register or of the byte at HL.
    fn shift_op(&mut self, op: ShiftOp, target: Option<Register>) -> (m_cycles: u8)
        ensures
            (final(self)@, m_cycles) == old(self)@.shift(op, target),
    {
        match target {
            Some(register) => {
                let value = self.cpu.read_register(register);
                let res = Gameboy::do_shift(op, value, &mut self.cpu.registers.flags);
                self.cpu.write_register(register, res);
                2
            },
            None => {
                let value = self.read(self.cpu.registers.hl());
                let res = Gameboy::do_shift(op, value, &mut self.cpu.registers.flags);
                self.write(self.cpu.registers.hl(), res);
                4
            },
        }
    }

    /// Executes a rotation of A by a one-byte instruction.
    fn shift_a_op(&mut self, op: ShiftOp) -> (m_cycles: u8)
        ensures
            (final(self)@, m_cycles) == old(self)@.shift_a(op),
    {
        self.cpu.registers.a = Gameboy::do_shift(
            op,
            self.cpu.registers.a,
            &mut self.cpu.registers.flags,
        );
        self.cpu.registers.flags.remove(Flag::Z);
        1
    }

    /// Whether a branch is taken.
    fn takes(&self, condition: Option<(Flag, bool)>) -> (r: bool)
        ensures
            r == self@.takes(condition),
    {
        match condition {
            None => true,
            Some((flag, wanted)) => self.cpu.registers.flags.contains(flag) == wanted,
        }
    }

    /// Executes a jump by a signed displacement.
    fn jump_relative_op(&mut self, condition: Option<(Flag, bool)>) -> (m_cycles: u8)
        ensures
            (final(self)@, m_cycles) == old(self)@.jump_relative(condition),
    {
        let jump = self.fetch();
        if self.takes(condition) {
            self.cpu.pc = displace(self.cpu.pc, jump);
            3
        } else {
            2
        }
    }

    /// Executes a jump to the immediate address.
    fn jump_op(&mut self, condition: Option<(Flag, bool)>) -> (m_cycles: u8)
        ensures
            (final(self)@, m_cycles) == old(self)@.jump(condition),
    {
        let target = self.fetch_word();
        if self.takes(condition) {
            self.cpu.pc = target;
            4
        } else {
            3
        }
    }

    /// Executes a call of the immediate address.
    fn call_op(&mut self, condition: Option<(Flag, bool)>) -> (m_cycles: u8)
        ensures
            (final(self)@, m_cycles) == old(self)@.call(condition),
    {
        let target = self.fetch_word();
        if self.takes(condition) {
            self.stack_push_word(self.cpu.pc);
            self.cpu.pc = target;
            6
        } else {
            3
        }
    }

    /// Executes a return.
    fn ret_op(&mut self, condition: Option<(Flag, bool)>) -> (m_cycles: u8)
        ensures
            (final(self)@, m_cycles) == old(self)@.ret(condition),
    {
        if self.takes(condition) {
            let target = self.stack_pop_word();
            self.cpu.pc = target;
            if condition.is_none() {
                4
            } else {
                5
            }
        } else {
            2
        }
    }

    /// Executes an instruction on a wide register, an increment or a
    /// decrement, or an instruction that adjusts A or the flags alone.
    fn execute_arith(&mut self, opcode: Opcode) -> (m_cycles: u8)
        requires
            opcode.wf(),
        ensures
            (final(self)@, m_cycles) == old(self)@.step_arith(opcode),
    {
        match opcode {
            Opcode::ADDHLR(wide_register) => {
                let rhs = self.cpu.read_wide_register(wide_register);
                let res = Gameboy::do_add_16(
                    self.cpu.registers.hl(),
                    rhs,
                    &mut self.cpu.registers.flags,
                );
                self.cpu.registers.set_hl(res);
                2
            },
            Opcode::ADDSP => {
                let sp = self.cpu.sp;
                let e = self.fetch();
                let res = Gameboy::do_signed_add(sp, e, &mut self.cpu.registers.flags);
                self.cpu.sp = res;
                4
            },
            Opcode::CCF => {
                self.cpu.registers.flags.remove(Flag::N);
                self.cpu.registers.flags.remove(Flag::H);
                let carry = self.cpu.registers.flags.contains(Flag::C);
                self.cpu.registers.flags.set(Flag::C, !carry);
                1
            },
            Opcode::CPL => {
                proof {
                    lemma_shift_byte(self.cpu.registers.a);
                }
                self.cpu.registers.a = !self.cpu.registers.a;
                self.cpu.registers.flags.insert(Flag::N);
                self.cpu.registers.flags.insert(Flag::H);
                1
            },
            Opcode::DAA => {
                self.cpu.registers.a = Gameboy::do_daa(
                    self.cpu.registers.a,
                    &mut self.cpu.registers.flags,
                );
                1
            },
            Opcode::DEC(register) => {
                let value = self.cpu.read_register(register);
                let res = Gameboy::do_dec(value, &mut self.cpu.registers.flags);
                self.cpu.write_register(register, res);
                1
            },
            Opcode::DECHL => {
                let value = self.read(self.cpu.registers.hl());
                let res = Gameboy::do_dec(value, &mut self.cpu.registers.flags);
                self.write(self.cpu.registers.hl(), res);
                3
            },
            Opcode::DECW(wide_register) => {
                let res = Gameboy::do_dec_16(self.cpu.read_wide_register(wide_register));
                self.cpu.write_wide_register(wide_register, res);
                2
            },
            Opcode::INC(register) => {
                let value = self.cpu.read_register(register);
                let res = Gameboy::do_inc(value, &mut self.cpu.registers.flags);
                self.cpu.write_register(register, res);
                1
            },
            Opcode::INCHL => {
                let value = self.read(self.cpu.registers.hl());
                let res = Gameboy::do_inc(value, &mut self.cpu.registers.flags);
                self.write(self.cpu.registers.hl(), res);
                3
            },
            Opcode::INCW(wide_register) => {
                let res = Gameboy::do_inc_16(self.cpu.read_wide_register(wide_register));
                self.cpu.write_wide_register(wide_register, res);
                2
            },
            Opcode::SCF => {
                self.cpu.registers.flags.insert(Flag::C);
                self.cpu.registers.flags.remove(Flag::N);
                self.cpu.registers.flags.remove(Flag::H);
                1
            },
            _ => 1,
        }
    }

    /// Executes a load or a store.
    fn execute_load(&mut self, opcode: Opcode) -> (m_cycles: u8)
        requires
            opcode.wf(),
        ensures
            (final(self)@, m_cycles) == old(self)@.step_load(opcode),
    {
        match opcode {
            Opcode::LDRR(dest, source) => {
                let value = self.cpu.read_register(source);
                self.cpu.write_register(dest, value);
                1
            },
            Opcode::LDRI(dest) => {
                let res = self.fetch();
                self.cpu.write_register(dest, res);
                2
            },
            Opcode::LDWRI(dest) => {
                let res = self.fetch_word();
                self.cpu.write_wide_register(dest, res);
                3
            },
            Opcode::LDHLR(source) => {
                let value = self.cpu.read_register(source);
                self.write(self.cpu.registers.hl(), value);
                2
            },
            Opcode::LDHLI => {
                let res = self.fetch();
                self.write(self.cpu.registers.hl(), res);
                3
            },
            Opcode::LDRHL(dest) => {
                let value = self.read(self.cpu.registers.hl());
                self.cpu.write_register(dest, value);
                2
            },
            Opcode::LDWRA(dest) => {
                let addr = self.cpu.read_wide_register(dest);
                self.write(addr, self.cpu.registers.a);
                2
            },
            Opcode::LDIWA => {
                let addr = self.fetch_word();
                self.write(addr, self.cpu.registers.a);
                4
            },
            Opcode::LDAWR(source) => {
                let addr = self.cpu.read_wide_register(source);
                self.cpu.registers.a = self.read(addr);
                2
            },
            Opcode::LDAIW => {
                let addr = self.fetch_word();
                self.cpu.registers.a = self.read(addr);
                4
            },
            Opcode::LDHLIA => {
                let hl = self.cpu.registers.hl();
                self.write(hl, self.cpu.registers.a);
                self.cpu.registers.set_hl(hl.wrapping_add(1));
                2
            },
            Opcode::LDHLDA => {
                let hl = self.cpu.registers.hl();
                self.write(hl, self.cpu.registers.a);
                self.cpu.registers.set_hl(hl.wrapping_sub(1));
                2
            },
            Opcode::LDAHLD => {
                let hl = self.cpu.registers.hl();
                self.cpu.registers.a = self.read(hl);
                self.cpu.registers.set_hl(hl.wrapping_sub(1));
                2
            },
            Opcode::LDAHLI => {
                let hl = self.cpu.registers.hl();
                self.cpu.registers.a = self.read(hl);
                self.cpu.registers.set_hl(hl.wrapping_add(1));
                2
            },
            Opcode::LDISP => {
                let addr = self.fetch_word();
                self.write_word(addr, self.cpu.sp);
                5
            },
            Opcode::LDHLSP => {
                let sp = self.cpu.sp;
                let e = self.fetch();
                let value = Gameboy::do_signed_add(sp, e, &mut self.cpu.registers.flags);
                self.cpu.registers.set_hl(value);
                3
            },
            Opcode::LDSPHL => {
                self.cpu.sp = self.cpu.registers.hl();
                2
            },
            Opcode::LDIOA => {
                let addr = self.fetch() as u16 + 0xFF00;
                self.write(addr, self.cpu.registers.a);
                3
            },
            Opcode::LDIOCA => {
                let addr = self.cpu.registers.c as u16 + 0xFF00;
                self.write(addr, self.cpu.registers.a);
                2
            },
            Opcode::LDAIO => {
                let addr = self.fetch() as u16 + 0xFF00;
                self.cpu.registers.a = self.read(addr);
                3
            },
            Opcode::LDAIOC => {
                let addr = self.cpu.registers.c as u16 + 0xFF00;
                self.cpu.registers.a = self.read(addr);
                2
            },
            _ => 1,
        }
    }

    /// Executes an instruction on a single bit.
    fn execute_bits(&mut self, opcode: Opcode) -> (m_cycles: u8)
        requires
            opcode.wf(),
        ensures
            (final(self)@, m_cycles) == old(self)@.step_bits(opcode),
    {
        match opcode {
            Opcode::BIT(bit, register) => {
                let value = self.cpu.read_register(register);
                Gameboy::do_bit(bit, value, &mut self.cpu.registers.flags);
                2
            },
            Opcode::BITHL(bit) => {
                let value = self.read(self.cpu.registers.hl());
                Gameboy::do_bit(bit, value, &mut self.cpu.registers.flags);
                2
            },
            Opcode::RES(bit, register) => {
                let res = Gameboy::do_res(bit, self.cpu.read_register(register));
                self.cpu.write_register(register, res);
                2
            },
            Opcode::RESHL(bit) => {
                let res = Gameboy::do_res(bit, self.read(self.cpu.registers.hl()));
                self.write(self.cpu.registers.hl(), res);
                4
            },
            Opcode::SET(bit, register) => {
                let res = Gameboy::do_set(bit, self.cpu.read_register(register));
                self.cpu.write_register(register, res);
                2
            },
            Opcode::SETHL(bit) => {
                let res = Gameboy::do_set(bit, self.read(self.cpu.registers.hl()));
                self.write(self.cpu.registers.hl(), res);
                4
            },
            _ => 1,
        }
    }

    /// Executes a jump, a call, a return, a stack instruction or one that
    /// switches a latch of the processor.
    fn execute_control(&mut self, opcode: Opcode) -> (m_cycles: u8)
        ensures
            (final(self)@, m_cycles) == old(self)@.step_control(opcode),
    {
        match opcode {
            Opcode::CALL => self.call_op(None),
            Opcode::CALLCC(condition) => self.call_op(Some((condition, true))),
            Opcode::CALLNCC(condition) => self.call_op(Some((condition, false))),
            Opcode::CB => 1,
            Opcode::DI => {
                self.cpu.ime = false;
                1
            },
            Opcode::EI => {
                self.cpu.ime = true;
                1
            },
            Opcode::HALT => {
                self.cpu.halted = true;
                1
            },
            Opcode::JP => self.jump_op(None),
            Opcode::JPCC(condition) => self.jump_op(Some((condition, true))),
            Opcode::JPNCC(condition) => self.jump_op(Some((condition, false))),
            Opcode::JPHL => {
                self.cpu.pc = self.cpu.registers.hl();
                1
            },
            Opcode::JR => self.jump_relative_op(None),
            Opcode::JRCC(condition) => self.jump_relative_op(Some((condition, true))),
            Opcode::JRNCC(condition) => self.jump_relative_op(Some((condition, false))),
            Opcode::NOP => 1,
            Opcode::POPWR(wide_register) => {
                let val = self.stack_pop_word();
                self.cpu.write_wide_register(wide_register, val);
                3
            },
            Opcode::PUSHWR(wide_register) => {
                let val = self.cpu.read_wide_register(wide_register);
                self.stack_push_word(val);
                4
            },
            Opcode::RET => self.ret_op(None),
            Opcode::RETCC(condition) => self.ret_op(Some((condition, true))),
            Opcode::RETNCC(condition) => self.ret_op(Some((condition, false))),
            Opcode::RETI => {
                self.cpu.ime = true;
                self.ret_op(None)
            },
            Opcode::RST(vector) => {
                self.rst(vector);
                4
            },
            // No other speed to switch to: the processor waits as after HALT.
            Opcode::STOP => {
                self.cpu.halted = true;
                1
            },
            _ => 1,
        }
    }

    /// Executes an instruction of either table whose opcode was fetched.
    fn execute_plain(&mut self, opcode: Opcode) -> (m_cycles: u8)
        requires
            opcode.wf(),
        ensures
            (final(self)@, m_cycles) == old(self)@.step_plain(opcode),
    {
        match opcode {
            Opcode::ADC(r) => self.alu_op(AluOp::Adc, Source::Register(r)),
            Opcode::ADCHL => self.alu_op(AluOp::Adc, Source::AtHL),
            Opcode::ADCI => self.alu_op(AluOp::Adc, Source::Immediate),
            Opcode::ADD(r) => self.alu_op(AluOp::Add, Source::Register(r)),
            Opcode::ADDHL => self.alu_op(AluOp::Add, Source::AtHL),
            Opcode::ADDI => self.alu_op(AluOp::Add, Source::Immediate),
            Opcode::AND(r) => self.alu_op(AluOp::And, Source::Register(r)),
            Opcode::ANDHL => self.alu_op(AluOp::And, Source::AtHL),
            Opcode::ANDI => self.alu_op(AluOp::And, Source::Immediate),
            Opcode::CP(r) => self.alu_op(AluOp::Cp, Source::Register(r)),
            Opcode::CPHL => self.alu_op(AluOp::Cp, Source::AtHL),
            Opcode::CPI => self.alu_op(AluOp::Cp, Source::Immediate),
            Opcode::OR(r) => self.alu_op(AluOp::Or, Source::Register(r)),
            Opcode::ORHL => self.alu_op(AluOp::Or, Source::AtHL),
            Opcode::ORI => self.alu_op(AluOp::Or, Source::Immediate),
            Opcode::SBC(r) => self.alu_op(AluOp::Sbc, Source::Register(r)),
            Opcode::SBCHL => self.alu_op(AluOp::Sbc, Source::AtHL),
            Opcode::SBCI => self.alu_op(AluOp::Sbc, Source::Immediate),
            Opcode::SUB(r) => self.alu_op(AluOp::Sub, Source::Register(r)),
            Opcode::SUBHL => self.alu_op(AluOp::Sub, Source::AtHL),
            Opcode::SUBI => self.alu_op(AluOp::Sub, Source::Immediate),
            Opcode::XOR(r) => self.alu_op(AluOp::Xor, Source::Register(r)),
            Opcode::XORHL => self.alu_op(AluOp::Xor, Source::AtHL),
            Opcode::XORI => self.alu_op(AluOp::Xor, Source::Immediate),
            Opcode::RL(r) => self.shift_op(ShiftOp::Rl, Some(r)),
            Opcode::RLHL => self.shift_op(ShiftOp::Rl, None),
            Opcode::RLA => self.shift_a_op(ShiftOp::Rl),
            Opcode::RLC(r) => self.shift_op(ShiftOp::Rlc, Some(r)),
            Opcode::RLCHL => self.shift_op(ShiftOp::Rlc, None),
            Opcode::RLCA => self.shift_a_op(ShiftOp::Rlc),
            Opcode::RR(r) => self.shift_op(ShiftOp::Rr, Some(r)),
            Opcode::RRHL => self.shift_op(ShiftOp::Rr, None),
            Opcode::RRA => self.shift_a_op(ShiftOp::Rr),
            Opcode::RRC(r) => self.shift_op(ShiftOp::Rrc, Some(r)),
            Opcode::RRCHL => self.shift_op(ShiftOp::Rrc, None),
            Opcode::RRCA => self.shift_a_op(ShiftOp::Rrc),
            Opcode::SLA(r) => self.shift_op(ShiftOp::Sla, Some(r)),
            Opcode::SLAHL => self.shift_op(ShiftOp::Sla, None),
            Opcode::SRA(r) => self.shift_op(ShiftOp::Sra, Some(r)),
            Opcode::SRAHL => self.shift_op(ShiftOp::Sra, None),
            Opcode::SRL(r) => self.shift_op(ShiftOp::Srl, Some(r)),
            Opcode::SRLHL => self.shift_op(ShiftOp::Srl, None),
            Opcode::SWAP(r) => self.shift_op(ShiftOp::Swap, Some(r)),
            Opcode::SWAPHL => self.shift_op(ShiftOp::Swap, None),
            Opcode::ADDHLR(_) | Opcode::ADDSP | Opcode::CCF | Opcode::CPL | Opcode::DAA
            | Opcode::DEC(_) | Opcode::DECHL | Opcode::DECW(_) | Opcode::INC(_) | Opcode::INCHL
            | Opcode::INCW(_) | Opcode::SCF => self.execute_arith(opcode),
            Opcode::LDRR(_, _) | Opcode::LDRI(_) | Opcode::LDWRI(_) | Opcode::LDHLR(_)
            | Opcode::LDHLI | Opcode::LDRHL(_) | Opcode::LDWRA(_) | Opcode::LDIWA
            | Opcode::LDAWR(_) | Opcode::LDAIW | Opcode::LDHLIA | Opcode::LDHLDA
            | Opcode::LDAHLD | Opcode::LDAHLI | Opcode::LDISP | Opcode::LDHLSP | Opcode::LDSPHL
            | Opcode::LDIOA | Opcode::LDIOCA | Opcode::LDAIO | Opcode::LDAIOC => self.execute_load(opcode),
            Opcode::CALL | Opcode::CALLCC(_) | Opcode::CALLNCC(_) | Opcode::CB | Opcode::DI
            | Opcode::EI | Opcode::HALT | Opcode::JP | Opcode::JPCC(_) | Opcode::JPNCC(_)
            | Opcode::JPHL | Opcode::JR | Opcode::JRCC(_) | Opcode::JRNCC(_) | Opcode::NOP
            | Opcode::POPWR(_) | Opcode::PUSHWR(_) | Opcode::RET | Opcode::RETCC(_)
            | Opcode::RETNCC(_) | Opcode::RETI | Opcode::RST(_) | Opcode::STOP => self.execute_control(opcode),
            Opcode::BIT(_, _) | Opcode::BITHL(_) | Opcode::RES(_, _) | Opcode::RESHL(_)
            | Opcode::SET(_, _) | Opcode::SETHL(_) => self.execute_bits(opcode),
        }
    }

    /// Executes an instruction whose opcode was fetched from the first
    /// table, and returns the machine cycles that it took.
    pub fn execute_opcode(&mut self, opcode: Opcode) -> (m_cycles: u8)
        requires
            opcode.wf(),
        ensures
            (final(self)@, m_cycles) == old(self)@.step_opcode(opcode),
            old(self)@.wf() ==> final(self)@.wf(),
    {
        proof {
            if self@.wf() {
                self@.lemma_step_opcode_wf(opcode);
            }
        }
        match opcode {
            Opcode::CB => {
                let op = self.fetch();
                let inner = Opcode::decode_prefixed(op);
                self.execute_plain(inner)
            },
            _ => self.execute_plain(opcode),
        }
    }
}

} // verus!
