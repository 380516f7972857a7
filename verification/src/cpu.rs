//! The SM83 register file: eight 8-bit registers, the four condition flags,
//! the stack pointer, the program counter and the two control latches.

use vstd::prelude::*;

verus! {

/// One of the four condition flags that live in the high nibble of F.
#[derive(Clone, Copy, Debug, PartialEq, Eq)]
pub enum Flag {
    /// Zero, bit 7 of F.
    Z,
    /// Subtract, bit 6 of F.
    N,
    /// Half carry, bit 5 of F.
    H,
    /// Carry, bit 4 of F.
    C,
}

/// The flag register F, held as its four flags. The low nibble of F has no
/// storage, so it reads as zero whatever was written.
#[derive(Clone, Copy, Debug, PartialEq, Eq)]
pub struct CpuFlags {
    pub z: bool,
    pub n: bool,
    pub h: bool,
    pub c: bool,
}

impl CpuFlags {
    /// The value of one flag.
    pub open spec fn get(self, flag: Flag) -> bool {
        match flag {
            Flag::Z => self.z,
            Flag::N => self.n,
            Flag::H => self.h,
            Flag::C => self.c,
        }
    }

    /// The flags with one of them replaced.
    pub open spec fn with(self, flag: Flag, on: bool) -> CpuFlags {
        match flag {
            Flag::Z => CpuFlags { z: on, ..self },
            Flag::N => CpuFlags { n: on, ..self },
            Flag::H => CpuFlags { h: on, ..self },
            Flag::C => CpuFlags { c: on, ..self },
        }
    }

    /// The byte that F reads as: Z is worth 128, N 64, H 32 and C 16.
    pub open spec fn to_bits(self) -> u8 {
        ((if self.z { 128int } else { 0 }) + (if self.n { 64int } else { 0 }) + (if self.h {
            32int
        } else {
            0
        }) + (if self.c { 16int } else { 0 })) as u8
    }

    /// The flags that a byte written to F leaves behind: bits 7 to 4, the low
    /// nibble being dropped.
    pub open spec fn of_bits(bits: u8) -> CpuFlags {
        CpuFlags {
            z: bits >= 128,
            n: bits % 128 >= 64,
            h: bits % 64 >= 32,
            c: bits % 32 >= 16,
        }
    }

    /// Reading F back after a write yields the written flags.
    pub proof fn lemma_bits_round_trip(self)
        ensures
            CpuFlags::of_bits(self.to_bits()) == self,
            self.to_bits() % 16 == 0,
    {
    }

    /// Writing a byte to F and reading it back keeps the high nibble and
    /// clears the low one.
    pub proof fn lemma_of_bits_to_bits(bits: u8)
        ensures
            CpuFlags::of_bits(bits).to_bits() == bits - bits % 16,
    {
        let b = bits as int;
        let b1 = b % 128;
        let b2 = b % 64;
        let b3 = b % 32;
        assert(b1 == if b >= 128 { b - 128 } else { b });
        assert(b2 == if b1 >= 64 { b1 - 64 } else { b1 });
        assert(b3 == if b2 >= 32 { b2 - 32 } else { b2 });
        assert(b % 16 == if b3 >= 16 { b3 - 16 } else { b3 });
    }

    /// Whether a flag is set.
    pub fn contains(&self, flag: Flag) -> (r: bool)
        ensures
            r == self.get(flag),
    {
        match flag {
            Flag::Z => self.z,
            Flag::N => self.n,
            Flag::H => self.h,
            Flag::C => self.c,
        }
    }

    /// Sets or clears a flag.
    pub fn set(&mut self, flag: Flag, on: bool)
        ensures
            *final(self) == old(self).with(flag, on),
    {
        match flag {
            Flag::Z => self.z = on,
            Flag::N => self.n = on,
            Flag::H => self.h = on,
            Flag::C => self.c = on,
        }
    }

    /// Sets a flag.
    pub fn insert(&mut self, flag: Flag)
        ensures
            *final(self) == old(self).with(flag, true),
    {
        self.set(flag, true);
    }

    /// Clears a flag.
    pub fn remove(&mut self, flag: Flag)
        ensures
            *final(self) == old(self).with(flag, false),
    {
        self.set(flag, false);
    }

    /// F as a byte. Its low nibble is always zero.
    pub fn bits(&self) -> (r: u8)
        ensures
            r == self.to_bits(),
            r & 0x0F == 0,
    {
        let z: u8 = if self.z { 0x80 } else { 0 };
        let n: u8 = if self.n { 0x40 } else { 0 };
        let h: u8 = if self.h { 0x20 } else { 0 };
        let c: u8 = if self.c { 0x10 } else { 0 };
        let r: u8 = z + n + h + c;
        proof {
            crate::bits::lemma_low_nibble(r);
        }
        r
    }

    /// The flags held by a byte; its low nibble is ignored.
    pub fn from_bits(bits: u8) -> (r: Self)
        ensures
            r == CpuFlags::of_bits(bits),
    {
        CpuFlags { z: bits >= 128, n: bits % 128 >= 64, h: bits % 64 >= 32, c: bits % 32 >= 16 }
    }
}

/// The names of the 8-bit registers.
#[derive(Clone, Copy, Debug, PartialEq, Eq)]
pub enum Register {
    A,
    B,
    C,
    D,
    E,
    H,
    L,
    F,
}

/// The names of the 16-bit registers and register pairs.
#[derive(Clone, Copy, Debug, PartialEq, Eq)]
pub enum WideRegister {
    BC,
    DE,
    HL,
    AF,
    SP,
    PC,
}

/// The 16-bit value of a register pair: the first register is the high byte.
pub open spec fn pair(hi: u8, lo: u8) -> u16 {
    (hi as int * 256 + lo as int) as u16
}

/// The high byte of a 16-bit value.
pub open spec fn high_byte(value: u16) -> u8 {
    (value / 256) as u8
}

/// The low byte of a 16-bit value.
pub open spec fn low_byte(value: u16) -> u8 {
    (value % 256) as u8
}

/// Splitting a 16-bit value and pairing the halves gives the value back, and
/// the other way round.
pub proof fn lemma_pair_split(value: u16, hi: u8, lo: u8)
    ensures
        pair(high_byte(value), low_byte(value)) == value,
        high_byte(pair(hi, lo)) == hi,
        low_byte(pair(hi, lo)) == lo,
{
}

fn join(hi: u8, lo: u8) -> (r: u16)
    ensures
        r == pair(hi, lo),
{
    (hi as u16) * 256 + (lo as u16)
}

fn upper(value: u16) -> (r: u8)
    ensures
        r == high_byte(value),
{
    (value / 256) as u8
}

fn lower(value: u16) -> (r: u8)
    ensures
        r == low_byte(value),
{
    (value % 256) as u8
}

/// The eight 8-bit registers.
#[derive(Clone, Copy, Debug, PartialEq, Eq)]
pub struct CpuRegisters {
    pub a: u8,
    pub flags: CpuFlags,
    pub b: u8,
    pub c: u8,
    pub d: u8,
    pub e: u8,
    pub h: u8,
    pub l: u8,
}

impl CpuRegisters {
    /// The pair AF.
    pub open spec fn spec_af(&self) -> u16 {
        pair(self.a, self.flags.to_bits())
    }

    /// The pair BC.
    pub open spec fn spec_bc(&self) -> u16 {
        pair(self.b, self.c)
    }

    /// The pair DE.
    pub open spec fn spec_de(&self) -> u16 {
        pair(self.d, self.e)
    }

    /// The pair HL.
    pub open spec fn spec_hl(&self) -> u16 {
        pair(self.h, self.l)
    }

    /// The registers with AF replaced; the low nibble of the value is dropped.
    pub open spec fn with_af(self, value: u16) -> CpuRegisters {
        CpuRegisters { a: high_byte(value), flags: CpuFlags::of_bits(low_byte(value)), ..self }
    }

    /// The registers with BC replaced.
    pub open spec fn with_bc(self, value: u16) -> CpuRegisters {
        CpuRegisters { b: high_byte(value), c: low_byte(value), ..self }
    }

    /// The registers with DE replaced.
    pub open spec fn with_de(self, value: u16) -> CpuRegisters {
        CpuRegisters { d: high_byte(value), e: low_byte(value), ..self }
    }

    /// The registers with HL replaced.
    pub open spec fn with_hl(self, value: u16) -> CpuRegisters {
        CpuRegisters { h: high_byte(value), l: low_byte(value), ..self }
    }

    /// The pair AF.
    #[verifier::when_used_as_spec(spec_af)]
    pub fn af(&self) -> (r: u16)
        ensures
            r == self.spec_af(),
    {
        join(self.a, self.flags.bits())
    }

    /// The pair BC.
    #[verifier::when_used_as_spec(spec_bc)]
    pub fn bc(&self) -> (r: u16)
        ensures
            r == self.spec_bc(),
    {
        join(self.b, self.c)
    }

    /// The pair DE.
    #[verifier::when_used_as_spec(spec_de)]
    pub fn de(&self) -> (r: u16)
        ensures
            r == self.spec_de(),
    {
        join(self.d, self.e)
    }

    /// The pair HL.
    #[verifier::when_used_as_spec(spec_hl)]
    pub fn hl(&self) -> (r: u16)
        ensures
            r == self.spec_hl(),
    {
        join(self.h, self.l)
    }

    /// Sets B and C from a 16-bit value.
    pub fn set_bc(&mut self, value: u16)
        ensures
            *final(self) == old(self).with_bc(value),
    {
        self.b = upper(value);
        self.c = lower(value);
    }

    /// Sets D and E from a 16-bit value.
    pub fn set_de(&mut self, value: u16)
        ensures
            *final(self) == old(self).with_de(value),
    {
        self.d = upper(value);
        self.e = lower(value);
    }

    /// Sets H and L from a 16-bit value.
    pub fn set_hl(&mut self, value: u16)
        ensures
            *final(self) == old(self).with_hl(value),
    {
        self.h = upper(value);
        self.l = lower(value);
    }

    /// Sets A and F from a 16-bit value. The low nibble of the value is
    /// dropped: F has no storage for it.
    pub fn set_af(&mut self, value: u16)
        ensures
            *final(self) == old(self).with_af(value),
    {
        self.a = upper(value);
        self.flags = CpuFlags::from_bits(lower(value));
    }
}

/// The processor state: the registers, SP, PC, the interrupt master enable
/// and the halted latch.
#[derive(Clone, Copy, Debug, PartialEq, Eq)]
pub struct Cpu {
    pub registers: CpuRegisters,
    pub sp: u16,
    pub pc: u16,
    pub ime: bool,
    pub halted: bool,
}

impl Cpu {
    /// The state in which the boot ROM of the DMG leaves the
    /// processor.
    pub open spec fn power_on() -> Cpu {
        Cpu {
            registers: CpuRegisters {
                a: 0x01,
                flags: CpuFlags { z: true, n: false, h: true, c: true },
                b: 0x00,
                c: 0x13,
                d: 0x00,
                e: 0xD8,
                h: 0x01,
                l: 0x4D,
            },
            sp: 0xFFFE,
            pc: 0x0100,
            ime: false,
            halted: false,
        }
    }

    /// The value of an 8-bit register.
    pub open spec fn reg(self, register: Register) -> u8 {
        match register {
            Register::A => self.registers.a,
            Register::B => self.registers.b,
            Register::C => self.registers.c,
            Register::D => self.registers.d,
            Register::E => self.registers.e,
            Register::H => self.registers.h,
            Register::L => self.registers.l,
            Register::F => self.registers.flags.to_bits(),
        }
    }

    /// The state with an 8-bit register replaced.
    pub open spec fn with_reg(self, register: Register, val: u8) -> Cpu {
        let r = self.registers;
        let registers = match register {
            Register::A => CpuRegisters { a: val, ..r },
            Register::B => CpuRegisters { b: val, ..r },
            Register::C => CpuRegisters { c: val, ..r },
            Register::D => CpuRegisters { d: val, ..r },
            Register::E => CpuRegisters { e: val, ..r },
            Register::H => CpuRegisters { h: val, ..r },
            Register::L => CpuRegisters { l: val, ..r },
            Register::F => CpuRegisters { flags: CpuFlags::of_bits(val), ..r },
        };
        Cpu { registers, ..self }
    }

    /// The value of a 16-bit register.
    pub open spec fn wide(self, register: WideRegister) -> u16 {
        match register {
            WideRegister::BC => self.registers.spec_bc(),
            WideRegister::DE => self.registers.spec_de(),
            WideRegister::HL => self.registers.spec_hl(),
            WideRegister::AF => self.registers.spec_af(),
            WideRegister::SP => self.sp,
            WideRegister::PC => self.pc,
        }
    }

    /// The state with a 16-bit register replaced.
    pub open spec fn with_wide(self, register: WideRegister, val: u16) -> Cpu {
        match register {
            WideRegister::BC => Cpu { registers: self.registers.with_bc(val), ..self },
            WideRegister::DE => Cpu { registers: self.registers.with_de(val), ..self },
            WideRegister::HL => Cpu { registers: self.registers.with_hl(val), ..self },
            WideRegister::AF => Cpu { registers: self.registers.with_af(val), ..self },
            WideRegister::SP => Cpu { sp: val, ..self },
            WideRegister::PC => Cpu { pc: val, ..self },
        }
    }

    /// Writing a register with the value it holds changes nothing.
    pub proof fn lemma_write_back(self, r: Register, w: WideRegister)
        ensures
            self.with_reg(r, self.reg(r)) == self,
            self.with_wide(w, self.wide(w)) == self,
    {
        self.registers.flags.lemma_bits_round_trip();
        lemma_pair_split(0, self.registers.a, self.registers.flags.to_bits());
        lemma_pair_split(0, self.registers.b, self.registers.c);
        lemma_pair_split(0, self.registers.d, self.registers.e);
        lemma_pair_split(0, self.registers.h, self.registers.l);
    }

    /// A processor in its power-on state.
    pub fn new() -> (r: Self)
        ensures
            r == Cpu::power_on(),
    {
        Cpu {
            registers: CpuRegisters {
                a: 0x01,
                flags: CpuFlags { z: true, n: false, h: true, c: true },
                b: 0x00,
                c: 0x13,
                d: 0x00,
                e: 0xD8,
                h: 0x01,
                l: 0x4D,
            },
            sp: 0xFFFE,
            pc: 0x0100,
            ime: false,
            halted: false,
        }
    }

    /// Puts the processor back into its power-on state.
    pub fn init(&mut self)
        ensures
            *final(self) == Cpu::power_on(),
    {
        *self = Cpu::new();
    }

    /// Reads an 8-bit register.
    pub fn read_register(&self, register: Register) -> (r: u8)
        ensures
            r == self.reg(register),
    {
        match register {
            Register::A => self.registers.a,
            Register::B => self.registers.b,
            Register::C => self.registers.c,
            Register::D => self.registers.d,
            Register::E => self.registers.e,
            Register::H => self.registers.h,
            Register::L => self.registers.l,
            Register::F => self.registers.flags.bits(),
        }
    }

    /// Writes an 8-bit register. Of a byte written to F the high nibble is
    /// kept.
    pub fn write_register(&mut self, register: Register, val: u8)
        ensures
            *final(self) == old(self).with_reg(register, val),
    {
        match register {
            Register::A => self.registers.a = val,
            Register::B => self.registers.b = val,
            Register::C => self.registers.c = val,
            Register::D => self.registers.d = val,
            Register::E => self.registers.e = val,
            Register::H => self.registers.h = val,
            Register::L => self.registers.l = val,
            Register::F => self.registers.flags = CpuFlags::from_bits(val),
        }
    }

    /// Reads a 16-bit register.
    pub fn read_wide_register(&self, register: WideRegister) -> (r: u16)
        ensures
            r == self.wide(register),
    {
        match register {
            WideRegister::BC => self.registers.bc(),
            WideRegister::DE => self.registers.de(),
            WideRegister::HL => self.registers.hl(),
            WideRegister::AF => self.registers.af(),
            WideRegister::SP => self.sp,
            WideRegister::PC => self.pc,
        }
    }

    /// Writes a 16-bit register.
    pub fn write_wide_register(&mut self, register: WideRegister, val: u16)
        ensures
            *final(self) == old(self).with_wide(register, val),
    {
        match register {
            WideRegister::BC => self.registers.set_bc(val),
            WideRegister::DE => self.registers.set_de(val),
            WideRegister::HL => self.registers.set_hl(val),
            WideRegister::AF => self.registers.set_af(val),
            WideRegister::SP => self.sp = val,
            WideRegister::PC => self.pc = val,
        }
    }
}

impl Default for Cpu {
    fn default() -> (r: Self)
        ensures
            r == Cpu::power_on(),
    {
        Cpu::new()
    }
}

} // verus!
