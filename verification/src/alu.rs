//! The arithmetic and logic primitives of the SM83 and what each does to the
//! flags.

use crate::bits::{lemma_low_nibble, lemma_low_twelve, lemma_shift_byte};
use crate::cpu::{CpuFlags, Flag};
use crate::gameboy::Gameboy;
use vstd::prelude::*;

verus! {

/// 1 for a set carry, 0 for a clear one.
pub open spec fn carry_in(carry: bool) -> int {
    if carry {
        1
    } else {
        0
    }
}

/// `a + b + carry` on bytes. H is the carry out of bit 3, C the carry out of
/// bit 7.
pub open spec fn add8(a: u8, b: u8, carry: bool) -> (u8, CpuFlags) {
    let sum = a + b + carry_in(carry);
    (
        (sum % 256) as u8,
        CpuFlags {
            z: sum % 256 == 0,
            n: false,
            h: a % 16 + b % 16 + carry_in(carry) > 15,
            c: sum > 255,
        },
    )
}

/// `a - b - borrow` on bytes. H is the borrow into bit 4, C the borrow into
/// bit 8.
pub open spec fn sub8(a: u8, b: u8, borrow: bool) -> (u8, CpuFlags) {
    let diff = a - b - carry_in(borrow);
    (
        (diff % 256) as u8,
        CpuFlags {
            z: diff % 256 == 0,
            n: true,
            h: a % 16 < b % 16 + carry_in(borrow),
            c: a < b + carry_in(borrow),
        },
    )
}

/// `lhs + rhs` on 16-bit values. H is the carry out of bit 11, C the carry
/// out of bit 15; Z is kept.
pub open spec fn add16(lhs: u16, rhs: u16, flags: CpuFlags) -> (u16, CpuFlags) {
    (
        ((lhs + rhs) % 65536) as u16,
        CpuFlags { z: flags.z, n: false, h: lhs % 4096 + rhs % 4096 > 4095, c: lhs + rhs > 65535 },
    )
}

/// The signed value of a displacement byte.
pub open spec fn signed(e: u8) -> int {
    if e < 128 {
        e as int
    } else {
        e - 256
    }
}

/// A 16-bit value moved by a signed displacement, modulo 65536.
pub open spec fn offset16(base: u16, e: u8) -> u16 {
    ((base + signed(e)) % 65536) as u16
}

/// `lhs + e` for a signed displacement byte. H and C are the carries out of
/// bit 3 and bit 7 of the sum of the low byte of `lhs` and the byte `e` taken
/// as unsigned.
pub open spec fn add_signed(lhs: u16, e: u8) -> (u16, CpuFlags) {
    (
        offset16(lhs, e),
        CpuFlags { z: false, n: false, h: lhs % 16 + e % 16 > 15, c: lhs % 256 + e > 255 },
    )
}

/// A byte and the flags after an increment. H is the carry out of bit 3; C is kept.
pub open spec fn inc8(value: u8, flags: CpuFlags) -> (u8, CpuFlags) {
    let res = (value + 1) % 256;
    (res as u8, CpuFlags { z: res == 0, n: false, h: value % 16 == 15, c: flags.c })
}

/// A byte and the flags after a decrement. H is the borrow into bit 4; C is kept.
pub open spec fn dec8(value: u8, flags: CpuFlags) -> (u8, CpuFlags) {
    let res = (value - 1) % 256;
    (res as u8, CpuFlags { z: res == 0, n: true, h: value % 16 == 0, c: flags.c })
}

/// The bitwise AND of two bytes and its flags.
pub open spec fn and8(a: u8, b: u8) -> (u8, CpuFlags) {
    (a & b, CpuFlags { z: a & b == 0, n: false, h: true, c: false })
}

/// The bitwise OR of two bytes and its flags.
pub open spec fn or8(a: u8, b: u8) -> (u8, CpuFlags) {
    (a | b, CpuFlags { z: a | b == 0, n: false, h: false, c: false })
}

/// The bitwise XOR of two bytes and its flags.
pub open spec fn xor8(a: u8, b: u8) -> (u8, CpuFlags) {
    (a ^ b, CpuFlags { z: a ^ b == 0, n: false, h: false, c: false })
}

/// The flags after testing bit `bit` of `value`: Z is set when the bit is
/// clear.
pub open spec fn bit_test(bit: u8, value: u8, flags: CpuFlags) -> CpuFlags {
    CpuFlags { z: value & (1u8 << bit) == 0, n: false, h: true, c: flags.c }
}

/// A byte with bit `bit` cleared.
pub open spec fn res_bit(bit: u8, value: u8) -> u8 {
    value & !(1u8 << bit)
}

/// A byte with bit `bit` set.
pub open spec fn set_bit(bit: u8, value: u8) -> u8 {
    value | (1u8 << bit)
}

/// The flags that every rotation and shift leaves: Z from the result, C from
/// the bit that left the byte.
pub open spec fn shifted(res: int, out: bool) -> (u8, CpuFlags) {
    (res as u8, CpuFlags { z: res == 0, n: false, h: false, c: out })
}

/// Rotate left through carry.
pub open spec fn rl8(value: u8, flags: CpuFlags) -> (u8, CpuFlags) {
    shifted((value % 128) * 2 + carry_in(flags.c), value >= 128)
}

/// Rotate left; bit 7 goes to bit 0 and to C.
pub open spec fn rlc8(value: u8) -> (u8, CpuFlags) {
    shifted((value % 128) * 2 + value / 128, value >= 128)
}

/// Rotate right through carry.
pub open spec fn rr8(value: u8, flags: CpuFlags) -> (u8, CpuFlags) {
    shifted(value / 2 + carry_in(flags.c) * 128, value % 2 == 1)
}

/// Rotate right; bit 0 goes to bit 7 and to C.
pub open spec fn rrc8(value: u8) -> (u8, CpuFlags) {
    shifted(value / 2 + (value % 2) * 128, value % 2 == 1)
}

/// Shift left; bit 0 becomes 0.
pub open spec fn sla8(value: u8) -> (u8, CpuFlags) {
    shifted((value % 128) * 2, value >= 128)
}

/// Shift right; bit 7 keeps its value.
pub open spec fn sra8(value: u8) -> (u8, CpuFlags) {
    shifted(value / 2 + (value / 128) * 128, value % 2 == 1)
}

/// Shift right; bit 7 becomes 0.
pub open spec fn srl8(value: u8) -> (u8, CpuFlags) {
    shifted(value as int / 2, value % 2 == 1)
}

/// The two nibbles of a byte exchanged.
pub open spec fn swap8(value: u8) -> (u8, CpuFlags) {
    shifted((value % 16) * 16 + value / 16, false)
}

/// The 16-bit value after `value`; it wraps from 0xFFFF to 0.
pub open spec fn inc16(value: u16) -> u16 {
    if value == 0xFFFF {
        0
    } else {
        (value + 1) as u16
    }
}

/// The 16-bit value before `value`; it wraps from 0 to 0xFFFF.
pub open spec fn dec16(value: u16) -> u16 {
    if value == 0 {
        0xFFFF
    } else {
        (value - 1) as u16
    }
}

/// The complement of a byte.
pub open spec fn complement(value: u8) -> u8 {
    (255 - value) as u8
}

/// The decimal adjustment of A. After an addition (N clear) 0x60 is added
/// when C is set or A is above 0x99, which also sets C, and then 0x06 when H
/// is set or the low nibble is above 9. After a subtraction (N set) 0x60 is
/// taken off when C is set and 0x06 when H is set. N is kept, H is cleared.
pub open spec fn daa8(value: u8, flags: CpuFlags) -> (u8, CpuFlags) {
    if !flags.n {
        let high = flags.c || value > 0x99;
        let v1 = if high {
            (value + 0x60) % 256
        } else {
            value as int
        };
        let v2 = if flags.h || v1 % 16 > 9 {
            (v1 + 0x06) % 256
        } else {
            v1
        };
        (v2 as u8, CpuFlags { z: v2 == 0, n: false, h: false, c: high })
    } else {
        let v1 = if flags.c {
            (value - 0x60) % 256
        } else {
            value as int
        };
        let v2 = if flags.h {
            (v1 - 0x06) % 256
        } else {
            v1
        };
        (v2 as u8, CpuFlags { z: v2 == 0, n: true, h: false, c: flags.c })
    }
}

impl Gameboy {
    /// Adds `rhs`, and the carry flag if `with_carry`, to `lhs`.
    pub fn do_add(lhs: u8, rhs: u8, with_carry: bool, flags: &mut CpuFlags) -> (res: u8)
        ensures
            (res, *final(flags)) == add8(lhs, rhs, with_carry && old(flags).c),
    {
        let c: u8 = if with_carry && flags.contains(Flag::C) { 1 } else { 0 };
        let res = lhs.wrapping_add(rhs).wrapping_add(c);
        proof {
            lemma_low_nibble(lhs);
            lemma_low_nibble(rhs);
        }
        flags.set(Flag::Z, res == 0);
        flags.set(Flag::N, false);
        flags.set(Flag::H, (lhs & 0xF) + (rhs & 0xF) + c > 0xF);
        flags.set(Flag::C, (lhs as u16) + (rhs as u16) + (c as u16) > 0xFF);
        res
    }

    /// Adds two 16-bit values.
    pub fn do_add_16(lhs: u16, rhs: u16, flags: &mut CpuFlags) -> (res: u16)
        ensures
            (res, *final(flags)) == add16(lhs, rhs, *old(flags)),
    {
        let res = lhs.wrapping_add(rhs);
        proof {
            lemma_low_twelve(lhs);
            lemma_low_twelve(rhs);
        }
        flags.set(Flag::H, ((lhs & 0x0FFF) + (rhs & 0x0FFF)) > 0x0FFF);
        flags.set(Flag::C, lhs > 0xFFFF - rhs);
        flags.set(Flag::N, false);
        res
    }

    /// Adds a signed displacement byte to a 16-bit value.
    pub fn do_signed_add(lhs: u16, rhs: u8, flags: &mut CpuFlags) -> (res: u16)
        ensures
            (res, *final(flags)) == add_signed(lhs, rhs),
    {
        let wide: u16 = if rhs < 128 { rhs as u16 } else { 0xFF00 + rhs as u16 };
        let res = lhs.wrapping_add(wide);
        proof {
            lemma_low_twelve(lhs);
            lemma_low_nibble(rhs);
            let t = lhs + signed(rhs);
            if t < 0 {
                assert(t % 65536 == t + 65536);
            } else if t >= 65536 {
                assert(t % 65536 == t - 65536);
            } else {
                assert(t % 65536 == t);
            }
        }
        flags.set(Flag::Z, false);
        flags.set(Flag::N, false);
        flags.set(Flag::H, (lhs & 0x000F) + ((rhs & 0x0F) as u16) > 0x000F);
        flags.set(Flag::C, (lhs & 0x00FF) + (rhs as u16) > 0x00FF);
        res
    }

    /// ANDs two bytes.
    pub fn do_and(lhs: u8, rhs: u8, flags: &mut CpuFlags) -> (res: u8)
        ensures
            (res, *final(flags)) == and8(lhs, rhs),
    {
        let res = lhs & rhs;
        flags.set(Flag::Z, res == 0);
        flags.set(Flag::N, false);
        flags.set(Flag::H, true);
        flags.set(Flag::C, false);
        res
    }

    /// Tests bit `bit` of a byte.
    pub fn do_bit(bit: u8, value: u8, flags: &mut CpuFlags)
        requires
            bit < 8,
        ensures
            *final(flags) == bit_test(bit, value, *old(flags)),
    {
        let res = value & (1u8 << bit);
        flags.set(Flag::Z, res == 0);
        flags.set(Flag::N, false);
        flags.set(Flag::H, true);
    }

    /// Decrements a byte.
    pub fn do_dec(value: u8, flags: &mut CpuFlags) -> (res: u8)
        ensures
            (res, *final(flags)) == dec8(value, *old(flags)),
    {
        let res = value.wrapping_sub(1);
        proof {
            lemma_low_nibble(value);
        }
        flags.set(Flag::Z, res == 0);
        flags.set(Flag::H, (value & 0x0F) == 0);
        flags.set(Flag::N, true);
        res
    }

    /// Decrements a 16-bit value; it wraps from 0 to 0xFFFF.
    pub fn do_dec_16(value: u16) -> (res: u16)
        ensures
            res == dec16(value),
    {
        value.wrapping_sub(1)
    }

    /// Increments a byte.
    pub fn do_inc(value: u8, flags: &mut CpuFlags) -> (res: u8)
        ensures
            (res, *final(flags)) == inc8(value, *old(flags)),
    {
        let res = value.wrapping_add(1);
        proof {
            lemma_low_nibble(value);
        }
        flags.set(Flag::Z, res == 0);
        flags.set(Flag::H, (value & 0x0F) + 1 > 0x0F);
        flags.set(Flag::N, false);
        res
    }

    /// Increments a 16-bit value; it wraps from 0xFFFF to 0.
    pub fn do_inc_16(value: u16) -> (res: u16)
        ensures
            res == inc16(value),
    {
        value.wrapping_add(1)
    }

    /// ORs two bytes.
    pub fn do_or(lhs: u8, rhs: u8, flags: &mut CpuFlags) -> (res: u8)
        ensures
            (res, *final(flags)) == or8(lhs, rhs),
    {
        let res = lhs | rhs;
        flags.set(Flag::Z, res == 0);
        flags.remove(Flag::N);
        flags.remove(Flag::H);
        flags.remove(Flag::C);
        res
    }

    /// Clears bit `bit` of a byte.
    pub fn do_res(bit: u8, value: u8) -> (res: u8)
        requires
            bit < 8,
        ensures
            res == res_bit(bit, value),
    {
        value & !(1u8 << bit)
    }

    /// Rotates a byte left through the carry.
    pub fn do_rl(value: u8, flags: &mut CpuFlags) -> (res: u8)
        ensures
            (res, *final(flags)) == rl8(value, *old(flags)),
    {
        let old_carry: u8 = if flags.contains(Flag::C) { 1 } else { 0 };
        let res = (value << 1) | old_carry;
        proof {
            lemma_shift_byte(value);
        }
        flags.set(Flag::Z, res == 0);
        flags.set(Flag::C, value & 0x80 == 0x80);
        flags.remove(Flag::N);
        flags.remove(Flag::H);
        res
    }

    /// Rotates a byte left.
    pub fn do_rlc(value: u8, flags: &mut CpuFlags) -> (res: u8)
        ensures
            (res, *final(flags)) == rlc8(value),
    {
        let res = (value << 1) | (value >> 7);
        proof {
            lemma_shift_byte(value);
        }
        flags.set(Flag::Z, res == 0);
        flags.set(Flag::C, value & 0x80 == 0x80);
        flags.remove(Flag::N);
        flags.remove(Flag::H);
        res
    }

    /// Rotates a byte right through the carry.
    pub fn do_rr(value: u8, flags: &mut CpuFlags) -> (res: u8)
        ensures
            (res, *final(flags)) == rr8(value, *old(flags)),
    {
        let old_carry: u8 = if flags.contains(Flag::C) { 0x80 } else { 0 };
        let res = (value >> 1) | old_carry;
        proof {
            lemma_shift_byte(value);
        }
        flags.set(Flag::Z, res == 0);
        flags.set(Flag::C, value & 0x01 == 0x01);
        flags.remove(Flag::N);
        flags.remove(Flag::H);
        res
    }

    /// Rotates a byte right.
    pub fn do_rrc(value: u8, flags: &mut CpuFlags) -> (res: u8)
        ensures
            (res, *final(flags)) == rrc8(value),
    {
        let res = (value >> 1) | (value << 7);
        proof {
            lemma_shift_byte(value);
        }
        flags.set(Flag::Z, res == 0);
        flags.set(Flag::C, value & 0x01 == 0x01);
        flags.remove(Flag::N);
        flags.remove(Flag::H);
        res
    }

    /// Subtracts `rhs`, and the carry flag if `with_carry`, from `lhs`.
    pub fn do_sub(lhs: u8, rhs: u8, with_carry: bool, flags: &mut CpuFlags) -> (res: u8)
        ensures
            (res, *final(flags)) == sub8(lhs, rhs, with_carry && old(flags).c),
    {
        let c: u8 = if with_carry && flags.contains(Flag::C) { 1 } else { 0 };
        let res = lhs.wrapping_sub(rhs).wrapping_sub(c);
        proof {
            lemma_low_nibble(lhs);
            lemma_low_nibble(rhs);
        }
        flags.set(Flag::Z, res == 0);
        flags.set(Flag::N, true);
        flags.set(Flag::H, (lhs & 0x0F) < (rhs & 0x0F) + c);
        flags.set(Flag::C, (lhs as u16) < (rhs as u16) + (c as u16));
        res
    }

    /// Sets bit `bit` of a byte.
    pub fn do_set(bit: u8, value: u8) -> (res: u8)
        requires
            bit < 8,
        ensures
            res == set_bit(bit, value),
    {
        value | (1u8 << bit)
    }

    /// Shifts a byte left.
    pub fn do_sla(value: u8, flags: &mut CpuFlags) -> (res: u8)
        ensures
            (res, *final(flags)) == sla8(value),
    {
        let res = value << 1;
        proof {
            lemma_shift_byte(value);
        }
        flags.set(Flag::Z, res == 0);
        flags.set(Flag::C, value & 0x80 == 0x80);
        flags.remove(Flag::N);
        flags.remove(Flag::H);
        res
    }

    /// Shifts a byte right, keeping bit 7.
    pub fn do_sra(value: u8, flags: &mut CpuFlags) -> (res: u8)
        ensures
            (res, *final(flags)) == sra8(value),
    {
        let res = (value >> 1) | (value & 0x80);
        proof {
            lemma_shift_byte(value);
        }
        flags.set(Flag::Z, res == 0);
        flags.set(Flag::C, value & 0x01 == 0x01);
        flags.remove(Flag::N);
        flags.remove(Flag::H);
        res
    }

    /// Shifts a byte right.
    pub fn do_srl(value: u8, flags: &mut CpuFlags) -> (res: u8)
        ensures
            (res, *final(flags)) == srl8(value),
    {
        let res = value >> 1;
        proof {
            lemma_shift_byte(value);
        }
        flags.set(Flag::Z, res == 0);
        flags.set(Flag::C, value & 0x01 == 0x01);
        flags.remove(Flag::N);
        flags.remove(Flag::H);
        res
    }

    /// Exchanges the nibbles of a byte.
    pub fn do_swap(value: u8, flags: &mut CpuFlags) -> (res: u8)
        ensures
            (res, *final(flags)) == swap8(value),
    {
        let res = (value << 4) | (value >> 4);
        proof {
            lemma_shift_byte(value);
        }
        flags.set(Flag::Z, res == 0);
        flags.remove(Flag::N);
        flags.remove(Flag::H);
        flags.remove(Flag::C);
        res
    }

    /// XORs two bytes.
    pub fn do_xor(lhs: u8, rhs: u8, flags: &mut CpuFlags) -> (res: u8)
        ensures
            (res, *final(flags)) == xor8(lhs, rhs),
    {
        let res = lhs ^ rhs;
        flags.set(Flag::Z, res == 0);
        flags.remove(Flag::N);
        flags.remove(Flag::H);
        flags.remove(Flag::C);
        res
    }

    /// Adjusts A to packed decimal after an addition or a subtraction.
    pub fn do_daa(value: u8, flags: &mut CpuFlags) -> (res: u8)
        ensures
            (res, *final(flags)) == daa8(value, *old(flags)),
    {
        let mut res = value;
        if !flags.contains(Flag::N) {
            if flags.contains(Flag::C) || (res > 0x99) {
                res = res.wrapping_add(0x60);
                flags.insert(Flag::C);
            }
            let ghost v1 = res;
            assert(v1 as int == if old(flags).c || value > 0x99 {
                (value + 0x60) % 256
            } else {
                value as int
            });
            proof {
                lemma_low_nibble(res);
            }
            if flags.contains(Flag::H) || ((res & 0x0f) > 0x09) {
                res = res.wrapping_add(0x06);
            }
            assert(res as int == if old(flags).h || v1 % 16 > 9 {
                (v1 + 0x06) % 256
            } else {
                v1 as int
            });
        } else {
            if flags.contains(Flag::C) {
                res = res.wrapping_sub(0x60);
            }
            let ghost v1 = res;
            assert(v1 as int == if old(flags).c {
                (value - 0x60) % 256
            } else {
                value as int
            });
            if flags.contains(Flag::H) {
                res = res.wrapping_sub(0x06);
            }
            assert(res as int == if old(flags).h {
                (v1 - 0x06) % 256
            } else {
                v1 as int
            });
        }
        flags.set(Flag::Z, res == 0);
        flags.remove(Flag::H);
        res
    }
}

} // verus!
