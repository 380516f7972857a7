//! What holds of the machine whatever program it runs.

use crate::alu::{add8, carry_in, daa8, dec16, dec8, inc8, sub8, swap8};
use crate::bits::lemma_low_nibble;
use crate::cartridge::{CartridgeView, MbcKind};
use crate::cpu::{lemma_pair_split, Cpu, CpuFlags, Register, WideRegister};
use crate::frame::{after_rounds, run_frame, InvalidOpcode};
use crate::gameboy::GameboyView;
use crate::opcodes::Opcode;
use crate::ppu::{ly, lyc, mode_bits, stat};
use vstd::prelude::*;

verus! {

/// The low nibble of F is zero in every state of the processor.
pub proof fn law_low_nibble_of_f(s: GameboyView)
    ensures
        s.cpu.reg(Register::F) & 0x0F == 0,
        s.cpu.wide(WideRegister::AF) % 16 == 0,
{
    s.cpu.registers.flags.lemma_bits_round_trip();
    lemma_low_nibble(s.cpu.registers.flags.to_bits());
}

/// On a cartridge with a controller bank 0 is never the switchable ROM bank:
/// not when the cartridge is fresh, and not after a write of any byte at
/// any address. On an MBC1 the low five bits of the bank are never all
/// zero. So what is read at 0x4000 to 0x7FFF never comes from the first 16
/// KiB of the ROM.
pub proof fn law_rom_bank_at_least_one(c: CartridgeView, addr: u16, val: u8)
    requires
        c.wf(),
        c.kind != MbcKind::NoMbc,
    ensures
        c.rom_bank >= 1,
        c.write(addr, val).wf(),
        c.write(addr, val).kind == c.kind,
        c.write(addr, val).rom_bank >= 1,
        c.kind == MbcKind::Mbc1 ==> c.write(addr, val).rom_bank & 0x1F != 0,
        CartridgeView::fresh(c.kind, c.rom, c.ram).wf(),
        forall|at: u16|
            0x4000 <= at < 0x8000 ==> #[trigger] c.write(addr, val).read(at) == c.write(
                addr,
                val,
            ).rom_at(c.write(addr, val).rom_bank * 0x4000 + (at - 0x4000)) && c.write(
                addr,
                val,
            ).rom_bank * 0x4000 + (at - 0x4000) >= 0x4000,
{
    c.lemma_write_keeps_wf(addr, val);
    crate::bits::lemma_low_five(c.write(addr, val).rom_bank);
}

/// In a machine that is in order the switchable ROM bank is not bank 0, the
/// count of t-cycles of the scanline is below 456 and LY is below 154.
pub proof fn law_ranges(s: GameboyView)
    requires
        s.wf(),
    ensures
        s.cartridge.kind != MbcKind::NoMbc ==> s.cartridge.rom_bank >= 1,
        0 <= s.ppu.line_cycles < 456,
        0 <= ly(s.io) < 154,
{
    reveal(GameboyView::wf);
}

/// A machine is in order when it is switched on, and every round leaves it
/// in order. After a round the two low bits of STAT tell the mode of the
/// picture unit and bit 2 tells whether LY equals LYC.
pub proof fn law_rounds_keep_order(s: GameboyView, cartridge: CartridgeView)
    requires
        s.wf(),
        cartridge.wf(),
    ensures
        GameboyView::power_on(cartridge).wf(),
        match s.step() {
            Ok((next, m_cycles)) => {
                &&& next.wf()
                &&& 1 <= m_cycles <= 6
                &&& stat(next.io) & 0b11 == mode_bits(next.ppu.mode)
                &&& (stat(next.io) & 0b100 != 0) == (ly(next.io) == lyc(next.io))
            },
            Err(e) => true,
        },
{
    reveal(GameboyView::wf);
    s.lemma_step();
}

/// A frame that no undefined opcode stops takes 70224 t-cycles and at most
/// 23 more, which the last instruction went beyond the mark.
pub proof fn law_frame_length(s: GameboyView)
    requires
        s.wf(),
    ensures
        match run_frame(s, 0).1 {
            Ok(total) => 70224 <= total <= 70224 + 23,
            Err(e) => true,
        },
{
    crate::frame::lemma_run_frame(s, 0);
}

/// A frame that no undefined opcode stops is made of rounds and ends with
/// the first of them at whose end 70224 t-cycles or more have passed: the
/// machine at the end of the frame is the machine after that many rounds,
/// the t-cycles of the frame are theirs, and after every smaller number of
/// rounds fewer than 70224 t-cycles had passed. The number of rounds is
/// returned.
pub proof fn law_frame_ends_at_first_round_past_the_mark(s: GameboyView) -> (rounds: nat)
    requires
        run_frame(s, 0).1 is Ok,
    ensures
        rounds >= 1,
        after_rounds(s, rounds) == Some((run_frame(s, 0).0, run_frame(s, 0).1->Ok_0)),
        run_frame(s, 0).1->Ok_0 >= 70224,
        forall|k: nat|
            k < rounds ==> (#[trigger] after_rounds(s, k)) is Some && (after_rounds(s, k)->0).1
                < 70224,
{
    crate::frame::lemma_frame_ends_at_first(s, 0)
}

/// A word pushed where bytes are retained is popped again, and SP is back
/// where it was.
pub proof fn law_push_then_pop(s: GameboyView, value: u16)
    requires
        s.sized(),
        s.retains(dec16(s.cpu.sp)),
        s.retains(dec16(dec16(s.cpu.sp))),
    ensures
        s.push_word(value).pop_word().0 == value,
        s.push_word(value).pop_word().1.cpu == s.cpu,
{
    let hi_at = dec16(s.cpu.sp);
    let lo_at = dec16(hi_at);
    let hi = crate::cpu::high_byte(value);
    let lo = crate::cpu::low_byte(value);
    lemma_pair_split(value, 0, 0);
    let s0 = s.with_cpu(Cpu { sp: hi_at, ..s.cpu });
    assert(s0.sized() && s0.retains(hi_at) && s0.retains(lo_at));
    s0.lemma_read_after_write(hi_at, hi);
    let s1 = s0.write(hi_at, hi);
    assert(s1 == s.push(hi));
    let s1b = s1.with_cpu(Cpu { sp: lo_at, ..s1.cpu });
    assert(s1b.read(hi_at) == hi);
    assert(s1b.retains(lo_at)) by {
        s0.lemma_write_keeps_retained(hi_at, hi, lo_at);
    }
    assert(s1b.retains(hi_at)) by {
        s0.lemma_write_keeps_retained(hi_at, hi, hi_at);
    }
    assert(crate::alu::inc16(lo_at) == hi_at);
    s1b.lemma_read_after_write(lo_at, lo);
    s1b.lemma_write_leaves_next(lo_at, lo);
    let s2 = s1b.write(lo_at, lo);
    assert(s2 == s1.push(lo));
    assert(s2.read(lo_at) == lo);
    assert(s2.read(hi_at) == hi);
    assert(s2.cpu.sp == lo_at);
    assert(crate::alu::inc16(hi_at) == s.cpu.sp);
}

/// What PUSH and POP of a wide register do.
proof fn lemma_push_and_pop_steps(s: GameboyView, rr: WideRegister)
    ensures
        s.step_opcode(Opcode::PUSHWR(rr)) == (s.push_word(s.cpu.wide(rr)), 4u8),
        s.step_opcode(Opcode::POPWR(rr)) == (s.pop_word().1.with_wide(rr, s.pop_word().0), 3u8),
{
}

/// PUSH of a wide register and then POP into it leave the processor as it
/// was, when the two bytes below SP are bytes that retain what is written
/// to them. F comes back with its low nibble zero, as it always is.
pub proof fn law_push_pop(s: GameboyView, rr: WideRegister)
    requires
        s.sized(),
        s.retains(dec16(s.cpu.sp)),
        s.retains(dec16(dec16(s.cpu.sp))),
    ensures
        s.step_opcode(Opcode::PUSHWR(rr)).0.step_opcode(Opcode::POPWR(rr)).0.cpu == s.cpu,
        s.cpu.reg(Register::F) & 0x0F == 0,
{
    law_low_nibble_of_f(s);
    let value = s.cpu.wide(rr);
    law_push_then_pop(s, value);
    s.cpu.lemma_write_back(Register::A, rr);
    lemma_push_and_pop_steps(s, rr);
    lemma_push_and_pop_steps(s.push_word(value), rr);
}

/// Exchanging the nibbles of a byte twice gives the byte back.
pub proof fn law_swap_involution(value: u8)
    ensures
        swap8(swap8(value).0).0 == value,
{
}

/// SWAP of a register twice leaves the register as it was. F is left out:
/// it has no low nibble to take what SWAP moves there.
pub proof fn law_swap_twice(s: GameboyView, r: Register)
    requires
        r != Register::F,
    ensures
        s.step_opcode(Opcode::SWAP(r)).0.step_opcode(Opcode::SWAP(r)).0.cpu.reg(r) == s.cpu.reg(r),
{
    let once = swap8(s.cpu.reg(r));
    let s1 = s.modify(Some(r), once);
    lemma_modify_steps(s, r);
    lemma_modify_register(s, r, once);
    lemma_modify_steps(s1, r);
    lemma_modify_register(s1, r, swap8(s1.cpu.reg(r)));
    law_swap_involution(s.cpu.reg(r));
}

/// Loading a register into itself changes nothing and takes one machine
/// cycle.
pub proof fn law_load_into_itself(s: GameboyView, r: Register)
    ensures
        s.step_opcode(Opcode::LDRR(r, r)) == (s, 1u8),
{
    s.cpu.lemma_write_back(r, WideRegister::HL);
    lemma_load_step(s, r);
}

/// What the load of a register into itself does.
proof fn lemma_load_step(s: GameboyView, r: Register)
    ensures
        s.step_opcode(Opcode::LDRR(r, r)) == (s.with_reg(r, s.cpu.reg(r)), 1u8),
{
}

/// An increment and then a decrement give the byte back. Z then tells
/// whether the byte is zero, H is as the increment left it, N is set and C
/// is as it was before.
pub proof fn law_inc_dec(value: u8, flags: CpuFlags)
    ensures
        ({
            let (v1, f1) = inc8(value, flags);
            let (v2, f2) = dec8(v1, f1);
            &&& v2 == value
            &&& f2.z == (value == 0)
            &&& f2.h == f1.h
            &&& f2.h == (value % 16 == 15)
            &&& f2.n
            &&& f2.c == flags.c
        }),
{
}

/// What INC, DEC and SWAP of a register do.
proof fn lemma_modify_steps(s: GameboyView, r: Register)
    ensures
        s.step_opcode(Opcode::INC(r)).0 == s.modify(Some(r), inc8(s.cpu.reg(r), s.flags())),
        s.step_opcode(Opcode::DEC(r)).0 == s.modify(Some(r), dec8(s.cpu.reg(r), s.flags())),
        s.step_opcode(Opcode::SWAP(r)).0 == s.modify(Some(r), swap8(s.cpu.reg(r))),
{
}

/// What an instruction that modifies a register other than F leaves in the
/// register and in the flags.
proof fn lemma_modify_register(s: GameboyView, r: Register, result: (u8, CpuFlags))
    requires
        r != Register::F,
    ensures
        s.modify(Some(r), result).cpu.reg(r) == result.0,
        s.modify(Some(r), result).flags() == result.1,
{
}

/// INC of a register and then DEC of it leave the register as it was. Z and
/// H then tell whether the register is zero and whether its low nibble is
/// 15, so each of them is as before the two instructions exactly when it
/// told the same then. F is left out: it has no low nibble to count in.
pub proof fn law_inc_then_dec(s: GameboyView, r: Register)
    requires
        r != Register::F,
    ensures
        ({
            let s1 = s.step_opcode(Opcode::INC(r)).0;
            let s2 = s1.step_opcode(Opcode::DEC(r)).0;
            &&& s2.cpu.reg(r) == s.cpu.reg(r)
            &&& s2.flags().z == (s.cpu.reg(r) == 0)
            &&& s2.flags().h == (s.cpu.reg(r) % 16 == 15)
            &&& s2.flags().h == s1.flags().h
            &&& s2.flags().c == s.flags().c
        }),
{
    let up = inc8(s.cpu.reg(r), s.flags());
    let s1 = s.modify(Some(r), up);
    lemma_modify_steps(s, r);
    lemma_modify_register(s, r, up);
    let down = dec8(s1.cpu.reg(r), s1.flags());
    lemma_modify_steps(s1, r);
    lemma_modify_register(s1, r, down);
    law_inc_dec(s.cpu.reg(r), s.flags());
}

/// Whether a byte holds two decimal digits, one in each nibble.
pub open spec fn packed_decimal(v: u8) -> bool {
    v % 16 <= 9 && v / 16 <= 9
}

/// The number that the two decimal digits of a byte stand for.
pub open spec fn decimal(v: u8) -> int {
    (v / 16) * 10 + v % 16
}

/// The decimal adjustment after an addition, in arithmetic on the bytes.
proof fn lemma_decimal_add(a: u8, b: u8, c: u8)
    by (bit_vector)
    requires
        a % 16 <= 9,
        a / 16 <= 9,
        b % 16 <= 9,
        b / 16 <= 9,
        c <= 1,
    ensures
        ({
            let total = a + b + c;
            let sum = total % 256;
            let half = a % 16 + b % 16 + c > 15;
            let high = total > 255 || sum > 0x99;
            let v1 = if high {
                (sum + 0x60) % 256
            } else {
                sum
            };
            let v2 = if half || v1 % 16 > 9 {
                (v1 + 0x06) % 256
            } else {
                v1
            };
            &&& v2 % 16 <= 9
            &&& v2 / 16 <= 9
            &&& (v2 / 16) * 10 + v2 % 16 + (if high {
                100int
            } else {
                0int
            }) == (a / 16) * 10 + a % 16 + (b / 16) * 10 + b % 16 + c
        }),
{
}

/// The decimal adjustment after a subtraction, in arithmetic on the bytes.
/// The difference is taken with 256 added, so that it is not negative.
proof fn lemma_decimal_sub(a: u8, b: u8, c: u8)
    by (bit_vector)
    requires
        a % 16 <= 9,
        a / 16 <= 9,
        b % 16 <= 9,
        b / 16 <= 9,
        c <= 1,
    ensures
        ({
            let diff = (256 + a - b - c) % 256;
            let half = a % 16 < b % 16 + c;
            let low = a < b + c;
            let v1 = if low {
                (256 + diff - 0x60) % 256
            } else {
                diff
            };
            let v2 = if half {
                (256 + v1 - 0x06) % 256
            } else {
                v1
            };
            &&& v2 % 16 <= 9
            &&& v2 / 16 <= 9
            &&& (v2 / 16) * 10 + v2 % 16 + (b / 16) * 10 + b % 16 + c == (a / 16) * 10 + a % 16
                + (if low {
                100int
            } else {
                0int
            })
        }),
{
}

/// An addition of two bytes of decimal digits, with or without a carry in,
/// and then the decimal adjustment give the decimal sum: two digits in the
/// byte, and the hundred in C.
pub proof fn law_daa_after_add(a: u8, b: u8, carry: bool)
    requires
        packed_decimal(a),
        packed_decimal(b),
    ensures
        ({
            let (sum, flags) = add8(a, b, carry);
            let (adjusted, after) = daa8(sum, flags);
            &&& packed_decimal(adjusted)
            &&& decimal(adjusted) + (if after.c {
                100int
            } else {
                0int
            }) == decimal(a) + decimal(b) + carry_in(carry)
            &&& after.z == (adjusted == 0)
            &&& !after.n
            &&& !after.h
        }),
{
    let c: u8 = if carry {
        1
    } else {
        0
    };
    lemma_decimal_add(a, b, c);
}

/// A subtraction of two bytes of decimal digits, with or without a borrow
/// in, and then the decimal adjustment give the decimal difference: two
/// digits in the byte, and the borrowed hundred in C.
pub proof fn law_daa_after_sub(a: u8, b: u8, borrow: bool)
    requires
        packed_decimal(a),
        packed_decimal(b),
    ensures
        ({
            let (diff, flags) = sub8(a, b, borrow);
            let (adjusted, after) = daa8(diff, flags);
            &&& packed_decimal(adjusted)
            &&& decimal(adjusted) - (if after.c {
                100int
            } else {
                0int
            }) == decimal(a) - decimal(b) - carry_in(borrow)
            &&& after.z == (adjusted == 0)
            &&& after.n
            &&& !after.h
        }),
{
    let c: u8 = if borrow {
        1
    } else {
        0
    };
    lemma_decimal_sub(a, b, c);
    let d = a - b - c;
    lemma_wrap_below(d);
    let diff = d % 256;
    lemma_wrap_below(diff - 0x60);
    let v1 = if a < b + c {
        (diff - 0x60) % 256
    } else {
        diff
    };
    lemma_wrap_below(v1 - 0x06);
}

/// A number from -256 to 255 and the number 256 above it are the same modulo
/// 256.
proof fn lemma_wrap_below(x: int)
    requires
        -256 <= x < 256,
    ensures
        x % 256 == (256 + x) % 256,
        0 <= x % 256 < 256,
        x % 256 == (if x < 0 {
            x + 256
        } else {
            x
        }),
{
}

} // verus!
