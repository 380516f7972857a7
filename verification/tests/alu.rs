use gb7_core::cpu::CpuFlags;
use gb7_core::gameboy::Gameboy;

fn flags_of(bits: u8) -> CpuFlags {
    CpuFlags::from_bits(bits)
}

#[test]
fn add_sets_half_carry_from_bit_three() {
    let mut f = flags_of(0);
    assert_eq!(Gameboy::do_add(0x3A, 0x05, false, &mut f), 0x3F);
    assert_eq!(f.bits(), 0x00);
    assert_eq!(Gameboy::do_add(0x0F, 0x01, false, &mut f), 0x10);
    assert_eq!(f.bits(), 0x20);
}

#[test]
fn add_sets_carry_and_zero_on_wrap() {
    let mut f = flags_of(0);
    assert_eq!(Gameboy::do_add(0xFF, 0x01, false, &mut f), 0x00);
    assert_eq!(f.bits(), 0xB0);
    assert_eq!(Gameboy::do_add(0x80, 0x80, false, &mut f), 0x00);
    assert_eq!(f.bits(), 0x90);
}

#[test]
fn add_with_carry_counts_the_carry_in() {
    let mut f = flags_of(0x10);
    assert_eq!(Gameboy::do_add(0xFF, 0x00, true, &mut f), 0x00);
    assert_eq!(f.bits(), 0xB0);
    let mut f = flags_of(0x10);
    assert_eq!(Gameboy::do_add(0x01, 0x01, true, &mut f), 0x03);
    assert_eq!(f.bits(), 0x00);
    let mut f = flags_of(0x10);
    assert_eq!(Gameboy::do_add(0x01, 0x01, false, &mut f), 0x02);
    assert_eq!(f.bits(), 0x00);
    let mut f = flags_of(0x00);
    assert_eq!(Gameboy::do_add(0x0E, 0x01, true, &mut f), 0x0F);
    assert_eq!(f.bits(), 0x00);
    let mut f = flags_of(0x10);
    assert_eq!(Gameboy::do_add(0x0E, 0x01, true, &mut f), 0x10);
    assert_eq!(f.bits(), 0x20);
}

#[test]
fn sub_borrows_from_bit_four_and_eight() {
    let mut f = flags_of(0);
    assert_eq!(Gameboy::do_sub(0x00, 0x01, false, &mut f), 0xFF);
    assert_eq!(f.bits(), 0x70);
    assert_eq!(Gameboy::do_sub(0x10, 0x01, false, &mut f), 0x0F);
    assert_eq!(f.bits(), 0x60);
    assert_eq!(Gameboy::do_sub(0x42, 0x42, false, &mut f), 0x00);
    assert_eq!(f.bits(), 0xC0);
}

#[test]
fn sub_with_carry_counts_the_borrow_in() {
    let mut f = flags_of(0x10);
    assert_eq!(Gameboy::do_sub(0x10, 0x0F, true, &mut f), 0x00);
    assert_eq!(f.bits(), 0xE0);
    let mut f = flags_of(0x10);
    assert_eq!(Gameboy::do_sub(0x00, 0xFF, true, &mut f), 0x00);
    assert_eq!(f.bits(), 0xF0);
    let mut f = flags_of(0x00);
    assert_eq!(Gameboy::do_sub(0x00, 0xFF, true, &mut f), 0x01);
    assert_eq!(f.bits(), 0x70);
}

#[test]
fn add16_carries_from_bit_eleven_and_fifteen_and_keeps_z() {
    let mut f = flags_of(0xC0);
    assert_eq!(Gameboy::do_add_16(0x0FFF, 0x0001, &mut f), 0x1000);
    assert_eq!(f.bits(), 0xA0);
    let mut f = flags_of(0x40);
    assert_eq!(Gameboy::do_add_16(0xFFFF, 0x0001, &mut f), 0x0000);
    assert_eq!(f.bits(), 0x30);
    let mut f = flags_of(0x00);
    assert_eq!(Gameboy::do_add_16(0x8000, 0x8000, &mut f), 0x0000);
    assert_eq!(f.bits(), 0x10);
    let mut f = flags_of(0xF0);
    assert_eq!(Gameboy::do_add_16(0x1234, 0x1111, &mut f), 0x2345);
    assert_eq!(f.bits(), 0x80);
}

#[test]
fn signed_add_takes_the_byte_as_a_displacement() {
    let mut f = flags_of(0xF0);
    assert_eq!(Gameboy::do_signed_add(0xFFF8, 0x08, &mut f), 0x0000);
    assert_eq!(f.bits(), 0x30);
    let mut f = flags_of(0xF0);
    assert_eq!(Gameboy::do_signed_add(0x0001, 0xFF, &mut f), 0x0000);
    assert_eq!(f.bits(), 0x30);
    let mut f = flags_of(0xF0);
    assert_eq!(Gameboy::do_signed_add(0x0000, 0xFF, &mut f), 0xFFFF);
    assert_eq!(f.bits(), 0x00);
    let mut f = flags_of(0x00);
    assert_eq!(Gameboy::do_signed_add(0x1000, 0x80, &mut f), 0x0F80);
    assert_eq!(f.bits(), 0x00);
    let mut f = flags_of(0x00);
    assert_eq!(Gameboy::do_signed_add(0x100F, 0x01, &mut f), 0x1010);
    assert_eq!(f.bits(), 0x20);
}

#[test]
fn inc_and_dec_leave_carry_alone() {
    let mut f = flags_of(0x10);
    assert_eq!(Gameboy::do_inc(0x0F, &mut f), 0x10);
    assert_eq!(f.bits(), 0x30);
    assert_eq!(Gameboy::do_inc(0xFF, &mut f), 0x00);
    assert_eq!(f.bits(), 0xB0);
    assert_eq!(Gameboy::do_inc(0x41, &mut f), 0x42);
    assert_eq!(f.bits(), 0x10);
    let mut f = flags_of(0x00);
    assert_eq!(Gameboy::do_dec(0x10, &mut f), 0x0F);
    assert_eq!(f.bits(), 0x60);
    assert_eq!(Gameboy::do_dec(0x01, &mut f), 0x00);
    assert_eq!(f.bits(), 0xC0);
    assert_eq!(Gameboy::do_dec(0x00, &mut f), 0xFF);
    assert_eq!(f.bits(), 0x60);
}

#[test]
fn inc_then_dec_gives_the_byte_back() {
    for v in 0..=255u8 {
        for carry in [false, true] {
            let mut f = CpuFlags { z: false, n: false, h: false, c: carry };
            let up = Gameboy::do_inc(v, &mut f);
            let h_after_inc = f.h;
            let down = Gameboy::do_dec(up, &mut f);
            assert_eq!(down, v);
            assert_eq!(f.z, v == 0);
            assert_eq!(f.h, h_after_inc);
            assert_eq!(f.h, v % 16 == 15);
            assert!(f.n);
            assert_eq!(f.c, carry);
        }
    }
}

#[test]
fn sixteen_bit_inc_and_dec_wrap() {
    assert_eq!(Gameboy::do_inc_16(0xFFFF), 0x0000);
    assert_eq!(Gameboy::do_inc_16(0x00FF), 0x0100);
    assert_eq!(Gameboy::do_dec_16(0x0000), 0xFFFF);
    assert_eq!(Gameboy::do_dec_16(0x0100), 0x00FF);
}

#[test]
fn logic_operations_set_their_fixed_flags() {
    let mut f = flags_of(0xF0);
    assert_eq!(Gameboy::do_and(0xF0, 0x0F, &mut f), 0x00);
    assert_eq!(f.bits(), 0xA0);
    assert_eq!(Gameboy::do_and(0xF3, 0x35, &mut f), 0x31);
    assert_eq!(f.bits(), 0x20);
    let mut f = flags_of(0xF0);
    assert_eq!(Gameboy::do_or(0xF0, 0x0F, &mut f), 0xFF);
    assert_eq!(f.bits(), 0x00);
    assert_eq!(Gameboy::do_or(0x00, 0x00, &mut f), 0x00);
    assert_eq!(f.bits(), 0x80);
    let mut f = flags_of(0xF0);
    assert_eq!(Gameboy::do_xor(0xFF, 0xFF, &mut f), 0x00);
    assert_eq!(f.bits(), 0x80);
    assert_eq!(Gameboy::do_xor(0xF0, 0x3C, &mut f), 0xCC);
    assert_eq!(f.bits(), 0x00);
}

#[test]
fn bit_test_sets_z_when_the_bit_is_clear() {
    let mut f = flags_of(0x50);
    Gameboy::do_bit(7, 0x80, &mut f);
    assert_eq!(f.bits(), 0x30);
    Gameboy::do_bit(0, 0x80, &mut f);
    assert_eq!(f.bits(), 0xB0);
    let mut f = flags_of(0x00);
    Gameboy::do_bit(3, 0x08, &mut f);
    assert_eq!(f.bits(), 0x20);
}

#[test]
fn res_and_set_change_one_bit() {
    assert_eq!(Gameboy::do_res(3, 0xFF), 0xF7);
    assert_eq!(Gameboy::do_res(0, 0x01), 0x00);
    assert_eq!(Gameboy::do_res(7, 0x7F), 0x7F);
    assert_eq!(Gameboy::do_set(3, 0x00), 0x08);
    assert_eq!(Gameboy::do_set(7, 0x01), 0x81);
    assert_eq!(Gameboy::do_set(0, 0x01), 0x01);
}

#[test]
fn rotations_through_carry() {
    let mut f = flags_of(0x00);
    assert_eq!(Gameboy::do_rl(0x80, &mut f), 0x00);
    assert_eq!(f.bits(), 0x90);
    assert_eq!(Gameboy::do_rl(0x01, &mut f), 0x03);
    assert_eq!(f.bits(), 0x00);
    let mut f = flags_of(0xE0);
    assert_eq!(Gameboy::do_rr(0x01, &mut f), 0x00);
    assert_eq!(f.bits(), 0x90);
    assert_eq!(Gameboy::do_rr(0x02, &mut f), 0x81);
    assert_eq!(f.bits(), 0x00);
}

#[test]
fn rotations_without_carry() {
    let mut f = flags_of(0x00);
    assert_eq!(Gameboy::do_rlc(0x80, &mut f), 0x01);
    assert_eq!(f.bits(), 0x10);
    assert_eq!(Gameboy::do_rlc(0x43, &mut f), 0x86);
    assert_eq!(f.bits(), 0x00);
    assert_eq!(Gameboy::do_rlc(0x00, &mut f), 0x00);
    assert_eq!(f.bits(), 0x80);
    assert_eq!(Gameboy::do_rrc(0x01, &mut f), 0x80);
    assert_eq!(f.bits(), 0x10);
    assert_eq!(Gameboy::do_rrc(0x86, &mut f), 0x43);
    assert_eq!(f.bits(), 0x00);
}

#[test]
fn shifts_move_the_lost_bit_into_carry() {
    let mut f = flags_of(0xF0);
    assert_eq!(Gameboy::do_sla(0xC0, &mut f), 0x80);
    assert_eq!(f.bits(), 0x10);
    assert_eq!(Gameboy::do_sla(0x80, &mut f), 0x00);
    assert_eq!(f.bits(), 0x90);
    assert_eq!(Gameboy::do_sra(0x81, &mut f), 0xC0);
    assert_eq!(f.bits(), 0x10);
    assert_eq!(Gameboy::do_sra(0x7E, &mut f), 0x3F);
    assert_eq!(f.bits(), 0x00);
    assert_eq!(Gameboy::do_srl(0x81, &mut f), 0x40);
    assert_eq!(f.bits(), 0x10);
    assert_eq!(Gameboy::do_srl(0x01, &mut f), 0x00);
    assert_eq!(f.bits(), 0x90);
}

#[test]
fn swap_exchanges_the_nibbles() {
    let mut f = flags_of(0xF0);
    assert_eq!(Gameboy::do_swap(0xAB, &mut f), 0xBA);
    assert_eq!(f.bits(), 0x00);
    assert_eq!(Gameboy::do_swap(0x00, &mut f), 0x00);
    assert_eq!(f.bits(), 0x80);
}

#[test]
fn swap_twice_is_the_identity() {
    for v in 0..=255u8 {
        let mut f = flags_of(0);
        let once = Gameboy::do_swap(v, &mut f);
        assert_eq!(Gameboy::do_swap(once, &mut f), v);
    }
}

#[test]
fn daa_after_addition() {
    let mut f = flags_of(0x00);
    assert_eq!(Gameboy::do_daa(0x7D, &mut f), 0x83);
    assert_eq!(f.bits(), 0x00);
    let mut f = flags_of(0x00);
    assert_eq!(Gameboy::do_daa(0x9A, &mut f), 0x00);
    assert_eq!(f.bits(), 0x90);
    let mut f = flags_of(0x20);
    assert_eq!(Gameboy::do_daa(0x10, &mut f), 0x16);
    assert_eq!(f.bits(), 0x00);
    let mut f = flags_of(0x10);
    assert_eq!(Gameboy::do_daa(0x12, &mut f), 0x72);
    assert_eq!(f.bits(), 0x10);
}

#[test]
fn daa_after_subtraction() {
    let mut f = flags_of(0x60);
    assert_eq!(Gameboy::do_daa(0x0D, &mut f), 0x07);
    assert_eq!(f.bits(), 0x40);
    let mut f = flags_of(0x50);
    assert_eq!(Gameboy::do_daa(0x90, &mut f), 0x30);
    assert_eq!(f.bits(), 0x50);
    let mut f = flags_of(0x70);
    assert_eq!(Gameboy::do_daa(0x66, &mut f), 0x00);
    assert_eq!(f.bits(), 0xD0);
    let mut f = flags_of(0x40);
    assert_eq!(Gameboy::do_daa(0x45, &mut f), 0x45);
    assert_eq!(f.bits(), 0x40);
}

fn digits(v: u8) -> u32 {
    (v >> 4) as u32 * 10 + (v & 0x0F) as u32
}

#[test]
fn daa_gives_the_decimal_sum_of_all_pairs_of_digits() {
    for x in 0..100u32 {
        for y in 0..100u32 {
            for carry in [false, true] {
                let a = ((x / 10) << 4 | (x % 10)) as u8;
                let b = ((y / 10) << 4 | (y % 10)) as u8;
                let mut f = CpuFlags { z: false, n: false, h: false, c: carry };
                let sum = Gameboy::do_add(a, b, true, &mut f);
                let adjusted = Gameboy::do_daa(sum, &mut f);
                let expected = x + y + carry as u32;
                assert!(adjusted & 0x0F <= 9 && adjusted >> 4 <= 9);
                assert_eq!(digits(adjusted) + if f.c { 100 } else { 0 }, expected);
                assert_eq!(f.z, adjusted == 0);
                assert!(!f.n);
                assert!(!f.h);
            }
        }
    }
}

#[test]
fn daa_gives_the_decimal_difference_of_all_pairs_of_digits() {
    for x in 0..100u32 {
        for y in 0..100u32 {
            for borrow in [false, true] {
                let a = ((x / 10) << 4 | (x % 10)) as u8;
                let b = ((y / 10) << 4 | (y % 10)) as u8;
                let mut f = CpuFlags { z: false, n: false, h: false, c: borrow };
                let diff = Gameboy::do_sub(a, b, true, &mut f);
                let adjusted = Gameboy::do_daa(diff, &mut f);
                let expected = (100 + x - y - borrow as u32) % 100;
                assert!(adjusted & 0x0F <= 9 && adjusted >> 4 <= 9);
                assert_eq!(digits(adjusted), expected);
                assert_eq!(f.c, x < y + borrow as u32);
                assert_eq!(f.z, adjusted == 0);
                assert!(f.n);
                assert!(!f.h);
            }
        }
    }
}
