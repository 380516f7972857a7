use gb7_core::cartridge::load_cartridge;
use gb7_core::cpu::{CpuFlags, Flag, Register, WideRegister};
use gb7_core::frame::InvalidOpcode;
use gb7_core::gameboy::Gameboy;
use gb7_core::opcodes::Opcode;

/// A machine with `program` at 0x0100 and `far` at 0x0210.
fn machine(program: &[u8], far: &[u8]) -> Gameboy {
    let mut rom = vec![0u8; 0x8000];
    rom[0x100..0x100 + program.len()].copy_from_slice(program);
    rom[0x210..0x210 + far.len()].copy_from_slice(far);
    match load_cartridge(&rom) {
        Ok(cart) => Gameboy::new_dmg(cart),
        Err(e) => panic!("image refused: {:?}", e),
    }
}

fn run(gb: &mut Gameboy) -> u8 {
    match gb.execute() {
        Ok(m) => m,
        Err(e) => panic!("stopped by {:?}", e),
    }
}

fn set_flags(gb: &mut Gameboy, bits: u8) {
    gb.cpu.registers.flags = CpuFlags::from_bits(bits);
}

#[test]
fn add_a_b_half_carry() {
    let mut gb = machine(&[0x80, 0x80], &[]);
    gb.cpu.registers.a = 0x3A;
    gb.cpu.registers.b = 0x05;
    assert_eq!(run(&mut gb), 1);
    assert_eq!(gb.cpu.registers.a, 0x3F);
    assert!(!gb.cpu.registers.flags.z);
    assert!(!gb.cpu.registers.flags.n);
    assert!(!gb.cpu.registers.flags.h);
    assert!(!gb.cpu.registers.flags.c);
    gb.cpu.registers.a = 0x0F;
    gb.cpu.registers.b = 0x01;
    assert_eq!(run(&mut gb), 1);
    assert_eq!(gb.cpu.registers.a, 0x10);
    assert!(gb.cpu.registers.flags.h);
}

#[test]
fn sub_immediate_borrow() {
    let mut gb = machine(&[0xD6, 0x01], &[]);
    gb.cpu.registers.a = 0x00;
    assert_eq!(run(&mut gb), 2);
    assert_eq!(gb.cpu.registers.a, 0xFF);
    assert!(!gb.cpu.registers.flags.z);
    assert!(gb.cpu.registers.flags.n);
    assert!(gb.cpu.registers.flags.h);
    assert!(gb.cpu.registers.flags.c);
    assert_eq!(gb.cpu.pc, 0x0102);
}

#[test]
fn daa_after_add() {
    let mut gb = machine(&[0x80, 0x27], &[]);
    gb.cpu.registers.a = 0x45;
    gb.cpu.registers.b = 0x38;
    assert_eq!(run(&mut gb), 1);
    assert_eq!(gb.cpu.registers.a, 0x7D);
    assert_eq!(run(&mut gb), 1);
    assert_eq!(gb.cpu.registers.a, 0x83);
    assert!(!gb.cpu.registers.flags.n);
    assert!(!gb.cpu.registers.flags.h);
    assert!(!gb.cpu.registers.flags.c);
}

#[test]
fn jr_z_taken_loops_back() {
    let mut gb = machine(&[0x28, 0xFE], &[]);
    set_flags(&mut gb, 0x80);
    assert_eq!(run(&mut gb), 3);
    assert_eq!(gb.cpu.pc, 0x0100);
    assert_eq!(run(&mut gb), 3);
    assert_eq!(gb.cpu.pc, 0x0100);
}

#[test]
fn jr_z_not_taken_falls_through() {
    let mut gb = machine(&[0x28, 0xFE], &[]);
    set_flags(&mut gb, 0x00);
    assert_eq!(run(&mut gb), 2);
    assert_eq!(gb.cpu.pc, 0x0102);
}

#[test]
fn jr_forward_and_the_other_conditions() {
    let mut gb = machine(&[0x18, 0x05], &[]);
    assert_eq!(run(&mut gb), 3);
    assert_eq!(gb.cpu.pc, 0x0107);
    let mut gb = machine(&[0x20, 0x10], &[]);
    set_flags(&mut gb, 0x00);
    assert_eq!(run(&mut gb), 3);
    assert_eq!(gb.cpu.pc, 0x0112);
    let mut gb = machine(&[0x30, 0x10], &[]);
    set_flags(&mut gb, 0x10);
    assert_eq!(run(&mut gb), 2);
    assert_eq!(gb.cpu.pc, 0x0102);
    let mut gb = machine(&[0x38, 0x80], &[]);
    set_flags(&mut gb, 0x10);
    assert_eq!(run(&mut gb), 3);
    assert_eq!(gb.cpu.pc, 0x0082);
}

#[test]
fn push_then_pop_restores_the_register() {
    let mut gb = machine(&[0xC5, 0x01, 0x00, 0x00, 0xC1], &[]);
    gb.cpu.registers.b = 0x12;
    gb.cpu.registers.c = 0x34;
    assert_eq!(run(&mut gb), 4);
    assert_eq!(gb.cpu.sp, 0xFFFC);
    assert_eq!(gb.read(0xFFFD), 0x12);
    assert_eq!(gb.read(0xFFFC), 0x34);
    assert_eq!(run(&mut gb), 3);
    assert_eq!(gb.cpu.registers.bc(), 0x0000);
    assert_eq!(run(&mut gb), 3);
    assert_eq!(gb.cpu.registers.bc(), 0x1234);
    assert_eq!(gb.cpu.sp, 0xFFFE);
}

#[test]
fn push_then_pop_restores_every_pair() {
    for (push, pop) in [(0xC5u8, 0xC1u8), (0xD5, 0xD1), (0xE5, 0xE1), (0xF5, 0xF1)] {
        let mut gb = machine(&[push, pop], &[]);
        gb.cpu.registers.a = 0x9C;
        set_flags(&mut gb, 0x50);
        gb.cpu.registers.set_bc(0x1122);
        gb.cpu.registers.set_de(0x3344);
        gb.cpu.registers.set_hl(0xC566);
        gb.cpu.sp = 0xD000;
        let before = gb.cpu;
        run(&mut gb);
        run(&mut gb);
        assert_eq!(gb.cpu.registers, before.registers);
        assert_eq!(gb.cpu.sp, before.sp);
    }
}

#[test]
fn pop_af_clears_the_low_nibble_of_f() {
    let mut gb = machine(&[0xF1], &[]);
    gb.cpu.sp = 0xC000;
    gb.write(0xC000, 0xFF);
    gb.write(0xC001, 0x12);
    assert_eq!(run(&mut gb), 3);
    assert_eq!(gb.cpu.registers.a, 0x12);
    assert_eq!(gb.cpu.registers.flags.bits(), 0xF0);
    assert_eq!(gb.cpu.registers.af(), 0x12F0);
    assert_eq!(gb.cpu.read_register(Register::F) & 0x0F, 0);
}

#[test]
fn a_stack_in_rom_does_not_keep_what_is_pushed() {
    let mut gb = machine(&[0xC5, 0xC1], &[]);
    gb.cpu.registers.set_bc(0x1234);
    gb.cpu.sp = 0x8000;
    run(&mut gb);
    run(&mut gb);
    assert_eq!(gb.cpu.registers.bc(), 0x0000);
    assert_eq!(gb.cpu.sp, 0x8000);
}

#[test]
fn loading_a_register_into_itself_changes_nothing() {
    for op in [0x40u8, 0x49, 0x52, 0x5B, 0x64, 0x6D, 0x7F] {
        let mut gb = machine(&[op], &[]);
        gb.cpu.registers.set_bc(0x1122);
        gb.cpu.registers.set_de(0x3344);
        gb.cpu.registers.set_hl(0x5566);
        gb.cpu.registers.a = 0x77;
        let before = gb.cpu;
        assert_eq!(run(&mut gb), 1);
        assert_eq!(gb.cpu.registers, before.registers);
        assert_eq!(gb.cpu.sp, before.sp);
        assert_eq!(gb.cpu.pc, 0x0101);
    }
}

#[test]
fn loads_between_registers() {
    let mut gb = machine(&[0x41, 0x78, 0x6C], &[]);
    gb.cpu.registers.c = 0x5A;
    gb.cpu.registers.h = 0x99;
    run(&mut gb);
    assert_eq!(gb.cpu.registers.b, 0x5A);
    run(&mut gb);
    assert_eq!(gb.cpu.registers.a, 0x5A);
    run(&mut gb);
    assert_eq!(gb.cpu.registers.l, 0x99);
}

#[test]
fn inc_then_dec_restores_the_register() {
    for (inc, dec, r) in [
        (0x04u8, 0x05u8, Register::B),
        (0x0C, 0x0D, Register::C),
        (0x14, 0x15, Register::D),
        (0x1C, 0x1D, Register::E),
        (0x24, 0x25, Register::H),
        (0x2C, 0x2D, Register::L),
        (0x3C, 0x3D, Register::A),
    ] {
        for v in [0x00u8, 0x0F, 0x10, 0x7F, 0xFF] {
            let mut gb = machine(&[inc, dec], &[]);
            gb.cpu.write_register(r, v);
            set_flags(&mut gb, 0x10);
            assert_eq!(run(&mut gb), 1);
            assert_eq!(gb.cpu.read_register(r), v.wrapping_add(1));
            let h_after_inc = gb.cpu.registers.flags.h;
            assert_eq!(run(&mut gb), 1);
            assert_eq!(gb.cpu.read_register(r), v);
            assert_eq!(gb.cpu.registers.flags.z, v == 0);
            assert_eq!(gb.cpu.registers.flags.h, h_after_inc);
            assert!(gb.cpu.registers.flags.n);
            assert!(gb.cpu.registers.flags.c);
        }
    }
}

#[test]
fn inc_and_dec_of_the_byte_at_hl() {
    let mut gb = machine(&[0x34, 0x35, 0x35], &[]);
    gb.cpu.registers.set_hl(0xC000);
    gb.write(0xC000, 0xFF);
    assert_eq!(run(&mut gb), 3);
    assert_eq!(gb.read(0xC000), 0x00);
    assert_eq!(gb.cpu.registers.flags.bits() & 0xE0, 0xA0);
    assert_eq!(run(&mut gb), 3);
    assert_eq!(gb.read(0xC000), 0xFF);
    assert_eq!(run(&mut gb), 3);
    assert_eq!(gb.read(0xC000), 0xFE);
}

#[test]
fn wide_inc_and_dec_touch_no_flag() {
    let mut gb = machine(&[0x03, 0x0B, 0x0B, 0x33, 0x3B], &[]);
    gb.cpu.registers.set_bc(0xFFFF);
    set_flags(&mut gb, 0xF0);
    assert_eq!(run(&mut gb), 2);
    assert_eq!(gb.cpu.registers.bc(), 0x0000);
    run(&mut gb);
    run(&mut gb);
    assert_eq!(gb.cpu.registers.bc(), 0xFFFE);
    run(&mut gb);
    assert_eq!(gb.cpu.sp, 0xFFFF);
    run(&mut gb);
    assert_eq!(gb.cpu.sp, 0xFFFE);
    assert_eq!(gb.cpu.registers.flags.bits(), 0xF0);
}

#[test]
fn call_and_ret() {
    let mut gb = machine(&[0xCD, 0x10, 0x02], &[0xC9]);
    assert_eq!(run(&mut gb), 6);
    assert_eq!(gb.cpu.pc, 0x0210);
    assert_eq!(gb.cpu.sp, 0xFFFC);
    assert_eq!(gb.read_word(0xFFFC), 0x0103);
    assert_eq!(run(&mut gb), 4);
    assert_eq!(gb.cpu.pc, 0x0103);
    assert_eq!(gb.cpu.sp, 0xFFFE);
}

#[test]
fn conditional_call_consumes_its_target_when_not_taken() {
    let mut gb = machine(&[0xC4, 0x10, 0x02], &[]);
    set_flags(&mut gb, 0x80);
    assert_eq!(run(&mut gb), 3);
    assert_eq!(gb.cpu.pc, 0x0103);
    assert_eq!(gb.cpu.sp, 0xFFFE);
    let mut gb = machine(&[0xC4, 0x10, 0x02], &[]);
    set_flags(&mut gb, 0x00);
    assert_eq!(run(&mut gb), 6);
    assert_eq!(gb.cpu.pc, 0x0210);
    let mut gb = machine(&[0xDC, 0x10, 0x02], &[]);
    set_flags(&mut gb, 0x10);
    assert_eq!(run(&mut gb), 6);
    assert_eq!(gb.cpu.pc, 0x0210);
}

#[test]
fn conditional_return() {
    let mut gb = machine(&[0xCD, 0x10, 0x02], &[0xC8, 0xC0]);
    set_flags(&mut gb, 0x00);
    run(&mut gb);
    assert_eq!(run(&mut gb), 2);
    assert_eq!(gb.cpu.pc, 0x0211);
    assert_eq!(run(&mut gb), 5);
    assert_eq!(gb.cpu.pc, 0x0103);
}

#[test]
fn reti_returns_and_enables_interrupts() {
    let mut gb = machine(&[0xCD, 0x10, 0x02], &[0xD9]);
    run(&mut gb);
    assert!(!gb.cpu.ime);
    assert_eq!(run(&mut gb), 4);
    assert_eq!(gb.cpu.pc, 0x0103);
    assert!(gb.cpu.ime);
}

#[test]
fn jumps() {
    let mut gb = machine(&[0xC3, 0x10, 0x02], &[]);
    assert_eq!(run(&mut gb), 4);
    assert_eq!(gb.cpu.pc, 0x0210);
    let mut gb = machine(&[0xCA, 0x10, 0x02], &[]);
    set_flags(&mut gb, 0x00);
    assert_eq!(run(&mut gb), 3);
    assert_eq!(gb.cpu.pc, 0x0103);
    let mut gb = machine(&[0xD2, 0x10, 0x02], &[]);
    set_flags(&mut gb, 0x00);
    assert_eq!(run(&mut gb), 4);
    assert_eq!(gb.cpu.pc, 0x0210);
    let mut gb = machine(&[0xE9], &[]);
    gb.cpu.registers.set_hl(0x4567);
    assert_eq!(run(&mut gb), 1);
    assert_eq!(gb.cpu.pc, 0x4567);
}

#[test]
fn rst_calls_its_vector() {
    for (op, vector) in [
        (0xC7u8, 0x00u16),
        (0xCF, 0x08),
        (0xD7, 0x10),
        (0xDF, 0x18),
        (0xE7, 0x20),
        (0xEF, 0x28),
        (0xF7, 0x30),
        (0xFF, 0x38),
    ] {
        let mut gb = machine(&[op], &[]);
        assert_eq!(run(&mut gb), 4);
        assert_eq!(gb.cpu.pc, vector);
        assert_eq!(gb.cpu.sp, 0xFFFC);
        assert_eq!(gb.read_word(0xFFFC), 0x0101);
    }
    let mut gb = machine(&[], &[]);
    gb.rst(0x0028);
    assert_eq!(gb.cpu.pc, 0x0028);
    assert_eq!(gb.read_word(0xFFFC), 0x0100);
}

#[test]
fn an_enabled_pending_interrupt_is_served() {
    let mut gb = machine(&[0x00], &[]);
    gb.cpu.ime = true;
    gb.write(0xFFFF, 0x01);
    gb.write(0xFF0F, 0x01);
    assert_eq!(gb.check_interrupts(), Some(0));
    assert_eq!(run(&mut gb), 5);
    assert_eq!(gb.cpu.pc, 0x0040);
    assert!(!gb.cpu.ime);
    assert_eq!(gb.read(0xFF0F) & 0x01, 0);
    assert_eq!(gb.cpu.sp, 0xFFFC);
    assert_eq!(gb.read_word(0xFFFC), 0x0100);
}

#[test]
fn the_lowest_pending_interrupt_comes_first() {
    let mut gb = machine(&[0x00], &[]);
    gb.cpu.ime = true;
    gb.write(0xFFFF, 0x1E);
    gb.write(0xFF0F, 0x15);
    assert_eq!(gb.check_interrupts(), Some(2));
    assert_eq!(run(&mut gb), 5);
    assert_eq!(gb.cpu.pc, 0x0050);
    assert_eq!(gb.read(0xFF0F), 0x11);
    for (bit, vector) in [(0u8, 0x40u16), (1, 0x48), (2, 0x50), (3, 0x58), (4, 0x60)] {
        let mut gb = machine(&[0x00], &[]);
        gb.cpu.ime = true;
        gb.write(0xFFFF, 0x1F);
        gb.write(0xFF0F, 0x1F & !((1u8 << bit) - 1));
        assert_eq!(gb.check_interrupts(), Some(bit));
        gb.service_interrupt(bit);
        assert_eq!(gb.cpu.pc, vector);
        assert_eq!(gb.read(0xFF0F), 0x1F & !((1u8 << bit) - 1) & !(1u8 << bit));
    }
}

#[test]
fn interrupts_wait_for_the_master_enable() {
    let mut gb = machine(&[0x00], &[]);
    gb.write(0xFFFF, 0x04);
    gb.write(0xFF0F, 0x04);
    assert_eq!(run(&mut gb), 1);
    assert_eq!(gb.cpu.pc, 0x0101);
    assert_eq!(gb.read(0xFF0F) & 0x04, 0x04);
    let mut gb = machine(&[0x00], &[]);
    gb.cpu.ime = true;
    gb.write(0xFFFF, 0x04);
    gb.write(0xFF0F, 0x01);
    assert_eq!(gb.check_interrupts(), None);
    assert_eq!(run(&mut gb), 1);
    assert_eq!(gb.cpu.pc, 0x0101);
}

#[test]
fn halt_idles_until_an_interrupt_is_requested() {
    let mut gb = machine(&[0x76, 0x00], &[]);
    assert_eq!(run(&mut gb), 1);
    assert!(gb.cpu.halted);
    assert_eq!(gb.cpu.pc, 0x0101);
    for _ in 0..5 {
        assert_eq!(run(&mut gb), 1);
        assert!(gb.cpu.halted);
        assert_eq!(gb.cpu.pc, 0x0101);
    }
}

#[test]
fn halt_wakes_without_the_master_enable() {
    let mut gb = machine(&[0x76, 0x00], &[]);
    run(&mut gb);
    gb.write(0xFFFF, 0x04);
    gb.write(0xFF0F, 0x04);
    assert!(!gb.cpu.ime);
    assert_eq!(run(&mut gb), 1);
    assert!(!gb.cpu.halted);
    assert_eq!(gb.cpu.pc, 0x0102);
    assert_eq!(gb.read(0xFF0F) & 0x04, 0x04);
}

#[test]
fn halt_wakes_into_the_service_routine_with_the_master_enable() {
    let mut gb = machine(&[0x76, 0x00], &[]);
    run(&mut gb);
    gb.cpu.ime = true;
    gb.write(0xFFFF, 0x04);
    gb.write(0xFF0F, 0x04);
    assert_eq!(run(&mut gb), 5);
    assert!(!gb.cpu.halted);
    assert_eq!(gb.cpu.pc, 0x0050);
    assert_eq!(gb.read_word(0xFFFC), 0x0101);
}

#[test]
fn stop_behaves_as_halt() {
    let mut gb = machine(&[0x10, 0x00], &[]);
    assert_eq!(run(&mut gb), 1);
    assert!(gb.cpu.halted);
    assert_eq!(gb.cpu.pc, 0x0101);
}

#[test]
fn ei_and_di_switch_the_master_enable() {
    let mut gb = machine(&[0xFB, 0xF3], &[]);
    assert_eq!(run(&mut gb), 1);
    assert!(gb.cpu.ime);
    assert_eq!(run(&mut gb), 1);
    assert!(!gb.cpu.ime);
}

#[test]
fn undefined_opcodes_stop_the_machine_where_it_is() {
    for op in [0xD3u8, 0xDB, 0xDD, 0xE3, 0xE4, 0xEB, 0xEC, 0xED, 0xF4, 0xFC, 0xFD] {
        let mut gb = machine(&[op], &[]);
        gb.write(0xC000, 0x11);
        let before = gb.cpu;
        assert_eq!(gb.execute(), Err(InvalidOpcode { opcode: op, pc: 0x0100 }));
        assert_eq!(gb.cpu, before);
        assert_eq!(gb.read(0xFF04), 0);
        assert_eq!(gb.read(0xFF41), 0);
        assert_eq!(gb.execute(), Err(InvalidOpcode { opcode: op, pc: 0x0100 }));
    }
}

#[test]
fn prefixed_instructions_take_a_second_byte() {
    let mut gb = machine(&[0xCB, 0x37, 0xCB, 0x7C, 0xCB, 0x86, 0xCB, 0xFE, 0xCB, 0x46], &[]);
    gb.cpu.registers.a = 0xF0;
    gb.cpu.registers.set_hl(0xC000);
    gb.write(0xC000, 0x0F);
    assert_eq!(run(&mut gb), 2);
    assert_eq!(gb.cpu.registers.a, 0x0F);
    assert_eq!(gb.cpu.pc, 0x0102);
    assert_eq!(run(&mut gb), 2);
    assert!(!gb.cpu.registers.flags.z);
    assert!(gb.cpu.registers.flags.h);
    assert_eq!(run(&mut gb), 4);
    assert_eq!(gb.read(0xC000), 0x0E);
    assert_eq!(run(&mut gb), 4);
    assert_eq!(gb.read(0xC000), 0x8E);
    assert_eq!(run(&mut gb), 2);
    assert!(gb.cpu.registers.flags.z);
    assert_eq!(gb.cpu.pc, 0x010A);
}

#[test]
fn swap_twice_restores_the_register() {
    for (op, r) in [
        (0x30u8, Register::B),
        (0x31, Register::C),
        (0x32, Register::D),
        (0x33, Register::E),
        (0x34, Register::H),
        (0x35, Register::L),
        (0x37, Register::A),
    ] {
        let mut gb = machine(&[0xCB, op, 0xCB, op], &[]);
        gb.cpu.write_register(r, 0x5E);
        assert_eq!(run(&mut gb), 2);
        assert_eq!(gb.cpu.read_register(r), 0xE5);
        assert_eq!(run(&mut gb), 2);
        assert_eq!(gb.cpu.read_register(r), 0x5E);
    }
}

#[test]
fn rotations_of_a_clear_z() {
    let mut gb = machine(&[0x07, 0x17, 0x0F, 0x1F], &[]);
    gb.cpu.registers.a = 0x00;
    set_flags(&mut gb, 0x00);
    for _ in 0..4 {
        assert_eq!(run(&mut gb), 1);
        assert_eq!(gb.cpu.registers.a, 0x00);
        assert!(!gb.cpu.registers.flags.z);
    }
    let mut gb = machine(&[0x07, 0x17, 0x0F, 0x1F], &[]);
    gb.cpu.registers.a = 0x81;
    set_flags(&mut gb, 0x00);
    run(&mut gb);
    assert_eq!(gb.cpu.registers.a, 0x03);
    assert!(gb.cpu.registers.flags.c);
    run(&mut gb);
    assert_eq!(gb.cpu.registers.a, 0x07);
    assert!(!gb.cpu.registers.flags.c);
    run(&mut gb);
    assert_eq!(gb.cpu.registers.a, 0x83);
    assert!(gb.cpu.registers.flags.c);
    run(&mut gb);
    assert_eq!(gb.cpu.registers.a, 0xC1);
    assert!(gb.cpu.registers.flags.c);
}

#[test]
fn loads_through_hl_and_its_increments() {
    let mut gb = machine(&[0x22, 0x32, 0x2A, 0x3A, 0x36, 0x5A, 0x7E, 0x70], &[]);
    gb.cpu.registers.set_hl(0xC000);
    gb.cpu.registers.a = 0x11;
    assert_eq!(run(&mut gb), 2);
    assert_eq!(gb.read(0xC000), 0x11);
    assert_eq!(gb.cpu.registers.hl(), 0xC001);
    gb.cpu.registers.a = 0x22;
    assert_eq!(run(&mut gb), 2);
    assert_eq!(gb.read(0xC001), 0x22);
    assert_eq!(gb.cpu.registers.hl(), 0xC000);
    assert_eq!(run(&mut gb), 2);
    assert_eq!(gb.cpu.registers.a, 0x11);
    assert_eq!(gb.cpu.registers.hl(), 0xC001);
    assert_eq!(run(&mut gb), 2);
    assert_eq!(gb.cpu.registers.a, 0x22);
    assert_eq!(gb.cpu.registers.hl(), 0xC000);
    assert_eq!(run(&mut gb), 3);
    assert_eq!(gb.read(0xC000), 0x5A);
    assert_eq!(run(&mut gb), 2);
    assert_eq!(gb.cpu.registers.a, 0x5A);
    gb.cpu.registers.b = 0x77;
    assert_eq!(run(&mut gb), 2);
    assert_eq!(gb.read(0xC000), 0x77);
}

#[test]
fn loads_of_immediates_and_through_pairs() {
    let mut gb = machine(&[0x06, 0x12, 0x21, 0x34, 0xC2, 0x31, 0xF0, 0xDF, 0x02, 0x1A, 0xF9], &[]);
    assert_eq!(run(&mut gb), 2);
    assert_eq!(gb.cpu.registers.b, 0x12);
    assert_eq!(run(&mut gb), 3);
    assert_eq!(gb.cpu.registers.hl(), 0xC234);
    assert_eq!(run(&mut gb), 3);
    assert_eq!(gb.cpu.sp, 0xDFF0);
    gb.cpu.registers.set_bc(0xC100);
    gb.cpu.registers.a = 0x42;
    assert_eq!(run(&mut gb), 2);
    assert_eq!(gb.read(0xC100), 0x42);
    gb.cpu.registers.set_de(0xC100);
    gb.cpu.registers.a = 0x00;
    assert_eq!(run(&mut gb), 2);
    assert_eq!(gb.cpu.registers.a, 0x42);
    assert_eq!(run(&mut gb), 2);
    assert_eq!(gb.cpu.sp, 0xC234);
}

#[test]
fn loads_at_absolute_and_high_addresses() {
    let mut gb = machine(
        &[0xEA, 0x00, 0xC0, 0xFA, 0x00, 0xC0, 0xE0, 0x80, 0xF0, 0x80, 0xE2, 0xF2, 0x08, 0x10, 0xC0],
        &[],
    );
    gb.cpu.registers.a = 0x5C;
    assert_eq!(run(&mut gb), 4);
    assert_eq!(gb.read(0xC000), 0x5C);
    gb.cpu.registers.a = 0;
    assert_eq!(run(&mut gb), 4);
    assert_eq!(gb.cpu.registers.a, 0x5C);
    assert_eq!(run(&mut gb), 3);
    assert_eq!(gb.read(0xFF80), 0x5C);
    gb.cpu.registers.a = 0;
    assert_eq!(run(&mut gb), 3);
    assert_eq!(gb.cpu.registers.a, 0x5C);
    gb.cpu.registers.c = 0x81;
    gb.cpu.registers.a = 0x6D;
    assert_eq!(run(&mut gb), 2);
    assert_eq!(gb.read(0xFF81), 0x6D);
    gb.cpu.registers.a = 0;
    assert_eq!(run(&mut gb), 2);
    assert_eq!(gb.cpu.registers.a, 0x6D);
    gb.cpu.sp = 0xBEEF;
    assert_eq!(run(&mut gb), 5);
    assert_eq!(gb.read(0xC010), 0xEF);
    assert_eq!(gb.read(0xC011), 0xBE);
}

#[test]
fn sixteen_bit_arithmetic() {
    let mut gb = machine(&[0x09, 0xE8, 0xFE, 0xF8, 0x02, 0x29], &[]);
    gb.cpu.registers.set_hl(0x0FFF);
    gb.cpu.registers.set_bc(0x0001);
    set_flags(&mut gb, 0x80);
    assert_eq!(run(&mut gb), 2);
    assert_eq!(gb.cpu.registers.hl(), 0x1000);
    assert_eq!(gb.cpu.registers.flags.bits(), 0xA0);
    gb.cpu.sp = 0xD000;
    assert_eq!(run(&mut gb), 4);
    assert_eq!(gb.cpu.sp, 0xCFFE);
    assert_eq!(gb.cpu.registers.flags.bits(), 0x00);
    assert_eq!(run(&mut gb), 3);
    assert_eq!(gb.cpu.registers.hl(), 0xD000);
    assert_eq!(gb.cpu.sp, 0xCFFE);
    assert_eq!(gb.cpu.registers.flags.bits(), 0x30);
    gb.cpu.registers.set_hl(0x8000);
    assert_eq!(run(&mut gb), 2);
    assert_eq!(gb.cpu.registers.hl(), 0x0000);
    assert_eq!(gb.cpu.registers.flags.bits(), 0x10);
}

#[test]
fn operations_between_a_and_its_three_kinds_of_operand() {
    let mut gb = machine(&[0xA0, 0xB6, 0xEE, 0xFF, 0xB8, 0xBE, 0xFE, 0x01, 0x8E, 0xDE, 0x01], &[]);
    gb.cpu.registers.a = 0xF0;
    gb.cpu.registers.b = 0x3C;
    gb.cpu.registers.set_hl(0xC000);
    gb.write(0xC000, 0x0F);
    assert_eq!(run(&mut gb), 1);
    assert_eq!(gb.cpu.registers.a, 0x30);
    assert_eq!(gb.cpu.registers.flags.bits(), 0x20);
    assert_eq!(run(&mut gb), 2);
    assert_eq!(gb.cpu.registers.a, 0x3F);
    assert_eq!(gb.cpu.registers.flags.bits(), 0x00);
    assert_eq!(run(&mut gb), 2);
    assert_eq!(gb.cpu.registers.a, 0xC0);
    assert_eq!(run(&mut gb), 1);
    assert_eq!(gb.cpu.registers.a, 0xC0);
    assert_eq!(gb.cpu.registers.flags.bits(), 0x60);
    assert_eq!(run(&mut gb), 2);
    assert_eq!(gb.cpu.registers.a, 0xC0);
    assert_eq!(gb.cpu.registers.flags.bits(), 0x60);
    gb.cpu.registers.a = 0x01;
    assert_eq!(run(&mut gb), 2);
    assert_eq!(gb.cpu.registers.a, 0x01);
    assert_eq!(gb.cpu.registers.flags.bits(), 0xC0);
    set_flags(&mut gb, 0x10);
    assert_eq!(run(&mut gb), 2);
    assert_eq!(gb.cpu.registers.a, 0x11);
    assert_eq!(gb.cpu.registers.flags.bits(), 0x20);
    set_flags(&mut gb, 0x10);
    assert_eq!(run(&mut gb), 2);
    assert_eq!(gb.cpu.registers.a, 0x0F);
    assert_eq!(gb.cpu.registers.flags.bits(), 0x60);
}

#[test]
fn flag_instructions() {
    let mut gb = machine(&[0x37, 0x3F, 0x3F, 0x2F], &[]);
    set_flags(&mut gb, 0xE0);
    assert_eq!(run(&mut gb), 1);
    assert_eq!(gb.cpu.registers.flags.bits(), 0x90);
    assert_eq!(run(&mut gb), 1);
    assert_eq!(gb.cpu.registers.flags.bits(), 0x80);
    assert_eq!(run(&mut gb), 1);
    assert_eq!(gb.cpu.registers.flags.bits(), 0x90);
    gb.cpu.registers.a = 0x35;
    assert_eq!(run(&mut gb), 1);
    assert_eq!(gb.cpu.registers.a, 0xCA);
    assert_eq!(gb.cpu.registers.flags.bits(), 0xF0);
}

#[test]
fn pc_wraps_past_the_top_of_memory() {
    let mut gb = machine(&[], &[]);
    gb.cpu.pc = 0xFFFF;
    assert_eq!(run(&mut gb), 1);
    assert_eq!(gb.cpu.pc, 0x0000);
}

#[test]
fn every_instruction_takes_one_to_six_cycles_and_keeps_f_clean() {
    for op in 0..=255u8 {
        let mut gb = machine(&[op, 0x10, 0xC0], &[]);
        gb.cpu.registers.set_hl(0xC000);
        gb.cpu.sp = 0xD000;
        match gb.execute() {
            Ok(m) => {
                assert!((1..=6).contains(&m));
                assert_eq!(gb.cpu.registers.flags.bits() & 0x0F, 0);
                assert!(gb.is_wf());
            },
            Err(e) => assert_eq!(e, InvalidOpcode { opcode: op, pc: 0x0100 }),
        }
    }
}

#[test]
fn execute_opcode_runs_one_decoded_instruction() {
    let mut gb = machine(&[0x37], &[]);
    gb.cpu.registers.set_bc(0x1234);
    assert_eq!(gb.execute_opcode(Opcode::PUSHWR(WideRegister::BC)), 4);
    assert_eq!(gb.execute_opcode(Opcode::POPWR(WideRegister::DE)), 3);
    assert_eq!(gb.cpu.registers.de(), 0x1234);
    assert_eq!(gb.execute_opcode(Opcode::JRCC(Flag::Z)), 3);
    assert_eq!(gb.cpu.pc, 0x0101 + 0x37);
    gb.cpu.pc = 0x0100;
    gb.cpu.registers.a = 0xA5;
    assert_eq!(gb.execute_opcode(Opcode::CB), 2);
    assert_eq!(gb.cpu.registers.a, 0x5A);
    assert_eq!(gb.cpu.pc, 0x0101);
}
