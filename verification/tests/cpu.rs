use gb7_core::cpu::{Cpu, CpuFlags, Flag, Register, WideRegister};

#[test]
fn cpu_starts_in_power_on_state() {
    let cpu = Cpu::new();
    assert_eq!(cpu.registers.a, 0x01);
    assert_eq!(cpu.registers.flags.bits(), 0xB0);
    assert_eq!(cpu.registers.b, 0x00);
    assert_eq!(cpu.registers.c, 0x13);
    assert_eq!(cpu.registers.d, 0x00);
    assert_eq!(cpu.registers.e, 0xD8);
    assert_eq!(cpu.registers.h, 0x01);
    assert_eq!(cpu.registers.l, 0x4D);
    assert_eq!(cpu.sp, 0xFFFE);
    assert_eq!(cpu.pc, 0x0100);
    assert!(!cpu.ime);
    assert!(!cpu.halted);
}

#[test]
fn default_cpu_is_the_power_on_state() {
    assert_eq!(Cpu::default(), Cpu::new());
}

#[test]
fn init_restores_the_power_on_state() {
    let mut cpu = Cpu::new();
    cpu.registers.a = 0x77;
    cpu.pc = 0x1234;
    cpu.halted = true;
    cpu.init();
    assert_eq!(cpu, Cpu::new());
}

#[test]
fn flags_sit_in_the_high_nibble() {
    let only = |z, n, h, c| CpuFlags { z, n, h, c }.bits();
    assert_eq!(only(true, false, false, false), 0x80);
    assert_eq!(only(false, true, false, false), 0x40);
    assert_eq!(only(false, false, true, false), 0x20);
    assert_eq!(only(false, false, false, true), 0x10);
    assert_eq!(only(true, true, true, true), 0xF0);
    assert_eq!(only(false, false, false, false), 0x00);
}

#[test]
fn low_nibble_of_f_is_zero_for_every_byte_written() {
    for byte in 0..=255u8 {
        let flags = CpuFlags::from_bits(byte);
        assert_eq!(flags.bits() & 0x0F, 0);
        assert_eq!(flags.bits(), byte & 0xF0);
    }
}

#[test]
fn flags_round_trip_through_their_byte() {
    for bits in 0..16u8 {
        let flags = CpuFlags { z: bits & 8 != 0, n: bits & 4 != 0, h: bits & 2 != 0, c: bits & 1 != 0 };
        assert_eq!(CpuFlags::from_bits(flags.bits()), flags);
    }
}

#[test]
fn set_insert_remove_touch_one_flag() {
    let mut flags = CpuFlags { z: false, n: false, h: false, c: false };
    flags.insert(Flag::H);
    assert_eq!(flags.bits(), 0x20);
    flags.set(Flag::Z, true);
    assert_eq!(flags.bits(), 0xA0);
    flags.set(Flag::H, false);
    assert_eq!(flags.bits(), 0x80);
    flags.insert(Flag::C);
    flags.insert(Flag::N);
    assert_eq!(flags.bits(), 0xD0);
    flags.remove(Flag::Z);
    assert_eq!(flags.bits(), 0x50);
    assert!(flags.contains(Flag::N));
    assert!(flags.contains(Flag::C));
    assert!(!flags.contains(Flag::Z));
    assert!(!flags.contains(Flag::H));
}

#[test]
fn register_pairs_are_high_byte_first() {
    let mut cpu = Cpu::new();
    cpu.registers.b = 0x12;
    cpu.registers.c = 0x34;
    cpu.registers.d = 0x56;
    cpu.registers.e = 0x78;
    cpu.registers.h = 0x9A;
    cpu.registers.l = 0xBC;
    cpu.registers.a = 0xDE;
    cpu.registers.flags = CpuFlags::from_bits(0xF0);
    assert_eq!(cpu.registers.bc(), 0x1234);
    assert_eq!(cpu.registers.de(), 0x5678);
    assert_eq!(cpu.registers.hl(), 0x9ABC);
    assert_eq!(cpu.registers.af(), 0xDEF0);
}

#[test]
fn setting_pairs_splits_the_word() {
    let mut cpu = Cpu::new();
    cpu.registers.set_bc(0xA1B2);
    cpu.registers.set_de(0xC3D4);
    cpu.registers.set_hl(0xE5F6);
    assert_eq!((cpu.registers.b, cpu.registers.c), (0xA1, 0xB2));
    assert_eq!((cpu.registers.d, cpu.registers.e), (0xC3, 0xD4));
    assert_eq!((cpu.registers.h, cpu.registers.l), (0xE5, 0xF6));
}

#[test]
fn set_af_drops_the_low_nibble() {
    let mut cpu = Cpu::new();
    cpu.registers.set_af(0x12FF);
    assert_eq!(cpu.registers.a, 0x12);
    assert_eq!(cpu.registers.af(), 0x12F0);
    cpu.registers.set_af(0x340F);
    assert_eq!(cpu.registers.af(), 0x3400);
}

#[test]
fn registers_read_back_what_was_written() {
    let mut cpu = Cpu::new();
    let all = [
        Register::A,
        Register::B,
        Register::C,
        Register::D,
        Register::E,
        Register::H,
        Register::L,
    ];
    for (i, r) in all.iter().enumerate() {
        cpu.write_register(*r, 0x10 + i as u8);
    }
    for (i, r) in all.iter().enumerate() {
        assert_eq!(cpu.read_register(*r), 0x10 + i as u8);
    }
}

#[test]
fn writing_f_keeps_the_high_nibble_only() {
    let mut cpu = Cpu::new();
    cpu.write_register(Register::F, 0x1F);
    assert_eq!(cpu.read_register(Register::F), 0x10);
    cpu.write_register(Register::F, 0xAB);
    assert_eq!(cpu.read_register(Register::F), 0xA0);
}

#[test]
fn wide_registers_read_back_what_was_written() {
    let mut cpu = Cpu::new();
    cpu.write_wide_register(WideRegister::BC, 0x1122);
    cpu.write_wide_register(WideRegister::DE, 0x3344);
    cpu.write_wide_register(WideRegister::HL, 0x5566);
    cpu.write_wide_register(WideRegister::SP, 0x7788);
    cpu.write_wide_register(WideRegister::PC, 0x99AA);
    cpu.write_wide_register(WideRegister::AF, 0xBBCC);
    assert_eq!(cpu.read_wide_register(WideRegister::BC), 0x1122);
    assert_eq!(cpu.read_wide_register(WideRegister::DE), 0x3344);
    assert_eq!(cpu.read_wide_register(WideRegister::HL), 0x5566);
    assert_eq!(cpu.read_wide_register(WideRegister::SP), 0x7788);
    assert_eq!(cpu.read_wide_register(WideRegister::PC), 0x99AA);
    assert_eq!(cpu.read_wide_register(WideRegister::AF), 0xBBC0);
    assert_eq!(cpu.sp, 0x7788);
    assert_eq!(cpu.pc, 0x99AA);
}
