use gb7_core::cartridge::load_cartridge;
use gb7_core::frame::InvalidOpcode;
use gb7_core::gameboy::Gameboy;
use gb7_core::ppu::PpuMode;

fn machine(program: &[u8]) -> Gameboy {
    let mut rom = vec![0u8; 0x8000];
    rom[0x100..0x100 + program.len()].copy_from_slice(program);
    match load_cartridge(&rom) {
        Ok(cart) => Gameboy::new_dmg(cart),
        Err(e) => panic!("image refused: {:?}", e),
    }
}

#[test]
fn a_round_ticks_the_other_components() {
    let mut gb = machine(&[0x00]);
    assert_eq!(gb.read(0xFF41), 0);
    assert_eq!(gb.execute(), Ok(1));
    assert_eq!(gb.read(0xFF41), 0x06);
    assert_eq!(gb.read(0xFF00), 0xCF);
    assert_eq!(gb.ppu.line_cycles(), 4);
    assert_eq!(gb.ppu.mode(), PpuMode::OAMScan);
}

#[test]
fn a_round_feeds_its_cycles_to_the_timer() {
    let mut gb = machine(&[0xCD, 0x03, 0x01, 0x00]);
    gb.write(0xFF07, 0x05);
    gb.write(0xFF05, 0xFF);
    gb.write(0xFF06, 0xAB);
    assert_eq!(gb.execute(), Ok(6));
    assert_eq!(gb.ppu.line_cycles(), 24);
    assert_eq!(gb.read(0xFF05), 0xAB);
    assert_eq!(gb.read(0xFF0F) & 0x04, 0x04);
    assert_eq!(gb.execute(), Ok(1));
    assert_eq!(gb.ppu.line_cycles(), 28);
    assert_eq!(gb.read(0xFF05), 0xAB);
    assert_eq!(gb.execute(), Ok(1));
    assert_eq!(gb.read(0xFF05), 0xAC);
}

#[test]
fn the_timer_interrupt_reaches_the_processor_in_the_next_round() {
    let mut gb = machine(&[0x00, 0x00, 0x00, 0x00, 0x00, 0x00]);
    gb.cpu.ime = true;
    gb.write(0xFFFF, 0x04);
    gb.write(0xFF07, 0x05);
    gb.write(0xFF05, 0xFF);
    for _ in 0..3 {
        assert_eq!(gb.execute(), Ok(1));
        assert_eq!(gb.read(0xFF0F) & 0x04, 0);
    }
    assert_eq!(gb.execute(), Ok(1));
    assert_eq!(gb.read(0xFF0F) & 0x04, 0x04);
    assert_eq!(gb.cpu.pc, 0x0104);
    assert_eq!(gb.execute(), Ok(5));
    assert_eq!(gb.cpu.pc, 0x0050);
    assert_eq!(gb.read(0xFF0F) & 0x04, 0);
    assert_eq!(gb.read_word(gb.cpu.sp), 0x0104);
}

#[test]
fn a_frame_of_nops_takes_70224_t_cycles() {
    let mut gb = machine(&[]);
    assert_eq!(gb.execute_frame(), Ok(70224));
    assert_eq!(gb.read(0xFF44), 0);
    assert_eq!(gb.ppu.mode(), PpuMode::OAMScan);
    assert_eq!(gb.ppu.line_cycles(), 0);
    assert_eq!(gb.read(0xFF0F) & 0x01, 0x01);
    assert_eq!(gb.read(0xFF04), 18);
    assert_eq!(gb.cpu.pc, 0x0100 + 17556);
    assert!(gb.is_wf());
}

#[test]
fn a_frame_ends_with_the_instruction_that_crosses_the_mark() {
    let mut gb = machine(&[0x08, 0x00, 0xC0, 0x18, 0xFB]);
    assert_eq!(gb.execute_frame(), Ok(70228));
    assert_eq!(gb.cpu.pc, 0x0103);
    assert_eq!(gb.read_word(0xC000), 0xFFFE);
    assert_eq!(gb.execute_frame(), Ok(70240));
    assert_eq!(gb.cpu.pc, 0x0103);
}

#[test]
fn frames_stay_within_one_instruction_of_the_mark() {
    let programs: [&[u8]; 5] = [
        &[0x18, 0xFE],
        &[0xCD, 0x00, 0x01],
        &[0x34, 0x18, 0xFD],
        &[0xC5, 0xC1, 0x08, 0x00, 0xC0, 0xC3, 0x00, 0x01],
        &[0x76],
    ];
    for program in programs {
        let mut gb = machine(program);
        gb.cpu.registers.set_hl(0xC000);
        gb.cpu.sp = 0xE000;
        for _ in 0..3 {
            match gb.execute_frame() {
                Ok(total) => assert!((70224..=70247).contains(&total)),
                Err(e) => panic!("stopped by {:?}", e),
            }
            assert!(gb.is_wf());
            assert_eq!(gb.cpu.registers.flags.bits() & 0x0F, 0);
            let mode_bits = match gb.ppu.mode() {
                PpuMode::HBlank => 0,
                PpuMode::VBlank => 1,
                PpuMode::OAMScan => 2,
                PpuMode::Drawing => 3,
            };
            assert_eq!(gb.read(0xFF41) & 0x03, mode_bits);
            assert_eq!(gb.read(0xFF41) & 0x04 != 0, gb.read(0xFF44) == gb.read(0xFF45));
            assert!(gb.ppu.line_cycles() < 456);
            assert!(gb.read(0xFF44) < 154);
        }
    }
}

#[test]
fn a_frame_stops_at_an_undefined_opcode() {
    let mut gb = machine(&[0x00, 0x3C, 0xD3, 0x3C]);
    assert_eq!(gb.execute_frame(), Err(InvalidOpcode { opcode: 0xD3, pc: 0x0102 }));
    assert_eq!(gb.cpu.pc, 0x0102);
    assert_eq!(gb.cpu.registers.a, 0x02);
    assert_eq!(gb.ppu.line_cycles(), 8);
    assert_eq!(gb.execute_frame(), Err(InvalidOpcode { opcode: 0xD3, pc: 0x0102 }));
    assert_eq!(gb.ppu.line_cycles(), 8);
}

#[test]
fn a_program_can_draw_a_frame() {
    let program = [
        0x3E, 0xE4, 0xE0, 0x47, // BGP = 0xE4
        0x3E, 0xFF, 0xEA, 0x00, 0x80, // tile 0, row 0, low bits
        0xEA, 0x03, 0x80, // tile 0, row 1, high bits
        0x3E, 0x91, 0xE0, 0x40, // LCDC = 0x91
        0x18, 0xFE, // loop
    ];
    let mut gb = machine(&program);
    assert_eq!(gb.execute_frame().map(|total| total >= 70224), Ok(true));
    assert_eq!(gb.execute_frame().map(|total| total >= 70224), Ok(true));
    let lcd = gb.lcd();
    for ly in 0..144usize {
        for x in 0..160usize {
            let expected = match ly % 8 {
                0 => 1,
                1 => 2,
                _ => 0,
            };
            assert_eq!(lcd[ly * 160 + x], expected);
        }
    }
}

#[test]
fn identical_machines_stay_identical() {
    let program = [
        0x3E, 0xE4, 0xE0, 0x47, 0x3E, 0x93, 0xE0, 0x40, 0x21, 0x00, 0x80, 0x3C, 0x22, 0x7C, 0xFE,
        0xA0, 0x20, 0xF9, 0x3E, 0x80, 0xE0, 0x46, 0x18, 0xEA,
    ];
    let mut one = machine(&program);
    let mut two = machine(&program);
    for _ in 0..5 {
        assert_eq!(one.execute_frame(), two.execute_frame());
        assert_eq!(one.cpu, two.cpu);
        assert_eq!(one.lcd().to_vec(), two.lcd().to_vec());
        for addr in [0xFF01u16, 0xFF02, 0xFF04, 0xFF0F, 0xFF41, 0xFF44] {
            assert_eq!(one.read(addr), two.read(addr));
        }
    }
    assert!(one.lcd().iter().all(|p| *p <= 3));
    assert!(one.lcd().iter().any(|p| *p != 0));
}
