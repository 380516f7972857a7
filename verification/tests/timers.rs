use gb7_core::memory::IORegs;
use gb7_core::timers::Timers;

#[test]
fn tima_overflow_reloads_tma_and_requests_the_interrupt() {
    let mut timers = Timers::new();
    let mut io = IORegs::new();
    io.write(0xFF07, 0x05);
    io.write(0xFF06, 0xAB);
    io.write(0xFF05, 0xFF);
    timers.tick(&mut io, 4);
    assert_eq!(io.read(0xFF05), 0xAB);
    assert_eq!(io.read(0xFF0F) & 0x04, 0x04);
}

#[test]
fn tima_waits_for_a_whole_step() {
    let mut timers = Timers::new();
    let mut io = IORegs::new();
    io.write(0xFF07, 0x05);
    timers.tick(&mut io, 3);
    assert_eq!(io.read(0xFF05), 0);
    timers.tick(&mut io, 1);
    assert_eq!(io.read(0xFF05), 1);
    assert_eq!(io.read(0xFF0F), 0);
    timers.tick(&mut io, 12);
    assert_eq!(io.read(0xFF05), 4);
}

#[test]
fn tima_rates_follow_tac() {
    for (tac, step) in [(0x04u8, 1024u32), (0x05, 16), (0x06, 64), (0x07, 256)] {
        let mut timers = Timers::new();
        let mut io = IORegs::new();
        io.write(0xFF07, tac);
        let mut t = 0u32;
        while t + 4 < step {
            timers.tick(&mut io, 1);
            t += 4;
            assert_eq!(io.read(0xFF05), 0);
        }
        timers.tick(&mut io, 1);
        assert_eq!(io.read(0xFF05), 1);
    }
}

#[test]
fn tima_stands_still_while_disabled() {
    let mut timers = Timers::new();
    let mut io = IORegs::new();
    io.write(0xFF07, 0x01);
    for _ in 0..100 {
        timers.tick(&mut io, 6);
    }
    assert_eq!(io.read(0xFF05), 0);
    assert_eq!(io.read(0xFF0F), 0);
}

#[test]
fn tima_catches_up_after_a_change_of_rate() {
    let mut timers = Timers::new();
    let mut io = IORegs::new();
    io.write(0xFF07, 0x04);
    for _ in 0..4 {
        timers.tick(&mut io, 63);
    }
    assert_eq!(io.read(0xFF05), 0);
    io.write(0xFF07, 0x05);
    timers.tick(&mut io, 1);
    assert_eq!(io.read(0xFF05), 63);
    assert!(timers.is_wf());
}

#[test]
fn div_steps_every_256_t_cycles() {
    let mut timers = Timers::new();
    let mut io = IORegs::new();
    timers.tick(&mut io, 63);
    assert_eq!(io.read(0xFF04), 0);
    timers.tick(&mut io, 1);
    assert_eq!(io.read(0xFF04), 1);
    for _ in 0..64 {
        timers.tick(&mut io, 4);
    }
    assert_eq!(io.read(0xFF04), 5);
}

#[test]
fn div_wraps() {
    let mut timers = Timers::new();
    let mut io = IORegs::new();
    io.write(0xFF04, 0xFF);
    for _ in 0..64 {
        timers.tick(&mut io, 1);
    }
    assert_eq!(io.read(0xFF04), 0x00);
    assert_eq!(Timers::default().is_wf(), true);
}
