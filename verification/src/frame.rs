//! The round that a machine makes again and again: it looks for a pending
//! interrupt, lets the processor serve it, wait or execute one instruction,
//! and then lets the picture unit, the timers and the joypad catch up.

use crate::cpu::Cpu;
use crate::gameboy::{lemma_processor_work, Gameboy, GameboyView, CYCLES_PER_FRAME};
use crate::lcd::all_colors;
use crate::joypad::{joypad_register, JoypadButton};
use crate::opcodes::{primary, Opcode};
use crate::ppu::{ly, lyc, mode_bits, stat};
use vstd::prelude::*;

verus! {

/// A byte at PC that stands for no instruction.
#[derive(Clone, Copy, Debug, PartialEq, Eq)]
pub struct InvalidOpcode {
    pub opcode: u8,
    /// The address of the byte.
    pub pc: u16,
}

/// The number of the lowest bit that is set in a byte other than 0.
pub open spec fn lowest_set_bit(v: u8) -> u8 {
    if v & 0x01 != 0 {
        0
    } else if v & 0x02 != 0 {
        1
    } else if v & 0x04 != 0 {
        2
    } else if v & 0x08 != 0 {
        3
    } else if v & 0x10 != 0 {
        4
    } else if v & 0x20 != 0 {
        5
    } else if v & 0x40 != 0 {
        6
    } else {
        7
    }
}

/// The lowest set bit is set, no bit below it is, and it is one of the
/// bits 0 to 7.
pub proof fn lemma_lowest_set_bit(v: u8)
    requires
        v != 0,
    ensures
        lowest_set_bit(v) < 8,
        v & (1u8 << lowest_set_bit(v)) != 0,
        v & ((1u8 << lowest_set_bit(v)) - 1) as u8 == 0,
{
    assert(v != 0 ==> {
        let n: u8 = if v & 0x01 != 0 {
            0
        } else if v & 0x02 != 0 {
            1
        } else if v & 0x04 != 0 {
            2
        } else if v & 0x08 != 0 {
            3
        } else if v & 0x10 != 0 {
            4
        } else if v & 0x20 != 0 {
            5
        } else if v & 0x40 != 0 {
            6
        } else {
            7
        };
        n < 8 && v & (1u8 << n) != 0 && v & (((1u8 << n) - 1) as u8) == 0
    }) by (bit_vector);
}

impl GameboyView {
    /// The interrupts that are both requested in IF (0xFF0F) and enabled in
    /// IE (0xFFFF).
    pub open spec fn pending(self) -> u8 {
        self.read(0xFFFF) & self.read(0xFF0F)
    }

    /// The number of the pending interrupt that comes first: VBlank is 0,
    /// STAT 1, the timer 2, the serial port 3 and the joypad 4.
    pub open spec fn check_interrupts(self) -> Option<u8> {
        if self.pending() == 0 {
            None
        } else {
            Some(lowest_set_bit(self.pending()))
        }
    }

    /// The machine after the processor turned to an interrupt: the master
    /// enable is cleared, the request is cleared in IF, PC is pushed and the
    /// processor goes on at 0x40 plus 8 for each interrupt number.
    pub open spec fn service(self, interrupt: u8) -> GameboyView {
        let s = self.with_cpu(Cpu { ime: false, ..self.cpu });
        s.write(0xFF0F, s.read(0xFF0F) & !(1u8 << interrupt)).restart((0x40 + 8 * interrupt) as u16)
    }

    /// Turning to an interrupt keeps the machine in order.
    pub proof fn lemma_service_wf(self, interrupt: u8)
        requires
            self.wf(),
        ensures
            self.service(interrupt).wf(),
    {
        self.lemma_follows_itself();
        self.lemma_service_follows(self, interrupt);
        reveal(GameboyView::follows);
    }

    /// Turning to an interrupt is work of the processor.
    pub proof fn lemma_service_follows(self, origin: GameboyView, interrupt: u8)
        requires
            self.follows(origin),
        ensures
            self.service(interrupt).follows(origin),
    {
        lemma_processor_work(origin);
    }

    /// The machine with the processor awake, if an interrupt is pending.
    /// Whether interrupts are enabled plays no part in this.
    pub open spec fn woken(self) -> GameboyView {
        if self.cpu.halted && self.check_interrupts() is Some {
            self.with_cpu(Cpu { halted: false, ..self.cpu })
        } else {
            self
        }
    }

    /// What the processor does in one round, and the machine cycles it
    /// takes: it serves the pending interrupt that comes first if the master
    /// enable is set, which takes five machine cycles; else it waits for one
    /// machine cycle if it is halted; else it fetches an opcode and executes
    /// the instruction. A byte that stands for no instruction stops the
    /// machine.
    #[verifier::opaque]
    pub open spec fn cpu_step(self) -> Result<(GameboyView, u8), InvalidOpcode> {
        let s = self.woken();
        if s.cpu.ime && self.check_interrupts() is Some {
            Ok((s.service(self.check_interrupts()->0), 5))
        } else if s.cpu.halted {
            Ok((s, 1))
        } else {
            match primary(s.fetch().0) {
                Some(opcode) => Ok(s.fetch().1.step_opcode(opcode)),
                None => Err(InvalidOpcode { opcode: s.fetch().0, pc: s.cpu.pc }),
            }
        }
    }

    /// The machine after the picture unit, the timers and the joypad, in
    /// this order, were advanced by `m_cycles` machine cycles.
    #[verifier::opaque]
    pub open spec fn tick_all(self, m_cycles: u8) -> GameboyView {
        let p = self.ppu.tick(m_cycles, self.vram, self.oam, self.io, self.lcd);
        let t = self.timers.tick(p.io, m_cycles);
        GameboyView {
            ppu: p.ppu,
            lcd: p.lcd,
            timers: t.0,
            io: t.1.update(0, joypad_register(self.joypad, t.1[0])),
            ..self
        }
    }

    /// One round of the machine, and the machine cycles it took. A byte that
    /// stands for no instruction stops the machine.
    #[verifier::opaque]
    pub open spec fn step(self) -> Result<(GameboyView, u8), InvalidOpcode> {
        match self.cpu_step() {
            Ok((s, m_cycles)) => Ok((s.tick_all(m_cycles), m_cycles)),
            Err(e) => Err(e),
        }
    }

    /// The three low bits of STAT tell the mode of the picture unit and
    /// whether LY equals LYC.
    pub open spec fn stat_coherent(self) -> bool {
        &&& stat(self.io) & 0b11 == mode_bits(self.ppu.mode)
        &&& (stat(self.io) & 0b100 != 0) == (ly(self.io) == lyc(self.io))
    }

    /// What the processor does in a round is work of the processor: it
    /// keeps the machine in order and leaves the picture unit, the frame,
    /// the timers and the buttons alone. It takes from one to six machine
    /// cycles.
    pub proof fn lemma_cpu_step(self)
        ensures
            match self.cpu_step() {
                Ok((s, m_cycles)) => 1 <= m_cycles <= 6 && s.follows(self),
                Err(e) => true,
            },
    {
        reveal(GameboyView::cpu_step);
        lemma_processor_work(self);
        self.lemma_follows_itself();
        let s = self.woken();
        if s.cpu.ime && self.check_interrupts() is Some {
        } else if s.cpu.halted {
        } else {
            match primary(s.fetch().0) {
                Some(opcode) => {
                    s.fetch().1.lemma_step_opcode_cycles(opcode);
                    s.fetch().1.lemma_step_opcode_follows(self, opcode);
                },
                None => {},
            }
        }
    }

    /// The ticks of the picture unit, the timers and the joypad keep the
    /// machine in order and leave the three low bits of STAT telling the
    /// mode of the picture unit and whether LY equals LYC.
    pub proof fn lemma_tick_all(self, m_cycles: u8)
        requires
            self.wf(),
            m_cycles < 64,
        ensures
            self.tick_all(m_cycles).wf(),
            self.tick_all(m_cycles).stat_coherent(),
            self.tick_all(m_cycles).cartridge == self.cartridge,
            self.tick_all(m_cycles).cpu == self.cpu,
    {
        reveal(GameboyView::wf);
        reveal(GameboyView::tick_all);
        let p = self.ppu.tick(m_cycles, self.vram, self.oam, self.io, self.lcd);
        self.ppu.lemma_tick(m_cycles, self.vram, self.oam, self.io, self.lcd);
        self.timers.lemma_tick_wf(p.io, m_cycles);
        self.timers.lemma_tick_touches(p.io, m_cycles);
    }

    /// A round keeps the machine in order, takes from one to six machine
    /// cycles, and leaves the three low bits of STAT telling the mode of the
    /// picture unit and whether LY equals LYC.
    pub proof fn lemma_step(self)
        requires
            self.wf(),
        ensures
            match self.step() {
                Ok((s, m_cycles)) => 1 <= m_cycles <= 6 && s.wf() && s.stat_coherent(),
                Err(e) => true,
            },
    {
        reveal(GameboyView::step);
        reveal(GameboyView::follows);
        self.lemma_cpu_step();
        match self.cpu_step() {
            Ok((s, m_cycles)) => {
                s.lemma_tick_all(m_cycles);
            },
            Err(e) => {},
        }
    }

    /// A round takes from one to six machine cycles.
    pub proof fn lemma_step_cycles(self)
        ensures
            match self.step() {
                Ok((s, m_cycles)) => 1 <= m_cycles <= 6,
                Err(e) => true,
            },
    {
        reveal(GameboyView::step);
        self.lemma_cpu_step();
    }
}

/// The machine after `n` rounds and the t-cycles that they took, if no byte
/// stopped the machine on the way.
pub open spec fn after_rounds(s: GameboyView, n: nat) -> Option<(GameboyView, nat)>
    decreases n,
{
    if n == 0 {
        Some((s, 0nat))
    } else {
        match s.step() {
            Ok((next, m_cycles)) => match after_rounds(next, (n - 1) as nat) {
                Some((end, t_cycles)) => Some((end, t_cycles + 4 * m_cycles as nat)),
                None => None,
            },
            Err(e) => None,
        }
    }
}

/// The t-cycles that a frame still has to run after `elapsed` of them.
pub open spec fn frame_rest(elapsed: nat) -> nat {
    if elapsed >= 70224 {
        0
    } else {
        (70224 - elapsed) as nat
    }
}

/// A machine and the t-cycles of one frame: the machine makes rounds until
/// 70224 t-cycles or more have passed since the frame began, `elapsed` of
/// which have passed already. The result holds the machine at the end and
/// the t-cycles that passed, or the byte that stopped the machine.
pub open spec fn run_frame(s: GameboyView, elapsed: nat) -> (GameboyView, Result<nat, InvalidOpcode>)
    decreases frame_rest(elapsed),
    via run_frame_decreases
{
    if elapsed >= 70224 {
        (s, Ok(elapsed))
    } else {
        match s.step() {
            Ok((next, m_cycles)) => run_frame(next, elapsed + 4 * m_cycles as nat),
            Err(e) => (s, Err(e)),
        }
    }
}

#[via_fn]
proof fn run_frame_decreases(s: GameboyView, elapsed: nat) {
    s.lemma_step_cycles();
}

/// A frame that began in a machine in order ends in one, and if no byte
/// stopped the machine, the frame took 70224 t-cycles and at most 23 more:
/// what the instruction that crossed the mark went beyond it.
pub proof fn lemma_run_frame(s: GameboyView, elapsed: nat)
    requires
        s.wf(),
        elapsed < 70224 + 24,
    ensures
        run_frame(s, elapsed).0.wf(),
        elapsed < 70224 && run_frame(s, elapsed).1 is Ok ==> run_frame(s, elapsed).0.stat_coherent(),
        match run_frame(s, elapsed).1 {
            Ok(total) => 70224 <= total < 70224 + 24 && total >= elapsed,
            Err(e) => true,
        },
    decreases frame_rest(elapsed),
{
    if elapsed < 70224 {
        s.lemma_step();
        match s.step() {
            Ok((next, m_cycles)) => {
                lemma_run_frame(next, elapsed + 4 * m_cycles as nat);
            },
            Err(e) => {},
        }
    }
}

/// A frame that no byte stops ends with the first round at whose end 70224
/// t-cycles or more have passed: it is made of some number of rounds, and
/// after each smaller number of rounds fewer t-cycles had passed. A frame
/// that began with the budget spent makes no round. The number of rounds is
/// returned.
pub proof fn lemma_frame_ends_at_first(s: GameboyView, elapsed: nat) -> (rounds: nat)
    requires
        run_frame(s, elapsed).1 is Ok,
    ensures
        after_rounds(s, rounds) == Some((run_frame(s, elapsed).0, (run_frame(s, elapsed).1->Ok_0
            - elapsed) as nat)),
        run_frame(s, elapsed).1->Ok_0 >= elapsed,
        run_frame(s, elapsed).1->Ok_0 >= 70224,
        rounds == 0 <==> elapsed >= 70224,
        forall|k: nat|
            k < rounds ==> (#[trigger] after_rounds(s, k)) is Some && elapsed + (after_rounds(
                s,
                k,
            )->0).1 < 70224,
    decreases frame_rest(elapsed),
{
    if elapsed >= 70224 {
        0
    } else {
        s.lemma_step_cycles();
        match s.step() {
            Ok((next, m_cycles)) => {
                let passed = elapsed + 4 * m_cycles as nat;
                let rest = lemma_frame_ends_at_first(next, passed);
                assert forall|k: nat| k < rest + 1 implies (#[trigger] after_rounds(s, k)) is Some
                    && elapsed + (after_rounds(s, k)->0).1 < 70224 by {
                    if k > 0 {
                        let j = (k - 1) as nat;
                        assert(after_rounds(next, j) is Some);
                    }
                }
                rest + 1
            },
            Err(e) => 0,
        }
    }
}

/// The outcome of a frame with its count of t-cycles as a natural number.
pub open spec fn frame_outcome(r: Result<u32, InvalidOpcode>) -> Result<nat, InvalidOpcode> {
    match r {
        Ok(total) => Ok(total as nat),
        Err(e) => Err(e),
    }
}

fn lowest_bit(v: u8) -> (r: u8)
    ensures
        r == lowest_set_bit(v),
        r < 8,
{
    if v & 0x01 != 0 {
        0
    } else if v & 0x02 != 0 {
        1
    } else if v & 0x04 != 0 {
        2
    } else if v & 0x08 != 0 {
        3
    } else if v & 0x10 != 0 {
        4
    } else if v & 0x20 != 0 {
        5
    } else if v & 0x40 != 0 {
        6
    } else {
        7
    }
}

impl Gameboy {
    /// The number of the pending interrupt that comes first, if any is
    /// pending.
    pub fn check_interrupts(&self) -> (r: Option<u8>)
        ensures
            r == self@.check_interrupts(),
            r is Some <==> self@.pending() != 0,
            r is Some ==> r->0 < 8 && self@.pending() & (1u8 << r->0) != 0 && self@.pending() & ((1u8
                << r->0) - 1) as u8 == 0,
    {
        proof {
            if self@.pending() != 0 {
                lemma_lowest_set_bit(self@.pending());
            }
        }
        let if_reg = self.read(0xFF0F);
        let interrupts = self.read(0xFFFF) & if_reg;
        if interrupts == 0 {
            None
        } else {
            Some(lowest_bit(interrupts))
        }
    }

    /// Turns the processor to an interrupt.
    pub fn service_interrupt(&mut self, interrupt_num: u8)
        requires
            interrupt_num < 8,
        ensures
            final(self)@ == old(self)@.service(interrupt_num),
            old(self)@.wf() ==> final(self)@.wf(),
    {
        proof {
            if self@.wf() {
                self@.lemma_service_wf(interrupt_num);
            }
        }
        self.cpu.ime = false;
        let requested = self.read(0xFF0F);
        self.write(0xFF0F, requested & !(1u8 << interrupt_num));
        self.rst(0x40 + 8 * interrupt_num as u16);
    }

    /// Advances the picture unit, the timers and the joypad.
    fn tick_components(&mut self, m_cycles: u8)
        requires
            old(self)@.wf(),
            m_cycles < 64,
        ensures
            final(self)@ == old(self)@.tick_all(m_cycles),
            final(self)@.wf(),
            final(self)@.stat_coherent(),
            all_colors(old(self)@.lcd) ==> all_colors(final(self)@.lcd),
    {
        proof {
            reveal(GameboyView::wf);
            reveal(GameboyView::tick_all);
            self@.lemma_tick_all(m_cycles);
        }
        self.ppu.tick(m_cycles, &self.vram, &self.oam, &mut self.io_regs, &mut self.lcd);
        self.timers.tick(&mut self.io_regs, m_cycles);
        self.joypad.tick(&mut self.io_regs);
    }

    /// Lets the processor serve an interrupt, wait or execute one
    /// instruction.
    fn processor_round(&mut self) -> (r: Result<u8, InvalidOpcode>)
        ensures
            match r {
                Ok(m_cycles) => old(self)@.cpu_step() == Ok::<(GameboyView, u8), InvalidOpcode>(
                    (final(self)@, m_cycles),
                ),
                Err(e) => old(self)@.cpu_step() == Err::<(GameboyView, u8), InvalidOpcode>(e)
                    && final(self)@ == old(self)@,
            },
    {
        proof {
            reveal(GameboyView::cpu_step);
        }
        let interrupt = self.check_interrupts();
        let halted = self.cpu.halted && interrupt.is_none();
        match (self.cpu.ime, interrupt) {
            (true, Some(interrupt_num)) => {
                self.cpu.halted = false;
                self.service_interrupt(interrupt_num);
                Ok(5)
            },
            (_, _) => {
                if halted {
                    Ok(1)
                } else {
                    let op = self.read(self.cpu.pc);
                    match Opcode::decode(op) {
                        Some(opcode) => {
                            self.cpu.halted = false;
                            self.fetch();
                            Ok(self.execute_opcode(opcode))
                        },
                        None => Err(InvalidOpcode { opcode: op, pc: self.cpu.pc }),
                    }
                }
            },
        }
    }

    /// Makes one round: serves an interrupt, waits or executes one
    /// instruction, then advances the other components by the machine
    /// cycles that this took, and returns them. A byte at PC that stands for
    /// no instruction is reported, and the machine stays as it is.
    pub fn execute(&mut self) -> (r: Result<u8, InvalidOpcode>)
        requires
            old(self)@.wf(),
        ensures
            match r {
                Ok(m_cycles) => old(self)@.step() == Ok::<(GameboyView, u8), InvalidOpcode>(
                    (final(self)@, m_cycles),
                ) && 1 <= m_cycles <= 6 && final(self)@.stat_coherent(),
                Err(e) => old(self)@.step() == Err::<(GameboyView, u8), InvalidOpcode>(e)
                    && final(self)@ == old(self)@,
            },
            final(self)@.wf(),
            all_colors(old(self)@.lcd) ==> all_colors(final(self)@.lcd),
    {
        proof {
            reveal(GameboyView::step);
            reveal(GameboyView::follows);
            self@.lemma_cpu_step();
        }
        match self.processor_round() {
            Ok(m_cycles) => {
                self.tick_components(m_cycles);
                Ok(m_cycles)
            },
            Err(e) => Err(e),
        }
    }

    /// Makes rounds until a frame's worth of t-cycles has passed, and
    /// returns the t-cycles that did pass. A byte at PC that stands for no
    /// instruction is reported, and the machine stays as it was before that
    /// round.
    pub fn execute_frame(&mut self) -> (r: Result<u32, InvalidOpcode>)
        requires
            old(self)@.wf(),
        ensures
            (final(self)@, frame_outcome(r)) == run_frame(old(self)@, 0),
            final(self)@.wf(),
            match r {
                Ok(total) => 70224 <= total < 70224 + 24 && final(self)@.stat_coherent(),
                Err(e) => true,
            },
            all_colors(old(self)@.lcd) ==> all_colors(final(self)@.lcd),
    {
        let mut cycle_count: u32 = 0;
        while cycle_count < CYCLES_PER_FRAME
            invariant
                self@.wf(),
                cycle_count < 70224 + 24,
                cycle_count > 0 ==> self@.stat_coherent(),
                run_frame(self@, cycle_count as nat) == run_frame(old(self)@, 0),
                all_colors(old(self)@.lcd) ==> all_colors(self@.lcd),
            decreases frame_rest(cycle_count as nat),
        {
            match self.execute() {
                Ok(m_cycles) => {
                    cycle_count += (m_cycles as u32) * 4;
                },
                Err(e) => {
                    return Err(e);
                },
            }
        }
        Ok(cycle_count)
    }

    /// Presses a button.
    pub fn press(&mut self, button: JoypadButton)
        ensures
            final(self)@ == (GameboyView { joypad: old(self)@.joypad & !button.mask(), ..old(self)@ }),
            old(self)@.wf() ==> final(self)@.wf(),
    {
        proof {
            reveal(GameboyView::wf);
        }
        self.joypad.press(button);
    }

    /// Releases a button.
    pub fn release(&mut self, button: JoypadButton)
        ensures
            final(self)@ == (GameboyView { joypad: old(self)@.joypad | button.mask(), ..old(self)@ }),
            old(self)@.wf() ==> final(self)@.wf(),
    {
        proof {
            reveal(GameboyView::wf);
        }
        self.joypad.release(button);
    }

    /// The frame: 144 lines of 160 palette indices, top line first.
    pub fn lcd(&self) -> (r: &[u8; 23040])
        ensures
            r@ == self@.lcd,
    {
        &self.lcd.pixels
    }
}

} // verus!
