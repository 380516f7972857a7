//! The divider and the timer counter.

use crate::memory::IORegs;
use vstd::prelude::*;

verus! {

/// The counters that run below the two registers.
pub struct TimersView {
    /// The t-cycles counted towards the next step of DIV.
    pub div_partial: u8,
    /// The t-cycles counted towards the next step of TIMA.
    pub tima_partial: u16,
}

/// The number of t-cycles per step of TIMA that the control register TAC
/// selects with its two low bits.
pub open spec fn timer_step(tac: u8) -> u16 {
    if tac & 0b011 == 0b00 {
        1024
    } else if tac & 0b011 == 0b01 {
        16
    } else if tac & 0b011 == 0b10 {
        64
    } else {
        256
    }
}

/// The registers after one step of TIMA (0xFF05): it counts up, and from
/// 0xFF it goes to the value of TMA (0xFF06) and requests the timer
/// interrupt, bit 2 of IF (0xFF0F).
pub open spec fn tima_step(io: Seq<u8>) -> Seq<u8> {
    if io[0x05] == 0xFF {
        io.update(0x05, io[0x06]).update(0x0F, io[0x0F] | 0b00100)
    } else {
        io.update(0x05, (io[0x05] + 1) as u8)
    }
}

/// The registers and the count of t-cycles left after TIMA made one step
/// for every `step` t-cycles in `partial`.
pub open spec fn tima_run(io: Seq<u8>, partial: u16, step: u16) -> (Seq<u8>, u16)
    decreases partial,
{
    if step > 0 && partial >= step {
        tima_run(tima_step(io), (partial - step) as u16, step)
    } else {
        (io, partial)
    }
}

/// TIMA makes `partial / step` steps and `partial % step` t-cycles are left.
pub proof fn lemma_tima_run_remainder(io: Seq<u8>, partial: u16, step: u16)
    requires
        step > 0,
        io.len() == 128,
    ensures
        tima_run(io, partial, step).1 == partial % step,
        tima_run(io, partial, step).0.len() == 128,
    decreases partial,
{
    if partial >= step {
        lemma_tima_run_remainder(tima_step(io), (partial - step) as u16, step);
        vstd::arithmetic::div_mod::lemma_mod_sub_multiples_vanish(partial as int, step as int);
    } else {
        vstd::arithmetic::div_mod::lemma_small_mod(partial as nat, step as nat);
    }
}

/// The steps of TIMA write TIMA and the interrupt flags and nothing else.
pub proof fn lemma_tima_run_touches(io: Seq<u8>, partial: u16, step: u16)
    requires
        io.len() == 128,
    ensures
        ({
            let after = tima_run(io, partial, step).0;
            &&& after.len() == 128
            &&& forall|i: int|
                0 <= i < 128 && i != 0x05 && i != 0x0F ==> #[trigger] after[i] == io[i]
        }),
    decreases partial,
{
    if step > 0 && partial >= step {
        let next = tima_step(io);
        assert(next.len() == 128);
        assert(forall|i: int| 0 <= i < 128 && i != 0x05 && i != 0x0F ==> #[trigger] next[i] == io[i]);
        lemma_tima_run_touches(next, (partial - step) as u16, step);
    }
}

impl TimersView {
    /// Holds between ticks: less than one step of the slowest rate is
    /// pending.
    pub open spec fn wf(self) -> bool {
        self.tima_partial < 1024
    }

    /// The registers after DIV (0xFF04) was advanced by `t` t-cycles: it
    /// steps when the count of pending t-cycles passes 255.
    pub open spec fn div_tick(self, io: Seq<u8>, t: int) -> Seq<u8> {
        if self.div_partial + t > 255 {
            io.update(0x04, ((io[0x04] + 1) % 256) as u8)
        } else {
            io
        }
    }

    /// The counters and the registers after `m_cycles` machine cycles of
    /// four t-cycles each. TIMA runs only while bit 2 of TAC (0xFF07) is
    /// set.
    pub open spec fn tick(self, io: Seq<u8>, m_cycles: u8) -> (TimersView, Seq<u8>) {
        let t = m_cycles * 4;
        let io1 = self.div_tick(io, t);
        let div_partial = ((self.div_partial + t) % 256) as u8;
        let tac = io1[0x07];
        if tac & 0b100 != 0 {
            let run = tima_run(io1, (self.tima_partial + t) as u16, timer_step(tac));
            (TimersView { div_partial, tima_partial: run.1 }, run.0)
        } else {
            (TimersView { div_partial, tima_partial: self.tima_partial }, io1)
        }
    }
}

impl TimersView {
    /// A tick leaves less than one step of TIMA pending.
    pub proof fn lemma_tick_wf(self, io: Seq<u8>, m_cycles: u8)
        requires
            self.wf(),
            io.len() == 128,
            m_cycles < 64,
        ensures
            self.tick(io, m_cycles).0.wf(),
    {
        let io1 = self.div_tick(io, m_cycles * 4);
        let tac = io1[0x07];
        assert(timer_step(tac) == 1024 || timer_step(tac) == 16 || timer_step(tac) == 64
            || timer_step(tac) == 256);
        lemma_tima_run_remainder(io1, (self.tima_partial + m_cycles * 4) as u16, timer_step(tac));
    }

    /// A tick of the timers writes DIV, TIMA and the interrupt flags and
    /// nothing else.
    pub proof fn lemma_tick_touches(self, io: Seq<u8>, m_cycles: u8)
        requires
            self.wf(),
            io.len() == 128,
            m_cycles < 64,
        ensures
            ({
                let after = self.tick(io, m_cycles).1;
                &&& after.len() == 128
                &&& forall|i: int|
                    0 <= i < 128 && i != 0x04 && i != 0x05 && i != 0x0F ==> #[trigger] after[i]
                        == io[i]
            }),
    {
        let io1 = self.div_tick(io, m_cycles * 4);
        assert(io1.len() == 128);
        assert(forall|i: int| 0 <= i < 128 && i != 0x04 ==> #[trigger] io1[i] == io[i]);
        lemma_tima_run_touches(
            io1,
            (self.tima_partial + m_cycles * 4) as u16,
            timer_step(io1[0x07]),
        );
    }
}

/// The counters below DIV and TIMA.
pub struct Timers {
    div_partial: u8,
    tima_partial: u16,
}

impl View for Timers {
    type V = TimersView;

    closed spec fn view(&self) -> TimersView {
        TimersView { div_partial: self.div_partial, tima_partial: self.tima_partial }
    }
}

impl Timers {
    /// Timers with nothing counted yet.
    pub fn new() -> (r: Self)
        ensures
            r@ == (TimersView { div_partial: 0, tima_partial: 0 }),
            r@.wf(),
    {
        Timers { div_partial: 0, tima_partial: 0 }
    }

    /// Whether the counters are in order.
    pub fn is_wf(&self) -> (ok: bool)
        ensures
            ok == self@.wf(),
    {
        self.tima_partial < 1024
    }

    /// Advances DIV and TIMA by `m_cycles` machine cycles.
    pub fn tick(&mut self, io_regs: &mut IORegs, m_cycles: u8)
        requires
            old(self)@.wf(),
            m_cycles < 64,
        ensures
            (final(self)@, final(io_regs)@) == old(self)@.tick(old(io_regs)@, m_cycles),
            final(self)@.wf(),
    {
        proof {
            io_regs.lemma_len();
        }
        let t_cycles: u8 = m_cycles * 4;
        let div_sum: u16 = self.div_partial as u16 + t_cycles as u16;
        self.div_partial = (div_sum % 256) as u8;
        if div_sum > 255 {
            let div = io_regs.read(0xFF04);
            io_regs.write(0xFF04, div.wrapping_add(1));
        }
        let tac = io_regs.read(0xFF07);
        if tac & 0b100 != 0 {
            self.tima_partial = self.tima_partial + t_cycles as u16;
            let timer_step: u16 = if tac & 0b011 == 0b00 {
                1024
            } else if tac & 0b011 == 0b01 {
                16
            } else if tac & 0b011 == 0b10 {
                64
            } else {
                256
            };
            let ghost io1 = io_regs@;
            let ghost total = self.tima_partial;
            while self.tima_partial >= timer_step
                invariant
                    0 < timer_step <= 1024,
                    timer_step == crate::timers::timer_step(tac),
                    tac == io1[0x07],
                    tac & 0b100 != 0,
                    io1 == old(self)@.div_tick(old(io_regs)@, m_cycles * 4),
                    total == old(self)@.tima_partial + m_cycles * 4,
                    self.div_partial == ((old(self)@.div_partial + m_cycles * 4) % 256) as u8,
                    tima_run(io_regs@, self.tima_partial, timer_step) == tima_run(
                        io1,
                        total,
                        timer_step,
                    ),
                decreases self.tima_partial,
            {
                proof {
                    io_regs.lemma_len();
                }
                let prev_tima = io_regs.read(0xFF05);
                if prev_tima == 0xFF {
                    let tma = io_regs.read(0xFF06);
                    io_regs.write(0xFF05, tma);
                    let flags = io_regs.read(0xFF0F);
                    io_regs.write(0xFF0F, flags | 0b00100);
                } else {
                    io_regs.write(0xFF05, prev_tima + 1);
                }
                self.tima_partial = self.tima_partial - timer_step;
            }
        }
    }
}

impl Default for Timers {
    fn default() -> (r: Self)
        ensures
            r@ == (TimersView { div_partial: 0, tima_partial: 0 }),
    {
        Timers::new()
    }
}

} // verus!
