//! The machine as a whole: the components and the bus that joins them.

use crate::alu::{dec16, inc16};
use crate::cartridge::{CartMemory, Cartridge, CartridgeView, MbcKind};
use crate::cpu::{high_byte, low_byte, pair, Cpu};
use crate::joypad::Joypad;
use crate::lcd::{all_colors, Lcd};
use crate::memory::{GBVideoRam, GBWorkRam, HighRam, IORegs, Oam, VideoMem, VideoRam, WorkMem, WorkRam, zeros};
use crate::ppu::{Ppu, PpuView};
use crate::timers::{Timers, TimersView};
use vstd::prelude::*;

verus! {

/// The number of t-cycles of one frame.
pub const CYCLES_PER_FRAME: u32 = 70224;

/// The whole state of a machine.
pub struct GameboyView {
    pub cpu: Cpu,
    pub ppu: PpuView,
    /// The frame buffer: 144 lines of 160 palette indices.
    pub lcd: Seq<u8>,
    /// The buttons, one bit each; 0 for a pressed one.
    pub joypad: u8,
    pub timers: TimersView,
    pub cartridge: CartridgeView,
    /// Work RAM, 0xC000 to 0xDFFF, seen again at 0xE000 to 0xFDFF.
    pub wram: Seq<u8>,
    /// Video RAM, 0x8000 to 0x9FFF.
    pub vram: Seq<u8>,
    /// The sprite attribute table, 0xFE00 to 0xFE9F.
    pub oam: Seq<u8>,
    /// The I/O registers, 0xFF00 to 0xFF7F.
    pub io: Seq<u8>,
    /// High RAM, 0xFF80 to 0xFFFE, and the interrupt enable register.
    pub hram: Seq<u8>,
}

/// The address from which byte `i` of a sprite table transfer is read, for
/// the page number written to 0xFF46.
pub open spec fn dma_source(page: u8, i: int) -> u16 {
    (page * 256 + i) as u16
}

impl GameboyView {
    /// The sizes of the memories of the DMG.
    pub open spec fn sized(self) -> bool {
        &&& self.lcd.len() == 23040
        &&& self.wram.len() == 8192
        &&& self.vram.len() == 8192
        &&& self.oam.len() == 160
        &&& self.io.len() == 128
        &&& self.hram.len() == 128
    }

    /// What holds of a machine between instructions: the memories have
    /// their sizes, and the cartridge, the timers and the picture unit are
    /// in order.
    #[verifier::opaque]
    pub open spec fn wf(self) -> bool {
        &&& self.sized()
        &&& self.cartridge.wf()
        &&& self.timers.wf()
        &&& self.ppu.wf(self.io)
    }

    /// The byte that the bus reads at an address.
    pub open spec fn read(self, addr: u16) -> u8 {
        if addr <= 0x7FFF {
            self.cartridge.read(addr)
        } else if addr <= 0x9FFF {
            self.vram[addr - 0x8000]
        } else if addr <= 0xBFFF {
            self.cartridge.read(addr)
        } else if addr <= 0xDFFF {
            self.wram[addr - 0xC000]
        } else if addr <= 0xFDFF {
            self.wram[addr - 0xE000]
        } else if addr <= 0xFE9F {
            self.oam[addr - 0xFE00]
        } else if addr <= 0xFEFF {
            0xFF
        } else if addr <= 0xFF7F {
            self.io[addr - 0xFF00]
        } else {
            self.hram[addr - 0xFF80]
        }
    }

    /// The machine after a write to an I/O register. LY (0xFF44) belongs to
    /// the picture unit and keeps its value. A write to 0xFF46 stores the
    /// byte and then fills the sprite table with the 160 bytes read from the
    /// page that the byte names.
    pub open spec fn write_io(self, addr: u16, val: u8) -> GameboyView {
        if addr == 0xFF44 {
            self
        } else {
            let stored = GameboyView { io: self.io.update(addr - 0xFF00, val), ..self };
            if addr == 0xFF46 {
                GameboyView {
                    oam: Seq::new(160, |i: int| stored.read(dma_source(val, i))),
                    ..stored
                }
            } else {
                stored
            }
        }
    }

    /// The machine after the bus wrote a byte at an address. Writes to
    /// 0xFEA0 to 0xFEFF are dropped.
    pub open spec fn write(self, addr: u16, val: u8) -> GameboyView {
        if addr <= 0x7FFF {
            GameboyView { cartridge: self.cartridge.write(addr, val), ..self }
        } else if addr <= 0x9FFF {
            GameboyView { vram: self.vram.update(addr - 0x8000, val), ..self }
        } else if addr <= 0xBFFF {
            GameboyView { cartridge: self.cartridge.write(addr, val), ..self }
        } else if addr <= 0xDFFF {
            GameboyView { wram: self.wram.update(addr - 0xC000, val), ..self }
        } else if addr <= 0xFDFF {
            GameboyView { wram: self.wram.update(addr - 0xE000, val), ..self }
        } else if addr <= 0xFE9F {
            GameboyView { oam: self.oam.update(addr - 0xFE00, val), ..self }
        } else if addr <= 0xFEFF {
            self
        } else if addr <= 0xFF7F {
            self.write_io(addr, val)
        } else {
            GameboyView { hram: self.hram.update(addr - 0xFF80, val), ..self }
        }
    }

    /// Whether a byte written at an address is read back from it: the
    /// address is in video RAM, in work RAM or its echo, in the sprite table,
    /// an I/O register other than LY, in high RAM, or in the RAM of a
    /// cartridge with a controller while that RAM is enabled.
    pub open spec fn retains(self, addr: u16) -> bool {
        if addr <= 0x7FFF {
            false
        } else if addr <= 0x9FFF {
            true
        } else if addr <= 0xBFFF {
            &&& self.cartridge.kind != MbcKind::NoMbc
            &&& self.cartridge.ram_enabled
            &&& 0 <= self.cartridge.ram_index(addr) < self.cartridge.ram.len()
        } else if addr <= 0xFE9F {
            true
        } else if addr <= 0xFEFF {
            false
        } else {
            addr != 0xFF44
        }
    }

    /// The little-endian word at an address: the low byte at `addr`, the
    /// high byte at the address after it, which is 0 after 0xFFFF.
    pub open spec fn read_word(self, addr: u16) -> u16 {
        pair(self.read(inc16(addr)), self.read(addr))
    }

    /// The machine after a little-endian word was written: first the high
    /// byte at the address after `addr`, then the low byte at `addr`.
    pub open spec fn write_word(self, addr: u16, val: u16) -> GameboyView {
        self.write(inc16(addr), high_byte(val)).write(addr, low_byte(val))
    }

    /// The machine with another processor state.
    pub open spec fn with_cpu(self, cpu: Cpu) -> GameboyView {
        GameboyView { cpu, ..self }
    }

    /// The byte at PC, and the machine with PC moved past it.
    pub open spec fn fetch(self) -> (u8, GameboyView) {
        (self.read(self.cpu.pc), self.with_cpu(Cpu { pc: inc16(self.cpu.pc), ..self.cpu }))
    }

    /// The little-endian word at PC, and the machine with PC moved past it.
    pub open spec fn fetch_word(self) -> (u16, GameboyView) {
        let (lo, s1) = self.fetch();
        let (hi, s2) = s1.fetch();
        (pair(hi, lo), s2)
    }

    /// The machine after a byte was pushed: SP goes down by one and the byte
    /// is written where it then points.
    pub open spec fn push(self, val: u8) -> GameboyView {
        let sp = dec16(self.cpu.sp);
        self.with_cpu(Cpu { sp, ..self.cpu }).write(sp, val)
    }

    /// The byte on top of the stack, and the machine with SP moved up by
    /// one.
    pub open spec fn pop(self) -> (u8, GameboyView) {
        (self.read(self.cpu.sp), self.with_cpu(Cpu { sp: inc16(self.cpu.sp), ..self.cpu }))
    }

    /// The machine after a word was pushed, high byte first.
    pub open spec fn push_word(self, val: u16) -> GameboyView {
        self.push(high_byte(val)).push(low_byte(val))
    }

    /// The word on top of the stack, low byte first, and the machine with SP
    /// moved up by two.
    pub open spec fn pop_word(self) -> (u16, GameboyView) {
        let (lo, s1) = self.pop();
        let (hi, s2) = s1.pop();
        (pair(hi, lo), s2)
    }

    /// No write on the bus breaks what holds of a machine.
    pub proof fn lemma_write_wf(self, addr: u16, val: u8)
        requires
            self.wf(),
        ensures
            self.write(addr, val).wf(),
    {
        reveal(GameboyView::wf);
        self.cartridge.lemma_write_keeps_wf(addr, val);
    }

    /// Whether this machine can have come from `origin` by the work of the
    /// processor alone: the picture unit, the frame, the timers and the
    /// buttons are as they were, and the machine is in order if `origin`
    /// was.
    #[verifier::opaque]
    pub open spec fn follows(self, origin: GameboyView) -> bool {
        &&& origin.wf() ==> self.wf()
        &&& self.ppu == origin.ppu
        &&& self.lcd == origin.lcd
        &&& self.timers == origin.timers
        &&& self.joypad == origin.joypad
    }

    /// A machine follows itself.
    pub proof fn lemma_follows_itself(self)
        ensures
            self.follows(self),
    {
        reveal(GameboyView::follows);
    }

    /// A write on the bus is work of the processor.
    pub proof fn lemma_write_follows(self, origin: GameboyView, addr: u16, val: u8)
        requires
            self.follows(origin),
        ensures
            self.write(addr, val).follows(origin),
    {
        reveal(GameboyView::follows);
        if self.wf() {
            self.lemma_write_wf(addr, val);
        }
    }

    /// A change of the state of the processor is work of the processor.
    pub proof fn lemma_with_cpu_follows(self, origin: GameboyView, cpu: Cpu)
        requires
            self.follows(origin),
        ensures
            self.with_cpu(cpu).follows(origin),
    {
        reveal(GameboyView::follows);
        reveal(GameboyView::wf);
    }

    /// A byte written where bytes are retained is read back.
    pub proof fn lemma_read_after_write(self, addr: u16, val: u8)
        requires
            self.sized(),
            self.retains(addr),
        ensures
            self.write(addr, val).read(addr) == val,
            self.write(addr, val).sized(),
            self.write(addr, val).cpu == self.cpu,
    {
    }

    /// A write where bytes are retained does not change where bytes are
    /// retained.
    pub proof fn lemma_write_keeps_retained(self, addr: u16, val: u8, other: u16)
        requires
            self.sized(),
            self.retains(addr),
            self.retains(other),
        ensures
            self.write(addr, val).retains(other),
    {
    }

    /// A write where bytes are retained leaves the byte at the next address
    /// as it was, if bytes are retained there too.
    pub proof fn lemma_write_leaves_next(self, addr: u16, val: u8)
        requires
            self.sized(),
            self.retains(addr),
            self.retains(inc16(addr)),
        ensures
            self.write(addr, val).read(inc16(addr)) == self.read(inc16(addr)),
            self.write(addr, val).retains(inc16(addr)),
    {
    }

    /// Fetches, pushes, pops, writes of words and a reset of the processor
    /// are work of the processor.
    pub proof fn lemma_bus_follows(self, origin: GameboyView, addr: u16, word: u16, byte: u8)
        requires
            self.follows(origin),
        ensures
            self.fetch().1.follows(origin),
            self.fetch_word().1.follows(origin),
            self.pop().1.follows(origin),
            self.pop_word().1.follows(origin),
            self.with_cpu(Cpu::power_on()).follows(origin),
            self.push(byte).follows(origin),
            self.push_word(word).follows(origin),
            self.write_word(addr, word).follows(origin),
    {
        lemma_processor_work(origin);
    }

    /// Fetches, pushes, pops and writes of words keep the machine in order,
    /// and so does a reset of the processor.
    pub proof fn lemma_bus_wf(self, addr: u16, word: u16, byte: u8)
        requires
            self.wf(),
        ensures
            self.fetch().1.wf(),
            self.fetch_word().1.wf(),
            self.pop().1.wf(),
            self.pop_word().1.wf(),
            self.with_cpu(Cpu::power_on()).wf(),
            self.push(byte).wf(),
            self.push_word(word).wf(),
            self.write_word(addr, word).wf(),
    {
        self.lemma_follows_itself();
        self.lemma_bus_follows(self, addr, word, byte);
        reveal(GameboyView::follows);
    }

    /// The machine as it is switched on with a cartridge in it.
    pub open spec fn power_on(cartridge: CartridgeView) -> GameboyView {
        GameboyView {
            cpu: Cpu::power_on(),
            ppu: PpuView::power_on(),
            lcd: zeros(23040),
            joypad: 0xFF,
            timers: TimersView { div_partial: 0, tima_partial: 0 },
            cartridge,
            wram: zeros(8192),
            vram: zeros(8192),
            oam: zeros(160),
            io: zeros(128),
            hram: zeros(128),
        }
    }
}

/// Every write on the bus and every change of the processor state is work
/// of the processor.
pub proof fn lemma_processor_work(origin: GameboyView)
    ensures
        forall|s: GameboyView, addr: u16, val: u8|
            s.follows(origin) ==> #[trigger] s.write(addr, val).follows(origin),
        forall|s: GameboyView, cpu: Cpu| s.follows(origin) ==> #[trigger] s.with_cpu(cpu).follows(origin),
{
    assert forall|s: GameboyView, cpu: Cpu| s.follows(origin) implies #[trigger] s.with_cpu(
        cpu,
    ).follows(origin) by {
        s.lemma_with_cpu_follows(origin, cpu);
    }
    assert forall|s: GameboyView, addr: u16, val: u8| s.follows(origin) implies #[trigger] s.write(
        addr,
        val,
    ).follows(origin) by {
        s.lemma_write_follows(origin, addr, val);
    }
}

/// A machine: the processor and the components that share its bus.
pub struct Gameboy {
    pub cpu: Cpu,
    pub ppu: Ppu,
    pub lcd: Lcd,
    pub joypad: Joypad,
    pub timers: Timers,
    pub cartridge: Cartridge,
    pub wram: WorkRam,
    pub vram: VideoRam,
    pub oam: Oam,
    pub io_regs: IORegs,
    pub high_ram: HighRam,
}

impl View for Gameboy {
    type V = GameboyView;

    open spec fn view(&self) -> GameboyView {
        GameboyView {
            cpu: self.cpu,
            ppu: self.ppu@,
            lcd: self.lcd@,
            joypad: self.joypad@,
            timers: self.timers@,
            cartridge: self.cartridge@,
            wram: self.wram@,
            vram: self.vram@,
            oam: self.oam@,
            io: self.io_regs@,
            hram: self.high_ram@,
        }
    }
}

impl Gameboy {
    /// The memories of a machine have the sizes of the DMG.
    pub proof fn lemma_sized(&self)
        ensures
            self@.sized(),
    {
        self.wram.lemma_len();
        self.vram.lemma_len();
        self.oam.lemma_len();
        self.io_regs.lemma_len();
        self.high_ram.lemma_len();
    }

    /// A machine of the DMG model, switched on with a cartridge in it.
    pub fn new_dmg(cartridge: Cartridge) -> (gb: Self)
        ensures
            gb@ == GameboyView::power_on(cartridge@),
            cartridge@.wf() ==> gb@.wf(),
            all_colors(gb@.lcd),
    {
        proof {
            reveal(GameboyView::wf);
        }
        let mut gb = Gameboy {
            cpu: Cpu::new(),
            ppu: Ppu::new(),
            lcd: Lcd::new(),
            joypad: Joypad::new(),
            timers: Timers::new(),
            cartridge,
            wram: WorkRam::GBWorkRam(GBWorkRam::new()),
            vram: VideoRam::GBVideoRam(GBVideoRam::new()),
            oam: Oam::new(),
            io_regs: IORegs::new(),
            high_ram: HighRam::new(),
        };
        gb.init();
        gb
    }

    /// Whether the machine is in order.
    pub fn is_wf(&self) -> (ok: bool)
        ensures
            ok == self@.wf(),
    {
        proof {
            reveal(GameboyView::wf);
            self.lemma_sized();
        }
        self.cartridge.is_wf() && self.timers.is_wf() && self.ppu.is_wf(&self.io_regs)
    }

    /// Puts the processor into its power-on state.
    pub fn init(&mut self)
        ensures
            final(self)@ == old(self)@.with_cpu(Cpu::power_on()),
            old(self)@.wf() ==> final(self)@.wf(),
    {
        proof {
            if self@.wf() {
                self@.lemma_bus_wf(0, 0, 0);
            }
        }
        self.cpu.init();
    }

    /// Reads a byte from the bus.
    pub fn read(&self, addr: u16) -> (r: u8)
        ensures
            r == self@.read(addr),
    {
        if addr <= 0x7FFF {
            self.cartridge.read(addr)
        } else if addr <= 0x9FFF {
            self.vram.read(addr)
        } else if addr <= 0xBFFF {
            self.cartridge.read(addr)
        } else if addr <= 0xDFFF {
            self.wram.read(addr)
        } else if addr <= 0xFDFF {
            self.wram.read(addr - 0x2000)
        } else if addr <= 0xFE9F {
            self.oam.read(addr)
        } else if addr <= 0xFEFF {
            0xFF
        } else if addr <= 0xFF7F {
            self.io_regs.read(addr)
        } else {
            self.high_ram.read(addr)
        }
    }

    /// Copies the 160 bytes of a page into the sprite table.
    fn oam_dma(&mut self, page: u8)
        ensures
            final(self)@ == (GameboyView {
                oam: Seq::new(160, |i: int| old(self)@.read(dma_source(page, i))),
                ..old(self)@
            }),
    {
        let mut data: [u8; 160] = [0; 160];
        let base: u16 = (page as u16) * 256;
        let mut i: u16 = 0;
        while i < 160
            invariant
                i <= 160,
                base == page * 256,
                forall|k: int| 0 <= k < i ==> data@[k] == self@.read(dma_source(page, k)),
            decreases 160 - i,
        {
            data[i as usize] = self.read(base + i);
            i += 1;
        }
        self.oam.dma(&data);
        assert(self.oam@ =~= Seq::new(160, |i: int| old(self)@.read(dma_source(page, i))));
    }

    /// Writes a byte to the bus.
    pub fn write(&mut self, addr: u16, val: u8)
        ensures
            final(self)@ == old(self)@.write(addr, val),
            old(self)@.wf() ==> final(self)@.wf(),
    {
        proof {
            if self@.wf() {
                self@.lemma_write_wf(addr, val);
            }
        }
        if addr <= 0x7FFF {
            self.cartridge.write(addr, val);
        } else if addr <= 0x9FFF {
            self.vram.write(addr, val);
        } else if addr <= 0xBFFF {
            self.cartridge.write(addr, val);
        } else if addr <= 0xDFFF {
            self.wram.write(addr, val);
        } else if addr <= 0xFDFF {
            self.wram.write(addr - 0x2000, val);
        } else if addr <= 0xFE9F {
            self.oam.write(addr, val);
        } else if addr <= 0xFEFF {
        } else if addr <= 0xFF7F {
            if addr != 0xFF44 {
                self.io_regs.write(addr, val);
                if addr == 0xFF46 {
                    self.oam_dma(val);
                }
            }
        } else {
            self.high_ram.write(addr, val);
        }
    }

    /// Reads a little-endian word from the bus.
    pub fn read_word(&self, addr: u16) -> (r: u16)
        ensures
            r == self@.read_word(addr),
    {
        let hi = self.read(addr.wrapping_add(1));
        let lo = self.read(addr);
        (hi as u16) * 256 + (lo as u16)
    }

    /// Writes a little-endian word to the bus.
    pub fn write_word(&mut self, addr: u16, val: u16)
        ensures
            final(self)@ == old(self)@.write_word(addr, val),
            old(self)@.wf() ==> final(self)@.wf(),
    {
        proof {
            if self@.wf() {
                self@.lemma_bus_wf(addr, val, 0);
            }
        }
        self.write(addr.wrapping_add(1), (val / 256) as u8);
        self.write(addr, (val % 256) as u8);
    }

    /// Pushes a byte onto the stack.
    pub fn stack_push(&mut self, val: u8)
        ensures
            final(self)@ == old(self)@.push(val),
            old(self)@.wf() ==> final(self)@.wf(),
    {
        proof {
            if self@.wf() {
                self@.lemma_bus_wf(0, 0, val);
            }
        }
        self.cpu.sp = self.cpu.sp.wrapping_sub(1);
        self.write(self.cpu.sp, val);
    }

    /// Pops a byte from the stack.
    pub fn stack_pop(&mut self) -> (r: u8)
        ensures
            (r, final(self)@) == old(self)@.pop(),
            old(self)@.wf() ==> final(self)@.wf(),
    {
        proof {
            if self@.wf() {
                self@.lemma_bus_wf(0, 0, 0);
            }
        }
        let res = self.read(self.cpu.sp);
        self.cpu.sp = self.cpu.sp.wrapping_add(1);
        res
    }

    /// Pushes a word onto the stack, high byte first.
    pub fn stack_push_word(&mut self, val: u16)
        ensures
            final(self)@ == old(self)@.push_word(val),
            old(self)@.wf() ==> final(self)@.wf(),
    {
        proof {
            if self@.wf() {
                self@.lemma_bus_wf(0, val, 0);
            }
        }
        self.stack_push((val / 256) as u8);
        self.stack_push((val % 256) as u8);
    }

    /// Pops a word from the stack, low byte first.
    pub fn stack_pop_word(&mut self) -> (r: u16)
        ensures
            (r, final(self)@) == old(self)@.pop_word(),
            old(self)@.wf() ==> final(self)@.wf(),
    {
        proof {
            if self@.wf() {
                self@.lemma_bus_wf(0, 0, 0);
            }
        }
        let lo = self.stack_pop();
        let hi = self.stack_pop();
        (hi as u16) * 256 + (lo as u16)
    }

    /// Reads the byte at PC and moves PC past it.
    pub fn fetch(&mut self) -> (r: u8)
        ensures
            (r, final(self)@) == old(self)@.fetch(),
            old(self)@.wf() ==> final(self)@.wf(),
    {
        proof {
            if self@.wf() {
                self@.lemma_bus_wf(0, 0, 0);
            }
        }
        let fetched = self.read(self.cpu.pc);
        self.cpu.pc = self.cpu.pc.wrapping_add(1);
        fetched
    }

    /// Reads the little-endian word at PC and moves PC past it.
    pub fn fetch_word(&mut self) -> (r: u16)
        ensures
            (r, final(self)@) == old(self)@.fetch_word(),
            old(self)@.wf() ==> final(self)@.wf(),
    {
        proof {
            if self@.wf() {
                self@.lemma_bus_wf(0, 0, 0);
            }
        }
        let lo = self.fetch();
        let hi = self.fetch();
        (hi as u16) * 256 + (lo as u16)
    }
}

} // verus!
