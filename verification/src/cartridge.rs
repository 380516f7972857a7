//! Cartridges: the ROM image, the cartridge RAM and the bank controller that
//! decides which part of them the machine sees.

use crate::memory::zeros;
use vstd::arithmetic::power2::{lemma_pow2_pos, lemma_pow2_strictly_increases, lemma_pow2_unfold, pow2};
use vstd::prelude::*;

verus! {

/// The kinds of bank controller.
#[derive(Clone, Copy, Debug, PartialEq, Eq)]
pub enum MbcKind {
    /// No controller: the ROM is mapped as it is.
    NoMbc,
    Mbc1,
    Mbc3,
}

/// Why a ROM image is not accepted as a cartridge.
#[derive(Clone, Copy, Debug, PartialEq, Eq)]
pub enum CartridgeError {
    /// The image is too short to hold a header, or its length is not the one
    /// that the ROM size code at 0x0148 announces.
    RomSizeMismatch,
    /// The RAM size code at 0x0149 is none of the six known ones.
    UnknownRamSize(u8),
    /// The cartridge type at 0x0147 names a controller that is not
    /// supported.
    UnknownCartridgeType(u8),
}

/// The number of ROM bytes that a ROM size code announces: 32 KiB doubled
/// `code` times.
pub open spec fn rom_bytes(code: u8) -> nat {
    0x8000 * pow2(code as nat)
}

/// The number of bytes of cartridge RAM that a RAM size code announces, for
/// the six known codes.
pub open spec fn ram_bytes(code: u8) -> Option<nat> {
    if code == 0 || code == 1 {
        Some(0nat)
    } else if code == 2 {
        Some(8192nat)
    } else if code == 3 {
        Some(32768nat)
    } else if code == 4 {
        Some(131072nat)
    } else if code == 5 {
        Some(65536nat)
    } else {
        None
    }
}

/// The controller that a cartridge type names, for the supported types.
pub open spec fn mbc_kind(cart_type: u8) -> Option<MbcKind> {
    if cart_type == 0x00 {
        Some(MbcKind::NoMbc)
    } else if 0x01 <= cart_type <= 0x03 {
        Some(MbcKind::Mbc1)
    } else if 0x0F <= cart_type <= 0x13 {
        Some(MbcKind::Mbc3)
    } else {
        None
    }
}

/// A cartridge as the machine sees it: its controller, its ROM and RAM
/// bytes, and the controller's latches.
pub struct CartridgeView {
    pub kind: MbcKind,
    pub rom: Seq<u8>,
    pub ram: Seq<u8>,
    /// The 16 KiB ROM bank visible at 0x4000 to 0x7FFF.
    pub rom_bank: u8,
    /// The 8 KiB RAM bank visible at 0xA000 to 0xBFFF.
    pub ram_bank: u8,
    pub ram_enabled: bool,
    /// The banking mode latch of the MBC1: false for ROM banking, true for
    /// RAM banking.
    pub ram_banking: bool,
}

impl CartridgeView {
    /// A cartridge as it is when the machine is switched on.
    pub open spec fn fresh(kind: MbcKind, rom: Seq<u8>, ram: Seq<u8>) -> CartridgeView {
        CartridgeView {
            kind,
            rom,
            ram,
            rom_bank: 1,
            ram_bank: 0,
            ram_enabled: false,
            ram_banking: false,
        }
    }

    /// What the latches of a controller always satisfy. The switchable ROM
    /// bank is never bank 0.
    pub open spec fn wf(self) -> bool {
        match self.kind {
            MbcKind::NoMbc => true,
            MbcKind::Mbc1 => 1 <= self.rom_bank < 128 && self.rom_bank % 32 != 0 && self.ram_bank
                < 4,
            MbcKind::Mbc3 => 1 <= self.rom_bank < 128 && self.ram_bank < 4,
        }
    }

    /// The ROM byte at an offset into the image; 0xFF past its end.
    pub open spec fn rom_at(self, index: int) -> u8 {
        if 0 <= index < self.rom.len() {
            self.rom[index]
        } else {
            0xFF
        }
    }

    /// The offset into the cartridge RAM that an address in 0xA000 to 0xBFFF
    /// stands for.
    pub open spec fn ram_index(self, addr: u16) -> int {
        self.ram_bank * 8192 + (addr - 0xA000)
    }

    /// The RAM byte at an offset; 0xFF past the end of the RAM.
    pub open spec fn ram_at(self, index: int) -> u8 {
        if 0 <= index < self.ram.len() {
            self.ram[index]
        } else {
            0xFF
        }
    }

    /// The byte read at an address in 0x0000 to 0x7FFF or 0xA000 to 0xBFFF.
    pub open spec fn read(self, addr: u16) -> u8 {
        match self.kind {
            MbcKind::NoMbc => self.rom_at(addr as int),
            _ => if addr < 0x4000 {
                self.rom_at(addr as int)
            } else if addr < 0x8000 {
                self.rom_at(self.rom_bank * 16384 + (addr - 0x4000))
            } else {
                self.ram_at(self.ram_index(addr))
            },
        }
    }

    /// The cartridge after a byte was stored into its RAM window, 0xA000 to
    /// 0xBFFF. The store takes effect when the RAM is enabled and the address
    /// falls inside the window and inside the RAM.
    pub open spec fn write_ram(self, addr: u16, val: u8) -> CartridgeView {
        if self.ram_enabled && 0xA000 <= addr <= 0xBFFF && 0 <= self.ram_index(addr)
            < self.ram.len() {
            CartridgeView { ram: self.ram.update(self.ram_index(addr), val), ..self }
        } else {
            self
        }
    }

    /// The 5-bit bank number that a byte written to 0x2000 to 0x3FFF selects
    /// on an MBC1: zero stands for one.
    pub open spec fn low_bank(val: u8) -> int {
        if val % 32 == 0 {
            1
        } else {
            val as int % 32
        }
    }

    /// An MBC1 after a write.
    pub open spec fn write_mbc1(self, addr: u16, val: u8) -> CartridgeView {
        if addr < 0x2000 {
            CartridgeView { ram_enabled: val % 16 == 0x0A, ..self }
        } else if addr < 0x4000 {
            CartridgeView {
                rom_bank: (((self.rom_bank / 32) % 4) * 32 + Self::low_bank(val)) as u8,
                ..self
            }
        } else if addr < 0x6000 {
            if !self.ram_banking && self.rom.len() >= 1048576 {
                CartridgeView {
                    rom_bank: (self.rom_bank % 32 + ((val / 32) % 4) * 32) as u8,
                    ..self
                }
            } else if self.ram_banking && self.ram.len() == 32768 {
                CartridgeView { ram_bank: val % 4, ..self }
            } else {
                self
            }
        } else if addr < 0x8000 {
            CartridgeView { ram_banking: val == 1, ..self }
        } else {
            self.write_ram(addr, val)
        }
    }

    /// An MBC3 after a write. The clock registers are not there: selecting
    /// one, or latching the clock, changes nothing.
    pub open spec fn write_mbc3(self, addr: u16, val: u8) -> CartridgeView {
        if addr < 0x2000 {
            CartridgeView { ram_enabled: val == 0x0A, ..self }
        } else if addr < 0x4000 {
            CartridgeView {
                rom_bank: if val % 128 == 0 {
                    1
                } else {
                    val % 128
                },
                ..self
            }
        } else if addr < 0x6000 {
            if val <= 0x03 {
                CartridgeView { ram_bank: val, ..self }
            } else {
                self
            }
        } else if addr < 0x8000 {
            self
        } else {
            self.write_ram(addr, val)
        }
    }

    /// The cartridge after a write. A write at an address outside 0x0000 to
    /// 0x7FFF and 0xA000 to 0xBFFF changes nothing.
    pub open spec fn write(self, addr: u16, val: u8) -> CartridgeView {
        match self.kind {
            MbcKind::NoMbc => self,
            MbcKind::Mbc1 => self.write_mbc1(addr, val),
            MbcKind::Mbc3 => self.write_mbc3(addr, val),
        }
    }

    /// No write makes bank 0 the switchable ROM bank, or breaks anything
    /// else that holds of the latches.
    pub proof fn lemma_write_keeps_wf(self, addr: u16, val: u8)
        requires
            self.wf(),
        ensures
            self.write(addr, val).wf(),
            self.write(addr, val).kind == self.kind,
            self.write(addr, val).rom == self.rom,
            self.write(addr, val).ram.len() == self.ram.len(),
            self.kind != MbcKind::NoMbc ==> self.write(addr, val).rom_bank >= 1,
    {
    }

    /// A write to 0x2000 to 0x3FFF of a byte whose low five bits are zero
    /// selects a bank whose low five bits are 1.
    pub proof fn lemma_zero_selects_one(self, addr: u16, val: u8)
        requires
            self.wf(),
            self.kind == MbcKind::Mbc1,
            0x2000 <= addr < 0x4000,
            val % 32 == 0,
        ensures
            self.write(addr, val).rom_bank % 32 == 1,
    {
    }
}

/// The address ranges that a cartridge answers to.
pub open spec fn cart_addr(addr: u16) -> bool {
    addr <= 0x7FFF || 0xA000 <= addr <= 0xBFFF
}

/// What every cartridge offers to the bus.
pub trait CartMemory: View<V = CartridgeView> {
    /// Reads a byte of the ROM or of the cartridge RAM.
    fn read(&self, addr: u16) -> (r: u8)
        requires
            cart_addr(addr),
        ensures
            r == self@.read(addr),
    ;

    /// Writes a byte to the cartridge: to a latch of its controller or to
    /// its RAM. No address is refused; one outside the cartridge's ranges
    /// changes nothing.
    fn write(&mut self, addr: u16, val: u8)
        ensures
            final(self)@ == old(self)@.write(addr, val),
            !cart_addr(addr) ==> final(self)@ == old(self)@,
            old(self)@.wf() ==> final(self)@.wf(),
            old(self)@.wf() && old(self)@.kind != MbcKind::NoMbc ==> final(self)@.rom_bank >= 1,
            old(self)@.wf() && old(self)@.kind == MbcKind::Mbc1 ==> final(self)@.rom_bank % 32 != 0,
    ;
}

fn byte_at(bytes: &Vec<u8>, index: usize) -> (r: u8)
    ensures
        r == if index < bytes@.len() {
            bytes@[index as int]
        } else {
            0xFFu8
        },
{
    if index < bytes.len() {
        bytes[index]
    } else {
        0xFF
    }
}

fn copy_bytes(bytes: &Vec<u8>) -> (r: Vec<u8>)
    ensures
        r@ == bytes@,
{
    let r = bytes.clone();
    assert(r@ =~= bytes@);
    r
}

fn zeroed(n: usize) -> (r: Vec<u8>)
    ensures
        r@ == zeros(n as nat),
{
    let r = vec![0u8; n];
    assert(r@ =~= zeros(n as nat));
    r
}

/// A cartridge without a bank controller.
pub struct NoMBC {
    rom: Vec<u8>,
}

impl View for NoMBC {
    type V = CartridgeView;

    closed spec fn view(&self) -> CartridgeView {
        CartridgeView::fresh(MbcKind::NoMbc, self.rom@, Seq::empty())
    }
}

impl NoMBC {
    /// A cartridge without a controller is one, and has neither RAM nor
    /// latches that move.
    pub proof fn lemma_kind(&self)
        ensures
            self@.kind == MbcKind::NoMbc,
            self@ == CartridgeView::fresh(MbcKind::NoMbc, self@.rom, Seq::empty()),
            self@.wf(),
    {
    }

    /// A fresh cartridge over a copy of the ROM image.
    pub fn new(rom: &Vec<u8>) -> (r: Self)
        ensures
            r@ == CartridgeView::fresh(MbcKind::NoMbc, rom@, Seq::empty()),
    {
        NoMBC { rom: copy_bytes(rom) }
    }
}

impl CartMemory for NoMBC {
    fn read(&self, addr: u16) -> (r: u8) {
        byte_at(&self.rom, addr as usize)
    }

    /// Writing to a cartridge without a controller does nothing.
    fn write(&mut self, _addr: u16, _val: u8) {
    }
}

/// The latches and memories that the two controllers share.
struct Banked {
    rom: Vec<u8>,
    ram: Vec<u8>,
    active_rom_bank: u8,
    active_ram_bank: u8,
    ram_active: bool,
    banking_mode: bool,
}

impl Banked {
    spec fn model(&self, kind: MbcKind) -> CartridgeView {
        CartridgeView {
            kind,
            rom: self.rom@,
            ram: self.ram@,
            rom_bank: self.active_rom_bank,
            ram_bank: self.active_ram_bank,
            ram_enabled: self.ram_active,
            ram_banking: self.banking_mode,
        }
    }

    fn new(rom: &Vec<u8>, ram_size: usize, kind: Ghost<MbcKind>) -> (r: Self)
        ensures
            r.model(kind@) == CartridgeView::fresh(kind@, rom@, zeros(ram_size as nat)),
    {
        Banked {
            rom: copy_bytes(rom),
            ram: zeroed(ram_size),
            active_rom_bank: 1,
            active_ram_bank: 0,
            ram_active: false,
            banking_mode: false,
        }
    }

    fn read(&self, addr: u16, kind: Ghost<MbcKind>) -> (r: u8)
        requires
            cart_addr(addr),
            kind@ != MbcKind::NoMbc,
        ensures
            r == self.model(kind@).read(addr),
    {
        if addr < 0x4000 {
            byte_at(&self.rom, addr as usize)
        } else if addr < 0x8000 {
            byte_at(&self.rom, self.active_rom_bank as usize * 16384 + (addr - 0x4000) as usize)
        } else {
            byte_at(&self.ram, self.active_ram_bank as usize * 8192 + (addr - 0xA000) as usize)
        }
    }

    fn write_ram(&mut self, addr: u16, val: u8, kind: Ghost<MbcKind>)
        ensures
            final(self).model(kind@) == old(self).model(kind@).write_ram(addr, val),
    {
        if self.ram_active && 0xA000 <= addr && addr <= 0xBFFF {
            let index = self.active_ram_bank as usize * 8192 + (addr - 0xA000) as usize;
            if index < self.ram.len() {
                self.ram[index] = val;
            }
        }
    }
}

/// A cartridge with an MBC1 controller.
pub struct MBC1 {
    state: Banked,
}

impl View for MBC1 {
    type V = CartridgeView;

    closed spec fn view(&self) -> CartridgeView {
        self.state.model(MbcKind::Mbc1)
    }
}

impl MBC1 {
    /// The controller of an MBC1 cartridge is an MBC1.
    pub proof fn lemma_kind(&self)
        ensures
            self@.kind == MbcKind::Mbc1,
    {
    }

    /// A fresh cartridge over a copy of the ROM image.
    pub fn new(rom: &Vec<u8>, ram_size: usize) -> (r: Self)
        ensures
            r@ == CartridgeView::fresh(MbcKind::Mbc1, rom@, zeros(ram_size as nat)),
    {
        MBC1 { state: Banked::new(rom, ram_size, Ghost(MbcKind::Mbc1)) }
    }
}

impl CartMemory for MBC1 {
    fn read(&self, addr: u16) -> (r: u8) {
        self.state.read(addr, Ghost(MbcKind::Mbc1))
    }

    fn write(&mut self, addr: u16, val: u8) {
        proof {
            if self@.wf() {
                self@.lemma_write_keeps_wf(addr, val);
            }
        }
        if addr < 0x2000 {
            // The RAM is enabled by any value whose low nibble is 0xA.
            self.state.ram_active = val % 16 == 0x0A;
        } else if addr < 0x4000 {
            // The low five bits of the ROM bank; zero stands for one.
            let low: u8 = if val % 32 == 0 { 1 } else { val % 32 };
            self.state.active_rom_bank = ((self.state.active_rom_bank / 32) % 4) * 32 + low;
        } else if addr < 0x6000 {
            if !self.state.banking_mode && self.state.rom.len() >= 1048576 {
                // Bits 5 and 6 of the ROM bank, on cartridges of 1 MiB and more.
                self.state.active_rom_bank = self.state.active_rom_bank % 32 + ((val / 32) % 4)
                    * 32;
            } else if self.state.banking_mode && self.state.ram.len() == 32768 {
                // The RAM bank, on cartridges with 32 KiB of RAM.
                self.state.active_ram_bank = val % 4;
            }
        } else if addr < 0x8000 {
            self.state.banking_mode = val == 0x1;
        } else {
            self.state.write_ram(addr, val, Ghost(MbcKind::Mbc1));
        }
    }
}

/// A cartridge with an MBC3 controller, without its clock.
pub struct MBC3 {
    state: Banked,
}

impl View for MBC3 {
    type V = CartridgeView;

    closed spec fn view(&self) -> CartridgeView {
        self.state.model(MbcKind::Mbc3)
    }
}

impl MBC3 {
    /// The controller of an MBC3 cartridge is an MBC3.
    pub proof fn lemma_kind(&self)
        ensures
            self@.kind == MbcKind::Mbc3,
    {
    }

    /// A fresh cartridge over a copy of the ROM image.
    pub fn new(rom: &Vec<u8>, ram_size: usize) -> (r: Self)
        ensures
            r@ == CartridgeView::fresh(MbcKind::Mbc3, rom@, zeros(ram_size as nat)),
    {
        MBC3 { state: Banked::new(rom, ram_size, Ghost(MbcKind::Mbc3)) }
    }
}

impl CartMemory for MBC3 {
    fn read(&self, addr: u16) -> (r: u8) {
        self.state.read(addr, Ghost(MbcKind::Mbc3))
    }

    fn write(&mut self, addr: u16, val: u8) {
        proof {
            if self@.wf() {
                self@.lemma_write_keeps_wf(addr, val);
            }
        }
        if addr < 0x2000 {
            self.state.ram_active = val == 0x0A;
        } else if addr < 0x4000 {
            // Seven bits of ROM bank; zero stands for one.
            self.state.active_rom_bank = if val % 128 == 0 { 1 } else { val % 128 };
        } else if addr < 0x6000 {
            if val <= 0x03 {
                self.state.active_ram_bank = val;
            }
        } else if addr < 0x8000 {
        } else {
            self.state.write_ram(addr, val, Ghost(MbcKind::Mbc3));
        }
    }
}

/// A cartridge, by its controller.
pub enum Cartridge {
    NoMBC(NoMBC),
    MBC1(MBC1),
    MBC3(MBC3),
}

impl View for Cartridge {
    type V = CartridgeView;

    open spec fn view(&self) -> CartridgeView {
        match self {
            Cartridge::NoMBC(c) => c@,
            Cartridge::MBC1(c) => c@,
            Cartridge::MBC3(c) => c@,
        }
    }
}

impl Cartridge {
    /// The kind of the view is the kind of the cartridge held.
    pub proof fn lemma_kind(&self)
        ensures
            self@.kind == (match self {
                Cartridge::NoMBC(_) => MbcKind::NoMbc,
                Cartridge::MBC1(_) => MbcKind::Mbc1,
                Cartridge::MBC3(_) => MbcKind::Mbc3,
            }),
    {
        match self {
            Cartridge::NoMBC(c) => c.lemma_kind(),
            Cartridge::MBC1(c) => c.lemma_kind(),
            Cartridge::MBC3(c) => c.lemma_kind(),
        }
    }

    /// The 16 KiB ROM bank visible at 0x4000 to 0x7FFF.
    pub fn active_rom_bank(&self) -> (r: u8)
        ensures
            r == self@.rom_bank,
    {
        match self {
            Cartridge::NoMBC(_) => 1,
            Cartridge::MBC1(c) => c.state.active_rom_bank,
            Cartridge::MBC3(c) => c.state.active_rom_bank,
        }
    }

    /// The 8 KiB RAM bank visible at 0xA000 to 0xBFFF.
    pub fn active_ram_bank(&self) -> (r: u8)
        ensures
            r == self@.ram_bank,
    {
        match self {
            Cartridge::NoMBC(_) => 0,
            Cartridge::MBC1(c) => c.state.active_ram_bank,
            Cartridge::MBC3(c) => c.state.active_ram_bank,
        }
    }

    /// The kind of controller.
    pub fn kind(&self) -> (r: MbcKind)
        ensures
            r == self@.kind,
    {
        match self {
            Cartridge::NoMBC(_) => MbcKind::NoMbc,
            Cartridge::MBC1(_) => MbcKind::Mbc1,
            Cartridge::MBC3(_) => MbcKind::Mbc3,
        }
    }

    /// Whether the latches of the controller are in order.
    pub fn is_wf(&self) -> (ok: bool)
        ensures
            ok == self@.wf(),
    {
        match self {
            Cartridge::NoMBC(_) => true,
            Cartridge::MBC1(c) => 1 <= c.state.active_rom_bank && c.state.active_rom_bank < 128
                && c.state.active_rom_bank % 32 != 0 && c.state.active_ram_bank < 4,
            Cartridge::MBC3(c) => 1 <= c.state.active_rom_bank && c.state.active_rom_bank < 128
                && c.state.active_ram_bank < 4,
        }
    }
}

impl CartMemory for Cartridge {
    fn read(&self, addr: u16) -> (r: u8) {
        match self {
            Cartridge::NoMBC(c) => c.read(addr),
            Cartridge::MBC1(c) => c.read(addr),
            Cartridge::MBC3(c) => c.read(addr),
        }
    }

    fn write(&mut self, addr: u16, val: u8) {
        match self {
            Cartridge::NoMBC(c) => c.write(addr, val),
            Cartridge::MBC1(c) => c.write(addr, val),
            Cartridge::MBC3(c) => c.write(addr, val),
        }
    }
}

/// What loading a ROM image gives: the kind of controller and the size of
/// the cartridge RAM, or the reason why the image is refused. An image too
/// short to hold a header is refused for its length. Of an image with a
/// header the cartridge type is checked first, then the length, then the RAM
/// size code.
pub open spec fn header_verdict(rom: Seq<u8>) -> Result<(MbcKind, nat), CartridgeError> {
    if rom.len() < 0x150 {
        Err(CartridgeError::RomSizeMismatch)
    } else if mbc_kind(rom[0x147]) is None {
        Err(CartridgeError::UnknownCartridgeType(rom[0x147]))
    } else if rom.len() != rom_bytes(rom[0x148]) {
        Err(CartridgeError::RomSizeMismatch)
    } else if ram_bytes(rom[0x149]) is None {
        Err(CartridgeError::UnknownRamSize(rom[0x149]))
    } else {
        Ok((mbc_kind(rom[0x147])->0, ram_bytes(rom[0x149])->0))
    }
}

/// An image that holds a header with a cartridge type that is not supported
/// is refused for its type, whatever else is wrong with it, and an image of
/// a supported type whose length is not the announced one for its length.
pub proof fn lemma_header_verdict_order(rom: Seq<u8>)
    requires
        rom.len() >= 0x150,
    ensures
        mbc_kind(rom[0x147]) is None ==> header_verdict(rom) == Err::<
            (MbcKind, nat),
            CartridgeError,
        >(CartridgeError::UnknownCartridgeType(rom[0x147])),
        mbc_kind(rom[0x147]) is Some && rom.len() != rom_bytes(rom[0x148]) ==> header_verdict(rom)
            == Err::<(MbcKind, nat), CartridgeError>(CartridgeError::RomSizeMismatch),
        header_verdict(rom) is Ok <==> mbc_kind(rom[0x147]) is Some && rom.len() == rom_bytes(
            rom[0x148],
        ) && ram_bytes(rom[0x149]) is Some,
{
}

/// The cartridge that a ROM image with an accepted header gives. A cartridge
/// without a controller has no RAM.
pub open spec fn loaded(rom: Seq<u8>, kind: MbcKind, ram_size: nat) -> CartridgeView {
    match kind {
        MbcKind::NoMbc => CartridgeView::fresh(kind, rom, Seq::empty()),
        _ => CartridgeView::fresh(kind, rom, zeros(ram_size)),
    }
}

fn rom_size_matches(len: usize, code: u8) -> (ok: bool)
    ensures
        ok == (len == rom_bytes(code)),
{
    if len < 0x8000 {
        proof {
            lemma_pow2_pos(code as nat);
        }
        return false;
    }
    let mut size: usize = 0x8000;
    let mut i: u8 = 0;
    proof {
        vstd::arithmetic::power2::lemma2_to64();
    }
    while i < code
        invariant
            i <= code,
            size == rom_bytes(i),
            size <= len,
        decreases code - i,
    {
        proof {
            lemma_pow2_unfold((i + 1) as nat);
        }
        if size > len - size {
            proof {
                if i + 1 < code {
                    lemma_pow2_strictly_increases((i + 1) as nat, code as nat);
                }
            }
            return false;
        }
        size = size + size;
        i += 1;
    }
    size == len
}

fn ram_size_of(code: u8) -> (r: Option<usize>)
    ensures
        match r {
            Some(n) => ram_bytes(code) == Some(n as nat),
            None => ram_bytes(code) is None,
        },
{
    if code == 0 || code == 1 {
        Some(0)
    } else if code == 2 {
        Some(8192)
    } else if code == 3 {
        Some(32768)
    } else if code == 4 {
        Some(131072)
    } else if code == 5 {
        Some(65536)
    } else {
        None
    }
}

/// Builds the cartridge that a ROM image describes in its header.
pub fn load_cartridge(rom: &Vec<u8>) -> (r: Result<Cartridge, CartridgeError>)
    ensures
        match r {
            Ok(cart) => {
                &&& header_verdict(rom@) is Ok
                &&& cart@ == loaded(rom@, header_verdict(rom@)->Ok_0.0, header_verdict(rom@)->Ok_0.1)
                &&& cart@.wf()
            },
            Err(e) => header_verdict(rom@) == Err::<(MbcKind, nat), CartridgeError>(e),
        },
{
    if rom.len() < 0x150 {
        return Err(CartridgeError::RomSizeMismatch);
    }
    let cart_type: u8 = rom[0x147];
    let known = cart_type == 0x00 || (0x01 <= cart_type && cart_type <= 0x03) || (0x0F <= cart_type
        && cart_type <= 0x13);
    if !known {
        return Err(CartridgeError::UnknownCartridgeType(cart_type));
    }
    if !rom_size_matches(rom.len(), rom[0x148]) {
        return Err(CartridgeError::RomSizeMismatch);
    }
    let ram_size: usize = match ram_size_of(rom[0x149]) {
        Some(n) => n,
        None => {
            return Err(CartridgeError::UnknownRamSize(rom[0x149]));
        },
    };
    if cart_type == 0x00 {
        Ok(Cartridge::NoMBC(NoMBC::new(rom)))
    } else if cart_type <= 0x03 {
        Ok(Cartridge::MBC1(MBC1::new(rom, ram_size)))
    } else {
        Ok(Cartridge::MBC3(MBC3::new(rom, ram_size)))
    }
}

} // verus!
