//! The memory regions inside the machine: work RAM, video RAM, the sprite
//! attribute table, the I/O register file and high RAM.

use vstd::prelude::*;

verus! {

/// `n` zero bytes.
pub open spec fn zeros(n: nat) -> Seq<u8> {
    Seq::new(n, |i: int| 0u8)
}

/// Work RAM, mapped at 0xC000 to 0xDFFF.
pub trait WorkMem: View<V = Seq<u8>> {
    fn read(&self, addr: u16) -> (r: u8)
        requires
            0xC000 <= addr <= 0xDFFF,
        ensures
            r == self@[addr - 0xC000],
    ;

    fn write(&mut self, addr: u16, val: u8)
        requires
            0xC000 <= addr <= 0xDFFF,
        ensures
            final(self)@ == old(self)@.update(addr - 0xC000, val),
    ;

    /// Selects the bank behind the upper half. A machine with 8 KiB of work
    /// RAM has one bank, so nothing changes.
    fn set_bank(&mut self, bank: u8)
        ensures
            final(self)@ == old(self)@,
    ;
}

/// The 8 KiB of work RAM of the DMG.
pub struct GBWorkRam {
    wram: [u8; 8192],
}

impl View for GBWorkRam {
    type V = Seq<u8>;

    closed spec fn view(&self) -> Seq<u8> {
        self.wram@
    }
}

impl GBWorkRam {
    /// A region of zero bytes.
    pub fn new() -> (r: Self)
        ensures
            r@ == zeros(8192),
    {
        let r = GBWorkRam { wram: [0u8; 8192] };
        assert(r.wram@ =~= zeros(8192));
        r
    }

    /// The size of the region.
    pub proof fn lemma_len(&self)
        ensures
            self@.len() == 8192,
    {
    }
}

impl Default for GBWorkRam {
    fn default() -> (r: Self)
        ensures
            r@ == zeros(8192),
    {
        GBWorkRam::new()
    }
}

impl WorkMem for GBWorkRam {
    fn read(&self, addr: u16) -> (r: u8) {
        self.wram[(addr - 0xC000) as usize]
    }

    fn write(&mut self, addr: u16, val: u8) {
        self.wram[(addr - 0xC000) as usize] = val;
    }

    fn set_bank(&mut self, _bank: u8) {
    }
}

/// The work RAM of a machine, by model.
pub enum WorkRam {
    GBWorkRam(GBWorkRam),
}

impl View for WorkRam {
    type V = Seq<u8>;

    open spec fn view(&self) -> Seq<u8> {
        match self {
            WorkRam::GBWorkRam(m) => m@,
        }
    }
}

impl WorkRam {
    /// The size of the region.
    pub proof fn lemma_len(&self)
        ensures
            self@.len() == 8192,
    {
        match self {
            WorkRam::GBWorkRam(m) => m.lemma_len(),
        }
    }
}

impl WorkMem for WorkRam {
    fn read(&self, addr: u16) -> (r: u8) {
        match self {
            WorkRam::GBWorkRam(m) => m.read(addr),
        }
    }

    fn write(&mut self, addr: u16, val: u8) {
        match self {
            WorkRam::GBWorkRam(m) => m.write(addr, val),
        }
    }

    fn set_bank(&mut self, bank: u8) {
        match self {
            WorkRam::GBWorkRam(m) => m.set_bank(bank),
        }
    }
}

/// Video RAM, mapped at 0x8000 to 0x9FFF.
pub trait VideoMem: View<V = Seq<u8>> {
    fn read(&self, addr: u16) -> (r: u8)
        requires
            0x8000 <= addr <= 0x9FFF,
        ensures
            r == self@[addr - 0x8000],
    ;

    fn write(&mut self, addr: u16, val: u8)
        requires
            0x8000 <= addr <= 0x9FFF,
        ensures
            final(self)@ == old(self)@.update(addr - 0x8000, val),
    ;

    /// Selects the bank. A machine with 8 KiB of video RAM has one bank, so
    /// nothing changes.
    fn set_bank(&mut self, bank: u8)
        ensures
            final(self)@ == old(self)@,
    ;
}

/// The 8 KiB of video RAM of the DMG.
pub struct GBVideoRam {
    vram: [u8; 8192],
}

impl View for GBVideoRam {
    type V = Seq<u8>;

    closed spec fn view(&self) -> Seq<u8> {
        self.vram@
    }
}

impl GBVideoRam {
    /// A region of zero bytes.
    pub fn new() -> (r: Self)
        ensures
            r@ == zeros(8192),
    {
        let r = GBVideoRam { vram: [0u8; 8192] };
        assert(r.vram@ =~= zeros(8192));
        r
    }

    /// The size of the region.
    pub proof fn lemma_len(&self)
        ensures
            self@.len() == 8192,
    {
    }
}

impl Default for GBVideoRam {
    fn default() -> (r: Self)
        ensures
            r@ == zeros(8192),
    {
        GBVideoRam::new()
    }
}

impl VideoMem for GBVideoRam {
    fn read(&self, addr: u16) -> (r: u8) {
        self.vram[(addr - 0x8000) as usize]
    }

    fn write(&mut self, addr: u16, val: u8) {
        self.vram[(addr - 0x8000) as usize] = val;
    }

    fn set_bank(&mut self, _bank: u8) {
    }
}

/// The video RAM of a machine, by model.
pub enum VideoRam {
    GBVideoRam(GBVideoRam),
}

impl View for VideoRam {
    type V = Seq<u8>;

    open spec fn view(&self) -> Seq<u8> {
        match self {
            VideoRam::GBVideoRam(m) => m@,
        }
    }
}

impl VideoRam {
    /// The size of the region.
    pub proof fn lemma_len(&self)
        ensures
            self@.len() == 8192,
    {
        match self {
            VideoRam::GBVideoRam(m) => m.lemma_len(),
        }
    }
}

impl VideoMem for VideoRam {
    fn read(&self, addr: u16) -> (r: u8) {
        match self {
            VideoRam::GBVideoRam(m) => m.read(addr),
        }
    }

    fn write(&mut self, addr: u16, val: u8) {
        match self {
            VideoRam::GBVideoRam(m) => m.write(addr, val),
        }
    }

    fn set_bank(&mut self, bank: u8) {
        match self {
            VideoRam::GBVideoRam(m) => m.set_bank(bank),
        }
    }
}

/// The sprite attribute table: 40 entries of 4 bytes, mapped at 0xFE00 to
/// 0xFE9F.
pub struct Oam {
    data: [u8; 160],
}

impl View for Oam {
    type V = Seq<u8>;

    closed spec fn view(&self) -> Seq<u8> {
        self.data@
    }
}

/// Entry `index` of a sprite attribute table: y, x, tile and flags.
pub open spec fn oam_entry(oam: Seq<u8>, index: int) -> (u8, u8, u8, u8) {
    (oam[4 * index], oam[4 * index + 1], oam[4 * index + 2], oam[4 * index + 3])
}

impl Oam {
    /// A region of zero bytes.
    pub fn new() -> (r: Self)
        ensures
            r@ == zeros(160),
    {
        let r = Oam { data: [0u8; 160] };
        assert(r.data@ =~= zeros(160));
        r
    }

    /// The size of the region.
    pub proof fn lemma_len(&self)
        ensures
            self@.len() == 160,
    {
    }

    /// Reads the byte at an address of the region.
    pub fn read(&self, addr: u16) -> (r: u8)
        requires
            0xFE00 <= addr <= 0xFE9F,
        ensures
            r == self@[addr - 0xFE00],
    {
        self.data[(addr - 0xFE00) as usize]
    }

    /// Writes the byte at an address of the region.
    pub fn write(&mut self, addr: u16, val: u8)
        requires
            0xFE00 <= addr <= 0xFE9F,
        ensures
            final(self)@ == old(self)@.update(addr - 0xFE00, val),
    {
        self.data[(addr - 0xFE00) as usize] = val;
    }

    /// Replaces the whole table by the 160 bytes of `data`.
    pub fn dma(&mut self, data: &[u8])
        requires
            data@.len() == 160,
        ensures
            final(self)@ == data@,
    {
        let mut i: usize = 0;
        while i < 160
            invariant
                i <= 160,
                data@.len() == 160,
                forall|k: int| 0 <= k < i ==> self.data@[k] == data@[k],
            decreases 160 - i,
        {
            self.data[i] = data[i];
            i += 1;
        }
        assert(self.data@ =~= data@);
    }

    /// Entry `index` of the table.
    pub fn entry(&self, index: usize) -> (r: (u8, u8, u8, u8))
        requires
            index < 40,
        ensures
            r == oam_entry(self@, index as int),
    {
        let base = index * 4;
        (self.data[base], self.data[base + 1], self.data[base + 2], self.data[base + 3])
    }

    /// The 40 entries of the table, in order.
    pub fn iter_entries(&self) -> (r: Vec<(u8, u8, u8, u8)>)
        ensures
            r@.len() == 40,
            forall|k: int| 0 <= k < 40 ==> r@[k] == oam_entry(self@, k),
    {
        let mut out: Vec<(u8, u8, u8, u8)> = Vec::new();
        let mut i: usize = 0;
        while i < 40
            invariant
                i <= 40,
                out@.len() == i,
                forall|k: int| 0 <= k < i ==> out@[k] == oam_entry(self@, k),
            decreases 40 - i,
        {
            out.push(self.entry(i));
            i += 1;
        }
        out
    }
}

impl Default for Oam {
    fn default() -> (r: Self)
        ensures
            r@ == zeros(160),
    {
        Oam::new()
    }
}

/// The I/O register file: 128 bytes of flat storage, mapped at 0xFF00 to
/// 0xFF7F.
pub struct IORegs {
    data: [u8; 128],
}

impl View for IORegs {
    type V = Seq<u8>;

    closed spec fn view(&self) -> Seq<u8> {
        self.data@
    }
}

impl IORegs {
    /// A region of zero bytes.
    pub fn new() -> (r: Self)
        ensures
            r@ == zeros(128),
    {
        let r = IORegs { data: [0u8; 128] };
        assert(r.data@ =~= zeros(128));
        r
    }

    /// The size of the region.
    pub proof fn lemma_len(&self)
        ensures
            self@.len() == 128,
    {
    }

    /// Reads the byte at an address of the region.
    pub fn read(&self, addr: u16) -> (r: u8)
        requires
            0xFF00 <= addr <= 0xFF7F,
        ensures
            r == self@[addr - 0xFF00],
    {
        self.data[(addr - 0xFF00) as usize]
    }

    /// Writes the byte at an address of the region.
    pub fn write(&mut self, addr: u16, val: u8)
        requires
            0xFF00 <= addr <= 0xFF7F,
        ensures
            final(self)@ == old(self)@.update(addr - 0xFF00, val),
    {
        self.data[(addr - 0xFF00) as usize] = val;
    }
}

impl Default for IORegs {
    fn default() -> (r: Self)
        ensures
            r@ == zeros(128),
    {
        IORegs::new()
    }
}

/// High RAM, mapped at 0xFF80 to 0xFFFE, and the interrupt enable register
/// at 0xFFFF.
pub struct HighRam {
    data: [u8; 128],
}

impl View for HighRam {
    type V = Seq<u8>;

    closed spec fn view(&self) -> Seq<u8> {
        self.data@
    }
}

impl HighRam {
    /// A region of zero bytes.
    pub fn new() -> (r: Self)
        ensures
            r@ == zeros(128),
    {
        let r = HighRam { data: [0u8; 128] };
        assert(r.data@ =~= zeros(128));
        r
    }

    /// The size of the region.
    pub proof fn lemma_len(&self)
        ensures
            self@.len() == 128,
    {
    }

    /// Reads the byte at an address of the region.
    pub fn read(&self, addr: u16) -> (r: u8)
        requires
            0xFF80 <= addr,
        ensures
            r == self@[addr - 0xFF80],
    {
        self.data[(addr - 0xFF80) as usize]
    }

    /// Writes the byte at an address of the region.
    pub fn write(&mut self, addr: u16, val: u8)
        requires
            0xFF80 <= addr,
        ensures
            final(self)@ == old(self)@.update(addr - 0xFF80, val),
    {
        self.data[(addr - 0xFF80) as usize] = val;
    }
}

impl Default for HighRam {
    fn default() -> (r: Self)
        ensures
            r@ == zeros(128),
    {
        HighRam::new()
    }
}

} // verus!
