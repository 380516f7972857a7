//! The picture unit: the scanline state machine and the composition of the
//! background, the window and the sprites into lines of the frame.

use crate::lcd::{all_colors, with_line, Lcd};
use crate::memory::{oam_entry, IORegs, Oam, VideoMem, VideoRam};
use vstd::prelude::*;

verus! {

/// The four modes that the picture unit goes through.
#[derive(Clone, Copy, Debug, PartialEq, Eq, Structural)]
pub enum PpuMode {
    HBlank,
    VBlank,
    OAMScan,
    Drawing,
}

/// The state of the picture unit.
pub struct PpuView {
    pub mode: PpuMode,
    /// The t-cycles spent in the current scanline.
    pub line_cycles: u32,
    /// Whether the line on which the window starts was reached in this
    /// frame.
    pub reached_window: bool,
    /// The number of lines of the window drawn in this frame.
    pub window_line_counter: u16,
}

/// What a tick of the picture unit leaves behind.
pub struct PpuStep {
    pub ppu: PpuView,
    pub io: Seq<u8>,
    pub lcd: Seq<u8>,
}

/// The control register LCDC, at 0xFF40.
pub open spec fn lcdc(io: Seq<u8>) -> u8 {
    io[0x40]
}

/// The status register STAT, at 0xFF41.
pub open spec fn stat(io: Seq<u8>) -> u8 {
    io[0x41]
}

/// The current line LY, at 0xFF44.
pub open spec fn ly(io: Seq<u8>) -> u8 {
    io[0x44]
}

/// The line to compare with, LYC, at 0xFF45.
pub open spec fn lyc(io: Seq<u8>) -> u8 {
    io[0x45]
}

/// The registers with a bit of the interrupt flags IF (0xFF0F) set.
pub open spec fn request(io: Seq<u8>, bit: u8) -> Seq<u8> {
    io.update(0x0F, io[0x0F] | bit)
}

/// The registers with the STAT interrupt requested if the source that
/// `mask` names is enabled in the status byte `stat`.
pub open spec fn request_stat_if(io: Seq<u8>, stat: u8, mask: u8) -> Seq<u8> {
    if stat & mask != 0 {
        request(io, 0b0000_0010)
    } else {
        io
    }
}

/// The two low bits of STAT for a mode.
pub open spec fn mode_bits(mode: PpuMode) -> u8 {
    match mode {
        PpuMode::HBlank => 0b00,
        PpuMode::VBlank => 0b01,
        PpuMode::OAMScan => 0b10,
        PpuMode::Drawing => 0b11,
    }
}

/// STAT with its three low bits written anew: bits 1 and 0 hold the mode,
/// bit 2 tells whether LY equals LYC.
pub open spec fn stat_value(stat: u8, mode: PpuMode, coincide: bool) -> u8 {
    (stat & 0b1111_1000) | mode_bits(mode) | (if coincide {
        0b100u8
    } else {
        0u8
    })
}

/// The three low bits of a rewritten STAT are the mode and the comparison.
pub proof fn lemma_stat_value(stat: u8, mode: PpuMode, coincide: bool)
    ensures
        stat_value(stat, mode, coincide) & 0b11 == mode_bits(mode),
        (stat_value(stat, mode, coincide) & 0b100 != 0) == coincide,
        stat_value(stat, mode, coincide) & 0b1111_1000 == stat & 0b1111_1000,
{
    let m = mode_bits(mode);
    let c = if coincide {
        0b100u8
    } else {
        0u8
    };
    assert(m <= 3 && (c == 0 || c == 4) ==> (((stat & 0b1111_1000) | m | c) & 0b11 == m && (((stat
        & 0b1111_1000) | m | c) & 0b100 == c) && (((stat & 0b1111_1000) | m | c) & 0b1111_1000
        == stat & 0b1111_1000))) by (bit_vector);
}

/// The two-bit colour number of a pixel of a tile row: bit `pos` of the
/// first byte is its low bit, bit `pos` of the second byte its high bit.
pub open spec fn pixel_index(b1: u8, b2: u8, pos: u8) -> u8 {
    ((if b1 & (1u8 << pos) != 0 {
        1int
    } else {
        0int
    }) + (if b2 & (1u8 << pos) != 0 {
        2int
    } else {
        0int
    })) as u8
}

/// The shade that a palette register gives to a colour number.
pub open spec fn shade(palette: u8, index: u8) -> u8 {
    (palette >> ((index * 2) as u8)) & 0x3
}

/// A shade is one of 0, 1, 2 and 3.
pub proof fn lemma_shade_range(palette: u8, index: u8)
    ensures
        shade(palette, index) <= 3,
{
    let s = (index * 2) as u8;
    assert((palette >> s) & 0x3 <= 3) by (bit_vector);
}

/// The offset into video RAM of row `row` of the tile `tile` of the
/// background or window. With bit 4 of LCDC set the tiles are numbered from
/// 0x8000; else tile 0 is at 0x9000 and tiles 128 to 255 lie below it, from
/// 0x8800.
pub open spec fn tile_row_offset(lcdc: u8, tile: u8, row: int) -> int {
    (if lcdc & 0b0001_0000 != 0 {
        tile * 16
    } else {
        0x800 + ((tile + 128) % 256) * 16
    }) + row * 2
}

/// The shade of a pixel of a tile of the background or window, through the
/// palette BGP (0xFF47).
pub open spec fn tile_shade(vram: Seq<u8>, io: Seq<u8>, tile: u8, row: int, px: int) -> u8 {
    let offset = tile_row_offset(lcdc(io), tile, row);
    shade(io[0x47], pixel_index(vram[offset], vram[offset + 1], (7 - px) as u8))
}

/// The offset into video RAM of a tile map: 0x9C00 when the bit `mask` of
/// LCDC is set, else 0x9800.
pub open spec fn tile_map_offset(lcdc: u8, mask: u8) -> int {
    if lcdc & mask != 0 {
        0x1C00
    } else {
        0x1800
    }
}

/// The shade of the background at column `x` of line `ly`. The background
/// is a map of 32 by 32 tiles of 8 by 8 pixels that wraps around, scrolled
/// by SCY (0xFF42) and SCX (0xFF43).
pub open spec fn bg_pixel(vram: Seq<u8>, io: Seq<u8>, ly: u8, x: int) -> u8 {
    let scy = io[0x42];
    let scx = io[0x43];
    let tile_y = (ly + scy) % 256;
    let strip = x + scx % 8;
    let map_index = ((strip / 8 + scx / 8) % 32) + ((tile_y / 8) % 32) * 32;
    let tile = vram[tile_map_offset(lcdc(io), 0b0000_1000) + map_index];
    tile_shade(vram, io, tile, tile_y % 8, strip % 8)
}

/// Whether the window shows on line `ly`: the line is at or below WY
/// (0xFF4A) and WX (0xFF4B) is in 7 to 166.
pub open spec fn window_visible(io: Seq<u8>, ly: u8) -> bool {
    ly >= io[0x4A] && 7 <= io[0x4B] < 167
}

/// The shade of the window at column `x`, for a column at or right of
/// WX - 7. `counter` is the number of window lines drawn before in this
/// frame: the window has its own line count.
pub open spec fn window_pixel(vram: Seq<u8>, io: Seq<u8>, counter: u16, x: int) -> u8 {
    let inside = x - (io[0x4B] - 7);
    let map_index = inside / 8 + (counter / 8) * 32;
    let tile = vram[tile_map_offset(lcdc(io), 0b0100_0000) + map_index];
    tile_shade(vram, io, tile, counter as int % 8, inside % 8)
}

/// A line with the background drawn over it.
pub open spec fn background_line(vram: Seq<u8>, io: Seq<u8>, ly: u8) -> Seq<u8> {
    Seq::new(160, |x: int| bg_pixel(vram, io, ly, x))
}

/// A line with the window drawn over it, from column WX - 7 on.
pub open spec fn window_line(line: Seq<u8>, vram: Seq<u8>, io: Seq<u8>, counter: u16) -> Seq<u8> {
    Seq::new(
        160,
        |x: int|
            if x >= io[0x4B] - 7 {
                window_pixel(vram, io, counter, x)
            } else {
                line[x]
            },
    )
}

/// The height of the sprites: 16 lines when bit 2 of LCDC is set, else 8.
pub open spec fn sprite_height(lcdc: u8) -> int {
    if lcdc & 0b0000_0100 != 0 {
        16
    } else {
        8
    }
}

/// Whether a sprite is on line `ly`: its x is not 0 and the line falls into
/// its height. A sprite's y is 16 more than the line of its top row.
pub open spec fn sprite_on_line(entry: (u8, u8, u8, u8), lcdc: u8, ly: u8) -> bool {
    entry.1 > 0 && entry.0 <= ly + 16 < entry.0 + sprite_height(lcdc)
}

/// The colour number of a sprite at column `c` of line `ly`, for a column
/// that the sprite covers. A sprite's x is 8 more than its left column.
/// Bit 6 of its flags turns it upside down, bit 5 mirrors it. With sprites
/// 16 lines high the low bit of the tile number counts as 0.
pub open spec fn sprite_index(vram: Seq<u8>, entry: (u8, u8, u8, u8), lcdc: u8, ly: u8, c: int) -> u8 {
    let (y, x, tile, flags) = entry;
    let height = sprite_height(lcdc);
    let tile = if height == 16 {
        tile - tile % 2
    } else {
        tile as int
    };
    let row = if flags & 0b0100_0000 != 0 {
        height - 1 - (ly + 16 - y)
    } else {
        ly + 16 - y
    };
    let px = c + 8 - x;
    let pos = if flags & 0b0010_0000 != 0 {
        px
    } else {
        7 - px
    };
    let offset = tile * 16 + row * 2;
    pixel_index(vram[offset], vram[offset + 1], pos as u8)
}

/// The palette of a sprite: OBP1 (0xFF49) when bit 4 of its flags is set,
/// else OBP0 (0xFF48).
pub open spec fn sprite_palette(io: Seq<u8>, flags: u8) -> u8 {
    if flags & 0b0001_0000 != 0 {
        io[0x49]
    } else {
        io[0x48]
    }
}

/// Whether a sprite claims column `c`: the column is one of its eight and
/// on the line, the sprite is not transparent there, and no sprite further
/// left has claimed the column before.
pub open spec fn sprite_claims(
    vram: Seq<u8>,
    entry: (u8, u8, u8, u8),
    lcdc: u8,
    ly: u8,
    priority: Seq<u8>,
    c: int,
) -> bool {
    &&& 0 <= c < 160
    &&& 0 <= c + 8 - entry.1 < 8
    &&& sprite_index(vram, entry, lcdc, ly, c) != 0
    &&& entry.1 < priority[c]
}

/// The sprite pixels of a line, and for each column the x of the sprite
/// that claimed it, 0xFF for none.
pub struct SpriteLine {
    pub pixels: Seq<u8>,
    pub priority: Seq<u8>,
    /// The number of sprites drawn.
    pub count: int,
}

/// A sprite line after one more sprite was drawn. Where the sprite claims a
/// column it leaves its x there, and its shade unless bit 7 of its flags is
/// set and the line below has a shade other than 0.
pub open spec fn draw_sprite(
    acc: SpriteLine,
    line: Seq<u8>,
    vram: Seq<u8>,
    io: Seq<u8>,
    entry: (u8, u8, u8, u8),
    ly: u8,
) -> SpriteLine {
    SpriteLine {
        pixels: Seq::new(
            160,
            |c: int|
                if sprite_claims(vram, entry, lcdc(io), ly, acc.priority, c) && !(entry.3
                    & 0b1000_0000 != 0 && line[c] != 0) {
                    shade(
                        sprite_palette(io, entry.3),
                        sprite_index(vram, entry, lcdc(io), ly, c),
                    )
                } else {
                    acc.pixels[c]
                },
        ),
        priority: Seq::new(
            160,
            |c: int|
                if sprite_claims(vram, entry, lcdc(io), ly, acc.priority, c) {
                    entry.1
                } else {
                    acc.priority[c]
                },
        ),
        count: acc.count + 1,
    }
}

/// The sprite line after the first `n` entries of the sprite table were
/// looked at, in order. The sprites on the line are drawn until ten of them
/// have been.
pub open spec fn sprite_scan(
    line: Seq<u8>,
    vram: Seq<u8>,
    oam: Seq<u8>,
    io: Seq<u8>,
    ly: u8,
    n: int,
) -> SpriteLine
    decreases n,
{
    if n <= 0 {
        SpriteLine {
            pixels: Seq::new(160, |c: int| 0u8),
            priority: Seq::new(160, |c: int| 0xFFu8),
            count: 0,
        }
    } else {
        let acc = sprite_scan(line, vram, oam, io, ly, n - 1);
        if acc.count < 10 && sprite_on_line(oam_entry(oam, n - 1), lcdc(io), ly) {
            draw_sprite(acc, line, vram, io, oam_entry(oam, n - 1), ly)
        } else {
            acc
        }
    }
}

/// A line with the sprites drawn over it: a sprite pixel of a shade other
/// than 0 replaces what is below.
pub open spec fn sprite_line(line: Seq<u8>, vram: Seq<u8>, oam: Seq<u8>, io: Seq<u8>, ly: u8) -> Seq<
    u8,
> {
    let sprites = sprite_scan(line, vram, oam, io, ly, 40).pixels;
    Seq::new(
        160,
        |c: int|
            if sprites[c] != 0 {
                sprites[c]
            } else {
                line[c]
            },
    )
}

/// Whether the window is drawn on line `ly`: bits 0 and 5 of LCDC are set
/// and the window shows on the line.
pub open spec fn window_drawn(io: Seq<u8>, ly: u8) -> bool {
    lcdc(io) & 0b0000_0001 != 0 && lcdc(io) & 0b0010_0000 != 0 && window_visible(io, ly)
}

/// The line `ly` of the picture: the background and over it the window if
/// bit 0 of LCDC is set, else shade 0, and over that the sprites if bit 1 is
/// set.
pub open spec fn composed_line(
    vram: Seq<u8>,
    oam: Seq<u8>,
    io: Seq<u8>,
    ly: u8,
    counter: u16,
) -> Seq<u8> {
    let below = if lcdc(io) & 0b0000_0001 != 0 {
        background_line(vram, io, ly)
    } else {
        Seq::new(160, |c: int| 0u8)
    };
    let middle = if window_drawn(io, ly) {
        window_line(below, vram, io, counter)
    } else {
        below
    };
    if lcdc(io) & 0b0000_0010 != 0 {
        sprite_line(middle, vram, oam, io, ly)
    } else {
        middle
    }
}

impl PpuView {
    /// The picture unit at the start of the first scanline.
    pub open spec fn power_on() -> PpuView {
        PpuView {
            mode: PpuMode::OAMScan,
            line_cycles: 0,
            reached_window: false,
            window_line_counter: 0,
        }
    }

    /// What holds of the picture unit and its registers between ticks: the
    /// count of t-cycles is inside a scanline, LY is one of the 154 lines,
    /// the mode is VBlank on the lines from 144 on and on them alone, and no
    /// more window lines were drawn than lines were begun.
    pub open spec fn wf(self, io: Seq<u8>) -> bool {
        &&& io.len() == 128
        &&& self.line_cycles < 456
        &&& ly(io) < 154
        &&& (self.mode == PpuMode::VBlank) == (ly(io) >= 144)
        &&& match self.mode {
            PpuMode::VBlank => self.window_line_counter == 0,
            PpuMode::OAMScan => self.window_line_counter <= ly(io),
            _ => self.window_line_counter <= ly(io) + 1,
        }
    }

    /// The start of the next line. LY goes up by one, from 153 to 0. The
    /// STAT interrupt is requested when LY now equals LYC and bit 6 of STAT
    /// is set. On entering line 144 from another mode the unit goes to
    /// VBlank: it requests the STAT interrupt if bit 4 of STAT is set and
    /// the VBlank interrupt, and forgets the window. On a line below 144 it
    /// goes to OAMScan and requests the STAT interrupt if bit 5 of STAT is
    /// set.
    pub open spec fn next_line(self, io: Seq<u8>) -> (PpuView, Seq<u8>) {
        let new_ly = ((ly(io) + 1) % 154) as u8;
        let reached = self.reached_window || new_ly == io[0x4A];
        let status = stat(io);
        let io1 = io.update(0x44, new_ly);
        let io2 = if new_ly == lyc(io) {
            request_stat_if(io1, status, 0b0100_0000)
        } else {
            io1
        };
        let line_cycles = (self.line_cycles - 456) as u32;
        if new_ly >= 144 {
            if self.mode != PpuMode::VBlank {
                (
                    PpuView {
                        mode: PpuMode::VBlank,
                        line_cycles,
                        reached_window: false,
                        window_line_counter: 0,
                    },
                    request(request_stat_if(io2, status, 0b0001_0000), 0b0000_0001),
                )
            } else {
                (
                    PpuView {
                        mode: PpuMode::VBlank,
                        line_cycles,
                        reached_window: reached,
                        window_line_counter: self.window_line_counter,
                    },
                    io2,
                )
            }
        } else {
            (
                PpuView {
                    mode: PpuMode::OAMScan,
                    line_cycles,
                    reached_window: reached,
                    window_line_counter: self.window_line_counter,
                },
                request_stat_if(io2, status, 0b0010_0000),
            )
        }
    }

    /// The unit after `m_cycles` machine cycles, before STAT is written
    /// anew. At most one thing happens: at 456 t-cycles the next line
    /// starts; in OAMScan at 80 t-cycles the line is composed and stored
    /// into the frame, if the display is on (bit 7 of LCDC), and the unit
    /// goes to Drawing; in Drawing at 252 t-cycles it goes to HBlank and
    /// requests the STAT interrupt if bit 3 of STAT is set.
    pub open spec fn advance(
        self,
        m_cycles: u8,
        vram: Seq<u8>,
        oam: Seq<u8>,
        io: Seq<u8>,
        lcd: Seq<u8>,
    ) -> PpuStep {
        let cycles = (self.line_cycles + m_cycles * 4) as u32;
        let ticked = PpuView { line_cycles: cycles, ..self };
        if cycles >= 456 {
            PpuStep { ppu: ticked.next_line(io).0, io: ticked.next_line(io).1, lcd }
        } else if self.mode == PpuMode::OAMScan && cycles >= 80 {
            if lcdc(io) & 0b1000_0000 != 0 {
                PpuStep {
                    ppu: PpuView {
                        mode: PpuMode::Drawing,
                        window_line_counter: if window_drawn(io, ly(io)) {
                            (self.window_line_counter + 1) as u16
                        } else {
                            self.window_line_counter
                        },
                        ..ticked
                    },
                    io,
                    lcd: with_line(
                        lcd,
                        ly(io) as int,
                        composed_line(vram, oam, io, ly(io), self.window_line_counter),
                    ),
                }
            } else {
                PpuStep { ppu: PpuView { mode: PpuMode::Drawing, ..ticked }, io, lcd }
            }
        } else if self.mode == PpuMode::Drawing && cycles >= 252 {
            PpuStep {
                ppu: PpuView { mode: PpuMode::HBlank, ..ticked },
                io: request_stat_if(io, stat(io), 0b0000_1000),
                lcd,
            }
        } else {
            PpuStep { ppu: ticked, io, lcd }
        }
    }

    /// The unit, the registers and the frame after `m_cycles` machine
    /// cycles. At the end the three low bits of STAT are written anew from
    /// the mode and from the comparison of LY with LYC.
    pub open spec fn tick(
        self,
        m_cycles: u8,
        vram: Seq<u8>,
        oam: Seq<u8>,
        io: Seq<u8>,
        lcd: Seq<u8>,
    ) -> PpuStep {
        let step = self.advance(m_cycles, vram, oam, io, lcd);
        PpuStep {
            io: step.io.update(
                0x41,
                stat_value(stat(step.io), step.ppu.mode, ly(step.io) == lyc(step.io)),
            ),
            ..step
        }
    }
}

impl PpuView {
    /// A tick keeps the picture unit and its registers in order: the count of
    /// t-cycles stays below 456 and LY below 154. It leaves the three low
    /// bits of STAT telling the mode and whether LY equals LYC, and it keeps
    /// the size of the frame.
    pub proof fn lemma_tick(
        self,
        m_cycles: u8,
        vram: Seq<u8>,
        oam: Seq<u8>,
        io: Seq<u8>,
        lcd: Seq<u8>,
    )
        requires
            self.wf(io),
            m_cycles < 64,
            lcd.len() == 23040,
        ensures
            ({
                let after = self.tick(m_cycles, vram, oam, io, lcd);
                &&& after.ppu.wf(after.io)
                &&& after.ppu.line_cycles < 456
                &&& ly(after.io) < 154
                &&& stat(after.io) & 0b11 == mode_bits(after.ppu.mode)
                &&& (stat(after.io) & 0b100 != 0) == (ly(after.io) == lyc(after.io))
                &&& after.lcd.len() == 23040
            }),
    {
        let step = self.advance(m_cycles, vram, oam, io, lcd);
        lemma_stat_value(stat(step.io), step.ppu.mode, ly(step.io) == lyc(step.io));
    }
}

/// The picture unit.
pub struct Ppu {
    mode: PpuMode,
    line_cycles: u32,
    reached_window: bool,
    window_line_counter: u16,
}

impl View for Ppu {
    type V = PpuView;

    closed spec fn view(&self) -> PpuView {
        PpuView {
            mode: self.mode,
            line_cycles: self.line_cycles,
            reached_window: self.reached_window,
            window_line_counter: self.window_line_counter,
        }
    }
}

/// Once ten sprites are drawn, the rest of the table changes nothing.
proof fn lemma_scan_full(line: Seq<u8>, vram: Seq<u8>, oam: Seq<u8>, io: Seq<u8>, ly: u8, i: int, n: int)
    requires
        0 <= i <= n,
        sprite_scan(line, vram, oam, io, ly, i).count >= 10,
    ensures
        sprite_scan(line, vram, oam, io, ly, n) == sprite_scan(line, vram, oam, io, ly, i),
    decreases n - i,
{
    if i < n {
        lemma_scan_full(line, vram, oam, io, ly, i, n - 1);
    }
}

fn pixel_of(b1: u8, b2: u8, pos: u8) -> (r: u8)
    requires
        pos < 8,
    ensures
        r == pixel_index(b1, b2, pos),
        r <= 3,
{
    let lo: u8 = if b1 & (1u8 << pos) != 0 { 1 } else { 0 };
    let hi: u8 = if b2 & (1u8 << pos) != 0 { 2 } else { 0 };
    lo + hi
}

fn shade_of(palette: u8, index: u8) -> (r: u8)
    requires
        index <= 3,
    ensures
        r == shade(palette, index),
        r <= 3,
{
    proof {
        lemma_shade_range(palette, index);
    }
    (palette >> (index * 2)) & 0x3
}

/// Reads the two bytes of a row of a tile of the background or window.
fn tile_row(vram: &VideoRam, lcdc: u8, tile: u8, row: u16) -> (r: (u8, u8))
    requires
        row < 8,
    ensures
        r.0 == vram@[tile_row_offset(lcdc, tile, row as int)],
        r.1 == vram@[tile_row_offset(lcdc, tile, row as int) + 1],
{
    let base: u16 = if lcdc & 0b0001_0000 != 0 {
        0x8000 + (tile as u16) * 16
    } else {
        0x8800 + ((tile as u16 + 128) % 256) * 16
    };
    let addr: u16 = base + row * 2;
    (vram.read(addr), vram.read(addr + 1))
}

impl Ppu {
    /// A picture unit at the start of the first scanline.
    pub fn new() -> (r: Self)
        ensures
            r@ == PpuView::power_on(),
    {
        Ppu { mode: PpuMode::OAMScan, line_cycles: 0, reached_window: false, window_line_counter: 0 }
    }

    /// The mode that the picture unit is in.
    pub fn mode(&self) -> (r: PpuMode)
        ensures
            r == self@.mode,
    {
        self.mode
    }

    /// The t-cycles spent in the current scanline.
    pub fn line_cycles(&self) -> (r: u32)
        ensures
            r == self@.line_cycles,
    {
        self.line_cycles
    }

    /// Whether the picture unit and its registers are in order.
    pub fn is_wf(&self, io_regs: &IORegs) -> (ok: bool)
        ensures
            ok == self@.wf(io_regs@),
    {
        proof {
            io_regs.lemma_len();
        }
        let ly = io_regs.read(0xFF44);
        let counter_ok = match self.mode {
            PpuMode::VBlank => self.window_line_counter == 0,
            PpuMode::OAMScan => self.window_line_counter <= ly as u16,
            _ => self.window_line_counter <= ly as u16 + 1,
        };
        let vblank = match self.mode {
            PpuMode::VBlank => true,
            _ => false,
        };
        self.line_cycles < 456 && ly < 154 && vblank == (ly >= 144) && counter_ok
    }

    fn req_vblank_interrupt(io_regs: &mut IORegs)
        ensures
            final(io_regs)@ == request(old(io_regs)@, 0b0000_0001),
    {
        let flags = io_regs.read(0xFF0F);
        io_regs.write(0xFF0F, flags | 0b0000_0001);
    }

    fn req_stat_interrupt(io_regs: &mut IORegs)
        ensures
            final(io_regs)@ == request(old(io_regs)@, 0b0000_0010),
    {
        let flags = io_regs.read(0xFF0F);
        io_regs.write(0xFF0F, flags | 0b0000_0010);
    }

    /// Starts the next scanline.
    fn move_to_next_line(&mut self, io_regs: &mut IORegs)
        requires
            old(self).line_cycles >= 456,
        ensures
            (final(self)@, final(io_regs)@) == old(self)@.next_line(old(io_regs)@),
    {
        proof {
            io_regs.lemma_len();
        }
        let new_ly: u8 = ((io_regs.read(0xFF44) as u16 + 1) % 154) as u8;
        if new_ly == io_regs.read(0xFF4A) {
            self.reached_window = true;
        }
        let lyc = io_regs.read(0xFF45);
        let stat = io_regs.read(0xFF41);
        io_regs.write(0xFF44, new_ly);
        if (new_ly == lyc) && (stat & 0b0100_0000 != 0) {
            Ppu::req_stat_interrupt(io_regs);
        }
        self.line_cycles = self.line_cycles - 456;
        if new_ly >= 144 {
            if self.mode != PpuMode::VBlank {
                if (stat & 0b0001_0000) != 0 {
                    Ppu::req_stat_interrupt(io_regs);
                }
                Ppu::req_vblank_interrupt(io_regs);
                self.reached_window = false;
                self.window_line_counter = 0;
            }
            self.mode = PpuMode::VBlank;
        } else {
            if (stat & 0b0010_0000) != 0 {
                Ppu::req_stat_interrupt(io_regs);
            }
            self.mode = PpuMode::OAMScan;
        }
    }

    /// Composes the line `ly` of the picture.
    fn get_line(&mut self, ly: u8, vram: &VideoRam, oam: &Oam, io_regs: &IORegs) -> (line: [u8; 160])
        requires
            ly < 144,
            old(self).window_line_counter <= 143,
        ensures
            line@ == composed_line(vram@, oam@, io_regs@, ly, old(self)@.window_line_counter),
            all_colors(line@),
            final(self)@ == (PpuView {
                window_line_counter: if window_drawn(io_regs@, ly) {
                    (old(self)@.window_line_counter + 1) as u16
                } else {
                    old(self)@.window_line_counter
                },
                ..old(self)@
            }),
    {
        let mut line: [u8; 160] = [0; 160];
        assert(line@ =~= Seq::new(160, |c: int| 0u8));
        let lcdc = io_regs.read(0xFF40);
        if (lcdc & 0b0000_0001) != 0 {
            self.apply_background_line(ly, &mut line, vram, io_regs);
            if lcdc & 0b0010_0000 != 0 {
                self.apply_window_line(ly, &mut line, vram, io_regs);
            }
        }
        if (lcdc & 0b0000_0010) != 0 {
            self.apply_sprite_line(ly, &mut line, vram, oam, io_regs);
        }
        line
    }

    /// Draws the background over a line.
    fn apply_background_line(&self, ly: u8, line: &mut [u8; 160], vram: &VideoRam, io_regs: &IORegs)
        ensures
            final(line)@ == background_line(vram@, io_regs@, ly),
            all_colors(final(line)@),
    {
        let lcdc = io_regs.read(0xFF40);
        let scy = io_regs.read(0xFF42);
        let scx = io_regs.read(0xFF43);
        let bg_tilemap: u16 = if lcdc & 0b0000_1000 != 0 { 0x9C00 } else { 0x9800 };
        let bg_palette = io_regs.read(0xFF47);
        let tile_y: u16 = (ly as u16 + scy as u16) % 256;
        let fine: u16 = (scx % 8) as u16;
        let mut x_counter: u16 = 0;
        while x_counter < 21
            invariant
                x_counter <= 21,
                lcdc == crate::ppu::lcdc(io_regs@),
                scy == io_regs@[0x42],
                scx == io_regs@[0x43],
                bg_palette == io_regs@[0x47],
                bg_tilemap == 0x8000 + tile_map_offset(lcdc, 0b0000_1000),
                tile_y == (ly + scy) % 256,
                fine == scx % 8,
                forall|x: int|
                    0 <= x < 160 && (x + fine) / 8 < x_counter ==> #[trigger] line@[x] == bg_pixel(
                        vram@,
                        io_regs@,
                        ly,
                        x,
                    ) && line@[x] <= 3,
            decreases 21 - x_counter,
        {
            let map_index: u16 = ((x_counter + (scx as u16 / 8)) % 32) + ((tile_y / 8) % 32) * 32;
            let tile_num = vram.read(bg_tilemap + map_index);
            let (b1, b2) = tile_row(vram, lcdc, tile_num, tile_y % 8);
            let mut px: u16 = 0;
            while px < 8
                invariant
                    px <= 8,
                    x_counter < 21,
                    fine < 8,
                    fine == scx % 8,
                    scx == io_regs@[0x43],
                    scy == io_regs@[0x42],
                    tile_y == (ly + scy) % 256,
                    lcdc == crate::ppu::lcdc(io_regs@),
                    bg_palette == io_regs@[0x47],
                    tile_num == vram@[tile_map_offset(lcdc, 0b0000_1000) + ((x_counter + scx / 8)
                        % 32) + ((tile_y / 8) % 32) * 32],
                    b1 == vram@[tile_row_offset(lcdc, tile_num, tile_y as int % 8)],
                    b2 == vram@[tile_row_offset(lcdc, tile_num, tile_y as int % 8) + 1],
                    forall|x: int|
                        0 <= x < 160 && ((x + fine) / 8 < x_counter || ((x + fine) / 8 == x_counter
                            && (x + fine) % 8 < px)) ==> #[trigger] line@[x] == bg_pixel(
                            vram@,
                            io_regs@,
                            ly,
                            x,
                        ) && line@[x] <= 3,
                decreases 8 - px,
            {
                let pos: u16 = x_counter * 8 + px;
                if pos >= fine {
                    let linepos = (pos - fine) as usize;
                    if linepos < 160 {
                        let px_val = pixel_of(b1, b2, (7 - px) as u8);
                        let color = shade_of(bg_palette, px_val);
                        line[linepos] = color;
                        assert((linepos + fine) / 8 == x_counter as int && (linepos + fine) % 8
                            == px as int);
                    }
                }
                px += 1;
            }
            x_counter += 1;
        }
        assert(line@ =~= background_line(vram@, io_regs@, ly));
    }

    /// Draws the window over a line, if it shows on the line, and counts the
    /// line as a window line.
    fn apply_window_line(&mut self, ly: u8, line: &mut [u8; 160], vram: &VideoRam, io_regs: &IORegs)
        requires
            old(self).window_line_counter <= 143,
            all_colors(old(line)@),
        ensures
            window_visible(io_regs@, ly) ==> final(line)@ == window_line(
                old(line)@,
                vram@,
                io_regs@,
                old(self)@.window_line_counter,
            ) && final(self)@ == (PpuView {
                window_line_counter: (old(self)@.window_line_counter + 1) as u16,
                ..old(self)@
            }),
            !window_visible(io_regs@, ly) ==> final(line)@ == old(line)@ && final(self)@ == old(
                self,
            )@,
            all_colors(final(line)@),
    {
        let lcdc = io_regs.read(0xFF40);
        let window_tilemap: u16 = if lcdc & 0b0100_0000 != 0 { 0x9C00 } else { 0x9800 };
        let bg_palette = io_regs.read(0xFF47);
        let wy = io_regs.read(0xFF4A);
        let wx = io_regs.read(0xFF4B);
        if ly >= wy && wx >= 7 && wx < 167 {
            let counter = self.window_line_counter;
            let left: u16 = (wx - 7) as u16;
            let mut x_counter: u16 = 0;
            while x_counter < 20
                invariant
                    x_counter <= 20,
                    counter <= 143,
                    left == io_regs@[0x4B] - 7,
                    left < 160,
                    lcdc == crate::ppu::lcdc(io_regs@),
                    bg_palette == io_regs@[0x47],
                    window_tilemap == 0x8000 + tile_map_offset(lcdc, 0b0100_0000),
                    forall|x: int|
                        0 <= x < 160 ==> #[trigger] line@[x] == (if x >= left && (x - left) / 8
                            < x_counter {
                            window_pixel(vram@, io_regs@, counter, x)
                        } else {
                            old(line)@[x]
                        }),
                    all_colors(line@),
                decreases 20 - x_counter,
            {
                let addr: u16 = window_tilemap + x_counter + (counter / 8) * 32;
                let tile_num = vram.read(addr);
                let (b1, b2) = tile_row(vram, lcdc, tile_num, counter % 8);
                let mut px: u16 = 0;
                while px < 8
                    invariant
                        px <= 8,
                        x_counter < 20,
                        counter <= 143,
                        left == io_regs@[0x4B] - 7,
                        left < 160,
                        lcdc == crate::ppu::lcdc(io_regs@),
                        bg_palette == io_regs@[0x47],
                        tile_num == vram@[tile_map_offset(lcdc, 0b0100_0000) + x_counter + (counter
                            / 8) * 32],
                        b1 == vram@[tile_row_offset(lcdc, tile_num, counter as int % 8)],
                        b2 == vram@[tile_row_offset(lcdc, tile_num, counter as int % 8) + 1],
                        forall|x: int|
                            0 <= x < 160 ==> #[trigger] line@[x] == (if x >= left && ((x - left) / 8
                                < x_counter || ((x - left) / 8 == x_counter && (x - left) % 8
                                < px)) {
                                window_pixel(vram@, io_regs@, counter, x)
                            } else {
                                old(line)@[x]
                            }),
                        all_colors(line@),
                    decreases 8 - px,
                {
                    let linepos = (x_counter * 8 + px + left) as usize;
                    if linepos < 160 {
                        let px_val = pixel_of(b1, b2, (7 - px) as u8);
                        let color = shade_of(bg_palette, px_val);
                        line[linepos] = color;
                        assert((linepos - left) / 8 == x_counter as int && (linepos - left) % 8
                            == px as int);
                    }
                    px += 1;
                }
                x_counter += 1;
            }
            self.window_line_counter = self.window_line_counter + 1;
            assert(line@ =~= window_line(old(line)@, vram@, io_regs@, counter));
        }
    }

    /// Draws the sprites over a line.
    fn apply_sprite_line(
        &self,
        ly: u8,
        line: &mut [u8; 160],
        vram: &VideoRam,
        oam: &Oam,
        io_regs: &IORegs,
    )
        requires
            all_colors(old(line)@),
        ensures
            final(line)@ == sprite_line(old(line)@, vram@, oam@, io_regs@, ly),
            all_colors(final(line)@),
    {
        let mut sprite_px: [u8; 160] = [0; 160];
        let mut priority: [u8; 160] = [0xFF; 160];
        let lcdc = io_regs.read(0xFF40);
        let tall_sprite_mode = lcdc & 0b0000_0100 != 0;
        let height: u16 = if tall_sprite_mode { 16 } else { 8 };
        let row16: u16 = ly as u16 + 16;
        let mut buffered_sprites: u8 = 0;
        let mut i: usize = 0;
        assert(sprite_px@ =~= Seq::new(160, |c: int| 0u8));
        assert(priority@ =~= Seq::new(160, |c: int| 0xFFu8));
        while i < 40 && buffered_sprites < 10
            invariant
                i <= 40,
                lcdc == crate::ppu::lcdc(io_regs@),
                height == sprite_height(lcdc),
                tall_sprite_mode == (height == 16),
                row16 == ly + 16,
                all_colors(line@),
                line@ == old(line)@,
                forall|c: int| 0 <= c < 160 ==> #[trigger] sprite_px@[c] <= 3,
                (SpriteLine {
                    pixels: sprite_px@,
                    priority: priority@,
                    count: buffered_sprites as int,
                }) == sprite_scan(line@, vram@, oam@, io_regs@, ly, i as int),
            decreases 40 - i,
        {
            let entry = oam.entry(i);
            let (y, x, tile, flags) = entry;
            let ghost acc = sprite_scan(line@, vram@, oam@, io_regs@, ly, i as int);
            if x > 0 && row16 >= y as u16 && row16 < y as u16 + height {
                buffered_sprites += 1;
                let tidx: u8 = if tall_sprite_mode { tile - tile % 2 } else { tile };
                let row: u16 = row16 - y as u16;
                let y_line_skew: u16 = if flags & 0b0100_0000 != 0 { height - 1 - row } else { row };
                let sprite_palette = if flags & 0b0001_0000 != 0 {
                    io_regs.read(0xFF49)
                } else {
                    io_regs.read(0xFF48)
                };
                let tile_addr: u16 = 0x8000 + (tidx as u16 * 16 + (y_line_skew * 2));
                let b1 = vram.read(tile_addr);
                let b2 = vram.read(tile_addr + 1);
                let ghost drawn = draw_sprite(acc, line@, vram@, io_regs@, entry, ly);
                let mut px: u8 = 0;
                while px < 8
                    invariant
                        px <= 8,
                        entry == (y, x, tile, flags),
                        lcdc == crate::ppu::lcdc(io_regs@),
                        height == sprite_height(lcdc),
                        tall_sprite_mode == (height == 16),
                        tidx == (if tall_sprite_mode {
                            tile - tile % 2
                        } else {
                            tile as int
                        }),
                        y_line_skew == (if flags & 0b0100_0000 != 0 {
                            height - 1 - (ly + 16 - y)
                        } else {
                            ly + 16 - y
                        }),
                        b1 == vram@[tidx * 16 + y_line_skew * 2],
                        b2 == vram@[tidx * 16 + y_line_skew * 2 + 1],
                        sprite_palette == crate::ppu::sprite_palette(io_regs@, flags),
                        all_colors(line@),
                        line@ == old(line)@,
                        acc.pixels.len() == 160,
                        acc.priority.len() == 160,
                        drawn == draw_sprite(acc, line@, vram@, io_regs@, entry, ly),
                        forall|c: int| 0 <= c < 160 ==> #[trigger] acc.pixels[c] <= 3,
                        forall|c: int| 0 <= c < 160 ==> #[trigger] sprite_px@[c] <= 3,
                        forall|c: int|
                            0 <= c < 160 ==> #[trigger] sprite_px@[c] == (if 0 <= c + 8 - x < px {
                                drawn.pixels[c]
                            } else {
                                acc.pixels[c]
                            }),
                        forall|c: int|
                            0 <= c < 160 ==> #[trigger] priority@[c] == (if 0 <= c + 8 - x < px {
                                drawn.priority[c]
                            } else {
                                acc.priority[c]
                            }),
                    decreases 8 - px,
                {
                    let pos: u16 = x as u16 + px as u16;
                    if pos >= 8 {
                        let linepos = (pos - 8) as usize;
                        if linepos < 160 {
                            let sprite_pos: u8 = if flags & 0b0010_0000 != 0 { px } else { 7 - px };
                            let px_val = pixel_of(b1, b2, sprite_pos);
                            if px_val != 0 && x < priority[linepos] {
                                priority[linepos] = x;
                                if !(flags & 0b1000_0000 != 0 && line[linepos] != 0) {
                                    sprite_px[linepos] = shade_of(sprite_palette, px_val);
                                }
                            }
                        }
                    }
                    px += 1;
                }
                assert(sprite_px@ =~= drawn.pixels);
                assert(priority@ =~= drawn.priority);
            }
            i += 1;
        }
        proof {
            if i < 40 {
                lemma_scan_full(line@, vram@, oam@, io_regs@, ly, i as int, 40);
            }
        }
        let ghost sprites = sprite_px@;
        let mut linepos: usize = 0;
        while linepos < 160
            invariant
                linepos <= 160,
                sprites == sprite_px@,
                forall|c: int| 0 <= c < 160 ==> #[trigger] sprite_px@[c] <= 3,
                all_colors(line@),
                forall|c: int|
                    0 <= c < 160 ==> #[trigger] line@[c] == (if c < linepos && sprites[c] != 0 {
                        sprites[c]
                    } else {
                        old(line)@[c]
                    }),
            decreases 160 - linepos,
        {
            if sprite_px[linepos] != 0 {
                line[linepos] = sprite_px[linepos];
            }
            linepos += 1;
        }
        assert(line@ =~= sprite_line(old(line)@, vram@, oam@, io_regs@, ly));
    }

    /// Advances the picture unit by `m_cycles` machine cycles.
    pub fn tick(
        &mut self,
        m_cycles: u8,
        vram: &VideoRam,
        oam: &Oam,
        io_regs: &mut IORegs,
        lcd: &mut Lcd,
    )
        requires
            old(self)@.wf(old(io_regs)@),
            m_cycles < 64,
        ensures
            final(self)@ == old(self)@.tick(m_cycles, vram@, oam@, old(io_regs)@, old(lcd)@).ppu,
            final(io_regs)@ == old(self)@.tick(m_cycles, vram@, oam@, old(io_regs)@, old(lcd)@).io,
            final(lcd)@ == old(self)@.tick(m_cycles, vram@, oam@, old(io_regs)@, old(lcd)@).lcd,
            final(self)@.wf(final(io_regs)@),
            stat(final(io_regs)@) & 0b11 == mode_bits(final(self)@.mode),
            (stat(final(io_regs)@) & 0b100 != 0) == (ly(final(io_regs)@) == lyc(final(io_regs)@)),
            all_colors(old(lcd)@) ==> all_colors(final(lcd)@),
    {
        proof {
            io_regs.lemma_len();
        }
        let t_cycles: u32 = m_cycles as u32 * 4;
        self.line_cycles = self.line_cycles + t_cycles;
        let ly = io_regs.read(0xFF44);
        if self.line_cycles >= 456 {
            self.move_to_next_line(io_regs);
        } else if self.mode == PpuMode::OAMScan && self.line_cycles >= 80 {
            if io_regs.read(0xFF40) & 0b1000_0000 != 0 {
                let line = self.get_line(ly, vram, oam, io_regs);
                lcd.set_line(ly, line);
            }
            self.mode = PpuMode::Drawing;
        } else if self.mode == PpuMode::Drawing && self.line_cycles >= 252 {
            let stat = io_regs.read(0xFF41);
            if (stat & 0b0000_1000) != 0 {
                Ppu::req_stat_interrupt(io_regs);
            }
            self.mode = PpuMode::HBlank;
        }
        proof {
            io_regs.lemma_len();
        }
        let stat = io_regs.read(0xFF41);
        let coincide = io_regs.read(0xFF44) == io_regs.read(0xFF45);
        let flag: u8 = if coincide { 0b100 } else { 0 };
        let mode: u8 = match self.mode {
            PpuMode::HBlank => 0b00,
            PpuMode::VBlank => 0b01,
            PpuMode::OAMScan => 0b10,
            PpuMode::Drawing => 0b11,
        };
        proof {
            lemma_stat_value(stat, self.mode, coincide);
        }
        io_regs.write(0xFF41, (stat & 0b1111_1000) | mode | flag);
    }
}

impl Default for Ppu {
    fn default() -> (r: Self)
        ensures
            r@ == PpuView::power_on(),
    {
        Ppu::new()
    }
}

} // verus!
