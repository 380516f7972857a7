//! The frame buffer: 144 lines of 160 palette indices, top line first.

use vstd::prelude::*;

verus! {

/// A frame in which line `ly` is replaced by `line`.
pub open spec fn with_line(pixels: Seq<u8>, ly: int, line: Seq<u8>) -> Seq<u8> {
    Seq::new(
        23040,
        |i: int|
            if ly * 160 <= i < (ly + 1) * 160 {
                line[i - ly * 160]
            } else {
                pixels[i]
            },
    )
}

/// Every byte is a palette index: 0, 1, 2 or 3.
pub open spec fn all_colors(pixels: Seq<u8>) -> bool {
    forall|i: int| 0 <= i < pixels.len() ==> #[trigger] pixels[i] <= 3
}

/// The frame that the picture unit draws into.
pub struct Lcd {
    pub pixels: [u8; 23040],
}

impl View for Lcd {
    type V = Seq<u8>;

    open spec fn view(&self) -> Seq<u8> {
        self.pixels@
    }
}

impl Lcd {
    /// A frame of 23040 pixels of colour 0.
    pub fn new() -> (r: Self)
        ensures
            r@ == crate::memory::zeros(23040),
            all_colors(r@),
    {
        let r = Lcd { pixels: [0u8; 23040] };
        assert(r.pixels@ =~= crate::memory::zeros(23040));
        r
    }

    /// Stores a composed line into the frame.
    pub fn set_line(&mut self, ly: u8, line: [u8; 160])
        requires
            ly < 144,
        ensures
            final(self)@ == with_line(old(self)@, ly as int, line@),
            all_colors(old(self)@) && all_colors(line@) ==> all_colors(final(self)@),
    {
        let base = ly as usize * 160;
        let mut i: usize = 0;
        while i < 160
            invariant
                i <= 160,
                base == ly * 160,
                ly < 144,
                forall|k: int| 0 <= k < base ==> self.pixels@[k] == old(self).pixels@[k],
                forall|k: int| base + i <= k < 23040 ==> self.pixels@[k] == old(self).pixels@[k],
                forall|k: int| 0 <= k < i ==> self.pixels@[base + k] == line@[k],
            decreases 160 - i,
        {
            self.pixels[base + i] = line[i];
            i += 1;
        }
        assert(self.pixels@ =~= with_line(old(self)@, ly as int, line@));
    }
}

impl Default for Lcd {
    fn default() -> (r: Self)
        ensures
            r@ == crate::memory::zeros(23040),
    {
        Lcd::new()
    }
}

/// The colour in which a shade is shown, as red, green, blue and alpha:
/// white for 0, light grey for 1, dark grey for 2 and black for 3.
pub open spec fn rgba(shade: u8) -> Seq<u8> {
    if shade == 0 {
        seq![255u8, 255u8, 255u8, 255u8]
    } else if shade == 1 {
        seq![175u8, 175u8, 175u8, 255u8]
    } else if shade == 2 {
        seq![100u8, 100u8, 100u8, 255u8]
    } else {
        seq![0u8, 0u8, 0u8, 255u8]
    }
}

/// A buffer of four bytes per pixel after the frame was painted into it.
/// Bytes behind the last whole pixel stay as they are.
pub open spec fn painted(pixels: Seq<u8>, frame: Seq<u8>) -> Seq<u8> {
    Seq::new(
        frame.len(),
        |i: int|
            if i / 4 < frame.len() / 4 {
                rgba(pixels[i / 4])[i % 4]
            } else {
                frame[i]
            },
    )
}

/// Paints the frame into a buffer of four bytes per pixel, in four shades of
/// grey.
pub fn draw_lcd(lcd: &Lcd, frame: &mut [u8])
    requires
        old(frame)@.len() / 4 <= 23040,
        forall|i: int| 0 <= i < old(frame)@.len() / 4 ==> #[trigger] lcd@[i] <= 3,
    ensures
        final(frame)@ == painted(lcd@, old(frame)@),
{
    let count = frame.len() / 4;
    let mut i: usize = 0;
    while i < count
        invariant
            i <= count,
            count == old(frame)@.len() / 4,
            count <= 23040,
            frame@.len() == old(frame)@.len(),
            forall|k: int| 0 <= k < 4 * i ==> #[trigger] frame@[k] == rgba(lcd@[k / 4])[k % 4],
            forall|k: int| 4 * i <= k < frame@.len() ==> #[trigger] frame@[k] == old(frame)@[k],
        decreases count - i,
    {
        let shade = lcd.pixels[i];
        let grey: u8 = if shade == 0 {
            255
        } else if shade == 1 {
            175
        } else if shade == 2 {
            100
        } else {
            0
        };
        frame[4 * i] = grey;
        frame[4 * i + 1] = grey;
        frame[4 * i + 2] = grey;
        frame[4 * i + 3] = 255;
        i += 1;
    }
    assert(frame@ =~= painted(lcd@, old(frame)@));
}

} // verus!
