//! Decoded frames: what an image decoder hands over, before any mapping onto the
//! display.
use vstd::prelude::*;

verus! {

/// What to do with the canvas when a frame is drawn.
#[derive(Clone, Copy, Debug, PartialEq, Eq, Structural)]
pub enum Disposal {
    /// No action is asked for.
    Any,
    /// Leave the canvas as it is.
    Keep,
    /// Restore the canvas to the background.
    Background,
    /// Restore the canvas to what it showed before.
    Previous,
}

/// One decoded frame: rows of RGBA pixels with the place and the timing that the
/// source gives them.
///
/// The pixel at (`x`, `y`) of the frame takes the four bytes of `rgba` that begin at
/// `4 * (y * width + x)`. A pixel whose bytes the buffer does not hold is treated
/// as absent.
#[derive(Debug)]
pub struct RawFrame {
    /// Red, green, blue and alpha of each pixel, row by row.
    pub rgba: Vec<u8>,
    /// Width of the frame in pixels.
    pub width: u16,
    /// Height of the frame in pixels.
    pub height: u16,
    /// Offset of the frame from the top border of the canvas.
    pub top: u16,
    /// Offset of the frame from the left border of the canvas.
    pub left: u16,
    /// Time to show the frame, in hundredths of a second.
    pub delay: u16,
    /// What happens to the canvas when the frame is drawn.
    pub dispose: Disposal,
}

/// What a decoded frame holds, as plain values.
pub struct RawFrameView {
    pub rgba: Seq<u8>,
    pub width: u16,
    pub height: u16,
    pub top: u16,
    pub left: u16,
    pub delay: u16,
    pub dispose: Disposal,
}

impl View for RawFrame {
    type V = RawFrameView;

    open spec fn view(&self) -> RawFrameView {
        RawFrameView {
            rgba: self.rgba@,
            width: self.width,
            height: self.height,
            top: self.top,
            left: self.left,
            delay: self.delay,
            dispose: self.dispose,
        }
    }
}

/// A complete frame holds a pixel at every place inside its width and height.
pub proof fn lemma_complete_has_pixels(frame: RawFrameView, x: int, y: int)
    requires
        frame.complete(),
        0 <= x < frame.width,
        0 <= y < frame.height,
    ensures
        frame.has_pixel(x, y),
{
    assert(y * frame.width + x < frame.width * frame.height) by (nonlinear_arith)
        requires
            0 <= x < frame.width,
            0 <= y < frame.height,
    ;
}

/// Red, green and blue of one pixel.
#[derive(Clone, Copy, Debug, PartialEq, Eq, Structural)]
pub struct Rgb {
    pub red: u8,
    pub green: u8,
    pub blue: u8,
}

impl Rgb {
    /// The mean of the three channels, rounded down.
    pub open spec fn grey(self) -> u8 {
        ((self.red + self.green + self.blue) / 3) as u8
    }

    /// The mean of the three channels, rounded down.
    pub fn mean(&self) -> (g: u8)
        ensures
            g == self.grey(),
    {
        let sum: u16 = self.red as u16 + self.green as u16 + self.blue as u16;
        (sum / 3) as u8
    }
}

impl RawFrameView {
    /// The index in `rgba` of the first byte of the pixel at (`x`, `y`).
    pub open spec fn offset(&self, x: int, y: int) -> int {
        4 * (y * self.width + x)
    }

    /// Whether the frame holds a pixel at (`x`, `y`).
    pub open spec fn has_pixel(&self, x: int, y: int) -> bool {
        &&& 0 <= x < self.width
        &&& 0 <= y < self.height
        &&& self.offset(x, y) + 3 < self.rgba.len()
    }

    /// Whether the buffer holds exactly the pixels of the frame: four bytes for
    /// each of its `width * height` pixels.
    pub open spec fn complete(&self) -> bool {
        self.rgba.len() == 4 * (self.width * self.height)
    }

    /// Whether the frame holds a fully opaque pixel at (`x`, `y`). Only such a
    /// pixel is ever drawn: any other alpha counts as unset.
    pub open spec fn is_opaque(&self, x: int, y: int) -> bool {
        self.has_pixel(x, y) && self.rgba[self.offset(x, y) + 3] == 255
    }

    /// The colour of the pixel at (`x`, `y`).
    pub open spec fn colour(&self, x: int, y: int) -> Rgb
        recommends
            self.has_pixel(x, y),
    {
        Rgb {
            red: self.rgba[self.offset(x, y)],
            green: self.rgba[self.offset(x, y) + 1],
            blue: self.rgba[self.offset(x, y) + 2],
        }
    }

    /// Whether the frame is one solid colour: it is complete, and every pixel is
    /// fully opaque and has the red value `red`.
    pub open spec fn solid(&self, red: u8) -> bool {
        &&& self.complete()
        &&& forall|x: int, y: int|
            0 <= x < self.width && 0 <= y < self.height ==> #[trigger] self.is_opaque(x, y)
                && self.colour(x, y).red == red
    }

    /// The time to show the frame, in milliseconds.
    pub open spec fn delay_millis(&self) -> nat {
        (self.delay * 10) as nat
    }
}

impl RawFrame {
    /// The colour of the pixel at (`x`, `y`) where the frame holds a fully opaque
    /// one, `None` everywhere else.
    pub fn opaque_pixel(&self, x: i64, y: i64) -> (pixel: Option<Rgb>)
        ensures
            self@.is_opaque(x as int, y as int) ==> pixel == Some(self@.colour(x as int, y as int)),
            !self@.is_opaque(x as int, y as int) ==> pixel is None,
    {
        if x < 0 || y < 0 || x >= self.width as i64 || y >= self.height as i64 {
            return None;
        }
        assert(0 <= y * (self.width as int) + x < 0x1_0000_0000) by (nonlinear_arith)
            requires
                0 <= x < self.width,
                0 <= y < self.height,
                self.width <= 0xffff,
                self.height <= 0xffff,
        ;
        let offset: u64 = 4 * (y as u64 * self.width as u64 + x as u64);
        if offset + 3 >= self.rgba.len() as u64 {
            return None;
        }
        let at: usize = offset as usize;
        if self.rgba[at + 3] != 255 {
            return None;
        }
        Some(Rgb { red: self.rgba[at], green: self.rgba[at + 1], blue: self.rgba[at + 2] })
    }

    /// Whether the buffer holds exactly the pixels of the frame.
    pub fn is_complete(&self) -> (yes: bool)
        ensures
            yes == self@.complete(),
    {
        assert(0 <= self.width as int * self.height as int <= 0xffff * 0xffff) by (nonlinear_arith)
            requires
                0 <= self.width <= 0xffff,
                0 <= self.height <= 0xffff,
        ;
        self.rgba.len() as u64 == 4 * (self.width as u64 * self.height as u64)
    }

    /// The time to show the frame, in milliseconds: ten times the delay that the
    /// source gives in hundredths of a second.
    pub fn millis(&self) -> (ms: u64)
        ensures
            ms == self@.delay_millis(),
    {
        self.delay as u64 * 10
    }
}

} // verus!
