//! Display interface for little-synth. No UI implementation yet; this module
//! defines the trait and types so firmware can be written against the abstraction.
//!
//! Implement this trait for your chosen display (e.g. SPI TFT, I2C OLED).

use vstd::prelude::*;

verus! {

/// Pixel format for the framebuffer or draw operations.
#[derive(Debug, Clone, Copy, PartialEq, Eq, Structural)]
pub enum PixelFormat {
    /// 16-bit RGB565
    Rgb565,
    /// 8-bit grayscale
    Grayscale8,
    /// 1-bit monochrome
    Monochrome,
}

/// Rectangle for dirty regions or clipping.
#[derive(Debug, Clone, Copy, PartialEq, Eq, Structural)]
pub struct Rect {
    pub x: u16,
    pub y: u16,
    pub w: u16,
    pub h: u16,
}

impl Default for Rect {
    fn default() -> (r: Self)
        ensures
            r == (Rect { x: 0, y: 0, w: 0, h: 0 }),
    {
        Rect { x: 0, y: 0, w: 0, h: 0 }
    }
}

/// Display interface: implement for your hardware (SPI/I2C screen).
///
/// `dims` and `flushed` are specification only: an implementation defines
/// them from its (ghost) state, and they are never called at run time.
pub trait Display {
    /// Width and height in pixels.
    spec fn dims(&self) -> (u16, u16);

    /// The rectangles flushed to the screen so far, in order.
    spec fn flushed(&self) -> Seq<Rect>;

    /// Width and height in pixels.
    fn size(&self) -> (wh: (u16, u16))
        ensures
            wh == self.dims(),
    ;

    /// Pixel format.
    fn format(&self) -> PixelFormat;

    /// Clear entire display to color (format-dependent).
    fn clear(&mut self, color: u32)
        ensures
            final(self).dims() == old(self).dims(),
    ;

    /// Flush a region to the display (e.g. after drawing).
    fn flush_rect(&mut self, rect: Rect)
        ensures
            final(self).dims() == old(self).dims(),
            final(self).flushed() == old(self).flushed().push(rect),
    ;

    /// Flush entire buffer: flushes the rectangle at the origin that spans
    /// the display's size.
    fn flush(&mut self)
        ensures
            final(self).dims() == old(self).dims(),
            final(self).flushed() == old(self).flushed().push(
                Rect { x: 0, y: 0, w: old(self).dims().0, h: old(self).dims().1 },
            ),
    {
        let (w, h) = self.size();
        self.flush_rect(Rect { x: 0, y: 0, w, h });
    }
}

/// Dummy display for bring-up when no screen is connected. The rectangles
/// flushed to it are kept as ghost state only.
pub struct DummyDisplay {
    width: u16,
    height: u16,
    flushed: Ghost<Seq<Rect>>,
}

impl DummyDisplay {
    pub fn new(width: u16, height: u16) -> (d: Self)
        ensures
            d.dims() == (width, height),
            d.flushed() == Seq::<Rect>::empty(),
    {
        Self { width, height, flushed: Ghost(Seq::empty()) }
    }
}

impl Display for DummyDisplay {
    closed spec fn dims(&self) -> (u16, u16) {
        (self.width, self.height)
    }

    closed spec fn flushed(&self) -> Seq<Rect> {
        self.flushed@
    }

    fn size(&self) -> (r: (u16, u16)) {
        (self.width, self.height)
    }

    fn format(&self) -> (f: PixelFormat)
        ensures
            f == PixelFormat::Rgb565,
    {
        PixelFormat::Rgb565
    }

    fn clear(&mut self, _color: u32)
        ensures
            final(self).flushed() == old(self).flushed(),
    {
    }

    fn flush_rect(&mut self, rect: Rect) {
        self.flushed = Ghost(self.flushed@.push(rect));
    }
}

} // verus!
