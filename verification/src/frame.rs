//! A decoded frame as a plain four-channel pixel buffer.

use vstd::prelude::*;

verus! {

/// A decoded image frame in a fixed four-channel layout: one red, green,
/// blue and alpha byte per pixel, row-major, alpha not premultiplied.
pub struct RgbaFrame {
    /// Width in pixels; always positive.
    pub width: u32,
    /// Height in pixels; always positive.
    pub height: u32,
    /// The pixel bytes, exactly `width * height * 4` of them.
    pub pixels: Vec<u8>,
}

impl RgbaFrame {
    /// A frame is well formed when it has at least one pixel and its
    /// buffer holds exactly four bytes per pixel.
    pub open spec fn well_formed(self) -> bool {
        &&& self.width > 0
        &&& self.height > 0
        &&& self.pixels@.len() == self.width as nat * self.height as nat * 4
    }

    /// The number of bytes in the pixel buffer.
    pub fn byte_len(&self) -> (n: usize)
        ensures
            n == self.pixels@.len(),
    {
        self.pixels.len()
    }
}

} // verus!
