use vstd::prelude::*;

use embedded_graphics::pixelcolor::Rgb888;
use tinybmp::Bmp;

use super::module::Module;
use crate::pixel_display::pixel_display::{DrawOp, PixelDisplay};

verus! {

/// Whether a byte sequence parses as a BMP bitmap; decided by the
/// bitmap parser, from the bytes alone.
pub uninterp spec fn bmp_parse_ok(bytes: Seq<u8>) -> bool;

/// Relies on tinybmp::Bmp::from_slice: parses BMP-format bytes into
/// a decoded bitmap; whether it succeeds depends on the bytes alone.
#[verifier::external_body]
fn parse_bmp<'a>(bytes: &'a [u8]) -> (r: Option<Bmp<'a, Rgb888>>)
    ensures
        (r is Some) == bmp_parse_ok(bytes@),
{
    Bmp::from_slice(bytes).ok()
}

/// A bitmap widget: a decoded BMP image that draws itself at an
/// anchor point.
pub struct Image<'a> {
    bitmap: Bmp<'a, Rgb888>,
}

impl<'a> Image<'a> {
    /// Decodes the bytes; yields the widget exactly when they parse
    /// as a BMP bitmap.
    pub fn new(bytes: &'a [u8]) -> (r: Option<Image<'a>>)
        ensures
            (r is Some) == bmp_parse_ok(bytes@),
    {
        match parse_bmp(bytes) {
            Some(b) => Some(Image { bitmap: b }),
            None => None,
        }
    }
}

impl Module for Image<'_> {
    fn draw(&self, x: i32, y: i32, display: &mut PixelDisplay)
        ensures
            final(display).ops@ == old(display).ops@.push((DrawOp::Bitmap(x, y))),
    {
        display.draw_image(&self.bitmap, x, y);
    }
}

} // verus!
