use vstd::prelude::*;

use super::module::{clock_text, format_clock, local_now_parts, Module};
use crate::pixel_display::pixel_display::{DrawOp, PixelDisplay};

verus! {

/// A clock widget: draws the local time as "HH:MM".
pub struct Time {}

impl Module for Time {
    fn draw(&self, x: i32, y: i32, display: &mut PixelDisplay)
        ensures
            exists|h: int, m: int|
                0 <= h < 24 && 0 <= m < 60 && final(display).ops@ == old(display).ops@.push(
                    (DrawOp::Text(clock_text(h, m), x, y)),
                ),
    {
        let (_day, _month, hour, minute) = local_now_parts();
        let text = format_clock(hour, minute);
        display.draw_text(text.as_str(), x, y);
    }
}

} // verus!
