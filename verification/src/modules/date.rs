use vstd::prelude::*;

use super::module::{date_text, format_date, local_now_parts, Module};
use crate::pixel_display::pixel_display::{DrawOp, PixelDisplay};

verus! {

/// A calendar widget: draws the local date as "DD.MM".
pub struct Date {}

impl Module for Date {
    fn draw(&self, x: i32, y: i32, display: &mut PixelDisplay)
        ensures
            exists|d: int, mo: int|
                1 <= d <= 31 && 1 <= mo <= 12 && final(display).ops@ == old(display).ops@.push(
                    (DrawOp::Text(date_text(d, mo), x, y)),
                ),
    {
        let (day, month, _hour, _minute) = local_now_parts();
        let text = format_date(day, month);
        display.draw_text(text.as_str(), x, y);
    }
}

} // verus!
