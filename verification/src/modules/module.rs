use vstd::prelude::*;
use vstd::string::*;

use crate::pixel_display::pixel_display::{same_shape, PixelDisplay};

verus! {

/// A small drawable widget: something that can render itself at an
/// anchor point on the display surface.
pub trait Module {
    /// Renders the module anchored at `(x, y)`. Drawing never
    /// changes the panel's shape or backend.
    fn draw(&self, x: i32, y: i32, display: &mut PixelDisplay)
        ensures
            same_shape(*old(display), *final(display)),
    ;
}

/// Relies on chrono::Local::now and its calendar/clock accessors:
/// the local wall-clock reading as (day, month, hour, minute), with
/// day in 1..=31, month in 1..=12, hour below 24, minute below 60.
#[verifier::external_body]
pub fn local_now_parts() -> (r: (u32, u32, u32, u32))
    ensures
        1 <= r.0 <= 31,
        1 <= r.1 <= 12,
        r.2 < 24,
        r.3 < 60,
{
    let now = chrono::Local::now();
    (
        chrono::Datelike::day(&now),
        chrono::Datelike::month(&now),
        chrono::Timelike::hour(&now),
        chrono::Timelike::minute(&now),
    )
}

/// The decimal digit character for a value below ten.
pub open spec fn digit_char(d: int) -> char {
    if d == 0 {
        '0'
    } else if d == 1 {
        '1'
    } else if d == 2 {
        '2'
    } else if d == 3 {
        '3'
    } else if d == 4 {
        '4'
    } else if d == 5 {
        '5'
    } else if d == 6 {
        '6'
    } else if d == 7 {
        '7'
    } else if d == 8 {
        '8'
    } else {
        '9'
    }
}

/// A value below one hundred, zero-padded to two digits.
pub open spec fn two_digits(v: int) -> Seq<char> {
    seq![digit_char(v / 10), digit_char(v % 10)]
}

/// The clock face text "HH:MM".
pub open spec fn clock_text(hour: int, minute: int) -> Seq<char> {
    two_digits(hour) + seq![':'] + two_digits(minute)
}

/// The calendar text "DD.MM".
pub open spec fn date_text(day: int, month: int) -> Seq<char> {
    two_digits(day) + seq!['.'] + two_digits(month)
}

/// The one-character string for a decimal digit.
fn digit_str(d: u32) -> (r: &'static str)
    requires
        d < 10,
    ensures
        r@ =~= seq![digit_char(d as int)],
{
    proof {
        reveal_strlit("0");
        reveal_strlit("1");
        reveal_strlit("2");
        reveal_strlit("3");
        reveal_strlit("4");
        reveal_strlit("5");
        reveal_strlit("6");
        reveal_strlit("7");
        reveal_strlit("8");
        reveal_strlit("9");
    }
    match d {
        0 => "0",
        1 => "1",
        2 => "2",
        3 => "3",
        4 => "4",
        5 => "5",
        6 => "6",
        7 => "7",
        8 => "8",
        _ => "9",
    }
}

/// Appends a value below one hundred as two zero-padded digits.
fn push_two_digits(s: String, v: u32) -> (r: String)
    requires
        v < 100,
    ensures
        r@ == s@ + two_digits(v as int),
{
    let tens = v / 10;
    let ones = v % 10;
    let s1 = s.concat(digit_str(tens));
    let r = s1.concat(digit_str(ones));
    proof {
        assert(r@ =~= s@ + two_digits(v as int));
    }
    r
}

/// The clock face text "HH:MM" for the given hour and minute.
pub fn format_clock(hour: u32, minute: u32) -> (r: String)
    requires
        hour < 24,
        minute < 60,
    ensures
        r@ == clock_text(hour as int, minute as int),
{
    proof {
        reveal_strlit(":");
    }
    let s = push_two_digits(String::new(), hour);
    let s = s.concat(":");
    let r = push_two_digits(s, minute);
    proof {
        assert(r@ =~= clock_text(hour as int, minute as int));
    }
    r
}

/// The calendar text "DD.MM" for the given day and month.
pub fn format_date(day: u32, month: u32) -> (r: String)
    requires
        day <= 31,
        month <= 12,
    ensures
        r@ == date_text(day as int, month as int),
{
    proof {
        reveal_strlit(".");
    }
    let s = push_two_digits(String::new(), day);
    let s = s.concat(".");
    let r = push_two_digits(s, month);
    proof {
        assert(r@ =~= date_text(day as int, month as int));
    }
    r
}

} // verus!
