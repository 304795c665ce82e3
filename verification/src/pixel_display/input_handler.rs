use vstd::prelude::*;

use crate::apps::launcher::Input;

verus! {

/// The level of a GPIO line at one polling tick.
#[derive(Clone, Copy, Debug, PartialEq, Eq, Structural)]
pub enum Level {
    High,
    Low,
}

/// One encoder sample: what event a clock transition produces.
/// On a transition of the clock line, the data line decides the
/// direction: a disagreeing data line means a `Next` step, an
/// agreeing one a `Prev` step. No transition, no event.
pub open spec fn encoder_event(last_clk: Level, clk: Level, dat: Level) -> Option<Input> {
    if clk != last_clk {
        if dat != clk {
            Some(Input::Next)
        } else {
            Some(Input::Prev)
        }
    } else {
        None
    }
}

/// How a finished button press is classified from its held duration
/// in milliseconds: strictly between 75 and 500 is a `Pressed`,
/// above 1000 a `Held`; anything else (contact bounce below 75,
/// and the indeterminate band from 500 to 1000) is discarded.
pub open spec fn press_event(held_ms: int) -> Option<Input> {
    if 75 < held_ms && held_ms < 500 {
        Some(Input::Pressed)
    } else if held_ms > 1000 {
        Some(Input::Held)
    } else {
        None
    }
}

/// One button sample: only a low-to-high transition (a release)
/// emits an event, classified by how long the line sat low.
pub open spec fn button_event(
    last_sw: Level,
    sw: Level,
    pressed_at_ms: int,
    now_ms: int,
) -> Option<Input> {
    if last_sw == Level::Low && sw == Level::High {
        press_event(now_ms - pressed_at_ms)
    } else {
        None
    }
}

/// The debouncing state machine for one rotary encoder with a push
/// button. It is a pure transition function over sampled line levels
/// and timestamps; reading the physical lines is the caller's side
/// of the bargain.
pub struct InputHandler {
    /// Clock-line level seen at the previous encoder sample.
    pub last_clk_state: Level,
    /// Button-line level seen at the previous button sample.
    pub last_sw_state: Level,
    /// Timestamp of the last high-to-low button transition.
    pub pressed_at_ms: u64,
}

impl InputHandler {
    /// A fresh debouncer; both lines idle high (pull-up resistors).
    pub fn new() -> (r: InputHandler)
        ensures
            r.last_clk_state == Level::High,
            r.last_sw_state == Level::High,
            r.pressed_at_ms == 0,
    {
        InputHandler { last_clk_state: Level::High, last_sw_state: Level::High, pressed_at_ms: 0 }
    }

    /// Feed one sample of the encoder's clock and data lines.
    /// `clk` is `None` when the clock line could not be read this
    /// tick; that counts as "no transition" and leaves the state
    /// unchanged, per the policy that read errors are silent.
    pub fn sample_encoder(&mut self, clk: Option<Level>, dat: Level) -> (r: Option<Input>)
        ensures
            r == (match clk {
                Some(c) => encoder_event(old(self).last_clk_state, c, dat),
                None => None::<Input>,
            }),
            final(self).last_clk_state == (match clk {
                Some(c) => c,
                None => old(self).last_clk_state,
            }),
            final(self).last_sw_state == old(self).last_sw_state,
            final(self).pressed_at_ms == old(self).pressed_at_ms,
    {
        match clk {
            Some(c) => {
                let event: Option<Input> = if c != self.last_clk_state {
                    if dat != c {
                        Some(Input::Next)
                    } else {
                        Some(Input::Prev)
                    }
                } else {
                    None
                };
                self.last_clk_state = c;
                event
            },
            None => None,
        }
    }

    /// Feed one sample of the button line, with the current reading
    /// of a monotonic millisecond clock. A high-to-low transition
    /// records the press time; the following low-to-high transition
    /// classifies the press by its duration.
    pub fn sample_button(&mut self, sw: Level, now_ms: u64) -> (r: Option<Input>)
        requires
            old(self).pressed_at_ms <= now_ms,
        ensures
            r == button_event(
                old(self).last_sw_state,
                sw,
                old(self).pressed_at_ms as int,
                now_ms as int,
            ),
            final(self).last_sw_state == sw,
            final(self).pressed_at_ms == (if old(self).last_sw_state == Level::High && sw
                == Level::Low {
                now_ms
            } else {
                old(self).pressed_at_ms
            }),
            final(self).last_clk_state == old(self).last_clk_state,
    {
        let mut event: Option<Input> = None;
        if self.last_sw_state == Level::High && sw == Level::Low {
            self.pressed_at_ms = now_ms;
        } else if self.last_sw_state == Level::Low && sw == Level::High {
            let held_ms = now_ms - self.pressed_at_ms;
            if 75 < held_ms && held_ms < 500 {
                event = Some(Input::Pressed);
            } else if held_ms > 1000 {
                event = Some(Input::Held);
            }
        }
        self.last_sw_state = sw;
        event
    }
}

} // verus!
