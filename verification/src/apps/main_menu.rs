use vstd::prelude::*;

use rand::RngExt;
use std::collections::VecDeque;
use std::time::Instant;

use super::app::App;
use super::launcher::{rot1, rot_back, Input};
use crate::modules::module::{clock_text, date_text};
use crate::modules::date::Date;
use crate::modules::image::Image;
use crate::modules::module::Module;
use crate::modules::time::Time;
use crate::pixel_display::pixel_display::{DrawOp, PixelDisplay};

verus! {

#[verifier::external_type_specification]
#[verifier::external_body]
pub struct ExInstant(Instant);

/// Relies on std::time::Instant::now: a reading of the monotonic
/// clock.
#[verifier::external_body]
fn instant_now() -> (r: Instant) {
    Instant::now()
}

/// Relies on std::time::Instant::elapsed: whole seconds passed
/// since the reading was taken.
#[verifier::external_body]
fn elapsed_secs(t: &Instant) -> (r: u64) {
    t.elapsed().as_secs()
}

/// Relies on rand::rng and rand::Rng::random_range: an index drawn
/// uniformly from the non-empty range `lo..hi`.
#[verifier::external_body]
fn random_index(lo: usize, hi: usize) -> (r: usize)
    requires
        lo < hi,
    ensures
        lo <= r < hi,
{
    rand::rng().random_range(lo..hi)
}

/// A background picture with the anchor points at which the clock
/// and the calendar are drawn over it.
pub struct Background<'a> {
    pub image: Image<'a>,
    pub time_anchor: (i32, i32),
    pub date_anchor: (i32, i32),
}

/// The idle-screen app: a rotation of background pictures with a
/// clock and a calendar drawn on top. The head of the rotation is
/// the background on show; activation picks a random one.
pub struct MainMenu<'a> {
    pub time: Time,
    pub date: Date,
    pub timer: Instant,
    pub backgrounds: VecDeque<Background<'a>>,
}

impl<'a> MainMenu<'a> {
    /// Builds the menu over its set of backgrounds; the set must
    /// offer a choice, so fewer than two are not accepted.
    pub fn new(backgrounds: VecDeque<Background<'a>>) -> (r: MainMenu<'a>)
        requires
            backgrounds@.len() >= 2,
        ensures
            r.wf(),
            r.backgrounds == backgrounds,
    {
        MainMenu { time: Time {  }, date: Date {  }, timer: instant_now(), backgrounds }
    }

    /// Swaps the background on show with a randomly chosen other
    /// one; the rest of the rotation keeps its order.
    fn randomize_background(&mut self)
        requires
            old(self).wf(),
        ensures
            final(self).wf(),
            final(self).backgrounds@.len() == old(self).backgrounds@.len(),
            exists|k: int|
                1 <= k < old(self).backgrounds@.len() && final(self).backgrounds@ == old(
                    self,
                ).backgrounds@.update(0, old(self).backgrounds@[k]).update(
                    k,
                    old(self).backgrounds@[0],
                ),
            final(self).time == old(self).time,
            final(self).date == old(self).date,
            final(self).timer == old(self).timer,
    {
        let ghost s = self.backgrounds@;
        let num = random_index(1, self.backgrounds.len());
        let x = self.backgrounds.remove(num).unwrap();
        let y = self.backgrounds.remove(0).unwrap();
        self.backgrounds.insert(0, x);
        self.backgrounds.insert(num, y);
        proof {
            assert(self.backgrounds@ =~= s.update(0, s[num as int]).update(num as int, s[0]));
            assert(1 <= num < s.len() && self.backgrounds@ == s.update(0, s[num as int]).update(
                num as int,
                s[0],
            ));
        }
    }
}

impl<'a> App for MainMenu<'a> {
    /// The rotation always offers at least two backgrounds.
    open spec fn wf(&self) -> bool {
        self.backgrounds@.len() >= 2
    }

    fn draw(&mut self, display: &mut PixelDisplay)
        ensures
            final(self).backgrounds@.len() == old(self).backgrounds@.len(),
            // Either the rotation timer had not run out and the menu
            // is untouched, or the shown background was swapped with
            // a random other one, as activation does.
            (final(self).backgrounds@ == old(self).backgrounds@ && final(self).timer == old(
                self,
            ).timer) || (exists|k: int|
                1 <= k < old(self).backgrounds@.len() && final(self).backgrounds@ == old(
                    self,
                ).backgrounds@.update(0, old(self).backgrounds@[k]).update(
                    k,
                    old(self).backgrounds@[0],
                )),
            // What the frame gains: the shown background at the
            // origin, then the clock and the calendar at its anchors.
            exists|h: int, m: int, d: int, mo: int|
                0 <= h < 24 && 0 <= m < 60 && 1 <= d <= 31 && 1 <= mo <= 12
                    && final(display).ops@ == old(display).ops@ + seq![
                    (DrawOp::Bitmap(0, 0)),
                    (DrawOp::Text(
                        clock_text(h, m),
                        old(self).backgrounds@[0].time_anchor.0,
                        old(self).backgrounds@[0].time_anchor.1,
                    )),
                    (DrawOp::Text(
                        date_text(d, mo),
                        old(self).backgrounds@[0].date_anchor.0,
                        old(self).backgrounds@[0].date_anchor.1,
                    )),
                ],
    {
        let tx = self.backgrounds[0].time_anchor.0;
        let ty = self.backgrounds[0].time_anchor.1;
        let dx = self.backgrounds[0].date_anchor.0;
        let dy = self.backgrounds[0].date_anchor.1;
        self.backgrounds[0].image.draw(0, 0, display);
        let ghost ops_bmp = display.ops@;
        self.time.draw(tx, ty, display);
        let ghost ops_time = display.ops@;
        self.date.draw(dx, dy, display);
        proof {
            let (h, m): (int, int) = choose|h: int, m: int|
                0 <= h < 24 && 0 <= m < 60 && ops_time == ops_bmp.push(
                    (DrawOp::Text(clock_text(h, m), tx, ty)),
                );
            let (d, mo): (int, int) = choose|d: int, mo: int|
                1 <= d <= 31 && 1 <= mo <= 12 && display.ops@ == ops_time.push(
                    (DrawOp::Text(date_text(d, mo), dx, dy)),
                );
            assert(display.ops@ =~= old(display).ops@ + seq![
                (DrawOp::Bitmap(0, 0)),
                (DrawOp::Text(clock_text(h, m), tx, ty)),
                (DrawOp::Text(date_text(d, mo), dx, dy)),
            ]);
        }
        if elapsed_secs(&self.timer) > 2700 {
            self.randomize_background();
            self.timer = instant_now();
        }
    }

    fn enable(&mut self)
        ensures
            final(self).backgrounds@.len() == old(self).backgrounds@.len(),
            final(self).timer == old(self).timer,
            // Activation randomizes the background: the shown one is
            // swapped with one of the others, the rest keep their
            // order.
            exists|k: int|
                1 <= k < old(self).backgrounds@.len() && final(self).backgrounds@ == old(
                    self,
                ).backgrounds@.update(0, old(self).backgrounds@[k]).update(
                    k,
                    old(self).backgrounds@[0],
                ),
    {
        self.randomize_background();
    }

    fn disable(&mut self)
        ensures
            *final(self) == *old(self),
    {
    }

    fn input(&mut self, input: Input)
        ensures
            final(self).timer == old(self).timer,
            (input == Input::Next ==> final(self).backgrounds@ == rot1(old(self).backgrounds@)),
            (input == Input::Prev ==> final(self).backgrounds@ == rot_back(
                old(self).backgrounds@,
            )),
            ((input == Input::Pressed || input == Input::Held) ==> *final(self) == *old(self)),
    {
        match input {
            Input::Next => {
                let old_head = self.backgrounds.pop_front().unwrap();
                self.backgrounds.push_back(old_head);
                proof {
                    assert(self.backgrounds@ =~= rot1(old(self).backgrounds@));
                }
            },
            Input::Prev => {
                let old_tail = self.backgrounds.pop_back().unwrap();
                self.backgrounds.push_front(old_tail);
                proof {
                    assert(self.backgrounds@ =~= rot_back(old(self).backgrounds@));
                }
            },
            Input::Pressed => {},
            Input::Held => {},
        }
    }
}

} // verus!
