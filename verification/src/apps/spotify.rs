use vstd::prelude::*;

use std::sync::mpsc::Sender;
use std::sync::Arc;
use std::sync::RwLock;

use super::app::App;
use super::launcher::Input;
use crate::modules::image::Image;
use crate::modules::module::Module;
use crate::pixel_display::pixel_display::{same_shape, DrawOp, PixelDisplay, Rgb};

verus! {

#[verifier::external_type_specification]
#[verifier::external_body]
#[verifier::reject_recursive_types(T)]
pub struct ExRwLock<T: ?Sized>(RwLock<T>);

#[verifier::external_type_specification]
#[verifier::external_body]
#[verifier::reject_recursive_types(T)]
pub struct ExSender<T>(Sender<T>);

/// A display-ready summary of the current playback state. Published
/// as a whole by the background sync worker and read as a whole by
/// the render path, so a reader never sees a mix of two snapshots.
#[derive(Clone)]
pub struct SpotifyData {
    /// Name of the track now playing, `None` when nothing plays.
    pub current_song: Option<String>,
    /// Total length of the track, in milliseconds.
    pub duration_ms: Option<u64>,
    /// Elapsed progress into the track, in milliseconds.
    pub progress_ms: Option<u64>,
    /// Identifier of the playback device, when one was reported.
    pub device_id: Option<String>,
    /// Cover art, already decoded and re-encoded into the display's
    /// native bitmap format.
    pub cover_raw: Option<Vec<u8>>,
    /// Whether playback is paused.
    pub paused: bool,
}

/// Whether a rotation event should be synthesized after a poll:
/// exactly when the presence of a track flips, and the widget's
/// visibility disagrees with the new state (it is hidden while a
/// track appears, or shown while the last track vanishes).
pub open spec fn spec_should_signal(had_track: bool, has_track: bool, rendering: bool) -> bool {
    (!had_track && has_track && !rendering) || (had_track && !has_track && rendering)
}

/// How a freshly polled snapshot replaces the published one: every
/// field is taken from the new poll except the cover art, which is
/// retained from the old snapshot when the poll brought none, and
/// the device identifier, which the worker leaves as it was.
pub open spec fn spec_merge(published: SpotifyData, new: SpotifyData) -> SpotifyData {
    SpotifyData {
        current_song: new.current_song,
        duration_ms: new.duration_ms,
        progress_ms: new.progress_ms,
        device_id: published.device_id,
        cover_raw: if new.cover_raw is Some {
            new.cover_raw
        } else {
            published.cover_raw
        },
        paused: new.paused,
    }
}

/// Whether the cover art must be fetched again: only when there was
/// no previous track, or the track's name changed since the last
/// poll. An unchanged name keeps the bytes already decoded.
pub open spec fn spec_needs_cover_fetch(prev: Option<Seq<char>>, new_name: Seq<char>) -> bool {
    match prev {
        Some(p) => p != new_name,
        None => true,
    }
}

/// The explicit "no data yet" state: no track, no durations, no
/// device, no cover, playback counted as paused.
pub open spec fn spec_empty() -> SpotifyData {
    SpotifyData {
        current_song: None,
        duration_ms: None,
        progress_ms: None,
        device_id: None,
        cover_raw: None,
        paused: true,
    }
}

impl SpotifyData {
    /// The explicit "no data yet" state: what the shared cell holds
    /// before the first successful poll.
    pub fn empty() -> (r: SpotifyData)
        ensures
            r == spec_empty(),
    {
        SpotifyData {
            current_song: None,
            duration_ms: None,
            progress_ms: None,
            device_id: None,
            cover_raw: None,
            paused: true,
        }
    }
}

/// One worker tick's decision, taken after a successful poll: the
/// snapshot to publish, and whether to synthesize a rotation event.
/// A failed poll never reaches this point; the worker then leaves
/// the published snapshot untouched.
pub fn apply_update(published: SpotifyData, new: SpotifyData, rendering: bool) -> (r: (
    SpotifyData,
    bool,
))
    ensures
        r.0 == spec_merge(published, new),
        r.1 == spec_should_signal(
            published.current_song is Some,
            new.current_song is Some,
            rendering,
        ),
{
    let signal = (published.current_song.is_none() && new.current_song.is_some() && !rendering)
        || (published.current_song.is_some() && new.current_song.is_none() && rendering);
    let merged = SpotifyData {
        current_song: new.current_song,
        duration_ms: new.duration_ms,
        progress_ms: new.progress_ms,
        device_id: published.device_id,
        cover_raw: if new.cover_raw.is_some() {
            new.cover_raw
        } else {
            published.cover_raw
        },
        paused: new.paused,
    };
    (merged, signal)
}

/// Whether a poll that reported the track named `new_name` obliges
/// the worker to download the cover art again, given the track the
/// previous poll reported.
pub fn needs_cover_fetch(prev: &Option<String>, new_name: &String) -> (r: bool)
    ensures
        r == spec_needs_cover_fetch(
            match prev {
                Some(p) => Some(p@),
                None => None::<Seq<char>>,
            },
            new_name@,
        ),
{
    match prev {
        Some(p) => !(*p == *new_name),
        None => true,
    }
}

/// Relies on std::sync::RwLock::new and alloc::sync::Arc::new: a
/// fresh shared cell holding the given snapshot.
#[verifier::external_body]
fn new_data_cell(initial: SpotifyData) -> (r: Arc<RwLock<SpotifyData>>) {
    Arc::new(RwLock::new(initial))
}

/// Relies on std::sync::RwLock::new and alloc::sync::Arc::new: a
/// fresh shared flag.
#[verifier::external_body]
fn new_flag_cell(initial: bool) -> (r: Arc<RwLock<bool>>) {
    Arc::new(RwLock::new(initial))
}

/// Relies on std::sync::RwLock::try_read: returns at once, without
/// waiting; a copy of the cell's snapshot when the lock was free,
/// nothing when a writer held it.
#[verifier::external_body]
fn cell_try_read(c: &Arc<RwLock<SpotifyData>>) -> (r: Option<SpotifyData>) {
    match c.try_read() {
        Ok(guard) => Some(guard.clone()),
        Err(_) => None,
    }
}

/// Relies on std::sync::RwLock::write: stores the value in the
/// shared flag; a poisoned lock leaves it unchanged.
#[verifier::external_body]
fn flag_set(c: &Arc<RwLock<bool>>, value: bool) {
    if let Ok(mut guard) = c.write() {
        *guard = value;
    }
}

/// Relies on std::sync::mpsc::Sender::send: forwards the event to
/// the worker, fire-and-forget; a dropped send is ignored.
#[verifier::external_body]
fn send_input(tx: &Sender<Input>, input: Input) {
    let _ = tx.send(input);
}

/// Relies on alloc::sync::Arc::clone: another handle to the same
/// cell.
#[verifier::external_body]
fn data_cell_clone(c: &Arc<RwLock<SpotifyData>>) -> (r: Arc<RwLock<SpotifyData>>)
    ensures
        r == *c,
{
    Arc::clone(c)
}

/// Relies on alloc::sync::Arc::clone: another handle to the same
/// flag.
#[verifier::external_body]
fn flag_cell_clone(c: &Arc<RwLock<bool>>) -> (r: Arc<RwLock<bool>>)
    ensures
        r == *c,
{
    Arc::clone(c)
}

/// The column, between 36 and 59, at which the progress bar ends:
/// 36 plus progress/duration of the 23 available columns, rounded
/// half-up, pinned at the left edge for an unknown duration and at
/// the right edge should progress exceed duration.
pub open spec fn spec_progress_column(duration_s: int, progress_s: int) -> int {
    if duration_s <= 0 {
        36
    } else {
        let q = (23 * progress_s + duration_s / 2) / duration_s;
        if q > 23 {
            59
        } else {
            36 + q
        }
    }
}

/// A snapshot's track duration in whole seconds; unknown counts
/// as zero.
pub open spec fn duration_secs(s: SpotifyData) -> int {
    match s.duration_ms {
        Some(d) => d as int / 1000,
        None => 0,
    }
}

/// A snapshot's elapsed progress in whole seconds; unknown counts
/// as zero.
pub open spec fn progress_secs(s: SpotifyData) -> int {
    match s.progress_ms {
        Some(p) => p as int / 1000,
        None => 0,
    }
}

/// The two operations the progress bar draws: the full extent in
/// dark gray, the elapsed share over it in white.
pub open spec fn progress_ops(s: SpotifyData) -> Seq<DrawOp> {
    seq![
        DrawOp::Line(36, 17, 59, 17, (Rgb { r: 169, g: 169, b: 169 }), 1),
        DrawOp::Line(
            36,
            17,
            spec_progress_column(duration_secs(s), progress_secs(s)) as i32,
            17,
            (Rgb { r: 255, g: 255, b: 255 }),
            1,
        ),
    ]
}

/// The playback indicator's operations: two lime bars while
/// playback runs, a filled lime triangle while it is paused.
pub open spec fn indicator_ops(s: SpotifyData) -> Seq<DrawOp> {
    if !s.paused {
        seq![
            DrawOp::Line(45, 22, 45, 28, (Rgb { r: 50, g: 205, b: 50 }), 2),
            DrawOp::Line(48, 22, 48, 28, (Rgb { r: 50, g: 205, b: 50 }), 2),
        ]
    } else {
        seq![DrawOp::Triangle(44, 22, 44, 28, 51, 25, (Rgb { r: 50, g: 205, b: 50 }))]
    }
}

/// The cover art's operation: one blit at the origin, exactly when
/// cover bytes are present and parse as a bitmap.
pub open spec fn cover_ops(s: SpotifyData) -> Seq<DrawOp> {
    match s.cover_raw {
        Some(b) => if crate::modules::image::bmp_parse_ok(b@) {
            seq![DrawOp::Bitmap(0, 0)]
        } else {
            Seq::empty()
        },
        None => Seq::empty(),
    }
}

/// Everything one snapshot renders: the track's name, progress bar
/// and cover when something plays, the explicit placeholder text
/// when nothing does, and the playback indicator always.
pub open spec fn snapshot_ops(s: SpotifyData) -> Seq<DrawOp> {
    (match s.current_song {
        Some(t) => seq![DrawOp::Text(t@, 33, 10)] + progress_ops(s) + cover_ops(s),
        None => seq![DrawOp::Text("Nothing playing"@, 2, 16)],
    }) + indicator_ops(s)
}

/// Computes where the progress bar ends for a track of
/// `duration_s` seconds with `progress_s` seconds elapsed.
pub fn progress_column(duration_s: u64, progress_s: u64) -> (r: i32)
    ensures
        r == spec_progress_column(duration_s as int, progress_s as int),
        36 <= r <= 59,
{
    if duration_s == 0 {
        36
    } else {
        let num: u128 = 23u128 * (progress_s as u128) + (duration_s as u128) / 2;
        let q: u128 = num / (duration_s as u128);
        if q > 23 {
            59
        } else {
            36 + (q as i32)
        }
    }
}

impl SpotifyData {
    /// Draws the track's progress bar: the full extent in dark
    /// gray, the elapsed share over it in white. A missing duration
    /// or progress counts as zero.
    fn draw_progress_bar(&self, display: &mut PixelDisplay)
        ensures
            same_shape(*old(display), *final(display)),
            final(display).ops@ == old(display).ops@ + progress_ops(*self),
    {
        display.draw_line(36, 17, 59, 17, Rgb { r: 169, g: 169, b: 169 }, 1);
        let duration_s = match self.duration_ms {
            Some(d) => d / 1000,
            None => 0,
        };
        let progress_s = match self.progress_ms {
            Some(p) => p / 1000,
            None => 0,
        };
        let col = progress_column(duration_s, progress_s);
        display.draw_line(36, 17, col, 17, Rgb { r: 255, g: 255, b: 255 }, 1);
        proof {
            assert(display.ops@ =~= old(display).ops@ + progress_ops(*self));
        }
    }

    /// Draws the playback indicator in lime green: two bars while
    /// playback runs, a filled triangle while it is paused.
    fn draw_playing_indicator(&self, display: &mut PixelDisplay)
        ensures
            same_shape(*old(display), *final(display)),
            final(display).ops@ == old(display).ops@ + indicator_ops(*self),
    {
        let lime = Rgb { r: 50, g: 205, b: 50 };
        if !self.paused {
            display.draw_line(45, 22, 45, 28, lime, 2);
            display.draw_line(48, 22, 48, 28, lime, 2);
        } else {
            display.draw_triangle(44, 22, 44, 28, 51, 25, lime);
        }
        proof {
            assert(display.ops@ =~= old(display).ops@ + indicator_ops(*self));
        }
    }

    /// Renders the snapshot: the track's name, progress bar and
    /// cover art when something plays, an explicit placeholder when
    /// nothing does, and the playback indicator always. Cover bytes
    /// that do not parse as a bitmap are skipped for this frame.
    pub fn draw(&self, display: &mut PixelDisplay)
        ensures
            same_shape(*old(display), *final(display)),
            final(display).ops@ == old(display).ops@ + snapshot_ops(*self),
    {
        match &self.current_song {
            Some(t) => {
                display.draw_text(t.as_str(), 33, 10);
                self.draw_progress_bar(display);
                match &self.cover_raw {
                    Some(bytes) => {
                        match Image::new(bytes.as_slice()) {
                            Some(img) => img.draw(0, 0, display),
                            None => {},
                        }
                    },
                    None => {},
                }
            },
            None => display.draw_text("Nothing playing", 2, 16),
        }
        self.draw_playing_indicator(display);
        proof {
            assert(display.ops@ =~= old(display).ops@ + snapshot_ops(*self));
        }
    }
}

/// The now-playing widget: renders the latest published snapshot
/// without ever waiting on the worker, forwards remote-control
/// events to it, and tells it through a shared flag whether the
/// widget is on show.
pub struct Spotify {
    /// Commands for the worker (skip, previous, toggle).
    pub sender: Sender<Input>,
    /// The shared cell the worker publishes snapshots into.
    pub data: Arc<RwLock<SpotifyData>>,
    /// The render thread's own copy of the last snapshot it read,
    /// the fallback when the cell is contended.
    pub prev_data: Option<SpotifyData>,
    /// Whether the widget is on show; gates the worker's
    /// auto-activation signal.
    pub is_rendering: Arc<RwLock<bool>>,
    /// Ghost mirror of what the lifecycle hooks last set the shared
    /// visibility flag to; the flag's runtime contents live behind
    /// the opaque lock.
    pub visible: Ghost<bool>,
}

/// How the render path's fallback cache evolves from one
/// non-blocking read of the shared cell: a successful read replaces
/// the cache with the snapshot just read; a contended read leaves
/// the cache exactly as it was.
pub fn update_cache(read: Option<SpotifyData>, prev: &mut Option<SpotifyData>)
    ensures
        match read {
            Some(d) => *final(prev) == Some(d),
            None => *final(prev) == *old(prev),
        },
{
    match read {
        Some(d) => {
            *prev = Some(d);
        },
        None => {},
    }
}

impl Spotify {
    /// Builds the widget around a fresh cell that holds the
    /// explicit "no data yet" snapshot, hidden, with the given
    /// command channel to the worker.
    pub fn new(sender: Sender<Input>) -> (r: Spotify)
        ensures
            r.prev_data is None,
            !r.visible@,
    {
        let data = new_data_cell(SpotifyData::empty());
        let is_rendering = new_flag_cell(false);
        Spotify { sender, data, prev_data: None, is_rendering, visible: Ghost(false) }
    }

    /// A handle on the snapshot cell, for the worker to publish
    /// into.
    pub fn data_handle(&self) -> (r: Arc<RwLock<SpotifyData>>)
        ensures
            r == self.data,
    {
        data_cell_clone(&self.data)
    }

    /// A handle on the visibility flag, for the worker to read.
    pub fn rendering_handle(&self) -> (r: Arc<RwLock<bool>>)
        ensures
            r == self.is_rendering,
    {
        flag_cell_clone(&self.is_rendering)
    }
}

impl App for Spotify {
    open spec fn wf(&self) -> bool {
        true
    }

    /// Renders without blocking: the cache is first brought up to
    /// date from one non-blocking read of the shared cell (see
    /// `update_cache`), then what the cache now holds is rendered —
    /// the explicit "no data yet" snapshot while it holds nothing.
    fn draw(&mut self, display: &mut PixelDisplay)
        ensures
            old(self).prev_data is Some ==> final(self).prev_data is Some,
            final(display).ops@ == old(display).ops@ + snapshot_ops(
                match final(self).prev_data {
                    Some(p) => p,
                    None => spec_empty(),
                },
            ),
            final(self).sender == old(self).sender,
            final(self).data == old(self).data,
            final(self).is_rendering == old(self).is_rendering,
            final(self).visible == old(self).visible,
    {
        let read = cell_try_read(&self.data);
        update_cache(read, &mut self.prev_data);
        match &self.prev_data {
            Some(p) => p.draw(display),
            None => {
                let placeholder = SpotifyData::empty();
                placeholder.draw(display);
            },
        }
    }

    /// Forwards the event to the worker's command channel.
    fn input(&mut self, input: Input)
        ensures
            *final(self) == *old(self),
    {
        send_input(&self.sender, input);
    }

    /// Marks the widget as on show.
    fn enable(&mut self)
        ensures
            final(self).visible@ == true,
            final(self).sender == old(self).sender,
            final(self).data == old(self).data,
            final(self).prev_data == old(self).prev_data,
            final(self).is_rendering == old(self).is_rendering,
    {
        self.visible = Ghost(true);
        flag_set(&self.is_rendering, true);
    }

    /// Marks the widget as hidden.
    fn disable(&mut self)
        ensures
            final(self).visible@ == false,
            final(self).sender == old(self).sender,
            final(self).data == old(self).data,
            final(self).prev_data == old(self).prev_data,
            final(self).is_rendering == old(self).is_rendering,
    {
        self.visible = Ghost(false);
        flag_set(&self.is_rendering, false);
    }
}

/// The remote-control command a button press maps to, decided by
/// the playback state the worker last saw.
#[derive(Clone, Copy, Debug, PartialEq, Eq, Structural)]
pub enum PlaybackCommand {
    Resume,
    Pause,
}

/// Which playback command toggles the current state: paused
/// playback is resumed, running playback is paused.
pub fn toggle_command(paused: bool) -> (r: PlaybackCommand)
    ensures
        r == (if paused {
            PlaybackCommand::Resume
        } else {
            PlaybackCommand::Pause
        }),
{
    if paused {
        PlaybackCommand::Resume
    } else {
        PlaybackCommand::Pause
    }
}

} // verus!
