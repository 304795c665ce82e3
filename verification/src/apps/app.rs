use vstd::prelude::*;

use super::launcher::Input;
use super::main_menu::MainMenu;
use super::spotify::Spotify;
use crate::pixel_display::pixel_display::{same_shape, PixelDisplay};

verus! {

/// The capability every full-screen app offers: drawing into the
/// display surface, lifecycle hooks fired on activation and
/// deactivation, and reaction to one discrete input event.
pub trait App: Sized {
    /// The app's own well-formedness; every operation preserves it.
    spec fn wf(&self) -> bool;

    /// Renders the app's current visual state. Never blocks on the
    /// network: any slow data must already be resident.
    fn draw(&mut self, display: &mut PixelDisplay)
        requires
            old(self).wf(),
        ensures
            final(self).wf(),
            same_shape(*old(display), *final(display)),
    ;

    /// Fired exactly once when the app becomes active.
    fn enable(&mut self)
        requires
            old(self).wf(),
        ensures
            final(self).wf(),
    ;

    /// Fired exactly once when the app stops being active.
    fn disable(&mut self)
        requires
            old(self).wf(),
        ensures
            final(self).wf(),
    ;

    /// Reacts to one discrete input event; events an app does not
    /// care about are ignored.
    fn input(&mut self, input: Input)
        requires
            old(self).wf(),
        ensures
            final(self).wf(),
    ;
}

/// Which kind of app a slot holds; what a caller can observe of
/// the rotation's order.
#[derive(Clone, Copy, Debug, PartialEq, Eq, Structural)]
pub enum AppKind {
    MainMenu,
    Spotify,
}

/// The payload of one slot in the launcher's rotation.
pub enum AppBody<'a> {
    MainMenu(MainMenu<'a>),
    Spotify(Spotify),
}

/// One slot of the launcher's rotation: an app together with the
/// ghost record of its lifecycle — its identity tag, whether it is
/// enabled, and how often each lifecycle hook has fired.
pub struct AppSlot<'a> {
    pub app: AppBody<'a>,
    pub tag: Ghost<int>,
    pub enabled: Ghost<bool>,
    pub enable_count: Ghost<nat>,
    pub disable_count: Ghost<nat>,
}

impl<'a> AppSlot<'a> {
    pub open spec fn wf(&self) -> bool {
        match self.app {
            AppBody::MainMenu(m) => m.wf(),
            AppBody::Spotify(s) => s.wf(),
        }
    }

    pub open spec fn kind_spec(&self) -> AppKind {
        match self.app {
            AppBody::MainMenu(_) => AppKind::MainMenu,
            AppBody::Spotify(_) => AppKind::Spotify,
        }
    }

    /// Which kind of app this slot holds.
    pub fn kind(&self) -> (r: AppKind)
        ensures
            r == self.kind_spec(),
    {
        match &self.app {
            AppBody::MainMenu(_) => AppKind::MainMenu,
            AppBody::Spotify(_) => AppKind::Spotify,
        }
    }

    /// Wraps the idle-screen app into a slot that has seen no
    /// lifecycle call yet.
    pub fn new_main_menu(m: MainMenu<'a>) -> (r: AppSlot<'a>)
        requires
            m.wf(),
        ensures
            r.wf(),
            !r.enabled@,
            r.enable_count@ == 0,
            r.disable_count@ == 0,
            r.kind_spec() == AppKind::MainMenu,
    {
        AppSlot {
            app: AppBody::MainMenu(m),
            tag: Ghost(0),
            enabled: Ghost(false),
            enable_count: Ghost(0),
            disable_count: Ghost(0),
        }
    }

    /// Wraps the now-playing widget into a slot that has seen no
    /// lifecycle call yet.
    pub fn new_spotify(s: Spotify) -> (r: AppSlot<'a>)
        ensures
            r.wf(),
            !r.enabled@,
            r.enable_count@ == 0,
            r.disable_count@ == 0,
            r.kind_spec() == AppKind::Spotify,
    {
        AppSlot {
            app: AppBody::Spotify(s),
            tag: Ghost(0),
            enabled: Ghost(false),
            enable_count: Ghost(0),
            disable_count: Ghost(0),
        }
    }

    /// Fires the app's activation hook; only a disabled app can be
    /// enabled, and each call is counted.
    pub fn enable(&mut self)
        requires
            old(self).wf(),
            !old(self).enabled@,
        ensures
            final(self).wf(),
            final(self).enabled@,
            final(self).enable_count@ == old(self).enable_count@ + 1,
            final(self).disable_count@ == old(self).disable_count@,
            final(self).tag == old(self).tag,
            final(self).kind_spec() == old(self).kind_spec(),
    {
        self.enabled = Ghost(true);
        self.enable_count = Ghost(self.enable_count@ + 1);
        match &mut self.app {
            AppBody::MainMenu(m) => m.enable(),
            AppBody::Spotify(s) => s.enable(),
        }
    }

    /// Fires the app's deactivation hook; only an enabled app can
    /// be disabled, and each call is counted.
    pub fn disable(&mut self)
        requires
            old(self).wf(),
            old(self).enabled@,
        ensures
            final(self).wf(),
            !final(self).enabled@,
            final(self).enable_count@ == old(self).enable_count@,
            final(self).disable_count@ == old(self).disable_count@ + 1,
            final(self).tag == old(self).tag,
            final(self).kind_spec() == old(self).kind_spec(),
    {
        self.enabled = Ghost(false);
        self.disable_count = Ghost(self.disable_count@ + 1);
        match &mut self.app {
            AppBody::MainMenu(m) => m.disable(),
            AppBody::Spotify(s) => s.disable(),
        }
    }

    /// Forwards one input event to the app; no lifecycle change.
    pub fn input(&mut self, input: Input)
        requires
            old(self).wf(),
        ensures
            final(self).wf(),
            final(self).enabled == old(self).enabled,
            final(self).enable_count == old(self).enable_count,
            final(self).disable_count == old(self).disable_count,
            final(self).tag == old(self).tag,
            final(self).kind_spec() == old(self).kind_spec(),
    {
        match &mut self.app {
            AppBody::MainMenu(m) => m.input(input),
            AppBody::Spotify(s) => s.input(input),
        }
    }

    /// Lets the app render itself; no lifecycle change, the display
    /// keeps its shape, and the frame's log only grows — by at
    /// least one drawn operation.
    pub fn draw(&mut self, display: &mut PixelDisplay)
        requires
            old(self).wf(),
        ensures
            final(self).wf(),
            same_shape(*old(display), *final(display)),
            old(display).ops@.is_prefix_of(final(display).ops@),
            final(display).ops@.len() > old(display).ops@.len(),
            final(self).enabled == old(self).enabled,
            final(self).enable_count == old(self).enable_count,
            final(self).disable_count == old(self).disable_count,
            final(self).tag == old(self).tag,
            final(self).kind_spec() == old(self).kind_spec(),
    {
        let ghost ops0 = display.ops@;
        match &mut self.app {
            AppBody::MainMenu(m) => m.draw(display),
            AppBody::Spotify(s) => s.draw(display),
        }
        proof {
            assert(ops0.is_prefix_of(display.ops@)) by {
                assert(display.ops@.subrange(0, ops0.len() as int) =~= ops0);
            }
        }
    }
}

} // verus!
