//! The decisions of the Android event loop.
//!
//! The loop polls `android-activity` for lifecycle events, applies deferred
//! pause/resume transitions once polling has returned (so that no window
//! lock is taken while the Java thread waits on the native one), runs the
//! deferred initialisation callbacks once a window exists, and drives
//! rendering only while initialised and active.  The platform layer does
//! the work; what to do, and when, is decided here.

use vstd::prelude::*;
use crate::chrome::SystemChromeState;

verus! {

/// The light / dark appearance of a window or the whole application.
#[derive(Copy, Clone, Debug, PartialEq, Eq)]
pub enum WindowAppearance {
    Light,
    Dark,
    /// The system appearance could not be determined.
    Unknown,
}

/// `Configuration.UI_MODE_NIGHT_MASK`.
pub const UI_MODE_NIGHT_MASK: i32 = 0x30;
/// `Configuration.UI_MODE_NIGHT_YES`.
pub const UI_MODE_NIGHT_YES: i32 = 0x20;

/// Whether a `Configuration.uiMode` value asks for night (dark) mode.
pub fn is_night_mode(ui_mode: i32) -> (r: bool)
    ensures
        r == (ui_mode & UI_MODE_NIGHT_MASK == UI_MODE_NIGHT_YES),
{
    (ui_mode & UI_MODE_NIGHT_MASK) == UI_MODE_NIGHT_YES
}

/// The appearance of a window in night mode or not.
pub open spec fn spec_appearance(is_dark: bool) -> WindowAppearance {
    if is_dark { WindowAppearance::Dark } else { WindowAppearance::Light }
}

/// The appearance that a `Configuration.uiMode` value asks for: dark in
/// night mode, light otherwise.
pub fn appearance_for_ui_mode(ui_mode: i32) -> (a: WindowAppearance)
    ensures
        a == spec_appearance(ui_mode & UI_MODE_NIGHT_MASK == UI_MODE_NIGHT_YES),
{
    if is_night_mode(ui_mode) {
        WindowAppearance::Dark
    } else {
        WindowAppearance::Light
    }
}

/// A main (lifecycle) event of the activity.
#[derive(Copy, Clone, Debug, PartialEq, Eq)]
pub enum MainEventKind {
    /// A native window (surface) became available.
    InitWindow,
    /// The native window is about to go away.
    TerminateWindow,
    WindowResized,
    GainedFocus,
    LostFocus,
    Resume,
    Pause,
    /// The configuration changed; `is_dark` is whether it is now night mode.
    ConfigChanged { is_dark: bool },
    Destroy,
    /// Start, stop, save-state, low-memory, insets and other events, which
    /// need nothing from the loop.
    Other,
}

/// What the platform layer does for a main event.
#[derive(Copy, Clone, Debug, PartialEq, Eq)]
pub enum MainEventAction {
    Nothing,
    /// Rebuild the surface of the existing window (returning from the
    /// background) and update its safe-area insets; its callbacks are kept.
    ReinitWindow,
    /// Open the first window; its callbacks are installed later, from the
    /// loop.
    OpenWindow,
    /// Tear down the window's surface only; the logical window stays.
    TerminateSurface,
    /// Resize the window and update its safe-area insets.
    Resize,
    /// Report a keyboard layout change and set the window appearance.
    ApplyConfiguration { appearance: WindowAppearance },
    /// Ask the platform to quit.
    Quit,
}

/// The loop's state between iterations.
#[derive(Copy, Clone, Debug, PartialEq, Eq)]
pub struct EventLoopState {
    /// The initialisation callbacks have run for the current surface.
    pub init_window_done: bool,
    /// A pause arrived and is not applied yet.
    pub pause_pending: bool,
    /// A resume arrived and is not applied yet.
    pub resume_pending: bool,
    /// The window was active when last looked at.
    pub app_is_active: bool,
    /// A finish-launching callback was stored and has not run yet.
    pub finish_launching_pending: bool,
    /// A window-init callback was registered and has not run yet.
    pub init_window_callback_pending: bool,
}

/// The state and action after main event `event`; `window_exists` is whether
/// the platform already has a window.
pub open spec fn main_event_outcome(
    s: EventLoopState,
    event: MainEventKind,
    window_exists: bool,
) -> (EventLoopState, MainEventAction) {
    match event {
        MainEventKind::InitWindow => if window_exists {
            (EventLoopState { init_window_done: true, ..s }, MainEventAction::ReinitWindow)
        } else {
            (s, MainEventAction::OpenWindow)
        },
        MainEventKind::TerminateWindow => (
            EventLoopState { init_window_done: false, ..s },
            if window_exists { MainEventAction::TerminateSurface } else { MainEventAction::Nothing },
        ),
        MainEventKind::WindowResized => (s, if window_exists { MainEventAction::Resize } else { MainEventAction::Nothing }),
        MainEventKind::GainedFocus | MainEventKind::Resume => (
            EventLoopState { resume_pending: true, ..s },
            MainEventAction::Nothing,
        ),
        MainEventKind::LostFocus | MainEventKind::Pause => (
            EventLoopState { pause_pending: true, ..s },
            MainEventAction::Nothing,
        ),
        MainEventKind::ConfigChanged { is_dark } => (
            s,
            MainEventAction::ApplyConfiguration { appearance: spec_appearance(is_dark) },
        ),
        MainEventKind::Destroy => (s, MainEventAction::Quit),
        MainEventKind::Other => (s, MainEventAction::Nothing),
    }
}

/// A deferred initialisation callback.
#[derive(Copy, Clone, Debug, PartialEq, Eq)]
pub enum InitCallback {
    /// The finish-launching callback stored by the platform's `run`; it
    /// sets up the application and opens its window.
    FinishLaunching,
    /// The window-init callback registered with `set_on_init_window`; it
    /// receives the window.
    InitWindow,
}

/// What one loop iteration does once polling has returned and the pending
/// transitions are applied.
#[derive(Copy, Clone, Debug, PartialEq, Eq)]
pub struct FramePlan {
    /// The deferred initialisation runs: the pending callbacks, then the
    /// first frame at once.
    pub run_init_callbacks: bool,
    /// The finish-launching callback runs (taken: it is no longer pending).
    pub run_finish_launching: bool,
    /// The window-init callback runs (taken: it is no longer pending).
    pub run_init_window: bool,
    /// Flush main-thread tasks, request a frame and drain input again.
    pub render: bool,
}

/// The callbacks a plan runs, in the order they run: finish-launching
/// before window-init.
pub open spec fn init_callback_order(p: FramePlan) -> Seq<InitCallback> {
    (if p.run_finish_launching { seq![InitCallback::FinishLaunching] } else { Seq::empty() })
        + (if p.run_init_window { seq![InitCallback::InitWindow] } else { Seq::empty() })
}

/// The state and plan of an iteration in which the window exists or not and,
/// if it does, is active or not.
pub open spec fn frame_outcome(s: EventLoopState, window_exists: bool, window_active: bool) -> (EventLoopState, FramePlan) {
    let active = if window_exists { window_active } else { s.app_is_active };
    let run_init = !s.init_window_done && window_exists;
    let done = s.init_window_done || run_init;
    let run_f = run_init && s.finish_launching_pending;
    let run_g = run_init && s.init_window_callback_pending;
    (
        EventLoopState {
            init_window_done: done,
            app_is_active: active,
            finish_launching_pending: s.finish_launching_pending && !run_f,
            init_window_callback_pending: s.init_window_callback_pending && !run_g,
            ..s
        },
        FramePlan { run_init_callbacks: run_init, run_finish_launching: run_f, run_init_window: run_g, render: done && active },
    )
}

impl FramePlan {
    /// The callbacks to run, in order.
    pub fn init_callbacks(&self) -> (r: Vec<InitCallback>)
        ensures
            r@ == init_callback_order(*self),
    {
        let mut r: Vec<InitCallback> = Vec::new();
        if self.run_finish_launching {
            r.push(InitCallback::FinishLaunching);
        }
        if self.run_init_window {
            r.push(InitCallback::InitWindow);
        }
        assert(r@ =~= init_callback_order(*self));
        r
    }
}

impl EventLoopState {
    /// The state when the loop starts: nothing initialised, pending or active.
    pub fn new() -> (s: Self)
        ensures
            !s.init_window_done && !s.pause_pending && !s.resume_pending && !s.app_is_active,
            !s.finish_launching_pending && !s.init_window_callback_pending,
    {
        EventLoopState {
            init_window_done: false,
            pause_pending: false,
            resume_pending: false,
            app_is_active: false,
            finish_launching_pending: false,
            init_window_callback_pending: false,
        }
    }

    /// The platform's `run` stored the finish-launching callback.
    pub fn finish_launching_stored(&mut self)
        ensures
            *final(self) == (EventLoopState { finish_launching_pending: true, ..*old(self) }),
    {
        self.finish_launching_pending = true;
    }

    /// A window-init callback was registered.
    pub fn init_window_callback_stored(&mut self)
        ensures
            *final(self) == (EventLoopState { init_window_callback_pending: true, ..*old(self) }),
    {
        self.init_window_callback_pending = true;
    }

    /// Take the transitions that arrived while polling: whether to enter the
    /// background, then whether to become active.  Both are cleared.
    pub fn take_pending_transitions(&mut self) -> (r: (bool, bool))
        ensures
            r == (old(self).pause_pending, old(self).resume_pending),
            *final(self) == (EventLoopState { pause_pending: false, resume_pending: false, ..*old(self) }),
    {
        let r = (self.pause_pending, self.resume_pending);
        self.pause_pending = false;
        self.resume_pending = false;
        r
    }

    /// Plan the rest of an iteration from whether a window exists and, if so,
    /// whether it is active: the initialisation callbacks run once a window
    /// exists, and rendering happens only once they have run and while the
    /// window is active.
    pub fn plan_frame(&mut self, window_exists: bool, window_active: bool) -> (p: FramePlan)
        ensures
            (*final(self), p) == frame_outcome(*old(self), window_exists, window_active),
    {
        if window_exists {
            self.app_is_active = window_active;
        }
        let run_init = !self.init_window_done && window_exists;
        let run_f = run_init && self.finish_launching_pending;
        let run_g = run_init && self.init_window_callback_pending;
        if run_init {
            self.init_window_done = true;
        }
        if run_f {
            self.finish_launching_pending = false;
        }
        if run_g {
            self.init_window_callback_pending = false;
        }
        FramePlan {
            run_init_callbacks: run_init,
            run_finish_launching: run_f,
            run_init_window: run_g,
            render: self.init_window_done && self.app_is_active,
        }
    }
}

/// React to a main event: update the loop state, forget the applied chrome
/// style when the surface goes away (so that it is applied again on
/// resume), and say what the platform layer does.  `window_exists` is
/// whether the platform already has a window.
pub fn handle_main_event(
    state: &mut EventLoopState,
    chrome: &mut SystemChromeState,
    event: MainEventKind,
    window_exists: bool,
) -> (a: MainEventAction)
    ensures
        (*final(state), a) == main_event_outcome(*old(state), event, window_exists),
        event == MainEventKind::TerminateWindow ==> final(chrome).last() is None,
        event != MainEventKind::TerminateWindow ==> final(chrome).last() == old(chrome).last(),
{
    match event {
        MainEventKind::InitWindow => {
            if window_exists {
                state.init_window_done = true;
                MainEventAction::ReinitWindow
            } else {
                MainEventAction::OpenWindow
            }
        },
        MainEventKind::TerminateWindow => {
            state.init_window_done = false;
            chrome.reset();
            if window_exists {
                MainEventAction::TerminateSurface
            } else {
                MainEventAction::Nothing
            }
        },
        MainEventKind::WindowResized => {
            if window_exists {
                MainEventAction::Resize
            } else {
                MainEventAction::Nothing
            }
        },
        MainEventKind::GainedFocus | MainEventKind::Resume => {
            state.resume_pending = true;
            MainEventAction::Nothing
        },
        MainEventKind::LostFocus | MainEventKind::Pause => {
            state.pause_pending = true;
            MainEventAction::Nothing
        },
        MainEventKind::ConfigChanged { is_dark } => {
            let appearance = if is_dark { WindowAppearance::Dark } else { WindowAppearance::Light };
            MainEventAction::ApplyConfiguration { appearance }
        },
        MainEventKind::Destroy => MainEventAction::Quit,
        MainEventKind::Other => MainEventAction::Nothing,
    }
}

/// Rendering happens only after the initialisation callbacks have run and
/// while the window is active, and the callbacks run at most once until the
/// surface is torn down: a second plan right after the first never runs
/// them again.
pub proof fn lemma_render_only_when_ready(s: EventLoopState, exists1: bool, active1: bool, exists2: bool, active2: bool)
    ensures
        ({
            let (s1, p1) = frame_outcome(s, exists1, active1);
            let (s2, p2) = frame_outcome(s1, exists2, active2);
            &&& p1.render ==> s1.init_window_done && s1.app_is_active
            &&& p1.run_init_callbacks ==> !s.init_window_done
            &&& p1.run_init_callbacks ==> !p2.run_init_callbacks
            &&& s1.init_window_done ==> !p2.run_init_callbacks
        }),
{
}

/// Tearing down the surface makes the next plan with a window run the
/// initialisation callbacks again and stops rendering until then; a pause
/// or resume is only recorded by the event and is applied, once, by the
/// next `take_pending_transitions`.
pub proof fn lemma_terminate_then_reinit(s: EventLoopState, window_exists: bool, active: bool)
    ensures
        ({
            let (t, a) = main_event_outcome(s, MainEventKind::TerminateWindow, window_exists);
            let (u, p) = frame_outcome(t, true, active);
            &&& !t.init_window_done
            &&& p.run_init_callbacks
            &&& u.init_window_done
        }),
        ({
            let (t, a) = main_event_outcome(s, MainEventKind::TerminateWindow, window_exists);
            let (u, p) = frame_outcome(t, false, active);
            &&& !p.render
            &&& !p.run_init_callbacks
        }),
        main_event_outcome(s, MainEventKind::Pause, window_exists).0.pause_pending,
        main_event_outcome(s, MainEventKind::Resume, window_exists).0.resume_pending,
        main_event_outcome(s, MainEventKind::Pause, window_exists).1 == MainEventAction::Nothing,
{
}

/// The deferred callbacks run at most once each: a callback runs only when
/// it is pending and a window exists, running it takes it, and nothing else
/// the loop does (main events, pause/resume transitions, later plans) makes
/// it pending again; only storing it anew does.  When both run in one
/// iteration, finish-launching runs before window-init.
pub proof fn lemma_init_callbacks_run_once(
    s: EventLoopState,
    window_exists: bool,
    window_active: bool,
    event: MainEventKind,
    event_window_exists: bool,
)
    ensures
        ({
            let (s1, p) = frame_outcome(s, window_exists, window_active);
            &&& p.run_finish_launching ==> window_exists && s.finish_launching_pending && !s1.finish_launching_pending
            &&& p.run_init_window ==> window_exists && s.init_window_callback_pending && !s1.init_window_callback_pending
            &&& !s.finish_launching_pending ==> !p.run_finish_launching && !s1.finish_launching_pending
            &&& !s.init_window_callback_pending ==> !p.run_init_window && !s1.init_window_callback_pending
            &&& p.run_finish_launching && p.run_init_window
                ==> init_callback_order(p) == seq![InitCallback::FinishLaunching, InitCallback::InitWindow]
        }),
        main_event_outcome(s, event, event_window_exists).0.finish_launching_pending == s.finish_launching_pending,
        main_event_outcome(s, event, event_window_exists).0.init_window_callback_pending
            == s.init_window_callback_pending,
{
    let (s1, p) = frame_outcome(s, window_exists, window_active);
    if p.run_finish_launching && p.run_init_window {
        assert(init_callback_order(p) =~= seq![InitCallback::FinishLaunching, InitCallback::InitWindow]);
    }
}

/// A configuration change applies the appearance of the new night-mode
/// state, whatever the loop state or the window: dark exactly when the new
/// configuration is dark, light otherwise; the loop state is left as it was.
/// A `uiMode` value's night bits give the same appearance as
/// [`appearance_for_ui_mode`] does.
pub proof fn lemma_config_change_applies_new_appearance(
    s: EventLoopState,
    is_dark: bool,
    window_exists: bool,
    ui_mode: i32,
)
    ensures
        main_event_outcome(s, MainEventKind::ConfigChanged { is_dark }, window_exists).0 == s,
        main_event_outcome(s, MainEventKind::ConfigChanged { is_dark }, window_exists).1 matches
            MainEventAction::ApplyConfiguration { appearance } && {
            &&& (appearance == WindowAppearance::Dark) == is_dark
            &&& (appearance == WindowAppearance::Light) == !is_dark
        },
        main_event_outcome(
            s,
            MainEventKind::ConfigChanged { is_dark: ui_mode & UI_MODE_NIGHT_MASK == UI_MODE_NIGHT_YES },
            window_exists,
        ).1 == (MainEventAction::ApplyConfiguration {
            appearance: if ui_mode & 0x30 == 0x20 { WindowAppearance::Dark } else { WindowAppearance::Light },
        }),
{
}

/// What each main event asks of the platform: a new native window is opened
/// (or, when a window exists, re-initialised), a torn-down or resized
/// surface is handled only when a window exists, the activity's destruction
/// quits, and focus and pause/resume changes ask for nothing at once.  Only
/// a new or torn-down surface changes whether initialisation is done.
pub proof fn lemma_main_event_actions(s: EventLoopState, window_exists: bool, event: MainEventKind)
    ensures
        main_event_outcome(s, MainEventKind::InitWindow, false).1 == MainEventAction::OpenWindow,
        main_event_outcome(s, MainEventKind::InitWindow, true).1 == MainEventAction::ReinitWindow,
        main_event_outcome(s, MainEventKind::TerminateWindow, true).1 == MainEventAction::TerminateSurface,
        main_event_outcome(s, MainEventKind::TerminateWindow, false).1 == MainEventAction::Nothing,
        main_event_outcome(s, MainEventKind::WindowResized, true).1 == MainEventAction::Resize,
        main_event_outcome(s, MainEventKind::WindowResized, false).1 == MainEventAction::Nothing,
        main_event_outcome(s, MainEventKind::Destroy, window_exists) == (s, MainEventAction::Quit),
        main_event_outcome(s, MainEventKind::GainedFocus, window_exists).1 == MainEventAction::Nothing,
        main_event_outcome(s, MainEventKind::LostFocus, window_exists).1 == MainEventAction::Nothing,
        main_event_outcome(s, MainEventKind::Resume, window_exists).1 == MainEventAction::Nothing,
        main_event_outcome(s, MainEventKind::Other, window_exists) == (s, MainEventAction::Nothing),
        main_event_outcome(s, MainEventKind::GainedFocus, window_exists).0.resume_pending,
        main_event_outcome(s, MainEventKind::LostFocus, window_exists).0.pause_pending,
        event != MainEventKind::TerminateWindow && event != MainEventKind::InitWindow
            ==> main_event_outcome(s, event, window_exists).0.init_window_done == s.init_window_done,
        main_event_outcome(s, MainEventKind::TerminateWindow, window_exists).0.app_is_active == s.app_is_active,
{
}

/// With a window, an iteration renders exactly when the window is active
/// (initialising first if needed); without one it renders only if it was
/// already initialised and last seen active, and it never initialises.
pub proof fn lemma_frame_renders_when_active(s: EventLoopState, active: bool)
    ensures
        frame_outcome(s, true, active).1.render == active,
        frame_outcome(s, true, active).0.init_window_done,
        frame_outcome(s, true, active).0.app_is_active == active,
        frame_outcome(s, false, active).1.render == (s.init_window_done && s.app_is_active),
        !frame_outcome(s, false, active).1.run_init_callbacks,
        frame_outcome(s, false, active).0 == s,
{
    assert(frame_outcome(s, false, active).0 =~= s);
}

/// The platform's quit request: a flag the loop reads at the start of each
/// iteration, and the callback registered to run when quitting.
pub struct QuitState<F> {
    requested: bool,
    callback: Option<F>,
}

impl<F: FnMut()> QuitState<F> {
    /// Whether quitting was requested.
    pub closed spec fn requested(self) -> bool {
        self.requested
    }

    /// The registered quit callback, if any.
    pub closed spec fn callback(self) -> Option<F> {
        self.callback
    }

    /// No quit requested, no callback registered.
    pub fn new() -> (q: Self)
        ensures
            !q.requested(),
            q.callback() is None,
    {
        QuitState { requested: false, callback: None }
    }

    /// Register `callback` to run when quitting, replacing any earlier one.
    pub fn on_quit(&mut self, callback: F)
        ensures
            final(self).requested() == old(self).requested(),
            final(self).callback() == Some(callback),
    {
        self.callback = Some(callback);
    }

    /// Request a graceful quit: the loop exits at its next check, and the
    /// registered callback (which stays registered) runs now.  Returns
    /// whether a callback ran.
    pub fn quit(&mut self) -> (ran: bool)
        requires
            old(self).callback() matches Some(cb) ==> call_requires(cb, ()),
        ensures
            final(self).requested(),
            ran == (old(self).callback() is Some),
            (final(self).callback() is Some) == (old(self).callback() is Some),
            old(self).callback() matches Some(cb) ==> call_ensures(cb, (), ()),
    {
        self.requested = true;
        match &mut self.callback {
            Some(cb) => {
                cb();
                true
            },
            None => false,
        }
    }

    /// Whether `quit` was called.
    pub fn should_quit(&self) -> (r: bool)
        ensures
            r == self.requested(),
    {
        self.requested
    }
}

} // verus!
