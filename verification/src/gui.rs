//! The front end's state and what each frame and each control does to it.
//!
//! [`MyGuiApp`] is the model behind the window: the timer, the duration
//! chosen on the slider, the sound setting and the language. It draws
//! nothing and reads no clock. The host passes the time in as milliseconds
//! on a monotonic clock, calls [`MyGuiApp::update`] once a frame, and calls
//! the method of a control when that control is used.
//!
//! As in [`crate::timer`], contracts speak of a view with unbounded numbers,
//! [`GuiView`], and ask of the caller only that the outcome fits the machine.
//! A host that is not verified asks the `can_` method of an operation first.

use crate::display::{clock_text, format_mmss};
use crate::labels::text;
use crate::text_lib::{Language, Titles, Translator};
use crate::timer::{secs_of, Expiry, Timer, TimerState, TimerView};
use vstd::prelude::*;

verus! {

/// Milliseconds between two ticks of the countdown.
pub const TICK_MS: u64 = 1000;

/// Milliseconds from a frame to the repaint that it schedules.
pub const REPAINT_MS: u64 = 100;

/// The colour in which the state line is shown.
#[derive(Debug, Clone, Copy, PartialEq, Eq, Structural)]
pub enum StateColor {
    Green,
    Yellow,
    Red,
}

/// The state of the front end.
#[derive(Debug)]
pub struct MyGuiApp {
    /// The duration on the slider, in minutes.
    pub minutes: u64,
    /// When the countdown was last given the chance to tick.
    pub last_tick: u64,
    /// When the next repaint is due.
    pub next_repaint: u64,
    pub timer: Timer,
    /// Set once the user has asked to quit.
    pub allow_exit: bool,
    /// The sound checkbox; the timer takes it over when it is toggled.
    pub is_sound_notify: bool,
    pub system_lang: Translator,
}

/// What one frame hands to the host: the alert to deliver, if the countdown
/// ended in this frame, and what the widgets below show.
#[derive(Debug)]
pub struct Frame {
    pub alert: Option<Expiry>,
    /// The timer is stopped: the slider is enabled and the button starts
    /// the countdown. Otherwise the button adds a minute.
    pub no_active_timer: bool,
    pub state_text: String,
    pub state_color: StateColor,
}

/// The title of the line that describes a run state.
pub open spec fn state_title(state: TimerState) -> Titles {
    match state {
        TimerState::Running => Titles::TimerRunning,
        TimerState::Paused => Titles::TimerPaused,
        TimerState::Stopped => Titles::TimerStopped,
    }
}

/// The colour of the line that describes a run state.
pub open spec fn state_color(state: TimerState) -> StateColor {
    match state {
        TimerState::Running => StateColor::Green,
        TimerState::Paused => StateColor::Yellow,
        TimerState::Stopped => StateColor::Red,
    }
}

/// The title on the button below the sound checkbox.
pub open spec fn button_title(no_active_timer: bool) -> Titles {
    if no_active_timer {
        Titles::StartButton
    } else {
        Titles::AddMinutes
    }
}

/// A [`MyGuiApp`] over the natural numbers.
pub struct GuiView {
    pub minutes: nat,
    pub last_tick: nat,
    pub next_repaint: nat,
    pub timer: TimerView,
    pub allow_exit: bool,
    pub is_sound_notify: bool,
    pub lang: Language,
}

impl GuiView {
    /// The front end at its start, at time `now`: the slider shows the
    /// whole minutes that the timer has left, sound is on.
    pub open spec fn new(timer: TimerView, now: nat, lang: Language) -> GuiView {
        GuiView {
            minutes: timer.remaining / 60,
            last_tick: now,
            next_repaint: (now + TICK_MS) as nat,
            timer,
            allow_exit: false,
            is_sound_notify: true,
            lang,
        }
    }

    /// The slider was moved: the timer is configured with its value.
    pub open spec fn update_minutes(self) -> GuiView {
        GuiView { timer: self.timer.set_configured_minutes(self.minutes), ..self }
    }

    /// Start, pause or resume; the timer takes over the sound checkbox.
    pub open spec fn toggle_timer(self) -> GuiView {
        GuiView {
            timer: (TimerView { sound_enabled: self.is_sound_notify, ..self.timer }).toggle(),
            ..self
        }
    }

    /// The timer is stopped and armed with the slider's value.
    pub open spec fn reset_timer(self) -> GuiView {
        GuiView { timer: self.timer.reset(self.minutes), ..self }
    }

    /// One minute more on the timer, and on the slider too if the timer is
    /// stopped.
    pub open spec fn set_one_minute(self) -> GuiView {
        GuiView {
            minutes: if self.timer.state == TimerState::Stopped {
                self.minutes + 1
            } else {
                self.minutes
            },
            timer: self.timer.add_one_minute(),
            ..self
        }
    }

    /// The button was pressed. `no_active_timer` is what the frame reported
    /// when the button was laid out.
    pub open spec fn button_pressed(self, no_active_timer: bool) -> GuiView {
        if no_active_timer {
            self.toggle_timer()
        } else {
            self.set_one_minute()
        }
    }

    /// Whether at `now` a second or more has passed since the last tick.
    /// A clock behind the last tick counts as no time passed.
    pub open spec fn tick_due(self, now: nat) -> bool {
        now >= self.last_tick + TICK_MS
    }

    /// One frame at time `now`: if a tick is due the timer gets one, and the
    /// next is due a second from now, whether or not the timer was running;
    /// the next repaint is scheduled.
    pub open spec fn frame(self, now: nat) -> GuiView {
        GuiView {
            timer: if self.tick_due(now) {
                self.timer.tick()
            } else {
                self.timer
            },
            last_tick: if self.tick_due(now) {
                now
            } else {
                self.last_tick
            },
            next_repaint: (now + REPAINT_MS) as nat,
            ..self
        }
    }

    /// The alert that the frame at `now` makes due, if any.
    pub open spec fn frame_alert(self, now: nat) -> Option<Expiry> {
        if self.tick_due(now) {
            self.timer.tick_alert()
        } else {
            None
        }
    }

    /// The slider and the timer agree on the configured duration.
    pub open spec fn in_sync(self) -> bool {
        self.minutes == self.timer.configured_minutes
    }

    /// Whether a [`MyGuiApp`] can hold these numbers.
    pub open spec fn fits(self) -> bool {
        &&& self.minutes <= u64::MAX
        &&& self.last_tick <= u64::MAX
        &&& self.next_repaint <= u64::MAX
        &&& self.timer.fits()
    }
}

impl View for MyGuiApp {
    type V = GuiView;

    open spec fn view(&self) -> GuiView {
        GuiView {
            minutes: self.minutes as nat,
            last_tick: self.last_tick as nat,
            next_repaint: self.next_repaint as nat,
            timer: self.timer@,
            allow_exit: self.allow_exit,
            is_sound_notify: self.is_sound_notify,
            lang: self.system_lang@,
        }
    }
}

/// Whether `minutes` minutes, counted in seconds, fit a machine word.
fn secs_fit(minutes: u64) -> (ok: bool)
    ensures
        ok == (secs_of(minutes as nat) <= u64::MAX),
{
    minutes <= u64::MAX / 60
}

impl MyGuiApp {
    /// The front end for `timer` at time `now`, in the language of the
    /// system. Which language that is depends on the machine; the rest is
    /// as [`MyGuiApp::with_translator`] builds it.
    pub fn new(timer: Timer, now: u64) -> (app: Self)
        requires
            now + TICK_MS <= u64::MAX,
        ensures
            app@ == GuiView::new(timer@, now as nat, app@.lang),
    {
        Self::with_translator(timer, now, Translator::default())
    }

    /// The front end for `timer` at time `now`, with its labels from
    /// `system_lang`.
    pub fn with_translator(timer: Timer, now: u64, system_lang: Translator) -> (app: Self)
        requires
            now + TICK_MS <= u64::MAX,
        ensures
            app@ == GuiView::new(timer@, now as nat, system_lang@),
    {
        let minutes = timer.remaining / 60;
        Self {
            minutes,
            timer,
            last_tick: now,
            next_repaint: now + TICK_MS,
            allow_exit: false,
            is_sound_notify: true,
            system_lang,
        }
    }

    /// The time left, as `MM:SS`.
    pub fn format_time(&self) -> (time: String)
        ensures
            time@ == clock_text(self@.timer.remaining),
    {
        format_mmss(self.timer.remaining)
    }

    /// Whether [`MyGuiApp::update_minutes`] may be called: its outcome fits.
    pub fn can_update_minutes(&self) -> (ok: bool)
        ensures
            ok == self@.update_minutes().fits(),
    {
        secs_fit(self.minutes)
    }

    /// Configures the timer with the slider's value and re-arms it.
    pub fn update_minutes(&mut self)
        requires
            old(self)@.update_minutes().fits(),
        ensures
            final(self)@ == old(self)@.update_minutes(),
    {
        self.timer.update_minutes(self.minutes);
    }

    /// The run state of the timer.
    pub fn current_state(&self) -> (state: TimerState)
        ensures
            state == self@.timer.state,
    {
        self.timer.state
    }

    /// Starts, pauses or resumes the timer, which takes over the sound
    /// checkbox as it does.
    pub fn toggle_timer(&mut self)
        ensures
            final(self)@ == old(self)@.toggle_timer(),
    {
        self.timer.sound_notify = self.is_sound_notify;
        self.timer.toggle();
    }

    /// Whether [`MyGuiApp::reset_timer`] may be called: its outcome fits.
    pub fn can_reset_timer(&self) -> (ok: bool)
        ensures
            ok == self@.reset_timer().fits(),
    {
        secs_fit(self.minutes)
    }

    /// Stops the timer and arms it with the slider's value.
    pub fn reset_timer(&mut self)
        requires
            old(self)@.reset_timer().fits(),
        ensures
            final(self)@ == old(self)@.reset_timer(),
    {
        self.timer.reset(self.minutes);
    }

    /// Whether [`MyGuiApp::set_one_minute`] may be called: its outcome fits.
    pub fn can_set_one_minute(&self) -> (ok: bool)
        ensures
            ok == self@.set_one_minute().fits(),
    {
        let slider_follows = self.timer.state == TimerState::Stopped;
        self.timer.remaining <= u64::MAX - 60
            && (!slider_follows || (self.minutes < u64::MAX && self.timer.start_time < u64::MAX))
    }

    /// Adds a minute to the timer; if it is stopped, the slider follows.
    pub fn set_one_minute(&mut self)
        requires
            old(self)@.set_one_minute().fits(),
        ensures
            final(self)@ == old(self)@.set_one_minute(),
    {
        if self.timer.state == TimerState::Stopped {
            self.minutes = self.minutes + 1;
        }
        self.timer.set_one_minute();
    }

    /// The text of `title` in the language of the front end.
    pub fn get_translator_str(&self, title: Titles) -> (s: &'static str)
        ensures
            s@ == text(self@.lang, title),
    {
        self.system_lang.translate(title)
    }

    /// The title that the button carries in a frame that reported
    /// `no_active_timer`.
    pub fn button_title(no_active_timer: bool) -> (title: Titles)
        ensures
            title == button_title(no_active_timer),
    {
        if no_active_timer {
            Titles::StartButton
        } else {
            Titles::AddMinutes
        }
    }

    /// Whether [`MyGuiApp::button_pressed`] may be called: its outcome fits.
    pub fn can_press_button(&self, no_active_timer: bool) -> (ok: bool)
        ensures
            ok == self@.button_pressed(no_active_timer).fits(),
    {
        no_active_timer || self.can_set_one_minute()
    }

    /// The button was pressed in a frame that reported `no_active_timer`:
    /// it starts a stopped timer, and adds a minute to one under way.
    pub fn button_pressed(&mut self, no_active_timer: bool)
        requires
            old(self)@.button_pressed(no_active_timer).fits(),
        ensures
            final(self)@ == old(self)@.button_pressed(no_active_timer),
    {
        if no_active_timer {
            self.toggle_timer();
        } else {
            self.set_one_minute();
        }
    }

    /// Whether [`MyGuiApp::update`] may be called at `now`: its outcome fits.
    pub fn can_update(&self, now: u64) -> (ok: bool)
        ensures
            ok == self@.frame(now as nat).fits(),
    {
        let due = now >= self.last_tick && now - self.last_tick >= TICK_MS;
        let expires = due && self.timer.state == TimerState::Running && self.timer.remaining <= 1;
        now <= u64::MAX - REPAINT_MS && (!expires || secs_fit(self.timer.start_time))
    }

    /// One frame, at time `now`.
    ///
    /// When a second or more has passed since the last tick, a running
    /// timer ticks once, however long it has been, and the second starts
    /// anew. The frame returned holds the alert that the host has to
    /// deliver if the countdown ended, and the state line as it is before
    /// the controls of this frame are handled.
    pub fn update(&mut self, now: u64) -> (frame: Frame)
        requires
            old(self)@.frame(now as nat).fits(),
        ensures
            final(self)@ == old(self)@.frame(now as nat),
            frame.alert == old(self)@.frame_alert(now as nat),
            frame.no_active_timer == (final(self)@.timer.state == TimerState::Stopped),
            frame.state_text@ == text(final(self)@.lang, state_title(final(self)@.timer.state)),
            frame.state_color == state_color(final(self)@.timer.state),
    {
        let mut alert = None;
        let elapsed = if now >= self.last_tick {
            now - self.last_tick
        } else {
            0
        };
        if elapsed >= TICK_MS {
            if self.current_state() == TimerState::Running {
                alert = self.timer.tick();
            }
            self.last_tick = now;
        }
        self.next_repaint = now + REPAINT_MS;
        let no_active_timer = self.current_state() == TimerState::Stopped;
        let state_text = current_state_text(self);
        let state_color = color_from_state(self);
        Frame { alert, no_active_timer, state_text, state_color }
    }
}

/// The line that describes the run state, in the language of the front end.
pub fn current_state_text(state: &MyGuiApp) -> (line: String)
    ensures
        line@ == text(state@.lang, state_title(state@.timer.state)),
{
    match state.current_state() {
        TimerState::Running => String::from_str(state.system_lang.translate(Titles::TimerRunning)),
        TimerState::Paused => String::from_str(state.system_lang.translate(Titles::TimerPaused)),
        TimerState::Stopped => String::from_str(state.system_lang.translate(Titles::TimerStopped)),
    }
}

/// The colour of the state line: green while running, yellow while paused,
/// red while stopped.
pub fn color_from_state(state: &MyGuiApp) -> (color: StateColor)
    ensures
        color == state_color(state@.timer.state),
{
    match state.current_state() {
        TimerState::Running => StateColor::Green,
        TimerState::Paused => StateColor::Yellow,
        TimerState::Stopped => StateColor::Red,
    }
}

/// The slider and the timer never drift apart: a front end built on a
/// freshly armed timer has them agree on the configured duration, moving
/// the slider makes them agree, and every other control and every frame
/// keeps them so.
pub proof fn lemma_slider_in_sync(gui: GuiView, minutes: nat, now: nat, lang: Language, pressed: bool)
    ensures
        GuiView::new(TimerView::new(minutes), now, lang).in_sync(),
        gui.update_minutes().in_sync(),
        gui.in_sync() ==> gui.toggle_timer().in_sync(),
        gui.in_sync() ==> gui.reset_timer().in_sync(),
        gui.in_sync() ==> gui.set_one_minute().in_sync(),
        gui.in_sync() ==> gui.button_pressed(pressed).in_sync(),
        gui.in_sync() ==> gui.frame(now).in_sync(),
{
}

/// A frame gives the timer at most one tick, however late it comes, and
/// none before a second has passed since the last one.
pub proof fn lemma_frame_ticks_once(gui: GuiView, now: nat)
    ensures
        gui.frame(now).timer == gui.timer.tick() || gui.frame(now).timer == gui.timer,
        now < gui.last_tick + TICK_MS
            ==> gui.frame(now).timer == gui.timer && gui.frame_alert(now) is None,
        gui.timer.state != TimerState::Running
            ==> gui.frame(now).timer == gui.timer && gui.frame_alert(now) is None,
{
}

} // verus!
