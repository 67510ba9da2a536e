//! The countdown state machine.
//!
//! A [`Timer`] owns a remaining time in whole seconds, a run state and the
//! duration it was configured with. It never touches a clock or a speaker:
//! the host calls [`Timer::tick`] about once a second and delivers the
//! [`Expiry`] that a tick or a stop hands back.
//!
//! Contracts are stated over [`TimerView`], the timer with unbounded
//! numbers, so that the laws at the end of this file hold without any
//! mention of machine limits. The one thing an operation asks of its caller
//! is that its outcome [`fits`](TimerView::fits) the machine words of a
//! [`Timer`]; overflow is never wrapped or saturated away.

use vstd::prelude::*;

verus! {

/// Run mode of a [`Timer`].
#[derive(Debug, Clone, Copy, PartialEq, Eq, Structural)]
pub enum TimerState {
    Running,
    Stopped,
    Paused,
}

/// The alert that is due when a countdown ends or is stopped.
///
/// The visual notification is always due; the audio cue only if `sound` is set.
#[derive(Debug, Clone, Copy, PartialEq, Eq, Structural)]
pub struct Expiry {
    pub sound: bool,
}

/// A countdown timer.
#[derive(Debug)]
pub struct Timer {
    /// Current run mode.
    pub state: TimerState,
    /// Time to expiry, in whole seconds.
    pub remaining: u64,
    /// The configured duration, in minutes: what the timer is re-armed to.
    pub start_time: u64,
    /// Whether an expiry plays the audio cue besides the visual alert.
    pub sound_notify: bool,
}

/// Seconds in `minutes` minutes.
pub open spec fn secs_of(minutes: nat) -> nat {
    minutes * 60
}

/// The state that a toggle leads to: a stopped or paused timer runs, a running one pauses.
pub open spec fn toggled(state: TimerState) -> TimerState {
    match state {
        TimerState::Running => TimerState::Paused,
        TimerState::Paused => TimerState::Running,
        TimerState::Stopped => TimerState::Running,
    }
}

/// A [`Timer`] over the natural numbers.
pub struct TimerView {
    pub state: TimerState,
    /// Seconds to expiry.
    pub remaining: nat,
    /// Minutes the timer is re-armed to.
    pub configured_minutes: nat,
    pub sound_enabled: bool,
}

impl TimerView {
    /// A stopped timer armed with `minutes` minutes, sound on.
    pub open spec fn new(minutes: nat) -> TimerView {
        TimerView {
            state: TimerState::Stopped,
            remaining: secs_of(minutes),
            configured_minutes: minutes,
            sound_enabled: true,
        }
    }

    /// Reconfigures the duration and re-arms to it; the run state stays.
    pub open spec fn set_configured_minutes(self, minutes: nat) -> TimerView {
        TimerView { remaining: secs_of(minutes), configured_minutes: minutes, ..self }
    }

    /// Sixty seconds more. A stopped timer takes the minute into its
    /// configured duration as well; a running or paused one is only extended.
    pub open spec fn add_one_minute(self) -> TimerView {
        TimerView {
            remaining: self.remaining + 60,
            configured_minutes: if self.state == TimerState::Stopped {
                self.configured_minutes + 1
            } else {
                self.configured_minutes
            },
            ..self
        }
    }

    /// Stops and arms with `minutes` minutes; the configured duration stays.
    pub open spec fn reset(self, minutes: nat) -> TimerView {
        TimerView { state: TimerState::Stopped, remaining: secs_of(minutes), ..self }
    }

    /// Stops and re-arms to the configured duration.
    pub open spec fn stop(self) -> TimerView {
        TimerView {
            state: TimerState::Stopped,
            remaining: secs_of(self.configured_minutes),
            ..self
        }
    }

    /// The alert that a stop of this timer makes due.
    pub open spec fn expiry(self) -> Expiry {
        Expiry { sound: self.sound_enabled }
    }

    /// Whether the next tick ends the countdown: the timer runs and has at
    /// most its last second left.
    pub open spec fn expires_on_tick(self) -> bool {
        self.state == TimerState::Running && self.remaining <= 1
    }

    /// One tick: nothing unless running; else one second less, and a stop
    /// once no second is left.
    pub open spec fn tick(self) -> TimerView {
        if self.state != TimerState::Running {
            self
        } else if self.remaining > 1 {
            TimerView { remaining: (self.remaining - 1) as nat, ..self }
        } else {
            self.stop()
        }
    }

    /// The alert that one tick makes due, if any.
    pub open spec fn tick_alert(self) -> Option<Expiry> {
        if self.expires_on_tick() {
            Some(self.expiry())
        } else {
            None
        }
    }

    /// Start, pause or resume.
    pub open spec fn toggle(self) -> TimerView {
        TimerView { state: toggled(self.state), ..self }
    }

    /// The timer after `n` ticks.
    pub open spec fn ticks(self, n: nat) -> TimerView
        decreases n,
    {
        if n == 0 {
            self
        } else {
            self.ticks((n - 1) as nat).tick()
        }
    }

    /// How many of the first `n` ticks make an alert due.
    pub open spec fn alerts(self, n: nat) -> nat
        decreases n,
    {
        if n == 0 {
            0
        } else {
            let before = self.ticks((n - 1) as nat);
            self.alerts((n - 1) as nat) + if before.tick_alert() is Some {
                1nat
            } else {
                0nat
            }
        }
    }

    /// The timer after `n` toggles.
    pub open spec fn toggles(self, n: nat) -> TimerView
        decreases n,
    {
        if n == 0 {
            self
        } else {
            self.toggles((n - 1) as nat).toggle()
        }
    }

    /// A timer with no time left is stopped.
    pub open spec fn idle_at_zero(self) -> bool {
        self.remaining == 0 ==> self.state == TimerState::Stopped
    }

    /// Whether a [`Timer`] can hold these numbers: both fit its machine words.
    pub open spec fn fits(self) -> bool {
        self.remaining <= u64::MAX && self.configured_minutes <= u64::MAX
    }
}

impl View for Timer {
    type V = TimerView;

    open spec fn view(&self) -> TimerView {
        TimerView {
            state: self.state,
            remaining: self.remaining as nat,
            configured_minutes: self.start_time as nat,
            sound_enabled: self.sound_notify,
        }
    }
}

impl Timer {
    /// A stopped timer armed with `minutes` minutes, sound on.
    pub fn new(minutes: u64) -> (timer: Self)
        requires
            TimerView::new(minutes as nat).fits(),
        ensures
            timer@ == TimerView::new(minutes as nat),
            timer.state == TimerState::Stopped,
            timer.remaining == minutes * 60,
    {
        Self {
            remaining: minutes * 60,
            state: TimerState::Stopped,
            start_time: minutes,
            sound_notify: true,
        }
    }

    /// Sets the configured duration and re-arms to it.
    ///
    /// Meant for a stopped timer: the host keeps its duration control
    /// disabled while a countdown is under way. The run state is not looked
    /// at and not changed.
    pub fn update_minutes(&mut self, minutes: u64)
        requires
            old(self)@.set_configured_minutes(minutes as nat).fits(),
        ensures
            final(self)@ == old(self)@.set_configured_minutes(minutes as nat),
    {
        self.remaining = minutes * 60;
        self.start_time = minutes;
    }

    /// Adds one minute to the time remaining; a stopped timer takes it into
    /// its configured duration too, a running or paused one does not.
    pub fn set_one_minute(&mut self)
        requires
            old(self)@.add_one_minute().fits(),
        ensures
            final(self)@ == old(self)@.add_one_minute(),
            final(self).remaining == old(self).remaining + 60,
            final(self).start_time == if old(self).state == TimerState::Stopped {
                old(self).start_time + 1
            } else {
                old(self).start_time as int
            },
    {
        self.remaining = self.remaining + 60;
        if self.state == TimerState::Stopped {
            self.start_time = self.start_time + 1;
        }
    }

    /// Drops any countdown under way: stops, and arms with `minutes` minutes.
    pub fn reset(&mut self, minutes: u64)
        requires
            old(self)@.reset(minutes as nat).fits(),
        ensures
            final(self)@ == old(self)@.reset(minutes as nat),
            final(self).state == TimerState::Stopped,
            final(self).remaining == minutes * 60,
    {
        self.remaining = minutes * 60;
        self.state = TimerState::Stopped;
    }

    /// One second has passed.
    ///
    /// Does nothing unless the timer runs. A running timer loses one second;
    /// when none is left it stops, is re-armed to its configured duration,
    /// and the alert to deliver is returned. Late or coalesced calls are not
    /// made up for: one call, one second.
    pub fn tick(&mut self) -> (alert: Option<Expiry>)
        requires
            old(self)@.tick().fits(),
        ensures
            final(self)@ == old(self)@.tick(),
            alert == old(self)@.tick_alert(),
            old(self).state != TimerState::Running ==> *final(self) == *old(self) && alert is None,
            old(self).state == TimerState::Running && old(self).remaining > 1 ==> {
                &&& final(self).remaining == old(self).remaining - 1
                &&& final(self).state == TimerState::Running
                &&& alert is None
            },
            old(self).state == TimerState::Running && old(self).remaining <= 1 ==> {
                &&& final(self).state == TimerState::Stopped
                &&& final(self).remaining == old(self).start_time * 60
                &&& alert == Some(Expiry { sound: old(self).sound_notify })
            },
            final(self).start_time == old(self).start_time,
    {
        if self.state == TimerState::Running {
            if self.remaining > 0 {
                self.remaining = self.remaining - 1;
            }
            if self.remaining == 0 {
                return Some(self.stop());
            }
        }
        None
    }

    /// Stops the timer and re-arms it to the configured duration.
    ///
    /// This is both the user's cancel and the end of a countdown. The alert
    /// returned is for the host to deliver once it has let go of the timer:
    /// the visual notification always, the audio cue if `sound` is set.
    pub fn stop(&mut self) -> (alert: Expiry)
        requires
            old(self)@.stop().fits(),
        ensures
            final(self)@ == old(self)@.stop(),
            alert == old(self)@.expiry(),
    {
        self.state = TimerState::Stopped;
        self.remaining = self.start_time * 60;
        Expiry { sound: self.sound_notify }
    }

    /// Starts a stopped timer, pauses a running one, resumes a paused one.
    pub fn toggle(&mut self)
        ensures
            final(self)@ == old(self)@.toggle(),
            final(self).state != TimerState::Stopped,
    {
        self.state = match self.state {
            TimerState::Running => TimerState::Paused,
            TimerState::Paused => TimerState::Running,
            TimerState::Stopped => TimerState::Running,
        };
    }
}

/// A timer that does not run is deaf to ticks: any number of them leaves it
/// as it was and makes no alert due.
pub proof fn lemma_ticks_while_idle(t: TimerView, n: nat)
    requires
        t.state != TimerState::Running,
    ensures
        t.ticks(n) == t,
        t.alerts(n) == 0,
    decreases n,
{
    if n > 0 {
        lemma_ticks_while_idle(t, (n - 1) as nat);
    }
}

/// A running timer with more than `n` seconds left has lost exactly `n`
/// seconds after `n` ticks, one with each tick, and is still running;
/// nothing else about it has changed and no alert has come due.
pub proof fn lemma_countdown(t: TimerView, n: nat)
    requires
        t.state == TimerState::Running,
        n < t.remaining,
    ensures
        t.ticks(n) == (TimerView { remaining: (t.remaining - n) as nat, ..t }),
        t.alerts(n) == 0,
        n > 0 ==> t.ticks(n).remaining == t.ticks((n - 1) as nat).remaining - 1,
    decreases n,
{
    if n > 0 {
        lemma_countdown(t, (n - 1) as nat);
    }
}

/// A running timer expires on the tick that takes its last second, or on
/// the first tick if it had no time left. From then on, however many ticks
/// follow, it stays stopped and re-armed to its configured duration, and
/// exactly one alert has come due.
pub proof fn lemma_expiry(t: TimerView, n: nat)
    requires
        t.state == TimerState::Running,
        n >= 1,
        n >= t.remaining,
    ensures
        t.ticks(n) == t.stop(),
        t.ticks(n).state == TimerState::Stopped,
        t.ticks(n).remaining == secs_of(t.configured_minutes),
        t.alerts(n) == 1,
    decreases n,
{
    let before = (n - 1) as nat;
    if before < t.remaining {
        lemma_countdown(t, before);
    } else if before == 0 {
        assert(t.ticks(0) == t && t.alerts(0) == 0);
    } else {
        lemma_expiry(t, before);
    }
}

/// Ticks never touch the configured duration or the sound setting.
pub proof fn lemma_ticks_keep_settings(t: TimerView, n: nat)
    ensures
        t.ticks(n).configured_minutes == t.configured_minutes,
        t.ticks(n).sound_enabled == t.sound_enabled,
    decreases n,
{
    if n > 0 {
        lemma_ticks_keep_settings(t, (n - 1) as nat);
    }
}

/// The configured duration changes on request only: reconfiguring sets it,
/// a minute added to a stopped timer raises it by one, and nothing else
/// touches it.
pub proof fn lemma_configuration_on_request(t: TimerView, minutes: nat)
    ensures
        t.set_configured_minutes(minutes).configured_minutes == minutes,
        t.add_one_minute().configured_minutes == if t.state == TimerState::Stopped {
            t.configured_minutes + 1
        } else {
            t.configured_minutes
        },
        t.tick().configured_minutes == t.configured_minutes,
        t.stop().configured_minutes == t.configured_minutes,
        t.reset(minutes).configured_minutes == t.configured_minutes,
        t.toggle().configured_minutes == t.configured_minutes,
{
}

/// Toggling changes the run state only, and never into stopped. Starting
/// from a stopped timer the states alternate: running after an odd number
/// of toggles, paused after an even number of them.
pub proof fn lemma_toggle_sequence(t: TimerView, n: nat)
    ensures
        t.toggles(n) == (TimerView { state: t.toggles(n).state, ..t }),
        n >= 1 ==> t.toggles(n).state != TimerState::Stopped,
        t.state == TimerState::Stopped && n >= 1 ==> t.toggles(n).state == if n % 2 == 1 {
            TimerState::Running
        } else {
            TimerState::Paused
        },
    decreases n,
{
    if n > 0 {
        lemma_toggle_sequence(t, (n - 1) as nat);
    }
}

/// Where "no time left" implies "stopped": every way of arming a stopped
/// timer establishes it, adding a minute establishes it, a tick keeps it, a
/// toggle keeps it while time is left, and reconfiguring keeps it on a
/// stopped timer or with a duration other than zero.
pub proof fn lemma_idle_at_zero(t: TimerView, minutes: nat)
    ensures
        TimerView::new(minutes).idle_at_zero(),
        t.reset(minutes).idle_at_zero(),
        t.stop().idle_at_zero(),
        t.add_one_minute().idle_at_zero(),
        t.idle_at_zero() ==> t.tick().idle_at_zero(),
        t.idle_at_zero() && t.remaining > 0 ==> t.toggle().idle_at_zero(),
        t.state == TimerState::Stopped || minutes > 0
            ==> t.set_configured_minutes(minutes).idle_at_zero(),
{
}

} // verus!
