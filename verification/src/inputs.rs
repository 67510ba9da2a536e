//! Keyboard shortcuts.
//!
//! `S` or space toggles the timer, `R` resets it to the slider's value, `Q`
//! asks to quit and `A` adds a minute. Keys pressed in one frame are handled
//! in that order.

use crate::gui::{GuiView, MyGuiApp};
use crate::timer::TimerState;
use vstd::prelude::*;

verus! {

/// The shortcut keys that went down in one frame.
#[derive(Debug, Clone, Copy, PartialEq, Eq, Structural)]
pub struct KeysPressed {
    pub s: bool,
    pub space: bool,
    pub r: bool,
    pub q: bool,
    pub a: bool,
}

impl KeysPressed {
    /// No key went down.
    pub open spec fn none() -> KeysPressed {
        KeysPressed { s: false, space: false, r: false, q: false, a: false }
    }
}

/// The front end after the toggle keys of `keys`.
pub open spec fn after_toggle_keys(gui: GuiView, keys: KeysPressed) -> GuiView {
    if keys.s || keys.space {
        gui.toggle_timer()
    } else {
        gui
    }
}

/// The front end after the toggle and reset keys of `keys`.
pub open spec fn after_reset_key(gui: GuiView, keys: KeysPressed) -> GuiView {
    let gui = after_toggle_keys(gui, keys);
    if keys.r {
        gui.reset_timer()
    } else {
        gui
    }
}

/// The front end after the toggle, reset and quit keys of `keys`.
pub open spec fn after_quit_key(gui: GuiView, keys: KeysPressed) -> GuiView {
    let gui = after_reset_key(gui, keys);
    if keys.q {
        GuiView { allow_exit: true, ..gui }
    } else {
        gui
    }
}

/// The front end after all the keys of `keys`.
pub open spec fn after_keys(gui: GuiView, keys: KeysPressed) -> GuiView {
    let gui = after_quit_key(gui, keys);
    if keys.a {
        gui.set_one_minute()
    } else {
        gui
    }
}

/// Whether [`inputs_gui`] may be called with `keys`: its outcome fits.
pub fn keys_fit(keys: &KeysPressed, my_gui: &MyGuiApp) -> (ok: bool)
    ensures
        ok == after_keys(my_gui@, *keys).fits(),
{
    let toggled = keys.s || keys.space;
    let stopped = keys.r || (!toggled && my_gui.timer.state == TimerState::Stopped);
    if keys.r && my_gui.minutes > u64::MAX / 60 {
        return false;
    }
    let remaining = if keys.r {
        my_gui.minutes * 60
    } else {
        my_gui.timer.remaining
    };
    !keys.a || (remaining <= u64::MAX - 60
        && (!stopped || (my_gui.minutes < u64::MAX && my_gui.timer.start_time < u64::MAX)))
}

/// Applies the shortcut keys of one frame to the front end.
pub fn inputs_gui(keys: &KeysPressed, my_gui: &mut MyGuiApp)
    requires
        after_keys(old(my_gui)@, *keys).fits(),
    ensures
        final(my_gui)@ == after_keys(old(my_gui)@, *keys),
{
    if keys.s || keys.space {
        my_gui.toggle_timer();
    }
    if keys.r {
        my_gui.reset_timer();
    }
    if keys.q {
        my_gui.allow_exit = true;
    }
    if keys.a {
        my_gui.set_one_minute();
    }
}

/// Shortcuts keep the slider and the timer in agreement on the configured
/// duration, and with no key down nothing changes.
pub proof fn lemma_keys_keep_sync(gui: GuiView, keys: KeysPressed)
    ensures
        gui.in_sync() ==> after_keys(gui, keys).in_sync(),
        after_keys(gui, KeysPressed::none()) == gui,
{
}

/// No shortcut stops a timer that has time left but `R`: without it, a
/// timer that was running or paused is still one or the other.
pub proof fn lemma_keys_stop_only_on_reset(gui: GuiView, keys: KeysPressed)
    requires
        !keys.r,
    ensures
        gui.timer.state != TimerState::Stopped
            ==> after_keys(gui, keys).timer.state != TimerState::Stopped,
{
}

} // verus!
