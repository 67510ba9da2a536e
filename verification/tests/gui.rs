use sands_timer::gui::{color_from_state, current_state_text, MyGuiApp, StateColor};
use sands_timer::inputs::{inputs_gui, keys_fit, KeysPressed};
use sands_timer::text_lib::{Language, Titles, Translator};
use sands_timer::timer::{Expiry, Timer, TimerState};

fn english(minutes: u64, now: u64) -> MyGuiApp {
    MyGuiApp::with_translator(Timer::new(minutes), now, Translator::new(Language::EnglishUS))
}

fn no_keys() -> KeysPressed {
    KeysPressed { s: false, space: false, r: false, q: false, a: false }
}

#[test]
fn front_end_starts_from_the_timer() {
    let app = english(30, 5_000);
    assert_eq!(app.minutes, 30);
    assert_eq!(app.last_tick, 5_000);
    assert_eq!(app.next_repaint, 6_000);
    assert_eq!(app.timer.remaining, 1800);
    assert_eq!(app.timer.state, TimerState::Stopped);
    assert!(!app.allow_exit);
    assert!(app.is_sound_notify);
    assert_eq!(app.get_translator_str(Titles::Slider), "MINUTES");
}

#[test]
fn front_end_shows_whole_minutes_left() {
    let mut timer = Timer::new(2);
    timer.toggle();
    timer.tick();
    let app = MyGuiApp::with_translator(timer, 0, Translator::new(Language::German));
    assert_eq!(app.timer.remaining, 119);
    assert_eq!(app.minutes, 1);
    assert_eq!(app.current_state(), TimerState::Running);
}

#[test]
fn front_end_in_the_system_language() {
    let app = MyGuiApp::new(Timer::new(30), 10);
    assert_eq!(app.minutes, 30);
    assert_eq!(app.last_tick, 10);
    assert_eq!(app.next_repaint, 1_010);
    assert!(!app.allow_exit);
    assert!(app.is_sound_notify);
    assert!(!app.get_translator_str(Titles::Header).is_empty());
}

#[test]
fn time_is_shown_as_minutes_and_seconds() {
    let mut app = english(30, 0);
    assert_eq!(app.format_time(), "30:00");
    app.toggle_timer();
    app.update(1_000);
    assert_eq!(app.format_time(), "29:59");
    app.minutes = 120;
    app.update_minutes();
    assert_eq!(app.format_time(), "120:00");
    app.minutes = 0;
    app.update_minutes();
    assert_eq!(app.format_time(), "00:00");
}

#[test]
fn slider_reconfigures_the_timer() {
    let mut app = english(30, 0);
    app.minutes = 45;
    app.update_minutes();
    assert_eq!(app.timer.remaining, 2700);
    assert_eq!(app.timer.start_time, 45);
    assert_eq!(app.timer.state, TimerState::Stopped);
}

#[test]
fn toggle_takes_over_the_sound_checkbox() {
    let mut app = english(1, 0);
    app.is_sound_notify = false;
    assert!(app.timer.sound_notify);
    app.toggle_timer();
    assert!(!app.timer.sound_notify);
    assert_eq!(app.current_state(), TimerState::Running);
    app.is_sound_notify = true;
    app.toggle_timer();
    assert!(app.timer.sound_notify);
    assert_eq!(app.current_state(), TimerState::Paused);
    app.toggle_timer();
    assert_eq!(app.current_state(), TimerState::Running);
}

#[test]
fn reset_arms_with_the_slider_value() {
    let mut app = english(30, 0);
    app.toggle_timer();
    app.update(1_000);
    app.update(2_000);
    assert_eq!(app.timer.remaining, 1798);
    app.reset_timer();
    assert_eq!(app.current_state(), TimerState::Stopped);
    assert_eq!(app.timer.remaining, 1800);
}

#[test]
fn added_minute_moves_the_slider_only_while_stopped() {
    let mut app = english(5, 0);
    app.set_one_minute();
    assert_eq!(app.minutes, 6);
    assert_eq!(app.timer.start_time, 6);
    assert_eq!(app.timer.remaining, 360);
    app.toggle_timer();
    app.set_one_minute();
    assert_eq!(app.minutes, 6);
    assert_eq!(app.timer.start_time, 6);
    assert_eq!(app.timer.remaining, 420);
    app.toggle_timer();
    app.set_one_minute();
    assert_eq!(app.minutes, 6);
    assert_eq!(app.timer.start_time, 6);
    assert_eq!(app.timer.remaining, 480);
}

#[test]
fn button_starts_or_adds_a_minute() {
    assert_eq!(MyGuiApp::button_title(true), Titles::StartButton);
    assert_eq!(MyGuiApp::button_title(false), Titles::AddMinutes);
    let mut app = english(5, 0);
    let frame = app.update(10);
    assert!(frame.no_active_timer);
    app.button_pressed(frame.no_active_timer);
    assert_eq!(app.current_state(), TimerState::Running);
    assert_eq!(app.timer.remaining, 300);
    let frame = app.update(20);
    assert!(!frame.no_active_timer);
    app.button_pressed(frame.no_active_timer);
    assert_eq!(app.current_state(), TimerState::Running);
    assert_eq!(app.timer.remaining, 360);
    assert_eq!(app.minutes, 5);
}

#[test]
fn frame_ticks_once_a_second() {
    let mut app = english(1, 0);
    app.toggle_timer();
    let frame = app.update(999);
    assert_eq!(frame.alert, None);
    assert_eq!(app.timer.remaining, 60);
    assert_eq!(app.last_tick, 0);
    assert_eq!(app.next_repaint, 1_099);
    app.update(1_000);
    assert_eq!(app.timer.remaining, 59);
    assert_eq!(app.last_tick, 1_000);
    assert_eq!(app.next_repaint, 1_100);
    app.update(1_100);
    app.update(1_999);
    assert_eq!(app.timer.remaining, 59);
    assert_eq!(app.last_tick, 1_000);
    app.update(2_050);
    assert_eq!(app.timer.remaining, 58);
    assert_eq!(app.last_tick, 2_050);
}

#[test]
fn late_frame_is_not_made_up_for() {
    let mut app = english(1, 0);
    app.toggle_timer();
    app.update(10_000);
    assert_eq!(app.timer.remaining, 59);
    assert_eq!(app.last_tick, 10_000);
    app.update(10_500);
    assert_eq!(app.timer.remaining, 59);
}

#[test]
fn clock_behind_the_last_tick_counts_as_no_time() {
    let mut app = english(1, 5_000);
    app.toggle_timer();
    let frame = app.update(100);
    assert_eq!(frame.alert, None);
    assert_eq!(app.timer.remaining, 60);
    assert_eq!(app.last_tick, 5_000);
    assert_eq!(app.next_repaint, 200);
}

#[test]
fn second_restarts_even_when_the_timer_is_idle() {
    let mut app = english(1, 0);
    app.update(1_500);
    assert_eq!(app.last_tick, 1_500);
    assert_eq!(app.timer.remaining, 60);
    app.toggle_timer();
    app.update(2_000);
    assert_eq!(app.timer.remaining, 60);
    app.update(2_500);
    assert_eq!(app.timer.remaining, 59);
}

#[test]
fn frame_reports_the_expiry() {
    let mut app = english(1, 0);
    app.is_sound_notify = false;
    app.toggle_timer();
    let mut alerts = Vec::new();
    for second in 1..=60u64 {
        let frame = app.update(second * 1_000);
        if let Some(alert) = frame.alert {
            alerts.push((second, alert));
            assert!(frame.no_active_timer);
            assert_eq!(frame.state_text, "The timer is not running");
            assert_eq!(frame.state_color, StateColor::Red);
        } else {
            assert!(!frame.no_active_timer);
        }
    }
    assert_eq!(alerts, vec![(60, Expiry { sound: false })]);
    assert_eq!(app.current_state(), TimerState::Stopped);
    assert_eq!(app.timer.remaining, 60);
    for second in 61..=70u64 {
        assert_eq!(app.update(second * 1_000).alert, None);
    }
}

#[test]
fn state_line_follows_the_run_state() {
    let mut app = english(5, 0);
    assert_eq!(current_state_text(&app), "The timer is not running");
    assert_eq!(color_from_state(&app), StateColor::Red);
    app.toggle_timer();
    assert_eq!(current_state_text(&app), "Time is passing, FULL FOCUS.");
    assert_eq!(color_from_state(&app), StateColor::Green);
    let frame = app.update(1);
    assert_eq!(frame.state_text, "Time is passing, FULL FOCUS.");
    assert_eq!(frame.state_color, StateColor::Green);
    assert!(!frame.no_active_timer);
    app.toggle_timer();
    assert_eq!(current_state_text(&app), "Pause, you need to take a break");
    assert_eq!(color_from_state(&app), StateColor::Yellow);
    app.system_lang = Translator::new(Language::Russian);
    assert_eq!(current_state_text(&app), "Пауза, нужно сделать перерыв");
}

#[test]
fn keys_toggle_reset_quit_and_add() {
    let mut app = english(10, 0);
    inputs_gui(&KeysPressed { s: true, ..no_keys() }, &mut app);
    assert_eq!(app.current_state(), TimerState::Running);
    inputs_gui(&KeysPressed { space: true, ..no_keys() }, &mut app);
    assert_eq!(app.current_state(), TimerState::Paused);
    inputs_gui(&KeysPressed { a: true, ..no_keys() }, &mut app);
    assert_eq!(app.timer.remaining, 660);
    assert_eq!(app.minutes, 10);
    inputs_gui(&KeysPressed { r: true, ..no_keys() }, &mut app);
    assert_eq!(app.current_state(), TimerState::Stopped);
    assert_eq!(app.timer.remaining, 600);
    assert!(!app.allow_exit);
    inputs_gui(&KeysPressed { q: true, ..no_keys() }, &mut app);
    assert!(app.allow_exit);
    assert_eq!(app.current_state(), TimerState::Stopped);
    assert_eq!(app.timer.remaining, 600);
}

#[test]
fn no_keys_change_nothing() {
    let mut app = english(10, 7);
    app.toggle_timer();
    inputs_gui(&no_keys(), &mut app);
    assert_eq!(app.current_state(), TimerState::Running);
    assert_eq!(app.timer.remaining, 600);
    assert_eq!(app.minutes, 10);
    assert_eq!(app.last_tick, 7);
    assert!(!app.allow_exit);
}

#[test]
fn s_and_space_together_toggle_once() {
    let mut app = english(10, 0);
    inputs_gui(&KeysPressed { s: true, space: true, ..no_keys() }, &mut app);
    assert_eq!(app.current_state(), TimerState::Running);
}

#[test]
fn keys_of_one_frame_apply_in_order() {
    let mut app = english(10, 0);
    app.toggle_timer();
    app.update(1_000);
    assert_eq!(app.timer.remaining, 599);
    let all = KeysPressed { s: true, space: false, r: true, q: true, a: true };
    inputs_gui(&all, &mut app);
    assert_eq!(app.current_state(), TimerState::Stopped);
    assert_eq!(app.minutes, 11);
    assert_eq!(app.timer.start_time, 11);
    assert_eq!(app.timer.remaining, 660);
    assert!(app.allow_exit);
}

#[test]
fn guards_pass_in_ordinary_use() {
    let mut app = english(30, 0);
    assert!(app.can_update(16));
    assert!(app.can_update_minutes());
    assert!(app.can_reset_timer());
    assert!(app.can_set_one_minute());
    assert!(app.can_press_button(true));
    assert!(app.can_press_button(false));
    let all = KeysPressed { s: true, space: true, r: true, q: true, a: true };
    assert!(keys_fit(&all, &app));
    app.toggle_timer();
    assert!(app.can_update(1_000));
    assert!(keys_fit(&all, &app));
}

#[test]
fn frame_guard_watches_the_clock_and_the_rearm() {
    let mut app = english(1, 0);
    assert!(app.can_update(u64::MAX - 100));
    assert!(!app.can_update(u64::MAX - 99));
    assert!(!app.can_update(u64::MAX));

    app.timer.start_time = u64::MAX / 60 + 1;
    app.timer.remaining = 1;
    assert!(app.can_update(1_000));
    app.toggle_timer();
    assert!(app.can_update(999));
    assert!(!app.can_update(1_000));
    app.timer.remaining = 2;
    assert!(app.can_update(1_000));
    app.timer.remaining = 0;
    assert!(!app.can_update(1_000));
    app.timer.start_time = u64::MAX / 60;
    assert!(app.can_update(1_000));
    let frame = app.update(1_000);
    assert_eq!(frame.alert, Some(Expiry { sound: true }));
    assert_eq!(app.timer.remaining, 18446744073709551600);
}

#[test]
fn duration_guards_watch_the_seconds() {
    let mut app = english(1, 0);
    app.minutes = u64::MAX / 60;
    assert!(app.can_update_minutes());
    assert!(app.can_reset_timer());
    app.minutes = u64::MAX / 60 + 1;
    assert!(!app.can_update_minutes());
    assert!(!app.can_reset_timer());
    assert!(!keys_fit(&KeysPressed { r: true, ..no_keys() }, &app));
    assert!(keys_fit(&KeysPressed { s: true, q: true, ..no_keys() }, &app));
}

#[test]
fn add_guard_watches_seconds_and_minutes() {
    let mut app = english(1, 0);
    app.timer.remaining = u64::MAX - 60;
    assert!(app.can_set_one_minute());
    assert!(app.can_press_button(false));
    app.timer.remaining = u64::MAX - 59;
    assert!(!app.can_set_one_minute());
    assert!(!app.can_press_button(false));
    assert!(app.can_press_button(true));
    assert!(!keys_fit(&KeysPressed { a: true, ..no_keys() }, &app));
    assert!(keys_fit(&KeysPressed { r: true, a: true, ..no_keys() }, &app));

    app.timer.remaining = 60;
    app.minutes = u64::MAX;
    assert!(!app.can_set_one_minute());
    assert!(!keys_fit(&KeysPressed { a: true, ..no_keys() }, &app));
    assert!(keys_fit(&KeysPressed { s: true, a: true, ..no_keys() }, &app));
    app.toggle_timer();
    assert!(app.can_set_one_minute());
    assert!(!keys_fit(&KeysPressed { s: true, r: true, a: true, ..no_keys() }, &app));
    app.minutes = 1;
    app.timer.start_time = u64::MAX;
    assert!(app.can_set_one_minute());
    app.toggle_timer();
    assert!(app.can_set_one_minute());
    inputs_gui(&KeysPressed { a: true, ..no_keys() }, &mut app);
    assert_eq!(app.timer.start_time, u64::MAX);
    assert_eq!(app.timer.remaining, 120);
    app.reset_timer();
    assert!(!app.can_set_one_minute());
}
