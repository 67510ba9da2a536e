//! Countdown timer core: a three-state machine driven by a one-second tick,
//! with the display text, the localized labels and the state of its front end.

pub mod display;
pub mod gui;
pub mod inputs;
pub mod labels;
pub mod text_lib;
pub mod timer;
