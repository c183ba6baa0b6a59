//! A sit/stand interval timer: a two-phase state machine driven by a clock,
//! and the text shown for it.

pub mod phase;
pub mod display;
pub mod timer;
mod clock;
pub mod lemmas;
pub mod args;
