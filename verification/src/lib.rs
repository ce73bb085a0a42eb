//! A status-bar pomodoro widget: a verified work/break interval state
//! machine, a small format-template engine that renders its status as text,
//! and a block controller that routes mouse input to the timer and produces
//! the display text on each poll.

pub mod block;
pub mod digits;
pub mod errors;
pub mod template;
pub mod timer;
