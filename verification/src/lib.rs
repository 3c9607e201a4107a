//! Animated half-block color field for a terminal, with frame-rate
//! tracking, a cyclic choice of output stream and buffering mode, and
//! the input-driven control loop that ties them together.
//!
//! The library holds the state, sizing, compositing and switching
//! logic; the terminal itself (raw mode, alternate screen, the actual
//! writes) is driven by a thin unverified front end that feeds plain
//! values in and out: surface sizes, monotonic millisecond times, and
//! key events.

pub mod app;
pub mod color;
pub mod compose;
pub mod cycle;
pub mod fps;
pub mod layout;
pub mod noise;
pub mod numtext;
pub mod profiler;
pub mod rawout;
pub mod rng;
