//! The decisions of an emulator's host loop, verified.
//!
//! An emulated machine is stepped in batches of cycles by an engine that
//! knows nothing of wall-clock time. Its host makes it behave as a machine in
//! real time: it holds the engine back until the clock has caught up with the
//! cycles of each step, presents frames no more often than the display can
//! show them, and turns the polled state of the keyboard into key-down and
//! key-up events.
//!
//! This library holds what the host decides, and none of what it does. The
//! host reads the clock, owns the window and steps the engine; it hands what
//! it saw to the library as plain values and is told what to do next.
//!
//! - [`clock`]: clock marks and the time between two of them.
//! - [`keys`]: the keys of the host and of the emulated keyboard.
//! - [`snapshot`] and [`edges`]: held keys, and the edges between two polls.
//! - [`throttle`]: when a frame is due.
//! - [`pacer`]: how long a step of the engine has to take, with
//!   [`rounding`] for the whole nanoseconds of it.
//! - [`run_loop`]: one pass of the interactive loop after the other.
//! - [`benchmark`]: the unpaced run that measures the engine.
//! - [`rom`]: the check of a ROM image before the machine is built.

pub mod benchmark;
pub mod clock;
pub mod edges;
pub mod keys;
pub mod pacer;
pub mod rom;
pub mod rounding;
pub mod run_loop;
pub mod snapshot;
pub mod throttle;
