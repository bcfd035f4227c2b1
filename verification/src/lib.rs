//! The core of a desktop application shell: a severity gate that can be
//! re-tuned while the process runs, the fan-out of log records to a fixed set
//! of sinks, and the visibility of the main window as driven by commands and
//! tray clicks.
//!
//! Everything here computes on plain values. The embedding application owns
//! the windows, the streams and the event loop; it hands observations in and
//! carries the returned actions out.

pub mod command;
pub mod composer;
pub mod error;
pub mod facade;
pub mod gate;
pub mod level;
pub mod sink;
pub mod text;
pub mod window;
