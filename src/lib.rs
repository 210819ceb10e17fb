//! Measurement core of a tank-level monitor: ultrasonic echo timing, a
//! bounded hand-off of edge timestamps, median filtering of repeated samples
//! and the periodic sampling cycle that drives them.
//!
//! Distances are fixed-point values in hundredths of a centimetre; timestamps
//! are microseconds on a monotonic clock.

pub mod echo;
pub mod filter;
pub mod ranging;
pub mod scheduler;
