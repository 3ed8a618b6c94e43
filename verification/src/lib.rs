//! Bridge between an audio-processing engine and its interactive control
//! surface: a latest-value channel for live signal measurements, a
//! transactional begin/update/end protocol for parameter edits, and the
//! peak-hold meter logic that turns measurements into a bounded display.

pub mod controls;
pub mod gesture;
pub mod level;
pub mod meter;
pub mod panel;
