//! A box-breathing animation model: a four-phase cycle with a timer inside
//! each phase, the disc scale and hue derived from it, and a frame scheduler
//! that feeds wall-clock time into the model and rate-limits drawing.
//!
//! Time is counted in whole nanoseconds. Scale and hue are fixed-point
//! integers in millionths (of the unit scale, and of a degree).

pub mod easing;
pub mod breathe;
pub mod scheduler;
