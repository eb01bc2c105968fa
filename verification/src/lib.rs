//! Verified core of an analog-clock renderer for a small monochrome display.
//!
//! The crate turns a time-of-day value and a snapshot of five push buttons
//! into drawable primitives (lines and circles), and schedules the redraws
//! that two independent hardware event sources request.  Everything here is
//! pure integer logic with proved contracts; the platform layer around the
//! crate reads the hardware clock, samples the button lines, resolves phases
//! into fixed-point unit vectors, and executes the emitted display operations
//! on the real device.

pub mod buttons;
pub mod geometry;
pub mod layout;
pub mod primitives;
pub mod queue;
pub mod scheduler;
pub mod timing;
