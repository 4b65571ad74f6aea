//! Computation of the daily Islamic prayer times for a location and date.
//!
//! The crate works on plain integer quantities: angles in thousandths of a
//! degree, instants in whole seconds. The solar-position astronomy that
//! produces the raw sun-event instants is left to the caller (it is
//! floating-point work); everything downstream of those instants — calendar
//! arithmetic, method presets, night portions, high-latitude safety rules,
//! minute adjustments and rounding, and the schedule queries — lives here
//! and is verified.

pub mod adjustments;
pub mod angle;
pub mod calendar;
pub mod constants;
pub mod coordinates;
pub mod high_latitude_rule;
pub mod instant;
pub mod madhab;
pub mod method;
pub mod moonsighting;
pub mod num;
pub mod parameters;
pub mod polar_circle_resolution;
pub mod prayer_time;
pub mod prayer_times;
pub mod prayer;
pub mod twilight;

