//! Motion-control core for a two-axis pen plotter.
//!
//! The crate turns a stream of decoded drawing commands into coordinated,
//! closed-loop movement of two independently driven axes.  It owns the
//! trajectory queue, the geometric model of each motion segment, the
//! per-axis speed estimation with stall detection, a one-shot deadline
//! gate for actuator settle time, and the tick-driven dual-axis tracking
//! and drift-correction algorithm.  Everything that touches hardware
//! (sensors, motors, the clock, command transport) stays outside: callers
//! hand in positions, timestamps and decoded commands, and take drive
//! commands back.

pub mod buf_writer;
pub mod interpolator;
pub mod motion_controller;
pub mod opto;
pub mod opto_encoder;
pub mod pen;
pub mod sequence;
pub mod sequence_wrapper;
pub mod speed_calc;
pub mod speed_profile;
pub mod stop_timer;
pub mod trig;
