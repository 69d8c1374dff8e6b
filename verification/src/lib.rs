//! Motion-control logic for a small single-motor flight device.
//!
//! The library models the device's control core in plain integer
//! arithmetic: the command-frame codec and motor governor, the
//! two-slot receive buffer fed by a background copy engine, the
//! capacity-bounded task slot of the streaming loop, and the
//! orientation estimator (gyro calibration, fusion, telemetry
//! serialization).  Angles and rates are fixed-point values in
//! millionths of a unit, so every step of the estimator is exact
//! and verified; the hardware drivers that feed these functions
//! live outside the library.

pub mod command;
pub mod estimator;
pub mod orientation;
pub mod rx;
pub mod sched;
pub mod vec3;
