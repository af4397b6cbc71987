//! Control logic of a null-geodesic tracer for Kerr spacetimes.
//!
//! The numerical kernel works in double precision; this library holds the
//! decisions that surround it, each stated and proved over plain values:
//! how a trajectory ends, the driver's run state machine and its
//! renormalization schedule, the layout of tensors and phase-space states,
//! and the selectors that pick a chart or an orbit.

pub mod driver;
pub mod layout;
pub mod metric;
pub mod tableau;
pub mod termination;
