//! Decision core of a small-size-league robot soccer team.
//!
//! The library holds the world model, the motion and skill state machines, the
//! control-loop bookkeeping and the command rules. Numbers are carried as
//! [`math::Scalar`] values: the library stores and compares them exactly and
//! leaves arithmetic on them to its caller, who hands in what it measured.
pub mod actions;
pub mod control;
pub mod controllers;
pub mod math;
pub mod net;
pub mod trajectories;
pub mod viewer;
pub mod world;

use vstd::prelude::*;

verus! {

/// Period of the control loop, in milliseconds.
pub const CONTROL_PERIOD_MS: u64 = 10;

} // verus!
