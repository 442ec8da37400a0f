//! The deterministic core of a tick-based simulation: a tick-indexed table of
//! pending actions, an entity/component store, a two-stage schedule, and the
//! decisions of the driver loop.
use vstd::prelude::*;

pub mod action;
pub mod action_table;
pub mod components;
pub mod driver;
pub mod input;
pub mod runtime;
pub mod schedule;
pub mod simulation;
pub mod simulation_state;
pub mod systems;
pub mod tick;
pub mod world;
