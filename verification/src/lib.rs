//! Conway's Game of Life on a bounded grid, with an event-driven
//! interaction controller.
//!
//! The grid model ([`grid`]) owns the cell array, neighbor counting and the
//! generation transition rule; the controller ([`controller`]) owns the
//! session state (run flag, staged reset, tick gating) and translates
//! discrete input events into grid operations.

pub mod controller;
pub mod grid;
pub mod laws;
