//! Per-tick combat resolution for a real-time tactical simulation.

pub mod components;
pub mod store;
pub mod rules;
pub mod systems;
pub mod laws;
