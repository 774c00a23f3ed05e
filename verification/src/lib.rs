//! A recurring-interval timer engine: it counts elapsed seconds under a
//! steady one-second tick, fires periodic chime events at a configurable
//! interval, and stops after a configured total duration (a fixed number of
//! rounds or a fixed number of minutes).

pub mod engine;
pub mod laws;
pub mod parse;
