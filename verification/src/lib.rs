//! Native functions for a script engine: dynamic values, the rules by which a
//! host function is exported to scripts, the adapter that calls it through the
//! uniform calling convention, and the array and time packages built on them.

pub mod dynamic;
pub mod text;
pub mod error;
pub mod engine;
pub mod packages;
pub mod signature;
pub mod rules;
pub mod export;
pub mod plugin;
pub mod laws;
