//! The packages of native functions that come with the engine.

pub mod array_basic;
pub mod time_basic;
