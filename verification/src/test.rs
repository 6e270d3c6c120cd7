//! Helpers for testing code that queries endpoints: clients that answer
//! from memory.

pub mod client;
