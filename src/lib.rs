//! A picker of things to do: an ordered list of things and a one-step undo log,
//! each kept as a text file with one entry per line.
pub mod error;
pub mod lines;
pub mod record;
pub mod store;
pub mod data;
pub mod laws;
