//! A multi-path file tailer's decision core: which bytes of which file to
//! show next, when to print a header, and how a delta of bytes becomes lines.
//!
//! The library performs no input or output. A driver looks up metadata,
//! reads bytes and talks to the kernel's notification facility; it hands the
//! results in as plain values and carries out the actions it gets back.

pub mod config;
pub mod engine;
pub mod laws;
pub mod lines;
pub mod output;
pub mod position;
pub mod registry;
pub mod startup;
pub mod text;
