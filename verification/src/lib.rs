//! Comparing the peak heap use of a program built with two toolchains.
//!
//! The library describes the commands to run, decides what the outcome of a
//! command means, with or without a deadline, and finds the peak heap size in
//! a heap profiler's report.
//!
//! Every function here works on plain values: lines of text, captured bytes,
//! exit codes. Starting processes and reading files is left to the caller.

pub mod command;
pub mod report;
pub mod steps;
pub mod text;
pub mod timed;
