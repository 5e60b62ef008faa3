//! Execution core of a status-line generator: block kinds, the per-block
//! command API, error recovery and shared configuration, with the computing
//! parts of two example blocks.

pub mod api;
pub mod config;
pub mod disk_space;
pub mod kinds;
pub mod outside;
pub mod pomodoro;
pub mod recovery;
