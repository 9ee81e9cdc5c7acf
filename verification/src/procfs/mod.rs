//! Kernel, memory and process statistics from `/proc`.

pub mod kernel;
pub mod memory;
pub mod names;
pub mod process;
pub mod network;
pub mod watch;
pub mod config;
