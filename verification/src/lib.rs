//! Verified core of a serial-port stdio bridge.
//!
//! The library holds the logic of the bridge: classification of adapter
//! failures, command-line value resolution, the lifecycle of a split serial
//! device handle, the two byte-copy loops, and the shutdown watcher's state
//! machine. The surrounding process (syscalls through the native adapter,
//! threads, signal registration) drives these functions and performs the
//! actions they decide.

pub mod config;
pub mod device;
pub mod duplex;
pub mod error;
pub mod watcher;
