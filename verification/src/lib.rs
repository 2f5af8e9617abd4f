//! Disk throughput benchmark engine.
//!
//! The library holds the benchmark session, the write- and read-phase
//! loops, offset and block generation, and the statistics and report
//! generation. Durations are carried as whole nanoseconds. The actual
//! file operations are injected by the caller as a closure, so the
//! engine's bookkeeping is independent of the operating system.

pub mod error;
pub mod gen;
pub mod progress;
pub mod report;
pub mod session;
pub mod stats;

pub use error::Error;
pub use session::Benchmark;
