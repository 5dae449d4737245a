//! A point-in-time host resource sampler.
//!
//! The library owns the arithmetic of three health readings: the number of
//! logical processors, the fraction of physical memory that is available, and
//! the fraction of CPU time spent non-idle over a fixed observation window.
//! The host queries themselves (processor topology, memory status, cumulative
//! system-time counters) and the one-second wait are external collaborators:
//! a caller reads the host and hands the raw values in, and receives each
//! reading back as an exact rational.

pub mod ratio;
pub mod sampler;
