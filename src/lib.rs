//! Samples of operating-system and container resource counters, and the rates derived
//! from two samples taken at different times.
mod clock;
pub mod container;
pub mod cpu;
pub mod disk_stats;
pub mod disk_usage;
pub mod error;
pub mod memory;
pub mod named;
pub mod network;
pub mod process_memory;
pub mod rate;
pub mod text;

pub use crate::error::ProbeError;
pub use crate::rate::{calculate_time_difference, time_adjusted, CpuCount};
pub use crate::text::parse_u64;

use vstd::prelude::*;

verus! {

/// The result type of every fallible operation of this crate.
pub type Result<T> = core::result::Result<T, ProbeError>;

} // verus!
