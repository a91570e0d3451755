//! Memory use: of the whole system from `/proc/meminfo`, and of a container from its cgroup
//! (version 1 or 2) accounting files. Amounts are in kilobytes.
pub mod cgroup_v1;
pub mod cgroup_v2;
pub mod proc;

use crate::text::first_line_value;
use vstd::prelude::*;

verus! {

/// Memory use in kilobytes. A field that the source does not report is `None`, which is
/// not the same as a reported zero.
#[derive(Clone, Copy, Debug, PartialEq, Eq, Structural)]
pub struct Memory {
    pub total: Option<u64>,
    pub free: Option<u64>,
    pub used: u64,
    pub buffers: Option<u64>,
    pub cached: Option<u64>,
    pub shmem: Option<u64>,
    pub swap_total: Option<u64>,
    pub swap_free: Option<u64>,
    pub swap_used: Option<u64>,
}

/// Whole kilobytes in `bytes` bytes.
pub open spec fn kb(bytes: u64) -> u64 {
    bytes / 1024
}

/// Whole kilobytes in an optional number of bytes.
pub open spec fn opt_kb(bytes: Option<u64>) -> Option<u64> {
    match bytes {
        Some(b) => Some(kb(b)),
        None => None,
    }
}

/// `a - b`, or zero where `b` is larger.
pub open spec fn sat_sub(a: u64, b: u64) -> u64 {
    if a >= b {
        (a - b) as u64
    } else {
        0
    }
}

/// `a - b` where both are known, held at zero.
pub open spec fn opt_sat_sub(a: Option<u64>, b: Option<u64>) -> Option<u64> {
    match (a, b) {
        (Some(x), Some(y)) => Some(sat_sub(x, y)),
        _ => None,
    }
}

/// The number on the first line of an optional file, where the file was read and holds one.
pub open spec fn opt_value(s: Option<Seq<char>>) -> Option<u64> {
    match s {
        Some(t) => first_line_value(t),
        None => None,
    }
}

/// Kilobytes in `bytes` bytes, rounded down.
pub fn bytes_to_kilo_bytes(bytes: u64) -> (r: u64)
    ensures
        r == kb(bytes),
{
    bytes / 1024
}

/// Kilobytes in an optional number of bytes.
pub fn opt_bytes_to_kilo_bytes(bytes: Option<u64>) -> (r: Option<u64>)
    ensures
        r == opt_kb(bytes),
{
    match bytes {
        Some(b) => Some(bytes_to_kilo_bytes(b)),
        None => None,
    }
}

/// `a - b` where both are known, held at zero.
pub fn opt_saturating_sub(a: Option<u64>, b: Option<u64>) -> (r: Option<u64>)
    ensures
        r == opt_sat_sub(a, b),
{
    match (a, b) {
        (Some(x), Some(y)) => Some(x.saturating_sub(y)),
        _ => None,
    }
}

impl Memory {
    /// Total amount of physical memory in kilobytes.
    pub fn total(&self) -> (r: Option<u64>)
        ensures
            r == self.total,
    {
        self.total
    }

    /// Free physical memory in kilobytes, counting buffers and caches.
    pub fn free(&self) -> (r: Option<u64>)
        ensures
            r == self.free,
    {
        self.free
    }

    /// Used physical memory in kilobytes.
    pub fn used(&self) -> (r: u64)
        ensures
            r == self.used,
    {
        self.used
    }

    /// Total amount of swap space in kilobytes.
    pub fn swap_total(&self) -> (r: Option<u64>)
        ensures
            r == self.swap_total,
    {
        self.swap_total
    }

    /// Free swap space in kilobytes.
    pub fn swap_free(&self) -> (r: Option<u64>)
        ensures
            r == self.swap_free,
    {
        self.swap_free
    }

    /// Used swap space in kilobytes.
    pub fn swap_used(&self) -> (r: Option<u64>)
        ensures
            r == self.swap_used,
    {
        self.swap_used
    }

    /// Shared memory in kilobytes.
    pub fn shmem(&self) -> (r: Option<u64>)
        ensures
            r == self.shmem,
    {
        self.shmem
    }
}

} // verus!
