//! Processor time of a container: the measurement, the per-minute rate between two
//! measurements, and the scaling by the container's core count.
use crate::rate::{
    calculate_time_difference, divide_by_cpu_count, lemma_one_core_keeps_value, normalized,
    per_minute, time_adjusted, CpuCount,
};
use crate::Result;
use vstd::prelude::*;

verus! {

/// Processor time of a container, in nanoseconds: cumulative counters in a measurement,
/// or the amount per minute in a rate.
#[derive(Clone, Copy, Debug, PartialEq, Eq, Structural)]
pub struct CgroupCpuStat {
    pub total_usage: u64,
    pub user: u64,
    pub system: u64,
}

/// Processor time of a container read at a certain time.
#[derive(Clone, Copy, Debug, PartialEq, Eq, Structural)]
pub struct CgroupCpuMeasurement {
    pub precise_time_ns: u64,
    pub stat: CgroupCpuStat,
}

impl CgroupCpuStat {
    /// Whether no counter of `self` is above the same counter of `next`.
    pub open spec fn not_above(self, next: CgroupCpuStat) -> bool {
        &&& self.total_usage <= next.total_usage
        &&& self.user <= next.user
        &&& self.system <= next.system
    }

    /// The per-minute rate of each counter from `self` to `next`, read `window_ns` apart.
    pub open spec fn rate_to(self, next: CgroupCpuStat, window_ns: u64) -> CgroupCpuStat {
        CgroupCpuStat {
            total_usage: per_minute(next.total_usage - self.total_usage, window_ns as int) as u64,
            user: per_minute(next.user - self.user, window_ns as int) as u64,
            system: per_minute(next.system - self.system, window_ns as int) as u64,
        }
    }

    /// Each counter divided by the core count `count`.
    pub open spec fn scaled(self, count: Option<CpuCount>) -> CgroupCpuStat {
        CgroupCpuStat {
            total_usage: normalized(self.total_usage, count),
            user: normalized(self.user, count),
            system: normalized(self.system, count),
        }
    }

    /// Divides every counter by the (possibly fractional) number of cores allotted to the
    /// container, rounding to the nearest integer. Without a known count nothing changes.
    pub fn by_cpu_count(&self, cpu_count: Option<CpuCount>) -> (r: CgroupCpuStat)
        ensures
            r == self.scaled(cpu_count),
    {
        CgroupCpuStat {
            total_usage: divide_by_cpu_count(self.total_usage, cpu_count),
            user: divide_by_cpu_count(self.user, cpu_count),
            system: divide_by_cpu_count(self.system, cpu_count),
        }
    }
}

/// Dividing a container's processor time by a known count of exactly one core leaves every
/// counter as it was.
pub proof fn lemma_one_core_keeps_stat(stat: CgroupCpuStat, count: CpuCount)
    requires
        count.known(),
        count.quota == count.period,
    ensures
        stat.scaled(Some(count)) == stat,
{
    lemma_one_core_keeps_value(stat.total_usage, count);
    lemma_one_core_keeps_value(stat.user, count);
    lemma_one_core_keeps_value(stat.system, count);
}

impl CgroupCpuMeasurement {
    /// The processor time per minute between this measurement and `next_measurement`, a
    /// later one. Fails with `InvalidInput` unless `next_measurement` was taken strictly
    /// later, and then with `UnexpectedContent` if a counter went down.
    pub fn calculate_per_minute(&self, next_measurement: &CgroupCpuMeasurement) -> (r: Result<
        CgroupCpuStat,
    >)
        ensures
            next_measurement.precise_time_ns <= self.precise_time_ns ==> r is Err
                && r->Err_0 is InvalidInput,
            self.precise_time_ns < next_measurement.precise_time_ns ==> (r is Ok
                <==> self.stat.not_above(next_measurement.stat)),
            self.precise_time_ns < next_measurement.precise_time_ns && !self.stat.not_above(
                next_measurement.stat,
            ) ==> r is Err && r->Err_0 is UnexpectedContent,
            r is Ok ==> r->Ok_0 == self.stat.rate_to(
                next_measurement.stat,
                (next_measurement.precise_time_ns - self.precise_time_ns) as u64,
            ),
    {
        let window = match calculate_time_difference(
            self.precise_time_ns,
            next_measurement.precise_time_ns,
        ) {
            Ok(w) => w,
            Err(e) => return Err(e),
        };
        let prev = &self.stat;
        let next = &next_measurement.stat;
        let total_usage = match time_adjusted("total_usage", next.total_usage, prev.total_usage, window) {
            Ok(v) => v,
            Err(e) => return Err(e),
        };
        let user = match time_adjusted("user", next.user, prev.user, window) {
            Ok(v) => v,
            Err(e) => return Err(e),
        };
        let system = match time_adjusted("system", next.system, prev.system, window) {
            Ok(v) => v,
            Err(e) => return Err(e),
        };
        Ok(CgroupCpuStat { total_usage, user, system })
    }
}

} // verus!
