//! Processor time of a container from cgroup version 1 accounting files.
use super::cgroup::{CgroupCpuMeasurement, CgroupCpuStat};
use crate::clock::precise_time_ns;
use crate::error::unexpected;
use crate::rate::{divide_by_cpu_count, normalized, CpuCount};
use crate::text::{
    char_vec, fields, first_line_value, opt_view, read_fields, text_is, text_value,
    value_of_first_line, value_of_text, words,
};
use crate::Result;
use vstd::prelude::*;

verus! {

/// Nanoseconds in one tick of the 100 Hz clock that `cpuacct.stat` counts in.
pub const NANOS_PER_TICK: u64 = 10_000_000;

/// The core count that the contents of `cpu.cfs_period_us` and `cpu.cfs_quota_us` give.
/// Both files must be present for a count; a quota of `-1` sets no limit, so no count.
/// `None` where a file present does not hold a number.
pub open spec fn v1_cpu_count(period: Option<Seq<char>>, quota: Option<Seq<char>>) -> Option<
    Option<CpuCount>,
> {
    match (period, quota) {
        (Some(p), Some(q)) => match text_value(p) {
            Some(pv) => if words(q) == seq!["-1"@] {
                Some(None)
            } else {
                match text_value(q) {
                    Some(qv) => Some(Some(CpuCount { quota: qv, period: pv })),
                    None => None,
                }
            },
            None => None,
        },
        _ => Some(None),
    }
}

/// The processor time that the contents of `cpuacct.stat` (`stat`), `cpuacct.usage`
/// (`usage`) and the optional period and quota files give; `None` where they are not in
/// the expected shape. `stat` must give `user` and `system` in ticks, which become
/// nanoseconds; the total usage, in nanoseconds, is divided by the core count.
pub open spec fn v1_stat(
    stat: Seq<char>,
    usage: Seq<char>,
    period: Option<Seq<char>>,
    quota: Option<Seq<char>>,
) -> Option<CgroupCpuStat> {
    match v1_cpu_count(period, quota) {
        Some(count) => match first_line_value(usage) {
            Some(total) => match fields(stat, seq!["user"@, "system"@]) {
                Some(f) => if f[0] is Some && f[1] is Some && f[0]->0 * NANOS_PER_TICK <= u64::MAX
                    && f[1]->0 * NANOS_PER_TICK <= u64::MAX {
                    Some(
                        CgroupCpuStat {
                            total_usage: normalized(total, count),
                            user: (f[0]->0 * NANOS_PER_TICK) as u64,
                            system: (f[1]->0 * NANOS_PER_TICK) as u64,
                        },
                    )
                } else {
                    None
                },
                None => None,
            },
            None => None,
        },
        None => None,
    }
}

/// The core count from the contents of the period and quota files; see `v1_cpu_count`.
fn cpu_count_from(cpu_period: Option<&str>, cpu_quota: Option<&str>) -> (r: Result<
    Option<CpuCount>,
>)
    ensures
        match r {
            Ok(c) => v1_cpu_count(opt_view(cpu_period), opt_view(cpu_quota)) == Some(c),
            Err(e) => v1_cpu_count(opt_view(cpu_period), opt_view(cpu_quota)) is None
                && e is UnexpectedContent,
        },
{
    match (cpu_period, cpu_quota) {
        (Some(period_text), Some(quota_text)) => {
            let period = match value_of_text(period_text) {
                Some(v) => v,
                None => return Err(unexpected("could not read the CPU period")),
            };
            proof {
                reveal_strlit("-1");
            }
            if text_is(quota_text, "-1") {
                return Ok(None);
            }
            match value_of_text(quota_text) {
                Some(quota) => Ok(Some(CpuCount::new(quota, period))),
                None => Err(unexpected("could not read the CPU quota")),
            }
        },
        _ => Ok(None),
    }
}

/// The processor time of a container, stamped with `precise_time_ns`, from the contents of
/// `cpuacct.stat`, `cpuacct.usage` and, where both files exist, `cpu.cfs_period_us` and
/// `cpu.cfs_quota_us`; see `v1_stat`.
pub fn parse_v1_sys_stat(
    stat: &str,
    usage: &str,
    cpu_period: Option<&str>,
    cpu_quota: Option<&str>,
    precise_time_ns: u64,
) -> (r: Result<CgroupCpuMeasurement>)
    ensures
        r is Ok <==> v1_stat(stat@, usage@, opt_view(cpu_period), opt_view(cpu_quota)) is Some,
        r is Ok ==> r->Ok_0.precise_time_ns == precise_time_ns && Some(r->Ok_0.stat) == v1_stat(
            stat@,
            usage@,
            opt_view(cpu_period),
            opt_view(cpu_quota),
        ),
        r is Err ==> r->Err_0 is UnexpectedContent,
{
    let count = match cpu_count_from(cpu_period, cpu_quota) {
        Ok(c) => c,
        Err(e) => return Err(e),
    };
    let total = match value_of_first_line(usage) {
        Some(v) => v,
        None => return Err(unexpected("could not read the total CPU usage")),
    };
    let keys = vec![char_vec("user"), char_vec("system")];
    proof {
        assert(crate::text::key_views(keys@) =~= seq!["user"@, "system"@]);
    }
    let found = match read_fields(stat, &keys) {
        Some(f) => f,
        None => return Err(unexpected("malformed line in the CPU accounting statistics")),
    };
    let (user, system) = match (found[0], found[1]) {
        (Some(u), Some(s)) => (u, s),
        _ => return Err(unexpected("did not encounter all expected fields")),
    };
    if user > u64::MAX / NANOS_PER_TICK || system > u64::MAX / NANOS_PER_TICK {
        return Err(unexpected("CPU time out of range"));
    }
    let cpu = CgroupCpuStat {
        total_usage: divide_by_cpu_count(total, count),
        user: user * NANOS_PER_TICK,
        system: system * NANOS_PER_TICK,
    };
    Ok(CgroupCpuMeasurement { precise_time_ns, stat: cpu })
}

/// The processor time of a container, stamped with the clock now, from the contents of its
/// accounting files; see `parse_v1_sys_stat`.
pub fn read_and_parse_v1_sys_stat(
    stat: &str,
    usage: &str,
    cpu_period: Option<&str>,
    cpu_quota: Option<&str>,
) -> (r: Result<CgroupCpuMeasurement>)
    ensures
        r is Ok <==> v1_stat(stat@, usage@, opt_view(cpu_period), opt_view(cpu_quota)) is Some,
        r is Ok ==> Some(r->Ok_0.stat) == v1_stat(
            stat@,
            usage@,
            opt_view(cpu_period),
            opt_view(cpu_quota),
        ),
        r is Err ==> r->Err_0 is UnexpectedContent,
{
    let time = precise_time_ns();
    parse_v1_sys_stat(stat, usage, cpu_period, cpu_quota, time)
}

} // verus!
