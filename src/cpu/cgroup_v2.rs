//! Processor time of a container from cgroup version 2 accounting files.
use super::cgroup::{CgroupCpuMeasurement, CgroupCpuStat};
use crate::clock::precise_time_ns;
use crate::error::unexpected;
use crate::rate::CpuCount;
use crate::text::{char_vec, fields, lines, opt_view, read_fields, u64_value, words, Words};
use crate::Result;
use vstd::prelude::*;

verus! {

/// Nanoseconds in a microsecond, the unit of `cpu.stat`.
pub const NANOS_PER_MICRO: u64 = 1_000;

/// The core count that the contents of `cpu.max` give: its first line holds the quota and
/// the period, or `max` for no limit. A missing or empty file gives no count; `None` where
/// the first line is not in that shape.
pub open spec fn v2_cpu_count(max: Option<Seq<char>>) -> Option<Option<CpuCount>> {
    match max {
        Some(m) => if lines(m).len() == 0 {
            Some(None)
        } else {
            let w = words(lines(m)[0]);
            if w.len() == 0 {
                None
            } else if w[0] == "max"@ {
                Some(None)
            } else if w.len() < 2 {
                None
            } else {
                match (u64_value(w[0]), u64_value(w[1])) {
                    (Some(q), Some(p)) => Some(Some(CpuCount { quota: q, period: p })),
                    _ => None,
                }
            }
        },
        None => Some(None),
    }
}

/// The processor time that the contents of `cpu.stat` (`stat`) give, with the core count
/// `cpu_count` where the caller gives one and else the one of `cpu.max` (`max`); `None`
/// where the files are not in the expected shape. `stat` must give `usage_usec`,
/// `user_usec` and `system_usec`, which become nanoseconds and are then divided by the core
/// count.
pub open spec fn v2_stat(
    stat: Seq<char>,
    max: Option<Seq<char>>,
    cpu_count: Option<CpuCount>,
) -> Option<CgroupCpuStat> {
    let count = match cpu_count {
        Some(c) => Some(Some(c)),
        None => v2_cpu_count(max),
    };
    match count {
        Some(c) => match fields(stat, seq!["usage_usec"@, "user_usec"@, "system_usec"@]) {
            Some(f) => if f[0] is Some && f[1] is Some && f[2] is Some && f[0]->0
                * NANOS_PER_MICRO <= u64::MAX && f[1]->0 * NANOS_PER_MICRO <= u64::MAX && f[2]->0
                * NANOS_PER_MICRO <= u64::MAX {
                Some(
                    CgroupCpuStat {
                        total_usage: (f[0]->0 * NANOS_PER_MICRO) as u64,
                        user: (f[1]->0 * NANOS_PER_MICRO) as u64,
                        system: (f[2]->0 * NANOS_PER_MICRO) as u64,
                    }.scaled(c),
                )
            } else {
                None
            },
            None => None,
        },
        None => None,
    }
}

/// The core count from the contents of `cpu.max`; see `v2_cpu_count`.
fn cpu_count_from_max(max: &str) -> (r: Result<Option<CpuCount>>)
    ensures
        match r {
            Ok(c) => v2_cpu_count(Some(max@)) == Some(c),
            Err(e) => v2_cpu_count(Some(max@)) is None && e is UnexpectedContent,
        },
{
    let t = Words::new(max);
    if t.rows.len() == 0 {
        return Ok(None);
    }
    if t.row_len(0) == 0 {
        return Err(unexpected("empty line in cpu.max"));
    }
    if t.word_is(0, 0, &char_vec("max")) {
        return Ok(None);
    }
    if t.row_len(0) < 2 {
        return Err(unexpected("no period in cpu.max"));
    }
    match (t.word_u64(0, 0), t.word_u64(0, 1)) {
        (Some(quota), Some(period)) => Ok(Some(CpuCount::new(quota, period))),
        _ => Err(unexpected("could not read the quota and period of cpu.max")),
    }
}

/// The processor time of a container, stamped with `precise_time_ns`, from the contents of
/// `cpu.stat` and, where it exists, `cpu.max`; `cpu_count`, where given, takes the place of
/// the count in `cpu.max`. See `v2_stat`.
pub fn parse_v2_sys_stat(
    stat: &str,
    cpu_max: Option<&str>,
    cpu_count: Option<CpuCount>,
    precise_time_ns: u64,
) -> (r: Result<CgroupCpuMeasurement>)
    ensures
        r is Ok <==> v2_stat(stat@, opt_view(cpu_max), cpu_count) is Some,
        r is Ok ==> r->Ok_0.precise_time_ns == precise_time_ns && Some(r->Ok_0.stat) == v2_stat(
            stat@,
            opt_view(cpu_max),
            cpu_count,
        ),
        r is Err ==> r->Err_0 is UnexpectedContent,
{
    let count = match cpu_count {
        Some(c) => Some(c),
        None => match cpu_max {
            Some(text) => match cpu_count_from_max(text) {
                Ok(c) => c,
                Err(e) => return Err(e),
            },
            None => None,
        },
    };
    let keys = vec![char_vec("usage_usec"), char_vec("user_usec"), char_vec("system_usec")];
    proof {
        assert(crate::text::key_views(keys@) =~= seq!["usage_usec"@, "user_usec"@, "system_usec"@]);
    }
    let found = match read_fields(stat, &keys) {
        Some(f) => f,
        None => return Err(unexpected("malformed line in cpu.stat")),
    };
    let (usage, user, system) = match (found[0], found[1], found[2]) {
        (Some(a), Some(u), Some(s)) => (a, u, s),
        _ => return Err(unexpected("did not encounter all expected fields")),
    };
    if usage > u64::MAX / NANOS_PER_MICRO || user > u64::MAX / NANOS_PER_MICRO || system > u64::MAX
        / NANOS_PER_MICRO {
        return Err(unexpected("CPU time out of range"));
    }
    let cpu = CgroupCpuStat {
        total_usage: usage * NANOS_PER_MICRO,
        user: user * NANOS_PER_MICRO,
        system: system * NANOS_PER_MICRO,
    };
    Ok(CgroupCpuMeasurement { precise_time_ns, stat: cpu.by_cpu_count(count) })
}

/// The processor time of a container, stamped with the clock now; see `parse_v2_sys_stat`.
pub fn read_and_parse_v2_sys_stat(
    stat: &str,
    cpu_max: Option<&str>,
    cpu_count: Option<CpuCount>,
) -> (r: Result<CgroupCpuMeasurement>)
    ensures
        r is Ok <==> v2_stat(stat@, opt_view(cpu_max), cpu_count) is Some,
        r is Ok ==> Some(r->Ok_0.stat) == v2_stat(stat@, opt_view(cpu_max), cpu_count),
        r is Err ==> r->Err_0 is UnexpectedContent,
{
    let time = precise_time_ns();
    parse_v2_sys_stat(stat, cpu_max, cpu_count, time)
}

} // verus!
