//! Memory use of a container from cgroup version 1 accounting files.
use super::{
    bytes_to_kilo_bytes, kb, opt_bytes_to_kilo_bytes, opt_kb, opt_sat_sub, opt_saturating_sub,
    opt_value, sat_sub, Memory,
};
use crate::error::unexpected;
use crate::text::{char_vec, fields, first_line_value, key_views, opt_view, read_fields, value_of_first_line};
use crate::Result;
use vstd::prelude::*;

verus! {

/// The limit that `memory.limit_in_bytes` reports when none is set, and above which a limit
/// means none.
pub const NO_LIMIT_BYTES: u64 = 9223372036854771712;

/// The memory use that the contents of `memory.limit_in_bytes` (`limit`),
/// `memory.usage_in_bytes` (`usage`), `memory.stat` (`stat`) and, where they could be
/// read, `memory.memsw.limit_in_bytes` and `memory.memsw.usage_in_bytes` give.
///
/// The total is the limit, unless it means no limit. The usage counts the page cache, which
/// `used` leaves out. The memsw files count memory and swap together: the swap total is the
/// memsw limit less the total, the swap used the memsw usage less the usage. Differences
/// that would be negative are zero. `None` where a required file or a line of `stat` is
/// malformed.
pub open spec fn v1_memory(
    limit: Seq<char>,
    usage: Seq<char>,
    stat: Seq<char>,
    memsw_limit: Option<Seq<char>>,
    memsw_usage: Option<Seq<char>>,
) -> Option<Memory> {
    match (first_line_value(limit), first_line_value(usage), fields(stat, seq!["shmem"@, "cache"@])) {
        (Some(l), Some(u), Some(f)) => {
            let total = if l < NO_LIMIT_BYTES {
                Some(kb(l))
            } else {
                None
            };
            let cached = opt_kb(f[1]);
            let used = sat_sub(
                kb(u),
                match cached {
                    Some(c) => c,
                    None => 0,
                },
            );
            let free = match total {
                Some(t) => Some(sat_sub(t, used)),
                None => None,
            };
            let swap_total = match (opt_value(memsw_limit), total) {
                (Some(v), Some(t)) => Some(sat_sub(kb(v), t)),
                _ => None,
            };
            let swap_used = match opt_value(memsw_usage) {
                Some(v) => Some(sat_sub(kb(v), kb(u))),
                None => None,
            };
            Some(
                Memory {
                    total,
                    free,
                    used,
                    buffers: None,
                    cached,
                    shmem: opt_kb(f[0]),
                    swap_total,
                    swap_free: opt_sat_sub(swap_total, swap_used),
                    swap_used,
                },
            )
        },
        _ => None,
    }
}

/// The number on the first line of an optional file; see `opt_value`.
fn optional_value(s: Option<&str>) -> (r: Option<u64>)
    ensures
        r == opt_value(opt_view(s)),
{
    match s {
        Some(t) => value_of_first_line(t),
        None => None,
    }
}

/// The memory use that the contents of a container's version 1 memory accounting files
/// give; `memsw_limit` and `memsw_usage` are `None` where those files could not be read.
/// See `v1_memory`.
pub fn read_and_parse_v1_sys_memory(
    limit: &str,
    usage: &str,
    stat: &str,
    memsw_limit: Option<&str>,
    memsw_usage: Option<&str>,
) -> (r: Result<Memory>)
    ensures
        r is Ok <==> v1_memory(limit@, usage@, stat@, opt_view(memsw_limit), opt_view(memsw_usage)) is Some,
        r is Ok ==> Some(r->Ok_0) == v1_memory(
            limit@,
            usage@,
            stat@,
            opt_view(memsw_limit),
            opt_view(memsw_usage),
        ),
        r is Err ==> r->Err_0 is UnexpectedContent,
{
    let limit_bytes = match value_of_first_line(limit) {
        Some(v) => v,
        None => return Err(unexpected("could not read the memory limit")),
    };
    let total = if limit_bytes < NO_LIMIT_BYTES {
        Some(bytes_to_kilo_bytes(limit_bytes))
    } else {
        None
    };
    let used_memory = match value_of_first_line(usage) {
        Some(v) => bytes_to_kilo_bytes(v),
        None => return Err(unexpected("could not read the memory usage")),
    };
    let keys = vec![char_vec("shmem"), char_vec("cache")];
    proof {
        assert(key_views(keys@) =~= seq!["shmem"@, "cache"@]);
    }
    let f = match read_fields(stat, &keys) {
        Some(f) => f,
        None => return Err(unexpected("malformed line in the memory statistics")),
    };
    let cached = opt_bytes_to_kilo_bytes(f[1]);
    let used = match cached {
        Some(c) => used_memory.saturating_sub(c),
        None => used_memory,
    };
    let free = match total {
        Some(t) => Some(t.saturating_sub(used)),
        None => None,
    };
    let swap_total = match (optional_value(memsw_limit), total) {
        (Some(v), Some(t)) => Some(bytes_to_kilo_bytes(v).saturating_sub(t)),
        _ => None,
    };
    let swap_used = match optional_value(memsw_usage) {
        Some(v) => Some(bytes_to_kilo_bytes(v).saturating_sub(used_memory)),
        None => None,
    };
    Ok(
        Memory {
            total,
            free,
            used,
            buffers: None,
            cached,
            shmem: opt_bytes_to_kilo_bytes(f[0]),
            swap_total,
            swap_free: opt_saturating_sub(swap_total, swap_used),
            swap_used,
        },
    )
}

} // verus!
