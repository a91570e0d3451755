//! Memory use of a container from cgroup version 2 accounting files.
use super::{bytes_to_kilo_bytes, kb, opt_bytes_to_kilo_bytes, opt_kb, opt_sat_sub, opt_saturating_sub, opt_value, sat_sub, Memory};
use crate::error::unexpected;
use crate::text::{char_vec, fields, first_line_value, key_views, opt_view, read_fields, value_of_first_line};
use crate::Result;
use vstd::prelude::*;

verus! {

/// The memory use that the contents of `memory.current` (`current`), `memory.stat`
/// (`stat`) and, where they could be read, `memory.max`, `memory.swap.max` and
/// `memory.swap.current` give. A limit file that holds no number (`max`, for no limit)
/// leaves its total unknown. `stat` is read up to its `shmem` line. Free memory is the total
/// less the usage, free swap the swap total less the swap usage; differences that would be
/// negative are zero. `None` where `current` or a line of `stat` read is malformed.
pub open spec fn v2_memory(
    max: Option<Seq<char>>,
    current: Seq<char>,
    stat: Seq<char>,
    swap_max: Option<Seq<char>>,
    swap_current: Option<Seq<char>>,
) -> Option<Memory> {
    match (first_line_value(current), fields(stat, seq!["shmem"@])) {
        (Some(c), Some(f)) => {
            let total = opt_kb(opt_value(max));
            let used = kb(c);
            let swap_total = opt_kb(opt_value(swap_max));
            let swap_used = opt_kb(opt_value(swap_current));
            Some(
                Memory {
                    total,
                    free: match total {
                        Some(t) => Some(sat_sub(t, used)),
                        None => None,
                    },
                    used,
                    buffers: None,
                    cached: None,
                    shmem: opt_kb(f[0]),
                    swap_total,
                    swap_free: opt_sat_sub(swap_total, swap_used),
                    swap_used,
                },
            )
        },
        _ => None,
    }
}

/// Kilobytes in the number of bytes on the first line of an optional file.
fn optional_kilo_bytes(s: Option<&str>) -> (r: Option<u64>)
    ensures
        r == opt_kb(opt_value(opt_view(s))),
{
    match s {
        Some(t) => opt_bytes_to_kilo_bytes(value_of_first_line(t)),
        None => None,
    }
}

/// The memory use that the contents of a container's version 2 memory accounting files
/// give; the optional ones are `None` where they could not be read. See `v2_memory`.
pub fn read_and_parse_v2_sys_memory(
    max: Option<&str>,
    current: &str,
    stat: &str,
    swap_max: Option<&str>,
    swap_current: Option<&str>,
) -> (r: Result<Memory>)
    ensures
        r is Ok <==> v2_memory(opt_view(max), current@, stat@, opt_view(swap_max), opt_view(swap_current)) is Some,
        r is Ok ==> Some(r->Ok_0) == v2_memory(
            opt_view(max),
            current@,
            stat@,
            opt_view(swap_max),
            opt_view(swap_current),
        ),
        r is Err ==> r->Err_0 is UnexpectedContent,
{
    let total = optional_kilo_bytes(max);
    let used = match value_of_first_line(current) {
        Some(v) => bytes_to_kilo_bytes(v),
        None => return Err(unexpected("could not read the memory usage")),
    };
    let keys = vec![char_vec("shmem")];
    proof {
        assert(key_views(keys@) =~= seq!["shmem"@]);
    }
    let f = match read_fields(stat, &keys) {
        Some(f) => f,
        None => return Err(unexpected("malformed line in the memory statistics")),
    };
    let swap_total = optional_kilo_bytes(swap_max);
    let swap_used = optional_kilo_bytes(swap_current);
    Ok(
        Memory {
            total,
            free: match total {
                Some(t) => Some(t.saturating_sub(used)),
                None => None,
            },
            used,
            buffers: None,
            cached: None,
            shmem: opt_bytes_to_kilo_bytes(f[0]),
            swap_total,
            swap_free: opt_saturating_sub(swap_total, swap_used),
            swap_used,
        },
    )
}

} // verus!
