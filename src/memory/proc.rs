//! Memory use of the whole system, from `/proc/meminfo`.
use super::Memory;
use crate::error::unexpected;
use crate::text::{all_found, char_vec, fields, key_views, read_fields};
use crate::Result;
use vstd::prelude::*;

verus! {

/// The fields of `/proc/meminfo` that are read, in this order.
pub open spec fn meminfo_keys() -> Seq<Seq<char>> {
    seq![
        "MemTotal:"@,
        "MemFree:"@,
        "Buffers:"@,
        "Cached:"@,
        "SwapTotal:"@,
        "SwapFree:"@,
        "Shmem:"@,
    ]
}

/// The memory use that the contents `s` of `/proc/meminfo` give. All fields of
/// `meminfo_keys` must be there. Free memory counts buffers and caches, which the system
/// hands out when needed; used memory is the rest of the total, used swap the rest of the
/// swap total. `None` where a field is missing or malformed, or free memory or free swap
/// exceeds its total.
pub open spec fn proc_memory(s: Seq<char>) -> Option<Memory> {
    match fields(s, meminfo_keys()) {
        Some(f) => if all_found(f) && f[1]->0 + f[2]->0 + f[3]->0 <= f[0]->0 && f[5]->0 <= f[4]->0 {
            let free = f[1]->0 + f[2]->0 + f[3]->0;
            Some(
                Memory {
                    total: f[0],
                    free: Some(free as u64),
                    used: (f[0]->0 - free) as u64,
                    buffers: f[2],
                    cached: f[3],
                    shmem: f[6],
                    swap_total: f[4],
                    swap_free: f[5],
                    swap_used: Some((f[4]->0 - f[5]->0) as u64),
                },
            )
        } else {
            None
        },
        None => None,
    }
}

/// The memory use that the contents of `/proc/meminfo` give; see `proc_memory`.
pub fn read_and_parse_proc_memory(contents: &str) -> (r: Result<Memory>)
    ensures
        r is Ok <==> proc_memory(contents@) is Some,
        r is Ok ==> Some(r->Ok_0) == proc_memory(contents@),
        r is Err ==> r->Err_0 is UnexpectedContent,
{
    let keys = vec![
        char_vec("MemTotal:"),
        char_vec("MemFree:"),
        char_vec("Buffers:"),
        char_vec("Cached:"),
        char_vec("SwapTotal:"),
        char_vec("SwapFree:"),
        char_vec("Shmem:"),
    ];
    proof {
        assert(key_views(keys@) =~= meminfo_keys());
    }
    let f = match read_fields(contents, &keys) {
        Some(f) => f,
        None => return Err(unexpected("malformed line in the memory information")),
    };
    let (total, mem_free, buffers, cached, swap_total, swap_free, shmem) = match (
        f[0],
        f[1],
        f[2],
        f[3],
        f[4],
        f[5],
        f[6],
    ) {
        (Some(a), Some(b), Some(c), Some(d), Some(e), Some(g), Some(h)) => (a, b, c, d, e, g, h),
        _ => {
            proof {
                assert(!all_found(f@)) by {
                    if all_found(f@) {
                        assert(f@[0] is Some && f@[1] is Some && f@[2] is Some && f@[3] is Some);
                        assert(f@[4] is Some && f@[5] is Some && f@[6] is Some);
                    }
                }
            }
            return Err(unexpected("Did not encounter all expected fields"));
        },
    };
    proof {
        assert forall|k: int| 0 <= k < f@.len() implies (#[trigger] f@[k]) is Some by {
            assert(k == 0 || k == 1 || k == 2 || k == 3 || k == 4 || k == 5 || k == 6);
        }
    }
    let free = mem_free as u128 + buffers as u128 + cached as u128;
    if free > total as u128 || swap_free > swap_total {
        return Err(unexpected("free memory exceeds the total"));
    }
    let free = free as u64;
    Ok(
        Memory {
            total: Some(total),
            free: Some(free),
            used: total - free,
            buffers: Some(buffers),
            cached: Some(cached),
            shmem: Some(shmem),
            swap_total: Some(swap_total),
            swap_free: Some(swap_free),
            swap_used: Some(swap_total - swap_free),
        },
    )
}

} // verus!
