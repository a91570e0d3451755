//! Deriving per-minute rates from two readings of a counter, and scaling usage by the number
//! of CPU cores a container is entitled to.
use crate::error::{invalid, ProbeError};
use crate::Result;
use vstd::arithmetic::div_mod::lemma_fundamental_div_mod_converse;
use vstd::prelude::*;
use vstd::string::StringExecFns;

verus! {

/// One minute in nanoseconds.
pub const NANOS_PER_MINUTE: u64 = 60_000_000_000;

/// What `delta` accrued over a window of `window_ns` nanoseconds comes to per minute: scaled
/// to sixty seconds, rounded down, and held at the largest `u64` where it exceeds it.
pub open spec fn per_minute(delta: int, window_ns: int) -> int {
    let r = delta * 60_000_000_000 / window_ns;
    if r > u64::MAX {
        u64::MAX as int
    } else {
        r
    }
}

/// The rate of one counter read at two times: `next` read after `prev`, `window_ns` apart.
/// It is known when the window is not empty and the counter did not go down.
pub open spec fn rate_of(prev: u64, next: u64, window_ns: u64) -> Option<u64> {
    if window_ns > 0 && prev <= next {
        Some(per_minute(next - prev, window_ns as int) as u64)
    } else {
        None
    }
}

/// Nanoseconds from `first_time` to `second_time`, which must come strictly later.
pub fn calculate_time_difference(first_time: u64, second_time: u64) -> (r: Result<u64>)
    ensures
        r is Ok <==> first_time < second_time,
        r is Ok ==> r->Ok_0 == second_time - first_time,
        r is Err ==> r->Err_0 is InvalidInput,
{
    if first_time >= second_time {
        Err(invalid("the second time does not come after the first"))
    } else {
        Ok(second_time - first_time)
    }
}

/// The per-minute rate of the counter `field_name`, which read `second_value` first and
/// `first_value` `time_difference_ns` nanoseconds later.
pub fn time_adjusted(
    field_name: &str,
    first_value: u64,
    second_value: u64,
    time_difference_ns: u64,
) -> (r: Result<u64>)
    ensures
        r is Ok <==> rate_of(second_value, first_value, time_difference_ns) is Some,
        r is Ok ==> Some(r->Ok_0) == rate_of(second_value, first_value, time_difference_ns),
        first_value < second_value ==> r is Err && r->Err_0 is UnexpectedContent,
        second_value <= first_value && time_difference_ns == 0 ==> r is Err
            && r->Err_0 is InvalidInput,
{
    if first_value < second_value {
        let mut message = "counter went down between the two measurements: ".to_owned();
        message.append(field_name);
        return Err(ProbeError::UnexpectedContent(message));
    }
    if time_difference_ns == 0 {
        return Err(invalid("the two measurements were taken at the same time"));
    }
    let delta = (first_value - second_value) as u128;
    assert(delta * 60_000_000_000 <= u64::MAX * 60_000_000_000) by (nonlinear_arith)
        requires
            delta <= u64::MAX,
    ;
    let scaled = delta * (NANOS_PER_MINUTE as u128) / (time_difference_ns as u128);
    if scaled > u64::MAX as u128 {
        Ok(u64::MAX)
    } else {
        Ok(scaled as u64)
    }
}

/// A number of CPU cores, possibly fractional: the scheduler grants `quota` of every `period`
/// of CPU time, so the count is `quota / period`. It is known when both are positive.
#[derive(Clone, Copy, Debug, PartialEq, Eq, Structural)]
pub struct CpuCount {
    pub quota: u64,
    pub period: u64,
}

impl CpuCount {
    /// The count `quota / period`.
    pub fn new(quota: u64, period: u64) -> (r: CpuCount)
        ensures
            r.quota == quota,
            r.period == period,
    {
        CpuCount { quota, period }
    }

    /// Whether the count is known: a positive fraction.
    pub open spec fn known(self) -> bool {
        self.quota > 0 && self.period > 0
    }
}

/// `value` divided by the core count `count`, rounded to the nearest integer with halves
/// rounded up, and held at the largest `u64`. Without a known count, `value` itself.
pub open spec fn normalized(value: u64, count: Option<CpuCount>) -> u64 {
    match count {
        Some(c) => if c.known() {
            let r = (2 * value * c.period + c.quota) / (2 * c.quota as int);
            if r > u64::MAX {
                u64::MAX
            } else {
                r as u64
            }
        } else {
            value
        },
        None => value,
    }
}

/// `value` divided by the core count `count`; see `normalized`.
pub fn divide_by_cpu_count(value: u64, count: Option<CpuCount>) -> (r: u64)
    ensures
        r == normalized(value, count),
{
    match count {
        Some(c) => {
            if c.quota == 0 || c.period == 0 {
                return value;
            }
            let quota = c.quota as u128;
            assert(value * c.period <= u64::MAX * u64::MAX) by (nonlinear_arith)
                requires
                    value <= u64::MAX,
                    c.period <= u64::MAX,
            ;
            let product = (value as u128) * (c.period as u128);
            let q = product / quota;
            let rem = product % quota;
            let rounded = if 2 * rem >= quota {
                q + 1
            } else {
                q
            };
            proof {
                let x = 2 * product + quota;
                assert(product == q * quota + rem) by (nonlinear_arith)
                    requires
                        q == product / quota,
                        rem == product % quota,
                        quota > 0,
                ;
                if 2 * rem >= quota {
                    assert(x == (q + 1) * (2 * quota) + (2 * rem - quota)) by (nonlinear_arith)
                        requires
                            product == q * quota + rem,
                            x == 2 * product + quota,
                    ;
                    lemma_fundamental_div_mod_converse(x, 2 * quota, q + 1, 2 * rem - quota);
                } else {
                    assert(x == q * (2 * quota) + (2 * rem + quota)) by (nonlinear_arith)
                        requires
                            product == q * quota + rem,
                            x == 2 * product + quota,
                    ;
                    lemma_fundamental_div_mod_converse(x, 2 * quota, q as int, 2 * rem + quota);
                }
                assert(rounded == x / (2 * quota));
                assert(x == 2 * value * c.period + c.quota) by (nonlinear_arith)
                    requires
                        x == 2 * product + quota,
                        product == value * c.period,
                        quota == c.quota,
                ;
            }
            if rounded > u64::MAX as u128 {
                u64::MAX
            } else {
                rounded as u64
            }
        },
        None => value,
    }
}

/// Dividing by a known count of exactly one core leaves every value as it was.
pub proof fn lemma_one_core_keeps_value(value: u64, count: CpuCount)
    requires
        count.known(),
        count.quota == count.period,
    ensures
        normalized(value, Some(count)) == value,
{
    let p = count.period as int;
    assert(2 * value * p + p == value * (2 * p) + p) by (nonlinear_arith);
    lemma_fundamental_div_mod_converse(2 * value * p + p, 2 * p, value as int, p);
}

} // verus!
