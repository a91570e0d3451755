//! Processor time of the whole system, from the first line of `/proc/stat`.
use crate::clock::precise_time_ns;
use crate::error::unexpected;
use crate::rate::{calculate_time_difference, per_minute, time_adjusted};
use crate::text::{lines, u64_value, words, Words};
use crate::Result;
use vstd::prelude::*;

verus! {

/// Processor time of the system in clock ticks, by kind of work: cumulative counters in a
/// measurement, or the amount per minute in a rate. `user` and `nice` leave out the time
/// spent running guests, which `guest` and `guestnice` count.
#[derive(Clone, Copy, Debug, PartialEq, Eq, Structural)]
pub struct CpuStat {
    pub total: u64,
    pub user: u64,
    pub nice: u64,
    pub system: u64,
    pub idle: u64,
    pub iowait: u64,
    pub irq: u64,
    pub softirq: u64,
    pub steal: u64,
    pub guest: u64,
    pub guestnice: u64,
}

/// Processor time of the system read at a certain time.
#[derive(Clone, Copy, Debug, PartialEq, Eq, Structural)]
pub struct CpuMeasurement {
    pub precise_time_ns: u64,
    pub stat: CpuStat,
}

impl CpuStat {
    /// Whether no counter of `self` is above the same counter of `next`.
    pub open spec fn not_above(self, next: CpuStat) -> bool {
        &&& self.total <= next.total
        &&& self.user <= next.user
        &&& self.nice <= next.nice
        &&& self.system <= next.system
        &&& self.idle <= next.idle
        &&& self.iowait <= next.iowait
        &&& self.irq <= next.irq
        &&& self.softirq <= next.softirq
        &&& self.steal <= next.steal
        &&& self.guest <= next.guest
        &&& self.guestnice <= next.guestnice
    }

    /// The per-minute rate of each counter from `self` to `next`, read `window_ns` apart.
    pub open spec fn rate_to(self, next: CpuStat, window_ns: u64) -> CpuStat {
        let w = window_ns as int;
        CpuStat {
            total: per_minute(next.total - self.total, w) as u64,
            user: per_minute(next.user - self.user, w) as u64,
            nice: per_minute(next.nice - self.nice, w) as u64,
            system: per_minute(next.system - self.system, w) as u64,
            idle: per_minute(next.idle - self.idle, w) as u64,
            iowait: per_minute(next.iowait - self.iowait, w) as u64,
            irq: per_minute(next.irq - self.irq, w) as u64,
            softirq: per_minute(next.softirq - self.softirq, w) as u64,
            steal: per_minute(next.steal - self.steal, w) as u64,
            guest: per_minute(next.guest - self.guest, w) as u64,
            guestnice: per_minute(next.guestnice - self.guestnice, w) as u64,
        }
    }
}

impl CpuMeasurement {
    /// The processor time per minute between this measurement and `next_measurement`, a
    /// later one. Fails with `InvalidInput` unless `next_measurement` was taken strictly
    /// later, and then with `UnexpectedContent` if a counter went down.
    pub fn calculate_per_minute(&self, next_measurement: &CpuMeasurement) -> (r: Result<CpuStat>)
        ensures
            next_measurement.precise_time_ns <= self.precise_time_ns ==> r is Err
                && r->Err_0 is InvalidInput,
            self.precise_time_ns < next_measurement.precise_time_ns ==> (r is Ok
                <==> self.stat.not_above(next_measurement.stat)),
            self.precise_time_ns < next_measurement.precise_time_ns && !self.stat.not_above(
                next_measurement.stat,
            ) ==> r is Err && r->Err_0 is UnexpectedContent,
            r is Ok ==> r->Ok_0 == self.stat.rate_to(
                next_measurement.stat,
                (next_measurement.precise_time_ns - self.precise_time_ns) as u64,
            ),
    {
        let window = match calculate_time_difference(
            self.precise_time_ns,
            next_measurement.precise_time_ns,
        ) {
            Ok(w) => w,
            Err(e) => return Err(e),
        };
        let prev = &self.stat;
        let next = &next_measurement.stat;
        let total = match time_adjusted("total", next.total, prev.total, window) {
            Ok(v) => v,
            Err(e) => return Err(e),
        };
        let user = match time_adjusted("user", next.user, prev.user, window) {
            Ok(v) => v,
            Err(e) => return Err(e),
        };
        let nice = match time_adjusted("nice", next.nice, prev.nice, window) {
            Ok(v) => v,
            Err(e) => return Err(e),
        };
        let system = match time_adjusted("system", next.system, prev.system, window) {
            Ok(v) => v,
            Err(e) => return Err(e),
        };
        let idle = match time_adjusted("idle", next.idle, prev.idle, window) {
            Ok(v) => v,
            Err(e) => return Err(e),
        };
        let iowait = match time_adjusted("iowait", next.iowait, prev.iowait, window) {
            Ok(v) => v,
            Err(e) => return Err(e),
        };
        let irq = match time_adjusted("irq", next.irq, prev.irq, window) {
            Ok(v) => v,
            Err(e) => return Err(e),
        };
        let softirq = match time_adjusted("softirq", next.softirq, prev.softirq, window) {
            Ok(v) => v,
            Err(e) => return Err(e),
        };
        let steal = match time_adjusted("steal", next.steal, prev.steal, window) {
            Ok(v) => v,
            Err(e) => return Err(e),
        };
        let guest = match time_adjusted("guest", next.guest, prev.guest, window) {
            Ok(v) => v,
            Err(e) => return Err(e),
        };
        let guestnice = match time_adjusted("guestnice", next.guestnice, prev.guestnice, window) {
            Ok(v) => v,
            Err(e) => return Err(e),
        };
        Ok(
            CpuStat {
                total,
                user,
                nice,
                system,
                idle,
                iowait,
                irq,
                softirq,
                steal,
                guest,
                guestnice,
            },
        )
    }
}

/// The words of the first line of `s`, or none where `s` has no line.
pub open spec fn first_line_words(s: Seq<char>) -> Seq<Seq<char>> {
    if lines(s).len() > 0 {
        words(lines(s)[0])
    } else {
        Seq::empty()
    }
}

/// Column `k` of the `cpu` line `w`: the word after the label, counted from zero, or zero
/// where the line is shorter.
pub open spec fn column(w: Seq<Seq<char>>, k: int) -> Option<u64> {
    if k + 1 < w.len() {
        u64_value(w[k + 1])
    } else {
        Some(0)
    }
}

/// The value of column `k` of `w`, where it has one.
pub open spec fn col(w: Seq<Seq<char>>, k: int) -> int {
    match column(w, k) {
        Some(v) => v as int,
        None => 0,
    }
}

/// The processor time that the first line of `/proc/stat`, in `s`, gives: after a label,
/// the columns user, nice, system, idle, iowait, irq, softirq, steal, guest and guest nice,
/// of which at least the first five must be there. Guest time is taken out of user time and
/// guest nice time out of nice time; the total sums the ten kinds. `None` where the line is
/// shorter, a column is not a number, guest time exceeds the time it is part of, or the
/// total is out of range.
pub open spec fn proc_stat(s: Seq<char>) -> Option<CpuStat> {
    let w = first_line_words(s);
    let ok = w.len() >= 6 && (forall|k: int| 0 <= k < 10 ==> #[trigger] column(w, k) is Some);
    let user = col(w, 0) - col(w, 8);
    let nice = col(w, 1) - col(w, 9);
    let total = user + nice + col(w, 2) + col(w, 3) + col(w, 4) + col(w, 5) + col(w, 6) + col(
        w,
        7,
    ) + col(w, 8) + col(w, 9);
    if ok && user >= 0 && nice >= 0 && total <= u64::MAX {
        Some(
            CpuStat {
                total: total as u64,
                user: user as u64,
                nice: nice as u64,
                system: col(w, 2) as u64,
                idle: col(w, 3) as u64,
                iowait: col(w, 4) as u64,
                irq: col(w, 5) as u64,
                softirq: col(w, 6) as u64,
                steal: col(w, 7) as u64,
                guest: col(w, 8) as u64,
                guestnice: col(w, 9) as u64,
            },
        )
    } else {
        None
    }
}

/// Column `k` of the first line of `t`; see `column`.
fn read_column(t: &Words, k: usize) -> (r: Option<u64>)
    requires
        t.wf(),
        t@.len() > 0,
        k < 10,
    ensures
        r == column(t@[0], k as int),
{
    if k + 1 < t.row_len(0) {
        t.word_u64(0, k + 1)
    } else {
        Some(0)
    }
}

/// The processor time, stamped with `precise_time_ns`, that the contents of `/proc/stat`
/// give; see `proc_stat`.
pub fn parse_proc_stat(contents: &str, precise_time_ns: u64) -> (r: Result<CpuMeasurement>)
    ensures
        r is Ok <==> proc_stat(contents@) is Some,
        r is Ok ==> r->Ok_0.precise_time_ns == precise_time_ns && Some(r->Ok_0.stat) == proc_stat(
            contents@,
        ),
        r is Err ==> r->Err_0 is UnexpectedContent,
{
    let t = Words::new(contents);
    if t.rows.len() == 0 || t.row_len(0) < 6 {
        return Err(unexpected("Incorrect number of stats"));
    }
    let ghost w = t@[0];
    assert(first_line_words(contents@) == w);
    let mut values: Vec<u64> = Vec::new();
    let mut k: usize = 0;
    while k < 10
        invariant
            t.wf(),
            t@.len() > 0,
            w == t@[0],
            first_line_words(contents@) == w,
            0 <= k <= 10,
            values@.len() == k,
            forall|j: int| 0 <= j < k ==> column(w, j) == Some(#[trigger] values@[j]),
        decreases 10 - k,
    {
        match read_column(&t, k) {
            Some(v) => values.push(v),
            None => {
                assert(column(w, k as int) is None);
                return Err(unexpected("could not parse a column of the cpu line"));
            },
        }
        k = k + 1;
    }
    assert forall|j: int| 0 <= j < 10 implies #[trigger] column(w, j) is Some && col(w, j)
        == values@[j] by {
        assert(column(w, j) == Some(values@[j]));
    }
    let guest = values[8];
    let guestnice = values[9];
    if guest > values[0] || guestnice > values[1] {
        return Err(unexpected("guest time exceeds the time it is part of"));
    }
    let user = values[0] - guest;
    let nice = values[1] - guestnice;
    let total = user as u128 + nice as u128 + values[2] as u128 + values[3] as u128
        + values[4] as u128 + values[5] as u128 + values[6] as u128 + values[7] as u128
        + guest as u128 + guestnice as u128;
    if total > u64::MAX as u128 {
        return Err(unexpected("total processor time out of range"));
    }
    let cpu = CpuStat {
        total: total as u64,
        user,
        nice,
        system: values[2],
        idle: values[3],
        iowait: values[4],
        irq: values[5],
        softirq: values[6],
        steal: values[7],
        guest,
        guestnice,
    };
    Ok(CpuMeasurement { precise_time_ns, stat: cpu })
}

/// The processor time, stamped with the clock now, that the contents of `/proc/stat` give;
/// see `parse_proc_stat`.
pub fn read_and_parse_proc_stat(contents: &str) -> (r: Result<CpuMeasurement>)
    ensures
        r is Ok <==> proc_stat(contents@) is Some,
        r is Ok ==> Some(r->Ok_0.stat) == proc_stat(contents@),
        r is Err ==> r->Err_0 is UnexpectedContent,
{
    let time = precise_time_ns();
    parse_proc_stat(contents, time)
}

} // verus!
