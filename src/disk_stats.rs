//! Input and output counters of each block device, from `/proc/diskstats`.
use crate::clock::precise_time_ns;
use crate::error::unexpected;
use crate::named::{lookup, unique_names, with_entry, NamedStats};
use crate::rate::{calculate_time_difference, per_minute, time_adjusted};
use crate::text::{table, u64_value, Words};
use crate::Result;
use vstd::prelude::*;

verus! {

/// The counters of each device, by device name.
pub type DiskStats = NamedStats<DiskStat>;

/// Counters of one block device: cumulative in a measurement, per minute in a rate.
#[derive(Clone, Copy, Debug, PartialEq, Eq, Structural)]
pub struct DiskStat {
    pub reads_completed_successfully: u64,
    pub reads_merged: u64,
    pub sectors_read: u64,
    pub time_spent_reading_ms: u64,
    pub writes_completed: u64,
    pub writes_merged: u64,
    pub sectors_written: u64,
    pub time_spent_writing_ms: u64,
    pub ios_currently_in_progress: u64,
    pub time_spent_doing_ios_ms: u64,
    pub weighted_time_spent_doing_ios_ms: u64,
}

/// The counters of all devices read at a certain time.
#[derive(Debug)]
pub struct DiskStatsMeasurement {
    pub precise_time_ns: u64,
    pub stats: DiskStats,
}

/// The counters of all devices per minute, between two measurements.
#[derive(Debug)]
pub struct DiskStatsPerMinute {
    pub stats: DiskStats,
}

/// Bytes in a sector, the unit of the sector counters.
pub const SECTOR_BYTES: u64 = 512;

impl DiskStat {
    /// Whether no counter of `self` is above the same counter of `next`.
    pub open spec fn not_above(self, next: DiskStat) -> bool {
        &&& self.reads_completed_successfully <= next.reads_completed_successfully
        &&& self.reads_merged <= next.reads_merged
        &&& self.sectors_read <= next.sectors_read
        &&& self.time_spent_reading_ms <= next.time_spent_reading_ms
        &&& self.writes_completed <= next.writes_completed
        &&& self.writes_merged <= next.writes_merged
        &&& self.sectors_written <= next.sectors_written
        &&& self.time_spent_writing_ms <= next.time_spent_writing_ms
        &&& self.ios_currently_in_progress <= next.ios_currently_in_progress
        &&& self.time_spent_doing_ios_ms <= next.time_spent_doing_ios_ms
        &&& self.weighted_time_spent_doing_ios_ms <= next.weighted_time_spent_doing_ios_ms
    }

    /// The per-minute rate of each counter from `self` to `next`, read `window_ns` apart.
    pub open spec fn rate_to(self, next: DiskStat, window_ns: u64) -> DiskStat {
        let w = window_ns as int;
        DiskStat {
            reads_completed_successfully: per_minute(
                next.reads_completed_successfully - self.reads_completed_successfully,
                w,
            ) as u64,
            reads_merged: per_minute(next.reads_merged - self.reads_merged, w) as u64,
            sectors_read: per_minute(next.sectors_read - self.sectors_read, w) as u64,
            time_spent_reading_ms: per_minute(
                next.time_spent_reading_ms - self.time_spent_reading_ms,
                w,
            ) as u64,
            writes_completed: per_minute(next.writes_completed - self.writes_completed, w) as u64,
            writes_merged: per_minute(next.writes_merged - self.writes_merged, w) as u64,
            sectors_written: per_minute(next.sectors_written - self.sectors_written, w) as u64,
            time_spent_writing_ms: per_minute(
                next.time_spent_writing_ms - self.time_spent_writing_ms,
                w,
            ) as u64,
            ios_currently_in_progress: per_minute(
                next.ios_currently_in_progress - self.ios_currently_in_progress,
                w,
            ) as u64,
            time_spent_doing_ios_ms: per_minute(
                next.time_spent_doing_ios_ms - self.time_spent_doing_ios_ms,
                w,
            ) as u64,
            weighted_time_spent_doing_ios_ms: per_minute(
                next.weighted_time_spent_doing_ios_ms - self.weighted_time_spent_doing_ios_ms,
                w,
            ) as u64,
        }
    }

    /// The bytes read: the sectors read times the sector size.
    pub fn bytes_read(&self) -> (r: u64)
        requires
            self.sectors_read * SECTOR_BYTES <= u64::MAX,
        ensures
            r == self.sectors_read * SECTOR_BYTES,
    {
        self.sectors_read * SECTOR_BYTES
    }

    /// The bytes written: the sectors written times the sector size.
    pub fn bytes_written(&self) -> (r: u64)
        requires
            self.sectors_written * SECTOR_BYTES <= u64::MAX,
        ensures
            r == self.sectors_written * SECTOR_BYTES,
    {
        self.sectors_written * SECTOR_BYTES
    }

    /// The per-minute rate of each counter from `self` to `next`, read `window_ns` apart;
    /// `UnexpectedContent` where a counter went down.
    fn per_minute_to(&self, next: &DiskStat, window_ns: u64) -> (r: Result<DiskStat>)
        requires
            window_ns > 0,
        ensures
            r is Ok <==> self.not_above(*next),
            r is Ok ==> r->Ok_0 == self.rate_to(*next, window_ns),
            r is Err ==> r->Err_0 is UnexpectedContent,
    {
        let w = window_ns;
        let reads_completed_successfully = match time_adjusted(
            "reads_completed_successfully",
            next.reads_completed_successfully,
            self.reads_completed_successfully,
            w,
        ) {
            Ok(v) => v,
            Err(e) => return Err(e),
        };
        let reads_merged = match time_adjusted("reads_merged", next.reads_merged, self.reads_merged, w) {
            Ok(v) => v,
            Err(e) => return Err(e),
        };
        let sectors_read = match time_adjusted("sectors_read", next.sectors_read, self.sectors_read, w) {
            Ok(v) => v,
            Err(e) => return Err(e),
        };
        let time_spent_reading_ms = match time_adjusted(
            "time_spent_reading_ms",
            next.time_spent_reading_ms,
            self.time_spent_reading_ms,
            w,
        ) {
            Ok(v) => v,
            Err(e) => return Err(e),
        };
        let writes_completed = match time_adjusted(
            "writes_completed",
            next.writes_completed,
            self.writes_completed,
            w,
        ) {
            Ok(v) => v,
            Err(e) => return Err(e),
        };
        let writes_merged = match time_adjusted("writes_merged", next.writes_merged, self.writes_merged, w) {
            Ok(v) => v,
            Err(e) => return Err(e),
        };
        let sectors_written = match time_adjusted(
            "sectors_written",
            next.sectors_written,
            self.sectors_written,
            w,
        ) {
            Ok(v) => v,
            Err(e) => return Err(e),
        };
        let time_spent_writing_ms = match time_adjusted(
            "time_spent_writing_ms",
            next.time_spent_writing_ms,
            self.time_spent_writing_ms,
            w,
        ) {
            Ok(v) => v,
            Err(e) => return Err(e),
        };
        let ios_currently_in_progress = match time_adjusted(
            "ios_currently_in_progress",
            next.ios_currently_in_progress,
            self.ios_currently_in_progress,
            w,
        ) {
            Ok(v) => v,
            Err(e) => return Err(e),
        };
        let time_spent_doing_ios_ms = match time_adjusted(
            "time_spent_doing_ios_ms",
            next.time_spent_doing_ios_ms,
            self.time_spent_doing_ios_ms,
            w,
        ) {
            Ok(v) => v,
            Err(e) => return Err(e),
        };
        let weighted_time_spent_doing_ios_ms = match time_adjusted(
            "weighted_time_spent_doing_ios_ms",
            next.weighted_time_spent_doing_ios_ms,
            self.weighted_time_spent_doing_ios_ms,
            w,
        ) {
            Ok(v) => v,
            Err(e) => return Err(e),
        };
        Ok(
            DiskStat {
                reads_completed_successfully,
                reads_merged,
                sectors_read,
                time_spent_reading_ms,
                writes_completed,
                writes_merged,
                sectors_written,
                time_spent_writing_ms,
                ios_currently_in_progress,
                time_spent_doing_ios_ms,
                weighted_time_spent_doing_ios_ms,
            },
        )
    }
}

/// Whether every device of `prev` is in `next`, with no counter lower there.
pub open spec fn disks_follow(
    prev: Seq<(Seq<char>, DiskStat)>,
    next: Seq<(Seq<char>, DiskStat)>,
) -> bool {
    forall|i: int|
        0 <= i < prev.len() ==> match lookup(next, (#[trigger] prev[i]).0) {
            Some(n) => prev[i].1.not_above(n),
            None => false,
        }
}

impl DiskStatsMeasurement {
    /// The counters per minute of each device of this measurement, between it and
    /// `next_measurement`, a later one; devices that only `next_measurement` has are left
    /// out. Fails with `InvalidInput` unless `next_measurement` was taken strictly later,
    /// and then with `UnexpectedContent` if a device is missing from it or a counter went
    /// down.
    pub fn calculate_per_minute(&self, next_measurement: &DiskStatsMeasurement) -> (r: Result<
        DiskStatsPerMinute,
    >)
        ensures
            next_measurement.precise_time_ns <= self.precise_time_ns ==> r is Err
                && r->Err_0 is InvalidInput,
            self.precise_time_ns < next_measurement.precise_time_ns ==> (r is Ok <==> disks_follow(
                self.stats@,
                next_measurement.stats@,
            )),
            self.precise_time_ns < next_measurement.precise_time_ns && !disks_follow(
                self.stats@,
                next_measurement.stats@,
            ) ==> r is Err && r->Err_0 is UnexpectedContent,
            r is Ok ==> {
                let out = r->Ok_0.stats@;
                let window = (next_measurement.precise_time_ns - self.precise_time_ns) as u64;
                &&& out.len() == self.stats@.len()
                &&& forall|i: int|
                    0 <= i < out.len() ==> (#[trigger] out[i]).0 == self.stats@[i].0 && out[i].1
                        == self.stats@[i].1.rate_to(
                        lookup(next_measurement.stats@, self.stats@[i].0)->0,
                        window,
                    )
            },
    {
        let window = match calculate_time_difference(
            self.precise_time_ns,
            next_measurement.precise_time_ns,
        ) {
            Ok(w) => w,
            Err(e) => return Err(e),
        };
        let prev = &self.stats;
        let next = &next_measurement.stats;
        let n = prev.len();
        let mut out: Vec<(String, DiskStat)> = Vec::new();
        let mut i: usize = 0;
        while i < n
            invariant
                window > 0,
                window == next_measurement.precise_time_ns - self.precise_time_ns,
                n == prev@.len(),
                prev@ == self.stats@,
                next@ == next_measurement.stats@,
                unique_names(prev@),
                0 <= i <= n,
                out@.len() == i,
                forall|k: int|
                    0 <= k < i ==> match lookup(next@, (#[trigger] prev@[k]).0) {
                        Some(s) => prev@[k].1.not_above(s),
                        None => false,
                    },
                forall|k: int|
                    0 <= k < i ==> (#[trigger] out@[k]).0@ == prev@[k].0 && out@[k].1
                        == prev@[k].1.rate_to(lookup(next@, prev@[k].0)->0, window),
            decreases n - i,
        {
            let name = prev.name_at(i);
            let j = match next.position(name) {
                Some(j) => j,
                None => {
                    proof {
                        assert(lookup(next@, prev@[i as int].0) is None);
                        assert(!disks_follow(prev@, next@));
                    }
                    let mut message = name.clone();
                    message.append(" is not present in the next measurement");
                    return Err(crate::ProbeError::UnexpectedContent(message));
                },
            };
            assert(lookup(next@, prev@[i as int].0) == Some(next@[j as int].1));
            let stat = match prev.value_at(i).per_minute_to(next.value_at(j), window) {
                Ok(s) => s,
                Err(e) => {
                    proof {
                        assert(!disks_follow(prev@, next@));
                    }
                    return Err(e);
                },
            };
            out.push((name.clone(), stat));
            i = i + 1;
        }
        let ghost mapped = out@.map_values(|e: (String, DiskStat)| (e.0@, e.1));
        assert forall|a: int, b: int| 0 <= a < b < mapped.len() implies (#[trigger] mapped[a]).0
            != (#[trigger] mapped[b]).0 by {
            assert(out@[a].0@ == prev@[a].0);
            assert(out@[b].0@ == prev@[b].0);
            assert(prev@[a].0 != prev@[b].0);
        }
        Ok(DiskStatsPerMinute { stats: NamedStats::from_entries(out) })
    }
}

/// The counters that one line of `/proc/diskstats`, split into words `w`, gives: the device
/// name is the third word, the eleven counters follow. Lines hold 14 words, or 18 since
/// Linux 4.18; `None` for any other count or a counter that is not a number.
pub open spec fn disk_line(w: Seq<Seq<char>>) -> Option<DiskStat> {
    if (w.len() == 14 || w.len() == 18) && (forall|k: int|
        3 <= k < 14 ==> #[trigger] u64_value(w[k]) is Some) {
        Some(
            DiskStat {
                reads_completed_successfully: u64_value(w[3])->0,
                reads_merged: u64_value(w[4])->0,
                sectors_read: u64_value(w[5])->0,
                time_spent_reading_ms: u64_value(w[6])->0,
                writes_completed: u64_value(w[7])->0,
                writes_merged: u64_value(w[8])->0,
                sectors_written: u64_value(w[9])->0,
                time_spent_writing_ms: u64_value(w[10])->0,
                ios_currently_in_progress: u64_value(w[11])->0,
                time_spent_doing_ios_ms: u64_value(w[12])->0,
                weighted_time_spent_doing_ios_ms: u64_value(w[13])->0,
            },
        )
    } else {
        None
    }
}

/// `acc` with the devices of the lines `rows` added in order, a later line of a name
/// replacing an earlier one; `None` where a line is malformed.
pub open spec fn scan_disks(
    rows: Seq<Seq<Seq<char>>>,
    acc: Seq<(Seq<char>, DiskStat)>,
) -> Option<Seq<(Seq<char>, DiskStat)>>
    decreases rows.len(),
{
    if rows.len() == 0 {
        Some(acc)
    } else {
        match disk_line(rows[0]) {
            Some(d) => scan_disks(rows.drop_first(), with_entry(acc, rows[0][2], d)),
            None => None,
        }
    }
}

/// The devices and their counters that the contents `s` of `/proc/diskstats` give.
pub open spec fn diskstats(s: Seq<char>) -> Option<Seq<(Seq<char>, DiskStat)>> {
    scan_disks(table(s), Seq::empty())
}

/// Counter `k` of line `line` of `t`.
fn counter(t: &Words, line: usize, k: usize) -> (r: Result<u64>)
    requires
        t.wf(),
        line < t@.len(),
        k < t@[line as int].len(),
    ensures
        match r {
            Ok(v) => u64_value(t@[line as int][k as int]) == Some(v),
            Err(e) => u64_value(t@[line as int][k as int]) is None && e is UnexpectedContent,
        },
{
    match t.word_u64(line, k) {
        Some(v) => Ok(v),
        None => Err(unexpected("could not parse a disk counter")),
    }
}

/// The counters of one line of `t`; see `disk_line`.
fn parse_disk_line(t: &Words, line: usize) -> (r: Result<DiskStat>)
    requires
        t.wf(),
        line < t@.len(),
    ensures
        match r {
            Ok(d) => disk_line(t@[line as int]) == Some(d),
            Err(e) => disk_line(t@[line as int]) is None && e is UnexpectedContent,
        },
{
    let n = t.row_len(line);
    if n != 14 && n != 18 {
        return Err(unexpected("Incorrect number of segments"));
    }
    let ghost w = t@[line as int];
    let mut v: Vec<u64> = Vec::new();
    let mut k: usize = 3;
    while k < 14
        invariant
            t.wf(),
            line < t@.len(),
            w == t@[line as int],
            w.len() >= 14,
            3 <= k <= 14,
            v@.len() == k - 3,
            forall|j: int| 3 <= j < k ==> u64_value(w[j]) == Some(#[trigger] v@[j - 3]),
        decreases 14 - k,
    {
        match counter(t, line, k) {
            Ok(x) => v.push(x),
            Err(e) => return Err(e),
        }
        k = k + 1;
    }
    assert forall|j: int| 3 <= j < 14 implies #[trigger] u64_value(w[j]) is Some && u64_value(
        w[j],
    )->0 == v@[j - 3] by {
        assert(u64_value(w[j]) == Some(v@[j - 3]));
    }
    Ok(
        DiskStat {
            reads_completed_successfully: v[0],
            reads_merged: v[1],
            sectors_read: v[2],
            time_spent_reading_ms: v[3],
            writes_completed: v[4],
            writes_merged: v[5],
            sectors_written: v[6],
            time_spent_writing_ms: v[7],
            ios_currently_in_progress: v[8],
            time_spent_doing_ios_ms: v[9],
            weighted_time_spent_doing_ios_ms: v[10],
        },
    )
}

/// The counters of each device, stamped with `precise_time_ns`, that the contents of
/// `/proc/diskstats` give; see `diskstats`.
pub fn parse_proc_diskstats(contents: &str, precise_time_ns: u64) -> (r: Result<
    DiskStatsMeasurement,
>)
    ensures
        r is Ok <==> diskstats(contents@) is Some,
        r is Ok ==> r->Ok_0.precise_time_ns == precise_time_ns && Some(r->Ok_0.stats@)
            == diskstats(contents@),
        r is Err ==> r->Err_0 is UnexpectedContent,
{
    let t = Words::new(contents);
    let mut stats: DiskStats = NamedStats::new();
    let mut i: usize = 0;
    assert(t@.skip(0) =~= t@);
    while i < t.rows.len()
        invariant
            t.wf(),
            t.chars@ == contents@,
            0 <= i <= t@.len(),
            diskstats(contents@) == scan_disks(t@.skip(i as int), stats@),
        decreases t.rows.len() - i,
    {
        let ghost rest = t@.skip(i as int);
        assert(rest[0] == t@[i as int]);
        let d = match parse_disk_line(&t, i) {
            Ok(d) => d,
            Err(e) => return Err(e),
        };
        let name = t.word_string(contents, i, 2);
        stats.insert(name, d);
        assert(rest.drop_first() =~= t@.skip(i + 1));
        i = i + 1;
    }
    Ok(DiskStatsMeasurement { precise_time_ns, stats })
}

/// The counters of each device, stamped with the clock now, that the contents of
/// `/proc/diskstats` give; see `parse_proc_diskstats`.
pub fn read_and_parse_proc_diskstats(contents: &str) -> (r: Result<DiskStatsMeasurement>)
    ensures
        r is Ok <==> diskstats(contents@) is Some,
        r is Ok ==> Some(r->Ok_0.stats@) == diskstats(contents@),
        r is Err ==> r->Err_0 is UnexpectedContent,
{
    let time = precise_time_ns();
    parse_proc_diskstats(contents, time)
}

} // verus!
