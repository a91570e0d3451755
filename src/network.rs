//! Bytes received and transmitted by each network interface, from `/proc/net/dev`.
use crate::clock::precise_time_ns;
use crate::error::unexpected;
use crate::named::{lookup, unique_names, with_entry, NamedStats};
use crate::rate::{calculate_time_difference, per_minute, time_adjusted};
use crate::text::{
    char_vec, lines, piece_spans, pieces, span_is, table, u64_value, word_spans, words, Words,
};
use crate::Result;
use vstd::prelude::*;

verus! {

/// The traffic of each interface, by interface name.
pub type Interfaces = NamedStats<NetworkTraffic>;

/// Network traffic in bytes: cumulative in a measurement, per minute in a rate.
#[derive(Clone, Copy, Debug, PartialEq, Eq, Structural)]
pub struct NetworkTraffic {
    pub received: u64,
    pub transmitted: u64,
}

/// The traffic of all interfaces read at a certain time.
#[derive(Debug)]
pub struct NetworkTrafficMeasurement {
    pub precise_time_ns: u64,
    pub interfaces: Interfaces,
}

/// The traffic of all interfaces per minute, between two measurements.
#[derive(Debug)]
pub struct NetworkTrafficPerMinute {
    pub interfaces: Interfaces,
}

impl NetworkTraffic {
    /// Whether no counter of `self` is above the same counter of `next`.
    pub open spec fn not_above(self, next: NetworkTraffic) -> bool {
        self.received <= next.received && self.transmitted <= next.transmitted
    }

    /// The per-minute rate of each counter from `self` to `next`, read `window_ns` apart.
    pub open spec fn rate_to(self, next: NetworkTraffic, window_ns: u64) -> NetworkTraffic {
        NetworkTraffic {
            received: per_minute(next.received - self.received, window_ns as int) as u64,
            transmitted: per_minute(next.transmitted - self.transmitted, window_ns as int) as u64,
        }
    }

    /// The per-minute rate of each counter from `self` to `next`, read `window_ns` apart;
    /// `UnexpectedContent` where a counter went down.
    fn per_minute_to(&self, next: &NetworkTraffic, window_ns: u64) -> (r: Result<NetworkTraffic>)
        requires
            window_ns > 0,
        ensures
            r is Ok <==> self.not_above(*next),
            r is Ok ==> r->Ok_0 == self.rate_to(*next, window_ns),
            r is Err ==> r->Err_0 is UnexpectedContent,
    {
        let received = match time_adjusted("received", next.received, self.received, window_ns) {
            Ok(v) => v,
            Err(e) => return Err(e),
        };
        let transmitted = match time_adjusted(
            "transmitted",
            next.transmitted,
            self.transmitted,
            window_ns,
        ) {
            Ok(v) => v,
            Err(e) => return Err(e),
        };
        Ok(NetworkTraffic { received, transmitted })
    }
}

/// Whether every interface of `prev` is in `next`, with no counter lower there.
pub open spec fn interfaces_follow(
    prev: Seq<(Seq<char>, NetworkTraffic)>,
    next: Seq<(Seq<char>, NetworkTraffic)>,
) -> bool {
    forall|i: int|
        0 <= i < prev.len() ==> match lookup(next, (#[trigger] prev[i]).0) {
            Some(n) => prev[i].1.not_above(n),
            None => false,
        }
}

impl NetworkTrafficMeasurement {
    /// The traffic per minute of each interface of this measurement, between it and
    /// `next_measurement`, a later one; interfaces that only `next_measurement` has are left
    /// out. Fails with `InvalidInput` unless `next_measurement` was taken strictly later,
    /// and then with `UnexpectedContent` if an interface is missing from it or a counter
    /// went down.
    pub fn calculate_per_minute(&self, next_measurement: &NetworkTrafficMeasurement) -> (r:
        Result<NetworkTrafficPerMinute>)
        ensures
            next_measurement.precise_time_ns <= self.precise_time_ns ==> r is Err
                && r->Err_0 is InvalidInput,
            self.precise_time_ns < next_measurement.precise_time_ns ==> (r is Ok
                <==> interfaces_follow(self.interfaces@, next_measurement.interfaces@)),
            self.precise_time_ns < next_measurement.precise_time_ns && !interfaces_follow(
                self.interfaces@,
                next_measurement.interfaces@,
            ) ==> r is Err && r->Err_0 is UnexpectedContent,
            r is Ok ==> {
                let out = r->Ok_0.interfaces@;
                let window = (next_measurement.precise_time_ns - self.precise_time_ns) as u64;
                &&& out.len() == self.interfaces@.len()
                &&& forall|i: int|
                    0 <= i < out.len() ==> (#[trigger] out[i]).0 == self.interfaces@[i].0
                        && out[i].1 == self.interfaces@[i].1.rate_to(
                        lookup(next_measurement.interfaces@, self.interfaces@[i].0)->0,
                        window,
                    )
            },
    {
        let window = match calculate_time_difference(
            self.precise_time_ns,
            next_measurement.precise_time_ns,
        ) {
            Ok(w) => w,
            Err(e) => return Err(e),
        };
        let prev = &self.interfaces;
        let next = &next_measurement.interfaces;
        let n = prev.len();
        let mut out: Vec<(String, NetworkTraffic)> = Vec::new();
        let mut i: usize = 0;
        while i < n
            invariant
                window > 0,
                window == next_measurement.precise_time_ns - self.precise_time_ns,
                n == prev@.len(),
                prev@ == self.interfaces@,
                next@ == next_measurement.interfaces@,
                unique_names(prev@),
                0 <= i <= n,
                out@.len() == i,
                forall|k: int|
                    0 <= k < i ==> match lookup(next@, (#[trigger] prev@[k]).0) {
                        Some(s) => prev@[k].1.not_above(s),
                        None => false,
                    },
                forall|k: int|
                    0 <= k < i ==> (#[trigger] out@[k]).0@ == prev@[k].0 && out@[k].1
                        == prev@[k].1.rate_to(lookup(next@, prev@[k].0)->0, window),
            decreases n - i,
        {
            let name = prev.name_at(i);
            let j = match next.position(name) {
                Some(j) => j,
                None => {
                    proof {
                        assert(lookup(next@, prev@[i as int].0) is None);
                        assert(!interfaces_follow(prev@, next@));
                    }
                    let mut message = name.clone();
                    message.append(" is not present in the next measurement");
                    return Err(crate::ProbeError::UnexpectedContent(message));
                },
            };
            assert(lookup(next@, prev@[i as int].0) == Some(next@[j as int].1));
            let traffic = match prev.value_at(i).per_minute_to(next.value_at(j), window) {
                Ok(s) => s,
                Err(e) => {
                    proof {
                        assert(!interfaces_follow(prev@, next@));
                    }
                    return Err(e);
                },
            };
            out.push((name.clone(), traffic));
            i = i + 1;
        }
        let ghost mapped = out@.map_values(|e: (String, NetworkTraffic)| (e.0@, e.1));
        assert forall|a: int, b: int| 0 <= a < b < mapped.len() implies (#[trigger] mapped[a]).0
            != (#[trigger] mapped[b]).0 by {
            assert(out@[a].0@ == prev@[a].0);
            assert(out@[b].0@ == prev@[b].0);
            assert(prev@[a].0 != prev@[b].0);
        }
        Ok(NetworkTrafficPerMinute { interfaces: NamedStats::from_entries(out) })
    }
}

/// The columns of the `bytes` fields in the lines of `/proc/net/dev`, counted in words from
/// the interface name, which is column zero.
#[derive(Clone, Copy, Debug, PartialEq, Eq, Structural)]
pub struct Positions {
    pub receive_bytes: usize,
    pub transmit_bytes: usize,
}

/// The position of the first occurrence of `x` in `s`, if any.
pub open spec fn first_index(s: Seq<Seq<char>>, x: Seq<char>) -> Option<int>
    decreases s.len(),
{
    if s.len() == 0 {
        None
    } else if s[0] == x {
        Some(0)
    } else {
        match first_index(s.drop_first(), x) {
            Some(i) => Some(i + 1),
            None => None,
        }
    }
}

/// The positions that the header line `h` gives. The line has three groups separated by
/// `|`: the name column, the receive columns and the transmit columns; each of the last two
/// must name a `bytes` column. `None` where it does not have that shape.
pub open spec fn header_positions(h: Seq<char>) -> Option<Positions> {
    let g = pieces(h, '|');
    if g.len() != 3 {
        None
    } else {
        let rg = words(g[1]);
        let tg = words(g[2]);
        match (first_index(rg, "bytes"@), first_index(tg, "bytes"@)) {
            (Some(a), Some(b)) => if 1 + rg.len() + b <= usize::MAX {
                Some(
                    Positions {
                        receive_bytes: (1 + a) as usize,
                        transmit_bytes: (1 + rg.len() + b) as usize,
                    },
                )
            } else {
                None
            },
            _ => None,
        }
    }
}

/// Where `key` first occurs among the words of `cs` that `spans` delimits, which are `ws`.
fn find_word(
    cs: &Vec<char>,
    spans: &Vec<(usize, usize)>,
    key: &Vec<char>,
    Ghost(ws): Ghost<Seq<Seq<char>>>,
) -> (r: Option<usize>)
    requires
        crate::text::spans_of(cs@, spans@, ws, 0, cs@.len() as int),
    ensures
        match r {
            Some(i) => first_index(ws, key@) == Some(i as int) && i < spans@.len(),
            None => first_index(ws, key@) is None,
        },
{
    let mut i: usize = 0;
    assert(ws.skip(0) =~= ws);
    while i < spans.len()
        invariant
            crate::text::spans_of(cs@, spans@, ws, 0, cs@.len() as int),
            0 <= i <= ws.len(),
            first_index(ws, key@) == match first_index(ws.skip(i as int), key@) {
                Some(k) => Some(k + i),
                None => None,
            },
        decreases spans.len() - i,
    {
        let ghost rest = ws.skip(i as int);
        assert(rest[0] == ws[i as int]);
        if span_is(cs, spans[i].0, spans[i].1, key) {
            return Some(i);
        }
        assert(rest.drop_first() =~= ws.skip(i + 1));
        i = i + 1;
    }
    None
}

/// The positions of the `bytes` fields that the header line of `/proc/net/dev` gives; see
/// `header_positions`.
pub fn get_positions(header_line: &str) -> (r: Result<Positions>)
    ensures
        r is Ok <==> header_positions(header_line@) is Some,
        r is Ok ==> header_positions(header_line@) == Some(r->Ok_0),
        r is Err ==> r->Err_0 is UnexpectedContent,
{
    let cs = char_vec(header_line);
    let groups = piece_spans(&cs, 0, cs.len(), '|');
    proof {
        assert(cs@.subrange(0, cs@.len() as int) =~= cs@);
    }
    if groups.len() != 3 {
        return Err(unexpected("Incorrect number of segments"));
    }
    let ghost g = pieces(cs@, '|');
    let receive = word_spans(&cs, groups[1].0, groups[1].1);
    let transmit = word_spans(&cs, groups[2].0, groups[2].1);
    let key = char_vec("bytes");
    let receive_pos = match find_word(&cs, &receive, &key, Ghost(words(g[1]))) {
        Some(p) => p,
        None => return Err(unexpected("bytes field not found for receive")),
    };
    let transmit_pos = match find_word(&cs, &transmit, &key, Ghost(words(g[2]))) {
        Some(p) => p,
        None => return Err(unexpected("bytes field not found for transmit")),
    };
    if receive.len() >= usize::MAX - transmit_pos {
        return Err(unexpected("too many columns"));
    }
    Ok(
        Positions {
            receive_bytes: 1 + receive_pos,
            transmit_bytes: 1 + receive.len() + transmit_pos,
        },
    )
}

/// `s` without the characters `c` at its start.
pub open spec fn strip_front(s: Seq<char>, c: char) -> Seq<char>
    decreases s.len(),
{
    if s.len() > 0 && s[0] == c {
        strip_front(s.drop_first(), c)
    } else {
        s
    }
}

/// `s` without the characters `c` at its end.
pub open spec fn strip_back(s: Seq<char>, c: char) -> Seq<char>
    decreases s.len(),
{
    if s.len() > 0 && s.last() == c {
        strip_back(s.drop_last(), c)
    } else {
        s
    }
}

/// The interface name that the first word `w` of a line gives: the word without colons at
/// either end.
pub open spec fn interface_name(w: Seq<char>) -> Seq<char> {
    strip_back(strip_front(w, ':'), ':')
}

/// Where, within `cs[lo..hi]`, the part without colons at either end lies.
fn trim_colons(cs: &Vec<char>, lo: usize, hi: usize) -> (r: (usize, usize))
    requires
        lo <= hi <= cs@.len(),
    ensures
        lo <= r.0 <= r.1 <= hi,
        cs@.subrange(r.0 as int, r.1 as int) == interface_name(cs@.subrange(lo as int, hi as int)),
{
    let ghost whole = cs@.subrange(lo as int, hi as int);
    let mut a = lo;
    while a < hi && cs[a] == ':'
        invariant
            lo <= a <= hi <= cs@.len(),
            strip_front(whole, ':') == strip_front(cs@.subrange(a as int, hi as int), ':'),
        decreases hi - a,
    {
        assert(cs@.subrange(a as int, hi as int).drop_first() =~= cs@.subrange(a + 1, hi as int));
        a = a + 1;
    }
    let mut b = hi;
    while b > a && cs[b - 1] == ':'
        invariant
            lo <= a <= b <= hi <= cs@.len(),
            interface_name(whole) == strip_back(cs@.subrange(a as int, b as int), ':'),
        decreases b - a,
    {
        assert(cs@.subrange(a as int, b as int).drop_last() =~= cs@.subrange(a as int, b - 1));
        b = b - 1;
    }
    (a, b)
}

/// The interface and its traffic that a line of `/proc/net/dev`, split into words `w`,
/// gives at the positions `p`; `None` where the line is too short or a count is not a
/// number.
pub open spec fn interface_line(w: Seq<Seq<char>>, p: Positions) -> Option<
    (Seq<char>, NetworkTraffic),
> {
    if w.len() <= p.transmit_bytes || w.len() <= p.receive_bytes {
        None
    } else {
        match (u64_value(w[p.receive_bytes as int]), u64_value(w[p.transmit_bytes as int])) {
            (Some(r), Some(t)) => Some(
                (interface_name(w[0]), NetworkTraffic { received: r, transmitted: t }),
            ),
            _ => None,
        }
    }
}

/// `acc` with the interfaces of the lines `rows` added in order, a later line of a name
/// replacing an earlier one; `None` where a line is malformed.
pub open spec fn scan_interfaces(
    rows: Seq<Seq<Seq<char>>>,
    p: Positions,
    acc: Seq<(Seq<char>, NetworkTraffic)>,
) -> Option<Seq<(Seq<char>, NetworkTraffic)>>
    decreases rows.len(),
{
    if rows.len() == 0 {
        Some(acc)
    } else {
        match interface_line(rows[0], p) {
            Some(e) => scan_interfaces(rows.drop_first(), p, with_entry(acc, e.0, e.1)),
            None => None,
        }
    }
}

/// The interfaces and their traffic that the contents `s` of `/proc/net/dev` give: a title
/// line, a header line that places the `bytes` columns, then a line per interface.
pub open spec fn network(s: Seq<char>) -> Option<Seq<(Seq<char>, NetworkTraffic)>> {
    let ls = lines(s);
    if ls.len() < 2 {
        None
    } else {
        match header_positions(ls[1]) {
            Some(p) => scan_interfaces(table(s).skip(2), p, Seq::empty()),
            None => None,
        }
    }
}

/// The traffic of each interface, stamped with `precise_time_ns`, that the contents of
/// `/proc/net/dev` give; see `network`.
pub fn parse_network(contents: &str, precise_time_ns: u64) -> (r: Result<
    NetworkTrafficMeasurement,
>)
    ensures
        r is Ok <==> network(contents@) is Some,
        r is Ok ==> r->Ok_0.precise_time_ns == precise_time_ns && Some(r->Ok_0.interfaces@)
            == network(contents@),
        r is Err ==> r->Err_0 is UnexpectedContent,
{
    let t = Words::new(contents);
    if t.rows.len() < 2 {
        return Err(unexpected("missing header lines"));
    }
    let positions = match get_positions(t.line(contents, 1)) {
        Ok(p) => p,
        Err(e) => return Err(e),
    };
    let mut interfaces: Interfaces = NamedStats::new();
    let mut i: usize = 2;
    assert(t@.skip(2).skip(0) =~= t@.skip(2));
    while i < t.rows.len()
        invariant
            t.wf(),
            t.chars@ == contents@,
            2 <= i <= t@.len(),
            header_positions(lines(contents@)[1]) == Some(positions),
            network(contents@) == scan_interfaces(t@.skip(i as int), positions, interfaces@),
        decreases t.rows.len() - i,
    {
        let ghost rest = t@.skip(i as int);
        let ghost w = t@[i as int];
        assert(rest[0] == w);
        let n = t.row_len(i);
        if n <= positions.transmit_bytes || n <= positions.receive_bytes {
            return Err(unexpected("too few columns for an interface"));
        }
        let received = t.word_u64(i, positions.receive_bytes);
        let transmitted = t.word_u64(i, positions.transmit_bytes);
        let traffic = match (received, transmitted) {
            (Some(r), Some(x)) => NetworkTraffic { received: r, transmitted: x },
            _ => return Err(unexpected("could not parse a byte count")),
        };
        let (lo, hi) = t.rows[i][0];
        proof {
            assert(crate::text::spans_of(t.chars@, t.rows@[i as int]@, words(lines(t.chars@)[i as int]), 0, t.chars@.len() as int));
        }
        let (a, b) = trim_colons(&t.chars, lo, hi);
        let name = contents.substring_char(a, b).to_owned();
        interfaces.insert(name, traffic);
        assert(rest.drop_first() =~= t@.skip(i + 1));
        i = i + 1;
    }
    Ok(NetworkTrafficMeasurement { precise_time_ns, interfaces })
}

/// The traffic of each interface, stamped with the clock now, that the contents of
/// `/proc/net/dev` give; see `parse_network`.
pub fn read_and_parse_network(contents: &str) -> (r: Result<NetworkTrafficMeasurement>)
    ensures
        r is Ok <==> network(contents@) is Some,
        r is Ok ==> Some(r->Ok_0.interfaces@) == network(contents@),
        r is Err ==> r->Err_0 is UnexpectedContent,
{
    let time = precise_time_ns();
    parse_network(contents, time)
}

} // verus!
