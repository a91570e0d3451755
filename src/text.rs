//! Reading text: splitting into lines and whitespace-separated words, and reading
//! unsigned decimal numbers.
use vstd::prelude::*;

verus! {

/// The Unicode `White_Space` characters, which separate words.
pub open spec fn is_space(c: char) -> bool {
    let n = c as u32;
    n == 0x20 || (0x09 <= n && n <= 0x0D) || n == 0x85 || n == 0xA0 || n == 0x1680 || (0x2000
        <= n && n <= 0x200A) || n == 0x2028 || n == 0x2029 || n == 0x202F || n == 0x205F || n
        == 0x3000
}

/// The words of `s`: its maximal runs of characters that are not white space, in order.
pub open spec fn words(s: Seq<char>) -> Seq<Seq<char>>
    decreases s.len(),
{
    if s.len() == 0 {
        Seq::empty()
    } else {
        let w = words(s.drop_last());
        let c = s.last();
        if is_space(c) {
            w
        } else if s.len() >= 2 && !is_space(s[s.len() - 2]) {
            w.update(w.len() - 1, w.last().push(c))
        } else {
            w.push(seq![c])
        }
    }
}

/// The pieces of `s` between occurrences of `sep`: one more than `s` holds separators.
pub open spec fn pieces(s: Seq<char>, sep: char) -> Seq<Seq<char>>
    decreases s.len(),
{
    if s.len() == 0 {
        seq![Seq::empty()]
    } else {
        let p = pieces(s.drop_last(), sep);
        if s.last() == sep {
            p.push(Seq::empty())
        } else {
            p.update(p.len() - 1, p.last().push(s.last()))
        }
    }
}

/// The lines of `s`: the pieces between line feeds, without the empty piece that follows a
/// final line feed.
pub open spec fn lines(s: Seq<char>) -> Seq<Seq<char>> {
    let p = pieces(s, '\n');
    if p.last().len() == 0 {
        p.drop_last()
    } else {
        p
    }
}

/// Whether `c` is an ASCII decimal digit.
pub open spec fn is_digit(c: char) -> bool {
    '0' as u32 <= c as u32 && c as u32 <= '9' as u32
}

/// The number that the decimal digits `s` spell.
pub open spec fn digits_value(s: Seq<char>) -> nat
    decreases s.len(),
{
    if s.len() == 0 {
        0
    } else {
        digits_value(s.drop_last()) * 10 + (s.last() as u32 - '0' as u32) as nat
    }
}

/// Whether `s` is a non-empty run of decimal digits.
pub open spec fn all_digits(s: Seq<char>) -> bool {
    s.len() > 0 && forall|i: int| 0 <= i < s.len() ==> is_digit(#[trigger] s[i])
}

/// The unsigned number that `s` writes: decimal digits, optionally after a `+` sign.
pub open spec fn decimal_value(s: Seq<char>) -> Option<nat> {
    let d = if s.len() > 0 && s[0] == '+' {
        s.drop_first()
    } else {
        s
    };
    if all_digits(d) {
        Some(digits_value(d))
    } else {
        None
    }
}

/// The `u64` that `s` writes, if it writes one that fits.
pub open spec fn u64_value(s: Seq<char>) -> Option<u64> {
    match decimal_value(s) {
        Some(v) => if v <= u64::MAX {
            Some(v as u64)
        } else {
            None
        },
        None => None,
    }
}

/// Whether each span of `spans` delimits, in `cs`, the corresponding entry of `parts`,
/// within `lo..hi`.
pub open spec fn spans_of(
    cs: Seq<char>,
    spans: Seq<(usize, usize)>,
    parts: Seq<Seq<char>>,
    lo: int,
    hi: int,
) -> bool {
    &&& spans.len() == parts.len()
    &&& forall|k: int|
        0 <= k < spans.len() ==> lo <= (#[trigger] spans[k]).0 <= spans[k].1 <= hi
            && cs.subrange(spans[k].0 as int, spans[k].1 as int) == parts[k]
}

/// Whether `c` is a white space character.
pub fn space(c: char) -> (r: bool)
    ensures
        r == is_space(c),
{
    let n = c as u32;
    n == 0x20 || (0x09 <= n && n <= 0x0D) || n == 0x85 || n == 0xA0 || n == 0x1680 || (0x2000
        <= n && n <= 0x200A) || n == 0x2028 || n == 0x2029 || n == 0x202F || n == 0x205F || n
        == 0x3000
}

/// The characters of `s`, in order.
pub fn char_vec(s: &str) -> (r: Vec<char>)
    ensures
        r@ == s@,
{
    let mut out: Vec<char> = Vec::new();
    for c in it: s.chars()
        invariant
            out@ == it.seq().take(it.index() as int),
    {
        out.push(c);
    }
    out
}

/// Where the words of `cs[lo..hi]` lie in `cs`.
pub fn word_spans(cs: &Vec<char>, lo: usize, hi: usize) -> (r: Vec<(usize, usize)>)
    requires
        lo <= hi <= cs@.len(),
    ensures
        spans_of(cs@, r@, words(cs@.subrange(lo as int, hi as int)), lo as int, hi as int),
{
    let mut out: Vec<(usize, usize)> = Vec::new();
    let mut start: Option<usize> = None;
    let mut i: usize = lo;
    while i < hi
        invariant
            lo <= i <= hi <= cs@.len(),
            match start {
                None => {
                    &&& spans_of(cs@, out@, words(cs@.subrange(lo as int, i as int)), lo as int, i as int)
                    &&& (i == lo || is_space(cs@[i - 1]))
                },
                Some(st) => {
                    let w = words(cs@.subrange(lo as int, i as int));
                    &&& w.len() == out@.len() + 1
                    &&& spans_of(cs@, out@, w.drop_last(), lo as int, i as int)
                    &&& lo <= st < i
                    &&& w.last() == cs@.subrange(st as int, i as int)
                    &&& !is_space(cs@[i - 1])
                },
            },
        decreases hi - i,
    {
        let c = cs[i];
        let ghost s0 = cs@.subrange(lo as int, i as int);
        let ghost s1 = cs@.subrange(lo as int, i + 1);
        assert(s1.drop_last() =~= s0);
        assert(s1.last() == c);
        assert(i > lo ==> s1[s1.len() - 2] == cs@[i - 1]);
        let sp = space(c);
        if sp {
            if let Some(st) = start {
                let ghost before = out@;
                out.push((st, i));
                proof {
                    let w = words(s0);
                    assert(words(s1) == w);
                    assert(out@.drop_last() =~= before);
                }
                assert(spans_of(cs@, out@, words(s1), lo as int, i + 1)) by {
                    let w = words(s0);
                    assert forall|k: int| 0 <= k < out@.len() implies lo <= (#[trigger] out@[k]).0
                        <= out@[k].1 <= i + 1 && cs@.subrange(out@[k].0 as int, out@[k].1 as int)
                        == w[k] by {
                        if k < out@.len() - 1 {
                            assert(out@[k] == before[k]);
                            assert(w.drop_last()[k] == w[k]);
                        }
                    }
                }
                start = None;
            }
        } else {
            match start {
                None => {
                    proof {
                        let w = words(s0);
                        assert(words(s1) == w.push(seq![c]));
                        assert(words(s1).drop_last() =~= w);
                        assert(cs@.subrange(i as int, i + 1) =~= seq![c]);
                    }
                    start = Some(i);
                },
                Some(st) => {
                    proof {
                        let w = words(s0);
                        assert(words(s1) == w.update(w.len() - 1, w.last().push(c)));
                        assert(words(s1).drop_last() =~= w.drop_last());
                        assert(cs@.subrange(st as int, i + 1) =~= cs@.subrange(st as int, i as int).push(c));
                    }
                },
            }
        }
        i = i + 1;
    }
    if let Some(st) = start {
        let ghost w = words(cs@.subrange(lo as int, hi as int));
        let ghost before = out@;
        out.push((st, hi));
        assert(spans_of(cs@, out@, w, lo as int, hi as int)) by {
            assert forall|k: int| 0 <= k < out@.len() implies lo <= (#[trigger] out@[k]).0
                <= out@[k].1 <= hi && cs@.subrange(out@[k].0 as int, out@[k].1 as int)
                == w[k] by {
                if k < out@.len() - 1 {
                    assert(out@[k] == before[k]);
                    assert(w.drop_last()[k] == w[k]);
                }
            }
        }
    }
    out
}

/// There is always at least one piece.
pub proof fn lemma_pieces_len(s: Seq<char>, sep: char)
    ensures
        pieces(s, sep).len() >= 1,
    decreases s.len(),
{
    if s.len() > 0 {
        lemma_pieces_len(s.drop_last(), sep);
    }
}

/// A run of digits writes at least what any of its prefixes writes.
pub proof fn lemma_digits_prefix(s: Seq<char>, k: int)
    requires
        0 <= k <= s.len(),
        forall|i: int| 0 <= i < s.len() ==> is_digit(#[trigger] s[i]),
    ensures
        digits_value(s.take(k)) <= digits_value(s),
    decreases s.len() - k,
{
    if k < s.len() {
        let t = s.drop_last();
        assert(t.take(k) =~= s.take(k));
        assert forall|i: int| 0 <= i < t.len() implies is_digit(#[trigger] t[i]) by {
            assert(t[i] == s[i]);
        }
        lemma_digits_prefix(t, k);
        assert(is_digit(s[s.len() - 1]));
    } else {
        assert(s.take(k) =~= s);
    }
}

/// Where the pieces of `cs[lo..hi]` between occurrences of `sep` lie in `cs`.
pub fn piece_spans(cs: &Vec<char>, lo: usize, hi: usize, sep: char) -> (r: Vec<(usize, usize)>)
    requires
        lo <= hi <= cs@.len(),
    ensures
        spans_of(cs@, r@, pieces(cs@.subrange(lo as int, hi as int), sep), lo as int, hi as int),
{
    let mut out: Vec<(usize, usize)> = Vec::new();
    let mut start: usize = lo;
    let mut i: usize = lo;
    proof {
        assert(cs@.subrange(lo as int, lo as int) =~= Seq::<char>::empty());
    }
    while i < hi
        invariant
            lo <= start <= i <= hi <= cs@.len(),
            ({
                let p = pieces(cs@.subrange(lo as int, i as int), sep);
                &&& p.len() == out@.len() + 1
                &&& spans_of(cs@, out@, p.drop_last(), lo as int, i as int)
                &&& p.last() == cs@.subrange(start as int, i as int)
            }),
        decreases hi - i,
    {
        let c = cs[i];
        let ghost s0 = cs@.subrange(lo as int, i as int);
        let ghost s1 = cs@.subrange(lo as int, i + 1);
        let ghost p0 = pieces(s0, sep);
        assert(s1.drop_last() =~= s0);
        assert(s1.last() == c);
        if c == sep {
            let ghost before = out@;
            out.push((start, i));
            proof {
                let p1 = pieces(s1, sep);
                assert(p1 == p0.push(Seq::empty()));
                assert(p1.drop_last() =~= p0);
                assert(cs@.subrange(i + 1, i + 1) =~= Seq::<char>::empty());
                assert forall|k: int| 0 <= k < out@.len() implies lo <= (#[trigger] out@[k]).0
                    <= out@[k].1 <= i + 1 && cs@.subrange(out@[k].0 as int, out@[k].1 as int)
                    == p0[k] by {
                    if k < out@.len() - 1 {
                        assert(out@[k] == before[k]);
                        assert(p0.drop_last()[k] == p0[k]);
                    }
                }
            }
            start = i + 1;
        } else {
            proof {
                let p1 = pieces(s1, sep);
                assert(p1 == p0.update(p0.len() - 1, p0.last().push(c)));
                assert(p1.drop_last() =~= p0.drop_last());
                assert(cs@.subrange(start as int, i + 1) =~= cs@.subrange(start as int, i as int).push(c));
            }
        }
        i = i + 1;
    }
    let ghost p = pieces(cs@.subrange(lo as int, hi as int), sep);
    let ghost before = out@;
    out.push((start, hi));
    proof {
        assert forall|k: int| 0 <= k < out@.len() implies lo <= (#[trigger] out@[k]).0
            <= out@[k].1 <= hi && cs@.subrange(out@[k].0 as int, out@[k].1 as int) == p[k] by {
            if k < out@.len() - 1 {
                assert(out@[k] == before[k]);
                assert(p.drop_last()[k] == p[k]);
            }
        }
    }
    out
}

/// Where the lines of `cs` lie in it.
pub fn line_spans(cs: &Vec<char>) -> (r: Vec<(usize, usize)>)
    ensures
        spans_of(cs@, r@, lines(cs@), 0, cs@.len() as int),
{
    let mut r = piece_spans(cs, 0, cs.len(), '\n');
    let ghost p = pieces(cs@, '\n');
    proof {
        assert(cs@.subrange(0, cs@.len() as int) =~= cs@);
        lemma_pieces_len(cs@, '\n');
    }
    let last = r[r.len() - 1];
    if last.0 == last.1 {
        let ghost before = r@;
        r.pop();
        proof {
            assert(cs@.subrange(last.0 as int, last.1 as int).len() == 0);
            assert forall|k: int| 0 <= k < r@.len() implies 0 <= (#[trigger] r@[k]).0
                <= r@[k].1 <= cs@.len() && cs@.subrange(r@[k].0 as int, r@[k].1 as int)
                == lines(cs@)[k] by {
                assert(r@[k] == before[k]);
            }
        }
    } else {
        proof {
            assert(cs@.subrange(last.0 as int, last.1 as int).len() != 0);
        }
    }
    r
}

/// Whether `cs[lo..hi]` is the text `key`.
pub fn span_is(cs: &Vec<char>, lo: usize, hi: usize, key: &Vec<char>) -> (r: bool)
    requires
        lo <= hi <= cs@.len(),
    ensures
        r == (cs@.subrange(lo as int, hi as int) == key@),
{
    if hi - lo != key.len() {
        return false;
    }
    let mut i: usize = 0;
    while i < key.len()
        invariant
            lo <= hi <= cs@.len(),
            hi - lo == key@.len(),
            0 <= i <= key@.len(),
            forall|j: int| 0 <= j < i ==> cs@[lo + j] == key@[j],
        decreases key.len() - i,
    {
        if cs[lo + i] != key[i] {
            assert(cs@.subrange(lo as int, hi as int)[i as int] != key@[i as int]);
            return false;
        }
        i = i + 1;
    }
    assert(cs@.subrange(lo as int, hi as int) =~= key@);
    true
}

/// The `u64` that `cs[lo..hi]` writes, if it writes one that fits.
pub fn parse_u64_span(cs: &Vec<char>, lo: usize, hi: usize) -> (r: Option<u64>)
    requires
        lo <= hi <= cs@.len(),
    ensures
        r == u64_value(cs@.subrange(lo as int, hi as int)),
{
    let ghost s = cs@.subrange(lo as int, hi as int);
    let mut start: usize = lo;
    if lo < hi && cs[lo] == '+' {
        start = lo + 1;
    }
    let ghost d = cs@.subrange(start as int, hi as int);
    assert(d =~= (if s.len() > 0 && s[0] == '+' { s.drop_first() } else { s }));
    if start == hi {
        return None;
    }
    let mut v: u64 = 0;
    let mut i: usize = start;
    assert(cs@.subrange(start as int, start as int) =~= Seq::<char>::empty());
    while i < hi
        invariant
            lo <= start <= i <= hi <= cs@.len(),
            d == cs@.subrange(start as int, hi as int),
            s == cs@.subrange(lo as int, hi as int),
            d == (if s.len() > 0 && s[0] == '+' { s.drop_first() } else { s }),
            start < hi,
            forall|j: int| start <= j < i ==> is_digit(#[trigger] cs@[j]),
            v == digits_value(cs@.subrange(start as int, i as int)),
        decreases hi - i,
    {
        let c = cs[i];
        let n = c as u32;
        if n < '0' as u32 || n > '9' as u32 {
            assert(!is_digit(d[i - start]));
            return None;
        }
        let dig = (n - '0' as u32) as u64;
        let ghost t = cs@.subrange(start as int, i + 1);
        assert(t.drop_last() =~= cs@.subrange(start as int, i as int));
        assert(digits_value(t) == v * 10 + dig);
        if v > (u64::MAX - dig) / 10 {
            proof {
                assert(v * 10 + dig > u64::MAX) by (nonlinear_arith)
                    requires
                        v > (u64::MAX - dig) / 10,
                        dig <= 9,
                ;
                if all_digits(d) {
                    assert(d.take(i + 1 - start) =~= t);
                    lemma_digits_prefix(d, i + 1 - start);
                }
            }
            return None;
        }
        assert(v * 10 + dig <= u64::MAX) by (nonlinear_arith)
            requires
                v <= (u64::MAX - dig) / 10,
                dig <= 9,
        ;
        v = v * 10 + dig;
        i = i + 1;
    }
    assert(all_digits(d)) by {
        assert forall|j: int| 0 <= j < d.len() implies is_digit(#[trigger] d[j]) by {
            assert(d[j] == cs@[start + j]);
        }
    }
    Some(v)
}

/// The `u64` that `segment` writes: decimal digits, optionally after a `+` sign.
pub fn parse_u64(segment: &str) -> (r: crate::Result<u64>)
    ensures
        r is Ok <==> u64_value(segment@) is Some,
        r is Ok ==> u64_value(segment@) == Some(r->Ok_0),
        r is Err ==> r->Err_0 is UnexpectedContent,
{
    let cs = char_vec(segment);
    proof {
        assert(cs@.subrange(0, cs@.len() as int) =~= cs@);
    }
    match parse_u64_span(&cs, 0, cs.len()) {
        Some(v) => Ok(v),
        None => Err(crate::error::unexpected("could not parse a number")),
    }
}

/// The words of each line of `s`.
pub open spec fn table(s: Seq<char>) -> Seq<Seq<Seq<char>>> {
    lines(s).map_values(|l: Seq<char>| words(l))
}

/// A text split into lines, and each line into words; spans index `chars`.
pub struct Words {
    pub chars: Vec<char>,
    pub line_spans: Vec<(usize, usize)>,
    pub rows: Vec<Vec<(usize, usize)>>,
}

impl Words {
    /// Whether the spans of `rows` delimit the words of each line of `chars`.
    pub open spec fn wf(&self) -> bool {
        &&& spans_of(self.chars@, self.line_spans@, lines(self.chars@), 0, self.chars@.len() as int)
        &&& self.rows@.len() == lines(self.chars@).len()
        &&& forall|k: int|
            0 <= k < self.rows@.len() ==> spans_of(
                self.chars@,
                (#[trigger] self.rows@[k])@,
                words(lines(self.chars@)[k]),
                0,
                self.chars@.len() as int,
            )
    }

    /// The words of each line.
    pub open spec fn view(&self) -> Seq<Seq<Seq<char>>> {
        table(self.chars@)
    }

    /// Splits `s` into lines and words.
    pub fn new(s: &str) -> (r: Words)
        ensures
            r.wf(),
            r.chars@ == s@,
    {
        let chars = char_vec(s);
        let spans = line_spans(&chars);
        let mut rows: Vec<Vec<(usize, usize)>> = Vec::new();
        let mut k: usize = 0;
        while k < spans.len()
            invariant
                spans_of(chars@, spans@, lines(chars@), 0, chars@.len() as int),
                0 <= k <= spans@.len(),
                rows@.len() == k,
                forall|j: int|
                    0 <= j < k ==> spans_of(
                        chars@,
                        (#[trigger] rows@[j])@,
                        words(lines(chars@)[j]),
                        0,
                        chars@.len() as int,
                    ),
            decreases spans.len() - k,
        {
            let (lo, hi) = spans[k];
            let ws = word_spans(&chars, lo, hi);
            let ghost before = rows@;
            rows.push(ws);
            proof {
                assert forall|j: int| 0 <= j < k + 1 implies spans_of(
                    chars@,
                    (#[trigger] rows@[j])@,
                    words(lines(chars@)[j]),
                    0,
                    chars@.len() as int,
                ) by {
                    if j < k {
                        assert(rows@[j] == before[j]);
                    }
                }
            }
            k = k + 1;
        }
        Words { chars, line_spans: spans, rows }
    }

    /// Line `line`, as a slice of `s`, the text this was made from.
    pub fn line<'a>(&self, s: &'a str, line: usize) -> (r: &'a str)
        requires
            self.wf(),
            self.chars@ == s@,
            line < self@.len(),
        ensures
            r@ == lines(s@)[line as int],
    {
        let (lo, hi) = self.line_spans[line];
        s.substring_char(lo, hi)
    }

    /// The number of words on line `line`.
    pub fn row_len(&self, line: usize) -> (r: usize)
        requires
            self.wf(),
            line < self@.len(),
        ensures
            r == self@[line as int].len(),
    {
        self.rows[line].len()
    }

    /// Whether word `k` of line `line` is `key`.
    pub fn word_is(&self, line: usize, k: usize, key: &Vec<char>) -> (r: bool)
        requires
            self.wf(),
            line < self@.len(),
            k < self@[line as int].len(),
        ensures
            r == (self@[line as int][k as int] == key@),
    {
        let (lo, hi) = self.rows[line][k];
        proof {
            assert(spans_of(self.chars@, self.rows@[line as int]@, words(lines(self.chars@)[line as int]), 0, self.chars@.len() as int));
        }
        span_is(&self.chars, lo, hi, key)
    }

    /// The `u64` that word `k` of line `line` writes, if any.
    pub fn word_u64(&self, line: usize, k: usize) -> (r: Option<u64>)
        requires
            self.wf(),
            line < self@.len(),
            k < self@[line as int].len(),
        ensures
            r == u64_value(self@[line as int][k as int]),
    {
        let (lo, hi) = self.rows[line][k];
        proof {
            assert(spans_of(self.chars@, self.rows@[line as int]@, words(lines(self.chars@)[line as int]), 0, self.chars@.len() as int));
        }
        parse_u64_span(&self.chars, lo, hi)
    }

    /// Word `k` of line `line`, as a string; `s` is the text this was made from.
    pub fn word_string(&self, s: &str, line: usize, k: usize) -> (r: String)
        requires
            self.wf(),
            self.chars@ == s@,
            line < self@.len(),
            k < self@[line as int].len(),
        ensures
            r@ == self@[line as int][k as int],
    {
        let (lo, hi) = self.rows[line][k];
        proof {
            assert(spans_of(self.chars@, self.rows@[line as int]@, words(lines(self.chars@)[line as int]), 0, self.chars@.len() as int));
        }
        s.substring_char(lo, hi).to_owned()
    }
}

/// Whether every entry of `found` holds a value.
pub open spec fn all_found(found: Seq<Option<u64>>) -> bool {
    forall|k: int| 0 <= k < found.len() ==> (#[trigger] found[k]) is Some
}

/// `found` after reading the line `row`: the value of the line goes to each key named by the
/// line's first word that has no value yet.
pub open spec fn record(
    found: Seq<Option<u64>>,
    keys: Seq<Seq<char>>,
    row: Seq<Seq<char>>,
) -> Seq<Option<u64>> {
    Seq::new(
        found.len(),
        |k: int|
            if found[k] is None && keys[k] == row[0] {
                u64_value(row[1])
            } else {
                found[k]
            },
    )
}

/// Reading `name value` lines from `rows` until every key has a value or the lines run out.
/// Each line read must hold at least two words, the second a number; `None` if one does not.
/// Lines whose first word is no key are read and otherwise passed over.
pub open spec fn scan_fields(
    rows: Seq<Seq<Seq<char>>>,
    keys: Seq<Seq<char>>,
    found: Seq<Option<u64>>,
) -> Option<Seq<Option<u64>>>
    decreases rows.len(),
{
    if all_found(found) || rows.len() == 0 {
        Some(found)
    } else if rows[0].len() < 2 || u64_value(rows[0][1]) is None {
        None
    } else {
        scan_fields(rows.drop_first(), keys, record(found, keys, rows[0]))
    }
}

/// The values that the keys `keys` have in the `name value` lines of `s`, as
/// `scan_fields` reads them.
pub open spec fn fields(s: Seq<char>, keys: Seq<Seq<char>>) -> Option<Seq<Option<u64>>> {
    scan_fields(table(s), keys, Seq::new(keys.len(), |k: int| None))
}

/// The texts of `keys`.
pub open spec fn key_views(keys: Seq<Vec<char>>) -> Seq<Seq<char>> {
    keys.map_values(|k: Vec<char>| k@)
}

/// Whether every entry of `found` holds a value.
fn every_found(found: &Vec<Option<u64>>) -> (r: bool)
    ensures
        r == all_found(found@),
{
    let mut k: usize = 0;
    while k < found.len()
        invariant
            0 <= k <= found@.len(),
            forall|j: int| 0 <= j < k ==> (#[trigger] found@[j]) is Some,
        decreases found.len() - k,
    {
        if found[k].is_none() {
            return false;
        }
        k = k + 1;
    }
    true
}

/// The values of `keys` in the `name value` lines of `s`; see `fields`.
pub fn read_fields(s: &str, keys: &Vec<Vec<char>>) -> (r: Option<Vec<Option<u64>>>)
    ensures
        match r {
            Some(v) => fields(s@, key_views(keys@)) == Some(v@) && v@.len() == keys@.len(),
            None => fields(s@, key_views(keys@)) is None,
        },
{
    let t = Words::new(s);
    let ghost kv = key_views(keys@);
    let mut found: Vec<Option<u64>> = Vec::new();
    let mut k: usize = 0;
    while k < keys.len()
        invariant
            0 <= k <= keys@.len(),
            found@ =~= Seq::new(k as nat, |j: int| None::<u64>),
        decreases keys.len() - k,
    {
        found.push(None);
        k = k + 1;
    }
    let mut i: usize = 0;
    assert(t@.skip(0) =~= t@);
    while i < t.rows.len()
        invariant
            t.wf(),
            t.chars@ == s@,
            kv == key_views(keys@),
            kv.len() == keys@.len(),
            0 <= i <= t@.len(),
            found@.len() == keys@.len(),
            fields(s@, kv) == scan_fields(t@.skip(i as int), kv, found@),
        decreases t.rows.len() - i,
    {
        let ghost rest = t@.skip(i as int);
        if every_found(&found) {
            return Some(found);
        }
        assert(rest[0] == t@[i as int]);
        if t.row_len(i) < 2 {
            return None;
        }
        let value = match t.word_u64(i, 1) {
            Some(v) => v,
            None => {
                return None;
            },
        };
        let ghost before = found@;
        let ghost after = record(before, kv, t@[i as int]);
        let mut k: usize = 0;
        while k < keys.len()
            invariant
                t.wf(),
                i < t@.len(),
                t@[i as int].len() >= 2,
                u64_value(t@[i as int][1]) == Some(value),
                kv == key_views(keys@),
                0 <= k <= keys@.len(),
                before.len() == keys@.len(),
                after == record(before, kv, t@[i as int]),
                found@.len() == keys@.len(),
                forall|j: int| 0 <= j < k ==> found@[j] == after[j],
                forall|j: int| k <= j < keys@.len() ==> found@[j] == before[j],
            decreases keys.len() - k,
        {
            if found[k].is_none() && t.word_is(i, 0, &keys[k]) {
                found.set(k, Some(value));
            }
            k = k + 1;
        }
        assert(found@ =~= after);
        assert(rest.drop_first() =~= t@.skip(i + 1));
        i = i + 1;
    }
    Some(found)
}

/// The `u64` that `s` writes as its only word, if it does.
pub open spec fn text_value(s: Seq<char>) -> Option<u64> {
    let w = words(s);
    if w.len() == 1 {
        u64_value(w[0])
    } else {
        None
    }
}

/// The `u64` that the first line of `s` writes as its only word, if it does.
pub open spec fn first_line_value(s: Seq<char>) -> Option<u64> {
    let l = lines(s);
    if l.len() > 0 {
        text_value(l[0])
    } else {
        None
    }
}

/// The texts of an optional string.
pub open spec fn opt_view(s: Option<&str>) -> Option<Seq<char>> {
    match s {
        Some(t) => Some(t@),
        None => None,
    }
}

/// The `u64` that `s` writes as its only word, if it does.
pub fn value_of_text(s: &str) -> (r: Option<u64>)
    ensures
        r == text_value(s@),
{
    let cs = char_vec(s);
    let spans = word_spans(&cs, 0, cs.len());
    proof {
        assert(cs@.subrange(0, cs@.len() as int) =~= cs@);
    }
    if spans.len() != 1 {
        return None;
    }
    parse_u64_span(&cs, spans[0].0, spans[0].1)
}

/// Whether the only word of `s` is `word`.
pub fn text_is(s: &str, word: &str) -> (r: bool)
    ensures
        r == (words(s@) == seq![word@]),
{
    let cs = char_vec(s);
    let key = char_vec(word);
    let spans = word_spans(&cs, 0, cs.len());
    proof {
        assert(cs@.subrange(0, cs@.len() as int) =~= cs@);
    }
    if spans.len() != 1 {
        proof {
            assert(seq![word@].len() == 1);
        }
        return false;
    }
    let r = span_is(&cs, spans[0].0, spans[0].1, &key);
    proof {
        if r {
            assert(words(s@) =~= seq![word@]);
        } else {
            assert(words(s@)[0] != seq![word@][0]);
        }
    }
    r
}

/// The `u64` that the first line of `s` writes as its only word, if it does.
pub fn value_of_first_line(s: &str) -> (r: Option<u64>)
    ensures
        r == first_line_value(s@),
{
    let cs = char_vec(s);
    let spans = line_spans(&cs);
    if spans.len() == 0 {
        return None;
    }
    let (lo, hi) = spans[0];
    let ws = word_spans(&cs, lo, hi);
    if ws.len() != 1 {
        return None;
    }
    parse_u64_span(&cs, ws[0].0, ws[0].1)
}

} // verus!
