//! Space and inode use of mounted file systems, from the output of `df` and `df -i`.
use crate::error::unexpected;
use crate::text::{char_vec, parse_u64_span, piece_spans, pieces, span_is, u64_value, word_spans, words};
use crate::Result;
use vstd::prelude::*;

verus! {

/// Space use of one file system, in blocks of one kilobyte.
#[derive(Debug, PartialEq, Eq)]
pub struct DiskUsage {
    pub filesystem: Option<String>,
    pub one_k_blocks: u64,
    pub one_k_blocks_used: u64,
    pub one_k_blocks_free: u64,
    pub used_percentage: u32,
    pub mountpoint: String,
}

/// Inode use of one file system.
#[derive(Debug, PartialEq, Eq)]
pub struct DiskInodeUsage {
    pub filesystem: Option<String>,
    pub inodes: u64,
    pub iused: u64,
    pub ifree: u64,
    pub iused_percentage: u32,
    pub mountpoint: String,
}

/// The rows of a `df` table, as the words of each.
pub open spec fn rows_view(rows: Seq<Vec<String>>) -> Seq<Seq<Seq<char>>> {
    rows.map_values(|r: Vec<String>| r@.map_values(|x: String| x@))
}

/// The rows that the lines `ls` of `df` output give, after `acc` and with `pending` the
/// file system name that a line of its own announced. A row has six words: file system,
/// size, used, available, use percentage, mount point. A long file system name stands on a
/// line of its own, and the other five words on the next line. Empty lines are passed over.
/// `None` where a line has another number of words, or five without a name before them.
pub open spec fn df_rows(
    ls: Seq<Seq<char>>,
    pending: Option<Seq<char>>,
    acc: Seq<Seq<Seq<char>>>,
) -> Option<Seq<Seq<Seq<char>>>>
    decreases ls.len(),
{
    if ls.len() == 0 {
        Some(acc)
    } else {
        let w = words(ls[0]);
        let rest = ls.drop_first();
        if w.len() == 0 {
            df_rows(rest, pending, acc)
        } else if w.len() == 1 {
            df_rows(rest, Some(w[0]), acc)
        } else if w.len() == 5 {
            match pending {
                Some(fs) => df_rows(rest, None, acc.push(seq![fs] + w)),
                None => None,
            }
        } else if w.len() == 6 {
            df_rows(rest, pending, acc.push(w))
        } else {
            None
        }
    }
}

/// The rows of the `df` output `s`, whose first line is a header.
pub open spec fn df_table(s: Seq<char>) -> Option<Seq<Seq<Seq<char>>>> {
    df_rows(pieces(s, '\n').drop_first(), None, Seq::empty())
}

/// The strings of the words of `s` that `spans` delimits, which are `ws`.
fn span_strings(s: &str, cs: &Vec<char>, spans: &Vec<(usize, usize)>, Ghost(ws): Ghost<
    Seq<Seq<char>>,
>) -> (r: Vec<String>)
    requires
        cs@ == s@,
        crate::text::spans_of(cs@, spans@, ws, 0, cs@.len() as int),
    ensures
        r@.map_values(|x: String| x@) == ws,
{
    let mut out: Vec<String> = Vec::new();
    let mut k: usize = 0;
    while k < spans.len()
        invariant
            cs@ == s@,
            crate::text::spans_of(cs@, spans@, ws, 0, cs@.len() as int),
            0 <= k <= spans@.len(),
            out@.map_values(|x: String| x@) =~= ws.take(k as int),
        decreases spans.len() - k,
    {
        let (lo, hi) = spans[k];
        assert(cs@.subrange(spans@[k as int].0 as int, spans@[k as int].1 as int) == ws[k as int]);
        let ghost before = out@;
        out.push(s.substring_char(lo, hi).to_owned());
        assert(out@.map_values(|x: String| x@) =~= before.map_values(|x: String| x@).push(ws[k as int]));
        assert(out@.map_values(|x: String| x@) =~= ws.take(k + 1));
        k = k + 1;
    }
    assert(ws.take(ws.len() as int) =~= ws);
    out
}

/// The rows of the output of `df` or `df -i`, each as its six words; see `df_table`.
pub fn parse_df_output(output: &str) -> (r: Result<Vec<Vec<String>>>)
    ensures
        r is Ok <==> df_table(output@) is Some,
        r is Ok ==> df_table(output@) == Some(rows_view(r->Ok_0@)),
        r is Err ==> r->Err_0 is UnexpectedContent,
{
    let cs = char_vec(output);
    let ls = piece_spans(&cs, 0, cs.len(), '\n');
    let ghost all = pieces(cs@, '\n');
    proof {
        assert(cs@.subrange(0, cs@.len() as int) =~= cs@);
        crate::text::lemma_pieces_len(cs@, '\n');
    }
    let mut out: Vec<Vec<String>> = Vec::new();
    let mut pending: Option<String> = None;
    let mut i: usize = 1;
    assert(all.skip(1) =~= all.drop_first());
    assert(rows_view(out@) =~= Seq::<Seq<Seq<char>>>::empty());
    while i < ls.len()
        invariant
            cs@ == output@,
            all == pieces(output@, '\n'),
            crate::text::spans_of(cs@, ls@, all, 0, cs@.len() as int),
            1 <= i <= ls@.len(),
            df_table(output@) == df_rows(
                all.skip(i as int),
                match pending {
                    Some(p) => Some(p@),
                    None => None,
                },
                rows_view(out@),
            ),
        decreases ls.len() - i,
    {
        let ghost rest = all.skip(i as int);
        assert(rest[0] == all[i as int]);
        assert(rest.drop_first() =~= all.skip(i + 1));
        let (lo, hi) = ls[i];
        let spans = word_spans(&cs, lo, hi);
        let ghost w = words(all[i as int]);
        let n = spans.len();
        if n == 0 {
        } else if n == 1 {
            pending = Some(output.substring_char(spans[0].0, spans[0].1).to_owned());
        } else if n == 5 {
            match pending {
                Some(fs) => {
                    let mut row = vec![fs];
                    let mut segs = span_strings(output, &cs, &spans, Ghost(w));
                    let ghost first = row@;
                    row.append(&mut segs);
                    let ghost before = out@;
                    out.push(row);
                    proof {
                        assert(row@.map_values(|x: String| x@) =~= seq![first[0]@] + w);
                        assert(rows_view(out@) =~= rows_view(before).push(
                            row@.map_values(|x: String| x@),
                        ));
                    }
                    pending = None;
                },
                None => {
                    return Err(unexpected("filesystem expected on previous line"));
                },
            }
        } else if n == 6 {
            let row = span_strings(output, &cs, &spans, Ghost(w));
            let ghost before = out@;
            out.push(row);
            assert(rows_view(out@) =~= rows_view(before).push(w));
        } else {
            return Err(unexpected("Incorrect number of segments"));
        }
        i = i + 1;
    }
    assert(all.skip(ls.len() as int) =~= Seq::<Seq<char>>::empty());
    Ok(out)
}

/// The file system that a `df` name gives: `none` names none.
pub open spec fn filesystem_of(w: Seq<char>) -> Option<Seq<char>> {
    if w == "none"@ {
        None
    } else {
        Some(w)
    }
}

/// The view of an optional file system name.
pub open spec fn fs_view(f: Option<String>) -> Option<Seq<char>> {
    match f {
        Some(s) => Some(s@),
        None => None,
    }
}

/// The percentage that a `df` use column such as `42%` gives: the number before its last
/// character, which must fit a `u32`.
pub open spec fn percentage_of(w: Seq<char>) -> Option<u32> {
    if w.len() == 0 {
        None
    } else {
        match u64_value(w.drop_last()) {
            Some(v) => if v <= u32::MAX {
                Some(v as u32)
            } else {
                None
            },
            None => None,
        }
    }
}

/// Whether a row of six words holds three counts and a percentage where a usage row has them.
pub open spec fn usage_row_ok(row: Seq<Seq<char>>) -> bool {
    &&& row.len() >= 6
    &&& u64_value(row[1]) is Some
    &&& u64_value(row[2]) is Some
    &&& u64_value(row[3]) is Some
    &&& percentage_of(row[4]) is Some
}

/// Whether `u` is the space use that the row `row` gives.
pub open spec fn usage_of(u: DiskUsage, row: Seq<Seq<char>>) -> bool {
    &&& fs_view(u.filesystem) == filesystem_of(row[0])
    &&& Some(u.one_k_blocks) == u64_value(row[1])
    &&& Some(u.one_k_blocks_used) == u64_value(row[2])
    &&& Some(u.one_k_blocks_free) == u64_value(row[3])
    &&& Some(u.used_percentage) == percentage_of(row[4])
    &&& u.mountpoint@ == row[5]
}

/// Whether `u` is the inode use that the row `row` gives.
pub open spec fn inode_usage_of(u: DiskInodeUsage, row: Seq<Seq<char>>) -> bool {
    &&& fs_view(u.filesystem) == filesystem_of(row[0])
    &&& Some(u.inodes) == u64_value(row[1])
    &&& Some(u.iused) == u64_value(row[2])
    &&& Some(u.ifree) == u64_value(row[3])
    &&& Some(u.iused_percentage) == percentage_of(row[4])
    &&& u.mountpoint@ == row[5]
}

/// The rows of `rows` that report inode use: those whose use column is not `-`.
pub open spec fn inode_rows(rows: Seq<Seq<Seq<char>>>) -> Seq<Seq<Seq<char>>>
    decreases rows.len(),
{
    if rows.len() == 0 {
        Seq::empty()
    } else {
        let k = inode_rows(rows.drop_last());
        if rows.last()[4] == "-"@ {
            k
        } else {
            k.push(rows.last())
        }
    }
}

/// Whether every row has six words, and every row that reports inode use is well formed.
pub open spec fn inode_table_ok(rows: Seq<Seq<Seq<char>>>) -> bool {
    forall|i: int|
        0 <= i < rows.len() ==> (#[trigger] rows[i]).len() >= 6 && (rows[i][4] != "-"@
            ==> usage_row_ok(rows[i]))
}

/// The percentage of a `df` use column such as `42%`; see `percentage_of`.
pub fn parse_percentage_segment(segment: &str) -> (r: Result<u32>)
    ensures
        r is Ok <==> percentage_of(segment@) is Some,
        r is Ok ==> percentage_of(segment@) == Some(r->Ok_0),
        r is Err ==> r->Err_0 is UnexpectedContent,
{
    let cs = char_vec(segment);
    if cs.len() == 0 {
        return Err(unexpected("Could not parse percentage segment"));
    }
    assert(cs@.subrange(0, cs@.len() - 1) =~= segment@.drop_last());
    match parse_u64_span(&cs, 0, cs.len() - 1) {
        Some(v) => if v <= u32::MAX as u64 {
            Ok(v as u32)
        } else {
            Err(unexpected("Could not parse percentage segment"))
        },
        None => Err(unexpected("Could not parse percentage segment")),
    }
}

/// The file system that a `df` name gives; see `filesystem_of`.
pub fn parse_filesystem(segment: &String) -> (r: Option<String>)
    ensures
        fs_view(r) == filesystem_of(segment@),
{
    let cs = char_vec(segment.as_str());
    let key = char_vec("none");
    proof {
        assert(cs@.subrange(0, cs@.len() as int) =~= cs@);
    }
    if span_is(&cs, 0, cs.len(), &key) {
        None
    } else {
        Some(segment.clone())
    }
}

/// The count in column `k` of a row.
fn count_at(row: &Vec<String>, k: usize) -> (r: Result<u64>)
    requires
        k < row@.len(),
    ensures
        match r {
            Ok(v) => u64_value(row@[k as int]@) == Some(v),
            Err(e) => u64_value(row@[k as int]@) is None && e is UnexpectedContent,
        },
{
    crate::text::parse_u64(row[k].as_str())
}

/// The space use that each row of `df` output gives, in order; see `usage_of`.
/// Fails with `UnexpectedContent` where a row is short or a column is not a number.
pub fn parse_df_usage_output(parsed_segments: Vec<Vec<String>>) -> (r: Result<Vec<DiskUsage>>)
    ensures
        r is Ok <==> forall|i: int|
            0 <= i < parsed_segments@.len() ==> usage_row_ok(
                #[trigger] rows_view(parsed_segments@)[i],
            ),
        r is Ok ==> r->Ok_0@.len() == parsed_segments@.len() && forall|i: int|
            0 <= i < parsed_segments@.len() ==> usage_of(
                #[trigger] r->Ok_0@[i],
                rows_view(parsed_segments@)[i],
            ),
        r is Err ==> r->Err_0 is UnexpectedContent,
{
    let ghost rows = rows_view(parsed_segments@);
    let mut out: Vec<DiskUsage> = Vec::new();
    let mut i: usize = 0;
    while i < parsed_segments.len()
        invariant
            rows == rows_view(parsed_segments@),
            0 <= i <= parsed_segments@.len(),
            out@.len() == i,
            forall|j: int| 0 <= j < i ==> usage_row_ok(#[trigger] rows[j]),
            forall|j: int| 0 <= j < i ==> usage_of(#[trigger] out@[j], rows[j]),
        decreases parsed_segments.len() - i,
    {
        let row = &parsed_segments[i];
        assert(rows[i as int] == row@.map_values(|x: String| x@));
        if row.len() < 6 {
            return Err(unexpected("Incorrect number of segments"));
        }
        let one_k_blocks = match count_at(row, 1) {
            Ok(v) => v,
            Err(e) => return Err(e),
        };
        let one_k_blocks_used = match count_at(row, 2) {
            Ok(v) => v,
            Err(e) => return Err(e),
        };
        let one_k_blocks_free = match count_at(row, 3) {
            Ok(v) => v,
            Err(e) => return Err(e),
        };
        let used_percentage = match parse_percentage_segment(row[4].as_str()) {
            Ok(v) => v,
            Err(e) => return Err(e),
        };
        let usage = DiskUsage {
            filesystem: parse_filesystem(&row[0]),
            one_k_blocks,
            one_k_blocks_used,
            one_k_blocks_free,
            used_percentage,
            mountpoint: row[5].clone(),
        };
        out.push(usage);
        i = i + 1;
    }
    Ok(out)
}

/// The inode use that each row of `df -i` output gives, in order, leaving out the rows whose
/// use column is `-` (file systems without inodes); see `inode_usage_of`. Fails with
/// `UnexpectedContent` where a row is short, or a row kept has a column that is not a
/// number.
pub fn parse_df_inodes_output(parsed_segments: Vec<Vec<String>>) -> (r: Result<
    Vec<DiskInodeUsage>,
>)
    ensures
        r is Ok <==> inode_table_ok(rows_view(parsed_segments@)),
        r is Ok ==> {
            let kept = inode_rows(rows_view(parsed_segments@));
            &&& r->Ok_0@.len() == kept.len()
            &&& forall|i: int| 0 <= i < kept.len() ==> inode_usage_of(#[trigger] r->Ok_0@[i], kept[i])
        },
        r is Err ==> r->Err_0 is UnexpectedContent,
{
    let ghost rows = rows_view(parsed_segments@);
    let dash = char_vec("-");
    let mut out: Vec<DiskInodeUsage> = Vec::new();
    let mut i: usize = 0;
    while i < parsed_segments.len()
        invariant
            rows == rows_view(parsed_segments@),
            dash@ == "-"@,
            0 <= i <= parsed_segments@.len(),
            inode_table_ok(rows.take(i as int)),
            out@.len() == inode_rows(rows.take(i as int)).len(),
            forall|j: int|
                0 <= j < out@.len() ==> inode_usage_of(
                    #[trigger] out@[j],
                    inode_rows(rows.take(i as int))[j],
                ),
        decreases parsed_segments.len() - i,
    {
        let row = &parsed_segments[i];
        let ghost t1 = rows.take(i + 1);
        assert(rows[i as int] == row@.map_values(|x: String| x@));
        assert(t1.drop_last() =~= rows.take(i as int));
        assert(t1.last() == rows[i as int]);
        if row.len() < 6 {
            assert(!inode_table_ok(rows)) by {
                assert(rows[i as int].len() < 6);
            }
            return Err(unexpected("Incorrect number of segments"));
        }
        let pc = char_vec(row[4].as_str());
        proof {
            assert(pc@.subrange(0, pc@.len() as int) =~= pc@);
        }
        if span_is(&pc, 0, pc.len(), &dash) {
            proof {
                assert forall|j: int| 0 <= j < i + 1 implies (#[trigger] t1[j]).len() >= 6 && (t1[j][4]
                    != "-"@ ==> usage_row_ok(t1[j])) by {
                    if j < i {
                        assert(t1[j] == rows.take(i as int)[j]);
                    }
                }
            }
        } else {
            let inodes = match count_at(row, 1) {
                Ok(v) => v,
                Err(e) => {
                    assert(!inode_table_ok(rows)) by {
                        assert(!usage_row_ok(rows[i as int]));
                    }
                    return Err(e);
                },
            };
            let iused = match count_at(row, 2) {
                Ok(v) => v,
                Err(e) => {
                    assert(!inode_table_ok(rows)) by {
                        assert(!usage_row_ok(rows[i as int]));
                    }
                    return Err(e);
                },
            };
            let ifree = match count_at(row, 3) {
                Ok(v) => v,
                Err(e) => {
                    assert(!inode_table_ok(rows)) by {
                        assert(!usage_row_ok(rows[i as int]));
                    }
                    return Err(e);
                },
            };
            let iused_percentage = match parse_percentage_segment(row[4].as_str()) {
                Ok(v) => v,
                Err(e) => {
                    assert(!inode_table_ok(rows)) by {
                        assert(!usage_row_ok(rows[i as int]));
                    }
                    return Err(e);
                },
            };
            let usage = DiskInodeUsage {
                filesystem: parse_filesystem(&row[0]),
                inodes,
                iused,
                ifree,
                iused_percentage,
                mountpoint: row[5].clone(),
            };
            let ghost before = out@;
            out.push(usage);
            proof {
                assert forall|j: int| 0 <= j < i + 1 implies (#[trigger] t1[j]).len() >= 6 && (t1[j][4]
                    != "-"@ ==> usage_row_ok(t1[j])) by {
                    if j < i {
                        assert(t1[j] == rows.take(i as int)[j]);
                    }
                }
                assert forall|j: int| 0 <= j < out@.len() implies inode_usage_of(
                    #[trigger] out@[j],
                    inode_rows(t1)[j],
                ) by {
                    if j < before.len() {
                        assert(out@[j] == before[j]);
                    }
                }
            }
        }
        i = i + 1;
    }
    assert(rows.take(rows.len() as int) =~= rows);
    Ok(out)
}

} // verus!
