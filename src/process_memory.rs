//! Resident memory of a process, from its `statm` file.
use crate::error::unexpected;
use crate::text::{char_vec, parse_u64_span, u64_value, word_spans, words};
use crate::Result;
use vstd::prelude::*;

verus! {

/// The resident set size in kilobytes that the contents `s` of a `statm` file give, with
/// pages of `page_size` bytes: the second word counts resident pages. `None` where there is
/// no second word, it is not a number, or the size is out of range.
pub open spec fn statm_rss(s: Seq<char>, page_size: u64) -> Option<u64> {
    let w = words(s);
    if w.len() < 2 {
        None
    } else {
        match u64_value(w[1]) {
            Some(pages) => if pages * (page_size / 1024) <= u64::MAX {
                Some((pages * (page_size / 1024)) as u64)
            } else {
                None
            },
            None => None,
        }
    }
}

/// The resident set size in kilobytes that the contents of a `statm` file give, for pages
/// of `page_size` bytes; see `statm_rss`.
pub fn read_and_get_current_rss(statm: &str, page_size: u64) -> (r: Result<u64>)
    ensures
        r is Ok <==> statm_rss(statm@, page_size) is Some,
        r is Ok ==> statm_rss(statm@, page_size) == Some(r->Ok_0),
        r is Err ==> r->Err_0 is UnexpectedContent,
{
    let cs = char_vec(statm);
    let spans = word_spans(&cs, 0, cs.len());
    proof {
        assert(cs@.subrange(0, cs@.len() as int) =~= cs@);
    }
    if spans.len() < 2 {
        return Err(unexpected("Incorrect number of segments"));
    }
    let pages = match parse_u64_span(&cs, spans[1].0, spans[1].1) {
        Some(p) => p,
        None => return Err(unexpected("Could not parse segment")),
    };
    let page_kb = page_size / 1024;
    match pages.checked_mul(page_kb) {
        Some(v) => Ok(v),
        None => Err(unexpected("resident size out of range")),
    }
}

} // verus!
