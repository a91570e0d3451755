//! Whether this process runs in a container, and which generation of cgroup accounting
//! files the host offers.
use crate::text::{char_vec, opt_view, span_is};
use crate::Result;
use vstd::string::StringExecFns;
use vstd::prelude::*;

verus! {

/// Whether `pat` occurs in `s`.
pub open spec fn occurs(s: Seq<char>, pat: Seq<char>) -> bool {
    exists|i: int| 0 <= i && i + pat.len() <= s.len() && #[trigger] s.subrange(i, i + pat.len()) == pat
}

/// Whether the cgroup listing `s` of a process names a container runtime: Docker, LXC or
/// Kubernetes.
pub open spec fn names_container(s: Seq<char>) -> bool {
    occurs(s, "/docker"@) || occurs(s, "/lxc"@) || occurs(s, "/kubepods"@)
}

/// Whether `pat` occurs in `s`.
pub fn contains(s: &Vec<char>, pat: &Vec<char>) -> (r: bool)
    ensures
        r == occurs(s@, pat@),
{
    if pat.len() > s.len() {
        return false;
    }
    if pat.len() == 0 {
        assert(s@.subrange(0int, 0int + pat@.len()) =~= pat@);
        return true;
    }
    let n = s.len();
    let last = n - pat.len();
    let mut i: usize = 0;
    while i <= last
        invariant
            0 < pat@.len() <= s@.len(),
            n == s@.len(),
            last == s@.len() - pat@.len(),
            0 <= i <= last + 1,
            forall|j: int| 0 <= j < i ==> #[trigger] s@.subrange(j, j + pat@.len()) != pat@,
        decreases last + 1 - i,
    {
        assert(i + pat@.len() <= s@.len());
        if span_is(s, i, i + pat.len(), pat) {
            return true;
        }
        i = i + 1;
    }
    proof {
        assert forall|j: int| 0 <= j && j + pat@.len() <= s@.len() implies #[trigger] s@.subrange(
            j,
            j + pat@.len(),
        ) != pat@ by {
            assert(j < i);
        }
    }
    false
}

/// Whether the cgroup listing of this process, `cgroups` where it could be read, names a
/// container runtime. A listing that could not be read names none.
pub fn determine_container_for_cgroups(cgroups: Option<&str>) -> (r: bool)
    ensures
        r == match opt_view(cgroups) {
            Some(s) => names_container(s),
            None => false,
        },
{
    match cgroups {
        Some(text) => {
            let s = char_vec(text);
            contains(&s, &char_vec("/docker")) || contains(&s, &char_vec("/lxc")) || contains(
                &s,
                &char_vec("/kubepods"),
            )
        },
        None => false,
    }
}

/// The generations of cgroup accounting files.
#[derive(Clone, Copy, Debug, PartialEq, Eq, Structural)]
pub enum CgroupVersion {
    V1,
    V2,
}

/// Which accounting files to read, given whether the version 2 marker file and the version 1
/// directory are present. Version 2 goes first: a host that moved to it may keep a stale
/// version 1 directory. Where neither is present the host keeps no cgroup accounting, which
/// is an error naming both paths.
pub fn select_cgroup_version(
    v2_marker: &str,
    v2_marker_present: bool,
    v1_dir: &str,
    v1_dir_present: bool,
) -> (r: Result<CgroupVersion>)
    ensures
        v2_marker_present ==> r == Ok::<CgroupVersion, crate::ProbeError>(CgroupVersion::V2),
        !v2_marker_present && v1_dir_present ==> r == Ok::<CgroupVersion, crate::ProbeError>(
            CgroupVersion::V1,
        ),
        !v2_marker_present && !v1_dir_present ==> r is Err && r->Err_0 is UnexpectedContent,
{
    if v2_marker_present {
        Ok(CgroupVersion::V2)
    } else if v1_dir_present {
        Ok(CgroupVersion::V1)
    } else {
        let mut message = "no cgroup accounting found: neither ".to_owned();
        message.append(v2_marker);
        message.append(" nor ");
        message.append(v1_dir);
        message.append(" exists");
        Err(crate::ProbeError::UnexpectedContent(message))
    }
}

} // verus!
