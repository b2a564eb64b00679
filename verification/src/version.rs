//! The `version` command's decision: comparing the running version with the
//! latest release after normalising both.

use vstd::prelude::*;
use crate::text::{owned, trim, trim_spec, chars_of, string_from_chars};

verus! {

/// This package's version.
pub const PACKAGE_VERSION: &'static str = "0.1.0";

/// The version of the running program.
pub fn get_local_version() -> (r: Result<String, String>)
    ensures
        r matches Ok(v) && v@ == PACKAGE_VERSION@,
{
    Ok(owned(PACKAGE_VERSION))
}

/// `s` without its leading `v` and `V` characters.
pub open spec fn without_v_prefix(s: Seq<char>) -> Seq<char>
    decreases s.len(),
{
    if s.len() > 0 && (s[0] == 'v' || s[0] == 'V') {
        without_v_prefix(s.drop_first())
    } else {
        s
    }
}

/// The ASCII characters of `s`, in order.
pub open spec fn ascii_only(s: Seq<char>) -> Seq<char>
    decreases s.len(),
{
    if s.len() == 0 {
        s
    } else {
        let rest = ascii_only(s.drop_last());
        if (s.last() as u32) < 128 {
            rest.push(s.last())
        } else {
            rest
        }
    }
}

/// A character with ASCII capitals made small.
pub open spec fn ascii_lower(c: char) -> char {
    if 'A' <= c && c <= 'Z' {
        ((c as u32) + 32) as char
    } else {
        c
    }
}

/// The normal form versions are compared in: trimmed, without a leading
/// `v`/`V`, ASCII only, lowercase.
pub open spec fn normal_version(v: Seq<char>) -> Seq<char> {
    ascii_only(without_v_prefix(trim_spec(v))).map_values(|c: char| ascii_lower(c))
}

/// The normal form of a version (see [`normal_version`]).
pub fn normalize_version(version: &str) -> (r: String)
    ensures
        r@ == normal_version(version@),
{
    let t = trim(version);
    let cs = chars_of(t.as_str());
    let n = cs.len();
    let mut start: usize = 0;
    proof {
        assert(cs@.subrange(0, n as int) =~= cs@);
    }
    while start < n && (cs[start] == 'v' || cs[start] == 'V')
        invariant
            n == cs@.len(),
            start <= n,
            without_v_prefix(cs@.subrange(start as int, n as int)) == without_v_prefix(cs@),
        decreases n - start,
    {
        proof {
            let rest = cs@.subrange(start as int, n as int);
            assert(rest.drop_first() =~= cs@.subrange(start + 1, n as int));
        }
        start = start + 1;
    }
    let ghost stripped = cs@.subrange(start as int, n as int);
    proof {
        assert(without_v_prefix(stripped) == stripped);
    }
    let mut out: Vec<char> = Vec::new();
    let mut i: usize = start;
    proof {
        assert(cs@.subrange(start as int, start as int) =~= Seq::<char>::empty());
        assert(out@ =~= ascii_only(cs@.subrange(start as int, start as int)).map_values(|c: char| ascii_lower(c)));
    }
    while i < n
        invariant
            n == cs@.len(),
            start <= i <= n,
            stripped == cs@.subrange(start as int, n as int),
            out@ == ascii_only(cs@.subrange(start as int, i as int)).map_values(|c: char| ascii_lower(c)),
        decreases n - i,
    {
        let c = cs[i];
        proof {
            assert(cs@.subrange(start as int, i + 1).drop_last() =~= cs@.subrange(start as int, i as int));
        }
        let ghost before = out@;
        if (c as u32) < 128 {
            let lc = if 'A' <= c && c <= 'Z' {
                ((c as u8) + 32) as char
            } else {
                c
            };
            out.push(lc);
            proof {
                assert(out@ =~= ascii_only(cs@.subrange(start as int, i + 1)).map_values(|c: char| ascii_lower(c)));
            }
        } else {
            proof {
                assert(out@ =~= ascii_only(cs@.subrange(start as int, i + 1)).map_values(|c: char| ascii_lower(c)));
            }
        }
        i = i + 1;
    }
    string_from_chars(out.as_slice())
}

/// What a version check found.
#[derive(Debug, Clone, PartialEq)]
pub enum VersionStatus {
    /// The running version is the latest release.
    UpToDate,
    /// A newer release than the running version exists.
    UpdateAvailable,
    /// The latest release could not be found out; the message says why.
    CheckFailed(String),
}

/// The version check: the running version against the latest release as
/// fetched, compared in their normal forms.
pub fn run(local_version: &str, latest_release: Result<String, String>) -> (r: VersionStatus)
    ensures
        match latest_release {
            Err(e) => r == VersionStatus::CheckFailed(e),
            Ok(latest) => if normal_version(local_version@) == normal_version(latest@) {
                r is UpToDate
            } else {
                r is UpdateAvailable
            },
        },
{
    match latest_release {
        Err(e) => VersionStatus::CheckFailed(e),
        Ok(latest) => {
            let a = normalize_version(local_version);
            let b = normalize_version(latest.as_str());
            if crate::text::str_eq(a.as_str(), b.as_str()) {
                VersionStatus::UpToDate
            } else {
                VersionStatus::UpdateAvailable
            }
        },
    }
}

} // verus!
