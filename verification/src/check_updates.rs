//! The `check-updates` command's decision for one tool: whether a newer
//! release is available, or what to tell the user to check by hand.

use vstd::prelude::*;
use crate::text::{owned, concat2, str_eq, starts_with, has_prefix, lowercase, to_lowercase};
use crate::planner::normalized_version;

verus! {

/// What the check says about one tool.
#[derive(Debug, Clone, PartialEq)]
pub enum UpdateCheck {
    /// A newer release exists: the configured version and the latest.
    UpdateAvailable { current: String, latest: String },
    /// The user has to look: the configured version and why.
    ManualCheck { current: String, status: String },
    /// The configured version is the latest.
    UpToDate,
}

/// The version shown for a tool: its configured version, `N/A` when none.
pub open spec fn shown_version(v: Option<String>) -> Seq<char> {
    match v {
        Some(s) => s@,
        None => "N/A"@,
    }
}

/// Whether the latest release is looked up for a tool: not for a tool on
/// `latest` (in any case) or without a version, nor for one whose source
/// has no installer.
pub open spec fn lookup_needed(version: Option<String>, has_installer: bool) -> bool {
    let cur = shown_version(version);
    !(lowercase(cur) == "latest"@ || cur == "N/A"@) && has_installer
}

/// What the check says of a tool with the given version, installer and
/// answer of the latest-release lookup (none when it was not made).
pub open spec fn classified(
    version: Option<String>,
    has_installer: bool,
    latest: Option<Result<String, String>>,
    r: UpdateCheck,
) -> bool {
    let cur = shown_version(version);
    if lowercase(cur) == "latest"@ || cur == "N/A"@ {
        r matches UpdateCheck::ManualCheck { current, status } && current@ == cur && status@
            == "Skipped (version is 'latest' or not specified)"@
    } else if !has_installer {
        r matches UpdateCheck::ManualCheck { current, status } && current@ == cur && status@
            == "No installer found for this source type"@
    } else {
        match latest {
            Some(Err(e)) => r matches UpdateCheck::ManualCheck { current, status } && current@ == cur && status@
                == "Error: "@ + e@,
            Some(Ok(l)) => if normalized_version(cur) != normalized_version(l@) && !has_prefix(l@, "Skipped"@) {
                r matches UpdateCheck::UpdateAvailable { current, latest } && current@ == cur && latest@ == l@
            } else if has_prefix(l@, "Skipped"@) {
                r matches UpdateCheck::ManualCheck { current, status } && current@ == cur && status@ == l@
            } else {
                r is UpToDate
            },
            None => false,
        }
    }
}

/// Whether the latest release is to be looked up for a tool (see
/// [`lookup_needed`]).
pub fn needs_latest_lookup(version: &Option<String>, has_installer: bool) -> (r: bool)
    ensures
        r == lookup_needed(*version, has_installer),
{
    let lower = match version {
        Some(v) => to_lowercase(v.as_str()),
        None => {
            proof {
                reveal_strlit("N/A");
            }
            return false;
        },
    };
    let cur = version.as_ref().unwrap();
    !(str_eq(lower.as_str(), "latest") || str_eq(cur.as_str(), "N/A")) && has_installer
}

/// Classifies a tool: tools on `latest` or without a version are skipped;
/// without an installer for the source the user is told so; otherwise the
/// latest release is compared with the configured version (a leading `v`
/// ignored), a `Skipped…` answer or an error going to manual checking.
pub fn classify(version: &Option<String>, has_installer: bool, latest: Result<String, String>) -> (r: UpdateCheck)
    ensures
        classified(*version, has_installer, Some(latest), r),
{
    let current = match version {
        Some(v) => v.clone(),
        None => owned("N/A"),
    };
    let lower = to_lowercase(current.as_str());
    if str_eq(lower.as_str(), "latest") || str_eq(current.as_str(), "N/A") {
        return UpdateCheck::ManualCheck {
            current,
            status: owned("Skipped (version is 'latest' or not specified)"),
        };
    }
    if !has_installer {
        return UpdateCheck::ManualCheck { current, status: owned("No installer found for this source type") };
    }
    match latest {
        Err(e) => UpdateCheck::ManualCheck { current, status: concat2("Error: ", e.as_str()) },
        Ok(l) => {
            let nc = crate::planner::normalize_version(current.as_str());
            let nl = crate::planner::normalize_version(l.as_str());
            let skipped = starts_with(l.as_str(), "Skipped");
            if !str_eq(nc.as_str(), nl.as_str()) && !skipped {
                UpdateCheck::UpdateAvailable { current, latest: l }
            } else if skipped {
                UpdateCheck::ManualCheck { current, status: l }
            } else {
                UpdateCheck::UpToDate
            }
        },
    }
}

/// Classifies a tool from the answer of the latest-release lookup, which
/// is made exactly when [`lookup_needed`] holds (none otherwise).
pub fn check_tool(version: &Option<String>, has_installer: bool, lookup: Option<Result<String, String>>) -> (r:
    UpdateCheck)
    requires
        lookup is Some <==> lookup_needed(*version, has_installer),
    ensures
        classified(*version, has_installer, lookup, r),
{
    match lookup {
        Some(l) => classify(version, has_installer, l),
        None => classify(version, has_installer, Err(String::new())),
    }
}

/// A table row: the tool's name, its configured version and the latest
/// version or the status.
pub open spec fn row_view(r: (String, String, String)) -> (Seq<char>, Seq<char>, Seq<char>) {
    (r.0@, r.1@, r.2@)
}

/// The rows of the "Updates Available" table, in the tools' order.
pub open spec fn update_rows(names: Seq<String>, checks: Seq<UpdateCheck>) -> Seq<(Seq<char>, Seq<char>, Seq<char>)>
    decreases checks.len(),
{
    if checks.len() == 0 || names.len() != checks.len() {
        seq![]
    } else {
        let rest = update_rows(names.drop_last(), checks.drop_last());
        match checks.last() {
            UpdateCheck::UpdateAvailable { current, latest } => rest.push((names.last()@, current@, latest@)),
            _ => rest,
        }
    }
}

/// The rows of the "Manual Check Required" table, in the tools' order.
pub open spec fn manual_rows(names: Seq<String>, checks: Seq<UpdateCheck>) -> Seq<(Seq<char>, Seq<char>, Seq<char>)>
    decreases checks.len(),
{
    if checks.len() == 0 || names.len() != checks.len() {
        seq![]
    } else {
        let rest = manual_rows(names.drop_last(), checks.drop_last());
        match checks.last() {
            UpdateCheck::ManualCheck { current, status } => rest.push((names.last()@, current@, status@)),
            _ => rest,
        }
    }
}

/// The two tables of the report: tools with an update available, and tools
/// to check by hand; tools that are up to date appear in neither.
pub fn update_tables(names: &Vec<String>, checks: &Vec<UpdateCheck>) -> (r: (
    Vec<(String, String, String)>,
    Vec<(String, String, String)>,
))
    requires
        names@.len() == checks@.len(),
    ensures
        r.0@.map_values(|x: (String, String, String)| row_view(x)) == update_rows(names@, checks@),
        r.1@.map_values(|x: (String, String, String)| row_view(x)) == manual_rows(names@, checks@),
{
    let mut ups: Vec<(String, String, String)> = Vec::new();
    let mut man: Vec<(String, String, String)> = Vec::new();
    let mut i: usize = 0;
    while i < checks.len()
        invariant
            names@.len() == checks@.len(),
            i <= checks@.len(),
            ups@.map_values(|x: (String, String, String)| row_view(x)) == update_rows(
                names@.subrange(0, i as int),
                checks@.subrange(0, i as int),
            ),
            man@.map_values(|x: (String, String, String)| row_view(x)) == manual_rows(
                names@.subrange(0, i as int),
                checks@.subrange(0, i as int),
            ),
        decreases checks@.len() - i,
    {
        proof {
            assert(names@.subrange(0, i + 1).drop_last() =~= names@.subrange(0, i as int));
            assert(checks@.subrange(0, i + 1).drop_last() =~= checks@.subrange(0, i as int));
        }
        let ghost ups0 = ups@;
        let ghost man0 = man@;
        match &checks[i] {
            UpdateCheck::UpdateAvailable { current, latest } => {
                ups.push((names[i].clone(), current.clone(), latest.clone()));
                proof {
                    assert(ups@ == ups0.push(ups@.last()));
                    assert(ups@.map_values(|x: (String, String, String)| row_view(x)) =~= ups0.map_values(
                        |x: (String, String, String)| row_view(x),
                    ).push(row_view(ups@.last())));
                }
            },
            UpdateCheck::ManualCheck { current, status } => {
                man.push((names[i].clone(), current.clone(), status.clone()));
                proof {
                    assert(man@ == man0.push(man@.last()));
                    assert(man@.map_values(|x: (String, String, String)| row_view(x)) =~= man0.map_values(
                        |x: (String, String, String)| row_view(x),
                    ).push(row_view(man@.last())));
                }
            },
            UpdateCheck::UpToDate => {},
        }
        i = i + 1;
    }
    proof {
        assert(names@.subrange(0, i as int) =~= names@);
        assert(checks@.subrange(0, i as int) =~= checks@);
    }
    (ups, man)
}

} // verus!
