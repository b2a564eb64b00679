//! Release assets from GitHub: what a tool must give, the release API
//! address, which asset matching the platform is taken, and the record
//! kept.

use vstd::prelude::*;
use crate::text::{owned, concat2, concat3, trim, trim_spec, starts_with, has_prefix, has_suffix, contains_seq,
    contains_str, str_eq};
use crate::model::{ToolEntry, ToolState};

verus! {

/// The repository and tag a GitHub tool installs from, when both are given.
pub fn validate_github_configuration(tool_entry: &ToolEntry) -> (r: Option<(String, String)>)
    ensures
        match r {
            Some((repo, tag)) => tool_entry.repo == Some(repo) && tool_entry.tag == Some(tag),
            None => tool_entry.repo is None || tool_entry.tag is None,
        },
{
    match (&tool_entry.repo, &tool_entry.tag) {
        (Some(repo), Some(tag)) => Some((repo.clone(), tag.clone())),
        _ => None,
    }
}

/// The API address of a tagged release.
pub fn release_api_url(repo: &str, tag: &str) -> (r: String)
    ensures
        r@ == "https://api.github.com/repos/"@ + repo@ + "/releases/tags/"@ + tag@,
{
    let mut s = concat3("https://api.github.com/repos/", repo, "/releases/tags/");
    s.append(tag);
    s
}

/// The preference rank of an asset by its name: a macOS installer
/// package (`.pkg`) first, then a disk image (`.dmg`), then anything else.
pub open spec fn asset_rank(name: Seq<char>) -> nat {
    if has_suffix(name, ".pkg"@) {
        0
    } else if has_suffix(name, ".dmg"@) {
        1
    } else {
        2
    }
}

/// The position of the first asset with `ok` set and the given rank.
pub open spec fn first_asset(assets: Seq<(String, bool)>, rank: nat) -> Option<int>
    decreases assets.len(),
{
    if assets.len() == 0 {
        None
    } else {
        match first_asset(assets.drop_last(), rank) {
            Some(i) => Some(i),
            None => if assets.last().1 && asset_rank(assets.last().0@) == rank {
                Some(assets.len() - 1)
            } else {
                None
            },
        }
    }
}

/// The asset taken among those matching the platform: the first `.pkg`,
/// else the first `.dmg`, else the first other match; none when nothing
/// matches.
pub open spec fn selected_asset(assets: Seq<(String, bool)>) -> Option<int> {
    match first_asset(assets, 0) {
        Some(i) => Some(i),
        None => match first_asset(assets, 1) {
            Some(i) => Some(i),
            None => first_asset(assets, 2),
        },
    }
}

fn find_asset(assets: &Vec<(String, bool)>, rank: u8) -> (r: Option<usize>)
    requires
        rank <= 2,
    ensures
        match r {
            Some(i) => first_asset(assets@, rank as nat) == Some(i as int),
            None => first_asset(assets@, rank as nat) is None,
        },
{
    let mut i: usize = 0;
    while i < assets.len()
        invariant
            i <= assets@.len(),
            rank <= 2,
            first_asset(assets@.subrange(0, i as int), rank as nat) is None,
        decreases assets@.len() - i,
    {
        proof {
            assert(assets@.subrange(0, i + 1).drop_last() =~= assets@.subrange(0, i as int));
        }
        let name = assets[i].0.as_str();
        let r: u8 = if crate::text::ends_with(name, ".pkg") {
            0
        } else if crate::text::ends_with(name, ".dmg") {
            1
        } else {
            2
        };
        if assets[i].1 && r == rank {
            proof {
                lemma_first_asset_extend(assets@, rank as nat, i + 1);
            }
            return Some(i);
        }
        i = i + 1;
    }
    proof {
        assert(assets@.subrange(0, assets@.len() as int) =~= assets@);
    }
    None
}

proof fn lemma_first_asset_extend(s: Seq<(String, bool)>, rank: nat, k: int)
    requires
        0 < k <= s.len(),
        first_asset(s.subrange(0, k), rank) is Some,
    ensures
        first_asset(s, rank) == first_asset(s.subrange(0, k), rank),
    decreases s.len() - k,
{
    if k < s.len() {
        assert(s.subrange(0, k + 1).drop_last() =~= s.subrange(0, k));
        lemma_first_asset_extend(s, rank, k + 1);
    } else {
        assert(s.subrange(0, k) =~= s);
    }
}

/// The asset taken among a release's assets, each with whether it matches
/// the platform (see [`selected_asset`]).
pub fn select_platform_asset(assets: &Vec<(String, bool)>) -> (r: Option<usize>)
    ensures
        match r {
            Some(i) => selected_asset(assets@) == Some(i as int),
            None => selected_asset(assets@) is None,
        },
{
    match find_asset(assets, 0) {
        Some(i) => Some(i),
        None => match find_asset(assets, 1) {
            Some(i) => Some(i),
            None => find_asset(assets, 2),
        },
    }
}

/// The version recorded for a GitHub tool: the one it names, else its
/// release tag, else `unknown`.
pub open spec fn github_version(tool_entry: ToolEntry) -> Seq<char> {
    match tool_entry.version {
        Some(v) => v@,
        None => match tool_entry.tag {
            Some(t) => t@,
            None => "unknown"@,
        },
    }
}

/// The record of a GitHub installation: none unless the asset was fetched
/// and installed; otherwise a `github` record with the asset's address and
/// the version the tool names (its release tag when it names none).
pub fn install(
    tool_entry: &ToolEntry,
    installed: Option<(String, String)>,
    download_url: String,
    executed_hooks: Option<Vec<String>>,
    last_updated: Option<String>,
) -> (r: Option<ToolState>)
    ensures
        installed is None ==> r is None,
        installed is Some ==> (r matches Some(s) && s.install_method@ == "github"@
            && s.package_type == (installed->0).0 && s.install_path@ == (installed->0).1@ && s.version@
            == github_version(*tool_entry) && s.url == Some(download_url) && s.executed_post_installation_hooks
            == executed_hooks && s.last_updated == last_updated),
{
    let version = match &tool_entry.version {
        Some(v) => v.clone(),
        None => match &tool_entry.tag {
            Some(t) => t.clone(),
            None => owned("unknown"),
        },
    };
    match installed {
        Some((package_type, path)) => Some(
            ToolState::new(
                tool_entry,
                path.as_str(),
                owned("github"),
                package_type,
                version,
                Some(download_url),
                last_updated,
                executed_hooks,
            ),
        ),
        None => None,
    }
}

} // verus!
