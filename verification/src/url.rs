//! Files from direct URLs: what a URL must look like, how an unpacked
//! install is checked, and the record kept.

use vstd::prelude::*;
use crate::text::{owned, trim, trim_spec, starts_with, has_prefix, contains_seq, contains_str, str_eq};
use crate::model::{ToolEntry, ToolState};

verus! {

/// Why a URL is refused, if it is.
#[derive(Debug, Clone, PartialEq)]
pub enum UrlProblem {
    /// No URL, or a blank one.
    Missing,
    /// Not an `http://` or `https://` address.
    NotHttp,
    /// It holds a space.
    HasSpace,
}

/// The URL a URL tool downloads, trimmed: refused when missing or blank,
/// when it is not an `http://` or `https://` address, or when it holds a
/// space.
pub fn validate_url_configuration(tool_entry: &ToolEntry) -> (r: Result<String, UrlProblem>)
    ensures
        match tool_entry.url {
            None => r matches Err(UrlProblem::Missing),
            Some(u) => {
                let t = trim_spec(u@);
                if t.len() == 0 {
                    r matches Err(UrlProblem::Missing)
                } else if !has_prefix(t, "http://"@) && !has_prefix(t, "https://"@) {
                    r matches Err(UrlProblem::NotHttp)
                } else if contains_seq(t, " "@) {
                    r matches Err(UrlProblem::HasSpace)
                } else {
                    r matches Ok(v) && v@ == t
                }
            },
        },
{
    let url = match &tool_entry.url {
        Some(u) => {
            let t = trim(u.as_str());
            if t.as_str().unicode_len() == 0 {
                return Err(UrlProblem::Missing);
            }
            t
        },
        None => {
            return Err(UrlProblem::Missing);
        },
    };
    if !starts_with(url.as_str(), "http://") && !starts_with(url.as_str(), "https://") {
        return Err(UrlProblem::NotHttp);
    }
    if contains_str(url.as_str(), " ") {
        return Err(UrlProblem::HasSpace);
    }
    Ok(url)
}

/// Whether an unpacked install checks out: installer packages and disk
/// images always; a binary when it exists as a file; an extracted archive
/// when its directory exists and holds at least one entry.
pub fn verify_installation(package_type: &str, path_exists: bool, is_file: bool, has_entries: bool) -> (r: bool)
    ensures
        r == (if package_type@ == "macos-pkg-installer"@ || package_type@ == "macos-dmg-installer"@ {
            true
        } else if package_type@ == "binary"@ {
            path_exists && is_file
        } else {
            path_exists && has_entries
        }),
{
    if str_eq(package_type, "macos-pkg-installer") || str_eq(package_type, "macos-dmg-installer") {
        true
    } else if str_eq(package_type, "binary") {
        path_exists && is_file
    } else {
        path_exists && has_entries
    }
}

/// The URL a URL tool downloads, when [`validate_url_configuration`]
/// accepts it: trimmed, non-blank, `http://` or `https://`, without a
/// space.
pub open spec fn accepted_url(tool_entry: ToolEntry) -> Option<Seq<char>> {
    match tool_entry.url {
        None => None,
        Some(u) => {
            let t = trim_spec(u@);
            if t.len() == 0 || (!has_prefix(t, "http://"@) && !has_prefix(t, "https://"@)) || contains_seq(
                t,
                " "@,
            ) {
                None
            } else {
                Some(t)
            }
        },
    }
}

/// The record of a URL installation: none unless the tool's URL is
/// accepted (see [`accepted_url`]) and the file was fetched, installed and
/// checked; otherwise a `direct-url` record with that URL, at the version
/// asked for (`unknown` when none).
pub fn install(
    tool_entry: &ToolEntry,
    installed: Option<(String, String)>,
    verified: bool,
    executed_hooks: Option<Vec<String>>,
    last_updated: Option<String>,
) -> (r: Option<ToolState>)
    ensures
        accepted_url(*tool_entry) is None || installed is None || !verified ==> r is None,
        accepted_url(*tool_entry) is Some && installed is Some && verified ==> (r matches Some(s)
            && s.install_method@ == "direct-url"@ && s.package_type == (installed->0).0 && s.install_path@ == (
        installed->0).1@ && s.version@ == (match tool_entry.version {
            Some(v) => v@,
            None => "unknown"@,
        }) && s.url is Some && s.url->0@ == accepted_url(*tool_entry)->0
            && s.executed_post_installation_hooks == executed_hooks && s.last_updated == last_updated),
{
    let download_url = match validate_url_configuration(tool_entry) {
        Ok(u) => u,
        Err(_) => {
            return None;
        },
    };
    let (package_type, path) = match installed {
        Some(p) => p,
        None => {
            return None;
        },
    };
    if !verified {
        return None;
    }
    let version = match &tool_entry.version {
        Some(v) => v.clone(),
        None => owned("unknown"),
    };
    Some(
        ToolState::new(
            tool_entry,
            path.as_str(),
            owned("direct-url"),
            package_type,
            version,
            Some(download_url),
            last_updated,
            executed_hooks,
        ),
    )
}

} // verus!
