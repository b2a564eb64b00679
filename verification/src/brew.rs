//! Homebrew formulae: the `brew install` command line, where the installed
//! binary is looked for, the version recorded, and the record kept of a
//! successful installation.

use vstd::prelude::*;
use crate::text::{owned, concat3, trim, trim_spec, first_occurrence, find_str};
use crate::paths::{joined, path_join};
use crate::model::{ToolEntry, ToolState};
use crate::uv::{views, clone_strings, append_strings};
use crate::yaml_text::{index_of, find_char};

verus! {

/// The formula argument: `name@version` for a version that is not blank,
/// the bare name otherwise.
pub open spec fn formula_argument(name: Seq<char>, version: Option<String>) -> Seq<char> {
    match version {
        Some(v) => if trim_spec(v@).len() > 0 {
            name + "@"@ + v@
        } else {
            name
        },
        None => name,
    }
}

/// The arguments of `brew`: `install`, the formula, then the tool's options.
pub open spec fn brew_install_args(tool: ToolEntry) -> Seq<Seq<char>> {
    seq!["install"@, formula_argument(tool.name@, tool.version)] + match tool.options {
        Some(o) => views(o@),
        None => Seq::empty(),
    }
}

/// The arguments of `brew` that install the tool (see [`brew_install_args`]).
pub fn prepare_brew_install_command(tool_entry: &ToolEntry) -> (r: Vec<String>)
    ensures
        views(r@) == brew_install_args(*tool_entry),
{
    let mut args: Vec<String> = Vec::new();
    args.push(owned("install"));
    let formula = match &tool_entry.version {
        Some(v) => {
            let t = trim(v.as_str());
            if t.as_str().unicode_len() > 0 {
                concat3(tool_entry.name.as_str(), "@", v.as_str())
            } else {
                tool_entry.name.clone()
            }
        },
        None => tool_entry.name.clone(),
    };
    args.push(formula);
    let ghost head = views(args@);
    proof {
        assert(head =~= seq!["install"@, formula_argument(tool_entry.name@, tool_entry.version)]);
    }
    match &tool_entry.options {
        Some(opts) => {
            append_strings(&mut args, opts);
        },
        None => {
            assert(views(args@) =~= head + Seq::<Seq<char>>::empty());
        },
    }
    args
}

/// The binary a tool installs: its new name when renamed, else its name.
pub open spec fn binary_name(tool: ToolEntry) -> Seq<char> {
    match tool.rename_to {
        Some(r) => r@,
        None => tool.name@,
    }
}

/// The places where a formula's binary is commonly found, in the order
/// they are tried.
pub fn common_brew_paths(bin_name: &str) -> (r: Vec<String>)
    ensures
        r@.len() == 4,
        r@[0]@ == joined("/opt/homebrew/bin"@, bin_name@),
        r@[1]@ == joined("/usr/local/bin"@, bin_name@),
        r@[2]@ == joined("/home/linuxbrew/.linuxbrew/bin"@, bin_name@),
        r@[3]@ == joined("/opt/homebrew/bin"@, bin_name@),
{
    let mut r: Vec<String> = Vec::new();
    r.push(path_join("/opt/homebrew/bin", bin_name));
    r.push(path_join("/usr/local/bin", bin_name));
    r.push(path_join("/home/linuxbrew/.linuxbrew/bin", bin_name));
    r.push(path_join("/opt/homebrew/bin", bin_name));
    r
}

/// The Homebrew prefix `brew --prefix` printed, when it printed one.
pub fn brew_prefix_from_output(stdout: &str) -> (r: Option<String>)
    ensures
        trim_spec(stdout@).len() > 0 ==> (r matches Some(p) && p@ == trim_spec(stdout@)),
        trim_spec(stdout@).len() == 0 ==> r is None,
{
    let p = trim(stdout);
    if p.as_str().unicode_len() > 0 {
        Some(p)
    } else {
        None
    }
}

/// Where the installed binary is: in the `bin` directory of the Homebrew
/// prefix when one is known, else the first common place where it exists,
/// else `/usr/local/bin`.
pub open spec fn brew_install_path(bin: Seq<char>, prefix: Option<String>, found: Option<String>) -> Seq<char> {
    match prefix {
        Some(p) => joined(joined(p@, "bin"@), bin),
        None => match found {
            Some(f) => f@,
            None => joined("/usr/local/bin"@, bin),
        },
    }
}

/// Where the installed binary is (see [`brew_install_path`]); `found` is
/// the first of [`common_brew_paths`] that exists.
pub fn determine_brew_installation_path(
    tool_entry: &ToolEntry,
    brew_prefix: Option<String>,
    found: Option<String>,
) -> (r: String)
    ensures
        r@ == brew_install_path(binary_name(*tool_entry), brew_prefix, found),
{
    let bin = match &tool_entry.rename_to {
        Some(r) => r.clone(),
        None => tool_entry.name.clone(),
    };
    match brew_prefix {
        Some(p) => {
            let b = path_join(p.as_str(), "bin");
            path_join(b.as_str(), bin.as_str())
        },
        None => match found {
            Some(f) => f,
            None => path_join("/usr/local/bin", bin.as_str()),
        },
    }
}

/// The version read from `brew info --json`: the text after the
/// `"version":"` marker up to the next quote.
pub open spec fn brew_info_version(out: Seq<char>) -> Option<Seq<char>> {
    match first_occurrence(out, "\"version\":\""@) {
        Some(p) => {
            let part = out.subrange(p + 11, out.len() as int);
            match index_of(part, '"') {
                Some(e) => Some(part.subrange(0, e)),
                None => None,
            }
        },
        None => None,
    }
}

/// The version read from `brew info --json` output (see
/// [`brew_info_version`]).
#[verifier::rlimit(40)]
pub fn parse_brew_info_version(info_output: &str) -> (r: Option<String>)
    ensures
        match r {
            Some(v) => brew_info_version(info_output@) == Some(v@),
            None => brew_info_version(info_output@) is None,
        },
{
    proof {
        reveal_strlit("\"version\":\"");
    }
    match find_str(info_output, "\"version\":\"") {
        Some(start) => {
            let n = info_output.unicode_len();
            let ghost marker = "\"version\":\""@;
            assert(marker.len() == 11);
            assert(start + 11 <= n);
            let part = info_output.substring_char(start + 11, n);
            assert(part@ == info_output@.subrange(start + 11, n as int));
            match find_char(part, '"') {
                Some(e) => {
                    let v = part.substring_char(0, e);
                    Some(owned(v))
                },
                None => None,
            }
        },
        None => None,
    }
}

/// The version recorded: the one asked for when it is not blank, else the
/// one Homebrew reports, else `latest`.
pub open spec fn brew_recorded_version(version: Option<String>, reported: Option<String>) -> Seq<char> {
    match version {
        Some(v) if trim_spec(v@).len() > 0 => v@,
        _ => match reported {
            Some(r) => r@,
            None => "latest"@,
        },
    }
}

/// The version recorded for a formula (see [`brew_recorded_version`]).
pub fn determine_installed_version(tool_entry: &ToolEntry, reported: Option<String>) -> (r: String)
    ensures
        r@ == brew_recorded_version(tool_entry.version, reported),
{
    if let Some(v) = &tool_entry.version {
        let t = trim(v.as_str());
        if t.as_str().unicode_len() > 0 {
            return v.clone();
        }
    }
    match reported {
        Some(r) => r,
        None => owned("latest"),
    }
}

/// The record of a Homebrew installation: none unless `brew install`
/// succeeded, the formula is then listed and its binary exists at
/// `install_path`; otherwise a `brew` binary record with the hooks that ran
/// and the version recorded.
pub fn install(
    tool_entry: &ToolEntry,
    install_succeeded: bool,
    formula_listed: bool,
    install_path: &str,
    binary_exists: bool,
    executed_hooks: Option<Vec<String>>,
    reported: Option<String>,
    last_updated: Option<String>,
) -> (r: Option<ToolState>)
    ensures
        !(install_succeeded && formula_listed && binary_exists) ==> r is None,
        install_succeeded && formula_listed && binary_exists ==> (r matches Some(s) && s.install_method@
            == "brew"@ && s.package_type@ == "binary-by-brew"@ && s.install_path@ == install_path@
            && s.version@ == brew_recorded_version(tool_entry.version, reported)
            && s.executed_post_installation_hooks == executed_hooks && s.url is None
            && s.renamed_to == tool_entry.rename_to && s.last_updated == last_updated),
{
    if !install_succeeded || !formula_listed || !binary_exists {
        return None;
    }
    let version = determine_installed_version(tool_entry, reported);
    Some(
        ToolState::new(
            tool_entry,
            install_path,
            owned("brew"),
            owned("binary-by-brew"),
            version,
            None,
            last_updated,
            executed_hooks,
        ),
    )
}


/// The configured version wins: a tool that names a version (not blank) is
/// recorded at exactly that version, whatever Homebrew reports.
pub proof fn law_configured_version_is_recorded(v: String, reported: Option<String>)
    requires
        trim_spec(v@).len() > 0,
    ensures
        brew_recorded_version(Some(v), reported) == v@,
{
}

} // verus!
