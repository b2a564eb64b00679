//! Rust toolchains through rustup: the toolchain asked for, reading
//! `rustup toolchain list` and `rustup component list`, the command lines,
//! where the toolchain's binaries are, the version recorded, and the
//! record kept.

use vstd::prelude::*;
use crate::text::{owned, concat2, trim, trim_spec, str_eq, starts_with, has_prefix, chars_of, contains_seq,
    contains_str, find_str, first_occurrence, occurs_at, string_from_chars};
use crate::paths::{joined, path_join};
use crate::model::{ToolEntry, ToolState};
use crate::uv::views;
use crate::go::push_string;
use crate::cargo::{nonblank, nonblank_version, words, split_whitespace};
use crate::yaml_text::{lines_of, lines, index_of, find_char, replace_all, replace_str};

verus! {

/// The toolchain a rustup tool installs: its version, which must not be
/// blank.
pub fn validate_toolchain_version(tool_entry: &ToolEntry) -> (r: Option<String>)
    ensures
        match r {
            Some(t) => nonblank(tool_entry.version) == Some(t@),
            None => nonblank(tool_entry.version) is None,
        },
{
    nonblank_version(&tool_entry.version)
}

/// Whether a listed name is `name` or a variant of it (`name-…`).
pub open spec fn names_item(listed: Seq<char>, name: Seq<char>) -> bool {
    listed == name || has_prefix(listed, name + "-"@)
}

/// A line of `rustup toolchain list` without surrounding blanks and
/// without its `(default)` marker.
pub open spec fn cleaned_toolchain_line(l: Seq<char>) -> Seq<char> {
    trim_spec(replace_all(trim_spec(l), "(default)"@, seq![]))
}

/// Whether `rustup toolchain list` output shows the toolchain.
pub open spec fn toolchain_listed(output: Seq<char>, toolchain: Seq<char>) -> bool {
    exists|i: int| 0 <= i < lines_of(output).len() && names_item(
        cleaned_toolchain_line(#[trigger] lines_of(output)[i]),
        toolchain,
    )
}

/// Whether a listed name is `name` or a variant of it.
fn is_named(listed: &str, name: &str) -> (r: bool)
    ensures
        r == names_item(listed@, name@),
{
    if str_eq(listed, name) {
        return true;
    }
    let p = concat2(name, "-");
    starts_with(listed, p.as_str())
}

/// Whether `rustup toolchain list` output shows the toolchain (see
/// [`toolchain_listed`]).
pub fn toolchain_in_list(output: &str, toolchain_name: &str) -> (r: bool)
    ensures
        r == toolchain_listed(output@, toolchain_name@),
{
    proof {
        reveal_strlit("(default)");
    }
    let cs = chars_of(output);
    let ls = lines(&cs);
    let marker = chars_of("(default)");
    let nothing: Vec<char> = Vec::new();
    let mut i: usize = 0;
    while i < ls.len()
        invariant
            cs@ == output@,
            marker@ == "(default)"@,
            marker@.len() == 9,
            nothing@.len() == 0,
            i <= ls@.len(),
            ls@.len() == lines_of(cs@).len(),
            forall|k: int| 0 <= k < ls@.len() ==> #[trigger] ls@[k]@ == lines_of(cs@)[k],
            forall|k: int| 0 <= k < i ==> !names_item(
                cleaned_toolchain_line(#[trigger] lines_of(output@)[k]),
                toolchain_name@,
            ),
        decreases ls@.len() - i,
    {
        let line = string_from_chars(ls[i].as_slice());
        let t = chars_of(trim(line.as_str()).as_str());
        let replaced = replace_str(&t, &marker, &nothing);
        let cleaned = trim(string_from_chars(replaced.as_slice()).as_str());
        proof {
            assert(nothing@ =~= Seq::<char>::empty());
            assert(line@ == lines_of(output@)[i as int]);
        }
        if is_named(cleaned.as_str(), toolchain_name) {
            return true;
        }
        i = i + 1;
    }
    false
}

/// Whether `rustup component list --installed` output shows the
/// component: a line that, trimmed, is the component or a variant of it.
pub open spec fn component_listed(output: Seq<char>, component: Seq<char>) -> bool {
    exists|i: int| 0 <= i < lines_of(output).len() && names_item(
        trim_spec(#[trigger] lines_of(output)[i]),
        component,
    )
}

/// Whether the component list shows the component (see
/// [`component_listed`]).
pub fn component_in_list(output: &str, component: &str) -> (r: bool)
    ensures
        r == component_listed(output@, component@),
{
    let cs = chars_of(output);
    let ls = lines(&cs);
    let mut i: usize = 0;
    while i < ls.len()
        invariant
            cs@ == output@,
            i <= ls@.len(),
            ls@.len() == lines_of(cs@).len(),
            forall|k: int| 0 <= k < ls@.len() ==> #[trigger] ls@[k]@ == lines_of(cs@)[k],
            forall|k: int| 0 <= k < i ==> !names_item(trim_spec(#[trigger] lines_of(output@)[k]), component@),
        decreases ls@.len() - i,
    {
        let line = string_from_chars(ls[i].as_slice());
        let t = trim(line.as_str());
        proof {
            assert(line@ == lines_of(output@)[i as int]);
        }
        if is_named(t.as_str(), component) {
            return true;
        }
        i = i + 1;
    }
    false
}

/// Whether every component is shown in the list of a toolchain's
/// installed components.
pub fn components_installed(output: &str, components: &Vec<String>) -> (r: bool)
    ensures
        r == forall|j: int| 0 <= j < components@.len() ==> component_listed(
            output@,
            #[trigger] components@[j]@,
        ),
{
    let mut j: usize = 0;
    while j < components.len()
        invariant
            j <= components@.len(),
            forall|k: int| 0 <= k < j ==> component_listed(output@, #[trigger] components@[k]@),
        decreases components@.len() - j,
    {
        if !component_in_list(output, components[j].as_str()) {
            return false;
        }
        j = j + 1;
    }
    true
}

/// The arguments of `rustup` that install a toolchain.
pub fn toolchain_install_args(toolchain_name: &str) -> (r: Vec<String>)
    ensures
        views(r@) == seq!["toolchain"@, "install"@, toolchain_name@],
{
    let mut r: Vec<String> = Vec::new();
    push_string(&mut r, owned("toolchain"));
    push_string(&mut r, owned("install"));
    push_string(&mut r, owned(toolchain_name));
    proof {
        assert(views(r@) =~= seq!["toolchain"@, "install"@, toolchain_name@]);
    }
    r
}

/// The arguments of `rustup` that add a component to a toolchain.
pub fn component_add_args(component: &str, toolchain_name: &str) -> (r: Vec<String>)
    ensures
        views(r@) == seq!["component"@, "add"@, component@, "--toolchain"@, toolchain_name@],
{
    let mut r: Vec<String> = Vec::new();
    push_string(&mut r, owned("component"));
    push_string(&mut r, owned("add"));
    push_string(&mut r, owned(component));
    push_string(&mut r, owned("--toolchain"));
    push_string(&mut r, owned(toolchain_name));
    proof {
        assert(views(r@) =~= seq!["component"@, "add"@, component@, "--toolchain"@, toolchain_name@]);
    }
    r
}

/// Where a toolchain's binaries are: under `RUSTUP_HOME`, else under
/// `~/.rustup`, in `toolchains/<name>/bin`; else `/usr/local/bin`.
pub open spec fn rustup_install_path(toolchain: Seq<char>, rustup_home: Option<String>, home: Option<String>) -> Seq<
    char,
> {
    match rustup_home {
        Some(r) => joined(joined(joined(r@, "toolchains"@), toolchain), "bin"@),
        None => match home {
            Some(h) => joined(joined(joined(joined(h@, ".rustup"@), "toolchains"@), toolchain), "bin"@),
            None => "/usr/local/bin"@,
        },
    }
}

/// Where a toolchain's binaries are (see [`rustup_install_path`]).
pub fn determine_rustup_installation_path(
    toolchain_name: &str,
    rustup_home: Option<String>,
    home: Option<String>,
) -> (r: String)
    ensures
        r@ == rustup_install_path(toolchain_name@, rustup_home, home),
{
    match rustup_home {
        Some(r) => {
            let a = path_join(r.as_str(), "toolchains");
            let b = path_join(a.as_str(), toolchain_name);
            path_join(b.as_str(), "bin")
        },
        None => match home {
            Some(h) => {
                let a = path_join(h.as_str(), ".rustup");
                let b = path_join(a.as_str(), "toolchains");
                let c = path_join(b.as_str(), toolchain_name);
                path_join(c.as_str(), "bin")
            },
            None => owned("/usr/local/bin"),
        },
    }
}

/// The version `rustup show active-toolchain` gives: the first word of the
/// first line that mentions the toolchain.
pub open spec fn active_toolchain_version(ls: Seq<Seq<char>>, toolchain: Seq<char>) -> Option<Seq<char>>
    decreases ls.len(),
{
    if ls.len() == 0 {
        None
    } else if contains_seq(ls[0], toolchain) && words(ls[0]).len() > 0 {
        Some(words(ls[0])[0])
    } else {
        active_toolchain_version(ls.drop_first(), toolchain)
    }
}

/// The version `rustup show active-toolchain` output gives (see
/// [`active_toolchain_version`]).
pub fn parse_active_toolchain(output: &str, toolchain_name: &str) -> (r: Option<String>)
    ensures
        match r {
            Some(v) => active_toolchain_version(lines_of(output@), toolchain_name@) == Some(v@),
            None => active_toolchain_version(lines_of(output@), toolchain_name@) is None,
        },
{
    let cs = chars_of(output);
    let ls = lines(&cs);
    let ghost all = lines_of(output@);
    let mut i: usize = 0;
    proof {
        assert(all.subrange(0, all.len() as int) =~= all);
    }
    while i < ls.len()
        invariant
            cs@ == output@,
            all == lines_of(output@),
            i <= ls@.len(),
            ls@.len() == all.len(),
            forall|k: int| 0 <= k < ls@.len() ==> #[trigger] ls@[k]@ == all[k],
            active_toolchain_version(all.subrange(i as int, all.len() as int), toolchain_name@)
                == active_toolchain_version(all, toolchain_name@),
        decreases ls@.len() - i,
    {
        let line = string_from_chars(ls[i].as_slice());
        proof {
            assert(line@ == all[i as int]);
            let rest = all.subrange(i as int, all.len() as int);
            assert(rest[0] == all[i as int]);
            assert(rest.drop_first() =~= all.subrange(i + 1, all.len() as int));
        }
        if contains_str(line.as_str(), toolchain_name) {
            let ws = split_whitespace(line.as_str());
            if ws.len() > 0 {
                proof {
                    assert(views(ws@)[0] == ws@[0]@);
                }
                return Some(ws[0].clone());
            }
        }
        i = i + 1;
    }
    None
}

/// The version `rustc --version` output gives: in its first line, the word
/// after `rustc ` up to the next space.
pub open spec fn rustc_version(output: Seq<char>) -> Option<Seq<char>> {
    let ls = lines_of(output);
    if ls.len() == 0 {
        None
    } else {
        match first_occurrence(ls[0], "rustc "@) {
            Some(p) => {
                let part = ls[0].subrange(p + 6, ls[0].len() as int);
                match index_of(part, ' ') {
                    Some(e) => Some(part.subrange(0, e)),
                    None => None,
                }
            },
            None => None,
        }
    }
}

/// The version `rustc --version` output gives (see [`rustc_version`]).
#[verifier::rlimit(40)]
pub fn parse_rustc_version(output: &str) -> (r: Option<String>)
    ensures
        match r {
            Some(v) => rustc_version(output@) == Some(v@),
            None => rustc_version(output@) is None,
        },
{
    proof {
        reveal_strlit("rustc ");
    }
    let cs = chars_of(output);
    let ls = lines(&cs);
    if ls.len() == 0 {
        return None;
    }
    let first = string_from_chars(ls[0].as_slice());
    match find_str(first.as_str(), "rustc ") {
        Some(p) => {
            let n = first.as_str().unicode_len();
            assert("rustc "@.len() == 6);
            assert(p + 6 <= n);
            let part = first.as_str().substring_char(p + 6, n);
            assert(first@ == lines_of(output@)[0]);
            match find_char(part, ' ') {
                Some(e) => Some(part.substring_char(0, e).to_owned()),
                None => None,
            }
        },
        None => None,
    }
}

/// The version recorded: the one rustup reports for the toolchain, else
/// the toolchain's name.
pub fn recorded_version(toolchain_name: &str, active: Option<String>, rustc: Option<String>) -> (r: String)
    ensures
        r@ == match active {
            Some(a) => a@,
            None => match rustc {
                Some(v) => v@,
                None => toolchain_name@,
            },
        },
{
    match active {
        Some(a) => a,
        None => match rustc {
            Some(v) => v,
            None => owned(toolchain_name),
        },
    }
}

/// The record of a rustup installation: none unless the toolchain asked for
/// is not blank, is present or was installed, every component was added,
/// and the toolchain (with its components) is then verified; otherwise a
/// `rustup` record of a Rust toolchain.
pub fn install(
    tool_entry: &ToolEntry,
    toolchain_ready: bool,
    components_added: bool,
    verified: bool,
    install_path: &str,
    executed_hooks: Option<Vec<String>>,
    version: String,
    last_updated: Option<String>,
) -> (r: Option<ToolState>)
    ensures
        !(nonblank(tool_entry.version) is Some && toolchain_ready && components_added && verified) ==> r is None,
        nonblank(tool_entry.version) is Some && toolchain_ready && components_added && verified ==> (
        r matches Some(s) && s.install_method@ == "rustup"@ && s.package_type@ == "rust-toolchain"@
            && s.install_path@ == install_path@ && s.version == version && s.executed_post_installation_hooks
            == executed_hooks && s.last_updated == last_updated),
{
    if validate_toolchain_version(tool_entry).is_none() || !toolchain_ready || !components_added || !verified {
        return None;
    }
    Some(
        ToolState::new(
            tool_entry,
            install_path,
            owned("rustup"),
            owned("rust-toolchain"),
            version,
            None,
            last_updated,
            executed_hooks,
        ),
    )
}

} // verus!
