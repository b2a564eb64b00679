//! Rust crates through `cargo install`: whether the install is from a git
//! repository, the command line for either kind, whether `cargo install
//! --list` shows the tool, where the binary goes, and the version recorded.

use vstd::prelude::*;
use crate::text::{owned, concat2, has_prefix, trim, trim_spec, starts_with, is_ws, is_whitespace,
    chars_of, string_from_chars, str_eq, contains_seq};
use crate::paths::{joined, path_join};
use crate::model::{ToolEntry, ToolState};
use crate::uv::{views, clone_strings, append_strings, lemma_views_add};
use crate::yaml_text::{index_of, find_char, lines_of, lines};

verus! {

/// Whether some option starts with `p`.
pub open spec fn any_prefixed(opts: Seq<Seq<char>>, p: Seq<char>) -> bool {
    exists|i: int| 0 <= i < opts.len() && has_prefix(#[trigger] opts[i], p)
}

/// Whether some option starts with `p`.
pub fn any_option_prefixed(opts: &Vec<String>, p: &str) -> (r: bool)
    ensures
        r == any_prefixed(views(opts@), p@),
{
    let mut i: usize = 0;
    while i < opts.len()
        invariant
            i <= opts@.len(),
            forall|j: int| 0 <= j < i ==> !has_prefix(#[trigger] views(opts@)[j], p@),
        decreases opts@.len() - i,
    {
        if starts_with(opts[i].as_str(), p) {
            assert(has_prefix(views(opts@)[i as int], p@));
            return true;
        }
        i = i + 1;
    }
    false
}

/// Whether the tool is installed from a git repository: some option starts
/// with `--git`.
pub open spec fn git_based(tool: ToolEntry) -> bool {
    match tool.options {
        Some(o) => any_prefixed(views(o@), "--git"@),
        None => false,
    }
}

/// Whether the tool is installed from a git repository.
pub fn detect_install_source(tool_entry: &ToolEntry) -> (r: bool)
    ensures
        r == git_based(*tool_entry),
{
    match &tool_entry.options {
        Some(o) => any_option_prefixed(o, "--git"),
        None => false,
    }
}

/// The version asked for, when it is not blank.
pub open spec fn nonblank(v: Option<String>) -> Option<Seq<char>> {
    match v {
        Some(s) => if trim_spec(s@).len() > 0 {
            Some(s@)
        } else {
            None
        },
        None => None,
    }
}

/// The version asked for, when it is not blank.
pub fn nonblank_version(v: &Option<String>) -> (r: Option<String>)
    ensures
        match r {
            Some(s) => nonblank(*v) == Some(s@),
            None => nonblank(*v) is None,
        },
{
    match v {
        Some(s) => {
            let t = trim(s.as_str());
            if t.as_str().unicode_len() > 0 {
                Some(s.clone())
            } else {
                None
            }
        },
        None => None,
    }
}

/// Whether an option names a git source (`--git`, `--branch`, `--tag`,
/// `--rev`), which the registry install leaves out.
pub open spec fn git_option(o: Seq<char>) -> bool {
    has_prefix(o, "--git"@) || has_prefix(o, "--branch"@) || has_prefix(o, "--tag"@) || has_prefix(o, "--rev"@)
}

/// The options kept for an install from the registry.
pub open spec fn registry_options(opts: Seq<Seq<char>>) -> Seq<Seq<char>>
    decreases opts.len(),
{
    if opts.len() == 0 {
        opts
    } else {
        let rest = registry_options(opts.drop_last());
        if git_option(opts.last()) {
            rest
        } else {
            rest.push(opts.last())
        }
    }
}

/// The words of `s` after `cur`, split at whitespace as
/// `str::split_whitespace` does (`cur` is the word begun so far).
pub open spec fn words_after(s: Seq<char>, cur: Seq<char>) -> Seq<Seq<char>>
    decreases s.len(),
{
    if s.len() == 0 {
        if cur.len() > 0 {
            seq![cur]
        } else {
            seq![]
        }
    } else if is_ws(s[0]) {
        (if cur.len() > 0 {
            seq![cur]
        } else {
            seq![]
        }) + words_after(s.drop_first(), seq![])
    } else {
        words_after(s.drop_first(), cur.push(s[0]))
    }
}

/// The words of `s`, split at whitespace.
pub open spec fn words(s: Seq<char>) -> Seq<Seq<char>> {
    words_after(s, seq![])
}

/// The words of `s`, split at whitespace (see [`words`]).
pub fn split_whitespace(s: &str) -> (r: Vec<String>)
    ensures
        views(r@) == words(s@),
{
    let cs = chars_of(s);
    let n = cs.len();
    let mut out: Vec<String> = Vec::new();
    let mut cur: Vec<char> = Vec::new();
    let mut i: usize = 0;
    proof {
        assert(cs@.subrange(0, n as int) =~= cs@);
        assert(views(out@) + words_after(cs@.subrange(0, n as int), cur@) =~= words(s@));
    }
    while i < n
        invariant
            n == cs@.len(),
            cs@ == s@,
            i <= n,
            views(out@) + words_after(cs@.subrange(i as int, n as int), cur@) == words(s@),
        decreases n - i,
    {
        let rest = Ghost(cs@.subrange(i as int, n as int));
        proof {
            assert(rest@.drop_first() =~= cs@.subrange(i + 1, n as int));
            assert(rest@[0] == cs@[i as int]);
        }
        let c = cs[i];
        if is_whitespace(c) {
            if cur.len() > 0 {
                let ghost before = out@;
                let w = string_from_chars(cur.as_slice());
                out.push(w);
                proof {
                    lemma_views_add(before, seq![w]);
                    assert(views(seq![w]) =~= seq![cur@]);
                    assert(views(out@) =~= views(before) + seq![cur@]);
                }
            }
            cur = Vec::new();
        } else {
            cur.push(c);
        }
        i = i + 1;
    }
    if cur.len() > 0 {
        let ghost before = out@;
        let w = string_from_chars(cur.as_slice());
        out.push(w);
        proof {
            lemma_views_add(before, seq![w]);
            assert(views(seq![w]) =~= seq![cur@]);
            assert(views(out@) =~= views(before) + seq![cur@]);
        }
    }
    proof {
        assert(cs@.subrange(n as int, n as int) =~= Seq::<char>::empty());
    }
    out
}

/// The arguments an option of a git install becomes: its words when it
/// holds a space; the parts around its first `=` (the second only when not
/// empty) when it holds one; else the option itself.
pub open spec fn expanded_option(o: Seq<char>) -> Seq<Seq<char>> {
    if contains_seq(o, " "@) {
        words(o)
    } else {
        match index_of(o, '=') {
            Some(i) => seq![o.subrange(0, i)] + (if i + 1 < o.len() {
                seq![o.subrange(i + 1, o.len() as int)]
            } else {
                seq![]
            }),
            None => seq![o],
        }
    }
}

/// The arguments all options of a git install become, in order.
pub open spec fn expanded_options(opts: Seq<Seq<char>>) -> Seq<Seq<char>>
    decreases opts.len(),
{
    if opts.len() == 0 {
        seq![]
    } else {
        expanded_options(opts.drop_last()) + expanded_option(opts.last())
    }
}

/// The arguments one option of a git install becomes (see
/// [`expanded_option`]).
pub fn expand_option(o: &str) -> (r: Vec<String>)
    ensures
        views(r@) == expanded_option(o@),
{
    proof {
        reveal_strlit(" ");
    }
    if crate::text::contains_str(o, " ") {
        return split_whitespace(o);
    }
    let mut r: Vec<String> = Vec::new();
    match find_char(o, '=') {
        Some(i) => {
            let n = o.unicode_len();
            r.push(o.substring_char(0, i).to_owned());
            if i + 1 < n {
                r.push(o.substring_char(i + 1, n).to_owned());
            }
            proof {
                assert(views(r@) =~= expanded_option(o@));
            }
        },
        None => {
            r.push(owned(o));
            proof {
                assert(views(r@) =~= expanded_option(o@));
            }
        },
    }
    r
}

/// The arguments after `install` for a git install: the expanded options,
/// the crate, and the version as the tag unless a branch, tag or revision
/// is given.
pub open spec fn git_install_args(tool: ToolEntry) -> Seq<Seq<char>> {
    let opts = match tool.options {
        Some(o) => views(o@),
        None => seq![],
    };
    expanded_options(opts) + seq![tool.name@] + (if !any_prefixed(opts, "--branch"@) && !any_prefixed(
        opts,
        "--tag"@,
    ) && !any_prefixed(opts, "--rev"@) {
        match nonblank(tool.version) {
            Some(v) => seq!["--tag"@, v],
            None => seq![],
        }
    } else {
        seq![]
    })
}

/// The arguments after `install` for a registry install: the crate, the
/// version asked for, and the options that do not name a git source.
pub open spec fn registry_install_args(tool: ToolEntry) -> Seq<Seq<char>> {
    seq![tool.name@] + (match nonblank(tool.version) {
        Some(v) => seq!["--version"@, v],
        None => seq![],
    }) + match tool.options {
        Some(o) => registry_options(views(o@)),
        None => seq![],
    }
}

/// The arguments of `cargo`: `install`, the arguments for the kind of
/// install, and `--quiet`.
pub open spec fn cargo_install_args(tool: ToolEntry, git: bool) -> Seq<Seq<char>> {
    seq!["install"@] + (if git {
        git_install_args(tool)
    } else {
        registry_install_args(tool)
    }) + seq!["--quiet"@]
}

/// Appends one string.
fn push_view(v: &mut Vec<String>, s: String)
    ensures
        views(final(v)@) == views(old(v)@).push(s@),
{
    let ghost before = v@;
    v.push(s);
    proof {
        lemma_views_add(before, seq![s]);
        assert(views(seq![s]) =~= seq![s@]);
        assert(views(before).push(s@) =~= views(before) + seq![s@]);
        assert(v@ =~= before + seq![s]);
    }
}

/// The arguments of `cargo` that install the tool (see
/// [`cargo_install_args`]).
pub fn prepare_cargo_install_command(tool_entry: &ToolEntry, is_git: bool) -> (r: Vec<String>)
    ensures
        views(r@) == cargo_install_args(*tool_entry, is_git),
{
    let mut args: Vec<String> = Vec::new();
    push_view(&mut args, owned("install"));
    let ghost head = views(args@);
    let version = nonblank_version(&tool_entry.version);
    if is_git {
        let empty: Vec<String> = Vec::new();
        let opts = match &tool_entry.options {
            Some(o) => o,
            None => &empty,
        };
        let ghost ov = views(opts@);
        let mut i: usize = 0;
        proof {
            assert(ov.subrange(0, 0) =~= Seq::<Seq<char>>::empty());
            assert(views(args@) =~= head + expanded_options(ov.subrange(0, 0)));
        }
        while i < opts.len()
            invariant
                i <= opts@.len(),
                ov == views(opts@),
                views(args@) == head + expanded_options(ov.subrange(0, i as int)),
            decreases opts@.len() - i,
        {
            let ex = expand_option(opts[i].as_str());
            let ghost before = views(args@);
            append_strings(&mut args, &ex);
            proof {
                assert(ov.subrange(0, i + 1).drop_last() =~= ov.subrange(0, i as int));
                assert(ov.subrange(0, i + 1).last() == opts@[i as int]@);
            }
            i = i + 1;
        }
        proof {
            assert(ov.subrange(0, opts@.len() as int) =~= ov);
        }
        push_view(&mut args, tool_entry.name.clone());
        let has_branch = any_option_prefixed(opts, "--branch");
        let has_tag = any_option_prefixed(opts, "--tag");
        let has_rev = any_option_prefixed(opts, "--rev");
        if !has_branch && !has_tag && !has_rev {
            if let Some(v) = version {
                push_view(&mut args, owned("--tag"));
                push_view(&mut args, v);
            }
        }
    } else {
        push_view(&mut args, tool_entry.name.clone());
        if let Some(v) = version {
            push_view(&mut args, owned("--version"));
            push_view(&mut args, v);
        }
        if let Some(opts) = &tool_entry.options {
            let ghost ov = views(opts@);
            let ghost base = views(args@);
            let mut i: usize = 0;
            proof {
                assert(ov.subrange(0, 0) =~= Seq::<Seq<char>>::empty());
                assert(views(args@) =~= base + registry_options(ov.subrange(0, 0)));
            }
            while i < opts.len()
                invariant
                    i <= opts@.len(),
                    ov == views(opts@),
                    views(args@) == base + registry_options(ov.subrange(0, i as int)),
                decreases opts@.len() - i,
            {
                let o = opts[i].as_str();
                proof {
                    assert(ov.subrange(0, i + 1).drop_last() =~= ov.subrange(0, i as int));
                    assert(ov.subrange(0, i + 1).last() == opts@[i as int]@);
                }
                if !(starts_with(o, "--git") || starts_with(o, "--branch") || starts_with(o, "--tag")
                    || starts_with(o, "--rev")) {
                    push_view(&mut args, opts[i].clone());
                }
                i = i + 1;
            }
            proof {
                assert(ov.subrange(0, opts@.len() as int) =~= ov);
            }
        }
    }
    push_view(&mut args, owned("--quiet"));
    proof {
        assert(views(args@) =~= cargo_install_args(*tool_entry, is_git));
    }
    args
}

/// Whether `cargo install --list` output shows the tool: an indented line
/// that is the tool's name once trimmed.
pub open spec fn cargo_lists(output: Seq<char>, name: Seq<char>) -> bool {
    exists|i: int| 0 <= i < lines_of(output).len() && {
        let l = #[trigger] lines_of(output)[i];
        l.len() > 0 && is_ws(l[0]) && trim_spec(l) == name
    }
}

/// Whether `cargo install --list` output shows the tool (see
/// [`cargo_lists`]).
pub fn listed_in_cargo_install_list(output: &str, tool_name: &str) -> (r: bool)
    ensures
        r == cargo_lists(output@, tool_name@),
{
    let cs = chars_of(output);
    let ls = lines(&cs);
    let mut i: usize = 0;
    while i < ls.len()
        invariant
            cs@ == output@,
            i <= ls@.len(),
            ls@.len() == lines_of(cs@).len(),
            forall|k: int| 0 <= k < ls@.len() ==> #[trigger] ls@[k]@ == lines_of(cs@)[k],
            forall|k: int| 0 <= k < i ==> {
                let l = #[trigger] lines_of(output@)[k];
                !(l.len() > 0 && is_ws(l[0]) && trim_spec(l) == tool_name@)
            },
        decreases ls@.len() - i,
    {
        let line = &ls[i];
        if line.len() > 0 && is_whitespace(line[0]) {
            let s = string_from_chars(line.as_slice());
            let t = trim(s.as_str());
            if str_eq(t.as_str(), tool_name) {
                assert(ls@[i as int]@ == lines_of(output@)[i as int]);
                return true;
            }
        }
        assert(ls@[i as int]@ == lines_of(output@)[i as int]);
        i = i + 1;
    }
    false
}

/// Where `cargo install` puts the binary: under `CARGO_INSTALL_ROOT`, else
/// under `CARGO_HOME`, else under `~/.cargo`, each in `bin`; else
/// `/usr/local/bin`.
pub open spec fn cargo_install_path(
    name: Seq<char>,
    install_root: Option<String>,
    cargo_home: Option<String>,
    home: Option<String>,
) -> Seq<char> {
    match install_root {
        Some(r) => joined(joined(r@, "bin"@), name),
        None => match cargo_home {
            Some(c) => joined(joined(c@, "bin"@), name),
            None => match home {
                Some(h) => joined(joined(joined(h@, ".cargo"@), "bin"@), name),
                None => joined("/usr/local/bin"@, name),
            },
        },
    }
}

/// Where `cargo install` puts the binary, given the values of
/// `CARGO_INSTALL_ROOT`, `CARGO_HOME` and `HOME` (see
/// [`cargo_install_path`]).
pub fn determine_cargo_installation_path(
    tool_name: &str,
    install_root: Option<String>,
    cargo_home: Option<String>,
    home: Option<String>,
) -> (r: String)
    ensures
        r@ == cargo_install_path(tool_name@, install_root, cargo_home, home),
{
    match install_root {
        Some(r) => path_join(path_join(r.as_str(), "bin").as_str(), tool_name),
        None => match cargo_home {
            Some(c) => path_join(path_join(c.as_str(), "bin").as_str(), tool_name),
            None => match home {
                Some(h) => {
                    let a = path_join(h.as_str(), ".cargo");
                    let b = path_join(a.as_str(), "bin");
                    path_join(b.as_str(), tool_name)
                },
                None => path_join("/usr/local/bin", tool_name),
            },
        },
    }
}

/// What `split('=').nth(1)` gives: the text between the first `=` and the
/// next one (or the end).
pub open spec fn eq_value(o: Seq<char>) -> Option<Seq<char>> {
    match index_of(o, '=') {
        Some(i) => {
            let rest = o.subrange(i + 1, o.len() as int);
            match index_of(rest, '=') {
                Some(j) => Some(rest.subrange(0, j)),
                None => Some(rest),
            }
        },
        None => None,
    }
}

/// The position of the first option starting with `p`.
pub open spec fn first_prefixed(opts: Seq<Seq<char>>, p: Seq<char>) -> Option<int>
    decreases opts.len(),
{
    if opts.len() == 0 {
        None
    } else {
        match first_prefixed(opts.drop_last(), p) {
            Some(i) => Some(i),
            None => if has_prefix(opts.last(), p) {
                Some(opts.len() - 1)
            } else {
                None
            },
        }
    }
}

/// The position of the first option that is exactly `p`.
pub open spec fn first_equal(opts: Seq<Seq<char>>, p: Seq<char>) -> Option<int>
    decreases opts.len(),
{
    if opts.len() == 0 {
        None
    } else {
        match first_equal(opts.drop_last(), p) {
            Some(i) => Some(i),
            None => if opts.last() == p {
                Some(opts.len() - 1)
            } else {
                None
            },
        }
    }
}

/// The value given for `flag` among the options: after `=` in the first
/// option starting with the flag; else its second word when that option
/// is the flag and its value separated by white space; else the option
/// following the flag itself; none when the flag is not given.
pub open spec fn flag_value(opts: Seq<Seq<char>>, flag: Seq<char>) -> Option<Seq<char>> {
    match first_prefixed(opts, flag) {
        Some(i) => match eq_value(opts[i]) {
            Some(v) => Some(v),
            None => if words(opts[i]).len() >= 2 && words(opts[i])[0] == flag {
                Some(words(opts[i])[1])
            } else { match first_equal(opts, flag) {
                Some(p) => if p + 1 < opts.len() {
                    Some(opts[p + 1])
                } else {
                    None
                },
                None => None,
            } },
        },
        None => None,
    }
}

/// A revision shortened to its first seven characters.
pub open spec fn short_rev(v: Seq<char>) -> Seq<char> {
    if v.len() > 7 {
        v.subrange(0, 7)
    } else {
        v
    }
}

/// The version recorded for a crate: the one asked for when not blank;
/// for a git install the tag, `branch-` and the branch, or `rev-` and the
/// short revision, whichever is given first in that order; else `latest`.
pub open spec fn cargo_recorded_version(tool: ToolEntry, git: bool) -> Seq<char> {
    match nonblank(tool.version) {
        Some(v) => v,
        None => {
            let opts = match tool.options {
                Some(o) => views(o@),
                None => seq![],
            };
            if git && tool.options is Some {
                match flag_value(opts, "--tag"@) {
                    Some(t) => t,
                    None => match flag_value(opts, "--branch"@) {
                        Some(b) => "branch-"@ + b,
                        None => match flag_value(opts, "--rev"@) {
                            Some(r) => "rev-"@ + short_rev(r),
                            None => "latest"@,
                        },
                    },
                }
            } else {
                "latest"@
            }
        },
    }
}

/// What `split('=').nth(1)` gives (see [`eq_value`]).
pub fn option_eq_value(o: &str) -> (r: Option<String>)
    ensures
        match r {
            Some(v) => eq_value(o@) == Some(v@),
            None => eq_value(o@) is None,
        },
{
    match find_char(o, '=') {
        Some(i) => {
            let n = o.unicode_len();
            let rest = o.substring_char(i + 1, n);
            match find_char(rest, '=') {
                Some(j) => Some(rest.substring_char(0, j).to_owned()),
                None => Some(rest.to_owned()),
            }
        },
        None => None,
    }
}

/// The value given for `flag` (see [`flag_value`]).
pub fn option_flag_value(opts: &Vec<String>, flag: &str) -> (r: Option<String>)
    ensures
        match r {
            Some(v) => flag_value(views(opts@), flag@) == Some(v@),
            None => flag_value(views(opts@), flag@) is None,
        },
{
    let ghost ov = views(opts@);
    let mut i: usize = 0;
    let mut found: Option<usize> = None;
    while i < opts.len()
        invariant_except_break
            found is None,
        invariant
            i <= opts@.len(),
            ov == views(opts@),
            first_prefixed(ov.subrange(0, i as int), flag@) is None,
        ensures
            match found {
                Some(t) => first_prefixed(ov, flag@) == Some(t as int) && t < opts@.len(),
                None => first_prefixed(ov.subrange(0, opts@.len() as int), flag@) is None,
            },
        decreases opts@.len() - i,
    {
        proof {
            assert(ov.subrange(0, i + 1).drop_last() =~= ov.subrange(0, i as int));
            assert(ov[i as int] == opts@[i as int]@);
            assert(ov.subrange(0, i + 1).last() == ov[i as int]);
        }
        if starts_with(opts[i].as_str(), flag) {
            found = Some(i);
            proof {
                lemma_first_prefixed_prefix(ov, flag@, i as int);
            }
            break;
        }
        i = i + 1;
    }
    proof {
        if found is None {
            assert(ov.subrange(0, opts@.len() as int) =~= ov);
        }
    }
    let t = match found {
        Some(t) => t,
        None => {
            return None;
        },
    };
    proof {
        assert(ov[t as int] == opts@[t as int]@);
    }
    if let Some(v) = option_eq_value(opts[t].as_str()) {
        return Some(v);
    }
    let ws = split_whitespace(opts[t].as_str());
    if ws.len() >= 2 && str_eq(ws[0].as_str(), flag) {
        proof {
            assert(views(ws@)[0] == ws@[0]@ && views(ws@)[1] == ws@[1]@);
        }
        return Some(ws[1].clone());
    }
    proof {
        if views(ws@).len() >= 2 {
            assert(views(ws@)[0] == ws@[0]@);
        }
    }
    match find_equal_option(opts, flag) {
        Some(p) => {
            if p < opts.len() - 1 {
                assert(ov[p + 1] == opts@[p + 1]@);
                Some(opts[p + 1].clone())
            } else {
                None
            }
        },
        None => None,
    }
}

/// The position of the first option that is exactly `flag`.
fn find_equal_option(opts: &Vec<String>, flag: &str) -> (r: Option<usize>)
    ensures
        match r {
            Some(p) => first_equal(views(opts@), flag@) == Some(p as int) && p < opts@.len(),
            None => first_equal(views(opts@), flag@) is None,
        },
{
    let ghost ov = views(opts@);
    let mut p: usize = 0;
    while p < opts.len()
        invariant
            p <= opts@.len(),
            ov == views(opts@),
            first_equal(ov.subrange(0, p as int), flag@) is None,
        decreases opts@.len() - p,
    {
        proof {
            assert(ov.subrange(0, p + 1).drop_last() =~= ov.subrange(0, p as int));
            assert(ov[p as int] == opts@[p as int]@);
            assert(ov.subrange(0, p + 1).last() == ov[p as int]);
        }
        if str_eq(opts[p].as_str(), flag) {
            proof {
                lemma_first_equal_prefix(ov, flag@, p as int);
            }
            return Some(p);
        }
        p = p + 1;
    }
    proof {
        assert(ov.subrange(0, opts@.len() as int) =~= ov);
    }
    None
}

proof fn lemma_first_prefixed_prefix(s: Seq<Seq<char>>, p: Seq<char>, i: int)
    requires
        0 <= i < s.len(),
        first_prefixed(s.subrange(0, i), p) is None,
        has_prefix(s[i], p),
    ensures
        first_prefixed(s, p) == Some(i),
    decreases s.len() - i,
{
    assert(s.subrange(0, i + 1).drop_last() =~= s.subrange(0, i));
    if i + 1 < s.len() {
        lemma_first_prefixed_extend(s, p, i + 1);
    } else {
        assert(s.subrange(0, i + 1) =~= s);
    }
}

proof fn lemma_first_prefixed_extend(s: Seq<Seq<char>>, p: Seq<char>, k: int)
    requires
        0 < k <= s.len(),
        first_prefixed(s.subrange(0, k), p) is Some,
    ensures
        first_prefixed(s, p) == first_prefixed(s.subrange(0, k), p),
    decreases s.len() - k,
{
    if k < s.len() {
        assert(s.subrange(0, k + 1).drop_last() =~= s.subrange(0, k));
        lemma_first_prefixed_extend(s, p, k + 1);
    } else {
        assert(s.subrange(0, k) =~= s);
    }
}

proof fn lemma_first_equal_prefix(s: Seq<Seq<char>>, p: Seq<char>, i: int)
    requires
        0 <= i < s.len(),
        first_equal(s.subrange(0, i), p) is None,
        s[i] == p,
    ensures
        first_equal(s, p) == Some(i),
    decreases s.len() - i,
{
    assert(s.subrange(0, i + 1).drop_last() =~= s.subrange(0, i));
    if i + 1 < s.len() {
        lemma_first_equal_extend(s, p, i + 1);
    } else {
        assert(s.subrange(0, i + 1) =~= s);
    }
}

proof fn lemma_first_equal_extend(s: Seq<Seq<char>>, p: Seq<char>, k: int)
    requires
        0 < k <= s.len(),
        first_equal(s.subrange(0, k), p) is Some,
    ensures
        first_equal(s, p) == first_equal(s.subrange(0, k), p),
    decreases s.len() - k,
{
    if k < s.len() {
        assert(s.subrange(0, k + 1).drop_last() =~= s.subrange(0, k));
        lemma_first_equal_extend(s, p, k + 1);
    } else {
        assert(s.subrange(0, k) =~= s);
    }
}

/// The version recorded for a crate (see [`cargo_recorded_version`]).
pub fn determine_installed_version(tool_entry: &ToolEntry, is_git: bool) -> (r: String)
    ensures
        r@ == cargo_recorded_version(*tool_entry, is_git),
{
    if let Some(v) = nonblank_version(&tool_entry.version) {
        return v;
    }
    if is_git {
        if let Some(opts) = &tool_entry.options {
            if let Some(t) = option_flag_value(opts, "--tag") {
                return t;
            }
            if let Some(b) = option_flag_value(opts, "--branch") {
                return concat2("branch-", b.as_str());
            }
            if let Some(rv) = option_flag_value(opts, "--rev") {
                let n = rv.as_str().unicode_len();
                let short = if n > 7 {
                    rv.as_str().substring_char(0, 7).to_owned()
                } else {
                    rv
                };
                return concat2("rev-", short.as_str());
            }
        }
    }
    owned("latest")
}

/// The name a crate's binary is listed under: the name it is renamed to,
/// else its own.
pub open spec fn cargo_binary_name(tool: ToolEntry) -> Seq<char> {
    match tool.rename_to {
        Some(n) => n@,
        None => tool.name@,
    }
}

/// The record of a crate installation: none unless `cargo install`
/// succeeded and `cargo install --list` (`listing`) then shows the crate
/// under its binary name or its own name; otherwise a `cargo-install`
/// record at the version [`cargo_recorded_version`] gives.
pub fn install(
    tool_entry: &ToolEntry,
    install_succeeded: bool,
    listing: &str,
    install_path: &str,
    executed_hooks: Option<Vec<String>>,
    is_git: bool,
    last_updated: Option<String>,
) -> (r: Option<ToolState>)
    ensures
        ({
            let listed = cargo_lists(listing@, cargo_binary_name(*tool_entry)) || cargo_lists(
                listing@,
                tool_entry.name@,
            );
            &&& !(install_succeeded && listed) ==> r is None
            &&& install_succeeded && listed ==> (r matches Some(s) && s.install_method@ == "cargo-install"@
                && s.package_type@ == "rust-crate"@ && s.install_path@ == install_path@ && s.version@
                == cargo_recorded_version(*tool_entry, is_git) && s.url is None
                && s.executed_post_installation_hooks == executed_hooks && s.last_updated == last_updated)
        }),
{
    if !install_succeeded {
        return None;
    }
    let listed = match &tool_entry.rename_to {
        Some(n) => listed_in_cargo_install_list(listing, n.as_str()),
        None => listed_in_cargo_install_list(listing, tool_entry.name.as_str()),
    } || listed_in_cargo_install_list(listing, tool_entry.name.as_str());
    if !listed {
        return None;
    }
    let version = determine_installed_version(tool_entry, is_git);
    Some(
        ToolState::new(
            tool_entry,
            install_path,
            owned("cargo-install"),
            owned("rust-crate"),
            version,
            None,
            last_updated,
            executed_hooks,
        ),
    )
}


/// The configured version wins: a crate that names a version (not blank)
/// is recorded at exactly that version, for registry and git installs
/// alike.
pub proof fn law_configured_version_is_recorded(tool: ToolEntry, git: bool)
    requires
        tool.version is Some,
        trim_spec(tool.version->0@).len() > 0,
    ensures
        cargo_recorded_version(tool, git) == tool.version->0@,
{
}

} // verus!
