//! Go modules through `go install`: the package installed, the command
//! line, the name of the binary it makes, the names tried when it is not
//! found, where Go puts binaries, and the record kept.

use vstd::prelude::*;
use crate::text::{owned, concat3, trim, trim_spec, str_eq, starts_with, strip_prefix, has_prefix, chars_of,
    string_from_chars};
use crate::paths::{joined, path_join};
use crate::model::{ToolEntry, ToolState};
use crate::uv::{views, append_strings, lemma_views_add};

verus! {

/// What `go install` installs: the tool's URL when it has one, else its
/// name.
pub open spec fn go_source(tool: ToolEntry) -> Seq<char> {
    match tool.url {
        Some(u) => u@,
        None => tool.name@,
    }
}

/// What `go install` installs (see [`go_source`]).
pub fn determine_installation_source(tool_entry: &ToolEntry) -> (r: String)
    ensures
        r@ == go_source(*tool_entry),
{
    match &tool_entry.url {
        Some(u) => u.clone(),
        None => tool_entry.name.clone(),
    }
}

/// The arguments of `go`: `install`, the package with `@version` when a
/// version is given, then the tool's options.
pub open spec fn go_install_args(tool: ToolEntry, source: Seq<char>) -> Seq<Seq<char>> {
    seq!["install"@, match tool.version {
        Some(v) => source + "@"@ + v@,
        None => source,
    }] + match tool.options {
        Some(o) => views(o@),
        None => seq![],
    }
}

/// The arguments of `go` that install the tool (see [`go_install_args`]).
pub fn prepare_go_install_command(tool_entry: &ToolEntry, installation_source: &str) -> (r: Vec<String>)
    ensures
        views(r@) == go_install_args(*tool_entry, installation_source@),
{
    let mut args: Vec<String> = Vec::new();
    args.push(owned("install"));
    let package = match &tool_entry.version {
        Some(v) => concat3(installation_source, "@", v.as_str()),
        None => owned(installation_source),
    };
    args.push(package);
    let ghost head = views(args@);
    proof {
        assert(head =~= seq!["install"@, package@]);
    }
    match &tool_entry.options {
        Some(o) => append_strings(&mut args, o),
        None => {
            assert(views(args@) =~= head + Seq::<Seq<char>>::empty());
        },
    }
    args
}

/// The pieces of `s` between the separators `c`, as `str::split` yields
/// them (always at least one).
pub open spec fn split_on(s: Seq<char>, c: char) -> Seq<Seq<char>>
    decreases s.len(),
{
    if s.len() == 0 {
        seq![seq![]]
    } else {
        let rest = split_on(s.drop_last(), c);
        if s.last() == c {
            rest.push(seq![])
        } else {
            rest.update(rest.len() - 1, rest.last().push(s.last()))
        }
    }
}

proof fn lemma_split_on_len(s: Seq<char>, c: char)
    ensures
        split_on(s, c).len() >= 1,
    decreases s.len(),
{
    if s.len() > 0 {
        lemma_split_on_len(s.drop_last(), c);
    }
}

/// The pieces of `s` between the separators `c` (see [`split_on`]).
pub fn split_char(s: &str, c: char) -> (r: Vec<String>)
    ensures
        views(r@) == split_on(s@, c),
{
    let cs = chars_of(s);
    let n = cs.len();
    let mut out: Vec<String> = Vec::new();
    let mut cur: Vec<char> = Vec::new();
    let mut i: usize = 0;
    proof {
        assert(cs@.subrange(0, 0) =~= Seq::<char>::empty());
    }
    while i < n
        invariant
            n == cs@.len(),
            cs@ == s@,
            i <= n,
            split_on(cs@.subrange(0, i as int), c) == views(out@).push(cur@),
        decreases n - i,
    {
        proof {
            assert(cs@.subrange(0, i + 1).drop_last() =~= cs@.subrange(0, i as int));
            assert(cs@.subrange(0, i + 1).last() == cs@[i as int]);
        }
        let ch = cs[i];
        if ch == c {
            let ghost before = out@;
            let w = string_from_chars(cur.as_slice());
            out.push(w);
            proof {
                lemma_views_add(before, seq![w]);
                assert(views(seq![w]) =~= seq![cur@]);
                assert(views(out@) =~= views(before).push(cur@));
            }
            cur = Vec::new();
            proof {
                assert(views(out@).push(cur@) =~= views(before).push(w@).push(seq![]));
            }
        } else {
            let ghost old_cur = cur@;
            cur.push(ch);
            proof {
                assert(views(out@).push(cur@) =~= views(out@).push(old_cur).update(
                    views(out@).len() as int,
                    old_cur.push(ch),
                ));
            }
        }
        i = i + 1;
    }
    let ghost before = out@;
    let w = string_from_chars(cur.as_slice());
    out.push(w);
    proof {
        lemma_views_add(before, seq![w]);
        assert(views(seq![w]) =~= seq![cur@]);
        assert(views(out@) =~= views(before).push(cur@));
        assert(cs@.subrange(0, n as int) =~= cs@);
    }
    out
}

/// The position of the last non-empty piece at or before `k`.
pub open spec fn last_nonempty(segs: Seq<Seq<char>>, k: int) -> Option<int>
    decreases k + 1,
{
    if k < 0 {
        None
    } else if segs[k].len() > 0 {
        Some(k)
    } else {
        last_nonempty(segs, k - 1)
    }
}

/// The binary a Go module URL names: its last non-empty path segment, or,
/// when that is `cmd`, the segment before the last one.
pub open spec fn url_binary_name(url: Seq<char>) -> Option<Seq<char>> {
    let segs = split_on(url, '/');
    match last_nonempty(segs, segs.len() - 1) {
        Some(k) => if segs[k] == "cmd"@ && segs.len() > 1 {
            Some(segs[segs.len() - 2])
        } else {
            Some(segs[k])
        },
        None => None,
    }
}

/// The binary a Go module URL names (see [`url_binary_name`]).
pub fn extract_binary_name_from_url(url: &str) -> (r: Option<String>)
    ensures
        match r {
            Some(n) => url_binary_name(url@) == Some(n@),
            None => url_binary_name(url@) is None,
        },
{
    let segs = split_char(url, '/');
    let ghost sv = views(segs@);
    proof {
        lemma_split_on_len(url@, '/');
    }
    let mut k: usize = segs.len();
    while k > 0 && segs[k - 1].as_str().unicode_len() == 0
        invariant
            k <= segs@.len(),
            sv == views(segs@),
            sv.len() == segs@.len(),
            last_nonempty(sv, sv.len() - 1) == last_nonempty(sv, k - 1),
        decreases k,
    {
        proof {
            assert(sv[k - 1] == segs@[k - 1]@);
        }
        k = k - 1;
    }
    if k == 0 {
        return None;
    }
    proof {
        assert(sv[k - 1] == segs@[k - 1]@);
    }
    let last = &segs[k - 1];
    if str_eq(last.as_str(), "cmd") && segs.len() > 1 {
        let n = segs.len();
        assert(sv[n - 2] == segs@[n - 2]@);
        Some(segs[n - 2].clone())
    } else {
        Some(last.clone())
    }
}

/// The binary a Go tool makes: its new name when renamed; else the name
/// its URL gives when that differs from the tool's name; else its name.
pub open spec fn go_binary_name(tool: ToolEntry) -> Seq<char> {
    match tool.rename_to {
        Some(r) => r@,
        None => match tool.url {
            Some(u) => match url_binary_name(u@) {
                Some(n) => if n != tool.name@ {
                    n
                } else {
                    tool.name@
                },
                None => tool.name@,
            },
            None => tool.name@,
        },
    }
}

/// The binary a Go tool makes (see [`go_binary_name`]).
pub fn determine_actual_binary_name(tool_entry: &ToolEntry) -> (r: String)
    ensures
        r@ == go_binary_name(*tool_entry),
{
    if let Some(r) = &tool_entry.rename_to {
        return r.clone();
    }
    if let Some(u) = &tool_entry.url {
        if let Some(n) = extract_binary_name_from_url(u.as_str()) {
            if !str_eq(n.as_str(), tool_entry.name.as_str()) {
                return n;
            }
        }
    }
    tool_entry.name.clone()
}

/// The other names tried when the binary is not where it was expected: the
/// tool's name when it has a URL, the URL's name when it differs from the
/// tool's, and the name without a `cmd-` prefix.
pub open spec fn alternative_names(tool: ToolEntry) -> Seq<Seq<char>> {
    (if tool.url is Some {
        seq![tool.name@]
    } else {
        seq![]
    }) + (match tool.url {
        Some(u) => match url_binary_name(u@) {
            Some(n) => if n != tool.name@ {
                seq![n]
            } else {
                seq![]
            },
            None => seq![],
        },
        None => seq![],
    }) + (if has_prefix(tool.name@, "cmd-"@) {
        seq![crate::text::without_prefix_runs(tool.name@, "cmd-"@)]
    } else {
        seq![]
    })
}

/// The other names tried (see [`alternative_names`]).
pub fn generate_alternative_names(tool_entry: &ToolEntry) -> (r: Vec<String>)
    ensures
        views(r@) == alternative_names(*tool_entry),
{
    let mut r: Vec<String> = Vec::new();
    let ghost r0 = views(r@);
    if tool_entry.url.is_some() {
        push_string(&mut r, tool_entry.name.clone());
    }
    if let Some(u) = &tool_entry.url {
        if let Some(n) = extract_binary_name_from_url(u.as_str()) {
            if !str_eq(n.as_str(), tool_entry.name.as_str()) {
                push_string(&mut r, n);
            }
        }
    }
    if starts_with(tool_entry.name.as_str(), "cmd-") {
        push_string(&mut r, crate::text::trim_start_matches(tool_entry.name.as_str(), "cmd-"));
    }
    proof {
        assert(views(r@) =~= alternative_names(*tool_entry));
    }
    r
}

/// Appends one string.
pub fn push_string(v: &mut Vec<String>, s: String)
    ensures
        views(final(v)@) == views(old(v)@).push(s@),
{
    let ghost before = v@;
    v.push(s);
    proof {
        lemma_views_add(before, seq![s]);
        assert(views(seq![s]) =~= seq![s@]);
        assert(views(before).push(s@) =~= views(before) + seq![s@]);
        assert(v@ =~= before + seq![s]);
    }
}

/// A directory Go reported, when it reported one: the trimmed output of
/// `go env`, joined with `name` when one is given.
pub fn go_env_path(output: &str, name: &str) -> (r: Option<String>)
    ensures
        trim_spec(output@).len() == 0 ==> r is None,
        trim_spec(output@).len() > 0 ==> (r matches Some(p) && p@ == (if name@.len() == 0 {
            trim_spec(output@)
        } else {
            joined(trim_spec(output@), name@)
        })),
{
    let t = trim(output);
    if t.as_str().unicode_len() == 0 {
        None
    } else if name.unicode_len() == 0 {
        Some(t)
    } else {
        Some(path_join(t.as_str(), name))
    }
}

/// Where Go puts the binary: `GOBIN`'s answer joined with the name, else
/// the `bin` directory of `GOPATH`'s answer, else `~/go/bin`, else
/// `/usr/local/bin`.
pub open spec fn go_install_path(
    binary: Seq<char>,
    gobin: Option<String>,
    gopath: Option<String>,
    home: Option<String>,
) -> Seq<char> {
    match gobin {
        Some(b) => b@,
        None => match gopath {
            Some(p) => joined(joined(p@, "bin"@), binary),
            None => match home {
                Some(h) => joined(joined(joined(h@, "go"@), "bin"@), binary),
                None => joined("/usr/local/bin"@, binary),
            },
        },
    }
}

/// Where Go puts the binary (see [`go_install_path`]); `gobin` is already
/// joined with the binary's name, as [`go_env_path`] gives it.
pub fn determine_go_installation_path(
    binary_name: &str,
    gobin: Option<String>,
    gopath: Option<String>,
    home: Option<String>,
) -> (r: String)
    ensures
        r@ == go_install_path(binary_name@, gobin, gopath, home),
{
    match gobin {
        Some(b) => b,
        None => match gopath {
            Some(p) => path_join(path_join(p.as_str(), "bin").as_str(), binary_name),
            None => match home {
                Some(h) => {
                    let a = path_join(h.as_str(), "go");
                    let b = path_join(a.as_str(), "bin");
                    path_join(b.as_str(), binary_name)
                },
                None => path_join("/usr/local/bin", binary_name),
            },
        },
    }
}

/// The record of a Go installation: none unless `go install` succeeded and
/// the binary is then found; otherwise a `go-install` record of a Go module
/// at the version asked for (`latest` when none), with the entry's URL.
pub fn install(
    tool_entry: &ToolEntry,
    install_succeeded: bool,
    binary_found: bool,
    install_path: &str,
    executed_hooks: Option<Vec<String>>,
    last_updated: Option<String>,
) -> (r: Option<ToolState>)
    ensures
        !(install_succeeded && binary_found) ==> r is None,
        install_succeeded && binary_found ==> (r matches Some(s) && s.install_method@ == "go-install"@
            && s.package_type@ == "go-module"@ && s.install_path@ == install_path@ && s.version@ == (
        match tool_entry.version {
            Some(v) => v@,
            None => "latest"@,
        }) && s.url == tool_entry.url && s.renamed_to == tool_entry.rename_to
            && s.executed_post_installation_hooks == executed_hooks && s.last_updated == last_updated),
{
    if !install_succeeded || !binary_found {
        return None;
    }
    let version = match &tool_entry.version {
        Some(v) => v.clone(),
        None => owned("latest"),
    };
    Some(
        ToolState::new(
            tool_entry,
            install_path,
            owned("go-install"),
            owned("go-module"),
            version,
            tool_entry.url.clone(),
            last_updated,
            executed_hooks,
        ),
    )
}

} // verus!
