//! Shell run-command files: which configuration lines and aliases still
//! have to be appended to a shell's rc file.

use vstd::prelude::*;
use crate::text::{concat3, trim, trim_spec, contains_seq, contains_str};
use crate::model::AliasEntry;
use crate::uv::views;
use crate::go::push_string;

verus! {

/// A shell and the raw lines its rc file should hold.
#[derive(Debug, Clone, PartialEq)]
pub struct ShellRc {
    pub shell: String,
    pub raw_configs: Vec<String>,
}

/// The rc file line that defines an alias.
pub open spec fn alias_line(name: Seq<char>, value: Seq<char>) -> Seq<char> {
    "alias "@ + name + "='"@ + value + "'"@
}

/// The rc file of a shell in the home directory: `.zshrc` for `zsh`,
/// `.bashrc` for `bash`; none for any other shell, whose configuration is
/// skipped.
pub open spec fn rc_file_of(shell: Seq<char>) -> Option<Seq<char>> {
    if shell == "zsh"@ {
        Some(".zshrc"@)
    } else if shell == "bash"@ {
        Some(".bashrc"@)
    } else {
        None
    }
}

/// The rc file of a shell (see [`rc_file_of`]).
pub fn rc_file_name(shell: &str) -> (r: Option<&'static str>)
    ensures
        match r {
            Some(f) => rc_file_of(shell@) == Some(f@),
            None => rc_file_of(shell@) is None,
        },
{
    if crate::text::str_eq(shell, "zsh") {
        Some(".zshrc")
    } else if crate::text::str_eq(shell, "bash") {
        Some(".bashrc")
    } else {
        None
    }
}

/// Whether some line contains `t`.
pub open spec fn some_line_contains(lines: Seq<Seq<char>>, t: Seq<char>) -> bool {
    exists|i: int| 0 <= i < lines.len() && contains_seq(#[trigger] lines[i], t)
}

/// A raw configuration line with what shows it is present: its trimmed
/// text.
pub open spec fn raw_probes(raw: Seq<Seq<char>>) -> Seq<(Seq<char>, Seq<char>)> {
    Seq::new(raw.len(), |i: int| (trim_spec(raw[i]), raw[i]))
}

/// The alias lines, each shown present by its own text.
pub open spec fn alias_probes(aliases: Seq<AliasEntry>) -> Seq<(Seq<char>, Seq<char>)> {
    Seq::new(
        aliases.len(),
        |i: int|
            (alias_line(aliases[i].name@, aliases[i].value@), alias_line(aliases[i].name@, aliases[i].value@)),
    )
}

/// The lines still missing, in order: each candidate line whose probe no
/// line of `seen` contains, nor any line already taken before it.
pub open spec fn missing_lines(seen: Seq<Seq<char>>, cands: Seq<(Seq<char>, Seq<char>)>) -> Seq<Seq<char>>
    decreases cands.len(),
{
    if cands.len() == 0 {
        seq![]
    } else {
        let rest = missing_lines(seen, cands.drop_last());
        if some_line_contains(seen + rest, cands.last().0) {
            rest
        } else {
            rest.push(cands.last().1)
        }
    }
}

/// The lines to append to an rc file that holds `existing`: the missing
/// raw lines, then the missing alias lines; a line already in the file, or
/// already queued in this run, is not added again.
pub open spec fn lines_to_add(existing: Seq<Seq<char>>, raw: Seq<Seq<char>>, aliases: Seq<AliasEntry>) -> Seq<
    Seq<char>,
> {
    missing_lines(existing, raw_probes(raw) + alias_probes(aliases))
}

fn any_line_contains(lines: &Vec<String>, t: &str) -> (r: bool)
    ensures
        r == some_line_contains(views(lines@), t@),
{
    let mut i: usize = 0;
    while i < lines.len()
        invariant
            i <= lines@.len(),
            forall|k: int| 0 <= k < i ==> !contains_seq(#[trigger] views(lines@)[k], t@),
        decreases lines@.len() - i,
    {
        proof {
            assert(views(lines@)[i as int] == lines@[i as int]@);
        }
        if contains_str(lines[i].as_str(), t) {
            return true;
        }
        i = i + 1;
    }
    false
}

/// The lines `apply_shellrc` appends to an rc file that holds
/// `existing_lines` (see [`lines_to_add`]); nothing when it is empty.
pub fn apply_shellrc(shellrc: &ShellRc, aliases: &Vec<AliasEntry>, existing_lines: &Vec<String>) -> (r: Vec<String>)
    ensures
        views(r@) == lines_to_add(views(existing_lines@), views(shellrc.raw_configs@), aliases@),
{
    let ghost ex = views(existing_lines@);
    let ghost raw = views(shellrc.raw_configs@);
    let ghost cands = raw_probes(raw) + alias_probes(aliases@);
    let mut out: Vec<String> = Vec::new();
    let mut i: usize = 0;
    proof {
        assert(cands.subrange(0, 0) =~= Seq::<(Seq<char>, Seq<char>)>::empty());
        assert(views(out@) =~= missing_lines(ex, cands.subrange(0, 0)));
    }
    while i < shellrc.raw_configs.len()
        invariant
            ex == views(existing_lines@),
            raw == views(shellrc.raw_configs@),
            cands == raw_probes(raw) + alias_probes(aliases@),
            i <= raw.len(),
            views(out@) == missing_lines(ex, cands.subrange(0, i as int)),
        decreases raw.len() - i,
    {
        proof {
            assert(cands.subrange(0, i + 1).drop_last() =~= cands.subrange(0, i as int));
            assert(cands[i as int] == raw_probes(raw)[i as int]);
            assert(raw[i as int] == shellrc.raw_configs@[i as int]@);
        }
        let t = trim(shellrc.raw_configs[i].as_str());
        let present = any_line_contains(existing_lines, t.as_str()) || any_line_contains(&out, t.as_str());
        proof {
            lemma_lines_concat(ex, views(out@), t@);
        }
        if !present {
            push_string(&mut out, shellrc.raw_configs[i].clone());
        }
        i = i + 1;
    }
    let mut j: usize = 0;
    while j < aliases.len()
        invariant
            ex == views(existing_lines@),
            raw == views(shellrc.raw_configs@),
            cands == raw_probes(raw) + alias_probes(aliases@),
            i == raw.len(),
            j <= aliases@.len(),
            views(out@) == missing_lines(ex, cands.subrange(0, i + j)),
        decreases aliases@.len() - j,
    {
        proof {
            assert(cands.subrange(0, i + j + 1).drop_last() =~= cands.subrange(0, i + j));
            assert(cands[i + j] == alias_probes(aliases@)[j as int]);
        }
        let mut line = concat3("alias ", aliases[j].name.as_str(), "='");
        line.append(aliases[j].value.as_str());
        line.append("'");
        let present = any_line_contains(existing_lines, line.as_str()) || any_line_contains(&out, line.as_str());
        proof {
            lemma_lines_concat(ex, views(out@), line@);
        }
        if !present {
            push_string(&mut out, line);
        }
        j = j + 1;
    }
    proof {
        assert(cands.subrange(0, cands.len() as int) =~= cands);
    }
    out
}

/// A line of `a + b` contains `t` just when a line of `a` or of `b` does.
proof fn lemma_lines_concat(a: Seq<Seq<char>>, b: Seq<Seq<char>>, t: Seq<char>)
    ensures
        some_line_contains(a + b, t) == (some_line_contains(a, t) || some_line_contains(b, t)),
{
    if some_line_contains(a + b, t) {
        let i = choose|i: int| 0 <= i < (a + b).len() && contains_seq(#[trigger] (a + b)[i], t);
        if i < a.len() {
            assert(a[i] == (a + b)[i]);
        } else {
            assert(b[i - a.len()] == (a + b)[i]);
        }
    }
    if some_line_contains(a, t) {
        let i = choose|i: int| 0 <= i < a.len() && contains_seq(#[trigger] a[i], t);
        assert((a + b)[i] == a[i]);
    }
    if some_line_contains(b, t) {
        let i = choose|i: int| 0 <= i < b.len() && contains_seq(#[trigger] b[i], t);
        assert((a + b)[a.len() + i] == b[i]);
    }
}

proof fn lemma_contains_self(s: Seq<char>)
    ensures
        contains_seq(s, s),
{
    assert(s.subrange(0, s.len() as int) =~= s);
    assert(crate::text::occurs_at(s, s, 0));
}

proof fn lemma_trim_within(s: Seq<char>)
    ensures
        contains_seq(s, trim_spec(s)),
{
    crate::text::lemma_trim_is_infix(s);
}

proof fn lemma_prefix_lines(a: Seq<Seq<char>>, b: Seq<Seq<char>>, t: Seq<char>)
    requires
        some_line_contains(a, t),
        a.len() <= b.len(),
        forall|k: int| 0 <= k < a.len() ==> #[trigger] a[k] == b[k],
    ensures
        some_line_contains(b, t),
{
    let i = choose|i: int| 0 <= i < a.len() && contains_seq(#[trigger] a[i], t);
    assert(b[i] == a[i]);
}

/// The lines missing for a shorter list of candidates come first among
/// those for the whole list.
proof fn lemma_missing_prefix(seen: Seq<Seq<char>>, cands: Seq<(Seq<char>, Seq<char>)>)
    ensures
        missing_lines(seen, cands.drop_last()).len() <= missing_lines(seen, cands).len() || cands.len() == 0,
        cands.len() > 0 ==> forall|k: int|
            0 <= k < missing_lines(seen, cands.drop_last()).len() ==> #[trigger] missing_lines(seen, cands.drop_last())[k]
                == missing_lines(seen, cands)[k],
{
}

/// Every candidate's probe is found in `seen` followed by the missing lines.
proof fn lemma_missing_covers(seen: Seq<Seq<char>>, cands: Seq<(Seq<char>, Seq<char>)>)
    requires
        forall|i: int| 0 <= i < cands.len() ==> contains_seq(#[trigger] cands[i].1, cands[i].0),
    ensures
        forall|i: int| 0 <= i < cands.len() ==> some_line_contains(seen + missing_lines(seen, cands), #[trigger] cands[i].0),
    decreases cands.len(),
{
    if cands.len() > 0 {
        let p = cands.drop_last();
        assert forall|i: int| 0 <= i < p.len() implies contains_seq(#[trigger] p[i].1, p[i].0) by {
            assert(p[i] == cands[i]);
        }
        lemma_missing_covers(seen, p);
        let rest = missing_lines(seen, p);
        let full = missing_lines(seen, cands);
        lemma_missing_prefix(seen, cands);
        let a = seen + rest;
        let b = seen + full;
        assert forall|k: int| 0 <= k < a.len() implies #[trigger] a[k] == b[k] by {
            if k >= seen.len() {
                assert(rest[k - seen.len()] == full[k - seen.len()]);
            }
        }
        assert forall|i: int| 0 <= i < cands.len() implies some_line_contains(b, #[trigger] cands[i].0) by {
            if i < p.len() {
                assert(p[i] == cands[i]);
                assert(some_line_contains(a, p[i].0));
                lemma_prefix_lines(a, b, cands[i].0);
            } else {
                let last = cands.last();
                assert(cands[i] == last);
                if some_line_contains(a, last.0) {
                    lemma_prefix_lines(a, b, last.0);
                } else {
                    assert(full == rest.push(last.1));
                    assert(b[(seen.len() + rest.len()) as int] == last.1);
                }
            }
        }
    }
}

/// Candidates whose probes `seen` already shows add nothing.
proof fn lemma_missing_none(seen: Seq<Seq<char>>, cands: Seq<(Seq<char>, Seq<char>)>)
    requires
        forall|i: int| 0 <= i < cands.len() ==> some_line_contains(seen, #[trigger] cands[i].0),
    ensures
        missing_lines(seen, cands).len() == 0,
    decreases cands.len(),
{
    if cands.len() > 0 {
        let p = cands.drop_last();
        assert forall|i: int| 0 <= i < p.len() implies some_line_contains(seen, #[trigger] p[i].0) by {
            assert(p[i] == cands[i]);
        }
        lemma_missing_none(seen, p);
        assert(seen + missing_lines(seen, p) =~= seen);
        assert(some_line_contains(seen, cands[cands.len() - 1].0));
    }
}

/// Applying the shell configuration is idempotent: once the lines it asks
/// for are appended to the rc file, applying it again adds nothing.
pub proof fn law_apply_shellrc_is_idempotent(
    existing: Seq<Seq<char>>,
    raw: Seq<Seq<char>>,
    aliases: Seq<AliasEntry>,
)
    ensures
        lines_to_add(existing + lines_to_add(existing, raw, aliases), raw, aliases).len() == 0,
{
    let cands = raw_probes(raw) + alias_probes(aliases);
    assert forall|i: int| 0 <= i < cands.len() implies contains_seq(#[trigger] cands[i].1, cands[i].0) by {
        if i < raw.len() {
            assert(cands[i] == raw_probes(raw)[i]);
            lemma_trim_within(raw[i]);
        } else {
            assert(cands[i] == alias_probes(aliases)[i - raw.len()]);
            lemma_contains_self(cands[i].1);
        }
    }
    lemma_missing_covers(existing, cands);
    lemma_missing_none(existing + missing_lines(existing, cands), cands);
}

} // verus!
