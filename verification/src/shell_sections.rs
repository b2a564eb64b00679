//! Shell run-command files organised by sections: each run command goes
//! under the header of its section (`# === Paths ===`, …; aliases under
//! `# === Aliases ===`), lines already in their section are not added
//! again, and a command that changes a variable or alias already defined
//! in its section counts as an update, which rewrites the file when
//! resetting is allowed.

use vstd::prelude::*;
use crate::text::{trim, trim_spec, has_prefix, has_suffix, starts_with, ends_with, str_eq, substring, concat3,
    chars_of, string_from_chars};
use crate::yaml_text::{index_of, find_char, lines_of, lines};
use crate::model::AliasEntry;
use crate::sync::ShellCommand;
use crate::shellrc::alias_line;
use crate::uv::views;

verus! {

/// The header line of a section.
pub open spec fn header_line(section: Seq<char>) -> Seq<char> {
    "# === "@ + section + " ==="@
}

/// Whether a line is a section header.
pub open spec fn is_header(line: Seq<char>) -> bool {
    line.len() >= 10 && has_prefix(line, "# === "@) && has_suffix(line, " ==="@)
}

/// The section a header line names.
pub open spec fn header_name(line: Seq<char>) -> Seq<char> {
    line.subrange(6, line.len() - 4)
}

/// The position of the first header of `section` at or after `i`.
pub open spec fn header_from(lines: Seq<Seq<char>>, section: Seq<char>, i: int) -> Option<int>
    decreases lines.len() - i,
{
    if i < 0 || i >= lines.len() {
        None
    } else if is_header(lines[i]) && header_name(lines[i]) == section {
        Some(i)
    } else {
        header_from(lines, section, i + 1)
    }
}

/// The position of the first header at or after `i` (the end of the file
/// when there is none).
pub open spec fn next_header_from(lines: Seq<Seq<char>>, i: int) -> int
    decreases lines.len() - i,
{
    if i < 0 || i >= lines.len() {
        lines.len() as int
    } else if is_header(lines[i]) {
        i
    } else {
        next_header_from(lines, i + 1)
    }
}

/// Where the block of the header at `h` ends: at the next header, or at
/// the end of the file.
pub open spec fn block_end(lines: Seq<Seq<char>>, h: int) -> int {
    next_header_from(lines, h + 1)
}

/// Whether some line of the block of the header at `h` is, trimmed, `c`
/// trimmed.
pub open spec fn in_block(lines: Seq<Seq<char>>, h: int, c: Seq<char>) -> bool {
    exists|j: int| h < j < block_end(lines, h) && trim_spec(#[trigger] lines[j]) == trim_spec(c)
}

/// Whether `c` already stands in the section (under its first header).
pub open spec fn in_section(lines: Seq<Seq<char>>, section: Seq<char>, c: Seq<char>) -> bool {
    match header_from(lines, section, 0) {
        Some(h) => in_block(lines, h, c),
        None => false,
    }
}

/// The lines with `c` added at the end of the section's block; when the
/// section has no header yet, the header and then `c` are appended.
pub open spec fn inserted(lines: Seq<Seq<char>>, section: Seq<char>, c: Seq<char>) -> Seq<Seq<char>> {
    match header_from(lines, section, 0) {
        Some(h) => lines.insert(block_end(lines, h), c),
        None => lines.push(header_line(section)).push(c),
    }
}

/// One entry applied: added to its section unless it already stands there.
pub open spec fn step(lines: Seq<Seq<char>>, item: (Seq<char>, Seq<char>)) -> Seq<Seq<char>> {
    if in_section(lines, item.0, item.1) {
        lines
    } else {
        inserted(lines, item.0, item.1)
    }
}

/// The entries applied in turn.
pub open spec fn applied(lines: Seq<Seq<char>>, items: Seq<(Seq<char>, Seq<char>)>) -> Seq<Seq<char>>
    decreases items.len(),
{
    if items.len() == 0 {
        lines
    } else {
        step(applied(lines, items.drop_last()), items.last())
    }
}

/// The entries of one run command: each of its lines, trimmed, in its
/// section; blank lines are left out.
pub open spec fn command_lines(section: Seq<char>, ls: Seq<Seq<char>>) -> Seq<(Seq<char>, Seq<char>)>
    decreases ls.len(),
{
    if ls.len() == 0 {
        seq![]
    } else {
        let r = command_lines(section, ls.drop_last());
        let t = trim_spec(ls.last());
        if t.len() == 0 {
            r
        } else {
            r.push((section, t))
        }
    }
}

/// The entries of the run commands, in order.
pub open spec fn run_items(cmds: Seq<ShellCommand>) -> Seq<(Seq<char>, Seq<char>)>
    decreases cmds.len(),
{
    if cmds.len() == 0 {
        seq![]
    } else {
        run_items(cmds.drop_last()) + command_lines(cmds.last().section@, lines_of(cmds.last().command@))
    }
}

/// The entries of the aliases: each alias line in the `Aliases` section.
pub open spec fn alias_items(aliases: Seq<AliasEntry>) -> Seq<(Seq<char>, Seq<char>)> {
    Seq::new(aliases.len(), |i: int| ("Aliases"@, alias_line(aliases[i].name@, aliases[i].value@)))
}

/// All entries: the run commands', then the aliases'.
pub open spec fn shell_items(cmds: Seq<ShellCommand>, aliases: Seq<AliasEntry>) -> Seq<(Seq<char>, Seq<char>)> {
    run_items(cmds) + alias_items(aliases)
}

/// What a line defines: for `export NAME=…` or `alias NAME=…`, the text
/// before the first `=`; nothing for other lines.
pub open spec fn defined_key(c: Seq<char>) -> Option<Seq<char>> {
    if (has_prefix(c, "export "@) || has_prefix(c, "alias "@)) && index_of(c, '=') is Some {
        Some(c.subrange(0, index_of(c, '=')->0))
    } else {
        None
    }
}

/// Whether an entry changes a definition in its section: it does not stand
/// there yet, and some line of the section defines the same key.
pub open spec fn is_update_item(lines: Seq<Seq<char>>, item: (Seq<char>, Seq<char>)) -> bool {
    &&& !in_section(lines, item.0, item.1)
    &&& defined_key(item.1) is Some
    &&& match header_from(lines, item.0, 0) {
        Some(h) => exists|j: int|
            h < j < block_end(lines, h) && defined_key(trim_spec(#[trigger] lines[j])) == defined_key(item.1),
        None => false,
    }
}

/// Whether some entry is an update of the file (see [`is_update_item`]).
pub open spec fn is_update(lines: Seq<Seq<char>>, items: Seq<(Seq<char>, Seq<char>)>) -> bool {
    exists|k: int| 0 <= k < items.len() && is_update_item(lines, #[trigger] items[k])
}

/// The rc file after applying the configuration. Without updates, the
/// missing entries are added to the existing file. With updates, the file
/// is written anew from the configuration when resetting is allowed, and
/// left as it is otherwise.
pub open spec fn rc_after(
    existing: Seq<Seq<char>>,
    cmds: Seq<ShellCommand>,
    aliases: Seq<AliasEntry>,
    reset: bool,
) -> Seq<Seq<char>> {
    let items = shell_items(cmds, aliases);
    if is_update(existing, items) {
        if reset {
            applied(seq![], items)
        } else {
            existing
        }
    } else {
        applied(existing, items)
    }
}

/// Whether a line is a section header (see [`is_header`]).
fn is_header_line(line: &str) -> (r: bool)
    ensures
        r == is_header(line@),
{
    line.unicode_len() >= 10 && starts_with(line, "# === ") && ends_with(line, " ===")
}

/// The first header of `section` at or after `from`.
fn find_header(ls: &Vec<String>, section: &str, from: usize) -> (r: Option<usize>)
    ensures
        match r {
            Some(h) => header_from(views(ls@), section@, from as int) == Some(h as int) && h < ls@.len(),
            None => header_from(views(ls@), section@, from as int) is None,
        },
{
    let ghost v = views(ls@);
    let mut i: usize = from;
    while i < ls.len()
        invariant
            v == views(ls@),
            from <= i,
            header_from(v, section@, from as int) == header_from(v, section@, i as int),
        decreases ls@.len() - i,
    {
        assert(v[i as int] == ls@[i as int]@);
        let l = ls[i].as_str();
        if is_header_line(l) {
            let n = l.unicode_len();
            let name = substring(l, 6, n - 4);
            if str_eq(name.as_str(), section) {
                return Some(i);
            }
        }
        i = i + 1;
    }
    None
}

/// Where the block of the header at `h` ends.
fn find_block_end(ls: &Vec<String>, h: usize) -> (r: usize)
    requires
        h < ls@.len(),
    ensures
        r == block_end(views(ls@), h as int),
        h < r <= ls@.len(),
{
    let ghost v = views(ls@);
    let n: usize = ls.len();
    let mut i: usize = h + 1;
    while i < ls.len()
        invariant
            v == views(ls@),
            h < i <= ls@.len(),
            block_end(v, h as int) == next_header_from(v, i as int),
        decreases ls@.len() - i,
    {
        assert(v[i as int] == ls@[i as int]@);
        if is_header_line(ls[i].as_str()) {
            return i;
        }
        i = i + 1;
    }
    i
}

/// Whether a line of the block of the header at `h` is, trimmed, `c`.
fn block_has(ls: &Vec<String>, h: usize, c: &str) -> (r: bool)
    requires
        h < ls@.len(),
    ensures
        r == in_block(views(ls@), h as int, c@),
{
    let ghost v = views(ls@);
    let e = find_block_end(ls, h);
    let tc = trim(c);
    let mut j: usize = h + 1;
    while j < e
        invariant
            v == views(ls@),
            e == block_end(v, h as int),
            tc@ == trim_spec(c@),
            h < j <= e,
            e <= ls@.len(),
            forall|k: int| h < k < j ==> trim_spec(#[trigger] v[k]) != trim_spec(c@),
        decreases e - j,
    {
        assert(v[j as int] == ls@[j as int]@);
        let t = trim(ls[j].as_str());
        if str_eq(t.as_str(), tc.as_str()) {
            assert(trim_spec(v[j as int]) == trim_spec(c@));
            return true;
        }
        j = j + 1;
    }
    false
}

/// Whether `c` already stands in the section (see [`in_section`]).
fn section_has(ls: &Vec<String>, section: &str, c: &str) -> (r: bool)
    ensures
        r == in_section(views(ls@), section@, c@),
{
    match find_header(ls, section, 0) {
        Some(h) => block_has(ls, h, c),
        None => false,
    }
}

/// What a line defines (see [`defined_key`]).
fn key_of(c: &str) -> (r: Option<String>)
    ensures
        match r {
            Some(k) => defined_key(c@) == Some(k@),
            None => defined_key(c@) is None,
        },
{
    if !(starts_with(c, "export ") || starts_with(c, "alias ")) {
        return None;
    }
    match find_char(c, '=') {
        Some(i) => Some(substring(c, 0, i)),
        None => None,
    }
}

/// Whether some line of the block of the header at `h` defines `key`.
fn block_defines(ls: &Vec<String>, h: usize, key: &str) -> (r: bool)
    requires
        h < ls@.len(),
    ensures
        r == exists|j: int|
            h < j < block_end(views(ls@), h as int) && defined_key(trim_spec(#[trigger] views(ls@)[j])) == Some(
                key@,
            ),
{
    let ghost v = views(ls@);
    let e = find_block_end(ls, h);
    let mut j: usize = h + 1;
    while j < e
        invariant
            v == views(ls@),
            e == block_end(v, h as int),
            h < j <= e,
            e <= ls@.len(),
            forall|k: int| h < k < j ==> defined_key(trim_spec(#[trigger] v[k])) != Some(key@),
        decreases e - j,
    {
        assert(v[j as int] == ls@[j as int]@);
        let t = trim(ls[j].as_str());
        match key_of(t.as_str()) {
            Some(k) => {
                if str_eq(k.as_str(), key) {
                    return true;
                }
            },
            None => {},
        }
        j = j + 1;
    }
    false
}

/// Whether an entry is an update of the file (see [`is_update_item`]).
fn item_is_update(ls: &Vec<String>, section: &str, c: &str) -> (r: bool)
    ensures
        r == is_update_item(views(ls@), (section@, c@)),
{
    if section_has(ls, section, c) {
        return false;
    }
    let key = match key_of(c) {
        Some(k) => k,
        None => {
            return false;
        },
    };
    match find_header(ls, section, 0) {
        Some(h) => block_defines(ls, h, key.as_str()),
        None => false,
    }
}

/// Adds `c` to its section (see [`inserted`]).
fn insert_into_section(ls: &mut Vec<String>, section: &str, c: &str)
    ensures
        views(final(ls)@) == inserted(views(old(ls)@), section@, c@),
{
    let ghost v = views(ls@);
    match find_header(ls, section, 0) {
        Some(h) => {
            let e = find_block_end(ls, h);
            let ghost before = ls@;
            ls.insert(e, crate::text::owned(c));
            proof {
                assert(views(ls@) =~= v.insert(e as int, c@)) by {
                    assert forall|k: int| 0 <= k < views(ls@).len() implies #[trigger] views(ls@)[k] == v.insert(
                        e as int,
                        c@,
                    )[k] by {
                        if k < e {
                            assert(ls@[k] == before[k]);
                        } else if k > e {
                            assert(ls@[k] == before[k - 1]);
                        }
                    }
                }
            }
        },
        None => {
            let ghost before = ls@;
            ls.push(concat3("# === ", section, " ==="));
            ls.push(crate::text::owned(c));
            proof {
                assert(views(ls@) =~= v.push(header_line(section@)).push(c@)) by {
                    assert forall|k: int| 0 <= k < before.len() implies #[trigger] views(ls@)[k] == v[k] by {
                        assert(ls@[k] == before[k]);
                    }
                }
            }
        },
    }
}

/// Entries as pairs of character sequences.
pub open spec fn item_views(v: Seq<(String, String)>) -> Seq<(Seq<char>, Seq<char>)> {
    v.map_values(|p: (String, String)| (p.0@, p.1@))
}

proof fn lemma_item_views_push(v: Seq<(String, String)>, p: (String, String))
    ensures
        item_views(v.push(p)) == item_views(v).push((p.0@, p.1@)),
{
    assert(item_views(v.push(p)) =~= item_views(v).push((p.0@, p.1@)));
}

/// Appends the entries of one run command (see [`command_lines`]).
fn push_command_lines(out: &mut Vec<(String, String)>, section: &str, command: &str)
    ensures
        item_views(final(out)@) == item_views(old(out)@) + command_lines(section@, lines_of(command@)),
{
    let cs = chars_of(command);
    let ls = lines(&cs);
    let ghost all = lines_of(command@);
    let ghost base = item_views(out@);
    let mut k: usize = 0;
    proof {
        assert(all.subrange(0, 0) =~= Seq::<Seq<char>>::empty());
        assert(item_views(out@) =~= base + command_lines(section@, all.subrange(0, 0)));
    }
    while k < ls.len()
        invariant
            cs@ == command@,
            all == lines_of(command@),
            ls@.len() == all.len(),
            forall|q: int| 0 <= q < ls@.len() ==> #[trigger] ls@[q]@ == all[q],
            k <= ls@.len(),
            item_views(out@) == base + command_lines(section@, all.subrange(0, k as int)),
        decreases ls@.len() - k,
    {
        proof {
            assert(all.subrange(0, k + 1).drop_last() =~= all.subrange(0, k as int));
            assert(all.subrange(0, k + 1).last() == ls@[k as int]@);
        }
        let line = string_from_chars(ls[k].as_slice());
        let t = trim(line.as_str());
        if t.unicode_len() > 0 {
            let ghost before = out@;
            out.push((crate::text::owned(section), t));
            proof {
                lemma_item_views_push(before, out@.last());
                assert(item_views(out@) =~= base + command_lines(section@, all.subrange(0, k + 1)));
            }
        } else {
            proof {
                assert(item_views(out@) =~= base + command_lines(section@, all.subrange(0, k + 1)));
            }
        }
        k = k + 1;
    }
    proof {
        assert(all.subrange(0, ls@.len() as int) =~= all);
    }
}

/// The entries of the run commands and aliases (see [`shell_items`]).
fn build_items(cmds: &Vec<ShellCommand>, aliases: &Vec<AliasEntry>) -> (r: Vec<(String, String)>)
    ensures
        item_views(r@) == shell_items(cmds@, aliases@),
{
    let mut out: Vec<(String, String)> = Vec::new();
    let mut i: usize = 0;
    proof {
        assert(cmds@.subrange(0, 0) =~= Seq::<ShellCommand>::empty());
        assert(item_views(out@) =~= run_items(cmds@.subrange(0, 0)));
    }
    while i < cmds.len()
        invariant
            i <= cmds@.len(),
            item_views(out@) == run_items(cmds@.subrange(0, i as int)),
        decreases cmds@.len() - i,
    {
        proof {
            assert(cmds@.subrange(0, i + 1).drop_last() =~= cmds@.subrange(0, i as int));
            assert(cmds@.subrange(0, i + 1).last() == cmds@[i as int]);
        }
        push_command_lines(&mut out, cmds[i].section.as_str(), cmds[i].command.as_str());
        i = i + 1;
    }
    proof {
        assert(cmds@.subrange(0, cmds@.len() as int) =~= cmds@);
    }
    let ghost base = item_views(out@);
    let mut j: usize = 0;
    proof {
        reveal_strlit("Aliases");
        assert(item_views(out@) =~= base + alias_items(aliases@.subrange(0, 0)));
    }
    while j < aliases.len()
        invariant
            base == run_items(cmds@),
            j <= aliases@.len(),
            item_views(out@) == base + alias_items(aliases@.subrange(0, j as int)),
        decreases aliases@.len() - j,
    {
        let mut line = concat3("alias ", aliases[j].name.as_str(), "='");
        line.append(aliases[j].value.as_str());
        line.append("'");
        let ghost before = out@;
        out.push((crate::text::owned("Aliases"), line));
        proof {
            lemma_item_views_push(before, out@.last());
            assert(item_views(out@) =~= base + alias_items(aliases@.subrange(0, j + 1)));
        }
        j = j + 1;
    }
    proof {
        assert(aliases@.subrange(0, aliases@.len() as int) =~= aliases@);
    }
    out
}

/// Whether some entry is an update of the file.
fn items_update(ls: &Vec<String>, items: &Vec<(String, String)>) -> (r: bool)
    ensures
        r == is_update(views(ls@), item_views(items@)),
{
    let ghost iv = item_views(items@);
    let mut i: usize = 0;
    while i < items.len()
        invariant
            iv == item_views(items@),
            i <= items@.len(),
            forall|k: int| 0 <= k < i ==> !is_update_item(views(ls@), #[trigger] iv[k]),
        decreases items@.len() - i,
    {
        assert(iv[i as int] == (items@[i as int].0@, items@[i as int].1@));
        if item_is_update(ls, items[i].0.as_str(), items[i].1.as_str()) {
            return true;
        }
        i = i + 1;
    }
    false
}

/// The entries applied in turn to `ls` (see [`applied`]).
fn apply_items(ls: &mut Vec<String>, items: &Vec<(String, String)>)
    ensures
        views(final(ls)@) == applied(views(old(ls)@), item_views(items@)),
{
    let ghost start = views(ls@);
    let ghost iv = item_views(items@);
    let mut i: usize = 0;
    proof {
        assert(iv.subrange(0, 0) =~= Seq::<(Seq<char>, Seq<char>)>::empty());
    }
    while i < items.len()
        invariant
            iv == item_views(items@),
            i <= items@.len(),
            views(ls@) == applied(start, iv.subrange(0, i as int)),
        decreases items@.len() - i,
    {
        proof {
            assert(iv.subrange(0, i + 1).drop_last() =~= iv.subrange(0, i as int));
            assert(iv.subrange(0, i + 1).last() == (items@[i as int].0@, items@[i as int].1@));
        }
        if !section_has(ls, items[i].0.as_str(), items[i].1.as_str()) {
            insert_into_section(ls, items[i].0.as_str(), items[i].1.as_str());
        }
        i = i + 1;
    }
    proof {
        assert(iv.subrange(0, iv.len() as int) =~= iv);
    }
}

/// Whether the configuration changes a variable or alias already defined
/// in the rc file's sections (see [`is_update`]).
pub fn check_for_updates(run_commands: &Vec<ShellCommand>, aliases: &Vec<AliasEntry>, existing: &Vec<String>) -> (r:
    bool)
    ensures
        r == is_update(views(existing@), shell_items(run_commands@, aliases@)),
{
    let items = build_items(run_commands, aliases);
    items_update(existing, &items)
}

/// What applying the shell configuration does to the rc file: its new
/// lines, whether they differ from the old ones, whether an update was
/// detected, and whether the file was written anew.
pub struct ShellRcUpdate {
    pub lines: Vec<String>,
    pub changed: bool,
    pub updates_detected: bool,
    pub regenerated: bool,
}

/// Whether two lists of lines are the same.
fn same_lines(a: &Vec<String>, b: &Vec<String>) -> (r: bool)
    ensures
        r == (views(a@) == views(b@)),
{
    if a.len() != b.len() {
        return false;
    }
    let mut i: usize = 0;
    while i < a.len()
        invariant
            a@.len() == b@.len(),
            i <= a@.len(),
            forall|k: int| 0 <= k < i ==> #[trigger] views(a@)[k] == views(b@)[k],
        decreases a@.len() - i,
    {
        if !str_eq(a[i].as_str(), b[i].as_str()) {
            assert(views(a@)[i as int] != views(b@)[i as int]);
            return false;
        }
        i = i + 1;
    }
    assert(views(a@) =~= views(b@));
    true
}

/// Applies the shell configuration to the rc file's lines (see
/// [`rc_after`]): without updates the missing entries are added under
/// their sections; with updates the file is rebuilt from the
/// configuration when `reset` allows it, and left alone otherwise.
pub fn process_shell_config(
    existing: &Vec<String>,
    run_commands: &Vec<ShellCommand>,
    aliases: &Vec<AliasEntry>,
    reset: bool,
) -> (r: ShellRcUpdate)
    ensures
        views(r.lines@) == rc_after(views(existing@), run_commands@, aliases@, reset),
        r.changed <==> views(r.lines@) != views(existing@),
        r.updates_detected == is_update(views(existing@), shell_items(run_commands@, aliases@)),
        r.regenerated == (r.updates_detected && reset),
{
    let items = build_items(run_commands, aliases);
    let updates = items_update(existing, &items);
    let mut out: Vec<String> = if updates && reset {
        Vec::new()
    } else {
        crate::uv::clone_strings(existing)
    };
    proof {
        if updates && reset {
            assert(views(out@) =~= Seq::<Seq<char>>::empty());
        }
    }
    if !updates || reset {
        apply_items(&mut out, &items);
    }
    let changed = !same_lines(&out, existing);
    ShellRcUpdate { lines: out, changed, updates_detected: updates, regenerated: updates && reset }
}

/// A header named `section` at `k`.
pub open spec fn named_header(lines: Seq<Seq<char>>, section: Seq<char>, k: int) -> bool {
    is_header(lines[k]) && header_name(lines[k]) == section
}

proof fn lemma_header_from(lines: Seq<Seq<char>>, section: Seq<char>, i: int)
    requires
        0 <= i,
    ensures
        match header_from(lines, section, i) {
            Some(h) => i <= h < lines.len() && named_header(lines, section, h) && forall|k: int|
                i <= k < h ==> !named_header(lines, section, k),
            None => forall|k: int| i <= k < lines.len() ==> !named_header(lines, section, k),
        },
    decreases lines.len() - i,
{
    if i < lines.len() && !(is_header(lines[i]) && header_name(lines[i]) == section) {
        lemma_header_from(lines, section, i + 1);
    }
}

proof fn lemma_header_from_is(lines: Seq<Seq<char>>, section: Seq<char>, h: int)
    requires
        0 <= h < lines.len(),
        named_header(lines, section, h),
        forall|k: int| 0 <= k < h ==> !named_header(lines, section, k),
    ensures
        header_from(lines, section, 0) == Some(h),
{
    lemma_header_from(lines, section, 0);
}

proof fn lemma_header_from_none(lines: Seq<Seq<char>>, section: Seq<char>)
    requires
        forall|k: int| 0 <= k < lines.len() ==> !named_header(lines, section, k),
    ensures
        header_from(lines, section, 0) is None,
{
    lemma_header_from(lines, section, 0);
}

proof fn lemma_next_header(lines: Seq<Seq<char>>, i: int)
    requires
        0 <= i <= lines.len(),
    ensures
        i <= next_header_from(lines, i) <= lines.len(),
        forall|k: int| i <= k < next_header_from(lines, i) ==> !is_header(#[trigger] lines[k]),
        next_header_from(lines, i) < lines.len() ==> is_header(lines[next_header_from(lines, i)]),
    decreases lines.len() - i,
{
    if i < lines.len() && !is_header(lines[i]) {
        lemma_next_header(lines, i + 1);
    }
}

proof fn lemma_next_header_is(lines: Seq<Seq<char>>, i: int, r: int)
    requires
        0 <= i <= r <= lines.len(),
        forall|k: int| i <= k < r ==> !is_header(#[trigger] lines[k]),
        r < lines.len() ==> is_header(lines[r]),
    ensures
        next_header_from(lines, i) == r,
{
    lemma_next_header(lines, i);
}

/// Where an old position lands after inserting one line at `p`.
pub open spec fn shifted(k: int, p: int) -> int {
    if k < p {
        k
    } else {
        k + 1
    }
}

/// Inserting a line that is not a header keeps every section's first
/// header and block, shifted past the insertion point.
proof fn lemma_insert_keeps_section(lines: Seq<Seq<char>>, p: int, c: Seq<char>, s2: Seq<char>, h2: int)
    requires
        0 <= p <= lines.len(),
        !is_header(c),
        header_from(lines, s2, 0) == Some(h2),
    ensures
        header_from(lines.insert(p, c), s2, 0) == Some(shifted(h2, p)),
        block_end(lines.insert(p, c), shifted(h2, p)) == shifted(block_end(lines, h2), p),
        forall|j: int| h2 < j < block_end(lines, h2) ==> #[trigger] lines.insert(p, c)[shifted(j, p)] == lines[j]
            && shifted(h2, p) < shifted(j, p) < shifted(block_end(lines, h2), p),
{
    let l2 = lines.insert(p, c);
    lemma_header_from(lines, s2, 0);
    let m = shifted(h2, p);
    assert(l2[m] == lines[h2]);
    assert forall|k: int| 0 <= k < m implies !named_header(l2, s2, k) by {
        if k < p {
            assert(l2[k] == lines[k]);
            assert(!named_header(lines, s2, k));
        } else if k > p {
            assert(l2[k] == lines[k - 1]);
            assert(!named_header(lines, s2, k - 1));
        } else {
            assert(l2[k] == c);
        }
    }
    lemma_header_from_is(l2, s2, m);
    let e = block_end(lines, h2);
    lemma_next_header(lines, h2 + 1);
    let me = shifted(e, p);
    assert forall|k: int| m + 1 <= k < me implies !is_header(#[trigger] l2[k]) by {
        if k < p {
            assert(l2[k] == lines[k]);
        } else if k > p {
            assert(l2[k] == lines[k - 1]);
        }
    }
    if me < l2.len() {
        assert(l2[me] == lines[e]);
    }
    lemma_next_header_is(l2, m + 1, me);
}

/// Appending a header of a section that has none, and a line that is not
/// a header, keeps every other section's first header and lines.
proof fn lemma_push_keeps_section(lines: Seq<Seq<char>>, s: Seq<char>, c: Seq<char>, s2: Seq<char>, h2: int)
    requires
        header_from(lines, s, 0) is None,
        !is_header(c),
        header_from(lines, s2, 0) == Some(h2),
    ensures
        header_from(lines.push(header_line(s)).push(c), s2, 0) == Some(h2),
        block_end(lines.push(header_line(s)).push(c), h2) == block_end(lines, h2),
        forall|j: int| h2 < j < block_end(lines, h2) ==> #[trigger] lines.push(header_line(s)).push(c)[j]
            == lines[j],
{
    let l2 = lines.push(header_line(s)).push(c);
    lemma_header_from(lines, s2, 0);
    assert(l2[h2] == lines[h2]);
    assert forall|k: int| 0 <= k < h2 implies !named_header(l2, s2, k) by {
        assert(l2[k] == lines[k]);
        assert(!named_header(lines, s2, k));
    }
    lemma_header_from_is(l2, s2, h2);
    let e = block_end(lines, h2);
    lemma_next_header(lines, h2 + 1);
    lemma_header_line(s);
    assert forall|k: int| h2 + 1 <= k < e implies !is_header(#[trigger] l2[k]) by {
        assert(l2[k] == lines[k]);
    }
    if e < lines.len() {
        assert(l2[e] == lines[e]);
    } else {
        assert(l2[e] == header_line(s));
    }
    lemma_next_header_is(l2, h2 + 1, e);
}

proof fn lemma_header_line(s: Seq<char>)
    ensures
        is_header(header_line(s)),
        header_name(header_line(s)) == s,
{
    reveal_strlit("# === ");
    reveal_strlit(" ===");
    let l = header_line(s);
    assert(l.subrange(0, 6) =~= "# === "@);
    assert(l.subrange(l.len() - 4, l.len() as int) =~= " ==="@);
    assert(l.subrange(6, l.len() - 4) =~= s);
}

/// An entry stands in its section once it has been inserted.
proof fn lemma_inserted_stands(lines: Seq<Seq<char>>, s: Seq<char>, c: Seq<char>)
    requires
        !is_header(c),
    ensures
        in_section(inserted(lines, s, c), s, c),
{
    match header_from(lines, s, 0) {
        Some(h) => {
            lemma_header_from(lines, s, 0);
            lemma_next_header(lines, h + 1);
            let p = block_end(lines, h);
            lemma_insert_keeps_section(lines, p, c, s, h);
            let l2 = lines.insert(p, c);
            assert(shifted(h, p) == h);
            assert(l2[p] == c);
            assert(h < p < shifted(p, p));
        },
        None => {
            let l2 = lines.push(header_line(s)).push(c);
            let h = lines.len() as int;
            lemma_header_line(s);
            lemma_header_from(lines, s, 0);
            assert forall|k: int| 0 <= k < h implies !named_header(l2, s, k) by {
                assert(l2[k] == lines[k]);
                assert(!named_header(lines, s, k));
            }
            lemma_header_from_is(l2, s, h);
            lemma_next_header_is(l2, h + 1, h + 2);
            assert(l2[h + 1] == c);
        },
    }
}

/// An entry that stands in its section still does after another entry,
/// not a header, is inserted.
proof fn lemma_inserted_keeps(lines: Seq<Seq<char>>, s: Seq<char>, c: Seq<char>, s2: Seq<char>, c2: Seq<char>)
    requires
        !is_header(c),
        in_section(lines, s2, c2),
    ensures
        in_section(inserted(lines, s, c), s2, c2),
{
    let h2 = header_from(lines, s2, 0)->0;
    let j = choose|j: int| h2 < j < block_end(lines, h2) && trim_spec(#[trigger] lines[j]) == trim_spec(c2);
    lemma_header_from(lines, s2, 0);
    lemma_next_header(lines, h2 + 1);
    match header_from(lines, s, 0) {
        Some(h) => {
            lemma_header_from(lines, s, 0);
            lemma_next_header(lines, h + 1);
            let p = block_end(lines, h);
            lemma_insert_keeps_section(lines, p, c, s2, h2);
            let l2 = lines.insert(p, c);
            assert(l2[shifted(j, p)] == lines[j]);
        },
        None => {
            lemma_push_keeps_section(lines, s, c, s2, h2);
            let l2 = lines.push(header_line(s)).push(c);
            assert(l2[j] == lines[j]);
        },
    }
}

/// Whether no entry's line is a section header.
pub open spec fn no_header_entries(items: Seq<(Seq<char>, Seq<char>)>) -> bool {
    forall|k: int| 0 <= k < items.len() ==> !is_header(#[trigger] items[k].1)
}

/// Once the entries are applied, each of them stands under its section's
/// header: every run command line and alias is in its own section.
pub proof fn law_entries_stand_in_their_sections(lines: Seq<Seq<char>>, items: Seq<(Seq<char>, Seq<char>)>)
    requires
        no_header_entries(items),
    ensures
        forall|k: int| 0 <= k < items.len() ==> in_section(applied(lines, items), #[trigger] items[k].0, items[k].1),
    decreases items.len(),
{
    if items.len() > 0 {
        let p = items.drop_last();
        assert forall|k: int| 0 <= k < p.len() implies !is_header(#[trigger] p[k].1) by {
            assert(p[k] == items[k]);
        }
        law_entries_stand_in_their_sections(lines, p);
        let before = applied(lines, p);
        let last = items.last();
        assert(!is_header(items[items.len() - 1].1));
        assert forall|k: int| 0 <= k < items.len() implies in_section(
            applied(lines, items),
            #[trigger] items[k].0,
            items[k].1,
        ) by {
            if in_section(before, last.0, last.1) {
                if k < p.len() {
                    assert(p[k] == items[k]);
                }
            } else {
                if k < p.len() {
                    assert(p[k] == items[k]);
                    lemma_inserted_keeps(before, last.0, last.1, items[k].0, items[k].1);
                } else {
                    lemma_inserted_stands(before, last.0, last.1);
                }
            }
        }
    }
}

/// Entries that already stand in their sections add nothing.
pub proof fn law_present_entries_add_nothing(lines: Seq<Seq<char>>, items: Seq<(Seq<char>, Seq<char>)>)
    requires
        forall|k: int| 0 <= k < items.len() ==> in_section(lines, #[trigger] items[k].0, items[k].1),
    ensures
        applied(lines, items) == lines,
    decreases items.len(),
{
    if items.len() > 0 {
        let p = items.drop_last();
        assert forall|k: int| 0 <= k < p.len() implies in_section(lines, #[trigger] p[k].0, p[k].1) by {
            assert(p[k] == items[k]);
        }
        law_present_entries_add_nothing(lines, p);
        assert(in_section(lines, items[items.len() - 1].0, items[items.len() - 1].1));
    }
}

/// Applying the shell configuration a second time adds nothing: no line is
/// ever duplicated.
pub proof fn law_applying_twice_adds_nothing(lines: Seq<Seq<char>>, items: Seq<(Seq<char>, Seq<char>)>)
    requires
        no_header_entries(items),
    ensures
        applied(applied(lines, items), items) == applied(lines, items),
{
    law_entries_stand_in_their_sections(lines, items);
    law_present_entries_add_nothing(applied(lines, items), items);
}

/// Entries that all stand in their sections are no update.
proof fn lemma_present_no_update(lines: Seq<Seq<char>>, items: Seq<(Seq<char>, Seq<char>)>)
    requires
        forall|k: int| 0 <= k < items.len() ==> in_section(lines, #[trigger] items[k].0, items[k].1),
    ensures
        !is_update(lines, items),
{
    assert forall|k: int| 0 <= k < items.len() implies !is_update_item(lines, #[trigger] items[k]) by {
        assert(in_section(lines, items[k].0, items[k].1));
    }
}

/// After the shell configuration is applied (the file rebuilt, or no update
/// pending), every run command line and alias stands under its section's
/// header.
pub proof fn law_configuration_stands_in_sections(
    existing: Seq<Seq<char>>,
    cmds: Seq<ShellCommand>,
    aliases: Seq<AliasEntry>,
    reset: bool,
)
    requires
        no_header_entries(shell_items(cmds, aliases)),
        reset || !is_update(existing, shell_items(cmds, aliases)),
    ensures
        forall|k: int|
            0 <= k < shell_items(cmds, aliases).len() ==> in_section(
                rc_after(existing, cmds, aliases, reset),
                #[trigger] shell_items(cmds, aliases)[k].0,
                shell_items(cmds, aliases)[k].1,
            ),
{
    let items = shell_items(cmds, aliases);
    if is_update(existing, items) {
        law_entries_stand_in_their_sections(seq![], items);
    } else {
        law_entries_stand_in_their_sections(existing, items);
    }
}

/// Applying the shell configuration twice gives the file applying it once
/// gives: nothing is duplicated, and a rebuilt file is not rebuilt again.
pub proof fn law_shell_configuration_is_idempotent(
    existing: Seq<Seq<char>>,
    cmds: Seq<ShellCommand>,
    aliases: Seq<AliasEntry>,
    reset: bool,
)
    requires
        no_header_entries(shell_items(cmds, aliases)),
    ensures
        rc_after(rc_after(existing, cmds, aliases, reset), cmds, aliases, reset) == rc_after(
            existing,
            cmds,
            aliases,
            reset,
        ),
{
    let items = shell_items(cmds, aliases);
    let once = rc_after(existing, cmds, aliases, reset);
    if is_update(existing, items) && !reset {
        assert(once == existing);
    } else {
        let base = if is_update(existing, items) {
            seq![]
        } else {
            existing
        };
        law_entries_stand_in_their_sections(base, items);
        assert(once == applied(base, items));
        lemma_present_no_update(once, items);
        law_present_entries_add_nothing(once, items);
    }
}

} // verus!
