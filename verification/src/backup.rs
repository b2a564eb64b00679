//! Configuration backups: where they go, what they are called, which files
//! in the backup directory are backups, how many are kept, and which old
//! ones are discarded.

use vstd::prelude::*;
use crate::text::{owned, concat3, trim, trim_spec, starts_with, has_prefix, chars_of};
use crate::paths::{joined, path_join};
use crate::uv::views;
use crate::go::push_string;

verus! {

/// Where backups go: the directory `SDB_CONFIG_BACKUP_RETENTION_PATH`
/// names when it is set and not blank, else `.backup` in the configuration
/// directory.
pub fn backup_dir(src_dir: &str, retention_path: Option<String>) -> (r: String)
    ensures
        match retention_path {
            Some(p) if trim_spec(p@).len() > 0 => r == p,
            _ => r@ == joined(src_dir@, ".backup"@),
        },
{
    if let Some(p) = retention_path {
        let t = trim(p.as_str());
        if t.as_str().unicode_len() > 0 {
            return p;
        }
    }
    path_join(src_dir, ".backup")
}

/// The name of a backup taken at a time written `YYYYmmdd_HHMMSS`.
pub fn backup_filename(timestamp: &str) -> (r: String)
    ensures
        r@ == "backup_"@ + timestamp@ + ".zip"@,
{
    concat3("backup_", timestamp, ".zip")
}

/// The extension of a file name, as `Path::extension` gives it: what
/// follows the last dot, unless that dot begins the name.
pub open spec fn extension(name: Seq<char>) -> Option<Seq<char>> {
    match last_dot(name, name.len() - 1) {
        Some(i) => if i > 0 {
            Some(name.subrange(i + 1, name.len() as int))
        } else {
            None
        },
        None => None,
    }
}

/// The position of the last dot at or before `k`.
pub open spec fn last_dot(name: Seq<char>, k: int) -> Option<int>
    decreases k + 1,
{
    if k < 0 {
        None
    } else if name[k] == '.' {
        Some(k)
    } else {
        last_dot(name, k - 1)
    }
}

/// Whether a file in the backup directory is a backup: a regular file
/// named `backup_…` with the extension `zip`.
pub open spec fn backup_file(name: Seq<char>, is_file: bool) -> bool {
    is_file && extension(name) == Some("zip"@) && has_prefix(name, "backup_"@)
}

/// Whether a file in the backup directory is a backup (see
/// [`backup_file`]).
pub fn is_valid_backup(name: &str, is_file: bool) -> (r: bool)
    ensures
        r == backup_file(name@, is_file),
{
    if !is_file {
        return false;
    }
    let cs = chars_of(name);
    let n = cs.len();
    let mut k: usize = n;
    while k > 0 && cs[k - 1] != '.'
        invariant
            cs@ == name@,
            k <= n,
            n == cs@.len(),
            last_dot(name@, n - 1) == last_dot(name@, k - 1),
        decreases k,
    {
        k = k - 1;
    }
    if k <= 1 {
        return false;
    }
    let ext = name.substring_char(k, n);
    crate::text::str_eq(ext, "zip") && starts_with(name, "backup_")
}

/// The number of backups kept: what `SDB_CONFIG_BACKUP_RETENTION` says
/// when it is a number, else seven.
pub open spec fn retention_of(value: Option<Seq<char>>) -> nat {
    match value {
        Some(v) => match crate::backup::parsed_usize(v) {
            Some(n) => n,
            None => 7,
        },
        None => 7,
    }
}

/// The value of a decimal numeral with an optional leading `+`, as
/// `usize::from_str` reads it; none for anything else.
pub open spec fn parsed_usize(v: Seq<char>) -> Option<nat> {
    let digits = if v.len() > 0 && v[0] == '+' {
        v.drop_first()
    } else {
        v
    };
    if digits.len() > 0 && all_digits(digits) {
        let n = numeral_value(digits);
        if n <= usize::MAX {
            Some(n)
        } else {
            None
        }
    } else {
        None
    }
}

/// Whether every character is a decimal digit.
pub open spec fn all_digits(d: Seq<char>) -> bool {
    forall|i: int| 0 <= i < d.len() ==> '0' <= #[trigger] d[i] <= '9'
}

/// The value of a string of decimal digits.
pub open spec fn numeral_value(d: Seq<char>) -> nat
    decreases d.len(),
{
    if d.len() == 0 {
        0
    } else {
        numeral_value(d.drop_last()) * 10 + ((d.last() as u32) - ('0' as u32)) as nat
    }
}

/// The number of backups kept (see [`retention_of`]).
pub fn retention(value: Option<String>) -> (r: usize)
    ensures
        r == retention_of(
            match value {
                Some(v) => Some(v@),
                None => None,
            },
        ),
{
    let v = match value {
        Some(v) => v,
        None => {
            return 7;
        },
    };
    let cs = chars_of(v.as_str());
    let start: usize = if cs.len() > 0 && cs[0] == '+' { 1 } else { 0 };
    let ghost digits = if cs@.len() > 0 && cs@[0] == '+' {
        cs@.drop_first()
    } else {
        cs@
    };
    proof {
        assert(digits =~= cs@.subrange(start as int, cs@.len() as int));
    }
    if start >= cs.len() {
        return 7;
    }
    let mut acc: usize = 0;
    let mut i: usize = start;
    proof {
        assert(cs@.subrange(start as int, start as int) =~= Seq::<char>::empty());
    }
    while i < cs.len()
        invariant
            value is Some && value->0@ == v@,
            cs@ == v@,
            start <= i <= cs@.len(),
            start == (if cs@.len() > 0 && cs@[0] == '+' { 1int } else { 0int }),
            digits == (if cs@.len() > 0 && cs@[0] == '+' { cs@.drop_first() } else { cs@ }),
            digits == cs@.subrange(start as int, cs@.len() as int),
            forall|k: int| start <= k < i ==> '0' <= #[trigger] cs@[k] <= '9',
            acc == numeral_value(cs@.subrange(start as int, i as int)),
        decreases cs@.len() - i,
    {
        let c = cs[i];
        if !('0' <= c && c <= '9') {
            proof {
                assert(digits[i - start] == c);
                assert(!(forall|k: int| 0 <= k < digits.len() ==> '0' <= #[trigger] digits[k] <= '9'));
                assert(!all_digits(digits));
                assert(parsed_usize(v@) is None);
                assert(retention_of(Some(v@)) == 7);
            }
            return 7;
        }
        let d = (c as u32 - '0' as u32) as usize;
        proof {
            assert(cs@.subrange(start as int, i + 1).drop_last() =~= cs@.subrange(start as int, i as int));
        }
        if acc > (usize::MAX - d) / 10 {
            proof {
                assert(digits.subrange(0, (i - start) as int) =~= cs@.subrange(start as int, i as int));
                assert(digits[i - start] == c);
                if all_digits(digits) {
                    lemma_numeral_grows(digits, (i - start) as int);
                }
            }
            return 7;
        }
        acc = acc * 10 + d;
        i = i + 1;
    }
    proof {
        assert(cs@.subrange(start as int, cs@.len() as int) == digits);
        assert forall|k: int| 0 <= k < digits.len() implies '0' <= #[trigger] digits[k] <= '9' by {
            assert(digits[k] == cs@[start + k]);
        }
    }
    acc
}

proof fn lemma_numeral_grows(d: Seq<char>, i: int)
    requires
        0 <= i < d.len(),
        forall|k: int| 0 <= k <= i ==> '0' <= #[trigger] d[k] <= '9',
        forall|k: int| 0 <= k < d.len() ==> '0' <= #[trigger] d[k] <= '9',
        numeral_value(d.subrange(0, i)) * 10 + ((d[i] as u32) - ('0' as u32)) as nat > usize::MAX,
    ensures
        numeral_value(d) > usize::MAX,
    decreases d.len() - i,
{
    assert(d.subrange(0, i + 1).drop_last() =~= d.subrange(0, i));
    assert(numeral_value(d.subrange(0, i + 1)) > usize::MAX);
    lemma_numeral_monotone(d, i + 1);
}

proof fn lemma_numeral_monotone(d: Seq<char>, j: int)
    requires
        0 <= j <= d.len(),
    ensures
        numeral_value(d) >= numeral_value(d.subrange(0, j)),
    decreases d.len() - j,
{
    if j < d.len() {
        lemma_numeral_monotone(d, j + 1);
        assert(d.subrange(0, j + 1).drop_last() =~= d.subrange(0, j));
    } else {
        assert(d.subrange(0, j) =~= d);
    }
}

/// Whether `a` comes before `b` in the order file names sort in:
/// character by character, a proper prefix first.
pub open spec fn name_less(a: Seq<char>, b: Seq<char>) -> bool
    decreases a.len(),
{
    if a.len() == 0 {
        b.len() > 0
    } else if b.len() == 0 {
        false
    } else if a[0] != b[0] {
        (a[0] as u32) < (b[0] as u32)
    } else {
        name_less(a.drop_first(), b.drop_first())
    }
}

/// Whether `a` sorts before `b` (see [`name_less`]).
pub fn is_name_less(a: &str, b: &str) -> (r: bool)
    ensures
        r == name_less(a@, b@),
{
    let x = chars_of(a);
    let y = chars_of(b);
    let mut i: usize = 0;
    proof {
        assert(x@.subrange(0, x@.len() as int) =~= x@);
        assert(y@.subrange(0, y@.len() as int) =~= y@);
    }
    while i < x.len() && i < y.len() && x[i] == y[i]
        invariant
            x@ == a@,
            y@ == b@,
            i <= x@.len(),
            i <= y@.len(),
            name_less(x@.subrange(i as int, x@.len() as int), y@.subrange(i as int, y@.len() as int)) == name_less(
                a@,
                b@,
            ),
        decreases x@.len() - i,
    {
        proof {
            let xs = x@.subrange(i as int, x@.len() as int);
            let ys = y@.subrange(i as int, y@.len() as int);
            assert(xs.drop_first() =~= x@.subrange(i + 1, x@.len() as int));
            assert(ys.drop_first() =~= y@.subrange(i + 1, y@.len() as int));
            assert(xs[0] == x@[i as int] && ys[0] == y@[i as int]);
        }
        i = i + 1;
    }
    if i == x.len() {
        proof {
            assert(x@.subrange(i as int, x@.len() as int).len() == 0);
        }
        i < y.len()
    } else if i == y.len() {
        false
    } else {
        proof {
            let xs = x@.subrange(i as int, x@.len() as int);
            let ys = y@.subrange(i as int, y@.len() as int);
            assert(xs[0] == x@[i as int] && ys[0] == y@[i as int]);
        }
        (x[i] as u32) < (y[i] as u32)
    }
}

/// How many of the names sort before `x`.
pub open spec fn count_before(names: Seq<Seq<char>>, x: Seq<char>) -> nat
    decreases names.len(),
{
    if names.len() == 0 {
        0
    } else {
        count_before(names.drop_last(), x) + if name_less(names.last(), x) {
            1nat
        } else {
            0nat
        }
    }
}

/// The backups discarded to keep `keep` of them: the oldest, that is those
/// with fewer than `len - keep` backups sorting before them, in the order
/// given; none when there are at most `keep`.
pub open spec fn discarded(names: Seq<Seq<char>>, keep: nat) -> Seq<Seq<char>>
    decreases names.len(),
{
    discarded_from(names, names, keep)
}

/// The names of `part` that are discarded among `all`.
pub open spec fn discarded_from(all: Seq<Seq<char>>, part: Seq<Seq<char>>, keep: nat) -> Seq<Seq<char>>
    decreases part.len(),
{
    if part.len() == 0 || all.len() <= keep {
        seq![]
    } else {
        let rest = discarded_from(all, part.drop_last(), keep);
        if count_before(all, part.last()) < all.len() - keep {
            rest.push(part.last())
        } else {
            rest
        }
    }
}

/// How many of the names sort before `x`.
fn count_names_before(names: &Vec<String>, x: &str) -> (r: usize)
    ensures
        r == count_before(views(names@), x@),
{
    let ghost nv = views(names@);
    let mut c: usize = 0;
    let mut i: usize = 0;
    while i < names.len()
        invariant
            nv == views(names@),
            i <= names@.len(),
            c <= i,
            c == count_before(nv.subrange(0, i as int), x@),
        decreases names@.len() - i,
    {
        proof {
            assert(nv.subrange(0, i + 1).drop_last() =~= nv.subrange(0, i as int));
            assert(nv.subrange(0, i + 1).last() == names@[i as int]@);
        }
        if is_name_less(names[i].as_str(), x) {
            c = c + 1;
        }
        i = i + 1;
    }
    proof {
        assert(nv.subrange(0, names@.len() as int) =~= nv);
    }
    c
}

/// The backups to discard so that `keep` remain (see [`discarded`]).
pub fn backups_to_discard(names: &Vec<String>, keep: usize) -> (r: Vec<String>)
    ensures
        views(r@) == discarded(views(names@), keep as nat),
{
    let ghost nv = views(names@);
    let mut out: Vec<String> = Vec::new();
    if names.len() <= keep {
        proof {
            assert(views(out@) =~= discarded(nv, keep as nat));
        }
        return out;
    }
    let to_delete = names.len() - keep;
    let mut i: usize = 0;
    proof {
        assert(nv.subrange(0, 0) =~= Seq::<Seq<char>>::empty());
        assert(views(out@) =~= discarded_from(nv, nv.subrange(0, 0), keep as nat));
    }
    while i < names.len()
        invariant
            nv == views(names@),
            nv.len() > keep,
            to_delete == nv.len() - keep,
            i <= names@.len(),
            views(out@) == discarded_from(nv, nv.subrange(0, i as int), keep as nat),
        decreases names@.len() - i,
    {
        proof {
            assert(nv.subrange(0, i + 1).drop_last() =~= nv.subrange(0, i as int));
            assert(nv.subrange(0, i + 1).last() == names@[i as int]@);
        }
        let c = count_names_before(names, names[i].as_str());
        if c < to_delete {
            push_string(&mut out, names[i].clone());
        }
        i = i + 1;
    }
    proof {
        assert(nv.subrange(0, names@.len() as int) =~= nv);
    }
    out
}


proof fn lemma_name_less_transitive(a: Seq<char>, b: Seq<char>, c: Seq<char>)
    requires
        name_less(a, b),
        name_less(b, c),
    ensures
        name_less(a, c),
    decreases a.len(),
{
    if a.len() > 0 && b.len() > 0 && c.len() > 0 && a[0] == b[0] && b[0] == c[0] {
        lemma_name_less_transitive(a.drop_first(), b.drop_first(), c.drop_first());
    }
}

proof fn lemma_name_less_irreflexive(a: Seq<char>)
    ensures
        !name_less(a, a),
    decreases a.len(),
{
    if a.len() > 0 {
        lemma_name_less_irreflexive(a.drop_first());
    }
}

/// Fewer names come before `y` than before `x` when `y` comes before `x`
/// and is among them; never more.
proof fn lemma_count_before_monotone(all: Seq<Seq<char>>, y: Seq<char>, x: Seq<char>)
    requires
        name_less(y, x),
    ensures
        count_before(all, y) <= count_before(all, x),
        all.contains(y) ==> count_before(all, y) < count_before(all, x),
    decreases all.len(),
{
    if all.len() > 0 {
        let rest = all.drop_last();
        lemma_count_before_monotone(rest, y, x);
        if name_less(all.last(), y) {
            lemma_name_less_transitive(all.last(), y, x);
        }
        if all.last() == y {
            lemma_name_less_irreflexive(y);
        }
        if all.contains(y) && !rest.contains(y) {
            let k = choose|k: int| 0 <= k < all.len() && all[k] == y;
            if k < all.len() - 1 {
                assert(rest[k] == y);
            }
            assert(all.last() == y);
        }
    }
}

/// What `discarded_from` keeps of `part`: the names of it that fewer than
/// `all.len() - keep` names come before.
proof fn lemma_discarded_from_members(all: Seq<Seq<char>>, part: Seq<Seq<char>>, keep: nat, x: Seq<char>)
    requires
        all.len() > keep,
    ensures
        discarded_from(all, part, keep).contains(x) <==> (part.contains(x) && count_before(all, x) < all.len()
            - keep),
    decreases part.len(),
{
    if part.len() > 0 {
        let rest = part.drop_last();
        lemma_discarded_from_members(all, rest, keep, x);
        assert(part =~= rest.push(part.last()));
        if part.contains(x) && !rest.contains(x) {
            let k = choose|k: int| 0 <= k < part.len() && part[k] == x;
            if k < part.len() - 1 {
                assert(rest[k] == x);
            }
        }
        if rest.contains(x) {
            let k = choose|k: int| 0 <= k < rest.len() && rest[k] == x;
            assert(part[k] == x);
        }
        let d = discarded_from(all, rest, keep);
        if count_before(all, part.last()) < all.len() - keep {
            assert(discarded_from(all, part, keep) == d.push(part.last()));
            if d.contains(x) {
                let k = choose|k: int| 0 <= k < d.len() && d[k] == x;
                assert(d.push(part.last())[k] == x);
            }
            if d.push(part.last()).contains(x) && !d.contains(x) {
                let k = choose|k: int| 0 <= k < d.len() + 1 && d.push(part.last())[k] == x;
                if k < d.len() {
                    assert(d[k] == x);
                }
            }
            assert(d.push(part.last())[d.len() as int] == part.last());
        }
    }
}

/// Within the retention nothing is discarded.
pub proof fn law_nothing_discarded_within_retention(names: Seq<Seq<char>>, keep: nat)
    requires
        names.len() <= keep,
    ensures
        discarded(names, keep) == Seq::<Seq<char>>::empty(),
{
    assert(discarded(names, keep) =~= Seq::<Seq<char>>::empty());
}

/// The backups discarded are the oldest: no backup that is kept sorts
/// before one that is discarded.
pub proof fn law_discarded_backups_are_oldest(names: Seq<Seq<char>>, keep: nat, dropped: Seq<char>, kept: Seq<char>)
    requires
        discarded(names, keep).contains(dropped),
        names.contains(kept),
        !discarded(names, keep).contains(kept),
    ensures
        !name_less(kept, dropped),
{
    if names.len() <= keep {
        law_nothing_discarded_within_retention(names, keep);
        assert(!discarded(names, keep).contains(dropped));
    } else {
        lemma_discarded_from_members(names, names, keep, dropped);
        lemma_discarded_from_members(names, names, keep, kept);
        if name_less(kept, dropped) {
            lemma_count_before_monotone(names, kept, dropped);
        }
    }
}

} // verus!
