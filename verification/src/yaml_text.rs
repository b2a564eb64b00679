//! Touch-ups applied to YAML text before it is written: blank lines between
//! list items, deeper indentation, and quoting the update-policy duration.

use vstd::prelude::*;
use crate::text::{
    lemma_trim_start_suffix, str_eq,
    has_prefix, trim_spec, trim_start_spec, is_ws, chars_of, string_from_chars, trim,
    first_occurrence, occurs_at, contains_seq, push_char,
};

verus! {

/// `s` with every occurrence of `from` replaced by `to`, scanning left to
/// right without overlaps (as `str::replace` does, for a non-empty `from`).
pub open spec fn replace_all(s: Seq<char>, from: Seq<char>, to: Seq<char>) -> Seq<char>
    decreases s.len(),
{
    if from.len() == 0 || s.len() == 0 {
        s
    } else if has_prefix(s, from) {
        to + replace_all(s.subrange(from.len() as int, s.len() as int), from, to)
    } else {
        seq![s[0]] + replace_all(s.drop_first(), from, to)
    }
}

proof fn lemma_prefix_at(s: Seq<char>, i: int, from: Seq<char>)
    requires
        0 <= i <= s.len(),
    ensures
        has_prefix(s.subrange(i, s.len() as int), from) == occurs_at(s, from, i),
{
    let t = s.subrange(i, s.len() as int);
    if from.len() <= t.len() {
        assert(t.subrange(0, from.len() as int) =~= s.subrange(i, i + from.len()));
    }
}

/// Replaces every occurrence of `from` (non-empty) in `s` by `to`.
pub fn replace_str(s: &Vec<char>, from: &Vec<char>, to: &Vec<char>) -> (r: Vec<char>)
    requires
        from@.len() > 0,
    ensures
        r@ == replace_all(s@, from@, to@),
{
    let mut out: Vec<char> = Vec::new();
    let mut i: usize = 0;
    let n = s.len();
    let m = from.len();
    assert(out@ + replace_all(s@.subrange(0, n as int), from@, to@) =~= replace_all(s@, from@, to@)) by {
        assert(s@.subrange(0, n as int) =~= s@);
    }
    while i < n
        invariant
            n == s@.len(),
            m == from@.len(),
            m > 0,
            i <= n,
            out@ + replace_all(s@.subrange(i as int, n as int), from@, to@) == replace_all(s@, from@, to@),
        decreases n - i,
    {
        let ghost rest = s@.subrange(i as int, n as int);
        let mut matched = m <= n - i;
        if matched {
            let mut k: usize = 0;
            while k < m
                invariant
                    i + m <= n,
                    n == s@.len(),
                    m == from@.len(),
                    k <= m,
                    matched == forall|t: int| 0 <= t < k ==> s@[i + t] == from@[t],
                decreases m - k,
            {
                if s[i + k] != from[k] {
                    matched = false;
                }
                k = k + 1;
            }
            proof {
                if matched {
                    assert(s@.subrange(i as int, i + m) =~= from@);
                } else {
                    let t = choose|t: int| 0 <= t < m && s@[i + t] != from@[t];
                    assert(s@.subrange(i as int, i + m)[t] != from@[t]);
                }
            }
        }
        proof {
            lemma_prefix_at(s@, i as int, from@);
        }
        if matched {
            let mut k: usize = 0;
            let ghost before = out@;
            while k < to.len()
                invariant
                    k <= to@.len(),
                    out@ == before + to@.subrange(0, k as int),
                decreases to@.len() - k,
            {
                out.push(to[k]);
                k = k + 1;
                assert(out@ =~= before + to@.subrange(0, k as int));
            }
            assert(to@.subrange(0, to@.len() as int) =~= to@);
            assert(rest.subrange(m as int, rest.len() as int) =~= s@.subrange(i + m, n as int));
            assert(out@ + replace_all(s@.subrange(i + m, n as int), from@, to@) =~= before + (to@
                + replace_all(rest.subrange(m as int, rest.len() as int), from@, to@)));
            i = i + m;
        } else {
            let ghost before = out@;
            out.push(s[i]);
            assert(rest.drop_first() =~= s@.subrange(i + 1, n as int));
            assert(rest[0] == s@[i as int]);
            assert(out@ + replace_all(s@.subrange(i + 1, n as int), from@, to@) =~= before + (seq![rest[0]]
                + replace_all(rest.drop_first(), from@, to@)));
            i = i + 1;
        }
    }
    assert(out@ + replace_all(s@.subrange(n as int, n as int), from@, to@) =~= out@);
    out
}

/// The position of the first `c` in `s`, if any.
pub open spec fn index_of(s: Seq<char>, c: char) -> Option<int> {
    if exists|i: int| 0 <= i < s.len() && s[i] == c {
        Some(choose|i: int| 0 <= i < s.len() && s[i] == c && forall|j: int| 0 <= j < i ==> s[j] != c)
    } else {
        None
    }
}

/// A line without the `\r` of a `\r\n` ending.
pub open spec fn strip_cr(l: Seq<char>) -> Seq<char> {
    if l.len() > 0 && l.last() == '\r' {
        l.drop_last()
    } else {
        l
    }
}

/// The position of the first `\n` at or after `i` (`s.len()` when none).
pub open spec fn next_newline(s: Seq<char>, i: int) -> int
    decreases s.len() - i,
{
    if i < 0 || i >= s.len() {
        s.len() as int
    } else if s[i] == '\n' {
        i
    } else {
        next_newline(s, i + 1)
    }
}

pub proof fn lemma_next_newline(s: Seq<char>, i: int)
    requires
        0 <= i <= s.len(),
    ensures
        i <= next_newline(s, i) <= s.len(),
        forall|t: int| i <= t < next_newline(s, i) ==> s[t] != '\n',
        next_newline(s, i) < s.len() ==> s[next_newline(s, i)] == '\n',
    decreases s.len() - i,
{
    if i < s.len() && s[i] != '\n' {
        lemma_next_newline(s, i + 1);
    }
}

/// The lines of `s` from position `i` on, as `str::lines` yields them: split
/// after each `\n`, without the `\n` (or `\r\n`) ending; no empty line after
/// a final `\n`.
pub open spec fn lines_from(s: Seq<char>, i: int) -> Seq<Seq<char>>
    decreases s.len() - i,
{
    if i < 0 || i >= s.len() {
        Seq::empty()
    } else {
        let k = next_newline(s, i);
        proof {
            lemma_next_newline(s, i);
        }
        if k < s.len() {
            seq![strip_cr(s.subrange(i, k))] + lines_from(s, k + 1)
        } else {
            seq![s.subrange(i, s.len() as int)]
        }
    }
}

/// The lines of `s` (see [`lines_from`]).
pub open spec fn lines_of(s: Seq<char>) -> Seq<Seq<char>> {
    lines_from(s, 0)
}

/// Lines joined with `\n` between them.
pub open spec fn join_lines(ls: Seq<Seq<char>>) -> Seq<char>
    decreases ls.len(),
{
    if ls.len() == 0 {
        Seq::empty()
    } else if ls.len() == 1 {
        ls[0]
    } else {
        ls[0] + seq!['\n'] + join_lines(ls.drop_first())
    }
}

proof fn lemma_index_of(s: Seq<char>, c: char, k: int)
    requires
        0 <= k < s.len(),
        s[k] == c,
        forall|j: int| 0 <= j < k ==> s[j] != c,
    ensures
        index_of(s, c) == Some(k),
{
    let w = choose|i: int| 0 <= i < s.len() && s[i] == c && forall|j: int| 0 <= j < i ==> s[j] != c;
    assert(s[k] == c);
    if w < k {
        assert(s[w] != c);
    }
    if w > k {
        assert(s[k] != c);
    }
}

/// Splits into lines (see [`lines_of`]).
pub fn lines(s: &Vec<char>) -> (r: Vec<Vec<char>>)
    ensures
        r@.len() == lines_of(s@).len(),
        forall|i: int| 0 <= i < r@.len() ==> #[trigger] r@[i]@ == lines_of(s@)[i],
{
    let mut out: Vec<Vec<char>> = Vec::new();
    let ghost mut done: Seq<Seq<char>> = Seq::empty();
    let n = s.len();
    let mut i: usize = 0;
    while i < n
        invariant
            n == s@.len(),
            i <= n,
            out@.len() == done.len(),
            forall|k: int| 0 <= k < out@.len() ==> #[trigger] out@[k]@ == done[k],
            done + lines_from(s@, i as int) == lines_of(s@),
        decreases n - i,
    {
        proof {
            lemma_next_newline(s@, i as int);
        }
        let mut line: Vec<char> = Vec::new();
        let mut j: usize = i;
        while j < n && s[j] != '\n'
            invariant
                i <= j <= n,
                n == s@.len(),
                line@ == s@.subrange(i as int, j as int),
                j <= next_newline(s@, i as int),
                i <= next_newline(s@, i as int) <= n,
                forall|t: int| i <= t < next_newline(s@, i as int) ==> s@[t] != '\n',
                next_newline(s@, i as int) < n ==> s@[next_newline(s@, i as int)] == '\n',
            decreases n - j,
        {
            line.push(s[j]);
            j = j + 1;
            assert(line@ =~= s@.subrange(i as int, j as int));
        }
        assert(j == next_newline(s@, i as int));
        let ghost old_done = done;
        if j < n {
            if line.len() > 0 && line[line.len() - 1] == '\r' {
                line.pop();
            }
            assert(line@ =~= strip_cr(s@.subrange(i as int, j as int)));
            proof {
                done = done.push(line@);
                assert(done + lines_from(s@, j + 1) =~= old_done + (seq![line@] + lines_from(s@, j + 1)));
            }
            out.push(line);
            i = j + 1;
        } else {
            proof {
                done = done.push(line@);
                assert(lines_from(s@, n as int) =~= Seq::<Seq<char>>::empty());
                assert(done + lines_from(s@, n as int) =~= old_done + seq![line@]);
            }
            out.push(line);
            i = n;
        }
    }
    assert(lines_from(s@, n as int) =~= Seq::<Seq<char>>::empty());
    assert(done + lines_from(s@, n as int) =~= done);
    out
}

/// The line with the value after its first `:` trimmed and put in double
/// quotes, unless that value already starts with a quote.
pub open spec fn quoted_line(line: Seq<char>) -> Seq<char> {
    match index_of(line, ':') {
        Some(c) => {
            let key = line.subrange(0, c + 1);
            let value = trim_spec(line.subrange(c + 1, line.len() as int));
            if has_prefix(value, seq!['"']) || has_prefix(value, seq!['\'']) {
                line
            } else {
                key + seq![' ', '"'] + value + seq!['"']
            }
        },
        None => line,
    }
}

/// Quotes the value after a line's first `:` (see [`quoted_line`]).
pub fn quote_value_after_colon(line: &Vec<char>) -> (r: Vec<char>)
    ensures
        r@ == quoted_line(line@),
{
    let n = line.len();
    let mut c: usize = 0;
    while c < n && line[c] != ':'
        invariant
            c <= n,
            n == line@.len(),
            forall|j: int| 0 <= j < c ==> line@[j] != ':',
        decreases n - c,
    {
        c = c + 1;
    }
    if c == n {
        assert(index_of(line@, ':') is None);
        return clone_chars(line);
    }
    proof {
        lemma_index_of(line@, ':', c as int);
    }
    let mut key: Vec<char> = Vec::new();
    let mut k: usize = 0;
    while k <= c
        invariant
            c < n,
            n == line@.len(),
            k <= c + 1,
            key@ == line@.subrange(0, k as int),
        decreases c + 1 - k,
    {
        key.push(line[k]);
        k = k + 1;
        assert(key@ =~= line@.subrange(0, k as int));
    }
    let mut tail: Vec<char> = Vec::new();
    let mut k: usize = c + 1;
    while k < n
        invariant
            c < n,
            n == line@.len(),
            c + 1 <= k <= n,
            tail@ == line@.subrange(c + 1, k as int),
        decreases n - k,
    {
        tail.push(line[k]);
        k = k + 1;
        assert(tail@ =~= line@.subrange(c + 1, k as int));
    }
    let tail_s = string_from_chars(tail.as_slice());
    let value_s = trim(tail_s.as_str());
    let value = chars_of(value_s.as_str());
    if value.len() > 0 && (value[0] == '"' || value[0] == '\'') {
        assert(value@.subrange(0, 1) =~= seq![value@[0]]);
        return clone_chars(line);
    }
    proof {
        if value@.len() > 0 {
            assert(value@.subrange(0, 1) =~= seq![value@[0]]);
        }
    }
    let mut out = key;
    out.push(' ');
    out.push('"');
    let mut k: usize = 0;
    let ghost base = out@;
    while k < value.len()
        invariant
            k <= value@.len(),
            out@ == base + value@.subrange(0, k as int),
        decreases value@.len() - k,
    {
        out.push(value[k]);
        k = k + 1;
        assert(out@ =~= base + value@.subrange(0, k as int));
    }
    out.push('"');
    assert(value@.subrange(0, value@.len() as int) =~= value@);
    assert(out@ =~= line@.subrange(0, c + 1) + seq![' ', '"'] + value@ + seq!['"']);
    out
}

/// A copy of a character vector.
pub fn clone_chars(v: &Vec<char>) -> (r: Vec<char>)
    ensures
        r@ == v@,
{
    let mut r: Vec<char> = Vec::new();
    let mut i: usize = 0;
    while i < v.len()
        invariant
            i <= v@.len(),
            r@ == v@.subrange(0, i as int),
        decreases v@.len() - i,
    {
        r.push(v[i]);
        i = i + 1;
        assert(r@ =~= v@.subrange(0, i as int));
    }
    assert(v@.subrange(0, v@.len() as int) =~= v@);
    r
}

proof fn lemma_join_push(ls: Seq<Seq<char>>, x: Seq<char>)
    ensures
        join_lines(ls.push(x)) == (if ls.len() == 0 {
            x
        } else {
            join_lines(ls) + seq!['\n'] + x
        }),
    decreases ls.len(),
{
    if ls.len() == 0 {
        assert(ls.push(x) =~= seq![x]);
    } else if ls.len() == 1 {
        assert(ls.push(x).drop_first() =~= seq![x]);
        assert(join_lines(seq![x]) == x);
        assert(join_lines(ls) == ls[0]);
        assert(join_lines(ls.push(x)) == ls.push(x)[0] + seq!['\n'] + join_lines(ls.push(x).drop_first()));
    } else {
        lemma_join_push(ls.drop_first(), x);
        assert(ls.push(x).drop_first() =~= ls.drop_first().push(x));
        assert(join_lines(ls.push(x)) == ls[0] + seq!['\n'] + join_lines(ls.drop_first().push(x)));
        assert(join_lines(ls) == ls[0] + seq!['\n'] + join_lines(ls.drop_first()));
        assert(ls[0] + seq!['\n'] + (join_lines(ls.drop_first()) + seq!['\n'] + x) =~= (ls[0]
            + seq!['\n'] + join_lines(ls.drop_first())) + seq!['\n'] + x);
    }
}

/// The key whose value is quoted in regenerated tool configuration.
pub open spec fn policy_key() -> Seq<char> {
    "update_latest_only_after:"@
}

/// A line with the update-policy duration quoted, other lines as they are.
pub open spec fn touched_line(l: Seq<char>) -> Seq<char> {
    if has_prefix(trim_start_spec(l), policy_key()) {
        quoted_line(l)
    } else {
        l
    }
}

/// The YAML text as it is written: a blank line before each top-level list
/// item, one more space of indentation on indented lines, and the
/// update-policy duration quoted (the text is then re-joined line by line).
pub open spec fn formatted_yaml(yaml: Seq<char>) -> Seq<char> {
    let a = replace_all(yaml, "\n- "@, "\n\n - "@);
    let b = replace_all(a, "\n  "@, "\n   "@);
    if contains_seq(b, policy_key()) {
        join_lines(lines_of(b).map_values(|l: Seq<char>| touched_line(l)))
    } else {
        b
    }
}

/// Whether the line, past its leading whitespace, starts with the policy key.
fn starts_with_policy_key(l: &Vec<char>) -> (r: bool)
    ensures
        r == has_prefix(trim_start_spec(l@), policy_key()),
{
    let n = l.len();
    let mut i: usize = 0;
    while i < n && crate::text::is_whitespace(l[i])
        invariant
            i <= n,
            n == l@.len(),
            forall|k: int| 0 <= k < i ==> is_ws(#[trigger] l@[k]),
        decreases n - i,
    {
        i = i + 1;
    }
    proof {
        lemma_trim_start_suffix(l@, i as int);
        let rest = l@.subrange(i as int, n as int);
        if rest.len() > 0 {
            assert(!is_ws(rest[0]));
        }
        assert(trim_start_spec(rest) == rest);
    }
    let key = chars_of("update_latest_only_after:");
    assert(key@ == policy_key());
    assert(trim_start_spec(l@) == l@.subrange(i as int, n as int));
    if key.len() > n - i {
        return false;
    }
    let mut k: usize = 0;
    while k < key.len()
        invariant
            i + key@.len() <= n,
            n == l@.len(),
            k <= key@.len(),
            key@ == policy_key(),
            trim_start_spec(l@) == l@.subrange(i as int, n as int),
            forall|t: int| 0 <= t < k ==> l@[i + t] == key@[t],
        decreases key@.len() - k,
    {
        if l[i + k] != key[k] {
            assert(l@.subrange(i as int, n as int).subrange(0, key@.len() as int)[k as int] != key@[k as int]);
            return false;
        }
        k = k + 1;
    }
    assert(l@.subrange(i as int, n as int).subrange(0, key@.len() as int) =~= key@);
    true
}

/// Formats regenerated YAML text (see [`formatted_yaml`]).
pub fn format_yaml_output(yaml: &str) -> (r: String)
    ensures
        r@ == formatted_yaml(yaml@),
{
    proof {
        reveal_strlit("\n- ");
        reveal_strlit("\n  ");
    }
    let y = chars_of(yaml);
    let a = replace_str(&y, &chars_of("\n- "), &chars_of("\n\n - "));
    let b = replace_str(&a, &chars_of("\n  "), &chars_of("\n   "));
    let key = chars_of("update_latest_only_after:");
    let found = crate::text::find_chars(&b, &key);
    if found.is_none() {
        return string_from_chars(b.as_slice());
    }
    let ls = lines(&b);
    let ghost mapped = lines_of(b@).map_values(|l: Seq<char>| touched_line(l));
    let mut out: Vec<char> = Vec::new();
    let mut i: usize = 0;
    while i < ls.len()
        invariant
            i <= ls@.len(),
            ls@.len() == lines_of(b@).len(),
            forall|k: int| 0 <= k < ls@.len() ==> #[trigger] ls@[k]@ == lines_of(b@)[k],
            mapped == lines_of(b@).map_values(|l: Seq<char>| touched_line(l)),
            out@ == join_lines(mapped.subrange(0, i as int)),
        decreases ls@.len() - i,
    {
        let line = if starts_with_policy_key(&ls[i]) {
            quote_value_after_colon(&ls[i])
        } else {
            clone_chars(&ls[i])
        };
        assert(line@ == mapped[i as int]);
        proof {
            lemma_join_push(mapped.subrange(0, i as int), line@);
            assert(mapped.subrange(0, i as int).push(line@) =~= mapped.subrange(0, i + 1));
        }
        if i > 0 {
            out.push('\n');
        }
        let ghost before = out@;
        let mut k: usize = 0;
        while k < line.len()
            invariant
                k <= line@.len(),
                out@ == before + line@.subrange(0, k as int),
            decreases line@.len() - k,
        {
            out.push(line[k]);
            k = k + 1;
            assert(out@ =~= before + line@.subrange(0, k as int));
        }
        assert(line@.subrange(0, line@.len() as int) =~= line@);
        i = i + 1;
    }
    assert(mapped.subrange(0, ls@.len() as int) =~= mapped);
    string_from_chars(out.as_slice())
}

/// The position of the first `c` in `s` (see [`index_of`]).
pub fn find_char(s: &str, c: char) -> (r: Option<usize>)
    ensures
        match r {
            Some(i) => index_of(s@, c) == Some(i as int) && i < s@.len() && s@[i as int] == c,
            None => index_of(s@, c) is None,
        },
{
    let n = s.unicode_len();
    let mut i: usize = 0;
    while i < n
        invariant
            n == s@.len(),
            i <= n,
            forall|j: int| 0 <= j < i ==> s@[j] != c,
        decreases n - i,
    {
        if s.get_char(i) == c {
            proof {
                lemma_index_of(s@, c, i as int);
            }
            return Some(i);
        }
        i = i + 1;
    }
    None
}

} // verus!
