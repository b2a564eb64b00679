//! Configuration documents as parsed YAML, and the edits the `add` and
//! `remove` commands make to them: adding or updating a list item by its
//! identifying field (merging into what is there), removing one, and
//! dropping empty or null fields from what is written.
//!
//! The keys of a mapping are distinct, as the YAML parser yields them.

use vstd::prelude::*;
use crate::text::{owned, concat2, concat3, str_eq};

verus! {

/// A YAML value as the edits read it.
pub enum YamlV {
    Null,
    Bool(bool),
    Number(Seq<char>),
    Str(Seq<char>),
    List(Seq<YamlV>),
    Mapping(Seq<(Seq<char>, YamlV)>),
}

/// A parsed YAML value. Numbers keep their text; mapping keys are strings.
#[derive(Debug, PartialEq)]
pub enum Yaml {
    Null,
    Bool(bool),
    Number(String),
    Str(String),
    List(Vec<Yaml>),
    Mapping(Vec<(String, Yaml)>),
}

impl Yaml {
    /// The value this YAML stands for.
    pub open spec fn model(self) -> YamlV
        decreases self,
    {
        match self {
            Yaml::Null => YamlV::Null,
            Yaml::Bool(b) => YamlV::Bool(b),
            Yaml::Number(n) => YamlV::Number(n@),
            Yaml::Str(s) => YamlV::Str(s@),
            Yaml::List(items) => YamlV::List(model_items(items@)),
            Yaml::Mapping(entries) => YamlV::Mapping(model_entries(entries@)),
        }
    }
}

/// The values of a list.
pub open spec fn model_items(items: Seq<Yaml>) -> Seq<YamlV>
    decreases items,
{
    if items.len() == 0 {
        Seq::empty()
    } else {
        model_items(items.drop_last()).push(items.last().model())
    }
}

/// The entries of a mapping.
pub open spec fn model_entries(entries: Seq<(String, Yaml)>) -> Seq<(Seq<char>, YamlV)>
    decreases entries,
{
    if entries.len() == 0 {
        Seq::empty()
    } else {
        model_entries(entries.drop_last()).push((entries.last().0@, entries.last().1.model()))
    }
}


proof fn lemma_model_items(items: Seq<Yaml>)
    ensures
        model_items(items).len() == items.len(),
        forall|i: int| 0 <= i < items.len() ==> #[trigger] model_items(items)[i] == items[i].model(),
    decreases items.len(),
{
    if items.len() > 0 {
        lemma_model_items(items.drop_last());
        assert forall|i: int| 0 <= i < items.len() implies #[trigger] model_items(items)[i] == items[i].model() by {
            if i < items.len() - 1 {
                assert(items.drop_last()[i] == items[i]);
            }
        }
    }
}

proof fn lemma_model_entries(entries: Seq<(String, Yaml)>)
    ensures
        model_entries(entries).len() == entries.len(),
        forall|i: int| 0 <= i < entries.len() ==> #[trigger] model_entries(entries)[i] == (
            entries[i].0@,
            entries[i].1.model(),
        ),
    decreases entries.len(),
{
    if entries.len() > 0 {
        lemma_model_entries(entries.drop_last());
        assert forall|i: int| 0 <= i < entries.len() implies #[trigger] model_entries(entries)[i] == (
            entries[i].0@,
            entries[i].1.model(),
        ) by {
            if i < entries.len() - 1 {
                assert(entries.drop_last()[i] == entries[i]);
            }
        }
    }
}

proof fn lemma_model_items_ext(a: Seq<Yaml>, b: Seq<YamlV>)
    requires
        a.len() == b.len(),
        forall|i: int| 0 <= i < a.len() ==> #[trigger] a[i].model() == b[i],
    ensures
        model_items(a) == b,
{
    lemma_model_items(a);
    assert(model_items(a) =~= b);
}

proof fn lemma_model_entries_ext(a: Seq<(String, Yaml)>, b: Seq<(Seq<char>, YamlV)>)
    requires
        a.len() == b.len(),
        forall|i: int| 0 <= i < a.len() ==> (#[trigger] a[i]).0@ == b[i].0 && a[i].1.model() == b[i].1,
    ensures
        model_entries(a) == b,
{
    lemma_model_entries(a);
    assert(model_entries(a) =~= b);
}

/// The position of the first entry keyed `k`.
pub open spec fn key_index<A>(es: Seq<(Seq<char>, A)>, k: Seq<char>) -> Option<int>
    decreases es.len(),
{
    if es.len() == 0 {
        None
    } else {
        match key_index(es.drop_last(), k) {
            Some(i) => Some(i),
            None => if es.last().0 == k {
                Some(es.len() - 1)
            } else {
                None
            },
        }
    }
}

proof fn lemma_key_index<A>(es: Seq<(Seq<char>, A)>, k: Seq<char>)
    ensures
        match key_index(es, k) {
            Some(i) => 0 <= i < es.len() && es[i].0 == k && forall|j: int| 0 <= j < i ==> #[trigger] es[j].0 != k,
            None => forall|j: int| 0 <= j < es.len() ==> #[trigger] es[j].0 != k,
        },
    decreases es.len(),
{
    if es.len() > 0 {
        lemma_key_index(es.drop_last(), k);
        match key_index(es.drop_last(), k) {
            Some(i) => {
                assert forall|j: int| 0 <= j < i implies #[trigger] es[j].0 != k by {
                    assert(es.drop_last()[j] == es[j]);
                }
                assert(es.drop_last()[i] == es[i]);
            },
            None => {
                assert forall|j: int| 0 <= j < es.len() - 1 implies #[trigger] es[j].0 != k by {
                    assert(es.drop_last()[j] == es[j]);
                }
            },
        }
    }
}

/// The value of field `k` of a mapping (none for other values).
pub open spec fn field(v: YamlV, k: Seq<char>) -> Option<YamlV> {
    match v {
        YamlV::Mapping(es) => match key_index(es, k) {
            Some(i) => Some(es[i].1),
            None => None,
        },
        _ => None,
    }
}

/// The string held in field `k` (none when it is absent or not a string).
pub open spec fn str_field(v: YamlV, k: Seq<char>) -> Option<Seq<char>> {
    match field(v, k) {
        Some(YamlV::Str(s)) => Some(s),
        _ => None,
    }
}

/// The position of the first item whose field `key` holds the string `id`.
pub open spec fn first_item(items: Seq<YamlV>, key: Seq<char>, id: Seq<char>) -> Option<int>
    decreases items.len(),
{
    if items.len() == 0 {
        None
    } else {
        match first_item(items.drop_last(), key, id) {
            Some(i) => Some(i),
            None => if str_field(items.last(), key) == Some(id) {
                Some(items.len() - 1)
            } else {
                None
            },
        }
    }
}

proof fn lemma_first_item(items: Seq<YamlV>, key: Seq<char>, id: Seq<char>)
    ensures
        match first_item(items, key, id) {
            Some(i) => 0 <= i < items.len() && str_field(items[i], key) == Some(id) && forall|j: int|
                0 <= j < i ==> str_field(#[trigger] items[j], key) != Some(id),
            None => forall|j: int| 0 <= j < items.len() ==> str_field(#[trigger] items[j], key) != Some(id),
        },
    decreases items.len(),
{
    if items.len() > 0 {
        lemma_first_item(items.drop_last(), key, id);
        match first_item(items.drop_last(), key, id) {
            Some(i) => {
                assert forall|j: int| 0 <= j < i implies str_field(#[trigger] items[j], key) != Some(id) by {
                    assert(items.drop_last()[j] == items[j]);
                }
                assert(items.drop_last()[i] == items[i]);
            },
            None => {
                assert forall|j: int| 0 <= j < items.len() - 1 implies str_field(#[trigger] items[j], key) != Some(id) by {
                    assert(items.drop_last()[j] == items[j]);
                }
            },
        }
    }
}

/// A copy of a YAML value.
pub fn clone_yaml(y: &Yaml) -> (r: Yaml)
    ensures
        r.model() == y.model(),
    decreases y,
{
    match y {
        Yaml::Null => Yaml::Null,
        Yaml::Bool(b) => Yaml::Bool(*b),
        Yaml::Number(n) => Yaml::Number(n.clone()),
        Yaml::Str(s) => Yaml::Str(s.clone()),
        Yaml::List(items) => {
            let mut out: Vec<Yaml> = Vec::new();
            let mut i: usize = 0;
            while i < items.len()
                invariant
                    *y == Yaml::List(*items),
                    i <= items@.len(),
                    out@.len() == i,
                    forall|j: int| 0 <= j < i ==> #[trigger] out@[j].model() == items@[j].model(),
                decreases items@.len() - i,
            {
                proof {
                    assert(decreases_to!(*y => (*y)->List_0));
                    assert(decreases_to!(*y => *items));
                    assert(decreases_to!(*items => items@));
                    assert(decreases_to!(items@ => items@[i as int]));
                    assert(decreases_to!(*y => items@[i as int]));
                }
                out.push(clone_yaml(&items[i]));
                i = i + 1;
            }
            proof {
                lemma_model_items(items@);
                lemma_model_items_ext(out@, model_items(items@));
            }
            Yaml::List(out)
        },
        Yaml::Mapping(entries) => {
            let mut out: Vec<(String, Yaml)> = Vec::new();
            let mut i: usize = 0;
            while i < entries.len()
                invariant
                    *y == Yaml::Mapping(*entries),
                    i <= entries@.len(),
                    out@.len() == i,
                    forall|j: int| 0 <= j < i ==> (#[trigger] out@[j]).0@ == entries@[j].0@ && out@[j].1.model()
                        == entries@[j].1.model(),
                decreases entries@.len() - i,
            {
                proof {
                    assert(decreases_to!(*y => (*y)->Mapping_0));
                    assert(decreases_to!(*entries => entries@));
                    assert(decreases_to!(entries@ => entries@[i as int]));
                    assert(decreases_to!(entries@[i as int] => entries@[i as int].1));
                }
                let v = clone_yaml(&entries[i].1);
                out.push((entries[i].0.clone(), v));
                i = i + 1;
            }
            proof {
                lemma_model_entries(entries@);
                lemma_model_entries_ext(out@, model_entries(entries@));
            }
            Yaml::Mapping(out)
        },
    }
}

/// The position of the entry keyed `k` (see [`key_index`]).
pub fn find_key(es: &Vec<(String, Yaml)>, k: &str) -> (r: Option<usize>)
    ensures
        match r {
            Some(i) => key_index(model_entries(es@), k@) == Some(i as int),
            None => key_index(model_entries(es@), k@) is None,
        },
{
    proof {
        lemma_model_entries(es@);
        lemma_key_index(model_entries(es@), k@);
    }
    let mut i: usize = 0;
    while i < es.len()
        invariant
            i <= es@.len(),
            model_entries(es@).len() == es@.len(),
            forall|j: int| 0 <= j < es@.len() ==> #[trigger] model_entries(es@)[j] == (es@[j].0@, es@[j].1.model()),
            forall|j: int| 0 <= j < i ==> #[trigger] es@[j].0@ != k@,
        decreases es@.len() - i,
    {
        if str_eq(es[i].0.as_str(), k) {
            proof {
                let m = model_entries(es@);
                lemma_key_index(m, k@);
                assert(m[i as int].0 == k@);
                match key_index(m, k@) {
                    Some(t) => {
                        if t < i {
                            assert(m[t].0 == es@[t].0@);
                        } else if t > i {
                            assert(m[i as int].0 != k@);
                        }
                    },
                    None => {
                        assert(m[i as int].0 != k@);
                    },
                }
            }
            return Some(i);
        }
        i = i + 1;
    }
    proof {
        let m = model_entries(es@);
        lemma_key_index(m, k@);
        match key_index(m, k@) {
            Some(t) => {
                assert(m[t].0 == es@[t].0@);
            },
            None => {},
        }
    }
    None
}

/// The field `k` of a mapping value.
pub fn get_field<'a>(v: &'a Yaml, k: &str) -> (r: Option<&'a Yaml>)
    ensures
        match r {
            Some(f) => field(v.model(), k@) == Some(f.model()),
            None => field(v.model(), k@) is None,
        },
{
    match v {
        Yaml::Mapping(es) => {
            proof {
                lemma_model_entries(es@);
            }
            match find_key(es, k) {
                Some(i) => {
                    proof {
                        lemma_key_index(model_entries(es@), k@);
                    }
                    Some(&es[i].1)
                },
                None => None,
            }
        },
        _ => None,
    }
}

/// The string in field `k` of a mapping value.
pub fn get_str_field(v: &Yaml, k: &str) -> (r: Option<String>)
    ensures
        match r {
            Some(s) => str_field(v.model(), k@) == Some(s@),
            None => str_field(v.model(), k@) is None,
        },
{
    match get_field(v, k) {
        Some(Yaml::Str(s)) => Some(s.clone()),
        _ => None,
    }
}

/// The position of the first item whose field `key` holds `id`.
pub fn find_item(items: &Vec<Yaml>, key: &str, id: &str) -> (r: Option<usize>)
    ensures
        match r {
            Some(i) => first_item(model_items(items@), key@, id@) == Some(i as int),
            None => first_item(model_items(items@), key@, id@) is None,
        },
{
    proof {
        lemma_model_items(items@);
        lemma_first_item(model_items(items@), key@, id@);
    }
    let mut i: usize = 0;
    while i < items.len()
        invariant
            i <= items@.len(),
            model_items(items@).len() == items@.len(),
            forall|j: int| 0 <= j < items@.len() ==> #[trigger] model_items(items@)[j] == items@[j].model(),
            forall|j: int| 0 <= j < i ==> str_field(#[trigger] items@[j].model(), key@) != Some(id@),
        decreases items@.len() - i,
    {
        let found = match get_str_field(&items[i], key) {
            Some(s) => str_eq(s.as_str(), id),
            None => false,
        };
        if found {
            proof {
                let m = model_items(items@);
                lemma_first_item(m, key@, id@);
                assert(str_field(m[i as int], key@) == Some(id@));
                match first_item(m, key@, id@) {
                    Some(t) => {
                        if t < i {
                            assert(m[t] == items@[t].model());
                        } else if t > i {
                            assert(str_field(m[i as int], key@) != Some(id@));
                        }
                    },
                    None => {
                        assert(str_field(m[i as int], key@) != Some(id@));
                    },
                }
            }
            return Some(i);
        }
        i = i + 1;
    }
    proof {
        let m = model_items(items@);
        lemma_first_item(m, key@, id@);
        match first_item(m, key@, id@) {
            Some(t) => {
                assert(m[t] == items@[t].model());
            },
            None => {},
        }
    }
    None
}

/// Whether a merged-in value is passed over: null, an empty list or an
/// empty mapping.
pub open spec fn skipped_in_merge(v: YamlV) -> bool {
    match v {
        YamlV::Null => true,
        YamlV::List(s) => s.len() == 0,
        YamlV::Mapping(m) => m.len() == 0,
        _ => false,
    }
}

/// `source` merged into `target`: when both are mappings, each field of
/// `source` that is not passed over (see [`skipped_in_merge`]) is merged
/// into the field of the same key when both are mappings, replaces it
/// otherwise, or is appended when `target` has no such key. Any other
/// `target` is kept as it is.
pub open spec fn merged(target: YamlV, source: YamlV) -> YamlV
    decreases source,
{
    match source {
        YamlV::Mapping(se) => match target {
            YamlV::Mapping(te) => YamlV::Mapping(merged_entries(te, se)),
            _ => target,
        },
        _ => target,
    }
}

/// The fields of `se`, in order, merged into the fields `te`.
pub open spec fn merged_entries(te: Seq<(Seq<char>, YamlV)>, se: Seq<(Seq<char>, YamlV)>) -> Seq<
    (Seq<char>, YamlV),
>
    decreases se,
{
    if se.len() == 0 {
        te
    } else {
        merged_entry(merged_entries(te, se.drop_last()), se.last())
    }
}

/// One field merged into the fields `te`.
pub open spec fn merged_entry(te: Seq<(Seq<char>, YamlV)>, e: (Seq<char>, YamlV)) -> Seq<(Seq<char>, YamlV)>
    decreases e,
{
    if skipped_in_merge(e.1) {
        te
    } else {
        match key_index(te, e.0) {
            Some(j) => te.update(
                j,
                (te[j].0, if te[j].1 is Mapping && e.1 is Mapping {
                    merged(te[j].1, e.1)
                } else {
                    e.1
                }),
            ),
            None => te.push(e),
        }
    }
}

/// Whether a value is passed over when merging (see [`skipped_in_merge`]).
pub fn is_skipped_in_merge(v: &Yaml) -> (r: bool)
    ensures
        r == skipped_in_merge(v.model()),
{
    match v {
        Yaml::Null => true,
        Yaml::List(s) => {
            proof {
                lemma_model_items(s@);
            }
            s.len() == 0
        },
        Yaml::Mapping(m) => {
            proof {
                lemma_model_entries(m@);
            }
            m.len() == 0
        },
        _ => false,
    }
}

/// `source` merged into `target` (see [`merged`]).
pub fn merge_into(target: Yaml, source: &Yaml) -> (r: Yaml)
    ensures
        r.model() == merged(target.model(), source.model()),
    decreases source,
{
    match source {
        Yaml::Mapping(se) => match target {
            Yaml::Mapping(te) => {
                let ghost te0 = model_entries(te@);
                let ghost sm = model_entries(se@);
                proof {
                    lemma_model_entries(se@);
                    assert(sm.subrange(0, 0) =~= Seq::<(Seq<char>, YamlV)>::empty());
                }
                let mut acc = te;
                let mut i: usize = 0;
                while i < se.len()
                    invariant
                        *source == Yaml::Mapping(*se),
                        i <= se@.len(),
                        sm == model_entries(se@),
                        sm.len() == se@.len(),
                        forall|j: int| 0 <= j < se@.len() ==> #[trigger] sm[j] == (se@[j].0@, se@[j].1.model()),
                        model_entries(acc@) == merged_entries(te0, sm.subrange(0, i as int)),
                    decreases se@.len() - i,
                {
                    proof {
                        assert(sm.subrange(0, i + 1).drop_last() =~= sm.subrange(0, i as int));
                        assert(sm.subrange(0, i + 1).last() == sm[i as int]);
                        lemma_model_entries(acc@);
                    }
                    let ghost before = model_entries(acc@);
                    let v = &se[i].1;
                    if !is_skipped_in_merge(v) {
                        match find_key(&acc, se[i].0.as_str()) {
                            Some(j) => {
                                proof {
                                    lemma_key_index(before, se@[i as int].0@);
                                }
                                let (tk, tv) = acc.remove(j);
                                let both = match (&tv, v) {
                                    (Yaml::Mapping(_), Yaml::Mapping(_)) => true,
                                    _ => false,
                                };
                                let ghost tvm = tv.model();
                                let nv = if both {
                                    proof {
                                        assert(decreases_to!(*source => (*source)->Mapping_0));
                                        assert(decreases_to!(*se => se@));
                                        assert(decreases_to!(se@ => se@[i as int]));
                                        assert(decreases_to!(se@[i as int] => se@[i as int].1));
                                    }
                                    merge_into(tv, v)
                                } else {
                                    clone_yaml(v)
                                };
                                acc.insert(j, (tk, nv));
                                proof {
                                    let after = before.update(
                                        j as int,
                                        (before[j as int].0, if before[j as int].1 is Mapping
                                            && sm[i as int].1 is Mapping {
                                            merged(before[j as int].1, sm[i as int].1)
                                        } else {
                                            sm[i as int].1
                                        }),
                                    );
                                    assert(before[j as int] == (tk@, tvm));
                                    lemma_model_entries_ext(acc@, after);
                                    assert(both == (tvm is Mapping && sm[i as int].1 is Mapping));
                                    assert(after == merged_entry(before, sm[i as int]));
                                }
                            },
                            None => {
                                let k = se[i].0.clone();
                                let nv = clone_yaml(v);
                                acc.push((k, nv));
                                proof {
                                    lemma_model_entries_ext(acc@, before.push(sm[i as int]));
                                    lemma_key_index(before, se@[i as int].0@);
                                    assert(model_entries(acc@) == merged_entry(before, sm[i as int]));
                                }
                            },
                        }
                    }
                    proof {
                        assert(model_entries(acc@) == merged_entry(before, sm[i as int]));
                        assert(merged_entries(te0, sm.subrange(0, i + 1)) == merged_entry(
                            merged_entries(te0, sm.subrange(0, i as int)),
                            sm[i as int],
                        ));
                    }
                    i = i + 1;
                }
                proof {
                    assert(sm.subrange(0, se@.len() as int) =~= sm);
                }
                Yaml::Mapping(acc)
            },
            other => other,
        },
        _ => target,
    }
}

/// Merges `source` into `target` in place (see [`merged`]).
pub fn deep_merge_values(target: &mut Yaml, source: &Yaml)
    ensures
        final(target).model() == merged(old(target).model(), source.model()),
{
    let mut t = Yaml::Null;
    std::mem::swap(&mut t, target);
    *target = merge_into(t, source);
}

/// Whether a value is an empty list or an empty mapping.
pub open spec fn is_empty_collection(v: YamlV) -> bool {
    match v {
        YamlV::List(s) => s.len() == 0,
        YamlV::Mapping(m) => m.len() == 0,
        _ => false,
    }
}

/// Whether a configuration-manager section says `enabled: false`.
pub open spec fn disabled_manager(v: YamlV) -> bool {
    field(v, "enabled"@) == Some(YamlV::Bool(false))
}

/// `s` with position `i` removed by moving the last element into it, as
/// a YAML mapping removes a key.
pub open spec fn swap_removed<A>(s: Seq<A>, i: int) -> Seq<A> {
    s.update(i, s.last()).drop_last()
}

/// The fields of a mapping that are not null, each with its original
/// value and its value without nulls.
pub open spec fn kept_fields(es: Seq<(Seq<char>, YamlV)>) -> Seq<(Seq<char>, (YamlV, YamlV))>
    decreases es,
{
    if es.len() == 0 {
        Seq::empty()
    } else {
        let rest = kept_fields(es.drop_last());
        let e = es.last();
        if e.1 is Null {
            rest
        } else {
            rest.push((e.0, (e.1, without_nulls(e.1))))
        }
    }
}

/// The items of a list, each without nulls.
pub open spec fn cleaned_items(items: Seq<YamlV>) -> Seq<YamlV>
    decreases items,
{
    if items.len() == 0 {
        Seq::empty()
    } else {
        cleaned_items(items.drop_last()).push(without_nulls(items.last()))
    }
}

/// The fields without a `configuration_manager` that is disabled.
pub open spec fn without_disabled_manager(ts: Seq<(Seq<char>, (YamlV, YamlV))>) -> Seq<
    (Seq<char>, (YamlV, YamlV)),
> {
    match key_index(ts, "configuration_manager"@) {
        Some(i) => if disabled_manager(ts[i].1.0) {
            swap_removed(ts, i)
        } else {
            ts
        },
        None => ts,
    }
}

/// The keys, in order, of the fields whose cleaned value is empty.
pub open spec fn empty_keys(ts: Seq<(Seq<char>, (YamlV, YamlV))>) -> Seq<Seq<char>>
    decreases ts.len(),
{
    if ts.len() == 0 {
        Seq::empty()
    } else {
        let r = empty_keys(ts.drop_last());
        if is_empty_collection(ts.last().1.1) {
            r.push(ts.last().0)
        } else {
            r
        }
    }
}

/// The fields with their cleaned values.
pub open spec fn cleaned_pairs(ts: Seq<(Seq<char>, (YamlV, YamlV))>) -> Seq<(Seq<char>, YamlV)> {
    Seq::new(ts.len(), |i: int| (ts[i].0, ts[i].1.1))
}

/// The fields with each of `keys` removed in turn, as a mapping removes
/// keys.
pub open spec fn remove_keys(es: Seq<(Seq<char>, YamlV)>, keys: Seq<Seq<char>>) -> Seq<(Seq<char>, YamlV)>
    decreases keys.len(),
{
    if keys.len() == 0 {
        es
    } else {
        let next = match key_index(es, keys[0]) {
            Some(i) => swap_removed(es, i),
            None => es,
        };
        remove_keys(next, keys.drop_first())
    }
}

/// A value without nulls: in a mapping, null fields and a disabled
/// configuration manager are dropped, the other values are cleaned in
/// turn, and fields left empty are dropped; list items are cleaned.
pub open spec fn without_nulls(v: YamlV) -> YamlV
    decreases v,
{
    match v {
        YamlV::Mapping(es) => {
            let ts = without_disabled_manager(kept_fields(es));
            YamlV::Mapping(remove_keys(cleaned_pairs(ts), empty_keys(ts)))
        },
        YamlV::List(items) => YamlV::List(cleaned_items(items)),
        _ => v,
    }
}

/// Whether a value is an empty list or mapping.
pub fn is_empty_yaml_collection(v: &Yaml) -> (r: bool)
    ensures
        r == is_empty_collection(v.model()),
{
    match v {
        Yaml::List(s) => {
            proof {
                lemma_model_items(s@);
            }
            s.len() == 0
        },
        Yaml::Mapping(m) => {
            proof {
                lemma_model_entries(m@);
            }
            m.len() == 0
        },
        _ => false,
    }
}

/// Whether a configuration-manager section says `enabled: false`.
pub fn is_disabled_manager(v: &Yaml) -> (r: bool)
    ensures
        r == disabled_manager(v.model()),
{
    match get_field(v, "enabled") {
        Some(Yaml::Bool(b)) => !*b,
        _ => false,
    }
}

/// The position of the first field keyed `k` among kept fields.
fn find_kept(ts: &Vec<(String, bool, Yaml)>, k: &str) -> (r: Option<usize>)
    ensures
        match r {
            Some(i) => i < ts@.len() && ts@[i as int].0@ == k@ && forall|j: int| 0 <= j < i ==> (#[trigger] ts@[j]).0@ != k@,
            None => forall|j: int| 0 <= j < ts@.len() ==> (#[trigger] ts@[j]).0@ != k@,
        },
{
    let mut i: usize = 0;
    while i < ts.len()
        invariant
            i <= ts@.len(),
            forall|j: int| 0 <= j < i ==> (#[trigger] ts@[j]).0@ != k@,
        decreases ts@.len() - i,
    {
        if str_eq(ts[i].0.as_str(), k) {
            return Some(i);
        }
        i = i + 1;
    }
    None
}

proof fn lemma_key_index_of_firsts<A>(es: Seq<(Seq<char>, A)>, k: Seq<char>, i: int)
    requires
        0 <= i < es.len(),
        es[i].0 == k,
        forall|j: int| 0 <= j < i ==> (#[trigger] es[j]).0 != k,
    ensures
        key_index(es, k) == Some(i),
{
    lemma_key_index(es, k);
    match key_index(es, k) {
        Some(t) => {
            if t < i {
                assert(es[t].0 != k);
            } else if t > i {
            }
        },
        None => {},
    }
}

proof fn lemma_key_index_none<A>(es: Seq<(Seq<char>, A)>, k: Seq<char>)
    requires
        forall|j: int| 0 <= j < es.len() ==> (#[trigger] es[j]).0 != k,
    ensures
        key_index(es, k) is None,
{
    lemma_key_index(es, k);
    match key_index(es, k) {
        Some(t) => {
            assert(es[t].0 != k);
        },
        None => {},
    }
}

/// A value with nulls, disabled configuration managers and emptied fields
/// dropped (see [`without_nulls`]).
pub fn clean_value(v: &Yaml) -> (r: Yaml)
    ensures
        r.model() == without_nulls(v.model()),
    decreases v,
{
    match v {
        Yaml::List(items) => {
            let ghost im = model_items(items@);
            proof {
                lemma_model_items(items@);
                assert(im.subrange(0, 0) =~= Seq::<YamlV>::empty());
            }
            let mut out: Vec<Yaml> = Vec::new();
            let mut i: usize = 0;
            while i < items.len()
                invariant
                    *v == Yaml::List(*items),
                    i <= items@.len(),
                    im == model_items(items@),
                    im.len() == items@.len(),
                    forall|j: int| 0 <= j < items@.len() ==> #[trigger] im[j] == items@[j].model(),
                    model_items(out@) == cleaned_items(im.subrange(0, i as int)),
                decreases items@.len() - i,
            {
                proof {
                    assert(decreases_to!(*v => (*v)->List_0));
                    assert(decreases_to!(*items => items@));
                    assert(decreases_to!(items@ => items@[i as int]));
                    assert(im.subrange(0, i + 1).drop_last() =~= im.subrange(0, i as int));
                    lemma_model_items(out@);
                }
                let ghost before = model_items(out@);
                let c = clean_value(&items[i]);
                out.push(c);
                proof {
                    lemma_model_items_ext(out@, before.push(without_nulls(im[i as int])));
                }
                i = i + 1;
            }
            proof {
                assert(im.subrange(0, items@.len() as int) =~= im);
            }
            Yaml::List(out)
        },
        Yaml::Mapping(es) => {
            let ghost em = model_entries(es@);
            proof {
                lemma_model_entries(es@);
                assert(em.subrange(0, 0) =~= Seq::<(Seq<char>, YamlV)>::empty());
            }
            // The fields kept, each with whether it is a disabled manager
            // section and its cleaned value.
            let mut ts: Vec<(String, bool, Yaml)> = Vec::new();
            let mut i: usize = 0;
            while i < es.len()
                invariant
                    *v == Yaml::Mapping(*es),
                    i <= es@.len(),
                    em == model_entries(es@),
                    em.len() == es@.len(),
                    forall|j: int| 0 <= j < es@.len() ==> #[trigger] em[j] == (es@[j].0@, es@[j].1.model()),
                    ts@.len() == kept_fields(em.subrange(0, i as int)).len(),
                    forall|j: int| 0 <= j < ts@.len() ==> {
                        let t = #[trigger] ts@[j];
                        let g = kept_fields(em.subrange(0, i as int))[j];
                        t.0@ == g.0 && t.1 == disabled_manager(g.1.0) && t.2.model() == g.1.1
                    },
                decreases es@.len() - i,
            {
                proof {
                    assert(em.subrange(0, i + 1).drop_last() =~= em.subrange(0, i as int));
                    assert(em.subrange(0, i + 1).last() == em[i as int]);
                }
                let ghost prev = kept_fields(em.subrange(0, i as int));
                let is_null = match &es[i].1 {
                    Yaml::Null => true,
                    _ => false,
                };
                if !is_null {
                    proof {
                        assert(decreases_to!(*v => (*v)->Mapping_0));
                        assert(decreases_to!(*es => es@));
                        assert(decreases_to!(es@ => es@[i as int]));
                        assert(decreases_to!(es@[i as int] => es@[i as int].1));
                    }
                    let disabled = is_disabled_manager(&es[i].1);
                    let c = clean_value(&es[i].1);
                    ts.push((es[i].0.clone(), disabled, c));
                    proof {
                        let now = kept_fields(em.subrange(0, i + 1));
                        assert(now == prev.push((em[i as int].0, (em[i as int].1, without_nulls(em[i as int].1)))));
                        assert forall|j: int| 0 <= j < ts@.len() implies {
                            let t = #[trigger] ts@[j];
                            let g = now[j];
                            t.0@ == g.0 && t.1 == disabled_manager(g.1.0) && t.2.model() == g.1.1
                        } by {
                            if j < ts@.len() - 1 {
                                assert(now[j] == prev[j]);
                            }
                        }
                    }
                } else {
                    proof {
                        assert(kept_fields(em.subrange(0, i + 1)) == prev);
                    }
                }
                i = i + 1;
            }
            proof {
                assert(em.subrange(0, es@.len() as int) =~= em);
            }
            let ghost kept = kept_fields(em);
            // Drop a disabled configuration manager.
            let cm = find_kept(&ts, "configuration_manager");
            let ghost ts_before = ts@;
            match cm {
                Some(ci) => {
                    proof {
                        assert forall|j: int| 0 <= j < ci implies (#[trigger] kept[j]).0 != "configuration_manager"@ by {
                            assert(ts@[j].0@ == kept[j].0);
                        }
                        lemma_key_index_of_firsts(kept, "configuration_manager"@, ci as int);
                    }
                    if ts[ci].1 {
                        ts.swap_remove(ci);
                    }
                },
                None => {
                    proof {
                        assert forall|j: int| 0 <= j < kept.len() implies (#[trigger] kept[j]).0 != "configuration_manager"@ by {
                            assert(ts@[j].0@ == kept[j].0);
                        }
                        lemma_key_index_none(kept, "configuration_manager"@);
                    }
                },
            }
            let ghost tsm = without_disabled_manager(kept);
            proof {
                assert(ts@.len() == tsm.len());
                assert forall|j: int| 0 <= j < ts@.len() implies {
                    let t = #[trigger] ts@[j];
                    let g = tsm[j];
                    t.0@ == g.0 && t.1 == disabled_manager(g.1.0) && t.2.model() == g.1.1
                } by {
                    match cm {
                        Some(ci) => {
                            if ts_before[ci as int].1 {
                                if j == ci {
                                    assert(ts@[j] == ts_before[ts_before.len() - 1]);
                                    assert(tsm[j] == kept[kept.len() - 1]);
                                } else {
                                    assert(ts@[j] == ts_before[j]);
                                    assert(tsm[j] == kept[j]);
                                }
                            }
                        },
                        None => {},
                    }
                }
            }
            // The keys whose cleaned values are empty, in order.
            let mut keys: Vec<String> = Vec::new();
            let mut pairs: Vec<(String, Yaml)> = Vec::new();
            let mut k: usize = 0;
            while k < ts.len()
                invariant
                    k <= ts@.len(),
                    ts@.len() == tsm.len(),
                    forall|j: int| 0 <= j < ts@.len() ==> {
                        let t = #[trigger] ts@[j];
                        let g = tsm[j];
                        t.0@ == g.0 && t.1 == disabled_manager(g.1.0) && t.2.model() == g.1.1
                    },
                    keys@.len() == empty_keys(tsm.subrange(0, k as int)).len(),
                    forall|j: int| 0 <= j < keys@.len() ==> (#[trigger] keys@[j])@ == empty_keys(tsm.subrange(0, k as int))[j],
                    model_entries(pairs@) == cleaned_pairs(tsm.subrange(0, k as int)),
                decreases ts@.len() - k,
            {
                proof {
                    assert(tsm.subrange(0, k + 1).drop_last() =~= tsm.subrange(0, k as int));
                    assert(tsm.subrange(0, k + 1).last() == tsm[k as int]);
                    lemma_model_entries(pairs@);
                }
                let ghost kb = empty_keys(tsm.subrange(0, k as int));
                let ghost pb = model_entries(pairs@);
                if is_empty_yaml_collection(&ts[k].2) {
                    keys.push(ts[k].0.clone());
                    proof {
                        assert(empty_keys(tsm.subrange(0, k + 1)) == kb.push(tsm[k as int].0));
                    }
                } else {
                    proof {
                        assert(empty_keys(tsm.subrange(0, k + 1)) == kb);
                    }
                }
                let c = clone_yaml(&ts[k].2);
                let ghost pold = pairs@;
                pairs.push((ts[k].0.clone(), c));
                proof {
                    let cp = cleaned_pairs(tsm.subrange(0, k + 1));
                    let cq = cleaned_pairs(tsm.subrange(0, k as int));
                    assert forall|j: int| 0 <= j < pairs@.len() implies (#[trigger] pairs@[j]).0@ == cp[j].0
                        && pairs@[j].1.model() == cp[j].1 by {
                        if j < k {
                            assert(pairs@[j] == pold[j]);
                            assert(pb[j] == (pold[j].0@, pold[j].1.model()));
                            assert(cq[j] == cp[j]);
                        }
                    }
                    lemma_model_entries_ext(pairs@, cp);
                }
                k = k + 1;
            }
            proof {
                assert(tsm.subrange(0, ts@.len() as int) =~= tsm);
            }
            let ghost ks = empty_keys(tsm);
            proof {
                assert(ks.subrange(0, ks.len() as int) =~= ks);
                assert(model_entries(pairs@) == cleaned_pairs(tsm));
            }
            // Remove those keys in turn.
            let mut n: usize = 0;
            while n < keys.len()
                invariant
                    n <= keys@.len(),
                    keys@.len() == ks.len(),
                    forall|j: int| 0 <= j < keys@.len() ==> (#[trigger] keys@[j])@ == ks[j],
                    remove_keys(model_entries(pairs@), ks.subrange(n as int, ks.len() as int)) == remove_keys(
                        cleaned_pairs(tsm),
                        ks,
                    ),
                decreases keys@.len() - n,
            {
                proof {
                    lemma_model_entries(pairs@);
                    let rest = ks.subrange(n as int, ks.len() as int);
                    assert(rest.drop_first() =~= ks.subrange(n + 1, ks.len() as int));
                    assert(rest[0] == ks[n as int]);
                }
                let ghost pm = model_entries(pairs@);
                match find_key(&pairs, keys[n].as_str()) {
                    Some(p) => {
                        proof {
                            lemma_key_index(pm, ks[n as int]);
                        }
                        pairs.swap_remove(p);
                        proof {
                            lemma_model_entries_ext(pairs@, swap_removed(pm, p as int));
                        }
                    },
                    None => {},
                }
                n = n + 1;
            }
            proof {
                assert(ks.subrange(ks.len() as int, ks.len() as int) =~= Seq::<Seq<char>>::empty());
            }
            Yaml::Mapping(pairs)
        },
        Yaml::Null => Yaml::Null,
        Yaml::Bool(b) => Yaml::Bool(*b),
        Yaml::Number(t) => Yaml::Number(t.clone()),
        Yaml::Str(t) => Yaml::Str(t.clone()),
    }
}

/// Drops nulls, disabled configuration managers and emptied fields from a
/// value in place (see [`without_nulls`]).
pub fn remove_nulls(value: &mut Yaml)
    ensures
        final(value).model() == without_nulls(old(value).model()),
{
    let cleaned = clean_value(value);
    *value = cleaned;
}

/// `s` without its trailing colons.
pub open spec fn trim_colons(s: Seq<char>) -> Seq<char>
    decreases s.len(),
{
    if s.len() > 0 && s.last() == ':' {
        trim_colons(s.drop_last())
    } else {
        s
    }
}

/// A key without its trailing colons (`tools:` names the section `tools`).
pub fn trim_colons_of(key: &str) -> (r: String)
    ensures
        r@ == trim_colons(key@),
{
    let mut n = key.unicode_len();
    proof {
        assert(key@.subrange(0, n as int) =~= key@);
    }
    while n > 0 && key.get_char(n - 1) == ':'
        invariant
            n <= key@.len(),
            trim_colons(key@.subrange(0, n as int)) == trim_colons(key@),
        decreases n,
    {
        proof {
            let t = key@.subrange(0, n as int);
            assert(t.last() == ':');
            assert(t.drop_last() =~= key@.subrange(0, n - 1));
        }
        n = n - 1;
    }
    proof {
        assert(key@.subrange(0, key@.len() as int) =~= key@);
    }
    let r = key.substring_char(0, n);
    r.to_owned()
}

/// The document started for a configuration file that does not exist yet:
/// the section with an empty list.
pub fn new_section_document(section_key: &str) -> (r: String)
    ensures
        r@ == trim_colons(section_key@) + ":\n  []\n"@,
{
    let name = trim_colons_of(section_key);
    concat2(name.as_str(), ":\n  []\n")
}

/// The settings document started when `settings.yaml` does not exist yet.
pub fn new_settings_document() -> (r: &'static str)
    ensures
        r@ == "settings:\n  macos:\n    []\n"@,
{
    "settings:\n  macos:\n    []\n"
}

/// The list held in field `name` of the document, if it is one.
pub open spec fn section_items(doc: YamlV, name: Seq<char>) -> Option<Seq<YamlV>> {
    match field(doc, name) {
        Some(YamlV::List(items)) => Some(items),
        _ => None,
    }
}

/// The document with the value of field `k` replaced by `nv`.
pub open spec fn set_field(v: YamlV, k: Seq<char>, nv: YamlV) -> YamlV {
    match v {
        YamlV::Mapping(es) => match key_index(es, k) {
            Some(j) => YamlV::Mapping(es.update(j, (es[j].0, nv))),
            None => v,
        },
        _ => v,
    }
}

/// A list with `new_item` added or merged in: the first item whose field
/// `key` holds `id` is merged with it and cleaned (the flag is then true);
/// when there is none, the cleaned new item is appended (flag false).
pub open spec fn upserted(items: Seq<YamlV>, key: Seq<char>, id: Seq<char>, new_item: YamlV) -> (Seq<YamlV>, bool) {
    match first_item(items, key, id) {
        Some(i) => (items.update(i, without_nulls(merged(items[i], new_item))), true),
        None => (items.push(without_nulls(new_item)), false),
    }
}

/// A list without the first item whose field `key` holds `id` (the flag
/// says whether there was one).
pub open spec fn removed_item(items: Seq<YamlV>, key: Seq<char>, id: Seq<char>) -> (Seq<YamlV>, bool) {
    match first_item(items, key, id) {
        Some(i) => (items.remove(i), true),
        None => (items, false),
    }
}

/// The message when the section to edit is missing or is not a list.
pub open spec fn missing_section_message(name: Seq<char>) -> Seq<char> {
    "Section '"@ + name + "' not found or not a list"@
}

/// Takes the list in field `name` out of a document: the document without
/// it, the list and where it was; or the document back unchanged.
fn take_section(doc: Yaml, name: &str) -> (r: Result<(Vec<(String, Yaml)>, usize, String, Vec<Yaml>), Yaml>)
    ensures
        match r {
            Ok((es, j, k, items)) => {
                &&& doc.model() is Mapping
                &&& key_index(doc.model()->Mapping_0, name@) == Some(j as int)
                &&& section_items(doc.model(), name@) == Some(model_items(items@))
                &&& k@ == name@
                &&& j <= es@.len()
                &&& forall|nv: YamlV| #![trigger set_field(doc.model(), name@, nv)]
                    set_field(doc.model(), name@, nv) == YamlV::Mapping(
                        model_entries(es@).insert(j as int, (k@, nv)),
                    )
            },
            Err(d) => d.model() == doc.model() && section_items(doc.model(), name@) is None,
        },
{
    match doc {
        Yaml::Mapping(mut es) => {
            let ghost em = model_entries(es@);
            proof {
                lemma_model_entries(es@);
            }
            match find_key(&es, name) {
                Some(j) => {
                    proof {
                        lemma_key_index(em, name@);
                    }
                    let is_list = match &es[j].1 {
                        Yaml::List(_) => true,
                        _ => false,
                    };
                    if !is_list {
                        return Err(Yaml::Mapping(es));
                    }
                    let ghost before = es@;
                    let (k, v) = es.remove(j);
                    match v {
                        Yaml::List(items) => {
                            proof {
                                lemma_model_entries(es@);
                                assert(k@ == name@);
                                assert forall|nv: YamlV| #![trigger set_field(YamlV::Mapping(em), name@, nv)]
                                    set_field(YamlV::Mapping(em), name@, nv) == YamlV::Mapping(
                                        model_entries(es@).insert(j as int, (k@, nv)),
                                    ) by {
                                    assert(em.update(j as int, (em[j as int].0, nv)) =~= model_entries(es@).insert(
                                        j as int,
                                        (k@, nv),
                                    ));
                                }
                            }
                            Ok((es, j, k, items))
                        },
                        _ => {
                            proof {
                                assert(false);
                            }
                            Err(Yaml::Null)
                        },
                    }
                },
                None => Err(Yaml::Mapping(es)),
            }
        },
        other => Err(other),
    }
}

/// Puts an edited list back where [`take_section`] took it from.
fn put_section(es: Vec<(String, Yaml)>, j: usize, k: String, items: Vec<Yaml>) -> (r: Yaml)
    requires
        j <= es@.len(),
    ensures
        r.model() == YamlV::Mapping(model_entries(es@).insert(j as int, (k@, YamlV::List(model_items(items@))))),
{
    let ghost em = model_entries(es@);
    proof {
        lemma_model_entries(es@);
    }
    let mut es = es;
    es.insert(j, (k, Yaml::List(items)));
    proof {
        lemma_model_entries_ext(es@, em.insert(j as int, (k@, YamlV::List(model_items(items@)))));
    }
    Yaml::Mapping(es)
}

/// Adds `new_item` to the list in section `section_key` of the document,
/// or merges it into the item whose field `item_key` holds
/// `item_identifier` (see [`upserted`]); `Ok(true)` says an item was
/// updated, `Ok(false)` that one was added. Trailing colons of the keys are
/// ignored. When the section is missing or not a list the document is left
/// as it was and the error names the section.
pub fn update_or_add_list_item(
    doc: &mut Yaml,
    section_key: &str,
    item_key: &str,
    item_identifier: &str,
    new_item: &Yaml,
) -> (r: Result<bool, String>)
    ensures
        match section_items(old(doc).model(), trim_colons(section_key@)) {
            None => final(doc).model() == old(doc).model() && (r matches Err(e) && e@
                == missing_section_message(trim_colons(section_key@))),
            Some(items) => {
                let u = upserted(items, trim_colons(item_key@), item_identifier@, new_item.model());
                &&& r == Ok::<bool, String>(u.1)
                &&& final(doc).model() == set_field(old(doc).model(), trim_colons(section_key@), YamlV::List(u.0))
            },
        },
{
    let section_name = trim_colons_of(section_key);
    let key = trim_colons_of(item_key);
    let mut d = Yaml::Null;
    std::mem::swap(&mut d, doc);
    match take_section(d, section_name.as_str()) {
        Err(back) => {
            *doc = back;
            Err(concat3("Section '", section_name.as_str(), "' not found or not a list"))
        },
        Ok((es, j, k, items)) => {
            let ghost im = model_items(items@);
            proof {
                lemma_model_items(items@);
            }
            let mut items = items;
            let was_update = match find_item(&items, key.as_str(), item_identifier) {
                Some(idx) => {
                    proof {
                        lemma_first_item(im, key@, item_identifier@);
                    }
                    let existing = items.remove(idx);
                    let mut merged_value = clone_yaml(&existing);
                    deep_merge_values(&mut merged_value, new_item);
                    remove_nulls(&mut merged_value);
                    items.insert(idx, merged_value);
                    proof {
                        lemma_first_item(im, key@, item_identifier@);
                        lemma_model_items_ext(items@, im.update(idx as int, without_nulls(merged(im[idx as int], new_item.model()))));
                    }
                    true
                },
                None => {
                    let mut v = clone_yaml(new_item);
                    remove_nulls(&mut v);
                    items.push(v);
                    proof {
                        lemma_model_items_ext(items@, im.push(without_nulls(new_item.model())));
                    }
                    false
                },
            };
            *doc = put_section(es, j, k, items);
            Ok(was_update)
        },
    }
}

/// Removes from the list in section `section_key` the first item whose
/// field `item_key` holds `item_identifier` (see [`removed_item`]);
/// `Ok(true)` says one was removed. A missing section is reported as for
/// [`update_or_add_list_item`], with the document unchanged.
pub fn remove_list_item(
    doc: &mut Yaml,
    section_key: &str,
    item_key: &str,
    item_identifier: &str,
) -> (r: Result<bool, String>)
    ensures
        match section_items(old(doc).model(), trim_colons(section_key@)) {
            None => final(doc).model() == old(doc).model() && (r matches Err(e) && e@
                == missing_section_message(trim_colons(section_key@))),
            Some(items) => {
                let u = removed_item(items, trim_colons(item_key@), item_identifier@);
                &&& r == Ok::<bool, String>(u.1)
                &&& final(doc).model() == (if u.1 {
                    set_field(old(doc).model(), trim_colons(section_key@), YamlV::List(u.0))
                } else {
                    old(doc).model()
                })
            },
        },
{
    let section_name = trim_colons_of(section_key);
    let key = trim_colons_of(item_key);
    let mut d = Yaml::Null;
    std::mem::swap(&mut d, doc);
    let ghost dm = d.model();
    match take_section(d, section_name.as_str()) {
        Err(back) => {
            *doc = back;
            Err(concat3("Section '", section_name.as_str(), "' not found or not a list"))
        },
        Ok((es, j, k, items)) => {
            let ghost im = model_items(items@);
            proof {
                lemma_model_items(items@);
            }
            let mut items = items;
            let removed = match find_item(&items, key.as_str(), item_identifier) {
                Some(idx) => {
                    proof {
                        lemma_first_item(im, key@, item_identifier@);
                    }
                    items.remove(idx);
                    proof {
                        lemma_first_item(im, key@, item_identifier@);
                        lemma_model_items_ext(items@, im.remove(idx as int));
                    }
                    true
                },
                None => false,
            };
            *doc = put_section(es, j, k, items);
            proof {
                if !removed {
                    // Putting the same list back gives the document it came from.
                    assert(set_field(dm, section_name@, YamlV::List(im)) == dm) by {
                        let em = dm->Mapping_0;
                        lemma_key_index(em, section_name@);
                        assert(em.update(j as int, (em[j as int].0, YamlV::List(im))) =~= em);
                    }
                }
            }
            Ok(removed)
        },
    }
}

/// Takes the value of field `name` out of a mapping document: the fields
/// without it, where it was, its key and the value; or the document back
/// unchanged when it is not a mapping with that field.
fn take_field(doc: Yaml, name: &str) -> (r: Result<(Vec<(String, Yaml)>, usize, String, Yaml), Yaml>)
    ensures
        match r {
            Ok((es, j, k, v)) => {
                &&& doc.model() is Mapping
                &&& key_index(doc.model()->Mapping_0, name@) == Some(j as int)
                &&& field(doc.model(), name@) == Some(v.model())
                &&& k@ == name@
                &&& j <= es@.len()
                &&& forall|nv: YamlV| #![trigger set_field(doc.model(), name@, nv)]
                    set_field(doc.model(), name@, nv) == YamlV::Mapping(
                        model_entries(es@).insert(j as int, (k@, nv)),
                    )
            },
            Err(d) => d.model() == doc.model() && field(doc.model(), name@) is None,
        },
{
    match doc {
        Yaml::Mapping(mut es) => {
            let ghost em = model_entries(es@);
            proof {
                lemma_model_entries(es@);
            }
            match find_key(&es, name) {
                Some(j) => {
                    proof {
                        lemma_key_index(em, name@);
                    }
                    let (k, v) = es.remove(j);
                    proof {
                        lemma_model_entries(es@);
                        assert forall|nv: YamlV| #![trigger set_field(YamlV::Mapping(em), name@, nv)]
                            set_field(YamlV::Mapping(em), name@, nv) == YamlV::Mapping(
                                model_entries(es@).insert(j as int, (k@, nv)),
                            ) by {
                            assert(em.update(j as int, (em[j as int].0, nv)) =~= model_entries(es@).insert(
                                j as int,
                                (k@, nv),
                            ));
                        }
                    }
                    Ok((es, j, k, v))
                },
                None => Err(Yaml::Mapping(es)),
            }
        },
        other => Err(other),
    }
}

/// Puts a value back where [`take_field`] took it from.
fn put_field(es: Vec<(String, Yaml)>, j: usize, k: String, v: Yaml) -> (r: Yaml)
    requires
        j <= es@.len(),
    ensures
        r.model() == YamlV::Mapping(model_entries(es@).insert(j as int, (k@, v.model()))),
{
    let ghost em = model_entries(es@);
    let ghost vm = v.model();
    proof {
        lemma_model_entries(es@);
    }
    let mut es = es;
    es.insert(j, (k, v));
    proof {
        lemma_model_entries_ext(es@, em.insert(j as int, (k@, vm)));
    }
    Yaml::Mapping(es)
}

/// The list of macOS settings in a settings document, if there is one.
pub open spec fn macos_items(doc: YamlV) -> Option<Seq<YamlV>> {
    match field(doc, "settings"@) {
        Some(s) => section_items(s, "macos"@),
        None => None,
    }
}

/// The settings document with its macOS list replaced.
pub open spec fn with_macos_items(doc: YamlV, items: Seq<YamlV>) -> YamlV {
    set_field(doc, "settings"@, set_field(field(doc, "settings"@)->0, "macos"@, YamlV::List(items)))
}

/// Whether a setting item is for `domain` and `key`.
pub open spec fn is_setting(item: YamlV, domain: Seq<char>, key: Seq<char>) -> bool {
    str_field(item, "domain"@) == Some(domain) && str_field(item, "key"@) == Some(key)
}

/// The position of the first setting for `domain` and `key`.
pub open spec fn first_setting(items: Seq<YamlV>, domain: Seq<char>, key: Seq<char>) -> Option<int>
    decreases items.len(),
{
    if items.len() == 0 {
        None
    } else {
        match first_setting(items.drop_last(), domain, key) {
            Some(i) => Some(i),
            None => if is_setting(items.last(), domain, key) {
                Some(items.len() - 1)
            } else {
                None
            },
        }
    }
}

proof fn lemma_first_setting(items: Seq<YamlV>, domain: Seq<char>, key: Seq<char>)
    ensures
        match first_setting(items, domain, key) {
            Some(i) => 0 <= i < items.len() && is_setting(items[i], domain, key) && forall|j: int|
                0 <= j < i ==> !is_setting(#[trigger] items[j], domain, key),
            None => forall|j: int| 0 <= j < items.len() ==> !is_setting(#[trigger] items[j], domain, key),
        },
    decreases items.len(),
{
    if items.len() > 0 {
        lemma_first_setting(items.drop_last(), domain, key);
        match first_setting(items.drop_last(), domain, key) {
            Some(i) => {
                assert forall|j: int| 0 <= j < i implies !is_setting(#[trigger] items[j], domain, key) by {
                    assert(items.drop_last()[j] == items[j]);
                }
                assert(items.drop_last()[i] == items[i]);
            },
            None => {
                assert forall|j: int| 0 <= j < items.len() - 1 implies !is_setting(#[trigger] items[j], domain, key) by {
                    assert(items.drop_last()[j] == items[j]);
                }
            },
        }
    }
}

/// The position of the first setting for `domain` and `key`.
pub fn find_setting(items: &Vec<Yaml>, domain: &str, key: &str) -> (r: Option<usize>)
    ensures
        match r {
            Some(i) => first_setting(model_items(items@), domain@, key@) == Some(i as int),
            None => first_setting(model_items(items@), domain@, key@) is None,
        },
{
    proof {
        lemma_model_items(items@);
    }
    let mut i: usize = 0;
    while i < items.len()
        invariant
            i <= items@.len(),
            model_items(items@).len() == items@.len(),
            forall|j: int| 0 <= j < items@.len() ==> #[trigger] model_items(items@)[j] == items@[j].model(),
            forall|j: int| 0 <= j < i ==> !is_setting(#[trigger] items@[j].model(), domain@, key@),
        decreases items@.len() - i,
    {
        let d_ok = match get_str_field(&items[i], "domain") {
            Some(d) => str_eq(d.as_str(), domain),
            None => false,
        };
        let k_ok = match get_str_field(&items[i], "key") {
            Some(k) => str_eq(k.as_str(), key),
            None => false,
        };
        if d_ok && k_ok {
            proof {
                let m = model_items(items@);
                lemma_first_setting(m, domain@, key@);
                assert(is_setting(m[i as int], domain@, key@));
                match first_setting(m, domain@, key@) {
                    Some(t) => {
                        if t < i {
                            assert(m[t] == items@[t].model());
                        } else if t > i {
                            assert(!is_setting(m[i as int], domain@, key@));
                        }
                    },
                    None => {
                        assert(!is_setting(m[i as int], domain@, key@));
                    },
                }
            }
            return Some(i);
        }
        i = i + 1;
    }
    proof {
        let m = model_items(items@);
        lemma_first_setting(m, domain@, key@);
        match first_setting(m, domain@, key@) {
            Some(t) => {
                assert(m[t] == items@[t].model());
            },
            None => {},
        }
    }
    None
}

/// The message when `settings.macos` is missing or is not a list.
pub open spec fn missing_settings_message() -> Seq<char> {
    "settings.macos section not found or not a list"@
}

/// Adds a macOS setting to a settings document, or merges it into the
/// setting for the same domain and key (merged and cleaned as for
/// [`update_or_add_list_item`]); `Ok(true)` says one was updated. When
/// `settings.macos` is missing or not a list the document is unchanged.
pub fn update_or_add_setting(doc: &mut Yaml, domain: &str, key: &str, new_setting: &Yaml) -> (r: Result<bool, String>)
    ensures
        match macos_items(old(doc).model()) {
            None => final(doc).model() == old(doc).model() && (r matches Err(e) && e@ == missing_settings_message()),
            Some(items) => match first_setting(items, domain@, key@) {
                Some(i) => r == Ok::<bool, String>(true) && final(doc).model() == with_macos_items(
                    old(doc).model(),
                    items.update(i, without_nulls(merged(items[i], new_setting.model()))),
                ),
                None => r == Ok::<bool, String>(false) && final(doc).model() == with_macos_items(
                    old(doc).model(),
                    items.push(without_nulls(new_setting.model())),
                ),
            },
        },
{
    let mut d = Yaml::Null;
    std::mem::swap(&mut d, doc);
    let ghost dm = d.model();
    match take_field(d, "settings") {
        Err(back) => {
            *doc = back;
            Err(owned("settings.macos section not found or not a list"))
        },
        Ok((es, j, k, settings)) => {
            let ghost sm = settings.model();
            match take_section(settings, "macos") {
                Err(settings_back) => {
                    *doc = put_field(es, j, k, settings_back);
                    proof {
                        let em = dm->Mapping_0;
                        lemma_key_index(em, "settings"@);
                        assert(em.update(j as int, (em[j as int].0, sm)) =~= em);
                        assert(set_field(dm, "settings"@, sm) == dm);
                    }
                    Err(owned("settings.macos section not found or not a list"))
                },
                Ok((ses, sj, sk, items)) => {
                    let ghost im = model_items(items@);
                    proof {
                        lemma_model_items(items@);
                        lemma_first_setting(im, domain@, key@);
                    }
                    let mut items = items;
                    let was_update = match find_setting(&items, domain, key) {
                        Some(idx) => {
                            let existing = items.remove(idx);
                            let mut merged_value = clone_yaml(&existing);
                            deep_merge_values(&mut merged_value, new_setting);
                            remove_nulls(&mut merged_value);
                            items.insert(idx, merged_value);
                            proof {
                                lemma_model_items_ext(
                                    items@,
                                    im.update(idx as int, without_nulls(merged(im[idx as int], new_setting.model()))),
                                );
                            }
                            true
                        },
                        None => {
                            let mut v = clone_yaml(new_setting);
                            remove_nulls(&mut v);
                            items.push(v);
                            proof {
                                lemma_model_items_ext(items@, im.push(without_nulls(new_setting.model())));
                            }
                            false
                        },
                    };
                    let new_settings = put_section(ses, sj, sk, items);
                    *doc = put_field(es, j, k, new_settings);
                    Ok(was_update)
                },
            }
        },
    }
}

/// Removes the first macOS setting for `domain` and `key` from a settings
/// document; `Ok(true)` says one was removed. When `settings.macos` is
/// missing or not a list the document is unchanged.
pub fn remove_setting(doc: &mut Yaml, domain: &str, key: &str) -> (r: Result<bool, String>)
    ensures
        match macos_items(old(doc).model()) {
            None => final(doc).model() == old(doc).model() && (r matches Err(e) && e@ == missing_settings_message()),
            Some(items) => match first_setting(items, domain@, key@) {
                Some(i) => r == Ok::<bool, String>(true) && final(doc).model() == with_macos_items(
                    old(doc).model(),
                    items.remove(i),
                ),
                None => r == Ok::<bool, String>(false) && final(doc).model() == old(doc).model(),
            },
        },
{
    let mut d = Yaml::Null;
    std::mem::swap(&mut d, doc);
    let ghost dm = d.model();
    match take_field(d, "settings") {
        Err(back) => {
            *doc = back;
            Err(owned("settings.macos section not found or not a list"))
        },
        Ok((es, j, k, settings)) => {
            let ghost sm = settings.model();
            proof {
                let em = dm->Mapping_0;
                lemma_key_index(em, "settings"@);
                assert(em.update(j as int, (em[j as int].0, sm)) =~= em);
                assert(set_field(dm, "settings"@, sm) == dm);
            }
            match take_section(settings, "macos") {
                Err(settings_back) => {
                    *doc = put_field(es, j, k, settings_back);
                    Err(owned("settings.macos section not found or not a list"))
                },
                Ok((ses, sj, sk, items)) => {
                    let ghost im = model_items(items@);
                    proof {
                        lemma_model_items(items@);
                        lemma_first_setting(im, domain@, key@);
                    }
                    let mut items = items;
                    let removed = match find_setting(&items, domain, key) {
                        Some(idx) => {
                            items.remove(idx);
                            proof {
                                lemma_model_items_ext(items@, im.remove(idx as int));
                            }
                            true
                        },
                        None => false,
                    };
                    let new_settings = put_section(ses, sj, sk, items);
                    *doc = put_field(es, j, k, new_settings);
                    proof {
                        if !removed {
                            let sem = sm->Mapping_0;
                            lemma_key_index(sem, "macos"@);
                            assert(sem.update(sj as int, (sem[sj as int].0, YamlV::List(im))) =~= sem);
                            assert(set_field(sm, "macos"@, YamlV::List(im)) == sm);
                        }
                    }
                    Ok(removed)
                },
            }
        },
    }
}

/// Whether no key occurs twice among the fields.
pub open spec fn unique_keys<A>(es: Seq<(Seq<char>, A)>) -> bool {
    forall|i: int, j: int|
        0 <= i < es.len() && 0 <= j < es.len() && i != j ==> #[trigger] es[i].0 != #[trigger] es[j].0
}

/// Whether every mapping among the items has unique keys.
pub open spec fn items_well_keyed(items: Seq<YamlV>) -> bool {
    forall|j: int|
        0 <= j < items.len() ==> match #[trigger] items[j] {
            YamlV::Mapping(es) => unique_keys(es),
            _ => true,
        }
}

proof fn lemma_unique_key_index<A>(es: Seq<(Seq<char>, A)>, j: int)
    requires
        unique_keys(es),
        0 <= j < es.len(),
    ensures
        key_index(es, es[j].0) == Some(j),
{
    lemma_key_index(es, es[j].0);
    match key_index(es, es[j].0) {
        Some(i) => {
            if i != j {
                if i < j {
                    assert(es[i].0 != es[j].0);
                }
            }
        },
        None => {
            assert(es[j].0 != es[j].0);
        },
    }
}

/// With unique keys, a field holding `(k, v)` is what `k` reads.
proof fn lemma_field_of_entry(es: Seq<(Seq<char>, YamlV)>, k: Seq<char>, v: YamlV)
    requires
        unique_keys(es),
        es.contains((k, v)),
    ensures
        field(YamlV::Mapping(es), k) == Some(v),
{
    let j = choose|j: int| 0 <= j < es.len() && es[j] == (k, v);
    lemma_unique_key_index(es, j);
}

proof fn lemma_swap_removed<A>(es: Seq<(Seq<char>, A)>, i: int)
    requires
        unique_keys(es),
        0 <= i < es.len(),
    ensures
        unique_keys(swap_removed(es, i)),
        forall|j: int| 0 <= j < es.len() && j != i ==> swap_removed(es, i).contains(#[trigger] es[j]),
{
    let r = swap_removed(es, i);
    let n = es.len();
    assert forall|x: int, y: int| 0 <= x < r.len() && 0 <= y < r.len() && x != y implies #[trigger] r[x].0
        != #[trigger] r[y].0 by {
        let sx = if x == i { n - 1 } else { x };
        let sy = if y == i { n - 1 } else { y };
        assert(r[x] == es[sx]);
        assert(r[y] == es[sy]);
    }
    assert forall|j: int| 0 <= j < es.len() && j != i implies r.contains(#[trigger] es[j]) by {
        if j == n - 1 {
            assert(r[i] == es[j]);
        } else {
            assert(r[j] == es[j]);
        }
    }
}

proof fn lemma_kept_fields(es: Seq<(Seq<char>, YamlV)>)
    requires
        unique_keys(es),
    ensures
        unique_keys(kept_fields(es)),
        forall|x: int|
            0 <= x < kept_fields(es).len() ==> exists|j: int| 0 <= j < es.len() && es[j].0 == (#[trigger] kept_fields(es)[x]).0,
        forall|j: int|
            0 <= j < es.len() && !(es[j].1 is Null) ==> kept_fields(es).contains(
                (#[trigger] es[j].0, (es[j].1, without_nulls(es[j].1))),
            ),
    decreases es.len(),
{
    if es.len() > 0 {
        let p = es.drop_last();
        let e = es.last();
        assert forall|x: int, y: int| 0 <= x < p.len() && 0 <= y < p.len() && x != y implies #[trigger] p[x].0
            != #[trigger] p[y].0 by {
            assert(p[x] == es[x] && p[y] == es[y]);
        }
        lemma_kept_fields(p);
        let rest = kept_fields(p);
        if !(e.1 is Null) {
            let r = rest.push((e.0, (e.1, without_nulls(e.1))));
            assert(kept_fields(es) == r);
            assert forall|x: int, y: int| 0 <= x < r.len() && 0 <= y < r.len() && x != y implies #[trigger] r[x].0
                != #[trigger] r[y].0 by {
                if x < rest.len() && y < rest.len() {
                    assert(r[x] == rest[x] && r[y] == rest[y]);
                } else if x < rest.len() {
                    assert(r[x] == rest[x]);
                    let jx = choose|j: int| 0 <= j < p.len() && p[j].0 == (rest[x]).0;
                    assert(es[jx] == p[jx]);
                    assert(es[es.len() - 1] == e);
                } else if y < rest.len() {
                    assert(r[y] == rest[y]);
                    let jy = choose|j: int| 0 <= j < p.len() && p[j].0 == (rest[y]).0;
                    assert(es[jy] == p[jy]);
                    assert(es[es.len() - 1] == e);
                }
            }
            assert forall|x: int| 0 <= x < r.len() implies exists|j: int| 0 <= j < es.len() && es[j].0 == (
            #[trigger] r[x]).0 by {
                if x < rest.len() {
                    assert(r[x] == rest[x]);
                    let jx = choose|j: int| 0 <= j < p.len() && p[j].0 == (rest[x]).0;
                    assert(es[jx] == p[jx]);
                } else {
                    assert(es[es.len() - 1].0 == r[x].0);
                }
            }
            assert forall|j: int| 0 <= j < es.len() && !(es[j].1 is Null) implies r.contains(
                (#[trigger] es[j].0, (es[j].1, without_nulls(es[j].1))),
            ) by {
                if j < p.len() {
                    assert(p[j] == es[j]);
                    let t = (p[j].0, (p[j].1, without_nulls(p[j].1)));
                    assert(rest.contains(t));
                    let q = choose|q: int| 0 <= q < rest.len() && rest[q] == t;
                    assert(r[q] == t);
                } else {
                    assert(r[rest.len() as int] == (e.0, (e.1, without_nulls(e.1))));
                }
            }
        } else {
            assert(kept_fields(es) == rest);
            assert forall|x: int| 0 <= x < rest.len() implies exists|j: int| 0 <= j < es.len() && es[j].0 == (
            #[trigger] rest[x]).0 by {
                let jx = choose|j: int| 0 <= j < p.len() && p[j].0 == (rest[x]).0;
                assert(es[jx] == p[jx]);
            }
            assert forall|j: int| 0 <= j < es.len() && !(es[j].1 is Null) implies rest.contains(
                (#[trigger] es[j].0, (es[j].1, without_nulls(es[j].1))),
            ) by {
                assert(j < p.len());
                assert(p[j] == es[j]);
            }
        }
    }
}


/// A string field survives the removal of a disabled configuration manager.
proof fn lemma_without_disabled_manager(ts: Seq<(Seq<char>, (YamlV, YamlV))>, k: Seq<char>, sv: Seq<char>)
    requires
        unique_keys(ts),
        ts.contains((k, (YamlV::Str(sv), YamlV::Str(sv)))),
    ensures
        unique_keys(without_disabled_manager(ts)),
        without_disabled_manager(ts).contains((k, (YamlV::Str(sv), YamlV::Str(sv)))),
{
    let e = (k, (YamlV::Str(sv), YamlV::Str(sv)));
    let j = choose|j: int| 0 <= j < ts.len() && ts[j] == e;
    lemma_key_index(ts, "configuration_manager"@);
    match key_index(ts, "configuration_manager"@) {
        Some(i) => {
            if disabled_manager(ts[i].1.0) {
                if i == j {
                    assert(field(YamlV::Str(sv), "enabled"@) is None);
                }
                lemma_swap_removed(ts, i);
                assert(swap_removed(ts, i).contains(ts[j]));
            }
        },
        None => {},
    }
}

/// The cleaned fields keep their keys, in order.
proof fn lemma_cleaned_pairs(ts: Seq<(Seq<char>, (YamlV, YamlV))>, k: Seq<char>, v: YamlV, w: YamlV)
    requires
        unique_keys(ts),
        ts.contains((k, (v, w))),
    ensures
        unique_keys(cleaned_pairs(ts)),
        cleaned_pairs(ts).contains((k, w)),
{
    let c = cleaned_pairs(ts);
    assert forall|x: int, y: int| 0 <= x < c.len() && 0 <= y < c.len() && x != y implies #[trigger] c[x].0
        != #[trigger] c[y].0 by {
        assert(c[x].0 == ts[x].0 && c[y].0 == ts[y].0);
    }
    let j = choose|j: int| 0 <= j < ts.len() && ts[j] == (k, (v, w));
    assert(c[j] == (k, w));
}

/// Every key listed as empty is the key of a field whose cleaned value is
/// an empty collection.
proof fn lemma_empty_keys(ts: Seq<(Seq<char>, (YamlV, YamlV))>)
    ensures
        forall|x: int|
            0 <= x < empty_keys(ts).len() ==> exists|j: int|
                0 <= j < ts.len() && ts[j].0 == #[trigger] empty_keys(ts)[x] && is_empty_collection(ts[j].1.1),
    decreases ts.len(),
{
    if ts.len() > 0 {
        let p = ts.drop_last();
        lemma_empty_keys(p);
        let r = empty_keys(p);
        assert forall|x: int| 0 <= x < empty_keys(ts).len() implies exists|j: int|
            0 <= j < ts.len() && ts[j].0 == #[trigger] empty_keys(ts)[x] && is_empty_collection(ts[j].1.1) by {
            if x < r.len() {
                assert(empty_keys(ts)[x] == r[x]);
                let jx = choose|j: int| 0 <= j < p.len() && p[j].0 == r[x] && is_empty_collection(p[j].1.1);
                assert(ts[jx] == p[jx]);
            } else {
                assert(ts[ts.len() - 1] == ts.last());
            }
        }
    }
}

/// Removing keys other than `k` keeps the field `(k, w)` and unique keys.
proof fn lemma_remove_keys(es: Seq<(Seq<char>, YamlV)>, keys: Seq<Seq<char>>, k: Seq<char>, w: YamlV)
    requires
        unique_keys(es),
        es.contains((k, w)),
        !keys.contains(k),
    ensures
        unique_keys(remove_keys(es, keys)),
        remove_keys(es, keys).contains((k, w)),
    decreases keys.len(),
{
    if keys.len() > 0 {
        let j = choose|j: int| 0 <= j < es.len() && es[j] == (k, w);
        assert(keys[0] != k) by {
            if keys[0] == k {
                assert(keys.contains(k));
            }
        }
        lemma_key_index(es, keys[0]);
        let next = match key_index(es, keys[0]) {
            Some(i) => swap_removed(es, i),
            None => es,
        };
        match key_index(es, keys[0]) {
            Some(i) => {
                lemma_swap_removed(es, i);
                assert(i != j);
                assert(next.contains(es[j]));
            },
            None => {},
        }
        assert(!keys.drop_first().contains(k)) by {
            if keys.drop_first().contains(k) {
                let q = choose|q: int| 0 <= q < keys.drop_first().len() && keys.drop_first()[q] == k;
                assert(keys[q + 1] == k);
            }
        }
        lemma_remove_keys(next, keys.drop_first(), k, w);
    }
}

/// Cleaning a mapping with unique keys keeps its string fields.
proof fn lemma_without_nulls_keeps_string(es: Seq<(Seq<char>, YamlV)>, k: Seq<char>, sv: Seq<char>)
    requires
        unique_keys(es),
        es.contains((k, YamlV::Str(sv))),
    ensures
        str_field(without_nulls(YamlV::Mapping(es)), k) == Some(sv),
{
    let j = choose|j: int| 0 <= j < es.len() && es[j] == (k, YamlV::Str(sv));
    lemma_kept_fields(es);
    assert(without_nulls(YamlV::Str(sv)) == YamlV::Str(sv));
    assert(kept_fields(es).contains((es[j].0, (es[j].1, without_nulls(es[j].1)))));
    let kf = kept_fields(es);
    lemma_without_disabled_manager(kf, k, sv);
    let ts = without_disabled_manager(kf);
    lemma_cleaned_pairs(ts, k, YamlV::Str(sv), YamlV::Str(sv));
    lemma_empty_keys(ts);
    assert(!empty_keys(ts).contains(k)) by {
        if empty_keys(ts).contains(k) {
            let x = choose|x: int| 0 <= x < empty_keys(ts).len() && empty_keys(ts)[x] == k;
            let q = choose|q: int|
                0 <= q < ts.len() && ts[q].0 == #[trigger] empty_keys(ts)[x] && is_empty_collection(ts[q].1.1);
            let m = choose|m: int| 0 <= m < ts.len() && ts[m] == (k, (YamlV::Str(sv), YamlV::Str(sv)));
            if q != m {
                assert(ts[q].0 != ts[m].0);
            }
        }
    }
    lemma_remove_keys(cleaned_pairs(ts), empty_keys(ts), k, YamlV::Str(sv));
    lemma_field_of_entry(remove_keys(cleaned_pairs(ts), empty_keys(ts)), k, YamlV::Str(sv));
}


/// Merging keeps unique keys, and a string field of the source ends up in
/// the result.
proof fn lemma_merged_entries(
    te: Seq<(Seq<char>, YamlV)>,
    se: Seq<(Seq<char>, YamlV)>,
    k: Seq<char>,
    sv: Seq<char>,
)
    requires
        unique_keys(te),
        unique_keys(se),
    ensures
        unique_keys(merged_entries(te, se)),
        se.contains((k, YamlV::Str(sv))) ==> merged_entries(te, se).contains((k, YamlV::Str(sv))),
    decreases se.len(),
{
    if se.len() > 0 {
        let p = se.drop_last();
        let e = se.last();
        assert forall|x: int, y: int| 0 <= x < p.len() && 0 <= y < p.len() && x != y implies #[trigger] p[x].0
            != #[trigger] p[y].0 by {
            assert(p[x] == se[x] && p[y] == se[y]);
        }
        lemma_merged_entries(te, p, k, sv);
        let r = merged_entries(te, p);
        let out = merged_entry(r, e);
        assert(merged_entries(te, se) == out);
        let target = (k, YamlV::Str(sv));
        if !skipped_in_merge(e.1) {
            lemma_key_index(r, e.0);
            match key_index(r, e.0) {
                Some(q) => {
                    let nv = if r[q].1 is Mapping && e.1 is Mapping {
                        merged(r[q].1, e.1)
                    } else {
                        e.1
                    };
                    assert(out == r.update(q, (r[q].0, nv)));
                    assert forall|x: int, y: int| 0 <= x < out.len() && 0 <= y < out.len() && x != y implies #[trigger] out[x].0
                        != #[trigger] out[y].0 by {
                        assert(out[x].0 == r[x].0 && out[y].0 == r[y].0);
                    }
                    if se.contains(target) {
                        if e == target {
                            assert(out[q] == target);
                        } else {
                            let m = choose|m: int| 0 <= m < se.len() && se[m] == target;
                            assert(m < p.len()) by {
                                if m == se.len() - 1 {
                                    assert(se[m] == e);
                                }
                            }
                            assert(p[m] == target);
                            assert(r.contains(target));
                            let w = choose|w: int| 0 <= w < r.len() && r[w] == target;
                            assert(e.0 != k) by {
                                if e.0 == k {
                                    assert(se[se.len() - 1].0 == se[m].0);
                                }
                            }
                            assert(w != q);
                            assert(out[w] == target);
                        }
                    }
                },
                None => {
                    assert(out == r.push(e));
                    assert forall|x: int, y: int| 0 <= x < out.len() && 0 <= y < out.len() && x != y implies #[trigger] out[x].0
                        != #[trigger] out[y].0 by {
                        if x < r.len() && y < r.len() {
                            assert(out[x] == r[x] && out[y] == r[y]);
                        } else if x < r.len() {
                            assert(out[x] == r[x]);
                        } else if y < r.len() {
                            assert(out[y] == r[y]);
                        }
                    }
                    if se.contains(target) {
                        if e == target {
                            assert(out[r.len() as int] == target);
                        } else {
                            let m = choose|m: int| 0 <= m < se.len() && se[m] == target;
                            assert(m < p.len()) by {
                                if m == se.len() - 1 {
                                    assert(se[m] == e);
                                }
                            }
                            assert(p[m] == target);
                            let w = choose|w: int| 0 <= w < r.len() && r[w] == target;
                            assert(out[w] == target);
                        }
                    }
                },
            }
        } else {
            assert(out == r);
            if se.contains(target) {
                let m = choose|m: int| 0 <= m < se.len() && se[m] == target;
                assert(m < p.len()) by {
                    if m == se.len() - 1 {
                        assert(se[m] == e);
                        assert(!skipped_in_merge(YamlV::Str(sv)));
                    }
                }
                assert(p[m] == target);
            }
        }
    }
}

/// Entries with the same keys in the same order find a key at the same
/// position.
proof fn lemma_key_index_same_keys<A, B>(a: Seq<(Seq<char>, A)>, b: Seq<(Seq<char>, B)>, k: Seq<char>)
    requires
        a.len() == b.len(),
        forall|i: int| 0 <= i < a.len() ==> #[trigger] a[i].0 == b[i].0,
    ensures
        key_index(a, k) == key_index(b, k),
    decreases a.len(),
{
    if a.len() > 0 {
        assert(a.last().0 == b[b.len() - 1].0);
        lemma_key_index_same_keys(a.drop_last(), b.drop_last(), k);
    }
}

/// What a merge leaves in field `k` of the target, as [`law_merge_field`]
/// states it.
pub open spec fn merged_field(target: Seq<(Seq<char>, YamlV)>, source: Seq<(Seq<char>, YamlV)>, k: Seq<char>) -> Option<
    YamlV,
> {
    let old = field(YamlV::Mapping(target), k);
    match key_index(source, k) {
        None => old,
        Some(i) => if skipped_in_merge(source[i].1) {
            old
        } else {
            match old {
                Some(tv) => if tv is Mapping && source[i].1 is Mapping {
                    Some(merged(tv, source[i].1))
                } else {
                    Some(source[i].1)
                },
                None => Some(source[i].1),
            }
        },
    }
}

/// Deep merge, field by field: a field that the source does not name, or
/// names with a value that is passed over (null, an empty list or an empty
/// mapping), keeps its value in the target; a field that both hold as
/// mappings is merged in turn; any other field the source names takes the
/// source's value. Existing fields are kept unless the source changes them.
pub proof fn law_merge_field(target: Seq<(Seq<char>, YamlV)>, source: Seq<(Seq<char>, YamlV)>, k: Seq<char>)
    requires
        unique_keys(source),
    ensures
        field(merged(YamlV::Mapping(target), YamlV::Mapping(source)), k) == merged_field(target, source, k),
    decreases source.len(),
{
    assert(merged(YamlV::Mapping(target), YamlV::Mapping(source)) == YamlV::Mapping(merged_entries(target, source)));
    if source.len() > 0 {
        let p = source.drop_last();
        let e = source.last();
        assert forall|x: int, y: int| 0 <= x < p.len() && 0 <= y < p.len() && x != y implies #[trigger] p[x].0
            != #[trigger] p[y].0 by {
            assert(p[x] == source[x] && p[y] == source[y]);
        }
        law_merge_field(target, p, k);
        let r = merged_entries(target, p);
        assert(merged(YamlV::Mapping(target), YamlV::Mapping(p)) == YamlV::Mapping(r));
        let out = merged_entry(r, e);
        assert(merged_entries(target, source) == out);
        lemma_key_index(p, k);
        lemma_key_index(r, k);
        if e.0 == k {
            assert(key_index(p, k) is None) by {
                if key_index(p, k) is Some {
                    let q = key_index(p, k)->0;
                    assert(p[q] == source[q]);
                    assert(source[q].0 == source[source.len() - 1].0);
                }
            }
            assert(key_index(source, k) == Some(source.len() - 1));
            if !skipped_in_merge(e.1) {
                match key_index(r, k) {
                    Some(j) => {
                        let nv = if r[j].1 is Mapping && e.1 is Mapping {
                            merged(r[j].1, e.1)
                        } else {
                            e.1
                        };
                        assert(out == r.update(j, (r[j].0, nv)));
                        lemma_key_index_same_keys(out, r, k);
                    },
                    None => {
                        assert(out == r.push(e));
                        assert(out.drop_last() == r);
                    },
                }
            }
        } else {
            assert(key_index(source, k) == key_index(p, k));
            if key_index(p, k) is Some {
                let q = key_index(p, k)->0;
                assert(p[q] == source[q]);
            }
            if !skipped_in_merge(e.1) {
                lemma_key_index(r, e.0);
                match key_index(r, e.0) {
                    Some(j) => {
                        let nv = if r[j].1 is Mapping && e.1 is Mapping {
                            merged(r[j].1, e.1)
                        } else {
                            e.1
                        };
                        assert(out == r.update(j, (r[j].0, nv)));
                        lemma_key_index_same_keys(out, r, k);
                        if key_index(r, k) is Some {
                            let q = key_index(r, k)->0;
                            assert(q != j);
                            assert(out[q] == r[q]);
                        }
                    },
                    None => {
                        assert(out == r.push(e));
                        assert(out.drop_last() == r);
                        if key_index(r, k) is Some {
                            let q = key_index(r, k)->0;
                            assert(out[q] == r[q]);
                        }
                    },
                }
            }
        }
    }
}

/// A list in which some item's field `key` holds `id` has a first such item.
proof fn lemma_first_item_found(items: Seq<YamlV>, key: Seq<char>, id: Seq<char>, i: int)
    requires
        0 <= i < items.len(),
        str_field(items[i], key) == Some(id),
    ensures
        first_item(items, key, id) is Some,
{
    lemma_first_item(items, key, id);
}

/// Adding or merging an item whose field `key` holds `id` into a list of
/// well-keyed mappings leaves the list with an item found under `id`: what
/// `add` writes is read back.
pub proof fn law_added_item_is_found(items: Seq<YamlV>, key: Seq<char>, id: Seq<char>, new_fields: Seq<(Seq<char>, YamlV)>)
    requires
        items_well_keyed(items),
        unique_keys(new_fields),
        new_fields.contains((key, YamlV::Str(id))),
    ensures
        first_item(upserted(items, key, id, YamlV::Mapping(new_fields)).0, key, id) is Some,
{
    let new_item = YamlV::Mapping(new_fields);
    lemma_first_item(items, key, id);
    match first_item(items, key, id) {
        Some(i) => {
            let old_item = items[i];
            assert(items_well_keyed(items));
            match old_item {
                YamlV::Mapping(te) => {
                    assert(unique_keys(te));
                    lemma_merged_entries(te, new_fields, key, id);
                    assert(merged(old_item, new_item) == YamlV::Mapping(merged_entries(te, new_fields)));
                    lemma_without_nulls_keeps_string(merged_entries(te, new_fields), key, id);
                    let u = items.update(i, without_nulls(merged(old_item, new_item)));
                    assert(u[i] == without_nulls(merged(old_item, new_item)));
                    lemma_first_item_found(u, key, id, i);
                },
                _ => {
                    assert(field(old_item, key) is None);
                },
            }
        },
        None => {
            lemma_without_nulls_keeps_string(new_fields, key, id);
            let u = items.push(without_nulls(new_item));
            assert(u[items.len() as int] == without_nulls(new_item));
            lemma_first_item_found(u, key, id, items.len() as int);
        },
    }
}


/// The macOS settings after adding or merging a setting for `domain` and
/// `key`, as [`update_or_add_setting`] leaves them.
pub open spec fn setting_upserted(items: Seq<YamlV>, domain: Seq<char>, key: Seq<char>, new_setting: YamlV) -> Seq<YamlV> {
    match first_setting(items, domain, key) {
        Some(i) => items.update(i, without_nulls(merged(items[i], new_setting))),
        None => items.push(without_nulls(new_setting)),
    }
}

/// Adding or merging a setting that names `domain` and `key` into a list of
/// well-keyed settings leaves a setting found for that domain and key.
pub proof fn law_added_setting_is_found(
    items: Seq<YamlV>,
    domain: Seq<char>,
    key: Seq<char>,
    new_fields: Seq<(Seq<char>, YamlV)>,
)
    requires
        items_well_keyed(items),
        unique_keys(new_fields),
        new_fields.contains(("domain"@, YamlV::Str(domain))),
        new_fields.contains(("key"@, YamlV::Str(key))),
    ensures
        first_setting(setting_upserted(items, domain, key, YamlV::Mapping(new_fields)), domain, key) is Some,
{
    let new_item = YamlV::Mapping(new_fields);
    lemma_first_setting(items, domain, key);
    let u = setting_upserted(items, domain, key, new_item);
    let at: int = match first_setting(items, domain, key) {
        Some(i) => {
            match items[i] {
                YamlV::Mapping(te) => {
                    assert(unique_keys(te));
                    lemma_merged_entries(te, new_fields, "domain"@, domain);
                    lemma_merged_entries(te, new_fields, "key"@, key);
                    assert(merged(items[i], new_item) == YamlV::Mapping(merged_entries(te, new_fields)));
                    lemma_without_nulls_keeps_string(merged_entries(te, new_fields), "domain"@, domain);
                    lemma_without_nulls_keeps_string(merged_entries(te, new_fields), "key"@, key);
                },
                _ => {
                    assert(field(items[i], "domain"@) is None);
                },
            }
            i
        },
        None => {
            lemma_without_nulls_keeps_string(new_fields, "domain"@, domain);
            lemma_without_nulls_keeps_string(new_fields, "key"@, key);
            items.len() as int
        },
    };
    assert(is_setting(u[at], domain, key));
    lemma_first_setting(u, domain, key);
}


/// Removing an item right after adding it, when no item had its identifier
/// before, gives the list back as it was.
pub proof fn law_remove_undoes_add(items: Seq<YamlV>, key: Seq<char>, id: Seq<char>, new_fields: Seq<(Seq<char>, YamlV)>)
    requires
        first_item(items, key, id) is None,
        unique_keys(new_fields),
        new_fields.contains((key, YamlV::Str(id))),
    ensures
        removed_item(upserted(items, key, id, YamlV::Mapping(new_fields)).0, key, id) == (items, true),
{
    let added = upserted(items, key, id, YamlV::Mapping(new_fields)).0;
    lemma_without_nulls_keeps_string(new_fields, key, id);
    assert(added == items.push(without_nulls(YamlV::Mapping(new_fields))));
    assert(added.drop_last() == items);
    assert(first_item(added, key, id) == Some(items.len() as int));
    assert(added.remove(items.len() as int) =~= items);
}

} // verus!
