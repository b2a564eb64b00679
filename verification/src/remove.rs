//! The `remove` command's decisions: which recorded tool a name refers to
//! (its name or the name it was renamed to), what a removal leaves in the
//! state, how outcomes are summarised and whether the state must be saved,
//! and the removal of aliases and settings from their documents.

use vstd::prelude::*;
use crate::text::{str_eq, concat3, owned};
use crate::state::DevBoxState;
use crate::store::Named;
use crate::model::{ToolState, FontState};
use crate::config_doc::{Yaml, YamlV, remove_list_item, section_items, removed_item, set_field, trim_colons,
    missing_section_message, macos_items, first_setting, with_macos_items, missing_settings_message};

verus! {

/// The outcome of removing one item.
#[derive(Debug, Clone, PartialEq)]
pub enum RemovalResult {
    Removed,
    NotFound,
    Failed(String),
}

/// What a `remove` run did.
#[derive(Debug, Clone, PartialEq)]
pub struct RemovalSummary {
    pub removed_tools: Vec<String>,
    pub removed_fonts: Vec<String>,
    pub not_found_items: Vec<String>,
    pub failed_removals: Vec<(String, String)>,
}

impl RemovalSummary {
    /// A summary with nothing recorded.
    pub fn new() -> (r: Self)
        ensures
            r.removed_tools@.len() == 0,
            r.removed_fonts@.len() == 0,
            r.not_found_items@.len() == 0,
            r.failed_removals@.len() == 0,
    {
        RemovalSummary {
            removed_tools: Vec::new(),
            removed_fonts: Vec::new(),
            not_found_items: Vec::new(),
            failed_removals: Vec::new(),
        }
    }

    /// Records the outcome for one item: a removed tool (`item_type` is
    /// `tool`) or font (any other type), an item not found, or a failure
    /// with its reason.
    pub fn record(&mut self, item_name: String, item_type: &str, result: RemovalResult)
        ensures
            match result {
                RemovalResult::Removed => if item_type@ == "tool"@ {
                    final(self).removed_tools@ == old(self).removed_tools@.push(item_name)
                        && final(self).removed_fonts@ == old(self).removed_fonts@
                } else {
                    final(self).removed_fonts@ == old(self).removed_fonts@.push(item_name)
                        && final(self).removed_tools@ == old(self).removed_tools@
                },
                _ => final(self).removed_tools@ == old(self).removed_tools@ && final(self).removed_fonts@
                    == old(self).removed_fonts@,
            },
            result is NotFound ==> final(self).not_found_items@ == old(self).not_found_items@.push(item_name),
            !(result is NotFound) ==> final(self).not_found_items@ == old(self).not_found_items@,
            match result {
                RemovalResult::Failed(reason) => final(self).failed_removals@ == old(self).failed_removals@.push(
                    (item_name, reason),
                ),
                _ => final(self).failed_removals@ == old(self).failed_removals@,
            },
    {
        match result {
            RemovalResult::Removed => {
                if str_eq(item_type, "tool") {
                    self.removed_tools.push(item_name);
                } else {
                    self.removed_fonts.push(item_name);
                }
            },
            RemovalResult::NotFound => {
                self.not_found_items.push(item_name);
            },
            RemovalResult::Failed(reason) => {
                self.failed_removals.push((item_name, reason));
            },
        }
    }

    /// Whether the state must be saved: some tool or font was removed.
    pub fn needs_save(&self) -> (r: bool)
        ensures
            r == (self.removed_tools@.len() > 0 || self.removed_fonts@.len() > 0),
    {
        self.removed_tools.len() > 0 || self.removed_fonts.len() > 0
    }
}

/// Whether `name` refers to the tool recorded under `key`: its own name,
/// or the name it was installed as.
pub open spec fn refers_to(key: Seq<char>, st: ToolState, name: Seq<char>) -> bool {
    key == name || (st.renamed_to is Some && st.renamed_to->0@ == name)
}

/// The position of the first entry installed under the name `name`.
pub open spec fn first_renamed(s: Seq<Named<ToolState>>, name: Seq<char>) -> Option<int>
    decreases s.len(),
{
    if s.len() == 0 {
        None
    } else {
        match first_renamed(s.drop_last(), name) {
            Some(i) => Some(i),
            None => if s.last().value.renamed_to is Some && s.last().value.renamed_to->0@ == name {
                Some(s.len() - 1)
            } else {
                None
            },
        }
    }
}

proof fn lemma_first_renamed(s: Seq<Named<ToolState>>, name: Seq<char>)
    ensures
        match first_renamed(s, name) {
            Some(i) => 0 <= i < s.len() && s[i].value.renamed_to is Some && s[i].value.renamed_to->0@ == name
                && forall|j: int| 0 <= j < i ==> !((#[trigger] s[j]).value.renamed_to is Some
                    && s[j].value.renamed_to->0@ == name),
            None => forall|j: int| 0 <= j < s.len() ==> !((#[trigger] s[j]).value.renamed_to is Some
                && s[j].value.renamed_to->0@ == name),
        },
    decreases s.len(),
{
    if s.len() > 0 {
        lemma_first_renamed(s.drop_last(), name);
        match first_renamed(s.drop_last(), name) {
            Some(i) => {
                assert forall|j: int| 0 <= j < i implies !((#[trigger] s[j]).value.renamed_to is Some
                    && s[j].value.renamed_to->0@ == name) by {
                    assert(s.drop_last()[j] == s[j]);
                }
                assert(s.drop_last()[i] == s[i]);
            },
            None => {
                assert forall|j: int| 0 <= j < s.len() - 1 implies !((#[trigger] s[j]).value.renamed_to is Some
                    && s[j].value.renamed_to->0@ == name) by {
                    assert(s.drop_last()[j] == s[j]);
                }
            },
        }
    }
}

/// The recorded tool a name refers to: the tool recorded under that name,
/// else the first, in storage order, whose binary was renamed to it.
pub open spec fn tool_referred_to(state: DevBoxState, name: Seq<char>) -> Option<Seq<char>> {
    if state.tools.view().contains_key(name) {
        Some(name)
    } else {
        match first_renamed(state.tools.entry_seq(), name) {
            Some(i) => Some(state.tools.entry_seq()[i].name@),
            None => None,
        }
    }
}

/// The recorded tool a name refers to (see [`tool_referred_to`]).
pub fn find_tool(state: &DevBoxState, name: &str) -> (r: Option<String>)
    ensures
        match r {
            Some(k) => tool_referred_to(*state, name@) == Some(k@),
            None => tool_referred_to(*state, name@) is None,
        },
        r matches Some(k) ==> state.tools.view().contains_key(k@) && refers_to(
            k@,
            state.tools.view()[k@],
            name@,
        ),
{
    if state.tools.contains(name) {
        return Some(owned(name));
    }
    let entries = state.tools.entries();
    proof {
        lemma_first_renamed(entries@, name@);
    }
    let mut i: usize = 0;
    let mut found: Option<usize> = None;
    while i < entries.len()
        invariant_except_break
            found is None,
        invariant
            i <= entries@.len(),
            forall|j: int| 0 <= j < i ==> !((#[trigger] entries@[j]).value.renamed_to is Some
                && entries@[j].value.renamed_to->0@ == name@),
        ensures
            match found {
                Some(t) => t < entries@.len() && entries@[t as int].value.renamed_to is Some
                    && entries@[t as int].value.renamed_to->0@ == name@ && forall|j: int| 0 <= j < t ==> !((
                    #[trigger] entries@[j]).value.renamed_to is Some && entries@[j].value.renamed_to->0@ == name@),
                None => forall|j: int| 0 <= j < entries@.len() ==> !((#[trigger] entries@[j]).value.renamed_to is Some
                    && entries@[j].value.renamed_to->0@ == name@),
            },
        decreases entries@.len() - i,
    {
        let renamed = match &entries[i].value.renamed_to {
            Some(r) => str_eq(r.as_str(), name),
            None => false,
        };
        if renamed {
            found = Some(i);
            break;
        }
        i = i + 1;
    }
    match found {
        Some(t) => {
            proof {
                match first_renamed(entries@, name@) {
                    Some(u) => {
                        if u < t {
                            assert(!(entries@[u].value.renamed_to is Some && entries@[u].value.renamed_to->0@ == name@));
                        } else if u > t {
                            assert(!(entries@[t as int].value.renamed_to is Some
                                && entries@[t as int].value.renamed_to->0@ == name@));
                        }
                    },
                    None => {
                        assert(!(entries@[t as int].value.renamed_to is Some
                            && entries@[t as int].value.renamed_to->0@ == name@));
                    },
                }
                assert(state.tools.view().contains_key(entries@[t as int].name@));
            }
            Some(entries[t].name.clone())
        },
        None => {
            proof {
                match first_renamed(entries@, name@) {
                    Some(u) => {
                        assert(!(entries@[u].value.renamed_to is Some && entries@[u].value.renamed_to->0@ == name@));
                    },
                    None => {},
                }
            }
            None
        },
    }
}

/// Removes the tool `tool_name` refers to from the state, once its
/// uninstallation went as `uninstalled` says: the tool's record is dropped
/// and the summary says it was removed; a failed uninstallation leaves the
/// state as it was and records the reason; a name that refers to no tool
/// is reported not found.
pub fn remove_tool(state: &mut DevBoxState, tool_name: String, uninstalled: Result<(), String>) -> (r: RemovalSummary)
    ensures
        match tool_referred_to(*old(state), tool_name@) {
            None => final(state).tools.view() == old(state).tools.view() && r.not_found_items@ == seq![tool_name]
                && r.removed_tools@.len() == 0 && r.removed_fonts@.len() == 0 && r.failed_removals@.len() == 0,
            Some(k) => match uninstalled {
                Ok(_) => final(state).tools.view() == old(state).tools.view().remove(k) && r.removed_tools@
                    == seq![tool_name] && r.removed_fonts@.len() == 0 && r.not_found_items@.len() == 0
                    && r.failed_removals@.len() == 0,
                Err(reason) => final(state).tools.view() == old(state).tools.view() && r.failed_removals@
                    == seq![(tool_name, reason)] && r.removed_tools@.len() == 0 && r.removed_fonts@.len() == 0
                    && r.not_found_items@.len() == 0,
            },
        },
        (r.removed_tools@.len() > 0 || r.removed_fonts@.len() > 0) <==> (tool_referred_to(
            *old(state),
            tool_name@,
        ) is Some && uninstalled is Ok),
        final(state).fonts.view() == old(state).fonts.view(),
        final(state).settings.view() == old(state).settings.view(),
{
    let mut summary = RemovalSummary::new();
    match find_tool(state, tool_name.as_str()) {
        None => {
            summary.record(tool_name, "tool", RemovalResult::NotFound);
        },
        Some(key) => match uninstalled {
            Ok(_) => {
                state.tools.remove(key.as_str());
                summary.record(tool_name, "tool", RemovalResult::Removed);
            },
            Err(reason) => {
                summary.record(tool_name, "tool", RemovalResult::Failed(reason));
            },
        },
    }
    summary
}

/// Whether a file in the fonts directory belongs to a font being removed:
/// a `.ttf` file whose name contains the font's name.
pub open spec fn is_font_file_of(file_name: Seq<char>, font_name: Seq<char>) -> bool {
    crate::text::has_suffix(file_name, ".ttf"@) && crate::text::contains_seq(file_name, font_name)
}

/// Whether a file in the fonts directory is removed with the font (see
/// [`is_font_file_of`]).
pub fn font_file_to_remove(file_name: &str, font_name: &str) -> (r: bool)
    ensures
        r == is_font_file_of(file_name@, font_name@),
{
    crate::text::ends_with(file_name, ".ttf") && crate::text::contains_str(file_name, font_name)
}

/// Removes the font recorded under `font_name` from the state once its
/// uninstallation went as `uninstalled` says; a font with no record is
/// reported not found, a failed uninstallation leaves the state as it was.
pub fn remove_font(state: &mut DevBoxState, font_name: String, uninstalled: Result<(), String>) -> (r: RemovalSummary)
    ensures
        !old(state).fonts.view().contains_key(font_name@) ==> final(state).fonts.view() == old(state).fonts.view()
            && r.not_found_items@ == seq![font_name] && r.removed_fonts@.len() == 0
            && r.failed_removals@.len() == 0,
        old(state).fonts.view().contains_key(font_name@) ==> match uninstalled {
            Ok(_) => final(state).fonts.view() == old(state).fonts.view().remove(font_name@) && r.removed_fonts@
                == seq![font_name] && r.not_found_items@.len() == 0 && r.failed_removals@.len() == 0,
            Err(reason) => final(state).fonts.view() == old(state).fonts.view() && r.failed_removals@
                == seq![(font_name, reason)] && r.removed_fonts@.len() == 0 && r.not_found_items@.len() == 0,
        },
        r.removed_tools@.len() == 0,
        (r.removed_tools@.len() > 0 || r.removed_fonts@.len() > 0) <==> (old(state).fonts.view().contains_key(
            font_name@,
        ) && uninstalled is Ok),
        final(state).tools.view() == old(state).tools.view(),
        final(state).settings.view() == old(state).settings.view(),
{
    let mut summary = RemovalSummary::new();
    if !state.fonts.contains(font_name.as_str()) {
        summary.record(font_name, "font", RemovalResult::NotFound);
        return summary;
    }
    proof {
        reveal_strlit("font");
        reveal_strlit("tool");
        assert("font"@ != "tool"@) by {
            assert("font"@[0] != "tool"@[0]);
        }
    }
    match uninstalled {
        Ok(_) => {
            state.fonts.remove(font_name.as_str());
            summary.record(font_name, "font", RemovalResult::Removed);
        },
        Err(reason) => {
            summary.record(font_name, "font", RemovalResult::Failed(reason));
        },
    }
    summary
}

/// Removes the alias `alias_name` from the shell configuration document
/// (the first item of `aliases` named so); `Ok(true)` says it was there.
pub fn remove_alias(doc: &mut Yaml, alias_name: &str) -> (r: Result<bool, String>)
    ensures
        match section_items(old(doc).model(), "aliases"@) {
            None => final(doc).model() == old(doc).model() && (r matches Err(e) && e@ == missing_section_message(
                "aliases"@,
            )),
            Some(items) => {
                let u = removed_item(items, "name"@, alias_name@);
                &&& r == Ok::<bool, String>(u.1)
                &&& final(doc).model() == (if u.1 {
                    set_field(old(doc).model(), "aliases"@, YamlV::List(u.0))
                } else {
                    old(doc).model()
                })
            },
        },
{
    proof {
        reveal_strlit("aliases:");
        reveal_strlit("aliases");
        reveal_strlit("name:");
        reveal_strlit("name");
        assert(trim_colons("aliases"@) == "aliases"@);
        assert("aliases:"@.drop_last() =~= "aliases"@);
        assert(trim_colons("aliases:"@) == "aliases"@);
        assert(trim_colons("name"@) == "name"@);
        assert("name:"@.drop_last() =~= "name"@);
        assert(trim_colons("name:"@) == "name"@);
    }
    remove_list_item(doc, "aliases:", "name:", alias_name)
}

/// Removes the macOS setting for `domain` and `key` from the settings
/// document; `Ok(true)` says it was there.
pub fn remove_setting(doc: &mut Yaml, domain: &str, key: &str) -> (r: Result<bool, String>)
    ensures
        match macos_items(old(doc).model()) {
            None => final(doc).model() == old(doc).model() && (r matches Err(e) && e@ == missing_settings_message()),
            Some(items) => match first_setting(items, domain@, key@) {
                Some(i) => r == Ok::<bool, String>(true) && final(doc).model() == with_macos_items(
                    old(doc).model(),
                    items.remove(i),
                ),
                None => r == Ok::<bool, String>(false) && final(doc).model() == old(doc).model(),
            },
        },
{
    crate::config_doc::remove_setting(doc, domain, key)
}

/// How a setting is named in messages: `domain.key`.
pub fn setting_display_name(domain: &str, key: &str) -> (r: String)
    ensures
        r@ == domain@ + "."@ + key@,
{
    concat3(domain, ".", key)
}

} // verus!
