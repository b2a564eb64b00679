//! The application state (what `state.json` records) and resetting it.

use vstd::prelude::*;
use crate::model::{ToolState, FontState, SettingState};
use crate::store::Store;

verus! {

/// Everything recorded about installed tools, fonts and applied settings.
pub struct DevBoxState {
    pub tools: Store<ToolState>,
    pub fonts: Store<FontState>,
    pub settings: Store<SettingState>,
}

impl DevBoxState {
    /// A state with nothing recorded.
    pub fn new() -> (r: Self)
        ensures
            r.tools.view() == Map::<Seq<char>, ToolState>::empty(),
            r.fonts.view() == Map::<Seq<char>, FontState>::empty(),
            r.settings.view() == Map::<Seq<char>, SettingState>::empty(),
    {
        DevBoxState { tools: Store::new(), fonts: Store::new(), settings: Store::new() }
    }
}

/// What a reset did to the state.
#[derive(Clone, Copy, Debug, PartialEq, Eq, Structural)]
pub enum ResetOutcome {
    /// Every record was removed; the state must be saved.
    Wiped,
    /// The named tool's record was removed; the state must be saved.
    ToolRemoved,
    /// The named tool had no record; nothing changed.
    ToolNotFound,
    /// Neither `--all` nor a tool was asked for; nothing changed.
    NothingRequested,
}

/// Wipes every record from the state.
pub fn reset_all(state: &mut DevBoxState)
    ensures
        final(state).tools.view() == Map::<Seq<char>, ToolState>::empty(),
        final(state).fonts.view() == Map::<Seq<char>, FontState>::empty(),
        final(state).settings.view() == Map::<Seq<char>, SettingState>::empty(),
{
    state.tools.clear();
    state.fonts.clear();
    state.settings.clear();
}

/// Removes one tool's record; tells whether it had one.
pub fn reset_tool(state: &mut DevBoxState, tool_name: &str) -> (r: bool)
    ensures
        r == old(state).tools.view().contains_key(tool_name@),
        final(state).tools.view() == old(state).tools.view().remove(tool_name@),
        final(state).fonts.view() == old(state).fonts.view(),
        final(state).settings.view() == old(state).settings.view(),
{
    state.tools.remove(tool_name)
}

/// Resets the loaded state as the `reset` command asks: everything with
/// `all`, else the named tool, else nothing.
pub fn run(state: &mut DevBoxState, tool: Option<String>, all: bool) -> (r: ResetOutcome)
    ensures
        all ==> r == ResetOutcome::Wiped && final(state).tools.view().dom().len() == 0
            && final(state).fonts.view().dom().len() == 0 && final(state).settings.view().dom().len() == 0,
        !all && tool is Some ==> {
            &&& final(state).tools.view() == old(state).tools.view().remove(tool->0@)
            &&& final(state).fonts.view() == old(state).fonts.view()
            &&& final(state).settings.view() == old(state).settings.view()
            &&& r == (if old(state).tools.view().contains_key(tool->0@) {
                ResetOutcome::ToolRemoved
            } else {
                ResetOutcome::ToolNotFound
            })
        },
        !all && tool is None ==> r == ResetOutcome::NothingRequested && final(state).tools.view()
            == old(state).tools.view() && final(state).fonts.view() == old(state).fonts.view()
            && final(state).settings.view() == old(state).settings.view(),
{
    if all {
        reset_all(state);
        proof {
            assert(Map::<Seq<char>, ToolState>::empty().dom() =~= Set::empty());
            assert(Map::<Seq<char>, FontState>::empty().dom() =~= Set::empty());
            assert(Map::<Seq<char>, SettingState>::empty().dom() =~= Set::empty());
        }
        ResetOutcome::Wiped
    } else {
        match tool {
            Some(name) => {
                if reset_tool(state, name.as_str()) {
                    ResetOutcome::ToolRemoved
                } else {
                    ResetOutcome::ToolNotFound
                }
            },
            None => ResetOutcome::NothingRequested,
        }
    }
}

/// After resetting a tool, the state holds no record of it, and every other
/// tool's record is as it was.
pub proof fn law_reset_tool_forgets_only_that_tool(
    before: Map<Seq<char>, ToolState>,
    name: Seq<char>,
    other: Seq<char>,
)
    requires
        other != name,
    ensures
        !before.remove(name).contains_key(name),
        before.remove(name).contains_key(other) == before.contains_key(other),
        before.contains_key(other) ==> before.remove(name)[other] == before[other],
{
}

} // verus!
