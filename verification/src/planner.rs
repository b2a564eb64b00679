//! Deciding what to do with each configured tool: install it, update it,
//! refresh only its managed configuration, or leave it alone. The update
//! policy treats "latest" (and rustup's `stable`/`nightly`) specially: such
//! tools are updated only when their last update is older than a threshold,
//! unless an update of all such tools is forced.

use vstd::prelude::*;
use crate::model::{ToolEntry, ToolState};
use crate::text::{contains_seq, contains_str, str_eq, strip_prefix, has_prefix, has_suffix, ends_with, owned, concat2, concat3};
use crate::timestamps::{
    SdbDuration, Instant, timestamp_older_than, time_since_text, duration_text, now_utc,
    is_timestamp_older_than_at, time_since_at, format_duration,
};

verus! {

/// How the update policy is applied in one run.
pub struct InstallationConfiguration {
    pub update_threshold_duration: SdbDuration,
    pub force_update_enabled: bool,
    pub dry_run: bool,
}

impl InstallationConfiguration {
    /// The policy of a run: with `force_update` the threshold is zero;
    /// otherwise it is the configured `update_latest_only_after`, or zero.
    pub fn new(update_latest_only_after: Option<SdbDuration>, force_update: bool, dry_run: bool) -> (r: Self)
        ensures
            r.force_update_enabled == force_update,
            r.dry_run == dry_run,
            r.update_threshold_duration.secs == (if force_update {
                0
            } else {
                match update_latest_only_after {
                    Some(d) => d.secs,
                    None => 0,
                }
            }),
    {
        let threshold = if force_update {
            SdbDuration { secs: 0 }
        } else {
            match update_latest_only_after {
                Some(d) => d,
                None => SdbDuration { secs: 0 },
            }
        };
        InstallationConfiguration {
            update_threshold_duration: threshold,
            force_update_enabled: force_update,
            dry_run,
        }
    }
}

/// The outcome of evaluating a tool's managed configuration files.
#[derive(Debug, Clone, PartialEq)]
pub struct ConfigurationEvaluationResult {
    pub needs_update: bool,
    pub current_source_sha: String,
    pub current_destination_sha: Option<String>,
    pub reason: Option<String>,
}

/// Whether the tool's version needs updating.
#[derive(Debug, Clone, PartialEq)]
pub enum VersionAction {
    Update,
    Skip(String),
}

/// Whether the tool's managed configuration needs updating.
#[derive(Debug, Clone, PartialEq)]
pub enum ConfigurationAction {
    Update,
    Skip(String),
}

/// What is to be done with a tool.
#[derive(Debug, Clone, PartialEq)]
pub enum ToolAction {
    Install,
    Update,
    UpdateConfigurationOnly,
    Skip(String),
    SkipConfigurationOnly(String),
}

/// A tool action with its reasons read as character sequences.
pub enum ToolActionView {
    Install,
    Update,
    UpdateConfigurationOnly,
    Skip(Seq<char>),
    SkipConfigurationOnly(Seq<char>),
}

impl View for ToolAction {
    type V = ToolActionView;

    open spec fn view(&self) -> ToolActionView {
        match self {
            ToolAction::Install => ToolActionView::Install,
            ToolAction::Update => ToolActionView::Update,
            ToolAction::UpdateConfigurationOnly => ToolActionView::UpdateConfigurationOnly,
            ToolAction::Skip(s) => ToolActionView::Skip(s@),
            ToolAction::SkipConfigurationOnly(s) => ToolActionView::SkipConfigurationOnly(s@),
        }
    }
}

/// A version or configuration decision read as its skip reason: `None`
/// means update.
pub open spec fn version_action_view(a: VersionAction) -> Option<Seq<char>> {
    match a {
        VersionAction::Update => None,
        VersionAction::Skip(s) => Some(s@),
    }
}

/// See [`version_action_view`].
pub open spec fn configuration_action_view(a: ConfigurationAction) -> Option<Seq<char>> {
    match a {
        ConfigurationAction::Update => None,
        ConfigurationAction::Skip(s) => Some(s@),
    }
}

/// A version without one leading `v`.
pub open spec fn normalized_version(v: Seq<char>) -> Seq<char> {
    if has_prefix(v, "v"@) {
        v.subrange(1, v.len() as int)
    } else {
        v
    }
}

/// Whether the tool is handled by the "latest" policy: no version or
/// `latest` requested, or an installed version that is `latest` or a rustup
/// channel (`stable`, `nightly`).
pub open spec fn latest_scenario(tool_version: Option<Seq<char>>, state_version: Seq<char>) -> bool {
    let requested = match tool_version {
        Some(v) => v,
        None => "latest"@,
    };
    requested == "latest"@ || state_version == "latest"@ || contains_seq(state_version, "stable"@)
        || contains_seq(state_version, "nightly"@)
}

/// Whether the tool's last update lies within the threshold at `now`.
pub open spec fn updated_recently(last_updated: Option<Seq<char>>, d: SdbDuration, now: Instant) -> bool {
    match last_updated {
        Some(ts) => !timestamp_older_than(ts, d, now),
        None => false,
    }
}

/// The version decision: `None` to update, `Some(reason)` to skip.
pub open spec fn version_decision(
    tool_version: Option<Seq<char>>,
    state_version: Seq<char>,
    last_updated: Option<Seq<char>>,
    threshold: SdbDuration,
    force: bool,
    now: Instant,
) -> Option<Seq<char>> {
    let latest = latest_scenario(tool_version, state_version);
    if latest && !force && updated_recently(last_updated, threshold, now) {
        let since = match time_since_text(last_updated->0, now) {
            Some(t) => t,
            None => "recently"@,
        };
        Some(
            "[SDB::Tools] Version 'latest' updated "@ + since + " (within "@ + duration_text(threshold)
                + " threshold)"@,
        )
    } else if latest && !force {
        None
    } else {
        match tool_version {
            Some(req) => {
                if req != "latest"@ && normalized_version(state_version) == normalized_version(req) {
                    Some("[SDB::Tools] specified version already installed"@)
                } else {
                    None
                }
            },
            None => None,
        }
    }
}

/// The configuration decision an evaluation leads to: `None` to update,
/// `Some(reason)` to skip. A failed evaluation leads to an update.
pub open spec fn configuration_decision(eval_needs_update: bool, eval_reason: Option<Seq<char>>) -> Option<Seq<char>> {
    if eval_needs_update {
        None
    } else {
        match eval_reason {
            Some(r) => Some(r),
            None => Some("[SDB::Tools::Configuration] Configuration up-to-date"@),
        }
    }
}

/// Whether a configuration skip reason says the configuration was evaluated
/// and found up to date (rather than, say, disabled): it ends with
/// `up-to-date`.
pub open spec fn evaluated_up_to_date(reason: Seq<char>) -> bool {
    has_suffix(reason, "up-to-date"@)
}

/// How the two decisions combine into one tool action.
pub open spec fn combined_action(version: Option<Seq<char>>, config: Option<Seq<char>>) -> ToolActionView {
    match version {
        None => ToolActionView::Update,
        Some(v) => match config {
            None => ToolActionView::UpdateConfigurationOnly,
            Some(c) => if evaluated_up_to_date(c) {
                ToolActionView::SkipConfigurationOnly(v + ", "@ + c)
            } else {
                ToolActionView::Skip(v)
            },
        },
    }
}

/// The version requested in a tool entry, as a character sequence.
pub open spec fn opt_view(o: Option<String>) -> Option<Seq<char>> {
    match o {
        Some(s) => Some(s@),
        None => None,
    }
}

/// Decides the actions for tools under one installation configuration.
pub struct InstallationPlanner<'a> {
    pub configuration: &'a InstallationConfiguration,
}

impl<'a> InstallationPlanner<'a> {
    /// A planner for the given configuration.
    pub fn new(configuration: &'a InstallationConfiguration) -> (r: Self)
        ensures
            r.configuration == configuration,
    {
        InstallationPlanner { configuration }
    }

    /// The version decision for the given tool and recorded state at `now`.
    pub open spec fn version_spec(&self, tool: &ToolEntry, state: &ToolState, now: Instant) -> Option<Seq<char>> {
        version_decision(
            opt_view(tool.version),
            state.version@,
            opt_view(state.last_updated),
            self.configuration.update_threshold_duration,
            self.configuration.force_update_enabled,
            now,
        )
    }

    /// Analyses whether the tool's version needs updating at `now`.
    pub fn analyze_version_requirements(&self, tool: &ToolEntry, current_state: &ToolState, now: Instant) -> (r: VersionAction)
        ensures
            version_action_view(r) == self.version_spec(tool, current_state, now),
    {
        let requested_is_latest = match &tool.version {
            Some(v) => str_eq(v.as_str(), "latest"),
            None => true,
        };
        proof {
            reveal_strlit("latest");
        }
        let sv = current_state.version.as_str();
        let is_latest = requested_is_latest || str_eq(sv, "latest") || contains_str(sv, "stable")
            || contains_str(sv, "nightly");
        let threshold = &self.configuration.update_threshold_duration;
        let force = self.configuration.force_update_enabled;
        let recent = match &current_state.last_updated {
            Some(ts) => !is_timestamp_older_than_at(ts.as_str(), threshold, now),
            None => false,
        };
        if is_latest && !force && recent {
            let ts = current_state.last_updated.as_ref().unwrap();
            let since = match time_since_at(ts.as_str(), now) {
                Some(t) => t,
                None => owned("recently"),
            };
            let threshold_description = format_duration(threshold);
            let a = concat3("[SDB::Tools] Version 'latest' updated ", since.as_str(), " (within ");
            let msg = concat3(a.as_str(), threshold_description.as_str(), " threshold)");
            return VersionAction::Skip(msg);
        }
        if is_latest && !force {
            return VersionAction::Update;
        }
        match &tool.version {
            Some(required) => {
                let nr = normalize_version(required.as_str());
                let nc = normalize_version(sv);
                if !str_eq(required.as_str(), "latest") && str_eq(nc.as_str(), nr.as_str()) {
                    return VersionAction::Skip(owned("[SDB::Tools] specified version already installed"));
                }
            },
            None => {},
        }
        VersionAction::Update
    }

    /// Combines the version and configuration decisions into one tool action.
    pub fn combine_actions(&self, version_action: VersionAction, config_action: ConfigurationAction) -> (r: ToolAction)
        ensures
            r@ == combined_action(version_action_view(version_action), configuration_action_view(config_action)),
    {
        match version_action {
            VersionAction::Update => ToolAction::Update,
            VersionAction::Skip(version_reason) => match config_action {
                ConfigurationAction::Update => ToolAction::UpdateConfigurationOnly,
                ConfigurationAction::Skip(config_reason) => {
                    if ends_with(config_reason.as_str(), "up-to-date") {
                        let a = concat3(version_reason.as_str(), ", ", config_reason.as_str());
                        ToolAction::SkipConfigurationOnly(a)
                    } else {
                        ToolAction::Skip(version_reason)
                    }
                },
            },
        }
    }

    /// The action for a tool given its recorded state, the evaluation of its
    /// managed configuration (or the error that evaluation met) and the
    /// instant `now`; also the evaluation the action rests on.
    pub fn determine_required_action_at(
        &self,
        tool: &ToolEntry,
        current_state: Option<&ToolState>,
        evaluation: Result<ConfigurationEvaluationResult, String>,
        now: Instant,
    ) -> (r: (ToolAction, Option<ConfigurationEvaluationResult>))
        ensures
            match current_state {
                None => r.0@ == ToolActionView::Install && r.1 is None,
                Some(state) => {
                    &&& r.1 is Some
                    &&& match evaluation {
                        Ok(e) => r.1 == Some(e),
                        Err(msg) => {
                            &&& r.1->0.needs_update
                            &&& r.1->0.current_source_sha@ == Seq::<char>::empty()
                            &&& r.1->0.current_destination_sha is None
                            &&& opt_view(r.1->0.reason) == Some("[SDB::Tools] Evaluation error: "@ + msg@)
                        },
                    }
                    &&& r.0@ == combined_action(
                        self.version_spec(tool, state, now),
                        configuration_decision(r.1->0.needs_update, opt_view(r.1->0.reason)),
                    )
                },
            },
    {
        match current_state {
            None => (ToolAction::Install, None),
            Some(state) => {
                let version_action = self.analyze_version_requirements(tool, state, now);
                let eval = match evaluation {
                    Ok(e) => e,
                    Err(msg) => ConfigurationEvaluationResult {
                        needs_update: true,
                        current_source_sha: String::new(),
                        current_destination_sha: None,
                        reason: Some(concat2("[SDB::Tools] Evaluation error: ", msg.as_str())),
                    },
                };
                let config_action = if eval.needs_update {
                    ConfigurationAction::Update
                } else {
                    match &eval.reason {
                        Some(r) => ConfigurationAction::Skip(r.clone()),
                        None => ConfigurationAction::Skip(
                            owned("[SDB::Tools::Configuration] Configuration up-to-date"),
                        ),
                    }
                };
                let action = self.combine_actions(version_action, config_action);
                (action, Some(eval))
            },
        }
    }

    /// The action for a tool at the current time of the system clock.
    pub fn determine_required_action(
        &self,
        tool: &ToolEntry,
        current_state: Option<&ToolState>,
        evaluation: Result<ConfigurationEvaluationResult, String>,
    ) -> (r: (ToolAction, Option<ConfigurationEvaluationResult>))
        ensures
            current_state is None ==> r.0@ == ToolActionView::Install && r.1 is None,
            current_state is Some ==> r.1 is Some,
            current_state is Some ==> match evaluation {
                Ok(e) => r.1 == Some(e),
                Err(msg) => {
                    &&& r.1->0.needs_update
                    &&& r.1->0.current_source_sha@ == Seq::<char>::empty()
                    &&& r.1->0.current_destination_sha is None
                    &&& opt_view(r.1->0.reason) == Some("[SDB::Tools] Evaluation error: "@ + msg@)
                },
            },
            current_state is Some ==> exists|now: Instant|
                r.0@ == combined_action(
                    self.version_spec(tool, current_state->0, now),
                    configuration_decision(r.1->0.needs_update, opt_view(r.1->0.reason)),
                ),
    {
        let now = now_utc();
        self.determine_required_action_at(tool, current_state, evaluation, now)
    }
}

/// A version without one leading `v`.
pub fn normalize_version(version: &str) -> (r: String)
    ensures
        r@ == normalized_version(version@),
{
    proof {
        reveal_strlit("v");
    }
    match strip_prefix(version, "v") {
        Some(rest) => rest,
        None => owned(version),
    }
}

/// A tool with an explicit version (not "latest") whose installed version is
/// neither "latest" nor a rustup channel, and differs from it after dropping
/// a leading `v`, is updated, whatever its configuration needs.
pub proof fn law_changed_specific_version_is_updated(
    req: Seq<char>,
    installed: Seq<char>,
    last_updated: Option<Seq<char>>,
    threshold: SdbDuration,
    force: bool,
    now: Instant,
    config: Option<Seq<char>>,
)
    requires
        req != "latest"@,
        !latest_scenario(Some(req), installed),
        normalized_version(installed) != normalized_version(req),
    ensures
        version_decision(Some(req), installed, last_updated, threshold, force, now) is None,
        combined_action(version_decision(Some(req), installed, last_updated, threshold, force, now), config)
            == ToolActionView::Update,
{
}

/// A tool under the "latest" policy whose last update lies within the
/// threshold is not updated unless updates are forced: its version is
/// skipped, so at most its configuration is refreshed.
pub proof fn law_recent_latest_is_not_updated(
    tool_version: Option<Seq<char>>,
    installed: Seq<char>,
    last_updated: Option<Seq<char>>,
    threshold: SdbDuration,
    now: Instant,
    config: Option<Seq<char>>,
)
    requires
        latest_scenario(tool_version, installed),
        updated_recently(last_updated, threshold, now),
    ensures
        version_decision(tool_version, installed, last_updated, threshold, false, now) is Some,
        combined_action(version_decision(tool_version, installed, last_updated, threshold, false, now), config)
            != ToolActionView::Update,
        combined_action(version_decision(tool_version, installed, last_updated, threshold, false, now), config)
            != ToolActionView::Install,
{
}

/// A tool under the "latest" policy that was never updated, or whose last
/// update is older than the threshold, is updated.
pub proof fn law_stale_latest_is_updated(
    tool_version: Option<Seq<char>>,
    installed: Seq<char>,
    last_updated: Option<Seq<char>>,
    threshold: SdbDuration,
    now: Instant,
    config: Option<Seq<char>>,
)
    requires
        latest_scenario(tool_version, installed),
        !updated_recently(last_updated, threshold, now),
    ensures
        combined_action(version_decision(tool_version, installed, last_updated, threshold, false, now), config)
            == ToolActionView::Update,
{
}

/// Forcing updates updates every tool that asks for "latest", and every
/// tool that names no version (which counts as "latest").
pub proof fn law_forced_latest_is_updated(
    tool_version: Option<Seq<char>>,
    installed: Seq<char>,
    last_updated: Option<Seq<char>>,
    threshold: SdbDuration,
    now: Instant,
    config: Option<Seq<char>>,
)
    requires
        tool_version is None || tool_version == Some("latest"@),
    ensures
        combined_action(version_decision(tool_version, installed, last_updated, threshold, true, now), config)
            == ToolActionView::Update,
{
}

/// A tool without a version is handled by the "latest" policy.
pub proof fn law_unversioned_is_latest(installed: Seq<char>)
    ensures
        latest_scenario(None, installed),
{
}

/// A tool whose explicit version is already installed (up to a leading `v`)
/// is not updated, unless the "latest" policy applies to it.
pub proof fn law_installed_specific_version_is_kept(
    req: Seq<char>,
    installed: Seq<char>,
    last_updated: Option<Seq<char>>,
    threshold: SdbDuration,
    force: bool,
    now: Instant,
)
    requires
        req != "latest"@,
        !latest_scenario(Some(req), installed),
        normalized_version(installed) == normalized_version(req),
    ensures
        version_decision(Some(req), installed, last_updated, threshold, force, now)
            == Some("[SDB::Tools] specified version already installed"@),
{
}


/// A managed configuration that needs updating is always re-applied: when
/// the evaluation says `needs_update`, a tool whose version is skipped gets
/// `UpdateConfigurationOnly`, whatever reason the evaluation gives, and a
/// tool whose version is updated gets the full `Update`.
pub proof fn law_changed_configuration_is_reapplied(version: Option<Seq<char>>, reason: Option<Seq<char>>)
    ensures
        version is Some ==> combined_action(version, configuration_decision(true, reason))
            == ToolActionView::UpdateConfigurationOnly,
        version is None ==> combined_action(version, configuration_decision(true, reason)) == ToolActionView::Update,
{
}

} // verus!
