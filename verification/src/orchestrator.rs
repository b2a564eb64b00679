//! The installation pipeline's decisions: which installer serves a source,
//! which command must be present for it, what an action amounts to (also in
//! a dry run), and how an installer's outcome is recorded in the state.

use vstd::prelude::*;
use crate::model::{SourceType, ToolEntry, ToolState, ConfigurationManagerState, source_name};
use crate::planner::{ToolAction, ToolActionView, InstallationPlanner, ConfigurationEvaluationResult, combined_action,
    configuration_decision};
use crate::planner::opt_view as planner_opt_view;
use crate::timestamps::Instant;
use crate::store::Store;
use crate::text::{concat2, concat3, owned, copy_strings, copy_opt_strings};

verus! {

/// Why an installer failed.
#[derive(Debug, Clone, PartialEq)]
pub enum InstallerError {
    PlatformDetectionFailed,
    ConfigurationError(String),
    NetworkError(String),
    DownloadFailed(String),
    InstallationFailed(String),
    ValidationFailed(String),
    CommandFailed(String),
    VersionDetectionFailed(String),
    IoError(String),
}

/// The message of an installer error (what its `Display` shows).
pub open spec fn installer_error_text(e: InstallerError) -> Seq<char> {
    match e {
        InstallerError::PlatformDetectionFailed => "Platform detection failed"@,
        InstallerError::ConfigurationError(s) => "Configuration error: "@ + s@,
        InstallerError::NetworkError(s) => "Network error: "@ + s@,
        InstallerError::DownloadFailed(s) => "Download failed: "@ + s@,
        InstallerError::InstallationFailed(s) => "Installation failed: "@ + s@,
        InstallerError::ValidationFailed(s) => "Validation failed: "@ + s@,
        InstallerError::CommandFailed(s) => "Command execution failed: "@ + s@,
        InstallerError::VersionDetectionFailed(s) => "Version detection failed: "@ + s@,
        InstallerError::IoError(s) => "IO error: "@ + s@,
    }
}

impl InstallerError {
    /// The error's message.
    pub fn message(&self) -> (r: String)
        ensures
            r@ == installer_error_text(*self),
    {
        match self {
            InstallerError::PlatformDetectionFailed => owned("Platform detection failed"),
            InstallerError::ConfigurationError(s) => concat2("Configuration error: ", s.as_str()),
            InstallerError::NetworkError(s) => concat2("Network error: ", s.as_str()),
            InstallerError::DownloadFailed(s) => concat2("Download failed: ", s.as_str()),
            InstallerError::InstallationFailed(s) => concat2("Installation failed: ", s.as_str()),
            InstallerError::ValidationFailed(s) => concat2("Validation failed: ", s.as_str()),
            InstallerError::CommandFailed(s) => concat2("Command execution failed: ", s.as_str()),
            InstallerError::VersionDetectionFailed(s) => concat2("Version detection failed: ", s.as_str()),
            InstallerError::IoError(s) => concat2("IO error: ", s.as_str()),
        }
    }
}

/// The outcome of processing one tool.
#[derive(Debug, Clone, PartialEq)]
pub enum ToolProcessingResult {
    Installed,
    Updated,
    ConfigurationUpdated,
    Skipped(String),
    ConfigurationSkipped(String),
    Failed(String),
    DryRun(String),
}

/// A processing outcome with its message read as a character sequence.
pub enum ProcessingView {
    Installed,
    Updated,
    ConfigurationUpdated,
    Skipped(Seq<char>),
    ConfigurationSkipped(Seq<char>),
    Failed(Seq<char>),
    DryRun(Seq<char>),
}

impl View for ToolProcessingResult {
    type V = ProcessingView;

    open spec fn view(&self) -> ProcessingView {
        match self {
            ToolProcessingResult::Installed => ProcessingView::Installed,
            ToolProcessingResult::Updated => ProcessingView::Updated,
            ToolProcessingResult::ConfigurationUpdated => ProcessingView::ConfigurationUpdated,
            ToolProcessingResult::Skipped(s) => ProcessingView::Skipped(s@),
            ToolProcessingResult::ConfigurationSkipped(s) => ProcessingView::ConfigurationSkipped(s@),
            ToolProcessingResult::Failed(s) => ProcessingView::Failed(s@),
            ToolProcessingResult::DryRun(s) => ProcessingView::DryRun(s@),
        }
    }
}

/// The installer implementations a source can be served by.
#[derive(Clone, Copy, Debug, PartialEq, Eq, Structural)]
pub enum InstallerKind {
    GitHub,
    Brew,
    Go,
    Cargo,
    Rustup,
    Pip,
    Uv,
    Url,
}

/// The installer that serves a source.
pub open spec fn installer_for(s: SourceType) -> InstallerKind {
    match s {
        SourceType::Github => InstallerKind::GitHub,
        SourceType::Brew => InstallerKind::Brew,
        SourceType::Go => InstallerKind::Go,
        SourceType::Cargo => InstallerKind::Cargo,
        SourceType::Rustup => InstallerKind::Rustup,
        SourceType::Pip => InstallerKind::Pip,
        SourceType::Uv => InstallerKind::Uv,
        SourceType::Url => InstallerKind::Url,
    }
}

fn installer_for_exec(s: SourceType) -> (r: InstallerKind)
    ensures
        r == installer_for(s),
{
    match s {
        SourceType::Github => InstallerKind::GitHub,
        SourceType::Brew => InstallerKind::Brew,
        SourceType::Go => InstallerKind::Go,
        SourceType::Cargo => InstallerKind::Cargo,
        SourceType::Rustup => InstallerKind::Rustup,
        SourceType::Pip => InstallerKind::Pip,
        SourceType::Uv => InstallerKind::Uv,
        SourceType::Url => InstallerKind::Url,
    }
}

/// The registry of installers, one per registered source type.
pub struct InstallerFactory {
    registered: Vec<SourceType>,
}

impl InstallerFactory {
    /// The source types with a registered installer.
    pub closed spec fn registered_sources(&self) -> Set<SourceType> {
        self.registered@.to_set()
    }

    /// A registry with every installer registered.
    pub fn new() -> (r: Self)
        ensures
            forall|s: SourceType| #[trigger] r.registered_sources().contains(s),
    {
        let mut registered: Vec<SourceType> = Vec::new();
        registered.push(SourceType::Github);
        registered.push(SourceType::Brew);
        registered.push(SourceType::Go);
        registered.push(SourceType::Cargo);
        registered.push(SourceType::Rustup);
        registered.push(SourceType::Pip);
        registered.push(SourceType::Uv);
        registered.push(SourceType::Url);
        let r = InstallerFactory { registered };
        assert forall|s: SourceType| #[trigger] r.registered_sources().contains(s) by {
            match s {
                SourceType::Github => assert(r.registered@[0] == s),
                SourceType::Brew => assert(r.registered@[1] == s),
                SourceType::Go => assert(r.registered@[2] == s),
                SourceType::Cargo => assert(r.registered@[3] == s),
                SourceType::Rustup => assert(r.registered@[4] == s),
                SourceType::Pip => assert(r.registered@[5] == s),
                SourceType::Uv => assert(r.registered@[6] == s),
                SourceType::Url => assert(r.registered@[7] == s),
            }
        }
        r
    }

    /// The installer registered for a source type.
    pub fn get_installer(&self, source_type: &SourceType) -> (r: Option<InstallerKind>)
        ensures
            self.registered_sources().contains(*source_type) ==> r == Some(installer_for(*source_type)),
            !self.registered_sources().contains(*source_type) ==> r is None,
    {
        let mut i: usize = 0;
        while i < self.registered.len()
            invariant
                i <= self.registered@.len(),
                forall|j: int| 0 <= j < i ==> self.registered@[j] != *source_type,
            decreases self.registered@.len() - i,
        {
            if self.registered[i] == *source_type {
                assert(self.registered@.contains(*source_type));
                return Some(installer_for_exec(*source_type));
            }
            i = i + 1;
        }
        None
    }
}

/// Every source type has an installer in a fresh registry.
pub proof fn law_every_source_has_an_installer(f: InstallerFactory, s: SourceType)
    requires
        forall|t: SourceType| #[trigger] f.registered_sources().contains(t),
    ensures
        f.registered_sources().contains(s),
{
}

/// The command that must be available before a source's installer runs.
pub open spec fn required_command(source: SourceType) -> Option<Seq<char>> {
    match source {
        SourceType::Brew => Some("brew"@),
        SourceType::Go => Some("go"@),
        SourceType::Cargo => Some("cargo"@),
        SourceType::Rustup => Some("rustup"@),
        SourceType::Pip => Some("pip3"@),
        SourceType::Uv => Some("uv"@),
        _ => None,
    }
}

/// The command that must be available before the tool's installer runs.
pub fn installer_command(source: SourceType) -> (r: Option<&'static str>)
    ensures
        match r {
            Some(c) => required_command(source) == Some(c@),
            None => required_command(source) is None,
        },
{
    match source {
        SourceType::Brew => Some("brew"),
        SourceType::Go => Some("go"),
        SourceType::Cargo => Some("cargo"),
        SourceType::Rustup => Some("rustup"),
        SourceType::Pip => Some("pip3"),
        SourceType::Uv => Some("uv"),
        _ => None,
    }
}

/// The failure reported when the installer command is unavailable.
pub fn unavailable_installer_message(cmd: &str, error: &str) -> (r: String)
    ensures
        r@ == "[SDB::Tools] Installer '"@ + cmd@ + "' not available: "@ + error@,
{
    let a = concat3("[SDB::Tools] Installer '", cmd, "' not available: ");
    concat2(a.as_str(), error)
}

/// Whether an installer run installs or updates.
#[derive(Clone, Copy, Debug, PartialEq, Eq, Structural)]
pub enum Operation {
    Installing,
    Updating,
}

/// What an action amounts to: a finished outcome, an installer run, or a
/// refresh of the managed configuration.
#[derive(Debug, Clone, PartialEq)]
pub enum ActionStep {
    Finished(ToolProcessingResult),
    RunInstaller(Operation),
    UpdateConfiguration,
}

/// The dry-run description of an action on a tool.
pub open spec fn dry_run_text(action: ToolActionView, name: Seq<char>, source: SourceType) -> Seq<char> {
    match action {
        ToolActionView::Skip(r) => "Would skip: "@ + r,
        ToolActionView::SkipConfigurationOnly(r) => "Would skip configuration: "@ + r,
        ToolActionView::Install => "Would install "@ + name + " using "@ + source_name(source),
        ToolActionView::Update => "Would update "@ + name + " using "@ + source_name(source),
        ToolActionView::UpdateConfigurationOnly => "Would update configuration for "@ + name,
    }
}

/// What carrying out `action` on `tool` amounts to; in a dry run, only a
/// description of it.
pub fn execute_action(tool: &ToolEntry, action: ToolAction, dry_run: bool) -> (r: ActionStep)
    ensures
        dry_run ==> (r matches ActionStep::Finished(p) && p@ == ProcessingView::DryRun(
            dry_run_text(action@, tool.name@, tool.source),
        )),
        !dry_run ==> match action@ {
            ToolActionView::Skip(m) => r matches ActionStep::Finished(p) && p@ == ProcessingView::Skipped(m),
            ToolActionView::SkipConfigurationOnly(m) => r matches ActionStep::Finished(p) && p@
                == ProcessingView::ConfigurationSkipped(m),
            ToolActionView::Install => r == ActionStep::RunInstaller(Operation::Installing),
            ToolActionView::Update => r == ActionStep::RunInstaller(Operation::Updating),
            ToolActionView::UpdateConfigurationOnly => r == ActionStep::UpdateConfiguration,
        },
{
    if dry_run {
        let name = tool.name.as_str();
        let msg = match action {
            ToolAction::Skip(reason) => concat2("Would skip: ", reason.as_str()),
            ToolAction::SkipConfigurationOnly(reason) => concat2("Would skip configuration: ", reason.as_str()),
            ToolAction::Install => {
                let a = concat3("Would install ", name, " using ");
                concat2(a.as_str(), tool.source.as_str())
            },
            ToolAction::Update => {
                let a = concat3("Would update ", name, " using ");
                concat2(a.as_str(), tool.source.as_str())
            },
            ToolAction::UpdateConfigurationOnly => concat2("Would update configuration for ", name),
        };
        return ActionStep::Finished(ToolProcessingResult::DryRun(msg));
    }
    match action {
        ToolAction::Skip(reason) => ActionStep::Finished(ToolProcessingResult::Skipped(reason)),
        ToolAction::SkipConfigurationOnly(reason) => ActionStep::Finished(
            ToolProcessingResult::ConfigurationSkipped(reason),
        ),
        ToolAction::Install => ActionStep::RunInstaller(Operation::Installing),
        ToolAction::Update => ActionStep::RunInstaller(Operation::Updating),
        ToolAction::UpdateConfigurationOnly => ActionStep::UpdateConfiguration,
    }
}

/// The word an operation is described by.
pub open spec fn operation_text(op: Operation) -> Seq<char> {
    match op {
        Operation::Installing => "Installing"@,
        Operation::Updating => "Updating"@,
    }
}

/// An optional list of strings by its contents.
pub open spec fn opt_list_view(o: Option<Vec<String>>) -> Option<Seq<String>> {
    match o {
        Some(v) => Some(v@),
        None => None,
    }
}

/// A configuration-manager record by its contents.
pub open spec fn manager_view(c: Option<ConfigurationManagerState>) -> Option<(bool, Seq<String>, String, String)> {
    match c {
        Some(m) => Some(
            (m.enabled, m.tools_configuration_paths@, m.source_configuration_sha, m.destination_configuration_sha),
        ),
        None => None,
    }
}

/// Whether two tool states record the same things.
pub open spec fn same_state(a: ToolState, b: ToolState) -> bool {
    &&& a.version == b.version
    &&& a.install_path == b.install_path
    &&& a.installed_by_devbox == b.installed_by_devbox
    &&& a.install_method == b.install_method
    &&& a.renamed_to == b.renamed_to
    &&& a.package_type == b.package_type
    &&& a.repo == b.repo
    &&& a.tag == b.tag
    &&& opt_list_view(a.options) == opt_list_view(b.options)
    &&& a.url == b.url
    &&& a.last_updated == b.last_updated
    &&& a.executable_path_after_extract == b.executable_path_after_extract
    &&& opt_list_view(a.executed_post_installation_hooks) == opt_list_view(b.executed_post_installation_hooks)
    &&& manager_view(a.configuration_manager) == manager_view(b.configuration_manager)
}

/// A tool state with its configuration-manager record replaced when a new
/// one was produced.
pub open spec fn with_configuration(s: ToolState, c: Option<ConfigurationManagerState>) -> ToolState {
    match c {
        Some(m) => ToolState { configuration_manager: Some(m), ..s },
        None => s,
    }
}

/// Sets a tool state's configuration-manager record when a new one was
/// produced; leaves it as it was otherwise.
pub fn apply_configuration_state(tool_state: &mut ToolState, new_state: Option<ConfigurationManagerState>)
    ensures
        match new_state {
            Some(c) => *final(tool_state) == with_configuration(*old(tool_state), Some(c)),
            None => *final(tool_state) == *old(tool_state),
        },
{
    if let Some(c) = new_state {
        tool_state.configuration_manager = Some(c);
    }
}

/// Records the outcome of an installer run: on success the tool's state
/// (with its refreshed configuration record, if any) is stored under the
/// tool's name; on failure the store is left as it was.
pub fn record_installation(
    tools: &mut Store<ToolState>,
    tool: &ToolEntry,
    operation: Operation,
    outcome: Result<ToolState, InstallerError>,
    configuration: Option<ConfigurationManagerState>,
) -> (r: ToolProcessingResult)
    ensures
        match outcome {
            Ok(s) => {
                &&& final(tools).view() == old(tools).view().insert(tool.name@, with_configuration(s, configuration))
                &&& r@ == (if operation == Operation::Installing {
                    ProcessingView::Installed
                } else {
                    ProcessingView::Updated
                })
            },
            Err(e) => {
                &&& final(tools).view() == old(tools).view()
                &&& r@ == ProcessingView::Failed(
                    "[SDB::Tools] "@ + operation_text(operation) + " failed: "@ + installer_error_text(e),
                )
            },
        },
{
    match outcome {
        Ok(state) => {
            let mut state = state;
            apply_configuration_state(&mut state, configuration);
            tools.insert(tool.name.clone(), state);
            match operation {
                Operation::Installing => ToolProcessingResult::Installed,
                Operation::Updating => ToolProcessingResult::Updated,
            }
        },
        Err(e) => {
            let op = match operation {
                Operation::Installing => "Installing",
                Operation::Updating => "Updating",
            };
            let m = e.message();
            let a = concat3("[SDB::Tools] ", op, " failed: ");
            ToolProcessingResult::Failed(concat2(a.as_str(), m.as_str()))
        },
    }
}

/// Records a configuration-only update: the stored state of the tool gets
/// the refreshed configuration record; a failed refresh, or a tool with no
/// stored state, is a failure and leaves the store as it was.
pub fn record_configuration_update(
    tools: &mut Store<ToolState>,
    tool: &ToolEntry,
    outcome: Result<Option<ConfigurationManagerState>, String>,
) -> (r: ToolProcessingResult)
    ensures
        !old(tools).view().contains_key(tool.name@) ==> final(tools).view() == old(tools).view() && r@
            == ProcessingView::Failed("[SDB::Tools] Tool not found in state"@),
        old(tools).view().contains_key(tool.name@) ==> match outcome {
            Ok(c) => final(tools).view().dom() == old(tools).view().dom() && final(tools).view().remove(tool.name@)
                == old(tools).view().remove(tool.name@) && same_state(
                final(tools).view()[tool.name@],
                with_configuration(old(tools).view()[tool.name@], c),
            ) && r@ == ProcessingView::ConfigurationUpdated,
            Err(e) => final(tools).view() == old(tools).view() && r@ == ProcessingView::Failed(
                "[SDB::Tools::Configuration] Configuration update failed: "@ + e@,
            ),
        },
{
    if !tools.contains(tool.name.as_str()) {
        return ToolProcessingResult::Failed(owned("[SDB::Tools] Tool not found in state"));
    }
    match outcome {
        Ok(new_config) => {
            let existing = tools.get(tool.name.as_str()).unwrap();
            let mut updated = clone_tool_state(existing);
            apply_configuration_state(&mut updated, new_config);
            tools.insert(tool.name.clone(), updated);
            assert(tools.view().remove(tool.name@) =~= old(tools).view().remove(tool.name@));
            assert(tools.view().dom() =~= old(tools).view().dom());
            ToolProcessingResult::ConfigurationUpdated
        },
        Err(e) => ToolProcessingResult::Failed(
            concat2("[SDB::Tools::Configuration] Configuration update failed: ", e.as_str()),
        ),
    }
}

/// A copy of a tool state.
pub fn clone_tool_state(s: &ToolState) -> (r: ToolState)
    ensures
        same_state(r, *s),
{
    let r = ToolState {
        version: s.version.clone(),
        install_path: s.install_path.clone(),
        installed_by_devbox: s.installed_by_devbox,
        install_method: s.install_method.clone(),
        renamed_to: s.renamed_to.clone(),
        package_type: s.package_type.clone(),
        repo: s.repo.clone(),
        tag: s.tag.clone(),
        options: copy_opt_strings(&s.options),
        url: s.url.clone(),
        last_updated: s.last_updated.clone(),
        executable_path_after_extract: s.executable_path_after_extract.clone(),
        executed_post_installation_hooks: copy_opt_strings(&s.executed_post_installation_hooks),
        configuration_manager: clone_config_state(&s.configuration_manager),
    };
    r
}

fn clone_config_state(c: &Option<ConfigurationManagerState>) -> (r: Option<ConfigurationManagerState>)
    ensures
        manager_view(r) == manager_view(*c),
{
    match c {
        Some(c) => {
            let m = ConfigurationManagerState {
                enabled: c.enabled,
                tools_configuration_paths: copy_strings(&c.tools_configuration_paths),
                source_configuration_sha: c.source_configuration_sha.clone(),
                destination_configuration_sha: c.destination_configuration_sha.clone(),
            };
            Some(m)
        },
        None => None,
    }
}


/// Checks that the tool's installer command is available: fine for a source
/// that needs none; otherwise the result of looking for the command, its
/// failure reported with the command's name.
pub fn validate_installer_availability(source: SourceType, command_check: Result<(), String>) -> (r: Result<(), String>)
    ensures
        match required_command(source) {
            None => r is Ok,
            Some(cmd) => match command_check {
                Ok(_) => r is Ok,
                Err(e) => r matches Err(m) && m@ == "[SDB::Tools] Installer '"@ + cmd + "' not available: "@ + e@,
            },
        },
{
    match installer_command(source) {
        None => Ok(()),
        Some(cmd) => match command_check {
            Ok(_) => Ok(()),
            Err(e) => Err(unavailable_installer_message(cmd, e.as_str())),
        },
    }
}

/// The source-configuration hash recorded for an installed tool, if any.
pub open spec fn recorded_source_sha(current_state: Option<&ToolState>) -> Option<Seq<char>> {
    match current_state {
        Some(st) => match st.configuration_manager {
            Some(c) => Some(c.source_configuration_sha@),
            None => None,
        },
        None => None,
    }
}

/// The evaluation of a tool's managed configuration files. Management
/// disabled: nothing to update, with the reason `Configuration disabled`.
/// Otherwise the combined hash of the files as read now (`current_sha`, or
/// why they could not be read, which is the error) is compared with the
/// hash recorded for the tool: an update is needed when they differ or
/// none is recorded.
pub fn evaluate_configuration(
    enabled: bool,
    current_sha: Result<String, String>,
    current_state: Option<&ToolState>,
) -> (r: Result<ConfigurationEvaluationResult, String>)
    ensures
        !enabled ==> (r matches Ok(e) && !e.needs_update && e.current_source_sha@ == Seq::<char>::empty()
            && e.current_destination_sha is None && planner_opt_view(e.reason) == Some(
            "[SDB::Tools::Configuration] Configuration disabled"@,
        )),
        enabled ==> match current_sha {
            Err(m) => r == Err::<ConfigurationEvaluationResult, String>(m),
            Ok(sha) => r matches Ok(e) && e.needs_update == (recorded_source_sha(current_state) != Some(sha@))
                && e.current_source_sha == sha && e.current_destination_sha is None && e.reason is None,
        },
{
    if !enabled {
        return Ok(
            ConfigurationEvaluationResult {
                needs_update: false,
                current_source_sha: String::new(),
                current_destination_sha: None,
                reason: Some(owned("[SDB::Tools::Configuration] Configuration disabled")),
            },
        );
    }
    let sha = match current_sha {
        Ok(s) => s,
        Err(m) => {
            return Err(m);
        },
    };
    let needs = match current_state {
        Some(st) => match &st.configuration_manager {
            Some(c) => !crate::text::str_eq(c.source_configuration_sha.as_str(), sha.as_str()),
            None => true,
        },
        None => true,
    };
    Ok(ConfigurationEvaluationResult { needs_update: needs, current_source_sha: sha, current_destination_sha: None, reason: None })
}

/// The first step of processing a tool: a tool whose installer is missing
/// fails; otherwise the planner decides its action at `now` (from the
/// evaluation of its managed configuration, which is made only for an
/// installed tool), and that
/// action is carried out as far as no outside work is needed (in a dry run,
/// only described). The configuration evaluation the planner used is
/// handed back for the later steps.
pub fn process_individual_tool(
    planner: &InstallationPlanner,
    tool: &ToolEntry,
    current_state: Option<&ToolState>,
    availability: Result<(), String>,
    evaluation: Option<Result<ConfigurationEvaluationResult, String>>,
    now: Instant,
) -> (r: (ActionStep, Option<ConfigurationEvaluationResult>))
    requires
        current_state is Some ==> evaluation is Some,
    ensures
        match availability {
            Err(m) => (r.0 matches ActionStep::Finished(p) && p@ == ProcessingView::Failed(m@)) && r.1 is None,
            Ok(_) => match current_state {
                None => (if planner.configuration.dry_run {
                    r.0 matches ActionStep::Finished(p) && p@ == ProcessingView::DryRun(
                        dry_run_text(ToolActionView::Install, tool.name@, tool.source),
                    )
                } else {
                    r.0 == ActionStep::RunInstaller(Operation::Installing)
                }) && r.1 is None,
                Some(st) => {
                    let a = combined_action(
                        planner.version_spec(tool, st, now),
                        configuration_decision(r.1->0.needs_update, planner_opt_view(r.1->0.reason)),
                    );
                    &&& r.1 is Some
                    &&& (evaluation matches Some(Ok(e)) ==> r.1 == Some(e))
                    &&& (planner.configuration.dry_run ==> (r.0 matches ActionStep::Finished(p) && p@
                        == ProcessingView::DryRun(dry_run_text(a, tool.name@, tool.source))))
                    &&& (!planner.configuration.dry_run ==> match a {
                        ToolActionView::Skip(m) => r.0 matches ActionStep::Finished(p) && p@ == ProcessingView::Skipped(
                            m,
                        ),
                        ToolActionView::SkipConfigurationOnly(m) => r.0 matches ActionStep::Finished(p) && p@
                            == ProcessingView::ConfigurationSkipped(m),
                        ToolActionView::Install => r.0 == ActionStep::RunInstaller(Operation::Installing),
                        ToolActionView::Update => r.0 == ActionStep::RunInstaller(Operation::Updating),
                        ToolActionView::UpdateConfigurationOnly => r.0 == ActionStep::UpdateConfiguration,
                    })
                },
            },
        },
{
    if let Err(m) = availability {
        return (ActionStep::Finished(ToolProcessingResult::Failed(m)), None);
    }
    let (action, eval) = match evaluation {
        Some(e) => planner.determine_required_action_at(tool, current_state, e, now),
        None => planner.determine_required_action_at(tool, current_state, Err(String::new()), now),
    };
    (execute_action(tool, action, planner.configuration.dry_run), eval)
}

} // verus!
