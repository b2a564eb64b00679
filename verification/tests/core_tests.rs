use setup_devbox::model::{ConfigurationManager, SourceType, ToolEntry, ToolState};
use setup_devbox::orchestrator::{
    evaluate_configuration, execute_action, installer_command, process_individual_tool, record_configuration_update, record_installation,
    unavailable_installer_message, validate_installer_availability, ActionStep, InstallerError, InstallerFactory,
    InstallerKind, Operation, ToolProcessingResult,
};
use setup_devbox::model::ConfigurationManagerState;
use setup_devbox::paths::path_join;
use setup_devbox::planner::{
    normalize_version, ConfigurationEvaluationResult, InstallationConfiguration, InstallationPlanner, ToolAction,
};
use setup_devbox::state::{reset_all, reset_tool, run as reset_run, DevBoxState, ResetOutcome};
use setup_devbox::store::Store;
use setup_devbox::timestamps::{
    current_timestamp, format_duration, is_timestamp_older_than, is_timestamp_older_than_at, parse_update_policy,
    time_since, time_since_at, Instant, SdbDuration,
};

/// 2024-01-01T00:00:00Z in seconds since the epoch.
const NEW_YEAR_2024: i64 = 1_704_067_200;

fn tool(name: &str, source: SourceType, version: Option<&str>) -> ToolEntry {
    ToolEntry {
        name: name.to_string(),
        version: version.map(|v| v.to_string()),
        source,
        url: None,
        repo: None,
        tag: None,
        rename_to: None,
        options: None,
        executable_path_after_extract: None,
        post_installation_hooks: None,
        configuration_manager: ConfigurationManager { enabled: false, tools_configuration_paths: vec![] },
    }
}

fn state_of(t: &ToolEntry, version: &str, last_updated: Option<&str>) -> ToolState {
    ToolState::new(
        t,
        "/usr/local/bin/x",
        "brew".to_string(),
        "binary".to_string(),
        version.to_string(),
        None,
        last_updated.map(|s| s.to_string()),
        None,
    )
}

fn at(secs_after_new_year: i64) -> Instant {
    Instant { secs: NEW_YEAR_2024 + secs_after_new_year, nanos: 0 }
}

fn up_to_date() -> ConfigurationEvaluationResult {
    ConfigurationEvaluationResult {
        needs_update: false,
        current_source_sha: String::new(),
        current_destination_sha: None,
        reason: None,
    }
}

#[test]
fn source_type_names_round_trip() {
    let all = [
        SourceType::Github,
        SourceType::Brew,
        SourceType::Go,
        SourceType::Cargo,
        SourceType::Rustup,
        SourceType::Pip,
        SourceType::Uv,
        SourceType::Url,
    ];
    for s in all {
        assert_eq!(SourceType::parse(s.as_str()), Some(s));
    }
    assert_eq!(SourceType::Github.as_str(), "github");
    assert_eq!(SourceType::parse("Brew"), None);
    assert_eq!(SourceType::parse("apt"), None);
}

#[test]
fn tool_state_new_takes_entry_fields() {
    let mut t = tool("rg", SourceType::Github, Some("14.0.0"));
    t.rename_to = Some("ripgrep".to_string());
    t.repo = Some("BurntSushi/ripgrep".to_string());
    let s = ToolState::new(
        &t,
        "/home/u/bin/rg",
        "github".to_string(),
        "binary".to_string(),
        "14.0.0".to_string(),
        Some("https://x/rg.tar.gz".to_string()),
        None,
        Some(vec!["echo hi".to_string()]),
    );
    assert_eq!(s.install_path, "/home/u/bin/rg");
    assert!(s.installed_by_devbox);
    assert_eq!(s.renamed_to.as_deref(), Some("ripgrep"));
    assert_eq!(s.repo.as_deref(), Some("BurntSushi/ripgrep"));
    assert_eq!(s.url.as_deref(), Some("https://x/rg.tar.gz"));
    assert_eq!(s.executed_post_installation_hooks, Some(vec!["echo hi".to_string()]));
    assert!(s.configuration_manager.is_none());
}

#[test]
fn store_reads_back_what_was_written() {
    let mut s: Store<u32> = Store::new();
    assert_eq!(s.len(), 0);
    s.insert("a".to_string(), 1);
    s.insert("b".to_string(), 2);
    s.insert("a".to_string(), 3);
    assert_eq!(s.len(), 2);
    assert_eq!(s.get("a"), Some(&3));
    assert_eq!(s.get("b"), Some(&2));
    assert_eq!(s.get("c"), None);
    assert!(s.contains("b"));
    let mut names = s.names();
    names.sort();
    assert_eq!(names, vec!["a".to_string(), "b".to_string()]);
    assert_eq!(s.entries().len(), 2);
    assert!(s.remove("a"));
    assert!(!s.remove("a"));
    assert_eq!(s.get("a"), None);
    assert_eq!(s.get("b"), Some(&2));
    s.clear();
    assert_eq!(s.len(), 0);
}

#[test]
fn reset_tool_forgets_only_that_tool() {
    let mut st = DevBoxState::new();
    let a = tool("a", SourceType::Brew, None);
    let b = tool("b", SourceType::Brew, None);
    st.tools.insert("a".to_string(), state_of(&a, "1", None));
    st.tools.insert("b".to_string(), state_of(&b, "2", None));
    assert!(reset_tool(&mut st, "a"));
    assert!(!st.tools.contains("a"));
    assert_eq!(st.tools.get("b").map(|s| s.version.clone()), Some("2".to_string()));
    assert!(!reset_tool(&mut st, "zzz"));
    assert_eq!(st.tools.len(), 1);
}

#[test]
fn reset_command_outcomes() {
    let mut st = DevBoxState::new();
    let a = tool("a", SourceType::Brew, None);
    st.tools.insert("a".to_string(), state_of(&a, "1", None));
    assert_eq!(reset_run(&mut st, None, false), ResetOutcome::NothingRequested);
    assert_eq!(st.tools.len(), 1);
    assert_eq!(reset_run(&mut st, Some("zzz".to_string()), false), ResetOutcome::ToolNotFound);
    assert_eq!(reset_run(&mut st, Some("a".to_string()), false), ResetOutcome::ToolRemoved);
    assert_eq!(st.tools.len(), 0);
    st.tools.insert("a".to_string(), state_of(&a, "1", None));
    assert_eq!(reset_run(&mut st, Some("a".to_string()), true), ResetOutcome::Wiped);
    assert_eq!(st.tools.len(), 0);
    st.tools.insert("a".to_string(), state_of(&a, "1", None));
    reset_all(&mut st);
    assert_eq!((st.tools.len(), st.fonts.len(), st.settings.len()), (0, 0, 0));
}

#[test]
fn timestamp_age_against_a_fixed_clock() {
    let week = SdbDuration { secs: 7 * 86400 };
    let day = SdbDuration { secs: 86400 };
    let ts = "2024-01-01T00:00:00Z";
    assert!(!is_timestamp_older_than_at(ts, &day, at(86400)));
    assert!(is_timestamp_older_than_at(ts, &day, at(86401)));
    assert!(!is_timestamp_older_than_at(ts, &week, at(86401)));
    assert!(is_timestamp_older_than_at("not a timestamp", &week, at(0)));
    assert!(!is_timestamp_older_than_at("2024-01-01T02:00:00+02:00", &day, at(86400)));
    assert!(is_timestamp_older_than("2001-01-01T00:00:00Z", &day));
}

#[test]
fn time_since_renders_largest_unit() {
    let ts = "2024-01-01T00:00:00Z";
    assert_eq!(time_since_at(ts, at(30)).as_deref(), Some("just now"));
    assert_eq!(time_since_at(ts, at(300)).as_deref(), Some("5 minutes ago"));
    assert_eq!(time_since_at(ts, at(7200)).as_deref(), Some("2 hours ago"));
    assert_eq!(time_since_at(ts, at(3 * 86400 + 5)).as_deref(), Some("3 days ago"));
    assert_eq!(time_since_at("yesterday", at(0)), None);
    assert_eq!(time_since("garbage"), None);
    assert!(time_since("2001-01-01T00:00:00Z").unwrap().ends_with(" days ago"));
}

#[test]
fn durations_and_update_policies() {
    assert_eq!(format_duration(&SdbDuration { secs: 604800 }), "7 days");
    assert_eq!(format_duration(&SdbDuration { secs: 7200 }), "2 hours");
    assert_eq!(format_duration(&SdbDuration { secs: 120 }), "2 minutes");
    assert_eq!(format_duration(&SdbDuration { secs: 30 }), "0 minutes");
    assert_eq!(parse_update_policy("7d").map(|d| d.secs), Some(604800));
    assert_eq!(parse_update_policy(" 24 h ").map(|d| d.secs), Some(86400));
    assert_eq!(parse_update_policy("60m").map(|d| d.secs), Some(3600));
    assert_eq!(parse_update_policy("7 days").map(|d| d.secs), Some(604800));
    assert_eq!(parse_update_policy("2 hours").map(|d| d.secs), Some(7200));
    assert!(parse_update_policy("days").is_none());
    assert!(parse_update_policy("7w").is_none());
    assert!(parse_update_policy("").is_none());
    assert!(parse_update_policy("99999999999999999999d").is_none());
}

#[test]
fn current_timestamp_is_rfc3339() {
    let ts = current_timestamp();
    assert!(!is_timestamp_older_than_at(&ts, &SdbDuration { secs: 0 }, Instant { secs: 0, nanos: 0 }));
    assert!(ts.contains('T'));
}

#[test]
fn path_join_follows_path_semantics() {
    assert_eq!(path_join("/a/b", "c.yaml"), "/a/b/c.yaml");
    assert_eq!(path_join("/a/b/", "c.yaml"), "/a/b/c.yaml");
    assert_eq!(path_join("/a/b", "/etc/x"), "/etc/x");
    assert_eq!(path_join("", "x"), "x");
}

#[test]
fn planner_installs_missing_tools() {
    let config = InstallationConfiguration::new(Some(SdbDuration { secs: 604800 }), false, false);
    let planner = InstallationPlanner::new(&config);
    let t = tool("rg", SourceType::Brew, Some("1.0"));
    let (action, eval) = planner.determine_required_action_at(&t, None, Ok(up_to_date()), at(0));
    assert!(matches!(action, ToolAction::Install));
    assert!(eval.is_none());
}

#[test]
fn planner_keeps_installed_specific_version() {
    let config = InstallationConfiguration::new(Some(SdbDuration { secs: 604800 }), false, false);
    let planner = InstallationPlanner::new(&config);
    let t = tool("rg", SourceType::Brew, Some("v1.0"));
    let st = state_of(&t, "1.0", None);
    let (action, _) = planner.determine_required_action_at(&t, Some(&st), Ok(up_to_date()), at(0));
    match action {
        ToolAction::SkipConfigurationOnly(m) => assert_eq!(
            m,
            "[SDB::Tools] specified version already installed, [SDB::Tools::Configuration] Configuration up-to-date"
        ),
        _ => panic!("expected a configuration-only skip"),
    }
    let disabled = ConfigurationEvaluationResult {
        needs_update: false,
        current_source_sha: String::new(),
        current_destination_sha: None,
        reason: Some("[SDB::Tools::Configuration] Configuration disabled".to_string()),
    };
    let (plain, eval) = planner.determine_required_action_at(&t, Some(&st), Ok(disabled.clone()), at(0));
    match plain {
        ToolAction::Skip(m) => assert_eq!(m, "[SDB::Tools] specified version already installed"),
        _ => panic!("expected a skip"),
    }
    assert_eq!(eval, Some(disabled));
}

#[test]
fn planner_updates_unversioned_tools_when_forced() {
    let forced_config = InstallationConfiguration::new(Some(SdbDuration { secs: 604800 }), true, false);
    let forced = InstallationPlanner::new(&forced_config);
    let t = tool("rg", SourceType::Brew, None);
    let st = state_of(&t, "1.2.0", Some("2024-01-01T00:00:00Z"));
    let (a, e) = forced.determine_required_action(&t, Some(&st), Ok(up_to_date()));
    assert!(matches!(a, ToolAction::Update));
    assert_eq!(e, Some(up_to_date()));
}

#[test]
fn planner_updates_changed_specific_version() {
    let config = InstallationConfiguration::new(None, false, false);
    let planner = InstallationPlanner::new(&config);
    let t = tool("rg", SourceType::Brew, Some("2.0"));
    let st = state_of(&t, "1.0", None);
    let (action, _) = planner.determine_required_action_at(&t, Some(&st), Ok(up_to_date()), at(0));
    assert!(matches!(action, ToolAction::Update));
}

#[test]
fn planner_latest_policy_respects_threshold() {
    let config = InstallationConfiguration::new(Some(SdbDuration { secs: 604800 }), false, false);
    let planner = InstallationPlanner::new(&config);
    let t = tool("rg", SourceType::Brew, Some("latest"));
    let st = state_of(&t, "1.0", Some("2024-01-01T00:00:00Z"));
    let (recent, _) = planner.determine_required_action_at(&t, Some(&st), Ok(up_to_date()), at(86400 + 10));
    match recent {
        ToolAction::SkipConfigurationOnly(m) => assert_eq!(
            m,
            "[SDB::Tools] Version 'latest' updated 1 days ago (within 7 days threshold), [SDB::Tools::Configuration] Configuration up-to-date"
        ),
        _ => panic!("expected a configuration-only skip"),
    }
    let (stale, _) = planner.determine_required_action_at(&t, Some(&st), Ok(up_to_date()), at(8 * 86400));
    assert!(matches!(stale, ToolAction::Update));
    let forced_config = InstallationConfiguration::new(Some(SdbDuration { secs: 604800 }), true, false);
    assert_eq!(forced_config.update_threshold_duration.secs, 0);
    let forced = InstallationPlanner::new(&forced_config);
    let (f, _) = forced.determine_required_action_at(&t, Some(&st), Ok(up_to_date()), at(10));
    assert!(matches!(f, ToolAction::Update));
}

#[test]
fn planner_configuration_only_update_and_evaluation_error() {
    let config = InstallationConfiguration::new(None, false, false);
    let planner = InstallationPlanner::new(&config);
    let t = tool("rg", SourceType::Brew, Some("1.0"));
    let st = state_of(&t, "1.0", None);
    let (a, e) = planner.determine_required_action_at(&t, Some(&st), Err("boom".to_string()), at(0));
    assert!(matches!(a, ToolAction::UpdateConfigurationOnly));
    let e = e.unwrap();
    assert!(e.needs_update);
    assert_eq!(e.reason.as_deref(), Some("[SDB::Tools] Evaluation error: boom"));
    let (b, _) = planner.determine_required_action(&tool("x", SourceType::Go, None), None, Ok(up_to_date()));
    assert!(matches!(b, ToolAction::Install));
    assert_eq!(normalize_version("v1.2"), "1.2");
    assert_eq!(normalize_version("1.2"), "1.2");
}

#[test]
fn factory_serves_every_source() {
    let f = InstallerFactory::new();
    assert_eq!(f.get_installer(&SourceType::Github), Some(InstallerKind::GitHub));
    assert_eq!(f.get_installer(&SourceType::Uv), Some(InstallerKind::Uv));
    assert_eq!(installer_command(SourceType::Pip), Some("pip3"));
    assert_eq!(installer_command(SourceType::Github), None);
    assert_eq!(
        unavailable_installer_message("brew", "not found"),
        "[SDB::Tools] Installer 'brew' not available: not found"
    );
}

#[test]
fn execute_action_dry_run_and_steps() {
    let t = tool("rg", SourceType::Brew, None);
    match execute_action(&t, ToolAction::Install, true) {
        ActionStep::Finished(ToolProcessingResult::DryRun(m)) => assert_eq!(m, "Would install rg using brew"),
        _ => panic!("expected a dry run"),
    }
    match execute_action(&t, ToolAction::Skip("why".to_string()), false) {
        ActionStep::Finished(ToolProcessingResult::Skipped(m)) => assert_eq!(m, "why"),
        _ => panic!("expected a skip"),
    }
    assert!(matches!(execute_action(&t, ToolAction::Update, false), ActionStep::RunInstaller(Operation::Updating)));
    assert!(matches!(execute_action(&t, ToolAction::UpdateConfigurationOnly, false), ActionStep::UpdateConfiguration));
}

#[test]
fn recording_installations_and_failures() {
    let t = tool("rg", SourceType::Brew, None);
    let mut tools: Store<ToolState> = Store::new();
    let r = record_installation(
        &mut tools,
        &t,
        Operation::Installing,
        Err(InstallerError::CommandFailed("exit 1".to_string())),
        None,
    );
    match r {
        ToolProcessingResult::Failed(m) => {
            assert_eq!(m, "[SDB::Tools] Installing failed: Command execution failed: exit 1")
        }
        _ => panic!("expected a failure"),
    }
    assert_eq!(tools.len(), 0);
    let cm = ConfigurationManagerState::new(true, vec!["a".to_string()], "s1".to_string(), "d1".to_string());
    let r = record_installation(&mut tools, &t, Operation::Updating, Ok(state_of(&t, "2.0", None)), Some(cm));
    assert!(matches!(r, ToolProcessingResult::Updated));
    let stored = tools.get("rg").unwrap();
    assert_eq!(stored.version, "2.0");
    assert_eq!(stored.configuration_manager.as_ref().unwrap().source_configuration_sha, "s1");
    let cm2 = ConfigurationManagerState::new(true, vec![], "s2".to_string(), "d2".to_string());
    let r = record_configuration_update(&mut tools, &t, Ok(Some(cm2)));
    assert!(matches!(r, ToolProcessingResult::ConfigurationUpdated));
    assert_eq!(tools.get("rg").unwrap().configuration_manager.as_ref().unwrap().source_configuration_sha, "s2");
    assert_eq!(tools.get("rg").unwrap().version, "2.0");
    let other = tool("fd", SourceType::Brew, None);
    match record_configuration_update(&mut tools, &other, Ok(None)) {
        ToolProcessingResult::Failed(m) => assert_eq!(m, "[SDB::Tools] Tool not found in state"),
        _ => panic!("expected a failure"),
    }
    match record_configuration_update(&mut tools, &t, Err("io".to_string())) {
        ToolProcessingResult::Failed(m) => {
            assert_eq!(m, "[SDB::Tools::Configuration] Configuration update failed: io")
        }
        _ => panic!("expected a failure"),
    }
}

#[test]
fn installer_error_messages() {
    assert_eq!(InstallerError::PlatformDetectionFailed.message(), "Platform detection failed");
    assert_eq!(InstallerError::ConfigurationError("x".to_string()).message(), "Configuration error: x");
    assert_eq!(InstallerError::NetworkError("x".to_string()).message(), "Network error: x");
    assert_eq!(InstallerError::DownloadFailed("x".to_string()).message(), "Download failed: x");
    assert_eq!(InstallerError::InstallationFailed("x".to_string()).message(), "Installation failed: x");
    assert_eq!(InstallerError::ValidationFailed("x".to_string()).message(), "Validation failed: x");
    assert_eq!(InstallerError::VersionDetectionFailed("x".to_string()).message(), "Version detection failed: x");
    assert_eq!(InstallerError::IoError("x".to_string()).message(), "IO error: x");
}

#[test]
fn installer_availability_is_checked_first() {
    assert_eq!(validate_installer_availability(SourceType::Github, Err("ignored".to_string())), Ok(()));
    assert_eq!(validate_installer_availability(SourceType::Cargo, Ok(())), Ok(()));
    assert_eq!(
        validate_installer_availability(SourceType::Pip, Err("not found".to_string())),
        Err("[SDB::Tools] Installer 'pip3' not available: not found".to_string())
    );
    let config = InstallationConfiguration::new(None, false, false);
    let planner = InstallationPlanner::new(&config);
    let t = tool("rg", SourceType::Brew, Some("1.0"));
    let st = state_of(&t, "1.0", None);
    let (step, eval) =
        process_individual_tool(&planner, &t, Some(&st), Err("brew missing".to_string()), Some(Ok(up_to_date())), at(0));
    assert_eq!(step, ActionStep::Finished(ToolProcessingResult::Failed("brew missing".to_string())));
    assert!(eval.is_none());
    let (step, eval) = process_individual_tool(&planner, &t, Some(&st), Ok(()), Some(Ok(up_to_date())), at(0));
    assert_eq!(
        step,
        ActionStep::Finished(ToolProcessingResult::ConfigurationSkipped(
            "[SDB::Tools] specified version already installed, [SDB::Tools::Configuration] Configuration up-to-date"
                .to_string()
        ))
    );
    assert_eq!(eval, Some(up_to_date()));
    let (step, _) = process_individual_tool(&planner, &t, None, Ok(()), None, at(0));
    assert_eq!(step, ActionStep::RunInstaller(Operation::Installing));
    let dry = InstallationConfiguration::new(None, false, true);
    let dry_planner = InstallationPlanner::new(&dry);
    let (step, _) = process_individual_tool(&dry_planner, &t, None, Ok(()), None, at(0));
    assert_eq!(step, ActionStep::Finished(ToolProcessingResult::DryRun("Would install rg using brew".to_string())));
}

#[test]
fn configuration_evaluation_compares_hashes() {
    let t = tool("rg", SourceType::Brew, Some("1.0"));
    let mut st = state_of(&t, "1.0", None);
    let off = evaluate_configuration(false, Ok("x".to_string()), Some(&st)).unwrap();
    assert!(!off.needs_update);
    assert_eq!(off.reason.as_deref(), Some("[SDB::Tools::Configuration] Configuration disabled"));
    let unrecorded = evaluate_configuration(true, Ok("abc".to_string()), Some(&st)).unwrap();
    assert!(unrecorded.needs_update);
    st.configuration_manager = Some(ConfigurationManagerState::new(true, vec![], "abc".to_string(), String::new()));
    let same = evaluate_configuration(true, Ok("abc".to_string()), Some(&st)).unwrap();
    assert!(!same.needs_update);
    assert_eq!(same.current_source_sha, "abc");
    let changed = evaluate_configuration(true, Ok("abd".to_string()), Some(&st)).unwrap();
    assert!(changed.needs_update);
    assert_eq!(evaluate_configuration(true, Err("cannot read x".to_string()), Some(&st)), Err("cannot read x".to_string()));
    let config = InstallationConfiguration::new(None, false, false);
    let planner = InstallationPlanner::new(&config);
    let (a, _) = planner.determine_required_action_at(&t, Some(&st), Ok(off), at(0));
    assert!(matches!(a, ToolAction::Skip(_)));
}
