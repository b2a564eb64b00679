use setup_devbox::shell_sections::{check_for_updates, process_shell_config};
use setup_devbox::help::filter_installers;
use setup_devbox::add::{add_outcome_word, font_entry_to_add, is_valid_value_type, validate_tool_restrictions, ConfigurationUpdater};
use setup_devbox::backup::{backup_dir, backup_filename, backups_to_discard, is_name_less, is_valid_backup, retention};
use setup_devbox::check_updates::{check_tool, classify, needs_latest_lookup, update_tables, UpdateCheck};
use setup_devbox::cli::{ConfigType, ValueType};
use setup_devbox::edit::{
    choose_editor, file_was_modified, get_config_file_path, get_config_file_path_with_fallback,
    get_editor_command_with_wait_flag, get_file_content_hash, is_gui_editor, is_yes, needs_finish_confirmation,
    run as edit_run, ConfigPaths, EditRequest,
};
use setup_devbox::model::{AliasEntry, ConfigurationManager, SourceType, ToolEntry, ToolState};
use setup_devbox::now::{run as now_run, NowStep};
use setup_devbox::remove::{font_file_to_remove, remove_font, remove_tool, setting_display_name, RemovalResult, RemovalSummary};
use setup_devbox::shellrc::{apply_shellrc, rc_file_name, ShellRc};
use setup_devbox::state::DevBoxState;
use setup_devbox::version::{get_local_version, normalize_version, run as version_run, VersionStatus};
use setup_devbox::model::FontState;

fn tool(name: &str) -> ToolEntry {
    ToolEntry {
        name: name.to_string(),
        version: None,
        source: SourceType::Brew,
        url: None,
        repo: None,
        tag: None,
        rename_to: None,
        options: None,
        executable_path_after_extract: None,
        post_installation_hooks: None,
        configuration_manager: ConfigurationManager { enabled: false, tools_configuration_paths: vec![] },
    }
}

fn recorded(t: &ToolEntry) -> ToolState {
    ToolState::new(t, "/bin/x", "brew".to_string(), "binary".to_string(), "1".to_string(), None, None, None)
}

fn font_state(name: &str) -> FontState {
    FontState {
        name: name.to_string(),
        version: "3.4.0".to_string(),
        url: String::new(),
        install_method: "github".to_string(),
        repo: None,
        tag: None,
        files: vec![],
        install_only: None,
    }
}

#[test]
fn config_type_names_ignore_case() {
    assert_eq!(ConfigType::from_str("TOOLS"), Ok(ConfigType::Tools));
    assert_eq!(ConfigType::from_str("Shell"), Ok(ConfigType::Shell));
    assert_eq!(
        ConfigType::from_str("aliases"),
        Err("Invalid config type 'aliases'. Must be one of: tools, fonts, shell, settings".to_string())
    );
    assert_eq!(ConfigType::Settings.as_str(), "settings");
    assert_eq!(ValueType::from_str("Bool"), Ok(ValueType::Bool));
    assert_eq!(ValueType::Float.as_str(), "float");
    assert!(ValueType::from_str("list").is_err());
}

#[test]
fn add_validation_and_entries() {
    let u = ConfigurationUpdater::new("/cfg".to_string()).unwrap();
    assert_eq!(u.get_config_path("tools.yaml"), "/cfg/tools.yaml");
    assert_eq!(u.initial_content("tools:"), "tools:\n  []\n");
    assert!(validate_tool_restrictions("github", &None, &Some("a/b".to_string()), &Some("v1".to_string())).is_ok());
    assert!(validate_tool_restrictions("GitHub", &None, &Some("a/b".to_string()), &None).is_err());
    assert!(validate_tool_restrictions("url", &None, &None, &None).is_err());
    assert!(validate_tool_restrictions("url", &Some("https://x".to_string()), &None, &None).is_ok());
    assert!(validate_tool_restrictions("brew", &None, &None, &None).is_ok());
    assert!(is_valid_value_type("INT"));
    assert!(!is_valid_value_type("list"));
    let f = font_entry_to_add(
        "Hack".to_string(),
        "3.4.0".to_string(),
        "github".to_string(),
        "ryanoasis/nerd-fonts".to_string(),
        "v3.4.0".to_string(),
        vec![],
    );
    assert_eq!(f.install_only, None);
    assert_eq!(f.repo.as_deref(), Some("ryanoasis/nerd-fonts"));
    let g = font_entry_to_add(
        "Hack".to_string(),
        "3.4.0".to_string(),
        "github".to_string(),
        "r".to_string(),
        "t".to_string(),
        vec!["Mono".to_string()],
    );
    assert_eq!(g.install_only, Some(vec!["Mono".to_string()]));
    assert_eq!(add_outcome_word(true), "updated");
    assert_eq!(add_outcome_word(false), "added");
}

#[test]
fn remove_tool_by_name_or_renamed_name() {
    let mut st = DevBoxState::new();
    let mut t = tool("ripgrep");
    t.rename_to = Some("rg".to_string());
    st.tools.insert("ripgrep".to_string(), recorded(&t));
    st.tools.insert("fd".to_string(), recorded(&tool("fd")));
    let s = remove_tool(&mut st, "rg".to_string(), Ok(()));
    assert_eq!(s.removed_tools, vec!["rg".to_string()]);
    assert!(!st.tools.contains("ripgrep"));
    assert!(st.tools.contains("fd"));
    assert!(s.needs_save());
    let missing = remove_tool(&mut st, "zzz".to_string(), Ok(()));
    assert_eq!(missing.not_found_items, vec!["zzz".to_string()]);
    assert!(missing.removed_fonts.is_empty() && missing.removed_tools.is_empty());
    assert!(!missing.needs_save());
    let failed = remove_tool(&mut st, "fd".to_string(), Err("busy".to_string()));
    assert_eq!(failed.failed_removals, vec![("fd".to_string(), "busy".to_string())]);
    assert!(!failed.needs_save());
    assert!(st.tools.contains("fd"));
}

#[test]
fn remove_font_and_summary_records() {
    let mut st = DevBoxState::new();
    st.fonts.insert("Hack".to_string(), font_state("Hack"));
    let s = remove_font(&mut st, "Hack".to_string(), Ok(()));
    assert_eq!(s.removed_fonts, vec!["Hack".to_string()]);
    assert_eq!(st.fonts.len(), 0);
    let s2 = remove_font(&mut st, "Hack".to_string(), Ok(()));
    assert_eq!(s2.not_found_items, vec!["Hack".to_string()]);
    let mut sum = RemovalSummary::new();
    sum.record("a".to_string(), "tool", RemovalResult::Removed);
    sum.record("b".to_string(), "font", RemovalResult::Removed);
    sum.record("c".to_string(), "tool", RemovalResult::NotFound);
    sum.record("d".to_string(), "tool", RemovalResult::Failed("x".to_string()));
    assert_eq!(sum.removed_tools, vec!["a".to_string()]);
    assert_eq!(sum.removed_fonts, vec!["b".to_string()]);
    assert_eq!(sum.not_found_items, vec!["c".to_string()]);
    assert_eq!(sum.failed_removals, vec![("d".to_string(), "x".to_string())]);
    assert_eq!(setting_display_name("NSGlobalDomain", "AppleShowAllExtensions"), "NSGlobalDomain.AppleShowAllExtensions");
}

#[test]
fn version_check_compares_normal_forms() {
    assert_eq!(get_local_version(), Ok("0.1.0".to_string()));
    assert_eq!(normalize_version("  V1.2.3-Beta "), "1.2.3-beta");
    assert_eq!(normalize_version("vv2.0"), "2.0");
    assert_eq!(version_run("0.1.0", Ok("v0.1.0".to_string())), VersionStatus::UpToDate);
    assert_eq!(version_run("0.1.0", Ok("v0.2.0".to_string())), VersionStatus::UpdateAvailable);
    assert_eq!(
        version_run("0.1.0", Err("network down".to_string())),
        VersionStatus::CheckFailed("network down".to_string())
    );
}

#[test]
fn now_plans_phases_in_order() {
    let p = now_run(false, "config.yaml", true, false, true, true);
    assert!(p.backup);
    assert!(p.load_master);
    assert_eq!(p.steps, vec![NowStep::Tools, NowStep::Shell, NowStep::Settings]);
    let q = now_run(true, "tools.yaml", false, true, false, false);
    assert!(!q.backup);
    assert!(!q.load_master);
    assert_eq!(q.steps, vec![NowStep::Fonts]);
}

#[test]
fn check_updates_classification() {
    assert_eq!(
        classify(&None, true, Ok("1.0".to_string())),
        UpdateCheck::ManualCheck {
            current: "N/A".to_string(),
            status: "Skipped (version is 'latest' or not specified)".to_string()
        }
    );
    assert_eq!(
        classify(&Some("LATEST".to_string()), true, Ok("1.0".to_string())),
        UpdateCheck::ManualCheck {
            current: "LATEST".to_string(),
            status: "Skipped (version is 'latest' or not specified)".to_string()
        }
    );
    assert_eq!(
        classify(&Some("1.0".to_string()), false, Ok("1.0".to_string())),
        UpdateCheck::ManualCheck { current: "1.0".to_string(), status: "No installer found for this source type".to_string() }
    );
    assert_eq!(
        classify(&Some("1.0".to_string()), true, Err("timeout".to_string())),
        UpdateCheck::ManualCheck { current: "1.0".to_string(), status: "Error: timeout".to_string() }
    );
    assert_eq!(
        classify(&Some("1.0".to_string()), true, Ok("v1.1".to_string())),
        UpdateCheck::UpdateAvailable { current: "1.0".to_string(), latest: "v1.1".to_string() }
    );
    assert_eq!(classify(&Some("v1.0".to_string()), true, Ok("1.0".to_string())), UpdateCheck::UpToDate);
    assert_eq!(
        classify(&Some("1.0".to_string()), true, Ok("Skipped (not supported for uv tool)".to_string())),
        UpdateCheck::ManualCheck {
            current: "1.0".to_string(),
            status: "Skipped (not supported for uv tool)".to_string()
        }
    );
}

#[test]
fn edit_requests_and_paths() {
    assert_eq!(edit_run(true, Some("tools".to_string())), Ok(EditRequest::State));
    assert_eq!(edit_run(false, Some("fonts".to_string())), Ok(EditRequest::Config("fonts".to_string())));
    assert_eq!(edit_run(false, None), Err("You must specify either --state or --config <type>".to_string()));
    let paths = ConfigPaths {
        tools: "/c/tools.yaml".to_string(),
        settings: "/c/settings.yaml".to_string(),
        shellrc: "/c/shellrc.yaml".to_string(),
        fonts: "/c/fonts.yaml".to_string(),
    };
    assert_eq!(get_config_file_path("shell", &paths), Ok("/c/shellrc.yaml".to_string()));
    assert_eq!(get_config_file_path("bogus", &paths), Err("Error: Invalid config type 'bogus'".to_string()));
    assert_eq!(
        get_config_file_path_with_fallback("state", Some("/sdb".to_string()), Some("/home/u".to_string())),
        Some("/sdb/state.json".to_string())
    );
    assert_eq!(
        get_config_file_path_with_fallback("config", None, Some("/home/u".to_string())),
        Some("/home/u/.setup-devbox/configs/config.yaml".to_string())
    );
    assert_eq!(get_config_file_path_with_fallback("state", None, None), None);
}

#[test]
fn editor_choice_and_wait_flags() {
    assert_eq!(choose_editor(Some("emacs".to_string()), &vec![true, true, true, true, true]), "emacs");
    assert_eq!(choose_editor(None, &vec![false, false, true, true, false]), "vi");
    assert_eq!(choose_editor(None, &vec![false, false, false, false, false]), "vi");
    assert_eq!(choose_editor(None, &vec![true, false, false, false, false]), "nano");
    assert!(is_gui_editor("code"));
    assert!(is_gui_editor("/usr/bin/zeditor"));
    assert!(!is_gui_editor("vim"));
    assert_eq!(get_editor_command_with_wait_flag("code"), ("code".to_string(), vec!["--wait".to_string()]));
    assert_eq!(get_editor_command_with_wait_flag("sublime_text"), ("subl".to_string(), vec!["--wait".to_string()]));
    assert_eq!(get_editor_command_with_wait_flag("kate"), ("kate".to_string(), vec!["--block".to_string()]));
    assert_eq!(get_editor_command_with_wait_flag("vim"), ("vim".to_string(), vec![]));
    assert!(needs_finish_confirmation(0, true));
    assert!(!needs_finish_confirmation(0, false));
    assert!(!needs_finish_confirmation(3, true));
    assert!(is_yes("  Yes"));
    assert!(is_yes("y"));
    assert!(!is_yes("no"));
    assert!(!is_yes(""));
}

#[test]
fn content_hash_is_sha256_hex() {
    let h = get_file_content_hash(Some(b"abc".to_vec())).unwrap();
    assert_eq!(h, "ba7816bf8f01cfea414140de5dae2223b00361a396177a9cb410ff61f20015ad");
    assert_eq!(get_file_content_hash(None), None);
    let same = get_file_content_hash(Some(b"abc".to_vec()));
    let other = get_file_content_hash(Some(b"abd".to_vec()));
    assert!(!file_was_modified(&Some(h.clone()), &same));
    assert!(file_was_modified(&Some(h), &other));
}

#[test]
fn backup_names_and_retention() {
    assert_eq!(backup_dir("/cfg", None), "/cfg/.backup");
    assert_eq!(backup_dir("/cfg", Some("  ".to_string())), "/cfg/.backup");
    assert_eq!(backup_dir("/cfg", Some("/bk".to_string())), "/bk");
    assert_eq!(backup_filename("20240101_000000"), "backup_20240101_000000.zip");
    assert!(is_valid_backup("backup_1.zip", true));
    assert!(!is_valid_backup("backup_1.zip", false));
    assert!(!is_valid_backup("backup_1.tar", true));
    assert!(!is_valid_backup("other.zip", true));
    assert_eq!(retention(None), 7);
    assert_eq!(retention(Some("3".to_string())), 3);
    assert_eq!(retention(Some("+4".to_string())), 4);
    assert_eq!(retention(Some("x".to_string())), 7);
    assert!(is_name_less("backup_1.zip", "backup_2.zip"));
    assert!(!is_name_less("backup_2.zip", "backup_1.zip"));
}

#[test]
fn oldest_backups_are_discarded() {
    let names = vec![
        "backup_3.zip".to_string(),
        "backup_1.zip".to_string(),
        "backup_4.zip".to_string(),
        "backup_2.zip".to_string(),
    ];
    assert_eq!(backups_to_discard(&names, 2), vec!["backup_1.zip".to_string(), "backup_2.zip".to_string()]);
    assert_eq!(backups_to_discard(&names, 4), Vec::<String>::new());
    assert_eq!(backups_to_discard(&names, 0).len(), 4);
}

#[test]
fn shellrc_lines_are_added_once() {
    let rc = ShellRc { shell: "zsh".to_string(), raw_configs: vec!["export A=1".to_string(), "  eval x ".to_string()] };
    let aliases = vec![AliasEntry { name: "ll".to_string(), value: "ls -l".to_string() }];
    let first = apply_shellrc(&rc, &aliases, &vec![]);
    assert_eq!(
        first,
        vec!["export A=1".to_string(), "  eval x ".to_string(), "alias ll='ls -l'".to_string()]
    );
    let second = apply_shellrc(&rc, &aliases, &first);
    assert!(second.is_empty());
    let partial = apply_shellrc(&rc, &aliases, &vec!["# eval x".to_string()]);
    assert_eq!(partial, vec!["export A=1".to_string(), "alias ll='ls -l'".to_string()]);
}

#[test]
fn interactive_addition_defaults() {
    assert_eq!(setup_devbox::add::default_release_tag("latest"), "");
    assert_eq!(setup_devbox::add::default_release_tag("vv1.2"), "v1.2");
    assert_eq!(setup_devbox::add::default_release_tag("3.4.0"), "v3.4.0");
    let p = setup_devbox::add::source_specific_prompts(SourceType::Github, true, false, false);
    assert_eq!((p.repo, p.tag, p.url), (false, true, false));
    let u = setup_devbox::add::source_specific_prompts(SourceType::Url, false, false, false);
    assert_eq!((u.repo, u.tag, u.url), (false, false, true));
    let b = setup_devbox::add::source_specific_prompts(SourceType::Brew, false, false, false);
    assert_eq!((b.repo, b.tag, b.url), (false, false, false));
    assert_eq!(setup_devbox::add::interactive_sources()[0], SourceType::Brew);
    assert_eq!(setup_devbox::add::interactive_sources().len(), 8);
    assert_eq!(setup_devbox::add::interactive_value_types()[0], ValueType::String);
}

#[test]
fn shellrc_queues_a_repeated_line_once() {
    let rc = ShellRc { shell: "zsh".to_string(), raw_configs: vec!["export A=1".to_string(), "export A=1".to_string()] };
    let aliases = vec![
        AliasEntry { name: "ll".to_string(), value: "ls -l".to_string() },
        AliasEntry { name: "ll".to_string(), value: "ls -l".to_string() },
    ];
    assert_eq!(
        apply_shellrc(&rc, &aliases, &vec![]),
        vec!["export A=1".to_string(), "alias ll='ls -l'".to_string()]
    );
    assert_eq!(rc_file_name("zsh"), Some(".zshrc"));
    assert_eq!(rc_file_name("bash"), Some(".bashrc"));
    assert_eq!(rc_file_name("fish"), None);
}

#[test]
fn check_updates_looks_up_only_versioned_tools() {
    assert!(!needs_latest_lookup(&None, true));
    assert!(!needs_latest_lookup(&Some("Latest".to_string()), true));
    assert!(!needs_latest_lookup(&Some("1.0".to_string()), false));
    assert!(needs_latest_lookup(&Some("1.0".to_string()), true));
    let skipped = check_tool(&Some("latest".to_string()), true, None);
    assert_eq!(
        skipped,
        UpdateCheck::ManualCheck {
            current: "latest".to_string(),
            status: "Skipped (version is 'latest' or not specified)".to_string()
        }
    );
    let newer = check_tool(&Some("1.0".to_string()), true, Some(Ok("1.1".to_string())));
    let same = check_tool(&Some("v1.1".to_string()), true, Some(Ok("1.1".to_string())));
    assert_eq!(same, UpdateCheck::UpToDate);
    let names = vec!["a".to_string(), "b".to_string(), "c".to_string()];
    let (ups, manual) = update_tables(&names, &vec![skipped, newer, same]);
    assert_eq!(ups, vec![("b".to_string(), "1.0".to_string(), "1.1".to_string())]);
    assert_eq!(
        manual,
        vec![(
            "a".to_string(),
            "latest".to_string(),
            "Skipped (version is 'latest' or not specified)".to_string()
        )]
    );
}

#[test]
fn font_files_removed_with_their_font() {
    assert!(font_file_to_remove("JetBrainsMono-Bold.ttf", "JetBrainsMono"));
    assert!(!font_file_to_remove("JetBrainsMono-Bold.otf", "JetBrainsMono"));
    assert!(!font_file_to_remove("FiraCode-Bold.ttf", "JetBrainsMono"));
}

fn cmd(command: &str, section: &str) -> setup_devbox::sync::ShellCommand {
    setup_devbox::sync::ShellCommand { command: command.to_string(), section: section.to_string() }
}

#[test]
fn shell_sections_place_commands_under_headers() {
    let cmds = vec![
        cmd("export PATH=\"$HOME/bin:$PATH\"", "Paths"),
        cmd("export EDITOR=\"zed\"\nexport VISUAL=\"zed\"\n", "Exports"),
        cmd("export CARGO=1", "Paths"),
    ];
    let aliases = vec![AliasEntry { name: "ll".to_string(), value: "ls -l".to_string() }];
    let first = process_shell_config(&vec!["# my rc".to_string()], &cmds, &aliases, false);
    assert!(first.changed && !first.updates_detected && !first.regenerated);
    assert_eq!(
        first.lines,
        vec![
            "# my rc".to_string(),
            "# === Paths ===".to_string(),
            "export PATH=\"$HOME/bin:$PATH\"".to_string(),
            "export CARGO=1".to_string(),
            "# === Exports ===".to_string(),
            "export EDITOR=\"zed\"".to_string(),
            "export VISUAL=\"zed\"".to_string(),
            "# === Aliases ===".to_string(),
            "alias ll='ls -l'".to_string(),
        ]
    );
    let again = process_shell_config(&first.lines, &cmds, &aliases, false);
    assert!(!again.changed);
    assert_eq!(again.lines, first.lines);
    let changed = vec![cmd("export CARGO=2", "Paths")];
    assert!(check_for_updates(&changed, &vec![], &first.lines));
    assert!(!check_for_updates(&cmds, &aliases, &first.lines));
    let kept = process_shell_config(&first.lines, &changed, &vec![], false);
    assert!(kept.updates_detected && !kept.changed);
    let rebuilt = process_shell_config(&first.lines, &changed, &vec![], true);
    assert!(rebuilt.regenerated && rebuilt.changed);
    assert_eq!(rebuilt.lines, vec!["# === Paths ===".to_string(), "export CARGO=2".to_string()]);
    let renamed = vec![AliasEntry { name: "ll".to_string(), value: "ls -la".to_string() }];
    assert!(check_for_updates(&vec![], &renamed, &first.lines));
}

#[test]
fn installers_filtered_by_name() {
    let names: Vec<String> = ["Brew", "Cargo", "UV", "URL"].iter().map(|s| s.to_string()).collect();
    assert_eq!(filter_installers(&names, &None), vec![0, 1, 2, 3]);
    assert_eq!(filter_installers(&names, &Some("u".to_string())), vec![2, 3]);
    assert_eq!(filter_installers(&names, &Some("CARGO".to_string())), vec![1]);
    assert_eq!(filter_installers(&names, &Some("pip".to_string())), Vec::<usize>::new());
}
