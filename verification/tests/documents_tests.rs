use setup_devbox::config_doc::{
    clean_value, deep_merge_values, find_item, get_field, get_str_field, new_section_document, new_settings_document,
    remove_list_item, remove_nulls, remove_setting as remove_setting_item, trim_colons_of, update_or_add_list_item,
    update_or_add_setting, Yaml,
};
use setup_devbox::help::{run as help_run, HelpTopic};
use setup_devbox::help::{
    add_edit_behavior_info, add_now_basic_examples, add_supported_installers, show_add_help, show_edit_help,
    show_remove_help,
    show_reset_help, show_sync_config_help, Paint, Segment,
};
use setup_devbox::model::{ConfigurationManagerState, FontState, SettingState, SourceType, ToolEntry, ToolState};
use setup_devbox::remove::{remove_alias, remove_setting};
use setup_devbox::store::Store;
use setup_devbox::sync::{
    filter_empty_vec, font_entry_from_state, normalize_source_type, normalize_version, resolve_url_for_source,
    ConfigGenerator, FileWriter, SyncError, SyncOrchestrator,
};
use setup_devbox::yaml_text::format_yaml_output;

fn s(x: &str) -> Yaml {
    Yaml::Str(x.to_string())
}

fn map(entries: Vec<(&str, Yaml)>) -> Yaml {
    Yaml::Mapping(entries.into_iter().map(|(k, v)| (k.to_string(), v)).collect())
}

fn tools_doc(items: Vec<Yaml>) -> Yaml {
    map(vec![("update_latest_only_after", s("7 days")), ("tools", Yaml::List(items))])
}

fn text_of(segs: &[Segment]) -> String {
    segs.iter().map(|x| x.text).collect()
}

#[test]
fn list_items_are_added_then_merged() {
    let mut doc = tools_doc(vec![map(vec![("name", s("rg")), ("source", s("brew"))])]);
    let new_item = map(vec![("name", s("fd")), ("source", s("cargo")), ("url", Yaml::Null)]);
    assert_eq!(update_or_add_list_item(&mut doc, "tools:", "name:", "fd", &new_item), Ok(false));
    let expected_added = tools_doc(vec![
        map(vec![("name", s("rg")), ("source", s("brew"))]),
        map(vec![("name", s("fd")), ("source", s("cargo"))]),
    ]);
    assert_eq!(doc, expected_added);
    let update = map(vec![("name", s("rg")), ("version", s("14")), ("options", Yaml::List(vec![]))]);
    assert_eq!(update_or_add_list_item(&mut doc, "tools", "name", "rg", &update), Ok(true));
    let expected_updated = tools_doc(vec![
        map(vec![("name", s("rg")), ("source", s("brew")), ("version", s("14"))]),
        map(vec![("name", s("fd")), ("source", s("cargo"))]),
    ]);
    assert_eq!(doc, expected_updated);
}

#[test]
fn missing_section_leaves_document_unchanged() {
    let mut doc = map(vec![("fonts", Yaml::List(vec![]))]);
    let r = update_or_add_list_item(&mut doc, "tools:", "name:", "x", &map(vec![("name", s("x"))]));
    assert_eq!(r, Err("Section 'tools' not found or not a list".to_string()));
    assert_eq!(doc, map(vec![("fonts", Yaml::List(vec![]))]));
    let mut not_list = map(vec![("tools", s("oops"))]);
    assert!(remove_list_item(&mut not_list, "tools", "name", "x").is_err());
}

#[test]
fn list_items_are_removed_by_identifier() {
    let mut doc = tools_doc(vec![map(vec![("name", s("rg"))]), map(vec![("name", s("fd"))])]);
    assert_eq!(remove_list_item(&mut doc, "tools:", "name:", "rg"), Ok(true));
    assert_eq!(doc, tools_doc(vec![map(vec![("name", s("fd"))])]));
    assert_eq!(remove_list_item(&mut doc, "tools:", "name:", "rg"), Ok(false));
    assert_eq!(doc, tools_doc(vec![map(vec![("name", s("fd"))])]));
}

#[test]
fn settings_are_added_updated_and_removed() {
    let mut doc = map(vec![("settings", map(vec![("macos", Yaml::List(vec![]))]))]);
    let setting = map(vec![
        ("domain", s("NSGlobalDomain")),
        ("key", s("AppleShowAllExtensions")),
        ("value", s("true")),
        ("type", s("bool")),
    ]);
    assert_eq!(update_or_add_setting(&mut doc, "NSGlobalDomain", "AppleShowAllExtensions", &setting), Ok(false));
    let changed = map(vec![("domain", s("NSGlobalDomain")), ("key", s("AppleShowAllExtensions")), ("value", s("false"))]);
    assert_eq!(update_or_add_setting(&mut doc, "NSGlobalDomain", "AppleShowAllExtensions", &changed), Ok(true));
    let expected = map(vec![(
        "settings",
        map(vec![(
            "macos",
            Yaml::List(vec![map(vec![
                ("domain", s("NSGlobalDomain")),
                ("key", s("AppleShowAllExtensions")),
                ("value", s("false")),
                ("type", s("bool")),
            ])]),
        )]),
    )]);
    assert_eq!(doc, expected);
    assert_eq!(remove_setting_item(&mut doc, "NSGlobalDomain", "Other"), Ok(false));
    assert_eq!(remove_setting(&mut doc, "NSGlobalDomain", "AppleShowAllExtensions"), Ok(true));
    assert_eq!(doc, map(vec![("settings", map(vec![("macos", Yaml::List(vec![]))]))]));
    let mut bare = map(vec![("tools", Yaml::List(vec![]))]);
    assert_eq!(
        update_or_add_setting(&mut bare, "d", "k", &setting),
        Err("settings.macos section not found or not a list".to_string())
    );
}

#[test]
fn aliases_are_removed_from_shellrc() {
    let mut doc = map(vec![(
        "aliases",
        Yaml::List(vec![map(vec![("name", s("ll")), ("value", s("ls -l"))]), map(vec![("name", s("g")), ("value", s("git"))])]),
    )]);
    assert_eq!(remove_alias(&mut doc, "ll"), Ok(true));
    assert_eq!(
        doc,
        map(vec![("aliases", Yaml::List(vec![map(vec![("name", s("g")), ("value", s("git"))])]))])
    );
    assert_eq!(remove_alias(&mut doc, "ll"), Ok(false));
}

#[test]
fn merging_and_cleaning_values() {
    let mut target = map(vec![
        ("name", s("rg")),
        ("configuration_manager", map(vec![("enabled", Yaml::Bool(true)), ("paths", Yaml::List(vec![s("a")]))])),
    ]);
    let source = map(vec![
        ("version", s("2")),
        ("configuration_manager", map(vec![("enabled", Yaml::Bool(false))])),
        ("tag", Yaml::Null),
        ("options", Yaml::List(vec![])),
    ]);
    deep_merge_values(&mut target, &source);
    assert_eq!(
        target,
        map(vec![
            ("name", s("rg")),
            ("configuration_manager", map(vec![("enabled", Yaml::Bool(false)), ("paths", Yaml::List(vec![s("a")]))])),
            ("version", s("2")),
        ])
    );
    remove_nulls(&mut target);
    assert_eq!(target, map(vec![("name", s("rg")), ("version", s("2"))]));
    let messy = map(vec![("a", Yaml::Null), ("b", Yaml::List(vec![])), ("c", Yaml::Number("3".to_string()))]);
    assert_eq!(clean_value(&messy), map(vec![("c", Yaml::Number("3".to_string()))]));
}

#[test]
fn field_lookup_and_documents() {
    let item = map(vec![("name", s("rg")), ("version", Yaml::Number("14".to_string()))]);
    assert_eq!(get_str_field(&item, "name"), Some("rg".to_string()));
    assert_eq!(get_str_field(&item, "version"), None);
    assert!(get_field(&item, "version").is_some());
    assert!(get_field(&item, "url").is_none());
    let items = vec![map(vec![("name", s("a"))]), map(vec![("name", s("b"))]), map(vec![("name", s("b"))])];
    assert_eq!(find_item(&items, "name", "b"), Some(1));
    assert_eq!(find_item(&items, "name", "c"), None);
    assert_eq!(trim_colons_of("tools::"), "tools");
    assert_eq!(new_section_document("fonts:"), "fonts:\n  []\n");
    assert_eq!(new_settings_document(), "settings:\n  macos:\n    []\n");
}

#[test]
fn yaml_output_spacing_and_policy_quotes() {
    let yaml = "update_latest_only_after: 7 days\ntools:\n- name: rg\n  source: brew\n";
    let out = format_yaml_output(yaml);
    assert_eq!(out, "update_latest_only_after: \"7 days\"\ntools:\n\n - name: rg\n   source: brew");
    assert_eq!(FileWriter::new().render(yaml), format!("{}\n", out));
    assert_eq!(format_yaml_output("fonts:\n- name: x\n"), "fonts:\n\n - name: x\n");
}

#[test]
fn sync_normalisation_rules() {
    assert_eq!(normalize_source_type("cargo-install"), "cargo");
    assert_eq!(normalize_source_type("uv-tool"), "uv");
    assert_eq!(normalize_source_type("direct-url"), "url");
    assert_eq!(normalize_source_type("brew"), "brew");
    assert_eq!(normalize_version("latest", "brew"), None);
    assert_eq!(normalize_version("latest", "cargo-install"), Some("latest".to_string()));
    assert_eq!(normalize_version("stable-x86_64", "rustup"), Some("stable".to_string()));
    assert_eq!(normalize_version("1.2", "pip"), Some("1.2".to_string()));
    assert_eq!(resolve_url_for_source(&SourceType::Github, &Some("u".to_string())), None);
    assert_eq!(resolve_url_for_source(&SourceType::Url, &Some("u".to_string())), Some("u".to_string()));
    assert_eq!(filter_empty_vec(Some(vec![])), None);
    assert_eq!(filter_empty_vec(Some(vec!["a".to_string()])), Some(vec!["a".to_string()]));
}

#[test]
fn tool_entries_are_rebuilt_from_state() {
    let st = ToolState {
        version: "latest".to_string(),
        install_path: "/p".to_string(),
        installed_by_devbox: true,
        install_method: "go-install".to_string(),
        renamed_to: Some("hugo".to_string()),
        package_type: "go-module".to_string(),
        repo: None,
        tag: None,
        options: Some(vec![]),
        url: Some("github.com/gohugoio/hugo".to_string()),
        last_updated: None,
        executable_path_after_extract: None,
        executed_post_installation_hooks: Some(vec!["echo".to_string()]),
        configuration_manager: Some(ConfigurationManagerState::new(
            true,
            vec!["$HOME/.config/hugo".to_string()],
            "a".to_string(),
            "b".to_string(),
        )),
    };
    let e = ToolEntry::from_state("hugo-tool".to_string(), &st);
    assert_eq!(e.name, "hugo-tool");
    assert_eq!(e.source, SourceType::Go);
    assert_eq!(e.version.as_deref(), Some("latest"));
    assert_eq!(e.url.as_deref(), Some("github.com/gohugoio/hugo"));
    assert_eq!(e.rename_to.as_deref(), Some("hugo"));
    assert_eq!(e.options, None);
    assert_eq!(e.post_installation_hooks, Some(vec!["echo".to_string()]));
    assert!(e.configuration_manager.enabled);
    assert_eq!(e.configuration_manager.tools_configuration_paths, vec!["$HOME/.config/hugo".to_string()]);
}

#[test]
fn configs_are_regenerated_from_state() {
    let g = ConfigGenerator::new("/out".to_string());
    assert_eq!(g.path_of("tools.yaml"), "/out/tools.yaml");
    assert_eq!(g.generated_files()[4], "/out/shellrc.yaml");
    let mut tools: Store<ToolState> = Store::new();
    tools.insert(
        "jq".to_string(),
        ToolState {
            version: "latest".to_string(),
            install_path: "/p".to_string(),
            installed_by_devbox: true,
            install_method: "brew".to_string(),
            renamed_to: None,
            package_type: "binary-by-brew".to_string(),
            repo: None,
            tag: None,
            options: None,
            url: None,
            last_updated: None,
            executable_path_after_extract: None,
            executed_post_installation_hooks: None,
            configuration_manager: None,
        },
    );
    let tc = g.generate_tools_config(&tools);
    assert_eq!(tc.update_latest_only_after.as_deref(), Some("7 days"));
    assert_eq!(tc.tools.len(), 1);
    assert_eq!(tc.tools[0].source, SourceType::Brew);
    assert_eq!(tc.tools[0].version, None);
    let mut fonts: Store<FontState> = Store::new();
    fonts.insert(
        "Hack".to_string(),
        FontState {
            name: "Hack".to_string(),
            version: "3.4.0".to_string(),
            url: "u".to_string(),
            install_method: "github".to_string(),
            repo: Some("r".to_string()),
            tag: Some("t".to_string()),
            files: vec![],
            install_only: None,
        },
    );
    let fc = g.generate_fonts_config(&fonts);
    assert_eq!(fc.fonts[0].version.as_deref(), Some("3.4.0"));
    assert_eq!(font_entry_from_state(fonts.get("Hack").unwrap()).source, "github");
    let mut settings: Store<SettingState> = Store::new();
    settings.insert(
        "d.k".to_string(),
        SettingState { domain: "d".to_string(), key: "k".to_string(), value: "1".to_string(), value_type: "int".to_string() },
    );
    let sc = g.generate_settings_config(&settings);
    assert_eq!(sc.settings.macos.len(), 1);
    assert_eq!(sc.settings.macos[0].value_type, "int");
    assert!(sc.settings.linux.is_empty());
    let shell = g.generate_shellrc_config();
    assert_eq!(shell.run_commands.shell, "zsh");
    let mc = g.generate_main_config("t".to_string(), "s".to_string(), "sh".to_string(), "f".to_string());
    assert_eq!((mc.tools.as_str(), mc.fonts.as_str()), ("t", "f"));
    let o = SyncOrchestrator::new("/s/state.json".to_string(), "/c".to_string());
    assert_eq!(o.gist_target_path("tools.yaml"), "/c/tools.yaml");
    assert_eq!(o.missing_state_message(), "State file not found: /s/state.json");
    assert_eq!(o.generator().output_dir, "/c");
    assert_eq!(o.missing_state_error(), SyncError::PathError("State file not found: /s/state.json".to_string()));
    assert_eq!(SyncError::Network("x".to_string()).message(), "Network Error: x");
    assert_eq!(SyncError::Io("x".to_string()).message(), "I/O Error: x");
    assert_eq!(SyncError::Json("x".to_string()).message(), "JSON Parsing Error: x");
    assert_eq!(SyncError::Yaml("x".to_string()).message(), "YAML Serialization Error: x");
    assert_eq!(SyncError::PathError("x".to_string()).message(), "Path Error: x");
}

#[test]
fn help_pages_are_styled_segments() {
    let edit = show_edit_help(false);
    assert_eq!(edit[0], Segment { text: "\n", paint: Paint::Plain, width: 0 });
    assert_eq!(edit[1], Segment { text: "setup-devbox edit", paint: Paint::BoldBlue, width: 0 });
    let basic = text_of(&edit);
    assert!(basic.contains("Usage:"));
    assert!(basic.ends_with("  setup-devbox edit --state\n\n"));
    let detailed = text_of(&show_edit_help(true));
    assert!(detailed.contains("Detailed Description:"));
    assert!(detailed.contains("Behavior:"));
    let mut behavior = Vec::new();
    add_edit_behavior_info(&mut behavior);
    assert_eq!(behavior[0], Segment { text: "Behavior:", paint: Paint::BoldYellow, width: 0 });
    let mut installers = Vec::new();
    add_supported_installers(&mut installers);
    assert!(installers.iter().any(|x| x.text == "Rustup" && x.width == 6 && x.paint == Paint::BoldCyan));
    let mut now = Vec::new();
    add_now_basic_examples(&mut now);
    assert_eq!(
        text_of(&now),
        "Examples:\n  setup-devbox now                    # Use default config\n  setup-devbox now --update-latest    # Force update latest versions\n"
    );
    let reset = text_of(&show_reset_help(false));
    assert!(reset.starts_with("setup-devbox reset\nReset the installation state.\n"));
    assert!(!reset.contains("Examples:"));
    assert!(text_of(&show_reset_help(true)).contains("setup-devbox reset --tool starship"));
    assert!(text_of(&show_sync_config_help(true)).contains("Workflow:"));
    assert!(text_of(&show_remove_help(false)).contains("Basic Usage:"));
}

#[test]
fn help_topics_dispatch() {
    match help_run(None, false) {
        HelpTopic::Page(p) => assert!(text_of(&p).contains("SETUP-DEVBOX:")),
        _ => panic!("expected the general page"),
    }
    match help_run(Some("sync_config".to_string()), true) {
        HelpTopic::Page(p) => assert!(text_of(&p).contains("Workflow:")),
        _ => panic!("expected the sync-config page"),
    }
    match help_run(Some("now".to_string()), true) {
        HelpTopic::Page(p) => {
            let t = text_of(&p);
            assert!(t.contains("Configuration Examples:"));
            assert!(t.contains("update_latest_only_after: \"7 days\""));
            assert!(t.contains("State Management:"));
        }
        _ => panic!("expected the now page"),
    }
    match help_run(Some("now".to_string()), false) {
        HelpTopic::Page(p) => assert!(!text_of(&p).contains("Configuration Examples:")),
        _ => panic!("expected the now page"),
    }
    match help_run(Some("add".to_string()), false) {
        HelpTopic::Page(p) => assert_eq!(text_of(&p), text_of(&show_add_help(false))),
        _ => panic!("expected the add page"),
    }
    match help_run(Some("remove".to_string()), true) {
        HelpTopic::Page(p) => assert_eq!(text_of(&p), text_of(&show_remove_help(true))),
        _ => panic!("expected the remove page"),
    }
    assert!(matches!(help_run(Some("installers".to_string()), false), HelpTopic::Installers));
    match help_run(Some("bogus".to_string()), false) {
        HelpTopic::Unknown(t) => assert_eq!(t, "bogus"),
        _ => panic!("expected an unknown topic"),
    }
}

#[test]
fn removing_a_new_item_undoes_adding_it() {
    let original = tools_doc(vec![map(vec![("name", s("rg")), ("source", s("brew"))])]);
    let mut doc = tools_doc(vec![map(vec![("name", s("rg")), ("source", s("brew"))])]);
    let item = map(vec![("name", s("fd")), ("source", s("cargo")), ("tag", Yaml::Null)]);
    assert_eq!(update_or_add_list_item(&mut doc, "tools", "name", "fd", &item), Ok(false));
    assert_eq!(find_item(
        match get_field(&doc, "tools") {
            Some(Yaml::List(items)) => items,
            _ => panic!("expected the tools list"),
        },
        "name",
        "fd"
    ), Some(1));
    assert_eq!(remove_list_item(&mut doc, "tools", "name", "fd"), Ok(true));
    assert_eq!(doc, original);
}

#[test]
fn deep_merge_field_by_field() {
    let mut target = map(vec![
        ("keep", s("k")),
        ("nested", map(vec![("a", s("1")), ("b", s("2"))])),
        ("replace", map(vec![("x", s("y"))])),
        ("skip", s("old")),
    ]);
    let source = map(vec![
        ("nested", map(vec![("b", s("3")), ("c", s("4"))])),
        ("replace", s("flat")),
        ("skip", Yaml::List(vec![])),
        ("new", s("n")),
    ]);
    deep_merge_values(&mut target, &source);
    assert_eq!(get_field(&target, "keep"), Some(&s("k")));
    assert_eq!(
        get_field(&target, "nested"),
        Some(&map(vec![("a", s("1")), ("b", s("3")), ("c", s("4"))]))
    );
    assert_eq!(get_field(&target, "replace"), Some(&s("flat")));
    assert_eq!(get_field(&target, "skip"), Some(&s("old")));
    assert_eq!(get_field(&target, "new"), Some(&s("n")));
}
