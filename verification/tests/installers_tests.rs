use setup_devbox::brew;
use setup_devbox::cargo;
use setup_devbox::engine::{execute_post_installation_hooks, post_installation_hooks_to_run};
use setup_devbox::fonts;
use setup_devbox::github;
use setup_devbox::go;
use setup_devbox::model::{ConfigurationManager, FontEntry, SourceType, ToolEntry};
use setup_devbox::orchestrator::InstallerError;
use setup_devbox::pip::{self, PipVariant};
use setup_devbox::rustup;
use setup_devbox::url::{self, UrlProblem};
use setup_devbox::uv::{self, UvInstaller, UvVersionQuery};

fn tool(name: &str, source: SourceType) -> ToolEntry {
    ToolEntry {
        name: name.to_string(),
        version: None,
        source,
        url: None,
        repo: None,
        tag: None,
        rename_to: None,
        options: None,
        executable_path_after_extract: None,
        post_installation_hooks: None,
        configuration_manager: ConfigurationManager { enabled: false, tools_configuration_paths: vec![] },
    }
}

fn strings(v: &[&str]) -> Vec<String> {
    v.iter().map(|s| s.to_string()).collect()
}

#[test]
fn brew_command_paths_and_versions() {
    let mut t = tool("node", SourceType::Brew);
    t.version = Some("20".to_string());
    t.options = Some(strings(&["--HEAD"]));
    assert_eq!(brew::prepare_brew_install_command(&t), strings(&["install", "node@20", "--HEAD"]));
    t.version = Some("  ".to_string());
    assert_eq!(brew::prepare_brew_install_command(&t), strings(&["install", "node", "--HEAD"]));
    assert_eq!(
        brew::common_brew_paths("jq"),
        strings(&["/opt/homebrew/bin/jq", "/usr/local/bin/jq", "/home/linuxbrew/.linuxbrew/bin/jq", "/opt/homebrew/bin/jq"])
    );
    assert_eq!(brew::brew_prefix_from_output(" /opt/homebrew \n"), Some("/opt/homebrew".to_string()));
    assert_eq!(brew::brew_prefix_from_output("  \n"), None);
    let mut r = tool("ripgrep", SourceType::Brew);
    r.rename_to = Some("rg".to_string());
    assert_eq!(brew::determine_brew_installation_path(&r, Some("/opt/homebrew".to_string()), None), "/opt/homebrew/bin/rg");
    assert_eq!(brew::determine_brew_installation_path(&r, None, Some("/x/rg".to_string())), "/x/rg");
    assert_eq!(brew::determine_brew_installation_path(&r, None, None), "/usr/local/bin/rg");
    let info = r#"{"formulae":[{"name":"jq","versions":{"stable":"1.7.1"},"installed":[{"version":"1.7.1_1"}]}]}"#;
    assert_eq!(brew::parse_brew_info_version(info), Some("1.7.1_1".to_string()));
    assert_eq!(brew::parse_brew_info_version(r#"[{"version":"2.45.0"}]"#), Some("2.45.0".to_string()));
    assert_eq!(brew::parse_brew_info_version("{}"), None);
    assert_eq!(brew::determine_installed_version(&tool("jq", SourceType::Brew), Some("1.7".to_string())), "1.7");
    assert_eq!(brew::determine_installed_version(&tool("jq", SourceType::Brew), None), "latest");
}

#[test]
fn brew_install_records_state_only_on_success() {
    let t = tool("jq", SourceType::Brew);
    let s = brew::install(&t, true, true, "/usr/local/bin/jq", true, None, Some("1.7".to_string()), None).unwrap();
    assert_eq!(s.install_method, "brew");
    assert_eq!(s.version, "1.7");
    assert_eq!(s.package_type, "binary-by-brew");
    assert_eq!(s.install_path, "/usr/local/bin/jq");
    assert!(brew::install(&t, true, false, "/usr/local/bin/jq", true, None, Some("1.7".to_string()), None).is_none());
}

#[test]
fn cargo_registry_and_git_arguments() {
    let mut t = tool("ripgrep", SourceType::Cargo);
    t.version = Some("14.1.0".to_string());
    t.options = Some(strings(&["--locked", "--features=simd"]));
    assert!(!cargo::detect_install_source(&t));
    assert_eq!(
        cargo::prepare_cargo_install_command(&t, false),
        strings(&["install", "ripgrep", "--version", "14.1.0", "--locked", "--features=simd", "--quiet"])
    );
    let mut g = tool("tool", SourceType::Cargo);
    g.version = Some("v1.0".to_string());
    g.options = Some(strings(&["--git=https://github.com/a/b"]));
    assert!(cargo::detect_install_source(&g));
    assert_eq!(
        cargo::prepare_cargo_install_command(&g, true),
        strings(&["install", "--git", "https://github.com/a/b", "tool", "--tag", "v1.0", "--quiet"])
    );
    assert_eq!(cargo::split_whitespace("  a  b\tc "), strings(&["a", "b", "c"]));
    assert_eq!(cargo::expand_option("--branch main"), strings(&["--branch", "main"]));
    assert_eq!(cargo::expand_option("--tag=v2"), strings(&["--tag", "v2"]));
    assert_eq!(cargo::expand_option("--locked"), strings(&["--locked"]));
    assert_eq!(cargo::nonblank_version(&Some(" ".to_string())), None);
}

#[test]
fn cargo_listing_paths_and_versions() {
    let out = "ripgrep v14.1.0:\n    rg\nfd-find v9.0.0:\n    fd\n";
    assert!(cargo::listed_in_cargo_install_list(out, "rg"));
    assert!(!cargo::listed_in_cargo_install_list(out, "ripgrep"));
    assert_eq!(
        cargo::determine_cargo_installation_path("rg", None, Some("/c".to_string()), Some("/h".to_string())),
        "/c/bin/rg"
    );
    assert_eq!(cargo::determine_cargo_installation_path("rg", None, None, Some("/h".to_string())), "/h/.cargo/bin/rg");
    assert_eq!(cargo::determine_cargo_installation_path("rg", Some("/r".to_string()), None, None), "/r/bin/rg");
    assert_eq!(cargo::option_eq_value("--tag=v1"), Some("v1".to_string()));
    assert_eq!(cargo::option_eq_value("--tag"), None);
    assert_eq!(cargo::option_flag_value(&strings(&["--branch", "dev"]), "--branch"), Some("dev".to_string()));
    let mut g = tool("x", SourceType::Cargo);
    g.options = Some(strings(&["--git=https://x", "--rev=0123456789abc"]));
    assert_eq!(cargo::determine_installed_version(&g, true), "rev-0123456");
    g.options = Some(strings(&["--git=https://x", "--branch=dev"]));
    assert_eq!(cargo::determine_installed_version(&g, true), "branch-dev");
    assert_eq!(cargo::determine_installed_version(&tool("y", SourceType::Cargo), false), "latest");
    g.options = Some(strings(&["--git https://github.com/astral-sh/uv", "--tag v0.8.17"]));
    assert_eq!(cargo::determine_installed_version(&g, true), "v0.8.17");
    let listing = "x v0.8.17:\n    x\n";
    let s = cargo::install(&g, true, listing, "/h/.cargo/bin/x", None, true, None).unwrap();
    assert_eq!((s.install_method.as_str(), s.package_type.as_str()), ("cargo-install", "rust-crate"));
    assert_eq!(s.version, "v0.8.17");
    assert!(cargo::install(&g, true, "other v1.0.0:\n    other\n", "/p", None, true, None).is_none());
    assert!(cargo::install(&g, false, listing, "/p", None, true, None).is_none());
}

#[test]
fn go_sources_names_and_paths() {
    let mut t = tool("gopls", SourceType::Go);
    t.url = Some("golang.org/x/tools/gopls".to_string());
    t.version = Some("latest".to_string());
    let src = go::determine_installation_source(&t);
    assert_eq!(src, "golang.org/x/tools/gopls");
    assert_eq!(go::prepare_go_install_command(&t, &src), strings(&["install", "golang.org/x/tools/gopls@latest"]));
    assert_eq!(go::split_char("a/b//c", '/'), strings(&["a", "b", "", "c"]));
    assert_eq!(go::extract_binary_name_from_url("github.com/x/y/"), Some("y".to_string()));
    assert_eq!(go::extract_binary_name_from_url("github.com/x/y/cmd/tool"), Some("tool".to_string()));
    let mut h = tool("hugo-tool", SourceType::Go);
    h.url = Some("github.com/gohugoio/hugo".to_string());
    assert_eq!(go::determine_actual_binary_name(&h), "hugo");
    assert_eq!(go::generate_alternative_names(&h), strings(&["hugo-tool", "hugo"]));
    let mut c = tool("cmd-foo", SourceType::Go);
    c.rename_to = Some("foo2".to_string());
    assert_eq!(go::determine_actual_binary_name(&c), "foo2");
    assert_eq!(go::generate_alternative_names(&c), strings(&["foo"]));
    assert_eq!(go::go_env_path("/home/u/go/bin\n", ""), Some("/home/u/go/bin".to_string()));
    assert_eq!(go::go_env_path("/home/u/go\n", "hugo"), Some("/home/u/go/hugo".to_string()));
    assert_eq!(go::go_env_path("\n", "hugo"), None);
    assert_eq!(go::determine_go_installation_path("hugo", None, None, Some("/h".to_string())), "/h/go/bin/hugo");
    assert_eq!(go::determine_go_installation_path("hugo", Some("/gb/hugo".to_string()), None, None), "/gb/hugo");
    assert!(go::install(&h, true, false, "/p", None, None).is_none());
    let s = go::install(&h, true, true, "/h/go/bin/hugo", None, None).unwrap();
    assert_eq!((s.install_method.as_str(), s.package_type.as_str()), ("go-install", "go-module"));
    assert_eq!(s.url, h.url);
    let mut u = h.clone();
    u.url = Some("github.com/gohugoio/hugo".to_string());
    assert_eq!(go::install(&u, true, true, "/p", None, None).unwrap().url, u.url);
}

#[test]
fn pip_commands_and_parsing() {
    assert_eq!(PipVariant::Python3Module.command(), "python3");
    assert!(PipVariant::PythonModule.is_module());
    assert!(!PipVariant::Pip3.is_module());
    let mut t = tool("black", SourceType::Pip);
    t.version = Some("23.11.0".to_string());
    t.options = Some(strings(&["--user"]));
    assert!(pip::validate_package_configuration(&t));
    assert!(!pip::validate_package_configuration(&tool("bad name", SourceType::Pip)));
    assert!(pip::detect_installation_mode(&t));
    assert_eq!(
        pip::prepare_pip_install_command(&t, PipVariant::Python3Module),
        strings(&["-m", "pip", "install", "black==23.11.0", "--user"])
    );
    assert_eq!(
        pip::build_pip_show_command(PipVariant::Pip3, "black"),
        ("pip3".to_string(), strings(&["show", "black"]))
    );
    assert_eq!(
        pip::build_pip_list_command(PipVariant::PythonModule),
        ("python".to_string(), strings(&["-m", "pip", "list", "--format=freeze"]))
    );
    assert_eq!(
        pip::parse_version_from_output("Name: black\nVersion: 23.11.0\nSummary: x\n"),
        Some("23.11.0".to_string())
    );
    assert_eq!(pip::parse_version_from_output("Name: black\n"), None);
    assert_eq!(
        pip::user_installation_path("black", Some("/home/u/.local\n".to_string()), None),
        Some("/home/u/.local/bin/black".to_string())
    );
    assert_eq!(
        pip::user_installation_path("black", None, Some("/home/u".to_string())),
        Some("/home/u/.local/bin/black".to_string())
    );
    assert_eq!(pip::user_installation_path("black", None, None), None);
    assert_eq!(pip::common_python_paths("black")[3], "/opt/local/bin/black");
    assert_eq!(pip::determine_pip_installation_path("black", None, None), "/usr/local/bin/black");
    assert_eq!(pip::recorded_version(&t, None), "23.11.0");
    assert_eq!(pip::recorded_version(&t, Some("23.12".to_string())), "23.12");
    let s = pip::install(&t, true, true, true, true, "/p", None, Some("23.11.0".to_string()), None).unwrap();
    assert_eq!((s.install_method.as_str(), s.package_type.as_str()), ("pip", "python-package"));
    assert!(pip::install(&t, false, true, true, true, "/p", None, None, None).is_none());
}

#[test]
fn rustup_lists_and_versions() {
    let mut t = tool("rust", SourceType::Rustup);
    assert_eq!(rustup::validate_toolchain_version(&t), None);
    t.version = Some("stable".to_string());
    assert_eq!(rustup::validate_toolchain_version(&t), Some("stable".to_string()));
    let list = "stable-aarch64-apple-darwin (default)\nnightly-aarch64-apple-darwin\n";
    assert!(rustup::toolchain_in_list(list, "stable"));
    assert!(rustup::toolchain_in_list(list, "nightly"));
    assert!(!rustup::toolchain_in_list(list, "beta"));
    let comps = "clippy-aarch64-apple-darwin\nrustfmt-aarch64-apple-darwin\n";
    assert!(rustup::component_in_list(comps, "clippy"));
    assert!(rustup::components_installed(comps, &strings(&["clippy", "rustfmt"])));
    assert!(!rustup::components_installed(comps, &strings(&["clippy", "miri"])));
    assert_eq!(rustup::toolchain_install_args("stable"), strings(&["toolchain", "install", "stable"]));
    assert_eq!(
        rustup::component_add_args("clippy", "stable"),
        strings(&["component", "add", "clippy", "--toolchain", "stable"])
    );
    assert_eq!(
        rustup::determine_rustup_installation_path("stable", None, Some("/h".to_string())),
        "/h/.rustup/toolchains/stable/bin"
    );
    assert_eq!(
        rustup::parse_active_toolchain("stable-aarch64-apple-darwin (default)\n", "stable"),
        Some("stable-aarch64-apple-darwin".to_string())
    );
    assert_eq!(
        rustup::parse_rustc_version("rustc 1.79.0 (129f3b996 2024-06-10)\n"),
        Some("1.79.0".to_string())
    );
    assert_eq!(rustup::parse_rustc_version("nothing"), None);
    assert_eq!(rustup::recorded_version("stable", None, Some("1.79.0".to_string())), "1.79.0");
    assert_eq!(rustup::recorded_version("stable", None, None), "stable");
    let s = rustup::install(&t, true, true, true, "/p", None, "1.79.0".to_string(), None).unwrap();
    assert_eq!((s.install_method.as_str(), s.package_type.as_str()), ("rustup", "rust-toolchain"));
    assert!(rustup::install(&tool("x", SourceType::Rustup), true, true, true, "/p", None, "v".to_string(), None).is_none());
}

#[test]
fn github_configuration_and_assets() {
    let mut t = tool("rg", SourceType::Github);
    assert_eq!(github::validate_github_configuration(&t), None);
    t.repo = Some("BurntSushi/ripgrep".to_string());
    t.tag = Some("14.1.0".to_string());
    assert_eq!(
        github::validate_github_configuration(&t),
        Some(("BurntSushi/ripgrep".to_string(), "14.1.0".to_string()))
    );
    assert_eq!(
        github::release_api_url("BurntSushi/ripgrep", "14.1.0"),
        "https://api.github.com/repos/BurntSushi/ripgrep/releases/tags/14.1.0"
    );
    let assets = vec![
        ("rg-linux.tar.gz".to_string(), false),
        ("rg-macos.tar.gz".to_string(), true),
        ("rg-macos.pkg".to_string(), true),
    ];
    assert_eq!(github::select_platform_asset(&assets), Some(2));
    let plain = vec![("a.zip".to_string(), false), ("b.tar.gz".to_string(), true)];
    assert_eq!(github::select_platform_asset(&plain), Some(1));
    assert_eq!(github::select_platform_asset(&vec![("a".to_string(), false)]), None);
    let dmg_first = vec![
        ("tool-darwin-arm64.dmg".to_string(), true),
        ("tool-darwin-arm64.pkg".to_string(), true),
        ("tool-darwin-arm64.tar.gz".to_string(), true),
    ];
    assert_eq!(github::select_platform_asset(&dmg_first), Some(1));
    let archive_first = vec![("tool.tar.gz".to_string(), true), ("tool.dmg".to_string(), true)];
    assert_eq!(github::select_platform_asset(&archive_first), Some(1));
    let unversioned = github::install(&t, Some(("binary".to_string(), "/bin/rg".to_string())), "u".to_string(), None, None)
        .unwrap();
    assert_eq!(unversioned.version, "14.1.0");
    assert!(github::install(&t, None, "u".to_string(), None, None).is_none());
    t.version = Some("14.1.0".to_string());
    let s = github::install(&t, Some(("binary".to_string(), "/bin/rg".to_string())), "u".to_string(), None, None).unwrap();
    assert_eq!((s.install_method.as_str(), s.url.as_deref()), ("github", Some("u")));
}

#[test]
fn url_validation_and_install() {
    let mut t = tool("x", SourceType::Url);
    assert!(matches!(url::validate_url_configuration(&t), Err(UrlProblem::Missing)));
    t.url = Some("   ".to_string());
    assert!(matches!(url::validate_url_configuration(&t), Err(UrlProblem::Missing)));
    t.url = Some("ftp://x".to_string());
    assert!(matches!(url::validate_url_configuration(&t), Err(UrlProblem::NotHttp)));
    t.url = Some("https://x/a b".to_string());
    assert!(matches!(url::validate_url_configuration(&t), Err(UrlProblem::HasSpace)));
    t.url = Some(" https://x/tool.tar.gz ".to_string());
    assert_eq!(url::validate_url_configuration(&t), Ok("https://x/tool.tar.gz".to_string()));
    assert!(url::verify_installation("macos-pkg-installer", false, false, false));
    assert!(url::verify_installation("binary", true, true, false));
    assert!(!url::verify_installation("binary", true, false, true));
    assert!(!url::verify_installation("archive", true, false, false));
    assert!(url::verify_installation("archive", true, false, true));
    let s = url::install(&t, Some(("binary".to_string(), "/bin/x".to_string())), true, None, None)
        .unwrap();
    assert_eq!(s.install_method, "direct-url");
    assert_eq!(s.url, Some("https://x/tool.tar.gz".to_string()));
    assert!(url::install(&t, None, true, None, None).is_none());
    let mut bad = t.clone();
    bad.url = Some("ftp://x".to_string());
    assert!(url::install(&bad, Some(("binary".to_string(), "/bin/x".to_string())), true, None, None).is_none());
}

#[test]
fn fonts_validation_and_files() {
    let mut f = FontEntry {
        name: "Fira Code".to_string(),
        version: None,
        source: "GitHub".to_string(),
        repo: Some("ryanoasis/nerd-fonts".to_string()),
        tag: Some("v3.4.0".to_string()),
        install_only: None,
    };
    let d = fonts::validate_font_entry(&f).unwrap();
    assert_eq!(d.asset_name, "FiraCode.zip");
    assert_eq!(d.url, "https://github.com/ryanoasis/nerd-fonts/releases/download/v3.4.0/FiraCode.zip");
    assert_eq!(fonts::determine_font_version(&f), "v3.4.0");
    assert_eq!(fonts::temp_dir_name("Fira Code"), "setup-devbox-font-Fira-Code");
    assert!(fonts::should_install_file("FiraCode-Regular.ttf", "TTF", true, &None));
    assert!(!fonts::should_install_file(".hidden.ttf", "ttf", true, &None));
    assert!(!fonts::should_install_entry(".hidden/Font-Regular.ttf", "Font-Regular.ttf", "ttf", true, &None));
    assert!(!fonts::should_install_entry("fonts/.cache/Font-Regular.ttf", "Font-Regular.ttf", "ttf", true, &None));
    assert!(fonts::should_install_entry("fonts/Font-Regular.ttf", "Font-Regular.ttf", "ttf", true, &None));
    assert!(!fonts::should_install_file("readme.md", "md", true, &None));
    let only = Some(vec!["mono".to_string()]);
    assert!(fonts::should_install_file("FiraCodeMono-Bold.otf", "otf", true, &only));
    assert!(!fonts::should_install_file("FiraCode-Bold.otf", "otf", true, &only));
    assert!(fonts::install(&f, Some(d.clone()), vec![]).is_none());
    let s = fonts::install(&f, Some(d.clone()), vec!["a.ttf".to_string()]).unwrap();
    assert_eq!(s.files, vec!["a.ttf".to_string()]);
    assert_eq!(s.install_only, None);
    f.install_only = only.clone();
    let filtered = fonts::install(&f, Some(d), vec!["a.ttf".to_string()]).unwrap();
    assert_eq!(filtered.install_only, only);
    f.tag = None;
    assert!(fonts::validate_font_entry(&f).is_none());
}

#[test]
fn post_installation_hooks() {
    let mut t = tool("x", SourceType::Brew);
    assert!(post_installation_hooks_to_run(&t).is_none());
    assert_eq!(execute_post_installation_hooks(&t, Ok(strings(&["a"]))), None);
    t.post_installation_hooks = Some(vec![]);
    assert!(post_installation_hooks_to_run(&t).is_none());
    t.post_installation_hooks = Some(strings(&["echo hi"]));
    assert_eq!(post_installation_hooks_to_run(&t), Some(&strings(&["echo hi"])));
    assert_eq!(execute_post_installation_hooks(&t, Ok(strings(&["echo hi"]))), Some(strings(&["echo hi"])));
    assert_eq!(execute_post_installation_hooks(&t, Err("failed".to_string())), None);
}

#[test]
fn uv_modes_and_arguments() {
    let mut t = tool("ruff", SourceType::Uv);
    t.version = Some("0.1.0".to_string());
    t.options = Some(strings(&["--mode=pip", "--upgrade"]));
    assert_eq!(uv::determine_installation_mode(&t), ("pip".to_string(), strings(&["install"])));
    assert!(uv::validate_uv_options(&t));
    assert!(uv::validate_uv_configuration(&t));
    assert_eq!(
        uv::build_command_args("pip", &strings(&["install"]), &t),
        Some(strings(&["install", "ruff==0.1.0", "--upgrade"]))
    );
    let mut py = tool("python", SourceType::Uv);
    py.options = Some(strings(&["--mode=python"]));
    assert!(!uv::validate_uv_configuration(&py));
    py.version = Some("3.11.0".to_string());
    assert!(uv::validate_uv_configuration(&py));
    let mut bad = tool("x", SourceType::Uv);
    bad.options = Some(strings(&["--mode=conda"]));
    assert!(!uv::validate_uv_options(&bad));
    assert_eq!(uv::extract_version_number("cpython-3.12.1"), "3.12.1");
    assert_eq!(uv::extract_version_number("none"), "none");
    assert_eq!(uv::package_type_for("python"), "python-interpreter");
    assert_eq!(uv::install_method_for("tool"), "uv-tool");
    assert_eq!(uv::determine_install_path("tool", "ruff", Some("/h"), None), "/h/.local/bin/ruff");
    assert_eq!(uv::determine_install_path("python", "python", None, Some("/p/python3")), "/p/python3");
    assert_eq!(uv::default_python_path("python", None), "/usr/local/share/uv/python/python");
    assert_eq!(uv::major_minor("3.11.4"), "3.11");
    assert_eq!(uv::major_minor("3"), "3");
}

#[test]
fn uv_installer_decisions() {
    let inst = UvInstaller;
    let mut t = tool("ruff", SourceType::Uv);
    assert_eq!(inst.command_for(&t), Ok(("tool".to_string(), strings(&["install", "ruff"]))));
    let s = inst.install(&t, Some(true), Some("/h"), None, None).unwrap();
    assert_eq!(s.install_method, "uv-tool");
    assert_eq!(s.package_type, "python-package");
    assert_eq!(s.install_path, "/h/.local/bin/ruff");
    assert_eq!(s.version, "unknown");
    assert_eq!(
        inst.install(&t, None, None, None, None).unwrap_err(),
        InstallerError::CommandFailed("Failed to execute 'uv tool'".to_string())
    );
    assert_eq!(
        inst.install(&t, Some(false), None, None, None).unwrap_err(),
        InstallerError::InstallationFailed("Installation failed for 'ruff'".to_string())
    );
    t.version = Some(" ".to_string());
    assert_eq!(
        inst.install(&t, Some(true), None, None, None).unwrap_err(),
        InstallerError::ConfigurationError("Failed to build command args".to_string())
    );
    let blank = tool("  ", SourceType::Uv);
    assert_eq!(
        inst.command_for(&blank).unwrap_err(),
        InstallerError::ConfigurationError("Invalid configuration for '  '".to_string())
    );
    let mut py = tool("python", SourceType::Uv);
    py.version = Some("3.11.4".to_string());
    py.options = Some(strings(&["--mode=python"]));
    assert_eq!(inst.latest_version_query(&py), UvVersionQuery::Python(Some("3.11".to_string())));
    assert_eq!(
        inst.get_latest_version(&py, None).unwrap_err(),
        InstallerError::VersionDetectionFailed("Failed to get latest python version for 'python'".to_string())
    );
    assert_eq!(inst.get_latest_version(&py, Some("3.11.9".to_string())), Ok("3.11.9".to_string()));
    assert_eq!(inst.latest_version_query(&tool("ruff", SourceType::Uv)), UvVersionQuery::Skipped);
    assert_eq!(
        inst.get_latest_version(&tool("ruff", SourceType::Uv), None),
        Ok("Skipped (not supported for uv tool)".to_string())
    );
}

#[test]
fn uv_latest_versions_from_listings() {
    let listing = r#"[
        {"key": "cpython-3.11.4-macos-aarch64-none", "version": "3.11.4"},
        {"key": "cpython-3.11.9-macos-aarch64-none", "version": "3.11.9"},
        {"key": "cpython-3.12.1-macos-aarch64-none", "version": "3.12.1"},
        {"key": "pypy-3.11.0-macos-aarch64-none"},
        {"other": 1}
    ]"#;
    assert_eq!(uv::get_latest_uv_python_version(listing, &Some("3.11".to_string())), Some("3.11.9".to_string()));
    assert_eq!(uv::get_latest_uv_python_version(listing, &Some("3.12".to_string())), Some("3.12.1".to_string()));
    assert_eq!(uv::get_latest_uv_python_version(listing, &None), None);
    assert_eq!(uv::get_latest_uv_python_version("not json", &Some("3".to_string())), None);
    let search = "ruff (0.4.2)\n  An extremely fast linter\nruff-lsp (0.0.1)\n";
    assert_eq!(uv::get_latest_uv_pip_version(search, "ruff"), Some("0.4.2".to_string()));
    assert_eq!(uv::get_latest_uv_pip_version(search, "black"), None);
}

#[test]
fn uv_installed_interpreters_and_offered_versions() {
    let installed = r#"[
        {"key": "cpython-3.11.4-macos-aarch64-none", "path": "/u/python3.11"},
        {"key": "cpython-3.12.1-macos-aarch64-none", "path": "/u/python3.12"}
    ]"#;
    assert_eq!(uv::get_python_installation_path(installed, "3.12"), Some("/u/python3.12".to_string()));
    assert_eq!(uv::get_python_installation_path(installed, "cpython"), Some("/u/python3.11".to_string()));
    assert_eq!(uv::get_python_installation_path(installed, "pypy"), None);
    assert_eq!(uv::get_python_installation_path("oops", "3.12"), None);
    let offered = r#"[{"version": "3.12.1"}, {"version": "3.11.4"}, {"other": true}]"#;
    assert!(uv::is_valid_python_version("python3.12.1", Some(offered)));
    assert!(!uv::is_valid_python_version("3.12", Some(offered)));
    assert!(!uv::is_valid_python_version("3.12.1", None));
    assert!(!uv::is_valid_python_version("3.12.1", Some("nope")));
}

#[test]
fn pip_list_verification() {
    let listing = "black 23.11.0\nRequests 2.31\n\n";
    assert!(pip::verify_package_in_list("Black", Some(listing.to_string())));
    assert!(!pip::verify_package_in_list("requests", Some(listing.to_string())));
    assert!(pip::verify_package_in_list("anything", None));
    // `--format=freeze` lines are read up to their `==`.
    assert!(pip::verify_package_in_list("black", Some("black==23.11.0\n".to_string())));
    assert!(pip::verify_package_in_list("requests", Some("requests==2.31.0\n".to_string())));
    assert!(!pip::verify_package_in_list("request", Some("requests==2.31.0\n".to_string())));
}

#[test]
fn uv_pip_search_readability() {
    assert!(!uv::uv_pip_search_unreadable("black (23.11.0)\n", "black"));
    assert!(uv::uv_pip_search_unreadable("black )23.11.0(\n", "black"));
    assert!(!uv::uv_pip_search_unreadable("nothing here\n", "black"));
}
