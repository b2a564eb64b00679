//! The configuration and state records the library works on: tool, font,
//! setting and alias entries as written in the YAML configuration, and the
//! recorded state of what has been installed.

use vstd::prelude::*;
use crate::text::str_eq;

verus! {

/// Where a tool is installed from.
#[derive(Clone, Copy, Debug, PartialEq, Eq, Structural)]
pub enum SourceType {
    Github,
    Brew,
    Go,
    Cargo,
    Rustup,
    Pip,
    Uv,
    Url,
}

/// The configuration name of a source type.
pub open spec fn source_name(s: SourceType) -> Seq<char> {
    match s {
        SourceType::Github => "github"@,
        SourceType::Brew => "brew"@,
        SourceType::Go => "go"@,
        SourceType::Cargo => "cargo"@,
        SourceType::Rustup => "rustup"@,
        SourceType::Pip => "pip"@,
        SourceType::Uv => "uv"@,
        SourceType::Url => "url"@,
    }
}

/// The source type a configuration name denotes.
pub open spec fn source_from_name(s: Seq<char>) -> Option<SourceType> {
    if s == "github"@ {
        Some(SourceType::Github)
    } else if s == "brew"@ {
        Some(SourceType::Brew)
    } else if s == "go"@ {
        Some(SourceType::Go)
    } else if s == "cargo"@ {
        Some(SourceType::Cargo)
    } else if s == "rustup"@ {
        Some(SourceType::Rustup)
    } else if s == "pip"@ {
        Some(SourceType::Pip)
    } else if s == "uv"@ {
        Some(SourceType::Uv)
    } else if s == "url"@ {
        Some(SourceType::Url)
    } else {
        None
    }
}

impl SourceType {
    /// The configuration name of this source type (what `Display` prints).
    pub fn as_str(&self) -> (r: &'static str)
        ensures
            r@ == source_name(*self),
    {
        match self {
            SourceType::Github => "github",
            SourceType::Brew => "brew",
            SourceType::Go => "go",
            SourceType::Cargo => "cargo",
            SourceType::Rustup => "rustup",
            SourceType::Pip => "pip",
            SourceType::Uv => "uv",
            SourceType::Url => "url",
        }
    }

    /// Parses a configuration name into a source type.
    pub fn parse(s: &str) -> (r: Option<SourceType>)
        ensures
            r == source_from_name(s@),
    {
        if str_eq(s, "github") {
            Some(SourceType::Github)
        } else if str_eq(s, "brew") {
            Some(SourceType::Brew)
        } else if str_eq(s, "go") {
            Some(SourceType::Go)
        } else if str_eq(s, "cargo") {
            Some(SourceType::Cargo)
        } else if str_eq(s, "rustup") {
            Some(SourceType::Rustup)
        } else if str_eq(s, "pip") {
            Some(SourceType::Pip)
        } else if str_eq(s, "uv") {
            Some(SourceType::Uv)
        } else if str_eq(s, "url") {
            Some(SourceType::Url)
        } else {
            None
        }
    }
}

/// Parsing a source type's name gives it back.
pub proof fn law_source_name_round_trip(s: SourceType)
    ensures
        source_from_name(source_name(s)) == Some(s),
{
    reveal_strlit("github");
    reveal_strlit("brew");
    reveal_strlit("go");
    reveal_strlit("cargo");
    reveal_strlit("rustup");
    reveal_strlit("pip");
    reveal_strlit("uv");
    reveal_strlit("url");
    lemma_distinct("brew"@, "github"@);
    lemma_distinct("go"@, "github"@);
    lemma_distinct("go"@, "brew"@);
    lemma_distinct("cargo"@, "github"@);
    lemma_distinct("cargo"@, "brew"@);
    lemma_distinct("cargo"@, "go"@);
    lemma_distinct("rustup"@, "github"@);
    lemma_distinct("rustup"@, "brew"@);
    lemma_distinct("rustup"@, "go"@);
    lemma_distinct("rustup"@, "cargo"@);
    lemma_distinct("pip"@, "github"@);
    lemma_distinct("pip"@, "brew"@);
    lemma_distinct("pip"@, "go"@);
    lemma_distinct("pip"@, "cargo"@);
    lemma_distinct("pip"@, "rustup"@);
    lemma_distinct("uv"@, "github"@);
    lemma_distinct("uv"@, "brew"@);
    lemma_distinct("uv"@, "go"@);
    lemma_distinct("uv"@, "cargo"@);
    lemma_distinct("uv"@, "rustup"@);
    lemma_distinct("uv"@, "pip"@);
    lemma_distinct("url"@, "github"@);
    lemma_distinct("url"@, "brew"@);
    lemma_distinct("url"@, "go"@);
    lemma_distinct("url"@, "cargo"@);
    lemma_distinct("url"@, "rustup"@);
    lemma_distinct("url"@, "pip"@);
    lemma_distinct("url"@, "uv"@);
}

/// Two short words differ when their lengths or one of their first three
/// characters differ.
proof fn lemma_distinct(a: Seq<char>, b: Seq<char>)
    requires
        a.len() >= 2 && b.len() >= 2,
        a.len() != b.len() || a[0] != b[0] || a[1] != b[1] || (a.len() > 2 && a[2] != b[2]),
    ensures
        a != b,
{
}

/// The configuration-manager section of a tool entry.
#[derive(Debug, Clone, PartialEq)]
pub struct ConfigurationManager {
    pub enabled: bool,
    pub tools_configuration_paths: Vec<String>,
}

/// The configuration-manager record kept in a tool's state.
#[derive(Debug, Clone, PartialEq)]
pub struct ConfigurationManagerState {
    pub enabled: bool,
    pub tools_configuration_paths: Vec<String>,
    pub source_configuration_sha: String,
    pub destination_configuration_sha: String,
}

impl ConfigurationManagerState {
    /// Creates a configuration-manager state record.
    pub fn new(
        enabled: bool,
        tools_configuration_paths: Vec<String>,
        source_sha: String,
        destination_sha: String,
    ) -> (r: Self)
        ensures
            r.enabled == enabled,
            r.tools_configuration_paths == tools_configuration_paths,
            r.source_configuration_sha == source_sha,
            r.destination_configuration_sha == destination_sha,
    {
        ConfigurationManagerState {
            enabled,
            tools_configuration_paths,
            source_configuration_sha: source_sha,
            destination_configuration_sha: destination_sha,
        }
    }
}

/// One tool as `tools.yaml` describes it.
#[derive(Debug, Clone, PartialEq)]
pub struct ToolEntry {
    pub name: String,
    pub version: Option<String>,
    pub source: SourceType,
    pub url: Option<String>,
    pub repo: Option<String>,
    pub tag: Option<String>,
    pub rename_to: Option<String>,
    pub options: Option<Vec<String>>,
    pub executable_path_after_extract: Option<String>,
    pub post_installation_hooks: Option<Vec<String>>,
    pub configuration_manager: ConfigurationManager,
}

/// What is recorded about an installed tool.
#[derive(Debug, Clone, PartialEq)]
pub struct ToolState {
    pub version: String,
    pub install_path: String,
    pub installed_by_devbox: bool,
    pub install_method: String,
    pub renamed_to: Option<String>,
    pub package_type: String,
    pub repo: Option<String>,
    pub tag: Option<String>,
    pub options: Option<Vec<String>>,
    pub url: Option<String>,
    pub last_updated: Option<String>,
    pub executable_path_after_extract: Option<String>,
    pub executed_post_installation_hooks: Option<Vec<String>>,
    pub configuration_manager: Option<ConfigurationManagerState>,
}

impl ToolState {
    /// The record of a tool just installed by this program: where it went,
    /// how, as what package, at which version, from which URL, when, and
    /// the hooks that ran; the rest is taken from the tool's entry.
    pub fn new(
        tool_entry: &ToolEntry,
        install_path: &str,
        install_method: String,
        package_type: String,
        version: String,
        url: Option<String>,
        last_updated: Option<String>,
        executed_post_installation_hooks: Option<Vec<String>>,
    ) -> (r: ToolState)
        ensures
            r.version == version,
            r.install_path@ == install_path@,
            r.installed_by_devbox,
            r.install_method == install_method,
            r.renamed_to == tool_entry.rename_to,
            r.package_type == package_type,
            r.repo == tool_entry.repo,
            r.tag == tool_entry.tag,
            crate::sync::opt_views(r.options) == crate::sync::opt_views(tool_entry.options),
            r.url == url,
            r.last_updated == last_updated,
            r.executable_path_after_extract == tool_entry.executable_path_after_extract,
            r.executed_post_installation_hooks == executed_post_installation_hooks,
            r.configuration_manager is None,
    {
        ToolState {
            version,
            install_path: install_path.to_owned(),
            installed_by_devbox: true,
            install_method,
            renamed_to: tool_entry.rename_to.clone(),
            package_type,
            repo: tool_entry.repo.clone(),
            tag: tool_entry.tag.clone(),
            options: crate::sync::clone_opt_strings(&tool_entry.options),
            url,
            last_updated,
            executable_path_after_extract: tool_entry.executable_path_after_extract.clone(),
            executed_post_installation_hooks,
            configuration_manager: None,
        }
    }
}

/// One font as `fonts.yaml` describes it.
#[derive(Debug, Clone, PartialEq)]
pub struct FontEntry {
    pub name: String,
    pub version: Option<String>,
    pub source: String,
    pub repo: Option<String>,
    pub tag: Option<String>,
    pub install_only: Option<Vec<String>>,
}

/// What is recorded about an installed font.
#[derive(Debug, Clone, PartialEq)]
pub struct FontState {
    pub name: String,
    pub version: String,
    pub url: String,
    pub install_method: String,
    pub repo: Option<String>,
    pub tag: Option<String>,
    pub files: Vec<String>,
    pub install_only: Option<Vec<String>>,
}

/// One macOS `defaults` setting.
#[derive(Debug, Clone, PartialEq)]
pub struct SettingEntry {
    pub domain: String,
    pub key: String,
    pub value: String,
    pub value_type: String,
}

/// What is recorded about an applied setting.
#[derive(Debug, Clone, PartialEq)]
pub struct SettingState {
    pub domain: String,
    pub key: String,
    pub value: String,
    pub value_type: String,
}

/// One shell alias.
#[derive(Debug, Clone, PartialEq)]
pub struct AliasEntry {
    pub name: String,
    pub value: String,
}

} // verus!
