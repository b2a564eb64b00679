//! Regenerating configuration from recorded state: converting state records
//! back into configuration entries, and the YAML text touch-ups applied when
//! the regenerated files are written.

use vstd::prelude::*;
use crate::model::{
    SourceType, ToolEntry, ToolState, FontEntry, FontState, ConfigurationManager,
    ConfigurationManagerState, source_from_name,
};
use crate::text::{
    has_prefix, contains_seq, trim_spec, trim_start_spec, is_ws, chars_of, string_from_chars,
    str_eq, starts_with, strip_prefix, contains_str, owned, concat2, trim, first_occurrence, find_str,
    push_char,
};
use crate::uv::{views, clone_strings};
use crate::store::{Store, Named};
use crate::model::{SettingEntry, SettingState, AliasEntry};
use crate::paths::{joined, path_join};
use crate::yaml_text::{formatted_yaml, format_yaml_output};

verus! {

/// The source name behind an install method recorded in state
/// (`cargo-install` → `cargo`, `go-install` → `go`, `direct-url` → `url`,
/// `uv-…` → `uv`; other methods are already source names).
pub open spec fn source_of_method(m: Seq<char>) -> Seq<char> {
    if m == "cargo-install"@ {
        "cargo"@
    } else if m == "go-install"@ {
        "go"@
    } else if m == "direct-url"@ {
        "url"@
    } else if has_prefix(m, "uv-"@) {
        "uv"@
    } else {
        m
    }
}

/// Maps an install method recorded in state to the source name it came from.
pub fn normalize_source_type(install_method: &str) -> (r: String)
    ensures
        r@ == source_of_method(install_method@),
{
    if str_eq(install_method, "cargo-install") {
        owned("cargo")
    } else if str_eq(install_method, "go-install") {
        owned("go")
    } else if str_eq(install_method, "direct-url") {
        owned("url")
    } else if starts_with(install_method, "uv-") {
        owned("uv")
    } else {
        owned(install_method)
    }
}

/// The version written back for a tool: omitted for brew tools on
/// "latest"; rustup channels collapse to `stable`/`nightly`.
pub open spec fn config_version(version: Seq<char>, install_method: Seq<char>) -> Option<Seq<char>> {
    if version == "latest"@ && install_method == "brew"@ {
        None
    } else if version == "latest"@ {
        Some("latest"@)
    } else if contains_seq(version, "stable"@) {
        Some("stable"@)
    } else if contains_seq(version, "nightly"@) {
        Some("nightly"@)
    } else {
        Some(version)
    }
}

/// The version written back for a tool (see [`config_version`]).
pub fn normalize_version(version: &str, install_method: &str) -> (r: Option<String>)
    ensures
        match r {
            Some(s) => config_version(version@, install_method@) == Some(s@),
            None => config_version(version@, install_method@) is None,
        },
{
    if str_eq(version, "latest") && str_eq(install_method, "brew") {
        None
    } else if str_eq(version, "latest") {
        Some(owned("latest"))
    } else if contains_str(version, "stable") {
        Some(owned("stable"))
    } else if contains_str(version, "nightly") {
        Some(owned("nightly"))
    } else {
        Some(owned(version))
    }
}

/// The URL written back for a tool: GitHub tools get none.
pub fn resolve_url_for_source(source: &SourceType, url: &Option<String>) -> (r: Option<String>)
    ensures
        *source == SourceType::Github ==> r is None,
        *source != SourceType::Github ==> r == *url,
{
    match source {
        SourceType::Github => None,
        _ => url.clone(),
    }
}

/// A list written back only when it is present and not empty.
pub fn filter_empty_vec(vec_opt: Option<Vec<String>>) -> (r: Option<Vec<String>>)
    ensures
        match vec_opt {
            Some(v) => if v@.len() == 0 {
                r is None
            } else {
                r == Some(v)
            },
            None => r is None,
        },
{
    match vec_opt {
        Some(v) => if v.len() == 0 {
            None
        } else {
            Some(v)
        },
        None => None,
    }
}

/// The configuration-manager section written back: only an enabled record
/// is kept, without its checksums.
pub fn resolve_configuration_manager(config_manager: &Option<ConfigurationManagerState>) -> (r: Option<ConfigurationManager>)
    ensures
        match config_manager {
            Some(m) => if m.enabled {
                r is Some && r->0.enabled && views(r->0.tools_configuration_paths@) == views(
                    m.tools_configuration_paths@,
                )
            } else {
                r is None
            },
            None => r is None,
        },
{
    match config_manager {
        Some(m) => if m.enabled {
            Some(
                ConfigurationManager {
                    enabled: m.enabled,
                    tools_configuration_paths: clone_strings(&m.tools_configuration_paths),
                },
            )
        } else {
            None
        },
        None => None,
    }
}

/// The source a recorded tool is written back with: the one its install
/// method names, or `url` when it names none.
pub open spec fn source_from_state(install_method: Seq<char>) -> SourceType {
    match source_from_name(source_of_method(install_method)) {
        Some(s) => s,
        None => SourceType::Url,
    }
}

/// The list written back for an optional recorded list: kept only when
/// present and not empty.
pub open spec fn nonempty_views(o: Option<Vec<String>>) -> Option<Seq<Seq<char>>> {
    match o {
        Some(v) => if v@.len() > 0 {
            Some(views(v@))
        } else {
            None
        },
        None => None,
    }
}

/// Whether `e` is the configuration entry written back for the tool
/// recorded under `name` with state `st`.
pub open spec fn rebuilt_from(e: ToolEntry, name: Seq<char>, st: ToolState) -> bool {
    &&& e.name@ == name
    &&& e.source == source_from_state(st.install_method@)
    &&& match e.version {
        Some(v) => config_version(st.version@, st.install_method@) == Some(v@),
        None => config_version(st.version@, st.install_method@) is None,
    }
    &&& (e.source == SourceType::Github ==> e.url is None)
    &&& (e.source != SourceType::Github ==> e.url == st.url)
    &&& e.repo == st.repo
    &&& e.tag == st.tag
    &&& e.rename_to == st.renamed_to
    &&& opt_views(e.options) == nonempty_views(st.options)
    &&& e.executable_path_after_extract == st.executable_path_after_extract
    &&& opt_views(e.post_installation_hooks) == nonempty_views(st.executed_post_installation_hooks)
    &&& e.configuration_manager.enabled == (st.configuration_manager is Some
        && st.configuration_manager->0.enabled)
    &&& (e.configuration_manager.enabled ==> views(e.configuration_manager.tools_configuration_paths@)
        == views(st.configuration_manager->0.tools_configuration_paths@))
    &&& (!e.configuration_manager.enabled ==> e.configuration_manager.tools_configuration_paths@.len()
        == 0)
}

impl ToolEntry {
    /// Rebuilds a tool entry from its recorded state (see [`rebuilt_from`]).
    pub fn from_state(name: String, tool_state: &ToolState) -> (r: ToolEntry)
        ensures
            rebuilt_from(r, name@, *tool_state),
    {
        let source_str = normalize_source_type(tool_state.install_method.as_str());
        let source = match SourceType::parse(source_str.as_str()) {
            Some(s) => s,
            None => SourceType::Url,
        };
        let url_for_config = resolve_url_for_source(&source, &tool_state.url);
        let config_manager = resolve_configuration_manager(&tool_state.configuration_manager);
        let options_copy = clone_opt_strings(&tool_state.options);
        let hooks_copy = clone_opt_strings(&tool_state.executed_post_installation_hooks);
        proof {
            if options_copy is Some {
                assert(views(options_copy->0@).len() == options_copy->0@.len());
                assert(views(tool_state.options->0@).len() == tool_state.options->0@.len());
            }
            if hooks_copy is Some {
                assert(views(hooks_copy->0@).len() == hooks_copy->0@.len());
                assert(views(tool_state.executed_post_installation_hooks->0@).len()
                    == tool_state.executed_post_installation_hooks->0@.len());
            }
        }
        let options = filter_empty_vec(options_copy);
        let hooks = filter_empty_vec(hooks_copy);
        ToolEntry {
            name,
            version: normalize_version(tool_state.version.as_str(), tool_state.install_method.as_str()),
            source,
            url: url_for_config,
            repo: tool_state.repo.clone(),
            tag: tool_state.tag.clone(),
            rename_to: tool_state.renamed_to.clone(),
            options,
            executable_path_after_extract: tool_state.executable_path_after_extract.clone(),
            post_installation_hooks: hooks,
            configuration_manager: match config_manager {
                Some(c) => c,
                None => ConfigurationManager { enabled: false, tools_configuration_paths: Vec::new() },
            },
        }
    }
}

/// An optional list of strings read as character sequences.
pub open spec fn opt_views(o: Option<Vec<String>>) -> Option<Seq<Seq<char>>> {
    match o {
        Some(v) => Some(views(v@)),
        None => None,
    }
}

/// Copies an optional list of strings.
pub fn clone_opt_strings(o: &Option<Vec<String>>) -> (r: Option<Vec<String>>)
    ensures
        opt_views(r) == opt_views(*o),
{
    match o {
        Some(v) => Some(clone_strings(v)),
        None => None,
    }
}

/// Rebuilds a font entry from its recorded state.
pub fn font_entry_from_state(font_state: &FontState) -> (r: FontEntry)
    ensures
        r.name == font_state.name,
        r.source == font_state.install_method,
        r.version == Some(font_state.version),
        r.repo == font_state.repo,
        r.tag == font_state.tag,
        opt_views(r.install_only) == opt_views(font_state.install_only),
{
    FontEntry {
        name: font_state.name.clone(),
        source: font_state.install_method.clone(),
        version: Some(font_state.version.clone()),
        repo: font_state.repo.clone(),
        tag: font_state.tag.clone(),
        install_only: clone_opt_strings(&font_state.install_only),
    }
}

/// The state file read back: tools, settings and fonts, each by name.
pub struct AppState {
    pub tools: Store<ToolState>,
    pub settings: Store<SettingState>,
    pub fonts: Store<FontState>,
}

/// `config.yaml`: where the other configuration files are.
pub struct MainConfig {
    pub tools: String,
    pub settings: String,
    pub shellrc: String,
    pub fonts: String,
}

/// `tools.yaml`.
pub struct ToolConfig {
    pub update_latest_only_after: Option<String>,
    pub tools: Vec<ToolEntry>,
}

/// `fonts.yaml`.
pub struct FontsConfig {
    pub fonts: Vec<FontEntry>,
}

/// The per-OS lists of `settings.yaml`.
pub struct OsSpecificSettings {
    pub macos: Vec<SettingEntry>,
    pub linux: Vec<SettingEntry>,
}

/// `settings.yaml`.
pub struct SettingsConfig {
    pub settings: OsSpecificSettings,
}

/// `shellrc.yaml`.
pub struct ShellConfig {
    pub run_commands: ShellCommands,
    pub aliases: Vec<AliasEntry>,
}

/// The shell and its run commands.
pub struct ShellCommands {
    pub shell: String,
    pub run_commands: Vec<ShellCommand>,
}

/// One run command and the section it goes in.
pub struct ShellCommand {
    pub command: String,
    pub section: String,
}

/// Whether `e` is the font entry written back for the font state `st`.
pub open spec fn font_rebuilt_from(e: FontEntry, st: FontState) -> bool {
    &&& e.name == st.name
    &&& e.source == st.install_method
    &&& e.version == Some(st.version)
    &&& e.repo == st.repo
    &&& e.tag == st.tag
    &&& opt_views(e.install_only) == opt_views(st.install_only)
}

/// Whether `e` is the setting written back for the setting state `st`.
pub open spec fn setting_rebuilt_from(e: SettingEntry, st: SettingState) -> bool {
    e.domain == st.domain && e.key == st.key && e.value == st.value && e.value_type == st.value_type
}

/// The update policy written into regenerated `tools.yaml`.
pub open spec fn regenerated_update_policy() -> Seq<char> {
    "7 days"@
}

/// Writes YAML text in the layout the configuration files use.
pub struct FileWriter {}

/// The text written for serialized YAML: the formatted text, ending with a
/// newline.
pub open spec fn written_yaml(yaml: Seq<char>) -> Seq<char> {
    let f = formatted_yaml(yaml);
    if f.len() > 0 && f.last() == '\n' {
        f
    } else {
        f.push('\n')
    }
}

impl FileWriter {
    /// A writer.
    pub fn new() -> (r: Self)
        ensures
            r == (FileWriter {}),
    {
        FileWriter {}
    }

    /// The formatted text of serialized YAML (see [`formatted_yaml`]).
    pub fn format_yaml_output(&self, yaml: &str) -> (r: String)
        ensures
            r@ == formatted_yaml(yaml@),
    {
        format_yaml_output(yaml)
    }

    /// The text written to a file for serialized YAML: formatted, with a
    /// final newline added when it has none.
    pub fn render(&self, yaml: &str) -> (r: String)
        ensures
            r@ == written_yaml(yaml@),
    {
        let mut out = format_yaml_output(yaml);
        let n = out.as_str().unicode_len();
        if n > 0 && out.as_str().get_char(n - 1) == '\n' {
            out
        } else {
            push_char(&mut out, '\n');
            out
        }
    }
}

/// Builds the regenerated configuration files for a directory.
pub struct ConfigGenerator {
    pub output_dir: String,
    pub writer: FileWriter,
}

impl ConfigGenerator {
    /// A generator writing into `output_dir`.
    pub fn new(output_dir: String) -> (r: Self)
        ensures
            r.output_dir == output_dir,
    {
        ConfigGenerator { output_dir, writer: FileWriter::new() }
    }

    /// The path of `name` in the output directory.
    pub fn path_of(&self, name: &str) -> (r: String)
        ensures
            r@ == joined(self.output_dir@, name@),
    {
        path_join(self.output_dir.as_str(), name)
    }

    /// The files a regeneration writes, in the order they are reported:
    /// `config.yaml`, `tools.yaml`, `fonts.yaml`, `settings.yaml`,
    /// `shellrc.yaml`, each in the output directory.
    pub fn generated_files(&self) -> (r: Vec<String>)
        ensures
            r@.len() == 5,
            r@[0]@ == joined(self.output_dir@, "config.yaml"@),
            r@[1]@ == joined(self.output_dir@, "tools.yaml"@),
            r@[2]@ == joined(self.output_dir@, "fonts.yaml"@),
            r@[3]@ == joined(self.output_dir@, "settings.yaml"@),
            r@[4]@ == joined(self.output_dir@, "shellrc.yaml"@),
    {
        let mut r: Vec<String> = Vec::new();
        r.push(self.path_of("config.yaml"));
        r.push(self.path_of("tools.yaml"));
        r.push(self.path_of("fonts.yaml"));
        r.push(self.path_of("settings.yaml"));
        r.push(self.path_of("shellrc.yaml"));
        r
    }

    /// `config.yaml` naming the four other files.
    pub fn generate_main_config(
        &self,
        tools_path: String,
        settings_path: String,
        shell_config_path: String,
        fonts_path: String,
    ) -> (r: MainConfig)
        ensures
            r.tools == tools_path,
            r.settings == settings_path,
            r.shellrc == shell_config_path,
            r.fonts == fonts_path,
    {
        MainConfig {
            tools: tools_path,
            settings: settings_path,
            shellrc: shell_config_path,
            fonts: fonts_path,
        }
    }

    /// `tools.yaml` rebuilt from the recorded tools, one entry per tool in
    /// storage order, with the update policy of seven days.
    pub fn generate_tools_config(&self, tools: &Store<ToolState>) -> (r: ToolConfig)
        ensures
            r.update_latest_only_after is Some,
            r.update_latest_only_after->0@ == regenerated_update_policy(),
            r.tools@.len() == tools.view().dom().len(),
            r.tools@.len() == tools.entry_seq().len(),
            forall|i: int| 0 <= i < r.tools@.len() ==> #[trigger] rebuilt_from(
                r.tools@[i],
                tools.entry_seq()[i].name@,
                tools.entry_seq()[i].value,
            ),
            forall|i: int| 0 <= i < r.tools@.len() ==> #[trigger] tools.view().contains_key(r.tools@[i].name@)
                && rebuilt_from(r.tools@[i], r.tools@[i].name@, tools.view()[r.tools@[i].name@]),
    {
        let entries = tools.entries();
        let mut out: Vec<ToolEntry> = Vec::new();
        let mut i: usize = 0;
        while i < entries.len()
            invariant
                i <= entries@.len(),
                out@.len() == i,
                entries@.len() == tools.view().dom().len(),
                forall|j: int| 0 <= j < entries@.len() ==> #[trigger] tools.view().contains_key(entries@[j].name@)
                    && tools.view()[entries@[j].name@] == entries@[j].value,
                forall|j: int| 0 <= j < i ==> #[trigger] out@[j].name@ == entries@[j].name@
                    && rebuilt_from(out@[j], entries@[j].name@, entries@[j].value),
            decreases entries@.len() - i,
        {
            let e = ToolEntry::from_state(entries[i].name.clone(), &entries[i].value);
            out.push(e);
            i = i + 1;
        }
        proof {
            assert forall|j: int| 0 <= j < out@.len() implies #[trigger] tools.view().contains_key(out@[j].name@)
                && rebuilt_from(out@[j], out@[j].name@, tools.view()[out@[j].name@]) by {
                assert(out@[j].name@ == entries@[j].name@);
            }
        }
        ToolConfig { update_latest_only_after: Some(owned("7 days")), tools: out }
    }

    /// `fonts.yaml` rebuilt from the recorded fonts, one entry per font in
    /// storage order.
    pub fn generate_fonts_config(&self, fonts: &Store<FontState>) -> (r: FontsConfig)
        ensures
            r.fonts@.len() == fonts.entry_seq().len(),
            r.fonts@.len() == fonts.view().dom().len(),
            forall|i: int| 0 <= i < r.fonts@.len() ==> #[trigger] font_rebuilt_from(
                r.fonts@[i],
                fonts.entry_seq()[i].value,
            ),
    {
        let entries = fonts.entries();
        let mut out: Vec<FontEntry> = Vec::new();
        let mut i: usize = 0;
        while i < entries.len()
            invariant
                i <= entries@.len(),
                out@.len() == i,
                forall|j: int| 0 <= j < i ==> #[trigger] font_rebuilt_from(out@[j], entries@[j].value),
            decreases entries@.len() - i,
        {
            out.push(font_entry_from_state(&entries[i].value));
            i = i + 1;
        }
        FontsConfig { fonts: out }
    }

    /// `settings.yaml` rebuilt from the recorded settings: all of them under
    /// macOS in storage order, none under Linux.
    pub fn generate_settings_config(&self, recorded: &Store<SettingState>) -> (r: SettingsConfig)
        ensures
            r.settings.linux@.len() == 0,
            r.settings.macos@.len() == recorded.entry_seq().len(),
            r.settings.macos@.len() == recorded.view().dom().len(),
            forall|i: int| 0 <= i < r.settings.macos@.len() ==> #[trigger] setting_rebuilt_from(
                r.settings.macos@[i],
                recorded.entry_seq()[i].value,
            ),
    {
        let entries = recorded.entries();
        let mut out: Vec<SettingEntry> = Vec::new();
        let mut i: usize = 0;
        while i < entries.len()
            invariant
                i <= entries@.len(),
                out@.len() == i,
                forall|j: int| 0 <= j < i ==> #[trigger] setting_rebuilt_from(out@[j], entries@[j].value),
            decreases entries@.len() - i,
        {
            let st = &entries[i].value;
            out.push(SettingEntry {
                domain: st.domain.clone(),
                key: st.key.clone(),
                value: st.value.clone(),
                value_type: st.value_type.clone(),
            });
            i = i + 1;
        }
        SettingsConfig { settings: OsSpecificSettings { macos: out, linux: Vec::new() } }
    }

    /// `shellrc.yaml` as regenerated: zsh, with no run commands and no
    /// aliases.
    pub fn generate_shellrc_config(&self) -> (r: ShellConfig)
        ensures
            r.run_commands.shell@ == "zsh"@,
            r.run_commands.run_commands@.len() == 0,
            r.aliases@.len() == 0,
    {
        ShellConfig {
            run_commands: ShellCommands { shell: owned("zsh"), run_commands: Vec::new() },
            aliases: Vec::new(),
        }
    }
}

/// Where a synchronisation reads the state file and writes configuration.
pub struct SyncOrchestrator {
    pub state_file_path: String,
    pub config_dir_path: String,
}

impl SyncOrchestrator {
    /// An orchestrator for the given state file and configuration directory.
    pub fn new(state_file: String, config_dir: String) -> (r: Self)
        ensures
            r.state_file_path == state_file,
            r.config_dir_path == config_dir,
    {
        SyncOrchestrator { state_file_path: state_file, config_dir_path: config_dir }
    }

    /// Where a file fetched from a Gist is written: its name in the
    /// configuration directory.
    pub fn gist_target_path(&self, filename: &str) -> (r: String)
        ensures
            r@ == joined(self.config_dir_path@, filename@),
    {
        path_join(self.config_dir_path.as_str(), filename)
    }

    /// The error raised when the state file is missing.
    pub fn missing_state_error(&self) -> (r: SyncError)
        ensures
            r matches SyncError::PathError(m) && m@ == "State file not found: "@ + self.state_file_path@,
    {
        SyncError::PathError(self.missing_state_message())
    }

    /// The message when the state file is missing.
    pub fn missing_state_message(&self) -> (r: String)
        ensures
            r@ == "State file not found: "@ + self.state_file_path@,
    {
        concat2("State file not found: ", self.state_file_path.as_str())
    }

    /// The generator a synchronisation from state uses.
    pub fn generator(&self) -> (r: ConfigGenerator)
        ensures
            r.output_dir == self.config_dir_path,
    {
        ConfigGenerator::new(self.config_dir_path.clone())
    }
}


/// Why synchronising failed, with the system's message.
#[derive(Debug, Clone, PartialEq)]
pub enum SyncError {
    Io(String),
    Json(String),
    Yaml(String),
    PathError(String),
    Network(String),
}

/// The message shown for a synchronisation error.
pub open spec fn sync_error_text(e: SyncError) -> Seq<char> {
    match e {
        SyncError::Io(m) => "I/O Error: "@ + m@,
        SyncError::Json(m) => "JSON Parsing Error: "@ + m@,
        SyncError::Yaml(m) => "YAML Serialization Error: "@ + m@,
        SyncError::PathError(m) => "Path Error: "@ + m@,
        SyncError::Network(m) => "Network Error: "@ + m@,
    }
}

impl SyncError {
    /// The error's message (what its `Display` shows).
    pub fn message(&self) -> (r: String)
        ensures
            r@ == sync_error_text(*self),
    {
        match self {
            SyncError::Io(m) => concat2("I/O Error: ", m.as_str()),
            SyncError::Json(m) => concat2("JSON Parsing Error: ", m.as_str()),
            SyncError::Yaml(m) => concat2("YAML Serialization Error: ", m.as_str()),
            SyncError::PathError(m) => concat2("Path Error: ", m.as_str()),
            SyncError::Network(m) => concat2("Network Error: ", m.as_str()),
        }
    }
}


/// Regenerating a configuration from the state gives each tool back the
/// source its installer recorded it under: `brew`, `cargo-install`,
/// `go-install`, `pip`, `rustup`, `uv-…`, `github` and `direct-url` are
/// written back as brew, cargo, go, pip, rustup, uv, github and url tools.
pub proof fn law_sync_restores_sources(uv_subcommand: Seq<char>)
    ensures
        source_from_state("brew"@) == SourceType::Brew,
        source_from_state("cargo-install"@) == SourceType::Cargo,
        source_from_state("go-install"@) == SourceType::Go,
        source_from_state("pip"@) == SourceType::Pip,
        source_from_state("rustup"@) == SourceType::Rustup,
        source_from_state("uv-"@ + uv_subcommand) == SourceType::Uv,
        source_from_state("github"@) == SourceType::Github,
        source_from_state("direct-url"@) == SourceType::Url,
{
    reveal_strlit("brew");
    reveal_strlit("cargo-install");
    reveal_strlit("go-install");
    reveal_strlit("pip");
    reveal_strlit("rustup");
    reveal_strlit("uv-");
    reveal_strlit("github");
    reveal_strlit("direct-url");
    reveal_strlit("cargo");
    reveal_strlit("go");
    reveal_strlit("url");
    reveal_strlit("uv");
    assert("brew"@.len() == 4 && "cargo-install"@.len() == 13 && "go-install"@.len() == 10);
    assert("pip"@.len() == 3 && "rustup"@.len() == 6 && "github"@.len() == 6 && "direct-url"@.len() == 10);
    assert("cargo"@.len() == 5 && "go"@.len() == 2 && "url"@.len() == 3 && "uv"@.len() == 2);
    assert("go-install"@ != "cargo-install"@);
    assert("direct-url"@ != "go-install"@) by {
        assert("direct-url"@[0] != "go-install"@[0]);
    }
    let m = "uv-"@ + uv_subcommand;
    assert(m.subrange(0, 3) =~= "uv-"@);
    assert(has_prefix(m, "uv-"@));
    assert(m != "cargo-install"@) by {
        assert(m[0] != "cargo-install"@[0]);
    }
    assert(m != "go-install"@) by {
        assert(m[0] != "go-install"@[0]);
    }
    assert(m != "direct-url"@) by {
        assert(m[0] != "direct-url"@[0]);
    }
    assert(!has_prefix("brew"@, "uv-"@)) by {
        assert("brew"@.subrange(0, 3)[0] != "uv-"@[0]);
    }
    assert(!has_prefix("pip"@, "uv-"@)) by {
        assert("pip"@.subrange(0, 3)[0] != "uv-"@[0]);
    }
    assert(!has_prefix("rustup"@, "uv-"@)) by {
        assert("rustup"@.subrange(0, 3)[1] != "uv-"@[1]);
    }
    assert(!has_prefix("github"@, "uv-"@)) by {
        assert("github"@.subrange(0, 3)[0] != "uv-"@[0]);
    }
    assert("brew"@ != "cargo-install"@ && "brew"@ != "go-install"@ && "brew"@ != "direct-url"@);
    assert("pip"@ != "cargo-install"@ && "pip"@ != "go-install"@ && "pip"@ != "direct-url"@);
    assert("rustup"@ != "cargo-install"@ && "rustup"@ != "go-install"@ && "rustup"@ != "direct-url"@);
    assert("github"@ != "cargo-install"@ && "github"@ != "go-install"@ && "github"@ != "direct-url"@);
    crate::model::law_source_name_round_trip(SourceType::Brew);
    crate::model::law_source_name_round_trip(SourceType::Cargo);
    crate::model::law_source_name_round_trip(SourceType::Go);
    crate::model::law_source_name_round_trip(SourceType::Pip);
    crate::model::law_source_name_round_trip(SourceType::Rustup);
    crate::model::law_source_name_round_trip(SourceType::Uv);
    crate::model::law_source_name_round_trip(SourceType::Github);
    crate::model::law_source_name_round_trip(SourceType::Url);
}


proof fn lemma_contains_itself(s: Seq<char>)
    ensures
        contains_seq(s, s),
{
    assert(s.subrange(0, s.len() as int) =~= s);
    assert(crate::text::occurs_at(s, s, 0));
}

/// The version written back keeps what was recorded: it is omitted only
/// for a brew tool on "latest"; otherwise the recorded version contains
/// it (a rustup toolchain collapses to the channel it names). A recorded
/// version naming `nightly` and not `stable` is written back as `nightly`,
/// one naming `stable` as `stable`.
pub proof fn law_written_version_is_recorded_channel(version: Seq<char>, install_method: Seq<char>)
    ensures
        config_version(version, install_method) is None <==> (version == "latest"@ && install_method == "brew"@),
        config_version(version, install_method) matches Some(w) ==> contains_seq(version, w),
        version != "latest"@ && contains_seq(version, "nightly"@) && !contains_seq(version, "stable"@)
            ==> config_version(version, install_method) == Some("nightly"@),
        version != "latest"@ && contains_seq(version, "stable"@) ==> config_version(version, install_method) == Some(
            "stable"@,
        ),
        version != "latest"@ && !contains_seq(version, "stable"@) && !contains_seq(version, "nightly"@)
            ==> config_version(version, install_method) == Some(version),
{
    lemma_contains_itself(version);
}

} // verus!
