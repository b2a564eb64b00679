//! Starter configuration files: their templates, the main configuration
//! that points at them, and the tally of what a generation run created,
//! skipped or failed to write. Existing files are never overwritten.

use vstd::prelude::*;
use crate::text::{owned, concat2, u64_to_decimal, decimal};
use crate::paths::{joined, path_join};

verus! {

/// The starter `tools.yaml`.
pub const TOOLS_TEMPLATE: &'static str = r#"tools:
  ############################################################
  # Tools Configuration                                      #
  # This file defines all development tools to install      #
  # Uncomment and configure the tools you need              #
  ############################################################

  # Package Manager: Homebrew
  # Homebrew is the foundation for many other installations
  - name: brew
    version: 4.5.10
    source: github
    repo: Homebrew/brew
    tag: 4.5.10

  # Version Control: Git
  # Essential for most development workflows
  - name: git
    source: brew
    version: latest

  # Example: Rust Toolchain
  # Uncomment if you develop in Rust
  # - name: rustup
  #   source: brew

  # Example: Python Version Manager
  # Uncomment if you need multiple Python versions
  # - name: pyenv
  #   source: brew
  #   options:
  #     - --head

  # Example: Python Virtual Environment Manager
  # Works with pyenv for isolated Python environments
  # - name: pyenv-virtualenv
  #   source: brew
  #   options:
  #     - --head

  # Example: Rust Installation
  # Install the stable toolchain with common components
  # - name: rust
  #   source: rustup
  #   version: stable
  #   options:
  #     - rust-src      # Standard library source
  #     - clippy        # Linter
  #     - rustfmt       # Code formatter
  #     - rust-analyzer # Language server

  # Example: Go Programming Language
  # Update URL for your architecture (Intel vs Apple Silicon)
  # - name: go
  #   source: url
  #   url: https://go.dev/dl/go1.24.5.darwin-amd64.pkg

  # Example: Cargo Installer
  # ```yaml
  # `uv` - A single tool to replace pip, pip-tools, pipx, poetry, pyenv, twine, virtualenv, and more.
  # https://docs.astral.sh/uv/
  # - name: uv
  #   source: cargo
  #   version: 0.8.17
  #   options:
  #     - --git https://github.com/astral-sh/uv
  #   configuration_manager:
  #   enabled: true
  #   tools_configuration_paths:
  #     - $HOME/.config/uv/uv.toml

  # Example: GitHub CLI
  # Powerful command-line interface for GitHub
  # - name: cli
  #   version: "2.74.0"
  #   source: github
  #   repo: cli/cli
  #   tag: v2.74.0
  #   rename_to: gh
"#;

/// The starter `settings.yaml`.
pub const SETTINGS_TEMPLATE: &'static str = r#"settings:
  macos:
    # Show all file extensions in Finder
    # Helps prevent confusion about file types
    - domain: NSGlobalDomain
      key: AppleShowAllExtensions
      value: "true"
      value_type: bool

    # Show hidden files in Finder
    # Useful for developers who need access to dotfiles
    - domain: com.apple.finder
      key: AppleShowAllFiles
      value: "true"
      value_type: bool

    # Additional setting examples (uncomment to use):

    # Faster key repeat rate
    # - domain: NSGlobalDomain
    #   key: KeyRepeat
    #   value: "1"
    #   value_type: int

    # Shorter delay until key repeat
    # - domain: NSGlobalDomain
    #   key: InitialKeyRepeat
    #   value: "15"
    #   value_type: int
"#;

/// The starter `shellrc.yaml`.
pub const SHELLRC_TEMPLATE: &'static str = r#"run_commands:
  shell: zsh
  run_commands:
    # Add custom bin directory to PATH
    - command: export PATH=$HOME/bin:$PATH
      section: PATH

    # Add Rust cargo binaries to PATH
    - command: export PATH=$HOME/.cargo/bin:$PATH
      section: PATH

    # Add Go binaries to PATH (if installed manually)
    # - command: export PATH=/usr/local/go/bin:$PATH
    #   section: PATH

    # Initialize Starship prompt (modern, fast shell prompt)
    - command: eval "$(starship init zsh)"
      section: Initialization

    # Configure pyenv (Python version manager)
    - command: export PYENV_ROOT="$HOME/.pyenv"
      section: Exports

    - command: '[[ -d $PYENV_ROOT/bin ]] && export PATH="$PYENV_ROOT/bin:$PATH"'
      section: PATH

    - command: eval "$(pyenv init - zsh)"
      section: Initialization

    - command: eval "$(pyenv virtualenv-init -)"
      section: Initialization

aliases:
  # Use bat instead of cat (syntax highlighting)
  - name: cat
    value: bat

  # Quick navigation to Go source directory
  - name: gocode
    value: cd $HOME/go/src/

  # Additional alias examples (uncomment to use):

  # Quick navigation to projects directory
  # - name: proj
  #   value: cd $HOME/projects

  # List files with details
  # - name: ll
  #   value: ls -lah
"#;

/// The starter `fonts.yaml`.
pub const FONTS_TEMPLATE: &'static str = r#"fonts:
  # 0xProto: Modern monospace font optimized for code
  - name: 0xProto
    version: "2.304"
    source: github
    repo: ryanoasis/nerd-fonts
    tag: v3.4.0

  # Additional font examples (uncomment to use):

  # FiraCode: Font with programming ligatures
  # - name: FiraCode
  #   version: "6.2"
  #   source: github
  #   repo: tonsky/FiraCode
  #   tag: "6.2"

  # JetBrainsMono: Font by JetBrains
  # - name: JetBrainsMono
  #   version: "2.304"
  #   source: github
  #   repo: ryanoasis/nerd-fonts
  #   tag: v3.4.0
"#;

/// The main configuration text for a configuration directory.
pub open spec fn main_config_text(dir: Seq<char>) -> Seq<char> {
    "# Main Configuration File\n# This file references all other configuration files\n\ntools: "@
        + joined(dir, "tools.yaml"@) + "\nsettings: "@ + joined(dir, "settings.yaml"@)
        + "\nshellrc: "@ + joined(dir, "shellrc.yaml"@) + "\nfonts: "@ + joined(dir, "fonts.yaml"@)
        + "\n"@
}

/// The main configuration file, naming the four other files in
/// `configs_dir`.
pub fn config(configs_dir: &str) -> (r: String)
    ensures
        r@ == main_config_text(configs_dir@),
{
    let mut s = owned("# Main Configuration File\n# This file references all other configuration files\n\ntools: ");
    s.append(path_join(configs_dir, "tools.yaml").as_str());
    s.append("\nsettings: ");
    s.append(path_join(configs_dir, "settings.yaml").as_str());
    s.append("\nshellrc: ");
    s.append(path_join(configs_dir, "shellrc.yaml").as_str());
    s.append("\nfonts: ");
    s.append(path_join(configs_dir, "fonts.yaml").as_str());
    s.append("\n");
    s
}

/// Why a generation step failed, with the system's message.
#[derive(Debug, Clone, PartialEq)]
pub enum GenerateError {
    DirectoryCreation(String),
    FileCreation(String),
    FileWrite(String),
}

impl GenerateError {
    /// The message shown for the error.
    pub fn message(&self) -> (r: String)
        ensures
            r@ == match self {
                GenerateError::DirectoryCreation(e) => "Failed to create directory: "@ + e@,
                GenerateError::FileCreation(e) => "Failed to create file: "@ + e@,
                GenerateError::FileWrite(e) => "Failed to write to file: "@ + e@,
            },
    {
        match self {
            GenerateError::DirectoryCreation(e) => concat2("Failed to create directory: ", e.as_str()),
            GenerateError::FileCreation(e) => concat2("Failed to create file: ", e.as_str()),
            GenerateError::FileWrite(e) => concat2("Failed to write to file: ", e.as_str()),
        }
    }
}

/// One file to generate: its name, its content and what it is for.
pub struct ConfigFile {
    pub filename: String,
    pub content: String,
    pub description: String,
}

impl ConfigFile {
    /// The result of generating this file: skipped (`Ok(false)`) when it
    /// already exists, whatever `written` says; otherwise `Ok(true)` when
    /// creating and writing it succeeded, or the error that stopped it.
    pub fn generate(&self, exists: bool, written: Result<(), GenerateError>) -> (r: Result<bool, GenerateError>)
        ensures
            exists ==> r == Ok::<bool, GenerateError>(false),
            !exists ==> match written {
                Ok(_) => r == Ok::<bool, GenerateError>(true),
                Err(e) => r == Err::<bool, GenerateError>(e),
            },
    {
        if exists {
            return Ok(false);
        }
        match written {
            Ok(_) => Ok(true),
            Err(e) => Err(e),
        }
    }

    /// Whether the file is to be written: only when it does not exist yet.
    pub fn should_write(&self, exists: bool) -> (r: bool)
        ensures
            r == !exists,
    {
        !exists
    }
}

/// How many of the results are files created.
pub open spec fn count_created(rs: Seq<Result<bool, GenerateError>>) -> nat
    decreases rs.len(),
{
    if rs.len() == 0 {
        0
    } else {
        count_created(rs.drop_last()) + match rs.last() {
            Ok(b) => if b { 1nat } else { 0nat },
            Err(_) => 0nat,
        }
    }
}

/// How many of the results are files skipped.
pub open spec fn count_skipped(rs: Seq<Result<bool, GenerateError>>) -> nat
    decreases rs.len(),
{
    if rs.len() == 0 {
        0
    } else {
        count_skipped(rs.drop_last()) + match rs.last() {
            Ok(b) => if b { 0nat } else { 1nat },
            Err(_) => 0nat,
        }
    }
}

/// How many of the results are failures.
pub open spec fn count_failed(rs: Seq<Result<bool, GenerateError>>) -> nat
    decreases rs.len(),
{
    if rs.len() == 0 {
        0
    } else {
        count_failed(rs.drop_last()) + match rs.last() {
            Ok(_) => 0nat,
            Err(_) => 1nat,
        }
    }
}

proof fn lemma_counts_sum(rs: Seq<Result<bool, GenerateError>>)
    ensures
        count_created(rs) + count_skipped(rs) + count_failed(rs) == rs.len(),
    decreases rs.len(),
{
    if rs.len() > 0 {
        lemma_counts_sum(rs.drop_last());
    }
}

/// How many files a generation created, skipped and failed to write.
pub struct GenerationSummary {
    pub created: usize,
    pub skipped: usize,
    pub failed: usize,
}

/// The summary line of a generation.
pub open spec fn summary_text(created: nat, skipped: nat, failed: nat) -> Seq<char> {
    "created: "@ + decimal(created) + ", skipped: "@ + decimal(skipped) + ", failed: "@ + decimal(failed)
        + ", total: "@ + decimal(created + skipped + failed)
}

impl GenerationSummary {
    /// A summary with nothing counted.
    pub fn new() -> (r: Self)
        ensures
            r.created == 0 && r.skipped == 0 && r.failed == 0,
    {
        GenerationSummary { created: 0, skipped: 0, failed: 0 }
    }

    /// Total number of files processed.
    pub fn total(&self) -> (r: usize)
        requires
            self.created + self.skipped + self.failed <= usize::MAX,
        ensures
            r == self.created + self.skipped + self.failed,
    {
        self.created + self.skipped + self.failed
    }

    /// Whether no file failed.
    pub fn is_success(&self) -> (r: bool)
        ensures
            r == (self.failed == 0),
    {
        self.failed == 0
    }

    /// The summary as it is logged.
    pub fn text(&self) -> (r: String)
        requires
            self.created + self.skipped + self.failed <= usize::MAX,
        ensures
            r@ == summary_text(self.created as nat, self.skipped as nat, self.failed as nat),
    {
        let mut s = owned("created: ");
        s.append(u64_to_decimal(self.created as u64).as_str());
        s.append(", skipped: ");
        s.append(u64_to_decimal(self.skipped as u64).as_str());
        s.append(", failed: ");
        s.append(u64_to_decimal(self.failed as u64).as_str());
        s.append(", total: ");
        s.append(u64_to_decimal(self.total() as u64).as_str());
        s
    }
}

/// The plural ending of a count of files: none for one, `s` otherwise.
pub fn plural_suffix(n: usize) -> (r: &'static str)
    ensures
        n == 1 ==> r@ == ""@,
        n != 1 ==> r@ == "s"@,
{
    if n == 1 {
        ""
    } else {
        "s"
    }
}

/// The starter files of a configuration directory.
pub struct ConfigGenerator {
    pub configs_dir: String,
    pub config_files: Vec<ConfigFile>,
}

impl ConfigGenerator {
    /// The generator for `configs_dir`: the four starter templates, then
    /// the main configuration naming them, which is written last.
    pub fn new(configs_dir: String) -> (r: Self)
        ensures
            r.configs_dir == configs_dir,
            r.config_files@.len() == 5,
            r.config_files@[0].filename@ == "tools.yaml"@,
            r.config_files@[0].content@ == TOOLS_TEMPLATE@,
            r.config_files@[1].filename@ == "settings.yaml"@,
            r.config_files@[1].content@ == SETTINGS_TEMPLATE@,
            r.config_files@[2].filename@ == "shellrc.yaml"@,
            r.config_files@[2].content@ == SHELLRC_TEMPLATE@,
            r.config_files@[3].filename@ == "fonts.yaml"@,
            r.config_files@[3].content@ == FONTS_TEMPLATE@,
            r.config_files@[4].filename@ == "config.yaml"@,
            r.config_files@[4].content@ == main_config_text(configs_dir@),
    {
        let config_content = config(configs_dir.as_str());
        let mut config_files: Vec<ConfigFile> = Vec::new();
        config_files.push(ConfigFile {
            filename: owned("tools.yaml"),
            content: owned(TOOLS_TEMPLATE),
            description: owned("Development tools configuration"),
        });
        config_files.push(ConfigFile {
            filename: owned("settings.yaml"),
            content: owned(SETTINGS_TEMPLATE),
            description: owned("OS-specific system settings"),
        });
        config_files.push(ConfigFile {
            filename: owned("shellrc.yaml"),
            content: owned(SHELLRC_TEMPLATE),
            description: owned("Shell initialization and aliases"),
        });
        config_files.push(ConfigFile {
            filename: owned("fonts.yaml"),
            content: owned(FONTS_TEMPLATE),
            description: owned("Font installation configuration"),
        });
        config_files.push(ConfigFile {
            filename: owned("config.yaml"),
            content: config_content,
            description: owned("Main configuration file"),
        });
        ConfigGenerator { configs_dir, config_files }
    }

    /// Where the file at `index` is written.
    pub fn file_path(&self, index: usize) -> (r: String)
        requires
            index < self.config_files@.len(),
        ensures
            r@ == joined(self.configs_dir@, self.config_files@[index as int].filename@),
    {
        path_join(self.configs_dir.as_str(), self.config_files[index].filename.as_str())
    }

    /// The outcome of a generation run: the directory error when the
    /// configuration directory could not be made; otherwise the count of
    /// files created, skipped and failed among `results` (one per file, in
    /// order). A failed file does not stop the others.
    pub fn generate(
        &self,
        directory_ready: Result<(), GenerateError>,
        results: &Vec<Result<bool, GenerateError>>,
    ) -> (r: Result<GenerationSummary, GenerateError>)
        requires
            results@.len() == self.config_files@.len(),
        ensures
            match directory_ready {
                Err(e) => r == Err::<GenerationSummary, GenerateError>(e),
                Ok(_) => r matches Ok(s) && s.created == count_created(results@)
                    && s.skipped == count_skipped(results@) && s.failed == count_failed(results@),
            },
    {
        if let Err(e) = directory_ready {
            return Err(e);
        }
        let mut summary = GenerationSummary::new();
        let mut i: usize = 0;
        while i < results.len()
            invariant
                i <= results@.len(),
                summary.created == count_created(results@.subrange(0, i as int)),
                summary.skipped == count_skipped(results@.subrange(0, i as int)),
                summary.failed == count_failed(results@.subrange(0, i as int)),
            decreases results@.len() - i,
        {
            proof {
                let pre = results@.subrange(0, i as int);
                let next = results@.subrange(0, i + 1);
                assert(next.drop_last() =~= pre);
                lemma_counts_sum(pre);
            }
            match &results[i] {
                Ok(true) => {
                    summary.created = summary.created + 1;
                },
                Ok(false) => {
                    summary.skipped = summary.skipped + 1;
                },
                Err(_) => {
                    summary.failed = summary.failed + 1;
                },
            }
            i = i + 1;
        }
        assert(results@.subrange(0, results@.len() as int) =~= results@);
        Ok(summary)
    }
}

/// A generation run's summary always totals the files it processed: what
/// was created, skipped and failed adds up to one result per file.
pub proof fn law_summary_counts_every_file(results: Seq<Result<bool, GenerateError>>)
    ensures
        count_created(results) + count_skipped(results) + count_failed(results) == results.len(),
{
    lemma_counts_sum(results);
}

} // verus!
