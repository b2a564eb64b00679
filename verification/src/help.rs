//! Help text as styled segments: what each help page says and how each
//! part of it is painted. Showing a page paints every segment and pads it to
//! its width.

use vstd::prelude::*;
use crate::text::{str_eq, contains_seq, contains_str, lowercase, to_lowercase};
use crate::uv::views;
use crate::planner::opt_view;

verus! {

/// How a piece of help text is painted on a terminal.
#[derive(Clone, Copy, Debug, PartialEq, Eq, Structural)]
pub enum Paint {
    Plain,
    Bold,
    BoldBlue,
    BoldBrightBlue,
    BoldCyan,
    BoldGreen,
    BoldMagenta,
    BoldWhite,
    BoldYellow,
    BrightBlack,
    BrightBlue,
    Cyan,
    Dimmed,
    Green,
    Italic,
    ItalicCyan,
    Red,
    Yellow,
    /// A YAML example: shown line by line, with its keys and comments
    /// highlighted.
    Yaml,
}

/// A piece of help text, its paint, and the width it is padded to.
#[derive(Clone, Copy, Debug, PartialEq, Eq)]
pub struct Segment {
    pub text: &'static str,
    pub paint: Paint,
    pub width: usize,
}

/// The segments of the basic examples of the `edit` command.
pub open spec fn add_edit_basic_examples_text() -> Seq<Segment> {
    seq![
        Segment { text: "Command Examples:", paint: Paint::BoldYellow, width: 0 },
        Segment { text: "\n  setup-devbox edit --config tools\n  setup-devbox edit --config fonts\n  setup-devbox edit --config shell\n  setup-devbox edit --config settings\n  setup-devbox edit --state\n\n", paint: Paint::Plain, width: 0 },
    ]
}

/// Appends the basic examples of the `edit` command.
pub fn add_edit_basic_examples(output: &mut Vec<Segment>)
    ensures
        final(output)@ == old(output)@ + add_edit_basic_examples_text(),
{
    let mut part: Vec<Segment> = vec![
        Segment { text: "Command Examples:", paint: Paint::BoldYellow, width: 0 },
        Segment { text: "\n  setup-devbox edit --config tools\n  setup-devbox edit --config fonts\n  setup-devbox edit --config shell\n  setup-devbox edit --config settings\n  setup-devbox edit --state\n\n", paint: Paint::Plain, width: 0 },
    ];
    output.append(&mut part);
}

/// The segments of how the `edit` command behaves.
pub open spec fn add_edit_behavior_info_text() -> Seq<Segment> {
    seq![
        Segment { text: "Behavior:", paint: Paint::BoldYellow, width: 0 },
        Segment { text: "\n  • The command opens the specified file using the editor defined by your ", paint: Paint::Plain, width: 0 },
        Segment { text: "$EDITOR", paint: Paint::ItalicCyan, width: 0 },
        Segment { text: " environment variable.\n  • It monitors the file's ", paint: Paint::Plain, width: 0 },
        Segment { text: "SHA", paint: Paint::Bold, width: 0 },
        Segment { text: " to detect any changes made during the editing session.\n  • If changes are detected, the ", paint: Paint::Plain, width: 0 },
        Segment { text: "now", paint: Paint::ItalicCyan, width: 0 },
        Segment { text: " command is automatically executed to apply them.\n  • If no changes are made to the file, the command exits without further action.\n\n", paint: Paint::Plain, width: 0 },
    ]
}

/// Appends how the `edit` command behaves.
pub fn add_edit_behavior_info(output: &mut Vec<Segment>)
    ensures
        final(output)@ == old(output)@ + add_edit_behavior_info_text(),
{
    let mut part: Vec<Segment> = vec![
        Segment { text: "Behavior:", paint: Paint::BoldYellow, width: 0 },
        Segment { text: "\n  • The command opens the specified file using the editor defined by your ", paint: Paint::Plain, width: 0 },
        Segment { text: "$EDITOR", paint: Paint::ItalicCyan, width: 0 },
        Segment { text: " environment variable.\n  • It monitors the file's ", paint: Paint::Plain, width: 0 },
        Segment { text: "SHA", paint: Paint::Bold, width: 0 },
        Segment { text: " to detect any changes made during the editing session.\n  • If changes are detected, the ", paint: Paint::Plain, width: 0 },
        Segment { text: "now", paint: Paint::ItalicCyan, width: 0 },
        Segment { text: " command is automatically executed to apply them.\n  • If no changes are made to the file, the command exits without further action.\n\n", paint: Paint::Plain, width: 0 },
    ];
    output.append(&mut part);
}

/// The segments of the detailed description of the `edit` command.
pub open spec fn add_edit_detailed_info_text() -> Seq<Segment> {
    seq![
        Segment { text: "Detailed Description:", paint: Paint::BoldYellow, width: 0 },
        Segment { text: "\n  The '", paint: Paint::Plain, width: 0 },
        Segment { text: "edit", paint: Paint::ItalicCyan, width: 0 },
        Segment { text: "' command allows you to edit ", paint: Paint::Plain, width: 0 },
        Segment { text: "core configuration files", paint: Paint::Bold, width: 0 },
        Segment { text: " for your development environment.\n  These files are used to manage tools, fonts, shell configurations, and operating system settings.\n  The command can also be used to edit the ", paint: Paint::Plain, width: 0 },
        Segment { text: "state file", paint: Paint::Bold, width: 0 },
        Segment { text: ", though this should be done with caution\n\n", paint: Paint::Plain, width: 0 },
    ] + add_edit_behavior_info_text() + add_edit_basic_examples_text()
}

/// Appends the detailed description of the `edit` command.
pub fn add_edit_detailed_info(output: &mut Vec<Segment>)
    ensures
        final(output)@ == old(output)@ + add_edit_detailed_info_text(),
{
    let mut part: Vec<Segment> = vec![
        Segment { text: "Detailed Description:", paint: Paint::BoldYellow, width: 0 },
        Segment { text: "\n  The '", paint: Paint::Plain, width: 0 },
        Segment { text: "edit", paint: Paint::ItalicCyan, width: 0 },
        Segment { text: "' command allows you to edit ", paint: Paint::Plain, width: 0 },
        Segment { text: "core configuration files", paint: Paint::Bold, width: 0 },
        Segment { text: " for your development environment.\n  These files are used to manage tools, fonts, shell configurations, and operating system settings.\n  The command can also be used to edit the ", paint: Paint::Plain, width: 0 },
        Segment { text: "state file", paint: Paint::Bold, width: 0 },
        Segment { text: ", though this should be done with caution\n\n", paint: Paint::Plain, width: 0 },
    ];
    output.append(&mut part);
    add_edit_behavior_info(output);
    add_edit_basic_examples(output);
}

/// The segments of the help of the `edit` command.
pub open spec fn show_edit_help_text(detailed: bool) -> Seq<Segment> {
    seq![
        Segment { text: "\n", paint: Paint::Plain, width: 0 },
        Segment { text: "setup-devbox edit", paint: Paint::BoldBlue, width: 0 },
        Segment { text: "\n", paint: Paint::Plain, width: 0 },
        Segment { text: "--------------------", paint: Paint::BoldBlue, width: 0 },
        Segment { text: "\nEdit setup-devbox configuration files.\n\n", paint: Paint::Plain, width: 0 },
        Segment { text: "Usage:", paint: Paint::BoldYellow, width: 0 },
        Segment { text: "\n  setup-devbox edit [OPTIONS]\n\n", paint: Paint::Plain, width: 0 },
        Segment { text: "Options:", paint: Paint::BoldYellow, width: 0 },
        Segment { text: "\n  ", paint: Paint::Plain, width: 0 },
        Segment { text: "--state", paint: Paint::Cyan, width: 0 },
        Segment { text: ": Edit the state file. Use this option with caution.\n  ", paint: Paint::Plain, width: 0 },
        Segment { text: "--config <CONFIG_TYPE>", paint: Paint::Cyan, width: 0 },
        Segment { text: ": Edit a specific configuration file. [Supported Options: ", paint: Paint::Plain, width: 0 },
        Segment { text: "tools", paint: Paint::ItalicCyan, width: 0 },
        Segment { text: ", ", paint: Paint::Plain, width: 0 },
        Segment { text: "fonts", paint: Paint::ItalicCyan, width: 0 },
        Segment { text: ", ", paint: Paint::Plain, width: 0 },
        Segment { text: "shell", paint: Paint::ItalicCyan, width: 0 },
        Segment { text: " and ", paint: Paint::Plain, width: 0 },
        Segment { text: "settings", paint: Paint::ItalicCyan, width: 0 },
        Segment { text: "]\n\n", paint: Paint::Plain, width: 0 },
    ] + (if detailed {
        add_edit_detailed_info_text()
    } else {
        add_edit_basic_examples_text()
    })
}

/// The help of the `edit` command (the detailed form on request).
pub fn show_edit_help(detailed: bool) -> (r: Vec<Segment>)
    ensures
        r@ == show_edit_help_text(detailed),
{
    let mut output: Vec<Segment> = Vec::new();
    let mut part: Vec<Segment> = vec![
        Segment { text: "\n", paint: Paint::Plain, width: 0 },
        Segment { text: "setup-devbox edit", paint: Paint::BoldBlue, width: 0 },
        Segment { text: "\n", paint: Paint::Plain, width: 0 },
        Segment { text: "--------------------", paint: Paint::BoldBlue, width: 0 },
        Segment { text: "\nEdit setup-devbox configuration files.\n\n", paint: Paint::Plain, width: 0 },
        Segment { text: "Usage:", paint: Paint::BoldYellow, width: 0 },
        Segment { text: "\n  setup-devbox edit [OPTIONS]\n\n", paint: Paint::Plain, width: 0 },
        Segment { text: "Options:", paint: Paint::BoldYellow, width: 0 },
        Segment { text: "\n  ", paint: Paint::Plain, width: 0 },
        Segment { text: "--state", paint: Paint::Cyan, width: 0 },
        Segment { text: ": Edit the state file. Use this option with caution.\n  ", paint: Paint::Plain, width: 0 },
        Segment { text: "--config <CONFIG_TYPE>", paint: Paint::Cyan, width: 0 },
        Segment { text: ": Edit a specific configuration file. [Supported Options: ", paint: Paint::Plain, width: 0 },
        Segment { text: "tools", paint: Paint::ItalicCyan, width: 0 },
        Segment { text: ", ", paint: Paint::Plain, width: 0 },
        Segment { text: "fonts", paint: Paint::ItalicCyan, width: 0 },
        Segment { text: ", ", paint: Paint::Plain, width: 0 },
        Segment { text: "shell", paint: Paint::ItalicCyan, width: 0 },
        Segment { text: " and ", paint: Paint::Plain, width: 0 },
        Segment { text: "settings", paint: Paint::ItalicCyan, width: 0 },
        Segment { text: "]\n\n", paint: Paint::Plain, width: 0 },
    ];
    output.append(&mut part);
    if detailed {
        add_edit_detailed_info(&mut output);
    } else {
        add_edit_basic_examples(&mut output);
    }
    output
}

/// The segments of the list of supported installers.
pub open spec fn add_supported_installers_text() -> Seq<Segment> {
    seq![
        Segment { text: "Supported Installers:", paint: Paint::BoldYellow, width: 0 },
        Segment { text: "\n  • ", paint: Paint::Plain, width: 0 },
        Segment { text: "Brew", paint: Paint::BoldCyan, width: 6 },
        Segment { text: " - Package manager for macOS/Linux (Homebrew)\n  • ", paint: Paint::Plain, width: 0 },
        Segment { text: "Cargo", paint: Paint::BoldCyan, width: 6 },
        Segment { text: " - Rust package manager for crates and binaries.\n  • ", paint: Paint::Plain, width: 0 },
        Segment { text: "Fonts", paint: Paint::BoldCyan, width: 6 },
        Segment { text: " - Nerd Fonts installer from GitHub releases.\n  • ", paint: Paint::Plain, width: 0 },
        Segment { text: "Github", paint: Paint::BoldCyan, width: 6 },
        Segment { text: " - Download tools from GitHub releases.\n  • ", paint: Paint::Plain, width: 0 },
        Segment { text: "Go", paint: Paint::BoldCyan, width: 6 },
        Segment { text: " - Go package installer using '", paint: Paint::Plain, width: 0 },
        Segment { text: "go install", paint: Paint::Cyan, width: 0 },
        Segment { text: "'.\n  • ", paint: Paint::Plain, width: 0 },
        Segment { text: "Pip", paint: Paint::BoldCyan, width: 6 },
        Segment { text: " - Python package installer using pip.\n  • ", paint: Paint::Plain, width: 0 },
        Segment { text: "Rustup", paint: Paint::BoldCyan, width: 6 },
        Segment { text: " - Rust toolchain installer and manager.\n  • ", paint: Paint::Plain, width: 0 },
        Segment { text: "shell", paint: Paint::BoldCyan, width: 6 },
        Segment { text: " - Shell configs (", paint: Paint::Plain, width: 0 },
        Segment { text: ".zshrc, .bashrc", paint: Paint::Cyan, width: 0 },
        Segment { text: " etc) and aliases.\n  • ", paint: Paint::Plain, width: 0 },
        Segment { text: "URL", paint: Paint::BoldCyan, width: 6 },
        Segment { text: " - Download and install from direct URLs.\n  • ", paint: Paint::Plain, width: 0 },
        Segment { text: "UV", paint: Paint::BoldCyan, width: 6 },
        Segment { text: " - Ultra-fast Python package installer (", paint: Paint::Plain, width: 0 },
        Segment { text: "tool/pip/python", paint: Paint::Cyan, width: 0 },
        Segment { text: " modes).\n\n", paint: Paint::Plain, width: 0 },
    ]
}

/// Appends the list of supported installers.
pub fn add_supported_installers(output: &mut Vec<Segment>)
    ensures
        final(output)@ == old(output)@ + add_supported_installers_text(),
{
    let mut part: Vec<Segment> = vec![
        Segment { text: "Supported Installers:", paint: Paint::BoldYellow, width: 0 },
        Segment { text: "\n  • ", paint: Paint::Plain, width: 0 },
        Segment { text: "Brew", paint: Paint::BoldCyan, width: 6 },
        Segment { text: " - Package manager for macOS/Linux (Homebrew)\n  • ", paint: Paint::Plain, width: 0 },
        Segment { text: "Cargo", paint: Paint::BoldCyan, width: 6 },
        Segment { text: " - Rust package manager for crates and binaries.\n  • ", paint: Paint::Plain, width: 0 },
        Segment { text: "Fonts", paint: Paint::BoldCyan, width: 6 },
        Segment { text: " - Nerd Fonts installer from GitHub releases.\n  • ", paint: Paint::Plain, width: 0 },
        Segment { text: "Github", paint: Paint::BoldCyan, width: 6 },
        Segment { text: " - Download tools from GitHub releases.\n  • ", paint: Paint::Plain, width: 0 },
        Segment { text: "Go", paint: Paint::BoldCyan, width: 6 },
        Segment { text: " - Go package installer using '", paint: Paint::Plain, width: 0 },
        Segment { text: "go install", paint: Paint::Cyan, width: 0 },
        Segment { text: "'.\n  • ", paint: Paint::Plain, width: 0 },
        Segment { text: "Pip", paint: Paint::BoldCyan, width: 6 },
        Segment { text: " - Python package installer using pip.\n  • ", paint: Paint::Plain, width: 0 },
        Segment { text: "Rustup", paint: Paint::BoldCyan, width: 6 },
        Segment { text: " - Rust toolchain installer and manager.\n  • ", paint: Paint::Plain, width: 0 },
        Segment { text: "shell", paint: Paint::BoldCyan, width: 6 },
        Segment { text: " - Shell configs (", paint: Paint::Plain, width: 0 },
        Segment { text: ".zshrc, .bashrc", paint: Paint::Cyan, width: 0 },
        Segment { text: " etc) and aliases.\n  • ", paint: Paint::Plain, width: 0 },
        Segment { text: "URL", paint: Paint::BoldCyan, width: 6 },
        Segment { text: " - Download and install from direct URLs.\n  • ", paint: Paint::Plain, width: 0 },
        Segment { text: "UV", paint: Paint::BoldCyan, width: 6 },
        Segment { text: " - Ultra-fast Python package installer (", paint: Paint::Plain, width: 0 },
        Segment { text: "tool/pip/python", paint: Paint::Cyan, width: 0 },
        Segment { text: " modes).\n\n", paint: Paint::Plain, width: 0 },
    ];
    output.append(&mut part);
}

/// The segments of how the `now` command behaves.
pub open spec fn add_now_behavior_info_text() -> Seq<Segment> {
    seq![
        Segment { text: "Behavior:", paint: Paint::BoldYellow, width: 0 },
        Segment { text: "\n  • Skips already installed tools unless versions differ\n  • Updates tools marked with '", paint: Paint::Plain, width: 0 },
        Segment { text: "latest", paint: Paint::Cyan, width: 0 },
        Segment { text: "' only after configured time period\n  • Use ", paint: Paint::Plain, width: 0 },
        Segment { text: "--update-latest", paint: Paint::ItalicCyan, width: 0 },
        Segment { text: " to force update all tools '", paint: Paint::Plain, width: 0 },
        Segment { text: "@latest", paint: Paint::Cyan, width: 0 },
        Segment { text: "' version immediately\n  • Creates backup of state file before major changes\n", paint: Paint::Plain, width: 0 },
    ]
}

/// Appends how the `now` command behaves.
pub fn add_now_behavior_info(output: &mut Vec<Segment>)
    ensures
        final(output)@ == old(output)@ + add_now_behavior_info_text(),
{
    let mut part: Vec<Segment> = vec![
        Segment { text: "Behavior:", paint: Paint::BoldYellow, width: 0 },
        Segment { text: "\n  • Skips already installed tools unless versions differ\n  • Updates tools marked with '", paint: Paint::Plain, width: 0 },
        Segment { text: "latest", paint: Paint::Cyan, width: 0 },
        Segment { text: "' only after configured time period\n  • Use ", paint: Paint::Plain, width: 0 },
        Segment { text: "--update-latest", paint: Paint::ItalicCyan, width: 0 },
        Segment { text: " to force update all tools '", paint: Paint::Plain, width: 0 },
        Segment { text: "@latest", paint: Paint::Cyan, width: 0 },
        Segment { text: "' version immediately\n  • Creates backup of state file before major changes\n", paint: Paint::Plain, width: 0 },
    ];
    output.append(&mut part);
}

/// The segments of the basic examples of the `now` command.
pub open spec fn add_now_basic_examples_text() -> Seq<Segment> {
    seq![
        Segment { text: "Examples:", paint: Paint::BoldYellow, width: 0 },
        Segment { text: "\n  setup-devbox now                    # Use default config\n  setup-devbox now --update-latest    # Force update latest versions\n", paint: Paint::Plain, width: 0 },
    ]
}

/// Appends the basic examples of the `now` command.
pub fn add_now_basic_examples(output: &mut Vec<Segment>)
    ensures
        final(output)@ == old(output)@ + add_now_basic_examples_text(),
{
    let mut part: Vec<Segment> = vec![
        Segment { text: "Examples:", paint: Paint::BoldYellow, width: 0 },
        Segment { text: "\n  setup-devbox now                    # Use default config\n  setup-devbox now --update-latest    # Force update latest versions\n", paint: Paint::Plain, width: 0 },
    ];
    output.append(&mut part);
}

/// The segments of the detailed description of the `now` command.
pub open spec fn add_now_detailed_info_text() -> Seq<Segment> {
    seq![
        Segment { text: "Detailed Description:", paint: Paint::BoldYellow, width: 0 },
        Segment { text: "\n  The 'now' command is the main installation command that reads your configuration\n  files and installs all specified tools, fonts, and configurations. It maintains\n  a state file to track what's been installed and their versions.\n\n", paint: Paint::Plain, width: 0 },
        Segment { text: "Configuration File:", paint: Paint::BoldYellow, width: 0 },
        Segment { text: "\nThe configuration file (", paint: Paint::Plain, width: 0 },
        Segment { text: "config.yaml", paint: Paint::Cyan, width: 0 },
        Segment { text: ") is collection other configuration files paths:\n  • Tools and their versions needs to be installed (", paint: Paint::Plain, width: 0 },
        Segment { text: "tools.yaml", paint: Paint::Cyan, width: 0 },
        Segment { text: ")\n  • Fonts to install (", paint: Paint::Plain, width: 0 },
        Segment { text: "fonts.yaml", paint: Paint::Cyan, width: 0 },
        Segment { text: ")\n  • Shell configurations to be applied (", paint: Paint::Plain, width: 0 },
        Segment { text: "shellrc.yaml", paint: Paint::Cyan, width: 0 },
        Segment { text: ")\n  • OS-specific settings changes to be made (", paint: Paint::Plain, width: 0 },
        Segment { text: "settings.yaml", paint: Paint::Cyan, width: 0 },
        Segment { text: ")\n\n", paint: Paint::Plain, width: 0 },
        Segment { text: "State Management:", paint: Paint::BoldYellow, width: 0 },
        Segment { text: "\nThe state file (", paint: Paint::Plain, width: 0 },
        Segment { text: "state.json", paint: Paint::Cyan, width: 0 },
        Segment { text: ") tracks:\n  • Currently installed tools and versions\n  • Installation timestamps\n  • Success/failure status of installations\n\n", paint: Paint::Plain, width: 0 },
    ] + add_now_behavior_info_text() + add_now_detailed_examples_text()
}

/// Appends the detailed description of the `now` command.
pub fn add_now_detailed_info(output: &mut Vec<Segment>)
    ensures
        final(output)@ == old(output)@ + add_now_detailed_info_text(),
{
    let mut part: Vec<Segment> = vec![
        Segment { text: "Detailed Description:", paint: Paint::BoldYellow, width: 0 },
        Segment { text: "\n  The 'now' command is the main installation command that reads your configuration\n  files and installs all specified tools, fonts, and configurations. It maintains\n  a state file to track what's been installed and their versions.\n\n", paint: Paint::Plain, width: 0 },
        Segment { text: "Configuration File:", paint: Paint::BoldYellow, width: 0 },
        Segment { text: "\nThe configuration file (", paint: Paint::Plain, width: 0 },
        Segment { text: "config.yaml", paint: Paint::Cyan, width: 0 },
        Segment { text: ") is collection other configuration files paths:\n  • Tools and their versions needs to be installed (", paint: Paint::Plain, width: 0 },
        Segment { text: "tools.yaml", paint: Paint::Cyan, width: 0 },
        Segment { text: ")\n  • Fonts to install (", paint: Paint::Plain, width: 0 },
        Segment { text: "fonts.yaml", paint: Paint::Cyan, width: 0 },
        Segment { text: ")\n  • Shell configurations to be applied (", paint: Paint::Plain, width: 0 },
        Segment { text: "shellrc.yaml", paint: Paint::Cyan, width: 0 },
        Segment { text: ")\n  • OS-specific settings changes to be made (", paint: Paint::Plain, width: 0 },
        Segment { text: "settings.yaml", paint: Paint::Cyan, width: 0 },
        Segment { text: ")\n\n", paint: Paint::Plain, width: 0 },
        Segment { text: "State Management:", paint: Paint::BoldYellow, width: 0 },
        Segment { text: "\nThe state file (", paint: Paint::Plain, width: 0 },
        Segment { text: "state.json", paint: Paint::Cyan, width: 0 },
        Segment { text: ") tracks:\n  • Currently installed tools and versions\n  • Installation timestamps\n  • Success/failure status of installations\n\n", paint: Paint::Plain, width: 0 },
    ];
    output.append(&mut part);
    add_now_behavior_info(output);
    add_now_detailed_examples(output);
}

/// The segments of the detailed examples of the `now` command.
pub open spec fn add_now_detailed_examples_text() -> Seq<Segment> {
    seq![
        Segment { text: "\n", paint: Paint::Plain, width: 0 },
        Segment { text: "Command Examples:", paint: Paint::BoldYellow, width: 0 },
        Segment { text: "\n  setup-devbox now\n  setup-devbox now --config ./my-config.yaml\n  setup-devbox now --update-latest\n  setup-devbox now --config custom.yaml --state custom-state.json\n\n", paint: Paint::Plain, width: 0 },
    ] + add_configuration_examples_text()
}

/// Appends the detailed examples of the `now` command.
pub fn add_now_detailed_examples(output: &mut Vec<Segment>)
    ensures
        final(output)@ == old(output)@ + add_now_detailed_examples_text(),
{
    let mut part: Vec<Segment> = vec![
        Segment { text: "\n", paint: Paint::Plain, width: 0 },
        Segment { text: "Command Examples:", paint: Paint::BoldYellow, width: 0 },
        Segment { text: "\n  setup-devbox now\n  setup-devbox now --config ./my-config.yaml\n  setup-devbox now --update-latest\n  setup-devbox now --config custom.yaml --state custom-state.json\n\n", paint: Paint::Plain, width: 0 },
    ];
    output.append(&mut part);
    add_configuration_examples(output);
}

/// The segments of the configuration file examples of the `now` command;
/// each example is shown as highlighted YAML.
pub open spec fn add_configuration_examples_text() -> Seq<Segment> {
    seq![
        Segment { text: "Configuration Examples:", paint: Paint::BoldYellow, width: 0 },
        Segment { text: "\nHere are examples of the configuration files structure:\n\n", paint: Paint::Plain, width: 0 },
        Segment { text: "config.yaml", paint: Paint::BoldCyan, width: 0 },
        Segment { text: ":\n\n", paint: Paint::Plain, width: 0 },
        Segment { text: "```yaml", paint: Paint::Green, width: 0 },
        Segment { text: "\n", paint: Paint::Plain, width: 0 },
        Segment { text: "# Tells SDB where to find the tools configuration\ntools: /Users/<<user>>/.config/setup-devbox/configs/tools.yaml\n# Tells SDB where to find the settings configuration\nsettings: /Users/<<user>>/.config/setup-devbox/configs/settings.yaml\n# Tells SDB where to find the shell configuration\nshellrc: /Users/<<user>>/.config/setup-devbox/configs/shellrc.yaml\n# Tells SDB where to find the fonts configuration\nfonts: /Users/<<user>>/.config/setup-devbox/configs/fonts.yaml", paint: Paint::Yaml, width: 0 },
        Segment { text: "```", paint: Paint::Green, width: 0 },
        Segment { text: "\n\n", paint: Paint::Plain, width: 0 },
        Segment { text: "tools.yaml", paint: Paint::BoldCyan, width: 0 },
        Segment { text: ":\n\n", paint: Paint::Plain, width: 0 },
        Segment { text: "```yaml", paint: Paint::Green, width: 0 },
        Segment { text: "\n", paint: Paint::Plain, width: 0 },
        Segment { text: "update_latest_only_after: \"7 days\"\ntools:\n\n  # This will install rustup\n  - name: rustup\n    source: brew # Install rustup via Homebrew\n\n  # Example: Install pyenv\n  - name: pyenv\n    source: brew\n    options:\n      - --head", paint: Paint::Yaml, width: 0 },
        Segment { text: "```", paint: Paint::Green, width: 0 },
        Segment { text: "\n\n", paint: Paint::Plain, width: 0 },
        Segment { text: "fonts.yaml", paint: Paint::BoldCyan, width: 0 },
        Segment { text: ":\n\n", paint: Paint::Plain, width: 0 },
        Segment { text: "```yaml", paint: Paint::Green, width: 0 },
        Segment { text: "\n", paint: Paint::Plain, width: 0 },
        Segment { text: "fonts:\n\n  # name: name of the font\n  # version: specific version of the font\n  # source: from where to download the fonts, (GitHub only)\n  # repo: repository name\n  # tag: the specific release tag for this font version\n  # install_only: only install the one mentioned, default is `all`\n  - name: 0xProto\n    version: \"3.4.0\"\n    source: github\n    repo: ryanoasis/nerd-fonts\n    tag: v3.4.0\n    install_only: ['regular', 'Mono']", paint: Paint::Yaml, width: 0 },
        Segment { text: "```", paint: Paint::Green, width: 0 },
        Segment { text: "\n\n", paint: Paint::Plain, width: 0 },
        Segment { text: "shellrc.yaml", paint: Paint::BoldCyan, width: 0 },
        Segment { text: ":\n\n", paint: Paint::Plain, width: 0 },
        Segment { text: "```yaml", paint: Paint::Green, width: 0 },
        Segment { text: "\n", paint: Paint::Plain, width: 0 },
        Segment { text: "run_commands:\n  # Supported Shells: `zsh` and `bash`\n  shell: \"zsh\" # or \"bash\"\n  run_commands:\n    # Exports Section - Environment variables\n    # Any environment variables which needs to be exported\n    - command: |\n        export EDITOR=\"zed\"\n        export VISUAL=\"zed\"\n      section: Exports\n\n    # Paths Section - PATH modifications\n    - command: export PATH=\"$HOME/bin:$PATH\"\n      section: Paths\n\n    # Evals Section - Command evaluations\n    - command: eval \"$(pyenv init - zsh)\"\n      section: Evals\n  aliases:\n    # Alias Section - For all aliases\n    - name: sd\n      value: setup-devbox", paint: Paint::Yaml, width: 0 },
        Segment { text: "```", paint: Paint::Green, width: 0 },
        Segment { text: "\n\n", paint: Paint::Plain, width: 0 },
        Segment { text: "settings.yaml", paint: Paint::BoldCyan, width: 0 },
        Segment { text: ":\n\n", paint: Paint::Plain, width: 0 },
        Segment { text: "```yaml", paint: Paint::Green, width: 0 },
        Segment { text: "\n", paint: Paint::Plain, width: 0 },
        Segment { text: "settings:\n  macos: # Settings specifically for macOS\n    # A common domain for global macOS settings\n    - domain: NSGlobalDomain\n      # The specific setting key: show file extensions\n      key: AppleShowAllExtensions\n      # Set its value to true\n      value: \"true\"\n      # This setting expects a boolean value\n      type: bool", paint: Paint::Yaml, width: 0 },
        Segment { text: "```", paint: Paint::Green, width: 0 },
        Segment { text: "\n\n", paint: Paint::Plain, width: 0 },
    ]
}

/// Appends the configuration file examples of the `now` command.
pub fn add_configuration_examples(output: &mut Vec<Segment>)
    ensures
        final(output)@ == old(output)@ + add_configuration_examples_text(),
{
    let mut part: Vec<Segment> = vec![
        Segment { text: "Configuration Examples:", paint: Paint::BoldYellow, width: 0 },
        Segment { text: "\nHere are examples of the configuration files structure:\n\n", paint: Paint::Plain, width: 0 },
        Segment { text: "config.yaml", paint: Paint::BoldCyan, width: 0 },
        Segment { text: ":\n\n", paint: Paint::Plain, width: 0 },
        Segment { text: "```yaml", paint: Paint::Green, width: 0 },
        Segment { text: "\n", paint: Paint::Plain, width: 0 },
        Segment { text: "# Tells SDB where to find the tools configuration\ntools: /Users/<<user>>/.config/setup-devbox/configs/tools.yaml\n# Tells SDB where to find the settings configuration\nsettings: /Users/<<user>>/.config/setup-devbox/configs/settings.yaml\n# Tells SDB where to find the shell configuration\nshellrc: /Users/<<user>>/.config/setup-devbox/configs/shellrc.yaml\n# Tells SDB where to find the fonts configuration\nfonts: /Users/<<user>>/.config/setup-devbox/configs/fonts.yaml", paint: Paint::Yaml, width: 0 },
        Segment { text: "```", paint: Paint::Green, width: 0 },
        Segment { text: "\n\n", paint: Paint::Plain, width: 0 },
        Segment { text: "tools.yaml", paint: Paint::BoldCyan, width: 0 },
        Segment { text: ":\n\n", paint: Paint::Plain, width: 0 },
        Segment { text: "```yaml", paint: Paint::Green, width: 0 },
        Segment { text: "\n", paint: Paint::Plain, width: 0 },
        Segment { text: "update_latest_only_after: \"7 days\"\ntools:\n\n  # This will install rustup\n  - name: rustup\n    source: brew # Install rustup via Homebrew\n\n  # Example: Install pyenv\n  - name: pyenv\n    source: brew\n    options:\n      - --head", paint: Paint::Yaml, width: 0 },
        Segment { text: "```", paint: Paint::Green, width: 0 },
        Segment { text: "\n\n", paint: Paint::Plain, width: 0 },
        Segment { text: "fonts.yaml", paint: Paint::BoldCyan, width: 0 },
        Segment { text: ":\n\n", paint: Paint::Plain, width: 0 },
        Segment { text: "```yaml", paint: Paint::Green, width: 0 },
        Segment { text: "\n", paint: Paint::Plain, width: 0 },
        Segment { text: "fonts:\n\n  # name: name of the font\n  # version: specific version of the font\n  # source: from where to download the fonts, (GitHub only)\n  # repo: repository name\n  # tag: the specific release tag for this font version\n  # install_only: only install the one mentioned, default is `all`\n  - name: 0xProto\n    version: \"3.4.0\"\n    source: github\n    repo: ryanoasis/nerd-fonts\n    tag: v3.4.0\n    install_only: ['regular', 'Mono']", paint: Paint::Yaml, width: 0 },
        Segment { text: "```", paint: Paint::Green, width: 0 },
        Segment { text: "\n\n", paint: Paint::Plain, width: 0 },
        Segment { text: "shellrc.yaml", paint: Paint::BoldCyan, width: 0 },
        Segment { text: ":\n\n", paint: Paint::Plain, width: 0 },
        Segment { text: "```yaml", paint: Paint::Green, width: 0 },
        Segment { text: "\n", paint: Paint::Plain, width: 0 },
        Segment { text: "run_commands:\n  # Supported Shells: `zsh` and `bash`\n  shell: \"zsh\" # or \"bash\"\n  run_commands:\n    # Exports Section - Environment variables\n    # Any environment variables which needs to be exported\n    - command: |\n        export EDITOR=\"zed\"\n        export VISUAL=\"zed\"\n      section: Exports\n\n    # Paths Section - PATH modifications\n    - command: export PATH=\"$HOME/bin:$PATH\"\n      section: Paths\n\n    # Evals Section - Command evaluations\n    - command: eval \"$(pyenv init - zsh)\"\n      section: Evals\n  aliases:\n    # Alias Section - For all aliases\n    - name: sd\n      value: setup-devbox", paint: Paint::Yaml, width: 0 },
        Segment { text: "```", paint: Paint::Green, width: 0 },
        Segment { text: "\n\n", paint: Paint::Plain, width: 0 },
        Segment { text: "settings.yaml", paint: Paint::BoldCyan, width: 0 },
        Segment { text: ":\n\n", paint: Paint::Plain, width: 0 },
        Segment { text: "```yaml", paint: Paint::Green, width: 0 },
        Segment { text: "\n", paint: Paint::Plain, width: 0 },
        Segment { text: "settings:\n  macos: # Settings specifically for macOS\n    # A common domain for global macOS settings\n    - domain: NSGlobalDomain\n      # The specific setting key: show file extensions\n      key: AppleShowAllExtensions\n      # Set its value to true\n      value: \"true\"\n      # This setting expects a boolean value\n      type: bool", paint: Paint::Yaml, width: 0 },
        Segment { text: "```", paint: Paint::Green, width: 0 },
        Segment { text: "\n\n", paint: Paint::Plain, width: 0 },
    ];
    output.append(&mut part);
}

/// The segments of the help of the `now` command.
pub open spec fn show_now_help_text(detailed: bool) -> Seq<Segment> {
    seq![
        Segment { text: "\n", paint: Paint::Plain, width: 0 },
        Segment { text: "setup-devbox now", paint: Paint::BoldBlue, width: 0 },
        Segment { text: "\n", paint: Paint::Plain, width: 0 },
        Segment { text: "--------------------", paint: Paint::BoldBlue, width: 0 },
        Segment { text: "\nInstall and configure your development environment based on configuration files.\n\n", paint: Paint::Plain, width: 0 },
        Segment { text: "Usage:", paint: Paint::BoldYellow, width: 0 },
        Segment { text: "\n  setup-devbox now [OPTIONS]\n\n", paint: Paint::Plain, width: 0 },
        Segment { text: "Options:", paint: Paint::BoldYellow, width: 0 },
        Segment { text: "\n  ", paint: Paint::Plain, width: 0 },
        Segment { text: "--config <PATH>", paint: Paint::Cyan, width: 0 },
        Segment { text: " Use custom configuration file (default: ", paint: Paint::Plain, width: 0 },
        Segment { text: "~/.setup-devbox/config.yaml", paint: Paint::Cyan, width: 0 },
        Segment { text: ")\n  ", paint: Paint::Plain, width: 0 },
        Segment { text: "--state <PATH>", paint: Paint::Cyan, width: 0 },
        Segment { text: " Use custom state file (default: ", paint: Paint::Plain, width: 0 },
        Segment { text: "~/.setup-devbox/state.json", paint: Paint::Cyan, width: 0 },
        Segment { text: ")\n  ", paint: Paint::Plain, width: 0 },
        Segment { text: "--update-latest", paint: Paint::Cyan, width: 0 },
        Segment { text: " Force update all tools marked as '", paint: Paint::Plain, width: 0 },
        Segment { text: "@latest", paint: Paint::Cyan, width: 0 },
        Segment { text: "' version. Overrides the configuration \"update_latest_only_after\"\n\n", paint: Paint::Plain, width: 0 },
    ] + (if detailed {
        add_now_detailed_info_text()
    } else {
        add_now_basic_examples_text()
    })
}

/// The help of the `now` command (the detailed form on request).
pub fn show_now_help(detailed: bool) -> (r: Vec<Segment>)
    ensures
        r@ == show_now_help_text(detailed),
{
    let mut output: Vec<Segment> = Vec::new();
    let mut part: Vec<Segment> = vec![
        Segment { text: "\n", paint: Paint::Plain, width: 0 },
        Segment { text: "setup-devbox now", paint: Paint::BoldBlue, width: 0 },
        Segment { text: "\n", paint: Paint::Plain, width: 0 },
        Segment { text: "--------------------", paint: Paint::BoldBlue, width: 0 },
        Segment { text: "\nInstall and configure your development environment based on configuration files.\n\n", paint: Paint::Plain, width: 0 },
        Segment { text: "Usage:", paint: Paint::BoldYellow, width: 0 },
        Segment { text: "\n  setup-devbox now [OPTIONS]\n\n", paint: Paint::Plain, width: 0 },
        Segment { text: "Options:", paint: Paint::BoldYellow, width: 0 },
        Segment { text: "\n  ", paint: Paint::Plain, width: 0 },
        Segment { text: "--config <PATH>", paint: Paint::Cyan, width: 0 },
        Segment { text: " Use custom configuration file (default: ", paint: Paint::Plain, width: 0 },
        Segment { text: "~/.setup-devbox/config.yaml", paint: Paint::Cyan, width: 0 },
        Segment { text: ")\n  ", paint: Paint::Plain, width: 0 },
        Segment { text: "--state <PATH>", paint: Paint::Cyan, width: 0 },
        Segment { text: " Use custom state file (default: ", paint: Paint::Plain, width: 0 },
        Segment { text: "~/.setup-devbox/state.json", paint: Paint::Cyan, width: 0 },
        Segment { text: ")\n  ", paint: Paint::Plain, width: 0 },
        Segment { text: "--update-latest", paint: Paint::Cyan, width: 0 },
        Segment { text: " Force update all tools marked as '", paint: Paint::Plain, width: 0 },
        Segment { text: "@latest", paint: Paint::Cyan, width: 0 },
        Segment { text: "' version. Overrides the configuration \"update_latest_only_after\"\n\n", paint: Paint::Plain, width: 0 },
    ];
    output.append(&mut part);
    if detailed {
        add_now_detailed_info(&mut output);
    } else {
        add_now_basic_examples(&mut output);
    }
    output
}

/// The segments of the detailed help of the `sync-config` command.
pub open spec fn show_sync_config_detailed_help_text() -> Seq<Segment> {
    seq![
        Segment { text: "Detailed Description:", paint: Paint::Bold, width: 0 },
        Segment { text: "\nThe 'sync-config' command helps you recreate configuration files from\nan existing state file. This is useful for:\n  • Recovering lost configuration files\n  • Sharing your setup across multiple machines\n  • Creating configuration templates from working setups\n\n", paint: Paint::Plain, width: 0 },
        Segment { text: "Use Cases:", paint: Paint::Bold, width: 0 },
        Segment { text: "\n  • Backup and restore configurations\n  • Team configuration sharing\n  • Migration between development environments\n  • Creating standardized setups\n\n", paint: Paint::Plain, width: 0 },
        Segment { text: "Generated Output:", paint: Paint::Bold, width: 0 },
        Segment { text: "\nCreates configuration files based on your state file:\n  • Reconstructed config.yaml with current tool versions\n  • Shell configuration files (.zshrc, .bashrc)\n  • Tool-specific configuration files\n  • Documentation of your current setup\n\n", paint: Paint::Plain, width: 0 },
        Segment { text: "Examples:", paint: Paint::Bold, width: 0 },
        Segment { text: "\n  setup-devbox sync-config\n  setup-devbox sync-config --state ./backup-state.json\n  setup-devbox sync-config --output-dir ./team-configs\n  setup-devbox sync-config --state prod.json --output-dir ./prod-configs\n\n", paint: Paint::Plain, width: 0 },
        Segment { text: "Workflow:", paint: Paint::Bold, width: 0 },
        Segment { text: "\n  1. Run 'setup-devbox now' to install and track your tools\n  2. Use 'setup-devbox sync-config' to generate shareable configs\n  3. Share the generated configs with your team or other machines\n", paint: Paint::Plain, width: 0 },
    ]
}

/// The detailed help of the `sync-config` command.
pub fn show_sync_config_detailed_help() -> (r: Vec<Segment>)
    ensures
        r@ == show_sync_config_detailed_help_text(),
{
    let mut output: Vec<Segment> = Vec::new();
    let mut part: Vec<Segment> = vec![
        Segment { text: "Detailed Description:", paint: Paint::Bold, width: 0 },
        Segment { text: "\nThe 'sync-config' command helps you recreate configuration files from\nan existing state file. This is useful for:\n  • Recovering lost configuration files\n  • Sharing your setup across multiple machines\n  • Creating configuration templates from working setups\n\n", paint: Paint::Plain, width: 0 },
        Segment { text: "Use Cases:", paint: Paint::Bold, width: 0 },
        Segment { text: "\n  • Backup and restore configurations\n  • Team configuration sharing\n  • Migration between development environments\n  • Creating standardized setups\n\n", paint: Paint::Plain, width: 0 },
        Segment { text: "Generated Output:", paint: Paint::Bold, width: 0 },
        Segment { text: "\nCreates configuration files based on your state file:\n  • Reconstructed config.yaml with current tool versions\n  • Shell configuration files (.zshrc, .bashrc)\n  • Tool-specific configuration files\n  • Documentation of your current setup\n\n", paint: Paint::Plain, width: 0 },
        Segment { text: "Examples:", paint: Paint::Bold, width: 0 },
        Segment { text: "\n  setup-devbox sync-config\n  setup-devbox sync-config --state ./backup-state.json\n  setup-devbox sync-config --output-dir ./team-configs\n  setup-devbox sync-config --state prod.json --output-dir ./prod-configs\n\n", paint: Paint::Plain, width: 0 },
        Segment { text: "Workflow:", paint: Paint::Bold, width: 0 },
        Segment { text: "\n  1. Run 'setup-devbox now' to install and track your tools\n  2. Use 'setup-devbox sync-config' to generate shareable configs\n  3. Share the generated configs with your team or other machines\n", paint: Paint::Plain, width: 0 },
    ];
    output.append(&mut part);
    output
}

/// The segments of the basic examples of the `sync-config` command.
pub open spec fn show_sync_config_basic_examples_text() -> Seq<Segment> {
    seq![
        Segment { text: "Examples:", paint: Paint::Bold, width: 0 },
        Segment { text: "\n  setup-devbox sync-config                 # Use default paths\n  setup-devbox sync-config --state backup.json # From backup\n", paint: Paint::Plain, width: 0 },
    ]
}

/// The basic examples of the `sync-config` command.
pub fn show_sync_config_basic_examples() -> (r: Vec<Segment>)
    ensures
        r@ == show_sync_config_basic_examples_text(),
{
    let mut output: Vec<Segment> = Vec::new();
    let mut part: Vec<Segment> = vec![
        Segment { text: "Examples:", paint: Paint::Bold, width: 0 },
        Segment { text: "\n  setup-devbox sync-config                 # Use default paths\n  setup-devbox sync-config --state backup.json # From backup\n", paint: Paint::Plain, width: 0 },
    ];
    output.append(&mut part);
    output
}

/// The segments of the help of the `sync-config` command.
pub open spec fn show_sync_config_help_text(detailed: bool) -> Seq<Segment> {
    seq![
        Segment { text: "setup-devbox sync-config", paint: Paint::BoldBlue, width: 0 },
        Segment { text: "\nSynchronize or generate configurations from an existing state file.\n\n", paint: Paint::Plain, width: 0 },
        Segment { text: "Usage:", paint: Paint::Bold, width: 0 },
        Segment { text: "\n  setup-devbox sync-config [OPTIONS]\n\n", paint: Paint::Plain, width: 0 },
        Segment { text: "Options:", paint: Paint::Bold, width: 0 },
        Segment { text: "\n  --state <PATH>      Path to state file (default: ~/.setup-devbox/state.json)\n  --output-dir <PATH> Output directory for configs (default: ~/.setup-devbox/configs)\n\n", paint: Paint::Plain, width: 0 },
    ] + (if detailed {
        show_sync_config_detailed_help_text()
    } else {
        show_sync_config_basic_examples_text()
    })
}

/// The help of the `sync-config` command (the detailed form on request).
pub fn show_sync_config_help(detailed: bool) -> (r: Vec<Segment>)
    ensures
        r@ == show_sync_config_help_text(detailed),
{
    let mut output: Vec<Segment> = Vec::new();
    let mut part: Vec<Segment> = vec![
        Segment { text: "setup-devbox sync-config", paint: Paint::BoldBlue, width: 0 },
        Segment { text: "\nSynchronize or generate configurations from an existing state file.\n\n", paint: Paint::Plain, width: 0 },
        Segment { text: "Usage:", paint: Paint::Bold, width: 0 },
        Segment { text: "\n  setup-devbox sync-config [OPTIONS]\n\n", paint: Paint::Plain, width: 0 },
        Segment { text: "Options:", paint: Paint::Bold, width: 0 },
        Segment { text: "\n  --state <PATH>      Path to state file (default: ~/.setup-devbox/state.json)\n  --output-dir <PATH> Output directory for configs (default: ~/.setup-devbox/configs)\n\n", paint: Paint::Plain, width: 0 },
    ];
    output.append(&mut part);
    if detailed {
        let mut sub = show_sync_config_detailed_help();
        output.append(&mut sub);
    } else {
        let mut sub = show_sync_config_basic_examples();
        output.append(&mut sub);
    }
    output
}

/// The segments of the help of the `reset` command.
pub open spec fn show_reset_help_text(detailed: bool) -> Seq<Segment> {
    seq![
        Segment { text: "setup-devbox reset", paint: Paint::BoldBlue, width: 0 },
        Segment { text: "\nReset the installation state.\n\nWipes entries from the state file without uninstalling the actual tools.\nThis forces the next 'now' run to re-verify or re-install everything.\n\n", paint: Paint::Plain, width: 0 },
        Segment { text: "Usage:", paint: Paint::BoldYellow, width: 0 },
        Segment { text: "\n  setup-devbox reset [OPTIONS]\n\n", paint: Paint::Plain, width: 0 },
        Segment { text: "Options:", paint: Paint::BoldYellow, width: 0 },
        Segment { text: "\n  --tool <NAME>   Optional name of a specific tool to reset in the state.\n  --all           Reset the entire state file (wipes everything).\n  --state <PATH>  Optional path to a custom state file.\n", paint: Paint::Plain, width: 0 },
    ] + (if detailed {
        seq![
            Segment { text: "\n", paint: Paint::Plain, width: 0 },
            Segment { text: "Examples:", paint: Paint::BoldYellow, width: 0 },
            Segment { text: "\n  # Reset the entire state file (useful for fresh starts)\n  setup-devbox reset --all\n\n  # Reset a specific tool (forces re-verification/install of that tool)\n  setup-devbox reset --tool starship\n", paint: Paint::Plain, width: 0 },
        ]
    } else {
        Seq::empty()
    })
}

/// The help of the `reset` command (the detailed form on request).
pub fn show_reset_help(detailed: bool) -> (r: Vec<Segment>)
    ensures
        r@ == show_reset_help_text(detailed),
{
    let mut output: Vec<Segment> = Vec::new();
    let mut part: Vec<Segment> = vec![
        Segment { text: "setup-devbox reset", paint: Paint::BoldBlue, width: 0 },
        Segment { text: "\nReset the installation state.\n\nWipes entries from the state file without uninstalling the actual tools.\nThis forces the next 'now' run to re-verify or re-install everything.\n\n", paint: Paint::Plain, width: 0 },
        Segment { text: "Usage:", paint: Paint::BoldYellow, width: 0 },
        Segment { text: "\n  setup-devbox reset [OPTIONS]\n\n", paint: Paint::Plain, width: 0 },
        Segment { text: "Options:", paint: Paint::BoldYellow, width: 0 },
        Segment { text: "\n  --tool <NAME>   Optional name of a specific tool to reset in the state.\n  --all           Reset the entire state file (wipes everything).\n  --state <PATH>  Optional path to a custom state file.\n", paint: Paint::Plain, width: 0 },
    ];
    output.append(&mut part);
    if detailed {
        let mut part: Vec<Segment> = vec![
            Segment { text: "\n", paint: Paint::Plain, width: 0 },
            Segment { text: "Examples:", paint: Paint::BoldYellow, width: 0 },
            Segment { text: "\n  # Reset the entire state file (useful for fresh starts)\n  setup-devbox reset --all\n\n  # Reset a specific tool (forces re-verification/install of that tool)\n  setup-devbox reset --tool starship\n", paint: Paint::Plain, width: 0 },
        ];
        output.append(&mut part);
    } else {
    }
    output
}

/// The segments of the detailed help of the `generate` command.
pub open spec fn show_generate_detailed_help_text() -> Seq<Segment> {
    seq![
        Segment { text: "Detailed Description:", paint: Paint::Bold, width: 0 },
        Segment { text: "\nThe 'generate' command creates template configuration files that you can\ncustomize for your development environment. It's the recommended way to\nget started with setup-devbox.\n\n", paint: Paint::Plain, width: 0 },
        Segment { text: "Generated Files:", paint: Paint::Bold, width: 0 },
        Segment { text: "\n  • config.yaml    - Main configuration with references to other configuration files\n  • tools.yaml     - Tools configuration with example tools\n  • fonts.yaml     - Fonts configuration with example fonts\n  • shellrc.yaml   - Shell configuration with example shell configuration\n  • settings.yaml  - OS Setting configuration with example configuration (Supported OS: macOS\n  • state.json     - Empty state file to track installations\n\n", paint: Paint::Plain, width: 0 },
        Segment { text: "Configuration Structure:", paint: Paint::Bold, width: 0 },
        Segment { text: "\nThe generated config includes examples for:\n  • Common development tools (git, docker, node, etc.)\n  • Popular programming languages and their toolchains\n  • Essential fonts for development\n  • Shell configurations and aliases\n  • OS-specific tweaks and settings\n\n", paint: Paint::Plain, width: 0 },
        Segment { text: "Examples:", paint: Paint::Bold, width: 0 },
        Segment { text: "\n  setup-devbox generate\n  setup-devbox generate --config ./project-config.yaml\n  setup-devbox generate --config dev.yaml --state dev-state.json\n\n", paint: Paint::Plain, width: 0 },
        Segment { text: "Next Steps:", paint: Paint::Bold, width: 0 },
        Segment { text: "\n  1. Run 'setup-devbox generate' to create default configs\n  2. Edit the generated config.yaml to match your needs\n  3. Run 'setup-devbox now' to install everything\n", paint: Paint::Plain, width: 0 },
    ]
}

/// The detailed help of the `generate` command.
pub fn show_generate_detailed_help() -> (r: Vec<Segment>)
    ensures
        r@ == show_generate_detailed_help_text(),
{
    let mut output: Vec<Segment> = Vec::new();
    let mut part: Vec<Segment> = vec![
        Segment { text: "Detailed Description:", paint: Paint::Bold, width: 0 },
        Segment { text: "\nThe 'generate' command creates template configuration files that you can\ncustomize for your development environment. It's the recommended way to\nget started with setup-devbox.\n\n", paint: Paint::Plain, width: 0 },
        Segment { text: "Generated Files:", paint: Paint::Bold, width: 0 },
        Segment { text: "\n  • config.yaml    - Main configuration with references to other configuration files\n  • tools.yaml     - Tools configuration with example tools\n  • fonts.yaml     - Fonts configuration with example fonts\n  • shellrc.yaml   - Shell configuration with example shell configuration\n  • settings.yaml  - OS Setting configuration with example configuration (Supported OS: macOS\n  • state.json     - Empty state file to track installations\n\n", paint: Paint::Plain, width: 0 },
        Segment { text: "Configuration Structure:", paint: Paint::Bold, width: 0 },
        Segment { text: "\nThe generated config includes examples for:\n  • Common development tools (git, docker, node, etc.)\n  • Popular programming languages and their toolchains\n  • Essential fonts for development\n  • Shell configurations and aliases\n  • OS-specific tweaks and settings\n\n", paint: Paint::Plain, width: 0 },
        Segment { text: "Examples:", paint: Paint::Bold, width: 0 },
        Segment { text: "\n  setup-devbox generate\n  setup-devbox generate --config ./project-config.yaml\n  setup-devbox generate --config dev.yaml --state dev-state.json\n\n", paint: Paint::Plain, width: 0 },
        Segment { text: "Next Steps:", paint: Paint::Bold, width: 0 },
        Segment { text: "\n  1. Run 'setup-devbox generate' to create default configs\n  2. Edit the generated config.yaml to match your needs\n  3. Run 'setup-devbox now' to install everything\n", paint: Paint::Plain, width: 0 },
    ];
    output.append(&mut part);
    output
}

/// The segments of the basic examples of the `generate` command.
pub open spec fn show_generate_basic_examples_text() -> Seq<Segment> {
    seq![
        Segment { text: "Examples:", paint: Paint::Bold, width: 0 },
        Segment { text: "\n  setup-devbox generate                    # Create default configs\n  setup-devbox generate --config custom.yaml # Custom location\n", paint: Paint::Plain, width: 0 },
    ]
}

/// The basic examples of the `generate` command.
pub fn show_generate_basic_examples() -> (r: Vec<Segment>)
    ensures
        r@ == show_generate_basic_examples_text(),
{
    let mut output: Vec<Segment> = Vec::new();
    let mut part: Vec<Segment> = vec![
        Segment { text: "Examples:", paint: Paint::Bold, width: 0 },
        Segment { text: "\n  setup-devbox generate                    # Create default configs\n  setup-devbox generate --config custom.yaml # Custom location\n", paint: Paint::Plain, width: 0 },
    ];
    output.append(&mut part);
    output
}

/// The segments of the help of the `generate` command.
pub open spec fn show_generate_help_text(detailed: bool) -> Seq<Segment> {
    seq![
        Segment { text: "setup-devbox generate", paint: Paint::BoldBlue, width: 0 },
        Segment { text: "\nGenerate default configuration and state files to get started.\n\n", paint: Paint::Plain, width: 0 },
        Segment { text: "Usage:", paint: Paint::Bold, width: 0 },
        Segment { text: "\n  setup-devbox generate [OPTIONS]\n\n", paint: Paint::Plain, width: 0 },
        Segment { text: "Options:", paint: Paint::Bold, width: 0 },
        Segment { text: "\n  --config <PATH>  Save configuration to custom path (default: ~/.setup-devbox/config.yaml)\n  --state <PATH>   Save state file to custom path (default: ~/.setup-devbox/state.json)\n\n", paint: Paint::Plain, width: 0 },
    ] + (if detailed {
        show_generate_detailed_help_text()
    } else {
        show_generate_basic_examples_text()
    })
}

/// The help of the `generate` command (the detailed form on request).
pub fn show_generate_help(detailed: bool) -> (r: Vec<Segment>)
    ensures
        r@ == show_generate_help_text(detailed),
{
    let mut output: Vec<Segment> = Vec::new();
    let mut part: Vec<Segment> = vec![
        Segment { text: "setup-devbox generate", paint: Paint::BoldBlue, width: 0 },
        Segment { text: "\nGenerate default configuration and state files to get started.\n\n", paint: Paint::Plain, width: 0 },
        Segment { text: "Usage:", paint: Paint::Bold, width: 0 },
        Segment { text: "\n  setup-devbox generate [OPTIONS]\n\n", paint: Paint::Plain, width: 0 },
        Segment { text: "Options:", paint: Paint::Bold, width: 0 },
        Segment { text: "\n  --config <PATH>  Save configuration to custom path (default: ~/.setup-devbox/config.yaml)\n  --state <PATH>   Save state file to custom path (default: ~/.setup-devbox/state.json)\n\n", paint: Paint::Plain, width: 0 },
    ];
    output.append(&mut part);
    if detailed {
        let mut sub = show_generate_detailed_help();
        output.append(&mut sub);
    } else {
        let mut sub = show_generate_basic_examples();
        output.append(&mut sub);
    }
    output
}

/// The segments of the detailed help of the `bootstrap` command.
pub open spec fn show_bootstrap_detailed_help_text() -> Seq<Segment> {
    seq![
        Segment { text: "Description:", paint: Paint::BoldYellow, width: 0 },
        Segment { text: "\nThe 'bootstrap' command initializes your development environment by:\n1. Creating a set of template configuration files with sensible defaults.\n2. Checking for and installing Homebrew if it's not already present.\n\nThis is typically the first command you run when setting up a new machine\nor starting to use setup-devbox for the first time.\n\n", paint: Paint::Plain, width: 0 },
        Segment { text: "Generated Files:", paint: Paint::BoldYellow, width: 0 },
        Segment { text: "\n  • ", paint: Paint::Plain, width: 0 },
        Segment { text: "config.yaml", paint: Paint::Cyan, width: 0 },
        Segment { text: " - Main configuration file linking all others\n  • ", paint: Paint::Plain, width: 0 },
        Segment { text: "tools.yaml", paint: Paint::Cyan, width: 0 },
        Segment { text: " - Definitions for development tools and packages\n  • ", paint: Paint::Plain, width: 0 },
        Segment { text: "settings.yaml", paint: Paint::Cyan, width: 0 },
        Segment { text: " - macOS system settings and preferences\n  • ", paint: Paint::Plain, width: 0 },
        Segment { text: "shellrc.yaml", paint: Paint::Cyan, width: 0 },
        Segment { text: " - Shell aliases and initialization commands\n  • ", paint: Paint::Plain, width: 0 },
        Segment { text: "fonts.yaml", paint: Paint::Cyan, width: 0 },
        Segment { text: " - Font installation configurations\n\nConfiguration directory resolution precedence:\n  1. User provided --config <PATH> argument\n  2. Environment variable $SDB_CONFIG_PATH/configs/\n  3. Default: ~/.setup-devbox/configs/\n\nExisting files are NEVER overwritten, so your manual changes are safe.\n\n", paint: Paint::Plain, width: 0 },
        Segment { text: "Advanced Examples:", paint: Paint::BoldYellow, width: 0 },
        Segment { text: "\n  setup-devbox bootstrap\n  setup-devbox bootstrap --config ./project-configs\n  setup-devbox bootstrap --config dev --state dev-state.json\n\n", paint: Paint::Plain, width: 0 },
        Segment { text: "Workflow:", paint: Paint::BoldYellow, width: 0 },
        Segment { text: "\n  1. Run 'setup-devbox bootstrap' to initialize your environment.\n  2. Homebrew will be installed automatically if needed.\n  3. Review and customize the generated YAML files in ~/.setup-devbox/configs.\n  4. Run 'setup-devbox now' to apply the configurations.\n", paint: Paint::Plain, width: 0 },
    ]
}

/// The detailed help of the `bootstrap` command.
pub fn show_bootstrap_detailed_help() -> (r: Vec<Segment>)
    ensures
        r@ == show_bootstrap_detailed_help_text(),
{
    let mut output: Vec<Segment> = Vec::new();
    let mut part: Vec<Segment> = vec![
        Segment { text: "Description:", paint: Paint::BoldYellow, width: 0 },
        Segment { text: "\nThe 'bootstrap' command initializes your development environment by:\n1. Creating a set of template configuration files with sensible defaults.\n2. Checking for and installing Homebrew if it's not already present.\n\nThis is typically the first command you run when setting up a new machine\nor starting to use setup-devbox for the first time.\n\n", paint: Paint::Plain, width: 0 },
        Segment { text: "Generated Files:", paint: Paint::BoldYellow, width: 0 },
        Segment { text: "\n  • ", paint: Paint::Plain, width: 0 },
        Segment { text: "config.yaml", paint: Paint::Cyan, width: 0 },
        Segment { text: " - Main configuration file linking all others\n  • ", paint: Paint::Plain, width: 0 },
        Segment { text: "tools.yaml", paint: Paint::Cyan, width: 0 },
        Segment { text: " - Definitions for development tools and packages\n  • ", paint: Paint::Plain, width: 0 },
        Segment { text: "settings.yaml", paint: Paint::Cyan, width: 0 },
        Segment { text: " - macOS system settings and preferences\n  • ", paint: Paint::Plain, width: 0 },
        Segment { text: "shellrc.yaml", paint: Paint::Cyan, width: 0 },
        Segment { text: " - Shell aliases and initialization commands\n  • ", paint: Paint::Plain, width: 0 },
        Segment { text: "fonts.yaml", paint: Paint::Cyan, width: 0 },
        Segment { text: " - Font installation configurations\n\nConfiguration directory resolution precedence:\n  1. User provided --config <PATH> argument\n  2. Environment variable $SDB_CONFIG_PATH/configs/\n  3. Default: ~/.setup-devbox/configs/\n\nExisting files are NEVER overwritten, so your manual changes are safe.\n\n", paint: Paint::Plain, width: 0 },
        Segment { text: "Advanced Examples:", paint: Paint::BoldYellow, width: 0 },
        Segment { text: "\n  setup-devbox bootstrap\n  setup-devbox bootstrap --config ./project-configs\n  setup-devbox bootstrap --config dev --state dev-state.json\n\n", paint: Paint::Plain, width: 0 },
        Segment { text: "Workflow:", paint: Paint::BoldYellow, width: 0 },
        Segment { text: "\n  1. Run 'setup-devbox bootstrap' to initialize your environment.\n  2. Homebrew will be installed automatically if needed.\n  3. Review and customize the generated YAML files in ~/.setup-devbox/configs.\n  4. Run 'setup-devbox now' to apply the configurations.\n", paint: Paint::Plain, width: 0 },
    ];
    output.append(&mut part);
    output
}

/// The segments of the basic examples of the `bootstrap` command.
pub open spec fn show_bootstrap_basic_examples_text() -> Seq<Segment> {
    seq![
        Segment { text: "Examples:", paint: Paint::BoldYellow, width: 0 },
        Segment { text: "\n  setup-devbox bootstrap                    # Default setup in ~/.setup-devbox\n  setup-devbox bootstrap --config ./custom  # Save configs to custom directory\n\n", paint: Paint::Plain, width: 0 },
    ]
}

/// The basic examples of the `bootstrap` command.
pub fn show_bootstrap_basic_examples() -> (r: Vec<Segment>)
    ensures
        r@ == show_bootstrap_basic_examples_text(),
{
    let mut output: Vec<Segment> = Vec::new();
    let mut part: Vec<Segment> = vec![
        Segment { text: "Examples:", paint: Paint::BoldYellow, width: 0 },
        Segment { text: "\n  setup-devbox bootstrap                    # Default setup in ~/.setup-devbox\n  setup-devbox bootstrap --config ./custom  # Save configs to custom directory\n\n", paint: Paint::Plain, width: 0 },
    ];
    output.append(&mut part);
    output
}

/// The segments of the help of the `bootstrap` command.
pub open spec fn show_bootstrap_help_text(detailed: bool) -> Seq<Segment> {
    seq![
        Segment { text: "setup-devbox bootstrap", paint: Paint::BoldBlue, width: 0 },
        Segment { text: "\nBootstraps the development environment by generating default configurations and installing Homebrew.\n\n", paint: Paint::Plain, width: 0 },
        Segment { text: "Usage:", paint: Paint::BoldYellow, width: 0 },
        Segment { text: "\n  setup-devbox bootstrap [OPTIONS]\n\n", paint: Paint::Plain, width: 0 },
        Segment { text: "Options:", paint: Paint::BoldYellow, width: 0 },
        Segment { text: "\n  --config <PATH>  Optional path to save generated configuration files (Overrides $SDB_CONFIG_PATH)\n  --state <PATH>   Optional path to save the generated state file (Overrides $SDB_STATE_FILE_PATH)\n  --detailed       Show this detailed help information\n\n", paint: Paint::Plain, width: 0 },
        Segment { text: "Environment Variables:", paint: Paint::BoldYellow, width: 0 },
        Segment { text: "\n  SDB_CONFIG_PATH       Base directory for configurations (default: ~/.setup-devbox)\n  SDB_STATE_FILE_PATH   Specific path for the state file\n\n", paint: Paint::Plain, width: 0 },
    ] + (if detailed {
        show_bootstrap_detailed_help_text()
    } else {
        show_bootstrap_basic_examples_text()
    })
}

/// The help of the `bootstrap` command (the detailed form on request).
pub fn show_bootstrap_help(detailed: bool) -> (r: Vec<Segment>)
    ensures
        r@ == show_bootstrap_help_text(detailed),
{
    let mut output: Vec<Segment> = Vec::new();
    let mut part: Vec<Segment> = vec![
        Segment { text: "setup-devbox bootstrap", paint: Paint::BoldBlue, width: 0 },
        Segment { text: "\nBootstraps the development environment by generating default configurations and installing Homebrew.\n\n", paint: Paint::Plain, width: 0 },
        Segment { text: "Usage:", paint: Paint::BoldYellow, width: 0 },
        Segment { text: "\n  setup-devbox bootstrap [OPTIONS]\n\n", paint: Paint::Plain, width: 0 },
        Segment { text: "Options:", paint: Paint::BoldYellow, width: 0 },
        Segment { text: "\n  --config <PATH>  Optional path to save generated configuration files (Overrides $SDB_CONFIG_PATH)\n  --state <PATH>   Optional path to save the generated state file (Overrides $SDB_STATE_FILE_PATH)\n  --detailed       Show this detailed help information\n\n", paint: Paint::Plain, width: 0 },
        Segment { text: "Environment Variables:", paint: Paint::BoldYellow, width: 0 },
        Segment { text: "\n  SDB_CONFIG_PATH       Base directory for configurations (default: ~/.setup-devbox)\n  SDB_STATE_FILE_PATH   Specific path for the state file\n\n", paint: Paint::Plain, width: 0 },
    ];
    output.append(&mut part);
    if detailed {
        let mut sub = show_bootstrap_detailed_help();
        output.append(&mut sub);
    } else {
        let mut sub = show_bootstrap_basic_examples();
        output.append(&mut sub);
    }
    output
}

/// The segments of the basic help of the `add` command.
pub open spec fn add_add_basic_info_text() -> Seq<Segment> {
    seq![
        Segment { text: "Basic Usage:", paint: Paint::BoldYellow, width: 0 },
        Segment { text: "\n\n  ", paint: Paint::Plain, width: 0 },
        Segment { text: "•", paint: Paint::Bold, width: 0 },
        Segment { text: " Add a tool:\n  ", paint: Paint::Plain, width: 0 },
        Segment { text: "    setup-devbox add tool --name <NAME> --version <VERSION> --source <SOURCE>", paint: Paint::ItalicCyan, width: 0 },
        Segment { text: "\n\n  ", paint: Paint::Plain, width: 0 },
        Segment { text: "•", paint: Paint::Bold, width: 0 },
        Segment { text: " Add a font:\n  ", paint: Paint::Plain, width: 0 },
        Segment { text: "    setup-devbox add font --name <NAME> --version <VERSION> --repo <REPO> --tag <TAG>", paint: Paint::ItalicCyan, width: 0 },
        Segment { text: "\n\n  ", paint: Paint::Plain, width: 0 },
        Segment { text: "•", paint: Paint::Bold, width: 0 },
        Segment { text: " Add a setting:\n  ", paint: Paint::Plain, width: 0 },
        Segment { text: "    setup-devbox add setting --domain <DOMAIN> --key <KEY> --value <VALUE> --value-type <TYPE>", paint: Paint::ItalicCyan, width: 0 },
        Segment { text: "\n\n  ", paint: Paint::Plain, width: 0 },
        Segment { text: "•", paint: Paint::Bold, width: 0 },
        Segment { text: " Add an alias:\n  ", paint: Paint::Plain, width: 0 },
        Segment { text: "    setup-devbox add alias --name <NAME> --value <VALUE>", paint: Paint::ItalicCyan, width: 0 },
        Segment { text: "\n\n", paint: Paint::Plain, width: 0 },
        Segment { text: "Tip:", paint: Paint::Yellow, width: 0 },
        Segment { text: " Use ", paint: Paint::Plain, width: 0 },
        Segment { text: "setup-devbox help add --detailed", paint: Paint::Cyan, width: 0 },
        Segment { text: " for detailed examples and all available options.\n\n", paint: Paint::Plain, width: 0 },
    ]
}

/// Appends the basic help of the `add` command.
fn add_add_basic_info(output: &mut Vec<Segment>)
    ensures
        final(output)@ == old(output)@ + add_add_basic_info_text(),
{
    let mut part: Vec<Segment> = vec![
        Segment { text: "Basic Usage:", paint: Paint::BoldYellow, width: 0 },
        Segment { text: "\n\n  ", paint: Paint::Plain, width: 0 },
        Segment { text: "•", paint: Paint::Bold, width: 0 },
        Segment { text: " Add a tool:\n  ", paint: Paint::Plain, width: 0 },
        Segment { text: "    setup-devbox add tool --name <NAME> --version <VERSION> --source <SOURCE>", paint: Paint::ItalicCyan, width: 0 },
        Segment { text: "\n\n  ", paint: Paint::Plain, width: 0 },
        Segment { text: "•", paint: Paint::Bold, width: 0 },
        Segment { text: " Add a font:\n  ", paint: Paint::Plain, width: 0 },
        Segment { text: "    setup-devbox add font --name <NAME> --version <VERSION> --repo <REPO> --tag <TAG>", paint: Paint::ItalicCyan, width: 0 },
        Segment { text: "\n\n  ", paint: Paint::Plain, width: 0 },
        Segment { text: "•", paint: Paint::Bold, width: 0 },
        Segment { text: " Add a setting:\n  ", paint: Paint::Plain, width: 0 },
        Segment { text: "    setup-devbox add setting --domain <DOMAIN> --key <KEY> --value <VALUE> --value-type <TYPE>", paint: Paint::ItalicCyan, width: 0 },
        Segment { text: "\n\n  ", paint: Paint::Plain, width: 0 },
        Segment { text: "•", paint: Paint::Bold, width: 0 },
        Segment { text: " Add an alias:\n  ", paint: Paint::Plain, width: 0 },
        Segment { text: "    setup-devbox add alias --name <NAME> --value <VALUE>", paint: Paint::ItalicCyan, width: 0 },
        Segment { text: "\n\n", paint: Paint::Plain, width: 0 },
        Segment { text: "Tip:", paint: Paint::Yellow, width: 0 },
        Segment { text: " Use ", paint: Paint::Plain, width: 0 },
        Segment { text: "setup-devbox help add --detailed", paint: Paint::Cyan, width: 0 },
        Segment { text: " for detailed examples and all available options.\n\n", paint: Paint::Plain, width: 0 },
    ];
    output.append(&mut part);
}

/// The segments of the detailed help of the `add` command.
pub open spec fn add_add_detailed_info_text() -> Seq<Segment> {
    seq![
        Segment { text: "━━━━━━━━━━━━━━━━━━━━━━━━━━━━━━━━━━━━━━━━━━━━━━━━━━━━━━━━━━━━━━━━━━━━━━━━━━━━━━━━", paint: Paint::BrightBlack, width: 0 },
        Segment { text: "\n", paint: Paint::Plain, width: 0 },
        Segment { text: "ADD TOOL", paint: Paint::BoldGreen, width: 0 },
        Segment { text: "\n", paint: Paint::Plain, width: 0 },
        Segment { text: "━━━━━━━━━━━━━━━━━━━━━━━━━━━━━━━━━━━━━━━━━━━━━━━━━━━━━━━━━━━━━━━━━━━━━━━━━━━━━━━━", paint: Paint::BrightBlack, width: 0 },
        Segment { text: "\n\n", paint: Paint::Plain, width: 0 },
        Segment { text: "Add a new tool to your tools.yaml configuration.", paint: Paint::Dimmed, width: 0 },
        Segment { text: "\n\n", paint: Paint::Plain, width: 0 },
        Segment { text: "Usage:", paint: Paint::BoldYellow, width: 0 },
        Segment { text: "\n  ", paint: Paint::Plain, width: 0 },
        Segment { text: "setup-devbox", paint: Paint::Cyan, width: 0 },
        Segment { text: " ", paint: Paint::Plain, width: 0 },
        Segment { text: "add", paint: Paint::Cyan, width: 0 },
        Segment { text: " ", paint: Paint::Plain, width: 0 },
        Segment { text: "tool", paint: Paint::Green, width: 0 },
        Segment { text: " [OPTIONS]\n\n", paint: Paint::Plain, width: 0 },
        Segment { text: "Required Options:", paint: Paint::BoldYellow, width: 0 },
        Segment { text: "\n  ", paint: Paint::Plain, width: 0 },
        Segment { text: "--name <NAME>", paint: Paint::Cyan, width: 0 },
        Segment { text: "  Tool name\n  ", paint: Paint::Plain, width: 0 },
        Segment { text: "--version <VERSION>", paint: Paint::Cyan, width: 0 },
        Segment { text: "  Version (e.g., '1.0.0' or 'latest')\n  ", paint: Paint::Plain, width: 0 },
        Segment { text: "--source <SOURCE>", paint: Paint::Cyan, width: 0 },
        Segment { text: "  Source type [brew, github, rustup, cargo, pip, go, url, uv]\n\n", paint: Paint::Plain, width: 0 },
        Segment { text: "GitHub Source Options (required for --source github):", paint: Paint::BoldYellow, width: 0 },
        Segment { text: "\n  ", paint: Paint::Plain, width: 0 },
        Segment { text: "--repo <REPO>", paint: Paint::Cyan, width: 0 },
        Segment { text: "  Repository in format 'owner/repo'\n  ", paint: Paint::Plain, width: 0 },
        Segment { text: "--tag <TAG>", paint: Paint::Cyan, width: 0 },
        Segment { text: "  Release tag\n\n", paint: Paint::Plain, width: 0 },
        Segment { text: "Optional Options:", paint: Paint::BoldYellow, width: 0 },
        Segment { text: "\n  ", paint: Paint::Plain, width: 0 },
        Segment { text: "--rename-to <NAME>", paint: Paint::Cyan, width: 0 },
        Segment { text: "  Rename binary to different name\n  ", paint: Paint::Plain, width: 0 },
        Segment { text: "--additional-cmd <CMD>", paint: Paint::Cyan, width: 0 },
        Segment { text: "  Additional command to run (can be used multiple times)\n  ", paint: Paint::Plain, width: 0 },
        Segment { text: "--enable-config-manager", paint: Paint::Cyan, width: 0 },
        Segment { text: "  Enable configuration manager tracking\n  ", paint: Paint::Plain, width: 0 },
        Segment { text: "--config-paths <PATH>", paint: Paint::Cyan, width: 0 },
        Segment { text: "  Config file path to track (can be used multiple times)\n\n", paint: Paint::Plain, width: 0 },
        Segment { text: "Examples:", paint: Paint::BoldMagenta, width: 0 },
        Segment { text: "\n\n  ", paint: Paint::Plain, width: 0 },
        Segment { text: "1.", paint: Paint::Bold, width: 0 },
        Segment { text: " Add a tool from GitHub with additional setup:\n     ", paint: Paint::Plain, width: 0 },
        Segment { text: "setup-devbox", paint: Paint::Cyan, width: 0 },
        Segment { text: " add tool \\\n       --name helix \\\n       --version 25.07.1 \\\n       --source github \\\n       --repo helix-editor/helix \\\n       --tag 25.07.1 \\\n       --rename-to hx \\\n       --additional-cmd \"mkdir -p $HOME/.config/helix\" \\\n       --additional-cmd \"cp -r runtime $HOME/.config/helix\" \\\n       --enable-config-manager \\\n       --config-paths \"$HOME/.config/helix/config.toml\"\n\n  ", paint: Paint::Plain, width: 0 },
        Segment { text: "2.", paint: Paint::Bold, width: 0 },
        Segment { text: " Add a tool from Homebrew:\n     ", paint: Paint::Plain, width: 0 },
        Segment { text: "setup-devbox", paint: Paint::Cyan, width: 0 },
        Segment { text: " add tool --name bat --version latest --source brew\n\n  ", paint: Paint::Plain, width: 0 },
        Segment { text: "3.", paint: Paint::Bold, width: 0 },
        Segment { text: " Add a Rust tool from crates.io:\n     ", paint: Paint::Plain, width: 0 },
        Segment { text: "setup-devbox", paint: Paint::Cyan, width: 0 },
        Segment { text: " add tool --name ripgrep --version 14.1.1 --source cargo\n\n", paint: Paint::Plain, width: 0 },
        Segment { text: "━━━━━━━━━━━━━━━━━━━━━━━━━━━━━━━━━━━━━━━━━━━━━━━━━━━━━━━━━━━━━━━━━━━━━━━━━━━━━━━━", paint: Paint::BrightBlack, width: 0 },
        Segment { text: "\n", paint: Paint::Plain, width: 0 },
        Segment { text: "ADD FONT", paint: Paint::BoldGreen, width: 0 },
        Segment { text: "\n", paint: Paint::Plain, width: 0 },
        Segment { text: "━━━━━━━━━━━━━━━━━━━━━━━━━━━━━━━━━━━━━━━━━━━━━━━━━━━━━━━━━━━━━━━━━━━━━━━━━━━━━━━━", paint: Paint::BrightBlack, width: 0 },
        Segment { text: "\n\n", paint: Paint::Plain, width: 0 },
        Segment { text: "Add a new font to your fonts.yaml configuration.", paint: Paint::Dimmed, width: 0 },
        Segment { text: "\n\n", paint: Paint::Plain, width: 0 },
        Segment { text: "Usage:", paint: Paint::BoldYellow, width: 0 },
        Segment { text: "\n  ", paint: Paint::Plain, width: 0 },
        Segment { text: "setup-devbox", paint: Paint::Cyan, width: 0 },
        Segment { text: " ", paint: Paint::Plain, width: 0 },
        Segment { text: "add", paint: Paint::Cyan, width: 0 },
        Segment { text: " ", paint: Paint::Plain, width: 0 },
        Segment { text: "font", paint: Paint::Green, width: 0 },
        Segment { text: " [OPTIONS]\n\n", paint: Paint::Plain, width: 0 },
        Segment { text: "Required Options:", paint: Paint::BoldYellow, width: 0 },
        Segment { text: "\n  ", paint: Paint::Plain, width: 0 },
        Segment { text: "--name <NAME>", paint: Paint::Cyan, width: 0 },
        Segment { text: "  Font name\n  ", paint: Paint::Plain, width: 0 },
        Segment { text: "--version <VERSION>", paint: Paint::Cyan, width: 0 },
        Segment { text: "  Font version\n  ", paint: Paint::Plain, width: 0 },
        Segment { text: "--repo <REPO>", paint: Paint::Cyan, width: 0 },
        Segment { text: "  Repository in format 'owner/repo'\n  ", paint: Paint::Plain, width: 0 },
        Segment { text: "--tag <TAG>", paint: Paint::Cyan, width: 0 },
        Segment { text: "  Release tag\n\n", paint: Paint::Plain, width: 0 },
        Segment { text: "Optional Options:", paint: Paint::BoldYellow, width: 0 },
        Segment { text: "\n  ", paint: Paint::Plain, width: 0 },
        Segment { text: "--source <SOURCE>", paint: Paint::Cyan, width: 0 },
        Segment { text: "  Source type (default: github)\n  ", paint: Paint::Plain, width: 0 },
        Segment { text: "--install-only <VARIANT>", paint: Paint::Cyan, width: 0 },
        Segment { text: "  Font variants to install (can be used multiple times)\n\n", paint: Paint::Plain, width: 0 },
        Segment { text: "Examples:", paint: Paint::BoldMagenta, width: 0 },
        Segment { text: "\n\n  ", paint: Paint::Plain, width: 0 },
        Segment { text: "1.", paint: Paint::Bold, width: 0 },
        Segment { text: " Add a Nerd Font with specific variants:\n     ", paint: Paint::Plain, width: 0 },
        Segment { text: "setup-devbox", paint: Paint::Cyan, width: 0 },
        Segment { text: " add font \\\n       --name 0xProto \\\n       --version 3.4.0 \\\n       --repo ryanoasis/nerd-fonts \\\n       --tag v3.4.0 \\\n       --install-only regular \\\n       --install-only Mono\n\n  ", paint: Paint::Plain, width: 0 },
        Segment { text: "2.", paint: Paint::Bold, width: 0 },
        Segment { text: " Add JetBrainsMono font:\n     ", paint: Paint::Plain, width: 0 },
        Segment { text: "setup-devbox", paint: Paint::Cyan, width: 0 },
        Segment { text: " add font \\\n       --name JetBrainsMono \\\n       --version 3.4.0 \\\n       --repo ryanoasis/nerd-fonts \\\n       --tag v3.4.0\n\n", paint: Paint::Plain, width: 0 },
        Segment { text: "━━━━━━━━━━━━━━━━━━━━━━━━━━━━━━━━━━━━━━━━━━━━━━━━━━━━━━━━━━━━━━━━━━━━━━━━━━━━━━━━", paint: Paint::BrightBlack, width: 0 },
        Segment { text: "\n", paint: Paint::Plain, width: 0 },
        Segment { text: "ADD SETTING", paint: Paint::BoldGreen, width: 0 },
        Segment { text: "\n", paint: Paint::Plain, width: 0 },
        Segment { text: "━━━━━━━━━━━━━━━━━━━━━━━━━━━━━━━━━━━━━━━━━━━━━━━━━━━━━━━━━━━━━━━━━━━━━━━━━━━━━━━━", paint: Paint::BrightBlack, width: 0 },
        Segment { text: "\n\n", paint: Paint::Plain, width: 0 },
        Segment { text: "Add a new macOS system setting to your settings.yaml configuration.", paint: Paint::Dimmed, width: 0 },
        Segment { text: "\n\n", paint: Paint::Plain, width: 0 },
        Segment { text: "Usage:", paint: Paint::BoldYellow, width: 0 },
        Segment { text: "\n  ", paint: Paint::Plain, width: 0 },
        Segment { text: "setup-devbox", paint: Paint::Cyan, width: 0 },
        Segment { text: " ", paint: Paint::Plain, width: 0 },
        Segment { text: "add", paint: Paint::Cyan, width: 0 },
        Segment { text: " ", paint: Paint::Plain, width: 0 },
        Segment { text: "setting", paint: Paint::Green, width: 0 },
        Segment { text: " [OPTIONS]\n\n", paint: Paint::Plain, width: 0 },
        Segment { text: "Required Options:", paint: Paint::BoldYellow, width: 0 },
        Segment { text: "\n  ", paint: Paint::Plain, width: 0 },
        Segment { text: "--domain <DOMAIN>", paint: Paint::Cyan, width: 0 },
        Segment { text: "  Setting domain (e.g., NSGlobalDomain, com.apple.finder)\n  ", paint: Paint::Plain, width: 0 },
        Segment { text: "--key <KEY>", paint: Paint::Cyan, width: 0 },
        Segment { text: "  Setting key name\n  ", paint: Paint::Plain, width: 0 },
        Segment { text: "--value <VALUE>", paint: Paint::Cyan, width: 0 },
        Segment { text: "  Setting value\n  ", paint: Paint::Plain, width: 0 },
        Segment { text: "--value-type <TYPE>", paint: Paint::Cyan, width: 0 },
        Segment { text: "  Value type [bool, string, int, float]\n\n", paint: Paint::Plain, width: 0 },
        Segment { text: "Examples:", paint: Paint::BoldMagenta, width: 0 },
        Segment { text: "\n\n  ", paint: Paint::Plain, width: 0 },
        Segment { text: "1.", paint: Paint::Bold, width: 0 },
        Segment { text: " Show all file extensions:\n     ", paint: Paint::Plain, width: 0 },
        Segment { text: "setup-devbox", paint: Paint::Cyan, width: 0 },
        Segment { text: " add setting \\\n       --domain NSGlobalDomain \\\n       --key AppleShowAllExtensions \\\n       --value true \\\n       --value-type bool\n\n  ", paint: Paint::Plain, width: 0 },
        Segment { text: "2.", paint: Paint::Bold, width: 0 },
        Segment { text: " Set Finder default view:\n     ", paint: Paint::Plain, width: 0 },
        Segment { text: "setup-devbox", paint: Paint::Cyan, width: 0 },
        Segment { text: " add setting \\\n       --domain com.apple.finder \\\n       --key FXPreferredViewStyle \\\n       --value Nlsv \\\n       --value-type string\n\n  ", paint: Paint::Plain, width: 0 },
        Segment { text: "3.", paint: Paint::Bold, width: 0 },
        Segment { text: " Set dock icon size:\n     ", paint: Paint::Plain, width: 0 },
        Segment { text: "setup-devbox", paint: Paint::Cyan, width: 0 },
        Segment { text: " add setting \\\n       --domain com.apple.dock \\\n       --key tilesize \\\n       --value 48 \\\n       --value-type int\n\n", paint: Paint::Plain, width: 0 },
        Segment { text: "━━━━━━━━━━━━━━━━━━━━━━━━━━━━━━━━━━━━━━━━━━━━━━━━━━━━━━━━━━━━━━━━━━━━━━━━━━━━━━━━", paint: Paint::BrightBlack, width: 0 },
        Segment { text: "\n", paint: Paint::Plain, width: 0 },
        Segment { text: "ADD ALIAS", paint: Paint::BoldGreen, width: 0 },
        Segment { text: "\n", paint: Paint::Plain, width: 0 },
        Segment { text: "━━━━━━━━━━━━━━━━━━━━━━━━━━━━━━━━━━━━━━━━━━━━━━━━━━━━━━━━━━━━━━━━━━━━━━━━━━━━━━━━", paint: Paint::BrightBlack, width: 0 },
        Segment { text: "\n\n", paint: Paint::Plain, width: 0 },
        Segment { text: "Add a new shell alias to your shellrc.yaml configuration.", paint: Paint::Dimmed, width: 0 },
        Segment { text: "\n\n", paint: Paint::Plain, width: 0 },
        Segment { text: "Usage:", paint: Paint::BoldYellow, width: 0 },
        Segment { text: "\n  ", paint: Paint::Plain, width: 0 },
        Segment { text: "setup-devbox", paint: Paint::Cyan, width: 0 },
        Segment { text: " ", paint: Paint::Plain, width: 0 },
        Segment { text: "add", paint: Paint::Cyan, width: 0 },
        Segment { text: " ", paint: Paint::Plain, width: 0 },
        Segment { text: "alias", paint: Paint::Green, width: 0 },
        Segment { text: " [OPTIONS]\n\n", paint: Paint::Plain, width: 0 },
        Segment { text: "Required Options:", paint: Paint::BoldYellow, width: 0 },
        Segment { text: "\n  ", paint: Paint::Plain, width: 0 },
        Segment { text: "--name <NAME>", paint: Paint::Cyan, width: 0 },
        Segment { text: "  Alias name (the shortcut)\n  ", paint: Paint::Plain, width: 0 },
        Segment { text: "--value <VALUE>", paint: Paint::Cyan, width: 0 },
        Segment { text: "  Alias value (the command it expands to)\n\n", paint: Paint::Plain, width: 0 },
        Segment { text: "Examples:", paint: Paint::BoldMagenta, width: 0 },
        Segment { text: "\n\n  ", paint: Paint::Plain, width: 0 },
        Segment { text: "1.", paint: Paint::Bold, width: 0 },
        Segment { text: " Replace cat with bat:\n     ", paint: Paint::Plain, width: 0 },
        Segment { text: "setup-devbox", paint: Paint::Cyan, width: 0 },
        Segment { text: " add alias --name cat --value \"bat --paging=never\"\n\n  ", paint: Paint::Plain, width: 0 },
        Segment { text: "2.", paint: Paint::Bold, width: 0 },
        Segment { text: " Quick config editing:\n     ", paint: Paint::Plain, width: 0 },
        Segment { text: "setup-devbox", paint: Paint::Cyan, width: 0 },
        Segment { text: " add alias --name config --value \"zed $HOME/.config\"\n\n  ", paint: Paint::Plain, width: 0 },
        Segment { text: "3.", paint: Paint::Bold, width: 0 },
        Segment { text: " Better ls command:\n     ", paint: Paint::Plain, width: 0 },
        Segment { text: "setup-devbox", paint: Paint::Cyan, width: 0 },
        Segment { text: " add alias --name ls --value lsd\n\n  ", paint: Paint::Plain, width: 0 },
        Segment { text: "4.", paint: Paint::Bold, width: 0 },
        Segment { text: " Shortcut for setup-devbox:\n     ", paint: Paint::Plain, width: 0 },
        Segment { text: "setup-devbox", paint: Paint::Cyan, width: 0 },
        Segment { text: " add alias --name sd --value setup-devbox\n\n", paint: Paint::Plain, width: 0 },
        Segment { text: "━━━━━━━━━━━━━━━━━━━━━━━━━━━━━━━━━━━━━━━━━━━━━━━━━━━━━━━━━━━━━━━━━━━━━━━━━━━━━━━━", paint: Paint::BrightBlack, width: 0 },
        Segment { text: "\n", paint: Paint::Plain, width: 0 },
        Segment { text: "IMPORTANT NOTES", paint: Paint::BoldYellow, width: 0 },
        Segment { text: "\n", paint: Paint::Plain, width: 0 },
        Segment { text: "━━━━━━━━━━━━━━━━━━━━━━━━━━━━━━━━━━━━━━━━━━━━━━━━━━━━━━━━━━━━━━━━━━━━━━━━━━━━━━━━", paint: Paint::BrightBlack, width: 0 },
        Segment { text: "\n\n  ", paint: Paint::Plain, width: 0 },
        Segment { text: "•", paint: Paint::Bold, width: 0 },
        Segment { text: " All configuration files must exist before using the add command.\n    Run ", paint: Paint::Plain, width: 0 },
        Segment { text: "setup-devbox generate", paint: Paint::Cyan, width: 0 },
        Segment { text: " first if they don't exist.\n\n  ", paint: Paint::Plain, width: 0 },
        Segment { text: "•", paint: Paint::Bold, width: 0 },
        Segment { text: " The ", paint: Paint::Plain, width: 0 },
        Segment { text: "SDB_CONFIG_PATH", paint: Paint::Cyan, width: 0 },
        Segment { text: " environment variable must be set.\n    It should point to your setup-devbox directory.\n\n  ", paint: Paint::Plain, width: 0 },
        Segment { text: "•", paint: Paint::Bold, width: 0 },
        Segment { text: " After adding an item, ", paint: Paint::Plain, width: 0 },
        Segment { text: "setup-devbox now", paint: Paint::Cyan, width: 0 },
        Segment { text: " runs automatically.\n    This applies your changes immediately.\n\n  ", paint: Paint::Plain, width: 0 },
        Segment { text: "•", paint: Paint::Bold, width: 0 },
        Segment { text: " For GitHub sources, both ", paint: Paint::Plain, width: 0 },
        Segment { text: "--repo", paint: Paint::Cyan, width: 0 },
        Segment { text: " and ", paint: Paint::Plain, width: 0 },
        Segment { text: "--tag", paint: Paint::Cyan, width: 0 },
        Segment { text: " are required.\n\n", paint: Paint::Plain, width: 0 },
        Segment { text: "Configuration File Locations", paint: Paint::BoldYellow, width: 0 },
        Segment { text: "\n", paint: Paint::Plain, width: 0 },
        Segment { text: "━━━━━━━━━━━━━━━━━━━━━━━━━━━━━━━━━━━━━━━━━━━━━━━━━━━━━━━━━━━━━━━━━━━━━━━━━━━━━━━━", paint: Paint::BrightBlack, width: 0 },
        Segment { text: "\n\n  Configuration files are located at:\n    Configs:  ", paint: Paint::Plain, width: 0 },
        Segment { text: "$SDB_CONFIG_PATH/configs/configs.yaml", paint: Paint::Cyan, width: 0 },
        Segment { text: "\n    Tools:    ", paint: Paint::Plain, width: 0 },
        Segment { text: "$SDB_CONFIG_PATH/configs/tools.yaml", paint: Paint::Cyan, width: 0 },
        Segment { text: "\n    Fonts:    ", paint: Paint::Plain, width: 0 },
        Segment { text: "$SDB_CONFIG_PATH/configs/fonts.yaml", paint: Paint::Cyan, width: 0 },
        Segment { text: "\n    Settings: ", paint: Paint::Plain, width: 0 },
        Segment { text: "$SDB_CONFIG_PATH/configs/settings.yaml", paint: Paint::Cyan, width: 0 },
        Segment { text: "\n    Shell:    ", paint: Paint::Plain, width: 0 },
        Segment { text: "$SDB_CONFIG_PATH/configs/shellrc.yaml", paint: Paint::Cyan, width: 0 },
        Segment { text: "\n\n", paint: Paint::Plain, width: 0 },
    ]
}

/// Appends the detailed help of the `add` command.
fn add_add_detailed_info(output: &mut Vec<Segment>)
    ensures
        final(output)@ == old(output)@ + add_add_detailed_info_text(),
{
    let mut part: Vec<Segment> = vec![
        Segment { text: "━━━━━━━━━━━━━━━━━━━━━━━━━━━━━━━━━━━━━━━━━━━━━━━━━━━━━━━━━━━━━━━━━━━━━━━━━━━━━━━━", paint: Paint::BrightBlack, width: 0 },
        Segment { text: "\n", paint: Paint::Plain, width: 0 },
        Segment { text: "ADD TOOL", paint: Paint::BoldGreen, width: 0 },
        Segment { text: "\n", paint: Paint::Plain, width: 0 },
        Segment { text: "━━━━━━━━━━━━━━━━━━━━━━━━━━━━━━━━━━━━━━━━━━━━━━━━━━━━━━━━━━━━━━━━━━━━━━━━━━━━━━━━", paint: Paint::BrightBlack, width: 0 },
        Segment { text: "\n\n", paint: Paint::Plain, width: 0 },
        Segment { text: "Add a new tool to your tools.yaml configuration.", paint: Paint::Dimmed, width: 0 },
        Segment { text: "\n\n", paint: Paint::Plain, width: 0 },
        Segment { text: "Usage:", paint: Paint::BoldYellow, width: 0 },
        Segment { text: "\n  ", paint: Paint::Plain, width: 0 },
        Segment { text: "setup-devbox", paint: Paint::Cyan, width: 0 },
        Segment { text: " ", paint: Paint::Plain, width: 0 },
        Segment { text: "add", paint: Paint::Cyan, width: 0 },
        Segment { text: " ", paint: Paint::Plain, width: 0 },
        Segment { text: "tool", paint: Paint::Green, width: 0 },
        Segment { text: " [OPTIONS]\n\n", paint: Paint::Plain, width: 0 },
        Segment { text: "Required Options:", paint: Paint::BoldYellow, width: 0 },
        Segment { text: "\n  ", paint: Paint::Plain, width: 0 },
        Segment { text: "--name <NAME>", paint: Paint::Cyan, width: 0 },
        Segment { text: "  Tool name\n  ", paint: Paint::Plain, width: 0 },
        Segment { text: "--version <VERSION>", paint: Paint::Cyan, width: 0 },
        Segment { text: "  Version (e.g., '1.0.0' or 'latest')\n  ", paint: Paint::Plain, width: 0 },
        Segment { text: "--source <SOURCE>", paint: Paint::Cyan, width: 0 },
        Segment { text: "  Source type [brew, github, rustup, cargo, pip, go, url, uv]\n\n", paint: Paint::Plain, width: 0 },
        Segment { text: "GitHub Source Options (required for --source github):", paint: Paint::BoldYellow, width: 0 },
        Segment { text: "\n  ", paint: Paint::Plain, width: 0 },
        Segment { text: "--repo <REPO>", paint: Paint::Cyan, width: 0 },
        Segment { text: "  Repository in format 'owner/repo'\n  ", paint: Paint::Plain, width: 0 },
        Segment { text: "--tag <TAG>", paint: Paint::Cyan, width: 0 },
        Segment { text: "  Release tag\n\n", paint: Paint::Plain, width: 0 },
        Segment { text: "Optional Options:", paint: Paint::BoldYellow, width: 0 },
        Segment { text: "\n  ", paint: Paint::Plain, width: 0 },
        Segment { text: "--rename-to <NAME>", paint: Paint::Cyan, width: 0 },
        Segment { text: "  Rename binary to different name\n  ", paint: Paint::Plain, width: 0 },
        Segment { text: "--additional-cmd <CMD>", paint: Paint::Cyan, width: 0 },
        Segment { text: "  Additional command to run (can be used multiple times)\n  ", paint: Paint::Plain, width: 0 },
        Segment { text: "--enable-config-manager", paint: Paint::Cyan, width: 0 },
        Segment { text: "  Enable configuration manager tracking\n  ", paint: Paint::Plain, width: 0 },
        Segment { text: "--config-paths <PATH>", paint: Paint::Cyan, width: 0 },
        Segment { text: "  Config file path to track (can be used multiple times)\n\n", paint: Paint::Plain, width: 0 },
        Segment { text: "Examples:", paint: Paint::BoldMagenta, width: 0 },
        Segment { text: "\n\n  ", paint: Paint::Plain, width: 0 },
        Segment { text: "1.", paint: Paint::Bold, width: 0 },
        Segment { text: " Add a tool from GitHub with additional setup:\n     ", paint: Paint::Plain, width: 0 },
        Segment { text: "setup-devbox", paint: Paint::Cyan, width: 0 },
        Segment { text: " add tool \\\n       --name helix \\\n       --version 25.07.1 \\\n       --source github \\\n       --repo helix-editor/helix \\\n       --tag 25.07.1 \\\n       --rename-to hx \\\n       --additional-cmd \"mkdir -p $HOME/.config/helix\" \\\n       --additional-cmd \"cp -r runtime $HOME/.config/helix\" \\\n       --enable-config-manager \\\n       --config-paths \"$HOME/.config/helix/config.toml\"\n\n  ", paint: Paint::Plain, width: 0 },
        Segment { text: "2.", paint: Paint::Bold, width: 0 },
        Segment { text: " Add a tool from Homebrew:\n     ", paint: Paint::Plain, width: 0 },
        Segment { text: "setup-devbox", paint: Paint::Cyan, width: 0 },
        Segment { text: " add tool --name bat --version latest --source brew\n\n  ", paint: Paint::Plain, width: 0 },
        Segment { text: "3.", paint: Paint::Bold, width: 0 },
        Segment { text: " Add a Rust tool from crates.io:\n     ", paint: Paint::Plain, width: 0 },
        Segment { text: "setup-devbox", paint: Paint::Cyan, width: 0 },
        Segment { text: " add tool --name ripgrep --version 14.1.1 --source cargo\n\n", paint: Paint::Plain, width: 0 },
        Segment { text: "━━━━━━━━━━━━━━━━━━━━━━━━━━━━━━━━━━━━━━━━━━━━━━━━━━━━━━━━━━━━━━━━━━━━━━━━━━━━━━━━", paint: Paint::BrightBlack, width: 0 },
        Segment { text: "\n", paint: Paint::Plain, width: 0 },
        Segment { text: "ADD FONT", paint: Paint::BoldGreen, width: 0 },
        Segment { text: "\n", paint: Paint::Plain, width: 0 },
        Segment { text: "━━━━━━━━━━━━━━━━━━━━━━━━━━━━━━━━━━━━━━━━━━━━━━━━━━━━━━━━━━━━━━━━━━━━━━━━━━━━━━━━", paint: Paint::BrightBlack, width: 0 },
        Segment { text: "\n\n", paint: Paint::Plain, width: 0 },
        Segment { text: "Add a new font to your fonts.yaml configuration.", paint: Paint::Dimmed, width: 0 },
        Segment { text: "\n\n", paint: Paint::Plain, width: 0 },
        Segment { text: "Usage:", paint: Paint::BoldYellow, width: 0 },
        Segment { text: "\n  ", paint: Paint::Plain, width: 0 },
        Segment { text: "setup-devbox", paint: Paint::Cyan, width: 0 },
        Segment { text: " ", paint: Paint::Plain, width: 0 },
        Segment { text: "add", paint: Paint::Cyan, width: 0 },
        Segment { text: " ", paint: Paint::Plain, width: 0 },
        Segment { text: "font", paint: Paint::Green, width: 0 },
        Segment { text: " [OPTIONS]\n\n", paint: Paint::Plain, width: 0 },
        Segment { text: "Required Options:", paint: Paint::BoldYellow, width: 0 },
        Segment { text: "\n  ", paint: Paint::Plain, width: 0 },
        Segment { text: "--name <NAME>", paint: Paint::Cyan, width: 0 },
        Segment { text: "  Font name\n  ", paint: Paint::Plain, width: 0 },
        Segment { text: "--version <VERSION>", paint: Paint::Cyan, width: 0 },
        Segment { text: "  Font version\n  ", paint: Paint::Plain, width: 0 },
        Segment { text: "--repo <REPO>", paint: Paint::Cyan, width: 0 },
        Segment { text: "  Repository in format 'owner/repo'\n  ", paint: Paint::Plain, width: 0 },
        Segment { text: "--tag <TAG>", paint: Paint::Cyan, width: 0 },
        Segment { text: "  Release tag\n\n", paint: Paint::Plain, width: 0 },
        Segment { text: "Optional Options:", paint: Paint::BoldYellow, width: 0 },
        Segment { text: "\n  ", paint: Paint::Plain, width: 0 },
        Segment { text: "--source <SOURCE>", paint: Paint::Cyan, width: 0 },
        Segment { text: "  Source type (default: github)\n  ", paint: Paint::Plain, width: 0 },
        Segment { text: "--install-only <VARIANT>", paint: Paint::Cyan, width: 0 },
        Segment { text: "  Font variants to install (can be used multiple times)\n\n", paint: Paint::Plain, width: 0 },
        Segment { text: "Examples:", paint: Paint::BoldMagenta, width: 0 },
        Segment { text: "\n\n  ", paint: Paint::Plain, width: 0 },
        Segment { text: "1.", paint: Paint::Bold, width: 0 },
        Segment { text: " Add a Nerd Font with specific variants:\n     ", paint: Paint::Plain, width: 0 },
        Segment { text: "setup-devbox", paint: Paint::Cyan, width: 0 },
        Segment { text: " add font \\\n       --name 0xProto \\\n       --version 3.4.0 \\\n       --repo ryanoasis/nerd-fonts \\\n       --tag v3.4.0 \\\n       --install-only regular \\\n       --install-only Mono\n\n  ", paint: Paint::Plain, width: 0 },
        Segment { text: "2.", paint: Paint::Bold, width: 0 },
        Segment { text: " Add JetBrainsMono font:\n     ", paint: Paint::Plain, width: 0 },
        Segment { text: "setup-devbox", paint: Paint::Cyan, width: 0 },
        Segment { text: " add font \\\n       --name JetBrainsMono \\\n       --version 3.4.0 \\\n       --repo ryanoasis/nerd-fonts \\\n       --tag v3.4.0\n\n", paint: Paint::Plain, width: 0 },
        Segment { text: "━━━━━━━━━━━━━━━━━━━━━━━━━━━━━━━━━━━━━━━━━━━━━━━━━━━━━━━━━━━━━━━━━━━━━━━━━━━━━━━━", paint: Paint::BrightBlack, width: 0 },
        Segment { text: "\n", paint: Paint::Plain, width: 0 },
        Segment { text: "ADD SETTING", paint: Paint::BoldGreen, width: 0 },
        Segment { text: "\n", paint: Paint::Plain, width: 0 },
        Segment { text: "━━━━━━━━━━━━━━━━━━━━━━━━━━━━━━━━━━━━━━━━━━━━━━━━━━━━━━━━━━━━━━━━━━━━━━━━━━━━━━━━", paint: Paint::BrightBlack, width: 0 },
        Segment { text: "\n\n", paint: Paint::Plain, width: 0 },
        Segment { text: "Add a new macOS system setting to your settings.yaml configuration.", paint: Paint::Dimmed, width: 0 },
        Segment { text: "\n\n", paint: Paint::Plain, width: 0 },
        Segment { text: "Usage:", paint: Paint::BoldYellow, width: 0 },
        Segment { text: "\n  ", paint: Paint::Plain, width: 0 },
        Segment { text: "setup-devbox", paint: Paint::Cyan, width: 0 },
        Segment { text: " ", paint: Paint::Plain, width: 0 },
        Segment { text: "add", paint: Paint::Cyan, width: 0 },
        Segment { text: " ", paint: Paint::Plain, width: 0 },
        Segment { text: "setting", paint: Paint::Green, width: 0 },
        Segment { text: " [OPTIONS]\n\n", paint: Paint::Plain, width: 0 },
        Segment { text: "Required Options:", paint: Paint::BoldYellow, width: 0 },
        Segment { text: "\n  ", paint: Paint::Plain, width: 0 },
        Segment { text: "--domain <DOMAIN>", paint: Paint::Cyan, width: 0 },
        Segment { text: "  Setting domain (e.g., NSGlobalDomain, com.apple.finder)\n  ", paint: Paint::Plain, width: 0 },
        Segment { text: "--key <KEY>", paint: Paint::Cyan, width: 0 },
        Segment { text: "  Setting key name\n  ", paint: Paint::Plain, width: 0 },
        Segment { text: "--value <VALUE>", paint: Paint::Cyan, width: 0 },
        Segment { text: "  Setting value\n  ", paint: Paint::Plain, width: 0 },
        Segment { text: "--value-type <TYPE>", paint: Paint::Cyan, width: 0 },
        Segment { text: "  Value type [bool, string, int, float]\n\n", paint: Paint::Plain, width: 0 },
        Segment { text: "Examples:", paint: Paint::BoldMagenta, width: 0 },
        Segment { text: "\n\n  ", paint: Paint::Plain, width: 0 },
        Segment { text: "1.", paint: Paint::Bold, width: 0 },
        Segment { text: " Show all file extensions:\n     ", paint: Paint::Plain, width: 0 },
        Segment { text: "setup-devbox", paint: Paint::Cyan, width: 0 },
        Segment { text: " add setting \\\n       --domain NSGlobalDomain \\\n       --key AppleShowAllExtensions \\\n       --value true \\\n       --value-type bool\n\n  ", paint: Paint::Plain, width: 0 },
        Segment { text: "2.", paint: Paint::Bold, width: 0 },
        Segment { text: " Set Finder default view:\n     ", paint: Paint::Plain, width: 0 },
        Segment { text: "setup-devbox", paint: Paint::Cyan, width: 0 },
        Segment { text: " add setting \\\n       --domain com.apple.finder \\\n       --key FXPreferredViewStyle \\\n       --value Nlsv \\\n       --value-type string\n\n  ", paint: Paint::Plain, width: 0 },
        Segment { text: "3.", paint: Paint::Bold, width: 0 },
        Segment { text: " Set dock icon size:\n     ", paint: Paint::Plain, width: 0 },
        Segment { text: "setup-devbox", paint: Paint::Cyan, width: 0 },
        Segment { text: " add setting \\\n       --domain com.apple.dock \\\n       --key tilesize \\\n       --value 48 \\\n       --value-type int\n\n", paint: Paint::Plain, width: 0 },
        Segment { text: "━━━━━━━━━━━━━━━━━━━━━━━━━━━━━━━━━━━━━━━━━━━━━━━━━━━━━━━━━━━━━━━━━━━━━━━━━━━━━━━━", paint: Paint::BrightBlack, width: 0 },
        Segment { text: "\n", paint: Paint::Plain, width: 0 },
        Segment { text: "ADD ALIAS", paint: Paint::BoldGreen, width: 0 },
        Segment { text: "\n", paint: Paint::Plain, width: 0 },
        Segment { text: "━━━━━━━━━━━━━━━━━━━━━━━━━━━━━━━━━━━━━━━━━━━━━━━━━━━━━━━━━━━━━━━━━━━━━━━━━━━━━━━━", paint: Paint::BrightBlack, width: 0 },
        Segment { text: "\n\n", paint: Paint::Plain, width: 0 },
        Segment { text: "Add a new shell alias to your shellrc.yaml configuration.", paint: Paint::Dimmed, width: 0 },
        Segment { text: "\n\n", paint: Paint::Plain, width: 0 },
        Segment { text: "Usage:", paint: Paint::BoldYellow, width: 0 },
        Segment { text: "\n  ", paint: Paint::Plain, width: 0 },
        Segment { text: "setup-devbox", paint: Paint::Cyan, width: 0 },
        Segment { text: " ", paint: Paint::Plain, width: 0 },
        Segment { text: "add", paint: Paint::Cyan, width: 0 },
        Segment { text: " ", paint: Paint::Plain, width: 0 },
        Segment { text: "alias", paint: Paint::Green, width: 0 },
        Segment { text: " [OPTIONS]\n\n", paint: Paint::Plain, width: 0 },
        Segment { text: "Required Options:", paint: Paint::BoldYellow, width: 0 },
        Segment { text: "\n  ", paint: Paint::Plain, width: 0 },
        Segment { text: "--name <NAME>", paint: Paint::Cyan, width: 0 },
        Segment { text: "  Alias name (the shortcut)\n  ", paint: Paint::Plain, width: 0 },
        Segment { text: "--value <VALUE>", paint: Paint::Cyan, width: 0 },
        Segment { text: "  Alias value (the command it expands to)\n\n", paint: Paint::Plain, width: 0 },
        Segment { text: "Examples:", paint: Paint::BoldMagenta, width: 0 },
        Segment { text: "\n\n  ", paint: Paint::Plain, width: 0 },
        Segment { text: "1.", paint: Paint::Bold, width: 0 },
        Segment { text: " Replace cat with bat:\n     ", paint: Paint::Plain, width: 0 },
        Segment { text: "setup-devbox", paint: Paint::Cyan, width: 0 },
        Segment { text: " add alias --name cat --value \"bat --paging=never\"\n\n  ", paint: Paint::Plain, width: 0 },
        Segment { text: "2.", paint: Paint::Bold, width: 0 },
        Segment { text: " Quick config editing:\n     ", paint: Paint::Plain, width: 0 },
        Segment { text: "setup-devbox", paint: Paint::Cyan, width: 0 },
        Segment { text: " add alias --name config --value \"zed $HOME/.config\"\n\n  ", paint: Paint::Plain, width: 0 },
        Segment { text: "3.", paint: Paint::Bold, width: 0 },
        Segment { text: " Better ls command:\n     ", paint: Paint::Plain, width: 0 },
        Segment { text: "setup-devbox", paint: Paint::Cyan, width: 0 },
        Segment { text: " add alias --name ls --value lsd\n\n  ", paint: Paint::Plain, width: 0 },
        Segment { text: "4.", paint: Paint::Bold, width: 0 },
        Segment { text: " Shortcut for setup-devbox:\n     ", paint: Paint::Plain, width: 0 },
        Segment { text: "setup-devbox", paint: Paint::Cyan, width: 0 },
        Segment { text: " add alias --name sd --value setup-devbox\n\n", paint: Paint::Plain, width: 0 },
        Segment { text: "━━━━━━━━━━━━━━━━━━━━━━━━━━━━━━━━━━━━━━━━━━━━━━━━━━━━━━━━━━━━━━━━━━━━━━━━━━━━━━━━", paint: Paint::BrightBlack, width: 0 },
        Segment { text: "\n", paint: Paint::Plain, width: 0 },
        Segment { text: "IMPORTANT NOTES", paint: Paint::BoldYellow, width: 0 },
        Segment { text: "\n", paint: Paint::Plain, width: 0 },
        Segment { text: "━━━━━━━━━━━━━━━━━━━━━━━━━━━━━━━━━━━━━━━━━━━━━━━━━━━━━━━━━━━━━━━━━━━━━━━━━━━━━━━━", paint: Paint::BrightBlack, width: 0 },
        Segment { text: "\n\n  ", paint: Paint::Plain, width: 0 },
        Segment { text: "•", paint: Paint::Bold, width: 0 },
        Segment { text: " All configuration files must exist before using the add command.\n    Run ", paint: Paint::Plain, width: 0 },
        Segment { text: "setup-devbox generate", paint: Paint::Cyan, width: 0 },
        Segment { text: " first if they don't exist.\n\n  ", paint: Paint::Plain, width: 0 },
        Segment { text: "•", paint: Paint::Bold, width: 0 },
        Segment { text: " The ", paint: Paint::Plain, width: 0 },
        Segment { text: "SDB_CONFIG_PATH", paint: Paint::Cyan, width: 0 },
        Segment { text: " environment variable must be set.\n    It should point to your setup-devbox directory.\n\n  ", paint: Paint::Plain, width: 0 },
        Segment { text: "•", paint: Paint::Bold, width: 0 },
        Segment { text: " After adding an item, ", paint: Paint::Plain, width: 0 },
        Segment { text: "setup-devbox now", paint: Paint::Cyan, width: 0 },
        Segment { text: " runs automatically.\n    This applies your changes immediately.\n\n  ", paint: Paint::Plain, width: 0 },
        Segment { text: "•", paint: Paint::Bold, width: 0 },
        Segment { text: " For GitHub sources, both ", paint: Paint::Plain, width: 0 },
        Segment { text: "--repo", paint: Paint::Cyan, width: 0 },
        Segment { text: " and ", paint: Paint::Plain, width: 0 },
        Segment { text: "--tag", paint: Paint::Cyan, width: 0 },
        Segment { text: " are required.\n\n", paint: Paint::Plain, width: 0 },
        Segment { text: "Configuration File Locations", paint: Paint::BoldYellow, width: 0 },
        Segment { text: "\n", paint: Paint::Plain, width: 0 },
        Segment { text: "━━━━━━━━━━━━━━━━━━━━━━━━━━━━━━━━━━━━━━━━━━━━━━━━━━━━━━━━━━━━━━━━━━━━━━━━━━━━━━━━", paint: Paint::BrightBlack, width: 0 },
        Segment { text: "\n\n  Configuration files are located at:\n    Configs:  ", paint: Paint::Plain, width: 0 },
        Segment { text: "$SDB_CONFIG_PATH/configs/configs.yaml", paint: Paint::Cyan, width: 0 },
        Segment { text: "\n    Tools:    ", paint: Paint::Plain, width: 0 },
        Segment { text: "$SDB_CONFIG_PATH/configs/tools.yaml", paint: Paint::Cyan, width: 0 },
        Segment { text: "\n    Fonts:    ", paint: Paint::Plain, width: 0 },
        Segment { text: "$SDB_CONFIG_PATH/configs/fonts.yaml", paint: Paint::Cyan, width: 0 },
        Segment { text: "\n    Settings: ", paint: Paint::Plain, width: 0 },
        Segment { text: "$SDB_CONFIG_PATH/configs/settings.yaml", paint: Paint::Cyan, width: 0 },
        Segment { text: "\n    Shell:    ", paint: Paint::Plain, width: 0 },
        Segment { text: "$SDB_CONFIG_PATH/configs/shellrc.yaml", paint: Paint::Cyan, width: 0 },
        Segment { text: "\n\n", paint: Paint::Plain, width: 0 },
    ];
    output.append(&mut part);
}

/// The segments of the basic help of the `remove` command.
pub open spec fn add_remove_basic_info_text() -> Seq<Segment> {
    seq![
        Segment { text: "Basic Usage:", paint: Paint::BoldYellow, width: 0 },
        Segment { text: "\n\n  ", paint: Paint::Plain, width: 0 },
        Segment { text: "•", paint: Paint::Bold, width: 0 },
        Segment { text: " Remove a tool:\n  ", paint: Paint::Plain, width: 0 },
        Segment { text: "    setup-devbox remove tool <TOOL_NAME>", paint: Paint::ItalicCyan, width: 0 },
        Segment { text: "\n\n  ", paint: Paint::Plain, width: 0 },
        Segment { text: "•", paint: Paint::Bold, width: 0 },
        Segment { text: " Remove a font:\n  ", paint: Paint::Plain, width: 0 },
        Segment { text: "    setup-devbox remove font <FONT_NAME>", paint: Paint::ItalicCyan, width: 0 },
        Segment { text: "\n\n  ", paint: Paint::Plain, width: 0 },
        Segment { text: "•", paint: Paint::Bold, width: 0 },
        Segment { text: " ", paint: Paint::Plain, width: 0 },
        Segment { text: "[WIP]", paint: Paint::Yellow, width: 0 },
        Segment { text: " Remove an alias:\n  ", paint: Paint::Plain, width: 0 },
        Segment { text: "    setup-devbox remove alias <ALIAS_NAME>", paint: Paint::ItalicCyan, width: 0 },
        Segment { text: "\n\n  ", paint: Paint::Plain, width: 0 },
        Segment { text: "•", paint: Paint::Bold, width: 0 },
        Segment { text: " ", paint: Paint::Plain, width: 0 },
        Segment { text: "[WIP]", paint: Paint::Yellow, width: 0 },
        Segment { text: " Remove a setting:\n  ", paint: Paint::Plain, width: 0 },
        Segment { text: "    setup-devbox remove setting <DOMAIN> <KEY>", paint: Paint::ItalicCyan, width: 0 },
        Segment { text: "\n\n", paint: Paint::Plain, width: 0 },
        Segment { text: "Tip:", paint: Paint::Yellow, width: 0 },
        Segment { text: " Use ", paint: Paint::Plain, width: 0 },
        Segment { text: "setup-devbox help remove --detailed", paint: Paint::Cyan, width: 0 },
        Segment { text: " for detailed examples and behavior information.\n\n", paint: Paint::Plain, width: 0 },
    ]
}

/// Appends the basic help of the `remove` command.
fn add_remove_basic_info(output: &mut Vec<Segment>)
    ensures
        final(output)@ == old(output)@ + add_remove_basic_info_text(),
{
    let mut part: Vec<Segment> = vec![
        Segment { text: "Basic Usage:", paint: Paint::BoldYellow, width: 0 },
        Segment { text: "\n\n  ", paint: Paint::Plain, width: 0 },
        Segment { text: "•", paint: Paint::Bold, width: 0 },
        Segment { text: " Remove a tool:\n  ", paint: Paint::Plain, width: 0 },
        Segment { text: "    setup-devbox remove tool <TOOL_NAME>", paint: Paint::ItalicCyan, width: 0 },
        Segment { text: "\n\n  ", paint: Paint::Plain, width: 0 },
        Segment { text: "•", paint: Paint::Bold, width: 0 },
        Segment { text: " Remove a font:\n  ", paint: Paint::Plain, width: 0 },
        Segment { text: "    setup-devbox remove font <FONT_NAME>", paint: Paint::ItalicCyan, width: 0 },
        Segment { text: "\n\n  ", paint: Paint::Plain, width: 0 },
        Segment { text: "•", paint: Paint::Bold, width: 0 },
        Segment { text: " ", paint: Paint::Plain, width: 0 },
        Segment { text: "[WIP]", paint: Paint::Yellow, width: 0 },
        Segment { text: " Remove an alias:\n  ", paint: Paint::Plain, width: 0 },
        Segment { text: "    setup-devbox remove alias <ALIAS_NAME>", paint: Paint::ItalicCyan, width: 0 },
        Segment { text: "\n\n  ", paint: Paint::Plain, width: 0 },
        Segment { text: "•", paint: Paint::Bold, width: 0 },
        Segment { text: " ", paint: Paint::Plain, width: 0 },
        Segment { text: "[WIP]", paint: Paint::Yellow, width: 0 },
        Segment { text: " Remove a setting:\n  ", paint: Paint::Plain, width: 0 },
        Segment { text: "    setup-devbox remove setting <DOMAIN> <KEY>", paint: Paint::ItalicCyan, width: 0 },
        Segment { text: "\n\n", paint: Paint::Plain, width: 0 },
        Segment { text: "Tip:", paint: Paint::Yellow, width: 0 },
        Segment { text: " Use ", paint: Paint::Plain, width: 0 },
        Segment { text: "setup-devbox help remove --detailed", paint: Paint::Cyan, width: 0 },
        Segment { text: " for detailed examples and behavior information.\n\n", paint: Paint::Plain, width: 0 },
    ];
    output.append(&mut part);
}

/// The segments of the detailed help of the `remove` command.
pub open spec fn add_remove_detailed_info_text() -> Seq<Segment> {
    seq![
        Segment { text: "────────────────────────────────────────────────────────────────────────────────", paint: Paint::BrightBlack, width: 0 },
        Segment { text: "\n", paint: Paint::Plain, width: 0 },
        Segment { text: "REMOVE TOOL", paint: Paint::BoldGreen, width: 0 },
        Segment { text: "\n", paint: Paint::Plain, width: 0 },
        Segment { text: "────────────────────────────────────────────────────────────────────────────────", paint: Paint::BrightBlack, width: 0 },
        Segment { text: "\n\n", paint: Paint::Plain, width: 0 },
        Segment { text: "Remove an installed tool from your system.", paint: Paint::Dimmed, width: 0 },
        Segment { text: "\n\n", paint: Paint::Plain, width: 0 },
        Segment { text: "Usage:", paint: Paint::BoldYellow, width: 0 },
        Segment { text: "\n  ", paint: Paint::Plain, width: 0 },
        Segment { text: "setup-devbox", paint: Paint::Cyan, width: 0 },
        Segment { text: " ", paint: Paint::Plain, width: 0 },
        Segment { text: "remove", paint: Paint::Cyan, width: 0 },
        Segment { text: " ", paint: Paint::Plain, width: 0 },
        Segment { text: "tool", paint: Paint::Green, width: 0 },
        Segment { text: " <TOOL_NAME>\n\n", paint: Paint::Plain, width: 0 },
        Segment { text: "Arguments:", paint: Paint::BoldYellow, width: 0 },
        Segment { text: "\n  ", paint: Paint::Plain, width: 0 },
        Segment { text: "<TOOL_NAME>", paint: Paint::Cyan, width: 0 },
        Segment { text: "  Name of the tool to remove (or its alias if it was renamed)\n\n", paint: Paint::Plain, width: 0 },
        Segment { text: "What Gets Removed:", paint: Paint::BoldYellow, width: 0 },
        Segment { text: "\n  ", paint: Paint::Plain, width: 0 },
        Segment { text: "•", paint: Paint::Bold, width: 0 },
        Segment { text: " The tool binary/package is uninstalled using the appropriate method\n  ", paint: Paint::Plain, width: 0 },
        Segment { text: "•", paint: Paint::Bold, width: 0 },
        Segment { text: " Tool entry is removed from ", paint: Paint::Plain, width: 0 },
        Segment { text: "tools.yaml", paint: Paint::Cyan, width: 0 },
        Segment { text: "\n  ", paint: Paint::Plain, width: 0 },
        Segment { text: "•", paint: Paint::Bold, width: 0 },
        Segment { text: " State tracking is updated in ", paint: Paint::Plain, width: 0 },
        Segment { text: "state.json", paint: Paint::Cyan, width: 0 },
        Segment { text: "\n  ", paint: Paint::Plain, width: 0 },
        Segment { text: "•", paint: Paint::Bold, width: 0 },
        Segment { text: " Managed configuration files are cleaned up (if config manager was enabled)\n\n", paint: Paint::Plain, width: 0 },
        Segment { text: "Supported Installers:", paint: Paint::BoldYellow, width: 0 },
        Segment { text: "\n  Tools installed via: cargo, pip, brew, go, rustup, uv, github, or url\n\n", paint: Paint::Plain, width: 0 },
        Segment { text: "Examples:", paint: Paint::BoldMagenta, width: 0 },
        Segment { text: "\n\n  ", paint: Paint::Plain, width: 0 },
        Segment { text: "1.", paint: Paint::Bold, width: 0 },
        Segment { text: " Remove a tool by name:\n     ", paint: Paint::Plain, width: 0 },
        Segment { text: "setup-devbox", paint: Paint::Cyan, width: 0 },
        Segment { text: " remove tool ripgrep\n\n  ", paint: Paint::Plain, width: 0 },
        Segment { text: "2.", paint: Paint::Bold, width: 0 },
        Segment { text: " Remove a renamed tool:\n     ", paint: Paint::Plain, width: 0 },
        Segment { text: "setup-devbox", paint: Paint::Cyan, width: 0 },
        Segment { text: " remove tool hx\n     ", paint: Paint::Plain, width: 0 },
        Segment { text: "Note:", paint: Paint::Dimmed, width: 0 },
        Segment { text: " If helix was renamed to 'hx', this removes it\n\n  ", paint: Paint::Plain, width: 0 },
        Segment { text: "3.", paint: Paint::Bold, width: 0 },
        Segment { text: " Remove a Homebrew package:\n     ", paint: Paint::Plain, width: 0 },
        Segment { text: "setup-devbox", paint: Paint::Cyan, width: 0 },
        Segment { text: " remove tool bat\n\n  ", paint: Paint::Plain, width: 0 },
        Segment { text: "4.", paint: Paint::Bold, width: 0 },
        Segment { text: " Remove a Cargo-installed tool:\n     ", paint: Paint::Plain, width: 0 },
        Segment { text: "setup-devbox", paint: Paint::Cyan, width: 0 },
        Segment { text: " remove tool fd\n\n", paint: Paint::Plain, width: 0 },
        Segment { text: "────────────────────────────────────────────────────────────────────────────────", paint: Paint::BrightBlack, width: 0 },
        Segment { text: "\n", paint: Paint::Plain, width: 0 },
        Segment { text: "REMOVE FONT", paint: Paint::BoldGreen, width: 0 },
        Segment { text: "\n", paint: Paint::Plain, width: 0 },
        Segment { text: "────────────────────────────────────────────────────────────────────────────────", paint: Paint::BrightBlack, width: 0 },
        Segment { text: "\n\n", paint: Paint::Plain, width: 0 },
        Segment { text: "Remove an installed font from your system.", paint: Paint::Dimmed, width: 0 },
        Segment { text: "\n\n", paint: Paint::Plain, width: 0 },
        Segment { text: "Usage:", paint: Paint::BoldYellow, width: 0 },
        Segment { text: "\n  ", paint: Paint::Plain, width: 0 },
        Segment { text: "setup-devbox", paint: Paint::Cyan, width: 0 },
        Segment { text: " ", paint: Paint::Plain, width: 0 },
        Segment { text: "remove", paint: Paint::Cyan, width: 0 },
        Segment { text: " ", paint: Paint::Plain, width: 0 },
        Segment { text: "font", paint: Paint::Green, width: 0 },
        Segment { text: " <FONT_NAME>\n\n", paint: Paint::Plain, width: 0 },
        Segment { text: "Arguments:", paint: Paint::BoldYellow, width: 0 },
        Segment { text: "\n  ", paint: Paint::Plain, width: 0 },
        Segment { text: "<FONT_NAME>", paint: Paint::Cyan, width: 0 },
        Segment { text: "  Name of the font to remove\n\n", paint: Paint::Plain, width: 0 },
        Segment { text: "What Gets Removed:", paint: Paint::BoldYellow, width: 0 },
        Segment { text: "\n  ", paint: Paint::Plain, width: 0 },
        Segment { text: "•", paint: Paint::Bold, width: 0 },
        Segment { text: " All .ttf files containing the font name in the fonts directory\n  ", paint: Paint::Plain, width: 0 },
        Segment { text: "•", paint: Paint::Bold, width: 0 },
        Segment { text: " Font entry is removed from ", paint: Paint::Plain, width: 0 },
        Segment { text: "fonts.yaml", paint: Paint::Cyan, width: 0 },
        Segment { text: "\n  ", paint: Paint::Plain, width: 0 },
        Segment { text: "•", paint: Paint::Bold, width: 0 },
        Segment { text: " State tracking is updated in ", paint: Paint::Plain, width: 0 },
        Segment { text: "state.json", paint: Paint::Cyan, width: 0 },
        Segment { text: "\n\n", paint: Paint::Plain, width: 0 },
        Segment { text: "Examples:", paint: Paint::BoldMagenta, width: 0 },
        Segment { text: "\n\n  ", paint: Paint::Plain, width: 0 },
        Segment { text: "1.", paint: Paint::Bold, width: 0 },
        Segment { text: " Remove JetBrainsMono font:\n     ", paint: Paint::Plain, width: 0 },
        Segment { text: "setup-devbox", paint: Paint::Cyan, width: 0 },
        Segment { text: " remove font JetBrainsMono\n     ", paint: Paint::Plain, width: 0 },
        Segment { text: "Result:", paint: Paint::Dimmed, width: 0 },
        Segment { text: " Removes all files like: JetBrainsMono-Regular.ttf, JetBrainsMono-Bold.ttf, etc.\n\n  ", paint: Paint::Plain, width: 0 },
        Segment { text: "2.", paint: Paint::Bold, width: 0 },
        Segment { text: " Remove 0xProto font:\n     ", paint: Paint::Plain, width: 0 },
        Segment { text: "setup-devbox", paint: Paint::Cyan, width: 0 },
        Segment { text: " remove font 0xProto\n\n", paint: Paint::Plain, width: 0 },
        Segment { text: "────────────────────────────────────────────────────────────────────────────────", paint: Paint::BrightBlack, width: 0 },
        Segment { text: "\n", paint: Paint::Plain, width: 0 },
        Segment { text: "[WIP]", paint: Paint::Yellow, width: 0 },
        Segment { text: " ", paint: Paint::Plain, width: 0 },
        Segment { text: "REMOVE ALIAS", paint: Paint::BoldGreen, width: 0 },
        Segment { text: "\n", paint: Paint::Plain, width: 0 },
        Segment { text: "────────────────────────────────────────────────────────────────────────────────", paint: Paint::BrightBlack, width: 0 },
        Segment { text: "\n\n", paint: Paint::Plain, width: 0 },
        Segment { text: "Remove a shell alias from your shellrc.yaml configuration.", paint: Paint::Dimmed, width: 0 },
        Segment { text: "\n\n", paint: Paint::Plain, width: 0 },
        Segment { text: "Usage:", paint: Paint::BoldYellow, width: 0 },
        Segment { text: "\n  ", paint: Paint::Plain, width: 0 },
        Segment { text: "setup-devbox", paint: Paint::Cyan, width: 0 },
        Segment { text: " ", paint: Paint::Plain, width: 0 },
        Segment { text: "remove", paint: Paint::Cyan, width: 0 },
        Segment { text: " ", paint: Paint::Plain, width: 0 },
        Segment { text: "alias", paint: Paint::Green, width: 0 },
        Segment { text: " <ALIAS_NAME>\n\n", paint: Paint::Plain, width: 0 },
        Segment { text: "Arguments:", paint: Paint::BoldYellow, width: 0 },
        Segment { text: "\n  ", paint: Paint::Plain, width: 0 },
        Segment { text: "<ALIAS_NAME>", paint: Paint::Cyan, width: 0 },
        Segment { text: "  Name of the alias to remove\n\n", paint: Paint::Plain, width: 0 },
        Segment { text: "What Gets Removed:", paint: Paint::BoldYellow, width: 0 },
        Segment { text: "\n  ", paint: Paint::Plain, width: 0 },
        Segment { text: "•", paint: Paint::Bold, width: 0 },
        Segment { text: " Alias definition is removed from ", paint: Paint::Plain, width: 0 },
        Segment { text: "shellrc.yaml", paint: Paint::Cyan, width: 0 },
        Segment { text: "\n  ", paint: Paint::Plain, width: 0 },
        Segment { text: "•", paint: Paint::Bold, width: 0 },
        Segment { text: " Changes take effect after shell restart or config reload\n\n", paint: Paint::Plain, width: 0 },
        Segment { text: "Examples:", paint: Paint::BoldMagenta, width: 0 },
        Segment { text: "\n\n  ", paint: Paint::Plain, width: 0 },
        Segment { text: "1.", paint: Paint::Bold, width: 0 },
        Segment { text: " Remove 'll' alias:\n     ", paint: Paint::Plain, width: 0 },
        Segment { text: "setup-devbox", paint: Paint::Cyan, width: 0 },
        Segment { text: " remove alias ll\n\n  ", paint: Paint::Plain, width: 0 },
        Segment { text: "2.", paint: Paint::Bold, width: 0 },
        Segment { text: " Remove custom 'cat' alias:\n     ", paint: Paint::Plain, width: 0 },
        Segment { text: "setup-devbox", paint: Paint::Cyan, width: 0 },
        Segment { text: " remove alias cat\n\n  ", paint: Paint::Plain, width: 0 },
        Segment { text: "3.", paint: Paint::Bold, width: 0 },
        Segment { text: " Remove 'sd' shortcut alias:\n     ", paint: Paint::Plain, width: 0 },
        Segment { text: "setup-devbox", paint: Paint::Cyan, width: 0 },
        Segment { text: " remove alias sd\n\n", paint: Paint::Plain, width: 0 },
        Segment { text: "────────────────────────────────────────────────────────────────────────────────", paint: Paint::BrightBlack, width: 0 },
        Segment { text: "\n", paint: Paint::Plain, width: 0 },
        Segment { text: "[WIP]", paint: Paint::Yellow, width: 0 },
        Segment { text: " ", paint: Paint::Plain, width: 0 },
        Segment { text: "REMOVE SETTING", paint: Paint::BoldGreen, width: 0 },
        Segment { text: "\n", paint: Paint::Plain, width: 0 },
        Segment { text: "────────────────────────────────────────────────────────────────────────────────", paint: Paint::BrightBlack, width: 0 },
        Segment { text: "\n\n", paint: Paint::Plain, width: 0 },
        Segment { text: "Remove a macOS system setting from your settings.yaml configuration.", paint: Paint::Dimmed, width: 0 },
        Segment { text: "\n\n", paint: Paint::Plain, width: 0 },
        Segment { text: "Usage:", paint: Paint::BoldYellow, width: 0 },
        Segment { text: "\n  ", paint: Paint::Plain, width: 0 },
        Segment { text: "setup-devbox", paint: Paint::Cyan, width: 0 },
        Segment { text: " ", paint: Paint::Plain, width: 0 },
        Segment { text: "remove", paint: Paint::Cyan, width: 0 },
        Segment { text: " ", paint: Paint::Plain, width: 0 },
        Segment { text: "setting", paint: Paint::Green, width: 0 },
        Segment { text: " <DOMAIN> <KEY>\n\n", paint: Paint::Plain, width: 0 },
        Segment { text: "Arguments:", paint: Paint::BoldYellow, width: 0 },
        Segment { text: "\n  ", paint: Paint::Plain, width: 0 },
        Segment { text: "<DOMAIN>", paint: Paint::Cyan, width: 0 },
        Segment { text: "  Setting domain (e.g., NSGlobalDomain, com.apple.finder)\n  ", paint: Paint::Plain, width: 0 },
        Segment { text: "<KEY>", paint: Paint::Cyan, width: 0 },
        Segment { text: "  Setting key name\n\n", paint: Paint::Plain, width: 0 },
        Segment { text: "What Gets Removed:", paint: Paint::BoldYellow, width: 0 },
        Segment { text: "\n  ", paint: Paint::Plain, width: 0 },
        Segment { text: "•", paint: Paint::Bold, width: 0 },
        Segment { text: " Setting definition is removed from ", paint: Paint::Plain, width: 0 },
        Segment { text: "settings.yaml", paint: Paint::Cyan, width: 0 },
        Segment { text: "\n  ", paint: Paint::Plain, width: 0 },
        Segment { text: "•", paint: Paint::Bold, width: 0 },
        Segment { text: " The actual macOS preference is NOT reverted automatically\n  ", paint: Paint::Plain, width: 0 },
        Segment { text: "•", paint: Paint::Bold, width: 0 },
        Segment { text: " You'll need to manually change it back in System Preferences if desired\n\n", paint: Paint::Plain, width: 0 },
        Segment { text: "Examples:", paint: Paint::BoldMagenta, width: 0 },
        Segment { text: "\n\n  ", paint: Paint::Plain, width: 0 },
        Segment { text: "1.", paint: Paint::Bold, width: 0 },
        Segment { text: " Remove dock autohide setting:\n     ", paint: Paint::Plain, width: 0 },
        Segment { text: "setup-devbox", paint: Paint::Cyan, width: 0 },
        Segment { text: " remove setting com.apple.dock autohide\n\n  ", paint: Paint::Plain, width: 0 },
        Segment { text: "2.", paint: Paint::Bold, width: 0 },
        Segment { text: " Remove file extension visibility:\n     ", paint: Paint::Plain, width: 0 },
        Segment { text: "setup-devbox", paint: Paint::Cyan, width: 0 },
        Segment { text: " remove setting NSGlobalDomain AppleShowAllExtensions\n\n  ", paint: Paint::Plain, width: 0 },
        Segment { text: "3.", paint: Paint::Bold, width: 0 },
        Segment { text: " Remove Finder view style:\n     ", paint: Paint::Plain, width: 0 },
        Segment { text: "setup-devbox", paint: Paint::Cyan, width: 0 },
        Segment { text: " remove setting com.apple.finder FXPreferredViewStyle\n\n", paint: Paint::Plain, width: 0 },
        Segment { text: "────────────────────────────────────────────────────────────────────────────────", paint: Paint::BrightBlack, width: 0 },
        Segment { text: "\n", paint: Paint::Plain, width: 0 },
        Segment { text: "IMPORTANT NOTES", paint: Paint::BoldYellow, width: 0 },
        Segment { text: "\n", paint: Paint::Plain, width: 0 },
        Segment { text: "────────────────────────────────────────────────────────────────────────────────", paint: Paint::BrightBlack, width: 0 },
        Segment { text: "\n\n  ", paint: Paint::Plain, width: 0 },
        Segment { text: "•", paint: Paint::Bold, width: 0 },
        Segment { text: " The remove command updates configuration files and state tracking.\n    This keeps your setup-devbox configuration in sync with your system.\n\n  ", paint: Paint::Plain, width: 0 },
        Segment { text: "•", paint: Paint::Bold, width: 0 },
        Segment { text: " For tools, the uninstallation method matches the installation method.\n    (brew uninstall, cargo uninstall, pip uninstall, etc.)\n\n  ", paint: Paint::Plain, width: 0 },
        Segment { text: "•", paint: Paint::Bold, width: 0 },
        Segment { text: " Tools can be referenced by original name or renamed alias.\n    Both ", paint: Paint::Plain, width: 0 },
        Segment { text: "remove tool helix", paint: Paint::Cyan, width: 0 },
        Segment { text: " and ", paint: Paint::Plain, width: 0 },
        Segment { text: "remove tool hx", paint: Paint::Cyan, width: 0 },
        Segment { text: " work if helix was renamed to hx.\n\n  ", paint: Paint::Plain, width: 0 },
        Segment { text: "•", paint: Paint::Bold, width: 0 },
        Segment { text: " Font removal deletes ALL variants (regular, bold, italic, etc.).\n\n  ", paint: Paint::Plain, width: 0 },
        Segment { text: "•", paint: Paint::Bold, width: 0 },
        Segment { text: " Removing settings only updates the config file.\n    It does NOT revert the actual macOS system preference.\n\n  ", paint: Paint::Plain, width: 0 },
        Segment { text: "•", paint: Paint::Bold, width: 0 },
        Segment { text: " Removing aliases only updates the config file.\n    Restart your shell or reload config for changes to take effect.\n\n  ", paint: Paint::Plain, width: 0 },
        Segment { text: "•", paint: Paint::Bold, width: 0 },
        Segment { text: " If an item is not found, you'll see a warning instead of an error.\n\n", paint: Paint::Plain, width: 0 },
        Segment { text: "Removal Summary", paint: Paint::BoldYellow, width: 0 },
        Segment { text: "\n", paint: Paint::Plain, width: 0 },
        Segment { text: "────────────────────────────────────────────────────────────────────────────────", paint: Paint::BrightBlack, width: 0 },
        Segment { text: "\n\n  After removal, you'll see a summary showing:\n    ", paint: Paint::Plain, width: 0 },
        Segment { text: "✓", paint: Paint::Green, width: 0 },
        Segment { text: " Items successfully removed\n    ", paint: Paint::Plain, width: 0 },
        Segment { text: "⚠", paint: Paint::Yellow, width: 0 },
        Segment { text: " Items not found in configuration\n    ", paint: Paint::Plain, width: 0 },
        Segment { text: "✗", paint: Paint::Red, width: 0 },
        Segment { text: " Items that failed to remove with reasons\n\n", paint: Paint::Plain, width: 0 },
    ]
}

/// Appends the detailed help of the `remove` command.
fn add_remove_detailed_info(output: &mut Vec<Segment>)
    ensures
        final(output)@ == old(output)@ + add_remove_detailed_info_text(),
{
    let mut part: Vec<Segment> = vec![
        Segment { text: "────────────────────────────────────────────────────────────────────────────────", paint: Paint::BrightBlack, width: 0 },
        Segment { text: "\n", paint: Paint::Plain, width: 0 },
        Segment { text: "REMOVE TOOL", paint: Paint::BoldGreen, width: 0 },
        Segment { text: "\n", paint: Paint::Plain, width: 0 },
        Segment { text: "────────────────────────────────────────────────────────────────────────────────", paint: Paint::BrightBlack, width: 0 },
        Segment { text: "\n\n", paint: Paint::Plain, width: 0 },
        Segment { text: "Remove an installed tool from your system.", paint: Paint::Dimmed, width: 0 },
        Segment { text: "\n\n", paint: Paint::Plain, width: 0 },
        Segment { text: "Usage:", paint: Paint::BoldYellow, width: 0 },
        Segment { text: "\n  ", paint: Paint::Plain, width: 0 },
        Segment { text: "setup-devbox", paint: Paint::Cyan, width: 0 },
        Segment { text: " ", paint: Paint::Plain, width: 0 },
        Segment { text: "remove", paint: Paint::Cyan, width: 0 },
        Segment { text: " ", paint: Paint::Plain, width: 0 },
        Segment { text: "tool", paint: Paint::Green, width: 0 },
        Segment { text: " <TOOL_NAME>\n\n", paint: Paint::Plain, width: 0 },
        Segment { text: "Arguments:", paint: Paint::BoldYellow, width: 0 },
        Segment { text: "\n  ", paint: Paint::Plain, width: 0 },
        Segment { text: "<TOOL_NAME>", paint: Paint::Cyan, width: 0 },
        Segment { text: "  Name of the tool to remove (or its alias if it was renamed)\n\n", paint: Paint::Plain, width: 0 },
        Segment { text: "What Gets Removed:", paint: Paint::BoldYellow, width: 0 },
        Segment { text: "\n  ", paint: Paint::Plain, width: 0 },
        Segment { text: "•", paint: Paint::Bold, width: 0 },
        Segment { text: " The tool binary/package is uninstalled using the appropriate method\n  ", paint: Paint::Plain, width: 0 },
        Segment { text: "•", paint: Paint::Bold, width: 0 },
        Segment { text: " Tool entry is removed from ", paint: Paint::Plain, width: 0 },
        Segment { text: "tools.yaml", paint: Paint::Cyan, width: 0 },
        Segment { text: "\n  ", paint: Paint::Plain, width: 0 },
        Segment { text: "•", paint: Paint::Bold, width: 0 },
        Segment { text: " State tracking is updated in ", paint: Paint::Plain, width: 0 },
        Segment { text: "state.json", paint: Paint::Cyan, width: 0 },
        Segment { text: "\n  ", paint: Paint::Plain, width: 0 },
        Segment { text: "•", paint: Paint::Bold, width: 0 },
        Segment { text: " Managed configuration files are cleaned up (if config manager was enabled)\n\n", paint: Paint::Plain, width: 0 },
        Segment { text: "Supported Installers:", paint: Paint::BoldYellow, width: 0 },
        Segment { text: "\n  Tools installed via: cargo, pip, brew, go, rustup, uv, github, or url\n\n", paint: Paint::Plain, width: 0 },
        Segment { text: "Examples:", paint: Paint::BoldMagenta, width: 0 },
        Segment { text: "\n\n  ", paint: Paint::Plain, width: 0 },
        Segment { text: "1.", paint: Paint::Bold, width: 0 },
        Segment { text: " Remove a tool by name:\n     ", paint: Paint::Plain, width: 0 },
        Segment { text: "setup-devbox", paint: Paint::Cyan, width: 0 },
        Segment { text: " remove tool ripgrep\n\n  ", paint: Paint::Plain, width: 0 },
        Segment { text: "2.", paint: Paint::Bold, width: 0 },
        Segment { text: " Remove a renamed tool:\n     ", paint: Paint::Plain, width: 0 },
        Segment { text: "setup-devbox", paint: Paint::Cyan, width: 0 },
        Segment { text: " remove tool hx\n     ", paint: Paint::Plain, width: 0 },
        Segment { text: "Note:", paint: Paint::Dimmed, width: 0 },
        Segment { text: " If helix was renamed to 'hx', this removes it\n\n  ", paint: Paint::Plain, width: 0 },
        Segment { text: "3.", paint: Paint::Bold, width: 0 },
        Segment { text: " Remove a Homebrew package:\n     ", paint: Paint::Plain, width: 0 },
        Segment { text: "setup-devbox", paint: Paint::Cyan, width: 0 },
        Segment { text: " remove tool bat\n\n  ", paint: Paint::Plain, width: 0 },
        Segment { text: "4.", paint: Paint::Bold, width: 0 },
        Segment { text: " Remove a Cargo-installed tool:\n     ", paint: Paint::Plain, width: 0 },
        Segment { text: "setup-devbox", paint: Paint::Cyan, width: 0 },
        Segment { text: " remove tool fd\n\n", paint: Paint::Plain, width: 0 },
        Segment { text: "────────────────────────────────────────────────────────────────────────────────", paint: Paint::BrightBlack, width: 0 },
        Segment { text: "\n", paint: Paint::Plain, width: 0 },
        Segment { text: "REMOVE FONT", paint: Paint::BoldGreen, width: 0 },
        Segment { text: "\n", paint: Paint::Plain, width: 0 },
        Segment { text: "────────────────────────────────────────────────────────────────────────────────", paint: Paint::BrightBlack, width: 0 },
        Segment { text: "\n\n", paint: Paint::Plain, width: 0 },
        Segment { text: "Remove an installed font from your system.", paint: Paint::Dimmed, width: 0 },
        Segment { text: "\n\n", paint: Paint::Plain, width: 0 },
        Segment { text: "Usage:", paint: Paint::BoldYellow, width: 0 },
        Segment { text: "\n  ", paint: Paint::Plain, width: 0 },
        Segment { text: "setup-devbox", paint: Paint::Cyan, width: 0 },
        Segment { text: " ", paint: Paint::Plain, width: 0 },
        Segment { text: "remove", paint: Paint::Cyan, width: 0 },
        Segment { text: " ", paint: Paint::Plain, width: 0 },
        Segment { text: "font", paint: Paint::Green, width: 0 },
        Segment { text: " <FONT_NAME>\n\n", paint: Paint::Plain, width: 0 },
        Segment { text: "Arguments:", paint: Paint::BoldYellow, width: 0 },
        Segment { text: "\n  ", paint: Paint::Plain, width: 0 },
        Segment { text: "<FONT_NAME>", paint: Paint::Cyan, width: 0 },
        Segment { text: "  Name of the font to remove\n\n", paint: Paint::Plain, width: 0 },
        Segment { text: "What Gets Removed:", paint: Paint::BoldYellow, width: 0 },
        Segment { text: "\n  ", paint: Paint::Plain, width: 0 },
        Segment { text: "•", paint: Paint::Bold, width: 0 },
        Segment { text: " All .ttf files containing the font name in the fonts directory\n  ", paint: Paint::Plain, width: 0 },
        Segment { text: "•", paint: Paint::Bold, width: 0 },
        Segment { text: " Font entry is removed from ", paint: Paint::Plain, width: 0 },
        Segment { text: "fonts.yaml", paint: Paint::Cyan, width: 0 },
        Segment { text: "\n  ", paint: Paint::Plain, width: 0 },
        Segment { text: "•", paint: Paint::Bold, width: 0 },
        Segment { text: " State tracking is updated in ", paint: Paint::Plain, width: 0 },
        Segment { text: "state.json", paint: Paint::Cyan, width: 0 },
        Segment { text: "\n\n", paint: Paint::Plain, width: 0 },
        Segment { text: "Examples:", paint: Paint::BoldMagenta, width: 0 },
        Segment { text: "\n\n  ", paint: Paint::Plain, width: 0 },
        Segment { text: "1.", paint: Paint::Bold, width: 0 },
        Segment { text: " Remove JetBrainsMono font:\n     ", paint: Paint::Plain, width: 0 },
        Segment { text: "setup-devbox", paint: Paint::Cyan, width: 0 },
        Segment { text: " remove font JetBrainsMono\n     ", paint: Paint::Plain, width: 0 },
        Segment { text: "Result:", paint: Paint::Dimmed, width: 0 },
        Segment { text: " Removes all files like: JetBrainsMono-Regular.ttf, JetBrainsMono-Bold.ttf, etc.\n\n  ", paint: Paint::Plain, width: 0 },
        Segment { text: "2.", paint: Paint::Bold, width: 0 },
        Segment { text: " Remove 0xProto font:\n     ", paint: Paint::Plain, width: 0 },
        Segment { text: "setup-devbox", paint: Paint::Cyan, width: 0 },
        Segment { text: " remove font 0xProto\n\n", paint: Paint::Plain, width: 0 },
        Segment { text: "────────────────────────────────────────────────────────────────────────────────", paint: Paint::BrightBlack, width: 0 },
        Segment { text: "\n", paint: Paint::Plain, width: 0 },
        Segment { text: "[WIP]", paint: Paint::Yellow, width: 0 },
        Segment { text: " ", paint: Paint::Plain, width: 0 },
        Segment { text: "REMOVE ALIAS", paint: Paint::BoldGreen, width: 0 },
        Segment { text: "\n", paint: Paint::Plain, width: 0 },
        Segment { text: "────────────────────────────────────────────────────────────────────────────────", paint: Paint::BrightBlack, width: 0 },
        Segment { text: "\n\n", paint: Paint::Plain, width: 0 },
        Segment { text: "Remove a shell alias from your shellrc.yaml configuration.", paint: Paint::Dimmed, width: 0 },
        Segment { text: "\n\n", paint: Paint::Plain, width: 0 },
        Segment { text: "Usage:", paint: Paint::BoldYellow, width: 0 },
        Segment { text: "\n  ", paint: Paint::Plain, width: 0 },
        Segment { text: "setup-devbox", paint: Paint::Cyan, width: 0 },
        Segment { text: " ", paint: Paint::Plain, width: 0 },
        Segment { text: "remove", paint: Paint::Cyan, width: 0 },
        Segment { text: " ", paint: Paint::Plain, width: 0 },
        Segment { text: "alias", paint: Paint::Green, width: 0 },
        Segment { text: " <ALIAS_NAME>\n\n", paint: Paint::Plain, width: 0 },
        Segment { text: "Arguments:", paint: Paint::BoldYellow, width: 0 },
        Segment { text: "\n  ", paint: Paint::Plain, width: 0 },
        Segment { text: "<ALIAS_NAME>", paint: Paint::Cyan, width: 0 },
        Segment { text: "  Name of the alias to remove\n\n", paint: Paint::Plain, width: 0 },
        Segment { text: "What Gets Removed:", paint: Paint::BoldYellow, width: 0 },
        Segment { text: "\n  ", paint: Paint::Plain, width: 0 },
        Segment { text: "•", paint: Paint::Bold, width: 0 },
        Segment { text: " Alias definition is removed from ", paint: Paint::Plain, width: 0 },
        Segment { text: "shellrc.yaml", paint: Paint::Cyan, width: 0 },
        Segment { text: "\n  ", paint: Paint::Plain, width: 0 },
        Segment { text: "•", paint: Paint::Bold, width: 0 },
        Segment { text: " Changes take effect after shell restart or config reload\n\n", paint: Paint::Plain, width: 0 },
        Segment { text: "Examples:", paint: Paint::BoldMagenta, width: 0 },
        Segment { text: "\n\n  ", paint: Paint::Plain, width: 0 },
        Segment { text: "1.", paint: Paint::Bold, width: 0 },
        Segment { text: " Remove 'll' alias:\n     ", paint: Paint::Plain, width: 0 },
        Segment { text: "setup-devbox", paint: Paint::Cyan, width: 0 },
        Segment { text: " remove alias ll\n\n  ", paint: Paint::Plain, width: 0 },
        Segment { text: "2.", paint: Paint::Bold, width: 0 },
        Segment { text: " Remove custom 'cat' alias:\n     ", paint: Paint::Plain, width: 0 },
        Segment { text: "setup-devbox", paint: Paint::Cyan, width: 0 },
        Segment { text: " remove alias cat\n\n  ", paint: Paint::Plain, width: 0 },
        Segment { text: "3.", paint: Paint::Bold, width: 0 },
        Segment { text: " Remove 'sd' shortcut alias:\n     ", paint: Paint::Plain, width: 0 },
        Segment { text: "setup-devbox", paint: Paint::Cyan, width: 0 },
        Segment { text: " remove alias sd\n\n", paint: Paint::Plain, width: 0 },
        Segment { text: "────────────────────────────────────────────────────────────────────────────────", paint: Paint::BrightBlack, width: 0 },
        Segment { text: "\n", paint: Paint::Plain, width: 0 },
        Segment { text: "[WIP]", paint: Paint::Yellow, width: 0 },
        Segment { text: " ", paint: Paint::Plain, width: 0 },
        Segment { text: "REMOVE SETTING", paint: Paint::BoldGreen, width: 0 },
        Segment { text: "\n", paint: Paint::Plain, width: 0 },
        Segment { text: "────────────────────────────────────────────────────────────────────────────────", paint: Paint::BrightBlack, width: 0 },
        Segment { text: "\n\n", paint: Paint::Plain, width: 0 },
        Segment { text: "Remove a macOS system setting from your settings.yaml configuration.", paint: Paint::Dimmed, width: 0 },
        Segment { text: "\n\n", paint: Paint::Plain, width: 0 },
        Segment { text: "Usage:", paint: Paint::BoldYellow, width: 0 },
        Segment { text: "\n  ", paint: Paint::Plain, width: 0 },
        Segment { text: "setup-devbox", paint: Paint::Cyan, width: 0 },
        Segment { text: " ", paint: Paint::Plain, width: 0 },
        Segment { text: "remove", paint: Paint::Cyan, width: 0 },
        Segment { text: " ", paint: Paint::Plain, width: 0 },
        Segment { text: "setting", paint: Paint::Green, width: 0 },
        Segment { text: " <DOMAIN> <KEY>\n\n", paint: Paint::Plain, width: 0 },
        Segment { text: "Arguments:", paint: Paint::BoldYellow, width: 0 },
        Segment { text: "\n  ", paint: Paint::Plain, width: 0 },
        Segment { text: "<DOMAIN>", paint: Paint::Cyan, width: 0 },
        Segment { text: "  Setting domain (e.g., NSGlobalDomain, com.apple.finder)\n  ", paint: Paint::Plain, width: 0 },
        Segment { text: "<KEY>", paint: Paint::Cyan, width: 0 },
        Segment { text: "  Setting key name\n\n", paint: Paint::Plain, width: 0 },
        Segment { text: "What Gets Removed:", paint: Paint::BoldYellow, width: 0 },
        Segment { text: "\n  ", paint: Paint::Plain, width: 0 },
        Segment { text: "•", paint: Paint::Bold, width: 0 },
        Segment { text: " Setting definition is removed from ", paint: Paint::Plain, width: 0 },
        Segment { text: "settings.yaml", paint: Paint::Cyan, width: 0 },
        Segment { text: "\n  ", paint: Paint::Plain, width: 0 },
        Segment { text: "•", paint: Paint::Bold, width: 0 },
        Segment { text: " The actual macOS preference is NOT reverted automatically\n  ", paint: Paint::Plain, width: 0 },
        Segment { text: "•", paint: Paint::Bold, width: 0 },
        Segment { text: " You'll need to manually change it back in System Preferences if desired\n\n", paint: Paint::Plain, width: 0 },
        Segment { text: "Examples:", paint: Paint::BoldMagenta, width: 0 },
        Segment { text: "\n\n  ", paint: Paint::Plain, width: 0 },
        Segment { text: "1.", paint: Paint::Bold, width: 0 },
        Segment { text: " Remove dock autohide setting:\n     ", paint: Paint::Plain, width: 0 },
        Segment { text: "setup-devbox", paint: Paint::Cyan, width: 0 },
        Segment { text: " remove setting com.apple.dock autohide\n\n  ", paint: Paint::Plain, width: 0 },
        Segment { text: "2.", paint: Paint::Bold, width: 0 },
        Segment { text: " Remove file extension visibility:\n     ", paint: Paint::Plain, width: 0 },
        Segment { text: "setup-devbox", paint: Paint::Cyan, width: 0 },
        Segment { text: " remove setting NSGlobalDomain AppleShowAllExtensions\n\n  ", paint: Paint::Plain, width: 0 },
        Segment { text: "3.", paint: Paint::Bold, width: 0 },
        Segment { text: " Remove Finder view style:\n     ", paint: Paint::Plain, width: 0 },
        Segment { text: "setup-devbox", paint: Paint::Cyan, width: 0 },
        Segment { text: " remove setting com.apple.finder FXPreferredViewStyle\n\n", paint: Paint::Plain, width: 0 },
        Segment { text: "────────────────────────────────────────────────────────────────────────────────", paint: Paint::BrightBlack, width: 0 },
        Segment { text: "\n", paint: Paint::Plain, width: 0 },
        Segment { text: "IMPORTANT NOTES", paint: Paint::BoldYellow, width: 0 },
        Segment { text: "\n", paint: Paint::Plain, width: 0 },
        Segment { text: "────────────────────────────────────────────────────────────────────────────────", paint: Paint::BrightBlack, width: 0 },
        Segment { text: "\n\n  ", paint: Paint::Plain, width: 0 },
        Segment { text: "•", paint: Paint::Bold, width: 0 },
        Segment { text: " The remove command updates configuration files and state tracking.\n    This keeps your setup-devbox configuration in sync with your system.\n\n  ", paint: Paint::Plain, width: 0 },
        Segment { text: "•", paint: Paint::Bold, width: 0 },
        Segment { text: " For tools, the uninstallation method matches the installation method.\n    (brew uninstall, cargo uninstall, pip uninstall, etc.)\n\n  ", paint: Paint::Plain, width: 0 },
        Segment { text: "•", paint: Paint::Bold, width: 0 },
        Segment { text: " Tools can be referenced by original name or renamed alias.\n    Both ", paint: Paint::Plain, width: 0 },
        Segment { text: "remove tool helix", paint: Paint::Cyan, width: 0 },
        Segment { text: " and ", paint: Paint::Plain, width: 0 },
        Segment { text: "remove tool hx", paint: Paint::Cyan, width: 0 },
        Segment { text: " work if helix was renamed to hx.\n\n  ", paint: Paint::Plain, width: 0 },
        Segment { text: "•", paint: Paint::Bold, width: 0 },
        Segment { text: " Font removal deletes ALL variants (regular, bold, italic, etc.).\n\n  ", paint: Paint::Plain, width: 0 },
        Segment { text: "•", paint: Paint::Bold, width: 0 },
        Segment { text: " Removing settings only updates the config file.\n    It does NOT revert the actual macOS system preference.\n\n  ", paint: Paint::Plain, width: 0 },
        Segment { text: "•", paint: Paint::Bold, width: 0 },
        Segment { text: " Removing aliases only updates the config file.\n    Restart your shell or reload config for changes to take effect.\n\n  ", paint: Paint::Plain, width: 0 },
        Segment { text: "•", paint: Paint::Bold, width: 0 },
        Segment { text: " If an item is not found, you'll see a warning instead of an error.\n\n", paint: Paint::Plain, width: 0 },
        Segment { text: "Removal Summary", paint: Paint::BoldYellow, width: 0 },
        Segment { text: "\n", paint: Paint::Plain, width: 0 },
        Segment { text: "────────────────────────────────────────────────────────────────────────────────", paint: Paint::BrightBlack, width: 0 },
        Segment { text: "\n\n  After removal, you'll see a summary showing:\n    ", paint: Paint::Plain, width: 0 },
        Segment { text: "✓", paint: Paint::Green, width: 0 },
        Segment { text: " Items successfully removed\n    ", paint: Paint::Plain, width: 0 },
        Segment { text: "⚠", paint: Paint::Yellow, width: 0 },
        Segment { text: " Items not found in configuration\n    ", paint: Paint::Plain, width: 0 },
        Segment { text: "✗", paint: Paint::Red, width: 0 },
        Segment { text: " Items that failed to remove with reasons\n\n", paint: Paint::Plain, width: 0 },
    ];
    output.append(&mut part);
}

/// The segments of the help of the `check-updates` command.
pub open spec fn show_check_updates_help_text(detailed: bool) -> Seq<Segment> {
    seq![
        Segment { text: "\n", paint: Paint::Plain, width: 0 },
        Segment { text: "setup-devbox check-updates", paint: Paint::BoldBlue, width: 0 },
        Segment { text: "\n", paint: Paint::Plain, width: 0 },
        Segment { text: "---------------------------", paint: Paint::BoldBlue, width: 0 },
        Segment { text: "\nChecks for updates for all tools defined in tools.yaml.\n\n", paint: Paint::Plain, width: 0 },
        Segment { text: "Usage:", paint: Paint::BoldYellow, width: 0 },
        Segment { text: "\n  setup-devbox check-updates\n\n", paint: Paint::Plain, width: 0 },
    ] + (if detailed {
        seq![
            Segment { text: "Detailed Description:", paint: Paint::BoldYellow, width: 0 },
            Segment { text: "\n  The 'check-updates' command reads your 'tools.yaml' configuration file and checks\n  for new versions of the tools you have specified. The results are presented in two tables:\n\n  ", paint: Paint::Plain, width: 0 },
            Segment { text: "Updates Available", paint: Paint::BoldGreen, width: 0 },
            Segment { text: ":\n    This table lists tools for which a newer version has been detected. It shows the\n    tool name, your configured version, and the latest available version (highlighted in green).\n\n  ", paint: Paint::Plain, width: 0 },
            Segment { text: "Manual Check Required", paint: Paint::BoldYellow, width: 0 },
            Segment { text: ":\n    This table lists tools that require manual attention. This includes tools whose\n    version is specified as 'latest' or 'N/A', tools for which the installer does not\n    support automatic version checks (e.g., 'uv tool' mode), or tools that encountered\n    an error during the version detection process. Up-to-date tools are not listed to reduce clutter.\n\n", paint: Paint::Plain, width: 0 },
        ]
    } else {
        Seq::empty()
    }) + seq![
        Segment { text: "Examples:", paint: Paint::BoldYellow, width: 0 },
        Segment { text: "\n  setup-devbox check-updates       # Check for updates for all tools\n", paint: Paint::Plain, width: 0 },
    ]
}

/// The help of the `check-updates` command (the detailed form on request).
pub fn show_check_updates_help(detailed: bool) -> (r: Vec<Segment>)
    ensures
        r@ == show_check_updates_help_text(detailed),
{
    let mut output: Vec<Segment> = Vec::new();
    let mut part: Vec<Segment> = vec![
        Segment { text: "\n", paint: Paint::Plain, width: 0 },
        Segment { text: "setup-devbox check-updates", paint: Paint::BoldBlue, width: 0 },
        Segment { text: "\n", paint: Paint::Plain, width: 0 },
        Segment { text: "---------------------------", paint: Paint::BoldBlue, width: 0 },
        Segment { text: "\nChecks for updates for all tools defined in tools.yaml.\n\n", paint: Paint::Plain, width: 0 },
        Segment { text: "Usage:", paint: Paint::BoldYellow, width: 0 },
        Segment { text: "\n  setup-devbox check-updates\n\n", paint: Paint::Plain, width: 0 },
    ];
    output.append(&mut part);
    if detailed {
        let mut part: Vec<Segment> = vec![
            Segment { text: "Detailed Description:", paint: Paint::BoldYellow, width: 0 },
            Segment { text: "\n  The 'check-updates' command reads your 'tools.yaml' configuration file and checks\n  for new versions of the tools you have specified. The results are presented in two tables:\n\n  ", paint: Paint::Plain, width: 0 },
            Segment { text: "Updates Available", paint: Paint::BoldGreen, width: 0 },
            Segment { text: ":\n    This table lists tools for which a newer version has been detected. It shows the\n    tool name, your configured version, and the latest available version (highlighted in green).\n\n  ", paint: Paint::Plain, width: 0 },
            Segment { text: "Manual Check Required", paint: Paint::BoldYellow, width: 0 },
            Segment { text: ":\n    This table lists tools that require manual attention. This includes tools whose\n    version is specified as 'latest' or 'N/A', tools for which the installer does not\n    support automatic version checks (e.g., 'uv tool' mode), or tools that encountered\n    an error during the version detection process. Up-to-date tools are not listed to reduce clutter.\n\n", paint: Paint::Plain, width: 0 },
        ];
        output.append(&mut part);
    } else {
    }
    let mut part: Vec<Segment> = vec![
        Segment { text: "Examples:", paint: Paint::BoldYellow, width: 0 },
        Segment { text: "\n  setup-devbox check-updates       # Check for updates for all tools\n", paint: Paint::Plain, width: 0 },
    ];
    output.append(&mut part);
    output
}

/// The segments of the help of the `add` command.
pub open spec fn show_add_help_text(detailed: bool) -> Seq<Segment> {
    seq![
        Segment { text: "\n", paint: Paint::Plain, width: 0 },
        Segment { text: "setup-devbox add", paint: Paint::BoldBlue, width: 0 },
        Segment { text: "\n", paint: Paint::Plain, width: 0 },
        Segment { text: "--------------------", paint: Paint::BoldBlue, width: 0 },
        Segment { text: "\nAdd new tools, fonts, settings, or aliases to your configuration files.\n\n", paint: Paint::Plain, width: 0 },
        Segment { text: "Overview:", paint: Paint::BoldYellow, width: 0 },
        Segment { text: "\n  The ", paint: Paint::Plain, width: 0 },
        Segment { text: "add", paint: Paint::Cyan, width: 0 },
        Segment { text: " command lets you add new items to your configuration files without\n  manually editing YAML. After adding an item, it automatically runs\n  ", paint: Paint::Plain, width: 0 },
        Segment { text: "setup-devbox now", paint: Paint::Cyan, width: 0 },
        Segment { text: " to apply the changes immediately.\n\n", paint: Paint::Plain, width: 0 },
        Segment { text: "Available Subcommands:", paint: Paint::BoldYellow, width: 0 },
        Segment { text: "\n  ", paint: Paint::Plain, width: 0 },
        Segment { text: "tool", paint: Paint::Green, width: 0 },
        Segment { text: "        - Add a new tool to ", paint: Paint::Plain, width: 0 },
        Segment { text: "tools.yaml", paint: Paint::Cyan, width: 0 },
        Segment { text: " configuration\n  ", paint: Paint::Plain, width: 0 },
        Segment { text: "font", paint: Paint::Green, width: 0 },
        Segment { text: "        - Add a new font to ", paint: Paint::Plain, width: 0 },
        Segment { text: "fonts.yaml", paint: Paint::Cyan, width: 0 },
        Segment { text: " configuration\n  ", paint: Paint::Plain, width: 0 },
        Segment { text: "setting", paint: Paint::Green, width: 0 },
        Segment { text: "     - Add a new macOS setting to ", paint: Paint::Plain, width: 0 },
        Segment { text: "settings.yaml", paint: Paint::Cyan, width: 0 },
        Segment { text: " configuration\n  ", paint: Paint::Plain, width: 0 },
        Segment { text: "alias", paint: Paint::Green, width: 0 },
        Segment { text: "       - Add a new shell alias to ", paint: Paint::Plain, width: 0 },
        Segment { text: "shellrc.yaml", paint: Paint::Cyan, width: 0 },
        Segment { text: " configuration\n\n", paint: Paint::Plain, width: 0 },
    ] + (if detailed {
        add_add_detailed_info_text()
    } else {
        add_add_basic_info_text()
    })
}

/// The help of the `add` command (the detailed form on request).
pub fn show_add_help(detailed: bool) -> (r: Vec<Segment>)
    ensures
        r@ == show_add_help_text(detailed),
{
    let mut output: Vec<Segment> = Vec::new();
    let mut part: Vec<Segment> = vec![
        Segment { text: "\n", paint: Paint::Plain, width: 0 },
        Segment { text: "setup-devbox add", paint: Paint::BoldBlue, width: 0 },
        Segment { text: "\n", paint: Paint::Plain, width: 0 },
        Segment { text: "--------------------", paint: Paint::BoldBlue, width: 0 },
        Segment { text: "\nAdd new tools, fonts, settings, or aliases to your configuration files.\n\n", paint: Paint::Plain, width: 0 },
        Segment { text: "Overview:", paint: Paint::BoldYellow, width: 0 },
        Segment { text: "\n  The ", paint: Paint::Plain, width: 0 },
        Segment { text: "add", paint: Paint::Cyan, width: 0 },
        Segment { text: " command lets you add new items to your configuration files without\n  manually editing YAML. After adding an item, it automatically runs\n  ", paint: Paint::Plain, width: 0 },
        Segment { text: "setup-devbox now", paint: Paint::Cyan, width: 0 },
        Segment { text: " to apply the changes immediately.\n\n", paint: Paint::Plain, width: 0 },
        Segment { text: "Available Subcommands:", paint: Paint::BoldYellow, width: 0 },
        Segment { text: "\n  ", paint: Paint::Plain, width: 0 },
        Segment { text: "tool", paint: Paint::Green, width: 0 },
        Segment { text: "        - Add a new tool to ", paint: Paint::Plain, width: 0 },
        Segment { text: "tools.yaml", paint: Paint::Cyan, width: 0 },
        Segment { text: " configuration\n  ", paint: Paint::Plain, width: 0 },
        Segment { text: "font", paint: Paint::Green, width: 0 },
        Segment { text: "        - Add a new font to ", paint: Paint::Plain, width: 0 },
        Segment { text: "fonts.yaml", paint: Paint::Cyan, width: 0 },
        Segment { text: " configuration\n  ", paint: Paint::Plain, width: 0 },
        Segment { text: "setting", paint: Paint::Green, width: 0 },
        Segment { text: "     - Add a new macOS setting to ", paint: Paint::Plain, width: 0 },
        Segment { text: "settings.yaml", paint: Paint::Cyan, width: 0 },
        Segment { text: " configuration\n  ", paint: Paint::Plain, width: 0 },
        Segment { text: "alias", paint: Paint::Green, width: 0 },
        Segment { text: "       - Add a new shell alias to ", paint: Paint::Plain, width: 0 },
        Segment { text: "shellrc.yaml", paint: Paint::Cyan, width: 0 },
        Segment { text: " configuration\n\n", paint: Paint::Plain, width: 0 },
    ];
    output.append(&mut part);
    if detailed {
        add_add_detailed_info(&mut output);
    } else {
        add_add_basic_info(&mut output);
    }
    output
}

/// The segments of the help of the `remove` command.
pub open spec fn show_remove_help_text(detailed: bool) -> Seq<Segment> {
    seq![
        Segment { text: "\n", paint: Paint::Plain, width: 0 },
        Segment { text: "setup-devbox remove", paint: Paint::BoldBlue, width: 0 },
        Segment { text: "\n", paint: Paint::Plain, width: 0 },
        Segment { text: "--------------------", paint: Paint::BoldBlue, width: 0 },
        Segment { text: "\nRemove installed tools, fonts, aliases, or settings from your system.\n\n", paint: Paint::Plain, width: 0 },
        Segment { text: "Overview:", paint: Paint::BoldYellow, width: 0 },
        Segment { text: "\n  The ", paint: Paint::Plain, width: 0 },
        Segment { text: "remove", paint: Paint::Cyan, width: 0 },
        Segment { text: " command lets you cleanly uninstall items that were installed\n  through setup-devbox. It handles uninstallation, cleans up configuration\n  files, and updates the state tracking to keep everything in sync.\n\n", paint: Paint::Plain, width: 0 },
        Segment { text: "Available Subcommands:", paint: Paint::BoldYellow, width: 0 },
        Segment { text: "\n  ", paint: Paint::Plain, width: 0 },
        Segment { text: "tool", paint: Paint::Green, width: 0 },
        Segment { text: "        - Remove an installed tool and clean up its configuration\n  ", paint: Paint::Plain, width: 0 },
        Segment { text: "font", paint: Paint::Green, width: 0 },
        Segment { text: "        - Remove an installed font from your system\n  ", paint: Paint::Plain, width: 0 },
        Segment { text: "alias", paint: Paint::Green, width: 0 },
        Segment { text: "       - WIP: Remove a shell alias from ", paint: Paint::Plain, width: 0 },
        Segment { text: "shellrc.yaml", paint: Paint::Cyan, width: 0 },
        Segment { text: " configuration\n  ", paint: Paint::Plain, width: 0 },
        Segment { text: "setting", paint: Paint::Green, width: 0 },
        Segment { text: "     - WIP: Remove a macOS setting from ", paint: Paint::Plain, width: 0 },
        Segment { text: "settings.yaml", paint: Paint::Cyan, width: 0 },
        Segment { text: " configuration\n\n", paint: Paint::Plain, width: 0 },
    ] + (if detailed {
        add_remove_detailed_info_text()
    } else {
        add_remove_basic_info_text()
    })
}

/// The help of the `remove` command (the detailed form on request).
pub fn show_remove_help(detailed: bool) -> (r: Vec<Segment>)
    ensures
        r@ == show_remove_help_text(detailed),
{
    let mut output: Vec<Segment> = Vec::new();
    let mut part: Vec<Segment> = vec![
        Segment { text: "\n", paint: Paint::Plain, width: 0 },
        Segment { text: "setup-devbox remove", paint: Paint::BoldBlue, width: 0 },
        Segment { text: "\n", paint: Paint::Plain, width: 0 },
        Segment { text: "--------------------", paint: Paint::BoldBlue, width: 0 },
        Segment { text: "\nRemove installed tools, fonts, aliases, or settings from your system.\n\n", paint: Paint::Plain, width: 0 },
        Segment { text: "Overview:", paint: Paint::BoldYellow, width: 0 },
        Segment { text: "\n  The ", paint: Paint::Plain, width: 0 },
        Segment { text: "remove", paint: Paint::Cyan, width: 0 },
        Segment { text: " command lets you cleanly uninstall items that were installed\n  through setup-devbox. It handles uninstallation, cleans up configuration\n  files, and updates the state tracking to keep everything in sync.\n\n", paint: Paint::Plain, width: 0 },
        Segment { text: "Available Subcommands:", paint: Paint::BoldYellow, width: 0 },
        Segment { text: "\n  ", paint: Paint::Plain, width: 0 },
        Segment { text: "tool", paint: Paint::Green, width: 0 },
        Segment { text: "        - Remove an installed tool and clean up its configuration\n  ", paint: Paint::Plain, width: 0 },
        Segment { text: "font", paint: Paint::Green, width: 0 },
        Segment { text: "        - Remove an installed font from your system\n  ", paint: Paint::Plain, width: 0 },
        Segment { text: "alias", paint: Paint::Green, width: 0 },
        Segment { text: "       - WIP: Remove a shell alias from ", paint: Paint::Plain, width: 0 },
        Segment { text: "shellrc.yaml", paint: Paint::Cyan, width: 0 },
        Segment { text: " configuration\n  ", paint: Paint::Plain, width: 0 },
        Segment { text: "setting", paint: Paint::Green, width: 0 },
        Segment { text: "     - WIP: Remove a macOS setting from ", paint: Paint::Plain, width: 0 },
        Segment { text: "settings.yaml", paint: Paint::Cyan, width: 0 },
        Segment { text: " configuration\n\n", paint: Paint::Plain, width: 0 },
    ];
    output.append(&mut part);
    if detailed {
        add_remove_detailed_info(&mut output);
    } else {
        add_remove_basic_info(&mut output);
    }
    output
}

/// The segments of the environment variables the program reads.
pub open spec fn add_environment_variables_text() -> Seq<Segment> {
    seq![
        Segment { text: "Supported Environment Variables:", paint: Paint::BoldYellow, width: 0 },
        Segment { text: "\n  • ", paint: Paint::Plain, width: 0 },
        Segment { text: "SDB_CONFIG_DIR", paint: Paint::BoldCyan, width: 22 },
        Segment { text: " - Path for SDB Configuration directory.\n  • ", paint: Paint::Plain, width: 0 },
        Segment { text: "SDB_RESET_SHELLRC_FILE", paint: Paint::BoldCyan, width: 22 },
        Segment { text: " - \"true\" or \"false\" (see: \"setup-devbox help installers\" more details)\n\n", paint: Paint::Plain, width: 0 },
    ]
}

/// Appends the environment variables the program reads.
fn add_environment_variables(output: &mut Vec<Segment>)
    ensures
        final(output)@ == old(output)@ + add_environment_variables_text(),
{
    let mut part: Vec<Segment> = vec![
        Segment { text: "Supported Environment Variables:", paint: Paint::BoldYellow, width: 0 },
        Segment { text: "\n  • ", paint: Paint::Plain, width: 0 },
        Segment { text: "SDB_CONFIG_DIR", paint: Paint::BoldCyan, width: 22 },
        Segment { text: " - Path for SDB Configuration directory.\n  • ", paint: Paint::Plain, width: 0 },
        Segment { text: "SDB_RESET_SHELLRC_FILE", paint: Paint::BoldCyan, width: 22 },
        Segment { text: " - \"true\" or \"false\" (see: \"setup-devbox help installers\" more details)\n\n", paint: Paint::Plain, width: 0 },
    ];
    output.append(&mut part);
}

/// The segments of the usage summary.
pub open spec fn add_usage_info_text() -> Seq<Segment> {
    seq![
        Segment { text: "Usage:", paint: Paint::BoldYellow, width: 0 },
        Segment { text: "\n  setup-devbox [OPTIONS] <COMMAND>\n\n", paint: Paint::Plain, width: 0 },
        Segment { text: "Available Commands:", paint: Paint::BoldYellow, width: 0 },
        Segment { text: "\n  • ", paint: Paint::Plain, width: 0 },
        Segment { text: "version", paint: Paint::Green, width: 11 },
        Segment { text: " - Show the current Version of the tool\n  • ", paint: Paint::Plain, width: 0 },
        Segment { text: "now", paint: Paint::Green, width: 11 },
        Segment { text: " - Installs and Configures Tools, Fonts, OS Settings and Shell Configs\n  • ", paint: Paint::Plain, width: 0 },
        Segment { text: "generate", paint: Paint::Green, width: 11 },
        Segment { text: " - Generates default configuration files\n  • ", paint: Paint::Plain, width: 0 },
        Segment { text: "sync-config", paint: Paint::Green, width: 11 },
        Segment { text: " - Synchronizes or generates configurations from a state file\n  • ", paint: Paint::Plain, width: 0 },
        Segment { text: "help", paint: Paint::Green, width: 11 },
        Segment { text: " - Show detailed help for commands and installers\n\n", paint: Paint::Plain, width: 0 },
        Segment { text: "Global Options:", paint: Paint::BoldYellow, width: 0 },
        Segment { text: "\n  ", paint: Paint::Plain, width: 0 },
        Segment { text: "-d, --debug", paint: Paint::Cyan, width: 13 },
        Segment { text: " - Enables detailed debug output\n  ", paint: Paint::Plain, width: 0 },
        Segment { text: "-h, --help", paint: Paint::Cyan, width: 13 },
        Segment { text: " - Print help\n\n", paint: Paint::Plain, width: 0 },
    ]
}

/// Appends the usage summary.
fn add_usage_info(output: &mut Vec<Segment>)
    ensures
        final(output)@ == old(output)@ + add_usage_info_text(),
{
    let mut part: Vec<Segment> = vec![
        Segment { text: "Usage:", paint: Paint::BoldYellow, width: 0 },
        Segment { text: "\n  setup-devbox [OPTIONS] <COMMAND>\n\n", paint: Paint::Plain, width: 0 },
        Segment { text: "Available Commands:", paint: Paint::BoldYellow, width: 0 },
        Segment { text: "\n  • ", paint: Paint::Plain, width: 0 },
        Segment { text: "version", paint: Paint::Green, width: 11 },
        Segment { text: " - Show the current Version of the tool\n  • ", paint: Paint::Plain, width: 0 },
        Segment { text: "now", paint: Paint::Green, width: 11 },
        Segment { text: " - Installs and Configures Tools, Fonts, OS Settings and Shell Configs\n  • ", paint: Paint::Plain, width: 0 },
        Segment { text: "generate", paint: Paint::Green, width: 11 },
        Segment { text: " - Generates default configuration files\n  • ", paint: Paint::Plain, width: 0 },
        Segment { text: "sync-config", paint: Paint::Green, width: 11 },
        Segment { text: " - Synchronizes or generates configurations from a state file\n  • ", paint: Paint::Plain, width: 0 },
        Segment { text: "help", paint: Paint::Green, width: 11 },
        Segment { text: " - Show detailed help for commands and installers\n\n", paint: Paint::Plain, width: 0 },
        Segment { text: "Global Options:", paint: Paint::BoldYellow, width: 0 },
        Segment { text: "\n  ", paint: Paint::Plain, width: 0 },
        Segment { text: "-d, --debug", paint: Paint::Cyan, width: 13 },
        Segment { text: " - Enables detailed debug output\n  ", paint: Paint::Plain, width: 0 },
        Segment { text: "-h, --help", paint: Paint::Cyan, width: 13 },
        Segment { text: " - Print help\n\n", paint: Paint::Plain, width: 0 },
    ];
    output.append(&mut part);
}

/// The segments of the detailed overview.
pub open spec fn add_detailed_help_info_text() -> Seq<Segment> {
    seq![
        Segment { text: "Detailed help information about SETUP-DEVBOX", paint: Paint::BoldBrightBlue, width: 0 },
        Segment { text: "\n", paint: Paint::Plain, width: 0 },
        Segment { text: "------------------------------------------------\n", paint: Paint::BrightBlue, width: 0 },
        Segment { text: "\n", paint: Paint::Plain, width: 0 },
        Segment { text: "Usages for [Help Topics]:", paint: Paint::BoldWhite, width: 0 },
        Segment { text: "\n  • setup-devbox help [TOPICS] <<Help Options>>\n\n", paint: Paint::Plain, width: 0 },
        Segment { text: "Available Help Topics:", paint: Paint::BoldWhite, width: 0 },
        Segment { text: "\n  • ", paint: Paint::Plain, width: 0 },
        Segment { text: "installers", paint: Paint::Cyan, width: 11 },
        Segment { text: " - Show all supported installers and their details\n  • ", paint: Paint::Plain, width: 0 },
        Segment { text: "now", paint: Paint::Cyan, width: 11 },
        Segment { text: " - Show detailed help for installation command\n  • ", paint: Paint::Plain, width: 0 },
        Segment { text: "generate", paint: Paint::Cyan, width: 11 },
        Segment { text: " - Show help for configuration generation\n  • ", paint: Paint::Plain, width: 0 },
        Segment { text: "sync-config", paint: Paint::Cyan, width: 11 },
        Segment { text: " - Show help for configuration synchronization\n  • ", paint: Paint::Plain, width: 0 },
        Segment { text: "version", paint: Paint::Cyan, width: 11 },
        Segment { text: " - Show version information\n\n", paint: Paint::Plain, width: 0 },
        Segment { text: "Help Options:", paint: Paint::BoldWhite, width: 0 },
        Segment { text: "\n  • ", paint: Paint::Plain, width: 0 },
        Segment { text: "--detailed", paint: Paint::Cyan, width: 15 },
        Segment { text: " - Show comprehensive information with examples\n  • ", paint: Paint::Plain, width: 0 },
        Segment { text: "--filter <type>", paint: Paint::Cyan, width: 15 },
        Segment { text: " - Filter results (for installers topic)\n", paint: Paint::Plain, width: 0 },
        Segment { text: "Note", paint: Paint::Italic, width: 0 },
        Segment { text: ": All Topics supports \"", paint: Paint::Plain, width: 0 },
        Segment { text: "--detailed", paint: Paint::Cyan, width: 0 },
        Segment { text: "\" and installers optionally also support \"", paint: Paint::Plain, width: 0 },
        Segment { text: "--filter <<installer_name>>", paint: Paint::Cyan, width: 0 },
        Segment { text: "\" for specific installer\n\n", paint: Paint::Plain, width: 0 },
        Segment { text: "Help Examples:", paint: Paint::BoldWhite, width: 0 },
        Segment { text: "\n  ", paint: Paint::Plain, width: 0 },
        Segment { text: "• setup-devbox help installers", paint: Paint::Italic, width: 0 },
        Segment { text: "\n  ", paint: Paint::Plain, width: 0 },
        Segment { text: "• setup-devbox help installers --detailed", paint: Paint::Italic, width: 0 },
        Segment { text: "\n  ", paint: Paint::Plain, width: 0 },
        Segment { text: "• setup-devbox help installers --filter brew --detailed", paint: Paint::Italic, width: 0 },
        Segment { text: "\n  ", paint: Paint::Plain, width: 0 },
        Segment { text: "• setup-devbox help now --detailed", paint: Paint::Italic, width: 0 },
        Segment { text: "\n", paint: Paint::Plain, width: 0 },
    ]
}

/// Appends the detailed overview.
fn add_detailed_help_info(output: &mut Vec<Segment>)
    ensures
        final(output)@ == old(output)@ + add_detailed_help_info_text(),
{
    let mut part: Vec<Segment> = vec![
        Segment { text: "Detailed help information about SETUP-DEVBOX", paint: Paint::BoldBrightBlue, width: 0 },
        Segment { text: "\n", paint: Paint::Plain, width: 0 },
        Segment { text: "------------------------------------------------\n", paint: Paint::BrightBlue, width: 0 },
        Segment { text: "\n", paint: Paint::Plain, width: 0 },
        Segment { text: "Usages for [Help Topics]:", paint: Paint::BoldWhite, width: 0 },
        Segment { text: "\n  • setup-devbox help [TOPICS] <<Help Options>>\n\n", paint: Paint::Plain, width: 0 },
        Segment { text: "Available Help Topics:", paint: Paint::BoldWhite, width: 0 },
        Segment { text: "\n  • ", paint: Paint::Plain, width: 0 },
        Segment { text: "installers", paint: Paint::Cyan, width: 11 },
        Segment { text: " - Show all supported installers and their details\n  • ", paint: Paint::Plain, width: 0 },
        Segment { text: "now", paint: Paint::Cyan, width: 11 },
        Segment { text: " - Show detailed help for installation command\n  • ", paint: Paint::Plain, width: 0 },
        Segment { text: "generate", paint: Paint::Cyan, width: 11 },
        Segment { text: " - Show help for configuration generation\n  • ", paint: Paint::Plain, width: 0 },
        Segment { text: "sync-config", paint: Paint::Cyan, width: 11 },
        Segment { text: " - Show help for configuration synchronization\n  • ", paint: Paint::Plain, width: 0 },
        Segment { text: "version", paint: Paint::Cyan, width: 11 },
        Segment { text: " - Show version information\n\n", paint: Paint::Plain, width: 0 },
        Segment { text: "Help Options:", paint: Paint::BoldWhite, width: 0 },
        Segment { text: "\n  • ", paint: Paint::Plain, width: 0 },
        Segment { text: "--detailed", paint: Paint::Cyan, width: 15 },
        Segment { text: " - Show comprehensive information with examples\n  • ", paint: Paint::Plain, width: 0 },
        Segment { text: "--filter <type>", paint: Paint::Cyan, width: 15 },
        Segment { text: " - Filter results (for installers topic)\n", paint: Paint::Plain, width: 0 },
        Segment { text: "Note", paint: Paint::Italic, width: 0 },
        Segment { text: ": All Topics supports \"", paint: Paint::Plain, width: 0 },
        Segment { text: "--detailed", paint: Paint::Cyan, width: 0 },
        Segment { text: "\" and installers optionally also support \"", paint: Paint::Plain, width: 0 },
        Segment { text: "--filter <<installer_name>>", paint: Paint::Cyan, width: 0 },
        Segment { text: "\" for specific installer\n\n", paint: Paint::Plain, width: 0 },
        Segment { text: "Help Examples:", paint: Paint::BoldWhite, width: 0 },
        Segment { text: "\n  ", paint: Paint::Plain, width: 0 },
        Segment { text: "• setup-devbox help installers", paint: Paint::Italic, width: 0 },
        Segment { text: "\n  ", paint: Paint::Plain, width: 0 },
        Segment { text: "• setup-devbox help installers --detailed", paint: Paint::Italic, width: 0 },
        Segment { text: "\n  ", paint: Paint::Plain, width: 0 },
        Segment { text: "• setup-devbox help installers --filter brew --detailed", paint: Paint::Italic, width: 0 },
        Segment { text: "\n  ", paint: Paint::Plain, width: 0 },
        Segment { text: "• setup-devbox help now --detailed", paint: Paint::Italic, width: 0 },
        Segment { text: "\n", paint: Paint::Plain, width: 0 },
    ];
    output.append(&mut part);
}

/// The segments of the general help.
pub open spec fn show_general_help_text() -> Seq<Segment> {
    seq![
        Segment { text: "\n", paint: Paint::Plain, width: 0 },
        Segment { text: "SETUP-DEVBOX:", paint: Paint::BoldBrightBlue, width: 0 },
        Segment { text: "\n", paint: Paint::Plain, width: 0 },
        Segment { text: "-------------", paint: Paint::BoldBlue, width: 0 },
        Segment { text: "\n  Helps orchestrating development environments with automated tool installation,\n  standardized configurations, and reproducible setup workflows.\n\n", paint: Paint::Plain, width: 0 },
        Segment { text: "Scope:", paint: Paint::BoldYellow, width: 0 },
        Segment { text: "\n  • ", paint: Paint::Plain, width: 0 },
        Segment { text: "[User-level operations only]", paint: Paint::Bold, width: 0 },
        Segment { text: " - no system-wide installations.\n  • Development environment foundation, not project dependencies.\n  • Project packages managed by dedicated tools (cargo, pip, uv, etc.).\n  • Clean separation between tool installation and package management.\n\n", paint: Paint::Plain, width: 0 },
    ] + add_supported_installers_text() + add_environment_variables_text() + add_usage_info_text() + add_detailed_help_info_text()
}

/// The general help.
fn show_general_help() -> (r: Vec<Segment>)
    ensures
        r@ == show_general_help_text(),
{
    let mut output: Vec<Segment> = Vec::new();
    let mut part: Vec<Segment> = vec![
        Segment { text: "\n", paint: Paint::Plain, width: 0 },
        Segment { text: "SETUP-DEVBOX:", paint: Paint::BoldBrightBlue, width: 0 },
        Segment { text: "\n", paint: Paint::Plain, width: 0 },
        Segment { text: "-------------", paint: Paint::BoldBlue, width: 0 },
        Segment { text: "\n  Helps orchestrating development environments with automated tool installation,\n  standardized configurations, and reproducible setup workflows.\n\n", paint: Paint::Plain, width: 0 },
        Segment { text: "Scope:", paint: Paint::BoldYellow, width: 0 },
        Segment { text: "\n  • ", paint: Paint::Plain, width: 0 },
        Segment { text: "[User-level operations only]", paint: Paint::Bold, width: 0 },
        Segment { text: " - no system-wide installations.\n  • Development environment foundation, not project dependencies.\n  • Project packages managed by dedicated tools (cargo, pip, uv, etc.).\n  • Clean separation between tool installation and package management.\n\n", paint: Paint::Plain, width: 0 },
    ];
    output.append(&mut part);
    add_supported_installers(&mut output);
    add_environment_variables(&mut output);
    add_usage_info(&mut output);
    add_detailed_help_info(&mut output);
    output
}

/// The segments of the help of the `version` command.
pub open spec fn show_version_help_text(detailed: bool) -> Seq<Segment> {
    seq![
        Segment { text: "setup-devbox version", paint: Paint::BoldBlue, width: 0 },
        Segment { text: "\nDisplay version information for setup-devbox.\n\n", paint: Paint::Plain, width: 0 },
        Segment { text: "Usage:", paint: Paint::Bold, width: 0 },
        Segment { text: "\n  setup-devbox version\n\n", paint: Paint::Plain, width: 0 },
    ] + (if detailed {
        seq![
            Segment { text: "Description:", paint: Paint::Bold, width: 0 },
            Segment { text: "\nShows the current version of setup-devbox along with build information\nand supported features. Useful for troubleshooting and ensuring you're\nrunning the latest version.\n\n", paint: Paint::Plain, width: 0 },
            Segment { text: "Information Displayed:", paint: Paint::Bold, width: 0 },
            Segment { text: "\n  • Version number\n  • Build date and commit hash (if available)\n  • Supported installer types\n  • Configuration file format version\n\n", paint: Paint::Plain, width: 0 },
        ]
    } else {
        Seq::empty()
    }) + seq![
        Segment { text: "Example:", paint: Paint::Bold, width: 0 },
        Segment { text: "\n  setup-devbox version\n", paint: Paint::Plain, width: 0 },
    ]
}

/// The help of the `version` command (the detailed form on request).
fn show_version_help(detailed: bool) -> (r: Vec<Segment>)
    ensures
        r@ == show_version_help_text(detailed),
{
    let mut output: Vec<Segment> = Vec::new();
    let mut part: Vec<Segment> = vec![
        Segment { text: "setup-devbox version", paint: Paint::BoldBlue, width: 0 },
        Segment { text: "\nDisplay version information for setup-devbox.\n\n", paint: Paint::Plain, width: 0 },
        Segment { text: "Usage:", paint: Paint::Bold, width: 0 },
        Segment { text: "\n  setup-devbox version\n\n", paint: Paint::Plain, width: 0 },
    ];
    output.append(&mut part);
    if detailed {
        let mut part: Vec<Segment> = vec![
            Segment { text: "Description:", paint: Paint::Bold, width: 0 },
            Segment { text: "\nShows the current version of setup-devbox along with build information\nand supported features. Useful for troubleshooting and ensuring you're\nrunning the latest version.\n\n", paint: Paint::Plain, width: 0 },
            Segment { text: "Information Displayed:", paint: Paint::Bold, width: 0 },
            Segment { text: "\n  • Version number\n  • Build date and commit hash (if available)\n  • Supported installer types\n  • Configuration file format version\n\n", paint: Paint::Plain, width: 0 },
        ];
        output.append(&mut part);
    } else {
    }
    let mut part: Vec<Segment> = vec![
        Segment { text: "Example:", paint: Paint::Bold, width: 0 },
        Segment { text: "\n  setup-devbox version\n", paint: Paint::Plain, width: 0 },
    ];
    output.append(&mut part);
    output
}


/// Whether an installer's name matches the filter: always without one;
/// otherwise when the lowercase name contains the lowercase filter.
pub open spec fn installer_matches(name: Seq<char>, filter: Option<Seq<char>>) -> bool {
    match filter {
        Some(f) => contains_seq(lowercase(name), lowercase(f)),
        None => true,
    }
}

/// The positions, in order, of the first `n` names that match the filter.
pub open spec fn matching_installers(names: Seq<Seq<char>>, filter: Option<Seq<char>>, n: nat) -> Seq<int>
    decreases n,
{
    if n == 0 {
        seq![]
    } else {
        let rest = matching_installers(names, filter, (n - 1) as nat);
        if installer_matches(names[n - 1], filter) {
            rest.push(n - 1)
        } else {
            rest
        }
    }
}

/// The installers shown for a `--filter`: the positions, in order, of the
/// names that match it (see [`installer_matches`]); all of them without a
/// filter.
pub fn filter_installers(names: &Vec<String>, filter: &Option<String>) -> (r: Vec<usize>)
    ensures
        r@.map_values(|i: usize| i as int) == matching_installers(views(names@), opt_view(*filter), names@.len()),
{
    let lf = match filter {
        Some(f) => Some(to_lowercase(f.as_str())),
        None => None,
    };
    let mut out: Vec<usize> = Vec::new();
    let mut i: usize = 0;
    while i < names.len()
        invariant
            i <= names@.len(),
            match *filter {
                Some(f) => lf matches Some(l) && l@ == lowercase(f@),
                None => lf is None,
            },
            out@.map_values(|k: usize| k as int) == matching_installers(views(names@), opt_view(*filter), i as nat),
        decreases names@.len() - i,
    {
        assert(views(names@)[i as int] == names@[i as int]@);
        let keep = match &lf {
            Some(l) => {
                let n = to_lowercase(names[i].as_str());
                contains_str(n.as_str(), l.as_str())
            },
            None => true,
        };
        if keep {
            let ghost before = out@;
            out.push(i);
            assert(out@.map_values(|k: usize| k as int) =~= before.map_values(|k: usize| k as int).push(i as int));
        }
        i = i + 1;
    }
    out
}

/// The page a help topic asks for.
#[derive(Debug)]
pub enum HelpTopic {
    /// A page made of the segments.
    Page(Vec<Segment>),
    /// The list of supported installers.
    Installers,
    /// A topic with no page.
    Unknown(String),
}

/// Which page a help topic shows: the general help without a topic; the
/// page of `add`, `edit`, `generate`, `now`, `remove`, `sync-config` (also
/// `sync_config`) or `version`; the installers' page; otherwise
/// none.
pub fn run(topic: Option<String>, detailed: bool) -> (r: HelpTopic)
    ensures
        match topic {
            None => r matches HelpTopic::Page(p) && p@ == show_general_help_text(),
            Some(t) => if t@ == "add"@ {
                r matches HelpTopic::Page(p) && p@ == show_add_help_text(detailed)
            } else if t@ == "edit"@ {
                r matches HelpTopic::Page(p) && p@ == show_edit_help_text(detailed)
            } else if t@ == "generate"@ {
                r matches HelpTopic::Page(p) && p@ == show_generate_help_text(detailed)
            } else if t@ == "installers"@ {
                r is Installers
            } else if t@ == "now"@ {
                r matches HelpTopic::Page(p) && p@ == show_now_help_text(detailed)
            } else if t@ == "remove"@ {
                r matches HelpTopic::Page(p) && p@ == show_remove_help_text(detailed)
            } else if t@ == "sync-config"@ || t@ == "sync_config"@ {
                r matches HelpTopic::Page(p) && p@ == show_sync_config_help_text(detailed)
            } else if t@ == "version"@ {
                r matches HelpTopic::Page(p) && p@ == show_version_help_text(detailed)
            } else {
                r == HelpTopic::Unknown(t)
            },
        },
{
    match topic {
        None => HelpTopic::Page(show_general_help()),
        Some(t) => {
            if str_eq(t.as_str(), "add") {
                HelpTopic::Page(show_add_help(detailed))
            } else if str_eq(t.as_str(), "edit") {
                HelpTopic::Page(show_edit_help(detailed))
            } else if str_eq(t.as_str(), "generate") {
                HelpTopic::Page(show_generate_help(detailed))
            } else if str_eq(t.as_str(), "installers") {
                HelpTopic::Installers
            } else if str_eq(t.as_str(), "now") {
                HelpTopic::Page(show_now_help(detailed))
            } else if str_eq(t.as_str(), "remove") {
                HelpTopic::Page(show_remove_help(detailed))
            } else if str_eq(t.as_str(), "sync-config") || str_eq(t.as_str(), "sync_config") {
                HelpTopic::Page(show_sync_config_help(detailed))
            } else if str_eq(t.as_str(), "version") {
                HelpTopic::Page(show_version_help(detailed))
            } else {
                HelpTopic::Unknown(t)
            }
        },
    }
}
} // verus!
