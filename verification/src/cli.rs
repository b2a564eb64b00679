//! The command line: the commands and their arguments, and the names of
//! configuration file types and setting value types.

use vstd::prelude::*;
use crate::model::SourceType;
use crate::text::{str_eq, concat3, lowercase, to_lowercase};

verus! {

/// A configuration file that `edit --config` opens.
#[derive(Clone, Copy, Debug, PartialEq, Eq, Structural)]
pub enum ConfigType {
    Tools,
    Fonts,
    Shell,
    Settings,
}

/// The name of a configuration file type.
pub open spec fn config_type_name(c: ConfigType) -> Seq<char> {
    match c {
        ConfigType::Tools => "tools"@,
        ConfigType::Fonts => "fonts"@,
        ConfigType::Shell => "shell"@,
        ConfigType::Settings => "settings"@,
    }
}

/// The configuration file type a lowercase name stands for.
pub open spec fn config_type_named(n: Seq<char>) -> Option<ConfigType> {
    if n == "tools"@ {
        Some(ConfigType::Tools)
    } else if n == "fonts"@ {
        Some(ConfigType::Fonts)
    } else if n == "shell"@ {
        Some(ConfigType::Shell)
    } else if n == "settings"@ {
        Some(ConfigType::Settings)
    } else {
        None
    }
}

impl ConfigType {
    /// The name of this configuration file type (what `Display` prints).
    pub fn as_str(&self) -> (r: &'static str)
        ensures
            r@ == config_type_name(*self),
    {
        match self {
            ConfigType::Tools => "tools",
            ConfigType::Fonts => "fonts",
            ConfigType::Shell => "shell",
            ConfigType::Settings => "settings",
        }
    }

    /// Parses a configuration file type, ignoring case; anything else is
    /// refused with a message listing the valid names.
    pub fn from_str(s: &str) -> (r: Result<ConfigType, String>)
        ensures
            match config_type_named(lowercase(s@)) {
                Some(c) => r == Ok::<ConfigType, String>(c),
                None => r matches Err(e) && e@ == "Invalid config type '"@ + s@
                    + "'. Must be one of: tools, fonts, shell, settings"@,
            },
    {
        let l = to_lowercase(s);
        if str_eq(l.as_str(), "tools") {
            Ok(ConfigType::Tools)
        } else if str_eq(l.as_str(), "fonts") {
            Ok(ConfigType::Fonts)
        } else if str_eq(l.as_str(), "shell") {
            Ok(ConfigType::Shell)
        } else if str_eq(l.as_str(), "settings") {
            Ok(ConfigType::Settings)
        } else {
            Err(concat3("Invalid config type '", s, "'. Must be one of: tools, fonts, shell, settings"))
        }
    }
}

/// The type of a setting's value.
#[derive(Clone, Copy, Debug, PartialEq, Eq, Structural)]
pub enum ValueType {
    Bool,
    String,
    Int,
    Float,
}

/// The name of a value type.
pub open spec fn value_type_name(v: ValueType) -> Seq<char> {
    match v {
        ValueType::Bool => "bool"@,
        ValueType::String => "string"@,
        ValueType::Int => "int"@,
        ValueType::Float => "float"@,
    }
}

/// The value type a lowercase name stands for.
pub open spec fn value_type_named(n: Seq<char>) -> Option<ValueType> {
    if n == "bool"@ {
        Some(ValueType::Bool)
    } else if n == "string"@ {
        Some(ValueType::String)
    } else if n == "int"@ {
        Some(ValueType::Int)
    } else if n == "float"@ {
        Some(ValueType::Float)
    } else {
        None
    }
}

impl ValueType {
    /// The name of this value type (what `Display` prints).
    pub fn as_str(&self) -> (r: &'static str)
        ensures
            r@ == value_type_name(*self),
    {
        match self {
            ValueType::Bool => "bool",
            ValueType::String => "string",
            ValueType::Int => "int",
            ValueType::Float => "float",
        }
    }

    /// Parses a value type, ignoring case; anything else is refused with a
    /// message listing the valid names.
    pub fn from_str(s: &str) -> (r: Result<ValueType, String>)
        ensures
            match value_type_named(lowercase(s@)) {
                Some(v) => r == Ok::<ValueType, String>(v),
                None => r matches Err(e) && e@ == "Invalid value type '"@ + s@
                    + "'. Must be one of: bool, string, int, float"@,
            },
    {
        let l = to_lowercase(s);
        if str_eq(l.as_str(), "bool") {
            Ok(ValueType::Bool)
        } else if str_eq(l.as_str(), "string") {
            Ok(ValueType::String)
        } else if str_eq(l.as_str(), "int") {
            Ok(ValueType::Int)
        } else if str_eq(l.as_str(), "float") {
            Ok(ValueType::Float)
        } else {
            Err(concat3("Invalid value type '", s, "'. Must be one of: bool, string, int, float"))
        }
    }
}

/// The parsed command line.
pub struct Cli {
    pub debug: bool,
    pub command: Commands,
}

/// The commands.
pub enum Commands {
    Version,
    Now { config: Option<String>, state: Option<String>, update_latest: bool },
    Generate { config: Option<String>, state: Option<String> },
    SyncConfig { state: Option<String>, output_dir: Option<String> },
    Edit { state: bool, config: Option<ConfigType> },
    Add { add_type: AddCommands },
    Remove { item: RemoveCommands },
    Help { topic: Option<String>, detailed: bool, filter: Option<String> },
}

/// What `add` adds.
pub enum AddCommands {
    Tool {
        name: String,
        version: String,
        source: SourceType,
        url: Option<String>,
        repo: Option<String>,
        tag: Option<String>,
        rename_to: Option<String>,
        options: Option<Vec<String>>,
        executable_path_after_extract: Vec<String>,
        post_installation_hooks: Option<Vec<String>>,
        enable_config_manager: bool,
        config_paths: Vec<String>,
    },
    Font {
        name: String,
        version: String,
        source: String,
        repo: String,
        tag: String,
        install_only: Vec<String>,
    },
    Setting { domain: String, key: String, value: String, value_type: ValueType },
    Alias { name: String, value: String },
}

/// What `remove` removes.
pub enum RemoveCommands {
    Tool { name: String },
    Font { name: String },
    Alias { name: String },
    Setting { domain: String, key: String },
}

} // verus!
