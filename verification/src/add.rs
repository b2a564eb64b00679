//! The `add` command's own rules: where configuration files are, what a
//! tool's source requires, which setting value types exist, and the entry
//! written for a font. The edit of the configuration document itself is in
//! [`crate::config_doc`].

use vstd::prelude::*;
use crate::text::{str_eq, owned, lowercase, to_lowercase, concat2, trim_start_matches, without_prefix_runs};
use crate::paths::{joined, path_join};
use crate::model::{FontEntry, SourceType};
use crate::cli::ValueType;
use crate::config_doc::{new_section_document, trim_colons};

verus! {

/// Edits the configuration files of one directory.
pub struct ConfigurationUpdater {
    pub config_base_path: String,
}

impl ConfigurationUpdater {
    /// An updater for the configuration directory `configs_dir`.
    pub fn new(configs_dir: String) -> (r: Result<Self, String>)
        ensures
            r matches Ok(u) && u.config_base_path == configs_dir,
    {
        Ok(ConfigurationUpdater { config_base_path: configs_dir })
    }

    /// The path of a configuration file.
    pub fn get_config_path(&self, filename: &str) -> (r: String)
        ensures
            r@ == joined(self.config_base_path@, filename@),
    {
        path_join(self.config_base_path.as_str(), filename)
    }

    /// The document a missing configuration file starts from: the section
    /// with an empty list.
    pub fn initial_content(&self, section_key: &str) -> (r: String)
        ensures
            r@ == trim_colons(section_key@) + ":\n  []\n"@,
    {
        new_section_document(section_key)
    }
}

/// The message when a GitHub tool lacks its repository or tag.
pub open spec fn github_requirement_message() -> Seq<char> {
    "Source is 'github', but requires both 'repo' and\n                    'tag' to be provided"@
}

/// The message when a URL tool lacks its URL.
pub open spec fn url_requirement_message() -> Seq<char> {
    "Source is 'url', but requires 'url' to be provided"@
}

/// Checks what a tool's source requires of it: a GitHub tool needs a
/// repository and a tag, a URL tool needs a URL; the source is compared
/// ignoring case and other sources need nothing.
pub fn validate_tool_restrictions(
    source: &str,
    url: &Option<String>,
    repo: &Option<String>,
    tag: &Option<String>,
) -> (r: Result<(), String>)
    ensures
        lowercase(source@) == "github"@ ==> (r is Err <==> (repo is None || tag is None)),
        lowercase(source@) == "github"@ && r is Err ==> r->Err_0@ == github_requirement_message(),
        lowercase(source@) == "url"@ ==> (r is Err <==> url is None),
        lowercase(source@) == "url"@ && r is Err ==> r->Err_0@ == url_requirement_message(),
        lowercase(source@) != "github"@ && lowercase(source@) != "url"@ ==> r is Ok,
{
    proof {
        reveal_strlit("github");
        reveal_strlit("url");
        assert("github"@ != "url"@) by {
            assert("github"@.len() != "url"@.len());
        }
    }
    let s = to_lowercase(source);
    if str_eq(s.as_str(), "github") {
        if repo.is_none() || tag.is_none() {
            return Err(owned("Source is 'github', but requires both 'repo' and\n                    'tag' to be provided"));
        }
    } else if str_eq(s.as_str(), "url") {
        if url.is_none() {
            return Err(owned("Source is 'url', but requires 'url' to be provided"));
        }
    }
    Ok(())
}

/// Whether a setting's value type is one of `bool`, `string`, `int`,
/// `float`, ignoring case.
pub fn is_valid_value_type(value_type: &str) -> (r: bool)
    ensures
        r == (lowercase(value_type@) == "bool"@ || lowercase(value_type@) == "string"@ || lowercase(
            value_type@,
        ) == "int"@ || lowercase(value_type@) == "float"@),
{
    let s = to_lowercase(value_type);
    str_eq(s.as_str(), "bool") || str_eq(s.as_str(), "string") || str_eq(s.as_str(), "int")
        || str_eq(s.as_str(), "float")
}

/// The entry `add font` writes: the version, repository and tag given, and
/// the sub-fonts to install only when some are named.
pub fn font_entry_to_add(
    name: String,
    version: String,
    source: String,
    repo: String,
    tag: String,
    install_only: Vec<String>,
) -> (r: FontEntry)
    ensures
        r.name == name,
        r.version == Some(version),
        r.source == source,
        r.repo == Some(repo),
        r.tag == Some(tag),
        install_only@.len() == 0 ==> r.install_only is None,
        install_only@.len() > 0 ==> r.install_only == Some(install_only),
{
    FontEntry {
        name,
        version: Some(version),
        source,
        repo: Some(repo),
        tag: Some(tag),
        install_only: if install_only.len() == 0 {
            None
        } else {
            Some(install_only)
        },
    }
}

/// The word logged for an add: `updated` when an entry was merged into,
/// `added` otherwise.
pub fn add_outcome_word(is_update: bool) -> (r: &'static str)
    ensures
        is_update ==> r@ == "updated"@,
        !is_update ==> r@ == "added"@,
{
    if is_update {
        "updated"
    } else {
        "added"
    }
}


/// The tag suggested for a release of `version`: `v` and the version without
/// its leading `v`s; nothing for `latest`.
pub fn default_release_tag(version: &str) -> (r: String)
    ensures
        r@ == (if version@ == "latest"@ {
            Seq::<char>::empty()
        } else {
            "v"@ + without_prefix_runs(version@, "v"@)
        }),
{
    if str_eq(version, "latest") {
        return String::new();
    }
    let rest = trim_start_matches(version, "v");
    concat2("v", rest.as_str())
}

/// What the interactive addition of a tool still asks for its source.
#[derive(Clone, Copy, Debug, PartialEq, Eq, Structural)]
pub struct ToolPrompts {
    pub repo: bool,
    pub tag: bool,
    pub url: bool,
}

/// The repository and tag of a GitHub tool and the URL of a URL tool are
/// asked when they were not given; nothing else is.
pub fn source_specific_prompts(source: SourceType, has_repo: bool, has_tag: bool, has_url: bool) -> (r: ToolPrompts)
    ensures
        r.repo == (source == SourceType::Github && !has_repo),
        r.tag == (source == SourceType::Github && !has_tag),
        r.url == (source == SourceType::Url && !has_url),
{
    match source {
        SourceType::Github => ToolPrompts { repo: !has_repo, tag: !has_tag, url: false },
        SourceType::Url => ToolPrompts { repo: false, tag: false, url: !has_url },
        _ => ToolPrompts { repo: false, tag: false, url: false },
    }
}

/// The sources offered when a tool is added interactively, the first being
/// the default.
pub fn interactive_sources() -> (r: Vec<SourceType>)
    ensures
        r@ == seq![
            SourceType::Brew,
            SourceType::Github,
            SourceType::Cargo,
            SourceType::Rustup,
            SourceType::Pip,
            SourceType::Go,
            SourceType::Uv,
            SourceType::Url,
        ],
{
    vec![
        SourceType::Brew,
        SourceType::Github,
        SourceType::Cargo,
        SourceType::Rustup,
        SourceType::Pip,
        SourceType::Go,
        SourceType::Uv,
        SourceType::Url,
    ]
}

/// The value types offered when a setting is added interactively, the
/// first being the default.
pub fn interactive_value_types() -> (r: Vec<ValueType>)
    ensures
        r@ == seq![ValueType::String, ValueType::Bool, ValueType::Int, ValueType::Float],
{
    vec![ValueType::String, ValueType::Bool, ValueType::Int, ValueType::Float]
}

} // verus!
