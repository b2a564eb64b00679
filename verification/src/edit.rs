//! The `edit` command's decisions: what was asked for, which file a
//! configuration type is, where the state and main configuration files are,
//! which editor runs and how it is made to wait, whether the user
//! confirmed, and whether the edited file changed.

use vstd::prelude::*;
use crate::text::{owned, concat2, concat3, str_eq, contains_str, contains_seq, trim, trim_spec, starts_with,
    has_prefix, lowercase, to_lowercase};
use crate::paths::{joined, path_join};
use crate::go::push_string;
use crate::uv::views;
use sha2::{Digest, Sha256};

verus! {

/// What `edit` was asked to open.
#[derive(Debug, Clone, PartialEq)]
pub enum EditRequest {
    /// The state file.
    State,
    /// The configuration file of the given type.
    Config(String),
}

/// The message when neither `--state` nor `--config` is given.
pub open spec fn edit_usage_message() -> Seq<char> {
    "You must specify either --state or --config <type>"@
}

/// What `edit` was asked to open: the state file when `--state` is given,
/// else the configuration type given; an error when neither is.
pub fn run(edit_state: bool, config_type: Option<String>) -> (r: Result<EditRequest, String>)
    ensures
        edit_state ==> r matches Ok(EditRequest::State),
        !edit_state && config_type is Some ==> (r matches Ok(EditRequest::Config(t)) && t == config_type->0),
        !edit_state && config_type is None ==> (r matches Err(e) && e@ == edit_usage_message()),
{
    if edit_state {
        Ok(EditRequest::State)
    } else {
        match config_type {
            Some(t) => Ok(EditRequest::Config(t)),
            None => Err(owned("You must specify either --state or --config <type>")),
        }
    }
}

/// The files `config.yaml` names.
#[derive(Debug, Clone, PartialEq)]
pub struct ConfigPaths {
    pub tools: String,
    pub settings: String,
    pub shellrc: String,
    pub fonts: String,
}

/// The file a configuration type is edited in: `tools`, `fonts`, `shell`
/// or `settings`; any other type is refused.
pub fn get_config_file_path(config_type: &str, config_paths: &ConfigPaths) -> (r: Result<String, String>)
    ensures
        config_type@ == "tools"@ ==> r == Ok::<String, String>(config_paths.tools),
        config_type@ == "fonts"@ ==> r == Ok::<String, String>(config_paths.fonts),
        config_type@ == "shell"@ ==> r == Ok::<String, String>(config_paths.shellrc),
        config_type@ == "settings"@ ==> r == Ok::<String, String>(config_paths.settings),
        config_type@ != "tools"@ && config_type@ != "fonts"@ && config_type@ != "shell"@ && config_type@
            != "settings"@ ==> (r matches Err(e) && e@ == "Error: Invalid config type '"@ + config_type@ + "'"@),
{
    proof {
        reveal_strlit("tools");
        reveal_strlit("fonts");
        reveal_strlit("shell");
        reveal_strlit("settings");
        assert("tools"@ != "fonts"@) by {
            assert("tools"@[0] != "fonts"@[0]);
        }
        assert("tools"@ != "shell"@) by {
            assert("tools"@[0] != "shell"@[0]);
        }
        assert("tools"@ != "settings"@) by {
            assert("tools"@[0] != "settings"@[0]);
        }
        assert("fonts"@ != "shell"@) by {
            assert("fonts"@[0] != "shell"@[0]);
        }
        assert("fonts"@ != "settings"@) by {
            assert("fonts"@[0] != "settings"@[0]);
        }
        assert("shell"@ != "settings"@) by {
            assert("shell"@.len() != "settings"@.len());
        }
    }
    if str_eq(config_type, "tools") {
        Ok(config_paths.tools.clone())
    } else if str_eq(config_type, "fonts") {
        Ok(config_paths.fonts.clone())
    } else if str_eq(config_type, "shell") {
        Ok(config_paths.shellrc.clone())
    } else if str_eq(config_type, "settings") {
        Ok(config_paths.settings.clone())
    } else {
        Err(concat3("Error: Invalid config type '", config_type, "'"))
    }
}

/// Where a file is, given `SDB_CONFIG_PATH` and `HOME`: under the former,
/// `configs/config.yaml` for the main configuration and `<type>.json`
/// otherwise; else the default location under the home directory; none
/// when neither is set.
pub open spec fn located_file(
    file_type: Seq<char>,
    sdb_config_path: Option<String>,
    home: Option<String>,
) -> Option<Seq<char>> {
    match sdb_config_path {
        Some(d) => Some(if file_type == "config"@ {
            joined(joined(d@, "configs"@), "config.yaml"@)
        } else {
            joined(d@, file_type + ".json"@)
        }),
        None => match home {
            Some(h) => Some(if file_type == "config"@ {
                joined(joined(joined(h@, ".setup-devbox"@), "configs"@), "config.yaml"@)
            } else {
                joined(joined(h@, ".setup-devbox"@), "state.json"@)
            }),
            None => None,
        },
    }
}

/// Where the state file (`file_type` `state`) or the main configuration
/// (`config`) is (see [`located_file`]).
pub fn get_config_file_path_with_fallback(
    file_type: &str,
    sdb_config_path: Option<String>,
    home: Option<String>,
) -> (r: Option<String>)
    ensures
        match r {
            Some(p) => located_file(file_type@, sdb_config_path, home) == Some(p@),
            None => located_file(file_type@, sdb_config_path, home) is None,
        },
{
    let is_config = str_eq(file_type, "config");
    match sdb_config_path {
        Some(d) => {
            if is_config {
                let c = path_join(d.as_str(), "configs");
                Some(path_join(c.as_str(), "config.yaml"))
            } else {
                let n = concat2(file_type, ".json");
                Some(path_join(d.as_str(), n.as_str()))
            }
        },
        None => match home {
            Some(h) => {
                let base = path_join(h.as_str(), ".setup-devbox");
                if is_config {
                    let c = path_join(base.as_str(), "configs");
                    Some(path_join(c.as_str(), "config.yaml"))
                } else {
                    Some(path_join(base.as_str(), "state.json"))
                }
            },
            None => None,
        },
    }
}

/// The editors tried, in order, when `EDITOR` is not set.
pub open spec fn common_editors() -> Seq<Seq<char>> {
    seq!["nano"@, "vim"@, "vi"@, "code"@, "zed"@]
}

/// The editor used: `EDITOR` when set, else the first of the common
/// editors whose lookup ran, else `vi`.
pub fn choose_editor(editor_env: Option<String>, lookup_ran: &Vec<bool>) -> (r: String)
    requires
        lookup_ran@.len() == 5,
    ensures
        editor_env is Some ==> r == editor_env->0,
        match editor_env {
            Some(_) => true,
            None => if exists|i: int| 0 <= i < 5 && #[trigger] lookup_ran@[i] {
                exists|i: int| 0 <= i < 5 && #[trigger] lookup_ran@[i] && r@ == common_editors()[i] && forall|j: int|
                    0 <= j < i ==> !lookup_ran@[j]
            } else {
                r@ == "vi"@
            },
        },
{
    match editor_env {
        Some(e) => {
            return e;
        },
        None => {},
    }
    let names: [&str; 5] = ["nano", "vim", "vi", "code", "zed"];
    let mut i: usize = 0;
    while i < 5
        invariant
            editor_env is None,
            lookup_ran@.len() == 5,
            names@ == seq!["nano", "vim", "vi", "code", "zed"],
            i <= 5,
            forall|j: int| 0 <= j < i ==> !lookup_ran@[j],
        decreases 5 - i,
    {
        if lookup_ran[i] {
            let r = owned(names[i]);
            proof {
                assert(common_editors()[i as int] == names@[i as int]@);
                assert(lookup_ran@[i as int] && r@ == common_editors()[i as int]);
            }
            return r;
        }
        i = i + 1;
    }
    owned("vi")
}

/// Whether an editor name is that of a graphical editor, which must be
/// asked to wait for the file to be closed.
pub open spec fn gui_editor(e: Seq<char>) -> bool {
    e == "code"@ || e == "zed"@ || e == "subl"@ || e == "sublime_text"@ || e == "atom"@ || e == "gedit"@ || e
        == "kate"@ || contains_seq(e, "code"@) || contains_seq(e, "zed"@) || contains_seq(e, "subl"@)
        || contains_seq(e, "atom"@) || contains_seq(e, "gedit"@)
}

/// Whether an editor is a graphical one (see [`gui_editor`]).
pub fn is_gui_editor(editor: &str) -> (r: bool)
    ensures
        r == gui_editor(editor@),
{
    str_eq(editor, "code") || str_eq(editor, "zed") || str_eq(editor, "subl") || str_eq(editor, "sublime_text")
        || str_eq(editor, "atom") || str_eq(editor, "gedit") || str_eq(editor, "kate") || contains_str(
        editor,
        "code",
    ) || contains_str(editor, "zed") || contains_str(editor, "subl") || contains_str(editor, "atom")
        || contains_str(editor, "gedit")
}

/// The command that runs an editor and waits for it: known graphical
/// editors get their waiting flag (`kate` `--block`, the others `--wait`,
/// `sublime_text` runs as `subl`); known terminal editors get none; other
/// names that look graphical get `--wait`.
pub open spec fn editor_command(e: Seq<char>) -> (Seq<char>, Seq<Seq<char>>) {
    if e == "code"@ || e == "zed"@ || e == "atom"@ || e == "gedit"@ {
        (e, seq!["--wait"@])
    } else if e == "subl"@ || e == "sublime_text"@ {
        ("subl"@, seq!["--wait"@])
    } else if e == "kate"@ {
        (e, seq!["--block"@])
    } else if e == "nano"@ || e == "vim"@ || e == "vi"@ || e == "emacs"@ || e == "micro"@ || e == "joe"@ {
        (e, seq![])
    } else if contains_seq(e, "code"@) || contains_seq(e, "zed"@) || contains_seq(e, "subl"@) || contains_seq(
        e,
        "atom"@,
    ) || contains_seq(e, "gedit"@) {
        (e, seq!["--wait"@])
    } else {
        (e, seq![])
    }
}

/// The command that runs an editor and waits for it (see
/// [`editor_command`]).
pub fn get_editor_command_with_wait_flag(editor: &str) -> (r: (String, Vec<String>))
    ensures
        r.0@ == editor_command(editor@).0,
        views(r.1@) == editor_command(editor@).1,
{
    let mut args: Vec<String> = Vec::new();
    let cmd = if str_eq(editor, "code") || str_eq(editor, "zed") || str_eq(editor, "atom") || str_eq(editor, "gedit") {
        push_string(&mut args, owned("--wait"));
        owned(editor)
    } else if str_eq(editor, "subl") || str_eq(editor, "sublime_text") {
        push_string(&mut args, owned("--wait"));
        owned("subl")
    } else if str_eq(editor, "kate") {
        push_string(&mut args, owned("--block"));
        owned(editor)
    } else if str_eq(editor, "nano") || str_eq(editor, "vim") || str_eq(editor, "vi") || str_eq(editor, "emacs")
        || str_eq(editor, "micro") || str_eq(editor, "joe") {
        owned(editor)
    } else if contains_str(editor, "code") || contains_str(editor, "zed") || contains_str(editor, "subl")
        || contains_str(editor, "atom") || contains_str(editor, "gedit") {
        push_string(&mut args, owned("--wait"));
        owned(editor)
    } else {
        owned(editor)
    };
    proof {
        assert(views(args@) =~= editor_command(editor@).1);
    }
    (cmd, args)
}

/// Whether a graphical editor came back too fast for it to have waited
/// (under a second), so the user is asked whether editing is done.
pub fn needs_finish_confirmation(elapsed_secs: u64, gui: bool) -> (r: bool)
    ensures
        r == (elapsed_secs < 1 && gui),
{
    elapsed_secs < 1 && gui
}

/// Whether an answer to a yes/no question is yes: trimmed and lowercased,
/// it starts with `y`.
pub fn is_yes(input: &str) -> (r: bool)
    ensures
        r == has_prefix(lowercase(trim_spec(input@)), "y"@),
{
    let t = trim(input);
    let l = to_lowercase(t.as_str());
    starts_with(l.as_str(), "y")
}

/// The SHA-256 digest of some bytes in lowercase hexadecimal, as `sha2`
/// computes it.
pub uninterp spec fn sha256_hex_of(content: Seq<u8>) -> Seq<char>;

/// Calls `sha2::Sha256` on the bytes and formats the digest with `{:x}`.
/// The digest is named by [`sha256_hex_of`]; the hexadecimal form of a
/// 32-byte digest has 64 digits.
#[verifier::external_body]
fn sha256_hex(content: &[u8]) -> (r: String)
    ensures
        r@ == sha256_hex_of(content@),
        r@.len() == 64,
{
    let mut hasher = Sha256::new();
    hasher.update(content);
    format!("{:x}", hasher.finalize())
}

/// The content hash of a file: the SHA-256 digest of what was read, none
/// when it could not be read.
pub fn get_file_content_hash(content: Option<Vec<u8>>) -> (r: Option<String>)
    ensures
        match content {
            Some(c) => r matches Some(h) && h@ == sha256_hex_of(c@),
            None => r is None,
        },
{
    match content {
        Some(c) => Some(sha256_hex(c.as_slice())),
        None => None,
    }
}

/// Whether the edited file changed: its hashes before and after differ, or
/// one of them could not be taken.
pub fn file_was_modified(original: &Option<String>, new: &Option<String>) -> (r: bool)
    ensures
        match (*original, *new) {
            (Some(a), Some(b)) => r == (a@ != b@),
            _ => r,
        },
{
    match (original, new) {
        (Some(a), Some(b)) => !str_eq(a.as_str(), b.as_str()),
        _ => true,
    }
}

/// Editing a file and leaving its content as it was is not a change: the
/// hashes taken before and after are equal.
pub proof fn law_unchanged_file_is_not_modified(before: Seq<u8>, after: Seq<u8>)
    requires
        before == after,
    ensures
        sha256_hex_of(before) == sha256_hex_of(after),
{
}

} // verus!
