//! Python packages through pip: which pip is run and how, what a valid
//! package name is, the command lines, reading the version `pip show`
//! prints, where the package's executable is looked for, and the record
//! kept.

use vstd::prelude::*;
use crate::text::{owned, concat3, find_str, substring, first_occurrence, trim, trim_spec, str_eq, starts_with, has_prefix, chars_of, string_from_chars, lowercase, to_lowercase};
use crate::cargo::{words, split_whitespace};
use crate::paths::{joined, path_join};
use crate::model::{ToolEntry, ToolState};
use crate::uv::{views, append_strings, lemma_views_add};
use crate::go::push_string;
use crate::yaml_text::{lines_of, lines, index_of};

verus! {

/// How pip is run.
#[derive(Clone, Copy, Debug, PartialEq, Eq, Structural)]
pub enum PipVariant {
    Pip3,
    Pip,
    Python3Module,
    PythonModule,
}

impl PipVariant {
    /// The program run.
    pub fn command(&self) -> (r: &'static str)
        ensures
            r@ == match *self {
                PipVariant::Pip3 => "pip3"@,
                PipVariant::Pip => "pip"@,
                PipVariant::Python3Module => "python3"@,
                PipVariant::PythonModule => "python"@,
            },
    {
        match self {
            PipVariant::Pip3 => "pip3",
            PipVariant::Pip => "pip",
            PipVariant::Python3Module => "python3",
            PipVariant::PythonModule => "python",
        }
    }

    /// Whether pip is run as a Python module (`-m pip`).
    pub fn is_module(&self) -> (r: bool)
        ensures
            r == (*self == PipVariant::Python3Module || *self == PipVariant::PythonModule),
    {
        match self {
            PipVariant::Python3Module | PipVariant::PythonModule => true,
            _ => false,
        }
    }

    /// The Python interpreter asked where packages go.
    pub fn python_command(&self) -> (r: &'static str)
        ensures
            r@ == match *self {
                PipVariant::Pip => "python"@,
                PipVariant::PythonModule => "python"@,
                _ => "python3"@,
            },
    {
        match self {
            PipVariant::Python3Module => "python3",
            PipVariant::PythonModule => "python",
            PipVariant::Pip3 => "python3",
            PipVariant::Pip => "python",
        }
    }
}

/// The arguments that run pip as a module, when it is run so.
pub open spec fn module_args(v: PipVariant) -> Seq<Seq<char>> {
    if v == PipVariant::Python3Module || v == PipVariant::PythonModule {
        seq!["-m"@, "pip"@]
    } else {
        seq![]
    }
}

fn push_module_args(args: &mut Vec<String>, v: PipVariant)
    ensures
        views(final(args)@) == views(old(args)@) + module_args(v),
{
    let ghost before = views(args@);
    if v.is_module() {
        push_string(args, owned("-m"));
        push_string(args, owned("pip"));
        proof {
            assert(views(args@) =~= before + module_args(v));
        }
    } else {
        proof {
            assert(views(args@) =~= before + module_args(v));
        }
    }
}

/// Whether a character may be in a package name.
pub open spec fn package_name_char(c: char) -> bool {
    ('a' <= c && c <= 'z') || ('A' <= c && c <= 'Z') || ('0' <= c && c <= '9') || c == '-' || c == '_' || c == '.'
}

/// Whether a package name is acceptable: not blank, and made of ASCII
/// letters, digits, `-`, `_` and `.`.
pub open spec fn valid_package_name(name: Seq<char>) -> bool {
    trim_spec(name).len() > 0 && forall|i: int| 0 <= i < name.len() ==> package_name_char(#[trigger] name[i])
}

/// Whether the tool's package name is acceptable (see
/// [`valid_package_name`]).
pub fn validate_package_configuration(tool_entry: &ToolEntry) -> (r: bool)
    ensures
        r == valid_package_name(tool_entry.name@),
{
    let t = trim(tool_entry.name.as_str());
    if t.as_str().unicode_len() == 0 {
        return false;
    }
    let cs = chars_of(tool_entry.name.as_str());
    let mut i: usize = 0;
    while i < cs.len()
        invariant
            cs@ == tool_entry.name@,
            i <= cs@.len(),
            forall|k: int| 0 <= k < i ==> package_name_char(#[trigger] cs@[k]),
        decreases cs@.len() - i,
    {
        let c = cs[i];
        let ok = ('a' <= c && c <= 'z') || ('A' <= c && c <= 'Z') || ('0' <= c && c <= '9') || c == '-'
            || c == '_' || c == '.';
        if !ok {
            return false;
        }
        i = i + 1;
    }
    true
}

/// Whether the package is installed for the user: the option `--user` is
/// given.
pub fn detect_installation_mode(tool_entry: &ToolEntry) -> (r: bool)
    ensures
        r == (tool_entry.options is Some && views(tool_entry.options->0@).contains("--user"@)),
{
    match &tool_entry.options {
        Some(opts) => {
            let mut i: usize = 0;
            while i < opts.len()
                invariant
                    tool_entry.options == Some(*opts),
                    i <= opts@.len(),
                    forall|k: int| 0 <= k < i ==> #[trigger] views(opts@)[k] != "--user"@,
                decreases opts@.len() - i,
            {
                if str_eq(opts[i].as_str(), "--user") {
                    assert(views(opts@)[i as int] == "--user"@);
                    assert(views(opts@).contains("--user"@));
                    return true;
                }
                assert(views(opts@)[i as int] == opts@[i as int]@);
                i = i + 1;
            }
            assert(views(opts@).len() == opts@.len());
            assert(!views(opts@).contains("--user"@));
            false
        },
        None => false,
    }
}

/// The package as pip is asked for it: `name==version` for a version that
/// is not blank, else the name.
pub open spec fn package_specifier(tool: ToolEntry) -> Seq<char> {
    match crate::cargo::nonblank(tool.version) {
        Some(v) => tool.name@ + "=="@ + v,
        None => tool.name@,
    }
}

/// The arguments of the pip program for installing: the module arguments,
/// `install`, the package, then the tool's options.
pub open spec fn pip_install_args(tool: ToolEntry, v: PipVariant) -> Seq<Seq<char>> {
    module_args(v) + seq!["install"@, package_specifier(tool)] + match tool.options {
        Some(o) => views(o@),
        None => seq![],
    }
}

/// The arguments for installing the package (see [`pip_install_args`]).
pub fn prepare_pip_install_command(tool_entry: &ToolEntry, pip_variant: PipVariant) -> (r: Vec<String>)
    ensures
        views(r@) == pip_install_args(*tool_entry, pip_variant),
{
    let mut args: Vec<String> = Vec::new();
    push_module_args(&mut args, pip_variant);
    push_string(&mut args, owned("install"));
    let spec_arg = match crate::cargo::nonblank_version(&tool_entry.version) {
        Some(v) => concat3(tool_entry.name.as_str(), "==", v.as_str()),
        None => tool_entry.name.clone(),
    };
    push_string(&mut args, spec_arg);
    let ghost head = views(args@);
    match &tool_entry.options {
        Some(o) => append_strings(&mut args, o),
        None => {},
    }
    proof {
        assert(views(args@) =~= pip_install_args(*tool_entry, pip_variant));
    }
    args
}

/// The program and arguments that list installed packages.
pub fn build_pip_list_command(pip_variant: PipVariant) -> (r: (String, Vec<String>))
    ensures
        r.0@ == pip_variant_command(pip_variant),
        views(r.1@) == module_args(pip_variant) + seq!["list"@, "--format=freeze"@],
{
    let mut args: Vec<String> = Vec::new();
    push_module_args(&mut args, pip_variant);
    push_string(&mut args, owned("list"));
    push_string(&mut args, owned("--format=freeze"));
    proof {
        assert(views(args@) =~= module_args(pip_variant) + seq!["list"@, "--format=freeze"@]);
    }
    (owned(pip_variant.command()), args)
}

/// The program and arguments that show a package.
pub fn build_pip_show_command(pip_variant: PipVariant, package_name: &str) -> (r: (String, Vec<String>))
    ensures
        r.0@ == pip_variant_command(pip_variant),
        views(r.1@) == module_args(pip_variant) + seq!["show"@, package_name@],
{
    let mut args: Vec<String> = Vec::new();
    push_module_args(&mut args, pip_variant);
    push_string(&mut args, owned("show"));
    push_string(&mut args, owned(package_name));
    proof {
        assert(views(args@) =~= module_args(pip_variant) + seq!["show"@, package_name@]);
    }
    (owned(pip_variant.command()), args)
}

/// The program a pip variant runs.
pub open spec fn pip_variant_command(v: PipVariant) -> Seq<char> {
    match v {
        PipVariant::Pip3 => "pip3"@,
        PipVariant::Pip => "pip"@,
        PipVariant::Python3Module => "python3"@,
        PipVariant::PythonModule => "python"@,
    }
}

/// The version a `Version:` line gives, when it gives one.
pub open spec fn version_on_line(l: Seq<char>) -> Option<Seq<char>> {
    if has_prefix(l, "Version:"@) {
        match index_of(l, ':') {
            Some(c) => {
                let v = trim_spec(l.subrange(c + 1, l.len() as int));
                if v.len() > 0 {
                    Some(v)
                } else {
                    None
                }
            },
            None => None,
        }
    } else {
        None
    }
}

/// The version in `pip show` output: from the first `Version:` line that
/// gives one.
pub open spec fn first_version(ls: Seq<Seq<char>>) -> Option<Seq<char>>
    decreases ls.len(),
{
    if ls.len() == 0 {
        None
    } else {
        match version_on_line(ls[0]) {
            Some(v) => Some(v),
            None => first_version(ls.drop_first()),
        }
    }
}

/// The version in `pip show` output (see [`first_version`]).
pub fn parse_version_from_output(output: &str) -> (r: Option<String>)
    ensures
        match r {
            Some(v) => first_version(lines_of(output@)) == Some(v@),
            None => first_version(lines_of(output@)) is None,
        },
{
    let cs = chars_of(output);
    let ls = lines(&cs);
    let ghost all = lines_of(output@);
    let mut i: usize = 0;
    proof {
        assert(all.subrange(0, all.len() as int) =~= all);
    }
    while i < ls.len()
        invariant
            cs@ == output@,
            all == lines_of(output@),
            i <= ls@.len(),
            ls@.len() == all.len(),
            forall|k: int| 0 <= k < ls@.len() ==> #[trigger] ls@[k]@ == all[k],
            first_version(all.subrange(i as int, all.len() as int)) == first_version(all),
        decreases ls@.len() - i,
    {
        let line = crate::text::string_from_chars(ls[i].as_slice());
        proof {
            assert(line@ == all[i as int]);
            let rest = all.subrange(i as int, all.len() as int);
            assert(rest[0] == all[i as int]);
            assert(rest.drop_first() =~= all.subrange(i + 1, all.len() as int));
        }
        if starts_with(line.as_str(), "Version:") {
            match crate::yaml_text::find_char(line.as_str(), ':') {
                Some(c) => {
                    let n = line.as_str().unicode_len();
                    let v = trim(line.as_str().substring_char(c + 1, n));
                    if v.as_str().unicode_len() > 0 {
                        return Some(v);
                    }
                },
                None => {},
            }
        }
        i = i + 1;
    }
    None
}

/// The place of an executable under a base directory: `base/bin/name`.
pub open spec fn bin_under(base: Seq<char>, name: Seq<char>) -> Seq<char> {
    joined(joined(base, "bin"@), name)
}

/// Where a user install puts the executable: under the user base Python
/// reports, else under `~/.local`; none when neither is known.
pub fn user_installation_path(package_name: &str, user_base_output: Option<String>, home: Option<String>) -> (r: Option<
    String,
>)
    ensures
        match user_base_output {
            Some(o) if trim_spec(o@).len() > 0 => r matches Some(p) && p@ == bin_under(trim_spec(o@), package_name@),
            _ => match home {
                Some(h) => r matches Some(p) && p@ == bin_under(joined(h@, ".local"@), package_name@),
                None => r is None,
            },
        },
{
    if let Some(o) = &user_base_output {
        let t = trim(o.as_str());
        if t.as_str().unicode_len() > 0 {
            return Some(path_join(path_join(t.as_str(), "bin").as_str(), package_name));
        }
    }
    match home {
        Some(h) => {
            let l = path_join(h.as_str(), ".local");
            Some(path_join(path_join(l.as_str(), "bin").as_str(), package_name))
        },
        None => None,
    }
}

/// The places where a package's executable is commonly found, in the order
/// they are tried.
pub fn common_python_paths(package_name: &str) -> (r: Vec<String>)
    ensures
        r@.len() == 4,
        r@[0]@ == joined("/usr/local/bin"@, package_name@),
        r@[1]@ == joined("/opt/homebrew/bin"@, package_name@),
        r@[2]@ == joined("/usr/bin"@, package_name@),
        r@[3]@ == joined("/opt/local/bin"@, package_name@),
{
    let mut r: Vec<String> = Vec::new();
    r.push(path_join("/usr/local/bin", package_name));
    r.push(path_join("/opt/homebrew/bin", package_name));
    r.push(path_join("/usr/bin", package_name));
    r.push(path_join("/opt/local/bin", package_name));
    r
}

/// Where the package's executable is: the place for its kind of install
/// when known, else the first common place where it exists, else
/// `/usr/local/bin`.
pub fn determine_pip_installation_path(
    package_name: &str,
    mode_path: Option<String>,
    common_found: Option<String>,
) -> (r: String)
    ensures
        r@ == match mode_path {
            Some(p) => p@,
            None => match common_found {
                Some(c) => c@,
                None => joined("/usr/local/bin"@, package_name@),
            },
        },
{
    match mode_path {
        Some(p) => p,
        None => match common_found {
            Some(c) => c,
            None => path_join("/usr/local/bin", package_name),
        },
    }
}

/// The version recorded: the one pip reports, else the one asked for, else
/// `latest`.
pub open spec fn pip_recorded_version(tool_entry: ToolEntry, reported: Option<String>) -> Seq<char> {
    match reported {
        Some(v) => v@,
        None => match tool_entry.version {
            Some(v) => v@,
            None => "latest"@,
        },
    }
}

/// The version recorded (see [`pip_recorded_version`]).
pub fn recorded_version(tool_entry: &ToolEntry, reported: Option<String>) -> (r: String)
    ensures
        r@ == pip_recorded_version(*tool_entry, reported),
{
    match reported {
        Some(v) => v,
        None => match &tool_entry.version {
            Some(v) => v.clone(),
            None => owned("latest"),
        },
    }
}

/// The record of a pip installation: none unless a pip was found, the
/// package name is valid, the install succeeded, the package is then listed
/// and its executable is accessible; otherwise a `pip` record of a Python
/// package.
pub fn install(
    tool_entry: &ToolEntry,
    pip_found: bool,
    install_succeeded: bool,
    package_listed: bool,
    accessible: bool,
    install_path: &str,
    executed_hooks: Option<Vec<String>>,
    reported: Option<String>,
    last_updated: Option<String>,
) -> (r: Option<ToolState>)
    ensures
        !(pip_found && valid_package_name(tool_entry.name@) && install_succeeded && package_listed && accessible)
            ==> r is None,
        pip_found && valid_package_name(tool_entry.name@) && install_succeeded && package_listed && accessible
            ==> (r matches Some(s) && s.install_method@ == "pip"@ && s.package_type@ == "python-package"@
            && s.install_path@ == install_path@ && s.version@ == pip_recorded_version(*tool_entry, reported)
            && s.url is None && s.executed_post_installation_hooks == executed_hooks && s.last_updated
            == last_updated),
{
    if !pip_found || !validate_package_configuration(tool_entry) || !install_succeeded || !package_listed
        || !accessible {
        return None;
    }
    let version = recorded_version(tool_entry, reported);
    Some(
        ToolState::new(
            tool_entry,
            install_path,
            owned("pip"),
            owned("python-package"),
            version,
            None,
            last_updated,
            executed_hooks,
        ),
    )
}


/// The package name in a listing word: the part before the first `==`
/// (as `pip list --format=freeze` writes `name==version`), or the whole word.
pub open spec fn package_part(word: Seq<char>) -> Seq<char> {
    match first_occurrence(word, "=="@) {
        Some(i) => word.subrange(0, i),
        None => word,
    }
}

/// The package name in a listing word (see [`package_part`]).
pub fn package_part_of(word: &str) -> (r: String)
    ensures
        r@ == package_part(word@),
{
    match find_str(word, "==") {
        Some(i) => substring(word, 0, i),
        None => owned(word),
    }
}

/// Whether the package part of the first word of some line of `pip list`
/// output is the package name in lowercase.
pub open spec fn listed_in_pip_list(out: Seq<char>, name: Seq<char>) -> bool {
    exists|i: int|
        0 <= i < lines_of(out).len() && words(#[trigger] lines_of(out)[i]).len() > 0 && package_part(
            words(lines_of(out)[i])[0],
        ) == lowercase(name)
}

/// Whether `pip list` shows the package (see [`listed_in_pip_list`]); when
/// the listing could not be had the package counts as shown, as a failed
/// check does not block the installation.
pub fn verify_package_in_list(package_name: &str, listing: Option<String>) -> (r: bool)
    ensures
        match listing {
            Some(o) => r == listed_in_pip_list(o@, package_name@),
            None => r,
        },
{
    let out = match listing {
        Some(o) => o,
        None => {
            return true;
        },
    };
    let wanted = to_lowercase(package_name);
    let cs = chars_of(out.as_str());
    let ls = lines(&cs);
    let ghost all = lines_of(out@);
    let mut i: usize = 0;
    while i < ls.len()
        invariant
            listing == Some(out),
            cs@ == out@,
            all == lines_of(out@),
            wanted@ == lowercase(package_name@),
            ls@.len() == all.len(),
            forall|k: int| 0 <= k < ls@.len() ==> #[trigger] ls@[k]@ == all[k],
            i <= ls@.len(),
            forall|k: int|
                0 <= k < i ==> !(words(#[trigger] all[k]).len() > 0 && package_part(words(all[k])[0]) == wanted@),
        decreases ls@.len() - i,
    {
        assert(ls@[i as int]@ == all[i as int]);
        let line = string_from_chars(ls[i].as_slice());
        let ws = split_whitespace(line.as_str());
        if ws.len() > 0 && str_eq(package_part_of(ws[0].as_str()).as_str(), wanted.as_str()) {
            assert(views(ws@)[0] == ws@[0]@);
            assert(words(lines_of(out@)[i as int]).len() > 0 && package_part(words(lines_of(out@)[i as int])[0])
                == lowercase(package_name@));
            assert(listed_in_pip_list(out@, package_name@));
            return true;
        }
        proof {
            if words(all[i as int]).len() > 0 {
                assert(views(ws@)[0] == ws@[0]@);
            }
        }
        i = i + 1;
    }
    false
}

} // verus!
