//! Installing Python tooling with `uv`: the installation mode an entry asks
//! for (`--mode=tool|pip|python`), validating its options, and the `uv`
//! command line that installs it.

use vstd::prelude::*;
use crate::model::{ToolEntry, ToolState};
use crate::orchestrator::InstallerError;
use crate::yaml_text::{index_of, find_char, lines, lines_of};
use crate::text::{contains_seq, contains_str, has_prefix, trim, trim_spec, starts_with, strip_prefix, str_eq, owned, concat2, concat3, chars_of, string_from_chars, substring};

verus! {

/// The character sequences of a list of strings.
pub open spec fn views(v: Seq<String>) -> Seq<Seq<char>> {
    v.map_values(|s: String| s@)
}

/// The options of an entry as character sequences (empty when absent).
pub open spec fn option_views(o: Option<Vec<String>>) -> Seq<Seq<char>> {
    match o {
        Some(v) => views(v@),
        None => Seq::empty(),
    }
}

/// The prefix that selects an installation mode.
pub open spec fn mode_flag() -> Seq<char> {
    "--mode="@
}

/// Whether `m` names a supported installation mode.
pub open spec fn known_mode(m: Seq<char>) -> bool {
    m == "tool"@ || m == "pip"@ || m == "python"@
}

/// The installation mode the options from position `i` on select: the first
/// `--mode=` option naming a supported mode; `tool` when there is none.
pub open spec fn mode_from(opts: Seq<Seq<char>>, i: int) -> Seq<char>
    decreases opts.len() - i,
{
    if i < 0 || i >= opts.len() {
        "tool"@
    } else if has_prefix(opts[i], mode_flag()) && known_mode(
        opts[i].subrange(mode_flag().len() as int, opts[i].len() as int),
    ) {
        opts[i].subrange(mode_flag().len() as int, opts[i].len() as int)
    } else {
        mode_from(opts, i + 1)
    }
}

/// The mode named by the first `--mode=` option from position `i` on.
pub open spec fn first_mode_from(opts: Seq<Seq<char>>, i: int) -> Option<Seq<char>>
    decreases opts.len() - i,
{
    if i < 0 || i >= opts.len() {
        None
    } else if has_prefix(opts[i], mode_flag()) {
        Some(opts[i].subrange(mode_flag().len() as int, opts[i].len() as int))
    } else {
        first_mode_from(opts, i + 1)
    }
}

/// Whether the options are acceptable: the first `--mode=` option, if any,
/// names a supported mode.
pub open spec fn options_valid(opts: Seq<Seq<char>>) -> bool {
    match first_mode_from(opts, 0) {
        Some(m) => known_mode(m),
        None => true,
    }
}

/// The `--mode=` suffix of `s`, if `s` is a mode option.
fn mode_suffix(s: &str) -> (r: Option<String>)
    ensures
        has_prefix(s@, mode_flag()) ==> r is Some && r->0@ == s@.subrange(
            mode_flag().len() as int,
            s@.len() as int,
        ),
        !has_prefix(s@, mode_flag()) ==> r is None,
{
    proof {
        reveal_strlit("--mode=");
    }
    strip_prefix(s, "--mode=")
}

fn is_known_mode(m: &str) -> (r: bool)
    ensures
        r == known_mode(m@),
{
    str_eq(m, "tool") || str_eq(m, "pip") || str_eq(m, "python")
}

/// The `uv` subcommand an entry is installed with, and its base arguments.
pub fn determine_installation_mode(tool_entry: &ToolEntry) -> (r: (String, Vec<String>))
    ensures
        r.0@ == mode_from(option_views(tool_entry.options), 0),
        r.1@.len() == 1 && r.1@[0]@ == "install"@,
{
    let mut base: Vec<String> = Vec::new();
    base.push(owned("install"));
    match &tool_entry.options {
        Some(options) => {
            let ghost opts = views(options@);
            let mut i: usize = 0;
            while i < options.len()
                invariant
                    opts == views(options@),
                    tool_entry.options == Some(*options),
                    i <= options@.len(),
                    mode_from(opts, 0) == mode_from(opts, i as int),
                    base@.len() == 1 && base@[0]@ == "install"@,
                decreases options@.len() - i,
            {
                assert(opts[i as int] == options@[i as int]@);
                if let Some(m) = mode_suffix(options[i].as_str()) {
                    if is_known_mode(m.as_str()) {
                        assert(has_prefix(opts[i as int], mode_flag()));
                        assert(mode_from(opts, i as int) == m@);
                        return (m, base);
                    }
                }
                i = i + 1;
            }
            (owned("tool"), base)
        },
        None => (owned("tool"), base),
    }
}

/// Whether an entry's options are acceptable to `uv` (see [`options_valid`]).
pub fn validate_uv_options(tool_entry: &ToolEntry) -> (r: bool)
    ensures
        r == options_valid(option_views(tool_entry.options)),
{
    match &tool_entry.options {
        None => true,
        Some(options) => {
            let ghost opts = views(options@);
            let mut i: usize = 0;
            while i < options.len()
                invariant
                    opts == views(options@),
                    tool_entry.options == Some(*options),
                    i <= options@.len(),
                    first_mode_from(opts, 0) == first_mode_from(opts, i as int),
                decreases options@.len() - i,
            {
                assert(opts[i as int] == options@[i as int]@);
                if let Some(m) = mode_suffix(options[i].as_str()) {
                    assert(first_mode_from(opts, i as int) == Some(m@));
                    return is_known_mode(m.as_str());
                }
                i = i + 1;
            }
            true
        },
    }
}

/// The options `uv` documents for a mode (common options plus the mode's own).
pub fn get_valid_options_for_mode(mode: &str) -> (r: Vec<&'static str>)
    ensures
        r@.len() == 19 + (if mode@ == "tool"@ {
            5int
        } else if mode@ == "pip"@ {
            31int
        } else if mode@ == "python"@ {
            2int
        } else {
            0int
        }),
        r@[0]@ == "-n"@,
{
    let mut opts: Vec<&'static str> = Vec::new();
    opts.push("-n");
    opts.push("--no-cache");
    opts.push("--cache-dir");
    opts.push("--managed-python");
    opts.push("--no-managed-python");
    opts.push("--no-python-downloads");
    opts.push("-q");
    opts.push("--quiet");
    opts.push("-v");
    opts.push("--verbose");
    opts.push("--color");
    opts.push("--native-tls");
    opts.push("--offline");
    opts.push("--allow-insecure-host");
    opts.push("--no-progress");
    opts.push("--directory");
    opts.push("--project");
    opts.push("--config-file");
    opts.push("--no-config");
    if str_eq(mode, "tool") {
        opts.push("--with");
        opts.push("--python");
        opts.push("--force");
        opts.push("--editable");
        opts.push("-e");
    } else if str_eq(mode, "pip") {
        opts.push("-r");
        opts.push("--requirement");
        opts.push("-c");
        opts.push("--constraint");
        opts.push("-e");
        opts.push("--editable");
        opts.push("--extra-index-url");
        opts.push("--find-links");
        opts.push("--no-index");
        opts.push("--index-url");
        opts.push("--keyring-provider");
        opts.push("--no-build-isolation");
        opts.push("--no-deps");
        opts.push("--upgrade");
        opts.push("--upgrade-package");
        opts.push("--reinstall");
        opts.push("--reinstall-package");
        opts.push("--no-build");
        opts.push("--no-binary");
        opts.push("--only-binary");
        opts.push("--python");
        opts.push("--system");
        opts.push("--break-system-packages");
        opts.push("--target");
        opts.push("--prefix");
        opts.push("--legacy-setup-py");
        opts.push("--no-build-isolation-package");
        opts.push("--config-settings");
        opts.push("--no-compile-bytecode");
        opts.push("--link-mode");
        opts.push("--compile-bytecode");
    } else if str_eq(mode, "python") {
        opts.push("--force");
        opts.push("--default");
    }
    opts
}

/// Whether some option from position `i` on is `--mode=python`.
pub open spec fn asks_python_from(opts: Seq<Seq<char>>, i: int) -> bool {
    exists|k: int| i <= k < opts.len() && has_prefix(opts[k], mode_flag()) && #[trigger] opts[k].subrange(
        mode_flag().len() as int,
        opts[k].len() as int,
    ) == "python"@
}

/// Whether an entry can be installed with `uv`: a non-blank name, valid
/// options, and a version whenever python mode is asked for.
pub open spec fn uv_configuration_valid(name: Seq<char>, opts: Seq<Seq<char>>, has_version: bool) -> bool {
    trim_spec(name).len() != 0 && options_valid(opts) && !(asks_python_from(opts, 0) && !has_version)
}

/// Validates an entry for installation with `uv`.
pub fn validate_uv_configuration(tool_entry: &ToolEntry) -> (r: bool)
    ensures
        r == uv_configuration_valid(
            tool_entry.name@,
            option_views(tool_entry.options),
            tool_entry.version is Some,
        ),
{
    let t = trim(tool_entry.name.as_str());
    if t.as_str().unicode_len() == 0 {
        return false;
    }
    if !validate_uv_options(tool_entry) {
        return false;
    }
    if let Some(options) = &tool_entry.options {
        let ghost opts = views(options@);
        let mut i: usize = 0;
        while i < options.len()
            invariant
                opts == views(options@),
                i <= options@.len(),
                tool_entry.options == Some(*options),
                !(asks_python_from(opts, 0) && tool_entry.version is None) <==> !(asks_python_from(
                    opts,
                    i as int,
                ) && tool_entry.version is None),
            decreases options@.len() - i,
        {
            if let Some(m) = mode_suffix(options[i].as_str()) {
                if str_eq(m.as_str(), "python") && tool_entry.version.is_none() {
                    assert(opts[i as int] == options@[i as int]@);
                    return false;
                }
            }
            proof {
                if asks_python_from(opts, i as int) {
                    let k = choose|k: int| i <= k < opts.len() && has_prefix(opts[k], mode_flag())
                        && #[trigger] opts[k].subrange(mode_flag().len() as int, opts[k].len() as int)
                        == "python"@;
                    if k == i {
                        assert(opts[k] == options@[k]@);
                    } else {
                        assert(asks_python_from(opts, i + 1));
                    }
                }
            }
            i = i + 1;
        }
    }
    true
}

/// The options passed on to `uv` (all but `--mode=` ones), from position `i` on.
pub open spec fn passed_options_from(opts: Seq<Seq<char>>, i: int) -> Seq<Seq<char>>
    decreases opts.len() - i,
{
    if i < 0 || i >= opts.len() {
        Seq::empty()
    } else if has_prefix(opts[i], mode_flag()) {
        passed_options_from(opts, i + 1)
    } else {
        seq![opts[i]] + passed_options_from(opts, i + 1)
    }
}

/// The package argument for a mode: the version in python mode; otherwise
/// `name==version`, or the bare name; `None` when a needed version is
/// missing or blank.
pub open spec fn package_argument(mode: Seq<char>, name: Seq<char>, version: Option<Seq<char>>) -> Option<Seq<char>> {
    if mode == "python"@ {
        match version {
            Some(v) => if trim_spec(v).len() != 0 {
                Some(v)
            } else {
                None
            },
            None => None,
        }
    } else {
        match version {
            Some(v) => if trim_spec(v).len() == 0 {
                None
            } else {
                Some(name + "=="@ + v)
            },
            None => Some(name),
        }
    }
}

/// The full `uv` argument list after the subcommand: the base arguments, the
/// package argument, then the passed-on options.
pub open spec fn uv_arguments(
    mode: Seq<char>,
    base: Seq<Seq<char>>,
    name: Seq<char>,
    version: Option<Seq<char>>,
    opts: Seq<Seq<char>>,
) -> Option<Seq<Seq<char>>> {
    match package_argument(mode, name, version) {
        Some(p) => Some(base + seq![p] + passed_options_from(opts, 0)),
        None => None,
    }
}

/// Copies a list of strings.
pub fn clone_strings(v: &Vec<String>) -> (r: Vec<String>)
    ensures
        views(r@) == views(v@),
{
    let mut r: Vec<String> = Vec::new();
    let mut i: usize = 0;
    while i < v.len()
        invariant
            i <= v@.len(),
            r@.len() == i,
            views(r@) == views(v@.subrange(0, i as int)),
        decreases v@.len() - i,
    {
        let c = v[i].clone();
        assert(c@ == v@[i as int]@);
        let ghost before = r@;
        r.push(c);
        i = i + 1;
        assert forall|k: int| 0 <= k < i implies #[trigger] views(r@)[k] == views(v@.subrange(0, i as int))[k] by {
            if k < i - 1 {
                assert(r@[k] == before[k]);
                assert(views(before)[k] == views(v@.subrange(0, i - 1))[k]);
            }
        }
        assert(views(r@) =~= views(v@.subrange(0, i as int)));
    }
    assert(v@.subrange(0, v@.len() as int) =~= v@);
    r
}

/// The character sequences of two lists joined are those of each, joined.
pub proof fn lemma_views_add(a: Seq<String>, b: Seq<String>)
    ensures
        views(a + b) == views(a) + views(b),
{
    assert forall|k: int| 0 <= k < a.len() + b.len() implies #[trigger] views(a + b)[k] == (views(a) + views(
        b,
    ))[k] by {
        if k < a.len() {
            assert((a + b)[k] == a[k]);
        } else {
            assert((a + b)[k] == b[k - a.len()]);
        }
    }
    assert(views(a + b) =~= views(a) + views(b));
}

/// Appends copies of `src` to `dst`.
pub fn append_strings(dst: &mut Vec<String>, src: &Vec<String>)
    ensures
        views(final(dst)@) == views(old(dst)@) + views(src@),
{
    let mut copy = clone_strings(src);
    let ghost c = copy@;
    let ghost d = dst@;
    dst.append(&mut copy);
    proof {
        lemma_views_add(d, c);
    }
}

proof fn lemma_passed_step(opts: Seq<Seq<char>>, i: int)
    requires
        0 <= i < opts.len(),
    ensures
        passed_options_from(opts, i) == (if has_prefix(opts[i], mode_flag()) {
            Seq::empty()
        } else {
            seq![opts[i]]
        }) + passed_options_from(opts, i + 1),
{
    if has_prefix(opts[i], mode_flag()) {
        assert(Seq::<Seq<char>>::empty() + passed_options_from(opts, i + 1) =~= passed_options_from(opts, i + 1));
    }
}

/// Builds the `uv` arguments for an entry in the given mode.
pub fn build_command_args(subcommand: &str, base_args: &Vec<String>, tool_entry: &ToolEntry) -> (r: Option<Vec<String>>)
    ensures
        match r {
            Some(a) => uv_arguments(
                subcommand@,
                views(base_args@),
                tool_entry.name@,
                match tool_entry.version {
                    Some(v) => Some(v@),
                    None => None,
                },
                option_views(tool_entry.options),
            ) == Some(views(a@)),
            None => uv_arguments(
                subcommand@,
                views(base_args@),
                tool_entry.name@,
                match tool_entry.version {
                    Some(v) => Some(v@),
                    None => None,
                },
                option_views(tool_entry.options),
            ) is None,
        },
{
    let mut args = clone_strings(base_args);
    let ghost base = views(base_args@);
    if str_eq(subcommand, "python") {
        match &tool_entry.version {
            Some(version) => {
                let t = trim(version.as_str());
                if t.as_str().unicode_len() == 0 {
                    return None;
                }
                args.push(version.clone());
            },
            None => {
                return None;
            },
        }
    } else {
        let spec_arg = match &tool_entry.version {
            Some(version) => {
                let t = trim(version.as_str());
                if t.as_str().unicode_len() == 0 {
                    return None;
                }
                concat3(tool_entry.name.as_str(), "==", version.as_str())
            },
            None => tool_entry.name.clone(),
        };
        args.push(spec_arg);
    }
    let ghost head = views(args@);
    assert(head == base + seq![head.last()]) by {
        assert(head =~= base + seq![head.last()]);
    }
    if let Some(options) = &tool_entry.options {
        let ghost opts = views(options@);
        let mut i: usize = 0;
        while i < options.len()
            invariant
                opts == views(options@),
                i <= options@.len(),
                views(args@) + passed_options_from(opts, i as int) == head + passed_options_from(opts, 0),
            decreases options@.len() - i,
        {
            proof {
                lemma_passed_step(opts, i as int);
                reveal_strlit("--mode=");
            }
            let is_mode = starts_with(options[i].as_str(), "--mode=");
            if !is_mode {
                let ghost before = views(args@);
                args.push(options[i].clone());
                assert(views(args@) =~= before + seq![opts[i as int]]);
                assert(views(args@) + passed_options_from(opts, i + 1) =~= before + (seq![opts[i as int]]
                    + passed_options_from(opts, i + 1)));
            } else {
                assert(Seq::<Seq<char>>::empty() + passed_options_from(opts, i + 1) =~= passed_options_from(opts, i + 1));
            }
            i = i + 1;
        }
        assert(views(args@) =~= views(args@) + passed_options_from(opts, options@.len() as int));
    } else {
        assert(head =~= head + passed_options_from(Seq::empty(), 0));
    }
    Some(args)
}

/// The part of `s` from its first ASCII digit on (all of `s` without one).
pub open spec fn version_number_part(s: Seq<char>) -> Seq<char> {
    if exists|i: int| 0 <= i < s.len() && is_ascii_digit(#[trigger] s[i]) {
        let i = choose|i: int|
            0 <= i < s.len() && is_ascii_digit(s[i]) && forall|j: int| 0 <= j < i ==> !is_ascii_digit(#[trigger] s[j]);
        s.subrange(i, s.len() as int)
    } else {
        s
    }
}

/// Whether `c` is one of `0`..=`9`.
pub open spec fn is_ascii_digit(c: char) -> bool {
    '0' <= c && c <= '9'
}

/// The version number in a string such as `cpython-3.12` (from its first digit).
pub fn extract_version_number(input: &str) -> (r: String)
    ensures
        r@ == version_number_part(input@),
{
    let v = chars_of(input);
    let mut i: usize = 0;
    while i < v.len()
        invariant
            v@ == input@,
            i <= v@.len(),
            forall|j: int| 0 <= j < i ==> !is_ascii_digit(#[trigger] v@[j]),
        decreases v@.len() - i,
    {
        if '0' <= v[i] && v[i] <= '9' {
            let ghost k = i as int;
            assert(is_ascii_digit(input@[k]));
            proof {
                let c = choose|c: int|
                    0 <= c < input@.len() && is_ascii_digit(input@[c]) && forall|j: int|
                        0 <= j < c ==> !is_ascii_digit(#[trigger] input@[j]);
                if c < k {
                    assert(!is_ascii_digit(v@[c]));
                }
                if c > k {
                    assert(!is_ascii_digit(input@[k]));
                }
            }
            let mut out: Vec<char> = Vec::new();
            let mut j: usize = i;
            while j < v.len()
                invariant
                    i <= j <= v@.len(),
                    out@ == v@.subrange(i as int, j as int),
                decreases v@.len() - j,
            {
                out.push(v[j]);
                j = j + 1;
                assert(out@ =~= v@.subrange(i as int, j as int));
            }
            return string_from_chars(out.as_slice());
        }
        i = i + 1;
    }
    owned(input)
}

/// The package type recorded for a `uv` subcommand.
pub fn package_type_for(subcommand: &str) -> (r: String)
    ensures
        subcommand@ == "python"@ ==> r@ == "python-interpreter"@,
        subcommand@ != "python"@ ==> r@ == "python-package"@,
{
    if str_eq(subcommand, "python") {
        owned("python-interpreter")
    } else {
        owned("python-package")
    }
}

/// The install method recorded for a `uv` subcommand.
pub fn install_method_for(subcommand: &str) -> (r: String)
    ensures
        r@ == "uv-"@ + subcommand@,
{
    concat2("uv-", subcommand)
}

/// Where a package installed by a `uv` subcommand is expected, given the
/// home directory (if known) and, in python mode, the path `uv` reports.
pub open spec fn uv_install_path(
    subcommand: Seq<char>,
    name: Seq<char>,
    home: Option<Seq<char>>,
    python_path: Option<Seq<char>>,
) -> Seq<char> {
    if subcommand == "tool"@ {
        match home {
            Some(h) => h + "/.local/bin/"@ + name,
            None => "/usr/local/bin/"@ + name,
        }
    } else if subcommand == "pip"@ {
        match home {
            Some(h) => h + "/.local/lib/python/site-packages/"@ + name,
            None => "/usr/local/lib/python/site-packages/"@,
        }
    } else if subcommand == "python"@ {
        match python_path {
            Some(p) => p,
            None => match home {
                Some(h) => h + "/.local/share/uv/python/"@ + name,
                None => "/usr/local/share/uv/python/"@ + name,
            },
        }
    } else {
        match home {
            Some(h) => h + "/.local/bin/"@ + name,
            None => "/usr/local/bin/"@,
        }
    }
}

/// Determines the install path of a package installed with `uv`.
pub fn determine_install_path(
    subcommand: &str,
    package_name: &str,
    home: Option<&str>,
    python_path: Option<&str>,
) -> (r: String)
    ensures
        r@ == uv_install_path(
            subcommand@,
            package_name@,
            match home {
                Some(h) => Some(h@),
                None => None,
            },
            match python_path {
                Some(p) => Some(p@),
                None => None,
            },
        ),
{
    if str_eq(subcommand, "tool") {
        match home {
            Some(h) => concat3(h, "/.local/bin/", package_name),
            None => concat2("/usr/local/bin/", package_name),
        }
    } else if str_eq(subcommand, "pip") {
        match home {
            Some(h) => concat3(h, "/.local/lib/python/site-packages/", package_name),
            None => owned("/usr/local/lib/python/site-packages/"),
        }
    } else if str_eq(subcommand, "python") {
        match python_path {
            Some(p) => owned(p),
            None => default_python_path(package_name, home),
        }
    } else {
        match home {
            Some(h) => concat3(h, "/.local/bin/", package_name),
            None => owned("/usr/local/bin/"),
        }
    }
}

/// The default location of a Python interpreter installed by `uv`.
pub fn default_python_path(package_name: &str, home: Option<&str>) -> (r: String)
    ensures
        r@ == match home {
            Some(h) => h@ + "/.local/share/uv/python/"@ + package_name@,
            None => "/usr/local/share/uv/python/"@ + package_name@,
        },
{
    match home {
        Some(h) => concat3(h, "/.local/share/uv/python/", package_name),
        None => concat2("/usr/local/share/uv/python/", package_name),
    }
}


/// The installer that installs Python tooling with `uv`.
pub struct UvInstaller;

/// An optional string as an optional character sequence.
pub open spec fn opt_view(v: Option<String>) -> Option<Seq<char>> {
    match v {
        Some(s) => Some(s@),
        None => None,
    }
}

/// The `uv` subcommand an entry is installed with.
pub open spec fn uv_mode(tool: ToolEntry) -> Seq<char> {
    mode_from(option_views(tool.options), 0)
}

/// The `uv` arguments that install an entry, if they can be built.
pub open spec fn uv_args_for(tool: ToolEntry) -> Option<Seq<Seq<char>>> {
    uv_arguments(uv_mode(tool), seq!["install"@], tool.name@, opt_view(tool.version), option_views(tool.options))
}

/// Whether an entry passes `uv`'s validation.
pub open spec fn uv_entry_valid(tool: ToolEntry) -> bool {
    uv_configuration_valid(tool.name@, option_views(tool.options), tool.version is Some)
}

/// The error that stops an installation with `uv` before the command runs,
/// if any.
pub open spec fn uv_command_refused(tool: ToolEntry, r: Result<(String, Vec<String>), InstallerError>) -> bool {
    if !uv_entry_valid(tool) {
        r matches Err(InstallerError::ConfigurationError(m)) && m@ == "Invalid configuration for '"@ + tool.name@
            + "'"@
    } else if uv_args_for(tool) is None {
        r matches Err(InstallerError::ConfigurationError(m)) && m@ == "Failed to build command args"@
    } else {
        false
    }
}

/// The version recorded for an entry installed with `uv`.
pub open spec fn uv_recorded_version(tool: ToolEntry) -> Seq<char> {
    match tool.version {
        Some(v) => v@,
        None => "unknown"@,
    }
}

/// The leading `major.minor` of a Python version (the whole text when it
/// has no dot).
pub open spec fn python_version_prefix(v: Seq<char>) -> Seq<char> {
    match index_of(v, '.') {
        Some(i) => match index_of(v.subrange(i + 1, v.len() as int), '.') {
            Some(j) => v.subrange(0, i + 1 + j),
            None => v,
        },
        None => v,
    }
}

/// What the latest-version query for a `uv` entry asks.
#[derive(Debug, Clone, PartialEq)]
pub enum UvVersionQuery {
    /// The newest interpreter in `uv python list` whose key holds the prefix.
    Python(Option<String>),
    /// The newest release of the package on the index.
    Pip(String),
    /// Nothing: `uv tool` installs are not queried.
    Skipped,
}

impl UvInstaller {
    /// The `uv` subcommand and arguments that install an entry, or the
    /// error that stops the installation before anything runs.
    pub fn command_for(&self, tool_entry: &ToolEntry) -> (r: Result<(String, Vec<String>), InstallerError>)
        ensures
            !uv_entry_valid(*tool_entry) || uv_args_for(*tool_entry) is None ==> uv_command_refused(*tool_entry, r),
            uv_entry_valid(*tool_entry) && uv_args_for(*tool_entry) is Some ==> (r matches Ok((sub, args))
                && sub@ == uv_mode(*tool_entry) && Some(views(args@)) == uv_args_for(*tool_entry)),
    {
        if !validate_uv_configuration(tool_entry) {
            return Err(InstallerError::ConfigurationError(concat3("Invalid configuration for '", tool_entry.name.as_str(), "'")));
        }
        let (subcommand, base_args) = determine_installation_mode(tool_entry);
        assert(views(base_args@) =~= seq!["install"@]);
        match build_command_args(subcommand.as_str(), &base_args, tool_entry) {
            Some(args) => Ok((subcommand, args)),
            None => Err(InstallerError::ConfigurationError(owned("Failed to build command args"))),
        }
    }

    /// Installs an entry with `uv`, given how running the command went
    /// (`None`: it could not be started; else whether it succeeded), the
    /// home directory, the interpreter path `uv` reports in python mode, and
    /// the post-installation hooks that ran.
    pub fn install(
        &self,
        tool_entry: &ToolEntry,
        run: Option<bool>,
        home: Option<&str>,
        python_path: Option<&str>,
        executed_hooks: Option<Vec<String>>,
    ) -> (r: Result<ToolState, InstallerError>)
        ensures
            !uv_entry_valid(*tool_entry) ==> (r matches Err(InstallerError::ConfigurationError(m)) && m@
                == "Invalid configuration for '"@ + tool_entry.name@ + "'"@),
            uv_entry_valid(*tool_entry) && uv_args_for(*tool_entry) is None ==> (r matches Err(
                InstallerError::ConfigurationError(m),
            ) && m@ == "Failed to build command args"@),
            uv_entry_valid(*tool_entry) && uv_args_for(*tool_entry) is Some ==> match run {
                None => r matches Err(InstallerError::CommandFailed(m)) && m@ == "Failed to execute 'uv "@
                    + uv_mode(*tool_entry) + "'"@,
                Some(false) => r matches Err(InstallerError::InstallationFailed(m)) && m@
                    == "Installation failed for '"@ + tool_entry.name@ + "'"@,
                Some(true) => r matches Ok(s) && s.install_method@ == "uv-"@ + uv_mode(*tool_entry)
                    && s.package_type@ == (if uv_mode(*tool_entry) == "python"@ {
                    "python-interpreter"@
                } else {
                    "python-package"@
                }) && s.install_path@ == uv_install_path(
                    uv_mode(*tool_entry),
                    tool_entry.name@,
                    match home {
                        Some(h) => Some(h@),
                        None => None,
                    },
                    match python_path {
                        Some(p) => Some(p@),
                        None => None,
                    },
                ) && s.version@ == uv_recorded_version(*tool_entry) && s.url is None && s.last_updated is None
                    && s.executed_post_installation_hooks == executed_hooks && s.renamed_to
                    == tool_entry.rename_to,
            },
    {
        let (subcommand, _args) = match self.command_for(tool_entry) {
            Ok(c) => c,
            Err(e) => {
                return Err(e);
            },
        };
        match run {
            None => {
                return Err(InstallerError::CommandFailed(concat3("Failed to execute 'uv ", subcommand.as_str(), "'")));
            },
            Some(false) => {
                return Err(InstallerError::InstallationFailed(concat3("Installation failed for '", tool_entry.name.as_str(), "'")));
            },
            Some(true) => {},
        }
        let install_path = determine_install_path(subcommand.as_str(), tool_entry.name.as_str(), home, python_path);
        let version = match &tool_entry.version {
            Some(v) => v.clone(),
            None => owned("unknown"),
        };
        Ok(
            ToolState::new(
                tool_entry,
                install_path.as_str(),
                install_method_for(subcommand.as_str()),
                package_type_for(subcommand.as_str()),
                version,
                None,
                None,
                executed_hooks,
            ),
        )
    }

    /// What to ask for the latest version of an entry: by its mode, the
    /// newest Python interpreter matching the `major.minor` of its version,
    /// the newest release of its package, or nothing.
    pub fn latest_version_query(&self, tool_entry: &ToolEntry) -> (r: UvVersionQuery)
        ensures
            uv_mode(*tool_entry) == "python"@ ==> (r matches UvVersionQuery::Python(p) && match tool_entry.version {
                Some(v) => p matches Some(q) && q@ == python_version_prefix(v@),
                None => p is None,
            }),
            uv_mode(*tool_entry) == "pip"@ ==> (r matches UvVersionQuery::Pip(n) && n@ == tool_entry.name@),
            uv_mode(*tool_entry) != "python"@ && uv_mode(*tool_entry) != "pip"@ ==> r is Skipped,
    {
        let (mode, _base) = determine_installation_mode(tool_entry);
        proof {
            reveal_strlit("pip");
            reveal_strlit("python");
            assert("pip"@.len() != "python"@.len());
        }
        if str_eq(mode.as_str(), "python") {
            let prefix = match &tool_entry.version {
                Some(v) => Some(major_minor(v.as_str())),
                None => None,
            };
            UvVersionQuery::Python(prefix)
        } else if str_eq(mode.as_str(), "pip") {
            UvVersionQuery::Pip(tool_entry.name.clone())
        } else {
            UvVersionQuery::Skipped
        }
    }

    /// The latest version of an entry, given the answer to its query
    /// (`None` when the query found nothing).
    pub fn get_latest_version(&self, tool_entry: &ToolEntry, found: Option<String>) -> (r: Result<String, InstallerError>)
        ensures
            uv_mode(*tool_entry) == "python"@ ==> match found {
                Some(v) => r matches Ok(x) && x@ == v@,
                None => r matches Err(InstallerError::VersionDetectionFailed(m)) && m@
                    == "Failed to get latest python version for '"@ + tool_entry.name@ + "'"@,
            },
            uv_mode(*tool_entry) == "pip"@ ==> match found {
                Some(v) => r matches Ok(x) && x@ == v@,
                None => r matches Err(InstallerError::VersionDetectionFailed(m)) && m@
                    == "Failed to get latest uv version for '"@ + tool_entry.name@ + "'"@,
            },
            uv_mode(*tool_entry) != "python"@ && uv_mode(*tool_entry) != "pip"@ ==> (r matches Ok(x) && x@
                == "Skipped (not supported for uv tool)"@),
    {
        let (mode, _base) = determine_installation_mode(tool_entry);
        proof {
            reveal_strlit("pip");
            reveal_strlit("python");
            assert("pip"@.len() != "python"@.len());
        }
        if str_eq(mode.as_str(), "python") {
            match found {
                Some(v) => Ok(v),
                None => Err(InstallerError::VersionDetectionFailed(concat3("Failed to get latest python version for '", tool_entry.name.as_str(), "'"))),
            }
        } else if str_eq(mode.as_str(), "pip") {
            match found {
                Some(v) => Ok(v),
                None => Err(InstallerError::VersionDetectionFailed(concat3("Failed to get latest uv version for '", tool_entry.name.as_str(), "'"))),
            }
        } else {
            Ok(owned("Skipped (not supported for uv tool)"))
        }
    }
}

/// The leading `major.minor` of a Python version (see [`python_version_prefix`]).
pub fn major_minor(v: &str) -> (r: String)
    ensures
        r@ == python_version_prefix(v@),
{
    match find_char(v, '.') {
        Some(i) => {
            let n = v.unicode_len();
            let tail = substring(v, i + 1, n);
            match find_char(tail.as_str(), '.') {
                Some(j) => substring(v, 0, i + 1 + j),
                None => owned(v),
            }
        },
        None => owned(v),
    }
}


/// The strings in field `field` of the elements of a JSON array, if `text`
/// is one (`None` in place of an element without a string there).
pub uninterp spec fn json_array_strings(text: Seq<char>, field: Seq<char>) -> Option<Seq<Option<Seq<char>>>>;

/// Whether `s` is a version that `semver::Version::parse` accepts.
pub uninterp spec fn semver_parses(s: Seq<char>) -> bool;

/// Whether the version `a` is greater than the version `b` in semver order.
pub uninterp spec fn semver_greater(a: Seq<char>, b: Seq<char>) -> bool;

/// How `semver` writes back the version it parsed from `s`.
pub uninterp spec fn semver_display(s: Seq<char>) -> Seq<char>;

/// Optional strings as optional character sequences.
pub open spec fn opt_views(v: Seq<Option<String>>) -> Seq<Option<Seq<char>>> {
    v.map_values(|o: Option<String>| opt_view(o))
}

/// Reads field `field` of each element of the JSON array in `text` with
/// `serde_json` (into `Vec<serde_json::Value>`, then
/// `value[field].as_str()`). The contract names the result and says nothing
/// more of JSON.
#[verifier::external_body]
fn parse_json_strings(text: &str, field: &str) -> (r: Option<Vec<Option<String>>>)
    ensures
        match r {
            Some(v) => json_array_strings(text@, field@) == Some(opt_views(v@)),
            None => json_array_strings(text@, field@) is None,
        },
{
    match serde_json::from_str::<Vec<serde_json::Value>>(text) {
        Ok(items) => Some(items.iter().map(|item| item[field].as_str().map(|k| k.to_string())).collect()),
        Err(_) => None,
    }
}

/// Whether `semver::Version::parse` accepts `s`.
#[verifier::external_body]
fn semver_is_valid(s: &str) -> (r: bool)
    ensures
        r == semver_parses(s@),
{
    semver::Version::parse(s).is_ok()
}

/// Whether the version `a` is greater than `b`, as `semver::Version`'s `>`
/// orders them.
#[verifier::external_body]
fn semver_is_greater(a: &str, b: &str) -> (r: bool)
    requires
        semver_parses(a@),
        semver_parses(b@),
    ensures
        r == semver_greater(a@, b@),
{
    match (semver::Version::parse(a), semver::Version::parse(b)) {
        (Ok(x), Ok(y)) => x > y,
        _ => false,
    }
}

/// The version `s` parsed by `semver` and written back with `to_string`.
#[verifier::external_body]
fn semver_to_string(s: &str) -> (r: String)
    requires
        semver_parses(s@),
    ensures
        r@ == semver_display(s@),
{
    match semver::Version::parse(s) {
        Ok(v) => v.to_string(),
        Err(_) => String::new(),
    }
}

/// The version in an interpreter key such as `cpython-3.12.1-linux-x86_64`
/// when the key holds the wanted prefix: the text between `cpython-` and
/// the next `-`.
pub open spec fn python_key_version(key: Option<Seq<char>>, prefix: Option<Seq<char>>) -> Option<Seq<char>> {
    match (key, prefix) {
        (Some(k), Some(p)) => if contains_seq(k, p) && has_prefix(k, "cpython-"@) {
            let rest = k.subrange(8, k.len() as int);
            match index_of(rest, '-') {
                Some(e) => Some(rest.subrange(0, e)),
                None => None,
            }
        } else {
            None
        },
        _ => None,
    }
}

/// The newest parsable version among the first `n` keys (the earliest of
/// equals).
pub open spec fn newest_python_upto(keys: Seq<Option<Seq<char>>>, prefix: Option<Seq<char>>, n: int) -> Option<
    Seq<char>,
>
    decreases n,
{
    if n <= 0 {
        None
    } else {
        let best = newest_python_upto(keys, prefix, n - 1);
        match python_key_version(keys[n - 1], prefix) {
            Some(v) => if semver_parses(v) && (best is None || semver_greater(v, best->0)) {
                Some(v)
            } else {
                best
            },
            None => best,
        }
    }
}

/// The newest interpreter version that `uv python list --output-format
/// json` printed, among those whose key holds the prefix.
pub open spec fn newest_python_version(listing: Seq<char>, prefix: Option<Seq<char>>) -> Option<Seq<char>> {
    match json_array_strings(listing, "key"@) {
        Some(keys) => match newest_python_upto(keys, prefix, keys.len() as int) {
            Some(v) => Some(semver_display(v)),
            None => None,
        },
        None => None,
    }
}

/// The version in an interpreter key (see [`python_key_version`]).
fn key_version(key: &Option<String>, prefix: &Option<String>) -> (r: Option<String>)
    ensures
        opt_view(r) == python_key_version(opt_view(*key), opt_view(*prefix)),
{
    match (key, prefix) {
        (Some(k), Some(p)) => {
            proof {
                reveal_strlit("cpython-");
            }
            if contains_str(k.as_str(), p.as_str()) {
                match strip_prefix(k.as_str(), "cpython-") {
                    Some(rest) => match find_char(rest.as_str(), '-') {
                        Some(e) => Some(substring(rest.as_str(), 0, e)),
                        None => None,
                    },
                    None => None,
                }
            } else {
                None
            }
        },
        _ => None,
    }
}

/// The newest Python version in the JSON listing of `uv python list`
/// whose key holds the prefix (see [`newest_python_version`]).
pub fn get_latest_uv_python_version(listing: &str, prefix: &Option<String>) -> (r: Option<String>)
    ensures
        opt_view(r) == newest_python_version(listing@, opt_view(*prefix)),
{
    proof {
        reveal_strlit("key");
    }
    let keys = match parse_json_strings(listing, "key") {
        Some(k) => k,
        None => {
            return None;
        },
    };
    let ghost ks = opt_views(keys@);
    let ghost p = opt_view(*prefix);
    let mut best: Option<String> = None;
    let mut i: usize = 0;
    while i < keys.len()
        invariant
            ks == opt_views(keys@),
            p == opt_view(*prefix),
            i <= keys@.len(),
            opt_view(best) == newest_python_upto(ks, p, i as int),
            best matches Some(b) ==> semver_parses(b@),
        decreases keys@.len() - i,
    {
        assert(ks[i as int] == opt_view(keys@[i as int]));
        match key_version(&keys[i], prefix) {
            Some(v) => {
                if semver_is_valid(v.as_str()) {
                    let newer = match &best {
                        None => true,
                        Some(b) => semver_is_greater(v.as_str(), b.as_str()),
                    };
                    if newer {
                        best = Some(v);
                    }
                }
            },
            None => {},
        }
        i = i + 1;
    }
    match best {
        Some(b) => Some(semver_to_string(b.as_str())),
        None => None,
    }
}

/// The version `uv pip search` shows on a line: what stands between the
/// first `(` and the first `)` of a line that starts with the package name.
pub open spec fn pip_line_version(line: Seq<char>, name: Seq<char>) -> Option<(int, int)> {
    let t = trim_spec(line);
    if has_prefix(t, name) && index_of(t, '(') is Some && index_of(t, ')') is Some {
        Some((index_of(t, '(')->0, index_of(t, ')')->0))
    } else {
        None
    }
}

/// The index of the first line from `i` on that shows a version.
pub open spec fn first_pip_line(ls: Seq<Seq<char>>, name: Seq<char>, i: int) -> Option<int>
    decreases ls.len() - i,
{
    if i < 0 || i >= ls.len() {
        None
    } else if pip_line_version(ls[i], name) is Some {
        Some(i)
    } else {
        first_pip_line(ls, name, i + 1)
    }
}

/// Whether reading the search output would slice backwards (a `)` before
/// the `(` on the first line that shows a version).
pub open spec fn pip_search_unreadable(out: Seq<char>, name: Seq<char>) -> bool {
    match first_pip_line(lines_of(out), name, 0) {
        Some(i) => {
            let ab = pip_line_version(lines_of(out)[i], name)->0;
            ab.1 < ab.0 + 1
        },
        None => false,
    }
}

/// Whether the `uv pip search` output cannot be read for a package (see
/// [`pip_search_unreadable`]); [`get_latest_uv_pip_version`] asks that it
/// can.
pub fn uv_pip_search_unreadable(output: &str, package_name: &str) -> (r: bool)
    ensures
        r == pip_search_unreadable(output@, package_name@),
{
    let cs = chars_of(output);
    let ls = lines(&cs);
    let ghost all = lines_of(output@);
    let mut i: usize = 0;
    while i < ls.len()
        invariant
            cs@ == output@,
            all == lines_of(output@),
            ls@.len() == all.len(),
            forall|k: int| 0 <= k < ls@.len() ==> #[trigger] ls@[k]@ == all[k],
            i <= ls@.len(),
            first_pip_line(all, package_name@, 0) == first_pip_line(all, package_name@, i as int),
        decreases ls@.len() - i,
    {
        assert(ls@[i as int]@ == all[i as int]);
        let line = string_from_chars(ls[i].as_slice());
        let t = trim(line.as_str());
        if starts_with(t.as_str(), package_name) {
            if let Some(a) = find_char(t.as_str(), '(') {
                if let Some(b) = find_char(t.as_str(), ')') {
                    assert(pip_line_version(all[i as int], package_name@) == Some((a as int, b as int)));
                    assert(first_pip_line(all, package_name@, i as int) == Some(i as int));
                    return b <= a;
                }
            }
        }
        i = i + 1;
    }
    false
}

/// The version that `uv pip search` output shows for a package.
pub open spec fn pip_search_version(out: Seq<char>, name: Seq<char>) -> Option<Seq<char>> {
    match first_pip_line(lines_of(out), name, 0) {
        Some(i) => {
            let (a, b) = pip_line_version(lines_of(out)[i], name)->0;
            Some(trim_spec(lines_of(out)[i]).subrange(a + 1, b))
        },
        None => None,
    }
}

/// The latest version of a package in the output of `uv pip search` (see
/// [`pip_search_version`]).
pub fn get_latest_uv_pip_version(output: &str, package_name: &str) -> (r: Option<String>)
    requires
        !pip_search_unreadable(output@, package_name@),
    ensures
        opt_view(r) == pip_search_version(output@, package_name@),
{
    let cs = chars_of(output);
    let ls = lines(&cs);
    let ghost all = lines_of(output@);
    let mut i: usize = 0;
    while i < ls.len()
        invariant
            cs@ == output@,
            all == lines_of(output@),
            ls@.len() == all.len(),
            forall|k: int| 0 <= k < ls@.len() ==> #[trigger] ls@[k]@ == all[k],
            i <= ls@.len(),
            first_pip_line(all, package_name@, 0) == first_pip_line(all, package_name@, i as int),
            !pip_search_unreadable(output@, package_name@),
        decreases ls@.len() - i,
    {
        assert(ls@[i as int]@ == all[i as int]);
        let line = string_from_chars(ls[i].as_slice());
        let t = trim(line.as_str());
        if starts_with(t.as_str(), package_name) {
            if let Some(a) = find_char(t.as_str(), '(') {
                if let Some(b) = find_char(t.as_str(), ')') {
                    assert(pip_line_version(all[i as int], package_name@) == Some((a as int, b as int)));
                    assert(first_pip_line(all, package_name@, i as int) == Some(i as int));
                    return Some(substring(t.as_str(), a + 1, b));
                }
            }
        }
        i = i + 1;
    }
    None
}


/// The path of the first installation in a JSON listing of `uv python list`
/// whose key holds the package name, looking at the first `n` entries.
pub open spec fn installation_path_upto(
    keys: Seq<Option<Seq<char>>>,
    paths: Seq<Option<Seq<char>>>,
    name: Seq<char>,
    n: int,
) -> Option<Seq<char>>
    decreases n,
{
    if n <= 0 {
        None
    } else {
        match installation_path_upto(keys, paths, name, n - 1) {
            Some(p) => Some(p),
            None => match (keys[n - 1], paths[n - 1]) {
                (Some(k), Some(p)) => if contains_seq(k, name) {
                    Some(p)
                } else {
                    None
                },
                _ => None,
            },
        }
    }
}

proof fn lemma_installation_path_stable(
    keys: Seq<Option<Seq<char>>>,
    paths: Seq<Option<Seq<char>>>,
    name: Seq<char>,
    m: int,
    n: int,
)
    requires
        0 <= m <= n,
        installation_path_upto(keys, paths, name, m) is Some,
    ensures
        installation_path_upto(keys, paths, name, n) == installation_path_upto(keys, paths, name, m),
    decreases n - m,
{
    if m < n {
        lemma_installation_path_stable(keys, paths, name, m, n - 1);
    }
}

/// Where an installed interpreter lives, per the JSON listing of `uv python
/// list --only-installed`: the path of the first entry whose key holds the
/// package name.
pub open spec fn python_installation_path(listing: Seq<char>, name: Seq<char>) -> Option<Seq<char>> {
    match (json_array_strings(listing, "key"@), json_array_strings(listing, "path"@)) {
        (Some(keys), Some(paths)) => installation_path_upto(
            keys,
            paths,
            name,
            if keys.len() < paths.len() {
                keys.len() as int
            } else {
                paths.len() as int
            },
        ),
        _ => None,
    }
}

/// Finds where an installed interpreter lives (see
/// [`python_installation_path`]).
pub fn get_python_installation_path(listing: &str, package_name: &str) -> (r: Option<String>)
    ensures
        opt_view(r) == python_installation_path(listing@, package_name@),
{
    proof {
        reveal_strlit("key");
        reveal_strlit("path");
    }
    let keys = match parse_json_strings(listing, "key") {
        Some(k) => k,
        None => {
            return None;
        },
    };
    let paths = match parse_json_strings(listing, "path") {
        Some(p) => p,
        None => {
            return None;
        },
    };
    let ghost ks = opt_views(keys@);
    let ghost ps = opt_views(paths@);
    assert(json_array_strings(listing@, "key"@) == Some(ks));
    assert(json_array_strings(listing@, "path"@) == Some(ps));
    let n = if keys.len() < paths.len() {
        keys.len()
    } else {
        paths.len()
    };
    let mut i: usize = 0;
    while i < n
        invariant
            ks == opt_views(keys@),
            ps == opt_views(paths@),
            json_array_strings(listing@, "key"@) == Some(ks),
            json_array_strings(listing@, "path"@) == Some(ps),
            n == (if ks.len() < ps.len() {
                ks.len()
            } else {
                ps.len()
            }),
            n <= keys@.len(),
            n <= paths@.len(),
            i <= n,
            installation_path_upto(ks, ps, package_name@, i as int) is None,
        decreases n - i,
    {
        assert(ks[i as int] == opt_view(keys@[i as int]));
        assert(ps[i as int] == opt_view(paths@[i as int]));
        if let (Some(k), Some(p)) = (&keys[i], &paths[i]) {
            if contains_str(k.as_str(), package_name) {
                proof {
                    assert(installation_path_upto(ks, ps, package_name@, i + 1) == Some(p@));
                    lemma_installation_path_stable(ks, ps, package_name@, i + 1, n as int);
                }
                return Some(p.clone());
            }
        }
        i = i + 1;
    }
    None
}

/// Whether some string in the first `n` entries equals `v`.
pub open spec fn listed_upto(vs: Seq<Option<Seq<char>>>, v: Seq<char>, n: int) -> bool {
    exists|i: int| 0 <= i < n && i < vs.len() && vs[i] == Some(v)
}

/// Whether a requested Python version is offered: the version number in it
/// (from its first digit) is the `version` of some entry of the JSON listing
/// of `uv python list`; false when there is no listing or it does not read.
pub fn is_valid_python_version(version_input: &str, listing: Option<&str>) -> (r: bool)
    ensures
        match listing {
            None => !r,
            Some(l) => match json_array_strings(l@, "version"@) {
                None => !r,
                Some(vs) => r == listed_upto(vs, version_number_part(version_input@), vs.len() as int),
            },
        },
{
    proof {
        reveal_strlit("version");
    }
    let l = match listing {
        Some(l) => l,
        None => {
            return false;
        },
    };
    let versions = match parse_json_strings(l, "version") {
        Some(v) => v,
        None => {
            return false;
        },
    };
    let wanted = extract_version_number(version_input);
    let ghost vs = opt_views(versions@);
    let mut i: usize = 0;
    while i < versions.len()
        invariant
            vs == opt_views(versions@),
            json_array_strings(l@, "version"@) == Some(vs),
            listing == Some(l),
            wanted@ == version_number_part(version_input@),
            i <= versions@.len(),
            !listed_upto(vs, wanted@, i as int),
        decreases versions@.len() - i,
    {
        assert(vs[i as int] == opt_view(versions@[i as int]));
        if let Some(v) = &versions[i] {
            if str_eq(v.as_str(), wanted.as_str()) {
                assert(vs[i as int] == Some(wanted@));
                assert(listed_upto(vs, wanted@, vs.len() as int));
                assert(json_array_strings(l@, "version"@) == Some(vs));
                return true;
            }
        }
        i = i + 1;
    }
    false
}

} // verus!
