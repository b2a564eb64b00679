//! Fonts from GitHub release archives: what a font entry must give, where
//! its archive is, which extracted files are installed, the version
//! recorded, and the record kept.

use vstd::prelude::*;
use crate::text::{owned, concat2, concat3, str_eq, has_prefix, contains_seq, contains_str, lowercase, to_lowercase,
    chars_of, string_from_chars, starts_with};
use crate::model::{FontEntry, FontState};
use crate::yaml_text::{replace_all, replace_str};

verus! {

/// Where a validated font's archive is.
#[derive(Debug, Clone, PartialEq)]
pub struct ValidatedFontDetails {
    pub repo: String,
    pub tag: String,
    pub asset_name: String,
    pub url: String,
}

/// The archive named after the font: its name without spaces, `.zip`.
pub open spec fn font_asset_name(name: Seq<char>) -> Seq<char> {
    replace_all(name, " "@, seq![]) + ".zip"@
}

/// Checks a font entry: its source must be `github` (ignoring case) and it
/// must give a repository and a tag; then its archive is the release asset
/// named after the font.
pub fn validate_font_entry(font: &FontEntry) -> (r: Option<ValidatedFontDetails>)
    ensures
        lowercase(font.source@) != "github"@ || font.repo is None || font.tag is None ==> r is None,
        lowercase(font.source@) == "github"@ && font.repo is Some && font.tag is Some ==> (r matches Some(d)
            && d.repo == font.repo->0 && d.tag == font.tag->0 && d.asset_name@ == font_asset_name(font.name@)
            && d.url@ == "https://github.com/"@ + font.repo->0@ + "/releases/download/"@ + font.tag->0@ + "/"@
            + font_asset_name(font.name@)),
{
    proof {
        reveal_strlit(" ");
    }
    let s = to_lowercase(font.source.as_str());
    if !str_eq(s.as_str(), "github") {
        return None;
    }
    let repo = match &font.repo {
        Some(r) => r,
        None => {
            return None;
        },
    };
    let tag = match &font.tag {
        Some(t) => t,
        None => {
            return None;
        },
    };
    let name_chars = chars_of(font.name.as_str());
    let space = chars_of(" ");
    let nothing: Vec<char> = Vec::new();
    let squeezed = replace_str(&name_chars, &space, &nothing);
    proof {
        assert(nothing@ =~= Seq::<char>::empty());
    }
    let asset_name = concat2(string_from_chars(squeezed.as_slice()).as_str(), ".zip");
    let mut url = concat3("https://github.com/", repo.as_str(), "/releases/download/");
    url.append(tag.as_str());
    url.append("/");
    url.append(asset_name.as_str());
    Some(ValidatedFontDetails { repo: repo.clone(), tag: tag.clone(), asset_name, url })
}

/// The version recorded for a font: its version, else its tag, else
/// `unknown`.
pub fn determine_font_version(font: &FontEntry) -> (r: String)
    ensures
        r@ == match font.version {
            Some(v) => v@,
            None => match font.tag {
                Some(t) => t@,
                None => "unknown"@,
            },
        },
{
    match &font.version {
        Some(v) => v.clone(),
        None => match &font.tag {
            Some(t) => t.clone(),
            None => owned("unknown"),
        },
    }
}

/// The temporary directory name for a font's download: spaces in its name
/// become dashes.
pub fn temp_dir_name(font_name: &str) -> (r: String)
    ensures
        r@ == "setup-devbox-font-"@ + replace_all(font_name@, " "@, "-"@),
{
    proof {
        reveal_strlit(" ");
    }
    let n = chars_of(font_name);
    let replaced = replace_str(&n, &chars_of(" "), &chars_of("-"));
    concat2("setup-devbox-font-", string_from_chars(replaced.as_slice()).as_str())
}

/// Whether an extracted file is installed: a visible regular file with a
/// `ttf` or `otf` extension (ignoring case) whose lowercase name contains
/// the lowercase form of one of the wanted sub-font names, when some are
/// named.
pub open spec fn installs_file(
    filename: Seq<char>,
    extension: Seq<char>,
    is_file: bool,
    install_only: Option<Seq<Seq<char>>>,
) -> bool {
    &&& !has_prefix(filename, "."@)
    &&& is_file
    &&& (lowercase(extension) == "ttf"@ || lowercase(extension) == "otf"@)
    &&& match install_only {
        Some(filters) => wanted(filename, filters),
        None => true,
    }
}

/// Whether the lowercase file name contains the lowercase form of one of
/// the wanted names.
pub open spec fn wanted(filename: Seq<char>, filters: Seq<Seq<char>>) -> bool {
    exists|i: int| 0 <= i < filters.len() && contains_seq(lowercase(filename), lowercase(#[trigger] filters[i]))
}

/// Whether an extracted file is installed (see [`installs_file`]).
pub fn should_install_file(filename: &str, extension: &str, is_file: bool, install_only: &Option<Vec<String>>) -> (r: bool)
    ensures
        r == installs_file(
            filename@,
            extension@,
            is_file,
            match install_only {
                Some(v) => Some(crate::uv::views(v@)),
                None => None,
            },
        ),
{
    if starts_with(filename, ".") || !is_file {
        return false;
    }
    let ext = to_lowercase(extension);
    if !(str_eq(ext.as_str(), "ttf") || str_eq(ext.as_str(), "otf")) {
        return false;
    }
    match install_only {
        Some(filters) => {
            let lower = to_lowercase(filename);
            let mut i: usize = 0;
            while i < filters.len()
                invariant
                    *install_only == Some(*filters),
                    !has_prefix(filename@, "."@),
                    is_file,
                    lowercase(extension@) == "ttf"@ || lowercase(extension@) == "otf"@,
                    lower@ == lowercase(filename@),
                    i <= filters@.len(),
                    forall|k: int| 0 <= k < i ==> !contains_seq(
                        lowercase(filename@),
                        lowercase(#[trigger] crate::uv::views(filters@)[k]),
                    ),
                decreases filters@.len() - i,
            {
                let f = to_lowercase(filters[i].as_str());
                proof {
                    assert(crate::uv::views(filters@)[i as int] == filters@[i as int]@);
                }
                if contains_str(lower.as_str(), f.as_str()) {
                    proof {
                        let fs = crate::uv::views(filters@);
                        assert(f@ == lowercase(filters@[i as int]@));
                        assert(fs[i as int] == filters@[i as int]@);
                        assert(lowercase(fs[i as int]) == f@);
                        assert(contains_seq(lower@, f@));
                        assert(contains_seq(lowercase(filename@), lowercase(fs[i as int])));
                        assert(wanted(filename@, fs));
                    }
                    return true;
                }
                i = i + 1;
            }
            proof {
                assert(!wanted(filename@, crate::uv::views(filters@)));
            }
            false
        },
        None => true,
    }
}

/// Whether some component of an extracted entry's path (a directory or the
/// file itself, components separated by `/`) is hidden: starts with `.`.
pub open spec fn hidden_path(path: Seq<char>) -> bool {
    has_prefix(path, "."@) || contains_seq(path, "/."@)
}

/// Whether an entry of an extracted archive is installed: nothing on its
/// path is hidden, and the file itself is installed (see
/// [`installs_file`]); `filename` and `extension` are those of the path's
/// last component.
pub fn should_install_entry(
    path: &str,
    filename: &str,
    extension: &str,
    is_file: bool,
    install_only: &Option<Vec<String>>,
) -> (r: bool)
    ensures
        r == (!hidden_path(path@) && installs_file(
            filename@,
            extension@,
            is_file,
            match install_only {
                Some(v) => Some(crate::uv::views(v@)),
                None => None,
            },
        )),
{
    if starts_with(path, ".") || contains_str(path, "/.") {
        return false;
    }
    should_install_file(filename, extension, is_file, install_only)
}

/// The record of a font installation: none unless the entry was valid and
/// some font file was installed; otherwise the font with its archive
/// address, its source as install method, the files installed and the
/// `install_only` filters it was installed with.
pub fn install(font: &FontEntry, details: Option<ValidatedFontDetails>, installed_files: Vec<String>) -> (r: Option<
    FontState,
>)
    ensures
        details is None || installed_files@.len() == 0 ==> r is None,
        details is Some && installed_files@.len() > 0 ==> (r matches Some(s) && s.name == font.name && s.url
            == details->0.url && s.install_method == font.source && s.repo == font.repo && s.tag == font.tag
            && s.files == installed_files && crate::sync::opt_views(s.install_only) == crate::sync::opt_views(
            font.install_only,
        ) && s.version@ == (match font.version {
            Some(v) => v@,
            None => match font.tag {
                Some(t) => t@,
                None => "unknown"@,
            },
        })),
{
    let d = match details {
        Some(d) => d,
        None => {
            return None;
        },
    };
    if installed_files.len() == 0 {
        return None;
    }
    Some(
        FontState {
            name: font.name.clone(),
            version: determine_font_version(font),
            url: d.url,
            install_method: font.source.clone(),
            repo: font.repo.clone(),
            tag: font.tag.clone(),
            files: installed_files,
            install_only: crate::sync::clone_opt_strings(&font.install_only),
        },
    )
}

} // verus!
