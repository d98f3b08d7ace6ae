//! File-system paths.  A path is carried through as it is; the library reads
//! only its final component, the stem of that component, and the text that
//! shows the path in a message.

use std::path::PathBuf;
use vstd::prelude::*;

verus! {

#[verifier::external_type_specification]
#[verifier::external_body]
pub struct ExPathBuf(PathBuf);

/// What `Path::file_name` gives for `path`, as text: the final component of
/// the path, if it has one.
pub uninterp spec fn file_name_text(path: PathBuf) -> Option<Seq<char>>;

/// What `Path::file_stem` gives for `path`, as text: the final component of
/// the path without its extension, if the path has a final component.
pub uninterp spec fn file_stem_text(path: PathBuf) -> Option<Seq<char>>;

/// What `Path::display` writes for `path`.
pub uninterp spec fn path_display_text(path: PathBuf) -> Seq<char>;

/// `Path::file_name`, made text with `OsStr::to_string_lossy`.  How a path
/// falls into components is the platform's matter and is not spelled out: the
/// result is known by name only.
#[verifier::external_body]
pub(crate) fn file_name_of(path: &PathBuf) -> (name: Option<String>)
    ensures
        match name {
            Some(n) => file_name_text(*path) == Some(n@),
            None => file_name_text(*path) is None,
        },
{
    match path.file_name() {
        Some(name) => Some(name.to_string_lossy().into_owned()),
        None => None,
    }
}

/// `Path::file_stem`, made text with `OsStr::to_string_lossy`.  The result is
/// known by name; besides, a path has a stem exactly if it has a file name.
#[verifier::external_body]
pub(crate) fn file_stem_of(path: &PathBuf) -> (stem: Option<String>)
    ensures
        match stem {
            Some(s) => file_stem_text(*path) == Some(s@),
            None => file_stem_text(*path) is None,
        },
        stem is None <==> file_name_text(*path) is None,
{
    match path.file_stem() {
        Some(stem) => Some(stem.to_string_lossy().into_owned()),
        None => None,
    }
}

/// `Path::display`, written out with `format!`: `path` as text for a
/// message.  The result is known by name only.
#[verifier::external_body]
pub(crate) fn path_text(path: &PathBuf) -> (text: String)
    ensures
        text@ == path_display_text(*path),
{
    format!("{}", path.display())
}

} // verus!
