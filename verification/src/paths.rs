//! What the library knows of file system paths.
//!
//! A path is carried as a `PathBuf` and never taken apart here. Its text, its
//! final component and the result of adjoining a name to it are those that the
//! standard library computes, by the path conventions of the platform that
//! the program is built for; contracts refer to them by name.

use std::path::PathBuf;
use vstd::prelude::*;

verus! {

/// `std::path::PathBuf`, carried as it is.
#[verifier::external_type_specification]
#[verifier::external_body]
pub struct ExPathBuf(PathBuf);

/// The text of `path`: `Some` where the path is valid Unicode, `None` where
/// it is not.
pub uninterp spec fn path_text(path: PathBuf) -> Option<Seq<char>>;

/// The text of `path` with every part that is not valid Unicode replaced by
/// U+FFFD.
pub uninterp spec fn path_display(path: PathBuf) -> Seq<char>;

/// The path that adjoining `name` to `base` gives.
pub uninterp spec fn path_join(base: PathBuf, name: Seq<char>) -> PathBuf;

/// The final component of `path`, where it has one.
pub uninterp spec fn path_file_name(path: PathBuf) -> Option<PathBuf>;

/// `<PathBuf as Clone>::clone`: the copy is the same path.
pub assume_specification[ <PathBuf as Clone>::clone ](path: &PathBuf) -> (copy: PathBuf)
    ensures
        copy == *path,
;

/// `Path::to_str`: the path's text, exactly where the path is valid Unicode.
#[verifier::external_body]
pub(crate) fn text_of(path: &PathBuf) -> (text: Option<String>)
    ensures
        text is Some <==> path_text(*path) is Some,
        text matches Some(t) ==> path_text(*path) == Some(t@),
{
    path.to_str().map(|t| t.to_owned())
}

/// `Path::to_string_lossy`: the path's text for showing to a person.
#[verifier::external_body]
pub(crate) fn display_of(path: &PathBuf) -> (text: String)
    ensures
        text@ == path_display(*path),
{
    path.to_string_lossy().into_owned()
}

/// `Path::join`: `name` adjoined to `base`.
#[verifier::external_body]
pub(crate) fn join(base: &PathBuf, name: &str) -> (joined: PathBuf)
    ensures
        joined == path_join(*base, name@),
{
    base.join(name)
}

/// `Path::file_name`: the final component of the path, as a path of its own.
#[verifier::external_body]
pub(crate) fn file_name_of(path: &PathBuf) -> (name: Option<PathBuf>)
    ensures
        name == path_file_name(*path),
{
    path.file_name().map(PathBuf::from)
}

/// Whether a text ends in `/` or `\`.
pub open spec fn ends_with_separator(text: Seq<char>) -> bool {
    text.len() > 0 && (text.last() == '/' || text.last() == '\\')
}

/// Whether the path is written with a trailing separator, which marks it as
/// meant to be a directory. A path that is not valid Unicode is not.
pub open spec fn has_trailing_separator(path: PathBuf) -> bool {
    match path_text(path) {
        Some(text) => ends_with_separator(text),
        None => false,
    }
}

/// Whether the path is written with a trailing `/` or `\`.
pub fn trailing_separator(path: &PathBuf) -> (found: bool)
    ensures
        found == has_trailing_separator(*path),
{
    match text_of(path) {
        Some(text) => {
            let length: usize = text.as_str().unicode_len();
            if length == 0 {
                false
            } else {
                let last: char = text.as_str().get_char(length - 1);
                last == '/' || last == '\\'
            }
        },
        None => false,
    }
}

} // verus!
