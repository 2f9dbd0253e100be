//! Path-name logic on plain strings: extension extraction, stem extraction,
//! file-name extraction, joining, and derivation of the output path.
//!
//! Paths are modelled as strings whose components are separated by `/`.

use vstd::prelude::*;
use vstd::string::StringExecFns;

use crate::text::{last_index_of, lemma_last_index_of};

verus! {

/// The directory scanned for source files.
pub open spec fn input_dir() -> Seq<char> {
    "mov"@
}

/// The directory the converted files are written to.
pub open spec fn output_dir() -> Seq<char> {
    "mp4"@
}

/// The extension that marks a source file.
pub open spec fn source_ext() -> Seq<char> {
    "mov"@
}

/// The extension given to converted files.
pub open spec fn target_ext() -> Seq<char> {
    "mp4"@
}

/// The extension of a file name: the part after the last dot, provided that
/// dot is not the leading character. A name without a dot, or whose only dot
/// leads it, has no extension.
pub open spec fn extension_of(name: Seq<char>) -> Option<Seq<char>> {
    let d = last_index_of(name, '.');
    if d > 0 {
        Some(name.subrange(d + 1, name.len() as int))
    } else {
        None
    }
}

/// The stem of a file name: everything before the dot that starts its
/// extension, or the whole name when it has no extension.
pub open spec fn stem_of(name: Seq<char>) -> Seq<char> {
    let d = last_index_of(name, '.');
    if d > 0 {
        name.subrange(0, d)
    } else {
        name
    }
}

/// The file-name component of a path: everything after the last separator,
/// or the whole path when it has none.
pub open spec fn file_name_in(path: Seq<char>) -> Seq<char> {
    let d = last_index_of(path, '/');
    if d >= 0 {
        path.subrange(d + 1, path.len() as int)
    } else {
        path
    }
}

/// `dir` and `name` joined with a separator.
pub open spec fn joined(dir: Seq<char>, name: Seq<char>) -> Seq<char> {
    dir + "/"@ + name
}

/// The path a source named `name` is read from.
pub open spec fn source_path_spec(name: Seq<char>) -> Seq<char> {
    joined(input_dir(), name)
}

/// The path the conversion of a source named `name` is written to: the same
/// stem under the output directory, with the target extension.
pub open spec fn output_path_spec(name: Seq<char>) -> Seq<char> {
    joined(output_dir(), stem_of(name) + "."@ + target_ext())
}

/// Extracts the extension of a file name, as `extension_of` describes.
pub fn extension_of_name<'a>(name: &'a str) -> (r: Option<&'a str>)
    ensures
        match r {
            Some(e) => extension_of(name@) == Some(e@),
            None => extension_of(name@) is None,
        },
{
    let len = name.unicode_len();
    match crate::text::rfind_char(name, '.') {
        Some(d) => {
            proof {
                lemma_last_index_of(name@, '.');
            }
            if d > 0 {
                Some(name.substring_char(d + 1, len))
            } else {
                None
            }
        },
        None => None,
    }
}

/// Extracts the stem of a file name, as `stem_of` describes.
pub fn stem_of_name<'a>(name: &'a str) -> (r: &'a str)
    ensures
        r@ == stem_of(name@),
{
    match crate::text::rfind_char(name, '.') {
        Some(d) => {
            if d > 0 {
                proof {
                    lemma_last_index_of(name@, '.');
                }
                name.substring_char(0, d)
            } else {
                name
            }
        },
        None => name,
    }
}

/// Extracts the file-name component of a path, as `file_name_in` describes.
pub fn file_name_of<'a>(path: &'a str) -> (r: &'a str)
    ensures
        r@ == file_name_in(path@),
{
    let len = path.unicode_len();
    match crate::text::rfind_char(path, '/') {
        Some(d) => {
            proof {
                lemma_last_index_of(path@, '/');
            }
            path.substring_char(d + 1, len)
        },
        None => path,
    }
}

/// Joins a directory and a file name with a separator.
pub fn join_path(dir: &str, name: &str) -> (r: String)
    ensures
        r@ == joined(dir@, name@),
{
    String::from_str(dir).concat("/").concat(name)
}

/// Derives the output path for a source named `name`, as `output_path_spec`
/// describes.
pub fn output_path_for(name: &str) -> (r: String)
    ensures
        r@ == output_path_spec(name@),
{
    let stem = stem_of_name(name);
    String::from_str("mp4").concat("/").concat(stem).concat(".").concat("mp4")
}

} // verus!
