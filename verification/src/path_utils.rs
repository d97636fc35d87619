//! Rules on the path-like strings a user hands in, and on the paths a walk of
//! a source directory yields.

use vstd::prelude::*;
use crate::error::{invalid_input_error, other_error, ErrorKind, StoreError};
use crate::text::{chars_of, contains_char, replace_char, replaced, starts_with, string_of, string_of_range};

verus! {

/// What a walked path leads to.
#[derive(Clone, Copy, Debug, PartialEq, Eq, Structural)]
pub enum PathType {
    File,
    Dir,
}

/// One path that a walk of a directory found.
#[derive(Debug)]
pub struct TempPath {
    pub buf: String,
    pub path_type: PathType,
}

/// A path-like string is accepted when it holds no backslash and does not
/// end with a forward slash.
pub open spec fn is_valid_directory_path(s: Seq<char>) -> bool {
    !s.contains('\\') && !(s.len() > 0 && s.last() == '/')
}

/// The text of a path.
pub fn pathbuf_to_string(path: TempPath) -> (out: String)
    ensures
        out@ == path.buf@,
{
    path.buf
}

/// Accepts a directory argument, or rejects it as `InvalidInput` when it
/// holds a backslash or ends with a forward slash.
pub fn valid_directory_path(directory: &str) -> (out: Result<(), StoreError>)
    ensures
        out is Ok <==> is_valid_directory_path(directory@),
        out matches Err(e) ==> e.kind == ErrorKind::InvalidInput && e.message@
            == "Invalid directory path."@,
{
    let chars = chars_of(directory);
    if contains_char(&chars, '\\') || (chars.len() > 0 && chars[chars.len() - 1] == '/') {
        return Err(invalid_input_error("Invalid directory path."));
    }
    Ok(())
}

/// The prefix that every path found under `directory` carries.
pub open spec fn dir_prefix(directory: Seq<char>) -> Seq<char> {
    directory.push('/')
}

/// Strips `directory` and the slash after it from the front of `path`. A
/// path that does not lie under `directory` is an `Other` failure.
pub fn remove_dir_prefix(path: TempPath, directory: &str) -> (out: Result<TempPath, StoreError>)
    ensures
        out is Ok <==> dir_prefix(directory@).is_prefix_of(path.buf@),
        out matches Ok(p) ==> p.path_type == path.path_type && p.buf@ == path.buf@.subrange(
            dir_prefix(directory@).len() as int,
            path.buf@.len() as int,
        ),
        out matches Err(e) ==> e.kind == ErrorKind::Other,
{
    let mut prefix = chars_of(directory);
    prefix.push('/');
    let chars = chars_of(path.buf.as_str());
    if !starts_with(&chars, &prefix) {
        return Err(other_error("The path does not lie under the directory."));
    }
    let rest = string_of_range(&chars, prefix.len(), chars.len());
    Ok(TempPath { buf: rest, path_type: path.path_type })
}

/// The path with every backslash turned into a forward slash.
pub fn format_path_namespace(path: String) -> (out: String)
    ensures
        out@ == replaced(path@, '\\', '/'),
{
    let chars = chars_of(path.as_str());
    let fixed = replace_char(&chars, '\\', '/');
    string_of(&fixed)
}

} // verus!
