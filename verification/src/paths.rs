//! Paths as text. File name, parent, join and equality are those of
//! `std::path`, each behind a trusted function; the extension of a file name
//! is computed here.

use crate::text::opt_view;
use std::path::Path;
use vstd::prelude::*;
use vstd::string::*;

verus! {

/// The final component of `path`, as `std::path::Path::file_name` reads it on
/// the platform the crate is built for; `None` where the path has none.
pub uninterp spec fn file_name_of(path: Seq<char>) -> Option<Seq<char>>;

/// The directory that holds `path`, as `std::path::Path::parent` reads it;
/// `None` where the path is a root or empty.
pub uninterp spec fn parent_of(path: Seq<char>) -> Option<Seq<char>>;

/// `base` extended by `name`, as `std::path::Path::join` builds it.
pub uninterp spec fn joined(base: Seq<char>, name: Seq<char>) -> Seq<char>;

/// Whether `std::path::Path` equality holds of the two paths.
pub uninterp spec fn same_path(a: Seq<char>, b: Seq<char>) -> bool;

/// Calls `std::path::Path::file_name`. Trusted: the result is a function of
/// the path's text alone, named `file_name_of`.
#[verifier::external_body]
pub(crate) fn path_file_name(path: &str) -> (name: Option<String>)
    ensures
        opt_view(name) == file_name_of(path@),
{
    Path::new(path).file_name().map(|n| n.to_string_lossy().into_owned())
}

/// Calls `std::path::Path::parent`. Trusted: the result is a function of the
/// path's text alone, named `parent_of`.
#[verifier::external_body]
pub(crate) fn path_parent(path: &str) -> (parent: Option<String>)
    ensures
        opt_view(parent) == parent_of(path@),
{
    Path::new(path).parent().map(|p| p.to_string_lossy().into_owned())
}

/// Calls `std::path::Path::join`. Trusted: the result is a function of the
/// two texts alone, named `joined`.
#[verifier::external_body]
pub(crate) fn path_join(base: &str, name: &str) -> (path: String)
    ensures
        path@ == joined(base@, name@),
{
    Path::new(base).join(name).to_string_lossy().into_owned()
}

/// Compares two paths with `std::path::Path`'s `==`. Trusted: the result is
/// a function of the two texts alone, named `same_path`.
#[verifier::external_body]
pub(crate) fn path_eq(a: &str, b: &str) -> (same: bool)
    ensures
        same == same_path(a@, b@),
{
    Path::new(a) == Path::new(b)
}

/// The position of the last `.` in `name`, or -1 where it holds none.
pub open spec fn last_dot(name: Seq<char>) -> int
    decreases name.len(),
{
    if name.len() == 0 {
        -1
    } else if name.last() == '.' {
        name.len() - 1
    } else {
        last_dot(name.drop_last())
    }
}

/// The extension of a file name: what follows its last `.`, unless the name
/// has no `.` or its only `.` is the first character.
pub open spec fn extension_in(name: Seq<char>) -> Option<Seq<char>> {
    let dot = last_dot(name);
    if dot <= 0 {
        None
    } else {
        Some(name.subrange(dot + 1, name.len() as int))
    }
}

/// The extension of a path: that of its file name, where it has one.
pub open spec fn extension_of(path: Seq<char>) -> Option<Seq<char>> {
    match file_name_of(path) {
        Some(name) => extension_in(name),
        None => None,
    }
}

/// `last_dot` is a position of a `.` and no `.` follows it.
pub proof fn lemma_last_dot(name: Seq<char>)
    ensures
        -1 <= last_dot(name) < name.len(),
        last_dot(name) >= 0 ==> name[last_dot(name)] == '.',
        forall|i: int| last_dot(name) < i < name.len() ==> name[i] != '.',
    decreases name.len(),
{
    if name.len() > 0 && name.last() != '.' {
        let front = name.drop_last();
        lemma_last_dot(front);
        assert forall|i: int| last_dot(name) < i < name.len() implies name[i] != '.' by {
            if i < front.len() {
                assert(front[i] == name[i]);
            }
        }
    }
}

/// The extension of a file name (see `extension_in`).
pub fn name_extension(name: &str) -> (ext: Option<String>)
    ensures
        opt_view(ext) == extension_in(name@),
{
    let len: usize = name.unicode_len();
    let mut i: usize = len;
    while i > 0
        invariant
            i <= len,
            len == name@.len(),
            forall|j: int| i <= j < len ==> name@[j] != '.',
        decreases i,
    {
        i = i - 1;
        if name.get_char(i) == '.' {
            proof {
                lemma_last_dot(name@);
            }
            if i == 0 {
                return None;
            }
            let tail = name.substring_char(i + 1, len);
            return Some(tail.to_owned());
        }
    }
    proof {
        lemma_last_dot(name@);
    }
    None
}

/// The extension of a path, by `Path::file_name` and `extension_in`.
pub fn path_extension(path: &str) -> (ext: Option<String>)
    ensures
        opt_view(ext) == extension_of(path@),
{
    match path_file_name(path) {
        Some(name) => name_extension(name.as_str()),
        None => None,
    }
}

} // verus!
