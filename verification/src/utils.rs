//! Paths: the stem of a file's name.

use vstd::prelude::*;

verus! {

/// The final component of `path` as `std::path::Path::file_name` gives it:
/// `None` where the path has no final component or ends in `..`.
pub uninterp spec fn path_file_name(path: Seq<char>) -> Option<Seq<char>>;

/// The position of the last `.` in `name`; -1 where it holds none.
pub open spec fn last_dot(name: Seq<char>) -> int
    decreases name.len(),
{
    if name.len() == 0 {
        -1
    } else if name.last() == '.' {
        name.len() - 1
    } else {
        last_dot(name.drop_last())
    }
}

/// The stem of a file name: the whole name where it holds no `.` or only a
/// leading one, else what stands before its last `.`.
pub open spec fn stem_of(name: Seq<char>) -> Seq<char> {
    if last_dot(name) <= 0 {
        name
    } else {
        name.subrange(0, last_dot(name))
    }
}

/// The stem of the file that `path` names; empty where it names none.
pub open spec fn file_stem_of(path: Seq<char>) -> Seq<char> {
    match path_file_name(path) {
        Some(name) => stem_of(name),
        None => Seq::empty(),
    }
}

/// Calls `std::path::Path::file_stem`. Not proved: that it is `None` exactly
/// where the path has no file name, and else the stem of that file name, which
/// is the whole name where it holds no `.` or only a leading one and what
/// stands before the last `.` otherwise.
#[verifier::external_body]
fn path_file_stem(path: &str) -> (stem: Option<String>)
    ensures
        match stem {
            Some(text) => path_file_name(path@) is Some && text@ == stem_of(
                path_file_name(path@)->Some_0,
            ),
            None => path_file_name(path@) is None,
        },
{
    std::path::Path::new(path).file_stem().and_then(|stem| stem.to_str()).map(
        |stem| stem.to_owned(),
    )
}

/// The stem that was found, or the empty string where none was.
pub fn stem_or_empty(stem: Option<String>) -> (text: String)
    ensures
        text@ == (match stem {
            Some(found) => found@,
            None => Seq::<char>::empty(),
        }),
{
    match stem {
        Some(found) => found,
        None => String::new(),
    }
}

/// The name of the file at `path` without its extension; empty where the
/// path names no file.
pub fn get_file_stem(path: &str) -> (stem: String)
    ensures
        stem@ == file_stem_of(path@),
{
    stem_or_empty(path_file_stem(path))
}

} // verus!
