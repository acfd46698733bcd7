//! Path to string utilities
use vstd::prelude::*;

use crate::game::utility::text::text_result;

verus! {

/// The final component of `path` as `Path::file_name` reports it: `None` when the path ends in
/// `..`, is a root, or is empty
pub uninterp spec fn path_file_name(path: Seq<char>) -> Option<Seq<char>>;

/// `path` without its final component as `Path::parent` reports it: `Some("")` for a relative
/// path of one component, `None` for a root or the empty path
pub uninterp spec fn path_parent(path: Seq<char>) -> Option<Seq<char>>;

/// `Path::file_name` on `path`, as text; the contract names the component without spelling
/// out how `Path` splits components (separators, `.` and `..`).
#[verifier::external_body]
fn file_name_of(path: &str) -> (name: Option<String>)
    ensures
        name is None <==> path_file_name(path@) is None,
        name matches Some(n) ==> path_file_name(path@) == Some(n@),
{
    match std::path::Path::new(path).file_name() {
        Some(name) => match name.to_str() {
            Some(text) => Some(text.to_string()),
            None => None,
        },
        None => None,
    }
}

/// `Path::parent` on `path`, as text; the contract names the parent without spelling out how
/// `Path` splits components.
#[verifier::external_body]
fn parent_of(path: &str) -> (parent: Option<String>)
    ensures
        parent is None <==> path_parent(path@) is None,
        parent matches Some(p) ==> path_parent(path@) == Some(p@),
{
    match std::path::Path::new(path).parent() {
        Some(parent) => match parent.to_str() {
            Some(text) => Some(text.to_string()),
            None => None,
        },
        None => None,
    }
}

/// `relative` joined onto `base` as `Path::join` reports it: `relative` alone when it is
/// absolute, else `relative` appended to `base` after a separator
pub uninterp spec fn path_joined(base: Seq<char>, relative: Seq<char>) -> Seq<char>;

/// `Path::join` of `relative` onto `base`, as text; the contract names the joined path without
/// spelling out where `Path` puts separators.
#[verifier::external_body]
pub(crate) fn join_path(base: &str, relative: &str) -> (joined: String)
    ensures
        joined@ == path_joined(base@, relative@),
{
    std::path::Path::new(base).join(relative).to_string_lossy().into_owned()
}

/// The index of the last `.` in `name`, or -1 when there is none
pub open spec fn last_dot(name: Seq<char>) -> int
    decreases name.len(),
{
    if name.len() == 0 {
        -1
    } else if name.last() == '.' {
        name.len() - 1
    } else {
        last_dot(name.drop_last())
    }
}

/// The stem of a file name as `Path::file_stem` documents it: the whole name when it has no
/// embedded `.` or only a leading one, otherwise the part before the final `.`
pub open spec fn stem_of(name: Seq<char>) -> Seq<char> {
    let dot = last_dot(name);
    if dot <= 0 {
        name
    } else {
        name.take(dot)
    }
}

/// The extension of a file name as `Path::extension` documents it: nothing when the name has no
/// embedded `.` or only a leading one, otherwise the part after the final `.`
pub open spec fn extension_of(name: Seq<char>) -> Option<Seq<char>> {
    let dot = last_dot(name);
    if dot <= 0 {
        None
    } else {
        Some(name.skip(dot + 1))
    }
}

/// `last_dot` is -1 or the index of a `.` with no `.` after it
pub proof fn lemma_last_dot(name: Seq<char>)
    ensures
        -1 <= last_dot(name) < name.len(),
        last_dot(name) >= 0 ==> name[last_dot(name)] == '.',
        forall|i: int| last_dot(name) < i < name.len() ==> name[i] != '.',
    decreases name.len(),
{
    if name.len() > 0 && name.last() != '.' {
        lemma_last_dot(name.drop_last());
        assert forall|i: int| last_dot(name) < i < name.len() implies name[i] != '.' by {
            if i < name.len() - 1 {
                assert(name.drop_last()[i] == name[i]);
            }
        }
    }
}

/// Find the index of the last `.` in `name`
fn find_last_dot(name: &str) -> (dot: Option<usize>)
    ensures
        dot matches Some(i) ==> i == last_dot(name@),
        dot is None <==> last_dot(name@) == -1,
{
    let mut j = name.unicode_len();
    assert(name@.take(j as int) =~= name@);
    while j > 0 && name.get_char(j - 1) != '.'
        invariant
            j <= name@.len(),
            last_dot(name@) == last_dot(name@.take(j as int)),
        decreases j,
    {
        assert(name@.take(j as int).drop_last() =~= name@.take(j - 1));
        j = j - 1;
    }
    if j == 0 {
        None
    } else {
        Some(j - 1)
    }
}

/// The stem of a file name: the whole name when it has no embedded `.` or only a leading one,
/// otherwise the part before the final `.`
pub fn file_stem(name: &str) -> (stem: String)
    ensures
        stem@ == stem_of(name@),
{
    proof {
        lemma_last_dot(name@);
    }
    match find_last_dot(name) {
        Some(dot) if dot > 0 => String::from_str(name.substring_char(0, dot)),
        _ => String::from_str(name),
    }
}

/// The extension of a file name: nothing when it has no embedded `.` or only a leading one,
/// otherwise the part after the final `.`
pub fn file_extension(name: &str) -> (extension: Option<String>)
    ensures
        extension is None <==> extension_of(name@) is None,
        extension matches Some(e) ==> extension_of(name@) == Some(e@),
{
    proof {
        lemma_last_dot(name@);
    }
    match find_last_dot(name) {
        Some(dot) if dot > 0 => {
            let len = name.unicode_len();
            Some(String::from_str(name.substring_char(dot + 1, len)))
        },
        _ => None,
    }
}

/// Get the stem of the file name of `path` as an owning string
pub fn get_filename(path: &str) -> (filename: Result<String, String>)
    ensures
        text_result(filename) == match path_file_name(path@) {
            Some(name) => Ok(stem_of(name)),
            None => Err("Failed to get filename"@),
        },
{
    match file_name_of(path) {
        None => Err(String::from_str("Failed to get filename")),
        Some(name) => Ok(file_stem(name.as_str())),
    }
}

/// Get the extension of `path` as an owning string
pub fn get_extension(path: &str) -> (extension: Result<String, String>)
    ensures
        text_result(extension) == match path_file_name(path@) {
            Some(name) => match extension_of(name) {
                Some(extension) => Ok(extension),
                None => Err("Failed to get extension"@),
            },
            None => Err("Failed to get extension"@),
        },
{
    match file_name_of(path) {
        None => Err(String::from_str("Failed to get extension")),
        Some(name) => match file_extension(name.as_str()) {
            Some(extension) => Ok(extension),
            None => Err(String::from_str("Failed to get extension")),
        },
    }
}

/// Get the basename of `path` as an owning string
pub fn get_basename(path: &str) -> (basename: Result<String, String>)
    ensures
        text_result(basename) == match path_file_name(path@) {
            Some(name) => Ok(name),
            None => Err("Failed to get basename"@),
        },
{
    match file_name_of(path) {
        Some(name) => Ok(name),
        None => Err(String::from_str("Failed to get basename")),
    }
}

/// Get the parent directory of `path` as an owning string
pub fn get_parent(path: &str) -> (parent: Result<String, String>)
    ensures
        text_result(parent) == match path_parent(path@) {
            Some(p) => Ok(p),
            None => Err("Failed to get parent"@),
        },
{
    match parent_of(path) {
        Some(parent) => Ok(parent),
        None => Err(String::from_str("Failed to get parent")),
    }
}

/// Get `path` as an owning string
pub fn get_path(path: &str) -> (text: Result<String, String>)
    ensures
        text_result(text) == Ok::<Seq<char>, Seq<char>>(path@),
{
    Ok(String::from_str(path))
}

/// A file name with an extension is its stem, a `.`, and the extension; without one, the file
/// name is its stem
pub proof fn lemma_stem_dot_extension(name: Seq<char>)
    ensures
        extension_of(name) matches Some(extension) ==> stem_of(name) + "."@ + extension == name,
        extension_of(name) is None ==> stem_of(name) == name,
{
    lemma_last_dot(name);
    reveal_strlit(".");
    let dot = last_dot(name);
    if dot > 0 {
        assert(name.take(dot) + "."@ + name.skip(dot + 1) =~= name);
    }
}

} // verus!
