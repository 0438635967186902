use vstd::prelude::*;
use crate::text::{rotated_file_name, rotated_name};

verus! {

/// What `std::path::Path::file_stem` gives for `path`, as text.
pub uninterp spec fn file_stem_of(path: Seq<char>) -> Option<Seq<char>>;

/// What `std::path::Path::extension` gives for `path`, as text.
pub uninterp spec fn extension_of(path: Seq<char>) -> Option<Seq<char>>;

/// What `std::path::Path::with_file_name` gives for `path` and `name`, as text.
pub uninterp spec fn with_file_name_of(path: Seq<char>, name: Seq<char>) -> Seq<char>;

/// Calls `Path::file_stem` on `path`: the final component without its
/// extension, if the path has a file name. The result is named, not
/// described; it is UTF-8 since `path` is.
#[verifier::external_body]
fn path_file_stem(path: &str) -> (r: Option<String>)
    ensures
        match r {
            Some(s) => file_stem_of(path@) == Some(s@),
            None => file_stem_of(path@) is None,
        },
{
    match std::path::Path::new(path).file_stem() {
        Some(s) => match s.to_str() {
            Some(t) => Some(t.to_string()),
            None => None,
        },
        None => None,
    }
}

/// Calls `Path::extension` on `path`: what follows the final `.` of the
/// file name, if there is one that does not start the name. The result is
/// named, not described.
#[verifier::external_body]
fn path_extension(path: &str) -> (r: Option<String>)
    ensures
        match r {
            Some(s) => extension_of(path@) == Some(s@),
            None => extension_of(path@) is None,
        },
{
    match std::path::Path::new(path).extension() {
        Some(s) => match s.to_str() {
            Some(t) => Some(t.to_string()),
            None => None,
        },
        None => None,
    }
}

/// Calls `Path::with_file_name`: `path` with its final component replaced
/// by `name` (or with `name` appended where it has none). The result is
/// named, not described; it is UTF-8 since both arguments are.
#[verifier::external_body]
fn path_with_file_name(path: &str, name: &str) -> (r: String)
    ensures
        r@ == with_file_name_of(path@, name@),
{
    std::path::Path::new(path).with_file_name(name).to_string_lossy().into_owned()
}

/// Where the log file at `path` is moved on rotation, given the clock's
/// reading (nanoseconds since the Unix epoch) and the rotation counter:
/// beside it, named `{stem}-{nanos}-{counter}.{ext}`. `None` where the path
/// has no file stem or the clock could not be read; the file is then not
/// moved.
pub open spec fn rotation_target(path: Seq<char>, clock: Option<u128>, counter: usize) -> Option<Seq<char>> {
    match (file_stem_of(path), clock) {
        (Some(stem), Some(nanos)) => Some(
            with_file_name_of(path, rotated_name(stem, extension_of(path), nanos as nat, counter as nat)),
        ),
        _ => None,
    }
}

/// The path the log file at `path` is renamed to on rotation; see
/// `rotation_target`.
pub fn rotated_path(path: &str, clock: Option<u128>, counter: usize) -> (r: Option<String>)
    ensures
        match r {
            Some(p) => rotation_target(path@, clock, counter) == Some(p@),
            None => rotation_target(path@, clock, counter) is None,
        },
{
    let stem = match path_file_stem(path) {
        Some(s) => s,
        None => return None,
    };
    let ext = path_extension(path);
    let nanos = match clock {
        Some(n) => n,
        None => return None,
    };
    let name = match &ext {
        Some(e) => rotated_file_name(stem.as_str(), Some(e.as_str()), nanos, counter),
        None => rotated_file_name(stem.as_str(), None, nanos, counter),
    };
    Some(path_with_file_name(path, name.as_str()))
}

} // verus!
