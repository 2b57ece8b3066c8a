//! Probing a local file: what is uploaded under which name, or why nothing is.

use vstd::prelude::*;
use vstd::string::*;

verus! {

/// What the file system reported of a path that could be opened.
#[derive(Clone, Copy, Debug)]
pub struct FileStat {
    /// Whether the path leads to a regular file.
    pub is_file: bool,
    /// The file's length in bytes.
    pub len: u64,
}

/// The final component of a path, as the standard library's path grammar for
/// the platform reads it; `None` where the path has none.
pub uninterp spec fn final_component(path: Seq<char>) -> Option<Seq<char>>;

/// `Path::file_name` of the standard library, on the path that the text
/// spells, with the name as text. Trusted: the result is `final_component` of
/// the path, which is a function of the path alone.
#[verifier::external_body]
fn path_file_name(path: &str) -> (name: Option<String>)
    ensures
        match name {
            Some(n) => final_component(path@) == Some(n@),
            None => final_component(path@) is None,
        },
{
    match std::path::Path::new(path).file_name() {
        Some(name) => match name.to_str() {
            Some(text) => Some(text.to_string()),
            None => None,
        },
        None => None,
    }
}

/// What a probe yields: the name to upload under and the length, if the path
/// could be opened, leads to a regular file and has a final component.
pub open spec fn probe_outcome(name: Option<Seq<char>>, stat: Option<FileStat>) -> Option<
    (Seq<char>, u64),
> {
    match (name, stat) {
        (Some(n), Some(s)) => if s.is_file {
            Some((n, s.len))
        } else {
            None
        },
        _ => None,
    }
}

/// A probe's result, with the name as a sequence of characters.
pub open spec fn found_view(found: Option<(String, u64)>) -> Option<(Seq<char>, u64)> {
    match found {
        Some((name, len)) => Some((name@, len)),
        None => None,
    }
}

/// Decides a probe from the path's final component and from what the file
/// system reported; `stat` is `None` where the path could not be opened.
pub fn probe_found(name: Option<String>, stat: Option<FileStat>) -> (found: Option<(String, u64)>)
    ensures
        found_view(found) == probe_outcome(
            match name {
                Some(n) => Some(n@),
                None => None,
            },
            stat,
        ),
{
    match stat {
        Some(s) => {
            if !s.is_file {
                return None;
            }
            match name {
                Some(n) => Some((n, s.len)),
                None => None,
            }
        },
        None => None,
    }
}

/// Probes `file_path`, given what the file system reported of it; `stat` is
/// `None` where the path could not be opened. On success the file's base name
/// and its length come back.
pub fn file_info(file_path: &str, stat: Option<FileStat>) -> (found: Option<(String, u64)>)
    ensures
        found_view(found) == probe_outcome(final_component(file_path@), stat),
{
    if stat.is_none() {
        return None;
    }
    let name = path_file_name(file_path);
    probe_found(name, stat)
}

} // verus!
