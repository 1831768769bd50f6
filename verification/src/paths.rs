//! File-system paths, carried as `PathBuf` and described by the bytes they
//! hold. What the standard library computes from a path is called here and
//! given a name; nothing in this module touches the file system.

use std::path::PathBuf;
use vstd::prelude::*;

verus! {

/// `std::path::PathBuf`, carried through as it is. Nothing is known of a
/// path but what the functions below say of the bytes it holds.
#[verifier::external_type_specification]
#[verifier::external_body]
pub struct ExPathBuf(PathBuf);

/// The bytes that a path holds.
pub uninterp spec fn path_text(p: PathBuf) -> Seq<u8>;

/// What `Path::parent` makes of a path with these bytes: the bytes of the
/// path without its final component, if there is one.
pub uninterp spec fn parent_text(text: Seq<u8>) -> Option<Seq<u8>>;

/// What `Path::join` makes of a path with these bytes and a fragment.
pub uninterp spec fn joined_text(base: Seq<u8>, fragment: Seq<char>) -> Seq<u8>;

/// What `Path::has_root` says of a path with these bytes.
pub uninterp spec fn rooted_text(text: Seq<u8>) -> bool;

/// What `Path::to_string_lossy` makes of a path with these bytes: whether
/// the bytes are valid UTF-8 and so were taken as they are, and the text.
pub uninterp spec fn lossy_text(text: Seq<u8>) -> (bool, Seq<char>);

/// A path as text.
#[derive(Clone, Debug, PartialEq, Eq)]
pub enum PathName {
    /// The path is valid UTF-8; this is its text.
    Exact(String),
    /// The path is not valid UTF-8; this is its text with each invalid
    /// sequence replaced by U+FFFD.
    Lossy(String),
}

impl PathName {
    /// Whether the text is the path as it is, and the text.
    pub open spec fn parts(self) -> (bool, Seq<char>) {
        match self {
            PathName::Exact(text) => (true, text@),
            PathName::Lossy(text) => (false, text@),
        }
    }
}

/// The texts of a list of paths, in order.
pub open spec fn path_texts(paths: Seq<PathBuf>) -> Seq<Seq<u8>> {
    Seq::new(paths.len(), |i: int| path_text(paths[i]))
}

/// `PathBuf::clone`: the copy holds the same bytes.
pub assume_specification[ <PathBuf as Clone>::clone ](p: &PathBuf) -> (copy: PathBuf)
    ensures
        path_text(copy) == path_text(*p),
;

/// `Path::parent`: the path without its final component, or `None` where the
/// path ends in a root or is empty. The result depends on the bytes of the
/// path alone, and a parent is shorter than the path it was taken from.
#[verifier::external_body]
pub(crate) fn parent_of(p: &PathBuf) -> (parent: Option<PathBuf>)
    ensures
        match parent {
            Some(q) => parent_text(path_text(*p)) == Some(path_text(q)) && path_text(q).len()
                < path_text(*p).len(),
            None => parent_text(path_text(*p)) is None,
        },
{
    match p.parent() {
        Some(q) => Some(q.to_path_buf()),
        None => None,
    }
}

/// `Path::join`: the path extended by `fragment`. The result depends on the
/// bytes of the path and on the fragment alone.
#[verifier::external_body]
pub(crate) fn join_path(base: &PathBuf, fragment: &str) -> (joined: PathBuf)
    ensures
        path_text(joined) == joined_text(path_text(*base), fragment@),
{
    base.join(fragment)
}

/// `Path::has_root`: whether the path begins at a root. The result depends
/// on the bytes of the path alone.
#[verifier::external_body]
pub(crate) fn has_root(p: &PathBuf) -> (rooted: bool)
    ensures
        rooted == rooted_text(path_text(*p)),
{
    p.has_root()
}

/// `Path::to_string_lossy`: the path as text, borrowed as it is where it is
/// valid UTF-8 and else owned, with replacement characters. The result
/// depends on the bytes of the path alone.
#[verifier::external_body]
pub(crate) fn lossy_name(p: &PathBuf) -> (name: PathName)
    ensures
        name.parts() == lossy_text(path_text(*p)),
{
    match p.to_string_lossy() {
        std::borrow::Cow::Borrowed(text) => PathName::Exact(text.to_owned()),
        std::borrow::Cow::Owned(text) => PathName::Lossy(text),
    }
}

} // verus!
