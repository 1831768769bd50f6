//! The upward search itself: which directories are searched, in which order,
//! for what, and which findings are shown.

use super::error::{Error, ErrorView};
use crate::paths::{
    has_root, join_path, joined_text, lossy_name, lossy_text, parent_of, parent_text,
    path_text, path_texts, rooted_text, PathName,
};
use crate::text::{chars_of, push_text};
use std::path::PathBuf;
use vstd::prelude::*;

verus! {

/// `find-upwards` is a breadth-first, upwards finding utility, built to
/// quickly find a specific object in the given directory's parent tree.
#[derive(Clone, Debug)]
pub struct Command {
    /// Name of the object to search for.
    pub target: String,
    /// Maximum depth to traverse upward during the search. Without it the
    /// search goes all the way up the parent tree.
    pub max_depth: Option<i32>,
    /// Directory to begin the search in.
    pub source_dir: Option<PathBuf>,
    /// Return all matching paths instead of only the first.
    pub all: bool,
}

/// A directory and all its ancestors, nearest first, as the texts of their
/// paths.
pub open spec fn ancestors(text: Seq<u8>) -> Seq<Seq<u8>>
    decreases text.len(),
{
    match parent_text(text) {
        Some(parent) if parent.len() < text.len() => seq![text] + ancestors(parent),
        _ => seq![text],
    }
}

/// How many of `len` directories a search of the given depth looks into:
/// all of them without a depth or with a depth below zero, else as many as
/// the depth says, and never more than there are.
pub open spec fn depth_limit(len: nat, max_depth: Option<i32>) -> nat {
    match max_depth {
        Some(depth) if 0 <= depth && depth < len => depth as nat,
        _ => len,
    }
}

/// The directories that a search from `text` looks into, nearest first.
pub open spec fn search_path_texts(text: Seq<u8>, max_depth: Option<i32>) -> Seq<Seq<u8>> {
    ancestors(text).take(depth_limit(ancestors(text).len(), max_depth) as int)
}

/// What is reported for a source directory that does not exist.
pub open spec fn missing_source(name: (bool, Seq<char>)) -> ErrorView {
    if name.0 {
        ErrorView::InternalError { description: "expected an owned value for `source_name`"@ }
    } else {
        ErrorView::PathDoesNotExist { name: name.1 }
    }
}

/// Whether a source directory has to be made canonical before the search: it
/// has to where it does not begin at a root.
pub fn needs_canonical_form(source_dir: &PathBuf) -> (needed: bool)
    ensures
        needed == !rooted_text(path_text(*source_dir)),
{
    !has_root(source_dir)
}

/// The error for a source directory that does not exist, from its name.
pub fn error_for_missing(name: PathName) -> (e: Error)
    ensures
        e@ == missing_source(name.parts()),
{
    match name {
        PathName::Exact(_) => {
            let mut description = String::new();
            push_text(&mut description, "expected an owned value for `source_name`");
            Error::InternalError { description }
        },
        PathName::Lossy(text) => Error::PathDoesNotExist { name: text },
    }
}

/// The error for a source directory that does not exist.
pub fn missing_source_error(source_dir: &PathBuf) -> (e: Error)
    ensures
        e@ == missing_source(lossy_text(path_text(*source_dir))),
{
    error_for_missing(lossy_name(source_dir))
}

/// The nearest directories of a list that is ordered nearest first: all of
/// them without a depth or with a depth below zero, else the first `depth`.
pub fn nearest(paths: Vec<PathBuf>, max_depth: Option<i32>) -> (kept: Vec<PathBuf>)
    ensures
        kept@ == paths@.take(depth_limit(paths@.len(), max_depth) as int),
{
    match max_depth {
        Some(depth) => {
            if depth < 0 || depth as usize >= paths.len() {
                assert(paths@.take(paths@.len() as int) == paths@);
                paths
            } else {
                let mut kept = paths;
                kept.truncate(depth as usize);
                kept
            }
        },
        None => {
            assert(paths@.take(paths@.len() as int) == paths@);
            paths
        },
    }
}

/// The directories to search: `source_dir`, then its parent, and so on up to
/// the root, cut down to the nearest `max_depth` where a depth is given.
pub fn build_search_paths(source_dir: &PathBuf, max_depth: Option<i32>) -> (search_paths: Vec<
    PathBuf,
>)
    ensures
        path_texts(search_paths@) == search_path_texts(path_text(*source_dir), max_depth),
{
    let mut search_paths: Vec<PathBuf> = Vec::new();
    search_paths.push(source_dir.clone());
    let mut parent = parent_of(source_dir);
    let ghost start = path_text(*source_dir);
    let ghost mut last = start;
    proof {
        assert(path_texts(search_paths@) == seq![start]);
        assert(seq![start].drop_last() == Seq::<Seq<u8>>::empty());
    }
    loop
        invariant
            search_paths@.len() > 0,
            last == path_text(search_paths@.last()),
            ancestors(start) == path_texts(search_paths@).drop_last() + ancestors(last),
            match parent {
                Some(q) => parent_text(last) == Some(path_text(q)) && path_text(q).len()
                    < last.len(),
                None => parent_text(last) is None,
            },
        ensures
            path_texts(search_paths@) == ancestors(start),
        decreases
            match parent {
                Some(q) => path_text(q).len() + 1,
                None => 0,
            },
    {
        match parent {
            Some(path) => {
                let next = parent_of(&path);
                proof {
                    let before = path_texts(search_paths@);
                    let after = path_texts(search_paths@.push(path));
                    assert(after.drop_last() == before);
                    assert(before == before.drop_last() + seq![last]);
                    assert(ancestors(last) == seq![last] + ancestors(path_text(path)));
                    last = path_text(path);
                }
                search_paths.push(path);
                parent = next;
            },
            None => {
                proof {
                    let all = path_texts(search_paths@);
                    assert(ancestors(last) == seq![last]);
                    assert(all == all.drop_last() + seq![last]);
                }
                break;
            },
        }
    }
    let kept = nearest(search_paths, max_depth);
    proof {
        let limit = depth_limit(search_paths@.len(), max_depth) as int;
        assert(path_texts(search_paths@).len() == search_paths@.len());
        assert(path_texts(kept@) == path_texts(search_paths@).take(limit));
    }
    kept
}

impl Command {
    /// Makes sure that the target is a relative fragment.
    pub fn check_target(&self) -> (r: Result<(), Error>)
        ensures
            match r {
                Ok(_) => !self.target_is_absolute(),
                Err(e) => self.target_is_absolute() && e@ == (ErrorView::TargetIsAbsolute {
                    name: self.target@,
                }),
            },
    {
        let chars = chars_of(self.target.as_str());
        if chars.len() > 0 && chars[0] == '/' {
            Err(Error::TargetIsAbsolute { name: self.target.clone() })
        } else {
            Ok(())
        }
    }

    /// Whether the target begins with a `/`.
    pub open spec fn target_is_absolute(&self) -> bool {
        self.target@.len() > 0 && self.target@[0] == '/'
    }

    /// The places where the target could be: the target joined to each of
    /// the directories, in their order.
    pub fn candidates(&self, search_paths: &Vec<PathBuf>) -> (found: Vec<PathBuf>)
        ensures
            found@.len() == search_paths@.len(),
            forall|i: int|
                0 <= i < found@.len() ==> path_text(#[trigger] found@[i]) == joined_text(
                    path_text(search_paths@[i]),
                    self.target@,
                ),
    {
        let mut found: Vec<PathBuf> = Vec::new();
        let mut i: usize = 0;
        while i < search_paths.len()
            invariant
                i <= search_paths@.len(),
                found@.len() == i,
                forall|k: int|
                    0 <= k < i ==> path_text(#[trigger] found@[k]) == joined_text(
                        path_text(search_paths@[k]),
                        self.target@,
                    ),
            decreases search_paths@.len() - i,
        {
            found.push(join_path(&search_paths[i], self.target.as_str()));
            i += 1;
        }
        found
    }

    /// Why nothing is searched, if so: the source directory does not exist,
    /// or else the target is absolute.
    pub open spec fn refusal(&self, source: Seq<u8>, exists: bool) -> Option<ErrorView> {
        if !exists {
            Some(missing_source(lossy_text(source)))
        } else if self.target_is_absolute() {
            Some(ErrorView::TargetIsAbsolute { name: self.target@ })
        } else {
            None
        }
    }

    /// What is searched, once the source directory is known and it is known
    /// whether it exists: the candidates in the order of the search; or the
    /// error for a source directory that does not exist; or, where it
    /// exists, the error for an absolute target.
    pub fn plan(&self, source_dir: &PathBuf, exists: bool) -> (r: Result<Vec<PathBuf>, Error>)
        ensures
            match r {
                Ok(found) => {
                    &&& self.refusal(path_text(*source_dir), exists) is None
                    &&& found@.len() == search_path_texts(
                        path_text(*source_dir),
                        self.max_depth,
                    ).len()
                    &&& forall|i: int|
                        0 <= i < found@.len() ==> path_text(#[trigger] found@[i]) == joined_text(
                            search_path_texts(path_text(*source_dir), self.max_depth)[i],
                            self.target@,
                        )
                },
                Err(e) => self.refusal(path_text(*source_dir), exists) == Some(e@),
            },
    {
        if !exists {
            return Err(missing_source_error(source_dir));
        }
        match self.check_target() {
            Err(e) => Err(e),
            Ok(()) => {
                let search_paths = build_search_paths(source_dir, self.max_depth);
                let found = self.candidates(&search_paths);
                proof {
                    let texts = search_path_texts(path_text(*source_dir), self.max_depth);
                    assert(path_texts(search_paths@).len() == search_paths@.len());
                    assert forall|i: int| 0 <= i < found@.len() implies path_text(
                        #[trigger] found@[i],
                    ) == joined_text(texts[i], self.target@) by {
                        assert(path_texts(search_paths@)[i] == path_text(search_paths@[i]));
                    }
                }
                Ok(found)
            },
        }
    }
}

/// The findings that are shown: all of them where all are asked for, else
/// the first one only.
pub fn paths_to_show(paths: Vec<PathBuf>, all: bool) -> (shown: Vec<PathBuf>)
    ensures
        all ==> shown@ == paths@,
        !all ==> shown@ == paths@.take(
            if paths@.len() > 0 {
                1int
            } else {
                0int
            },
        ),
{
    if all || paths.len() == 0 {
        assert(paths@.take(0) == Seq::<PathBuf>::empty());
        assert(paths@.len() == 0 ==> paths@ == paths@.take(0));
        paths
    } else {
        let mut shown = paths;
        shown.truncate(1);
        shown
    }
}

} // verus!
