//! Decomposing a video path into parent directory, file stem and extension,
//! and joining a parent directory with a file name.
//!
//! The decomposition is best-effort and never fails: a path without a
//! separator has an empty parent, a path ending in a separator has an empty
//! stem, and a name without an extension separator (or with a dot only in
//! first position, a hidden file) has an empty extension.

use vstd::prelude::*;
use crate::text::{last_occurrence, lemma_last_occurrence, rfind_char, join3};

verus! {

/// The position where the file name begins: right after the last separator,
/// or the start of the path when there is no separator.
pub open spec fn name_start(p: Seq<char>) -> int {
    match last_occurrence(p, '/') {
        Some(i) => i + 1,
        None => 0,
    }
}

/// The file-name part of `p`: everything after the last separator.
pub open spec fn file_name_of(p: Seq<char>) -> Seq<char> {
    p.subrange(name_start(p), p.len() as int)
}

/// The parent-directory part of `p`: everything before the last separator,
/// the lone separator itself for a file directly under the root, and empty
/// when there is no separator at all.
pub open spec fn parent_of(p: Seq<char>) -> Seq<char> {
    match last_occurrence(p, '/') {
        None => Seq::empty(),
        Some(i) => if i == 0 {
            p.subrange(0, 1)
        } else {
            p.subrange(0, i)
        },
    }
}

/// The file stem of `p`: the file name up to its last dot, where a dot in
/// first position does not count as an extension separator.
pub open spec fn stem_of(p: Seq<char>) -> Seq<char> {
    let n = file_name_of(p);
    match last_occurrence(n, '.') {
        Some(i) => if i > 0 {
            n.subrange(0, i)
        } else {
            n
        },
        None => n,
    }
}

/// The extension of `p`: the file name after its last dot, empty when the
/// name has no dot past its first position.
pub open spec fn ext_of(p: Seq<char>) -> Seq<char> {
    let n = file_name_of(p);
    match last_occurrence(n, '.') {
        Some(i) => if i > 0 {
            n.subrange(i + 1, n.len() as int)
        } else {
            Seq::empty()
        },
        None => Seq::empty(),
    }
}

/// A parent directory joined with a file name: the two glued with one
/// separator, none added after an empty or separator-ending parent.
pub open spec fn joined(parent: Seq<char>, name: Seq<char>) -> Seq<char> {
    if parent.len() == 0 {
        name
    } else if parent[parent.len() - 1] == '/' {
        parent + name
    } else {
        parent + "/"@ + name
    }
}

/// The decomposition of one video path, computed once per invocation.
pub struct ResolvedPaths {
    pub parent: String,
    pub stem: String,
    pub ext: String,
}

/// Decomposes `video_path` into parent directory, stem and extension.
pub fn resolve_paths(video_path: &str) -> (r: ResolvedPaths)
    ensures
        r.parent@ == parent_of(video_path@),
        r.stem@ == stem_of(video_path@),
        r.ext@ == ext_of(video_path@),
{
    proof {
        lemma_last_occurrence(video_path@, '/');
    }
    let n = video_path.unicode_len();
    let name_from: usize;
    let parent: String;
    match rfind_char(video_path, '/') {
        Some(i) => {
            name_from = i + 1;
            if i == 0 {
                parent = video_path.substring_char(0, 1).to_owned();
            } else {
                parent = video_path.substring_char(0, i).to_owned();
            }
        },
        None => {
            name_from = 0;
            parent = String::new();
        },
    }
    let name = video_path.substring_char(name_from, n);
    proof {
        lemma_last_occurrence(name@, '.');
    }
    let m = name.unicode_len();
    let stem: String;
    let ext: String;
    match rfind_char(name, '.') {
        Some(j) => {
            if j > 0 {
                stem = name.substring_char(0, j).to_owned();
                ext = name.substring_char(j + 1, m).to_owned();
            } else {
                stem = name.to_owned();
                ext = String::new();
            }
        },
        None => {
            stem = name.to_owned();
            ext = String::new();
        },
    }
    ResolvedPaths { parent, stem, ext }
}

/// Joins a parent directory and a file name into one path.
pub fn join_path(parent: &str, name: &str) -> (r: String)
    ensures
        r@ == joined(parent@, name@),
{
    let n = parent.unicode_len();
    if n == 0 {
        name.to_owned()
    } else if parent.get_char(n - 1) == '/' {
        parent.to_owned().concat(name)
    } else {
        join3(parent, "/", name)
    }
}

} // verus!
