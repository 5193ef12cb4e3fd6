//! The rules of a sandbox: which paths stay inside it, which kind of link
//! joins two of its paths, and which variables a scrub of the environment
//! removes.
//!
//! The sandbox itself, a temporary directory, belongs to the caller. The
//! caller splits a path into segments, asks the file system and the
//! environment, and acts on what these rules answer.

use crate::bytes::starts_with;
use crate::failure::{outcome, Failure, FailureModel};
use crate::text::lemma_encoding_keeps_prefixes;
use vstd::prelude::*;

verus! {

/// One segment of a path, as far as staying inside a directory goes.
#[derive(Clone, Copy, Debug, PartialEq, Eq, Structural)]
pub enum Segment {
    /// A root or a drive prefix: what follows starts anew, outside.
    Root,
    /// `.`: the directory itself.
    Current,
    /// `..`: the parent of the directory.
    Parent,
    /// The name of a file or directory.
    Name,
}

/// How far a segment moves down from the directory it is taken in.
pub open spec fn step(segment: Segment) -> int {
    match segment {
        Segment::Name => 1,
        Segment::Parent => -1,
        _ => 0,
    }
}

/// How far below its starting directory a path ends.
pub open spec fn depth(path: Seq<Segment>) -> int
    decreases path.len(),
{
    if path.len() == 0 {
        0
    } else {
        depth(path.drop_last()) + step(path.last())
    }
}

/// Whether a path, taken relative to a directory, stays inside it: it has
/// no root, and at no point has it climbed above the directory.
pub open spec fn confined(path: Seq<Segment>) -> bool {
    &&& forall|i: int| 0 <= i < path.len() ==> path[i] != Segment::Root
    &&& forall|k: int| 0 <= k <= path.len() ==> depth(#[trigger] path.take(k)) >= 0
}

/// Tells whether a path stays inside the directory it is relative to.
pub fn is_confined(path: &[Segment]) -> (inside: bool)
    ensures
        inside == confined(path@),
{
    let mut below: usize = 0;
    let mut i: usize = 0;
    while i < path.len()
        invariant
            i <= path.len(),
            below == depth(path@.take(i as int)),
            below <= i,
            confined(path@.take(i as int)),
        decreases path.len() - i,
    {
        let ghost next = path@.take(i + 1);
        proof {
            assert(next.drop_last() =~= path@.take(i as int));
            assert(next.last() == path@[i as int]);
        }
        match path[i] {
            Segment::Root => {
                return false;
            },
            Segment::Parent => {
                if below == 0 {
                    assert(depth(next) < 0);
                    return false;
                }
                below -= 1;
            },
            Segment::Name => {
                below += 1;
            },
            Segment::Current => {},
        }
        proof {
            assert forall|k: int| 0 <= k <= next.len() implies depth(#[trigger] next.take(k))
                >= 0 by {
                if k <= i {
                    assert(next.take(k) =~= path@.take(i as int).take(k));
                } else {
                    assert(next.take(k) =~= next);
                }
            }
        }
        i += 1;
    }
    assert(path@.take(i as int) =~= path@);
    true
}

/// The detail of the failure that turns a path away.
pub open spec fn escape_detail() -> Seq<char> {
    "the path leaves the sandbox"@
}

/// The judgement on a path that a caller wants to use inside the sandbox.
pub open spec fn path_verdict(path: Seq<Segment>) -> Result<(), FailureModel> {
    if confined(path) {
        Ok(())
    } else {
        Err(FailureModel::Io { detail: escape_detail() })
    }
}

/// Lets a path pass that stays inside the sandbox, and turns away one that
/// is rooted or climbs out of it.
pub fn admit_path(path: &[Segment]) -> (result: Result<(), Failure>)
    ensures
        outcome(result) == path_verdict(path@),
{
    if is_confined(path) {
        Ok(())
    } else {
        Err(Failure::Io { detail: "the path leaves the sandbox".to_owned() })
    }
}

/// The kind of symbolic link to make.
#[derive(Clone, Copy, Debug, PartialEq, Eq, Structural)]
pub enum LinkKind {
    /// The platform has one kind of link for files and directories.
    Plain,
    /// A link to a file, on a platform that tells the two apart.
    File,
    /// A link to a directory, on a platform that tells the two apart.
    Directory,
}

/// Chooses the kind of link to a source. Where the platform tells file
/// links from directory links, the kind follows what the source is.
pub fn link_kind(platform_tells_apart: bool, source_is_directory: bool) -> (kind: LinkKind)
    ensures
        kind == if !platform_tells_apart {
            LinkKind::Plain
        } else if source_is_directory {
            LinkKind::Directory
        } else {
            LinkKind::File
        },
{
    if !platform_tells_apart {
        LinkKind::Plain
    } else if source_is_directory {
        LinkKind::Directory
    } else {
        LinkKind::File
    }
}

/// The texts of a list of names.
pub open spec fn texts(names: Seq<String>) -> Seq<Seq<char>> {
    names.map_values(|name: String| name@)
}

/// The names among `names` that begin with `prefix`, in their order.
pub open spec fn scrubbed(names: Seq<Seq<char>>, prefix: Seq<char>) -> Seq<Seq<char>> {
    names.filter(|name: Seq<char>| prefix.is_prefix_of(name))
}

/// Tells whether `name` begins with `prefix`.
pub fn has_prefix(name: &str, prefix: &str) -> (found: bool)
    ensures
        found == prefix@.is_prefix_of(name@),
{
    proof {
        lemma_encoding_keeps_prefixes(prefix@, name@);
    }
    starts_with(name.as_bytes(), prefix.as_bytes())
}

/// Picks the variables that a scrub of the environment removes: those of
/// `names` that begin with `prefix`, each as often and in the order in which
/// it was listed.
pub fn variables_to_remove(names: &Vec<String>, prefix: &str) -> (removed: Vec<String>)
    ensures
        texts(removed@) == scrubbed(texts(names@), prefix@),
{
    let ghost keep = |name: Seq<char>| prefix@.is_prefix_of(name);
    let mut removed: Vec<String> = Vec::new();
    let mut i: usize = 0;
    proof {
        reveal(Seq::filter);
        assert(texts(names@).take(0) =~= Seq::<Seq<char>>::empty());
        assert(texts(removed@) =~= Seq::<Seq<char>>::empty());
    }
    while i < names.len()
        invariant
            i <= names.len(),
            keep == |name: Seq<char>| prefix@.is_prefix_of(name),
            texts(removed@) == texts(names@).take(i as int).filter(keep),
        decreases names.len() - i,
    {
        let name = &names[i];
        let ghost before = texts(removed@);
        proof {
            reveal(Seq::filter);
            let next = texts(names@).take(i + 1);
            assert(next.drop_last() =~= texts(names@).take(i as int));
            assert(next.last() == name@);
        }
        if has_prefix(name.as_str(), prefix) {
            removed.push(name.clone());
            assert(texts(removed@) =~= before.push(name@));
        }
        i += 1;
    }
    assert(texts(names@).take(i as int) =~= texts(names@));
    removed
}

} // verus!
