use vstd::prelude::*;

use crate::path::{FsPath, PathModel};

verus! {

/// Why no project root could be determined.
#[derive(PartialEq, Eq, Structural, Clone, Copy, Debug)]
pub enum RootError {
    /// No directory from the start up to the filesystem root holds both markers.
    NotFound,
}

/// The depth of the deepest directory whose mark is set: `marks[d]` tells
/// whether the ancestor `d` names below the anchor holds both marker files.
pub open spec fn nearest_marked(marks: Seq<bool>) -> Option<nat>
    decreases marks.len(),
{
    if marks.len() == 0 {
        None
    } else if marks.last() {
        Some((marks.len() - 1) as nat)
    } else {
        nearest_marked(marks.drop_last())
    }
}

/// The project root seen from `start`: the first directory, walking up from
/// `start`, that holds both marker files.
pub open spec fn resolved_root(start: PathModel, marks: Seq<bool>) -> Option<PathModel> {
    match nearest_marked(marks) {
        Some(d) => Some(start.ancestor(d)),
        None => None,
    }
}

proof fn lemma_nearest_marked_step(marks: Seq<bool>, i: int)
    requires
        0 < i <= marks.len(),
    ensures
        marks[i - 1] ==> nearest_marked(marks.take(i)) == Some((i - 1) as nat),
        !marks[i - 1] ==> nearest_marked(marks.take(i)) == nearest_marked(marks.take(i - 1)),
{
    assert(marks.take(i).drop_last() =~= marks.take(i - 1));
}

proof fn lemma_skip_unmarked(marks: Seq<bool>, i: int, k: int)
    requires
        0 <= k <= i <= marks.len(),
        forall|d: int| k <= d < i ==> !#[trigger] marks[d],
    ensures
        nearest_marked(marks.take(i)) == nearest_marked(marks.take(k)),
    decreases i - k,
{
    if i > k {
        lemma_nearest_marked_step(marks, i);
        lemma_skip_unmarked(marks, i - 1, k);
    }
}

/// Walks up from `start` to the first directory that holds both marker files.
/// `marks[d]` tells whether the ancestor `d` names below the anchor holds them,
/// from the anchor itself (`d == 0`) down to `start`.
pub fn find_project_root(start: &FsPath, marks: &Vec<bool>) -> (r: Result<FsPath, RootError>)
    requires
        marks@.len() == start@.parts.len() + 1,
    ensures
        match r {
            Ok(root) => resolved_root(start@, marks@) == Some(root@),
            Err(e) => e == RootError::NotFound && resolved_root(start@, marks@) is None,
        },
{
    let mut depth: usize = marks.len();
    assert(marks@.take(depth as int) =~= marks@);
    while depth > 0
        invariant
            depth <= marks@.len() == start@.parts.len() + 1,
            nearest_marked(marks@) == nearest_marked(marks@.take(depth as int)),
        decreases depth,
    {
        proof {
            lemma_nearest_marked_step(marks@, depth as int);
        }
        if marks[depth - 1] {
            return Ok(start.ancestor(depth - 1));
        }
        depth = depth - 1;
    }
    assert(marks@.take(0) =~= Seq::<bool>::empty());
    Err(RootError::NotFound)
}

/// Called from any directory inside a project root, with no other directory
/// holding both markers between the two, the resolution gives that root; where
/// no directory on the way up holds both, there is no root.
pub proof fn lemma_root_from_descendant(start: PathModel, root: PathModel, marks: Seq<bool>)
    requires
        marks.len() == start.parts.len() + 1,
        start.is_within(root),
    ensures
        (marks[root.parts.len() as int] && forall|d: int|
            root.parts.len() < d < marks.len() ==> !#[trigger] marks[d]) ==> resolved_root(
            start,
            marks,
        ) == Some(root),
        (forall|d: int| 0 <= d < marks.len() ==> !#[trigger] marks[d]) ==> resolved_root(
            start,
            marks,
        ) is None,
{
    let n = marks.len() as int;
    let k = root.parts.len() as int;
    assert(marks.take(n) =~= marks);
    if marks[k] && forall|d: int| k < d < n ==> !#[trigger] marks[d] {
        lemma_skip_unmarked(marks, n, k + 1);
        lemma_nearest_marked_step(marks, k + 1);
        assert(start.ancestor(k as nat) == root);
    }
    if forall|d: int| 0 <= d < n ==> !#[trigger] marks[d] {
        lemma_skip_unmarked(marks, n, 0);
        assert(marks.take(0) =~= Seq::<bool>::empty());
    }
}

} // verus!
