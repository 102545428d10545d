//! Project-root discovery: walk upward from the working directory until a
//! directory contains the root marker (a `.git` entry).
//!
//! The filesystem itself is probed by the surrounding binary; the library
//! decides. `locate_step` is the per-directory decision that drives the
//! upward walk, and `locate_root` is the whole search over a recorded
//! sequence of probe outcomes: it returns the distance to the nearest marked
//! ancestor, or nothing when no directory on the way to the filesystem root
//! is marked. Directory parenthood is acyclic, so the walk needs no cycle
//! detection and terminates within the depth of the hierarchy.

use vstd::prelude::*;

verus! {

/// What to do at one directory during the upward walk.
#[derive(Clone, Copy, Debug, PartialEq, Eq, Structural)]
pub enum LocateDecision {
    /// The marker is here: this directory is the project root.
    Accept,
    /// No marker here: move to the parent directory and look again.
    Ascend,
    /// No marker here and no parent left: the search has failed.
    GiveUp,
}

/// Decide the next move of the upward walk, given whether the marker exists
/// directly inside the current directory and whether that directory has a
/// parent to move to.
pub fn locate_step(marker_present: bool, has_parent: bool) -> (d: LocateDecision)
    ensures
        d == (if marker_present {
            LocateDecision::Accept
        } else if has_parent {
            LocateDecision::Ascend
        } else {
            LocateDecision::GiveUp
        }),
{
    if marker_present {
        LocateDecision::Accept
    } else if has_parent {
        LocateDecision::Ascend
    } else {
        LocateDecision::GiveUp
    }
}

/// The whole upward search, over the marker probes along the ancestor chain.
///
/// `marker_at[i]` records whether the directory `i` levels above the starting
/// point (index 0 is the starting point itself, the last index a filesystem
/// root) contains the marker. The result is the number of upward steps to the
/// nearest marked ancestor: `Some(d)` exactly when depth `d` is marked and no
/// depth below it is, and `None` exactly when no ancestor is marked at all.
pub fn locate_root(marker_at: &Vec<bool>) -> (r: Option<usize>)
    ensures
        match r {
            Some(d) => d < marker_at@.len() && marker_at@[d as int] && (forall|j: int|
                0 <= j < d ==> !marker_at@[j]),
            None => forall|j: int| 0 <= j < marker_at@.len() ==> !marker_at@[j],
        },
{
    let mut d: usize = 0;
    while d < marker_at.len()
        invariant
            d <= marker_at@.len(),
            forall|j: int| 0 <= j < d ==> !marker_at@[j],
        decreases marker_at@.len() - d,
    {
        if marker_at[d] {
            return Some(d);
        }
        d = d + 1;
    }
    None
}

} // verus!
