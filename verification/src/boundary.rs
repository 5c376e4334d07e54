//! The panic boundary: every operation the foreign side can call reports a
//! coarse numeric status, and an internal fault becomes the failure status
//! rather than unwinding past the boundary.

use vstd::prelude::*;

verus! {

/// How a boundary operation ended: it ran to completion with a status of its
/// own, or it faulted and was caught at the boundary.
pub enum BoundaryOutcome {
    Completed(i32),
    Faulted,
}

/// The status reported to the foreign caller.
///
/// A completed operation reports its own status unchanged; a caught fault
/// reports the failure status 1 and nothing else — no fault ever crosses the
/// boundary as anything but that status.  (The functions of this library are
/// themselves proved free of panics; the `Faulted` arm covers faults in the
/// unverified runtime around them.)
pub fn boundary_status(outcome: BoundaryOutcome) -> (r: i32)
    ensures
        outcome matches BoundaryOutcome::Completed(s) ==> r == s,
        outcome is Faulted ==> r == 1,
{
    match outcome {
        BoundaryOutcome::Completed(s) => s,
        BoundaryOutcome::Faulted => 1,
    }
}

} // verus!
