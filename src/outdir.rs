//! Resetting a channel's output directory: remove it if present, then
//! create it empty. Either failure aborts the reset.

use vstd::prelude::*;

verus! {

/// Which step of the reset failed.
#[derive(Clone, Copy, Debug, PartialEq, Eq, Structural)]
pub enum DirError {
    RemoveFailed,
    CreateFailed,
}

/// The next step of a reset.
#[derive(Clone, Copy, Debug, PartialEq, Eq, Structural)]
pub enum DirStep {
    /// Remove the directory and all it holds.
    Remove,
    /// Create the directory and its missing parents.
    Create,
    /// The directory exists and is empty.
    Ready,
    /// The reset failed; the channel does not start.
    Failed(DirError),
}

/// The first step of a reset.
pub open spec fn first_step(exists: bool) -> DirStep {
    if exists {
        DirStep::Remove
    } else {
        DirStep::Create
    }
}

/// The step that follows `step` once it was carried out.
pub open spec fn following_step(step: DirStep, ok: bool) -> DirStep {
    match (step, ok) {
        (DirStep::Remove, true) => DirStep::Create,
        (DirStep::Remove, false) => DirStep::Failed(DirError::RemoveFailed),
        (DirStep::Create, true) => DirStep::Ready,
        _ => DirStep::Failed(DirError::CreateFailed),
    }
}

/// The first step, given whether the directory exists.
pub fn reset_start(exists: bool) -> (r: DirStep)
    ensures
        r == first_step(exists),
{
    if exists {
        DirStep::Remove
    } else {
        DirStep::Create
    }
}

/// The step after `step` was carried out, `ok` telling whether it succeeded.
pub fn reset_next(step: DirStep, ok: bool) -> (r: DirStep)
    requires
        step == DirStep::Remove || step == DirStep::Create,
    ensures
        r == following_step(step, ok),
{
    match step {
        DirStep::Remove => if ok {
            DirStep::Create
        } else {
            DirStep::Failed(DirError::RemoveFailed)
        },
        _ => if ok {
            DirStep::Ready
        } else {
            DirStep::Failed(DirError::CreateFailed)
        },
    }
}

/// A reset reports the directory ready only once it was recreated: an
/// existing directory is first removed, with all it holds, then created
/// anew, and both must succeed; a missing one is created. Any failure ends
/// the reset without a ready directory.
pub proof fn lemma_reset_recreates(exists: bool, removed: bool, created: bool)
    ensures
        exists ==> (following_step(following_step(first_step(exists), removed), created) == DirStep::Ready
            <==> removed && created),
        exists && !removed ==> following_step(first_step(exists), removed) == DirStep::Failed(
            DirError::RemoveFailed,
        ),
        !exists ==> (following_step(first_step(exists), created) == DirStep::Ready <==> created),
{
}

} // verus!
