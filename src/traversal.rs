//! Decisions of a reverse traversal of the chain, from a start block back
//! through its ancestors to an end block.
use vstd::prelude::*;

verus! {

/// Why a traversal cannot begin.
#[derive(Clone, Copy, Debug, PartialEq, Eq, Structural)]
pub enum TraverseError {
    /// The start block lies below the end block.
    StartBelowEnd,
}

/// What to do at a block met during the traversal.
#[derive(Clone, Copy, Debug, PartialEq, Eq, Structural)]
pub enum TraverseStep {
    /// The block lies below the end block: the traversal is over.
    Stop,
    /// The block is the end block: record it and stop.
    RecordLast,
    /// The block lies above the end block: record it and go on to its parent.
    RecordAndContinue,
}

/// Checks that a traversal from `start_block` back to `end_block` runs
/// backward or stays in place.
pub fn check_traverse_range(start_block: u32, end_block: u32) -> (r: Result<(), TraverseError>)
    ensures
        start_block < end_block ==> r == Err::<(), TraverseError>(TraverseError::StartBelowEnd),
        start_block >= end_block ==> r is Ok,
{
    if start_block < end_block {
        Err(TraverseError::StartBelowEnd)
    } else {
        Ok(())
    }
}

/// What to do at block `block_number` of a traversal that ends at `end_block`.
pub fn traverse_step(block_number: u32, end_block: u32) -> (r: TraverseStep)
    ensures
        block_number < end_block ==> r == TraverseStep::Stop,
        block_number == end_block ==> r == TraverseStep::RecordLast,
        block_number > end_block ==> r == TraverseStep::RecordAndContinue,
{
    if block_number < end_block {
        TraverseStep::Stop
    } else if block_number == end_block {
        TraverseStep::RecordLast
    } else {
        TraverseStep::RecordAndContinue
    }
}

} // verus!
