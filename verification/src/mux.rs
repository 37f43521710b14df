//! Task selector: a deterministic function of the block height choosing
//! which off-chain task, if any, runs for that block.

use vstd::prelude::*;

verus! {

/// Number of task slots the selector cycles through.
pub const TX_TYPES: u64 = 4;

/// The task bound to a block height's slot. Only slot 0 carries a task in
/// the current design; every other slot is surfaced as an explicit unknown
/// so that unmapped slots stay observable.
#[derive(Clone, Copy, Debug, PartialEq, Eq, Structural)]
pub enum TaskId {
    /// Fetch the remote quote and submit it as a signed state transition.
    UpdatePrice,
    /// The slot is not bound to any task.
    UnknownMux,
}

/// Which task slot a block height lands on.
pub open spec fn select_spec(block_height: u64) -> TaskId {
    if block_height % TX_TYPES == 0 {
        TaskId::UpdatePrice
    } else {
        TaskId::UnknownMux
    }
}

/// Selects the task for one block height; depends on nothing but the height.
pub fn select(block_height: u64) -> (task: TaskId)
    ensures
        task == select_spec(block_height),
{
    if block_height % TX_TYPES == 0 {
        TaskId::UpdatePrice
    } else {
        TaskId::UnknownMux
    }
}

/// The selection is a pure function of the height's residue: two heights in
/// the same slot always select the same task, so repeating a call with the
/// same height repeats its answer.
pub proof fn lemma_select_depends_on_residue(h1: u64, h2: u64)
    requires
        h1 % TX_TYPES == h2 % TX_TYPES,
    ensures
        select_spec(h1) == select_spec(h2),
{
}

} // verus!
