//! The proving pipeline's view of a block: the status labels it records, and
//! the pruning decision that keeps only the most recent block proofs.

use vstd::prelude::*;

verus! {

/// How many of the most recent block proofs the store keeps.
pub const PROOF_COUNT: u64 = 200;

/// The number recorded as "last removed" before any proof was pruned.
pub const INITIAL_LAST_REMOVED_NUMBER: u64 = 1;

/// Progress of a block through execution and proving.
#[derive(Clone, Copy, Debug, PartialEq, Eq, Structural)]
pub enum ProvableBlockStatus {
    Queued,
    Executed,
    Proved,
    Failed,
}

impl ProvableBlockStatus {
    /// The label stored for this status.
    pub open spec fn label(self) -> Seq<char> {
        match self {
            ProvableBlockStatus::Queued => "queued"@,
            ProvableBlockStatus::Executed => "executed"@,
            ProvableBlockStatus::Proved => "proved"@,
            ProvableBlockStatus::Failed => "failed"@,
        }
    }

    /// The label stored for this status, as text.
    pub fn to_string(&self) -> (text: String)
        ensures
            text@ == self.label(),
    {
        match self {
            ProvableBlockStatus::Queued => "queued".to_owned(),
            ProvableBlockStatus::Executed => "executed".to_owned(),
            ProvableBlockStatus::Proved => "proved".to_owned(),
            ProvableBlockStatus::Failed => "failed".to_owned(),
        }
    }
}

/// What one pruning step does: delete the proofs up to `remove_number`, and
/// record `last_removed_number` for the next step.
#[derive(Clone, Copy, Debug, PartialEq, Eq, Structural)]
pub struct OldProofRemoval {
    pub remove_number: i64,
    pub last_removed_number: u64,
}

/// The pruning step after block `block_number` was proved: nothing while fewer
/// than `PROOF_COUNT` blocks followed the last pruning point; otherwise delete
/// the proofs `PROOF_COUNT` blocks behind and move the pruning point to the
/// block just proved.
pub open spec fn old_proof_removal(last_removed_number: u64, block_number: u64) -> Option<
    OldProofRemoval,
> {
    if block_number < last_removed_number + PROOF_COUNT {
        None
    } else {
        Some(
            OldProofRemoval {
                remove_number: (block_number - PROOF_COUNT) as i64,
                last_removed_number: block_number,
            },
        )
    }
}

/// Decides the pruning step after block `block_number` was proved, given the
/// pruning point `last_removed_number` recorded by the previous step.
pub fn plan_old_proof_removal(last_removed_number: u64, block_number: u64) -> (removal: Option<
    OldProofRemoval,
>)
    requires
        last_removed_number + PROOF_COUNT <= u64::MAX,
    ensures
        removal == old_proof_removal(last_removed_number, block_number),
        removal is None <==> block_number < last_removed_number + PROOF_COUNT,
        removal matches Some(r) ==> {
            &&& r.remove_number as int == (block_number - PROOF_COUNT) as i64 as int
            &&& r.last_removed_number == block_number
        },
{
    if block_number < last_removed_number + PROOF_COUNT {
        return None;
    }
    let remove_number = (block_number - PROOF_COUNT) as i64;
    Some(OldProofRemoval { remove_number, last_removed_number: block_number })
}

/// Pruning steps are spaced: after a step at block `b`, no further step comes
/// until block `b + PROOF_COUNT`.
pub proof fn removals_are_spaced(last_removed_number: u64, block_number: u64, next_block: u64)
    requires
        old_proof_removal(last_removed_number, block_number) is Some,
        next_block < block_number + PROOF_COUNT,
    ensures
        old_proof_removal(
            old_proof_removal(last_removed_number, block_number).unwrap().last_removed_number,
            next_block,
        ) is None,
{
}

/// Pruning only moves forward and only removes old proofs: the proofs removed
/// lie at or after the previous pruning point and exactly `PROOF_COUNT` blocks
/// behind the block just proved, and the pruning point never moves back.
pub proof fn removals_move_forward(last_removed_number: u64, block_number: u64)
    requires
        old_proof_removal(last_removed_number, block_number) is Some,
        block_number - PROOF_COUNT <= i64::MAX,
    ensures
        ({
            let removal = old_proof_removal(last_removed_number, block_number).unwrap();
            &&& last_removed_number <= removal.remove_number
            &&& removal.remove_number + PROOF_COUNT == block_number
            &&& last_removed_number < removal.last_removed_number
        }),
{
}

/// Pruning is complete: whenever at least `PROOF_COUNT` blocks followed the
/// pruning point, the step deletes the proofs `PROOF_COUNT` blocks behind the
/// block just proved and moves the pruning point to that block; below that
/// distance it does nothing.
pub proof fn removal_happens_exactly_past_threshold(last_removed_number: u64, block_number: u64)
    ensures
        block_number >= last_removed_number + PROOF_COUNT ==> old_proof_removal(
            last_removed_number,
            block_number,
        ) == Some(
            OldProofRemoval {
                remove_number: (block_number - PROOF_COUNT) as i64,
                last_removed_number: block_number,
            },
        ),
        block_number < last_removed_number + PROOF_COUNT ==> old_proof_removal(
            last_removed_number,
            block_number,
        ) is None,
{
}

/// When the block lies `PROOF_COUNT` or more blocks past the pruning point and
/// its distance fits in `i64`, the proofs removed are exactly those of block
/// `block_number - PROOF_COUNT`.
pub proof fn removal_number_is_proof_count_behind(last_removed_number: u64, block_number: u64)
    requires
        block_number >= last_removed_number + PROOF_COUNT,
        block_number - PROOF_COUNT <= i64::MAX,
    ensures
        old_proof_removal(last_removed_number, block_number) matches Some(r) && r.remove_number
            + PROOF_COUNT == block_number && r.last_removed_number == block_number,
{
}

} // verus!
