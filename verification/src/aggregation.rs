//! Aggregation of two consecutive block-range proofs: the two ranges must
//! chain (the first ends at the state root where the second starts), each
//! proof is checked against the SHA-256 digest of its public values, and the
//! aggregate commits to the outer state roots.

use vstd::prelude::*;
use crate::hashing::{sha256, sha256_digest};

verus! {

/// One proof handed to the aggregation: its verifying key, its public values,
/// and the state roots that the public values commit to (the state before and
/// after the proved range).
pub struct ProofInput {
    pub vkey: [u32; 8],
    pub public_values: Vec<u8>,
    pub prev_state_root: [u8; 32],
    pub cur_state_root: [u8; 32],
}

/// A proof to verify: a verifying key and the digest of the public values.
pub struct ProofCheck {
    pub vkey: [u32; 8],
    pub public_values_digest: [u8; 32],
}

/// What the aggregation program does once the two ranges chain: verify both
/// proofs, then commit to the state root before the first range and the state
/// root after the second.
pub struct Aggregation {
    pub first: ProofCheck,
    pub second: ProofCheck,
    pub prev_state_root: [u8; 32],
    pub cur_state_root: [u8; 32],
}

/// The two ranges chain: the first ends where the second starts.
pub open spec fn ranges_chain(first: &ProofInput, second: &ProofInput) -> bool {
    first.cur_state_root@ == second.prev_state_root@
}

/// `check` verifies `input`'s proof: same key, digest of its public values.
pub open spec fn checks_proof(check: &ProofCheck, input: &ProofInput) -> bool {
    &&& check.vkey@ == input.vkey@
    &&& check.public_values_digest@ == sha256(input.public_values@)
}

fn roots_equal(a: &[u8; 32], b: &[u8; 32]) -> (equal: bool)
    ensures
        equal == (a@ == b@),
{
    let mut i: usize = 0;
    while i < 32
        invariant
            0 <= i <= 32,
            a@.len() == 32,
            b@.len() == 32,
            forall|j: int| 0 <= j < i ==> a@[j] == b@[j],
        decreases 32 - i,
    {
        if a[i] != b[i] {
            return false;
        }
        i = i + 1;
    }
    assert(a@ =~= b@);
    true
}

fn proof_check(input: &ProofInput) -> (check: ProofCheck)
    ensures
        checks_proof(&check, input),
{
    ProofCheck { vkey: input.vkey, public_values_digest: sha256_digest(input.public_values.as_slice()) }
}

/// Aggregates two proofs of consecutive ranges. Refused (`None`) when the
/// ranges do not chain; otherwise both proofs are to be verified against
/// the digests of their public values, and the aggregate spans from the state
/// before the first range to the state after the second.
pub fn aggregate(first: &ProofInput, second: &ProofInput) -> (aggregation: Option<Aggregation>)
    ensures
        aggregation is None <==> !ranges_chain(first, second),
        aggregation matches Some(a) ==> {
            &&& checks_proof(&a.first, first)
            &&& checks_proof(&a.second, second)
            &&& a.prev_state_root@ == first.prev_state_root@
            &&& a.cur_state_root@ == second.cur_state_root@
        },
{
    if !roots_equal(&first.cur_state_root, &second.prev_state_root) {
        return None;
    }
    let first_check = proof_check(first);
    let second_check = proof_check(second);
    Some(
        Aggregation {
            first: first_check,
            second: second_check,
            prev_state_root: first.prev_state_root,
            cur_state_root: second.cur_state_root,
        },
    )
}

} // verus!
