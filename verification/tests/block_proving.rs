use bitvm2_core::block_proving::{
    plan_old_proof_removal, OldProofRemoval, ProvableBlockStatus, INITIAL_LAST_REMOVED_NUMBER,
    PROOF_COUNT,
};

#[test]
fn provable_block_status_labels() {
    assert_eq!(ProvableBlockStatus::Queued.to_string(), "queued");
    assert_eq!(ProvableBlockStatus::Executed.to_string(), "executed");
    assert_eq!(ProvableBlockStatus::Proved.to_string(), "proved");
    assert_eq!(ProvableBlockStatus::Failed.to_string(), "failed");
}

#[test]
fn no_removal_before_proof_count_blocks() {
    assert_eq!(PROOF_COUNT, 200);
    assert_eq!(INITIAL_LAST_REMOVED_NUMBER, 1);
    assert_eq!(plan_old_proof_removal(1, 0), None);
    assert_eq!(plan_old_proof_removal(1, 1), None);
    assert_eq!(plan_old_proof_removal(1, 200), None);
}

#[test]
fn removal_at_proof_count_blocks_behind() {
    assert_eq!(
        plan_old_proof_removal(1, 201),
        Some(OldProofRemoval { remove_number: 1, last_removed_number: 201 })
    );
    assert_eq!(
        plan_old_proof_removal(201, 1000),
        Some(OldProofRemoval { remove_number: 800, last_removed_number: 1000 })
    );
}

#[test]
fn removals_are_spaced_by_proof_count() {
    let mut last = INITIAL_LAST_REMOVED_NUMBER;
    let mut removed = Vec::new();
    for block in 0..1000u64 {
        if let Some(r) = plan_old_proof_removal(last, block) {
            removed.push(r.remove_number);
            last = r.last_removed_number;
        }
    }
    assert_eq!(removed, vec![1, 201, 401, 601]);
    assert_eq!(last, 801);
}
