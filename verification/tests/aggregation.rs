use bitvm2_core::aggregation::{aggregate, ProofInput};

fn input(vkey: u32, public_values: &[u8], prev: u8, cur: u8) -> ProofInput {
    ProofInput {
        vkey: [vkey; 8],
        public_values: public_values.to_vec(),
        prev_state_root: [prev; 32],
        cur_state_root: [cur; 32],
    }
}

fn hex(bytes: &[u8]) -> String {
    bytes.iter().map(|b| format!("{:02x}", b)).collect()
}

#[test]
fn aggregation_refuses_ranges_that_do_not_chain() {
    let first = input(1, b"abc", 0, 1);
    let second = input(2, b"def", 2, 3);
    assert!(aggregate(&first, &second).is_none());
    let mut touching = input(2, b"def", 1, 3);
    touching.prev_state_root[31] = 9;
    assert!(aggregate(&first, &touching).is_none());
}

#[test]
fn aggregation_spans_both_ranges_and_digests_public_values() {
    let first = input(1, b"abc", 0, 1);
    let second = input(2, b"", 1, 3);
    let agg = aggregate(&first, &second).expect("ranges chain");
    assert_eq!(agg.prev_state_root, [0u8; 32]);
    assert_eq!(agg.cur_state_root, [3u8; 32]);
    assert_eq!(agg.first.vkey, [1u32; 8]);
    assert_eq!(agg.second.vkey, [2u32; 8]);
    assert_eq!(
        hex(&agg.first.public_values_digest),
        "ba7816bf8f01cfea414140de5dae2223b00361a396177a9cb410ff61f20015ad"
    );
    assert_eq!(
        hex(&agg.second.public_values_digest),
        "e3b0c44298fc1c149afbf4c8996fb92427ae41e4649b934ca495991b7852b855"
    );
}
