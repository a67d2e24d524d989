use bitvm2_core::instance_bridge_out_transition::{
    allowed_bridge_out_transition, is_terminal, try_transition_bridge_out_status,
    unguarded_set_status, InstanceBridgeOutStatus, ALL_STATES,
};

#[test]
fn bridge_out_allowed_transitions_are_exactly_the_three_edges() {
    let edges = [
        (InstanceBridgeOutStatus::Initialize, InstanceBridgeOutStatus::Claim),
        (InstanceBridgeOutStatus::Initialize, InstanceBridgeOutStatus::Timeout),
        (InstanceBridgeOutStatus::Timeout, InstanceBridgeOutStatus::Refund),
    ];
    for from in ALL_STATES {
        for to in ALL_STATES {
            assert_eq!(allowed_bridge_out_transition(from, to), edges.contains(&(from, to)));
        }
    }
}

#[test]
fn bridge_out_claim_and_refund_are_absorbing() {
    for from in ALL_STATES {
        for to in ALL_STATES {
            if is_terminal(from) {
                assert!(!allowed_bridge_out_transition(from, to));
            }
        }
    }
    assert!(is_terminal(InstanceBridgeOutStatus::Claim));
    assert!(is_terminal(InstanceBridgeOutStatus::Refund));
    assert!(!is_terminal(InstanceBridgeOutStatus::Initialize));
    assert!(!is_terminal(InstanceBridgeOutStatus::Timeout));
}

#[test]
fn bridge_out_refund_requires_prior_timeout() {
    for from in ALL_STATES {
        if allowed_bridge_out_transition(from, InstanceBridgeOutStatus::Refund) {
            assert_eq!(from, InstanceBridgeOutStatus::Timeout);
        }
    }
}

#[test]
fn bridge_out_guarded_setter_never_violates_spec() {
    for from in ALL_STATES {
        for to in ALL_STATES {
            match try_transition_bridge_out_status(from, to) {
                Ok(result) => {
                    assert_eq!(result, to);
                    assert!(allowed_bridge_out_transition(from, result));
                }
                Err(pair) => {
                    assert_eq!(pair, (from, to));
                    assert!(!allowed_bridge_out_transition(from, to));
                }
            }
        }
    }
}

#[test]
fn bridge_out_unguarded_setter_can_violate_spec() {
    // A replayed claim event on an instance that was already refunded.
    let from = InstanceBridgeOutStatus::Refund;
    let to = InstanceBridgeOutStatus::Claim;
    assert_eq!(unguarded_set_status(from, to), to);
    assert!(!allowed_bridge_out_transition(from, to));
    assert_eq!(try_transition_bridge_out_status(from, to), Err((from, to)));
    assert_eq!(
        try_transition_bridge_out_status(InstanceBridgeOutStatus::Claim, InstanceBridgeOutStatus::Refund),
        Err((InstanceBridgeOutStatus::Claim, InstanceBridgeOutStatus::Refund))
    );
}
