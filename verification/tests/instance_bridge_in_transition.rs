use bitvm2_core::instance_bridge_in_transition::{
    allowed_bridge_in_transition, is_terminal, try_transition_bridge_in_status,
    unguarded_set_status, InstanceBridgeInStatus, ALL_STATES,
};

const EDGES: [(InstanceBridgeInStatus, InstanceBridgeInStatus); 14] = [
    (InstanceBridgeInStatus::UserIniting, InstanceBridgeInStatus::UserInited),
    (InstanceBridgeInStatus::UserInited, InstanceBridgeInStatus::CommitteesAnswered),
    (InstanceBridgeInStatus::UserInited, InstanceBridgeInStatus::NoEnoughCommitteesAnswered),
    (InstanceBridgeInStatus::UserInited, InstanceBridgeInStatus::UserDiscarded),
    (InstanceBridgeInStatus::CommitteesAnswered, InstanceBridgeInStatus::UserBroadcastPeginPrepare),
    (InstanceBridgeInStatus::CommitteesAnswered, InstanceBridgeInStatus::UserDiscarded),
    (InstanceBridgeInStatus::UserBroadcastPeginPrepare, InstanceBridgeInStatus::Presigned),
    (InstanceBridgeInStatus::UserBroadcastPeginPrepare, InstanceBridgeInStatus::PresignedFailed),
    (InstanceBridgeInStatus::Presigned, InstanceBridgeInStatus::RelayerL1Broadcasted),
    (InstanceBridgeInStatus::Presigned, InstanceBridgeInStatus::Timeout),
    (InstanceBridgeInStatus::PresignedFailed, InstanceBridgeInStatus::Timeout),
    (InstanceBridgeInStatus::RelayerL1Broadcasted, InstanceBridgeInStatus::RelayerL2Minted),
    (InstanceBridgeInStatus::RelayerL1Broadcasted, InstanceBridgeInStatus::RelayerL2MintedFailed),
    (InstanceBridgeInStatus::Timeout, InstanceBridgeInStatus::UserCanceled),
];

const DISPLAY_ONLY: [InstanceBridgeInStatus; 7] = [
    InstanceBridgeInStatus::Initiated,
    InstanceBridgeInStatus::Verified,
    InstanceBridgeInStatus::Submitted,
    InstanceBridgeInStatus::Failed,
    InstanceBridgeInStatus::Processing,
    InstanceBridgeInStatus::Success,
    InstanceBridgeInStatus::Canceled,
];

fn every_status() -> Vec<InstanceBridgeInStatus> {
    let mut all = ALL_STATES.to_vec();
    all.extend_from_slice(&DISPLAY_ONLY);
    all
}

#[test]
fn bridge_in_allowed_transitions_are_exactly_the_listed_edges() {
    for from in every_status() {
        for to in every_status() {
            assert_eq!(
                allowed_bridge_in_transition(from, to),
                EDGES.contains(&(from, to)),
                "{:?} -> {:?}",
                from,
                to
            );
        }
    }
}

#[test]
fn bridge_in_minted_requires_prior_committee_answer() {
    for from in ALL_STATES {
        for to in ALL_STATES {
            if allowed_bridge_in_transition(from, to) && to == InstanceBridgeInStatus::RelayerL2Minted {
                assert_eq!(from, InstanceBridgeInStatus::RelayerL1Broadcasted);
            }
        }
    }
}

#[test]
fn bridge_in_terminal_states_are_absorbing() {
    for from in ALL_STATES {
        for to in ALL_STATES {
            if is_terminal(from) {
                assert!(!allowed_bridge_in_transition(from, to));
            }
        }
    }
    let terminal: Vec<_> = every_status().into_iter().filter(|s| is_terminal(*s)).collect();
    assert_eq!(
        terminal,
        vec![
            InstanceBridgeInStatus::RelayerL2Minted,
            InstanceBridgeInStatus::RelayerL2MintedFailed,
            InstanceBridgeInStatus::UserCanceled,
            InstanceBridgeInStatus::NoEnoughCommitteesAnswered,
            InstanceBridgeInStatus::UserDiscarded,
        ]
    );
}

#[test]
fn bridge_in_guarded_setter_never_violates_spec() {
    for from in every_status() {
        for to in every_status() {
            match try_transition_bridge_in_status(from, to) {
                Ok(result) => {
                    assert_eq!(result, to);
                    assert!(allowed_bridge_in_transition(from, result));
                }
                Err(pair) => {
                    assert_eq!(pair, (from, to));
                    assert!(!allowed_bridge_in_transition(from, to));
                }
            }
        }
    }
}

#[test]
fn bridge_in_unguarded_setter_can_violate_spec() {
    let from = InstanceBridgeInStatus::UserIniting;
    let to = InstanceBridgeInStatus::RelayerL2Minted;
    let result = unguarded_set_status(from, to);
    assert_eq!(result, to);
    assert!(!allowed_bridge_in_transition(from, result));
}

#[test]
fn bridge_in_minting_history_passes_committee_answer() {
    let path = [
        InstanceBridgeInStatus::UserIniting,
        InstanceBridgeInStatus::UserInited,
        InstanceBridgeInStatus::CommitteesAnswered,
        InstanceBridgeInStatus::UserBroadcastPeginPrepare,
        InstanceBridgeInStatus::Presigned,
        InstanceBridgeInStatus::RelayerL1Broadcasted,
        InstanceBridgeInStatus::RelayerL2Minted,
    ];
    for w in path.windows(2) {
        assert!(allowed_bridge_in_transition(w[0], w[1]));
    }
    assert!(!allowed_bridge_in_transition(
        InstanceBridgeInStatus::UserInited,
        InstanceBridgeInStatus::UserBroadcastPeginPrepare
    ));
}

#[test]
fn bridge_in_timeout_leads_to_cancel_only() {
    for to in every_status() {
        assert_eq!(
            allowed_bridge_in_transition(InstanceBridgeInStatus::Timeout, to),
            to == InstanceBridgeInStatus::UserCanceled
        );
    }
}
