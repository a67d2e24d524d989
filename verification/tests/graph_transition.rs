use bitvm2_core::graph_transition::{
    allowed_graph_transition, is_terminal, try_transition_graph_status, unguarded_set_status,
    GraphStatus, ALL_STATES,
};

const EVERY_STATUS: [GraphStatus; 17] = [
    GraphStatus::Created,
    GraphStatus::Presigned,
    GraphStatus::L2Recorded,
    GraphStatus::OperatorPresigned,
    GraphStatus::CommitteePresigned,
    GraphStatus::OperatorDataPushed,
    GraphStatus::PreKickoff,
    GraphStatus::OperatorKickOff,
    GraphStatus::OperatorKickOffing,
    GraphStatus::Challenge,
    GraphStatus::Challenging,
    GraphStatus::Disprove,
    GraphStatus::Disproving,
    GraphStatus::Obsoleted,
    GraphStatus::Skipped,
    GraphStatus::OperatorTake1,
    GraphStatus::OperatorTake2,
];

const EDGES: [(GraphStatus, GraphStatus); 16] = [
    (GraphStatus::OperatorPresigned, GraphStatus::CommitteePresigned),
    (GraphStatus::CommitteePresigned, GraphStatus::OperatorDataPushed),
    (GraphStatus::OperatorDataPushed, GraphStatus::PreKickoff),
    (GraphStatus::OperatorDataPushed, GraphStatus::Skipped),
    (GraphStatus::OperatorDataPushed, GraphStatus::Obsoleted),
    (GraphStatus::OperatorPresigned, GraphStatus::Obsoleted),
    (GraphStatus::CommitteePresigned, GraphStatus::Obsoleted),
    (GraphStatus::PreKickoff, GraphStatus::OperatorKickOff),
    (GraphStatus::PreKickoff, GraphStatus::Skipped),
    (GraphStatus::Obsoleted, GraphStatus::OperatorKickOff),
    (GraphStatus::Obsoleted, GraphStatus::Skipped),
    (GraphStatus::OperatorKickOff, GraphStatus::OperatorTake1),
    (GraphStatus::OperatorKickOff, GraphStatus::Challenge),
    (GraphStatus::OperatorKickOff, GraphStatus::Disprove),
    (GraphStatus::Challenge, GraphStatus::Disprove),
    (GraphStatus::Challenge, GraphStatus::OperatorTake2),
];

#[test]
fn graph_allowed_transitions_are_self_loops_and_listed_edges() {
    for from in EVERY_STATUS {
        for to in EVERY_STATUS {
            let expected = from == to || EDGES.contains(&(from, to));
            assert_eq!(allowed_graph_transition(from, to), expected, "{:?} -> {:?}", from, to);
        }
    }
}

#[test]
fn graph_self_loop_always_allowed() {
    for s in ALL_STATES {
        assert!(allowed_graph_transition(s, s));
    }
}

#[test]
fn graph_closed_statuses_match_and_have_no_real_outgoing_edge() {
    let closed = GraphStatus::get_closed_status();
    assert_eq!(
        closed,
        vec![
            GraphStatus::OperatorTake1,
            GraphStatus::OperatorTake2,
            GraphStatus::Disprove,
            GraphStatus::Skipped
        ]
    );
    for from in ALL_STATES {
        assert_eq!(is_terminal(from), closed.contains(&from));
        for to in ALL_STATES {
            if is_terminal(from) && from != to {
                assert!(!allowed_graph_transition(from, to));
            }
        }
    }
}

#[test]
fn graph_guarded_setter_never_violates_spec() {
    for from in EVERY_STATUS {
        for to in EVERY_STATUS {
            match try_transition_graph_status(from, to) {
                Ok(result) => {
                    assert_eq!(result, to);
                    assert!(allowed_graph_transition(from, result));
                }
                Err(pair) => {
                    assert_eq!(pair, (from, to));
                    assert!(!allowed_graph_transition(from, to));
                }
            }
        }
    }
}

#[test]
fn graph_unguarded_setter_can_violate_spec() {
    let from = GraphStatus::OperatorPresigned;
    let to = GraphStatus::OperatorTake1;
    let result = unguarded_set_status(from, to);
    assert_eq!(result, to);
    assert!(!allowed_graph_transition(from, result));
    assert_eq!(try_transition_graph_status(from, to), Err((from, to)));
}

#[test]
fn graph_obsoleted_is_not_reached_from_pre_kickoff() {
    assert!(!allowed_graph_transition(GraphStatus::PreKickoff, GraphStatus::Obsoleted));
    assert!(allowed_graph_transition(GraphStatus::Obsoleted, GraphStatus::OperatorKickOff));
    assert!(allowed_graph_transition(GraphStatus::Obsoleted, GraphStatus::Skipped));
}

#[test]
fn graph_display_only_states_only_self_loop() {
    let display = [
        GraphStatus::Created,
        GraphStatus::Presigned,
        GraphStatus::L2Recorded,
        GraphStatus::OperatorKickOffing,
        GraphStatus::Challenging,
        GraphStatus::Disproving,
    ];
    for d in display {
        assert!(!ALL_STATES.contains(&d));
        for s in EVERY_STATUS {
            assert_eq!(allowed_graph_transition(d, s), d == s);
            assert_eq!(allowed_graph_transition(s, d), d == s);
        }
    }
}

#[test]
fn graph_happy_path_to_take2_is_a_valid_history() {
    let path = [
        GraphStatus::OperatorPresigned,
        GraphStatus::CommitteePresigned,
        GraphStatus::OperatorDataPushed,
        GraphStatus::PreKickoff,
        GraphStatus::OperatorKickOff,
        GraphStatus::Challenge,
        GraphStatus::OperatorTake2,
        GraphStatus::OperatorTake2,
    ];
    for w in path.windows(2) {
        assert!(allowed_graph_transition(w[0], w[1]));
    }
    // Once closed, no other closed outcome can follow.
    assert!(!allowed_graph_transition(GraphStatus::OperatorTake2, GraphStatus::Disprove));
    assert!(!allowed_graph_transition(GraphStatus::OperatorTake1, GraphStatus::OperatorTake2));
}
