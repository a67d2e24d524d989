//! The `GraphStatus` transition relation of a BitVM2 graph, its guarded setter,
//! and the laws that the relation keeps.

use vstd::prelude::*;

verus! {

/// Status of a BitVM2 graph.
///
/// `Created`, `Presigned`, `L2Recorded`, `OperatorKickOffing`, `Challenging`
/// and `Disproving` are display-only projections computed on read; they are
/// never written to a graph row. The other eleven are persisted.
#[derive(Clone, Copy, Debug, PartialEq, Eq, Structural)]
pub enum GraphStatus {
    Created,
    Presigned,
    L2Recorded,
    OperatorPresigned,
    CommitteePresigned,
    OperatorDataPushed,
    PreKickoff,
    OperatorKickOff,
    OperatorKickOffing,
    Challenge,
    Challenging,
    Disprove,
    Disproving,
    Obsoleted,
    Skipped,
    OperatorTake1,
    OperatorTake2,
}

/// The eleven persisted graph states.
pub const ALL_STATES: [GraphStatus; 11] = [
    GraphStatus::OperatorPresigned,
    GraphStatus::CommitteePresigned,
    GraphStatus::OperatorDataPushed,
    GraphStatus::PreKickoff,
    GraphStatus::OperatorKickOff,
    GraphStatus::Challenge,
    GraphStatus::Disprove,
    GraphStatus::Obsoleted,
    GraphStatus::Skipped,
    GraphStatus::OperatorTake1,
    GraphStatus::OperatorTake2,
];

/// A status that is written to a graph row (not a display-only projection).
pub open spec fn is_persisted_graph_status(s: GraphStatus) -> bool {
    !(s is Created || s is Presigned || s is L2Recorded || s is OperatorKickOffing
        || s is Challenging || s is Disproving)
}

/// The non-reflexive edges of the graph state machine.
pub open spec fn graph_edge(from: GraphStatus, to: GraphStatus) -> bool {
    ||| from is OperatorPresigned && to is CommitteePresigned
    ||| from is CommitteePresigned && to is OperatorDataPushed
    ||| from is OperatorDataPushed && to is PreKickoff
    ||| from is OperatorDataPushed && to is Skipped
    ||| from is OperatorDataPushed && to is Obsoleted
    ||| from is OperatorPresigned && to is Obsoleted
    ||| from is CommitteePresigned && to is Obsoleted
    ||| from is PreKickoff && to is OperatorKickOff
    ||| from is PreKickoff && to is Skipped
    ||| from is Obsoleted && to is OperatorKickOff
    ||| from is Obsoleted && to is Skipped
    ||| from is OperatorKickOff && to is OperatorTake1
    ||| from is OperatorKickOff && to is Challenge
    ||| from is OperatorKickOff && to is Disprove
    ||| from is Challenge && to is Disprove
    ||| from is Challenge && to is OperatorTake2
}

/// The allowed graph transitions: every state may stay where it is, and the
/// edges of `graph_edge` may be taken.
pub open spec fn graph_transition_allowed(from: GraphStatus, to: GraphStatus) -> bool {
    from == to || graph_edge(from, to)
}

/// The closed graph states: no edge leaves them but the self-loop.
pub open spec fn is_terminal_graph_status(s: GraphStatus) -> bool {
    s is OperatorTake1 || s is OperatorTake2 || s is Disprove || s is Skipped
}

/// Decides whether a graph may move from `from` to `to`.
pub fn allowed_graph_transition(from: GraphStatus, to: GraphStatus) -> (allowed: bool)
    ensures
        allowed == graph_transition_allowed(from, to),
{
    if from == to {
        return true;
    }
    match (from, to) {
        (GraphStatus::OperatorPresigned, GraphStatus::CommitteePresigned)
        | (GraphStatus::CommitteePresigned, GraphStatus::OperatorDataPushed)
        | (GraphStatus::OperatorDataPushed, GraphStatus::PreKickoff)
        | (GraphStatus::OperatorDataPushed, GraphStatus::Skipped)
        | (GraphStatus::OperatorDataPushed, GraphStatus::Obsoleted)
        | (GraphStatus::OperatorPresigned, GraphStatus::Obsoleted)
        | (GraphStatus::CommitteePresigned, GraphStatus::Obsoleted)
        | (GraphStatus::PreKickoff, GraphStatus::OperatorKickOff)
        | (GraphStatus::PreKickoff, GraphStatus::Skipped)
        | (GraphStatus::Obsoleted, GraphStatus::OperatorKickOff)
        | (GraphStatus::Obsoleted, GraphStatus::Skipped)
        | (GraphStatus::OperatorKickOff, GraphStatus::OperatorTake1)
        | (GraphStatus::OperatorKickOff, GraphStatus::Challenge)
        | (GraphStatus::OperatorKickOff, GraphStatus::Disprove)
        | (GraphStatus::Challenge, GraphStatus::Disprove)
        | (GraphStatus::Challenge, GraphStatus::OperatorTake2) => true,
        _ => false,
    }
}


/// The result of the guarded setter: the new status when the transition is
/// allowed, the rejected pair otherwise.
pub open spec fn graph_transition_outcome(from: GraphStatus, to: GraphStatus) -> Result<
    GraphStatus,
    (GraphStatus, GraphStatus),
> {
    if graph_transition_allowed(from, to) {
        Ok(to)
    } else {
        Err((from, to))
    }
}

/// The status that the unguarded writers store: always the requested one.
pub open spec fn graph_unguarded_outcome(from: GraphStatus, to: GraphStatus) -> GraphStatus {
    to
}

/// Whether `status` is a closed graph state.
pub fn is_terminal(status: GraphStatus) -> (terminal: bool)
    ensures
        terminal == is_terminal_graph_status(status),
{
    match status {
        GraphStatus::OperatorTake1
        | GraphStatus::OperatorTake2
        | GraphStatus::Disprove
        | GraphStatus::Skipped => true,
        _ => false,
    }
}

/// The write performed by the node's current graph writers: the requested
/// status is stored whatever the current one is.
pub fn unguarded_set_status(_from: GraphStatus, to: GraphStatus) -> (status: GraphStatus)
    ensures
        status == graph_unguarded_outcome(_from, to),
        status == to,
{
    to
}

/// The guarded setter: moves to `to` only when the graph state machine allows
/// the transition, and hands back the rejected pair otherwise.
pub fn try_transition_graph_status(from: GraphStatus, to: GraphStatus) -> (outcome: Result<
    GraphStatus,
    (GraphStatus, GraphStatus),
>)
    ensures
        outcome == graph_transition_outcome(from, to),
{
    if allowed_graph_transition(from, to) {
        Ok(to)
    } else {
        Err((from, to))
    }
}

impl GraphStatus {
    /// The closed graph states, in the order the store lists them.
    pub open spec fn closed_statuses() -> Seq<GraphStatus> {
        seq![
            GraphStatus::OperatorTake1,
            GraphStatus::OperatorTake2,
            GraphStatus::Disprove,
            GraphStatus::Skipped,
        ]
    }

    /// The closed graph states: a graph in one of them is settled.
    pub fn get_closed_status() -> (closed: Vec<GraphStatus>)
        ensures
            closed@ == Self::closed_statuses(),
    {
        vec![
            GraphStatus::OperatorTake1,
            GraphStatus::OperatorTake2,
            GraphStatus::Disprove,
            GraphStatus::Skipped,
        ]
    }
}

/// Every state may stay where it is.
pub proof fn self_loop_always_allowed(s: GraphStatus)
    ensures
        graph_transition_allowed(s, s),
{
}

/// The closed states are exactly `GraphStatus::get_closed_status()`, and no
/// edge leaves a closed state but its self-loop.
pub proof fn closed_statuses_match_and_have_no_real_outgoing_edge(from: GraphStatus, to: GraphStatus)
    ensures
        is_terminal_graph_status(from) == GraphStatus::closed_statuses().contains(from),
        is_terminal_graph_status(from) && from != to ==> !graph_transition_allowed(from, to),
{
    let closed = GraphStatus::closed_statuses();
    if is_terminal_graph_status(from) {
        if from is OperatorTake1 {
            assert(closed[0] == from);
        } else if from is OperatorTake2 {
            assert(closed[1] == from);
        } else if from is Disprove {
            assert(closed[2] == from);
        } else {
            assert(closed[3] == from);
        }
    }
}

/// The guarded setter never produces a transition outside the state machine.
pub proof fn guarded_setter_never_violates_spec(from: GraphStatus, to: GraphStatus)
    ensures
        graph_transition_outcome(from, to) matches Ok(status) ==> graph_transition_allowed(
            from,
            status,
        ),
{
}

/// The unguarded writers can realize a transition that the state machine
/// forbids: for some current status and some requested one, the stored status
/// is not an allowed successor of the current one.
pub proof fn unguarded_setter_can_violate_spec()
    ensures
        exists|from: GraphStatus, to: GraphStatus|
            !graph_transition_allowed(from, #[trigger] graph_unguarded_outcome(from, to)),
{
    let from = GraphStatus::OperatorPresigned;
    let to = GraphStatus::OperatorTake1;
    assert(!graph_transition_allowed(from, graph_unguarded_outcome(from, to)));
}

/// Transitions keep a graph among the persisted states: no allowed transition
/// leads from a persisted state to a display-only projection.
pub proof fn transitions_stay_persisted(from: GraphStatus, to: GraphStatus)
    requires
        is_persisted_graph_status(from),
        graph_transition_allowed(from, to),
    ensures
        is_persisted_graph_status(to),
{
}

/// `ALL_STATES` lists each persisted state once and nothing else.
pub proof fn all_states_are_the_persisted_states()
    ensures
        forall|s: GraphStatus| ALL_STATES@.contains(s) <==> is_persisted_graph_status(s),
        forall|i: int, j: int|
            0 <= i < j < ALL_STATES@.len() ==> ALL_STATES@[i] != ALL_STATES@[j],
{
    assert forall|s: GraphStatus| is_persisted_graph_status(s) implies ALL_STATES@.contains(s) by {
        match s {
            GraphStatus::OperatorPresigned => assert(ALL_STATES@[0] == s),
            GraphStatus::CommitteePresigned => assert(ALL_STATES@[1] == s),
            GraphStatus::OperatorDataPushed => assert(ALL_STATES@[2] == s),
            GraphStatus::PreKickoff => assert(ALL_STATES@[3] == s),
            GraphStatus::OperatorKickOff => assert(ALL_STATES@[4] == s),
            GraphStatus::Challenge => assert(ALL_STATES@[5] == s),
            GraphStatus::Disprove => assert(ALL_STATES@[6] == s),
            GraphStatus::Obsoleted => assert(ALL_STATES@[7] == s),
            GraphStatus::Skipped => assert(ALL_STATES@[8] == s),
            GraphStatus::OperatorTake1 => assert(ALL_STATES@[9] == s),
            GraphStatus::OperatorTake2 => assert(ALL_STATES@[10] == s),
            _ => {},
        }
    }
}

/// Step `i` of `path` is an allowed graph transition.
pub open spec fn graph_step_allowed(path: Seq<GraphStatus>, i: int) -> bool {
    graph_transition_allowed(path[i], path[i + 1])
}

/// A history of a graph row in which every step is an allowed transition.
pub open spec fn is_graph_history(path: Seq<GraphStatus>) -> bool {
    forall|i: int| 0 <= i < path.len() - 1 ==> #[trigger] graph_step_allowed(path, i)
}

/// Once a graph history reaches a closed state, it stays in that state.
pub proof fn closed_status_is_final(path: Seq<GraphStatus>, i: int, j: int)
    requires
        is_graph_history(path),
        0 <= i <= j < path.len(),
        is_terminal_graph_status(path[i]),
    ensures
        path[j] == path[i],
    decreases j - i,
{
    if j > i {
        closed_status_is_final(path, i, j - 1);
        assert(graph_step_allowed(path, j - 1));
    }
}

/// The closed outcomes of a graph exclude each other: a graph history holds at
/// most one of `OperatorTake1`, `OperatorTake2`, `Disprove` and `Skipped`.
pub proof fn closed_outcomes_are_exclusive(path: Seq<GraphStatus>, i: int, j: int)
    requires
        is_graph_history(path),
        0 <= i < path.len(),
        0 <= j < path.len(),
        is_terminal_graph_status(path[i]),
        is_terminal_graph_status(path[j]),
    ensures
        path[i] == path[j],
{
    if i <= j {
        closed_status_is_final(path, i, j);
    } else {
        closed_status_is_final(path, j, i);
    }
}

/// The unguarded writers store exactly the requested status, whatever the
/// current status is: every current status is overwritten by every request.
pub proof fn unguarded_writer_stores_requested_status()
    ensures
        forall|from: GraphStatus, to: GraphStatus| #[trigger] graph_unguarded_outcome(from, to) == to,
{
}

/// Two unguarded writes with the same request store the same status, from
/// any two current statuses: the current status plays no part in the write.
pub proof fn unguarded_write_ignores_current_status(from1: GraphStatus, from2: GraphStatus, to: GraphStatus)
    ensures
        graph_unguarded_outcome(from1, to) == graph_unguarded_outcome(from2, to),
        graph_unguarded_outcome(from1, to) == to,
{
}

} // verus!
