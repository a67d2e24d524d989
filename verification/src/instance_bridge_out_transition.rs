//! The `InstanceBridgeOutStatus` transition relation of a bridge-out (escrow)
//! instance, its guarded setter, and the laws that the relation keeps.

use vstd::prelude::*;

verus! {

/// Status of a bridge-out instance. Every variant is persisted.
#[derive(Clone, Copy, Debug, PartialEq, Eq, Structural)]
pub enum InstanceBridgeOutStatus {
    Initialize,
    Claim,
    Timeout,
    Refund,
}

/// The four bridge-out states.
pub const ALL_STATES: [InstanceBridgeOutStatus; 4] = [
    InstanceBridgeOutStatus::Initialize,
    InstanceBridgeOutStatus::Claim,
    InstanceBridgeOutStatus::Timeout,
    InstanceBridgeOutStatus::Refund,
];

/// The intended transitions of a bridge-out instance.
pub open spec fn bridge_out_transition_allowed(
    from: InstanceBridgeOutStatus,
    to: InstanceBridgeOutStatus,
) -> bool {
    ||| from is Initialize && to is Claim
    ||| from is Initialize && to is Timeout
    ||| from is Timeout && to is Refund
}

/// The bridge-out states that no transition leaves.
pub open spec fn is_terminal_bridge_out_status(s: InstanceBridgeOutStatus) -> bool {
    s is Claim || s is Refund
}

/// The result of the guarded setter: the new status when the transition is
/// allowed, the rejected pair otherwise.
pub open spec fn bridge_out_transition_outcome(
    from: InstanceBridgeOutStatus,
    to: InstanceBridgeOutStatus,
) -> Result<InstanceBridgeOutStatus, (InstanceBridgeOutStatus, InstanceBridgeOutStatus)> {
    if bridge_out_transition_allowed(from, to) {
        Ok(to)
    } else {
        Err((from, to))
    }
}

/// The status that the unguarded writers store: always the requested one.
pub open spec fn bridge_out_unguarded_outcome(
    from: InstanceBridgeOutStatus,
    to: InstanceBridgeOutStatus,
) -> InstanceBridgeOutStatus {
    to
}

/// Decides whether a bridge-out instance may move from `from` to `to`.
pub fn allowed_bridge_out_transition(
    from: InstanceBridgeOutStatus,
    to: InstanceBridgeOutStatus,
) -> (allowed: bool)
    ensures
        allowed == bridge_out_transition_allowed(from, to),
{
    match (from, to) {
        (InstanceBridgeOutStatus::Initialize, InstanceBridgeOutStatus::Claim)
        | (InstanceBridgeOutStatus::Initialize, InstanceBridgeOutStatus::Timeout)
        | (InstanceBridgeOutStatus::Timeout, InstanceBridgeOutStatus::Refund) => true,
        _ => false,
    }
}

/// Whether `status` is a bridge-out state that no transition leaves.
pub fn is_terminal(status: InstanceBridgeOutStatus) -> (terminal: bool)
    ensures
        terminal == is_terminal_bridge_out_status(status),
{
    match status {
        InstanceBridgeOutStatus::Claim | InstanceBridgeOutStatus::Refund => true,
        _ => false,
    }
}

/// The write performed by the node's current bridge-out writers: the
/// requested status is stored whatever the current one is.
pub fn unguarded_set_status(
    _from: InstanceBridgeOutStatus,
    to: InstanceBridgeOutStatus,
) -> (status: InstanceBridgeOutStatus)
    ensures
        status == bridge_out_unguarded_outcome(_from, to),
        status == to,
{
    to
}

/// The guarded setter: moves to `to` only when the intended bridge-out state
/// machine allows the transition, and hands back the rejected pair otherwise.
pub fn try_transition_bridge_out_status(
    from: InstanceBridgeOutStatus,
    to: InstanceBridgeOutStatus,
) -> (outcome: Result<
    InstanceBridgeOutStatus,
    (InstanceBridgeOutStatus, InstanceBridgeOutStatus),
>)
    ensures
        outcome == bridge_out_transition_outcome(from, to),
{
    if allowed_bridge_out_transition(from, to) {
        Ok(to)
    } else {
        Err((from, to))
    }
}

/// `Claim` and `Refund` have no outgoing transition.
pub proof fn claim_and_refund_are_absorbing(
    from: InstanceBridgeOutStatus,
    to: InstanceBridgeOutStatus,
)
    ensures
        is_terminal_bridge_out_status(from) ==> !bridge_out_transition_allowed(from, to),
{
}

/// `Refund` is entered only from `Timeout`: no refund before the escrow
/// deadline has passed.
pub proof fn refund_requires_prior_timeout(
    from: InstanceBridgeOutStatus,
    to: InstanceBridgeOutStatus,
)
    ensures
        bridge_out_transition_allowed(from, to) && to is Refund ==> from is Timeout,
{
}

/// The guarded setter never produces a transition outside the state machine.
pub proof fn guarded_setter_never_violates_spec(
    from: InstanceBridgeOutStatus,
    to: InstanceBridgeOutStatus,
)
    ensures
        bridge_out_transition_outcome(from, to) matches Ok(status)
            ==> bridge_out_transition_allowed(from, status),
{
}

/// The unguarded writers can realize a transition that the state machine
/// forbids: for some current status and some requested one, the stored status
/// is not an allowed successor of the current one.
pub proof fn unguarded_setter_can_violate_spec()
    ensures
        exists|from: InstanceBridgeOutStatus, to: InstanceBridgeOutStatus|
            !bridge_out_transition_allowed(from, #[trigger] bridge_out_unguarded_outcome(from, to)),
{
    let from = InstanceBridgeOutStatus::Refund;
    let to = InstanceBridgeOutStatus::Claim;
    assert(!bridge_out_transition_allowed(from, bridge_out_unguarded_outcome(from, to)));
}

/// `ALL_STATES` lists every bridge-out state, each once.
pub proof fn all_states_are_every_state()
    ensures
        forall|s: InstanceBridgeOutStatus| ALL_STATES@.contains(s),
        forall|i: int, j: int|
            0 <= i < j < ALL_STATES@.len() ==> ALL_STATES@[i] != ALL_STATES@[j],
{
    assert forall|s: InstanceBridgeOutStatus| ALL_STATES@.contains(s) by {
        match s {
            InstanceBridgeOutStatus::Initialize => assert(ALL_STATES@[0] == s),
            InstanceBridgeOutStatus::Claim => assert(ALL_STATES@[1] == s),
            InstanceBridgeOutStatus::Timeout => assert(ALL_STATES@[2] == s),
            InstanceBridgeOutStatus::Refund => assert(ALL_STATES@[3] == s),
        }
    }
}

/// Step `i` of `path` is an allowed bridge-out transition.
pub open spec fn bridge_out_step_allowed(path: Seq<InstanceBridgeOutStatus>, i: int) -> bool {
    bridge_out_transition_allowed(path[i], path[i + 1])
}

/// A history of a bridge-out instance in which every step is an allowed
/// transition.
pub open spec fn is_bridge_out_history(path: Seq<InstanceBridgeOutStatus>) -> bool {
    forall|i: int| 0 <= i < path.len() - 1 ==> #[trigger] bridge_out_step_allowed(path, i)
}

/// A terminal state ends every history it occurs in.
pub proof fn terminal_status_ends_history(path: Seq<InstanceBridgeOutStatus>, i: int)
    requires
        is_bridge_out_history(path),
        0 <= i < path.len(),
        is_terminal_bridge_out_status(path[i]),
    ensures
        i == path.len() - 1,
{
    if i < path.len() - 1 {
        assert(bridge_out_step_allowed(path, i));
    }
}

/// `Claim` and `Refund` are alternate outcomes of the same escrow: no history
/// holds both.
pub proof fn claim_and_refund_are_exclusive(path: Seq<InstanceBridgeOutStatus>, i: int, j: int)
    requires
        is_bridge_out_history(path),
        0 <= i < path.len(),
        0 <= j < path.len(),
    ensures
        !(path[i] is Claim && path[j] is Refund),
{
    if path[i] is Claim && path[j] is Refund {
        terminal_status_ends_history(path, i);
        terminal_status_ends_history(path, j);
    }
}

/// A history that starts at `Initialize` and reaches `Refund` passes through
/// `Timeout` just before it.
pub proof fn refund_history_passes_timeout(path: Seq<InstanceBridgeOutStatus>, k: int)
    requires
        is_bridge_out_history(path),
        path.len() > 0,
        path[0] is Initialize,
        0 <= k < path.len(),
        path[k] is Refund,
    ensures
        k > 0,
        path[k - 1] is Timeout,
{
    if k > 0 {
        assert(bridge_out_step_allowed(path, k - 1));
    }
}

/// The unguarded writers store exactly the requested status, whatever the
/// current status is: every current status is overwritten by every request.
pub proof fn unguarded_writer_stores_requested_status()
    ensures
        forall|from: InstanceBridgeOutStatus, to: InstanceBridgeOutStatus| #[trigger] bridge_out_unguarded_outcome(from, to) == to,
{
}

/// Two unguarded writes with the same request store the same status, from
/// any two current statuses: the current status plays no part in the write.
pub proof fn unguarded_write_ignores_current_status(from1: InstanceBridgeOutStatus, from2: InstanceBridgeOutStatus, to: InstanceBridgeOutStatus)
    ensures
        bridge_out_unguarded_outcome(from1, to) == bridge_out_unguarded_outcome(from2, to),
        bridge_out_unguarded_outcome(from1, to) == to,
{
}

} // verus!
