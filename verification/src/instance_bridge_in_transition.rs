//! The `InstanceBridgeInStatus` transition relation of a bridge-in instance,
//! its guarded setter, and the laws that the relation keeps.

use vstd::prelude::*;

verus! {

/// Status of a bridge-in instance.
///
/// `Initiated`, `Verified`, `Submitted`, `Failed`, `Processing`, `Success` and
/// `Canceled` are display-only projections computed on read; they are never
/// written to an instance row. The other thirteen are persisted.
#[derive(Clone, Copy, Debug, PartialEq, Eq, Structural)]
pub enum InstanceBridgeInStatus {
    UserIniting,
    UserInited,
    CommitteesAnswered,
    UserBroadcastPeginPrepare,
    Presigned,
    PresignedFailed,
    RelayerL1Broadcasted,
    RelayerL2Minted,
    RelayerL2MintedFailed,
    Timeout,
    UserCanceled,
    NoEnoughCommitteesAnswered,
    UserDiscarded,
    Initiated,
    Verified,
    Submitted,
    Failed,
    Processing,
    Success,
    Canceled,
}

/// The thirteen persisted bridge-in states.
pub const ALL_STATES: [InstanceBridgeInStatus; 13] = [
    InstanceBridgeInStatus::UserIniting,
    InstanceBridgeInStatus::UserInited,
    InstanceBridgeInStatus::CommitteesAnswered,
    InstanceBridgeInStatus::UserBroadcastPeginPrepare,
    InstanceBridgeInStatus::Presigned,
    InstanceBridgeInStatus::PresignedFailed,
    InstanceBridgeInStatus::RelayerL1Broadcasted,
    InstanceBridgeInStatus::RelayerL2Minted,
    InstanceBridgeInStatus::RelayerL2MintedFailed,
    InstanceBridgeInStatus::Timeout,
    InstanceBridgeInStatus::UserCanceled,
    InstanceBridgeInStatus::NoEnoughCommitteesAnswered,
    InstanceBridgeInStatus::UserDiscarded,
];

/// A status that is written to an instance row (not a display-only projection).
pub open spec fn is_persisted_bridge_in_status(s: InstanceBridgeInStatus) -> bool {
    !(s is Initiated || s is Verified || s is Submitted || s is Failed || s is Processing
        || s is Success || s is Canceled)
}

/// The intended transitions of a bridge-in instance.
pub open spec fn bridge_in_transition_allowed(
    from: InstanceBridgeInStatus,
    to: InstanceBridgeInStatus,
) -> bool {
    ||| from is UserIniting && to is UserInited
    ||| from is UserInited && to is CommitteesAnswered
    ||| from is UserInited && to is NoEnoughCommitteesAnswered
    ||| from is UserInited && to is UserDiscarded
    ||| from is CommitteesAnswered && to is UserBroadcastPeginPrepare
    ||| from is CommitteesAnswered && to is UserDiscarded
    ||| from is UserBroadcastPeginPrepare && to is Presigned
    ||| from is UserBroadcastPeginPrepare && to is PresignedFailed
    ||| from is Presigned && to is RelayerL1Broadcasted
    ||| from is Presigned && to is Timeout
    ||| from is PresignedFailed && to is Timeout
    ||| from is RelayerL1Broadcasted && to is RelayerL2Minted
    ||| from is RelayerL1Broadcasted && to is RelayerL2MintedFailed
    ||| from is Timeout && to is UserCanceled
}

/// The bridge-in states that no transition leaves.
pub open spec fn is_terminal_bridge_in_status(s: InstanceBridgeInStatus) -> bool {
    s is RelayerL2Minted || s is RelayerL2MintedFailed || s is NoEnoughCommitteesAnswered
        || s is UserCanceled || s is UserDiscarded
}

/// The result of the guarded setter: the new status when the transition is
/// allowed, the rejected pair otherwise.
pub open spec fn bridge_in_transition_outcome(
    from: InstanceBridgeInStatus,
    to: InstanceBridgeInStatus,
) -> Result<InstanceBridgeInStatus, (InstanceBridgeInStatus, InstanceBridgeInStatus)> {
    if bridge_in_transition_allowed(from, to) {
        Ok(to)
    } else {
        Err((from, to))
    }
}

/// The status that the unguarded writer stores: always the requested one.
pub open spec fn bridge_in_unguarded_outcome(
    from: InstanceBridgeInStatus,
    to: InstanceBridgeInStatus,
) -> InstanceBridgeInStatus {
    to
}

/// Decides whether a bridge-in instance may move from `from` to `to`.
pub fn allowed_bridge_in_transition(
    from: InstanceBridgeInStatus,
    to: InstanceBridgeInStatus,
) -> (allowed: bool)
    ensures
        allowed == bridge_in_transition_allowed(from, to),
{
    match (from, to) {
        (InstanceBridgeInStatus::UserIniting, InstanceBridgeInStatus::UserInited)
        | (InstanceBridgeInStatus::UserInited, InstanceBridgeInStatus::CommitteesAnswered)
        | (InstanceBridgeInStatus::UserInited, InstanceBridgeInStatus::NoEnoughCommitteesAnswered)
        | (InstanceBridgeInStatus::UserInited, InstanceBridgeInStatus::UserDiscarded)
        | (
            InstanceBridgeInStatus::CommitteesAnswered,
            InstanceBridgeInStatus::UserBroadcastPeginPrepare,
        )
        | (InstanceBridgeInStatus::CommitteesAnswered, InstanceBridgeInStatus::UserDiscarded)
        | (InstanceBridgeInStatus::UserBroadcastPeginPrepare, InstanceBridgeInStatus::Presigned)
        | (
            InstanceBridgeInStatus::UserBroadcastPeginPrepare,
            InstanceBridgeInStatus::PresignedFailed,
        )
        | (InstanceBridgeInStatus::Presigned, InstanceBridgeInStatus::RelayerL1Broadcasted)
        | (InstanceBridgeInStatus::Presigned, InstanceBridgeInStatus::Timeout)
        | (InstanceBridgeInStatus::PresignedFailed, InstanceBridgeInStatus::Timeout)
        | (InstanceBridgeInStatus::RelayerL1Broadcasted, InstanceBridgeInStatus::RelayerL2Minted)
        | (
            InstanceBridgeInStatus::RelayerL1Broadcasted,
            InstanceBridgeInStatus::RelayerL2MintedFailed,
        )
        | (InstanceBridgeInStatus::Timeout, InstanceBridgeInStatus::UserCanceled) => true,
        _ => false,
    }
}

/// Whether `status` is a bridge-in state that no transition leaves.
pub fn is_terminal(status: InstanceBridgeInStatus) -> (terminal: bool)
    ensures
        terminal == is_terminal_bridge_in_status(status),
{
    match status {
        InstanceBridgeInStatus::RelayerL2Minted
        | InstanceBridgeInStatus::RelayerL2MintedFailed
        | InstanceBridgeInStatus::NoEnoughCommitteesAnswered
        | InstanceBridgeInStatus::UserCanceled
        | InstanceBridgeInStatus::UserDiscarded => true,
        _ => false,
    }
}

/// The write performed by the node's current instance writer: the requested
/// status is stored whatever the current one is.
pub fn unguarded_set_status(
    _from: InstanceBridgeInStatus,
    to: InstanceBridgeInStatus,
) -> (status: InstanceBridgeInStatus)
    ensures
        status == bridge_in_unguarded_outcome(_from, to),
        status == to,
{
    to
}

/// The guarded setter: moves to `to` only when the intended bridge-in state
/// machine allows the transition, and hands back the rejected pair otherwise.
pub fn try_transition_bridge_in_status(
    from: InstanceBridgeInStatus,
    to: InstanceBridgeInStatus,
) -> (outcome: Result<InstanceBridgeInStatus, (InstanceBridgeInStatus, InstanceBridgeInStatus)>)
    ensures
        outcome == bridge_in_transition_outcome(from, to),
{
    if allowed_bridge_in_transition(from, to) {
        Ok(to)
    } else {
        Err((from, to))
    }
}

/// `RelayerL2Minted` is entered only from `RelayerL1Broadcasted`.
pub proof fn minted_requires_prior_committee_answer(
    from: InstanceBridgeInStatus,
    to: InstanceBridgeInStatus,
)
    ensures
        bridge_in_transition_allowed(from, to) && to is RelayerL2Minted ==> from
            is RelayerL1Broadcasted,
{
}

/// No transition leaves a terminal bridge-in state.
pub proof fn terminal_states_are_absorbing(
    from: InstanceBridgeInStatus,
    to: InstanceBridgeInStatus,
)
    ensures
        is_terminal_bridge_in_status(from) ==> !bridge_in_transition_allowed(from, to),
{
}

/// The guarded setter never produces a transition outside the state machine.
pub proof fn guarded_setter_never_violates_spec(
    from: InstanceBridgeInStatus,
    to: InstanceBridgeInStatus,
)
    ensures
        bridge_in_transition_outcome(from, to) matches Ok(status) ==> bridge_in_transition_allowed(
            from,
            status,
        ),
{
}

/// The unguarded writer can realize a transition that the state machine
/// forbids: for some current status and some requested one, the stored status
/// is not an allowed successor of the current one.
pub proof fn unguarded_setter_can_violate_spec()
    ensures
        exists|from: InstanceBridgeInStatus, to: InstanceBridgeInStatus|
            !bridge_in_transition_allowed(from, #[trigger] bridge_in_unguarded_outcome(from, to)),
{
    let from = InstanceBridgeInStatus::UserIniting;
    let to = InstanceBridgeInStatus::RelayerL2Minted;
    assert(!bridge_in_transition_allowed(from, bridge_in_unguarded_outcome(from, to)));
}

/// Transitions keep an instance among the persisted states, in both
/// directions: every allowed transition joins two persisted states.
pub proof fn transitions_join_persisted_states(
    from: InstanceBridgeInStatus,
    to: InstanceBridgeInStatus,
)
    requires
        bridge_in_transition_allowed(from, to),
    ensures
        is_persisted_bridge_in_status(from),
        is_persisted_bridge_in_status(to),
{
}

/// `ALL_STATES` lists each persisted state once and nothing else.
pub proof fn all_states_are_the_persisted_states()
    ensures
        forall|s: InstanceBridgeInStatus|
            ALL_STATES@.contains(s) <==> is_persisted_bridge_in_status(s),
        forall|i: int, j: int|
            0 <= i < j < ALL_STATES@.len() ==> ALL_STATES@[i] != ALL_STATES@[j],
{
    assert forall|s: InstanceBridgeInStatus| is_persisted_bridge_in_status(s) implies ALL_STATES@.contains(
        s,
    ) by {
        match s {
            InstanceBridgeInStatus::UserIniting => assert(ALL_STATES@[0] == s),
            InstanceBridgeInStatus::UserInited => assert(ALL_STATES@[1] == s),
            InstanceBridgeInStatus::CommitteesAnswered => assert(ALL_STATES@[2] == s),
            InstanceBridgeInStatus::UserBroadcastPeginPrepare => assert(ALL_STATES@[3] == s),
            InstanceBridgeInStatus::Presigned => assert(ALL_STATES@[4] == s),
            InstanceBridgeInStatus::PresignedFailed => assert(ALL_STATES@[5] == s),
            InstanceBridgeInStatus::RelayerL1Broadcasted => assert(ALL_STATES@[6] == s),
            InstanceBridgeInStatus::RelayerL2Minted => assert(ALL_STATES@[7] == s),
            InstanceBridgeInStatus::RelayerL2MintedFailed => assert(ALL_STATES@[8] == s),
            InstanceBridgeInStatus::Timeout => assert(ALL_STATES@[9] == s),
            InstanceBridgeInStatus::UserCanceled => assert(ALL_STATES@[10] == s),
            InstanceBridgeInStatus::NoEnoughCommitteesAnswered => assert(ALL_STATES@[11] == s),
            InstanceBridgeInStatus::UserDiscarded => assert(ALL_STATES@[12] == s),
            _ => {},
        }
    }
}

/// Step `i` of `path` is an allowed bridge-in transition.
pub open spec fn bridge_in_step_allowed(path: Seq<InstanceBridgeInStatus>, i: int) -> bool {
    bridge_in_transition_allowed(path[i], path[i + 1])
}

/// A history of a bridge-in instance in which every step is an allowed
/// transition.
pub open spec fn is_bridge_in_history(path: Seq<InstanceBridgeInStatus>) -> bool {
    forall|i: int| 0 <= i < path.len() - 1 ==> #[trigger] bridge_in_step_allowed(path, i)
}

/// The states that lie behind committee attestation: `CommitteesAnswered` and
/// every state that the intended transitions reach from it.
pub open spec fn is_past_committee_answer(s: InstanceBridgeInStatus) -> bool {
    s is CommitteesAnswered || s is UserBroadcastPeginPrepare || s is Presigned
        || s is PresignedFailed || s is RelayerL1Broadcasted || s is RelayerL2Minted
        || s is RelayerL2MintedFailed || s is Timeout || s is UserCanceled
}

proof fn past_committee_answer_reached_through_it(path: Seq<InstanceBridgeInStatus>, k: int)
    requires
        is_bridge_in_history(path),
        path.len() > 0,
        path[0] is UserIniting,
        0 <= k < path.len(),
        is_past_committee_answer(path[k]),
    ensures
        exists|i: int| 0 <= i <= k && #[trigger] path[i] is CommitteesAnswered,
    decreases k,
{
    if !(path[k] is CommitteesAnswered) {
        assert(k > 0);
        assert(bridge_in_step_allowed(path, k - 1));
        past_committee_answer_reached_through_it(path, k - 1);
    }
}

/// No path skips committee attestation: every history of an instance that
/// starts at `UserIniting` and reaches `RelayerL2Minted` passes through
/// `CommitteesAnswered` before it.
pub proof fn minted_history_passes_committee_answer(path: Seq<InstanceBridgeInStatus>, k: int)
    requires
        is_bridge_in_history(path),
        path.len() > 0,
        path[0] is UserIniting,
        0 <= k < path.len(),
        path[k] is RelayerL2Minted,
    ensures
        exists|i: int| 0 <= i < k && #[trigger] path[i] is CommitteesAnswered,
{
    past_committee_answer_reached_through_it(path, k);
}

/// A terminal state ends every history it occurs in: an instance has at most
/// one terminal outcome.
pub proof fn terminal_status_ends_history(path: Seq<InstanceBridgeInStatus>, i: int)
    requires
        is_bridge_in_history(path),
        0 <= i < path.len(),
        is_terminal_bridge_in_status(path[i]),
    ensures
        i == path.len() - 1,
{
    if i < path.len() - 1 {
        assert(bridge_in_step_allowed(path, i));
    }
}

/// The unguarded writers store exactly the requested status, whatever the
/// current status is: every current status is overwritten by every request.
pub proof fn unguarded_writer_stores_requested_status()
    ensures
        forall|from: InstanceBridgeInStatus, to: InstanceBridgeInStatus| #[trigger] bridge_in_unguarded_outcome(from, to) == to,
{
}

/// Two unguarded writes with the same request store the same status, from
/// any two current statuses: the current status plays no part in the write.
pub proof fn unguarded_write_ignores_current_status(from1: InstanceBridgeInStatus, from2: InstanceBridgeInStatus, to: InstanceBridgeInStatus)
    ensures
        bridge_in_unguarded_outcome(from1, to) == bridge_in_unguarded_outcome(from2, to),
        bridge_in_unguarded_outcome(from1, to) == to,
{
}

} // verus!
