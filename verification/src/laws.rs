//! What holds of the model whatever the state and the arguments.

use crate::checks::{
    lemma_push_no_duplicates, lemma_remaining_contains, lemma_remaining_disjoint,
    lemma_remaining_len, lemma_remaining_no_duplicates, lemma_remaining_push, remaining,
    violates_min,
};
use crate::state::State;
use crate::types::{Config, MembershipState, RemovalReason, ValidatorId};
use vstd::prelude::*;

verus! {

/// The minimum-count check, read off the sizes: in a set without duplicates a
/// removal is refused exactly when the check is enabled and the size of the
/// set, less the number of distinct identifiers that it shares with the
/// removal list, is below the minimum.
pub proof fn lemma_violates_min_by_count(
    set: Seq<ValidatorId>,
    ids: Seq<ValidatorId>,
    check_enabled: bool,
    min_authorities: u32,
)
    requires
        set.no_duplicates(),
    ensures
        set.to_set().intersect(ids.to_set()).finite(),
        violates_min(set, ids, check_enabled, min_authorities) <==> check_enabled && set.len()
            - set.to_set().intersect(ids.to_set()).len() < min_authorities,
{
    lemma_remaining_len(set, ids);
}

/// A freshly created set is valid, and so is a set after genesis with
/// distinct initial validators. After genesis with at least the minimum of
/// validators the set holds the minimum.
pub proof fn lemma_initial_states_valid(s: State, config: Config, initial: Seq<ValidatorId>)
    requires
        initial.no_duplicates(),
    ensures
        State::empty(config).valid(),
        s.initialized(initial).valid(),
        initial.len() >= s.config.min_authorities ==> s.initialized(initial).quorate(),
{
}

/// No operation brings a duplicate into the validator set or the approved
/// set: from a valid state every operation leads to a valid state. Additions
/// are taken where the operations admit them, on identifiers not yet in the
/// set.
pub proof fn lemma_operations_preserve_validity(
    s: State,
    id: ValidatorId,
    ids: Seq<ValidatorId>,
    reason: RemovalReason,
)
    requires
        s.valid(),
    ensures
        !s.validators.contains(id) ==> s.added(id).valid(),
        !s.validators.contains(id) ==> s.added_again(id).valid(),
        s.removed(id).valid(),
        s.without(ids).valid(),
        s.marked(reason, id).valid(),
        s.flushed(reason).valid(),
        s.next_session().valid(),
{
    if !s.validators.contains(id) {
        lemma_push_no_duplicates(s.validators, id);
        if !s.approved.contains(id) {
            lemma_push_no_duplicates(s.approved, id);
        }
    }
    lemma_remaining_no_duplicates(s.validators, seq![id]);
    lemma_remaining_no_duplicates(s.approved, seq![id]);
    lemma_remaining_no_duplicates(s.validators, ids);
    lemma_remaining_no_duplicates(s.validators, s.staged(reason));
    lemma_remaining_no_duplicates(s.validators, s.offline);
    let after_offline = s.flushed(RemovalReason::Offline);
    lemma_remaining_no_duplicates(after_offline.validators, after_offline.disabled);
}

/// An explicit removal is refused exactly when it would leave fewer
/// validators than the minimum: removing a member takes one from the count,
/// removing a stranger takes nothing. A removal that is not refused leaves at
/// least the minimum.
pub proof fn lemma_removal_respects_minimum(s: State, id: ValidatorId)
    requires
        s.valid(),
    ensures
        s.validators.contains(id) ==> (s.refuses_removal(id) <==> s.validators.len() - 1
            < s.config.min_authorities),
        !s.validators.contains(id) ==> (s.refuses_removal(id) <==> s.validators.len()
            < s.config.min_authorities),
        !s.refuses_removal(id) ==> s.removed(id).quorate(),
        forall|x: ValidatorId|
            s.removed(id).validators.contains(x) <==> s.validators.contains(x) && x != id,
        forall|x: ValidatorId|
            s.removed(id).approved.contains(x) <==> s.approved.contains(x) && x != id,
{
    let ids = seq![id];
    lemma_remaining_len(s.validators, ids);
    assert(ids[0] == id);
    assert forall|x: ValidatorId|
        s.removed(id).validators.contains(x) <==> s.validators.contains(x) && x != id by {
        lemma_remaining_contains(s.validators, ids, x);
    }
    assert forall|x: ValidatorId|
        s.removed(id).approved.contains(x) <==> s.approved.contains(x) && x != id by {
        lemma_remaining_contains(s.approved, ids, x);
    }
    let shared = s.validators.to_set().intersect(ids.to_set());
    if s.validators.contains(id) {
        assert(shared =~= set![id]);
    } else {
        assert(shared =~= Set::<ValidatorId>::empty());
    }
}

/// Adding a validator that was not in the set and removing it again restores
/// the validator set, provided the set held at least the minimum to begin
/// with, so that the removal is not refused. If the validator was not approved
/// before, the whole state is restored.
pub proof fn lemma_add_then_remove_restores(s: State, id: ValidatorId)
    requires
        !s.validators.contains(id),
        s.quorate(),
    ensures
        !s.added(id).refuses_removal(id),
        s.added(id).removed(id).validators == s.validators,
        !s.approved.contains(id) ==> s.added(id).removed(id) == s,
{
    let ids = seq![id];
    assert(ids[0] == id);
    assert forall|x: ValidatorId| ids.contains(x) implies x == id by {}
    lemma_remaining_push(s.validators, id, ids);
    lemma_remaining_disjoint(s.validators, ids);
    if !s.approved.contains(id) {
        lemma_remaining_push(s.approved, id, ids);
        lemma_remaining_disjoint(s.approved, ids);
    }
}

/// A flush that is not refused takes exactly the staged validators out of the
/// set and empties their queue; a refused flush changes nothing.
pub proof fn lemma_flush_removes_the_staged(s: State, reason: RemovalReason)
    ensures
        s.refuses_flush(reason) ==> s.flushed(reason) == s,
        !s.refuses_flush(reason) ==> s.flushed(reason).staged(reason).len() == 0,
        !s.refuses_flush(reason) ==> forall|x: ValidatorId|
            s.flushed(reason).validators.contains(x) <==> s.validators.contains(x)
                && !s.staged(reason).contains(x),
        s.flushed(reason).approved == s.approved,
        s.config.checks(reason) && !s.refuses_flush(reason) ==> s.flushed(reason).quorate(),
{
    if !s.refuses_flush(reason) {
        assert forall|x: ValidatorId|
            s.flushed(reason).validators.contains(x) <==> s.validators.contains(x)
                && !s.staged(reason).contains(x) by {
            lemma_remaining_contains(s.validators, s.staged(reason), x);
        }
    }
}

/// The two flushes of a session boundary are independent: a refused disabled
/// batch leaves the offline flush applied, and a refused offline batch does
/// not keep the disabled batch from being flushed.
pub proof fn lemma_session_flushes_are_independent(s: State)
    ensures
        s.flushed(RemovalReason::Offline).refuses_flush(RemovalReason::Disabled)
            ==> s.next_session() == s.flushed(RemovalReason::Offline),
        s.refuses_flush(RemovalReason::Offline) ==> s.next_session() == s.flushed(
            RemovalReason::Disabled,
        ),
{
}

/// The life of a validator. An addition makes it a member, active unless it
/// was staged before. An explicit removal leaves it removed. Staging an active
/// validator makes it pending for that reason. A flush that is not refused
/// makes non-members of the validators that were pending for its reason, and
/// they keep what approval they had; it leaves active validators active.
pub proof fn lemma_membership_lifecycle(s: State, id: ValidatorId, reason: RemovalReason)
    ensures
        s.added(id).membership(id) is Active || s.added(id).membership(id) is PendingRemoval,
        s.added_again(id).membership(id) is Active || s.added_again(id).membership(id)
            is PendingRemoval,
        s.removed(id).membership(id) == MembershipState::Removed,
        s.membership(id) == (MembershipState::PendingRemoval { reason }) && !s.refuses_flush(reason)
            ==> s.flushed(reason).membership(id) == (if s.approved.contains(id) {
            MembershipState::Approved
        } else {
            MembershipState::Removed
        }),
        s.membership(id) is Active ==> s.flushed(reason).membership(id) is Active,
        s.membership(id) is Active ==> s.marked(reason, id).membership(id)
            == (MembershipState::PendingRemoval { reason }),
{
    assert(s.validators.push(id)[s.validators.len() as int] == id);
    lemma_remaining_contains(s.validators, seq![id], id);
    lemma_remaining_contains(s.approved, seq![id], id);
    assert(seq![id][0] == id);
    lemma_remaining_contains(s.validators, s.staged(reason), id);
    match reason {
        RemovalReason::Offline => {
            assert(s.offline.push(id)[s.offline.len() as int] == id);
        },
        RemovalReason::Disabled => {
            assert(s.disabled.push(id)[s.disabled.len() as int] == id);
            if s.offline.contains(id) {
                let i = choose|i: int| 0 <= i < s.offline.len() && s.offline[i] == id;
                assert(s.offline.push(id)[i] == id);
            }
        },
    }
}

/// Flushing an empty queue changes nothing, whether or not the flush is
/// refused.
pub proof fn lemma_flush_of_empty_queue(s: State, reason: RemovalReason)
    requires
        s.staged(reason).len() == 0,
    ensures
        s.flushed(reason) == s,
{
    assert(s.staged(reason) =~= Seq::<ValidatorId>::empty());
    lemma_remaining_disjoint(s.validators, s.staged(reason));
}

/// A session boundary with both queues empty changes nothing, and passing it
/// again changes nothing either.
pub proof fn lemma_next_session_with_empty_queues(s: State)
    requires
        s.offline.len() == 0,
        s.disabled.len() == 0,
    ensures
        s.next_session() == s,
        s.next_session().next_session() == s,
{
    lemma_flush_of_empty_queue(s, RemovalReason::Offline);
    lemma_flush_of_empty_queue(s, RemovalReason::Disabled);
}

/// Where the policy checks the minimum for both queues, no operation takes a
/// set that holds the minimum below it.
pub proof fn lemma_checked_operations_keep_quorum(s: State, id: ValidatorId, reason: RemovalReason)
    requires
        s.quorate(),
        s.config.min_authorities_on_offline,
        s.config.min_authorities_on_disabled,
    ensures
        s.added(id).quorate(),
        s.added_again(id).quorate(),
        !s.refuses_removal(id) ==> s.removed(id).quorate(),
        s.marked(reason, id).quorate(),
        s.flushed(reason).quorate(),
        s.next_session().quorate(),
{
}

} // verus!
