//! The mathematical model of a validator set: its four sequences, the
//! configuration it was created with, and what each operation makes of them.

use crate::checks::{remaining, violates_min};
use crate::types::{Config, MembershipState, RemovalReason, ValidatorId};
use vstd::prelude::*;

verus! {

/// Everything a validator set remembers between two calls.
#[verifier::ext_equal]
pub struct State {
    /// The constants the set was created with.
    pub config: Config,
    /// The authoritative validator set, oldest member first.
    pub validators: Seq<ValidatorId>,
    /// Validators reported offline since the last session boundary.
    pub offline: Seq<ValidatorId>,
    /// Validators disabled since the last session boundary.
    pub disabled: Seq<ValidatorId>,
    /// Validators that may add themselves back after leaving the set.
    pub approved: Seq<ValidatorId>,
}

/// `approved` with `id` in it: appended if it was missing, untouched if not.
pub open spec fn approve(approved: Seq<ValidatorId>, id: ValidatorId) -> Seq<ValidatorId> {
    if approved.contains(id) {
        approved
    } else {
        approved.push(id)
    }
}

impl State {
    /// A state is valid when neither the validator set nor the approved set
    /// holds an identifier twice. The staging queues may hold anything.
    pub open spec fn valid(self) -> bool {
        self.validators.no_duplicates() && self.approved.no_duplicates()
    }

    /// Where `id` stands: members are active or pending removal, everyone
    /// else is approved or removed.
    pub open spec fn membership(self, id: ValidatorId) -> MembershipState {
        if self.validators.contains(id) {
            if self.offline.contains(id) {
                MembershipState::PendingRemoval { reason: RemovalReason::Offline }
            } else if self.disabled.contains(id) {
                MembershipState::PendingRemoval { reason: RemovalReason::Disabled }
            } else {
                MembershipState::Active
            }
        } else if self.approved.contains(id) {
            MembershipState::Approved
        } else {
            MembershipState::Removed
        }
    }

    /// The state of a freshly created, not yet initialized set.
    pub open spec fn empty(config: Config) -> State {
        State {
            config,
            validators: Seq::empty(),
            offline: Seq::empty(),
            disabled: Seq::empty(),
            approved: Seq::empty(),
        }
    }

    /// Whether the set holds at least the configured minimum of validators.
    pub open spec fn quorate(self) -> bool {
        self.validators.len() >= self.config.min_authorities
    }

    /// The state after genesis: `initial` is the validator set and the
    /// approved set.
    pub open spec fn initialized(self, initial: Seq<ValidatorId>) -> State {
        State { validators: initial, approved: initial, ..self }
    }

    /// The state after `id` joined the set and was approved.
    pub open spec fn added(self, id: ValidatorId) -> State {
        State {
            validators: self.validators.push(id),
            approved: approve(self.approved, id),
            ..self
        }
    }

    /// The state after the approved validator `id` joined the set again.
    pub open spec fn added_again(self, id: ValidatorId) -> State {
        State { validators: self.validators.push(id), ..self }
    }

    /// Whether the explicit removal of `id` is refused: fewer than the minimum
    /// would be left.
    pub open spec fn refuses_removal(self, id: ValidatorId) -> bool {
        violates_min(self.validators, seq![id], true, self.config.min_authorities)
    }

    /// The state after `id` left the set and lost its approval.
    pub open spec fn removed(self, id: ValidatorId) -> State {
        State {
            validators: remaining(self.validators, seq![id]),
            approved: remaining(self.approved, seq![id]),
            ..self
        }
    }

    /// Whether removing all of `ids` at once is refused under the given
    /// policy.
    pub open spec fn refuses_batch(self, ids: Seq<ValidatorId>, check_enabled: bool) -> bool {
        violates_min(self.validators, ids, check_enabled, self.config.min_authorities)
    }

    /// The state after all of `ids` left the set. Approvals stay.
    pub open spec fn without(self, ids: Seq<ValidatorId>) -> State {
        State { validators: remaining(self.validators, ids), ..self }
    }

    /// The queue of validators staged for removal for `reason`.
    pub open spec fn staged(self, reason: RemovalReason) -> Seq<ValidatorId> {
        match reason {
            RemovalReason::Offline => self.offline,
            RemovalReason::Disabled => self.disabled,
        }
    }

    /// The state with the queue for `reason` emptied.
    pub open spec fn drained(self, reason: RemovalReason) -> State {
        match reason {
            RemovalReason::Offline => State { offline: Seq::empty(), ..self },
            RemovalReason::Disabled => State { disabled: Seq::empty(), ..self },
        }
    }

    /// Whether the batch staged for `reason` is refused at a session boundary.
    pub open spec fn refuses_flush(self, reason: RemovalReason) -> bool {
        self.refuses_batch(self.staged(reason), self.config.checks(reason))
    }

    /// The state after the batch staged for `reason` was flushed: applied as a
    /// whole and its queue emptied, or refused as a whole and left queued.
    pub open spec fn flushed(self, reason: RemovalReason) -> State {
        if self.refuses_flush(reason) {
            self
        } else {
            self.without(self.staged(reason)).drained(reason)
        }
    }

    /// The state after a session boundary: the offline batch is flushed, then
    /// the disabled batch, each on its own.
    pub open spec fn next_session(self) -> State {
        self.flushed(RemovalReason::Offline).flushed(RemovalReason::Disabled)
    }

    /// The state after `id` was staged for removal for `reason`.
    pub open spec fn marked(self, reason: RemovalReason, id: ValidatorId) -> State {
        match reason {
            RemovalReason::Offline => State { offline: self.offline.push(id), ..self },
            RemovalReason::Disabled => State { disabled: self.disabled.push(id), ..self },
        }
    }
}

} // verus!
