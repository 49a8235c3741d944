//! The validator set itself: the store of its four sequences and the
//! operations that change them.

use crate::checks::{
    is_duplicate, is_unique, lemma_push_no_duplicates, lemma_remaining_no_duplicates,
    retain_absent, would_violate_min,
};
use crate::laws::lemma_next_session_with_empty_queues;
use crate::state::State;
use crate::types::{
    Authorization, Config, Error, Event, MembershipState, NewSession, OffenceAction, OffenceEvent,
    RemovalReason, ValidatorId,
};
use vstd::prelude::*;
use vstd::slice::slice_to_vec;

verus! {

/// A validator set with its staging queues. Every state that the operations
/// below can reach from [`Pallet::new`] or [`Pallet::load`] is valid.
#[derive(Debug, PartialEq, Eq)]
pub struct Pallet {
    config: Config,
    validators: Vec<ValidatorId>,
    offline_validators: Vec<ValidatorId>,
    disabled_validators: Vec<ValidatorId>,
    approved_validators: Vec<ValidatorId>,
}

impl View for Pallet {
    type V = State;

    closed spec fn view(&self) -> State {
        State {
            config: self.config,
            validators: self.validators@,
            offline: self.offline_validators@,
            disabled: self.disabled_validators@,
            approved: self.approved_validators@,
        }
    }
}

impl Clone for Pallet {
    /// A second set in the same state.
    fn clone(&self) -> (copy: Pallet)
        ensures
            copy@ == self@,
    {
        Pallet {
            config: self.config,
            validators: self.validators.clone(),
            offline_validators: self.offline_validators.clone(),
            disabled_validators: self.disabled_validators.clone(),
            approved_validators: self.approved_validators.clone(),
        }
    }
}

/// The validators a set starts with.
#[derive(Debug, PartialEq, Eq)]
pub struct GenesisConfig {
    /// The first validator set; it is also the first approved set.
    pub initial_validators: Vec<ValidatorId>,
}

impl Clone for GenesisConfig {
    /// The same initial validators once more.
    fn clone(&self) -> (copy: GenesisConfig)
        ensures
            copy.initial_validators@ == self.initial_validators@,
    {
        GenesisConfig { initial_validators: self.initial_validators.clone() }
    }
}

impl Default for GenesisConfig {
    /// No initial validators.
    fn default() -> (genesis: GenesisConfig)
        ensures
            genesis.initial_validators@ == Seq::<ValidatorId>::empty(),
    {
        GenesisConfig { initial_validators: Vec::new() }
    }
}

impl GenesisConfig {
    /// Initializes `pallet` with the initial validators. The pallet must not
    /// hold validators yet, and the initial validators must be distinct and at
    /// least as many as the configured minimum.
    pub fn build(&self, pallet: &mut Pallet)
        requires
            old(pallet)@.validators.len() == 0,
            self.initial_validators@.len() >= old(pallet)@.config.min_authorities,
            self.initial_validators@.no_duplicates(),
        ensures
            final(pallet)@ == old(pallet)@.initialized(self.initial_validators@),
            final(pallet)@.valid(),
            final(pallet)@.quorate(),
    {
        pallet.initialize_validators(self.initial_validators.as_slice());
    }
}

impl Pallet {
    /// An empty set that still awaits its initial validators.
    pub fn new(config: Config) -> (pallet: Pallet)
        ensures
            pallet@ == State::empty(config),
            pallet@.valid(),
    {
        Pallet {
            config,
            validators: Vec::new(),
            offline_validators: Vec::new(),
            disabled_validators: Vec::new(),
            approved_validators: Vec::new(),
        }
    }

    /// Rebuilds a set from its persisted sequences. The sequences are taken as
    /// they are if they form a valid state, and refused otherwise.
    pub fn load(
        config: Config,
        validators: Vec<ValidatorId>,
        offline_validators: Vec<ValidatorId>,
        disabled_validators: Vec<ValidatorId>,
        approved_validators: Vec<ValidatorId>,
    ) -> (loaded: Option<Pallet>)
        ensures
            loaded is Some <==> validators@.no_duplicates() && approved_validators@.no_duplicates(),
            loaded matches Some(pallet) ==> pallet@.valid() && pallet@ == (State {
                config,
                validators: validators@,
                offline: offline_validators@,
                disabled: disabled_validators@,
                approved: approved_validators@,
            }),
    {
        if is_unique(&validators) && is_unique(&approved_validators) {
            Some(
                Pallet {
                    config,
                    validators,
                    offline_validators,
                    disabled_validators,
                    approved_validators,
                },
            )
        } else {
            None
        }
    }

    /// The constants the set was created with.
    pub fn config(&self) -> (config: Config)
        ensures
            config == self@.config,
    {
        self.config
    }

    /// The authoritative validator set, oldest member first.
    pub fn validators(&self) -> (validators: &Vec<ValidatorId>)
        ensures
            validators@ == self@.validators,
    {
        &self.validators
    }

    /// The validators reported offline since the last session boundary.
    pub fn offline_validators(&self) -> (offline: &Vec<ValidatorId>)
        ensures
            offline@ == self@.offline,
    {
        &self.offline_validators
    }

    /// The validators disabled since the last session boundary.
    pub fn disabled_validators(&self) -> (disabled: &Vec<ValidatorId>)
        ensures
            disabled@ == self@.disabled,
    {
        &self.disabled_validators
    }

    /// The validators that may add themselves back after leaving the set.
    pub fn approved_validators(&self) -> (approved: &Vec<ValidatorId>)
        ensures
            approved@ == self@.approved,
    {
        &self.approved_validators
    }

    /// Where `validator_id` stands in the life of the set.
    pub fn membership_state(&self, validator_id: ValidatorId) -> (membership: MembershipState)
        ensures
            membership == self@.membership(validator_id),
    {
        if is_duplicate(&self.validators, validator_id) {
            if is_duplicate(&self.offline_validators, validator_id) {
                MembershipState::PendingRemoval { reason: RemovalReason::Offline }
            } else if is_duplicate(&self.disabled_validators, validator_id) {
                MembershipState::PendingRemoval { reason: RemovalReason::Disabled }
            } else {
                MembershipState::Active
            }
        } else if is_duplicate(&self.approved_validators, validator_id) {
            MembershipState::Approved
        } else {
            MembershipState::Removed
        }
    }

    /// Installs the initial validator set; the approved set becomes the same
    /// validators. This is done once, on a set that holds no validators, with
    /// distinct validators that are at least as many as the configured
    /// minimum.
    pub fn initialize_validators(&mut self, validators: &[ValidatorId])
        requires
            old(self)@.validators.len() == 0,
            validators@.len() >= old(self)@.config.min_authorities,
            validators@.no_duplicates(),
        ensures
            final(self)@ == old(self)@.initialized(validators@),
            final(self)@.valid(),
            final(self)@.quorate(),
    {
        self.validators = slice_to_vec(validators);
        self.approved_validators = slice_to_vec(validators);
    }

    /// Adds `validator_id` to the set and approves it, unless it is already a
    /// member.
    pub fn do_add_validator(&mut self, validator_id: ValidatorId) -> (result: Result<Event, Error>)
        ensures
            old(self)@.validators.contains(validator_id) ==> result == Err::<Event, Error>(
                Error::Duplicate,
            ) && final(self)@ == old(self)@,
            !old(self)@.validators.contains(validator_id) ==> result == Ok::<Event, Error>(
                Event::ValidatorAdditionInitiated(validator_id),
            ) && final(self)@ == old(self)@.added(validator_id),
            old(self)@.valid() ==> final(self)@.valid(),
            old(self)@.quorate() ==> final(self)@.quorate(),
    {
        if is_duplicate(&self.validators, validator_id) {
            return Err(Error::Duplicate);
        }
        proof {
            if self@.valid() {
                lemma_push_no_duplicates(self.validators@, validator_id);
                if !self.approved_validators@.contains(validator_id) {
                    lemma_push_no_duplicates(self.approved_validators@, validator_id);
                }
            }
        }
        self.validators.push(validator_id);
        if !is_duplicate(&self.approved_validators, validator_id) {
            self.approved_validators.push(validator_id);
        }
        Ok(Event::ValidatorAdditionInitiated(validator_id))
    }

    /// Adds a validator on behalf of a caller whose origin the host has
    /// checked. A denied caller changes nothing.
    pub fn add_validator(
        &mut self,
        origin: Authorization,
        validator_id: ValidatorId,
    ) -> (result: Result<Event, Error>)
        ensures
            origin == Authorization::Deny ==> result == Err::<Event, Error>(Error::Unauthorized)
                && final(self)@ == old(self)@,
            origin == Authorization::Allow && old(self)@.validators.contains(validator_id)
                ==> result == Err::<Event, Error>(Error::Duplicate) && final(self)@ == old(self)@,
            origin == Authorization::Allow && !old(self)@.validators.contains(validator_id)
                ==> result == Ok::<Event, Error>(Event::ValidatorAdditionInitiated(validator_id))
                && final(self)@ == old(self)@.added(validator_id),
            old(self)@.valid() ==> final(self)@.valid(),
            old(self)@.quorate() ==> final(self)@.quorate(),
    {
        match origin {
            Authorization::Deny => Err(Error::Unauthorized),
            Authorization::Allow => self.do_add_validator(validator_id),
        }
    }

    /// Adds back a validator that left the set but is still approved. The
    /// approved set is not changed.
    pub fn add_validator_again(
        &mut self,
        origin: Authorization,
        validator_id: ValidatorId,
    ) -> (result: Result<Event, Error>)
        ensures
            origin == Authorization::Deny ==> result == Err::<Event, Error>(Error::Unauthorized),
            origin == Authorization::Allow && !old(self)@.approved.contains(validator_id)
                ==> result == Err::<Event, Error>(Error::ValidatorNotApproved),
            origin == Authorization::Allow && old(self)@.approved.contains(validator_id)
                && old(self)@.validators.contains(validator_id) ==> result == Err::<Event, Error>(
                Error::Duplicate,
            ),
            origin == Authorization::Allow && old(self)@.approved.contains(validator_id)
                && !old(self)@.validators.contains(validator_id) ==> result == Ok::<Event, Error>(
                Event::ValidatorAdditionInitiated(validator_id),
            ),
            result is Ok <==> origin == Authorization::Allow && old(self)@.membership(validator_id)
                == MembershipState::Approved,
            result is Ok ==> final(self)@ == old(self)@.added_again(validator_id),
            result is Err ==> final(self)@ == old(self)@,
            old(self)@.valid() ==> final(self)@.valid(),
            old(self)@.quorate() ==> final(self)@.quorate(),
    {
        match origin {
            Authorization::Deny => Err(Error::Unauthorized),
            Authorization::Allow => {
                if !is_duplicate(&self.approved_validators, validator_id) {
                    return Err(Error::ValidatorNotApproved);
                }
                if is_duplicate(&self.validators, validator_id) {
                    return Err(Error::Duplicate);
                }
                proof {
                    if self@.valid() {
                        lemma_push_no_duplicates(self.validators@, validator_id);
                    }
                }
                self.validators.push(validator_id);
                Ok(Event::ValidatorAdditionInitiated(validator_id))
            },
        }
    }

    /// Removes `validator_id` from the set and from the approved set, unless
    /// fewer validators than the minimum would be left. Removing a validator
    /// that is not in the set leaves the set as it is.
    pub fn do_remove_validator(&mut self, validator_id: ValidatorId) -> (result: Result<Event, Error>)
        ensures
            old(self)@.refuses_removal(validator_id) ==> result == Err::<Event, Error>(
                Error::TooLowValidatorCount,
            ) && final(self)@ == old(self)@,
            !old(self)@.refuses_removal(validator_id) ==> result == Ok::<Event, Error>(
                Event::ValidatorRemovalInitiated(validator_id),
            ) && final(self)@ == old(self)@.removed(validator_id),
            result is Ok ==> final(self)@.quorate(),
            old(self)@.valid() ==> final(self)@.valid(),
    {
        let ids: Vec<ValidatorId> = vec![validator_id];
        assert(ids@ =~= seq![validator_id]);
        if would_violate_min(&self.validators, &ids, true, self.config.min_authorities) {
            return Err(Error::TooLowValidatorCount);
        }
        proof {
            if self@.valid() {
                lemma_remaining_no_duplicates(self.validators@, ids@);
                lemma_remaining_no_duplicates(self.approved_validators@, ids@);
            }
        }
        self.validators = retain_absent(&self.validators, &ids);
        self.approved_validators = retain_absent(&self.approved_validators, &ids);
        Ok(Event::ValidatorRemovalInitiated(validator_id))
    }

    /// Removes a validator on behalf of a caller whose origin the host has
    /// checked. A denied caller changes nothing.
    pub fn remove_validator(
        &mut self,
        origin: Authorization,
        validator_id: ValidatorId,
    ) -> (result: Result<Event, Error>)
        ensures
            origin == Authorization::Deny ==> result == Err::<Event, Error>(Error::Unauthorized)
                && final(self)@ == old(self)@,
            origin == Authorization::Allow && old(self)@.refuses_removal(validator_id)
                ==> result == Err::<Event, Error>(Error::TooLowValidatorCount) && final(self)@
                == old(self)@,
            origin == Authorization::Allow && !old(self)@.refuses_removal(validator_id)
                ==> result == Ok::<Event, Error>(Event::ValidatorRemovalInitiated(validator_id))
                && final(self)@ == old(self)@.removed(validator_id),
            result is Ok ==> final(self)@.quorate(),
            old(self)@.valid() ==> final(self)@.valid(),
    {
        match origin {
            Authorization::Deny => Err(Error::Unauthorized),
            Authorization::Allow => self.do_remove_validator(validator_id),
        }
    }

    /// Removes all of `validators` from the set at once, or none of them: with
    /// `check_min_authorities` set, the removal is refused if fewer validators
    /// than the minimum would be left. Approvals are kept.
    pub fn do_remove_validators(
        &mut self,
        validators: &Vec<ValidatorId>,
        check_min_authorities: bool,
    ) -> (result: Result<(), Error>)
        ensures
            old(self)@.refuses_batch(validators@, check_min_authorities) ==> result == Err::<
                (),
                Error,
            >(Error::TooLowValidatorCount) && final(self)@ == old(self)@,
            !old(self)@.refuses_batch(validators@, check_min_authorities) ==> result == Ok::<
                (),
                Error,
            >(()) && final(self)@ == old(self)@.without(validators@),
            result is Ok && check_min_authorities ==> final(self)@.quorate(),
            old(self)@.valid() ==> final(self)@.valid(),
    {
        if would_violate_min(
            &self.validators,
            validators,
            check_min_authorities,
            self.config.min_authorities,
        ) {
            return Err(Error::TooLowValidatorCount);
        }
        proof {
            if self@.valid() {
                lemma_remaining_no_duplicates(self.validators@, validators@);
            }
        }
        self.validators = retain_absent(&self.validators, validators);
        Ok(())
    }

    /// Stages `validator_id` for removal at the next session boundary because
    /// it was reported offline. Staging a validator twice is harmless.
    pub fn mark_offline_for_removal(&mut self, validator_id: ValidatorId)
        ensures
            final(self)@ == old(self)@.marked(RemovalReason::Offline, validator_id),
            old(self)@.valid() ==> final(self)@.valid(),
            old(self)@.quorate() ==> final(self)@.quorate(),
    {
        self.offline_validators.push(validator_id);
    }

    /// Stages `validator_id` for removal at the next session boundary because
    /// it was disabled.
    pub fn mark_disabled_for_removal(&mut self, validator_id: ValidatorId)
        ensures
            final(self)@ == old(self)@.marked(RemovalReason::Disabled, validator_id),
            old(self)@.valid() ==> final(self)@.valid(),
            old(self)@.quorate() ==> final(self)@.quorate(),
    {
        self.disabled_validators.push(validator_id);
    }

    /// Flushes the validators reported offline: removes them all and empties
    /// their queue, or, where the offline policy checks the minimum and the
    /// removal would breach it, removes none and leaves them queued.
    pub fn remove_offline_validators(&mut self) -> (result: Result<(), Error>)
        ensures
            final(self)@ == old(self)@.flushed(RemovalReason::Offline),
            old(self)@.refuses_flush(RemovalReason::Offline) ==> result == Err::<(), Error>(
                Error::TooLowValidatorCount,
            ),
            !old(self)@.refuses_flush(RemovalReason::Offline) ==> result == Ok::<(), Error>(()),
            old(self)@.valid() ==> final(self)@.valid(),
            old(self)@.quorate() && old(self)@.config.min_authorities_on_offline
                ==> final(self)@.quorate(),
    {
        let check = self.config.check_min_authorities(RemovalReason::Offline);
        let mut staged: Vec<ValidatorId> = Vec::new();
        core::mem::swap(&mut self.offline_validators, &mut staged);
        let result = self.do_remove_validators(&staged, check);
        if result.is_err() {
            self.offline_validators = staged;
        }
        result
    }

    /// Flushes the disabled validators: removes them all and empties their
    /// queue, or, where the disabled policy checks the minimum and the removal
    /// would breach it, removes none and leaves them queued.
    pub fn remove_disabled_validators(&mut self) -> (result: Result<(), Error>)
        ensures
            final(self)@ == old(self)@.flushed(RemovalReason::Disabled),
            old(self)@.refuses_flush(RemovalReason::Disabled) ==> result == Err::<(), Error>(
                Error::TooLowValidatorCount,
            ),
            !old(self)@.refuses_flush(RemovalReason::Disabled) ==> result == Ok::<(), Error>(()),
            old(self)@.valid() ==> final(self)@.valid(),
            old(self)@.quorate() && old(self)@.config.min_authorities_on_disabled
                ==> final(self)@.quorate(),
    {
        let check = self.config.check_min_authorities(RemovalReason::Disabled);
        let mut staged: Vec<ValidatorId> = Vec::new();
        core::mem::swap(&mut self.disabled_validators, &mut staged);
        let result = self.do_remove_validators(&staged, check);
        if result.is_err() {
            self.disabled_validators = staged;
        }
        result
    }

    /// Advances the set over a session boundary, the one point at which staged
    /// removals take effect: flushes the offline batch, then the disabled
    /// batch, and hands out the resulting validator set for the coming
    /// session. The two batches are independent; a refused batch does not undo
    /// the other. With both queues empty nothing changes.
    pub fn new_session(&mut self) -> (planned: NewSession)
        ensures
            final(self)@ == old(self)@.next_session(),
            planned.validators@ == final(self)@.validators,
            planned.offline_removal is Err <==> old(self)@.refuses_flush(RemovalReason::Offline),
            planned.disabled_removal is Err <==> old(self)@.flushed(
                RemovalReason::Offline,
            ).refuses_flush(RemovalReason::Disabled),
            planned.offline_removal matches Err(e) ==> e == Error::TooLowValidatorCount,
            planned.disabled_removal matches Err(e) ==> e == Error::TooLowValidatorCount,
            old(self)@.offline.len() == 0 && old(self)@.disabled.len() == 0 ==> final(self)@
                == old(self)@ && planned.validators@ == old(self)@.validators,
            old(self)@.valid() ==> final(self)@.valid(),
            old(self)@.quorate() && old(self)@.config.min_authorities_on_offline
                && old(self)@.config.min_authorities_on_disabled ==> final(self)@.quorate(),
    {
        proof {
            if self@.offline.len() == 0 && self@.disabled.len() == 0 {
                lemma_next_session_with_empty_queues(self@);
            }
        }
        let offline_removal = self.remove_offline_validators();
        let disabled_removal = self.remove_disabled_validators();
        let validators = self.validators.clone();
        NewSession { validators, offline_removal, disabled_removal }
    }

    /// Takes an offence report whose offenders are unresponsive validators:
    /// every one of them is staged for removal as offline, in the order given.
    pub fn report_offence(&mut self, offenders: &Vec<ValidatorId>)
        ensures
            final(self)@ == (State { offline: old(self)@.offline + offenders@, ..old(self)@ }),
            old(self)@.valid() ==> final(self)@.valid(),
            old(self)@.quorate() ==> final(self)@.quorate(),
    {
        let mut i: usize = 0;
        while i < offenders.len()
            invariant
                i <= offenders.len(),
                self@ == (State {
                    offline: old(self)@.offline + offenders@.take(i as int),
                    ..old(self)@
                }),
            decreases offenders.len() - i,
        {
            assert(offenders@.take(i + 1) =~= offenders@.take(i as int).push(offenders@[i as int]));
            self.mark_offline_for_removal(offenders[i]);
            i += 1;
        }
        assert(offenders@.take(offenders.len() as int) =~= offenders@);
    }

    /// One step in the handling of an offender. When an offender is reported,
    /// the strategy decides whether the registry is to be asked to disable it.
    /// When the registry answers that it disabled the offender for the first
    /// time, the offender is staged for removal and the on-disabled hook is
    /// due; any other answer changes nothing.
    pub fn on_offence(&mut self, event: OffenceEvent) -> (action: OffenceAction)
        ensures
            match event {
                OffenceEvent::Reported { offender, disable_strategy } => {
                    &&& final(self)@ == old(self)@
                    &&& action == if disable_strategy.disables() {
                        OffenceAction::Disable(offender)
                    } else {
                        OffenceAction::Nothing
                    }
                },
                OffenceEvent::DisableResult { offender, newly_disabled } => {
                    if newly_disabled {
                        &&& final(self)@ == old(self)@.marked(RemovalReason::Disabled, offender)
                        &&& action == OffenceAction::OnDisabled(offender)
                    } else {
                        &&& final(self)@ == old(self)@
                        &&& action == OffenceAction::Nothing
                    }
                },
            },
            old(self)@.valid() ==> final(self)@.valid(),
            old(self)@.quorate() ==> final(self)@.quorate(),
    {
        match event {
            OffenceEvent::Reported { offender, disable_strategy } => {
                if disable_strategy.asks_to_disable() {
                    OffenceAction::Disable(offender)
                } else {
                    OffenceAction::Nothing
                }
            },
            OffenceEvent::DisableResult { offender, newly_disabled } => {
                if newly_disabled {
                    self.mark_disabled_for_removal(offender);
                    OffenceAction::OnDisabled(offender)
                } else {
                    OffenceAction::Nothing
                }
            },
        }
    }
}

} // verus!
