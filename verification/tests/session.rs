//! Staged removals, session boundaries and offence reports.

use validator_set::{
    Config, DisableStrategy, Error, NewSession, OffenceAction, OffenceEvent, Pallet, RemovalReason,
    ValidatorId,
};

fn set_of(min_authorities: u32, validators: &[ValidatorId]) -> Pallet {
    let mut pallet = Pallet::new(Config::new(min_authorities));
    pallet.initialize_validators(validators);
    pallet
}

/// A stand-in for the consensus-duty registry: it knows the validators of the
/// running session and which of them are disabled.
struct Registry {
    validators: Vec<ValidatorId>,
    disabled: Vec<ValidatorId>,
}

impl Registry {
    fn new(validators: &[ValidatorId]) -> Registry {
        Registry { validators: validators.to_vec(), disabled: Vec::new() }
    }

    /// Disables `id`; true if that disabled it for the first time.
    fn disable(&mut self, id: ValidatorId) -> bool {
        if !self.validators.contains(&id) || self.disabled.contains(&id) {
            return false;
        }
        self.disabled.push(id);
        true
    }
}

/// Plays the host for one offence report; returns the validators for which
/// the on-disabled hook was due, in order.
fn report(
    pallet: &mut Pallet,
    registry: &mut Registry,
    offenders: &[ValidatorId],
    disable_strategy: DisableStrategy,
) -> Vec<ValidatorId> {
    let mut hooked = Vec::new();
    for offender in offenders {
        let mut action =
            pallet.on_offence(OffenceEvent::Reported { offender: *offender, disable_strategy });
        if let OffenceAction::Disable(validator) = action {
            let newly_disabled = registry.disable(validator);
            action = pallet
                .on_offence(OffenceEvent::DisableResult { offender: validator, newly_disabled });
        }
        if let OffenceAction::OnDisabled(validator) = action {
            hooked.push(validator);
        }
    }
    hooked
}

#[test]
fn session_with_empty_queues_changes_nothing() {
    let mut pallet = set_of(2, &[1, 2, 3]);
    let before = pallet.clone();
    let planned = pallet.new_session();
    assert_eq!(
        planned,
        NewSession { validators: vec![1, 2, 3], offline_removal: Ok(()), disabled_removal: Ok(()) }
    );
    assert_eq!(pallet, before);
}

#[test]
fn offline_validator_leaves_at_the_session_boundary() {
    let mut pallet = set_of(2, &[1, 2, 3]);
    pallet.mark_offline_for_removal(2);
    assert_eq!(pallet.validators(), &vec![1u64, 2, 3]);
    assert_eq!(pallet.offline_validators(), &vec![2u64]);
    let first = pallet.new_session();
    assert_eq!(
        first,
        NewSession { validators: vec![1, 3], offline_removal: Ok(()), disabled_removal: Ok(()) }
    );
    assert!(pallet.offline_validators().is_empty());
    let second = pallet.new_session();
    assert_eq!(
        second,
        NewSession { validators: vec![1, 3], offline_removal: Ok(()), disabled_removal: Ok(()) }
    );
    assert_eq!(pallet.validators(), &vec![1u64, 3]);
}

#[test]
fn disabled_batch_below_the_minimum_is_refused() {
    let mut pallet = set_of(2, &[1, 2]);
    let mut registry = Registry::new(&[1, 2]);
    let hooked = report(&mut pallet, &mut registry, &[1], DisableStrategy::Always);
    assert_eq!(hooked, vec![1]);
    assert_eq!(registry.disabled, vec![1]);
    assert_eq!(pallet.disabled_validators(), &vec![1u64]);
    let planned = pallet.new_session();
    assert_eq!(
        planned,
        NewSession {
            validators: vec![1, 2],
            offline_removal: Ok(()),
            disabled_removal: Err(Error::TooLowValidatorCount),
        }
    );
    assert_eq!(pallet.validators(), &vec![1u64, 2]);
    assert_eq!(registry.disabled, vec![1]);
    assert_eq!(pallet.disabled_validators(), &vec![1u64]);
}

#[test]
fn refused_disabled_batch_does_not_undo_the_offline_batch() {
    let mut pallet = set_of(2, &[1, 2, 3]);
    pallet.mark_offline_for_removal(3);
    pallet.mark_disabled_for_removal(1);
    let planned = pallet.new_session();
    assert_eq!(
        planned,
        NewSession {
            validators: vec![1, 2],
            offline_removal: Ok(()),
            disabled_removal: Err(Error::TooLowValidatorCount),
        }
    );
    assert!(pallet.offline_validators().is_empty());
    assert_eq!(pallet.disabled_validators(), &vec![1u64]);
}

#[test]
fn refused_offline_batch_stays_queued() {
    let mut pallet = set_of(2, &[1, 2]);
    pallet.mark_offline_for_removal(2);
    assert_eq!(pallet.remove_offline_validators(), Err(Error::TooLowValidatorCount));
    assert_eq!(pallet.validators(), &vec![1u64, 2]);
    assert_eq!(pallet.offline_validators(), &vec![2u64]);
}

#[test]
fn unchecked_offline_batch_may_go_below_the_minimum() {
    let config = Config {
        min_authorities: 2,
        min_authorities_on_offline: false,
        min_authorities_on_disabled: true,
    };
    let mut pallet = Pallet::new(config);
    pallet.initialize_validators(&[1, 2]);
    pallet.mark_offline_for_removal(2);
    assert_eq!(pallet.remove_offline_validators(), Ok(()));
    assert_eq!(pallet.validators(), &vec![1u64]);
    assert!(pallet.offline_validators().is_empty());
    let planned = pallet.new_session();
    assert_eq!(
        planned,
        NewSession {
            validators: vec![1],
            offline_removal: Ok(()),
            disabled_removal: Err(Error::TooLowValidatorCount),
        }
    );
    assert_eq!(pallet.validators(), &vec![1u64]);
}

#[test]
fn unchecked_disabled_batch_is_always_applied() {
    let config = Config {
        min_authorities: 2,
        min_authorities_on_offline: true,
        min_authorities_on_disabled: false,
    };
    assert!(config.check_min_authorities(RemovalReason::Offline));
    assert!(!config.check_min_authorities(RemovalReason::Disabled));
    let mut pallet = Pallet::new(config);
    pallet.initialize_validators(&[1, 2]);
    pallet.mark_disabled_for_removal(1);
    pallet.mark_disabled_for_removal(2);
    assert_eq!(pallet.remove_disabled_validators(), Ok(()));
    assert!(pallet.validators().is_empty());
    assert!(pallet.disabled_validators().is_empty());
}

#[test]
fn staged_duplicates_and_strangers_do_not_count() {
    let mut pallet = set_of(2, &[1, 2, 3]);
    pallet.mark_offline_for_removal(2);
    pallet.mark_offline_for_removal(2);
    pallet.mark_offline_for_removal(9);
    pallet.mark_offline_for_removal(2);
    assert_eq!(pallet.offline_validators(), &vec![2u64, 2, 9, 2]);
    assert_eq!(pallet.remove_offline_validators(), Ok(()));
    assert_eq!(pallet.validators(), &vec![1u64, 3]);
    assert!(pallet.offline_validators().is_empty());
}

#[test]
fn batch_removal_is_all_or_nothing() {
    let mut pallet = set_of(2, &[1, 2, 3, 4]);
    let before = pallet.clone();
    assert_eq!(pallet.do_remove_validators(&vec![1, 2, 3], true), Err(Error::TooLowValidatorCount));
    assert_eq!(pallet, before);
    assert_eq!(pallet.do_remove_validators(&vec![4, 1], true), Ok(()));
    assert_eq!(pallet.validators(), &vec![2u64, 3]);
    assert_eq!(pallet.approved_validators(), &vec![1u64, 2, 3, 4]);
    assert_eq!(pallet.do_remove_validators(&vec![2, 3], false), Ok(()));
    assert!(pallet.validators().is_empty());
}

#[test]
fn unresponsive_offenders_are_staged_in_order() {
    let mut pallet = set_of(2, &[1, 2, 3]);
    pallet.mark_offline_for_removal(3);
    pallet.report_offence(&vec![1, 3, 1]);
    assert_eq!(pallet.offline_validators(), &vec![3u64, 1, 3, 1]);
    assert_eq!(pallet.validators(), &vec![1u64, 2, 3]);
    pallet.report_offence(&vec![]);
    assert_eq!(pallet.offline_validators(), &vec![3u64, 1, 3, 1]);
}

#[test]
fn strategy_never_asks_for_nothing() {
    let mut pallet = set_of(2, &[1, 2, 3]);
    let before = pallet.clone();
    let mut registry = Registry::new(&[1, 2, 3]);
    let hooked = report(&mut pallet, &mut registry, &[1, 2], DisableStrategy::Never);
    assert!(hooked.is_empty());
    assert!(registry.disabled.is_empty());
    assert_eq!(pallet, before);
    assert!(!DisableStrategy::Never.asks_to_disable());
}

#[test]
fn strategy_when_slashed_disables_like_always() {
    let mut pallet = set_of(2, &[1, 2, 3]);
    assert_eq!(
        pallet.on_offence(OffenceEvent::Reported {
            offender: 2,
            disable_strategy: DisableStrategy::WhenSlashed
        }),
        OffenceAction::Disable(2)
    );
    assert_eq!(
        pallet
            .on_offence(OffenceEvent::Reported { offender: 2, disable_strategy: DisableStrategy::Always }),
        OffenceAction::Disable(2)
    );
    assert!(pallet.disabled_validators().is_empty());
    assert!(DisableStrategy::WhenSlashed.asks_to_disable());
    assert!(DisableStrategy::Always.asks_to_disable());
}

#[test]
fn only_the_first_disablement_is_staged() {
    let mut pallet = set_of(2, &[1, 2, 3]);
    let mut registry = Registry::new(&[1, 2, 3]);
    let hooked = report(&mut pallet, &mut registry, &[3, 1, 3], DisableStrategy::Always);
    assert_eq!(hooked, vec![3, 1]);
    assert_eq!(pallet.disabled_validators(), &vec![3u64, 1]);
    let hooked = report(&mut pallet, &mut registry, &[1, 2], DisableStrategy::WhenSlashed);
    assert_eq!(hooked, vec![2]);
    assert_eq!(pallet.disabled_validators(), &vec![3u64, 1, 2]);
    assert_eq!(registry.disabled, vec![3, 1, 2]);
}

#[test]
fn offender_unknown_to_the_registry_is_not_staged() {
    let mut pallet = set_of(2, &[1, 2, 3]);
    let mut registry = Registry::new(&[1, 2]);
    let hooked = report(&mut pallet, &mut registry, &[3], DisableStrategy::Always);
    assert!(hooked.is_empty());
    assert!(pallet.disabled_validators().is_empty());
}

#[test]
fn disable_result_drives_the_queue() {
    let mut pallet = set_of(2, &[1, 2, 3]);
    assert_eq!(
        pallet.on_offence(OffenceEvent::DisableResult { offender: 2, newly_disabled: false }),
        OffenceAction::Nothing
    );
    assert!(pallet.disabled_validators().is_empty());
    assert_eq!(
        pallet.on_offence(OffenceEvent::DisableResult { offender: 2, newly_disabled: true }),
        OffenceAction::OnDisabled(2)
    );
    assert_eq!(pallet.disabled_validators(), &vec![2u64]);
    assert_eq!(pallet.validators(), &vec![1u64, 2, 3]);
}

#[test]
fn disabled_validators_leave_at_the_session_boundary() {
    let mut pallet = set_of(2, &[1, 2, 3, 4]);
    let mut registry = Registry::new(&[1, 2, 3, 4]);
    report(&mut pallet, &mut registry, &[4, 2], DisableStrategy::Always);
    let planned = pallet.new_session();
    assert_eq!(
        planned,
        NewSession { validators: vec![1, 3], offline_removal: Ok(()), disabled_removal: Ok(()) }
    );
    assert!(pallet.disabled_validators().is_empty());
    assert_eq!(registry.disabled, vec![4, 2]);
}
