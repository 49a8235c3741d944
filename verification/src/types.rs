//! Plain values exchanged with the host: identifiers, errors, notifications and
//! configuration.

use vstd::prelude::*;

verus! {

/// A validator's identity. The membership rules only ever compare two
/// identities for equality.
pub type ValidatorId = u64;

/// Why an operation was rejected. A rejected operation changes nothing.
#[derive(Clone, Copy, Debug, PartialEq, Eq, Structural)]
pub enum Error {
    /// The validator count after the removal would be below the minimum.
    TooLowValidatorCount,
    /// The validator is already in the validator set.
    Duplicate,
    /// The validator was never approved, so it may not add itself back.
    ValidatorNotApproved,
    /// The host's origin check denied the caller.
    Unauthorized,
}

/// A notification for the host to publish after a successful operation.
#[derive(Clone, Copy, Debug, PartialEq, Eq, Structural)]
pub enum Event {
    /// A validator was added; the session layer picks it up at a later boundary.
    ValidatorAdditionInitiated(ValidatorId),
    /// A validator was removed; the session layer drops it at a later boundary.
    ValidatorRemovalInitiated(ValidatorId),
}

/// Why a validator was staged for removal at the next session boundary.
#[derive(Clone, Copy, Debug, PartialEq, Eq, Structural)]
pub enum RemovalReason {
    /// The validator was reported offline.
    Offline,
    /// The validator was disabled after an offence.
    Disabled,
}

/// Where a validator stands in the life of the set.
#[derive(Clone, Copy, Debug, PartialEq, Eq, Structural)]
pub enum MembershipState {
    /// In the validator set and not staged for removal.
    Active,
    /// In the validator set, but staged to leave it at the next session
    /// boundary. A validator staged for both reasons is pending as offline,
    /// the batch that is flushed first.
    PendingRemoval { reason: RemovalReason },
    /// Not in the validator set and not approved: it can only come back by an
    /// explicit addition.
    Removed,
    /// Not in the validator set, but approved: it may add itself back.
    Approved,
}

/// How an offence report asks for its offenders to be treated.
#[derive(Clone, Copy, Debug, PartialEq, Eq, Structural)]
pub enum DisableStrategy {
    /// Offenders are left alone.
    Never,
    /// Offenders are to be disabled if they are slashed as well. The set does
    /// not look at slashing and treats this like `Always`.
    WhenSlashed,
    /// Offenders are disabled regardless of slashing.
    Always,
}

impl DisableStrategy {
    /// Whether an offender reported under this strategy is to be disabled.
    /// Only `Never` spares the offender.
    pub open spec fn disables(self) -> bool {
        self != DisableStrategy::Never
    }

    /// Executable form of [`DisableStrategy::disables`].
    pub fn asks_to_disable(&self) -> (asks: bool)
        ensures
            asks == self.disables(),
    {
        match self {
            DisableStrategy::Never => false,
            DisableStrategy::WhenSlashed => true,
            DisableStrategy::Always => true,
        }
    }
}

/// What the host tells the set while it works through an offence report, one
/// offender at a time.
#[derive(Clone, Copy, Debug, PartialEq, Eq, Structural)]
pub enum OffenceEvent {
    /// `offender` was named in a report made under `disable_strategy`.
    Reported { offender: ValidatorId, disable_strategy: DisableStrategy },
    /// The consensus-duty registry was asked to disable `offender` and
    /// answered whether that disabled it for the first time.
    DisableResult { offender: ValidatorId, newly_disabled: bool },
}

/// What the host has to do next for the offender at hand.
#[derive(Clone, Copy, Debug, PartialEq, Eq, Structural)]
pub enum OffenceAction {
    /// Nothing is left to do for this offender.
    Nothing,
    /// Ask the consensus-duty registry to disable the validator, then hand
    /// its answer back as [`OffenceEvent::DisableResult`].
    Disable(ValidatorId),
    /// Run the on-disabled hook for the validator.
    OnDisabled(ValidatorId),
}

/// The verdict of the host's origin check on the caller of an operation.
#[derive(Clone, Copy, Debug, PartialEq, Eq, Structural)]
pub enum Authorization {
    /// The caller may add and remove validators.
    Allow,
    /// The caller may not.
    Deny,
}

/// The constants a validator set is created with.
#[derive(Clone, Copy, Debug, PartialEq, Eq, Structural)]
pub struct Config {
    /// Minimum number of validators that a checked removal must leave.
    pub min_authorities: u32,
    /// Whether the minimum is checked before validators reported offline are
    /// removed at a session boundary.
    pub min_authorities_on_offline: bool,
    /// Whether the minimum is checked before disabled validators are removed
    /// at a session boundary.
    pub min_authorities_on_disabled: bool,
}

impl Config {
    /// Whether removals staged for `reason` are subject to the minimum.
    pub open spec fn checks(self, reason: RemovalReason) -> bool {
        match reason {
            RemovalReason::Offline => self.min_authorities_on_offline,
            RemovalReason::Disabled => self.min_authorities_on_disabled,
        }
    }

    /// A configuration that checks the minimum for both kinds of staged
    /// removal.
    pub fn new(min_authorities: u32) -> (config: Config)
        ensures
            config == (Config {
                min_authorities,
                min_authorities_on_offline: true,
                min_authorities_on_disabled: true,
            }),
    {
        Config { min_authorities, min_authorities_on_offline: true, min_authorities_on_disabled: true }
    }

    /// Executable form of [`Config::checks`].
    pub fn check_min_authorities(&self, reason: RemovalReason) -> (checked: bool)
        ensures
            checked == self.checks(reason),
    {
        match reason {
            RemovalReason::Offline => self.min_authorities_on_offline,
            RemovalReason::Disabled => self.min_authorities_on_disabled,
        }
    }
}

/// What a session boundary hands to the session layer.
#[derive(Debug, PartialEq, Eq)]
pub struct NewSession {
    /// The authoritative validator set for the coming session.
    pub validators: Vec<ValidatorId>,
    /// Whether the validators reported offline were removed, or why not.
    pub offline_removal: Result<(), Error>,
    /// Whether the disabled validators were removed, or why not.
    pub disabled_removal: Result<(), Error>,
}

/// Maps an account to the validator it controls: every account is its own
/// validator.
pub struct ValidatorOf;

impl ValidatorOf {
    /// The validator controlled by `account`, which is `account` itself.
    pub fn convert(account: ValidatorId) -> (validator: Option<ValidatorId>)
        ensures
            validator == Some(account),
    {
        Some(account)
    }
}

} // verus!
