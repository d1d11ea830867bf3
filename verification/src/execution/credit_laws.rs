//! What grants, transitions, controls and amendments of credit facilities are for.

use vstd::prelude::*;

use crate::crypto::{ed25519_key, ed25519_signed};
use crate::endorsement::{endorsement_refusal, Seal, Submission};
use crate::execution::{action_outcome, Action};
use crate::id::Id;
use crate::order::{
    CreditAmendmentMode, CreditControlAction, CreditFacilityAmendment, CreditFacilityControl,
    CreditFacilityGrant, CreditFacilityTransition, CreditTransitionKind,
};
use crate::state::{CreditFacilityRecord, CreditHoldRecord, FacilityStatus, HoldStatus, Ledger};

verus! {

/// A grant is carried out exactly where it is approved, not expired and new, its
/// guarantor is active, has registered the risk policy and has signed, the rail is
/// active, and no facility is granted by that guarantor to that beneficiary on that
/// rail yet.
pub proof fn law_when_a_facility_is_granted(
    ledger: Ledger,
    grant: CreditFacilityGrant,
    submission: Submission,
    timestamp: u64,
)
    ensures
        ({
            let outcome = action_outcome(
                ledger,
                Action::IssueCreditGrant { grant },
                submission,
                timestamp,
            );
            let guarantor = ledger.guarantors[grant.guarantor_id];
            (outcome.result is Ok) == {
                &&& endorsement_refusal(grant.seal, submission) is None
                &&& timestamp <= grant.valid_until
                &&& !ledger.operations.contains_key(grant.operation_id)
                &&& ledger.guarantors.contains_key(grant.guarantor_id)
                &&& guarantor.active
                &&& guarantor.risk_policy_digest == grant.risk_policy_digest
                &&& ed25519_key(guarantor.public_key.0)
                &&& grant.guarantor_message is Ok
                &&& ed25519_signed(
                    guarantor.public_key.0,
                    grant.guarantor_message->Ok_0@,
                    grant.guarantor_signature,
                )
                &&& ledger.assets.contains_key(grant.rail_asset_id)
                &&& ledger.assets[grant.rail_asset_id].active
                &&& !ledger.credit_facilities.contains_key(grant.facility_id)
                &&& forall|other: Id| #[trigger]
                    ledger.credit_facilities.contains_key(other) ==> {
                        ||| ledger.credit_facilities[other].guarantor_id != grant.guarantor_id
                        ||| ledger.credit_facilities[other].beneficiary_commitment
                            != grant.beneficiary_commitment
                        ||| ledger.credit_facilities[other].rail_asset_id != grant.rail_asset_id
                    }
            }
        }),
{
}

/// A granted facility is active, at its first sequence and within its limit, and has
/// the parties, the balances, the policy and the validity that were granted. Nothing
/// else changes but that the operation is recorded.
pub proof fn law_what_a_grant_opens(
    ledger: Ledger,
    grant: CreditFacilityGrant,
    submission: Submission,
    timestamp: u64,
)
    requires
        action_outcome(
            ledger,
            Action::IssueCreditGrant { grant },
            submission,
            timestamp,
        ).result is Ok,
    ensures
        ({
            let outcome = action_outcome(
                ledger,
                Action::IssueCreditGrant { grant },
                submission,
                timestamp,
            );
            let after = outcome.ledger;
            let facility = after.credit_facilities[grant.facility_id];
            &&& after == (Ledger {
                credit_facilities: ledger.credit_facilities.insert(grant.facility_id, facility),
                operations: ledger.operations.insert(grant.operation_id, outcome.result->Ok_0),
                ..ledger
            })
            &&& facility.guarantor_id == grant.guarantor_id
            &&& facility.beneficiary_commitment == grant.beneficiary_commitment
            &&& facility.rail_asset_id == grant.rail_asset_id
            &&& facility.cap_commitment == grant.cap_commitment
            &&& facility.available_commitment == grant.available_commitment
            &&& facility.held_commitment == grant.held_commitment
            &&& facility.outstanding_commitment == grant.outstanding_commitment
            &&& facility.overlimit_commitment == Id::zero()
            &&& facility.collateral_commitment == grant.collateral_commitment
            &&& facility.risk_policy_digest == grant.risk_policy_digest
            &&& facility.valid_from == grant.valid_from
            &&& facility.valid_until == grant.valid_until
            &&& facility.status == FacilityStatus::Active
            &&& facility.sequence == 0
        }),
{
}

/// A hold is placed exactly where the transition is approved, new and proved against
/// the facility as it is, the facility is active and within its validity, the hold
/// ends neither before now nor after the facility, settled debt does not change, and
/// the hold is new.
pub proof fn law_when_a_hold_is_placed(
    ledger: Ledger,
    transition: CreditFacilityTransition,
    seal: Seal,
    submission: Submission,
    timestamp: u64,
)
    requires
        transition.kind == CreditTransitionKind::Hold,
    ensures
        ({
            let facility = ledger.credit_facilities[transition.facility_id];
            (action_outcome(
                ledger,
                Action::IssueCreditTransition { transition, seal },
                submission,
                timestamp,
            ).result is Ok) == {
                &&& endorsement_refusal(seal, submission) is None
                &&& !ledger.operations.contains_key(transition.operation_id)
                &&& ledger.credit_facilities.contains_key(transition.facility_id)
                &&& transition.before_sequence == facility.sequence < u64::MAX
                &&& transition.before_available_commitment == facility.available_commitment
                &&& transition.before_held_commitment == facility.held_commitment
                &&& transition.before_outstanding_commitment == facility.outstanding_commitment
                &&& facility.status == FacilityStatus::Active
                &&& facility.valid_from <= timestamp <= facility.valid_until
                &&& timestamp <= transition.expires_at <= facility.valid_until
                &&& transition.after_outstanding_commitment == facility.outstanding_commitment
                &&& !ledger.credit_holds.contains_key(transition.hold_id)
            }
        }),
{
}

/// A hold is released only after its expiry and consumed only until then. Either
/// needs the approval, a new operation and a proof against the facility and the
/// active hold as they are; a release does not change settled debt.
pub proof fn law_when_a_hold_is_closed(
    ledger: Ledger,
    transition: CreditFacilityTransition,
    seal: Seal,
    submission: Submission,
    timestamp: u64,
)
    requires
        transition.kind != CreditTransitionKind::Hold,
    ensures
        ({
            let facility = ledger.credit_facilities[transition.facility_id];
            let hold = ledger.credit_holds[transition.hold_id];
            (action_outcome(
                ledger,
                Action::IssueCreditTransition { transition, seal },
                submission,
                timestamp,
            ).result is Ok) == {
                &&& endorsement_refusal(seal, submission) is None
                &&& !ledger.operations.contains_key(transition.operation_id)
                &&& ledger.credit_facilities.contains_key(transition.facility_id)
                &&& transition.before_sequence == facility.sequence < u64::MAX
                &&& transition.before_available_commitment == facility.available_commitment
                &&& transition.before_held_commitment == facility.held_commitment
                &&& transition.before_outstanding_commitment == facility.outstanding_commitment
                &&& ledger.credit_holds.contains_key(transition.hold_id)
                &&& hold.status == HoldStatus::Active
                &&& hold.facility_id == transition.facility_id
                &&& hold.query_commitment == transition.query_commitment
                &&& hold.amount_commitment == transition.amount_commitment
                &&& hold.expires_at == transition.expires_at
                &&& (transition.kind == CreditTransitionKind::Release) == (timestamp
                    > hold.expires_at)
                &&& transition.kind == CreditTransitionKind::Release
                    ==> transition.after_outstanding_commitment == facility.outstanding_commitment
            }
        }),
{
}

/// A transition puts the proved balances in the place of the facility's, one
/// sequence on, and leaves its limit, terms and standing as they are.
pub proof fn law_a_transition_moves_the_balances(
    ledger: Ledger,
    transition: CreditFacilityTransition,
    seal: Seal,
    submission: Submission,
    timestamp: u64,
)
    requires
        action_outcome(
            ledger,
            Action::IssueCreditTransition { transition, seal },
            submission,
            timestamp,
        ).result is Ok,
    ensures
        ({
            let outcome = action_outcome(
                ledger,
                Action::IssueCreditTransition { transition, seal },
                submission,
                timestamp,
            );
            let after = outcome.ledger;
            let before = ledger.credit_facilities[transition.facility_id];
            let facility = after.credit_facilities[transition.facility_id];
            let hold = after.credit_holds[transition.hold_id];
            &&& after == (Ledger {
                credit_facilities: ledger.credit_facilities.insert(
                    transition.facility_id,
                    facility,
                ),
                credit_holds: ledger.credit_holds.insert(transition.hold_id, hold),
                operations: ledger.operations.insert(
                    transition.operation_id,
                    outcome.result->Ok_0,
                ),
                ..ledger
            })
            &&& facility.available_commitment == transition.after_available_commitment
            &&& facility.held_commitment == transition.after_held_commitment
            &&& facility.outstanding_commitment == transition.after_outstanding_commitment
            &&& facility.sequence == before.sequence + 1
            &&& before == (CreditFacilityRecord {
                available_commitment: before.available_commitment,
                held_commitment: before.held_commitment,
                outstanding_commitment: before.outstanding_commitment,
                sequence: before.sequence,
                ..facility
            })
        }),
{
}

/// A new hold is active and unsettled, of the amount, the query and the expiry that
/// the transition proves, and dates from the facility's new sequence.
pub proof fn law_what_a_new_hold_is(
    ledger: Ledger,
    transition: CreditFacilityTransition,
    seal: Seal,
    submission: Submission,
    timestamp: u64,
)
    requires
        transition.kind == CreditTransitionKind::Hold,
        action_outcome(
            ledger,
            Action::IssueCreditTransition { transition, seal },
            submission,
            timestamp,
        ).result is Ok,
    ensures
        ({
            let after = action_outcome(
                ledger,
                Action::IssueCreditTransition { transition, seal },
                submission,
                timestamp,
            ).ledger;
            let hold = after.credit_holds[transition.hold_id];
            let sequence = after.credit_facilities[transition.facility_id].sequence;
            &&& hold.status == HoldStatus::Active
            &&& hold.facility_id == transition.facility_id
            &&& hold.query_commitment == transition.query_commitment
            &&& hold.amount_commitment == transition.amount_commitment
            &&& hold.expires_at == transition.expires_at
            &&& hold.settlement_digest == Id::zero()
            &&& hold.created_sequence == sequence
            &&& hold.updated_sequence == sequence
        }),
{
}

/// A hold that is closed is released or consumed as the transition says, by its
/// settlement, at the facility's new sequence, and is otherwise as it was.
pub proof fn law_what_a_closed_hold_is(
    ledger: Ledger,
    transition: CreditFacilityTransition,
    seal: Seal,
    submission: Submission,
    timestamp: u64,
)
    requires
        transition.kind != CreditTransitionKind::Hold,
        action_outcome(
            ledger,
            Action::IssueCreditTransition { transition, seal },
            submission,
            timestamp,
        ).result is Ok,
    ensures
        ({
            let after = action_outcome(
                ledger,
                Action::IssueCreditTransition { transition, seal },
                submission,
                timestamp,
            ).ledger;
            let hold = after.credit_holds[transition.hold_id];
            &&& (hold.status == HoldStatus::Released) == (transition.kind
                == CreditTransitionKind::Release)
            &&& (hold.status == HoldStatus::Consumed) == (transition.kind
                == CreditTransitionKind::Consume)
            &&& hold.settlement_digest == transition.settlement_digest
            &&& hold.updated_sequence == after.credit_facilities[transition.facility_id].sequence
            &&& ledger.credit_holds[transition.hold_id] == (CreditHoldRecord {
                status: HoldStatus::Active,
                settlement_digest: ledger.credit_holds[transition.hold_id].settlement_digest,
                updated_sequence: ledger.credit_holds[transition.hold_id].updated_sequence,
                ..hold
            })
        }),
{
}

/// A control is carried out exactly where it is approved, effective and new, was
/// signed by the facility's active guarantor for the facility as it is, and the
/// facility may take that step: a frozen one that is within its limit is activated,
/// an active one frozen, one without holds, debt and excess closed, and one that is
/// not closed defaulted.
pub proof fn law_when_a_control_is_carried_out(
    ledger: Ledger,
    control: CreditFacilityControl,
    submission: Submission,
    timestamp: u64,
)
    ensures
        ({
            let facility = ledger.credit_facilities[control.facility_id];
            let guarantor = ledger.guarantors[facility.guarantor_id];
            (action_outcome(
                ledger,
                Action::IssueCreditControl { control },
                submission,
                timestamp,
            ).result is Ok) == {
                &&& endorsement_refusal(control.seal, submission) is None
                &&& control.effective_at <= timestamp
                &&& !ledger.operations.contains_key(control.operation_id)
                &&& ledger.credit_facilities.contains_key(control.facility_id)
                &&& control.before_sequence == facility.sequence < u64::MAX
                &&& ledger.guarantors.contains_key(facility.guarantor_id)
                &&& guarantor.active
                &&& ed25519_key(guarantor.public_key.0)
                &&& control.guarantor_message is Ok
                &&& ed25519_signed(
                    guarantor.public_key.0,
                    control.guarantor_message->Ok_0@,
                    control.guarantor_signature,
                )
                &&& control.action == CreditControlAction::Activate ==> facility.status
                    == FacilityStatus::Frozen && facility.overlimit_commitment == Id::zero()
                &&& control.action == CreditControlAction::Freeze ==> facility.status
                    == FacilityStatus::Active
                &&& control.action == CreditControlAction::Close ==> facility.held_commitment
                    == Id::zero() && facility.outstanding_commitment == Id::zero()
                    && facility.overlimit_commitment == Id::zero()
                &&& control.action == CreditControlAction::Default ==> facility.status
                    != FacilityStatus::Closed
            }
        }),
{
}

/// A control that leaves a facility closed met it with nothing held, nothing owed
/// and nothing over its limit, and leaves it so.
pub proof fn law_a_closed_facility_owes_nothing(
    ledger: Ledger,
    control: CreditFacilityControl,
    submission: Submission,
    timestamp: u64,
)
    requires
        action_outcome(
            ledger,
            Action::IssueCreditControl { control },
            submission,
            timestamp,
        ).result is Ok,
        action_outcome(
            ledger,
            Action::IssueCreditControl { control },
            submission,
            timestamp,
        ).ledger.credit_facilities[control.facility_id].status == FacilityStatus::Closed,
    ensures
        ({
            let before = ledger.credit_facilities[control.facility_id];
            let after = action_outcome(
                ledger,
                Action::IssueCreditControl { control },
                submission,
                timestamp,
            ).ledger.credit_facilities[control.facility_id];
            &&& before.held_commitment == Id::zero()
            &&& after.held_commitment == Id::zero()
            &&& before.outstanding_commitment == Id::zero()
            &&& after.outstanding_commitment == Id::zero()
            &&& before.overlimit_commitment == Id::zero()
            &&& after.overlimit_commitment == Id::zero()
        }),
{
}

/// A control changes the standing of its facility as it says, one sequence on, and
/// nothing else but that its operation is recorded.
pub proof fn law_what_a_control_does(
    ledger: Ledger,
    control: CreditFacilityControl,
    submission: Submission,
    timestamp: u64,
)
    requires
        action_outcome(
            ledger,
            Action::IssueCreditControl { control },
            submission,
            timestamp,
        ).result is Ok,
    ensures
        ({
            let outcome = action_outcome(
                ledger,
                Action::IssueCreditControl { control },
                submission,
                timestamp,
            );
            let after = outcome.ledger;
            let before = ledger.credit_facilities[control.facility_id];
            let facility = after.credit_facilities[control.facility_id];
            &&& after == (Ledger {
                credit_facilities: ledger.credit_facilities.insert(control.facility_id, facility),
                operations: ledger.operations.insert(control.operation_id, outcome.result->Ok_0),
                ..ledger
            })
            &&& facility.sequence == before.sequence + 1
            &&& before == (CreditFacilityRecord {
                status: before.status,
                sequence: before.sequence,
                ..facility
            })
            &&& control.action == CreditControlAction::Activate ==> facility.status
                == FacilityStatus::Active
            &&& control.action == CreditControlAction::Freeze ==> facility.status
                == FacilityStatus::Frozen
            &&& control.action == CreditControlAction::Close ==> facility.status
                == FacilityStatus::Closed
            &&& control.action == CreditControlAction::Default ==> facility.status
                == FacilityStatus::Defaulted
        }),
{
}

/// An amendment is carried out exactly where it is approved, in effect and new, was
/// proved against every balance, limit and term of the facility as it is, and was
/// signed by its active guarantor for the policy that the guarantor has registered.
/// A closed or defaulted facility is not amended, and none is made to end before it
/// starts.
pub proof fn law_when_a_facility_is_amended(
    ledger: Ledger,
    amendment: CreditFacilityAmendment,
    submission: Submission,
    timestamp: u64,
)
    ensures
        ({
            let facility = ledger.credit_facilities[amendment.facility_id];
            let guarantor = ledger.guarantors[facility.guarantor_id];
            (action_outcome(
                ledger,
                Action::IssueCreditAmendment { amendment },
                submission,
                timestamp,
            ).result is Ok) == {
                &&& endorsement_refusal(amendment.seal, submission) is None
                &&& amendment.effective_at <= timestamp <= amendment.after_valid_until
                &&& !ledger.operations.contains_key(amendment.operation_id)
                &&& ledger.credit_facilities.contains_key(amendment.facility_id)
                &&& facility.status != FacilityStatus::Closed
                &&& facility.status != FacilityStatus::Defaulted
                &&& amendment.before_sequence == facility.sequence < u64::MAX
                &&& amendment.before_cap_commitment == facility.cap_commitment
                &&& amendment.before_available_commitment == facility.available_commitment
                &&& amendment.before_held_commitment == facility.held_commitment
                &&& amendment.before_outstanding_commitment == facility.outstanding_commitment
                &&& amendment.before_overlimit_commitment == facility.overlimit_commitment
                &&& amendment.before_collateral_commitment == facility.collateral_commitment
                &&& amendment.before_risk_policy_digest == facility.risk_policy_digest
                &&& amendment.before_valid_until == facility.valid_until
                &&& facility.valid_from <= amendment.after_valid_until
                &&& ledger.guarantors.contains_key(facility.guarantor_id)
                &&& guarantor.active
                &&& guarantor.risk_policy_digest == amendment.after_risk_policy_digest
                &&& ed25519_key(guarantor.public_key.0)
                &&& amendment.guarantor_message is Ok
                &&& ed25519_signed(
                    guarantor.public_key.0,
                    amendment.guarantor_message->Ok_0@,
                    amendment.guarantor_signature,
                )
            }
        }),
{
}

/// An amended facility has the limit, collateral, policy and end that were agreed,
/// one sequence on, and is frozen where it is now over its limit. What is held and
/// owed and who the parties are does not change.
pub proof fn law_what_an_amendment_does(
    ledger: Ledger,
    amendment: CreditFacilityAmendment,
    submission: Submission,
    timestamp: u64,
)
    requires
        action_outcome(
            ledger,
            Action::IssueCreditAmendment { amendment },
            submission,
            timestamp,
        ).result is Ok,
    ensures
        ({
            let outcome = action_outcome(
                ledger,
                Action::IssueCreditAmendment { amendment },
                submission,
                timestamp,
            );
            let after = outcome.ledger;
            let before = ledger.credit_facilities[amendment.facility_id];
            let facility = after.credit_facilities[amendment.facility_id];
            &&& after == (Ledger {
                credit_facilities: ledger.credit_facilities.insert(
                    amendment.facility_id,
                    facility,
                ),
                operations: ledger.operations.insert(
                    amendment.operation_id,
                    outcome.result->Ok_0,
                ),
                ..ledger
            })
            &&& facility.cap_commitment == amendment.after_cap_commitment
            &&& facility.available_commitment == amendment.after_available_commitment
            &&& facility.overlimit_commitment == amendment.after_overlimit_commitment
            &&& facility.collateral_commitment == amendment.after_collateral_commitment
            &&& facility.risk_policy_digest == amendment.after_risk_policy_digest
            &&& facility.valid_until == amendment.after_valid_until
            &&& facility.held_commitment == before.held_commitment
            &&& facility.outstanding_commitment == before.outstanding_commitment
            &&& facility.guarantor_id == before.guarantor_id
            &&& facility.beneficiary_commitment == before.beneficiary_commitment
            &&& facility.rail_asset_id == before.rail_asset_id
            &&& facility.valid_from == before.valid_from
            &&& facility.sequence == before.sequence + 1
            &&& amendment.mode == CreditAmendmentMode::OverLimit ==> facility.status
                == FacilityStatus::Frozen
            &&& amendment.mode == CreditAmendmentMode::WithinLimit ==> facility.status
                == before.status
        }),
{
}

} // verus!
