//! Rules that every change of a guarantee facility obeys.

use vstd::prelude::*;

use crate::id::Id;
use crate::order::{CreditFacilityTransition, CreditTransitionKind, ProductTerms};
use crate::outcome::refuse;
use crate::state::{
    CreditFacilityRecord, CreditHoldRecord, FacilityStatus, HoldStatus, ReservationBindingRecord,
    ReservationRole,
};

verus! {

/// Whether a transition was proved against the facility as it is.
pub open spec fn facility_current(
    facility: CreditFacilityRecord,
    transition: CreditFacilityTransition,
) -> bool {
    &&& facility.sequence == transition.before_sequence
    &&& facility.available_commitment == transition.before_available_commitment
    &&& facility.held_commitment == transition.before_held_commitment
    &&& facility.outstanding_commitment == transition.before_outstanding_commitment
}

/// Whether a transition was made against a facility as it is.
pub(crate) fn is_facility_current(
    facility: &CreditFacilityRecord,
    transition: &CreditFacilityTransition,
) -> (r: bool)
    ensures
        r == facility_current(*facility, *transition),
{
    facility.sequence == transition.before_sequence && facility.available_commitment
        == transition.before_available_commitment && facility.held_commitment
        == transition.before_held_commitment && facility.outstanding_commitment
        == transition.before_outstanding_commitment
}

/// Whether a transition names the active hold as it is.
pub open spec fn hold_current(
    hold: CreditHoldRecord,
    transition: CreditFacilityTransition,
) -> bool {
    &&& hold.facility_id == transition.facility_id
    &&& hold.query_commitment == transition.query_commitment
    &&& hold.amount_commitment == transition.amount_commitment
    &&& hold.expires_at == transition.expires_at
    &&& hold.status == HoldStatus::Active
}

/// Whether a transition was made against a hold as it is.
pub(crate) fn is_hold_current(
    hold: &CreditHoldRecord,
    transition: &CreditFacilityTransition,
) -> (r: bool)
    ensures
        r == hold_current(*hold, *transition),
{
    hold.facility_id == transition.facility_id && hold.query_commitment
        == transition.query_commitment && hold.amount_commitment == transition.amount_commitment
        && hold.expires_at == transition.expires_at && hold.status == HoldStatus::Active
}

/// Whether a transition opens a hold on an active facility within its validity,
/// without a change of settled debt.
pub open spec fn opens_hold(
    facility: CreditFacilityRecord,
    transition: CreditFacilityTransition,
    timestamp: u64,
) -> bool {
    &&& transition.kind == CreditTransitionKind::Hold
    &&& facility.status == FacilityStatus::Active
    &&& facility.valid_from <= timestamp <= facility.valid_until
    &&& timestamp <= transition.expires_at <= facility.valid_until
    &&& transition.before_outstanding_commitment == transition.after_outstanding_commitment
}

/// Whether a transition opens a hold on a facility.
pub(crate) fn does_open_hold(
    facility: &CreditFacilityRecord,
    transition: &CreditFacilityTransition,
    timestamp: u64,
) -> (r: bool)
    ensures
        r == opens_hold(*facility, *transition, timestamp),
{
    transition.kind == CreditTransitionKind::Hold && facility.status == FacilityStatus::Active
        && facility.valid_from <= timestamp && timestamp <= facility.valid_until && timestamp
        <= transition.expires_at && transition.expires_at <= facility.valid_until
        && transition.before_outstanding_commitment == transition.after_outstanding_commitment
}

/// Whether a transition only gives back an expired hold.
pub open spec fn pure_refund(transition: CreditFacilityTransition) -> bool {
    &&& transition.kind == CreditTransitionKind::Release
    &&& transition.settlement_digest == Id::zero()
    &&& transition.before_outstanding_commitment == transition.after_outstanding_commitment
}

/// Whether a transition only gives an amount back.
pub(crate) fn is_pure_refund(transition: &CreditFacilityTransition) -> (r: bool)
    ensures
        r == pure_refund(*transition),
{
    transition.kind == CreditTransitionKind::Release && transition.settlement_digest == Id::zero()
        && transition.before_outstanding_commitment == transition.after_outstanding_commitment
}

/// The facility after a transition: the proved balances, and the next sequence.
pub open spec fn advanced(
    facility: CreditFacilityRecord,
    transition: CreditFacilityTransition,
) -> CreditFacilityRecord {
    CreditFacilityRecord {
        available_commitment: transition.after_available_commitment,
        held_commitment: transition.after_held_commitment,
        outstanding_commitment: transition.after_outstanding_commitment,
        sequence: (facility.sequence + 1) as u64,
        ..facility
    }
}

/// Moves a facility to the state after a transition.
pub(crate) fn advance(
    facility: &CreditFacilityRecord,
    transition: &CreditFacilityTransition,
) -> (r: Result<CreditFacilityRecord, String>)
    ensures
        match r {
            Ok(record) => facility.sequence < u64::MAX && record == advanced(
                *facility,
                *transition,
            ),
            Err(message) => facility.sequence == u64::MAX && message@
                == "credit facility sequence overflow"@,
        },
{
    if facility.sequence == u64::MAX {
        return refuse("credit facility sequence overflow");
    }
    let mut record = *facility;
    record.available_commitment = transition.after_available_commitment;
    record.held_commitment = transition.after_held_commitment;
    record.outstanding_commitment = transition.after_outstanding_commitment;
    record.sequence = facility.sequence + 1;
    Ok(record)
}

/// The hold that a transition opens.
pub open spec fn opened_hold(transition: CreditFacilityTransition) -> CreditHoldRecord {
    CreditHoldRecord {
        facility_id: transition.facility_id,
        query_commitment: transition.query_commitment,
        amount_commitment: transition.amount_commitment,
        expires_at: transition.expires_at,
        status: HoldStatus::Active,
        settlement_digest: Id::zero(),
        created_sequence: (transition.before_sequence + 1) as u64,
        updated_sequence: (transition.before_sequence + 1) as u64,
    }
}

/// The hold that a transition opens.
pub(crate) fn open_hold(transition: &CreditFacilityTransition) -> (r: CreditHoldRecord)
    requires
        transition.before_sequence < u64::MAX,
    ensures
        r == opened_hold(*transition),
{
    CreditHoldRecord {
        facility_id: transition.facility_id,
        query_commitment: transition.query_commitment,
        amount_commitment: transition.amount_commitment,
        expires_at: transition.expires_at,
        status: HoldStatus::Active,
        settlement_digest: Id::zero(),
        created_sequence: transition.before_sequence + 1,
        updated_sequence: transition.before_sequence + 1,
    }
}

/// The hold after a transition has closed it.
pub open spec fn closed_hold(
    hold: CreditHoldRecord,
    transition: CreditFacilityTransition,
    status: HoldStatus,
    settlement_digest: Id,
) -> CreditHoldRecord {
    CreditHoldRecord {
        status,
        settlement_digest,
        updated_sequence: (transition.before_sequence + 1) as u64,
        ..hold
    }
}

/// The hold after a transition that ends it.
pub(crate) fn close_hold(
    hold: &CreditHoldRecord,
    transition: &CreditFacilityTransition,
    status: HoldStatus,
    settlement_digest: Id,
) -> (r: CreditHoldRecord)
    requires
        transition.before_sequence < u64::MAX,
    ensures
        r == closed_hold(*hold, *transition, status, settlement_digest),
{
    let mut record = *hold;
    record.status = status;
    record.settlement_digest = settlement_digest;
    record.updated_sequence = transition.before_sequence + 1;
    record
}

/// What a trade expects of the reservation on one side of it.
#[derive(Clone, Copy, Debug)]
pub struct Side {
    pub entity: Id,
    pub authorization: Id,
    pub mandate: Id,
    pub asset: Id,
    pub consumed: Id,
}

/// What a trade expects of the reservation of a role. In direction 1 the taker
/// buys: the maker delivers the traded asset and the taker pays.
pub open spec fn expected_side(
    terms: ProductTerms,
    role: ReservationRole,
    direction: u8,
    payment_asset_id: Id,
) -> Side {
    let delivers = (direction == 1) == (role == ReservationRole::Maker);
    let asset = if delivers {
        terms.traded_asset_id
    } else {
        payment_asset_id
    };
    let consumed = if direction == 1 && role == ReservationRole::Maker || direction == 2 && role
        == ReservationRole::Taker {
        terms.quantity_commitment
    } else {
        terms.cash_commitment
    };
    match role {
        ReservationRole::Maker => Side {
            entity: terms.maker_entity_commitment,
            authorization: terms.maker_policy_digest,
            mandate: terms.maker_mandate_digest,
            asset,
            consumed,
        },
        ReservationRole::Taker => Side {
            entity: terms.taker_entity_commitment,
            authorization: terms.taker_authorization_digest,
            mandate: terms.taker_mandate_digest,
            asset,
            consumed,
        },
    }
}

/// What a trade expects of the reservation of a role.
pub(crate) fn side_of(
    terms: &ProductTerms,
    role: ReservationRole,
    direction: u8,
    payment_asset_id: Id,
) -> (r: Side)
    ensures
        r == expected_side(*terms, role, direction, payment_asset_id),
{
    let delivers = (direction == 1) == (role == ReservationRole::Maker);
    let asset = if delivers {
        terms.traded_asset_id
    } else {
        payment_asset_id
    };
    let consumed = if direction == 1 && role == ReservationRole::Maker || direction == 2 && role
        == ReservationRole::Taker {
        terms.quantity_commitment
    } else {
        terms.cash_commitment
    };
    match role {
        ReservationRole::Maker => Side {
            entity: terms.maker_entity_commitment,
            authorization: terms.maker_policy_digest,
            mandate: terms.maker_mandate_digest,
            asset,
            consumed,
        },
        ReservationRole::Taker => Side {
            entity: terms.taker_entity_commitment,
            authorization: terms.taker_authorization_digest,
            mandate: terms.taker_mandate_digest,
            asset,
            consumed,
        },
    }
}

/// Whether a stored reservation is the one that a trade expects.
pub open spec fn binding_fits(
    binding: ReservationBindingRecord,
    role: ReservationRole,
    side: Side,
    receipt: Id,
) -> bool {
    &&& binding.role == role
    &&& binding.entity_commitment == side.entity
    &&& binding.asset_id == side.asset
    &&& binding.authorization_digest == side.authorization
    &&& binding.mandate_digest == side.mandate
    &&& binding.receipt_digest == receipt
}

/// Whether a stored reservation is the one that a trade expects.
pub(crate) fn does_binding_fit(
    binding: &ReservationBindingRecord,
    role: ReservationRole,
    side: &Side,
    receipt: Id,
) -> (r: bool)
    ensures
        r == binding_fits(*binding, role, *side, receipt),
{
    binding.role == role && binding.entity_commitment == side.entity && binding.asset_id
        == side.asset && binding.authorization_digest == side.authorization
        && binding.mandate_digest == side.mandate && binding.receipt_digest == receipt
}

/// Why a reservation is outside the scope of a trade: a maker reserves under a
/// policy, a taker for one admitted request.
pub open spec fn scope_refusal(
    binding: ReservationBindingRecord,
    role: ReservationRole,
    terms: ProductTerms,
) -> Option<Seq<char>> {
    match role {
        ReservationRole::Maker => if binding.policy_version == 0 || binding.rfq_nullifier
            != Id::zero() {
            Some("Maker reservation is not policy-scoped"@)
        } else {
            None
        },
        ReservationRole::Taker => if binding.rfq_nullifier != terms.rfq_nullifier
            || binding.admission_receipt_digest != terms.admission_receipt_digest
            || binding.admission_epoch != terms.admission_epoch || binding.admission_sequence
            != terms.admission_sequence {
            Some("Taker reservation is not for the admitted RFQ"@)
        } else {
            None
        },
    }
}

/// Checks that a reservation is within the scope of a trade.
pub(crate) fn check_scope(
    binding: &ReservationBindingRecord,
    role: ReservationRole,
    terms: &ProductTerms,
) -> (r: Result<(), String>)
    ensures
        crate::outcome::verdict(r, scope_refusal(*binding, role, *terms)),
{
    match role {
        ReservationRole::Maker => {
            if binding.policy_version == 0 || binding.rfq_nullifier != Id::zero() {
                return refuse("Maker reservation is not policy-scoped");
            }
        },
        ReservationRole::Taker => {
            if binding.rfq_nullifier != terms.rfq_nullifier || binding.admission_receipt_digest
                != terms.admission_receipt_digest || binding.admission_epoch
                != terms.admission_epoch || binding.admission_sequence
                != terms.admission_sequence {
                return refuse("Taker reservation is not for the admitted RFQ");
            }
        },
    }
    Ok(())
}

/// Whether a transition consumes its hold for this settlement in time.
pub open spec fn consumable(
    transition: CreditFacilityTransition,
    base_statement: Id,
    timestamp: u64,
) -> bool {
    &&& transition.kind == CreditTransitionKind::Consume
    &&& transition.settlement_digest == base_statement
    &&& timestamp <= transition.expires_at
}

/// Whether a transition consumes its hold for this settlement in time.
pub(crate) fn is_consumable(
    transition: &CreditFacilityTransition,
    base_statement: Id,
    timestamp: u64,
) -> (r: bool)
    ensures
        r == consumable(*transition, base_statement, timestamp),
{
    transition.kind == CreditTransitionKind::Consume && transition.settlement_digest
        == base_statement && timestamp <= transition.expires_at
}

/// Whether the facility of a reservation is current and belongs to the side.
pub open spec fn facility_fits(
    facility: CreditFacilityRecord,
    transition: CreditFacilityTransition,
    side: Side,
) -> bool {
    &&& facility_current(facility, transition)
    &&& facility.beneficiary_commitment == side.entity
    &&& facility.rail_asset_id == side.asset
}

/// Whether the facility of a reservation is current and belongs to the side.
pub(crate) fn does_facility_fit(
    facility: &CreditFacilityRecord,
    transition: &CreditFacilityTransition,
    side: &Side,
) -> (r: bool)
    ensures
        r == facility_fits(*facility, *transition, *side),
{
    is_facility_current(facility, transition) && facility.beneficiary_commitment == side.entity
        && facility.rail_asset_id == side.asset
}

} // verus!
