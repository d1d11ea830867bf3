//! Guarantee facilities: grants, holds, controls and amendments.

use vstd::prelude::*;

use crate::crypto::{ed25519_key, ed25519_signed, is_ed25519_key, is_ed25519_signed};
use crate::endorsement::{endorse, endorsement_refusal, Seal, Submission};
use crate::execution::facility::{
    advance, advanced, close_hold, closed_hold, facility_current, hold_current,
    is_facility_current, is_hold_current, open_hold, opened_hold,
};
use crate::execution::product::{asset_active, is_asset_active, operated};
use crate::id::Id;
use crate::order::{
    CreditAmendmentMode, CreditControlAction, CreditFacilityAmendment, CreditFacilityControl,
    CreditFacilityGrant, CreditFacilityTransition, CreditTransitionKind,
};
use crate::outcome::{accepted, meets, refuse, unless, verdict, Outcome};
use crate::state::{CreditFacilityRecord, CreditHoldRecord, FacilityStatus, HoldStatus, Ledger,
    State,
};

verus! {

/// Why a guarantor has not signed a message; `unsigned` says so of a wrong
/// signature.
pub open spec fn guarantor_refusal(
    public_key: Id,
    message: Result<Vec<u8>, String>,
    signature: [u8; 64],
    unsigned: Seq<char>,
) -> Option<Seq<char>> {
    if !ed25519_key(public_key.0) {
        Some("stored guarantor public key is invalid"@)
    } else {
        match message {
            Err(reason) => Some(reason@),
            Ok(bytes) => if ed25519_signed(public_key.0, bytes@, signature) {
                None
            } else {
                Some(unsigned)
            },
        }
    }
}

fn check_guarantor(
    public_key: &Id,
    message: &Result<Vec<u8>, String>,
    signature: &[u8; 64],
    unsigned: &str,
) -> (r: Result<(), String>)
    ensures
        verdict(r, guarantor_refusal(*public_key, *message, *signature, unsigned@)),
{
    if !is_ed25519_key(&public_key.0) {
        return refuse("stored guarantor public key is invalid");
    }
    match message {
        Err(reason) => Err(reason.clone()),
        Ok(bytes) => {
            if is_ed25519_signed(&public_key.0, bytes.as_slice(), signature) {
                Ok(())
            } else {
                refuse(unsigned)
            }
        },
    }
}

/// Whether a facility covers the guarantor, beneficiary and asset of a grant.
pub open spec fn same_scope(facility: CreditFacilityRecord, grant: CreditFacilityGrant) -> bool {
    &&& facility.guarantor_id == grant.guarantor_id
    &&& facility.beneficiary_commitment == grant.beneficiary_commitment
    &&& facility.rail_asset_id == grant.rail_asset_id
}

/// Whether some facility covers the scope of a grant already.
pub open spec fn scope_granted(ledger: Ledger, grant: CreditFacilityGrant) -> bool {
    exists|facility_id: Id| #[trigger]
        ledger.credit_facilities.contains_key(facility_id) && same_scope(
            ledger.credit_facilities[facility_id],
            grant,
        )
}

fn is_scope_granted(state: &State, grant: &CreditFacilityGrant) -> (r: bool)
    ensures
        r == scope_granted(state@, *grant),
{
    let count: usize = state.credit_facilities.len();
    let mut index: usize = 0;
    while index < count
        invariant
            index <= count == state.credit_facilities.count(),
            forall|i: int|
                0 <= i < index ==> !same_scope(#[trigger] state.credit_facilities.nth(i), *grant),
        decreases count - index,
    {
        let facility = state.credit_facilities.at(index);
        if facility.guarantor_id == grant.guarantor_id && facility.beneficiary_commitment
            == grant.beneficiary_commitment && facility.rail_asset_id == grant.rail_asset_id {
            assert(same_scope(
                state@.credit_facilities[state.credit_facilities.key_at(index as int)],
                *grant,
            ));
            return true;
        }
        index = index + 1;
    }
    false
}

/// Why a grant is refused.
pub open spec fn grant_refusal(
    ledger: Ledger,
    grant: CreditFacilityGrant,
    submission: Submission,
    timestamp: u64,
) -> Option<Seq<char>> {
    let guarantor = ledger.guarantors[grant.guarantor_id];
    let signed = guarantor_refusal(
        guarantor.public_key,
        grant.guarantor_message,
        grant.guarantor_signature,
        "credit facility has an invalid guarantor signature"@,
    );
    if endorsement_refusal(grant.seal, submission) is Some {
        endorsement_refusal(grant.seal, submission)
    } else if timestamp > grant.valid_until {
        Some("credit facility is already expired"@)
    } else if ledger.operations.contains_key(grant.operation_id) {
        Some("operation identifier was already used"@)
    } else if !ledger.guarantors.contains_key(grant.guarantor_id) {
        Some("credit facility names an unknown guarantor"@)
    } else if !guarantor.active || guarantor.risk_policy_digest != grant.risk_policy_digest {
        Some("credit facility uses an inactive guarantor or unregistered policy"@)
    } else if signed is Some {
        signed
    } else if !asset_active(ledger, grant.rail_asset_id) {
        Some("credit facility uses an inactive or unknown asset"@)
    } else if ledger.credit_facilities.contains_key(grant.facility_id) || scope_granted(
        ledger,
        grant,
    ) {
        Some("credit facility identifier or guarantor scope is already registered"@)
    } else {
        None
    }
}

/// The facility that a grant opens.
pub open spec fn granted(grant: CreditFacilityGrant) -> CreditFacilityRecord {
    CreditFacilityRecord {
        guarantor_id: grant.guarantor_id,
        beneficiary_commitment: grant.beneficiary_commitment,
        rail_asset_id: grant.rail_asset_id,
        cap_commitment: grant.cap_commitment,
        available_commitment: grant.available_commitment,
        held_commitment: grant.held_commitment,
        outstanding_commitment: grant.outstanding_commitment,
        overlimit_commitment: Id::zero(),
        collateral_commitment: grant.collateral_commitment,
        risk_policy_digest: grant.risk_policy_digest,
        valid_from: grant.valid_from,
        valid_until: grant.valid_until,
        status: FacilityStatus::Active,
        sequence: 0,
    }
}

/// The ledger with a facility put in place by an operation.
pub open spec fn facility_set(
    ledger: Ledger,
    facility_id: Id,
    facility: CreditFacilityRecord,
    operation_id: Id,
    statement: Id,
) -> Ledger {
    operated(
        Ledger {
            credit_facilities: ledger.credit_facilities.insert(facility_id, facility),
            ..ledger
        },
        operation_id,
        statement,
    )
}

/// What a grant does.
pub open spec fn grant_outcome(
    ledger: Ledger,
    grant: CreditFacilityGrant,
    submission: Submission,
    timestamp: u64,
) -> Outcome {
    let statement = grant.seal.statement->Ok_0;
    unless(
        grant_refusal(ledger, grant, submission, timestamp),
        ledger,
        accepted(
            facility_set(
                ledger,
                grant.facility_id,
                granted(grant),
                grant.operation_id,
                statement,
            ),
            statement,
        ),
    )
}

/// Opens a credit facility that its guarantor has signed.
pub fn grant_credit(
    state: &mut State,
    grant: &CreditFacilityGrant,
    submission: &Submission,
    timestamp: u64,
) -> (r: Result<Id, String>)
    ensures
        meets(r, final(state)@, grant_outcome(old(state)@, *grant, *submission, timestamp)),
{
    let statement = endorse(&grant.seal, submission)?;
    if timestamp > grant.valid_until {
        return refuse("credit facility is already expired");
    }
    if state.operations.contains_key(&grant.operation_id) {
        return refuse("operation identifier was already used");
    }
    let guarantor = match state.guarantors.get(&grant.guarantor_id) {
        Some(guarantor) => guarantor,
        None => return refuse("credit facility names an unknown guarantor"),
    };
    if !guarantor.active || guarantor.risk_policy_digest != grant.risk_policy_digest {
        return refuse("credit facility uses an inactive guarantor or unregistered policy");
    }
    check_guarantor(
        &guarantor.public_key,
        &grant.guarantor_message,
        &grant.guarantor_signature,
        "credit facility has an invalid guarantor signature",
    )?;
    if !is_asset_active(state, &grant.rail_asset_id) {
        return refuse("credit facility uses an inactive or unknown asset");
    }
    if state.credit_facilities.contains_key(&grant.facility_id) || is_scope_granted(state, grant) {
        return refuse("credit facility identifier or guarantor scope is already registered");
    }
    state.credit_facilities.insert(
        grant.facility_id,
        CreditFacilityRecord {
            guarantor_id: grant.guarantor_id,
            beneficiary_commitment: grant.beneficiary_commitment,
            rail_asset_id: grant.rail_asset_id,
            cap_commitment: grant.cap_commitment,
            available_commitment: grant.available_commitment,
            held_commitment: grant.held_commitment,
            outstanding_commitment: grant.outstanding_commitment,
            overlimit_commitment: Id::zero(),
            collateral_commitment: grant.collateral_commitment,
            risk_policy_digest: grant.risk_policy_digest,
            valid_from: grant.valid_from,
            valid_until: grant.valid_until,
            status: FacilityStatus::Active,
            sequence: 0,
        },
    );
    state.operations.insert(grant.operation_id, statement);
    Ok(statement)
}

/// Why a transition may not open its hold.
pub open spec fn hold_refusal(
    ledger: Ledger,
    facility: CreditFacilityRecord,
    transition: CreditFacilityTransition,
    timestamp: u64,
) -> Option<Seq<char>> {
    if facility.status != FacilityStatus::Active || timestamp < facility.valid_from || timestamp
        > facility.valid_until {
        Some("credit facility is not active"@)
    } else if transition.expires_at < timestamp || transition.expires_at > facility.valid_until {
        Some("credit hold expiry is outside the facility interval"@)
    } else if transition.before_outstanding_commitment
        != transition.after_outstanding_commitment {
        Some("a new hold cannot change settled debt"@)
    } else if ledger.credit_holds.contains_key(transition.hold_id) {
        Some("credit hold identifier is already registered"@)
    } else {
        None
    }
}

/// Why a transition may not close its hold. A hold is released after its expiry
/// and consumed up to it.
pub open spec fn close_refusal(
    ledger: Ledger,
    transition: CreditFacilityTransition,
    timestamp: u64,
) -> Option<Seq<char>> {
    if !ledger.credit_holds.contains_key(transition.hold_id) {
        Some("credit transition names an unknown hold"@)
    } else if !hold_current(ledger.credit_holds[transition.hold_id], transition) {
        Some("credit transition was proved against stale hold state"@)
    } else if transition.kind == CreditTransitionKind::Release {
        if timestamp <= transition.expires_at {
            Some("credit hold cannot be released before signed expiry"@)
        } else if transition.before_outstanding_commitment
            != transition.after_outstanding_commitment {
            Some("hold release cannot change settled debt"@)
        } else {
            None
        }
    } else if timestamp > transition.expires_at {
        Some("expired credit hold cannot be consumed"@)
    } else {
        None
    }
}

/// Why a transition is refused.
pub open spec fn transition_refusal(
    ledger: Ledger,
    transition: CreditFacilityTransition,
    seal: Seal,
    submission: Submission,
    timestamp: u64,
) -> Option<Seq<char>> {
    let facility = ledger.credit_facilities[transition.facility_id];
    let hold = match transition.kind {
        CreditTransitionKind::Hold => hold_refusal(ledger, facility, transition, timestamp),
        _ => close_refusal(ledger, transition, timestamp),
    };
    if endorsement_refusal(seal, submission) is Some {
        endorsement_refusal(seal, submission)
    } else if ledger.operations.contains_key(transition.operation_id) {
        Some("operation identifier was already used"@)
    } else if !ledger.credit_facilities.contains_key(transition.facility_id) {
        Some("credit transition names an unknown facility"@)
    } else if !facility_current(facility, transition) {
        Some("credit transition was proved against stale facility state"@)
    } else if hold is Some {
        hold
    } else if facility.sequence == u64::MAX {
        Some("credit facility sequence overflow"@)
    } else {
        None
    }
}

/// The hold after a transition.
pub open spec fn transitioned_hold(
    ledger: Ledger,
    transition: CreditFacilityTransition,
) -> CreditHoldRecord {
    let hold = ledger.credit_holds[transition.hold_id];
    match transition.kind {
        CreditTransitionKind::Hold => opened_hold(transition),
        CreditTransitionKind::Release => closed_hold(
            hold,
            transition,
            HoldStatus::Released,
            transition.settlement_digest,
        ),
        CreditTransitionKind::Consume => closed_hold(
            hold,
            transition,
            HoldStatus::Consumed,
            transition.settlement_digest,
        ),
    }
}

/// What a transition does: the facility takes the proved balances, and the hold
/// is opened, released or consumed.
pub open spec fn transition_outcome(
    ledger: Ledger,
    transition: CreditFacilityTransition,
    seal: Seal,
    submission: Submission,
    timestamp: u64,
) -> Outcome {
    let statement = seal.statement->Ok_0;
    let after = Ledger {
        credit_holds: ledger.credit_holds.insert(
            transition.hold_id,
            transitioned_hold(ledger, transition),
        ),
        ..ledger
    };
    unless(
        transition_refusal(ledger, transition, seal, submission, timestamp),
        ledger,
        accepted(
            facility_set(
                after,
                transition.facility_id,
                advanced(ledger.credit_facilities[transition.facility_id], transition),
                transition.operation_id,
                statement,
            ),
            statement,
        ),
    )
}

fn check_hold(
    state: &State,
    facility: &CreditFacilityRecord,
    transition: &CreditFacilityTransition,
    timestamp: u64,
) -> (r: Result<(), String>)
    ensures
        verdict(r, hold_refusal(state@, *facility, *transition, timestamp)),
{
    if facility.status != FacilityStatus::Active || timestamp < facility.valid_from || timestamp
        > facility.valid_until {
        return refuse("credit facility is not active");
    }
    if transition.expires_at < timestamp || transition.expires_at > facility.valid_until {
        return refuse("credit hold expiry is outside the facility interval");
    }
    if transition.before_outstanding_commitment != transition.after_outstanding_commitment {
        return refuse("a new hold cannot change settled debt");
    }
    if state.credit_holds.contains_key(&transition.hold_id) {
        return refuse("credit hold identifier is already registered");
    }
    Ok(())
}

fn check_close(state: &State, transition: &CreditFacilityTransition, timestamp: u64) -> (r: Result<
    CreditHoldRecord,
    String,
>)
    ensures
        match r {
            Ok(hold) => close_refusal(state@, *transition, timestamp) is None && hold
                == state@.credit_holds[transition.hold_id],
            Err(message) => close_refusal(state@, *transition, timestamp) == Some(message@),
        },
{
    let hold = match state.credit_holds.get(&transition.hold_id) {
        Some(hold) => hold,
        None => return refuse("credit transition names an unknown hold"),
    };
    if !is_hold_current(hold, transition) {
        return refuse("credit transition was proved against stale hold state");
    }
    if transition.kind == CreditTransitionKind::Release {
        if timestamp <= transition.expires_at {
            return refuse("credit hold cannot be released before signed expiry");
        }
        if transition.before_outstanding_commitment != transition.after_outstanding_commitment {
            return refuse("hold release cannot change settled debt");
        }
    } else if timestamp > transition.expires_at {
        return refuse("expired credit hold cannot be consumed");
    }
    Ok(*hold)
}

/// Opens, releases or consumes a hold.
pub fn transition_credit(
    state: &mut State,
    transition: &CreditFacilityTransition,
    seal: &Seal,
    submission: &Submission,
    timestamp: u64,
) -> (r: Result<Id, String>)
    ensures
        meets(
            r,
            final(state)@,
            transition_outcome(old(state)@, *transition, *seal, *submission, timestamp),
        ),
{
    let statement = endorse(seal, submission)?;
    if state.operations.contains_key(&transition.operation_id) {
        return refuse("operation identifier was already used");
    }
    let facility = match state.credit_facilities.get(&transition.facility_id) {
        Some(facility) => *facility,
        None => return refuse("credit transition names an unknown facility"),
    };
    if !is_facility_current(&facility, transition) {
        return refuse("credit transition was proved against stale facility state");
    }
    match transition.kind {
        CreditTransitionKind::Hold => {
            check_hold(state, &facility, transition, timestamp)?;
            let next = advance(&facility, transition)?;
            state.credit_facilities.insert(transition.facility_id, next);
            state.credit_holds.insert(transition.hold_id, open_hold(transition));
        },
        CreditTransitionKind::Release => {
            let hold = check_close(state, transition, timestamp)?;
            let next = advance(&facility, transition)?;
            state.credit_facilities.insert(transition.facility_id, next);
            state.credit_holds.insert(
                transition.hold_id,
                close_hold(&hold, transition, HoldStatus::Released, transition.settlement_digest),
            );
        },
        CreditTransitionKind::Consume => {
            let hold = check_close(state, transition, timestamp)?;
            let next = advance(&facility, transition)?;
            state.credit_facilities.insert(transition.facility_id, next);
            state.credit_holds.insert(
                transition.hold_id,
                close_hold(&hold, transition, HoldStatus::Consumed, transition.settlement_digest),
            );
        },
    }
    state.operations.insert(transition.operation_id, statement);
    Ok(statement)
}

/// The standing that a control brings a facility to.
pub open spec fn controlled_status(action: CreditControlAction) -> FacilityStatus {
    match action {
        CreditControlAction::Activate => FacilityStatus::Active,
        CreditControlAction::Freeze => FacilityStatus::Frozen,
        CreditControlAction::Close => FacilityStatus::Closed,
        CreditControlAction::Default => FacilityStatus::Defaulted,
    }
}

impl CreditControlAction {
    /// The standing that the control brings a facility to.
    pub fn status(self) -> (r: FacilityStatus)
        ensures
            r == controlled_status(self),
    {
        match self {
            CreditControlAction::Activate => FacilityStatus::Active,
            CreditControlAction::Freeze => FacilityStatus::Frozen,
            CreditControlAction::Close => FacilityStatus::Closed,
            CreditControlAction::Default => FacilityStatus::Defaulted,
        }
    }
}

/// Why a facility in its standing does not admit a control.
pub open spec fn action_refusal(
    facility: CreditFacilityRecord,
    action: CreditControlAction,
) -> Option<Seq<char>> {
    match action {
        CreditControlAction::Activate => if facility.status != FacilityStatus::Frozen {
            Some("only a frozen facility can be reactivated"@)
        } else if facility.overlimit_commitment != Id::zero() {
            Some("over-limit facility must be rehabilitated before activation"@)
        } else {
            None
        },
        CreditControlAction::Freeze => if facility.status != FacilityStatus::Active {
            Some("only an active facility can be frozen"@)
        } else {
            None
        },
        CreditControlAction::Close => if facility.held_commitment != Id::zero()
            || facility.outstanding_commitment != Id::zero() || facility.overlimit_commitment
            != Id::zero() {
            Some("facility with holds, debt, or an over-limit balance cannot be closed"@)
        } else {
            None
        },
        CreditControlAction::Default => if facility.status == FacilityStatus::Closed {
            Some("closed facility cannot enter default"@)
        } else {
            None
        },
    }
}

fn check_action(facility: &CreditFacilityRecord, action: CreditControlAction) -> (r: Result<
    (),
    String,
>)
    ensures
        verdict(r, action_refusal(*facility, action)),
{
    match action {
        CreditControlAction::Activate => {
            if facility.status != FacilityStatus::Frozen {
                return refuse("only a frozen facility can be reactivated");
            }
            if facility.overlimit_commitment != Id::zero() {
                return refuse("over-limit facility must be rehabilitated before activation");
            }
        },
        CreditControlAction::Freeze => {
            if facility.status != FacilityStatus::Active {
                return refuse("only an active facility can be frozen");
            }
        },
        CreditControlAction::Close => {
            if facility.held_commitment != Id::zero() || facility.outstanding_commitment
                != Id::zero() || facility.overlimit_commitment != Id::zero() {
                return refuse(
                    "facility with holds, debt, or an over-limit balance cannot be closed",
                );
            }
        },
        CreditControlAction::Default => {
            if facility.status == FacilityStatus::Closed {
                return refuse("closed facility cannot enter default");
            }
        },
    }
    Ok(())
}

/// Why a control is refused.
pub open spec fn control_refusal(
    ledger: Ledger,
    control: CreditFacilityControl,
    submission: Submission,
    timestamp: u64,
) -> Option<Seq<char>> {
    let facility = ledger.credit_facilities[control.facility_id];
    let guarantor = ledger.guarantors[facility.guarantor_id];
    let signed = guarantor_refusal(
        guarantor.public_key,
        control.guarantor_message,
        control.guarantor_signature,
        "credit control lacks the guarantor signature"@,
    );
    if endorsement_refusal(control.seal, submission) is Some {
        endorsement_refusal(control.seal, submission)
    } else if control.effective_at > timestamp {
        Some("credit control is not yet effective"@)
    } else if ledger.operations.contains_key(control.operation_id) {
        Some("operation identifier was already used"@)
    } else if !ledger.credit_facilities.contains_key(control.facility_id) {
        Some("credit control names an unknown facility"@)
    } else if facility.sequence != control.before_sequence {
        Some("credit control was signed against stale facility state"@)
    } else if !ledger.guarantors.contains_key(facility.guarantor_id) {
        Some("credit facility guarantor is missing"@)
    } else if !guarantor.active {
        Some("inactive guarantor cannot control a facility"@)
    } else if signed is Some {
        signed
    } else if action_refusal(facility, control.action) is Some {
        action_refusal(facility, control.action)
    } else if facility.sequence == u64::MAX {
        Some("credit facility sequence overflow"@)
    } else {
        None
    }
}

/// What a control does: the facility takes the standing and the next sequence.
pub open spec fn control_outcome(
    ledger: Ledger,
    control: CreditFacilityControl,
    submission: Submission,
    timestamp: u64,
) -> Outcome {
    let statement = control.seal.statement->Ok_0;
    let facility = ledger.credit_facilities[control.facility_id];
    let after = CreditFacilityRecord {
        status: controlled_status(control.action),
        sequence: (facility.sequence + 1) as u64,
        ..facility
    };
    unless(
        control_refusal(ledger, control, submission, timestamp),
        ledger,
        accepted(
            facility_set(ledger, control.facility_id, after, control.operation_id, statement),
            statement,
        ),
    )
}

/// Changes the standing of a facility at its guarantor's word.
pub fn control_credit(
    state: &mut State,
    control: &CreditFacilityControl,
    submission: &Submission,
    timestamp: u64,
) -> (r: Result<Id, String>)
    ensures
        meets(r, final(state)@, control_outcome(old(state)@, *control, *submission, timestamp)),
{
    let statement = endorse(&control.seal, submission)?;
    if control.effective_at > timestamp {
        return refuse("credit control is not yet effective");
    }
    if state.operations.contains_key(&control.operation_id) {
        return refuse("operation identifier was already used");
    }
    let mut facility = match state.credit_facilities.get(&control.facility_id) {
        Some(facility) => *facility,
        None => return refuse("credit control names an unknown facility"),
    };
    if facility.sequence != control.before_sequence {
        return refuse("credit control was signed against stale facility state");
    }
    let guarantor = match state.guarantors.get(&facility.guarantor_id) {
        Some(guarantor) => guarantor,
        None => return refuse("credit facility guarantor is missing"),
    };
    if !guarantor.active {
        return refuse("inactive guarantor cannot control a facility");
    }
    check_guarantor(
        &guarantor.public_key,
        &control.guarantor_message,
        &control.guarantor_signature,
        "credit control lacks the guarantor signature",
    )?;
    check_action(&facility, control.action)?;
    if facility.sequence == u64::MAX {
        return refuse("credit facility sequence overflow");
    }
    facility.status = control.action.status();
    facility.sequence = facility.sequence + 1;
    state.credit_facilities.insert(control.facility_id, facility);
    state.operations.insert(control.operation_id, statement);
    Ok(statement)
}

/// Whether an amendment was proved against the facility as it is.
pub open spec fn amendment_current(
    facility: CreditFacilityRecord,
    amendment: CreditFacilityAmendment,
) -> bool {
    &&& facility.sequence == amendment.before_sequence
    &&& facility.cap_commitment == amendment.before_cap_commitment
    &&& facility.available_commitment == amendment.before_available_commitment
    &&& facility.held_commitment == amendment.before_held_commitment
    &&& facility.outstanding_commitment == amendment.before_outstanding_commitment
    &&& facility.overlimit_commitment == amendment.before_overlimit_commitment
    &&& facility.collateral_commitment == amendment.before_collateral_commitment
    &&& facility.risk_policy_digest == amendment.before_risk_policy_digest
    &&& facility.valid_until == amendment.before_valid_until
}

fn is_amendment_current(
    facility: &CreditFacilityRecord,
    amendment: &CreditFacilityAmendment,
) -> (r: bool)
    ensures
        r == amendment_current(*facility, *amendment),
{
    facility.sequence == amendment.before_sequence && facility.cap_commitment
        == amendment.before_cap_commitment && facility.available_commitment
        == amendment.before_available_commitment && facility.held_commitment
        == amendment.before_held_commitment && facility.outstanding_commitment
        == amendment.before_outstanding_commitment && facility.overlimit_commitment
        == amendment.before_overlimit_commitment && facility.collateral_commitment
        == amendment.before_collateral_commitment && facility.risk_policy_digest
        == amendment.before_risk_policy_digest && facility.valid_until
        == amendment.before_valid_until
}

/// Why an amendment is refused.
pub open spec fn amend_refusal(
    ledger: Ledger,
    amendment: CreditFacilityAmendment,
    submission: Submission,
    timestamp: u64,
) -> Option<Seq<char>> {
    let facility = ledger.credit_facilities[amendment.facility_id];
    let guarantor = ledger.guarantors[facility.guarantor_id];
    let signed = guarantor_refusal(
        guarantor.public_key,
        amendment.guarantor_message,
        amendment.guarantor_signature,
        "credit amendment lacks the guarantor signature"@,
    );
    if endorsement_refusal(amendment.seal, submission) is Some {
        endorsement_refusal(amendment.seal, submission)
    } else if amendment.effective_at > timestamp || amendment.after_valid_until < timestamp {
        Some("credit amendment is not effective or has expired"@)
    } else if ledger.operations.contains_key(amendment.operation_id) {
        Some("operation identifier was already used"@)
    } else if !ledger.credit_facilities.contains_key(amendment.facility_id) {
        Some("credit amendment names an unknown facility"@)
    } else if facility.status == FacilityStatus::Closed || facility.status
        == FacilityStatus::Defaulted {
        Some("closed or defaulted facility cannot be amended"@)
    } else if !amendment_current(facility, amendment) {
        Some("credit amendment was proved against stale facility state"@)
    } else if amendment.after_valid_until < facility.valid_from {
        Some("credit amendment ends before the facility starts"@)
    } else if !ledger.guarantors.contains_key(facility.guarantor_id) {
        Some("credit facility guarantor is missing"@)
    } else if !guarantor.active {
        Some("inactive guarantor cannot amend a facility"@)
    } else if guarantor.risk_policy_digest != amendment.after_risk_policy_digest {
        Some("credit amendment uses an unregistered guarantor risk policy"@)
    } else if signed is Some {
        signed
    } else if facility.sequence == u64::MAX {
        Some("credit facility sequence overflow"@)
    } else {
        None
    }
}

/// The facility after an amendment. One over its limit is frozen.
pub open spec fn amended(
    facility: CreditFacilityRecord,
    amendment: CreditFacilityAmendment,
) -> CreditFacilityRecord {
    CreditFacilityRecord {
        cap_commitment: amendment.after_cap_commitment,
        available_commitment: amendment.after_available_commitment,
        overlimit_commitment: amendment.after_overlimit_commitment,
        collateral_commitment: amendment.after_collateral_commitment,
        risk_policy_digest: amendment.after_risk_policy_digest,
        valid_until: amendment.after_valid_until,
        status: if amendment.mode == CreditAmendmentMode::OverLimit {
            FacilityStatus::Frozen
        } else {
            facility.status
        },
        sequence: (facility.sequence + 1) as u64,
        ..facility
    }
}

/// What an amendment does.
pub open spec fn amend_outcome(
    ledger: Ledger,
    amendment: CreditFacilityAmendment,
    submission: Submission,
    timestamp: u64,
) -> Outcome {
    let statement = amendment.seal.statement->Ok_0;
    unless(
        amend_refusal(ledger, amendment, submission, timestamp),
        ledger,
        accepted(
            facility_set(
                ledger,
                amendment.facility_id,
                amended(ledger.credit_facilities[amendment.facility_id], amendment),
                amendment.operation_id,
                statement,
            ),
            statement,
        ),
    )
}

/// Changes the terms of a facility at its guarantor's word.
pub fn amend_credit(
    state: &mut State,
    amendment: &CreditFacilityAmendment,
    submission: &Submission,
    timestamp: u64,
) -> (r: Result<Id, String>)
    ensures
        meets(r, final(state)@, amend_outcome(old(state)@, *amendment, *submission, timestamp)),
{
    let statement = endorse(&amendment.seal, submission)?;
    if amendment.effective_at > timestamp || amendment.after_valid_until < timestamp {
        return refuse("credit amendment is not effective or has expired");
    }
    if state.operations.contains_key(&amendment.operation_id) {
        return refuse("operation identifier was already used");
    }
    let mut facility = match state.credit_facilities.get(&amendment.facility_id) {
        Some(facility) => *facility,
        None => return refuse("credit amendment names an unknown facility"),
    };
    if facility.status == FacilityStatus::Closed || facility.status == FacilityStatus::Defaulted {
        return refuse("closed or defaulted facility cannot be amended");
    }
    if !is_amendment_current(&facility, amendment) {
        return refuse("credit amendment was proved against stale facility state");
    }
    if amendment.after_valid_until < facility.valid_from {
        return refuse("credit amendment ends before the facility starts");
    }
    let guarantor = match state.guarantors.get(&facility.guarantor_id) {
        Some(guarantor) => guarantor,
        None => return refuse("credit facility guarantor is missing"),
    };
    if !guarantor.active {
        return refuse("inactive guarantor cannot amend a facility");
    }
    if guarantor.risk_policy_digest != amendment.after_risk_policy_digest {
        return refuse("credit amendment uses an unregistered guarantor risk policy");
    }
    check_guarantor(
        &guarantor.public_key,
        &amendment.guarantor_message,
        &amendment.guarantor_signature,
        "credit amendment lacks the guarantor signature",
    )?;
    if facility.sequence == u64::MAX {
        return refuse("credit facility sequence overflow");
    }
    facility.cap_commitment = amendment.after_cap_commitment;
    facility.available_commitment = amendment.after_available_commitment;
    facility.overlimit_commitment = amendment.after_overlimit_commitment;
    facility.collateral_commitment = amendment.after_collateral_commitment;
    facility.risk_policy_digest = amendment.after_risk_policy_digest;
    facility.valid_until = amendment.after_valid_until;
    if amendment.mode == CreditAmendmentMode::OverLimit {
        facility.status = FacilityStatus::Frozen;
    }
    facility.sequence = facility.sequence + 1;
    state.credit_facilities.insert(amendment.facility_id, facility);
    state.operations.insert(amendment.operation_id, statement);
    Ok(statement)
}

} // verus!
