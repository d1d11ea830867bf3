//! The scopes of applications, and the notes reserved in them.

use vstd::prelude::*;

use crate::endorsement::{
    endorse, endorsement_refusal, statement_of, statement_refusal, Seal, Submission,
};
use crate::execution::application_settlement::is_same_scope;
use crate::execution::facility::{
    advance, advanced, does_open_hold, facility_current, is_facility_current, open_hold,
    opened_hold, opens_hold,
};
use crate::execution::notes::{
    apply_note_spend, apply_spend_progress, check_note_spend, spend_refusal,
};
use crate::execution::product::operated;
use crate::id::Id;
use crate::order::{CreditFacilityTransition, NoteReservationEscrow};
use crate::outcome::{accepted, meets, refusal_of, refuse, refused, repeat, unless, Outcome};
use crate::state::{
    ApplicationBinding, ApplicationReservationRecord, ApplicationScope, HoldStatus, Ledger, State,
};

verus! {

/// The registration of a scope. `key` is the key of the scope.
#[derive(Debug)]
pub struct ApplicationScopeRegistration {
    pub scope: ApplicationScope,
    pub key: Result<Id, String>,
    pub seal: Seal,
}

/// Why a scope is not registered: it is registered already, or not approved.
pub open spec fn register_scope_refusal(
    ledger: Ledger,
    registration: ApplicationScopeRegistration,
    submission: Submission,
) -> Option<Seq<char>> {
    if endorsement_refusal(registration.seal, submission) is Some {
        endorsement_refusal(registration.seal, submission)
    } else if statement_refusal(registration.key) is Some {
        statement_refusal(registration.key)
    } else if ledger.application_reserve_scopes.contains_key(registration.key->Ok_0) {
        Some("application reserve scope is already registered"@)
    } else {
        None
    }
}

/// What the registration of a scope does.
pub open spec fn register_scope_outcome(
    ledger: Ledger,
    registration: ApplicationScopeRegistration,
    submission: Submission,
) -> Outcome {
    unless(
        register_scope_refusal(ledger, registration, submission),
        ledger,
        accepted(
            Ledger {
                application_reserve_scopes: ledger.application_reserve_scopes.insert(
                    registration.key->Ok_0,
                    registration.scope,
                ),
                ..ledger
            },
            registration.seal.statement->Ok_0,
        ),
    )
}

/// Registers a scope.
pub fn register_scope(
    state: &mut State,
    registration: &ApplicationScopeRegistration,
    submission: &Submission,
) -> (r: Result<Id, String>)
    ensures
        meets(
            r,
            final(state)@,
            register_scope_outcome(old(state)@, *registration, *submission),
        ),
{
    let statement = endorse(&registration.seal, submission)?;
    let key = statement_of(&registration.key)?;
    if state.application_reserve_scopes.contains_key(&key) {
        return refuse("application reserve scope is already registered");
    }
    state.application_reserve_scopes.insert(key, registration.scope);
    Ok(statement)
}

/// A reservation of a note for an application. `scope_key` is the key of its
/// scope, `verified` the verdict on its relation and spend proofs, and
/// `covenant_serial` the serial under which the escrowed note counts as spent.
#[derive(Debug)]
pub struct ApplicationNoteReservation {
    pub binding: ApplicationBinding,
    pub transition: CreditFacilityTransition,
    pub escrow: NoteReservationEscrow,
    pub scope_key: Result<Id, String>,
    pub verified: Result<(), String>,
    pub covenant_serial: Id,
    pub seal: Seal,
}

/// Whether a reservation is bound to the hold that its transition opens.
pub open spec fn binds_transition(
    binding: ApplicationBinding,
    transition: CreditFacilityTransition,
) -> bool {
    &&& binding.hold_id == transition.hold_id
    &&& binding.facility_id == transition.facility_id
    &&& binding.amount_commitment == transition.amount_commitment
    &&& binding.valid_until == transition.expires_at
}

/// Why a reservation is refused before it changes anything.
pub open spec fn reserve_application_refusal(
    ledger: Ledger,
    request: ApplicationNoteReservation,
    submission: Submission,
    timestamp: u64,
) -> Option<Seq<char>> {
    let transition = request.transition;
    let binding = request.binding;
    let facility = ledger.credit_facilities[transition.facility_id];
    let key = request.scope_key->Ok_0;
    let spend = spend_refusal(ledger, request.escrow.spend, None, true);
    if endorsement_refusal(request.seal, submission) is Some {
        endorsement_refusal(request.seal, submission)
    } else if statement_refusal(request.scope_key) is Some {
        statement_refusal(request.scope_key)
    } else if !ledger.application_reserve_scopes.contains_key(key)
        || ledger.application_reserve_scopes[key] != binding.scope {
        Some("application reservation scope is not registered"@)
    } else if ledger.operations.contains_key(transition.operation_id)
        || ledger.application_reservations.contains_key(transition.hold_id)
        || ledger.credit_holds.contains_key(transition.hold_id) {
        Some("application reservation operation or hold was already used"@)
    } else if !binds_transition(binding, transition) {
        Some("application reservation differs from its transition"@)
    } else if !ledger.credit_facilities.contains_key(transition.facility_id) {
        Some("application reservation names an unknown facility"@)
    } else if facility.beneficiary_commitment != binding.entity_commitment
        || facility.rail_asset_id != binding.asset_id {
        Some("application reservation does not match its facility"@)
    } else if !facility_current(facility, transition) {
        Some("application reservation was proved against stale facility state"@)
    } else if !opens_hold(facility, transition, timestamp) {
        Some("application reservation cannot create a valid active facility hold"@)
    } else if refusal_of(request.verified) is Some {
        refusal_of(request.verified)
    } else if spend is Some {
        spend
    } else if facility.sequence == u64::MAX {
        Some("credit facility sequence overflow"@)
    } else {
        None
    }
}

/// The ledger with the hold of a transition opened.
pub open spec fn hold_placed(ledger: Ledger, transition: CreditFacilityTransition) -> Ledger {
    Ledger {
        credit_facilities: ledger.credit_facilities.insert(
            transition.facility_id,
            advanced(ledger.credit_facilities[transition.facility_id], transition),
        ),
        credit_holds: ledger.credit_holds.insert(transition.hold_id, opened_hold(transition)),
        ..ledger
    }
}

/// The stored form of a new reservation.
pub open spec fn reservation_record(
    request: ApplicationNoteReservation,
) -> ApplicationReservationRecord {
    ApplicationReservationRecord {
        binding: request.binding,
        escrow_note_id: request.escrow.escrow_note_id,
        covenant_serial: request.covenant_serial,
        status: HoldStatus::Active,
        sequence: 0,
        remaining_commitment: None,
        last_receipt: None,
        remaining_opening: None,
        settlement_digest: Id::zero(),
    }
}

/// What a reservation does: it opens the hold, spends into the escrowed note and
/// stores the reservation.
pub open spec fn reserve_application_outcome(
    ledger: Ledger,
    request: ApplicationNoteReservation,
    submission: Submission,
    timestamp: u64,
) -> Outcome {
    let transition = request.transition;
    let statement = request.seal.statement->Ok_0;
    let spent = apply_spend_progress(
        hold_placed(ledger, transition),
        request.escrow.spend,
        transition.expires_at,
        statement,
    );
    let reserved = Ledger {
        application_reservations: spent.ledger.application_reservations.insert(
            transition.hold_id,
            reservation_record(request),
        ),
        ..spent.ledger
    };
    unless(
        reserve_application_refusal(ledger, request, submission, timestamp),
        ledger,
        unless(
            spent.refusal,
            spent.ledger,
            accepted(operated(reserved, transition.operation_id, statement), statement),
        ),
    )
}

/// Reserves a note for an application.
pub fn reserve_application(
    state: &mut State,
    request: &ApplicationNoteReservation,
    submission: &Submission,
    timestamp: u64,
) -> (r: Result<Id, String>)
    ensures
        meets(
            r,
            final(state)@,
            reserve_application_outcome(old(state)@, *request, *submission, timestamp),
        ),
{
    let transition = &request.transition;
    let binding = &request.binding;
    let statement = endorse(&request.seal, submission)?;
    let key = statement_of(&request.scope_key)?;
    let registered = match state.application_reserve_scopes.get(&key) {
        Some(scope) => is_same_scope(scope, &binding.scope),
        None => false,
    };
    if !registered {
        return refuse("application reservation scope is not registered");
    }
    if state.operations.contains_key(&transition.operation_id)
        || state.application_reservations.contains_key(&transition.hold_id)
        || state.credit_holds.contains_key(&transition.hold_id) {
        return refuse("application reservation operation or hold was already used");
    }
    if binding.hold_id != transition.hold_id || binding.facility_id != transition.facility_id
        || binding.amount_commitment != transition.amount_commitment || binding.valid_until
        != transition.expires_at {
        return refuse("application reservation differs from its transition");
    }
    let facility = match state.credit_facilities.get(&transition.facility_id) {
        Some(facility) => facility,
        None => return refuse("application reservation names an unknown facility"),
    };
    if facility.beneficiary_commitment != binding.entity_commitment || facility.rail_asset_id
        != binding.asset_id {
        return refuse("application reservation does not match its facility");
    }
    if !is_facility_current(facility, transition) {
        return refuse("application reservation was proved against stale facility state");
    }
    if !does_open_hold(facility, transition, timestamp) {
        return refuse("application reservation cannot create a valid active facility hold");
    }
    repeat(&request.verified)?;
    check_note_spend(state, &request.escrow.spend, None, true)?;
    let next = advance(facility, transition)?;
    state.credit_facilities.insert(transition.facility_id, next);
    state.credit_holds.insert(transition.hold_id, open_hold(transition));
    apply_note_spend(state, &request.escrow.spend, transition.expires_at, statement)?;
    state.application_reservations.insert(
        transition.hold_id,
        ApplicationReservationRecord {
            binding: *binding,
            escrow_note_id: request.escrow.escrow_note_id,
            covenant_serial: request.covenant_serial,
            status: HoldStatus::Active,
            sequence: 0,
            remaining_commitment: None,
            last_receipt: None,
            remaining_opening: None,
            settlement_digest: Id::zero(),
        },
    );
    state.operations.insert(transition.operation_id, statement);
    Ok(statement)
}

} // verus!
