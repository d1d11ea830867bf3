//! Reservations of makers and takers, and the release of expired ones.

use vstd::prelude::*;

use crate::decode::product::{
    check_escrow_match, check_mandate, check_note_escrow_match, escrow_match_refusal,
    mandate_refusal, note_escrow_match_refusal,
};
use crate::endorsement::{
    authorization_refusal, authorize_statement, endorse, endorsement_refusal, statement_of,
    statement_refusal, Submission,
};
use crate::execution::facility::{
    advance, advanced, close_hold, closed_hold, does_open_hold, facility_current, hold_current,
    is_facility_current, is_hold_current, is_pure_refund, open_hold, opened_hold, opens_hold,
    pure_refund,
};
use crate::execution::notes::{
    apply_note_spend, apply_spend_progress, check_note_spend, spend_refusal,
};
use crate::execution::product::{move_account, move_progress, operated};
use crate::id::Id;
use crate::order::{
    CertifiedAdmissionLane, CreditFacilityTransition, LaneDigest, NoteProductReservation,
    ProductNoteReleaseOrder, ProductReleaseOrder, ProductReservation, ReservationAuthorization,
    ReservationEscrow,
};
use crate::outcome::{
    accepted, first, meets, refusal_of, refuse, refused, repeat, unless, verdict, Outcome,
};
use crate::state::{
    AdmissionBatchRecord, AdmissionEntryRecord, CreditFacilityRecord, HoldStatus, Ledger,
    NoteReservationRecord, NullifierRecord, ReservationBindingRecord, ReservationEscrowRecord,
    ReservationRole, State,
};
use crate::table::Numbered;

verus! {

/// Whether a reservation has used a reserve nullifier.
pub open spec fn reserve_nullifier_used(ledger: Ledger, reserve_nullifier: Id) -> bool {
    exists|hold_id: Id| #[trigger]
        ledger.reservation_bindings.contains_key(hold_id)
            && ledger.reservation_bindings[hold_id].reserve_nullifier == reserve_nullifier
}

fn is_reserve_nullifier_used(state: &State, reserve_nullifier: Id) -> (r: bool)
    ensures
        r == reserve_nullifier_used(state@, reserve_nullifier),
{
    let count: usize = state.reservation_bindings.len();
    let mut index: usize = 0;
    while index < count
        invariant
            index <= count == state.reservation_bindings.count(),
            forall|i: int|
                0 <= i < index ==> (#[trigger] state.reservation_bindings.nth(
                    i,
                )).reserve_nullifier != reserve_nullifier,
        decreases count - index,
    {
        if state.reservation_bindings.at(index).reserve_nullifier == reserve_nullifier {
            return true;
        }
        index = index + 1;
    }
    false
}

/// Whether a taker's reservation has used the request or the lane of another.
pub open spec fn lane_taken(
    binding: ReservationBindingRecord,
    authorization: ReservationAuthorization,
) -> bool {
    &&& binding.role == ReservationRole::Taker
    &&& {
        ||| binding.rfq_nullifier == authorization.rfq_nullifier
        ||| binding.admission_ticket_id == authorization.admission_ticket_id
        ||| binding.admission_receipt_digest == authorization.admission_receipt_digest
        ||| (binding.admission_batch_id == authorization.admission_batch_id
            && binding.admission_sequence == authorization.admission_sequence)
    }
}

/// Whether a taker's request or lane is reserved already.
pub open spec fn lane_reserved(ledger: Ledger, authorization: ReservationAuthorization) -> bool {
    exists|hold_id: Id| #[trigger]
        ledger.reservation_bindings.contains_key(hold_id) && lane_taken(
            ledger.reservation_bindings[hold_id],
            authorization,
        )
}

fn is_lane_reserved(state: &State, authorization: &ReservationAuthorization) -> (r: bool)
    ensures
        r == lane_reserved(state@, *authorization),
{
    let count: usize = state.reservation_bindings.len();
    let mut index: usize = 0;
    while index < count
        invariant
            index <= count == state.reservation_bindings.count(),
            forall|i: int|
                0 <= i < index ==> !lane_taken(
                    #[trigger] state.reservation_bindings.nth(i),
                    *authorization,
                ),
        decreases count - index,
    {
        let binding = state.reservation_bindings.at(index);
        if binding.role == ReservationRole::Taker && (binding.rfq_nullifier
            == authorization.rfq_nullifier || binding.admission_ticket_id
            == authorization.admission_ticket_id || binding.admission_receipt_digest
            == authorization.admission_receipt_digest || (binding.admission_batch_id
            == authorization.admission_batch_id && binding.admission_sequence
            == authorization.admission_sequence)) {
            assert(lane_taken(
                state@.reservation_bindings[state.reservation_bindings.key_at(index as int)],
                *authorization,
            ));
            return true;
        }
        index = index + 1;
    }
    false
}

/// The lane that a taker's mandate must be certified in: the mandate at its
/// sequence in the registered batch, without a principal.
pub open spec fn certified_lane(
    authorization: ReservationAuthorization,
    batch: AdmissionBatchRecord,
) -> CertifiedAdmissionLane {
    CertifiedAdmissionLane {
        slot: authorization.admission_slot,
        sequence: authorization.admission_sequence,
        principal_digest: Id::zero(),
        ticket_id: authorization.admission_ticket_id,
        claim_digest: authorization.mandate_digest,
        cluster_digest: batch.batch_digest,
        order_digest: batch.order_digest,
    }
}

/// The lane that a taker's reservation must be certified in, with the venue and
/// epoch of its batch. There is none without a registered batch.
pub fn expected_lane(state: &State, authorization: &ReservationAuthorization) -> (r: Option<
    (CertifiedAdmissionLane, Id, u64),
>)
    ensures
        match r {
            Some((lane, venue_id, epoch)) => {
                let batch = state@.admission_batches[authorization.admission_batch_id];
                &&& state@.admission_batches.contains_key(authorization.admission_batch_id)
                &&& lane == certified_lane(*authorization, batch)
                &&& venue_id == batch.venue_id
                &&& epoch == batch.epoch
            },
            None => !state@.admission_batches.contains_key(authorization.admission_batch_id),
        },
{
    match state.admission_batches.get(&authorization.admission_batch_id) {
        None => None,
        Some(batch) => Some(
            (
                CertifiedAdmissionLane {
                    slot: authorization.admission_slot,
                    sequence: authorization.admission_sequence,
                    principal_digest: Id::zero(),
                    ticket_id: authorization.admission_ticket_id,
                    claim_digest: authorization.mandate_digest,
                    cluster_digest: batch.batch_digest,
                    order_digest: batch.order_digest,
                },
                batch.venue_id,
                batch.epoch,
            ),
        ),
    }
}

/// The key of the lane that an authorization names.
pub open spec fn lane_key(authorization: ReservationAuthorization) -> Numbered {
    Numbered {
        scope: authorization.admission_batch_id,
        number: authorization.admission_sequence,
    }
}

/// Whether a digest is that of the lane of a taker's mandate, for the venue and
/// epoch of its batch.
pub open spec fn digests_lane(
    lane_digest: LaneDigest,
    authorization: ReservationAuthorization,
    batch: AdmissionBatchRecord,
) -> bool {
    &&& lane_digest.lane == certified_lane(authorization, batch)
    &&& lane_digest.venue_id == batch.venue_id
    &&& lane_digest.epoch == batch.epoch
}

/// Why a taker's reservation is refused admission: its mandate must be the next
/// certified claim of its batch. A maker needs no admission.
pub open spec fn admission_refusal(
    ledger: Ledger,
    authorization: ReservationAuthorization,
    lane_digest: Result<LaneDigest, String>,
    timestamp: u64,
) -> Option<Seq<char>> {
    let batch = ledger.admission_batches[authorization.admission_batch_id];
    let entry = ledger.admission_entries[lane_key(authorization)];
    if authorization.role == ReservationRole::Maker {
        None
    } else if !ledger.admission_batches.contains_key(authorization.admission_batch_id) {
        Some("Taker reserve has no registered admission batch"@)
    } else if timestamp > batch.expires_at || authorization.admission_epoch != batch.epoch
        || authorization.admission_slot != batch.slot {
        Some("Taker admission is expired or differs from its batch"@)
    } else if lane_digest is Err {
        Some(lane_digest->Err_0@)
    } else if lane_digest->Ok_0.digest != authorization.admission_receipt_digest
        || authorization.admission_sequence != batch.consumed + 1
        || authorization.admission_sequence > batch.population {
        Some("Taker mandate is not the next certified admission claim"@)
    } else if !ledger.admission_entries.contains_key(lane_key(authorization)) {
        Some("admission plan omits the Taker lane"@)
    } else if entry.admission_digest != authorization.admission_receipt_digest
        || entry.consumed_by != Id::zero() {
        Some("Taker admission lane differs or was already consumed"@)
    } else if !digests_lane(lane_digest->Ok_0, authorization, batch) {
        Some("admission lane digest was derived from something else"@)
    } else {
        None
    }
}

fn check_admission(
    state: &State,
    authorization: &ReservationAuthorization,
    lane_digest: &Result<LaneDigest, String>,
    timestamp: u64,
) -> (r: Result<(), String>)
    ensures
        verdict(r, admission_refusal(state@, *authorization, *lane_digest, timestamp)),
{
    if authorization.role == ReservationRole::Maker {
        return Ok(());
    }
    let batch = match state.admission_batches.get(&authorization.admission_batch_id) {
        Some(batch) => batch,
        None => return refuse("Taker reserve has no registered admission batch"),
    };
    if timestamp > batch.expires_at || authorization.admission_epoch != batch.epoch
        || authorization.admission_slot != batch.slot {
        return refuse("Taker admission is expired or differs from its batch");
    }
    let expected = match lane_digest {
        Ok(expected) => expected,
        Err(message) => return Err(message.clone()),
    };
    if expected.digest != authorization.admission_receipt_digest || batch.consumed == u64::MAX
        || authorization.admission_sequence != batch.consumed + 1
        || authorization.admission_sequence > batch.population {
        return refuse("Taker mandate is not the next certified admission claim");
    }
    let key = Numbered {
        scope: authorization.admission_batch_id,
        number: authorization.admission_sequence,
    };
    let entry = match state.admission_entries.get(&key) {
        Some(entry) => entry,
        None => return refuse("admission plan omits the Taker lane"),
    };
    if entry.admission_digest != authorization.admission_receipt_digest || entry.consumed_by
        != Id::zero() {
        return refuse("Taker admission lane differs or was already consumed");
    }
    let lane = &expected.lane;
    if lane.slot != authorization.admission_slot || lane.sequence
        != authorization.admission_sequence || lane.principal_digest != Id::zero()
        || lane.ticket_id != authorization.admission_ticket_id || lane.claim_digest
        != authorization.mandate_digest || lane.cluster_digest != batch.batch_digest
        || lane.order_digest != batch.order_digest || expected.venue_id != batch.venue_id
        || expected.epoch != batch.epoch {
        return refuse("admission lane digest was derived from something else");
    }
    Ok(())
}

/// The ledger with the lane of a batch consumed by an operation.
pub open spec fn lane_consumed(
    ledger: Ledger,
    batch_id: Id,
    sequence: u64,
    operation_id: Id,
) -> Ledger {
    let key = Numbered { scope: batch_id, number: sequence };
    Ledger {
        admission_entries: ledger.admission_entries.insert(
            key,
            AdmissionEntryRecord { consumed_by: operation_id, ..ledger.admission_entries[key] },
        ),
        admission_batches: ledger.admission_batches.insert(
            batch_id,
            AdmissionBatchRecord { consumed: sequence, ..ledger.admission_batches[batch_id] },
        ),
        ..ledger
    }
}

/// Consumes a lane of a batch.
pub(crate) fn consume_lane(state: &mut State, batch_id: Id, sequence: u64, operation_id: Id)
    requires
        old(state)@.admission_batches.contains_key(batch_id),
        old(state)@.admission_entries.contains_key(Numbered { scope: batch_id, number: sequence }),
    ensures
        final(state)@ == lane_consumed(old(state)@, batch_id, sequence, operation_id),
{
    let key = Numbered { scope: batch_id, number: sequence };
    if let Some(found) = state.admission_entries.get(&key) {
        let mut entry = *found;
        entry.consumed_by = operation_id;
        state.admission_entries.insert(key, entry);
    }
    if let Some(found) = state.admission_batches.get(&batch_id) {
        let mut batch = *found;
        batch.consumed = sequence;
        state.admission_batches.insert(batch_id, batch);
    }
}

/// The ledger after a reservation's admission: a taker consumes its lane.
pub open spec fn admitted(
    ledger: Ledger,
    authorization: ReservationAuthorization,
    operation_id: Id,
) -> Ledger {
    match authorization.role {
        ReservationRole::Maker => ledger,
        ReservationRole::Taker => lane_consumed(
            ledger,
            authorization.admission_batch_id,
            authorization.admission_sequence,
            operation_id,
        ),
    }
}

/// The stored form of a reservation's authorization.
pub open spec fn binding_record(
    authorization: ReservationAuthorization,
    statement: Id,
) -> ReservationBindingRecord {
    ReservationBindingRecord {
        role: authorization.role,
        entity_commitment: authorization.entity_commitment,
        asset_id: authorization.asset_id,
        direction: authorization.direction,
        authorization_digest: authorization.authorization_digest,
        mandate_digest: authorization.mandate_digest,
        typed_reserve_digest: authorization.typed_reserve_digest,
        reserve_nullifier: authorization.reserve_nullifier,
        asset_link_proof_digest: authorization.asset_link_proof_digest,
        limit_price_commitment: authorization.limit_price_commitment,
        rfq_nullifier: authorization.rfq_nullifier,
        policy_version: authorization.policy_version,
        admission_ticket_id: authorization.admission_ticket_id,
        admission_slot: authorization.admission_slot,
        admission_receipt_digest: authorization.admission_receipt_digest,
        admission_epoch: authorization.admission_epoch,
        admission_sequence: authorization.admission_sequence,
        admission_batch_id: authorization.admission_batch_id,
        receipt_digest: statement,
    }
}

/// The ledger with the hold of a reservation opened: the facility advanced, the
/// hold and the authorization stored.
pub open spec fn hold_opened(
    ledger: Ledger,
    transition: CreditFacilityTransition,
    authorization: ReservationAuthorization,
    statement: Id,
) -> Ledger {
    Ledger {
        credit_facilities: ledger.credit_facilities.insert(
            transition.facility_id,
            advanced(ledger.credit_facilities[transition.facility_id], transition),
        ),
        credit_holds: ledger.credit_holds.insert(transition.hold_id, opened_hold(transition)),
        reservation_bindings: ledger.reservation_bindings.insert(
            transition.hold_id,
            binding_record(authorization, statement),
        ),
        ..ledger
    }
}

fn store_hold(
    state: &mut State,
    transition: &CreditFacilityTransition,
    facility: CreditFacilityRecord,
    authorization: &ReservationAuthorization,
    statement: Id,
)
    requires
        transition.before_sequence < u64::MAX,
        facility == advanced(
            old(state)@.credit_facilities[transition.facility_id],
            *transition,
        ),
    ensures
        final(state)@ == hold_opened(old(state)@, *transition, *authorization, statement),
{
    state.credit_facilities.insert(transition.facility_id, facility);
    state.credit_holds.insert(transition.hold_id, open_hold(transition));
    state.reservation_bindings.insert(
        transition.hold_id,
        ReservationBindingRecord {
            role: authorization.role,
            entity_commitment: authorization.entity_commitment,
            asset_id: authorization.asset_id,
            direction: authorization.direction,
            authorization_digest: authorization.authorization_digest,
            mandate_digest: authorization.mandate_digest,
            typed_reserve_digest: authorization.typed_reserve_digest,
            reserve_nullifier: authorization.reserve_nullifier,
            asset_link_proof_digest: authorization.asset_link_proof_digest,
            limit_price_commitment: authorization.limit_price_commitment,
            rfq_nullifier: authorization.rfq_nullifier,
            policy_version: authorization.policy_version,
            admission_ticket_id: authorization.admission_ticket_id,
            admission_slot: authorization.admission_slot,
            admission_receipt_digest: authorization.admission_receipt_digest,
            admission_epoch: authorization.admission_epoch,
            admission_sequence: authorization.admission_sequence,
            admission_batch_id: authorization.admission_batch_id,
            receipt_digest: statement,
        },
    );
}

/// Why a reservation against an account is not the one that was signed: its
/// transition, authorization or escrow is malformed, a taker's authorization is
/// not its mandate, or the escrow is another.
pub open spec fn signed_refusal(request: ProductReservation) -> Option<Seq<char>> {
    first(
        refusal_of(request.transition_body),
        first(
            refusal_of(request.authorization_body),
            first(
                mandate_refusal(request.authorization),
                first(
                    refusal_of(request.escrow_seal.body),
                    escrow_match_refusal(
                        request.escrow,
                        request.transition,
                        request.authorization,
                        request.escrow_seal.statement,
                    ),
                ),
            ),
        ),
    )
}

fn check_signed(request: &ProductReservation) -> (r: Result<(), String>)
    ensures
        verdict(r, signed_refusal(*request)),
{
    repeat(&request.transition_body)?;
    repeat(&request.authorization_body)?;
    check_mandate(&request.authorization)?;
    repeat(&request.escrow_seal.body)?;
    check_escrow_match(
        &request.escrow,
        &request.transition,
        &request.authorization,
        &request.escrow_seal.statement,
    )
}

/// Why a reservation against an account is refused before anything changes.
pub open spec fn reserve_product_refusal(
    ledger: Ledger,
    request: ProductReservation,
    submission: Submission,
    timestamp: u64,
) -> Option<Seq<char>> {
    let transition = request.transition;
    let authorization = request.authorization;
    let escrow = request.escrow;
    let facility = ledger.credit_facilities[transition.facility_id];
    let source = ledger.accounts[escrow.source_handle];
    let admission = admission_refusal(ledger, authorization, request.lane_digest, timestamp);
    if signed_refusal(request) is Some {
        signed_refusal(request)
    } else if authorization_refusal(request.statement, submission) is Some {
        authorization_refusal(request.statement, submission)
    } else if ledger.operations.contains_key(transition.operation_id)
        || ledger.reservation_bindings.contains_key(transition.hold_id)
        || ledger.reservation_escrows.contains_key(transition.hold_id) {
        Some("reservation operation or hold identifier was already used"@)
    } else if reserve_nullifier_used(ledger, authorization.reserve_nullifier) {
        Some("reserve nullifier was already used"@)
    } else if authorization.role == ReservationRole::Taker && lane_reserved(
        ledger,
        authorization,
    ) {
        Some("Taker RFQ or admission lane was already reserved"@)
    } else if !ledger.credit_facilities.contains_key(transition.facility_id) {
        Some("bound reserve names an unknown facility"@)
    } else if facility.beneficiary_commitment != authorization.entity_commitment
        || facility.rail_asset_id != authorization.asset_id {
        Some("reserve entity or asset does not match its facility"@)
    } else if !facility_current(facility, transition) {
        Some("reservation was proved against stale facility state"@)
    } else if !opens_hold(facility, transition, timestamp) {
        Some("reservation cannot create a valid active facility hold"@)
    } else if ledger.credit_holds.contains_key(transition.hold_id) {
        Some("credit hold identifier is already registered"@)
    } else if !ledger.accounts.contains_key(escrow.source_handle) {
        Some("reservation escrow names an unknown source account"@)
    } else if source.asset_id != escrow.asset_id || source.commitment
        != escrow.source_before_commitment || source.sequence != escrow.source_before_sequence {
        Some("reservation escrow was proved against stale source-account state"@)
    } else if admission is Some {
        admission
    } else if facility.sequence == u64::MAX {
        Some("credit facility sequence overflow"@)
    } else {
        None
    }
}

/// The stored form of an account escrow.
pub open spec fn escrow_record(escrow: ReservationEscrow) -> ReservationEscrowRecord {
    ReservationEscrowRecord {
        source_handle: escrow.source_handle,
        escrow_handle: escrow.escrow_handle,
        asset_id: escrow.asset_id,
        amount_commitment: escrow.amount_commitment,
        source_before_commitment: escrow.source_before_commitment,
        source_after_commitment: escrow.source_after_commitment,
        source_before_sequence: escrow.source_before_sequence,
        proof_digest: escrow.proof_digest,
        status: HoldStatus::Active,
        settlement_digest: Id::zero(),
    }
}

/// What a reservation against an account does: it opens the hold, moves the
/// amount out of the source account into escrow, consumes the taker's lane and
/// records the operation under the transition's own statement.
pub open spec fn reserve_product_outcome(
    ledger: Ledger,
    request: ProductReservation,
    submission: Submission,
    timestamp: u64,
) -> Outcome {
    let transition = request.transition;
    let escrow = request.escrow;
    let statement = request.statement->Ok_0;
    let opened = hold_opened(ledger, transition, request.authorization, statement);
    let moved = move_progress(
        opened,
        escrow.source_handle,
        escrow.source_after_commitment,
        "source account sequence overflow"@,
    );
    let escrowed = Ledger {
        reservation_escrows: moved.ledger.reservation_escrows.insert(
            transition.hold_id,
            escrow_record(escrow),
        ),
        ..moved.ledger
    };
    let reserved = admitted(escrowed, request.authorization, transition.operation_id);
    unless(
        reserve_product_refusal(ledger, request, submission, timestamp),
        ledger,
        unless(
            moved.refusal,
            moved.ledger,
            unless(
                statement_refusal(request.transition_statement),
                reserved,
                accepted(
                    operated(
                        reserved,
                        transition.operation_id,
                        request.transition_statement->Ok_0,
                    ),
                    statement,
                ),
            ),
        ),
    )
}

/// Reserves an amount of an account.
pub fn reserve_product(
    state: &mut State,
    request: &ProductReservation,
    submission: &Submission,
    timestamp: u64,
) -> (r: Result<Id, String>)
    ensures
        meets(
            r,
            final(state)@,
            reserve_product_outcome(old(state)@, *request, *submission, timestamp),
        ),
{
    let transition = &request.transition;
    let authorization = &request.authorization;
    let escrow = &request.escrow;
    check_signed(request)?;
    let statement = authorize_statement(&request.statement, submission)?;
    if state.operations.contains_key(&transition.operation_id)
        || state.reservation_bindings.contains_key(&transition.hold_id)
        || state.reservation_escrows.contains_key(&transition.hold_id) {
        return refuse("reservation operation or hold identifier was already used");
    }
    if is_reserve_nullifier_used(state, authorization.reserve_nullifier) {
        return refuse("reserve nullifier was already used");
    }
    if authorization.role == ReservationRole::Taker && is_lane_reserved(state, authorization) {
        return refuse("Taker RFQ or admission lane was already reserved");
    }
    let facility = match state.credit_facilities.get(&transition.facility_id) {
        Some(facility) => facility,
        None => return refuse("bound reserve names an unknown facility"),
    };
    if facility.beneficiary_commitment != authorization.entity_commitment
        || facility.rail_asset_id != authorization.asset_id {
        return refuse("reserve entity or asset does not match its facility");
    }
    if !is_facility_current(facility, transition) {
        return refuse("reservation was proved against stale facility state");
    }
    if !does_open_hold(facility, transition, timestamp) {
        return refuse("reservation cannot create a valid active facility hold");
    }
    if state.credit_holds.contains_key(&transition.hold_id) {
        return refuse("credit hold identifier is already registered");
    }
    match state.accounts.get(&escrow.source_handle) {
        None => return refuse("reservation escrow names an unknown source account"),
        Some(source) => {
            if source.asset_id != escrow.asset_id || source.commitment
                != escrow.source_before_commitment || source.sequence
                != escrow.source_before_sequence {
                return refuse(
                    "reservation escrow was proved against stale source-account state",
                );
            }
        },
    }
    check_admission(state, authorization, &request.lane_digest, timestamp)?;
    let next = advance(facility, transition)?;
    store_hold(state, transition, next, authorization, statement);
    move_account(
        state,
        &escrow.source_handle,
        escrow.source_after_commitment,
        "source account sequence overflow",
    )?;
    state.reservation_escrows.insert(
        transition.hold_id,
        ReservationEscrowRecord {
            source_handle: escrow.source_handle,
            escrow_handle: escrow.escrow_handle,
            asset_id: escrow.asset_id,
            amount_commitment: escrow.amount_commitment,
            source_before_commitment: escrow.source_before_commitment,
            source_after_commitment: escrow.source_after_commitment,
            source_before_sequence: escrow.source_before_sequence,
            proof_digest: escrow.proof_digest,
            status: HoldStatus::Active,
            settlement_digest: Id::zero(),
        },
    );
    if authorization.role == ReservationRole::Taker {
        consume_lane(
            state,
            authorization.admission_batch_id,
            authorization.admission_sequence,
            transition.operation_id,
        );
    }
    let transition_statement = statement_of(&request.transition_statement)?;
    state.operations.insert(transition.operation_id, transition_statement);
    Ok(statement)
}

/// Why a reservation against a note is not the one that was signed.
pub open spec fn note_signed_refusal(request: NoteProductReservation) -> Option<Seq<char>> {
    first(
        refusal_of(request.transition_body),
        first(
            refusal_of(request.authorization_body),
            first(
                mandate_refusal(request.authorization),
                note_escrow_match_refusal(request.escrow_seal, request.authorization),
            ),
        ),
    )
}

fn check_note_signed(request: &NoteProductReservation) -> (r: Result<(), String>)
    ensures
        verdict(r, note_signed_refusal(*request)),
{
    repeat(&request.transition_body)?;
    repeat(&request.authorization_body)?;
    check_mandate(&request.authorization)?;
    check_note_escrow_match(&request.escrow_seal, &request.authorization)
}

/// Why a reservation against a note is refused before anything changes.
pub open spec fn reserve_note_product_refusal(
    ledger: Ledger,
    request: NoteProductReservation,
    submission: Submission,
    timestamp: u64,
) -> Option<Seq<char>> {
    let transition = request.transition;
    let authorization = request.authorization;
    let facility = ledger.credit_facilities[transition.facility_id];
    let spend = spend_refusal(ledger, request.escrow.spend, None, true);
    let admission = admission_refusal(ledger, authorization, request.lane_digest, timestamp);
    if note_signed_refusal(request) is Some {
        note_signed_refusal(request)
    } else if authorization_refusal(request.statement, submission) is Some {
        authorization_refusal(request.statement, submission)
    } else if ledger.operations.contains_key(transition.operation_id)
        || ledger.reservation_bindings.contains_key(transition.hold_id)
        || ledger.note_reservations.contains_key(transition.hold_id)
        || ledger.credit_holds.contains_key(transition.hold_id) {
        Some("anonymous reservation operation or hold was already used"@)
    } else if reserve_nullifier_used(ledger, authorization.reserve_nullifier) {
        Some("reserve nullifier was already used"@)
    } else if authorization.role == ReservationRole::Taker && lane_reserved(
        ledger,
        authorization,
    ) {
        Some("Taker RFQ or admission lane was already reserved"@)
    } else if !ledger.credit_facilities.contains_key(transition.facility_id) {
        Some("anonymous reserve names an unknown facility"@)
    } else if facility.beneficiary_commitment != authorization.entity_commitment
        || facility.rail_asset_id != authorization.asset_id {
        Some("anonymous reserve entity or asset does not match its facility"@)
    } else if !facility_current(facility, transition) {
        Some("anonymous reservation was proved against stale facility state"@)
    } else if !opens_hold(facility, transition, timestamp) {
        Some("anonymous reservation cannot create a valid active facility hold"@)
    } else if spend is Some {
        spend
    } else if admission is Some {
        admission
    } else if facility.sequence == u64::MAX {
        Some("credit facility sequence overflow"@)
    } else {
        None
    }
}

/// What a reservation against a note does: it opens the hold, spends into the
/// escrowed note, consumes the taker's lane and records the operation under the
/// transition's own statement.
pub open spec fn reserve_note_product_outcome(
    ledger: Ledger,
    request: NoteProductReservation,
    submission: Submission,
    timestamp: u64,
) -> Outcome {
    let transition = request.transition;
    let escrow = request.escrow;
    let statement = request.statement->Ok_0;
    let opened = hold_opened(ledger, transition, request.authorization, statement);
    let spent = apply_spend_progress(opened, escrow.spend, transition.expires_at, statement);
    let escrowed = Ledger {
        note_reservations: spent.ledger.note_reservations.insert(
            transition.hold_id,
            NoteReservationRecord {
                escrow_note_id: escrow.escrow_note_id,
                asset_id: escrow.spend.asset_id,
                amount_commitment: transition.amount_commitment,
                proof_digest: escrow.spend.proof_digest,
                delegation_digest: escrow.delegation_digest,
                status: HoldStatus::Active,
                settlement_digest: Id::zero(),
            },
        ),
        ..spent.ledger
    };
    let reserved = admitted(escrowed, request.authorization, transition.operation_id);
    unless(
        reserve_note_product_refusal(ledger, request, submission, timestamp),
        ledger,
        unless(
            spent.refusal,
            spent.ledger,
            unless(
                statement_refusal(request.transition_statement),
                reserved,
                accepted(
                    operated(
                        reserved,
                        transition.operation_id,
                        request.transition_statement->Ok_0,
                    ),
                    statement,
                ),
            ),
        ),
    )
}

/// Reserves an amount in a note.
pub fn reserve_note_product(
    state: &mut State,
    request: &NoteProductReservation,
    submission: &Submission,
    timestamp: u64,
) -> (r: Result<Id, String>)
    ensures
        meets(
            r,
            final(state)@,
            reserve_note_product_outcome(old(state)@, *request, *submission, timestamp),
        ),
{
    let transition = &request.transition;
    let authorization = &request.authorization;
    let escrow = &request.escrow;
    check_note_signed(request)?;
    let statement = authorize_statement(&request.statement, submission)?;
    if state.operations.contains_key(&transition.operation_id)
        || state.reservation_bindings.contains_key(&transition.hold_id)
        || state.note_reservations.contains_key(&transition.hold_id)
        || state.credit_holds.contains_key(&transition.hold_id) {
        return refuse("anonymous reservation operation or hold was already used");
    }
    if is_reserve_nullifier_used(state, authorization.reserve_nullifier) {
        return refuse("reserve nullifier was already used");
    }
    if authorization.role == ReservationRole::Taker && is_lane_reserved(state, authorization) {
        return refuse("Taker RFQ or admission lane was already reserved");
    }
    let facility = match state.credit_facilities.get(&transition.facility_id) {
        Some(facility) => facility,
        None => return refuse("anonymous reserve names an unknown facility"),
    };
    if facility.beneficiary_commitment != authorization.entity_commitment
        || facility.rail_asset_id != authorization.asset_id {
        return refuse("anonymous reserve entity or asset does not match its facility");
    }
    if !is_facility_current(facility, transition) {
        return refuse("anonymous reservation was proved against stale facility state");
    }
    if !does_open_hold(facility, transition, timestamp) {
        return refuse("anonymous reservation cannot create a valid active facility hold");
    }
    check_note_spend(state, &escrow.spend, None, true)?;
    check_admission(state, authorization, &request.lane_digest, timestamp)?;
    let next = advance(facility, transition)?;
    store_hold(state, transition, next, authorization, statement);
    proof {
        lemma_spend_keeps_admission(state@, escrow.spend, transition.expires_at, statement);
    }
    apply_note_spend(state, &escrow.spend, transition.expires_at, statement)?;
    state.note_reservations.insert(
        transition.hold_id,
        NoteReservationRecord {
            escrow_note_id: escrow.escrow_note_id,
            asset_id: escrow.spend.asset_id,
            amount_commitment: transition.amount_commitment,
            proof_digest: escrow.spend.proof_digest,
            delegation_digest: escrow.delegation_digest,
            status: HoldStatus::Active,
            settlement_digest: Id::zero(),
        },
    );
    if authorization.role == ReservationRole::Taker {
        consume_lane(
            state,
            authorization.admission_batch_id,
            authorization.admission_sequence,
            transition.operation_id,
        );
    }
    let transition_statement = statement_of(&request.transition_statement)?;
    state.operations.insert(transition.operation_id, transition_statement);
    Ok(statement)
}

/// A spend changes nothing but notes and their serials.
pub proof fn lemma_spend_keeps_admission(
    ledger: Ledger,
    spend: crate::order::NoteSpend,
    deadline: u64,
    statement: Id,
)
    ensures
        ({
            let after = apply_spend_progress(ledger, spend, deadline, statement).ledger;
            after == (Ledger { notes: after.notes, note_serials: after.note_serials, ..ledger })
        }),
{
    let used = Ledger {
        note_serials: ledger.note_serials.insert(
            spend.serial_point,
            crate::state::NoteSerialRecord {
                deadline,
                asset_id: spend.asset_id,
                ring_root: spend.ring_root,
                statement,
            },
        ),
        ..ledger
    };
    lemma_outputs_keep(used, spend.outputs@, 0);
}

proof fn lemma_outputs_keep(ledger: Ledger, outputs: Seq<crate::order::NoteOutput>, from: nat)
    ensures
        ({
            let after = crate::execution::notes::outputs_progress(ledger, outputs, from).ledger;
            after == (Ledger { notes: after.notes, ..ledger })
        }),
    decreases outputs.len() - from,
{
    if from < outputs.len() {
        let step = crate::execution::notes::insert_note_progress(ledger, outputs[from as int]);
        if step.refusal is None {
            lemma_outputs_keep(step.ledger, outputs, from + 1);
        }
    }
}

/// Whether a stored reservation is the one that a release names.
pub open spec fn release_fits(
    binding: ReservationBindingRecord,
    role: ReservationRole,
    asset_id: Id,
    receipt: Id,
    query_commitment: Id,
) -> bool {
    &&& binding.role == role
    &&& binding.asset_id == asset_id
    &&& binding.receipt_digest == receipt
    &&& binding.authorization_digest == query_commitment
}

/// Why a release is outside the scope of its reservation.
pub open spec fn release_scope_refusal(
    binding: ReservationBindingRecord,
    role: ReservationRole,
    query_commitment: Id,
) -> Option<Seq<char>> {
    match role {
        ReservationRole::Maker => if binding.policy_version == 0 || binding.rfq_nullifier
            != Id::zero() {
            Some("Maker release is not policy-scoped"@)
        } else {
            None
        },
        ReservationRole::Taker => if binding.policy_version != 0 || binding.rfq_nullifier
            == Id::zero() || binding.mandate_digest != query_commitment {
            Some("Taker release is not RFQ-scoped"@)
        } else {
            None
        },
    }
}

fn does_release_fit(
    binding: &ReservationBindingRecord,
    role: ReservationRole,
    asset_id: Id,
    receipt: Id,
    query_commitment: Id,
) -> (r: bool)
    ensures
        r == release_fits(*binding, role, asset_id, receipt, query_commitment),
{
    binding.role == role && binding.asset_id == asset_id && binding.receipt_digest == receipt
        && binding.authorization_digest == query_commitment
}

fn check_release_scope(
    binding: &ReservationBindingRecord,
    role: ReservationRole,
    query_commitment: Id,
) -> (r: Result<(), String>)
    ensures
        verdict(r, release_scope_refusal(*binding, role, query_commitment)),
{
    match role {
        ReservationRole::Maker => {
            if binding.policy_version == 0 || binding.rfq_nullifier != Id::zero() {
                return refuse("Maker release is not policy-scoped");
            }
        },
        ReservationRole::Taker => {
            if binding.policy_version != 0 || binding.rfq_nullifier == Id::zero()
                || binding.mandate_digest != query_commitment {
                return refuse("Taker release is not RFQ-scoped");
            }
        },
    }
    Ok(())
}

/// Why the release of an account reservation is refused before anything
/// changes.
pub open spec fn release_product_refusal(
    ledger: Ledger,
    order: ProductReleaseOrder,
    submission: Submission,
    timestamp: u64,
) -> Option<Seq<char>> {
    let transition = order.transition;
    let binding = ledger.reservation_bindings[transition.hold_id];
    let facility = ledger.credit_facilities[transition.facility_id];
    let escrow = ledger.reservation_escrows[transition.hold_id];
    let account = ledger.accounts[order.refund_leg.handle];
    if endorsement_refusal(order.seal, submission) is Some {
        endorsement_refusal(order.seal, submission)
    } else if timestamp <= transition.expires_at || timestamp > order.release_deadline {
        Some("product reservation is not yet releasable or release has expired"@)
    } else if ledger.nullifiers.contains_key(order.release_nullifier) {
        Some("release nullifier was already used"@)
    } else if ledger.operations.contains_key(transition.operation_id) {
        Some("release operation identifier was already used"@)
    } else if !ledger.reservation_bindings.contains_key(transition.hold_id) {
        Some("product release names an unknown reservation"@)
    } else if !release_fits(
        binding,
        order.role,
        order.asset_id,
        order.reserve_receipt_digest,
        transition.query_commitment,
    ) {
        Some("release differs from the stored reservation"@)
    } else if release_scope_refusal(binding, order.role, transition.query_commitment) is Some {
        release_scope_refusal(binding, order.role, transition.query_commitment)
    } else if !pure_refund(transition) {
        Some("product release is not a pure expired-hold refund"@)
    } else if !ledger.credit_facilities.contains_key(transition.facility_id) {
        Some("product release names an unknown facility"@)
    } else if !facility_current(facility, transition) || facility.beneficiary_commitment
        != binding.entity_commitment || facility.rail_asset_id != order.asset_id {
        Some("product release was proved against stale facility state"@)
    } else if !ledger.credit_holds.contains_key(transition.hold_id) {
        Some("product release names an unknown hold"@)
    } else if !hold_current(ledger.credit_holds[transition.hold_id], transition) {
        Some("product release was proved against stale hold state"@)
    } else if !ledger.reservation_escrows.contains_key(transition.hold_id) {
        Some("product release names an unknown asset escrow"@)
    } else if escrow.status != HoldStatus::Active || escrow.source_handle
        != order.refund_leg.handle || escrow.asset_id != order.asset_id || escrow.amount_commitment
        != transition.amount_commitment {
        Some("product release has no matching active asset escrow"@)
    } else if !ledger.accounts.contains_key(order.refund_leg.handle) {
        Some("product release refund account is unknown"@)
    } else if account.asset_id != order.asset_id || account.commitment
        != order.refund_leg.before_commitment || account.sequence
        != order.refund_leg.before_sequence {
        Some("product release was proved against stale refund-account state"@)
    } else if facility.sequence == u64::MAX {
        Some("credit facility sequence overflow"@)
    } else {
        None
    }
}

/// The ledger with a hold given back: the facility advanced, the hold released
/// and the release nullifier used.
pub open spec fn hold_released(
    ledger: Ledger,
    transition: CreditFacilityTransition,
    release_nullifier: Id,
    release_deadline: u64,
    statement: Id,
) -> Ledger {
    Ledger {
        credit_facilities: ledger.credit_facilities.insert(
            transition.facility_id,
            advanced(ledger.credit_facilities[transition.facility_id], transition),
        ),
        credit_holds: ledger.credit_holds.insert(
            transition.hold_id,
            closed_hold(
                ledger.credit_holds[transition.hold_id],
                transition,
                HoldStatus::Released,
                Id::zero(),
            ),
        ),
        nullifiers: ledger.nullifiers.insert(
            release_nullifier,
            NullifierRecord { deadline: release_deadline, statement },
        ),
        ..ledger
    }
}

/// What the release of an account reservation does: the hold and its escrow are
/// given back and the refund account moved.
pub open spec fn release_product_outcome(
    ledger: Ledger,
    order: ProductReleaseOrder,
    submission: Submission,
    timestamp: u64,
) -> Outcome {
    let transition = order.transition;
    let statement = order.seal.statement->Ok_0;
    let released = hold_released(
        ledger,
        transition,
        order.release_nullifier,
        order.release_deadline,
        statement,
    );
    let returned = Ledger {
        reservation_escrows: released.reservation_escrows.insert(
            transition.hold_id,
            ReservationEscrowRecord {
                status: HoldStatus::Released,
                settlement_digest: statement,
                ..ledger.reservation_escrows[transition.hold_id]
            },
        ),
        ..released
    };
    let moved = move_progress(
        returned,
        order.refund_leg.handle,
        order.refund_leg.after_commitment,
        "refund account sequence overflow"@,
    );
    unless(
        release_product_refusal(ledger, order, submission, timestamp),
        ledger,
        unless(
            moved.refusal,
            moved.ledger,
            accepted(operated(moved.ledger, transition.operation_id, statement), statement),
        ),
    )
}

/// Gives an expired account reservation back.
pub fn release_product(
    state: &mut State,
    order: &ProductReleaseOrder,
    submission: &Submission,
    timestamp: u64,
) -> (r: Result<Id, String>)
    ensures
        meets(
            r,
            final(state)@,
            release_product_outcome(old(state)@, *order, *submission, timestamp),
        ),
{
    let transition = &order.transition;
    let statement = endorse(&order.seal, submission)?;
    if timestamp <= transition.expires_at || timestamp > order.release_deadline {
        return refuse("product reservation is not yet releasable or release has expired");
    }
    if state.nullifiers.contains_key(&order.release_nullifier) {
        return refuse("release nullifier was already used");
    }
    if state.operations.contains_key(&transition.operation_id) {
        return refuse("release operation identifier was already used");
    }
    let binding = match state.reservation_bindings.get(&transition.hold_id) {
        Some(binding) => binding,
        None => return refuse("product release names an unknown reservation"),
    };
    if !does_release_fit(
        binding,
        order.role,
        order.asset_id,
        order.reserve_receipt_digest,
        transition.query_commitment,
    ) {
        return refuse("release differs from the stored reservation");
    }
    check_release_scope(binding, order.role, transition.query_commitment)?;
    if !is_pure_refund(transition) {
        return refuse("product release is not a pure expired-hold refund");
    }
    let facility = match state.credit_facilities.get(&transition.facility_id) {
        Some(facility) => facility,
        None => return refuse("product release names an unknown facility"),
    };
    if !is_facility_current(facility, transition) || facility.beneficiary_commitment
        != binding.entity_commitment || facility.rail_asset_id != order.asset_id {
        return refuse("product release was proved against stale facility state");
    }
    let hold = match state.credit_holds.get(&transition.hold_id) {
        Some(hold) => hold,
        None => return refuse("product release names an unknown hold"),
    };
    if !is_hold_current(hold, transition) {
        return refuse("product release was proved against stale hold state");
    }
    let mut escrow = match state.reservation_escrows.get(&transition.hold_id) {
        Some(escrow) => *escrow,
        None => return refuse("product release names an unknown asset escrow"),
    };
    if escrow.status != HoldStatus::Active || escrow.source_handle != order.refund_leg.handle
        || escrow.asset_id != order.asset_id || escrow.amount_commitment
        != transition.amount_commitment {
        return refuse("product release has no matching active asset escrow");
    }
    match state.accounts.get(&order.refund_leg.handle) {
        None => return refuse("product release refund account is unknown"),
        Some(account) => {
            if account.asset_id != order.asset_id || account.commitment
                != order.refund_leg.before_commitment || account.sequence
                != order.refund_leg.before_sequence {
                return refuse("product release was proved against stale refund-account state");
            }
        },
    }
    let next = advance(facility, transition)?;
    let closed = close_hold(hold, transition, HoldStatus::Released, Id::zero());
    state.credit_facilities.insert(transition.facility_id, next);
    state.credit_holds.insert(transition.hold_id, closed);
    escrow.status = HoldStatus::Released;
    escrow.settlement_digest = statement;
    state.reservation_escrows.insert(transition.hold_id, escrow);
    state.nullifiers.insert(
        order.release_nullifier,
        NullifierRecord { deadline: order.release_deadline, statement },
    );
    move_account(
        state,
        &order.refund_leg.handle,
        order.refund_leg.after_commitment,
        "refund account sequence overflow",
    )?;
    state.operations.insert(transition.operation_id, statement);
    Ok(statement)
}

/// Why the release of a note reservation is refused before anything changes.
pub open spec fn release_note_product_refusal(
    ledger: Ledger,
    order: ProductNoteReleaseOrder,
    submission: Submission,
    timestamp: u64,
) -> Option<Seq<char>> {
    let transition = order.transition;
    let binding = ledger.reservation_bindings[transition.hold_id];
    let facility = ledger.credit_facilities[transition.facility_id];
    let escrow = ledger.note_reservations[transition.hold_id];
    let spend = spend_refusal(ledger, order.spend, Some(order.escrow_note_id), false);
    if endorsement_refusal(order.seal, submission) is Some {
        endorsement_refusal(order.seal, submission)
    } else if timestamp <= transition.expires_at || timestamp > order.release_deadline {
        Some("anonymous reservation is not yet releasable or release has expired"@)
    } else if ledger.nullifiers.contains_key(order.release_nullifier) {
        Some("release nullifier was already used"@)
    } else if ledger.operations.contains_key(transition.operation_id) {
        Some("release operation identifier was already used"@)
    } else if !ledger.reservation_bindings.contains_key(transition.hold_id) {
        Some("anonymous release names an unknown reservation"@)
    } else if !release_fits(
        binding,
        order.role,
        order.asset_id,
        order.reserve_receipt_digest,
        transition.query_commitment,
    ) {
        Some("anonymous release differs from the stored reservation"@)
    } else if release_scope_refusal(binding, order.role, transition.query_commitment) is Some {
        release_scope_refusal(binding, order.role, transition.query_commitment)
    } else if !pure_refund(transition) {
        Some("anonymous release is not a pure expired-hold refund"@)
    } else if !ledger.credit_facilities.contains_key(transition.facility_id) {
        Some("anonymous release names an unknown facility"@)
    } else if !facility_current(facility, transition) || facility.beneficiary_commitment
        != binding.entity_commitment || facility.rail_asset_id != order.asset_id {
        Some("anonymous release was proved against stale facility state"@)
    } else if !ledger.credit_holds.contains_key(transition.hold_id) {
        Some("anonymous release names an unknown hold"@)
    } else if !hold_current(ledger.credit_holds[transition.hold_id], transition) {
        Some("anonymous release was proved against stale hold state"@)
    } else if !ledger.note_reservations.contains_key(transition.hold_id) {
        Some("anonymous release has no escrow note"@)
    } else if escrow.status != HoldStatus::Active || escrow.escrow_note_id
        != order.escrow_note_id || escrow.asset_id != order.asset_id || escrow.amount_commitment
        != transition.amount_commitment {
        Some("anonymous release has no matching active escrow note"@)
    } else if spend is Some {
        spend
    } else if facility.sequence == u64::MAX {
        Some("credit facility sequence overflow"@)
    } else {
        None
    }
}

/// What the release of a note reservation does: the hold and its escrow are
/// given back and the escrowed note spent into the refund.
pub open spec fn release_note_product_outcome(
    ledger: Ledger,
    order: ProductNoteReleaseOrder,
    submission: Submission,
    timestamp: u64,
) -> Outcome {
    let transition = order.transition;
    let statement = order.seal.statement->Ok_0;
    let released = hold_released(
        ledger,
        transition,
        order.release_nullifier,
        order.release_deadline,
        statement,
    );
    let returned = Ledger {
        note_reservations: released.note_reservations.insert(
            transition.hold_id,
            NoteReservationRecord {
                status: HoldStatus::Released,
                settlement_digest: statement,
                ..ledger.note_reservations[transition.hold_id]
            },
        ),
        ..released
    };
    let spent = apply_spend_progress(returned, order.spend, order.release_deadline, statement);
    unless(
        release_note_product_refusal(ledger, order, submission, timestamp),
        ledger,
        unless(
            spent.refusal,
            spent.ledger,
            accepted(operated(spent.ledger, transition.operation_id, statement), statement),
        ),
    )
}

/// Gives an expired note reservation back.
pub fn release_note_product(
    state: &mut State,
    order: &ProductNoteReleaseOrder,
    submission: &Submission,
    timestamp: u64,
) -> (r: Result<Id, String>)
    ensures
        meets(
            r,
            final(state)@,
            release_note_product_outcome(old(state)@, *order, *submission, timestamp),
        ),
{
    let transition = &order.transition;
    let statement = endorse(&order.seal, submission)?;
    if timestamp <= transition.expires_at || timestamp > order.release_deadline {
        return refuse("anonymous reservation is not yet releasable or release has expired");
    }
    if state.nullifiers.contains_key(&order.release_nullifier) {
        return refuse("release nullifier was already used");
    }
    if state.operations.contains_key(&transition.operation_id) {
        return refuse("release operation identifier was already used");
    }
    let binding = match state.reservation_bindings.get(&transition.hold_id) {
        Some(binding) => binding,
        None => return refuse("anonymous release names an unknown reservation"),
    };
    if !does_release_fit(
        binding,
        order.role,
        order.asset_id,
        order.reserve_receipt_digest,
        transition.query_commitment,
    ) {
        return refuse("anonymous release differs from the stored reservation");
    }
    check_release_scope(binding, order.role, transition.query_commitment)?;
    if !is_pure_refund(transition) {
        return refuse("anonymous release is not a pure expired-hold refund");
    }
    let facility = match state.credit_facilities.get(&transition.facility_id) {
        Some(facility) => facility,
        None => return refuse("anonymous release names an unknown facility"),
    };
    if !is_facility_current(facility, transition) || facility.beneficiary_commitment
        != binding.entity_commitment || facility.rail_asset_id != order.asset_id {
        return refuse("anonymous release was proved against stale facility state");
    }
    let hold = match state.credit_holds.get(&transition.hold_id) {
        Some(hold) => hold,
        None => return refuse("anonymous release names an unknown hold"),
    };
    if !is_hold_current(hold, transition) {
        return refuse("anonymous release was proved against stale hold state");
    }
    let mut escrow = match state.note_reservations.get(&transition.hold_id) {
        Some(escrow) => *escrow,
        None => return refuse("anonymous release has no escrow note"),
    };
    if escrow.status != HoldStatus::Active || escrow.escrow_note_id != order.escrow_note_id
        || escrow.asset_id != order.asset_id || escrow.amount_commitment
        != transition.amount_commitment {
        return refuse("anonymous release has no matching active escrow note");
    }
    check_note_spend(state, &order.spend, Some(order.escrow_note_id), false)?;
    let next = advance(facility, transition)?;
    let closed = close_hold(hold, transition, HoldStatus::Released, Id::zero());
    state.credit_facilities.insert(transition.facility_id, next);
    state.credit_holds.insert(transition.hold_id, closed);
    escrow.status = HoldStatus::Released;
    escrow.settlement_digest = statement;
    state.note_reservations.insert(transition.hold_id, escrow);
    state.nullifiers.insert(
        order.release_nullifier,
        NullifierRecord { deadline: order.release_deadline, statement },
    );
    apply_note_spend(state, &order.spend, order.release_deadline, statement)?;
    state.operations.insert(transition.operation_id, statement);
    Ok(statement)
}

} // verus!
