//! What holds of every transaction, whether it is carried out or refused.

use vstd::prelude::*;

use crate::aethel_book::keeps_book;
use crate::clearing_book::keeps_clearing_book;
use crate::endorsement::{Seal, Submission};
use crate::execution::admission::{
    advance_outcome, lanes_registered, register_batch_outcome, register_committee_outcome,
    register_verifier_outcome, same_batch_scope, SubmittedLane,
};
use crate::execution::application_reservation::{
    hold_placed, register_scope_outcome, reservation_record, reserve_application_outcome,
    reserve_application_refusal, ApplicationNoteReservation, ApplicationScopeRegistration,
};
use crate::execution::application_settlement::{
    fill_batch_outcome, fill_outcome, fills_progress, insert_claim_progress,
    insert_claims_progress, lemma_inserted_claims_keep, refund_progress, release_outcome,
    released_facility, side_progress, with_facility, ApplicationNoteFill, ApplicationNoteRelease,
    ApplicationSpendHead, VerifiedSide,
};
use crate::execution::credit::{
    amend_outcome, amended, control_outcome, controlled_status, grant_outcome, granted,
    same_scope, transition_outcome,
};
use crate::execution::evidence::{
    note_orders_progress, settle_note_product_batch_outcome, SettlementFindings,
};
use crate::execution::note_product::{
    claim_progress, claims_progress, note_consume_progress, note_consumed_ledger,
    note_consumptions_verdict, note_product_outcome, payment_spend, serial_used, spends_progress,
};
use crate::execution::notes::{
    apply_spend_progress, apply_spends_progress, insert_note_progress, issue_note_outcome,
    materialize_outcome, outputs_progress, settle_notes_outcome, settled, IssuerVerdict,
};
use crate::execution::product::{
    consume_progress, consumed_ledger, consumptions_verdict, legs_progress, legs_refusal,
    move_progress, nullified, operated, orders_progress, payment_leg, product_outcome,
    settle_product_batch_outcome,
};
use crate::execution::registry::{
    control_csd_issuer_outcome, open_account_outcome, register_asset_outcome,
    register_csd_issuer_outcome, register_guarantor_outcome, settle_outcome,
};
use crate::execution::facility::advanced;
use crate::execution::reservation::{
    binding_record, hold_opened, lane_reserved, lane_taken, release_note_product_outcome,
    release_product_outcome, reserve_note_product_outcome, reserve_nullifier_used,
    reserve_product_outcome,
};
use crate::execution::{action_outcome, applied_outcome, Action};
use crate::id::Id;
use crate::order::{
    AccountOpening, AdmissionBatchPlan, AdmissionCommitteePlan, AdmissionSlotAdvance,
    AssetDefinition, CreditFacilityAmendment, CreditFacilityControl, CreditFacilityGrant,
    CreditFacilityTransition, CsdIssuerControl, CsdIssuerDefinition, EscrowClaimSpend,
    GuarantorDefinition, NoteClaim, NoteClaimMaterialization, NoteIssuance, NoteOutput,
    NoteProductReservation, NoteSettlementOrder, NoteSpend, ProductNoteReleaseOrder,
    ProductNoteSettlementOrder, ProductReleaseOrder, ProductReservation, ProductSettlementBatch,
    ProductSettlementOrder, ReservationAuthorization, ReservationConsumption, SettlementOrder,
    SettlementVerifierConfig, StateLeg,
};
use crate::state::{
    AccountRecord, AdmissionBatchRecord, AdmissionEntryRecord, ApplicationReservationRecord,
    CreditFacilityRecord, CreditHoldRecord, CsdIssuerRecord, FacilityStatus, HoldStatus,
    IssuerStatus, Ledger, NoteReservationRecord, ReservationBindingRecord,
    ReservationEscrowRecord, ReservationRole,
};
use crate::table::Numbered;

verus! {

/// Whether nothing has gone from a table.
pub open spec fn grows<K, V>(before: Map<K, V>, after: Map<K, V>) -> bool {
    forall|key: K| #[trigger] before.contains_key(key) ==> after.contains_key(key)
}

/// Whether nothing in a table has gone or changed.
pub open spec fn fixed<K, V>(before: Map<K, V>, after: Map<K, V>) -> bool {
    forall|key: K| #[trigger]
        before.contains_key(key) ==> after.contains_key(key) && after[key] == before[key]
}

/// An issuer keeps its terms, its sequence never goes back, and it stays revoked.
pub open spec fn issuer_follows(before: CsdIssuerRecord, after: CsdIssuerRecord) -> bool {
    &&& after == (CsdIssuerRecord { status: after.status, sequence: after.sequence, ..before })
    &&& before.sequence <= after.sequence
    &&& before.status == IssuerStatus::Revoked ==> after == before
}

/// A batch only consumes lanes, in order and no further than its population.
pub open spec fn batch_follows(before: AdmissionBatchRecord, after: AdmissionBatchRecord) -> bool {
    &&& after == (AdmissionBatchRecord { consumed: after.consumed, ..before })
    &&& before.consumed <= after.consumed
    &&& before.consumed <= before.population ==> after.consumed <= after.population
}

/// A lane is consumed once.
pub open spec fn entry_follows(before: AdmissionEntryRecord, after: AdmissionEntryRecord) -> bool {
    &&& after == (AdmissionEntryRecord { consumed_by: after.consumed_by, ..before })
    &&& before.consumed_by != Id::zero() ==> after == before
}

/// An account stays on its rail, and its sequence never goes back.
pub open spec fn account_follows(before: AccountRecord, after: AccountRecord) -> bool {
    &&& after.asset_id == before.asset_id
    &&& before.sequence <= after.sequence
    &&& after != before && before.sequence < u64::MAX ==> before.sequence < after.sequence
}

/// A facility keeps its parties, its sequence goes on with every change, and a
/// closed one stays closed.
pub open spec fn facility_follows(
    before: CreditFacilityRecord,
    after: CreditFacilityRecord,
) -> bool {
    &&& after.guarantor_id == before.guarantor_id
    &&& after.beneficiary_commitment == before.beneficiary_commitment
    &&& after.rail_asset_id == before.rail_asset_id
    &&& after.valid_from == before.valid_from
    &&& after == before || before.sequence < after.sequence
    &&& before.status == FacilityStatus::Closed ==> after.status == FacilityStatus::Closed
}

/// A hold keeps its terms, and a released or consumed one is final. Only that of
/// an application reservation is consumed in parts.
pub open spec fn hold_follows(
    before: CreditHoldRecord,
    after: CreditHoldRecord,
    in_parts: bool,
) -> bool {
    &&& after.facility_id == before.facility_id
    &&& after.query_commitment == before.query_commitment
    &&& after.amount_commitment == before.amount_commitment || in_parts
    &&& after.expires_at == before.expires_at
    &&& after.created_sequence == before.created_sequence
    &&& before.status != HoldStatus::Active ==> after == before
}

/// An account escrow keeps its terms, and a closed one is final.
pub open spec fn escrow_follows(
    before: ReservationEscrowRecord,
    after: ReservationEscrowRecord,
) -> bool {
    &&& after == (ReservationEscrowRecord {
        status: after.status,
        settlement_digest: after.settlement_digest,
        ..before
    })
    &&& before.status != HoldStatus::Active ==> after == before
}

/// A note escrow keeps its terms, and a closed one is final.
pub open spec fn note_escrow_follows(
    before: NoteReservationRecord,
    after: NoteReservationRecord,
) -> bool {
    &&& after == (NoteReservationRecord {
        status: after.status,
        settlement_digest: after.settlement_digest,
        ..before
    })
    &&& before.status != HoldStatus::Active ==> after == before
}

/// An application reservation keeps its terms, its sequence never goes back, and
/// an ended one is final.
pub open spec fn application_follows(
    before: ApplicationReservationRecord,
    after: ApplicationReservationRecord,
) -> bool {
    &&& after.binding == before.binding
    &&& after.escrow_note_id == before.escrow_note_id
    &&& after.covenant_serial == before.covenant_serial
    &&& before.sequence <= after.sequence
    &&& before.status != HoldStatus::Active ==> after == before
}

/// Application reservations follow from what they were, and a new one has a new
/// hold.
pub open spec fn applications_follow(before: Ledger, after: Ledger) -> bool {
    &&& forall|key: Id| #[trigger]
        before.application_reservations.contains_key(key)
            ==> after.application_reservations.contains_key(key) && application_follows(
            before.application_reservations[key],
            after.application_reservations[key],
        )
    &&& forall|key: Id| #[trigger]
        after.application_reservations.contains_key(key)
            && !before.application_reservations.contains_key(key)
            ==> !before.credit_holds.contains_key(key)
}

/// The records of issuers, batches, lanes, accounts, facilities, holds and
/// escrows follow from what they were.
pub open spec fn records_follow(before: Ledger, after: Ledger) -> bool {
    &&& forall|key: Id| #[trigger]
        before.csd_issuers.contains_key(key) ==> after.csd_issuers.contains_key(key)
            && issuer_follows(before.csd_issuers[key], after.csd_issuers[key])
    &&& forall|key: Id| #[trigger]
        before.admission_batches.contains_key(key) ==> after.admission_batches.contains_key(key)
            && batch_follows(before.admission_batches[key], after.admission_batches[key])
    &&& forall|key: Numbered| #[trigger]
        before.admission_entries.contains_key(key) ==> after.admission_entries.contains_key(key)
            && entry_follows(before.admission_entries[key], after.admission_entries[key])
    &&& forall|key: Id| #[trigger]
        before.accounts.contains_key(key) ==> after.accounts.contains_key(key) && account_follows(
            before.accounts[key],
            after.accounts[key],
        )
    &&& forall|key: Id| #[trigger]
        before.credit_facilities.contains_key(key) ==> after.credit_facilities.contains_key(key)
            && facility_follows(before.credit_facilities[key], after.credit_facilities[key])
    &&& forall|key: Id| #[trigger]
        before.credit_holds.contains_key(key) ==> after.credit_holds.contains_key(key)
            && hold_follows(
            before.credit_holds[key],
            after.credit_holds[key],
            before.application_reservations.contains_key(key),
        )
    &&& forall|key: Id| #[trigger]
        before.reservation_escrows.contains_key(key) ==> after.reservation_escrows.contains_key(
            key,
        ) && escrow_follows(before.reservation_escrows[key], after.reservation_escrows[key])
    &&& forall|key: Id| #[trigger]
        before.note_reservations.contains_key(key) ==> after.note_reservations.contains_key(key)
            && note_escrow_follows(before.note_reservations[key], after.note_reservations[key])
}

/// Whether no two reservations use one reserve nullifier, and no two takers one
/// request, ticket, receipt or lane.
#[verifier::opaque]
pub open spec fn reservations_distinct(bindings: Map<Id, ReservationBindingRecord>) -> bool {
    forall|left: Id, right: Id|
        #![trigger bindings.contains_key(left), bindings.contains_key(right)]
        bindings.contains_key(left) && bindings.contains_key(right) && left != right ==> {
            &&& bindings[left].reserve_nullifier != bindings[right].reserve_nullifier
            &&& bindings[left].role == ReservationRole::Taker && bindings[right].role
                == ReservationRole::Taker ==> {
                &&& bindings[left].rfq_nullifier != bindings[right].rfq_nullifier
                &&& bindings[left].admission_ticket_id != bindings[right].admission_ticket_id
                &&& bindings[left].admission_receipt_digest
                    != bindings[right].admission_receipt_digest
                &&& bindings[left].admission_batch_id != bindings[right].admission_batch_id
                    || bindings[left].admission_sequence != bindings[right].admission_sequence
            }
        }
}

/// Whether no two facilities have one guarantor, beneficiary and asset.
#[verifier::opaque]
pub open spec fn facilities_distinct(facilities: Map<Id, CreditFacilityRecord>) -> bool {
    forall|left: Id, right: Id|
        #![trigger facilities.contains_key(left), facilities.contains_key(right)]
        facilities.contains_key(left) && facilities.contains_key(right) && left != right ==> {
            ||| facilities[left].guarantor_id != facilities[right].guarantor_id
            ||| facilities[left].beneficiary_commitment
                != facilities[right].beneficiary_commitment
            ||| facilities[left].rail_asset_id != facilities[right].rail_asset_id
        }
}

/// Whether no two batches have one venue, epoch, slot and digest.
#[verifier::opaque]
pub open spec fn batches_distinct(batches: Map<Id, AdmissionBatchRecord>) -> bool {
    forall|left: Id, right: Id|
        #![trigger batches.contains_key(left), batches.contains_key(right)]
        batches.contains_key(left) && batches.contains_key(right) && left != right ==> {
            ||| batches[left].venue_id != batches[right].venue_id
            ||| batches[left].epoch != batches[right].epoch
            ||| batches[left].slot != batches[right].slot
            ||| batches[left].batch_digest != batches[right].batch_digest
        }
}

/// Whether reservations, facilities and batches that were distinct stay so.
pub open spec fn stays_distinct(before: Ledger, after: Ledger) -> bool {
    &&& reservations_distinct(before.reservation_bindings) ==> reservations_distinct(
        after.reservation_bindings,
    )
    &&& facilities_distinct(before.credit_facilities) ==> facilities_distinct(
        after.credit_facilities,
    )
    &&& batches_distinct(before.admission_batches) ==> batches_distinct(after.admission_batches)
}

proof fn lemma_facility_stays_distinct(
    facilities: Map<Id, CreditFacilityRecord>,
    key: Id,
    record: CreditFacilityRecord,
)
    requires
        facilities.contains_key(key),
        record.guarantor_id == facilities[key].guarantor_id,
        record.beneficiary_commitment == facilities[key].beneficiary_commitment,
        record.rail_asset_id == facilities[key].rail_asset_id,
    ensures
        facilities_distinct(facilities) ==> facilities_distinct(facilities.insert(key, record)),
{
    reveal(facilities_distinct);
    let after = facilities.insert(key, record);
    assert forall|id: Id| after.contains_key(id) == facilities.contains_key(id) by {}
}

proof fn lemma_batch_stays_distinct(
    batches: Map<Id, AdmissionBatchRecord>,
    key: Id,
    record: AdmissionBatchRecord,
)
    requires
        batches.contains_key(key),
        record.venue_id == batches[key].venue_id,
        record.epoch == batches[key].epoch,
        record.slot == batches[key].slot,
        record.batch_digest == batches[key].batch_digest,
    ensures
        batches_distinct(batches) ==> batches_distinct(batches.insert(key, record)),
{
    reveal(batches_distinct);
    let after = batches.insert(key, record);
    assert forall|id: Id| after.contains_key(id) == batches.contains_key(id) by {}
}

proof fn lemma_hold_opened(
    ledger: Ledger,
    transition: CreditFacilityTransition,
    authorization: ReservationAuthorization,
    statement: Id,
)
    requires
        ledger.credit_facilities.contains_key(transition.facility_id),
        ledger.credit_facilities[transition.facility_id].sequence < u64::MAX,
        !ledger.credit_holds.contains_key(transition.hold_id),
        !ledger.reservation_bindings.contains_key(transition.hold_id),
        !reserve_nullifier_used(ledger, authorization.reserve_nullifier),
        authorization.role == ReservationRole::Taker ==> !lane_reserved(ledger, authorization),
    ensures
        follows(ledger, hold_opened(ledger, transition, authorization, statement)),
{
    let record = advanced(ledger.credit_facilities[transition.facility_id], transition);
    lemma_facility_stays_distinct(ledger.credit_facilities, transition.facility_id, record);
    let before = ledger.reservation_bindings;
    let binding = binding_record(authorization, statement);
    let after = before.insert(transition.hold_id, binding);
    assert(reservations_distinct(before) ==> reservations_distinct(after)) by {
        reveal(reservations_distinct);
        if reservations_distinct(before) {
            assert forall|key: Id| #[trigger] before.contains_key(key) implies
                before[key].reserve_nullifier != authorization.reserve_nullifier && !(
            authorization.role == ReservationRole::Taker && lane_taken(
                before[key],
                authorization,
            )) by {
                assert(ledger.reservation_bindings.contains_key(key));
            }
        }
    }
}

/// Every new lane belongs to a registered batch.
pub open spec fn lanes_join(before: Ledger, after: Ledger) -> bool {
    forall|key: Numbered| #[trigger]
        after.admission_entries.contains_key(key) && !before.admission_entries.contains_key(key)
            ==> after.admission_batches.contains_key(key.scope)
}

/// Whether the books have lost nothing, and the clearing book stays over its
/// capital.
pub open spec fn books_follow(before: Ledger, after: Ledger) -> bool {
    &&& after.aethel == before.aethel || keeps_book(before.aethel, after.aethel)
    &&& before.deccp is Some ==> {
        &&& after.deccp is Some
        &&& after.deccp == before.deccp || keeps_clearing_book(before.deccp->0, after.deccp->0)
    }
}

/// Whether one ledger follows from another: registrations, notes, bindings and
/// nullifiers are fixed; operations, serials and claims stay; the other records
/// follow from what they were; the books lose nothing; the count of transactions
/// never goes back; and participants and the states of applications, which no
/// transaction changes, are untouched.
pub open spec fn follows(before: Ledger, after: Ledger) -> bool {
    &&& fixed(before.assets, after.assets)
    &&& fixed(before.notes, after.notes)
    &&& fixed(before.note_issuances, after.note_issuances)
    &&& fixed(before.admission_committees, after.admission_committees)
    &&& fixed(before.settlement_verifiers, after.settlement_verifiers)
    &&& fixed(before.guarantors, after.guarantors)
    &&& fixed(before.reservation_bindings, after.reservation_bindings)
    &&& fixed(before.nullifiers, after.nullifiers)
    &&& fixed(before.rfq_nullifiers, after.rfq_nullifiers)
    &&& grows(before.operations, after.operations)
    &&& grows(before.note_serials, after.note_serials)
    &&& grows(before.note_claims, after.note_claims)
    &&& records_follow(before, after)
    &&& lanes_join(before, after)
    &&& stays_distinct(before, after)
    &&& fixed(before.application_reserve_scopes, after.application_reserve_scopes)
    &&& applications_follow(before, after)
    &&& after.application_states == before.application_states
    &&& after.participants == before.participants
    &&& books_follow(before, after)
    &&& before.transition_count <= after.transition_count
}

/// Whether every lane belongs to a registered batch.
pub open spec fn lanes_scoped(ledger: Ledger) -> bool {
    forall|key: Numbered| #[trigger]
        ledger.admission_entries.contains_key(key) ==> ledger.admission_batches.contains_key(
            key.scope,
        )
}

/// Whether the books are as they were.
pub open spec fn books_untouched(before: Ledger, after: Ledger) -> bool {
    &&& after.aethel == before.aethel
    &&& after.deccp == before.deccp
}

/// Whether one ledger follows from another beside the books.
pub open spec fn follows_beside(before: Ledger, after: Ledger) -> bool {
    follows(before, after) && books_untouched(before, after)
}

/// What follows from what follows from a ledger follows from it.
pub proof fn law_following_is_transitive(first: Ledger, second: Ledger, third: Ledger)
    requires
        follows(first, second),
        follows(second, third),
    ensures
        follows(first, third),
{
    reveal(keeps_book);
    reveal(keeps_clearing_book);
}

proof fn lemma_follows_transitive(first: Ledger, second: Ledger, third: Ledger)
    requires
        follows_beside(first, second),
        follows_beside(second, third),
    ensures
        follows_beside(first, third),
{
    law_following_is_transitive(first, second, third);
}

proof fn lemma_operated(before: Ledger, ledger: Ledger, operation_id: Id, statement: Id)
    requires
        follows_beside(before, ledger),
    ensures
        follows_beside(before, operated(ledger, operation_id, statement)),
{
}

proof fn lemma_move(ledger: Ledger, handle: Id, commitment: Id, message: Seq<char>)
    requires
        ledger.accounts.contains_key(handle),
    ensures
        follows_beside(ledger, move_progress(ledger, handle, commitment, message).ledger),
{
}

proof fn lemma_legs(ledger: Ledger, legs: Seq<StateLeg>, from: nat)
    requires
        forall|i: int| 0 <= i < legs.len() ==> ledger.accounts.contains_key(
            (#[trigger] legs[i]).handle,
        ),
    ensures
        follows_beside(ledger, legs_progress(ledger, legs, from).ledger),
    decreases legs.len() - from,
{
    if from < legs.len() {
        let leg = legs[from as int];
        let step = move_progress(
            ledger,
            leg.handle,
            leg.after_commitment,
            "account sequence overflow"@,
        );
        lemma_move(ledger, leg.handle, leg.after_commitment, "account sequence overflow"@);
        if step.refusal is None {
            lemma_legs(step.ledger, legs, from + 1);
            lemma_follows_transitive(
                ledger,
                step.ledger,
                legs_progress(step.ledger, legs, from + 1).ledger,
            );
        }
    }
}

proof fn lemma_legs_known(
    ledger: Ledger,
    legs: Seq<StateLeg>,
    what: Seq<char>,
    from: nat,
    at: int,
)
    requires
        legs_refusal(ledger, legs, what, from) is None,
        from <= at < legs.len(),
    ensures
        ledger.accounts.contains_key(legs[at].handle),
    decreases legs.len() - from,
{
    if from < at {
        lemma_legs_known(ledger, legs, what, from + 1, at);
    }
}

proof fn lemma_insert_note(ledger: Ledger, output: NoteOutput)
    ensures
        follows_beside(ledger, insert_note_progress(ledger, output).ledger),
{
}

proof fn lemma_outputs(ledger: Ledger, outputs: Seq<NoteOutput>, from: nat)
    ensures
        follows_beside(ledger, outputs_progress(ledger, outputs, from).ledger),
    decreases outputs.len() - from,
{
    if from < outputs.len() {
        let step = insert_note_progress(ledger, outputs[from as int]);
        lemma_insert_note(ledger, outputs[from as int]);
        if step.refusal is None {
            lemma_outputs(step.ledger, outputs, from + 1);
            lemma_follows_transitive(
                ledger,
                step.ledger,
                outputs_progress(step.ledger, outputs, from + 1).ledger,
            );
        }
    }
}

proof fn lemma_spend(ledger: Ledger, spend: NoteSpend, deadline: u64, statement: Id)
    ensures
        follows_beside(ledger, apply_spend_progress(ledger, spend, deadline, statement).ledger),
{
    if !ledger.note_serials.contains_key(spend.serial_point) {
        let used = Ledger {
            note_serials: ledger.note_serials.insert(
                spend.serial_point,
                crate::state::NoteSerialRecord {
                    deadline,
                    asset_id: spend.asset_id,
                    ring_root: spend.ring_root,
                    statement,
                },
            ),
            ..ledger
        };
        assert(follows_beside(ledger, used));
        lemma_outputs(used, spend.outputs@, 0);
        lemma_follows_transitive(ledger, used, outputs_progress(used, spend.outputs@, 0).ledger);
    }
}

/// Spending notes leads to a ledger that follows.
pub proof fn lemma_spends(
    ledger: Ledger,
    spends: Seq<NoteSpend>,
    deadline: u64,
    statement: Id,
    from: nat,
)
    ensures
        follows_beside(
            ledger,
            apply_spends_progress(ledger, spends, deadline, statement, from).ledger,
        ),
    decreases spends.len() - from,
{
    if from < spends.len() {
        let step = apply_spend_progress(ledger, spends[from as int], deadline, statement);
        lemma_spend(ledger, spends[from as int], deadline, statement);
        if step.refusal is None {
            lemma_spends(step.ledger, spends, deadline, statement, from + 1);
            lemma_follows_transitive(
                ledger,
                step.ledger,
                apply_spends_progress(step.ledger, spends, deadline, statement, from + 1).ledger,
            );
        }
    }
}

/// What a checked consumption was found to be.
spec fn consumable_in(before: Ledger, consumption: ReservationConsumption) -> bool {
    let transition = consumption.transition;
    &&& before.credit_facilities.contains_key(transition.facility_id)
    &&& before.credit_holds.contains_key(transition.hold_id)
    &&& before.credit_holds[transition.hold_id].status == HoldStatus::Active
}

proof fn lemma_consumed(
    before: Ledger,
    ledger: Ledger,
    consumption: ReservationConsumption,
    statement: Id,
)
    requires
        follows_beside(before, ledger),
        consumable_in(before, consumption),
        before.credit_facilities[consumption.transition.facility_id].sequence < u64::MAX,
        before.reservation_escrows.contains_key(consumption.transition.hold_id),
        before.reservation_escrows[consumption.transition.hold_id].status == HoldStatus::Active,
    ensures
        follows_beside(before, consumed_ledger(before, ledger, consumption, statement)),
{
    let transition = consumption.transition;
    let facility = before.credit_facilities[transition.facility_id];
    assert(ledger.credit_facilities.contains_key(transition.facility_id));
    lemma_facility_stays_distinct(
        ledger.credit_facilities,
        transition.facility_id,
        advanced(facility, transition),
    );
}

proof fn lemma_consume(
    before: Ledger,
    ledger: Ledger,
    order: ProductSettlementOrder,
    statement: Id,
    from: nat,
)
    requires
        follows_beside(before, ledger),
        forall|i: int|
            0 <= i < order.reservations@.len() ==> {
                &&& consumable_in(before, #[trigger] order.reservations@[i])
                &&& before.reservation_escrows.contains_key(
                    order.reservations@[i].transition.hold_id,
                )
                &&& before.reservation_escrows[order.reservations@[i].transition.hold_id].status
                    == HoldStatus::Active
            },
    ensures
        follows_beside(
            before,
            consume_progress(before, ledger, order.reservations@, statement, from).ledger,
        ),
    decreases order.reservations@.len() - from,
{
    if from < order.reservations@.len() {
        let consumption = order.reservations@[from as int];
        if before.credit_facilities[consumption.transition.facility_id].sequence < u64::MAX {
            lemma_consumed(before, ledger, consumption, statement);
            lemma_consume(
                before,
                consumed_ledger(before, ledger, consumption, statement),
                order,
                statement,
                from + 1,
            );
        }
    }
}

proof fn lemma_consumptions_checked(
    ledger: Ledger,
    order: ProductSettlementOrder,
    payment_asset_id: Id,
    base_statement: Id,
    timestamp: u64,
    direction: u8,
    from: nat,
    at: int,
)
    requires
        consumptions_verdict(
            ledger,
            order,
            payment_asset_id,
            base_statement,
            timestamp,
            direction,
            from,
        ) is Ok,
        from <= at < order.reservations@.len(),
    ensures
        consumable_in(ledger, order.reservations@[at]),
        ledger.reservation_escrows.contains_key(order.reservations@[at].transition.hold_id),
        ledger.reservation_escrows[order.reservations@[at].transition.hold_id].status
            == HoldStatus::Active,
    decreases order.reservations@.len() - from,
{
    let found =
        ledger.reservation_bindings[order.reservations@[from as int].transition.hold_id].direction;
    if from < at {
        lemma_consumptions_checked(
            ledger,
            order,
            payment_asset_id,
            base_statement,
            timestamp,
            found,
            from + 1,
            at,
        );
    }
}

proof fn lemma_product(ledger: Ledger, order: ProductSettlementOrder, timestamp: u64)
    ensures
        follows_beside(ledger, product_outcome(ledger, order, timestamp).ledger),
{
    if crate::execution::product::product_refusal(ledger, order, timestamp) is None {
        let statement = order.seal.statement->Ok_0;
        let legs = order.settlement.legs@;
        let payment = payment_leg(legs, order.terms.traded_asset_id, 0);
        assert forall|i: int| 0 <= i < order.reservations@.len() implies {
            &&& consumable_in(ledger, #[trigger] order.reservations@[i])
            &&& ledger.reservation_escrows.contains_key(
                order.reservations@[i].transition.hold_id,
            )
            &&& ledger.reservation_escrows[order.reservations@[i].transition.hold_id].status
                == HoldStatus::Active
        } by {
            lemma_consumptions_checked(
                ledger,
                order,
                payment->0,
                order.settlement.seal.statement->Ok_0,
                timestamp,
                0,
                0,
                i,
            );
        }
        lemma_consume(ledger, ledger, order, statement, 0);
        let consumed = consume_progress(ledger, ledger, order.reservations@, statement, 0);
        if consumed.refusal is None {
            let used = nullified(
                consumed.ledger,
                order.settlement.nullifier,
                order.settlement.deadline,
                order.terms.rfq_nullifier,
                statement,
            );
            lemma_consume_keeps(ledger, ledger, order.reservations@, statement, 0);
            assert(follows_beside(ledger, used));
            assert forall|i: int| 0 <= i < legs.len() implies used.accounts.contains_key(
                (#[trigger] legs[i]).handle,
            ) by {
                lemma_legs_known(ledger, legs, "product settlement"@, 0, i);
            }
            lemma_legs(used, legs, 0);
            let moved = legs_progress(used, legs, 0);
            lemma_follows_transitive(ledger, used, moved.ledger);
            lemma_operated(ledger, moved.ledger, order.settlement.operation_id, statement);
        }
    }
}

/// Consuming reservations uses no nullifier.
proof fn lemma_consume_keeps(
    before: Ledger,
    ledger: Ledger,
    reservations: Seq<ReservationConsumption>,
    statement: Id,
    from: nat,
)
    ensures
        ({
            let after = consume_progress(before, ledger, reservations, statement, from).ledger;
            &&& after.nullifiers == ledger.nullifiers
            &&& after.rfq_nullifiers == ledger.rfq_nullifiers
        }),
    decreases reservations.len() - from,
{
    if from < reservations.len() {
        let consumption = reservations[from as int];
        lemma_consume_keeps(
            before,
            consumed_ledger(before, ledger, consumption, statement),
            reservations,
            statement,
            from + 1,
        );
    }
}

proof fn lemma_orders(
    ledger: Ledger,
    orders: Seq<ProductSettlementOrder>,
    timestamp: u64,
    from: nat,
)
    ensures
        follows_beside(ledger, orders_progress(ledger, orders, timestamp, from).ledger),
    decreases orders.len() - from,
{
    if from < orders.len() {
        let outcome = product_outcome(ledger, orders[from as int], timestamp);
        lemma_product(ledger, orders[from as int], timestamp);
        if outcome.result is Ok {
            lemma_orders(outcome.ledger, orders, timestamp, from + 1);
            lemma_follows_transitive(
                ledger,
                outcome.ledger,
                orders_progress(outcome.ledger, orders, timestamp, from + 1).ledger,
            );
        }
    }
}

proof fn lemma_note_consumed(
    before: Ledger,
    ledger: Ledger,
    consumption: ReservationConsumption,
    statement: Id,
)
    requires
        follows_beside(before, ledger),
        consumable_in(before, consumption),
        before.credit_facilities[consumption.transition.facility_id].sequence < u64::MAX,
        before.note_reservations.contains_key(consumption.transition.hold_id),
        before.note_reservations[consumption.transition.hold_id].status == HoldStatus::Active,
    ensures
        follows_beside(before, note_consumed_ledger(before, ledger, consumption, statement)),
{
    let transition = consumption.transition;
    let facility = before.credit_facilities[transition.facility_id];
    assert(ledger.credit_facilities.contains_key(transition.facility_id));
    lemma_facility_stays_distinct(
        ledger.credit_facilities,
        transition.facility_id,
        advanced(facility, transition),
    );
}

proof fn lemma_note_consume(
    before: Ledger,
    ledger: Ledger,
    order: ProductNoteSettlementOrder,
    statement: Id,
    from: nat,
)
    requires
        follows_beside(before, ledger),
        forall|i: int|
            0 <= i < order.reservations@.len() ==> {
                &&& consumable_in(before, #[trigger] order.reservations@[i])
                &&& before.note_reservations.contains_key(
                    order.reservations@[i].transition.hold_id,
                )
                &&& before.note_reservations[order.reservations@[i].transition.hold_id].status
                    == HoldStatus::Active
            },
    ensures
        ({
            let after = note_consume_progress(
                before,
                ledger,
                order.reservations@,
                statement,
                from,
            ).ledger;
            &&& follows_beside(before, after)
            &&& after.nullifiers == ledger.nullifiers
            &&& after.rfq_nullifiers == ledger.rfq_nullifiers
        }),
    decreases order.reservations@.len() - from,
{
    if from < order.reservations@.len() {
        let consumption = order.reservations@[from as int];
        if before.credit_facilities[consumption.transition.facility_id].sequence < u64::MAX {
            lemma_note_consumed(before, ledger, consumption, statement);
            lemma_note_consume(
                before,
                note_consumed_ledger(before, ledger, consumption, statement),
                order,
                statement,
                from + 1,
            );
        }
    }
}

proof fn lemma_note_consumptions_checked(
    ledger: Ledger,
    order: ProductNoteSettlementOrder,
    payment_asset_id: Id,
    base_statement: Id,
    timestamp: u64,
    direction: u8,
    from: nat,
    at: int,
)
    requires
        note_consumptions_verdict(
            ledger,
            order,
            payment_asset_id,
            base_statement,
            timestamp,
            direction,
            from,
        ) is Ok,
        from <= at < order.reservations@.len(),
    ensures
        consumable_in(ledger, order.reservations@[at]),
        ledger.note_reservations.contains_key(order.reservations@[at].transition.hold_id),
        ledger.note_reservations[order.reservations@[at].transition.hold_id].status
            == HoldStatus::Active,
    decreases order.reservations@.len() - from,
{
    let found =
        ledger.reservation_bindings[order.reservations@[from as int].transition.hold_id].direction;
    if from < at {
        lemma_note_consumptions_checked(
            ledger,
            order,
            payment_asset_id,
            base_statement,
            timestamp,
            found,
            from + 1,
            at,
        );
    }
}

proof fn lemma_claims(ledger: Ledger, claims: Seq<NoteClaim>, statement: Id, from: nat)
    ensures
        follows_beside(ledger, claims_progress(ledger, claims, statement, from).ledger),
    decreases claims.len() - from,
{
    if from < claims.len() {
        let step = claim_progress(ledger, claims[from as int], statement);
        assert(follows_beside(ledger, step.ledger));
        if step.refusal is None {
            lemma_claims(step.ledger, claims, statement, from + 1);
            lemma_follows_transitive(
                ledger,
                step.ledger,
                claims_progress(step.ledger, claims, statement, from + 1).ledger,
            );
        }
    }
}

/// Splitting escrowed notes into claims leads to a ledger that follows.
pub proof fn lemma_escrow_spends(
    ledger: Ledger,
    spends: Seq<EscrowClaimSpend>,
    deadline: u64,
    statement: Id,
    from: nat,
)
    ensures
        follows_beside(ledger, spends_progress(ledger, spends, deadline, statement, from).ledger),
    decreases spends.len() - from,
{
    if from < spends.len() {
        let spend = spends[from as int];
        let used = serial_used(ledger, spend, deadline, statement);
        assert(follows_beside(ledger, used));
        let step = claims_progress(used, spend.claims@, statement, 0);
        lemma_claims(used, spend.claims@, statement, 0);
        lemma_follows_transitive(ledger, used, step.ledger);
        if step.refusal is None {
            lemma_escrow_spends(step.ledger, spends, deadline, statement, from + 1);
            lemma_follows_transitive(
                ledger,
                step.ledger,
                spends_progress(step.ledger, spends, deadline, statement, from + 1).ledger,
            );
        }
    }
}

proof fn lemma_note_product(ledger: Ledger, order: ProductNoteSettlementOrder, timestamp: u64)
    ensures
        follows_beside(ledger, note_product_outcome(ledger, order, timestamp).ledger),
{
    if crate::execution::note_product::note_product_refusal(ledger, order, timestamp) is None {
        let settlement = order.settlement;
        let statement = order.seal.statement->Ok_0;
        let payment = payment_spend(settlement.spends@, order.terms.traded_asset_id, 0);
        assert forall|i: int| 0 <= i < order.reservations@.len() implies {
            &&& consumable_in(ledger, #[trigger] order.reservations@[i])
            &&& ledger.note_reservations.contains_key(order.reservations@[i].transition.hold_id)
            &&& ledger.note_reservations[order.reservations@[i].transition.hold_id].status
                == HoldStatus::Active
        } by {
            lemma_note_consumptions_checked(
                ledger,
                order,
                payment->0,
                settlement.seal.statement->Ok_0,
                timestamp,
                0,
                0,
                i,
            );
        }
        lemma_note_consume(ledger, ledger, order, statement, 0);
        let consumed = note_consume_progress(ledger, ledger, order.reservations@, statement, 0);
        if consumed.refusal is None {
            let used = nullified(
                consumed.ledger,
                settlement.nullifier,
                settlement.deadline,
                order.terms.rfq_nullifier,
                statement,
            );
            assert(follows_beside(ledger, used));
            lemma_operated(ledger, used, settlement.operation_id, statement);
            let recorded = operated(used, settlement.operation_id, statement);
            lemma_escrow_spends(recorded, settlement.spends@, settlement.deadline, statement, 0);
            lemma_follows_transitive(
                ledger,
                recorded,
                spends_progress(
                    recorded,
                    settlement.spends@,
                    settlement.deadline,
                    statement,
                    0,
                ).ledger,
            );
        }
    }
}

proof fn lemma_note_orders(
    ledger: Ledger,
    orders: Seq<ProductNoteSettlementOrder>,
    timestamp: u64,
    from: nat,
)
    ensures
        follows_beside(ledger, note_orders_progress(ledger, orders, timestamp, from).ledger),
    decreases orders.len() - from,
{
    if from < orders.len() {
        let outcome = note_product_outcome(ledger, orders[from as int], timestamp);
        lemma_note_product(ledger, orders[from as int], timestamp);
        if outcome.result is Ok {
            lemma_note_orders(outcome.ledger, orders, timestamp, from + 1);
            lemma_follows_transitive(
                ledger,
                outcome.ledger,
                note_orders_progress(outcome.ledger, orders, timestamp, from + 1).ledger,
            );
        }
    }
}

proof fn lemma_admitted_stays_distinct(
    ledger: Ledger,
    authorization: ReservationAuthorization,
)
    ensures
        ({
            let batch_id = authorization.admission_batch_id;
            let batches = ledger.admission_batches;
            batches.contains_key(batch_id) && batches_distinct(batches) ==> batches_distinct(
                batches.insert(
                    batch_id,
                    AdmissionBatchRecord {
                        consumed: authorization.admission_sequence,
                        ..batches[batch_id]
                    },
                ),
            )
        }),
{
    let batch_id = authorization.admission_batch_id;
    let batches = ledger.admission_batches;
    if batches.contains_key(batch_id) {
        lemma_batch_stays_distinct(
            batches,
            batch_id,
            AdmissionBatchRecord {
                consumed: authorization.admission_sequence,
                ..batches[batch_id]
            },
        );
    }
}

proof fn lemma_reserve_product(
    ledger: Ledger,
    request: ProductReservation,
    submission: Submission,
    timestamp: u64,
)
    ensures
        follows_beside(
            ledger,
            reserve_product_outcome(ledger, request, submission, timestamp).ledger,
        ),
{
    if crate::execution::reservation::reserve_product_refusal(
        ledger,
        request,
        submission,
        timestamp,
    ) is None {
        let statement = request.statement->Ok_0;
        let opened = crate::execution::reservation::hold_opened(
            ledger,
            request.transition,
            request.authorization,
            statement,
        );
        lemma_hold_opened(ledger, request.transition, request.authorization, statement);
        let escrow = request.escrow;
        lemma_move(
            opened,
            escrow.source_handle,
            escrow.source_after_commitment,
            "source account sequence overflow"@,
        );
        let moved = move_progress(
            opened,
            escrow.source_handle,
            escrow.source_after_commitment,
            "source account sequence overflow"@,
        );
        lemma_follows_transitive(ledger, opened, moved.ledger);
        lemma_admitted_stays_distinct(ledger, request.authorization);
    }
}

proof fn lemma_reserve_note_product(
    ledger: Ledger,
    request: NoteProductReservation,
    submission: Submission,
    timestamp: u64,
)
    ensures
        follows_beside(
            ledger,
            reserve_note_product_outcome(ledger, request, submission, timestamp).ledger,
        ),
{
    if crate::execution::reservation::reserve_note_product_refusal(
        ledger,
        request,
        submission,
        timestamp,
    ) is None {
        let statement = request.statement->Ok_0;
        let opened = crate::execution::reservation::hold_opened(
            ledger,
            request.transition,
            request.authorization,
            statement,
        );
        lemma_hold_opened(ledger, request.transition, request.authorization, statement);
        let deadline = request.transition.expires_at;
        lemma_spend(opened, request.escrow.spend, deadline, statement);
        crate::execution::reservation::lemma_spend_keeps_admission(
            opened,
            request.escrow.spend,
            deadline,
            statement,
        );
        let spent = apply_spend_progress(opened, request.escrow.spend, deadline, statement);
        lemma_follows_transitive(ledger, opened, spent.ledger);
        lemma_admitted_stays_distinct(ledger, request.authorization);
    }
}

proof fn lemma_release_product(
    ledger: Ledger,
    order: ProductReleaseOrder,
    submission: Submission,
    timestamp: u64,
)
    ensures
        follows_beside(
            ledger,
            release_product_outcome(ledger, order, submission, timestamp).ledger,
        ),
{
    if crate::execution::reservation::release_product_refusal(
        ledger,
        order,
        submission,
        timestamp,
    ) is None {
        let transition = order.transition;
        lemma_facility_stays_distinct(
            ledger.credit_facilities,
            transition.facility_id,
            advanced(ledger.credit_facilities[transition.facility_id], transition),
        );
    }
}

proof fn lemma_release_note_product(
    ledger: Ledger,
    order: ProductNoteReleaseOrder,
    submission: Submission,
    timestamp: u64,
)
    ensures
        follows_beside(
            ledger,
            release_note_product_outcome(ledger, order, submission, timestamp).ledger,
        ),
{
    if crate::execution::reservation::release_note_product_refusal(
        ledger,
        order,
        submission,
        timestamp,
    ) is None {
        let transition = order.transition;
        let statement = order.seal.statement->Ok_0;
        let released = crate::execution::reservation::hold_released(
            ledger,
            transition,
            order.release_nullifier,
            order.release_deadline,
            statement,
        );
        let returned = Ledger {
            note_reservations: released.note_reservations.insert(
                transition.hold_id,
                NoteReservationRecord {
                    status: HoldStatus::Released,
                    settlement_digest: statement,
                    ..ledger.note_reservations[transition.hold_id]
                },
            ),
            ..released
        };
        lemma_facility_stays_distinct(
            ledger.credit_facilities,
            transition.facility_id,
            advanced(ledger.credit_facilities[transition.facility_id], transition),
        );
        assert(follows_beside(ledger, returned));
        lemma_spend(returned, order.spend, order.release_deadline, statement);
        let spent = apply_spend_progress(returned, order.spend, order.release_deadline, statement);
        lemma_follows_transitive(ledger, returned, spent.ledger);
        lemma_operated(ledger, spent.ledger, transition.operation_id, statement);
    }
}

proof fn lemma_settle(
    ledger: Ledger,
    order: SettlementOrder,
    submission: Submission,
    timestamp: u64,
)
    ensures
        follows_beside(ledger, settle_outcome(ledger, order, submission, timestamp).ledger),
{
    if crate::execution::registry::settle_refusal(ledger, order, submission, timestamp) is None {
        let statement = order.seal.statement->Ok_0;
        let used = Ledger {
            nullifiers: ledger.nullifiers.insert(
                order.nullifier,
                crate::state::NullifierRecord { deadline: order.deadline, statement },
            ),
            ..ledger
        };
        assert(follows_beside(ledger, used));
        assert forall|i: int| 0 <= i < order.legs@.len() implies used.accounts.contains_key(
            (#[trigger] order.legs@[i]).handle,
        ) by {
            lemma_legs_known(ledger, order.legs@, "settlement"@, 0, i);
        }
        lemma_legs(used, order.legs@, 0);
        let moved = legs_progress(used, order.legs@, 0);
        lemma_follows_transitive(ledger, used, moved.ledger);
        lemma_operated(ledger, moved.ledger, order.operation_id, statement);
    }
}

proof fn lemma_settle_notes(
    ledger: Ledger,
    order: NoteSettlementOrder,
    submission: Submission,
    timestamp: u64,
)
    ensures
        follows_beside(ledger, settle_notes_outcome(ledger, order, submission, timestamp).ledger),
{
    if crate::execution::notes::settle_notes_refusal(
        ledger,
        order,
        submission,
        timestamp,
    ) is None {
        let statement = order.seal.statement->Ok_0;
        let used = settled(
            ledger,
            order.nullifier,
            order.deadline,
            order.operation_id,
            statement,
        );
        assert(follows_beside(ledger, used));
        lemma_spends(used, order.spends@, order.deadline, statement, 0);
        lemma_follows_transitive(
            ledger,
            used,
            apply_spends_progress(used, order.spends@, order.deadline, statement, 0).ledger,
        );
    }
}

proof fn lemma_lanes(
    before: Ledger,
    ledger: Ledger,
    batch_id: Id,
    digests: Seq<Id>,
    from: nat,
)
    requires
        lanes_scoped(before),
        !before.admission_batches.contains_key(batch_id),
        ledger.admission_batches.contains_key(batch_id),
        follows_beside(before, ledger),
    ensures
        follows_beside(before, lanes_registered(ledger, batch_id, digests, from)),
    decreases digests.len() - from,
{
    if from < digests.len() {
        let sequence = (from + 1) as u64;
        let next = Ledger {
            admission_entries: ledger.admission_entries.insert(
                Numbered { scope: batch_id, number: sequence },
                AdmissionEntryRecord {
                    batch_id,
                    sequence,
                    admission_digest: digests[from as int],
                    consumed_by: Id::zero(),
                },
            ),
            ..ledger
        };
        assert(follows_beside(before, next));
        lemma_lanes(before, next, batch_id, digests, from + 1);
    }
}

proof fn lemma_register_batch(
    ledger: Ledger,
    plan: AdmissionBatchPlan,
    lanes: Result<Vec<SubmittedLane>, String>,
    submission: Submission,
    timestamp: u64,
)
    requires
        lanes_scoped(ledger),
    ensures
        follows_beside(
            ledger,
            register_batch_outcome(ledger, plan, lanes, submission, timestamp).ledger,
        ),
{
    if crate::execution::admission::register_batch_refusal(
        ledger,
        plan,
        lanes,
        submission,
        timestamp,
    ) is None {
        let statement = plan.seal.statement->Ok_0;
        let stored = Ledger {
            admission_batches: ledger.admission_batches.insert(
                plan.batch_id,
                AdmissionBatchRecord {
                    venue_id: plan.venue_id,
                    epoch: plan.epoch,
                    slot: plan.slot,
                    batch_digest: plan.batch_digest,
                    order_digest: plan.order_digest,
                    population: plan.admission_digests@.len() as u64,
                    consumed: 0,
                    expires_at: plan.expires_at,
                    statement,
                },
            ),
            ..ledger
        };
        let before = ledger.admission_batches;
        assert(batches_distinct(before) ==> batches_distinct(stored.admission_batches)) by {
            reveal(batches_distinct);
            if batches_distinct(before) {
                assert forall|key: Id| #[trigger] before.contains_key(key) implies
                    !same_batch_scope(before[key], plan) by {
                    assert(ledger.admission_batches.contains_key(key));
                }
            }
        }
        assert(follows_beside(ledger, stored));
        lemma_lanes(ledger, stored, plan.batch_id, plan.admission_digests@, 0);
        lemma_operated(
            ledger,
            lanes_registered(stored, plan.batch_id, plan.admission_digests@, 0),
            plan.operation_id,
            statement,
        );
    }
}

proof fn lemma_register_asset(
    ledger: Ledger,
    definition: AssetDefinition,
    submission: Submission,
)
    ensures
        follows_beside(ledger, register_asset_outcome(ledger, definition, submission).ledger),
{
}

proof fn lemma_register_csd_issuer(
    ledger: Ledger,
    issuer: CsdIssuerDefinition,
    submission: Submission,
    timestamp: u64,
)
    ensures
        follows_beside(
            ledger,
            register_csd_issuer_outcome(ledger, issuer, submission, timestamp).ledger,
        ),
{
}

proof fn lemma_control_csd_issuer(
    ledger: Ledger,
    control: CsdIssuerControl,
    submission: Submission,
)
    ensures
        follows_beside(ledger, control_csd_issuer_outcome(ledger, control, submission).ledger),
{
}

proof fn lemma_issue_note(
    ledger: Ledger,
    issuance: NoteIssuance,
    issuer: IssuerVerdict,
    submission: Submission,
    timestamp: u64,
)
    ensures
        follows_beside(
            ledger,
            issue_note_outcome(ledger, issuance, issuer, submission, timestamp).ledger,
        ),
{
}

proof fn lemma_materialize(
    ledger: Ledger,
    materialization: NoteClaimMaterialization,
    submission: Submission,
)
    ensures
        follows_beside(ledger, materialize_outcome(ledger, materialization, submission).ledger),
{
}

proof fn lemma_register_committee(
    ledger: Ledger,
    plan: AdmissionCommitteePlan,
    submission: Submission,
    timestamp: u64,
)
    ensures
        follows_beside(
            ledger,
            register_committee_outcome(ledger, plan, submission, timestamp).ledger,
        ),
{
}

proof fn lemma_register_verifier(
    ledger: Ledger,
    config: SettlementVerifierConfig,
    submission: Submission,
    timestamp: u64,
)
    ensures
        follows_beside(
            ledger,
            register_verifier_outcome(ledger, config, submission, timestamp).ledger,
        ),
{
}

proof fn lemma_advance(
    ledger: Ledger,
    advance: AdmissionSlotAdvance,
    submission: Submission,
    timestamp: u64,
)
    ensures
        follows_beside(ledger, advance_outcome(ledger, advance, submission, timestamp).ledger),
{
    if crate::execution::admission::advance_refusal(
        ledger,
        advance,
        submission,
        timestamp,
    ) is None {
        let batch = ledger.admission_batches[advance.batch_id];
        lemma_batch_stays_distinct(
            ledger.admission_batches,
            advance.batch_id,
            AdmissionBatchRecord { consumed: advance.sequence, ..batch },
        );
    }
}

proof fn lemma_open_account(
    ledger: Ledger,
    opening: AccountOpening,
    submission: Submission,
)
    ensures
        follows_beside(ledger, open_account_outcome(ledger, opening, submission).ledger),
{
}

proof fn lemma_register_guarantor(
    ledger: Ledger,
    definition: GuarantorDefinition,
    submission: Submission,
)
    ensures
        follows_beside(ledger, register_guarantor_outcome(ledger, definition, submission).ledger),
{
}

proof fn lemma_grant(
    ledger: Ledger,
    grant: CreditFacilityGrant,
    submission: Submission,
    timestamp: u64,
)
    ensures
        follows_beside(ledger, grant_outcome(ledger, grant, submission, timestamp).ledger),
{
    if crate::execution::credit::grant_refusal(
        ledger,
        grant,
        submission,
        timestamp,
    ) is None {
        let before = ledger.credit_facilities;
        let after = before.insert(grant.facility_id, granted(grant));
        assert(facilities_distinct(before) ==> facilities_distinct(after)) by {
            reveal(facilities_distinct);
            if facilities_distinct(before) {
                assert forall|key: Id| #[trigger] before.contains_key(key) implies !same_scope(
                    before[key],
                    grant,
                ) by {
                    assert(ledger.credit_facilities.contains_key(key));
                }
            }
        }
    }
}

proof fn lemma_control(
    ledger: Ledger,
    control: CreditFacilityControl,
    submission: Submission,
    timestamp: u64,
)
    ensures
        follows_beside(ledger, control_outcome(ledger, control, submission, timestamp).ledger),
{
    let facility = ledger.credit_facilities[control.facility_id];
    if crate::execution::credit::control_refusal(
        ledger,
        control,
        submission,
        timestamp,
    ) is None {
        lemma_facility_stays_distinct(
            ledger.credit_facilities,
            control.facility_id,
            CreditFacilityRecord {
                status: controlled_status(control.action),
                sequence: (facility.sequence + 1) as u64,
                ..facility
            },
        );
    }
}

proof fn lemma_amend(
    ledger: Ledger,
    amendment: CreditFacilityAmendment,
    submission: Submission,
    timestamp: u64,
)
    ensures
        follows_beside(ledger, amend_outcome(ledger, amendment, submission, timestamp).ledger),
{
    let facility = ledger.credit_facilities[amendment.facility_id];
    if crate::execution::credit::amend_refusal(
        ledger,
        amendment,
        submission,
        timestamp,
    ) is None {
        lemma_facility_stays_distinct(
            ledger.credit_facilities,
            amendment.facility_id,
            amended(facility, amendment),
        );
    }
}

proof fn lemma_transition(
    ledger: Ledger,
    transition: CreditFacilityTransition,
    seal: Seal,
    submission: Submission,
    timestamp: u64,
)
    ensures
        follows_beside(
            ledger,
            transition_outcome(ledger, transition, seal, submission, timestamp).ledger,
        ),
{
    let facility = ledger.credit_facilities[transition.facility_id];
    if crate::execution::credit::transition_refusal(
        ledger,
        transition,
        seal,
        submission,
        timestamp,
    ) is None {
        lemma_facility_stays_distinct(
            ledger.credit_facilities,
            transition.facility_id,
            advanced(facility, transition),
        );
    }
}

proof fn lemma_settle_batches(
    ledger: Ledger,
    batch: ProductSettlementBatch,
    orders: Seq<ProductSettlementOrder>,
    submission: Submission,
    timestamp: u64,
)
    ensures
        follows_beside(
            ledger,
            settle_product_batch_outcome(ledger, batch, orders, submission, timestamp).ledger,
        ),
{
    lemma_orders(ledger, orders, timestamp, 0);
    let progress = orders_progress(ledger, orders, timestamp, 0);
    lemma_operated(ledger, progress.ledger, batch.batch_id, batch.seal.statement->Ok_0);
}

proof fn lemma_settle_note_batches(
    ledger: Ledger,
    batch: ProductSettlementBatch,
    orders: Seq<ProductNoteSettlementOrder>,
    findings: Seq<SettlementFindings>,
    submission: Submission,
    timestamp: u64,
)
    ensures
        follows_beside(
            ledger,
            settle_note_product_batch_outcome(
                ledger,
                batch,
                orders,
                findings,
                submission,
                timestamp,
            ).ledger,
        ),
{
    lemma_note_orders(ledger, orders, timestamp, 0);
    let progress = note_orders_progress(ledger, orders, timestamp, 0);
    lemma_operated(ledger, progress.ledger, batch.batch_id, batch.seal.statement->Ok_0);
}

/// Whether a transaction is on one of the books.
pub open spec fn on_books(action: Action) -> bool {
    match action {
        Action::IssueAethelProvider { .. }
        | Action::IssueAethelStream { .. }
        | Action::IssueAethelStreamTransition { .. }
        | Action::IssueAethelSeries { .. }
        | Action::IssueAethelCreditDecision { .. }
        | Action::IssueAethelGuarantee { .. }
        | Action::IssueAethelGuaranteeRelease { .. }
        | Action::IssueAethelProviderKeyRotation { .. }
        | Action::IssueAethelProviderStatus { .. }
        | Action::IssueAethelCredentialIssuer { .. }
        | Action::IssueAethelCredentialStatus { .. }
        | Action::IssueAethelFundingQuote { .. }
        | Action::IssueAethelReceivable { .. }
        | Action::IssueAethelDefault { .. }
        | Action::IssueAethelGuaranteeClaim { .. }
        | Action::IssueDeccpClearingBook { .. }
        | Action::IssueDeccpMember { .. }
        | Action::IssueDeccpGuaranteeFacility { .. } => true,
        _ => false,
    }
}

/// Whether a transaction is on scopes or reservations of applications.
pub open spec fn on_applications(action: Action) -> bool {
    match action {
        Action::IssueApplicationReserveScope { .. }
        | Action::IssueApplicationNoteReservation { .. }
        | Action::IssueApplicationNoteFill { .. }
        | Action::IssueApplicationNoteFillBatch { .. }
        | Action::IssueApplicationNoteRelease { .. } => true,
        _ => false,
    }
}

/// A transaction on the books changes them and the operations, and nothing else,
/// and nothing that the books held is lost.
pub proof fn law_books_are_kept_apart(
    ledger: Ledger,
    action: Action,
    submission: Submission,
    timestamp: u64,
)
    requires
        on_books(action),
    ensures
        ({
            let after = action_outcome(ledger, action, submission, timestamp).ledger;
            &&& after == (Ledger {
                aethel: after.aethel,
                deccp: after.deccp,
                operations: after.operations,
                ..ledger
            })
            &&& grows(ledger.operations, after.operations)
            &&& books_follow(ledger, after)
        }),
{
}

proof fn lemma_register_scope(
    ledger: Ledger,
    registration: ApplicationScopeRegistration,
    submission: Submission,
)
    ensures
        follows_beside(ledger, register_scope_outcome(ledger, registration, submission).ledger),
{
}

proof fn lemma_reserve_application(
    ledger: Ledger,
    request: ApplicationNoteReservation,
    submission: Submission,
    timestamp: u64,
)
    ensures
        follows_beside(
            ledger,
            reserve_application_outcome(ledger, request, submission, timestamp).ledger,
        ),
{
    if reserve_application_refusal(ledger, request, submission, timestamp) is None {
        let transition = request.transition;
        let statement = request.seal.statement->Ok_0;
        let placed = hold_placed(ledger, transition);
        lemma_facility_stays_distinct(
            ledger.credit_facilities,
            transition.facility_id,
            placed.credit_facilities[transition.facility_id],
        );
        assert(follows_beside(ledger, placed));
        let spend = request.escrow.spend;
        lemma_spend(placed, spend, transition.expires_at, statement);
        let spent = apply_spend_progress(placed, spend, transition.expires_at, statement);
        lemma_follows_transitive(ledger, placed, spent.ledger);
        lemma_spend_keeps_applications(placed, spend, transition.expires_at, statement);
        let reserved = Ledger {
            application_reservations: spent.ledger.application_reservations.insert(
                transition.hold_id,
                reservation_record(request),
            ),
            ..spent.ledger
        };
        assert(follows_beside(ledger, reserved));
        lemma_operated(ledger, reserved, transition.operation_id, statement);
    }
}

proof fn lemma_outputs_keep_applications(ledger: Ledger, outputs: Seq<NoteOutput>, from: nat)
    ensures
        outputs_progress(ledger, outputs, from).ledger.application_reservations
            == ledger.application_reservations,
    decreases outputs.len() - from,
{
    if from < outputs.len() {
        let step = insert_note_progress(ledger, outputs[from as int]);
        if step.refusal is None {
            lemma_outputs_keep_applications(step.ledger, outputs, from + 1);
        }
    }
}

proof fn lemma_spend_keeps_applications(
    ledger: Ledger,
    spend: NoteSpend,
    deadline: u64,
    statement: Id,
)
    ensures
        apply_spend_progress(ledger, spend, deadline, statement).ledger.application_reservations
            == ledger.application_reservations,
{
    let used = Ledger {
        note_serials: ledger.note_serials.insert(
            spend.serial_point,
            crate::state::NoteSerialRecord {
                deadline,
                asset_id: spend.asset_id,
                ring_root: spend.ring_root,
                statement,
            },
        ),
        ..ledger
    };
    lemma_outputs_keep_applications(used, spend.outputs@, 0);
}

proof fn lemma_side(
    ledger: Ledger,
    record: ApplicationReservationRecord,
    side: VerifiedSide,
    head: ApplicationSpendHead,
    asset_id: Id,
    statement: Id,
)
    requires
        side_progress(ledger, record, side, head, asset_id, statement).refusal is None,
        ledger.application_reservations.contains_key(head.hold_id),
        ({
            let current = ledger.application_reservations[head.hold_id];
            &&& current.binding == record.binding
            &&& current.escrow_note_id == record.escrow_note_id
            &&& current.covenant_serial == record.covenant_serial
            &&& current.sequence <= record.sequence + 1
            &&& current.status == HoldStatus::Active
        }),
    ensures
        follows_beside(
            ledger,
            side_progress(ledger, record, side, head, asset_id, statement).ledger,
        ),
{
    let facility_id = record.binding.facility_id;
    let after = side_progress(ledger, record, side, head, asset_id, statement).ledger;
    lemma_facility_stays_distinct(
        ledger.credit_facilities,
        facility_id,
        after.credit_facilities[facility_id],
    );
}

proof fn lemma_fill(ledger: Ledger, order: ApplicationNoteFill, parent: Id, now: u64)
    requires
        fill_outcome(ledger, order, parent, now).result is Ok,
    ensures
        follows_beside(ledger, fill_outcome(ledger, order, parent, now).ledger),
{
    let verified = order.verified->Ok_0;
    let statement = verified.statement;
    let securities = side_progress(
        ledger,
        ledger.application_reservations[order.securities.hold_id],
        verified.securities,
        order.securities,
        order.securities_asset,
        statement,
    );
    lemma_side(
        ledger,
        ledger.application_reservations[order.securities.hold_id],
        verified.securities,
        order.securities,
        order.securities_asset,
        statement,
    );
    let cash = side_progress(
        securities.ledger,
        ledger.application_reservations[order.cash.hold_id],
        verified.cash,
        order.cash,
        order.cash_asset,
        statement,
    );
    lemma_side(
        securities.ledger,
        ledger.application_reservations[order.cash.hold_id],
        verified.cash,
        order.cash,
        order.cash_asset,
        statement,
    );
    lemma_follows_transitive(ledger, securities.ledger, cash.ledger);
    lemma_inserted_claims(cash.ledger, verified.claims@, statement, 0);
    lemma_inserted_claims_keep(cash.ledger, verified.claims@, statement, 0);
    let claimed = insert_claims_progress(cash.ledger, verified.claims@, statement, 0);
    lemma_follows_transitive(ledger, cash.ledger, claimed.ledger);
}

proof fn lemma_inserted_claims(
    ledger: Ledger,
    claims: Seq<NoteClaim>,
    statement: Id,
    from: nat,
)
    ensures
        follows_beside(ledger, insert_claims_progress(ledger, claims, statement, from).ledger),
    decreases claims.len() - from,
{
    if from < claims.len() {
        let step = insert_claim_progress(ledger, claims[from as int], statement);
        assert(follows_beside(ledger, step.ledger));
        if step.refusal is None {
            lemma_inserted_claims(step.ledger, claims, statement, from + 1);
            lemma_follows_transitive(
                ledger,
                step.ledger,
                insert_claims_progress(step.ledger, claims, statement, from + 1).ledger,
            );
        }
    }
}

proof fn lemma_fills(
    ledger: Ledger,
    fills: Seq<ApplicationNoteFill>,
    parent: Id,
    now: u64,
    from: nat,
)
    requires
        fills_progress(ledger, fills, parent, now, from).refusal is None,
    ensures
        follows_beside(ledger, fills_progress(ledger, fills, parent, now, from).ledger),
    decreases fills.len() - from,
{
    if from < fills.len() {
        let next = fill_outcome(ledger, fills[from as int], parent, now).ledger;
        lemma_fill(ledger, fills[from as int], parent, now);
        lemma_fills(next, fills, parent, now, from + 1);
        lemma_follows_transitive(
            ledger,
            next,
            fills_progress(next, fills, parent, now, from + 1).ledger,
        );
    }
}

proof fn lemma_application_release(
    ledger: Ledger,
    order: ApplicationNoteRelease,
    root: Id,
    now: u64,
)
    requires
        release_outcome(ledger, order, root, now).result is Ok,
    ensures
        follows_beside(ledger, release_outcome(ledger, order, root, now).ledger),
{
    let after = release_outcome(ledger, order, root, now).ledger;
    let record = ledger.application_reservations[order.hold_id];
    let statement = order.verified->Ok_0.statement;
    let facility_id = record.binding.facility_id;
    let released = released_facility(
        ledger.credit_facilities[facility_id],
        record.remaining_spec(),
    );
    let moved = with_facility(ledger, facility_id, released.facility);
    lemma_facility_stays_distinct(ledger.credit_facilities, facility_id, released.facility);
    assert(follows_beside(ledger, moved));
    let refunded = refund_progress(moved, record, order, statement);
    assert(follows_beside(moved, refunded.ledger));
    lemma_follows_transitive(ledger, moved, refunded.ledger);
    assert(refunded.ledger.credit_holds == ledger.credit_holds);
    assert(refunded.ledger.application_reservations == ledger.application_reservations);
}

/// Whatever a transaction does, nothing recorded is lost: registrations, notes,
/// bindings and nullifiers are final, sequences only go on, and what is closed,
/// consumed, released or revoked stays so. A transaction that is not on the books
/// leaves them as they were.
#[verifier::rlimit(60)]
pub proof fn law_every_transaction_follows(
    ledger: Ledger,
    action: Action,
    submission: Submission,
    timestamp: u64,
)
    requires
        lanes_scoped(ledger),
    ensures
        follows(ledger, applied_outcome(ledger, action, submission, timestamp).ledger),
        !on_books(action) ==> books_untouched(
            ledger,
            applied_outcome(ledger, action, submission, timestamp).ledger,
        ),
        lanes_scoped(applied_outcome(ledger, action, submission, timestamp).ledger),
{
    match action {
        Action::IssueNoteSettlement { order } => {
            lemma_settle_notes(ledger, order, submission, timestamp);
        },
        Action::IssueAdmissionBatch { plan, lanes } => {
            lemma_register_batch(ledger, plan, lanes, submission, timestamp);
        },
        Action::IssueProductReservation { request } => {
            lemma_reserve_product(ledger, request, submission, timestamp);
        },
        Action::IssueNoteProductReservation { request } => {
            lemma_reserve_note_product(ledger, request, submission, timestamp);
        },
        Action::IssueProductRelease { order } => {
            lemma_release_product(ledger, order, submission, timestamp);
        },
        Action::IssueNoteProductRelease { order } => {
            lemma_release_note_product(ledger, order, submission, timestamp);
        },
        Action::IssueProductSettlement { order } => {
            lemma_product(ledger, order, timestamp);
        },
        Action::IssueProductSettlementBatch { batch, orders } => {
            lemma_settle_batches(ledger, batch, orders@, submission, timestamp);
        },
        Action::IssueNoteProductSettlement { order, findings } => {
            lemma_note_product(ledger, order, timestamp);
        },
        Action::IssueNoteProductSettlementBatch { batch, orders, findings } => {
            lemma_settle_note_batches(
                ledger,
                batch,
                orders@,
                findings@,
                submission,
                timestamp,
            );
        },
        Action::IssueSettlement { order } => {
            lemma_settle(ledger, order, submission, timestamp);
        },
        Action::IssueAsset { definition } => {
            lemma_register_asset(ledger, definition, submission);
        },
        Action::IssueCsdIssuer { issuer } => {
            lemma_register_csd_issuer(ledger, issuer, submission, timestamp);
        },
        Action::IssueCsdIssuerControl { control } => {
            lemma_control_csd_issuer(ledger, control, submission);
        },
        Action::IssueNote { issuance, issuer } => {
            lemma_issue_note(ledger, issuance, issuer, submission, timestamp);
        },
        Action::IssueNoteClaimMaterialization { materialization } => {
            lemma_materialize(ledger, materialization, submission);
        },
        Action::IssueAdmissionCommittee { plan } => {
            lemma_register_committee(ledger, plan, submission, timestamp);
        },
        Action::IssueSettlementVerifier { config } => {
            lemma_register_verifier(ledger, config, submission, timestamp);
        },
        Action::IssueAdmissionAdvance { advance } => {
            lemma_advance(ledger, advance, submission, timestamp);
        },
        Action::IssueAccount { opening } => {
            lemma_open_account(ledger, opening, submission);
        },
        Action::IssueGuarantor { definition } => {
            lemma_register_guarantor(ledger, definition, submission);
        },
        Action::IssueCreditGrant { grant } => {
            lemma_grant(ledger, grant, submission, timestamp);
        },
        Action::IssueCreditControl { control } => {
            lemma_control(ledger, control, submission, timestamp);
        },
        Action::IssueCreditAmendment { amendment } => {
            lemma_amend(ledger, amendment, submission, timestamp);
        },
        Action::IssueCreditTransition { transition, seal } => {
            lemma_transition(ledger, transition, seal, submission, timestamp);
        },
        Action::IssueAethelProvider { .. }
        | Action::IssueAethelStream { .. }
        | Action::IssueAethelStreamTransition { .. }
        | Action::IssueAethelSeries { .. }
        | Action::IssueAethelCreditDecision { .. }
        | Action::IssueAethelGuarantee { .. }
        | Action::IssueAethelGuaranteeRelease { .. }
        | Action::IssueAethelProviderKeyRotation { .. }
        | Action::IssueAethelProviderStatus { .. }
        | Action::IssueAethelCredentialIssuer { .. }
        | Action::IssueAethelCredentialStatus { .. }
        | Action::IssueAethelFundingQuote { .. }
        | Action::IssueAethelReceivable { .. }
        | Action::IssueAethelDefault { .. }
        | Action::IssueAethelGuaranteeClaim { .. }
        | Action::IssueDeccpClearingBook { .. }
        | Action::IssueDeccpMember { .. }
        | Action::IssueDeccpGuaranteeFacility { .. } => {
            law_books_are_kept_apart(ledger, action, submission, timestamp);
        },
        Action::IssueApplicationReserveScope { registration } => {
            lemma_register_scope(ledger, registration, submission);
        },
        Action::IssueApplicationNoteReservation { request } => {
            lemma_reserve_application(ledger, request, submission, timestamp);
        },
        Action::IssueApplicationNoteFill { order } => {
            if fill_outcome(ledger, order, submission.before_root, timestamp).result is Ok {
                lemma_fill(ledger, order, submission.before_root, timestamp);
            }
        },
        Action::IssueApplicationNoteFillBatch { batch } => {
            if fill_batch_outcome(ledger, batch, submission.before_root, timestamp).result is Ok {
                lemma_fills(ledger, batch.fills@, submission.before_root, timestamp, 0);
            }
        },
        Action::IssueApplicationNoteRelease { order } => {
            if release_outcome(ledger, order, submission.before_root, timestamp).result is Ok {
                lemma_application_release(ledger, order, submission.before_root, timestamp);
            }
        },
    }
}

/// A transaction that is carried out is counted, and one that is refused is not.
pub proof fn law_transactions_are_counted(
    ledger: Ledger,
    action: Action,
    submission: Submission,
    timestamp: u64,
)
    ensures
        ({
            let outcome = applied_outcome(ledger, action, submission, timestamp);
            match outcome.result {
                Ok(_) => outcome.ledger.transition_count == ledger.transition_count + 1,
                Err(_) => outcome.ledger == ledger,
            }
        }),
{
}

} // verus!
