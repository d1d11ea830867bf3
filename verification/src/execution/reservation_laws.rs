//! When reservations are opened and released, and what that leaves behind.

use vstd::prelude::*;

use crate::endorsement::{endorsement_refusal, Submission};
use crate::execution::notes::apply_spend_progress;
use crate::execution::reservation::{hold_opened, hold_released};
use crate::execution::spend_laws::{
    can_be_note, different_notes, is_note, law_a_sound_spend_is_carried_out,
    law_a_spend_makes_every_output,
    law_when_an_escrow_spend_is_admitted, law_when_an_unlocked_spend_is_admitted, ring_unlocked,
    spendable, spent_between,
};
use crate::execution::{action_outcome, Action};
use crate::id::Id;
use crate::order::{
    CreditFacilityTransition, CreditTransitionKind, LaneDigest, NoteProductReservation, NoteSpend,
    ProductNoteReleaseOrder, ProductReleaseOrder, ProductReservation, ReservationAuthorization,
};
use crate::state::{
    CreditFacilityRecord, CreditHoldRecord, FacilityStatus, HoldStatus, Ledger,
    NoteReservationRecord, NullifierRecord, ReservationEscrowRecord, ReservationRole,
};
use crate::table::Numbered;

verus! {

/// Whether a transition was proved against a facility as it is.
pub open spec fn proved_on(
    facility: CreditFacilityRecord,
    transition: CreditFacilityTransition,
) -> bool {
    &&& transition.before_sequence == facility.sequence
    &&& transition.before_available_commitment == facility.available_commitment
    &&& transition.before_held_commitment == facility.held_commitment
    &&& transition.before_outstanding_commitment == facility.outstanding_commitment
}

/// Whether a transition was proved against a hold as it is, and the hold is active.
pub open spec fn proved_on_hold(
    hold: CreditHoldRecord,
    transition: CreditFacilityTransition,
) -> bool {
    &&& hold.status == HoldStatus::Active
    &&& transition.facility_id == hold.facility_id
    &&& transition.query_commitment == hold.query_commitment
    &&& transition.amount_commitment == hold.amount_commitment
    &&& transition.expires_at == hold.expires_at
}

/// Whether a facility went one sequence on to the balances that a transition proves
/// and kept its limit, terms and standing.
pub open spec fn balances_moved(
    before: CreditFacilityRecord,
    after: CreditFacilityRecord,
    transition: CreditFacilityTransition,
) -> bool {
    &&& after.available_commitment == transition.after_available_commitment
    &&& after.held_commitment == transition.after_held_commitment
    &&& after.outstanding_commitment == transition.after_outstanding_commitment
    &&& after.sequence == before.sequence + 1
    &&& before == (CreditFacilityRecord {
        available_commitment: before.available_commitment,
        held_commitment: before.held_commitment,
        outstanding_commitment: before.outstanding_commitment,
        sequence: before.sequence,
        ..after
    })
}

/// Whether a hold ended in a status by a settlement, one sequence of its facility on,
/// and is otherwise as it was.
pub open spec fn hold_ended(
    before: CreditHoldRecord,
    after: CreditHoldRecord,
    status: HoldStatus,
    settlement_digest: Id,
    facility: CreditFacilityRecord,
) -> bool {
    &&& after.status == status
    &&& after.settlement_digest == settlement_digest
    &&& after.updated_sequence == facility.sequence + 1
    &&& before == (CreditHoldRecord {
        status: before.status,
        settlement_digest: before.settlement_digest,
        updated_sequence: before.updated_sequence,
        ..after
    })
}

/// Whether a facility can take a new hold at a time.
pub open spec fn takes_hold(
    facility: CreditFacilityRecord,
    transition: CreditFacilityTransition,
    timestamp: u64,
) -> bool {
    &&& transition.kind == CreditTransitionKind::Hold
    &&& facility.status == FacilityStatus::Active
    &&& facility.valid_from <= timestamp
    &&& timestamp <= transition.expires_at
    &&& transition.expires_at <= facility.valid_until
    &&& transition.after_outstanding_commitment == transition.before_outstanding_commitment
}

/// Whether no reservation has used what an authorization uses up: the nullifier
/// always, and for a taker the request, the ticket, the receipt and the lane too.
pub open spec fn unreserved(ledger: Ledger, authorization: ReservationAuthorization) -> bool {
    forall|hold_id: Id| #[trigger]
        ledger.reservation_bindings.contains_key(hold_id) ==> {
            let binding = ledger.reservation_bindings[hold_id];
            &&& binding.reserve_nullifier != authorization.reserve_nullifier
            &&& authorization.role == ReservationRole::Taker && binding.role
                == ReservationRole::Taker ==> {
                &&& binding.rfq_nullifier != authorization.rfq_nullifier
                &&& binding.admission_ticket_id != authorization.admission_ticket_id
                &&& binding.admission_receipt_digest != authorization.admission_receipt_digest
                &&& binding.admission_batch_id != authorization.admission_batch_id
                    || binding.admission_sequence != authorization.admission_sequence
            }
        }
}

/// Whether a taker's lane is the next one of its admission batch, in time, unused,
/// and its digest that of the taker's ticket and mandate in the batch.
pub open spec fn lane_is_next(
    ledger: Ledger,
    authorization: ReservationAuthorization,
    lane_digest: Result<LaneDigest, String>,
    timestamp: u64,
) -> bool {
    let batch = ledger.admission_batches[authorization.admission_batch_id];
    let key = Numbered {
        scope: authorization.admission_batch_id,
        number: authorization.admission_sequence,
    };
    let entry = ledger.admission_entries[key];
    let digest = lane_digest->Ok_0;
    &&& ledger.admission_batches.contains_key(authorization.admission_batch_id)
    &&& timestamp <= batch.expires_at
    &&& authorization.admission_epoch == batch.epoch
    &&& authorization.admission_slot == batch.slot
    &&& authorization.admission_sequence == batch.consumed + 1
    &&& authorization.admission_sequence <= batch.population
    &&& ledger.admission_entries.contains_key(key)
    &&& entry.admission_digest == authorization.admission_receipt_digest
    &&& entry.consumed_by == Id::zero()
    &&& lane_digest is Ok
    &&& digest.digest == authorization.admission_receipt_digest
    &&& digest.venue_id == batch.venue_id
    &&& digest.epoch == batch.epoch
    &&& digest.lane.slot == authorization.admission_slot
    &&& digest.lane.sequence == authorization.admission_sequence
    &&& digest.lane.principal_digest == Id::zero()
    &&& digest.lane.ticket_id == authorization.admission_ticket_id
    &&& digest.lane.claim_digest == authorization.mandate_digest
    &&& digest.lane.cluster_digest == batch.batch_digest
    &&& digest.lane.order_digest == batch.order_digest
}

/// Whether a reservation uses the lane of a taker and leaves the lanes alone for a
/// maker: the lane names the operation, and the batch is consumed up to it.
pub open spec fn lane_used(
    ledger: Ledger,
    after: Ledger,
    authorization: ReservationAuthorization,
    operation_id: Id,
) -> bool {
    let batch_id = authorization.admission_batch_id;
    let key = Numbered { scope: batch_id, number: authorization.admission_sequence };
    let batch = ledger.admission_batches[batch_id];
    let entry = ledger.admission_entries[key];
    let next = after.admission_batches[batch_id];
    let used = after.admission_entries[key];
    if authorization.role == ReservationRole::Maker {
        &&& after.admission_batches == ledger.admission_batches
        &&& after.admission_entries == ledger.admission_entries
    } else {
        &&& after.admission_batches == ledger.admission_batches.insert(batch_id, next)
        &&& after.admission_entries == ledger.admission_entries.insert(key, used)
        &&& next.consumed == authorization.admission_sequence
        &&& next.venue_id == batch.venue_id
        &&& next.epoch == batch.epoch
        &&& next.slot == batch.slot
        &&& next.batch_digest == batch.batch_digest
        &&& next.order_digest == batch.order_digest
        &&& next.population == batch.population
        &&& next.expires_at == batch.expires_at
        &&& next.statement == batch.statement
        &&& used.consumed_by == operation_id
        &&& used.batch_id == entry.batch_id
        &&& used.sequence == entry.sequence
        &&& used.admission_digest == entry.admission_digest
    }
}

/// Whether a reservation left its hold and its binding behind: an active hold of the
/// amount, query and expiry that were proved, and all that was signed, under the
/// receipt.
pub open spec fn reserved_for(
    after: Ledger,
    transition: CreditFacilityTransition,
    authorization: ReservationAuthorization,
    receipt: Id,
) -> bool {
    let hold = after.credit_holds[transition.hold_id];
    let binding = after.reservation_bindings[transition.hold_id];
    &&& hold.status == HoldStatus::Active
    &&& hold.settlement_digest == Id::zero()
    &&& hold.facility_id == transition.facility_id
    &&& hold.query_commitment == transition.query_commitment
    &&& hold.amount_commitment == transition.amount_commitment
    &&& hold.expires_at == transition.expires_at
    &&& hold.created_sequence == transition.before_sequence + 1
    &&& hold.updated_sequence == transition.before_sequence + 1
    &&& binding.receipt_digest == receipt
    &&& binding.role == authorization.role
    &&& binding.entity_commitment == authorization.entity_commitment
    &&& binding.asset_id == authorization.asset_id
    &&& binding.direction == authorization.direction
    &&& binding.authorization_digest == authorization.authorization_digest
    &&& binding.mandate_digest == authorization.mandate_digest
    &&& binding.typed_reserve_digest == authorization.typed_reserve_digest
    &&& binding.reserve_nullifier == authorization.reserve_nullifier
    &&& binding.asset_link_proof_digest == authorization.asset_link_proof_digest
    &&& binding.limit_price_commitment == authorization.limit_price_commitment
    &&& binding.rfq_nullifier == authorization.rfq_nullifier
    &&& binding.policy_version == authorization.policy_version
    &&& binding.admission_ticket_id == authorization.admission_ticket_id
    &&& binding.admission_slot == authorization.admission_slot
    &&& binding.admission_receipt_digest == authorization.admission_receipt_digest
    &&& binding.admission_epoch == authorization.admission_epoch
    &&& binding.admission_sequence == authorization.admission_sequence
    &&& binding.admission_batch_id == authorization.admission_batch_id
}

/// An account reservation is made exactly where its parts are well formed and
/// signed for each other, it is approved, nothing that it uses up was used, the
/// facility of its entity and asset can take the hold, the source account is as it
/// was proved, and the lane of a taker is the next one.
pub proof fn law_when_an_account_reservation_is_made(
    ledger: Ledger,
    request: ProductReservation,
    submission: Submission,
    timestamp: u64,
)
    ensures
        ({
            let transition = request.transition;
            let authorization = request.authorization;
            let escrow = request.escrow;
            let facility = ledger.credit_facilities[transition.facility_id];
            let source = ledger.accounts[escrow.source_handle];
            (action_outcome(
                ledger,
                Action::IssueProductReservation { request },
                submission,
                timestamp,
            ).result is Ok) == {
                &&& request.transition_body is Ok
                &&& request.authorization_body is Ok
                &&& request.escrow_seal.body is Ok
                &&& request.escrow_seal.statement == Ok::<Id, String>(authorization.escrow_digest)
                &&& authorization.role == ReservationRole::Taker
                    ==> authorization.authorization_digest == authorization.mandate_digest
                &&& request.statement is Ok
                &&& submission.refusal(request.statement->Ok_0) is None
                &&& request.transition_statement is Ok
                &&& !ledger.operations.contains_key(transition.operation_id)
                &&& !ledger.reservation_bindings.contains_key(transition.hold_id)
                &&& !ledger.credit_holds.contains_key(transition.hold_id)
                &&& unreserved(ledger, authorization)
                &&& ledger.credit_facilities.contains_key(transition.facility_id)
                &&& facility.beneficiary_commitment == authorization.entity_commitment
                &&& facility.rail_asset_id == authorization.asset_id
                &&& facility.sequence < u64::MAX
                &&& proved_on(facility, transition)
                &&& takes_hold(facility, transition, timestamp)
                &&& authorization.role == ReservationRole::Taker ==> lane_is_next(
                    ledger,
                    authorization,
                    request.lane_digest,
                    timestamp,
                )
                &&& !ledger.reservation_escrows.contains_key(transition.hold_id)
                &&& escrow.source_handle != escrow.escrow_handle
                &&& escrow.asset_id == authorization.asset_id
                &&& escrow.amount_commitment == transition.amount_commitment
                &&& ledger.accounts.contains_key(escrow.source_handle)
                &&& source.asset_id == escrow.asset_id
                &&& source.commitment == escrow.source_before_commitment
                &&& source.sequence == escrow.source_before_sequence
                &&& source.sequence < u64::MAX
            }
        }),
{
}

/// An account reservation opens an active hold and an active escrow of what was
/// signed, takes the amount from the source account, moves the facility, uses the
/// lane of a taker, and changes nothing else.
pub proof fn law_what_an_account_reservation_leaves(
    ledger: Ledger,
    request: ProductReservation,
    submission: Submission,
    timestamp: u64,
)
    requires
        action_outcome(
            ledger,
            Action::IssueProductReservation { request },
            submission,
            timestamp,
        ).result is Ok,
    ensures
        ({
            let outcome = action_outcome(
                ledger,
                Action::IssueProductReservation { request },
                submission,
                timestamp,
            );
            let after = outcome.ledger;
            let transition = request.transition;
            let escrow = request.escrow;
            let source = after.accounts[escrow.source_handle];
            let record = after.reservation_escrows[transition.hold_id];
            &&& after == (Ledger {
                credit_facilities: ledger.credit_facilities.insert(
                    transition.facility_id,
                    after.credit_facilities[transition.facility_id],
                ),
                credit_holds: ledger.credit_holds.insert(
                    transition.hold_id,
                    after.credit_holds[transition.hold_id],
                ),
                reservation_bindings: ledger.reservation_bindings.insert(
                    transition.hold_id,
                    after.reservation_bindings[transition.hold_id],
                ),
                accounts: ledger.accounts.insert(escrow.source_handle, source),
                reservation_escrows: ledger.reservation_escrows.insert(transition.hold_id, record),
                admission_batches: after.admission_batches,
                admission_entries: after.admission_entries,
                operations: ledger.operations.insert(
                    transition.operation_id,
                    request.transition_statement->Ok_0,
                ),
                ..ledger
            })
            &&& outcome.result->Ok_0 == request.statement->Ok_0
            &&& balances_moved(
                ledger.credit_facilities[transition.facility_id],
                after.credit_facilities[transition.facility_id],
                transition,
            )
            &&& reserved_for(after, transition, request.authorization, request.statement->Ok_0)
            &&& lane_used(ledger, after, request.authorization, transition.operation_id)
            &&& source.asset_id == ledger.accounts[escrow.source_handle].asset_id
            &&& source.commitment == escrow.source_after_commitment
            &&& source.sequence == ledger.accounts[escrow.source_handle].sequence + 1
            &&& record.source_handle == escrow.source_handle
            &&& record.escrow_handle == escrow.escrow_handle
            &&& record.asset_id == escrow.asset_id
            &&& record.amount_commitment == escrow.amount_commitment
            &&& record.source_before_commitment == escrow.source_before_commitment
            &&& record.source_after_commitment == escrow.source_after_commitment
            &&& record.source_before_sequence == escrow.source_before_sequence
            &&& record.proof_digest == escrow.proof_digest
            &&& record.status == HoldStatus::Active
            &&& record.settlement_digest == Id::zero()
        }),
{
}

pub proof fn lemma_spend_carried_out(
    ledger: Ledger,
    reached: Ledger,
    spend: NoteSpend,
    deadline: u64,
    statement: Id,
)
    requires
        reached.notes == ledger.notes,
        reached.note_serials == ledger.note_serials,
        reached.assets == ledger.assets,
        !ledger.note_serials.contains_key(spend.serial_point),
    ensures
        (apply_spend_progress(reached, spend, deadline, statement).refusal is None) == (
        outputs_fit(ledger, spend)),
{
    assert forall|i: int| 0 <= i < spend.outputs@.len() implies can_be_note(
        ledger,
        #[trigger] spend.outputs@[i],
    ) == can_be_note(reached, spend.outputs@[i]) by {}
    if outputs_fit(ledger, spend) {
        assert forall|i: int| 0 <= i < spend.outputs@.len() implies can_be_note(
            reached,
            #[trigger] spend.outputs@[i],
        ) by {
            assert(can_be_note(ledger, spend.outputs@[i]));
        }
        law_a_sound_spend_is_carried_out(reached, spend, deadline, statement);
    }
    if apply_spend_progress(reached, spend, deadline, statement).refusal is None {
        law_a_spend_makes_every_output(reached, spend, deadline, statement);
        assert forall|i: int| 0 <= i < spend.outputs@.len() implies can_be_note(
            ledger,
            #[trigger] spend.outputs@[i],
        ) by {
            assert(can_be_note(reached, spend.outputs@[i]));
        }
    }
}

/// Whether the outputs of a spend are different and can all become notes.
pub open spec fn outputs_fit(ledger: Ledger, spend: NoteSpend) -> bool {
    &&& different_notes(spend.outputs@)
    &&& forall|i: int|
        0 <= i < spend.outputs@.len() ==> can_be_note(ledger, #[trigger] spend.outputs@[i])
}

/// A note reservation is made exactly where its parts are well formed and signed
/// for each other, it is approved, nothing that it uses up was used, the facility of
/// its entity and asset can take the hold, its spend can be carried out from notes
/// that are not reserved, and the lane of a taker is the next one.
pub proof fn law_when_a_note_reservation_is_made(
    ledger: Ledger,
    request: NoteProductReservation,
    submission: Submission,
    timestamp: u64,
)
    ensures
        ({
            let transition = request.transition;
            let authorization = request.authorization;
            let facility = ledger.credit_facilities[transition.facility_id];
            (action_outcome(
                ledger,
                Action::IssueNoteProductReservation { request },
                submission,
                timestamp,
            ).result is Ok) == {
                &&& request.transition_body is Ok
                &&& request.authorization_body is Ok
                &&& request.escrow_seal.body is Ok
                &&& request.escrow_seal.statement == Ok::<Id, String>(authorization.escrow_digest)
                &&& authorization.role == ReservationRole::Taker
                    ==> authorization.authorization_digest == authorization.mandate_digest
                &&& request.statement is Ok
                &&& submission.refusal(request.statement->Ok_0) is None
                &&& request.transition_statement is Ok
                &&& !ledger.operations.contains_key(transition.operation_id)
                &&& !ledger.reservation_bindings.contains_key(transition.hold_id)
                &&& !ledger.credit_holds.contains_key(transition.hold_id)
                &&& unreserved(ledger, authorization)
                &&& ledger.credit_facilities.contains_key(transition.facility_id)
                &&& facility.beneficiary_commitment == authorization.entity_commitment
                &&& facility.rail_asset_id == authorization.asset_id
                &&& facility.sequence < u64::MAX
                &&& proved_on(facility, transition)
                &&& takes_hold(facility, transition, timestamp)
                &&& authorization.role == ReservationRole::Taker ==> lane_is_next(
                    ledger,
                    authorization,
                    request.lane_digest,
                    timestamp,
                )
                &&& !ledger.note_reservations.contains_key(transition.hold_id)
                &&& spendable(ledger, request.escrow.spend)
                &&& ring_unlocked(ledger, request.escrow.spend)
                &&& outputs_fit(ledger, request.escrow.spend)
            }
        }),
{
    let transition = request.transition;
    let spend = request.escrow.spend;
    let opened = hold_opened(
        ledger,
        transition,
        request.authorization,
        request.statement->Ok_0,
    );
    law_when_an_unlocked_spend_is_admitted(ledger, spend);
    if !ledger.note_serials.contains_key(spend.serial_point) {
        lemma_spend_carried_out(
            ledger,
            opened,
            spend,
            transition.expires_at,
            request.statement->Ok_0,
        );
    }
}

/// A note reservation opens an active hold and an active escrow of what was signed,
/// spends its note into every one of its outputs, moves the facility, uses the lane
/// of a taker, and changes nothing else.
pub proof fn law_what_a_note_reservation_leaves(
    ledger: Ledger,
    request: NoteProductReservation,
    submission: Submission,
    timestamp: u64,
)
    requires
        action_outcome(
            ledger,
            Action::IssueNoteProductReservation { request },
            submission,
            timestamp,
        ).result is Ok,
    ensures
        ({
            let outcome = action_outcome(
                ledger,
                Action::IssueNoteProductReservation { request },
                submission,
                timestamp,
            );
            let after = outcome.ledger;
            let transition = request.transition;
            let escrow = request.escrow;
            let record = after.note_reservations[transition.hold_id];
            &&& after == (Ledger {
                credit_facilities: ledger.credit_facilities.insert(
                    transition.facility_id,
                    after.credit_facilities[transition.facility_id],
                ),
                credit_holds: ledger.credit_holds.insert(
                    transition.hold_id,
                    after.credit_holds[transition.hold_id],
                ),
                reservation_bindings: ledger.reservation_bindings.insert(
                    transition.hold_id,
                    after.reservation_bindings[transition.hold_id],
                ),
                notes: after.notes,
                note_serials: after.note_serials,
                note_reservations: ledger.note_reservations.insert(transition.hold_id, record),
                admission_batches: after.admission_batches,
                admission_entries: after.admission_entries,
                operations: ledger.operations.insert(
                    transition.operation_id,
                    request.transition_statement->Ok_0,
                ),
                ..ledger
            })
            &&& outcome.result->Ok_0 == request.statement->Ok_0
            &&& balances_moved(
                ledger.credit_facilities[transition.facility_id],
                after.credit_facilities[transition.facility_id],
                transition,
            )
            &&& reserved_for(after, transition, request.authorization, request.statement->Ok_0)
            &&& lane_used(ledger, after, request.authorization, transition.operation_id)
            &&& spent_between(
                Ledger {
                    notes: ledger.notes,
                    note_serials: ledger.note_serials,
                    ..after
                },
                after,
                escrow.spend,
                transition.expires_at,
                request.statement->Ok_0,
            )
            &&& record.escrow_note_id == escrow.escrow_note_id
            &&& record.asset_id == escrow.spend.asset_id
            &&& record.amount_commitment == transition.amount_commitment
            &&& record.proof_digest == escrow.spend.proof_digest
            &&& record.delegation_digest == escrow.delegation_digest
            &&& record.status == HoldStatus::Active
            &&& record.settlement_digest == Id::zero()
        }),
{
    let opened = hold_opened(
        ledger,
        request.transition,
        request.authorization,
        request.statement->Ok_0,
    );
    law_a_spend_makes_every_output(
        opened,
        request.escrow.spend,
        request.transition.expires_at,
        request.statement->Ok_0,
    );
    let spent = apply_spend_progress(
        opened,
        request.escrow.spend,
        request.transition.expires_at,
        request.statement->Ok_0,
    ).ledger;
    let after = action_outcome(
        ledger,
        Action::IssueNoteProductReservation { request },
        submission,
        timestamp,
    ).ledger;
    lemma_notes_stay(spent, after, request.escrow.spend);
}

pub proof fn lemma_notes_stay(spent: Ledger, after: Ledger, spend: NoteSpend)
    requires
        spent.notes == after.notes,
        forall|i: int|
            0 <= i < spend.outputs@.len() ==> is_note(spent, #[trigger] spend.outputs@[i]),
    ensures
        forall|i: int|
            0 <= i < spend.outputs@.len() ==> is_note(after, #[trigger] spend.outputs@[i]),
{
    assert forall|i: int| 0 <= i < spend.outputs@.len() implies is_note(
        after,
        #[trigger] spend.outputs@[i],
    ) by {
        assert(is_note(spent, spend.outputs@[i]));
    }
}

/// The expired account reservation of a maker or a taker is released exactly where
/// the release is approved, in time and new, names the reservation as it was signed
/// and refunds it whole, the reservation of a maker is under a policy and that of a
/// taker for a request that is its mandate, and the facility, the hold, the escrow
/// and the account are as they were proved.
pub proof fn law_when_an_account_reservation_is_released(
    ledger: Ledger,
    order: ProductReleaseOrder,
    submission: Submission,
    timestamp: u64,
)
    ensures
        ({
            let transition = order.transition;
            let binding = ledger.reservation_bindings[transition.hold_id];
            let facility = ledger.credit_facilities[transition.facility_id];
            let escrow = ledger.reservation_escrows[transition.hold_id];
            let account = ledger.accounts[order.refund_leg.handle];
            (action_outcome(
                ledger,
                Action::IssueProductRelease { order },
                submission,
                timestamp,
            ).result is Ok) == {
                &&& endorsement_refusal(order.seal, submission) is None
                &&& transition.expires_at < timestamp <= order.release_deadline
                &&& !ledger.nullifiers.contains_key(order.release_nullifier)
                &&& !ledger.operations.contains_key(transition.operation_id)
                &&& ledger.reservation_bindings.contains_key(transition.hold_id)
                &&& binding.role == order.role
                &&& binding.asset_id == order.asset_id
                &&& binding.receipt_digest == order.reserve_receipt_digest
                &&& binding.authorization_digest == transition.query_commitment
                &&& order.role == ReservationRole::Maker ==> binding.policy_version != 0
                    && binding.rfq_nullifier == Id::zero()
                &&& order.role == ReservationRole::Taker ==> binding.policy_version == 0
                    && binding.rfq_nullifier != Id::zero() && binding.mandate_digest
                    == transition.query_commitment
                &&& transition.kind == CreditTransitionKind::Release
                &&& transition.settlement_digest == Id::zero()
                &&& transition.after_outstanding_commitment
                    == transition.before_outstanding_commitment
                &&& ledger.credit_facilities.contains_key(transition.facility_id)
                &&& facility.beneficiary_commitment == binding.entity_commitment
                &&& facility.rail_asset_id == order.asset_id
                &&& facility.sequence < u64::MAX
                &&& proved_on(facility, transition)
                &&& ledger.credit_holds.contains_key(transition.hold_id)
                &&& proved_on_hold(ledger.credit_holds[transition.hold_id], transition)
                &&& ledger.reservation_escrows.contains_key(transition.hold_id)
                &&& escrow.status == HoldStatus::Active
                &&& escrow.source_handle == order.refund_leg.handle
                &&& escrow.asset_id == order.asset_id
                &&& escrow.amount_commitment == transition.amount_commitment
                &&& ledger.accounts.contains_key(order.refund_leg.handle)
                &&& account.asset_id == order.asset_id
                &&& account.commitment == order.refund_leg.before_commitment
                &&& account.sequence == order.refund_leg.before_sequence
                &&& account.sequence < u64::MAX
            }
        }),
{
}

/// A release ends the hold and the escrow, gives the account what was proved,
/// moves the facility, uses up the nullifier, and changes nothing else.
pub proof fn law_what_an_account_release_leaves(
    ledger: Ledger,
    order: ProductReleaseOrder,
    submission: Submission,
    timestamp: u64,
)
    requires
        action_outcome(
            ledger,
            Action::IssueProductRelease { order },
            submission,
            timestamp,
        ).result is Ok,
    ensures
        ({
            let outcome = action_outcome(
                ledger,
                Action::IssueProductRelease { order },
                submission,
                timestamp,
            );
            let after = outcome.ledger;
            let statement = outcome.result->Ok_0;
            let transition = order.transition;
            let handle = order.refund_leg.handle;
            let record = after.reservation_escrows[transition.hold_id];
            let before = ledger.reservation_escrows[transition.hold_id];
            &&& after == (Ledger {
                credit_facilities: ledger.credit_facilities.insert(
                    transition.facility_id,
                    after.credit_facilities[transition.facility_id],
                ),
                credit_holds: ledger.credit_holds.insert(
                    transition.hold_id,
                    after.credit_holds[transition.hold_id],
                ),
                nullifiers: ledger.nullifiers.insert(
                    order.release_nullifier,
                    NullifierRecord { deadline: order.release_deadline, statement },
                ),
                operations: ledger.operations.insert(transition.operation_id, statement),
                accounts: ledger.accounts.insert(handle, after.accounts[handle]),
                reservation_escrows: ledger.reservation_escrows.insert(transition.hold_id, record),
                ..ledger
            })
            &&& order.seal.statement == Ok::<Id, String>(statement)
            &&& balances_moved(
                ledger.credit_facilities[transition.facility_id],
                after.credit_facilities[transition.facility_id],
                transition,
            )
            &&& hold_ended(
                ledger.credit_holds[transition.hold_id],
                after.credit_holds[transition.hold_id],
                HoldStatus::Released,
                Id::zero(),
                ledger.credit_facilities[transition.facility_id],
            )
            &&& record.status == HoldStatus::Released
            &&& record.settlement_digest == statement
            &&& before == (ReservationEscrowRecord {
                status: before.status,
                settlement_digest: before.settlement_digest,
                ..record
            })
            &&& after.accounts[handle].asset_id == ledger.accounts[handle].asset_id
            &&& after.accounts[handle].commitment == order.refund_leg.after_commitment
            &&& after.accounts[handle].sequence == ledger.accounts[handle].sequence + 1
        }),
{
}

/// The expired note reservation of a maker or a taker is released exactly where the
/// release is approved, in time and new, names the reservation as it was signed and
/// refunds it whole, the reservation of a maker is under a policy and that of a taker
/// for a request that is its mandate, the facility, the hold and the escrow are as
/// they were proved, and the escrowed note can be spent into its outputs.
pub proof fn law_when_a_note_reservation_is_released(
    ledger: Ledger,
    order: ProductNoteReleaseOrder,
    submission: Submission,
    timestamp: u64,
)
    ensures
        ({
            let transition = order.transition;
            let binding = ledger.reservation_bindings[transition.hold_id];
            let facility = ledger.credit_facilities[transition.facility_id];
            let escrow = ledger.note_reservations[transition.hold_id];
            (action_outcome(
                ledger,
                Action::IssueNoteProductRelease { order },
                submission,
                timestamp,
            ).result is Ok) == {
                &&& endorsement_refusal(order.seal, submission) is None
                &&& transition.expires_at < timestamp <= order.release_deadline
                &&& !ledger.nullifiers.contains_key(order.release_nullifier)
                &&& !ledger.operations.contains_key(transition.operation_id)
                &&& ledger.reservation_bindings.contains_key(transition.hold_id)
                &&& binding.role == order.role
                &&& binding.asset_id == order.asset_id
                &&& binding.receipt_digest == order.reserve_receipt_digest
                &&& binding.authorization_digest == transition.query_commitment
                &&& order.role == ReservationRole::Maker ==> binding.policy_version != 0
                    && binding.rfq_nullifier == Id::zero()
                &&& order.role == ReservationRole::Taker ==> binding.policy_version == 0
                    && binding.rfq_nullifier != Id::zero() && binding.mandate_digest
                    == transition.query_commitment
                &&& transition.kind == CreditTransitionKind::Release
                &&& transition.settlement_digest == Id::zero()
                &&& transition.after_outstanding_commitment
                    == transition.before_outstanding_commitment
                &&& ledger.credit_facilities.contains_key(transition.facility_id)
                &&& facility.beneficiary_commitment == binding.entity_commitment
                &&& facility.rail_asset_id == order.asset_id
                &&& facility.sequence < u64::MAX
                &&& proved_on(facility, transition)
                &&& ledger.credit_holds.contains_key(transition.hold_id)
                &&& proved_on_hold(ledger.credit_holds[transition.hold_id], transition)
                &&& ledger.note_reservations.contains_key(transition.hold_id)
                &&& escrow.status == HoldStatus::Active
                &&& escrow.escrow_note_id == order.escrow_note_id
                &&& escrow.asset_id == order.asset_id
                &&& escrow.amount_commitment == transition.amount_commitment
                &&& spendable(ledger, order.spend)
                &&& order.spend.ring@.contains(order.escrow_note_id)
                &&& ledger.notes[order.escrow_note_id].lock_id == order.spend.input_lock_id
                &&& outputs_fit(ledger, order.spend)
            }
        }),
{
    let statement = order.seal.statement->Ok_0;
    let released = hold_released(
        ledger,
        order.transition,
        order.release_nullifier,
        order.release_deadline,
        statement,
    );
    let returned = Ledger {
        note_reservations: released.note_reservations.insert(
            order.transition.hold_id,
            NoteReservationRecord {
                status: HoldStatus::Released,
                settlement_digest: statement,
                ..ledger.note_reservations[order.transition.hold_id]
            },
        ),
        ..released
    };
    law_when_an_escrow_spend_is_admitted(ledger, order.spend, order.escrow_note_id);
    if !ledger.note_serials.contains_key(order.spend.serial_point) {
        lemma_spend_carried_out(
            ledger,
            returned,
            order.spend,
            order.release_deadline,
            statement,
        );
    }
}

/// A release ends the hold and the escrow, spends the escrowed note into every one of
/// its outputs, moves the facility, uses up the nullifier, and changes nothing else.
pub proof fn law_what_a_note_release_leaves(
    ledger: Ledger,
    order: ProductNoteReleaseOrder,
    submission: Submission,
    timestamp: u64,
)
    requires
        action_outcome(
            ledger,
            Action::IssueNoteProductRelease { order },
            submission,
            timestamp,
        ).result is Ok,
    ensures
        ({
            let outcome = action_outcome(
                ledger,
                Action::IssueNoteProductRelease { order },
                submission,
                timestamp,
            );
            let after = outcome.ledger;
            let statement = outcome.result->Ok_0;
            let transition = order.transition;
            let record = after.note_reservations[transition.hold_id];
            let before = ledger.note_reservations[transition.hold_id];
            &&& after == (Ledger {
                credit_facilities: ledger.credit_facilities.insert(
                    transition.facility_id,
                    after.credit_facilities[transition.facility_id],
                ),
                credit_holds: ledger.credit_holds.insert(
                    transition.hold_id,
                    after.credit_holds[transition.hold_id],
                ),
                nullifiers: ledger.nullifiers.insert(
                    order.release_nullifier,
                    NullifierRecord { deadline: order.release_deadline, statement },
                ),
                operations: ledger.operations.insert(transition.operation_id, statement),
                notes: after.notes,
                note_serials: after.note_serials,
                note_reservations: ledger.note_reservations.insert(transition.hold_id, record),
                ..ledger
            })
            &&& order.seal.statement == Ok::<Id, String>(statement)
            &&& balances_moved(
                ledger.credit_facilities[transition.facility_id],
                after.credit_facilities[transition.facility_id],
                transition,
            )
            &&& hold_ended(
                ledger.credit_holds[transition.hold_id],
                after.credit_holds[transition.hold_id],
                HoldStatus::Released,
                Id::zero(),
                ledger.credit_facilities[transition.facility_id],
            )
            &&& record.status == HoldStatus::Released
            &&& record.settlement_digest == statement
            &&& before == (NoteReservationRecord {
                status: before.status,
                settlement_digest: before.settlement_digest,
                ..record
            })
            &&& spent_between(
                Ledger {
                    notes: ledger.notes,
                    note_serials: ledger.note_serials,
                    ..after
                },
                after,
                order.spend,
                order.release_deadline,
                statement,
            )
        }),
{
    let statement = order.seal.statement->Ok_0;
    let released = hold_released(
        ledger,
        order.transition,
        order.release_nullifier,
        order.release_deadline,
        statement,
    );
    let returned = Ledger {
        note_reservations: released.note_reservations.insert(
            order.transition.hold_id,
            NoteReservationRecord {
                status: HoldStatus::Released,
                settlement_digest: statement,
                ..ledger.note_reservations[order.transition.hold_id]
            },
        ),
        ..released
    };
    law_a_spend_makes_every_output(returned, order.spend, order.release_deadline, statement);
    let spent = apply_spend_progress(
        returned,
        order.spend,
        order.release_deadline,
        statement,
    ).ledger;
    let after = action_outcome(
        ledger,
        Action::IssueNoteProductRelease { order },
        submission,
        timestamp,
    ).ledger;
    lemma_notes_stay(spent, after, order.spend);
}

} // verus!
