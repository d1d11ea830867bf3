//! Lanes of an admission batch are consumed in order, without a gap.

use vstd::prelude::*;

use crate::endorsement::Submission;
use crate::execution::admission::{
    advance_outcome, lanes_registered, register_batch_outcome, SubmittedLane,
};
use crate::execution::application_reservation::hold_placed;
use crate::execution::application_settlement::{
    fill_outcome, fills_progress, lemma_inserted_claims_keep, side_progress, ApplicationNoteFill,
    ApplicationSpendHead, VerifiedSide,
};
use crate::execution::evidence::note_orders_progress;
use crate::execution::laws::{law_books_are_kept_apart, on_applications, on_books};
use crate::execution::note_product::{
    claim_progress, claims_progress, note_consume_progress, note_consumed_ledger,
    note_product_outcome, serial_used, spends_progress,
};
use crate::execution::notes::{apply_spend_progress, apply_spends_progress, settled};
use crate::execution::product::{
    consume_progress, consumed_ledger, legs_progress, move_progress, nullified, operated,
    orders_progress, product_outcome,
};
use crate::execution::reservation::{
    hold_opened, hold_released, lemma_spend_keeps_admission, reserve_note_product_outcome,
    reserve_product_outcome,
};
use crate::execution::{action_outcome, Action};
use crate::id::Id;
use crate::order::{
    AdmissionBatchPlan, AdmissionSlotAdvance, EscrowClaimSpend, NoteClaim, NoteProductReservation,
    NoteSpend, ProductNoteSettlementOrder, ProductReservation, ProductSettlementOrder,
    ReservationConsumption, StateLeg,
};
use crate::state::{
    AdmissionBatchRecord, AdmissionEntryRecord, ApplicationReservationRecord, HoldStatus, Ledger,
    NoteReservationRecord, NullifierRecord, ReservationRole,
};
use crate::table::Numbered;

verus! {

/// Whether every lane belongs to a batch, and the consumed lanes of a batch are
/// its first ones.
pub open spec fn lanes_in_order(ledger: Ledger) -> bool {
    forall|key: Numbered| #[trigger]
        ledger.admission_entries.contains_key(key) ==> {
            &&& ledger.admission_batches.contains_key(key.scope)
            &&& (ledger.admission_entries[key].consumed_by != Id::zero()) == (key.number
                <= ledger.admission_batches[key.scope].consumed)
        }
}

/// The skipping of a lane consumes exactly the next lane of its batch, and no
/// other lane or batch changes.
pub proof fn law_advance_consumes_the_next_lane(
    ledger: Ledger,
    advance: AdmissionSlotAdvance,
    submission: Submission,
    timestamp: u64,
)
    requires
        advance_outcome(ledger, advance, submission, timestamp).result is Ok,
    ensures
        ({
            let after = advance_outcome(ledger, advance, submission, timestamp).ledger;
            let lane = Numbered { scope: advance.batch_id, number: advance.sequence };
            let batch = ledger.admission_batches[advance.batch_id];
            &&& advance.sequence == batch.consumed + 1
            &&& advance.sequence <= batch.population
            &&& after.admission_batches[advance.batch_id].consumed == advance.sequence
            &&& after.admission_entries[lane].consumed_by == advance.operation_id
            &&& forall|key: Numbered|
                key != lane && #[trigger] ledger.admission_entries.contains_key(key)
                    ==> after.admission_entries[key] == ledger.admission_entries[key]
            &&& forall|id: Id|
                id != advance.batch_id && #[trigger] ledger.admission_batches.contains_key(id)
                    ==> after.admission_batches[id] == ledger.admission_batches[id]
        }),
{
}

/// The reservation of a taker consumes exactly the next lane of its batch.
pub proof fn law_reservation_consumes_the_next_lane(
    ledger: Ledger,
    request: ProductReservation,
    submission: Submission,
    timestamp: u64,
)
    requires
        reserve_product_outcome(ledger, request, submission, timestamp).result is Ok,
        request.authorization.role == ReservationRole::Taker,
    ensures
        ({
            let after = reserve_product_outcome(ledger, request, submission, timestamp).ledger;
            let batch_id = request.authorization.admission_batch_id;
            let sequence = request.authorization.admission_sequence;
            let lane = Numbered { scope: batch_id, number: sequence };
            &&& sequence == ledger.admission_batches[batch_id].consumed + 1
            &&& after.admission_batches[batch_id].consumed == sequence
            &&& after.admission_entries[lane].consumed_by == request.transition.operation_id
        }),
{
}

/// The anonymous reservation of a taker consumes exactly the next lane of its
/// batch.
pub proof fn law_note_reservation_consumes_the_next_lane(
    ledger: Ledger,
    request: NoteProductReservation,
    submission: Submission,
    timestamp: u64,
)
    requires
        reserve_note_product_outcome(ledger, request, submission, timestamp).result is Ok,
        request.authorization.role == ReservationRole::Taker,
    ensures
        ({
            let after = reserve_note_product_outcome(
                ledger,
                request,
                submission,
                timestamp,
            ).ledger;
            let batch_id = request.authorization.admission_batch_id;
            let sequence = request.authorization.admission_sequence;
            let lane = Numbered { scope: batch_id, number: sequence };
            &&& sequence == ledger.admission_batches[batch_id].consumed + 1
            &&& after.admission_batches[batch_id].consumed == sequence
            &&& after.admission_entries[lane].consumed_by == request.transition.operation_id
        }),
{
    let statement = request.statement->Ok_0;
    let opened = hold_opened(ledger, request.transition, request.authorization, statement);
    lemma_spend_keeps_admission(
        opened,
        request.escrow.spend,
        request.transition.expires_at,
        statement,
    );
}

/// Whether two ledgers have the same batches and lanes.
spec fn same_lanes(left: Ledger, right: Ledger) -> bool {
    &&& left.admission_batches == right.admission_batches
    &&& left.admission_entries == right.admission_entries
}

proof fn lemma_legs(ledger: Ledger, legs: Seq<StateLeg>, from: nat)
    ensures
        same_lanes(ledger, legs_progress(ledger, legs, from).ledger),
    decreases legs.len() - from,
{
    if from < legs.len() {
        let leg = legs[from as int];
        let step = move_progress(
            ledger,
            leg.handle,
            leg.after_commitment,
            "account sequence overflow"@,
        );
        if step.refusal is None {
            lemma_legs(step.ledger, legs, from + 1);
        }
    }
}

proof fn lemma_consume(
    before: Ledger,
    ledger: Ledger,
    reservations: Seq<ReservationConsumption>,
    statement: Id,
    from: nat,
)
    ensures
        same_lanes(
            ledger,
            consume_progress(before, ledger, reservations, statement, from).ledger,
        ),
    decreases reservations.len() - from,
{
    if from < reservations.len() {
        let next = consumed_ledger(before, ledger, reservations[from as int], statement);
        lemma_consume(before, next, reservations, statement, from + 1);
    }
}

proof fn lemma_note_consume(
    before: Ledger,
    ledger: Ledger,
    reservations: Seq<ReservationConsumption>,
    statement: Id,
    from: nat,
)
    ensures
        same_lanes(
            ledger,
            note_consume_progress(before, ledger, reservations, statement, from).ledger,
        ),
    decreases reservations.len() - from,
{
    if from < reservations.len() {
        let next = note_consumed_ledger(before, ledger, reservations[from as int], statement);
        lemma_note_consume(before, next, reservations, statement, from + 1);
    }
}

proof fn lemma_claims(ledger: Ledger, claims: Seq<NoteClaim>, statement: Id, from: nat)
    ensures
        same_lanes(ledger, claims_progress(ledger, claims, statement, from).ledger),
    decreases claims.len() - from,
{
    if from < claims.len() {
        let step = claim_progress(ledger, claims[from as int], statement);
        if step.refusal is None {
            lemma_claims(step.ledger, claims, statement, from + 1);
        }
    }
}

proof fn lemma_escrow_spends(
    ledger: Ledger,
    spends: Seq<EscrowClaimSpend>,
    deadline: u64,
    statement: Id,
    from: nat,
)
    ensures
        same_lanes(ledger, spends_progress(ledger, spends, deadline, statement, from).ledger),
    decreases spends.len() - from,
{
    if from < spends.len() {
        let spend = spends[from as int];
        let used = serial_used(ledger, spend, deadline, statement);
        lemma_claims(used, spend.claims@, statement, 0);
        let step = claims_progress(used, spend.claims@, statement, 0);
        if step.refusal is None {
            lemma_escrow_spends(step.ledger, spends, deadline, statement, from + 1);
        }
    }
}

proof fn lemma_note_spends(
    ledger: Ledger,
    spends: Seq<NoteSpend>,
    deadline: u64,
    statement: Id,
    from: nat,
)
    ensures
        same_lanes(
            ledger,
            apply_spends_progress(ledger, spends, deadline, statement, from).ledger,
        ),
    decreases spends.len() - from,
{
    if from < spends.len() {
        lemma_spend_keeps_admission(ledger, spends[from as int], deadline, statement);
        let step = apply_spend_progress(ledger, spends[from as int], deadline, statement);
        if step.refusal is None {
            lemma_note_spends(step.ledger, spends, deadline, statement, from + 1);
        }
    }
}

proof fn lemma_product(ledger: Ledger, order: ProductSettlementOrder, timestamp: u64)
    ensures
        same_lanes(ledger, product_outcome(ledger, order, timestamp).ledger),
{
    let statement = order.seal.statement->Ok_0;
    lemma_consume(ledger, ledger, order.reservations@, statement, 0);
    let consumed = consume_progress(ledger, ledger, order.reservations@, statement, 0);
    let used = nullified(
        consumed.ledger,
        order.settlement.nullifier,
        order.settlement.deadline,
        order.terms.rfq_nullifier,
        statement,
    );
    lemma_legs(used, order.settlement.legs@, 0);
}

proof fn lemma_orders(
    ledger: Ledger,
    orders: Seq<ProductSettlementOrder>,
    timestamp: u64,
    from: nat,
)
    ensures
        same_lanes(ledger, orders_progress(ledger, orders, timestamp, from).ledger),
    decreases orders.len() - from,
{
    if from < orders.len() {
        lemma_product(ledger, orders[from as int], timestamp);
        let outcome = product_outcome(ledger, orders[from as int], timestamp);
        if outcome.result is Ok {
            lemma_orders(outcome.ledger, orders, timestamp, from + 1);
        }
    }
}

proof fn lemma_note_product(ledger: Ledger, order: ProductNoteSettlementOrder, timestamp: u64)
    ensures
        same_lanes(ledger, note_product_outcome(ledger, order, timestamp).ledger),
{
    let settlement = order.settlement;
    let statement = order.seal.statement->Ok_0;
    lemma_note_consume(ledger, ledger, order.reservations@, statement, 0);
    let consumed = note_consume_progress(ledger, ledger, order.reservations@, statement, 0);
    let used = nullified(
        consumed.ledger,
        settlement.nullifier,
        settlement.deadline,
        order.terms.rfq_nullifier,
        statement,
    );
    let recorded = operated(used, settlement.operation_id, statement);
    lemma_escrow_spends(recorded, settlement.spends@, settlement.deadline, statement, 0);
}

proof fn lemma_note_orders(
    ledger: Ledger,
    orders: Seq<ProductNoteSettlementOrder>,
    timestamp: u64,
    from: nat,
)
    ensures
        same_lanes(ledger, note_orders_progress(ledger, orders, timestamp, from).ledger),
    decreases orders.len() - from,
{
    if from < orders.len() {
        lemma_note_product(ledger, orders[from as int], timestamp);
        let outcome = note_product_outcome(ledger, orders[from as int], timestamp);
        if outcome.result is Ok {
            lemma_note_orders(outcome.ledger, orders, timestamp, from + 1);
        }
    }
}

proof fn lemma_lanes_registered(ledger: Ledger, batch_id: Id, digests: Seq<Id>, from: nat)
    requires
        digests.len() <= u64::MAX,
        lanes_in_order(ledger),
        ledger.admission_batches.contains_key(batch_id),
        ledger.admission_batches[batch_id].consumed == 0,
    ensures
        lanes_in_order(lanes_registered(ledger, batch_id, digests, from)),
    decreases digests.len() - from,
{
    if from < digests.len() {
        let key = Numbered { scope: batch_id, number: (from + 1) as u64 };
        let entry = AdmissionEntryRecord {
            batch_id,
            sequence: key.number,
            admission_digest: digests[from as int],
            consumed_by: Id::zero(),
        };
        let next = Ledger {
            admission_entries: ledger.admission_entries.insert(key, entry),
            ..ledger
        };
        assert(lanes_in_order(next));
        lemma_lanes_registered(next, batch_id, digests, from + 1);
    }
}

proof fn lemma_register(
    ledger: Ledger,
    plan: AdmissionBatchPlan,
    lanes: Result<Vec<SubmittedLane>, String>,
    submission: Submission,
    timestamp: u64,
)
    requires
        lanes_in_order(ledger),
    ensures
        lanes_in_order(
            register_batch_outcome(ledger, plan, lanes, submission, timestamp).ledger,
        ),
{
    let outcome = register_batch_outcome(ledger, plan, lanes, submission, timestamp);
    if outcome.result is Ok {
        let stored = Ledger {
            admission_batches: ledger.admission_batches.insert(
                plan.batch_id,
                AdmissionBatchRecord {
                    venue_id: plan.venue_id,
                    epoch: plan.epoch,
                    slot: plan.slot,
                    batch_digest: plan.batch_digest,
                    order_digest: plan.order_digest,
                    population: plan.admission_digests@.len() as u64,
                    consumed: 0,
                    expires_at: plan.expires_at,
                    statement: plan.seal.statement->Ok_0,
                },
            ),
            ..ledger
        };
        assert(!ledger.admission_batches.contains_key(plan.batch_id));
        assert(plan.admission_digests.len() == plan.admission_digests@.len());
        assert(lanes_in_order(stored));
        lemma_lanes_registered(stored, plan.batch_id, plan.admission_digests@, 0);
    }
}

/// The operation that consumes a lane in a transaction, if one does.
pub open spec fn consuming_operation(action: Action) -> Option<Id> {
    match action {
        Action::IssueAdmissionAdvance { advance } => Some(advance.operation_id),
        Action::IssueProductReservation { request } => Some(request.transition.operation_id),
        Action::IssueNoteProductReservation { request } => Some(request.transition.operation_id),
        _ => None,
    }
}

/// Every transaction whose operation has a name keeps the consumed lanes of every
/// batch its first ones: no lane is skipped, and none consumed out of turn.
#[verifier::rlimit(60)]
pub proof fn law_lanes_stay_in_order(
    ledger: Ledger,
    action: Action,
    submission: Submission,
    timestamp: u64,
)
    requires
        lanes_in_order(ledger),
        consuming_operation(action) != Some(Id::zero()),
    ensures
        lanes_in_order(action_outcome(ledger, action, submission, timestamp).ledger),
{
    match action {
        Action::IssueAdmissionBatch { plan, lanes } => {
            lemma_register(ledger, plan, lanes, submission, timestamp);
        },
        Action::IssueAdmissionAdvance { advance } => {
            lemma_advance(ledger, advance, submission, timestamp);
        },
        Action::IssueProductReservation { request } => {
            lemma_reserve(ledger, request, submission, timestamp);
        },
        Action::IssueNoteProductReservation { request } => {
            lemma_note_reserve(ledger, request, submission, timestamp);
        },
        _ => {
            if on_books(action) {
                law_books_are_kept_apart(ledger, action, submission, timestamp);
            } else if on_applications(action) {
                lemma_applications(ledger, action, submission, timestamp);
            } else {
                lemma_others(ledger, action, submission, timestamp);
            }
        },
    }
}

proof fn lemma_side(
    ledger: Ledger,
    record: ApplicationReservationRecord,
    side: VerifiedSide,
    head: ApplicationSpendHead,
    asset_id: Id,
    statement: Id,
)
    ensures
        same_lanes(
            ledger,
            side_progress(ledger, record, side, head, asset_id, statement).ledger,
        ),
{
}

proof fn lemma_fill(ledger: Ledger, order: ApplicationNoteFill, parent: Id, now: u64)
    ensures
        same_lanes(ledger, fill_outcome(ledger, order, parent, now).ledger),
{
    let verified = order.verified->Ok_0;
    let statement = verified.statement;
    let securities = side_progress(
        ledger,
        ledger.application_reservations[order.securities.hold_id],
        verified.securities,
        order.securities,
        order.securities_asset,
        statement,
    );
    lemma_side(
        ledger,
        ledger.application_reservations[order.securities.hold_id],
        verified.securities,
        order.securities,
        order.securities_asset,
        statement,
    );
    let cash = side_progress(
        securities.ledger,
        ledger.application_reservations[order.cash.hold_id],
        verified.cash,
        order.cash,
        order.cash_asset,
        statement,
    );
    lemma_side(
        securities.ledger,
        ledger.application_reservations[order.cash.hold_id],
        verified.cash,
        order.cash,
        order.cash_asset,
        statement,
    );
    lemma_inserted_claims_keep(cash.ledger, verified.claims@, statement, 0);
}

proof fn lemma_fills(
    ledger: Ledger,
    fills: Seq<ApplicationNoteFill>,
    parent: Id,
    now: u64,
    from: nat,
)
    ensures
        same_lanes(ledger, fills_progress(ledger, fills, parent, now, from).ledger),
    decreases fills.len() - from,
{
    if from < fills.len() {
        let outcome = fill_outcome(ledger, fills[from as int], parent, now);
        lemma_fill(ledger, fills[from as int], parent, now);
        if outcome.result is Ok {
            lemma_fills(outcome.ledger, fills, parent, now, from + 1);
        }
    }
}

proof fn lemma_applications(
    ledger: Ledger,
    action: Action,
    submission: Submission,
    timestamp: u64,
)
    requires
        on_applications(action),
    ensures
        same_lanes(ledger, action_outcome(ledger, action, submission, timestamp).ledger),
{
    let root = submission.before_root;
    match action {
        Action::IssueApplicationNoteReservation { request } => {
            lemma_spend_keeps_admission(
                hold_placed(ledger, request.transition),
                request.escrow.spend,
                request.transition.expires_at,
                request.seal.statement->Ok_0,
            );
        },
        Action::IssueApplicationNoteFill { order } => {
            lemma_fill(ledger, order, root, timestamp);
        },
        Action::IssueApplicationNoteFillBatch { batch } => {
            lemma_fills(ledger, batch.fills@, root, timestamp, 0);
        },
        _ => {},
    }
}

proof fn lemma_advance(
    ledger: Ledger,
    advance: AdmissionSlotAdvance,
    submission: Submission,
    timestamp: u64,
)
    requires
        lanes_in_order(ledger),
        advance.operation_id != Id::zero(),
    ensures
        lanes_in_order(advance_outcome(ledger, advance, submission, timestamp).ledger),
{
}

proof fn lemma_reserve(
    ledger: Ledger,
    request: ProductReservation,
    submission: Submission,
    timestamp: u64,
)
    requires
        lanes_in_order(ledger),
        request.transition.operation_id != Id::zero(),
    ensures
        lanes_in_order(reserve_product_outcome(ledger, request, submission, timestamp).ledger),
{
}

proof fn lemma_note_reserve(
    ledger: Ledger,
    request: NoteProductReservation,
    submission: Submission,
    timestamp: u64,
)
    requires
        lanes_in_order(ledger),
        request.transition.operation_id != Id::zero(),
    ensures
        lanes_in_order(
            reserve_note_product_outcome(ledger, request, submission, timestamp).ledger,
        ),
{
    let statement = request.statement->Ok_0;
    let opened = hold_opened(ledger, request.transition, request.authorization, statement);
    lemma_spend_keeps_admission(
        opened,
        request.escrow.spend,
        request.transition.expires_at,
        statement,
    );
}

#[verifier::rlimit(60)]
proof fn lemma_others(ledger: Ledger, action: Action, submission: Submission, timestamp: u64)
    requires
        !(action is IssueAdmissionBatch),
        !on_books(action),
        !on_applications(action),
        consuming_operation(action) is None,
    ensures
        same_lanes(ledger, action_outcome(ledger, action, submission, timestamp).ledger),
{
    match action {
        Action::IssueNoteSettlement { order } => {
            let statement = order.seal.statement->Ok_0;
            let used = settled(
                ledger,
                order.nullifier,
                order.deadline,
                order.operation_id,
                statement,
            );
            lemma_note_spends(used, order.spends@, order.deadline, statement, 0);
        },
        Action::IssueNoteProductRelease { order } => {
            let statement = order.seal.statement->Ok_0;
            let released = hold_released(
                ledger,
                order.transition,
                order.release_nullifier,
                order.release_deadline,
                statement,
            );
            let returned = Ledger {
                note_reservations: released.note_reservations.insert(
                    order.transition.hold_id,
                    NoteReservationRecord {
                        status: HoldStatus::Released,
                        settlement_digest: statement,
                        ..ledger.note_reservations[order.transition.hold_id]
                    },
                ),
                ..released
            };
            lemma_spend_keeps_admission(returned, order.spend, order.release_deadline, statement);
        },
        Action::IssueProductSettlement { order } => {
            lemma_product(ledger, order, timestamp);
        },
        Action::IssueProductSettlementBatch { batch, orders } => {
            lemma_orders(ledger, orders@, timestamp, 0);
        },
        Action::IssueNoteProductSettlement { order, findings } => {
            lemma_note_product(ledger, order, timestamp);
        },
        Action::IssueNoteProductSettlementBatch { batch, orders, findings } => {
            lemma_note_orders(ledger, orders@, timestamp, 0);
        },
        Action::IssueSettlement { order } => {
            let statement = order.seal.statement->Ok_0;
            let used = Ledger {
                nullifiers: ledger.nullifiers.insert(
                    order.nullifier,
                    NullifierRecord { deadline: order.deadline, statement },
                ),
                ..ledger
            };
            lemma_legs(used, order.legs@, 0);
        },
        _ => {},
    }
}

} // verus!
