//! What settlements, transitions of facilities and closings of guarantees keep.

use vstd::prelude::*;

use crate::aethel_book::GuaranteeCommitment;
use crate::clearing_book::{ClearingBook, ConfidentialFacility, ConfidentialHold};
use crate::endorsement::{Seal, Submission};
use crate::execution::credit::transition_outcome;
use crate::execution::deccp::{
    facility_record_refusal, hold_transition_refusal, reserve_transition, settled_transition,
    ConfidentialRequest, ConfidentialReservation, FacilityTransition,
};
use crate::execution::evidence::{
    bundle_refusal, evidence_refusal, same_evidence, settle_note_product_batch_outcome,
    settle_note_product_outcome, SettlementFindings,
};
use crate::execution::note_product::{
    claim_progress, claims_progress, note_consume_progress, note_consumed_ledger,
    note_product_outcome, serial_used, spends_progress,
};
use crate::execution::product::{
    consume_progress, consumed_ledger, legs_progress, move_progress, nullified, operated,
    product_outcome,
};
use crate::execution::receivables::{offer_of, transition_of};
use crate::id::Id;
use crate::order::{
    CreditFacilityTransition, EscrowClaimSpend, NoteClaim, ProductNoteSettlementOrder,
    ProductSettlementBatch, ProductSettlementOrder, ReservationConsumption, StateLeg,
};
use crate::state::{HoldStatus, Ledger};

verus! {

/// Whether a reservation against an account is consumed, with its hold.
pub open spec fn reservation_consumed(ledger: Ledger, hold_id: Id) -> bool {
    &&& ledger.credit_holds.contains_key(hold_id)
    &&& ledger.credit_holds[hold_id].status == HoldStatus::Consumed
    &&& ledger.reservation_escrows.contains_key(hold_id)
    &&& ledger.reservation_escrows[hold_id].status == HoldStatus::Consumed
}

/// Moving accounts changes nothing else.
proof fn lemma_legs_keep(ledger: Ledger, legs: Seq<StateLeg>, from: nat)
    ensures
        ({
            let after = legs_progress(ledger, legs, from).ledger;
            after == (Ledger { accounts: after.accounts, ..ledger })
        }),
    decreases legs.len() - from,
{
    if from < legs.len() {
        let leg = legs[from as int];
        let step = move_progress(
            ledger,
            leg.handle,
            leg.after_commitment,
            "account sequence overflow"@,
        );
        if step.refusal is None {
            lemma_legs_keep(step.ledger, legs, from + 1);
        }
    }
}

proof fn lemma_all_consumed(
    before: Ledger,
    ledger: Ledger,
    reservations: Seq<ReservationConsumption>,
    statement: Id,
    from: nat,
    hold_id: Id,
)
    requires
        consume_progress(before, ledger, reservations, statement, from).refusal is None,
        reservation_consumed(ledger, hold_id) || exists|i: int|
            from <= i < reservations.len() && (#[trigger] reservations[i]).transition.hold_id
                == hold_id,
    ensures
        reservation_consumed(
            consume_progress(before, ledger, reservations, statement, from).ledger,
            hold_id,
        ),
    decreases reservations.len() - from,
{
    if from < reservations.len() {
        let next = consumed_ledger(before, ledger, reservations[from as int], statement);
        assert(reservation_consumed(next, hold_id) || exists|i: int|
            from + 1 <= i < reservations.len() && (#[trigger] reservations[i]).transition.hold_id
                == hold_id);
        lemma_all_consumed(before, next, reservations, statement, from + 1, hold_id);
    }
}

/// A settlement that is carried out consumes all its reservations, the maker's
/// and the taker's, and uses its payment nullifier and its request.
pub proof fn law_settlement_consumes_every_reservation(
    ledger: Ledger,
    order: ProductSettlementOrder,
    timestamp: u64,
)
    requires
        product_outcome(ledger, order, timestamp).result is Ok,
    ensures
        ({
            let after = product_outcome(ledger, order, timestamp).ledger;
            &&& forall|i: int|
                0 <= i < order.reservations@.len() ==> reservation_consumed(
                    after,
                    (#[trigger] order.reservations@[i]).transition.hold_id,
                )
            &&& after.nullifiers.contains_key(order.settlement.nullifier)
            &&& after.rfq_nullifiers.contains_key(order.terms.rfq_nullifier)
        }),
{
    let statement = order.seal.statement->Ok_0;
    let consumed = consume_progress(ledger, ledger, order.reservations@, statement, 0);
    let used = nullified(
        consumed.ledger,
        order.settlement.nullifier,
        order.settlement.deadline,
        order.terms.rfq_nullifier,
        statement,
    );
    lemma_legs_keep(used, order.settlement.legs@, 0);
    let after = product_outcome(ledger, order, timestamp).ledger;
    assert forall|i: int| 0 <= i < order.reservations@.len() implies reservation_consumed(
        after,
        (#[trigger] order.reservations@[i]).transition.hold_id,
    ) by {
        lemma_all_consumed(
            ledger,
            ledger,
            order.reservations@,
            statement,
            0,
            order.reservations@[i].transition.hold_id,
        );
    }
}

/// Whether a reservation against a note is consumed, with its hold.
pub open spec fn note_reservation_consumed(ledger: Ledger, hold_id: Id) -> bool {
    &&& ledger.credit_holds.contains_key(hold_id)
    &&& ledger.credit_holds[hold_id].status == HoldStatus::Consumed
    &&& ledger.note_reservations.contains_key(hold_id)
    &&& ledger.note_reservations[hold_id].status == HoldStatus::Consumed
}

proof fn lemma_all_notes_consumed(
    before: Ledger,
    ledger: Ledger,
    reservations: Seq<ReservationConsumption>,
    statement: Id,
    from: nat,
    hold_id: Id,
)
    requires
        note_consume_progress(before, ledger, reservations, statement, from).refusal is None,
        note_reservation_consumed(ledger, hold_id) || exists|i: int|
            from <= i < reservations.len() && (#[trigger] reservations[i]).transition.hold_id
                == hold_id,
    ensures
        note_reservation_consumed(
            note_consume_progress(before, ledger, reservations, statement, from).ledger,
            hold_id,
        ),
    decreases reservations.len() - from,
{
    if from < reservations.len() {
        let next = note_consumed_ledger(before, ledger, reservations[from as int], statement);
        assert(note_reservation_consumed(next, hold_id) || exists|i: int|
            from + 1 <= i < reservations.len() && (#[trigger] reservations[i]).transition.hold_id
                == hold_id);
        lemma_all_notes_consumed(before, next, reservations, statement, from + 1, hold_id);
    }
}

proof fn lemma_claims_keep(ledger: Ledger, claims: Seq<NoteClaim>, statement: Id, from: nat)
    ensures
        ({
            let after = claims_progress(ledger, claims, statement, from).ledger;
            after == (Ledger { note_claims: after.note_claims, ..ledger })
        }),
    decreases claims.len() - from,
{
    if from < claims.len() {
        let step = claim_progress(ledger, claims[from as int], statement);
        if step.refusal is None {
            lemma_claims_keep(step.ledger, claims, statement, from + 1);
        }
    }
}

proof fn lemma_spends_keep(
    ledger: Ledger,
    spends: Seq<EscrowClaimSpend>,
    deadline: u64,
    statement: Id,
    from: nat,
)
    ensures
        ({
            let progress = spends_progress(ledger, spends, deadline, statement, from);
            let after = progress.ledger;
            &&& after == (Ledger {
                note_claims: after.note_claims,
                note_serials: after.note_serials,
                ..ledger
            })
            &&& forall|serial: Id| #[trigger]
                ledger.note_serials.contains_key(serial) ==> after.note_serials.contains_key(
                    serial,
                )
            &&& progress.refusal is None ==> forall|i: int|
                from <= i < spends.len() ==> after.note_serials.contains_key(
                    (#[trigger] spends[i]).serial,
                )
        }),
    decreases spends.len() - from,
{
    if from < spends.len() {
        let spend = spends[from as int];
        let used = serial_used(ledger, spend, deadline, statement);
        let step = claims_progress(used, spend.claims@, statement, 0);
        lemma_claims_keep(used, spend.claims@, statement, 0);
        assert(used.note_serials.contains_key(spend.serial));
        assert(step.ledger.note_serials == used.note_serials);
        if step.refusal is None {
            lemma_spends_keep(step.ledger, spends, deadline, statement, from + 1);
            let after = spends_progress(ledger, spends, deadline, statement, from).ledger;
            assert(step.ledger.note_serials.contains_key(spend.serial));
            assert forall|serial: Id| #[trigger]
                ledger.note_serials.contains_key(serial) implies after.note_serials.contains_key(
                serial,
            ) by {
                assert(step.ledger.note_serials.contains_key(serial));
            }
        }
    }
}

/// A settlement between notes that is carried out consumes all its
/// reservations, spends every escrowed note, and uses its payment nullifier and
/// its request.
pub proof fn law_note_settlement_consumes_every_reservation(
    ledger: Ledger,
    order: ProductNoteSettlementOrder,
    timestamp: u64,
)
    requires
        note_product_outcome(ledger, order, timestamp).result is Ok,
    ensures
        ({
            let after = note_product_outcome(ledger, order, timestamp).ledger;
            &&& forall|i: int|
                0 <= i < order.reservations@.len() ==> note_reservation_consumed(
                    after,
                    (#[trigger] order.reservations@[i]).transition.hold_id,
                )
            &&& forall|i: int|
                0 <= i < order.settlement.spends@.len() ==> after.note_serials.contains_key(
                    (#[trigger] order.settlement.spends@[i]).serial,
                )
            &&& after.nullifiers.contains_key(order.settlement.nullifier)
            &&& after.rfq_nullifiers.contains_key(order.terms.rfq_nullifier)
        }),
{
    let settlement = order.settlement;
    let statement = order.seal.statement->Ok_0;
    let consumed = note_consume_progress(ledger, ledger, order.reservations@, statement, 0);
    let used = nullified(
        consumed.ledger,
        settlement.nullifier,
        settlement.deadline,
        order.terms.rfq_nullifier,
        statement,
    );
    let recorded = operated(used, settlement.operation_id, statement);
    lemma_spends_keep(recorded, settlement.spends@, settlement.deadline, statement, 0);
    let after = note_product_outcome(ledger, order, timestamp).ledger;
    assert forall|i: int| 0 <= i < order.reservations@.len() implies note_reservation_consumed(
        after,
        (#[trigger] order.reservations@[i]).transition.hold_id,
    ) by {
        lemma_all_notes_consumed(
            ledger,
            ledger,
            order.reservations@,
            statement,
            0,
            order.reservations@[i].transition.hold_id,
        );
    }
}

/// Of two transitions proved against one state of a facility only one is carried
/// out: after the first, the second is refused and nothing changes.
pub proof fn law_one_transition_for_each_sequence(
    ledger: Ledger,
    taken: CreditFacilityTransition,
    taken_seal: Seal,
    first: Submission,
    at: u64,
    other: CreditFacilityTransition,
    other_seal: Seal,
    second: Submission,
    later: u64,
)
    requires
        transition_outcome(ledger, taken, taken_seal, first, at).result is Ok,
        other.facility_id == taken.facility_id,
        other.before_sequence == taken.before_sequence,
    ensures
        ({
            let after = transition_outcome(ledger, taken, taken_seal, first, at).ledger;
            let outcome = transition_outcome(after, other, other_seal, second, later);
            &&& outcome.result is Err
            &&& outcome.ledger == after
        }),
{
}

/// The reservation that a guarantee asks of the clearing book is the one that
/// the records attest, where its hold is live on the described facility.
pub proof fn law_offers_are_attested(
    ledger: Ledger,
    book: ClearingBook,
    guarantee: GuaranteeCommitment,
    facility: ConfidentialFacility,
)
    requires
        facility_record_refusal(ledger, facility) is None,
        facility.defmi_facility_id == guarantee.defmi_facility_id,
        ledger.credit_holds.contains_key(guarantee.defmi_hold_id),
        ({
            let hold = ledger.credit_holds[guarantee.defmi_hold_id];
            &&& hold.facility_id == guarantee.defmi_facility_id
            &&& hold.amount_commitment == guarantee.coverage_commitment
            &&& hold.status == HoldStatus::Active
            &&& hold.settlement_digest == Id::zero()
        }),
    ensures
        ({
            let offer = offer_of(ledger, book, guarantee);
            hold_transition_refusal(
                ledger,
                facility,
                reserve_transition(
                    ConfidentialReservation {
                        defmi_hold_id: offer.defmi_hold_id,
                        coverage_commitment: offer.coverage_commitment,
                        expected_facility_state_digest: offer.deccp_expected_state_digest,
                        after_facility_state_digest: offer.deccp_after_state_digest,
                        valid_until: offer.valid_until,
                    },
                ),
            ) is None
        }),
{
}

/// The release or claim that a guarantee asks of the clearing book is the one
/// that the records attest, where its hold was closed so by the settlement.
pub proof fn law_closings_are_attested(
    ledger: Ledger,
    guarantee: GuaranteeCommitment,
    facility: ConfidentialFacility,
    hold: ConfidentialHold,
    kind: FacilityTransition,
    status: HoldStatus,
    operation_id: Id,
    proof_digest: Id,
    settlement_digest: Id,
    timestamp: u64,
)
    requires
        kind == FacilityTransition::Release || kind == FacilityTransition::Claim,
        facility_record_refusal(ledger, facility) is None,
        facility.defmi_facility_id == guarantee.defmi_facility_id,
        hold.defmi_hold_id == guarantee.defmi_hold_id,
        hold.coverage_commitment == guarantee.coverage_commitment,
        ledger.credit_holds.contains_key(guarantee.defmi_hold_id),
        ({
            let record = ledger.credit_holds[guarantee.defmi_hold_id];
            &&& record.facility_id == guarantee.defmi_facility_id
            &&& record.amount_commitment == guarantee.coverage_commitment
            &&& record.status == status
            &&& record.settlement_digest == settlement_digest
        }),
    ensures
        ({
            let asked = transition_of(
                facility,
                kind,
                guarantee,
                ledger.credit_holds[guarantee.defmi_hold_id].updated_sequence,
                operation_id,
                proof_digest,
                settlement_digest,
                timestamp,
            );
            hold_transition_refusal(
                ledger,
                facility,
                settled_transition(
                    kind,
                    status,
                    hold,
                    ConfidentialRequest {
                        expected_facility_state_digest: asked.deccp_expected_state_digest,
                        after_facility_state_digest: asked.deccp_after_state_digest,
                        receipt: asked.receipt,
                    },
                ),
            ) is None
        }),
{
}

/// Whether every verdict on the evidence of a settlement is positive: on the
/// encoding, the typed instruction and its authorization, the quote, the
/// execution, the price limit, the delivery against payment and the asset link.
pub open spec fn verdicts_positive(findings: SettlementFindings) -> bool {
    &&& findings.encoding is Ok
    &&& findings.typed is Ok
    &&& findings.typed->Ok_0.package_valid
    &&& findings.typed->Ok_0.payment is Ok
    &&& findings.typed->Ok_0.typed_digest is Ok
    &&& findings.typed->Ok_0.authorized
    &&& findings.quote is Ok
    &&& findings.quote->Ok_0.verified is Ok
    &&& findings.execution is Ok
    &&& findings.quote_context is Ok
    &&& findings.price_limit is Ok
    &&& findings.dvp is Ok
    &&& findings.asset_linked
}

/// Evidence with one negative verdict supports no settlement, whatever the other
/// verdicts are.
pub proof fn law_one_negative_verdict_is_enough(
    ledger: Ledger,
    findings: SettlementFindings,
    order: ProductNoteSettlementOrder,
    root: Id,
    timestamp: u64,
)
    requires
        !verdicts_positive(findings),
    ensures
        evidence_refusal(ledger, findings, order, root, timestamp) is Some,
{
}

/// A settlement whose evidence got one negative verdict is refused, and nothing
/// changes, whoever approves it.
pub proof fn law_no_approval_stands_in_for_a_proof(
    ledger: Ledger,
    order: ProductNoteSettlementOrder,
    findings: SettlementFindings,
    submission: Submission,
    timestamp: u64,
)
    requires
        !verdicts_positive(findings),
    ensures
        ({
            let outcome = settle_note_product_outcome(
                ledger,
                order,
                findings,
                submission,
                timestamp,
            );
            outcome.result is Err && outcome.ledger == ledger
        }),
{
    law_one_negative_verdict_is_enough(
        ledger,
        findings,
        order,
        submission.before_root,
        timestamp,
    );
}

proof fn lemma_bundle_refused(
    ledger: Ledger,
    findings: Seq<SettlementFindings>,
    orders: Seq<ProductNoteSettlementOrder>,
    root: Id,
    timestamp: u64,
    from: nat,
    at: int,
)
    requires
        from <= at < findings.len(),
        findings.len() == orders.len(),
        !verdicts_positive(findings[at]),
    ensures
        bundle_refusal(ledger, findings, orders, root, timestamp, from) is Some,
    decreases at - from,
{
    if from == at {
        law_one_negative_verdict_is_enough(ledger, findings[at], orders[at], root, timestamp);
    } else {
        lemma_bundle_refused(ledger, findings, orders, root, timestamp, from + 1, at);
    }
}

/// A batch of settlements is refused, and nothing changes, where the evidence of
/// one of them got one negative verdict.
pub proof fn law_one_negative_verdict_refuses_the_batch(
    ledger: Ledger,
    batch: ProductSettlementBatch,
    orders: Seq<ProductNoteSettlementOrder>,
    findings: Seq<SettlementFindings>,
    submission: Submission,
    timestamp: u64,
    at: int,
)
    requires
        0 <= at < findings.len(),
        !verdicts_positive(findings[at]),
    ensures
        ({
            let outcome = settle_note_product_batch_outcome(
                ledger,
                batch,
                orders,
                findings,
                submission,
                timestamp,
            );
            outcome.result is Err && outcome.ledger == ledger
        }),
{
    if findings.len() == orders.len() {
        lemma_bundle_refused(
            ledger,
            findings,
            orders,
            submission.before_root,
            timestamp,
            0,
            at,
        );
    }
}

/// Verdicts on other evidence than what was submitted support no settlement.
pub proof fn law_verdicts_are_on_the_submitted_evidence(
    ledger: Ledger,
    findings: SettlementFindings,
    order: ProductNoteSettlementOrder,
    root: Id,
    timestamp: u64,
)
    requires
        !same_evidence(findings.evidence, findings.checks.evidence),
    ensures
        evidence_refusal(ledger, findings, order, root, timestamp) is Some,
{
}

/// An order settles on one set of proofs: where evidence supports it, evidence
/// whose quote, price limit, delivery against payment or asset link has another
/// digest does not, whatever the verdicts on it.
pub proof fn law_an_order_settles_on_one_set_of_proofs(
    ledger: Ledger,
    findings: SettlementFindings,
    changed: SettlementFindings,
    order: ProductNoteSettlementOrder,
    root: Id,
    timestamp: u64,
)
    requires
        evidence_refusal(ledger, findings, order, root, timestamp) is None,
        ({
            ||| changed.price_limit is Ok && changed.price_limit->Ok_0
                != findings.price_limit->Ok_0
            ||| changed.dvp is Ok && changed.dvp->Ok_0.digest != findings.dvp->Ok_0.digest
            ||| changed.asset_link_digest != findings.asset_link_digest
            ||| changed.quote is Ok && changed.quote->Ok_0.verified is Ok
                && changed.quote->Ok_0.verified->Ok_0 != findings.quote->Ok_0.verified->Ok_0
        }),
    ensures
        evidence_refusal(ledger, changed, order, root, timestamp) is Some,
{
}

} // verus!
