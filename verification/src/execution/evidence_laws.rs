//! What the evidence of a trade between notes must show.

use vstd::prelude::*;

use crate::crypto::{ed25519_key, ristretto_point, sha256};
use crate::execution::evidence::{
    checks_are, checks_refusal, evidence_refusal, reservation_of, PriceLimitDirection,
    SettlementFindings, TradeDirection,
};
use crate::id::Id;
use crate::order::{ProductNoteSettlementOrder, ReservationConsumption};
use crate::state::{Ledger, ReservationRole};
use crate::table::Numbered;

verus! {

/// Whether the reservation at a position is the first of a role.
pub open spec fn first_of_role(
    reservations: Seq<ReservationConsumption>,
    role: ReservationRole,
    at: int,
) -> bool {
    &&& 0 <= at < reservations.len()
    &&& reservations[at].role == role
    &&& forall|i: int| 0 <= i < at ==> (#[trigger] reservations[i]).role != role
}

proof fn lemma_first_of_role(
    reservations: Seq<ReservationConsumption>,
    role: ReservationRole,
    from: nat,
    at: int,
)
    requires
        first_of_role(reservations, role, at),
        from <= at,
    ensures
        reservation_of(reservations, role, from) == Some(reservations[at]),
    decreases at - from,
{
    if from < at {
        lemma_first_of_role(reservations, role, from + 1, at);
    }
}

proof fn lemma_none_of_role(
    reservations: Seq<ReservationConsumption>,
    role: ReservationRole,
    from: nat,
)
    requires
        forall|i: int| from <= i < reservations.len() ==> (#[trigger] reservations[i]).role != role,
    ensures
        reservation_of(reservations, role, from) is None,
    decreases reservations.len() - from,
{
    if from < reservations.len() {
        lemma_none_of_role(reservations, role, from + 1);
    }
}

/// Whether the instruction of the parties was authorized and is that of the order:
/// its bytes have the digest that the order names, and every party, proof, root,
/// reservation, amount, payment and deadline in it is the order's.
pub open spec fn instruction_stands(
    findings: SettlementFindings,
    order: ProductNoteSettlementOrder,
    root: Id,
    maker: ReservationConsumption,
    taker: ReservationConsumption,
) -> bool {
    let typed = findings.typed->Ok_0;
    let terms = order.terms;
    &&& findings.typed is Ok
    &&& terms.typed_instruction_digest.0 == sha256(findings.evidence.typed_instruction@)
    &&& order.settlement.payment_instruction_digest == terms.typed_instruction_digest
    &&& typed.package_valid
    &&& typed.payment is Ok
    &&& typed.typed_digest is Ok
    &&& typed.authorized
    &&& typed.venue_id == terms.venue_id
    &&& typed.defmi_id == terms.defmi_id
    &&& typed.rfq_nullifier == terms.rfq_nullifier
    &&& typed.taker_mandate_digest == terms.taker_mandate_digest
    &&& typed.taker_mandate_digest == terms.taker_authorization_digest
    &&& typed.maker_policy_digest == terms.maker_policy_digest
    &&& typed.maker_mandate_digest == terms.maker_mandate_digest
    &&& typed.quote_proof_digest == terms.quote_proof_digest
    &&& typed.payment_quote_digest == Some(terms.quote_proof_digest)
    &&& typed.market_statement_digest == order.settlement.market_statement_digest
    &&& typed.before_state_root == root
    &&& typed.maker_reservation_id == maker.transition.hold_id
    &&& typed.maker_reservation_sequence == maker.transition.before_sequence
    &&& typed.maker_reserve_receipt_digest == maker.reserve_receipt_digest
    &&& typed.taker_reservation_id == taker.transition.hold_id
    &&& typed.taker_reservation_sequence == taker.transition.before_sequence
    &&& typed.taker_reserve_receipt_digest == taker.reserve_receipt_digest
    &&& typed.amount_commitment == terms.quantity_commitment
    &&& typed.payment_nullifier == order.settlement.nullifier
    &&& typed.payment_deadline == order.settlement.deadline
    &&& typed.threshold_ranges
}

/// Whether the quote was proved by the pinned circuit, won by the maker's policy, on
/// the market and the lane of the order, and is neither stale nor dated ahead.
pub open spec fn quote_stands(
    ledger: Ledger,
    findings: SettlementFindings,
    order: ProductNoteSettlementOrder,
    timestamp: u64,
) -> bool {
    let verifier = ledger.settlement_verifiers[findings.verifier_key];
    let quote = findings.quote->Ok_0;
    &&& findings.quote is Ok
    &&& quote.verified == Ok::<Id, String>(order.terms.quote_proof_digest)
    &&& quote.eligibility_bits == verifier.quote_eligibility_bits
    &&& quote.span_bits == verifier.quote_span_bits
    &&& quote.registry_digest == verifier.quote_registry_digest
    &&& quote.winning_policy_digest == Some(order.terms.maker_policy_digest)
    &&& quote.market_digest == order.settlement.market_statement_digest
    &&& quote.slot == order.terms.admission_sequence
    &&& 0 <= quote.now <= timestamp
    &&& timestamp <= quote.now + verifier.max_horizon
}

/// Whether the reservations, the quote and the instruction are for one direction and
/// one quantity: direction one where the taker buys, and two where the taker sells.
pub open spec fn direction_stands(
    ledger: Ledger,
    findings: SettlementFindings,
    maker: ReservationConsumption,
    taker: ReservationConsumption,
) -> bool {
    let typed = findings.typed->Ok_0;
    let quote = findings.quote->Ok_0;
    let maker_binding = ledger.reservation_bindings[maker.transition.hold_id];
    let taker_binding = ledger.reservation_bindings[taker.transition.hold_id];
    &&& ledger.reservation_bindings.contains_key(maker.transition.hold_id)
    &&& ledger.reservation_bindings.contains_key(taker.transition.hold_id)
    &&& maker_binding.role == ReservationRole::Maker
    &&& taker_binding.role == ReservationRole::Taker
    &&& maker_binding.direction == taker_binding.direction
    &&& typed.direction == TradeDirection::TakerBuys ==> taker_binding.direction == 1
        && quote.direction == 0
    &&& typed.direction == TradeDirection::TakerSells ==> taker_binding.direction == 2
        && quote.direction == 1
    &&& quote.qty_commitment == typed.amount_commitment
}

/// Whether the resident committee executed the admitted lane of the order and the
/// quote carries the context of that execution.
pub open spec fn execution_stands(
    ledger: Ledger,
    findings: SettlementFindings,
    order: ProductNoteSettlementOrder,
    batch_id: Id,
) -> bool {
    let batch = ledger.admission_batches[batch_id];
    let key = Numbered { scope: batch.venue_id, number: batch.epoch };
    let node_keys = ledger.admission_committees[key].node_keys@;
    let execution = findings.execution->Ok_0;
    &&& ledger.admission_batches.contains_key(batch_id)
    &&& batch.venue_id == order.terms.venue_id
    &&& batch.epoch == order.terms.admission_epoch
    &&& ledger.admission_committees.contains_key(key)
    &&& forall|i: int|
        0 <= i < node_keys.len() ==> ed25519_key((#[trigger] node_keys[i]).0)
    &&& findings.execution is Ok
    &&& execution.slot == batch.slot
    &&& execution.slot <= u32::MAX
    &&& execution.lane + 1 == order.terms.admission_sequence
    &&& execution.lane <= usize::MAX
    &&& execution.cluster_digest == batch.batch_digest
    &&& findings.quote_context == Ok::<Id, String>(findings.quote->Ok_0.context)
}

/// Whether delivery against payment was proved for the order: of the side that gives
/// the traded asset and of the side that pays, on points, with what each gets back.
pub open spec fn exchange_stands(
    findings: SettlementFindings,
    order: ProductNoteSettlementOrder,
    gives: ReservationConsumption,
    pays: ReservationConsumption,
) -> bool {
    let dvp = findings.dvp->Ok_0;
    &&& ristretto_point(gives.transition.amount_commitment.0)
    &&& ristretto_point(pays.transition.amount_commitment.0)
    &&& ristretto_point(order.terms.cash_commitment.0)
    &&& findings.dvp is Ok
    &&& dvp.digest == order.terms.dvp_proof_digest
    &&& dvp.quantity_commitment == order.terms.quantity_commitment
    &&& dvp.cash_commitment == order.terms.cash_commitment
    &&& dvp.securities_remainder == gives.transition.refund_commitment
    &&& dvp.cash_remainder == pays.transition.refund_commitment
}

/// Whether the proofs were verified against the order and the ledger: the submitted
/// evidence, the time, the pinned parameters, the committee of the lane, the price
/// limit that the taker reserved, and the reserves of both sides.
pub open spec fn checked_for(
    ledger: Ledger,
    findings: SettlementFindings,
    order: ProductNoteSettlementOrder,
    timestamp: u64,
    gives: ReservationConsumption,
    pays: ReservationConsumption,
    taker: ReservationConsumption,
) -> bool {
    let checks = findings.checks;
    let evidence = findings.evidence;
    let verifier = ledger.settlement_verifiers[findings.verifier_key];
    let binding = ledger.reservation_bindings[taker.transition.hold_id];
    let batch = ledger.admission_batches[binding.admission_batch_id];
    let key = Numbered { scope: batch.venue_id, number: batch.epoch };
    &&& checks.evidence.typed_instruction@ == evidence.typed_instruction@
    &&& checks.evidence.quote_verification@ == evidence.quote_verification@
    &&& checks.evidence.price_limit_proof@ == evidence.price_limit_proof@
    &&& checks.evidence.dvp_proofs@ == evidence.dvp_proofs@
    &&& checks.evidence.mpc_execution_attestations@ == evidence.mpc_execution_attestations@
    &&& checks.evidence.announcement == evidence.announcement
    &&& checks.evidence.response == evidence.response
    &&& checks.timestamp == timestamp
    &&& checks.venue_id == order.terms.venue_id
    &&& checks.epoch == order.terms.admission_epoch
    &&& checks.frost_public_package@ == verifier.frost_public_package@
    &&& checks.amount_bits == verifier.amount_bits
    &&& checks.price_bits == verifier.price_bits
    &&& checks.max_horizon == verifier.max_horizon
    &&& checks.node_keys@ == ledger.admission_committees[key].node_keys@
    &&& checks.order_digest == batch.order_digest
    &&& binding.direction == 1 ==> checks.price_direction == PriceLimitDirection::MaximumBuyPrice
    &&& binding.direction == 2 ==> checks.price_direction == PriceLimitDirection::MinimumSellPrice
    &&& checks.limit_price_commitment == binding.limit_price_commitment
    &&& checks.taker_mandate_digest == order.terms.taker_mandate_digest
    &&& checks.securities_reserve == gives.transition.amount_commitment
    &&& checks.cash_reserve == pays.transition.amount_commitment
    &&& checks.cash_commitment == order.terms.cash_commitment
    &&& checks.traded_asset_id == order.terms.traded_asset_id
}

/// Evidence stands exactly where it is well formed, the verifier of its venue and
/// epoch is pinned and valid, the instruction, the quote, the direction, the
/// execution, the price limit and the exchange stand, the asset is the traded one, and
/// all of it was verified against the order and the ledger. The maker gives the traded
/// asset in direction one, and the taker in direction two.
pub proof fn law_when_evidence_stands(
    ledger: Ledger,
    findings: SettlementFindings,
    order: ProductNoteSettlementOrder,
    root: Id,
    timestamp: u64,
    m: int,
    t: int,
)
    requires
        first_of_role(order.reservations@, ReservationRole::Maker, m),
        first_of_role(order.reservations@, ReservationRole::Taker, t),
    ensures
        ({
            let verifier = ledger.settlement_verifiers[findings.verifier_key];
            let maker = order.reservations@[m];
            let taker = order.reservations@[t];
            let binding = ledger.reservation_bindings[taker.transition.hold_id];
            let gives = if binding.direction == 2 {
                taker
            } else {
                maker
            };
            let pays = if binding.direction == 2 {
                maker
            } else {
                taker
            };
            (evidence_refusal(ledger, findings, order, root, timestamp) is None) == {
                &&& findings.encoding is Ok
                &&& ledger.settlement_verifiers.contains_key(findings.verifier_key)
                &&& verifier.venue_id == order.terms.venue_id
                &&& verifier.epoch == order.terms.admission_epoch
                &&& verifier.defmi_id == order.terms.defmi_id
                &&& verifier.valid_from <= timestamp <= verifier.valid_until
                &&& instruction_stands(findings, order, root, maker, taker)
                &&& quote_stands(ledger, findings, order, timestamp)
                &&& direction_stands(ledger, findings, maker, taker)
                &&& execution_stands(ledger, findings, order, binding.admission_batch_id)
                &&& ristretto_point(binding.limit_price_commitment.0)
                &&& findings.price_limit == Ok::<Id, String>(order.terms.price_limit_proof_digest)
                &&& exchange_stands(findings, order, gives, pays)
                &&& findings.asset_linked
                &&& findings.asset_link_digest == order.terms.asset_link_proof_digest
                &&& checked_for(ledger, findings, order, timestamp, gives, pays, taker)
            }
        }),
{
    lemma_first_of_role(order.reservations@, ReservationRole::Maker, 0, m);
    lemma_first_of_role(order.reservations@, ReservationRole::Taker, 0, t);
    let typed = findings.typed->Ok_0;
    assert(typed.direction == TradeDirection::TakerBuys || typed.direction
        == TradeDirection::TakerSells);
}

/// Evidence for a trade without a maker or without a taker does not stand.
pub proof fn law_evidence_needs_both_sides(
    ledger: Ledger,
    findings: SettlementFindings,
    order: ProductNoteSettlementOrder,
    root: Id,
    timestamp: u64,
    role: ReservationRole,
)
    requires
        forall|i: int|
            0 <= i < order.reservations@.len() ==> (#[trigger] order.reservations@[i]).role != role,
    ensures
        evidence_refusal(ledger, findings, order, root, timestamp) is Some,
{
    lemma_none_of_role(order.reservations@, role, 0);
}

/// What the proofs of a trade are to be verified against is known exactly where the
/// verifier of its venue and epoch is pinned and valid, the taker's reservation is
/// bound, for direction one or two, its admission batch is registered, and the resident
/// committee of the batch is.
pub proof fn law_when_there_is_something_to_verify_against(
    ledger: Ledger,
    order: ProductNoteSettlementOrder,
    verifier_key: Id,
    timestamp: u64,
    m: int,
    t: int,
)
    requires
        first_of_role(order.reservations@, ReservationRole::Maker, m),
        first_of_role(order.reservations@, ReservationRole::Taker, t),
    ensures
        ({
            let verifier = ledger.settlement_verifiers[verifier_key];
            let hold_id = order.reservations@[t].transition.hold_id;
            let binding = ledger.reservation_bindings[hold_id];
            let batch = ledger.admission_batches[binding.admission_batch_id];
            (checks_refusal(ledger, order, verifier_key, timestamp) is None) == {
                &&& ledger.settlement_verifiers.contains_key(verifier_key)
                &&& verifier.venue_id == order.terms.venue_id
                &&& verifier.epoch == order.terms.admission_epoch
                &&& verifier.defmi_id == order.terms.defmi_id
                &&& verifier.valid_from <= timestamp <= verifier.valid_until
                &&& ledger.reservation_bindings.contains_key(hold_id)
                &&& binding.direction == 1 || binding.direction == 2
                &&& ledger.admission_batches.contains_key(binding.admission_batch_id)
                &&& ledger.admission_committees.contains_key(
                    Numbered { scope: batch.venue_id, number: batch.epoch },
                )
            }
        }),
{
    lemma_first_of_role(order.reservations@, ReservationRole::Maker, 0, m);
    lemma_first_of_role(order.reservations@, ReservationRole::Taker, 0, t);
}

/// The proofs of a trade in direction one or two are verified against exactly the
/// order and the ledger. The maker gives the traded asset in direction one, and the
/// taker in direction two.
pub proof fn law_what_proofs_are_verified_against(
    ledger: Ledger,
    findings: SettlementFindings,
    order: ProductNoteSettlementOrder,
    timestamp: u64,
    m: int,
    t: int,
)
    requires
        first_of_role(order.reservations@, ReservationRole::Maker, m),
        first_of_role(order.reservations@, ReservationRole::Taker, t),
        ({
            let hold_id = order.reservations@[t].transition.hold_id;
            let direction = ledger.reservation_bindings[hold_id].direction;
            direction == 1 || direction == 2
        }),
    ensures
        ({
            let maker = order.reservations@[m];
            let taker = order.reservations@[t];
            let sells = ledger.reservation_bindings[taker.transition.hold_id].direction == 2;
            checks_are(
                ledger,
                order,
                findings.evidence,
                findings.verifier_key,
                timestamp,
                findings.checks,
            ) == checked_for(
                ledger,
                findings,
                order,
                timestamp,
                if sells {
                    taker
                } else {
                    maker
                },
                if sells {
                    maker
                } else {
                    taker
                },
                taker,
            )
        }),
{
    lemma_first_of_role(order.reservations@, ReservationRole::Maker, 0, m);
    lemma_first_of_role(order.reservations@, ReservationRole::Taker, 0, t);
}

} // verus!
