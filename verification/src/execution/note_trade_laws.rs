//! When trades between escrowed notes are settled, and what a settlement leaves
//! behind.

use vstd::prelude::*;

use crate::endorsement::{endorsement_refusal, Submission};
use crate::execution::evidence::{evidence_refusal, SettlementFindings};
use crate::execution::note_product::{
    claim_progress, claimed_value, claims_progress, covenant_refusal, note_consume_progress,
    note_consumed_ledger, note_consumption_refusal, note_consumptions_verdict,
    note_product_outcome, payment_spend, reuses_claim, serial_used, spend_of_hold, spends_progress,
};
use crate::execution::product::{nullified, operated};
use crate::execution::reservation_laws::{balances_moved, hold_ended};
use crate::execution::trade_laws::{
    directed, direction_of, in_operation, new_operation, of_hold, on_facility, proved_for, same_at,
    same_direction, side_of_trade,
};
use crate::execution::{action_outcome, Action};
use crate::id::Id;
use crate::order::{
    EscrowClaimSpend, NoteClaim, ProductNoteSettlementOrder, ReservationConsumption,
};
use crate::state::{
    AssetKind, ClaimStatus, HoldStatus, Ledger, NoteClaimKind, NoteReservationRecord,
    NullifierRecord, ReservationRole,
};

verus! {

/// Whether the claim at a position is the first of a kind.
pub open spec fn first_of_kind(claims: Seq<NoteClaim>, kind: NoteClaimKind, at: int) -> bool {
    &&& 0 <= at < claims.len()
    &&& claims[at].kind == kind
    &&& forall|b: int| 0 <= b < at ==> (#[trigger] claims[b]).kind != kind
}

/// Whether the first claim of a kind is of a value.
pub open spec fn claims_value(claims: Seq<NoteClaim>, kind: NoteClaimKind, value: Id) -> bool {
    exists|a: int| #[trigger]
        first_of_kind(claims, kind, a) && claims[a].value_commitment == value
}

proof fn lemma_claimed_value(claims: Seq<NoteClaim>, kind: NoteClaimKind, from: nat, value: Id)
    requires
        forall|b: int| 0 <= b < from && b < claims.len() ==> (#[trigger] claims[b]).kind != kind,
    ensures
        (claimed_value(claims, kind, from) == Some(value)) == claims_value(claims, kind, value),
    decreases claims.len() - from,
{
    if from < claims.len() {
        if claims[from as int].kind != kind {
            lemma_claimed_value(claims, kind, from + 1, value);
        } else {
            assert(first_of_kind(claims, kind, from as int));
            if claims_value(claims, kind, value) {
                let a = choose|a: int| #[trigger]
                    first_of_kind(claims, kind, a) && claims[a].value_commitment == value;
                if a > from {
                    assert(claims[from as int].kind != kind);
                } else if a < from {
                    assert(claims[a].kind != kind);
                }
            }
        }
    } else if claims_value(claims, kind, value) {
        let a = choose|a: int| #[trigger]
            first_of_kind(claims, kind, a) && claims[a].value_commitment == value;
        assert(claims[a].kind != kind);
    }
}

/// Whether the spend at a position is the first that splits the note of a hold.
pub open spec fn splits_hold(spends: Seq<EscrowClaimSpend>, hold_id: Id, at: int) -> bool {
    &&& 0 <= at < spends.len()
    &&& spends[at].hold_id == hold_id
    &&& forall|k: int| 0 <= k < at ==> (#[trigger] spends[k]).hold_id != hold_id
}

proof fn lemma_spend_of_hold(spends: Seq<EscrowClaimSpend>, hold_id: Id, from: nat)
    requires
        forall|k: int|
            0 <= k < from && k < spends.len() ==> (#[trigger] spends[k]).hold_id != hold_id,
    ensures
        spend_of_hold(spends, hold_id, from) is Some ==> exists|k: int|
            #[trigger] splits_hold(spends, hold_id, k) && spend_of_hold(spends, hold_id, from)
                == Some(spends[k]),
        forall|k: int| #[trigger]
            splits_hold(spends, hold_id, k) ==> spend_of_hold(spends, hold_id, from) == Some(
                spends[k],
            ),
    decreases spends.len() - from,
{
    if from < spends.len() {
        if spends[from as int].hold_id != hold_id {
            lemma_spend_of_hold(spends, hold_id, from + 1);
        } else {
            assert(splits_hold(spends, hold_id, from as int));
        }
    }
}

/// Whether an escrowed note backs a reservation: the escrow is active, the note is
/// locked by the reservation and of its amount, and the first spend of the hold
/// splits that note, under the proof of the trade, into new claims of what is
/// consumed and what is returned.
pub open spec fn covenant_backs(
    ledger: Ledger,
    order: ProductNoteSettlementOrder,
    consumption: ReservationConsumption,
) -> bool {
    let transition = consumption.transition;
    let asset_id = ledger.reservation_bindings[transition.hold_id].asset_id;
    let escrow = ledger.note_reservations[transition.hold_id];
    let note = ledger.notes[escrow.escrow_note_id];
    let spends = order.settlement.spends@;
    &&& ledger.note_reservations.contains_key(transition.hold_id)
    &&& escrow.status == HoldStatus::Active
    &&& escrow.asset_id == asset_id
    &&& escrow.amount_commitment == transition.amount_commitment
    &&& ledger.notes.contains_key(escrow.escrow_note_id)
    &&& note.asset_id == asset_id
    &&& note.lock_id == transition.hold_id
    &&& note.value_commitment == transition.amount_commitment
    &&& exists|k: int|
        {
            &&& #[trigger] splits_hold(spends, transition.hold_id, k)
            &&& spends[k].asset_id == asset_id
            &&& spends[k].escrow_note_id == escrow.escrow_note_id
            &&& spends[k].delegation_digest == escrow.delegation_digest
            &&& spends[k].proof_digest == order.terms.dvp_proof_digest
            &&& claims_value(
                spends[k].claims@,
                NoteClaimKind::Delivery,
                transition.consumed_commitment,
            )
            &&& claims_value(
                spends[k].claims@,
                NoteClaimKind::Refund,
                transition.refund_commitment,
            )
            &&& !ledger.note_serials.contains_key(spends[k].serial)
            &&& forall|a: int|
                0 <= a < spends[k].claims@.len() ==> !ledger.note_claims.contains_key(
                    (#[trigger] spends[k].claims@[a]).claim_id,
                )
        }
}

proof fn lemma_covenant(
    ledger: Ledger,
    order: ProductNoteSettlementOrder,
    consumption: ReservationConsumption,
)
    ensures
        (covenant_refusal(
            ledger,
            order,
            consumption.transition,
            ledger.reservation_bindings[consumption.transition.hold_id].asset_id,
        ) is None) == covenant_backs(ledger, order, consumption),
{
    let transition = consumption.transition;
    let spends = order.settlement.spends@;
    lemma_spend_of_hold(spends, transition.hold_id, 0);
    if spend_of_hold(spends, transition.hold_id, 0) is Some {
        let k = choose|k: int|
            #[trigger] splits_hold(spends, transition.hold_id, k) && spend_of_hold(
                spends,
                transition.hold_id,
                0,
            ) == Some(spends[k]);
        let claims = spends[k].claims@;
        lemma_claimed_value(claims, NoteClaimKind::Delivery, 0, transition.consumed_commitment);
        lemma_claimed_value(claims, NoteClaimKind::Refund, 0, transition.refund_commitment);
        assert forall|other: int| #[trigger]
            splits_hold(spends, transition.hold_id, other) implies other == k by {
            if other < k {
                assert(spends[other].hold_id != transition.hold_id);
            } else if other > k {
                assert(spends[k].hold_id != transition.hold_id);
            }
        }
        assert(splits_hold(spends, transition.hold_id, k));
        if reuses_claim(ledger, claims) {
            let a = choose|a: int|
                0 <= a < claims.len() && ledger.note_claims.contains_key(
                    (#[trigger] claims[a]).claim_id,
                );
            assert(ledger.note_claims.contains_key(spends[k].claims@[a].claim_id));
        }
    }
}

/// Whether a settlement can consume a reservation: it is a side of the trade, proved
/// for the settlement, in a new operation, and backed by an escrowed
/// note that the settlement splits as proved.
pub open spec fn usable_note_reservation(
    ledger: Ledger,
    order: ProductNoteSettlementOrder,
    payment_asset_id: Id,
    timestamp: u64,
    at: int,
) -> bool {
    let consumption = order.reservations@[at];
    &&& new_operation(ledger, order.reservations@, order.settlement.operation_id, at)
    &&& side_of_trade(ledger, order.terms, consumption, payment_asset_id)
    &&& proved_for(ledger, consumption, order.settlement.seal.statement->Ok_0, timestamp)
    &&& covenant_backs(ledger, order, consumption)
}

proof fn lemma_note_usable(
    ledger: Ledger,
    order: ProductNoteSettlementOrder,
    payment_asset_id: Id,
    timestamp: u64,
    direction: u8,
    at: int,
)
    requires
        directed(ledger, order.reservations@),
        payment_asset_id != order.terms.traded_asset_id,
        0 <= at < order.reservations@.len(),
    ensures
        (note_consumption_refusal(
            ledger,
            order,
            payment_asset_id,
            order.settlement.seal.statement->Ok_0,
            timestamp,
            direction,
            at,
        ) is None) == {
            &&& usable_note_reservation(ledger, order, payment_asset_id, timestamp, at)
            &&& direction == 0 || direction == direction_of(ledger, order.reservations@, at)
        },
{
    let consumption = order.reservations@[at];
    assert(ledger.reservation_bindings[consumption.transition.hold_id].direction == 1
        || ledger.reservation_bindings[consumption.transition.hold_id].direction == 2);
    lemma_covenant(ledger, order, consumption);
}

proof fn lemma_note_verdict(
    ledger: Ledger,
    order: ProductNoteSettlementOrder,
    payment_asset_id: Id,
    timestamp: u64,
    direction: u8,
    from: nat,
)
    requires
        directed(ledger, order.reservations@),
        payment_asset_id != order.terms.traded_asset_id,
    ensures
        ({
            let verdict = note_consumptions_verdict(
                ledger,
                order,
                payment_asset_id,
                order.settlement.seal.statement->Ok_0,
                timestamp,
                direction,
                from,
            );
            &&& (verdict is Ok) == {
                &&& forall|i: int|
                    from <= i < order.reservations@.len() ==> {
                        &&& #[trigger] usable_note_reservation(
                            ledger,
                            order,
                            payment_asset_id,
                            timestamp,
                            i,
                        )
                        &&& direction == 0 || direction == direction_of(
                            ledger,
                            order.reservations@,
                            i,
                        )
                    }
                &&& forall|i: int, j: int|
                    from <= i < j < order.reservations@.len() ==> same_direction(
                        ledger,
                        #[trigger] order.reservations@[i],
                        #[trigger] order.reservations@[j],
                    )
            }
            &&& verdict is Ok && from >= order.reservations@.len() ==> verdict->Ok_0 == direction
            &&& verdict is Ok && from < order.reservations@.len() ==> verdict->Ok_0
                == direction_of(ledger, order.reservations@, from as int)
        }),
    decreases order.reservations@.len() - from,
{
    if from < order.reservations@.len() {
        let at = from as int;
        let next = direction_of(ledger, order.reservations@, at);
        let consumption = order.reservations@[at];
        assert(next == 1 || next == 2);
        lemma_note_usable(ledger, order, payment_asset_id, timestamp, direction, at);
        lemma_note_verdict(ledger, order, payment_asset_id, timestamp, next, from + 1);
        let verdict = note_consumptions_verdict(
            ledger,
            order,
            payment_asset_id,
            order.settlement.seal.statement->Ok_0,
            timestamp,
            direction,
            from,
        );
        if verdict is Ok {
            assert forall|i: int, j: int|
                from <= i < j < order.reservations@.len() implies same_direction(
                ledger,
                #[trigger] order.reservations@[i],
                #[trigger] order.reservations@[j],
            ) by {
                assert(usable_note_reservation(ledger, order, payment_asset_id, timestamp, j));
                if i > from {
                    assert(usable_note_reservation(ledger, order, payment_asset_id, timestamp, i));
                }
            }
            assert forall|i: int| from <= i < order.reservations@.len() implies {
                &&& #[trigger] usable_note_reservation(
                    ledger,
                    order,
                    payment_asset_id,
                    timestamp,
                    i,
                )
                &&& direction == 0 || direction == direction_of(ledger, order.reservations@, i)
            } by {}
        }
        if (forall|i: int|
            from <= i < order.reservations@.len() ==> {
                &&& #[trigger] usable_note_reservation(
                    ledger,
                    order,
                    payment_asset_id,
                    timestamp,
                    i,
                )
                &&& direction == 0 || direction == direction_of(ledger, order.reservations@, i)
            }) && (forall|i: int, j: int|
            from <= i < j < order.reservations@.len() ==> same_direction(
                ledger,
                #[trigger] order.reservations@[i],
                #[trigger] order.reservations@[j],
            )) {
            assert(usable_note_reservation(ledger, order, payment_asset_id, timestamp, at));
            assert forall|i: int| from + 1 <= i < order.reservations@.len() implies {
                &&& #[trigger] usable_note_reservation(
                    ledger,
                    order,
                    payment_asset_id,
                    timestamp,
                    i,
                )
                &&& next == 0 || next == direction_of(ledger, order.reservations@, i)
            } by {
                assert(same_direction(ledger, order.reservations@[at], order.reservations@[i]));
            }
        }
    }
}

proof fn lemma_note_consume_refusal(
    before: Ledger,
    ledger: Ledger,
    reservations: Seq<ReservationConsumption>,
    statement: Id,
    from: nat,
)
    ensures
        (note_consume_progress(before, ledger, reservations, statement, from).refusal is None) == (
        forall|i: int|
            from <= i < reservations.len() ==> before.credit_facilities[(
            #[trigger] reservations[i]).transition.facility_id].sequence < u64::MAX),
        ({
            let after = note_consume_progress(before, ledger, reservations, statement, from).ledger;
            after == (Ledger {
                credit_facilities: after.credit_facilities,
                credit_holds: after.credit_holds,
                note_reservations: after.note_reservations,
                operations: after.operations,
                ..ledger
            })
        }),
    decreases reservations.len() - from,
{
    if from < reservations.len() {
        let next = note_consumed_ledger(before, ledger, reservations[from as int], statement);
        lemma_note_consume_refusal(before, next, reservations, statement, from + 1);
    }
}

proof fn lemma_note_consume_elsewhere(
    before: Ledger,
    ledger: Ledger,
    reservations: Seq<ReservationConsumption>,
    statement: Id,
    from: nat,
    id: Id,
)
    ensures
        ({
            let after = note_consume_progress(before, ledger, reservations, statement, from).ledger;
            &&& !on_facility(reservations, from as int, id) ==> same_at(
                ledger.credit_facilities,
                after.credit_facilities,
                id,
            )
            &&& !of_hold(reservations, from as int, id) ==> {
                &&& same_at(ledger.credit_holds, after.credit_holds, id)
                &&& same_at(ledger.note_reservations, after.note_reservations, id)
            }
            &&& !in_operation(reservations, from as int, id) ==> same_at(
                ledger.operations,
                after.operations,
                id,
            )
        }),
    decreases reservations.len() - from,
{
    if from < reservations.len() {
        let next = note_consumed_ledger(before, ledger, reservations[from as int], statement);
        let transition = reservations[from as int].transition;
        if transition.facility_id == id {
            assert(on_facility(reservations, from as int, id));
        }
        if transition.hold_id == id {
            assert(of_hold(reservations, from as int, id));
        }
        if transition.operation_id == id {
            assert(in_operation(reservations, from as int, id));
        }
        lemma_note_consume_elsewhere(before, next, reservations, statement, from + 1, id);
    }
}

proof fn lemma_note_consume_at(
    before: Ledger,
    ledger: Ledger,
    reservations: Seq<ReservationConsumption>,
    statement: Id,
    from: nat,
    at: int,
)
    requires
        from <= at < reservations.len(),
        note_consume_progress(before, ledger, reservations, statement, from).refusal is None,
        reservations[at].transition.before_sequence
            == before.credit_facilities[reservations[at].transition.facility_id].sequence,
    ensures
        ({
            let after = note_consume_progress(before, ledger, reservations, statement, from).ledger;
            let transition = reservations[at].transition;
            let facility = before.credit_facilities[transition.facility_id];
            let escrow = before.note_reservations[transition.hold_id];
            let ended = after.note_reservations[transition.hold_id];
            &&& !on_facility(reservations, at + 1, transition.facility_id) ==> {
                &&& after.credit_facilities.contains_key(transition.facility_id)
                &&& balances_moved(
                    facility,
                    after.credit_facilities[transition.facility_id],
                    transition,
                )
            }
            &&& !of_hold(reservations, at + 1, transition.hold_id) ==> {
                &&& after.credit_holds.contains_key(transition.hold_id)
                &&& hold_ended(
                    before.credit_holds[transition.hold_id],
                    after.credit_holds[transition.hold_id],
                    HoldStatus::Consumed,
                    transition.settlement_digest,
                    facility,
                )
                &&& after.note_reservations.contains_key(transition.hold_id)
                &&& ended.status == HoldStatus::Consumed
                &&& ended.settlement_digest == statement
                &&& escrow == (NoteReservationRecord {
                    status: escrow.status,
                    settlement_digest: escrow.settlement_digest,
                    ..ended
                })
            }
            &&& !in_operation(reservations, at + 1, transition.operation_id) ==> {
                &&& after.operations.contains_key(transition.operation_id)
                &&& after.operations[transition.operation_id]
                    == reservations[at].transition_statement->Ok_0
            }
        }),
    decreases reservations.len() - from,
{
    lemma_note_consume_refusal(before, ledger, reservations, statement, from);
    let next = note_consumed_ledger(before, ledger, reservations[from as int], statement);
    if from == at {
        let transition = reservations[at].transition;
        assert(before.credit_facilities[transition.facility_id].sequence < u64::MAX);
        lemma_note_consume_elsewhere(
            before,
            next,
            reservations,
            statement,
            from + 1,
            transition.facility_id,
        );
        lemma_note_consume_elsewhere(
            before,
            next,
            reservations,
            statement,
            from + 1,
            transition.hold_id,
        );
        lemma_note_consume_elsewhere(
            before,
            next,
            reservations,
            statement,
            from + 1,
            transition.operation_id,
        );
    } else {
        lemma_note_consume_at(before, next, reservations, statement, from + 1, at);
    }
}

/// Whether a settlement consumed the reservation at a position and every one of its
/// records: the hold and the escrow ended, the facility moved, the operation was
/// recorded. Where a later reservation is on the same facility or hold, that one
/// decides.
pub open spec fn note_reservation_used(
    before: Ledger,
    after: Ledger,
    reservations: Seq<ReservationConsumption>,
    statement: Id,
    at: int,
) -> bool {
    let transition = reservations[at].transition;
    let facility = before.credit_facilities[transition.facility_id];
    let escrow = before.note_reservations[transition.hold_id];
    let ended = after.note_reservations[transition.hold_id];
    &&& !on_facility(reservations, at + 1, transition.facility_id) ==> balances_moved(
        facility,
        after.credit_facilities[transition.facility_id],
        transition,
    )
    &&& !of_hold(reservations, at + 1, transition.hold_id) ==> {
        &&& hold_ended(
            before.credit_holds[transition.hold_id],
            after.credit_holds[transition.hold_id],
            HoldStatus::Consumed,
            transition.settlement_digest,
            facility,
        )
        &&& ended.status == HoldStatus::Consumed
        &&& ended.settlement_digest == statement
        &&& escrow == (NoteReservationRecord {
            status: escrow.status,
            settlement_digest: escrow.settlement_digest,
            ..ended
        })
    }
    &&& after.operations.contains_key(transition.operation_id)
    &&& after.operations[transition.operation_id] == reservations[at].transition_statement->Ok_0
}

/// Whether a settlement changed no facility, hold, escrow or operation but those of
/// its reservations and its own operation.
pub open spec fn note_others_kept(
    before: Ledger,
    after: Ledger,
    reservations: Seq<ReservationConsumption>,
    operation_id: Id,
) -> bool {
    &&& forall|id: Id|
        !on_facility(reservations, 0, id) ==> #[trigger] same_at(
            before.credit_facilities,
            after.credit_facilities,
            id,
        )
    &&& forall|id: Id|
        !of_hold(reservations, 0, id) ==> #[trigger] same_at(
            before.credit_holds,
            after.credit_holds,
            id,
        )
    &&& forall|id: Id|
        !of_hold(reservations, 0, id) ==> #[trigger] same_at(
            before.note_reservations,
            after.note_reservations,
            id,
        )
    &&& forall|id: Id|
        id != operation_id && !in_operation(reservations, 0, id) ==> #[trigger] same_at(
            before.operations,
            after.operations,
            id,
        )
}

/// Whether a claim stands in the ledger as it was made: with its own asset, value,
/// recipient, source, kind and opening, active, by a settlement, and not turned into
/// a note.
pub open spec fn is_claim(ledger: Ledger, claim: NoteClaim, statement: Id) -> bool {
    let record = ledger.note_claims[claim.claim_id];
    &&& ledger.note_claims.contains_key(claim.claim_id)
    &&& record.asset_id == claim.asset_id
    &&& record.value_commitment == claim.value_commitment
    &&& record.recipient_commitment == claim.recipient_commitment
    &&& record.source_hold_id == claim.source_hold_id
    &&& record.kind == claim.kind
    &&& claim.opening_record is Ok
    &&& record.opening_envelope == claim.opening_record->Ok_0
    &&& record.status == ClaimStatus::Active
    &&& record.settlement_digest == statement
    &&& record.materialization == Id::zero()
}

/// Whether a spend splits its note into one claim under an identifier.
pub open spec fn claims_id(spends: Seq<EscrowClaimSpend>, claim_id: Id, i: int, a: int) -> bool {
    &&& 0 <= i < spends.len()
    &&& 0 <= a < spends[i].claims@.len()
    &&& spends[i].claims@[a].claim_id == claim_id
}

/// Whether a spend from a position on makes a claim under an identifier.
pub open spec fn makes_claim(spends: Seq<EscrowClaimSpend>, from: int, claim_id: Id) -> bool {
    exists|i: int, a: int| from <= i && #[trigger] claims_id(spends, claim_id, i, a)
}

/// Whether a spend from a position on is of a serial.
pub open spec fn of_serial(spends: Seq<EscrowClaimSpend>, from: int, serial: Id) -> bool {
    exists|i: int| from <= i < spends.len() && (#[trigger] spends[i]).serial == serial
}

/// Whether no two claims of the spends have one identifier.
pub open spec fn different_claims(spends: Seq<EscrowClaimSpend>) -> bool {
    forall|claim_id: Id, i: int, a: int, j: int, b: int|
        #[trigger] claims_id(spends, claim_id, i, a) && #[trigger] claims_id(
            spends,
            claim_id,
            j,
            b,
        ) ==> i == j && a == b
}

/// Whether the note of a spend counts as spent on its asset by a settlement.
pub open spec fn is_spent(
    ledger: Ledger,
    spend: EscrowClaimSpend,
    deadline: u64,
    statement: Id,
) -> bool {
    let serial = ledger.note_serials[spend.serial];
    &&& ledger.note_serials.contains_key(spend.serial)
    &&& serial.deadline == deadline
    &&& serial.asset_id == spend.asset_id
    &&& serial.ring_root == spend.escrow_note_id
    &&& serial.statement == statement
}

proof fn lemma_claim_elsewhere(
    ledger: Ledger,
    claims: Seq<NoteClaim>,
    statement: Id,
    from: nat,
    claim_id: Id,
)
    requires
        forall|a: int| from <= a < claims.len() ==> (#[trigger] claims[a]).claim_id != claim_id,
    ensures
        ({
            let after = claims_progress(ledger, claims, statement, from).ledger;
            same_at(ledger.note_claims, after.note_claims, claim_id)
        }),
    decreases claims.len() - from,
{
    if from < claims.len() {
        let step = claim_progress(ledger, claims[from as int], statement);
        if step.refusal is None {
            lemma_claim_elsewhere(step.ledger, claims, statement, from + 1, claim_id);
        }
    }
}

proof fn lemma_claims_refusal(ledger: Ledger, claims: Seq<NoteClaim>, statement: Id, from: nat)
    ensures
        (claims_progress(ledger, claims, statement, from).refusal is None) == (forall|a: int|
            from <= a < claims.len() ==> (#[trigger] claims[a]).opening_record is Ok),
        ({
            let after = claims_progress(ledger, claims, statement, from).ledger;
            after == (Ledger { note_claims: after.note_claims, ..ledger })
        }),
    decreases claims.len() - from,
{
    if from < claims.len() {
        let step = claim_progress(ledger, claims[from as int], statement);
        if step.refusal is None {
            lemma_claims_refusal(step.ledger, claims, statement, from + 1);
        }
    }
}

proof fn lemma_claim_made(
    ledger: Ledger,
    claims: Seq<NoteClaim>,
    statement: Id,
    from: nat,
    at: int,
)
    requires
        claims_progress(ledger, claims, statement, from).refusal is None,
        from <= at < claims.len(),
        forall|b: int|
            0 <= b < claims.len() && b != at ==> (#[trigger] claims[b]).claim_id
                != claims[at].claim_id,
    ensures
        is_claim(claims_progress(ledger, claims, statement, from).ledger, claims[at], statement),
    decreases claims.len() - from,
{
    let step = claim_progress(ledger, claims[from as int], statement);
    if from == at {
        lemma_claim_elsewhere(step.ledger, claims, statement, from + 1, claims[at].claim_id);
    } else {
        lemma_claim_made(step.ledger, claims, statement, from + 1, at);
    }
}

proof fn lemma_split_elsewhere(
    ledger: Ledger,
    spends: Seq<EscrowClaimSpend>,
    deadline: u64,
    statement: Id,
    from: nat,
    id: Id,
)
    ensures
        ({
            let after = spends_progress(ledger, spends, deadline, statement, from).ledger;
            &&& !makes_claim(spends, from as int, id) ==> same_at(
                ledger.note_claims,
                after.note_claims,
                id,
            )
            &&& !of_serial(spends, from as int, id) ==> same_at(
                ledger.note_serials,
                after.note_serials,
                id,
            )
        }),
    decreases spends.len() - from,
{
    if from < spends.len() {
        let spend = spends[from as int];
        let used = serial_used(ledger, spend, deadline, statement);
        let step = claims_progress(used, spend.claims@, statement, 0);
        lemma_claims_refusal(used, spend.claims@, statement, 0);
        if spend.serial == id {
            assert(of_serial(spends, from as int, id));
        }
        if !makes_claim(spends, from as int, id) {
            assert forall|a: int| 0 <= a < spend.claims@.len() implies (
            #[trigger] spend.claims@[a]).claim_id != id by {
                if spend.claims@[a].claim_id == id {
                    assert(claims_id(spends, id, from as int, a));
                }
            }
            lemma_claim_elsewhere(used, spend.claims@, statement, 0, id);
        }
        if step.refusal is None {
            lemma_split_elsewhere(step.ledger, spends, deadline, statement, from + 1, id);
        }
    }
}

proof fn lemma_splits_refusal(
    ledger: Ledger,
    spends: Seq<EscrowClaimSpend>,
    deadline: u64,
    statement: Id,
    from: nat,
)
    ensures
        (spends_progress(ledger, spends, deadline, statement, from).refusal is None) == (
        forall|i: int, a: int|
            from <= i < spends.len() && 0 <= a < spends[i].claims@.len() ==> (
            #[trigger] spends[i].claims@[a]).opening_record is Ok),
        ({
            let after = spends_progress(ledger, spends, deadline, statement, from).ledger;
            after == (Ledger {
                note_claims: after.note_claims,
                note_serials: after.note_serials,
                ..ledger
            })
        }),
    decreases spends.len() - from,
{
    if from < spends.len() {
        let spend = spends[from as int];
        let used = serial_used(ledger, spend, deadline, statement);
        let step = claims_progress(used, spend.claims@, statement, 0);
        lemma_claims_refusal(used, spend.claims@, statement, 0);
        if step.refusal is None {
            lemma_splits_refusal(step.ledger, spends, deadline, statement, from + 1);
            assert forall|i: int, a: int|
                from <= i < spends.len() && 0 <= a < spends[i].claims@.len() && (i == from || (
                forall|j: int, b: int|
                    from + 1 <= j < spends.len() && 0 <= b < spends[j].claims@.len() ==> (
                    #[trigger] spends[j].claims@[b]).opening_record is Ok)) implies (
            #[trigger] spends[i].claims@[a]).opening_record is Ok by {
                if i == from {
                    assert(spend.claims@[a].opening_record is Ok);
                }
            }
        } else {
            let a = choose|a: int|
                0 <= a < spend.claims@.len() && (#[trigger] spend.claims@[a]).opening_record is Err;
            assert(spends[from as int].claims@[a].opening_record is Err);
        }
    }
}

proof fn lemma_split_made(
    ledger: Ledger,
    spends: Seq<EscrowClaimSpend>,
    deadline: u64,
    statement: Id,
    from: nat,
    i: int,
    a: int,
)
    requires
        spends_progress(ledger, spends, deadline, statement, from).refusal is None,
        from <= i < spends.len(),
        0 <= a < spends[i].claims@.len(),
        different_claims(spends),
    ensures
        is_claim(
            spends_progress(ledger, spends, deadline, statement, from).ledger,
            spends[i].claims@[a],
            statement,
        ),
    decreases spends.len() - from,
{
    let spend = spends[from as int];
    let used = serial_used(ledger, spend, deadline, statement);
    let step = claims_progress(used, spend.claims@, statement, 0);
    if from == i {
        let claim_id = spend.claims@[a].claim_id;
        assert(claims_id(spends, claim_id, i, a));
        assert forall|b: int| 0 <= b < spend.claims@.len() && b != a implies (
        #[trigger] spend.claims@[b]).claim_id != claim_id by {
            if spend.claims@[b].claim_id == claim_id {
                assert(claims_id(spends, claim_id, i, b));
            }
        }
        lemma_claim_made(used, spend.claims@, statement, 0, a);
        if makes_claim(spends, i + 1, claim_id) {
            let (j, b) = choose|j: int, b: int|
                from + 1 <= j && #[trigger] claims_id(spends, claim_id, j, b);
            assert(i == j && a == b);
        }
        lemma_split_elsewhere(step.ledger, spends, deadline, statement, from + 1, claim_id);
    } else {
        lemma_split_made(step.ledger, spends, deadline, statement, from + 1, i, a);
    }
}

proof fn lemma_split_spent(
    ledger: Ledger,
    spends: Seq<EscrowClaimSpend>,
    deadline: u64,
    statement: Id,
    from: nat,
    at: int,
)
    requires
        spends_progress(ledger, spends, deadline, statement, from).refusal is None,
        from <= at < spends.len(),
        !of_serial(spends, at + 1, spends[at].serial),
    ensures
        is_spent(
            spends_progress(ledger, spends, deadline, statement, from).ledger,
            spends[at],
            deadline,
            statement,
        ),
    decreases spends.len() - from,
{
    let spend = spends[from as int];
    let used = serial_used(ledger, spend, deadline, statement);
    let step = claims_progress(used, spend.claims@, statement, 0);
    lemma_claims_refusal(used, spend.claims@, statement, 0);
    if from == at {
        lemma_split_elsewhere(step.ledger, spends, deadline, statement, from + 1, spend.serial);
    } else {
        lemma_split_spent(step.ledger, spends, deadline, statement, from + 1, at);
    }
}

/// Whether the spend at a position is the first that is not on the traded asset: it
/// is on the asset in which the trade is paid.
pub open spec fn pays_note(spends: Seq<EscrowClaimSpend>, traded_asset_id: Id, at: int) -> bool {
    &&& 0 <= at < spends.len()
    &&& spends[at].asset_id != traded_asset_id
    &&& forall|k: int| 0 <= k < at ==> (#[trigger] spends[k]).asset_id == traded_asset_id
}

proof fn lemma_payment_spend(
    spends: Seq<EscrowClaimSpend>,
    traded_asset_id: Id,
    from: nat,
    at: int,
)
    requires
        pays_note(spends, traded_asset_id, at),
        from <= at,
    ensures
        payment_spend(spends, traded_asset_id, from) == Some(spends[at].asset_id),
    decreases at - from,
{
    if from < at {
        lemma_payment_spend(spends, traded_asset_id, from + 1, at);
    }
}

proof fn lemma_no_payment_spend(spends: Seq<EscrowClaimSpend>, traded_asset_id: Id, from: nat)
    requires
        forall|k: int|
            from <= k < spends.len() ==> (#[trigger] spends[k]).asset_id == traded_asset_id,
    ensures
        payment_spend(spends, traded_asset_id, from) is None,
    decreases spends.len() - from,
{
    if from < spends.len() {
        lemma_no_payment_spend(spends, traded_asset_id, from + 1);
    }
}

/// A trade between notes without a spend on another asset than the traded one is
/// refused.
pub proof fn law_a_trade_between_notes_is_paid(
    ledger: Ledger,
    order: ProductNoteSettlementOrder,
    timestamp: u64,
)
    requires
        forall|k: int|
            0 <= k < order.settlement.spends@.len() ==> (
            #[trigger] order.settlement.spends@[k]).asset_id == order.terms.traded_asset_id,
    ensures
        note_product_outcome(ledger, order, timestamp).result is Err,
        note_product_outcome(ledger, order, timestamp).ledger == ledger,
{
    lemma_no_payment_spend(order.settlement.spends@, order.terms.traded_asset_id, 0);
}

/// A trade between notes is settled exactly where it is well formed and stated, in
/// time and new, the traded asset is active and it is paid in an active cash asset,
/// every reservation can be consumed, all were signed for one direction, and every
/// claim has an opening. It holds in either direction.
pub proof fn law_when_a_trade_between_notes_is_settled(
    ledger: Ledger,
    order: ProductNoteSettlementOrder,
    timestamp: u64,
    paying: int,
)
    requires
        pays_note(order.settlement.spends@, order.terms.traded_asset_id, paying),
        directed(ledger, order.reservations@),
    ensures
        ({
            let settlement = order.settlement;
            let traded_asset_id = order.terms.traded_asset_id;
            let payment_asset_id = settlement.spends@[paying].asset_id;
            (note_product_outcome(ledger, order, timestamp).result is Ok) == {
                &&& order.seal.body is Ok
                &&& order.seal.statement is Ok
                &&& settlement.seal.statement is Ok
                &&& timestamp <= settlement.deadline
                &&& !ledger.operations.contains_key(settlement.operation_id)
                &&& !ledger.nullifiers.contains_key(settlement.nullifier)
                &&& !ledger.rfq_nullifiers.contains_key(order.terms.rfq_nullifier)
                &&& ledger.assets.contains_key(payment_asset_id)
                &&& ledger.assets[payment_asset_id].active
                &&& ledger.assets[payment_asset_id].kind == AssetKind::Cash
                &&& ledger.assets.contains_key(traded_asset_id)
                &&& ledger.assets[traded_asset_id].active
                &&& order.reservations@.len() > 0
                &&& forall|i: int|
                    0 <= i < order.reservations@.len() ==> #[trigger] usable_note_reservation(
                        ledger,
                        order,
                        payment_asset_id,
                        timestamp,
                        i,
                    )
                &&& forall|i: int, j: int|
                    0 <= i < j < order.reservations@.len() ==> same_direction(
                        ledger,
                        #[trigger] order.reservations@[i],
                        #[trigger] order.reservations@[j],
                    )
                &&& forall|i: int|
                    0 <= i < order.reservations@.len() ==> ledger.credit_facilities[(
                    #[trigger] order.reservations@[i]).transition.facility_id].sequence < u64::MAX
                &&& forall|i: int, a: int|
                    0 <= i < settlement.spends@.len() && 0 <= a
                        < settlement.spends@[i].claims@.len() ==> (
                    #[trigger] settlement.spends@[i].claims@[a]).opening_record is Ok
            }
        }),
{
    let spends = order.settlement.spends@;
    let payment_asset_id = spends[paying].asset_id;
    let statement = order.seal.statement->Ok_0;
    lemma_payment_spend(spends, order.terms.traded_asset_id, 0, paying);
    lemma_note_verdict(ledger, order, payment_asset_id, timestamp, 0, 0);
    if order.reservations@.len() > 0 {
        let first = order.reservations@[0];
        assert(ledger.reservation_bindings[first.transition.hold_id].direction == 1
            || ledger.reservation_bindings[first.transition.hold_id].direction == 2);
    }
    lemma_note_consume_refusal(ledger, ledger, order.reservations@, statement, 0);
    let consumed = note_consume_progress(ledger, ledger, order.reservations@, statement, 0).ledger;
    let used = nullified(
        consumed,
        order.settlement.nullifier,
        order.settlement.deadline,
        order.terms.rfq_nullifier,
        statement,
    );
    lemma_splits_refusal(
        operated(used, order.settlement.operation_id, statement),
        spends,
        order.settlement.deadline,
        statement,
        0,
    );
}

/// A settled trade between notes consumes every reservation, makes every claim of
/// every spend with the claim's own fields, records every spent note, uses up its
/// nullifier and its request, records its operation, and changes nothing else. No
/// claim identifier occurs twice in the order.
pub proof fn law_what_a_trade_between_notes_leaves(
    ledger: Ledger,
    order: ProductNoteSettlementOrder,
    timestamp: u64,
    paying: int,
)
    requires
        pays_note(order.settlement.spends@, order.terms.traded_asset_id, paying),
        directed(ledger, order.reservations@),
        different_claims(order.settlement.spends@),
        note_product_outcome(ledger, order, timestamp).result is Ok,
    ensures
        ({
            let after = note_product_outcome(ledger, order, timestamp).ledger;
            let statement = note_product_outcome(ledger, order, timestamp).result->Ok_0;
            let settlement = order.settlement;
            let spends = settlement.spends@;
            &&& order.seal.statement == Ok::<Id, String>(statement)
            &&& after == (Ledger {
                credit_facilities: after.credit_facilities,
                credit_holds: after.credit_holds,
                note_reservations: after.note_reservations,
                operations: after.operations,
                note_claims: after.note_claims,
                note_serials: after.note_serials,
                nullifiers: ledger.nullifiers.insert(
                    settlement.nullifier,
                    NullifierRecord { deadline: settlement.deadline, statement },
                ),
                rfq_nullifiers: ledger.rfq_nullifiers.insert(order.terms.rfq_nullifier, statement),
                ..ledger
            })
            &&& forall|i: int|
                0 <= i < order.reservations@.len() ==> #[trigger] note_reservation_used(
                    ledger,
                    after,
                    order.reservations@,
                    statement,
                    i,
                )
            &&& after.operations.contains_key(settlement.operation_id)
            &&& after.operations[settlement.operation_id] == statement
            &&& note_others_kept(ledger, after, order.reservations@, settlement.operation_id)
            &&& forall|i: int, a: int|
                0 <= i < spends.len() && 0 <= a < spends[i].claims@.len() ==> is_claim(
                    after,
                    #[trigger] spends[i].claims@[a],
                    statement,
                )
            &&& forall|i: int|
                0 <= i < spends.len() && !of_serial(spends, i + 1, spends[i].serial) ==> is_spent(
                    after,
                    #[trigger] spends[i],
                    settlement.deadline,
                    statement,
                )
            &&& forall|claim_id: Id|
                !makes_claim(spends, 0, claim_id) ==> #[trigger] same_at(
                    ledger.note_claims,
                    after.note_claims,
                    claim_id,
                )
            &&& forall|serial: Id|
                !of_serial(spends, 0, serial) ==> #[trigger] same_at(
                    ledger.note_serials,
                    after.note_serials,
                    serial,
                )
        }),
{
    law_when_a_trade_between_notes_is_settled(ledger, order, timestamp, paying);
    let spends = order.settlement.spends@;
    let deadline = order.settlement.deadline;
    let payment_asset_id = spends[paying].asset_id;
    let statement = order.seal.statement->Ok_0;
    let reservations = order.reservations@;
    let consumed = note_consume_progress(ledger, ledger, reservations, statement, 0).ledger;
    let used = operated(
        nullified(
            consumed,
            order.settlement.nullifier,
            deadline,
            order.terms.rfq_nullifier,
            statement,
        ),
        order.settlement.operation_id,
        statement,
    );
    let after = note_product_outcome(ledger, order, timestamp).ledger;
    lemma_note_consume_refusal(ledger, ledger, reservations, statement, 0);
    lemma_splits_refusal(used, spends, deadline, statement, 0);
    assert forall|i: int, a: int|
        0 <= i < spends.len() && 0 <= a < spends[i].claims@.len() implies is_claim(
        after,
        #[trigger] spends[i].claims@[a],
        statement,
    ) by {
        lemma_split_made(used, spends, deadline, statement, 0, i, a);
    }
    assert forall|i: int|
        0 <= i < spends.len() && !of_serial(spends, i + 1, spends[i].serial) implies is_spent(
        after,
        #[trigger] spends[i],
        deadline,
        statement,
    ) by {
        lemma_split_spent(used, spends, deadline, statement, 0, i);
    }
    assert forall|claim_id: Id| !makes_claim(spends, 0, claim_id) implies #[trigger] same_at(
        ledger.note_claims,
        after.note_claims,
        claim_id,
    ) by {
        lemma_split_elsewhere(used, spends, deadline, statement, 0, claim_id);
    }
    assert forall|serial: Id| !of_serial(spends, 0, serial) implies #[trigger] same_at(
        ledger.note_serials,
        after.note_serials,
        serial,
    ) by {
        lemma_split_elsewhere(used, spends, deadline, statement, 0, serial);
    }
    assert forall|i: int| 0 <= i < reservations.len() implies #[trigger] note_reservation_used(
        ledger,
        after,
        reservations,
        statement,
        i,
    ) by {
        assert(usable_note_reservation(ledger, order, payment_asset_id, timestamp, i));
        lemma_note_consume_at(ledger, ledger, reservations, statement, 0, i);
        if in_operation(reservations, i + 1, reservations[i].transition.operation_id) {
            let j = choose|j: int|
                i + 1 <= j < reservations.len() && (
                #[trigger] reservations[j]).transition.operation_id
                    == reservations[i].transition.operation_id;
            assert(usable_note_reservation(ledger, order, payment_asset_id, timestamp, j));
        }
    }
    assert(note_others_kept(ledger, after, reservations, order.settlement.operation_id)) by {
        assert forall|id: Id| !on_facility(reservations, 0, id) implies #[trigger] same_at(
            ledger.credit_facilities,
            after.credit_facilities,
            id,
        ) by {
            lemma_note_consume_elsewhere(ledger, ledger, reservations, statement, 0, id);
        }
        assert forall|id: Id| !of_hold(reservations, 0, id) implies #[trigger] same_at(
            ledger.credit_holds,
            after.credit_holds,
            id,
        ) by {
            lemma_note_consume_elsewhere(ledger, ledger, reservations, statement, 0, id);
        }
        assert forall|id: Id| !of_hold(reservations, 0, id) implies #[trigger] same_at(
            ledger.note_reservations,
            after.note_reservations,
            id,
        ) by {
            lemma_note_consume_elsewhere(ledger, ledger, reservations, statement, 0, id);
        }
        assert forall|id: Id|
            id != order.settlement.operation_id && !in_operation(
                reservations,
                0,
                id,
            ) implies #[trigger] same_at(ledger.operations, after.operations, id) by {
            lemma_note_consume_elsewhere(ledger, ledger, reservations, statement, 0, id);
        }
    }
}

/// A trade between notes is carried out exactly where it is approved, its evidence
/// stands and it can be settled, and leaves what the settlement leaves.
pub proof fn law_a_trade_between_notes_is_approved(
    ledger: Ledger,
    order: ProductNoteSettlementOrder,
    findings: SettlementFindings,
    submission: Submission,
    timestamp: u64,
)
    ensures
        ({
            let outcome = action_outcome(
                ledger,
                Action::IssueNoteProductSettlement { order, findings },
                submission,
                timestamp,
            );
            let settled = note_product_outcome(ledger, order, timestamp);
            &&& (outcome.result is Ok) == {
                &&& endorsement_refusal(order.seal, submission) is None
                &&& evidence_refusal(
                    ledger,
                    findings,
                    order,
                    submission.before_root,
                    timestamp,
                ) is None
                &&& settled.result is Ok
            }
            &&& outcome.result is Ok ==> outcome.ledger == settled.ledger
        }),
{
}

/// After a note settlement that is carried out, the record of every claim of every
/// escrow spend has the claim's own asset, value, recipient, source hold, kind and
/// opening, and is active. No claim identifier occurs twice in the order.
pub proof fn law_every_claim_is_made_as_agreed(
    ledger: Ledger,
    order: ProductNoteSettlementOrder,
    findings: SettlementFindings,
    submission: Submission,
    timestamp: u64,
    i: int,
    a: int,
)
    requires
        different_claims(order.settlement.spends@),
        0 <= i < order.settlement.spends@.len(),
        0 <= a < order.settlement.spends@[i].claims@.len(),
        action_outcome(
            ledger,
            Action::IssueNoteProductSettlement { order, findings },
            submission,
            timestamp,
        ).result is Ok,
    ensures
        ({
            let after = action_outcome(
                ledger,
                Action::IssueNoteProductSettlement { order, findings },
                submission,
                timestamp,
            ).ledger;
            let claim = order.settlement.spends@[i].claims@[a];
            let record = after.note_claims[claim.claim_id];
            &&& after.note_claims.contains_key(claim.claim_id)
            &&& record.asset_id == claim.asset_id
            &&& record.value_commitment == claim.value_commitment
            &&& record.recipient_commitment == claim.recipient_commitment
            &&& record.source_hold_id == claim.source_hold_id
            &&& record.kind == claim.kind
            &&& claim.opening_record is Ok
            &&& record.opening_envelope == claim.opening_record->Ok_0
            &&& record.status == ClaimStatus::Active
            &&& order.seal.statement == Ok::<Id, String>(record.settlement_digest)
            &&& record.materialization == Id::zero()
        }),
{
    let statement = order.seal.statement->Ok_0;
    let consumed = note_consume_progress(ledger, ledger, order.reservations@, statement, 0).ledger;
    let used = operated(
        nullified(
            consumed,
            order.settlement.nullifier,
            order.settlement.deadline,
            order.terms.rfq_nullifier,
            statement,
        ),
        order.settlement.operation_id,
        statement,
    );
    lemma_split_made(
        used,
        order.settlement.spends@,
        order.settlement.deadline,
        statement,
        0,
        i,
        a,
    );
}

/// In a settled trade between notes, on both sides and in both directions, the
/// reservation on the traded asset gives up the traded quantity and any other the
/// cash amount.
pub proof fn law_each_note_side_gives_what_it_traded(
    ledger: Ledger,
    order: ProductNoteSettlementOrder,
    findings: SettlementFindings,
    submission: Submission,
    timestamp: u64,
    paying: int,
    at: int,
)
    requires
        pays_note(order.settlement.spends@, order.terms.traded_asset_id, paying),
        directed(ledger, order.reservations@),
        0 <= at < order.reservations@.len(),
        action_outcome(
            ledger,
            Action::IssueNoteProductSettlement { order, findings },
            submission,
            timestamp,
        ).result is Ok,
    ensures
        ({
            let consumption = order.reservations@[at];
            let binding = ledger.reservation_bindings[consumption.transition.hold_id];
            let gives = binding.asset_id == order.terms.traded_asset_id;
            &&& consumption.transition.consumed_commitment == if gives {
                order.terms.quantity_commitment
            } else {
                order.terms.cash_commitment
            }
            &&& gives == (binding.direction == 1 && consumption.role == ReservationRole::Maker
                || binding.direction == 2 && consumption.role == ReservationRole::Taker)
            &&& !gives ==> binding.asset_id == order.settlement.spends@[paying].asset_id
        }),
{
    law_when_a_trade_between_notes_is_settled(ledger, order, timestamp, paying);
    let payment_asset_id = order.settlement.spends@[paying].asset_id;
    assert(usable_note_reservation(ledger, order, payment_asset_id, timestamp, at));
    let consumption = order.reservations@[at];
    assert(ledger.reservation_bindings[consumption.transition.hold_id].direction == 1
        || ledger.reservation_bindings[consumption.transition.hold_id].direction == 2);
}

proof fn lemma_note_direction(
    ledger: Ledger,
    order: ProductNoteSettlementOrder,
    payment_asset_id: Id,
    base_statement: Id,
    timestamp: u64,
    direction: u8,
    from: nat,
    at: int,
)
    requires
        from <= at < order.reservations@.len(),
        note_consumptions_verdict(
            ledger,
            order,
            payment_asset_id,
            base_statement,
            timestamp,
            direction,
            from,
        ) is Ok,
    ensures
        ({
            let signed = direction_of(ledger, order.reservations@, at);
            &&& at == from ==> direction == 0 || signed == direction
            &&& at > from ==> {
                let earlier = direction_of(ledger, order.reservations@, at - 1);
                earlier == 0 || signed == earlier
            }
            &&& at + 1 == order.reservations@.len() ==> note_consumptions_verdict(
                ledger,
                order,
                payment_asset_id,
                base_statement,
                timestamp,
                direction,
                from,
            )->Ok_0 == signed
        }),
    decreases order.reservations@.len() - from,
{
    let next = direction_of(ledger, order.reservations@, from as int);
    if from < at {
        lemma_note_direction(
            ledger,
            order,
            payment_asset_id,
            base_statement,
            timestamp,
            next,
            from + 1,
            at,
        );
    } else if from + 1 == order.reservations@.len() {
        assert(note_consumptions_verdict(
            ledger,
            order,
            payment_asset_id,
            base_statement,
            timestamp,
            next,
            from + 1,
        ) == Ok::<u8, Seq<char>>(next));
    }
}

/// A trade between notes without reservations, or whose last reservation was signed for
/// another direction than one or two, is refused, and nothing changes.
pub proof fn law_a_trade_between_notes_has_a_direction(
    ledger: Ledger,
    order: ProductNoteSettlementOrder,
    timestamp: u64,
)
    requires
        order.reservations@.len() == 0 || {
            let last = direction_of(
                ledger,
                order.reservations@,
                order.reservations@.len() - 1,
            );
            last != 1 && last != 2
        },
    ensures
        note_product_outcome(ledger, order, timestamp).result is Err,
        note_product_outcome(ledger, order, timestamp).ledger == ledger,
{
    let payment = payment_spend(order.settlement.spends@, order.terms.traded_asset_id, 0);
    let verdict = note_consumptions_verdict(
        ledger,
        order,
        payment->0,
        order.settlement.seal.statement->Ok_0,
        timestamp,
        0,
        0,
    );
    if order.reservations@.len() > 0 && verdict is Ok {
        lemma_note_direction(
            ledger,
            order,
            payment->0,
            order.settlement.seal.statement->Ok_0,
            timestamp,
            0,
            0,
            order.reservations@.len() - 1,
        );
    }
}

/// A trade between notes with a reservation that was signed for another direction than the
/// one before it is refused, and nothing changes.
pub proof fn law_a_trade_between_notes_has_one_direction(
    ledger: Ledger,
    order: ProductNoteSettlementOrder,
    timestamp: u64,
    at: int,
)
    requires
        0 < at < order.reservations@.len(),
        direction_of(ledger, order.reservations@, at - 1) != 0,
        direction_of(ledger, order.reservations@, at - 1) != direction_of(
            ledger,
            order.reservations@,
            at,
        ),
    ensures
        note_product_outcome(ledger, order, timestamp).result is Err,
        note_product_outcome(ledger, order, timestamp).ledger == ledger,
{
    let payment = payment_spend(order.settlement.spends@, order.terms.traded_asset_id, 0);
    let verdict = note_consumptions_verdict(
        ledger,
        order,
        payment->0,
        order.settlement.seal.statement->Ok_0,
        timestamp,
        0,
        0,
    );
    if verdict is Ok {
        lemma_note_direction(
            ledger,
            order,
            payment->0,
            order.settlement.seal.statement->Ok_0,
            timestamp,
            0,
            0,
            at,
        );
    }
}

} // verus!
