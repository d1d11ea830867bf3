//! When application reservations are made, filled and released, and what that leaves
//! behind.

use vstd::prelude::*;

use crate::crypto::{ristretto_difference, ristretto_point, ristretto_sum};
use crate::endorsement::{endorsement_refusal, Submission};
use crate::execution::application_reservation::{
    hold_placed, ApplicationNoteReservation, ApplicationScopeRegistration,
};
use crate::execution::application_settlement::{
    fill_outcome, insert_claim_progress, insert_claims_progress, side_progress,
    ApplicationNoteFill, ApplicationNoteRelease, ApplicationSpendHead, VerifiedSide,
};
use crate::execution::note_trade_laws::is_claim;
use crate::execution::notes::apply_spend_progress;
use crate::execution::reservation_laws::{
    balances_moved, lemma_notes_stay, lemma_spend_carried_out, outputs_fit, proved_on, takes_hold,
};
use crate::execution::spend_laws::{
    can_be_note, is_note, law_a_spend_makes_every_output, law_when_an_unlocked_spend_is_admitted,
    ring_unlocked, spendable, spent_between,
};
use crate::execution::trade_laws::same_at;
use crate::execution::{action_outcome, Action};
use crate::id::Id;
use crate::order::NoteClaim;
use crate::state::{
    ApplicationReservationRecord, ApplicationScope, CreditFacilityRecord, CreditHoldRecord,
    FacilityStatus, HoldStatus, Ledger, NoteClaimKind, NullifierRecord,
};

verus! {

/// A scope is registered exactly where that is approved and its key is new.
pub proof fn law_when_a_scope_is_registered(
    ledger: Ledger,
    registration: ApplicationScopeRegistration,
    submission: Submission,
    timestamp: u64,
)
    ensures
        ({
            (action_outcome(
                ledger,
                Action::IssueApplicationReserveScope { registration },
                submission,
                timestamp,
            ).result is Ok) == {
                &&& endorsement_refusal(registration.seal, submission) is None
                &&& registration.key is Ok
                &&& !ledger.application_reserve_scopes.contains_key(registration.key->Ok_0)
            }
        }),
{
}

/// A registered scope stands as it was submitted, under its key. Nothing else
/// changes.
pub proof fn law_what_a_scope_registration_leaves(
    ledger: Ledger,
    registration: ApplicationScopeRegistration,
    submission: Submission,
    timestamp: u64,
)
    requires
        action_outcome(
            ledger,
            Action::IssueApplicationReserveScope { registration },
            submission,
            timestamp,
        ).result is Ok,
    ensures
        ({
            let outcome = action_outcome(
                ledger,
                Action::IssueApplicationReserveScope { registration },
                submission,
                timestamp,
            );
            let after = outcome.ledger;
            &&& after == (Ledger {
                application_reserve_scopes: ledger.application_reserve_scopes.insert(
                    registration.key->Ok_0,
                    registration.scope,
                ),
                ..ledger
            })
            &&& registration.seal.statement == Ok::<Id, String>(outcome.result->Ok_0)
        }),
{
}

/// An application reservation is made exactly where it is approved, verified and
/// new, its scope is registered, it is bound to the hold, facility, amount and expiry
/// of its transition, the facility of its entity and asset can take the hold, and its
/// spend can be carried out from notes that are not reserved.
pub proof fn law_when_an_application_reservation_is_made(
    ledger: Ledger,
    request: ApplicationNoteReservation,
    submission: Submission,
    timestamp: u64,
)
    ensures
        ({
            let transition = request.transition;
            let binding = request.binding;
            let facility = ledger.credit_facilities[transition.facility_id];
            let key = request.scope_key->Ok_0;
            (action_outcome(
                ledger,
                Action::IssueApplicationNoteReservation { request },
                submission,
                timestamp,
            ).result is Ok) == {
                &&& endorsement_refusal(request.seal, submission) is None
                &&& request.scope_key is Ok
                &&& ledger.application_reserve_scopes.contains_key(key)
                &&& ledger.application_reserve_scopes[key] == binding.scope
                &&& !ledger.operations.contains_key(transition.operation_id)
                &&& !ledger.application_reservations.contains_key(transition.hold_id)
                &&& !ledger.credit_holds.contains_key(transition.hold_id)
                &&& binding.hold_id == transition.hold_id
                &&& binding.facility_id == transition.facility_id
                &&& binding.amount_commitment == transition.amount_commitment
                &&& binding.valid_until == transition.expires_at
                &&& ledger.credit_facilities.contains_key(transition.facility_id)
                &&& facility.beneficiary_commitment == binding.entity_commitment
                &&& facility.rail_asset_id == binding.asset_id
                &&& facility.sequence < u64::MAX
                &&& proved_on(facility, transition)
                &&& takes_hold(facility, transition, timestamp)
                &&& request.verified is Ok
                &&& spendable(ledger, request.escrow.spend)
                &&& ring_unlocked(ledger, request.escrow.spend)
                &&& outputs_fit(ledger, request.escrow.spend)
            }
        }),
{
    let transition = request.transition;
    let spend = request.escrow.spend;
    law_when_an_unlocked_spend_is_admitted(ledger, spend);
    if !ledger.note_serials.contains_key(spend.serial_point) {
        lemma_spend_carried_out(
            ledger,
            hold_placed(ledger, transition),
            spend,
            transition.expires_at,
            request.seal.statement->Ok_0,
        );
    }
}

/// An application reservation opens an active hold, records the reservation as
/// bound, whole and unfilled, spends its note into every one of its outputs, moves the
/// facility, and changes nothing else.
pub proof fn law_what_an_application_reservation_leaves(
    ledger: Ledger,
    request: ApplicationNoteReservation,
    submission: Submission,
    timestamp: u64,
)
    requires
        action_outcome(
            ledger,
            Action::IssueApplicationNoteReservation { request },
            submission,
            timestamp,
        ).result is Ok,
    ensures
        ({
            let outcome = action_outcome(
                ledger,
                Action::IssueApplicationNoteReservation { request },
                submission,
                timestamp,
            );
            let after = outcome.ledger;
            let statement = outcome.result->Ok_0;
            let transition = request.transition;
            let hold = after.credit_holds[transition.hold_id];
            let record = after.application_reservations[transition.hold_id];
            &&& after == (Ledger {
                credit_facilities: ledger.credit_facilities.insert(
                    transition.facility_id,
                    after.credit_facilities[transition.facility_id],
                ),
                credit_holds: ledger.credit_holds.insert(transition.hold_id, hold),
                application_reservations: ledger.application_reservations.insert(
                    transition.hold_id,
                    record,
                ),
                notes: after.notes,
                note_serials: after.note_serials,
                operations: ledger.operations.insert(transition.operation_id, statement),
                ..ledger
            })
            &&& request.seal.statement == Ok::<Id, String>(statement)
            &&& balances_moved(
                ledger.credit_facilities[transition.facility_id],
                after.credit_facilities[transition.facility_id],
                transition,
            )
            &&& hold.status == HoldStatus::Active
            &&& hold.settlement_digest == Id::zero()
            &&& hold.facility_id == transition.facility_id
            &&& hold.query_commitment == transition.query_commitment
            &&& hold.amount_commitment == transition.amount_commitment
            &&& hold.expires_at == transition.expires_at
            &&& hold.created_sequence == transition.before_sequence + 1
            &&& hold.updated_sequence == transition.before_sequence + 1
            &&& record.binding == request.binding
            &&& record.escrow_note_id == request.escrow.escrow_note_id
            &&& record.covenant_serial == request.covenant_serial
            &&& record.status == HoldStatus::Active
            &&& record.sequence == 0
            &&& record.remaining_commitment is None
            &&& record.last_receipt is None
            &&& record.remaining_opening is None
            &&& record.settlement_digest == Id::zero()
            &&& spent_between(
                Ledger {
                    notes: ledger.notes,
                    note_serials: ledger.note_serials,
                    ..after
                },
                after,
                request.escrow.spend,
                transition.expires_at,
                statement,
            )
        }),
{
    let transition = request.transition;
    let spend = request.escrow.spend;
    let statement = request.seal.statement->Ok_0;
    let placed = hold_placed(ledger, transition);
    law_a_spend_makes_every_output(placed, spend, transition.expires_at, statement);
    let spent = apply_spend_progress(placed, spend, transition.expires_at, statement).ledger;
    let after = action_outcome(
        ledger,
        Action::IssueApplicationNoteReservation { request },
        submission,
        timestamp,
    ).ledger;
    lemma_notes_stay(spent, after, spend);
}

/// What is left of a reservation: the last remainder, or all that was reserved.
pub open spec fn left(record: ApplicationReservationRecord) -> Id {
    if record.remaining_commitment is Some {
        record.remaining_commitment->0
    } else {
        record.binding.amount_commitment
    }
}

/// The last receipt of a reservation: of its last fill, or of the reservation.
pub open spec fn receipt(record: ApplicationReservationRecord) -> Id {
    if record.last_receipt is Some {
        record.last_receipt->0
    } else {
        record.binding.receipt_digest
    }
}

/// Whether a fill was made against a reservation as it is: active, of its scope and
/// asset, in time, at its last receipt and remainder.
pub open spec fn at_head(
    ledger: Ledger,
    scope: ApplicationScope,
    head: ApplicationSpendHead,
    asset_id: Id,
    now: u64,
) -> bool {
    let record = ledger.application_reservations[head.hold_id];
    &&& ledger.application_reservations.contains_key(head.hold_id)
    &&& record.status == HoldStatus::Active
    &&& record.binding.scope == scope
    &&& record.binding.asset_id == asset_id
    &&& record.binding.valid_from <= now <= record.binding.valid_until
    &&& record.sequence == head.sequence
    &&& receipt(record) == head.previous_receipt
    &&& left(record) == head.remaining_commitment
}

/// Whether one side of a fill can be carried out: what is consumed and what is left
/// are points that make up what was left, the hold is active and of that amount, the
/// facility is active, of the entity and the asset, and holds points, and the covenant
/// is unspent at the first fill and spent at every later one.
pub open spec fn side_fits(
    ledger: Ledger,
    side: VerifiedSide,
    head: ApplicationSpendHead,
    asset_id: Id,
) -> bool {
    let record = ledger.application_reservations[head.hold_id];
    let hold = ledger.credit_holds[head.hold_id];
    let facility = ledger.credit_facilities[record.binding.facility_id];
    &&& ristretto_point(left(record).0)
    &&& ristretto_point(side.consumed.0)
    &&& ristretto_point(side.remaining.0)
    &&& left(record).0 == ristretto_sum(side.consumed.0, side.remaining.0)
    &&& ledger.credit_holds.contains_key(head.hold_id)
    &&& hold.status == HoldStatus::Active
    &&& hold.amount_commitment == left(record)
    &&& hold.facility_id == record.binding.facility_id
    &&& ledger.credit_facilities.contains_key(record.binding.facility_id)
    &&& facility.status == FacilityStatus::Active
    &&& facility.beneficiary_commitment == record.binding.entity_commitment
    &&& facility.rail_asset_id == asset_id
    &&& facility.sequence < u64::MAX
    &&& ristretto_point(facility.held_commitment.0)
    &&& ristretto_point(facility.outstanding_commitment.0)
    &&& head.close ==> ristretto_point(facility.available_commitment.0)
    &&& record.sequence < u64::MAX
    &&& (record.sequence == 0) == !ledger.note_serials.contains_key(record.covenant_serial)
}

/// Whether one side of a fill was carried out. The consumed amount is owed and no
/// longer held; a fill that closes the reservation frees the rest too. The hold and
/// the reservation have what is left, one sequence on, under the statement of the
/// fill, and are consumed where it closes them.
pub open spec fn side_filled(
    before: Ledger,
    after: Ledger,
    side: VerifiedSide,
    head: ApplicationSpendHead,
    statement: Id,
) -> bool {
    let record = before.application_reservations[head.hold_id];
    let hold = before.credit_holds[head.hold_id];
    let facility = before.credit_facilities[record.binding.facility_id];
    let next_record = after.application_reservations[head.hold_id];
    let next_hold = after.credit_holds[head.hold_id];
    let next_facility = after.credit_facilities[record.binding.facility_id];
    let serial = after.note_serials[record.covenant_serial];
    &&& after.application_reservations.contains_key(head.hold_id)
    &&& after.credit_holds.contains_key(head.hold_id)
    &&& after.credit_facilities.contains_key(record.binding.facility_id)
    &&& next_facility.outstanding_commitment.0 == ristretto_sum(
        facility.outstanding_commitment.0,
        side.consumed.0,
    )
    &&& head.close ==> next_facility.held_commitment.0 == ristretto_difference(
        facility.held_commitment.0,
        left(record).0,
    )
    &&& !head.close ==> next_facility.held_commitment.0 == ristretto_difference(
        facility.held_commitment.0,
        side.consumed.0,
    )
    &&& head.close ==> next_facility.available_commitment.0 == ristretto_sum(
        facility.available_commitment.0,
        side.remaining.0,
    )
    &&& !head.close ==> next_facility.available_commitment == facility.available_commitment
    &&& next_facility.sequence == facility.sequence + 1
    &&& facility == (CreditFacilityRecord {
        available_commitment: facility.available_commitment,
        held_commitment: facility.held_commitment,
        outstanding_commitment: facility.outstanding_commitment,
        sequence: facility.sequence,
        ..next_facility
    })
    &&& next_hold.amount_commitment == side.remaining
    &&& next_hold.updated_sequence == facility.sequence + 1
    &&& head.close ==> next_hold.status == HoldStatus::Consumed && next_hold.settlement_digest
        == statement
    &&& !head.close ==> next_hold.status == hold.status && next_hold.settlement_digest
        == hold.settlement_digest
    &&& hold == (CreditHoldRecord {
        amount_commitment: hold.amount_commitment,
        updated_sequence: hold.updated_sequence,
        status: hold.status,
        settlement_digest: hold.settlement_digest,
        ..next_hold
    })
    &&& next_record.remaining_commitment == Some(side.remaining)
    &&& next_record.last_receipt == Some(statement)
    &&& next_record.sequence == record.sequence + 1
    &&& head.close ==> {
        &&& next_record.status == HoldStatus::Consumed
        &&& next_record.settlement_digest == statement
        &&& next_record.remaining_opening is None
    }
    &&& !head.close ==> {
        &&& next_record.status == record.status
        &&& next_record.settlement_digest == record.settlement_digest
        &&& next_record.remaining_opening == Some(side.normalized_opening)
    }
    &&& next_record.binding == record.binding
    &&& next_record.escrow_note_id == record.escrow_note_id
    &&& next_record.covenant_serial == record.covenant_serial
    &&& after.note_serials.contains_key(record.covenant_serial)
    &&& record.sequence == 0 ==> {
        &&& serial.deadline == record.binding.valid_until
        &&& serial.asset_id == record.binding.asset_id
        &&& serial.ring_root == record.escrow_note_id
        &&& serial.statement == statement
    }
    &&& record.sequence != 0 ==> serial == before.note_serials[record.covenant_serial]
}

proof fn lemma_side(
    ledger: Ledger,
    side: VerifiedSide,
    head: ApplicationSpendHead,
    asset_id: Id,
    statement: Id,
)
    ensures
        ({
            let record = ledger.application_reservations[head.hold_id];
            let step = side_progress(ledger, record, side, head, asset_id, statement);
            let after = step.ledger;
            &&& (step.refusal is None) == side_fits(ledger, side, head, asset_id)
            &&& step.refusal is None ==> {
                &&& side_filled(ledger, after, side, head, statement)
                &&& after == (Ledger {
                    credit_facilities: ledger.credit_facilities.insert(
                        record.binding.facility_id,
                        after.credit_facilities[record.binding.facility_id],
                    ),
                    credit_holds: ledger.credit_holds.insert(
                        head.hold_id,
                        after.credit_holds[head.hold_id],
                    ),
                    application_reservations: ledger.application_reservations.insert(
                        head.hold_id,
                        after.application_reservations[head.hold_id],
                    ),
                    note_serials: ledger.note_serials.insert(
                        record.covenant_serial,
                        after.note_serials[record.covenant_serial],
                    ),
                    ..ledger
                })
            }
        }),
{
    let record = ledger.application_reservations[head.hold_id];
    let step = side_progress(ledger, record, side, head, asset_id, statement);
    assert(left(record).0 == ristretto_sum(side.consumed.0, side.remaining.0) <==> left(record)
        == Id(ristretto_sum(side.consumed.0, side.remaining.0)));
    if step.refusal is None {
        assert(step.ledger.note_serials =~= ledger.note_serials.insert(
            record.covenant_serial,
            step.ledger.note_serials[record.covenant_serial],
        ));
    }
}

/// Whether claims can be made: well formed, with openings, new and different.
pub open spec fn claims_fit(ledger: Ledger, claims: Seq<NoteClaim>, from: int) -> bool {
    &&& forall|a: int|
        from <= a < claims.len() ==> {
            &&& (#[trigger] claims[a]).shape is Ok
            &&& claims[a].opening_record is Ok
            &&& !ledger.note_claims.contains_key(claims[a].claim_id)
        }
    &&& forall|a: int, b: int|
        from <= a < b < claims.len() ==> (#[trigger] claims[a]).claim_id != (
        #[trigger] claims[b]).claim_id
}

/// Whether a claim from a position on has an identifier.
pub open spec fn has_claim(claims: Seq<NoteClaim>, from: int, claim_id: Id) -> bool {
    exists|a: int| from <= a < claims.len() && (#[trigger] claims[a]).claim_id == claim_id
}

proof fn lemma_claims_made(ledger: Ledger, claims: Seq<NoteClaim>, statement: Id, from: nat)
    ensures
        ({
            let step = insert_claims_progress(ledger, claims, statement, from);
            let after = step.ledger;
            &&& (step.refusal is None) == claims_fit(ledger, claims, from as int)
            &&& after == (Ledger { note_claims: after.note_claims, ..ledger })
            &&& step.refusal is None ==> {
                &&& forall|a: int|
                    from <= a < claims.len() ==> is_claim(after, #[trigger] claims[a], statement)
                &&& forall|claim_id: Id|
                    !has_claim(claims, from as int, claim_id) ==> #[trigger] same_at(
                        ledger.note_claims,
                        after.note_claims,
                        claim_id,
                    )
            }
        }),
    decreases claims.len() - from,
{
    if from < claims.len() {
        let first = claims[from as int];
        let step = insert_claim_progress(ledger, first, statement);
        let after = insert_claims_progress(ledger, claims, statement, from).ledger;
        if step.refusal is None {
            let next = step.ledger;
            lemma_claims_made(next, claims, statement, from + 1);
            if claims_fit(ledger, claims, from as int) {
                assert forall|a: int| from + 1 <= a < claims.len() implies {
                    &&& (#[trigger] claims[a]).shape is Ok
                    &&& claims[a].opening_record is Ok
                    &&& !next.note_claims.contains_key(claims[a].claim_id)
                } by {
                    assert(claims[from as int].claim_id != claims[a].claim_id);
                }
                assert(claims_fit(next, claims, from as int + 1));
            }
            if claims_fit(next, claims, from as int + 1) {
                assert forall|a: int, b: int| from <= a < b < claims.len() implies (
                #[trigger] claims[a]).claim_id != (#[trigger] claims[b]).claim_id by {
                    assert(!next.note_claims.contains_key(claims[b].claim_id));
                }
                assert(claims_fit(ledger, claims, from as int));
                if has_claim(claims, from as int + 1, first.claim_id) {
                    let b = choose|b: int|
                        from + 1 <= b < claims.len() && (#[trigger] claims[b]).claim_id
                            == first.claim_id;
                    assert(claims[from as int].claim_id != claims[b].claim_id);
                }
                assert(same_at(next.note_claims, after.note_claims, first.claim_id));
                assert forall|a: int| from <= a < claims.len() implies is_claim(
                    after,
                    #[trigger] claims[a],
                    statement,
                ) by {
                    if a == from {
                        assert(is_claim(next, first, statement));
                    }
                }
                assert forall|claim_id: Id|
                    !has_claim(claims, from as int, claim_id) implies #[trigger] same_at(
                    ledger.note_claims,
                    after.note_claims,
                    claim_id,
                ) by {
                    assert(claim_id != first.claim_id) by {
                        if claim_id == first.claim_id {
                            assert(has_claim(claims, from as int, claim_id));
                        }
                    }
                    if has_claim(claims, from as int + 1, claim_id) {
                        let b = choose|b: int|
                            from + 1 <= b < claims.len() && (#[trigger] claims[b]).claim_id
                                == claim_id;
                        assert(has_claim(claims, from as int, claim_id));
                    }
                    assert(same_at(next.note_claims, after.note_claims, claim_id));
                }
            }
        } else {
            assert(!claims_fit(ledger, claims, from as int)) by {
                assert(claims[from as int] == first);
            }
        }
    }
}

/// Whether the two reservations of a fill are different ones, on different
/// facilities and covenants.
pub open spec fn sides_apart(ledger: Ledger, order: ApplicationNoteFill) -> bool {
    let securities = ledger.application_reservations[order.securities.hold_id];
    let cash = ledger.application_reservations[order.cash.hold_id];
    &&& order.securities.hold_id != order.cash.hold_id
    &&& securities.binding.facility_id != cash.binding.facility_id
    &&& securities.covenant_serial != cash.covenant_serial
}

/// A fill is carried out exactly where it is on top of the current state and new, its
/// scope is registered, both reservations are as the fill found them, it was verified
/// for the scope and the time, its payment is new, both sides can be carried out, and
/// its claims can be made.
pub proof fn law_when_a_fill_is_carried_out(
    ledger: Ledger,
    order: ApplicationNoteFill,
    parent: Id,
    now: u64,
)
    requires
        sides_apart(ledger, order),
    ensures
        ({
            let key = order.scope_key->Ok_0;
            let scope = ledger.application_reserve_scopes[key];
            let verified = order.verified->Ok_0;
            (fill_outcome(ledger, order, parent, now).result is Ok) == {
                &&& order.before_root == parent
                &&& !ledger.operations.contains_key(order.operation_id)
                &&& order.scope_key is Ok
                &&& ledger.application_reserve_scopes.contains_key(key)
                &&& at_head(ledger, scope, order.securities, order.securities_asset, now)
                &&& at_head(ledger, scope, order.cash, order.cash_asset, now)
                &&& order.verified is Ok
                &&& verified.scope == scope
                &&& verified.now == now
                &&& !ledger.nullifiers.contains_key(verified.nullifier)
                &&& side_fits(
                    ledger,
                    verified.securities,
                    order.securities,
                    order.securities_asset,
                )
                &&& side_fits(ledger, verified.cash, order.cash, order.cash_asset)
                &&& claims_fit(ledger, verified.claims@, 0)
            }
        }),
{
    let verified = order.verified->Ok_0;
    let statement = verified.statement;
    lemma_side(ledger, verified.securities, order.securities, order.securities_asset, statement);
    let securities = side_progress(
        ledger,
        ledger.application_reservations[order.securities.hold_id],
        verified.securities,
        order.securities,
        order.securities_asset,
        statement,
    );
    if securities.refusal is None {
        lemma_side(securities.ledger, verified.cash, order.cash, order.cash_asset, statement);
        assert(securities.ledger.application_reservations[order.cash.hold_id]
            == ledger.application_reservations[order.cash.hold_id]);
        assert(side_fits(securities.ledger, verified.cash, order.cash, order.cash_asset)
            == side_fits(ledger, verified.cash, order.cash, order.cash_asset));
        let cash = side_progress(
            securities.ledger,
            ledger.application_reservations[order.cash.hold_id],
            verified.cash,
            order.cash,
            order.cash_asset,
            statement,
        );
        if cash.refusal is None {
            lemma_claims_made(cash.ledger, verified.claims@, statement, 0);
            assert(claims_fit(cash.ledger, verified.claims@, 0) == claims_fit(
                ledger,
                verified.claims@,
                0,
            ));
        }
    }
}

/// A fill carries out both of its sides, makes every claim with the claim's own
/// fields, uses up its payment, records its operation, and changes nothing else.
pub proof fn law_what_a_fill_leaves(
    ledger: Ledger,
    order: ApplicationNoteFill,
    parent: Id,
    now: u64,
)
    requires
        sides_apart(ledger, order),
        fill_outcome(ledger, order, parent, now).result is Ok,
    ensures
        ({
            let after = fill_outcome(ledger, order, parent, now).ledger;
            let verified = order.verified->Ok_0;
            let statement = verified.statement;
            let securities = ledger.application_reservations[order.securities.hold_id];
            let cash = ledger.application_reservations[order.cash.hold_id];
            &&& fill_outcome(ledger, order, parent, now).result->Ok_0 == statement
            &&& side_filled(ledger, after, verified.securities, order.securities, statement)
            &&& side_filled(ledger, after, verified.cash, order.cash, statement)
            &&& forall|a: int|
                0 <= a < verified.claims@.len() ==> is_claim(
                    after,
                    #[trigger] verified.claims@[a],
                    statement,
                )
            &&& forall|claim_id: Id|
                !has_claim(verified.claims@, 0, claim_id) ==> #[trigger] same_at(
                    ledger.note_claims,
                    after.note_claims,
                    claim_id,
                )
            &&& after == (Ledger {
                credit_facilities: ledger.credit_facilities.insert(
                    securities.binding.facility_id,
                    after.credit_facilities[securities.binding.facility_id],
                ).insert(
                    cash.binding.facility_id,
                    after.credit_facilities[cash.binding.facility_id],
                ),
                credit_holds: ledger.credit_holds.insert(
                    order.securities.hold_id,
                    after.credit_holds[order.securities.hold_id],
                ).insert(order.cash.hold_id, after.credit_holds[order.cash.hold_id]),
                application_reservations: ledger.application_reservations.insert(
                    order.securities.hold_id,
                    after.application_reservations[order.securities.hold_id],
                ).insert(
                    order.cash.hold_id,
                    after.application_reservations[order.cash.hold_id],
                ),
                note_serials: ledger.note_serials.insert(
                    securities.covenant_serial,
                    after.note_serials[securities.covenant_serial],
                ).insert(cash.covenant_serial, after.note_serials[cash.covenant_serial]),
                note_claims: after.note_claims,
                nullifiers: ledger.nullifiers.insert(
                    verified.nullifier,
                    NullifierRecord { deadline: verified.deadline, statement },
                ),
                operations: ledger.operations.insert(order.operation_id, statement),
                ..ledger
            })
        }),
{
    let verified = order.verified->Ok_0;
    let statement = verified.statement;
    lemma_side(ledger, verified.securities, order.securities, order.securities_asset, statement);
    let securities = side_progress(
        ledger,
        ledger.application_reservations[order.securities.hold_id],
        verified.securities,
        order.securities,
        order.securities_asset,
        statement,
    );
    lemma_side(securities.ledger, verified.cash, order.cash, order.cash_asset, statement);
    assert(securities.ledger.application_reservations[order.cash.hold_id]
        == ledger.application_reservations[order.cash.hold_id]);
    let cash = side_progress(
        securities.ledger,
        ledger.application_reservations[order.cash.hold_id],
        verified.cash,
        order.cash,
        order.cash_asset,
        statement,
    );
    lemma_claims_made(cash.ledger, verified.claims@, statement, 0);
    let claimed = insert_claims_progress(cash.ledger, verified.claims@, statement, 0).ledger;
    let after = fill_outcome(ledger, order, parent, now).ledger;
    assert forall|a: int| 0 <= a < verified.claims@.len() implies is_claim(
        after,
        #[trigger] verified.claims@[a],
        statement,
    ) by {
        assert(is_claim(claimed, verified.claims@[a], statement));
    }
    assert forall|claim_id: Id|
        !has_claim(verified.claims@, 0, claim_id) implies #[trigger] same_at(
        ledger.note_claims,
        after.note_claims,
        claim_id,
    ) by {
        assert(same_at(cash.ledger.note_claims, claimed.note_claims, claim_id));
    }
}

/// What is left of an application reservation is released exactly where the release
/// is on top of the current state, new and against the reservation as it is, was
/// verified for its scope, end and time, the hold and the facility agree with the
/// reservation, and the refund can be made: of an unfilled reservation a note like the
/// escrowed one but unlocked, of a filled one a new claim to the remainder.
pub proof fn law_when_what_is_left_is_released(
    ledger: Ledger,
    order: ApplicationNoteRelease,
    submission: Submission,
    timestamp: u64,
)
    ensures
        ({
            let record = ledger.application_reservations[order.hold_id];
            let hold = ledger.credit_holds[order.hold_id];
            let facility = ledger.credit_facilities[record.binding.facility_id];
            let verified = order.verified->Ok_0;
            let escrowed = ledger.notes[record.escrow_note_id];
            let output = order.refund_note->Ok_0;
            let refund = order.refund_claim->Ok_0;
            (action_outcome(
                ledger,
                Action::IssueApplicationNoteRelease { order },
                submission,
                timestamp,
            ).result is Ok) == {
                &&& order.before_root == submission.before_root
                &&& !ledger.operations.contains_key(order.operation_id)
                &&& ledger.application_reservations.contains_key(order.hold_id)
                &&& record.status == HoldStatus::Active
                &&& record.sequence == order.sequence < u64::MAX
                &&& receipt(record) == order.previous_receipt
                &&& order.verified is Ok
                &&& verified.scope == record.binding.scope
                &&& verified.valid_until == record.binding.valid_until
                &&& verified.now == timestamp
                &&& ledger.credit_holds.contains_key(order.hold_id)
                &&& hold.status == HoldStatus::Active
                &&& hold.amount_commitment == left(record)
                &&& hold.facility_id == record.binding.facility_id
                &&& ristretto_point(left(record).0)
                &&& ledger.credit_facilities.contains_key(record.binding.facility_id)
                &&& ristretto_point(facility.held_commitment.0)
                &&& ristretto_point(facility.available_commitment.0)
                &&& facility.sequence < u64::MAX
                &&& record.sequence == 0 ==> {
                    &&& !ledger.note_serials.contains_key(record.covenant_serial)
                    &&& ledger.notes.contains_key(record.escrow_note_id)
                    &&& order.refund_note is Ok
                    &&& output.asset_id == escrowed.asset_id
                    &&& output.one_time == escrowed.one_time
                    &&& output.value_commitment == escrowed.value_commitment
                    &&& output.ephemeral == escrowed.ephemeral
                    &&& output.masked_value == escrowed.masked_value
                    &&& output.masked_blinding == escrowed.masked_blinding
                    &&& output.lock_id == Id::zero()
                    &&& can_be_note(ledger, output)
                }
                &&& record.sequence != 0 ==> {
                    &&& ledger.note_serials.contains_key(record.covenant_serial)
                    &&& record.remaining_opening is Some
                    &&& order.refund_claim is Ok
                    &&& refund.request.asset_id == record.binding.asset_id
                    &&& refund.request.hold_id == order.hold_id
                    &&& refund.request.value_commitment == left(record)
                    &&& refund.request.operation_id == order.operation_id
                    &&& refund.request.opening@ == record.remaining_opening->0@
                    &&& refund.claim.kind == NoteClaimKind::Refund
                    &&& refund.claim.asset_id == record.binding.asset_id
                    &&& refund.claim.value_commitment == left(record)
                    &&& refund.claim.source_hold_id == order.hold_id
                    &&& refund.claim.shape is Ok
                    &&& refund.claim.opening_record is Ok
                    &&& !ledger.note_claims.contains_key(refund.claim.claim_id)
                }
            }
        }),
{
}

/// A release frees what is left and no longer holds it, ends the hold and the
/// reservation one sequence on, and gives back an unlocked note, or a claim where the
/// reservation was filled. The covenant counts as spent. Nothing else changes.
pub proof fn law_what_releasing_what_is_left_leaves(
    ledger: Ledger,
    order: ApplicationNoteRelease,
    submission: Submission,
    timestamp: u64,
)
    requires
        action_outcome(
            ledger,
            Action::IssueApplicationNoteRelease { order },
            submission,
            timestamp,
        ).result is Ok,
    ensures
        ({
            let outcome = action_outcome(
                ledger,
                Action::IssueApplicationNoteRelease { order },
                submission,
                timestamp,
            );
            let after = outcome.ledger;
            let statement = outcome.result->Ok_0;
            let record = ledger.application_reservations[order.hold_id];
            let hold = ledger.credit_holds[order.hold_id];
            let facility_id = record.binding.facility_id;
            let facility = ledger.credit_facilities[facility_id];
            let next_record = after.application_reservations[order.hold_id];
            let next_hold = after.credit_holds[order.hold_id];
            let next_facility = after.credit_facilities[facility_id];
            let serial = after.note_serials[record.covenant_serial];
            let output = order.refund_note->Ok_0;
            let claim = order.refund_claim->Ok_0.claim;
            &&& order.verified->Ok_0.statement == statement
            &&& after == (Ledger {
                credit_facilities: ledger.credit_facilities.insert(facility_id, next_facility),
                credit_holds: ledger.credit_holds.insert(order.hold_id, next_hold),
                application_reservations: ledger.application_reservations.insert(
                    order.hold_id,
                    next_record,
                ),
                operations: ledger.operations.insert(order.operation_id, statement),
                notes: if record.sequence == 0 {
                    ledger.notes.insert(output.note_id, after.notes[output.note_id])
                } else {
                    ledger.notes
                },
                note_serials: if record.sequence == 0 {
                    ledger.note_serials.insert(record.covenant_serial, serial)
                } else {
                    ledger.note_serials
                },
                note_claims: if record.sequence == 0 {
                    ledger.note_claims
                } else {
                    ledger.note_claims.insert(claim.claim_id, after.note_claims[claim.claim_id])
                },
                ..ledger
            })
            &&& next_facility.held_commitment.0 == ristretto_difference(
                facility.held_commitment.0,
                left(record).0,
            )
            &&& next_facility.available_commitment.0 == ristretto_sum(
                facility.available_commitment.0,
                left(record).0,
            )
            &&& next_facility.sequence == facility.sequence + 1
            &&& facility == (CreditFacilityRecord {
                available_commitment: facility.available_commitment,
                held_commitment: facility.held_commitment,
                sequence: facility.sequence,
                ..next_facility
            })
            &&& next_hold.status == HoldStatus::Released
            &&& next_hold.settlement_digest == Id::zero()
            &&& next_hold.updated_sequence == facility.sequence + 1
            &&& hold == (CreditHoldRecord {
                status: hold.status,
                settlement_digest: hold.settlement_digest,
                updated_sequence: hold.updated_sequence,
                ..next_hold
            })
            &&& next_record.status == HoldStatus::Released
            &&& next_record.remaining_commitment == Some(left(record))
            &&& next_record.remaining_opening is None
            &&& next_record.last_receipt == Some(statement)
            &&& next_record.sequence == record.sequence + 1
            &&& next_record.settlement_digest == Id::zero()
            &&& next_record.binding == record.binding
            &&& next_record.escrow_note_id == record.escrow_note_id
            &&& next_record.covenant_serial == record.covenant_serial
            &&& record.sequence == 0 ==> {
                &&& is_note(after, output)
                &&& serial.deadline == record.binding.valid_until
                &&& serial.asset_id == record.binding.asset_id
                &&& serial.ring_root == record.escrow_note_id
                &&& serial.statement == statement
            }
            &&& record.sequence != 0 ==> is_claim(after, claim, statement)
        }),
{
}

/// A fill that was not signed as part of a batch is carried out as it stands, on the
/// current root, and one that was is refused alone.
pub proof fn law_a_fill_settles_alone_or_in_its_batch(
    ledger: Ledger,
    order: ApplicationNoteFill,
    submission: Submission,
    timestamp: u64,
)
    ensures
        ({
            let outcome = action_outcome(
                ledger,
                Action::IssueApplicationNoteFill { order },
                submission,
                timestamp,
            );
            &&& order.batched ==> outcome.result is Err && outcome.ledger == ledger
            &&& !order.batched ==> outcome == fill_outcome(
                ledger,
                order,
                submission.before_root,
                timestamp,
            )
        }),
{
}

} // verus!
