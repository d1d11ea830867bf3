//! When accounts are settled and trades between them, and what a settlement leaves
//! behind.

use vstd::prelude::*;

use crate::endorsement::{endorsement_refusal, Submission};
use crate::execution::product::{
    consume_progress, consumed_ledger, consumption_refusal, consumptions_verdict, legs_progress,
    legs_refusal, move_progress, nullified, payment_leg, product_outcome,
};
use crate::execution::reservation_laws::{balances_moved, hold_ended, proved_on, proved_on_hold};
use crate::execution::{action_outcome, Action};
use crate::id::Id;
use crate::order::{
    CreditTransitionKind, ProductSettlementOrder, ProductTerms, ReservationConsumption,
    SettlementOrder, StateLeg,
};
use crate::state::{
    AssetKind, HoldStatus, Ledger, NullifierRecord, ReservationEscrowRecord, ReservationRole,
};

verus! {

/// Whether a reservation is the one that its side of a trade signed, and what it
/// gives up is what the trade proves. The maker gives the traded asset in direction
/// one and the taker in direction two, in the traded quantity; the other side pays
/// the cash amount.
pub open spec fn side_of_trade(
    ledger: Ledger,
    terms: ProductTerms,
    consumption: ReservationConsumption,
    payment_asset_id: Id,
) -> bool {
    let transition = consumption.transition;
    let binding = ledger.reservation_bindings[transition.hold_id];
    &&& ledger.reservation_bindings.contains_key(transition.hold_id)
    &&& binding.role == consumption.role
    &&& binding.receipt_digest == consumption.reserve_receipt_digest
    &&& binding.receipt_digest != Id::zero()
    &&& consumption.role == ReservationRole::Maker ==> {
        &&& binding.entity_commitment == terms.maker_entity_commitment
        &&& binding.authorization_digest == terms.maker_policy_digest
        &&& binding.mandate_digest == terms.maker_mandate_digest
        &&& binding.policy_version != 0
        &&& binding.rfq_nullifier == Id::zero()
        &&& binding.direction == 1 ==> binding.asset_id == terms.traded_asset_id
        &&& binding.direction == 2 ==> binding.asset_id == payment_asset_id
    }
    &&& consumption.role == ReservationRole::Taker ==> {
        &&& binding.entity_commitment == terms.taker_entity_commitment
        &&& binding.authorization_digest == terms.taker_authorization_digest
        &&& binding.mandate_digest == terms.taker_mandate_digest
        &&& binding.rfq_nullifier == terms.rfq_nullifier
        &&& binding.admission_receipt_digest == terms.admission_receipt_digest
        &&& binding.admission_epoch == terms.admission_epoch
        &&& binding.admission_sequence == terms.admission_sequence
        &&& binding.direction == 2 ==> binding.asset_id == terms.traded_asset_id
        &&& binding.direction == 1 ==> binding.asset_id == payment_asset_id
    }
    &&& binding.asset_id == terms.traded_asset_id ==> transition.consumed_commitment
        == terms.quantity_commitment
    &&& binding.asset_id == payment_asset_id ==> transition.consumed_commitment
        == terms.cash_commitment
}

/// Whether the consumption of a reservation was proved for a settlement, in time and
/// against the facility and the hold as they are.
pub open spec fn proved_for(
    ledger: Ledger,
    consumption: ReservationConsumption,
    base_statement: Id,
    timestamp: u64,
) -> bool {
    let transition = consumption.transition;
    let binding = ledger.reservation_bindings[transition.hold_id];
    let facility = ledger.credit_facilities[transition.facility_id];
    &&& transition.kind == CreditTransitionKind::Consume
    &&& transition.settlement_digest == base_statement
    &&& timestamp <= transition.expires_at
    &&& ledger.credit_facilities.contains_key(transition.facility_id)
    &&& facility.beneficiary_commitment == binding.entity_commitment
    &&& facility.rail_asset_id == binding.asset_id
    &&& proved_on(facility, transition)
    &&& ledger.credit_holds.contains_key(transition.hold_id)
    &&& proved_on_hold(ledger.credit_holds[transition.hold_id], transition)
    &&& consumption.transition_statement is Ok
}

/// Whether the operation of a reservation is new: neither recorded, nor the
/// settlement's own, nor that of an earlier reservation.
pub open spec fn new_operation(
    ledger: Ledger,
    reservations: Seq<ReservationConsumption>,
    operation_id: Id,
    at: int,
) -> bool {
    let own = reservations[at].transition.operation_id;
    &&& !ledger.operations.contains_key(own)
    &&& own != operation_id
    &&& forall|i: int|
        0 <= i < at ==> (#[trigger] reservations[i]).transition.operation_id != own
}

/// Whether every reservation that is known was signed for direction one or two.
pub open spec fn directed(ledger: Ledger, reservations: Seq<ReservationConsumption>) -> bool {
    forall|i: int|
        0 <= i < reservations.len() ==> {
            let direction = ledger.reservation_bindings[(
            #[trigger] reservations[i]).transition.hold_id].direction;
            direction == 1 || direction == 2
        }
}

/// The direction that the reservation at a position was signed for.
pub open spec fn direction_of(
    ledger: Ledger,
    reservations: Seq<ReservationConsumption>,
    at: int,
) -> u8 {
    ledger.reservation_bindings[reservations[at].transition.hold_id].direction
}

/// Whether two maps have the same under a key, or both nothing.
pub open spec fn same_at<V>(before: Map<Id, V>, after: Map<Id, V>, id: Id) -> bool {
    &&& after.contains_key(id) == before.contains_key(id)
    &&& after[id] == before[id]
}

/// Whether a reservation from a position on is on a facility.
pub open spec fn on_facility(
    reservations: Seq<ReservationConsumption>,
    from: int,
    facility_id: Id,
) -> bool {
    exists|i: int|
        from <= i < reservations.len() && (#[trigger] reservations[i]).transition.facility_id
            == facility_id
}

/// Whether a reservation from a position on is of a hold.
pub open spec fn of_hold(
    reservations: Seq<ReservationConsumption>,
    from: int,
    hold_id: Id,
) -> bool {
    exists|i: int|
        from <= i < reservations.len() && (#[trigger] reservations[i]).transition.hold_id
            == hold_id
}

/// Whether a reservation from a position on is consumed in an operation.
pub open spec fn in_operation(
    reservations: Seq<ReservationConsumption>,
    from: int,
    operation_id: Id,
) -> bool {
    exists|i: int|
        from <= i < reservations.len() && (#[trigger] reservations[i]).transition.operation_id
            == operation_id
}

/// Whether two reservations were signed for one direction.
pub open spec fn same_direction(
    ledger: Ledger,
    left: ReservationConsumption,
    right: ReservationConsumption,
) -> bool {
    ledger.reservation_bindings[left.transition.hold_id].direction
        == ledger.reservation_bindings[right.transition.hold_id].direction
}

/// Whether an active escrow of the reserved amount backs a reservation and one of the
/// legs is on its account.
pub open spec fn escrow_backs(
    ledger: Ledger,
    legs: Seq<StateLeg>,
    consumption: ReservationConsumption,
) -> bool {
    let transition = consumption.transition;
    let escrow = ledger.reservation_escrows[transition.hold_id];
    &&& ledger.reservation_escrows.contains_key(transition.hold_id)
    &&& escrow.status == HoldStatus::Active
    &&& escrow.asset_id == ledger.reservation_bindings[transition.hold_id].asset_id
    &&& escrow.amount_commitment == transition.amount_commitment
    &&& exists|k: int|
        0 <= k < legs.len() && (#[trigger] legs[k]).handle == escrow.source_handle
            && legs[k].asset_id == escrow.asset_id
}

/// Whether a settlement can consume a reservation: it is a side of the trade, proved
/// for the settlement, in a new operation, and backed by an active escrow
/// whose account has a leg of the settlement.
pub open spec fn usable_reservation(
    ledger: Ledger,
    order: ProductSettlementOrder,
    payment_asset_id: Id,
    timestamp: u64,
    at: int,
) -> bool {
    let consumption = order.reservations@[at];
    &&& new_operation(ledger, order.reservations@, order.settlement.operation_id, at)
    &&& side_of_trade(ledger, order.terms, consumption, payment_asset_id)
    &&& proved_for(ledger, consumption, order.settlement.seal.statement->Ok_0, timestamp)
    &&& escrow_backs(ledger, order.settlement.legs@, consumption)
}

proof fn lemma_usable(
    ledger: Ledger,
    order: ProductSettlementOrder,
    payment_asset_id: Id,
    timestamp: u64,
    direction: u8,
    at: int,
)
    requires
        directed(ledger, order.reservations@),
        payment_asset_id != order.terms.traded_asset_id,
        0 <= at < order.reservations@.len(),
    ensures
        (consumption_refusal(
            ledger,
            order,
            payment_asset_id,
            order.settlement.seal.statement->Ok_0,
            timestamp,
            direction,
            at,
        ) is None) == {
            &&& usable_reservation(ledger, order, payment_asset_id, timestamp, at)
            &&& direction == 0 || direction == direction_of(ledger, order.reservations@, at)
        },
{
    let consumption = order.reservations@[at];
    assert(ledger.reservation_bindings[consumption.transition.hold_id].direction == 1
        || ledger.reservation_bindings[consumption.transition.hold_id].direction == 2);
}

proof fn lemma_verdict(
    ledger: Ledger,
    order: ProductSettlementOrder,
    payment_asset_id: Id,
    timestamp: u64,
    direction: u8,
    from: nat,
)
    requires
        directed(ledger, order.reservations@),
        payment_asset_id != order.terms.traded_asset_id,
    ensures
        ({
            let verdict = consumptions_verdict(
                ledger,
                order,
                payment_asset_id,
                order.settlement.seal.statement->Ok_0,
                timestamp,
                direction,
                from,
            );
            &&& (verdict is Ok) == {
                &&& forall|i: int|
                    from <= i < order.reservations@.len() ==> {
                        &&& #[trigger] usable_reservation(
                            ledger,
                            order,
                            payment_asset_id,
                            timestamp,
                            i,
                        )
                        &&& direction == 0 || direction == direction_of(
                            ledger,
                            order.reservations@,
                            i,
                        )
                    }
                &&& forall|i: int, j: int|
                    from <= i < j < order.reservations@.len() ==> same_direction(
                        ledger,
                        #[trigger] order.reservations@[i],
                        #[trigger] order.reservations@[j],
                    )
            }
            &&& verdict is Ok && from >= order.reservations@.len() ==> verdict->Ok_0 == direction
            &&& verdict is Ok && from < order.reservations@.len() ==> verdict->Ok_0
                == direction_of(ledger, order.reservations@, from as int)
        }),
    decreases order.reservations@.len() - from,
{
    if from < order.reservations@.len() {
        let at = from as int;
        let next = direction_of(ledger, order.reservations@, at);
        let consumption = order.reservations@[at];
        assert(next == 1 || next == 2);
        lemma_usable(ledger, order, payment_asset_id, timestamp, direction, at);
        lemma_verdict(ledger, order, payment_asset_id, timestamp, next, from + 1);
        let verdict = consumptions_verdict(
            ledger,
            order,
            payment_asset_id,
            order.settlement.seal.statement->Ok_0,
            timestamp,
            direction,
            from,
        );
        if verdict is Ok {
            assert forall|i: int, j: int|
                from <= i < j < order.reservations@.len() implies same_direction(
                ledger,
                #[trigger] order.reservations@[i],
                #[trigger] order.reservations@[j],
            ) by {
                assert(usable_reservation(ledger, order, payment_asset_id, timestamp, j));
                if i > from {
                    assert(usable_reservation(ledger, order, payment_asset_id, timestamp, i));
                }
            }
            assert forall|i: int| from <= i < order.reservations@.len() implies {
                &&& #[trigger] usable_reservation(ledger, order, payment_asset_id, timestamp, i)
                &&& direction == 0 || direction == direction_of(ledger, order.reservations@, i)
            } by {}
        }
        if (forall|i: int|
            from <= i < order.reservations@.len() ==> {
                &&& #[trigger] usable_reservation(ledger, order, payment_asset_id, timestamp, i)
                &&& direction == 0 || direction == direction_of(ledger, order.reservations@, i)
            }) && (forall|i: int, j: int|
            from <= i < j < order.reservations@.len() ==> same_direction(
                ledger,
                #[trigger] order.reservations@[i],
                #[trigger] order.reservations@[j],
            )) {
            assert(usable_reservation(ledger, order, payment_asset_id, timestamp, at));
            assert forall|i: int| from + 1 <= i < order.reservations@.len() implies {
                &&& #[trigger] usable_reservation(ledger, order, payment_asset_id, timestamp, i)
                &&& next == 0 || next == direction_of(ledger, order.reservations@, i)
            } by {
                assert(same_direction(ledger, order.reservations@[at], order.reservations@[i]));
            }
        }
    }
}

proof fn lemma_consume_refusal(
    before: Ledger,
    ledger: Ledger,
    reservations: Seq<ReservationConsumption>,
    statement: Id,
    from: nat,
)
    ensures
        (consume_progress(before, ledger, reservations, statement, from).refusal is None) == (
        forall|i: int|
            from <= i < reservations.len() ==> before.credit_facilities[(
            #[trigger] reservations[i]).transition.facility_id].sequence < u64::MAX),
        ({
            let after = consume_progress(before, ledger, reservations, statement, from).ledger;
            after == (Ledger {
                credit_facilities: after.credit_facilities,
                credit_holds: after.credit_holds,
                reservation_escrows: after.reservation_escrows,
                operations: after.operations,
                ..ledger
            })
        }),
    decreases reservations.len() - from,
{
    if from < reservations.len() {
        let next = consumed_ledger(before, ledger, reservations[from as int], statement);
        lemma_consume_refusal(before, next, reservations, statement, from + 1);
    }
}

proof fn lemma_consume_elsewhere(
    before: Ledger,
    ledger: Ledger,
    reservations: Seq<ReservationConsumption>,
    statement: Id,
    from: nat,
    id: Id,
)
    ensures
        ({
            let after = consume_progress(before, ledger, reservations, statement, from).ledger;
            &&& !on_facility(reservations, from as int, id) ==> same_at(
                ledger.credit_facilities,
                after.credit_facilities,
                id,
            )
            &&& !of_hold(reservations, from as int, id) ==> {
                &&& same_at(ledger.credit_holds, after.credit_holds, id)
                &&& same_at(ledger.reservation_escrows, after.reservation_escrows, id)
            }
            &&& !in_operation(reservations, from as int, id) ==> same_at(
                ledger.operations,
                after.operations,
                id,
            )
        }),
    decreases reservations.len() - from,
{
    if from < reservations.len() {
        let next = consumed_ledger(before, ledger, reservations[from as int], statement);
        let transition = reservations[from as int].transition;
        if transition.facility_id == id {
            assert(on_facility(reservations, from as int, id));
        }
        if transition.hold_id == id {
            assert(of_hold(reservations, from as int, id));
        }
        if transition.operation_id == id {
            assert(in_operation(reservations, from as int, id));
        }
        lemma_consume_elsewhere(before, next, reservations, statement, from + 1, id);
    }
}

proof fn lemma_consume_at(
    before: Ledger,
    ledger: Ledger,
    reservations: Seq<ReservationConsumption>,
    statement: Id,
    from: nat,
    at: int,
)
    requires
        from <= at < reservations.len(),
        consume_progress(before, ledger, reservations, statement, from).refusal is None,
        reservations[at].transition.before_sequence
            == before.credit_facilities[reservations[at].transition.facility_id].sequence,
    ensures
        ({
            let after = consume_progress(before, ledger, reservations, statement, from).ledger;
            let transition = reservations[at].transition;
            let facility = before.credit_facilities[transition.facility_id];
            let escrow = before.reservation_escrows[transition.hold_id];
            let ended = after.reservation_escrows[transition.hold_id];
            &&& !on_facility(reservations, at + 1, transition.facility_id) ==> {
                &&& after.credit_facilities.contains_key(transition.facility_id)
                &&& balances_moved(
                    facility,
                    after.credit_facilities[transition.facility_id],
                    transition,
                )
            }
            &&& !of_hold(reservations, at + 1, transition.hold_id) ==> {
                &&& after.credit_holds.contains_key(transition.hold_id)
                &&& hold_ended(
                    before.credit_holds[transition.hold_id],
                    after.credit_holds[transition.hold_id],
                    HoldStatus::Consumed,
                    transition.settlement_digest,
                    facility,
                )
                &&& after.reservation_escrows.contains_key(transition.hold_id)
                &&& ended.status == HoldStatus::Consumed
                &&& ended.settlement_digest == statement
                &&& escrow == (ReservationEscrowRecord {
                    status: escrow.status,
                    settlement_digest: escrow.settlement_digest,
                    ..ended
                })
            }
            &&& !in_operation(reservations, at + 1, transition.operation_id) ==> {
                &&& after.operations.contains_key(transition.operation_id)
                &&& after.operations[transition.operation_id]
                    == reservations[at].transition_statement->Ok_0
            }
        }),
    decreases reservations.len() - from,
{
    lemma_consume_refusal(before, ledger, reservations, statement, from);
    let next = consumed_ledger(before, ledger, reservations[from as int], statement);
    if from == at {
        let transition = reservations[at].transition;
        assert(before.credit_facilities[transition.facility_id].sequence < u64::MAX);
        lemma_consume_elsewhere(
            before,
            next,
            reservations,
            statement,
            from + 1,
            transition.facility_id,
        );
        lemma_consume_elsewhere(
            before,
            next,
            reservations,
            statement,
            from + 1,
            transition.hold_id,
        );
        lemma_consume_elsewhere(
            before,
            next,
            reservations,
            statement,
            from + 1,
            transition.operation_id,
        );
    } else {
        lemma_consume_at(before, next, reservations, statement, from + 1, at);
    }
}

/// Whether a settlement consumed the reservation at a position and every one of its
/// records: the hold and the escrow ended, the facility moved, the operation was
/// recorded. Where a later reservation is on the same facility or hold, that one
/// decides.
pub open spec fn reservation_used(
    before: Ledger,
    after: Ledger,
    reservations: Seq<ReservationConsumption>,
    statement: Id,
    at: int,
) -> bool {
    let transition = reservations[at].transition;
    let facility = before.credit_facilities[transition.facility_id];
    let escrow = before.reservation_escrows[transition.hold_id];
    let ended = after.reservation_escrows[transition.hold_id];
    &&& !on_facility(reservations, at + 1, transition.facility_id) ==> balances_moved(
        facility,
        after.credit_facilities[transition.facility_id],
        transition,
    )
    &&& !of_hold(reservations, at + 1, transition.hold_id) ==> {
        &&& hold_ended(
            before.credit_holds[transition.hold_id],
            after.credit_holds[transition.hold_id],
            HoldStatus::Consumed,
            transition.settlement_digest,
            facility,
        )
        &&& ended.status == HoldStatus::Consumed
        &&& ended.settlement_digest == statement
        &&& escrow == (ReservationEscrowRecord {
            status: escrow.status,
            settlement_digest: escrow.settlement_digest,
            ..ended
        })
    }
    &&& after.operations.contains_key(transition.operation_id)
    &&& after.operations[transition.operation_id] == reservations[at].transition_statement->Ok_0
}

/// Whether a settlement changed no facility, hold, escrow or operation but those of
/// its reservations and its own operation.
pub open spec fn others_kept(
    before: Ledger,
    after: Ledger,
    reservations: Seq<ReservationConsumption>,
    operation_id: Id,
) -> bool {
    &&& forall|id: Id|
        !on_facility(reservations, 0, id) ==> #[trigger] same_at(
            before.credit_facilities,
            after.credit_facilities,
            id,
        )
    &&& forall|id: Id|
        !of_hold(reservations, 0, id) ==> #[trigger] same_at(
            before.credit_holds,
            after.credit_holds,
            id,
        )
    &&& forall|id: Id|
        !of_hold(reservations, 0, id) ==> #[trigger] same_at(
            before.reservation_escrows,
            after.reservation_escrows,
            id,
        )
    &&& forall|id: Id|
        id != operation_id && !in_operation(reservations, 0, id) ==> #[trigger] same_at(
            before.operations,
            after.operations,
            id,
        )
}

/// Whether a leg was proved against its account as it is, on an active asset.
pub open spec fn proved_leg(ledger: Ledger, leg: StateLeg) -> bool {
    let account = ledger.accounts[leg.handle];
    &&& ledger.accounts.contains_key(leg.handle)
    &&& account.asset_id == leg.asset_id
    &&& account.commitment == leg.before_commitment
    &&& account.sequence == leg.before_sequence
    &&& ledger.assets.contains_key(leg.asset_id)
    &&& ledger.assets[leg.asset_id].active
}

/// Whether no two legs are on one account.
pub open spec fn different_accounts(legs: Seq<StateLeg>) -> bool {
    forall|i: int, j: int|
        0 <= i < j < legs.len() ==> (#[trigger] legs[i]).handle != (#[trigger] legs[j]).handle
}

/// Whether a leg from a position on is on an account.
pub open spec fn on_account(legs: Seq<StateLeg>, from: int, handle: Id) -> bool {
    exists|k: int| from <= k < legs.len() && (#[trigger] legs[k]).handle == handle
}

/// Whether every leg moved its account, one sequence on, to what it proves, and no
/// other account changed.
pub open spec fn accounts_moved(before: Ledger, after: Ledger, legs: Seq<StateLeg>) -> bool {
    &&& forall|k: int|
        0 <= k < legs.len() ==> {
            let leg = #[trigger] legs[k];
            &&& after.accounts.contains_key(leg.handle)
            &&& after.accounts[leg.handle].asset_id == before.accounts[leg.handle].asset_id
            &&& after.accounts[leg.handle].commitment == leg.after_commitment
            &&& after.accounts[leg.handle].sequence == before.accounts[leg.handle].sequence + 1
        }
    &&& forall|handle: Id|
        !on_account(legs, 0, handle) ==> #[trigger] same_at(before.accounts, after.accounts, handle)
}

proof fn lemma_legs_met(ledger: Ledger, legs: Seq<StateLeg>, what: Seq<char>, from: nat)
    ensures
        (legs_refusal(ledger, legs, what, from) is None) == (forall|k: int|
            from <= k < legs.len() ==> proved_leg(ledger, #[trigger] legs[k])),
    decreases legs.len() - from,
{
    if from < legs.len() {
        lemma_legs_met(ledger, legs, what, from + 1);
    }
}

proof fn lemma_leg_elsewhere(ledger: Ledger, legs: Seq<StateLeg>, from: nat, handle: Id)
    requires
        !on_account(legs, from as int, handle),
    ensures
        ({
            let after = legs_progress(ledger, legs, from).ledger;
            same_at(ledger.accounts, after.accounts, handle)
        }),
    decreases legs.len() - from,
{
    if from < legs.len() {
        let leg = legs[from as int];
        let step = move_progress(
            ledger,
            leg.handle,
            leg.after_commitment,
            "account sequence overflow"@,
        );
        assert(on_account(legs, from as int, leg.handle));
        if step.refusal is None {
            lemma_leg_elsewhere(step.ledger, legs, from + 1, handle);
        }
    }
}

proof fn lemma_legs_refusal(ledger: Ledger, legs: Seq<StateLeg>, from: nat)
    requires
        different_accounts(legs),
    ensures
        (legs_progress(ledger, legs, from).refusal is None) == (forall|k: int|
            from <= k < legs.len() ==> ledger.accounts[(#[trigger] legs[k]).handle].sequence
                < u64::MAX),
        ({
            let after = legs_progress(ledger, legs, from).ledger;
            after == (Ledger { accounts: after.accounts, ..ledger })
        }),
    decreases legs.len() - from,
{
    if from < legs.len() {
        let leg = legs[from as int];
        let step = move_progress(
            ledger,
            leg.handle,
            leg.after_commitment,
            "account sequence overflow"@,
        );
        if step.refusal is None {
            lemma_legs_refusal(step.ledger, legs, from + 1);
            assert forall|k: int| from < k < legs.len() implies step.ledger.accounts[(
            #[trigger] legs[k]).handle] == ledger.accounts[legs[k].handle] by {
                assert(legs[from as int].handle != legs[k].handle);
            }
        }
    }
}

proof fn lemma_leg_moved(ledger: Ledger, legs: Seq<StateLeg>, from: nat, at: int)
    requires
        different_accounts(legs),
        legs_progress(ledger, legs, from).refusal is None,
        from <= at < legs.len(),
    ensures
        ({
            let after = legs_progress(ledger, legs, from).ledger;
            let leg = legs[at];
            &&& after.accounts.contains_key(leg.handle)
            &&& after.accounts[leg.handle].asset_id == ledger.accounts[leg.handle].asset_id
            &&& after.accounts[leg.handle].commitment == leg.after_commitment
            &&& after.accounts[leg.handle].sequence == ledger.accounts[leg.handle].sequence + 1
        }),
    decreases legs.len() - from,
{
    let leg = legs[from as int];
    let step = move_progress(
        ledger,
        leg.handle,
        leg.after_commitment,
        "account sequence overflow"@,
    );
    if from == at {
        if on_account(legs, at + 1, leg.handle) {
            let k = choose|k: int|
                from + 1 <= k < legs.len() && (#[trigger] legs[k]).handle == leg.handle;
            assert(legs[from as int].handle != legs[k].handle);
        }
        lemma_leg_elsewhere(step.ledger, legs, from + 1, leg.handle);
    } else {
        assert(legs[from as int].handle != legs[at].handle);
        lemma_leg_moved(step.ledger, legs, from + 1, at);
    }
}

proof fn lemma_accounts_moved(ledger: Ledger, legs: Seq<StateLeg>)
    requires
        different_accounts(legs),
        legs_progress(ledger, legs, 0).refusal is None,
    ensures
        accounts_moved(ledger, legs_progress(ledger, legs, 0).ledger, legs),
{
    let after = legs_progress(ledger, legs, 0).ledger;
    assert forall|k: int| 0 <= k < legs.len() implies {
        let leg = #[trigger] legs[k];
        &&& after.accounts.contains_key(leg.handle)
        &&& after.accounts[leg.handle].asset_id == ledger.accounts[leg.handle].asset_id
        &&& after.accounts[leg.handle].commitment == leg.after_commitment
        &&& after.accounts[leg.handle].sequence == ledger.accounts[leg.handle].sequence + 1
    } by {
        lemma_leg_moved(ledger, legs, 0, k);
    }
    assert forall|handle: Id| !on_account(legs, 0, handle) implies #[trigger] same_at(
        ledger.accounts,
        after.accounts,
        handle,
    ) by {
        lemma_leg_elsewhere(ledger, legs, 0, handle);
    }
}

/// A settlement between accounts is carried out exactly where it is approved, in time
/// and new, and every leg was proved. Its legs are on different accounts.
pub proof fn law_when_accounts_are_settled(
    ledger: Ledger,
    order: SettlementOrder,
    submission: Submission,
    timestamp: u64,
)
    requires
        different_accounts(order.legs@),
    ensures
        ({
            (action_outcome(
                ledger,
                Action::IssueSettlement { order },
                submission,
                timestamp,
            ).result is Ok) == {
                &&& endorsement_refusal(order.seal, submission) is None
                &&& timestamp <= order.deadline
                &&& !ledger.operations.contains_key(order.operation_id)
                &&& !ledger.nullifiers.contains_key(order.nullifier)
                &&& forall|k: int|
                    0 <= k < order.legs@.len() ==> proved_leg(ledger, #[trigger] order.legs@[k])
                        && ledger.accounts[order.legs@[k].handle].sequence < u64::MAX
            }
        }),
{
    let statement = order.seal.statement->Ok_0;
    let used = Ledger {
        nullifiers: ledger.nullifiers.insert(
            order.nullifier,
            NullifierRecord { deadline: order.deadline, statement },
        ),
        ..ledger
    };
    lemma_legs_met(ledger, order.legs@, "settlement"@, 0);
    lemma_legs_refusal(used, order.legs@, 0);
}

/// A settlement between accounts moves the account of every leg, uses up its
/// nullifier, records its operation, and changes nothing else.
pub proof fn law_what_an_account_settlement_leaves(
    ledger: Ledger,
    order: SettlementOrder,
    submission: Submission,
    timestamp: u64,
)
    requires
        different_accounts(order.legs@),
        action_outcome(
            ledger,
            Action::IssueSettlement { order },
            submission,
            timestamp,
        ).result is Ok,
    ensures
        ({
            let outcome = action_outcome(
                ledger,
                Action::IssueSettlement { order },
                submission,
                timestamp,
            );
            let after = outcome.ledger;
            let statement = outcome.result->Ok_0;
            &&& order.seal.statement == Ok::<Id, String>(statement)
            &&& after == (Ledger {
                accounts: after.accounts,
                nullifiers: ledger.nullifiers.insert(
                    order.nullifier,
                    NullifierRecord { deadline: order.deadline, statement },
                ),
                operations: ledger.operations.insert(order.operation_id, statement),
                ..ledger
            })
            &&& accounts_moved(ledger, after, order.legs@)
        }),
{
    let statement = order.seal.statement->Ok_0;
    let used = Ledger {
        nullifiers: ledger.nullifiers.insert(
            order.nullifier,
            NullifierRecord { deadline: order.deadline, statement },
        ),
        ..ledger
    };
    lemma_legs_refusal(used, order.legs@, 0);
    lemma_accounts_moved(used, order.legs@);
    let after = action_outcome(
        ledger,
        Action::IssueSettlement { order },
        submission,
        timestamp,
    ).ledger;
    assert(after.accounts == legs_progress(used, order.legs@, 0).ledger.accounts);
    assert forall|handle: Id| !on_account(order.legs@, 0, handle) implies #[trigger] same_at(
        ledger.accounts,
        after.accounts,
        handle,
    ) by {
        assert(same_at(used.accounts, after.accounts, handle));
    }
}

/// Whether the leg at a position is the first that is not on the traded asset: it
/// is on the asset in which the trade is paid.
pub open spec fn pays(legs: Seq<StateLeg>, traded_asset_id: Id, at: int) -> bool {
    &&& 0 <= at < legs.len()
    &&& legs[at].asset_id != traded_asset_id
    &&& forall|k: int| 0 <= k < at ==> (#[trigger] legs[k]).asset_id == traded_asset_id
}

proof fn lemma_payment_leg(legs: Seq<StateLeg>, traded_asset_id: Id, from: nat, at: int)
    requires
        pays(legs, traded_asset_id, at),
        from <= at,
    ensures
        payment_leg(legs, traded_asset_id, from) == Some(legs[at].asset_id),
    decreases at - from,
{
    if from < at {
        lemma_payment_leg(legs, traded_asset_id, from + 1, at);
    }
}

proof fn lemma_no_payment_leg(legs: Seq<StateLeg>, traded_asset_id: Id, from: nat)
    requires
        forall|k: int| from <= k < legs.len() ==> (#[trigger] legs[k]).asset_id == traded_asset_id,
    ensures
        payment_leg(legs, traded_asset_id, from) is None,
    decreases legs.len() - from,
{
    if from < legs.len() {
        lemma_no_payment_leg(legs, traded_asset_id, from + 1);
    }
}

/// A trade between accounts without a leg on another asset than the traded one is
/// refused.
pub proof fn law_a_trade_between_accounts_is_paid(
    ledger: Ledger,
    order: ProductSettlementOrder,
    timestamp: u64,
)
    requires
        forall|k: int|
            0 <= k < order.settlement.legs@.len() ==> (
            #[trigger] order.settlement.legs@[k]).asset_id == order.terms.traded_asset_id,
    ensures
        product_outcome(ledger, order, timestamp).result is Err,
        product_outcome(ledger, order, timestamp).ledger == ledger,
{
    lemma_no_payment_leg(order.settlement.legs@, order.terms.traded_asset_id, 0);
}

/// A trade between accounts is settled exactly where it is stated, in time and new,
/// paid in an active cash asset, every reservation can be consumed, all were signed
/// for one direction, and every leg was proved. It holds in either direction.
pub proof fn law_when_a_trade_between_accounts_is_settled(
    ledger: Ledger,
    order: ProductSettlementOrder,
    timestamp: u64,
    paying: int,
)
    requires
        pays(order.settlement.legs@, order.terms.traded_asset_id, paying),
        directed(ledger, order.reservations@),
        different_accounts(order.settlement.legs@),
    ensures
        ({
            let settlement = order.settlement;
            let payment_asset_id = settlement.legs@[paying].asset_id;
            (product_outcome(ledger, order, timestamp).result is Ok) == {
                &&& order.seal.statement is Ok
                &&& settlement.seal.statement is Ok
                &&& timestamp <= settlement.deadline
                &&& !ledger.operations.contains_key(settlement.operation_id)
                &&& !ledger.nullifiers.contains_key(settlement.nullifier)
                &&& !ledger.rfq_nullifiers.contains_key(order.terms.rfq_nullifier)
                &&& ledger.assets.contains_key(payment_asset_id)
                &&& ledger.assets[payment_asset_id].active
                &&& ledger.assets[payment_asset_id].kind == AssetKind::Cash
                &&& order.reservations@.len() > 0
                &&& forall|i: int|
                    0 <= i < order.reservations@.len() ==> #[trigger] usable_reservation(
                        ledger,
                        order,
                        payment_asset_id,
                        timestamp,
                        i,
                    )
                &&& forall|i: int, j: int|
                    0 <= i < j < order.reservations@.len() ==> same_direction(
                        ledger,
                        #[trigger] order.reservations@[i],
                        #[trigger] order.reservations@[j],
                    )
                &&& forall|i: int|
                    0 <= i < order.reservations@.len() ==> ledger.credit_facilities[(
                    #[trigger] order.reservations@[i]).transition.facility_id].sequence < u64::MAX
                &&& forall|k: int|
                    0 <= k < settlement.legs@.len() ==> proved_leg(
                        ledger,
                        #[trigger] settlement.legs@[k],
                    ) && ledger.accounts[settlement.legs@[k].handle].sequence < u64::MAX
            }
        }),
{
    let legs = order.settlement.legs@;
    let payment_asset_id = legs[paying].asset_id;
    let statement = order.seal.statement->Ok_0;
    lemma_payment_leg(legs, order.terms.traded_asset_id, 0, paying);
    lemma_verdict(ledger, order, payment_asset_id, timestamp, 0, 0);
    if order.reservations@.len() > 0 {
        let first = order.reservations@[0];
        assert(ledger.reservation_bindings[first.transition.hold_id].direction == 1
            || ledger.reservation_bindings[first.transition.hold_id].direction == 2);
    }
    lemma_legs_met(ledger, legs, "product settlement"@, 0);
    lemma_consume_refusal(ledger, ledger, order.reservations@, statement, 0);
    let consumed = consume_progress(ledger, ledger, order.reservations@, statement, 0).ledger;
    let used = nullified(
        consumed,
        order.settlement.nullifier,
        order.settlement.deadline,
        order.terms.rfq_nullifier,
        statement,
    );
    lemma_legs_refusal(used, legs, 0);
}

/// A settled trade between accounts consumes every reservation, moves the account of
/// every leg, uses up its nullifier and its request, records its operation, and
/// changes nothing else.
pub proof fn law_what_a_trade_between_accounts_leaves(
    ledger: Ledger,
    order: ProductSettlementOrder,
    timestamp: u64,
    paying: int,
)
    requires
        pays(order.settlement.legs@, order.terms.traded_asset_id, paying),
        directed(ledger, order.reservations@),
        different_accounts(order.settlement.legs@),
        product_outcome(ledger, order, timestamp).result is Ok,
    ensures
        ({
            let after = product_outcome(ledger, order, timestamp).ledger;
            let statement = product_outcome(ledger, order, timestamp).result->Ok_0;
            let settlement = order.settlement;
            &&& order.seal.statement == Ok::<Id, String>(statement)
            &&& after == (Ledger {
                credit_facilities: after.credit_facilities,
                credit_holds: after.credit_holds,
                reservation_escrows: after.reservation_escrows,
                operations: after.operations,
                accounts: after.accounts,
                nullifiers: ledger.nullifiers.insert(
                    settlement.nullifier,
                    NullifierRecord { deadline: settlement.deadline, statement },
                ),
                rfq_nullifiers: ledger.rfq_nullifiers.insert(order.terms.rfq_nullifier, statement),
                ..ledger
            })
            &&& forall|i: int|
                0 <= i < order.reservations@.len() ==> #[trigger] reservation_used(
                    ledger,
                    after,
                    order.reservations@,
                    statement,
                    i,
                )
            &&& after.operations.contains_key(settlement.operation_id)
            &&& after.operations[settlement.operation_id] == statement
            &&& others_kept(ledger, after, order.reservations@, settlement.operation_id)
            &&& accounts_moved(ledger, after, settlement.legs@)
        }),
{
    law_when_a_trade_between_accounts_is_settled(ledger, order, timestamp, paying);
    let legs = order.settlement.legs@;
    let payment_asset_id = legs[paying].asset_id;
    let statement = order.seal.statement->Ok_0;
    let reservations = order.reservations@;
    let consumed = consume_progress(ledger, ledger, reservations, statement, 0).ledger;
    let used = nullified(
        consumed,
        order.settlement.nullifier,
        order.settlement.deadline,
        order.terms.rfq_nullifier,
        statement,
    );
    let after = product_outcome(ledger, order, timestamp).ledger;
    lemma_consume_refusal(ledger, ledger, reservations, statement, 0);
    lemma_legs_refusal(used, legs, 0);
    lemma_accounts_moved(used, legs);
    assert(accounts_moved(ledger, after, legs)) by {
        assert(used.accounts == ledger.accounts);
        assert(after.accounts == legs_progress(used, legs, 0).ledger.accounts);
    }
    assert forall|i: int| 0 <= i < reservations.len() implies #[trigger] reservation_used(
        ledger,
        after,
        reservations,
        statement,
        i,
    ) by {
        assert(usable_reservation(ledger, order, payment_asset_id, timestamp, i));
        lemma_consume_at(ledger, ledger, reservations, statement, 0, i);
        if in_operation(reservations, i + 1, reservations[i].transition.operation_id) {
            let j = choose|j: int|
                i + 1 <= j < reservations.len() && (
                #[trigger] reservations[j]).transition.operation_id
                    == reservations[i].transition.operation_id;
            assert(usable_reservation(ledger, order, payment_asset_id, timestamp, j));
        }
    }
    assert(others_kept(ledger, after, reservations, order.settlement.operation_id)) by {
        assert forall|id: Id| !on_facility(reservations, 0, id) implies #[trigger] same_at(
            ledger.credit_facilities,
            after.credit_facilities,
            id,
        ) by {
            lemma_consume_elsewhere(ledger, ledger, reservations, statement, 0, id);
        }
        assert forall|id: Id| !of_hold(reservations, 0, id) implies #[trigger] same_at(
            ledger.credit_holds,
            after.credit_holds,
            id,
        ) by {
            lemma_consume_elsewhere(ledger, ledger, reservations, statement, 0, id);
        }
        assert forall|id: Id| !of_hold(reservations, 0, id) implies #[trigger] same_at(
            ledger.reservation_escrows,
            after.reservation_escrows,
            id,
        ) by {
            lemma_consume_elsewhere(ledger, ledger, reservations, statement, 0, id);
        }
        assert forall|id: Id|
            id != order.settlement.operation_id && !in_operation(
                reservations,
                0,
                id,
            ) implies #[trigger] same_at(ledger.operations, after.operations, id) by {
            lemma_consume_elsewhere(ledger, ledger, reservations, statement, 0, id);
        }
    }
}

/// A trade between accounts is carried out exactly where it is approved and can be
/// settled, and leaves what the settlement leaves.
pub proof fn law_a_trade_between_accounts_is_approved(
    ledger: Ledger,
    order: ProductSettlementOrder,
    submission: Submission,
    timestamp: u64,
)
    ensures
        ({
            let outcome = action_outcome(
                ledger,
                Action::IssueProductSettlement { order },
                submission,
                timestamp,
            );
            let settled = product_outcome(ledger, order, timestamp);
            &&& (outcome.result is Ok) == (endorsement_refusal(order.seal, submission) is None
                && settled.result is Ok)
            &&& outcome.result is Ok ==> outcome.ledger == settled.ledger
        }),
{
}

/// In a settled trade, on both sides and in both directions, the reservation on the
/// traded asset gives up the traded quantity and any other the cash amount.
pub proof fn law_each_side_gives_what_it_traded(
    ledger: Ledger,
    order: ProductSettlementOrder,
    submission: Submission,
    timestamp: u64,
    paying: int,
    at: int,
)
    requires
        pays(order.settlement.legs@, order.terms.traded_asset_id, paying),
        directed(ledger, order.reservations@),
        different_accounts(order.settlement.legs@),
        0 <= at < order.reservations@.len(),
        action_outcome(
            ledger,
            Action::IssueProductSettlement { order },
            submission,
            timestamp,
        ).result is Ok,
    ensures
        ({
            let consumption = order.reservations@[at];
            let binding = ledger.reservation_bindings[consumption.transition.hold_id];
            let gives = binding.asset_id == order.terms.traded_asset_id;
            &&& consumption.transition.consumed_commitment == if gives {
                order.terms.quantity_commitment
            } else {
                order.terms.cash_commitment
            }
            &&& gives == (binding.direction == 1 && consumption.role == ReservationRole::Maker
                || binding.direction == 2 && consumption.role == ReservationRole::Taker)
            &&& !gives ==> binding.asset_id == order.settlement.legs@[paying].asset_id
        }),
{
    law_when_a_trade_between_accounts_is_settled(ledger, order, timestamp, paying);
    let payment_asset_id = order.settlement.legs@[paying].asset_id;
    assert(usable_reservation(ledger, order, payment_asset_id, timestamp, at));
    let consumption = order.reservations@[at];
    assert(ledger.reservation_bindings[consumption.transition.hold_id].direction == 1
        || ledger.reservation_bindings[consumption.transition.hold_id].direction == 2);
}

proof fn lemma_direction(
    ledger: Ledger,
    order: ProductSettlementOrder,
    payment_asset_id: Id,
    base_statement: Id,
    timestamp: u64,
    direction: u8,
    from: nat,
    at: int,
)
    requires
        from <= at < order.reservations@.len(),
        consumptions_verdict(
            ledger,
            order,
            payment_asset_id,
            base_statement,
            timestamp,
            direction,
            from,
        ) is Ok,
    ensures
        ({
            let signed = direction_of(ledger, order.reservations@, at);
            &&& at == from ==> direction == 0 || signed == direction
            &&& at > from ==> {
                let earlier = direction_of(ledger, order.reservations@, at - 1);
                earlier == 0 || signed == earlier
            }
            &&& at + 1 == order.reservations@.len() ==> consumptions_verdict(
                ledger,
                order,
                payment_asset_id,
                base_statement,
                timestamp,
                direction,
                from,
            )->Ok_0 == signed
        }),
    decreases order.reservations@.len() - from,
{
    let next = direction_of(ledger, order.reservations@, from as int);
    if from < at {
        lemma_direction(
            ledger,
            order,
            payment_asset_id,
            base_statement,
            timestamp,
            next,
            from + 1,
            at,
        );
    } else if from + 1 == order.reservations@.len() {
        assert(consumptions_verdict(
            ledger,
            order,
            payment_asset_id,
            base_statement,
            timestamp,
            next,
            from + 1,
        ) == Ok::<u8, Seq<char>>(next));
    }
}

/// A trade between accounts without reservations, or whose last reservation was signed for
/// another direction than one or two, is refused, and nothing changes.
pub proof fn law_a_trade_between_accounts_has_a_direction(
    ledger: Ledger,
    order: ProductSettlementOrder,
    timestamp: u64,
)
    requires
        order.reservations@.len() == 0 || {
            let last = direction_of(
                ledger,
                order.reservations@,
                order.reservations@.len() - 1,
            );
            last != 1 && last != 2
        },
    ensures
        product_outcome(ledger, order, timestamp).result is Err,
        product_outcome(ledger, order, timestamp).ledger == ledger,
{
    let payment = payment_leg(order.settlement.legs@, order.terms.traded_asset_id, 0);
    let verdict = consumptions_verdict(
        ledger,
        order,
        payment->0,
        order.settlement.seal.statement->Ok_0,
        timestamp,
        0,
        0,
    );
    if order.reservations@.len() > 0 && verdict is Ok {
        lemma_direction(
            ledger,
            order,
            payment->0,
            order.settlement.seal.statement->Ok_0,
            timestamp,
            0,
            0,
            order.reservations@.len() - 1,
        );
    }
}

/// A trade between accounts with a reservation that was signed for another direction than the
/// one before it is refused, and nothing changes.
pub proof fn law_a_trade_between_accounts_has_one_direction(
    ledger: Ledger,
    order: ProductSettlementOrder,
    timestamp: u64,
    at: int,
)
    requires
        0 < at < order.reservations@.len(),
        direction_of(ledger, order.reservations@, at - 1) != 0,
        direction_of(ledger, order.reservations@, at - 1) != direction_of(
            ledger,
            order.reservations@,
            at,
        ),
    ensures
        product_outcome(ledger, order, timestamp).result is Err,
        product_outcome(ledger, order, timestamp).ledger == ledger,
{
    let payment = payment_leg(order.settlement.legs@, order.terms.traded_asset_id, 0);
    let verdict = consumptions_verdict(
        ledger,
        order,
        payment->0,
        order.settlement.seal.statement->Ok_0,
        timestamp,
        0,
        0,
    );
    if verdict is Ok {
        lemma_direction(
            ledger,
            order,
            payment->0,
            order.settlement.seal.statement->Ok_0,
            timestamp,
            0,
            0,
            at,
        );
    }
}

} // verus!
