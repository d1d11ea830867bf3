//! Delivery against payment between accounts.

use vstd::prelude::*;

use crate::endorsement::{
    endorse, endorsement_refusal, statement_of, statement_refusal, Submission,
};
use crate::execution::facility::{
    advance, advanced, binding_fits, check_scope, close_hold, closed_hold, consumable,
    does_binding_fit, does_facility_fit, expected_side, facility_fits, hold_current,
    is_consumable, is_hold_current, scope_refusal, side_of,
};
use crate::id::Id;
use crate::order::{
    CreditFacilityTransition, ProductSettlementBatch, ProductSettlementOrder,
    ReservationConsumption, StateLeg,
};
use crate::outcome::{
    accepted, advances, done, meets, refuse, refused, stopped, unless, verdict, Outcome, Progress,
};
use crate::state::{
    AccountRecord, AssetKind, CreditFacilityRecord, CreditHoldRecord, HoldStatus, Ledger,
    NullifierRecord, ReservationEscrowRecord, State,
};

verus! {

/// Whether an asset is registered and active.
pub open spec fn asset_active(ledger: Ledger, asset_id: Id) -> bool {
    ledger.assets.contains_key(asset_id) && ledger.assets[asset_id].active
}

/// Whether an asset is registered and active.
pub(crate) fn is_asset_active(state: &State, asset_id: &Id) -> (r: bool)
    ensures
        r == asset_active(state@, *asset_id),
{
    match state.assets.get(asset_id) {
        Some(asset) => asset.active,
        None => false,
    }
}

/// The asset of the first leg from `from` on that is not of the traded asset.
pub open spec fn payment_leg(legs: Seq<StateLeg>, traded_asset_id: Id, from: nat) -> Option<Id>
    decreases legs.len() - from,
{
    if from >= legs.len() {
        None
    } else if legs[from as int].asset_id != traded_asset_id {
        Some(legs[from as int].asset_id)
    } else {
        payment_leg(legs, traded_asset_id, from + 1)
    }
}

fn find_payment_leg(legs: &Vec<StateLeg>, traded_asset_id: Id) -> (r: Option<Id>)
    ensures
        r == payment_leg(legs@, traded_asset_id, 0),
{
    let mut index: usize = 0;
    while index < legs.len()
        invariant
            index <= legs@.len(),
            payment_leg(legs@, traded_asset_id, 0) == payment_leg(
                legs@,
                traded_asset_id,
                index as nat,
            ),
        decreases legs@.len() - index,
    {
        if legs[index].asset_id != traded_asset_id {
            return Some(legs[index].asset_id);
        }
        index = index + 1;
    }
    None
}

/// Whether the consumption at `at` uses an operation of an earlier one.
pub open spec fn repeats_operation(reservations: Seq<ReservationConsumption>, at: int) -> bool {
    exists|i: int|
        0 <= i < at && (#[trigger] reservations[i]).transition.operation_id
            == reservations[at].transition.operation_id
}

/// Whether the operation of a consumption came before.
pub(crate) fn does_repeat_operation(
    reservations: &Vec<ReservationConsumption>,
    at: usize,
) -> (r: bool)
    requires
        at < reservations@.len(),
    ensures
        r == repeats_operation(reservations@, at as int),
{
    let mut index: usize = 0;
    while index < at
        invariant
            index <= at < reservations@.len(),
            forall|i: int|
                0 <= i < index ==> (#[trigger] reservations@[i]).transition.operation_id
                    != reservations@[at as int].transition.operation_id,
        decreases at - index,
    {
        if reservations[index].transition.operation_id == reservations[at].transition.operation_id {
            return true;
        }
        index = index + 1;
    }
    false
}

/// Whether a leg moves the account that an escrow was taken from.
pub open spec fn has_refund_leg(legs: Seq<StateLeg>, escrow: ReservationEscrowRecord) -> bool {
    exists|i: int|
        0 <= i < legs.len() && (#[trigger] legs[i]).handle == escrow.source_handle
            && legs[i].asset_id == escrow.asset_id
}

fn find_refund_leg(legs: &Vec<StateLeg>, escrow: &ReservationEscrowRecord) -> (r: bool)
    ensures
        r == has_refund_leg(legs@, *escrow),
{
    let mut index: usize = 0;
    while index < legs.len()
        invariant
            index <= legs@.len(),
            forall|i: int|
                0 <= i < index ==> !((#[trigger] legs@[i]).handle == escrow.source_handle
                    && legs@[i].asset_id == escrow.asset_id),
        decreases legs@.len() - index,
    {
        if legs[index].handle == escrow.source_handle && legs[index].asset_id == escrow.asset_id {
            return true;
        }
        index = index + 1;
    }
    false
}

/// Why the consumption at `at` is refused, where `direction` is that of the
/// consumptions before it, or 0.
pub open spec fn consumption_refusal(
    ledger: Ledger,
    order: ProductSettlementOrder,
    payment_asset_id: Id,
    base_statement: Id,
    timestamp: u64,
    direction: u8,
    at: int,
) -> Option<Seq<char>> {
    let consumption = order.reservations@[at];
    let transition = consumption.transition;
    let binding = ledger.reservation_bindings[transition.hold_id];
    let side = expected_side(order.terms, consumption.role, binding.direction, payment_asset_id);
    let hold = ledger.credit_holds[transition.hold_id];
    let escrow = ledger.reservation_escrows[transition.hold_id];
    if consumption.reserve_receipt_digest == Id::zero() || repeats_operation(
        order.reservations@,
        at,
    ) || transition.operation_id == order.settlement.operation_id
        || ledger.operations.contains_key(transition.operation_id) {
        Some("product settlement repeats a used reservation operation"@)
    } else if !ledger.reservation_bindings.contains_key(transition.hold_id) {
        Some("product settlement names an unknown reservation"@)
    } else if direction != 0 && direction != binding.direction {
        Some("Maker and Taker reservations use different directions"@)
    } else if !binding_fits(
        binding,
        consumption.role,
        side,
        consumption.reserve_receipt_digest,
    ) {
        Some("reservation binding differs from product settlement"@)
    } else if scope_refusal(binding, consumption.role, order.terms) is Some {
        scope_refusal(binding, consumption.role, order.terms)
    } else if transition.consumed_commitment != side.consumed {
        Some("guarantee consumption differs from proved DvP amount"@)
    } else if !consumable(transition, base_statement, timestamp) {
        Some("reservation is not consumable by this DvP"@)
    } else if !ledger.credit_facilities.contains_key(transition.facility_id) {
        Some("reservation facility is unknown"@)
    } else if !facility_fits(ledger.credit_facilities[transition.facility_id], transition, side) {
        Some("reservation consumption was proved against stale facility state"@)
    } else if !ledger.credit_holds.contains_key(transition.hold_id) {
        Some("reservation credit hold is unknown"@)
    } else if !hold_current(hold, transition) {
        Some("reservation consumption was proved against stale hold state"@)
    } else if !ledger.reservation_escrows.contains_key(transition.hold_id) {
        Some("reservation asset escrow is unknown"@)
    } else if escrow.status != HoldStatus::Active || escrow.asset_id != side.asset
        || escrow.amount_commitment != transition.amount_commitment || !has_refund_leg(
        order.settlement.legs@,
        escrow,
    ) {
        Some("consumed reservation has no matching refund account"@)
    } else {
        statement_refusal(consumption.transition_statement)
    }
}

/// The direction that all consumptions from `from` on share, or why one of them
/// is refused.
pub open spec fn consumptions_verdict(
    ledger: Ledger,
    order: ProductSettlementOrder,
    payment_asset_id: Id,
    base_statement: Id,
    timestamp: u64,
    direction: u8,
    from: nat,
) -> Result<u8, Seq<char>>
    decreases order.reservations@.len() - from,
{
    if from >= order.reservations@.len() {
        Ok(direction)
    } else {
        match consumption_refusal(
            ledger,
            order,
            payment_asset_id,
            base_statement,
            timestamp,
            direction,
            from as int,
        ) {
            Some(message) => Err(message),
            None => consumptions_verdict(
                ledger,
                order,
                payment_asset_id,
                base_statement,
                timestamp,
                ledger.reservation_bindings[order.reservations@[from as int].transition.hold_id].direction,
                from + 1,
            ),
        }
    }
}

/// A reservation that has passed its checks, with the records as they were.
struct Prepared {
    transition: CreditFacilityTransition,
    transition_statement: Id,
    facility: CreditFacilityRecord,
    hold: CreditHoldRecord,
    escrow: ReservationEscrowRecord,
}

spec fn prepared_from(ledger: Ledger, consumption: ReservationConsumption, item: Prepared) -> bool {
    let transition = consumption.transition;
    &&& item.transition == transition
    &&& consumption.transition_statement == Ok::<Id, String>(item.transition_statement)
    &&& item.facility == ledger.credit_facilities[transition.facility_id]
    &&& item.hold == ledger.credit_holds[transition.hold_id]
    &&& item.escrow == ledger.reservation_escrows[transition.hold_id]
    &&& item.facility.sequence == transition.before_sequence
}

/// Checks one consumption. Gives its direction and the records it will change.
fn check_consumption(
    state: &State,
    order: &ProductSettlementOrder,
    payment_asset_id: Id,
    base_statement: Id,
    timestamp: u64,
    direction: u8,
    at: usize,
) -> (r: Result<(u8, Prepared), String>)
    requires
        at < order.reservations@.len(),
    ensures
        match r {
            Ok((found, item)) => {
                &&& consumption_refusal(
                    state@,
                    *order,
                    payment_asset_id,
                    base_statement,
                    timestamp,
                    direction,
                    at as int,
                ) is None
                &&& found
                    == state@.reservation_bindings[order.reservations@[at as int].transition.hold_id].direction
                &&& prepared_from(state@, order.reservations@[at as int], item)
            },
            Err(message) => consumption_refusal(
                state@,
                *order,
                payment_asset_id,
                base_statement,
                timestamp,
                direction,
                at as int,
            ) == Some(message@),
        },
{
    let consumption = &order.reservations[at];
    let transition = &consumption.transition;
    if consumption.reserve_receipt_digest == Id::zero() || does_repeat_operation(
        &order.reservations,
        at,
    ) || transition.operation_id == order.settlement.operation_id || state.operations.contains_key(
        &transition.operation_id,
    ) {
        return refuse("product settlement repeats a used reservation operation");
    }
    let binding = match state.reservation_bindings.get(&transition.hold_id) {
        Some(binding) => binding,
        None => return refuse("product settlement names an unknown reservation"),
    };
    if direction != 0 && direction != binding.direction {
        return refuse("Maker and Taker reservations use different directions");
    }
    let side = side_of(&order.terms, consumption.role, binding.direction, payment_asset_id);
    if !does_binding_fit(binding, consumption.role, &side, consumption.reserve_receipt_digest) {
        return refuse("reservation binding differs from product settlement");
    }
    check_scope(binding, consumption.role, &order.terms)?;
    if transition.consumed_commitment != side.consumed {
        return refuse("guarantee consumption differs from proved DvP amount");
    }
    if !is_consumable(transition, base_statement, timestamp) {
        return refuse("reservation is not consumable by this DvP");
    }
    let facility = match state.credit_facilities.get(&transition.facility_id) {
        Some(facility) => facility,
        None => return refuse("reservation facility is unknown"),
    };
    if !does_facility_fit(facility, transition, &side) {
        return refuse("reservation consumption was proved against stale facility state");
    }
    let hold = match state.credit_holds.get(&transition.hold_id) {
        Some(hold) => hold,
        None => return refuse("reservation credit hold is unknown"),
    };
    if !is_hold_current(hold, transition) {
        return refuse("reservation consumption was proved against stale hold state");
    }
    let escrow = match state.reservation_escrows.get(&transition.hold_id) {
        Some(escrow) => escrow,
        None => return refuse("reservation asset escrow is unknown"),
    };
    if escrow.status != HoldStatus::Active || escrow.asset_id != side.asset
        || escrow.amount_commitment != transition.amount_commitment || !find_refund_leg(
        &order.settlement.legs,
        escrow,
    ) {
        return refuse("consumed reservation has no matching refund account");
    }
    let transition_statement = statement_of(&consumption.transition_statement)?;
    Ok(
        (
            binding.direction,
            Prepared {
                transition: *transition,
                transition_statement,
                facility: *facility,
                hold: *hold,
                escrow: *escrow,
            },
        ),
    )
}

/// Why a leg cannot be settled; `what` is what the settlement calls itself.
pub open spec fn leg_refusal(ledger: Ledger, leg: StateLeg, what: Seq<char>) -> Option<Seq<char>> {
    let account = ledger.accounts[leg.handle];
    if !ledger.accounts.contains_key(leg.handle) {
        Some(what + " names an unknown account"@)
    } else if account.asset_id != leg.asset_id {
        Some(what + " leg is on the wrong asset rail"@)
    } else if account.commitment != leg.before_commitment || account.sequence
        != leg.before_sequence {
        Some(what + " was proved against stale account state"@)
    } else if !asset_active(ledger, leg.asset_id) {
        Some(what + " uses an inactive or unknown asset"@)
    } else {
        None
    }
}

/// Why one of the legs from `from` on cannot be settled.
pub open spec fn legs_refusal(
    ledger: Ledger,
    legs: Seq<StateLeg>,
    what: Seq<char>,
    from: nat,
) -> Option<Seq<char>>
    decreases legs.len() - from,
{
    if from >= legs.len() {
        None
    } else if leg_refusal(ledger, legs[from as int], what) is Some {
        leg_refusal(ledger, legs[from as int], what)
    } else {
        legs_refusal(ledger, legs, what, from + 1)
    }
}

/// Checks that every leg was proved against its account as it is, on an active
/// asset rail.
pub fn check_legs(state: &State, legs: &Vec<StateLeg>, what: &str) -> (r: Result<(), String>)
    ensures
        verdict(r, legs_refusal(state@, legs@, what@, 0)),
        r is Ok ==> forall|i: int|
            0 <= i < legs@.len() ==> state@.accounts.contains_key((#[trigger] legs@[i]).handle),
{
    let mut index: usize = 0;
    while index < legs.len()
        invariant
            index <= legs@.len(),
            legs_refusal(state@, legs@, what@, 0) == legs_refusal(
                state@,
                legs@,
                what@,
                index as nat,
            ),
            forall|i: int|
                0 <= i < index ==> state@.accounts.contains_key((#[trigger] legs@[i]).handle),
        decreases legs@.len() - index,
    {
        let leg = &legs[index];
        match state.accounts.get(&leg.handle) {
            None => return Err(crate::text::join(what, " names an unknown account")),
            Some(account) => {
                if account.asset_id != leg.asset_id {
                    return Err(crate::text::join(what, " leg is on the wrong asset rail"));
                }
                if account.commitment != leg.before_commitment || account.sequence
                    != leg.before_sequence {
                    return Err(
                        crate::text::join(what, " was proved against stale account state"),
                    );
                }
                if !is_asset_active(state, &leg.asset_id) {
                    return Err(crate::text::join(what, " uses an inactive or unknown asset"));
                }
            },
        }
        index = index + 1;
    }
    Ok(())
}

/// The account after a leg has moved it. The sequence of an account that has no
/// next one stays.
pub open spec fn moved(account: AccountRecord, after_commitment: Id) -> AccountRecord {
    AccountRecord {
        commitment: after_commitment,
        sequence: if account.sequence < u64::MAX {
            (account.sequence + 1) as u64
        } else {
            account.sequence
        },
        ..account
    }
}

/// Moves an account. An account at the last sequence takes the commitment, and
/// the move fails with `message`.
pub open spec fn move_progress(
    ledger: Ledger,
    handle: Id,
    after_commitment: Id,
    message: Seq<char>,
) -> Progress {
    let account = ledger.accounts[handle];
    let next = Ledger {
        accounts: ledger.accounts.insert(handle, moved(account, after_commitment)),
        ..ledger
    };
    if account.sequence == u64::MAX {
        stopped(next, message)
    } else {
        done(next)
    }
}

/// Moves an account to its next commitment.
pub(crate) fn move_account(
    state: &mut State,
    handle: &Id,
    after_commitment: Id,
    message: &str,
) -> (r: Result<(), String>)
    requires
        old(state)@.accounts.contains_key(*handle),
    ensures
        advances(
            r,
            final(state)@,
            move_progress(old(state)@, *handle, after_commitment, message@),
        ),
{
    let mut account = match state.accounts.get(handle) {
        Some(account) => *account,
        None => AccountRecord { asset_id: *handle, commitment: after_commitment, sequence: 0 },
    };
    let last = account.sequence == u64::MAX;
    account.commitment = after_commitment;
    if !last {
        account.sequence = account.sequence + 1;
    }
    state.accounts.insert(*handle, account);
    if last {
        return refuse(message);
    }
    Ok(())
}

/// Moves the accounts of the legs from `from` on, in order.
pub open spec fn legs_progress(ledger: Ledger, legs: Seq<StateLeg>, from: nat) -> Progress
    decreases legs.len() - from,
{
    if from >= legs.len() {
        done(ledger)
    } else {
        let step = move_progress(
            ledger,
            legs[from as int].handle,
            legs[from as int].after_commitment,
            "account sequence overflow"@,
        );
        if step.refusal is Some {
            step
        } else {
            legs_progress(step.ledger, legs, from + 1)
        }
    }
}

/// Moves the accounts of all legs.
pub(crate) fn move_legs(state: &mut State, legs: &Vec<StateLeg>) -> (r: Result<(), String>)
    requires
        forall|i: int|
            0 <= i < legs@.len() ==> old(state)@.accounts.contains_key(
                (#[trigger] legs@[i]).handle,
            ),
    ensures
        advances(r, final(state)@, legs_progress(old(state)@, legs@, 0)),
{
    let ghost before = state@;
    let mut index: usize = 0;
    while index < legs.len()
        invariant
            index <= legs@.len(),
            before == old(state)@,
            forall|i: int|
                0 <= i < legs@.len() ==> state@.accounts.contains_key((#[trigger] legs@[i]).handle),
            legs_progress(before, legs@, 0) == legs_progress(state@, legs@, index as nat),
        decreases legs@.len() - index,
    {
        let leg = &legs[index];
        move_account(state, &leg.handle, leg.after_commitment, "account sequence overflow")?;
        index = index + 1;
    }
    Ok(())
}

/// The ledger after one reservation is consumed. The records changed are those
/// of `before`, the ledger that the settlement was checked against.
pub open spec fn consumed_ledger(
    before: Ledger,
    ledger: Ledger,
    consumption: ReservationConsumption,
    statement: Id,
) -> Ledger {
    let transition = consumption.transition;
    Ledger {
        credit_facilities: ledger.credit_facilities.insert(
            transition.facility_id,
            advanced(before.credit_facilities[transition.facility_id], transition),
        ),
        credit_holds: ledger.credit_holds.insert(
            transition.hold_id,
            closed_hold(
                before.credit_holds[transition.hold_id],
                transition,
                HoldStatus::Consumed,
                transition.settlement_digest,
            ),
        ),
        reservation_escrows: ledger.reservation_escrows.insert(
            transition.hold_id,
            ReservationEscrowRecord {
                status: HoldStatus::Consumed,
                settlement_digest: statement,
                ..before.reservation_escrows[transition.hold_id]
            },
        ),
        operations: ledger.operations.insert(
            transition.operation_id,
            consumption.transition_statement->Ok_0,
        ),
        ..ledger
    }
}

/// Consumes the reservations from `from` on, in order.
pub open spec fn consume_progress(
    before: Ledger,
    ledger: Ledger,
    reservations: Seq<ReservationConsumption>,
    statement: Id,
    from: nat,
) -> Progress
    decreases reservations.len() - from,
{
    if from >= reservations.len() {
        done(ledger)
    } else {
        let consumption = reservations[from as int];
        if before.credit_facilities[consumption.transition.facility_id].sequence == u64::MAX {
            stopped(ledger, "credit facility sequence overflow"@)
        } else {
            consume_progress(
                before,
                consumed_ledger(before, ledger, consumption, statement),
                reservations,
                statement,
                from + 1,
            )
        }
    }
}

fn consume_prepared(
    state: &mut State,
    reservations: &Vec<ReservationConsumption>,
    prepared: &Vec<Prepared>,
    statement: Id,
) -> (r: Result<(), String>)
    requires
        prepared@.len() == reservations@.len(),
        forall|i: int|
            0 <= i < prepared@.len() ==> prepared_from(
                old(state)@,
                reservations@[i],
                #[trigger] prepared@[i],
            ),
    ensures
        advances(
            r,
            final(state)@,
            consume_progress(old(state)@, old(state)@, reservations@, statement, 0),
        ),
        final(state)@.accounts == old(state)@.accounts,
{
    let ghost before = state@;
    let mut index: usize = 0;
    while index < prepared.len()
        invariant
            index <= prepared@.len(),
            prepared@.len() == reservations@.len(),
            before == old(state)@,
            state@.accounts == before.accounts,
            forall|i: int|
                0 <= i < prepared@.len() ==> prepared_from(
                    before,
                    reservations@[i],
                    #[trigger] prepared@[i],
                ),
            consume_progress(before, before, reservations@, statement, 0) == consume_progress(
                before,
                state@,
                reservations@,
                statement,
                index as nat,
            ),
        decreases prepared@.len() - index,
    {
        let item = &prepared[index];
        assert(prepared_from(before, reservations@[index as int], *item));
        let ghost ledger = state@;
        let facility = advance(&item.facility, &item.transition)?;
        state.credit_facilities.insert(item.transition.facility_id, facility);
        let hold = close_hold(
            &item.hold,
            &item.transition,
            HoldStatus::Consumed,
            item.transition.settlement_digest,
        );
        state.credit_holds.insert(item.transition.hold_id, hold);
        let mut escrow = item.escrow;
        escrow.status = HoldStatus::Consumed;
        escrow.settlement_digest = statement;
        state.reservation_escrows.insert(item.transition.hold_id, escrow);
        state.operations.insert(item.transition.operation_id, item.transition_statement);
        assert(state@ =~= consumed_ledger(
            before,
            ledger,
            reservations@[index as int],
            statement,
        ));
        index = index + 1;
    }
    Ok(())
}

/// Why a settlement is refused before anything changes.
pub open spec fn product_refusal(
    ledger: Ledger,
    order: ProductSettlementOrder,
    timestamp: u64,
) -> Option<Seq<char>> {
    let settlement = order.settlement;
    let payment = payment_leg(settlement.legs@, order.terms.traded_asset_id, 0);
    let verdict = consumptions_verdict(
        ledger,
        order,
        payment->0,
        settlement.seal.statement->Ok_0,
        timestamp,
        0,
        0,
    );
    if statement_refusal(order.seal.statement) is Some {
        statement_refusal(order.seal.statement)
    } else if timestamp > settlement.deadline {
        Some("product settlement has expired"@)
    } else if ledger.operations.contains_key(settlement.operation_id) {
        Some("settlement operation identifier was already used"@)
    } else if ledger.nullifiers.contains_key(settlement.nullifier) {
        Some("payment nullifier was already settled"@)
    } else if ledger.rfq_nullifiers.contains_key(order.terms.rfq_nullifier) {
        Some("RFQ nullifier was already settled"@)
    } else if payment is None {
        Some("product settlement has no payment rail"@)
    } else if !ledger.assets.contains_key(payment->0) {
        Some("product settlement payment asset is unknown"@)
    } else if !ledger.assets[payment->0].active || ledger.assets[payment->0].kind
        != AssetKind::Cash {
        Some("product settlement payment side is not an active cash rail"@)
    } else if statement_refusal(settlement.seal.statement) is Some {
        statement_refusal(settlement.seal.statement)
    } else {
        match verdict {
            Err(message) => Some(message),
            Ok(direction) => if direction != 1 && direction != 2 {
                Some("product settlement has an unsupported direction"@)
            } else {
                legs_refusal(ledger, settlement.legs@, "product settlement"@, 0)
            },
        }
    }
}

/// The ledger with the payment nullifier and the request of a settlement used.
pub open spec fn nullified(
    ledger: Ledger,
    nullifier: Id,
    deadline: u64,
    rfq_nullifier: Id,
    statement: Id,
) -> Ledger {
    Ledger {
        nullifiers: ledger.nullifiers.insert(nullifier, NullifierRecord { deadline, statement }),
        rfq_nullifiers: ledger.rfq_nullifiers.insert(rfq_nullifier, statement),
        ..ledger
    }
}

/// The ledger with an operation recorded.
pub open spec fn operated(ledger: Ledger, operation_id: Id, statement: Id) -> Ledger {
    Ledger { operations: ledger.operations.insert(operation_id, statement), ..ledger }
}

/// What carrying out a checked settlement does: the reservations are consumed,
/// the nullifiers used, the accounts moved and the operation recorded.
pub open spec fn product_effect(ledger: Ledger, order: ProductSettlementOrder) -> Outcome {
    let statement = order.seal.statement->Ok_0;
    let consumed = consume_progress(ledger, ledger, order.reservations@, statement, 0);
    let used = nullified(
        consumed.ledger,
        order.settlement.nullifier,
        order.settlement.deadline,
        order.terms.rfq_nullifier,
        statement,
    );
    let moved = legs_progress(used, order.settlement.legs@, 0);
    if consumed.refusal is Some {
        refused(consumed.ledger, consumed.refusal->0)
    } else if moved.refusal is Some {
        refused(moved.ledger, moved.refusal->0)
    } else {
        accepted(operated(moved.ledger, order.settlement.operation_id, statement), statement)
    }
}

/// What a settlement does.
pub open spec fn product_outcome(
    ledger: Ledger,
    order: ProductSettlementOrder,
    timestamp: u64,
) -> Outcome {
    unless(product_refusal(ledger, order, timestamp), ledger, product_effect(ledger, order))
}

/// Settles delivery against payment: consumes both reservations and moves the
/// accounts.
pub fn apply_product_settlement(
    state: &mut State,
    order: &ProductSettlementOrder,
    timestamp: u64,
) -> (r: Result<Id, String>)
    ensures
        meets(r, final(state)@, product_outcome(old(state)@, *order, timestamp)),
{
    let statement = statement_of(&order.seal.statement)?;
    if timestamp > order.settlement.deadline {
        return refuse("product settlement has expired");
    }
    if state.operations.contains_key(&order.settlement.operation_id) {
        return refuse("settlement operation identifier was already used");
    }
    if state.nullifiers.contains_key(&order.settlement.nullifier) {
        return refuse("payment nullifier was already settled");
    }
    if state.rfq_nullifiers.contains_key(&order.terms.rfq_nullifier) {
        return refuse("RFQ nullifier was already settled");
    }
    let payment_asset_id = match find_payment_leg(
        &order.settlement.legs,
        order.terms.traded_asset_id,
    ) {
        Some(asset_id) => asset_id,
        None => return refuse("product settlement has no payment rail"),
    };
    match state.assets.get(&payment_asset_id) {
        None => return refuse("product settlement payment asset is unknown"),
        Some(asset) => {
            if !asset.active || asset.kind != AssetKind::Cash {
                return refuse("product settlement payment side is not an active cash rail");
            }
        },
    }
    let base_statement = statement_of(&order.settlement.seal.statement)?;
    let mut direction: u8 = 0;
    let mut prepared: Vec<Prepared> = Vec::new();
    let mut index: usize = 0;
    while index < order.reservations.len()
        invariant
            index <= order.reservations@.len(),
            prepared@.len() == index,
            state@ == old(state)@,
            consumptions_verdict(
                state@,
                *order,
                payment_asset_id,
                base_statement,
                timestamp,
                0,
                0,
            ) == consumptions_verdict(
                state@,
                *order,
                payment_asset_id,
                base_statement,
                timestamp,
                direction,
                index as nat,
            ),
            forall|i: int|
                0 <= i < index ==> prepared_from(
                    state@,
                    order.reservations@[i],
                    #[trigger] prepared@[i],
                ),
            product_refusal(state@, *order, timestamp) == (match consumptions_verdict(
                state@,
                *order,
                payment_asset_id,
                base_statement,
                timestamp,
                0,
                0,
            ) {
                Err(message) => Some(message),
                Ok(found) => if found != 1 && found != 2 {
                    Some("product settlement has an unsupported direction"@)
                } else {
                    legs_refusal(state@, order.settlement.legs@, "product settlement"@, 0)
                },
            }),
        decreases order.reservations@.len() - index,
    {
        let (found, item) = check_consumption(
            state,
            order,
            payment_asset_id,
            base_statement,
            timestamp,
            direction,
            index,
        )?;
        direction = found;
        prepared.push(item);
        index = index + 1;
    }
    if direction != 1 && direction != 2 {
        return refuse("product settlement has an unsupported direction");
    }
    check_legs(state, &order.settlement.legs, "product settlement")?;
    consume_prepared(state, &order.reservations, &prepared, statement)?;
    state.nullifiers.insert(
        order.settlement.nullifier,
        NullifierRecord { deadline: order.settlement.deadline, statement },
    );
    state.rfq_nullifiers.insert(order.terms.rfq_nullifier, statement);
    move_legs(state, &order.settlement.legs)?;
    state.operations.insert(order.settlement.operation_id, statement);
    Ok(statement)
}

/// What an approved settlement does.
pub open spec fn settle_product_outcome(
    ledger: Ledger,
    order: ProductSettlementOrder,
    submission: Submission,
    timestamp: u64,
) -> Outcome {
    unless(
        endorsement_refusal(order.seal, submission),
        ledger,
        product_outcome(ledger, order, timestamp),
    )
}

/// Settles one approved order.
pub fn settle_product(
    state: &mut State,
    order: &ProductSettlementOrder,
    submission: &Submission,
    timestamp: u64,
) -> (r: Result<Id, String>)
    ensures
        meets(
            r,
            final(state)@,
            settle_product_outcome(old(state)@, *order, *submission, timestamp),
        ),
{
    endorse(&order.seal, submission)?;
    apply_product_settlement(state, order, timestamp)
}

/// Settles the orders from `from` on, one after the other.
pub open spec fn orders_progress(
    ledger: Ledger,
    orders: Seq<ProductSettlementOrder>,
    timestamp: u64,
    from: nat,
) -> Progress
    decreases orders.len() - from,
{
    if from >= orders.len() {
        done(ledger)
    } else {
        let outcome = product_outcome(ledger, orders[from as int], timestamp);
        match outcome.result {
            Err(message) => stopped(outcome.ledger, message),
            Ok(_) => orders_progress(outcome.ledger, orders, timestamp, from + 1),
        }
    }
}

/// What an approved batch of settlements does.
pub open spec fn settle_product_batch_outcome(
    ledger: Ledger,
    batch: ProductSettlementBatch,
    orders: Seq<ProductSettlementOrder>,
    submission: Submission,
    timestamp: u64,
) -> Outcome {
    let progress = orders_progress(ledger, orders, timestamp, 0);
    let statement = batch.seal.statement->Ok_0;
    if endorsement_refusal(batch.seal, submission) is Some {
        refused(ledger, endorsement_refusal(batch.seal, submission)->0)
    } else if ledger.operations.contains_key(batch.batch_id) {
        refused(ledger, "product settlement batch identifier was already used"@)
    } else if progress.refusal is Some {
        refused(progress.ledger, progress.refusal->0)
    } else {
        accepted(operated(progress.ledger, batch.batch_id, statement), statement)
    }
}

/// Settles the orders of an approved batch, one after the other.
pub fn settle_product_batch(
    state: &mut State,
    batch: &ProductSettlementBatch,
    orders: &Vec<ProductSettlementOrder>,
    submission: &Submission,
    timestamp: u64,
) -> (r: Result<Id, String>)
    ensures
        meets(
            r,
            final(state)@,
            settle_product_batch_outcome(old(state)@, *batch, orders@, *submission, timestamp),
        ),
{
    let statement = endorse(&batch.seal, submission)?;
    if state.operations.contains_key(&batch.batch_id) {
        return refuse("product settlement batch identifier was already used");
    }
    let ghost before = state@;
    let mut index: usize = 0;
    while index < orders.len()
        invariant
            index <= orders@.len(),
            before == old(state)@,
            endorsement_refusal(batch.seal, *submission) is None,
            !before.operations.contains_key(batch.batch_id),
            orders_progress(before, orders@, timestamp, 0) == orders_progress(
                state@,
                orders@,
                timestamp,
                index as nat,
            ),
        decreases orders@.len() - index,
    {
        apply_product_settlement(state, &orders[index], timestamp)?;
        index = index + 1;
    }
    state.operations.insert(batch.batch_id, statement);
    Ok(statement)
}

} // verus!
