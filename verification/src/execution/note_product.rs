//! Delivery against payment between escrowed notes.

use std::sync::Arc;
use vstd::prelude::*;

use crate::endorsement::{statement_of, statement_refusal};
use crate::execution::facility::{
    advance, advanced, binding_fits, check_scope, close_hold, closed_hold, consumable,
    does_binding_fit, does_facility_fit, expected_side, facility_fits, hold_current,
    is_consumable, is_hold_current, scope_refusal, side_of,
};
use crate::execution::product::{
    asset_active, does_repeat_operation, is_asset_active, nullified, operated, repeats_operation,
};
use crate::id::Id;
use crate::order::{
    CreditFacilityTransition, EscrowClaimSpend, NoteClaim, ProductNoteSettlementOrder,
    ReservationConsumption,
};
use crate::outcome::{
    accepted, advances, done, meets, refuse, refused, stopped, unless, Outcome, Progress,
};
use crate::state::{
    AssetKind, ClaimStatus, CreditFacilityRecord, CreditHoldRecord, HoldStatus, Ledger,
    NoteClaimKind, NoteClaimRecord, NoteReservationRecord, NoteSerialRecord, NullifierRecord,
    State,
};

verus! {

/// The asset of the first spend from `from` on that is not of the traded asset.
pub open spec fn payment_spend(
    spends: Seq<EscrowClaimSpend>,
    traded_asset_id: Id,
    from: nat,
) -> Option<Id>
    decreases spends.len() - from,
{
    if from >= spends.len() {
        None
    } else if spends[from as int].asset_id != traded_asset_id {
        Some(spends[from as int].asset_id)
    } else {
        payment_spend(spends, traded_asset_id, from + 1)
    }
}

fn find_payment_spend(spends: &Vec<EscrowClaimSpend>, traded_asset_id: Id) -> (r: Option<Id>)
    ensures
        r == payment_spend(spends@, traded_asset_id, 0),
{
    let mut index: usize = 0;
    while index < spends.len()
        invariant
            index <= spends@.len(),
            payment_spend(spends@, traded_asset_id, 0) == payment_spend(
                spends@,
                traded_asset_id,
                index as nat,
            ),
        decreases spends@.len() - index,
    {
        if spends[index].asset_id != traded_asset_id {
            return Some(spends[index].asset_id);
        }
        index = index + 1;
    }
    None
}

/// The first spend from `from` on that belongs to a hold.
pub open spec fn spend_of_hold(spends: Seq<EscrowClaimSpend>, hold_id: Id, from: nat) -> Option<
    EscrowClaimSpend,
>
    decreases spends.len() - from,
{
    if from >= spends.len() {
        None
    } else if spends[from as int].hold_id == hold_id {
        Some(spends[from as int])
    } else {
        spend_of_hold(spends, hold_id, from + 1)
    }
}

fn find_spend_of_hold(spends: &Vec<EscrowClaimSpend>, hold_id: Id) -> (r: Option<
    &EscrowClaimSpend,
>)
    ensures
        match r {
            Some(spend) => spend_of_hold(spends@, hold_id, 0) == Some(*spend),
            None => spend_of_hold(spends@, hold_id, 0) is None,
        },
{
    let mut index: usize = 0;
    while index < spends.len()
        invariant
            index <= spends@.len(),
            spend_of_hold(spends@, hold_id, 0) == spend_of_hold(spends@, hold_id, index as nat),
        decreases spends@.len() - index,
    {
        if spends[index].hold_id == hold_id {
            return Some(&spends[index]);
        }
        index = index + 1;
    }
    None
}

/// The value of the first claim of a kind from `from` on.
pub open spec fn claimed_value(claims: Seq<NoteClaim>, kind: NoteClaimKind, from: nat) -> Option<Id>
    decreases claims.len() - from,
{
    if from >= claims.len() {
        None
    } else if claims[from as int].kind == kind {
        Some(claims[from as int].value_commitment)
    } else {
        claimed_value(claims, kind, from + 1)
    }
}

fn does_claim(claims: &Vec<NoteClaim>, kind: NoteClaimKind, value: Id) -> (r: bool)
    ensures
        r == (claimed_value(claims@, kind, 0) == Some(value)),
{
    let mut index: usize = 0;
    while index < claims.len()
        invariant
            index <= claims@.len(),
            claimed_value(claims@, kind, 0) == claimed_value(claims@, kind, index as nat),
        decreases claims@.len() - index,
    {
        if claims[index].kind == kind {
            return claims[index].value_commitment == value;
        }
        index = index + 1;
    }
    false
}

/// Whether one of the claims exists already.
pub open spec fn reuses_claim(ledger: Ledger, claims: Seq<NoteClaim>) -> bool {
    exists|i: int|
        0 <= i < claims.len() && ledger.note_claims.contains_key((#[trigger] claims[i]).claim_id)
}

fn does_reuse_claim(state: &State, claims: &Vec<NoteClaim>) -> (r: bool)
    ensures
        r == reuses_claim(state@, claims@),
{
    let mut index: usize = 0;
    while index < claims.len()
        invariant
            index <= claims@.len(),
            forall|i: int|
                0 <= i < index ==> !state@.note_claims.contains_key(
                    (#[trigger] claims@[i]).claim_id,
                ),
        decreases claims@.len() - index,
    {
        if state.note_claims.contains_key(&claims[index].claim_id) {
            return true;
        }
        index = index + 1;
    }
    false
}

/// Why the escrowed note of a reservation does not fit the settlement.
pub open spec fn covenant_refusal(
    ledger: Ledger,
    order: ProductNoteSettlementOrder,
    transition: CreditFacilityTransition,
    asset_id: Id,
) -> Option<Seq<char>> {
    let escrow = ledger.note_reservations[transition.hold_id];
    let matching = spend_of_hold(order.settlement.spends@, transition.hold_id, 0);
    let spend = matching->0;
    let note = ledger.notes[escrow.escrow_note_id];
    if !ledger.note_reservations.contains_key(transition.hold_id) {
        Some("anonymous reservation escrow note is unknown"@)
    } else if escrow.status != HoldStatus::Active || escrow.asset_id != asset_id
        || escrow.amount_commitment != transition.amount_commitment {
        Some("reservation has no matching active escrow note"@)
    } else if matching is None {
        Some("reservation escrow note is omitted from DvP"@)
    } else if spend.asset_id != asset_id || spend.escrow_note_id != escrow.escrow_note_id
        || spend.delegation_digest != escrow.delegation_digest || spend.proof_digest
        != order.terms.dvp_proof_digest {
        Some("reservation escrow note differs from the DvP"@)
    } else if !ledger.notes.contains_key(escrow.escrow_note_id) {
        Some("live reservation covenant note is missing"@)
    } else if note.asset_id != asset_id || note.lock_id != transition.hold_id
        || note.value_commitment != transition.amount_commitment {
        Some("live covenant note differs from its reservation"@)
    } else if claimed_value(spend.claims@, NoteClaimKind::Delivery, 0) != Some(
        transition.consumed_commitment,
    ) || claimed_value(spend.claims@, NoteClaimKind::Refund, 0) != Some(
        transition.refund_commitment,
    ) {
        Some("claim commitments differ from proved consumption and refund"@)
    } else if ledger.note_serials.contains_key(spend.serial) {
        Some("reservation escrow note was already settled"@)
    } else if reuses_claim(ledger, spend.claims@) {
        Some("anonymous settlement reuses a note claim"@)
    } else {
        None
    }
}

fn check_covenant(
    state: &State,
    order: &ProductNoteSettlementOrder,
    transition: &CreditFacilityTransition,
    asset_id: Id,
) -> (r: Result<NoteReservationRecord, String>)
    ensures
        match r {
            Ok(escrow) => covenant_refusal(state@, *order, *transition, asset_id) is None && escrow
                == state@.note_reservations[transition.hold_id],
            Err(message) => covenant_refusal(state@, *order, *transition, asset_id) == Some(
                message@,
            ),
        },
{
    let escrow = match state.note_reservations.get(&transition.hold_id) {
        Some(escrow) => escrow,
        None => return refuse("anonymous reservation escrow note is unknown"),
    };
    if escrow.status != HoldStatus::Active || escrow.asset_id != asset_id
        || escrow.amount_commitment != transition.amount_commitment {
        return refuse("reservation has no matching active escrow note");
    }
    let spend = match find_spend_of_hold(&order.settlement.spends, transition.hold_id) {
        Some(spend) => spend,
        None => return refuse("reservation escrow note is omitted from DvP"),
    };
    if spend.asset_id != asset_id || spend.escrow_note_id != escrow.escrow_note_id
        || spend.delegation_digest != escrow.delegation_digest || spend.proof_digest
        != order.terms.dvp_proof_digest {
        return refuse("reservation escrow note differs from the DvP");
    }
    let note = match state.notes.get(&escrow.escrow_note_id) {
        Some(note) => note,
        None => return refuse("live reservation covenant note is missing"),
    };
    if note.asset_id != asset_id || note.lock_id != transition.hold_id || note.value_commitment
        != transition.amount_commitment {
        return refuse("live covenant note differs from its reservation");
    }
    if !does_claim(&spend.claims, NoteClaimKind::Delivery, transition.consumed_commitment)
        || !does_claim(&spend.claims, NoteClaimKind::Refund, transition.refund_commitment) {
        return refuse("claim commitments differ from proved consumption and refund");
    }
    if state.note_serials.contains_key(&spend.serial) {
        return refuse("reservation escrow note was already settled");
    }
    if does_reuse_claim(state, &spend.claims) {
        return refuse("anonymous settlement reuses a note claim");
    }
    Ok(*escrow)
}

/// Why the consumption at `at` is refused, where `direction` is that of the
/// consumptions before it, or 0.
pub open spec fn note_consumption_refusal(
    ledger: Ledger,
    order: ProductNoteSettlementOrder,
    payment_asset_id: Id,
    base_statement: Id,
    timestamp: u64,
    direction: u8,
    at: int,
) -> Option<Seq<char>> {
    let consumption = order.reservations@[at];
    let transition = consumption.transition;
    let binding = ledger.reservation_bindings[transition.hold_id];
    let side = expected_side(order.terms, consumption.role, binding.direction, payment_asset_id);
    let hold = ledger.credit_holds[transition.hold_id];
    if consumption.reserve_receipt_digest == Id::zero() || repeats_operation(
        order.reservations@,
        at,
    ) || transition.operation_id == order.settlement.operation_id
        || ledger.operations.contains_key(transition.operation_id) {
        Some("anonymous settlement repeats a used reservation operation"@)
    } else if !ledger.reservation_bindings.contains_key(transition.hold_id) {
        Some("anonymous settlement names an unknown reservation"@)
    } else if direction != 0 && direction != binding.direction {
        Some("Maker and Taker reservations use different directions"@)
    } else if !binding_fits(
        binding,
        consumption.role,
        side,
        consumption.reserve_receipt_digest,
    ) {
        Some("anonymous reservation differs from product settlement"@)
    } else if scope_refusal(binding, consumption.role, order.terms) is Some {
        scope_refusal(binding, consumption.role, order.terms)
    } else if transition.consumed_commitment != side.consumed {
        Some("guarantee consumption differs from proved anonymous DvP amount"@)
    } else if !consumable(transition, base_statement, timestamp) {
        Some("anonymous reservation is not consumable by this DvP"@)
    } else if !ledger.credit_facilities.contains_key(transition.facility_id) {
        Some("anonymous reservation facility is unknown"@)
    } else if !facility_fits(ledger.credit_facilities[transition.facility_id], transition, side) {
        Some("anonymous consumption was proved against stale facility state"@)
    } else if !ledger.credit_holds.contains_key(transition.hold_id) {
        Some("anonymous reservation credit hold is unknown"@)
    } else if !hold_current(hold, transition) {
        Some("anonymous consumption was proved against stale hold state"@)
    } else if covenant_refusal(ledger, order, transition, side.asset) is Some {
        covenant_refusal(ledger, order, transition, side.asset)
    } else {
        statement_refusal(consumption.transition_statement)
    }
}

/// The direction that all consumptions from `from` on share, or why one of them
/// is refused.
pub open spec fn note_consumptions_verdict(
    ledger: Ledger,
    order: ProductNoteSettlementOrder,
    payment_asset_id: Id,
    base_statement: Id,
    timestamp: u64,
    direction: u8,
    from: nat,
) -> Result<u8, Seq<char>>
    decreases order.reservations@.len() - from,
{
    if from >= order.reservations@.len() {
        Ok(direction)
    } else {
        match note_consumption_refusal(
            ledger,
            order,
            payment_asset_id,
            base_statement,
            timestamp,
            direction,
            from as int,
        ) {
            Some(message) => Err(message),
            None => note_consumptions_verdict(
                ledger,
                order,
                payment_asset_id,
                base_statement,
                timestamp,
                ledger.reservation_bindings[order.reservations@[from as int].transition.hold_id].direction,
                from + 1,
            ),
        }
    }
}

/// A reservation that has passed its checks, with the records as they were.
struct PreparedNote {
    transition: CreditFacilityTransition,
    transition_statement: Id,
    facility: CreditFacilityRecord,
    hold: CreditHoldRecord,
    escrow: NoteReservationRecord,
}

spec fn prepared_note_from(
    ledger: Ledger,
    consumption: ReservationConsumption,
    item: PreparedNote,
) -> bool {
    let transition = consumption.transition;
    &&& item.transition == transition
    &&& consumption.transition_statement == Ok::<Id, String>(item.transition_statement)
    &&& item.facility == ledger.credit_facilities[transition.facility_id]
    &&& item.hold == ledger.credit_holds[transition.hold_id]
    &&& item.escrow == ledger.note_reservations[transition.hold_id]
    &&& item.facility.sequence == transition.before_sequence
}

/// Checks one consumption. Gives its direction and the records it will change.
fn check_note_consumption(
    state: &State,
    order: &ProductNoteSettlementOrder,
    payment_asset_id: Id,
    base_statement: Id,
    timestamp: u64,
    direction: u8,
    at: usize,
) -> (r: Result<(u8, PreparedNote), String>)
    requires
        at < order.reservations@.len(),
    ensures
        match r {
            Ok((found, item)) => {
                &&& note_consumption_refusal(
                    state@,
                    *order,
                    payment_asset_id,
                    base_statement,
                    timestamp,
                    direction,
                    at as int,
                ) is None
                &&& found
                    == state@.reservation_bindings[order.reservations@[at as int].transition.hold_id].direction
                &&& prepared_note_from(state@, order.reservations@[at as int], item)
            },
            Err(message) => note_consumption_refusal(
                state@,
                *order,
                payment_asset_id,
                base_statement,
                timestamp,
                direction,
                at as int,
            ) == Some(message@),
        },
{
    let consumption = &order.reservations[at];
    let transition = &consumption.transition;
    if consumption.reserve_receipt_digest == Id::zero() || does_repeat_operation(
        &order.reservations,
        at,
    ) || transition.operation_id == order.settlement.operation_id || state.operations.contains_key(
        &transition.operation_id,
    ) {
        return refuse("anonymous settlement repeats a used reservation operation");
    }
    let binding = match state.reservation_bindings.get(&transition.hold_id) {
        Some(binding) => binding,
        None => return refuse("anonymous settlement names an unknown reservation"),
    };
    if direction != 0 && direction != binding.direction {
        return refuse("Maker and Taker reservations use different directions");
    }
    let side = side_of(&order.terms, consumption.role, binding.direction, payment_asset_id);
    if !does_binding_fit(binding, consumption.role, &side, consumption.reserve_receipt_digest) {
        return refuse("anonymous reservation differs from product settlement");
    }
    check_scope(binding, consumption.role, &order.terms)?;
    if transition.consumed_commitment != side.consumed {
        return refuse("guarantee consumption differs from proved anonymous DvP amount");
    }
    if !is_consumable(transition, base_statement, timestamp) {
        return refuse("anonymous reservation is not consumable by this DvP");
    }
    let facility = match state.credit_facilities.get(&transition.facility_id) {
        Some(facility) => facility,
        None => return refuse("anonymous reservation facility is unknown"),
    };
    if !does_facility_fit(facility, transition, &side) {
        return refuse("anonymous consumption was proved against stale facility state");
    }
    let hold = match state.credit_holds.get(&transition.hold_id) {
        Some(hold) => hold,
        None => return refuse("anonymous reservation credit hold is unknown"),
    };
    if !is_hold_current(hold, transition) {
        return refuse("anonymous consumption was proved against stale hold state");
    }
    let escrow = check_covenant(state, order, transition, side.asset)?;
    let transition_statement = statement_of(&consumption.transition_statement)?;
    Ok(
        (
            binding.direction,
            PreparedNote {
                transition: *transition,
                transition_statement,
                facility: *facility,
                hold: *hold,
                escrow,
            },
        ),
    )
}

/// The ledger after one reservation is consumed. The records changed are those
/// of `before`, the ledger that the settlement was checked against.
pub open spec fn note_consumed_ledger(
    before: Ledger,
    ledger: Ledger,
    consumption: ReservationConsumption,
    statement: Id,
) -> Ledger {
    let transition = consumption.transition;
    Ledger {
        credit_facilities: ledger.credit_facilities.insert(
            transition.facility_id,
            advanced(before.credit_facilities[transition.facility_id], transition),
        ),
        credit_holds: ledger.credit_holds.insert(
            transition.hold_id,
            closed_hold(
                before.credit_holds[transition.hold_id],
                transition,
                HoldStatus::Consumed,
                transition.settlement_digest,
            ),
        ),
        note_reservations: ledger.note_reservations.insert(
            transition.hold_id,
            NoteReservationRecord {
                status: HoldStatus::Consumed,
                settlement_digest: statement,
                ..before.note_reservations[transition.hold_id]
            },
        ),
        operations: ledger.operations.insert(
            transition.operation_id,
            consumption.transition_statement->Ok_0,
        ),
        ..ledger
    }
}

/// Consumes the reservations from `from` on, in order.
pub open spec fn note_consume_progress(
    before: Ledger,
    ledger: Ledger,
    reservations: Seq<ReservationConsumption>,
    statement: Id,
    from: nat,
) -> Progress
    decreases reservations.len() - from,
{
    if from >= reservations.len() {
        done(ledger)
    } else {
        let consumption = reservations[from as int];
        if before.credit_facilities[consumption.transition.facility_id].sequence == u64::MAX {
            stopped(ledger, "credit facility sequence overflow"@)
        } else {
            note_consume_progress(
                before,
                note_consumed_ledger(before, ledger, consumption, statement),
                reservations,
                statement,
                from + 1,
            )
        }
    }
}

fn consume_prepared_notes(
    state: &mut State,
    reservations: &Vec<ReservationConsumption>,
    prepared: &Vec<PreparedNote>,
    statement: Id,
) -> (r: Result<(), String>)
    requires
        prepared@.len() == reservations@.len(),
        forall|i: int|
            0 <= i < prepared@.len() ==> prepared_note_from(
                old(state)@,
                reservations@[i],
                #[trigger] prepared@[i],
            ),
    ensures
        advances(
            r,
            final(state)@,
            note_consume_progress(old(state)@, old(state)@, reservations@, statement, 0),
        ),
{
    let ghost before = state@;
    let mut index: usize = 0;
    while index < prepared.len()
        invariant
            index <= prepared@.len(),
            prepared@.len() == reservations@.len(),
            before == old(state)@,
            forall|i: int|
                0 <= i < prepared@.len() ==> prepared_note_from(
                    before,
                    reservations@[i],
                    #[trigger] prepared@[i],
                ),
            note_consume_progress(before, before, reservations@, statement, 0)
                == note_consume_progress(before, state@, reservations@, statement, index as nat),
        decreases prepared@.len() - index,
    {
        let item = &prepared[index];
        assert(prepared_note_from(before, reservations@[index as int], *item));
        let ghost ledger = state@;
        let facility = advance(&item.facility, &item.transition)?;
        state.credit_facilities.insert(item.transition.facility_id, facility);
        let hold = close_hold(
            &item.hold,
            &item.transition,
            HoldStatus::Consumed,
            item.transition.settlement_digest,
        );
        state.credit_holds.insert(item.transition.hold_id, hold);
        let mut escrow = item.escrow;
        escrow.status = HoldStatus::Consumed;
        escrow.settlement_digest = statement;
        state.note_reservations.insert(item.transition.hold_id, escrow);
        state.operations.insert(item.transition.operation_id, item.transition_statement);
        assert(state@ =~= note_consumed_ledger(
            before,
            ledger,
            reservations@[index as int],
            statement,
        ));
        index = index + 1;
    }
    Ok(())
}

/// The stored form of a fresh claim.
pub open spec fn fresh_claim(claim: NoteClaim, statement: Id) -> NoteClaimRecord {
    NoteClaimRecord {
        asset_id: claim.asset_id,
        value_commitment: claim.value_commitment,
        recipient_commitment: claim.recipient_commitment,
        source_hold_id: claim.source_hold_id,
        kind: claim.kind,
        opening_envelope: claim.opening_record->Ok_0,
        status: ClaimStatus::Active,
        settlement_digest: statement,
        materialization: Id::zero(),
    }
}

/// The ledger with a fresh claim, unless its opening cannot be stored.
pub open spec fn claim_progress(ledger: Ledger, claim: NoteClaim, statement: Id) -> Progress {
    match claim.opening_record {
        Err(message) => stopped(ledger, message@),
        Ok(_) => done(
            Ledger {
                note_claims: ledger.note_claims.insert(
                    claim.claim_id,
                    fresh_claim(claim, statement),
                ),
                ..ledger
            },
        ),
    }
}

/// Stores a claim.
pub(crate) fn store_claim(
    state: &mut State,
    claim: &NoteClaim,
    statement: Id,
) -> (r: Result<(), String>)
    ensures
        advances(r, final(state)@, claim_progress(old(state)@, *claim, statement)),
{
    let opening_envelope = match &claim.opening_record {
        Err(message) => return Err(message.clone()),
        Ok(envelope) => Arc::clone(envelope),
    };
    state.note_claims.insert(
        claim.claim_id,
        NoteClaimRecord {
            asset_id: claim.asset_id,
            value_commitment: claim.value_commitment,
            recipient_commitment: claim.recipient_commitment,
            source_hold_id: claim.source_hold_id,
            kind: claim.kind,
            opening_envelope,
            status: ClaimStatus::Active,
            settlement_digest: statement,
            materialization: Id::zero(),
        },
    );
    Ok(())
}

/// Stores the claims from `from` on, in order.
pub open spec fn claims_progress(
    ledger: Ledger,
    claims: Seq<NoteClaim>,
    statement: Id,
    from: nat,
) -> Progress
    decreases claims.len() - from,
{
    if from >= claims.len() {
        done(ledger)
    } else {
        let step = claim_progress(ledger, claims[from as int], statement);
        if step.refusal is Some {
            step
        } else {
            claims_progress(step.ledger, claims, statement, from + 1)
        }
    }
}

fn store_claims(state: &mut State, claims: &Vec<NoteClaim>, statement: Id) -> (r: Result<
    (),
    String,
>)
    ensures
        advances(r, final(state)@, claims_progress(old(state)@, claims@, statement, 0)),
{
    let ghost before = state@;
    let mut index: usize = 0;
    while index < claims.len()
        invariant
            index <= claims@.len(),
            before == old(state)@,
            claims_progress(before, claims@, statement, 0) == claims_progress(
                state@,
                claims@,
                statement,
                index as nat,
            ),
        decreases claims@.len() - index,
    {
        store_claim(state, &claims[index], statement)?;
        index = index + 1;
    }
    Ok(())
}

/// The ledger with the serial of an escrowed note used.
pub open spec fn serial_used(
    ledger: Ledger,
    spend: EscrowClaimSpend,
    deadline: u64,
    statement: Id,
) -> Ledger {
    Ledger {
        note_serials: ledger.note_serials.insert(
            spend.serial,
            NoteSerialRecord {
                deadline,
                asset_id: spend.asset_id,
                ring_root: spend.escrow_note_id,
                statement,
            },
        ),
        ..ledger
    }
}

/// Spends the escrowed notes from `from` on into claims, in order.
pub open spec fn spends_progress(
    ledger: Ledger,
    spends: Seq<EscrowClaimSpend>,
    deadline: u64,
    statement: Id,
    from: nat,
) -> Progress
    decreases spends.len() - from,
{
    if from >= spends.len() {
        done(ledger)
    } else {
        let spend = spends[from as int];
        let step = claims_progress(
            serial_used(ledger, spend, deadline, statement),
            spend.claims@,
            statement,
            0,
        );
        if step.refusal is Some {
            step
        } else {
            spends_progress(step.ledger, spends, deadline, statement, from + 1)
        }
    }
}

fn spend_escrows(
    state: &mut State,
    spends: &Vec<EscrowClaimSpend>,
    deadline: u64,
    statement: Id,
) -> (r: Result<(), String>)
    ensures
        advances(
            r,
            final(state)@,
            spends_progress(old(state)@, spends@, deadline, statement, 0),
        ),
{
    let ghost before = state@;
    let mut index: usize = 0;
    while index < spends.len()
        invariant
            index <= spends@.len(),
            before == old(state)@,
            spends_progress(before, spends@, deadline, statement, 0) == spends_progress(
                state@,
                spends@,
                deadline,
                statement,
                index as nat,
            ),
        decreases spends@.len() - index,
    {
        let spend = &spends[index];
        let ghost ledger = state@;
        state.note_serials.insert(
            spend.serial,
            NoteSerialRecord {
                deadline,
                asset_id: spend.asset_id,
                ring_root: spend.escrow_note_id,
                statement,
            },
        );
        assert(state@ =~= serial_used(ledger, *spend, deadline, statement));
        store_claims(state, &spend.claims, statement)?;
        index = index + 1;
    }
    Ok(())
}

/// Why a settlement is refused before anything changes.
pub open spec fn note_product_refusal(
    ledger: Ledger,
    order: ProductNoteSettlementOrder,
    timestamp: u64,
) -> Option<Seq<char>> {
    let settlement = order.settlement;
    let payment = payment_spend(settlement.spends@, order.terms.traded_asset_id, 0);
    let verdict = note_consumptions_verdict(
        ledger,
        order,
        payment->0,
        settlement.seal.statement->Ok_0,
        timestamp,
        0,
        0,
    );
    if order.seal.refusal() is Some {
        order.seal.refusal()
    } else if timestamp > settlement.deadline {
        Some("anonymous product settlement has expired"@)
    } else if ledger.operations.contains_key(settlement.operation_id) {
        Some("settlement operation identifier was already used"@)
    } else if ledger.nullifiers.contains_key(settlement.nullifier) {
        Some("payment nullifier was already settled"@)
    } else if ledger.rfq_nullifiers.contains_key(order.terms.rfq_nullifier) {
        Some("RFQ nullifier was already settled"@)
    } else if payment is None {
        Some("anonymous product settlement has no payment rail"@)
    } else if !ledger.assets.contains_key(payment->0) {
        Some("anonymous product payment asset is unknown"@)
    } else if !ledger.assets[payment->0].active || ledger.assets[payment->0].kind
        != AssetKind::Cash {
        Some("anonymous payment side is not an active cash rail"@)
    } else if !asset_active(ledger, order.terms.traded_asset_id) {
        Some("anonymous traded asset is inactive or unknown"@)
    } else if statement_refusal(settlement.seal.statement) is Some {
        statement_refusal(settlement.seal.statement)
    } else {
        match verdict {
            Err(message) => Some(message),
            Ok(direction) => if direction != 1 && direction != 2 {
                Some("anonymous product settlement has an unsupported direction"@)
            } else {
                None
            },
        }
    }
}

/// What carrying out a checked settlement does: the reservations are consumed,
/// the nullifiers used, the operation recorded, and every escrowed note is
/// spent into its claims.
pub open spec fn note_product_effect(
    ledger: Ledger,
    order: ProductNoteSettlementOrder,
) -> Outcome {
    let settlement = order.settlement;
    let statement = order.seal.statement->Ok_0;
    let consumed = note_consume_progress(ledger, ledger, order.reservations@, statement, 0);
    let used = nullified(
        consumed.ledger,
        settlement.nullifier,
        settlement.deadline,
        order.terms.rfq_nullifier,
        statement,
    );
    let spent = spends_progress(
        operated(used, settlement.operation_id, statement),
        settlement.spends@,
        settlement.deadline,
        statement,
        0,
    );
    if consumed.refusal is Some {
        refused(consumed.ledger, consumed.refusal->0)
    } else if spent.refusal is Some {
        refused(spent.ledger, spent.refusal->0)
    } else {
        accepted(spent.ledger, statement)
    }
}

/// What a settlement does.
pub open spec fn note_product_outcome(
    ledger: Ledger,
    order: ProductNoteSettlementOrder,
    timestamp: u64,
) -> Outcome {
    unless(
        note_product_refusal(ledger, order, timestamp),
        ledger,
        note_product_effect(ledger, order),
    )
}

/// Settles delivery against payment: consumes both reservations and turns their
/// escrowed notes into claims.
pub fn apply_note_product_settlement(
    state: &mut State,
    order: &ProductNoteSettlementOrder,
    timestamp: u64,
) -> (r: Result<Id, String>)
    ensures
        meets(r, final(state)@, note_product_outcome(old(state)@, *order, timestamp)),
{
    let statement = order.seal.open()?;
    if timestamp > order.settlement.deadline {
        return refuse("anonymous product settlement has expired");
    }
    if state.operations.contains_key(&order.settlement.operation_id) {
        return refuse("settlement operation identifier was already used");
    }
    if state.nullifiers.contains_key(&order.settlement.nullifier) {
        return refuse("payment nullifier was already settled");
    }
    if state.rfq_nullifiers.contains_key(&order.terms.rfq_nullifier) {
        return refuse("RFQ nullifier was already settled");
    }
    let payment_asset_id = match find_payment_spend(
        &order.settlement.spends,
        order.terms.traded_asset_id,
    ) {
        Some(asset_id) => asset_id,
        None => return refuse("anonymous product settlement has no payment rail"),
    };
    match state.assets.get(&payment_asset_id) {
        None => return refuse("anonymous product payment asset is unknown"),
        Some(asset) => {
            if !asset.active || asset.kind != AssetKind::Cash {
                return refuse("anonymous payment side is not an active cash rail");
            }
        },
    }
    if !is_asset_active(state, &order.terms.traded_asset_id) {
        return refuse("anonymous traded asset is inactive or unknown");
    }
    let base_statement = statement_of(&order.settlement.seal.statement)?;
    let mut direction: u8 = 0;
    let mut prepared: Vec<PreparedNote> = Vec::new();
    let mut index: usize = 0;
    while index < order.reservations.len()
        invariant
            index <= order.reservations@.len(),
            prepared@.len() == index,
            state@ == old(state)@,
            note_consumptions_verdict(
                state@,
                *order,
                payment_asset_id,
                base_statement,
                timestamp,
                0,
                0,
            ) == note_consumptions_verdict(
                state@,
                *order,
                payment_asset_id,
                base_statement,
                timestamp,
                direction,
                index as nat,
            ),
            forall|i: int|
                0 <= i < index ==> prepared_note_from(
                    state@,
                    order.reservations@[i],
                    #[trigger] prepared@[i],
                ),
            note_product_refusal(state@, *order, timestamp) == (match note_consumptions_verdict(
                state@,
                *order,
                payment_asset_id,
                base_statement,
                timestamp,
                0,
                0,
            ) {
                Err(message) => Some(message),
                Ok(found) => if found != 1 && found != 2 {
                    Some("anonymous product settlement has an unsupported direction"@)
                } else {
                    None
                },
            }),
        decreases order.reservations@.len() - index,
    {
        let (found, item) = check_note_consumption(
            state,
            order,
            payment_asset_id,
            base_statement,
            timestamp,
            direction,
            index,
        )?;
        direction = found;
        prepared.push(item);
        index = index + 1;
    }
    if direction != 1 && direction != 2 {
        return refuse("anonymous product settlement has an unsupported direction");
    }
    consume_prepared_notes(state, &order.reservations, &prepared, statement)?;
    state.nullifiers.insert(
        order.settlement.nullifier,
        NullifierRecord { deadline: order.settlement.deadline, statement },
    );
    state.rfq_nullifiers.insert(order.terms.rfq_nullifier, statement);
    state.operations.insert(order.settlement.operation_id, statement);
    spend_escrows(state, &order.settlement.spends, order.settlement.deadline, statement)?;
    Ok(statement)
}

} // verus!
