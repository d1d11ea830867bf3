//! Recovered application reservations: what a restored state must hold of them,
//! and that fills, releases and new reservations leave it so.

use vstd::prelude::*;

use crate::endorsement::Submission;
use crate::execution::application_reservation::{
    hold_placed, reservation_record, reserve_application_outcome, ApplicationNoteReservation,
};
use crate::execution::application_settlement::{
    fill_outcome, lemma_inserted_claims_keep, release_outcome, side_progress, ApplicationNoteFill,
    ApplicationNoteRelease, ApplicationSpendHead, VerifiedSide,
};
use crate::execution::notes::{apply_spend_progress, insert_note_progress, outputs_progress};
use crate::id::Id;
use crate::order::{NoteOutput, NoteSpend};
use crate::outcome::refuse;
use crate::state::{ApplicationReservationRecord, HoldStatus, Ledger, NoteSerialRecord, State};

verus! {

/// Whether some operation was recorded with a statement.
pub open spec fn receipt_recorded(ledger: Ledger, receipt: Id) -> bool {
    exists|operation_id: Id| #[trigger]
        ledger.operations.contains_key(operation_id) && ledger.operations[operation_id] == receipt
}

fn is_receipt_recorded(state: &State, receipt: Id) -> (r: bool)
    ensures
        r == receipt_recorded(state@, receipt),
{
    let count: usize = state.operations.len();
    let mut index: usize = 0;
    while index < count
        invariant
            index <= count == state.operations.count(),
            forall|key: Id| #[trigger]
                state.operations@.contains_key(key) ==> exists|at: int|
                    0 <= at < count && #[trigger] state.operations.nth(at)
                        == state.operations@[key],
            forall|at: int| 0 <= at < index ==> #[trigger] state.operations.nth(at) != receipt,
        decreases count - index,
    {
        if *state.operations.at(index) == receipt {
            assert(state@.operations.contains_key(state.operations.key_at(index as int)));
            return true;
        }
        index = index + 1;
    }
    assert(!receipt_recorded(state@, receipt)) by {
        if receipt_recorded(state@, receipt) {
            let operation_id = choose|operation_id: Id| #[trigger]
                state@.operations.contains_key(operation_id) && state@.operations[operation_id]
                    == receipt;
            assert(state.operations@.contains_key(operation_id));
        }
    }
    false
}

/// Whether a reservation can be gone on with: its hold agrees with what is left
/// of it; an untouched one has nothing of a fill; and one that was filled or
/// released has its remainder, its recorded receipt, its spent covenant and, as
/// long as it is active, the opening of the remainder.
pub open spec fn recoverable(ledger: Ledger, record: ApplicationReservationRecord) -> bool {
    let hold = ledger.credit_holds[record.binding.hold_id];
    let spent = ledger.note_serials.contains_key(record.covenant_serial);
    &&& ledger.credit_holds.contains_key(record.binding.hold_id)
    &&& hold.facility_id == record.binding.facility_id
    &&& hold.amount_commitment == record.remaining_spec()
    &&& hold.status == record.status
    &&& if record.sequence == 0 {
        &&& record.status == HoldStatus::Active
        &&& record.remaining_commitment is None
        &&& record.last_receipt is None
        &&& record.remaining_opening is None
        &&& !spent
    } else {
        &&& record.remaining_commitment is Some
        &&& record.last_receipt is Some
        &&& receipt_recorded(ledger, record.last_receipt->0)
        &&& (record.remaining_opening is Some) == (record.status == HoldStatus::Active)
        &&& spent
    }
}

fn is_recoverable(state: &State, record: &ApplicationReservationRecord) -> (r: bool)
    ensures
        r == recoverable(state@, *record),
{
    let hold = match state.credit_holds.get(&record.binding.hold_id) {
        Some(hold) => hold,
        None => return false,
    };
    if hold.facility_id != record.binding.facility_id || hold.amount_commitment
        != record.remaining() || hold.status != record.status {
        return false;
    }
    let spent = state.note_serials.contains_key(&record.covenant_serial);
    if record.sequence == 0 {
        record.status == HoldStatus::Active && record.remaining_commitment.is_none()
            && record.last_receipt.is_none() && record.remaining_opening.is_none() && !spent
    } else {
        match record.last_receipt {
            None => false,
            Some(receipt) => record.remaining_commitment.is_some() && is_receipt_recorded(
                state,
                receipt,
            ) && record.remaining_opening.is_some() == (record.status == HoldStatus::Active)
                && spent,
        }
    }
}

/// Whether every application reservation can be gone on with.
pub open spec fn applications_recoverable(ledger: Ledger) -> bool {
    forall|hold_id: Id| #[trigger]
        ledger.application_reservations.contains_key(hold_id) ==> recoverable(
            ledger,
            ledger.application_reservations[hold_id],
        )
}

/// Checks that every application reservation of a restored state can be gone on
/// with.
pub fn validate_applications(state: &State) -> (r: Result<(), String>)
    ensures
        match r {
            Ok(_) => applications_recoverable(state@),
            Err(message) => !applications_recoverable(state@) && message@
                == "application reservation is incomplete"@,
        },
{
    let count: usize = state.application_reservations.len();
    let mut index: usize = 0;
    while index < count
        invariant
            index <= count == state.application_reservations.count(),
            forall|key: Id| #[trigger]
                state.application_reservations@.contains_key(key) ==> exists|at: int|
                    0 <= at < count && #[trigger] state.application_reservations.nth(at)
                        == state.application_reservations@[key],
            forall|at: int|
                0 <= at < index ==> recoverable(
                    state@,
                    #[trigger] state.application_reservations.nth(at),
                ),
        decreases count - index,
    {
        if !is_recoverable(state, state.application_reservations.at(index)) {
            assert(state@.application_reservations.contains_key(
                state.application_reservations.key_at(index as int),
            ));
            return refuse("application reservation is incomplete");
        }
        index = index + 1;
    }
    assert(applications_recoverable(state@)) by {
        assert forall|hold_id: Id| #[trigger]
            state@.application_reservations.contains_key(hold_id) implies recoverable(
            state@,
            state@.application_reservations[hold_id],
        ) by {
            assert(state.application_reservations@.contains_key(hold_id));
        }
    }
    Ok(())
}

/// Whether every reservation stands under its hold, and no two have one covenant.
pub open spec fn applications_distinct(ledger: Ledger) -> bool {
    &&& forall|hold_id: Id| #[trigger]
        ledger.application_reservations.contains_key(hold_id)
            ==> ledger.application_reservations[hold_id].binding.hold_id == hold_id
    &&& forall|left: Id, right: Id|
        #![trigger ledger.application_reservations.contains_key(left),
            ledger.application_reservations.contains_key(right)]
        ledger.application_reservations.contains_key(left)
            && ledger.application_reservations.contains_key(right) && left != right
            ==> ledger.application_reservations[left].covenant_serial
            != ledger.application_reservations[right].covenant_serial
}

/// Whether every reservation can be gone on with once an operation is recorded.
spec fn recoverable_with(ledger: Ledger, operation_id: Id, statement: Id) -> bool {
    applications_recoverable(
        Ledger { operations: ledger.operations.insert(operation_id, statement), ..ledger },
    )
}

proof fn lemma_side(
    ledger: Ledger,
    record: ApplicationReservationRecord,
    side: VerifiedSide,
    head: ApplicationSpendHead,
    asset_id: Id,
    statement: Id,
    operation_id: Id,
)
    requires
        side_progress(ledger, record, side, head, asset_id, statement).refusal is None,
        ledger.application_reservations.contains_key(head.hold_id),
        record.binding == ledger.application_reservations[head.hold_id].binding,
        record.covenant_serial == ledger.application_reservations[head.hold_id].covenant_serial,
        record.status == HoldStatus::Active,
        !ledger.operations.contains_key(operation_id),
        applications_distinct(ledger),
        recoverable_with(ledger, operation_id, statement),
    ensures
        ({
            let after = side_progress(ledger, record, side, head, asset_id, statement).ledger;
            &&& applications_distinct(after)
            &&& recoverable_with(after, operation_id, statement)
            &&& after.operations == ledger.operations
        }),
{
    let after = side_progress(ledger, record, side, head, asset_id, statement).ledger;
    let before = Ledger {
        operations: ledger.operations.insert(operation_id, statement),
        ..ledger
    };
    let recorded = Ledger {
        operations: after.operations.insert(operation_id, statement),
        ..after
    };
    assert(recorded.operations.contains_key(operation_id));
    assert(receipt_recorded(recorded, statement));
    assert forall|hold_id: Id| #[trigger]
        recorded.application_reservations.contains_key(hold_id) implies recoverable(
        recorded,
        recorded.application_reservations[hold_id],
    ) by {
        assert(before.application_reservations.contains_key(hold_id));
        assert(before.application_reservations.contains_key(head.hold_id));
        let other = before.application_reservations[hold_id];
        assert(recoverable(before, other));
        if hold_id != head.hold_id && other.sequence > 0 {
            assert(receipt_recorded(recorded, other.last_receipt->0));
        }
    }
}

/// A fill leaves every reservation such that it can be gone on with after a
/// restart.
pub proof fn law_fill_is_recoverable(
    ledger: Ledger,
    order: ApplicationNoteFill,
    parent: Id,
    now: u64,
)
    requires
        applications_distinct(ledger),
        applications_recoverable(ledger),
        fill_outcome(ledger, order, parent, now).result is Ok,
    ensures
        applications_distinct(fill_outcome(ledger, order, parent, now).ledger),
        applications_recoverable(fill_outcome(ledger, order, parent, now).ledger),
{
    let verified = order.verified->Ok_0;
    let statement = verified.statement;
    lemma_new_operation(ledger, order.operation_id, statement);
    let securities_record = ledger.application_reservations[order.securities.hold_id];
    let cash_record = ledger.application_reservations[order.cash.hold_id];
    let securities = side_progress(
        ledger,
        securities_record,
        verified.securities,
        order.securities,
        order.securities_asset,
        statement,
    );
    lemma_side(
        ledger,
        securities_record,
        verified.securities,
        order.securities,
        order.securities_asset,
        statement,
        order.operation_id,
    );
    let cash = side_progress(
        securities.ledger,
        cash_record,
        verified.cash,
        order.cash,
        order.cash_asset,
        statement,
    );
    lemma_side(
        securities.ledger,
        cash_record,
        verified.cash,
        order.cash,
        order.cash_asset,
        statement,
        order.operation_id,
    );
    lemma_inserted_claims_keep(cash.ledger, verified.claims@, statement, 0);
    let recorded = Ledger {
        operations: cash.ledger.operations.insert(order.operation_id, statement),
        ..cash.ledger
    };
    let after = fill_outcome(ledger, order, parent, now).ledger;
    lemma_same_reservations(recorded, after);
}

/// A new operation takes no receipt away.
proof fn lemma_new_operation(ledger: Ledger, operation_id: Id, statement: Id)
    requires
        applications_recoverable(ledger),
        !ledger.operations.contains_key(operation_id),
    ensures
        recoverable_with(ledger, operation_id, statement),
{
    let recorded = Ledger {
        operations: ledger.operations.insert(operation_id, statement),
        ..ledger
    };
    assert forall|hold_id: Id| #[trigger]
        recorded.application_reservations.contains_key(hold_id) implies recoverable(
        recorded,
        recorded.application_reservations[hold_id],
    ) by {
        let record = ledger.application_reservations[hold_id];
        assert(recoverable(ledger, record));
        if record.sequence > 0 {
            let earlier = choose|earlier: Id| #[trigger]
                ledger.operations.contains_key(earlier) && ledger.operations[earlier]
                    == record.last_receipt->0;
            assert(recorded.operations.contains_key(earlier));
        }
    }
}

/// Reservations depend on the holds, serials and operations alone.
proof fn lemma_same_reservations(left: Ledger, right: Ledger)
    requires
        applications_recoverable(left),
        right.application_reservations == left.application_reservations,
        right.credit_holds == left.credit_holds,
        right.note_serials == left.note_serials,
        right.operations == left.operations,
    ensures
        applications_recoverable(right),
{
    assert forall|hold_id: Id| #[trigger]
        right.application_reservations.contains_key(hold_id) implies recoverable(
        right,
        right.application_reservations[hold_id],
    ) by {
        let record = left.application_reservations[hold_id];
        assert(left.application_reservations.contains_key(hold_id));
        assert(recoverable(left, record));
        if record.sequence > 0 {
            let earlier = choose|earlier: Id| #[trigger]
                left.operations.contains_key(earlier) && left.operations[earlier]
                    == record.last_receipt->0;
            assert(right.operations.contains_key(earlier));
        }
    }
}

/// A release leaves every reservation such that it can be gone on with after a
/// restart.
pub proof fn law_release_is_recoverable(
    ledger: Ledger,
    order: ApplicationNoteRelease,
    root: Id,
    now: u64,
)
    requires
        applications_distinct(ledger),
        applications_recoverable(ledger),
        release_outcome(ledger, order, root, now).result is Ok,
    ensures
        applications_distinct(release_outcome(ledger, order, root, now).ledger),
        applications_recoverable(release_outcome(ledger, order, root, now).ledger),
{
    let statement = order.verified->Ok_0.statement;
    let after = release_outcome(ledger, order, root, now).ledger;
    lemma_new_operation(ledger, order.operation_id, statement);
    let before = Ledger {
        operations: ledger.operations.insert(order.operation_id, statement),
        ..ledger
    };
    assert(after.operations == before.operations);
    assert(after.operations.contains_key(order.operation_id));
    assert(receipt_recorded(after, statement));
    assert forall|hold_id: Id| #[trigger]
        after.application_reservations.contains_key(hold_id) implies recoverable(
        after,
        after.application_reservations[hold_id],
    ) by {
        assert(before.application_reservations.contains_key(hold_id));
        assert(ledger.application_reservations.contains_key(order.hold_id));
        let other = before.application_reservations[hold_id];
        assert(recoverable(before, other));
        if hold_id != order.hold_id && other.sequence > 0 {
            let earlier = choose|earlier: Id| #[trigger]
                before.operations.contains_key(earlier) && before.operations[earlier]
                    == other.last_receipt->0;
            assert(after.operations.contains_key(earlier));
        }
    }
}

proof fn lemma_outputs_keep(ledger: Ledger, outputs: Seq<NoteOutput>, from: nat)
    ensures
        ({
            let after = outputs_progress(ledger, outputs, from).ledger;
            after == (Ledger { notes: after.notes, ..ledger })
        }),
    decreases outputs.len() - from,
{
    if from < outputs.len() {
        let step = insert_note_progress(ledger, outputs[from as int]);
        if step.refusal is None {
            lemma_outputs_keep(step.ledger, outputs, from + 1);
        }
    }
}

proof fn lemma_spend_keeps(ledger: Ledger, spend: NoteSpend, deadline: u64, statement: Id)
    ensures
        ({
            let progress = apply_spend_progress(ledger, spend, deadline, statement);
            let after = progress.ledger;
            &&& after == (Ledger {
                notes: after.notes,
                note_serials: after.note_serials,
                ..ledger
            })
            &&& progress.refusal is None ==> forall|serial: Id|
                #[trigger] after.note_serials.contains_key(serial) == (serial
                    == spend.serial_point || ledger.note_serials.contains_key(serial))
        }),
{
    let used = Ledger {
        note_serials: ledger.note_serials.insert(
            spend.serial_point,
            NoteSerialRecord {
                deadline,
                asset_id: spend.asset_id,
                ring_root: spend.ring_root,
                statement,
            },
        ),
        ..ledger
    };
    lemma_outputs_keep(used, spend.outputs@, 0);
}

/// A new reservation whose covenant is unspent and its own, by a spend whose
/// serial is no covenant, leaves every reservation such that it can be gone on
/// with after a restart.
pub proof fn law_reservation_is_recoverable(
    ledger: Ledger,
    request: ApplicationNoteReservation,
    submission: Submission,
    timestamp: u64,
)
    requires
        applications_distinct(ledger),
        applications_recoverable(ledger),
        !ledger.note_serials.contains_key(request.covenant_serial),
        request.covenant_serial != request.escrow.spend.serial_point,
        forall|hold_id: Id| #[trigger]
            ledger.application_reservations.contains_key(hold_id) ==> {
                let covenant = ledger.application_reservations[hold_id].covenant_serial;
                covenant != request.covenant_serial && covenant
                    != request.escrow.spend.serial_point
            },
        reserve_application_outcome(ledger, request, submission, timestamp).result is Ok,
    ensures
        applications_distinct(
            reserve_application_outcome(ledger, request, submission, timestamp).ledger,
        ),
        applications_recoverable(
            reserve_application_outcome(ledger, request, submission, timestamp).ledger,
        ),
{
    let transition = request.transition;
    let statement = request.seal.statement->Ok_0;
    let placed = hold_placed(ledger, transition);
    let after = reserve_application_outcome(ledger, request, submission, timestamp).ledger;
    lemma_new_operation(ledger, transition.operation_id, statement);
    lemma_spend_keeps(placed, request.escrow.spend, transition.expires_at, statement);
    let before = Ledger {
        operations: ledger.operations.insert(transition.operation_id, statement),
        ..ledger
    };
    assert(after.operations == before.operations);
    assert(after.application_reservations == ledger.application_reservations.insert(
        transition.hold_id,
        reservation_record(request),
    ));
    assert forall|hold_id: Id| #[trigger]
        after.application_reservations.contains_key(hold_id) implies recoverable(
        after,
        after.application_reservations[hold_id],
    ) by {
        if hold_id != transition.hold_id {
            assert(before.application_reservations.contains_key(hold_id));
            let other = before.application_reservations[hold_id];
            assert(recoverable(before, other));
            if other.sequence > 0 {
                let earlier = choose|earlier: Id| #[trigger]
                    before.operations.contains_key(earlier) && before.operations[earlier]
                        == other.last_receipt->0;
                assert(after.operations.contains_key(earlier));
            }
        }
    }
}

} // verus!
