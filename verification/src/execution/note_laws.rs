//! No note is spent twice, and no claim turned into two notes.

use vstd::prelude::*;

use crate::endorsement::Submission;
use crate::execution::laws::follows;
use crate::execution::notes::{
    apply_spend_progress, apply_spends_progress, insert_note_progress, materialize_outcome,
    ordinary_spends_refusal, outputs_progress, settled,
};
use crate::execution::reservation::{hold_opened, hold_released};
use crate::execution::{action_outcome, Action};
use crate::id::Id;
use crate::order::{NoteClaimMaterialization, NoteOutput, NoteSpend};
use crate::state::{ClaimStatus, HoldStatus, Ledger, NoteReservationRecord, NoteSerialRecord};

verus! {

/// Whether a transaction spends the note of a serial.
pub open spec fn spends_serial(action: Action, serial: Id) -> bool {
    match action {
        Action::IssueNoteSettlement { order } => exists|i: int|
            0 <= i < order.spends@.len() && (#[trigger] order.spends@[i]).serial_point == serial,
        Action::IssueNoteProductReservation { request } => request.escrow.spend.serial_point
            == serial,
        Action::IssueNoteProductRelease { order } => order.spend.serial_point == serial,
        _ => false,
    }
}

proof fn lemma_outputs_keep_serials(ledger: Ledger, outputs: Seq<NoteOutput>, from: nat)
    ensures
        outputs_progress(ledger, outputs, from).ledger.note_serials == ledger.note_serials,
    decreases outputs.len() - from,
{
    if from < outputs.len() {
        let step = insert_note_progress(ledger, outputs[from as int]);
        if step.refusal is None {
            lemma_outputs_keep_serials(step.ledger, outputs, from + 1);
        }
    }
}

proof fn lemma_spend_records(ledger: Ledger, spend: NoteSpend, deadline: u64, statement: Id)
    ensures
        ({
            let step = apply_spend_progress(ledger, spend, deadline, statement);
            &&& step.refusal is None ==> step.ledger.note_serials.contains_key(spend.serial_point)
            &&& forall|serial: Id| #[trigger]
                ledger.note_serials.contains_key(serial) ==> step.ledger.note_serials.contains_key(
                    serial,
                )
        }),
{
    let used = Ledger {
        note_serials: ledger.note_serials.insert(
            spend.serial_point,
            NoteSerialRecord {
                deadline,
                asset_id: spend.asset_id,
                ring_root: spend.ring_root,
                statement,
            },
        ),
        ..ledger
    };
    lemma_outputs_keep_serials(used, spend.outputs@, 0);
}

proof fn lemma_spends_record(
    ledger: Ledger,
    spends: Seq<NoteSpend>,
    deadline: u64,
    statement: Id,
    from: nat,
    serial: Id,
)
    requires
        apply_spends_progress(ledger, spends, deadline, statement, from).refusal is None,
        ledger.note_serials.contains_key(serial) || exists|i: int|
            from <= i < spends.len() && (#[trigger] spends[i]).serial_point == serial,
    ensures
        apply_spends_progress(
            ledger,
            spends,
            deadline,
            statement,
            from,
        ).ledger.note_serials.contains_key(serial),
    decreases spends.len() - from,
{
    if from < spends.len() {
        lemma_spend_records(ledger, spends[from as int], deadline, statement);
        let next = apply_spend_progress(ledger, spends[from as int], deadline, statement).ledger;
        assert(next.note_serials.contains_key(serial) || exists|i: int|
            from + 1 <= i < spends.len() && (#[trigger] spends[i]).serial_point == serial);
        lemma_spends_record(next, spends, deadline, statement, from + 1, serial);
    }
}

proof fn lemma_spent_refused(ledger: Ledger, spends: Seq<NoteSpend>, from: nat, at: int)
    requires
        from <= at < spends.len(),
        ledger.note_serials.contains_key(spends[at].serial_point),
    ensures
        ordinary_spends_refusal(ledger, spends, from) is Some,
    decreases spends.len() - from,
{
    if from < at {
        lemma_spent_refused(ledger, spends, from + 1, at);
    }
}

/// A transaction that spends a spent note is refused, and nothing changes.
pub proof fn law_spent_note_is_refused(
    ledger: Ledger,
    action: Action,
    serial: Id,
    submission: Submission,
    timestamp: u64,
)
    requires
        ledger.note_serials.contains_key(serial),
        spends_serial(action, serial),
    ensures
        action_outcome(ledger, action, submission, timestamp).result is Err,
        action_outcome(ledger, action, submission, timestamp).ledger == ledger,
{
    match action {
        Action::IssueNoteSettlement { order } => {
            let at = choose|i: int|
                0 <= i < order.spends@.len() && (#[trigger] order.spends@[i]).serial_point
                    == serial;
            lemma_spent_refused(ledger, order.spends@, 0, at);
        },
        _ => {},
    }
}

/// A transaction that is carried out records the serial of every note it spends.
pub proof fn law_spent_serial_is_recorded(
    ledger: Ledger,
    action: Action,
    serial: Id,
    submission: Submission,
    timestamp: u64,
)
    requires
        action_outcome(ledger, action, submission, timestamp).result is Ok,
        spends_serial(action, serial),
    ensures
        action_outcome(ledger, action, submission, timestamp).ledger.note_serials.contains_key(
            serial,
        ),
{
    match action {
        Action::IssueNoteSettlement { order } => {
            let statement = order.seal.statement->Ok_0;
            let used = settled(
                ledger,
                order.nullifier,
                order.deadline,
                order.operation_id,
                statement,
            );
            lemma_spends_record(used, order.spends@, order.deadline, statement, 0, serial);
        },
        Action::IssueNoteProductReservation { request } => {
            let statement = request.statement->Ok_0;
            let opened = hold_opened(
                ledger,
                request.transition,
                request.authorization,
                statement,
            );
            lemma_spend_records(
                opened,
                request.escrow.spend,
                request.transition.expires_at,
                statement,
            );
        },
        Action::IssueNoteProductRelease { order } => {
            let statement = order.seal.statement->Ok_0;
            let released = hold_released(
                ledger,
                order.transition,
                order.release_nullifier,
                order.release_deadline,
                statement,
            );
            let returned = Ledger {
                note_reservations: released.note_reservations.insert(
                    order.transition.hold_id,
                    NoteReservationRecord {
                        status: HoldStatus::Released,
                        settlement_digest: statement,
                        ..ledger.note_reservations[order.transition.hold_id]
                    },
                ),
                ..released
            };
            lemma_spend_records(returned, order.spend, order.release_deadline, statement);
        },
        _ => {},
    }
}

/// A note that was spent is not spent again on any ledger that follows, by
/// whichever transaction.
pub proof fn law_no_note_is_spent_twice(
    ledger: Ledger,
    action: Action,
    serial: Id,
    submission: Submission,
    timestamp: u64,
    later: Ledger,
    other: Action,
    again: Submission,
    moment: u64,
)
    requires
        action_outcome(ledger, action, submission, timestamp).result is Ok,
        spends_serial(action, serial),
        follows(action_outcome(ledger, action, submission, timestamp).ledger, later),
        spends_serial(other, serial),
    ensures
        action_outcome(later, other, again, moment).result is Err,
        action_outcome(later, other, again, moment).ledger == later,
{
    law_spent_serial_is_recorded(ledger, action, serial, submission, timestamp);
    let after = action_outcome(ledger, action, submission, timestamp).ledger;
    assert(after.note_serials.contains_key(serial));
    assert(later.note_serials.contains_key(serial));
    law_spent_note_is_refused(later, other, serial, again, moment);
}

/// A claim is turned into exactly the note it entitles to, and only once.
pub proof fn law_claim_is_materialized_once(
    ledger: Ledger,
    materialization: NoteClaimMaterialization,
    submission: Submission,
    other: NoteClaimMaterialization,
    again: Submission,
)
    requires
        materialize_outcome(ledger, materialization, submission).result is Ok,
        other.claim_id == materialization.claim_id,
    ensures
        ({
            let after = materialize_outcome(ledger, materialization, submission).ledger;
            let claim = ledger.note_claims[materialization.claim_id];
            let note = after.notes[materialization.output.note_id];
            let repeated = materialize_outcome(after, other, again);
            &&& claim.status == ClaimStatus::Active
            &&& note.asset_id == claim.asset_id
            &&& note.value_commitment == claim.value_commitment
            &&& after.note_claims[materialization.claim_id].status == ClaimStatus::Materialized
            &&& repeated.result is Err
            &&& repeated.ledger == after
        }),
{
}

} // verus!
