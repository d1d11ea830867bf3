//! A hold ends once: by a settlement or by a release, never by both.

use vstd::prelude::*;

use crate::endorsement::Submission;
use crate::execution::laws::follows;
use crate::execution::note_product::{note_consumptions_verdict, note_product_outcome};
use crate::execution::product::{consumptions_verdict, product_outcome};
use crate::execution::reservation::{hold_released, lemma_spend_keeps_admission};
use crate::execution::settlement_laws::{
    law_note_settlement_consumes_every_reservation, law_settlement_consumes_every_reservation,
};
use crate::execution::{action_outcome, Action};
use crate::id::Id;
use crate::order::{
    CreditTransitionKind, ProductNoteSettlementOrder, ProductSettlementOrder,
    ReservationConsumption,
};
use crate::state::{HoldStatus, Ledger, NoteReservationRecord};

verus! {

/// Whether one of the consumptions is of a hold.
pub open spec fn consumes(reservations: Seq<ReservationConsumption>, hold_id: Id) -> bool {
    exists|i: int|
        0 <= i < reservations.len() && (#[trigger] reservations[i]).transition.hold_id == hold_id
}

/// Whether a transaction other than a batch settles, releases or opens a hold.
pub open spec fn uses_hold(action: Action, hold_id: Id) -> bool {
    match action {
        Action::IssueProductSettlement { order } => consumes(order.reservations@, hold_id),
        Action::IssueNoteProductSettlement { order, findings } => consumes(
            order.reservations@,
            hold_id,
        ),
        Action::IssueProductRelease { order } => order.transition.hold_id == hold_id,
        Action::IssueNoteProductRelease { order } => order.transition.hold_id == hold_id,
        Action::IssueProductReservation { request } => request.transition.hold_id == hold_id,
        Action::IssueNoteProductReservation { request } => request.transition.hold_id == hold_id,
        Action::IssueCreditTransition { transition, seal } => transition.hold_id == hold_id,
        _ => false,
    }
}

/// Whether a transaction other than a batch settles or releases a hold.
pub open spec fn ends_hold(action: Action, hold_id: Id) -> bool {
    match action {
        Action::IssueProductReservation { request } => false,
        Action::IssueNoteProductReservation { request } => false,
        Action::IssueCreditTransition { transition, seal } => transition.hold_id == hold_id
            && transition.kind != CreditTransitionKind::Hold,
        _ => uses_hold(action, hold_id),
    }
}

/// Whether a hold was settled or released.
pub open spec fn hold_ended(ledger: Ledger, hold_id: Id) -> bool {
    ledger.credit_holds.contains_key(hold_id) && ledger.credit_holds[hold_id].status
        != HoldStatus::Active
}

proof fn lemma_ended_not_consumed(
    ledger: Ledger,
    order: ProductSettlementOrder,
    payment_asset_id: Id,
    base_statement: Id,
    timestamp: u64,
    direction: u8,
    from: nat,
    at: int,
)
    requires
        from <= at < order.reservations@.len(),
        hold_ended(ledger, order.reservations@[at].transition.hold_id),
    ensures
        consumptions_verdict(
            ledger,
            order,
            payment_asset_id,
            base_statement,
            timestamp,
            direction,
            from,
        ) is Err,
    decreases order.reservations@.len() - from,
{
    if from < at {
        let hold_id = order.reservations@[from as int].transition.hold_id;
        lemma_ended_not_consumed(
            ledger,
            order,
            payment_asset_id,
            base_statement,
            timestamp,
            ledger.reservation_bindings[hold_id].direction,
            from + 1,
            at,
        );
    }
}

proof fn lemma_ended_not_note_consumed(
    ledger: Ledger,
    order: ProductNoteSettlementOrder,
    payment_asset_id: Id,
    base_statement: Id,
    timestamp: u64,
    direction: u8,
    from: nat,
    at: int,
)
    requires
        from <= at < order.reservations@.len(),
        hold_ended(ledger, order.reservations@[at].transition.hold_id),
    ensures
        note_consumptions_verdict(
            ledger,
            order,
            payment_asset_id,
            base_statement,
            timestamp,
            direction,
            from,
        ) is Err,
    decreases order.reservations@.len() - from,
{
    if from < at {
        let hold_id = order.reservations@[from as int].transition.hold_id;
        lemma_ended_not_note_consumed(
            ledger,
            order,
            payment_asset_id,
            base_statement,
            timestamp,
            ledger.reservation_bindings[hold_id].direction,
            from + 1,
            at,
        );
    }
}

/// A transaction that uses an ended hold is refused, and nothing changes.
#[verifier::rlimit(60)]
pub proof fn law_ended_hold_is_not_used(
    ledger: Ledger,
    action: Action,
    hold_id: Id,
    submission: Submission,
    timestamp: u64,
)
    requires
        hold_ended(ledger, hold_id),
        uses_hold(action, hold_id),
    ensures
        action_outcome(ledger, action, submission, timestamp).result is Err,
        action_outcome(ledger, action, submission, timestamp).ledger == ledger,
{
    match action {
        Action::IssueProductSettlement { order } => {
            let at = choose|i: int|
                0 <= i < order.reservations@.len() && (
                #[trigger] order.reservations@[i]).transition.hold_id == hold_id;
            lemma_ended_not_consumed(
                ledger,
                order,
                crate::execution::product::payment_leg(
                    order.settlement.legs@,
                    order.terms.traded_asset_id,
                    0,
                )->0,
                order.settlement.seal.statement->Ok_0,
                timestamp,
                0,
                0,
                at,
            );
        },
        Action::IssueNoteProductSettlement { order, findings } => {
            let at = choose|i: int|
                0 <= i < order.reservations@.len() && (
                #[trigger] order.reservations@[i]).transition.hold_id == hold_id;
            lemma_ended_not_note_consumed(
                ledger,
                order,
                crate::execution::note_product::payment_spend(
                    order.settlement.spends@,
                    order.terms.traded_asset_id,
                    0,
                )->0,
                order.settlement.seal.statement->Ok_0,
                timestamp,
                0,
                0,
                at,
            );
        },
        _ => {},
    }
}

/// A transaction that settles or releases a hold ends it.
#[verifier::rlimit(60)]
pub proof fn law_settled_or_released_hold_has_ended(
    ledger: Ledger,
    action: Action,
    hold_id: Id,
    submission: Submission,
    timestamp: u64,
)
    requires
        action_outcome(ledger, action, submission, timestamp).result is Ok,
        ends_hold(action, hold_id),
    ensures
        hold_ended(action_outcome(ledger, action, submission, timestamp).ledger, hold_id),
{
    match action {
        Action::IssueProductSettlement { order } => {
            assert(product_outcome(ledger, order, timestamp).result is Ok);
            law_settlement_consumes_every_reservation(ledger, order, timestamp);
        },
        Action::IssueNoteProductSettlement { order, findings } => {
            assert(note_product_outcome(ledger, order, timestamp).result is Ok);
            law_note_settlement_consumes_every_reservation(ledger, order, timestamp);
        },
        Action::IssueNoteProductRelease { order } => {
            let statement = order.seal.statement->Ok_0;
            let released = hold_released(
                ledger,
                order.transition,
                order.release_nullifier,
                order.release_deadline,
                statement,
            );
            let returned = Ledger {
                note_reservations: released.note_reservations.insert(
                    order.transition.hold_id,
                    NoteReservationRecord {
                        status: HoldStatus::Released,
                        settlement_digest: statement,
                        ..ledger.note_reservations[order.transition.hold_id]
                    },
                ),
                ..released
            };
            lemma_spend_keeps_admission(returned, order.spend, order.release_deadline, statement);
        },
        _ => {},
    }
}

/// A hold that was settled or released is neither settled nor released again on
/// any ledger that follows, by whichever transaction.
pub proof fn law_hold_ends_once(
    ledger: Ledger,
    action: Action,
    hold_id: Id,
    submission: Submission,
    timestamp: u64,
    later: Ledger,
    other: Action,
    again: Submission,
    moment: u64,
)
    requires
        action_outcome(ledger, action, submission, timestamp).result is Ok,
        ends_hold(action, hold_id),
        follows(action_outcome(ledger, action, submission, timestamp).ledger, later),
        uses_hold(other, hold_id),
    ensures
        action_outcome(later, other, again, moment).result is Err,
        action_outcome(later, other, again, moment).ledger == later,
{
    law_settled_or_released_hold_has_ended(ledger, action, hold_id, submission, timestamp);
    let after = action_outcome(ledger, action, submission, timestamp).ledger;
    assert(after.credit_holds.contains_key(hold_id));
    assert(hold_ended(later, hold_id));
    law_ended_hold_is_not_used(later, other, hold_id, again, moment);
}

} // verus!
