//! What fills and releases of application reservations guarantee.

use vstd::prelude::*;

use crate::crypto::ristretto_sum;
use crate::execution::application_settlement::{
    fill_batch_outcome, fill_outcome, fills_progress, lemma_inserted_claims_keep,
    release_outcome, side_progress, ApplicationNoteFill, ApplicationNoteFillBatch,
    ApplicationNoteRelease,
};
use crate::id::Id;
use crate::state::{HoldStatus, Ledger};

verus! {

/// Whether the hold and the reservation of a head agree on what is left, one
/// step after `sequence`, and are both closed where the head closes.
pub open spec fn head_advanced(
    ledger: Ledger,
    hold_id: Id,
    remaining: Id,
    sequence: u64,
    close: bool,
    statement: Id,
) -> bool {
    let hold = ledger.credit_holds[hold_id];
    let record = ledger.application_reservations[hold_id];
    &&& ledger.credit_holds.contains_key(hold_id)
    &&& ledger.application_reservations.contains_key(hold_id)
    &&& hold.amount_commitment == remaining
    &&& record.remaining_spec() == remaining
    &&& record.sequence == sequence + 1
    &&& record.head_receipt_spec() == statement
    &&& (hold.status == HoldStatus::Consumed) == close
    &&& (record.status == HoldStatus::Consumed) == close
}

/// A fill of two reservations advances both by one step, and the hold and the
/// reservation of each agree on what is left.
pub proof fn law_fill_advances_both_heads(
    ledger: Ledger,
    order: ApplicationNoteFill,
    parent: Id,
    now: u64,
)
    requires
        fill_outcome(ledger, order, parent, now).result is Ok,
        order.securities.hold_id != order.cash.hold_id,
    ensures
        ({
            let after = fill_outcome(ledger, order, parent, now).ledger;
            let verified = order.verified->Ok_0;
            &&& head_advanced(
                after,
                order.securities.hold_id,
                verified.securities.remaining,
                order.securities.sequence,
                order.securities.close,
                verified.statement,
            )
            &&& head_advanced(
                after,
                order.cash.hold_id,
                verified.cash.remaining,
                order.cash.sequence,
                order.cash.close,
                verified.statement,
            )
        }),
{
    let verified = order.verified->Ok_0;
    let statement = verified.statement;
    let securities = side_progress(
        ledger,
        ledger.application_reservations[order.securities.hold_id],
        verified.securities,
        order.securities,
        order.securities_asset,
        statement,
    );
    assert(head_advanced(
        securities.ledger,
        order.securities.hold_id,
        verified.securities.remaining,
        order.securities.sequence,
        order.securities.close,
        statement,
    ));
    let cash = side_progress(
        securities.ledger,
        ledger.application_reservations[order.cash.hold_id],
        verified.cash,
        order.cash,
        order.cash_asset,
        statement,
    );
    assert(head_advanced(
        cash.ledger,
        order.cash.hold_id,
        verified.cash.remaining,
        order.cash.sequence,
        order.cash.close,
        statement,
    ));
    assert(head_advanced(
        cash.ledger,
        order.securities.hold_id,
        verified.securities.remaining,
        order.securities.sequence,
        order.securities.close,
        statement,
    ));
    lemma_inserted_claims_keep(cash.ledger, verified.claims@, statement, 0);
}

/// A fill divides what was reserved, on each side, into what it consumes and what
/// is left.
pub proof fn law_fill_divides_what_was_reserved(
    ledger: Ledger,
    order: ApplicationNoteFill,
    parent: Id,
    now: u64,
)
    requires
        fill_outcome(ledger, order, parent, now).result is Ok,
    ensures
        ({
            let verified = order.verified->Ok_0;
            let securities = ledger.application_reservations[order.securities.hold_id];
            let cash = ledger.application_reservations[order.cash.hold_id];
            &&& securities.remaining_spec().0 == ristretto_sum(
                verified.securities.consumed.0,
                verified.securities.remaining.0,
            )
            &&& cash.remaining_spec().0 == ristretto_sum(
                verified.cash.consumed.0,
                verified.cash.remaining.0,
            )
        }),
{
}

/// A fill uses its operation and its payment nullifier.
proof fn lemma_fill_used(ledger: Ledger, order: ApplicationNoteFill, parent: Id, now: u64)
    requires
        fill_outcome(ledger, order, parent, now).result is Ok,
    ensures
        ({
            let after = fill_outcome(ledger, order, parent, now).ledger;
            &&& after.operations.contains_key(order.operation_id)
            &&& after.nullifiers.contains_key(order.verified->Ok_0.nullifier)
        }),
{
}

/// After a fill no other fill with its operation or its payment nullifier is
/// carried out.
pub proof fn law_fill_is_not_repeated(
    ledger: Ledger,
    order: ApplicationNoteFill,
    parent: Id,
    now: u64,
    again: ApplicationNoteFill,
    root: Id,
    later: u64,
)
    requires
        fill_outcome(ledger, order, parent, now).result is Ok,
        again.operation_id == order.operation_id || (again.verified is Ok
            && again.verified->Ok_0.nullifier == order.verified->Ok_0.nullifier),
    ensures
        ({
            let after = fill_outcome(ledger, order, parent, now).ledger;
            let outcome = fill_outcome(after, again, root, later);
            outcome.result is Err && outcome.ledger == after
        }),
{
    lemma_fill_used(ledger, order, parent, now);
}

proof fn lemma_heads_move(ledger: Ledger, order: ApplicationNoteFill, parent: Id, now: u64)
    requires
        fill_outcome(ledger, order, parent, now).result is Ok,
    ensures
        ({
            let after = fill_outcome(ledger, order, parent, now).ledger;
            &&& after.application_reservations[order.securities.hold_id].sequence
                == order.securities.sequence + 1
            &&& after.application_reservations[order.cash.hold_id].sequence == order.cash.sequence
                + 1
        }),
{
    if order.securities.hold_id != order.cash.hold_id {
        law_fill_advances_both_heads(ledger, order, parent, now);
    } else {
        let verified = order.verified->Ok_0;
        let securities = side_progress(
            ledger,
            ledger.application_reservations[order.securities.hold_id],
            verified.securities,
            order.securities,
            order.securities_asset,
            verified.statement,
        );
        let cash = side_progress(
            securities.ledger,
            ledger.application_reservations[order.cash.hold_id],
            verified.cash,
            order.cash,
            order.cash_asset,
            verified.statement,
        );
        lemma_inserted_claims_keep(cash.ledger, verified.claims@, verified.statement, 0);
    }
}

/// Whether a fill was made against the state `sequence` of a reservation.
pub open spec fn fills_head(order: ApplicationNoteFill, hold_id: Id, sequence: u64) -> bool {
    ||| order.securities.hold_id == hold_id && order.securities.sequence == sequence
    ||| order.cash.hold_id == hold_id && order.cash.sequence == sequence
}

/// Of a fill and a release made against one state of a reservation only one is
/// carried out: after the fill the release is refused.
pub proof fn law_fill_wins_over_release(
    ledger: Ledger,
    order: ApplicationNoteFill,
    parent: Id,
    now: u64,
    other: ApplicationNoteRelease,
    root: Id,
    later: u64,
)
    requires
        fill_outcome(ledger, order, parent, now).result is Ok,
        fills_head(order, other.hold_id, other.sequence),
    ensures
        ({
            let after = fill_outcome(ledger, order, parent, now).ledger;
            let outcome = release_outcome(after, other, root, later);
            outcome.result is Err && outcome.ledger == after
        }),
{
    lemma_heads_move(ledger, order, parent, now);
}

/// Of two fills made against one state of a reservation only one is carried out:
/// after the first the other is refused.
pub proof fn law_one_fill_for_each_head(
    ledger: Ledger,
    order: ApplicationNoteFill,
    parent: Id,
    now: u64,
    hold_id: Id,
    sequence: u64,
    other: ApplicationNoteFill,
    root: Id,
    later: u64,
)
    requires
        fill_outcome(ledger, order, parent, now).result is Ok,
        fills_head(order, hold_id, sequence),
        fills_head(other, hold_id, sequence),
    ensures
        ({
            let after = fill_outcome(ledger, order, parent, now).ledger;
            let outcome = fill_outcome(after, other, root, later);
            outcome.result is Err && outcome.ledger == after
        }),
{
    lemma_heads_move(ledger, order, parent, now);
}

/// After a release nothing more is filled from the reservation, nor released.
pub proof fn law_release_ends_the_reservation(
    ledger: Ledger,
    order: ApplicationNoteRelease,
    parent: Id,
    before: u64,
    fill: ApplicationNoteFill,
    other: ApplicationNoteRelease,
    root: Id,
    now: u64,
)
    requires
        release_outcome(ledger, order, parent, before).result is Ok,
        fill.securities.hold_id == order.hold_id || fill.cash.hold_id == order.hold_id,
        other.hold_id == order.hold_id,
    ensures
        ({
            let after = release_outcome(ledger, order, parent, before).ledger;
            let filled = fill_outcome(after, fill, root, now);
            let released = release_outcome(after, other, root, now);
            &&& after.application_reservations[order.hold_id].status == HoldStatus::Released
            &&& after.credit_holds[order.hold_id].status == HoldStatus::Released
            &&& filled.result is Err && filled.ledger == after
            &&& released.result is Err && released.ledger == after
        }),
{
}

/// A batch of fills that is refused leaves everything as it was.
pub proof fn law_fill_batch_is_all_or_nothing(
    ledger: Ledger,
    batch: ApplicationNoteFillBatch,
    root: Id,
    now: u64,
)
    requires
        fill_batch_outcome(ledger, batch, root, now).result is Err,
    ensures
        fill_batch_outcome(ledger, batch, root, now).ledger == ledger,
{
}

proof fn lemma_every_fill_is_recorded(
    ledger: Ledger,
    fills: Seq<ApplicationNoteFill>,
    parent: Id,
    now: u64,
    from: nat,
    operation_id: Id,
)
    requires
        fills_progress(ledger, fills, parent, now, from).refusal is None,
        ledger.operations.contains_key(operation_id) || exists|i: int|
            from <= i < fills.len() && (#[trigger] fills[i]).operation_id == operation_id,
    ensures
        fills_progress(ledger, fills, parent, now, from).ledger.operations.contains_key(
            operation_id,
        ),
    decreases fills.len() - from,
{
    if from < fills.len() {
        let order = fills[from as int];
        let next = fill_outcome(ledger, order, parent, now).ledger;
        lemma_fill_keeps_operations(ledger, order, parent, now);
        assert(next.operations.contains_key(operation_id) || exists|i: int|
            from + 1 <= i < fills.len() && (#[trigger] fills[i]).operation_id == operation_id);
        lemma_every_fill_is_recorded(next, fills, parent, now, from + 1, operation_id);
    }
}

proof fn lemma_fill_keeps_operations(
    ledger: Ledger,
    order: ApplicationNoteFill,
    parent: Id,
    now: u64,
)
    requires
        fill_outcome(ledger, order, parent, now).result is Ok,
    ensures
        fill_outcome(ledger, order, parent, now).ledger.operations == ledger.operations.insert(
            order.operation_id,
            order.verified->Ok_0.statement,
        ),
{
    let verified = order.verified->Ok_0;
    let statement = verified.statement;
    let securities = side_progress(
        ledger,
        ledger.application_reservations[order.securities.hold_id],
        verified.securities,
        order.securities,
        order.securities_asset,
        statement,
    );
    assert(securities.ledger.operations == ledger.operations);
    let cash = side_progress(
        securities.ledger,
        ledger.application_reservations[order.cash.hold_id],
        verified.cash,
        order.cash,
        order.cash_asset,
        statement,
    );
    assert(cash.ledger.operations == ledger.operations);
    lemma_inserted_claims_keep(cash.ledger, verified.claims@, statement, 0);
}

/// A batch of fills that is carried out has carried out every one of them.
pub proof fn law_fill_batch_carries_out_every_fill(
    ledger: Ledger,
    batch: ApplicationNoteFillBatch,
    root: Id,
    now: u64,
)
    requires
        fill_batch_outcome(ledger, batch, root, now).result is Ok,
    ensures
        ({
            let after = fill_batch_outcome(ledger, batch, root, now).ledger;
            forall|i: int|
                0 <= i < batch.fills@.len() ==> after.operations.contains_key(
                    (#[trigger] batch.fills@[i]).operation_id,
                )
        }),
{
    assert forall|i: int| 0 <= i < batch.fills@.len() implies fill_batch_outcome(
        ledger,
        batch,
        root,
        now,
    ).ledger.operations.contains_key((#[trigger] batch.fills@[i]).operation_id) by {
        lemma_every_fill_is_recorded(
            ledger,
            batch.fills@,
            root,
            now,
            0,
            batch.fills@[i].operation_id,
        );
    }
}

} // verus!
