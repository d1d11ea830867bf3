//! Batches settle their members one after the other, or nothing.

use vstd::prelude::*;

use crate::endorsement::{endorsement_refusal, Submission};
use crate::execution::application_settlement::{
    fill_outcome, fills_progress, ApplicationNoteFill, ApplicationNoteFillBatch,
};
use crate::execution::evidence::{
    bundle_refusal, evidence_refusal, note_orders_progress, SettlementFindings,
};
use crate::execution::note_product::note_product_outcome;
use crate::execution::product::{orders_progress, product_outcome};
use crate::execution::{action_outcome, Action};
use crate::id::Id;
use crate::order::{
    ProductNoteSettlementOrder, ProductSettlementBatch, ProductSettlementOrder,
};
use crate::outcome::Progress;
use crate::state::Ledger;

verus! {

/// A batch of trades between accounts settles one after the other: with one more at
/// its end it reaches what the others reach and settles the last one there, and it
/// stops where one is refused.
pub proof fn law_trades_settle_in_turn(
    ledger: Ledger,
    orders: Seq<ProductSettlementOrder>,
    last: ProductSettlementOrder,
    timestamp: u64,
    from: nat,
)
    requires
        from <= orders.len(),
    ensures
        ({
            let others = orders_progress(ledger, orders, timestamp, from);
            let all = orders_progress(ledger, orders.push(last), timestamp, from);
            let settled = product_outcome(others.ledger, last, timestamp);
            &&& others.refusal is Some ==> all == others
            &&& others.refusal is None ==> {
                &&& all.ledger == settled.ledger
                &&& (all.refusal is None) == (settled.result is Ok)
                &&& settled.result is Err ==> all.refusal == Some(settled.result->Err_0)
            }
        }),
    decreases orders.len() - from,
{
    let pushed = orders.push(last);
    if from < orders.len() {
        assert(pushed[from as int] == orders[from as int]);
        let outcome = product_outcome(ledger, orders[from as int], timestamp);
        if outcome.result is Ok {
            law_trades_settle_in_turn(outcome.ledger, orders, last, timestamp, from + 1);
        }
    } else {
        assert(pushed[from as int] == last);
        let settled = product_outcome(ledger, last, timestamp);
        if settled.result is Ok {
            assert(orders_progress(settled.ledger, pushed, timestamp, from + 1) == (Progress {
                ledger: settled.ledger,
                refusal: None,
            }));
        }
    }
}

/// A batch of trades between notes settles one after the other: with one more at its
/// end it reaches what the others reach and settles the last one there, and it stops
/// where one is refused.
pub proof fn law_note_trades_settle_in_turn(
    ledger: Ledger,
    orders: Seq<ProductNoteSettlementOrder>,
    last: ProductNoteSettlementOrder,
    timestamp: u64,
    from: nat,
)
    requires
        from <= orders.len(),
    ensures
        ({
            let others = note_orders_progress(ledger, orders, timestamp, from);
            let all = note_orders_progress(ledger, orders.push(last), timestamp, from);
            let settled = note_product_outcome(others.ledger, last, timestamp);
            &&& others.refusal is Some ==> all == others
            &&& others.refusal is None ==> {
                &&& all.ledger == settled.ledger
                &&& (all.refusal is None) == (settled.result is Ok)
                &&& settled.result is Err ==> all.refusal == Some(settled.result->Err_0)
            }
        }),
    decreases orders.len() - from,
{
    let pushed = orders.push(last);
    if from < orders.len() {
        assert(pushed[from as int] == orders[from as int]);
        let outcome = note_product_outcome(ledger, orders[from as int], timestamp);
        if outcome.result is Ok {
            law_note_trades_settle_in_turn(outcome.ledger, orders, last, timestamp, from + 1);
        }
    } else {
        assert(pushed[from as int] == last);
        let settled = note_product_outcome(ledger, last, timestamp);
        if settled.result is Ok {
            assert(note_orders_progress(settled.ledger, pushed, timestamp, from + 1) == (Progress {
                ledger: settled.ledger,
                refusal: None,
            }));
        }
    }
}

/// A batch of fills is carried out one after the other: with one more at
/// its end it reaches what the others reach and fills the last one there, and it
/// stops where one is refused.
pub proof fn law_fills_settle_in_turn(
    ledger: Ledger,
    orders: Seq<ApplicationNoteFill>,
    last: ApplicationNoteFill,
    parent: Id,
    timestamp: u64,
    from: nat,
)
    requires
        from <= orders.len(),
    ensures
        ({
            let others = fills_progress(ledger, orders, parent, timestamp, from);
            let all = fills_progress(ledger, orders.push(last), parent, timestamp, from);
            let settled = fill_outcome(others.ledger, last, parent, timestamp);
            &&& others.refusal is Some ==> all == others
            &&& others.refusal is None ==> {
                &&& all.ledger == settled.ledger
                &&& (all.refusal is None) == (settled.result is Ok)
                &&& settled.result is Err ==> all.refusal == Some(settled.result->Err_0)
            }
        }),
    decreases orders.len() - from,
{
    let pushed = orders.push(last);
    if from < orders.len() {
        assert(pushed[from as int] == orders[from as int]);
        let outcome = fill_outcome(ledger, orders[from as int], parent, timestamp);
        if outcome.result is Ok {
            law_fills_settle_in_turn(outcome.ledger, orders, last, parent, timestamp, from + 1);
        }
    } else {
        assert(pushed[from as int] == last);
        let settled = fill_outcome(ledger, last, parent, timestamp);
        if settled.result is Ok {
            assert(fills_progress(settled.ledger, pushed, parent, timestamp, from + 1) == (
            Progress { ledger: settled.ledger, refusal: None }));
        }
    }
}

proof fn lemma_bundle(
    ledger: Ledger,
    findings: Seq<SettlementFindings>,
    orders: Seq<ProductNoteSettlementOrder>,
    root: Id,
    timestamp: u64,
    from: nat,
)
    requires
        findings.len() == orders.len(),
    ensures
        (bundle_refusal(ledger, findings, orders, root, timestamp, from) is None) == (
        forall|i: int|
            from <= i < orders.len() ==> evidence_refusal(
                ledger,
                #[trigger] findings[i],
                orders[i],
                root,
                timestamp,
            ) is None),
    decreases orders.len() - from,
{
    if from < orders.len() {
        lemma_bundle(ledger, findings, orders, root, timestamp, from + 1);
        assert(findings[from as int] == findings[from as int]);
    }
}

/// A batch of trades between accounts is carried out exactly where it is approved,
/// its identifier is new, and every order settles in turn. It leaves what they leave
/// and records its identifier.
pub proof fn law_when_a_batch_of_trades_is_settled(
    ledger: Ledger,
    batch: ProductSettlementBatch,
    orders: Vec<ProductSettlementOrder>,
    submission: Submission,
    timestamp: u64,
)
    ensures
        ({
            let outcome = action_outcome(
                ledger,
                Action::IssueProductSettlementBatch { batch, orders },
                submission,
                timestamp,
            );
            let settled = orders_progress(ledger, orders@, timestamp, 0);
            &&& (outcome.result is Ok) == {
                &&& endorsement_refusal(batch.seal, submission) is None
                &&& !ledger.operations.contains_key(batch.batch_id)
                &&& settled.refusal is None
            }
            &&& outcome.result is Ok ==> outcome.ledger == (Ledger {
                operations: settled.ledger.operations.insert(
                    batch.batch_id,
                    outcome.result->Ok_0,
                ),
                ..settled.ledger
            }) && batch.seal.statement == Ok::<Id, String>(outcome.result->Ok_0)
        }),
{
}

/// A batch of trades between notes is carried out exactly where it is approved, its
/// identifier is new, it has evidence for every order, all of which stands before the
/// first is settled, and every order settles in turn. It leaves what they leave and
/// records its identifier.
pub proof fn law_when_a_batch_of_note_trades_is_settled(
    ledger: Ledger,
    batch: ProductSettlementBatch,
    orders: Vec<ProductNoteSettlementOrder>,
    findings: Vec<SettlementFindings>,
    submission: Submission,
    timestamp: u64,
)
    ensures
        ({
            let outcome = action_outcome(
                ledger,
                Action::IssueNoteProductSettlementBatch { batch, orders, findings },
                submission,
                timestamp,
            );
            let settled = note_orders_progress(ledger, orders@, timestamp, 0);
            &&& (outcome.result is Ok) == {
                &&& endorsement_refusal(batch.seal, submission) is None
                &&& !ledger.operations.contains_key(batch.batch_id)
                &&& findings@.len() == orders@.len()
                &&& forall|i: int|
                    0 <= i < orders@.len() ==> evidence_refusal(
                        ledger,
                        #[trigger] findings@[i],
                        orders@[i],
                        submission.before_root,
                        timestamp,
                    ) is None
                &&& settled.refusal is None
            }
            &&& outcome.result is Ok ==> outcome.ledger == (Ledger {
                operations: settled.ledger.operations.insert(
                    batch.batch_id,
                    outcome.result->Ok_0,
                ),
                ..settled.ledger
            }) && batch.seal.statement == Ok::<Id, String>(outcome.result->Ok_0)
        }),
{
    if findings@.len() == orders@.len() {
        lemma_bundle(ledger, findings@, orders@, submission.before_root, timestamp, 0);
    }
}

/// A batch of fills is carried out exactly where it has a statement, is on top of the
/// current state, and every fill is carried out in turn on that state. It leaves what
/// they leave.
pub proof fn law_when_a_batch_of_fills_is_carried_out(
    ledger: Ledger,
    batch: ApplicationNoteFillBatch,
    submission: Submission,
    timestamp: u64,
)
    ensures
        ({
            let outcome = action_outcome(
                ledger,
                Action::IssueApplicationNoteFillBatch { batch },
                submission,
                timestamp,
            );
            let filled = fills_progress(
                ledger,
                batch.fills@,
                submission.before_root,
                timestamp,
                0,
            );
            &&& (outcome.result is Ok) == {
                &&& batch.statement is Ok
                &&& batch.before_root == Ok::<Id, String>(submission.before_root)
                &&& filled.refusal is None
            }
            &&& outcome.result is Ok ==> outcome.ledger == filled.ledger && batch.statement
                == Ok::<Id, String>(outcome.result->Ok_0)
        }),
{
}

} // verus!
