//! No transaction is carried out twice, and none without its approval.

use vstd::prelude::*;

use crate::clearing_book::ConfidentialFacility;
use crate::endorsement::Submission;
use crate::execution::application_laws::law_fill_batch_carries_out_every_fill;
use crate::execution::application_settlement::fill_batch_outcome;
use crate::execution::book_question::BookCall;
use crate::execution::clearing_question::{ClearingAnswer, ClearingQuestion};
use crate::execution::deccp::{
    admit_member_outcome, open_clearing_book_outcome, register_guarantee_facility_outcome,
    ClearingBookRegistration, ParticipantAdmission, PresentationFindings,
};
use crate::execution::laws::{
    follows, lemma_escrow_spends, lemma_spends, on_applications, on_books,
};
use crate::execution::note_product::{note_consume_progress, note_product_outcome};
use crate::execution::notes::{settle_notes_outcome, settled};
use crate::execution::product::{nullified, operated};
use crate::execution::receivables::{call_outcome, cleared_outcome};
use crate::execution::{action_method, action_outcome, action_statement, Action};
use crate::id::Id;
use crate::order::{NoteSettlementOrder, ProductNoteSettlementOrder};
use crate::outcome::Outcome;
use crate::state::Ledger;
use crate::text::hex_id_of;

verus! {

/// Whether what a transaction registers is registered, or its operation
/// recorded.
pub open spec fn used_up(ledger: Ledger, action: Action) -> bool {
    match action {
        Action::IssueAsset { definition } => ledger.assets.contains_key(definition.asset_id),
        Action::IssueCsdIssuer { issuer } => ledger.csd_issuers.contains_key(issuer.issuer_id),
        Action::IssueCsdIssuerControl { control } => ledger.operations.contains_key(
            control.operation_id,
        ),
        Action::IssueNote {
            issuance,
            issuer,
        } => ledger.operations.contains_key(issuance.operation_id),
        Action::IssueNoteClaimMaterialization { materialization } =>
            ledger.operations.contains_key(materialization.operation_id),
        Action::IssueNoteSettlement { order } => ledger.operations.contains_key(
            order.operation_id,
        ),
        Action::IssueAdmissionCommittee { plan } => ledger.operations.contains_key(
            plan.operation_id,
        ),
        Action::IssueSettlementVerifier { config } => ledger.settlement_verifiers.contains_key(
            config.key,
        ),
        Action::IssueAdmissionBatch { plan, lanes } => ledger.operations.contains_key(
            plan.operation_id,
        ),
        Action::IssueAdmissionAdvance { advance } => ledger.operations.contains_key(
            advance.operation_id,
        ),
        Action::IssueProductReservation { request } => ledger.operations.contains_key(
            request.transition.operation_id,
        ),
        Action::IssueNoteProductReservation { request } => ledger.operations.contains_key(
            request.transition.operation_id,
        ),
        Action::IssueProductRelease { order } => ledger.operations.contains_key(
            order.transition.operation_id,
        ),
        Action::IssueNoteProductRelease { order } => ledger.operations.contains_key(
            order.transition.operation_id,
        ),
        Action::IssueProductSettlement { order } => ledger.operations.contains_key(
            order.settlement.operation_id,
        ),
        Action::IssueProductSettlementBatch { batch, orders } => ledger.operations.contains_key(
            batch.batch_id,
        ),
        Action::IssueNoteProductSettlement { order, findings } =>
            ledger.operations.contains_key(order.settlement.operation_id),
        Action::IssueNoteProductSettlementBatch { batch, orders, findings } =>
            ledger.operations.contains_key(batch.batch_id),
        Action::IssueAccount { opening } => ledger.accounts.contains_key(opening.handle),
        Action::IssueGuarantor { definition } => ledger.guarantors.contains_key(
            definition.guarantor_id,
        ),
        Action::IssueCreditGrant { grant } => ledger.operations.contains_key(grant.operation_id),
        Action::IssueCreditTransition { transition, seal } => ledger.operations.contains_key(
            transition.operation_id,
        ),
        Action::IssueCreditControl { control } => ledger.operations.contains_key(
            control.operation_id,
        ),
        Action::IssueCreditAmendment { amendment } => ledger.operations.contains_key(
            amendment.operation_id,
        ),
        Action::IssueSettlement { order } => ledger.operations.contains_key(order.operation_id),
        Action::IssueAethelProvider { operation_id, .. } => ledger.operations.contains_key(
            operation_id,
        ),
        Action::IssueAethelStream { operation_id, .. } => ledger.operations.contains_key(
            operation_id,
        ),
        Action::IssueAethelStreamTransition { operation_id, .. } => ledger.operations.contains_key(
            operation_id,
        ),
        Action::IssueAethelSeries { operation_id, .. } => ledger.operations.contains_key(
            operation_id,
        ),
        Action::IssueAethelCreditDecision { operation_id, .. } => ledger.operations.contains_key(
            operation_id,
        ),
        Action::IssueAethelGuarantee { request, .. } => ledger.operations.contains_key(
            request.operation_id,
        ),
        Action::IssueAethelGuaranteeRelease { request, .. } => ledger.operations.contains_key(
            request.operation_id,
        ),
        Action::IssueAethelProviderKeyRotation { operation_id, .. } => ledger.operations.contains_key(
            operation_id,
        ),
        Action::IssueAethelProviderStatus { operation_id, .. } => ledger.operations.contains_key(
            operation_id,
        ),
        Action::IssueAethelCredentialIssuer { operation_id, .. } => ledger.operations.contains_key(
            operation_id,
        ),
        Action::IssueAethelCredentialStatus { operation_id, .. } => ledger.operations.contains_key(
            operation_id,
        ),
        Action::IssueAethelFundingQuote { quote, .. } => ledger.operations.contains_key(
            quote.operation_id,
        ),
        Action::IssueAethelReceivable { request, .. } => ledger.operations.contains_key(
            request.operation_id,
        ),
        Action::IssueAethelDefault { attestation, .. } => ledger.operations.contains_key(
            attestation.operation_id,
        ),
        Action::IssueAethelGuaranteeClaim { request, .. } => ledger.operations.contains_key(
            request.operation_id,
        ),
        Action::IssueDeccpClearingBook { request, .. } => ledger.operations.contains_key(
            request.operation_id,
        ),
        Action::IssueDeccpMember { request, .. } => ledger.operations.contains_key(
            request.operation_id,
        ),
        Action::IssueDeccpGuaranteeFacility { operation_id, .. } => ledger.operations.contains_key(
            operation_id,
        ),
        Action::IssueApplicationNoteReservation { request, .. } => ledger.operations.contains_key(
            request.transition.operation_id,
        ),
        Action::IssueApplicationNoteFill { order, .. } => ledger.operations.contains_key(
            order.operation_id,
        ),
        Action::IssueApplicationNoteRelease { order, .. } => ledger.operations.contains_key(
            order.operation_id,
        ),
        Action::IssueApplicationReserveScope { registration } => registration.key is Ok
            && ledger.application_reserve_scopes.contains_key(registration.key->Ok_0),
        Action::IssueApplicationNoteFillBatch { batch } => batch.fills@.len() > 0
            && ledger.operations.contains_key(batch.fills@[0].operation_id),
    }
}

/// Whether a transaction is a batch of no fills, which has no operation.
pub open spec fn is_empty_batch(action: Action) -> bool {
    match action {
        Action::IssueApplicationNoteFillBatch { batch } => batch.fills@.len() == 0,
        _ => false,
    }
}

/// Whether an outcome uses a transaction up where it is carried out, and is that of
/// no change where the transaction is used up already.
spec fn used_once(ledger: Ledger, action: Action, outcome: Outcome) -> bool {
    &&& used_up(ledger, action) ==> outcome.result is Err && outcome.ledger == ledger
    &&& outcome.result is Ok && !is_empty_batch(action) ==> used_up(outcome.ledger, action)
}

proof fn lemma_registrations_are_used_once(
    ledger: Ledger,
    action: Action,
    submission: Submission,
    timestamp: u64,
)
    requires
        action is IssueAsset || action is IssueCsdIssuer || action is IssueCsdIssuerControl
            || action is IssueAccount || action is IssueGuarantor || action is IssueSettlement,
    ensures
        used_once(ledger, action, action_outcome(ledger, action, submission, timestamp)),
{
}

proof fn lemma_notes_are_used_once(
    ledger: Ledger,
    action: Action,
    submission: Submission,
    timestamp: u64,
)
    requires
        action is IssueNote || action is IssueNoteClaimMaterialization
            || action is IssueNoteSettlement,
    ensures
        used_once(ledger, action, action_outcome(ledger, action, submission, timestamp)),
{
    if let Action::IssueNoteSettlement { order } = action {
        if settle_notes_outcome(ledger, order, submission, timestamp).result is Ok {
            lemma_notes_recorded(ledger, order, submission, timestamp);
        }
    }
}

proof fn lemma_admissions_are_used_once(
    ledger: Ledger,
    action: Action,
    submission: Submission,
    timestamp: u64,
)
    requires
        action is IssueAdmissionCommittee || action is IssueSettlementVerifier
            || action is IssueAdmissionBatch || action is IssueAdmissionAdvance,
    ensures
        used_once(ledger, action, action_outcome(ledger, action, submission, timestamp)),
{
}

proof fn lemma_reservations_are_used_once(
    ledger: Ledger,
    action: Action,
    submission: Submission,
    timestamp: u64,
)
    requires
        action is IssueProductReservation || action is IssueNoteProductReservation
            || action is IssueProductRelease || action is IssueNoteProductRelease,
    ensures
        used_once(ledger, action, action_outcome(ledger, action, submission, timestamp)),
{
}

proof fn lemma_settlements_are_used_once(
    ledger: Ledger,
    action: Action,
    submission: Submission,
    timestamp: u64,
)
    requires
        action is IssueProductSettlement || action is IssueProductSettlementBatch
            || action is IssueNoteProductSettlement || action is IssueNoteProductSettlementBatch,
    ensures
        used_once(ledger, action, action_outcome(ledger, action, submission, timestamp)),
{
    if let Action::IssueNoteProductSettlement { order, findings } = action {
        if note_product_outcome(ledger, order, timestamp).result is Ok {
            lemma_note_product_recorded(ledger, order, timestamp);
        }
    }
}

proof fn lemma_credit_are_used_once(
    ledger: Ledger,
    action: Action,
    submission: Submission,
    timestamp: u64,
)
    requires
        action is IssueCreditGrant || action is IssueCreditTransition
            || action is IssueCreditControl || action is IssueCreditAmendment,
    ensures
        used_once(ledger, action, action_outcome(ledger, action, submission, timestamp)),
{
}

proof fn lemma_books_are_used_once(
    ledger: Ledger,
    action: Action,
    submission: Submission,
    timestamp: u64,
)
    requires
        on_books(action),
    ensures
        used_once(ledger, action, action_outcome(ledger, action, submission, timestamp)),
{
}

proof fn lemma_applications_are_used_once(
    ledger: Ledger,
    action: Action,
    submission: Submission,
    timestamp: u64,
)
    requires
        on_applications(action),
    ensures
        used_once(ledger, action, action_outcome(ledger, action, submission, timestamp)),
{
    if let Action::IssueApplicationNoteFillBatch { batch } = action {
        let outcome = fill_batch_outcome(ledger, batch, submission.before_root, timestamp);
        if outcome.result is Ok && batch.fills@.len() > 0 {
            law_fill_batch_carries_out_every_fill(
                ledger,
                batch,
                submission.before_root,
                timestamp,
            );
            assert(outcome.ledger.operations.contains_key(batch.fills@[0].operation_id));
        }
    }
}

proof fn lemma_every_transaction_is_used_once(
    ledger: Ledger,
    action: Action,
    submission: Submission,
    timestamp: u64,
)
    ensures
        used_once(ledger, action, action_outcome(ledger, action, submission, timestamp)),
{
    match action {
        Action::IssueAsset { .. }
        | Action::IssueCsdIssuer { .. }
        | Action::IssueCsdIssuerControl { .. }
        | Action::IssueAccount { .. }
        | Action::IssueGuarantor { .. }
        | Action::IssueSettlement { .. } => {
            lemma_registrations_are_used_once(ledger, action, submission, timestamp);
        },
        Action::IssueNote { .. }
        | Action::IssueNoteClaimMaterialization { .. }
        | Action::IssueNoteSettlement { .. } => {
            lemma_notes_are_used_once(ledger, action, submission, timestamp);
        },
        Action::IssueAdmissionCommittee { .. }
        | Action::IssueSettlementVerifier { .. }
        | Action::IssueAdmissionBatch { .. }
        | Action::IssueAdmissionAdvance { .. } => {
            lemma_admissions_are_used_once(ledger, action, submission, timestamp);
        },
        Action::IssueProductReservation { .. }
        | Action::IssueNoteProductReservation { .. }
        | Action::IssueProductRelease { .. }
        | Action::IssueNoteProductRelease { .. } => {
            lemma_reservations_are_used_once(ledger, action, submission, timestamp);
        },
        Action::IssueProductSettlement { .. }
        | Action::IssueProductSettlementBatch { .. }
        | Action::IssueNoteProductSettlement { .. }
        | Action::IssueNoteProductSettlementBatch { .. } => {
            lemma_settlements_are_used_once(ledger, action, submission, timestamp);
        },
        Action::IssueCreditGrant { .. }
        | Action::IssueCreditTransition { .. }
        | Action::IssueCreditControl { .. }
        | Action::IssueCreditAmendment { .. } => {
            lemma_credit_are_used_once(ledger, action, submission, timestamp);
        },
        Action::IssueApplicationReserveScope { .. }
        | Action::IssueApplicationNoteReservation { .. }
        | Action::IssueApplicationNoteFill { .. }
        | Action::IssueApplicationNoteFillBatch { .. }
        | Action::IssueApplicationNoteRelease { .. } => {
            lemma_applications_are_used_once(ledger, action, submission, timestamp);
        },
        _ => {
            lemma_books_are_used_once(ledger, action, submission, timestamp);
        },
    }
}

/// A transaction that is used up is refused, and nothing changes.
pub proof fn law_used_up_is_refused(
    ledger: Ledger,
    action: Action,
    submission: Submission,
    timestamp: u64,
)
    requires
        used_up(ledger, action),
    ensures
        action_outcome(ledger, action, submission, timestamp).result is Err,
        action_outcome(ledger, action, submission, timestamp).ledger == ledger,
{
    lemma_every_transaction_is_used_once(ledger, action, submission, timestamp);
}

/// A transaction that is carried out is used up.
pub proof fn law_carried_out_is_used_up(
    ledger: Ledger,
    action: Action,
    submission: Submission,
    timestamp: u64,
)
    requires
        !is_empty_batch(action),
        action_outcome(ledger, action, submission, timestamp).result is Ok,
    ensures
        used_up(action_outcome(ledger, action, submission, timestamp).ledger, action),
{
    lemma_every_transaction_is_used_once(ledger, action, submission, timestamp);
}

proof fn lemma_notes_recorded(
    ledger: Ledger,
    order: NoteSettlementOrder,
    submission: Submission,
    timestamp: u64,
)
    requires
        settle_notes_outcome(ledger, order, submission, timestamp).result is Ok,
    ensures
        settle_notes_outcome(
            ledger,
            order,
            submission,
            timestamp,
        ).ledger.operations.contains_key(order.operation_id),
{
    let statement = order.seal.statement->Ok_0;
    let used = settled(ledger, order.nullifier, order.deadline, order.operation_id, statement);
    lemma_spends(used, order.spends@, order.deadline, statement, 0);
    assert(used.operations.contains_key(order.operation_id));
}

proof fn lemma_note_product_recorded(
    ledger: Ledger,
    order: ProductNoteSettlementOrder,
    timestamp: u64,
)
    requires
        note_product_outcome(ledger, order, timestamp).result is Ok,
    ensures
        note_product_outcome(ledger, order, timestamp).ledger.operations.contains_key(
            order.settlement.operation_id,
        ),
{
    let settlement = order.settlement;
    let statement = order.seal.statement->Ok_0;
    let consumed = note_consume_progress(ledger, ledger, order.reservations@, statement, 0);
    let used = nullified(
        consumed.ledger,
        settlement.nullifier,
        settlement.deadline,
        order.terms.rfq_nullifier,
        statement,
    );
    let recorded = operated(used, settlement.operation_id, statement);
    lemma_escrow_spends(recorded, settlement.spends@, settlement.deadline, statement, 0);
    assert(recorded.operations.contains_key(settlement.operation_id));
}

/// A transaction that was carried out is refused on every ledger that follows,
/// whoever approves it and whenever, and nothing changes.
pub proof fn law_no_transaction_is_carried_out_twice(
    ledger: Ledger,
    action: Action,
    submission: Submission,
    timestamp: u64,
    later: Ledger,
    again: Submission,
    moment: u64,
)
    requires
        !is_empty_batch(action),
        action_outcome(ledger, action, submission, timestamp).result is Ok,
        follows(action_outcome(ledger, action, submission, timestamp).ledger, later),
    ensures
        action_outcome(later, action, again, moment).result is Err,
        action_outcome(later, action, again, moment).ledger == later,
{
    let after = action_outcome(ledger, action, submission, timestamp).ledger;
    law_carried_out_is_used_up(ledger, action, submission, timestamp);
    assert(used_up(later, action));
    law_used_up_is_refused(later, action, again, moment);
}

/// Whether a transaction needs an approval that it does not have.
pub open spec fn unapproved(action: Action, submission: Submission) -> bool {
    action_method(action).takes_approval() && match action_statement(action) {
        Ok(statement) => submission.refusal(statement) is Some,
        Err(_) => true,
    }
}

/// Whether an outcome gives back the transaction's own statement, approved where
/// that is needed, and is that of no change where the approval is missing.
spec fn heeds_approval(
    ledger: Ledger,
    action: Action,
    submission: Submission,
    outcome: Outcome,
) -> bool {
    match outcome.result {
        Ok(statement) => {
            &&& action_statement(action) == Ok::<Id, Seq<char>>(statement)
            &&& action_method(action).takes_approval() ==> submission.refusal(statement) is None
        },
        Err(_) => unapproved(action, submission) ==> outcome.ledger == ledger,
    }
}

proof fn lemma_registrations_heed_approval(
    ledger: Ledger,
    action: Action,
    submission: Submission,
    timestamp: u64,
)
    requires
        action is IssueAsset || action is IssueCsdIssuer || action is IssueCsdIssuerControl
            || action is IssueAccount || action is IssueGuarantor || action is IssueSettlement,
    ensures
        heeds_approval(
            ledger,
            action,
            submission,
            action_outcome(ledger, action, submission, timestamp),
        ),
{
}

proof fn lemma_notes_heed_approval(
    ledger: Ledger,
    action: Action,
    submission: Submission,
    timestamp: u64,
)
    requires
        action is IssueNote || action is IssueNoteClaimMaterialization
            || action is IssueNoteSettlement,
    ensures
        heeds_approval(
            ledger,
            action,
            submission,
            action_outcome(ledger, action, submission, timestamp),
        ),
{
}

proof fn lemma_admissions_heed_approval(
    ledger: Ledger,
    action: Action,
    submission: Submission,
    timestamp: u64,
)
    requires
        action is IssueAdmissionCommittee || action is IssueSettlementVerifier
            || action is IssueAdmissionBatch || action is IssueAdmissionAdvance,
    ensures
        heeds_approval(
            ledger,
            action,
            submission,
            action_outcome(ledger, action, submission, timestamp),
        ),
{
}

proof fn lemma_reservations_heed_approval(
    ledger: Ledger,
    action: Action,
    submission: Submission,
    timestamp: u64,
)
    requires
        action is IssueProductReservation || action is IssueNoteProductReservation
            || action is IssueProductRelease || action is IssueNoteProductRelease,
    ensures
        heeds_approval(
            ledger,
            action,
            submission,
            action_outcome(ledger, action, submission, timestamp),
        ),
{
}

proof fn lemma_settlements_heed_approval(
    ledger: Ledger,
    action: Action,
    submission: Submission,
    timestamp: u64,
)
    requires
        action is IssueProductSettlement || action is IssueProductSettlementBatch
            || action is IssueNoteProductSettlement || action is IssueNoteProductSettlementBatch,
    ensures
        heeds_approval(
            ledger,
            action,
            submission,
            action_outcome(ledger, action, submission, timestamp),
        ),
{
}

proof fn lemma_credit_heed_approval(
    ledger: Ledger,
    action: Action,
    submission: Submission,
    timestamp: u64,
)
    requires
        action is IssueCreditGrant || action is IssueCreditTransition
            || action is IssueCreditControl || action is IssueCreditAmendment,
    ensures
        heeds_approval(
            ledger,
            action,
            submission,
            action_outcome(ledger, action, submission, timestamp),
        ),
{
}

proof fn lemma_books_heed_approval(
    ledger: Ledger,
    action: Action,
    submission: Submission,
    timestamp: u64,
)
    requires
        on_books(action),
    ensures
        heeds_approval(
            ledger,
            action,
            submission,
            action_outcome(ledger, action, submission, timestamp),
        ),
{
}

proof fn lemma_applications_heed_approval(
    ledger: Ledger,
    action: Action,
    submission: Submission,
    timestamp: u64,
)
    requires
        on_applications(action),
    ensures
        heeds_approval(
            ledger,
            action,
            submission,
            action_outcome(ledger, action, submission, timestamp),
        ),
{
}

proof fn lemma_every_transaction_heeds_approval(
    ledger: Ledger,
    action: Action,
    submission: Submission,
    timestamp: u64,
)
    ensures
        heeds_approval(
            ledger,
            action,
            submission,
            action_outcome(ledger, action, submission, timestamp),
        ),
{
    match action {
        Action::IssueAsset { .. }
        | Action::IssueCsdIssuer { .. }
        | Action::IssueCsdIssuerControl { .. }
        | Action::IssueAccount { .. }
        | Action::IssueGuarantor { .. }
        | Action::IssueSettlement { .. } => {
            lemma_registrations_heed_approval(ledger, action, submission, timestamp);
        },
        Action::IssueNote { .. }
        | Action::IssueNoteClaimMaterialization { .. }
        | Action::IssueNoteSettlement { .. } => {
            lemma_notes_heed_approval(ledger, action, submission, timestamp);
        },
        Action::IssueAdmissionCommittee { .. }
        | Action::IssueSettlementVerifier { .. }
        | Action::IssueAdmissionBatch { .. }
        | Action::IssueAdmissionAdvance { .. } => {
            lemma_admissions_heed_approval(ledger, action, submission, timestamp);
        },
        Action::IssueProductReservation { .. }
        | Action::IssueNoteProductReservation { .. }
        | Action::IssueProductRelease { .. }
        | Action::IssueNoteProductRelease { .. } => {
            lemma_reservations_heed_approval(ledger, action, submission, timestamp);
        },
        Action::IssueProductSettlement { .. }
        | Action::IssueProductSettlementBatch { .. }
        | Action::IssueNoteProductSettlement { .. }
        | Action::IssueNoteProductSettlementBatch { .. } => {
            lemma_settlements_heed_approval(ledger, action, submission, timestamp);
        },
        Action::IssueCreditGrant { .. }
        | Action::IssueCreditTransition { .. }
        | Action::IssueCreditControl { .. }
        | Action::IssueCreditAmendment { .. } => {
            lemma_credit_heed_approval(ledger, action, submission, timestamp);
        },
        Action::IssueApplicationReserveScope { .. }
        | Action::IssueApplicationNoteReservation { .. }
        | Action::IssueApplicationNoteFill { .. }
        | Action::IssueApplicationNoteFillBatch { .. }
        | Action::IssueApplicationNoteRelease { .. } => {
            lemma_applications_heed_approval(ledger, action, submission, timestamp);
        },
        _ => {
            lemma_books_heed_approval(ledger, action, submission, timestamp);
        },
    }
}

/// A transaction that takes the committee's approval and makes no statement, or
/// whose statement is not approved on top of the current state root, changes
/// nothing.
pub proof fn law_unapproved_changes_nothing(
    ledger: Ledger,
    action: Action,
    submission: Submission,
    timestamp: u64,
)
    requires
        unapproved(action, submission),
    ensures
        action_outcome(ledger, action, submission, timestamp).result is Err,
        action_outcome(ledger, action, submission, timestamp).ledger == ledger,
{
    lemma_every_transaction_heeds_approval(ledger, action, submission, timestamp);
}

/// A transaction that is carried out gives back its own statement, and where it
/// takes the committee's approval, that statement is what the committee approved
/// on top of the state root that the transaction met.
pub proof fn law_carried_out_was_approved(
    ledger: Ledger,
    action: Action,
    submission: Submission,
    timestamp: u64,
)
    requires
        action_outcome(ledger, action, submission, timestamp).result is Ok,
    ensures
        ({
            let statement = action_outcome(ledger, action, submission, timestamp).result->Ok_0;
            &&& action_statement(action) == Ok::<Id, Seq<char>>(statement)
            &&& action_method(action).takes_approval() ==> {
                &&& submission.approves(statement)
                &&& submission.expected_before_root matches Some(expected) && hex_id_of(
                    expected@,
                ) == submission.before_root
            }
        }),
{
    lemma_every_transaction_heeds_approval(ledger, action, submission, timestamp);
}

/// Whether a transaction fills or releases application reservations: what it may do
/// is in the certificates that were verified.
pub open spec fn is_certified(action: Action) -> bool {
    ||| action is IssueApplicationNoteFill
    ||| action is IssueApplicationNoteFillBatch
    ||| action is IssueApplicationNoteRelease
}

/// Every transaction that is carried out makes a statement that was authorized, unless
/// it is a certified one.
pub proof fn law_what_is_carried_out_was_authorized(
    ledger: Ledger,
    action: Action,
    submission: Submission,
    timestamp: u64,
)
    requires
        action_outcome(ledger, action, submission, timestamp).result is Ok,
        !is_certified(action),
    ensures
        submission.refusal(
            action_outcome(ledger, action, submission, timestamp).result->Ok_0,
        ) is None,
{
    lemma_every_transaction_heeds_approval(ledger, action, submission, timestamp);
}

/// An action on the book of receivables is carried out only with the committee's
/// approval and under an operation that no transaction has used, and its
/// operation is then recorded. One that is refused changes nothing.
pub proof fn law_book_actions_are_entered_once(
    ledger: Ledger,
    operation_id: Id,
    call: BookCall,
    submission: Submission,
    refusal: Option<Seq<char>>,
    answer: ClearingAnswer,
    question: ClearingQuestion,
    now: u64,
    what: Seq<char>,
    attested: Option<Seq<char>>,
    later: Option<Seq<char>>,
)
    ensures
        entered_once(
            ledger,
            operation_id,
            submission,
            call_outcome(ledger, operation_id, call, submission, refusal),
        ),
        entered_once(
            ledger,
            operation_id,
            submission,
            cleared_outcome(
                ledger,
                operation_id,
                call,
                submission,
                refusal,
                answer,
                question,
                now,
                what,
                attested,
                later,
            ),
        ),
{
}

/// Whether an outcome is that of an approved transaction under a new operation,
/// which it records, or leaves the ledger as it was.
pub open spec fn entered_once(
    ledger: Ledger,
    operation_id: Id,
    submission: Submission,
    outcome: Outcome,
) -> bool {
    match outcome.result {
        Ok(statement) => {
            &&& submission.refusal(statement) is None
            &&& operation_id != Id::zero()
            &&& !ledger.operations.contains_key(operation_id)
            &&& outcome.ledger.operations == ledger.operations.insert(operation_id, statement)
        },
        Err(_) => outcome.ledger == ledger,
    }
}

/// The clearing book is opened once, and its actions are carried out only with
/// the committee's approval and under new operations.
pub proof fn law_clearing_actions_are_entered_once(
    ledger: Ledger,
    opening: ClearingBookRegistration,
    admission: ParticipantAdmission,
    operation_id: Id,
    facility: ConfidentialFacility,
    digest: Id,
    statement: Result<Id, String>,
    parsed: Result<(), String>,
    presentation: PresentationFindings,
    answer: ClearingAnswer,
    submission: Submission,
    timestamp: u64,
)
    ensures
        entered_once(
            ledger,
            opening.operation_id,
            submission,
            open_clearing_book_outcome(ledger, opening, answer, submission, timestamp),
        ),
        open_clearing_book_outcome(ledger, opening, answer, submission, timestamp).result is Ok
            ==> ledger.deccp is None,
        entered_once(
            ledger,
            admission.operation_id,
            submission,
            admit_member_outcome(
                ledger,
                admission,
                statement,
                parsed,
                presentation,
                answer,
                submission,
                timestamp,
            ),
        ),
        entered_once(
            ledger,
            operation_id,
            submission,
            register_guarantee_facility_outcome(
                ledger,
                operation_id,
                facility,
                digest,
                parsed,
                answer,
                submission,
                timestamp,
            ),
        ),
{
}

} // verus!
