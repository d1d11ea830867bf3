//! When receivables are issued and guarantees claimed, and when the clearing book is
//! opened, admits members and takes facilities.

use vstd::prelude::*;
use vstd::utf8::encode_utf8;

use crate::aethel_book::{
    GuaranteeClaim, GuaranteeStatus, ProviderCapability, ProviderStatus, ReceivableIssuance,
};
use crate::bytes::be_bytes;
use crate::clearing_book::{ClearingBook, ConfidentialFacility};
use crate::crypto::{base64_bytes, sha256};
use crate::endorsement::Submission;
use crate::execution::aethel::{
    ProviderReference, ReceivableInstruction, ReceivableOperation, SubmittedInstruction,
};
use crate::execution::book_question::{BookCall, BookQuestion};
use crate::execution::clearing_laws::{
    binds, books_replaced, cleared_by, describes_facility, ends_reservation, hold_attested,
    reserved_in_book,
};
use crate::execution::clearing_question::{ClearingAnswer, ClearingQuestion};
use crate::execution::deccp::{
    admission_evidence_refusal, cash_lock_refusal, context_of, ClearingBookRegistration,
    EligibilityAttestation, ParticipantAdmission,
    PresentationContext,
    PresentationFindings,
};
use crate::execution::issuance::{
    bind_question, claim_binding_refusal, consumption_of, instruction_refusal,
    issuance_binding_refusal, IssuanceSuccessor,
};
use crate::execution::receivable_laws::{
    answered, book_replaced, entered, funding_backed, guarantee_backed,
    law_what_backs_a_funding_quote, law_what_backs_a_guarantee, law_who_may_act, may_act,
};
use crate::execution::{action_outcome, Action};
use crate::id::Id;
use crate::state::{AssetKind, FacilityStatus, HoldStatus, Ledger, NoteClaimKind};
use crate::table::Numbered;

verus! {

/// Whether an instruction was submitted as base64 text, decoded, and verified, with a
/// sound signing package, against the pinned verifier of its venue and epoch.
pub open spec fn instructed(
    ledger: Ledger,
    submitted: SubmittedInstruction,
    timestamp: u64,
) -> bool {
    let instruction = submitted.decoded->Ok_0;
    let verifier = ledger.settlement_verifiers[submitted.verifier_key];
    let checks = submitted.checks;
    &&& submitted.text is Some
    &&& base64_bytes(submitted.text->0@) == Some(checks.raw@)
    &&& submitted.decoded is Ok
    &&& ledger.settlement_verifiers.contains_key(submitted.verifier_key)
    &&& verifier.venue_id == instruction.venue_id
    &&& verifier.epoch == instruction.verifier_epoch
    &&& verifier.defmi_id == instruction.defmi_id
    &&& verifier.valid_from <= timestamp <= verifier.valid_until
    &&& checks.venue_id == instruction.venue_id
    &&& checks.epoch == instruction.verifier_epoch
    &&& checks.frost_public_package@ == verifier.frost_public_package@
    &&& checks.amount_bits == verifier.amount_bits
    &&& checks.price_bits == verifier.price_bits
    &&& checks.max_horizon == verifier.max_horizon
    &&& checks.timestamp == timestamp
    &&& submitted.package_valid
    &&& submitted.verified is Ok
}

/// The machine takes an instruction exactly where it is sound.
pub proof fn law_when_an_instruction_is_taken(
    ledger: Ledger,
    submitted: SubmittedInstruction,
    timestamp: u64,
)
    ensures
        (instruction_refusal(ledger, submitted, timestamp) is None) == instructed(
            ledger,
            submitted,
            timestamp,
        ),
{
}

/// Whether a reference names nothing.
pub open spec fn names_nothing(reference: ProviderReference) -> bool {
    &&& reference.artifact_id == Id::zero()
    &&& reference.provider_id == Id::zero()
    &&& reference.backing_id == Id::zero()
}

/// Whether a reference names a credit decision, by its assessor and the digest of its
/// model, policy and proof.
pub open spec fn names_decision(
    ledger: Ledger,
    reference: ProviderReference,
    decision_id: Id,
) -> bool {
    let decision = ledger.aethel.credit_decisions@[decision_id];
    &&& ledger.aethel.credit_decisions@.contains_key(decision_id)
    &&& reference.artifact_id == decision_id
    &&& reference.provider_id == decision.provider_id
    &&& reference.backing_id.0 == sha256(
        encode_utf8("AETHEL:CREDIT-BACKING:v1"@) + decision.model_digest.0@
            + decision.policy_digest.0@ + decision.relation_proof_digest.0@,
    )
}

/// Whether a reference names a guarantee, by its guarantor and its hold.
pub open spec fn names_guarantee(
    ledger: Ledger,
    reference: ProviderReference,
    guarantee_id: Id,
) -> bool {
    let guarantee = ledger.aethel.guarantees@[guarantee_id];
    &&& ledger.aethel.guarantees@.contains_key(guarantee_id)
    &&& reference.artifact_id == guarantee_id
    &&& reference.provider_id == guarantee.provider_id
    &&& reference.backing_id == guarantee.defmi_hold_id
}

/// Whether a reference names a funding quote, by its provider and its reserve.
pub open spec fn names_quote(ledger: Ledger, reference: ProviderReference, quote_id: Id) -> bool {
    let quote = ledger.aethel.funding_quotes@[quote_id];
    &&& ledger.aethel.funding_quotes@.contains_key(quote_id)
    &&& reference.artifact_id == quote_id
    &&& reference.provider_id == quote.provider_id
    &&& reference.backing_id == quote.cash_reservation_id
}

/// Whether every provider behind an issuance may act and what it offers is backed: the
/// attestor of the stream, the assessor, the guarantor and the funder.
pub open spec fn issuance_supported(
    ledger: Ledger,
    request: ReceivableIssuance,
    timestamp: u64,
) -> bool {
    let book = ledger.aethel;
    let stream_id = book.series@[request.series_id].stream_id;
    let decision_id = request.credit_decision_id->0;
    let guarantee_id = request.guarantee_id->0;
    let quote_id = request.funding_quote_id->0;
    &&& book.series@.contains_key(request.series_id)
    &&& book.streams@.contains_key(stream_id)
    &&& may_act(
        ledger,
        book.streams@[stream_id].attestor_provider_id,
        ProviderCapability::StreamAttestor,
        timestamp,
    )
    &&& request.credit_decision_id is Some ==> {
        &&& book.credit_decisions@.contains_key(decision_id)
        &&& may_act(
            ledger,
            book.credit_decisions@[decision_id].provider_id,
            ProviderCapability::CreditAssessor,
            timestamp,
        )
    }
    &&& request.guarantee_id is Some ==> {
        &&& book.guarantees@.contains_key(guarantee_id)
        &&& may_act(
            ledger,
            book.guarantees@[guarantee_id].provider_id,
            ProviderCapability::Guarantor,
            timestamp,
        )
        &&& guarantee_backed(ledger, book.guarantees@[guarantee_id], timestamp)
    }
    &&& request.funding_quote_id is Some ==> {
        &&& book.funding_quotes@.contains_key(quote_id)
        &&& may_act(
            ledger,
            book.funding_quotes@[quote_id].provider_id,
            ProviderCapability::LiquidityProvider,
            timestamp,
        )
        &&& funding_backed(ledger, book.funding_quotes@[quote_id], timestamp)
    }
}

/// Whether the instruction of an issuance is for exactly that issuance on the stream
/// as it is, and the note that is issued is on the asset of the series, of the face
/// value, and locked by the series unless it may be transferred. What is paid is the
/// advance of the funding, else the coverage of the guarantee, else the face value.
pub open spec fn issuance_bound(
    ledger: Ledger,
    request: ReceivableIssuance,
    instruction: ReceivableInstruction,
    successor: IssuanceSuccessor,
) -> bool {
    let book = ledger.aethel;
    let series = book.series@[request.series_id];
    let stream = book.streams@[series.stream_id];
    let note = ledger.notes[request.note_id];
    &&& request.zkpi_digest.0 == sha256(instruction.encoded@)
    &&& book.series@.contains_key(request.series_id)
    &&& book.streams@.contains_key(series.stream_id)
    &&& successor.stream_id == series.stream_id
    &&& successor.version == stream.version
    &&& successor.after_pledged_commitment == request.after_pledged_commitment
    &&& successor.valid is Ok
    &&& ledger.notes.contains_key(request.note_id)
    &&& note.asset_id == series.receivable_asset_id
    &&& note.value_commitment == request.face_value_commitment
    &&& series.allow_secondary_transfer ==> note.lock_id == Id::zero()
    &&& !series.allow_secondary_transfer ==> note.lock_id == request.series_id
    &&& instruction.operation == ReceivableOperation::Issue
    &&& instruction.aethel_domain_id == series.aethel_domain_id
    &&& instruction.request_id == request.request_id
    &&& instruction.action_id == request.issuance_id
    &&& instruction.series_id == request.series_id
    &&& instruction.stream_id == series.stream_id
    &&& instruction.stream_state_version == request.before_stream_state_version
    &&& instruction.before_stream_state_root == request.before_stream_state_root
    &&& successor.root == Ok::<Id, String>(instruction.after_stream_state_root)
    &&& instruction.eligible_commitment == stream.eligible_commitment
    &&& instruction.before_pledged_commitment == stream.pledged_commitment
    &&& instruction.after_pledged_commitment == request.after_pledged_commitment
    &&& instruction.receivable_note_id == request.note_id
    &&& instruction.settlement_asset_id == stream.settlement_asset_id
    &&& request.credit_decision_id is Some ==> names_decision(
        ledger,
        instruction.credit,
        request.credit_decision_id->0,
    )
    &&& request.credit_decision_id is None ==> names_nothing(instruction.credit)
    &&& request.guarantee_id is Some ==> names_guarantee(
        ledger,
        instruction.guarantee,
        request.guarantee_id->0,
    )
    &&& request.guarantee_id is None ==> names_nothing(instruction.guarantee)
    &&& request.funding_quote_id is Some ==> names_quote(
        ledger,
        instruction.funding,
        request.funding_quote_id->0,
    )
    &&& request.funding_quote_id is None ==> names_nothing(instruction.funding)
    &&& instruction.policy_digest == series.eligibility_policy_digest
    &&& instruction.relation_proof_digest == request.relation_proof_digest
    &&& instruction.operation_nullifier == request.allocation_nullifier
    &&& book.root == Ok::<Id, String>(instruction.before_aethel_root)
    &&& instruction.amount_commitment == request.face_value_commitment
    &&& instruction.payee_handle == request.owner_commitment
    &&& series.requires_confidential_subject ==> {
        &&& book.confidential_subjects@.contains_key(request.request_id)
        &&& book.confidential_subjects@[request.request_id].policy_digest
            == series.eligibility_policy_digest
        &&& request.credit_decision_id is Some
            ==> book.credit_decisions@[request.credit_decision_id->0].decision_terms_commitment
            == stream.eligible_commitment
    }
    &&& request.funding_quote_id is Some ==> instruction.price_commitment
        == book.funding_quotes@[request.funding_quote_id->0].advance_commitment
    &&& request.funding_quote_id is None && request.guarantee_id is Some
        ==> instruction.price_commitment
        == book.guarantees@[request.guarantee_id->0].coverage_commitment
    &&& request.funding_quote_id is None && request.guarantee_id is None
        ==> instruction.price_commitment == request.face_value_commitment
}

proof fn lemma_issuance_bound(
    ledger: Ledger,
    request: ReceivableIssuance,
    instruction: ReceivableInstruction,
    successor: IssuanceSuccessor,
)
    ensures
        (issuance_binding_refusal(ledger, request, instruction, successor) is None)
            == issuance_bound(ledger, request, instruction, successor),
{
}

/// Whether a book has an issuance as requested and its stream one version on, with
/// what is pledged now and at the root that was derived, and otherwise as it was.
pub open spec fn issued_in(
    ledger: Ledger,
    call: BookCall,
    request: ReceivableIssuance,
    successor: IssuanceSuccessor,
) -> bool {
    let book = *call.recorded->Ok_0;
    let stream_id = ledger.aethel.series@[request.series_id].stream_id;
    let before = ledger.aethel.streams@[stream_id];
    let after = book.streams@[stream_id];
    &&& book.issuances@.contains_key(request.issuance_id)
    &&& book.issuances@[request.issuance_id] == request
    &&& book.streams@.contains_key(stream_id)
    &&& after.attestor_provider_id == before.attestor_provider_id
    &&& after.settlement_asset_id == before.settlement_asset_id
    &&& after.eligible_commitment == before.eligible_commitment
    &&& after.version == before.version + 1
    &&& after.pledged_commitment == request.after_pledged_commitment
    &&& after.root is Ok
    &&& after.root == successor.root
}

/// A receivable is issued exactly where that is approved and new, every provider
/// behind it may act, its instruction is sound and for exactly this issuance, the
/// book that was asked has it, and, where it is guaranteed, the clearing book has the
/// reservation of the guarantee and was asked to bind and bound exactly that.
pub proof fn law_when_a_receivable_is_issued(
    ledger: Ledger,
    request: ReceivableIssuance,
    submitted: SubmittedInstruction,
    successor: IssuanceSuccessor,
    answer: ClearingAnswer,
    call: BookCall,
    submission: Submission,
    timestamp: u64,
)
    ensures
        ({
            let outcome = action_outcome(
                ledger,
                Action::IssueAethelReceivable { request, submitted, successor, answer, call },
                submission,
                timestamp,
            );
            let guarantee = ledger.aethel.guarantees@[request.guarantee_id->0];
            &&& (outcome.result is Ok) == {
                &&& entered(ledger, call.statement, submission, request.operation_id)
                &&& issuance_supported(ledger, request, timestamp)
                &&& instructed(ledger, submitted, timestamp)
                &&& issuance_bound(ledger, request, submitted.decoded->Ok_0, successor)
                &&& answered(
                    ledger,
                    call,
                    BookQuestion::Issue { request },
                    request.operation_id,
                    timestamp,
                )
                &&& issued_in(ledger, call, request, successor)
                &&& request.guarantee_id is Some ==> {
                    &&& reserved_in_book(ledger, guarantee)
                    &&& answer.question is Bind
                    &&& answer.question->Bind_operation_id == request.operation_id
                    &&& answer.question->issuance_id == request.issuance_id
                    &&& binds(ledger, answer.question->Bind_binding, guarantee)
                    &&& cleared_by(ledger, answer, timestamp)
                }
            }
            &&& outcome.result is Ok && request.guarantee_id is None ==> book_replaced(
                ledger,
                outcome.ledger,
                call,
                request.operation_id,
            )
            &&& outcome.result is Ok && request.guarantee_id is Some ==> books_replaced(
                ledger,
                outcome.ledger,
                call,
                answer,
                request.operation_id,
            )
        }),
{
    let book = ledger.aethel;
    let stream = book.streams@[book.series@[request.series_id].stream_id];
    let guarantee = book.guarantees@[request.guarantee_id->0];
    let quote = book.funding_quotes@[request.funding_quote_id->0];
    law_who_may_act(
        ledger,
        stream.attestor_provider_id,
        ProviderCapability::StreamAttestor,
        timestamp,
    );
    law_who_may_act(
        ledger,
        book.credit_decisions@[request.credit_decision_id->0].provider_id,
        ProviderCapability::CreditAssessor,
        timestamp,
    );
    law_who_may_act(ledger, guarantee.provider_id, ProviderCapability::Guarantor, timestamp);
    law_who_may_act(ledger, quote.provider_id, ProviderCapability::LiquidityProvider, timestamp);
    law_what_backs_a_guarantee(ledger, guarantee, timestamp);
    law_what_backs_a_funding_quote(ledger, quote, timestamp);
    law_when_an_instruction_is_taken(ledger, submitted, timestamp);
    lemma_issuance_bound(ledger, request, submitted.decoded->Ok_0, successor);
    let question = bind_question(ledger, request);
    assert(binds(ledger, question->Bind_binding, guarantee));
    if answer.question is Bind && binds(ledger, answer.question->Bind_binding, guarantee) {
        assert(answer.question->Bind_binding == question->Bind_binding);
    }
}

/// Whether a delivery from the hold behind a guarantee to the recipient of a claim, of
/// the claimed amount and by its settlement, stands on record.
pub open spec fn delivered(ledger: Ledger, request: GuaranteeClaim) -> bool {
    let guarantee = ledger.aethel.guarantees@[request.guarantee_id];
    exists|claim_id: Id| #[trigger]
        ledger.note_claims.contains_key(claim_id) && {
            let claim = ledger.note_claims[claim_id];
            &&& claim.kind == NoteClaimKind::Delivery
            &&& claim.source_hold_id == guarantee.defmi_hold_id
            &&& claim.asset_id
                == ledger.credit_facilities[guarantee.defmi_facility_id].rail_asset_id
            &&& claim.value_commitment == request.claim_amount_commitment
            &&& claim.recipient_commitment == request.recovery_recipient_commitment
            &&& claim.settlement_digest == request.defmi_settlement_digest
        }
}

/// Whether the settlement of a claim has spent a note of the receivable series.
pub open spec fn surrendered(ledger: Ledger, request: GuaranteeClaim) -> bool {
    let series_id = ledger.aethel.issuances@[request.issuance_id].series_id;
    exists|serial: Id| #[trigger]
        ledger.note_serials.contains_key(serial) && {
            &&& ledger.note_serials[serial].asset_id
                == ledger.aethel.series@[series_id].receivable_asset_id
            &&& ledger.note_serials[serial].statement == request.defmi_settlement_digest
        }
}

/// Whether the instruction of a claim is for exactly that claim, on the stream as it
/// is and leaving it so.
pub open spec fn claim_bound(
    ledger: Ledger,
    request: GuaranteeClaim,
    instruction: ReceivableInstruction,
) -> bool {
    let book = ledger.aethel;
    let issuance = book.issuances@[request.issuance_id];
    let series = book.series@[issuance.series_id];
    let stream = book.streams@[series.stream_id];
    &&& request.zkpi_digest.0 == sha256(instruction.encoded@)
    &&& book.issuances@.contains_key(request.issuance_id)
    &&& book.series@.contains_key(issuance.series_id)
    &&& book.streams@.contains_key(series.stream_id)
    &&& instruction.operation == ReceivableOperation::ClaimGuarantee
    &&& instruction.aethel_domain_id == series.aethel_domain_id
    &&& instruction.request_id == issuance.request_id
    &&& instruction.action_id == request.claim_id
    &&& instruction.series_id == issuance.series_id
    &&& instruction.stream_id == series.stream_id
    &&& instruction.stream_state_version == stream.version
    &&& stream.root == Ok::<Id, String>(instruction.before_stream_state_root)
    &&& instruction.after_stream_state_root == instruction.before_stream_state_root
    &&& instruction.eligible_commitment == stream.eligible_commitment
    &&& instruction.before_pledged_commitment == stream.pledged_commitment
    &&& instruction.after_pledged_commitment == stream.pledged_commitment
    &&& instruction.receivable_note_id == issuance.note_id
    &&& instruction.settlement_asset_id == stream.settlement_asset_id
    &&& issuance.credit_decision_id is Some ==> names_decision(
        ledger,
        instruction.credit,
        issuance.credit_decision_id->0,
    )
    &&& issuance.credit_decision_id is None ==> names_nothing(instruction.credit)
    &&& names_guarantee(ledger, instruction.guarantee, request.guarantee_id)
    &&& names_nothing(instruction.funding)
    &&& instruction.policy_digest == series.claim_policy_digest
    &&& instruction.relation_proof_digest == request.relation_proof_digest
    &&& instruction.operation_nullifier == request.claim_id
    &&& book.root == Ok::<Id, String>(instruction.before_aethel_root)
    &&& instruction.amount_commitment == request.claim_amount_commitment
    &&& instruction.price_commitment == request.claim_amount_commitment
    &&& instruction.payee_handle == request.recovery_recipient_commitment
}

proof fn lemma_claim_bound(
    ledger: Ledger,
    request: GuaranteeClaim,
    instruction: ReceivableInstruction,
)
    ensures
        (claim_binding_refusal(ledger, request, instruction) is None) == claim_bound(
            ledger,
            request,
            instruction,
        ),
{
}

/// A guarantee is claimed exactly where that is approved and new, the claim is for the
/// whole coverage, the hold behind the guarantee was consumed by the settlement that is
/// named, which delivers to the recipient and spends a note of the series, a default
/// is attested, the instruction is sound and for exactly this claim, the clearing book
/// has the reservation and was asked to consume and consumed exactly that, and the
/// book that was asked has the claim and the guarantee as claimed.
pub proof fn law_when_a_guarantee_is_claimed(
    ledger: Ledger,
    request: GuaranteeClaim,
    submitted: SubmittedInstruction,
    answer: ClearingAnswer,
    call: BookCall,
    submission: Submission,
    timestamp: u64,
)
    ensures
        ({
            let outcome = action_outcome(
                ledger,
                Action::IssueAethelGuaranteeClaim { request, submitted, answer, call },
                submission,
                timestamp,
            );
            let book = *call.recorded->Ok_0;
            let guarantee = ledger.aethel.guarantees@[request.guarantee_id];
            let consumption = answer.question->consumption;
            let attestation = ledger.aethel.default_attestations@[request.default_attestation_id];
            &&& (outcome.result is Ok) == {
                &&& entered(ledger, call.statement, submission, request.operation_id)
                &&& ledger.aethel.guarantees@.contains_key(request.guarantee_id)
                &&& ledger.credit_facilities.contains_key(guarantee.defmi_facility_id)
                &&& request.claim_amount_commitment == guarantee.coverage_commitment
                &&& delivered(ledger, request)
                &&& surrendered(ledger, request)
                &&& instructed(ledger, submitted, timestamp)
                &&& claim_bound(ledger, request, submitted.decoded->Ok_0)
                &&& ledger.aethel.default_attestations@.contains_key(
                    request.default_attestation_id,
                )
                &&& reserved_in_book(ledger, guarantee)
                &&& hold_attested(
                    ledger,
                    guarantee,
                    HoldStatus::Consumed,
                    request.defmi_settlement_digest,
                )
                &&& answer.question is Claim
                &&& binds(ledger, consumption.binding, guarantee)
                &&& consumption.issuance_id == request.issuance_id
                &&& consumption.default_event_digest == attestation.event_digest
                &&& ends_reservation(
                    ledger,
                    consumption.transition,
                    guarantee,
                    3,
                    request.operation_id,
                    request.relation_proof_digest,
                    request.defmi_settlement_digest,
                    timestamp,
                )
                &&& cleared_by(ledger, answer, timestamp)
                &&& answered(
                    ledger,
                    call,
                    BookQuestion::Claim { request },
                    request.operation_id,
                    timestamp,
                )
                &&& book.guarantee_claims@.contains_key(request.claim_id)
                &&& book.guarantee_claims@[request.claim_id] == request
                &&& book.guarantee_statuses@.contains_key(request.guarantee_id)
                &&& book.guarantee_statuses@[request.guarantee_id] == GuaranteeStatus::Claimed
            }
            &&& outcome.result is Ok ==> books_replaced(
                ledger,
                outcome.ledger,
                call,
                answer,
                request.operation_id,
            )
        }),
{
    let guarantee = ledger.aethel.guarantees@[request.guarantee_id];
    let expected = consumption_of(ledger, request, timestamp);
    let consumption = answer.question->consumption;
    law_when_an_instruction_is_taken(ledger, submitted, timestamp);
    lemma_claim_bound(ledger, request, submitted.decoded->Ok_0);
    assert(binds(ledger, expected.binding, guarantee));
    if reserved_in_book(ledger, guarantee) {
        assert(ends_reservation(
            ledger,
            expected.transition,
            guarantee,
            3,
            request.operation_id,
            request.relation_proof_digest,
            request.defmi_settlement_digest,
            timestamp,
        ));
        if answer.question is Claim && binds(ledger, consumption.binding, guarantee)
            && ends_reservation(
            ledger,
            consumption.transition,
            guarantee,
            3,
            request.operation_id,
            request.relation_proof_digest,
            request.defmi_settlement_digest,
            timestamp,
        ) {
            assert(consumption.binding == expected.binding);
            assert(consumption.transition.receipt == expected.transition.receipt);
            assert(consumption.transition == expected.transition);
        }
    }
}

/// Whether a note on an active cash asset is locked for a purpose, and a digest is its
/// value.
pub open spec fn cash_locked(ledger: Ledger, note_id: Id, lock_id: Id, proof_digest: Id) -> bool {
    let note = ledger.notes[note_id];
    &&& ledger.notes.contains_key(note_id)
    &&& ledger.assets.contains_key(note.asset_id)
    &&& ledger.assets[note.asset_id].active
    &&& ledger.assets[note.asset_id].kind == AssetKind::Cash
    &&& note.lock_id == lock_id
    &&& note.value_commitment == proof_digest
}

/// The machine takes a note as locked for a purpose exactly where it is.
pub proof fn law_when_cash_is_locked(
    ledger: Ledger,
    note_id: Id,
    lock_id: Id,
    proof_digest: Id,
    what: Seq<char>,
)
    ensures
        (cash_lock_refusal(ledger, note_id, lock_id, proof_digest, what) is None) == cash_locked(
            ledger,
            note_id,
            lock_id,
            proof_digest,
        ),
{
}

/// Whether a transaction on the clearing book alone was carried out.
pub open spec fn clearing_replaced(
    ledger: Ledger,
    after: Ledger,
    answer: ClearingAnswer,
    operation_id: Id,
    statement: Id,
) -> bool {
    after == (Ledger {
        deccp: Some(*answer.book->Ok_0),
        operations: ledger.operations.insert(operation_id, statement),
        ..ledger
    })
}

/// The clearing book is opened exactly where that is well formed, approved by the
/// digest of its encoding, and new, there is none yet, its capital is locked in cash
/// for it and has not expired, and an empty book over that capital was asked for and
/// made.
pub proof fn law_when_the_clearing_book_is_opened(
    ledger: Ledger,
    request: ClearingBookRegistration,
    opened: ClearingAnswer,
    submission: Submission,
    timestamp: u64,
)
    ensures
        ({
            let outcome = action_outcome(
                ledger,
                Action::IssueDeccpClearingBook { request, opened },
                submission,
                timestamp,
            );
            let encoded = request.encoded->Ok_0@;
            let statement = Id(
                sha256(
                    encode_utf8("AETHEL-DECCP:CLEARING-BOOK:v1"@) + be_bytes(
                        encoded.len() as int,
                        8,
                    ) + encoded,
                ),
            );
            let capital = request.capitalization;
            let book = *opened.book->Ok_0;
            &&& (outcome.result is Ok) == {
                &&& request.authorities is Ok
                &&& request.encoded is Ok
                &&& entered(ledger, Ok(statement), submission, request.operation_id)
                &&& ledger.deccp is None
                &&& timestamp <= capital.valid_until
                &&& cash_locked(
                    ledger,
                    capital.defmi_lock_id,
                    Id(sha256(encode_utf8("AETHEL-DECCP:CCP-CAPITAL-LOCK:v1"@))),
                    capital.proof_digest,
                )
                &&& opened.now == timestamp
                &&& opened.question == (ClearingQuestion::Open {
                    statement,
                    capitalization: capital,
                })
                &&& opened.book is Ok
                &&& book.capital_lock == capital.defmi_lock_id
                &&& forall|id: Id| !(#[trigger] book.facilities@.contains_key(id))
                &&& forall|id: Id| !(#[trigger] book.holds@.contains_key(id))
                &&& forall|id: Id| !(#[trigger] book.members@.contains_key(id))
            }
            &&& outcome.result is Ok ==> clearing_replaced(
                ledger,
                outcome.ledger,
                opened,
                request.operation_id,
                statement,
            )
        }),
{
}

/// Whether a presentation proves the subject line of an admission: by an active
/// credential issuer, found in the directory, verified in the context of the
/// admission under its policy at a time, for as long as the admission lasts.
pub open spec fn subject_proved(
    ledger: Ledger,
    request: ParticipantAdmission,
    presentation: PresentationFindings,
    timestamp: u64,
) -> bool {
    let evidence = request.eligibility;
    let provider = ledger.aethel.providers@[evidence.provider_id];
    let key = Numbered { scope: presentation.issuer_id, number: presentation.issuer_key_epoch };
    let verified = presentation.verified->Ok_0;
    &&& presentation.issuer_id == evidence.provider_id
    &&& ledger.aethel.providers@.contains_key(evidence.provider_id)
    &&& provider.status == ProviderStatus::Active
    &&& provider.capabilities@.contains(ProviderCapability::CredentialIssuer)
    &&& provider.valid_from <= timestamp <= provider.valid_until
    &&& ledger.aethel.credential_issuers@.contains_key(key)
    &&& presentation.issuer == ledger.aethel.credential_issuers@[key]
    &&& presentation.status_list is Some == ledger.aethel.status_lists@.contains_key(key)
    &&& presentation.status_list is Some ==> {
        let list = *presentation.status_list->0;
        let published = ledger.aethel.status_lists@[key];
        &&& list.status_epoch == published.status_epoch
        &&& list.valid_from == published.valid_from
        &&& list.valid_until == published.valid_until
        &&& list.revoked@ == published.revoked@
    }
    &&& presents(ledger.deccp->0, request, presentation.context)
    &&& presentation.policy_digest == evidence.policy_digest
    &&& presentation.now == timestamp
    &&& presentation.verified is Ok
    &&& verified.subject_line_id == evidence.subject_line_id
    &&& verified.policy_digest == evidence.policy_digest
    &&& evidence.valid_until <= verified.valid_until
    &&& presentation.digest == Ok::<Id, String>(evidence.evidence_digest)
}

/// Whether a context is that of an admission to a clearing book: its request is the
/// digest of everything that is asked for, its audience the book, its challenge the
/// operation, and it lasts as long as the evidence.
pub open spec fn presents(
    book: ClearingBook,
    request: ParticipantAdmission,
    context: PresentationContext,
) -> bool {
    let evidence = request.eligibility;
    &&& context.scope_digest.0 == sha256(
        encode_utf8("AETHEL-DECCP:CLEARING-MEMBERSHIP-SCOPE:v1"@),
    )
    &&& context.audience_digest.0 == sha256(
        encode_utf8("AETHEL-DECCP:CLEARING-MEMBERSHIP-AUDIENCE:v1"@) + book.capital_lock.0@,
    )
    &&& context.action_digest.0 == sha256(encode_utf8("AETHEL-DECCP:ACTION:ADMISSION:v1"@))
    &&& context.request_digest.0 == sha256(
        encode_utf8("AETHEL-DECCP:ADMISSION-REQUEST:v1"@) + request.participant_id.0@
            + request.settlement_participant_id.0@ + evidence.provider_id.0@
            + evidence.policy_digest.0@ + be_bytes(evidence.valid_until as int, 8)
            + request.default_fund_contribution@ + request.default_fund_defmi_lock_id.0@
            + request.default_fund_proof_digest.0@ + be_bytes(request.admitted_at as int, 8),
    )
    &&& context.challenge_nonce == request.operation_id
    &&& context.valid_until == evidence.valid_until
}

/// Evidence other than what an admission carries does not prove its subject line, and
/// what it carries does exactly where the subject line is proved.
pub proof fn law_when_a_subject_line_is_proved(
    ledger: Ledger,
    request: ParticipantAdmission,
    presentation: PresentationFindings,
    evidence: EligibilityAttestation,
    timestamp: u64,
)
    ensures
        (admission_evidence_refusal(
            ledger,
            ledger.deccp->0,
            request,
            presentation,
            evidence,
            timestamp,
        ) is None) == (evidence == request.eligibility && subject_proved(
            ledger,
            request,
            presentation,
            timestamp,
        )),
{
    let expected = context_of(ledger.deccp->0, request);
    assert(presents(ledger.deccp->0, request, expected));
    if presents(ledger.deccp->0, request, presentation.context) {
        assert(presentation.context == expected);
    }
}

/// A clearing member is admitted exactly where that is approved, new and well formed,
/// it is an active guarantor provider of the participant that is named, its subject
/// line is proved, its default fund is locked in cash for it, and the clearing book was
/// asked to admit and admitted exactly that.
pub proof fn law_when_a_member_is_admitted(
    ledger: Ledger,
    request: ParticipantAdmission,
    statement: Result<Id, String>,
    parsed: Result<(), String>,
    presentation: PresentationFindings,
    admitted: ClearingAnswer,
    submission: Submission,
    timestamp: u64,
)
    ensures
        ({
            let outcome = action_outcome(
                ledger,
                Action::IssueDeccpMember { request, statement, parsed, presentation, admitted },
                submission,
                timestamp,
            );
            let provider = ledger.aethel.providers@[request.participant_id];
            let fund = Id(
                sha256(
                    encode_utf8("AETHEL-DECCP:DEFAULT-FUND-LOCK:v1"@)
                        + request.participant_id.0@,
                ),
            );
            &&& (outcome.result is Ok) == {
                &&& entered(ledger, statement, submission, request.operation_id)
                &&& parsed is Ok
                &&& ledger.aethel.providers@.contains_key(request.participant_id)
                &&& provider.status == ProviderStatus::Active
                &&& provider.capabilities@.contains(ProviderCapability::Guarantor)
                &&& provider.valid_from <= timestamp <= provider.valid_until
                &&& provider.participant_id == request.settlement_participant_id
                &&& ledger.deccp is Some
                &&& subject_proved(ledger, request, presentation, timestamp)
                &&& cash_locked(
                    ledger,
                    request.default_fund_defmi_lock_id,
                    fund,
                    request.default_fund_proof_digest,
                )
                &&& admitted.question is Admit
                &&& admitted.question->Admit_statement == statement->Ok_0
                &&& presents(ledger.deccp->0, request, admitted.question->context)
                &&& admitted.question->participant_id == request.participant_id
                &&& admitted.question->subject_line_id == request.eligibility.subject_line_id
                &&& cleared_by(ledger, admitted, timestamp)
            }
            &&& outcome.result is Ok ==> clearing_replaced(
                ledger,
                outcome.ledger,
                admitted,
                request.operation_id,
                statement->Ok_0,
            )
        }),
{
    let expected = context_of(ledger.deccp->0, request);
    assert(presents(ledger.deccp->0, request, expected));
    if presents(ledger.deccp->0, request, presentation.context) {
        assert(presentation.context == expected);
    }
    if presents(ledger.deccp->0, request, admitted.question->context) {
        assert(admitted.question->context == expected);
    }
}

/// A clearing facility is registered exactly where that is approved, new and well
/// formed, it is a live credit facility that lasts as long, it starts from that
/// facility's limit and collateral, and the clearing book was asked to register and
/// registered exactly it.
pub proof fn law_when_a_clearing_facility_is_registered(
    ledger: Ledger,
    operation_id: Id,
    facility: ConfidentialFacility,
    statement: Id,
    parsed: Result<(), String>,
    registered: ClearingAnswer,
    submission: Submission,
    timestamp: u64,
)
    ensures
        ({
            let outcome = action_outcome(
                ledger,
                Action::IssueDeccpGuaranteeFacility {
                    operation_id,
                    facility,
                    statement,
                    parsed,
                    registered,
                },
                submission,
                timestamp,
            );
            let record = ledger.credit_facilities[facility.defmi_facility_id];
            &&& (outcome.result is Ok) == {
                &&& entered(ledger, Ok(statement), submission, operation_id)
                &&& parsed is Ok
                &&& ledger.deccp is Some
                &&& describes_facility(ledger, facility)
                &&& record.status == FacilityStatus::Active
                &&& record.valid_from <= timestamp
                &&& facility.valid_until <= record.valid_until
                &&& facility.latest_facility_state_digest.0 == sha256(
                    encode_utf8("AETHEL-DECCP:FACILITY-STATE:v1"@) + facility.defmi_facility_id.0@
                        + record.cap_commitment.0@ + record.collateral_commitment.0@,
                )
                &&& registered.question == (ClearingQuestion::Register { operation_id, facility })
                &&& cleared_by(ledger, registered, timestamp)
            }
            &&& outcome.result is Ok ==> clearing_replaced(
                ledger,
                outcome.ledger,
                registered,
                operation_id,
                statement,
            )
        }),
{
}

} // verus!
