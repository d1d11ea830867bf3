//! When guarantees are given and withdrawn, and what the clearing book is asked and
//! does.

use vstd::prelude::*;
use vstd::utf8::encode_utf8;

use crate::aethel_book::{GuaranteeCommitment, GuaranteeStatus, LossLayer, ProviderCapability};
use crate::bytes::be_bytes;
use crate::clearing_book::{
    keeps_clearing_book, ClearingBook, ClearingHoldStatus, ConfidentialFacility, ConfidentialHold,
};
use crate::crypto::sha256;
use crate::endorsement::Submission;
use crate::execution::book_question::{BookCall, BookQuestion};
use crate::execution::clearing_question::{
    fulfils, touched_facility, touched_hold, touched_member, ClearingAnswer, ClearingQuestion,
};
use crate::execution::deccp::{
    claim_receipt_refusal, guarantee_hold_refusal, release_receipt_refusal, ConfidentialRequest,
    ConfidentialReservation, PresentationContext,
};
use crate::execution::issuance::GuaranteeConsumption;
use crate::execution::receivable_laws::{
    answered, entered, guarantee_backed, law_what_backs_a_guarantee, law_who_may_act, may_act,
};
use crate::execution::receivables::{
    offer_of, release_binding, release_transition, ClearingLossLayer, GuaranteeBinding,
    GuaranteeOffer, GuaranteeRelease, GuaranteeTransition,
};
use crate::execution::{action_outcome, Action};
use crate::id::Id;
use crate::state::{FacilityStatus, HoldStatus, Ledger};
use crate::table::{agrees, only};

verus! {

/// Whether a clearing facility is the credit facility of its name: of the guarantor
/// behind its provider, on its asset, with its capacity, for its beneficiary.
pub open spec fn describes_facility(ledger: Ledger, facility: ConfidentialFacility) -> bool {
    let record = ledger.credit_facilities[facility.defmi_facility_id];
    &&& facility.facility_id == facility.defmi_facility_id
    &&& ledger.credit_facilities.contains_key(facility.defmi_facility_id)
    &&& ledger.aethel.providers@.contains_key(facility.guarantor_id)
    &&& ledger.aethel.providers@[facility.guarantor_id].defmi_guarantor_id == Some(
        record.guarantor_id,
    )
    &&& facility.settlement_asset_id == record.rail_asset_id
    &&& facility.capacity_commitment == record.cap_commitment
    &&& facility.beneficiary_subject_line_id == record.beneficiary_commitment
}

/// Whether a digest is that of a facility's state after a change of a hold: a
/// reservation is numbered one, a release two, a claim three.
pub open spec fn follows_state(
    digest: Id,
    previous: Id,
    number: u8,
    hold_id: Id,
    amount_commitment: Id,
    sequence: u64,
) -> bool {
    digest.0 == sha256(
        encode_utf8("AETHEL-DECCP:FACILITY-TRANSITION:v1"@) + previous.0@ + seq![number]
            + hold_id.0@ + amount_commitment.0@ + be_bytes(sequence as int, 8),
    )
}

/// Whether a layer is the clearing book's name of a loss layer.
pub open spec fn names_layer(layer: ClearingLossLayer, loss_layer: LossLayer) -> bool {
    &&& (layer == ClearingLossLayer::FirstLoss) == (loss_layer == LossLayer::FirstLoss)
    &&& (layer == ClearingLossLayer::PariPassu) == (loss_layer == LossLayer::PariPassu)
    &&& (layer == ClearingLossLayer::Excess) == (loss_layer == LossLayer::Excess)
}

/// Whether an offer is that of a guarantee on the clearing facility as it is.
pub open spec fn offers(
    ledger: Ledger,
    offer: GuaranteeOffer,
    guarantee: GuaranteeCommitment,
) -> bool {
    let facility = ledger.deccp->0.facilities@[guarantee.defmi_facility_id];
    let hold = ledger.credit_holds[guarantee.defmi_hold_id];
    &&& offer.operation_id == guarantee.operation_id
    &&& offer.guarantee_id == guarantee.guarantee_id
    &&& offer.request_id == guarantee.request_id
    &&& offer.provider_id == guarantee.provider_id
    &&& offer.series_id == guarantee.series_id
    &&& offer.stream_state_version == guarantee.stream_state_version
    &&& offer.stream_state_root == guarantee.stream_state_root
    &&& offer.credit_decision_id == guarantee.credit_decision_id
    &&& offer.deccp_facility_id == facility.facility_id
    &&& offer.deccp_expected_sequence == facility.sequence
    &&& offer.deccp_expected_state_digest == facility.latest_facility_state_digest
    &&& follows_state(
        offer.deccp_after_state_digest,
        facility.latest_facility_state_digest,
        1,
        guarantee.defmi_hold_id,
        guarantee.coverage_commitment,
        hold.created_sequence,
    )
    &&& offer.deccp_hold_id == guarantee.guarantee_id
    &&& offer.defmi_facility_id == guarantee.defmi_facility_id
    &&& offer.defmi_hold_id == guarantee.defmi_hold_id
    &&& offer.coverage_commitment == guarantee.coverage_commitment
    &&& offer.beneficiary_subject_line_id == facility.beneficiary_subject_line_id
    &&& names_layer(offer.loss_layer, guarantee.loss_layer)
    &&& offer.guarantee_terms_digest == guarantee.guarantee_terms_digest
    &&& offer.claim_policy_digest == guarantee.claim_policy_digest
    &&& offer.relation_proof_digest == guarantee.relation_proof_digest
    &&& offer.valid_until == guarantee.valid_until
    &&& offer.nonce == guarantee.nonce
}

/// Whether a binding is that of a guarantee with its reservation in the clearing book.
pub open spec fn binds(
    ledger: Ledger,
    binding: GuaranteeBinding,
    guarantee: GuaranteeCommitment,
) -> bool {
    let hold = ledger.deccp->0.holds@[guarantee.guarantee_id];
    &&& binding.guarantee_id == guarantee.guarantee_id
    &&& binding.request_id == guarantee.request_id
    &&& binding.provider_id == guarantee.provider_id
    &&& binding.series_id == guarantee.series_id
    &&& binding.stream_state_version == guarantee.stream_state_version
    &&& binding.stream_state_root == guarantee.stream_state_root
    &&& binding.credit_decision_id == guarantee.credit_decision_id
    &&& binding.deccp_facility_id == hold.facility_id
    &&& binding.deccp_hold_id == hold.hold_id
    &&& binding.defmi_facility_id == guarantee.defmi_facility_id
    &&& binding.defmi_hold_id == guarantee.defmi_hold_id
    &&& binding.coverage_commitment == guarantee.coverage_commitment
    &&& names_layer(binding.loss_layer, guarantee.loss_layer)
    &&& binding.guarantee_terms_digest == guarantee.guarantee_terms_digest
    &&& binding.claim_policy_digest == guarantee.claim_policy_digest
    &&& binding.relation_proof_digest == guarantee.relation_proof_digest
    &&& binding.valid_until == guarantee.valid_until
    &&& binding.nonce == guarantee.nonce
}

/// Whether the clearing book reserves what a guarantee is about.
pub open spec fn reserved_in_book(ledger: Ledger, guarantee: GuaranteeCommitment) -> bool {
    let hold = ledger.deccp->0.holds@[guarantee.guarantee_id];
    &&& ledger.deccp is Some
    &&& ledger.deccp->0.holds@.contains_key(guarantee.guarantee_id)
    &&& hold.defmi_hold_id == guarantee.defmi_hold_id
    &&& hold.coverage_commitment == guarantee.coverage_commitment
    &&& hold.facility_id == guarantee.defmi_facility_id
}

/// Whether a transition ends the reservation of a guarantee by a settlement, on the
/// clearing facility as it is.
pub open spec fn ends_reservation(
    ledger: Ledger,
    transition: GuaranteeTransition,
    guarantee: GuaranteeCommitment,
    number: u8,
    operation_id: Id,
    proof_digest: Id,
    settlement_digest: Id,
    timestamp: u64,
) -> bool {
    let facility = ledger.deccp->0.facilities@[guarantee.defmi_facility_id];
    &&& transition.operation_id == operation_id
    &&& transition.deccp_expected_sequence == facility.sequence
    &&& transition.deccp_expected_state_digest == facility.latest_facility_state_digest
    &&& follows_state(
        transition.deccp_after_state_digest,
        facility.latest_facility_state_digest,
        number,
        guarantee.defmi_hold_id,
        guarantee.coverage_commitment,
        ledger.credit_holds[guarantee.defmi_hold_id].updated_sequence,
    )
    &&& transition.transition_proof_digest == proof_digest
    &&& transition.receipt.receipt_digest == settlement_digest
    &&& transition.receipt.context_digest == Id::zero()
    &&& transition.receipt.finalized_at == timestamp
}

/// Whether the hold behind a guarantee ended in a status by a settlement, with its
/// amount, on the facility that the clearing book has for it.
pub open spec fn hold_attested(
    ledger: Ledger,
    guarantee: GuaranteeCommitment,
    status: HoldStatus,
    settlement_digest: Id,
) -> bool {
    let facility = ledger.deccp->0.facilities@[guarantee.defmi_facility_id];
    let hold = ledger.credit_holds[guarantee.defmi_hold_id];
    &&& ledger.deccp->0.facilities@.contains_key(guarantee.defmi_facility_id)
    &&& describes_facility(ledger, facility)
    &&& ledger.credit_holds.contains_key(guarantee.defmi_hold_id)
    &&& hold.facility_id == facility.defmi_facility_id
    &&& hold.amount_commitment == guarantee.coverage_commitment
    &&& hold.status == status
    &&& hold.settlement_digest == settlement_digest
    &&& settlement_digest != Id::zero()
}

/// Whether the clearing book answered its question at a time with a book that does
/// what was asked.
pub open spec fn cleared_by(ledger: Ledger, answer: ClearingAnswer, timestamp: u64) -> bool {
    &&& answer.now == timestamp
    &&& answer.book is Ok
    &&& fulfils(ledger.deccp, answer.question, *answer.book->Ok_0)
}

/// Whether a transaction on both books was carried out: the ledger has the books that
/// answered and the operation, and is otherwise as it was.
pub open spec fn books_replaced(
    ledger: Ledger,
    after: Ledger,
    call: BookCall,
    answer: ClearingAnswer,
    operation_id: Id,
) -> bool {
    after == (Ledger {
        aethel: *call.recorded->Ok_0,
        deccp: Some(*answer.book->Ok_0),
        operations: ledger.operations.insert(operation_id, call.statement->Ok_0),
        ..ledger
    })
}

/// A guarantee is recorded exactly where that is approved and new, the guarantor may
/// act, the guarantee is backed, the clearing book clears its facility, which is the
/// credit facility of the hold, and was asked for and made exactly its reservation,
/// and the book that was asked has it open, with its subject where there is one.
pub proof fn law_when_a_guarantee_is_recorded(
    ledger: Ledger,
    request: GuaranteeCommitment,
    answer: ClearingAnswer,
    subject: Result<bool, String>,
    call: BookCall,
    submission: Submission,
    timestamp: u64,
)
    ensures
        ({
            let outcome = action_outcome(
                ledger,
                Action::IssueAethelGuarantee { request, answer, subject, call },
                submission,
                timestamp,
            );
            let book = *call.recorded->Ok_0;
            let facility = ledger.deccp->0.facilities@[request.defmi_facility_id];
            &&& (outcome.result is Ok) == {
                &&& entered(ledger, call.statement, submission, request.operation_id)
                &&& may_act(
                    ledger,
                    request.provider_id,
                    ProviderCapability::Guarantor,
                    timestamp,
                )
                &&& guarantee_backed(ledger, request, timestamp)
                &&& ledger.deccp is Some
                &&& ledger.deccp->0.facilities@.contains_key(request.defmi_facility_id)
                &&& describes_facility(ledger, facility)
                &&& facility.defmi_facility_id == request.defmi_facility_id
                &&& answer.question is Reserve
                &&& offers(ledger, answer.question->offer, request)
                &&& cleared_by(ledger, answer, timestamp)
                &&& subject is Ok
                &&& answered(
                    ledger,
                    call,
                    BookQuestion::RecordGuarantee { request },
                    request.operation_id,
                    timestamp,
                )
                &&& book.guarantees@.contains_key(request.guarantee_id)
                &&& book.guarantees@[request.guarantee_id] == request
                &&& book.guarantee_statuses@.contains_key(request.guarantee_id)
                &&& book.guarantee_statuses@[request.guarantee_id] == GuaranteeStatus::Open
                &&& subject == Ok::<bool, String>(true)
                    ==> book.confidential_subjects@.contains_key(request.request_id)
            }
            &&& outcome.result is Ok ==> books_replaced(
                ledger,
                outcome.ledger,
                call,
                answer,
                request.operation_id,
            )
        }),
{
    law_who_may_act(ledger, request.provider_id, ProviderCapability::Guarantor, timestamp);
    law_what_backs_a_guarantee(ledger, request, timestamp);
    let offer = offer_of(ledger, ledger.deccp->0, request);
    assert(offers(ledger, offer, request));
    if answer.question is Reserve && offers(ledger, answer.question->offer, request) {
        assert(answer.question->offer == offer);
    }
}

/// A guarantee is withdrawn exactly where that is approved and new, the guarantor may
/// act, the hold behind the guarantee was released by the settlement that is named,
/// the clearing book has its reservation and was asked for and made exactly its
/// release, and the book that was asked has it released.
pub proof fn law_when_a_guarantee_is_withdrawn(
    ledger: Ledger,
    request: GuaranteeRelease,
    answer: ClearingAnswer,
    call: BookCall,
    submission: Submission,
    timestamp: u64,
)
    ensures
        ({
            let outcome = action_outcome(
                ledger,
                Action::IssueAethelGuaranteeRelease { request, answer, call },
                submission,
                timestamp,
            );
            let book = *call.recorded->Ok_0;
            let guarantee = ledger.aethel.guarantees@[request.guarantee_id];
            &&& (outcome.result is Ok) == {
                &&& entered(ledger, call.statement, submission, request.operation_id)
                &&& may_act(
                    ledger,
                    request.provider_id,
                    ProviderCapability::Guarantor,
                    timestamp,
                )
                &&& ledger.aethel.guarantees@.contains_key(request.guarantee_id)
                &&& reserved_in_book(ledger, guarantee)
                &&& hold_attested(
                    ledger,
                    guarantee,
                    HoldStatus::Released,
                    request.defmi_settlement_digest,
                )
                &&& answer.question is Release
                &&& binds(ledger, answer.question->Release_binding, guarantee)
                &&& ends_reservation(
                    ledger,
                    answer.question->transition,
                    guarantee,
                    2,
                    request.operation_id,
                    request.relation_proof_digest,
                    request.defmi_settlement_digest,
                    timestamp,
                )
                &&& cleared_by(ledger, answer, timestamp)
                &&& answered(
                    ledger,
                    call,
                    BookQuestion::ReleaseGuarantee { request },
                    request.operation_id,
                    timestamp,
                )
                &&& book.guarantee_statuses@.contains_key(request.guarantee_id)
                &&& book.guarantee_statuses@[request.guarantee_id] == GuaranteeStatus::Released
            }
            &&& outcome.result is Ok ==> books_replaced(
                ledger,
                outcome.ledger,
                call,
                answer,
                request.operation_id,
            )
        }),
{
    law_who_may_act(ledger, request.provider_id, ProviderCapability::Guarantor, timestamp);
    let guarantee = ledger.aethel.guarantees@[request.guarantee_id];
    let binding = release_binding(ledger, request);
    let transition = release_transition(ledger, request, timestamp);
    assert(binds(ledger, binding, guarantee));
    if reserved_in_book(ledger, guarantee) {
        assert(ends_reservation(
            ledger,
            transition,
            guarantee,
            2,
            request.operation_id,
            request.relation_proof_digest,
            request.defmi_settlement_digest,
            timestamp,
        ));
        if answer.question is Release && binds(
            ledger,
            answer.question->Release_binding,
            guarantee,
        ) && ends_reservation(
            ledger,
            answer.question->transition,
            guarantee,
            2,
            request.operation_id,
            request.relation_proof_digest,
            request.defmi_settlement_digest,
            timestamp,
        ) {
            assert(answer.question->Release_binding == binding);
            assert(answer.question->transition.receipt == transition.receipt);
            assert(answer.question->transition == transition);
        }
    }
}

/// Whether two maps agree everywhere but under one key.
pub open spec fn elsewhere_same<V>(before: Map<Id, V>, after: Map<Id, V>, id: Id) -> bool {
    forall|key: Id|
        #![trigger before.contains_key(key)]
        #![trigger after.contains_key(key)]
        key != id ==> {
            &&& after.contains_key(key) == before.contains_key(key)
            &&& before.contains_key(key) ==> after[key] == before[key]
        }
}

/// Whether two maps agree everywhere.
pub open spec fn everywhere_same<V>(before: Map<Id, V>, after: Map<Id, V>) -> bool {
    forall|key: Id|
        #![trigger before.contains_key(key)]
        #![trigger after.contains_key(key)]
        {
            &&& after.contains_key(key) == before.contains_key(key)
            &&& before.contains_key(key) ==> after[key] == before[key]
        }
}

/// Whether a facility of the clearing book went one step on to a state and is
/// otherwise as it was.
pub open spec fn stepped(before: ClearingBook, after: ClearingBook, id: Id, digest: Id) -> bool {
    let facility = before.facilities@[id];
    let next = after.facilities@[id];
    &&& before.facilities@.contains_key(id)
    &&& after.facilities@.contains_key(id)
    &&& next.sequence == facility.sequence + 1
    &&& next.latest_facility_state_digest == digest
    &&& facility == (ConfidentialFacility {
        sequence: facility.sequence,
        latest_facility_state_digest: facility.latest_facility_state_digest,
        ..next
    })
}

/// Whether the reservation of a binding stood as reserved, bound to `was`, and now has
/// a status, a bond and a receipt and is otherwise as it was.
pub open spec fn reservation_moved(
    before: ClearingBook,
    after: ClearingBook,
    binding: GuaranteeBinding,
    was: Option<Id>,
    status: ClearingHoldStatus,
    bound: Option<Id>,
    receipt: Option<Id>,
) -> bool {
    let held = before.holds@[binding.deccp_hold_id];
    let hold = after.holds@[binding.deccp_hold_id];
    &&& before.holds@.contains_key(binding.deccp_hold_id)
    &&& after.holds@.contains_key(binding.deccp_hold_id)
    &&& held.status == ClearingHoldStatus::Reserved
    &&& held.bound_exposure_id == was
    &&& held.facility_id == binding.deccp_facility_id
    &&& held.defmi_hold_id == binding.defmi_hold_id
    &&& held.coverage_commitment == binding.coverage_commitment
    &&& hold.status == status
    &&& hold.bound_exposure_id == bound
    &&& hold.defmi_settlement_receipt == receipt
    &&& held == (ConfidentialHold {
        status: held.status,
        bound_exposure_id: held.bound_exposure_id,
        defmi_settlement_receipt: held.defmi_settlement_receipt,
        ..hold
    })
}

/// A clearing book over the same capital that has lost nothing reserves an offer
/// exactly where it holds the offer's reservation, unbound and unsettled, its facility
/// went one step on, and nothing else changed.
pub proof fn law_what_a_reservation_clears(
    before: ClearingBook,
    offer: GuaranteeOffer,
    after: ClearingBook,
)
    requires
        keeps_clearing_book(before, after),
    ensures
        fulfils(Some(before), ClearingQuestion::Reserve { offer }, after) == {
            let hold = after.holds@[offer.deccp_hold_id];
            &&& after.holds@.contains_key(offer.deccp_hold_id)
            &&& hold.hold_id == offer.deccp_hold_id
            &&& hold.facility_id == offer.deccp_facility_id
            &&& hold.defmi_hold_id == offer.defmi_hold_id
            &&& hold.coverage_commitment == offer.coverage_commitment
            &&& hold.status == ClearingHoldStatus::Reserved
            &&& hold.bound_exposure_id is None
            &&& hold.defmi_settlement_receipt is None
            &&& stepped(
                before,
                after,
                offer.deccp_facility_id,
                offer.deccp_after_state_digest,
            )
            &&& elsewhere_same(before.facilities@, after.facilities@, offer.deccp_facility_id)
            &&& elsewhere_same(before.holds@, after.holds@, offer.deccp_hold_id)
            &&& everywhere_same(before.members@, after.members@)
        },
{
    reveal(agrees);
    let question = ClearingQuestion::Reserve { offer };
    lemma_agreement(before, question, after);
}

/// It binds a guarantee to an issuance exactly where the unbound reservation is now
/// bound to it, and nothing else changed.
pub proof fn law_what_a_binding_clears(
    before: ClearingBook,
    operation_id: Id,
    binding: GuaranteeBinding,
    issuance_id: Id,
    after: ClearingBook,
)
    requires
        keeps_clearing_book(before, after),
    ensures
        fulfils(
            Some(before),
            ClearingQuestion::Bind { operation_id, binding, issuance_id },
            after,
        ) == {
            &&& reservation_moved(
                before,
                after,
                binding,
                None,
                ClearingHoldStatus::Reserved,
                Some(issuance_id),
                None,
            )
            &&& everywhere_same(before.facilities@, after.facilities@)
            &&& elsewhere_same(before.holds@, after.holds@, binding.deccp_hold_id)
            &&& everywhere_same(before.members@, after.members@)
        },
{
    lemma_agreement(
        before,
        ClearingQuestion::Bind { operation_id, binding, issuance_id },
        after,
    );
}

/// It releases a reservation exactly where the unbound reservation is now released
/// under the receipt, its facility went one step on, and nothing else changed.
pub proof fn law_what_a_release_clears(
    before: ClearingBook,
    binding: GuaranteeBinding,
    transition: GuaranteeTransition,
    after: ClearingBook,
)
    requires
        keeps_clearing_book(before, after),
    ensures
        fulfils(Some(before), ClearingQuestion::Release { binding, transition }, after) == {
            &&& reservation_moved(
                before,
                after,
                binding,
                None,
                ClearingHoldStatus::Released,
                None,
                Some(transition.receipt.receipt_digest),
            )
            &&& stepped(
                before,
                after,
                binding.deccp_facility_id,
                transition.deccp_after_state_digest,
            )
            &&& elsewhere_same(before.facilities@, after.facilities@, binding.deccp_facility_id)
            &&& elsewhere_same(before.holds@, after.holds@, binding.deccp_hold_id)
            &&& everywhere_same(before.members@, after.members@)
        },
{
    lemma_agreement(before, ClearingQuestion::Release { binding, transition }, after);
}

/// It consumes a reservation exactly where the one that was bound to the issuance is
/// now consumed under the receipt, its facility went one step on, and nothing else
/// changed.
pub proof fn law_what_a_claim_clears(
    before: ClearingBook,
    consumption: GuaranteeConsumption,
    after: ClearingBook,
)
    requires
        keeps_clearing_book(before, after),
    ensures
        fulfils(Some(before), ClearingQuestion::Claim { consumption }, after) == {
            let binding = consumption.binding;
            &&& reservation_moved(
                before,
                after,
                binding,
                Some(consumption.issuance_id),
                ClearingHoldStatus::Consumed,
                Some(consumption.issuance_id),
                Some(consumption.transition.receipt.receipt_digest),
            )
            &&& stepped(
                before,
                after,
                binding.deccp_facility_id,
                consumption.transition.deccp_after_state_digest,
            )
            &&& elsewhere_same(before.facilities@, after.facilities@, binding.deccp_facility_id)
            &&& elsewhere_same(before.holds@, after.holds@, binding.deccp_hold_id)
            &&& everywhere_same(before.members@, after.members@)
        },
{
    lemma_agreement(before, ClearingQuestion::Claim { consumption }, after);
}

/// It admits a member exactly where the member is now under its subject line, and
/// registers a facility exactly where that is now as given. Nothing else changed.
pub proof fn law_what_an_entry_clears(
    before: ClearingBook,
    statement: Id,
    context: PresentationContext,
    participant_id: Id,
    subject_line_id: Id,
    operation_id: Id,
    facility: ConfidentialFacility,
    after: ClearingBook,
)
    requires
        keeps_clearing_book(before, after),
    ensures
        fulfils(
            Some(before),
            ClearingQuestion::Admit { statement, context, participant_id, subject_line_id },
            after,
        ) == {
            &&& after.members@.contains_key(participant_id)
            &&& after.members@[participant_id].subject_line_id == subject_line_id
            &&& everywhere_same(before.facilities@, after.facilities@)
            &&& everywhere_same(before.holds@, after.holds@)
            &&& elsewhere_same(before.members@, after.members@, participant_id)
        },
        fulfils(
            Some(before),
            ClearingQuestion::Register { operation_id, facility },
            after,
        ) == {
            &&& after.facilities@.contains_key(facility.facility_id)
            &&& after.facilities@[facility.facility_id] == facility
            &&& elsewhere_same(before.facilities@, after.facilities@, facility.facility_id)
            &&& everywhere_same(before.holds@, after.holds@)
            &&& everywhere_same(before.members@, after.members@)
        },
{
    lemma_agreement(
        before,
        ClearingQuestion::Admit { statement, context, participant_id, subject_line_id },
        after,
    );
    lemma_agreement(before, ClearingQuestion::Register { operation_id, facility }, after);
}

proof fn lemma_agreement(before: ClearingBook, question: ClearingQuestion, after: ClearingBook)
    ensures
        agrees(before.facilities@, after.facilities@, only(touched_facility(question))) == (
        match touched_facility(question) {
            Some(id) => elsewhere_same(before.facilities@, after.facilities@, id),
            None => everywhere_same(before.facilities@, after.facilities@),
        }),
        agrees(before.holds@, after.holds@, only(touched_hold(question))) == (match touched_hold(
            question,
        ) {
            Some(id) => elsewhere_same(before.holds@, after.holds@, id),
            None => everywhere_same(before.holds@, after.holds@),
        }),
        agrees(before.members@, after.members@, only(touched_member(question))) == (
        match touched_member(question) {
            Some(id) => elsewhere_same(before.members@, after.members@, id),
            None => everywhere_same(before.members@, after.members@),
        }),
{
    reveal(agrees);
}

/// Whether a credit hold of an amount, on the facility that a clearing facility
/// describes, stands in a status under a settlement.
pub open spec fn hold_stands(
    ledger: Ledger,
    facility: ConfidentialFacility,
    hold_id: Id,
    amount_commitment: Id,
    status: HoldStatus,
    settlement_digest: Id,
) -> bool {
    let hold = ledger.credit_holds[hold_id];
    &&& describes_facility(ledger, facility)
    &&& ledger.credit_holds.contains_key(hold_id)
    &&& hold.facility_id == facility.defmi_facility_id
    &&& hold.amount_commitment == amount_commitment
    &&& hold.status == status
    &&& hold.settlement_digest == settlement_digest
}

/// A reservation is attested exactly where an active, unsettled hold of its coverage
/// stands behind it, the live facility and the hold last as long, and the state after
/// it follows by the sequence at which the hold was made.
pub proof fn law_when_a_reservation_is_attested(
    ledger: Ledger,
    facility: ConfidentialFacility,
    reservation: ConfidentialReservation,
)
    ensures
        ({
            let record = ledger.credit_facilities[facility.defmi_facility_id];
            let hold = ledger.credit_holds[reservation.defmi_hold_id];
            (guarantee_hold_refusal(ledger, facility, reservation) is None) == {
                &&& hold_stands(
                    ledger,
                    facility,
                    reservation.defmi_hold_id,
                    reservation.coverage_commitment,
                    HoldStatus::Active,
                    Id::zero(),
                )
                &&& record.status == FacilityStatus::Active
                &&& reservation.valid_until <= record.valid_until
                &&& reservation.valid_until <= hold.expires_at
                &&& follows_state(
                    reservation.after_facility_state_digest,
                    reservation.expected_facility_state_digest,
                    1,
                    reservation.defmi_hold_id,
                    reservation.coverage_commitment,
                    hold.created_sequence,
                )
            }
        }),
{
}

/// The end of a reservation is attested exactly where its receipt is neither empty nor
/// from the future, its hold was released, or for a claim consumed, by that receipt,
/// and the state after it follows by the sequence at which the hold ended.
pub proof fn law_when_an_end_is_attested(
    ledger: Ledger,
    facility: ConfidentialFacility,
    hold: ConfidentialHold,
    request: ConfidentialRequest,
    now: u64,
)
    ensures
        ({
            let receipt = request.receipt;
            let sequence = ledger.credit_holds[hold.defmi_hold_id].updated_sequence;
            let dated = receipt.receipt_digest != Id::zero() && receipt.finalized_at <= now;
            &&& (release_receipt_refusal(ledger, facility, hold, request, now) is None) == {
                &&& dated
                &&& hold_stands(
                    ledger,
                    facility,
                    hold.defmi_hold_id,
                    hold.coverage_commitment,
                    HoldStatus::Released,
                    receipt.receipt_digest,
                )
                &&& follows_state(
                    request.after_facility_state_digest,
                    request.expected_facility_state_digest,
                    2,
                    hold.defmi_hold_id,
                    hold.coverage_commitment,
                    sequence,
                )
            }
            &&& (claim_receipt_refusal(ledger, facility, hold, request, now) is None) == {
                &&& dated
                &&& hold_stands(
                    ledger,
                    facility,
                    hold.defmi_hold_id,
                    hold.coverage_commitment,
                    HoldStatus::Consumed,
                    receipt.receipt_digest,
                )
                &&& follows_state(
                    request.after_facility_state_digest,
                    request.expected_facility_state_digest,
                    3,
                    hold.defmi_hold_id,
                    hold.coverage_commitment,
                    sequence,
                )
            }
        }),
{
}

} // verus!
