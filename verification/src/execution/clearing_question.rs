//! What the clearing book is asked, and its answers.

use std::sync::Arc;
use vstd::prelude::*;

use crate::aethel_book::same_choice;
use crate::clearing_book::{
    keeps_clearing_book, ClearingBook, ClearingHoldStatus, ConfidentialFacility, ConfidentialHold,
};
use crate::execution::deccp::{
    is_same_context, CcpCapitalization, PresentationContext, SettlementReceipt,
};
use crate::execution::issuance::GuaranteeConsumption;
use crate::execution::receivables::{GuaranteeBinding, GuaranteeOffer, GuaranteeTransition};
use crate::id::Id;
use crate::outcome::{refusal_of, refuse};
use crate::state::{Ledger, State};
use crate::table::{agrees, only, Comparable};
use crate::text::join;

verus! {

/// What the clearing book is asked: to reserve the capacity of an offer, to bind
/// a guarantee to an issuance, to release or to consume it, to open, to admit a
/// member in a context, or to register a facility.
#[derive(Clone, Copy, Debug)]
pub enum ClearingQuestion {
    Reserve { offer: GuaranteeOffer },
    Bind { operation_id: Id, binding: GuaranteeBinding, issuance_id: Id },
    Release { binding: GuaranteeBinding, transition: GuaranteeTransition },
    Claim { consumption: GuaranteeConsumption },
    Open { statement: Id, capitalization: CcpCapitalization },
    Admit {
        statement: Id,
        context: PresentationContext,
        participant_id: Id,
        subject_line_id: Id,
    },
    Register { operation_id: Id, facility: ConfidentialFacility },
}

/// The clearing book after it was asked a question at a time, or why it refuses.
#[derive(Debug)]
pub struct ClearingAnswer {
    pub question: ClearingQuestion,
    pub now: u64,
    pub book: Result<Arc<ClearingBook>, String>,
}

fn is_same_offer(left: &GuaranteeOffer, right: &GuaranteeOffer) -> (r: bool)
    ensures
        r == (*left == *right),
{
    left.operation_id == right.operation_id && left.guarantee_id == right.guarantee_id
        && left.request_id == right.request_id && left.provider_id == right.provider_id
        && left.series_id == right.series_id && left.stream_state_version
        == right.stream_state_version && left.stream_state_root == right.stream_state_root
        && same_choice(&left.credit_decision_id, &right.credit_decision_id)
        && left.deccp_facility_id == right.deccp_facility_id && left.deccp_expected_sequence
        == right.deccp_expected_sequence && left.deccp_expected_state_digest
        == right.deccp_expected_state_digest && left.deccp_after_state_digest
        == right.deccp_after_state_digest && left.deccp_hold_id == right.deccp_hold_id
        && left.defmi_facility_id == right.defmi_facility_id && left.defmi_hold_id
        == right.defmi_hold_id && left.coverage_commitment == right.coverage_commitment
        && left.beneficiary_subject_line_id == right.beneficiary_subject_line_id
        && left.loss_layer == right.loss_layer && left.guarantee_terms_digest
        == right.guarantee_terms_digest && left.claim_policy_digest == right.claim_policy_digest
        && left.relation_proof_digest == right.relation_proof_digest && left.valid_until
        == right.valid_until && left.nonce == right.nonce
}

fn is_same_binding(left: &GuaranteeBinding, right: &GuaranteeBinding) -> (r: bool)
    ensures
        r == (*left == *right),
{
    left.guarantee_id == right.guarantee_id && left.request_id == right.request_id
        && left.provider_id == right.provider_id && left.series_id == right.series_id
        && left.stream_state_version == right.stream_state_version && left.stream_state_root
        == right.stream_state_root && same_choice(
        &left.credit_decision_id,
        &right.credit_decision_id,
    ) && left.deccp_facility_id == right.deccp_facility_id && left.deccp_hold_id
        == right.deccp_hold_id && left.defmi_facility_id == right.defmi_facility_id
        && left.defmi_hold_id == right.defmi_hold_id && left.coverage_commitment
        == right.coverage_commitment && left.loss_layer == right.loss_layer
        && left.guarantee_terms_digest == right.guarantee_terms_digest
        && left.claim_policy_digest == right.claim_policy_digest && left.relation_proof_digest
        == right.relation_proof_digest && left.valid_until == right.valid_until && left.nonce
        == right.nonce
}

fn is_same_receipt(left: &SettlementReceipt, right: &SettlementReceipt) -> (r: bool)
    ensures
        r == (*left == *right),
{
    left.receipt_digest == right.receipt_digest && left.context_digest == right.context_digest
        && left.finalized_at == right.finalized_at
}

fn is_same_transition(left: &GuaranteeTransition, right: &GuaranteeTransition) -> (r: bool)
    ensures
        r == (*left == *right),
{
    left.operation_id == right.operation_id && left.deccp_expected_sequence
        == right.deccp_expected_sequence && left.deccp_expected_state_digest
        == right.deccp_expected_state_digest && left.deccp_after_state_digest
        == right.deccp_after_state_digest && left.transition_proof_digest
        == right.transition_proof_digest && is_same_receipt(&left.receipt, &right.receipt)
}

fn is_same_consumption(left: &GuaranteeConsumption, right: &GuaranteeConsumption) -> (r: bool)
    ensures
        r == (*left == *right),
{
    is_same_binding(&left.binding, &right.binding) && left.issuance_id == right.issuance_id
        && left.default_event_digest == right.default_event_digest && is_same_transition(
        &left.transition,
        &right.transition,
    )
}

impl ClearingQuestion {
    /// Whether two questions are the same.
    pub fn same(&self, other: &ClearingQuestion) -> (r: bool)
        ensures
            r == (*self == *other),
    {
        match (self, other) {
            (
                ClearingQuestion::Reserve { offer: left },
                ClearingQuestion::Reserve { offer: right },
            ) => is_same_offer(left, right),
            (
                ClearingQuestion::Bind { operation_id, binding, issuance_id },
                ClearingQuestion::Bind { operation_id: id, binding: bound, issuance_id: issued },
            ) => *operation_id == *id && is_same_binding(binding, bound) && *issuance_id == *issued,
            (
                ClearingQuestion::Release { binding, transition },
                ClearingQuestion::Release { binding: bound, transition: released },
            ) => is_same_binding(binding, bound) && is_same_transition(transition, released),
            (
                ClearingQuestion::Claim { consumption: left },
                ClearingQuestion::Claim { consumption: right },
            ) => is_same_consumption(left, right),
            (
                ClearingQuestion::Open { statement, capitalization },
                ClearingQuestion::Open { statement: other, capitalization: capital },
            ) => *statement == *other && capitalization.defmi_lock_id == capital.defmi_lock_id
                && capitalization.proof_digest == capital.proof_digest
                && capitalization.valid_until == capital.valid_until,
            (
                ClearingQuestion::Admit { statement, context, participant_id, subject_line_id },
                ClearingQuestion::Admit {
                    statement: other,
                    context: presented,
                    participant_id: id,
                    subject_line_id: line,
                },
            ) => *statement == *other && is_same_context(context, presented) && *participant_id
                == *id && *subject_line_id == *line,
            (
                ClearingQuestion::Register { operation_id, facility },
                ClearingQuestion::Register { operation_id: id, facility: registered },
            ) => *operation_id == *id && facility.is_same_record(registered),
            _ => false,
        }
    }
}

/// Whether a facility has moved one step on to a state, and nothing else of it has
/// changed.
pub open spec fn facility_moved(
    before: ClearingBook,
    after: ClearingBook,
    facility_id: Id,
    digest: Id,
) -> bool {
    let facility = before.facilities@[facility_id];
    &&& before.facilities@.contains_key(facility_id)
    &&& after.facilities@.contains_key(facility_id)
    &&& facility.sequence < u64::MAX
    &&& after.facilities@[facility_id] == (ConfidentialFacility {
        sequence: (facility.sequence + 1) as u64,
        latest_facility_state_digest: digest,
        ..facility
    })
}

fn did_facility_move(
    before: &ClearingBook,
    after: &ClearingBook,
    facility_id: &Id,
    digest: &Id,
) -> (r: bool)
    ensures
        r == facility_moved(*before, *after, *facility_id, *digest),
{
    match (before.facilities.get(facility_id), after.facilities.get(facility_id)) {
        (Some(facility), Some(moved)) => {
            if facility.sequence == u64::MAX {
                return false;
            }
            let expected = ConfidentialFacility {
                facility_id: facility.facility_id,
                guarantor_id: facility.guarantor_id,
                defmi_facility_id: facility.defmi_facility_id,
                settlement_asset_id: facility.settlement_asset_id,
                capacity_commitment: facility.capacity_commitment,
                beneficiary_subject_line_id: facility.beneficiary_subject_line_id,
                sequence: facility.sequence + 1,
                latest_facility_state_digest: *digest,
                valid_until: facility.valid_until,
            };
            moved.is_same_record(&expected)
        },
        _ => false,
    }
}

/// The reservation that an offer asks for.
pub open spec fn reserved_hold(offer: GuaranteeOffer) -> ConfidentialHold {
    ConfidentialHold {
        hold_id: offer.deccp_hold_id,
        facility_id: offer.deccp_facility_id,
        defmi_hold_id: offer.defmi_hold_id,
        coverage_commitment: offer.coverage_commitment,
        status: ClearingHoldStatus::Reserved,
        bound_exposure_id: None,
        defmi_settlement_receipt: None,
    }
}

/// Whether the reservation of a guarantee has moved on: it was reserved and bound
/// to `was`, if to anything, and now has a status, an issuance it is bound to and
/// the settlement that ended it. Nothing else of it has changed.
pub open spec fn hold_moved(
    before: ClearingBook,
    after: ClearingBook,
    binding: GuaranteeBinding,
    was: Option<Id>,
    status: ClearingHoldStatus,
    bound: Option<Id>,
    receipt: Option<Id>,
) -> bool {
    let held = before.holds@[binding.deccp_hold_id];
    &&& before.holds@.contains_key(binding.deccp_hold_id)
    &&& held.facility_id == binding.deccp_facility_id
    &&& held.defmi_hold_id == binding.defmi_hold_id
    &&& held.coverage_commitment == binding.coverage_commitment
    &&& held.status == ClearingHoldStatus::Reserved
    &&& held.bound_exposure_id == was
    &&& after.holds@.contains_key(binding.deccp_hold_id)
    &&& after.holds@[binding.deccp_hold_id] == (ConfidentialHold {
        status,
        bound_exposure_id: bound,
        defmi_settlement_receipt: receipt,
        ..held
    })
}

fn did_hold_move(
    before: &ClearingBook,
    after: &ClearingBook,
    binding: &GuaranteeBinding,
    was: Option<Id>,
    status: ClearingHoldStatus,
    bound: Option<Id>,
    receipt: Option<Id>,
) -> (r: bool)
    ensures
        r == hold_moved(*before, *after, *binding, was, status, bound, receipt),
{
    match (before.holds.get(&binding.deccp_hold_id), after.holds.get(&binding.deccp_hold_id)) {
        (Some(held), Some(moved)) => {
            let expected = ConfidentialHold {
                hold_id: held.hold_id,
                facility_id: held.facility_id,
                defmi_hold_id: held.defmi_hold_id,
                coverage_commitment: held.coverage_commitment,
                status,
                bound_exposure_id: bound,
                defmi_settlement_receipt: receipt,
            };
            held.facility_id == binding.deccp_facility_id && held.defmi_hold_id
                == binding.defmi_hold_id && held.coverage_commitment
                == binding.coverage_commitment && held.status == ClearingHoldStatus::Reserved
                && same_choice(&held.bound_exposure_id, &was) && moved.is_same_record(&expected)
        },
        _ => false,
    }
}

/// The facility that a question is about, if it changes one.
pub open spec fn touched_facility(question: ClearingQuestion) -> Option<Id> {
    match question {
        ClearingQuestion::Reserve { offer } => Some(offer.deccp_facility_id),
        ClearingQuestion::Release { binding, .. } => Some(binding.deccp_facility_id),
        ClearingQuestion::Claim { consumption } => Some(consumption.binding.deccp_facility_id),
        ClearingQuestion::Register { facility, .. } => Some(facility.facility_id),
        _ => None,
    }
}

fn facility_touched(question: &ClearingQuestion) -> (r: Option<Id>)
    ensures
        r == touched_facility(*question),
{
    match question {
        ClearingQuestion::Reserve { offer } => Some(offer.deccp_facility_id),
        ClearingQuestion::Release { binding, .. } => Some(binding.deccp_facility_id),
        ClearingQuestion::Claim { consumption } => Some(consumption.binding.deccp_facility_id),
        ClearingQuestion::Register { facility, .. } => Some(facility.facility_id),
        _ => None,
    }
}

/// The hold that a question is about, if it changes one.
pub open spec fn touched_hold(question: ClearingQuestion) -> Option<Id> {
    match question {
        ClearingQuestion::Reserve { offer } => Some(offer.deccp_hold_id),
        ClearingQuestion::Bind { binding, .. } => Some(binding.deccp_hold_id),
        ClearingQuestion::Release { binding, .. } => Some(binding.deccp_hold_id),
        ClearingQuestion::Claim { consumption } => Some(consumption.binding.deccp_hold_id),
        _ => None,
    }
}

fn hold_touched(question: &ClearingQuestion) -> (r: Option<Id>)
    ensures
        r == touched_hold(*question),
{
    match question {
        ClearingQuestion::Reserve { offer } => Some(offer.deccp_hold_id),
        ClearingQuestion::Bind { binding, .. } => Some(binding.deccp_hold_id),
        ClearingQuestion::Release { binding, .. } => Some(binding.deccp_hold_id),
        ClearingQuestion::Claim { consumption } => Some(consumption.binding.deccp_hold_id),
        _ => None,
    }
}

/// The member that a question is about, if it changes one.
pub open spec fn touched_member(question: ClearingQuestion) -> Option<Id> {
    match question {
        ClearingQuestion::Admit { participant_id, .. } => Some(participant_id),
        _ => None,
    }
}

fn member_touched(question: &ClearingQuestion) -> (r: Option<Id>)
    ensures
        r == touched_member(*question),
{
    match question {
        ClearingQuestion::Admit { participant_id, .. } => Some(*participant_id),
        _ => None,
    }
}

/// Whether a book that is asked something and was there before answers with a book
/// that has lost nothing, holds what was asked for, and has changed nothing else.
pub open spec fn carries_out(
    before: ClearingBook,
    question: ClearingQuestion,
    after: ClearingBook,
) -> bool {
    &&& keeps_clearing_book(before, after)
    &&& agrees(before.facilities@, after.facilities@, only(touched_facility(question)))
    &&& agrees(before.holds@, after.holds@, only(touched_hold(question)))
    &&& agrees(before.members@, after.members@, only(touched_member(question)))
    &&& match question {
        ClearingQuestion::Reserve { offer } => {
            &&& after.holds@.contains_key(offer.deccp_hold_id)
            &&& after.holds@[offer.deccp_hold_id] == reserved_hold(offer)
            &&& facility_moved(
                before,
                after,
                offer.deccp_facility_id,
                offer.deccp_after_state_digest,
            )
        },
        ClearingQuestion::Bind { operation_id, binding, issuance_id } => {
            hold_moved(
                before,
                after,
                binding,
                None,
                ClearingHoldStatus::Reserved,
                Some(issuance_id),
                None,
            )
        },
        ClearingQuestion::Release { binding, transition } => {
            &&& hold_moved(
                before,
                after,
                binding,
                None,
                ClearingHoldStatus::Released,
                None,
                Some(transition.receipt.receipt_digest),
            )
            &&& facility_moved(
                before,
                after,
                binding.deccp_facility_id,
                transition.deccp_after_state_digest,
            )
        },
        ClearingQuestion::Claim { consumption } => {
            &&& hold_moved(
                before,
                after,
                consumption.binding,
                Some(consumption.issuance_id),
                ClearingHoldStatus::Consumed,
                Some(consumption.issuance_id),
                Some(consumption.transition.receipt.receipt_digest),
            )
            &&& facility_moved(
                before,
                after,
                consumption.binding.deccp_facility_id,
                consumption.transition.deccp_after_state_digest,
            )
        },
        ClearingQuestion::Open { statement, capitalization } => false,
        ClearingQuestion::Admit { statement, context, participant_id, subject_line_id } => {
            &&& after.members@.contains_key(participant_id)
            &&& after.members@[participant_id].subject_line_id == subject_line_id
        },
        ClearingQuestion::Register { operation_id, facility } => {
            &&& after.facilities@.contains_key(facility.facility_id)
            &&& after.facilities@[facility.facility_id] == facility
        },
    }
}

fn does_carry_out(before: &ClearingBook, question: &ClearingQuestion, after: &ClearingBook) -> (r:
    bool)
    ensures
        r == carries_out(*before, *question, *after),
{
    if !after.keeps(before) || !after.facilities.agrees_but(
        &before.facilities,
        facility_touched(question),
    ) || !after.holds.agrees_but(&before.holds, hold_touched(question))
        || !after.members.agrees_but(&before.members, member_touched(question)) {
        return false;
    }
    match question {
        ClearingQuestion::Reserve { offer } => {
            let reserved = match after.holds.get(&offer.deccp_hold_id) {
                Some(hold) => hold.hold_id == offer.deccp_hold_id && hold.facility_id
                    == offer.deccp_facility_id && hold.defmi_hold_id == offer.defmi_hold_id
                    && hold.coverage_commitment == offer.coverage_commitment && hold.status
                    == ClearingHoldStatus::Reserved && hold.bound_exposure_id.is_none()
                    && hold.defmi_settlement_receipt.is_none(),
                None => false,
            };
            reserved && did_facility_move(
                before,
                after,
                &offer.deccp_facility_id,
                &offer.deccp_after_state_digest,
            )
        },
        ClearingQuestion::Bind { operation_id, binding, issuance_id } => {
            did_hold_move(
                before,
                after,
                binding,
                None,
                ClearingHoldStatus::Reserved,
                Some(*issuance_id),
                None,
            )
        },
        ClearingQuestion::Release { binding, transition } => {
            did_hold_move(
                before,
                after,
                binding,
                None,
                ClearingHoldStatus::Released,
                None,
                Some(transition.receipt.receipt_digest),
            ) && did_facility_move(
                before,
                after,
                &binding.deccp_facility_id,
                &transition.deccp_after_state_digest,
            )
        },
        ClearingQuestion::Claim { consumption } => {
            did_hold_move(
                before,
                after,
                &consumption.binding,
                Some(consumption.issuance_id),
                ClearingHoldStatus::Consumed,
                Some(consumption.issuance_id),
                Some(consumption.transition.receipt.receipt_digest),
            ) && did_facility_move(
                before,
                after,
                &consumption.binding.deccp_facility_id,
                &consumption.transition.deccp_after_state_digest,
            )
        },
        ClearingQuestion::Open { statement, capitalization } => false,
        ClearingQuestion::Admit { statement, context, participant_id, subject_line_id } => {
            match after.members.get(participant_id) {
                Some(member) => member.subject_line_id == *subject_line_id,
                None => false,
            }
        },
        ClearingQuestion::Register { operation_id, facility } => {
            match after.facilities.get(&facility.facility_id) {
                Some(registered) => registered.is_same_record(facility),
                None => false,
            }
        },
    }
}

/// Whether a book is the answer to the question that opens it: it is over the
/// capital named, and nothing is recorded in it.
pub open spec fn opens(question: ClearingQuestion, after: ClearingBook) -> bool {
    match question {
        ClearingQuestion::Open { statement, capitalization } => {
            &&& after.capital_lock == capitalization.defmi_lock_id
            &&& forall|id: Id| !(#[trigger] after.facilities@.contains_key(id))
            &&& forall|id: Id| !(#[trigger] after.holds@.contains_key(id))
            &&& forall|id: Id| !(#[trigger] after.members@.contains_key(id))
        },
        _ => false,
    }
}

fn does_open(question: &ClearingQuestion, after: &ClearingBook) -> (r: bool)
    ensures
        r == opens(*question, *after),
{
    match question {
        ClearingQuestion::Open { statement, capitalization } => after.capital_lock
            == capitalization.defmi_lock_id && after.facilities.is_empty() && after.holds.is_empty()
                && after.members.is_empty(),
        _ => false,
    }
}

/// Whether a book holds what was asked for of the book before, if there was one.
pub open spec fn fulfils(
    before: Option<ClearingBook>,
    question: ClearingQuestion,
    after: ClearingBook,
) -> bool {
    match before {
        Some(before) => carries_out(before, question, after),
        None => opens(question, after),
    }
}

/// Why an answer of the clearing book is not taken: it is one to another
/// question, the book refuses, the book does not hold what was asked for, or the
/// records do not attest it. `attested` is why they do not, if so.
pub open spec fn answer_refusal(
    ledger: Ledger,
    answer: ClearingAnswer,
    question: ClearingQuestion,
    now: u64,
    what: Seq<char>,
    attested: Option<Seq<char>>,
) -> Option<Seq<char>> {
    if answer.question != question || answer.now != now {
        Some("the clearing book was asked something else"@)
    } else {
        match answer.book {
            Ok(book) => if !fulfils(ledger.deccp, question, *book) {
                Some("the clearing book does not hold what was asked for"@)
            } else {
                match attested {
                    Some(message) => Some(what + message),
                    None => None,
                }
            },
            Err(message) => Some(what + message@),
        }
    }
}

pub(crate) fn read_answer(
    state: &State,
    answer: ClearingAnswer,
    question: &ClearingQuestion,
    now: u64,
    what: &str,
    attested: &Result<(), String>,
) -> (r: Result<Arc<ClearingBook>, String>)
    ensures
        match r {
            Ok(book) => answer_refusal(
                state@,
                answer,
                *question,
                now,
                what@,
                refusal_of(*attested),
            ) is None && answer.book == Ok::<Arc<ClearingBook>, String>(book),
            Err(message) => answer_refusal(
                state@,
                answer,
                *question,
                now,
                what@,
                refusal_of(*attested),
            ) == Some(message@),
        },
{
    if !answer.question.same(question) || answer.now != now {
        return refuse("the clearing book was asked something else");
    }
    match answer.book {
        Ok(book) => {
            let fulfilled = match &state.deccp {
                Some(before) => does_carry_out(&**before, question, &*book),
                None => does_open(question, &*book),
            };
            if !fulfilled {
                return refuse("the clearing book does not hold what was asked for");
            }
            if let Err(message) = attested {
                return Err(join(what, message.as_str()));
            }
            Ok(book)
        },
        Err(message) => Err(join(what, message.as_str())),
    }
}

} // verus!
