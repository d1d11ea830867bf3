//! What the book of receivables is asked, and its answers.

use std::sync::Arc;
use vstd::prelude::*;

use crate::aethel_book::{
    keeps_book, AethelBook, GuaranteeClaim, GuaranteeCommitment, ProviderStatus,
    ReceivableIssuance,
};
use crate::execution::receivables::GuaranteeRelease;
use crate::id::Id;
use crate::outcome::{refuse, verdict};
use crate::state::{Ledger, State};
use crate::table::{agrees, only, whole_scope, Numbered};

verus! {

/// What the book of receivables is asked to do. What a question does not carry of
/// its request is looked for in the book that answers it.
#[derive(Clone, Copy, Debug)]
#[allow(inconsistent_fields)]
pub enum BookQuestion {
    RegisterProvider { provider_id: Id },
    RegisterStream { stream_id: Id },
    TransitionStream { attestor_provider_id: Id, stream_id: Id },
    RegisterSeries { series_id: Id },
    RecordDecision { decision_id: Id, request_id: Id },
    RecordGuarantee { request: GuaranteeCommitment },
    ReleaseGuarantee { request: GuaranteeRelease },
    RotateKey { provider_id: Id, next_public_key: Id },
    SetStatus { provider_id: Id, status: ProviderStatus },
    RegisterIssuer { provider_id: Id, epoch: Numbered },
    PublishStatus { epoch: Numbered },
    RecordQuote { quote_id: Id },
    Issue { request: ReceivableIssuance },
    RecordDefault { attestation_id: Id },
    Claim { request: GuaranteeClaim },
}

fn is_same_epoch(left: &Numbered, right: &Numbered) -> (r: bool)
    ensures
        r == (*left == *right),
{
    left.scope == right.scope && left.number == right.number
}

fn is_same_release(left: &GuaranteeRelease, right: &GuaranteeRelease) -> (r: bool)
    ensures
        r == (*left == *right),
{
    left.operation_id == right.operation_id && left.provider_id == right.provider_id
        && left.guarantee_id == right.guarantee_id && left.defmi_settlement_digest
        == right.defmi_settlement_digest && left.relation_proof_digest
        == right.relation_proof_digest
}

impl BookQuestion {
    /// Whether two questions are the same.
    pub fn same(&self, other: &BookQuestion) -> (r: bool)
        ensures
            r == (*self == *other),
    {
        match (self, other) {
            (
                BookQuestion::RegisterProvider { provider_id: left },
                BookQuestion::RegisterProvider { provider_id: right },
            ) => *left == *right,
            (
                BookQuestion::RegisterStream { stream_id: left },
                BookQuestion::RegisterStream { stream_id: right },
            ) => *left == *right,
            (
                BookQuestion::TransitionStream { attestor_provider_id, stream_id },
                BookQuestion::TransitionStream { attestor_provider_id: attestor, stream_id: id },
            ) => *attestor_provider_id == *attestor && *stream_id == *id,
            (
                BookQuestion::RegisterSeries { series_id: left },
                BookQuestion::RegisterSeries { series_id: right },
            ) => *left == *right,
            (
                BookQuestion::RecordDecision { decision_id, request_id },
                BookQuestion::RecordDecision { decision_id: id, request_id: request },
            ) => *decision_id == *id && *request_id == *request,
            (
                BookQuestion::RecordGuarantee { request: left },
                BookQuestion::RecordGuarantee { request: right },
            ) => left.same(right),
            (
                BookQuestion::ReleaseGuarantee { request: left },
                BookQuestion::ReleaseGuarantee { request: right },
            ) => is_same_release(left, right),
            (
                BookQuestion::RotateKey { provider_id, next_public_key },
                BookQuestion::RotateKey { provider_id: id, next_public_key: key },
            ) => *provider_id == *id && *next_public_key == *key,
            (
                BookQuestion::SetStatus { provider_id, status },
                BookQuestion::SetStatus { provider_id: id, status: standing },
            ) => *provider_id == *id && *status == *standing,
            (
                BookQuestion::RegisterIssuer { provider_id, epoch },
                BookQuestion::RegisterIssuer { provider_id: id, epoch: registered },
            ) => *provider_id == *id && is_same_epoch(epoch, registered),
            (
                BookQuestion::PublishStatus { epoch: left },
                BookQuestion::PublishStatus { epoch: right },
            ) => is_same_epoch(left, right),
            (
                BookQuestion::RecordQuote { quote_id: left },
                BookQuestion::RecordQuote { quote_id: right },
            ) => *left == *right,
            (
                BookQuestion::Issue { request: left },
                BookQuestion::Issue { request: right },
            ) => left.same(right),
            (
                BookQuestion::RecordDefault { attestation_id: left },
                BookQuestion::RecordDefault { attestation_id: right },
            ) => *left == *right,
            (
                BookQuestion::Claim { request: left },
                BookQuestion::Claim { request: right },
            ) => left.same(right),
            _ => false,
        }
    }
}

/// A call on the book of receivables: what it was asked, under which operation and
/// at which time; the statement of the request; and the book after it, or why the
/// book refuses.
#[derive(Debug)]
pub struct BookCall {
    pub question: BookQuestion,
    pub operation_id: Id,
    pub now: u64,
    pub statement: Result<Id, String>,
    pub recorded: Result<Arc<AethelBook>, String>,
}

/// The provider that a question may change, if any.
pub open spec fn touched_provider(question: BookQuestion) -> Option<Id> {
    match question {
        BookQuestion::RegisterProvider { provider_id } => Some(provider_id),
        BookQuestion::RotateKey { provider_id, .. } => Some(provider_id),
        BookQuestion::SetStatus { provider_id, .. } => Some(provider_id),
        _ => None,
    }
}

fn provider_touched(question: &BookQuestion) -> (r: Option<Id>)
    ensures
        r == touched_provider(*question),
{
    match question {
        BookQuestion::RegisterProvider { provider_id } => Some(*provider_id),
        BookQuestion::RotateKey { provider_id, .. } => Some(*provider_id),
        BookQuestion::SetStatus { provider_id, .. } => Some(*provider_id),
        _ => None,
    }
}

/// The series that a question may change, if any.
pub open spec fn touched_series(question: BookQuestion) -> Option<Id> {
    match question {
        BookQuestion::RegisterSeries { series_id } => Some(series_id),
        _ => None,
    }
}

fn series_touched(question: &BookQuestion) -> (r: Option<Id>)
    ensures
        r == touched_series(*question),
{
    match question {
        BookQuestion::RegisterSeries { series_id } => Some(*series_id),
        _ => None,
    }
}

/// The decision that a question may change, if any.
pub open spec fn touched_decision(question: BookQuestion) -> Option<Id> {
    match question {
        BookQuestion::RecordDecision { decision_id, .. } => Some(decision_id),
        _ => None,
    }
}

fn decision_touched(question: &BookQuestion) -> (r: Option<Id>)
    ensures
        r == touched_decision(*question),
{
    match question {
        BookQuestion::RecordDecision { decision_id, .. } => Some(*decision_id),
        _ => None,
    }
}

/// The guarantee that a question may change, if any.
pub open spec fn touched_guarantee(question: BookQuestion) -> Option<Id> {
    match question {
        BookQuestion::RecordGuarantee { request } => Some(request.guarantee_id),
        _ => None,
    }
}

fn guarantee_touched(question: &BookQuestion) -> (r: Option<Id>)
    ensures
        r == touched_guarantee(*question),
{
    match question {
        BookQuestion::RecordGuarantee { request } => Some(request.guarantee_id),
        _ => None,
    }
}

/// The guarantee status that a question may change, if any.
pub open spec fn touched_guarantee_status(question: BookQuestion) -> Option<Id> {
    match question {
        BookQuestion::RecordGuarantee { request } => Some(request.guarantee_id),
        BookQuestion::ReleaseGuarantee { request } => Some(request.guarantee_id),
        BookQuestion::Claim { request } => Some(request.guarantee_id),
        _ => None,
    }
}

fn guarantee_status_touched(question: &BookQuestion) -> (r: Option<Id>)
    ensures
        r == touched_guarantee_status(*question),
{
    match question {
        BookQuestion::RecordGuarantee { request } => Some(request.guarantee_id),
        BookQuestion::ReleaseGuarantee { request } => Some(request.guarantee_id),
        BookQuestion::Claim { request } => Some(request.guarantee_id),
        _ => None,
    }
}

/// The claim that a question may change, if any.
pub open spec fn touched_claim(question: BookQuestion) -> Option<Id> {
    match question {
        BookQuestion::Claim { request } => Some(request.claim_id),
        _ => None,
    }
}

fn claim_touched(question: &BookQuestion) -> (r: Option<Id>)
    ensures
        r == touched_claim(*question),
{
    match question {
        BookQuestion::Claim { request } => Some(request.claim_id),
        _ => None,
    }
}

/// The quote that a question may change, if any.
pub open spec fn touched_quote(question: BookQuestion) -> Option<Id> {
    match question {
        BookQuestion::RecordQuote { quote_id } => Some(quote_id),
        _ => None,
    }
}

fn quote_touched(question: &BookQuestion) -> (r: Option<Id>)
    ensures
        r == touched_quote(*question),
{
    match question {
        BookQuestion::RecordQuote { quote_id } => Some(*quote_id),
        _ => None,
    }
}

/// The issuance that a question may change, if any.
pub open spec fn touched_issuance(question: BookQuestion) -> Option<Id> {
    match question {
        BookQuestion::Issue { request } => Some(request.issuance_id),
        _ => None,
    }
}

fn issuance_touched(question: &BookQuestion) -> (r: Option<Id>)
    ensures
        r == touched_issuance(*question),
{
    match question {
        BookQuestion::Issue { request } => Some(request.issuance_id),
        _ => None,
    }
}

/// The default that a question may change, if any.
pub open spec fn touched_default(question: BookQuestion) -> Option<Id> {
    match question {
        BookQuestion::RecordDefault { attestation_id } => Some(attestation_id),
        _ => None,
    }
}

fn default_touched(question: &BookQuestion) -> (r: Option<Id>)
    ensures
        r == touched_default(*question),
{
    match question {
        BookQuestion::RecordDefault { attestation_id } => Some(*attestation_id),
        _ => None,
    }
}

/// The subject that a question may change, if any.
pub open spec fn touched_subject(question: BookQuestion) -> Option<Id> {
    match question {
        BookQuestion::RecordDecision { request_id, .. } => Some(request_id),
        BookQuestion::RecordGuarantee { request } => Some(request.request_id),
        _ => None,
    }
}

fn subject_touched(question: &BookQuestion) -> (r: Option<Id>)
    ensures
        r == touched_subject(*question),
{
    match question {
        BookQuestion::RecordDecision { request_id, .. } => Some(*request_id),
        BookQuestion::RecordGuarantee { request } => Some(request.request_id),
        _ => None,
    }
}

/// The status list that a question may change, if any.
pub open spec fn touched_status_list(question: BookQuestion) -> Option<Numbered> {
    match question {
        BookQuestion::PublishStatus { epoch } => Some(epoch),
        _ => None,
    }
}

fn status_list_touched(question: &BookQuestion) -> (r: Option<Numbered>)
    ensures
        r == touched_status_list(*question),
{
    match question {
        BookQuestion::PublishStatus { epoch } => Some(*epoch),
        _ => None,
    }
}

/// The stream that a question may change, if any: an issuance changes that of its
/// series.
pub open spec fn touched_stream(before: AethelBook, question: BookQuestion) -> Option<Id> {
    match question {
        BookQuestion::RegisterStream { stream_id } => Some(stream_id),
        BookQuestion::TransitionStream { stream_id, .. } => Some(stream_id),
        BookQuestion::Issue { request } => if before.series@.contains_key(request.series_id) {
            Some(before.series@[request.series_id].stream_id)
        } else {
            None
        },
        _ => None,
    }
}

fn stream_touched(before: &AethelBook, question: &BookQuestion) -> (r: Option<Id>)
    ensures
        r == touched_stream(*before, *question),
{
    match question {
        BookQuestion::RegisterStream { stream_id } => Some(*stream_id),
        BookQuestion::TransitionStream { stream_id, .. } => Some(*stream_id),
        BookQuestion::Issue { request } => match before.series.get(&request.series_id) {
            Some(series) => Some(series.stream_id),
            None => None,
        },
        _ => None,
    }
}

/// Whether the key epochs of issuers are as they were. A registration may change
/// the other epochs of its own issuer.
pub open spec fn issuers_stay(
    before: AethelBook,
    question: BookQuestion,
    after: AethelBook,
) -> bool {
    match question {
        BookQuestion::RegisterIssuer { epoch, .. } => agrees(
            before.credential_issuers@,
            after.credential_issuers@,
            whole_scope(epoch.scope),
        ),
        _ => agrees(before.credential_issuers@, after.credential_issuers@, only(None)),
    }
}

fn do_issuers_stay(before: &AethelBook, question: &BookQuestion, after: &AethelBook) -> (r: bool)
    ensures
        r == issuers_stay(*before, *question, *after),
{
    match question {
        BookQuestion::RegisterIssuer { epoch, .. } => after.credential_issuers.agrees_outside(
            &before.credential_issuers,
            &epoch.scope,
        ),
        _ => after.credential_issuers.agrees_but(&before.credential_issuers, None),
    }
}

/// Whether a book has changed nothing but what a question is about, and its root.
pub open spec fn changes_only(
    before: AethelBook,
    question: BookQuestion,
    after: AethelBook,
) -> bool {
    &&& agrees(before.streams@, after.streams@, only(touched_stream(before, question)))
    &&& agrees(
        before.providers@,
        after.providers@,
        only(touched_provider(question)),
    )
    &&& agrees(
        before.series@,
        after.series@,
        only(touched_series(question)),
    )
    &&& agrees(
        before.credit_decisions@,
        after.credit_decisions@,
        only(touched_decision(question)),
    )
    &&& agrees(
        before.guarantees@,
        after.guarantees@,
        only(touched_guarantee(question)),
    )
    &&& agrees(
        before.guarantee_statuses@,
        after.guarantee_statuses@,
        only(touched_guarantee_status(question)),
    )
    &&& agrees(
        before.guarantee_claims@,
        after.guarantee_claims@,
        only(touched_claim(question)),
    )
    &&& agrees(
        before.funding_quotes@,
        after.funding_quotes@,
        only(touched_quote(question)),
    )
    &&& agrees(
        before.issuances@,
        after.issuances@,
        only(touched_issuance(question)),
    )
    &&& agrees(
        before.default_attestations@,
        after.default_attestations@,
        only(touched_default(question)),
    )
    &&& agrees(
        before.confidential_subjects@,
        after.confidential_subjects@,
        only(touched_subject(question)),
    )
    &&& agrees(
        before.status_lists@,
        after.status_lists@,
        only(touched_status_list(question)),
    )
    &&& issuers_stay(before, question, after)
}

fn does_change_only(before: &AethelBook, question: &BookQuestion, after: &AethelBook) -> (r: bool)
    ensures
        r == changes_only(*before, *question, *after),
{
    after.streams.agrees_but(&before.streams, stream_touched(before, question))
        && after.providers.agrees_but(&before.providers, provider_touched(question))
        && after.series.agrees_but(&before.series, series_touched(question))
        && after.credit_decisions.agrees_but(&before.credit_decisions, decision_touched(question))
        && after.guarantees.agrees_but(&before.guarantees, guarantee_touched(question))
        && after.guarantee_statuses.agrees_but(
        &before.guarantee_statuses,
        guarantee_status_touched(question),
    )
        && after.guarantee_claims.agrees_but(&before.guarantee_claims, claim_touched(question))
        && after.funding_quotes.agrees_but(&before.funding_quotes, quote_touched(question))
        && after.issuances.agrees_but(&before.issuances, issuance_touched(question))
        && after.default_attestations.agrees_but(
        &before.default_attestations,
        default_touched(question),
    )
        && after.confidential_subjects.agrees_but(
        &before.confidential_subjects,
        subject_touched(question),
    )
        && after.status_lists.agrees_but(&before.status_lists, status_list_touched(question))
        && do_issuers_stay(before, question, after)
}

/// Why an answer of the book is not taken: the book was asked something else, or
/// it has answered and has lost something, does not hold what was to be recorded,
/// or has changed something else.
pub open spec fn unheld_refusal(
    ledger: Ledger,
    call: BookCall,
    question: BookQuestion,
    operation_id: Id,
    now: u64,
    held: bool,
) -> Option<Seq<char>> {
    if call.question != question || call.operation_id != operation_id || call.now != now {
        Some("the book of receivables was asked something else"@)
    } else if call.recorded is Ok && !keeps_book(ledger.aethel, *call.recorded->Ok_0) {
        Some("the book of receivables has lost what it held"@)
    } else if call.recorded is Ok && !held {
        Some("the book of receivables does not hold what was recorded"@)
    } else if call.recorded is Ok && !changes_only(
        ledger.aethel,
        question,
        *call.recorded->Ok_0,
    ) {
        Some("the book of receivables has changed something else"@)
    } else {
        None
    }
}

pub(crate) fn check_held(
    state: &State,
    call: &BookCall,
    question: &BookQuestion,
    operation_id: &Id,
    now: u64,
    held: bool,
) -> (r: Result<(), String>)
    ensures
        verdict(r, unheld_refusal(state@, *call, *question, *operation_id, now, held)),
{
    if !call.question.same(question) || call.operation_id != *operation_id || call.now != now {
        return refuse("the book of receivables was asked something else");
    }
    if let Ok(book) = &call.recorded {
        if !book.keeps(&*state.aethel) {
            return refuse("the book of receivables has lost what it held");
        }
        if !held {
            return refuse("the book of receivables does not hold what was recorded");
        }
        if !does_change_only(&*state.aethel, question, &**book) {
            return refuse("the book of receivables has changed something else");
        }
    }
    Ok(())
}

} // verus!
