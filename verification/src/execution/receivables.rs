//! Transactions on the book of receivables, and what its guarantees ask of the
//! clearing book.

use std::sync::Arc;
use vstd::prelude::*;

use crate::aethel_book::{
    restated, rotated, same_provider, same_status_list, same_stream, CredentialIssuer,
    CreditDecision, DefaultAttestation, FundingQuote, GuaranteeCommitment, GuaranteeStatus,
    LossLayer, Provider, ProviderCapability, ProviderStatus, ReceivableIssuance, Series,
    StatusList, Stream,
};
use crate::clearing_book::{ClearingBook, ConfidentialFacility};
use crate::endorsement::Submission;
use crate::execution::aethel::{
    asset_refusal, funding_backing_refusal, guarantee_backing_refusal, identity_refusal,
    participant_refusal, require_active_asset, require_active_participant, runtime_refusal,
    validate_funding_backing, validate_guarantee_backing, validate_provider_identity,
    validate_provider_runtime,
};
use crate::execution::book_question::{check_held, unheld_refusal, BookCall, BookQuestion};
use crate::execution::clearing_question::{
    answer_refusal, read_answer, ClearingAnswer, ClearingQuestion,
};
use crate::execution::deccp::{
    cleared, clearing_book, clearing_book_refusal, enter, entry_refusal, find_provider,
    guarantee_hold_refusal, next_facility_state, next_state, provider_refusal,
    record_global_operation, release_receipt_refusal, ConfidentialRequest,
    ConfidentialReservation, FacilityTransition, SettlementReceipt, VmDefmiPort,
};
use crate::execution::product::operated;
use crate::id::Id;
use crate::outcome::{
    accepted, first, meets, refuse, refused, unless, verdict, Outcome,
};
use crate::state::{AssetKind, HoldStatus, Ledger, State};
use crate::table::Numbered;

verus! {

/// Why an action on the book is not entered.
pub open spec fn call_refusal(
    ledger: Ledger,
    operation_id: Id,
    call: BookCall,
    submission: Submission,
) -> Option<Seq<char>> {
    entry_refusal(ledger, call.statement, submission, operation_id)
}

/// What the book's answer does: the book and, where there is one, the clearing
/// book are kept, and the operation is recorded.
pub open spec fn recorded_outcome(
    ledger: Ledger,
    operation_id: Id,
    call: BookCall,
    clearing: Option<ClearingBook>,
) -> Outcome {
    let statement = call.statement->Ok_0;
    match call.recorded {
        Err(message) => refused(ledger, message@),
        Ok(book) => {
            let kept = Ledger { aethel: *book, ..ledger };
            let both = match clearing {
                Some(clearing) => cleared(kept, clearing),
                None => kept,
            };
            accepted(operated(both, operation_id, statement), statement)
        },
    }
}

pub(crate) fn keep(
    state: &mut State,
    operation_id: Id,
    call: BookCall,
    statement: Id,
    clearing: Option<Arc<ClearingBook>>,
) -> (r: Result<Id, String>)
    requires
        call.statement == Ok::<Id, String>(statement),
    ensures
        meets(
            r,
            final(state)@,
            recorded_outcome(old(state)@, operation_id, call, crate::state::hosted(clearing)),
        ),
{
    let book = match call.recorded {
        Err(message) => return Err(message),
        Ok(book) => book,
    };
    state.aethel = book;
    if clearing.is_some() {
        state.deccp = clearing;
    }
    record_global_operation(state, operation_id, statement);
    Ok(statement)
}

/// What an action on the book does that is refused for the reason given, if
/// there is one.
pub open spec fn call_outcome(
    ledger: Ledger,
    operation_id: Id,
    call: BookCall,
    submission: Submission,
    refusal: Option<Seq<char>>,
) -> Outcome {
    unless(
        first(call_refusal(ledger, operation_id, call, submission), refusal),
        ledger,
        recorded_outcome(ledger, operation_id, call, None),
    )
}

/// Whether the book after an action holds a provider.
pub open spec fn holds_provider(call: BookCall, id: Id, provider: Provider) -> bool {
    let book = *call.recorded->Ok_0;
    call.recorded is Ok && book.providers@.contains_key(id)
        && same_provider(book.providers@[id], provider)
}

pub(crate) fn does_hold_provider(call: &BookCall, id: &Id, provider: &Provider) -> (r: bool)
    ensures
        r == holds_provider(*call, *id, *provider),
{
    match &call.recorded {
        Ok(book) => match book.providers.get(id) {
            Some(found) => found.same(provider),
            None => false,
        },
        Err(_) => false,
    }
}

/// Whether the book after an action holds a stream in a state.
pub open spec fn holds_stream(call: BookCall, id: Id, stream: Stream) -> bool {
    let book = *call.recorded->Ok_0;
    call.recorded is Ok && book.streams@.contains_key(id) && same_stream(book.streams@[id], stream)
}

pub(crate) fn does_hold_stream(call: &BookCall, id: &Id, stream: &Stream) -> (r: bool)
    ensures
        r == holds_stream(*call, *id, *stream),
{
    match &call.recorded {
        Ok(book) => match book.streams.get(id) {
            Some(found) => found.same(stream),
            None => false,
        },
        Err(_) => false,
    }
}

/// Whether the book after an action holds a series.
pub open spec fn holds_series(call: BookCall, id: Id, series: Series) -> bool {
    let book = *call.recorded->Ok_0;
    call.recorded is Ok && book.series@.contains_key(id) && book.series@[id] == series
}

pub(crate) fn does_hold_series(call: &BookCall, id: &Id, series: &Series) -> (r: bool)
    ensures
        r == holds_series(*call, *id, *series),
{
    match &call.recorded {
        Ok(book) => match book.series.get(id) {
            Some(found) => found.same(series),
            None => false,
        },
        Err(_) => false,
    }
}

/// Whether the book after an action holds a credit decision.
pub open spec fn holds_decision(call: BookCall, id: Id, decision: CreditDecision) -> bool {
    let book = *call.recorded->Ok_0;
    call.recorded is Ok && book.credit_decisions@.contains_key(id)
        && book.credit_decisions@[id] == decision
}

pub(crate) fn does_hold_decision(call: &BookCall, id: &Id, decision: &CreditDecision) -> (r: bool)
    ensures
        r == holds_decision(*call, *id, *decision),
{
    match &call.recorded {
        Ok(book) => match book.credit_decisions.get(id) {
            Some(found) => found.same(decision),
            None => false,
        },
        Err(_) => false,
    }
}

/// Whether the book after an action holds a guarantee.
pub open spec fn holds_guarantee(call: BookCall, id: Id, guarantee: GuaranteeCommitment) -> bool {
    let book = *call.recorded->Ok_0;
    call.recorded is Ok && book.guarantees@.contains_key(id) && book.guarantees@[id] == guarantee
}

pub(crate) fn does_hold_guarantee(
    call: &BookCall,
    id: &Id,
    guarantee: &GuaranteeCommitment,
) -> (r: bool)
    ensures
        r == holds_guarantee(*call, *id, *guarantee),
{
    match &call.recorded {
        Ok(book) => match book.guarantees.get(id) {
            Some(found) => found.same(guarantee),
            None => false,
        },
        Err(_) => false,
    }
}

/// Whether the book after an action holds a funding quote.
pub open spec fn holds_quote(call: BookCall, id: Id, quote: FundingQuote) -> bool {
    let book = *call.recorded->Ok_0;
    call.recorded is Ok && book.funding_quotes@.contains_key(id)
        && book.funding_quotes@[id] == quote
}

pub(crate) fn does_hold_quote(call: &BookCall, id: &Id, quote: &FundingQuote) -> (r: bool)
    ensures
        r == holds_quote(*call, *id, *quote),
{
    match &call.recorded {
        Ok(book) => match book.funding_quotes.get(id) {
            Some(found) => found.same(quote),
            None => false,
        },
        Err(_) => false,
    }
}

/// Whether the book after an action holds an issuance.
pub open spec fn holds_issuance(call: BookCall, id: Id, issuance: ReceivableIssuance) -> bool {
    let book = *call.recorded->Ok_0;
    call.recorded is Ok && book.issuances@.contains_key(id) && book.issuances@[id] == issuance
}

pub(crate) fn does_hold_issuance(
    call: &BookCall,
    id: &Id,
    issuance: &ReceivableIssuance,
) -> (r: bool)
    ensures
        r == holds_issuance(*call, *id, *issuance),
{
    match &call.recorded {
        Ok(book) => match book.issuances.get(id) {
            Some(found) => found.same(issuance),
            None => false,
        },
        Err(_) => false,
    }
}

/// Whether the book after an action holds an attestation of a default.
pub open spec fn holds_default(call: BookCall, id: Id, attestation: DefaultAttestation) -> bool {
    let book = *call.recorded->Ok_0;
    call.recorded is Ok && book.default_attestations@.contains_key(id)
        && book.default_attestations@[id] == attestation
}

pub(crate) fn does_hold_default(
    call: &BookCall,
    id: &Id,
    attestation: &DefaultAttestation,
) -> (r: bool)
    ensures
        r == holds_default(*call, *id, *attestation),
{
    match &call.recorded {
        Ok(book) => match book.default_attestations.get(id) {
            Some(found) => found.same(attestation),
            None => false,
        },
        Err(_) => false,
    }
}

/// Whether the book after an action holds the provider that the ledger knows,
/// moved to a key.
pub open spec fn holds_key(ledger: Ledger, call: BookCall, id: Id, public_key: Id) -> bool {
    let book = *call.recorded->Ok_0;
    &&& call.recorded is Ok
    &&& ledger.aethel.providers@.contains_key(id)
    &&& book.providers@.contains_key(id)
    &&& rotated(ledger.aethel.providers@[id], book.providers@[id], public_key)
}

fn does_hold_key(state: &State, call: &BookCall, id: &Id, public_key: &Id) -> (r: bool)
    ensures
        r == holds_key(state@, *call, *id, *public_key),
{
    match &call.recorded {
        Ok(book) => match (state.aethel.providers.get(id), book.providers.get(id)) {
            (Some(before), Some(after)) => after.is_rotated(before, public_key),
            _ => false,
        },
        Err(_) => false,
    }
}

/// Whether the book after an action holds the provider that the ledger knows,
/// with a standing.
pub open spec fn holds_status(
    ledger: Ledger,
    call: BookCall,
    id: Id,
    status: ProviderStatus,
) -> bool {
    let book = *call.recorded->Ok_0;
    &&& call.recorded is Ok
    &&& ledger.aethel.providers@.contains_key(id)
    &&& book.providers@.contains_key(id)
    &&& restated(ledger.aethel.providers@[id], book.providers@[id], status)
}

fn does_hold_status(state: &State, call: &BookCall, id: &Id, status: ProviderStatus) -> (r: bool)
    ensures
        r == holds_status(state@, *call, *id, status),
{
    match &call.recorded {
        Ok(book) => match (state.aethel.providers.get(id), book.providers.get(id)) {
            (Some(before), Some(after)) => after.is_restated(before, status),
            _ => false,
        },
        Err(_) => false,
    }
}

/// Whether the book after an action holds a key epoch of a credential issuer.
pub open spec fn holds_issuer(call: BookCall, key: Numbered, issuer: CredentialIssuer) -> bool {
    let book = *call.recorded->Ok_0;
    call.recorded is Ok && book.credential_issuers@.contains_key(key)
        && book.credential_issuers@[key] == issuer
}

fn does_hold_issuer(call: &BookCall, key: &Numbered, issuer: &CredentialIssuer) -> (r: bool)
    ensures
        r == holds_issuer(*call, *key, *issuer),
{
    match &call.recorded {
        Ok(book) => match book.credential_issuers.get(key) {
            Some(found) => found.same(issuer),
            None => false,
        },
        Err(_) => false,
    }
}

/// Whether the book after an action holds a status list of a key epoch.
pub open spec fn holds_status_list(call: BookCall, key: Numbered, list: StatusList) -> bool {
    let book = *call.recorded->Ok_0;
    call.recorded is Ok && book.status_lists@.contains_key(key)
        && same_status_list(book.status_lists@[key], list)
}

fn does_hold_status_list(call: &BookCall, key: &Numbered, list: &StatusList) -> (r: bool)
    ensures
        r == holds_status_list(*call, *key, *list),
{
    match &call.recorded {
        Ok(book) => match book.status_lists.get(key) {
            Some(found) => found.same(list),
            None => false,
        },
        Err(_) => false,
    }
}

/// Why a subject's proof could not be read.
pub open spec fn subject_refusal(subject: Result<bool, String>) -> Option<Seq<char>> {
    match subject {
        Ok(_) => None,
        Err(message) => Some(message@),
    }
}

fn read_subject(subject: &Result<bool, String>) -> (r: Result<bool, String>)
    ensures
        match r {
            Ok(confidential) => *subject == Ok::<bool, String>(confidential),
            Err(message) => subject_refusal(*subject) == Some(message@),
        },
{
    match subject {
        Ok(confidential) => Ok(*confidential),
        Err(message) => Err(message.clone()),
    }
}

/// Whether the book after an action binds a subject to a request.
pub open spec fn binds_subject(call: BookCall, request_id: Id) -> bool {
    let book = *call.recorded->Ok_0;
    call.recorded is Ok && book.confidential_subjects@.contains_key(request_id)
}

fn does_bind_subject(call: &BookCall, request_id: &Id) -> (r: bool)
    ensures
        r == binds_subject(*call, *request_id),
{
    match &call.recorded {
        Ok(book) => book.confidential_subjects.contains_key(request_id),
        Err(_) => false,
    }
}

/// Whether the book after an action holds a guarantee with a status.
pub open spec fn holds_guarantee_status(call: BookCall, id: Id, status: GuaranteeStatus) -> bool {
    let book = *call.recorded->Ok_0;
    call.recorded is Ok && book.guarantee_statuses@.contains_key(id)
        && book.guarantee_statuses@[id] == status
}

pub(crate) fn does_hold_guarantee_status(
    call: &BookCall,
    id: &Id,
    status: GuaranteeStatus,
) -> (r: bool)
    ensures
        r == holds_guarantee_status(*call, *id, status),
{
    match &call.recorded {
        Ok(book) => match book.guarantee_statuses.get(id) {
            Some(found) => *found == status,
            None => false,
        },
        Err(_) => false,
    }
}

/// What the registration of a provider does.
pub open spec fn register_provider_outcome(
    ledger: Ledger,
    provider_id: Id,
    provider: Provider,
    operation_id: Id,
    call: BookCall,
    submission: Submission,
    timestamp: u64,
) -> Outcome {
    call_outcome(
        ledger,
        operation_id,
        call,
        submission,
        first(
            identity_refusal(ledger, provider),
            unheld_refusal(
                ledger,
                call,
                BookQuestion::RegisterProvider { provider_id },
                operation_id,
                timestamp,
                holds_provider(call, provider_id, provider),
            ),
        ),
    )
}

/// Registers a provider that fits its participant.
pub fn register_provider(
    state: &mut State,
    provider_id: &Id,
    provider: &Provider,
    operation_id: Id,
    call: BookCall,
    submission: &Submission,
    timestamp: u64,
) -> (r: Result<Id, String>)
    ensures
        meets(
            r,
            final(state)@,
            register_provider_outcome(
                old(state)@,
                *provider_id,
                *provider,
                operation_id,
                call,
                *submission,
                timestamp,
            ),
        ),
{
    let statement = enter(state, &call.statement, submission, &operation_id)?;
    validate_provider_identity(state, provider)?;
    let held = does_hold_provider(&call, provider_id, provider);
    let question = BookQuestion::RegisterProvider { provider_id: *provider_id };
    check_held(state, &call, &question, &operation_id, timestamp, held)?;
    keep(state, operation_id, call, statement, None)
}

/// Why a stream may not be registered: it settles on an active cash rail, and
/// its attestor may act.
pub open spec fn register_stream_refusal(
    ledger: Ledger,
    settlement_asset_id: Id,
    attestor_provider_id: Id,
    timestamp: u64,
) -> Option<Seq<char>> {
    let asset = asset_refusal(ledger, settlement_asset_id, "stream settlement asset"@);
    if asset is Some {
        asset
    } else if ledger.assets[settlement_asset_id].kind != AssetKind::Cash {
        Some("Aethel stream settlement asset must use a DeFMI cash rail"@)
    } else {
        runtime_refusal(
            ledger,
            attestor_provider_id,
            ProviderCapability::StreamAttestor,
            timestamp,
        )
    }
}

/// What the registration of a stream does.
pub open spec fn register_stream_outcome(
    ledger: Ledger,
    stream_id: Id,
    stream: Stream,
    operation_id: Id,
    call: BookCall,
    submission: Submission,
    timestamp: u64,
) -> Outcome {
    call_outcome(
        ledger,
        operation_id,
        call,
        submission,
        first(
            register_stream_refusal(
                ledger,
                stream.settlement_asset_id,
                stream.attestor_provider_id,
                timestamp,
            ),
            unheld_refusal(
                ledger,
                call,
                BookQuestion::RegisterStream { stream_id },
                operation_id,
                timestamp,
                holds_stream(call, stream_id, stream),
            ),
        ),
    )
}

/// Registers a stream.
pub fn register_stream(
    state: &mut State,
    stream_id: &Id,
    stream: &Stream,
    operation_id: Id,
    call: BookCall,
    submission: &Submission,
    timestamp: u64,
) -> (r: Result<Id, String>)
    ensures
        meets(
            r,
            final(state)@,
            register_stream_outcome(
                old(state)@,
                *stream_id,
                *stream,
                operation_id,
                call,
                *submission,
                timestamp,
            ),
        ),
{
    let statement = enter(state, &call.statement, submission, &operation_id)?;
    require_active_asset(state, &stream.settlement_asset_id, "stream settlement asset")?;
    let cash = match state.assets.get(&stream.settlement_asset_id) {
        Some(asset) => asset.kind == AssetKind::Cash,
        None => false,
    };
    if !cash {
        return refuse("Aethel stream settlement asset must use a DeFMI cash rail");
    }
    validate_provider_runtime(
        state,
        &stream.attestor_provider_id,
        ProviderCapability::StreamAttestor,
        timestamp,
    )?;
    let held = does_hold_stream(&call, stream_id, stream);
    let question = BookQuestion::RegisterStream { stream_id: *stream_id };
    check_held(state, &call, &question, &operation_id, timestamp, held)?;
    keep(state, operation_id, call, statement, None)
}

/// What the transition of a stream does.
pub open spec fn transition_stream_outcome(
    ledger: Ledger,
    attestor_provider_id: Id,
    stream_id: Id,
    stream: Stream,
    operation_id: Id,
    call: BookCall,
    submission: Submission,
    timestamp: u64,
) -> Outcome {
    call_outcome(
        ledger,
        operation_id,
        call,
        submission,
        first(
            runtime_refusal(
                ledger,
                attestor_provider_id,
                ProviderCapability::StreamAttestor,
                timestamp,
            ),
            unheld_refusal(
                ledger,
                call,
                BookQuestion::TransitionStream { attestor_provider_id, stream_id },
                operation_id,
                timestamp,
                holds_stream(call, stream_id, stream),
            ),
        ),
    )
}

/// Moves a stream to its next attested state.
pub fn transition_stream(
    state: &mut State,
    attestor_provider_id: &Id,
    stream_id: &Id,
    stream: &Stream,
    operation_id: Id,
    call: BookCall,
    submission: &Submission,
    timestamp: u64,
) -> (r: Result<Id, String>)
    ensures
        meets(
            r,
            final(state)@,
            transition_stream_outcome(
                old(state)@,
                *attestor_provider_id,
                *stream_id,
                *stream,
                operation_id,
                call,
                *submission,
                timestamp,
            ),
        ),
{
    let statement = enter(state, &call.statement, submission, &operation_id)?;
    validate_provider_runtime(
        state,
        attestor_provider_id,
        ProviderCapability::StreamAttestor,
        timestamp,
    )?;
    let held = does_hold_stream(&call, stream_id, stream);
    let question = BookQuestion::TransitionStream {
        attestor_provider_id: *attestor_provider_id,
        stream_id: *stream_id,
    };
    check_held(state, &call, &question, &operation_id, timestamp, held)?;
    keep(state, operation_id, call, statement, None)
}

/// What the registration of a series does.
pub open spec fn register_series_outcome(
    ledger: Ledger,
    series_id: Id,
    series: Series,
    operation_id: Id,
    call: BookCall,
    submission: Submission,
    timestamp: u64,
) -> Outcome {
    call_outcome(
        ledger,
        operation_id,
        call,
        submission,
        first(
            first(
                asset_refusal(ledger, series.receivable_asset_id, "receivable note asset"@),
                participant_refusal(ledger, series.issuer_participant_id),
            ),
            unheld_refusal(
                ledger,
                call,
                BookQuestion::RegisterSeries { series_id },
                operation_id,
                timestamp,
                holds_series(call, series_id, series),
            ),
        ),
    )
}

/// Registers a series on an active asset for an active participant.
pub fn register_series(
    state: &mut State,
    series_id: &Id,
    series: &Series,
    operation_id: Id,
    call: BookCall,
    submission: &Submission,
    timestamp: u64,
) -> (r: Result<Id, String>)
    ensures
        meets(
            r,
            final(state)@,
            register_series_outcome(
                old(state)@,
                *series_id,
                *series,
                operation_id,
                call,
                *submission,
                timestamp,
            ),
        ),
{
    let statement = enter(state, &call.statement, submission, &operation_id)?;
    require_active_asset(state, &series.receivable_asset_id, "receivable note asset")?;
    require_active_participant(state, &series.issuer_participant_id)?;
    let held = does_hold_series(&call, series_id, series);
    let question = BookQuestion::RegisterSeries { series_id: *series_id };
    check_held(state, &call, &question, &operation_id, timestamp, held)?;
    keep(state, operation_id, call, statement, None)
}

/// What the record of a credit decision does.
pub open spec fn record_credit_decision_outcome(
    ledger: Ledger,
    decision_id: Id,
    decision: CreditDecision,
    subject: Result<bool, String>,
    operation_id: Id,
    call: BookCall,
    submission: Submission,
    timestamp: u64,
) -> Outcome {
    call_outcome(
        ledger,
        operation_id,
        call,
        submission,
        first(
            first(
                runtime_refusal(
                    ledger,
                    decision.provider_id,
                    ProviderCapability::CreditAssessor,
                    timestamp,
                ),
                subject_refusal(subject),
            ),
            unheld_refusal(
                ledger,
                call,
                BookQuestion::RecordDecision { decision_id, request_id: decision.request_id },
                operation_id,
                timestamp,
                holds_decision(call, decision_id, decision) && (subject->Ok_0 ==> binds_subject(
                    call,
                    decision.request_id,
                )),
            ),
        ),
    )
}

/// Records a credit decision. `subject` says whether a subject's proof came with
/// it, or why that could not be read.
pub fn record_credit_decision(
    state: &mut State,
    decision_id: &Id,
    decision: &CreditDecision,
    subject: &Result<bool, String>,
    operation_id: Id,
    call: BookCall,
    submission: &Submission,
    timestamp: u64,
) -> (r: Result<Id, String>)
    ensures
        meets(
            r,
            final(state)@,
            record_credit_decision_outcome(
                old(state)@,
                *decision_id,
                *decision,
                *subject,
                operation_id,
                call,
                *submission,
                timestamp,
            ),
        ),
{
    let statement = enter(state, &call.statement, submission, &operation_id)?;
    validate_provider_runtime(
        state,
        &decision.provider_id,
        ProviderCapability::CreditAssessor,
        timestamp,
    )?;
    let confidential = read_subject(subject)?;
    let held = does_hold_decision(&call, decision_id, decision) && (!confidential
        || does_bind_subject(&call, &decision.request_id));
    let question = BookQuestion::RecordDecision {
        decision_id: *decision_id,
        request_id: decision.request_id,
    };
    check_held(state, &call, &question, &operation_id, timestamp, held)?;
    keep(state, operation_id, call, statement, None)
}

/// Why a provider's key may not be rotated: the next key is the current quote
/// key of its active participant.
pub open spec fn rotate_key_refusal(
    ledger: Ledger,
    provider_id: Id,
    next_public_key: Id,
    timestamp: u64,
) -> Option<Seq<char>> {
    let provider = ledger.aethel.providers@[provider_id];
    let participant = ledger.participants[provider.participant_id];
    if provider_refusal(ledger, provider_id) is Some {
        provider_refusal(ledger, provider_id)
    } else if participant_refusal(ledger, provider.participant_id) is Some {
        participant_refusal(ledger, provider.participant_id)
    } else if timestamp < participant.valid_from || timestamp > participant.valid_until
        || participant.quote_public_key != next_public_key {
        Some("Aethel provider key rotation must install the participant's current quote key"@)
    } else {
        None
    }
}

/// What the rotation of a provider's key does.
pub open spec fn rotate_provider_key_outcome(
    ledger: Ledger,
    provider_id: Id,
    next_public_key: Id,
    operation_id: Id,
    call: BookCall,
    submission: Submission,
    timestamp: u64,
) -> Outcome {
    call_outcome(
        ledger,
        operation_id,
        call,
        submission,
        first(
            rotate_key_refusal(ledger, provider_id, next_public_key, timestamp),
            unheld_refusal(
                ledger,
                call,
                BookQuestion::RotateKey { provider_id, next_public_key },
                operation_id,
                timestamp,
                holds_key(ledger, call, provider_id, next_public_key),
            ),
        ),
    )
}

/// Moves a provider to the current quote key of its participant.
pub fn rotate_provider_key(
    state: &mut State,
    provider_id: &Id,
    next_public_key: &Id,
    operation_id: Id,
    call: BookCall,
    submission: &Submission,
    timestamp: u64,
) -> (r: Result<Id, String>)
    ensures
        meets(
            r,
            final(state)@,
            rotate_provider_key_outcome(
                old(state)@,
                *provider_id,
                *next_public_key,
                operation_id,
                call,
                *submission,
                timestamp,
            ),
        ),
{
    let statement = enter(state, &call.statement, submission, &operation_id)?;
    let provider = find_provider(state, provider_id)?;
    let participant = require_active_participant(state, &provider.participant_id)?;
    if timestamp < participant.valid_from || timestamp > participant.valid_until
        || participant.quote_public_key != *next_public_key {
        return refuse(
            "Aethel provider key rotation must install the participant's current quote key",
        );
    }
    let held = does_hold_key(state, &call, provider_id, next_public_key);
    let question = BookQuestion::RotateKey {
        provider_id: *provider_id,
        next_public_key: *next_public_key,
    };
    check_held(state, &call, &question, &operation_id, timestamp, held)?;
    keep(state, operation_id, call, statement, None)
}

/// What a change of a provider's standing does.
pub open spec fn set_provider_status_outcome(
    ledger: Ledger,
    provider_id: Id,
    status: ProviderStatus,
    operation_id: Id,
    call: BookCall,
    submission: Submission,
    timestamp: u64,
) -> Outcome {
    call_outcome(
        ledger,
        operation_id,
        call,
        submission,
        unheld_refusal(
            ledger,
            call,
            BookQuestion::SetStatus { provider_id, status },
            operation_id,
            timestamp,
            holds_status(ledger, call, provider_id, status),
        ),
    )
}

/// Suspends, reinstates or revokes a provider at the committee's word.
pub fn set_provider_status(
    state: &mut State,
    provider_id: &Id,
    status: ProviderStatus,
    operation_id: Id,
    call: BookCall,
    submission: &Submission,
    timestamp: u64,
) -> (r: Result<Id, String>)
    ensures
        meets(
            r,
            final(state)@,
            set_provider_status_outcome(
                old(state)@,
                *provider_id,
                status,
                operation_id,
                call,
                *submission,
                timestamp,
            ),
        ),
{
    let statement = enter(state, &call.statement, submission, &operation_id)?;
    let held = does_hold_status(state, &call, provider_id, status);
    let question = BookQuestion::SetStatus { provider_id: *provider_id, status };
    check_held(state, &call, &question, &operation_id, timestamp, held)?;
    keep(state, operation_id, call, statement, None)
}

/// What the registration of a credential issuer does.
pub open spec fn register_credential_issuer_outcome(
    ledger: Ledger,
    provider_id: Id,
    epoch: Numbered,
    issuer: CredentialIssuer,
    operation_id: Id,
    call: BookCall,
    submission: Submission,
    timestamp: u64,
) -> Outcome {
    call_outcome(
        ledger,
        operation_id,
        call,
        submission,
        first(
            runtime_refusal(
                ledger,
                provider_id,
                ProviderCapability::CredentialIssuer,
                timestamp,
            ),
            unheld_refusal(
                ledger,
                call,
                BookQuestion::RegisterIssuer { provider_id, epoch },
                operation_id,
                timestamp,
                holds_issuer(call, epoch, issuer),
            ),
        ),
    )
}

/// Registers the key epoch of a credential issuer that a provider vouches for.
pub fn register_credential_issuer(
    state: &mut State,
    provider_id: &Id,
    epoch: &Numbered,
    issuer: &CredentialIssuer,
    operation_id: Id,
    call: BookCall,
    submission: &Submission,
    timestamp: u64,
) -> (r: Result<Id, String>)
    ensures
        meets(
            r,
            final(state)@,
            register_credential_issuer_outcome(
                old(state)@,
                *provider_id,
                *epoch,
                *issuer,
                operation_id,
                call,
                *submission,
                timestamp,
            ),
        ),
{
    let statement = enter(state, &call.statement, submission, &operation_id)?;
    validate_provider_runtime(
        state,
        provider_id,
        ProviderCapability::CredentialIssuer,
        timestamp,
    )?;
    let held = does_hold_issuer(&call, epoch, issuer);
    let question = BookQuestion::RegisterIssuer { provider_id: *provider_id, epoch: *epoch };
    check_held(state, &call, &question, &operation_id, timestamp, held)?;
    keep(state, operation_id, call, statement, None)
}

/// What the publication of a revocation list does.
pub open spec fn publish_credential_status_outcome(
    ledger: Ledger,
    epoch: Numbered,
    list: StatusList,
    operation_id: Id,
    call: BookCall,
    submission: Submission,
    timestamp: u64,
) -> Outcome {
    call_outcome(
        ledger,
        operation_id,
        call,
        submission,
        unheld_refusal(
            ledger,
            call,
            BookQuestion::PublishStatus { epoch },
            operation_id,
            timestamp,
            holds_status_list(call, epoch, list),
        ),
    )
}

/// Publishes a revocation list that its issuer has signed.
pub fn publish_credential_status(
    state: &mut State,
    epoch: &Numbered,
    list: &StatusList,
    operation_id: Id,
    call: BookCall,
    submission: &Submission,
    timestamp: u64,
) -> (r: Result<Id, String>)
    ensures
        meets(
            r,
            final(state)@,
            publish_credential_status_outcome(
                old(state)@,
                *epoch,
                *list,
                operation_id,
                call,
                *submission,
                timestamp,
            ),
        ),
{
    let statement = enter(state, &call.statement, submission, &operation_id)?;
    let held = does_hold_status_list(&call, epoch, list);
    let question = BookQuestion::PublishStatus { epoch: *epoch };
    check_held(state, &call, &question, &operation_id, timestamp, held)?;
    keep(state, operation_id, call, statement, None)
}

/// What the record of a funding quote does.
pub open spec fn record_funding_quote_outcome(
    ledger: Ledger,
    quote_id: Id,
    request: FundingQuote,
    call: BookCall,
    submission: Submission,
    timestamp: u64,
) -> Outcome {
    call_outcome(
        ledger,
        request.operation_id,
        call,
        submission,
        first(
            first(
                runtime_refusal(
                    ledger,
                    request.provider_id,
                    ProviderCapability::LiquidityProvider,
                    timestamp,
                ),
                funding_backing_refusal(ledger, request, timestamp),
            ),
            unheld_refusal(
                ledger,
                call,
                BookQuestion::RecordQuote { quote_id },
                request.operation_id,
                timestamp,
                holds_quote(call, quote_id, request),
            ),
        ),
    )
}

/// Records a funding quote that a live cash reserve backs.
pub fn record_funding_quote(
    state: &mut State,
    quote_id: &Id,
    request: &FundingQuote,
    call: BookCall,
    submission: &Submission,
    timestamp: u64,
) -> (r: Result<Id, String>)
    ensures
        meets(
            r,
            final(state)@,
            record_funding_quote_outcome(
                old(state)@,
                *quote_id,
                *request,
                call,
                *submission,
                timestamp,
            ),
        ),
{
    let statement = enter(state, &call.statement, submission, &request.operation_id)?;
    validate_provider_runtime(
        state,
        &request.provider_id,
        ProviderCapability::LiquidityProvider,
        timestamp,
    )?;
    validate_funding_backing(state, request, timestamp)?;
    let held = does_hold_quote(&call, quote_id, request);
    let question = BookQuestion::RecordQuote { quote_id: *quote_id };
    check_held(state, &call, &question, &request.operation_id, timestamp, held)?;
    keep(state, request.operation_id, call, statement, None)
}

/// What the record of a default does.
pub open spec fn record_default_outcome(
    ledger: Ledger,
    attestation_id: Id,
    request: DefaultAttestation,
    call: BookCall,
    submission: Submission,
    timestamp: u64,
) -> Outcome {
    call_outcome(
        ledger,
        request.operation_id,
        call,
        submission,
        first(
            runtime_refusal(
                ledger,
                request.provider_id,
                ProviderCapability::Servicer,
                timestamp,
            ),
            unheld_refusal(
                ledger,
                call,
                BookQuestion::RecordDefault { attestation_id },
                request.operation_id,
                timestamp,
                holds_default(call, attestation_id, request),
            ),
        ),
    )
}

/// Records a servicer's attestation of a default.
pub fn record_default(
    state: &mut State,
    attestation_id: &Id,
    request: &DefaultAttestation,
    call: BookCall,
    submission: &Submission,
    timestamp: u64,
) -> (r: Result<Id, String>)
    ensures
        meets(
            r,
            final(state)@,
            record_default_outcome(
                old(state)@,
                *attestation_id,
                *request,
                call,
                *submission,
                timestamp,
            ),
        ),
{
    let statement = enter(state, &call.statement, submission, &request.operation_id)?;
    validate_provider_runtime(
        state,
        &request.provider_id,
        ProviderCapability::Servicer,
        timestamp,
    )?;
    let held = does_hold_default(&call, attestation_id, request);
    let question = BookQuestion::RecordDefault { attestation_id: *attestation_id };
    check_held(state, &call, &question, &request.operation_id, timestamp, held)?;
    keep(state, request.operation_id, call, statement, None)
}

/// The place of a guarantee in the clearing book's order of losses.
#[derive(Clone, Copy, Debug, PartialEq, Eq, Structural)]
pub enum ClearingLossLayer {
    FirstLoss,
    PariPassu,
    Excess,
}

/// The clearing book's name of a loss layer.
pub open spec fn clearing_layer(layer: LossLayer) -> ClearingLossLayer {
    match layer {
        LossLayer::FirstLoss => ClearingLossLayer::FirstLoss,
        LossLayer::PariPassu => ClearingLossLayer::PariPassu,
        LossLayer::Excess => ClearingLossLayer::Excess,
    }
}

/// The clearing book's name of a loss layer.
pub fn deccp_loss_layer(layer: LossLayer) -> (r: ClearingLossLayer)
    ensures
        r == clearing_layer(layer),
{
    match layer {
        LossLayer::FirstLoss => ClearingLossLayer::FirstLoss,
        LossLayer::PariPassu => ClearingLossLayer::PariPassu,
        LossLayer::Excess => ClearingLossLayer::Excess,
    }
}

/// The reservation that a guarantee asks of the clearing book.
#[derive(Clone, Copy, Debug)]
pub struct GuaranteeOffer {
    pub operation_id: Id,
    pub guarantee_id: Id,
    pub request_id: Id,
    pub provider_id: Id,
    pub series_id: Id,
    pub stream_state_version: u64,
    pub stream_state_root: Id,
    pub credit_decision_id: Option<Id>,
    pub deccp_facility_id: Id,
    pub deccp_expected_sequence: u64,
    pub deccp_expected_state_digest: Id,
    pub deccp_after_state_digest: Id,
    pub deccp_hold_id: Id,
    pub defmi_facility_id: Id,
    pub defmi_hold_id: Id,
    pub coverage_commitment: Id,
    pub beneficiary_subject_line_id: Id,
    pub loss_layer: ClearingLossLayer,
    pub guarantee_terms_digest: Id,
    pub claim_policy_digest: Id,
    pub relation_proof_digest: Id,
    pub valid_until: u64,
    pub nonce: Id,
}

/// Why a guarantee has no reservation to ask for.
pub open spec fn offer_refusal(
    ledger: Ledger,
    book: ClearingBook,
    guarantee: GuaranteeCommitment,
) -> Option<Seq<char>> {
    if !book.facilities@.contains_key(guarantee.defmi_facility_id) {
        Some("Aethel guarantee names a facility DeCCP does not clear"@)
    } else if !ledger.credit_holds.contains_key(guarantee.defmi_hold_id) {
        Some("Aethel guarantee names an unknown DeFMI hold"@)
    } else {
        None
    }
}

/// The reservation that a guarantee asks for. Its hold is named by the
/// guarantee, and what the book should be at comes from the book itself.
pub open spec fn offer_of(
    ledger: Ledger,
    book: ClearingBook,
    guarantee: GuaranteeCommitment,
) -> GuaranteeOffer {
    let facility = book.facilities@[guarantee.defmi_facility_id];
    let hold = ledger.credit_holds[guarantee.defmi_hold_id];
    GuaranteeOffer {
        operation_id: guarantee.operation_id,
        guarantee_id: guarantee.guarantee_id,
        request_id: guarantee.request_id,
        provider_id: guarantee.provider_id,
        series_id: guarantee.series_id,
        stream_state_version: guarantee.stream_state_version,
        stream_state_root: guarantee.stream_state_root,
        credit_decision_id: guarantee.credit_decision_id,
        deccp_facility_id: facility.facility_id,
        deccp_expected_sequence: facility.sequence,
        deccp_expected_state_digest: facility.latest_facility_state_digest,
        deccp_after_state_digest: next_state(
            facility.latest_facility_state_digest,
            FacilityTransition::Reserve,
            guarantee.defmi_hold_id,
            guarantee.coverage_commitment,
            hold.created_sequence,
        ),
        deccp_hold_id: guarantee.guarantee_id,
        defmi_facility_id: guarantee.defmi_facility_id,
        defmi_hold_id: guarantee.defmi_hold_id,
        coverage_commitment: guarantee.coverage_commitment,
        beneficiary_subject_line_id: facility.beneficiary_subject_line_id,
        loss_layer: clearing_layer(guarantee.loss_layer),
        guarantee_terms_digest: guarantee.guarantee_terms_digest,
        claim_policy_digest: guarantee.claim_policy_digest,
        relation_proof_digest: guarantee.relation_proof_digest,
        valid_until: guarantee.valid_until,
        nonce: guarantee.nonce,
    }
}

/// The reservation that a guarantee asks for.
pub fn deccp_offer(
    state: &State,
    book: &ClearingBook,
    guarantee: &GuaranteeCommitment,
) -> (r: Result<GuaranteeOffer, String>)
    ensures
        match r {
            Ok(offer) => offer_refusal(state@, *book, *guarantee) is None && offer == offer_of(
                state@,
                *book,
                *guarantee,
            ),
            Err(message) => offer_refusal(state@, *book, *guarantee) == Some(message@),
        },
{
    let facility = match book.facilities.get(&guarantee.defmi_facility_id) {
        Some(facility) => facility,
        None => return refuse("Aethel guarantee names a facility DeCCP does not clear"),
    };
    let hold = match state.credit_holds.get(&guarantee.defmi_hold_id) {
        Some(hold) => hold,
        None => return refuse("Aethel guarantee names an unknown DeFMI hold"),
    };
    Ok(
        GuaranteeOffer {
            operation_id: guarantee.operation_id,
            guarantee_id: guarantee.guarantee_id,
            request_id: guarantee.request_id,
            provider_id: guarantee.provider_id,
            series_id: guarantee.series_id,
            stream_state_version: guarantee.stream_state_version,
            stream_state_root: guarantee.stream_state_root,
            credit_decision_id: guarantee.credit_decision_id,
            deccp_facility_id: facility.facility_id,
            deccp_expected_sequence: facility.sequence,
            deccp_expected_state_digest: facility.latest_facility_state_digest,
            deccp_after_state_digest: next_facility_state(
                facility.latest_facility_state_digest,
                FacilityTransition::Reserve,
                guarantee.defmi_hold_id,
                guarantee.coverage_commitment,
                hold.created_sequence,
            ),
            deccp_hold_id: guarantee.guarantee_id,
            defmi_facility_id: guarantee.defmi_facility_id,
            defmi_hold_id: guarantee.defmi_hold_id,
            coverage_commitment: guarantee.coverage_commitment,
            beneficiary_subject_line_id: facility.beneficiary_subject_line_id,
            loss_layer: deccp_loss_layer(guarantee.loss_layer),
            guarantee_terms_digest: guarantee.guarantee_terms_digest,
            claim_policy_digest: guarantee.claim_policy_digest,
            relation_proof_digest: guarantee.relation_proof_digest,
            valid_until: guarantee.valid_until,
            nonce: guarantee.nonce,
        },
    )
}

/// A recorded guarantee as the clearing book knows it.
#[derive(Clone, Copy, Debug)]
pub struct GuaranteeBinding {
    pub guarantee_id: Id,
    pub request_id: Id,
    pub provider_id: Id,
    pub series_id: Id,
    pub stream_state_version: u64,
    pub stream_state_root: Id,
    pub credit_decision_id: Option<Id>,
    pub deccp_facility_id: Id,
    pub deccp_hold_id: Id,
    pub defmi_facility_id: Id,
    pub defmi_hold_id: Id,
    pub coverage_commitment: Id,
    pub loss_layer: ClearingLossLayer,
    pub guarantee_terms_digest: Id,
    pub claim_policy_digest: Id,
    pub relation_proof_digest: Id,
    pub valid_until: u64,
    pub nonce: Id,
}

/// Why the clearing book does not know a guarantee.
pub open spec fn binding_refusal(
    book: ClearingBook,
    guarantee: GuaranteeCommitment,
) -> Option<Seq<char>> {
    let hold = book.holds@[guarantee.guarantee_id];
    if !book.holds@.contains_key(guarantee.guarantee_id) {
        Some("DeCCP holds no reservation for the Aethel guarantee"@)
    } else if hold.defmi_hold_id != guarantee.defmi_hold_id || hold.coverage_commitment
        != guarantee.coverage_commitment || hold.facility_id != guarantee.defmi_facility_id {
        Some("DeCCP reservation and Aethel guarantee describe different holds"@)
    } else {
        None
    }
}

/// A recorded guarantee as the clearing book knows it.
pub open spec fn binding_of(
    book: ClearingBook,
    guarantee: GuaranteeCommitment,
) -> GuaranteeBinding {
    let hold = book.holds@[guarantee.guarantee_id];
    GuaranteeBinding {
        guarantee_id: guarantee.guarantee_id,
        request_id: guarantee.request_id,
        provider_id: guarantee.provider_id,
        series_id: guarantee.series_id,
        stream_state_version: guarantee.stream_state_version,
        stream_state_root: guarantee.stream_state_root,
        credit_decision_id: guarantee.credit_decision_id,
        deccp_facility_id: hold.facility_id,
        deccp_hold_id: hold.hold_id,
        defmi_facility_id: guarantee.defmi_facility_id,
        defmi_hold_id: guarantee.defmi_hold_id,
        coverage_commitment: guarantee.coverage_commitment,
        loss_layer: clearing_layer(guarantee.loss_layer),
        guarantee_terms_digest: guarantee.guarantee_terms_digest,
        claim_policy_digest: guarantee.claim_policy_digest,
        relation_proof_digest: guarantee.relation_proof_digest,
        valid_until: guarantee.valid_until,
        nonce: guarantee.nonce,
    }
}

/// The binding of a recorded guarantee.
pub fn deccp_binding(book: &ClearingBook, guarantee: &GuaranteeCommitment) -> (r: Result<
    GuaranteeBinding,
    String,
>)
    ensures
        match r {
            Ok(binding) => binding_refusal(*book, *guarantee) is None && binding == binding_of(
                *book,
                *guarantee,
            ),
            Err(message) => binding_refusal(*book, *guarantee) == Some(message@),
        },
{
    let hold = match book.holds.get(&guarantee.guarantee_id) {
        Some(hold) => hold,
        None => return refuse("DeCCP holds no reservation for the Aethel guarantee"),
    };
    if hold.defmi_hold_id != guarantee.defmi_hold_id || hold.coverage_commitment
        != guarantee.coverage_commitment || hold.facility_id != guarantee.defmi_facility_id {
        return refuse("DeCCP reservation and Aethel guarantee describe different holds");
    }
    Ok(
        GuaranteeBinding {
            guarantee_id: guarantee.guarantee_id,
            request_id: guarantee.request_id,
            provider_id: guarantee.provider_id,
            series_id: guarantee.series_id,
            stream_state_version: guarantee.stream_state_version,
            stream_state_root: guarantee.stream_state_root,
            credit_decision_id: guarantee.credit_decision_id,
            deccp_facility_id: hold.facility_id,
            deccp_hold_id: hold.hold_id,
            defmi_facility_id: guarantee.defmi_facility_id,
            defmi_hold_id: guarantee.defmi_hold_id,
            coverage_commitment: guarantee.coverage_commitment,
            loss_layer: deccp_loss_layer(guarantee.loss_layer),
            guarantee_terms_digest: guarantee.guarantee_terms_digest,
            claim_policy_digest: guarantee.claim_policy_digest,
            relation_proof_digest: guarantee.relation_proof_digest,
            valid_until: guarantee.valid_until,
            nonce: guarantee.nonce,
        },
    )
}

/// Why a guarantee may not be recorded, up to the clearing book's answer.
pub open spec fn record_guarantee_refusal(
    ledger: Ledger,
    request: GuaranteeCommitment,
    timestamp: u64,
) -> Option<Seq<char>> {
    let runtime = runtime_refusal(
        ledger,
        request.provider_id,
        ProviderCapability::Guarantor,
        timestamp,
    );
    if runtime is Some {
        runtime
    } else if guarantee_backing_refusal(ledger, request, timestamp) is Some {
        guarantee_backing_refusal(ledger, request, timestamp)
    } else if clearing_book_refusal(ledger) is Some {
        clearing_book_refusal(ledger)
    } else {
        offer_refusal(ledger, ledger.deccp->0, request)
    }
}

/// What an action does that the clearing book answers first, to the question
/// given: `refusal` comes before the answer and `later` after it.
pub open spec fn cleared_outcome(
    ledger: Ledger,
    operation_id: Id,
    call: BookCall,
    submission: Submission,
    refusal: Option<Seq<char>>,
    answer: ClearingAnswer,
    question: ClearingQuestion,
    now: u64,
    what: Seq<char>,
    attested: Option<Seq<char>>,
    later: Option<Seq<char>>,
) -> Outcome {
    unless(
        first(
            call_refusal(ledger, operation_id, call, submission),
            first(
                refusal,
                first(answer_refusal(ledger, answer, question, now, what, attested), later),
            ),
        ),
        ledger,
        recorded_outcome(ledger, operation_id, call, Some(*answer.book->Ok_0)),
    )
}

/// Why the records do not support the reservation of an offer.
pub open spec fn reserve_attestation(ledger: Ledger, offer: GuaranteeOffer) -> Option<Seq<char>> {
    guarantee_hold_refusal(
        ledger,
        ledger.deccp->0.facilities@[offer.defmi_facility_id],
        ConfidentialReservation {
            defmi_hold_id: offer.defmi_hold_id,
            coverage_commitment: offer.coverage_commitment,
            expected_facility_state_digest: offer.deccp_expected_state_digest,
            after_facility_state_digest: offer.deccp_after_state_digest,
            valid_until: offer.valid_until,
        },
    )
}

fn attest_reservation(state: &State, offer: &GuaranteeOffer) -> (r: Result<(), String>)
    requires
        state@.deccp is Some,
        state@.deccp->0.facilities@.contains_key(offer.defmi_facility_id),
    ensures
        verdict(r, reserve_attestation(state@, *offer)),
{
    let book = clearing_book(state)?;
    match book.facilities.get(&offer.defmi_facility_id) {
        Some(facility) => VmDefmiPort { state }.verify_confidential_guarantee_hold(
            facility,
            &ConfidentialReservation {
                defmi_hold_id: offer.defmi_hold_id,
                coverage_commitment: offer.coverage_commitment,
                expected_facility_state_digest: offer.deccp_expected_state_digest,
                after_facility_state_digest: offer.deccp_after_state_digest,
                valid_until: offer.valid_until,
            },
        ),
        None => Ok(()),
    }
}

/// What the record of a guarantee does.
pub open spec fn record_guarantee_outcome(
    ledger: Ledger,
    request: GuaranteeCommitment,
    answer: ClearingAnswer,
    subject: Result<bool, String>,
    call: BookCall,
    submission: Submission,
    timestamp: u64,
) -> Outcome {
    cleared_outcome(
        ledger,
        request.operation_id,
        call,
        submission,
        record_guarantee_refusal(ledger, request, timestamp),
        answer,
        ClearingQuestion::Reserve { offer: offer_of(ledger, ledger.deccp->0, request) },
        timestamp,
        "DeCCP refused the guarantee reservation: "@,
        reserve_attestation(ledger, offer_of(ledger, ledger.deccp->0, request)),
        first(
            subject_refusal(subject),
            unheld_refusal(
                ledger,
                call,
                BookQuestion::RecordGuarantee { request },
                request.operation_id,
                timestamp,
                holds_guarantee(call, request.guarantee_id, request) && holds_guarantee_status(
                    call,
                    request.guarantee_id,
                    GuaranteeStatus::Open,
                ) && (subject->Ok_0 ==> binds_subject(call, request.request_id)),
            ),
        ),
    )
}

/// Records a guarantee that a live hold backs. The clearing book reserves the
/// hidden capacity first; `answer` is the book after it, and `subject` says whether
/// a subject's proof came with the guarantee, or why that could not be read.
pub fn record_guarantee(
    state: &mut State,
    request: &GuaranteeCommitment,
    answer: ClearingAnswer,
    subject: &Result<bool, String>,
    call: BookCall,
    submission: &Submission,
    timestamp: u64,
) -> (r: Result<Id, String>)
    ensures
        meets(
            r,
            final(state)@,
            record_guarantee_outcome(
                old(state)@,
                *request,
                answer,
                *subject,
                call,
                *submission,
                timestamp,
            ),
        ),
{
    let statement = enter(state, &call.statement, submission, &request.operation_id)?;
    validate_provider_runtime(
        state,
        &request.provider_id,
        ProviderCapability::Guarantor,
        timestamp,
    )?;
    validate_guarantee_backing(state, request, timestamp)?;
    let book = clearing_book(state)?;
    let offer = deccp_offer(state, book, request)?;
    let attested = attest_reservation(state, &offer);
    let reserved = read_answer(
        state,
        answer,
        &ClearingQuestion::Reserve { offer },
        timestamp,
        "DeCCP refused the guarantee reservation: ",
        &attested,
    )?;
    let confidential = read_subject(subject)?;
    let held = does_hold_guarantee(&call, &request.guarantee_id, request)
        && does_hold_guarantee_status(&call, &request.guarantee_id, GuaranteeStatus::Open) && (
    !confidential || does_bind_subject(&call, &request.request_id));
    let question = BookQuestion::RecordGuarantee { request: *request };
    check_held(state, &call, &question, &request.operation_id, timestamp, held)?;
    keep(state, request.operation_id, call, statement, Some(reserved))
}

/// A withdrawal of a guarantee.
#[derive(Clone, Copy, Debug)]
pub struct GuaranteeRelease {
    pub operation_id: Id,
    pub provider_id: Id,
    pub guarantee_id: Id,
    pub defmi_settlement_digest: Id,
    pub relation_proof_digest: Id,
}

/// A release or claim that a guarantee asks of the clearing book. The context
/// of the receipt is still to be filled in.
#[derive(Clone, Copy, Debug)]
pub struct GuaranteeTransition {
    pub operation_id: Id,
    pub deccp_expected_sequence: u64,
    pub deccp_expected_state_digest: Id,
    pub deccp_after_state_digest: Id,
    pub transition_proof_digest: Id,
    pub receipt: SettlementReceipt,
}

/// The release or claim of a guarantee on the clearing facility as it is.
pub open spec fn transition_of(
    facility: ConfidentialFacility,
    kind: FacilityTransition,
    guarantee: GuaranteeCommitment,
    updated_sequence: u64,
    operation_id: Id,
    proof_digest: Id,
    settlement_digest: Id,
    timestamp: u64,
) -> GuaranteeTransition {
    GuaranteeTransition {
        operation_id,
        deccp_expected_sequence: facility.sequence,
        deccp_expected_state_digest: facility.latest_facility_state_digest,
        deccp_after_state_digest: next_state(
            facility.latest_facility_state_digest,
            kind,
            guarantee.defmi_hold_id,
            guarantee.coverage_commitment,
            updated_sequence,
        ),
        transition_proof_digest: proof_digest,
        receipt: SettlementReceipt {
            receipt_digest: settlement_digest,
            context_digest: Id::zero(),
            finalized_at: timestamp,
        },
    }
}

pub(crate) fn make_transition(
    facility: &ConfidentialFacility,
    kind: FacilityTransition,
    guarantee: &GuaranteeCommitment,
    updated_sequence: u64,
    operation_id: Id,
    proof_digest: Id,
    settlement_digest: Id,
    timestamp: u64,
) -> (r: GuaranteeTransition)
    ensures
        r == transition_of(
            *facility,
            kind,
            *guarantee,
            updated_sequence,
            operation_id,
            proof_digest,
            settlement_digest,
            timestamp,
        ),
{
    GuaranteeTransition {
        operation_id,
        deccp_expected_sequence: facility.sequence,
        deccp_expected_state_digest: facility.latest_facility_state_digest,
        deccp_after_state_digest: next_facility_state(
            facility.latest_facility_state_digest,
            kind,
            guarantee.defmi_hold_id,
            guarantee.coverage_commitment,
            updated_sequence,
        ),
        transition_proof_digest: proof_digest,
        receipt: SettlementReceipt {
            receipt_digest: settlement_digest,
            context_digest: Id::zero(),
            finalized_at: timestamp,
        },
    }
}

/// Why a guarantee has no facility in the clearing book.
pub open spec fn cleared_facility_refusal(
    ledger: Ledger,
    guarantee: GuaranteeCommitment,
) -> Option<Seq<char>> {
    let book = ledger.deccp->0;
    let facility_id = binding_of(book, guarantee).deccp_facility_id;
    if clearing_book_refusal(ledger) is Some {
        clearing_book_refusal(ledger)
    } else if binding_refusal(book, guarantee) is Some {
        binding_refusal(book, guarantee)
    } else if !book.facilities@.contains_key(facility_id) {
        Some("DeCCP facility for the guarantee is absent"@)
    } else {
        None
    }
}

pub(crate) fn find_cleared_facility<'a>(
    state: &'a State,
    guarantee: &GuaranteeCommitment,
) -> (r: Result<
    (GuaranteeBinding, &'a ConfidentialFacility),
    String,
>)
    ensures
        match r {
            Ok((binding, facility)) => {
                &&& cleared_facility_refusal(state@, *guarantee) is None
                &&& binding == binding_of(state@.deccp->0, *guarantee)
                &&& *facility == state@.deccp->0.facilities@[binding.deccp_facility_id]
            },
            Err(message) => cleared_facility_refusal(state@, *guarantee) == Some(message@),
        },
{
    let book = clearing_book(state)?;
    let binding = deccp_binding(book, guarantee)?;
    let facility = match book.facilities.get(&binding.deccp_facility_id) {
        Some(facility) => facility,
        None => return refuse("DeCCP facility for the guarantee is absent"),
    };
    Ok((binding, facility))
}

/// Why a guarantee may not be withdrawn, up to the clearing book's answer. Its
/// backing hold must already be released by the named settlement.
pub open spec fn release_guarantee_refusal(
    ledger: Ledger,
    request: GuaranteeRelease,
) -> Option<Seq<char>> {
    let guarantee = ledger.aethel.guarantees@[request.guarantee_id];
    let hold = ledger.credit_holds[guarantee.defmi_hold_id];
    if !ledger.aethel.guarantees@.contains_key(request.guarantee_id) {
        Some("Aethel release names an unknown guarantee"@)
    } else if !ledger.credit_holds.contains_key(guarantee.defmi_hold_id) {
        Some("Aethel release guarantee hold is absent"@)
    } else if hold.status != HoldStatus::Released || hold.settlement_digest
        != request.defmi_settlement_digest {
        Some("Aethel release is not bound to the released DeFMI guarantee hold"@)
    } else {
        cleared_facility_refusal(ledger, guarantee)
    }
}

/// The release that a withdrawal asks of the clearing book, with the binding of
/// its guarantee.
pub fn guarantee_release(state: &State, request: &GuaranteeRelease, timestamp: u64) -> (r: Result<
    (GuaranteeBinding, GuaranteeTransition),
    String,
>)
    ensures
        match r {
            Ok((binding, transition)) => {
                &&& release_guarantee_refusal(state@, *request) is None
                &&& binding == release_binding(state@, *request)
                &&& transition == release_transition(state@, *request, timestamp)
            },
            Err(message) => release_guarantee_refusal(state@, *request) == Some(message@),
        },
{
    let guarantee = match state.aethel.guarantees.get(&request.guarantee_id) {
        Some(guarantee) => guarantee,
        None => return refuse("Aethel release names an unknown guarantee"),
    };
    let hold = match state.credit_holds.get(&guarantee.defmi_hold_id) {
        Some(hold) => hold,
        None => return refuse("Aethel release guarantee hold is absent"),
    };
    if hold.status != HoldStatus::Released || hold.settlement_digest
        != request.defmi_settlement_digest {
        return refuse("Aethel release is not bound to the released DeFMI guarantee hold");
    }
    let (binding, facility) = find_cleared_facility(state, guarantee)?;
    let transition = make_transition(
        facility,
        FacilityTransition::Release,
        guarantee,
        hold.updated_sequence,
        request.operation_id,
        request.relation_proof_digest,
        request.defmi_settlement_digest,
        timestamp,
    );
    Ok((binding, transition))
}

/// The binding of the guarantee that is withdrawn.
pub open spec fn release_binding(ledger: Ledger, request: GuaranteeRelease) -> GuaranteeBinding {
    binding_of(ledger.deccp->0, ledger.aethel.guarantees@[request.guarantee_id])
}

/// The release that a withdrawal asks for.
pub open spec fn release_transition(
    ledger: Ledger,
    request: GuaranteeRelease,
    timestamp: u64,
) -> GuaranteeTransition {
    let guarantee = ledger.aethel.guarantees@[request.guarantee_id];
    let binding = release_binding(ledger, request);
    transition_of(
        ledger.deccp->0.facilities@[binding.deccp_facility_id],
        FacilityTransition::Release,
        guarantee,
        ledger.credit_holds[guarantee.defmi_hold_id].updated_sequence,
        request.operation_id,
        request.relation_proof_digest,
        request.defmi_settlement_digest,
        timestamp,
    )
}

/// What a release or claim asks the records to attest.
pub open spec fn attested_request(transition: GuaranteeTransition) -> ConfidentialRequest {
    ConfidentialRequest {
        expected_facility_state_digest: transition.deccp_expected_state_digest,
        after_facility_state_digest: transition.deccp_after_state_digest,
        receipt: transition.receipt,
    }
}

/// Why the records do not support the release that is asked for.
pub open spec fn release_attestation(
    ledger: Ledger,
    binding: GuaranteeBinding,
    transition: GuaranteeTransition,
    now: u64,
) -> Option<Seq<char>> {
    let book = ledger.deccp->0;
    release_receipt_refusal(
        ledger,
        book.facilities@[binding.deccp_facility_id],
        book.holds@[binding.guarantee_id],
        attested_request(transition),
        now,
    )
}

fn attest_release(
    state: &State,
    binding: &GuaranteeBinding,
    transition: &GuaranteeTransition,
    now: u64,
) -> (r: Result<(), String>)
    requires
        state@.deccp is Some,
        state@.deccp->0.facilities@.contains_key(binding.deccp_facility_id),
        state@.deccp->0.holds@.contains_key(binding.guarantee_id),
    ensures
        verdict(r, release_attestation(state@, *binding, *transition, now)),
{
    let book = clearing_book(state)?;
    let facility = book.facilities.get(&binding.deccp_facility_id);
    let hold = book.holds.get(&binding.guarantee_id);
    match (facility, hold) {
        (Some(facility), Some(hold)) => {
            let request = ConfidentialRequest {
                expected_facility_state_digest: transition.deccp_expected_state_digest,
                after_facility_state_digest: transition.deccp_after_state_digest,
                receipt: transition.receipt,
            };
            VmDefmiPort { state }.verify_confidential_guarantee_release(
                facility,
                hold,
                &request,
                now,
            )
        },
        _ => Ok(()),
    }
}

/// What the withdrawal of a guarantee does.
pub open spec fn release_guarantee_outcome(
    ledger: Ledger,
    request: GuaranteeRelease,
    answer: ClearingAnswer,
    call: BookCall,
    submission: Submission,
    timestamp: u64,
) -> Outcome {
    cleared_outcome(
        ledger,
        request.operation_id,
        call,
        submission,
        first(
            runtime_refusal(
                ledger,
                request.provider_id,
                ProviderCapability::Guarantor,
                timestamp,
            ),
            release_guarantee_refusal(ledger, request),
        ),
        answer,
        ClearingQuestion::Release {
            binding: release_binding(ledger, request),
            transition: release_transition(ledger, request, timestamp),
        },
        timestamp,
        "DeCCP refused the guarantee release: "@,
        release_attestation(
            ledger,
            release_binding(ledger, request),
            release_transition(ledger, request, timestamp),
            timestamp,
        ),
        unheld_refusal(
            ledger,
            call,
            BookQuestion::ReleaseGuarantee { request },
            request.operation_id,
            timestamp,
            holds_guarantee_status(call, request.guarantee_id, GuaranteeStatus::Released),
        ),
    )
}

/// Withdraws a guarantee whose hold is released. `answer` is the clearing book
/// after it has taken the capacity back.
pub fn release_guarantee(
    state: &mut State,
    request: &GuaranteeRelease,
    answer: ClearingAnswer,
    call: BookCall,
    submission: &Submission,
    timestamp: u64,
) -> (r: Result<Id, String>)
    ensures
        meets(
            r,
            final(state)@,
            release_guarantee_outcome(
                old(state)@,
                *request,
                answer,
                call,
                *submission,
                timestamp,
            ),
        ),
{
    let statement = enter(state, &call.statement, submission, &request.operation_id)?;
    validate_provider_runtime(
        state,
        &request.provider_id,
        ProviderCapability::Guarantor,
        timestamp,
    )?;
    let (binding, transition) = guarantee_release(state, request, timestamp)?;
    let attested = attest_release(state, &binding, &transition, timestamp);
    let released = read_answer(
        state,
        answer,
        &ClearingQuestion::Release { binding, transition },
        timestamp,
        "DeCCP refused the guarantee release: ",
        &attested,
    )?;
    let held = does_hold_guarantee_status(
        &call,
        &request.guarantee_id,
        GuaranteeStatus::Released,
    );
    let question = BookQuestion::ReleaseGuarantee { request: *request };
    check_held(state, &call, &question, &request.operation_id, timestamp, held)?;
    keep(state, request.operation_id, call, statement, Some(released))
}

} // verus!
