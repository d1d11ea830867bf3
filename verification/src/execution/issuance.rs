//! The issuance of receivable notes and claims on their guarantees.

use vstd::prelude::*;

use crate::aethel_book::{
    GuaranteeClaim, GuaranteeStatus, ReceivableIssuance, Series, Stream,
};
use crate::crypto::{base64_bytes, sha256};
use crate::endorsement::{statement_of, Submission};
use crate::execution::aethel::{
    absent_reference, base64_field, base64_field_refusal, credit_reference, credit_reference_of,
    funding_reference, funding_reference_of, guarantee_reference, guarantee_reference_of,
    instruction_wire_digest, issuance_provider_refusal, stream_refusal,
    validate_issuance_provider_status, verify_receivable_zkpi, zkpi_refusal, ProviderReference,
    ReceivableInstruction, ReceivableOperation, SubmittedInstruction,
};
use crate::execution::book_question::{check_held, unheld_refusal, BookCall, BookQuestion};
use crate::execution::clearing_question::{read_answer, ClearingAnswer, ClearingQuestion};
use crate::execution::deccp::{
    claim_receipt_refusal, clearing_book, clearing_book_refusal, enter, ConfidentialRequest,
    FacilityTransition, VmDefmiPort,
};
use crate::execution::receivables::{
    attested_request, binding_of, binding_refusal, call_outcome, cleared_facility_refusal,
    cleared_outcome, deccp_binding, does_hold_guarantee_status, does_hold_issuance,
    find_cleared_facility, holds_guarantee_status, holds_issuance, keep, make_transition,
    transition_of, GuaranteeBinding, GuaranteeTransition,
};
use crate::id::Id;
use crate::outcome::{first, meets, refusal_of, refuse, repeat, verdict, Outcome};
use crate::state::{HoldStatus, Ledger, NoteClaimKind, NoteClaimRecord, State};

verus! {

/// The successor of a stream's state for an issuance: the stream and version it
/// follows and what is pledged after it, whether it is valid, and its root.
#[derive(Debug)]
pub struct IssuanceSuccessor {
    pub stream_id: Id,
    pub version: u64,
    pub after_pledged_commitment: Id,
    pub valid: Result<(), String>,
    pub root: Result<Id, String>,
}

/// Whether a reference is the one that the book gives, or why it gives none.
/// A difference is reported as `differs`.
pub open spec fn reference_refusal(
    given: ProviderReference,
    expected: Result<ProviderReference, Seq<char>>,
    differs: Seq<char>,
) -> Option<Seq<char>> {
    match expected {
        Err(message) => Some(message),
        Ok(reference) => if given == reference {
            None
        } else {
            Some(differs)
        },
    }
}

/// Whether a digest is the one expected, or why there is none. A difference is
/// reported as `differs`.
pub open spec fn digest_refusal(
    given: Id,
    expected: Result<Id, String>,
    differs: Seq<char>,
) -> Option<Seq<char>> {
    match expected {
        Err(message) => Some(message@),
        Ok(digest) => if given == digest {
            None
        } else {
            Some(differs)
        },
    }
}

fn check_reference(
    given: &ProviderReference,
    expected: Result<ProviderReference, String>,
    Ghost(stated): Ghost<Result<ProviderReference, Seq<char>>>,
    differs: &str,
) -> (r: Result<(), String>)
    requires
        crate::execution::aethel::refers(expected, stated),
    ensures
        verdict(r, reference_refusal(*given, stated, differs@)),
{
    let reference = expected?;
    if !given.same(&reference) {
        return refuse(differs);
    }
    Ok(())
}

fn check_digest(given: &Id, expected: &Result<Id, String>, differs: &str) -> (r: Result<
    (),
    String,
>)
    ensures
        verdict(r, digest_refusal(*given, *expected, differs@)),
{
    let digest = statement_of(expected)?;
    if *given != digest {
        return refuse(differs);
    }
    Ok(())
}

/// The three artifacts that an instruction refers to are those of the book.
pub open spec fn references_refusal(
    ledger: Ledger,
    instruction: ReceivableInstruction,
    decision_id: Option<Id>,
    guarantee_id: Option<Id>,
    differs: Seq<char>,
) -> Option<Seq<char>> {
    first(
        reference_refusal(
            instruction.credit,
            credit_reference_of(ledger, decision_id),
            differs,
        ),
        reference_refusal(
            instruction.guarantee,
            guarantee_reference_of(ledger, guarantee_id),
            differs,
        ),
    )
}

/// Whether an instruction issues exactly what a request asks for, up to the
/// stream's next state.
pub open spec fn issue_names(
    instruction: ReceivableInstruction,
    request: ReceivableIssuance,
    series: Series,
) -> bool {
    &&& instruction.operation == ReceivableOperation::Issue
    &&& instruction.aethel_domain_id == series.aethel_domain_id
    &&& instruction.request_id == request.request_id
    &&& instruction.action_id == request.issuance_id
    &&& instruction.series_id == request.series_id
    &&& instruction.stream_id == series.stream_id
    &&& instruction.stream_state_version == request.before_stream_state_version
    &&& instruction.before_stream_state_root == request.before_stream_state_root
}

fn does_issue_name(
    instruction: &ReceivableInstruction,
    request: &ReceivableIssuance,
    series: &Series,
) -> (r: bool)
    ensures
        r == issue_names(*instruction, *request, *series),
{
    instruction.operation == ReceivableOperation::Issue && instruction.aethel_domain_id
        == series.aethel_domain_id && instruction.request_id == request.request_id
        && instruction.action_id == request.issuance_id && instruction.series_id
        == request.series_id && instruction.stream_id == series.stream_id
        && instruction.stream_state_version == request.before_stream_state_version
        && instruction.before_stream_state_root == request.before_stream_state_root
}

/// Whether an instruction pledges exactly what a request asks for.
pub open spec fn issue_pledges(
    instruction: ReceivableInstruction,
    request: ReceivableIssuance,
    stream: Stream,
) -> bool {
    &&& instruction.eligible_commitment == stream.eligible_commitment
    &&& instruction.before_pledged_commitment == stream.pledged_commitment
    &&& instruction.after_pledged_commitment == request.after_pledged_commitment
    &&& instruction.receivable_note_id == request.note_id
    &&& instruction.settlement_asset_id == stream.settlement_asset_id
}

/// Why an instruction does not issue exactly what a request asks for.
pub open spec fn issue_context_refusal(
    ledger: Ledger,
    request: ReceivableIssuance,
    instruction: ReceivableInstruction,
    successor: IssuanceSuccessor,
) -> Option<Seq<char>> {
    let differs = "Aethel issuance and streaming-receivable zkPI bindings differ"@;
    let series = ledger.aethel.series@[request.series_id];
    let stream = ledger.aethel.streams@[series.stream_id];
    let after = digest_refusal(instruction.after_stream_state_root, successor.root, differs);
    let artifacts = references_refusal(
        ledger,
        instruction,
        request.credit_decision_id,
        request.guarantee_id,
        differs,
    );
    let funding = reference_refusal(
        instruction.funding,
        funding_reference_of(ledger, request.funding_quote_id),
        differs,
    );
    let root = digest_refusal(instruction.before_aethel_root, ledger.aethel.root, differs);
    if !issue_names(instruction, request, series) {
        Some(differs)
    } else if after is Some {
        after
    } else if !issue_pledges(instruction, request, stream) {
        Some(differs)
    } else if artifacts is Some {
        artifacts
    } else if funding is Some {
        funding
    } else if instruction.policy_digest != series.eligibility_policy_digest
        || instruction.relation_proof_digest != request.relation_proof_digest
        || instruction.operation_nullifier != request.allocation_nullifier {
        Some(differs)
    } else if root is Some {
        root
    } else if instruction.amount_commitment != request.face_value_commitment
        || instruction.payee_handle != request.owner_commitment {
        Some(differs)
    } else {
        None
    }
}

fn check_issue_context(
    state: &State,
    request: &ReceivableIssuance,
    instruction: &ReceivableInstruction,
    successor: &IssuanceSuccessor,
    series: &Series,
    stream: &Stream,
) -> (r: Result<(), String>)
    requires
        *series == state@.aethel.series@[request.series_id],
        *stream == state@.aethel.streams@[series.stream_id],
    ensures
        verdict(r, issue_context_refusal(state@, *request, *instruction, *successor)),
{
    let differs = "Aethel issuance and streaming-receivable zkPI bindings differ";
    if !does_issue_name(instruction, request, series) {
        return refuse(differs);
    }
    check_digest(&instruction.after_stream_state_root, &successor.root, differs)?;
    if instruction.eligible_commitment != stream.eligible_commitment
        || instruction.before_pledged_commitment != stream.pledged_commitment
        || instruction.after_pledged_commitment != request.after_pledged_commitment
        || instruction.receivable_note_id != request.note_id || instruction.settlement_asset_id
        != stream.settlement_asset_id {
        return refuse(differs);
    }
    check_reference(
        &instruction.credit,
        credit_reference(state, request.credit_decision_id),
        Ghost(credit_reference_of(state@, request.credit_decision_id)),
        differs,
    )?;
    check_reference(
        &instruction.guarantee,
        guarantee_reference(state, request.guarantee_id),
        Ghost(guarantee_reference_of(state@, request.guarantee_id)),
        differs,
    )?;
    check_reference(
        &instruction.funding,
        funding_reference(state, request.funding_quote_id),
        Ghost(funding_reference_of(state@, request.funding_quote_id)),
        differs,
    )?;
    if instruction.policy_digest != series.eligibility_policy_digest
        || instruction.relation_proof_digest != request.relation_proof_digest
        || instruction.operation_nullifier != request.allocation_nullifier {
        return refuse(differs);
    }
    check_digest(&instruction.before_aethel_root, &state.aethel.root, differs)?;
    if instruction.amount_commitment != request.face_value_commitment || instruction.payee_handle
        != request.owner_commitment {
        return refuse(differs);
    }
    Ok(())
}

/// Why a confidential subject is not bound to an issuance.
pub open spec fn subject_refusal(
    ledger: Ledger,
    request: ReceivableIssuance,
    eligible_commitment: Id,
) -> Option<Seq<char>> {
    let series = ledger.aethel.series@[request.series_id];
    if !series.requires_confidential_subject {
        None
    } else if !ledger.aethel.confidential_subjects@.contains_key(request.request_id) {
        Some("confidential Aethel issuance has no subject binding"@)
    } else if ledger.aethel.confidential_subjects@[request.request_id].policy_digest
        != series.eligibility_policy_digest {
        Some("confidential Aethel subject uses another eligibility policy"@)
    } else {
        match request.credit_decision_id {
            None => None,
            Some(decision_id) => if !ledger.aethel.credit_decisions@.contains_key(decision_id) {
                Some("confidential Aethel issuance has no credit decision"@)
            } else if ledger.aethel.credit_decisions@[decision_id].decision_terms_commitment
                != eligible_commitment {
                Some("confidential credit-line commitment differs from zkPI eligible capacity"@)
            } else {
                None
            },
        }
    }
}

fn check_subject(
    state: &State,
    request: &ReceivableIssuance,
    series: &Series,
    eligible_commitment: Id,
) -> (r: Result<(), String>)
    requires
        *series == state@.aethel.series@[request.series_id],
    ensures
        verdict(r, subject_refusal(state@, *request, eligible_commitment)),
{
    if !series.requires_confidential_subject {
        return Ok(());
    }
    let subject = match state.aethel.confidential_subjects.get(&request.request_id) {
        Some(subject) => subject,
        None => return refuse("confidential Aethel issuance has no subject binding"),
    };
    if subject.policy_digest != series.eligibility_policy_digest {
        return refuse("confidential Aethel subject uses another eligibility policy");
    }
    if let Some(decision_id) = request.credit_decision_id {
        let decision = match state.aethel.credit_decisions.get(&decision_id) {
            Some(decision) => decision,
            None => return refuse("confidential Aethel issuance has no credit decision"),
        };
        if decision.decision_terms_commitment != eligible_commitment {
            return refuse(
                "confidential credit-line commitment differs from zkPI eligible capacity",
            );
        }
    }
    Ok(())
}

/// What an issuance is paid with: the advance of its funding quote, else the
/// coverage of its guarantee, else its face value.
pub open spec fn consideration(ledger: Ledger, request: ReceivableIssuance) -> Id {
    match request.funding_quote_id {
        Some(quote_id) => ledger.aethel.funding_quotes@[quote_id].advance_commitment,
        None => match request.guarantee_id {
            Some(guarantee_id) => ledger.aethel.guarantees@[guarantee_id].coverage_commitment,
            None => request.face_value_commitment,
        },
    }
}

fn expected_consideration(state: &State, request: &ReceivableIssuance) -> (r: Id)
    requires
        request.funding_quote_id matches Some(id) ==> state@.aethel.funding_quotes@.contains_key(
            id,
        ),
        request.guarantee_id matches Some(id) ==> state@.aethel.guarantees@.contains_key(id),
    ensures
        r == consideration(state@, *request),
{
    if let Some(quote_id) = request.funding_quote_id {
        match state.aethel.funding_quotes.get(&quote_id) {
            Some(quote) => quote.advance_commitment,
            None => request.face_value_commitment,
        }
    } else if let Some(guarantee_id) = request.guarantee_id {
        match state.aethel.guarantees.get(&guarantee_id) {
            Some(guarantee) => guarantee.coverage_commitment,
            None => request.face_value_commitment,
        }
    } else {
        request.face_value_commitment
    }
}

/// Whether a successor follows the stream of an issuance, with what is pledged
/// after it.
pub open spec fn succeeds(
    ledger: Ledger,
    request: ReceivableIssuance,
    successor: IssuanceSuccessor,
) -> bool {
    let stream_id = ledger.aethel.series@[request.series_id].stream_id;
    &&& successor.stream_id == stream_id
    &&& successor.version == ledger.aethel.streams@[stream_id].version
    &&& successor.after_pledged_commitment == request.after_pledged_commitment
}

/// What the successor of a stream's state for an issuance is to be derived from:
/// the stream, its version, and what is pledged after the issuance.
pub fn successor_request(state: &State, request: &ReceivableIssuance) -> (r: Result<
    (Id, u64, Id),
    String,
>)
    ensures
        match r {
            Ok((stream_id, version, after_pledged_commitment)) => {
                &&& state@.aethel.series@.contains_key(request.series_id)
                &&& stream_id == state@.aethel.series@[request.series_id].stream_id
                &&& stream_refusal(state@, stream_id) is None
                &&& version == state@.aethel.streams@[stream_id].version
                &&& after_pledged_commitment == request.after_pledged_commitment
            },
            Err(message) => if !state@.aethel.series@.contains_key(request.series_id) {
                message@ == "Aethel issuance names an unknown series"@
            } else {
                stream_refusal(
                    state@,
                    state@.aethel.series@[request.series_id].stream_id,
                ) == Some(message@)
            },
        },
{
    let series = match state.aethel.series.get(&request.series_id) {
        Some(series) => series,
        None => return refuse("Aethel issuance names an unknown series"),
    };
    match state.aethel.streams.get(&series.stream_id) {
        Some(stream) => Ok((series.stream_id, stream.version, request.after_pledged_commitment)),
        None => Err(state.aethel.unknown_stream.clone()),
    }
}

/// Why an issuance and its instruction are not bound to each other and to the
/// note. The note of a series without secondary transfer is locked to it.
pub open spec fn issuance_binding_refusal(
    ledger: Ledger,
    request: ReceivableIssuance,
    instruction: ReceivableInstruction,
    successor: IssuanceSuccessor,
) -> Option<Seq<char>> {
    let series = ledger.aethel.series@[request.series_id];
    let note = ledger.notes[request.note_id];
    let lock = if series.allow_secondary_transfer {
        Id::zero()
    } else {
        request.series_id
    };
    let context = issue_context_refusal(ledger, request, instruction, successor);
    let subject = subject_refusal(ledger, request, instruction.eligible_commitment);
    if Id(sha256(instruction.encoded@)) != request.zkpi_digest {
        Some("Aethel issuance zkPI digest differs from its canonical wire"@)
    } else if !ledger.aethel.series@.contains_key(request.series_id) {
        Some("Aethel issuance names an unknown series"@)
    } else if stream_refusal(ledger, series.stream_id) is Some {
        stream_refusal(ledger, series.stream_id)
    } else if !succeeds(ledger, request, successor) {
        Some("stream successor was derived from something else"@)
    } else if refusal_of(successor.valid) is Some {
        refusal_of(successor.valid)
    } else if !ledger.notes.contains_key(request.note_id) {
        Some("Aethel issuance names an unknown DeFMI note"@)
    } else if note.asset_id != series.receivable_asset_id || note.value_commitment
        != request.face_value_commitment || note.lock_id != lock {
        Some("DeFMI note transfer policy, Aethel series, and face commitment differ"@)
    } else if context is Some {
        context
    } else if subject is Some {
        subject
    } else if instruction.price_commitment != consideration(ledger, request) {
        Some("Aethel issuance zkPI consideration commitment is not funding or coverage"@)
    } else {
        None
    }
}

/// Checks that an issuance and its instruction are bound to each other.
pub fn validate_issuance_binding(
    state: &State,
    request: &ReceivableIssuance,
    instruction: &ReceivableInstruction,
    successor: &IssuanceSuccessor,
) -> (r: Result<(), String>)
    ensures
        verdict(r, issuance_binding_refusal(state@, *request, *instruction, *successor)),
{
    if instruction_wire_digest(instruction) != request.zkpi_digest {
        return refuse("Aethel issuance zkPI digest differs from its canonical wire");
    }
    let series = match state.aethel.series.get(&request.series_id) {
        Some(series) => series,
        None => return refuse("Aethel issuance names an unknown series"),
    };
    let stream = match state.aethel.streams.get(&series.stream_id) {
        Some(stream) => stream,
        None => return Err(state.aethel.unknown_stream.clone()),
    };
    if successor.stream_id != series.stream_id || successor.version != stream.version
        || successor.after_pledged_commitment != request.after_pledged_commitment {
        return refuse("stream successor was derived from something else");
    }
    repeat(&successor.valid)?;
    let note = match state.notes.get(&request.note_id) {
        Some(note) => note,
        None => return refuse("Aethel issuance names an unknown DeFMI note"),
    };
    let lock = if series.allow_secondary_transfer {
        Id::zero()
    } else {
        request.series_id
    };
    if note.asset_id != series.receivable_asset_id || note.value_commitment
        != request.face_value_commitment || note.lock_id != lock {
        return refuse("DeFMI note transfer policy, Aethel series, and face commitment differ");
    }
    check_issue_context(state, request, instruction, successor, series, stream)?;
    check_subject(state, request, series, instruction.eligible_commitment)?;
    if instruction.price_commitment != expected_consideration(state, request) {
        return refuse("Aethel issuance zkPI consideration commitment is not funding or coverage");
    }
    Ok(())
}

/// Why an instruction does not support a transaction, from its text to its
/// proofs.
pub open spec fn instruction_refusal(
    ledger: Ledger,
    submitted: SubmittedInstruction,
    timestamp: u64,
) -> Option<Seq<char>> {
    first(
        base64_field_refusal(submitted.text, "zkpi"@),
        zkpi_refusal(ledger, base64_bytes(submitted.text->0@)->0, submitted, timestamp),
    )
}

/// Why the guarantee of an issuance cannot be bound, up to the clearing book's
/// answer.
pub open spec fn bound_guarantee_refusal(ledger: Ledger, guarantee_id: Option<Id>) -> Option<
    Seq<char>,
> {
    match guarantee_id {
        None => None,
        Some(id) => if !ledger.aethel.guarantees@.contains_key(id) {
            Some("Aethel issuance names an unknown guarantee"@)
        } else if clearing_book_refusal(ledger) is Some {
            clearing_book_refusal(ledger)
        } else {
            binding_refusal(ledger.deccp->0, ledger.aethel.guarantees@[id])
        },
    }
}

/// Why an issuance is refused, up to the clearing book's answer.
pub open spec fn issue_refusal(
    ledger: Ledger,
    request: ReceivableIssuance,
    submitted: SubmittedInstruction,
    successor: IssuanceSuccessor,
    timestamp: u64,
) -> Option<Seq<char>> {
    first(
        issuance_provider_refusal(ledger, request, timestamp),
        first(
            instruction_refusal(ledger, submitted, timestamp),
            first(
                issuance_binding_refusal(ledger, request, submitted.decoded->Ok_0, successor),
                bound_guarantee_refusal(ledger, request.guarantee_id),
            ),
        ),
    )
}

/// Whether the book after an issuance holds it, and its stream one version on with
/// the new pledge, under the root of the successor.
pub open spec fn holds_issued(
    ledger: Ledger,
    call: BookCall,
    request: ReceivableIssuance,
    successor: IssuanceSuccessor,
) -> bool {
    let book = *call.recorded->Ok_0;
    let stream_id = ledger.aethel.series@[request.series_id].stream_id;
    let before = ledger.aethel.streams@[stream_id];
    let after = book.streams@[stream_id];
    &&& holds_issuance(call, request.issuance_id, request)
    &&& ledger.aethel.series@.contains_key(request.series_id)
    &&& ledger.aethel.streams@.contains_key(stream_id)
    &&& book.streams@.contains_key(stream_id)
    &&& after.attestor_provider_id == before.attestor_provider_id
    &&& after.settlement_asset_id == before.settlement_asset_id
    &&& after.eligible_commitment == before.eligible_commitment
    &&& after.version == before.version + 1
    &&& after.pledged_commitment == request.after_pledged_commitment
    &&& after.root is Ok && successor.root is Ok && after.root->Ok_0 == successor.root->Ok_0
}

fn does_hold_issued(
    state: &State,
    call: &BookCall,
    request: &ReceivableIssuance,
    successor: &IssuanceSuccessor,
) -> (r: bool)
    ensures
        r == holds_issued(state@, *call, *request, *successor),
{
    if !does_hold_issuance(call, &request.issuance_id, request) {
        return false;
    }
    let book = match &call.recorded {
        Ok(book) => book,
        Err(_) => return false,
    };
    let series = match state.aethel.series.get(&request.series_id) {
        Some(series) => series,
        None => return false,
    };
    match (state.aethel.streams.get(&series.stream_id), book.streams.get(&series.stream_id)) {
        (Some(before), Some(after)) => {
            let rooted = match (&after.root, &successor.root) {
                (Ok(left), Ok(right)) => *left == *right,
                _ => false,
            };
            rooted && after.attestor_provider_id == before.attestor_provider_id
                && after.settlement_asset_id == before.settlement_asset_id
                && after.eligible_commitment == before.eligible_commitment && before.version
                < u64::MAX && after.version == before.version + 1 && after.pledged_commitment
                == request.after_pledged_commitment
        },
        _ => false,
    }
}

/// What an issuance with a guarantee asks of the clearing book.
pub open spec fn bind_question(ledger: Ledger, request: ReceivableIssuance) -> ClearingQuestion {
    ClearingQuestion::Bind {
        operation_id: request.operation_id,
        binding: binding_of(
            ledger.deccp->0,
            ledger.aethel.guarantees@[request.guarantee_id->0],
        ),
        issuance_id: request.issuance_id,
    }
}

/// What an issuance does. With a guarantee the clearing book must bind it too.
pub open spec fn issue_outcome(
    ledger: Ledger,
    request: ReceivableIssuance,
    submitted: SubmittedInstruction,
    successor: IssuanceSuccessor,
    answer: ClearingAnswer,
    call: BookCall,
    submission: Submission,
    timestamp: u64,
) -> Outcome {
    let refusal = issue_refusal(ledger, request, submitted, successor, timestamp);
    let unheld = unheld_refusal(
        ledger,
        call,
        BookQuestion::Issue { request },
        request.operation_id,
        timestamp,
        holds_issued(ledger, call, request, successor),
    );
    match request.guarantee_id {
        None => call_outcome(
            ledger,
            request.operation_id,
            call,
            submission,
            first(refusal, unheld),
        ),
        Some(_) => cleared_outcome(
            ledger,
            request.operation_id,
            call,
            submission,
            refusal,
            answer,
            bind_question(ledger, request),
            timestamp,
            "DeCCP refused to bind the guarantee: "@,
            None,
            unheld,
        ),
    }
}

/// Issues a receivable note. `answer` is the clearing book after it has bound
/// the guarantee, and is not looked at without one.
pub fn issue_receivable(
    state: &mut State,
    request: &ReceivableIssuance,
    submitted: &SubmittedInstruction,
    successor: &IssuanceSuccessor,
    answer: ClearingAnswer,
    call: BookCall,
    submission: &Submission,
    timestamp: u64,
) -> (r: Result<Id, String>)
    ensures
        meets(
            r,
            final(state)@,
            issue_outcome(
                old(state)@,
                *request,
                *submitted,
                *successor,
                answer,
                call,
                *submission,
                timestamp,
            ),
        ),
{
    let statement = enter(state, &call.statement, submission, &request.operation_id)?;
    validate_issuance_provider_status(state, request, timestamp)?;
    let raw = base64_field(&submitted.text, "zkpi")?;
    let instruction = verify_receivable_zkpi(state, &raw, submitted, timestamp)?;
    validate_issuance_binding(state, request, instruction, successor)?;
    let held = does_hold_issued(state, &call, request, successor);
    let question = BookQuestion::Issue { request: *request };
    match request.guarantee_id {
        None => {
            check_held(state, &call, &question, &request.operation_id, timestamp, held)?;
            keep(state, request.operation_id, call, statement, None)
        },
        Some(guarantee_id) => {
            let guarantee = match state.aethel.guarantees.get(&guarantee_id) {
                Some(guarantee) => guarantee,
                None => return refuse("Aethel issuance names an unknown guarantee"),
            };
            let book = clearing_book(state)?;
            let binding = deccp_binding(book, guarantee)?;
            let asked = ClearingQuestion::Bind {
                operation_id: request.operation_id,
                binding,
                issuance_id: request.issuance_id,
            };
            let bound = read_answer(
                state,
                answer,
                &asked,
                timestamp,
                "DeCCP refused to bind the guarantee: ",
                &Ok(()),
            )?;
            check_held(state, &call, &question, &request.operation_id, timestamp, held)?;
            keep(state, request.operation_id, call, statement, Some(bound))
        },
    }
}

/// Whether a note claim delivers what a guarantee claim asks for.
pub open spec fn delivers(
    claim: NoteClaimRecord,
    request: GuaranteeClaim,
    hold_id: Id,
    asset_id: Id,
) -> bool {
    &&& claim.source_hold_id == hold_id
    &&& claim.asset_id == asset_id
    &&& claim.value_commitment == request.claim_amount_commitment
    &&& claim.recipient_commitment == request.recovery_recipient_commitment
    &&& claim.kind == NoteClaimKind::Delivery
    &&& claim.settlement_digest == request.defmi_settlement_digest
}

/// Whether some note claim delivers what a guarantee claim asks for.
pub open spec fn delivery_entitled(
    ledger: Ledger,
    request: GuaranteeClaim,
    hold_id: Id,
    asset_id: Id,
) -> bool {
    exists|claim_id: Id| #[trigger]
        ledger.note_claims.contains_key(claim_id) && delivers(
            ledger.note_claims[claim_id],
            request,
            hold_id,
            asset_id,
        )
}

fn is_delivery_entitled(
    state: &State,
    request: &GuaranteeClaim,
    hold_id: Id,
    asset_id: Id,
) -> (r: bool)
    ensures
        r == delivery_entitled(state@, *request, hold_id, asset_id),
{
    let count: usize = state.note_claims.len();
    let mut index: usize = 0;
    while index < count
        invariant
            index <= count == state.note_claims.count(),
            forall|i: int|
                0 <= i < index ==> !delivers(
                    #[trigger] state.note_claims.nth(i),
                    *request,
                    hold_id,
                    asset_id,
                ),
        decreases count - index,
    {
        let claim = state.note_claims.at(index);
        if claim.source_hold_id == hold_id && claim.asset_id == asset_id && claim.value_commitment
            == request.claim_amount_commitment && claim.recipient_commitment
            == request.recovery_recipient_commitment && claim.kind == NoteClaimKind::Delivery
            && claim.settlement_digest == request.defmi_settlement_digest {
            assert(delivers(
                state@.note_claims[state.note_claims.key_at(index as int)],
                *request,
                hold_id,
                asset_id,
            ));
            return true;
        }
        index = index + 1;
    }
    false
}

/// Whether a settlement consumed a note of an asset.
pub open spec fn consumed_note(ledger: Ledger, asset_id: Id, settlement_digest: Id) -> bool {
    exists|serial: Id| #[trigger]
        ledger.note_serials.contains_key(serial) && ledger.note_serials[serial].asset_id
            == asset_id && ledger.note_serials[serial].statement == settlement_digest
}

fn did_consume_note(state: &State, asset_id: Id, settlement_digest: Id) -> (r: bool)
    ensures
        r == consumed_note(state@, asset_id, settlement_digest),
{
    let count: usize = state.note_serials.len();
    let mut index: usize = 0;
    while index < count
        invariant
            index <= count == state.note_serials.count(),
            forall|i: int|
                0 <= i < index ==> !((#[trigger] state.note_serials.nth(i)).asset_id == asset_id
                    && state.note_serials.nth(i).statement == settlement_digest),
        decreases count - index,
    {
        let serial = state.note_serials.at(index);
        if serial.asset_id == asset_id && serial.statement == settlement_digest {
            assert(state@.note_serials.contains_key(state.note_serials.key_at(index as int)));
            return true;
        }
        index = index + 1;
    }
    false
}

/// Why a claim is not backed: the guarantee's hold was consumed in full by a
/// settlement that delivers to the recipient and takes a note of the series.
pub open spec fn claim_backing_refusal(ledger: Ledger, request: GuaranteeClaim) -> Option<
    Seq<char>,
> {
    let guarantee = ledger.aethel.guarantees@[request.guarantee_id];
    let hold = ledger.credit_holds[guarantee.defmi_hold_id];
    let facility = ledger.credit_facilities[guarantee.defmi_facility_id];
    let issuance = ledger.aethel.issuances@[request.issuance_id];
    let series = ledger.aethel.series@[issuance.series_id];
    if !ledger.aethel.guarantees@.contains_key(request.guarantee_id) {
        Some("Aethel claim names an unknown guarantee"@)
    } else if !ledger.credit_holds.contains_key(guarantee.defmi_hold_id) {
        Some("Aethel claim guarantee hold is absent"@)
    } else if !ledger.credit_facilities.contains_key(guarantee.defmi_facility_id) {
        Some("Aethel claim guarantee facility is absent"@)
    } else if !ledger.aethel.issuances@.contains_key(request.issuance_id) {
        Some("Aethel claim names an unknown issuance"@)
    } else if !ledger.aethel.series@.contains_key(issuance.series_id) {
        Some("Aethel claim issuance has no series"@)
    } else if hold.status != HoldStatus::Consumed || hold.settlement_digest
        != request.defmi_settlement_digest || hold.amount_commitment
        != guarantee.coverage_commitment || request.claim_amount_commitment
        != guarantee.coverage_commitment {
        Some("Aethel full-cover claim is not bound to the consumed DeFMI guarantee hold"@)
    } else if !delivery_entitled(
        ledger,
        request,
        guarantee.defmi_hold_id,
        facility.rail_asset_id,
    ) {
        Some("Aethel claim has no matching DeFMI delivery entitlement for its recipient"@)
    } else if !consumed_note(
        ledger,
        series.receivable_asset_id,
        request.defmi_settlement_digest,
    ) {
        Some("Aethel claim settlement did not consume a note from the receivable series"@)
    } else {
        None
    }
}

/// Checks that a claim is backed.
pub fn validate_claim_backing(state: &State, request: &GuaranteeClaim) -> (r: Result<(), String>)
    ensures
        verdict(r, claim_backing_refusal(state@, *request)),
{
    let guarantee = match state.aethel.guarantees.get(&request.guarantee_id) {
        Some(guarantee) => guarantee,
        None => return refuse("Aethel claim names an unknown guarantee"),
    };
    let hold = match state.credit_holds.get(&guarantee.defmi_hold_id) {
        Some(hold) => hold,
        None => return refuse("Aethel claim guarantee hold is absent"),
    };
    let facility = match state.credit_facilities.get(&guarantee.defmi_facility_id) {
        Some(facility) => facility,
        None => return refuse("Aethel claim guarantee facility is absent"),
    };
    let issuance = match state.aethel.issuances.get(&request.issuance_id) {
        Some(issuance) => issuance,
        None => return refuse("Aethel claim names an unknown issuance"),
    };
    let series = match state.aethel.series.get(&issuance.series_id) {
        Some(series) => series,
        None => return refuse("Aethel claim issuance has no series"),
    };
    if hold.status != HoldStatus::Consumed || hold.settlement_digest
        != request.defmi_settlement_digest || hold.amount_commitment
        != guarantee.coverage_commitment || request.claim_amount_commitment
        != guarantee.coverage_commitment {
        return refuse("Aethel full-cover claim is not bound to the consumed DeFMI guarantee hold");
    }
    if !is_delivery_entitled(state, request, guarantee.defmi_hold_id, facility.rail_asset_id) {
        return refuse("Aethel claim has no matching DeFMI delivery entitlement for its recipient");
    }
    if !did_consume_note(state, series.receivable_asset_id, request.defmi_settlement_digest) {
        return refuse("Aethel claim settlement did not consume a note from the receivable series");
    }
    Ok(())
}

/// Whether an instruction claims exactly what a request asks for, up to the
/// root of the stream's state.
pub open spec fn claim_names(
    instruction: ReceivableInstruction,
    request: GuaranteeClaim,
    issuance: ReceivableIssuance,
    series: Series,
    stream: Stream,
) -> bool {
    &&& instruction.operation == ReceivableOperation::ClaimGuarantee
    &&& instruction.aethel_domain_id == series.aethel_domain_id
    &&& instruction.request_id == issuance.request_id
    &&& instruction.action_id == request.claim_id
    &&& instruction.series_id == issuance.series_id
    &&& instruction.stream_id == series.stream_id
    &&& instruction.stream_state_version == stream.version
}

/// Whether an instruction leaves the stream and the pledge as they are.
pub open spec fn claim_keeps(
    instruction: ReceivableInstruction,
    issuance: ReceivableIssuance,
    stream: Stream,
) -> bool {
    &&& instruction.after_stream_state_root == instruction.before_stream_state_root
    &&& instruction.eligible_commitment == stream.eligible_commitment
    &&& instruction.before_pledged_commitment == stream.pledged_commitment
    &&& instruction.after_pledged_commitment == stream.pledged_commitment
    &&& instruction.receivable_note_id == issuance.note_id
    &&& instruction.settlement_asset_id == stream.settlement_asset_id
}

/// Why a claim and its instruction are not bound to each other.
pub open spec fn claim_binding_refusal(
    ledger: Ledger,
    request: GuaranteeClaim,
    instruction: ReceivableInstruction,
) -> Option<Seq<char>> {
    let differs = "Aethel guarantee claim and zkPI bindings differ"@;
    let issuance = ledger.aethel.issuances@[request.issuance_id];
    let series = ledger.aethel.series@[issuance.series_id];
    let stream = ledger.aethel.streams@[series.stream_id];
    let before = digest_refusal(instruction.before_stream_state_root, stream.root, differs);
    let artifacts = references_refusal(
        ledger,
        instruction,
        issuance.credit_decision_id,
        Some(request.guarantee_id),
        differs,
    );
    let root = digest_refusal(instruction.before_aethel_root, ledger.aethel.root, differs);
    if Id(sha256(instruction.encoded@)) != request.zkpi_digest {
        Some("Aethel claim zkPI digest differs from its canonical wire"@)
    } else if !ledger.aethel.issuances@.contains_key(request.issuance_id) {
        Some("Aethel claim names an unknown issuance"@)
    } else if !ledger.aethel.series@.contains_key(issuance.series_id) {
        Some("Aethel claim issuance has no series"@)
    } else if stream_refusal(ledger, series.stream_id) is Some {
        stream_refusal(ledger, series.stream_id)
    } else if !claim_names(instruction, request, issuance, series, stream) {
        Some(differs)
    } else if before is Some {
        before
    } else if !claim_keeps(instruction, issuance, stream) {
        Some(differs)
    } else if artifacts is Some {
        artifacts
    } else if instruction.funding != absent_reference() || instruction.policy_digest
        != series.claim_policy_digest || instruction.relation_proof_digest
        != request.relation_proof_digest || instruction.operation_nullifier != request.claim_id {
        Some(differs)
    } else if root is Some {
        root
    } else if instruction.amount_commitment != request.claim_amount_commitment
        || instruction.price_commitment != request.claim_amount_commitment
        || instruction.payee_handle != request.recovery_recipient_commitment {
        Some(differs)
    } else {
        None
    }
}

/// Checks that a claim and its instruction are bound to each other.
pub fn validate_claim_binding(
    state: &State,
    request: &GuaranteeClaim,
    instruction: &ReceivableInstruction,
) -> (r: Result<(), String>)
    ensures
        verdict(r, claim_binding_refusal(state@, *request, *instruction)),
{
    let differs = "Aethel guarantee claim and zkPI bindings differ";
    if instruction_wire_digest(instruction) != request.zkpi_digest {
        return refuse("Aethel claim zkPI digest differs from its canonical wire");
    }
    let issuance = match state.aethel.issuances.get(&request.issuance_id) {
        Some(issuance) => issuance,
        None => return refuse("Aethel claim names an unknown issuance"),
    };
    let series = match state.aethel.series.get(&issuance.series_id) {
        Some(series) => series,
        None => return refuse("Aethel claim issuance has no series"),
    };
    let stream = match state.aethel.streams.get(&series.stream_id) {
        Some(stream) => stream,
        None => return Err(state.aethel.unknown_stream.clone()),
    };
    if instruction.operation != ReceivableOperation::ClaimGuarantee || instruction.aethel_domain_id
        != series.aethel_domain_id || instruction.request_id != issuance.request_id
        || instruction.action_id != request.claim_id || instruction.series_id
        != issuance.series_id || instruction.stream_id != series.stream_id
        || instruction.stream_state_version != stream.version {
        return refuse(differs);
    }
    check_digest(&instruction.before_stream_state_root, &stream.root, differs)?;
    if instruction.after_stream_state_root != instruction.before_stream_state_root
        || instruction.eligible_commitment != stream.eligible_commitment
        || instruction.before_pledged_commitment != stream.pledged_commitment
        || instruction.after_pledged_commitment != stream.pledged_commitment
        || instruction.receivable_note_id != issuance.note_id || instruction.settlement_asset_id
        != stream.settlement_asset_id {
        return refuse(differs);
    }
    check_reference(
        &instruction.credit,
        credit_reference(state, issuance.credit_decision_id),
        Ghost(credit_reference_of(state@, issuance.credit_decision_id)),
        differs,
    )?;
    check_reference(
        &instruction.guarantee,
        guarantee_reference(state, Some(request.guarantee_id)),
        Ghost(guarantee_reference_of(state@, Some(request.guarantee_id))),
        differs,
    )?;
    if !instruction.funding.same(&ProviderReference::absent()) || instruction.policy_digest
        != series.claim_policy_digest || instruction.relation_proof_digest
        != request.relation_proof_digest || instruction.operation_nullifier != request.claim_id {
        return refuse(differs);
    }
    check_digest(&instruction.before_aethel_root, &state.aethel.root, differs)?;
    if instruction.amount_commitment != request.claim_amount_commitment
        || instruction.price_commitment != request.claim_amount_commitment
        || instruction.payee_handle != request.recovery_recipient_commitment {
        return refuse(differs);
    }
    Ok(())
}

/// Why a claim has no consumption to ask of the clearing book.
pub open spec fn consume_guarantee_refusal(ledger: Ledger, request: GuaranteeClaim) -> Option<
    Seq<char>,
> {
    let guarantee = ledger.aethel.guarantees@[request.guarantee_id];
    if !ledger.aethel.guarantees@.contains_key(request.guarantee_id) {
        Some("Aethel claim names an unknown guarantee"@)
    } else if !ledger.aethel.default_attestations@.contains_key(request.default_attestation_id) {
        Some("Aethel claim names an unknown default attestation"@)
    } else if !ledger.credit_holds.contains_key(guarantee.defmi_hold_id) {
        Some("Aethel claim guarantee hold is absent"@)
    } else {
        cleared_facility_refusal(ledger, guarantee)
    }
}

/// What a claim asks of the clearing book: the consumption for exactly its
/// issuance and default event.
#[derive(Clone, Copy, Debug)]
pub struct GuaranteeConsumption {
    pub binding: GuaranteeBinding,
    pub issuance_id: Id,
    pub default_event_digest: Id,
    pub transition: GuaranteeTransition,
}

/// What a claim asks of the clearing book.
pub open spec fn consumption_of(
    ledger: Ledger,
    request: GuaranteeClaim,
    timestamp: u64,
) -> GuaranteeConsumption {
    let guarantee = ledger.aethel.guarantees@[request.guarantee_id];
    let default = ledger.aethel.default_attestations@[request.default_attestation_id];
    let book = ledger.deccp->0;
    let binding = binding_of(book, guarantee);
    GuaranteeConsumption {
        binding,
        issuance_id: request.issuance_id,
        default_event_digest: default.event_digest,
        transition: transition_of(
            book.facilities@[binding.deccp_facility_id],
            FacilityTransition::Claim,
            guarantee,
            ledger.credit_holds[guarantee.defmi_hold_id].updated_sequence,
            request.operation_id,
            request.relation_proof_digest,
            request.defmi_settlement_digest,
            timestamp,
        ),
    }
}

/// Derives what a claim asks of the clearing book.
pub fn consume_deccp_guarantee(state: &State, request: &GuaranteeClaim, timestamp: u64) -> (r:
    Result<GuaranteeConsumption, String>)
    ensures
        match r {
            Ok(consumption) => {
                &&& consume_guarantee_refusal(state@, *request) is None
                &&& consumption == consumption_of(state@, *request, timestamp)
            },
            Err(message) => consume_guarantee_refusal(state@, *request) == Some(message@),
        },
{
    let guarantee = match state.aethel.guarantees.get(&request.guarantee_id) {
        Some(guarantee) => guarantee,
        None => return refuse("Aethel claim names an unknown guarantee"),
    };
    let default = match state.aethel.default_attestations.get(&request.default_attestation_id) {
        Some(default) => default,
        None => return refuse("Aethel claim names an unknown default attestation"),
    };
    let hold = match state.credit_holds.get(&guarantee.defmi_hold_id) {
        Some(hold) => hold,
        None => return refuse("Aethel claim guarantee hold is absent"),
    };
    let (binding, facility) = find_cleared_facility(state, guarantee)?;
    let transition = make_transition(
        facility,
        FacilityTransition::Claim,
        guarantee,
        hold.updated_sequence,
        request.operation_id,
        request.relation_proof_digest,
        request.defmi_settlement_digest,
        timestamp,
    );
    Ok(
        GuaranteeConsumption {
            binding,
            issuance_id: request.issuance_id,
            default_event_digest: default.event_digest,
            transition,
        },
    )
}

/// Why a claim is refused, up to the clearing book's answer.
pub open spec fn claim_refusal(
    ledger: Ledger,
    request: GuaranteeClaim,
    submitted: SubmittedInstruction,
    timestamp: u64,
) -> Option<Seq<char>> {
    first(
        claim_backing_refusal(ledger, request),
        first(
            instruction_refusal(ledger, submitted, timestamp),
            first(
                claim_binding_refusal(ledger, request, submitted.decoded->Ok_0),
                consume_guarantee_refusal(ledger, request),
            ),
        ),
    )
}

/// Why the records do not support the consumption that a claim asks for.
pub open spec fn claim_attestation(
    ledger: Ledger,
    consumption: GuaranteeConsumption,
    now: u64,
) -> Option<Seq<char>> {
    let book = ledger.deccp->0;
    claim_receipt_refusal(
        ledger,
        book.facilities@[consumption.binding.deccp_facility_id],
        book.holds@[consumption.binding.guarantee_id],
        attested_request(consumption.transition),
        now,
    )
}

fn attest_claim(state: &State, consumption: &GuaranteeConsumption, now: u64) -> (r: Result<
    (),
    String,
>)
    requires
        state@.deccp is Some,
        state@.deccp->0.facilities@.contains_key(consumption.binding.deccp_facility_id),
        state@.deccp->0.holds@.contains_key(consumption.binding.guarantee_id),
    ensures
        verdict(r, claim_attestation(state@, *consumption, now)),
{
    let book = clearing_book(state)?;
    let facility = book.facilities.get(&consumption.binding.deccp_facility_id);
    let hold = book.holds.get(&consumption.binding.guarantee_id);
    match (facility, hold) {
        (Some(facility), Some(hold)) => {
            let transition = &consumption.transition;
            let request = ConfidentialRequest {
                expected_facility_state_digest: transition.deccp_expected_state_digest,
                after_facility_state_digest: transition.deccp_after_state_digest,
                receipt: transition.receipt,
            };
            VmDefmiPort { state }.verify_confidential_guarantee_claim(
                facility,
                hold,
                &request,
                now,
            )
        },
        _ => Ok(()),
    }
}

/// Whether the book after a claim holds it, and its guarantee as claimed.
pub open spec fn holds_claim(call: BookCall, request: GuaranteeClaim) -> bool {
    let book = *call.recorded->Ok_0;
    &&& holds_guarantee_status(call, request.guarantee_id, GuaranteeStatus::Claimed)
    &&& book.guarantee_claims@.contains_key(request.claim_id)
    &&& book.guarantee_claims@[request.claim_id] == request
}

fn does_hold_claim(call: &BookCall, request: &GuaranteeClaim) -> (r: bool)
    ensures
        r == holds_claim(*call, *request),
{
    match &call.recorded {
        Ok(book) => match book.guarantee_claims.get(&request.claim_id) {
            Some(found) => found.same(request) && does_hold_guarantee_status(
                call,
                &request.guarantee_id,
                GuaranteeStatus::Claimed,
            ),
            None => false,
        },
        Err(_) => false,
    }
}

/// What a claim on a guarantee does.
pub open spec fn claim_outcome(
    ledger: Ledger,
    request: GuaranteeClaim,
    submitted: SubmittedInstruction,
    answer: ClearingAnswer,
    call: BookCall,
    submission: Submission,
    timestamp: u64,
) -> Outcome {
    cleared_outcome(
        ledger,
        request.operation_id,
        call,
        submission,
        claim_refusal(ledger, request, submitted, timestamp),
        answer,
        ClearingQuestion::Claim { consumption: consumption_of(ledger, request, timestamp) },
        timestamp,
        "DeCCP refused the guarantee claim: "@,
        claim_attestation(ledger, consumption_of(ledger, request, timestamp), timestamp),
        unheld_refusal(
            ledger,
            call,
            BookQuestion::Claim { request },
            request.operation_id,
            timestamp,
            holds_claim(call, request),
        ),
    )
}

/// Claims on a guarantee whose hold a settlement has consumed. `answer` is the
/// clearing book after it has consumed the reservation.
pub fn claim_guarantee(
    state: &mut State,
    request: &GuaranteeClaim,
    submitted: &SubmittedInstruction,
    answer: ClearingAnswer,
    call: BookCall,
    submission: &Submission,
    timestamp: u64,
) -> (r: Result<Id, String>)
    ensures
        meets(
            r,
            final(state)@,
            claim_outcome(
                old(state)@,
                *request,
                *submitted,
                answer,
                call,
                *submission,
                timestamp,
            ),
        ),
{
    let statement = enter(state, &call.statement, submission, &request.operation_id)?;
    validate_claim_backing(state, request)?;
    let raw = base64_field(&submitted.text, "zkpi")?;
    let instruction = verify_receivable_zkpi(state, &raw, submitted, timestamp)?;
    validate_claim_binding(state, request, instruction)?;
    let consumption = consume_deccp_guarantee(state, request, timestamp)?;
    let attested = attest_claim(state, &consumption, timestamp);
    let consumed = read_answer(
        state,
        answer,
        &ClearingQuestion::Claim { consumption },
        timestamp,
        "DeCCP refused the guarantee claim: ",
        &attested,
    )?;
    let held = does_hold_claim(&call, request);
    let question = BookQuestion::Claim { request: *request };
    check_held(state, &call, &question, &request.operation_id, timestamp, held)?;
    keep(state, request.operation_id, call, statement, Some(consumed))
}

} // verus!
