//! What transactions on the books guarantee.

use vstd::prelude::*;

use crate::aethel_book::{
    exercises, restated, rotated, same_provider, same_status_list, same_stream, AethelBook,
    GuaranteeStatus, ProviderCapability, ProviderStatus,
};
use crate::clearing_book::ClearingHoldStatus;
use crate::endorsement::Submission;
use crate::execution::aethel::runtime_refusal;
use crate::execution::book_question::{changes_only, BookCall, BookQuestion};
use crate::execution::clearing_question::{facility_moved, hold_moved};
use crate::execution::deccp::{capital_refusal, facility_start_refusal, membership_refusal};
use crate::execution::issuance::consumption_of;
use crate::execution::laws::{lanes_scoped, law_every_transaction_follows, on_books};
use crate::execution::receivables::{
    binding_of, offer_of, release_binding, release_transition, set_provider_status_outcome,
};
use crate::execution::{action_outcome, applied_outcome, Action};
use crate::id::Id;
use crate::state::Ledger;
use crate::table::{agrees, only};

verus! {

/// Whether the book of receivables after a transaction holds what it records: what
/// was registered, the next key or standing of a provider, the new pledge of a
/// stream, or the end of a guarantee.
pub open spec fn recorded(before: Ledger, after: Ledger, action: Action) -> bool {
    let known = before.aethel;
    let book = after.aethel;
    match action {
        Action::IssueAethelProvider { provider_id, provider, .. } => {
            &&& book.providers@.contains_key(provider_id)
            &&& same_provider(book.providers@[provider_id], provider)
        },
        Action::IssueAethelStream { stream_id, stream, .. }
        | Action::IssueAethelStreamTransition { stream_id, stream, .. } => {
            &&& book.streams@.contains_key(stream_id)
            &&& same_stream(book.streams@[stream_id], stream)
        },
        Action::IssueAethelSeries { series_id, series, .. } => {
            &&& book.series@.contains_key(series_id)
            &&& book.series@[series_id] == series
        },
        Action::IssueAethelCreditDecision { decision_id, decision, subject, .. } => {
            &&& subject->Ok_0 ==> book.confidential_subjects@.contains_key(decision.request_id)
            &&& book.credit_decisions@.contains_key(decision_id)
            &&& book.credit_decisions@[decision_id] == decision
        },
        Action::IssueAethelGuarantee { request, subject, .. } => {
            &&& subject->Ok_0 ==> book.confidential_subjects@.contains_key(request.request_id)
            &&& book.guarantees@.contains_key(request.guarantee_id)
            &&& book.guarantees@[request.guarantee_id] == request
            &&& guarantee_stands(book, request.guarantee_id, GuaranteeStatus::Open)
        },
        Action::IssueAethelGuaranteeRelease { request, .. } => guarantee_stands(
            book,
            request.guarantee_id,
            GuaranteeStatus::Released,
        ),
        Action::IssueAethelProviderKeyRotation { provider_id, next_public_key, .. } => {
            &&& known.providers@.contains_key(provider_id)
            &&& book.providers@.contains_key(provider_id)
            &&& rotated(
                known.providers@[provider_id],
                book.providers@[provider_id],
                next_public_key,
            )
        },
        Action::IssueAethelProviderStatus { provider_id, status, .. } => {
            &&& known.providers@.contains_key(provider_id)
            &&& book.providers@.contains_key(provider_id)
            &&& restated(known.providers@[provider_id], book.providers@[provider_id], status)
        },
        Action::IssueAethelCredentialIssuer { epoch, issuer, .. } => {
            &&& book.credential_issuers@.contains_key(epoch)
            &&& book.credential_issuers@[epoch] == issuer
        },
        Action::IssueAethelCredentialStatus { epoch, list, .. } => {
            &&& book.status_lists@.contains_key(epoch)
            &&& same_status_list(book.status_lists@[epoch], list)
        },
        Action::IssueAethelFundingQuote { quote_id, quote, .. } => {
            &&& book.funding_quotes@.contains_key(quote_id)
            &&& book.funding_quotes@[quote_id] == quote
        },
        Action::IssueAethelReceivable { request, .. } => {
            let stream_id = known.series@[request.series_id].stream_id;
            &&& book.issuances@.contains_key(request.issuance_id)
            &&& book.issuances@[request.issuance_id] == request
            &&& book.streams@.contains_key(stream_id)
            &&& book.streams@[stream_id].version == known.streams@[stream_id].version + 1
            &&& book.streams@[stream_id].pledged_commitment == request.after_pledged_commitment
        },
        Action::IssueAethelDefault { attestation_id, attestation, .. } => {
            &&& book.default_attestations@.contains_key(attestation_id)
            &&& book.default_attestations@[attestation_id] == attestation
        },
        Action::IssueAethelGuaranteeClaim { request, .. } => {
            &&& book.guarantee_claims@.contains_key(request.claim_id)
            &&& book.guarantee_claims@[request.claim_id] == request
            &&& guarantee_stands(book, request.guarantee_id, GuaranteeStatus::Claimed)
        },
        _ => book == known,
    }
}

/// Whether a guarantee has a status in the book.
pub open spec fn guarantee_stands(
    book: AethelBook,
    guarantee_id: Id,
    status: GuaranteeStatus,
) -> bool {
    &&& book.guarantee_statuses@.contains_key(guarantee_id)
    &&& book.guarantee_statuses@[guarantee_id] == status
}

/// After a transaction on the books is carried out, the book of receivables holds
/// what it records. Transactions on the clearing book alone leave it as it was.
pub proof fn law_the_book_holds_what_was_recorded(
    ledger: Ledger,
    action: Action,
    submission: Submission,
    timestamp: u64,
)
    requires
        on_books(action),
        action_outcome(ledger, action, submission, timestamp).result is Ok,
    ensures
        recorded(
            ledger,
            action_outcome(ledger, action, submission, timestamp).ledger,
            action,
        ),
{
}

/// A provider that is suspended or revoked may act in no capability at any time,
/// and one that is reinstated may act as it could before, within its validity.
pub proof fn law_a_provider_acts_only_while_active(
    ledger: Ledger,
    provider_id: Id,
    status: ProviderStatus,
    operation_id: Id,
    call: BookCall,
    submission: Submission,
    timestamp: u64,
    capability: ProviderCapability,
    moment: u64,
)
    requires
        set_provider_status_outcome(
            ledger,
            provider_id,
            status,
            operation_id,
            call,
            submission,
            timestamp,
        ).result is Ok,
    ensures
        ({
            let after = set_provider_status_outcome(
                ledger,
                provider_id,
                status,
                operation_id,
                call,
                submission,
                timestamp,
            ).ledger;
            let before = ledger.aethel.providers@[provider_id];
            &&& status != ProviderStatus::Active ==> runtime_refusal(
                after,
                provider_id,
                capability,
                moment,
            ) is Some
            &&& status == ProviderStatus::Active ==> exercises(
                after.aethel.providers@[provider_id],
                capability,
                moment,
            ) == (before.capabilities@.contains(capability) && before.valid_from <= moment
                <= before.valid_until)
        }),
{
}

/// A provider may act in no capability outside its validity.
pub proof fn law_a_provider_acts_only_within_its_validity(
    ledger: Ledger,
    provider_id: Id,
    capability: ProviderCapability,
    timestamp: u64,
)
    requires
        ({
            let provider = ledger.aethel.providers@[provider_id];
            timestamp < provider.valid_from || timestamp > provider.valid_until
        }),
    ensures
        runtime_refusal(ledger, provider_id, capability, timestamp) is Some,
{
}

/// Whether the clearing book after a transaction holds what the transaction asks of
/// it: a reservation, its binding, its end, a member or a facility.
pub open spec fn cleared_as_asked(before: Ledger, after: Ledger, action: Action) -> bool {
    let known = before.deccp->0;
    let book = after.deccp->0;
    match action {
        Action::IssueAethelGuarantee { request, .. } => {
            let facility = known.facilities@[request.defmi_facility_id];
            let hold = book.holds@[request.guarantee_id];
            &&& after.deccp is Some
            &&& book.holds@.contains_key(request.guarantee_id)
            &&& hold.hold_id == request.guarantee_id
            &&& hold.facility_id == facility.facility_id
            &&& hold.defmi_hold_id == request.defmi_hold_id
            &&& hold.coverage_commitment == request.coverage_commitment
            &&& hold.status == ClearingHoldStatus::Reserved
            &&& facility_moved(
                known,
                book,
                facility.facility_id,
                offer_of(before, known, request).deccp_after_state_digest,
            )
        },
        Action::IssueAethelGuaranteeRelease { request, .. } => {
            let binding = release_binding(before, request);
            &&& before.aethel.guarantees@.contains_key(request.guarantee_id)
            &&& after.deccp is Some
            &&& hold_moved(
                known,
                book,
                binding,
                None,
                ClearingHoldStatus::Released,
                None,
                Some(request.defmi_settlement_digest),
            )
            &&& facility_moved(
                known,
                book,
                binding.deccp_facility_id,
                release_transition(before, request, 0).deccp_after_state_digest,
            )
        },
        Action::IssueAethelReceivable { request, .. } => match request.guarantee_id {
            None => after.deccp == before.deccp,
            Some(guarantee_id) => {
                let binding = binding_of(known, before.aethel.guarantees@[guarantee_id]);
                &&& before.aethel.guarantees@.contains_key(guarantee_id)
                &&& after.deccp is Some
                &&& hold_moved(
                    known,
                    book,
                    binding,
                    None,
                    ClearingHoldStatus::Reserved,
                    Some(request.issuance_id),
                    None,
                )
            },
        },
        Action::IssueAethelGuaranteeClaim { request, .. } => {
            let consumption = consumption_of(before, request, 0);
            let binding = consumption.binding;
            &&& before.aethel.guarantees@.contains_key(request.guarantee_id)
            &&& after.deccp is Some
            &&& hold_moved(
                known,
                book,
                binding,
                Some(request.issuance_id),
                ClearingHoldStatus::Consumed,
                Some(request.issuance_id),
                Some(request.defmi_settlement_digest),
            )
            &&& facility_moved(
                known,
                book,
                binding.deccp_facility_id,
                consumption.transition.deccp_after_state_digest,
            )
        },
        Action::IssueDeccpClearingBook { request, .. } => {
            &&& before.deccp is None && after.deccp is Some
            &&& book.capital_lock == request.capitalization.defmi_lock_id
        },
        Action::IssueDeccpMember { request, .. } => {
            &&& after.deccp is Some
            &&& book.members@.contains_key(request.participant_id)
            &&& book.members@[request.participant_id].subject_line_id
                == request.eligibility.subject_line_id
        },
        Action::IssueDeccpGuaranteeFacility { facility, .. } => {
            &&& after.deccp is Some
            &&& book.facilities@.contains_key(facility.facility_id)
            &&& book.facilities@[facility.facility_id] == facility
        },
        _ => after.deccp == before.deccp,
    }
}

/// After a transaction on the books is carried out, the clearing book holds what
/// the transaction asked of it. Transactions that ask nothing of it leave it as it
/// was.
pub proof fn law_the_clearing_book_holds_what_was_asked(
    ledger: Ledger,
    action: Action,
    submission: Submission,
    timestamp: u64,
)
    requires
        on_books(action),
        action_outcome(ledger, action, submission, timestamp).result is Ok,
    ensures
        cleared_as_asked(
            ledger,
            action_outcome(ledger, action, submission, timestamp).ledger,
            action,
        ),
{
}

/// The clearing book is opened only over capital that is locked for it, a member is
/// admitted only with its subject line proved and its default fund locked, and a
/// facility is registered only where it starts from its live credit facility.
pub proof fn law_clearing_is_attested(
    ledger: Ledger,
    action: Action,
    submission: Submission,
    timestamp: u64,
)
    requires
        action_outcome(ledger, action, submission, timestamp).result is Ok,
    ensures
        match action {
            Action::IssueDeccpClearingBook { request, .. } => capital_refusal(
                ledger,
                request.capitalization,
                timestamp,
            ) is None,
            Action::IssueDeccpMember { request, presentation, .. } => membership_refusal(
                ledger,
                request,
                presentation,
                timestamp,
            ) is None,
            Action::IssueDeccpGuaranteeFacility { facility, .. } => facility_start_refusal(
                ledger,
                facility,
                timestamp,
            ) is None,
            _ => true,
        },
{
}

/// The question that a transaction puts to the book of receivables, if it does.
pub open spec fn book_question(action: Action) -> Option<BookQuestion> {
    match action {
        Action::IssueAethelProvider { provider_id, .. } => Some(
            BookQuestion::RegisterProvider { provider_id },
        ),
        Action::IssueAethelStream { stream_id, .. } => Some(
            BookQuestion::RegisterStream { stream_id },
        ),
        Action::IssueAethelStreamTransition { attestor_provider_id, stream_id, .. } => Some(
            BookQuestion::TransitionStream { attestor_provider_id, stream_id },
        ),
        Action::IssueAethelSeries { series_id, .. } => Some(
            BookQuestion::RegisterSeries { series_id },
        ),
        Action::IssueAethelCreditDecision { decision_id, decision, .. } => Some(
            BookQuestion::RecordDecision { decision_id, request_id: decision.request_id },
        ),
        Action::IssueAethelGuarantee { request, .. } => Some(
            BookQuestion::RecordGuarantee { request },
        ),
        Action::IssueAethelGuaranteeRelease { request, .. } => Some(
            BookQuestion::ReleaseGuarantee { request },
        ),
        Action::IssueAethelProviderKeyRotation { provider_id, next_public_key, .. } => Some(
            BookQuestion::RotateKey { provider_id, next_public_key },
        ),
        Action::IssueAethelProviderStatus { provider_id, status, .. } => Some(
            BookQuestion::SetStatus { provider_id, status },
        ),
        Action::IssueAethelCredentialIssuer { provider_id, epoch, .. } => Some(
            BookQuestion::RegisterIssuer { provider_id, epoch },
        ),
        Action::IssueAethelCredentialStatus { epoch, .. } => Some(
            BookQuestion::PublishStatus { epoch },
        ),
        Action::IssueAethelFundingQuote { quote_id, .. } => Some(
            BookQuestion::RecordQuote { quote_id },
        ),
        Action::IssueAethelReceivable { request, .. } => Some(BookQuestion::Issue { request }),
        Action::IssueAethelDefault { attestation_id, .. } => Some(
            BookQuestion::RecordDefault { attestation_id },
        ),
        Action::IssueAethelGuaranteeClaim { request, .. } => Some(
            BookQuestion::Claim { request },
        ),
        _ => None,
    }
}

/// A transaction on the books changes nothing in the book of receivables but what
/// it is about.
pub proof fn law_the_book_changes_only_as_asked(
    ledger: Ledger,
    action: Action,
    submission: Submission,
    timestamp: u64,
)
    requires
        on_books(action),
        action_outcome(ledger, action, submission, timestamp).result is Ok,
    ensures
        match book_question(action) {
            Some(question) => changes_only(
                ledger.aethel,
                question,
                action_outcome(ledger, action, submission, timestamp).ledger.aethel,
            ),
            None => action_outcome(ledger, action, submission, timestamp).ledger.aethel
                == ledger.aethel,
        },
{
}

/// Where the reservation behind a guarantee stands.
pub open spec fn clearing_status(status: GuaranteeStatus) -> ClearingHoldStatus {
    match status {
        GuaranteeStatus::Open => ClearingHoldStatus::Reserved,
        GuaranteeStatus::Released => ClearingHoldStatus::Released,
        GuaranteeStatus::Claimed => ClearingHoldStatus::Consumed,
    }
}

/// Whether the two books agree on a guarantee: the clearing book holds its
/// reservation under its name, on the same hold and for the same coverage, and the
/// reservation stands where the guarantee does.
pub open spec fn guarantee_cleared(ledger: Ledger, id: Id) -> bool {
    let guarantee = ledger.aethel.guarantees@[id];
    let hold = ledger.deccp->0.holds@[id];
    &&& guarantee.guarantee_id == id
    &&& ledger.aethel.guarantee_statuses@.contains_key(id)
    &&& ledger.deccp is Some
    &&& ledger.deccp->0.holds@.contains_key(id)
    &&& hold.hold_id == id
    &&& hold.defmi_hold_id == guarantee.defmi_hold_id
    &&& hold.coverage_commitment == guarantee.coverage_commitment
    &&& hold.status == clearing_status(ledger.aethel.guarantee_statuses@[id])
}

/// Whether the two books agree on every guarantee.
pub open spec fn guarantees_cleared(ledger: Ledger) -> bool {
    forall|id: Id| #[trigger]
        ledger.aethel.guarantees@.contains_key(id) ==> guarantee_cleared(ledger, id)
}

/// The books that follow from a transaction agree on a guarantee.
proof fn lemma_guarantee_stays_cleared(before: Ledger, after: Ledger, action: Action, id: Id)
    requires
        on_books(action),
        guarantees_cleared(before),
        recorded(before, after, action),
        match book_question(action) {
            Some(question) => changes_only(before.aethel, question, after.aethel),
            None => after.aethel == before.aethel,
        },
        cleared_as_asked(before, after, action),
        before.deccp is Some ==> after.deccp is Some && agrees(
            before.deccp->0.holds@,
            after.deccp->0.holds@,
            only(changed_hold(before, action)),
        ),
        after.aethel.guarantees@.contains_key(id),
    ensures
        guarantee_cleared(after, id),
{
    reveal(agrees);
    match action {
        Action::IssueAethelGuarantee { request, .. } => {
            if id != request.guarantee_id {
                assert(before.aethel.guarantees@.contains_key(id));
                assert(guarantee_cleared(before, id));
                assert(before.deccp->0.holds@.contains_key(id));
                assert(before.aethel.guarantee_statuses@.contains_key(id));
            }
        },
        Action::IssueAethelGuaranteeRelease { request, .. } => {
            assert(guarantee_cleared(before, request.guarantee_id));
            assert(before.aethel.guarantees@.contains_key(id));
            assert(guarantee_cleared(before, id));
            assert(before.deccp->0.holds@.contains_key(id));
            assert(before.aethel.guarantee_statuses@.contains_key(id));
        },
        Action::IssueAethelReceivable { request, .. } => {
            if request.guarantee_id is Some {
                assert(guarantee_cleared(before, request.guarantee_id->0));
            }
            assert(before.aethel.guarantees@.contains_key(id));
            assert(guarantee_cleared(before, id));
            assert(before.deccp->0.holds@.contains_key(id));
            assert(before.aethel.guarantee_statuses@.contains_key(id));
        },
        Action::IssueAethelGuaranteeClaim { request, .. } => {
            assert(guarantee_cleared(before, request.guarantee_id));
            assert(before.aethel.guarantees@.contains_key(id));
            assert(guarantee_cleared(before, id));
            assert(before.deccp->0.holds@.contains_key(id));
            assert(before.aethel.guarantee_statuses@.contains_key(id));
        },
        _ => {
            assert(before.aethel.guarantees@.contains_key(id));
            assert(guarantee_cleared(before, id));
            assert(before.deccp->0.holds@.contains_key(id));
            assert(before.aethel.guarantee_statuses@.contains_key(id));
        },
    }
}

/// Every transaction on the books keeps the two books agreed on every guarantee:
/// one that is open has its reservation, one that is released or claimed has it
/// released or consumed.
pub proof fn law_guarantees_stay_cleared(
    ledger: Ledger,
    action: Action,
    submission: Submission,
    timestamp: u64,
)
    requires
        on_books(action),
        guarantees_cleared(ledger),
    ensures
        guarantees_cleared(action_outcome(ledger, action, submission, timestamp).ledger),
{
    let outcome = action_outcome(ledger, action, submission, timestamp);
    if outcome.result is Ok {
        law_the_book_holds_what_was_recorded(ledger, action, submission, timestamp);
        law_the_book_changes_only_as_asked(ledger, action, submission, timestamp);
        law_the_clearing_book_holds_what_was_asked(ledger, action, submission, timestamp);
        if ledger.deccp is Some {
            law_the_clearing_book_changes_only_as_asked(ledger, action, submission, timestamp);
        }
        assert forall|id: Id| #[trigger]
            outcome.ledger.aethel.guarantees@.contains_key(id) implies guarantee_cleared(
            outcome.ledger,
            id,
        ) by {
            lemma_guarantee_stays_cleared(ledger, outcome.ledger, action, id);
        }
    } else {
        law_refused_book_action_changes_nothing(ledger, action, submission, timestamp);
    }
}

/// The hold that a transaction changes in the clearing book, if it does.
pub open spec fn changed_hold(ledger: Ledger, action: Action) -> Option<Id> {
    match action {
        Action::IssueAethelGuarantee { request, .. } => Some(request.guarantee_id),
        Action::IssueAethelGuaranteeRelease { request, .. } => Some(
            release_binding(ledger, request).deccp_hold_id,
        ),
        Action::IssueAethelReceivable { request, .. } => match request.guarantee_id {
            None => None,
            Some(guarantee_id) => Some(
                binding_of(
                    ledger.deccp->0,
                    ledger.aethel.guarantees@[guarantee_id],
                ).deccp_hold_id,
            ),
        },
        Action::IssueAethelGuaranteeClaim { request, .. } => Some(
            consumption_of(ledger, request, 0).binding.deccp_hold_id,
        ),
        _ => None,
    }
}

/// A transaction on the books changes no reservation in the clearing book but the
/// one it is about.
pub proof fn law_the_clearing_book_changes_only_as_asked(
    ledger: Ledger,
    action: Action,
    submission: Submission,
    timestamp: u64,
)
    requires
        on_books(action),
        ledger.deccp is Some,
        action_outcome(ledger, action, submission, timestamp).result is Ok,
    ensures
        ({
            let after = action_outcome(ledger, action, submission, timestamp).ledger;
            &&& after.deccp is Some
            &&& agrees(
                ledger.deccp->0.holds@,
                after.deccp->0.holds@,
                only(changed_hold(ledger, action)),
            )
        }),
{
    reveal(agrees);
}

/// Whatever transaction is carried out, the two books stay agreed on every
/// guarantee.
pub proof fn law_the_books_always_agree(
    ledger: Ledger,
    action: Action,
    submission: Submission,
    timestamp: u64,
)
    requires
        lanes_scoped(ledger),
        guarantees_cleared(ledger),
    ensures
        guarantees_cleared(applied_outcome(ledger, action, submission, timestamp).ledger),
{
    let after = applied_outcome(ledger, action, submission, timestamp).ledger;
    if on_books(action) {
        law_guarantees_stay_cleared(ledger, action, submission, timestamp);
        let kept = action_outcome(ledger, action, submission, timestamp).ledger;
        assert forall|id: Id| #[trigger] after.aethel.guarantees@.contains_key(
            id,
        ) implies guarantee_cleared(after, id) by {
            if after.aethel == kept.aethel {
                assert(kept.aethel.guarantees@.contains_key(id));
            } else {
                assert(ledger.aethel.guarantees@.contains_key(id));
            }
        }
    } else {
        law_every_transaction_follows(ledger, action, submission, timestamp);
        assert forall|id: Id| #[trigger] after.aethel.guarantees@.contains_key(
            id,
        ) implies guarantee_cleared(after, id) by {
            assert(ledger.aethel.guarantees@.contains_key(id));
        }
    }
}

/// A transaction on the books that is refused leaves everything as it was.
pub proof fn law_refused_book_action_changes_nothing(
    ledger: Ledger,
    action: Action,
    submission: Submission,
    timestamp: u64,
)
    requires
        on_books(action),
        action_outcome(ledger, action, submission, timestamp).result is Err,
    ensures
        action_outcome(ledger, action, submission, timestamp).ledger == ledger,
{
}

} // verus!
