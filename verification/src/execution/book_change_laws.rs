//! Which transactions change what in the book of receivables.

use vstd::prelude::*;

use crate::aethel_book::{keeps_book, AethelBook};
use crate::clearing_book::{keeps_clearing_book, ClearingBook};
use crate::endorsement::Submission;
use crate::execution::book_laws::law_the_book_changes_only_as_asked;
use crate::execution::book_question::{changes_only, BookQuestion};
use crate::execution::clearing_question::{fulfils, ClearingQuestion};
use crate::execution::laws::on_books;
use crate::execution::receivable_laws::{is_provider, is_stream};
use crate::execution::{action_outcome, Action};
use crate::id::Id;
use crate::state::Ledger;
use crate::table::{agrees, Numbered};

verus! {

/// No transaction on the books but one that is about it changes a provider.
pub proof fn law_who_changes_a_provider(
    ledger: Ledger,
    action: Action,
    submission: Submission,
    timestamp: u64,
    id: Id,
)
    requires
        on_books(action),
        action_outcome(ledger, action, submission, timestamp).result is Ok,
        !match action {
            Action::IssueAethelProvider { provider_id, .. } => provider_id == id,
            Action::IssueAethelProviderKeyRotation { provider_id, .. } => provider_id == id,
            Action::IssueAethelProviderStatus { provider_id, .. } => provider_id == id,
            _ => false,
        },
    ensures
        ({
            let before = ledger.aethel;
            let after = action_outcome(ledger, action, submission, timestamp).ledger.aethel;
            &&& after.providers@.contains_key(id) == before.providers@.contains_key(id)
            &&& before.providers@.contains_key(id) ==> is_provider(
                after.providers@[id],
                before.providers@[id],
            )
        }),
{
    law_the_book_changes_only_as_asked(ledger, action, submission, timestamp);
    reveal(agrees);
}

/// No transaction on the books but one that is about it changes a series.
pub proof fn law_who_changes_a_series(
    ledger: Ledger,
    action: Action,
    submission: Submission,
    timestamp: u64,
    id: Id,
)
    requires
        on_books(action),
        action_outcome(ledger, action, submission, timestamp).result is Ok,
        !match action {
            Action::IssueAethelSeries { series_id, .. } => series_id == id,
            _ => false,
        },
    ensures
        ({
            let before = ledger.aethel;
            let after = action_outcome(ledger, action, submission, timestamp).ledger.aethel;
            &&& after.series@.contains_key(id) == before.series@.contains_key(id)
            &&& before.series@.contains_key(id) ==> after.series@[id] == before.series@[id]
        }),
{
    law_the_book_changes_only_as_asked(ledger, action, submission, timestamp);
    reveal(agrees);
}

/// No transaction on the books but one that is about it changes a credit decision.
pub proof fn law_who_changes_a_credit_decision(
    ledger: Ledger,
    action: Action,
    submission: Submission,
    timestamp: u64,
    id: Id,
)
    requires
        on_books(action),
        action_outcome(ledger, action, submission, timestamp).result is Ok,
        !match action {
            Action::IssueAethelCreditDecision { decision_id, .. } => decision_id == id,
            _ => false,
        },
    ensures
        ({
            let before = ledger.aethel;
            let after = action_outcome(ledger, action, submission, timestamp).ledger.aethel;
            &&& after.credit_decisions@.contains_key(id) == before.credit_decisions@.contains_key(
                id,
            )
            &&& before.credit_decisions@.contains_key(id)
                ==> after.credit_decisions@[id] == before.credit_decisions@[id]
        }),
{
    law_the_book_changes_only_as_asked(ledger, action, submission, timestamp);
    reveal(agrees);
}

/// No transaction on the books but one that is about it changes a guarantee.
pub proof fn law_who_changes_a_guarantee(
    ledger: Ledger,
    action: Action,
    submission: Submission,
    timestamp: u64,
    id: Id,
)
    requires
        on_books(action),
        action_outcome(ledger, action, submission, timestamp).result is Ok,
        !match action {
            Action::IssueAethelGuarantee { request, .. } => request.guarantee_id == id,
            _ => false,
        },
    ensures
        ({
            let before = ledger.aethel;
            let after = action_outcome(ledger, action, submission, timestamp).ledger.aethel;
            &&& after.guarantees@.contains_key(id) == before.guarantees@.contains_key(id)
            &&& before.guarantees@.contains_key(id)
                ==> after.guarantees@[id] == before.guarantees@[id]
        }),
{
    law_the_book_changes_only_as_asked(ledger, action, submission, timestamp);
    reveal(agrees);
}

/// No transaction on the books but one that is about it changes the standing of a guarantee.
pub proof fn law_who_changes_the_standing_of_a_guarantee(
    ledger: Ledger,
    action: Action,
    submission: Submission,
    timestamp: u64,
    id: Id,
)
    requires
        on_books(action),
        action_outcome(ledger, action, submission, timestamp).result is Ok,
        !match action {
            Action::IssueAethelGuarantee { request, .. } => request.guarantee_id == id,
            Action::IssueAethelGuaranteeRelease { request, .. } => request.guarantee_id == id,
            Action::IssueAethelGuaranteeClaim { request, .. } => request.guarantee_id == id,
            _ => false,
        },
    ensures
        ({
            let before = ledger.aethel;
            let after = action_outcome(ledger, action, submission, timestamp).ledger.aethel;
            &&& after.guarantee_statuses@.contains_key(id)
                == before.guarantee_statuses@.contains_key(id)
            &&& before.guarantee_statuses@.contains_key(id)
                ==> after.guarantee_statuses@[id] == before.guarantee_statuses@[id]
        }),
{
    law_the_book_changes_only_as_asked(ledger, action, submission, timestamp);
    reveal(agrees);
}

/// No transaction on the books but one that is about it changes a guarantee claim.
pub proof fn law_who_changes_a_guarantee_claim(
    ledger: Ledger,
    action: Action,
    submission: Submission,
    timestamp: u64,
    id: Id,
)
    requires
        on_books(action),
        action_outcome(ledger, action, submission, timestamp).result is Ok,
        !match action {
            Action::IssueAethelGuaranteeClaim { request, .. } => request.claim_id == id,
            _ => false,
        },
    ensures
        ({
            let before = ledger.aethel;
            let after = action_outcome(ledger, action, submission, timestamp).ledger.aethel;
            &&& after.guarantee_claims@.contains_key(id) == before.guarantee_claims@.contains_key(
                id,
            )
            &&& before.guarantee_claims@.contains_key(id)
                ==> after.guarantee_claims@[id] == before.guarantee_claims@[id]
        }),
{
    law_the_book_changes_only_as_asked(ledger, action, submission, timestamp);
    reveal(agrees);
}

/// No transaction on the books but one that is about it changes a funding quote.
pub proof fn law_who_changes_a_funding_quote(
    ledger: Ledger,
    action: Action,
    submission: Submission,
    timestamp: u64,
    id: Id,
)
    requires
        on_books(action),
        action_outcome(ledger, action, submission, timestamp).result is Ok,
        !match action {
            Action::IssueAethelFundingQuote { quote_id, .. } => quote_id == id,
            _ => false,
        },
    ensures
        ({
            let before = ledger.aethel;
            let after = action_outcome(ledger, action, submission, timestamp).ledger.aethel;
            &&& after.funding_quotes@.contains_key(id) == before.funding_quotes@.contains_key(id)
            &&& before.funding_quotes@.contains_key(id)
                ==> after.funding_quotes@[id] == before.funding_quotes@[id]
        }),
{
    law_the_book_changes_only_as_asked(ledger, action, submission, timestamp);
    reveal(agrees);
}

/// No transaction on the books but one that is about it changes an issuance.
pub proof fn law_who_changes_an_issuance(
    ledger: Ledger,
    action: Action,
    submission: Submission,
    timestamp: u64,
    id: Id,
)
    requires
        on_books(action),
        action_outcome(ledger, action, submission, timestamp).result is Ok,
        !match action {
            Action::IssueAethelReceivable { request, .. } => request.issuance_id == id,
            _ => false,
        },
    ensures
        ({
            let before = ledger.aethel;
            let after = action_outcome(ledger, action, submission, timestamp).ledger.aethel;
            &&& after.issuances@.contains_key(id) == before.issuances@.contains_key(id)
            &&& before.issuances@.contains_key(id) ==> after.issuances@[id] == before.issuances@[id]
        }),
{
    law_the_book_changes_only_as_asked(ledger, action, submission, timestamp);
    reveal(agrees);
}

/// No transaction on the books but one that is about it changes an attested default.
pub proof fn law_who_changes_an_attested_default(
    ledger: Ledger,
    action: Action,
    submission: Submission,
    timestamp: u64,
    id: Id,
)
    requires
        on_books(action),
        action_outcome(ledger, action, submission, timestamp).result is Ok,
        !match action {
            Action::IssueAethelDefault { attestation_id, .. } => attestation_id == id,
            _ => false,
        },
    ensures
        ({
            let before = ledger.aethel;
            let after = action_outcome(ledger, action, submission, timestamp).ledger.aethel;
            &&& after.default_attestations@.contains_key(id)
                == before.default_attestations@.contains_key(id)
            &&& before.default_attestations@.contains_key(id)
                ==> after.default_attestations@[id] == before.default_attestations@[id]
        }),
{
    law_the_book_changes_only_as_asked(ledger, action, submission, timestamp);
    reveal(agrees);
}

/// No transaction on the books but one that is about it changes a subject.
pub proof fn law_who_changes_a_subject(
    ledger: Ledger,
    action: Action,
    submission: Submission,
    timestamp: u64,
    id: Id,
)
    requires
        on_books(action),
        action_outcome(ledger, action, submission, timestamp).result is Ok,
        !match action {
            Action::IssueAethelCreditDecision { decision, .. } => decision.request_id == id,
            Action::IssueAethelGuarantee { request, .. } => request.request_id == id,
            _ => false,
        },
    ensures
        ({
            let before = ledger.aethel;
            let after = action_outcome(ledger, action, submission, timestamp).ledger.aethel;
            &&& after.confidential_subjects@.contains_key(id)
                == before.confidential_subjects@.contains_key(id)
            &&& before.confidential_subjects@.contains_key(id)
                ==> after.confidential_subjects@[id] == before.confidential_subjects@[id]
        }),
{
    law_the_book_changes_only_as_asked(ledger, action, submission, timestamp);
    reveal(agrees);
}

/// No transaction on the books but one that is about it changes a stream.
pub proof fn law_who_changes_a_stream(
    ledger: Ledger,
    action: Action,
    submission: Submission,
    timestamp: u64,
    id: Id,
)
    requires
        on_books(action),
        action_outcome(ledger, action, submission, timestamp).result is Ok,
        !match action {
            Action::IssueAethelStream { stream_id, .. } => stream_id == id,
            Action::IssueAethelStreamTransition { stream_id, .. } => stream_id == id,
            Action::IssueAethelReceivable { request, .. } => {
                &&& ledger.aethel.series@.contains_key(request.series_id)
                &&& ledger.aethel.series@[request.series_id].stream_id == id
            },
            _ => false,
        },
    ensures
        ({
            let before = ledger.aethel;
            let after = action_outcome(ledger, action, submission, timestamp).ledger.aethel;
            &&& after.streams@.contains_key(id) == before.streams@.contains_key(id)
            &&& before.streams@.contains_key(id) ==> is_stream(
                after.streams@[id],
                before.streams@[id],
            )
        }),
{
    law_the_book_changes_only_as_asked(ledger, action, submission, timestamp);
    reveal(agrees);
}

/// No transaction on the books but one that is about it changes a credential issuer.
pub proof fn law_who_changes_a_credential_issuer(
    ledger: Ledger,
    action: Action,
    submission: Submission,
    timestamp: u64,
    key: Numbered,
)
    requires
        on_books(action),
        action_outcome(ledger, action, submission, timestamp).result is Ok,
        !match action {
            Action::IssueAethelCredentialIssuer { epoch, .. } => epoch.scope == key.scope,
            _ => false,
        },
    ensures
        ({
            let before = ledger.aethel;
            let after = action_outcome(ledger, action, submission, timestamp).ledger.aethel;
            &&& after.credential_issuers@.contains_key(key)
                == before.credential_issuers@.contains_key(key)
            &&& before.credential_issuers@.contains_key(key)
                ==> after.credential_issuers@[key] == before.credential_issuers@[key]
        }),
{
    law_the_book_changes_only_as_asked(ledger, action, submission, timestamp);
    reveal(agrees);
}

/// No transaction on the books but one that is about it changes a list of revoked credentials.
pub proof fn law_who_changes_a_list_of_revoked_credentials(
    ledger: Ledger,
    action: Action,
    submission: Submission,
    timestamp: u64,
    key: Numbered,
)
    requires
        on_books(action),
        action_outcome(ledger, action, submission, timestamp).result is Ok,
        !match action {
            Action::IssueAethelCredentialStatus { epoch, .. } => epoch == key,
            _ => false,
        },
    ensures
        ({
            let before = ledger.aethel;
            let after = action_outcome(ledger, action, submission, timestamp).ledger.aethel;
            &&& after.status_lists@.contains_key(key) == before.status_lists@.contains_key(key)
            &&& before.status_lists@.contains_key(key) ==> {
                &&& after.status_lists@[key].status_epoch == before.status_lists@[key].status_epoch
                &&& after.status_lists@[key].valid_from == before.status_lists@[key].valid_from
                &&& after.status_lists@[key].valid_until == before.status_lists@[key].valid_until
                &&& after.status_lists@[key].revoked@ == before.status_lists@[key].revoked@
            }
        }),
{
    law_the_book_changes_only_as_asked(ledger, action, submission, timestamp);
    reveal(agrees);
}

/// A book that differs from an earlier one only in what it was asked to change has
/// changed nothing else: the provider, the stream, the series, the decision and its
/// subject, the guarantee with its standing and its subject, the claim, the quote, the
/// issuance with its stream, the default, the issuer's epochs or the list that the
/// question is about.
pub proof fn law_a_book_may_change_what_it_was_asked(
    before: AethelBook,
    question: BookQuestion,
    after: AethelBook,
)
    requires
        forall|key: Id|
            #![trigger before.providers@.contains_key(key)]
            #![trigger after.providers@.contains_key(key)]
            !match question {
                BookQuestion::RegisterProvider { provider_id } => provider_id == key,
                BookQuestion::RotateKey { provider_id, .. } => provider_id == key,
                BookQuestion::SetStatus { provider_id, .. } => provider_id == key,
                _ => false,
            } ==> {
                &&& after.providers@.contains_key(key) == before.providers@.contains_key(key)
                &&& before.providers@.contains_key(key)
                    ==> after.providers@[key] == before.providers@[key]
            },
        forall|key: Id|
            #![trigger before.streams@.contains_key(key)]
            #![trigger after.streams@.contains_key(key)]
            !match question {
                BookQuestion::RegisterStream { stream_id } => stream_id == key,
                BookQuestion::TransitionStream { stream_id, .. } => stream_id == key,
                BookQuestion::Issue { request } => before.series@.contains_key(request.series_id)
                && before.series@[request.series_id].stream_id == key,
                _ => false,
            } ==> {
                &&& after.streams@.contains_key(key) == before.streams@.contains_key(key)
                &&& before.streams@.contains_key(key)
                    ==> after.streams@[key] == before.streams@[key]
            },
        forall|key: Id|
            #![trigger before.series@.contains_key(key)]
            #![trigger after.series@.contains_key(key)]
            !match question {
                BookQuestion::RegisterSeries { series_id } => series_id == key,
                _ => false,
            } ==> {
                &&& after.series@.contains_key(key) == before.series@.contains_key(key)
                &&& before.series@.contains_key(key) ==> after.series@[key] == before.series@[key]
            },
        forall|key: Id|
            #![trigger before.credit_decisions@.contains_key(key)]
            #![trigger after.credit_decisions@.contains_key(key)]
            !match question {
                BookQuestion::RecordDecision { decision_id, .. } => decision_id == key,
                _ => false,
            } ==> {
                &&& after.credit_decisions@.contains_key(key)
                    == before.credit_decisions@.contains_key(key)
                &&& before.credit_decisions@.contains_key(key)
                    ==> after.credit_decisions@[key] == before.credit_decisions@[key]
            },
        forall|key: Id|
            #![trigger before.guarantees@.contains_key(key)]
            #![trigger after.guarantees@.contains_key(key)]
            !match question {
                BookQuestion::RecordGuarantee { request } => request.guarantee_id == key,
                _ => false,
            } ==> {
                &&& after.guarantees@.contains_key(key) == before.guarantees@.contains_key(key)
                &&& before.guarantees@.contains_key(key)
                    ==> after.guarantees@[key] == before.guarantees@[key]
            },
        forall|key: Id|
            #![trigger before.guarantee_statuses@.contains_key(key)]
            #![trigger after.guarantee_statuses@.contains_key(key)]
            !match question {
                BookQuestion::RecordGuarantee { request } => request.guarantee_id == key,
                BookQuestion::ReleaseGuarantee { request } => request.guarantee_id == key,
                BookQuestion::Claim { request } => request.guarantee_id == key,
                _ => false,
            } ==> {
                &&& after.guarantee_statuses@.contains_key(key)
                    == before.guarantee_statuses@.contains_key(key)
                &&& before.guarantee_statuses@.contains_key(key)
                    ==> after.guarantee_statuses@[key] == before.guarantee_statuses@[key]
            },
        forall|key: Id|
            #![trigger before.guarantee_claims@.contains_key(key)]
            #![trigger after.guarantee_claims@.contains_key(key)]
            !match question {
                BookQuestion::Claim { request } => request.claim_id == key,
                _ => false,
            } ==> {
                &&& after.guarantee_claims@.contains_key(key)
                    == before.guarantee_claims@.contains_key(key)
                &&& before.guarantee_claims@.contains_key(key)
                    ==> after.guarantee_claims@[key] == before.guarantee_claims@[key]
            },
        forall|key: Id|
            #![trigger before.funding_quotes@.contains_key(key)]
            #![trigger after.funding_quotes@.contains_key(key)]
            !match question {
                BookQuestion::RecordQuote { quote_id } => quote_id == key,
                _ => false,
            } ==> {
                &&& after.funding_quotes@.contains_key(key) == before.funding_quotes@.contains_key(
                    key,
                )
                &&& before.funding_quotes@.contains_key(key)
                    ==> after.funding_quotes@[key] == before.funding_quotes@[key]
            },
        forall|key: Id|
            #![trigger before.issuances@.contains_key(key)]
            #![trigger after.issuances@.contains_key(key)]
            !match question {
                BookQuestion::Issue { request } => request.issuance_id == key,
                _ => false,
            } ==> {
                &&& after.issuances@.contains_key(key) == before.issuances@.contains_key(key)
                &&& before.issuances@.contains_key(key)
                    ==> after.issuances@[key] == before.issuances@[key]
            },
        forall|key: Id|
            #![trigger before.default_attestations@.contains_key(key)]
            #![trigger after.default_attestations@.contains_key(key)]
            !match question {
                BookQuestion::RecordDefault { attestation_id } => attestation_id == key,
                _ => false,
            } ==> {
                &&& after.default_attestations@.contains_key(key)
                    == before.default_attestations@.contains_key(key)
                &&& before.default_attestations@.contains_key(key)
                    ==> after.default_attestations@[key] == before.default_attestations@[key]
            },
        forall|key: Id|
            #![trigger before.confidential_subjects@.contains_key(key)]
            #![trigger after.confidential_subjects@.contains_key(key)]
            !match question {
                BookQuestion::RecordDecision { request_id, .. } => request_id == key,
                BookQuestion::RecordGuarantee { request } => request.request_id == key,
                _ => false,
            } ==> {
                &&& after.confidential_subjects@.contains_key(key)
                    == before.confidential_subjects@.contains_key(key)
                &&& before.confidential_subjects@.contains_key(key)
                    ==> after.confidential_subjects@[key] == before.confidential_subjects@[key]
            },
        forall|key: Numbered|
            #![trigger before.credential_issuers@.contains_key(key)]
            #![trigger after.credential_issuers@.contains_key(key)]
            !match question {
                BookQuestion::RegisterIssuer { epoch, .. } => epoch.scope == key.scope,
                _ => false,
            } ==> {
                &&& after.credential_issuers@.contains_key(key)
                    == before.credential_issuers@.contains_key(key)
                &&& before.credential_issuers@.contains_key(key)
                    ==> after.credential_issuers@[key] == before.credential_issuers@[key]
            },
        forall|key: Numbered|
            #![trigger before.status_lists@.contains_key(key)]
            #![trigger after.status_lists@.contains_key(key)]
            !match question {
                BookQuestion::PublishStatus { epoch } => epoch == key,
                _ => false,
            } ==> {
                &&& after.status_lists@.contains_key(key) == before.status_lists@.contains_key(key)
                &&& before.status_lists@.contains_key(key)
                    ==> after.status_lists@[key] == before.status_lists@[key]
            },
    ensures
        changes_only(before, question, after),
{
    reveal(agrees);
}

/// A book has lost nothing exactly where everything that an earlier one had under a
/// name it has under that name too.
pub proof fn law_when_a_book_has_lost_nothing(before: AethelBook, after: AethelBook)
    ensures
        keeps_book(before, after) == {
            &&& forall|id: Id| #[trigger]
                before.providers@.contains_key(id) ==> after.providers@.contains_key(id)
            &&& forall|id: Id| #[trigger]
                before.streams@.contains_key(id) ==> after.streams@.contains_key(id)
            &&& forall|id: Id| #[trigger]
                before.series@.contains_key(id) ==> after.series@.contains_key(id)
            &&& forall|id: Id| #[trigger]
                before.credit_decisions@.contains_key(id) ==> after.credit_decisions@.contains_key(
                    id,
                )
            &&& forall|id: Id| #[trigger]
                before.guarantees@.contains_key(id) ==> after.guarantees@.contains_key(id)
            &&& forall|id: Id| #[trigger]
                before.guarantee_statuses@.contains_key(id)
                    ==> after.guarantee_statuses@.contains_key(id)
            &&& forall|id: Id| #[trigger]
                before.guarantee_claims@.contains_key(id) ==> after.guarantee_claims@.contains_key(
                    id,
                )
            &&& forall|id: Id| #[trigger]
                before.funding_quotes@.contains_key(id) ==> after.funding_quotes@.contains_key(id)
            &&& forall|id: Id| #[trigger]
                before.issuances@.contains_key(id) ==> after.issuances@.contains_key(id)
            &&& forall|id: Id| #[trigger]
                before.default_attestations@.contains_key(id)
                    ==> after.default_attestations@.contains_key(id)
            &&& forall|id: Id| #[trigger]
                before.confidential_subjects@.contains_key(id)
                    ==> after.confidential_subjects@.contains_key(id)
            &&& forall|key: Numbered| #[trigger]
                before.credential_issuers@.contains_key(key)
                    ==> after.credential_issuers@.contains_key(key)
            &&& forall|key: Numbered| #[trigger]
                before.status_lists@.contains_key(key) ==> after.status_lists@.contains_key(key)
        },
{
    reveal(keeps_book);
}

/// A clearing book has lost nothing exactly where it is over the same capital and has
/// every facility, hold and member of the earlier one. One that does what was asked
/// has lost nothing.
pub proof fn law_when_a_clearing_book_has_lost_nothing(
    before: ClearingBook,
    question: ClearingQuestion,
    after: ClearingBook,
)
    ensures
        keeps_clearing_book(before, after) == {
            &&& after.capital_lock == before.capital_lock
            &&& forall|id: Id| #[trigger]
                before.facilities@.contains_key(id) ==> after.facilities@.contains_key(id)
            &&& forall|id: Id| #[trigger]
                before.holds@.contains_key(id) ==> after.holds@.contains_key(id)
            &&& forall|id: Id| #[trigger]
                before.members@.contains_key(id) ==> after.members@.contains_key(id)
        },
        fulfils(Some(before), question, after) ==> keeps_clearing_book(before, after),
{
    reveal(keeps_clearing_book);
}

} // verus!
