//! Who may act on the book of receivables, and when an act is recorded.

use vstd::prelude::*;

use crate::aethel_book::{
    keeps_book, CredentialIssuer, CreditDecision, DefaultAttestation, FundingQuote,
    GuaranteeCommitment, Provider, ProviderCapability, ProviderStatus, Series, StatusList, Stream,
};
use crate::endorsement::Submission;
use crate::execution::aethel::{
    funding_backing_refusal, guarantee_backing_refusal, identity_refusal, role_of, roles_cover,
    runtime_refusal,
};
use crate::execution::book_question::{changes_only, BookCall, BookQuestion};
use crate::execution::{action_outcome, Action};
use crate::id::Id;
use crate::state::{AssetKind, FacilityStatus, HoldStatus, Ledger, ParticipantRole};
use crate::table::Numbered;

verus! {

/// Whether a statement is approved and made under a new operation.
pub open spec fn entered(
    ledger: Ledger,
    statement: Result<Id, String>,
    submission: Submission,
    operation_id: Id,
) -> bool {
    &&& statement is Ok
    &&& submission.refusal(statement->Ok_0) is None
    &&& operation_id != Id::zero()
    &&& !ledger.operations.contains_key(operation_id)
}

/// Whether a participant is registered and active.
pub open spec fn live_participant(ledger: Ledger, participant_id: Id) -> bool {
    ledger.participants.contains_key(participant_id) && ledger.participants[participant_id].active
}

/// Whether an asset is registered and active.
pub open spec fn live_asset(ledger: Ledger, asset_id: Id) -> bool {
    ledger.assets.contains_key(asset_id) && ledger.assets[asset_id].active
}

/// Whether a guarantor is registered and active, and has a key.
pub open spec fn live_guarantor(ledger: Ledger, guarantor_id: Id, public_key: Id) -> bool {
    &&& ledger.guarantors.contains_key(guarantor_id)
    &&& ledger.guarantors[guarantor_id].active
    &&& ledger.guarantors[guarantor_id].public_key == public_key
}

/// Whether a role is the one that a capability needs.
pub open spec fn role_for(capability: ProviderCapability, role: ParticipantRole) -> bool {
    match role {
        ParticipantRole::StreamAttestor => capability == ProviderCapability::StreamAttestor,
        ParticipantRole::CredentialIssuer => capability == ProviderCapability::CredentialIssuer,
        ParticipantRole::CreditAssessor => capability == ProviderCapability::CreditAssessor,
        ParticipantRole::Guarantor => capability == ProviderCapability::Guarantor,
        ParticipantRole::LiquidityProvider => capability == ProviderCapability::LiquidityProvider,
        ParticipantRole::Servicer => capability == ProviderCapability::Servicer,
    }
}

/// A provider may act in a capability exactly where it is known, active, has the
/// capability and is within its validity, its participant is active, within its
/// validity and quotes under the provider's key, and, for a guarantor, the guarantor
/// behind it is active under the key that the provider was registered with.
pub open spec fn may_act(
    ledger: Ledger,
    provider_id: Id,
    capability: ProviderCapability,
    timestamp: u64,
) -> bool {
    let provider = ledger.aethel.providers@[provider_id];
    let participant = ledger.participants[provider.participant_id];
    &&& ledger.aethel.providers@.contains_key(provider_id)
    &&& provider.status == ProviderStatus::Active
    &&& exists|i: int|
        0 <= i < provider.capabilities@.len() && #[trigger] provider.capabilities@[i] == capability
    &&& provider.valid_from <= timestamp <= provider.valid_until
    &&& live_participant(ledger, provider.participant_id)
    &&& participant.valid_from <= timestamp <= participant.valid_until
    &&& participant.quote_public_key == provider.public_key
    &&& capability == ProviderCapability::Guarantor ==> provider.defmi_guarantor_id is Some
        && live_guarantor(ledger, provider.defmi_guarantor_id->0, provider.registration_key)
}

/// The machine lets a provider act exactly where it may act.
pub proof fn law_who_may_act(
    ledger: Ledger,
    provider_id: Id,
    capability: ProviderCapability,
    timestamp: u64,
)
    ensures
        (runtime_refusal(ledger, provider_id, capability, timestamp) is None) == may_act(
            ledger,
            provider_id,
            capability,
            timestamp,
        ),
{
    let provider = ledger.aethel.providers@[provider_id];
    if provider.capabilities@.contains(capability) {
        let i = choose|i: int|
            0 <= i < provider.capabilities@.len() && #[trigger] provider.capabilities@[i]
                == capability;
        assert(provider.capabilities@[i] == capability);
    }
}

/// Whether a provider is who its participant is: an active participant whose validity
/// covers the provider's, under one key, with the role for every capability, and with
/// an active guarantor under that key where the provider names one.
pub open spec fn identified(ledger: Ledger, provider: Provider) -> bool {
    let participant = ledger.participants[provider.participant_id];
    &&& live_participant(ledger, provider.participant_id)
    &&& participant.valid_from <= provider.valid_from
    &&& provider.valid_until <= participant.valid_until
    &&& participant.quote_public_key == provider.public_key
    &&& forall|i: int|
        0 <= i < provider.capabilities@.len() ==> has_role_for(
            participant.roles@,
            #[trigger] provider.capabilities@[i],
        )
    &&& provider.defmi_guarantor_id is Some ==> live_guarantor(
        ledger,
        provider.defmi_guarantor_id->0,
        provider.public_key,
    )
}

/// Whether one of the roles is the one that a capability needs.
pub open spec fn has_role_for(
    roles: Seq<ParticipantRole>,
    capability: ProviderCapability,
) -> bool {
    exists|j: int| 0 <= j < roles.len() && role_for(capability, #[trigger] roles[j])
}

proof fn lemma_identified(ledger: Ledger, provider: Provider)
    ensures
        (identity_refusal(ledger, provider) is None) == identified(ledger, provider),
{
    let roles = ledger.participants[provider.participant_id].roles@;
    assert forall|i: int| 0 <= i < provider.capabilities@.len() implies has_role_for(
        roles,
        #[trigger] provider.capabilities@[i],
    ) == roles.contains(role_of(provider.capabilities@[i])) by {
        let capability = provider.capabilities@[i];
        assert forall|role: ParticipantRole| role_for(capability, role) == (role == role_of(
            capability,
        )) by {}
        if has_role_for(roles, capability) {
            let j = choose|j: int|
                0 <= j < roles.len() && role_for(capability, #[trigger] roles[j]);
            assert(roles[j] == role_of(capability));
        }
        if roles.contains(role_of(capability)) {
            let j = choose|j: int| 0 <= j < roles.len() && roles[j] == role_of(capability);
            assert(role_for(capability, roles[j]));
        }
    }
    if roles_cover(roles, provider.capabilities@) {
        assert forall|i: int| 0 <= i < provider.capabilities@.len() implies has_role_for(
            roles,
            #[trigger] provider.capabilities@[i],
        ) by {
            assert(roles.contains(role_of(provider.capabilities@[i])));
        }
    }
    if identified(ledger, provider) {
        assert forall|i: int| 0 <= i < provider.capabilities@.len() implies roles.contains(
            role_of(#[trigger] provider.capabilities@[i]),
        ) by {
            assert(has_role_for(roles, provider.capabilities@[i]));
        }
    }
}

/// Whether the book was asked exactly a question, for an operation and a time, and
/// answered it with a book that has lost nothing and changed nothing else.
pub open spec fn answered(
    ledger: Ledger,
    call: BookCall,
    question: BookQuestion,
    operation_id: Id,
    timestamp: u64,
) -> bool {
    &&& call.question == question
    &&& call.operation_id == operation_id
    &&& call.now == timestamp
    &&& call.recorded is Ok
    &&& keeps_book(ledger.aethel, *call.recorded->Ok_0)
    &&& changes_only(ledger.aethel, question, *call.recorded->Ok_0)
}

/// Whether a transaction on the book was carried out: the ledger has the book that
/// answered and the operation, and is otherwise as it was.
pub open spec fn book_replaced(
    ledger: Ledger,
    after: Ledger,
    call: BookCall,
    operation_id: Id,
) -> bool {
    after == (Ledger {
        aethel: *call.recorded->Ok_0,
        operations: ledger.operations.insert(operation_id, call.statement->Ok_0),
        ..ledger
    })
}

/// Whether two providers are one in every field.
pub open spec fn is_provider(left: Provider, right: Provider) -> bool {
    &&& left.participant_id == right.participant_id
    &&& left.public_key == right.public_key
    &&& left.registration_key == right.registration_key
    &&& left.defmi_guarantor_id == right.defmi_guarantor_id
    &&& left.capabilities@ == right.capabilities@
    &&& left.valid_from == right.valid_from
    &&& left.valid_until == right.valid_until
    &&& left.sequence == right.sequence
    &&& left.status == right.status
}

/// Whether two streams have one attestor, version, asset and commitments.
pub open spec fn is_stream(left: Stream, right: Stream) -> bool {
    &&& left.attestor_provider_id == right.attestor_provider_id
    &&& left.version == right.version
    &&& left.settlement_asset_id == right.settlement_asset_id
    &&& left.eligible_commitment == right.eligible_commitment
    &&& left.pledged_commitment == right.pledged_commitment
}

/// Whether a guarantee is backed: its provider has a guarantor, whose live facility on
/// the settlement asset of the stream lasts as long as the guarantee and has an active
/// hold of exactly the coverage that does so too.
pub open spec fn guarantee_backed(
    ledger: Ledger,
    request: GuaranteeCommitment,
    timestamp: u64,
) -> bool {
    let provider = ledger.aethel.providers@[request.provider_id];
    let facility = ledger.credit_facilities[request.defmi_facility_id];
    let hold = ledger.credit_holds[request.defmi_hold_id];
    let series = ledger.aethel.series@[request.series_id];
    let stream = ledger.aethel.streams@[series.stream_id];
    &&& ledger.aethel.providers@.contains_key(request.provider_id)
    &&& ledger.credit_facilities.contains_key(request.defmi_facility_id)
    &&& ledger.credit_holds.contains_key(request.defmi_hold_id)
    &&& ledger.aethel.series@.contains_key(request.series_id)
    &&& ledger.aethel.streams@.contains_key(series.stream_id)
    &&& provider.defmi_guarantor_id == Some(facility.guarantor_id)
    &&& facility.rail_asset_id == stream.settlement_asset_id
    &&& facility.status == FacilityStatus::Active
    &&& facility.valid_from <= timestamp
    &&& request.valid_until <= facility.valid_until
    &&& hold.facility_id == request.defmi_facility_id
    &&& hold.amount_commitment == request.coverage_commitment
    &&& hold.status == HoldStatus::Active
    &&& hold.settlement_digest == Id::zero()
    &&& request.valid_until <= hold.expires_at
}

/// Whether a funding quote is backed: by an active cash reserve of its asset and
/// exactly its advance, and in time.
pub open spec fn funding_backed(ledger: Ledger, request: FundingQuote, timestamp: u64) -> bool {
    let reserve = ledger.note_reservations[request.cash_reservation_id];
    &&& ledger.note_reservations.contains_key(request.cash_reservation_id)
    &&& reserve.asset_id == request.cash_asset_id
    &&& reserve.amount_commitment == request.advance_commitment
    &&& reserve.status == HoldStatus::Active
    &&& reserve.settlement_digest == Id::zero()
    &&& timestamp <= request.valid_until
}

/// The machine takes a guarantee as backed exactly where it is.
pub proof fn law_what_backs_a_guarantee(
    ledger: Ledger,
    guarantee: GuaranteeCommitment,
    timestamp: u64,
)
    ensures
        (guarantee_backing_refusal(ledger, guarantee, timestamp) is None) == guarantee_backed(
            ledger,
            guarantee,
            timestamp,
        ),
{
}

/// The machine takes a funding quote as backed exactly where it is.
pub proof fn law_what_backs_a_funding_quote(ledger: Ledger, quote: FundingQuote, timestamp: u64)
    ensures
        (funding_backing_refusal(ledger, quote, timestamp) is None) == funding_backed(
            ledger,
            quote,
            timestamp,
        ),
{
}

/// A provider is registered exactly where that is approved and new, the provider is
/// identified, and the book that was asked has it as it is.
pub proof fn law_when_a_provider_is_registered(
    ledger: Ledger,
    provider_id: Id,
    provider: Provider,
    operation_id: Id,
    call: BookCall,
    submission: Submission,
    timestamp: u64,
)
    ensures
        ({
            let outcome = action_outcome(
                ledger,
                Action::IssueAethelProvider { provider_id, provider, operation_id, call },
                submission,
                timestamp,
            );
            let book = *call.recorded->Ok_0;
            &&& (outcome.result is Ok) == {
                &&& entered(ledger, call.statement, submission, operation_id)
                &&& identified(ledger, provider)
                &&& answered(
                    ledger,
                    call,
                    BookQuestion::RegisterProvider { provider_id },
                    operation_id,
                    timestamp,
                )
                &&& book.providers@.contains_key(provider_id)
                &&& is_provider(book.providers@[provider_id], provider)
            }
            &&& outcome.result is Ok ==> book_replaced(ledger, outcome.ledger, call, operation_id)
        }),
{
    lemma_identified(ledger, provider);
}

/// A stream is registered exactly where that is approved and new, it settles in an
/// active cash asset, its attestor may act, and the book that was asked has it.
pub proof fn law_when_a_stream_is_registered(
    ledger: Ledger,
    stream_id: Id,
    stream: Stream,
    operation_id: Id,
    call: BookCall,
    submission: Submission,
    timestamp: u64,
)
    ensures
        ({
            let outcome = action_outcome(
                ledger,
                Action::IssueAethelStream { stream_id, stream, operation_id, call },
                submission,
                timestamp,
            );
            let book = *call.recorded->Ok_0;
            &&& (outcome.result is Ok) == {
                &&& entered(ledger, call.statement, submission, operation_id)
                &&& live_asset(ledger, stream.settlement_asset_id)
                &&& ledger.assets[stream.settlement_asset_id].kind == AssetKind::Cash
                &&& may_act(
                    ledger,
                    stream.attestor_provider_id,
                    ProviderCapability::StreamAttestor,
                    timestamp,
                )
                &&& answered(
                    ledger,
                    call,
                    BookQuestion::RegisterStream { stream_id },
                    operation_id,
                    timestamp,
                )
                &&& book.streams@.contains_key(stream_id)
                &&& is_stream(book.streams@[stream_id], stream)
            }
            &&& outcome.result is Ok ==> book_replaced(ledger, outcome.ledger, call, operation_id)
        }),
{
    law_who_may_act(
        ledger,
        stream.attestor_provider_id,
        ProviderCapability::StreamAttestor,
        timestamp,
    );
}

/// A stream is changed exactly where that is approved and new, the attestor may act,
/// and the book that was asked has the stream as changed.
pub proof fn law_when_a_stream_is_changed(
    ledger: Ledger,
    attestor_provider_id: Id,
    stream_id: Id,
    stream: Stream,
    operation_id: Id,
    call: BookCall,
    submission: Submission,
    timestamp: u64,
)
    ensures
        ({
            let outcome = action_outcome(
                ledger,
                Action::IssueAethelStreamTransition {
                    attestor_provider_id,
                    stream_id,
                    stream,
                    operation_id,
                    call,
                },
                submission,
                timestamp,
            );
            let book = *call.recorded->Ok_0;
            &&& (outcome.result is Ok) == {
                &&& entered(ledger, call.statement, submission, operation_id)
                &&& may_act(
                    ledger,
                    attestor_provider_id,
                    ProviderCapability::StreamAttestor,
                    timestamp,
                )
                &&& answered(
                    ledger,
                    call,
                    BookQuestion::TransitionStream { attestor_provider_id, stream_id },
                    operation_id,
                    timestamp,
                )
                &&& book.streams@.contains_key(stream_id)
                &&& is_stream(book.streams@[stream_id], stream)
            }
            &&& outcome.result is Ok ==> book_replaced(ledger, outcome.ledger, call, operation_id)
        }),
{
    law_who_may_act(
        ledger,
        attestor_provider_id,
        ProviderCapability::StreamAttestor,
        timestamp,
    );
}

/// A series is registered exactly where that is approved and new, its asset and its
/// issuer are active, and the book that was asked has it.
pub proof fn law_when_a_series_is_registered(
    ledger: Ledger,
    series_id: Id,
    series: Series,
    operation_id: Id,
    call: BookCall,
    submission: Submission,
    timestamp: u64,
)
    ensures
        ({
            let outcome = action_outcome(
                ledger,
                Action::IssueAethelSeries { series_id, series, operation_id, call },
                submission,
                timestamp,
            );
            let book = *call.recorded->Ok_0;
            &&& (outcome.result is Ok) == {
                &&& entered(ledger, call.statement, submission, operation_id)
                &&& live_asset(ledger, series.receivable_asset_id)
                &&& live_participant(ledger, series.issuer_participant_id)
                &&& answered(
                    ledger,
                    call,
                    BookQuestion::RegisterSeries { series_id },
                    operation_id,
                    timestamp,
                )
                &&& book.series@.contains_key(series_id)
                &&& book.series@[series_id] == series
            }
            &&& outcome.result is Ok ==> book_replaced(ledger, outcome.ledger, call, operation_id)
        }),
{
}

/// A credit decision is recorded exactly where that is approved and new, the assessor
/// may act, its subject can be read, and the book that was asked has the decision, and
/// the subject where there is one.
pub proof fn law_when_a_credit_decision_is_recorded(
    ledger: Ledger,
    decision_id: Id,
    decision: CreditDecision,
    subject: Result<bool, String>,
    operation_id: Id,
    call: BookCall,
    submission: Submission,
    timestamp: u64,
)
    ensures
        ({
            let outcome = action_outcome(
                ledger,
                Action::IssueAethelCreditDecision {
                    decision_id,
                    decision,
                    subject,
                    operation_id,
                    call,
                },
                submission,
                timestamp,
            );
            let book = *call.recorded->Ok_0;
            &&& (outcome.result is Ok) == {
                &&& entered(ledger, call.statement, submission, operation_id)
                &&& may_act(
                    ledger,
                    decision.provider_id,
                    ProviderCapability::CreditAssessor,
                    timestamp,
                )
                &&& subject is Ok
                &&& answered(
                    ledger,
                    call,
                    BookQuestion::RecordDecision { decision_id, request_id: decision.request_id },
                    operation_id,
                    timestamp,
                )
                &&& book.credit_decisions@.contains_key(decision_id)
                &&& book.credit_decisions@[decision_id] == decision
                &&& subject == Ok::<bool, String>(true)
                    ==> book.confidential_subjects@.contains_key(decision.request_id)
            }
            &&& outcome.result is Ok ==> book_replaced(ledger, outcome.ledger, call, operation_id)
        }),
{
    law_who_may_act(
        ledger,
        decision.provider_id,
        ProviderCapability::CreditAssessor,
        timestamp,
    );
}

/// The key of a provider is replaced exactly where that is approved and new, its
/// participant is active, within its validity, and quotes under the new key, and the
/// book that was asked has the provider one step on, under that key and otherwise as
/// it was.
pub proof fn law_when_a_key_is_replaced(
    ledger: Ledger,
    provider_id: Id,
    next_public_key: Id,
    operation_id: Id,
    call: BookCall,
    submission: Submission,
    timestamp: u64,
)
    ensures
        ({
            let outcome = action_outcome(
                ledger,
                Action::IssueAethelProviderKeyRotation {
                    provider_id,
                    next_public_key,
                    operation_id,
                    call,
                },
                submission,
                timestamp,
            );
            let book = *call.recorded->Ok_0;
            let provider = ledger.aethel.providers@[provider_id];
            let next = book.providers@[provider_id];
            let participant = ledger.participants[provider.participant_id];
            &&& (outcome.result is Ok) == {
                &&& entered(ledger, call.statement, submission, operation_id)
                &&& ledger.aethel.providers@.contains_key(provider_id)
                &&& live_participant(ledger, provider.participant_id)
                &&& participant.valid_from <= timestamp <= participant.valid_until
                &&& participant.quote_public_key == next_public_key
                &&& answered(
                    ledger,
                    call,
                    BookQuestion::RotateKey { provider_id, next_public_key },
                    operation_id,
                    timestamp,
                )
                &&& book.providers@.contains_key(provider_id)
                &&& next.public_key == next_public_key
                &&& next.status == provider.status
                &&& next.participant_id == provider.participant_id
                &&& next.registration_key == provider.registration_key
                &&& next.defmi_guarantor_id == provider.defmi_guarantor_id
                &&& next.capabilities@ == provider.capabilities@
                &&& next.valid_from == provider.valid_from
                &&& next.valid_until == provider.valid_until
                &&& next.sequence == provider.sequence + 1
            }
            &&& outcome.result is Ok ==> book_replaced(ledger, outcome.ledger, call, operation_id)
        }),
{
}

/// The standing of a provider is changed exactly where that is approved and new, the
/// provider is known, and the book that was asked has it one step on, with that
/// standing and otherwise as it was.
pub proof fn law_when_a_standing_is_changed(
    ledger: Ledger,
    provider_id: Id,
    status: ProviderStatus,
    operation_id: Id,
    call: BookCall,
    submission: Submission,
    timestamp: u64,
)
    ensures
        ({
            let outcome = action_outcome(
                ledger,
                Action::IssueAethelProviderStatus { provider_id, status, operation_id, call },
                submission,
                timestamp,
            );
            let book = *call.recorded->Ok_0;
            let provider = ledger.aethel.providers@[provider_id];
            let next = book.providers@[provider_id];
            &&& (outcome.result is Ok) == {
                &&& entered(ledger, call.statement, submission, operation_id)
                &&& ledger.aethel.providers@.contains_key(provider_id)
                &&& answered(
                    ledger,
                    call,
                    BookQuestion::SetStatus { provider_id, status },
                    operation_id,
                    timestamp,
                )
                &&& book.providers@.contains_key(provider_id)
                &&& next.status == status
                &&& next.public_key == provider.public_key
                &&& next.participant_id == provider.participant_id
                &&& next.registration_key == provider.registration_key
                &&& next.defmi_guarantor_id == provider.defmi_guarantor_id
                &&& next.capabilities@ == provider.capabilities@
                &&& next.valid_from == provider.valid_from
                &&& next.valid_until == provider.valid_until
                &&& next.sequence == provider.sequence + 1
            }
            &&& outcome.result is Ok ==> book_replaced(ledger, outcome.ledger, call, operation_id)
        }),
{
}

/// A key epoch of a credential issuer is registered exactly where that is approved and
/// new, the provider may issue credentials, and the book that was asked has it.
pub proof fn law_when_a_credential_issuer_is_registered(
    ledger: Ledger,
    provider_id: Id,
    epoch: Numbered,
    issuer: CredentialIssuer,
    operation_id: Id,
    call: BookCall,
    submission: Submission,
    timestamp: u64,
)
    ensures
        ({
            let outcome = action_outcome(
                ledger,
                Action::IssueAethelCredentialIssuer {
                    provider_id,
                    epoch,
                    issuer,
                    operation_id,
                    call,
                },
                submission,
                timestamp,
            );
            let book = *call.recorded->Ok_0;
            &&& (outcome.result is Ok) == {
                &&& entered(ledger, call.statement, submission, operation_id)
                &&& may_act(
                    ledger,
                    provider_id,
                    ProviderCapability::CredentialIssuer,
                    timestamp,
                )
                &&& answered(
                    ledger,
                    call,
                    BookQuestion::RegisterIssuer { provider_id, epoch },
                    operation_id,
                    timestamp,
                )
                &&& book.credential_issuers@.contains_key(epoch)
                &&& book.credential_issuers@[epoch] == issuer
            }
            &&& outcome.result is Ok ==> book_replaced(ledger, outcome.ledger, call, operation_id)
        }),
{
    law_who_may_act(ledger, provider_id, ProviderCapability::CredentialIssuer, timestamp);
}

/// A list of revoked credentials is published exactly where that is approved and new,
/// and the book that was asked has it.
pub proof fn law_when_a_status_list_is_published(
    ledger: Ledger,
    epoch: Numbered,
    list: StatusList,
    operation_id: Id,
    call: BookCall,
    submission: Submission,
    timestamp: u64,
)
    ensures
        ({
            let outcome = action_outcome(
                ledger,
                Action::IssueAethelCredentialStatus { epoch, list, operation_id, call },
                submission,
                timestamp,
            );
            let book = *call.recorded->Ok_0;
            &&& (outcome.result is Ok) == {
                &&& entered(ledger, call.statement, submission, operation_id)
                &&& answered(
                    ledger,
                    call,
                    BookQuestion::PublishStatus { epoch },
                    operation_id,
                    timestamp,
                )
                &&& book.status_lists@.contains_key(epoch)
                &&& book.status_lists@[epoch].status_epoch == list.status_epoch
                &&& book.status_lists@[epoch].valid_from == list.valid_from
                &&& book.status_lists@[epoch].valid_until == list.valid_until
                &&& book.status_lists@[epoch].revoked@ == list.revoked@
            }
            &&& outcome.result is Ok ==> book_replaced(ledger, outcome.ledger, call, operation_id)
        }),
{
}

/// A funding quote is recorded exactly where that is approved and new, its provider
/// may fund, it is backed, and the book that was asked has it.
pub proof fn law_when_a_funding_quote_is_recorded(
    ledger: Ledger,
    quote_id: Id,
    quote: FundingQuote,
    call: BookCall,
    submission: Submission,
    timestamp: u64,
)
    ensures
        ({
            let outcome = action_outcome(
                ledger,
                Action::IssueAethelFundingQuote { quote_id, quote, call },
                submission,
                timestamp,
            );
            let book = *call.recorded->Ok_0;
            &&& (outcome.result is Ok) == {
                &&& entered(ledger, call.statement, submission, quote.operation_id)
                &&& may_act(
                    ledger,
                    quote.provider_id,
                    ProviderCapability::LiquidityProvider,
                    timestamp,
                )
                &&& funding_backed(ledger, quote, timestamp)
                &&& answered(
                    ledger,
                    call,
                    BookQuestion::RecordQuote { quote_id },
                    quote.operation_id,
                    timestamp,
                )
                &&& book.funding_quotes@.contains_key(quote_id)
                &&& book.funding_quotes@[quote_id] == quote
            }
            &&& outcome.result is Ok ==> book_replaced(
                ledger,
                outcome.ledger,
                call,
                quote.operation_id,
            )
        }),
{
    law_who_may_act(
        ledger,
        quote.provider_id,
        ProviderCapability::LiquidityProvider,
        timestamp,
    );
}

/// A default is recorded exactly where that is approved and new, the servicer may act,
/// and the book that was asked has it.
pub proof fn law_when_a_default_is_recorded(
    ledger: Ledger,
    attestation_id: Id,
    attestation: DefaultAttestation,
    call: BookCall,
    submission: Submission,
    timestamp: u64,
)
    ensures
        ({
            let outcome = action_outcome(
                ledger,
                Action::IssueAethelDefault { attestation_id, attestation, call },
                submission,
                timestamp,
            );
            let book = *call.recorded->Ok_0;
            &&& (outcome.result is Ok) == {
                &&& entered(ledger, call.statement, submission, attestation.operation_id)
                &&& may_act(
                    ledger,
                    attestation.provider_id,
                    ProviderCapability::Servicer,
                    timestamp,
                )
                &&& answered(
                    ledger,
                    call,
                    BookQuestion::RecordDefault { attestation_id },
                    attestation.operation_id,
                    timestamp,
                )
                &&& book.default_attestations@.contains_key(attestation_id)
                &&& book.default_attestations@[attestation_id] == attestation
            }
            &&& outcome.result is Ok ==> book_replaced(
                ledger,
                outcome.ledger,
                call,
                attestation.operation_id,
            )
        }),
{
    law_who_may_act(
        ledger,
        attestation.provider_id,
        ProviderCapability::Servicer,
        timestamp,
    );
}

} // verus!
