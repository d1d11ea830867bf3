//! Streaming receivables. The book of receivables owns their rules; this
//! machine stays authoritative for participants, notes, facilities, holds and
//! reserves. Here the two are joined.

use vstd::prelude::*;
use vstd::string::*;

use crate::aethel_book::{
    exercises, CreditDecision, FundingQuote, GuaranteeCommitment, Provider, ProviderCapability,
    ReceivableIssuance, Stream,
};
use crate::bytes::{append, copied, same_bytes};
use crate::crypto::{base64_refusal, base64_vec, sha256};
use crate::execution::deccp::{domain, find_provider, provider_refusal};
use crate::execution::product::{asset_active, is_asset_active};
use crate::id::Id;
use crate::outcome::{refusal_of, refuse, repeat, verdict};
use crate::state::{
    FacilityStatus, HoldStatus, Ledger, ParticipantRecord, ParticipantRole,
    SettlementVerifierRecord, State,
};
use crate::text::join;

verus! {

/// Why an asset cannot be used; `name` is what it is used for.
pub open spec fn asset_refusal(ledger: Ledger, asset_id: Id, name: Seq<char>) -> Option<Seq<char>> {
    if asset_active(ledger, asset_id) {
        None
    } else {
        Some(name + " is inactive or unknown"@)
    }
}

/// Checks that an asset is active.
pub fn require_active_asset(state: &State, asset_id: &Id, name: &str) -> (r: Result<(), String>)
    ensures
        verdict(r, asset_refusal(state@, *asset_id, name@)),
{
    if !is_asset_active(state, asset_id) {
        return Err(join(name, " is inactive or unknown"));
    }
    Ok(())
}

/// Why a participant cannot act.
pub open spec fn participant_refusal(ledger: Ledger, participant_id: Id) -> Option<Seq<char>> {
    if !ledger.participants.contains_key(participant_id) {
        Some("Aethel references an unknown DeFMI participant"@)
    } else if !ledger.participants[participant_id].active {
        Some("Aethel references an inactive DeFMI participant"@)
    } else {
        None
    }
}

/// The active participant of an identifier.
pub fn require_active_participant<'a>(state: &'a State, participant_id: &Id) -> (r: Result<
    &'a ParticipantRecord,
    String,
>)
    ensures
        match r {
            Ok(participant) => participant_refusal(state@, *participant_id) is None && *participant
                == state@.participants[*participant_id],
            Err(message) => participant_refusal(state@, *participant_id) == Some(message@),
        },
{
    let participant = match state.participants.get(participant_id) {
        Some(participant) => participant,
        None => return refuse("Aethel references an unknown DeFMI participant"),
    };
    if !participant.active {
        return refuse("Aethel references an inactive DeFMI participant");
    }
    Ok(participant)
}

/// The participant role that a capability needs.
pub open spec fn role_of(capability: ProviderCapability) -> ParticipantRole {
    match capability {
        ProviderCapability::StreamAttestor => ParticipantRole::StreamAttestor,
        ProviderCapability::CredentialIssuer => ParticipantRole::CredentialIssuer,
        ProviderCapability::CreditAssessor => ParticipantRole::CreditAssessor,
        ProviderCapability::Guarantor => ParticipantRole::Guarantor,
        ProviderCapability::LiquidityProvider => ParticipantRole::LiquidityProvider,
        ProviderCapability::Servicer => ParticipantRole::Servicer,
    }
}

fn capability_role(capability: ProviderCapability) -> (r: ParticipantRole)
    ensures
        r == role_of(capability),
{
    match capability {
        ProviderCapability::StreamAttestor => ParticipantRole::StreamAttestor,
        ProviderCapability::CredentialIssuer => ParticipantRole::CredentialIssuer,
        ProviderCapability::CreditAssessor => ParticipantRole::CreditAssessor,
        ProviderCapability::Guarantor => ParticipantRole::Guarantor,
        ProviderCapability::LiquidityProvider => ParticipantRole::LiquidityProvider,
        ProviderCapability::Servicer => ParticipantRole::Servicer,
    }
}

/// Whether a participant has the role of every capability.
pub open spec fn roles_cover(
    roles: Seq<ParticipantRole>,
    capabilities: Seq<ProviderCapability>,
) -> bool {
    forall|i: int|
        0 <= i < capabilities.len() ==> roles.contains(role_of(#[trigger] capabilities[i]))
}

fn has_role(roles: &Vec<ParticipantRole>, role: ParticipantRole) -> (r: bool)
    ensures
        r == roles@.contains(role),
{
    let mut index: usize = 0;
    while index < roles.len()
        invariant
            index <= roles@.len(),
            forall|i: int| 0 <= i < index ==> roles@[i] != role,
        decreases roles@.len() - index,
    {
        if roles[index] == role {
            assert(roles@[index as int] == role);
            return true;
        }
        index = index + 1;
    }
    false
}

fn do_roles_cover(
    roles: &Vec<ParticipantRole>,
    capabilities: &Vec<ProviderCapability>,
) -> (r: bool)
    ensures
        r == roles_cover(roles@, capabilities@),
{
    let mut index: usize = 0;
    while index < capabilities.len()
        invariant
            index <= capabilities@.len(),
            forall|i: int|
                0 <= i < index ==> roles@.contains(role_of(#[trigger] capabilities@[i])),
        decreases capabilities@.len() - index,
    {
        if !has_role(roles, capability_role(capabilities[index])) {
            assert(!roles@.contains(role_of(capabilities@[index as int])));
            return false;
        }
        index = index + 1;
    }
    true
}

/// Why a new provider does not fit its participant: validity, quote key, roles
/// and, for a guarantor, the guarantor's identity.
pub open spec fn identity_refusal(ledger: Ledger, provider: Provider) -> Option<Seq<char>> {
    let participant = ledger.participants[provider.participant_id];
    if participant_refusal(ledger, provider.participant_id) is Some {
        participant_refusal(ledger, provider.participant_id)
    } else if provider.valid_from < participant.valid_from || provider.valid_until
        > participant.valid_until || participant.quote_public_key != provider.public_key {
        Some("Aethel provider is outside its participant identity or quote-key epoch"@)
    } else if !roles_cover(participant.roles@, provider.capabilities@) {
        Some("Aethel provider capability is absent from its verified participant role"@)
    } else {
        match provider.defmi_guarantor_id {
            None => None,
            Some(guarantor_id) => if !ledger.guarantors.contains_key(guarantor_id) {
                Some("Aethel guarantee provider has no DeFMI guarantor"@)
            } else if !ledger.guarantors[guarantor_id].active
                || ledger.guarantors[guarantor_id].public_key != provider.public_key {
                Some("Aethel guarantee provider and DeFMI guarantor identity differ"@)
            } else {
                None
            },
        }
    }
}

/// Checks that a new provider fits its participant.
pub fn validate_provider_identity(state: &State, provider: &Provider) -> (r: Result<(), String>)
    ensures
        verdict(r, identity_refusal(state@, *provider)),
{
    let participant = require_active_participant(state, &provider.participant_id)?;
    if provider.valid_from < participant.valid_from || provider.valid_until
        > participant.valid_until || participant.quote_public_key != provider.public_key {
        return refuse("Aethel provider is outside its participant identity or quote-key epoch");
    }
    if !do_roles_cover(&participant.roles, &provider.capabilities) {
        return refuse("Aethel provider capability is absent from its verified participant role");
    }
    if let Some(guarantor_id) = provider.defmi_guarantor_id {
        let guarantor = match state.guarantors.get(&guarantor_id) {
            Some(guarantor) => guarantor,
            None => return refuse("Aethel guarantee provider has no DeFMI guarantor"),
        };
        if !guarantor.active || guarantor.public_key != provider.public_key {
            return refuse("Aethel guarantee provider and DeFMI guarantor identity differ");
        }
    }
    Ok(())
}

/// Why a provider may not act in a capability. The guarantor behind a guarantee
/// provider stays bound to the key that the provider was registered with.
pub open spec fn runtime_refusal(
    ledger: Ledger,
    provider_id: Id,
    capability: ProviderCapability,
    timestamp: u64,
) -> Option<Seq<char>> {
    let provider = ledger.aethel.providers@[provider_id];
    let participant = ledger.participants[provider.participant_id];
    if provider_refusal(ledger, provider_id) is Some {
        provider_refusal(ledger, provider_id)
    } else if !exercises(provider, capability, timestamp) {
        Some("Aethel provider capability is inactive at execution time"@)
    } else if participant_refusal(ledger, provider.participant_id) is Some {
        participant_refusal(ledger, provider.participant_id)
    } else if timestamp < participant.valid_from || timestamp > participant.valid_until
        || participant.quote_public_key != provider.public_key {
        Some("Aethel provider no longer matches its active participant key epoch"@)
    } else if capability != ProviderCapability::Guarantor {
        None
    } else {
        match provider.defmi_guarantor_id {
            None => Some("guarantee provider has no DeFMI guarantor identity"@),
            Some(guarantor_id) => if !ledger.guarantors.contains_key(guarantor_id) {
                Some("Aethel guarantee provider has no DeFMI guarantor"@)
            } else if !ledger.guarantors[guarantor_id].active
                || ledger.guarantors[guarantor_id].public_key != provider.registration_key {
                Some("Aethel guarantee provider's DeFMI authority is inactive"@)
            } else {
                None
            },
        }
    }
}

/// Checks that a provider may act in a capability.
pub fn validate_provider_runtime(
    state: &State,
    provider_id: &Id,
    capability: ProviderCapability,
    timestamp: u64,
) -> (r: Result<(), String>)
    ensures
        verdict(r, runtime_refusal(state@, *provider_id, capability, timestamp)),
{
    let provider = find_provider(state, provider_id)?;
    if !provider.has(capability, timestamp) {
        return refuse("Aethel provider capability is inactive at execution time");
    }
    let participant = require_active_participant(state, &provider.participant_id)?;
    if timestamp < participant.valid_from || timestamp > participant.valid_until
        || participant.quote_public_key != provider.public_key {
        return refuse("Aethel provider no longer matches its active participant key epoch");
    }
    if capability == ProviderCapability::Guarantor {
        let guarantor_id = match provider.defmi_guarantor_id {
            Some(guarantor_id) => guarantor_id,
            None => return refuse("guarantee provider has no DeFMI guarantor identity"),
        };
        let guarantor = match state.guarantors.get(&guarantor_id) {
            Some(guarantor) => guarantor,
            None => return refuse("Aethel guarantee provider has no DeFMI guarantor"),
        };
        if !guarantor.active || guarantor.public_key != provider.registration_key {
            return refuse("Aethel guarantee provider's DeFMI authority is inactive");
        }
    }
    Ok(())
}

/// Why there is no stream of an identifier.
pub open spec fn stream_refusal(ledger: Ledger, stream_id: Id) -> Option<Seq<char>> {
    if ledger.aethel.streams@.contains_key(stream_id) {
        None
    } else {
        Some(ledger.aethel.unknown_stream@)
    }
}

fn find_stream<'a>(state: &'a State, stream_id: &Id) -> (r: Result<&'a Stream, String>)
    ensures
        match r {
            Ok(stream) => stream_refusal(state@, *stream_id) is None && *stream
                == state@.aethel.streams@[*stream_id],
            Err(message) => stream_refusal(state@, *stream_id) == Some(message@),
        },
{
    match state.aethel.streams.get(stream_id) {
        Some(stream) => Ok(stream),
        None => Err(state.aethel.unknown_stream.clone()),
    }
}

/// Why a guarantee is not backed by a live hold on its guarantor's facility.
pub open spec fn guarantee_backing_refusal(
    ledger: Ledger,
    request: GuaranteeCommitment,
    timestamp: u64,
) -> Option<Seq<char>> {
    let provider = ledger.aethel.providers@[request.provider_id];
    let facility = ledger.credit_facilities[request.defmi_facility_id];
    let hold = ledger.credit_holds[request.defmi_hold_id];
    let series = ledger.aethel.series@[request.series_id];
    let stream = ledger.aethel.streams@[series.stream_id];
    if provider_refusal(ledger, request.provider_id) is Some {
        provider_refusal(ledger, request.provider_id)
    } else if provider.defmi_guarantor_id is None {
        Some("guarantee provider has no DeFMI guarantor identity"@)
    } else if !ledger.credit_facilities.contains_key(request.defmi_facility_id) {
        Some("Aethel guarantee names an unknown DeFMI facility"@)
    } else if !ledger.credit_holds.contains_key(request.defmi_hold_id) {
        Some("Aethel guarantee names an unknown DeFMI hold"@)
    } else if !ledger.aethel.series@.contains_key(request.series_id) {
        Some("Aethel guarantee names an unknown series"@)
    } else if stream_refusal(ledger, series.stream_id) is Some {
        stream_refusal(ledger, series.stream_id)
    } else if facility.guarantor_id != provider.defmi_guarantor_id->0 || facility.rail_asset_id
        != stream.settlement_asset_id || facility.status != FacilityStatus::Active || timestamp
        < facility.valid_from || request.valid_until > facility.valid_until || hold.facility_id
        != request.defmi_facility_id || hold.amount_commitment != request.coverage_commitment
        || hold.status != HoldStatus::Active || hold.settlement_digest != Id::zero()
        || request.valid_until > hold.expires_at {
        Some("Aethel guarantee is not backed by the named live DeFMI hold"@)
    } else {
        None
    }
}

/// Checks that a guarantee is backed by a live hold.
pub fn validate_guarantee_backing(
    state: &State,
    request: &GuaranteeCommitment,
    timestamp: u64,
) -> (r: Result<(), String>)
    ensures
        verdict(r, guarantee_backing_refusal(state@, *request, timestamp)),
{
    let provider = find_provider(state, &request.provider_id)?;
    let guarantor_id = match provider.defmi_guarantor_id {
        Some(guarantor_id) => guarantor_id,
        None => return refuse("guarantee provider has no DeFMI guarantor identity"),
    };
    let facility = match state.credit_facilities.get(&request.defmi_facility_id) {
        Some(facility) => facility,
        None => return refuse("Aethel guarantee names an unknown DeFMI facility"),
    };
    let hold = match state.credit_holds.get(&request.defmi_hold_id) {
        Some(hold) => hold,
        None => return refuse("Aethel guarantee names an unknown DeFMI hold"),
    };
    let series = match state.aethel.series.get(&request.series_id) {
        Some(series) => series,
        None => return refuse("Aethel guarantee names an unknown series"),
    };
    let stream = find_stream(state, &series.stream_id)?;
    if facility.guarantor_id != guarantor_id || facility.rail_asset_id
        != stream.settlement_asset_id || facility.status != FacilityStatus::Active || timestamp
        < facility.valid_from || request.valid_until > facility.valid_until || hold.facility_id
        != request.defmi_facility_id || hold.amount_commitment != request.coverage_commitment
        || hold.status != HoldStatus::Active || hold.settlement_digest != Id::zero()
        || request.valid_until > hold.expires_at {
        return refuse("Aethel guarantee is not backed by the named live DeFMI hold");
    }
    Ok(())
}

/// Why a funding quote is not backed by a live cash reserve.
pub open spec fn funding_backing_refusal(
    ledger: Ledger,
    request: FundingQuote,
    timestamp: u64,
) -> Option<Seq<char>> {
    let reserve = ledger.note_reservations[request.cash_reservation_id];
    if !ledger.note_reservations.contains_key(request.cash_reservation_id) {
        Some("Aethel funding quote names an unknown DeFMI cash reserve"@)
    } else if reserve.asset_id != request.cash_asset_id || reserve.amount_commitment
        != request.advance_commitment || reserve.status != HoldStatus::Active
        || reserve.settlement_digest != Id::zero() || timestamp > request.valid_until {
        Some("Aethel funding quote is not backed by the named live cash reserve"@)
    } else {
        None
    }
}

/// Checks that a funding quote is backed by a live cash reserve.
pub fn validate_funding_backing(state: &State, request: &FundingQuote, timestamp: u64) -> (r:
    Result<(), String>)
    ensures
        verdict(r, funding_backing_refusal(state@, *request, timestamp)),
{
    let reserve = match state.note_reservations.get(&request.cash_reservation_id) {
        Some(reserve) => reserve,
        None => return refuse("Aethel funding quote names an unknown DeFMI cash reserve"),
    };
    if reserve.asset_id != request.cash_asset_id || reserve.amount_commitment
        != request.advance_commitment || reserve.status != HoldStatus::Active
        || reserve.settlement_digest != Id::zero() || timestamp > request.valid_until {
        return refuse("Aethel funding quote is not backed by the named live cash reserve");
    }
    Ok(())
}

/// Why a guarantee behind an issuance may not be used.
pub open spec fn issuance_guarantee_refusal(
    ledger: Ledger,
    guarantee_id: Option<Id>,
    timestamp: u64,
) -> Option<Seq<char>> {
    match guarantee_id {
        None => None,
        Some(id) => {
            let guarantee = ledger.aethel.guarantees@[id];
            let runtime = runtime_refusal(
                ledger,
                guarantee.provider_id,
                ProviderCapability::Guarantor,
                timestamp,
            );
            if !ledger.aethel.guarantees@.contains_key(id) {
                Some("Aethel issuance names an unknown guarantee"@)
            } else if runtime is Some {
                runtime
            } else {
                guarantee_backing_refusal(ledger, guarantee, timestamp)
            }
        },
    }
}

/// Why a funding quote behind an issuance may not be used.
pub open spec fn issuance_funding_refusal(
    ledger: Ledger,
    quote_id: Option<Id>,
    timestamp: u64,
) -> Option<Seq<char>> {
    match quote_id {
        None => None,
        Some(id) => {
            let quote = ledger.aethel.funding_quotes@[id];
            let runtime = runtime_refusal(
                ledger,
                quote.provider_id,
                ProviderCapability::LiquidityProvider,
                timestamp,
            );
            if !ledger.aethel.funding_quotes@.contains_key(id) {
                Some("Aethel issuance names an unknown funding quote"@)
            } else if runtime is Some {
                runtime
            } else {
                funding_backing_refusal(ledger, quote, timestamp)
            }
        },
    }
}

/// Why a credit decision behind an issuance may not be used.
pub open spec fn issuance_credit_refusal(
    ledger: Ledger,
    decision_id: Option<Id>,
    timestamp: u64,
) -> Option<Seq<char>> {
    match decision_id {
        None => None,
        Some(id) => if !ledger.aethel.credit_decisions@.contains_key(id) {
            Some("Aethel issuance names an unknown credit decision"@)
        } else {
            runtime_refusal(
                ledger,
                ledger.aethel.credit_decisions@[id].provider_id,
                ProviderCapability::CreditAssessor,
                timestamp,
            )
        },
    }
}

/// Why a provider behind an issuance may not act.
pub open spec fn issuance_provider_refusal(
    ledger: Ledger,
    request: ReceivableIssuance,
    timestamp: u64,
) -> Option<Seq<char>> {
    let series = ledger.aethel.series@[request.series_id];
    let stream = ledger.aethel.streams@[series.stream_id];
    let attestor = runtime_refusal(
        ledger,
        stream.attestor_provider_id,
        ProviderCapability::StreamAttestor,
        timestamp,
    );
    let credit = issuance_credit_refusal(ledger, request.credit_decision_id, timestamp);
    let guarantee = issuance_guarantee_refusal(ledger, request.guarantee_id, timestamp);
    if !ledger.aethel.series@.contains_key(request.series_id) {
        Some("Aethel issuance names an unknown series"@)
    } else if stream_refusal(ledger, series.stream_id) is Some {
        stream_refusal(ledger, series.stream_id)
    } else if attestor is Some {
        attestor
    } else if credit is Some {
        credit
    } else if guarantee is Some {
        guarantee
    } else {
        issuance_funding_refusal(ledger, request.funding_quote_id, timestamp)
    }
}

/// Checks that every provider behind an issuance may act.
pub fn validate_issuance_provider_status(
    state: &State,
    request: &ReceivableIssuance,
    timestamp: u64,
) -> (r: Result<(), String>)
    ensures
        verdict(r, issuance_provider_refusal(state@, *request, timestamp)),
{
    let series = match state.aethel.series.get(&request.series_id) {
        Some(series) => series,
        None => return refuse("Aethel issuance names an unknown series"),
    };
    let stream = find_stream(state, &series.stream_id)?;
    validate_provider_runtime(
        state,
        &stream.attestor_provider_id,
        ProviderCapability::StreamAttestor,
        timestamp,
    )?;
    if let Some(decision_id) = request.credit_decision_id {
        let decision = match state.aethel.credit_decisions.get(&decision_id) {
            Some(decision) => decision,
            None => return refuse("Aethel issuance names an unknown credit decision"),
        };
        validate_provider_runtime(
            state,
            &decision.provider_id,
            ProviderCapability::CreditAssessor,
            timestamp,
        )?;
    }
    if let Some(guarantee_id) = request.guarantee_id {
        let guarantee = match state.aethel.guarantees.get(&guarantee_id) {
            Some(guarantee) => guarantee,
            None => return refuse("Aethel issuance names an unknown guarantee"),
        };
        validate_provider_runtime(
            state,
            &guarantee.provider_id,
            ProviderCapability::Guarantor,
            timestamp,
        )?;
        validate_guarantee_backing(state, guarantee, timestamp)?;
    }
    if let Some(quote_id) = request.funding_quote_id {
        let quote = match state.aethel.funding_quotes.get(&quote_id) {
            Some(quote) => quote,
            None => return refuse("Aethel issuance names an unknown funding quote"),
        };
        validate_provider_runtime(
            state,
            &quote.provider_id,
            ProviderCapability::LiquidityProvider,
            timestamp,
        )?;
        validate_funding_backing(state, quote, timestamp)?;
    }
    Ok(())
}

/// The artifact of a provider that an instruction refers to.
#[derive(Clone, Copy, Debug)]
pub struct ProviderReference {
    pub artifact_id: Id,
    pub provider_id: Id,
    pub backing_id: Id,
}

/// The reference to nothing.
pub open spec fn absent_reference() -> ProviderReference {
    ProviderReference {
        artifact_id: Id::zero(),
        provider_id: Id::zero(),
        backing_id: Id::zero(),
    }
}

impl ProviderReference {
    /// The reference to nothing.
    pub fn absent() -> (r: ProviderReference)
        ensures
            r == absent_reference(),
    {
        ProviderReference {
            artifact_id: Id::zero(),
            provider_id: Id::zero(),
            backing_id: Id::zero(),
        }
    }

    /// Whether two references are the same.
    pub fn same(&self, other: &ProviderReference) -> (r: bool)
        ensures
            r == (*self == *other),
    {
        self.artifact_id == other.artifact_id && self.provider_id == other.provider_id
            && self.backing_id == other.backing_id
    }
}

/// The digest that backs a credit decision: its model, policy and proof.
pub open spec fn credit_backing(decision: CreditDecision) -> Id {
    Id(
        sha256(
            domain("AETHEL:CREDIT-BACKING:v1"@) + decision.model_digest.0@
                + decision.policy_digest.0@ + decision.relation_proof_digest.0@,
        ),
    )
}

/// The digest that backs a credit decision.
pub fn credit_backing_id(decision: &CreditDecision) -> (r: Id)
    ensures
        r == credit_backing(*decision),
{
    let mut bytes: Vec<u8> = Vec::new();
    append(&mut bytes, "AETHEL:CREDIT-BACKING:v1".as_bytes());
    assert(bytes@ =~= domain("AETHEL:CREDIT-BACKING:v1"@));
    append(&mut bytes, &decision.model_digest.0);
    append(&mut bytes, &decision.policy_digest.0);
    append(&mut bytes, &decision.relation_proof_digest.0);
    Id::digest(bytes.as_slice())
}

/// The reference to a credit decision, or why there is none.
pub open spec fn credit_reference_of(ledger: Ledger, decision_id: Option<Id>) -> Result<
    ProviderReference,
    Seq<char>,
> {
    match decision_id {
        None => Ok(absent_reference()),
        Some(id) => if ledger.aethel.credit_decisions@.contains_key(id) {
            let decision = ledger.aethel.credit_decisions@[id];
            Ok(
                ProviderReference {
                    artifact_id: id,
                    provider_id: decision.provider_id,
                    backing_id: credit_backing(decision),
                },
            )
        } else {
            Err("zkPI names an unknown Aethel credit decision"@)
        },
    }
}

/// Whether a call gave the reference, or the reason for which there is none.
pub open spec fn refers(
    result: Result<ProviderReference, String>,
    expected: Result<ProviderReference, Seq<char>>,
) -> bool {
    match result {
        Ok(reference) => expected == Ok::<ProviderReference, Seq<char>>(reference),
        Err(message) => expected == Err::<ProviderReference, Seq<char>>(message@),
    }
}

/// The reference to a credit decision.
pub fn credit_reference(state: &State, decision_id: Option<Id>) -> (r: Result<
    ProviderReference,
    String,
>)
    ensures
        refers(r, credit_reference_of(state@, decision_id)),
{
    let id = match decision_id {
        Some(id) => id,
        None => return Ok(ProviderReference::absent()),
    };
    match state.aethel.credit_decisions.get(&id) {
        Some(decision) => Ok(
            ProviderReference {
                artifact_id: id,
                provider_id: decision.provider_id,
                backing_id: credit_backing_id(decision),
            },
        ),
        None => refuse("zkPI names an unknown Aethel credit decision"),
    }
}

/// The reference to a guarantee, or why there is none. Its hold backs it.
pub open spec fn guarantee_reference_of(ledger: Ledger, guarantee_id: Option<Id>) -> Result<
    ProviderReference,
    Seq<char>,
> {
    match guarantee_id {
        None => Ok(absent_reference()),
        Some(id) => if ledger.aethel.guarantees@.contains_key(id) {
            let guarantee = ledger.aethel.guarantees@[id];
            Ok(
                ProviderReference {
                    artifact_id: id,
                    provider_id: guarantee.provider_id,
                    backing_id: guarantee.defmi_hold_id,
                },
            )
        } else {
            Err("zkPI names an unknown Aethel guarantee"@)
        },
    }
}

/// The reference to a guarantee.
pub fn guarantee_reference(state: &State, guarantee_id: Option<Id>) -> (r: Result<
    ProviderReference,
    String,
>)
    ensures
        refers(r, guarantee_reference_of(state@, guarantee_id)),
{
    let id = match guarantee_id {
        Some(id) => id,
        None => return Ok(ProviderReference::absent()),
    };
    match state.aethel.guarantees.get(&id) {
        Some(guarantee) => Ok(
            ProviderReference {
                artifact_id: id,
                provider_id: guarantee.provider_id,
                backing_id: guarantee.defmi_hold_id,
            },
        ),
        None => refuse("zkPI names an unknown Aethel guarantee"),
    }
}

/// The reference to a funding quote, or why there is none. Its cash reserve
/// backs it.
pub open spec fn funding_reference_of(ledger: Ledger, quote_id: Option<Id>) -> Result<
    ProviderReference,
    Seq<char>,
> {
    match quote_id {
        None => Ok(absent_reference()),
        Some(id) => if ledger.aethel.funding_quotes@.contains_key(id) {
            let quote = ledger.aethel.funding_quotes@[id];
            Ok(
                ProviderReference {
                    artifact_id: id,
                    provider_id: quote.provider_id,
                    backing_id: quote.cash_reservation_id,
                },
            )
        } else {
            Err("zkPI names an unknown Aethel funding quote"@)
        },
    }
}

/// The reference to a funding quote.
pub fn funding_reference(state: &State, quote_id: Option<Id>) -> (r: Result<
    ProviderReference,
    String,
>)
    ensures
        refers(r, funding_reference_of(state@, quote_id)),
{
    let id = match quote_id {
        Some(id) => id,
        None => return Ok(ProviderReference::absent()),
    };
    match state.aethel.funding_quotes.get(&id) {
        Some(quote) => Ok(
            ProviderReference {
                artifact_id: id,
                provider_id: quote.provider_id,
                backing_id: quote.cash_reservation_id,
            },
        ),
        None => refuse("zkPI names an unknown Aethel funding quote"),
    }
}

/// What a receivable instruction asks for.
#[derive(Clone, Copy, Debug, PartialEq, Eq, Structural)]
pub enum ReceivableOperation {
    Issue,
    ClaimGuarantee,
    Other,
}

/// A decoded receivable instruction, with its canonical encoding.
#[derive(Debug)]
pub struct ReceivableInstruction {
    pub encoded: Vec<u8>,
    pub operation: ReceivableOperation,
    pub venue_id: Id,
    pub verifier_epoch: u64,
    pub defmi_id: Id,
    pub aethel_domain_id: Id,
    pub request_id: Id,
    pub action_id: Id,
    pub series_id: Id,
    pub stream_id: Id,
    pub stream_state_version: u64,
    pub before_stream_state_root: Id,
    pub after_stream_state_root: Id,
    pub eligible_commitment: Id,
    pub before_pledged_commitment: Id,
    pub after_pledged_commitment: Id,
    pub receivable_note_id: Id,
    pub settlement_asset_id: Id,
    pub credit: ProviderReference,
    pub guarantee: ProviderReference,
    pub funding: ProviderReference,
    pub policy_digest: Id,
    pub relation_proof_digest: Id,
    pub operation_nullifier: Id,
    pub before_aethel_root: Id,
    pub amount_commitment: Id,
    pub price_commitment: Id,
    pub payee_handle: Id,
}

/// The digest of an instruction's canonical encoding.
pub fn instruction_wire_digest(instruction: &ReceivableInstruction) -> (r: Id)
    ensures
        r == Id(sha256(instruction.encoded@)),
{
    Id::digest(instruction.encoded.as_slice())
}

/// What the proofs of a receivable instruction are verified against: its bytes,
/// the pinned parameters of its venue and epoch, and the time.
#[derive(Debug)]
pub struct ReceivableChecks {
    pub raw: Vec<u8>,
    pub venue_id: Id,
    pub epoch: u64,
    pub frost_public_package: Vec<u8>,
    pub amount_bits: u16,
    pub price_bits: u16,
    pub max_horizon: u64,
    pub timestamp: u64,
}

/// A receivable instruction as submitted. `decoded` is what its bytes decode
/// to, `verifier_key` the key of its venue and epoch, `package_valid` is about
/// the pinned signing package, `verified` the verdict on its proofs, and `checks`
/// what they were verified against.
#[derive(Debug)]
pub struct SubmittedInstruction {
    pub text: Option<String>,
    pub decoded: Result<ReceivableInstruction, String>,
    pub verifier_key: Id,
    pub package_valid: bool,
    pub verified: Result<(), String>,
    pub checks: ReceivableChecks,
}

/// Why a field is not base64 text.
pub open spec fn base64_field_refusal(text: Option<String>, name: Seq<char>) -> Option<Seq<char>> {
    match text {
        None => Some(name + " must be base64"@),
        Some(encoded) => base64_refusal(encoded@, name),
    }
}

/// Decodes a base64 field.
pub fn base64_field(text: &Option<String>, name: &str) -> (r: Result<Vec<u8>, String>)
    ensures
        match r {
            Ok(bytes) => *text is Some && crate::crypto::base64_bytes(text->0@) == Some(bytes@),
            Err(message) => base64_field_refusal(*text, name@) == Some(message@),
        },
        r is Ok == base64_field_refusal(*text, name@) is None,
{
    match text {
        None => Err(join(name, " must be base64")),
        Some(encoded) => base64_vec(encoded.as_str(), name),
    }
}

/// Why there are no pinned parameters for an instruction.
pub open spec fn pinned_refusal(
    ledger: Ledger,
    instruction: ReceivableInstruction,
    verifier_key: Id,
    timestamp: u64,
) -> Option<Seq<char>> {
    let verifier = ledger.settlement_verifiers[verifier_key];
    if !ledger.settlement_verifiers.contains_key(verifier_key) || verifier.venue_id
        != instruction.venue_id || verifier.epoch != instruction.verifier_epoch {
        Some("streaming-receivable zkPI has no governance-pinned verifier"@)
    } else if verifier.defmi_id != instruction.defmi_id || timestamp < verifier.valid_from
        || timestamp > verifier.valid_until {
        Some("streaming-receivable verifier is outside its DeFMI epoch"@)
    } else {
        None
    }
}

/// Whether the proofs of an instruction are to be verified against exactly this.
pub open spec fn receivable_checks_are(
    verifier: SettlementVerifierRecord,
    raw: Seq<u8>,
    instruction: ReceivableInstruction,
    timestamp: u64,
    checks: ReceivableChecks,
) -> bool {
    &&& checks.raw@ == raw
    &&& checks.venue_id == instruction.venue_id
    &&& checks.epoch == instruction.verifier_epoch
    &&& checks.frost_public_package@ == verifier.frost_public_package@
    &&& checks.amount_bits == verifier.amount_bits
    &&& checks.price_bits == verifier.price_bits
    &&& checks.max_horizon == verifier.max_horizon
    &&& checks.timestamp == timestamp
}

fn find_pinned<'a>(
    state: &'a State,
    instruction: &ReceivableInstruction,
    verifier_key: &Id,
    timestamp: u64,
) -> (r: Result<&'a SettlementVerifierRecord, String>)
    ensures
        match r {
            Ok(verifier) => {
                &&& pinned_refusal(state@, *instruction, *verifier_key, timestamp) is None
                &&& *verifier == state@.settlement_verifiers[*verifier_key]
            },
            Err(message) => pinned_refusal(state@, *instruction, *verifier_key, timestamp) == Some(
                message@,
            ),
        },
{
    let verifier = match state.settlement_verifiers.get(verifier_key) {
        Some(verifier) => verifier,
        None => return refuse("streaming-receivable zkPI has no governance-pinned verifier"),
    };
    if verifier.venue_id != instruction.venue_id || verifier.epoch != instruction.verifier_epoch {
        return refuse("streaming-receivable zkPI has no governance-pinned verifier");
    }
    if verifier.defmi_id != instruction.defmi_id || timestamp < verifier.valid_from || timestamp
        > verifier.valid_until {
        return refuse("streaming-receivable verifier is outside its DeFMI epoch");
    }
    Ok(verifier)
}

/// What the proofs of an instruction are to be verified against.
pub fn receivable_checks(
    state: &State,
    raw: &Vec<u8>,
    instruction: &ReceivableInstruction,
    verifier_key: &Id,
    timestamp: u64,
) -> (r: Result<ReceivableChecks, String>)
    ensures
        match r {
            Ok(checks) => {
                &&& pinned_refusal(state@, *instruction, *verifier_key, timestamp) is None
                &&& receivable_checks_are(
                    state@.settlement_verifiers[*verifier_key],
                    raw@,
                    *instruction,
                    timestamp,
                    checks,
                )
            },
            Err(message) => pinned_refusal(state@, *instruction, *verifier_key, timestamp) == Some(
                message@,
            ),
        },
{
    let verifier = find_pinned(state, instruction, verifier_key, timestamp)?;
    Ok(
        ReceivableChecks {
            raw: copied(raw),
            venue_id: instruction.venue_id,
            epoch: instruction.verifier_epoch,
            frost_public_package: copied(&verifier.frost_public_package),
            amount_bits: verifier.amount_bits,
            price_bits: verifier.price_bits,
            max_horizon: verifier.max_horizon,
            timestamp,
        },
    )
}

/// Why an instruction of some bytes is not a verified one under pinned
/// parameters.
pub open spec fn zkpi_refusal(
    ledger: Ledger,
    raw: Seq<u8>,
    submitted: SubmittedInstruction,
    timestamp: u64,
) -> Option<Seq<char>> {
    match submitted.decoded {
        Err(message) => Some(message@),
        Ok(instruction) => {
            let key = submitted.verifier_key;
            if pinned_refusal(ledger, instruction, key, timestamp) is Some {
                pinned_refusal(ledger, instruction, key, timestamp)
            } else if !receivable_checks_are(
                ledger.settlement_verifiers[key],
                raw,
                instruction,
                timestamp,
                submitted.checks,
            ) {
                Some("streaming-receivable zkPI was verified against something else"@)
            } else if !submitted.package_valid {
                Some("streaming-receivable FROST package is invalid"@)
            } else {
                refusal_of(submitted.verified)
            }
        },
    }
}

/// The verified instruction of some bytes.
pub fn verify_receivable_zkpi<'a>(
    state: &State,
    raw: &Vec<u8>,
    submitted: &'a SubmittedInstruction,
    timestamp: u64,
) -> (r: Result<&'a ReceivableInstruction, String>)
    ensures
        match r {
            Ok(instruction) => zkpi_refusal(state@, raw@, *submitted, timestamp) is None
                && submitted.decoded == Ok::<ReceivableInstruction, String>(*instruction),
            Err(message) => zkpi_refusal(state@, raw@, *submitted, timestamp) == Some(message@),
        },
{
    let instruction = match &submitted.decoded {
        Ok(instruction) => instruction,
        Err(message) => return Err(message.clone()),
    };
    let verifier = find_pinned(state, instruction, &submitted.verifier_key, timestamp)?;
    let checks = &submitted.checks;
    if !same_bytes(checks.raw.as_slice(), raw.as_slice()) || checks.venue_id
        != instruction.venue_id || checks.epoch != instruction.verifier_epoch || !same_bytes(
        checks.frost_public_package.as_slice(),
        verifier.frost_public_package.as_slice(),
    ) || checks.amount_bits != verifier.amount_bits || checks.price_bits != verifier.price_bits
        || checks.max_horizon != verifier.max_horizon || checks.timestamp != timestamp {
        return refuse("streaming-receivable zkPI was verified against something else");
    }
    if !submitted.package_valid {
        return refuse("streaming-receivable FROST package is invalid");
    }
    repeat(&submitted.verified)?;
    Ok(instruction)
}

} // verus!
