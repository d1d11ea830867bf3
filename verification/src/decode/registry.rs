//! Submitted registrations and admissions.

use vstd::prelude::*;

use crate::decode::kinds::{
    asset_kind_of, asset_kind_refusal, csd_issuer_control_kind_of, csd_issuer_control_kind_refusal,
    guarantor_kind_of, guarantor_kind_refusal, read_asset_kind, read_csd_issuer_control_kind,
    read_guarantor_kind,
};
use crate::crypto::{base64_bytes, base64_refusal, base64_vec};
use crate::decode::lists::{copy_statement, ids_of, ids_refusal, limit_refusal, read_ids};
use crate::endorsement::Seal;
use crate::execution::admission::COMMITTEE_NODES;
use crate::id::Id;
use crate::order::{
    AccountOpening, AdmissionBatchPlan, AdmissionCommitteePlan, AdmissionSlotAdvance,
    AssetDefinition, CsdIssuerControl, CsdIssuerDefinition, GuarantorDefinition,
    SettlementVerifierConfig,
};
use crate::outcome::{first, refusal_of, refuse, repeat};
use crate::text::{hex_id, hex_id_of, hex_refusal};

verus! {

/// An asset definition, as submitted.
#[derive(Debug)]
pub struct AssetDto {
    pub asset_id: String,
    pub code: String,
    pub kind: String,
    pub decimals: u8,
    pub terms_digest: String,
    pub seal: Seal,
}

/// Why an asset definition cannot be read.
pub open spec fn asset_refusal(dto: AssetDto) -> Option<Seq<char>> {
    first(hex_refusal(dto.asset_id@, "asset.assetID"@, 32),
    first(asset_kind_refusal(dto.kind@, "asset.kind"@),
    first(hex_refusal(dto.terms_digest@, "asset.termsDigest"@, 32),
    refusal_of(dto.seal.body))))
}

/// An asset definition.
pub open spec fn asset_of(dto: AssetDto) -> AssetDefinition {
    AssetDefinition {
        asset_id: hex_id_of(dto.asset_id@),
        code: dto.code,
        kind: asset_kind_of(dto.kind@),
        decimals: dto.decimals,
        terms_digest: hex_id_of(dto.terms_digest@),
        seal: dto.seal,
    }
}

/// Reads an asset definition.
pub fn asset_from_dto(dto: &AssetDto) -> (r: Result<AssetDefinition, String>)
    ensures
        match r {
            Ok(value) => asset_refusal(*dto) is None && value == asset_of(*dto),
            Err(message) => asset_refusal(*dto) == Some(message@),
        },
{
    let asset_id = hex_id(dto.asset_id.as_str(), "asset.assetID")?;
    let kind = read_asset_kind(dto.kind.as_str(), "asset.kind")?;
    let terms_digest = hex_id(dto.terms_digest.as_str(), "asset.termsDigest")?;
    repeat(&dto.seal.body)?;
    Ok(AssetDefinition {
        asset_id,
        code: dto.code.clone(),
        kind,
        decimals: dto.decimals,
        terms_digest,
        seal: dto.seal.copy(),
    })
}

/// An account opening, as submitted.
#[derive(Debug)]
pub struct AccountOpeningDto {
    pub handle: String,
    pub asset_id: String,
    pub commitment: String,
    pub issuance_nonce: String,
    pub seal: Seal,
}

/// Why an account opening cannot be read.
pub open spec fn account_opening_refusal(dto: AccountOpeningDto) -> Option<Seq<char>> {
    first(hex_refusal(dto.handle@, "opening.handle"@, 32),
    first(hex_refusal(dto.asset_id@, "opening.assetID"@, 32),
    first(hex_refusal(dto.commitment@, "opening.commitment"@, 32),
    first(hex_refusal(dto.issuance_nonce@, "opening.issuanceNonce"@, 32),
    refusal_of(dto.seal.body)))))
}

/// An account opening.
pub open spec fn account_opening_of(dto: AccountOpeningDto) -> AccountOpening {
    AccountOpening {
        handle: hex_id_of(dto.handle@),
        asset_id: hex_id_of(dto.asset_id@),
        commitment: hex_id_of(dto.commitment@),
        issuance_nonce: hex_id_of(dto.issuance_nonce@),
        seal: dto.seal,
    }
}

/// Reads an account opening.
pub fn account_opening_from_dto(dto: &AccountOpeningDto) -> (r: Result<AccountOpening, String>)
    ensures
        match r {
            Ok(value) => account_opening_refusal(*dto) is None && value == account_opening_of(*dto),
            Err(message) => account_opening_refusal(*dto) == Some(message@),
        },
{
    let handle = hex_id(dto.handle.as_str(), "opening.handle")?;
    let asset_id = hex_id(dto.asset_id.as_str(), "opening.assetID")?;
    let commitment = hex_id(dto.commitment.as_str(), "opening.commitment")?;
    let issuance_nonce = hex_id(dto.issuance_nonce.as_str(), "opening.issuanceNonce")?;
    repeat(&dto.seal.body)?;
    Ok(AccountOpening {
        handle,
        asset_id,
        commitment,
        issuance_nonce,
        seal: dto.seal.copy(),
    })
}

/// A guarantor definition, as submitted.
#[derive(Debug)]
pub struct GuarantorDto {
    pub guarantor_id: String,
    pub kind: String,
    pub name: String,
    pub public_key: String,
    pub risk_policy_digest: String,
    pub seal: Seal,
}

/// Why a guarantor definition cannot be read.
pub open spec fn guarantor_refusal(dto: GuarantorDto) -> Option<Seq<char>> {
    first(hex_refusal(dto.guarantor_id@, "guarantor.guarantorID"@, 32),
    first(guarantor_kind_refusal(dto.kind@, "guarantor.kind"@),
    first(hex_refusal(dto.public_key@, "guarantor.publicKey"@, 32),
    first(hex_refusal(dto.risk_policy_digest@, "guarantor.riskPolicyDigest"@, 32),
    refusal_of(dto.seal.body)))))
}

/// A guarantor definition.
pub open spec fn guarantor_of(dto: GuarantorDto) -> GuarantorDefinition {
    GuarantorDefinition {
        guarantor_id: hex_id_of(dto.guarantor_id@),
        kind: guarantor_kind_of(dto.kind@),
        name: dto.name,
        public_key: hex_id_of(dto.public_key@),
        risk_policy_digest: hex_id_of(dto.risk_policy_digest@),
        seal: dto.seal,
    }
}

/// Reads a guarantor definition.
pub fn guarantor_from_dto(dto: &GuarantorDto) -> (r: Result<GuarantorDefinition, String>)
    ensures
        match r {
            Ok(value) => guarantor_refusal(*dto) is None && value == guarantor_of(*dto),
            Err(message) => guarantor_refusal(*dto) == Some(message@),
        },
{
    let guarantor_id = hex_id(dto.guarantor_id.as_str(), "guarantor.guarantorID")?;
    let kind = read_guarantor_kind(dto.kind.as_str(), "guarantor.kind")?;
    let public_key = hex_id(dto.public_key.as_str(), "guarantor.publicKey")?;
    let risk_policy_digest = hex_id(dto.risk_policy_digest.as_str(), "guarantor.riskPolicyDigest")?;
    repeat(&dto.seal.body)?;
    Ok(GuarantorDefinition {
        guarantor_id,
        kind,
        name: dto.name.clone(),
        public_key,
        risk_policy_digest,
        seal: dto.seal.copy(),
    })
}

/// An issuer definition, as submitted.
#[derive(Debug)]
pub struct CsdIssuerDto {
    pub issuer_id: String,
    pub code: String,
    pub jurisdiction: String,
    pub operator_entity_commitment: String,
    pub public_key: String,
    pub permitted_asset_ids: Vec<String>,
    pub policy_digest: String,
    pub valid_from: u64,
    pub valid_until: u64,
    pub seal: Seal,
}

/// Why an issuer definition cannot be read.
pub open spec fn csd_issuer_refusal(dto: CsdIssuerDto) -> Option<Seq<char>> {
    first(hex_refusal(dto.issuer_id@, "issuer.issuerID"@, 32),
    first(hex_refusal(dto.operator_entity_commitment@, "issuer.operatorEntityCommitment"@, 32),
    first(hex_refusal(dto.public_key@, "issuer.publicKey"@, 32),
    first(ids_refusal(dto.permitted_asset_ids@, "issuer.permittedAssetIDs"@, 0),
    first(hex_refusal(dto.policy_digest@, "issuer.policyDigest"@, 32),
    refusal_of(dto.seal.body))))))
}

/// Whether a value is an issuer definition as submitted.
pub open spec fn csd_issuer_is(dto: CsdIssuerDto, value: CsdIssuerDefinition) -> bool {
    &&& value.issuer_id == hex_id_of(dto.issuer_id@)
    &&& value.code == dto.code
    &&& value.jurisdiction == dto.jurisdiction
    &&& value.operator_entity_commitment == hex_id_of(dto.operator_entity_commitment@)
    &&& value.public_key == hex_id_of(dto.public_key@)
    &&& value.permitted_asset_ids@ == ids_of(dto.permitted_asset_ids@)
    &&& value.policy_digest == hex_id_of(dto.policy_digest@)
    &&& value.valid_from == dto.valid_from
    &&& value.valid_until == dto.valid_until
    &&& value.seal == dto.seal
}

/// Reads an issuer definition.
pub fn csd_issuer_from_dto(dto: &CsdIssuerDto) -> (r: Result<CsdIssuerDefinition, String>)
    ensures
        match r {
            Ok(value) => csd_issuer_refusal(*dto) is None && csd_issuer_is(*dto, value),
            Err(message) => csd_issuer_refusal(*dto) == Some(message@),
        },
{
    let issuer_id = hex_id(dto.issuer_id.as_str(), "issuer.issuerID")?;
    let operator_entity_commitment = hex_id(
        dto.operator_entity_commitment.as_str(),
        "issuer.operatorEntityCommitment",
    )?;
    let public_key = hex_id(dto.public_key.as_str(), "issuer.publicKey")?;
    let permitted_asset_ids = read_ids(&dto.permitted_asset_ids, "issuer.permittedAssetIDs")?;
    let policy_digest = hex_id(dto.policy_digest.as_str(), "issuer.policyDigest")?;
    repeat(&dto.seal.body)?;
    Ok(CsdIssuerDefinition {
        issuer_id,
        code: dto.code.clone(),
        jurisdiction: dto.jurisdiction.clone(),
        operator_entity_commitment,
        public_key,
        permitted_asset_ids,
        policy_digest,
        valid_from: dto.valid_from,
        valid_until: dto.valid_until,
        seal: dto.seal.copy(),
    })
}

/// An issuer control, as submitted.
#[derive(Debug)]
pub struct CsdIssuerControlDto {
    pub operation_id: String,
    pub issuer_id: String,
    pub kind: String,
    pub before_sequence: u64,
    pub reason_digest: String,
    pub seal: Seal,
}

/// Why an issuer control cannot be read.
pub open spec fn csd_control_refusal(dto: CsdIssuerControlDto) -> Option<Seq<char>> {
    first(hex_refusal(dto.operation_id@, "control.operationID"@, 32),
    first(hex_refusal(dto.issuer_id@, "control.issuerID"@, 32),
    first(csd_issuer_control_kind_refusal(dto.kind@, "control.kind"@),
    first(hex_refusal(dto.reason_digest@, "control.reasonDigest"@, 32),
    refusal_of(dto.seal.body)))))
}

/// An issuer control.
pub open spec fn csd_control_of(dto: CsdIssuerControlDto) -> CsdIssuerControl {
    CsdIssuerControl {
        operation_id: hex_id_of(dto.operation_id@),
        issuer_id: hex_id_of(dto.issuer_id@),
        kind: csd_issuer_control_kind_of(dto.kind@),
        before_sequence: dto.before_sequence,
        reason_digest: hex_id_of(dto.reason_digest@),
        seal: dto.seal,
    }
}

/// Reads an issuer control.
pub fn csd_control_from_dto(dto: &CsdIssuerControlDto) -> (r: Result<CsdIssuerControl, String>)
    ensures
        match r {
            Ok(value) => csd_control_refusal(*dto) is None && value == csd_control_of(*dto),
            Err(message) => csd_control_refusal(*dto) == Some(message@),
        },
{
    let operation_id = hex_id(dto.operation_id.as_str(), "control.operationID")?;
    let issuer_id = hex_id(dto.issuer_id.as_str(), "control.issuerID")?;
    let kind = read_csd_issuer_control_kind(dto.kind.as_str(), "control.kind")?;
    let reason_digest = hex_id(dto.reason_digest.as_str(), "control.reasonDigest")?;
    repeat(&dto.seal.body)?;
    Ok(CsdIssuerControl {
        operation_id,
        issuer_id,
        kind,
        before_sequence: dto.before_sequence,
        reason_digest,
        seal: dto.seal.copy(),
    })
}

/// A committee plan, as submitted.
#[derive(Debug)]
pub struct AdmissionCommitteeDto {
    pub operation_id: String,
    pub venue_id: String,
    pub epoch: u64,
    pub node_keys: Vec<String>,
    pub valid_from: u64,
    pub valid_until: u64,
    pub seal: Seal,
}

/// Why a committee plan cannot be read.
pub open spec fn admission_committee_refusal(dto: AdmissionCommitteeDto) -> Option<Seq<char>> {
    first(limit_refusal(
        dto.node_keys@.len(),
        COMMITTEE_NODES as nat,
        "admission committee contains too many node keys"@,
    ),
    first(hex_refusal(dto.operation_id@, "plan.operationID"@, 32),
    first(hex_refusal(dto.venue_id@, "plan.venueID"@, 32),
    first(ids_refusal(dto.node_keys@, "plan.nodeKeys"@, 0),
    refusal_of(dto.seal.body)))))
}

/// Whether a value is a committee plan as submitted.
pub open spec fn admission_committee_is(
    dto: AdmissionCommitteeDto,
    value: AdmissionCommitteePlan,
) -> bool {
    &&& value.operation_id == hex_id_of(dto.operation_id@)
    &&& value.venue_id == hex_id_of(dto.venue_id@)
    &&& value.epoch == dto.epoch
    &&& value.node_keys@ == ids_of(dto.node_keys@)
    &&& value.valid_from == dto.valid_from
    &&& value.valid_until == dto.valid_until
    &&& value.seal == dto.seal
}

/// Reads a committee plan.
pub fn admission_committee_from_dto(
    dto: &AdmissionCommitteeDto,
) -> (r: Result<AdmissionCommitteePlan, String>)
    ensures
        match r {
            Ok(value) => admission_committee_refusal(*dto) is None && admission_committee_is(
                *dto,
                value,
            ),
            Err(message) => admission_committee_refusal(*dto) == Some(message@),
        },
{
    if dto.node_keys.len() > COMMITTEE_NODES {
        return refuse("admission committee contains too many node keys");
    }
    let operation_id = hex_id(dto.operation_id.as_str(), "plan.operationID")?;
    let venue_id = hex_id(dto.venue_id.as_str(), "plan.venueID")?;
    let node_keys = read_ids(&dto.node_keys, "plan.nodeKeys")?;
    repeat(&dto.seal.body)?;
    Ok(AdmissionCommitteePlan {
        operation_id,
        venue_id,
        epoch: dto.epoch,
        node_keys,
        valid_from: dto.valid_from,
        valid_until: dto.valid_until,
        seal: dto.seal.copy(),
    })
}

/// A batch plan, as submitted.
#[derive(Debug)]
pub struct AdmissionBatchDto {
    pub operation_id: String,
    pub batch_id: String,
    pub venue_id: String,
    pub epoch: u64,
    pub slot: u64,
    pub batch_digest: String,
    pub order_digest: String,
    pub admission_digests: Vec<String>,
    pub expires_at: u64,
    pub seal: Seal,
}

/// Why a batch plan cannot be read.
pub open spec fn admission_batch_refusal(dto: AdmissionBatchDto) -> Option<Seq<char>> {
    first(limit_refusal(
        dto.admission_digests@.len(),
        4096,
        "admission batch contains too many lanes"@,
    ),
    first(hex_refusal(dto.operation_id@, "plan.operationID"@, 32),
    first(hex_refusal(dto.batch_id@, "plan.batchID"@, 32),
    first(hex_refusal(dto.venue_id@, "plan.venueID"@, 32),
    first(hex_refusal(dto.batch_digest@, "plan.batchDigest"@, 32),
    first(hex_refusal(dto.order_digest@, "plan.orderDigest"@, 32),
    first(ids_refusal(dto.admission_digests@, "plan.admissionDigests"@, 0),
    refusal_of(dto.seal.body))))))))
}

/// Whether a value is a batch plan as submitted.
pub open spec fn admission_batch_is(dto: AdmissionBatchDto, value: AdmissionBatchPlan) -> bool {
    &&& value.operation_id == hex_id_of(dto.operation_id@)
    &&& value.batch_id == hex_id_of(dto.batch_id@)
    &&& value.venue_id == hex_id_of(dto.venue_id@)
    &&& value.epoch == dto.epoch
    &&& value.slot == dto.slot
    &&& value.batch_digest == hex_id_of(dto.batch_digest@)
    &&& value.order_digest == hex_id_of(dto.order_digest@)
    &&& value.admission_digests@ == ids_of(dto.admission_digests@)
    &&& value.expires_at == dto.expires_at
    &&& value.seal == dto.seal
}

/// Reads a batch plan.
pub fn admission_batch_from_dto(dto: &AdmissionBatchDto) -> (r: Result<AdmissionBatchPlan, String>)
    ensures
        match r {
            Ok(value) => admission_batch_refusal(*dto) is None && admission_batch_is(*dto, value),
            Err(message) => admission_batch_refusal(*dto) == Some(message@),
        },
{
    if dto.admission_digests.len() > 4096 {
        return refuse("admission batch contains too many lanes");
    }
    let operation_id = hex_id(dto.operation_id.as_str(), "plan.operationID")?;
    let batch_id = hex_id(dto.batch_id.as_str(), "plan.batchID")?;
    let venue_id = hex_id(dto.venue_id.as_str(), "plan.venueID")?;
    let batch_digest = hex_id(dto.batch_digest.as_str(), "plan.batchDigest")?;
    let order_digest = hex_id(dto.order_digest.as_str(), "plan.orderDigest")?;
    let admission_digests = read_ids(&dto.admission_digests, "plan.admissionDigests")?;
    repeat(&dto.seal.body)?;
    Ok(AdmissionBatchPlan {
        operation_id,
        batch_id,
        venue_id,
        epoch: dto.epoch,
        slot: dto.slot,
        batch_digest,
        order_digest,
        admission_digests,
        expires_at: dto.expires_at,
        seal: dto.seal.copy(),
    })
}

/// An admission advance, as submitted.
#[derive(Debug)]
pub struct AdmissionAdvanceDto {
    pub operation_id: String,
    pub batch_id: String,
    pub sequence: u64,
    pub admission_digest: String,
    pub seal: Seal,
}

/// Why an admission advance cannot be read.
pub open spec fn admission_advance_refusal(dto: AdmissionAdvanceDto) -> Option<Seq<char>> {
    first(hex_refusal(dto.operation_id@, "advance.operationID"@, 32),
    first(hex_refusal(dto.batch_id@, "advance.batchID"@, 32),
    first(hex_refusal(dto.admission_digest@, "advance.admissionDigest"@, 32),
    refusal_of(dto.seal.body))))
}

/// An admission advance.
pub open spec fn admission_advance_of(dto: AdmissionAdvanceDto) -> AdmissionSlotAdvance {
    AdmissionSlotAdvance {
        operation_id: hex_id_of(dto.operation_id@),
        batch_id: hex_id_of(dto.batch_id@),
        sequence: dto.sequence,
        admission_digest: hex_id_of(dto.admission_digest@),
        seal: dto.seal,
    }
}

/// Reads an admission advance.
pub fn admission_advance_from_dto(
    dto: &AdmissionAdvanceDto,
) -> (r: Result<AdmissionSlotAdvance, String>)
    ensures
        match r {
            Ok(value) => admission_advance_refusal(*dto) is None && value == admission_advance_of(
                *dto,
            ),
            Err(message) => admission_advance_refusal(*dto) == Some(message@),
        },
{
    let operation_id = hex_id(dto.operation_id.as_str(), "advance.operationID")?;
    let batch_id = hex_id(dto.batch_id.as_str(), "advance.batchID")?;
    let admission_digest = hex_id(dto.admission_digest.as_str(), "advance.admissionDigest")?;
    repeat(&dto.seal.body)?;
    Ok(AdmissionSlotAdvance {
        operation_id,
        batch_id,
        sequence: dto.sequence,
        admission_digest,
        seal: dto.seal.copy(),
    })
}

/// Proof parameters, as submitted. `key` is the key of their venue and epoch.
#[derive(Debug)]
pub struct SettlementVerifierDto {
    pub venue_id: String,
    pub defmi_id: String,
    pub epoch: u64,
    pub quote_registry_digest: String,
    pub quote_eligibility_bits: u16,
    pub quote_span_bits: u16,
    pub amount_bits: u16,
    pub price_bits: u16,
    pub max_horizon: u64,
    pub frost_public_package: String,
    pub valid_from: u64,
    pub valid_until: u64,
    pub key: Id,
    pub statement: Result<Id, String>,
}

/// Why proof parameters cannot be read.
pub open spec fn settlement_verifier_refusal(dto: SettlementVerifierDto) -> Option<Seq<char>> {
    first(hex_refusal(dto.venue_id@, "config.venueID"@, 32),
    first(hex_refusal(dto.defmi_id@, "config.defmiID"@, 32),
    first(hex_refusal(dto.quote_registry_digest@, "config.quoteRegistryDigest"@, 32),
    base64_refusal(dto.frost_public_package@, "config.frostPublicPackage"@))))
}

/// Whether a value is proof parameters as submitted.
pub open spec fn settlement_verifier_is(
    dto: SettlementVerifierDto,
    value: SettlementVerifierConfig,
) -> bool {
    &&& value.venue_id == hex_id_of(dto.venue_id@)
    &&& value.defmi_id == hex_id_of(dto.defmi_id@)
    &&& value.epoch == dto.epoch
    &&& value.quote_registry_digest == hex_id_of(dto.quote_registry_digest@)
    &&& value.quote_eligibility_bits == dto.quote_eligibility_bits
    &&& value.quote_span_bits == dto.quote_span_bits
    &&& value.amount_bits == dto.amount_bits
    &&& value.price_bits == dto.price_bits
    &&& value.max_horizon == dto.max_horizon
    &&& base64_bytes(dto.frost_public_package@) == Some(value.frost_public_package@)
    &&& value.valid_from == dto.valid_from
    &&& value.valid_until == dto.valid_until
    &&& value.key == dto.key
    &&& value.statement == dto.statement
}

/// Reads proof parameters.
pub fn settlement_verifier_from_dto(dto: &SettlementVerifierDto) -> (r: Result<
    SettlementVerifierConfig,
    String,
>)
    ensures
        match r {
            Ok(value) => settlement_verifier_refusal(*dto) is None && settlement_verifier_is(
                *dto,
                value,
            ),
            Err(message) => settlement_verifier_refusal(*dto) == Some(message@),
        },
{
    let venue_id = hex_id(dto.venue_id.as_str(), "config.venueID")?;
    let defmi_id = hex_id(dto.defmi_id.as_str(), "config.defmiID")?;
    let quote_registry_digest = hex_id(
        dto.quote_registry_digest.as_str(),
        "config.quoteRegistryDigest",
    )?;
    let frost_public_package = base64_vec(
        dto.frost_public_package.as_str(),
        "config.frostPublicPackage",
    )?;
    Ok(
        SettlementVerifierConfig {
            venue_id,
            defmi_id,
            epoch: dto.epoch,
            quote_registry_digest,
            quote_eligibility_bits: dto.quote_eligibility_bits,
            quote_span_bits: dto.quote_span_bits,
            amount_bits: dto.amount_bits,
            price_bits: dto.price_bits,
            max_horizon: dto.max_horizon,
            frost_public_package,
            valid_from: dto.valid_from,
            valid_until: dto.valid_until,
            key: dto.key,
            statement: copy_statement(&dto.statement),
        },
    )
}

} // verus!
