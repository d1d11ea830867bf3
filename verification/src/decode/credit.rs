//! Submitted credit actions.

use vstd::prelude::*;
use vstd::utf8::encode_utf8;

use crate::decode::kinds::{
    credit_amendment_mode_of, credit_amendment_mode_refusal, credit_control_action_of,
    credit_control_action_refusal, credit_transition_kind_of, credit_transition_kind_refusal,
    read_credit_amendment_mode, read_credit_control_action, read_credit_transition_kind,
};
use crate::decode::lists::{copy_message, same_message};
use crate::endorsement::Seal;
use crate::order::{
    CreditFacilityAmendment, CreditFacilityControl, CreditFacilityGrant, CreditFacilityTransition,
};
use crate::outcome::{first, refusal_of, repeat};
use crate::text::{hex_array, hex_bytes, hex_id, hex_id_of, hex_refusal, join};

verus! {

/// A credit transition, as submitted.
#[derive(Debug)]
pub struct CreditTransitionDto {
    pub operation_id: String,
    pub facility_id: String,
    pub hold_id: String,
    pub kind: String,
    pub query_commitment: String,
    pub amount_commitment: String,
    pub consumed_commitment: String,
    pub refund_commitment: String,
    pub before_available_commitment: String,
    pub after_available_commitment: String,
    pub before_held_commitment: String,
    pub after_held_commitment: String,
    pub before_outstanding_commitment: String,
    pub after_outstanding_commitment: String,
    pub before_sequence: u64,
    pub expires_at: u64,
    pub settlement_digest: String,
    pub relation_proof_digest: String,
}

/// Why a credit transition cannot be read.
pub open spec fn credit_transition_refusal(
    dto: CreditTransitionDto,
    field: Seq<char>,
) -> Option<Seq<char>> {
    first(hex_refusal(dto.operation_id@, field + ".operationID"@, 32),
    first(hex_refusal(dto.facility_id@, field + ".facilityID"@, 32),
    first(hex_refusal(dto.hold_id@, field + ".holdID"@, 32),
    first(credit_transition_kind_refusal(dto.kind@, field + ".kind"@),
    first(hex_refusal(dto.query_commitment@, field + ".queryCommitment"@, 32),
    first(hex_refusal(dto.amount_commitment@, field + ".amountCommitment"@, 32),
    first(hex_refusal(dto.consumed_commitment@, field + ".consumedCommitment"@, 32),
    first(hex_refusal(dto.refund_commitment@, field + ".refundCommitment"@, 32),
    first(hex_refusal(dto.before_available_commitment@, field + ".beforeAvailableCommitment"@, 32),
    first(hex_refusal(dto.after_available_commitment@, field + ".afterAvailableCommitment"@, 32),
    first(hex_refusal(dto.before_held_commitment@, field + ".beforeHeldCommitment"@, 32),
    first(hex_refusal(dto.after_held_commitment@, field + ".afterHeldCommitment"@, 32),
    first(hex_refusal(
        dto.before_outstanding_commitment@,
        field + ".beforeOutstandingCommitment"@,
        32,
    ),
    first(hex_refusal(
        dto.after_outstanding_commitment@,
        field + ".afterOutstandingCommitment"@,
        32,
    ),
    first(hex_refusal(dto.settlement_digest@, field + ".settlementDigest"@, 32),
    hex_refusal(dto.relation_proof_digest@, field + ".relationProofDigest"@, 32))))))))))))))))
}

/// A credit transition.
pub open spec fn credit_transition_of(dto: CreditTransitionDto) -> CreditFacilityTransition {
    CreditFacilityTransition {
        operation_id: hex_id_of(dto.operation_id@),
        facility_id: hex_id_of(dto.facility_id@),
        hold_id: hex_id_of(dto.hold_id@),
        kind: credit_transition_kind_of(dto.kind@),
        query_commitment: hex_id_of(dto.query_commitment@),
        amount_commitment: hex_id_of(dto.amount_commitment@),
        consumed_commitment: hex_id_of(dto.consumed_commitment@),
        refund_commitment: hex_id_of(dto.refund_commitment@),
        before_available_commitment: hex_id_of(dto.before_available_commitment@),
        after_available_commitment: hex_id_of(dto.after_available_commitment@),
        before_held_commitment: hex_id_of(dto.before_held_commitment@),
        after_held_commitment: hex_id_of(dto.after_held_commitment@),
        before_outstanding_commitment: hex_id_of(dto.before_outstanding_commitment@),
        after_outstanding_commitment: hex_id_of(dto.after_outstanding_commitment@),
        before_sequence: dto.before_sequence,
        expires_at: dto.expires_at,
        settlement_digest: hex_id_of(dto.settlement_digest@),
        relation_proof_digest: hex_id_of(dto.relation_proof_digest@),
    }
}

/// Reads a credit transition.
pub fn credit_transition_from_dto(
    dto: &CreditTransitionDto,
    field: &str,
) -> (r: Result<CreditFacilityTransition, String>)
    ensures
        match r {
            Ok(value) => {
                &&& credit_transition_refusal(*dto, field@) is None
                &&& value == credit_transition_of(*dto)
            },
            Err(message) => credit_transition_refusal(*dto, field@) == Some(message@),
        },
{
    let operation_id = hex_id(dto.operation_id.as_str(), join(field, ".operationID").as_str())?;
    let facility_id = hex_id(dto.facility_id.as_str(), join(field, ".facilityID").as_str())?;
    let hold_id = hex_id(dto.hold_id.as_str(), join(field, ".holdID").as_str())?;
    let kind = read_credit_transition_kind(dto.kind.as_str(), join(field, ".kind").as_str())?;
    let query_commitment = hex_id(
        dto.query_commitment.as_str(),
        join(field, ".queryCommitment").as_str(),
    )?;
    let amount_commitment = hex_id(
        dto.amount_commitment.as_str(),
        join(field, ".amountCommitment").as_str(),
    )?;
    let consumed_commitment = hex_id(
        dto.consumed_commitment.as_str(),
        join(field, ".consumedCommitment").as_str(),
    )?;
    let refund_commitment = hex_id(
        dto.refund_commitment.as_str(),
        join(field, ".refundCommitment").as_str(),
    )?;
    let before_available_commitment = hex_id(
        dto.before_available_commitment.as_str(),
        join(field, ".beforeAvailableCommitment").as_str(),
    )?;
    let after_available_commitment = hex_id(
        dto.after_available_commitment.as_str(),
        join(field, ".afterAvailableCommitment").as_str(),
    )?;
    let before_held_commitment = hex_id(
        dto.before_held_commitment.as_str(),
        join(field, ".beforeHeldCommitment").as_str(),
    )?;
    let after_held_commitment = hex_id(
        dto.after_held_commitment.as_str(),
        join(field, ".afterHeldCommitment").as_str(),
    )?;
    let before_outstanding_commitment = hex_id(
        dto.before_outstanding_commitment.as_str(),
        join(field, ".beforeOutstandingCommitment").as_str(),
    )?;
    let after_outstanding_commitment = hex_id(
        dto.after_outstanding_commitment.as_str(),
        join(field, ".afterOutstandingCommitment").as_str(),
    )?;
    let settlement_digest = hex_id(
        dto.settlement_digest.as_str(),
        join(field, ".settlementDigest").as_str(),
    )?;
    let relation_proof_digest = hex_id(
        dto.relation_proof_digest.as_str(),
        join(field, ".relationProofDigest").as_str(),
    )?;
    Ok(CreditFacilityTransition {
        operation_id,
        facility_id,
        hold_id,
        kind,
        query_commitment,
        amount_commitment,
        consumed_commitment,
        refund_commitment,
        before_available_commitment,
        after_available_commitment,
        before_held_commitment,
        after_held_commitment,
        before_outstanding_commitment,
        after_outstanding_commitment,
        before_sequence: dto.before_sequence,
        expires_at: dto.expires_at,
        settlement_digest,
        relation_proof_digest,
    })
}

/// A credit grant, as submitted.
#[derive(Debug)]
pub struct CreditGrantDto {
    pub operation_id: String,
    pub facility_id: String,
    pub guarantor_id: String,
    pub beneficiary_commitment: String,
    pub rail_asset_id: String,
    pub cap_commitment: String,
    pub available_commitment: String,
    pub held_commitment: String,
    pub outstanding_commitment: String,
    pub collateral_commitment: String,
    pub risk_policy_digest: String,
    pub relation_proof_digest: String,
    pub valid_from: u64,
    pub valid_until: u64,
    pub nonce: String,
    pub guarantor_signature: String,
    pub guarantor_message: Result<Vec<u8>, String>,
    pub seal: Seal,
}

/// Why a credit grant cannot be read.
pub open spec fn credit_grant_refusal(dto: CreditGrantDto) -> Option<Seq<char>> {
    first(hex_refusal(dto.operation_id@, "grant.operationID"@, 32),
    first(hex_refusal(dto.facility_id@, "grant.facilityID"@, 32),
    first(hex_refusal(dto.guarantor_id@, "grant.guarantorID"@, 32),
    first(hex_refusal(dto.beneficiary_commitment@, "grant.beneficiaryCommitment"@, 32),
    first(hex_refusal(dto.rail_asset_id@, "grant.railAssetID"@, 32),
    first(hex_refusal(dto.cap_commitment@, "grant.capCommitment"@, 32),
    first(hex_refusal(dto.available_commitment@, "grant.availableCommitment"@, 32),
    first(hex_refusal(dto.held_commitment@, "grant.heldCommitment"@, 32),
    first(hex_refusal(dto.outstanding_commitment@, "grant.outstandingCommitment"@, 32),
    first(hex_refusal(dto.collateral_commitment@, "grant.collateralCommitment"@, 32),
    first(hex_refusal(dto.risk_policy_digest@, "grant.riskPolicyDigest"@, 32),
    first(hex_refusal(dto.relation_proof_digest@, "grant.relationProofDigest"@, 32),
    first(hex_refusal(dto.nonce@, "grant.nonce"@, 32),
    first(hex_refusal(dto.guarantor_signature@, "grant.guarantorSignature"@, 64),
    refusal_of(dto.seal.body)))))))))))))))
}

/// Whether a value is a credit grant as submitted.
pub open spec fn credit_grant_is(dto: CreditGrantDto, value: CreditFacilityGrant) -> bool {
    &&& value.operation_id == hex_id_of(dto.operation_id@)
    &&& value.facility_id == hex_id_of(dto.facility_id@)
    &&& value.guarantor_id == hex_id_of(dto.guarantor_id@)
    &&& value.beneficiary_commitment == hex_id_of(dto.beneficiary_commitment@)
    &&& value.rail_asset_id == hex_id_of(dto.rail_asset_id@)
    &&& value.cap_commitment == hex_id_of(dto.cap_commitment@)
    &&& value.available_commitment == hex_id_of(dto.available_commitment@)
    &&& value.held_commitment == hex_id_of(dto.held_commitment@)
    &&& value.outstanding_commitment == hex_id_of(dto.outstanding_commitment@)
    &&& value.collateral_commitment == hex_id_of(dto.collateral_commitment@)
    &&& value.risk_policy_digest == hex_id_of(dto.risk_policy_digest@)
    &&& value.relation_proof_digest == hex_id_of(dto.relation_proof_digest@)
    &&& value.valid_from == dto.valid_from
    &&& value.valid_until == dto.valid_until
    &&& value.nonce == hex_id_of(dto.nonce@)
    &&& value.guarantor_signature@ == hex_bytes(encode_utf8(dto.guarantor_signature@))
    &&& same_message(value.guarantor_message, dto.guarantor_message)
    &&& value.seal == dto.seal
}

/// Reads a credit grant.
pub fn credit_grant_from_dto(dto: &CreditGrantDto) -> (r: Result<CreditFacilityGrant, String>)
    ensures
        match r {
            Ok(value) => credit_grant_refusal(*dto) is None && credit_grant_is(*dto, value),
            Err(message) => credit_grant_refusal(*dto) == Some(message@),
        },
{
    let operation_id = hex_id(dto.operation_id.as_str(), "grant.operationID")?;
    let facility_id = hex_id(dto.facility_id.as_str(), "grant.facilityID")?;
    let guarantor_id = hex_id(dto.guarantor_id.as_str(), "grant.guarantorID")?;
    let beneficiary_commitment = hex_id(
        dto.beneficiary_commitment.as_str(),
        "grant.beneficiaryCommitment",
    )?;
    let rail_asset_id = hex_id(dto.rail_asset_id.as_str(), "grant.railAssetID")?;
    let cap_commitment = hex_id(dto.cap_commitment.as_str(), "grant.capCommitment")?;
    let available_commitment = hex_id(
        dto.available_commitment.as_str(),
        "grant.availableCommitment",
    )?;
    let held_commitment = hex_id(dto.held_commitment.as_str(), "grant.heldCommitment")?;
    let outstanding_commitment = hex_id(
        dto.outstanding_commitment.as_str(),
        "grant.outstandingCommitment",
    )?;
    let collateral_commitment = hex_id(
        dto.collateral_commitment.as_str(),
        "grant.collateralCommitment",
    )?;
    let risk_policy_digest = hex_id(dto.risk_policy_digest.as_str(), "grant.riskPolicyDigest")?;
    let relation_proof_digest = hex_id(
        dto.relation_proof_digest.as_str(),
        "grant.relationProofDigest",
    )?;
    let nonce = hex_id(dto.nonce.as_str(), "grant.nonce")?;
    let guarantor_signature = hex_array::<64>(
        dto.guarantor_signature.as_str(),
        "grant.guarantorSignature",
    )?;
    repeat(&dto.seal.body)?;
    Ok(CreditFacilityGrant {
        operation_id,
        facility_id,
        guarantor_id,
        beneficiary_commitment,
        rail_asset_id,
        cap_commitment,
        available_commitment,
        held_commitment,
        outstanding_commitment,
        collateral_commitment,
        risk_policy_digest,
        relation_proof_digest,
        valid_from: dto.valid_from,
        valid_until: dto.valid_until,
        nonce,
        guarantor_signature,
        guarantor_message: copy_message(&dto.guarantor_message),
        seal: dto.seal.copy(),
    })
}

/// A credit control, as submitted.
#[derive(Debug)]
pub struct CreditControlDto {
    pub operation_id: String,
    pub facility_id: String,
    pub action: String,
    pub before_sequence: u64,
    pub effective_at: u64,
    pub reason_digest: String,
    pub guarantor_signature: String,
    pub guarantor_message: Result<Vec<u8>, String>,
    pub seal: Seal,
}

/// Why a credit control cannot be read.
pub open spec fn credit_control_refusal(dto: CreditControlDto) -> Option<Seq<char>> {
    first(hex_refusal(dto.operation_id@, "control.operationID"@, 32),
    first(hex_refusal(dto.facility_id@, "control.facilityID"@, 32),
    first(credit_control_action_refusal(dto.action@, "control.action"@),
    first(hex_refusal(dto.reason_digest@, "control.reasonDigest"@, 32),
    first(hex_refusal(dto.guarantor_signature@, "control.guarantorSignature"@, 64),
    refusal_of(dto.seal.body))))))
}

/// Whether a value is a credit control as submitted.
pub open spec fn credit_control_is(dto: CreditControlDto, value: CreditFacilityControl) -> bool {
    &&& value.operation_id == hex_id_of(dto.operation_id@)
    &&& value.facility_id == hex_id_of(dto.facility_id@)
    &&& value.action == credit_control_action_of(dto.action@)
    &&& value.before_sequence == dto.before_sequence
    &&& value.effective_at == dto.effective_at
    &&& value.reason_digest == hex_id_of(dto.reason_digest@)
    &&& value.guarantor_signature@ == hex_bytes(encode_utf8(dto.guarantor_signature@))
    &&& same_message(value.guarantor_message, dto.guarantor_message)
    &&& value.seal == dto.seal
}

/// Reads a credit control.
pub fn credit_control_from_dto(dto: &CreditControlDto) -> (r: Result<CreditFacilityControl, String>)
    ensures
        match r {
            Ok(value) => credit_control_refusal(*dto) is None && credit_control_is(*dto, value),
            Err(message) => credit_control_refusal(*dto) == Some(message@),
        },
{
    let operation_id = hex_id(dto.operation_id.as_str(), "control.operationID")?;
    let facility_id = hex_id(dto.facility_id.as_str(), "control.facilityID")?;
    let action = read_credit_control_action(dto.action.as_str(), "control.action")?;
    let reason_digest = hex_id(dto.reason_digest.as_str(), "control.reasonDigest")?;
    let guarantor_signature = hex_array::<64>(
        dto.guarantor_signature.as_str(),
        "control.guarantorSignature",
    )?;
    repeat(&dto.seal.body)?;
    Ok(CreditFacilityControl {
        operation_id,
        facility_id,
        action,
        before_sequence: dto.before_sequence,
        effective_at: dto.effective_at,
        reason_digest,
        guarantor_signature,
        guarantor_message: copy_message(&dto.guarantor_message),
        seal: dto.seal.copy(),
    })
}

/// A credit amendment, as submitted.
#[derive(Debug)]
pub struct CreditAmendmentDto {
    pub operation_id: String,
    pub facility_id: String,
    pub mode: String,
    pub before_cap_commitment: String,
    pub after_cap_commitment: String,
    pub before_available_commitment: String,
    pub after_available_commitment: String,
    pub before_held_commitment: String,
    pub before_outstanding_commitment: String,
    pub before_overlimit_commitment: String,
    pub after_overlimit_commitment: String,
    pub before_collateral_commitment: String,
    pub after_collateral_commitment: String,
    pub before_risk_policy_digest: String,
    pub after_risk_policy_digest: String,
    pub before_valid_until: u64,
    pub after_valid_until: u64,
    pub before_sequence: u64,
    pub effective_at: u64,
    pub reason_digest: String,
    pub relation_proof_digest: String,
    pub guarantor_signature: String,
    pub guarantor_message: Result<Vec<u8>, String>,
    pub seal: Seal,
}

/// Why a credit amendment cannot be read.
pub open spec fn credit_amendment_refusal(dto: CreditAmendmentDto) -> Option<Seq<char>> {
    first(hex_refusal(dto.operation_id@, "amendment.operationID"@, 32),
    first(hex_refusal(dto.facility_id@, "amendment.facilityID"@, 32),
    first(credit_amendment_mode_refusal(dto.mode@, "amendment.mode"@),
    first(hex_refusal(dto.before_cap_commitment@, "amendment.beforeCapCommitment"@, 32),
    first(hex_refusal(dto.after_cap_commitment@, "amendment.afterCapCommitment"@, 32),
    first(hex_refusal(dto.before_available_commitment@, "amendment.beforeAvailableCommitment"@, 32),
    first(hex_refusal(dto.after_available_commitment@, "amendment.afterAvailableCommitment"@, 32),
    first(hex_refusal(dto.before_held_commitment@, "amendment.beforeHeldCommitment"@, 32),
    first(hex_refusal(
        dto.before_outstanding_commitment@,
        "amendment.beforeOutstandingCommitment"@,
        32,
    ),
    first(hex_refusal(dto.before_overlimit_commitment@, "amendment.beforeOverlimitCommitment"@, 32),
    first(hex_refusal(dto.after_overlimit_commitment@, "amendment.afterOverlimitCommitment"@, 32),
    first(hex_refusal(
        dto.before_collateral_commitment@,
        "amendment.beforeCollateralCommitment"@,
        32,
    ),
    first(hex_refusal(dto.after_collateral_commitment@, "amendment.afterCollateralCommitment"@, 32),
    first(hex_refusal(dto.before_risk_policy_digest@, "amendment.beforeRiskPolicyDigest"@, 32),
    first(hex_refusal(dto.after_risk_policy_digest@, "amendment.afterRiskPolicyDigest"@, 32),
    first(hex_refusal(dto.reason_digest@, "amendment.reasonDigest"@, 32),
    first(hex_refusal(dto.relation_proof_digest@, "amendment.relationProofDigest"@, 32),
    first(hex_refusal(dto.guarantor_signature@, "amendment.guarantorSignature"@, 64),
    refusal_of(dto.seal.body)))))))))))))))))))
}

/// Whether a value is a credit amendment as submitted.
pub open spec fn credit_amendment_is(
    dto: CreditAmendmentDto,
    value: CreditFacilityAmendment,
) -> bool {
    &&& value.operation_id == hex_id_of(dto.operation_id@)
    &&& value.facility_id == hex_id_of(dto.facility_id@)
    &&& value.mode == credit_amendment_mode_of(dto.mode@)
    &&& value.before_cap_commitment == hex_id_of(dto.before_cap_commitment@)
    &&& value.after_cap_commitment == hex_id_of(dto.after_cap_commitment@)
    &&& value.before_available_commitment == hex_id_of(dto.before_available_commitment@)
    &&& value.after_available_commitment == hex_id_of(dto.after_available_commitment@)
    &&& value.before_held_commitment == hex_id_of(dto.before_held_commitment@)
    &&& value.before_outstanding_commitment == hex_id_of(dto.before_outstanding_commitment@)
    &&& value.before_overlimit_commitment == hex_id_of(dto.before_overlimit_commitment@)
    &&& value.after_overlimit_commitment == hex_id_of(dto.after_overlimit_commitment@)
    &&& value.before_collateral_commitment == hex_id_of(dto.before_collateral_commitment@)
    &&& value.after_collateral_commitment == hex_id_of(dto.after_collateral_commitment@)
    &&& value.before_risk_policy_digest == hex_id_of(dto.before_risk_policy_digest@)
    &&& value.after_risk_policy_digest == hex_id_of(dto.after_risk_policy_digest@)
    &&& value.before_valid_until == dto.before_valid_until
    &&& value.after_valid_until == dto.after_valid_until
    &&& value.before_sequence == dto.before_sequence
    &&& value.effective_at == dto.effective_at
    &&& value.reason_digest == hex_id_of(dto.reason_digest@)
    &&& value.relation_proof_digest == hex_id_of(dto.relation_proof_digest@)
    &&& value.guarantor_signature@ == hex_bytes(encode_utf8(dto.guarantor_signature@))
    &&& same_message(value.guarantor_message, dto.guarantor_message)
    &&& value.seal == dto.seal
}

/// Reads a credit amendment.
pub fn credit_amendment_from_dto(
    dto: &CreditAmendmentDto,
) -> (r: Result<CreditFacilityAmendment, String>)
    ensures
        match r {
            Ok(value) => credit_amendment_refusal(*dto) is None && credit_amendment_is(*dto, value),
            Err(message) => credit_amendment_refusal(*dto) == Some(message@),
        },
{
    let operation_id = hex_id(dto.operation_id.as_str(), "amendment.operationID")?;
    let facility_id = hex_id(dto.facility_id.as_str(), "amendment.facilityID")?;
    let mode = read_credit_amendment_mode(dto.mode.as_str(), "amendment.mode")?;
    let before_cap_commitment = hex_id(
        dto.before_cap_commitment.as_str(),
        "amendment.beforeCapCommitment",
    )?;
    let after_cap_commitment = hex_id(
        dto.after_cap_commitment.as_str(),
        "amendment.afterCapCommitment",
    )?;
    let before_available_commitment = hex_id(
        dto.before_available_commitment.as_str(),
        "amendment.beforeAvailableCommitment",
    )?;
    let after_available_commitment = hex_id(
        dto.after_available_commitment.as_str(),
        "amendment.afterAvailableCommitment",
    )?;
    let before_held_commitment = hex_id(
        dto.before_held_commitment.as_str(),
        "amendment.beforeHeldCommitment",
    )?;
    let before_outstanding_commitment = hex_id(
        dto.before_outstanding_commitment.as_str(),
        "amendment.beforeOutstandingCommitment",
    )?;
    let before_overlimit_commitment = hex_id(
        dto.before_overlimit_commitment.as_str(),
        "amendment.beforeOverlimitCommitment",
    )?;
    let after_overlimit_commitment = hex_id(
        dto.after_overlimit_commitment.as_str(),
        "amendment.afterOverlimitCommitment",
    )?;
    let before_collateral_commitment = hex_id(
        dto.before_collateral_commitment.as_str(),
        "amendment.beforeCollateralCommitment",
    )?;
    let after_collateral_commitment = hex_id(
        dto.after_collateral_commitment.as_str(),
        "amendment.afterCollateralCommitment",
    )?;
    let before_risk_policy_digest = hex_id(
        dto.before_risk_policy_digest.as_str(),
        "amendment.beforeRiskPolicyDigest",
    )?;
    let after_risk_policy_digest = hex_id(
        dto.after_risk_policy_digest.as_str(),
        "amendment.afterRiskPolicyDigest",
    )?;
    let reason_digest = hex_id(dto.reason_digest.as_str(), "amendment.reasonDigest")?;
    let relation_proof_digest = hex_id(
        dto.relation_proof_digest.as_str(),
        "amendment.relationProofDigest",
    )?;
    let guarantor_signature = hex_array::<64>(
        dto.guarantor_signature.as_str(),
        "amendment.guarantorSignature",
    )?;
    repeat(&dto.seal.body)?;
    Ok(CreditFacilityAmendment {
        operation_id,
        facility_id,
        mode,
        before_cap_commitment,
        after_cap_commitment,
        before_available_commitment,
        after_available_commitment,
        before_held_commitment,
        before_outstanding_commitment,
        before_overlimit_commitment,
        after_overlimit_commitment,
        before_collateral_commitment,
        after_collateral_commitment,
        before_risk_policy_digest,
        after_risk_policy_digest,
        before_valid_until: dto.before_valid_until,
        after_valid_until: dto.after_valid_until,
        before_sequence: dto.before_sequence,
        effective_at: dto.effective_at,
        reason_digest,
        relation_proof_digest,
        guarantor_signature,
        guarantor_message: copy_message(&dto.guarantor_message),
        seal: dto.seal.copy(),
    })
}

} // verus!
