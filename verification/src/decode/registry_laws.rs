//! How registrations and admissions are read.

use vstd::prelude::*;

use crate::crypto::base64_bytes;
use crate::decode::registry::{
    account_opening_of, account_opening_refusal, admission_advance_of, admission_advance_refusal,
    admission_batch_is, admission_batch_refusal, admission_committee_is,
    admission_committee_refusal, asset_of, asset_refusal, csd_control_of, csd_control_refusal,
    csd_issuer_is, csd_issuer_refusal, guarantor_of, guarantor_refusal, settlement_verifier_is,
    settlement_verifier_refusal, AccountOpeningDto, AdmissionAdvanceDto, AdmissionBatchDto,
    AdmissionCommitteeDto, AssetDto, CsdIssuerControlDto, CsdIssuerDto, GuarantorDto,
    SettlementVerifierDto,
};
use crate::decode::spelling::{
    asset_kind_text, guarantor_kind_text, hex_of, issuer_control_text,
    law_asset_kind_is_read_as_written, law_csd_issuer_control_kind_is_read_as_written,
    law_guarantor_kind_is_read_as_written, lemma_ids, lemma_ids_spelled, lemma_spelling, spells,
};
use crate::order::{
    AccountOpening, AdmissionBatchPlan, AdmissionCommitteePlan, AdmissionSlotAdvance,
    AssetDefinition, CsdIssuerControl, CsdIssuerDefinition, GuarantorDefinition,
    SettlementVerifierConfig,
};

verus! {

/// Whether every part of an asset can be read.
pub open spec fn readable_asset(dto: AssetDto) -> bool {
    &&& hex_of(dto.asset_id@, 32)
    &&& {
        ||| dto.kind@ == "cash"@
        ||| dto.kind@ == "security"@
        ||| dto.kind@ == "fund"@
        ||| dto.kind@ == "commodity"@
        ||| dto.kind@ == "carbon"@
        ||| dto.kind@ == "other"@
    }
    &&& hex_of(dto.terms_digest@, 32)
    &&& dto.seal.body is Ok
}

/// Whether an asset is written out: each field of the text spells the field of its name.
pub open spec fn written_asset(dto: AssetDto, value: AssetDefinition) -> bool {
    &&& spells(dto.asset_id@, value.asset_id)
    &&& value.code == dto.code
    &&& dto.kind@ == asset_kind_text(value.kind)
    &&& value.decimals == dto.decimals
    &&& spells(dto.terms_digest@, value.terms_digest)
    &&& value.seal == dto.seal
}

/// An asset is read exactly where every part of it can be.
pub proof fn law_when_asset_is_read(dto: AssetDto)
    ensures
        (asset_refusal(dto) is None) == readable_asset(dto),
{
}

/// An asset that can be read is read as it is written.
pub proof fn law_asset_is_read_as_written(dto: AssetDto, value: AssetDefinition)
    requires
        readable_asset(dto),
    ensures
        (value == asset_of(dto)) == written_asset(dto, value),
{
    lemma_spelling();
    law_asset_kind_is_read_as_written(dto.kind@, value.kind);
}

/// Whether every part of an account opening can be read.
pub open spec fn readable_account_opening(dto: AccountOpeningDto) -> bool {
    &&& hex_of(dto.handle@, 32)
    &&& hex_of(dto.asset_id@, 32)
    &&& hex_of(dto.commitment@, 32)
    &&& hex_of(dto.issuance_nonce@, 32)
    &&& dto.seal.body is Ok
}

/// Whether an account opening is written out: each field of the text spells the field of its name.
pub open spec fn written_account_opening(dto: AccountOpeningDto, value: AccountOpening) -> bool {
    &&& spells(dto.handle@, value.handle)
    &&& spells(dto.asset_id@, value.asset_id)
    &&& spells(dto.commitment@, value.commitment)
    &&& spells(dto.issuance_nonce@, value.issuance_nonce)
    &&& value.seal == dto.seal
}

/// An account opening is read exactly where every part of it can be.
pub proof fn law_when_account_opening_is_read(dto: AccountOpeningDto)
    ensures
        (account_opening_refusal(dto) is None) == readable_account_opening(dto),
{
}

/// An account opening that can be read is read as it is written.
pub proof fn law_account_opening_is_read_as_written(dto: AccountOpeningDto, value: AccountOpening)
    requires
        readable_account_opening(dto),
    ensures
        (value == account_opening_of(dto)) == written_account_opening(dto, value),
{
    lemma_spelling();
}

/// Whether every part of a guarantor can be read.
pub open spec fn readable_guarantor(dto: GuarantorDto) -> bool {
    &&& hex_of(dto.guarantor_id@, 32)
    &&& (dto.kind@ == "ccp"@ || dto.kind@ == "bank"@ || dto.kind@ == "self"@)
    &&& hex_of(dto.public_key@, 32)
    &&& hex_of(dto.risk_policy_digest@, 32)
    &&& dto.seal.body is Ok
}

/// Whether a guarantor is written out: each field of the text spells the field of its name.
pub open spec fn written_guarantor(dto: GuarantorDto, value: GuarantorDefinition) -> bool {
    &&& spells(dto.guarantor_id@, value.guarantor_id)
    &&& dto.kind@ == guarantor_kind_text(value.kind)
    &&& value.name == dto.name
    &&& spells(dto.public_key@, value.public_key)
    &&& spells(dto.risk_policy_digest@, value.risk_policy_digest)
    &&& value.seal == dto.seal
}

/// A guarantor is read exactly where every part of it can be.
pub proof fn law_when_guarantor_is_read(dto: GuarantorDto)
    ensures
        (guarantor_refusal(dto) is None) == readable_guarantor(dto),
{
}

/// A guarantor that can be read is read as it is written.
pub proof fn law_guarantor_is_read_as_written(dto: GuarantorDto, value: GuarantorDefinition)
    requires
        readable_guarantor(dto),
    ensures
        (value == guarantor_of(dto)) == written_guarantor(dto, value),
{
    lemma_spelling();
    law_guarantor_kind_is_read_as_written(dto.kind@, value.kind);
}

/// Whether every part of an issuer can be read.
pub open spec fn readable_csd_issuer(dto: CsdIssuerDto) -> bool {
    &&& hex_of(dto.issuer_id@, 32)
    &&& hex_of(dto.operator_entity_commitment@, 32)
    &&& hex_of(dto.public_key@, 32)
    &&& forall|i: int|
        0 <= i < dto.permitted_asset_ids@.len() ==> hex_of(
            (#[trigger] dto.permitted_asset_ids@[i])@,
            32,
        )
    &&& hex_of(dto.policy_digest@, 32)
    &&& dto.seal.body is Ok
}

/// Whether an issuer is written out: each field of the text spells the field of its name.
pub open spec fn written_csd_issuer(dto: CsdIssuerDto, value: CsdIssuerDefinition) -> bool {
    &&& spells(dto.issuer_id@, value.issuer_id)
    &&& value.code == dto.code
    &&& value.jurisdiction == dto.jurisdiction
    &&& spells(dto.operator_entity_commitment@, value.operator_entity_commitment)
    &&& spells(dto.public_key@, value.public_key)
    &&& value.permitted_asset_ids@.len() == dto.permitted_asset_ids@.len()
    &&& forall|i: int|
        0 <= i < dto.permitted_asset_ids@.len() ==> spells(
            dto.permitted_asset_ids@[i]@,
            #[trigger] value.permitted_asset_ids@[i],
        )
    &&& spells(dto.policy_digest@, value.policy_digest)
    &&& value.valid_from == dto.valid_from
    &&& value.valid_until == dto.valid_until
    &&& value.seal == dto.seal
}

/// An issuer is read exactly where every part of it can be.
pub proof fn law_when_csd_issuer_is_read(dto: CsdIssuerDto)
    ensures
        (csd_issuer_refusal(dto) is None) == readable_csd_issuer(dto),
{
    lemma_ids(dto.permitted_asset_ids@, "issuer.permittedAssetIDs"@, 0);
}

/// An issuer that can be read is read as it is written.
pub proof fn law_csd_issuer_is_read_as_written(dto: CsdIssuerDto, value: CsdIssuerDefinition)
    requires
        readable_csd_issuer(dto),
    ensures
        csd_issuer_is(dto, value) == written_csd_issuer(dto, value),
{
    lemma_spelling();
    lemma_ids_spelled(dto.permitted_asset_ids@, value.permitted_asset_ids@);
}

/// Whether every part of an issuer control can be read.
pub open spec fn readable_csd_control(dto: CsdIssuerControlDto) -> bool {
    &&& hex_of(dto.operation_id@, 32)
    &&& hex_of(dto.issuer_id@, 32)
    &&& (dto.kind@ == "activate"@ || dto.kind@ == "suspend"@ || dto.kind@ == "revoke"@)
    &&& hex_of(dto.reason_digest@, 32)
    &&& dto.seal.body is Ok
}

/// Whether an issuer control is written out: each field of the text spells the field of its name.
pub open spec fn written_csd_control(dto: CsdIssuerControlDto, value: CsdIssuerControl) -> bool {
    &&& spells(dto.operation_id@, value.operation_id)
    &&& spells(dto.issuer_id@, value.issuer_id)
    &&& dto.kind@ == issuer_control_text(value.kind)
    &&& value.before_sequence == dto.before_sequence
    &&& spells(dto.reason_digest@, value.reason_digest)
    &&& value.seal == dto.seal
}

/// An issuer control is read exactly where every part of it can be.
pub proof fn law_when_csd_control_is_read(dto: CsdIssuerControlDto)
    ensures
        (csd_control_refusal(dto) is None) == readable_csd_control(dto),
{
}

/// An issuer control that can be read is read as it is written.
pub proof fn law_csd_control_is_read_as_written(dto: CsdIssuerControlDto, value: CsdIssuerControl)
    requires
        readable_csd_control(dto),
    ensures
        (value == csd_control_of(dto)) == written_csd_control(dto, value),
{
    lemma_spelling();
    law_csd_issuer_control_kind_is_read_as_written(dto.kind@, value.kind);
}

/// Whether every part of a committee can be read.
pub open spec fn readable_admission_committee(dto: AdmissionCommitteeDto) -> bool {
    &&& dto.node_keys@.len() <= 7
    &&& hex_of(dto.operation_id@, 32)
    &&& hex_of(dto.venue_id@, 32)
    &&& forall|i: int| 0 <= i < dto.node_keys@.len() ==> hex_of((#[trigger] dto.node_keys@[i])@, 32)
    &&& dto.seal.body is Ok
}

/// Whether a committee is written out: each field of the text spells the field of its name.
pub open spec fn written_admission_committee(
    dto: AdmissionCommitteeDto,
    value: AdmissionCommitteePlan,
) -> bool {
    &&& spells(dto.operation_id@, value.operation_id)
    &&& spells(dto.venue_id@, value.venue_id)
    &&& value.epoch == dto.epoch
    &&& value.node_keys@.len() == dto.node_keys@.len()
    &&& forall|i: int|
        0 <= i < dto.node_keys@.len() ==> spells(dto.node_keys@[i]@, #[trigger] value.node_keys@[i])
    &&& value.valid_from == dto.valid_from
    &&& value.valid_until == dto.valid_until
    &&& value.seal == dto.seal
}

/// A committee is read exactly where every part of it can be.
pub proof fn law_when_admission_committee_is_read(dto: AdmissionCommitteeDto)
    ensures
        (admission_committee_refusal(dto) is None) == readable_admission_committee(dto),
{
    lemma_ids(dto.node_keys@, "plan.nodeKeys"@, 0);
}

/// A committee that can be read is read as it is written.
pub proof fn law_admission_committee_is_read_as_written(
    dto: AdmissionCommitteeDto,
    value: AdmissionCommitteePlan,
)
    requires
        readable_admission_committee(dto),
    ensures
        admission_committee_is(dto, value) == written_admission_committee(dto, value),
{
    lemma_spelling();
    lemma_ids_spelled(dto.node_keys@, value.node_keys@);
}

/// Whether every part of an admission batch can be read.
pub open spec fn readable_admission_batch(dto: AdmissionBatchDto) -> bool {
    &&& dto.admission_digests@.len() <= 4096
    &&& hex_of(dto.operation_id@, 32)
    &&& hex_of(dto.batch_id@, 32)
    &&& hex_of(dto.venue_id@, 32)
    &&& hex_of(dto.batch_digest@, 32)
    &&& hex_of(dto.order_digest@, 32)
    &&& forall|i: int|
        0 <= i < dto.admission_digests@.len() ==> hex_of(
            (#[trigger] dto.admission_digests@[i])@,
            32,
        )
    &&& dto.seal.body is Ok
}

/// Whether an admission batch is written out: each field of the text spells the field of its name.
pub open spec fn written_admission_batch(
    dto: AdmissionBatchDto,
    value: AdmissionBatchPlan,
) -> bool {
    &&& spells(dto.operation_id@, value.operation_id)
    &&& spells(dto.batch_id@, value.batch_id)
    &&& spells(dto.venue_id@, value.venue_id)
    &&& value.epoch == dto.epoch
    &&& value.slot == dto.slot
    &&& spells(dto.batch_digest@, value.batch_digest)
    &&& spells(dto.order_digest@, value.order_digest)
    &&& value.admission_digests@.len() == dto.admission_digests@.len()
    &&& forall|i: int|
        0 <= i < dto.admission_digests@.len() ==> spells(
            dto.admission_digests@[i]@,
            #[trigger] value.admission_digests@[i],
        )
    &&& value.expires_at == dto.expires_at
    &&& value.seal == dto.seal
}

/// An admission batch is read exactly where every part of it can be.
pub proof fn law_when_admission_batch_is_read(dto: AdmissionBatchDto)
    ensures
        (admission_batch_refusal(dto) is None) == readable_admission_batch(dto),
{
    lemma_ids(dto.admission_digests@, "plan.admissionDigests"@, 0);
}

/// An admission batch that can be read is read as it is written.
pub proof fn law_admission_batch_is_read_as_written(
    dto: AdmissionBatchDto,
    value: AdmissionBatchPlan,
)
    requires
        readable_admission_batch(dto),
    ensures
        admission_batch_is(dto, value) == written_admission_batch(dto, value),
{
    lemma_spelling();
    lemma_ids_spelled(dto.admission_digests@, value.admission_digests@);
}

/// Whether every part of a lane advance can be read.
pub open spec fn readable_admission_advance(dto: AdmissionAdvanceDto) -> bool {
    &&& hex_of(dto.operation_id@, 32)
    &&& hex_of(dto.batch_id@, 32)
    &&& hex_of(dto.admission_digest@, 32)
    &&& dto.seal.body is Ok
}

/// Whether a lane advance is written out: each field of the text spells the field of its name.
pub open spec fn written_admission_advance(
    dto: AdmissionAdvanceDto,
    value: AdmissionSlotAdvance,
) -> bool {
    &&& spells(dto.operation_id@, value.operation_id)
    &&& spells(dto.batch_id@, value.batch_id)
    &&& value.sequence == dto.sequence
    &&& spells(dto.admission_digest@, value.admission_digest)
    &&& value.seal == dto.seal
}

/// A lane advance is read exactly where every part of it can be.
pub proof fn law_when_admission_advance_is_read(dto: AdmissionAdvanceDto)
    ensures
        (admission_advance_refusal(dto) is None) == readable_admission_advance(dto),
{
}

/// A lane advance that can be read is read as it is written.
pub proof fn law_admission_advance_is_read_as_written(
    dto: AdmissionAdvanceDto,
    value: AdmissionSlotAdvance,
)
    requires
        readable_admission_advance(dto),
    ensures
        (value == admission_advance_of(dto)) == written_admission_advance(dto, value),
{
    lemma_spelling();
}

/// Whether every part of a settlement verifier can be read.
pub open spec fn readable_settlement_verifier(dto: SettlementVerifierDto) -> bool {
    &&& hex_of(dto.venue_id@, 32)
    &&& hex_of(dto.defmi_id@, 32)
    &&& hex_of(dto.quote_registry_digest@, 32)
    &&& base64_bytes(dto.frost_public_package@) is Some
}

/// Whether a settlement verifier is written out: each field of the text spells the
/// field of its name.
pub open spec fn written_settlement_verifier(
    dto: SettlementVerifierDto,
    value: SettlementVerifierConfig,
) -> bool {
    &&& spells(dto.venue_id@, value.venue_id)
    &&& spells(dto.defmi_id@, value.defmi_id)
    &&& value.epoch == dto.epoch
    &&& spells(dto.quote_registry_digest@, value.quote_registry_digest)
    &&& value.quote_eligibility_bits == dto.quote_eligibility_bits
    &&& value.quote_span_bits == dto.quote_span_bits
    &&& value.amount_bits == dto.amount_bits
    &&& value.price_bits == dto.price_bits
    &&& value.max_horizon == dto.max_horizon
    &&& base64_bytes(dto.frost_public_package@) == Some(value.frost_public_package@)
    &&& value.valid_from == dto.valid_from
    &&& value.valid_until == dto.valid_until
    &&& value.key == dto.key
    &&& value.statement == dto.statement
}

/// A settlement verifier is read exactly where every part of it can be.
pub proof fn law_when_settlement_verifier_is_read(dto: SettlementVerifierDto)
    ensures
        (settlement_verifier_refusal(dto) is None) == readable_settlement_verifier(dto),
{
}

/// A settlement verifier that can be read is read as it is written.
pub proof fn law_settlement_verifier_is_read_as_written(
    dto: SettlementVerifierDto,
    value: SettlementVerifierConfig,
)
    requires
        readable_settlement_verifier(dto),
    ensures
        settlement_verifier_is(dto, value) == written_settlement_verifier(dto, value),
{
    lemma_spelling();
}

} // verus!
