//! How credit actions are read.

use vstd::prelude::*;
use vstd::utf8::encode_utf8;

use crate::decode::credit::{
    credit_amendment_is, credit_amendment_refusal, credit_control_is, credit_control_refusal,
    credit_grant_is, credit_grant_refusal, credit_transition_of, credit_transition_refusal,
    CreditAmendmentDto, CreditControlDto, CreditGrantDto, CreditTransitionDto,
};
use crate::decode::spelling::{
    amendment_text, facility_control_text, hex_of, law_credit_amendment_mode_is_read_as_written,
    law_credit_control_action_is_read_as_written, law_credit_transition_kind_is_read_as_written,
    lemma_spelling, spells, transition_text,
};
use crate::order::{
    CreditFacilityAmendment, CreditFacilityControl, CreditFacilityGrant, CreditFacilityTransition,
};
use crate::text::hex_bytes;

verus! {

/// Whether every part of a credit transition can be read.
pub open spec fn readable_credit_transition(dto: CreditTransitionDto) -> bool {
    &&& hex_of(dto.operation_id@, 32)
    &&& hex_of(dto.facility_id@, 32)
    &&& hex_of(dto.hold_id@, 32)
    &&& (dto.kind@ == "hold"@ || dto.kind@ == "release"@ || dto.kind@ == "consume"@)
    &&& hex_of(dto.query_commitment@, 32)
    &&& hex_of(dto.amount_commitment@, 32)
    &&& hex_of(dto.consumed_commitment@, 32)
    &&& hex_of(dto.refund_commitment@, 32)
    &&& hex_of(dto.before_available_commitment@, 32)
    &&& hex_of(dto.after_available_commitment@, 32)
    &&& hex_of(dto.before_held_commitment@, 32)
    &&& hex_of(dto.after_held_commitment@, 32)
    &&& hex_of(dto.before_outstanding_commitment@, 32)
    &&& hex_of(dto.after_outstanding_commitment@, 32)
    &&& hex_of(dto.settlement_digest@, 32)
    &&& hex_of(dto.relation_proof_digest@, 32)
}

/// Whether a credit transition is written out: each field of the text spells the field of its name.
pub open spec fn written_credit_transition(
    dto: CreditTransitionDto,
    value: CreditFacilityTransition,
) -> bool {
    &&& spells(dto.operation_id@, value.operation_id)
    &&& spells(dto.facility_id@, value.facility_id)
    &&& spells(dto.hold_id@, value.hold_id)
    &&& dto.kind@ == transition_text(value.kind)
    &&& spells(dto.query_commitment@, value.query_commitment)
    &&& spells(dto.amount_commitment@, value.amount_commitment)
    &&& spells(dto.consumed_commitment@, value.consumed_commitment)
    &&& spells(dto.refund_commitment@, value.refund_commitment)
    &&& spells(dto.before_available_commitment@, value.before_available_commitment)
    &&& spells(dto.after_available_commitment@, value.after_available_commitment)
    &&& spells(dto.before_held_commitment@, value.before_held_commitment)
    &&& spells(dto.after_held_commitment@, value.after_held_commitment)
    &&& spells(dto.before_outstanding_commitment@, value.before_outstanding_commitment)
    &&& spells(dto.after_outstanding_commitment@, value.after_outstanding_commitment)
    &&& value.before_sequence == dto.before_sequence
    &&& value.expires_at == dto.expires_at
    &&& spells(dto.settlement_digest@, value.settlement_digest)
    &&& spells(dto.relation_proof_digest@, value.relation_proof_digest)
}

/// A credit transition is read exactly where every part of it can be.
pub proof fn law_when_credit_transition_is_read(dto: CreditTransitionDto, field: Seq<char>)
    ensures
        (credit_transition_refusal(dto, field) is None) == readable_credit_transition(dto),
{
}

/// A credit transition that can be read is read as it is written.
pub proof fn law_credit_transition_is_read_as_written(
    dto: CreditTransitionDto,
    value: CreditFacilityTransition,
)
    requires
        readable_credit_transition(dto),
    ensures
        (value == credit_transition_of(dto)) == written_credit_transition(dto, value),
{
    lemma_spelling();
    law_credit_transition_kind_is_read_as_written(dto.kind@, value.kind);
}

/// Whether every part of a credit grant can be read.
pub open spec fn readable_credit_grant(dto: CreditGrantDto) -> bool {
    &&& hex_of(dto.operation_id@, 32)
    &&& hex_of(dto.facility_id@, 32)
    &&& hex_of(dto.guarantor_id@, 32)
    &&& hex_of(dto.beneficiary_commitment@, 32)
    &&& hex_of(dto.rail_asset_id@, 32)
    &&& hex_of(dto.cap_commitment@, 32)
    &&& hex_of(dto.available_commitment@, 32)
    &&& hex_of(dto.held_commitment@, 32)
    &&& hex_of(dto.outstanding_commitment@, 32)
    &&& hex_of(dto.collateral_commitment@, 32)
    &&& hex_of(dto.risk_policy_digest@, 32)
    &&& hex_of(dto.relation_proof_digest@, 32)
    &&& hex_of(dto.nonce@, 32)
    &&& hex_of(dto.guarantor_signature@, 64)
    &&& dto.seal.body is Ok
}

/// Whether a credit grant is written out: each field of the text spells the field of its name.
pub open spec fn written_credit_grant(dto: CreditGrantDto, value: CreditFacilityGrant) -> bool {
    &&& spells(dto.operation_id@, value.operation_id)
    &&& spells(dto.facility_id@, value.facility_id)
    &&& spells(dto.guarantor_id@, value.guarantor_id)
    &&& spells(dto.beneficiary_commitment@, value.beneficiary_commitment)
    &&& spells(dto.rail_asset_id@, value.rail_asset_id)
    &&& spells(dto.cap_commitment@, value.cap_commitment)
    &&& spells(dto.available_commitment@, value.available_commitment)
    &&& spells(dto.held_commitment@, value.held_commitment)
    &&& spells(dto.outstanding_commitment@, value.outstanding_commitment)
    &&& spells(dto.collateral_commitment@, value.collateral_commitment)
    &&& spells(dto.risk_policy_digest@, value.risk_policy_digest)
    &&& spells(dto.relation_proof_digest@, value.relation_proof_digest)
    &&& value.valid_from == dto.valid_from
    &&& value.valid_until == dto.valid_until
    &&& spells(dto.nonce@, value.nonce)
    &&& value.guarantor_signature@ == hex_bytes(encode_utf8(dto.guarantor_signature@))
    &&& value.guarantor_message is Ok == dto.guarantor_message is Ok
    &&& value.guarantor_message is Ok
        ==> value.guarantor_message->Ok_0@ == dto.guarantor_message->Ok_0@
    &&& value.guarantor_message is Err
        ==> value.guarantor_message->Err_0@ == dto.guarantor_message->Err_0@
    &&& value.seal == dto.seal
}

/// A credit grant is read exactly where every part of it can be.
pub proof fn law_when_credit_grant_is_read(dto: CreditGrantDto)
    ensures
        (credit_grant_refusal(dto) is None) == readable_credit_grant(dto),
{
}

/// A credit grant that can be read is read as it is written.
pub proof fn law_credit_grant_is_read_as_written(dto: CreditGrantDto, value: CreditFacilityGrant)
    requires
        readable_credit_grant(dto),
    ensures
        credit_grant_is(dto, value) == written_credit_grant(dto, value),
{
    lemma_spelling();
}

/// Whether every part of a facility control can be read.
pub open spec fn readable_credit_control(dto: CreditControlDto) -> bool {
    &&& hex_of(dto.operation_id@, 32)
    &&& hex_of(dto.facility_id@, 32)
    &&& {
        ||| dto.action@ == "activate"@
        ||| dto.action@ == "freeze"@
        ||| dto.action@ == "close"@
        ||| dto.action@ == "default"@
    }
    &&& hex_of(dto.reason_digest@, 32)
    &&& hex_of(dto.guarantor_signature@, 64)
    &&& dto.seal.body is Ok
}

/// Whether a facility control is written out: each field of the text spells the field of its name.
pub open spec fn written_credit_control(
    dto: CreditControlDto,
    value: CreditFacilityControl,
) -> bool {
    &&& spells(dto.operation_id@, value.operation_id)
    &&& spells(dto.facility_id@, value.facility_id)
    &&& dto.action@ == facility_control_text(value.action)
    &&& value.before_sequence == dto.before_sequence
    &&& value.effective_at == dto.effective_at
    &&& spells(dto.reason_digest@, value.reason_digest)
    &&& value.guarantor_signature@ == hex_bytes(encode_utf8(dto.guarantor_signature@))
    &&& value.guarantor_message is Ok == dto.guarantor_message is Ok
    &&& value.guarantor_message is Ok
        ==> value.guarantor_message->Ok_0@ == dto.guarantor_message->Ok_0@
    &&& value.guarantor_message is Err
        ==> value.guarantor_message->Err_0@ == dto.guarantor_message->Err_0@
    &&& value.seal == dto.seal
}

/// A facility control is read exactly where every part of it can be.
pub proof fn law_when_credit_control_is_read(dto: CreditControlDto)
    ensures
        (credit_control_refusal(dto) is None) == readable_credit_control(dto),
{
}

/// A facility control that can be read is read as it is written.
pub proof fn law_credit_control_is_read_as_written(
    dto: CreditControlDto,
    value: CreditFacilityControl,
)
    requires
        readable_credit_control(dto),
    ensures
        credit_control_is(dto, value) == written_credit_control(dto, value),
{
    lemma_spelling();
    law_credit_control_action_is_read_as_written(dto.action@, value.action);
}

/// Whether every part of a facility amendment can be read.
pub open spec fn readable_credit_amendment(dto: CreditAmendmentDto) -> bool {
    &&& hex_of(dto.operation_id@, 32)
    &&& hex_of(dto.facility_id@, 32)
    &&& (dto.mode@ == "within_limit"@ || dto.mode@ == "over_limit"@)
    &&& hex_of(dto.before_cap_commitment@, 32)
    &&& hex_of(dto.after_cap_commitment@, 32)
    &&& hex_of(dto.before_available_commitment@, 32)
    &&& hex_of(dto.after_available_commitment@, 32)
    &&& hex_of(dto.before_held_commitment@, 32)
    &&& hex_of(dto.before_outstanding_commitment@, 32)
    &&& hex_of(dto.before_overlimit_commitment@, 32)
    &&& hex_of(dto.after_overlimit_commitment@, 32)
    &&& hex_of(dto.before_collateral_commitment@, 32)
    &&& hex_of(dto.after_collateral_commitment@, 32)
    &&& hex_of(dto.before_risk_policy_digest@, 32)
    &&& hex_of(dto.after_risk_policy_digest@, 32)
    &&& hex_of(dto.reason_digest@, 32)
    &&& hex_of(dto.relation_proof_digest@, 32)
    &&& hex_of(dto.guarantor_signature@, 64)
    &&& dto.seal.body is Ok
}

/// Whether a facility amendment is written out: each field of the text spells the
/// field of its name.
pub open spec fn written_credit_amendment(
    dto: CreditAmendmentDto,
    value: CreditFacilityAmendment,
) -> bool {
    &&& spells(dto.operation_id@, value.operation_id)
    &&& spells(dto.facility_id@, value.facility_id)
    &&& dto.mode@ == amendment_text(value.mode)
    &&& spells(dto.before_cap_commitment@, value.before_cap_commitment)
    &&& spells(dto.after_cap_commitment@, value.after_cap_commitment)
    &&& spells(dto.before_available_commitment@, value.before_available_commitment)
    &&& spells(dto.after_available_commitment@, value.after_available_commitment)
    &&& spells(dto.before_held_commitment@, value.before_held_commitment)
    &&& spells(dto.before_outstanding_commitment@, value.before_outstanding_commitment)
    &&& spells(dto.before_overlimit_commitment@, value.before_overlimit_commitment)
    &&& spells(dto.after_overlimit_commitment@, value.after_overlimit_commitment)
    &&& spells(dto.before_collateral_commitment@, value.before_collateral_commitment)
    &&& spells(dto.after_collateral_commitment@, value.after_collateral_commitment)
    &&& spells(dto.before_risk_policy_digest@, value.before_risk_policy_digest)
    &&& spells(dto.after_risk_policy_digest@, value.after_risk_policy_digest)
    &&& value.before_valid_until == dto.before_valid_until
    &&& value.after_valid_until == dto.after_valid_until
    &&& value.before_sequence == dto.before_sequence
    &&& value.effective_at == dto.effective_at
    &&& spells(dto.reason_digest@, value.reason_digest)
    &&& spells(dto.relation_proof_digest@, value.relation_proof_digest)
    &&& value.guarantor_signature@ == hex_bytes(encode_utf8(dto.guarantor_signature@))
    &&& value.guarantor_message is Ok == dto.guarantor_message is Ok
    &&& value.guarantor_message is Ok
        ==> value.guarantor_message->Ok_0@ == dto.guarantor_message->Ok_0@
    &&& value.guarantor_message is Err
        ==> value.guarantor_message->Err_0@ == dto.guarantor_message->Err_0@
    &&& value.seal == dto.seal
}

/// A facility amendment is read exactly where every part of it can be.
pub proof fn law_when_credit_amendment_is_read(dto: CreditAmendmentDto)
    ensures
        (credit_amendment_refusal(dto) is None) == readable_credit_amendment(dto),
{
}

/// A facility amendment that can be read is read as it is written.
pub proof fn law_credit_amendment_is_read_as_written(
    dto: CreditAmendmentDto,
    value: CreditFacilityAmendment,
)
    requires
        readable_credit_amendment(dto),
    ensures
        credit_amendment_is(dto, value) == written_credit_amendment(dto, value),
{
    lemma_spelling();
    law_credit_amendment_mode_is_read_as_written(dto.mode@, value.mode);
}

} // verus!
