//! How notes, claims and their settlements are read.

use vstd::prelude::*;
use vstd::utf8::encode_utf8;

use crate::crypto::{group_order, le_value, ristretto_point};
use crate::decode::lists::indexed_name;
use crate::decode::notes::{
    delegated_is, delegated_refusal, escrow_spend_is, escrow_spend_refusal, escrow_spends_refusal,
    materialization_of, materialization_refusal, note_claim_is, note_claim_refusal,
    note_claims_refusal, note_issuance_is, note_issuance_refusal, note_order_is, note_order_refusal,
    note_output_of, note_output_refusal, note_outputs_refusal, note_spend_is, note_spend_refusal,
    note_spends_refusal, opening_envelope_is, opening_envelope_refusal, opening_share_of,
    opening_share_refusal, opening_shares_refusal, DelegatedNoteSettlementDto, EscrowClaimSpendDto,
    NoteClaimDto, NoteClaimMaterializationDto, NoteIssuanceDto, NoteOutputDto, NoteSettlementDto,
    NoteSpendDto, OpeningEnvelopeDto, OpeningShareDto,
};
use crate::decode::spelling::{
    claim_kind_text, hex_of, law_note_claim_kind_is_read_as_written, lemma_ids, lemma_ids_spelled,
    lemma_spelling, spells,
};
use crate::order::{
    DelegatedNoteSettlementOrder, EscrowClaimSpend, NoteClaim, NoteClaimMaterialization,
    NoteIssuance, NoteOutput, NoteSettlementOrder, NoteSpend,
};
use crate::state::{OpeningEnvelope, OpeningShare};
use crate::text::{hex_bytes, hex_id_of};

verus! {

/// Whether every part of a note output can be read.
pub open spec fn readable_note_output(dto: NoteOutputDto) -> bool {
    &&& hex_of(dto.note_id@, 32)
    &&& hex_of(dto.asset_id@, 32)
    &&& hex_of(dto.one_time@, 32)
    &&& hex_of(dto.value_commitment@, 32)
    &&& hex_of(dto.ephemeral@, 32)
    &&& hex_of(dto.masked_value@, 32)
    &&& hex_of(dto.masked_blinding@, 32)
    &&& hex_of(dto.lock_id@, 32)
    &&& dto.shape is Ok
}

/// Whether a note output is written out: each field of the text spells the field of its name.
pub open spec fn written_note_output(dto: NoteOutputDto, value: NoteOutput) -> bool {
    &&& spells(dto.note_id@, value.note_id)
    &&& spells(dto.asset_id@, value.asset_id)
    &&& spells(dto.one_time@, value.one_time)
    &&& spells(dto.value_commitment@, value.value_commitment)
    &&& spells(dto.ephemeral@, value.ephemeral)
    &&& spells(dto.masked_value@, value.masked_value)
    &&& spells(dto.masked_blinding@, value.masked_blinding)
    &&& spells(dto.lock_id@, value.lock_id)
    &&& value.shape == dto.shape
}

/// A note output is read exactly where every part of it can be.
pub proof fn law_when_note_output_is_read(dto: NoteOutputDto, field: Seq<char>)
    ensures
        (note_output_refusal(dto, field) is None) == readable_note_output(dto),
{
}

/// A note output that can be read is read as it is written.
pub proof fn law_note_output_is_read_as_written(dto: NoteOutputDto, value: NoteOutput)
    requires
        readable_note_output(dto),
    ensures
        (value == note_output_of(dto)) == written_note_output(dto, value),
{
    lemma_spelling();
}

pub proof fn lemma_note_outputs(dtos: Seq<NoteOutputDto>, field: Seq<char>, from: nat)
    ensures
        (note_outputs_refusal(dtos, field, from) is None) == (forall|i: int|
            from <= i < dtos.len() ==> readable_note_output(#[trigger] dtos[i])),
    decreases dtos.len() - from,
{
    if from < dtos.len() {
        law_when_note_output_is_read(
            dtos[from as int],
            indexed_name(field, ".outputs["@, from as int),
        );
        lemma_note_outputs(dtos, field, from + 1);
    }
}

/// Whether every part of a note spend can be read.
pub open spec fn readable_note_spend(dto: NoteSpendDto) -> bool {
    &&& hex_of(dto.asset_id@, 32)
    &&& forall|i: int| 0 <= i < dto.ring@.len() ==> hex_of((#[trigger] dto.ring@[i])@, 32)
    &&& hex_of(dto.ring_root@, 32)
    &&& hex_of(dto.serial_point@, 32)
    &&& hex_of(dto.input_lock_id@, 32)
    &&& hex_of(dto.proof_digest@, 32)
    &&& forall|i: int|
        0 <= i < dto.outputs@.len() ==> readable_note_output(#[trigger] dto.outputs@[i])
    &&& dto.shape is Ok
}

/// Whether a note spend is written out: each field of the text spells the field of its name.
pub open spec fn written_note_spend(dto: NoteSpendDto, value: NoteSpend) -> bool {
    &&& spells(dto.asset_id@, value.asset_id)
    &&& value.ring@.len() == dto.ring@.len()
    &&& forall|i: int| 0 <= i < dto.ring@.len() ==> spells(dto.ring@[i]@, #[trigger] value.ring@[i])
    &&& spells(dto.ring_root@, value.ring_root)
    &&& spells(dto.serial_point@, value.serial_point)
    &&& spells(dto.input_lock_id@, value.input_lock_id)
    &&& spells(dto.proof_digest@, value.proof_digest)
    &&& value.outputs@.len() == dto.outputs@.len()
    &&& forall|i: int|
        0 <= i < dto.outputs@.len() ==> written_note_output(
            dto.outputs@[i],
            #[trigger] value.outputs@[i],
        )
    &&& value.shape == dto.shape
}

/// A note spend is read exactly where every part of it can be.
pub proof fn law_when_note_spend_is_read(dto: NoteSpendDto, field: Seq<char>)
    ensures
        (note_spend_refusal(dto, field) is None) == readable_note_spend(dto),
{
    lemma_ids(dto.ring@, field + ".ring"@, 0);
    lemma_note_outputs(dto.outputs@, field, 0);
}

/// A note spend that can be read is read as it is written.
pub proof fn law_note_spend_is_read_as_written(dto: NoteSpendDto, value: NoteSpend)
    requires
        readable_note_spend(dto),
    ensures
        note_spend_is(dto, value) == written_note_spend(dto, value),
{
    lemma_spelling();
    lemma_ids_spelled(dto.ring@, value.ring@);
    if value.outputs@.len() == dto.outputs@.len() {
        assert forall|i: int| 0 <= i < dto.outputs@.len() implies written_note_output(
            dto.outputs@[i],
            #[trigger] value.outputs@[i],
        ) == (value.outputs@[i] == note_output_of(dto.outputs@[i])) by {
            assert(readable_note_output(dto.outputs@[i]));
            law_note_output_is_read_as_written(dto.outputs@[i], value.outputs@[i]);
        }
    }
}

pub proof fn lemma_note_spends(dtos: Seq<NoteSpendDto>, field: Seq<char>, from: nat)
    ensures
        (note_spends_refusal(dtos, field, from) is None) == (forall|i: int|
            from <= i < dtos.len() ==> readable_note_spend(#[trigger] dtos[i])),
    decreases dtos.len() - from,
{
    if from < dtos.len() {
        law_when_note_spend_is_read(
            dtos[from as int],
            indexed_name(field, ".spends["@, from as int),
        );
        lemma_note_spends(dtos, field, from + 1);
    }
}

/// Whether every part of a note settlement can be read.
pub open spec fn readable_note_order(dto: NoteSettlementDto) -> bool {
    &&& hex_of(dto.operation_id@, 32)
    &&& hex_of(dto.nullifier@, 32)
    &&& hex_of(dto.payment_instruction_digest@, 32)
    &&& hex_of(dto.market_statement_digest@, 32)
    &&& hex_of(dto.dvp_proof_digest@, 32)
    &&& forall|i: int| 0 <= i < dto.spends@.len() ==> readable_note_spend(#[trigger] dto.spends@[i])
    &&& dto.seal.body is Ok
}

/// Whether a note settlement is written out: each field of the text spells the field of its name.
pub open spec fn written_note_order(dto: NoteSettlementDto, value: NoteSettlementOrder) -> bool {
    &&& spells(dto.operation_id@, value.operation_id)
    &&& spells(dto.nullifier@, value.nullifier)
    &&& value.deadline == dto.deadline
    &&& spells(dto.payment_instruction_digest@, value.payment_instruction_digest)
    &&& spells(dto.market_statement_digest@, value.market_statement_digest)
    &&& spells(dto.dvp_proof_digest@, value.dvp_proof_digest)
    &&& value.spends@.len() == dto.spends@.len()
    &&& forall|i: int|
        0 <= i < dto.spends@.len() ==> written_note_spend(
            dto.spends@[i],
            #[trigger] value.spends@[i],
        )
    &&& value.seal == dto.seal
}

/// A note settlement is read exactly where every part of it can be.
pub proof fn law_when_note_order_is_read(dto: NoteSettlementDto)
    ensures
        (note_order_refusal(dto) is None) == readable_note_order(dto),
{
    lemma_note_spends(dto.spends@, "order"@, 0);
}

/// A note settlement that can be read is read as it is written.
pub proof fn law_note_order_is_read_as_written(dto: NoteSettlementDto, value: NoteSettlementOrder)
    requires
        readable_note_order(dto),
    ensures
        note_order_is(dto, value) == written_note_order(dto, value),
{
    lemma_spelling();
    if value.spends@.len() == dto.spends@.len() {
        assert forall|i: int| 0 <= i < dto.spends@.len() implies written_note_spend(
            dto.spends@[i],
            #[trigger] value.spends@[i],
        ) == note_spend_is(dto.spends@[i], value.spends@[i]) by {
            assert(readable_note_spend(dto.spends@[i]));
            law_note_spend_is_read_as_written(dto.spends@[i], value.spends@[i]);
        }
    }
}

/// Whether every part of a note issuance can be read.
pub open spec fn readable_note_issuance(dto: NoteIssuanceDto) -> bool {
    &&& hex_of(dto.operation_id@, 32)
    &&& hex_of(dto.issuance_nonce@, 32)
    &&& hex_of(dto.issuer_id@, 32)
    &&& readable_note_output(dto.output)
    &&& hex_of(dto.proof_digest@, 32)
    &&& hex_of(dto.issuer_signature@, 64)
    &&& dto.seal.body is Ok
}

/// Whether a note issuance is written out: each field of the text spells the field of its name.
pub open spec fn written_note_issuance(dto: NoteIssuanceDto, value: NoteIssuance) -> bool {
    &&& spells(dto.operation_id@, value.operation_id)
    &&& spells(dto.issuance_nonce@, value.issuance_nonce)
    &&& spells(dto.issuer_id@, value.issuer_id)
    &&& value.issued_at == dto.issued_at
    &&& written_note_output(dto.output, value.output)
    &&& spells(dto.proof_digest@, value.proof_digest)
    &&& value.issuer_signature@ == hex_bytes(encode_utf8(dto.issuer_signature@))
    &&& value.seal == dto.seal
}

/// A note issuance is read exactly where every part of it can be.
pub proof fn law_when_note_issuance_is_read(dto: NoteIssuanceDto)
    ensures
        (note_issuance_refusal(dto) is None) == readable_note_issuance(dto),
{
    law_when_note_output_is_read(dto.output, "issuance.output"@);
}

/// A note issuance that can be read is read as it is written.
pub proof fn law_note_issuance_is_read_as_written(dto: NoteIssuanceDto, value: NoteIssuance)
    requires
        readable_note_issuance(dto),
    ensures
        note_issuance_is(dto, value) == written_note_issuance(dto, value),
{
    lemma_spelling();
    law_note_output_is_read_as_written(dto.output, value.output);
}

/// Whether every part of a materialization can be read.
pub open spec fn readable_materialization(dto: NoteClaimMaterializationDto) -> bool {
    &&& hex_of(dto.operation_id@, 32)
    &&& hex_of(dto.claim_id@, 32)
    &&& readable_note_output(dto.output)
    &&& hex_of(dto.ownership_proof_digest@, 32)
    &&& dto.seal.body is Ok
}

/// Whether a materialization is written out: each field of the text spells the field of its name.
pub open spec fn written_materialization(
    dto: NoteClaimMaterializationDto,
    value: NoteClaimMaterialization,
) -> bool {
    &&& spells(dto.operation_id@, value.operation_id)
    &&& spells(dto.claim_id@, value.claim_id)
    &&& written_note_output(dto.output, value.output)
    &&& spells(dto.ownership_proof_digest@, value.ownership_proof_digest)
    &&& value.seal == dto.seal
}

/// A materialization is read exactly where every part of it can be.
pub proof fn law_when_materialization_is_read(dto: NoteClaimMaterializationDto)
    ensures
        (materialization_refusal(dto) is None) == readable_materialization(dto),
{
    law_when_note_output_is_read(dto.output, "materialization.output"@);
}

/// A materialization that can be read is read as it is written.
pub proof fn law_materialization_is_read_as_written(
    dto: NoteClaimMaterializationDto,
    value: NoteClaimMaterialization,
)
    requires
        readable_materialization(dto),
    ensures
        (value == materialization_of(dto)) == written_materialization(dto, value),
{
    lemma_spelling();
    law_note_output_is_read_as_written(dto.output, value.output);
}

/// Whether every part of a share of an opening can be read.
pub open spec fn readable_opening_share(dto: OpeningShareDto) -> bool {
    &&& hex_of(dto.ephemeral@, 32)
    &&& ristretto_point(hex_id_of(dto.ephemeral@).0)
    &&& hex_of(dto.masked_value@, 32)
    &&& le_value(hex_id_of(dto.masked_value@).0@) < group_order()
    &&& hex_of(dto.masked_blinding@, 32)
    &&& le_value(hex_id_of(dto.masked_blinding@).0@) < group_order()
}

/// Whether a share of an opening is written out: each field of the text spells the
/// field of its name.
pub open spec fn written_opening_share(dto: OpeningShareDto, value: OpeningShare) -> bool {
    &&& value.party == dto.party
    &&& spells(dto.ephemeral@, value.ephemeral)
    &&& spells(dto.masked_value@, value.masked_value)
    &&& spells(dto.masked_blinding@, value.masked_blinding)
}

/// A share of an opening is read exactly where every part of it can be.
pub proof fn law_when_opening_share_is_read(dto: OpeningShareDto, field: Seq<char>)
    ensures
        (opening_share_refusal(dto, field) is None) == readable_opening_share(dto),
{
}

/// A share of an opening that can be read is read as it is written.
pub proof fn law_opening_share_is_read_as_written(dto: OpeningShareDto, value: OpeningShare)
    requires
        readable_opening_share(dto),
    ensures
        (value == opening_share_of(dto)) == written_opening_share(dto, value),
{
    lemma_spelling();
}

pub proof fn lemma_opening_shares(dtos: Seq<OpeningShareDto>, field: Seq<char>, from: nat)
    ensures
        (opening_shares_refusal(dtos, field, from) is None) == (forall|i: int|
            from <= i < dtos.len() ==> readable_opening_share(#[trigger] dtos[i])),
    decreases dtos.len() - from,
{
    if from < dtos.len() {
        law_when_opening_share_is_read(
            dtos[from as int],
            indexed_name(field, ".shares["@, from as int),
        );
        lemma_opening_shares(dtos, field, from + 1);
    }
}

/// Whether every part of an opening can be read.
pub open spec fn readable_opening_envelope(dto: OpeningEnvelopeDto) -> bool {
    &&& hex_of(dto.context@, 32)
    &&& hex_of(dto.recipient_view@, 32)
    &&& ristretto_point(hex_id_of(dto.recipient_view@).0)
    &&& forall|i: int|
        0 <= i < dto.shares@.len() ==> readable_opening_share(#[trigger] dto.shares@[i])
    &&& dto.shape is Ok
}

/// Whether an opening is written out: each field of the text spells the field of its name.
pub open spec fn written_opening_envelope(dto: OpeningEnvelopeDto, value: OpeningEnvelope) -> bool {
    &&& spells(dto.context@, value.context)
    &&& value.threshold == dto.threshold
    &&& spells(dto.recipient_view@, value.recipient_view)
    &&& value.shares@.len() == dto.shares@.len()
    &&& forall|i: int|
        0 <= i < dto.shares@.len() ==> written_opening_share(
            dto.shares@[i],
            #[trigger] value.shares@[i],
        )
}

/// An opening is read exactly where every part of it can be.
pub proof fn law_when_opening_envelope_is_read(dto: OpeningEnvelopeDto, field: Seq<char>)
    ensures
        (opening_envelope_refusal(dto, field) is None) == readable_opening_envelope(dto),
{
    lemma_opening_shares(dto.shares@, field, 0);
}

/// An opening that can be read is read as it is written.
pub proof fn law_opening_envelope_is_read_as_written(
    dto: OpeningEnvelopeDto,
    value: OpeningEnvelope,
)
    requires
        readable_opening_envelope(dto),
    ensures
        opening_envelope_is(dto, value) == written_opening_envelope(dto, value),
{
    lemma_spelling();
    if value.shares@.len() == dto.shares@.len() {
        assert forall|i: int| 0 <= i < dto.shares@.len() implies written_opening_share(
            dto.shares@[i],
            #[trigger] value.shares@[i],
        ) == (value.shares@[i] == opening_share_of(dto.shares@[i])) by {
            assert(readable_opening_share(dto.shares@[i]));
            law_opening_share_is_read_as_written(dto.shares@[i], value.shares@[i]);
        }
    }
}

/// Whether every part of a note claim can be read.
pub open spec fn readable_note_claim(dto: NoteClaimDto) -> bool {
    &&& hex_of(dto.claim_id@, 32)
    &&& hex_of(dto.asset_id@, 32)
    &&& hex_of(dto.value_commitment@, 32)
    &&& hex_of(dto.recipient_commitment@, 32)
    &&& hex_of(dto.source_hold_id@, 32)
    &&& (dto.kind@ == "delivery"@ || dto.kind@ == "refund"@)
    &&& readable_opening_envelope(dto.opening_envelope)
    &&& dto.shape is Ok
}

/// Whether a note claim is written out: each field of the text spells the field of its name.
pub open spec fn written_note_claim(dto: NoteClaimDto, value: NoteClaim) -> bool {
    &&& spells(dto.claim_id@, value.claim_id)
    &&& spells(dto.asset_id@, value.asset_id)
    &&& spells(dto.value_commitment@, value.value_commitment)
    &&& spells(dto.recipient_commitment@, value.recipient_commitment)
    &&& spells(dto.source_hold_id@, value.source_hold_id)
    &&& dto.kind@ == claim_kind_text(value.kind)
    &&& value.opening_record is Ok == dto.opening_envelope.recorded is Ok
    &&& value.opening_record is Ok ==> written_opening_envelope(
        dto.opening_envelope,
        *value.opening_record->Ok_0,
    )
    &&& value.opening_record is Err
        ==> value.opening_record->Err_0 == dto.opening_envelope.recorded->Err_0
    &&& value.shape == dto.shape
}

/// A note claim is read exactly where every part of it can be.
pub proof fn law_when_note_claim_is_read(dto: NoteClaimDto, field: Seq<char>)
    ensures
        (note_claim_refusal(dto, field) is None) == readable_note_claim(dto),
{
    law_when_opening_envelope_is_read(dto.opening_envelope, field + ".openingEnvelope"@);
}

/// A note claim that can be read is read as it is written.
pub proof fn law_note_claim_is_read_as_written(dto: NoteClaimDto, value: NoteClaim)
    requires
        readable_note_claim(dto),
    ensures
        note_claim_is(dto, value) == written_note_claim(dto, value),
{
    lemma_spelling();
    law_note_claim_kind_is_read_as_written(dto.kind@, value.kind);
    assert forall|envelope: OpeningEnvelope| #[trigger]
        written_opening_envelope(dto.opening_envelope, envelope) == opening_envelope_is(
            dto.opening_envelope,
            envelope,
        ) by {
        law_opening_envelope_is_read_as_written(dto.opening_envelope, envelope);
    }
}

pub proof fn lemma_note_claims(dtos: Seq<NoteClaimDto>, field: Seq<char>, from: nat)
    ensures
        (note_claims_refusal(dtos, field, from) is None) == (forall|i: int|
            from <= i < dtos.len() ==> readable_note_claim(#[trigger] dtos[i])),
    decreases dtos.len() - from,
{
    if from < dtos.len() {
        law_when_note_claim_is_read(
            dtos[from as int],
            indexed_name(field, ".claims["@, from as int),
        );
        lemma_note_claims(dtos, field, from + 1);
    }
}

/// Whether every part of an escrow spend can be read.
pub open spec fn readable_escrow_spend(dto: EscrowClaimSpendDto) -> bool {
    &&& hex_of(dto.asset_id@, 32)
    &&& hex_of(dto.hold_id@, 32)
    &&& hex_of(dto.escrow_note_id@, 32)
    &&& hex_of(dto.delegation_digest@, 32)
    &&& hex_of(dto.proof_digest@, 32)
    &&& forall|i: int| 0 <= i < dto.claims@.len() ==> readable_note_claim(#[trigger] dto.claims@[i])
}

/// Whether an escrow spend is written out: each field of the text spells the field of its name.
pub open spec fn written_escrow_spend(dto: EscrowClaimSpendDto, value: EscrowClaimSpend) -> bool {
    &&& spells(dto.asset_id@, value.asset_id)
    &&& spells(dto.hold_id@, value.hold_id)
    &&& spells(dto.escrow_note_id@, value.escrow_note_id)
    &&& spells(dto.delegation_digest@, value.delegation_digest)
    &&& spells(dto.proof_digest@, value.proof_digest)
    &&& value.claims@.len() == dto.claims@.len()
    &&& forall|i: int|
        0 <= i < dto.claims@.len() ==> written_note_claim(
            dto.claims@[i],
            #[trigger] value.claims@[i],
        )
    &&& value.serial == dto.serial
}

/// An escrow spend is read exactly where every part of it can be.
pub proof fn law_when_escrow_spend_is_read(dto: EscrowClaimSpendDto, field: Seq<char>)
    ensures
        (escrow_spend_refusal(dto, field) is None) == readable_escrow_spend(dto),
{
    lemma_note_claims(dto.claims@, field, 0);
}

/// An escrow spend that can be read is read as it is written.
pub proof fn law_escrow_spend_is_read_as_written(dto: EscrowClaimSpendDto, value: EscrowClaimSpend)
    requires
        readable_escrow_spend(dto),
    ensures
        escrow_spend_is(dto, value) == written_escrow_spend(dto, value),
{
    lemma_spelling();
    if value.claims@.len() == dto.claims@.len() {
        assert forall|i: int| 0 <= i < dto.claims@.len() implies written_note_claim(
            dto.claims@[i],
            #[trigger] value.claims@[i],
        ) == note_claim_is(dto.claims@[i], value.claims@[i]) by {
            assert(readable_note_claim(dto.claims@[i]));
            law_note_claim_is_read_as_written(dto.claims@[i], value.claims@[i]);
        }
    }
}

pub proof fn lemma_escrow_spends(dtos: Seq<EscrowClaimSpendDto>, field: Seq<char>, from: nat)
    ensures
        (escrow_spends_refusal(dtos, field, from) is None) == (forall|i: int|
            from <= i < dtos.len() ==> readable_escrow_spend(#[trigger] dtos[i])),
    decreases dtos.len() - from,
{
    if from < dtos.len() {
        law_when_escrow_spend_is_read(
            dtos[from as int],
            indexed_name(field, ".spends["@, from as int),
        );
        lemma_escrow_spends(dtos, field, from + 1);
    }
}

/// Whether every part of a delegated settlement can be read.
pub open spec fn readable_delegated(dto: DelegatedNoteSettlementDto) -> bool {
    &&& hex_of(dto.operation_id@, 32)
    &&& hex_of(dto.nullifier@, 32)
    &&& hex_of(dto.payment_instruction_digest@, 32)
    &&& hex_of(dto.market_statement_digest@, 32)
    &&& hex_of(dto.dvp_proof_digest@, 32)
    &&& forall|i: int|
        0 <= i < dto.spends@.len() ==> readable_escrow_spend(#[trigger] dto.spends@[i])
    &&& dto.seal.body is Ok
}

/// Whether a delegated settlement is written out: each field of the text spells
/// the field of its name.
pub open spec fn written_delegated(
    dto: DelegatedNoteSettlementDto,
    value: DelegatedNoteSettlementOrder,
) -> bool {
    &&& spells(dto.operation_id@, value.operation_id)
    &&& spells(dto.nullifier@, value.nullifier)
    &&& value.deadline == dto.deadline
    &&& spells(dto.payment_instruction_digest@, value.payment_instruction_digest)
    &&& spells(dto.market_statement_digest@, value.market_statement_digest)
    &&& spells(dto.dvp_proof_digest@, value.dvp_proof_digest)
    &&& value.spends@.len() == dto.spends@.len()
    &&& forall|i: int|
        0 <= i < dto.spends@.len() ==> written_escrow_spend(
            dto.spends@[i],
            #[trigger] value.spends@[i],
        )
    &&& value.seal == dto.seal
}

/// A delegated settlement is read exactly where every part of it can be.
pub proof fn law_when_delegated_is_read(dto: DelegatedNoteSettlementDto, field: Seq<char>)
    ensures
        (delegated_refusal(dto, field) is None) == readable_delegated(dto),
{
    lemma_escrow_spends(dto.spends@, field, 0);
}

/// A delegated settlement that can be read is read as it is written.
pub proof fn law_delegated_is_read_as_written(
    dto: DelegatedNoteSettlementDto,
    value: DelegatedNoteSettlementOrder,
)
    requires
        readable_delegated(dto),
    ensures
        delegated_is(dto, value) == written_delegated(dto, value),
{
    lemma_spelling();
    if value.spends@.len() == dto.spends@.len() {
        assert forall|i: int| 0 <= i < dto.spends@.len() implies written_escrow_spend(
            dto.spends@[i],
            #[trigger] value.spends@[i],
        ) == escrow_spend_is(dto.spends@[i], value.spends@[i]) by {
            assert(readable_escrow_spend(dto.spends@[i]));
            law_escrow_spend_is_read_as_written(dto.spends@[i], value.spends@[i]);
        }
    }
}

} // verus!
