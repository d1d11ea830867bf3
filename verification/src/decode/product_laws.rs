//! How trades, reservations and their evidence are read.

use vstd::prelude::*;

use crate::crypto::{base64_bytes, group_order, le_value, ristretto_point};
use crate::decode::credit_laws::{
    law_credit_transition_is_read_as_written, law_when_credit_transition_is_read,
    readable_credit_transition, written_credit_transition,
};
use crate::decode::lists::indexed_name;
use crate::decode::notes_laws::{
    law_delegated_is_read_as_written, law_note_spend_is_read_as_written, law_when_delegated_is_read,
    law_when_note_spend_is_read, readable_delegated, readable_note_spend, written_delegated,
    written_note_spend,
};
use crate::decode::product::{
    consumption_of, consumption_refusal, consumptions_refusal, evidence_bundle_refusal, evidence_is,
    evidence_refusal,
    member_of, members_refusal, note_product_reservation_refusal, product_batch_is,
    product_batch_refusal, product_note_order_is,
    product_note_order_refusal, product_note_release_is, product_note_release_refusal,
    product_note_orders_refusal, product_order_is, product_order_refusal, product_orders_refusal,
    product_release_of, product_release_refusal,
    product_reservation_refusal, reservation_refusal,
    product_terms_of, product_terms_refusal, reservation_authorization_of,
    reservation_authorization_refusal, reservation_escrow_of, reservation_escrow_refusal,
    settlement_is, settlement_refusal, state_leg_of, state_leg_refusal, state_legs_refusal,
    NoteReservationEscrowDto, ProductNoteReleaseDto, ProductNoteSettlementDto, ProductReleaseDto,
    ProductSettlementBatchDto,
    ProductSettlementBatchMemberDto, ProductSettlementDto, ProductSettlementEvidence,
    ProductSettlementEvidenceDto, ProductTermsDto, ReservationAuthorizationDto,
    ReservationConsumptionDto, ReservationDto, ReservationEscrowDto, SettlementDto, StateLegDto,
};
use crate::decode::spelling::{
    hex_of, law_reservation_role_is_read_as_written, lemma_spelling, role_text, spells,
};
use crate::endorsement::Seal;
use crate::id::Id;
use crate::order::{
    ProductNoteReleaseOrder, ProductNoteSettlementOrder, ProductReleaseOrder,
    ProductSettlementBatch, ProductSettlementBatchMember, ProductSettlementOrder, ProductTerms,
    ReservationAuthorization, ReservationConsumption, ReservationEscrow, SettlementOrder, StateLeg,
};
use crate::state::ReservationRole;
use crate::text::hex_id_of;

verus! {

/// Whether every part of a leg can be read.
pub open spec fn readable_state_leg(dto: StateLegDto) -> bool {
    &&& hex_of(dto.handle@, 32)
    &&& hex_of(dto.asset_id@, 32)
    &&& hex_of(dto.before_commitment@, 32)
    &&& hex_of(dto.after_commitment@, 32)
}

/// Whether a leg is written out: each field of the text spells the field of its name.
pub open spec fn written_state_leg(dto: StateLegDto, value: StateLeg) -> bool {
    &&& spells(dto.handle@, value.handle)
    &&& spells(dto.asset_id@, value.asset_id)
    &&& spells(dto.before_commitment@, value.before_commitment)
    &&& spells(dto.after_commitment@, value.after_commitment)
    &&& value.before_sequence == dto.before_sequence
}

/// A leg is read exactly where every part of it can be.
pub proof fn law_when_state_leg_is_read(dto: StateLegDto, field: Seq<char>)
    ensures
        (state_leg_refusal(dto, field) is None) == readable_state_leg(dto),
{
}

/// A leg that can be read is read as it is written.
pub proof fn law_state_leg_is_read_as_written(dto: StateLegDto, value: StateLeg)
    requires
        readable_state_leg(dto),
    ensures
        (value == state_leg_of(dto)) == written_state_leg(dto, value),
{
    lemma_spelling();
}

pub proof fn lemma_state_legs(dtos: Seq<StateLegDto>, field: Seq<char>, from: nat)
    ensures
        (state_legs_refusal(dtos, field, from) is None) == (forall|i: int|
            from <= i < dtos.len() ==> readable_state_leg(#[trigger] dtos[i])),
    decreases dtos.len() - from,
{
    if from < dtos.len() {
        law_when_state_leg_is_read(dtos[from as int], field + ".legs"@);
        lemma_state_legs(dtos, field, from + 1);
    }
}

/// Whether every part of a settlement can be read.
pub open spec fn readable_settlement(dto: SettlementDto) -> bool {
    &&& hex_of(dto.operation_id@, 32)
    &&& hex_of(dto.nullifier@, 32)
    &&& hex_of(dto.payment_instruction_digest@, 32)
    &&& hex_of(dto.proof_digest@, 32)
    &&& hex_of(dto.market_statement_digest@, 32)
    &&& forall|i: int| 0 <= i < dto.legs@.len() ==> readable_state_leg(#[trigger] dto.legs@[i])
}

/// Whether a settlement is written out: each field of the text spells the field of its name.
pub open spec fn written_settlement(dto: SettlementDto, value: SettlementOrder) -> bool {
    &&& spells(dto.operation_id@, value.operation_id)
    &&& spells(dto.nullifier@, value.nullifier)
    &&& value.deadline == dto.deadline
    &&& spells(dto.payment_instruction_digest@, value.payment_instruction_digest)
    &&& spells(dto.proof_digest@, value.proof_digest)
    &&& spells(dto.market_statement_digest@, value.market_statement_digest)
    &&& value.legs@.len() == dto.legs@.len()
    &&& forall|i: int|
        0 <= i < dto.legs@.len() ==> written_state_leg(dto.legs@[i], #[trigger] value.legs@[i])
    &&& value.seal == dto.seal
}

/// A settlement is read exactly where every part of it can be.
pub proof fn law_when_settlement_is_read(dto: SettlementDto, field: Seq<char>)
    ensures
        (settlement_refusal(dto, field) is None) == readable_settlement(dto),
{
    lemma_state_legs(dto.legs@, field, 0);
}

/// A settlement that can be read is read as it is written.
pub proof fn law_settlement_is_read_as_written(dto: SettlementDto, value: SettlementOrder)
    requires
        readable_settlement(dto),
    ensures
        settlement_is(dto, value) == written_settlement(dto, value),
{
    lemma_spelling();
    if value.legs@.len() == dto.legs@.len() {
        assert forall|i: int| 0 <= i < dto.legs@.len() implies written_state_leg(
            dto.legs@[i],
            #[trigger] value.legs@[i],
        ) == (value.legs@[i] == state_leg_of(dto.legs@[i])) by {
            assert(readable_state_leg(dto.legs@[i]));
            law_state_leg_is_read_as_written(dto.legs@[i], value.legs@[i]);
        }
    }
}

/// Whether every part of a reservation authorization can be read.
pub open spec fn readable_reservation_authorization(dto: ReservationAuthorizationDto) -> bool {
    &&& (dto.role@ == "maker"@ || dto.role@ == "taker"@)
    &&& hex_of(dto.entity_commitment@, 32)
    &&& hex_of(dto.asset_id@, 32)
    &&& hex_of(dto.authorization_digest@, 32)
    &&& hex_of(dto.mandate_digest@, 32)
    &&& hex_of(dto.typed_reserve_digest@, 32)
    &&& hex_of(dto.reserve_nullifier@, 32)
    &&& hex_of(dto.asset_link_proof_digest@, 32)
    &&& hex_of(dto.limit_price_commitment@, 32)
    &&& hex_of(dto.escrow_digest@, 32)
    &&& hex_of(dto.rfq_nullifier@, 32)
    &&& hex_of(dto.admission_ticket_id@, 32)
    &&& hex_of(dto.admission_receipt_digest@, 32)
    &&& hex_of(dto.admission_batch_id@, 32)
}

/// Whether a reservation authorization is written out: each field of the text
/// spells the field of its name.
pub open spec fn written_reservation_authorization(
    dto: ReservationAuthorizationDto,
    value: ReservationAuthorization,
) -> bool {
    &&& dto.role@ == role_text(value.role)
    &&& spells(dto.entity_commitment@, value.entity_commitment)
    &&& spells(dto.asset_id@, value.asset_id)
    &&& value.direction == dto.direction
    &&& spells(dto.authorization_digest@, value.authorization_digest)
    &&& spells(dto.mandate_digest@, value.mandate_digest)
    &&& spells(dto.typed_reserve_digest@, value.typed_reserve_digest)
    &&& spells(dto.reserve_nullifier@, value.reserve_nullifier)
    &&& spells(dto.asset_link_proof_digest@, value.asset_link_proof_digest)
    &&& spells(dto.limit_price_commitment@, value.limit_price_commitment)
    &&& spells(dto.escrow_digest@, value.escrow_digest)
    &&& spells(dto.rfq_nullifier@, value.rfq_nullifier)
    &&& value.policy_version == dto.policy_version
    &&& spells(dto.admission_ticket_id@, value.admission_ticket_id)
    &&& value.admission_slot == dto.admission_slot
    &&& spells(dto.admission_receipt_digest@, value.admission_receipt_digest)
    &&& value.admission_epoch == dto.admission_epoch
    &&& value.admission_sequence == dto.admission_sequence
    &&& spells(dto.admission_batch_id@, value.admission_batch_id)
}

/// A reservation authorization is read exactly where every part of it can be.
pub proof fn law_when_reservation_authorization_is_read(
    dto: ReservationAuthorizationDto,
    field: Seq<char>,
)
    ensures
        (reservation_authorization_refusal(dto, field) is None)
            == readable_reservation_authorization(dto),
{
}

/// A reservation authorization that can be read is read as it is written.
pub proof fn law_reservation_authorization_is_read_as_written(
    dto: ReservationAuthorizationDto,
    value: ReservationAuthorization,
)
    requires
        readable_reservation_authorization(dto),
    ensures
        (value == reservation_authorization_of(dto)) == written_reservation_authorization(
            dto,
            value,
        ),
{
    lemma_spelling();
    law_reservation_role_is_read_as_written(dto.role@, value.role);
}

/// Whether every part of a reservation escrow can be read.
pub open spec fn readable_reservation_escrow(dto: ReservationEscrowDto) -> bool {
    &&& hex_of(dto.source_handle@, 32)
    &&& hex_of(dto.escrow_handle@, 32)
    &&& hex_of(dto.asset_id@, 32)
    &&& hex_of(dto.amount_commitment@, 32)
    &&& hex_of(dto.source_before_commitment@, 32)
    &&& hex_of(dto.source_after_commitment@, 32)
    &&& hex_of(dto.proof_digest@, 32)
}

/// Whether a reservation escrow is written out: each field of the text spells the
/// field of its name.
pub open spec fn written_reservation_escrow(
    dto: ReservationEscrowDto,
    value: ReservationEscrow,
) -> bool {
    &&& spells(dto.source_handle@, value.source_handle)
    &&& spells(dto.escrow_handle@, value.escrow_handle)
    &&& spells(dto.asset_id@, value.asset_id)
    &&& spells(dto.amount_commitment@, value.amount_commitment)
    &&& spells(dto.source_before_commitment@, value.source_before_commitment)
    &&& spells(dto.source_after_commitment@, value.source_after_commitment)
    &&& value.source_before_sequence == dto.source_before_sequence
    &&& spells(dto.proof_digest@, value.proof_digest)
}

/// A reservation escrow is read exactly where every part of it can be.
pub proof fn law_when_reservation_escrow_is_read(dto: ReservationEscrowDto)
    ensures
        (reservation_escrow_refusal(dto) is None) == readable_reservation_escrow(dto),
{
}

/// A reservation escrow that can be read is read as it is written.
pub proof fn law_reservation_escrow_is_read_as_written(
    dto: ReservationEscrowDto,
    value: ReservationEscrow,
)
    requires
        readable_reservation_escrow(dto),
    ensures
        (value == reservation_escrow_of(dto)) == written_reservation_escrow(dto, value),
{
    lemma_spelling();
}

/// Whether every part of a set of trade terms can be read.
pub open spec fn readable_product_terms(dto: ProductTermsDto) -> bool {
    &&& hex_of(dto.venue_id@, 32)
    &&& hex_of(dto.defmi_id@, 32)
    &&& hex_of(dto.maker_entity_commitment@, 32)
    &&& hex_of(dto.taker_entity_commitment@, 32)
    &&& hex_of(dto.rfq_nullifier@, 32)
    &&& hex_of(dto.taker_authorization_digest@, 32)
    &&& hex_of(dto.maker_policy_digest@, 32)
    &&& hex_of(dto.maker_mandate_digest@, 32)
    &&& hex_of(dto.taker_mandate_digest@, 32)
    &&& hex_of(dto.typed_instruction_digest@, 32)
    &&& hex_of(dto.quote_proof_digest@, 32)
    &&& hex_of(dto.price_limit_proof_digest@, 32)
    &&& hex_of(dto.dvp_proof_digest@, 32)
    &&& hex_of(dto.quantity_commitment@, 32)
    &&& hex_of(dto.cash_commitment@, 32)
    &&& hex_of(dto.traded_asset_id@, 32)
    &&& hex_of(dto.asset_link_proof_digest@, 32)
    &&& hex_of(dto.admission_receipt_digest@, 32)
}

/// Whether a set of trade terms is written out: each field of the text spells the
/// field of its name.
pub open spec fn written_product_terms(dto: ProductTermsDto, value: ProductTerms) -> bool {
    &&& spells(dto.venue_id@, value.venue_id)
    &&& spells(dto.defmi_id@, value.defmi_id)
    &&& spells(dto.maker_entity_commitment@, value.maker_entity_commitment)
    &&& spells(dto.taker_entity_commitment@, value.taker_entity_commitment)
    &&& spells(dto.rfq_nullifier@, value.rfq_nullifier)
    &&& spells(dto.taker_authorization_digest@, value.taker_authorization_digest)
    &&& spells(dto.maker_policy_digest@, value.maker_policy_digest)
    &&& spells(dto.maker_mandate_digest@, value.maker_mandate_digest)
    &&& spells(dto.taker_mandate_digest@, value.taker_mandate_digest)
    &&& spells(dto.typed_instruction_digest@, value.typed_instruction_digest)
    &&& spells(dto.quote_proof_digest@, value.quote_proof_digest)
    &&& spells(dto.price_limit_proof_digest@, value.price_limit_proof_digest)
    &&& spells(dto.dvp_proof_digest@, value.dvp_proof_digest)
    &&& spells(dto.quantity_commitment@, value.quantity_commitment)
    &&& spells(dto.cash_commitment@, value.cash_commitment)
    &&& spells(dto.traded_asset_id@, value.traded_asset_id)
    &&& spells(dto.asset_link_proof_digest@, value.asset_link_proof_digest)
    &&& spells(dto.admission_receipt_digest@, value.admission_receipt_digest)
    &&& value.admission_epoch == dto.admission_epoch
    &&& value.admission_sequence == dto.admission_sequence
}

/// A set of trade terms is read exactly where every part of it can be.
pub proof fn law_when_product_terms_is_read(dto: ProductTermsDto, field: Seq<char>)
    ensures
        (product_terms_refusal(dto, field) is None) == readable_product_terms(dto),
{
}

/// A set of trade terms that can be read is read as it is written.
pub proof fn law_product_terms_is_read_as_written(dto: ProductTermsDto, value: ProductTerms)
    requires
        readable_product_terms(dto),
    ensures
        (value == product_terms_of(dto)) == written_product_terms(dto, value),
{
    lemma_spelling();
}

/// Whether every part of a reservation consumption can be read.
pub open spec fn readable_consumption(dto: ReservationConsumptionDto) -> bool {
    &&& (dto.role@ == "maker"@ || dto.role@ == "taker"@)
    &&& hex_of(dto.reserve_receipt_digest@, 32)
    &&& readable_credit_transition(dto.transition)
}

/// Whether a reservation consumption is written out: each field of the text spells
/// the field of its name.
pub open spec fn written_consumption(
    dto: ReservationConsumptionDto,
    value: ReservationConsumption,
) -> bool {
    &&& dto.role@ == role_text(value.role)
    &&& spells(dto.reserve_receipt_digest@, value.reserve_receipt_digest)
    &&& written_credit_transition(dto.transition, value.transition)
    &&& value.transition_statement == dto.transition_statement
}

/// A reservation consumption is read exactly where every part of it can be.
pub proof fn law_when_consumption_is_read(dto: ReservationConsumptionDto, field: Seq<char>)
    ensures
        (consumption_refusal(dto, field) is None) == readable_consumption(dto),
{
    law_when_credit_transition_is_read(dto.transition, field + ".transition"@);
}

/// A reservation consumption that can be read is read as it is written.
pub proof fn law_consumption_is_read_as_written(
    dto: ReservationConsumptionDto,
    value: ReservationConsumption,
)
    requires
        readable_consumption(dto),
    ensures
        (value == consumption_of(dto)) == written_consumption(dto, value),
{
    lemma_spelling();
    law_reservation_role_is_read_as_written(dto.role@, value.role);
    law_credit_transition_is_read_as_written(dto.transition, value.transition);
}

pub proof fn lemma_consumptions(dtos: Seq<ReservationConsumptionDto>, field: Seq<char>, from: nat)
    ensures
        (consumptions_refusal(dtos, field, from) is None) == (forall|i: int|
            from <= i < dtos.len() ==> readable_consumption(#[trigger] dtos[i])),
    decreases dtos.len() - from,
{
    if from < dtos.len() {
        law_when_consumption_is_read(dtos[from as int], field + ".reservations"@);
        lemma_consumptions(dtos, field, from + 1);
    }
}

/// Whether every part of a trade can be read.
pub open spec fn readable_product_order(dto: ProductSettlementDto) -> bool {
    &&& dto.reservations@.len() <= 2
    &&& readable_settlement(dto.settlement)
    &&& forall|i: int|
        0 <= i < dto.reservations@.len() ==> readable_consumption(#[trigger] dto.reservations@[i])
    &&& readable_product_terms(dto.terms)
    &&& dto.seal.body is Ok
}

/// Whether a trade is written out: each field of the text spells the field of its name.
pub open spec fn written_product_order(
    dto: ProductSettlementDto,
    value: ProductSettlementOrder,
) -> bool {
    &&& written_settlement(dto.settlement, value.settlement)
    &&& written_product_terms(dto.terms, value.terms)
    &&& value.reservations@.len() == dto.reservations@.len()
    &&& forall|i: int|
        0 <= i < dto.reservations@.len() ==> written_consumption(
            dto.reservations@[i],
            #[trigger] value.reservations@[i],
        )
    &&& value.seal == dto.seal
}

/// A trade is read exactly where every part of it can be.
pub proof fn law_when_product_order_is_read(dto: ProductSettlementDto, field: Seq<char>)
    ensures
        (product_order_refusal(dto, field) is None) == readable_product_order(dto),
{
    law_when_settlement_is_read(dto.settlement, field + ".settlement"@);
    lemma_consumptions(dto.reservations@, field, 0);
    law_when_product_terms_is_read(dto.terms, field);
}

/// A trade that can be read is read as it is written.
pub proof fn law_product_order_is_read_as_written(
    dto: ProductSettlementDto,
    value: ProductSettlementOrder,
)
    requires
        readable_product_order(dto),
    ensures
        product_order_is(dto, value) == written_product_order(dto, value),
{
    lemma_spelling();
    law_settlement_is_read_as_written(dto.settlement, value.settlement);
    law_product_terms_is_read_as_written(dto.terms, value.terms);
    if value.reservations@.len() == dto.reservations@.len() {
        assert forall|i: int| 0 <= i < dto.reservations@.len() implies written_consumption(
            dto.reservations@[i],
            #[trigger] value.reservations@[i],
        ) == (value.reservations@[i] == consumption_of(dto.reservations@[i])) by {
            assert(readable_consumption(dto.reservations@[i]));
            law_consumption_is_read_as_written(dto.reservations@[i], value.reservations@[i]);
        }
    }
}

/// Whether every part of a trade between notes can be read.
pub open spec fn readable_product_note_order(dto: ProductNoteSettlementDto) -> bool {
    &&& dto.reservations@.len() <= 2
    &&& forall|i: int|
        0 <= i < dto.reservations@.len() ==> readable_consumption(#[trigger] dto.reservations@[i])
    &&& readable_delegated(dto.settlement)
    &&& readable_product_terms(dto.terms)
    &&& dto.seal.body is Ok
}

/// Whether a trade between notes is written out: each field of the text spells the
/// field of its name.
pub open spec fn written_product_note_order(
    dto: ProductNoteSettlementDto,
    value: ProductNoteSettlementOrder,
) -> bool {
    &&& written_delegated(dto.settlement, value.settlement)
    &&& written_product_terms(dto.terms, value.terms)
    &&& value.reservations@.len() == dto.reservations@.len()
    &&& forall|i: int|
        0 <= i < dto.reservations@.len() ==> written_consumption(
            dto.reservations@[i],
            #[trigger] value.reservations@[i],
        )
    &&& value.seal == dto.seal
}

/// A trade between notes is read exactly where every part of it can be.
pub proof fn law_when_product_note_order_is_read(dto: ProductNoteSettlementDto, field: Seq<char>)
    ensures
        (product_note_order_refusal(dto, field) is None) == readable_product_note_order(dto),
{
    lemma_consumptions(dto.reservations@, field, 0);
    law_when_delegated_is_read(dto.settlement, field + ".settlement"@);
    law_when_product_terms_is_read(dto.terms, field);
}

/// A trade between notes that can be read is read as it is written.
pub proof fn law_product_note_order_is_read_as_written(
    dto: ProductNoteSettlementDto,
    value: ProductNoteSettlementOrder,
)
    requires
        readable_product_note_order(dto),
    ensures
        product_note_order_is(dto, value) == written_product_note_order(dto, value),
{
    lemma_spelling();
    law_delegated_is_read_as_written(dto.settlement, value.settlement);
    law_product_terms_is_read_as_written(dto.terms, value.terms);
    if value.reservations@.len() == dto.reservations@.len() {
        assert forall|i: int| 0 <= i < dto.reservations@.len() implies written_consumption(
            dto.reservations@[i],
            #[trigger] value.reservations@[i],
        ) == (value.reservations@[i] == consumption_of(dto.reservations@[i])) by {
            assert(readable_consumption(dto.reservations@[i]));
            law_consumption_is_read_as_written(dto.reservations@[i], value.reservations@[i]);
        }
    }
}

/// Whether every part of a batch member can be read.
pub open spec fn readable_member(dto: ProductSettlementBatchMemberDto) -> bool {
    &&& hex_of(dto.settlement_statement@, 32)
}

/// Whether a batch member is written out: each field of the text spells the field of its name.
pub open spec fn written_member(
    dto: ProductSettlementBatchMemberDto,
    value: ProductSettlementBatchMember,
) -> bool {
    &&& value.admission_sequence == dto.admission_sequence
    &&& spells(dto.settlement_statement@, value.settlement_statement)
}

/// A batch member that can be read is read as it is written.
pub proof fn law_member_is_read_as_written(
    dto: ProductSettlementBatchMemberDto,
    value: ProductSettlementBatchMember,
)
    requires
        readable_member(dto),
    ensures
        (value == member_of(dto)) == written_member(dto, value),
{
    lemma_spelling();
}

pub proof fn lemma_members(members: Seq<ProductSettlementBatchMemberDto>, from: nat)
    ensures
        (members_refusal(members, from) is None) == (forall|i: int|
            from <= i < members.len() ==> readable_member(#[trigger] members[i])),
    decreases members.len() - from,
{
    if from < members.len() {
        lemma_members(members, from + 1);
    }
}

/// Whether every part of a settlement batch can be read.
pub open spec fn readable_product_batch(dto: ProductSettlementBatchDto) -> bool {
    &&& dto.members@.len() <= 4096
    &&& hex_of(dto.batch_id@, 32)
    &&& hex_of(dto.venue_id@, 32)
    &&& hex_of(dto.defmi_id@, 32)
    &&& forall|i: int| 0 <= i < dto.members@.len() ==> readable_member(#[trigger] dto.members@[i])
}

/// Whether a settlement batch is written out: each field of the text spells the field of its name.
pub open spec fn written_product_batch(
    dto: ProductSettlementBatchDto,
    value: ProductSettlementBatch,
) -> bool {
    &&& spells(dto.batch_id@, value.batch_id)
    &&& spells(dto.venue_id@, value.venue_id)
    &&& spells(dto.defmi_id@, value.defmi_id)
    &&& value.admission_epoch == dto.admission_epoch
    &&& value.members@.len() == dto.members@.len()
    &&& forall|i: int|
        0 <= i < dto.members@.len() ==> written_member(
            dto.members@[i],
            #[trigger] value.members@[i],
        )
    &&& value.seal == dto.seal
}

/// A settlement batch is read exactly where every part of it can be.
pub proof fn law_when_product_batch_is_read(dto: ProductSettlementBatchDto, crowded: Seq<char>)
    ensures
        (product_batch_refusal(dto, crowded) is None) == readable_product_batch(dto),
{
    lemma_members(dto.members@, 0);
}

/// A settlement batch that can be read is read as it is written.
pub proof fn law_product_batch_is_read_as_written(
    dto: ProductSettlementBatchDto,
    value: ProductSettlementBatch,
)
    requires
        readable_product_batch(dto),
    ensures
        product_batch_is(dto, value) == written_product_batch(dto, value),
{
    lemma_spelling();
    if value.members@.len() == dto.members@.len() {
        assert forall|i: int| 0 <= i < dto.members@.len() implies written_member(
            dto.members@[i],
            #[trigger] value.members@[i],
        ) == (value.members@[i] == member_of(dto.members@[i])) by {
            assert(readable_member(dto.members@[i]));
            law_member_is_read_as_written(dto.members@[i], value.members@[i]);
        }
    }
}

/// Whether every part of a bundle of evidence can be read.
pub open spec fn readable_evidence(dto: ProductSettlementEvidenceDto) -> bool {
    &&& hex_of(dto.announcement@, 32)
    &&& ristretto_point(hex_id_of(dto.announcement@).0)
    &&& hex_of(dto.response@, 32)
    &&& le_value(hex_id_of(dto.response@).0@) < group_order()
    &&& base64_bytes(dto.typed_instruction@) is Some
    &&& base64_bytes(dto.quote_verification@) is Some
    &&& base64_bytes(dto.price_limit_proof@) is Some
    &&& base64_bytes(dto.dvp_proofs@) is Some
    &&& base64_bytes(dto.mpc_execution_attestations@) is Some
    &&& dto.shape is Ok
}

/// Whether a bundle of evidence is written out: each field of the text spells the
/// field of its name.
pub open spec fn written_evidence(
    dto: ProductSettlementEvidenceDto,
    value: ProductSettlementEvidence,
) -> bool {
    &&& base64_bytes(dto.typed_instruction@) == Some(value.typed_instruction@)
    &&& base64_bytes(dto.quote_verification@) == Some(value.quote_verification@)
    &&& base64_bytes(dto.price_limit_proof@) == Some(value.price_limit_proof@)
    &&& base64_bytes(dto.dvp_proofs@) == Some(value.dvp_proofs@)
    &&& base64_bytes(dto.mpc_execution_attestations@) == Some(value.mpc_execution_attestations@)
    &&& spells(dto.announcement@, value.announcement)
    &&& spells(dto.response@, value.response)
}

/// A bundle of evidence is read exactly where every part of it can be.
pub proof fn law_when_evidence_is_read(dto: ProductSettlementEvidenceDto, field: Seq<char>)
    ensures
        (evidence_refusal(dto, field) is None) == readable_evidence(dto),
{
}

/// A bundle of evidence that can be read is read as it is written.
pub proof fn law_evidence_is_read_as_written(
    dto: ProductSettlementEvidenceDto,
    value: ProductSettlementEvidence,
)
    requires
        readable_evidence(dto),
    ensures
        evidence_is(dto, value) == written_evidence(dto, value),
{
    lemma_spelling();
}

/// Whether every part of a release can be read.
pub open spec fn readable_product_release(dto: ProductReleaseDto) -> bool {
    &&& readable_state_leg(dto.refund_leg)
    &&& readable_credit_transition(dto.transition)
    &&& (dto.role@ == "maker"@ || dto.role@ == "taker"@)
    &&& hex_of(dto.reserve_receipt_digest@, 32)
    &&& hex_of(dto.typed_instruction_digest@, 32)
    &&& hex_of(dto.release_nullifier@, 32)
    &&& hex_of(dto.asset_id@, 32)
    &&& hex_of(dto.asset_link_proof_digest@, 32)
    &&& dto.seal.body is Ok
}

/// Whether a release is written out: each field of the text spells the field of its name.
pub open spec fn written_product_release(
    dto: ProductReleaseDto,
    value: ProductReleaseOrder,
) -> bool {
    &&& written_credit_transition(dto.transition, value.transition)
    &&& dto.role@ == role_text(value.role)
    &&& spells(dto.reserve_receipt_digest@, value.reserve_receipt_digest)
    &&& spells(dto.typed_instruction_digest@, value.typed_instruction_digest)
    &&& spells(dto.release_nullifier@, value.release_nullifier)
    &&& value.release_deadline == dto.release_deadline
    &&& spells(dto.asset_id@, value.asset_id)
    &&& spells(dto.asset_link_proof_digest@, value.asset_link_proof_digest)
    &&& written_state_leg(dto.refund_leg, value.refund_leg)
    &&& value.seal == dto.seal
}

/// A release is read exactly where every part of it can be.
pub proof fn law_when_product_release_is_read(dto: ProductReleaseDto)
    ensures
        (product_release_refusal(dto) is None) == readable_product_release(dto),
{
    law_when_state_leg_is_read(dto.refund_leg, "order.refundLeg"@);
    law_when_credit_transition_is_read(dto.transition, "order.transition"@);
}

/// A release that can be read is read as it is written.
pub proof fn law_product_release_is_read_as_written(
    dto: ProductReleaseDto,
    value: ProductReleaseOrder,
)
    requires
        readable_product_release(dto),
    ensures
        (value == product_release_of(dto)) == written_product_release(dto, value),
{
    lemma_spelling();
    law_reservation_role_is_read_as_written(dto.role@, value.role);
    law_credit_transition_is_read_as_written(dto.transition, value.transition);
    law_state_leg_is_read_as_written(dto.refund_leg, value.refund_leg);
}

/// Whether every part of a note release can be read.
pub open spec fn readable_product_note_release(dto: ProductNoteReleaseDto) -> bool {
    &&& readable_credit_transition(dto.transition)
    &&& (dto.role@ == "maker"@ || dto.role@ == "taker"@)
    &&& hex_of(dto.reserve_receipt_digest@, 32)
    &&& hex_of(dto.typed_instruction_digest@, 32)
    &&& hex_of(dto.release_nullifier@, 32)
    &&& hex_of(dto.asset_id@, 32)
    &&& hex_of(dto.asset_link_proof_digest@, 32)
    &&& hex_of(dto.escrow_note_id@, 32)
    &&& readable_note_spend(dto.spend)
    &&& dto.seal.body is Ok
}

/// Whether a note release is written out: each field of the text spells the field of its name.
pub open spec fn written_product_note_release(
    dto: ProductNoteReleaseDto,
    value: ProductNoteReleaseOrder,
) -> bool {
    &&& written_credit_transition(dto.transition, value.transition)
    &&& dto.role@ == role_text(value.role)
    &&& spells(dto.reserve_receipt_digest@, value.reserve_receipt_digest)
    &&& spells(dto.typed_instruction_digest@, value.typed_instruction_digest)
    &&& spells(dto.release_nullifier@, value.release_nullifier)
    &&& value.release_deadline == dto.release_deadline
    &&& spells(dto.asset_id@, value.asset_id)
    &&& spells(dto.asset_link_proof_digest@, value.asset_link_proof_digest)
    &&& spells(dto.escrow_note_id@, value.escrow_note_id)
    &&& written_note_spend(dto.spend, value.spend)
    &&& value.seal == dto.seal
}

/// A note release is read exactly where every part of it can be.
pub proof fn law_when_product_note_release_is_read(dto: ProductNoteReleaseDto)
    ensures
        (product_note_release_refusal(dto) is None) == readable_product_note_release(dto),
{
    law_when_credit_transition_is_read(dto.transition, "order.transition"@);
    law_when_note_spend_is_read(dto.spend, "order.spend"@);
}

/// A note release that can be read is read as it is written.
pub proof fn law_product_note_release_is_read_as_written(
    dto: ProductNoteReleaseDto,
    value: ProductNoteReleaseOrder,
)
    requires
        readable_product_note_release(dto),
    ensures
        product_note_release_is(dto, value) == written_product_note_release(dto, value),
{
    lemma_spelling();
    law_reservation_role_is_read_as_written(dto.role@, value.role);
    law_credit_transition_is_read_as_written(dto.transition, value.transition);
    law_note_spend_is_read_as_written(dto.spend, value.spend);
}

/// Whether the transition and the authorization of a reservation can be read, both are
/// well formed, and a taker's authorization is its mandate.
pub open spec fn readable_reservation(dto: ReservationDto) -> bool {
    let authorization = dto.authorization->Ok_0;
    &&& dto.transition is Ok
    &&& readable_credit_transition(dto.transition->Ok_0)
    &&& dto.transition_body is Ok
    &&& dto.authorization is Ok
    &&& readable_reservation_authorization(authorization)
    &&& dto.authorization_body is Ok
    &&& authorization.role@ == "taker"@ ==> hex_id_of(authorization.authorization_digest@)
        == hex_id_of(authorization.mandate_digest@)
}

/// A reservation is read exactly where that holds.
pub proof fn law_when_reservation_is_read(dto: ReservationDto)
    ensures
        (reservation_refusal(dto) is None) == readable_reservation(dto),
{
    let authorization = dto.authorization->Ok_0;
    let transition = dto.transition->Ok_0;
    law_when_credit_transition_is_read(transition, "transition"@);
    law_when_reservation_authorization_is_read(authorization, "authorization"@);
    if readable_reservation_authorization(authorization) {
        law_reservation_role_is_read_as_written(authorization.role@, ReservationRole::Taker);
    }
}

/// A reservation against an account is read exactly where it can be, its escrow can be
/// and is well formed, and the escrow is the one that was signed: between different
/// accounts, on the signed asset, of the reserved amount, under the signed digest.
pub proof fn law_when_an_account_reservation_is_read(
    dto: ReservationDto,
    escrow: Result<ReservationEscrowDto, String>,
    seal: Seal,
)
    ensures
        ({
            let text = escrow->Ok_0;
            let authorization = dto.authorization->Ok_0;
            (product_reservation_refusal(dto, escrow, seal) is None) == {
                &&& readable_reservation(dto)
                &&& escrow is Ok
                &&& readable_reservation_escrow(text)
                &&& seal.body is Ok
                &&& hex_id_of(text.source_handle@) != hex_id_of(text.escrow_handle@)
                &&& hex_id_of(text.asset_id@) == hex_id_of(authorization.asset_id@)
                &&& hex_id_of(text.amount_commitment@) == hex_id_of(
                    dto.transition->Ok_0.amount_commitment@,
                )
                &&& seal.statement == Ok::<Id, String>(hex_id_of(authorization.escrow_digest@))
            }
        }),
{
    law_when_reservation_is_read(dto);
    law_when_reservation_escrow_is_read(escrow->Ok_0);
}

/// A reservation against a note is read exactly where it can be, its escrow can be and
/// is well formed, and the escrow is under the signed digest.
pub proof fn law_when_a_note_reservation_is_read(
    dto: ReservationDto,
    escrow: Result<NoteReservationEscrowDto, String>,
    seal: Seal,
)
    ensures
        ({
            let text = escrow->Ok_0;
            let authorization = dto.authorization->Ok_0;
            (note_product_reservation_refusal(dto, escrow, seal) is None) == {
                &&& readable_reservation(dto)
                &&& escrow is Ok
                &&& readable_note_spend(text.spend)
                &&& hex_of(text.escrow_note_id@, 32)
                &&& hex_of(text.delegation_digest@, 32)
                &&& seal.body is Ok
                &&& seal.statement == Ok::<Id, String>(hex_id_of(authorization.escrow_digest@))
            }
        }),
{
    law_when_reservation_is_read(dto);
    law_when_note_spend_is_read(escrow->Ok_0.spend, "escrow.spend"@);
}

/// The trades of a batch are read exactly where every one of them can be.
pub proof fn law_when_product_orders_are_read(dtos: Seq<ProductSettlementDto>, from: nat)
    ensures
        (product_orders_refusal(dtos, from) is None) == (forall|i: int|
            from <= i < dtos.len() ==> readable_product_order(#[trigger] dtos[i])),
    decreases dtos.len() - from,
{
    if from < dtos.len() {
        law_when_product_order_is_read(
            dtos[from as int],
            indexed_name("orders"@, "["@, from as int),
        );
        law_when_product_orders_are_read(dtos, from + 1);
    }
}

/// The trades between notes of a batch are read exactly where every one of them can be.
pub proof fn law_when_product_note_orders_are_read(dtos: Seq<ProductNoteSettlementDto>, from: nat)
    ensures
        (product_note_orders_refusal(dtos, from) is None) == (forall|i: int|
            from <= i < dtos.len() ==> readable_product_note_order(#[trigger] dtos[i])),
    decreases dtos.len() - from,
{
    if from < dtos.len() {
        law_when_product_note_order_is_read(
            dtos[from as int],
            indexed_name("orders"@, "["@, from as int),
        );
        law_when_product_note_orders_are_read(dtos, from + 1);
    }
}

/// The evidence of a batch is read exactly where every bundle of it can be.
pub proof fn law_when_evidence_bundle_is_read(dtos: Seq<ProductSettlementEvidenceDto>, from: nat)
    ensures
        (evidence_bundle_refusal(dtos, from) is None) == (forall|i: int|
            from <= i < dtos.len() ==> readable_evidence(#[trigger] dtos[i])),
    decreases dtos.len() - from,
{
    if from < dtos.len() {
        law_when_evidence_is_read(
            dtos[from as int],
            indexed_name("evidence"@, "["@, from as int),
        );
        law_when_evidence_bundle_is_read(dtos, from + 1);
    }
}

} // verus!
