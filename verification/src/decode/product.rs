//! Submitted settlements, reservations and releases.

use vstd::prelude::*;

use crate::crypto::{
    base64_bytes, base64_refusal, base64_vec, group_order, is_canonical_scalar,
    is_ristretto_point, le_value, ristretto_point,
};
use crate::decode::credit::{
    credit_transition_from_dto, credit_transition_of, credit_transition_refusal,
    CreditTransitionDto,
};
use crate::decode::kinds::{read_reservation_role, reservation_role_of, reservation_role_refusal};
use crate::decode::lists::{copy_shape, copy_statement, indexed, indexed_name, limit_refusal};
use crate::decode::notes::{
    delegated_is, delegated_note_settlement_from_dto, delegated_refusal, note_spend_from_dto,
    note_spend_is, note_spend_refusal, DelegatedNoteSettlementDto, NoteSpendDto,
};
use crate::endorsement::{statement_of, statement_refusal, Seal};
use crate::id::Id;
use crate::order::{
    CreditFacilityTransition, LaneDigest, NoteProductReservation, NoteReservationEscrow,
    ProductNoteReleaseOrder, ProductNoteSettlementOrder, ProductReleaseOrder, ProductReservation,
    ProductSettlementBatch, ProductSettlementBatchMember, ProductSettlementOrder, ProductTerms,
    ReservationAuthorization, ReservationConsumption, ReservationEscrow, SettlementOrder, StateLeg,
};
use crate::outcome::{first, refusal_of, refuse, repeat, verdict};
use crate::state::ReservationRole;
use crate::text::{hex_id, hex_id_of, hex_refusal, join};

verus! {

/// An account leg, as submitted.
#[derive(Debug)]
pub struct StateLegDto {
    pub handle: String,
    pub asset_id: String,
    pub before_commitment: String,
    pub after_commitment: String,
    pub before_sequence: u64,
}

/// Why an account leg cannot be read.
pub open spec fn state_leg_refusal(dto: StateLegDto, field: Seq<char>) -> Option<Seq<char>> {
    first(hex_refusal(dto.handle@, field + ".handle"@, 32),
    first(hex_refusal(dto.asset_id@, field + ".assetID"@, 32),
    first(hex_refusal(dto.before_commitment@, field + ".beforeCommitment"@, 32),
    hex_refusal(dto.after_commitment@, field + ".afterCommitment"@, 32))))
}

/// An account leg.
pub open spec fn state_leg_of(dto: StateLegDto) -> StateLeg {
    StateLeg {
        handle: hex_id_of(dto.handle@),
        asset_id: hex_id_of(dto.asset_id@),
        before_commitment: hex_id_of(dto.before_commitment@),
        after_commitment: hex_id_of(dto.after_commitment@),
        before_sequence: dto.before_sequence,
    }
}

/// Reads an account leg.
pub fn state_leg_from_dto(dto: &StateLegDto, field: &str) -> (r: Result<StateLeg, String>)
    ensures
        match r {
            Ok(value) => state_leg_refusal(*dto, field@) is None && value == state_leg_of(*dto),
            Err(message) => state_leg_refusal(*dto, field@) == Some(message@),
        },
{
    let handle = hex_id(dto.handle.as_str(), join(field, ".handle").as_str())?;
    let asset_id = hex_id(dto.asset_id.as_str(), join(field, ".assetID").as_str())?;
    let before_commitment = hex_id(
        dto.before_commitment.as_str(),
        join(field, ".beforeCommitment").as_str(),
    )?;
    let after_commitment = hex_id(
        dto.after_commitment.as_str(),
        join(field, ".afterCommitment").as_str(),
    )?;
    Ok(StateLeg {
        handle,
        asset_id,
        before_commitment,
        after_commitment,
        before_sequence: dto.before_sequence,
    })
}

/// Why one of the legs from `from` on cannot be read.
pub open spec fn state_legs_refusal(
    dtos: Seq<StateLegDto>,
    field: Seq<char>,
    from: nat,
) -> Option<Seq<char>>
    decreases dtos.len() - from,
{
    if from >= dtos.len() {
        None
    } else {
        first(state_leg_refusal(dtos[from as int], field + ".legs"@),
        state_legs_refusal(dtos, field, from + 1))
    }
}

fn read_state_legs(dtos: &Vec<StateLegDto>, field: &str) -> (r: Result<Vec<StateLeg>, String>)
    ensures
        match r {
            Ok(values) => {
                &&& state_legs_refusal(dtos@, field@, 0) is None
                &&& values@.len() == dtos@.len()
                &&& forall|i: int|
                    0 <= i < dtos@.len() ==> (#[trigger] values@[i]) == state_leg_of(dtos@[i])
            },
            Err(message) => state_legs_refusal(dtos@, field@, 0) == Some(message@),
        },
{
    let mut values: Vec<StateLeg> = Vec::new();
    let mut index: usize = 0;
    while index < dtos.len()
        invariant
            index <= dtos@.len(),
            values@.len() == index,
            forall|i: int| 0 <= i < index ==> (#[trigger] values@[i]) == state_leg_of(dtos@[i]),
            state_legs_refusal(dtos@, field@, 0) == state_legs_refusal(dtos@, field@, index as nat),
        decreases dtos@.len() - index,
    {
        let value = state_leg_from_dto(&dtos[index], join(field, ".legs").as_str())?;
        values.push(value);
        index = index + 1;
    }
    Ok(values)
}

/// A settlement between accounts, as submitted.
#[derive(Debug)]
pub struct SettlementDto {
    pub operation_id: String,
    pub nullifier: String,
    pub deadline: u64,
    pub payment_instruction_digest: String,
    pub proof_digest: String,
    pub market_statement_digest: String,
    pub legs: Vec<StateLegDto>,
    pub seal: Seal,
}

/// Why a settlement between accounts cannot be read. The verdict on its body is
/// that of whoever reads it.
pub open spec fn settlement_refusal(dto: SettlementDto, field: Seq<char>) -> Option<Seq<char>> {
    first(hex_refusal(dto.operation_id@, field + ".operationID"@, 32),
    first(hex_refusal(dto.nullifier@, field + ".nullifier"@, 32),
    first(
        hex_refusal(dto.payment_instruction_digest@, field + ".paymentInstructionDigest"@, 32),
    first(hex_refusal(dto.proof_digest@, field + ".proofDigest"@, 32),
    first(hex_refusal(dto.market_statement_digest@, field + ".marketStatementDigest"@, 32),
    state_legs_refusal(dto.legs@, field, 0))))))
}

/// Whether a value is a settlement between accounts as submitted.
pub open spec fn settlement_is(dto: SettlementDto, value: SettlementOrder) -> bool {
    &&& value.operation_id == hex_id_of(dto.operation_id@)
    &&& value.nullifier == hex_id_of(dto.nullifier@)
    &&& value.deadline == dto.deadline
    &&& value.payment_instruction_digest == hex_id_of(dto.payment_instruction_digest@)
    &&& value.proof_digest == hex_id_of(dto.proof_digest@)
    &&& value.market_statement_digest == hex_id_of(dto.market_statement_digest@)
    &&& value.legs@.len() == dto.legs@.len()
    &&& forall|i: int|
        0 <= i < dto.legs@.len() ==> (#[trigger] value.legs@[i]) == state_leg_of(dto.legs@[i])
    &&& value.seal == dto.seal
}

/// Reads a settlement between accounts.
pub fn settlement_from_dto(dto: &SettlementDto, field: &str) -> (r: Result<
    SettlementOrder,
    String,
>)
    ensures
        match r {
            Ok(value) => settlement_refusal(*dto, field@) is None && settlement_is(*dto, value),
            Err(message) => settlement_refusal(*dto, field@) == Some(message@),
        },
{
    let operation_id = hex_id(dto.operation_id.as_str(), join(field, ".operationID").as_str())?;
    let nullifier = hex_id(dto.nullifier.as_str(), join(field, ".nullifier").as_str())?;
    let payment_instruction_digest = hex_id(
        dto.payment_instruction_digest.as_str(),
        join(field, ".paymentInstructionDigest").as_str(),
    )?;
    let proof_digest = hex_id(dto.proof_digest.as_str(), join(field, ".proofDigest").as_str())?;
    let market_statement_digest = hex_id(
        dto.market_statement_digest.as_str(),
        join(field, ".marketStatementDigest").as_str(),
    )?;
    let legs = read_state_legs(&dto.legs, field)?;
    Ok(
        SettlementOrder {
            operation_id,
            nullifier,
            deadline: dto.deadline,
            payment_instruction_digest,
            proof_digest,
            market_statement_digest,
            legs,
            seal: dto.seal.copy(),
        },
    )
}

/// A reservation authorization, as submitted.
#[derive(Debug)]
pub struct ReservationAuthorizationDto {
    pub role: String,
    pub entity_commitment: String,
    pub asset_id: String,
    pub direction: u8,
    pub authorization_digest: String,
    pub mandate_digest: String,
    pub typed_reserve_digest: String,
    pub reserve_nullifier: String,
    pub asset_link_proof_digest: String,
    pub limit_price_commitment: String,
    pub escrow_digest: String,
    pub rfq_nullifier: String,
    pub policy_version: u64,
    pub admission_ticket_id: String,
    pub admission_slot: u64,
    pub admission_receipt_digest: String,
    pub admission_epoch: u64,
    pub admission_sequence: u64,
    pub admission_batch_id: String,
}

/// Why a reservation authorization cannot be read.
pub open spec fn reservation_authorization_refusal(
    dto: ReservationAuthorizationDto,
    field: Seq<char>,
) -> Option<Seq<char>> {
    first(reservation_role_refusal(dto.role@, field + ".role"@),
    first(hex_refusal(dto.entity_commitment@, field + ".entityCommitment"@, 32),
    first(hex_refusal(dto.asset_id@, field + ".assetID"@, 32),
    first(hex_refusal(dto.authorization_digest@, field + ".authorizationDigest"@, 32),
    first(hex_refusal(dto.mandate_digest@, field + ".mandateDigest"@, 32),
    first(hex_refusal(dto.typed_reserve_digest@, field + ".typedReserveDigest"@, 32),
    first(hex_refusal(dto.reserve_nullifier@, field + ".reserveNullifier"@, 32),
    first(hex_refusal(dto.asset_link_proof_digest@, field + ".assetLinkProofDigest"@, 32),
    first(hex_refusal(dto.limit_price_commitment@, field + ".limitPriceCommitment"@, 32),
    first(hex_refusal(dto.escrow_digest@, field + ".escrowDigest"@, 32),
    first(hex_refusal(dto.rfq_nullifier@, field + ".rfqNullifier"@, 32),
    first(hex_refusal(dto.admission_ticket_id@, field + ".admissionTicketID"@, 32),
    first(hex_refusal(dto.admission_receipt_digest@, field + ".admissionReceiptDigest"@, 32),
    hex_refusal(dto.admission_batch_id@, field + ".admissionBatchID"@, 32))))))))))))))
}

/// A reservation authorization.
pub open spec fn reservation_authorization_of(
    dto: ReservationAuthorizationDto,
) -> ReservationAuthorization {
    ReservationAuthorization {
        role: reservation_role_of(dto.role@),
        entity_commitment: hex_id_of(dto.entity_commitment@),
        asset_id: hex_id_of(dto.asset_id@),
        direction: dto.direction,
        authorization_digest: hex_id_of(dto.authorization_digest@),
        mandate_digest: hex_id_of(dto.mandate_digest@),
        typed_reserve_digest: hex_id_of(dto.typed_reserve_digest@),
        reserve_nullifier: hex_id_of(dto.reserve_nullifier@),
        asset_link_proof_digest: hex_id_of(dto.asset_link_proof_digest@),
        limit_price_commitment: hex_id_of(dto.limit_price_commitment@),
        escrow_digest: hex_id_of(dto.escrow_digest@),
        rfq_nullifier: hex_id_of(dto.rfq_nullifier@),
        policy_version: dto.policy_version,
        admission_ticket_id: hex_id_of(dto.admission_ticket_id@),
        admission_slot: dto.admission_slot,
        admission_receipt_digest: hex_id_of(dto.admission_receipt_digest@),
        admission_epoch: dto.admission_epoch,
        admission_sequence: dto.admission_sequence,
        admission_batch_id: hex_id_of(dto.admission_batch_id@),
    }
}

/// Reads a reservation authorization.
pub fn reservation_authorization_from_dto(
    dto: &ReservationAuthorizationDto,
    field: &str,
) -> (r: Result<ReservationAuthorization, String>)
    ensures
        match r {
            Ok(value) => {
                &&& reservation_authorization_refusal(*dto, field@) is None
                &&& value == reservation_authorization_of(*dto)
            },
            Err(message) => reservation_authorization_refusal(*dto, field@) == Some(message@),
        },
{
    let role = read_reservation_role(dto.role.as_str(), join(field, ".role").as_str())?;
    let entity_commitment = hex_id(
        dto.entity_commitment.as_str(),
        join(field, ".entityCommitment").as_str(),
    )?;
    let asset_id = hex_id(dto.asset_id.as_str(), join(field, ".assetID").as_str())?;
    let authorization_digest = hex_id(
        dto.authorization_digest.as_str(),
        join(field, ".authorizationDigest").as_str(),
    )?;
    let mandate_digest = hex_id(
        dto.mandate_digest.as_str(),
        join(field, ".mandateDigest").as_str(),
    )?;
    let typed_reserve_digest = hex_id(
        dto.typed_reserve_digest.as_str(),
        join(field, ".typedReserveDigest").as_str(),
    )?;
    let reserve_nullifier = hex_id(
        dto.reserve_nullifier.as_str(),
        join(field, ".reserveNullifier").as_str(),
    )?;
    let asset_link_proof_digest = hex_id(
        dto.asset_link_proof_digest.as_str(),
        join(field, ".assetLinkProofDigest").as_str(),
    )?;
    let limit_price_commitment = hex_id(
        dto.limit_price_commitment.as_str(),
        join(field, ".limitPriceCommitment").as_str(),
    )?;
    let escrow_digest = hex_id(dto.escrow_digest.as_str(), join(field, ".escrowDigest").as_str())?;
    let rfq_nullifier = hex_id(dto.rfq_nullifier.as_str(), join(field, ".rfqNullifier").as_str())?;
    let admission_ticket_id = hex_id(
        dto.admission_ticket_id.as_str(),
        join(field, ".admissionTicketID").as_str(),
    )?;
    let admission_receipt_digest = hex_id(
        dto.admission_receipt_digest.as_str(),
        join(field, ".admissionReceiptDigest").as_str(),
    )?;
    let admission_batch_id = hex_id(
        dto.admission_batch_id.as_str(),
        join(field, ".admissionBatchID").as_str(),
    )?;
    Ok(ReservationAuthorization {
        role,
        entity_commitment,
        asset_id,
        direction: dto.direction,
        authorization_digest,
        mandate_digest,
        typed_reserve_digest,
        reserve_nullifier,
        asset_link_proof_digest,
        limit_price_commitment,
        escrow_digest,
        rfq_nullifier,
        policy_version: dto.policy_version,
        admission_ticket_id,
        admission_slot: dto.admission_slot,
        admission_receipt_digest,
        admission_epoch: dto.admission_epoch,
        admission_sequence: dto.admission_sequence,
        admission_batch_id,
    })
}

/// An account escrow, as submitted.
#[derive(Debug)]
pub struct ReservationEscrowDto {
    pub source_handle: String,
    pub escrow_handle: String,
    pub asset_id: String,
    pub amount_commitment: String,
    pub source_before_commitment: String,
    pub source_after_commitment: String,
    pub source_before_sequence: u64,
    pub proof_digest: String,
}

/// Why an account escrow cannot be read.
pub open spec fn reservation_escrow_refusal(dto: ReservationEscrowDto) -> Option<Seq<char>> {
    first(hex_refusal(dto.source_handle@, "escrow.sourceHandle"@, 32),
    first(hex_refusal(dto.escrow_handle@, "escrow.escrowHandle"@, 32),
    first(hex_refusal(dto.asset_id@, "escrow.assetID"@, 32),
    first(hex_refusal(dto.amount_commitment@, "escrow.amountCommitment"@, 32),
    first(hex_refusal(dto.source_before_commitment@, "escrow.sourceBeforeCommitment"@, 32),
    first(hex_refusal(dto.source_after_commitment@, "escrow.sourceAfterCommitment"@, 32),
    hex_refusal(dto.proof_digest@, "escrow.proofDigest"@, 32)))))))
}

/// An account escrow.
pub open spec fn reservation_escrow_of(dto: ReservationEscrowDto) -> ReservationEscrow {
    ReservationEscrow {
        source_handle: hex_id_of(dto.source_handle@),
        escrow_handle: hex_id_of(dto.escrow_handle@),
        asset_id: hex_id_of(dto.asset_id@),
        amount_commitment: hex_id_of(dto.amount_commitment@),
        source_before_commitment: hex_id_of(dto.source_before_commitment@),
        source_after_commitment: hex_id_of(dto.source_after_commitment@),
        source_before_sequence: dto.source_before_sequence,
        proof_digest: hex_id_of(dto.proof_digest@),
    }
}

/// Reads an account escrow.
pub fn reservation_escrow_from_dto(
    dto: &ReservationEscrowDto,
) -> (r: Result<ReservationEscrow, String>)
    ensures
        match r {
            Ok(value) => reservation_escrow_refusal(*dto) is None && value == reservation_escrow_of(
                *dto,
            ),
            Err(message) => reservation_escrow_refusal(*dto) == Some(message@),
        },
{
    let source_handle = hex_id(dto.source_handle.as_str(), "escrow.sourceHandle")?;
    let escrow_handle = hex_id(dto.escrow_handle.as_str(), "escrow.escrowHandle")?;
    let asset_id = hex_id(dto.asset_id.as_str(), "escrow.assetID")?;
    let amount_commitment = hex_id(dto.amount_commitment.as_str(), "escrow.amountCommitment")?;
    let source_before_commitment = hex_id(
        dto.source_before_commitment.as_str(),
        "escrow.sourceBeforeCommitment",
    )?;
    let source_after_commitment = hex_id(
        dto.source_after_commitment.as_str(),
        "escrow.sourceAfterCommitment",
    )?;
    let proof_digest = hex_id(dto.proof_digest.as_str(), "escrow.proofDigest")?;
    Ok(ReservationEscrow {
        source_handle,
        escrow_handle,
        asset_id,
        amount_commitment,
        source_before_commitment,
        source_after_commitment,
        source_before_sequence: dto.source_before_sequence,
        proof_digest,
    })
}

/// The terms of a trade, as submitted.
#[derive(Debug)]
pub struct ProductTermsDto {
    pub venue_id: String,
    pub defmi_id: String,
    pub maker_entity_commitment: String,
    pub taker_entity_commitment: String,
    pub rfq_nullifier: String,
    pub taker_authorization_digest: String,
    pub maker_policy_digest: String,
    pub maker_mandate_digest: String,
    pub taker_mandate_digest: String,
    pub typed_instruction_digest: String,
    pub quote_proof_digest: String,
    pub price_limit_proof_digest: String,
    pub dvp_proof_digest: String,
    pub quantity_commitment: String,
    pub cash_commitment: String,
    pub traded_asset_id: String,
    pub asset_link_proof_digest: String,
    pub admission_receipt_digest: String,
    pub admission_epoch: u64,
    pub admission_sequence: u64,
}

/// Why the terms of a trade cannot be read.
pub open spec fn product_terms_refusal(
    dto: ProductTermsDto,
    field: Seq<char>,
) -> Option<Seq<char>> {
    first(hex_refusal(dto.venue_id@, field + ".venueID"@, 32),
    first(hex_refusal(dto.defmi_id@, field + ".defmiID"@, 32),
    first(hex_refusal(dto.maker_entity_commitment@, field + ".makerEntityCommitment"@, 32),
    first(hex_refusal(dto.taker_entity_commitment@, field + ".takerEntityCommitment"@, 32),
    first(hex_refusal(dto.rfq_nullifier@, field + ".rfqNullifier"@, 32),
    first(hex_refusal(dto.taker_authorization_digest@, field + ".takerAuthorizationDigest"@, 32),
    first(hex_refusal(dto.maker_policy_digest@, field + ".makerPolicyDigest"@, 32),
    first(hex_refusal(dto.maker_mandate_digest@, field + ".makerMandateDigest"@, 32),
    first(hex_refusal(dto.taker_mandate_digest@, field + ".takerMandateDigest"@, 32),
    first(hex_refusal(dto.typed_instruction_digest@, field + ".typedInstructionDigest"@, 32),
    first(hex_refusal(dto.quote_proof_digest@, field + ".quoteProofDigest"@, 32),
    first(hex_refusal(dto.price_limit_proof_digest@, field + ".priceLimitProofDigest"@, 32),
    first(hex_refusal(dto.dvp_proof_digest@, field + ".dvpProofDigest"@, 32),
    first(hex_refusal(dto.quantity_commitment@, field + ".quantityCommitment"@, 32),
    first(hex_refusal(dto.cash_commitment@, field + ".cashCommitment"@, 32),
    first(hex_refusal(dto.traded_asset_id@, field + ".tradedAssetID"@, 32),
    first(hex_refusal(dto.asset_link_proof_digest@, field + ".assetLinkProofDigest"@, 32),
    hex_refusal(
        dto.admission_receipt_digest@,
        field + ".admissionReceiptDigest"@,
        32,
    ))))))))))))))))))
}

/// The terms of a trade.
pub open spec fn product_terms_of(dto: ProductTermsDto) -> ProductTerms {
    ProductTerms {
        venue_id: hex_id_of(dto.venue_id@),
        defmi_id: hex_id_of(dto.defmi_id@),
        maker_entity_commitment: hex_id_of(dto.maker_entity_commitment@),
        taker_entity_commitment: hex_id_of(dto.taker_entity_commitment@),
        rfq_nullifier: hex_id_of(dto.rfq_nullifier@),
        taker_authorization_digest: hex_id_of(dto.taker_authorization_digest@),
        maker_policy_digest: hex_id_of(dto.maker_policy_digest@),
        maker_mandate_digest: hex_id_of(dto.maker_mandate_digest@),
        taker_mandate_digest: hex_id_of(dto.taker_mandate_digest@),
        typed_instruction_digest: hex_id_of(dto.typed_instruction_digest@),
        quote_proof_digest: hex_id_of(dto.quote_proof_digest@),
        price_limit_proof_digest: hex_id_of(dto.price_limit_proof_digest@),
        dvp_proof_digest: hex_id_of(dto.dvp_proof_digest@),
        quantity_commitment: hex_id_of(dto.quantity_commitment@),
        cash_commitment: hex_id_of(dto.cash_commitment@),
        traded_asset_id: hex_id_of(dto.traded_asset_id@),
        asset_link_proof_digest: hex_id_of(dto.asset_link_proof_digest@),
        admission_receipt_digest: hex_id_of(dto.admission_receipt_digest@),
        admission_epoch: dto.admission_epoch,
        admission_sequence: dto.admission_sequence,
    }
}

/// Reads the terms of a trade.
pub fn product_terms_from_dto(
    dto: &ProductTermsDto,
    field: &str,
) -> (r: Result<ProductTerms, String>)
    ensures
        match r {
            Ok(value) => {
                &&& product_terms_refusal(*dto, field@) is None
                &&& value == product_terms_of(*dto)
            },
            Err(message) => product_terms_refusal(*dto, field@) == Some(message@),
        },
{
    let venue_id = hex_id(dto.venue_id.as_str(), join(field, ".venueID").as_str())?;
    let defmi_id = hex_id(dto.defmi_id.as_str(), join(field, ".defmiID").as_str())?;
    let maker_entity_commitment = hex_id(
        dto.maker_entity_commitment.as_str(),
        join(field, ".makerEntityCommitment").as_str(),
    )?;
    let taker_entity_commitment = hex_id(
        dto.taker_entity_commitment.as_str(),
        join(field, ".takerEntityCommitment").as_str(),
    )?;
    let rfq_nullifier = hex_id(dto.rfq_nullifier.as_str(), join(field, ".rfqNullifier").as_str())?;
    let taker_authorization_digest = hex_id(
        dto.taker_authorization_digest.as_str(),
        join(field, ".takerAuthorizationDigest").as_str(),
    )?;
    let maker_policy_digest = hex_id(
        dto.maker_policy_digest.as_str(),
        join(field, ".makerPolicyDigest").as_str(),
    )?;
    let maker_mandate_digest = hex_id(
        dto.maker_mandate_digest.as_str(),
        join(field, ".makerMandateDigest").as_str(),
    )?;
    let taker_mandate_digest = hex_id(
        dto.taker_mandate_digest.as_str(),
        join(field, ".takerMandateDigest").as_str(),
    )?;
    let typed_instruction_digest = hex_id(
        dto.typed_instruction_digest.as_str(),
        join(field, ".typedInstructionDigest").as_str(),
    )?;
    let quote_proof_digest = hex_id(
        dto.quote_proof_digest.as_str(),
        join(field, ".quoteProofDigest").as_str(),
    )?;
    let price_limit_proof_digest = hex_id(
        dto.price_limit_proof_digest.as_str(),
        join(field, ".priceLimitProofDigest").as_str(),
    )?;
    let dvp_proof_digest = hex_id(
        dto.dvp_proof_digest.as_str(),
        join(field, ".dvpProofDigest").as_str(),
    )?;
    let quantity_commitment = hex_id(
        dto.quantity_commitment.as_str(),
        join(field, ".quantityCommitment").as_str(),
    )?;
    let cash_commitment = hex_id(
        dto.cash_commitment.as_str(),
        join(field, ".cashCommitment").as_str(),
    )?;
    let traded_asset_id = hex_id(
        dto.traded_asset_id.as_str(),
        join(field, ".tradedAssetID").as_str(),
    )?;
    let asset_link_proof_digest = hex_id(
        dto.asset_link_proof_digest.as_str(),
        join(field, ".assetLinkProofDigest").as_str(),
    )?;
    let admission_receipt_digest = hex_id(
        dto.admission_receipt_digest.as_str(),
        join(field, ".admissionReceiptDigest").as_str(),
    )?;
    Ok(ProductTerms {
        venue_id,
        defmi_id,
        maker_entity_commitment,
        taker_entity_commitment,
        rfq_nullifier,
        taker_authorization_digest,
        maker_policy_digest,
        maker_mandate_digest,
        taker_mandate_digest,
        typed_instruction_digest,
        quote_proof_digest,
        price_limit_proof_digest,
        dvp_proof_digest,
        quantity_commitment,
        cash_commitment,
        traded_asset_id,
        asset_link_proof_digest,
        admission_receipt_digest,
        admission_epoch: dto.admission_epoch,
        admission_sequence: dto.admission_sequence,
    })
}

/// The use of a reservation, as submitted.
#[derive(Debug)]
pub struct ReservationConsumptionDto {
    pub role: String,
    pub reserve_receipt_digest: String,
    pub transition: CreditTransitionDto,
    pub transition_statement: Result<Id, String>,
}

/// Why the use of a reservation cannot be read.
pub open spec fn consumption_refusal(
    dto: ReservationConsumptionDto,
    field: Seq<char>,
) -> Option<Seq<char>> {
    first(reservation_role_refusal(dto.role@, field + ".role"@),
    first(hex_refusal(dto.reserve_receipt_digest@, field + ".reserveReceiptDigest"@, 32),
    credit_transition_refusal(dto.transition, field + ".transition"@)))
}

/// The use of a reservation.
pub open spec fn consumption_of(dto: ReservationConsumptionDto) -> ReservationConsumption {
    ReservationConsumption {
        role: reservation_role_of(dto.role@),
        reserve_receipt_digest: hex_id_of(dto.reserve_receipt_digest@),
        transition: credit_transition_of(dto.transition),
        transition_statement: dto.transition_statement,
    }
}

/// Reads the use of a reservation.
pub fn consumption_from_dto(dto: &ReservationConsumptionDto, field: &str) -> (r: Result<
    ReservationConsumption,
    String,
>)
    ensures
        match r {
            Ok(value) => {
                &&& consumption_refusal(*dto, field@) is None
                &&& value == consumption_of(*dto)
            },
            Err(message) => consumption_refusal(*dto, field@) == Some(message@),
        },
{
    let role = read_reservation_role(dto.role.as_str(), join(field, ".role").as_str())?;
    let reserve_receipt_digest = hex_id(
        dto.reserve_receipt_digest.as_str(),
        join(field, ".reserveReceiptDigest").as_str(),
    )?;
    let transition = credit_transition_from_dto(
        &dto.transition,
        join(field, ".transition").as_str(),
    )?;
    Ok(
        ReservationConsumption {
            role,
            reserve_receipt_digest,
            transition,
            transition_statement: copy_statement(&dto.transition_statement),
        },
    )
}

/// Why one of the uses of reservations from `from` on cannot be read.
pub open spec fn consumptions_refusal(
    dtos: Seq<ReservationConsumptionDto>,
    field: Seq<char>,
    from: nat,
) -> Option<Seq<char>>
    decreases dtos.len() - from,
{
    if from >= dtos.len() {
        None
    } else {
        first(consumption_refusal(dtos[from as int], field + ".reservations"@),
        consumptions_refusal(dtos, field, from + 1))
    }
}

fn read_consumptions(
    dtos: &Vec<ReservationConsumptionDto>,
    field: &str,
) -> (r: Result<Vec<ReservationConsumption>, String>)
    ensures
        match r {
            Ok(values) => {
                &&& consumptions_refusal(dtos@, field@, 0) is None
                &&& values@.len() == dtos@.len()
                &&& forall|i: int|
                    0 <= i < dtos@.len() ==> (#[trigger] values@[i]) == consumption_of(dtos@[i])
            },
            Err(message) => consumptions_refusal(dtos@, field@, 0) == Some(message@),
        },
{
    let mut values: Vec<ReservationConsumption> = Vec::new();
    let mut index: usize = 0;
    while index < dtos.len()
        invariant
            index <= dtos@.len(),
            values@.len() == index,
            forall|i: int| 0 <= i < index ==> (#[trigger] values@[i]) == consumption_of(dtos@[i]),
            consumptions_refusal(dtos@, field@, 0) == consumptions_refusal(
                dtos@,
                field@,
                index as nat,
            ),
        decreases dtos@.len() - index,
    {
        let value = consumption_from_dto(&dtos[index], join(field, ".reservations").as_str())?;
        values.push(value);
        index = index + 1;
    }
    Ok(values)
}

/// A product settlement, as submitted.
#[derive(Debug)]
pub struct ProductSettlementDto {
    pub settlement: SettlementDto,
    pub terms: ProductTermsDto,
    pub reservations: Vec<ReservationConsumptionDto>,
    pub seal: Seal,
}

/// Why a product settlement cannot be read. A trade has at most two reservations.
pub open spec fn product_order_refusal(
    dto: ProductSettlementDto,
    field: Seq<char>,
) -> Option<Seq<char>> {
    first(limit_refusal(dto.reservations@.len(), 2, field + " contains too many reservations"@),
    first(settlement_refusal(dto.settlement, field + ".settlement"@),
    first(consumptions_refusal(dto.reservations@, field, 0),
    first(product_terms_refusal(dto.terms, field),
    refusal_of(dto.seal.body)))))
}

/// Whether a value is a product settlement as submitted.
pub open spec fn product_order_is(
    dto: ProductSettlementDto,
    value: ProductSettlementOrder,
) -> bool {
    &&& settlement_is(dto.settlement, value.settlement)
    &&& value.terms == product_terms_of(dto.terms)
    &&& value.reservations@.len() == dto.reservations@.len()
    &&& forall|i: int|
        0 <= i < dto.reservations@.len() ==> (#[trigger] value.reservations@[i])
            == consumption_of(dto.reservations@[i])
    &&& value.seal == dto.seal
}

/// Reads a product settlement.
pub fn product_order_from_dto(
    dto: &ProductSettlementDto,
    field: &str,
) -> (r: Result<ProductSettlementOrder, String>)
    ensures
        match r {
            Ok(value) => product_order_refusal(*dto, field@) is None && product_order_is(
                *dto,
                value,
            ),
            Err(message) => product_order_refusal(*dto, field@) == Some(message@),
        },
{
    if dto.reservations.len() > 2 {
        return Err(join(field, " contains too many reservations"));
    }
    let settlement = settlement_from_dto(
        &dto.settlement,
        join(field, ".settlement").as_str(),
    )?;
    let reservations = read_consumptions(&dto.reservations, field)?;
    let terms = product_terms_from_dto(&dto.terms, field)?;
    repeat(&dto.seal.body)?;
    Ok(ProductSettlementOrder { settlement, terms, reservations, seal: dto.seal.copy() })
}

/// An anonymous product settlement, as submitted.
#[derive(Debug)]
pub struct ProductNoteSettlementDto {
    pub settlement: DelegatedNoteSettlementDto,
    pub terms: ProductTermsDto,
    pub reservations: Vec<ReservationConsumptionDto>,
    pub seal: Seal,
}

/// Why an anonymous product settlement cannot be read. A trade has at most two reservations.
pub open spec fn product_note_order_refusal(
    dto: ProductNoteSettlementDto,
    field: Seq<char>,
) -> Option<Seq<char>> {
    first(limit_refusal(dto.reservations@.len(), 2, field + " contains too many reservations"@),
    first(consumptions_refusal(dto.reservations@, field, 0),
    first(delegated_refusal(dto.settlement, field + ".settlement"@),
    first(product_terms_refusal(dto.terms, field),
    refusal_of(dto.seal.body)))))
}

/// Whether a value is an anonymous product settlement as submitted.
pub open spec fn product_note_order_is(
    dto: ProductNoteSettlementDto,
    value: ProductNoteSettlementOrder,
) -> bool {
    &&& delegated_is(dto.settlement, value.settlement)
    &&& value.terms == product_terms_of(dto.terms)
    &&& value.reservations@.len() == dto.reservations@.len()
    &&& forall|i: int|
        0 <= i < dto.reservations@.len() ==> (#[trigger] value.reservations@[i])
            == consumption_of(dto.reservations@[i])
    &&& value.seal == dto.seal
}

/// Reads an anonymous product settlement.
pub fn product_note_order_from_dto(
    dto: &ProductNoteSettlementDto,
    field: &str,
) -> (r: Result<ProductNoteSettlementOrder, String>)
    ensures
        match r {
            Ok(value) => product_note_order_refusal(*dto, field@) is None && product_note_order_is(
                *dto,
                value,
            ),
            Err(message) => product_note_order_refusal(*dto, field@) == Some(message@),
        },
{
    if dto.reservations.len() > 2 {
        return Err(join(field, " contains too many reservations"));
    }
    let reservations = read_consumptions(&dto.reservations, field)?;
    let settlement = delegated_note_settlement_from_dto(
        &dto.settlement,
        join(field, ".settlement").as_str(),
    )?;
    let terms = product_terms_from_dto(&dto.terms, field)?;
    repeat(&dto.seal.body)?;
    Ok(ProductNoteSettlementOrder { settlement, terms, reservations, seal: dto.seal.copy() })
}

/// Why one of the orders from `from` on cannot be read.
pub open spec fn product_orders_refusal(
    dtos: Seq<ProductSettlementDto>,
    from: nat,
) -> Option<Seq<char>>
    decreases dtos.len() - from,
{
    if from >= dtos.len() {
        None
    } else {
        first(product_order_refusal(dtos[from as int], indexed_name("orders"@, "["@, from as int)),
        product_orders_refusal(dtos, from + 1))
    }
}

/// Reads the product orders of a batch.
pub fn read_product_orders(
    dtos: &Vec<ProductSettlementDto>,
) -> (r: Result<Vec<ProductSettlementOrder>, String>)
    ensures
        match r {
            Ok(values) => {
                &&& first(
                    limit_refusal(dtos@.len(), 4096, "batch contains too many settlement orders"@),
                    product_orders_refusal(dtos@, 0),
                ) is None
                &&& values@.len() == dtos@.len()
                &&& forall|i: int| 0 <= i < dtos@.len() ==> product_order_is(
                    dtos@[i],
                    (#[trigger] values@[i]),
                )
            },
            Err(message) => first(
                limit_refusal(
                    dtos@.len(),
                    4096,
                    "batch contains too many settlement orders"@,
                ),
                product_orders_refusal(dtos@, 0),
            ) == Some(message@),
        },
{
    if dtos.len() > 4096 {
        return refuse("batch contains too many settlement orders");
    }
    let mut values: Vec<ProductSettlementOrder> = Vec::new();
    let mut index: usize = 0;
    while index < dtos.len()
        invariant
            index <= dtos@.len(),
            values@.len() == index,
            dtos@.len() <= 4096,
            forall|i: int| 0 <= i < index ==> product_order_is(dtos@[i], (#[trigger] values@[i])),
            product_orders_refusal(dtos@, 0) == product_orders_refusal(dtos@, index as nat),
        decreases dtos@.len() - index,
    {
        let name = indexed("orders", "[", index);
        let value = product_order_from_dto(&dtos[index], name.as_str())?;
        values.push(value);
        index = index + 1;
    }
    Ok(values)
}

/// Why one of the orders from `from` on cannot be read.
pub open spec fn product_note_orders_refusal(
    dtos: Seq<ProductNoteSettlementDto>,
    from: nat,
) -> Option<Seq<char>>
    decreases dtos.len() - from,
{
    if from >= dtos.len() {
        None
    } else {
        first(product_note_order_refusal(
            dtos[from as int],
            indexed_name("orders"@, "["@, from as int),
        ),
        product_note_orders_refusal(dtos, from + 1))
    }
}

/// Reads the product note orders of a batch.
pub fn read_product_note_orders(
    dtos: &Vec<ProductNoteSettlementDto>,
) -> (r: Result<Vec<ProductNoteSettlementOrder>, String>)
    ensures
        match r {
            Ok(values) => {
                &&& first(
                    limit_refusal(
                        dtos@.len(),
                        4096,
                        "anonymous batch contains too many settlement orders"@,
                    ),
                    product_note_orders_refusal(dtos@, 0),
                ) is None
                &&& values@.len() == dtos@.len()
                &&& forall|i: int| 0 <= i < dtos@.len() ==> product_note_order_is(
                    dtos@[i],
                    (#[trigger] values@[i]),
                )
            },
            Err(message) => first(
                limit_refusal(
                    dtos@.len(),
                    4096,
                    "anonymous batch contains too many settlement orders"@,
                ),
                product_note_orders_refusal(dtos@, 0),
            ) == Some(message@),
        },
{
    if dtos.len() > 4096 {
        return refuse("anonymous batch contains too many settlement orders");
    }
    let mut values: Vec<ProductNoteSettlementOrder> = Vec::new();
    let mut index: usize = 0;
    while index < dtos.len()
        invariant
            index <= dtos@.len(),
            values@.len() == index,
            dtos@.len() <= 4096,
            forall|i: int| 0 <= i < index ==> product_note_order_is(
                dtos@[i],
                (#[trigger] values@[i]),
            ),
            product_note_orders_refusal(dtos@, 0) == product_note_orders_refusal(
                dtos@,
                index as nat,
            ),
        decreases dtos@.len() - index,
    {
        let name = indexed("orders", "[", index);
        let value = product_note_order_from_dto(&dtos[index], name.as_str())?;
        values.push(value);
        index = index + 1;
    }
    Ok(values)
}

/// One settlement of a batch, as submitted.
#[derive(Debug)]
pub struct ProductSettlementBatchMemberDto {
    pub admission_sequence: u64,
    pub settlement_statement: String,
}

/// A batch of settlements, as submitted.
#[derive(Debug)]
pub struct ProductSettlementBatchDto {
    pub batch_id: String,
    pub venue_id: String,
    pub defmi_id: String,
    pub admission_epoch: u64,
    pub members: Vec<ProductSettlementBatchMemberDto>,
    pub seal: Seal,
}

/// Why one of the members from `from` on cannot be read.
pub open spec fn members_refusal(
    members: Seq<ProductSettlementBatchMemberDto>,
    from: nat,
) -> Option<Seq<char>>
    decreases members.len() - from,
{
    if from >= members.len() {
        None
    } else {
        first(
            hex_refusal(
                members[from as int].settlement_statement@,
                "batch.members.settlementStatement"@,
                32,
            ),
            members_refusal(members, from + 1),
        )
    }
}

/// One settlement of a batch.
pub open spec fn member_of(dto: ProductSettlementBatchMemberDto) -> ProductSettlementBatchMember {
    ProductSettlementBatchMember {
        admission_sequence: dto.admission_sequence,
        settlement_statement: hex_id_of(dto.settlement_statement@),
    }
}

fn read_members(dtos: &Vec<ProductSettlementBatchMemberDto>) -> (r: Result<
    Vec<ProductSettlementBatchMember>,
    String,
>)
    ensures
        match r {
            Ok(values) => {
                &&& members_refusal(dtos@, 0) is None
                &&& values@.len() == dtos@.len()
                &&& forall|i: int|
                    0 <= i < dtos@.len() ==> (#[trigger] values@[i]) == member_of(dtos@[i])
            },
            Err(message) => members_refusal(dtos@, 0) == Some(message@),
        },
{
    let mut values: Vec<ProductSettlementBatchMember> = Vec::new();
    let mut index: usize = 0;
    while index < dtos.len()
        invariant
            index <= dtos@.len(),
            values@.len() == index,
            forall|i: int| 0 <= i < index ==> (#[trigger] values@[i]) == member_of(dtos@[i]),
            members_refusal(dtos@, 0) == members_refusal(dtos@, index as nat),
        decreases dtos@.len() - index,
    {
        let member = &dtos[index];
        let settlement_statement = hex_id(
            member.settlement_statement.as_str(),
            "batch.members.settlementStatement",
        )?;
        values.push(
            ProductSettlementBatchMember {
                admission_sequence: member.admission_sequence,
                settlement_statement,
            },
        );
        index = index + 1;
    }
    Ok(values)
}

/// Why a batch of settlements cannot be read; `crowded` says that it has too
/// many members.
pub open spec fn product_batch_refusal(
    dto: ProductSettlementBatchDto,
    crowded: Seq<char>,
) -> Option<Seq<char>> {
    first(limit_refusal(dto.members@.len(), 4096, crowded),
    first(hex_refusal(dto.batch_id@, "batch.batchID"@, 32),
    first(hex_refusal(dto.venue_id@, "batch.venueID"@, 32),
    first(hex_refusal(dto.defmi_id@, "batch.defmiID"@, 32),
    members_refusal(dto.members@, 0)))))
}

/// Whether a value is a batch of settlements as submitted.
pub open spec fn product_batch_is(
    dto: ProductSettlementBatchDto,
    value: ProductSettlementBatch,
) -> bool {
    &&& value.batch_id == hex_id_of(dto.batch_id@)
    &&& value.venue_id == hex_id_of(dto.venue_id@)
    &&& value.defmi_id == hex_id_of(dto.defmi_id@)
    &&& value.admission_epoch == dto.admission_epoch
    &&& value.members@.len() == dto.members@.len()
    &&& forall|i: int|
        0 <= i < dto.members@.len() ==> (#[trigger] value.members@[i]) == member_of(
            dto.members@[i],
        )
    &&& value.seal == dto.seal
}

fn read_batch(dto: &ProductSettlementBatchDto, crowded: &str) -> (r: Result<
    ProductSettlementBatch,
    String,
>)
    ensures
        match r {
            Ok(value) => product_batch_refusal(*dto, crowded@) is None && product_batch_is(
                *dto,
                value,
            ),
            Err(message) => product_batch_refusal(*dto, crowded@) == Some(message@),
        },
{
    if dto.members.len() > 4096 {
        return refuse(crowded);
    }
    let batch_id = hex_id(dto.batch_id.as_str(), "batch.batchID")?;
    let venue_id = hex_id(dto.venue_id.as_str(), "batch.venueID")?;
    let defmi_id = hex_id(dto.defmi_id.as_str(), "batch.defmiID")?;
    let members = read_members(&dto.members)?;
    Ok(
        ProductSettlementBatch {
            batch_id,
            venue_id,
            defmi_id,
            admission_epoch: dto.admission_epoch,
            members,
            seal: dto.seal.copy(),
        },
    )
}

/// Reads a batch of settlements between accounts.
pub fn product_batch_from_dto(dto: &ProductSettlementBatchDto) -> (r: Result<
    ProductSettlementBatch,
    String,
>)
    ensures
        match r {
            Ok(value) => product_batch_refusal(
                *dto,
                "batch contains too many settlement members"@,
            ) is None && product_batch_is(*dto, value),
            Err(message) => product_batch_refusal(
                *dto,
                "batch contains too many settlement members"@,
            ) == Some(message@),
        },
{
    read_batch(dto, "batch contains too many settlement members")
}

/// Reads a batch of settlements between notes.
pub fn note_product_batch_from_dto(dto: &ProductSettlementBatchDto) -> (r: Result<
    ProductSettlementBatch,
    String,
>)
    ensures
        match r {
            Ok(value) => product_batch_refusal(
                *dto,
                "anonymous batch contains too many settlement members"@,
            ) is None && product_batch_is(*dto, value),
            Err(message) => product_batch_refusal(
                *dto,
                "anonymous batch contains too many settlement members"@,
            ) == Some(message@),
        },
{
    read_batch(dto, "anonymous batch contains too many settlement members")
}

/// The evidence of a settlement, as submitted. `shape` is the verdict on the
/// decoded encoding.
#[derive(Debug)]
pub struct ProductSettlementEvidenceDto {
    pub typed_instruction: String,
    pub quote_verification: String,
    pub price_limit_proof: String,
    pub dvp_proofs: String,
    pub mpc_execution_attestations: String,
    pub announcement: String,
    pub response: String,
    pub shape: Result<(), String>,
}

/// The evidence of a settlement, decoded.
#[derive(Debug)]
pub struct ProductSettlementEvidence {
    pub typed_instruction: Vec<u8>,
    pub quote_verification: Vec<u8>,
    pub price_limit_proof: Vec<u8>,
    pub dvp_proofs: Vec<u8>,
    pub mpc_execution_attestations: Vec<u8>,
    pub announcement: Id,
    pub response: Id,
}

/// Why the link to the traded asset cannot be read.
pub open spec fn asset_link_refusal(
    dto: ProductSettlementEvidenceDto,
    field: Seq<char>,
) -> Option<Seq<char>> {
    let announcement = field + ".assetLink.announcement"@;
    let response = field + ".assetLink.response"@;
    if hex_refusal(dto.announcement@, announcement, 32) is Some {
        hex_refusal(dto.announcement@, announcement, 32)
    } else if !ristretto_point(hex_id_of(dto.announcement@).0) {
        Some(announcement + " is not canonical"@)
    } else if hex_refusal(dto.response@, response, 32) is Some {
        hex_refusal(dto.response@, response, 32)
    } else if le_value(hex_id_of(dto.response@).0@) >= group_order() {
        Some(response + " is not canonical"@)
    } else {
        None
    }
}

/// Why the evidence of a settlement cannot be read.
pub open spec fn evidence_refusal(dto: ProductSettlementEvidenceDto, field: Seq<char>) -> Option<
    Seq<char>,
> {
    first(asset_link_refusal(dto, field),
    first(base64_refusal(dto.typed_instruction@, field + ".typedInstruction"@),
    first(base64_refusal(dto.quote_verification@, field + ".quoteVerification"@),
    first(base64_refusal(dto.price_limit_proof@, field + ".priceLimitProof"@),
    first(base64_refusal(dto.dvp_proofs@, field + ".dvpProofs"@),
    first(
        base64_refusal(dto.mpc_execution_attestations@, field + ".mpcExecutionAttestations"@),
    refusal_of(dto.shape)))))))
}

/// Whether a value is the evidence of a settlement as submitted.
pub open spec fn evidence_is(
    dto: ProductSettlementEvidenceDto,
    value: ProductSettlementEvidence,
) -> bool {
    &&& base64_bytes(dto.typed_instruction@) == Some(value.typed_instruction@)
    &&& base64_bytes(dto.quote_verification@) == Some(value.quote_verification@)
    &&& base64_bytes(dto.price_limit_proof@) == Some(value.price_limit_proof@)
    &&& base64_bytes(dto.dvp_proofs@) == Some(value.dvp_proofs@)
    &&& base64_bytes(dto.mpc_execution_attestations@) == Some(
        value.mpc_execution_attestations@,
    )
    &&& value.announcement == hex_id_of(dto.announcement@)
    &&& value.response == hex_id_of(dto.response@)
}

/// Reads the evidence of a settlement.
pub fn product_settlement_evidence_from_dto(
    dto: &ProductSettlementEvidenceDto,
    field: &str,
) -> (r: Result<ProductSettlementEvidence, String>)
    ensures
        match r {
            Ok(value) => evidence_refusal(*dto, field@) is None && evidence_is(*dto, value),
            Err(message) => evidence_refusal(*dto, field@) == Some(message@),
        },
{
    let announcement_name = join(field, ".assetLink.announcement");
    let announcement = hex_id(dto.announcement.as_str(), announcement_name.as_str())?;
    if !is_ristretto_point(&announcement) {
        return Err(join(announcement_name.as_str(), " is not canonical"));
    }
    let response_name = join(field, ".assetLink.response");
    let response = hex_id(dto.response.as_str(), response_name.as_str())?;
    if !is_canonical_scalar(&response) {
        return Err(join(response_name.as_str(), " is not canonical"));
    }
    let typed_instruction = base64_vec(
        dto.typed_instruction.as_str(),
        join(field, ".typedInstruction").as_str(),
    )?;
    let quote_verification = base64_vec(
        dto.quote_verification.as_str(),
        join(field, ".quoteVerification").as_str(),
    )?;
    let price_limit_proof = base64_vec(
        dto.price_limit_proof.as_str(),
        join(field, ".priceLimitProof").as_str(),
    )?;
    let dvp_proofs = base64_vec(dto.dvp_proofs.as_str(), join(field, ".dvpProofs").as_str())?;
    let mpc_execution_attestations = base64_vec(
        dto.mpc_execution_attestations.as_str(),
        join(field, ".mpcExecutionAttestations").as_str(),
    )?;
    repeat(&dto.shape)?;
    Ok(
        ProductSettlementEvidence {
            typed_instruction,
            quote_verification,
            price_limit_proof,
            dvp_proofs,
            mpc_execution_attestations,
            announcement,
            response,
        },
    )
}

/// Why one of the bundles from `from` on cannot be read.
pub open spec fn evidence_bundle_refusal(
    dtos: Seq<ProductSettlementEvidenceDto>,
    from: nat,
) -> Option<Seq<char>>
    decreases dtos.len() - from,
{
    if from >= dtos.len() {
        None
    } else {
        first(evidence_refusal(dtos[from as int], indexed_name("evidence"@, "["@, from as int)),
        evidence_bundle_refusal(dtos, from + 1))
    }
}

/// Reads the evidence of a batch: one bundle for each of `orders` settlements.
pub fn read_evidence_bundle(dtos: &Vec<ProductSettlementEvidenceDto>, orders: usize) -> (r: Result<
    Vec<ProductSettlementEvidence>,
    String,
>)
    ensures
        match r {
            Ok(values) => {
                &&& dtos@.len() == orders
                &&& evidence_bundle_refusal(dtos@, 0) is None
                &&& values@.len() == dtos@.len()
                &&& forall|i: int|
                    0 <= i < dtos@.len() ==> evidence_is(dtos@[i], (#[trigger] values@[i]))
            },
            Err(message) => if dtos@.len() != orders {
                message@ == "anonymous batch must carry one complete proof bundle per order"@
            } else {
                evidence_bundle_refusal(dtos@, 0) == Some(message@)
            },
        },
{
    if dtos.len() != orders {
        return refuse("anonymous batch must carry one complete proof bundle per order");
    }
    let mut values: Vec<ProductSettlementEvidence> = Vec::new();
    let mut index: usize = 0;
    while index < dtos.len()
        invariant
            index <= dtos@.len() == orders,
            values@.len() == index,
            forall|i: int| 0 <= i < index ==> evidence_is(dtos@[i], (#[trigger] values@[i])),
            evidence_bundle_refusal(dtos@, 0) == evidence_bundle_refusal(dtos@, index as nat),
        decreases dtos@.len() - index,
    {
        let name = indexed("evidence", "[", index);
        let value = product_settlement_evidence_from_dto(&dtos[index], name.as_str())?;
        values.push(value);
        index = index + 1;
    }
    Ok(values)
}

/// The release of an account reservation, as submitted.
#[derive(Debug)]
pub struct ProductReleaseDto {
    pub transition: CreditTransitionDto,
    pub role: String,
    pub reserve_receipt_digest: String,
    pub typed_instruction_digest: String,
    pub release_nullifier: String,
    pub release_deadline: u64,
    pub asset_id: String,
    pub asset_link_proof_digest: String,
    pub refund_leg: StateLegDto,
    pub seal: Seal,
}

/// Why the release of an account reservation cannot be read.
pub open spec fn product_release_refusal(dto: ProductReleaseDto) -> Option<Seq<char>> {
    first(state_leg_refusal(dto.refund_leg, "order.refundLeg"@),
    first(credit_transition_refusal(dto.transition, "order.transition"@),
    first(reservation_role_refusal(dto.role@, "order.role"@),
    first(hex_refusal(dto.reserve_receipt_digest@, "order.reserveReceiptDigest"@, 32),
    first(hex_refusal(dto.typed_instruction_digest@, "order.typedInstructionDigest"@, 32),
    first(hex_refusal(dto.release_nullifier@, "order.releaseNullifier"@, 32),
    first(hex_refusal(dto.asset_id@, "order.assetID"@, 32),
    first(hex_refusal(dto.asset_link_proof_digest@, "order.assetLinkProofDigest"@, 32),
    refusal_of(dto.seal.body)))))))))
}

/// The release of an account reservation.
pub open spec fn product_release_of(dto: ProductReleaseDto) -> ProductReleaseOrder {
    ProductReleaseOrder {
        transition: credit_transition_of(dto.transition),
        role: reservation_role_of(dto.role@),
        reserve_receipt_digest: hex_id_of(dto.reserve_receipt_digest@),
        typed_instruction_digest: hex_id_of(dto.typed_instruction_digest@),
        release_nullifier: hex_id_of(dto.release_nullifier@),
        release_deadline: dto.release_deadline,
        asset_id: hex_id_of(dto.asset_id@),
        asset_link_proof_digest: hex_id_of(dto.asset_link_proof_digest@),
        refund_leg: state_leg_of(dto.refund_leg),
        seal: dto.seal,
    }
}

/// Reads the release of an account reservation.
pub fn product_release_from_dto(dto: &ProductReleaseDto) -> (r: Result<
    ProductReleaseOrder,
    String,
>)
    ensures
        match r {
            Ok(value) => product_release_refusal(*dto) is None && value == product_release_of(
                *dto,
            ),
            Err(message) => product_release_refusal(*dto) == Some(message@),
        },
{
    let refund_leg = state_leg_from_dto(&dto.refund_leg, "order.refundLeg")?;
    let transition = credit_transition_from_dto(&dto.transition, "order.transition")?;
    let role = read_reservation_role(dto.role.as_str(), "order.role")?;
    let reserve_receipt_digest = hex_id(
        dto.reserve_receipt_digest.as_str(),
        "order.reserveReceiptDigest",
    )?;
    let typed_instruction_digest = hex_id(
        dto.typed_instruction_digest.as_str(),
        "order.typedInstructionDigest",
    )?;
    let release_nullifier = hex_id(dto.release_nullifier.as_str(), "order.releaseNullifier")?;
    let asset_id = hex_id(dto.asset_id.as_str(), "order.assetID")?;
    let asset_link_proof_digest = hex_id(
        dto.asset_link_proof_digest.as_str(),
        "order.assetLinkProofDigest",
    )?;
    repeat(&dto.seal.body)?;
    Ok(
        ProductReleaseOrder {
            transition,
            role,
            reserve_receipt_digest,
            typed_instruction_digest,
            release_nullifier,
            release_deadline: dto.release_deadline,
            asset_id,
            asset_link_proof_digest,
            refund_leg,
            seal: dto.seal.copy(),
        },
    )
}

/// The release of a note reservation, as submitted.
#[derive(Debug)]
pub struct ProductNoteReleaseDto {
    pub transition: CreditTransitionDto,
    pub role: String,
    pub reserve_receipt_digest: String,
    pub typed_instruction_digest: String,
    pub release_nullifier: String,
    pub release_deadline: u64,
    pub asset_id: String,
    pub asset_link_proof_digest: String,
    pub escrow_note_id: String,
    pub spend: NoteSpendDto,
    pub seal: Seal,
}

/// Why the release of a note reservation cannot be read.
pub open spec fn product_note_release_refusal(dto: ProductNoteReleaseDto) -> Option<Seq<char>> {
    first(credit_transition_refusal(dto.transition, "order.transition"@),
    first(reservation_role_refusal(dto.role@, "order.role"@),
    first(hex_refusal(dto.reserve_receipt_digest@, "order.reserveReceiptDigest"@, 32),
    first(hex_refusal(dto.typed_instruction_digest@, "order.typedInstructionDigest"@, 32),
    first(hex_refusal(dto.release_nullifier@, "order.releaseNullifier"@, 32),
    first(hex_refusal(dto.asset_id@, "order.assetID"@, 32),
    first(hex_refusal(dto.asset_link_proof_digest@, "order.assetLinkProofDigest"@, 32),
    first(hex_refusal(dto.escrow_note_id@, "order.escrowNoteID"@, 32),
    first(note_spend_refusal(dto.spend, "order.spend"@),
    refusal_of(dto.seal.body))))))))))
}

/// Whether a value is the release of a note reservation as submitted.
pub open spec fn product_note_release_is(
    dto: ProductNoteReleaseDto,
    value: ProductNoteReleaseOrder,
) -> bool {
    &&& value.transition == credit_transition_of(dto.transition)
    &&& value.role == reservation_role_of(dto.role@)
    &&& value.reserve_receipt_digest == hex_id_of(dto.reserve_receipt_digest@)
    &&& value.typed_instruction_digest == hex_id_of(dto.typed_instruction_digest@)
    &&& value.release_nullifier == hex_id_of(dto.release_nullifier@)
    &&& value.release_deadline == dto.release_deadline
    &&& value.asset_id == hex_id_of(dto.asset_id@)
    &&& value.asset_link_proof_digest == hex_id_of(dto.asset_link_proof_digest@)
    &&& value.escrow_note_id == hex_id_of(dto.escrow_note_id@)
    &&& note_spend_is(dto.spend, value.spend)
    &&& value.seal == dto.seal
}

/// Reads the release of a note reservation.
pub fn product_note_release_from_dto(dto: &ProductNoteReleaseDto) -> (r: Result<
    ProductNoteReleaseOrder,
    String,
>)
    ensures
        match r {
            Ok(value) => product_note_release_refusal(*dto) is None && product_note_release_is(
                *dto,
                value,
            ),
            Err(message) => product_note_release_refusal(*dto) == Some(message@),
        },
{
    let transition = credit_transition_from_dto(&dto.transition, "order.transition")?;
    let role = read_reservation_role(dto.role.as_str(), "order.role")?;
    let reserve_receipt_digest = hex_id(
        dto.reserve_receipt_digest.as_str(),
        "order.reserveReceiptDigest",
    )?;
    let typed_instruction_digest = hex_id(
        dto.typed_instruction_digest.as_str(),
        "order.typedInstructionDigest",
    )?;
    let release_nullifier = hex_id(dto.release_nullifier.as_str(), "order.releaseNullifier")?;
    let asset_id = hex_id(dto.asset_id.as_str(), "order.assetID")?;
    let asset_link_proof_digest = hex_id(
        dto.asset_link_proof_digest.as_str(),
        "order.assetLinkProofDigest",
    )?;
    let escrow_note_id = hex_id(dto.escrow_note_id.as_str(), "order.escrowNoteID")?;
    let spend = note_spend_from_dto(&dto.spend, "order.spend")?;
    repeat(&dto.seal.body)?;
    Ok(
        ProductNoteReleaseOrder {
            transition,
            role,
            reserve_receipt_digest,
            typed_instruction_digest,
            release_nullifier,
            release_deadline: dto.release_deadline,
            asset_id,
            asset_link_proof_digest,
            escrow_note_id,
            spend,
            seal: dto.seal.copy(),
        },
    )
}

/// What both kinds of reservation are submitted with. The transition and the
/// authorization are as parsed, each with the verdict on its body.
#[derive(Debug)]
pub struct ReservationDto {
    pub transition: Result<CreditTransitionDto, String>,
    pub transition_body: Result<(), String>,
    pub transition_statement: Result<Id, String>,
    pub authorization: Result<ReservationAuthorizationDto, String>,
    pub authorization_body: Result<(), String>,
    pub statement: Result<Id, String>,
    pub lane_digest: Result<LaneDigest, String>,
}

fn copy_lane_digest(lane_digest: &Result<LaneDigest, String>) -> (r: Result<LaneDigest, String>)
    ensures
        r == *lane_digest,
{
    match lane_digest {
        Ok(value) => Ok(*value),
        Err(message) => Err(message.clone()),
    }
}

/// Why a transition as parsed cannot be read.
pub open spec fn parsed_transition_refusal(dto: Result<CreditTransitionDto, String>) -> Option<
    Seq<char>,
> {
    match dto {
        Err(message) => Some(message@),
        Ok(dto) => credit_transition_refusal(dto, "transition"@),
    }
}

/// Why an authorization as parsed cannot be read.
pub open spec fn parsed_authorization_refusal(
    dto: Result<ReservationAuthorizationDto, String>,
) -> Option<Seq<char>> {
    match dto {
        Err(message) => Some(message@),
        Ok(dto) => reservation_authorization_refusal(dto, "authorization"@),
    }
}

/// Whether a taker's authorization is not its mandate.
pub open spec fn mandate_refusal(authorization: ReservationAuthorization) -> Option<Seq<char>> {
    if authorization.role == ReservationRole::Taker && authorization.authorization_digest
        != authorization.mandate_digest {
        Some("Taker reservation is not bound to its signed execution mandate"@)
    } else {
        None
    }
}

/// Checks that a taker's authorization is its mandate.
pub(crate) fn check_mandate(authorization: &ReservationAuthorization) -> (r: Result<(), String>)
    ensures
        verdict(r, mandate_refusal(*authorization)),
{
    if authorization.role == ReservationRole::Taker && authorization.authorization_digest
        != authorization.mandate_digest {
        return refuse("Taker reservation is not bound to its signed execution mandate");
    }
    Ok(())
}

/// Why the transition and authorization of a reservation cannot be read.
pub open spec fn reservation_refusal(dto: ReservationDto) -> Option<Seq<char>> {
    first(parsed_transition_refusal(dto.transition),
    first(refusal_of(dto.transition_body),
    first(parsed_authorization_refusal(dto.authorization),
    first(refusal_of(dto.authorization_body),
    mandate_refusal(reservation_authorization_of(dto.authorization->Ok_0))))))
}

fn read_reservation(dto: &ReservationDto) -> (r: Result<
    (CreditFacilityTransition, ReservationAuthorization),
    String,
>)
    ensures
        match r {
            Ok((transition, authorization)) => {
                &&& reservation_refusal(*dto) is None
                &&& transition == credit_transition_of(dto.transition->Ok_0)
                &&& authorization == reservation_authorization_of(dto.authorization->Ok_0)
            },
            Err(message) => reservation_refusal(*dto) == Some(message@),
        },
{
    let transition = match &dto.transition {
        Ok(transition) => credit_transition_from_dto(transition, "transition")?,
        Err(message) => return Err(message.clone()),
    };
    repeat(&dto.transition_body)?;
    let authorization = match &dto.authorization {
        Ok(authorization) => reservation_authorization_from_dto(authorization, "authorization")?,
        Err(message) => return Err(message.clone()),
    };
    repeat(&dto.authorization_body)?;
    check_mandate(&authorization)?;
    Ok((transition, authorization))
}

/// Why an account escrow is not the one that was signed.
pub open spec fn escrow_match_refusal(
    escrow: ReservationEscrow,
    transition: CreditFacilityTransition,
    authorization: ReservationAuthorization,
    statement: Result<Id, String>,
) -> Option<Seq<char>> {
    if escrow.source_handle == escrow.escrow_handle || escrow.asset_id != authorization.asset_id
        || escrow.amount_commitment != transition.amount_commitment {
        Some("reservation escrow differs from its signed authorization"@)
    } else if statement_refusal(statement) is Some {
        statement_refusal(statement)
    } else if statement->Ok_0 != authorization.escrow_digest {
        Some("reservation escrow differs from its signed authorization"@)
    } else {
        None
    }
}

/// Checks that an account escrow is the one that was signed.
pub(crate) fn check_escrow_match(
    escrow: &ReservationEscrow,
    transition: &CreditFacilityTransition,
    authorization: &ReservationAuthorization,
    statement: &Result<Id, String>,
) -> (r: Result<(), String>)
    ensures
        verdict(r, escrow_match_refusal(*escrow, *transition, *authorization, *statement)),
{
    if escrow.source_handle == escrow.escrow_handle || escrow.asset_id != authorization.asset_id
        || escrow.amount_commitment != transition.amount_commitment {
        return refuse("reservation escrow differs from its signed authorization");
    }
    let digest = statement_of(statement)?;
    if digest != authorization.escrow_digest {
        return refuse("reservation escrow differs from its signed authorization");
    }
    Ok(())
}

/// Why a reservation against an account cannot be read.
pub open spec fn product_reservation_refusal(
    dto: ReservationDto,
    escrow: Result<ReservationEscrowDto, String>,
    seal: Seal,
) -> Option<Seq<char>> {
    let parsed = match escrow {
        Err(message) => Some(message@),
        Ok(escrow) => reservation_escrow_refusal(escrow),
    };
    first(reservation_refusal(dto),
    first(parsed,
    first(refusal_of(seal.body),
    escrow_match_refusal(
        reservation_escrow_of(escrow->Ok_0),
        credit_transition_of(dto.transition->Ok_0),
        reservation_authorization_of(dto.authorization->Ok_0),
        seal.statement,
    ))))
}

/// Reads a reservation against an account: the transition, the authorization
/// and the escrow that it was signed for. `seal` is that of the escrow.
pub fn product_reservation_from_dto(
    dto: &ReservationDto,
    escrow: &Result<ReservationEscrowDto, String>,
    seal: &Seal,
) -> (r: Result<ProductReservation, String>)
    ensures
        match r {
            Ok(value) => {
                &&& product_reservation_refusal(*dto, *escrow, *seal) is None
                &&& value == (ProductReservation {
                    transition: credit_transition_of(dto.transition->Ok_0),
                    authorization: reservation_authorization_of(dto.authorization->Ok_0),
                    escrow: reservation_escrow_of(escrow->Ok_0),
                    transition_body: dto.transition_body,
                    authorization_body: dto.authorization_body,
                    escrow_seal: *seal,
                    statement: dto.statement,
                    transition_statement: dto.transition_statement,
                    lane_digest: dto.lane_digest,
                })
            },
            Err(message) => product_reservation_refusal(*dto, *escrow, *seal) == Some(message@),
        },
{
    let (transition, authorization) = read_reservation(dto)?;
    let escrow = match escrow {
        Ok(escrow) => reservation_escrow_from_dto(escrow)?,
        Err(message) => return Err(message.clone()),
    };
    repeat(&seal.body)?;
    check_escrow_match(&escrow, &transition, &authorization, &seal.statement)?;
    Ok(
        ProductReservation {
            transition,
            authorization,
            escrow,
            transition_body: copy_shape(&dto.transition_body),
            authorization_body: copy_shape(&dto.authorization_body),
            escrow_seal: seal.copy(),
            statement: copy_statement(&dto.statement),
            transition_statement: copy_statement(&dto.transition_statement),
            lane_digest: copy_lane_digest(&dto.lane_digest),
        },
    )
}

/// The note that a reservation sets aside, as submitted.
#[derive(Debug)]
pub struct NoteReservationEscrowDto {
    pub spend: NoteSpendDto,
    pub escrow_note_id: String,
    pub delegation_digest: String,
}

/// Why the note that a reservation sets aside cannot be read.
pub open spec fn note_escrow_refusal(dto: NoteReservationEscrowDto) -> Option<Seq<char>> {
    first(note_spend_refusal(dto.spend, "escrow.spend"@),
    first(hex_refusal(dto.escrow_note_id@, "escrow.escrowNoteID"@, 32),
    hex_refusal(dto.delegation_digest@, "escrow.delegationDigest"@, 32)))
}

/// Why a note escrow is not the one that was signed.
pub open spec fn note_escrow_match_refusal(
    seal: Seal,
    authorization: ReservationAuthorization,
) -> Option<Seq<char>> {
    if seal.refusal() is Some {
        seal.refusal()
    } else if seal.statement->Ok_0 != authorization.escrow_digest {
        Some("anonymous escrow differs from the signed reservation"@)
    } else {
        None
    }
}

/// Checks that a note escrow is the one that was signed.
pub(crate) fn check_note_escrow_match(
    seal: &Seal,
    authorization: &ReservationAuthorization,
) -> (r: Result<(), String>)
    ensures
        verdict(r, note_escrow_match_refusal(*seal, *authorization)),
{
    let statement = seal.open()?;
    if statement != authorization.escrow_digest {
        return refuse("anonymous escrow differs from the signed reservation");
    }
    Ok(())
}

/// Why a reservation against a note cannot be read.
pub open spec fn note_product_reservation_refusal(
    dto: ReservationDto,
    escrow: Result<NoteReservationEscrowDto, String>,
    seal: Seal,
) -> Option<Seq<char>> {
    let parsed = match escrow {
        Err(message) => Some(message@),
        Ok(escrow) => note_escrow_refusal(escrow),
    };
    first(reservation_refusal(dto),
    first(parsed,
    note_escrow_match_refusal(seal, reservation_authorization_of(dto.authorization->Ok_0))))
}

/// Reads a reservation against a note: the transition, the authorization and
/// the escrow that it was signed for. `seal` is that of the escrow.
pub fn note_product_reservation_from_dto(
    dto: &ReservationDto,
    escrow: &Result<NoteReservationEscrowDto, String>,
    seal: &Seal,
) -> (r: Result<NoteProductReservation, String>)
    ensures
        match r {
            Ok(value) => {
                &&& note_product_reservation_refusal(*dto, *escrow, *seal) is None
                &&& value.transition == credit_transition_of(dto.transition->Ok_0)
                &&& value.authorization == reservation_authorization_of(dto.authorization->Ok_0)
                &&& note_spend_is(escrow->Ok_0.spend, value.escrow.spend)
                &&& value.escrow.escrow_note_id == hex_id_of(escrow->Ok_0.escrow_note_id@)
                &&& value.escrow.delegation_digest == hex_id_of(escrow->Ok_0.delegation_digest@)
                &&& value.transition_body == dto.transition_body
                &&& value.authorization_body == dto.authorization_body
                &&& value.escrow_seal == *seal
                &&& value.statement == dto.statement
                &&& value.transition_statement == dto.transition_statement
                &&& value.lane_digest == dto.lane_digest
            },
            Err(message) => note_product_reservation_refusal(*dto, *escrow, *seal) == Some(
                message@,
            ),
        },
{
    let (transition, authorization) = read_reservation(dto)?;
    let escrow = match escrow {
        Ok(escrow) => escrow,
        Err(message) => return Err(message.clone()),
    };
    let spend = note_spend_from_dto(&escrow.spend, "escrow.spend")?;
    let escrow_note_id = hex_id(escrow.escrow_note_id.as_str(), "escrow.escrowNoteID")?;
    let delegation_digest = hex_id(escrow.delegation_digest.as_str(), "escrow.delegationDigest")?;
    check_note_escrow_match(seal, &authorization)?;
    Ok(
        NoteProductReservation {
            transition,
            authorization,
            escrow: NoteReservationEscrow { spend, escrow_note_id, delegation_digest },
            transition_body: copy_shape(&dto.transition_body),
            authorization_body: copy_shape(&dto.authorization_body),
            escrow_seal: seal.copy(),
            statement: copy_statement(&dto.statement),
            transition_statement: copy_statement(&dto.transition_statement),
            lane_digest: copy_lane_digest(&dto.lane_digest),
        },
    )
}

} // verus!
