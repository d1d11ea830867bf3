//! Submitted notes, spends and claims.

use std::sync::Arc;
use vstd::prelude::*;
use vstd::string::*;
use vstd::utf8::encode_utf8;

use crate::crypto::{
    group_order, is_canonical_scalar, is_ristretto_point, le_value, ristretto_point,
};
use crate::decode::kinds::{note_claim_kind_of, note_claim_kind_refusal, read_note_claim_kind};
use crate::decode::lists::{copy_shape, ids_of, ids_refusal, indexed, indexed_name, read_ids};
use crate::endorsement::Seal;
use crate::id::Id;
use crate::order::{
    DelegatedNoteSettlementOrder, EscrowClaimSpend, NoteClaim, NoteClaimMaterialization,
    NoteIssuance, NoteOutput, NoteSettlementOrder, NoteSpend,
};
use crate::outcome::{first, refusal_of, repeat, verdict};
use crate::state::{OpeningEnvelope, OpeningShare};
use crate::text::{hex_array, hex_bytes, hex_id, hex_id_of, hex_refusal, join};

verus! {

/// A note output, as submitted.
#[derive(Debug)]
pub struct NoteOutputDto {
    pub note_id: String,
    pub asset_id: String,
    pub one_time: String,
    pub value_commitment: String,
    pub ephemeral: String,
    pub masked_value: String,
    pub masked_blinding: String,
    pub lock_id: String,
    pub shape: Result<(), String>,
}

/// Why a note output cannot be read.
pub open spec fn note_output_refusal(dto: NoteOutputDto, field: Seq<char>) -> Option<Seq<char>> {
    first(hex_refusal(dto.note_id@, field + ".noteID"@, 32),
    first(hex_refusal(dto.asset_id@, field + ".assetID"@, 32),
    first(hex_refusal(dto.one_time@, field + ".oneTime"@, 32),
    first(hex_refusal(dto.value_commitment@, field + ".valueCommitment"@, 32),
    first(hex_refusal(dto.ephemeral@, field + ".ephemeral"@, 32),
    first(hex_refusal(dto.masked_value@, field + ".maskedValue"@, 32),
    first(hex_refusal(dto.masked_blinding@, field + ".maskedBlinding"@, 32),
    first(hex_refusal(dto.lock_id@, field + ".lockID"@, 32),
    refusal_of(dto.shape)))))))))
}

/// A note output.
pub open spec fn note_output_of(dto: NoteOutputDto) -> NoteOutput {
    NoteOutput {
        note_id: hex_id_of(dto.note_id@),
        asset_id: hex_id_of(dto.asset_id@),
        one_time: hex_id_of(dto.one_time@),
        value_commitment: hex_id_of(dto.value_commitment@),
        ephemeral: hex_id_of(dto.ephemeral@),
        masked_value: hex_id_of(dto.masked_value@),
        masked_blinding: hex_id_of(dto.masked_blinding@),
        lock_id: hex_id_of(dto.lock_id@),
        shape: dto.shape,
    }
}

/// Reads a note output.
pub fn note_output_from_dto(dto: &NoteOutputDto, field: &str) -> (r: Result<NoteOutput, String>)
    ensures
        match r {
            Ok(value) => note_output_refusal(*dto, field@) is None && value == note_output_of(*dto),
            Err(message) => note_output_refusal(*dto, field@) == Some(message@),
        },
{
    let note_id = hex_id(dto.note_id.as_str(), join(field, ".noteID").as_str())?;
    let asset_id = hex_id(dto.asset_id.as_str(), join(field, ".assetID").as_str())?;
    let one_time = hex_id(dto.one_time.as_str(), join(field, ".oneTime").as_str())?;
    let value_commitment = hex_id(
        dto.value_commitment.as_str(),
        join(field, ".valueCommitment").as_str(),
    )?;
    let ephemeral = hex_id(dto.ephemeral.as_str(), join(field, ".ephemeral").as_str())?;
    let masked_value = hex_id(dto.masked_value.as_str(), join(field, ".maskedValue").as_str())?;
    let masked_blinding = hex_id(
        dto.masked_blinding.as_str(),
        join(field, ".maskedBlinding").as_str(),
    )?;
    let lock_id = hex_id(dto.lock_id.as_str(), join(field, ".lockID").as_str())?;
    repeat(&dto.shape)?;
    Ok(NoteOutput {
        note_id,
        asset_id,
        one_time,
        value_commitment,
        ephemeral,
        masked_value,
        masked_blinding,
        lock_id,
        shape: copy_shape(&dto.shape),
    })
}

/// Why one of the outputs from `from` on cannot be read.
pub open spec fn note_outputs_refusal(
    dtos: Seq<NoteOutputDto>,
    field: Seq<char>,
    from: nat,
) -> Option<Seq<char>>
    decreases dtos.len() - from,
{
    if from >= dtos.len() {
        None
    } else {
        first(note_output_refusal(
            dtos[from as int],
            indexed_name(field, ".outputs["@, from as int),
        ),
        note_outputs_refusal(dtos, field, from + 1))
    }
}

fn read_note_outputs(dtos: &Vec<NoteOutputDto>, field: &str) -> (r: Result<Vec<NoteOutput>, String>)
    ensures
        match r {
            Ok(values) => {
                &&& note_outputs_refusal(dtos@, field@, 0) is None
                &&& values@.len() == dtos@.len()
                &&& forall|i: int|
                    0 <= i < dtos@.len() ==> (#[trigger] values@[i]) == note_output_of(dtos@[i])
            },
            Err(message) => note_outputs_refusal(dtos@, field@, 0) == Some(message@),
        },
{
    let mut values: Vec<NoteOutput> = Vec::new();
    let mut index: usize = 0;
    while index < dtos.len()
        invariant
            index <= dtos@.len(),
            values@.len() == index,
            forall|i: int| 0 <= i < index ==> (#[trigger] values@[i]) == note_output_of(dtos@[i]),
            note_outputs_refusal(dtos@, field@, 0) == note_outputs_refusal(
                dtos@,
                field@,
                index as nat,
            ),
        decreases dtos@.len() - index,
    {
        let name = indexed(field, ".outputs[", index);
        let value = note_output_from_dto(&dtos[index], name.as_str())?;
        values.push(value);
        index = index + 1;
    }
    Ok(values)
}

/// A note spend, as submitted.
#[derive(Debug)]
pub struct NoteSpendDto {
    pub asset_id: String,
    pub ring: Vec<String>,
    pub ring_root: String,
    pub serial_point: String,
    pub input_lock_id: String,
    pub proof_digest: String,
    pub outputs: Vec<NoteOutputDto>,
    pub shape: Result<(), String>,
}

/// Why a note spend cannot be read.
pub open spec fn note_spend_refusal(dto: NoteSpendDto, field: Seq<char>) -> Option<Seq<char>> {
    first(hex_refusal(dto.asset_id@, field + ".assetID"@, 32),
    first(ids_refusal(dto.ring@, field + ".ring"@, 0),
    first(hex_refusal(dto.ring_root@, field + ".ringRoot"@, 32),
    first(hex_refusal(dto.serial_point@, field + ".serialPoint"@, 32),
    first(hex_refusal(dto.input_lock_id@, field + ".inputLockID"@, 32),
    first(hex_refusal(dto.proof_digest@, field + ".proofDigest"@, 32),
    first(note_outputs_refusal(dto.outputs@, field, 0),
    refusal_of(dto.shape))))))))
}

/// Whether a value is a note spend as submitted.
pub open spec fn note_spend_is(dto: NoteSpendDto, value: NoteSpend) -> bool {
    &&& value.asset_id == hex_id_of(dto.asset_id@)
    &&& value.ring@ == ids_of(dto.ring@)
    &&& value.ring_root == hex_id_of(dto.ring_root@)
    &&& value.serial_point == hex_id_of(dto.serial_point@)
    &&& value.input_lock_id == hex_id_of(dto.input_lock_id@)
    &&& value.proof_digest == hex_id_of(dto.proof_digest@)
    &&& value.outputs@.len() == dto.outputs@.len()
    &&& forall|i: int|
        0 <= i < dto.outputs@.len() ==> (#[trigger] value.outputs@[i]) == note_output_of(
            dto.outputs@[i],
        )
    &&& value.shape == dto.shape
}

/// Reads a note spend.
pub fn note_spend_from_dto(dto: &NoteSpendDto, field: &str) -> (r: Result<NoteSpend, String>)
    ensures
        match r {
            Ok(value) => note_spend_refusal(*dto, field@) is None && note_spend_is(*dto, value),
            Err(message) => note_spend_refusal(*dto, field@) == Some(message@),
        },
{
    let asset_id = hex_id(dto.asset_id.as_str(), join(field, ".assetID").as_str())?;
    let ring = read_ids(&dto.ring, join(field, ".ring").as_str())?;
    let ring_root = hex_id(dto.ring_root.as_str(), join(field, ".ringRoot").as_str())?;
    let serial_point = hex_id(dto.serial_point.as_str(), join(field, ".serialPoint").as_str())?;
    let input_lock_id = hex_id(dto.input_lock_id.as_str(), join(field, ".inputLockID").as_str())?;
    let proof_digest = hex_id(dto.proof_digest.as_str(), join(field, ".proofDigest").as_str())?;
    let outputs = read_note_outputs(&dto.outputs, field)?;
    repeat(&dto.shape)?;
    Ok(
        NoteSpend {
            asset_id,
            ring,
            ring_root,
            serial_point,
            input_lock_id,
            proof_digest,
            outputs,
            shape: copy_shape(&dto.shape),
        },
    )
}

/// Why one of the spends from `from` on cannot be read.
pub open spec fn note_spends_refusal(
    dtos: Seq<NoteSpendDto>,
    field: Seq<char>,
    from: nat,
) -> Option<Seq<char>>
    decreases dtos.len() - from,
{
    if from >= dtos.len() {
        None
    } else {
        first(note_spend_refusal(dtos[from as int], indexed_name(field, ".spends["@, from as int)),
        note_spends_refusal(dtos, field, from + 1))
    }
}

fn read_note_spends(dtos: &Vec<NoteSpendDto>, field: &str) -> (r: Result<Vec<NoteSpend>, String>)
    ensures
        match r {
            Ok(values) => {
                &&& note_spends_refusal(dtos@, field@, 0) is None
                &&& values@.len() == dtos@.len()
                &&& forall|i: int| 0 <= i < dtos@.len() ==> note_spend_is(
                    dtos@[i],
                    (#[trigger] values@[i]),
                )
            },
            Err(message) => note_spends_refusal(dtos@, field@, 0) == Some(message@),
        },
{
    let mut values: Vec<NoteSpend> = Vec::new();
    let mut index: usize = 0;
    while index < dtos.len()
        invariant
            index <= dtos@.len(),
            values@.len() == index,
            forall|i: int| 0 <= i < index ==> note_spend_is(dtos@[i], (#[trigger] values@[i])),
            note_spends_refusal(dtos@, field@, 0) == note_spends_refusal(
                dtos@,
                field@,
                index as nat,
            ),
        decreases dtos@.len() - index,
    {
        let name = indexed(field, ".spends[", index);
        let value = note_spend_from_dto(&dtos[index], name.as_str())?;
        values.push(value);
        index = index + 1;
    }
    Ok(values)
}

/// A note settlement, as submitted.
#[derive(Debug)]
pub struct NoteSettlementDto {
    pub operation_id: String,
    pub nullifier: String,
    pub deadline: u64,
    pub payment_instruction_digest: String,
    pub market_statement_digest: String,
    pub dvp_proof_digest: String,
    pub spends: Vec<NoteSpendDto>,
    pub seal: Seal,
}

/// Why a note settlement cannot be read.
pub open spec fn note_order_refusal(dto: NoteSettlementDto) -> Option<Seq<char>> {
    first(hex_refusal(dto.operation_id@, "order.operationID"@, 32),
    first(hex_refusal(dto.nullifier@, "order.nullifier"@, 32),
    first(
        hex_refusal(dto.payment_instruction_digest@, "order.paymentInstructionDigest"@, 32),
    first(hex_refusal(dto.market_statement_digest@, "order.marketStatementDigest"@, 32),
    first(hex_refusal(dto.dvp_proof_digest@, "order.dvpProofDigest"@, 32),
    first(note_spends_refusal(dto.spends@, "order"@, 0),
    refusal_of(dto.seal.body)))))))
}

/// Whether a value is a note settlement as submitted.
pub open spec fn note_order_is(dto: NoteSettlementDto, value: NoteSettlementOrder) -> bool {
    &&& value.operation_id == hex_id_of(dto.operation_id@)
    &&& value.nullifier == hex_id_of(dto.nullifier@)
    &&& value.deadline == dto.deadline
    &&& value.payment_instruction_digest == hex_id_of(dto.payment_instruction_digest@)
    &&& value.market_statement_digest == hex_id_of(dto.market_statement_digest@)
    &&& value.dvp_proof_digest == hex_id_of(dto.dvp_proof_digest@)
    &&& value.spends@.len() == dto.spends@.len()
    &&& forall|i: int|
        0 <= i < dto.spends@.len() ==> note_spend_is(
            dto.spends@[i],
            (#[trigger] value.spends@[i]),
        )
    &&& value.seal == dto.seal
}

/// Reads a note settlement.
pub fn note_order_from_dto(dto: &NoteSettlementDto) -> (r: Result<NoteSettlementOrder, String>)
    ensures
        match r {
            Ok(value) => note_order_refusal(*dto) is None && note_order_is(*dto, value),
            Err(message) => note_order_refusal(*dto) == Some(message@),
        },
{
    let operation_id = hex_id(dto.operation_id.as_str(), "order.operationID")?;
    let nullifier = hex_id(dto.nullifier.as_str(), "order.nullifier")?;
    let payment_instruction_digest = hex_id(
        dto.payment_instruction_digest.as_str(),
        "order.paymentInstructionDigest",
    )?;
    let market_statement_digest = hex_id(
        dto.market_statement_digest.as_str(),
        "order.marketStatementDigest",
    )?;
    let dvp_proof_digest = hex_id(dto.dvp_proof_digest.as_str(), "order.dvpProofDigest")?;
    let spends = read_note_spends(&dto.spends, "order")?;
    repeat(&dto.seal.body)?;
    Ok(
        NoteSettlementOrder {
            operation_id,
            nullifier,
            deadline: dto.deadline,
            payment_instruction_digest,
            market_statement_digest,
            dvp_proof_digest,
            spends,
            seal: dto.seal.copy(),
        },
    )
}

/// A note issuance, as submitted.
#[derive(Debug)]
pub struct NoteIssuanceDto {
    pub operation_id: String,
    pub issuance_nonce: String,
    pub issuer_id: String,
    pub issued_at: u64,
    pub output: NoteOutputDto,
    pub proof_digest: String,
    pub issuer_signature: String,
    pub seal: Seal,
}

/// Why a note issuance cannot be read.
pub open spec fn note_issuance_refusal(dto: NoteIssuanceDto) -> Option<Seq<char>> {
    first(hex_refusal(dto.operation_id@, "issuance.operationID"@, 32),
    first(hex_refusal(dto.issuance_nonce@, "issuance.issuanceNonce"@, 32),
    first(hex_refusal(dto.issuer_id@, "issuance.issuerID"@, 32),
    first(note_output_refusal(dto.output, "issuance.output"@),
    first(hex_refusal(dto.proof_digest@, "issuance.proofDigest"@, 32),
    first(hex_refusal(dto.issuer_signature@, "issuance.issuerSignature"@, 64),
    refusal_of(dto.seal.body)))))))
}

/// Whether a value is a note issuance as submitted.
pub open spec fn note_issuance_is(dto: NoteIssuanceDto, value: NoteIssuance) -> bool {
    &&& value.operation_id == hex_id_of(dto.operation_id@)
    &&& value.issuance_nonce == hex_id_of(dto.issuance_nonce@)
    &&& value.issuer_id == hex_id_of(dto.issuer_id@)
    &&& value.issued_at == dto.issued_at
    &&& value.output == note_output_of(dto.output)
    &&& value.proof_digest == hex_id_of(dto.proof_digest@)
    &&& value.issuer_signature@ == hex_bytes(encode_utf8(dto.issuer_signature@))
    &&& value.seal == dto.seal
}

/// Reads a note issuance.
pub fn note_issuance_from_dto(dto: &NoteIssuanceDto) -> (r: Result<NoteIssuance, String>)
    ensures
        match r {
            Ok(value) => note_issuance_refusal(*dto) is None && note_issuance_is(*dto, value),
            Err(message) => note_issuance_refusal(*dto) == Some(message@),
        },
{
    let operation_id = hex_id(dto.operation_id.as_str(), "issuance.operationID")?;
    let issuance_nonce = hex_id(dto.issuance_nonce.as_str(), "issuance.issuanceNonce")?;
    let issuer_id = hex_id(dto.issuer_id.as_str(), "issuance.issuerID")?;
    let output = note_output_from_dto(&dto.output, "issuance.output")?;
    let proof_digest = hex_id(dto.proof_digest.as_str(), "issuance.proofDigest")?;
    let issuer_signature = hex_array::<64>(
        dto.issuer_signature.as_str(),
        "issuance.issuerSignature",
    )?;
    repeat(&dto.seal.body)?;
    Ok(
        NoteIssuance {
            operation_id,
            issuance_nonce,
            issuer_id,
            issued_at: dto.issued_at,
            output,
            proof_digest,
            issuer_signature,
            seal: dto.seal.copy(),
        },
    )
}

/// The materialization of a claim, as submitted.
#[derive(Debug)]
pub struct NoteClaimMaterializationDto {
    pub operation_id: String,
    pub claim_id: String,
    pub output: NoteOutputDto,
    pub ownership_proof_digest: String,
    pub seal: Seal,
}

/// Why the materialization of a claim cannot be read.
pub open spec fn materialization_refusal(dto: NoteClaimMaterializationDto) -> Option<Seq<char>> {
    first(hex_refusal(dto.operation_id@, "materialization.operationID"@, 32),
    first(hex_refusal(dto.claim_id@, "materialization.claimID"@, 32),
    first(note_output_refusal(dto.output, "materialization.output"@),
    first(
        hex_refusal(dto.ownership_proof_digest@, "materialization.ownershipProofDigest"@, 32),
    refusal_of(dto.seal.body)))))
}

/// The materialization of a claim.
pub open spec fn materialization_of(dto: NoteClaimMaterializationDto) -> NoteClaimMaterialization {
    NoteClaimMaterialization {
        operation_id: hex_id_of(dto.operation_id@),
        claim_id: hex_id_of(dto.claim_id@),
        output: note_output_of(dto.output),
        ownership_proof_digest: hex_id_of(dto.ownership_proof_digest@),
        seal: dto.seal,
    }
}

/// Reads the materialization of a claim.
pub fn materialization_from_dto(dto: &NoteClaimMaterializationDto) -> (r: Result<
    NoteClaimMaterialization,
    String,
>)
    ensures
        match r {
            Ok(value) => materialization_refusal(*dto) is None && value == materialization_of(
                *dto,
            ),
            Err(message) => materialization_refusal(*dto) == Some(message@),
        },
{
    let operation_id = hex_id(dto.operation_id.as_str(), "materialization.operationID")?;
    let claim_id = hex_id(dto.claim_id.as_str(), "materialization.claimID")?;
    let output = note_output_from_dto(&dto.output, "materialization.output")?;
    let ownership_proof_digest = hex_id(
        dto.ownership_proof_digest.as_str(),
        "materialization.ownershipProofDigest",
    )?;
    repeat(&dto.seal.body)?;
    Ok(
        NoteClaimMaterialization {
            operation_id,
            claim_id,
            output,
            ownership_proof_digest,
            seal: dto.seal.copy(),
        },
    )
}

/// A share of an opening, as submitted.
#[derive(Debug)]
pub struct OpeningShareDto {
    pub party: usize,
    pub ephemeral: String,
    pub masked_value: String,
    pub masked_blinding: String,
}

/// An opening envelope, as submitted. `shape` is the verdict on the decoded
/// envelope, and `recorded` that on storing it.
#[derive(Debug)]
pub struct OpeningEnvelopeDto {
    pub context: String,
    pub threshold: usize,
    pub recipient_view: String,
    pub shares: Vec<OpeningShareDto>,
    pub shape: Result<(), String>,
    pub recorded: Result<(), String>,
}

/// Why text under a name is not a group element.
pub open spec fn point_refusal(text: Seq<char>, name: Seq<char>) -> Option<Seq<char>> {
    if hex_refusal(text, name, 32) is Some {
        hex_refusal(text, name, 32)
    } else if !ristretto_point(hex_id_of(text).0) {
        Some(name + " is not a canonical Ristretto point"@)
    } else {
        None
    }
}

/// Reads a group element.
pub fn read_point(text: &str, name: &str) -> (r: Result<Id, String>)
    ensures
        match r {
            Ok(value) => point_refusal(text@, name@) is None && value == hex_id_of(text@),
            Err(message) => point_refusal(text@, name@) == Some(message@),
        },
{
    let value = hex_id(text, name)?;
    if !is_ristretto_point(&value) {
        return Err(join(name, " is not a canonical Ristretto point"));
    }
    Ok(value)
}

/// Why text under a name is not a scalar.
pub open spec fn scalar_refusal(text: Seq<char>, name: Seq<char>) -> Option<Seq<char>> {
    if hex_refusal(text, name, 32) is Some {
        hex_refusal(text, name, 32)
    } else if le_value(hex_id_of(text).0@) >= group_order() {
        Some(name + " is not a canonical scalar"@)
    } else {
        None
    }
}

/// Reads a scalar.
pub fn read_scalar(text: &str, name: &str) -> (r: Result<Id, String>)
    ensures
        match r {
            Ok(value) => scalar_refusal(text@, name@) is None && value == hex_id_of(text@),
            Err(message) => scalar_refusal(text@, name@) == Some(message@),
        },
{
    let value = hex_id(text, name)?;
    if !is_canonical_scalar(&value) {
        return Err(join(name, " is not a canonical scalar"));
    }
    Ok(value)
}

/// Why a share of an opening cannot be read.
pub open spec fn opening_share_refusal(dto: OpeningShareDto, field: Seq<char>) -> Option<
    Seq<char>,
> {
    first(point_refusal(dto.ephemeral@, field + ".ephemeral"@),
    first(scalar_refusal(dto.masked_value@, field + ".maskedValue"@),
    scalar_refusal(dto.masked_blinding@, field + ".maskedBlinding"@)))
}

/// A share of an opening.
pub open spec fn opening_share_of(dto: OpeningShareDto) -> OpeningShare {
    OpeningShare {
        party: dto.party,
        ephemeral: hex_id_of(dto.ephemeral@),
        masked_value: hex_id_of(dto.masked_value@),
        masked_blinding: hex_id_of(dto.masked_blinding@),
    }
}

/// Reads a share of an opening.
pub fn opening_share_from_dto(dto: &OpeningShareDto, field: &str) -> (r: Result<
    OpeningShare,
    String,
>)
    ensures
        match r {
            Ok(value) => {
                &&& opening_share_refusal(*dto, field@) is None
                &&& value == opening_share_of(*dto)
            },
            Err(message) => opening_share_refusal(*dto, field@) == Some(message@),
        },
{
    let ephemeral = read_point(dto.ephemeral.as_str(), join(field, ".ephemeral").as_str())?;
    let masked_value = read_scalar(
        dto.masked_value.as_str(),
        join(field, ".maskedValue").as_str(),
    )?;
    let masked_blinding = read_scalar(
        dto.masked_blinding.as_str(),
        join(field, ".maskedBlinding").as_str(),
    )?;
    Ok(OpeningShare { party: dto.party, ephemeral, masked_value, masked_blinding })
}

/// Why one of the shares from `from` on cannot be read.
pub open spec fn opening_shares_refusal(
    dtos: Seq<OpeningShareDto>,
    field: Seq<char>,
    from: nat,
) -> Option<Seq<char>>
    decreases dtos.len() - from,
{
    if from >= dtos.len() {
        None
    } else {
        first(opening_share_refusal(
            dtos[from as int],
            indexed_name(field, ".shares["@, from as int),
        ),
        opening_shares_refusal(dtos, field, from + 1))
    }
}

fn read_opening_shares(
    dtos: &Vec<OpeningShareDto>,
    field: &str,
) -> (r: Result<Vec<OpeningShare>, String>)
    ensures
        match r {
            Ok(values) => {
                &&& opening_shares_refusal(dtos@, field@, 0) is None
                &&& values@.len() == dtos@.len()
                &&& forall|i: int|
                    0 <= i < dtos@.len() ==> (#[trigger] values@[i]) == opening_share_of(dtos@[i])
            },
            Err(message) => opening_shares_refusal(dtos@, field@, 0) == Some(message@),
        },
{
    let mut values: Vec<OpeningShare> = Vec::new();
    let mut index: usize = 0;
    while index < dtos.len()
        invariant
            index <= dtos@.len(),
            values@.len() == index,
            forall|i: int| 0 <= i < index ==> (#[trigger] values@[i]) == opening_share_of(dtos@[i]),
            opening_shares_refusal(dtos@, field@, 0) == opening_shares_refusal(
                dtos@,
                field@,
                index as nat,
            ),
        decreases dtos@.len() - index,
    {
        let name = indexed(field, ".shares[", index);
        let value = opening_share_from_dto(&dtos[index], name.as_str())?;
        values.push(value);
        index = index + 1;
    }
    Ok(values)
}

/// Why an opening envelope cannot be read.
pub open spec fn opening_envelope_refusal(dto: OpeningEnvelopeDto, field: Seq<char>) -> Option<
    Seq<char>,
> {
    first(hex_refusal(dto.context@, field + ".context"@, 32),
    first(point_refusal(dto.recipient_view@, field + ".recipientView"@),
    first(opening_shares_refusal(dto.shares@, field, 0),
    refusal_of(dto.shape))))
}

/// Whether a value is an opening envelope as submitted.
pub open spec fn opening_envelope_is(dto: OpeningEnvelopeDto, value: OpeningEnvelope) -> bool {
    &&& value.context == hex_id_of(dto.context@)
    &&& value.threshold == dto.threshold
    &&& value.recipient_view == hex_id_of(dto.recipient_view@)
    &&& value.shares@.len() == dto.shares@.len()
    &&& forall|i: int|
        0 <= i < dto.shares@.len() ==> (#[trigger] value.shares@[i]) == opening_share_of(
            dto.shares@[i],
        )
}

/// Reads an opening envelope.
pub fn opening_envelope_from_dto(dto: &OpeningEnvelopeDto, field: &str) -> (r: Result<
    OpeningEnvelope,
    String,
>)
    ensures
        match r {
            Ok(value) => opening_envelope_refusal(*dto, field@) is None && opening_envelope_is(
                *dto,
                value,
            ),
            Err(message) => opening_envelope_refusal(*dto, field@) == Some(message@),
        },
{
    let context = hex_id(dto.context.as_str(), join(field, ".context").as_str())?;
    let recipient_view = read_point(
        dto.recipient_view.as_str(),
        join(field, ".recipientView").as_str(),
    )?;
    let shares = read_opening_shares(&dto.shares, field)?;
    repeat(&dto.shape)?;
    Ok(OpeningEnvelope { context, threshold: dto.threshold, recipient_view, shares })
}

/// A note claim, as submitted.
#[derive(Debug)]
pub struct NoteClaimDto {
    pub claim_id: String,
    pub asset_id: String,
    pub value_commitment: String,
    pub recipient_commitment: String,
    pub source_hold_id: String,
    pub kind: String,
    pub opening_envelope: OpeningEnvelopeDto,
    pub shape: Result<(), String>,
}

/// Why a note claim cannot be read.
pub open spec fn note_claim_refusal(dto: NoteClaimDto, field: Seq<char>) -> Option<Seq<char>> {
    first(hex_refusal(dto.claim_id@, field + ".claimID"@, 32),
    first(hex_refusal(dto.asset_id@, field + ".assetID"@, 32),
    first(hex_refusal(dto.value_commitment@, field + ".valueCommitment"@, 32),
    first(hex_refusal(dto.recipient_commitment@, field + ".recipientCommitment"@, 32),
    first(hex_refusal(dto.source_hold_id@, field + ".sourceHoldID"@, 32),
    first(note_claim_kind_refusal(dto.kind@, field + ".kind"@),
    first(opening_envelope_refusal(dto.opening_envelope, field + ".openingEnvelope"@),
    refusal_of(dto.shape))))))))
}

/// Whether a value is a note claim as submitted.
pub open spec fn note_claim_is(dto: NoteClaimDto, value: NoteClaim) -> bool {
    &&& value.claim_id == hex_id_of(dto.claim_id@)
    &&& value.asset_id == hex_id_of(dto.asset_id@)
    &&& value.value_commitment == hex_id_of(dto.value_commitment@)
    &&& value.recipient_commitment == hex_id_of(dto.recipient_commitment@)
    &&& value.source_hold_id == hex_id_of(dto.source_hold_id@)
    &&& value.kind == note_claim_kind_of(dto.kind@)
    &&& match (value.opening_record, dto.opening_envelope.recorded) {
        (Ok(envelope), Ok(_)) => opening_envelope_is(dto.opening_envelope, *envelope),
        (Err(left), Err(right)) => left == right,
        _ => false,
    }
    &&& value.shape == dto.shape
}

/// Reads a note claim.
pub fn note_claim_from_dto(dto: &NoteClaimDto, field: &str) -> (r: Result<NoteClaim, String>)
    ensures
        match r {
            Ok(value) => note_claim_refusal(*dto, field@) is None && note_claim_is(*dto, value),
            Err(message) => note_claim_refusal(*dto, field@) == Some(message@),
        },
{
    let claim_id = hex_id(dto.claim_id.as_str(), join(field, ".claimID").as_str())?;
    let asset_id = hex_id(dto.asset_id.as_str(), join(field, ".assetID").as_str())?;
    let value_commitment = hex_id(
        dto.value_commitment.as_str(),
        join(field, ".valueCommitment").as_str(),
    )?;
    let recipient_commitment = hex_id(
        dto.recipient_commitment.as_str(),
        join(field, ".recipientCommitment").as_str(),
    )?;
    let source_hold_id = hex_id(
        dto.source_hold_id.as_str(),
        join(field, ".sourceHoldID").as_str(),
    )?;
    let kind = read_note_claim_kind(dto.kind.as_str(), join(field, ".kind").as_str())?;
    let envelope = opening_envelope_from_dto(
        &dto.opening_envelope,
        join(field, ".openingEnvelope").as_str(),
    )?;
    repeat(&dto.shape)?;
    let opening_record = match &dto.opening_envelope.recorded {
        Ok(_) => Ok(Arc::new(envelope)),
        Err(message) => Err(message.clone()),
    };
    Ok(
        NoteClaim {
            claim_id,
            asset_id,
            value_commitment,
            recipient_commitment,
            source_hold_id,
            kind,
            opening_record,
            shape: copy_shape(&dto.shape),
        },
    )
}

/// Why one of the claims from `from` on cannot be read.
pub open spec fn note_claims_refusal(
    dtos: Seq<NoteClaimDto>,
    field: Seq<char>,
    from: nat,
) -> Option<Seq<char>>
    decreases dtos.len() - from,
{
    if from >= dtos.len() {
        None
    } else {
        first(note_claim_refusal(dtos[from as int], indexed_name(field, ".claims["@, from as int)),
        note_claims_refusal(dtos, field, from + 1))
    }
}

fn read_note_claims(dtos: &Vec<NoteClaimDto>, field: &str) -> (r: Result<Vec<NoteClaim>, String>)
    ensures
        match r {
            Ok(values) => {
                &&& note_claims_refusal(dtos@, field@, 0) is None
                &&& values@.len() == dtos@.len()
                &&& forall|i: int| 0 <= i < dtos@.len() ==> note_claim_is(
                    dtos@[i],
                    (#[trigger] values@[i]),
                )
            },
            Err(message) => note_claims_refusal(dtos@, field@, 0) == Some(message@),
        },
{
    let mut values: Vec<NoteClaim> = Vec::new();
    let mut index: usize = 0;
    while index < dtos.len()
        invariant
            index <= dtos@.len(),
            values@.len() == index,
            forall|i: int| 0 <= i < index ==> note_claim_is(dtos@[i], (#[trigger] values@[i])),
            note_claims_refusal(dtos@, field@, 0) == note_claims_refusal(
                dtos@,
                field@,
                index as nat,
            ),
        decreases dtos@.len() - index,
    {
        let name = indexed(field, ".claims[", index);
        let value = note_claim_from_dto(&dtos[index], name.as_str())?;
        values.push(value);
        index = index + 1;
    }
    Ok(values)
}

/// The split of an escrowed note, as submitted.
#[derive(Debug)]
pub struct EscrowClaimSpendDto {
    pub asset_id: String,
    pub hold_id: String,
    pub escrow_note_id: String,
    pub delegation_digest: String,
    pub proof_digest: String,
    pub claims: Vec<NoteClaimDto>,
    pub serial: Id,
}

/// Why the split of an escrowed note cannot be read.
pub open spec fn escrow_spend_refusal(dto: EscrowClaimSpendDto, field: Seq<char>) -> Option<
    Seq<char>,
> {
    first(hex_refusal(dto.asset_id@, field + ".assetID"@, 32),
    first(hex_refusal(dto.hold_id@, field + ".holdID"@, 32),
    first(hex_refusal(dto.escrow_note_id@, field + ".escrowNoteID"@, 32),
    first(hex_refusal(dto.delegation_digest@, field + ".delegationDigest"@, 32),
    first(hex_refusal(dto.proof_digest@, field + ".proofDigest"@, 32),
    note_claims_refusal(dto.claims@, field, 0))))))
}

/// Whether a value is the split of an escrowed note as submitted.
pub open spec fn escrow_spend_is(dto: EscrowClaimSpendDto, value: EscrowClaimSpend) -> bool {
    &&& value.asset_id == hex_id_of(dto.asset_id@)
    &&& value.hold_id == hex_id_of(dto.hold_id@)
    &&& value.escrow_note_id == hex_id_of(dto.escrow_note_id@)
    &&& value.delegation_digest == hex_id_of(dto.delegation_digest@)
    &&& value.proof_digest == hex_id_of(dto.proof_digest@)
    &&& value.claims@.len() == dto.claims@.len()
    &&& forall|i: int|
        0 <= i < dto.claims@.len() ==> note_claim_is(
            dto.claims@[i],
            (#[trigger] value.claims@[i]),
        )
    &&& value.serial == dto.serial
}

/// Reads the split of an escrowed note.
pub fn escrow_spend_from_dto(dto: &EscrowClaimSpendDto, field: &str) -> (r: Result<
    EscrowClaimSpend,
    String,
>)
    ensures
        match r {
            Ok(value) => escrow_spend_refusal(*dto, field@) is None && escrow_spend_is(
                *dto,
                value,
            ),
            Err(message) => escrow_spend_refusal(*dto, field@) == Some(message@),
        },
{
    let asset_id = hex_id(dto.asset_id.as_str(), join(field, ".assetID").as_str())?;
    let hold_id = hex_id(dto.hold_id.as_str(), join(field, ".holdID").as_str())?;
    let escrow_note_id = hex_id(
        dto.escrow_note_id.as_str(),
        join(field, ".escrowNoteID").as_str(),
    )?;
    let delegation_digest = hex_id(
        dto.delegation_digest.as_str(),
        join(field, ".delegationDigest").as_str(),
    )?;
    let proof_digest = hex_id(dto.proof_digest.as_str(), join(field, ".proofDigest").as_str())?;
    let claims = read_note_claims(&dto.claims, field)?;
    Ok(
        EscrowClaimSpend {
            asset_id,
            hold_id,
            escrow_note_id,
            delegation_digest,
            proof_digest,
            claims,
            serial: dto.serial,
        },
    )
}

/// Why one of the splits from `from` on cannot be read.
pub open spec fn escrow_spends_refusal(
    dtos: Seq<EscrowClaimSpendDto>,
    field: Seq<char>,
    from: nat,
) -> Option<Seq<char>>
    decreases dtos.len() - from,
{
    if from >= dtos.len() {
        None
    } else {
        first(escrow_spend_refusal(
            dtos[from as int],
            indexed_name(field, ".spends["@, from as int),
        ),
        escrow_spends_refusal(dtos, field, from + 1))
    }
}

fn read_escrow_spends(
    dtos: &Vec<EscrowClaimSpendDto>,
    field: &str,
) -> (r: Result<Vec<EscrowClaimSpend>, String>)
    ensures
        match r {
            Ok(values) => {
                &&& escrow_spends_refusal(dtos@, field@, 0) is None
                &&& values@.len() == dtos@.len()
                &&& forall|i: int| 0 <= i < dtos@.len() ==> escrow_spend_is(
                    dtos@[i],
                    (#[trigger] values@[i]),
                )
            },
            Err(message) => escrow_spends_refusal(dtos@, field@, 0) == Some(message@),
        },
{
    let mut values: Vec<EscrowClaimSpend> = Vec::new();
    let mut index: usize = 0;
    while index < dtos.len()
        invariant
            index <= dtos@.len(),
            values@.len() == index,
            forall|i: int| 0 <= i < index ==> escrow_spend_is(dtos@[i], (#[trigger] values@[i])),
            escrow_spends_refusal(dtos@, field@, 0) == escrow_spends_refusal(
                dtos@,
                field@,
                index as nat,
            ),
        decreases dtos@.len() - index,
    {
        let name = indexed(field, ".spends[", index);
        let value = escrow_spend_from_dto(&dtos[index], name.as_str())?;
        values.push(value);
        index = index + 1;
    }
    Ok(values)
}

/// A settlement of escrowed notes, as submitted.
#[derive(Debug)]
pub struct DelegatedNoteSettlementDto {
    pub operation_id: String,
    pub nullifier: String,
    pub deadline: u64,
    pub payment_instruction_digest: String,
    pub market_statement_digest: String,
    pub dvp_proof_digest: String,
    pub spends: Vec<EscrowClaimSpendDto>,
    pub seal: Seal,
}

/// Why a settlement of escrowed notes cannot be read.
pub open spec fn delegated_refusal(dto: DelegatedNoteSettlementDto, field: Seq<char>) -> Option<
    Seq<char>,
> {
    first(hex_refusal(dto.operation_id@, field + ".operationID"@, 32),
    first(hex_refusal(dto.nullifier@, field + ".nullifier"@, 32),
    first(
        hex_refusal(dto.payment_instruction_digest@, field + ".paymentInstructionDigest"@, 32),
    first(hex_refusal(dto.market_statement_digest@, field + ".marketStatementDigest"@, 32),
    first(hex_refusal(dto.dvp_proof_digest@, field + ".dvpProofDigest"@, 32),
    first(escrow_spends_refusal(dto.spends@, field, 0),
    refusal_of(dto.seal.body)))))))
}

/// Whether a value is a settlement of escrowed notes as submitted.
pub open spec fn delegated_is(
    dto: DelegatedNoteSettlementDto,
    value: DelegatedNoteSettlementOrder,
) -> bool {
    &&& value.operation_id == hex_id_of(dto.operation_id@)
    &&& value.nullifier == hex_id_of(dto.nullifier@)
    &&& value.deadline == dto.deadline
    &&& value.payment_instruction_digest == hex_id_of(dto.payment_instruction_digest@)
    &&& value.market_statement_digest == hex_id_of(dto.market_statement_digest@)
    &&& value.dvp_proof_digest == hex_id_of(dto.dvp_proof_digest@)
    &&& value.spends@.len() == dto.spends@.len()
    &&& forall|i: int|
        0 <= i < dto.spends@.len() ==> escrow_spend_is(
            dto.spends@[i],
            (#[trigger] value.spends@[i]),
        )
    &&& value.seal == dto.seal
}

/// Reads a settlement of escrowed notes.
pub fn delegated_note_settlement_from_dto(
    dto: &DelegatedNoteSettlementDto,
    field: &str,
) -> (r: Result<DelegatedNoteSettlementOrder, String>)
    ensures
        match r {
            Ok(value) => delegated_refusal(*dto, field@) is None && delegated_is(*dto, value),
            Err(message) => delegated_refusal(*dto, field@) == Some(message@),
        },
{
    let operation_id = hex_id(dto.operation_id.as_str(), join(field, ".operationID").as_str())?;
    let nullifier = hex_id(dto.nullifier.as_str(), join(field, ".nullifier").as_str())?;
    let payment_instruction_digest = hex_id(
        dto.payment_instruction_digest.as_str(),
        join(field, ".paymentInstructionDigest").as_str(),
    )?;
    let market_statement_digest = hex_id(
        dto.market_statement_digest.as_str(),
        join(field, ".marketStatementDigest").as_str(),
    )?;
    let dvp_proof_digest = hex_id(
        dto.dvp_proof_digest.as_str(),
        join(field, ".dvpProofDigest").as_str(),
    )?;
    let spends = read_escrow_spends(&dto.spends, field)?;
    repeat(&dto.seal.body)?;
    Ok(
        DelegatedNoteSettlementOrder {
            operation_id,
            nullifier,
            deadline: dto.deadline,
            payment_instruction_digest,
            market_statement_digest,
            dvp_proof_digest,
            spends,
            seal: dto.seal.copy(),
        },
    )
}

} // verus!
