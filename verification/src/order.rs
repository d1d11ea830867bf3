//! The actions that transactions ask for.
//!
//! A `shape` is the signing domain's verdict on the fields beside it, and a
//! `seal` its verdict and statement for a whole action.

use std::sync::Arc;
use vstd::prelude::*;

use crate::endorsement::Seal;
use crate::id::Id;
use crate::state::{AssetKind, GuarantorKind, NoteClaimKind, OpeningEnvelope, ReservationRole};

verus! {

/// What a credit transition does to a hold.
#[derive(Clone, Copy, Debug, PartialEq, Eq, Structural)]
pub enum CreditTransitionKind {
    Hold,
    Release,
    Consume,
}

/// A proved change of a facility's committed balances.
#[derive(Clone, Copy, Debug)]
pub struct CreditFacilityTransition {
    pub operation_id: Id,
    pub facility_id: Id,
    pub hold_id: Id,
    pub kind: CreditTransitionKind,
    pub query_commitment: Id,
    pub amount_commitment: Id,
    pub consumed_commitment: Id,
    pub refund_commitment: Id,
    pub before_available_commitment: Id,
    pub after_available_commitment: Id,
    pub before_held_commitment: Id,
    pub after_held_commitment: Id,
    pub before_outstanding_commitment: Id,
    pub after_outstanding_commitment: Id,
    pub before_sequence: u64,
    pub expires_at: u64,
    pub settlement_digest: Id,
    pub relation_proof_digest: Id,
}

/// A proved change of one account.
#[derive(Clone, Copy, Debug)]
pub struct StateLeg {
    pub handle: Id,
    pub asset_id: Id,
    pub before_commitment: Id,
    pub after_commitment: Id,
    pub before_sequence: u64,
}

/// A settlement between accounts.
#[derive(Debug)]
pub struct SettlementOrder {
    pub operation_id: Id,
    pub nullifier: Id,
    pub deadline: u64,
    pub payment_instruction_digest: Id,
    pub proof_digest: Id,
    pub market_statement_digest: Id,
    pub legs: Vec<StateLeg>,
    pub seal: Seal,
}

/// What a maker or taker signs to reserve an amount.
#[derive(Clone, Copy, Debug)]
pub struct ReservationAuthorization {
    pub role: ReservationRole,
    pub entity_commitment: Id,
    pub asset_id: Id,
    pub direction: u8,
    pub authorization_digest: Id,
    pub mandate_digest: Id,
    pub typed_reserve_digest: Id,
    pub reserve_nullifier: Id,
    pub asset_link_proof_digest: Id,
    pub limit_price_commitment: Id,
    pub escrow_digest: Id,
    pub rfq_nullifier: Id,
    pub policy_version: u64,
    pub admission_ticket_id: Id,
    pub admission_slot: u64,
    pub admission_receipt_digest: Id,
    pub admission_epoch: u64,
    pub admission_sequence: u64,
    pub admission_batch_id: Id,
}

/// The account balance that a reservation sets aside.
#[derive(Clone, Copy, Debug)]
pub struct ReservationEscrow {
    pub source_handle: Id,
    pub escrow_handle: Id,
    pub asset_id: Id,
    pub amount_commitment: Id,
    pub source_before_commitment: Id,
    pub source_after_commitment: Id,
    pub source_before_sequence: u64,
    pub proof_digest: Id,
}

/// The use of one reservation by a settlement.
#[derive(Debug)]
pub struct ReservationConsumption {
    pub role: ReservationRole,
    pub reserve_receipt_digest: Id,
    pub transition: CreditFacilityTransition,
    pub transition_statement: Result<Id, String>,
}

/// The terms of a trade between a maker and a taker.
#[derive(Clone, Copy, Debug)]
pub struct ProductTerms {
    pub venue_id: Id,
    pub defmi_id: Id,
    pub maker_entity_commitment: Id,
    pub taker_entity_commitment: Id,
    pub rfq_nullifier: Id,
    pub taker_authorization_digest: Id,
    pub maker_policy_digest: Id,
    pub maker_mandate_digest: Id,
    pub taker_mandate_digest: Id,
    pub typed_instruction_digest: Id,
    pub quote_proof_digest: Id,
    pub price_limit_proof_digest: Id,
    pub dvp_proof_digest: Id,
    pub quantity_commitment: Id,
    pub cash_commitment: Id,
    pub traded_asset_id: Id,
    pub asset_link_proof_digest: Id,
    pub admission_receipt_digest: Id,
    pub admission_epoch: u64,
    pub admission_sequence: u64,
}

/// Delivery against payment between accounts.
#[derive(Debug)]
pub struct ProductSettlementOrder {
    pub settlement: SettlementOrder,
    pub terms: ProductTerms,
    pub reservations: Vec<ReservationConsumption>,
    pub seal: Seal,
}

/// One settlement of a batch.
#[derive(Clone, Copy, Debug)]
pub struct ProductSettlementBatchMember {
    pub admission_sequence: u64,
    pub settlement_statement: Id,
}

/// Settlements that one approval covers. The seal's verdict is on the members
/// and the orders they stand for.
#[derive(Debug)]
pub struct ProductSettlementBatch {
    pub batch_id: Id,
    pub venue_id: Id,
    pub defmi_id: Id,
    pub admission_epoch: u64,
    pub members: Vec<ProductSettlementBatchMember>,
    pub seal: Seal,
}

/// A note to be created.
#[derive(Debug)]
pub struct NoteOutput {
    pub note_id: Id,
    pub asset_id: Id,
    pub one_time: Id,
    pub value_commitment: Id,
    pub ephemeral: Id,
    pub masked_value: Id,
    pub masked_blinding: Id,
    pub lock_id: Id,
    pub shape: Result<(), String>,
}

/// The spending of one note of an anonymity set.
#[derive(Debug)]
pub struct NoteSpend {
    pub asset_id: Id,
    pub ring: Vec<Id>,
    pub ring_root: Id,
    pub serial_point: Id,
    pub input_lock_id: Id,
    pub proof_digest: Id,
    pub outputs: Vec<NoteOutput>,
    pub shape: Result<(), String>,
}

/// A settlement between notes.
#[derive(Debug)]
pub struct NoteSettlementOrder {
    pub operation_id: Id,
    pub nullifier: Id,
    pub deadline: u64,
    pub payment_instruction_digest: Id,
    pub market_statement_digest: Id,
    pub dvp_proof_digest: Id,
    pub spends: Vec<NoteSpend>,
    pub seal: Seal,
}

/// An entitlement to a note. `opening_record` is the opening as it is stored.
#[derive(Debug)]
pub struct NoteClaim {
    pub claim_id: Id,
    pub asset_id: Id,
    pub value_commitment: Id,
    pub recipient_commitment: Id,
    pub source_hold_id: Id,
    pub kind: NoteClaimKind,
    pub opening_record: Result<Arc<OpeningEnvelope>, String>,
    pub shape: Result<(), String>,
}

/// The split of an escrowed note into claims. `serial` is the serial under
/// which the escrowed note counts as spent.
#[derive(Debug)]
pub struct EscrowClaimSpend {
    pub asset_id: Id,
    pub hold_id: Id,
    pub escrow_note_id: Id,
    pub delegation_digest: Id,
    pub proof_digest: Id,
    pub claims: Vec<NoteClaim>,
    pub serial: Id,
}

/// A settlement of escrowed notes into claims.
#[derive(Debug)]
pub struct DelegatedNoteSettlementOrder {
    pub operation_id: Id,
    pub nullifier: Id,
    pub deadline: u64,
    pub payment_instruction_digest: Id,
    pub market_statement_digest: Id,
    pub dvp_proof_digest: Id,
    pub spends: Vec<EscrowClaimSpend>,
    pub seal: Seal,
}

/// Delivery against payment between escrowed notes.
#[derive(Debug)]
pub struct ProductNoteSettlementOrder {
    pub settlement: DelegatedNoteSettlementOrder,
    pub terms: ProductTerms,
    pub reservations: Vec<ReservationConsumption>,
    pub seal: Seal,
}

/// The return of an expired reservation to its account.
#[derive(Debug)]
pub struct ProductReleaseOrder {
    pub transition: CreditFacilityTransition,
    pub role: ReservationRole,
    pub reserve_receipt_digest: Id,
    pub typed_instruction_digest: Id,
    pub release_nullifier: Id,
    pub release_deadline: u64,
    pub asset_id: Id,
    pub asset_link_proof_digest: Id,
    pub refund_leg: StateLeg,
    pub seal: Seal,
}

/// The return of an expired anonymous reservation to a note.
#[derive(Debug)]
pub struct ProductNoteReleaseOrder {
    pub transition: CreditFacilityTransition,
    pub role: ReservationRole,
    pub reserve_receipt_digest: Id,
    pub typed_instruction_digest: Id,
    pub release_nullifier: Id,
    pub release_deadline: u64,
    pub asset_id: Id,
    pub asset_link_proof_digest: Id,
    pub escrow_note_id: Id,
    pub spend: NoteSpend,
    pub seal: Seal,
}

/// The note that an anonymous reservation sets aside.
#[derive(Debug)]
pub struct NoteReservationEscrow {
    pub spend: NoteSpend,
    pub escrow_note_id: Id,
    pub delegation_digest: Id,
}

/// A reservation against an account. The bodies are the verdicts on the transition
/// and the authorization, and `escrow_seal` is that of the escrow. `statement` is
/// that of the authorization together with the transition,
/// `transition_statement` that of the transition alone, and `lane_digest` the
/// digest of the taker's certified admission lane.
#[derive(Debug)]
pub struct ProductReservation {
    pub transition: CreditFacilityTransition,
    pub authorization: ReservationAuthorization,
    pub escrow: ReservationEscrow,
    pub transition_body: Result<(), String>,
    pub authorization_body: Result<(), String>,
    pub escrow_seal: Seal,
    pub statement: Result<Id, String>,
    pub transition_statement: Result<Id, String>,
    pub lane_digest: Result<LaneDigest, String>,
}

/// A reservation against a note; the statements and the digest are as for a
/// reservation against an account.
#[derive(Debug)]
pub struct NoteProductReservation {
    pub transition: CreditFacilityTransition,
    pub authorization: ReservationAuthorization,
    pub escrow: NoteReservationEscrow,
    pub transition_body: Result<(), String>,
    pub authorization_body: Result<(), String>,
    pub escrow_seal: Seal,
    pub statement: Result<Id, String>,
    pub transition_statement: Result<Id, String>,
    pub lane_digest: Result<LaneDigest, String>,
}

/// One lane that the resident committee certified.
#[derive(Clone, Copy, Debug)]
pub struct CertifiedAdmissionLane {
    pub slot: u64,
    pub sequence: u64,
    pub principal_digest: Id,
    pub ticket_id: Id,
    pub claim_digest: Id,
    pub cluster_digest: Id,
    pub order_digest: Id,
}

/// The digest of a lane for a venue and an epoch.
#[derive(Clone, Copy, Debug)]
pub struct LaneDigest {
    pub lane: CertifiedAdmissionLane,
    pub venue_id: Id,
    pub epoch: u64,
    pub digest: Id,
}

/// A new asset rail.
#[derive(Debug)]
pub struct AssetDefinition {
    pub asset_id: Id,
    pub code: String,
    pub kind: AssetKind,
    pub decimals: u8,
    pub terms_digest: Id,
    pub seal: Seal,
}

/// A new account.
#[derive(Debug)]
pub struct AccountOpening {
    pub handle: Id,
    pub asset_id: Id,
    pub commitment: Id,
    pub issuance_nonce: Id,
    pub seal: Seal,
}

/// A new guarantor.
#[derive(Debug)]
pub struct GuarantorDefinition {
    pub guarantor_id: Id,
    pub kind: GuarantorKind,
    pub name: String,
    pub public_key: Id,
    pub risk_policy_digest: Id,
    pub seal: Seal,
}

/// A new securities depository issuer.
#[derive(Debug)]
pub struct CsdIssuerDefinition {
    pub issuer_id: Id,
    pub code: String,
    pub jurisdiction: String,
    pub operator_entity_commitment: Id,
    pub public_key: Id,
    pub permitted_asset_ids: Vec<Id>,
    pub policy_digest: Id,
    pub valid_from: u64,
    pub valid_until: u64,
    pub seal: Seal,
}

/// What a control does to an issuer.
#[derive(Clone, Copy, Debug, PartialEq, Eq, Structural)]
pub enum CsdIssuerControlKind {
    Activate,
    Suspend,
    Revoke,
}

/// A change of an issuer's standing.
#[derive(Debug)]
pub struct CsdIssuerControl {
    pub operation_id: Id,
    pub issuer_id: Id,
    pub kind: CsdIssuerControlKind,
    pub before_sequence: u64,
    pub reason_digest: Id,
    pub seal: Seal,
}

/// The issuance of a note.
#[derive(Debug)]
pub struct NoteIssuance {
    pub operation_id: Id,
    pub issuance_nonce: Id,
    pub issuer_id: Id,
    pub issued_at: u64,
    pub output: NoteOutput,
    pub proof_digest: Id,
    pub issuer_signature: [u8; 64],
    pub seal: Seal,
}

/// The turning of a claim into a note.
#[derive(Debug)]
pub struct NoteClaimMaterialization {
    pub operation_id: Id,
    pub claim_id: Id,
    pub output: NoteOutput,
    pub ownership_proof_digest: Id,
    pub seal: Seal,
}

/// A new resident committee.
#[derive(Debug)]
pub struct AdmissionCommitteePlan {
    pub operation_id: Id,
    pub venue_id: Id,
    pub epoch: u64,
    pub node_keys: Vec<Id>,
    pub valid_from: u64,
    pub valid_until: u64,
    pub seal: Seal,
}

/// New proof parameters. `key` is the key of their venue and epoch.
#[derive(Debug)]
pub struct SettlementVerifierConfig {
    pub venue_id: Id,
    pub defmi_id: Id,
    pub epoch: u64,
    pub quote_registry_digest: Id,
    pub quote_eligibility_bits: u16,
    pub quote_span_bits: u16,
    pub amount_bits: u16,
    pub price_bits: u16,
    pub max_horizon: u64,
    pub frost_public_package: Vec<u8>,
    pub valid_from: u64,
    pub valid_until: u64,
    pub key: Id,
    pub statement: Result<Id, String>,
}

/// A new admission batch.
#[derive(Debug)]
pub struct AdmissionBatchPlan {
    pub operation_id: Id,
    pub batch_id: Id,
    pub venue_id: Id,
    pub epoch: u64,
    pub slot: u64,
    pub batch_digest: Id,
    pub order_digest: Id,
    pub admission_digests: Vec<Id>,
    pub expires_at: u64,
    pub seal: Seal,
}

/// The skipping of an admission lane.
#[derive(Debug)]
pub struct AdmissionSlotAdvance {
    pub operation_id: Id,
    pub batch_id: Id,
    pub sequence: u64,
    pub admission_digest: Id,
    pub seal: Seal,
}

/// A new credit facility. `guarantor_message` is what its guarantor signs.
#[derive(Debug)]
pub struct CreditFacilityGrant {
    pub operation_id: Id,
    pub facility_id: Id,
    pub guarantor_id: Id,
    pub beneficiary_commitment: Id,
    pub rail_asset_id: Id,
    pub cap_commitment: Id,
    pub available_commitment: Id,
    pub held_commitment: Id,
    pub outstanding_commitment: Id,
    pub collateral_commitment: Id,
    pub risk_policy_digest: Id,
    pub relation_proof_digest: Id,
    pub valid_from: u64,
    pub valid_until: u64,
    pub nonce: Id,
    pub guarantor_signature: [u8; 64],
    pub guarantor_message: Result<Vec<u8>, String>,
    pub seal: Seal,
}

/// What a control does to a facility.
#[derive(Clone, Copy, Debug, PartialEq, Eq, Structural)]
pub enum CreditControlAction {
    Activate,
    Freeze,
    Close,
    Default,
}

/// A change of a facility's standing.
#[derive(Debug)]
pub struct CreditFacilityControl {
    pub operation_id: Id,
    pub facility_id: Id,
    pub action: CreditControlAction,
    pub before_sequence: u64,
    pub effective_at: u64,
    pub reason_digest: Id,
    pub guarantor_signature: [u8; 64],
    pub guarantor_message: Result<Vec<u8>, String>,
    pub seal: Seal,
}

/// Whether an amended facility stays within its limit.
#[derive(Clone, Copy, Debug, PartialEq, Eq, Structural)]
pub enum CreditAmendmentMode {
    WithinLimit,
    OverLimit,
}

/// A change of a facility's terms.
#[derive(Debug)]
pub struct CreditFacilityAmendment {
    pub operation_id: Id,
    pub facility_id: Id,
    pub mode: CreditAmendmentMode,
    pub before_cap_commitment: Id,
    pub after_cap_commitment: Id,
    pub before_available_commitment: Id,
    pub after_available_commitment: Id,
    pub before_held_commitment: Id,
    pub before_outstanding_commitment: Id,
    pub before_overlimit_commitment: Id,
    pub after_overlimit_commitment: Id,
    pub before_collateral_commitment: Id,
    pub after_collateral_commitment: Id,
    pub before_risk_policy_digest: Id,
    pub after_risk_policy_digest: Id,
    pub before_valid_until: u64,
    pub after_valid_until: u64,
    pub before_sequence: u64,
    pub effective_at: u64,
    pub reason_digest: Id,
    pub relation_proof_digest: Id,
    pub guarantor_signature: [u8; 64],
    pub guarantor_message: Result<Vec<u8>, String>,
    pub seal: Seal,
}

} // verus!
