//! The replicated state: its records, its tables and their mathematical view.

use std::sync::Arc;
use vstd::prelude::*;

use crate::aethel_book::AethelBook;
use crate::clearing_book::ClearingBook;
use crate::id::Id;
use crate::table::{Numbered, Table};

verus! {

/// What an asset is.
#[derive(Clone, Copy, Debug, PartialEq, Eq, Structural)]
pub enum AssetKind {
    Cash,
    Security,
    Fund,
    Commodity,
    Carbon,
    Other,
}

impl AssetKind {
    /// The name under which the value is written.
    pub open spec fn name(self) -> Seq<char> {
        match self {
            AssetKind::Cash => "cash"@,
            AssetKind::Security => "security"@,
            AssetKind::Fund => "fund"@,
            AssetKind::Commodity => "commodity"@,
            AssetKind::Carbon => "carbon"@,
            AssetKind::Other => "other"@,
        }
    }

    /// The name under which the value is written.
    pub fn as_str(self) -> (r: &'static str)
        ensures
            r@ == self.name(),
    {
        match self {
            AssetKind::Cash => "cash",
            AssetKind::Security => "security",
            AssetKind::Fund => "fund",
            AssetKind::Commodity => "commodity",
            AssetKind::Carbon => "carbon",
            AssetKind::Other => "other",
        }
    }
}

/// Who stands behind a guarantee.
#[derive(Clone, Copy, Debug, PartialEq, Eq, Structural)]
pub enum GuarantorKind {
    CentralCounterparty,
    Bank,
    SelfGuaranteed,
    CreditProvider,
}

impl GuarantorKind {
    /// The name under which the value is written.
    pub open spec fn name(self) -> Seq<char> {
        match self {
            GuarantorKind::CentralCounterparty => "ccp"@,
            GuarantorKind::Bank => "bank"@,
            GuarantorKind::SelfGuaranteed => "self"@,
            GuarantorKind::CreditProvider => "credit_provider"@,
        }
    }

    /// The name under which the value is written.
    pub fn as_str(self) -> (r: &'static str)
        ensures
            r@ == self.name(),
    {
        match self {
            GuarantorKind::CentralCounterparty => "ccp",
            GuarantorKind::Bank => "bank",
            GuarantorKind::SelfGuaranteed => "self",
            GuarantorKind::CreditProvider => "credit_provider",
        }
    }
}

/// The standing of a securities depository issuer.
#[derive(Clone, Copy, Debug, PartialEq, Eq, Structural)]
pub enum IssuerStatus {
    Active,
    Suspended,
    Revoked,
}

impl IssuerStatus {
    /// The name under which the value is written.
    pub open spec fn name(self) -> Seq<char> {
        match self {
            IssuerStatus::Active => "active"@,
            IssuerStatus::Suspended => "suspended"@,
            IssuerStatus::Revoked => "revoked"@,
        }
    }

    /// The name under which the value is written.
    pub fn as_str(self) -> (r: &'static str)
        ensures
            r@ == self.name(),
    {
        match self {
            IssuerStatus::Active => "active",
            IssuerStatus::Suspended => "suspended",
            IssuerStatus::Revoked => "revoked",
        }
    }
}

/// The standing of a credit facility.
#[derive(Clone, Copy, Debug, PartialEq, Eq, Structural)]
pub enum FacilityStatus {
    Active,
    Suspended,
    Frozen,
    Closed,
    Defaulted,
}

impl FacilityStatus {
    /// The name under which the value is written.
    pub open spec fn name(self) -> Seq<char> {
        match self {
            FacilityStatus::Active => "active"@,
            FacilityStatus::Suspended => "suspended"@,
            FacilityStatus::Frozen => "frozen"@,
            FacilityStatus::Closed => "closed"@,
            FacilityStatus::Defaulted => "defaulted"@,
        }
    }

    /// The name under which the value is written.
    pub fn as_str(self) -> (r: &'static str)
        ensures
            r@ == self.name(),
    {
        match self {
            FacilityStatus::Active => "active",
            FacilityStatus::Suspended => "suspended",
            FacilityStatus::Frozen => "frozen",
            FacilityStatus::Closed => "closed",
            FacilityStatus::Defaulted => "defaulted",
        }
    }
}

/// The standing of a credit hold, of an escrow and of an application reservation.
#[derive(Clone, Copy, Debug, PartialEq, Eq, Structural)]
pub enum HoldStatus {
    Active,
    Released,
    Consumed,
}

impl HoldStatus {
    /// The name under which the value is written.
    pub open spec fn name(self) -> Seq<char> {
        match self {
            HoldStatus::Active => "active"@,
            HoldStatus::Released => "released"@,
            HoldStatus::Consumed => "consumed"@,
        }
    }

    /// The name under which the value is written.
    pub fn as_str(self) -> (r: &'static str)
        ensures
            r@ == self.name(),
    {
        match self {
            HoldStatus::Active => "active",
            HoldStatus::Released => "released",
            HoldStatus::Consumed => "consumed",
        }
    }
}

/// The standing of a note claim.
#[derive(Clone, Copy, Debug, PartialEq, Eq, Structural)]
pub enum ClaimStatus {
    Active,
    Materialized,
}

impl ClaimStatus {
    /// The name under which the value is written.
    pub open spec fn name(self) -> Seq<char> {
        match self {
            ClaimStatus::Active => "active"@,
            ClaimStatus::Materialized => "materialized"@,
        }
    }

    /// The name under which the value is written.
    pub fn as_str(self) -> (r: &'static str)
        ensures
            r@ == self.name(),
    {
        match self {
            ClaimStatus::Active => "active",
            ClaimStatus::Materialized => "materialized",
        }
    }
}

/// What a note claim entitles its recipient to.
#[derive(Clone, Copy, Debug, PartialEq, Eq, Structural)]
pub enum NoteClaimKind {
    Delivery,
    Refund,
}

impl NoteClaimKind {
    /// The name under which the value is written.
    pub open spec fn name(self) -> Seq<char> {
        match self {
            NoteClaimKind::Delivery => "delivery"@,
            NoteClaimKind::Refund => "refund"@,
        }
    }

    /// The name under which the value is written.
    pub fn as_str(self) -> (r: &'static str)
        ensures
            r@ == self.name(),
    {
        match self {
            NoteClaimKind::Delivery => "delivery",
            NoteClaimKind::Refund => "refund",
        }
    }
}

/// The side of a trade that a reservation belongs to.
#[derive(Clone, Copy, Debug, PartialEq, Eq, Structural)]
pub enum ReservationRole {
    Maker,
    Taker,
}

impl ReservationRole {
    /// The name under which the value is written.
    pub open spec fn name(self) -> Seq<char> {
        match self {
            ReservationRole::Maker => "maker"@,
            ReservationRole::Taker => "taker"@,
        }
    }

    /// The name under which the value is written.
    pub fn as_str(self) -> (r: &'static str)
        ensures
            r@ == self.name(),
    {
        match self {
            ReservationRole::Maker => "maker",
            ReservationRole::Taker => "taker",
        }
    }
}

/// A role that the participant registry has verified.
#[derive(Clone, Copy, Debug, PartialEq, Eq, Structural)]
pub enum ParticipantRole {
    StreamAttestor,
    CredentialIssuer,
    CreditAssessor,
    Guarantor,
    LiquidityProvider,
    Servicer,
}

/// An asset rail.
#[derive(Debug, PartialEq, Eq)]
pub struct AssetRecord {
    pub code: String,
    pub kind: AssetKind,
    pub decimals: u8,
    pub terms_digest: Id,
    pub active: bool,
}

/// A securities depository that may issue notes.
#[derive(Debug, PartialEq, Eq)]
pub struct CsdIssuerRecord {
    pub code: Arc<String>,
    pub jurisdiction: Arc<String>,
    pub operator_entity_commitment: Id,
    pub public_key: Id,
    pub permitted_asset_ids: Arc<Vec<Id>>,
    pub policy_digest: Id,
    pub valid_from: u64,
    pub valid_until: u64,
    pub status: IssuerStatus,
    pub sequence: u64,
}

/// A note of the anonymous ledger.
#[derive(Clone, Copy, Debug, PartialEq, Eq)]
pub struct NoteRecord {
    pub asset_id: Id,
    pub one_time: Id,
    pub value_commitment: Id,
    pub ephemeral: Id,
    pub masked_value: Id,
    pub masked_blinding: Id,
    pub lock_id: Id,
}

/// The settlement that consumed a note.
#[derive(Clone, Copy, Debug, PartialEq, Eq)]
pub struct NoteSerialRecord {
    pub deadline: u64,
    pub asset_id: Id,
    pub ring_root: Id,
    pub statement: Id,
}

/// The settlement that used up a nullifier.
#[derive(Clone, Copy, Debug, PartialEq, Eq)]
pub struct NullifierRecord {
    pub deadline: u64,
    pub statement: Id,
}

/// One party's encrypted share of a note opening.
#[derive(Clone, Copy, Debug, PartialEq, Eq)]
pub struct OpeningShare {
    pub party: usize,
    pub ephemeral: Id,
    pub masked_value: Id,
    pub masked_blinding: Id,
}

/// The encrypted opening of a claimed note, shared among parties.
#[derive(Debug, PartialEq, Eq)]
pub struct OpeningEnvelope {
    pub context: Id,
    pub threshold: usize,
    pub recipient_view: Id,
    pub shares: Vec<OpeningShare>,
}

/// An entitlement to a note that a settlement has produced.
#[derive(Debug, PartialEq, Eq)]
pub struct NoteClaimRecord {
    pub asset_id: Id,
    pub value_commitment: Id,
    pub recipient_commitment: Id,
    pub source_hold_id: Id,
    pub kind: NoteClaimKind,
    pub opening_envelope: Arc<OpeningEnvelope>,
    pub status: ClaimStatus,
    pub settlement_digest: Id,
    pub materialization: Id,
}

/// The resident committee of a venue for one epoch.
#[derive(Debug, PartialEq, Eq)]
pub struct AdmissionCommitteeRecord {
    pub venue_id: Id,
    pub epoch: u64,
    pub node_keys: Vec<Id>,
    pub valid_from: u64,
    pub valid_until: u64,
    pub statement: Id,
}

/// A fixed population of admitted lanes, consumed in order.
#[derive(Clone, Copy, Debug, PartialEq, Eq)]
pub struct AdmissionBatchRecord {
    pub venue_id: Id,
    pub epoch: u64,
    pub slot: u64,
    pub batch_digest: Id,
    pub order_digest: Id,
    pub population: u64,
    pub consumed: u64,
    pub expires_at: u64,
    pub statement: Id,
}

/// One lane of an admission batch.
#[derive(Clone, Copy, Debug, PartialEq, Eq)]
pub struct AdmissionEntryRecord {
    pub batch_id: Id,
    pub sequence: u64,
    pub admission_digest: Id,
    pub consumed_by: Id,
}

/// The proof parameters that governance pins for a venue and epoch.
#[derive(Debug, PartialEq, Eq)]
pub struct SettlementVerifierRecord {
    pub venue_id: Id,
    pub defmi_id: Id,
    pub epoch: u64,
    pub quote_registry_digest: Id,
    pub quote_eligibility_bits: u16,
    pub quote_span_bits: u16,
    pub amount_bits: u16,
    pub price_bits: u16,
    pub max_horizon: u64,
    pub frost_public_package: Vec<u8>,
    pub valid_from: u64,
    pub valid_until: u64,
    pub statement: Id,
}

/// A committed balance on one asset rail.
#[derive(Clone, Copy, Debug, PartialEq, Eq)]
pub struct AccountRecord {
    pub asset_id: Id,
    pub commitment: Id,
    pub sequence: u64,
}

/// A guarantor.
#[derive(Debug, PartialEq, Eq)]
pub struct GuarantorRecord {
    pub kind: GuarantorKind,
    pub name: String,
    pub public_key: Id,
    pub risk_policy_digest: Id,
    pub active: bool,
}

/// A guarantee facility with committed balances.
#[derive(Clone, Copy, Debug, PartialEq, Eq)]
pub struct CreditFacilityRecord {
    pub guarantor_id: Id,
    pub beneficiary_commitment: Id,
    pub rail_asset_id: Id,
    pub cap_commitment: Id,
    pub available_commitment: Id,
    pub held_commitment: Id,
    pub outstanding_commitment: Id,
    pub overlimit_commitment: Id,
    pub collateral_commitment: Id,
    pub risk_policy_digest: Id,
    pub valid_from: u64,
    pub valid_until: u64,
    pub status: FacilityStatus,
    pub sequence: u64,
}

/// A hold on a facility.
#[derive(Clone, Copy, Debug, PartialEq, Eq)]
pub struct CreditHoldRecord {
    pub facility_id: Id,
    pub query_commitment: Id,
    pub amount_commitment: Id,
    pub expires_at: u64,
    pub status: HoldStatus,
    pub settlement_digest: Id,
    pub created_sequence: u64,
    pub updated_sequence: u64,
}

/// What a reservation was signed for.
#[derive(Clone, Copy, Debug, PartialEq, Eq)]
pub struct ReservationBindingRecord {
    pub role: ReservationRole,
    pub entity_commitment: Id,
    pub asset_id: Id,
    pub direction: u8,
    pub authorization_digest: Id,
    pub mandate_digest: Id,
    pub typed_reserve_digest: Id,
    pub reserve_nullifier: Id,
    pub asset_link_proof_digest: Id,
    pub limit_price_commitment: Id,
    pub rfq_nullifier: Id,
    pub policy_version: u64,
    pub admission_ticket_id: Id,
    pub admission_slot: u64,
    pub admission_receipt_digest: Id,
    pub admission_epoch: u64,
    pub admission_sequence: u64,
    pub admission_batch_id: Id,
    pub receipt_digest: Id,
}

/// The account balance that backs a reservation.
#[derive(Clone, Copy, Debug, PartialEq, Eq)]
pub struct ReservationEscrowRecord {
    pub source_handle: Id,
    pub escrow_handle: Id,
    pub asset_id: Id,
    pub amount_commitment: Id,
    pub source_before_commitment: Id,
    pub source_after_commitment: Id,
    pub source_before_sequence: u64,
    pub proof_digest: Id,
    pub status: HoldStatus,
    pub settlement_digest: Id,
}

/// The locked note that backs an anonymous reservation.
#[derive(Clone, Copy, Debug, PartialEq, Eq)]
pub struct NoteReservationRecord {
    pub escrow_note_id: Id,
    pub asset_id: Id,
    pub amount_commitment: Id,
    pub proof_digest: Id,
    pub delegation_digest: Id,
    pub status: HoldStatus,
    pub settlement_digest: Id,
}

/// The application, venue and committee that a reservation is made for.
#[derive(Clone, Copy, Debug, PartialEq, Eq)]
pub struct ApplicationScope {
    pub application_binding: Id,
    pub venue_id: Id,
    pub defmi_id: Id,
    pub committee_key_digest: Id,
    pub committee_epoch: u64,
    pub amount_bits: u16,
}

/// What an application reservation was signed for.
#[derive(Clone, Copy, Debug, PartialEq, Eq)]
pub struct ApplicationBinding {
    pub scope: ApplicationScope,
    pub hold_id: Id,
    pub facility_id: Id,
    pub entity_commitment: Id,
    pub asset_id: Id,
    pub amount_commitment: Id,
    pub receipt_digest: Id,
    pub valid_from: u64,
    pub valid_until: u64,
}

/// A reservation that an application fills in parts. `covenant_serial` is the
/// serial under which its escrowed note counts as spent.
#[derive(Debug, PartialEq, Eq)]
pub struct ApplicationReservationRecord {
    pub binding: ApplicationBinding,
    pub escrow_note_id: Id,
    pub covenant_serial: Id,
    pub status: HoldStatus,
    pub sequence: u64,
    pub remaining_commitment: Option<Id>,
    pub last_receipt: Option<Id>,
    pub remaining_opening: Option<Arc<Vec<u8>>>,
    pub settlement_digest: Id,
}

impl ApplicationReservationRecord {
    /// The commitment to what is left of the reservation.
    pub open spec fn remaining_spec(self) -> Id {
        match self.remaining_commitment {
            Some(commitment) => commitment,
            None => self.binding.amount_commitment,
        }
    }

    /// The commitment to what is left of the reservation.
    pub fn remaining(&self) -> (r: Id)
        ensures
            r == self.remaining_spec(),
    {
        match self.remaining_commitment {
            Some(commitment) => commitment,
            None => self.binding.amount_commitment,
        }
    }

    /// The receipt of the last change of the reservation.
    pub open spec fn head_receipt_spec(self) -> Id {
        match self.last_receipt {
            Some(receipt) => receipt,
            None => self.binding.receipt_digest,
        }
    }

    /// The receipt of the last change of the reservation.
    pub fn head_receipt(&self) -> (r: Id)
        ensures
            r == self.head_receipt_spec(),
    {
        match self.last_receipt {
            Some(receipt) => receipt,
            None => self.binding.receipt_digest,
        }
    }
}

/// A participant of the registry.
#[derive(Debug, PartialEq, Eq)]
pub struct ParticipantRecord {
    pub roles: Vec<ParticipantRole>,
    pub quote_public_key: Id,
    pub valid_from: u64,
    pub valid_until: u64,
    pub active: bool,
}

/// The replicated state. `transition_count` is the number of transactions that
/// were carried out.
#[derive(Debug, PartialEq, Eq)]
pub struct State {
    pub assets: Table<Id, AssetRecord>,
    pub csd_issuers: Table<Id, CsdIssuerRecord>,
    pub notes: Table<Id, NoteRecord>,
    pub note_issuances: Table<Id, Id>,
    pub note_claims: Table<Id, NoteClaimRecord>,
    pub note_serials: Table<Id, NoteSerialRecord>,
    pub nullifiers: Table<Id, NullifierRecord>,
    pub rfq_nullifiers: Table<Id, Id>,
    pub operations: Table<Id, Id>,
    pub admission_committees: Table<Numbered, AdmissionCommitteeRecord>,
    pub admission_batches: Table<Id, AdmissionBatchRecord>,
    pub admission_entries: Table<Numbered, AdmissionEntryRecord>,
    pub settlement_verifiers: Table<Id, SettlementVerifierRecord>,
    pub accounts: Table<Id, AccountRecord>,
    pub guarantors: Table<Id, GuarantorRecord>,
    pub credit_facilities: Table<Id, CreditFacilityRecord>,
    pub credit_holds: Table<Id, CreditHoldRecord>,
    pub reservation_bindings: Table<Id, ReservationBindingRecord>,
    pub reservation_escrows: Table<Id, ReservationEscrowRecord>,
    pub note_reservations: Table<Id, NoteReservationRecord>,
    pub application_reserve_scopes: Table<Id, ApplicationScope>,
    pub application_reservations: Table<Id, ApplicationReservationRecord>,
    pub application_states: Table<Id, Vec<u8>>,
    pub participants: Table<Id, ParticipantRecord>,
    pub aethel: Arc<AethelBook>,
    pub deccp: Option<Arc<ClearingBook>>,
    pub transition_count: u64,
}

/// The replicated state as maps.
#[verifier::ext_equal]
pub struct Ledger {
    pub assets: Map<Id, AssetRecord>,
    pub csd_issuers: Map<Id, CsdIssuerRecord>,
    pub notes: Map<Id, NoteRecord>,
    pub note_issuances: Map<Id, Id>,
    pub note_claims: Map<Id, NoteClaimRecord>,
    pub note_serials: Map<Id, NoteSerialRecord>,
    pub nullifiers: Map<Id, NullifierRecord>,
    pub rfq_nullifiers: Map<Id, Id>,
    pub operations: Map<Id, Id>,
    pub admission_committees: Map<Numbered, AdmissionCommitteeRecord>,
    pub admission_batches: Map<Id, AdmissionBatchRecord>,
    pub admission_entries: Map<Numbered, AdmissionEntryRecord>,
    pub settlement_verifiers: Map<Id, SettlementVerifierRecord>,
    pub accounts: Map<Id, AccountRecord>,
    pub guarantors: Map<Id, GuarantorRecord>,
    pub credit_facilities: Map<Id, CreditFacilityRecord>,
    pub credit_holds: Map<Id, CreditHoldRecord>,
    pub reservation_bindings: Map<Id, ReservationBindingRecord>,
    pub reservation_escrows: Map<Id, ReservationEscrowRecord>,
    pub note_reservations: Map<Id, NoteReservationRecord>,
    pub application_reserve_scopes: Map<Id, ApplicationScope>,
    pub application_reservations: Map<Id, ApplicationReservationRecord>,
    pub application_states: Map<Id, Vec<u8>>,
    pub participants: Map<Id, ParticipantRecord>,
    pub aethel: AethelBook,
    pub deccp: Option<ClearingBook>,
    pub transition_count: u64,
}

/// The clearing book behind an optional shared one.
pub open spec fn hosted(book: Option<Arc<ClearingBook>>) -> Option<ClearingBook> {
    match book {
        Some(shared) => Some(*shared),
        None => None,
    }
}

impl View for State {
    type V = Ledger;

    open spec fn view(&self) -> Ledger {
        Ledger {
            assets: self.assets@,
            csd_issuers: self.csd_issuers@,
            notes: self.notes@,
            note_issuances: self.note_issuances@,
            note_claims: self.note_claims@,
            note_serials: self.note_serials@,
            nullifiers: self.nullifiers@,
            rfq_nullifiers: self.rfq_nullifiers@,
            operations: self.operations@,
            admission_committees: self.admission_committees@,
            admission_batches: self.admission_batches@,
            admission_entries: self.admission_entries@,
            settlement_verifiers: self.settlement_verifiers@,
            accounts: self.accounts@,
            guarantors: self.guarantors@,
            credit_facilities: self.credit_facilities@,
            credit_holds: self.credit_holds@,
            reservation_bindings: self.reservation_bindings@,
            reservation_escrows: self.reservation_escrows@,
            note_reservations: self.note_reservations@,
            application_reserve_scopes: self.application_reserve_scopes@,
            application_reservations: self.application_reservations@,
            application_states: self.application_states@,
            participants: self.participants@,
            aethel: *self.aethel,
            deccp: hosted(self.deccp),
            transition_count: self.transition_count,
        }
    }
}

impl State {
    /// The state before the first transaction.
    pub fn new() -> (r: State)
        ensures
            r@ == (Ledger {
                assets: Map::empty(),
                csd_issuers: Map::empty(),
                notes: Map::empty(),
                note_issuances: Map::empty(),
                note_claims: Map::empty(),
                note_serials: Map::empty(),
                nullifiers: Map::empty(),
                rfq_nullifiers: Map::empty(),
                operations: Map::empty(),
                admission_committees: Map::empty(),
                admission_batches: Map::empty(),
                admission_entries: Map::empty(),
                settlement_verifiers: Map::empty(),
                accounts: Map::empty(),
                guarantors: Map::empty(),
                credit_facilities: Map::empty(),
                credit_holds: Map::empty(),
                reservation_bindings: Map::empty(),
                reservation_escrows: Map::empty(),
                note_reservations: Map::empty(),
                application_reserve_scopes: Map::empty(),
                application_reservations: Map::empty(),
                application_states: Map::empty(),
                participants: Map::empty(),
                aethel: r@.aethel,
                deccp: None,
                transition_count: 0,
            }),
            r@.aethel.is_empty(),
    {
        State {
            assets: Table::new(),
            csd_issuers: Table::new(),
            notes: Table::new(),
            note_issuances: Table::new(),
            note_claims: Table::new(),
            note_serials: Table::new(),
            nullifiers: Table::new(),
            rfq_nullifiers: Table::new(),
            operations: Table::new(),
            admission_committees: Table::new(),
            admission_batches: Table::new(),
            admission_entries: Table::new(),
            settlement_verifiers: Table::new(),
            accounts: Table::new(),
            guarantors: Table::new(),
            credit_facilities: Table::new(),
            credit_holds: Table::new(),
            reservation_bindings: Table::new(),
            reservation_escrows: Table::new(),
            note_reservations: Table::new(),
            application_reserve_scopes: Table::new(),
            application_reservations: Table::new(),
            application_states: Table::new(),
            participants: Table::new(),
            aethel: Arc::new(AethelBook::new()),
            deccp: None,
            transition_count: 0,
        }
    }

    /// A copy that shares the records of this state. Changes of one are not
    /// seen by the other.
    pub fn share(&self) -> (r: State)
        ensures
            r@ == self@,
    {
        let deccp = match &self.deccp {
            Some(book) => Some(Arc::clone(book)),
            None => None,
        };
        State {
            assets: self.assets.share(),
            csd_issuers: self.csd_issuers.share(),
            notes: self.notes.share(),
            note_issuances: self.note_issuances.share(),
            note_claims: self.note_claims.share(),
            note_serials: self.note_serials.share(),
            nullifiers: self.nullifiers.share(),
            rfq_nullifiers: self.rfq_nullifiers.share(),
            operations: self.operations.share(),
            admission_committees: self.admission_committees.share(),
            admission_batches: self.admission_batches.share(),
            admission_entries: self.admission_entries.share(),
            settlement_verifiers: self.settlement_verifiers.share(),
            accounts: self.accounts.share(),
            guarantors: self.guarantors.share(),
            credit_facilities: self.credit_facilities.share(),
            credit_holds: self.credit_holds.share(),
            reservation_bindings: self.reservation_bindings.share(),
            reservation_escrows: self.reservation_escrows.share(),
            note_reservations: self.note_reservations.share(),
            application_reserve_scopes: self.application_reserve_scopes.share(),
            application_reservations: self.application_reservations.share(),
            application_states: self.application_states.share(),
            participants: self.participants.share(),
            aethel: Arc::clone(&self.aethel),
            deccp,
            transition_count: self.transition_count,
        }
    }
}

} // verus!
