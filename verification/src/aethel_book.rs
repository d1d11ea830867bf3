//! What the machine reads of the book of streaming receivables.

use vstd::prelude::*;

use crate::id::{same_ids, Id};
use crate::table::{Comparable, Numbered, Record, Table};
use crate::text::same_text;

verus! {

/// A service that a provider may offer.
#[derive(Clone, Copy, Debug, PartialEq, Eq, Structural)]
pub enum ProviderCapability {
    StreamAttestor,
    CredentialIssuer,
    CreditAssessor,
    Guarantor,
    LiquidityProvider,
    Servicer,
}

/// The place of a guarantee in the order of losses.
#[derive(Clone, Copy, Debug, PartialEq, Eq, Structural)]
pub enum LossLayer {
    FirstLoss,
    PariPassu,
    Excess,
}

/// The standing of a provider.
#[derive(Clone, Copy, Debug, PartialEq, Eq, Structural)]
pub enum ProviderStatus {
    Active,
    Suspended,
    Revoked,
}

/// A provider. `registration_key` is the key it was registered with, and
/// `sequence` counts the changes since.
#[derive(Debug, PartialEq, Eq)]
pub struct Provider {
    pub participant_id: Id,
    pub public_key: Id,
    pub registration_key: Id,
    pub defmi_guarantor_id: Option<Id>,
    pub capabilities: Vec<ProviderCapability>,
    pub valid_from: u64,
    pub valid_until: u64,
    pub sequence: u64,
    pub status: ProviderStatus,
}

/// A stream of receivables. `root` is the root of its state.
#[derive(Debug, PartialEq, Eq)]
pub struct Stream {
    pub attestor_provider_id: Id,
    pub version: u64,
    pub settlement_asset_id: Id,
    pub eligible_commitment: Id,
    pub pledged_commitment: Id,
    pub root: Result<Id, String>,
}

/// A series of receivable notes and its policy.
#[derive(Clone, Copy, Debug, PartialEq, Eq)]
pub struct Series {
    pub aethel_domain_id: Id,
    pub stream_id: Id,
    pub receivable_asset_id: Id,
    pub issuer_participant_id: Id,
    pub allow_secondary_transfer: bool,
    pub requires_confidential_subject: bool,
    pub eligibility_policy_digest: Id,
    pub claim_policy_digest: Id,
}

/// A decision of a credit assessor.
#[derive(Clone, Copy, Debug, PartialEq, Eq)]
pub struct CreditDecision {
    pub request_id: Id,
    pub provider_id: Id,
    pub model_digest: Id,
    pub policy_digest: Id,
    pub relation_proof_digest: Id,
    pub decision_terms_commitment: Id,
}

/// A guarantor's commitment to cover a loss.
#[derive(Clone, Copy, Debug, PartialEq, Eq)]
pub struct GuaranteeCommitment {
    pub operation_id: Id,
    pub guarantee_id: Id,
    pub request_id: Id,
    pub provider_id: Id,
    pub series_id: Id,
    pub stream_state_version: u64,
    pub stream_state_root: Id,
    pub credit_decision_id: Option<Id>,
    pub defmi_facility_id: Id,
    pub defmi_hold_id: Id,
    pub coverage_commitment: Id,
    pub loss_layer: LossLayer,
    pub guarantee_terms_digest: Id,
    pub claim_policy_digest: Id,
    pub relation_proof_digest: Id,
    pub valid_until: u64,
    pub nonce: Id,
}

/// A liquidity provider's offer to advance cash.
#[derive(Clone, Copy, Debug, PartialEq, Eq)]
pub struct FundingQuote {
    pub operation_id: Id,
    pub provider_id: Id,
    pub cash_reservation_id: Id,
    pub cash_asset_id: Id,
    pub advance_commitment: Id,
    pub valid_until: u64,
}

/// An issuance of a receivable note.
#[derive(Clone, Copy, Debug, PartialEq, Eq)]
pub struct ReceivableIssuance {
    pub operation_id: Id,
    pub issuance_id: Id,
    pub request_id: Id,
    pub series_id: Id,
    pub note_id: Id,
    pub owner_commitment: Id,
    pub face_value_commitment: Id,
    pub before_stream_state_version: u64,
    pub before_stream_state_root: Id,
    pub after_pledged_commitment: Id,
    pub credit_decision_id: Option<Id>,
    pub guarantee_id: Option<Id>,
    pub funding_quote_id: Option<Id>,
    pub zkpi_digest: Id,
    pub relation_proof_digest: Id,
    pub allocation_nullifier: Id,
}

/// A servicer's attestation of a default.
#[derive(Clone, Copy, Debug, PartialEq, Eq)]
pub struct DefaultAttestation {
    pub operation_id: Id,
    pub provider_id: Id,
    pub event_digest: Id,
}

/// A claim on a guarantee.
#[derive(Clone, Copy, Debug, PartialEq, Eq)]
pub struct GuaranteeClaim {
    pub operation_id: Id,
    pub claim_id: Id,
    pub guarantee_id: Id,
    pub issuance_id: Id,
    pub default_attestation_id: Id,
    pub claim_amount_commitment: Id,
    pub recovery_recipient_commitment: Id,
    pub defmi_settlement_digest: Id,
    pub relation_proof_digest: Id,
    pub zkpi_digest: Id,
}

/// Where a recorded guarantee stands. One that is bound to an issuance is still
/// open.
#[derive(Clone, Copy, Debug, PartialEq, Eq, Structural)]
pub enum GuaranteeStatus {
    Open,
    Released,
    Claimed,
}

/// The subject behind a request: the policy that it proved to meet.
#[derive(Clone, Copy, Debug, PartialEq, Eq)]
pub struct ConfidentialSubject {
    pub policy_digest: Id,
}

/// One key epoch of a credential issuer.
#[derive(Clone, Copy, Debug, PartialEq, Eq)]
pub struct CredentialIssuer {
    pub public_key: Id,
    pub namespace_digest: Id,
    pub valid_from: u64,
    pub valid_until: u64,
    pub active: bool,
}

/// The credentials that an issuer has revoked.
#[derive(Debug, PartialEq, Eq)]
pub struct StatusList {
    pub status_epoch: u64,
    pub valid_from: u64,
    pub valid_until: u64,
    pub revoked: Vec<Id>,
}

/// The book of streaming receivables. `root` is the root of the whole book;
/// `unknown_provider`, `unknown_stream` and `unknown_issuer` are its answers to
/// unknown names; `confidential_subjects` gives for a request its subject; and
/// `credential_issuers` and `status_lists` are the directory of issuers, by issuer
/// and key epoch.
#[derive(Debug, PartialEq, Eq)]
pub struct AethelBook {
    pub root: Result<Id, String>,
    pub unknown_provider: String,
    pub unknown_stream: String,
    pub unknown_issuer: String,
    pub providers: Table<Id, Provider>,
    pub streams: Table<Id, Stream>,
    pub series: Table<Id, Series>,
    pub credit_decisions: Table<Id, CreditDecision>,
    pub guarantees: Table<Id, GuaranteeCommitment>,
    pub guarantee_statuses: Table<Id, GuaranteeStatus>,
    pub guarantee_claims: Table<Id, GuaranteeClaim>,
    pub funding_quotes: Table<Id, FundingQuote>,
    pub issuances: Table<Id, ReceivableIssuance>,
    pub default_attestations: Table<Id, DefaultAttestation>,
    pub confidential_subjects: Table<Id, ConfidentialSubject>,
    pub credential_issuers: Table<Numbered, CredentialIssuer>,
    pub status_lists: Table<Numbered, StatusList>,
}

impl AethelBook {
    /// Whether nothing is recorded in the book.
    pub open spec fn is_empty(self) -> bool {
        &&& self.root == Ok::<Id, String>(Id::zero())
        &&& self.unknown_provider@ == "unknown provider"@
        &&& self.unknown_stream@ == "unknown stream"@
        &&& self.unknown_issuer@ == "unknown issuer"@
        &&& self.providers@ == Map::<Id, Provider>::empty()
        &&& self.streams@ == Map::<Id, Stream>::empty()
        &&& self.series@ == Map::<Id, Series>::empty()
        &&& self.credit_decisions@ == Map::<Id, CreditDecision>::empty()
        &&& self.guarantees@ == Map::<Id, GuaranteeCommitment>::empty()
        &&& self.guarantee_statuses@ == Map::<Id, GuaranteeStatus>::empty()
        &&& self.guarantee_claims@ == Map::<Id, GuaranteeClaim>::empty()
        &&& self.funding_quotes@ == Map::<Id, FundingQuote>::empty()
        &&& self.issuances@ == Map::<Id, ReceivableIssuance>::empty()
        &&& self.default_attestations@ == Map::<Id, DefaultAttestation>::empty()
        &&& self.confidential_subjects@ == Map::<Id, ConfidentialSubject>::empty()
        &&& self.credential_issuers@ == Map::<Numbered, CredentialIssuer>::empty()
        &&& self.status_lists@ == Map::<Numbered, StatusList>::empty()
    }

    /// The book with nothing recorded.
    pub fn new() -> (r: AethelBook)
        ensures
            r.is_empty(),
    {
        AethelBook {
            root: Ok(Id::zero()),
            unknown_provider: "unknown provider".to_owned(),
            unknown_stream: "unknown stream".to_owned(),
            unknown_issuer: "unknown issuer".to_owned(),
            providers: Table::new(),
            streams: Table::new(),
            series: Table::new(),
            credit_decisions: Table::new(),
            guarantees: Table::new(),
            guarantee_statuses: Table::new(),
            guarantee_claims: Table::new(),
            funding_quotes: Table::new(),
            issuances: Table::new(),
            default_attestations: Table::new(),
            confidential_subjects: Table::new(),
            credential_issuers: Table::new(),
            status_lists: Table::new(),
        }
    }

    /// Whether the book has lost nothing of what an earlier one held.
    pub fn keeps(&self, before: &AethelBook) -> (r: bool)
        ensures
            r == keeps_book(*before, *self),
    {
        proof {
            reveal(keeps_book);
        }
        self.providers.has_keys_of(&before.providers)
            && self.streams.has_keys_of(&before.streams)
            && self.series.has_keys_of(&before.series)
            && self.credit_decisions.has_keys_of(&before.credit_decisions)
            && self.guarantees.has_keys_of(&before.guarantees)
            && self.guarantee_statuses.has_keys_of(&before.guarantee_statuses)
            && self.guarantee_claims.has_keys_of(&before.guarantee_claims)
            && self.funding_quotes.has_keys_of(&before.funding_quotes)
            && self.issuances.has_keys_of(&before.issuances)
            && self.default_attestations.has_keys_of(&before.default_attestations)
            && self.confidential_subjects.has_keys_of(&before.confidential_subjects)
            && self.credential_issuers.has_keys_of(&before.credential_issuers)
            && self.status_lists.has_keys_of(&before.status_lists)
    }
}

/// Whether nothing that one book holds is gone from another.
#[verifier::opaque]
pub open spec fn keeps_book(before: AethelBook, after: AethelBook) -> bool {
    &&& forall|id: Id| #[trigger]
        before.providers@.contains_key(id) ==> after.providers@.contains_key(id)
    &&& forall|id: Id| #[trigger]
        before.streams@.contains_key(id) ==> after.streams@.contains_key(id)
    &&& forall|id: Id| #[trigger]
        before.series@.contains_key(id) ==> after.series@.contains_key(id)
    &&& forall|id: Id| #[trigger]
        before.credit_decisions@.contains_key(id) ==> after.credit_decisions@.contains_key(id)
    &&& forall|id: Id| #[trigger]
        before.guarantees@.contains_key(id) ==> after.guarantees@.contains_key(id)
    &&& forall|id: Id| #[trigger]
        before.guarantee_statuses@.contains_key(id) ==> after.guarantee_statuses@.contains_key(id)
    &&& forall|id: Id| #[trigger]
        before.guarantee_claims@.contains_key(id) ==> after.guarantee_claims@.contains_key(id)
    &&& forall|id: Id| #[trigger]
        before.funding_quotes@.contains_key(id) ==> after.funding_quotes@.contains_key(id)
    &&& forall|id: Id| #[trigger]
        before.issuances@.contains_key(id) ==> after.issuances@.contains_key(id)
    &&& forall|id: Id| #[trigger]
        before.default_attestations@.contains_key(id) ==> after.default_attestations@.contains_key(
            id,
        )
    &&& forall|id: Id| #[trigger]
        before.confidential_subjects@.contains_key(id)
            ==> after.confidential_subjects@.contains_key(id)
    &&& forall|key: Numbered| #[trigger]
        before.credential_issuers@.contains_key(key) ==> after.credential_issuers@.contains_key(key)
    &&& forall|key: Numbered| #[trigger]
        before.status_lists@.contains_key(key) ==> after.status_lists@.contains_key(key)
}

/// Whether a provider may exercise a capability at a time: it is active, has the
/// capability, and is within its validity.
pub open spec fn exercises(provider: Provider, capability: ProviderCapability, now: u64) -> bool {
    &&& provider.status == ProviderStatus::Active
    &&& provider.capabilities@.contains(capability)
    &&& provider.valid_from <= now <= provider.valid_until
}

impl Provider {
    /// Whether the provider may exercise a capability at a time.
    pub fn has(&self, capability: ProviderCapability, now: u64) -> (r: bool)
        ensures
            r == exercises(*self, capability, now),
    {
        if self.status != ProviderStatus::Active || now < self.valid_from || now
            > self.valid_until {
            return false;
        }
        let mut index: usize = 0;
        while index < self.capabilities.len()
            invariant
                index <= self.capabilities@.len(),
                self.status == ProviderStatus::Active,
                self.valid_from <= now <= self.valid_until,
                forall|i: int| 0 <= i < index ==> self.capabilities@[i] != capability,
            decreases self.capabilities@.len() - index,
        {
            if self.capabilities[index] == capability {
                assert(self.capabilities@[index as int] == capability);
                return true;
            }
            index = index + 1;
        }
        false
    }
}

/// Whether two identifiers, each where there is one, are the same.
pub fn same_choice(left: &Option<Id>, right: &Option<Id>) -> (r: bool)
    ensures
        r == (*left == *right),
{
    match (left, right) {
        (Some(left), Some(right)) => *left == *right,
        (None, None) => true,
        _ => false,
    }
}

fn same_capabilities(
    left: &Vec<ProviderCapability>,
    right: &Vec<ProviderCapability>,
) -> (r: bool)
    ensures
        r == (left@ == right@),
{
    if left.len() != right.len() {
        return false;
    }
    let mut index: usize = 0;
    while index < left.len()
        invariant
            index <= left@.len() == right@.len(),
            forall|i: int| 0 <= i < index ==> left@[i] == right@[i],
        decreases left@.len() - index,
    {
        if left[index] != right[index] {
            assert(left@[index as int] != right@[index as int]);
            return false;
        }
        index = index + 1;
    }
    assert(left@ =~= right@);
    true
}

/// Whether two providers are the same.
pub open spec fn same_provider(left: Provider, right: Provider) -> bool {
    &&& left.participant_id == right.participant_id
    &&& left.public_key == right.public_key
    &&& left.registration_key == right.registration_key
    &&& left.defmi_guarantor_id == right.defmi_guarantor_id
    &&& left.capabilities@ == right.capabilities@
    &&& left.valid_from == right.valid_from
    &&& left.valid_until == right.valid_until
    &&& left.sequence == right.sequence
    &&& left.status == right.status
}

/// Whether a provider has moved to its next key, and nothing else has changed but
/// its sequence.
pub open spec fn rotated(before: Provider, after: Provider, public_key: Id) -> bool {
    &&& after.participant_id == before.participant_id
    &&& after.public_key == public_key
    &&& after.registration_key == before.registration_key
    &&& after.defmi_guarantor_id == before.defmi_guarantor_id
    &&& after.capabilities@ == before.capabilities@
    &&& after.valid_from == before.valid_from
    &&& after.valid_until == before.valid_until
    &&& after.sequence == before.sequence + 1
    &&& after.status == before.status
}

/// Whether a provider has a standing, and nothing else has changed but its
/// sequence.
pub open spec fn restated(before: Provider, after: Provider, status: ProviderStatus) -> bool {
    &&& after.participant_id == before.participant_id
    &&& after.public_key == before.public_key
    &&& after.registration_key == before.registration_key
    &&& after.defmi_guarantor_id == before.defmi_guarantor_id
    &&& after.capabilities@ == before.capabilities@
    &&& after.valid_from == before.valid_from
    &&& after.valid_until == before.valid_until
    &&& after.sequence == before.sequence + 1
    &&& after.status == status
}

impl Provider {
    /// Whether the provider is an earlier one that has moved to its next key.
    pub fn is_rotated(&self, before: &Provider, public_key: &Id) -> (r: bool)
        ensures
            r == rotated(*before, *self, *public_key),
    {
        self.participant_id == before.participant_id && self.public_key == *public_key
            && self.registration_key == before.registration_key
            && same_choice(&self.defmi_guarantor_id, &before.defmi_guarantor_id)
            && same_capabilities(&self.capabilities, &before.capabilities) && self.valid_from
            == before.valid_from && self.valid_until == before.valid_until && before.sequence
            < u64::MAX && self.sequence == before.sequence + 1 && self.status == before.status
    }

    /// Whether the provider is an earlier one that was given a standing.
    pub fn is_restated(&self, before: &Provider, status: ProviderStatus) -> (r: bool)
        ensures
            r == restated(*before, *self, status),
    {
        self.participant_id == before.participant_id && self.public_key == before.public_key
            && self.registration_key == before.registration_key
            && same_choice(&self.defmi_guarantor_id, &before.defmi_guarantor_id)
            && same_capabilities(&self.capabilities, &before.capabilities) && self.valid_from
            == before.valid_from && self.valid_until == before.valid_until && before.sequence
            < u64::MAX && self.sequence == before.sequence + 1 && self.status == status
    }

    /// Whether two providers are the same.
    pub fn same(&self, other: &Provider) -> (r: bool)
        ensures
            r == same_provider(*self, *other),
    {
        self.participant_id == other.participant_id && self.public_key == other.public_key
            && self.registration_key == other.registration_key
            && same_choice(&self.defmi_guarantor_id, &other.defmi_guarantor_id)
            && same_capabilities(&self.capabilities, &other.capabilities) && self.valid_from
            == other.valid_from && self.valid_until == other.valid_until && self.sequence
            == other.sequence && self.status == other.status
    }
}

/// Whether two streams are in the same state. Their roots are derived from it.
pub open spec fn same_stream(left: Stream, right: Stream) -> bool {
    &&& left.attestor_provider_id == right.attestor_provider_id
    &&& left.version == right.version
    &&& left.settlement_asset_id == right.settlement_asset_id
    &&& left.eligible_commitment == right.eligible_commitment
    &&& left.pledged_commitment == right.pledged_commitment
}

impl Stream {
    /// Whether two streams are in the same state.
    pub fn same(&self, other: &Stream) -> (r: bool)
        ensures
            r == same_stream(*self, *other),
    {
        self.attestor_provider_id == other.attestor_provider_id && self.version == other.version
            && self.settlement_asset_id == other.settlement_asset_id && self.eligible_commitment
            == other.eligible_commitment && self.pledged_commitment == other.pledged_commitment
    }
}

impl Series {
    /// Whether two series are the same.
    pub fn same(&self, other: &Series) -> (r: bool)
        ensures
            r == (*self == *other),
    {
        self.aethel_domain_id == other.aethel_domain_id && self.stream_id == other.stream_id
            && self.receivable_asset_id == other.receivable_asset_id
            && self.issuer_participant_id == other.issuer_participant_id
            && self.allow_secondary_transfer == other.allow_secondary_transfer
            && self.requires_confidential_subject == other.requires_confidential_subject
            && self.eligibility_policy_digest == other.eligibility_policy_digest
            && self.claim_policy_digest == other.claim_policy_digest
    }
}

impl CreditDecision {
    /// Whether two decisions are the same.
    pub fn same(&self, other: &CreditDecision) -> (r: bool)
        ensures
            r == (*self == *other),
    {
        self.request_id == other.request_id && self.provider_id == other.provider_id
            && self.model_digest == other.model_digest
            && self.policy_digest == other.policy_digest
            && self.relation_proof_digest == other.relation_proof_digest
            && self.decision_terms_commitment == other.decision_terms_commitment
    }
}

impl GuaranteeCommitment {
    /// Whether two guarantees are the same.
    pub fn same(&self, other: &GuaranteeCommitment) -> (r: bool)
        ensures
            r == (*self == *other),
    {
        self.operation_id == other.operation_id && self.guarantee_id == other.guarantee_id
            && self.request_id == other.request_id && self.provider_id == other.provider_id
            && self.series_id == other.series_id
            && self.stream_state_version == other.stream_state_version
            && self.stream_state_root == other.stream_state_root
            && same_choice(&self.credit_decision_id, &other.credit_decision_id)
            && self.defmi_facility_id == other.defmi_facility_id
            && self.defmi_hold_id == other.defmi_hold_id
            && self.coverage_commitment == other.coverage_commitment
            && self.loss_layer == other.loss_layer
            && self.guarantee_terms_digest == other.guarantee_terms_digest
            && self.claim_policy_digest == other.claim_policy_digest
            && self.relation_proof_digest == other.relation_proof_digest
            && self.valid_until == other.valid_until && self.nonce == other.nonce
    }
}

impl FundingQuote {
    /// Whether two quotes are the same.
    pub fn same(&self, other: &FundingQuote) -> (r: bool)
        ensures
            r == (*self == *other),
    {
        self.operation_id == other.operation_id && self.provider_id == other.provider_id
            && self.cash_reservation_id == other.cash_reservation_id
            && self.cash_asset_id == other.cash_asset_id
            && self.advance_commitment == other.advance_commitment
            && self.valid_until == other.valid_until
    }
}

impl ReceivableIssuance {
    /// Whether two issuances are the same.
    pub fn same(&self, other: &ReceivableIssuance) -> (r: bool)
        ensures
            r == (*self == *other),
    {
        self.operation_id == other.operation_id && self.issuance_id == other.issuance_id
            && self.request_id == other.request_id && self.series_id == other.series_id
            && self.note_id == other.note_id && self.owner_commitment == other.owner_commitment
            && self.face_value_commitment == other.face_value_commitment
            && self.before_stream_state_version == other.before_stream_state_version
            && self.before_stream_state_root == other.before_stream_state_root
            && self.after_pledged_commitment == other.after_pledged_commitment
            && same_choice(&self.credit_decision_id, &other.credit_decision_id)
            && same_choice(&self.guarantee_id, &other.guarantee_id)
            && same_choice(&self.funding_quote_id, &other.funding_quote_id)
            && self.zkpi_digest == other.zkpi_digest
            && self.relation_proof_digest == other.relation_proof_digest
            && self.allocation_nullifier == other.allocation_nullifier
    }
}

impl DefaultAttestation {
    /// Whether two attestations are the same.
    pub fn same(&self, other: &DefaultAttestation) -> (r: bool)
        ensures
            r == (*self == *other),
    {
        self.operation_id == other.operation_id && self.provider_id == other.provider_id
            && self.event_digest == other.event_digest
    }
}

impl GuaranteeClaim {
    /// Whether two claims are the same.
    pub fn same(&self, other: &GuaranteeClaim) -> (r: bool)
        ensures
            r == (*self == *other),
    {
        self.operation_id == other.operation_id && self.claim_id == other.claim_id
            && self.guarantee_id == other.guarantee_id && self.issuance_id == other.issuance_id
            && self.default_attestation_id == other.default_attestation_id
            && self.claim_amount_commitment == other.claim_amount_commitment
            && self.recovery_recipient_commitment == other.recovery_recipient_commitment
            && self.defmi_settlement_digest == other.defmi_settlement_digest
            && self.relation_proof_digest == other.relation_proof_digest && self.zkpi_digest
            == other.zkpi_digest
    }
}

impl CredentialIssuer {
    /// Whether two key epochs are the same.
    pub fn same(&self, other: &CredentialIssuer) -> (r: bool)
        ensures
            r == (*self == *other),
    {
        self.public_key == other.public_key && self.namespace_digest == other.namespace_digest
            && self.valid_from == other.valid_from && self.valid_until == other.valid_until
            && self.active == other.active
    }
}

/// Whether two status lists are the same.
pub open spec fn same_status_list(left: StatusList, right: StatusList) -> bool {
    &&& left.status_epoch == right.status_epoch
    &&& left.valid_from == right.valid_from
    &&& left.valid_until == right.valid_until
    &&& left.revoked@ == right.revoked@
}

impl StatusList {
    /// Whether two status lists are the same.
    pub fn same(&self, other: &StatusList) -> (r: bool)
        ensures
            r == same_status_list(*self, *other),
    {
        self.status_epoch == other.status_epoch && self.valid_from == other.valid_from
            && self.valid_until == other.valid_until && same_ids(&self.revoked, &other.revoked)
    }
}

impl Record for Provider {
    open spec fn same_record(self, other: Self) -> bool {
        same_provider(self, other)
    }
}

impl Comparable for Provider {
    fn is_same_record(&self, other: &Self) -> (r: bool) {
        self.same(other)
    }
}

impl Record for Series {
    open spec fn same_record(self, other: Self) -> bool {
        self == other
    }
}

impl Comparable for Series {
    fn is_same_record(&self, other: &Self) -> (r: bool) {
        self.same(other)
    }
}

impl Record for CreditDecision {
    open spec fn same_record(self, other: Self) -> bool {
        self == other
    }
}

impl Comparable for CreditDecision {
    fn is_same_record(&self, other: &Self) -> (r: bool) {
        self.same(other)
    }
}

impl Record for GuaranteeCommitment {
    open spec fn same_record(self, other: Self) -> bool {
        self == other
    }
}

impl Comparable for GuaranteeCommitment {
    fn is_same_record(&self, other: &Self) -> (r: bool) {
        self.same(other)
    }
}

impl Record for GuaranteeStatus {
    open spec fn same_record(self, other: Self) -> bool {
        self == other
    }
}

impl Comparable for GuaranteeStatus {
    fn is_same_record(&self, other: &Self) -> (r: bool) {
        *self == *other
    }
}

impl Record for GuaranteeClaim {
    open spec fn same_record(self, other: Self) -> bool {
        self == other
    }
}

impl Comparable for GuaranteeClaim {
    fn is_same_record(&self, other: &Self) -> (r: bool) {
        self.same(other)
    }
}

impl Record for FundingQuote {
    open spec fn same_record(self, other: Self) -> bool {
        self == other
    }
}

impl Comparable for FundingQuote {
    fn is_same_record(&self, other: &Self) -> (r: bool) {
        self.same(other)
    }
}

impl Record for ReceivableIssuance {
    open spec fn same_record(self, other: Self) -> bool {
        self == other
    }
}

impl Comparable for ReceivableIssuance {
    fn is_same_record(&self, other: &Self) -> (r: bool) {
        self.same(other)
    }
}

impl Record for DefaultAttestation {
    open spec fn same_record(self, other: Self) -> bool {
        self == other
    }
}

impl Comparable for DefaultAttestation {
    fn is_same_record(&self, other: &Self) -> (r: bool) {
        self.same(other)
    }
}

impl Record for CredentialIssuer {
    open spec fn same_record(self, other: Self) -> bool {
        self == other
    }
}

impl Comparable for CredentialIssuer {
    fn is_same_record(&self, other: &Self) -> (r: bool) {
        self.same(other)
    }
}

impl Record for ConfidentialSubject {
    open spec fn same_record(self, other: Self) -> bool {
        self == other
    }
}

impl Comparable for ConfidentialSubject {
    fn is_same_record(&self, other: &Self) -> (r: bool) {
        self.policy_digest == other.policy_digest
    }
}

impl Record for StatusList {
    open spec fn same_record(self, other: Self) -> bool {
        same_status_list(self, other)
    }
}

impl Comparable for StatusList {
    fn is_same_record(&self, other: &Self) -> (r: bool) {
        self.same(other)
    }
}

/// Whether two roots, or the reasons that there are none, are the same.
pub open spec fn same_root(left: Result<Id, String>, right: Result<Id, String>) -> bool {
    match (left, right) {
        (Ok(left), Ok(right)) => left == right,
        (Err(left), Err(right)) => left@ == right@,
        _ => false,
    }
}

fn is_same_root(left: &Result<Id, String>, right: &Result<Id, String>) -> (r: bool)
    ensures
        r == same_root(*left, *right),
{
    match (left, right) {
        (Ok(left), Ok(right)) => *left == *right,
        (Err(left), Err(right)) => same_text(left.as_str(), right.as_str()),
        _ => false,
    }
}

impl Record for Stream {
    open spec fn same_record(self, other: Self) -> bool {
        same_stream(self, other) && same_root(self.root, other.root)
    }
}

impl Comparable for Stream {
    fn is_same_record(&self, other: &Self) -> (r: bool) {
        self.same(other) && is_same_root(&self.root, &other.root)
    }
}

} // verus!
