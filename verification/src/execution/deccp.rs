//! The clearing book that holds guarantee capacity, and the evidence from this
//! machine's records that it asks for.

use std::sync::Arc;
use vstd::prelude::*;
use vstd::string::*;
use vstd::utf8::encode_utf8;

use crate::aethel_book::{
    exercises, same_status_list, AethelBook, CredentialIssuer, Provider, ProviderCapability,
    StatusList,
};
use crate::bytes::{append, append_be, be_bytes};
use crate::clearing_book::{ClearingBook, ConfidentialFacility, ConfidentialHold};
use crate::crypto::sha256;
use crate::endorsement::{
    authorization_refusal, authorize_statement, statement_of, statement_refusal, Submission,
};
use crate::execution::clearing_question::{
    answer_refusal, read_answer, ClearingAnswer, ClearingQuestion,
};
use crate::execution::product::operated;
use crate::id::Id;
use crate::outcome::{
    accepted, first, meets, refusal_of, refuse, repeat, unless, verdict, Outcome,
};
use crate::state::{
    AssetKind, CreditFacilityRecord, FacilityStatus, HoldStatus, Ledger, State,
};
use crate::table::Numbered;
use crate::text::join;

verus! {

/// Kinds of hidden-capacity transition that can be attested from the records.
#[derive(Clone, Copy, Debug, PartialEq, Eq, Structural)]
pub enum FacilityTransition {
    Reserve,
    Release,
    Claim,
}

impl FacilityTransition {
    /// The number of the kind in digests.
    pub open spec fn number(self) -> u8 {
        match self {
            FacilityTransition::Reserve => 1,
            FacilityTransition::Release => 2,
            FacilityTransition::Claim => 3,
        }
    }

    /// The number of the kind in digests.
    pub fn tag(self) -> (r: u8)
        ensures
            r == self.number(),
    {
        match self {
            FacilityTransition::Reserve => 1,
            FacilityTransition::Release => 2,
            FacilityTransition::Claim => 3,
        }
    }
}

/// The bytes of a domain separator.
pub open spec fn domain(text: Seq<char>) -> Seq<u8> {
    encode_utf8(text)
}

fn domain_bytes(text: &str) -> (r: Vec<u8>)
    ensures
        r@ == domain(text@),
{
    let mut bytes: Vec<u8> = Vec::new();
    append(&mut bytes, text.as_bytes());
    assert(bytes@ =~= domain(text@));
    bytes
}

/// The registration of the clearing book. `authorities` is the verdict on its
/// authority set, and `encoded` its canonical encoding.
#[derive(Debug)]
pub struct ClearingBookRegistration {
    pub operation_id: Id,
    pub capitalization: CcpCapitalization,
    pub authorities: Result<(), String>,
    pub encoded: Result<Vec<u8>, String>,
}

impl ClearingBookRegistration {
    /// Why the registration has no statement.
    pub open spec fn refusal(self) -> Option<Seq<char>> {
        if self.operation_id == Id::zero() {
            Some("DeCCP clearing book registration has no operation id"@)
        } else if refusal_of(self.authorities) is Some {
            refusal_of(self.authorities)
        } else {
            match self.encoded {
                Err(message) => Some(message@),
                Ok(_) => None,
            }
        }
    }

    /// The digest of the encoding after its domain and its length.
    pub open spec fn digest(self) -> Id {
        let encoded = self.encoded->Ok_0@;
        Id(
            sha256(
                domain("AETHEL-DECCP:CLEARING-BOOK:v1"@) + be_bytes(encoded.len() as int, 8)
                    + encoded,
            ),
        )
    }

    /// The statement of the registration.
    pub fn statement(&self) -> (r: Result<Id, String>)
        ensures
            match r {
                Ok(statement) => self.refusal() is None && statement == self.digest(),
                Err(message) => self.refusal() == Some(message@),
            },
    {
        if self.operation_id == Id::zero() {
            return refuse("DeCCP clearing book registration has no operation id");
        }
        repeat(&self.authorities)?;
        let encoded = match &self.encoded {
            Ok(encoded) => encoded,
            Err(message) => return Err(message.clone()),
        };
        let mut bytes = domain_bytes("AETHEL-DECCP:CLEARING-BOOK:v1");
        append_be(&mut bytes, encoded.len() as u64, 8);
        append(&mut bytes, encoded.as_slice());
        Ok(Id::digest(bytes.as_slice()))
    }
}

/// The scope that every clearing-membership credential is issued for.
pub fn membership_scope_digest() -> (r: Id)
    ensures
        r == Id(sha256(domain("AETHEL-DECCP:CLEARING-MEMBERSHIP-SCOPE:v1"@))),
{
    let bytes = domain_bytes("AETHEL-DECCP:CLEARING-MEMBERSHIP-SCOPE:v1");
    Id::digest(bytes.as_slice())
}

/// The lock that a cash note carries to count as the counterparty's capital.
pub open spec fn capital_lock() -> Id {
    Id(sha256(domain("AETHEL-DECCP:CCP-CAPITAL-LOCK:v1"@)))
}

/// The lock that a cash note carries to count as the counterparty's capital.
pub fn capital_lock_tag() -> (r: Id)
    ensures
        r == capital_lock(),
{
    let bytes = domain_bytes("AETHEL-DECCP:CCP-CAPITAL-LOCK:v1");
    Id::digest(bytes.as_slice())
}

/// The lock that a cash note carries to count as a member's default fund.
pub open spec fn default_fund_lock(participant_id: Id) -> Id {
    Id(sha256(domain("AETHEL-DECCP:DEFAULT-FUND-LOCK:v1"@) + participant_id.0@))
}

/// The lock that a cash note carries to count as a member's default fund.
pub fn default_fund_lock_tag(participant_id: Id) -> (r: Id)
    ensures
        r == default_fund_lock(participant_id),
{
    let mut bytes = domain_bytes("AETHEL-DECCP:DEFAULT-FUND-LOCK:v1");
    append(&mut bytes, &participant_id.0);
    Id::digest(bytes.as_slice())
}

/// The hidden-capacity state that a facility starts from: its committed cap and
/// collateral.
pub open spec fn initial_state(facility_id: Id, record: CreditFacilityRecord) -> Id {
    Id(
        sha256(
            domain("AETHEL-DECCP:FACILITY-STATE:v1"@) + facility_id.0@ + record.cap_commitment.0@
                + record.collateral_commitment.0@,
        ),
    )
}

/// The hidden-capacity state that a facility starts from.
pub fn initial_facility_state(facility_id: Id, record: &CreditFacilityRecord) -> (r: Id)
    ensures
        r == initial_state(facility_id, *record),
{
    let mut bytes = domain_bytes("AETHEL-DECCP:FACILITY-STATE:v1");
    append(&mut bytes, &facility_id.0);
    append(&mut bytes, &record.cap_commitment.0);
    append(&mut bytes, &record.collateral_commitment.0);
    Id::digest(bytes.as_slice())
}

/// The hidden-capacity state after one attested transition. The chain carries
/// commitments and sequence numbers, never an amount.
pub open spec fn next_state(
    previous: Id,
    transition: FacilityTransition,
    hold_id: Id,
    amount_commitment: Id,
    sequence: u64,
) -> Id {
    Id(
        sha256(
            domain("AETHEL-DECCP:FACILITY-TRANSITION:v1"@) + previous.0@
                + seq![transition.number()] + hold_id.0@ + amount_commitment.0@ + be_bytes(
                sequence as int,
                8,
            ),
        ),
    )
}

/// The hidden-capacity state after one attested transition.
pub fn next_facility_state(
    previous: Id,
    transition: FacilityTransition,
    hold_id: Id,
    amount_commitment: Id,
    sequence: u64,
) -> (r: Id)
    ensures
        r == next_state(previous, transition, hold_id, amount_commitment, sequence),
{
    let mut bytes = domain_bytes("AETHEL-DECCP:FACILITY-TRANSITION:v1");
    append(&mut bytes, &previous.0);
    let ghost before = bytes@;
    bytes.push(transition.tag());
    assert(bytes@ =~= before + seq![transition.number()]);
    append(&mut bytes, &hold_id.0);
    append(&mut bytes, &amount_commitment.0);
    append_be(&mut bytes, sequence, 8);
    Id::digest(bytes.as_slice())
}

/// What a member's eligibility was attested with.
#[derive(Clone, Copy, Debug)]
pub struct EligibilityAttestation {
    pub provider_id: Id,
    pub subject_line_id: Id,
    pub policy_digest: Id,
    pub evidence_digest: Id,
    pub valid_until: u64,
}

/// The admission of a clearing member. The contribution is in the big-endian
/// encoding of the clearing book's amounts.
#[derive(Debug)]
pub struct ParticipantAdmission {
    pub operation_id: Id,
    pub participant_id: Id,
    pub settlement_participant_id: Id,
    pub eligibility: EligibilityAttestation,
    pub default_fund_contribution: Vec<u8>,
    pub default_fund_defmi_lock_id: Id,
    pub default_fund_proof_digest: Id,
    pub admitted_at: u64,
}

/// The context that a would-be member presents its credential in.
#[derive(Clone, Copy, Debug)]
pub struct PresentationContext {
    pub scope_digest: Id,
    pub audience_digest: Id,
    pub action_digest: Id,
    pub request_digest: Id,
    pub challenge_nonce: Id,
    pub valid_until: u64,
}

/// The digest of what an admission asks for: who is admitted, under which
/// policy and with which default fund.
pub open spec fn admission_request(admission: ParticipantAdmission) -> Id {
    let eligibility = admission.eligibility;
    Id(
        sha256(
            domain("AETHEL-DECCP:ADMISSION-REQUEST:v1"@) + admission.participant_id.0@
                + admission.settlement_participant_id.0@ + eligibility.provider_id.0@
                + eligibility.policy_digest.0@ + be_bytes(eligibility.valid_until as int, 8)
                + admission.default_fund_contribution@
                + admission.default_fund_defmi_lock_id.0@ + admission.default_fund_proof_digest.0@
                + be_bytes(admission.admitted_at as int, 8),
        ),
    )
}

fn admission_request_digest(admission: &ParticipantAdmission) -> (r: Id)
    ensures
        r == admission_request(*admission),
{
    let eligibility = &admission.eligibility;
    let mut bytes = domain_bytes("AETHEL-DECCP:ADMISSION-REQUEST:v1");
    append(&mut bytes, &admission.participant_id.0);
    append(&mut bytes, &admission.settlement_participant_id.0);
    append(&mut bytes, &eligibility.provider_id.0);
    append(&mut bytes, &eligibility.policy_digest.0);
    append_be(&mut bytes, eligibility.valid_until, 8);
    append(&mut bytes, admission.default_fund_contribution.as_slice());
    append(&mut bytes, &admission.default_fund_defmi_lock_id.0);
    append(&mut bytes, &admission.default_fund_proof_digest.0);
    append_be(&mut bytes, admission.admitted_at, 8);
    Id::digest(bytes.as_slice())
}

/// The exact context of one admission on one clearing book, which its capital
/// lock names. The operation is the challenge.
pub open spec fn context_of(book: ClearingBook, admission: ParticipantAdmission) ->
    PresentationContext {
    PresentationContext {
        scope_digest: Id(sha256(domain("AETHEL-DECCP:CLEARING-MEMBERSHIP-SCOPE:v1"@))),
        audience_digest: Id(
            sha256(
                domain("AETHEL-DECCP:CLEARING-MEMBERSHIP-AUDIENCE:v1"@) + book.capital_lock.0@,
            ),
        ),
        action_digest: Id(sha256(domain("AETHEL-DECCP:ACTION:ADMISSION:v1"@))),
        request_digest: admission_request(admission),
        challenge_nonce: admission.operation_id,
        valid_until: admission.eligibility.valid_until,
    }
}

/// The exact context of one admission on one clearing book.
pub fn membership_context(book: &ClearingBook, admission: &ParticipantAdmission) -> (r:
    PresentationContext)
    ensures
        r == context_of(*book, *admission),
{
    let mut audience = domain_bytes("AETHEL-DECCP:CLEARING-MEMBERSHIP-AUDIENCE:v1");
    append(&mut audience, &book.capital_lock.0);
    let action = domain_bytes("AETHEL-DECCP:ACTION:ADMISSION:v1");
    PresentationContext {
        scope_digest: membership_scope_digest(),
        audience_digest: Id::digest(audience.as_slice()),
        action_digest: Id::digest(action.as_slice()),
        request_digest: admission_request_digest(admission),
        challenge_nonce: admission.operation_id,
        valid_until: admission.eligibility.valid_until,
    }
}

/// What the identity book makes of a holder's presentation, whose credential names
/// an issuer and its key epoch. `issuer`, `status_list`, `context`, `policy_digest`
/// and `now` are what the presentation was verified against; `verified` is what it
/// proves, and `digest` its digest.
#[derive(Debug)]
pub struct PresentationFindings {
    pub issuer_id: Id,
    pub issuer_key_epoch: u64,
    pub issuer: CredentialIssuer,
    pub status_list: Option<Arc<StatusList>>,
    pub context: PresentationContext,
    pub policy_digest: Id,
    pub now: u64,
    pub verified: Result<VerifiedEligibility, String>,
    pub digest: Result<Id, String>,
}

/// What a presentation proves.
#[derive(Clone, Copy, Debug)]
pub struct VerifiedEligibility {
    pub subject_line_id: Id,
    pub policy_digest: Id,
    pub valid_until: u64,
}

/// An admission whose evidence is verified.
#[derive(Clone, Copy, Debug)]
pub struct VerifiedAdmission {
    pub provider_id: Id,
    pub subject_line_id: Id,
    pub policy_digest: Id,
    pub evidence_digest: Id,
    pub valid_until: u64,
}

fn is_same_attestation(left: &EligibilityAttestation, right: &EligibilityAttestation) -> (r: bool)
    ensures
        r == (*left == *right),
{
    left.provider_id == right.provider_id && left.subject_line_id == right.subject_line_id
        && left.policy_digest == right.policy_digest && left.evidence_digest
        == right.evidence_digest && left.valid_until == right.valid_until
}

pub(crate) fn is_same_context(left: &PresentationContext, right: &PresentationContext) -> (r: bool)
    ensures
        r == (*left == *right),
{
    left.scope_digest == right.scope_digest && left.audience_digest == right.audience_digest
        && left.action_digest == right.action_digest && left.request_digest
        == right.request_digest && left.challenge_nonce == right.challenge_nonce
        && left.valid_until == right.valid_until
}

/// The provider of an identifier, or the book's answer to an unknown one.
pub open spec fn provider_refusal(ledger: Ledger, provider_id: Id) -> Option<Seq<char>> {
    if ledger.aethel.providers@.contains_key(provider_id) {
        None
    } else {
        Some(ledger.aethel.unknown_provider@)
    }
}

/// The provider of an identifier.
pub(crate) fn find_provider<'a>(
    state: &'a State,
    provider_id: &Id,
) -> (r: Result<&'a Provider, String>)
    ensures
        match r {
            Ok(provider) => provider_refusal(state@, *provider_id) is None && *provider
                == state@.aethel.providers@[*provider_id],
            Err(message) => provider_refusal(state@, *provider_id) == Some(message@),
        },
{
    match state.aethel.providers.get(provider_id) {
        Some(provider) => Ok(provider),
        None => Err(state.aethel.unknown_provider.clone()),
    }
}

/// The key epoch that a presentation names.
pub open spec fn issuer_epoch(presentation: PresentationFindings) -> Numbered {
    Numbered { scope: presentation.issuer_id, number: presentation.issuer_key_epoch }
}

/// Whether a presentation was verified with the key epoch and the status list that
/// the directory of issuers holds.
pub open spec fn found_in_directory(
    book: AethelBook,
    presentation: PresentationFindings,
) -> bool {
    let key = issuer_epoch(presentation);
    &&& presentation.issuer == book.credential_issuers@[key]
    &&& presentation.status_list is Some == book.status_lists@.contains_key(key)
    &&& presentation.status_list is Some ==> same_status_list(
        *presentation.status_list->0,
        book.status_lists@[key],
    )
}

/// Why a presentation does not prove the attested subject line for exactly the
/// admission.
pub open spec fn admission_evidence_refusal(
    ledger: Ledger,
    book: ClearingBook,
    admission: ParticipantAdmission,
    presentation: PresentationFindings,
    evidence: EligibilityAttestation,
    now: u64,
) -> Option<Seq<char>> {
    let provider = ledger.aethel.providers@[evidence.provider_id];
    let verified = presentation.verified->Ok_0;
    if evidence != admission.eligibility {
        Some("DeCCP asked about another attestation than the admission carries"@)
    } else if presentation.issuer_id != evidence.provider_id {
        Some("presentation names another DeKYX issuer than the attestation"@)
    } else if provider_refusal(ledger, evidence.provider_id) is Some {
        provider_refusal(ledger, evidence.provider_id)
    } else if !exercises(provider, ProviderCapability::CredentialIssuer, now) {
        Some("DeKYX issuer is not vouched for by an active credential-issuer provider"@)
    } else if !ledger.aethel.credential_issuers@.contains_key(issuer_epoch(presentation)) {
        Some(ledger.aethel.unknown_issuer@)
    } else if !found_in_directory(ledger.aethel, presentation) || presentation.context
        != context_of(book, admission) || presentation.policy_digest != evidence.policy_digest
        || presentation.now != now {
        Some("presentation was verified against something else"@)
    } else if presentation.verified is Err {
        Some("DeKYX rejected the membership evidence: "@ + presentation.verified->Err_0@)
    } else if statement_refusal(presentation.digest) is Some {
        statement_refusal(presentation.digest)
    } else if verified.subject_line_id != evidence.subject_line_id || verified.policy_digest
        != evidence.policy_digest || verified.valid_until < evidence.valid_until
        || presentation.digest->Ok_0 != evidence.evidence_digest {
        Some("DeKYX evidence does not prove the attested subject line"@)
    } else {
        None
    }
}

/// Checks that a presentation proves exactly the attested subject line for
/// exactly this admission, and gives nothing else away.
pub fn verify_admission(
    state: &State,
    book: &ClearingBook,
    admission: &ParticipantAdmission,
    presentation: &PresentationFindings,
    evidence: &EligibilityAttestation,
    now: u64,
) -> (r: Result<VerifiedAdmission, String>)
    ensures
        match r {
            Ok(verified) => {
                &&& admission_evidence_refusal(
                    state@,
                    *book,
                    *admission,
                    *presentation,
                    *evidence,
                    now,
                ) is None
                &&& verified == (VerifiedAdmission {
                    provider_id: evidence.provider_id,
                    subject_line_id: evidence.subject_line_id,
                    policy_digest: evidence.policy_digest,
                    evidence_digest: evidence.evidence_digest,
                    valid_until: evidence.valid_until,
                })
            },
            Err(message) => admission_evidence_refusal(
                state@,
                *book,
                *admission,
                *presentation,
                *evidence,
                now,
            ) == Some(message@),
        },
{
    if !is_same_attestation(evidence, &admission.eligibility) {
        return refuse("DeCCP asked about another attestation than the admission carries");
    }
    if presentation.issuer_id != evidence.provider_id {
        return refuse("presentation names another DeKYX issuer than the attestation");
    }
    let provider = find_provider(state, &evidence.provider_id)?;
    if !provider.has(ProviderCapability::CredentialIssuer, now) {
        return refuse("DeKYX issuer is not vouched for by an active credential-issuer provider");
    }
    let key = Numbered {
        scope: presentation.issuer_id,
        number: presentation.issuer_key_epoch,
    };
    let issuer = match state.aethel.credential_issuers.get(&key) {
        Some(issuer) => issuer,
        None => return Err(state.aethel.unknown_issuer.clone()),
    };
    let listed = match (&presentation.status_list, state.aethel.status_lists.get(&key)) {
        (Some(left), Some(right)) => left.same(right),
        (None, None) => true,
        _ => false,
    };
    if !listed || !issuer.same(&presentation.issuer) || !is_same_context(
        &presentation.context,
        &membership_context(book, admission),
    ) || presentation.policy_digest != evidence.policy_digest || presentation.now != now {
        return refuse("presentation was verified against something else");
    }
    let verified = match &presentation.verified {
        Ok(verified) => verified,
        Err(message) => return Err(
            join("DeKYX rejected the membership evidence: ", message.as_str()),
        ),
    };
    let digest = statement_of(&presentation.digest)?;
    if verified.subject_line_id != evidence.subject_line_id || verified.policy_digest
        != evidence.policy_digest || verified.valid_until < evidence.valid_until || digest
        != evidence.evidence_digest {
        return refuse("DeKYX evidence does not prove the attested subject line");
    }
    Ok(
        VerifiedAdmission {
            provider_id: evidence.provider_id,
            subject_line_id: verified.subject_line_id,
            policy_digest: verified.policy_digest,
            evidence_digest: digest,
            valid_until: evidence.valid_until,
        },
    )
}

/// The counterparty's own capital.
#[derive(Clone, Copy, Debug)]
pub struct CcpCapitalization {
    pub defmi_lock_id: Id,
    pub proof_digest: Id,
    pub valid_until: u64,
}

/// A reservation of hidden capacity that is asked for.
#[derive(Clone, Copy, Debug)]
pub struct ConfidentialReservation {
    pub defmi_hold_id: Id,
    pub coverage_commitment: Id,
    pub expected_facility_state_digest: Id,
    pub after_facility_state_digest: Id,
    pub valid_until: u64,
}

/// The settlement that a release or claim refers to.
#[derive(Clone, Copy, Debug)]
pub struct SettlementReceipt {
    pub receipt_digest: Id,
    pub context_digest: Id,
    pub finalized_at: u64,
}

/// A release or claim of hidden capacity that is asked for.
#[derive(Clone, Copy, Debug)]
pub struct ConfidentialRequest {
    pub expected_facility_state_digest: Id,
    pub after_facility_state_digest: Id,
    pub receipt: SettlementReceipt,
}

/// One hold transition that the clearing book asks to attest.
#[derive(Clone, Copy, Debug)]
pub struct HoldTransition {
    pub kind: FacilityTransition,
    pub defmi_hold_id: Id,
    pub coverage_commitment: Id,
    pub expected_status: HoldStatus,
    pub expected_settlement: Id,
    pub expected_state: Id,
    pub after_state: Id,
}

/// Evidence for the clearing book from this machine's own records. No
/// identifier is trusted on its own, and no commitment is opened.
pub struct VmDefmiPort<'a> {
    pub state: &'a State,
}

/// Why a note does not back a purpose: it must be an active cash note under the
/// expected lock, with the proof digest as its value commitment.
pub open spec fn cash_lock_refusal(
    ledger: Ledger,
    note_id: Id,
    expected_lock: Id,
    proof_digest: Id,
    what: Seq<char>,
) -> Option<Seq<char>> {
    let note = ledger.notes[note_id];
    let asset = ledger.assets[note.asset_id];
    if !ledger.notes.contains_key(note_id) {
        Some(what + " names no DeFMI note"@)
    } else if !ledger.assets.contains_key(note.asset_id) {
        Some(what + " note has no asset"@)
    } else if !asset.active || asset.kind != AssetKind::Cash {
        Some(what + " must be a note on an active DeFMI cash rail"@)
    } else if note.lock_id != expected_lock {
        Some(what + " note is not locked for that purpose"@)
    } else if proof_digest != note.value_commitment {
        Some(what + " proof digest is not the locked note's value commitment"@)
    } else {
        None
    }
}

/// Why a clearing facility does not describe its credit facility.
pub open spec fn facility_record_refusal(
    ledger: Ledger,
    facility: ConfidentialFacility,
) -> Option<Seq<char>> {
    let record = ledger.credit_facilities[facility.defmi_facility_id];
    let provider = ledger.aethel.providers@[facility.guarantor_id];
    if !ledger.credit_facilities.contains_key(facility.defmi_facility_id) {
        Some("DeCCP facility names an unknown DeFMI credit facility"@)
    } else if provider_refusal(ledger, facility.guarantor_id) is Some {
        provider_refusal(ledger, facility.guarantor_id)
    } else if provider.defmi_guarantor_id != Some(record.guarantor_id) || facility.facility_id
        != facility.defmi_facility_id || record.rail_asset_id != facility.settlement_asset_id
        || record.cap_commitment != facility.capacity_commitment || record.beneficiary_commitment
        != facility.beneficiary_subject_line_id {
        Some("DeCCP facility does not describe its DeFMI credit facility"@)
    } else {
        None
    }
}

/// Why the records do not attest a hold transition.
pub open spec fn hold_transition_refusal(
    ledger: Ledger,
    facility: ConfidentialFacility,
    transition: HoldTransition,
) -> Option<Seq<char>> {
    let hold = ledger.credit_holds[transition.defmi_hold_id];
    let sequence = match transition.kind {
        FacilityTransition::Reserve => hold.created_sequence,
        _ => hold.updated_sequence,
    };
    if facility_record_refusal(ledger, facility) is Some {
        facility_record_refusal(ledger, facility)
    } else if !ledger.credit_holds.contains_key(transition.defmi_hold_id) {
        Some("DeCCP hold names an unknown DeFMI hold"@)
    } else if hold.facility_id != facility.defmi_facility_id || hold.amount_commitment
        != transition.coverage_commitment || hold.status != transition.expected_status
        || hold.settlement_digest != transition.expected_settlement {
        Some(
            "DeFMI hold is not "@ + transition.expected_status.name()
                + " on this facility for this coverage"@,
        )
    } else if transition.after_state != next_state(
        transition.expected_state,
        transition.kind,
        transition.defmi_hold_id,
        transition.coverage_commitment,
        sequence,
    ) {
        Some("DeCCP after-state does not follow from the DeFMI hold transition"@)
    } else {
        None
    }
}

/// The attestation of a reservation.
pub open spec fn reserve_transition(reservation: ConfidentialReservation) -> HoldTransition {
    HoldTransition {
        kind: FacilityTransition::Reserve,
        defmi_hold_id: reservation.defmi_hold_id,
        coverage_commitment: reservation.coverage_commitment,
        expected_status: HoldStatus::Active,
        expected_settlement: Id::zero(),
        expected_state: reservation.expected_facility_state_digest,
        after_state: reservation.after_facility_state_digest,
    }
}

/// The attestation of a release or a claim.
pub open spec fn settled_transition(
    kind: FacilityTransition,
    expected_status: HoldStatus,
    hold: ConfidentialHold,
    request: ConfidentialRequest,
) -> HoldTransition {
    HoldTransition {
        kind,
        defmi_hold_id: hold.defmi_hold_id,
        coverage_commitment: hold.coverage_commitment,
        expected_status,
        expected_settlement: request.receipt.receipt_digest,
        expected_state: request.expected_facility_state_digest,
        after_state: request.after_facility_state_digest,
    }
}

/// Why the counterparty's own capital is not there.
pub open spec fn capital_refusal(
    ledger: Ledger,
    capitalization: CcpCapitalization,
    now: u64,
) -> Option<Seq<char>> {
    if capitalization.valid_until < now {
        Some("CCP capital lock has expired"@)
    } else {
        cash_lock_refusal(
            ledger,
            capitalization.defmi_lock_id,
            capital_lock(),
            capitalization.proof_digest,
            "CCP capital"@,
        )
    }
}

/// Why a member's default fund is not there.
pub open spec fn default_fund_refusal(
    ledger: Ledger,
    admission: ParticipantAdmission,
) -> Option<Seq<char>> {
    cash_lock_refusal(
        ledger,
        admission.default_fund_defmi_lock_id,
        default_fund_lock(admission.participant_id),
        admission.default_fund_proof_digest,
        "default fund"@,
    )
}

/// Why a clearing facility does not start from a live credit facility.
pub open spec fn facility_start_refusal(
    ledger: Ledger,
    facility: ConfidentialFacility,
    now: u64,
) -> Option<Seq<char>> {
    let record = ledger.credit_facilities[facility.defmi_facility_id];
    if facility_record_refusal(ledger, facility) is Some {
        facility_record_refusal(ledger, facility)
    } else if record.status != FacilityStatus::Active || now < record.valid_from
        || facility.valid_until > record.valid_until {
        Some("DeFMI credit facility is not live for the DeCCP facility window"@)
    } else if facility.latest_facility_state_digest != initial_state(
        facility.defmi_facility_id,
        record,
    ) {
        Some("DeCCP facility does not start from the DeFMI facility state"@)
    } else {
        None
    }
}

/// Why the records do not support a release of hidden capacity.
pub open spec fn release_receipt_refusal(
    ledger: Ledger,
    facility: ConfidentialFacility,
    hold: ConfidentialHold,
    request: ConfidentialRequest,
    now: u64,
) -> Option<Seq<char>> {
    if request.receipt.receipt_digest == Id::zero() || request.receipt.finalized_at > now {
        Some("DeFMI release receipt is empty or from the future"@)
    } else {
        hold_transition_refusal(
            ledger,
            facility,
            settled_transition(FacilityTransition::Release, HoldStatus::Released, hold, request),
        )
    }
}

/// Why the records do not support a claim on hidden capacity.
pub open spec fn claim_receipt_refusal(
    ledger: Ledger,
    facility: ConfidentialFacility,
    hold: ConfidentialHold,
    request: ConfidentialRequest,
    now: u64,
) -> Option<Seq<char>> {
    if request.receipt.receipt_digest == Id::zero() || request.receipt.finalized_at > now {
        Some("DeFMI claim receipt is empty or from the future"@)
    } else {
        hold_transition_refusal(
            ledger,
            facility,
            settled_transition(FacilityTransition::Claim, HoldStatus::Consumed, hold, request),
        )
    }
}

/// Why the records do not support a reservation of hidden capacity.
pub open spec fn guarantee_hold_refusal(
    ledger: Ledger,
    facility: ConfidentialFacility,
    reservation: ConfidentialReservation,
) -> Option<Seq<char>> {
    let record = ledger.credit_facilities[facility.defmi_facility_id];
    let hold = ledger.credit_holds[reservation.defmi_hold_id];
    if facility_record_refusal(ledger, facility) is Some {
        facility_record_refusal(ledger, facility)
    } else if !ledger.credit_holds.contains_key(reservation.defmi_hold_id) {
        Some("DeCCP reservation names an unknown DeFMI hold"@)
    } else if record.status != FacilityStatus::Active || record.valid_until
        < reservation.valid_until || hold.expires_at < reservation.valid_until {
        Some("DeFMI facility or hold ends before the DeCCP reservation"@)
    } else {
        hold_transition_refusal(ledger, facility, reserve_transition(reservation))
    }
}

impl<'a> VmDefmiPort<'a> {
    /// Checks that a note is locked cash for a purpose.
    pub fn cash_note_lock(
        &self,
        note_id: Id,
        expected_lock: Id,
        proof_digest: Id,
        what: &str,
    ) -> (r: Result<(), String>)
        ensures
            verdict(
                r,
                cash_lock_refusal(self.state@, note_id, expected_lock, proof_digest, what@),
            ),
    {
        let note = match self.state.notes.get(&note_id) {
            Some(note) => note,
            None => return Err(join(what, " names no DeFMI note")),
        };
        let asset = match self.state.assets.get(&note.asset_id) {
            Some(asset) => asset,
            None => return Err(join(what, " note has no asset")),
        };
        if !asset.active || asset.kind != AssetKind::Cash {
            return Err(join(what, " must be a note on an active DeFMI cash rail"));
        }
        if note.lock_id != expected_lock {
            return Err(join(what, " note is not locked for that purpose"));
        }
        if proof_digest != note.value_commitment {
            return Err(
                join(what, " proof digest is not the locked note's value commitment"),
            );
        }
        Ok(())
    }

    /// The credit facility that a clearing facility describes.
    pub fn facility_record(&self, facility: &ConfidentialFacility) -> (r: Result<
        &CreditFacilityRecord,
        String,
    >)
        ensures
            match r {
                Ok(record) => facility_record_refusal(self.state@, *facility) is None && *record
                    == self.state@.credit_facilities[facility.defmi_facility_id],
                Err(message) => facility_record_refusal(self.state@, *facility) == Some(message@),
            },
    {
        let record = match self.state.credit_facilities.get(&facility.defmi_facility_id) {
            Some(record) => record,
            None => return refuse("DeCCP facility names an unknown DeFMI credit facility"),
        };
        let provider = find_provider(self.state, &facility.guarantor_id)?;
        let guaranteed = match provider.defmi_guarantor_id {
            Some(guarantor_id) => guarantor_id == record.guarantor_id,
            None => false,
        };
        if !guaranteed || facility.facility_id != facility.defmi_facility_id
            || record.rail_asset_id != facility.settlement_asset_id || record.cap_commitment
            != facility.capacity_commitment || record.beneficiary_commitment
            != facility.beneficiary_subject_line_id {
            return refuse("DeCCP facility does not describe its DeFMI credit facility");
        }
        Ok(record)
    }

    /// Checks that the records attest a hold transition.
    pub fn hold_transition(
        &self,
        facility: &ConfidentialFacility,
        transition: &HoldTransition,
    ) -> (r: Result<(), String>)
        ensures
            verdict(r, hold_transition_refusal(self.state@, *facility, *transition)),
    {
        self.facility_record(facility)?;
        let hold = match self.state.credit_holds.get(&transition.defmi_hold_id) {
            Some(hold) => hold,
            None => return refuse("DeCCP hold names an unknown DeFMI hold"),
        };
        if hold.facility_id != facility.defmi_facility_id || hold.amount_commitment
            != transition.coverage_commitment || hold.status != transition.expected_status
            || hold.settlement_digest != transition.expected_settlement {
            let mut message = join("DeFMI hold is not ", transition.expected_status.as_str());
            message.append(" on this facility for this coverage");
            return Err(message);
        }
        let sequence: u64 = match transition.kind {
            FacilityTransition::Reserve => hold.created_sequence,
            _ => hold.updated_sequence,
        };
        if transition.after_state != next_facility_state(
            transition.expected_state,
            transition.kind,
            transition.defmi_hold_id,
            transition.coverage_commitment,
            sequence,
        ) {
            return refuse("DeCCP after-state does not follow from the DeFMI hold transition");
        }
        Ok(())
    }

    /// Checks the counterparty's own capital.
    pub fn verify_ccp_capital(&self, capitalization: &CcpCapitalization, now: u64) -> (r: Result<
        (),
        String,
    >)
        ensures
            verdict(r, capital_refusal(self.state@, *capitalization, now)),
    {
        if capitalization.valid_until < now {
            return refuse("CCP capital lock has expired");
        }
        self.cash_note_lock(
            capitalization.defmi_lock_id,
            capital_lock_tag(),
            capitalization.proof_digest,
            "CCP capital",
        )
    }

    /// Checks a member's default fund.
    pub fn verify_default_fund(&self, admission: &ParticipantAdmission) -> (r: Result<(), String>)
        ensures
            verdict(r, default_fund_refusal(self.state@, *admission)),
    {
        self.cash_note_lock(
            admission.default_fund_defmi_lock_id,
            default_fund_lock_tag(admission.participant_id),
            admission.default_fund_proof_digest,
            "default fund",
        )
    }

    /// Refuses: no collateral lots of public value are offered.
    pub fn verify_collateral_lock(&self) -> (r: Result<(), String>)
        ensures
            verdict(r, Some("this VM offers no public-value collateral lots"@)),
    {
        refuse("this VM offers no public-value collateral lots")
    }

    /// Refuses: only confidential facilities are offered.
    pub fn verify_guarantee_facility(&self) -> (r: Result<(), String>)
        ensures
            verdict(r, Some("this VM offers only confidential guarantee facilities"@)),
    {
        refuse("this VM offers only confidential guarantee facilities")
    }

    /// Refuses: only confidential holds are offered.
    pub fn verify_guarantee_hold(&self) -> (r: Result<(), String>)
        ensures
            verdict(r, Some("this VM offers only confidential guarantee holds"@)),
    {
        refuse("this VM offers only confidential guarantee holds")
    }

    /// Checks that a clearing facility starts from its live credit facility.
    pub fn verify_confidential_guarantee_facility(
        &self,
        facility: &ConfidentialFacility,
        now: u64,
    ) -> (r: Result<(), String>)
        ensures
            verdict(r, facility_start_refusal(self.state@, *facility, now)),
    {
        let record = self.facility_record(facility)?;
        if record.status != FacilityStatus::Active || now < record.valid_from
            || facility.valid_until > record.valid_until {
            return refuse("DeFMI credit facility is not live for the DeCCP facility window");
        }
        if facility.latest_facility_state_digest != initial_facility_state(
            facility.defmi_facility_id,
            record,
        ) {
            return refuse("DeCCP facility does not start from the DeFMI facility state");
        }
        Ok(())
    }

    /// Checks a reservation of hidden capacity.
    pub fn verify_confidential_guarantee_hold(
        &self,
        facility: &ConfidentialFacility,
        reservation: &ConfidentialReservation,
    ) -> (r: Result<(), String>)
        ensures
            verdict(r, guarantee_hold_refusal(self.state@, *facility, *reservation)),
    {
        let record = self.facility_record(facility)?;
        let hold = match self.state.credit_holds.get(&reservation.defmi_hold_id) {
            Some(hold) => hold,
            None => return refuse("DeCCP reservation names an unknown DeFMI hold"),
        };
        if record.status != FacilityStatus::Active || record.valid_until < reservation.valid_until
            || hold.expires_at < reservation.valid_until {
            return refuse("DeFMI facility or hold ends before the DeCCP reservation");
        }
        self.hold_transition(
            facility,
            &HoldTransition {
                kind: FacilityTransition::Reserve,
                defmi_hold_id: reservation.defmi_hold_id,
                coverage_commitment: reservation.coverage_commitment,
                expected_status: HoldStatus::Active,
                expected_settlement: Id::zero(),
                expected_state: reservation.expected_facility_state_digest,
                after_state: reservation.after_facility_state_digest,
            },
        )
    }

    /// Checks a release of hidden capacity: the hold was released by the
    /// receipt.
    pub fn verify_confidential_guarantee_release(
        &self,
        facility: &ConfidentialFacility,
        hold: &ConfidentialHold,
        request: &ConfidentialRequest,
        now: u64,
    ) -> (r: Result<(), String>)
        ensures
            verdict(r, release_receipt_refusal(self.state@, *facility, *hold, *request, now)),
    {
        if request.receipt.receipt_digest == Id::zero() || request.receipt.finalized_at > now {
            return refuse("DeFMI release receipt is empty or from the future");
        }
        self.hold_transition(
            facility,
            &HoldTransition {
                kind: FacilityTransition::Release,
                defmi_hold_id: hold.defmi_hold_id,
                coverage_commitment: hold.coverage_commitment,
                expected_status: HoldStatus::Released,
                expected_settlement: request.receipt.receipt_digest,
                expected_state: request.expected_facility_state_digest,
                after_state: request.after_facility_state_digest,
            },
        )
    }

    /// Checks a claim on hidden capacity: the hold was consumed by the receipt.
    pub fn verify_confidential_guarantee_claim(
        &self,
        facility: &ConfidentialFacility,
        hold: &ConfidentialHold,
        request: &ConfidentialRequest,
        now: u64,
    ) -> (r: Result<(), String>)
        ensures
            verdict(r, claim_receipt_refusal(self.state@, *facility, *hold, *request, now)),
    {
        if request.receipt.receipt_digest == Id::zero() || request.receipt.finalized_at > now {
            return refuse("DeFMI claim receipt is empty or from the future");
        }
        self.hold_transition(
            facility,
            &HoldTransition {
                kind: FacilityTransition::Claim,
                defmi_hold_id: hold.defmi_hold_id,
                coverage_commitment: hold.coverage_commitment,
                expected_status: HoldStatus::Consumed,
                expected_settlement: request.receipt.receipt_digest,
                expected_state: request.expected_facility_state_digest,
                after_state: request.after_facility_state_digest,
            },
        )
    }

    /// Refuses: only confidential releases are offered.
    pub fn verify_guarantee_release(&self) -> (r: Result<(), String>)
        ensures
            verdict(r, Some("this VM offers only confidential guarantee releases"@)),
    {
        refuse("this VM offers only confidential guarantee releases")
    }

    /// Refuses: no netting cycle or default waterfall settles here.
    pub fn verify_settlement(&self) -> (r: Result<(), String>)
        ensures
            verdict(r, Some("this VM settles no DeCCP netting cycle or default waterfall"@)),
    {
        refuse("this VM settles no DeCCP netting cycle or default waterfall")
    }
}

/// Why there is no clearing book.
pub open spec fn clearing_book_refusal(ledger: Ledger) -> Option<Seq<char>> {
    match ledger.deccp {
        Some(_) => None,
        None => Some("this VM hosts no DeCCP clearing book"@),
    }
}

/// The clearing book.
pub fn clearing_book(state: &State) -> (r: Result<&ClearingBook, String>)
    ensures
        match r {
            Ok(book) => state@.deccp == Some(*book),
            Err(message) => clearing_book_refusal(state@) == Some(message@),
        },
{
    match &state.deccp {
        Some(book) => Ok(&**book),
        None => refuse("this VM hosts no DeCCP clearing book"),
    }
}

/// Why an operation may not be recorded.
pub open spec fn operation_refusal(ledger: Ledger, operation_id: Id) -> Option<Seq<char>> {
    if operation_id == Id::zero() || ledger.operations.contains_key(operation_id) {
        Some("Aethel operation identifier was already used"@)
    } else {
        None
    }
}

/// Checks that an operation is new.
pub fn ensure_global_operation_unused(state: &State, operation_id: &Id) -> (r: Result<(), String>)
    ensures
        verdict(r, operation_refusal(state@, *operation_id)),
{
    if *operation_id == Id::zero() || state.operations.contains_key(operation_id) {
        return refuse("Aethel operation identifier was already used");
    }
    Ok(())
}

/// Records an operation.
pub fn record_global_operation(state: &mut State, operation_id: Id, statement: Id)
    ensures
        final(state)@ == operated(old(state)@, operation_id, statement),
{
    state.operations.insert(operation_id, statement);
}

/// Why an action on a book is not entered: its statement, its authorization or
/// its operation.
pub open spec fn entry_refusal(
    ledger: Ledger,
    statement: Result<Id, String>,
    submission: Submission,
    operation_id: Id,
) -> Option<Seq<char>> {
    if authorization_refusal(statement, submission) is Some {
        authorization_refusal(statement, submission)
    } else {
        operation_refusal(ledger, operation_id)
    }
}

/// Enters an action on a book: its statement, approved and under a new
/// operation.
pub(crate) fn enter(
    state: &State,
    statement: &Result<Id, String>,
    submission: &Submission,
    operation_id: &Id,
) -> (r: Result<Id, String>)
    ensures
        match r {
            Ok(value) => entry_refusal(state@, *statement, *submission, *operation_id) is None
                && *statement == Ok::<Id, String>(value),
            Err(message) => entry_refusal(state@, *statement, *submission, *operation_id) == Some(
                message@,
            ),
        },
{
    let value = authorize_statement(statement, submission)?;
    ensure_global_operation_unused(state, operation_id)?;
    Ok(value)
}

/// The ledger with a clearing book.
pub open spec fn cleared(ledger: Ledger, book: ClearingBook) -> Ledger {
    Ledger { deccp: Some(book), ..ledger }
}

/// What the clearing book's answer to a question does: a refusal is passed on
/// after `what`, and otherwise the book is kept and the operation recorded.
pub open spec fn clearing_outcome(
    ledger: Ledger,
    answer: ClearingAnswer,
    question: ClearingQuestion,
    now: u64,
    what: Seq<char>,
    attested: Option<Seq<char>>,
    operation_id: Id,
    statement: Id,
) -> Outcome {
    unless(
        answer_refusal(ledger, answer, question, now, what, attested),
        ledger,
        accepted(
            operated(cleared(ledger, *answer.book->Ok_0), operation_id, statement),
            statement,
        ),
    )
}

fn keep_book(
    state: &mut State,
    answer: ClearingAnswer,
    question: &ClearingQuestion,
    now: u64,
    what: &str,
    attested: &Result<(), String>,
    operation_id: Id,
    statement: Id,
) -> (r: Result<Id, String>)
    ensures
        meets(
            r,
            final(state)@,
            clearing_outcome(
                old(state)@,
                answer,
                *question,
                now,
                what@,
                refusal_of(*attested),
                operation_id,
                statement,
            ),
        ),
{
    let book = read_answer(state, answer, question, now, what, attested)?;
    state.deccp = Some(book);
    record_global_operation(state, operation_id, statement);
    Ok(statement)
}

/// What the opening of the clearing book does. `opened` is the new book, or why
/// it was refused.
pub open spec fn open_clearing_book_outcome(
    ledger: Ledger,
    request: ClearingBookRegistration,
    opened: ClearingAnswer,
    submission: Submission,
    timestamp: u64,
) -> Outcome {
    let refusal = if request.refusal() is Some {
        request.refusal()
    } else if submission.refusal(request.digest()) is Some {
        submission.refusal(request.digest())
    } else if operation_refusal(ledger, request.operation_id) is Some {
        operation_refusal(ledger, request.operation_id)
    } else if ledger.deccp is Some {
        Some("this VM already hosts a DeCCP clearing book"@)
    } else {
        None
    };
    unless(
        refusal,
        ledger,
        clearing_outcome(
            ledger,
            opened,
            ClearingQuestion::Open {
                statement: request.digest(),
                capitalization: request.capitalization,
            },
            timestamp,
            "DeCCP refused the clearing book: "@,
            capital_refusal(ledger, request.capitalization, timestamp),
            request.operation_id,
            request.digest(),
        ),
    )
}

/// Opens the clearing book, once.
pub fn open_clearing_book(
    state: &mut State,
    request: &ClearingBookRegistration,
    opened: ClearingAnswer,
    submission: &Submission,
    timestamp: u64,
) -> (r: Result<Id, String>)
    ensures
        meets(
            r,
            final(state)@,
            open_clearing_book_outcome(
                old(state)@,
                *request,
                opened,
                *submission,
                timestamp,
            ),
        ),
{
    let statement = request.statement()?;
    crate::endorsement::authorize(statement, submission)?;
    ensure_global_operation_unused(state, &request.operation_id)?;
    if state.deccp.is_some() {
        return refuse("this VM already hosts a DeCCP clearing book");
    }
    let attested = VmDefmiPort { state }.verify_ccp_capital(&request.capitalization, timestamp);
    keep_book(
        state,
        opened,
        &ClearingQuestion::Open {
            statement,
            capitalization: request.capitalization,
        },
        timestamp,
        "DeCCP refused the clearing book: ",
        &attested,
        request.operation_id,
        statement,
    )
}

/// Why a would-be member is not admitted: its presentation does not prove the
/// attested subject line for this admission on this book, or its default fund is
/// not there.
pub open spec fn membership_refusal(
    ledger: Ledger,
    request: ParticipantAdmission,
    presentation: PresentationFindings,
    timestamp: u64,
) -> Option<Seq<char>> {
    first(
        admission_evidence_refusal(
            ledger,
            ledger.deccp->0,
            request,
            presentation,
            request.eligibility,
            timestamp,
        ),
        default_fund_refusal(ledger, request),
    )
}

/// What the admission of a member does. `parsed` is the verdict on the
/// presentation and approval as submitted, and `admitted` the book's answer.
pub open spec fn admit_member_outcome(
    ledger: Ledger,
    request: ParticipantAdmission,
    statement: Result<Id, String>,
    parsed: Result<(), String>,
    presentation: PresentationFindings,
    admitted: ClearingAnswer,
    submission: Submission,
    timestamp: u64,
) -> Outcome {
    let provider = ledger.aethel.providers@[request.participant_id];
    let entry = entry_refusal(ledger, statement, submission, request.operation_id);
    let refusal = if entry is Some {
        entry
    } else if refusal_of(parsed) is Some {
        refusal_of(parsed)
    } else if provider_refusal(ledger, request.participant_id) is Some {
        provider_refusal(ledger, request.participant_id)
    } else if !exercises(provider, ProviderCapability::Guarantor, timestamp)
        || provider.participant_id != request.settlement_participant_id {
        Some(
            "DeCCP member must be an active Aethel guarantor provider of the named DeFMI participant"@,
        )
    } else {
        clearing_book_refusal(ledger)
    };
    unless(
        refusal,
        ledger,
        clearing_outcome(
            ledger,
            admitted,
            ClearingQuestion::Admit {
                statement: statement->Ok_0,
                context: context_of(ledger.deccp->0, request),
                participant_id: request.participant_id,
                subject_line_id: request.eligibility.subject_line_id,
            },
            timestamp,
            "DeCCP refused the admission: "@,
            membership_refusal(ledger, request, presentation, timestamp),
            request.operation_id,
            statement->Ok_0,
        ),
    )
}

/// Admits a guarantor provider as a clearing member.
pub fn admit_member(
    state: &mut State,
    request: &ParticipantAdmission,
    statement: &Result<Id, String>,
    parsed: &Result<(), String>,
    presentation: &PresentationFindings,
    admitted: ClearingAnswer,
    submission: &Submission,
    timestamp: u64,
) -> (r: Result<Id, String>)
    ensures
        meets(
            r,
            final(state)@,
            admit_member_outcome(
                old(state)@,
                *request,
                *statement,
                *parsed,
                *presentation,
                admitted,
                *submission,
                timestamp,
            ),
        ),
{
    let value = enter(state, statement, submission, &request.operation_id)?;
    repeat(parsed)?;
    let provider = find_provider(state, &request.participant_id)?;
    if !provider.has(ProviderCapability::Guarantor, timestamp) || provider.participant_id
        != request.settlement_participant_id {
        return refuse(
            "DeCCP member must be an active Aethel guarantor provider of the named DeFMI participant",
        );
    }
    let book = clearing_book(state)?;
    let attested = match verify_admission(
        state,
        book,
        request,
        presentation,
        &request.eligibility,
        timestamp,
    ) {
        Ok(_) => VmDefmiPort { state }.verify_default_fund(request),
        Err(message) => Err(message),
    };
    let question = ClearingQuestion::Admit {
        statement: value,
        context: membership_context(book, request),
        participant_id: request.participant_id,
        subject_line_id: request.eligibility.subject_line_id,
    };
    keep_book(
        state,
        admitted,
        &question,
        timestamp,
        "DeCCP refused the admission: ",
        &attested,
        request.operation_id,
        value,
    )
}

/// What the registration of a guarantee facility does. `parsed` is the verdict
/// on the approval as submitted, and `registered` the book's answer.
pub open spec fn register_guarantee_facility_outcome(
    ledger: Ledger,
    operation_id: Id,
    facility: ConfidentialFacility,
    statement: Id,
    parsed: Result<(), String>,
    registered: ClearingAnswer,
    submission: Submission,
    timestamp: u64,
) -> Outcome {
    let entry = entry_refusal(ledger, Ok(statement), submission, operation_id);
    let refusal = if entry is Some {
        entry
    } else if refusal_of(parsed) is Some {
        refusal_of(parsed)
    } else if facility.facility_id != facility.defmi_facility_id {
        Some("DeCCP facility id must be the DeFMI facility id it is backed by"@)
    } else {
        clearing_book_refusal(ledger)
    };
    unless(
        refusal,
        ledger,
        clearing_outcome(
            ledger,
            registered,
            ClearingQuestion::Register { operation_id, facility },
            timestamp,
            "DeCCP refused the guarantee facility: "@,
            facility_start_refusal(ledger, facility, timestamp),
            operation_id,
            statement,
        ),
    )
}

/// Registers a guarantee facility over the credit facility of its name.
pub fn register_guarantee_facility(
    state: &mut State,
    operation_id: Id,
    facility: &ConfidentialFacility,
    statement: Id,
    parsed: &Result<(), String>,
    registered: ClearingAnswer,
    submission: &Submission,
    timestamp: u64,
) -> (r: Result<Id, String>)
    ensures
        meets(
            r,
            final(state)@,
            register_guarantee_facility_outcome(
                old(state)@,
                operation_id,
                *facility,
                statement,
                *parsed,
                registered,
                *submission,
                timestamp,
            ),
        ),
{
    let value = enter(state, &Ok(statement), submission, &operation_id)?;
    repeat(parsed)?;
    if facility.facility_id != facility.defmi_facility_id {
        return refuse("DeCCP facility id must be the DeFMI facility id it is backed by");
    }
    clearing_book(state)?;
    let attested = VmDefmiPort { state }.verify_confidential_guarantee_facility(
        facility,
        timestamp,
    );
    keep_book(
        state,
        registered,
        &ClearingQuestion::Register { operation_id, facility: *facility },
        timestamp,
        "DeCCP refused the guarantee facility: ",
        &attested,
        operation_id,
        value,
    )
}

} // verus!
