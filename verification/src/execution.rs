//! Execution of transactions against the replicated state.
//!
//! Each kind of transaction has a function in one of the modules below. All of
//! them take the action as decoded, with what the signing domain says of it, and
//! leave the state as the outcome in their contract says.

pub mod admission;
pub mod admission_laws;
pub mod aethel;
pub mod application_laws;
pub mod application_recovery;
pub mod application_reservation;
pub mod application_settlement;
pub mod approval_laws;
pub mod batch_laws;
pub mod book_change_laws;
pub mod book_laws;
pub mod book_question;
pub mod clearing_laws;
pub mod clearing_question;
pub mod credit;
pub mod credit_laws;
pub mod deccp;
pub mod evidence;
pub mod evidence_laws;
pub mod facility;
pub mod fill_laws;
pub mod hold_laws;
pub mod issuance;
pub mod issuance_laws;
pub mod laws;
pub mod method_laws;
pub mod note_laws;
pub mod note_product;
pub mod note_trade_laws;
pub mod notes;
pub mod product;
pub mod receivable_laws;
pub mod receivables;
pub mod registry;
pub mod registration_laws;
pub mod replay;
pub mod reservation;
pub mod reservation_laws;
pub mod settlement_laws;
pub mod spend_laws;
pub mod trade_laws;

use vstd::prelude::*;

use crate::aethel_book::{
    CredentialIssuer, CreditDecision, DefaultAttestation, FundingQuote, GuaranteeClaim,
    GuaranteeCommitment, Provider, ProviderStatus, ReceivableIssuance, Series, StatusList, Stream,
};
use crate::clearing_book::ConfidentialFacility;
use crate::endorsement::{statement_of, Seal, Submission};
use crate::execution::admission::{
    advance_admission, advance_outcome, register_admission_batch, register_admission_committee,
    register_batch_outcome, register_committee_outcome, register_settlement_verifier,
    register_verifier_outcome, SubmittedLane,
};
use crate::execution::aethel::SubmittedInstruction;
use crate::execution::application_reservation::{
    register_scope, register_scope_outcome, reserve_application, reserve_application_outcome,
    ApplicationNoteReservation, ApplicationScopeRegistration,
};
use crate::execution::application_settlement::{
    fill, fill_alone_outcome, fill_batch, fill_batch_outcome, release, release_outcome,
    ApplicationNoteFill, ApplicationNoteFillBatch, ApplicationNoteRelease,
};
use crate::execution::book_question::BookCall;
use crate::execution::clearing_question::ClearingAnswer;
use crate::execution::credit::{
    amend_credit, amend_outcome, control_credit, control_outcome, grant_credit, grant_outcome,
    transition_credit, transition_outcome,
};
use crate::execution::deccp::{
    admit_member, admit_member_outcome, open_clearing_book, open_clearing_book_outcome,
    register_guarantee_facility, register_guarantee_facility_outcome, ClearingBookRegistration,
    ParticipantAdmission, PresentationFindings,
};
use crate::execution::evidence::{
    settle_note_product, settle_note_product_batch, settle_note_product_batch_outcome,
    settle_note_product_outcome, SettlementFindings,
};
use crate::execution::issuance::{
    claim_outcome, claim_guarantee, issue_outcome, issue_receivable,
    IssuanceSuccessor,
};
use crate::execution::notes::{
    issue_note, issue_note_outcome, materialize_note_claim, materialize_outcome, settle_notes,
    settle_notes_outcome, IssuerVerdict,
};
use crate::execution::product::{
    settle_product, settle_product_batch, settle_product_batch_outcome, settle_product_outcome,
};
use crate::execution::receivables::{
    publish_credential_status, publish_credential_status_outcome, record_credit_decision,
    record_credit_decision_outcome, record_default, record_default_outcome, record_funding_quote,
    record_funding_quote_outcome, record_guarantee, record_guarantee_outcome,
    register_credential_issuer, register_credential_issuer_outcome, register_provider,
    register_provider_outcome, register_series, register_series_outcome, register_stream,
    register_stream_outcome, release_guarantee, release_guarantee_outcome, rotate_provider_key,
    rotate_provider_key_outcome, set_provider_status, set_provider_status_outcome,
    transition_stream, transition_stream_outcome, GuaranteeRelease,
};
use crate::execution::registry::{
    control_csd_issuer, control_csd_issuer_outcome, open_account, open_account_outcome,
    register_asset, register_asset_outcome, register_csd_issuer, register_csd_issuer_outcome,
    register_guarantor, register_guarantor_outcome, settle, settle_outcome,
};
use crate::execution::reservation::{
    release_note_product, release_note_product_outcome, release_product, release_product_outcome,
    reserve_note_product, reserve_note_product_outcome, reserve_product, reserve_product_outcome,
};
use crate::id::Id;
use crate::json::{
    artifact_keys_refusal, keys_refusal, require_aethel_artifact_keys, require_keys,
};
use crate::order::{
    AccountOpening, AdmissionBatchPlan, AdmissionCommitteePlan, AdmissionSlotAdvance,
    AssetDefinition, CreditFacilityAmendment, CreditFacilityControl, CreditFacilityGrant,
    CreditFacilityTransition, CsdIssuerControl, CsdIssuerDefinition, GuarantorDefinition,
    NoteClaimMaterialization, NoteIssuance, NoteProductReservation, NoteSettlementOrder,
    ProductNoteReleaseOrder, ProductNoteSettlementOrder, ProductReleaseOrder, ProductReservation,
    ProductSettlementBatch, ProductSettlementOrder, SettlementOrder, SettlementVerifierConfig,
};
use crate::outcome::{accepted, meets, refuse, refused, verdict, Outcome};
use crate::state::{Ledger, State};
use crate::table::Numbered;
use crate::text::{join, same_text};

verus! {

/// The kind of a transaction.
#[derive(Clone, Copy, Debug, PartialEq, Eq, Structural)]
pub enum Method {
    IssueAsset,
    IssueCsdIssuer,
    IssueCsdIssuerControl,
    IssueNote,
    IssueNoteClaimMaterialization,
    IssueNoteSettlement,
    IssueAdmissionCommittee,
    IssueSettlementVerifier,
    IssueAdmissionBatch,
    IssueAdmissionAdvance,
    IssueProductReservation,
    IssueNoteProductReservation,
    IssueProductRelease,
    IssueNoteProductRelease,
    IssueProductSettlement,
    IssueProductSettlementBatch,
    IssueNoteProductSettlement,
    IssueNoteProductSettlementBatch,
    IssueAccount,
    IssueGuarantor,
    IssueCreditGrant,
    IssueCreditTransition,
    IssueCreditControl,
    IssueCreditAmendment,
    IssueSettlement,
    IssueAethelProvider,
    IssueAethelStream,
    IssueAethelStreamTransition,
    IssueAethelSeries,
    IssueAethelCreditDecision,
    IssueAethelGuarantee,
    IssueAethelGuaranteeRelease,
    IssueAethelProviderKeyRotation,
    IssueAethelProviderStatus,
    IssueAethelCredentialIssuer,
    IssueAethelCredentialStatus,
    IssueAethelFundingQuote,
    IssueAethelReceivable,
    IssueAethelDefault,
    IssueAethelGuaranteeClaim,
    IssueDeccpClearingBook,
    IssueDeccpMember,
    IssueDeccpGuaranteeFacility,
    IssueApplicationReserveScope,
    IssueApplicationNoteReservation,
    IssueApplicationNoteFill,
    IssueApplicationNoteFillBatch,
    IssueApplicationNoteRelease,
}

/// The kind of transaction under a name, if there is one.
pub open spec fn method_of(name: Seq<char>) -> Option<Method> {
    if name == "defmivm.issueAsset"@ {
        Some(Method::IssueAsset)
    } else if name == "defmivm.issueCSDIssuer"@ {
        Some(Method::IssueCsdIssuer)
    } else if name == "defmivm.issueCSDIssuerControl"@ {
        Some(Method::IssueCsdIssuerControl)
    } else if name == "defmivm.issueNote"@ {
        Some(Method::IssueNote)
    } else if name == "defmivm.issueNoteClaimMaterialization"@ {
        Some(Method::IssueNoteClaimMaterialization)
    } else if name == "defmivm.issueNoteSettlement"@ {
        Some(Method::IssueNoteSettlement)
    } else if name == "defmivm.issueAdmissionCommittee"@ {
        Some(Method::IssueAdmissionCommittee)
    } else if name == "defmivm.issueSettlementVerifier"@ {
        Some(Method::IssueSettlementVerifier)
    } else if name == "defmivm.issueAdmissionBatch"@ {
        Some(Method::IssueAdmissionBatch)
    } else if name == "defmivm.issueAdmissionAdvance"@ {
        Some(Method::IssueAdmissionAdvance)
    } else if name == "defmivm.issueProductReservation"@ {
        Some(Method::IssueProductReservation)
    } else if name == "defmivm.issueNoteProductReservation"@ {
        Some(Method::IssueNoteProductReservation)
    } else if name == "defmivm.issueProductRelease"@ {
        Some(Method::IssueProductRelease)
    } else if name == "defmivm.issueNoteProductRelease"@ {
        Some(Method::IssueNoteProductRelease)
    } else if name == "defmivm.issueProductSettlement"@ {
        Some(Method::IssueProductSettlement)
    } else if name == "defmivm.issueProductSettlementBatch"@ {
        Some(Method::IssueProductSettlementBatch)
    } else if name == "defmivm.issueNoteProductSettlement"@ {
        Some(Method::IssueNoteProductSettlement)
    } else if name == "defmivm.issueNoteProductSettlementBatch"@ {
        Some(Method::IssueNoteProductSettlementBatch)
    } else if name == "defmivm.issueAccount"@ {
        Some(Method::IssueAccount)
    } else if name == "defmivm.issueGuarantor"@ {
        Some(Method::IssueGuarantor)
    } else if name == "defmivm.issueCreditGrant"@ {
        Some(Method::IssueCreditGrant)
    } else if name == "defmivm.issueCreditTransition"@ {
        Some(Method::IssueCreditTransition)
    } else if name == "defmivm.issueCreditControl"@ {
        Some(Method::IssueCreditControl)
    } else if name == "defmivm.issueCreditAmendment"@ {
        Some(Method::IssueCreditAmendment)
    } else if name == "defmivm.issueSettlement"@ {
        Some(Method::IssueSettlement)
    } else if name == "defmivm.issueAethelProvider"@ {
        Some(Method::IssueAethelProvider)
    } else if name == "defmivm.issueAethelStream"@ {
        Some(Method::IssueAethelStream)
    } else if name == "defmivm.issueAethelStreamTransition"@ {
        Some(Method::IssueAethelStreamTransition)
    } else if name == "defmivm.issueAethelSeries"@ {
        Some(Method::IssueAethelSeries)
    } else if name == "defmivm.issueAethelCreditDecision"@ {
        Some(Method::IssueAethelCreditDecision)
    } else if name == "defmivm.issueAethelGuarantee"@ {
        Some(Method::IssueAethelGuarantee)
    } else if name == "defmivm.issueAethelGuaranteeRelease"@ {
        Some(Method::IssueAethelGuaranteeRelease)
    } else if name == "defmivm.issueAethelProviderKeyRotation"@ {
        Some(Method::IssueAethelProviderKeyRotation)
    } else if name == "defmivm.issueAethelProviderStatus"@ {
        Some(Method::IssueAethelProviderStatus)
    } else if name == "defmivm.issueAethelCredentialIssuer"@ {
        Some(Method::IssueAethelCredentialIssuer)
    } else if name == "defmivm.issueAethelCredentialStatus"@ {
        Some(Method::IssueAethelCredentialStatus)
    } else if name == "defmivm.issueAethelFundingQuote"@ {
        Some(Method::IssueAethelFundingQuote)
    } else if name == "defmivm.issueAethelReceivable"@ {
        Some(Method::IssueAethelReceivable)
    } else if name == "defmivm.issueAethelDefault"@ {
        Some(Method::IssueAethelDefault)
    } else if name == "defmivm.issueAethelGuaranteeClaim"@ {
        Some(Method::IssueAethelGuaranteeClaim)
    } else if name == "defmivm.issueDeccpClearingBook"@ {
        Some(Method::IssueDeccpClearingBook)
    } else if name == "defmivm.issueDeccpMember"@ {
        Some(Method::IssueDeccpMember)
    } else if name == "defmivm.issueDeccpGuaranteeFacility"@ {
        Some(Method::IssueDeccpGuaranteeFacility)
    } else if name == "defmivm.issueApplicationReserveScope"@ {
        Some(Method::IssueApplicationReserveScope)
    } else if name == "defmivm.issueApplicationNoteReservation"@ {
        Some(Method::IssueApplicationNoteReservation)
    } else if name == "defmivm.issueApplicationNoteFill"@ {
        Some(Method::IssueApplicationNoteFill)
    } else if name == "defmivm.issueApplicationNoteFillBatch"@ {
        Some(Method::IssueApplicationNoteFillBatch)
    } else if name == "defmivm.issueApplicationNoteRelease"@ {
        Some(Method::IssueApplicationNoteRelease)
    } else {
        None
    }
}

impl Method {
    /// The kind of transaction under a name.
    pub fn from_name(name: &str) -> (r: Result<Method, String>)
        ensures
            match r {
                Ok(method) => method_of(name@) == Some(method),
                Err(message) => method_of(name@) is None && message@ == name@
                    + " has no Rust consensus executor in this build"@,
            },
    {
        if same_text(name, "defmivm.issueAsset") {
            Ok(Method::IssueAsset)
        } else if same_text(name, "defmivm.issueCSDIssuer") {
            Ok(Method::IssueCsdIssuer)
        } else if same_text(name, "defmivm.issueCSDIssuerControl") {
            Ok(Method::IssueCsdIssuerControl)
        } else if same_text(name, "defmivm.issueNote") {
            Ok(Method::IssueNote)
        } else if same_text(name, "defmivm.issueNoteClaimMaterialization") {
            Ok(Method::IssueNoteClaimMaterialization)
        } else if same_text(name, "defmivm.issueNoteSettlement") {
            Ok(Method::IssueNoteSettlement)
        } else if same_text(name, "defmivm.issueAdmissionCommittee") {
            Ok(Method::IssueAdmissionCommittee)
        } else if same_text(name, "defmivm.issueSettlementVerifier") {
            Ok(Method::IssueSettlementVerifier)
        } else if same_text(name, "defmivm.issueAdmissionBatch") {
            Ok(Method::IssueAdmissionBatch)
        } else if same_text(name, "defmivm.issueAdmissionAdvance") {
            Ok(Method::IssueAdmissionAdvance)
        } else if same_text(name, "defmivm.issueProductReservation") {
            Ok(Method::IssueProductReservation)
        } else if same_text(name, "defmivm.issueNoteProductReservation") {
            Ok(Method::IssueNoteProductReservation)
        } else if same_text(name, "defmivm.issueProductRelease") {
            Ok(Method::IssueProductRelease)
        } else if same_text(name, "defmivm.issueNoteProductRelease") {
            Ok(Method::IssueNoteProductRelease)
        } else if same_text(name, "defmivm.issueProductSettlement") {
            Ok(Method::IssueProductSettlement)
        } else if same_text(name, "defmivm.issueProductSettlementBatch") {
            Ok(Method::IssueProductSettlementBatch)
        } else if same_text(name, "defmivm.issueNoteProductSettlement") {
            Ok(Method::IssueNoteProductSettlement)
        } else if same_text(name, "defmivm.issueNoteProductSettlementBatch") {
            Ok(Method::IssueNoteProductSettlementBatch)
        } else if same_text(name, "defmivm.issueAccount") {
            Ok(Method::IssueAccount)
        } else if same_text(name, "defmivm.issueGuarantor") {
            Ok(Method::IssueGuarantor)
        } else if same_text(name, "defmivm.issueCreditGrant") {
            Ok(Method::IssueCreditGrant)
        } else if same_text(name, "defmivm.issueCreditTransition") {
            Ok(Method::IssueCreditTransition)
        } else if same_text(name, "defmivm.issueCreditControl") {
            Ok(Method::IssueCreditControl)
        } else if same_text(name, "defmivm.issueCreditAmendment") {
            Ok(Method::IssueCreditAmendment)
        } else if same_text(name, "defmivm.issueSettlement") {
            Ok(Method::IssueSettlement)
        } else if same_text(name, "defmivm.issueAethelProvider") {
            Ok(Method::IssueAethelProvider)
        } else if same_text(name, "defmivm.issueAethelStream") {
            Ok(Method::IssueAethelStream)
        } else if same_text(name, "defmivm.issueAethelStreamTransition") {
            Ok(Method::IssueAethelStreamTransition)
        } else if same_text(name, "defmivm.issueAethelSeries") {
            Ok(Method::IssueAethelSeries)
        } else if same_text(name, "defmivm.issueAethelCreditDecision") {
            Ok(Method::IssueAethelCreditDecision)
        } else if same_text(name, "defmivm.issueAethelGuarantee") {
            Ok(Method::IssueAethelGuarantee)
        } else if same_text(name, "defmivm.issueAethelGuaranteeRelease") {
            Ok(Method::IssueAethelGuaranteeRelease)
        } else if same_text(name, "defmivm.issueAethelProviderKeyRotation") {
            Ok(Method::IssueAethelProviderKeyRotation)
        } else if same_text(name, "defmivm.issueAethelProviderStatus") {
            Ok(Method::IssueAethelProviderStatus)
        } else if same_text(name, "defmivm.issueAethelCredentialIssuer") {
            Ok(Method::IssueAethelCredentialIssuer)
        } else if same_text(name, "defmivm.issueAethelCredentialStatus") {
            Ok(Method::IssueAethelCredentialStatus)
        } else if same_text(name, "defmivm.issueAethelFundingQuote") {
            Ok(Method::IssueAethelFundingQuote)
        } else if same_text(name, "defmivm.issueAethelReceivable") {
            Ok(Method::IssueAethelReceivable)
        } else if same_text(name, "defmivm.issueAethelDefault") {
            Ok(Method::IssueAethelDefault)
        } else if same_text(name, "defmivm.issueAethelGuaranteeClaim") {
            Ok(Method::IssueAethelGuaranteeClaim)
        } else if same_text(name, "defmivm.issueDeccpClearingBook") {
            Ok(Method::IssueDeccpClearingBook)
        } else if same_text(name, "defmivm.issueDeccpMember") {
            Ok(Method::IssueDeccpMember)
        } else if same_text(name, "defmivm.issueDeccpGuaranteeFacility") {
            Ok(Method::IssueDeccpGuaranteeFacility)
        } else if same_text(name, "defmivm.issueApplicationReserveScope") {
            Ok(Method::IssueApplicationReserveScope)
        } else if same_text(name, "defmivm.issueApplicationNoteReservation") {
            Ok(Method::IssueApplicationNoteReservation)
        } else if same_text(name, "defmivm.issueApplicationNoteFill") {
            Ok(Method::IssueApplicationNoteFill)
        } else if same_text(name, "defmivm.issueApplicationNoteFillBatch") {
            Ok(Method::IssueApplicationNoteFillBatch)
        } else if same_text(name, "defmivm.issueApplicationNoteRelease") {
            Ok(Method::IssueApplicationNoteRelease)
        } else {
            Err(join(name, " has no Rust consensus executor in this build"))
        }
    }

    /// The names of the parameters that a transaction of the kind carries beside
    /// its approval and the state root it was built on.
    pub fn fields(self) -> (r: Vec<&'static str>)
        ensures
            r@ == self.field_names(),
    {
        match self {
            Method::IssueAsset => vec!["asset"],
            Method::IssueCsdIssuer => vec!["issuer"],
            Method::IssueCsdIssuerControl
            | Method::IssueCreditControl => vec!["control"],
            Method::IssueNote => vec!["issuance"],
            Method::IssueNoteClaimMaterialization => vec!["materialization"],
            Method::IssueNoteSettlement
            | Method::IssueProductRelease
            | Method::IssueNoteProductRelease
            | Method::IssueProductSettlement
            | Method::IssueSettlement => vec!["order"],
            Method::IssueAdmissionCommittee => vec!["plan"],
            Method::IssueSettlementVerifier => vec!["config"],
            Method::IssueAdmissionBatch => vec!["plan", "admissionLanes"],
            Method::IssueAdmissionAdvance => vec!["advance"],
            Method::IssueProductReservation
            | Method::IssueNoteProductReservation => vec!["transition", "authorization", "escrow"],
            Method::IssueProductSettlementBatch => vec!["batch", "orders"],
            Method::IssueNoteProductSettlement => vec!["order", "evidence"],
            Method::IssueNoteProductSettlementBatch => vec!["batch", "orders", "evidence"],
            Method::IssueAccount => vec!["opening"],
            Method::IssueGuarantor => vec!["guarantor"],
            Method::IssueCreditGrant => vec!["grant"],
            Method::IssueCreditTransition => vec!["transition"],
            Method::IssueCreditAmendment => vec!["amendment"],
            Method::IssueAethelProvider
            | Method::IssueAethelStream
            | Method::IssueAethelStreamTransition
            | Method::IssueAethelSeries
            | Method::IssueAethelCreditDecision
            | Method::IssueAethelGuarantee
            | Method::IssueAethelGuaranteeRelease
            | Method::IssueAethelProviderKeyRotation
            | Method::IssueAethelProviderStatus
            | Method::IssueAethelCredentialIssuer
            | Method::IssueAethelCredentialStatus
            | Method::IssueAethelFundingQuote
            | Method::IssueAethelDefault
            | Method::IssueDeccpClearingBook => vec!["request"],
            Method::IssueAethelReceivable
            | Method::IssueAethelGuaranteeClaim => vec!["request", "zkpi"],
            Method::IssueDeccpMember => vec!["request", "subjectProof", "deccpApproval"],
            Method::IssueDeccpGuaranteeFacility => vec!["request", "deccpApproval"],
            Method::IssueApplicationReserveScope => vec!["scope"],
            Method::IssueApplicationNoteReservation => vec![
                "binding",
                "transition",
                "escrow",
                "relationProof",
                "spendProof",
            ],
            Method::IssueApplicationNoteFill => vec!["fill"],
            Method::IssueApplicationNoteFillBatch => vec!["batch"],
            Method::IssueApplicationNoteRelease => vec!["release"],
        }
    }

    /// The names of the parameters that a transaction of the kind carries.
    pub open spec fn field_names(self) -> Seq<&'static str> {
        match self {
            Method::IssueAsset => seq!["asset"],
            Method::IssueCsdIssuer => seq!["issuer"],
            Method::IssueCsdIssuerControl
            | Method::IssueCreditControl => seq!["control"],
            Method::IssueNote => seq!["issuance"],
            Method::IssueNoteClaimMaterialization => seq!["materialization"],
            Method::IssueNoteSettlement
            | Method::IssueProductRelease
            | Method::IssueNoteProductRelease
            | Method::IssueProductSettlement
            | Method::IssueSettlement => seq!["order"],
            Method::IssueAdmissionCommittee => seq!["plan"],
            Method::IssueSettlementVerifier => seq!["config"],
            Method::IssueAdmissionBatch => seq!["plan", "admissionLanes"],
            Method::IssueAdmissionAdvance => seq!["advance"],
            Method::IssueProductReservation
            | Method::IssueNoteProductReservation => seq!["transition", "authorization", "escrow"],
            Method::IssueProductSettlementBatch => seq!["batch", "orders"],
            Method::IssueNoteProductSettlement => seq!["order", "evidence"],
            Method::IssueNoteProductSettlementBatch => seq!["batch", "orders", "evidence"],
            Method::IssueAccount => seq!["opening"],
            Method::IssueGuarantor => seq!["guarantor"],
            Method::IssueCreditGrant => seq!["grant"],
            Method::IssueCreditTransition => seq!["transition"],
            Method::IssueCreditAmendment => seq!["amendment"],
            Method::IssueAethelProvider
            | Method::IssueAethelStream
            | Method::IssueAethelStreamTransition
            | Method::IssueAethelSeries
            | Method::IssueAethelCreditDecision
            | Method::IssueAethelGuarantee
            | Method::IssueAethelGuaranteeRelease
            | Method::IssueAethelProviderKeyRotation
            | Method::IssueAethelProviderStatus
            | Method::IssueAethelCredentialIssuer
            | Method::IssueAethelCredentialStatus
            | Method::IssueAethelFundingQuote
            | Method::IssueAethelDefault
            | Method::IssueDeccpClearingBook => seq!["request"],
            Method::IssueAethelReceivable
            | Method::IssueAethelGuaranteeClaim => seq!["request", "zkpi"],
            Method::IssueDeccpMember => seq!["request", "subjectProof", "deccpApproval"],
            Method::IssueDeccpGuaranteeFacility => seq!["request", "deccpApproval"],
            Method::IssueApplicationReserveScope => seq!["scope"],
            Method::IssueApplicationNoteReservation => seq![
                "binding",
                "transition",
                "escrow",
                "relationProof",
                "spendProof",
            ],
            Method::IssueApplicationNoteFill => seq!["fill"],
            Method::IssueApplicationNoteFillBatch => seq!["batch"],
            Method::IssueApplicationNoteRelease => seq!["release"],
        }
    }

    /// Whether a transaction of the kind carries the committee's approval. Fills
    /// and releases of application reservations carry a certificate of their own.
    pub open spec fn takes_approval(self) -> bool {
        !(self == Method::IssueApplicationNoteFill || self
            == Method::IssueApplicationNoteFillBatch || self
            == Method::IssueApplicationNoteRelease)
    }

    /// Why the parameters of a transaction of the kind are not named as they are
    /// to be.
    pub open spec fn keys_refusal(self, keys: Seq<String>) -> Option<Seq<char>> {
        if self == Method::IssueAethelCreditDecision || self == Method::IssueAethelGuarantee {
            artifact_keys_refusal(keys)
        } else if self.takes_approval() {
            keys_refusal(keys, self.field_names() + seq!["approval", "expectedBeforeRoot"])
        } else {
            keys_refusal(keys, self.field_names())
        }
    }

    /// Checks the names of the parameters of a transaction of the kind.
    pub fn check_keys(self, keys: &Vec<String>) -> (r: Result<(), String>)
        ensures
            verdict(r, self.keys_refusal(keys@)),
    {
        if self == Method::IssueAethelCreditDecision || self == Method::IssueAethelGuarantee {
            return require_aethel_artifact_keys(keys);
        }
        let mut expected = self.fields();
        if self != Method::IssueApplicationNoteFill && self
            != Method::IssueApplicationNoteFillBatch && self
            != Method::IssueApplicationNoteRelease {
            expected.push("approval");
            expected.push("expectedBeforeRoot");
            assert(expected@ =~= self.field_names() + seq!["approval", "expectedBeforeRoot"]);
        }
        require_keys(keys, expected.as_slice())
    }
}

/// A decoded transaction.
#[derive(Debug)]
#[allow(inconsistent_fields)]
pub enum Action {
    IssueAsset { definition: AssetDefinition },
    IssueCsdIssuer { issuer: CsdIssuerDefinition },
    IssueCsdIssuerControl { control: CsdIssuerControl },
    IssueNote { issuance: NoteIssuance, issuer: IssuerVerdict },
    IssueNoteClaimMaterialization { materialization: NoteClaimMaterialization },
    IssueNoteSettlement { order: NoteSettlementOrder },
    IssueAdmissionCommittee { plan: AdmissionCommitteePlan },
    IssueSettlementVerifier { config: SettlementVerifierConfig },
    IssueAdmissionBatch { plan: AdmissionBatchPlan, lanes: Result<Vec<SubmittedLane>, String> },
    IssueAdmissionAdvance { advance: AdmissionSlotAdvance },
    IssueProductReservation { request: ProductReservation },
    IssueNoteProductReservation { request: NoteProductReservation },
    IssueProductRelease { order: ProductReleaseOrder },
    IssueNoteProductRelease { order: ProductNoteReleaseOrder },
    IssueProductSettlement { order: ProductSettlementOrder },
    IssueProductSettlementBatch {
        batch: ProductSettlementBatch,
        orders: Vec<ProductSettlementOrder>,
    },
    IssueNoteProductSettlement { order: ProductNoteSettlementOrder, findings: SettlementFindings },
    IssueNoteProductSettlementBatch {
        batch: ProductSettlementBatch,
        orders: Vec<ProductNoteSettlementOrder>,
        findings: Vec<SettlementFindings>,
    },
    IssueAccount { opening: AccountOpening },
    IssueGuarantor { definition: GuarantorDefinition },
    IssueCreditGrant { grant: CreditFacilityGrant },
    IssueCreditTransition { transition: CreditFacilityTransition, seal: Seal },
    IssueCreditControl { control: CreditFacilityControl },
    IssueCreditAmendment { amendment: CreditFacilityAmendment },
    IssueSettlement { order: SettlementOrder },
    IssueAethelProvider { provider_id: Id, provider: Provider, operation_id: Id, call: BookCall },
    IssueAethelStream { stream_id: Id, stream: Stream, operation_id: Id, call: BookCall },
    IssueAethelStreamTransition {
        attestor_provider_id: Id,
        stream_id: Id,
        stream: Stream,
        operation_id: Id,
        call: BookCall,
    },
    IssueAethelSeries { series_id: Id, series: Series, operation_id: Id, call: BookCall },
    IssueAethelCreditDecision {
        decision_id: Id,
        decision: CreditDecision,
        subject: Result<bool, String>,
        operation_id: Id,
        call: BookCall,
    },
    IssueAethelGuarantee {
        request: GuaranteeCommitment,
        answer: ClearingAnswer,
        subject: Result<bool, String>,
        call: BookCall,
    },
    IssueAethelGuaranteeRelease {
        request: GuaranteeRelease,
        answer: ClearingAnswer,
        call: BookCall,
    },
    IssueAethelProviderKeyRotation {
        provider_id: Id,
        next_public_key: Id,
        operation_id: Id,
        call: BookCall,
    },
    IssueAethelProviderStatus {
        provider_id: Id,
        status: ProviderStatus,
        operation_id: Id,
        call: BookCall,
    },
    IssueAethelCredentialIssuer {
        provider_id: Id,
        epoch: Numbered,
        issuer: CredentialIssuer,
        operation_id: Id,
        call: BookCall,
    },
    IssueAethelCredentialStatus {
        epoch: Numbered,
        list: StatusList,
        operation_id: Id,
        call: BookCall,
    },
    IssueAethelFundingQuote { quote_id: Id, quote: FundingQuote, call: BookCall },
    IssueAethelReceivable {
        request: ReceivableIssuance,
        submitted: SubmittedInstruction,
        successor: IssuanceSuccessor,
        answer: ClearingAnswer,
        call: BookCall,
    },
    IssueAethelDefault { attestation_id: Id, attestation: DefaultAttestation, call: BookCall },
    IssueAethelGuaranteeClaim {
        request: GuaranteeClaim,
        submitted: SubmittedInstruction,
        answer: ClearingAnswer,
        call: BookCall,
    },
    IssueDeccpClearingBook {
        request: ClearingBookRegistration,
        opened: ClearingAnswer,
    },
    IssueDeccpMember {
        request: ParticipantAdmission,
        statement: Result<Id, String>,
        parsed: Result<(), String>,
        presentation: PresentationFindings,
        admitted: ClearingAnswer,
    },
    IssueDeccpGuaranteeFacility {
        operation_id: Id,
        facility: ConfidentialFacility,
        statement: Id,
        parsed: Result<(), String>,
        registered: ClearingAnswer,
    },
    IssueApplicationReserveScope { registration: ApplicationScopeRegistration },
    IssueApplicationNoteReservation { request: ApplicationNoteReservation },
    IssueApplicationNoteFill { order: ApplicationNoteFill },
    IssueApplicationNoteFillBatch { batch: ApplicationNoteFillBatch },
    IssueApplicationNoteRelease { order: ApplicationNoteRelease },
}

/// The statement that a seal gives, or why it gives none.
pub open spec fn sealed_statement(seal: Seal) -> Result<Id, Seq<char>> {
    match seal.refusal() {
        Some(message) => Err(message),
        None => Ok(seal.statement->Ok_0),
    }
}

/// A statement as given, or why there is none.
pub open spec fn given_statement(statement: Result<Id, String>) -> Result<Id, Seq<char>> {
    match statement {
        Ok(value) => Ok(value),
        Err(message) => Err(message@),
    }
}

/// The statement that a transaction makes, or why it makes none.
pub open spec fn action_statement(action: Action) -> Result<Id, Seq<char>> {
    match action {
        Action::IssueAsset { definition, .. } => sealed_statement(definition.seal),
        Action::IssueCsdIssuer { issuer, .. } => sealed_statement(issuer.seal),
        Action::IssueCsdIssuerControl { control, .. } => sealed_statement(control.seal),
        Action::IssueNote { issuance, .. } => sealed_statement(issuance.seal),
        Action::IssueNoteClaimMaterialization { materialization, .. } => sealed_statement(
            materialization.seal,
        ),
        Action::IssueNoteSettlement { order, .. } => sealed_statement(order.seal),
        Action::IssueAdmissionCommittee { plan, .. } => sealed_statement(plan.seal),
        Action::IssueSettlementVerifier { config, .. } => given_statement(config.statement),
        Action::IssueAdmissionBatch { plan, .. } => sealed_statement(plan.seal),
        Action::IssueAdmissionAdvance { advance, .. } => sealed_statement(advance.seal),
        Action::IssueProductReservation { request, .. } => given_statement(request.statement),
        Action::IssueNoteProductReservation { request, .. } => given_statement(request.statement),
        Action::IssueProductRelease { order, .. } => sealed_statement(order.seal),
        Action::IssueNoteProductRelease { order, .. } => sealed_statement(order.seal),
        Action::IssueProductSettlement { order, .. } => sealed_statement(order.seal),
        Action::IssueProductSettlementBatch { batch, .. } => sealed_statement(batch.seal),
        Action::IssueNoteProductSettlement { order, .. } => sealed_statement(order.seal),
        Action::IssueNoteProductSettlementBatch { batch, .. } => sealed_statement(batch.seal),
        Action::IssueAccount { opening, .. } => sealed_statement(opening.seal),
        Action::IssueGuarantor { definition, .. } => sealed_statement(definition.seal),
        Action::IssueCreditGrant { grant, .. } => sealed_statement(grant.seal),
        Action::IssueCreditTransition { seal, .. } => sealed_statement(seal),
        Action::IssueCreditControl { control, .. } => sealed_statement(control.seal),
        Action::IssueCreditAmendment { amendment, .. } => sealed_statement(amendment.seal),
        Action::IssueSettlement { order, .. } => sealed_statement(order.seal),
        Action::IssueAethelProvider { call, .. } => given_statement(call.statement),
        Action::IssueAethelStream { call, .. } => given_statement(call.statement),
        Action::IssueAethelStreamTransition { call, .. } => given_statement(call.statement),
        Action::IssueAethelSeries { call, .. } => given_statement(call.statement),
        Action::IssueAethelCreditDecision { call, .. } => given_statement(call.statement),
        Action::IssueAethelGuarantee { call, .. } => given_statement(call.statement),
        Action::IssueAethelGuaranteeRelease { call, .. } => given_statement(call.statement),
        Action::IssueAethelProviderKeyRotation { call, .. } => given_statement(call.statement),
        Action::IssueAethelProviderStatus { call, .. } => given_statement(call.statement),
        Action::IssueAethelCredentialIssuer { call, .. } => given_statement(call.statement),
        Action::IssueAethelCredentialStatus { call, .. } => given_statement(call.statement),
        Action::IssueAethelFundingQuote { call, .. } => given_statement(call.statement),
        Action::IssueAethelReceivable { call, .. } => given_statement(call.statement),
        Action::IssueAethelDefault { call, .. } => given_statement(call.statement),
        Action::IssueAethelGuaranteeClaim { call, .. } => given_statement(call.statement),
        Action::IssueDeccpClearingBook { request, .. } => match request.refusal() {
            Some(message) => Err(message),
            None => Ok(request.digest()),
        },
        Action::IssueDeccpMember { statement, .. } => given_statement(statement),
        Action::IssueDeccpGuaranteeFacility { statement, .. } => Ok(statement),
        Action::IssueApplicationReserveScope { registration, .. } => sealed_statement(
            registration.seal,
        ),
        Action::IssueApplicationNoteReservation { request, .. } => sealed_statement(request.seal),
        Action::IssueApplicationNoteFill { order, .. } => match order.verified {
            Ok(verified) => Ok(verified.statement),
            Err(message) => Err(message@),
        },
        Action::IssueApplicationNoteFillBatch { batch, .. } => given_statement(batch.statement),
        Action::IssueApplicationNoteRelease { order, .. } => match order.verified {
            Ok(verified) => Ok(verified.statement),
            Err(message) => Err(message@),
        },
    }
}

/// The kind of a transaction.
pub open spec fn action_method(action: Action) -> Method {
    match action {
        Action::IssueAsset { .. } => Method::IssueAsset,
        Action::IssueCsdIssuer { .. } => Method::IssueCsdIssuer,
        Action::IssueCsdIssuerControl { .. } => Method::IssueCsdIssuerControl,
        Action::IssueNote { .. } => Method::IssueNote,
        Action::IssueNoteClaimMaterialization { .. } => Method::IssueNoteClaimMaterialization,
        Action::IssueNoteSettlement { .. } => Method::IssueNoteSettlement,
        Action::IssueAdmissionCommittee { .. } => Method::IssueAdmissionCommittee,
        Action::IssueSettlementVerifier { .. } => Method::IssueSettlementVerifier,
        Action::IssueAdmissionBatch { .. } => Method::IssueAdmissionBatch,
        Action::IssueAdmissionAdvance { .. } => Method::IssueAdmissionAdvance,
        Action::IssueProductReservation { .. } => Method::IssueProductReservation,
        Action::IssueNoteProductReservation { .. } => Method::IssueNoteProductReservation,
        Action::IssueProductRelease { .. } => Method::IssueProductRelease,
        Action::IssueNoteProductRelease { .. } => Method::IssueNoteProductRelease,
        Action::IssueProductSettlement { .. } => Method::IssueProductSettlement,
        Action::IssueProductSettlementBatch { .. } => Method::IssueProductSettlementBatch,
        Action::IssueNoteProductSettlement { .. } => Method::IssueNoteProductSettlement,
        Action::IssueNoteProductSettlementBatch { .. } => Method::IssueNoteProductSettlementBatch,
        Action::IssueAccount { .. } => Method::IssueAccount,
        Action::IssueGuarantor { .. } => Method::IssueGuarantor,
        Action::IssueCreditGrant { .. } => Method::IssueCreditGrant,
        Action::IssueCreditTransition { .. } => Method::IssueCreditTransition,
        Action::IssueCreditControl { .. } => Method::IssueCreditControl,
        Action::IssueCreditAmendment { .. } => Method::IssueCreditAmendment,
        Action::IssueSettlement { .. } => Method::IssueSettlement,
        Action::IssueAethelProvider { .. } => Method::IssueAethelProvider,
        Action::IssueAethelStream { .. } => Method::IssueAethelStream,
        Action::IssueAethelStreamTransition { .. } => Method::IssueAethelStreamTransition,
        Action::IssueAethelSeries { .. } => Method::IssueAethelSeries,
        Action::IssueAethelCreditDecision { .. } => Method::IssueAethelCreditDecision,
        Action::IssueAethelGuarantee { .. } => Method::IssueAethelGuarantee,
        Action::IssueAethelGuaranteeRelease { .. } => Method::IssueAethelGuaranteeRelease,
        Action::IssueAethelProviderKeyRotation { .. } => Method::IssueAethelProviderKeyRotation,
        Action::IssueAethelProviderStatus { .. } => Method::IssueAethelProviderStatus,
        Action::IssueAethelCredentialIssuer { .. } => Method::IssueAethelCredentialIssuer,
        Action::IssueAethelCredentialStatus { .. } => Method::IssueAethelCredentialStatus,
        Action::IssueAethelFundingQuote { .. } => Method::IssueAethelFundingQuote,
        Action::IssueAethelReceivable { .. } => Method::IssueAethelReceivable,
        Action::IssueAethelDefault { .. } => Method::IssueAethelDefault,
        Action::IssueAethelGuaranteeClaim { .. } => Method::IssueAethelGuaranteeClaim,
        Action::IssueDeccpClearingBook { .. } => Method::IssueDeccpClearingBook,
        Action::IssueDeccpMember { .. } => Method::IssueDeccpMember,
        Action::IssueDeccpGuaranteeFacility { .. } => Method::IssueDeccpGuaranteeFacility,
        Action::IssueApplicationReserveScope { .. } => Method::IssueApplicationReserveScope,
        Action::IssueApplicationNoteReservation { .. } => Method::IssueApplicationNoteReservation,
        Action::IssueApplicationNoteFill { .. } => Method::IssueApplicationNoteFill,
        Action::IssueApplicationNoteFillBatch { .. } => Method::IssueApplicationNoteFillBatch,
        Action::IssueApplicationNoteRelease { .. } => Method::IssueApplicationNoteRelease,
    }
}

impl Action {
    /// The statement that the committee is to approve for the transaction, or why
    /// there is none.
    pub fn statement(&self) -> (r: Result<Id, String>)
        ensures
            match r {
                Ok(statement) => action_statement(*self) == Ok::<Id, Seq<char>>(statement),
                Err(message) => action_statement(*self) == Err::<Id, Seq<char>>(message@),
            },
    {
        match self {
            Action::IssueAsset { definition, .. } => definition.seal.open(),
            Action::IssueCsdIssuer { issuer, .. } => issuer.seal.open(),
            Action::IssueCsdIssuerControl { control, .. } => control.seal.open(),
            Action::IssueNote { issuance, .. } => issuance.seal.open(),
            Action::IssueNoteClaimMaterialization { materialization, .. } => materialization.seal.open(),
            Action::IssueNoteSettlement { order, .. } => order.seal.open(),
            Action::IssueAdmissionCommittee { plan, .. } => plan.seal.open(),
            Action::IssueSettlementVerifier { config, .. } => statement_of(&config.statement),
            Action::IssueAdmissionBatch { plan, .. } => plan.seal.open(),
            Action::IssueAdmissionAdvance { advance, .. } => advance.seal.open(),
            Action::IssueProductReservation { request, .. } => statement_of(&request.statement),
            Action::IssueNoteProductReservation { request, .. } => statement_of(&request.statement),
            Action::IssueProductRelease { order, .. } => order.seal.open(),
            Action::IssueNoteProductRelease { order, .. } => order.seal.open(),
            Action::IssueProductSettlement { order, .. } => order.seal.open(),
            Action::IssueProductSettlementBatch { batch, .. } => batch.seal.open(),
            Action::IssueNoteProductSettlement { order, .. } => order.seal.open(),
            Action::IssueNoteProductSettlementBatch { batch, .. } => batch.seal.open(),
            Action::IssueAccount { opening, .. } => opening.seal.open(),
            Action::IssueGuarantor { definition, .. } => definition.seal.open(),
            Action::IssueCreditGrant { grant, .. } => grant.seal.open(),
            Action::IssueCreditTransition { seal, .. } => seal.open(),
            Action::IssueCreditControl { control, .. } => control.seal.open(),
            Action::IssueCreditAmendment { amendment, .. } => amendment.seal.open(),
            Action::IssueSettlement { order, .. } => order.seal.open(),
            Action::IssueAethelProvider { call, .. } => statement_of(&call.statement),
            Action::IssueAethelStream { call, .. } => statement_of(&call.statement),
            Action::IssueAethelStreamTransition { call, .. } => statement_of(&call.statement),
            Action::IssueAethelSeries { call, .. } => statement_of(&call.statement),
            Action::IssueAethelCreditDecision { call, .. } => statement_of(&call.statement),
            Action::IssueAethelGuarantee { call, .. } => statement_of(&call.statement),
            Action::IssueAethelGuaranteeRelease { call, .. } => statement_of(&call.statement),
            Action::IssueAethelProviderKeyRotation { call, .. } => statement_of(&call.statement),
            Action::IssueAethelProviderStatus { call, .. } => statement_of(&call.statement),
            Action::IssueAethelCredentialIssuer { call, .. } => statement_of(&call.statement),
            Action::IssueAethelCredentialStatus { call, .. } => statement_of(&call.statement),
            Action::IssueAethelFundingQuote { call, .. } => statement_of(&call.statement),
            Action::IssueAethelReceivable { call, .. } => statement_of(&call.statement),
            Action::IssueAethelDefault { call, .. } => statement_of(&call.statement),
            Action::IssueAethelGuaranteeClaim { call, .. } => statement_of(&call.statement),
            Action::IssueDeccpClearingBook { request, .. } => request.statement(),
            Action::IssueDeccpMember { statement, .. } => statement_of(statement),
            Action::IssueDeccpGuaranteeFacility { statement, .. } => Ok(*statement),
            Action::IssueApplicationReserveScope { registration, .. } => registration.seal.open(),
            Action::IssueApplicationNoteReservation { request, .. } => request.seal.open(),
            Action::IssueApplicationNoteFill { order, .. } => match &order.verified {
                Ok(verified) => Ok(verified.statement),
                Err(message) => Err(message.clone()),
            },
            Action::IssueApplicationNoteFillBatch { batch, .. } => statement_of(&batch.statement),
            Action::IssueApplicationNoteRelease { order, .. } => match &order.verified {
                Ok(verified) => Ok(verified.statement),
                Err(message) => Err(message.clone()),
            },
        }
    }
}

/// What a transaction does.
pub open spec fn action_outcome(
    ledger: Ledger,
    action: Action,
    submission: Submission,
    timestamp: u64,
) -> Outcome {
    match action {
        Action::IssueAsset { definition } => register_asset_outcome(ledger, definition, submission),
        Action::IssueCsdIssuer { issuer } => register_csd_issuer_outcome(
            ledger,
            issuer,
            submission,
            timestamp,
        ),
        Action::IssueCsdIssuerControl { control } => control_csd_issuer_outcome(
            ledger,
            control,
            submission,
        ),
        Action::IssueNote { issuance, issuer } => issue_note_outcome(
            ledger,
            issuance,
            issuer,
            submission,
            timestamp,
        ),
        Action::IssueNoteClaimMaterialization { materialization } => materialize_outcome(
            ledger,
            materialization,
            submission,
        ),
        Action::IssueNoteSettlement { order } => settle_notes_outcome(
            ledger,
            order,
            submission,
            timestamp,
        ),
        Action::IssueAdmissionCommittee { plan } => register_committee_outcome(
            ledger,
            plan,
            submission,
            timestamp,
        ),
        Action::IssueSettlementVerifier { config } => register_verifier_outcome(
            ledger,
            config,
            submission,
            timestamp,
        ),
        Action::IssueAdmissionBatch { plan, lanes } => register_batch_outcome(
            ledger,
            plan,
            lanes,
            submission,
            timestamp,
        ),
        Action::IssueAdmissionAdvance { advance } => advance_outcome(
            ledger,
            advance,
            submission,
            timestamp,
        ),
        Action::IssueProductReservation { request } => reserve_product_outcome(
            ledger,
            request,
            submission,
            timestamp,
        ),
        Action::IssueNoteProductReservation { request } => reserve_note_product_outcome(
            ledger,
            request,
            submission,
            timestamp,
        ),
        Action::IssueProductRelease { order } => release_product_outcome(
            ledger,
            order,
            submission,
            timestamp,
        ),
        Action::IssueNoteProductRelease { order } => release_note_product_outcome(
            ledger,
            order,
            submission,
            timestamp,
        ),
        Action::IssueProductSettlement { order } => settle_product_outcome(
            ledger,
            order,
            submission,
            timestamp,
        ),
        Action::IssueProductSettlementBatch { batch, orders } => settle_product_batch_outcome(
            ledger,
            batch,
            orders@,
            submission,
            timestamp,
        ),
        Action::IssueNoteProductSettlement { order, findings } => settle_note_product_outcome(
            ledger,
            order,
            findings,
            submission,
            timestamp,
        ),
        Action::IssueNoteProductSettlementBatch { batch, orders, findings } => {
            settle_note_product_batch_outcome(
                ledger,
                batch,
                orders@,
                findings@,
                submission,
                timestamp,
            )
        },
        Action::IssueAccount { opening } => open_account_outcome(ledger, opening, submission),
        Action::IssueGuarantor { definition } => register_guarantor_outcome(
            ledger,
            definition,
            submission,
        ),
        Action::IssueCreditGrant { grant } => grant_outcome(ledger, grant, submission, timestamp),
        Action::IssueCreditTransition { transition, seal } => transition_outcome(
            ledger,
            transition,
            seal,
            submission,
            timestamp,
        ),
        Action::IssueCreditControl { control } => control_outcome(
            ledger,
            control,
            submission,
            timestamp,
        ),
        Action::IssueCreditAmendment { amendment } => amend_outcome(
            ledger,
            amendment,
            submission,
            timestamp,
        ),
        Action::IssueSettlement { order } => settle_outcome(ledger, order, submission, timestamp),
        Action::IssueAethelProvider {
            provider_id,
            provider,
            operation_id,
            call,
        } => register_provider_outcome(
            ledger,
            provider_id,
            provider,
            operation_id,
            call,
            submission,
            timestamp,
        ),
        Action::IssueAethelStream {
            stream_id,
            stream,
            operation_id,
            call,
        } => register_stream_outcome(
            ledger,
            stream_id,
            stream,
            operation_id,
            call,
            submission,
            timestamp,
        ),
        Action::IssueAethelStreamTransition {
            attestor_provider_id,
            stream_id,
            stream,
            operation_id,
            call,
        } => transition_stream_outcome(
            ledger,
            attestor_provider_id,
            stream_id,
            stream,
            operation_id,
            call,
            submission,
            timestamp,
        ),
        Action::IssueAethelSeries {
            series_id,
            series,
            operation_id,
            call,
        } => register_series_outcome(
            ledger,
            series_id,
            series,
            operation_id,
            call,
            submission,
            timestamp,
        ),
        Action::IssueAethelCreditDecision {
            decision_id,
            decision,
            subject,
            operation_id,
            call,
        } => record_credit_decision_outcome(
            ledger,
            decision_id,
            decision,
            subject,
            operation_id,
            call,
            submission,
            timestamp,
        ),
        Action::IssueAethelGuarantee { request, answer, subject, call } => record_guarantee_outcome(
            ledger,
            request,
            answer,
            subject,
            call,
            submission,
            timestamp,
        ),
        Action::IssueAethelGuaranteeRelease { request, answer, call } => release_guarantee_outcome(
            ledger,
            request,
            answer,
            call,
            submission,
            timestamp,
        ),
        Action::IssueAethelProviderKeyRotation {
            provider_id,
            next_public_key,
            operation_id,
            call,
        } => rotate_provider_key_outcome(
            ledger,
            provider_id,
            next_public_key,
            operation_id,
            call,
            submission,
            timestamp,
        ),
        Action::IssueAethelProviderStatus {
            provider_id,
            status,
            operation_id,
            call,
        } => set_provider_status_outcome(
            ledger,
            provider_id,
            status,
            operation_id,
            call,
            submission,
            timestamp,
        ),
        Action::IssueAethelCredentialIssuer {
            provider_id,
            epoch,
            issuer,
            operation_id,
            call,
        } => register_credential_issuer_outcome(
            ledger,
            provider_id,
            epoch,
            issuer,
            operation_id,
            call,
            submission,
            timestamp,
        ),
        Action::IssueAethelCredentialStatus {
            epoch,
            list,
            operation_id,
            call,
        } => publish_credential_status_outcome(
            ledger,
            epoch,
            list,
            operation_id,
            call,
            submission,
            timestamp,
        ),
        Action::IssueAethelFundingQuote { quote_id, quote, call } => record_funding_quote_outcome(
            ledger,
            quote_id,
            quote,
            call,
            submission,
            timestamp,
        ),
        Action::IssueAethelReceivable {
            request,
            submitted,
            successor,
            answer,
            call,
        } => issue_outcome(
            ledger,
            request,
            submitted,
            successor,
            answer,
            call,
            submission,
            timestamp,
        ),
        Action::IssueAethelDefault { attestation_id, attestation, call } => record_default_outcome(
            ledger,
            attestation_id,
            attestation,
            call,
            submission,
            timestamp,
        ),
        Action::IssueAethelGuaranteeClaim { request, submitted, answer, call } => claim_outcome(
            ledger,
            request,
            submitted,
            answer,
            call,
            submission,
            timestamp,
        ),
        Action::IssueDeccpClearingBook { request, opened } => open_clearing_book_outcome(
            ledger,
            request,
            opened,
            submission,
            timestamp,
        ),
        Action::IssueDeccpMember {
            request,
            statement,
            parsed,
            presentation,
            admitted,
        } => admit_member_outcome(
            ledger,
            request,
            statement,
            parsed,
            presentation,
            admitted,
            submission,
            timestamp,
        ),
        Action::IssueDeccpGuaranteeFacility {
            operation_id,
            facility,
            statement,
            parsed,
            registered,
        } => register_guarantee_facility_outcome(
            ledger,
            operation_id,
            facility,
            statement,
            parsed,
            registered,
            submission,
            timestamp,
        ),
        Action::IssueApplicationReserveScope { registration } => register_scope_outcome(
            ledger,
            registration,
            submission,
        ),
        Action::IssueApplicationNoteReservation { request } => reserve_application_outcome(
            ledger,
            request,
            submission,
            timestamp,
        ),
        Action::IssueApplicationNoteFill { order } => fill_alone_outcome(
            ledger,
            order,
            submission.before_root,
            timestamp,
        ),
        Action::IssueApplicationNoteFillBatch { batch } => fill_batch_outcome(
            ledger,
            batch,
            submission.before_root,
            timestamp,
        ),
        Action::IssueApplicationNoteRelease { order } => release_outcome(
            ledger,
            order,
            submission.before_root,
            timestamp,
        ),
    }
}

/// Carries out a transaction.
pub fn execute(
    state: &mut State,
    action: Action,
    submission: &Submission,
    timestamp: u64,
) -> (r: Result<Id, String>)
    ensures
        meets(r, final(state)@, action_outcome(old(state)@, action, *submission, timestamp)),
{
    match action {
        Action::IssueAsset { definition } => register_asset(state, definition, submission),
        Action::IssueCsdIssuer { issuer } => register_csd_issuer(
            state,
            issuer,
            submission,
            timestamp,
        ),
        Action::IssueCsdIssuerControl { control } => control_csd_issuer(
            state,
            &control,
            submission,
        ),
        Action::IssueNote { issuance, issuer } => issue_note(
            state,
            &issuance,
            &issuer,
            submission,
            timestamp,
        ),
        Action::IssueNoteClaimMaterialization { materialization } => materialize_note_claim(
            state,
            &materialization,
            submission,
        ),
        Action::IssueNoteSettlement { order } => settle_notes(state, &order, submission, timestamp),
        Action::IssueAdmissionCommittee { plan } => register_admission_committee(
            state,
            plan,
            submission,
            timestamp,
        ),
        Action::IssueSettlementVerifier { config } => register_settlement_verifier(
            state,
            config,
            submission,
            timestamp,
        ),
        Action::IssueAdmissionBatch { plan, lanes } => register_admission_batch(
            state,
            &plan,
            &lanes,
            submission,
            timestamp,
        ),
        Action::IssueAdmissionAdvance { advance } => advance_admission(
            state,
            &advance,
            submission,
            timestamp,
        ),
        Action::IssueProductReservation { request } => reserve_product(
            state,
            &request,
            submission,
            timestamp,
        ),
        Action::IssueNoteProductReservation { request } => reserve_note_product(
            state,
            &request,
            submission,
            timestamp,
        ),
        Action::IssueProductRelease { order } => release_product(
            state,
            &order,
            submission,
            timestamp,
        ),
        Action::IssueNoteProductRelease { order } => release_note_product(
            state,
            &order,
            submission,
            timestamp,
        ),
        Action::IssueProductSettlement { order } => settle_product(
            state,
            &order,
            submission,
            timestamp,
        ),
        Action::IssueProductSettlementBatch { batch, orders } => settle_product_batch(
            state,
            &batch,
            &orders,
            submission,
            timestamp,
        ),
        Action::IssueNoteProductSettlement { order, findings } => settle_note_product(
            state,
            &order,
            &findings,
            submission,
            timestamp,
        ),
        Action::IssueNoteProductSettlementBatch { batch, orders, findings } => {
            settle_note_product_batch(
                state,
                &batch,
                &orders,
                &findings,
                submission,
                timestamp,
            )
        },
        Action::IssueAccount { opening } => open_account(state, &opening, submission),
        Action::IssueGuarantor { definition } => register_guarantor(state, definition, submission),
        Action::IssueCreditGrant { grant } => grant_credit(state, &grant, submission, timestamp),
        Action::IssueCreditTransition { transition, seal } => transition_credit(
            state,
            &transition,
            &seal,
            submission,
            timestamp,
        ),
        Action::IssueCreditControl { control } => control_credit(
            state,
            &control,
            submission,
            timestamp,
        ),
        Action::IssueCreditAmendment { amendment } => amend_credit(
            state,
            &amendment,
            submission,
            timestamp,
        ),
        Action::IssueSettlement { order } => settle(state, &order, submission, timestamp),
        Action::IssueAethelProvider {
            provider_id,
            provider,
            operation_id,
            call,
        } => register_provider(
            state,
            &provider_id,
            &provider,
            operation_id,
            call,
            submission,
            timestamp,
        ),
        Action::IssueAethelStream { stream_id, stream, operation_id, call } => register_stream(
            state,
            &stream_id,
            &stream,
            operation_id,
            call,
            submission,
            timestamp,
        ),
        Action::IssueAethelStreamTransition {
            attestor_provider_id,
            stream_id,
            stream,
            operation_id,
            call,
        } => transition_stream(
            state,
            &attestor_provider_id,
            &stream_id,
            &stream,
            operation_id,
            call,
            submission,
            timestamp,
        ),
        Action::IssueAethelSeries { series_id, series, operation_id, call } => register_series(
            state,
            &series_id,
            &series,
            operation_id,
            call,
            submission,
            timestamp,
        ),
        Action::IssueAethelCreditDecision {
            decision_id,
            decision,
            subject,
            operation_id,
            call,
        } => record_credit_decision(
            state,
            &decision_id,
            &decision,
            &subject,
            operation_id,
            call,
            submission,
            timestamp,
        ),
        Action::IssueAethelGuarantee { request, answer, subject, call } => record_guarantee(
            state,
            &request,
            answer,
            &subject,
            call,
            submission,
            timestamp,
        ),
        Action::IssueAethelGuaranteeRelease { request, answer, call } => release_guarantee(
            state,
            &request,
            answer,
            call,
            submission,
            timestamp,
        ),
        Action::IssueAethelProviderKeyRotation {
            provider_id,
            next_public_key,
            operation_id,
            call,
        } => rotate_provider_key(
            state,
            &provider_id,
            &next_public_key,
            operation_id,
            call,
            submission,
            timestamp,
        ),
        Action::IssueAethelProviderStatus {
            provider_id,
            status,
            operation_id,
            call,
        } => set_provider_status(
            state,
            &provider_id,
            status,
            operation_id,
            call,
            submission,
            timestamp,
        ),
        Action::IssueAethelCredentialIssuer {
            provider_id,
            epoch,
            issuer,
            operation_id,
            call,
        } => register_credential_issuer(
            state,
            &provider_id,
            &epoch,
            &issuer,
            operation_id,
            call,
            submission,
            timestamp,
        ),
        Action::IssueAethelCredentialStatus {
            epoch,
            list,
            operation_id,
            call,
        } => publish_credential_status(
            state,
            &epoch,
            &list,
            operation_id,
            call,
            submission,
            timestamp,
        ),
        Action::IssueAethelFundingQuote { quote_id, quote, call } => record_funding_quote(
            state,
            &quote_id,
            &quote,
            call,
            submission,
            timestamp,
        ),
        Action::IssueAethelReceivable {
            request,
            submitted,
            successor,
            answer,
            call,
        } => issue_receivable(
            state,
            &request,
            &submitted,
            &successor,
            answer,
            call,
            submission,
            timestamp,
        ),
        Action::IssueAethelDefault { attestation_id, attestation, call } => record_default(
            state,
            &attestation_id,
            &attestation,
            call,
            submission,
            timestamp,
        ),
        Action::IssueAethelGuaranteeClaim { request, submitted, answer, call } => claim_guarantee(
            state,
            &request,
            &submitted,
            answer,
            call,
            submission,
            timestamp,
        ),
        Action::IssueDeccpClearingBook { request, opened } => open_clearing_book(
            state,
            &request,
            opened,
            submission,
            timestamp,
        ),
        Action::IssueDeccpMember {
            request,
            statement,
            parsed,
            presentation,
            admitted,
        } => admit_member(
            state,
            &request,
            &statement,
            &parsed,
            &presentation,
            admitted,
            submission,
            timestamp,
        ),
        Action::IssueDeccpGuaranteeFacility {
            operation_id,
            facility,
            statement,
            parsed,
            registered,
        } => register_guarantee_facility(
            state,
            operation_id,
            &facility,
            statement,
            &parsed,
            registered,
            submission,
            timestamp,
        ),
        Action::IssueApplicationReserveScope { registration } => register_scope(
            state,
            &registration,
            submission,
        ),
        Action::IssueApplicationNoteReservation { request } => reserve_application(
            state,
            &request,
            submission,
            timestamp,
        ),
        Action::IssueApplicationNoteFill { order } => fill(
            state,
            &order,
            submission.before_root,
            timestamp,
        ),
        Action::IssueApplicationNoteFillBatch { batch } => fill_batch(
            state,
            &batch,
            submission.before_root,
            timestamp,
        ),
        Action::IssueApplicationNoteRelease { order } => release(
            state,
            &order,
            submission.before_root,
            timestamp,
        ),
    }
}

/// What a transaction does that is taken back where it is refused on the way. One
/// that is carried out is counted.
pub open spec fn applied_outcome(
    ledger: Ledger,
    action: Action,
    submission: Submission,
    timestamp: u64,
) -> Outcome {
    let outcome = action_outcome(ledger, action, submission, timestamp);
    match outcome.result {
        Ok(statement) => if ledger.transition_count == u64::MAX {
            refused(ledger, "transition count overflow"@)
        } else {
            accepted(
                Ledger {
                    transition_count: (ledger.transition_count + 1) as u64,
                    ..outcome.ledger
                },
                statement,
            )
        },
        Err(message) => refused(ledger, message),
    }
}

impl State {
    /// Carries out a transaction and counts it, or leaves the state as it was.
    pub fn apply(&mut self, action: Action, submission: &Submission, timestamp: u64) -> (r: Result<
        Id,
        String,
    >)
        ensures
            meets(r, final(self)@, applied_outcome(old(self)@, action, *submission, timestamp)),
    {
        let mut candidate = self.share();
        let statement = execute(&mut candidate, action, submission, timestamp)?;
        if self.transition_count == u64::MAX {
            return refuse("transition count overflow");
        }
        candidate.transition_count = self.transition_count + 1;
        *self = candidate;
        Ok(statement)
    }
}

} // verus!
