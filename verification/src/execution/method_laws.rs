//! The names of the transactions and of what they carry.

use vstd::prelude::*;

use crate::execution::{method_of, Method};
use crate::json::{has_key, keys_refusal};

verus! {

/// The name that a transaction goes by.
pub open spec fn method_name(method: Method) -> Seq<char> {
    match method {
        Method::IssueAsset => "defmivm.issueAsset"@,
        Method::IssueCsdIssuer => "defmivm.issueCSDIssuer"@,
        Method::IssueCsdIssuerControl => "defmivm.issueCSDIssuerControl"@,
        Method::IssueNote => "defmivm.issueNote"@,
        Method::IssueNoteClaimMaterialization => "defmivm.issueNoteClaimMaterialization"@,
        Method::IssueNoteSettlement => "defmivm.issueNoteSettlement"@,
        Method::IssueAdmissionCommittee => "defmivm.issueAdmissionCommittee"@,
        Method::IssueSettlementVerifier => "defmivm.issueSettlementVerifier"@,
        Method::IssueAdmissionBatch => "defmivm.issueAdmissionBatch"@,
        Method::IssueAdmissionAdvance => "defmivm.issueAdmissionAdvance"@,
        Method::IssueProductReservation => "defmivm.issueProductReservation"@,
        Method::IssueNoteProductReservation => "defmivm.issueNoteProductReservation"@,
        Method::IssueProductRelease => "defmivm.issueProductRelease"@,
        Method::IssueNoteProductRelease => "defmivm.issueNoteProductRelease"@,
        Method::IssueProductSettlement => "defmivm.issueProductSettlement"@,
        Method::IssueProductSettlementBatch => "defmivm.issueProductSettlementBatch"@,
        Method::IssueNoteProductSettlement => "defmivm.issueNoteProductSettlement"@,
        Method::IssueNoteProductSettlementBatch => "defmivm.issueNoteProductSettlementBatch"@,
        Method::IssueAccount => "defmivm.issueAccount"@,
        Method::IssueGuarantor => "defmivm.issueGuarantor"@,
        Method::IssueCreditGrant => "defmivm.issueCreditGrant"@,
        Method::IssueCreditTransition => "defmivm.issueCreditTransition"@,
        Method::IssueCreditControl => "defmivm.issueCreditControl"@,
        Method::IssueCreditAmendment => "defmivm.issueCreditAmendment"@,
        Method::IssueSettlement => "defmivm.issueSettlement"@,
        Method::IssueAethelProvider => "defmivm.issueAethelProvider"@,
        Method::IssueAethelStream => "defmivm.issueAethelStream"@,
        Method::IssueAethelStreamTransition => "defmivm.issueAethelStreamTransition"@,
        Method::IssueAethelSeries => "defmivm.issueAethelSeries"@,
        Method::IssueAethelCreditDecision => "defmivm.issueAethelCreditDecision"@,
        Method::IssueAethelGuarantee => "defmivm.issueAethelGuarantee"@,
        Method::IssueAethelGuaranteeRelease => "defmivm.issueAethelGuaranteeRelease"@,
        Method::IssueAethelProviderKeyRotation => "defmivm.issueAethelProviderKeyRotation"@,
        Method::IssueAethelProviderStatus => "defmivm.issueAethelProviderStatus"@,
        Method::IssueAethelCredentialIssuer => "defmivm.issueAethelCredentialIssuer"@,
        Method::IssueAethelCredentialStatus => "defmivm.issueAethelCredentialStatus"@,
        Method::IssueAethelFundingQuote => "defmivm.issueAethelFundingQuote"@,
        Method::IssueAethelReceivable => "defmivm.issueAethelReceivable"@,
        Method::IssueAethelDefault => "defmivm.issueAethelDefault"@,
        Method::IssueAethelGuaranteeClaim => "defmivm.issueAethelGuaranteeClaim"@,
        Method::IssueDeccpClearingBook => "defmivm.issueDeccpClearingBook"@,
        Method::IssueDeccpMember => "defmivm.issueDeccpMember"@,
        Method::IssueDeccpGuaranteeFacility => "defmivm.issueDeccpGuaranteeFacility"@,
        Method::IssueApplicationReserveScope => "defmivm.issueApplicationReserveScope"@,
        Method::IssueApplicationNoteReservation => "defmivm.issueApplicationNoteReservation"@,
        Method::IssueApplicationNoteFill => "defmivm.issueApplicationNoteFill"@,
        Method::IssueApplicationNoteFillBatch => "defmivm.issueApplicationNoteFillBatch"@,
        Method::IssueApplicationNoteRelease => "defmivm.issueApplicationNoteRelease"@,
    }
}

/// Every transaction is known by its name.
#[verifier::rlimit(60)]
pub proof fn law_a_transaction_is_known_by_its_name(method: Method)
    ensures
        method_of(method_name(method)) == Some(method),
{
    reveal_strlit("defmivm.issueAsset");
    reveal_strlit("defmivm.issueCSDIssuer");
    reveal_strlit("defmivm.issueCSDIssuerControl");
    reveal_strlit("defmivm.issueNote");
    reveal_strlit("defmivm.issueNoteClaimMaterialization");
    reveal_strlit("defmivm.issueNoteSettlement");
    reveal_strlit("defmivm.issueAdmissionCommittee");
    reveal_strlit("defmivm.issueSettlementVerifier");
    reveal_strlit("defmivm.issueAdmissionBatch");
    reveal_strlit("defmivm.issueAdmissionAdvance");
    reveal_strlit("defmivm.issueProductReservation");
    reveal_strlit("defmivm.issueNoteProductReservation");
    reveal_strlit("defmivm.issueProductRelease");
    reveal_strlit("defmivm.issueNoteProductRelease");
    reveal_strlit("defmivm.issueProductSettlement");
    reveal_strlit("defmivm.issueProductSettlementBatch");
    reveal_strlit("defmivm.issueNoteProductSettlement");
    reveal_strlit("defmivm.issueNoteProductSettlementBatch");
    reveal_strlit("defmivm.issueAccount");
    reveal_strlit("defmivm.issueGuarantor");
    reveal_strlit("defmivm.issueCreditGrant");
    reveal_strlit("defmivm.issueCreditTransition");
    reveal_strlit("defmivm.issueCreditControl");
    reveal_strlit("defmivm.issueCreditAmendment");
    reveal_strlit("defmivm.issueSettlement");
    reveal_strlit("defmivm.issueAethelProvider");
    reveal_strlit("defmivm.issueAethelStream");
    reveal_strlit("defmivm.issueAethelStreamTransition");
    reveal_strlit("defmivm.issueAethelSeries");
    reveal_strlit("defmivm.issueAethelCreditDecision");
    reveal_strlit("defmivm.issueAethelGuarantee");
    reveal_strlit("defmivm.issueAethelGuaranteeRelease");
    reveal_strlit("defmivm.issueAethelProviderKeyRotation");
    reveal_strlit("defmivm.issueAethelProviderStatus");
    reveal_strlit("defmivm.issueAethelCredentialIssuer");
    reveal_strlit("defmivm.issueAethelCredentialStatus");
    reveal_strlit("defmivm.issueAethelFundingQuote");
    reveal_strlit("defmivm.issueAethelReceivable");
    reveal_strlit("defmivm.issueAethelDefault");
    reveal_strlit("defmivm.issueAethelGuaranteeClaim");
    reveal_strlit("defmivm.issueDeccpClearingBook");
    reveal_strlit("defmivm.issueDeccpMember");
    reveal_strlit("defmivm.issueDeccpGuaranteeFacility");
    reveal_strlit("defmivm.issueApplicationReserveScope");
    reveal_strlit("defmivm.issueApplicationNoteReservation");
    reveal_strlit("defmivm.issueApplicationNoteFill");
    reveal_strlit("defmivm.issueApplicationNoteFillBatch");
    reveal_strlit("defmivm.issueApplicationNoteRelease");
    assert("defmivm.issueNote"@.len() == 17);
    assert("defmivm.issueAsset"@.len() == 18);
    assert("defmivm.issueAccount"@.len() == 20);
    assert("defmivm.issueCSDIssuer"@.len() == 22);
    assert("defmivm.issueGuarantor"@.len() == 22);
    assert("defmivm.issueCSDIssuer"@[13] == 'C');
    assert("defmivm.issueGuarantor"@[13] == 'G');
    assert("defmivm.issueSettlement"@.len() == 23);
    assert("defmivm.issueCreditGrant"@.len() == 24);
    assert("defmivm.issueDeccpMember"@.len() == 24);
    assert("defmivm.issueCreditGrant"@[13] == 'C');
    assert("defmivm.issueDeccpMember"@[13] == 'D');
    assert("defmivm.issueAethelStream"@.len() == 25);
    assert("defmivm.issueAethelSeries"@.len() == 25);
    assert("defmivm.issueAethelStream"@[20] == 't');
    assert("defmivm.issueAethelSeries"@[20] == 'e');
    assert("defmivm.issueCreditControl"@.len() == 26);
    assert("defmivm.issueAethelDefault"@.len() == 26);
    assert("defmivm.issueCreditControl"@[13] == 'C');
    assert("defmivm.issueAethelDefault"@[13] == 'A');
    assert("defmivm.issueNoteSettlement"@.len() == 27);
    assert("defmivm.issueAdmissionBatch"@.len() == 27);
    assert("defmivm.issueProductRelease"@.len() == 27);
    assert("defmivm.issueAethelProvider"@.len() == 27);
    assert("defmivm.issueNoteSettlement"@[14] == 'o');
    assert("defmivm.issueAdmissionBatch"@[14] == 'd');
    assert("defmivm.issueProductRelease"@[14] == 'r');
    assert("defmivm.issueAethelProvider"@[14] == 'e');
    assert("defmivm.issueCreditAmendment"@.len() == 28);
    assert("defmivm.issueAethelGuarantee"@.len() == 28);
    assert("defmivm.issueCreditAmendment"@[13] == 'C');
    assert("defmivm.issueAethelGuarantee"@[13] == 'A');
    assert("defmivm.issueCSDIssuerControl"@.len() == 29);
    assert("defmivm.issueAdmissionAdvance"@.len() == 29);
    assert("defmivm.issueCreditTransition"@.len() == 29);
    assert("defmivm.issueAethelReceivable"@.len() == 29);
    assert("defmivm.issueCSDIssuerControl"@[14] == 'S');
    assert("defmivm.issueAdmissionAdvance"@[14] == 'd');
    assert("defmivm.issueCreditTransition"@[14] == 'r');
    assert("defmivm.issueAethelReceivable"@[14] == 'e');
    assert("defmivm.issueProductSettlement"@.len() == 30);
    assert("defmivm.issueDeccpClearingBook"@.len() == 30);
    assert("defmivm.issueProductSettlement"@[13] == 'P');
    assert("defmivm.issueDeccpClearingBook"@[13] == 'D');
    assert("defmivm.issueAdmissionCommittee"@.len() == 31);
    assert("defmivm.issueSettlementVerifier"@.len() == 31);
    assert("defmivm.issueProductReservation"@.len() == 31);
    assert("defmivm.issueNoteProductRelease"@.len() == 31);
    assert("defmivm.issueAethelFundingQuote"@.len() == 31);
    assert("defmivm.issueAdmissionCommittee"@[16] == 'i');
    assert("defmivm.issueSettlementVerifier"@[16] == 't');
    assert("defmivm.issueProductReservation"@[16] == 'd');
    assert("defmivm.issueNoteProductRelease"@[16] == 'e');
    assert("defmivm.issueAethelFundingQuote"@[16] == 'h');
    assert("defmivm.issueApplicationNoteFill"@.len() == 32);
    assert("defmivm.issueAethelCreditDecision"@.len() == 33);
    assert("defmivm.issueAethelProviderStatus"@.len() == 33);
    assert("defmivm.issueAethelGuaranteeClaim"@.len() == 33);
    assert("defmivm.issueAethelCreditDecision"@[19] == 'C');
    assert("defmivm.issueAethelProviderStatus"@[19] == 'P');
    assert("defmivm.issueAethelGuaranteeClaim"@[19] == 'G');
    assert("defmivm.issueNoteProductSettlement"@.len() == 34);
    assert("defmivm.issueNoteProductReservation"@.len() == 35);
    assert("defmivm.issueProductSettlementBatch"@.len() == 35);
    assert("defmivm.issueAethelStreamTransition"@.len() == 35);
    assert("defmivm.issueAethelGuaranteeRelease"@.len() == 35);
    assert("defmivm.issueAethelCredentialIssuer"@.len() == 35);
    assert("defmivm.issueAethelCredentialStatus"@.len() == 35);
    assert("defmivm.issueDeccpGuaranteeFacility"@.len() == 35);
    assert("defmivm.issueApplicationNoteRelease"@.len() == 35);
    assert("defmivm.issueNoteProductReservation"@[14] == 'o');
    assert("defmivm.issueNoteProductReservation"@[29] == 'v');
    assert("defmivm.issueProductSettlementBatch"@[14] == 'r');
    assert("defmivm.issueProductSettlementBatch"@[29] == 't');
    assert("defmivm.issueAethelStreamTransition"@[14] == 'e');
    assert("defmivm.issueAethelStreamTransition"@[29] == 's');
    assert("defmivm.issueAethelGuaranteeRelease"@[14] == 'e');
    assert("defmivm.issueAethelGuaranteeRelease"@[29] == 'e');
    assert("defmivm.issueAethelCredentialIssuer"@[14] == 'e');
    assert("defmivm.issueAethelCredentialIssuer"@[29] == 'I');
    assert("defmivm.issueAethelCredentialStatus"@[14] == 'e');
    assert("defmivm.issueAethelCredentialStatus"@[29] == 'S');
    assert("defmivm.issueDeccpGuaranteeFacility"@[14] == 'e');
    assert("defmivm.issueDeccpGuaranteeFacility"@[29] == 'c');
    assert("defmivm.issueApplicationNoteRelease"@[14] == 'p');
    assert("defmivm.issueApplicationNoteRelease"@[29] == 'e');
    assert("defmivm.issueApplicationReserveScope"@.len() == 36);
    assert("defmivm.issueNoteClaimMaterialization"@.len() == 37);
    assert("defmivm.issueApplicationNoteFillBatch"@.len() == 37);
    assert("defmivm.issueNoteClaimMaterialization"@[13] == 'N');
    assert("defmivm.issueApplicationNoteFillBatch"@[13] == 'A');
    assert("defmivm.issueAethelProviderKeyRotation"@.len() == 38);
    assert("defmivm.issueNoteProductSettlementBatch"@.len() == 39);
    assert("defmivm.issueApplicationNoteReservation"@.len() == 39);
    assert("defmivm.issueNoteProductSettlementBatch"@[13] == 'N');
    assert("defmivm.issueApplicationNoteReservation"@[13] == 'A');
}

/// Whether the parameters of a transaction have a name among them.
pub open spec fn carries(method: Method, name: Seq<char>) -> bool {
    exists|i: int|
        0 <= i < method.field_names().len() && (#[trigger] method.field_names()[i])@ == name
}

/// Each transaction carries its own parameters and no others: one of them, or two or
/// three where it has lanes, orders, evidence, an instruction or approvals beside it,
/// and five for an application reservation.
pub proof fn law_what_a_transaction_carries(method: Method)
    ensures
        method.field_names().len() == match method {
            Method::IssueAdmissionBatch
            | Method::IssueProductSettlementBatch
            | Method::IssueNoteProductSettlement
            | Method::IssueAethelReceivable
            | Method::IssueAethelGuaranteeClaim
            | Method::IssueDeccpGuaranteeFacility => 2int,
            Method::IssueProductReservation
            | Method::IssueNoteProductReservation
            | Method::IssueNoteProductSettlementBatch
            | Method::IssueDeccpMember => 3int,
            Method::IssueApplicationNoteReservation => 5int,
            _ => 1,
        },
        match method {
            Method::IssueAsset => carries(method, "asset"@),
            Method::IssueCsdIssuer => carries(method, "issuer"@),
            Method::IssueCsdIssuerControl
            | Method::IssueCreditControl => carries(method, "control"@),
            Method::IssueNote => carries(method, "issuance"@),
            Method::IssueNoteClaimMaterialization => carries(method, "materialization"@),
            Method::IssueNoteSettlement
            | Method::IssueProductRelease
            | Method::IssueNoteProductRelease
            | Method::IssueProductSettlement
            | Method::IssueSettlement => carries(method, "order"@),
            Method::IssueAdmissionCommittee => carries(method, "plan"@),
            Method::IssueSettlementVerifier => carries(method, "config"@),
            Method::IssueAdmissionBatch => {
                &&& carries(method, "plan"@)
                &&& carries(method, "admissionLanes"@)
            },
            Method::IssueAdmissionAdvance => carries(method, "advance"@),
            Method::IssueProductReservation
            | Method::IssueNoteProductReservation => {
                &&& carries(method, "transition"@)
                &&& carries(method, "authorization"@)
                &&& carries(method, "escrow"@)
            },
            Method::IssueProductSettlementBatch => {
                &&& carries(method, "batch"@)
                &&& carries(method, "orders"@)
            },
            Method::IssueNoteProductSettlement => {
                &&& carries(method, "order"@)
                &&& carries(method, "evidence"@)
            },
            Method::IssueNoteProductSettlementBatch => {
                &&& carries(method, "batch"@)
                &&& carries(method, "orders"@)
                &&& carries(method, "evidence"@)
            },
            Method::IssueAccount => carries(method, "opening"@),
            Method::IssueGuarantor => carries(method, "guarantor"@),
            Method::IssueCreditGrant => carries(method, "grant"@),
            Method::IssueCreditTransition => carries(method, "transition"@),
            Method::IssueCreditAmendment => carries(method, "amendment"@),
            Method::IssueAethelProvider
            | Method::IssueAethelStream
            | Method::IssueAethelStreamTransition
            | Method::IssueAethelSeries
            | Method::IssueAethelCreditDecision
            | Method::IssueAethelGuarantee
            | Method::IssueAethelGuaranteeRelease
            | Method::IssueAethelProviderKeyRotation
            | Method::IssueAethelProviderStatus
            | Method::IssueAethelCredentialIssuer
            | Method::IssueAethelCredentialStatus
            | Method::IssueAethelFundingQuote
            | Method::IssueAethelDefault
            | Method::IssueDeccpClearingBook => carries(method, "request"@),
            Method::IssueAethelReceivable
            | Method::IssueAethelGuaranteeClaim => {
                &&& carries(method, "request"@)
                &&& carries(method, "zkpi"@)
            },
            Method::IssueDeccpMember => {
                &&& carries(method, "request"@)
                &&& carries(method, "subjectProof"@)
                &&& carries(method, "deccpApproval"@)
            },
            Method::IssueDeccpGuaranteeFacility => {
                &&& carries(method, "request"@)
                &&& carries(method, "deccpApproval"@)
            },
            Method::IssueApplicationReserveScope => carries(method, "scope"@),
            Method::IssueApplicationNoteReservation => {
                &&& carries(method, "binding"@)
                &&& carries(method, "transition"@)
                &&& carries(method, "escrow"@)
                &&& carries(method, "relationProof"@)
                &&& carries(method, "spendProof"@)
            },
            Method::IssueApplicationNoteFill => carries(method, "fill"@),
            Method::IssueApplicationNoteFillBatch => carries(method, "batch"@),
            Method::IssueApplicationNoteRelease => carries(method, "release"@),
        },
{
    let names = method.field_names();
    assert(names[0]@ == names[0]@);
    if names.len() > 1 {
        assert(names[1]@ == names[1]@);
    }
    if names.len() > 2 {
        assert(names[2]@ == names[2]@);
    }
    if names.len() > 3 {
        assert(names[3]@ == names[3]@);
        assert(names[4]@ == names[4]@);
    }
}

/// Parameters are taken for a list of names exactly where they are as many and hold
/// each of the names.
pub proof fn law_when_parameters_are_taken(keys: Seq<String>, expected: Seq<&str>)
    ensures
        (keys_refusal(keys, expected) is None) == {
            &&& keys.len() == expected.len()
            &&& forall|i: int|
                0 <= i < expected.len() ==> exists|j: int|
                    0 <= j < keys.len() && (#[trigger] keys[j])@ == (#[trigger] expected[i])@
        },
{
    assert forall|i: int| 0 <= i < expected.len() implies has_key(
        keys,
        (#[trigger] expected[i])@,
    ) == (exists|j: int| 0 <= j < keys.len() && (#[trigger] keys[j])@ == expected[i]@) by {}
}

/// A transaction is taken with its own parameters, its approval and its root, and a
/// certified one with its own parameters alone.
pub proof fn law_own_parameters_are_taken(method: Method, keys: Seq<String>)
    requires
        method != Method::IssueAethelCreditDecision,
        method != Method::IssueAethelGuarantee,
        forall|i: int|
            0 <= i < method.field_names().len() ==> has_key(
                keys,
                (#[trigger] method.field_names()[i])@,
            ),
        ({
            let certified = method == Method::IssueApplicationNoteFill || method
                == Method::IssueApplicationNoteFillBatch || method
                == Method::IssueApplicationNoteRelease;
            &&& certified ==> keys.len() == method.field_names().len()
            &&& !certified ==> {
                &&& keys.len() == method.field_names().len() + 2
                &&& has_key(keys, "approval"@)
                &&& has_key(keys, "expectedBeforeRoot"@)
            }
        }),
    ensures
        method.keys_refusal(keys) is None,
{
    let names = method.field_names();
    let expected = names + seq!["approval", "expectedBeforeRoot"];
    assert(expected[names.len() as int]@ == "approval"@);
    assert(expected[names.len() as int + 1]@ == "expectedBeforeRoot"@);
    assert forall|i: int| 0 <= i < names.len() implies expected[i] == #[trigger] names[i] by {}
}

/// The parameters of a transaction that is taken are as many as it carries and hold
/// each of these; unless it is certified they hold its approval and the root that it
/// was built on too. A decision or a guarantee may carry the proof of its subject.
pub proof fn law_which_parameters_are_taken(method: Method, keys: Seq<String>)
    requires
        method.keys_refusal(keys) is None,
    ensures
        forall|i: int|
            0 <= i < method.field_names().len() ==> has_key(
                keys,
                (#[trigger] method.field_names()[i])@,
            ),
        ({
            let certified = method == Method::IssueApplicationNoteFill || method
                == Method::IssueApplicationNoteFillBatch || method
                == Method::IssueApplicationNoteRelease;
            let subjects = method == Method::IssueAethelCreditDecision || method
                == Method::IssueAethelGuarantee;
            &&& !certified ==> has_key(keys, "approval"@) && has_key(keys, "expectedBeforeRoot"@)
            &&& certified ==> keys.len() == method.field_names().len()
            &&& !certified && !subjects ==> keys.len() == method.field_names().len() + 2
            &&& subjects && has_key(keys, "subjectProof"@) ==> keys.len() == 4
            &&& subjects && !has_key(keys, "subjectProof"@) ==> keys.len() == 3
        }),
{
    let names = method.field_names();
    let plain = seq!["request", "approval", "expectedBeforeRoot"];
    let proved = seq!["request", "subjectProof", "approval", "expectedBeforeRoot"];
    assert(plain[0]@ == "request"@ && plain[1]@ == "approval"@ && plain[2]@
        == "expectedBeforeRoot"@);
    assert(proved[0]@ == "request"@ && proved[1]@ == "subjectProof"@ && proved[2]@ == "approval"@
        && proved[3]@ == "expectedBeforeRoot"@);
    let expected = names + seq!["approval", "expectedBeforeRoot"];
    assert(expected[names.len() as int]@ == "approval"@);
    assert(expected[names.len() as int + 1]@ == "expectedBeforeRoot"@);
    assert forall|i: int| 0 <= i < names.len() implies has_key(keys, (#[trigger] names[i])@) by {
        assert(expected[i] == names[i]);
    }
}

} // verus!
