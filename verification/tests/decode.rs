use base64::engine::general_purpose::STANDARD;
use base64::Engine;
use curve25519_dalek::constants::RISTRETTO_BASEPOINT_POINT as G;
use curve25519_dalek::scalar::Scalar;
use qomm_avalanche_vm::decode::credit::{
    credit_control_from_dto, credit_transition_from_dto, CreditControlDto, CreditTransitionDto,
};
use qomm_avalanche_vm::decode::kinds::{
    read_asset_kind, read_credit_amendment_mode, read_csd_issuer_control_kind,
    read_guarantor_kind, read_note_claim_kind, read_reservation_role,
};
use qomm_avalanche_vm::decode::notes::{
    note_output_from_dto, note_spend_from_dto, opening_envelope_from_dto, NoteOutputDto,
    NoteSpendDto, OpeningEnvelopeDto, OpeningShareDto,
};
use qomm_avalanche_vm::decode::product::{
    product_batch_from_dto, product_settlement_evidence_from_dto, read_evidence_bundle,
    settlement_from_dto, ProductSettlementBatchDto, ProductSettlementBatchMemberDto,
    ProductSettlementEvidenceDto, SettlementDto, StateLegDto,
};
use qomm_avalanche_vm::decode::registry::{
    admission_batch_from_dto, asset_from_dto, settlement_verifier_from_dto, AdmissionBatchDto,
    AssetDto, SettlementVerifierDto,
};
use qomm_avalanche_vm::endorsement::{decode_approval, ApprovalDto, NodeApprovalDto, Seal};
use qomm_avalanche_vm::id::Id;
use qomm_avalanche_vm::order::{
    CreditAmendmentMode, CreditControlAction, CreditTransitionKind, CsdIssuerControlKind,
};
use qomm_avalanche_vm::state::{AssetKind, GuarantorKind, NoteClaimKind, ReservationRole};

fn hexed(byte: u8) -> String {
    hex::encode([byte; 32])
}

fn id(byte: u8) -> Id {
    Id([byte; 32])
}

fn seal() -> Seal {
    Seal {
        body: Ok(()),
        statement: Ok(id(9)),
    }
}

fn point(scalar: u64) -> String {
    hex::encode((G * Scalar::from(scalar)).compress().to_bytes())
}

fn transition() -> CreditTransitionDto {
    CreditTransitionDto {
        operation_id: hexed(1),
        facility_id: hexed(2),
        hold_id: hexed(3),
        kind: "consume".into(),
        query_commitment: hexed(4),
        amount_commitment: hexed(5),
        consumed_commitment: hexed(6),
        refund_commitment: hexed(7),
        before_available_commitment: hexed(8),
        after_available_commitment: hexed(9),
        before_held_commitment: hexed(10),
        after_held_commitment: hexed(11),
        before_outstanding_commitment: hexed(12),
        after_outstanding_commitment: hexed(13),
        before_sequence: 14,
        expires_at: 15,
        settlement_digest: hexed(16),
        relation_proof_digest: hexed(17),
    }
}

fn note() -> NoteOutputDto {
    NoteOutputDto {
        note_id: hexed(1),
        asset_id: hexed(2),
        one_time: hexed(3),
        value_commitment: hexed(4),
        ephemeral: hexed(5),
        masked_value: hexed(6),
        masked_blinding: hexed(7),
        lock_id: hexed(0),
        shape: Ok(()),
    }
}

fn envelope() -> OpeningEnvelopeDto {
    OpeningEnvelopeDto {
        context: hexed(1),
        threshold: 1,
        recipient_view: point(2),
        shares: vec![OpeningShareDto {
            party: 1,
            ephemeral: point(3),
            masked_value: hexed(0),
            masked_blinding: hexed(1),
        }],
        shape: Ok(()),
        recorded: Ok(()),
    }
}

fn evidence() -> ProductSettlementEvidenceDto {
    ProductSettlementEvidenceDto {
        typed_instruction: STANDARD.encode([1, 2]),
        quote_verification: STANDARD.encode([3]),
        price_limit_proof: STANDARD.encode([4]),
        dvp_proofs: STANDARD.encode([5]),
        mpc_execution_attestations: STANDARD.encode([6]),
        announcement: point(7),
        response: hexed(1),
        shape: Ok(()),
    }
}

#[test]
fn transitions_are_read_field_by_field() {
    let value = credit_transition_from_dto(&transition(), "transition").unwrap();
    assert_eq!(value.operation_id, id(1));
    assert_eq!(value.kind, CreditTransitionKind::Consume);
    assert_eq!(value.after_outstanding_commitment, id(13));
    assert_eq!(value.before_sequence, 14);
    assert_eq!(value.expires_at, 15);
    assert_eq!(value.relation_proof_digest, id(17));
    let mut bad = transition();
    bad.kind = "borrow".into();
    bad.refund_commitment = "00".into();
    assert_eq!(
        credit_transition_from_dto(&bad, "transition").unwrap_err(),
        "transition.kind is not supported"
    );
    bad.kind = "release".into();
    assert_eq!(
        credit_transition_from_dto(&bad, "order.transition").unwrap_err(),
        "order.transition.refundCommitment has 1 bytes; expected 32"
    );
}

#[test]
fn controls_carry_a_full_signature() {
    let dto = |signature: String| CreditControlDto {
        operation_id: hexed(1),
        facility_id: hexed(2),
        action: "freeze".into(),
        before_sequence: 3,
        effective_at: 4,
        reason_digest: hexed(5),
        guarantor_signature: signature,
        guarantor_message: Ok(vec![6]),
        seal: seal(),
    };
    let value = credit_control_from_dto(&dto(hex::encode([7; 64]))).unwrap();
    assert_eq!(value.action, CreditControlAction::Freeze);
    assert_eq!(value.guarantor_signature, [7; 64]);
    assert_eq!(value.guarantor_message, Ok(vec![6]));
    assert_eq!(
        credit_control_from_dto(&dto(hexed(7))).unwrap_err(),
        "control.guarantorSignature has 32 bytes; expected 64"
    );
}

#[test]
fn names_stand_for_kinds() {
    assert_eq!(read_asset_kind("carbon", "x"), Ok(AssetKind::Carbon));
    assert_eq!(
        read_asset_kind("Cash", "asset.kind"),
        Err("asset.kind is not supported".to_string())
    );
    assert_eq!(
        read_guarantor_kind("self", "x"),
        Ok(GuarantorKind::SelfGuaranteed)
    );
    assert_eq!(
        read_csd_issuer_control_kind("revoke", "x"),
        Ok(CsdIssuerControlKind::Revoke)
    );
    assert_eq!(
        read_note_claim_kind("refund", "x"),
        Ok(NoteClaimKind::Refund)
    );
    assert_eq!(
        read_reservation_role("taker", "x"),
        Ok(ReservationRole::Taker)
    );
    assert_eq!(
        read_credit_amendment_mode("over_limit", "x"),
        Ok(CreditAmendmentMode::OverLimit)
    );
}

#[test]
fn assets_are_read_with_their_seal() {
    let mut dto = AssetDto {
        asset_id: hexed(1),
        code: "JPY".into(),
        kind: "cash".into(),
        decimals: 2,
        terms_digest: hexed(3),
        seal: seal(),
    };
    let value = asset_from_dto(&dto).unwrap();
    assert_eq!(value.asset_id, id(1));
    assert_eq!(value.code, "JPY");
    assert_eq!(value.kind, AssetKind::Cash);
    assert_eq!(value.decimals, 2);
    dto.seal.body = Err("asset code is empty".into());
    assert_eq!(asset_from_dto(&dto).unwrap_err(), "asset code is empty");
    dto.terms_digest = "nothex".into();
    assert_eq!(
        asset_from_dto(&dto).unwrap_err(),
        "asset.termsDigest is not hexadecimal"
    );
}

#[test]
fn lists_have_limits() {
    let mut dto = AdmissionBatchDto {
        operation_id: hexed(1),
        batch_id: hexed(2),
        venue_id: hexed(3),
        epoch: 4,
        slot: 5,
        batch_digest: hexed(6),
        order_digest: hexed(7),
        admission_digests: vec![hexed(8), hexed(9)],
        expires_at: 10,
        seal: seal(),
    };
    let value = admission_batch_from_dto(&dto).unwrap();
    assert_eq!(value.admission_digests, vec![id(8), id(9)]);
    dto.admission_digests[1] = "zz".into();
    assert_eq!(
        admission_batch_from_dto(&dto).unwrap_err(),
        "plan.admissionDigests is not hexadecimal"
    );
    dto.admission_digests = vec![hexed(8); 4097];
    assert_eq!(
        admission_batch_from_dto(&dto).unwrap_err(),
        "admission batch contains too many lanes"
    );
}

#[test]
fn verifiers_carry_a_base64_package() {
    let mut dto = SettlementVerifierDto {
        venue_id: hexed(1),
        defmi_id: hexed(2),
        epoch: 3,
        quote_registry_digest: hexed(4),
        quote_eligibility_bits: 16,
        quote_span_bits: 24,
        amount_bits: 16,
        price_bits: 32,
        max_horizon: 3_600,
        frost_public_package: STANDARD.encode([1, 2, 3, 4]),
        valid_from: 1,
        valid_until: 1_000,
        key: id(5),
        statement: Ok(id(6)),
    };
    let value = settlement_verifier_from_dto(&dto).unwrap();
    assert_eq!(value.frost_public_package, vec![1, 2, 3, 4]);
    assert_eq!(value.key, id(5));
    dto.frost_public_package = "%".into();
    assert!(settlement_verifier_from_dto(&dto)
        .unwrap_err()
        .contains("config.frostPublicPackage"));
}

#[test]
fn spends_name_the_output_that_is_wrong() {
    let mut dto = NoteSpendDto {
        asset_id: hexed(1),
        ring: vec![hexed(2), hexed(3)],
        ring_root: hexed(4),
        serial_point: hexed(5),
        input_lock_id: hexed(0),
        proof_digest: hexed(6),
        outputs: vec![note(), note()],
        shape: Ok(()),
    };
    let value = note_spend_from_dto(&dto, "spend").unwrap();
    assert_eq!(value.ring, vec![id(2), id(3)]);
    assert_eq!(value.outputs[1].ephemeral, id(5));
    assert_eq!(
        note_output_from_dto(&note(), "output").unwrap().note_id,
        id(1)
    );
    dto.outputs[1].one_time = "00".into();
    let message = note_spend_from_dto(&dto, "spend").unwrap_err();
    assert!(message.contains("oneTime has 1 bytes; expected 32"));
}

#[test]
fn openings_hold_canonical_points_and_scalars() {
    let value = opening_envelope_from_dto(&envelope(), "claim.openingEnvelope").unwrap();
    assert_eq!(value.threshold, 1);
    assert_eq!(value.shares[0].masked_blinding, id(1));
    let mut bad = envelope();
    bad.recipient_view = hexed(255);
    assert_eq!(
        opening_envelope_from_dto(&bad, "envelope").unwrap_err(),
        "envelope.recipientView is not a canonical Ristretto point"
    );
    let mut bad = envelope();
    bad.shares[0].masked_value = hexed(255);
    assert_eq!(
        opening_envelope_from_dto(&bad, "envelope").unwrap_err(),
        "envelope.shares[0].maskedValue is not a canonical scalar"
    );
}

#[test]
fn settlements_name_the_leg_that_is_wrong() {
    let leg = |handle: String| StateLegDto {
        handle,
        asset_id: hexed(1),
        before_commitment: hexed(2),
        after_commitment: hexed(3),
        before_sequence: 4,
    };
    let mut dto = SettlementDto {
        operation_id: hexed(1),
        nullifier: hexed(2),
        deadline: 3,
        payment_instruction_digest: hexed(4),
        proof_digest: hexed(5),
        market_statement_digest: hexed(6),
        legs: vec![leg(hexed(7)), leg(hexed(8))],
        seal: seal(),
    };
    let value = settlement_from_dto(&dto, "order").unwrap();
    assert_eq!(value.legs[1].handle, id(8));
    assert_eq!(value.deadline, 3);
    dto.legs[1].handle = "x".into();
    assert!(settlement_from_dto(&dto, "order")
        .unwrap_err()
        .ends_with("handle is not hexadecimal"));
}

#[test]
fn batches_have_limits() {
    let batch = |count: usize| ProductSettlementBatchDto {
        batch_id: hexed(1),
        venue_id: hexed(2),
        defmi_id: hexed(3),
        admission_epoch: 4,
        members: (0..count)
            .map(|index| ProductSettlementBatchMemberDto {
                admission_sequence: index as u64 + 1,
                settlement_statement: hexed(5),
            })
            .collect(),
        seal: seal(),
    };
    let value = product_batch_from_dto(&batch(2)).unwrap();
    assert_eq!(value.members[1].admission_sequence, 2);
    assert_eq!(value.members[1].settlement_statement, id(5));
    assert_eq!(
        product_batch_from_dto(&batch(100_000)).unwrap_err(),
        "batch contains too many settlement members"
    );
}

#[test]
fn evidence_is_decoded_from_base64() {
    let value = product_settlement_evidence_from_dto(&evidence(), "evidence").unwrap();
    assert_eq!(value.typed_instruction, vec![1, 2]);
    assert_eq!(value.mpc_execution_attestations, vec![6]);
    assert_eq!(value.response, id(1));
    let mut bad = evidence();
    bad.response = hexed(255);
    assert_eq!(
        product_settlement_evidence_from_dto(&bad, "evidence").unwrap_err(),
        "evidence.assetLink.response is not canonical"
    );
    assert_eq!(
        read_evidence_bundle(&vec![evidence()], 2).unwrap_err(),
        "anonymous batch must carry one complete proof bundle per order"
    );
    let mut second = evidence();
    second.announcement = hexed(255);
    assert_eq!(
        read_evidence_bundle(&vec![evidence(), second], 2).unwrap_err(),
        "evidence[1].assetLink.announcement is not canonical"
    );
    assert_eq!(read_evidence_bundle(&vec![evidence()], 1).unwrap().len(), 1);
}

#[test]
fn approvals_are_decoded_with_their_signatures() {
    let dto = ApprovalDto {
        statement: hexed(1),
        signer_epoch: 2,
        domain: "test-chain".into(),
        before_root: hexed(3),
        approvals: vec![NodeApprovalDto {
            node_id: "node-0".into(),
            signature: hex::encode([4; 64]),
        }],
    };
    let approval = decode_approval(&dto).unwrap();
    assert_eq!(approval.statement, id(1));
    assert_eq!(approval.signer_epoch, 2);
    assert_eq!(approval.domain, "test-chain");
    assert_eq!(approval.before_root, id(3));
    assert_eq!(approval.approvals[0].node_id, "node-0");
    assert_eq!(approval.approvals[0].signature, [4; 64]);
}
