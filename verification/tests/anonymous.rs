use curve25519_dalek::constants::RISTRETTO_BASEPOINT_POINT as G;
use curve25519_dalek::scalar::Scalar;
use ed25519_dalek::SigningKey;
use qomm_avalanche_vm::decode::product::ProductSettlementEvidence;
use qomm_avalanche_vm::endorsement::{quorum_check, ApprovalDto, NodeApprovalDto, Seal, Submission};
use qomm_avalanche_vm::execution::evidence::{
    settlement_checks, settlement_point, verify_product_settlement_evidence, DvpFindings,
    ExecutionFindings, PriceLimitDirection, QuoteFindings, SettlementFindings, TradeDirection,
    TypedInstruction,
};
use qomm_avalanche_vm::execution::notes::insert_note;
use qomm_avalanche_vm::execution::Action;
use qomm_avalanche_vm::id::Id;
use qomm_avalanche_vm::order::{
    CertifiedAdmissionLane, CreditFacilityTransition, CreditTransitionKind,
    DelegatedNoteSettlementOrder, EscrowClaimSpend, LaneDigest, NoteClaim, NoteOutput,
    NoteProductReservation, NoteReservationEscrow, NoteSpend, ProductNoteReleaseOrder,
    ProductNoteSettlementOrder, ProductSettlementBatch, ProductSettlementBatchMember, ProductTerms,
    ReservationAuthorization, ReservationConsumption, SettlementVerifierConfig,
};
use qomm_avalanche_vm::state::{
    AdmissionBatchRecord, AdmissionCommitteeRecord, AdmissionEntryRecord, AssetKind, AssetRecord,
    CreditFacilityRecord, FacilityStatus, NoteClaimKind, OpeningEnvelope, OpeningShare,
    ReservationRole, State,
};
use qomm_avalanche_vm::table::Numbered;
use std::sync::Arc;

fn id(byte: u8) -> Id {
    Id([byte; 32])
}

fn root(state: &State) -> Id {
    Id::digest(format!("{state:?}").as_bytes())
}

fn submission(before_root: Id, expected: Id, statement: Id) -> Submission {
    let mut submitted = Submission {
        before_root,
        expected_before_root: Some(hex::encode(expected.0)),
        approval: Ok(ApprovalDto {
            statement: hex::encode(statement.0),
            signer_epoch: 1,
            domain: "test-chain".into(),
            before_root: hex::encode(expected.0),
            approvals: vec![
                NodeApprovalDto {
                    node_id: "node-0".into(),
                    signature: "22".repeat(64),
                },
                NodeApprovalDto {
                    node_id: "node-1".into(),
                    signature: "33".repeat(64),
                },
            ],
        }),
        quorum: None,
    };
    submitted.quorum = quorum_check(statement, &submitted).ok();
    submitted
}

fn approved(state: &State, statement: Id) -> Submission {
    submission(root(state), root(state), statement)
}

fn seal(byte: u8) -> Seal {
    Seal {
        body: Ok(()),
        statement: Ok(id(byte)),
    }
}

const ZERO: Id = Id([0; 32]);

const SECURITY: Id = Id([101; 32]);

const CASH: Id = Id([102; 32]);

const MAKER_HOLD: Id = Id([109; 32]);

const TAKER_HOLD: Id = Id([110; 32]);

const VENUE: Id = Id([111; 32]);

const LANE: Id = Id([132; 32]);

const CLUSTER: Id = Id([120; 32]);

const VERIFIER: Id = Id([99; 32]);

const CONTEXT: Id = Id([98; 32]);

fn act(state: &mut State, action: Action, timestamp: u64) -> Result<Id, String> {
    let submitted = approved(state, action.statement().unwrap_or(Id::zero()));
    state.apply(action, &submitted, timestamp)
}

fn point(scalar: u64) -> Id {
    Id((G * Scalar::from(scalar)).compress().to_bytes())
}

fn note_id(seed: u64) -> Id {
    Id::digest(&[seed as u8])
}

fn note(asset_id: Id, seed: u64, value_commitment: Id, lock_id: Id) -> NoteOutput {
    NoteOutput {
        note_id: note_id(seed),
        asset_id,
        one_time: point(seed * 3 + 1),
        value_commitment,
        ephemeral: point(seed * 3 + 2),
        masked_value: Id(Scalar::from(seed * 3 + 3).to_bytes()),
        masked_blinding: Id(Scalar::from(seed * 3 + 4).to_bytes()),
        lock_id,
        shape: Ok(()),
    }
}

fn spend(
    asset_id: Id,
    ring: [u64; 2],
    serial: u64,
    input_lock_id: Id,
    output: NoteOutput,
) -> NoteSpend {
    NoteSpend {
        asset_id,
        ring: vec![note_id(ring[0]), note_id(ring[1])],
        ring_root: id(97),
        serial_point: point(serial),
        input_lock_id,
        proof_digest: id(123),
        outputs: vec![output],
        shape: Ok(()),
    }
}

fn market() -> State {
    let mut state = State::new();
    act(
        &mut state,
        Action::IssueSettlementVerifier {
            config: SettlementVerifierConfig {
                venue_id: VENUE,
                defmi_id: id(112),
                epoch: 1,
                quote_registry_digest: id(96),
                quote_eligibility_bits: 16,
                quote_span_bits: 24,
                amount_bits: 16,
                price_bits: 32,
                max_horizon: 3_600,
                frost_public_package: vec![1],
                valid_from: 1,
                valid_until: 1_000,
                key: VERIFIER,
                statement: Ok(id(95)),
            },
        },
        100,
    )
    .expect("register settlement verifier");
    state.admission_committees.insert(
        Numbered {
            scope: VENUE,
            number: 1,
        },
        AdmissionCommitteeRecord {
            venue_id: VENUE,
            epoch: 1,
            node_keys: (0u8..7)
                .map(|node| {
                    Id(SigningKey::from_bytes(&[151 + node; 32])
                        .verifying_key()
                        .to_bytes())
                })
                .collect(),
            valid_from: 1,
            valid_until: 1_000,
            statement: id(150),
        },
    );
    for (asset_id, code, kind, terms) in [
        (SECURITY, "SEC", AssetKind::Security, id(113)),
        (CASH, "JPY", AssetKind::Cash, id(114)),
    ] {
        state.assets.insert(
            asset_id,
            AssetRecord {
                code: code.into(),
                kind,
                decimals: 0,
                terms_digest: terms,
                active: true,
            },
        );
    }
    for (facility_id, beneficiary, rail_asset_id, available) in [
        (id(103), id(105), SECURITY, id(107)),
        (id(104), id(106), CASH, id(108)),
    ] {
        state.credit_facilities.insert(
            facility_id,
            CreditFacilityRecord {
                guarantor_id: id(115),
                beneficiary_commitment: beneficiary,
                rail_asset_id,
                cap_commitment: available,
                available_commitment: available,
                held_commitment: ZERO,
                outstanding_commitment: ZERO,
                overlimit_commitment: ZERO,
                collateral_commitment: id(116),
                risk_policy_digest: id(117),
                valid_from: 1,
                valid_until: 1_000,
                status: FacilityStatus::Active,
                sequence: 0,
            },
        );
    }
    for (asset_id, seed) in [(SECURITY, 10), (SECURITY, 11), (CASH, 12), (CASH, 13)] {
        insert_note(&mut state, &note(asset_id, seed, point(seed), ZERO))
            .expect("seed spendable note");
    }
    state
}

fn maker() -> NoteProductReservation {
    NoteProductReservation {
        transition: CreditFacilityTransition {
            operation_id: id(119),
            facility_id: id(103),
            hold_id: MAKER_HOLD,
            kind: CreditTransitionKind::Hold,
            query_commitment: id(94),
            amount_commitment: point(20),
            consumed_commitment: ZERO,
            refund_commitment: ZERO,
            before_available_commitment: id(107),
            after_available_commitment: id(118),
            before_held_commitment: ZERO,
            after_held_commitment: point(20),
            before_outstanding_commitment: ZERO,
            after_outstanding_commitment: ZERO,
            before_sequence: 0,
            expires_at: 500,
            settlement_digest: ZERO,
            relation_proof_digest: id(121),
        },
        authorization: ReservationAuthorization {
            role: ReservationRole::Maker,
            entity_commitment: id(105),
            asset_id: SECURITY,
            direction: 1,
            authorization_digest: id(94),
            mandate_digest: id(125),
            typed_reserve_digest: id(126),
            reserve_nullifier: id(127),
            asset_link_proof_digest: id(128),
            limit_price_commitment: ZERO,
            escrow_digest: id(93),
            rfq_nullifier: ZERO,
            policy_version: 1,
            admission_ticket_id: ZERO,
            admission_slot: 0,
            admission_receipt_digest: ZERO,
            admission_epoch: 0,
            admission_sequence: 0,
            admission_batch_id: ZERO,
        },
        escrow: NoteReservationEscrow {
            spend: spend(
                SECURITY,
                [10, 11],
                122,
                ZERO,
                note(SECURITY, 14, point(20), MAKER_HOLD),
            ),
            escrow_note_id: note_id(14),
            delegation_digest: id(124),
        },
        transition_body: Ok(()),
        authorization_body: Ok(()),
        escrow_seal: seal(93),
        statement: Ok(id(92)),
        transition_statement: Ok(id(91)),
        lane_digest: Err("a maker has no lane".into()),
    }
}

fn taker() -> NoteProductReservation {
    NoteProductReservation {
        transition: CreditFacilityTransition {
            operation_id: id(136),
            facility_id: id(104),
            hold_id: TAKER_HOLD,
            kind: CreditTransitionKind::Hold,
            query_commitment: id(131),
            amount_commitment: point(70),
            consumed_commitment: ZERO,
            refund_commitment: ZERO,
            before_available_commitment: id(108),
            after_available_commitment: id(135),
            before_held_commitment: ZERO,
            after_held_commitment: point(70),
            before_outstanding_commitment: ZERO,
            after_outstanding_commitment: ZERO,
            before_sequence: 0,
            expires_at: 500,
            settlement_digest: ZERO,
            relation_proof_digest: id(137),
        },
        authorization: ReservationAuthorization {
            role: ReservationRole::Taker,
            entity_commitment: id(106),
            asset_id: CASH,
            direction: 1,
            authorization_digest: id(131),
            mandate_digest: id(131),
            typed_reserve_digest: id(142),
            reserve_nullifier: id(143),
            asset_link_proof_digest: id(144),
            limit_price_commitment: point(20),
            escrow_digest: id(90),
            rfq_nullifier: id(141),
            policy_version: 0,
            admission_ticket_id: id(130),
            admission_slot: 7,
            admission_receipt_digest: LANE,
            admission_epoch: 1,
            admission_sequence: 1,
            admission_batch_id: id(129),
        },
        escrow: NoteReservationEscrow {
            spend: spend(
                CASH,
                [12, 13],
                138,
                ZERO,
                note(CASH, 15, point(70), TAKER_HOLD),
            ),
            escrow_note_id: note_id(15),
            delegation_digest: id(140),
        },
        transition_body: Ok(()),
        authorization_body: Ok(()),
        escrow_seal: seal(90),
        statement: Ok(id(89)),
        transition_statement: Ok(id(88)),
        lane_digest: Ok(LaneDigest {
            lane: CertifiedAdmissionLane {
                slot: 7,
                sequence: 1,
                principal_digest: ZERO,
                ticket_id: id(130),
                claim_digest: id(131),
                cluster_digest: CLUSTER,
                order_digest: id(133),
            },
            venue_id: VENUE,
            epoch: 1,
            digest: LANE,
        }),
    }
}

fn reserve(state: &mut State, request: NoteProductReservation) -> Result<Id, String> {
    act(state, Action::IssueNoteProductReservation { request }, 100)
}

fn admitting(state: &mut State) {
    state.admission_batches.insert(
        id(129),
        AdmissionBatchRecord {
            venue_id: VENUE,
            epoch: 1,
            slot: 7,
            batch_digest: CLUSTER,
            order_digest: id(133),
            population: 1,
            consumed: 0,
            expires_at: 500,
            statement: id(134),
        },
    );
    state.admission_entries.insert(
        Numbered {
            scope: id(129),
            number: 1,
        },
        AdmissionEntryRecord {
            batch_id: id(129),
            sequence: 1,
            admission_digest: LANE,
            consumed_by: ZERO,
        },
    );
}

fn reserved() -> State {
    let mut state = market();
    reserve(&mut state, maker()).expect("maker anonymous reservation");
    admitting(&mut state);
    reserve(&mut state, taker()).expect("taker anonymous reservation");
    state
}

fn claim(asset_id: Id, hold_id: Id, kind: NoteClaimKind, value: u64, seed: u8) -> NoteClaim {
    NoteClaim {
        claim_id: id(seed),
        asset_id,
        value_commitment: point(value),
        recipient_commitment: id(87),
        source_hold_id: hold_id,
        kind,
        opening_record: Ok(Arc::new(OpeningEnvelope {
            context: id(seed),
            threshold: 1,
            recipient_view: point(82),
            shares: vec![OpeningShare {
                party: 1,
                ephemeral: point(83),
                masked_value: id(1),
                masked_blinding: id(2),
            }],
        })),
        shape: Ok(()),
    }
}

fn wire() -> Vec<u8> {
    b"typed instruction".to_vec()
}

fn order() -> ProductNoteSettlementOrder {
    let consume = |held: NoteProductReservation, operation: u8, consumed: u64, refund: u64| {
        CreditFacilityTransition {
            operation_id: id(operation),
            kind: CreditTransitionKind::Consume,
            consumed_commitment: point(consumed),
            refund_commitment: point(refund),
            before_available_commitment: held.transition.after_available_commitment,
            after_available_commitment: id(operation + 1),
            before_held_commitment: held.transition.after_held_commitment,
            after_held_commitment: ZERO,
            after_outstanding_commitment: point(consumed),
            before_sequence: 1,
            settlement_digest: id(85),
            relation_proof_digest: id(operation + 2),
            ..held.transition
        }
    };
    ProductNoteSettlementOrder {
        settlement: DelegatedNoteSettlementOrder {
            operation_id: id(146),
            nullifier: id(148),
            deadline: 400,
            payment_instruction_digest: Id::digest(&wire()),
            market_statement_digest: id(149),
            dvp_proof_digest: id(84),
            spends: vec![
                EscrowClaimSpend {
                    asset_id: SECURITY,
                    hold_id: MAKER_HOLD,
                    escrow_note_id: note_id(14),
                    delegation_digest: id(124),
                    proof_digest: id(84),
                    claims: vec![
                        claim(SECURITY, MAKER_HOLD, NoteClaimKind::Delivery, 6, 30),
                        claim(SECURITY, MAKER_HOLD, NoteClaimKind::Refund, 14, 31),
                    ],
                    serial: id(201),
                },
                EscrowClaimSpend {
                    asset_id: CASH,
                    hold_id: TAKER_HOLD,
                    escrow_note_id: note_id(15),
                    delegation_digest: id(140),
                    proof_digest: id(84),
                    claims: vec![
                        claim(CASH, TAKER_HOLD, NoteClaimKind::Delivery, 60, 32),
                        claim(CASH, TAKER_HOLD, NoteClaimKind::Refund, 10, 33),
                    ],
                    serial: id(202),
                },
            ],
            seal: seal(85),
        },
        terms: ProductTerms {
            venue_id: VENUE,
            defmi_id: id(112),
            maker_entity_commitment: id(105),
            taker_entity_commitment: id(106),
            rfq_nullifier: id(141),
            taker_authorization_digest: id(131),
            maker_policy_digest: id(94),
            maker_mandate_digest: id(125),
            taker_mandate_digest: id(131),
            typed_instruction_digest: Id::digest(&wire()),
            quote_proof_digest: id(83),
            price_limit_proof_digest: id(82),
            dvp_proof_digest: id(84),
            quantity_commitment: point(6),
            cash_commitment: point(60),
            traded_asset_id: SECURITY,
            asset_link_proof_digest: id(81),
            admission_receipt_digest: LANE,
            admission_epoch: 1,
            admission_sequence: 1,
        },
        reservations: vec![
            ReservationConsumption {
                role: ReservationRole::Maker,
                reserve_receipt_digest: id(92),
                transition: consume(maker(), 150, 6, 14),
                transition_statement: Ok(id(80)),
            },
            ReservationConsumption {
                role: ReservationRole::Taker,
                reserve_receipt_digest: id(89),
                transition: consume(taker(), 153, 60, 10),
                transition_statement: Ok(id(79)),
            },
        ],
        seal: seal(78),
    }
}

fn evidence() -> ProductSettlementEvidence {
    ProductSettlementEvidence {
        typed_instruction: wire(),
        quote_verification: b"quote".to_vec(),
        price_limit_proof: b"price limit".to_vec(),
        dvp_proofs: b"delivery versus payment".to_vec(),
        mpc_execution_attestations: b"execution".to_vec(),
        announcement: id(1),
        response: id(2),
    }
}

fn findings(
    state: &State,
    order: &ProductNoteSettlementOrder,
    timestamp: u64,
) -> SettlementFindings {
    let checks = match settlement_checks(state, order, &evidence(), &VERIFIER, timestamp) {
        Ok(checks) => checks,
        Err(_) => settlement_checks(&reserved(), &self::order(), &evidence(), &VERIFIER, 120)
            .unwrap(),
    };
    SettlementFindings {
        evidence: evidence(),
        checks,
        encoding: Ok(()),
        verifier_key: VERIFIER,
        typed: Ok(TypedInstruction {
            package_valid: true,
            payment: Ok(()),
            typed_digest: Ok(()),
            authorized: true,
            venue_id: VENUE,
            defmi_id: id(112),
            rfq_nullifier: id(141),
            taker_mandate_digest: id(131),
            maker_policy_digest: id(94),
            maker_mandate_digest: id(125),
            quote_proof_digest: id(83),
            market_statement_digest: id(149),
            before_state_root: root(state),
            maker_reservation_id: MAKER_HOLD,
            taker_reservation_id: TAKER_HOLD,
            maker_reservation_sequence: 1,
            taker_reservation_sequence: 1,
            maker_reserve_receipt_digest: id(92),
            taker_reserve_receipt_digest: id(89),
            direction: TradeDirection::TakerBuys,
            amount_commitment: point(6),
            payment_nullifier: id(148),
            payment_deadline: 400,
            threshold_ranges: true,
            payment_quote_digest: Some(id(83)),
        }),
        quote: Ok(QuoteFindings {
            verified: Ok(id(83)),
            eligibility_bits: 16,
            span_bits: 24,
            registry_digest: id(96),
            winning_policy_digest: Some(id(94)),
            market_digest: id(149),
            slot: 1,
            now: 100,
            direction: 0,
            qty_commitment: point(6),
            context: CONTEXT,
        }),
        execution: Ok(ExecutionFindings {
            slot: 7,
            lane: 0,
            cluster_digest: CLUSTER,
        }),
        quote_context: Ok(CONTEXT),
        price_limit: Ok(id(82)),
        dvp: Ok(DvpFindings {
            digest: id(84),
            quantity_commitment: point(6),
            cash_commitment: point(60),
            securities_remainder: point(14),
            cash_remainder: point(10),
        }),
        asset_linked: true,
        asset_link_digest: id(81),
    }
}

fn settle(state: &mut State, order: ProductNoteSettlementOrder, timestamp: u64) -> Result<Id, String> {
    let findings = findings(state, &order, timestamp);
    act(
        state,
        Action::IssueNoteProductSettlement { order, findings },
        timestamp,
    )
}

fn release() -> ProductNoteReleaseOrder {
    ProductNoteReleaseOrder {
        transition: CreditFacilityTransition {
            operation_id: id(170),
            kind: CreditTransitionKind::Release,
            before_available_commitment: id(118),
            after_available_commitment: id(107),
            before_held_commitment: point(20),
            after_held_commitment: ZERO,
            before_sequence: 1,
            relation_proof_digest: id(171),
            ..maker().transition
        },
        role: ReservationRole::Maker,
        reserve_receipt_digest: id(92),
        typed_instruction_digest: id(172),
        release_nullifier: id(173),
        release_deadline: 600,
        asset_id: SECURITY,
        asset_link_proof_digest: id(174),
        escrow_note_id: note_id(14),
        spend: spend(
            SECURITY,
            [14, 10],
            175,
            MAKER_HOLD,
            note(SECURITY, 34, point(20), ZERO),
        ),
        seal: seal(77),
    }
}

#[test]
fn anonymous_reservations_settle_without_post_quote_signatures_and_batch_safely() {
    let mut state = market();
    reserve(&mut state, maker()).expect("maker anonymous reservation");
    let maker_reserved_state = state.share();
    admitting(&mut state);
    reserve(&mut state, taker()).expect("taker anonymous reservation");
    assert_eq!(state.accounts.len(), 0);
    assert_eq!(state.admission_batches.get(&id(129)).unwrap().consumed, 1);
    for hold in [MAKER_HOLD, TAKER_HOLD] {
        assert_eq!(
            state.note_reservations.get(&hold).unwrap().status.as_str(),
            "active"
        );
    }

    let before_settlement = state.share();
    settle(&mut state, order(), 120).expect("settle anonymous product without another signature");
    assert_eq!(state.accounts.len(), 0);
    assert_eq!(state.note_claims.len(), 4);
    for hold in [MAKER_HOLD, TAKER_HOLD] {
        assert_eq!(
            state.note_reservations.get(&hold).unwrap().status.as_str(),
            "consumed"
        );
    }
    assert!(state.rfq_nullifiers.contains_key(&id(141)));
    for spend in &order().settlement.spends {
        assert!(state.note_serials.contains_key(&spend.serial));
    }

    let mut batch_state = before_settlement.share();
    let batch = ProductSettlementBatch {
        batch_id: id(159),
        venue_id: VENUE,
        defmi_id: id(112),
        admission_epoch: 1,
        members: vec![ProductSettlementBatchMember {
            admission_sequence: 1,
            settlement_statement: id(78),
        }],
        seal: seal(76),
    };
    let batch_findings = findings(&batch_state, &order(), 120);
    act(
        &mut batch_state,
        Action::IssueNoteProductSettlementBatch {
            batch,
            orders: vec![order()],
            findings: vec![batch_findings],
        },
        120,
    )
    .expect("apply anonymous settlement batch");
    assert_eq!(batch_state.note_claims, state.note_claims);
    assert!(batch_state.operations.contains_key(&id(159)));

    let mut rfq_replay = order();
    rfq_replay.settlement.operation_id = id(160);
    rfq_replay.settlement.nullifier = id(161);
    for (index, reservation) in rfq_replay.reservations.iter_mut().enumerate() {
        reservation.transition.operation_id = id(162 + index as u8);
    }
    let mut replay_findings = findings(&state, &rfq_replay, 121);
    if let Ok(typed) = &mut replay_findings.typed {
        typed.payment_nullifier = id(161);
    }
    let after_settlement = state.share();
    assert!(act(
        &mut state,
        Action::IssueNoteProductSettlement {
            order: rfq_replay,
            findings: replay_findings,
        },
        121,
    )
    .unwrap_err()
    .contains("RFQ nullifier was already settled"));
    assert_eq!(state, after_settlement);

    let mut release_state = maker_reserved_state;
    let before_early_release = release_state.share();
    assert!(act(
        &mut release_state,
        Action::IssueNoteProductRelease { order: release() },
        500,
    )
    .unwrap_err()
    .contains("not yet releasable"));
    assert_eq!(release_state, before_early_release);
    act(
        &mut release_state,
        Action::IssueNoteProductRelease { order: release() },
        501,
    )
    .expect("release expired anonymous reservation");
    assert_eq!(
        release_state
            .note_reservations
            .get(&MAKER_HOLD)
            .unwrap()
            .status
            .as_str(),
        "released"
    );
    assert_eq!(
        release_state
            .credit_holds
            .get(&MAKER_HOLD)
            .unwrap()
            .status
            .as_str(),
        "released"
    );
    assert!(release_state.notes.contains_key(&note_id(34)));
    assert_eq!(release_state.accounts.len(), 0);
}

#[test]
fn settlement_evidence_is_checked_piece_by_piece() {
    let state = reserved();
    let built_on = root(&state);
    let settled = order();
    assert_eq!(
        verify_product_settlement_evidence(
            &state,
            &findings(&state, &settled, 120),
            &settled,
            built_on,
            120,
        ),
        Ok(())
    );
    let refuses = |change: fn(&mut SettlementFindings), message: &str| {
        let mut changed = findings(&state, &settled, 120);
        change(&mut changed);
        assert_eq!(
            verify_product_settlement_evidence(&state, &changed, &settled, built_on, 120),
            Err(message.to_string())
        );
    };
    refuses(
        |found| found.price_limit = Err("price-limit proof is invalid".into()),
        "price-limit proof is invalid",
    );
    refuses(
        |found| found.price_limit = Ok(id(1)),
        "price-limit proof differs from the settled digest",
    );
    refuses(
        |found| found.dvp = Err("DvP proof is invalid".into()),
        "DvP proof is invalid",
    );
    refuses(
        |found| {
            if let Ok(dvp) = &mut found.dvp {
                dvp.cash_remainder = point(11);
            }
        },
        "DvP proof differs from the canonical reservation consumption",
    );
    refuses(
        |found| found.execution = Err("execution lane is not certified".into()),
        "execution lane is not certified",
    );
    refuses(
        |found| {
            if let Ok(execution) = &mut found.execution {
                execution.lane = 1;
            }
        },
        "signed MPC execution receipts differ from the admitted lane",
    );
    refuses(
        |found| found.quote_context = Ok(id(1)),
        "complete quote proof is not bound to the signed MPC execution receipts",
    );
    refuses(
        |found| found.verifier_key = id(1),
        "settlement has no governance-pinned verifier epoch",
    );
    refuses(
        |found| found.evidence.typed_instruction.push(0),
        "typed zkPI bytes do not match the settlement digest",
    );
    refuses(
        |found| {
            if let Ok(typed) = &mut found.typed {
                typed.authorized = false;
            }
        },
        "MPC typed zkPI authorization is invalid",
    );
    refuses(
        |found| {
            if let Ok(typed) = &mut found.typed {
                typed.before_state_root = id(1);
            }
        },
        "typed zkPI context differs from the canonical settlement",
    );
    refuses(
        |found| {
            if let Ok(quote) = &mut found.quote {
                quote.winning_policy_digest = Some(id(1));
            }
        },
        "complete quote proof winner differs from the signed Maker policy",
    );
    refuses(
        |found| {
            if let Ok(quote) = &mut found.quote {
                quote.now = 121;
            }
        },
        "complete quote proof is future-dated or stale",
    );
    refuses(
        |found| {
            if let Ok(quote) = &mut found.quote {
                quote.direction = 1;
            }
        },
        "reserved request, Quote proof and typed zkPI are inconsistent",
    );
    let mut unlinked = findings(&state, &settled, 120);
    unlinked.asset_linked = false;
    assert!(
        verify_product_settlement_evidence(&state, &unlinked, &settled, built_on, 120).is_err()
    );
}

#[test]
fn settlement_proofs_are_verified_against_the_canonical_terms() {
    let state = reserved();
    let built_on = root(&state);
    let settled = order();
    let refuses = |change: fn(&mut SettlementFindings), message: &str| {
        let mut changed = findings(&state, &settled, 120);
        change(&mut changed);
        assert_eq!(
            verify_product_settlement_evidence(&state, &changed, &settled, built_on, 120),
            Err(message.to_string())
        );
    };
    let against = "settlement proofs were verified against something else";
    refuses(|found| found.checks.timestamp = 119, against);
    refuses(|found| found.checks.frost_public_package.push(0), against);
    refuses(|found| found.checks.evidence.dvp_proofs.push(0), against);
    refuses(|found| found.checks.evidence.response = id(3), against);
    refuses(|found| found.checks.node_keys[0] = id(1), against);
    refuses(|found| found.checks.order_digest = id(1), against);
    refuses(
        |found| found.checks.price_direction = PriceLimitDirection::MinimumSellPrice,
        against,
    );
    refuses(
        |found| found.checks.limit_price_commitment = point(21),
        against,
    );
    refuses(|found| found.checks.securities_reserve = point(21), against);
    refuses(|found| found.checks.cash_reserve = point(71), against);
    refuses(|found| found.checks.cash_commitment = point(61), against);
    refuses(|found| found.checks.traded_asset_id = CASH, against);
}

#[test]
fn commitments_must_be_canonical_points() {
    assert_eq!(settlement_point(&point(9), "reserve"), Ok(()));
    assert_eq!(
        settlement_point(&Id([255; 32]), "reserve"),
        Err("reserve is not a canonical Ristretto commitment".to_string())
    );
}

#[test]
fn anonymous_reservations_happen_once() {
    let mut state = reserved();
    let before = state.share();
    assert_eq!(
        reserve(&mut state, maker()),
        Err("anonymous reservation operation or hold was already used".to_string())
    );
    let mut renamed = taker();
    renamed.transition.operation_id = id(1);
    renamed.transition.hold_id = id(2);
    assert_eq!(
        reserve(&mut state, renamed),
        Err("reserve nullifier was already used".to_string())
    );
    assert_eq!(state, before);
    settle(&mut state, order(), 120).unwrap();
    let after = state.share();
    assert!(settle(&mut state, order(), 120).is_err());
    assert_eq!(state, after);
}

#[test]
fn a_late_or_unmatched_anonymous_settlement_changes_nothing() {
    let mut state = reserved();
    let before = state.share();
    assert!(settle(&mut state, order(), 401).is_err());
    let mut unmatched = order();
    unmatched.settlement.spends[1].hold_id = id(1);
    assert!(settle(&mut state, unmatched, 120).is_err());
    let mut inflated = order();
    inflated.settlement.spends[0].claims[0].value_commitment = point(7);
    assert!(settle(&mut state, inflated, 120).is_err());
    assert_eq!(state, before);
}

#[test]
fn every_order_of_a_batch_has_its_evidence() {
    let mut state = reserved();
    let before = state.share();
    let batch = ProductSettlementBatch {
        batch_id: id(159),
        venue_id: VENUE,
        defmi_id: id(112),
        admission_epoch: 1,
        members: vec![ProductSettlementBatchMember {
            admission_sequence: 1,
            settlement_statement: id(78),
        }],
        seal: seal(76),
    };
    assert_eq!(
        act(
            &mut state,
            Action::IssueNoteProductSettlementBatch {
                batch,
                orders: vec![order()],
                findings: vec![],
            },
            120,
        ),
        Err("anonymous batch must carry one complete proof bundle per order".to_string())
    );
    assert_eq!(state, before);
}

#[test]
fn anonymous_reservations_are_what_was_signed() {
    let refuses = |request: NoteProductReservation, message: &str| {
        let mut state = market();
        let before = state.share();
        assert_eq!(reserve(&mut state, request), Err(message.to_string()));
        assert_eq!(state, before);
    };
    let mut other_digest = maker();
    other_digest.authorization.escrow_digest = id(1);
    refuses(
        other_digest,
        "anonymous escrow differs from the signed reservation",
    );
    let mut unbound = taker();
    unbound.authorization.authorization_digest = id(1);
    refuses(
        unbound,
        "Taker reservation is not bound to its signed execution mandate",
    );
}
