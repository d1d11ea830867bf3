use curve25519_dalek::constants::RISTRETTO_BASEPOINT_POINT as G;
use curve25519_dalek::scalar::Scalar;
use qomm_avalanche_vm::endorsement::{quorum_check, ApprovalDto, NodeApprovalDto, Seal, Submission};
use qomm_avalanche_vm::execution::Action;
use qomm_avalanche_vm::id::Id;
use qomm_avalanche_vm::order::{
    CertifiedAdmissionLane, CreditFacilityTransition, CreditTransitionKind, LaneDigest,
    ProductReleaseOrder, ProductReservation, ProductSettlementBatch, ProductSettlementBatchMember,
    ProductSettlementOrder, ProductTerms, ReservationAuthorization, ReservationConsumption,
    ReservationEscrow, SettlementOrder, StateLeg,
};
use qomm_avalanche_vm::state::{
    AccountRecord, AdmissionBatchRecord, AdmissionEntryRecord, AssetKind, AssetRecord,
    CreditFacilityRecord, CreditHoldRecord, FacilityStatus, HoldStatus, ReservationBindingRecord,
    ReservationEscrowRecord, ReservationRole, State,
};
use qomm_avalanche_vm::table::Numbered;

fn id(byte: u8) -> Id {
    Id([byte; 32])
}

fn root(state: &State) -> Id {
    Id::digest(format!("{state:?}").as_bytes())
}

fn submission(before_root: Id, expected: Id, statement: Id) -> Submission {
    let mut submitted = Submission {
        before_root,
        expected_before_root: Some(hex::encode(expected.0)),
        approval: Ok(ApprovalDto {
            statement: hex::encode(statement.0),
            signer_epoch: 1,
            domain: "test-chain".into(),
            before_root: hex::encode(expected.0),
            approvals: vec![
                NodeApprovalDto {
                    node_id: "node-0".into(),
                    signature: "22".repeat(64),
                },
                NodeApprovalDto {
                    node_id: "node-1".into(),
                    signature: "33".repeat(64),
                },
            ],
        }),
        quorum: None,
    };
    submitted.quorum = quorum_check(statement, &submitted).ok();
    submitted
}

fn approved(state: &State, statement: Id) -> Submission {
    submission(root(state), root(state), statement)
}

fn seal(byte: u8) -> Seal {
    Seal {
        body: Ok(()),
        statement: Ok(id(byte)),
    }
}

const ZERO: Id = Id([0; 32]);

const LANE: Id = Id([99; 32]);

fn act(state: &mut State, action: Action, timestamp: u64) -> Result<Id, String> {
    let submitted = approved(state, action.statement().unwrap_or(Id::zero()));
    state.apply(action, &submitted, timestamp)
}

fn asset(code: &str, kind: AssetKind, terms: u8) -> AssetRecord {
    AssetRecord {
        code: code.into(),
        kind,
        decimals: 0,
        terms_digest: id(terms),
        active: true,
    }
}

fn account(asset_id: u8, commitment: u8) -> AccountRecord {
    AccountRecord {
        asset_id: id(asset_id),
        commitment: id(commitment),
        sequence: 0,
    }
}

fn facility(beneficiary: u8, rail_asset_id: u8, available: u8) -> CreditFacilityRecord {
    CreditFacilityRecord {
        guarantor_id: id(198),
        beneficiary_commitment: id(beneficiary),
        rail_asset_id: id(rail_asset_id),
        cap_commitment: id(available),
        available_commitment: id(available),
        held_commitment: ZERO,
        outstanding_commitment: ZERO,
        overlimit_commitment: ZERO,
        collateral_commitment: id(197),
        risk_policy_digest: id(196),
        valid_from: 1,
        valid_until: 1_000,
        status: FacilityStatus::Active,
        sequence: 0,
    }
}

fn lane() -> Numbered {
    Numbered {
        scope: id(224),
        number: 1,
    }
}

fn market() -> State {
    let mut state = State::new();
    state
        .assets
        .insert(id(200), asset("JPY", AssetKind::Cash, 199));
    state
        .assets
        .insert(id(195), asset("SEC", AssetKind::Security, 194));
    state.accounts.insert(id(203), account(195, 204));
    state.accounts.insert(id(221), account(200, 222));
    state.accounts.insert(id(193), account(195, 192));
    state.accounts.insert(id(191), account(200, 190));
    state
        .credit_facilities
        .insert(id(201), facility(202, 195, 205));
    state
        .credit_facilities
        .insert(id(219), facility(220, 200, 223));
    state.admission_batches.insert(
        id(224),
        AdmissionBatchRecord {
            venue_id: id(225),
            epoch: 1,
            slot: 42,
            batch_digest: id(226),
            order_digest: id(227),
            population: 1,
            consumed: 0,
            expires_at: 500,
            statement: id(230),
        },
    );
    state.admission_entries.insert(
        lane(),
        AdmissionEntryRecord {
            batch_id: id(224),
            sequence: 1,
            admission_digest: LANE,
            consumed_by: ZERO,
        },
    );
    state
}

fn maker() -> ProductReservation {
    ProductReservation {
        transition: CreditFacilityTransition {
            operation_id: id(206),
            facility_id: id(201),
            hold_id: id(207),
            kind: CreditTransitionKind::Hold,
            query_commitment: id(208),
            amount_commitment: id(209),
            consumed_commitment: ZERO,
            refund_commitment: ZERO,
            before_available_commitment: id(205),
            after_available_commitment: id(210),
            before_held_commitment: ZERO,
            after_held_commitment: id(209),
            before_outstanding_commitment: ZERO,
            after_outstanding_commitment: ZERO,
            before_sequence: 0,
            expires_at: 500,
            settlement_digest: ZERO,
            relation_proof_digest: id(211),
        },
        authorization: ReservationAuthorization {
            role: ReservationRole::Maker,
            entity_commitment: id(202),
            asset_id: id(195),
            direction: 1,
            authorization_digest: id(208),
            mandate_digest: id(215),
            typed_reserve_digest: id(216),
            reserve_nullifier: id(217),
            asset_link_proof_digest: id(218),
            limit_price_commitment: ZERO,
            escrow_digest: id(90),
            rfq_nullifier: ZERO,
            policy_version: 1,
            admission_ticket_id: ZERO,
            admission_slot: 0,
            admission_receipt_digest: ZERO,
            admission_epoch: 0,
            admission_sequence: 0,
            admission_batch_id: ZERO,
        },
        escrow: ReservationEscrow {
            source_handle: id(203),
            escrow_handle: id(212),
            asset_id: id(195),
            amount_commitment: id(209),
            source_before_commitment: id(204),
            source_after_commitment: id(213),
            source_before_sequence: 0,
            proof_digest: id(214),
        },
        transition_body: Ok(()),
        authorization_body: Ok(()),
        escrow_seal: seal(90),
        statement: Ok(id(91)),
        transition_statement: Ok(id(92)),
        lane_digest: Err("a maker has no lane".into()),
    }
}

fn taker() -> ProductReservation {
    ProductReservation {
        transition: CreditFacilityTransition {
            operation_id: id(231),
            facility_id: id(219),
            hold_id: id(232),
            kind: CreditTransitionKind::Hold,
            query_commitment: id(229),
            amount_commitment: id(233),
            consumed_commitment: ZERO,
            refund_commitment: ZERO,
            before_available_commitment: id(223),
            after_available_commitment: id(234),
            before_held_commitment: ZERO,
            after_held_commitment: id(233),
            before_outstanding_commitment: ZERO,
            after_outstanding_commitment: ZERO,
            before_sequence: 0,
            expires_at: 500,
            settlement_digest: ZERO,
            relation_proof_digest: id(235),
        },
        authorization: ReservationAuthorization {
            role: ReservationRole::Taker,
            entity_commitment: id(220),
            asset_id: id(200),
            direction: 1,
            authorization_digest: id(229),
            mandate_digest: id(229),
            typed_reserve_digest: id(239),
            reserve_nullifier: id(240),
            asset_link_proof_digest: id(241),
            limit_price_commitment: Id((G * Scalar::from(250_u64)).compress().to_bytes()),
            escrow_digest: id(93),
            rfq_nullifier: id(242),
            policy_version: 0,
            admission_ticket_id: id(228),
            admission_slot: 42,
            admission_receipt_digest: LANE,
            admission_epoch: 1,
            admission_sequence: 1,
            admission_batch_id: id(224),
        },
        escrow: ReservationEscrow {
            source_handle: id(221),
            escrow_handle: id(236),
            asset_id: id(200),
            amount_commitment: id(233),
            source_before_commitment: id(222),
            source_after_commitment: id(237),
            source_before_sequence: 0,
            proof_digest: id(238),
        },
        transition_body: Ok(()),
        authorization_body: Ok(()),
        escrow_seal: seal(93),
        statement: Ok(id(94)),
        transition_statement: Ok(id(95)),
        lane_digest: Ok(LaneDigest {
            lane: CertifiedAdmissionLane {
                slot: 42,
                sequence: 1,
                principal_digest: ZERO,
                ticket_id: id(228),
                claim_digest: id(229),
                cluster_digest: id(226),
                order_digest: id(227),
            },
            venue_id: id(225),
            epoch: 1,
            digest: LANE,
        }),
    }
}

fn reserve(state: &mut State, request: ProductReservation) -> Result<Id, String> {
    act(state, Action::IssueProductReservation { request }, 100)
}

fn reserved() -> State {
    let mut state = market();
    reserve(&mut state, maker()).unwrap();
    reserve(&mut state, taker()).unwrap();
    state
}

fn leg(handle: u8, asset_id: u8, before: u8, after: u8, before_sequence: u64) -> StateLeg {
    StateLeg {
        handle: id(handle),
        asset_id: id(asset_id),
        before_commitment: id(before),
        after_commitment: id(after),
        before_sequence,
    }
}

fn order() -> ProductSettlementOrder {
    let consumption = |held: &ProductReservation, operation: u8, consumed: u8| {
        CreditFacilityTransition {
            operation_id: id(operation),
            kind: CreditTransitionKind::Consume,
            consumed_commitment: id(consumed),
            refund_commitment: id(consumed + 1),
            before_available_commitment: held.transition.after_available_commitment,
            after_available_commitment: id(consumed + 2),
            before_held_commitment: held.transition.after_held_commitment,
            after_held_commitment: ZERO,
            after_outstanding_commitment: id(consumed),
            before_sequence: 1,
            settlement_digest: id(96),
            relation_proof_digest: id(consumed + 3),
            ..held.transition
        }
    };
    ProductSettlementOrder {
        settlement: SettlementOrder {
            operation_id: id(10),
            nullifier: id(11),
            deadline: 400,
            payment_instruction_digest: id(12),
            proof_digest: id(13),
            market_statement_digest: id(14),
            legs: vec![
                leg(203, 195, 213, 15, 1),
                leg(193, 195, 192, 16, 0),
                leg(221, 200, 237, 17, 1),
                leg(191, 200, 190, 18, 0),
            ],
            seal: seal(96),
        },
        terms: ProductTerms {
            venue_id: id(31),
            defmi_id: id(32),
            maker_entity_commitment: id(202),
            taker_entity_commitment: id(220),
            rfq_nullifier: id(242),
            taker_authorization_digest: id(229),
            maker_policy_digest: id(208),
            maker_mandate_digest: id(215),
            taker_mandate_digest: id(229),
            typed_instruction_digest: id(12),
            quote_proof_digest: id(13),
            price_limit_proof_digest: id(33),
            dvp_proof_digest: id(34),
            quantity_commitment: id(22),
            cash_commitment: id(27),
            traded_asset_id: id(195),
            asset_link_proof_digest: id(35),
            admission_receipt_digest: LANE,
            admission_epoch: 1,
            admission_sequence: 1,
        },
        reservations: vec![
            ReservationConsumption {
                role: ReservationRole::Maker,
                reserve_receipt_digest: id(91),
                transition: consumption(&maker(), 21, 22),
                transition_statement: Ok(id(81)),
            },
            ReservationConsumption {
                role: ReservationRole::Taker,
                reserve_receipt_digest: id(94),
                transition: consumption(&taker(), 26, 27),
                transition_statement: Ok(id(82)),
            },
        ],
        seal: seal(97),
    }
}

fn settled(state: &State) {
    for hold in [id(207), id(232)] {
        assert_eq!(
            state.credit_holds.get(&hold).unwrap().status.as_str(),
            "consumed"
        );
        assert_eq!(
            state.reservation_escrows.get(&hold).unwrap().status.as_str(),
            "consumed"
        );
    }
    assert_eq!(state.nullifiers.get(&id(11)).unwrap().statement, id(97));
    assert_eq!(state.rfq_nullifiers.get(&id(242)), Some(&id(97)));
    for leg in &order().settlement.legs {
        let account = state.accounts.get(&leg.handle).unwrap();
        assert_eq!(account.commitment, leg.after_commitment);
        assert_eq!(account.sequence, leg.before_sequence + 1);
    }
}

#[test]
fn maker_and_taker_reservations_are_atomic_and_need_no_post_quote_signature() {
    let mut state = market();
    reserve(&mut state, maker()).expect("maker reserve");
    assert_eq!(state.credit_facilities.get(&id(201)).unwrap().sequence, 1);
    assert_eq!(state.accounts.get(&id(203)).unwrap().sequence, 1);
    assert_eq!(
        state
            .reservation_bindings
            .get(&id(207))
            .unwrap()
            .role
            .as_str(),
        "maker"
    );

    reserve(&mut state, taker()).expect("taker reserve");
    assert_eq!(state.admission_batches.get(&id(224)).unwrap().consumed, 1);
    assert_eq!(
        state.admission_entries.get(&lane()).unwrap().consumed_by,
        id(231)
    );
    assert_eq!(state.credit_facilities.get(&id(219)).unwrap().sequence, 1);
    assert_eq!(state.accounts.get(&id(221)).unwrap().sequence, 1);

    let mut duplicate = taker();
    duplicate.transition = CreditFacilityTransition {
        operation_id: id(243),
        hold_id: id(244),
        amount_commitment: id(245),
        before_available_commitment: id(234),
        after_available_commitment: id(246),
        before_held_commitment: id(233),
        after_held_commitment: id(247),
        before_sequence: 1,
        relation_proof_digest: id(251),
        ..duplicate.transition
    };
    duplicate.escrow = ReservationEscrow {
        escrow_handle: id(249),
        amount_commitment: id(245),
        source_before_commitment: id(237),
        source_after_commitment: id(248),
        source_before_sequence: 1,
        proof_digest: id(250),
        ..duplicate.escrow
    };
    duplicate.authorization = ReservationAuthorization {
        reserve_nullifier: id(252),
        typed_reserve_digest: id(253),
        asset_link_proof_digest: id(254),
        ..duplicate.authorization
    };
    let accepted = state.share();
    assert!(reserve(&mut state, duplicate)
        .unwrap_err()
        .contains("RFQ or admission lane was already reserved"));
    assert_eq!(state, accepted);

    let mut batch_state = state.share();
    act(
        &mut state,
        Action::IssueProductSettlement { order: order() },
        100,
    )
    .expect("signature-free product settlement");
    assert_eq!(state.credit_facilities.get(&id(201)).unwrap().sequence, 2);
    assert_eq!(state.credit_facilities.get(&id(219)).unwrap().sequence, 2);
    settled(&state);

    let batch = ProductSettlementBatch {
        batch_id: id(36),
        venue_id: id(31),
        defmi_id: id(32),
        admission_epoch: 1,
        members: vec![ProductSettlementBatchMember {
            admission_sequence: 1,
            settlement_statement: id(97),
        }],
        seal: seal(98),
    };
    act(
        &mut batch_state,
        Action::IssueProductSettlementBatch {
            batch,
            orders: vec![order()],
        },
        100,
    )
    .expect("one quorum approval atomically settles the product batch");
    assert_eq!(batch_state.operations.get(&id(36)), Some(&id(98)));
    settled(&batch_state);
}

#[test]
fn reservation_is_bound_and_its_amount_set_aside() {
    let state = reserved();
    let binding = state.reservation_bindings.get(&id(232)).unwrap();
    assert_eq!(binding.receipt_digest, id(94));
    assert_eq!(binding.rfq_nullifier, id(242));
    let escrow = state.reservation_escrows.get(&id(232)).unwrap();
    assert_eq!(escrow.status, HoldStatus::Active);
    assert_eq!(escrow.amount_commitment, id(233));
    assert_eq!(state.accounts.get(&id(221)).unwrap().commitment, id(237));
    let facility = state.credit_facilities.get(&id(219)).unwrap();
    assert_eq!(facility.available_commitment, id(234));
    assert_eq!(facility.held_commitment, id(233));
}

#[test]
fn reservations_name_what_is_wrong() {
    let refuses = |change: fn(&mut ProductReservation), message: &str| {
        let mut state = market();
        reserve(&mut state, maker()).unwrap();
        let mut request = taker();
        change(&mut request);
        let before = state.share();
        assert_eq!(reserve(&mut state, request), Err(message.to_string()));
        assert_eq!(state, before);
    };
    refuses(
        |request| request.statement = Err("reservation is malformed".into()),
        "reservation is malformed",
    );
    refuses(
        |request| request.transition.hold_id = id(207),
        "reservation operation or hold identifier was already used",
    );
    refuses(
        |request| request.authorization.reserve_nullifier = id(217),
        "reserve nullifier was already used",
    );
    refuses(
        |request| request.transition.facility_id = id(1),
        "bound reserve names an unknown facility",
    );
    refuses(
        |request| request.authorization.entity_commitment = id(1),
        "reserve entity or asset does not match its facility",
    );
    refuses(
        |request| request.transition.before_sequence = 1,
        "reservation was proved against stale facility state",
    );
    refuses(
        |request| request.transition.expires_at = 2_000,
        "reservation cannot create a valid active facility hold",
    );
    refuses(
        |request| request.escrow.source_handle = id(1),
        "reservation escrow names an unknown source account",
    );
    refuses(
        |request| request.escrow.source_before_sequence = 1,
        "reservation escrow was proved against stale source-account state",
    );
    refuses(
        |request| request.authorization.admission_batch_id = id(1),
        "Taker reserve has no registered admission batch",
    );
    refuses(
        |request| request.authorization.admission_slot = 43,
        "Taker admission is expired or differs from its batch",
    );
    refuses(
        |request| request.lane_digest.as_mut().unwrap().digest = id(1),
        "Taker mandate is not the next certified admission claim",
    );
    let against = "admission lane digest was derived from something else";
    refuses(
        |request| request.lane_digest.as_mut().unwrap().epoch = 2,
        against,
    );
    refuses(
        |request| request.lane_digest.as_mut().unwrap().venue_id = id(1),
        against,
    );
    refuses(
        |request| request.lane_digest.as_mut().unwrap().lane.claim_digest = id(1),
        against,
    );
    refuses(
        |request| request.authorization.admission_sequence = 2,
        "Taker mandate is not the next certified admission claim",
    );
}

#[test]
fn a_batch_with_one_bad_order_changes_nothing() {
    let mut state = reserved();
    let before = state.share();
    let batch = |member: u8| ProductSettlementBatch {
        batch_id: id(36),
        venue_id: id(31),
        defmi_id: id(32),
        admission_epoch: 1,
        members: vec![ProductSettlementBatchMember {
            admission_sequence: 1,
            settlement_statement: id(member),
        }],
        seal: seal(98),
    };
    let mut late = order();
    late.settlement.legs[3].before_sequence = 5;
    assert!(act(
        &mut state,
        Action::IssueProductSettlementBatch {
            batch: batch(97),
            orders: vec![late],
        },
        100,
    )
    .is_err());
    assert_eq!(state, before);
}

#[test]
fn settlements_need_their_reservations() {
    let mut state = market();
    let before = state.share();
    assert!(act(
        &mut state,
        Action::IssueProductSettlement { order: order() },
        100
    )
    .is_err());
    assert_eq!(state, before);
    let mut state = reserved();
    let before = state.share();
    assert!(act(
        &mut state,
        Action::IssueProductSettlement { order: order() },
        401
    )
    .is_err());
    let mut receipts = order();
    receipts.reservations[0].reserve_receipt_digest = id(1);
    assert!(act(
        &mut state,
        Action::IssueProductSettlement { order: receipts },
        100
    )
    .is_err());
    assert_eq!(state, before);
    act(
        &mut state,
        Action::IssueProductSettlement { order: order() },
        100,
    )
    .unwrap();
    let after = state.share();
    assert!(act(
        &mut state,
        Action::IssueProductSettlement { order: order() },
        100
    )
    .is_err());
    assert_eq!(state, after);
}

fn expired() -> State {
    let mut state = State::new();
    state.assets.insert(id(1), asset("JPY", AssetKind::Cash, 26));
    state.accounts.insert(
        id(2),
        AccountRecord {
            asset_id: id(1),
            commitment: id(3),
            sequence: 1,
        },
    );
    state.credit_facilities.insert(
        id(4),
        CreditFacilityRecord {
            guarantor_id: id(27),
            beneficiary_commitment: id(5),
            rail_asset_id: id(1),
            cap_commitment: id(28),
            available_commitment: id(6),
            held_commitment: id(7),
            outstanding_commitment: ZERO,
            overlimit_commitment: ZERO,
            collateral_commitment: id(29),
            risk_policy_digest: id(30),
            valid_from: 1,
            valid_until: 1_000,
            status: FacilityStatus::Active,
            sequence: 1,
        },
    );
    state.credit_holds.insert(
        id(8),
        CreditHoldRecord {
            facility_id: id(4),
            query_commitment: id(9),
            amount_commitment: id(10),
            expires_at: 100,
            status: HoldStatus::Active,
            settlement_digest: ZERO,
            created_sequence: 1,
            updated_sequence: 1,
        },
    );
    state.reservation_bindings.insert(
        id(8),
        ReservationBindingRecord {
            role: ReservationRole::Maker,
            entity_commitment: id(5),
            asset_id: id(1),
            direction: 1,
            authorization_digest: id(9),
            mandate_digest: id(11),
            typed_reserve_digest: id(12),
            reserve_nullifier: id(13),
            asset_link_proof_digest: id(14),
            limit_price_commitment: ZERO,
            rfq_nullifier: ZERO,
            policy_version: 1,
            admission_ticket_id: ZERO,
            admission_slot: 0,
            admission_receipt_digest: ZERO,
            admission_epoch: 0,
            admission_sequence: 0,
            admission_batch_id: ZERO,
            receipt_digest: id(15),
        },
    );
    state.reservation_escrows.insert(
        id(8),
        ReservationEscrowRecord {
            source_handle: id(2),
            escrow_handle: id(16),
            asset_id: id(1),
            amount_commitment: id(10),
            source_before_commitment: id(17),
            source_after_commitment: id(3),
            source_before_sequence: 0,
            proof_digest: id(18),
            status: HoldStatus::Active,
            settlement_digest: ZERO,
        },
    );
    state
}

fn release() -> ProductReleaseOrder {
    ProductReleaseOrder {
        transition: CreditFacilityTransition {
            operation_id: id(19),
            facility_id: id(4),
            hold_id: id(8),
            kind: CreditTransitionKind::Release,
            query_commitment: id(9),
            amount_commitment: id(10),
            consumed_commitment: ZERO,
            refund_commitment: ZERO,
            before_available_commitment: id(6),
            after_available_commitment: id(20),
            before_held_commitment: id(7),
            after_held_commitment: ZERO,
            before_outstanding_commitment: ZERO,
            after_outstanding_commitment: ZERO,
            before_sequence: 1,
            expires_at: 100,
            settlement_digest: ZERO,
            relation_proof_digest: id(21),
        },
        role: ReservationRole::Maker,
        reserve_receipt_digest: id(15),
        typed_instruction_digest: id(22),
        release_nullifier: id(23),
        release_deadline: 200,
        asset_id: id(1),
        asset_link_proof_digest: id(24),
        refund_leg: leg(2, 1, 3, 25, 1),
        seal: seal(80),
    }
}

#[test]
fn expired_reservation_releases_without_maker_or_taker_signature() {
    let mut state = expired();
    act(
        &mut state,
        Action::IssueProductRelease { order: release() },
        101,
    )
    .expect("automatic release");
    assert_eq!(
        state.credit_holds.get(&id(8)).unwrap().status.as_str(),
        "released"
    );
    assert_eq!(
        state
            .reservation_escrows
            .get(&id(8))
            .unwrap()
            .status
            .as_str(),
        "released"
    );
    assert_eq!(state.accounts.get(&id(2)).unwrap().commitment, id(25));
    assert_eq!(state.accounts.get(&id(2)).unwrap().sequence, 2);
    assert_eq!(state.credit_facilities.get(&id(4)).unwrap().sequence, 2);
    assert_eq!(state.nullifiers.get(&id(23)).unwrap().statement, id(80));
}

#[test]
fn releases_name_what_is_wrong() {
    let refuses = |change: fn(&mut ProductReleaseOrder), timestamp: u64, message: &str| {
        let mut state = expired();
        let mut order = release();
        change(&mut order);
        let before = state.share();
        assert_eq!(
            act(&mut state, Action::IssueProductRelease { order }, timestamp),
            Err(message.to_string())
        );
        assert_eq!(state, before);
    };
    let window = "product reservation is not yet releasable or release has expired";
    refuses(|_| {}, 100, window);
    refuses(|_| {}, 201, window);
    refuses(
        |order| order.transition.hold_id = id(1),
        101,
        "product release names an unknown reservation",
    );
    refuses(
        |order| order.reserve_receipt_digest = id(1),
        101,
        "release differs from the stored reservation",
    );
    refuses(
        |order| order.transition.before_sequence = 2,
        101,
        "product release was proved against stale facility state",
    );
    refuses(
        |order| order.refund_leg.before_sequence = 0,
        101,
        "product release was proved against stale refund-account state",
    );
}

#[test]
fn a_settled_hold_is_not_released() {
    let mut state = reserved();
    act(
        &mut state,
        Action::IssueProductSettlement { order: order() },
        100,
    )
    .unwrap();
    let settled = state.share();
    let held = maker();
    let late = ProductReleaseOrder {
        transition: CreditFacilityTransition {
            operation_id: id(60),
            kind: CreditTransitionKind::Release,
            before_available_commitment: id(24),
            after_available_commitment: id(61),
            before_held_commitment: ZERO,
            after_held_commitment: ZERO,
            before_outstanding_commitment: id(22),
            after_outstanding_commitment: id(22),
            before_sequence: 2,
            ..held.transition
        },
        role: ReservationRole::Maker,
        reserve_receipt_digest: id(91),
        typed_instruction_digest: id(62),
        release_nullifier: id(63),
        release_deadline: 600,
        asset_id: id(195),
        asset_link_proof_digest: id(64),
        refund_leg: leg(203, 195, 15, 65, 2),
        seal: seal(66),
    };
    assert_eq!(
        act(&mut state, Action::IssueProductRelease { order: late }, 501),
        Err("product release was proved against stale hold state".to_string())
    );
    assert_eq!(state, settled);
}

#[test]
fn reservations_are_what_was_signed() {
    let refuses = |request: ProductReservation, message: &str| {
        let mut state = market();
        let before = state.share();
        assert_eq!(reserve(&mut state, request), Err(message.to_string()));
        assert_eq!(state, before);
    };
    let differs = "reservation escrow differs from its signed authorization";
    let mut other_digest = maker();
    other_digest.authorization.escrow_digest = id(1);
    refuses(other_digest, differs);
    let mut other_amount = maker();
    other_amount.escrow.amount_commitment = id(1);
    refuses(other_amount, differs);
    let mut other_asset = maker();
    other_asset.escrow.asset_id = id(200);
    refuses(other_asset, differs);
    let mut circular = maker();
    circular.escrow.escrow_handle = circular.escrow.source_handle;
    refuses(circular, differs);
    let mut unbound = taker();
    unbound.authorization.mandate_digest = id(1);
    refuses(
        unbound,
        "Taker reservation is not bound to its signed execution mandate",
    );
    let mut malformed = maker();
    malformed.transition_body = Err("transition is malformed".into());
    refuses(malformed, "transition is malformed");
    let mut unsigned = maker();
    unsigned.authorization_body = Err("authorization is malformed".into());
    refuses(unsigned, "authorization is malformed");
    let mut unsealed = maker();
    unsealed.escrow_seal.body = Err("escrow is malformed".into());
    refuses(unsealed, "escrow is malformed");
}
