use ed25519_dalek::{Signer, SigningKey};
use qomm_avalanche_vm::endorsement::{quorum_check, ApprovalDto, NodeApprovalDto, Seal, Submission};
use qomm_avalanche_vm::execution::Action;
use qomm_avalanche_vm::id::Id;
use qomm_avalanche_vm::order::{
    CreditAmendmentMode, CreditControlAction, CreditFacilityAmendment, CreditFacilityControl,
    CreditFacilityGrant, CreditFacilityTransition, CreditTransitionKind,
};
use qomm_avalanche_vm::state::{
    AssetKind, AssetRecord, CreditFacilityRecord, FacilityStatus, GuarantorKind, GuarantorRecord,
    HoldStatus, State,
};

fn id(byte: u8) -> Id {
    Id([byte; 32])
}

fn root(state: &State) -> Id {
    Id::digest(format!("{state:?}").as_bytes())
}

fn submission(before_root: Id, expected: Id, statement: Id) -> Submission {
    let mut submitted = Submission {
        before_root,
        expected_before_root: Some(hex::encode(expected.0)),
        approval: Ok(ApprovalDto {
            statement: hex::encode(statement.0),
            signer_epoch: 1,
            domain: "test-chain".into(),
            before_root: hex::encode(expected.0),
            approvals: vec![
                NodeApprovalDto {
                    node_id: "node-0".into(),
                    signature: "22".repeat(64),
                },
                NodeApprovalDto {
                    node_id: "node-1".into(),
                    signature: "33".repeat(64),
                },
            ],
        }),
        quorum: None,
    };
    submitted.quorum = quorum_check(statement, &submitted).ok();
    submitted
}

fn approved(state: &State, statement: Id) -> Submission {
    submission(root(state), root(state), statement)
}

fn seal(byte: u8) -> Seal {
    Seal {
        body: Ok(()),
        statement: Ok(id(byte)),
    }
}

const ZERO: Id = Id([0; 32]);

fn act(state: &mut State, action: Action, timestamp: u64) -> Result<Id, String> {
    let submitted = approved(state, action.statement().unwrap_or(Id::zero()));
    state.apply(action, &submitted, timestamp)
}

fn facility() -> CreditFacilityRecord {
    CreditFacilityRecord {
        guarantor_id: id(91),
        beneficiary_commitment: id(92),
        rail_asset_id: id(93),
        cap_commitment: id(94),
        available_commitment: id(94),
        held_commitment: ZERO,
        outstanding_commitment: ZERO,
        overlimit_commitment: ZERO,
        collateral_commitment: id(95),
        risk_policy_digest: id(96),
        valid_from: 1,
        valid_until: 1_000,
        status: FacilityStatus::Active,
        sequence: 0,
    }
}

fn hold() -> CreditFacilityTransition {
    CreditFacilityTransition {
        operation_id: id(101),
        facility_id: id(90),
        hold_id: id(102),
        kind: CreditTransitionKind::Hold,
        query_commitment: id(103),
        amount_commitment: id(104),
        consumed_commitment: ZERO,
        refund_commitment: ZERO,
        before_available_commitment: id(94),
        after_available_commitment: id(105),
        before_held_commitment: ZERO,
        after_held_commitment: id(104),
        before_outstanding_commitment: ZERO,
        after_outstanding_commitment: ZERO,
        before_sequence: 0,
        expires_at: 500,
        settlement_digest: ZERO,
        relation_proof_digest: id(106),
    }
}

fn with_facility() -> State {
    let mut state = State::new();
    state.credit_facilities.insert(id(90), facility());
    state
}

fn transition(
    state: &mut State,
    transition: CreditFacilityTransition,
    timestamp: u64,
) -> Result<Id, String> {
    act(
        state,
        Action::IssueCreditTransition {
            transition,
            seal: seal(9),
        },
        timestamp,
    )
}

fn refuses_transition(change: fn(&mut CreditFacilityTransition), timestamp: u64, message: &str) {
    let mut state = with_facility();
    let mut order = hold();
    change(&mut order);
    let before = state.share();
    assert_eq!(
        transition(&mut state, order, timestamp),
        Err(message.to_string())
    );
    assert_eq!(state, before);
}

#[test]
fn concurrent_holds_cannot_both_consume_one_facility_sequence() {
    let mut state = with_facility();
    let first = hold();
    let second = CreditFacilityTransition {
        operation_id: id(111),
        hold_id: id(112),
        query_commitment: id(113),
        amount_commitment: id(114),
        after_available_commitment: id(115),
        after_held_commitment: id(114),
        relation_proof_digest: id(116),
        ..first
    };
    let built_on = root(&state);
    transition(&mut state, first, 100).expect("first hold");
    let after_first = state.share();
    let stale = submission(root(&state), built_on, id(10));
    assert!(state.apply(
        Action::IssueCreditTransition {
            transition: second,
            seal: seal(10),
        },
        &stale,
        100,
    )
    .unwrap_err()
    .contains("stale state root"));
    assert_eq!(state, after_first);

    // Even with a fresh approval on the current root, the stale sequence stays
    // refused.
    assert!(transition(&mut state, second, 100)
        .unwrap_err()
        .contains("stale facility state"));
    assert_eq!(state, after_first);
    assert_eq!(state.credit_holds.len(), 1);
    assert_eq!(
        state.credit_facilities.get(&id(90)).unwrap().sequence,
        1
    );
}

#[test]
fn hold_is_recorded_and_then_consumed_or_released() {
    let mut state = with_facility();
    assert_eq!(transition(&mut state, hold(), 100), Ok(id(9)));
    let record = *state.credit_holds.get(&id(102)).unwrap();
    assert_eq!(record.facility_id, id(90));
    assert_eq!(record.query_commitment, id(103));
    assert_eq!(record.amount_commitment, id(104));
    assert_eq!(record.expires_at, 500);
    assert_eq!(record.status, HoldStatus::Active);
    assert_eq!(record.settlement_digest, ZERO);
    assert_eq!(record.created_sequence, 1);
    assert_eq!(record.updated_sequence, 1);
    assert_eq!(state.operations.get(&id(101)), Some(&id(9)));

    let mut consumed = state.share();
    let consume = CreditFacilityTransition {
        operation_id: id(121),
        kind: CreditTransitionKind::Consume,
        consumed_commitment: id(104),
        before_available_commitment: id(105),
        before_held_commitment: id(104),
        after_held_commitment: ZERO,
        after_outstanding_commitment: id(104),
        before_sequence: 1,
        settlement_digest: id(122),
        ..hold()
    };
    transition(&mut consumed, consume, 200).unwrap();
    let record = consumed.credit_holds.get(&id(102)).unwrap();
    assert_eq!(record.status, HoldStatus::Consumed);
    assert_eq!(record.settlement_digest, id(122));
    assert_eq!(record.updated_sequence, 2);
    assert_eq!(
        transition(&mut consumed, consume, 200),
        Err("operation identifier was already used".to_string())
    );
    assert_eq!(
        transition(&mut state.share(), consume, 501),
        Err("expired credit hold cannot be consumed".to_string())
    );

    let release = CreditFacilityTransition {
        operation_id: id(123),
        kind: CreditTransitionKind::Release,
        refund_commitment: id(104),
        before_available_commitment: id(105),
        after_available_commitment: id(94),
        before_held_commitment: id(104),
        after_held_commitment: ZERO,
        before_sequence: 1,
        ..hold()
    };
    assert_eq!(
        transition(&mut state.share(), release, 499),
        Err("credit hold cannot be released before signed expiry".to_string())
    );
    transition(&mut state, release, 501).unwrap();
    assert_eq!(
        state.credit_holds.get(&id(102)).unwrap().status,
        HoldStatus::Released
    );
    assert_eq!(
        state
            .credit_facilities
            .get(&id(90))
            .unwrap()
            .available_commitment,
        id(94)
    );
    let mut again = release;
    again.operation_id = id(124);
    again.before_sequence = 2;
    again.before_available_commitment = id(94);
    again.before_held_commitment = ZERO;
    assert_eq!(
        transition(&mut state, again, 501),
        Err("credit transition was proved against stale hold state".to_string())
    );
}

#[test]
fn transitions_name_what_is_wrong() {
    refuses_transition(
        |order| order.facility_id = id(1),
        100,
        "credit transition names an unknown facility",
    );
    refuses_transition(
        |order| order.before_sequence = 1,
        100,
        "credit transition was proved against stale facility state",
    );
    refuses_transition(
        |order| order.expires_at = 1_001,
        100,
        "credit hold expiry is outside the facility interval",
    );
    refuses_transition(
        |order| order.after_outstanding_commitment = id(1),
        100,
        "a new hold cannot change settled debt",
    );
    refuses_transition(
        |order| order.kind = CreditTransitionKind::Release,
        100,
        "credit transition names an unknown hold",
    );
}

#[test]
fn unapproved_transactions_change_nothing() {
    let mut state = with_facility();
    let before = state.share();
    let act = |state: &mut State, submitted: &Submission| {
        state.apply(
            Action::IssueCreditTransition {
                transition: hold(),
                seal: seal(9),
            },
            submitted,
            100,
        )
    };
    let mut submitted = approved(&state, id(9));
    submitted.quorum = None;
    let invalid = Err("k-of-n DeFMI approval is invalid".to_string());
    assert_eq!(act(&mut state, &submitted), invalid);
    // An approval of another statement, or on another root, does not count.
    let other = approved(&state, id(8));
    assert_eq!(act(&mut state, &other), invalid);
    let mut elsewhere = approved(&state, id(9));
    elsewhere.quorum.as_mut().unwrap().before_root = id(7);
    assert_eq!(act(&mut state, &elsewhere), invalid);
    let mut exchanged = approved(&state, id(9));
    exchanged.quorum.as_mut().unwrap().approval.approvals[0].signature = [9; 64];
    assert_eq!(act(&mut state, &exchanged), invalid);
    let mut submitted = approved(&state, id(9));
    submitted.expected_before_root = None;
    assert_eq!(
        act(&mut state, &submitted),
        Err("expectedBeforeRoot must be a 32-byte hex string".to_string())
    );
    submitted.expected_before_root = Some("00".into());
    assert_eq!(
        act(&mut state, &submitted),
        Err("expectedBeforeRoot has 1 bytes; expected 32".to_string())
    );
    let mut submitted = approved(&state, id(9));
    submitted.approval = Err("approval is malformed".into());
    assert_eq!(
        act(&mut state, &submitted),
        Err("approval is malformed".to_string())
    );
    let mut submitted = approved(&state, id(9));
    if let Ok(dto) = &mut submitted.approval {
        dto.approvals[1].node_id = "node-0".into();
    }
    assert_eq!(
        act(&mut state, &submitted),
        Err("approval repeats a node identity".to_string())
    );
    let mut submitted = approved(&state, id(9));
    if let Ok(dto) = &mut submitted.approval {
        dto.approvals = (0..65)
            .map(|index| NodeApprovalDto {
                node_id: format!("node-{index}"),
                signature: "22".repeat(64),
            })
            .collect();
    }
    assert_eq!(
        act(&mut state, &submitted),
        Err("approval contains too many signers".to_string())
    );
    let mut submitted = approved(&state, id(9));
    if let Ok(dto) = &mut submitted.approval {
        dto.approvals[0].signature = "22".into();
    }
    assert_eq!(
        act(&mut state, &submitted),
        Err("approval.signature has 1 bytes; expected 64".to_string())
    );
    assert_eq!(state, before);
    let good = approved(&state, id(9));
    assert_eq!(act(&mut state, &good), Ok(id(9)));
}

fn guarantor_key() -> SigningKey {
    SigningKey::from_bytes(&[121; 32])
}

fn guaranteed() -> State {
    let mut state = State::new();
    state.guarantors.insert(
        id(122),
        GuarantorRecord {
            kind: GuarantorKind::CentralCounterparty,
            name: "test guarantor".into(),
            public_key: Id(guarantor_key().verifying_key().to_bytes()),
            risk_policy_digest: id(124),
            active: true,
        },
    );
    state.credit_facilities.insert(
        id(123),
        CreditFacilityRecord {
            guarantor_id: id(122),
            beneficiary_commitment: id(125),
            rail_asset_id: id(126),
            cap_commitment: id(127),
            available_commitment: id(127),
            held_commitment: id(128),
            outstanding_commitment: id(129),
            overlimit_commitment: ZERO,
            collateral_commitment: id(130),
            risk_policy_digest: id(124),
            valid_from: 1,
            valid_until: 1_000,
            status: FacilityStatus::Active,
            sequence: 0,
        },
    );
    state
}

fn over_limit() -> CreditFacilityAmendment {
    CreditFacilityAmendment {
        operation_id: id(131),
        facility_id: id(123),
        mode: CreditAmendmentMode::OverLimit,
        before_cap_commitment: id(127),
        after_cap_commitment: id(132),
        before_available_commitment: id(127),
        after_available_commitment: ZERO,
        before_held_commitment: id(128),
        before_outstanding_commitment: id(129),
        before_overlimit_commitment: ZERO,
        after_overlimit_commitment: id(133),
        before_collateral_commitment: id(130),
        after_collateral_commitment: id(134),
        before_risk_policy_digest: id(124),
        after_risk_policy_digest: id(124),
        before_valid_until: 1_000,
        after_valid_until: 2_000,
        before_sequence: 0,
        effective_at: 100,
        reason_digest: id(135),
        relation_proof_digest: id(136),
        guarantor_signature: guarantor_key().sign(b"over-limit").to_bytes(),
        guarantor_message: Ok(b"over-limit".to_vec()),
        seal: seal(1),
    }
}

fn control(
    operation: u8,
    action: CreditControlAction,
    before_sequence: u64,
) -> CreditFacilityControl {
    CreditFacilityControl {
        operation_id: id(operation),
        facility_id: id(123),
        action,
        before_sequence,
        effective_at: 100,
        reason_digest: id(138),
        guarantor_signature: guarantor_key().sign(&[operation]).to_bytes(),
        guarantor_message: Ok(vec![operation]),
        seal: seal(2),
    }
}

fn amend(state: &mut State, amendment: CreditFacilityAmendment) -> Result<Id, String> {
    act(
        state,
        Action::IssueCreditAmendment { amendment },
        100,
    )
}

fn steer(state: &mut State, control: CreditFacilityControl) -> Result<Id, String> {
    act(
        state,
        Action::IssueCreditControl { control },
        100,
    )
}

#[test]
fn credit_amendment_and_control_require_current_state_and_guarantor_authority() {
    let mut state = guaranteed();
    let built_on = root(&state);
    amend(&mut state, over_limit()).expect("over-limit amendment");
    let after_over_limit = state.share();
    let record = *state.credit_facilities.get(&id(123)).unwrap();
    assert_eq!(record.status.as_str(), "frozen");
    assert_eq!(record.sequence, 1);
    assert_eq!(record.overlimit_commitment, id(133));

    // A proposal signed for the same old state cannot be admitted twice.
    let stale = submission(root(&state), built_on, over_limit().seal.statement.unwrap());
    assert!(state.apply(
        Action::IssueCreditAmendment {
            amendment: over_limit(),
        },
        &stale,
        100,
    )
    .unwrap_err()
    .contains("stale state root"));
    assert!(amend(&mut state, over_limit())
        .unwrap_err()
        .contains("already used"));
    assert_eq!(state, after_over_limit);

    assert!(
        steer(&mut state, control(137, CreditControlAction::Activate, 1))
            .unwrap_err()
            .contains("must be rehabilitated")
    );
    assert_eq!(state, after_over_limit);

    let rehabilitate = CreditFacilityAmendment {
        operation_id: id(139),
        mode: CreditAmendmentMode::WithinLimit,
        before_cap_commitment: id(132),
        after_cap_commitment: id(140),
        before_available_commitment: ZERO,
        after_available_commitment: id(141),
        before_overlimit_commitment: id(133),
        after_overlimit_commitment: ZERO,
        before_collateral_commitment: id(134),
        after_collateral_commitment: id(142),
        before_valid_until: 2_000,
        after_valid_until: 2_500,
        before_sequence: 1,
        reason_digest: id(143),
        relation_proof_digest: id(144),
        guarantor_signature: guarantor_key().sign(b"rehabilitation").to_bytes(),
        guarantor_message: Ok(b"rehabilitation".to_vec()),
        ..over_limit()
    };
    amend(&mut state, rehabilitate).expect("rehabilitation amendment");
    let record = *state.credit_facilities.get(&id(123)).unwrap();
    assert_eq!(record.status.as_str(), "frozen");
    assert_eq!(record.sequence, 2);

    steer(&mut state, control(145, CreditControlAction::Activate, 2)).expect("reactivate facility");
    let record = state.credit_facilities.get(&id(123)).unwrap();
    assert_eq!(record.status.as_str(), "active");
    assert_eq!(record.sequence, 3);
    assert_eq!(record.overlimit_commitment, ZERO);
}

#[test]
fn amendments_name_what_is_wrong() {
    let refuses = |change: fn(&mut CreditFacilityAmendment), message: &str| {
        let mut state = guaranteed();
        let mut amendment = over_limit();
        change(&mut amendment);
        let before = state.share();
        assert_eq!(amend(&mut state, amendment), Err(message.to_string()));
        assert_eq!(state, before);
    };
    refuses(
        |amendment| amendment.seal.body = Err("amendment is malformed".into()),
        "amendment is malformed",
    );
    refuses(
        |amendment| amendment.effective_at = 101,
        "credit amendment is not effective or has expired",
    );
    refuses(
        |amendment| amendment.facility_id = id(1),
        "credit amendment names an unknown facility",
    );
    refuses(
        |amendment| amendment.before_held_commitment = id(1),
        "credit amendment was proved against stale facility state",
    );
    refuses(
        |amendment| amendment.after_risk_policy_digest = id(1),
        "credit amendment uses an unregistered guarantor risk policy",
    );
    refuses(
        |amendment| amendment.guarantor_message = Ok(b"another".to_vec()),
        "credit amendment lacks the guarantor signature",
    );
}

#[test]
fn controls_move_a_facility_between_its_standings() {
    let mut state = guaranteed();
    assert_eq!(
        steer(&mut state, control(1, CreditControlAction::Activate, 0)),
        Err("only a frozen facility can be reactivated".to_string())
    );
    assert_eq!(
        steer(&mut state, control(2, CreditControlAction::Close, 0)),
        Err("facility with holds, debt, or an over-limit balance cannot be closed".to_string())
    );
    let mut forged = control(3, CreditControlAction::Freeze, 0);
    forged.guarantor_signature = [0; 64];
    assert_eq!(
        steer(&mut state, forged),
        Err("credit control lacks the guarantor signature".to_string())
    );
    let mut early = control(3, CreditControlAction::Freeze, 0);
    early.effective_at = 101;
    assert_eq!(
        steer(&mut state, early),
        Err("credit control is not yet effective".to_string())
    );
    steer(&mut state, control(3, CreditControlAction::Freeze, 0)).unwrap();
    assert_eq!(
        steer(&mut state, control(4, CreditControlAction::Freeze, 0)),
        Err("credit control was signed against stale facility state".to_string())
    );
    assert_eq!(
        steer(&mut state, control(4, CreditControlAction::Freeze, 1)),
        Err("only an active facility can be frozen".to_string())
    );
    steer(&mut state, control(4, CreditControlAction::Default, 1)).unwrap();
    let record = state.credit_facilities.get(&id(123)).unwrap();
    assert_eq!(record.status, FacilityStatus::Defaulted);
    assert_eq!(record.sequence, 2);
    let mut amendment = over_limit();
    amendment.before_sequence = 2;
    assert_eq!(
        amend(&mut state, amendment),
        Err("closed or defaulted facility cannot be amended".to_string())
    );
}

fn grant() -> CreditFacilityGrant {
    CreditFacilityGrant {
        operation_id: id(201),
        facility_id: id(202),
        guarantor_id: id(122),
        beneficiary_commitment: id(203),
        rail_asset_id: id(204),
        cap_commitment: id(205),
        available_commitment: id(205),
        held_commitment: ZERO,
        outstanding_commitment: ZERO,
        collateral_commitment: id(206),
        risk_policy_digest: id(124),
        relation_proof_digest: id(207),
        valid_from: 1,
        valid_until: 1_000,
        nonce: id(208),
        guarantor_signature: guarantor_key().sign(b"grant").to_bytes(),
        guarantor_message: Ok(b"grant".to_vec()),
        seal: seal(3),
    }
}

fn granting() -> State {
    let mut state = guaranteed();
    state.assets.insert(
        id(204),
        AssetRecord {
            code: "JPY".into(),
            kind: AssetKind::Cash,
            decimals: 0,
            terms_digest: id(209),
            active: true,
        },
    );
    state
}

fn give(state: &mut State, grant: CreditFacilityGrant, timestamp: u64) -> Result<Id, String> {
    act(
        state,
        Action::IssueCreditGrant { grant },
        timestamp,
    )
}

#[test]
fn grants_open_an_active_facility_once() {
    let mut state = granting();
    assert_eq!(give(&mut state, grant(), 100), Ok(id(3)));
    let record = *state.credit_facilities.get(&id(202)).unwrap();
    assert_eq!(record.available_commitment, id(205));
    assert_eq!(record.overlimit_commitment, ZERO);
    assert_eq!(record.status, FacilityStatus::Active);
    assert_eq!(record.sequence, 0);
    let after = state.share();
    assert_eq!(
        give(&mut state, grant(), 100),
        Err("operation identifier was already used".to_string())
    );
    let mut other = grant();
    other.operation_id = id(1);
    other.facility_id = id(2);
    assert_eq!(
        give(&mut state, other, 100),
        Err("credit facility identifier or guarantor scope is already registered".to_string())
    );
    assert_eq!(state, after);
}

#[test]
fn grants_name_what_is_wrong() {
    let refuses = |change: fn(&mut CreditFacilityGrant), timestamp: u64, message: &str| {
        let mut state = granting();
        let mut order = grant();
        change(&mut order);
        assert_eq!(
            give(&mut state, order, timestamp),
            Err(message.to_string())
        );
    };
    refuses(|_| {}, 1_001, "credit facility is already expired");
    refuses(
        |grant| grant.guarantor_id = id(1),
        100,
        "credit facility names an unknown guarantor",
    );
    refuses(
        |grant| grant.risk_policy_digest = id(1),
        100,
        "credit facility uses an inactive guarantor or unregistered policy",
    );
    refuses(
        |grant| grant.rail_asset_id = id(1),
        100,
        "credit facility uses an inactive or unknown asset",
    );
    refuses(
        |grant| grant.guarantor_signature[0] ^= 1,
        100,
        "credit facility has an invalid guarantor signature",
    );
    refuses(
        |grant| grant.guarantor_message = Err("no message".into()),
        100,
        "no message",
    );
}
