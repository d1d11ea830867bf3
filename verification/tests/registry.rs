use ed25519_dalek::{Signer, SigningKey};
use qomm_avalanche_vm::endorsement::{quorum_check, ApprovalDto, NodeApprovalDto, Seal, Submission};
use qomm_avalanche_vm::execution::{Action, Method};
use qomm_avalanche_vm::id::Id;
use qomm_avalanche_vm::order::{
    AccountOpening, AssetDefinition, CreditFacilityGrant, GuarantorDefinition, SettlementOrder,
    StateLeg,
};
use qomm_avalanche_vm::state::{
    AccountRecord, AssetKind, AssetRecord, CreditFacilityRecord, FacilityStatus, GuarantorKind,
    GuarantorRecord, NullifierRecord, State,
};

fn id(byte: u8) -> Id {
    Id([byte; 32])
}

fn root(state: &State) -> Id {
    Id::digest(format!("{state:?}").as_bytes())
}

fn submission(before_root: Id, expected: Id, statement: Id) -> Submission {
    let mut submitted = Submission {
        before_root,
        expected_before_root: Some(hex::encode(expected.0)),
        approval: Ok(ApprovalDto {
            statement: hex::encode(statement.0),
            signer_epoch: 1,
            domain: "test-chain".into(),
            before_root: hex::encode(expected.0),
            approvals: vec![
                NodeApprovalDto {
                    node_id: "node-0".into(),
                    signature: "22".repeat(64),
                },
                NodeApprovalDto {
                    node_id: "node-1".into(),
                    signature: "33".repeat(64),
                },
            ],
        }),
        quorum: None,
    };
    submitted.quorum = quorum_check(statement, &submitted).ok();
    submitted
}

fn approved(state: &State, statement: Id) -> Submission {
    submission(root(state), root(state), statement)
}

fn seal(byte: u8) -> Seal {
    Seal {
        body: Ok(()),
        statement: Ok(id(byte)),
    }
}

const ZERO: Id = Id([0; 32]);

fn act(state: &mut State, action: Action, timestamp: u64) -> Result<Id, String> {
    let submitted = approved(state, action.statement().unwrap_or(Id::zero()));
    state.apply(action, &submitted, timestamp)
}

fn asset() -> AssetDefinition {
    AssetDefinition {
        asset_id: id(11),
        code: "JPY".into(),
        kind: AssetKind::Cash,
        decimals: 0,
        terms_digest: id(12),
        seal: seal(1),
    }
}

fn guarantor() -> GuarantorDefinition {
    GuarantorDefinition {
        guarantor_id: id(72),
        kind: GuarantorKind::CentralCounterparty,
        name: "test CCP".into(),
        public_key: Id(SigningKey::from_bytes(&[71; 32]).verifying_key().to_bytes()),
        risk_policy_digest: id(73),
        seal: seal(2),
    }
}

fn opening(handle: u8) -> AccountOpening {
    AccountOpening {
        handle: id(handle),
        asset_id: id(11),
        commitment: id(handle + 1),
        issuance_nonce: id(handle + 2),
        seal: seal(handle),
    }
}

fn order() -> SettlementOrder {
    SettlementOrder {
        operation_id: id(41),
        nullifier: id(42),
        deadline: 1_000,
        payment_instruction_digest: id(43),
        proof_digest: id(44),
        market_statement_digest: id(45),
        legs: vec![
            StateLeg {
                handle: id(21),
                asset_id: id(11),
                before_commitment: id(22),
                after_commitment: id(24),
                before_sequence: 0,
            },
            StateLeg {
                handle: id(31),
                asset_id: id(11),
                before_commitment: id(32),
                after_commitment: id(34),
                before_sequence: 0,
            },
        ],
        seal: seal(40),
    }
}

fn ready() -> State {
    let mut state = State::new();
    act(&mut state, Action::IssueAsset { definition: asset() }, 100).unwrap();
    for handle in [21, 31] {
        act(
            &mut state,
            Action::IssueAccount {
                opening: opening(handle),
            },
            100,
        )
        .unwrap();
    }
    state
}

#[test]
fn rust_vm_state_matches_the_native_facility_through_settlement() {
    let mut state = State::new();
    let mut expected = State::new();
    assert_eq!(
        act(&mut state, Action::IssueAsset { definition: asset() }, 100),
        Ok(id(1))
    );
    let record = state.assets.get(&id(11)).unwrap();
    assert_eq!(record.code, "JPY");
    assert_eq!(record.kind.as_str(), "cash");
    assert!(record.active);
    expected.assets.insert(
        id(11),
        AssetRecord {
            code: "JPY".into(),
            kind: AssetKind::Cash,
            decimals: 0,
            terms_digest: id(12),
            active: true,
        },
    );
    expected.transition_count = 1;
    assert_eq!(state, expected);
    assert_eq!(
        act(
            &mut state,
            Action::IssueGuarantor {
                definition: guarantor(),
            },
            100,
        ),
        Ok(id(2))
    );
    assert_eq!(
        state.guarantors.get(&id(72)).unwrap().kind.as_str(),
        "ccp"
    );
    expected.guarantors.insert(
        id(72),
        GuarantorRecord {
            kind: GuarantorKind::CentralCounterparty,
            name: "test CCP".into(),
            public_key: Id(SigningKey::from_bytes(&[71; 32]).verifying_key().to_bytes()),
            risk_policy_digest: id(73),
            active: true,
        },
    );
    expected.transition_count = 2;
    assert_eq!(state, expected);
    let grant = CreditFacilityGrant {
        operation_id: id(74),
        facility_id: id(75),
        guarantor_id: id(72),
        beneficiary_commitment: id(76),
        rail_asset_id: id(11),
        cap_commitment: id(77),
        available_commitment: id(77),
        held_commitment: ZERO,
        outstanding_commitment: ZERO,
        collateral_commitment: id(78),
        risk_policy_digest: id(73),
        relation_proof_digest: id(79),
        valid_from: 1,
        valid_until: 1_000,
        nonce: id(80),
        guarantor_signature: SigningKey::from_bytes(&[71; 32])
            .sign(b"grant")
            .to_bytes(),
        guarantor_message: Ok(b"grant".to_vec()),
        seal: seal(3),
    };
    act(&mut state, Action::IssueCreditGrant { grant }, 100).unwrap();
    assert_eq!(
        state.credit_facilities.get(&id(75)).unwrap().status.as_str(),
        "active"
    );
    expected.credit_facilities.insert(
        id(75),
        CreditFacilityRecord {
            guarantor_id: id(72),
            beneficiary_commitment: id(76),
            rail_asset_id: id(11),
            cap_commitment: id(77),
            available_commitment: id(77),
            held_commitment: ZERO,
            outstanding_commitment: ZERO,
            overlimit_commitment: ZERO,
            collateral_commitment: id(78),
            risk_policy_digest: id(73),
            valid_from: 1,
            valid_until: 1_000,
            status: FacilityStatus::Active,
            sequence: 0,
        },
    );
    expected.operations.insert(id(74), id(3));
    expected.transition_count = 3;
    assert_eq!(state, expected);
    for handle in [21, 31] {
        expected.accounts.insert(
            id(handle),
            AccountRecord {
                asset_id: id(11),
                commitment: id(handle + 1),
                sequence: 0,
            },
        );
        act(
            &mut state,
            Action::IssueAccount {
                opening: opening(handle),
            },
            100,
        )
        .unwrap();
    }
    expected.transition_count = 5;
    assert_eq!(state, expected);
    for (handle, commitment) in [(21, 24), (31, 34)] {
        expected.accounts.insert(
            id(handle),
            AccountRecord {
                asset_id: id(11),
                commitment: id(commitment),
                sequence: 1,
            },
        );
    }
    expected.nullifiers.insert(
        id(42),
        NullifierRecord {
            deadline: 1_000,
            statement: id(40),
        },
    );
    expected.operations.insert(id(41), id(40));
    expected.transition_count = 6;
    assert_eq!(
        act(&mut state, Action::IssueSettlement { order: order() }, 100),
        Ok(id(40))
    );
    assert_eq!(state.accounts.get(&id(21)).unwrap().commitment, id(24));
    assert_eq!(state.accounts.get(&id(31)).unwrap().commitment, id(34));
    assert_eq!(state.accounts.get(&id(31)).unwrap().sequence, 1);
    assert_eq!(state.nullifiers.get(&id(42)).unwrap().statement, id(40));
    assert_eq!(state.nullifiers.get(&id(42)).unwrap().deadline, 1_000);
    assert_eq!(state.operations.get(&id(41)), Some(&id(40)));
    assert_eq!(state, expected);
}

#[test]
fn registrations_happen_once() {
    let mut state = ready();
    let before = state.share();
    assert_eq!(
        act(&mut state, Action::IssueAsset { definition: asset() }, 100),
        Err("asset identifier is already registered".to_string())
    );
    assert_eq!(
        act(
            &mut state,
            Action::IssueAccount {
                opening: opening(21),
            },
            100,
        ),
        Err("account handle is already registered".to_string())
    );
    let mut foreign = opening(51);
    foreign.asset_id = id(1);
    assert_eq!(
        act(&mut state, Action::IssueAccount { opening: foreign }, 100),
        Err("account asset is unknown".to_string())
    );
    assert_eq!(state, before);
    act(
        &mut state,
        Action::IssueGuarantor {
            definition: guarantor(),
        },
        100,
    )
    .unwrap();
    assert_eq!(
        act(
            &mut state,
            Action::IssueGuarantor {
                definition: guarantor(),
            },
            100,
        ),
        Err("guarantor identifier is already registered".to_string())
    );
}

#[test]
fn settlements_happen_once_and_on_current_accounts() {
    let mut state = ready();
    assert_eq!(
        act(&mut state, Action::IssueSettlement { order: order() }, 1_001),
        Err("payment instruction has expired".to_string())
    );
    let mut stale = order();
    stale.legs[1].before_sequence = 1;
    let before = state.share();
    assert!(act(&mut state, Action::IssueSettlement { order: stale }, 100).is_err());
    assert_eq!(state, before);
    act(&mut state, Action::IssueSettlement { order: order() }, 100).unwrap();
    assert_eq!(
        act(&mut state, Action::IssueSettlement { order: order() }, 100),
        Err("operation identifier was already used".to_string())
    );
    let mut renamed = order();
    renamed.operation_id = id(46);
    assert_eq!(
        act(&mut state, Action::IssueSettlement { order: renamed }, 100),
        Err("payment nullifier was already settled".to_string())
    );
}

#[test]
fn transactions_are_known_by_name() {
    assert_eq!(
        Method::from_name("defmivm.issueAdmissionBatch"),
        Ok(Method::IssueAdmissionBatch)
    );
    assert_eq!(
        Method::IssueAdmissionBatch.fields(),
        vec!["plan", "admissionLanes"]
    );
    assert_eq!(
        Method::from_name("defmivm.issueNothing"),
        Err("defmivm.issueNothing has no Rust consensus executor in this build".to_string())
    );
}

#[test]
fn carried_out_transactions_are_counted() {
    let mut state = ready();
    assert_eq!(state.transition_count, 3);
    assert!(act(&mut state, Action::IssueAsset { definition: asset() }, 100).is_err());
    assert_eq!(state.transition_count, 3);
    state.transition_count = u64::MAX;
    let before = state.share();
    assert_eq!(
        act(&mut state, Action::IssueSettlement { order: order() }, 100),
        Err("transition count overflow".to_string())
    );
    assert_eq!(state, before);
}
