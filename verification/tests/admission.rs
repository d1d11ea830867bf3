use ed25519_dalek::SigningKey;
use qomm_avalanche_vm::endorsement::{quorum_check, ApprovalDto, NodeApprovalDto, Seal, Submission};
use qomm_avalanche_vm::execution::admission::{
    lane_check, AdmissionAttestationDto, CertifiedLane, SubmittedLane,
};
use qomm_avalanche_vm::execution::Action;
use qomm_avalanche_vm::id::Id;
use qomm_avalanche_vm::order::{
    AdmissionBatchPlan, AdmissionCommitteePlan, AdmissionSlotAdvance, CertifiedAdmissionLane,
    SettlementVerifierConfig,
};
use qomm_avalanche_vm::state::State;
use qomm_avalanche_vm::table::Numbered;

fn id(byte: u8) -> Id {
    Id([byte; 32])
}

fn root(state: &State) -> Id {
    Id::digest(format!("{state:?}").as_bytes())
}

fn submission(before_root: Id, expected: Id, statement: Id) -> Submission {
    let mut submitted = Submission {
        before_root,
        expected_before_root: Some(hex::encode(expected.0)),
        approval: Ok(ApprovalDto {
            statement: hex::encode(statement.0),
            signer_epoch: 1,
            domain: "test-chain".into(),
            before_root: hex::encode(expected.0),
            approvals: vec![
                NodeApprovalDto {
                    node_id: "node-0".into(),
                    signature: "22".repeat(64),
                },
                NodeApprovalDto {
                    node_id: "node-1".into(),
                    signature: "33".repeat(64),
                },
            ],
        }),
        quorum: None,
    };
    submitted.quorum = quorum_check(statement, &submitted).ok();
    submitted
}

fn approved(state: &State, statement: Id) -> Submission {
    submission(root(state), root(state), statement)
}

fn seal(byte: u8) -> Seal {
    Seal {
        body: Ok(()),
        statement: Ok(id(byte)),
    }
}

fn act(state: &mut State, action: Action, timestamp: u64) -> Result<Id, String> {
    let submitted = approved(state, action.statement().unwrap_or(Id::zero()));
    state.apply(action, &submitted, timestamp)
}

fn committee() -> AdmissionCommitteePlan {
    AdmissionCommitteePlan {
        operation_id: id(159),
        venue_id: id(160),
        epoch: 7,
        node_keys: (0u8..7)
            .map(|node| Id(SigningKey::from_bytes(&[151 + node; 32]).verifying_key().to_bytes()))
            .collect(),
        valid_from: 1,
        valid_until: 1_000,
        seal: seal(1),
    }
}

fn lane(sequence: u64) -> SubmittedLane {
    let attestations: Vec<AdmissionAttestationDto> = (0u16..7)
        .map(|node| AdmissionAttestationDto {
            node,
            slot: 42,
            sequence,
            principal_digest: hex::encode([180 + sequence as u8; 32]),
            ticket_id: hex::encode([183 + sequence as u8; 32]),
            claim_digest: hex::encode([186 + sequence as u8; 32]),
            batch_digest: hex::encode([170 + node as u8; 32]),
            order_digest: hex::encode([161; 32]),
            signature: hex::encode([5; 64]),
        })
        .collect();
    let check = lane_check(&with_committee(), &batch(), &attestations).unwrap();
    SubmittedLane {
        attestations,
        check,
        certified: Ok(CertifiedLane {
            lane: CertifiedAdmissionLane {
                slot: 42,
                sequence,
                principal_digest: id(180 + sequence as u8),
                ticket_id: id(183 + sequence as u8),
                claim_digest: id(186 + sequence as u8),
                cluster_digest: id(177),
                order_digest: id(161),
            },
            digest: Some(id(sequence as u8)),
        }),
    }
}

fn batch() -> AdmissionBatchPlan {
    AdmissionBatchPlan {
        operation_id: id(190),
        batch_id: id(191),
        venue_id: id(160),
        epoch: 7,
        slot: 42,
        batch_digest: id(177),
        order_digest: id(161),
        admission_digests: vec![id(1), id(2)],
        expires_at: 500,
        seal: seal(2),
    }
}

fn advance(operation: u8, sequence: u64, digest: u8) -> AdmissionSlotAdvance {
    AdmissionSlotAdvance {
        operation_id: id(operation),
        batch_id: id(191),
        sequence,
        admission_digest: id(digest),
        seal: seal(operation),
    }
}

fn with_committee() -> State {
    let mut state = State::new();
    act(
        &mut state,
        Action::IssueAdmissionCommittee { plan: committee() },
        100,
    )
    .unwrap();
    state
}

fn register(
    state: &mut State,
    plan: AdmissionBatchPlan,
    lanes: Result<Vec<SubmittedLane>, String>,
) -> Result<Id, String> {
    act(state, Action::IssueAdmissionBatch { plan, lanes }, 100)
}

fn refuses(plan: AdmissionBatchPlan, lanes: Vec<SubmittedLane>, message: &str) {
    let mut state = with_committee();
    let before = state.share();
    assert_eq!(
        register(&mut state, plan, Ok(lanes)),
        Err(message.to_string())
    );
    assert_eq!(state, before);
}

#[test]
fn seven_node_admission_order_matches_native_defmi_and_cannot_skip_a_lane() {
    let mut state = with_committee();
    register(&mut state, batch(), Ok(vec![lane(1), lane(2)])).unwrap();
    let record = *state.admission_batches.get(&id(191)).unwrap();
    assert_eq!(record.population, 2);
    assert_eq!(record.consumed, 0);
    let entry = state
        .admission_entries
        .get(&Numbered {
            scope: id(191),
            number: 2,
        })
        .unwrap();
    assert_eq!(entry.admission_digest, id(2));
    assert_eq!(entry.consumed_by, Id::zero());

    let before_skip = state.share();
    assert!(act(
        &mut state,
        Action::IssueAdmissionAdvance {
            advance: advance(192, 2, 2),
        },
        100,
    )
    .unwrap_err()
    .contains("not the next"));
    assert_eq!(state, before_skip);

    for index in 0u8..2 {
        act(
            &mut state,
            Action::IssueAdmissionAdvance {
                advance: advance(193 + index, index as u64 + 1, index + 1),
            },
            100,
        )
        .expect("advance");
    }
    assert_eq!(state.admission_batches.get(&id(191)).unwrap().consumed, 2);
    assert!(act(
        &mut state,
        Action::IssueAdmissionAdvance {
            advance: advance(196, 3, 3),
        },
        100,
    )
    .is_err());
}

#[test]
fn lanes_are_planned_in_any_order_of_submission() {
    let mut state = with_committee();
    register(&mut state, batch(), Ok(vec![lane(2), lane(1)])).unwrap();
    assert_eq!(state.admission_entries.len(), 2);
}

#[test]
fn admission_batches_name_what_is_wrong() {
    refuses(
        batch(),
        vec![lane(1)],
        "admission batch differs from its certified population",
    );
    refuses(
        batch(),
        vec![lane(1), lane(1)],
        "admission batch differs from its seven-node certified population",
    );
    let mut short = lane(1);
    short.attestations.pop();
    refuses(
        batch(),
        vec![short, lane(2)],
        "admission lane needs exactly seven attestations",
    );
    let mut garbled = lane(1);
    garbled.attestations[6].ticket_id = "xx".into();
    refuses(
        batch(),
        vec![garbled, lane(2)],
        "admissionLanes.ticketID is not hexadecimal",
    );
    let mut uncertified = lane(2);
    uncertified.certified = Err("admission lane signature is invalid".into());
    refuses(
        batch(),
        vec![lane(1), uncertified],
        "admission lane signature is invalid",
    );
    let against = "admission lane was certified against something else";
    let mut another = lane(2);
    another.check = lane(1).check;
    refuses(batch(), vec![lane(1), another], against);
    let mut other_keys = lane(2);
    other_keys.check.node_keys[3] = id(3);
    refuses(batch(), vec![lane(1), other_keys], against);
    let mut other_epoch = lane(2);
    other_epoch.check.epoch = 8;
    refuses(batch(), vec![lane(1), other_epoch], against);
    let mut foreign = batch();
    foreign.venue_id = id(1);
    refuses(
        foreign,
        vec![lane(1), lane(2)],
        "admission batch has no governance-pinned resident committee",
    );
    let mut late = batch();
    late.expires_at = 99;
    refuses(late, vec![lane(1), lane(2)], "admission batch has expired");
    let mut state = with_committee();
    assert_eq!(
        register(&mut state, batch(), Err("lanes are malformed".into())),
        Err("lanes are malformed".to_string())
    );
}

#[test]
fn batches_and_committees_are_registered_once() {
    let mut state = with_committee();
    let mut again = committee();
    assert_eq!(
        act(
            &mut state,
            Action::IssueAdmissionCommittee { plan: committee() },
            100
        ),
        Err("operation identifier was already used".to_string())
    );
    again.operation_id = id(158);
    assert_eq!(
        act(
            &mut state,
            Action::IssueAdmissionCommittee { plan: again },
            100
        ),
        Err("admission committee venue and epoch were reused".to_string())
    );
    let mut late = committee();
    late.operation_id = id(158);
    late.epoch = 8;
    assert_eq!(
        act(
            &mut state,
            Action::IssueAdmissionCommittee { plan: late },
            1_001
        ),
        Err("admission committee is not currently valid".to_string())
    );
    register(&mut state, batch(), Ok(vec![lane(1), lane(2)])).unwrap();
    let mut renamed = batch();
    renamed.operation_id = id(189);
    renamed.batch_id = id(188);
    assert_eq!(
        register(&mut state, renamed, Ok(vec![lane(1), lane(2)])),
        Err("admission batch identifier or scope was reused".to_string())
    );
}

#[test]
fn advances_name_what_is_wrong() {
    let mut state = with_committee();
    register(&mut state, batch(), Ok(vec![lane(1), lane(2)])).unwrap();
    let mut unknown = advance(192, 1, 1);
    unknown.batch_id = id(1);
    assert_eq!(
        act(
            &mut state,
            Action::IssueAdmissionAdvance { advance: unknown },
            100
        ),
        Err("admission advance names an unknown batch".to_string())
    );
    assert_eq!(
        act(
            &mut state,
            Action::IssueAdmissionAdvance {
                advance: advance(192, 1, 1)
            },
            501
        ),
        Err("admission batch has expired".to_string())
    );
    assert_eq!(
        act(
            &mut state,
            Action::IssueAdmissionAdvance {
                advance: advance(192, 1, 2)
            },
            100
        ),
        Err("admission lane differs from the plan or was already consumed".to_string())
    );
}

#[test]
fn settlement_verifier_trust_anchor_has_the_same_native_and_vm_root() {
    let config = || SettlementVerifierConfig {
        venue_id: id(41),
        defmi_id: id(42),
        epoch: 9,
        quote_registry_digest: id(43),
        quote_eligibility_bits: 16,
        quote_span_bits: 24,
        amount_bits: 16,
        price_bits: 32,
        max_horizon: 3_600,
        frost_public_package: vec![1, 2, 3],
        valid_from: 1,
        valid_until: 1_000,
        key: id(44),
        statement: Ok(id(45)),
    };
    let mut state = State::new();
    assert_eq!(
        act(
            &mut state,
            Action::IssueSettlementVerifier { config: config() },
            1_001
        ),
        Err("settlement verifier is not currently valid".to_string())
    );
    assert_eq!(
        act(
            &mut state,
            Action::IssueSettlementVerifier { config: config() },
            100
        ),
        Ok(id(45))
    );
    let record = state.settlement_verifiers.get(&id(44)).unwrap();
    assert_eq!(record.epoch, 9);
    assert_eq!(record.frost_public_package, vec![1, 2, 3]);
    assert_eq!(record.statement, id(45));
    assert_eq!(
        act(
            &mut state,
            Action::IssueSettlementVerifier { config: config() },
            100
        ),
        Err("settlement verifier venue and epoch were reused".to_string())
    );
}
