use curve25519_dalek::constants::RISTRETTO_BASEPOINT_POINT as G;
use curve25519_dalek::scalar::Scalar;
use qomm_avalanche_vm::endorsement::{quorum_check, ApprovalDto, NodeApprovalDto, Seal, Submission};
use qomm_avalanche_vm::execution::notes::{issuer_check, IssuerVerdict};
use qomm_avalanche_vm::execution::Action;
use qomm_avalanche_vm::id::Id;
use qomm_avalanche_vm::order::{
    CsdIssuerControl, CsdIssuerControlKind, CsdIssuerDefinition, NoteClaimMaterialization,
    NoteIssuance, NoteOutput, NoteSettlementOrder, NoteSpend,
};
use qomm_avalanche_vm::state::{
    AssetKind, AssetRecord, ClaimStatus, CreditHoldRecord, HoldStatus, NoteClaimKind,
    NoteClaimRecord, OpeningEnvelope, OpeningShare, State,
};
use std::sync::Arc;

fn id(byte: u8) -> Id {
    Id([byte; 32])
}

fn root(state: &State) -> Id {
    Id::digest(format!("{state:?}").as_bytes())
}

fn submission(before_root: Id, expected: Id, statement: Id) -> Submission {
    let mut submitted = Submission {
        before_root,
        expected_before_root: Some(hex::encode(expected.0)),
        approval: Ok(ApprovalDto {
            statement: hex::encode(statement.0),
            signer_epoch: 1,
            domain: "test-chain".into(),
            before_root: hex::encode(expected.0),
            approvals: vec![
                NodeApprovalDto {
                    node_id: "node-0".into(),
                    signature: "22".repeat(64),
                },
                NodeApprovalDto {
                    node_id: "node-1".into(),
                    signature: "33".repeat(64),
                },
            ],
        }),
        quorum: None,
    };
    submitted.quorum = quorum_check(statement, &submitted).ok();
    submitted
}

fn approved(state: &State, statement: Id) -> Submission {
    submission(root(state), root(state), statement)
}

fn seal(byte: u8) -> Seal {
    Seal {
        body: Ok(()),
        statement: Ok(id(byte)),
    }
}

const ZERO: Id = Id([0; 32]);

fn act(state: &mut State, action: Action, timestamp: u64) -> Result<Id, String> {
    let submitted = approved(state, action.statement().unwrap_or(Id::zero()));
    state.apply(action, &submitted, timestamp)
}

fn point(scalar: u64) -> Id {
    Id((G * Scalar::from(scalar)).compress().to_bytes())
}

fn note(seed: u64, value_commitment: Id, lock_id: Id) -> NoteOutput {
    NoteOutput {
        note_id: Id::digest(&[seed as u8]),
        asset_id: id(42),
        one_time: point(seed * 3 + 1),
        value_commitment,
        ephemeral: point(seed * 3 + 2),
        masked_value: Id(Scalar::from(seed * 3 + 3).to_bytes()),
        masked_blinding: Id(Scalar::from(seed * 3 + 4).to_bytes()),
        lock_id,
        shape: Ok(()),
    }
}

fn note_id(seed: u8) -> Id {
    Id::digest(&[seed])
}

fn issuer() -> CsdIssuerDefinition {
    CsdIssuerDefinition {
        issuer_id: id(43),
        code: "QOMM-CSD".into(),
        jurisdiction: "JP".into(),
        operator_entity_commitment: id(45),
        public_key: id(41),
        permitted_asset_ids: vec![id(42)],
        policy_digest: id(46),
        valid_from: 1,
        valid_until: 1_000,
        seal: seal(200),
    }
}

fn issuance(operation: u8, seed: u64, value: u64) -> NoteIssuance {
    NoteIssuance {
        operation_id: id(operation),
        issuance_nonce: id(operation + 1),
        issuer_id: id(43),
        issued_at: 100,
        output: note(seed, point(value), ZERO),
        proof_digest: id(operation + 2),
        issuer_signature: [7; 64],
        seal: seal(operation),
    }
}

fn issue(
    state: &mut State,
    issuance: NoteIssuance,
    verdict: Result<(), String>,
    timestamp: u64,
) -> Result<Id, String> {
    let mut known = with_asset();
    act(&mut known, Action::IssueCsdIssuer { issuer: issuer() }, 100).unwrap();
    let known_check = issuer_check(&known, &self::issuance(47, 1, 50), timestamp).unwrap();
    let check = issuer_check(state, &issuance, timestamp).unwrap_or(known_check);
    let issuer = IssuerVerdict { check, verdict };
    act(state, Action::IssueNote { issuance, issuer }, timestamp)
}

fn control(
    operation: u8,
    kind: CsdIssuerControlKind,
    before_sequence: u64,
) -> CsdIssuerControl {
    CsdIssuerControl {
        operation_id: id(operation),
        issuer_id: id(43),
        kind,
        before_sequence,
        reason_digest: id(operation + 1),
        seal: seal(operation),
    }
}

fn with_asset() -> State {
    let mut state = State::new();
    state.assets.insert(
        id(42),
        AssetRecord {
            code: "JPY".into(),
            kind: AssetKind::Cash,
            decimals: 0,
            terms_digest: id(44),
            active: true,
        },
    );
    state
}

fn with_notes() -> State {
    let mut state = with_asset();
    act(&mut state, Action::IssueCsdIssuer { issuer: issuer() }, 100).unwrap();
    for (operation, seed) in [(47, 1), (52, 2)] {
        issue(&mut state, issuance(operation, seed, 50 + seed), Ok(()), 100).unwrap();
    }
    state
}

fn spend(output: NoteOutput) -> NoteSpend {
    NoteSpend {
        asset_id: id(42),
        ring: vec![note_id(1), note_id(2)],
        ring_root: id(99),
        serial_point: point(66),
        input_lock_id: ZERO,
        proof_digest: id(67),
        outputs: vec![output],
        shape: Ok(()),
    }
}

fn settlement(operation: u8, nullifier: u8, spend: NoteSpend) -> NoteSettlementOrder {
    NoteSettlementOrder {
        operation_id: id(operation),
        nullifier: id(nullifier),
        deadline: 300,
        payment_instruction_digest: id(70),
        market_statement_digest: id(71),
        dvp_proof_digest: id(72),
        spends: vec![spend],
        seal: seal(operation),
    }
}

fn refuses_settlement(change: fn(&mut NoteSettlementOrder), timestamp: u64, message: &str) {
    let mut state = with_notes();
    let mut order = settlement(68, 69, spend(note(4, point(65), ZERO)));
    change(&mut order);
    let before = state.share();
    assert_eq!(
        act(
            &mut state,
            Action::IssueNoteSettlement { order },
            timestamp
        ),
        Err(message.to_string())
    );
    assert_eq!(state, before);
}

#[test]
fn csd_note_lifecycle_is_signed_account_free_and_replay_safe() {
    let mut state = with_asset();
    act(&mut state, Action::IssueCsdIssuer { issuer: issuer() }, 100)
        .expect("register CSD issuer");
    assert_eq!(
        state.csd_issuers.get(&id(43)).unwrap().status.as_str(),
        "active"
    );

    let before_invalid_signature = state.share();
    assert!(issue(
        &mut state,
        issuance(47, 1, 50),
        Err("CSD issuer signature is invalid".into()),
        100,
    )
    .unwrap_err()
    .contains("signature is invalid"));
    assert_eq!(state, before_invalid_signature);

    issue(&mut state, issuance(47, 1, 50), Ok(()), 100).expect("issue first note");
    issue(&mut state, issuance(52, 2, 51), Ok(()), 101).expect("issue second note");
    assert_eq!(
        state.accounts.len(),
        0,
        "note rail must not create accounts"
    );
    assert_eq!(state.notes.len(), 2);

    act(
        &mut state,
        Action::IssueCsdIssuerControl {
            control: control(55, CsdIssuerControlKind::Suspend, 0),
        },
        102,
    )
    .expect("suspend issuer");

    let suspended_state = state.share();
    assert!(issue(&mut state, issuance(57, 3, 59), Ok(()), 102)
        .unwrap_err()
        .contains("not active"));
    assert_eq!(state, suspended_state);

    for control in [
        control(61, CsdIssuerControlKind::Activate, 1),
        control(63, CsdIssuerControlKind::Revoke, 2),
    ] {
        act(&mut state, Action::IssueCsdIssuerControl { control }, 103)
            .expect("apply CSD control");
    }
    assert_eq!(
        state.csd_issuers.get(&id(43)).unwrap().status.as_str(),
        "revoked"
    );

    act(
        &mut state,
        Action::IssueNoteSettlement {
            order: settlement(68, 69, spend(note(4, point(65), ZERO))),
        },
        120,
    )
    .expect("settle notes after issuer revocation");
    assert!(state.notes.contains_key(&note_id(4)));
    assert!(state.note_serials.contains_key(&point(66)));

    let before_replay = state.share();
    assert!(act(
        &mut state,
        Action::IssueNoteSettlement {
            order: settlement(74, 75, spend(note(5, point(73), ZERO))),
        },
        121,
    )
    .unwrap_err()
    .contains("serial was already settled"));
    assert_eq!(state, before_replay);

    state.credit_holds.insert(
        id(76),
        CreditHoldRecord {
            facility_id: id(77),
            query_commitment: id(78),
            amount_commitment: id(79),
            expires_at: 400,
            status: HoldStatus::Consumed,
            settlement_digest: id(80),
            created_sequence: 1,
            updated_sequence: 2,
        },
    );
    state.note_claims.insert(
        id(91),
        NoteClaimRecord {
            asset_id: id(42),
            value_commitment: point(86),
            recipient_commitment: id(87),
            source_hold_id: id(76),
            kind: NoteClaimKind::Delivery,
            opening_envelope: Arc::new(OpeningEnvelope {
                context: id(81),
                threshold: 1,
                recipient_view: point(82),
                shares: vec![OpeningShare {
                    party: 1,
                    ephemeral: point(83),
                    masked_value: Id(Scalar::from(84_u64).to_bytes()),
                    masked_blinding: Id(Scalar::from(85_u64).to_bytes()),
                }],
            }),
            status: ClaimStatus::Active,
            settlement_digest: id(88),
            materialization: ZERO,
        },
    );
    let materialization = |output: NoteOutput| NoteClaimMaterialization {
        operation_id: id(89),
        claim_id: id(91),
        output,
        ownership_proof_digest: id(90),
        seal: seal(89),
    };
    assert_eq!(
        act(
            &mut state,
            Action::IssueNoteClaimMaterialization {
                materialization: materialization(note(6, point(87), ZERO)),
            },
            130,
        ),
        Err("claim materialization changes a final entitlement".to_string())
    );
    act(
        &mut state,
        Action::IssueNoteClaimMaterialization {
            materialization: materialization(note(6, point(86), ZERO)),
        },
        130,
    )
    .expect("materialize final entitlement");
    assert_eq!(
        state.note_claims.get(&id(91)).unwrap().status.as_str(),
        "materialized"
    );
    assert!(state.notes.contains_key(&note_id(6)));
    assert_eq!(
        state.accounts.len(),
        0,
        "materialization stays account-free"
    );
    let mut again = materialization(note(7, point(86), ZERO));
    again.operation_id = id(92);
    assert_eq!(
        act(
            &mut state,
            Action::IssueNoteClaimMaterialization {
                materialization: again,
            },
            130,
        ),
        Err("claim materialization changes a final entitlement".to_string())
    );
}

#[test]
fn note_settlements_name_what_is_wrong() {
    refuses_settlement(|_| {}, 301, "note settlement has expired");
    refuses_settlement(
        |order| order.operation_id = id(47),
        120,
        "operation identifier was already used",
    );
    refuses_settlement(
        |order| order.spends[0].asset_id = id(1),
        120,
        "note spend uses an inactive or unknown asset",
    );
    refuses_settlement(
        |order| order.spends[0].ring[1] = id(1),
        120,
        "note anonymity set names an unknown note",
    );
    refuses_settlement(
        |order| order.spends[0].input_lock_id = id(1),
        120,
        "ordinary note settlement cannot consume a reservation lock",
    );
    refuses_settlement(
        |order| order.spends[0].outputs[0].lock_id = id(1),
        120,
        "ordinary note settlement cannot create a reservation lock",
    );
    refuses_settlement(
        |order| order.spends[0].outputs[0].note_id = note_id(1),
        120,
        "note spend reuses an existing output",
    );
    refuses_settlement(
        |order| order.seal.statement = Err("no statement".into()),
        120,
        "no statement",
    );
}

#[test]
fn note_issuances_name_what_is_wrong() {
    let refuses = |change: fn(&mut NoteIssuance), timestamp: u64, message: &str| {
        let mut state = with_notes();
        let mut order = issuance(57, 3, 59);
        change(&mut order);
        let before = state.share();
        assert_eq!(
            issue(&mut state, order, Ok(()), timestamp),
            Err(message.to_string())
        );
        assert_eq!(state, before);
    };
    refuses(|_| {}, 0, "note issuance has no consensus timestamp");
    refuses(
        |order| order.issuance_nonce = id(48),
        100,
        "note issuance reuses an operation, nonce, or note",
    );
    refuses(
        |order| order.issuer_id = id(1),
        100,
        "note issuance names an unknown CSD issuer",
    );
}

#[test]
fn locked_notes_stay_out_of_ordinary_spends() {
    let mut state = with_notes();
    let mut locked = *state.notes.get(&note_id(2)).unwrap();
    locked.lock_id = id(9);
    state.notes.insert(note_id(2), locked);
    assert_eq!(
        act(
            &mut state,
            Action::IssueNoteSettlement {
                order: settlement(68, 69, spend(note(4, point(65), ZERO))),
            },
            120,
        ),
        Err("ordinary note spend includes a reservation-locked note".to_string())
    );
}

#[test]
fn issuers_are_controlled_in_sequence_and_revoked_for_good() {
    let mut state = with_notes();
    let stale = "CSD issuer control used stale or terminal state".to_string();
    assert_eq!(
        act(
            &mut state,
            Action::IssueCsdIssuerControl {
                control: control(55, CsdIssuerControlKind::Suspend, 1),
            },
            100,
        ),
        Err(stale.clone())
    );
    act(
        &mut state,
        Action::IssueCsdIssuerControl {
            control: control(55, CsdIssuerControlKind::Revoke, 0),
        },
        100,
    )
    .unwrap();
    assert_eq!(
        act(
            &mut state,
            Action::IssueCsdIssuerControl {
                control: control(61, CsdIssuerControlKind::Activate, 1),
            },
            100,
        ),
        Err(stale)
    );
    assert_eq!(state.csd_issuers.get(&id(43)).unwrap().sequence, 1);
    let mut unknown = control(63, CsdIssuerControlKind::Revoke, 0);
    unknown.issuer_id = id(1);
    assert_eq!(
        act(
            &mut state,
            Action::IssueCsdIssuerControl { control: unknown },
            100,
        ),
        Err("CSD issuer is unknown".to_string())
    );
}

#[test]
fn issuers_need_validity_and_active_assets() {
    let mut state = with_asset();
    assert_eq!(
        act(
            &mut state,
            Action::IssueCsdIssuer { issuer: issuer() },
            1_001
        ),
        Err("CSD issuer validity already ended".to_string())
    );
    let mut other = issuer();
    other.permitted_asset_ids.push(id(1));
    assert_eq!(
        act(&mut state, Action::IssueCsdIssuer { issuer: other }, 100),
        Err("CSD issuer permits an inactive or unknown asset".to_string())
    );
    act(&mut state, Action::IssueCsdIssuer { issuer: issuer() }, 100).unwrap();
    assert_eq!(
        act(&mut state, Action::IssueCsdIssuer { issuer: issuer() }, 100),
        Err("CSD issuer identifier was already registered".to_string())
    );
}

#[test]
fn an_issuer_is_verified_for_its_own_statement_key_and_time() {
    let mut state = with_asset();
    act(&mut state, Action::IssueCsdIssuer { issuer: issuer() }, 100).unwrap();
    let before = state.share();
    let refused = Err("note issuer was verified against something else".to_string());
    for index in 0..4 {
        let order = issuance(47, 1, 50);
        let mut check = issuer_check(&state, &order, 100).unwrap();
        match index {
            0 => check.now = 99,
            1 => check.statement = id(1),
            2 => check.public_key = id(1),
            _ => check.permitted_asset_ids = Arc::new(vec![id(42), id(1)]),
        }
        let issuer = IssuerVerdict {
            check,
            verdict: Ok(()),
        };
        let action = Action::IssueNote {
            issuance: order,
            issuer,
        };
        assert_eq!(act(&mut state, action, 100), refused);
        assert_eq!(state, before);
    }
    assert_eq!(issue(&mut state, issuance(47, 1, 50), Ok(()), 100), Ok(id(47)));
}
