use qomm_avalanche_vm::aethel_book::{
    AethelBook, CredentialIssuer, Provider, ProviderCapability, ProviderStatus, StatusList,
};
use qomm_avalanche_vm::clearing_book::{
    ClearingBook, ClearingHoldStatus, ClearingMember, ConfidentialFacility, ConfidentialHold,
};
use qomm_avalanche_vm::endorsement::{quorum_check, ApprovalDto, NodeApprovalDto, Submission};
use qomm_avalanche_vm::execution::clearing_question::{ClearingAnswer, ClearingQuestion};
use qomm_avalanche_vm::execution::deccp::{
    capital_lock_tag, clearing_book, default_fund_lock_tag, initial_facility_state,
    membership_context, membership_scope_digest, next_facility_state, verify_admission,
    CcpCapitalization, ClearingBookRegistration,
    ConfidentialRequest, ConfidentialReservation, EligibilityAttestation, FacilityTransition,
    ParticipantAdmission, PresentationFindings, SettlementReceipt, VerifiedEligibility,
    VmDefmiPort,
};
use qomm_avalanche_vm::execution::{Action, Method};
use qomm_avalanche_vm::id::Id;
use qomm_avalanche_vm::state::{
    AssetKind, AssetRecord, CreditFacilityRecord, CreditHoldRecord, FacilityStatus, HoldStatus,
    NoteRecord, State,
};
use qomm_avalanche_vm::table::{Numbered, Table};
use std::sync::Arc;

fn id(byte: u8) -> Id {
    Id([byte; 32])
}

fn root(state: &State) -> Id {
    Id::digest(format!("{state:?}").as_bytes())
}

fn submission(before_root: Id, expected: Id, statement: Id) -> Submission {
    let mut submitted = Submission {
        before_root,
        expected_before_root: Some(hex::encode(expected.0)),
        approval: Ok(ApprovalDto {
            statement: hex::encode(statement.0),
            signer_epoch: 1,
            domain: "test-chain".into(),
            before_root: hex::encode(expected.0),
            approvals: vec![
                NodeApprovalDto {
                    node_id: "node-0".into(),
                    signature: "22".repeat(64),
                },
                NodeApprovalDto {
                    node_id: "node-1".into(),
                    signature: "33".repeat(64),
                },
            ],
        }),
        quorum: None,
    };
    submitted.quorum = quorum_check(statement, &submitted).ok();
    submitted
}

fn approved(state: &State, statement: Id) -> Submission {
    submission(root(state), root(state), statement)
}

fn act(state: &mut State, action: Action) -> Result<Id, String> {
    let submitted = approved(state, action.statement().unwrap_or(Id::zero()));
    state.apply(action, &submitted, 100)
}

fn answer(
    question: ClearingQuestion,
    book: Result<Arc<ClearingBook>, String>,
) -> ClearingAnswer {
    ClearingAnswer {
        question,
        now: 100,
        book,
    }
}

fn empty_book(capital_lock: Id) -> ClearingBook {
    ClearingBook {
        capital_lock,
        facilities: Table::new(),
        holds: Table::new(),
        members: Table::new(),
    }
}

fn provider(capabilities: Vec<ProviderCapability>) -> Provider {
    Provider {
        participant_id: id(31),
        public_key: id(32),
        registration_key: id(32),
        defmi_guarantor_id: Some(id(33)),
        capabilities,
        valid_from: 1,
        valid_until: 1_000,
        sequence: 0,
        status: ProviderStatus::Active,
    }
}

const EPOCH: Numbered = Numbered {
    scope: Id([34; 32]),
    number: 1,
};

fn dekyx() -> CredentialIssuer {
    CredentialIssuer {
        public_key: id(35),
        namespace_digest: id(36),
        valid_from: 1,
        valid_until: 900,
        active: true,
    }
}

fn status_list(revoked: Vec<Id>) -> StatusList {
    StatusList {
        status_epoch: 1,
        valid_from: 1,
        valid_until: 900,
        revoked,
    }
}

fn fixture() -> State {
    let mut state = State::new();
    let mut book = AethelBook::new();
    book.providers
        .insert(id(30), provider(vec![ProviderCapability::Guarantor]));
    book.providers
        .insert(id(34), provider(vec![ProviderCapability::CredentialIssuer]));
    book.credential_issuers.insert(EPOCH, dekyx());
    book.status_lists.insert(EPOCH, status_list(vec![]));
    state.aethel = Arc::new(book);
    state.assets.insert(
        id(1),
        AssetRecord {
            code: "JPY".into(),
            kind: AssetKind::Cash,
            decimals: 0,
            terms_digest: id(2),
            active: true,
        },
    );
    for (note_id, lock_id) in [
        (id(3), capital_lock_tag()),
        (id(4), default_fund_lock_tag(id(30))),
    ] {
        state.notes.insert(
            note_id,
            NoteRecord {
                asset_id: id(1),
                one_time: id(5),
                value_commitment: id(6),
                ephemeral: id(7),
                masked_value: id(8),
                masked_blinding: id(9),
                lock_id,
            },
        );
    }
    state.credit_facilities.insert(
        id(40),
        CreditFacilityRecord {
            guarantor_id: id(33),
            beneficiary_commitment: id(41),
            rail_asset_id: id(1),
            cap_commitment: id(42),
            available_commitment: id(42),
            held_commitment: Id::zero(),
            outstanding_commitment: Id::zero(),
            overlimit_commitment: Id::zero(),
            collateral_commitment: id(43),
            risk_policy_digest: id(44),
            valid_from: 1,
            valid_until: 1_000,
            status: FacilityStatus::Active,
            sequence: 1,
        },
    );
    state.credit_holds.insert(
        id(50),
        CreditHoldRecord {
            facility_id: id(40),
            query_commitment: id(51),
            amount_commitment: id(52),
            expires_at: 900,
            status: HoldStatus::Active,
            settlement_digest: Id::zero(),
            created_sequence: 3,
            updated_sequence: 4,
        },
    );
    state
}

fn facility(state: &State) -> ConfidentialFacility {
    ConfidentialFacility {
        facility_id: id(40),
        guarantor_id: id(30),
        defmi_facility_id: id(40),
        settlement_asset_id: id(1),
        capacity_commitment: id(42),
        beneficiary_subject_line_id: id(41),
        sequence: 0,
        latest_facility_state_digest: initial_facility_state(
            id(40),
            state.credit_facilities.get(&id(40)).unwrap(),
        ),
        valid_until: 800,
    }
}

fn registration() -> ClearingBookRegistration {
    ClearingBookRegistration {
        operation_id: id(60),
        capitalization: CcpCapitalization {
            defmi_lock_id: id(3),
            proof_digest: id(6),
            valid_until: 800,
        },
        authorities: Ok(()),
        encoded: Ok(vec![1, 2, 3]),
    }
}

fn admission() -> ParticipantAdmission {
    ParticipantAdmission {
        operation_id: id(61),
        participant_id: id(30),
        settlement_participant_id: id(31),
        eligibility: EligibilityAttestation {
            provider_id: id(34),
            subject_line_id: id(62),
            policy_digest: id(63),
            evidence_digest: id(64),
            valid_until: 700,
        },
        default_fund_contribution: vec![0, 0, 5],
        default_fund_defmi_lock_id: id(4),
        default_fund_proof_digest: id(6),
        admitted_at: 100,
    }
}

fn presentation() -> PresentationFindings {
    PresentationFindings {
        issuer_id: id(34),
        issuer_key_epoch: 1,
        issuer: dekyx(),
        status_list: Some(Arc::new(status_list(vec![]))),
        context: membership_context(&empty_book(id(3)), &admission()),
        policy_digest: id(63),
        now: 100,
        verified: Ok(VerifiedEligibility {
            subject_line_id: id(62),
            policy_digest: id(63),
            valid_until: 700,
        }),
        digest: Ok(id(64)),
    }
}

#[test]
fn digests_are_separated_by_their_domains() {
    assert_eq!(
        membership_scope_digest(),
        Id::digest(b"AETHEL-DECCP:CLEARING-MEMBERSHIP-SCOPE:v1")
    );
    assert_eq!(
        capital_lock_tag(),
        Id::digest(b"AETHEL-DECCP:CCP-CAPITAL-LOCK:v1")
    );
    let mut bytes = b"AETHEL-DECCP:DEFAULT-FUND-LOCK:v1".to_vec();
    bytes.extend_from_slice(&[7; 32]);
    assert_eq!(default_fund_lock_tag(id(7)), Id::digest(&bytes));
    let mut bytes = b"AETHEL-DECCP:FACILITY-STATE:v1".to_vec();
    for part in [[40; 32], [42; 32], [43; 32]] {
        bytes.extend_from_slice(&part);
    }
    let state = fixture();
    assert_eq!(
        initial_facility_state(id(40), state.credit_facilities.get(&id(40)).unwrap()),
        Id::digest(&bytes)
    );
    let mut bytes = b"AETHEL-DECCP:FACILITY-TRANSITION:v1".to_vec();
    bytes.extend_from_slice(&[1; 32]);
    bytes.push(2);
    bytes.extend_from_slice(&[3; 32]);
    bytes.extend_from_slice(&[4; 32]);
    bytes.extend_from_slice(&5_u64.to_be_bytes());
    assert_eq!(
        next_facility_state(id(1), FacilityTransition::Release, id(3), id(4), 5),
        Id::digest(&bytes)
    );
    assert_eq!(FacilityTransition::Reserve.tag(), 1);
    assert_eq!(FacilityTransition::Claim.tag(), 3);
    let mut bytes = b"AETHEL-DECCP:CLEARING-BOOK:v1".to_vec();
    bytes.extend_from_slice(&3_u64.to_be_bytes());
    bytes.extend_from_slice(&[1, 2, 3]);
    assert_eq!(registration().statement(), Ok(Id::digest(&bytes)));
}

#[test]
fn registrations_need_an_operation_and_authorities() {
    let mut request = registration();
    request.operation_id = Id::zero();
    assert_eq!(
        request.statement(),
        Err("DeCCP clearing book registration has no operation id".to_string())
    );
    let mut request = registration();
    request.authorities = Err("authority set is too small".into());
    assert_eq!(
        request.statement(),
        Err("authority set is too small".to_string())
    );
    let mut request = registration();
    request.encoded = Err("cannot encode".into());
    assert_eq!(request.statement(), Err("cannot encode".to_string()));
}

#[test]
fn the_clearing_book_is_opened_once() {
    let mut state = fixture();
    assert!(clearing_book(&state).is_err());
    let open = |request: ClearingBookRegistration| Action::IssueDeccpClearingBook {
        opened: answer(
            ClearingQuestion::Open {
                statement: request.statement().unwrap(),
                capitalization: request.capitalization,
            },
            Ok(Arc::new(empty_book(request.capitalization.defmi_lock_id))),
        ),
        request,
    };
    let statement = registration().statement().unwrap();
    let stranger = approved(&state, id(199));
    assert_eq!(
        state.apply(open(registration()), &stranger, 100),
        Err("k-of-n DeFMI approval is invalid".to_string())
    );
    let refuses = |change: &dyn Fn(&mut ClearingAnswer), message: &str| {
        let mut state = fixture();
        let mut action = open(registration());
        if let Action::IssueDeccpClearingBook { opened, .. } = &mut action {
            change(opened);
        }
        assert_eq!(act(&mut state, action), Err(message.to_string()));
        assert_eq!(state, fixture());
    };
    refuses(
        &|opened| {
            opened.question = ClearingQuestion::Open {
                statement: id(1),
                capitalization: registration().capitalization,
            }
        },
        "the clearing book was asked something else",
    );
    refuses(
        &|opened| opened.book = Ok(Arc::new(empty_book(id(1)))),
        "the clearing book does not hold what was asked for",
    );
    refuses(
        &|opened| {
            let mut filled = empty_book(id(3));
            filled.facilities.insert(id(40), facility(&fixture()));
            opened.book = Ok(Arc::new(filled));
        },
        "the clearing book does not hold what was asked for",
    );
    refuses(
        &|opened| opened.book = Err("no capital".into()),
        "DeCCP refused the clearing book: no capital",
    );
    // Capital that is not locked for the counterparty does not open it.
    let mut unlocked = registration();
    unlocked.capitalization.defmi_lock_id = id(4);
    assert_eq!(
        act(&mut state, open(unlocked)),
        Err(
            "DeCCP refused the clearing book: CCP capital note is not locked for that purpose"
                .to_string()
        )
    );
    let mut late = registration();
    late.capitalization.valid_until = 99;
    assert_eq!(
        act(&mut state, open(late)),
        Err("DeCCP refused the clearing book: CCP capital lock has expired".to_string())
    );
    assert_eq!(state, fixture());
    assert_eq!(act(&mut state, open(registration())), Ok(statement));
    assert_eq!(clearing_book(&state).unwrap().capital_lock, id(3));
    assert_eq!(state.operations.get(&id(60)), Some(&statement));
    assert_eq!(
        act(&mut state, open(registration())),
        Err("Aethel operation identifier was already used".to_string())
    );
    let mut again = registration();
    again.operation_id = id(59);
    assert_eq!(
        act(&mut state, open(again)),
        Err("this VM already hosts a DeCCP clearing book".to_string())
    );
}

fn joined() -> ClearingBook {
    let mut book = empty_book(id(3));
    book.members.insert(
        id(30),
        ClearingMember {
            subject_line_id: id(62),
        },
    );
    book
}

fn joining(request: ParticipantAdmission) -> Action {
    let question = ClearingQuestion::Admit {
        statement: id(65),
        context: membership_context(&empty_book(id(3)), &request),
        participant_id: request.participant_id,
        subject_line_id: request.eligibility.subject_line_id,
    };
    let mut presented = presentation();
    presented.context = membership_context(&empty_book(id(3)), &request);
    Action::IssueDeccpMember {
        statement: Ok(id(65)),
        parsed: Ok(()),
        presentation: presented,
        admitted: answer(question, Ok(Arc::new(joined()))),
        request,
    }
}

#[test]
fn members_are_guarantor_providers_of_their_participant() {
    let mut state = fixture();
    assert_eq!(
        act(&mut state, joining(admission())),
        Err("this VM hosts no DeCCP clearing book".to_string())
    );
    state.deccp = Some(Arc::new(empty_book(id(3))));
    let hosted = state.share();
    let mut foreign = admission();
    foreign.settlement_participant_id = id(1);
    assert!(act(&mut state, joining(foreign))
        .unwrap_err()
        .contains("active Aethel guarantor provider"));
    let mut unknown = admission();
    unknown.participant_id = id(1);
    assert_eq!(
        act(&mut state, joining(unknown)),
        Err("unknown provider".to_string())
    );
    // The provider is outside its validity.
    let submitted = approved(&state, id(65));
    assert!(state
        .apply(joining(admission()), &submitted, 1_001)
        .unwrap_err()
        .contains("active Aethel guarantor provider"));
    let mut elsewhere = joining(admission());
    if let Action::IssueDeccpMember { admitted, .. } = &mut elsewhere {
        if let ClearingQuestion::Admit { context, .. } = &mut admitted.question {
            *context = membership_context(&empty_book(id(2)), &admission());
        }
    }
    assert_eq!(
        act(&mut state, elsewhere),
        Err("the clearing book was asked something else".to_string())
    );
    let mut absent = joining(admission());
    if let Action::IssueDeccpMember { admitted, .. } = &mut absent {
        admitted.book = Ok(Arc::new(empty_book(id(3))));
    }
    assert_eq!(
        act(&mut state, absent),
        Err("the clearing book does not hold what was asked for".to_string())
    );
    // Without the subject line proved, or the default fund locked, nobody joins.
    let mut unproved = joining(admission());
    if let Action::IssueDeccpMember { presentation, .. } = &mut unproved {
        presentation.verified = Err("expired".into());
    }
    assert_eq!(
        act(&mut state, unproved),
        Err(
            "DeCCP refused the admission: DeKYX rejected the membership evidence: expired"
                .to_string()
        )
    );
    let mut unfunded = admission();
    unfunded.default_fund_defmi_lock_id = id(3);
    assert_eq!(
        act(&mut state, joining(unfunded)),
        Err(
            "DeCCP refused the admission: default fund note is not locked for that purpose"
                .to_string()
        )
    );
    assert_eq!(state, hosted);
    assert_eq!(act(&mut state, joining(admission())), Ok(id(65)));
    assert!(state.operations.contains_key(&id(61)));
    assert_eq!(clearing_book(&state).unwrap().members.len(), 1);
}

#[test]
fn guarantee_facilities_carry_the_name_of_their_credit_facility() {
    let mut state = fixture();
    state.deccp = Some(Arc::new(joined()));
    let mut record = facility(&state);
    record.facility_id = id(1);
    let mut register = |facility: ConfidentialFacility, book| {
        let question = ClearingQuestion::Register {
            operation_id: id(66),
            facility,
        };
        act(
            &mut state,
            Action::IssueDeccpGuaranteeFacility {
                operation_id: id(66),
                facility,
                statement: id(67),
                parsed: Ok(()),
                registered: answer(question, book),
            },
        )
    };
    let holding = |facility: ConfidentialFacility| {
        let mut book = joined();
        book.facilities.insert(facility.facility_id, facility);
        Ok(Arc::new(book))
    };
    assert_eq!(
        register(record, holding(record)),
        Err("DeCCP facility id must be the DeFMI facility id it is backed by".to_string())
    );
    record.facility_id = id(40);
    assert_eq!(
        register(record, Err("stale".into())),
        Err("DeCCP refused the guarantee facility: stale".to_string())
    );
    let unheld = Err("the clearing book does not hold what was asked for".to_string());
    assert_eq!(register(record, Ok(Arc::new(joined()))), unheld);
    let mut other = record;
    other.valid_until = 700;
    assert_eq!(register(record, holding(other)), unheld);
    let mut forgetful = empty_book(id(3));
    forgetful.facilities.insert(id(40), record);
    assert_eq!(register(record, Ok(Arc::new(forgetful))), unheld);
    let mut started = record;
    started.latest_facility_state_digest = id(9);
    assert_eq!(
        register(started, holding(started)),
        Err(
            "DeCCP refused the guarantee facility: DeCCP facility does not start from the DeFMI facility state"
                .to_string()
        )
    );
    assert_eq!(register(record, holding(record)), Ok(id(67)));
    assert_eq!(
        clearing_book(&state).unwrap().facilities.get(&id(40)),
        Some(&record)
    );
}

#[test]
fn clearing_transactions_have_names_and_parameters() {
    for (name, method, fields) in [
        (
            "ClearingBook",
            Method::IssueDeccpClearingBook,
            vec!["request"],
        ),
        (
            "Member",
            Method::IssueDeccpMember,
            vec!["request", "subjectProof", "deccpApproval"],
        ),
        (
            "GuaranteeFacility",
            Method::IssueDeccpGuaranteeFacility,
            vec!["request", "deccpApproval"],
        ),
    ] {
        assert_eq!(
            Method::from_name(&format!("defmivm.issueDeccp{name}")),
            Ok(method)
        );
        assert_eq!(method.fields(), fields);
        let mut keys: Vec<String> = fields.iter().map(|key| key.to_string()).collect();
        assert!(method.check_keys(&keys).is_err());
        keys.push("approval".into());
        keys.push("expectedBeforeRoot".into());
        assert_eq!(method.check_keys(&keys), Ok(()));
    }
}

#[test]
fn presentations_prove_exactly_the_attested_line() {
    let state = fixture();
    let evidence = admission().eligibility;
    let verified = verify_admission(
        &state,
        &empty_book(id(3)),
        &admission(),
        &presentation(),
        &evidence,
        100,
    ).unwrap();
    assert_eq!(verified.subject_line_id, id(62));
    assert_eq!(verified.evidence_digest, id(64));
    assert_eq!(verified.valid_until, 700);
    let refuses = |change: fn(&mut PresentationFindings), message: &str| {
        let mut changed = presentation();
        change(&mut changed);
        assert_eq!(
            verify_admission(
                &state,
                &empty_book(id(3)),
                &admission(),
                &changed,
                &evidence,
                100,
            ).unwrap_err(),
            message
        );
    };
    refuses(
        |found| found.issuer_id = id(1),
        "presentation names another DeKYX issuer than the attestation",
    );
    refuses(|found| found.issuer_key_epoch = 2, "unknown issuer");
    let against = "presentation was verified against something else";
    refuses(|found| found.now = 99, against);
    refuses(|found| found.issuer.public_key = id(1), against);
    refuses(|found| found.status_list = None, against);
    refuses(
        |found| found.status_list = Some(Arc::new(status_list(vec![id(1)]))),
        against,
    );
    refuses(|found| found.policy_digest = id(1), against);
    refuses(|found| found.context.request_digest = id(1), against);
    refuses(|found| found.context.audience_digest = id(1), against);
    refuses(
        |found| found.verified = Err("expired".into()),
        "DeKYX rejected the membership evidence: expired",
    );
    refuses(
        |found| found.digest = Ok(id(1)),
        "DeKYX evidence does not prove the attested subject line",
    );
    let mut other = evidence;
    other.valid_until = 701;
    assert_eq!(
        verify_admission(
            &state,
            &empty_book(id(3)),
            &admission(),
            &presentation(),
            &other,
            100,
        ).unwrap_err(),
        "DeCCP asked about another attestation than the admission carries"
    );
    let mut vouched = admission();
    vouched.eligibility.provider_id = id(30);
    let mut found = presentation();
    found.issuer_id = id(30);
    found.context = membership_context(&empty_book(id(3)), &vouched);
    assert_eq!(
        verify_admission(
            &state,
            &empty_book(id(3)),
            &vouched,
            &found,
            &vouched.eligibility,
            100,
        ).unwrap_err(),
        "DeKYX issuer is not vouched for by an active credential-issuer provider"
    );
}

#[test]
fn a_presentation_is_made_for_one_admission_on_one_book() {
    let context = membership_context(&empty_book(id(3)), &admission());
    assert_eq!(context.scope_digest, membership_scope_digest());
    assert_eq!(context.challenge_nonce, id(61));
    assert_eq!(context.valid_until, 700);
    assert_eq!(
        context.action_digest,
        Id::digest(b"AETHEL-DECCP:ACTION:ADMISSION:v1")
    );
    let mut bytes = b"AETHEL-DECCP:CLEARING-MEMBERSHIP-AUDIENCE:v1".to_vec();
    bytes.extend_from_slice(&[3; 32]);
    assert_eq!(context.audience_digest, Id::digest(&bytes));
    let mut bytes = b"AETHEL-DECCP:ADMISSION-REQUEST:v1".to_vec();
    for part in [[30; 32], [31; 32], [34; 32], [63; 32]] {
        bytes.extend_from_slice(&part);
    }
    bytes.extend_from_slice(&700_u64.to_be_bytes());
    bytes.extend_from_slice(&[0, 0, 5]);
    bytes.extend_from_slice(&[4; 32]);
    bytes.extend_from_slice(&[6; 32]);
    bytes.extend_from_slice(&100_u64.to_be_bytes());
    assert_eq!(context.request_digest, Id::digest(&bytes));
}

#[test]
fn capital_and_default_funds_are_locked_cash_notes() {
    let mut state = fixture();
    let capital = CcpCapitalization {
        defmi_lock_id: id(3),
        proof_digest: id(6),
        valid_until: 500,
    };
    let port = VmDefmiPort { state: &state };
    assert_eq!(port.verify_ccp_capital(&capital, 100), Ok(()));
    assert_eq!(
        port.verify_ccp_capital(&capital, 501),
        Err("CCP capital lock has expired".to_string())
    );
    assert_eq!(
        port.verify_ccp_capital(
            &CcpCapitalization {
                defmi_lock_id: id(4),
                ..capital
            },
            100
        ),
        Err("CCP capital note is not locked for that purpose".to_string())
    );
    assert_eq!(
        port.verify_ccp_capital(
            &CcpCapitalization {
                defmi_lock_id: id(1),
                ..capital
            },
            100
        ),
        Err("CCP capital names no DeFMI note".to_string())
    );
    assert_eq!(
        port.verify_ccp_capital(
            &CcpCapitalization {
                proof_digest: id(1),
                ..capital
            },
            100
        ),
        Err("CCP capital proof digest is not the locked note's value commitment".to_string())
    );
    assert_eq!(port.verify_default_fund(&admission()), Ok(()));
    assert!(port.verify_collateral_lock().is_err());
    assert!(port.verify_guarantee_facility().is_err());
    assert!(port.verify_guarantee_hold().is_err());
    assert!(port.verify_guarantee_release().is_err());
    assert!(port.verify_settlement().is_err());
    state.assets.insert(
        id(1),
        AssetRecord {
            code: "SEC".into(),
            kind: AssetKind::Security,
            decimals: 0,
            terms_digest: id(2),
            active: true,
        },
    );
    let port = VmDefmiPort { state: &state };
    assert_eq!(
        port.verify_default_fund(&admission()),
        Err("default fund must be a note on an active DeFMI cash rail".to_string())
    );
}

#[test]
fn hidden_capacity_moves_only_with_the_hold() {
    let mut state = fixture();
    let cleared = facility(&state);
    let after = |kind: FacilityTransition, sequence: u64| {
        next_facility_state(
            cleared.latest_facility_state_digest,
            kind,
            id(50),
            id(52),
            sequence,
        )
    };
    let reservation = ConfidentialReservation {
        defmi_hold_id: id(50),
        coverage_commitment: id(52),
        expected_facility_state_digest: cleared.latest_facility_state_digest,
        after_facility_state_digest: after(FacilityTransition::Reserve, 3),
        valid_until: 700,
    };
    let held = ConfidentialHold {
        hold_id: id(70),
        facility_id: id(40),
        defmi_hold_id: id(50),
        coverage_commitment: id(52),
        status: ClearingHoldStatus::Reserved,
        bound_exposure_id: None,
        defmi_settlement_receipt: None,
    };
    let request = |kind: FacilityTransition| ConfidentialRequest {
        expected_facility_state_digest: cleared.latest_facility_state_digest,
        after_facility_state_digest: after(kind, 4),
        receipt: SettlementReceipt {
            receipt_digest: id(71),
            context_digest: Id::zero(),
            finalized_at: 100,
        },
    };
    let port = VmDefmiPort { state: &state };
    assert_eq!(
        port.verify_confidential_guarantee_facility(&cleared, 100),
        Ok(())
    );
    assert_eq!(
        port.verify_confidential_guarantee_facility(&cleared, 0),
        Err("DeFMI credit facility is not live for the DeCCP facility window".to_string())
    );
    let mut moved = cleared;
    moved.latest_facility_state_digest = id(1);
    assert_eq!(
        port.verify_confidential_guarantee_facility(&moved, 100),
        Err("DeCCP facility does not start from the DeFMI facility state".to_string())
    );
    moved.capacity_commitment = id(1);
    assert_eq!(
        port.verify_confidential_guarantee_facility(&moved, 100),
        Err("DeCCP facility does not describe its DeFMI credit facility".to_string())
    );
    assert_eq!(
        port.verify_confidential_guarantee_hold(&cleared, &reservation),
        Ok(())
    );
    let mut late = reservation;
    late.valid_until = 901;
    assert_eq!(
        port.verify_confidential_guarantee_hold(&cleared, &late),
        Err("DeFMI facility or hold ends before the DeCCP reservation".to_string())
    );
    let mut invented = reservation;
    invented.after_facility_state_digest = id(1);
    assert_eq!(
        port.verify_confidential_guarantee_hold(&cleared, &invented),
        Err("DeCCP after-state does not follow from the DeFMI hold transition".to_string())
    );
    assert_eq!(
        port.verify_confidential_guarantee_release(
            &cleared,
            &held,
            &request(FacilityTransition::Release),
            100
        ),
        Err("DeFMI hold is not released on this facility for this coverage".to_string())
    );
    assert_eq!(
        port.verify_confidential_guarantee_claim(
            &cleared,
            &held,
            &request(FacilityTransition::Claim),
            99
        ),
        Err("DeFMI claim receipt is empty or from the future".to_string())
    );
    let mut hold = *state.credit_holds.get(&id(50)).unwrap();
    hold.settlement_digest = id(71);
    hold.status = HoldStatus::Released;
    state.credit_holds.insert(id(50), hold);
    assert_eq!(
        VmDefmiPort { state: &state }.verify_confidential_guarantee_release(
            &cleared,
            &held,
            &request(FacilityTransition::Release),
            100
        ),
        Ok(())
    );
    hold.status = HoldStatus::Consumed;
    state.credit_holds.insert(id(50), hold);
    assert_eq!(
        VmDefmiPort { state: &state }.verify_confidential_guarantee_claim(
            &cleared,
            &held,
            &request(FacilityTransition::Claim),
            100
        ),
        Ok(())
    );
}
