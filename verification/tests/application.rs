use curve25519_dalek::constants::RISTRETTO_BASEPOINT_POINT as G;
use curve25519_dalek::scalar::Scalar;
use qomm_avalanche_vm::application::{ApplicationRuntime, NoApplications};
use qomm_avalanche_vm::crypto::commitment_sum;
use qomm_avalanche_vm::endorsement::{
    quorum_check, ApprovalDto, NodeApprovalDto, Seal, Submission,
};
use qomm_avalanche_vm::execution::application_recovery::validate_applications;
use qomm_avalanche_vm::execution::application_reservation::{
    ApplicationNoteReservation, ApplicationScopeRegistration,
};
use qomm_avalanche_vm::execution::application_settlement::{
    apply_fill, fill_batch, point, refund_note, refund_request, ApplicationNoteFill,
    ApplicationNoteFillBatch, ApplicationNoteRelease, ApplicationSpendHead, RefundClaim,
    VerifiedFill, VerifiedRelease, VerifiedSide,
};
use qomm_avalanche_vm::execution::{Action, Method};
use qomm_avalanche_vm::id::Id;
use qomm_avalanche_vm::order::{
    CreditFacilityTransition, CreditTransitionKind, NoteClaim, NoteOutput, NoteReservationEscrow,
    NoteSpend,
};
use qomm_avalanche_vm::state::{
    ApplicationBinding, ApplicationReservationRecord, ApplicationScope, AssetKind, AssetRecord,
    CreditFacilityRecord, FacilityStatus, HoldStatus, NoteClaimKind, NoteRecord, OpeningEnvelope,
    OpeningShare, State,
};
use std::sync::Arc;

const ZERO: Id = Id([0; 32]);

const ASSETS: [Id; 2] = [Id([201; 32]), Id([202; 32])];

const FACILITIES: [Id; 2] = [Id([203; 32]), Id([204; 32])];

const HOLDS: [Id; 2] = [Id([205; 32]), Id([206; 32])];

fn id(byte: u8) -> Id {
    Id([byte; 32])
}

fn root(state: &State) -> Id {
    Id::digest(format!("{state:?}").as_bytes())
}

fn amount(value: u64) -> Id {
    Id((G * Scalar::from(value)).compress().to_bytes())
}

fn scope() -> ApplicationScope {
    ApplicationScope {
        application_binding: id(207),
        venue_id: id(208),
        defmi_id: id(209),
        committee_key_digest: id(210),
        committee_epoch: 1,
        amount_bits: 32,
    }
}

fn opening(seed: u8) -> Result<Arc<OpeningEnvelope>, String> {
    Ok(Arc::new(OpeningEnvelope {
        context: id(seed),
        threshold: 1,
        recipient_view: amount(82),
        shares: vec![OpeningShare {
            party: 1,
            ephemeral: amount(83),
            masked_value: id(1),
            masked_blinding: id(2),
        }],
    }))
}

fn claim(index: usize, kind: NoteClaimKind, value: u64, seed: u8) -> NoteClaim {
    NoteClaim {
        claim_id: id(seed),
        asset_id: ASSETS[index],
        value_commitment: amount(value),
        recipient_commitment: id(87),
        source_hold_id: HOLDS[index],
        kind,
        opening_record: opening(seed),
        shape: Ok(()),
    }
}

fn seal(byte: u8) -> Seal {
    Seal {
        body: Ok(()),
        statement: Ok(id(byte)),
    }
}

fn approved(state: &State, statement: Id) -> Submission {
    let mut submitted = Submission {
        before_root: root(state),
        expected_before_root: Some(hex::encode(root(state).0)),
        approval: Ok(ApprovalDto {
            statement: hex::encode(statement.0),
            signer_epoch: 1,
            domain: "test-chain".into(),
            before_root: hex::encode(root(state).0),
            approvals: vec![NodeApprovalDto {
                node_id: "node-0".into(),
                signature: "22".repeat(64),
            }],
        }),
        quorum: None,
    };
    submitted.quorum = quorum_check(statement, &submitted).ok();
    submitted
}

fn act(state: &mut State, action: Action, timestamp: u64) -> Result<Id, String> {
    let submitted = approved(state, action.statement().unwrap_or(Id::zero()));
    state.apply(action, &submitted, timestamp)
}

// A fill or release carries no approval of the settlement committee.
fn certified(state: &mut State, action: Action, timestamp: u64) -> Result<Id, String> {
    let submitted = Submission {
        before_root: root(state),
        expected_before_root: None,
        approval: Err("approval is missing".into()),
        quorum: None,
    };
    state.apply(action, &submitted, timestamp)
}

fn registration(key: u8) -> ApplicationScopeRegistration {
    ApplicationScopeRegistration {
        scope: scope(),
        key: Ok(id(key)),
        seal: seal(249),
    }
}

fn output(index: usize, seed: u8, value: u64, lock_id: Id) -> NoteOutput {
    NoteOutput {
        note_id: id(seed),
        asset_id: ASSETS[index],
        one_time: amount(7 + u64::from(seed)),
        value_commitment: amount(value),
        ephemeral: amount(8 + u64::from(seed)),
        masked_value: Id(Scalar::from(u64::from(seed)).to_bytes()),
        masked_blinding: Id(Scalar::from(u64::from(seed) + 1).to_bytes()),
        lock_id,
        shape: Ok(()),
    }
}

fn record(output: &NoteOutput) -> NoteRecord {
    NoteRecord {
        asset_id: output.asset_id,
        one_time: output.one_time,
        value_commitment: output.value_commitment,
        ephemeral: output.ephemeral,
        masked_value: output.masked_value,
        masked_blinding: output.masked_blinding,
        lock_id: output.lock_id,
    }
}

fn reservation_request(index: usize, value: u64) -> ApplicationNoteReservation {
    let offset = index as u8;
    ApplicationNoteReservation {
        binding: ApplicationBinding {
            scope: scope(),
            hold_id: HOLDS[index],
            facility_id: FACILITIES[index],
            entity_commitment: id(220 + offset),
            asset_id: ASSETS[index],
            amount_commitment: amount(value),
            receipt_digest: id(230 + offset),
            valid_from: 100,
            valid_until: 900,
        },
        transition: CreditFacilityTransition {
            operation_id: id(232 + offset),
            facility_id: FACILITIES[index],
            hold_id: HOLDS[index],
            kind: CreditTransitionKind::Hold,
            query_commitment: id(228 + offset),
            amount_commitment: amount(value),
            consumed_commitment: ZERO,
            refund_commitment: ZERO,
            before_available_commitment: amount(value * 2),
            after_available_commitment: amount(value),
            before_held_commitment: ZERO,
            after_held_commitment: amount(value),
            before_outstanding_commitment: ZERO,
            after_outstanding_commitment: ZERO,
            before_sequence: 0,
            expires_at: 900,
            settlement_digest: ZERO,
            relation_proof_digest: id(226),
        },
        escrow: NoteReservationEscrow {
            spend: NoteSpend {
                asset_id: ASSETS[index],
                ring: vec![id(234 + offset * 2), id(235 + offset * 2)],
                ring_root: id(227),
                serial_point: amount(92 + index as u64),
                input_lock_id: ZERO,
                proof_digest: id(229),
                outputs: vec![
                    output(index, 240 + offset, value, HOLDS[index]),
                    output(index, 244 + offset, 10, ZERO),
                ],
                shape: Ok(()),
            },
            escrow_note_id: id(240 + offset),
            delegation_digest: id(238),
        },
        scope_key: Ok(id(1)),
        verified: Ok(()),
        covenant_serial: id(242 + offset),
        seal: seal(246 + offset),
    }
}

fn market() -> State {
    let mut state = State::new();
    for (index, value) in [100, 1_000].into_iter().enumerate() {
        state.assets.insert(
            ASSETS[index],
            AssetRecord {
                code: if index == 0 { "SEC" } else { "JPY" }.into(),
                kind: if index == 0 {
                    AssetKind::Security
                } else {
                    AssetKind::Cash
                },
                decimals: 0,
                terms_digest: id(222 + index as u8),
                active: true,
            },
        );
        state.credit_facilities.insert(
            FACILITIES[index],
            CreditFacilityRecord {
                guarantor_id: id(224),
                beneficiary_commitment: id(220 + index as u8),
                rail_asset_id: ASSETS[index],
                cap_commitment: amount(value * 2),
                available_commitment: amount(value * 2),
                held_commitment: ZERO,
                outstanding_commitment: ZERO,
                overlimit_commitment: ZERO,
                collateral_commitment: amount(value * 2),
                risk_policy_digest: id(225),
                valid_from: 1,
                valid_until: 1_000,
                status: FacilityStatus::Active,
                sequence: 0,
            },
        );
        for decoy in 0u8..2 {
            let source = output(index, 234 + 2 * index as u8 + decoy, value + 10, ZERO);
            state.notes.insert(source.note_id, record(&source));
        }
    }
    state
}

fn reserve(state: &mut State, request: ApplicationNoteReservation) -> Result<Id, String> {
    act(state, Action::IssueApplicationNoteReservation { request }, 100)
}

fn fixture() -> State {
    let mut state = market();
    act(
        &mut state,
        Action::IssueApplicationReserveScope {
            registration: registration(1),
        },
        100,
    )
    .unwrap();
    reserve(&mut state, reservation_request(0, 100)).unwrap();
    reserve(&mut state, reservation_request(1, 1_000)).unwrap();
    state
}

fn head(state: &State, index: usize, close: bool) -> ApplicationSpendHead {
    let record = state.application_reservations.get(&HOLDS[index]).unwrap();
    ApplicationSpendHead {
        hold_id: HOLDS[index],
        sequence: record.sequence,
        previous_receipt: record.head_receipt(),
        remaining_commitment: record.remaining(),
        close,
    }
}

fn order(
    state: &State,
    before: [u64; 2],
    consumed: [u64; 2],
    seed: u8,
    close: [bool; 2],
) -> ApplicationNoteFill {
    let side = |index: usize| VerifiedSide {
        consumed: amount(consumed[index]),
        remaining: amount(before[index] - consumed[index]),
        normalized_opening: Arc::new(vec![seed, index as u8]),
    };
    let mut claims = vec![
        claim(0, NoteClaimKind::Delivery, consumed[0], seed),
        claim(1, NoteClaimKind::Delivery, consumed[1], seed + 1),
    ];
    for index in 0..2 {
        if close[index] {
            claims.push(claim(
                index,
                NoteClaimKind::Refund,
                before[index] - consumed[index],
                seed + 2 + index as u8,
            ));
        }
    }
    ApplicationNoteFill {
        operation_id: id(seed + 100),
        before_root: root(state),
        scope_key: Ok(id(1)),
        batched: false,
        securities: head(state, 0, close[0]),
        cash: head(state, 1, close[1]),
        securities_asset: ASSETS[0],
        cash_asset: ASSETS[1],
        verified: Ok(VerifiedFill {
            scope: scope(),
            now: 200,
            statement: id(seed + 50),
            nullifier: id(seed + 60),
            deadline: 900,
            securities: side(0),
            cash: side(1),
            claims,
        }),
    }
}

fn withdrawal(state: &State, index: usize, seed: u8) -> ApplicationNoteRelease {
    let record = state.application_reservations.get(&HOLDS[index]).unwrap();
    let operation_id = id(seed + 100);
    ApplicationNoteRelease {
        operation_id,
        before_root: root(state),
        hold_id: HOLDS[index],
        sequence: record.sequence,
        previous_receipt: record.head_receipt(),
        verified: Ok(VerifiedRelease {
            scope: scope(),
            valid_until: 900,
            now: 901,
            statement: id(seed + 50),
        }),
        refund_note: refund_note(state, &HOLDS[index]).map(|note| NoteOutput {
            note_id: id(seed + 20),
            asset_id: note.asset_id,
            one_time: note.one_time,
            value_commitment: note.value_commitment,
            ephemeral: note.ephemeral,
            masked_value: note.masked_value,
            masked_blinding: note.masked_blinding,
            lock_id: note.lock_id,
            shape: Ok(()),
        }),
        refund_claim: refund_request(state, &HOLDS[index], operation_id).map(|request| {
            RefundClaim {
                claim: NoteClaim {
                    claim_id: id(seed),
                    asset_id: request.asset_id,
                    value_commitment: request.value_commitment,
                    recipient_commitment: id(87),
                    source_hold_id: request.hold_id,
                    kind: NoteClaimKind::Refund,
                    opening_record: opening(seed),
                    shape: Ok(()),
                },
                request,
            }
        }),
    }
}

fn run(state: &mut State, order: ApplicationNoteFill, now: u64) -> Result<Id, String> {
    certified(state, Action::IssueApplicationNoteFill { order }, now)
}

fn undo(state: &mut State, order: ApplicationNoteRelease) -> Result<Id, String> {
    certified(state, Action::IssueApplicationNoteRelease { order }, 901)
}

fn conserved(state: &State, index: usize) {
    let facility = state.credit_facilities.get(&FACILITIES[index]).unwrap();
    assert_eq!(
        facility.cap_commitment,
        commitment_sum(
            &facility.available_commitment,
            &commitment_sum(
                &facility.held_commitment,
                &facility.outstanding_commitment
            )
        )
    );
}

fn held(state: &State, index: usize) -> Id {
    state
        .credit_facilities
        .get(&FACILITIES[index])
        .unwrap()
        .held_commitment
}

fn reservation(state: &State, index: usize) -> &ApplicationReservationRecord {
    state.application_reservations.get(&HOLDS[index]).unwrap()
}

#[test]
fn successive_partial_fills_keep_only_remainders_locked_and_recover_after_restart() {
    let mut state = fixture();
    let initial = state.share();
    let first = order(&state, [100, 1_000], [40, 400], 1, [false; 2]);
    assert_eq!(run(&mut state, first, 200), Ok(id(51)));
    assert_eq!(state.note_claims.len(), 2);
    assert_eq!(state.note_serials.len(), initial.note_serials.len() + 2);
    assert!(state.accounts.is_empty());
    for (index, left) in [60, 600].into_iter().enumerate() {
        let record = reservation(&state, index);
        assert_eq!(record.sequence, 1);
        assert_eq!(record.status.as_str(), "active");
        assert_eq!(record.remaining(), amount(left));
        assert_eq!(record.head_receipt(), id(51));
        assert_eq!(
            record.remaining_opening,
            Some(Arc::new(vec![1, index as u8]))
        );
        assert_eq!(held(&state, index), record.remaining());
        conserved(&state, index);
    }
    assert_eq!(validate_applications(&state), Ok(()));
    for mutation in 0..5 {
        let mut damaged = state.share();
        let record = reservation(&state, 0);
        let mut changed = ApplicationReservationRecord {
            binding: record.binding,
            escrow_note_id: record.escrow_note_id,
            covenant_serial: record.covenant_serial,
            status: record.status,
            sequence: record.sequence,
            remaining_commitment: record.remaining_commitment,
            last_receipt: record.last_receipt,
            remaining_opening: record.remaining_opening.clone(),
            settlement_digest: record.settlement_digest,
        };
        match mutation {
            0 => changed.remaining_opening = None,
            1 => changed.remaining_commitment = Some(ZERO),
            2 => changed.last_receipt = Some(id(250)),
            3 => damaged.note_serials = initial.note_serials.share(),
            _ => changed.sequence = 0,
        }
        damaged.application_reservations.insert(HOLDS[0], changed);
        assert_eq!(
            validate_applications(&damaged),
            Err("application reservation is incomplete".to_string()),
            "accepted incomplete recovered head {mutation}"
        );
    }
    let after_first = state.share();
    let mut first = order(&initial, [100, 1_000], [40, 400], 1, [false; 2]);
    first.before_root = root(&state);
    assert!(run(&mut state, first, 200).is_err());
    assert_eq!(state, after_first);
    let mut resigned = order(&state, [60, 600], [20, 200], 1, [false; 2]);
    resigned.operation_id = id(250);
    resigned.verified.as_mut().unwrap().now = 201;
    assert_eq!(
        run(&mut state, resigned, 201),
        Err("application zkPI was already settled".to_string())
    );
    assert_eq!(state, after_first);

    let mut second = order(&state, [60, 600], [20, 200], 10, [true; 2]);
    second.verified.as_mut().unwrap().now = 202;
    run(&mut state, second, 202).unwrap();
    assert_eq!(state.note_claims.len(), 6);
    assert_eq!(state.note_serials.len(), initial.note_serials.len() + 2);
    for (index, left) in [40, 400].into_iter().enumerate() {
        let record = reservation(&state, index);
        assert_eq!(record.sequence, 2);
        assert_eq!(record.status.as_str(), "consumed");
        assert!(record.remaining_opening.is_none());
        assert_eq!(record.remaining(), amount(left));
        assert_eq!(held(&state, index), ZERO);
        conserved(&state, index);
        assert_eq!(
            state.credit_holds.get(&HOLDS[index]).unwrap().status,
            HoldStatus::Consumed
        );
    }
    assert_eq!(validate_applications(&state), Ok(()));
}

#[test]
fn native_monetary_and_head_checks_reject_even_freshly_committee_signed_forgery() {
    let mut state = fixture();
    let before = state.share();
    for mutation in 0..12 {
        let mut bad = order(&state, [100, 1_000], [40, 400], 3, [false; 2]);
        match (mutation, &mut bad.verified) {
            (0, Ok(verified)) => verified.securities.consumed = amount(41),
            (1, Ok(verified)) => verified.cash.remaining = Id([255; 32]),
            (2, Ok(verified)) => verified.cash.consumed = amount(401),
            (3, Ok(_)) => bad.cash_asset = ASSETS[0],
            (4, Ok(_)) => bad.scope_key = Ok(id(2)),
            (5, Ok(_)) => bad.securities.sequence = 1,
            (6, Ok(_)) => bad.cash.previous_receipt = id(241),
            (7, Ok(_)) => bad.cash.remaining_commitment = amount(2_000),
            (10, Ok(verified)) => verified.scope.committee_epoch = 2,
            (11, Ok(verified)) => verified.now = 199,
            (8, Ok(verified)) => verified.claims[0].shape = Err("claim is malformed".into()),
            _ => bad.verified = Err("application certificate is invalid".into()),
        }
        assert!(
            run(&mut state, bad, 200).is_err(),
            "accepted signed mutation {mutation}"
        );
        assert_eq!(state, before);
    }
    let first = order(&state, [100, 1_000], [40, 400], 3, [false; 2]);
    assert_eq!(
        run(&mut state, first, 901),
        Err("application fill differs from its current reservation head".to_string())
    );
    assert_eq!(state, before);
    let first = order(&state, [100, 1_000], [40, 400], 3, [false; 2]);
    run(&mut state, first, 200).unwrap();
    let after = state.share();
    let mut stale = order(&before, [100, 1_000], [40, 400], 3, [false; 2]);
    stale.before_root = root(&state);
    stale.operation_id = id(243);
    assert_eq!(
        run(&mut state, stale, 201),
        Err("application fill differs from its current reservation head".to_string())
    );
    assert_eq!(state, after);
}

#[test]
fn public_expiry_returns_unfilled_note_to_original_wallet_without_signatures() {
    let mut state = fixture();
    let before = state.share();
    let mut early = withdrawal(&state, 0, 20);
    early.verified = Err("application reservation has not expired".into());
    assert!(undo(&mut state, early).is_err());
    assert_eq!(state, before);
    // A suspended facility does not trap the owner's refund.
    let mut facility = *state.credit_facilities.get(&FACILITIES[0]).unwrap();
    facility.status = FacilityStatus::Suspended;
    state.credit_facilities.insert(FACILITIES[0], facility);
    let mut kept_lock = withdrawal(&state, 0, 20);
    kept_lock.refund_note.as_mut().unwrap().lock_id = HOLDS[0];
    let mut inflated = withdrawal(&state, 0, 20);
    inflated.refund_note.as_mut().unwrap().value_commitment = amount(101);
    let suspended = state.share();
    for bad in [kept_lock, inflated] {
        assert_eq!(
            undo(&mut state, bad),
            Err("application refund note differs from its escrow".to_string())
        );
        assert_eq!(state, suspended);
    }
    let order = withdrawal(&state, 0, 20);
    undo(&mut state, order).unwrap();
    let escrowed = *before.notes.get(&id(240)).unwrap();
    assert_eq!(
        *state.notes.get(&id(40)).unwrap(),
        NoteRecord {
            lock_id: ZERO,
            ..escrowed
        }
    );
    assert!(state.note_claims.is_empty());
    assert_eq!(held(&state, 0), ZERO);
    assert_eq!(validate_applications(&state), Ok(()));
    let after = state.share();
    let again = withdrawal(&state, 0, 20);
    assert!(undo(&mut state, again).is_err());
    assert_eq!(state, after);
}

#[test]
fn partial_expiry_and_ordered_cancellation_release_exact_current_head() {
    let mut state = fixture();
    let mut stale_cancel = withdrawal(&state, 0, 21);
    let first = order(&state, [100, 1_000], [40, 400], 4, [false; 2]);
    run(&mut state, first, 200).unwrap();
    let before = state.share();
    stale_cancel.before_root = root(&state);
    assert_eq!(
        undo(&mut state, stale_cancel),
        Err("application release lost the race with another fill or cancellation".to_string())
    );
    assert_eq!(state, before);
    let mut unsigned = withdrawal(&state, 0, 22);
    unsigned.verified = Err("application release is not signed".into());
    assert!(undo(&mut state, unsigned).is_err());
    let remainder = state.share();
    for mutation in 0..7 {
        let mut bad = withdrawal(&state, 0, 22);
        let refund = bad.refund_claim.as_mut().unwrap();
        match mutation {
            0 => refund.claim.value_commitment = amount(100),
            1 => refund.claim.asset_id = ASSETS[1],
            2 => refund.claim.source_hold_id = HOLDS[1],
            3 => refund.claim.kind = NoteClaimKind::Delivery,
            4 => refund.request.value_commitment = amount(100),
            5 => refund.request.opening = Arc::new(vec![9]),
            _ => refund.request.operation_id = id(9),
        }
        assert_eq!(
            undo(&mut state, bad),
            Err("application refund claim differs from the remainder".to_string())
        );
        assert_eq!(state, remainder);
    }
    let mut elsewhere = withdrawal(&state, 0, 22);
    elsewhere.verified.as_mut().unwrap().now = 900;
    assert_eq!(
        undo(&mut state, elsewhere),
        Err("application release was verified for another scope or time".to_string())
    );
    let cancel = withdrawal(&state, 0, 22);
    undo(&mut state, cancel).unwrap();
    let expiry = withdrawal(&state, 1, 23);
    undo(&mut state, expiry).unwrap();
    assert_eq!(state.note_claims.len(), 4);
    for (index, left) in [60, 600].into_iter().enumerate() {
        let record = reservation(&state, index);
        assert_eq!(record.status.as_str(), "released");
        assert_eq!(record.sequence, 2);
        let claim = state.note_claims.get(&id(22 + index as u8)).unwrap();
        assert_eq!(claim.kind.as_str(), "refund");
        assert_eq!(claim.value_commitment, amount(left));
        assert_eq!(held(&state, index), ZERO);
        conserved(&state, index);
    }
}

#[test]
fn closing_one_order_does_not_release_the_counterpartys_remaining_reserve() {
    let mut state = fixture();
    let first = order(&state, [100, 1_000], [40, 400], 6, [true, false]);
    run(&mut state, first, 200).unwrap();
    assert_eq!(state.note_claims.len(), 3);
    assert_eq!(reservation(&state, 0).status.as_str(), "consumed");
    assert_eq!(reservation(&state, 1).status.as_str(), "active");
    assert_eq!(held(&state, 0), ZERO);
    assert_eq!(held(&state, 1), amount(600));
    let expired_closed = withdrawal(&state, 0, 25);
    let before = state.share();
    assert!(undo(&mut state, expired_closed).is_err());
    assert_eq!(state, before);
    let expiry = withdrawal(&state, 1, 26);
    undo(&mut state, expiry).unwrap();
    assert_eq!(state.note_claims.len(), 4);
    assert_eq!(held(&state, 1), ZERO);
}

#[test]
fn batches_of_fills_settle_together_or_not_at_all() {
    let state = fixture();
    let mut first = order(&state, [100, 1_000], [40, 400], 1, [false; 2]);
    first.batched = true;
    let mut alone = order(&state, [100, 1_000], [40, 400], 1, [false; 2]);
    alone.batched = true;
    assert_eq!(
        run(&mut state.share(), alone, 200),
        Err("a signed batch member cannot settle individually".to_string())
    );
    let at = root(&state);
    let mut filled = state.share();
    apply_fill(&mut filled, &first, at, 200).unwrap();
    let mut second = order(&filled, [60, 600], [20, 200], 10, [true; 2]);
    second.before_root = at;
    second.batched = true;
    let mut bad = order(&filled, [60, 600], [20, 200], 10, [true; 2]);
    bad.before_root = at;
    bad.cash.sequence = 7;
    let batch = |fills: Vec<ApplicationNoteFill>| ApplicationNoteFillBatch {
        statement: Ok(id(77)),
        before_root: Ok(at),
        fills,
    };
    let mut attempt = state.share();
    let again = order(&state, [100, 1_000], [40, 400], 1, [false; 2]);
    assert_eq!(
        fill_batch(&mut attempt, &batch(vec![again, bad]), at, 200),
        Err("application fill differs from its current reservation head".to_string())
    );
    assert_eq!(attempt, state);
    assert_eq!(
        fill_batch(&mut attempt, &batch(vec![]), id(9), 200),
        Err("application batch has a stale parent".to_string())
    );
    assert_eq!(
        certified(
            &mut attempt,
            Action::IssueApplicationNoteFillBatch {
                batch: batch(vec![first, second]),
            },
            200
        ),
        Ok(id(77))
    );
    assert_eq!(reservation(&attempt, 0).sequence, 2);
    assert!(attempt.operations.contains_key(&id(101)));
    assert!(attempt.operations.contains_key(&id(110)));
}

#[test]
fn a_covenant_is_spent_once() {
    let mut state = fixture();
    let first = order(&state, [100, 1_000], [40, 400], 1, [false; 2]);
    run(&mut state, first, 200).unwrap();
    assert_eq!(state.note_serials.get(&id(242)).unwrap().statement, id(51));
    let mut damaged = fixture();
    damaged.note_serials = state.note_serials.share();
    let again = order(&damaged, [100, 1_000], [40, 400], 1, [false; 2]);
    assert_eq!(
        run(&mut damaged, again, 200),
        Err("application covenant was already consumed".to_string())
    );
}

#[test]
fn only_canonical_points_are_commitments() {
    assert_eq!(point(&amount(3)), Ok(()));
    assert!(point(&Id([255; 32])).is_err());
}

#[test]
fn without_applications_nothing_is_executed() {
    let mut state = State::new();
    let runtime = NoApplications;
    assert_eq!(runtime.validate_state(&state), Ok(()));
    state.application_states.insert(id(1), vec![1]);
    assert!(runtime.validate_state(&state).is_err());
}

#[test]
fn unsigned_candidate_verification_never_authorizes_native_execution() {
    let mut state = fixture();
    let before = state.share();
    let mut candidate = order(&state, [100, 1_000], [40, 400], 3, [false; 2]);
    candidate.verified = Err("application fill is not signed".into());
    assert_eq!(
        run(&mut state, candidate, 200),
        Err("application fill is not signed".to_string())
    );
    assert_eq!(state, before);
    // Nor does the approval of the settlement committee.
    let mut candidate = order(&state, [100, 1_000], [40, 400], 3, [false; 2]);
    candidate.verified = Err("application fill is not signed".into());
    assert!(act(
        &mut state,
        Action::IssueApplicationNoteFill { order: candidate },
        200
    )
    .is_err());
    assert_eq!(state, before);
    let signed = order(&state, [100, 1_000], [40, 400], 3, [false; 2]);
    run(&mut state, signed, 200).unwrap();
}

#[test]
fn scopes_are_registered_once() {
    let mut state = fixture();
    let before = state.share();
    assert_eq!(
        act(
            &mut state,
            Action::IssueApplicationReserveScope {
                registration: registration(1),
            },
            100
        ),
        Err("application reserve scope is already registered".to_string())
    );
    let mut keyless = registration(2);
    keyless.key = Err("application scope is malformed".into());
    assert_eq!(
        act(
            &mut state,
            Action::IssueApplicationReserveScope {
                registration: keyless,
            },
            100
        ),
        Err("application scope is malformed".to_string())
    );
    assert!(certified(
        &mut state,
        Action::IssueApplicationReserveScope {
            registration: registration(2),
        },
        100
    )
    .is_err());
    assert_eq!(state, before);
    assert_eq!(
        act(
            &mut state,
            Action::IssueApplicationReserveScope {
                registration: registration(2),
            },
            100
        ),
        Ok(id(249))
    );
}

#[test]
fn application_reservations_lock_a_note_and_open_its_hold() {
    let state = fixture();
    let hold = state.credit_holds.get(&HOLDS[0]).unwrap();
    assert_eq!(hold.amount_commitment, amount(100));
    assert_eq!(hold.status, HoldStatus::Active);
    let facility = state.credit_facilities.get(&FACILITIES[0]).unwrap();
    assert_eq!(facility.sequence, 1);
    assert_eq!(facility.held_commitment, amount(100));
    assert_eq!(facility.available_commitment, amount(100));
    assert_eq!(state.notes.get(&id(240)).unwrap().lock_id, HOLDS[0]);
    let record = reservation(&state, 0);
    assert_eq!(record.escrow_note_id, id(240));
    assert_eq!(record.remaining(), amount(100));
    assert_eq!(state.operations.get(&id(232)), Some(&id(246)));
    assert_eq!(validate_applications(&state), Ok(()));

    let mut scoped = market();
    act(
        &mut scoped,
        Action::IssueApplicationReserveScope {
            registration: registration(1),
        },
        100,
    )
    .unwrap();
    let refuses = |change: fn(&mut ApplicationNoteReservation), message: &str| {
        let mut state = scoped.share();
        let mut request = reservation_request(0, 100);
        change(&mut request);
        assert_eq!(reserve(&mut state, request), Err(message.to_string()));
        assert_eq!(state, scoped);
    };
    refuses(
        |request| request.scope_key = Ok(id(2)),
        "application reservation scope is not registered",
    );
    refuses(
        |request| request.binding.scope.amount_bits = 16,
        "application reservation scope is not registered",
    );
    refuses(
        |request| request.binding.amount_commitment = amount(99),
        "application reservation differs from its transition",
    );
    refuses(
        |request| {
            request.binding.facility_id = id(9);
            request.transition.facility_id = id(9);
        },
        "application reservation names an unknown facility",
    );
    refuses(
        |request| request.binding.entity_commitment = id(9),
        "application reservation does not match its facility",
    );
    refuses(
        |request| request.transition.before_sequence = 1,
        "application reservation was proved against stale facility state",
    );
    refuses(
        |request| request.transition.kind = CreditTransitionKind::Release,
        "application reservation cannot create a valid active facility hold",
    );
    refuses(
        |request| request.verified = Err("application spend proof is invalid".into()),
        "application spend proof is invalid",
    );
    let mut again = fixture();
    let before = again.share();
    assert_eq!(
        reserve(&mut again, reservation_request(0, 100)),
        Err("application reservation operation or hold was already used".to_string())
    );
    assert_eq!(again, before);
}

#[test]
fn application_transactions_have_their_own_parameters() {
    for (name, keys) in [
        ("defmivm.issueApplicationNoteFill", vec!["fill"]),
        ("defmivm.issueApplicationNoteFillBatch", vec!["batch"]),
        ("defmivm.issueApplicationNoteRelease", vec!["release"]),
        (
            "defmivm.issueApplicationReserveScope",
            vec!["scope", "approval", "expectedBeforeRoot"],
        ),
        (
            "defmivm.issueApplicationNoteReservation",
            vec![
                "binding",
                "transition",
                "escrow",
                "relationProof",
                "spendProof",
                "approval",
                "expectedBeforeRoot",
            ],
        ),
    ] {
        let method = Method::from_name(name).unwrap();
        let mut named: Vec<String> = keys.iter().map(|key| key.to_string()).collect();
        assert_eq!(method.check_keys(&named), Ok(()));
        named.push("memo".into());
        assert_eq!(
            method.check_keys(&named),
            Err(format!(
                "transaction parameters must contain exactly {}",
                keys.join(", ")
            ))
        );
    }
}
