use qomm_avalanche_vm::aethel_book::{
    AethelBook, ConfidentialSubject, CredentialIssuer, CreditDecision, DefaultAttestation, GuaranteeClaim,
    GuaranteeCommitment, GuaranteeStatus, LossLayer, Provider, ProviderCapability, ProviderStatus,
    ReceivableIssuance, Series, StatusList, Stream,
};
use qomm_avalanche_vm::clearing_book::{
    ClearingBook, ClearingHoldStatus, ClearingMember, ConfidentialFacility, ConfidentialHold,
};
use qomm_avalanche_vm::endorsement::{quorum_check, ApprovalDto, NodeApprovalDto, Submission};
use qomm_avalanche_vm::execution::aethel::{
    credit_reference, guarantee_reference, receivable_checks, ProviderReference,
    ReceivableInstruction, ReceivableOperation, SubmittedInstruction,
};
use qomm_avalanche_vm::execution::book_question::{BookCall, BookQuestion};
use qomm_avalanche_vm::execution::clearing_question::{ClearingAnswer, ClearingQuestion};
use qomm_avalanche_vm::execution::deccp::{
    capital_lock_tag, default_fund_lock_tag, initial_facility_state, membership_context,
    CcpCapitalization, ClearingBookRegistration, EligibilityAttestation, ParticipantAdmission,
    PresentationFindings, VerifiedEligibility,
};
use qomm_avalanche_vm::execution::issuance::{
    consume_deccp_guarantee, successor_request, IssuanceSuccessor,
};
use qomm_avalanche_vm::execution::receivables::{
    deccp_binding, deccp_offer, guarantee_release, GuaranteeRelease,
};
use qomm_avalanche_vm::execution::Action;
use qomm_avalanche_vm::id::Id;
use qomm_avalanche_vm::state::{
    AssetKind, AssetRecord, ClaimStatus, CreditFacilityRecord, CreditHoldRecord, FacilityStatus,
    GuarantorKind, GuarantorRecord, HoldStatus, NoteClaimKind, NoteClaimRecord, NoteRecord,
    NoteSerialRecord, OpeningEnvelope, ParticipantRecord, ParticipantRole,
    SettlementVerifierRecord, State,
};
use qomm_avalanche_vm::table::{Numbered, Table};
use std::sync::Arc;

fn id(byte: u8) -> Id {
    Id([byte; 32])
}

fn root(state: &State) -> Id {
    Id::digest(format!("{state:?}").as_bytes())
}

fn submission(before_root: Id, expected: Id, statement: Id) -> Submission {
    let mut submitted = Submission {
        before_root,
        expected_before_root: Some(hex::encode(expected.0)),
        approval: Ok(ApprovalDto {
            statement: hex::encode(statement.0),
            signer_epoch: 1,
            domain: "test-chain".into(),
            before_root: hex::encode(expected.0),
            approvals: vec![
                NodeApprovalDto {
                    node_id: "node-0".into(),
                    signature: "22".repeat(64),
                },
                NodeApprovalDto {
                    node_id: "node-1".into(),
                    signature: "33".repeat(64),
                },
            ],
        }),
        quorum: None,
    };
    submitted.quorum = quorum_check(statement, &submitted).ok();
    submitted
}

fn approved(state: &State, statement: Id) -> Submission {
    submission(root(state), root(state), statement)
}

const ZERO: Id = Id([0; 32]);

const OPERATOR: Id = Id([13; 32]);

const ISSUER: Id = Id([17; 32]);

const SERVICER: Id = Id([18; 32]);

const ATTESTOR: Id = Id([19; 32]);

const EPOCH: Numbered = Numbered {
    scope: ISSUER,
    number: 1,
};

fn provider(capabilities: Vec<ProviderCapability>, defmi_guarantor_id: Option<Id>) -> Provider {
    Provider {
        participant_id: id(10),
        public_key: id(11),
        registration_key: id(11),
        defmi_guarantor_id,
        capabilities,
        valid_from: 1,
        valid_until: 900,
        sequence: 0,
        status: ProviderStatus::Active,
    }
}

fn stream(version: u64, pledged: u8, root: u8) -> Stream {
    Stream {
        attestor_provider_id: ATTESTOR,
        version,
        settlement_asset_id: id(1),
        eligible_commitment: id(24),
        pledged_commitment: id(pledged),
        root: Ok(id(root)),
    }
}

fn guarantee(guarantee_id: u8, hold: u8, coverage: u8) -> GuaranteeCommitment {
    GuaranteeCommitment {
        operation_id: id(guarantee_id + 100),
        guarantee_id: id(guarantee_id),
        request_id: id(72),
        provider_id: OPERATOR,
        series_id: id(20),
        stream_state_version: 1,
        stream_state_root: id(23),
        credit_decision_id: Some(id(30)),
        defmi_facility_id: id(40),
        defmi_hold_id: id(hold),
        coverage_commitment: id(coverage),
        loss_layer: LossLayer::FirstLoss,
        guarantee_terms_digest: id(73),
        claim_policy_digest: id(27),
        relation_proof_digest: id(74),
        valid_until: 700,
        nonce: id(75),
    }
}

fn hold(amount: u8) -> CreditHoldRecord {
    CreditHoldRecord {
        facility_id: id(40),
        query_commitment: id(51),
        amount_commitment: id(amount),
        expires_at: 900,
        status: HoldStatus::Active,
        settlement_digest: ZERO,
        created_sequence: 3,
        updated_sequence: 4,
    }
}

fn note(asset_id: u8, value: u8, lock_id: Id) -> NoteRecord {
    NoteRecord {
        asset_id: id(asset_id),
        one_time: id(65),
        value_commitment: id(value),
        ephemeral: id(66),
        masked_value: id(67),
        masked_blinding: id(68),
        lock_id,
    }
}

fn base_state() -> State {
    let mut state = State::new();
    for (asset_id, kind) in [(id(1), AssetKind::Cash), (id(2), AssetKind::Security)] {
        state.assets.insert(
            asset_id,
            AssetRecord {
                code: "RAIL".into(),
                kind,
                decimals: 0,
                terms_digest: id(4),
                active: true,
            },
        );
    }
    state.participants.insert(
        id(10),
        ParticipantRecord {
            roles: vec![
                ParticipantRole::StreamAttestor,
                ParticipantRole::CredentialIssuer,
                ParticipantRole::CreditAssessor,
                ParticipantRole::Guarantor,
                ParticipantRole::LiquidityProvider,
                ParticipantRole::Servicer,
            ],
            quote_public_key: id(11),
            valid_from: 1,
            valid_until: 1_000,
            active: true,
        },
    );
    state.guarantors.insert(
        id(12),
        GuarantorRecord {
            kind: GuarantorKind::Bank,
            name: "bank".into(),
            public_key: id(11),
            risk_policy_digest: id(14),
            active: true,
        },
    );
    state.credit_facilities.insert(
        id(40),
        CreditFacilityRecord {
            guarantor_id: id(12),
            beneficiary_commitment: id(41),
            rail_asset_id: id(1),
            cap_commitment: id(42),
            available_commitment: id(42),
            held_commitment: id(52),
            outstanding_commitment: ZERO,
            overlimit_commitment: ZERO,
            collateral_commitment: id(43),
            risk_policy_digest: id(14),
            valid_from: 1,
            valid_until: 1_000,
            status: FacilityStatus::Active,
            sequence: 1,
        },
    );
    state.credit_holds.insert(id(50), hold(52));
    state.credit_holds.insert(id(53), hold(57));
    state.notes.insert(id(60), note(2, 61, ZERO));
    state.notes.insert(id(3), note(1, 6, capital_lock_tag()));
    state
        .notes
        .insert(id(4), note(1, 7, default_fund_lock_tag(OPERATOR)));
    state.settlement_verifiers.insert(
        id(110),
        SettlementVerifierRecord {
            venue_id: id(111),
            defmi_id: id(112),
            epoch: 1,
            quote_registry_digest: id(113),
            quote_eligibility_bits: 16,
            quote_span_bits: 24,
            amount_bits: 16,
            price_bits: 32,
            max_horizon: 3_600,
            frost_public_package: vec![1],
            valid_from: 1,
            valid_until: 1_000,
            statement: id(114),
        },
    );
    state
}

fn copy_provider(provider: &Provider) -> Provider {
    Provider {
        participant_id: provider.participant_id,
        public_key: provider.public_key,
        registration_key: provider.registration_key,
        defmi_guarantor_id: provider.defmi_guarantor_id,
        capabilities: provider.capabilities.clone(),
        valid_from: provider.valid_from,
        valid_until: provider.valid_until,
        sequence: provider.sequence,
        status: provider.status,
    }
}

fn copy_stream(stream: &Stream) -> Stream {
    Stream {
        attestor_provider_id: stream.attestor_provider_id,
        version: stream.version,
        settlement_asset_id: stream.settlement_asset_id,
        eligible_commitment: stream.eligible_commitment,
        pledged_commitment: stream.pledged_commitment,
        root: stream.root.clone(),
    }
}

fn copy_book(book: &AethelBook) -> AethelBook {
    AethelBook {
        root: book.root.clone(),
        unknown_provider: book.unknown_provider.clone(),
        unknown_stream: book.unknown_stream.clone(),
        unknown_issuer: book.unknown_issuer.clone(),
        providers: book.providers.share(),
        streams: book.streams.share(),
        series: book.series.share(),
        credit_decisions: book.credit_decisions.share(),
        guarantees: book.guarantees.share(),
        guarantee_statuses: book.guarantee_statuses.share(),
        guarantee_claims: book.guarantee_claims.share(),
        funding_quotes: book.funding_quotes.share(),
        issuances: book.issuances.share(),
        default_attestations: book.default_attestations.share(),
        confidential_subjects: book.confidential_subjects.share(),
        credential_issuers: book.credential_issuers.share(),
        status_lists: book.status_lists.share(),
    }
}

fn copy_clearing(book: &ClearingBook) -> ClearingBook {
    ClearingBook {
        capital_lock: book.capital_lock,
        facilities: book.facilities.share(),
        holds: book.holds.share(),
        members: book.members.share(),
    }
}

fn call_of(action: &mut Action) -> Option<&mut BookCall> {
    match action {
        Action::IssueAethelProvider { call, .. }
        | Action::IssueAethelStream { call, .. }
        | Action::IssueAethelStreamTransition { call, .. }
        | Action::IssueAethelSeries { call, .. }
        | Action::IssueAethelCreditDecision { call, .. }
        | Action::IssueAethelGuarantee { call, .. }
        | Action::IssueAethelGuaranteeRelease { call, .. }
        | Action::IssueAethelProviderKeyRotation { call, .. }
        | Action::IssueAethelProviderStatus { call, .. }
        | Action::IssueAethelCredentialIssuer { call, .. }
        | Action::IssueAethelCredentialStatus { call, .. }
        | Action::IssueAethelFundingQuote { call, .. }
        | Action::IssueAethelReceivable { call, .. }
        | Action::IssueAethelDefault { call, .. }
        | Action::IssueAethelGuaranteeClaim { call, .. } => Some(call),
        _ => None,
    }
}

// What the book is asked, and the book after it.
fn record(state: &State, action: &Action) -> Option<(BookQuestion, Id, AethelBook)> {
    let mut book = copy_book(&state.aethel);
    book.root = Ok(id(202));
    let (question, operation_id) = match action {
        Action::IssueAethelProvider {
            provider_id,
            provider,
            operation_id,
            ..
        } => {
            book.providers.insert(*provider_id, copy_provider(provider));
            let provider_id = *provider_id;
            (BookQuestion::RegisterProvider { provider_id }, *operation_id)
        }
        Action::IssueAethelStream {
            stream_id,
            stream,
            operation_id,
            ..
        } => {
            book.streams.insert(*stream_id, copy_stream(stream));
            let stream_id = *stream_id;
            (BookQuestion::RegisterStream { stream_id }, *operation_id)
        }
        Action::IssueAethelStreamTransition {
            attestor_provider_id,
            stream_id,
            stream,
            operation_id,
            ..
        } => {
            book.streams.insert(*stream_id, copy_stream(stream));
            let question = BookQuestion::TransitionStream {
                attestor_provider_id: *attestor_provider_id,
                stream_id: *stream_id,
            };
            (question, *operation_id)
        }
        Action::IssueAethelSeries {
            series_id,
            series,
            operation_id,
            ..
        } => {
            book.series.insert(*series_id, *series);
            let series_id = *series_id;
            (BookQuestion::RegisterSeries { series_id }, *operation_id)
        }
        Action::IssueAethelCreditDecision {
            decision_id,
            decision,
            subject,
            operation_id,
            ..
        } => {
            book.credit_decisions.insert(*decision_id, *decision);
            if *subject == Ok(true) {
                book.confidential_subjects
                    .insert(
                        decision.request_id,
                        ConfidentialSubject {
                            policy_digest: decision.policy_digest,
                        },
                    );
            }
            let question = BookQuestion::RecordDecision {
                decision_id: *decision_id,
                request_id: decision.request_id,
            };
            (question, *operation_id)
        }
        Action::IssueAethelGuarantee {
            request, subject, ..
        } => {
            book.guarantees.insert(request.guarantee_id, *request);
            book.guarantee_statuses
                .insert(request.guarantee_id, GuaranteeStatus::Open);
            if *subject == Ok(true) {
                book.confidential_subjects.insert(
                    request.request_id,
                    ConfidentialSubject {
                        policy_digest: id(26),
                    },
                );
            }
            let request = *request;
            (
                BookQuestion::RecordGuarantee { request },
                request.operation_id,
            )
        }
        Action::IssueAethelGuaranteeRelease { request, .. } => {
            book.guarantee_statuses
                .insert(request.guarantee_id, GuaranteeStatus::Released);
            let request = *request;
            (
                BookQuestion::ReleaseGuarantee { request },
                request.operation_id,
            )
        }
        Action::IssueAethelProviderKeyRotation {
            provider_id,
            next_public_key,
            operation_id,
            ..
        } => {
            let mut rotated = copy_provider(state.aethel.providers.get(provider_id)?);
            rotated.public_key = *next_public_key;
            rotated.sequence += 1;
            book.providers.insert(*provider_id, rotated);
            let question = BookQuestion::RotateKey {
                provider_id: *provider_id,
                next_public_key: *next_public_key,
            };
            (question, *operation_id)
        }
        Action::IssueAethelProviderStatus {
            provider_id,
            status,
            operation_id,
            ..
        } => {
            let mut restated = copy_provider(state.aethel.providers.get(provider_id)?);
            restated.status = *status;
            restated.sequence += 1;
            book.providers.insert(*provider_id, restated);
            let question = BookQuestion::SetStatus {
                provider_id: *provider_id,
                status: *status,
            };
            (question, *operation_id)
        }
        Action::IssueAethelCredentialIssuer {
            provider_id,
            epoch,
            issuer,
            operation_id,
            ..
        } => {
            book.credential_issuers.insert(*epoch, *issuer);
            let question = BookQuestion::RegisterIssuer {
                provider_id: *provider_id,
                epoch: *epoch,
            };
            (question, *operation_id)
        }
        Action::IssueAethelCredentialStatus {
            epoch,
            list,
            operation_id,
            ..
        } => {
            book.status_lists.insert(
                *epoch,
                StatusList {
                    status_epoch: list.status_epoch,
                    valid_from: list.valid_from,
                    valid_until: list.valid_until,
                    revoked: list.revoked.clone(),
                },
            );
            let epoch = *epoch;
            (BookQuestion::PublishStatus { epoch }, *operation_id)
        }
        Action::IssueAethelFundingQuote {
            quote_id, quote, ..
        } => {
            book.funding_quotes.insert(*quote_id, *quote);
            let quote_id = *quote_id;
            (BookQuestion::RecordQuote { quote_id }, quote.operation_id)
        }
        Action::IssueAethelReceivable {
            request, successor, ..
        } => {
            let stream_id = state.aethel.series.get(&request.series_id)?.stream_id;
            let mut stream = copy_stream(state.aethel.streams.get(&stream_id)?);
            stream.version += 1;
            stream.pledged_commitment = request.after_pledged_commitment;
            stream.root = successor.root.clone();
            book.streams.insert(stream_id, stream);
            book.issuances.insert(request.issuance_id, *request);
            let request = *request;
            (BookQuestion::Issue { request }, request.operation_id)
        }
        Action::IssueAethelDefault {
            attestation_id,
            attestation,
            ..
        } => {
            book.default_attestations
                .insert(*attestation_id, *attestation);
            let attestation_id = *attestation_id;
            (
                BookQuestion::RecordDefault { attestation_id },
                attestation.operation_id,
            )
        }
        Action::IssueAethelGuaranteeClaim { request, .. } => {
            book.guarantee_statuses
                .insert(request.guarantee_id, GuaranteeStatus::Claimed);
            book.guarantee_claims.insert(request.claim_id, *request);
            let request = *request;
            (BookQuestion::Claim { request }, request.operation_id)
        }
        _ => return None,
    };
    Some((question, operation_id, book))
}

fn moved(book: &mut ClearingBook, facility_id: Id, digest: Id) {
    if let Some(facility) = book.facilities.get(&facility_id) {
        let mut next = *facility;
        next.sequence += 1;
        next.latest_facility_state_digest = digest;
        book.facilities.insert(facility_id, next);
    }
}

// The clearing book after a question.
fn clear(state: &State, question: ClearingQuestion, now: u64) -> ClearingAnswer {
    let mut book = match &state.deccp {
        Some(book) => copy_clearing(book),
        None => ClearingBook {
            capital_lock: ZERO,
            facilities: Table::new(),
            holds: Table::new(),
            members: Table::new(),
        },
    };
    match question {
        ClearingQuestion::Reserve { offer } => {
            book.holds.insert(
                offer.deccp_hold_id,
                ConfidentialHold {
                    hold_id: offer.deccp_hold_id,
                    facility_id: offer.deccp_facility_id,
                    defmi_hold_id: offer.defmi_hold_id,
                    coverage_commitment: offer.coverage_commitment,
                    status: ClearingHoldStatus::Reserved,
                    bound_exposure_id: None,
                    defmi_settlement_receipt: None,
                },
            );
            moved(
                &mut book,
                offer.deccp_facility_id,
                offer.deccp_after_state_digest,
            );
        }
        ClearingQuestion::Bind {
            binding,
            issuance_id,
            ..
        } => {
            let mut hold = *book.holds.get(&binding.deccp_hold_id).unwrap();
            hold.bound_exposure_id = Some(issuance_id);
            book.holds.insert(binding.deccp_hold_id, hold);
        }
        ClearingQuestion::Release {
            binding,
            transition,
        } => {
            let mut hold = *book.holds.get(&binding.deccp_hold_id).unwrap();
            hold.status = ClearingHoldStatus::Released;
            hold.defmi_settlement_receipt = Some(transition.receipt.receipt_digest);
            book.holds.insert(binding.deccp_hold_id, hold);
            moved(
                &mut book,
                binding.deccp_facility_id,
                transition.deccp_after_state_digest,
            );
        }
        ClearingQuestion::Claim { consumption } => {
            let binding = consumption.binding;
            let mut hold = *book.holds.get(&binding.deccp_hold_id).unwrap();
            hold.status = ClearingHoldStatus::Consumed;
            hold.defmi_settlement_receipt = Some(consumption.transition.receipt.receipt_digest);
            book.holds.insert(binding.deccp_hold_id, hold);
            moved(
                &mut book,
                binding.deccp_facility_id,
                consumption.transition.deccp_after_state_digest,
            );
        }
        ClearingQuestion::Open { capitalization, .. } => {
            book.capital_lock = capitalization.defmi_lock_id;
        }
        ClearingQuestion::Admit {
            participant_id,
            subject_line_id,
            ..
        } => {
            book.members
                .insert(participant_id, ClearingMember { subject_line_id });
        }
        ClearingQuestion::Register { facility, .. } => {
            book.facilities.insert(facility.facility_id, facility);
        }
    }
    ClearingAnswer {
        question,
        now,
        book: Ok(Arc::new(book)),
    }
}

// What the clearing book is asked, if the library has a question for it.
fn question(state: &State, action: &Action, now: u64) -> Option<ClearingQuestion> {
    let book = state.deccp.as_ref();
    match action {
        Action::IssueAethelGuarantee { request, .. } => deccp_offer(state, book?, request)
            .ok()
            .map(|offer| ClearingQuestion::Reserve { offer }),
        Action::IssueAethelGuaranteeRelease { request, .. } => {
            guarantee_release(state, request, now)
                .ok()
                .map(|(binding, transition)| ClearingQuestion::Release {
                    binding,
                    transition,
                })
        }
        Action::IssueAethelReceivable { request, .. } => {
            let guarantee = state.aethel.guarantees.get(&request.guarantee_id?)?;
            deccp_binding(book?, guarantee)
                .ok()
                .map(|binding| ClearingQuestion::Bind {
                    operation_id: request.operation_id,
                    binding,
                    issuance_id: request.issuance_id,
                })
        }
        Action::IssueAethelGuaranteeClaim { request, .. } => {
            consume_deccp_guarantee(state, request, now)
                .ok()
                .map(|consumption| ClearingQuestion::Claim { consumption })
        }
        Action::IssueDeccpClearingBook { request, .. } => {
            request
                .statement()
                .ok()
                .map(|statement| ClearingQuestion::Open {
                    statement,
                    capitalization: request.capitalization,
                })
        }
        Action::IssueDeccpMember {
            request, statement, ..
        } => Some(ClearingQuestion::Admit {
            statement: *statement.as_ref().ok()?,
            context: membership_context(book?, request),
            participant_id: request.participant_id,
            subject_line_id: request.eligibility.subject_line_id,
        }),
        Action::IssueDeccpGuaranteeFacility {
            operation_id,
            facility,
            ..
        } => Some(ClearingQuestion::Register {
            operation_id: *operation_id,
            facility: *facility,
        }),
        _ => None,
    }
}

fn answer_of(action: &mut Action) -> Option<&mut ClearingAnswer> {
    match action {
        Action::IssueAethelGuarantee { answer, .. }
        | Action::IssueAethelGuaranteeRelease { answer, .. }
        | Action::IssueAethelReceivable { answer, .. }
        | Action::IssueAethelGuaranteeClaim { answer, .. }
        | Action::IssueDeccpClearingBook { opened: answer, .. }
        | Action::IssueDeccpMember {
            admitted: answer, ..
        }
        | Action::IssueDeccpGuaranteeFacility {
            registered: answer, ..
        } => Some(answer),
        _ => None,
    }
}

// The action with the answers of both books to what the library asks of them.
fn ask(state: &State, mut action: Action, now: u64) -> Action {
    let cleared = question(state, &action, now).map(|question| clear(state, question, now));
    if let (Some(cleared), Some(answer)) = (cleared, answer_of(&mut action)) {
        *answer = cleared;
    }
    let recorded = record(state, &action);
    if let (Some((question, operation_id, book)), Some(call)) = (recorded, call_of(&mut action)) {
        call.question = question;
        call.operation_id = operation_id;
        call.now = now;
        call.recorded = Ok(Arc::new(book));
    }
    action
}

fn submit(state: &mut State, action: Action, now: u64) -> Result<Id, String> {
    let submitted = approved(state, action.statement().unwrap_or(Id::zero()));
    state.apply(action, &submitted, now)
}

fn act(state: &mut State, action: Action, now: u64) -> Result<Id, String> {
    let action = ask(state, action, now);
    submit(state, action, now)
}

fn call() -> BookCall {
    BookCall {
        question: BookQuestion::RecordQuote { quote_id: ZERO },
        operation_id: ZERO,
        now: 0,
        statement: Ok(id(200)),
        recorded: Err("the book was not asked".into()),
    }
}

fn unanswered() -> ClearingAnswer {
    ClearingAnswer {
        question: ClearingQuestion::Register {
            operation_id: ZERO,
            facility: ConfidentialFacility {
                facility_id: ZERO,
                guarantor_id: ZERO,
                defmi_facility_id: ZERO,
                settlement_asset_id: ZERO,
                capacity_commitment: ZERO,
                beneficiary_subject_line_id: ZERO,
                sequence: 0,
                latest_facility_state_digest: ZERO,
                valid_until: 0,
            },
        },
        now: 0,
        book: Err("the clearing book was not asked".into()),
    }
}

fn facility(state: &State) -> ConfidentialFacility {
    ConfidentialFacility {
        facility_id: id(40),
        guarantor_id: OPERATOR,
        defmi_facility_id: id(40),
        settlement_asset_id: id(1),
        capacity_commitment: id(42),
        beneficiary_subject_line_id: id(41),
        sequence: 0,
        latest_facility_state_digest: initial_facility_state(
            id(40),
            state.credit_facilities.get(&id(40)).unwrap(),
        ),
        valid_until: 800,
    }
}

fn admission(issuer: Id) -> ParticipantAdmission {
    ParticipantAdmission {
        operation_id: id(235),
        participant_id: OPERATOR,
        settlement_participant_id: id(10),
        eligibility: EligibilityAttestation {
            provider_id: issuer,
            subject_line_id: id(62),
            policy_digest: id(63),
            evidence_digest: id(64),
            valid_until: 700,
        },
        default_fund_contribution: vec![0, 0, 100],
        default_fund_defmi_lock_id: id(4),
        default_fund_proof_digest: id(7),
        admitted_at: 23,
    }
}

fn dekyx() -> CredentialIssuer {
    CredentialIssuer {
        public_key: id(214),
        namespace_digest: id(215),
        valid_from: 1,
        valid_until: 900,
        active: true,
    }
}

fn status_list() -> StatusList {
    StatusList {
        status_epoch: 1,
        valid_from: 1,
        valid_until: 900,
        revoked: vec![],
    }
}

fn join_book(state: &State, issuer: Id) -> Action {
    let admission = admission(issuer);
    let context = membership_context(state.deccp.as_ref().unwrap(), &admission);
    Action::IssueDeccpMember {
        statement: Ok(id(236)),
        parsed: Ok(()),
        presentation: PresentationFindings {
            issuer_id: issuer,
            issuer_key_epoch: 1,
            issuer: dekyx(),
            status_list: Some(Arc::new(status_list())),
            context,
            policy_digest: id(63),
            now: 23,
            verified: Ok(VerifiedEligibility {
                subject_line_id: id(62),
                policy_digest: id(63),
                valid_until: 700,
            }),
            digest: Ok(id(64)),
        },
        admitted: unanswered(),
        request: admission,
    }
}

fn instruction(state: &State) -> ReceivableInstruction {
    ReceivableInstruction {
        encoded: b"issue".to_vec(),
        operation: ReceivableOperation::Issue,
        venue_id: id(111),
        verifier_epoch: 1,
        defmi_id: id(112),
        aethel_domain_id: id(22),
        request_id: id(72),
        action_id: id(91),
        series_id: id(20),
        stream_id: id(21),
        stream_state_version: 1,
        before_stream_state_root: id(23),
        after_stream_state_root: id(28),
        eligible_commitment: id(24),
        before_pledged_commitment: id(25),
        after_pledged_commitment: id(93),
        receivable_note_id: id(60),
        settlement_asset_id: id(1),
        credit: credit_reference(state, Some(id(30))).unwrap(),
        guarantee: guarantee_reference(state, Some(id(71))).unwrap(),
        funding: ProviderReference::absent(),
        policy_digest: id(26),
        relation_proof_digest: id(94),
        operation_nullifier: id(95),
        before_aethel_root: id(202),
        amount_commitment: id(61),
        price_commitment: id(52),
        payee_handle: id(92),
    }
}

fn submitted(state: &State, instruction: ReceivableInstruction, now: u64) -> SubmittedInstruction {
    let checks = receivable_checks(state, &vec![1, 2, 3], &instruction, &id(110), now).unwrap();
    SubmittedInstruction {
        text: Some("AQID".into()),
        decoded: Ok(instruction),
        checks,
        verifier_key: id(110),
        package_valid: true,
        verified: Ok(()),
    }
}

fn register(state: &mut State, provider_id: Id, provider: Provider, operation: u8, now: u64) {
    act(
        state,
        Action::IssueAethelProvider {
            provider_id,
            provider,
            operation_id: id(operation),
            call: call(),
        },
        now,
    )
    .unwrap();
}

fn clearing(state: &State) -> &ClearingBook {
    state.deccp.as_ref().unwrap()
}

#[test]
fn avalanche_state_executes_guaranteed_receivable_issue_default_and_claim() {
    let mut state = base_state();
    register(
        &mut state,
        ATTESTOR,
        provider(vec![ProviderCapability::StreamAttestor], None),
        30,
        20,
    );
    act(
        &mut state,
        Action::IssueAethelStream {
            stream_id: id(21),
            stream: stream(1, 25, 23),
            operation_id: id(33),
            call: call(),
        },
        21,
    )
    .unwrap();
    let series = Series {
        aethel_domain_id: id(22),
        stream_id: id(21),
        receivable_asset_id: id(2),
        issuer_participant_id: id(10),
        allow_secondary_transfer: true,
        requires_confidential_subject: true,
        eligibility_policy_digest: id(26),
        claim_policy_digest: id(27),
    };
    act(
        &mut state,
        Action::IssueAethelSeries {
            series_id: id(20),
            series,
            operation_id: id(44),
            call: call(),
        },
        22,
    )
    .unwrap();
    register(
        &mut state,
        OPERATOR,
        provider(
            vec![
                ProviderCapability::CreditAssessor,
                ProviderCapability::Guarantor,
                ProviderCapability::LiquidityProvider,
            ],
            Some(id(12)),
        ),
        82,
        23,
    );
    let operator = state.aethel.providers.get(&OPERATOR).unwrap();
    assert!(operator.has(ProviderCapability::CreditAssessor, 23));
    assert!(operator.has(ProviderCapability::Guarantor, 23));
    assert!(operator.has(ProviderCapability::LiquidityProvider, 23));
    assert!(!operator.has(ProviderCapability::CredentialIssuer, 23));
    register(
        &mut state,
        ISSUER,
        provider(vec![ProviderCapability::CredentialIssuer], None),
        211,
        23,
    );
    let issuer = state.aethel.providers.get(&ISSUER).unwrap();
    assert!(issuer.has(ProviderCapability::CredentialIssuer, 23));
    assert!(!issuer.has(ProviderCapability::CreditAssessor, 23));

    // The provider vouches for a credential issuer's key and publishes an empty
    // list of revocations.
    act(
        &mut state,
        Action::IssueAethelCredentialIssuer {
            provider_id: ISSUER,
            epoch: EPOCH,
            issuer: dekyx(),
            operation_id: id(216),
            call: call(),
        },
        23,
    )
    .unwrap();
    act(
        &mut state,
        Action::IssueAethelCredentialStatus {
            epoch: EPOCH,
            list: status_list(),
            operation_id: id(217),
            call: call(),
        },
        23,
    )
    .unwrap();
    assert!(state.aethel.status_lists.get(&EPOCH).is_some());

    act(
        &mut state,
        Action::IssueDeccpClearingBook {
            request: ClearingBookRegistration {
                operation_id: id(232),
                capitalization: CcpCapitalization {
                    defmi_lock_id: id(3),
                    proof_digest: id(6),
                    valid_until: 800,
                },
                authorities: Ok(()),
                encoded: Ok(vec![1, 2, 3]),
            },
            opened: unanswered(),
        },
        23,
    )
    .unwrap();
    assert_eq!(clearing(&state).capital_lock, id(3));

    // A credential that the operator signed for itself names an issuer that
    // vouches for no key.
    let before_self_vouched = state.share();
    let self_vouched = join_book(&state, OPERATOR);
    assert!(act(&mut state, self_vouched, 23).is_err());
    assert_eq!(state, before_self_vouched);
    let joining = join_book(&state, ISSUER);
    act(&mut state, joining, 23).unwrap();
    let registration = Action::IssueDeccpGuaranteeFacility {
        operation_id: id(237),
        facility: facility(&state),
        statement: id(238),
        parsed: Ok(()),
        registered: unanswered(),
    };
    act(&mut state, registration, 23).unwrap();
    assert_eq!(
        clearing(&state).facilities.get(&id(40)),
        Some(&facility(&state))
    );

    let decision = CreditDecision {
        request_id: id(72),
        provider_id: OPERATOR,
        model_digest: id(31),
        policy_digest: id(26),
        relation_proof_digest: id(33),
        decision_terms_commitment: id(24),
    };
    act(
        &mut state,
        Action::IssueAethelCreditDecision {
            decision_id: id(30),
            decision,
            subject: Ok(true),
            operation_id: id(180),
            call: call(),
        },
        24,
    )
    .unwrap();
    assert_eq!(
        state
            .aethel
            .confidential_subjects
            .get(&id(72))
            .unwrap()
            .policy_digest,
        id(26)
    );

    let guaranteeing = |request: GuaranteeCommitment| Action::IssueAethelGuarantee {
        request,
        answer: unanswered(),
        subject: Ok(true),
        call: call(),
    };
    // A moved or altered proof of the subject is refused by the book.
    let before_moved_proof = state.share();
    let mut moved_proof = ask(&state, guaranteeing(guarantee(71, 50, 52)), 25);
    call_of(&mut moved_proof).unwrap().recorded = Err("subject proof is bound elsewhere".into());
    assert!(submit(&mut state, moved_proof, 25).is_err());
    assert_eq!(state, before_moved_proof);
    act(&mut state, guaranteeing(guarantee(71, 50, 52)), 25).unwrap();
    // The clearing book now holds the reservation under the guarantee's name.
    let reserved = *clearing(&state).holds.get(&id(71)).unwrap();
    assert_eq!(reserved.status, ClearingHoldStatus::Reserved);
    assert_eq!(reserved.defmi_hold_id, id(50));
    assert_eq!(reserved.coverage_commitment, id(52));
    assert_eq!(clearing(&state).facilities.get(&id(40)).unwrap().sequence, 1);

    // A second guarantee is withdrawn once its hold is released.
    act(&mut state, guaranteeing(guarantee(76, 53, 57)), 25).unwrap();
    assert_eq!(clearing(&state).facilities.get(&id(40)).unwrap().sequence, 2);
    let withdrawing = || Action::IssueAethelGuaranteeRelease {
        request: GuaranteeRelease {
            operation_id: id(133),
            provider_id: OPERATOR,
            guarantee_id: id(76),
            defmi_settlement_digest: id(134),
            relation_proof_digest: id(135),
        },
        answer: unanswered(),
        call: call(),
    };
    let before_premature_release = state.share();
    assert!(act(&mut state, withdrawing(), 25).is_err());
    assert_eq!(state, before_premature_release);
    let mut released_hold = hold(57);
    released_hold.status = HoldStatus::Released;
    released_hold.settlement_digest = id(134);
    released_hold.updated_sequence = 5;
    state.credit_holds.insert(id(53), released_hold);
    act(&mut state, withdrawing(), 25).unwrap();
    let released = *clearing(&state).holds.get(&id(76)).unwrap();
    assert_eq!(released.status, ClearingHoldStatus::Released);
    assert_eq!(released.defmi_settlement_receipt, Some(id(134)));
    assert_eq!(clearing(&state).facilities.get(&id(40)).unwrap().sequence, 3);
    assert_eq!(
        state.aethel.guarantee_statuses.get(&id(76)),
        Some(&GuaranteeStatus::Released)
    );

    // The receivable is issued under the first guarantee.
    let issuance = ReceivableIssuance {
        operation_id: id(90),
        issuance_id: id(91),
        request_id: id(72),
        series_id: id(20),
        note_id: id(60),
        owner_commitment: id(92),
        face_value_commitment: id(61),
        before_stream_state_version: 1,
        before_stream_state_root: id(23),
        after_pledged_commitment: id(93),
        credit_decision_id: Some(id(30)),
        guarantee_id: Some(id(71)),
        funding_quote_id: None,
        zkpi_digest: Id::digest(b"issue"),
        relation_proof_digest: id(94),
        allocation_nullifier: id(95),
    };
    let (stream_id, version, after_pledged_commitment) =
        successor_request(&state, &issuance).unwrap();
    let issue = Action::IssueAethelReceivable {
        request: issuance,
        submitted: submitted(&state, instruction(&state), 26),
        successor: IssuanceSuccessor {
            stream_id,
            version,
            after_pledged_commitment,
            valid: Ok(()),
            root: Ok(id(28)),
        },
        answer: unanswered(),
        call: call(),
    };
    act(&mut state, issue, 26).unwrap();
    assert_eq!(
        clearing(&state).holds.get(&id(71)).unwrap().bound_exposure_id,
        Some(id(91))
    );
    assert_eq!(state.aethel.streams.get(&id(21)).unwrap().version, 2);

    // The obligor defaults.
    register(
        &mut state,
        SERVICER,
        provider(vec![ProviderCapability::Servicer], None),
        95,
        27,
    );
    act(
        &mut state,
        Action::IssueAethelStreamTransition {
            attestor_provider_id: ATTESTOR,
            stream_id: id(21),
            stream: stream(3, 93, 29),
            operation_id: id(101),
            call: call(),
        },
        27,
    )
    .unwrap();
    act(
        &mut state,
        Action::IssueAethelDefault {
            attestation_id: id(103),
            attestation: DefaultAttestation {
                operation_id: id(102),
                provider_id: SERVICER,
                event_digest: id(104),
            },
            call: call(),
        },
        27,
    )
    .unwrap();

    // The guarantee pays out of the hold that the settlement consumed.
    let mut consumed_hold = hold(52);
    consumed_hold.status = HoldStatus::Consumed;
    consumed_hold.settlement_digest = id(106);
    consumed_hold.updated_sequence = 5;
    state.credit_holds.insert(id(50), consumed_hold);
    state.note_claims.insert(
        id(121),
        NoteClaimRecord {
            asset_id: id(1),
            value_commitment: id(52),
            recipient_commitment: id(92),
            source_hold_id: id(50),
            kind: NoteClaimKind::Delivery,
            opening_envelope: Arc::new(OpeningEnvelope {
                context: id(107),
                threshold: 1,
                recipient_view: id(108),
                shares: vec![],
            }),
            status: ClaimStatus::Active,
            settlement_digest: id(106),
            materialization: ZERO,
        },
    );
    state.note_serials.insert(
        id(112),
        NoteSerialRecord {
            deadline: 800,
            asset_id: id(2),
            ring_root: id(113),
            statement: id(106),
        },
    );
    let claim = GuaranteeClaim {
        operation_id: id(118),
        claim_id: id(117),
        guarantee_id: id(71),
        issuance_id: id(91),
        default_attestation_id: id(103),
        claim_amount_commitment: id(52),
        recovery_recipient_commitment: id(92),
        defmi_settlement_digest: id(106),
        relation_proof_digest: id(114),
        zkpi_digest: Id::digest(b"claim"),
    };
    let claiming = ReceivableInstruction {
        encoded: b"claim".to_vec(),
        operation: ReceivableOperation::ClaimGuarantee,
        action_id: id(117),
        stream_state_version: 3,
        before_stream_state_root: id(29),
        after_stream_state_root: id(29),
        before_pledged_commitment: id(93),
        after_pledged_commitment: id(93),
        policy_digest: id(27),
        relation_proof_digest: id(114),
        operation_nullifier: id(117),
        amount_commitment: id(52),
        price_commitment: id(52),
        ..instruction(&state)
    };
    let pay = Action::IssueAethelGuaranteeClaim {
        request: claim,
        submitted: submitted(&state, claiming, 28),
        answer: unanswered(),
        call: call(),
    };
    act(&mut state, pay, 28).unwrap();

    assert!(state.aethel.providers.contains_key(&ATTESTOR));
    assert!(state.aethel.streams.contains_key(&id(21)));
    assert!(state.aethel.series.contains_key(&id(20)));
    assert!(state.aethel.issuances.contains_key(&id(91)));
    assert_eq!(
        state.aethel.guarantee_statuses.get(&id(71)),
        Some(&GuaranteeStatus::Claimed)
    );
    assert_eq!(state.aethel.guarantee_claims.get(&id(117)), Some(&claim));
    let pledged = state.aethel.streams.get(&id(21)).unwrap();
    assert_eq!(pledged.pledged_commitment, id(93));
    assert_eq!(pledged.version, 3);
    // Twelve transactions on the book of receivables, the issuer's key and status
    // list, three on the clearing book, and the second guarantee with its release.
    assert_eq!(state.transition_count, 19);
    let consumed = *clearing(&state).holds.get(&id(71)).unwrap();
    assert_eq!(consumed.status, ClearingHoldStatus::Consumed);
    assert_eq!(consumed.bound_exposure_id, Some(id(91)));
    assert_eq!(consumed.defmi_settlement_receipt, Some(id(106)));
    assert_eq!(clearing(&state).facilities.get(&id(40)).unwrap().sequence, 4);
    assert_eq!(
        clearing(&state)
            .members
            .get(&OPERATOR)
            .unwrap()
            .subject_line_id,
        id(62)
    );
}

#[test]
fn provider_key_rotation_follows_the_participant_registry_and_keeps_recorded_artifacts() {
    let mut state = base_state();
    register(
        &mut state,
        ATTESTOR,
        provider(vec![ProviderCapability::StreamAttestor], None),
        30,
        20,
    );
    act(
        &mut state,
        Action::IssueAethelStream {
            stream_id: id(21),
            stream: stream(1, 25, 23),
            operation_id: id(33),
            call: call(),
        },
        21,
    )
    .unwrap();
    let attest = |state: &mut State, version: u64, operation: u8, now: u64| {
        act(
            state,
            Action::IssueAethelStreamTransition {
                attestor_provider_id: ATTESTOR,
                stream_id: id(21),
                stream: stream(version, 25, operation),
                operation_id: id(operation),
                call: call(),
            },
            now,
        )
    };
    let rotate = || Action::IssueAethelProviderKeyRotation {
        provider_id: ATTESTOR,
        next_public_key: id(120),
        operation_id: id(121),
        call: call(),
    };
    // The registry's key is the rotation authority.
    let before_unregistered = state.share();
    assert!(act(&mut state, rotate(), 22).is_err());
    assert_eq!(state, before_unregistered);

    let known = state.participants.get(&id(10)).unwrap();
    let moved = ParticipantRecord {
        roles: known.roles.clone(),
        quote_public_key: id(120),
        valid_from: known.valid_from,
        valid_until: known.valid_until,
        active: true,
    };
    state.participants.insert(id(10), moved);
    // Between the two rotations the provider attests nothing.
    let waiting = state.share();
    assert_eq!(
        attest(&mut state, 2, 123, 22),
        Err("Aethel provider no longer matches its active participant key epoch".to_string())
    );
    assert_eq!(state, waiting);

    act(&mut state, rotate(), 22).unwrap();
    let rotated = state.aethel.providers.get(&ATTESTOR).unwrap();
    assert_eq!(rotated.public_key, id(120));
    assert_eq!(rotated.sequence, 1);
    assert_eq!(rotated.registration_key, id(11));
    assert_eq!(state.aethel.streams.get(&id(21)).unwrap().version, 1);
    // The retired key attests nothing new, says the book; the next key does.
    let mut old_key = ask(
        &state,
        Action::IssueAethelStreamTransition {
            attestor_provider_id: ATTESTOR,
            stream_id: id(21),
            stream: stream(2, 25, 124),
            operation_id: id(124),
            call: call(),
        },
        23,
    );
    call_of(&mut old_key).unwrap().recorded = Err("signature is invalid".into());
    assert!(submit(&mut state, old_key, 23).is_err());
    attest(&mut state, 2, 124, 23).unwrap();
    assert_eq!(state.aethel.streams.get(&id(21)).unwrap().version, 2);

    // Suspension by quorum stops the provider; reinstatement resumes it.
    let restate = |status: ProviderStatus, operation: u8| Action::IssueAethelProviderStatus {
        provider_id: ATTESTOR,
        status,
        operation_id: id(operation),
        call: call(),
    };
    act(&mut state, restate(ProviderStatus::Suspended, 125), 24).unwrap();
    assert_eq!(
        attest(&mut state, 3, 126, 24),
        Err("Aethel provider capability is inactive at execution time".to_string())
    );
    act(&mut state, restate(ProviderStatus::Active, 127), 25).unwrap();
    attest(&mut state, 3, 128, 25).unwrap();
    assert_eq!(state.aethel.streams.get(&id(21)).unwrap().version, 3);
    assert_eq!(state.transition_count, 7);
}
