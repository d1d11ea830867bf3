use qomm_avalanche_vm::aethel_book::{
    AethelBook, ConfidentialSubject, CredentialIssuer, CreditDecision, DefaultAttestation, FundingQuote,
    GuaranteeClaim, GuaranteeCommitment, GuaranteeStatus, LossLayer, Provider, ProviderCapability,
    ProviderStatus, ReceivableIssuance, Series, StatusList, Stream,
};
use qomm_avalanche_vm::clearing_book::{
    ClearingBook, ClearingHoldStatus, ClearingMember, ConfidentialFacility, ConfidentialHold,
};
use qomm_avalanche_vm::endorsement::{quorum_check, ApprovalDto, NodeApprovalDto, Submission};
use qomm_avalanche_vm::execution::aethel::{
    credit_backing_id, credit_reference, funding_reference, guarantee_reference,
    receivable_checks, validate_provider_identity, validate_provider_runtime, ProviderReference,
    ReceivableInstruction, ReceivableOperation, SubmittedInstruction,
};
use qomm_avalanche_vm::execution::book_question::{BookCall, BookQuestion};
use qomm_avalanche_vm::execution::clearing_question::{ClearingAnswer, ClearingQuestion};
use qomm_avalanche_vm::execution::deccp::{
    membership_context, next_facility_state, ConfidentialRequest, ConfidentialReservation, FacilityTransition,
    VmDefmiPort,
};
use qomm_avalanche_vm::execution::issuance::{
    consume_deccp_guarantee, successor_request, validate_claim_backing, IssuanceSuccessor,
};
use qomm_avalanche_vm::execution::receivables::{
    deccp_binding, deccp_offer, guarantee_release, ClearingLossLayer, GuaranteeRelease,
};
use qomm_avalanche_vm::execution::{Action, Method};
use qomm_avalanche_vm::id::Id;
use qomm_avalanche_vm::state::{
    AssetKind, AssetRecord, ClaimStatus, CreditFacilityRecord, CreditHoldRecord, FacilityStatus,
    GuarantorKind, GuarantorRecord, HoldStatus, NoteClaimKind, NoteClaimRecord, NoteRecord,
    NoteReservationRecord, NoteSerialRecord, OpeningEnvelope, ParticipantRecord, ParticipantRole,
    SettlementVerifierRecord, State,
};
use qomm_avalanche_vm::table::{Numbered, Table};
use std::sync::Arc;

fn id(byte: u8) -> Id {
    Id([byte; 32])
}

fn root(state: &State) -> Id {
    Id::digest(format!("{state:?}").as_bytes())
}

fn submission(before_root: Id, expected: Id, statement: Id) -> Submission {
    let mut submitted = Submission {
        before_root,
        expected_before_root: Some(hex::encode(expected.0)),
        approval: Ok(ApprovalDto {
            statement: hex::encode(statement.0),
            signer_epoch: 1,
            domain: "test-chain".into(),
            before_root: hex::encode(expected.0),
            approvals: vec![
                NodeApprovalDto {
                    node_id: "node-0".into(),
                    signature: "22".repeat(64),
                },
                NodeApprovalDto {
                    node_id: "node-1".into(),
                    signature: "33".repeat(64),
                },
            ],
        }),
        quorum: None,
    };
    submitted.quorum = quorum_check(statement, &submitted).ok();
    submitted
}

fn approved(state: &State, statement: Id) -> Submission {
    submission(root(state), root(state), statement)
}

const ZERO: Id = Id([0; 32]);

const ALL: [ProviderCapability; 6] = [
    ProviderCapability::StreamAttestor,
    ProviderCapability::CredentialIssuer,
    ProviderCapability::CreditAssessor,
    ProviderCapability::Guarantor,
    ProviderCapability::LiquidityProvider,
    ProviderCapability::Servicer,
];

const EPOCH: Numbered = Numbered {
    scope: Id([13; 32]),
    number: 1,
};

fn dekyx() -> CredentialIssuer {
    CredentialIssuer {
        public_key: id(15),
        namespace_digest: id(16),
        valid_from: 1,
        valid_until: 900,
        active: true,
    }
}

fn status_list(revoked: Vec<Id>) -> StatusList {
    StatusList {
        status_epoch: 1,
        valid_from: 1,
        valid_until: 900,
        revoked,
    }
}

fn provider() -> Provider {
    Provider {
        participant_id: id(10),
        public_key: id(11),
        registration_key: id(11),
        defmi_guarantor_id: Some(id(12)),
        capabilities: ALL.to_vec(),
        valid_from: 5,
        valid_until: 900,
        sequence: 0,
        status: ProviderStatus::Active,
    }
}

fn guarantee() -> GuaranteeCommitment {
    GuaranteeCommitment {
        operation_id: id(70),
        guarantee_id: id(71),
        request_id: id(72),
        provider_id: id(13),
        series_id: id(20),
        stream_state_version: 1,
        stream_state_root: id(23),
        credit_decision_id: Some(id(30)),
        defmi_facility_id: id(40),
        defmi_hold_id: id(50),
        coverage_commitment: id(52),
        loss_layer: LossLayer::FirstLoss,
        guarantee_terms_digest: id(73),
        claim_policy_digest: id(27),
        relation_proof_digest: id(74),
        valid_until: 700,
        nonce: id(75),
    }
}

fn quote() -> FundingQuote {
    FundingQuote {
        operation_id: id(80),
        provider_id: id(13),
        cash_reservation_id: id(81),
        cash_asset_id: id(1),
        advance_commitment: id(82),
        valid_until: 600,
    }
}

fn issuance() -> ReceivableIssuance {
    ReceivableIssuance {
        operation_id: id(90),
        issuance_id: id(91),
        request_id: id(72),
        series_id: id(20),
        note_id: id(60),
        owner_commitment: id(92),
        face_value_commitment: id(61),
        before_stream_state_version: 1,
        before_stream_state_root: id(23),
        after_pledged_commitment: id(93),
        credit_decision_id: Some(id(30)),
        guarantee_id: Some(id(71)),
        funding_quote_id: None,
        zkpi_digest: Id::digest(b"issue"),
        relation_proof_digest: id(94),
        allocation_nullifier: id(95),
    }
}

fn decision() -> CreditDecision {
    CreditDecision {
        request_id: id(72),
        provider_id: id(13),
        model_digest: id(31),
        policy_digest: id(32),
        relation_proof_digest: id(33),
        decision_terms_commitment: id(24),
    }
}

fn stream() -> Stream {
    Stream {
        attestor_provider_id: id(13),
        version: 1,
        settlement_asset_id: id(1),
        eligible_commitment: id(24),
        pledged_commitment: id(25),
        root: Ok(id(23)),
    }
}

fn series() -> Series {
    Series {
        aethel_domain_id: id(22),
        stream_id: id(21),
        receivable_asset_id: id(2),
        issuer_participant_id: id(10),
        allow_secondary_transfer: true,
        requires_confidential_subject: false,
        eligibility_policy_digest: id(26),
        claim_policy_digest: id(27),
    }
}

fn attestation() -> DefaultAttestation {
    DefaultAttestation {
        operation_id: id(97),
        provider_id: id(13),
        event_digest: id(98),
    }
}

fn cleared() -> ClearingBook {
    let mut book = ClearingBook {
        capital_lock: id(3),
        facilities: Table::new(),
        holds: Table::new(),
        members: Table::new(),
    };
    book.facilities.insert(
        id(40),
        ConfidentialFacility {
            facility_id: id(40),
            guarantor_id: id(13),
            defmi_facility_id: id(40),
            settlement_asset_id: id(1),
            capacity_commitment: id(42),
            beneficiary_subject_line_id: id(41),
            sequence: 6,
            latest_facility_state_digest: id(45),
            valid_until: 800,
        },
    );
    book.holds.insert(
        id(71),
        ConfidentialHold {
            hold_id: id(71),
            facility_id: id(40),
            defmi_hold_id: id(50),
            coverage_commitment: id(52),
            status: ClearingHoldStatus::Reserved,
            bound_exposure_id: None,
            defmi_settlement_receipt: None,
        },
    );
    book
}

fn book() -> AethelBook {
    let mut book = AethelBook::new();
    book.root = Ok(id(99));
    book.providers.insert(id(13), provider());
    book.streams.insert(
        id(21),
        stream(),
    );
    book.series.insert(
        id(20),
        series(),
    );
    book.credit_decisions.insert(id(30), decision());
    book.guarantees.insert(id(71), guarantee());
    book.guarantee_statuses
        .insert(id(71), GuaranteeStatus::Open);
    book.funding_quotes.insert(id(83), quote());
    book.issuances.insert(id(91), issuance());
    book.default_attestations.insert(
        id(96),
        attestation(),
    );
    book
}

fn fixture() -> State {
    let mut state = State::new();
    state.aethel = Arc::new(book());
    state.deccp = Some(Arc::new(cleared()));
    for (asset_id, kind) in [(id(1), AssetKind::Cash), (id(2), AssetKind::Security)] {
        state.assets.insert(
            asset_id,
            AssetRecord {
                code: "RAIL".into(),
                kind,
                decimals: 0,
                terms_digest: id(4),
                active: true,
            },
        );
    }
    state.participants.insert(
        id(10),
        ParticipantRecord {
            roles: vec![
                ParticipantRole::StreamAttestor,
                ParticipantRole::CredentialIssuer,
                ParticipantRole::CreditAssessor,
                ParticipantRole::Guarantor,
                ParticipantRole::LiquidityProvider,
                ParticipantRole::Servicer,
            ],
            quote_public_key: id(11),
            valid_from: 1,
            valid_until: 1_000,
            active: true,
        },
    );
    state.guarantors.insert(
        id(12),
        GuarantorRecord {
            kind: GuarantorKind::Bank,
            name: "bank".into(),
            public_key: id(11),
            risk_policy_digest: id(14),
            active: true,
        },
    );
    state.credit_facilities.insert(
        id(40),
        CreditFacilityRecord {
            guarantor_id: id(12),
            beneficiary_commitment: id(41),
            rail_asset_id: id(1),
            cap_commitment: id(42),
            available_commitment: id(42),
            held_commitment: id(52),
            outstanding_commitment: ZERO,
            overlimit_commitment: ZERO,
            collateral_commitment: id(43),
            risk_policy_digest: id(14),
            valid_from: 1,
            valid_until: 1_000,
            status: FacilityStatus::Active,
            sequence: 1,
        },
    );
    state.credit_holds.insert(
        id(50),
        CreditHoldRecord {
            facility_id: id(40),
            query_commitment: id(51),
            amount_commitment: id(52),
            expires_at: 900,
            status: HoldStatus::Active,
            settlement_digest: ZERO,
            created_sequence: 3,
            updated_sequence: 4,
        },
    );
    state.note_reservations.insert(
        id(81),
        NoteReservationRecord {
            escrow_note_id: id(62),
            asset_id: id(1),
            amount_commitment: id(82),
            proof_digest: id(63),
            delegation_digest: id(64),
            status: HoldStatus::Active,
            settlement_digest: ZERO,
        },
    );
    state.notes.insert(
        id(60),
        NoteRecord {
            asset_id: id(2),
            one_time: id(65),
            value_commitment: id(61),
            ephemeral: id(66),
            masked_value: id(67),
            masked_blinding: id(68),
            lock_id: ZERO,
        },
    );
    state.settlement_verifiers.insert(
        id(110),
        SettlementVerifierRecord {
            venue_id: id(111),
            defmi_id: id(112),
            epoch: 1,
            quote_registry_digest: id(113),
            quote_eligibility_bits: 16,
            quote_span_bits: 24,
            amount_bits: 16,
            price_bits: 32,
            max_horizon: 3_600,
            frost_public_package: vec![1],
            valid_from: 1,
            valid_until: 1_000,
            statement: id(114),
        },
    );
    state
}

fn consumed() -> State {
    let mut state = fixture();
    let mut hold = *state.credit_holds.get(&id(50)).unwrap();
    hold.status = HoldStatus::Consumed;
    hold.settlement_digest = id(120);
    hold.updated_sequence = 5;
    state.credit_holds.insert(id(50), hold);
    state.note_claims.insert(
        id(121),
        NoteClaimRecord {
            asset_id: id(1),
            value_commitment: id(52),
            recipient_commitment: id(122),
            source_hold_id: id(50),
            kind: NoteClaimKind::Delivery,
            opening_envelope: Arc::new(OpeningEnvelope {
                context: id(5),
                threshold: 1,
                recipient_view: id(6),
                shares: vec![],
            }),
            status: ClaimStatus::Active,
            settlement_digest: id(120),
            materialization: ZERO,
        },
    );
    state.note_serials.insert(
        id(123),
        NoteSerialRecord {
            deadline: 500,
            asset_id: id(2),
            ring_root: id(124),
            statement: id(120),
        },
    );
    state
}

fn copy_provider(provider: &Provider) -> Provider {
    Provider {
        participant_id: provider.participant_id,
        public_key: provider.public_key,
        registration_key: provider.registration_key,
        defmi_guarantor_id: provider.defmi_guarantor_id,
        capabilities: provider.capabilities.clone(),
        valid_from: provider.valid_from,
        valid_until: provider.valid_until,
        sequence: provider.sequence,
        status: provider.status,
    }
}

fn copy_stream(stream: &Stream) -> Stream {
    Stream {
        attestor_provider_id: stream.attestor_provider_id,
        version: stream.version,
        settlement_asset_id: stream.settlement_asset_id,
        eligible_commitment: stream.eligible_commitment,
        pledged_commitment: stream.pledged_commitment,
        root: stream.root.clone(),
    }
}

fn copy_book(book: &AethelBook) -> AethelBook {
    AethelBook {
        root: book.root.clone(),
        unknown_provider: book.unknown_provider.clone(),
        unknown_stream: book.unknown_stream.clone(),
        unknown_issuer: book.unknown_issuer.clone(),
        providers: book.providers.share(),
        streams: book.streams.share(),
        series: book.series.share(),
        credit_decisions: book.credit_decisions.share(),
        guarantees: book.guarantees.share(),
        guarantee_statuses: book.guarantee_statuses.share(),
        guarantee_claims: book.guarantee_claims.share(),
        funding_quotes: book.funding_quotes.share(),
        issuances: book.issuances.share(),
        default_attestations: book.default_attestations.share(),
        confidential_subjects: book.confidential_subjects.share(),
        credential_issuers: book.credential_issuers.share(),
        status_lists: book.status_lists.share(),
    }
}

fn copy_clearing(book: &ClearingBook) -> ClearingBook {
    ClearingBook {
        capital_lock: book.capital_lock,
        facilities: book.facilities.share(),
        holds: book.holds.share(),
        members: book.members.share(),
    }
}

fn call_of(action: &mut Action) -> Option<&mut BookCall> {
    match action {
        Action::IssueAethelProvider { call, .. }
        | Action::IssueAethelStream { call, .. }
        | Action::IssueAethelStreamTransition { call, .. }
        | Action::IssueAethelSeries { call, .. }
        | Action::IssueAethelCreditDecision { call, .. }
        | Action::IssueAethelGuarantee { call, .. }
        | Action::IssueAethelGuaranteeRelease { call, .. }
        | Action::IssueAethelProviderKeyRotation { call, .. }
        | Action::IssueAethelProviderStatus { call, .. }
        | Action::IssueAethelCredentialIssuer { call, .. }
        | Action::IssueAethelCredentialStatus { call, .. }
        | Action::IssueAethelFundingQuote { call, .. }
        | Action::IssueAethelReceivable { call, .. }
        | Action::IssueAethelDefault { call, .. }
        | Action::IssueAethelGuaranteeClaim { call, .. } => Some(call),
        _ => None,
    }
}

// What the book is asked, and the book after it.
fn record(state: &State, action: &Action) -> Option<(BookQuestion, Id, AethelBook)> {
    let mut book = copy_book(&state.aethel);
    book.root = Ok(id(202));
    let (question, operation_id) = match action {
        Action::IssueAethelProvider {
            provider_id,
            provider,
            operation_id,
            ..
        } => {
            book.providers.insert(*provider_id, copy_provider(provider));
            let provider_id = *provider_id;
            (BookQuestion::RegisterProvider { provider_id }, *operation_id)
        }
        Action::IssueAethelStream {
            stream_id,
            stream,
            operation_id,
            ..
        } => {
            book.streams.insert(*stream_id, copy_stream(stream));
            let stream_id = *stream_id;
            (BookQuestion::RegisterStream { stream_id }, *operation_id)
        }
        Action::IssueAethelStreamTransition {
            attestor_provider_id,
            stream_id,
            stream,
            operation_id,
            ..
        } => {
            book.streams.insert(*stream_id, copy_stream(stream));
            let question = BookQuestion::TransitionStream {
                attestor_provider_id: *attestor_provider_id,
                stream_id: *stream_id,
            };
            (question, *operation_id)
        }
        Action::IssueAethelSeries {
            series_id,
            series,
            operation_id,
            ..
        } => {
            book.series.insert(*series_id, *series);
            let series_id = *series_id;
            (BookQuestion::RegisterSeries { series_id }, *operation_id)
        }
        Action::IssueAethelCreditDecision {
            decision_id,
            decision,
            subject,
            operation_id,
            ..
        } => {
            book.credit_decisions.insert(*decision_id, *decision);
            if *subject == Ok(true) {
                book.confidential_subjects
                    .insert(
                        decision.request_id,
                        ConfidentialSubject {
                            policy_digest: decision.policy_digest,
                        },
                    );
            }
            let question = BookQuestion::RecordDecision {
                decision_id: *decision_id,
                request_id: decision.request_id,
            };
            (question, *operation_id)
        }
        Action::IssueAethelGuarantee {
            request, subject, ..
        } => {
            book.guarantees.insert(request.guarantee_id, *request);
            book.guarantee_statuses
                .insert(request.guarantee_id, GuaranteeStatus::Open);
            if *subject == Ok(true) {
                book.confidential_subjects.insert(
                    request.request_id,
                    ConfidentialSubject {
                        policy_digest: id(26),
                    },
                );
            }
            let request = *request;
            (
                BookQuestion::RecordGuarantee { request },
                request.operation_id,
            )
        }
        Action::IssueAethelGuaranteeRelease { request, .. } => {
            book.guarantee_statuses
                .insert(request.guarantee_id, GuaranteeStatus::Released);
            let request = *request;
            (
                BookQuestion::ReleaseGuarantee { request },
                request.operation_id,
            )
        }
        Action::IssueAethelProviderKeyRotation {
            provider_id,
            next_public_key,
            operation_id,
            ..
        } => {
            let mut rotated = copy_provider(state.aethel.providers.get(provider_id)?);
            rotated.public_key = *next_public_key;
            rotated.sequence += 1;
            book.providers.insert(*provider_id, rotated);
            let question = BookQuestion::RotateKey {
                provider_id: *provider_id,
                next_public_key: *next_public_key,
            };
            (question, *operation_id)
        }
        Action::IssueAethelProviderStatus {
            provider_id,
            status,
            operation_id,
            ..
        } => {
            let mut restated = copy_provider(state.aethel.providers.get(provider_id)?);
            restated.status = *status;
            restated.sequence += 1;
            book.providers.insert(*provider_id, restated);
            let question = BookQuestion::SetStatus {
                provider_id: *provider_id,
                status: *status,
            };
            (question, *operation_id)
        }
        Action::IssueAethelCredentialIssuer {
            provider_id,
            epoch,
            issuer,
            operation_id,
            ..
        } => {
            book.credential_issuers.insert(*epoch, *issuer);
            let question = BookQuestion::RegisterIssuer {
                provider_id: *provider_id,
                epoch: *epoch,
            };
            (question, *operation_id)
        }
        Action::IssueAethelCredentialStatus {
            epoch,
            list,
            operation_id,
            ..
        } => {
            book.status_lists.insert(
                *epoch,
                StatusList {
                    status_epoch: list.status_epoch,
                    valid_from: list.valid_from,
                    valid_until: list.valid_until,
                    revoked: list.revoked.clone(),
                },
            );
            let epoch = *epoch;
            (BookQuestion::PublishStatus { epoch }, *operation_id)
        }
        Action::IssueAethelFundingQuote {
            quote_id, quote, ..
        } => {
            book.funding_quotes.insert(*quote_id, *quote);
            let quote_id = *quote_id;
            (BookQuestion::RecordQuote { quote_id }, quote.operation_id)
        }
        Action::IssueAethelReceivable {
            request, successor, ..
        } => {
            let stream_id = state.aethel.series.get(&request.series_id)?.stream_id;
            let mut stream = copy_stream(state.aethel.streams.get(&stream_id)?);
            stream.version += 1;
            stream.pledged_commitment = request.after_pledged_commitment;
            stream.root = successor.root.clone();
            book.streams.insert(stream_id, stream);
            book.issuances.insert(request.issuance_id, *request);
            let request = *request;
            (BookQuestion::Issue { request }, request.operation_id)
        }
        Action::IssueAethelDefault {
            attestation_id,
            attestation,
            ..
        } => {
            book.default_attestations
                .insert(*attestation_id, *attestation);
            let attestation_id = *attestation_id;
            (
                BookQuestion::RecordDefault { attestation_id },
                attestation.operation_id,
            )
        }
        Action::IssueAethelGuaranteeClaim { request, .. } => {
            book.guarantee_statuses
                .insert(request.guarantee_id, GuaranteeStatus::Claimed);
            book.guarantee_claims.insert(request.claim_id, *request);
            let request = *request;
            (BookQuestion::Claim { request }, request.operation_id)
        }
        _ => return None,
    };
    Some((question, operation_id, book))
}

fn moved(book: &mut ClearingBook, facility_id: Id, digest: Id) {
    if let Some(facility) = book.facilities.get(&facility_id) {
        let mut next = *facility;
        next.sequence += 1;
        next.latest_facility_state_digest = digest;
        book.facilities.insert(facility_id, next);
    }
}

// The clearing book after a question.
fn clear(state: &State, question: ClearingQuestion, now: u64) -> ClearingAnswer {
    let mut book = match &state.deccp {
        Some(book) => copy_clearing(book),
        None => ClearingBook {
            capital_lock: ZERO,
            facilities: Table::new(),
            holds: Table::new(),
            members: Table::new(),
        },
    };
    match question {
        ClearingQuestion::Reserve { offer } => {
            book.holds.insert(
                offer.deccp_hold_id,
                ConfidentialHold {
                    hold_id: offer.deccp_hold_id,
                    facility_id: offer.deccp_facility_id,
                    defmi_hold_id: offer.defmi_hold_id,
                    coverage_commitment: offer.coverage_commitment,
                    status: ClearingHoldStatus::Reserved,
                    bound_exposure_id: None,
                    defmi_settlement_receipt: None,
                },
            );
            moved(
                &mut book,
                offer.deccp_facility_id,
                offer.deccp_after_state_digest,
            );
        }
        ClearingQuestion::Bind {
            binding,
            issuance_id,
            ..
        } => {
            let mut hold = *book.holds.get(&binding.deccp_hold_id).unwrap();
            hold.bound_exposure_id = Some(issuance_id);
            book.holds.insert(binding.deccp_hold_id, hold);
        }
        ClearingQuestion::Release {
            binding,
            transition,
        } => {
            let mut hold = *book.holds.get(&binding.deccp_hold_id).unwrap();
            hold.status = ClearingHoldStatus::Released;
            hold.defmi_settlement_receipt = Some(transition.receipt.receipt_digest);
            book.holds.insert(binding.deccp_hold_id, hold);
            moved(
                &mut book,
                binding.deccp_facility_id,
                transition.deccp_after_state_digest,
            );
        }
        ClearingQuestion::Claim { consumption } => {
            let binding = consumption.binding;
            let mut hold = *book.holds.get(&binding.deccp_hold_id).unwrap();
            hold.status = ClearingHoldStatus::Consumed;
            hold.defmi_settlement_receipt = Some(consumption.transition.receipt.receipt_digest);
            book.holds.insert(binding.deccp_hold_id, hold);
            moved(
                &mut book,
                binding.deccp_facility_id,
                consumption.transition.deccp_after_state_digest,
            );
        }
        ClearingQuestion::Open { capitalization, .. } => {
            book.capital_lock = capitalization.defmi_lock_id;
        }
        ClearingQuestion::Admit {
            participant_id,
            subject_line_id,
            ..
        } => {
            book.members
                .insert(participant_id, ClearingMember { subject_line_id });
        }
        ClearingQuestion::Register { facility, .. } => {
            book.facilities.insert(facility.facility_id, facility);
        }
    }
    ClearingAnswer {
        question,
        now,
        book: Ok(Arc::new(book)),
    }
}

// What the clearing book is asked, if the library has a question for it.
fn question(state: &State, action: &Action, now: u64) -> Option<ClearingQuestion> {
    let book = state.deccp.as_ref();
    match action {
        Action::IssueAethelGuarantee { request, .. } => deccp_offer(state, book?, request)
            .ok()
            .map(|offer| ClearingQuestion::Reserve { offer }),
        Action::IssueAethelGuaranteeRelease { request, .. } => {
            guarantee_release(state, request, now)
                .ok()
                .map(|(binding, transition)| ClearingQuestion::Release {
                    binding,
                    transition,
                })
        }
        Action::IssueAethelReceivable { request, .. } => {
            let guarantee = state.aethel.guarantees.get(&request.guarantee_id?)?;
            deccp_binding(book?, guarantee)
                .ok()
                .map(|binding| ClearingQuestion::Bind {
                    operation_id: request.operation_id,
                    binding,
                    issuance_id: request.issuance_id,
                })
        }
        Action::IssueAethelGuaranteeClaim { request, .. } => {
            consume_deccp_guarantee(state, request, now)
                .ok()
                .map(|consumption| ClearingQuestion::Claim { consumption })
        }
        Action::IssueDeccpClearingBook { request, .. } => {
            request
                .statement()
                .ok()
                .map(|statement| ClearingQuestion::Open {
                    statement,
                    capitalization: request.capitalization,
                })
        }
        Action::IssueDeccpMember {
            request, statement, ..
        } => Some(ClearingQuestion::Admit {
            statement: *statement.as_ref().ok()?,
            context: membership_context(book?, request),
            participant_id: request.participant_id,
            subject_line_id: request.eligibility.subject_line_id,
        }),
        Action::IssueDeccpGuaranteeFacility {
            operation_id,
            facility,
            ..
        } => Some(ClearingQuestion::Register {
            operation_id: *operation_id,
            facility: *facility,
        }),
        _ => None,
    }
}

fn answer_of(action: &mut Action) -> Option<&mut ClearingAnswer> {
    match action {
        Action::IssueAethelGuarantee { answer, .. }
        | Action::IssueAethelGuaranteeRelease { answer, .. }
        | Action::IssueAethelReceivable { answer, .. }
        | Action::IssueAethelGuaranteeClaim { answer, .. }
        | Action::IssueDeccpClearingBook { opened: answer, .. }
        | Action::IssueDeccpMember {
            admitted: answer, ..
        }
        | Action::IssueDeccpGuaranteeFacility {
            registered: answer, ..
        } => Some(answer),
        _ => None,
    }
}

// The action with the answers of both books to what the library asks of them.
fn ask(state: &State, mut action: Action, now: u64) -> Action {
    let cleared = question(state, &action, now).map(|question| clear(state, question, now));
    if let (Some(cleared), Some(answer)) = (cleared, answer_of(&mut action)) {
        *answer = cleared;
    }
    let recorded = record(state, &action);
    if let (Some((question, operation_id, book)), Some(call)) = (recorded, call_of(&mut action)) {
        call.question = question;
        call.operation_id = operation_id;
        call.now = now;
        call.recorded = Ok(Arc::new(book));
    }
    action
}

fn submit(state: &mut State, action: Action, now: u64) -> Result<Id, String> {
    let submitted = approved(state, action.statement().unwrap_or(Id::zero()));
    state.apply(action, &submitted, now)
}

fn act(state: &mut State, action: Action, now: u64) -> Result<Id, String> {
    let action = ask(state, action, now);
    submit(state, action, now)
}

fn call() -> BookCall {
    BookCall {
        question: BookQuestion::RecordQuote { quote_id: ZERO },
        operation_id: ZERO,
        now: 0,
        statement: Ok(id(200)),
        recorded: Err("the book was not asked".into()),
    }
}

fn unanswered() -> ClearingAnswer {
    ClearingAnswer {
        question: ClearingQuestion::Register {
            operation_id: ZERO,
            facility: ConfidentialFacility {
                facility_id: ZERO,
                guarantor_id: ZERO,
                defmi_facility_id: ZERO,
                settlement_asset_id: ZERO,
                capacity_commitment: ZERO,
                beneficiary_subject_line_id: ZERO,
                sequence: 0,
                latest_facility_state_digest: ZERO,
                valid_until: 0,
            },
        },
        now: 0,
        book: Err("the clearing book was not asked".into()),
    }
}

// An action on the book is carried out once, and only where the book was asked for
// it, has lost nothing and holds it. `spoil` takes away what is to be recorded.
fn records(
    state: &State,
    action: fn() -> Action,
    operation: u8,
    spoil: Option<fn(&mut AethelBook)>,
) {
    let mut attempt = state.share();
    let refuses = |change: &dyn Fn(&mut BookCall), message: &str| {
        let mut attempt = state.share();
        let mut changed = ask(&attempt, action(), 100);
        change(call_of(&mut changed).unwrap());
        assert_eq!(
            submit(&mut attempt, changed, 100),
            Err(message.to_string())
        );
        assert_eq!(attempt, *state);
    };
    let elsewhere = "the book of receivables was asked something else";
    refuses(&|call| call.now = 99, elsewhere);
    refuses(&|call| call.operation_id = id(1), elsewhere);
    refuses(
        &|call| call.question = BookQuestion::RecordQuote { quote_id: id(1) },
        elsewhere,
    );
    refuses(
        &|call| call.recorded = Ok(Arc::new(AethelBook::new())),
        "the book of receivables has lost what it held",
    );
    refuses(
        &|call| call.recorded = Err("the book refuses".into()),
        "the book refuses",
    );
    refuses(
        &|call| {
            let mut book = copy_book(call.recorded.as_ref().unwrap());
            book.providers.insert(id(251), provider());
            call.recorded = Ok(Arc::new(book));
        },
        "the book of receivables has changed something else",
    );
    refuses(
        &|call| {
            let mut book = copy_book(call.recorded.as_ref().unwrap());
            let mut other = quote();
            other.advance_commitment = id(251);
            book.funding_quotes.insert(id(84), other);
            call.recorded = Ok(Arc::new(book));
        },
        "the book of receivables has changed something else",
    );
    if let Some(spoil) = spoil {
        refuses(
            &|call| {
                let mut book = copy_book(call.recorded.as_ref().unwrap());
                spoil(&mut book);
                call.recorded = Ok(Arc::new(book));
            },
            "the book of receivables does not hold what was recorded",
        );
    }
    let stranger = approved(&attempt, id(199));
    let asked = ask(&attempt, action(), 100);
    assert_eq!(
        attempt.apply(asked, &stranger, 100),
        Err("k-of-n DeFMI approval is invalid".to_string())
    );
    assert_eq!(attempt, *state);
    assert_eq!(act(&mut attempt, action(), 100), Ok(id(200)));
    assert_eq!(attempt.aethel.root, Ok(id(202)));
    assert_eq!(attempt.operations.get(&id(operation)), Some(&id(200)));
    assert_eq!(attempt.transition_count, state.transition_count + 1);
    let recorded = attempt.share();
    assert_eq!(
        act(&mut attempt, action(), 100),
        Err("Aethel operation identifier was already used".to_string())
    );
    assert_eq!(attempt, recorded);
}

fn instruction() -> ReceivableInstruction {
    let state = fixture();
    ReceivableInstruction {
        encoded: b"issue".to_vec(),
        operation: ReceivableOperation::Issue,
        venue_id: id(111),
        verifier_epoch: 1,
        defmi_id: id(112),
        aethel_domain_id: id(22),
        request_id: id(72),
        action_id: id(91),
        series_id: id(20),
        stream_id: id(21),
        stream_state_version: 1,
        before_stream_state_root: id(23),
        after_stream_state_root: id(28),
        eligible_commitment: id(24),
        before_pledged_commitment: id(25),
        after_pledged_commitment: id(93),
        receivable_note_id: id(60),
        settlement_asset_id: id(1),
        credit: credit_reference(&state, Some(id(30))).unwrap(),
        guarantee: guarantee_reference(&state, Some(id(71))).unwrap(),
        funding: ProviderReference::absent(),
        policy_digest: id(26),
        relation_proof_digest: id(94),
        operation_nullifier: id(95),
        before_aethel_root: id(99),
        amount_commitment: id(61),
        price_commitment: id(52),
        payee_handle: id(92),
    }
}

fn submitted(instruction: ReceivableInstruction) -> SubmittedInstruction {
    let checks = receivable_checks(&fixture(), &vec![1, 2, 3], &instruction, &id(110), 100);
    SubmittedInstruction {
        text: Some("AQID".into()),
        decoded: Ok(instruction),
        checks: checks.unwrap(),
        verifier_key: id(110),
        package_valid: true,
        verified: Ok(()),
    }
}

fn successor() -> IssuanceSuccessor {
    let (stream_id, version, after_pledged_commitment) =
        successor_request(&fixture(), &issuance()).unwrap();
    IssuanceSuccessor {
        stream_id,
        version,
        after_pledged_commitment,
        valid: Ok(()),
        root: Ok(id(28)),
    }
}

fn issue(state: &mut State, submitted: SubmittedInstruction) -> Result<Id, String> {
    act(
        state,
        Action::IssueAethelReceivable {
            request: issuance(),
            submitted,
            successor: successor(),
            answer: unanswered(),
            call: call(),
        },
        100,
    )
}

fn claim() -> GuaranteeClaim {
    GuaranteeClaim {
        operation_id: id(130),
        claim_id: id(131),
        guarantee_id: id(71),
        issuance_id: id(91),
        default_attestation_id: id(96),
        claim_amount_commitment: id(52),
        recovery_recipient_commitment: id(122),
        defmi_settlement_digest: id(120),
        relation_proof_digest: id(132),
        zkpi_digest: Id::digest(b"claim"),
    }
}

fn claiming() -> ReceivableInstruction {
    ReceivableInstruction {
        encoded: b"claim".to_vec(),
        operation: ReceivableOperation::ClaimGuarantee,
        action_id: id(131),
        after_stream_state_root: id(23),
        after_pledged_commitment: id(25),
        policy_digest: id(27),
        relation_proof_digest: id(132),
        operation_nullifier: id(131),
        amount_commitment: id(52),
        price_commitment: id(52),
        payee_handle: id(122),
        ..instruction()
    }
}

#[test]
fn providers_fit_their_participants() {
    let mut state = fixture();
    assert_eq!(validate_provider_identity(&state, &provider()), Ok(()));
    let refuses = |change: fn(&mut Provider), message: &str| {
        let state = fixture();
        let mut changed = provider();
        change(&mut changed);
        assert_eq!(
            validate_provider_identity(&state, &changed),
            Err(message.to_string())
        );
    };
    refuses(
        |provider| provider.participant_id = id(1),
        "Aethel references an unknown DeFMI participant",
    );
    refuses(
        |provider| provider.valid_until = 1_001,
        "Aethel provider is outside its participant identity or quote-key epoch",
    );
    refuses(
        |provider| provider.defmi_guarantor_id = Some(id(1)),
        "Aethel guarantee provider has no DeFMI guarantor",
    );
    let action = || Action::IssueAethelProvider {
        provider_id: id(13),
        provider: provider(),
        operation_id: id(210),
        call: call(),
    };
    records(
        &state,
        action,
        210,
        Some(|book| {
            let mut other = provider();
            other.sequence = 9;
            book.providers.insert(id(13), other);
        }),
    );
    assert_eq!(act(&mut state, action(), 100), Ok(id(200)));
    assert_eq!(state.aethel.providers.get(&id(13)), Some(&provider()));
}

#[test]
fn providers_act_while_capable_and_current() {
    let mut state = fixture();
    assert_eq!(
        validate_provider_runtime(&state, &id(13), ProviderCapability::Guarantor, 100),
        Ok(())
    );
    assert_eq!(
        validate_provider_runtime(&state, &id(1), ProviderCapability::Guarantor, 100),
        Err("unknown provider".to_string())
    );
    // A provider acts within its own validity, which ends before its participant's.
    let inactive = Err("Aethel provider capability is inactive at execution time".to_string());
    for timestamp in [0, 4, 901, 1_000, 1_001] {
        assert_eq!(
            validate_provider_runtime(
                &state,
                &id(13),
                ProviderCapability::Guarantor,
                timestamp
            ),
            inactive
        );
    }
    for timestamp in [5, 900] {
        assert_eq!(
            validate_provider_runtime(
                &state,
                &id(13),
                ProviderCapability::Guarantor,
                timestamp
            ),
            Ok(())
        );
    }
    let mut participant = state.participants.get(&id(10)).map(|known| ParticipantRecord {
        roles: known.roles.clone(),
        quote_public_key: known.quote_public_key,
        valid_from: known.valid_from,
        valid_until: known.valid_until,
        active: known.active,
    });
    if let Some(participant) = &mut participant {
        participant.valid_until = 800;
    }
    state.participants.insert(id(10), participant.unwrap());
    assert_eq!(
        validate_provider_runtime(&state, &id(13), ProviderCapability::Guarantor, 801),
        Err("Aethel provider no longer matches its active participant key epoch".to_string())
    );
    for status in [ProviderStatus::Suspended, ProviderStatus::Revoked] {
        let mut changed = book();
        let mut retired = provider();
        retired.status = status;
        changed.providers.insert(id(13), retired);
        state.aethel = Arc::new(changed);
        for capability in ALL {
            assert_eq!(
                validate_provider_runtime(&state, &id(13), capability, 100),
                inactive
            );
        }
    }
    let mut changed = book();
    let mut narrow = provider();
    narrow.capabilities = vec![ProviderCapability::Guarantor];
    changed.providers.insert(id(13), narrow);
    state.aethel = Arc::new(changed);
    assert_eq!(
        validate_provider_runtime(&state, &id(13), ProviderCapability::Servicer, 100),
        inactive
    );
}

#[test]
fn streams_series_and_decisions_are_recorded_by_capable_providers() {
    let mut state = fixture();
    let mut refuses = |action: Action, message: &str| {
        assert_eq!(act(&mut state, action, 100), Err(message.to_string()));
        assert_eq!(state, fixture());
    };
    for (settlement_asset_id, message) in [
        (
            id(2),
            "Aethel stream settlement asset must use a DeFMI cash rail",
        ),
        (id(9), "stream settlement asset is inactive or unknown"),
    ] {
        refuses(
            Action::IssueAethelStream {
                stream_id: id(21),
                stream: Stream {
                    settlement_asset_id,
                    ..stream()
                },
                operation_id: id(210),
                call: call(),
            },
            message,
        );
    }
    refuses(
        Action::IssueAethelStreamTransition {
            attestor_provider_id: id(1),
            stream_id: id(21),
            stream: stream(),
            operation_id: id(211),
            call: call(),
        },
        "unknown provider",
    );
    refuses(
        Action::IssueAethelSeries {
            series_id: id(20),
            series: Series {
                receivable_asset_id: id(9),
                ..series()
            },
            operation_id: id(212),
            call: call(),
        },
        "receivable note asset is inactive or unknown",
    );
    refuses(
        Action::IssueAethelCreditDecision {
            decision_id: id(30),
            decision: decision(),
            subject: Err("no subject proof".into()),
            operation_id: id(213),
            call: call(),
        },
        "no subject proof",
    );
    let state = fixture();
    records(
        &state,
        || Action::IssueAethelStream {
            stream_id: id(21),
            stream: stream(),
            operation_id: id(210),
            call: call(),
        },
        210,
        Some(|book| {
            let mut other = stream();
            other.version = 9;
            book.streams.insert(id(21), other);
        }),
    );
    records(
        &state,
        || Action::IssueAethelStreamTransition {
            attestor_provider_id: id(13),
            stream_id: id(21),
            stream: stream(),
            operation_id: id(211),
            call: call(),
        },
        211,
        Some(|book| {
            let mut other = stream();
            other.pledged_commitment = id(9);
            book.streams.insert(id(21), other);
        }),
    );
    records(
        &state,
        || Action::IssueAethelSeries {
            series_id: id(20),
            series: series(),
            operation_id: id(212),
            call: call(),
        },
        212,
        Some(|book| {
            let mut other = series();
            other.stream_id = id(9);
            book.series.insert(id(20), other);
        }),
    );
    for subject in [true, false] {
        let decide: fn() -> Action = if subject {
            || Action::IssueAethelCreditDecision {
                decision_id: id(30),
                decision: decision(),
                subject: Ok(true),
                operation_id: id(213),
                call: call(),
            }
        } else {
            || Action::IssueAethelCreditDecision {
                decision_id: id(30),
                decision: decision(),
                subject: Ok(false),
                operation_id: id(213),
                call: call(),
            }
        };
        records(
            &state,
            decide,
            213,
            Some(|book| {
                let mut other = decision();
                other.model_digest = id(9);
                book.credit_decisions.insert(id(30), other);
            }),
        );
    }
    // A decision with a subject's proof binds the subject to its request.
    let mut unbound = state.share();
    let mut confidential = ask(
        &unbound,
        Action::IssueAethelCreditDecision {
            decision_id: id(30),
            decision: decision(),
            subject: Ok(true),
            operation_id: id(213),
            call: call(),
        },
        100,
    );
    call_of(&mut confidential).unwrap().recorded = Ok(Arc::new(book()));
    assert_eq!(
        submit(&mut unbound, confidential, 100),
        Err("the book of receivables does not hold what was recorded".to_string())
    );
    records(
        &state,
        || Action::IssueAethelDefault {
            attestation_id: id(96),
            attestation: attestation(),
            call: call(),
        },
        97,
        Some(|book| {
            let mut other = attestation();
            other.event_digest = id(9);
            book.default_attestations.insert(id(96), other);
        }),
    );
    records(
        &state,
        || Action::IssueAethelCredentialIssuer {
            provider_id: id(13),
            epoch: EPOCH,
            issuer: dekyx(),
            operation_id: id(214),
            call: call(),
        },
        214,
        Some(|book| {
            let mut other = dekyx();
            other.public_key = id(9);
            book.credential_issuers.insert(EPOCH, other);
        }),
    );
    records(
        &state,
        || Action::IssueAethelCredentialStatus {
            epoch: EPOCH,
            list: status_list(vec![id(7)]),
            operation_id: id(216),
            call: call(),
        },
        216,
        Some(|book| book.status_lists.insert(EPOCH, status_list(vec![]))),
    );
    records(
        &state,
        || Action::IssueAethelProviderStatus {
            provider_id: id(13),
            status: ProviderStatus::Suspended,
            operation_id: id(215),
            call: call(),
        },
        215,
        Some(|book| book.providers.insert(id(13), provider())),
    );
    records(
        &state,
        || Action::IssueAethelProviderKeyRotation {
            provider_id: id(13),
            next_public_key: id(11),
            operation_id: id(217),
            call: call(),
        },
        217,
        Some(|book| {
            let mut other = provider();
            other.sequence = 1;
            other.registration_key = id(9);
            book.providers.insert(id(13), other);
        }),
    );
}

#[test]
fn a_suspended_provider_is_stopped_until_it_is_reinstated() {
    let mut state = fixture();
    let restate = |status: ProviderStatus, operation: u8| Action::IssueAethelProviderStatus {
        provider_id: id(13),
        status,
        operation_id: id(operation),
        call: call(),
    };
    let unknown = Action::IssueAethelProviderStatus {
        provider_id: id(1),
        status: ProviderStatus::Suspended,
        operation_id: id(150),
        call: call(),
    };
    assert!(act(&mut state, unknown, 100).is_err());
    assert_eq!(state, fixture());
    act(&mut state, restate(ProviderStatus::Suspended, 151), 100).unwrap();
    for capability in ALL {
        for timestamp in [5, 100, 900] {
            assert!(validate_provider_runtime(&state, &id(13), capability, timestamp).is_err());
        }
    }
    act(&mut state, restate(ProviderStatus::Active, 152), 101).unwrap();
    assert_eq!(
        validate_provider_runtime(&state, &id(13), ProviderCapability::Guarantor, 101),
        Ok(())
    );
    assert_eq!(state.aethel.providers.get(&id(13)).unwrap().sequence, 2);
    act(&mut state, restate(ProviderStatus::Revoked, 153), 102).unwrap();
    assert!(
        validate_provider_runtime(&state, &id(13), ProviderCapability::Guarantor, 102).is_err()
    );
    assert_eq!(state.transition_count, 3);
}

#[test]
fn provider_keys_rotate_to_the_current_quote_key() {
    let mut state = fixture();
    let rotate = |next_public_key: Id| Action::IssueAethelProviderKeyRotation {
        provider_id: id(13),
        next_public_key,
        operation_id: id(210),
        call: call(),
    };
    let refusal = "Aethel provider key rotation must install the participant's current quote key";
    for (key, timestamp) in [(id(1), 100), (id(11), 1_001)] {
        assert_eq!(
            act(&mut state, rotate(key), timestamp),
            Err(refusal.to_string())
        );
    }
    assert_eq!(act(&mut state, rotate(id(11)), 100), Ok(id(200)));
}

#[test]
fn funding_quotes_need_a_live_cash_reserve() {
    let mut state = fixture();
    let offer = |quote: FundingQuote| Action::IssueAethelFundingQuote {
        quote_id: id(83),
        quote,
        call: call(),
    };
    let mut foreign = quote();
    foreign.cash_reservation_id = id(1);
    assert_eq!(
        act(&mut state, offer(foreign), 100),
        Err("Aethel funding quote names an unknown DeFMI cash reserve".to_string())
    );
    assert_eq!(
        act(&mut state, offer(quote()), 601),
        Err("Aethel funding quote is not backed by the named live cash reserve".to_string())
    );
    records(
        &state,
        || Action::IssueAethelFundingQuote {
            quote_id: id(83),
            quote: quote(),
            call: call(),
        },
        80,
        Some(|book| {
            let mut other = quote();
            other.valid_until = 9;
            book.funding_quotes.insert(id(83), other);
        }),
    );
}

#[test]
fn guarantees_need_a_live_hold_and_the_clearing_book() {
    let recording = |request: GuaranteeCommitment| Action::IssueAethelGuarantee {
        request,
        answer: unanswered(),
        subject: Ok(false),
        call: call(),
    };
    let mut state = fixture();
    let mut larger = guarantee();
    larger.coverage_commitment = id(1);
    assert_eq!(
        act(&mut state, recording(larger), 100),
        Err("Aethel guarantee is not backed by the named live DeFMI hold".to_string())
    );
    let refuses = |change: &dyn Fn(&mut ClearingAnswer), message: &str| {
        let mut state = fixture();
        let mut changed = ask(&state, recording(guarantee()), 100);
        change(answer_of(&mut changed).unwrap());
        assert_eq!(
            submit(&mut state, changed, 100),
            Err(message.to_string())
        );
        assert_eq!(state, fixture());
    };
    refuses(
        &|answer| answer.book = Err("capacity".into()),
        "DeCCP refused the guarantee reservation: capacity",
    );
    let elsewhere = "the clearing book was asked something else";
    refuses(&|answer| answer.now = 99, elsewhere);
    refuses(
        &|answer| {
            if let ClearingQuestion::Reserve { offer } = &mut answer.question {
                offer.coverage_commitment = id(1);
            }
        },
        elsewhere,
    );
    refuses(&|answer| *answer = unanswered(), elsewhere);
    let unheld = "the clearing book does not hold what was asked for";
    refuses(&|answer| answer.book = Ok(Arc::new(cleared())), unheld);
    let spoiled = |answer: &mut ClearingAnswer, spoil: fn(&mut ClearingBook)| {
        let mut book = copy_clearing(answer.book.as_ref().unwrap());
        spoil(&mut book);
        answer.book = Ok(Arc::new(book));
    };
    for spoil in [
        (|book: &mut ClearingBook| book.holds = Table::new()) as fn(&mut ClearingBook),
        |book| {
            let mut hold = *book.holds.get(&id(71)).unwrap();
            hold.defmi_hold_id = id(1);
            book.holds.insert(id(71), hold);
        },
        |book| {
            let mut hold = *book.holds.get(&id(71)).unwrap();
            hold.coverage_commitment = id(1);
            book.holds.insert(id(71), hold);
        },
        |book| {
            let mut hold = *book.holds.get(&id(71)).unwrap();
            hold.status = ClearingHoldStatus::Released;
            book.holds.insert(id(71), hold);
        },
        |book| {
            let mut facility = *book.facilities.get(&id(40)).unwrap();
            facility.sequence = 6;
            book.facilities.insert(id(40), facility);
        },
        |book| {
            let mut facility = *book.facilities.get(&id(40)).unwrap();
            facility.latest_facility_state_digest = id(45);
            book.facilities.insert(id(40), facility);
        },
        |book| {
            let hold = *book.holds.get(&id(71)).unwrap();
            book.holds.insert(id(9), hold);
        },
        |book| {
            book.members.insert(
                id(9),
                ClearingMember {
                    subject_line_id: id(9),
                },
            )
        },
        |book| book.facilities = Table::new(),
        |book| book.capital_lock = id(1),
    ] {
        refuses(&|answer| spoiled(answer, spoil), unheld);
    }
    records(
        &state,
        || Action::IssueAethelGuarantee {
            request: guarantee(),
            answer: unanswered(),
            subject: Ok(false),
            call: call(),
        },
        70,
        Some(|book| {
            book.guarantee_statuses
                .insert(id(71), GuaranteeStatus::Released)
        }),
    );
    assert_eq!(act(&mut state, recording(guarantee()), 100), Ok(id(200)));
    let book = state.deccp.as_ref().unwrap();
    let hold = book.holds.get(&id(71)).unwrap();
    assert_eq!(hold.status, ClearingHoldStatus::Reserved);
    assert_eq!(hold.defmi_hold_id, id(50));
    assert_eq!(hold.coverage_commitment, id(52));
    assert_eq!(book.facilities.get(&id(40)).unwrap().sequence, 7);
    assert_eq!(state.aethel.guarantees.get(&id(71)), Some(&guarantee()));
    let mut unhosted = fixture();
    unhosted.deccp = None;
    assert_eq!(
        act(&mut unhosted, recording(guarantee()), 100),
        Err("this VM hosts no DeCCP clearing book".to_string())
    );
}

#[test]
fn offers_and_closings_are_attested_by_the_records() {
    let state = fixture();
    let book = cleared();
    let facility = *book.facilities.get(&id(40)).unwrap();
    let offer = deccp_offer(&state, &book, &guarantee()).unwrap();
    assert_eq!(offer.deccp_expected_sequence, 6);
    assert_eq!(offer.loss_layer, ClearingLossLayer::FirstLoss);
    assert_eq!(
        offer.deccp_after_state_digest,
        next_facility_state(id(45), FacilityTransition::Reserve, id(50), id(52), 3)
    );
    assert_eq!(
        VmDefmiPort { state: &state }.verify_confidential_guarantee_hold(
            &facility,
            &ConfidentialReservation {
                defmi_hold_id: offer.defmi_hold_id,
                coverage_commitment: offer.coverage_commitment,
                expected_facility_state_digest: offer.deccp_expected_state_digest,
                after_facility_state_digest: offer.deccp_after_state_digest,
                valid_until: offer.valid_until,
            }
        ),
        Ok(())
    );
    let binding = deccp_binding(&book, &guarantee()).unwrap();
    assert_eq!(binding.deccp_hold_id, id(71));
    let mut other = guarantee();
    other.coverage_commitment = id(1);
    assert_eq!(
        deccp_binding(&book, &other).unwrap_err(),
        "DeCCP reservation and Aethel guarantee describe different holds"
    );
    other.guarantee_id = id(1);
    assert_eq!(
        deccp_binding(&book, &other).unwrap_err(),
        "DeCCP holds no reservation for the Aethel guarantee"
    );

    let state = consumed();
    let consumption = consume_deccp_guarantee(&state, &claim(), 100).unwrap();
    assert_eq!(consumption.default_event_digest, id(98));
    assert_eq!(
        VmDefmiPort { state: &state }.verify_confidential_guarantee_claim(
            &facility,
            cleared().holds.get(&id(71)).unwrap(),
            &ConfidentialRequest {
                expected_facility_state_digest: consumption.transition.deccp_expected_state_digest,
                after_facility_state_digest: consumption.transition.deccp_after_state_digest,
                receipt: consumption.transition.receipt,
            },
            100,
        ),
        Ok(())
    );
}

#[test]
fn guarantees_are_withdrawn_after_their_hold_is_released() {
    let release = GuaranteeRelease {
        operation_id: id(140),
        provider_id: id(13),
        guarantee_id: id(71),
        defmi_settlement_digest: id(141),
        relation_proof_digest: id(142),
    };
    let withdraw = || Action::IssueAethelGuaranteeRelease {
        request: release,
        answer: unanswered(),
        call: call(),
    };
    let mut state = fixture();
    assert_eq!(
        act(&mut state, withdraw(), 100),
        Err("Aethel release is not bound to the released DeFMI guarantee hold".to_string())
    );
    let mut hold = *state.credit_holds.get(&id(50)).unwrap();
    hold.status = HoldStatus::Released;
    hold.settlement_digest = id(141);
    state.credit_holds.insert(id(50), hold);
    let (binding, transition) = guarantee_release(&state, &release, 100).unwrap();
    assert_eq!(binding.guarantee_id, id(71));
    assert_eq!(transition.operation_id, id(140));
    assert_eq!(
        transition.deccp_after_state_digest,
        next_facility_state(id(45), FacilityTransition::Release, id(50), id(52), 4)
    );
    let mut elsewhere = ask(&state, withdraw(), 100);
    answer_of(&mut elsewhere).unwrap().question = unanswered().question;
    assert_eq!(
        submit(&mut state, elsewhere, 100),
        Err("the clearing book was asked something else".to_string())
    );
    let mut unreleased = ask(&state, withdraw(), 100);
    answer_of(&mut unreleased).unwrap().book = Ok(Arc::new(cleared()));
    assert_eq!(
        submit(&mut state, unreleased, 100),
        Err("the clearing book does not hold what was asked for".to_string())
    );
    let mut kept = ask(&state, withdraw(), 100);
    call_of(&mut kept).unwrap().recorded = Ok(Arc::new(book()));
    assert_eq!(
        submit(&mut state, kept, 100),
        Err("the book of receivables does not hold what was recorded".to_string())
    );
    assert_eq!(act(&mut state, withdraw(), 100), Ok(id(200)));
    let clearing = state.deccp.as_ref().unwrap();
    let hold = clearing.holds.get(&id(71)).unwrap();
    assert_eq!(hold.status, ClearingHoldStatus::Released);
    assert_eq!(hold.defmi_settlement_receipt, Some(id(141)));
    assert_eq!(clearing.facilities.get(&id(40)).unwrap().sequence, 7);
    assert_eq!(
        state.aethel.guarantee_statuses.get(&id(71)),
        Some(&GuaranteeStatus::Released)
    );
    assert_eq!(
        act(&mut state, withdraw(), 100),
        Err("Aethel operation identifier was already used".to_string())
    );
}

#[test]
fn references_name_the_artifacts_of_the_book() {
    let state = fixture();
    let mut bytes = b"AETHEL:CREDIT-BACKING:v1".to_vec();
    for part in [[31; 32], [32; 32], [33; 32]] {
        bytes.extend_from_slice(&part);
    }
    assert_eq!(credit_backing_id(&decision()), Id::digest(&bytes));
    let credit = credit_reference(&state, Some(id(30))).unwrap();
    assert_eq!(credit.artifact_id, id(30));
    assert_eq!(credit.backing_id, Id::digest(&bytes));
    let funding = funding_reference(&state, Some(id(83))).unwrap();
    assert_eq!(funding.backing_id, id(81));
    assert!(funding_reference(&state, None)
        .unwrap()
        .same(&ProviderReference::absent()));
    assert_eq!(
        guarantee_reference(&state, Some(id(1))).unwrap_err(),
        "zkPI names an unknown Aethel guarantee"
    );
}

#[test]
fn a_guaranteed_receivable_is_issued_once() {
    let mut state = fixture();
    assert_eq!(issue(&mut state, submitted(instruction())), Ok(id(200)));
    let hold = *state.deccp.as_ref().unwrap().holds.get(&id(71)).unwrap();
    assert_eq!(hold.bound_exposure_id, Some(id(91)));
    assert_eq!(hold.status, ClearingHoldStatus::Reserved);
    let stream = state.aethel.streams.get(&id(21)).unwrap();
    assert_eq!(stream.version, 2);
    assert_eq!(stream.pledged_commitment, id(93));
    assert_eq!(stream.root, Ok(id(28)));
    assert_eq!(state.operations.get(&id(90)), Some(&id(200)));
    let after = state.share();
    assert!(issue(&mut state, submitted(instruction())).is_err());
    assert_eq!(state, after);
}

#[test]
fn issuances_name_what_is_wrong() {
    let refuses = |change: fn(&mut SubmittedInstruction), message: &str| {
        let mut state = fixture();
        let mut changed = submitted(instruction());
        change(&mut changed);
        assert_eq!(issue(&mut state, changed), Err(message.to_string()));
        assert_eq!(state, fixture());
    };
    refuses(|found| found.text = None, "zkpi must be base64");
    refuses(
        |found| found.decoded = Err("instruction is malformed".into()),
        "instruction is malformed",
    );
    refuses(
        |found| found.verifier_key = id(1),
        "streaming-receivable zkPI has no governance-pinned verifier",
    );
    refuses(
        |found| found.package_valid = false,
        "streaming-receivable FROST package is invalid",
    );
    let against = "streaming-receivable zkPI was verified against something else";
    refuses(|found| found.checks.timestamp = 99, against);
    refuses(|found| found.checks.raw = vec![1, 2], against);
    refuses(|found| found.checks.frost_public_package = vec![2], against);
    refuses(|found| found.checks.max_horizon = 1, against);
    refuses(
        |found| found.verified = Err("proof is invalid".into()),
        "proof is invalid",
    );
    refuses(
        |found| {
            if let Ok(instruction) = &mut found.decoded {
                instruction.encoded.push(0);
            }
        },
        "Aethel issuance zkPI digest differs from its canonical wire",
    );
    let differs = "Aethel issuance and streaming-receivable zkPI bindings differ";
    refuses(
        |found| {
            if let Ok(instruction) = &mut found.decoded {
                instruction.action_id = id(1);
            }
        },
        differs,
    );
    refuses(
        |found| {
            if let Ok(instruction) = &mut found.decoded {
                instruction.before_aethel_root = id(1);
            }
        },
        differs,
    );
    refuses(
        |found| {
            if let Ok(instruction) = &mut found.decoded {
                instruction.guarantee.backing_id = id(1);
            }
        },
        differs,
    );
    refuses(
        |found| {
            if let Ok(instruction) = &mut found.decoded {
                instruction.price_commitment = id(61);
            }
        },
        "Aethel issuance zkPI consideration commitment is not funding or coverage",
    );
}

#[test]
fn claims_need_a_consumed_hold_and_its_delivery() {
    let paying = |request: GuaranteeClaim| Action::IssueAethelGuaranteeClaim {
        request,
        submitted: submitted(claiming()),
        answer: unanswered(),
        call: call(),
    };
    let run = |state: &mut State, request: GuaranteeClaim| act(state, paying(request), 100);
    let mut state = fixture();
    assert_eq!(
        run(&mut state, claim()),
        Err("Aethel full-cover claim is not bound to the consumed DeFMI guarantee hold".to_string())
    );
    let mut state = consumed();
    assert_eq!(validate_claim_backing(&state, &claim()), Ok(()));
    let mut elsewhere = claim();
    elsewhere.recovery_recipient_commitment = id(1);
    assert_eq!(
        run(&mut state, elsewhere),
        Err(
            "Aethel claim has no matching DeFMI delivery entitlement for its recipient".to_string()
        )
    );
    let mut undelivered = consumed();
    undelivered.note_serials = Table::new();
    assert_eq!(
        run(&mut undelivered, claim()),
        Err(
            "Aethel claim settlement did not consume a note from the receivable series".to_string()
        )
    );
    let mut unattested = claim();
    unattested.default_attestation_id = id(1);
    assert_eq!(
        run(&mut state, unattested),
        Err("Aethel claim names an unknown default attestation".to_string())
    );
    let mut renamed = claim();
    renamed.claim_id = id(1);
    assert_eq!(
        run(&mut state, renamed),
        Err("Aethel guarantee claim and zkPI bindings differ".to_string())
    );
    let mut larger = ask(&state, paying(claim()), 100);
    if let ClearingQuestion::Claim { consumption } = &mut answer_of(&mut larger).unwrap().question {
        consumption.default_event_digest = id(1);
    }
    assert_eq!(
        submit(&mut state, larger, 100),
        Err("the clearing book was asked something else".to_string())
    );
    // The reservation was never bound to the issuance.
    let unbound = ask(&state, paying(claim()), 100);
    assert_eq!(
        submit(&mut state, unbound, 100),
        Err("the clearing book does not hold what was asked for".to_string())
    );
    let mut bound = cleared();
    let mut hold = *bound.holds.get(&id(71)).unwrap();
    hold.bound_exposure_id = Some(id(91));
    bound.holds.insert(id(71), hold);
    state.deccp = Some(Arc::new(bound));
    let before = state.share();
    let mut unclaimed = ask(&state, paying(claim()), 100);
    call_of(&mut unclaimed).unwrap().recorded = Ok(Arc::new(book()));
    assert_eq!(
        submit(&mut state, unclaimed, 100),
        Err("the book of receivables does not hold what was recorded".to_string())
    );
    assert_eq!(state, before);
    assert_eq!(run(&mut state, claim()), Ok(id(200)));
    assert!(state.operations.contains_key(&id(130)));
    assert_eq!(state.aethel.guarantee_claims.get(&id(131)), Some(&claim()));
    let hold = *state.deccp.as_ref().unwrap().holds.get(&id(71)).unwrap();
    assert_eq!(hold.status, ClearingHoldStatus::Consumed);
    assert_eq!(hold.defmi_settlement_receipt, Some(id(120)));
}

#[test]
fn receivable_transactions_have_names_and_parameters() {
    let approved_keys = |fields: &[&str]| -> Vec<String> {
        fields
            .iter()
            .chain(["approval", "expectedBeforeRoot"].iter())
            .map(|key| key.to_string())
            .collect()
    };
    for (name, method, fields) in [
        ("Provider", Method::IssueAethelProvider, vec!["request"]),
        ("Stream", Method::IssueAethelStream, vec!["request"]),
        (
            "StreamTransition",
            Method::IssueAethelStreamTransition,
            vec!["request"],
        ),
        ("Series", Method::IssueAethelSeries, vec!["request"]),
        (
            "ProviderKeyRotation",
            Method::IssueAethelProviderKeyRotation,
            vec!["request"],
        ),
        (
            "ProviderStatus",
            Method::IssueAethelProviderStatus,
            vec!["request"],
        ),
        (
            "CredentialIssuer",
            Method::IssueAethelCredentialIssuer,
            vec!["request"],
        ),
        (
            "CredentialStatus",
            Method::IssueAethelCredentialStatus,
            vec!["request"],
        ),
        (
            "GuaranteeRelease",
            Method::IssueAethelGuaranteeRelease,
            vec!["request"],
        ),
        ("FundingQuote", Method::IssueAethelFundingQuote, vec!["request"]),
        ("Default", Method::IssueAethelDefault, vec!["request"]),
        (
            "Receivable",
            Method::IssueAethelReceivable,
            vec!["request", "zkpi"],
        ),
        (
            "GuaranteeClaim",
            Method::IssueAethelGuaranteeClaim,
            vec!["request", "zkpi"],
        ),
    ] {
        assert_eq!(
            Method::from_name(&format!("defmivm.issueAethel{name}")),
            Ok(method)
        );
        assert_eq!(method.fields(), fields);
        assert_eq!(method.check_keys(&approved_keys(&fields)), Ok(()));
        assert!(method.check_keys(&approved_keys(&["memo"])).is_err());
    }
    for name in ["CreditDecision", "Guarantee"] {
        let method = Method::from_name(&format!("defmivm.issueAethel{name}")).unwrap();
        for fields in [vec!["request"], vec!["request", "subjectProof"]] {
            assert_eq!(method.check_keys(&approved_keys(&fields)), Ok(()));
        }
        assert!(method
            .check_keys(&approved_keys(&["request", "memo"]))
            .is_err());
    }
}
