//! When assets, accounts, guarantors, issuers, committees, verifiers and admission
//! batches are registered, and what that leaves behind.

use vstd::prelude::*;
use vstd::utf8::encode_utf8;

use crate::crypto::ed25519_key;
use crate::decode::spelling::hex_of;
use crate::endorsement::{endorsement_refusal, Submission};
use crate::execution::admission::{
    attestations_refusal, lane_check_refusal, lane_planned, lanes_refusal, lanes_registered,
    population_certified,
    AdmissionAttestationDto, SubmittedLane,
};
use crate::execution::{action_outcome, Action};
use crate::id::Id;
use crate::order::{
    AccountOpening, AdmissionBatchPlan, AdmissionCommitteePlan, AdmissionSlotAdvance,
    AssetDefinition, CsdIssuerControl, CsdIssuerControlKind, CsdIssuerDefinition,
    GuarantorDefinition, SettlementVerifierConfig,
};
use crate::state::{
    AdmissionBatchRecord, AdmissionEntryRecord, CsdIssuerRecord, IssuerStatus, Ledger,
};
use crate::table::Numbered;
use crate::text::{hex_bytes, hex_id_of};

verus! {

/// An asset is registered exactly where that is approved and the identifier is new.
pub proof fn law_when_an_asset_is_registered(
    ledger: Ledger,
    definition: AssetDefinition,
    submission: Submission,
    timestamp: u64,
)
    ensures
        ({
            (action_outcome(
                ledger,
                Action::IssueAsset { definition },
                submission,
                timestamp,
            ).result is Ok) == {
                &&& endorsement_refusal(definition.seal, submission) is None
                &&& !ledger.assets.contains_key(definition.asset_id)
            }
        }),
{
}

/// A registered asset is active and has the code, kind, decimals and terms of its
/// definition. Nothing else changes.
pub proof fn law_what_an_asset_registration_leaves(
    ledger: Ledger,
    definition: AssetDefinition,
    submission: Submission,
    timestamp: u64,
)
    requires
        action_outcome(
            ledger,
            Action::IssueAsset { definition },
            submission,
            timestamp,
        ).result is Ok,
    ensures
        ({
            let outcome = action_outcome(
                ledger,
                Action::IssueAsset { definition },
                submission,
                timestamp,
            );
            let after = outcome.ledger;
            let asset = after.assets[definition.asset_id];
            &&& after == (Ledger {
                assets: ledger.assets.insert(definition.asset_id, asset),
                ..ledger
            })
            &&& definition.seal.statement == Ok::<Id, String>(outcome.result->Ok_0)
            &&& asset.code == definition.code
            &&& asset.kind == definition.kind
            &&& asset.decimals == definition.decimals
            &&& asset.terms_digest == definition.terms_digest
            &&& asset.active
        }),
{
}

/// An account is opened exactly where that is approved, its asset is registered and
/// active, and the handle is new.
pub proof fn law_when_an_account_is_opened(
    ledger: Ledger,
    opening: AccountOpening,
    submission: Submission,
    timestamp: u64,
)
    ensures
        ({
            (action_outcome(
                ledger,
                Action::IssueAccount { opening },
                submission,
                timestamp,
            ).result is Ok) == {
                &&& endorsement_refusal(opening.seal, submission) is None
                &&& ledger.assets.contains_key(opening.asset_id)
                &&& ledger.assets[opening.asset_id].active
                &&& !ledger.accounts.contains_key(opening.handle)
            }
        }),
{
}

/// An opened account is on the asset and of the balance of its opening, at its first
/// sequence. Nothing else changes.
pub proof fn law_what_an_account_opening_leaves(
    ledger: Ledger,
    opening: AccountOpening,
    submission: Submission,
    timestamp: u64,
)
    requires
        action_outcome(
            ledger,
            Action::IssueAccount { opening },
            submission,
            timestamp,
        ).result is Ok,
    ensures
        ({
            let outcome = action_outcome(
                ledger,
                Action::IssueAccount { opening },
                submission,
                timestamp,
            );
            let after = outcome.ledger;
            let account = after.accounts[opening.handle];
            &&& after == (Ledger {
                accounts: ledger.accounts.insert(opening.handle, account),
                ..ledger
            })
            &&& opening.seal.statement == Ok::<Id, String>(outcome.result->Ok_0)
            &&& account.asset_id == opening.asset_id
            &&& account.commitment == opening.commitment
            &&& account.sequence == 0
        }),
{
}

/// A guarantor is registered exactly where that is approved and the identifier is
/// new.
pub proof fn law_when_a_guarantor_is_registered(
    ledger: Ledger,
    definition: GuarantorDefinition,
    submission: Submission,
    timestamp: u64,
)
    ensures
        ({
            (action_outcome(
                ledger,
                Action::IssueGuarantor { definition },
                submission,
                timestamp,
            ).result is Ok) == {
                &&& endorsement_refusal(definition.seal, submission) is None
                &&& !ledger.guarantors.contains_key(definition.guarantor_id)
            }
        }),
{
}

/// A registered guarantor is active and has the kind, name, key and policy of its
/// definition. Nothing else changes.
pub proof fn law_what_a_guarantor_registration_leaves(
    ledger: Ledger,
    definition: GuarantorDefinition,
    submission: Submission,
    timestamp: u64,
)
    requires
        action_outcome(
            ledger,
            Action::IssueGuarantor { definition },
            submission,
            timestamp,
        ).result is Ok,
    ensures
        ({
            let outcome = action_outcome(
                ledger,
                Action::IssueGuarantor { definition },
                submission,
                timestamp,
            );
            let after = outcome.ledger;
            let guarantor = after.guarantors[definition.guarantor_id];
            &&& after == (Ledger {
                guarantors: ledger.guarantors.insert(definition.guarantor_id, guarantor),
                ..ledger
            })
            &&& definition.seal.statement == Ok::<Id, String>(outcome.result->Ok_0)
            &&& guarantor.kind == definition.kind
            &&& guarantor.name == definition.name
            &&& guarantor.public_key == definition.public_key
            &&& guarantor.risk_policy_digest == definition.risk_policy_digest
            &&& guarantor.active
        }),
{
}

/// An issuer is registered exactly where that is approved, its validity has not
/// ended, every asset that it may issue is registered and active, and the identifier
/// is new.
pub proof fn law_when_an_issuer_is_registered(
    ledger: Ledger,
    issuer: CsdIssuerDefinition,
    submission: Submission,
    timestamp: u64,
)
    ensures
        ({
            (action_outcome(
                ledger,
                Action::IssueCsdIssuer { issuer },
                submission,
                timestamp,
            ).result is Ok) == {
                &&& endorsement_refusal(issuer.seal, submission) is None
                &&& 0 < timestamp <= issuer.valid_until
                &&& forall|i: int|
                    0 <= i < issuer.permitted_asset_ids@.len() ==> {
                        &&& ledger.assets.contains_key(#[trigger] issuer.permitted_asset_ids@[i])
                        &&& ledger.assets[issuer.permitted_asset_ids@[i]].active
                    }
                &&& !ledger.csd_issuers.contains_key(issuer.issuer_id)
            }
        }),
{
}

/// A registered issuer is active, at its first sequence, and is what its definition
/// says. Nothing else changes.
pub proof fn law_what_an_issuer_registration_leaves(
    ledger: Ledger,
    issuer: CsdIssuerDefinition,
    submission: Submission,
    timestamp: u64,
)
    requires
        action_outcome(
            ledger,
            Action::IssueCsdIssuer { issuer },
            submission,
            timestamp,
        ).result is Ok,
    ensures
        ({
            let outcome = action_outcome(
                ledger,
                Action::IssueCsdIssuer { issuer },
                submission,
                timestamp,
            );
            let after = outcome.ledger;
            let record = after.csd_issuers[issuer.issuer_id];
            &&& after == (Ledger {
                csd_issuers: ledger.csd_issuers.insert(issuer.issuer_id, record),
                ..ledger
            })
            &&& issuer.seal.statement == Ok::<Id, String>(outcome.result->Ok_0)
            &&& *record.code == issuer.code
            &&& *record.jurisdiction == issuer.jurisdiction
            &&& record.operator_entity_commitment == issuer.operator_entity_commitment
            &&& record.public_key == issuer.public_key
            &&& *record.permitted_asset_ids == issuer.permitted_asset_ids
            &&& record.policy_digest == issuer.policy_digest
            &&& record.valid_from == issuer.valid_from
            &&& record.valid_until == issuer.valid_until
            &&& record.status == IssuerStatus::Active
            &&& record.sequence == 0
        }),
{
}

/// An issuer is controlled exactly where that is approved and new, the issuer is as
/// it was when the control was made, and the step is one that it may take: a suspended
/// one is activated, an active one suspended, and one that is not revoked revoked.
pub proof fn law_when_an_issuer_is_controlled(
    ledger: Ledger,
    control: CsdIssuerControl,
    submission: Submission,
    timestamp: u64,
)
    ensures
        ({
            let issuer = ledger.csd_issuers[control.issuer_id];
            (action_outcome(
                ledger,
                Action::IssueCsdIssuerControl { control },
                submission,
                timestamp,
            ).result is Ok) == {
                &&& endorsement_refusal(control.seal, submission) is None
                &&& !ledger.operations.contains_key(control.operation_id)
                &&& ledger.csd_issuers.contains_key(control.issuer_id)
                &&& control.before_sequence == issuer.sequence < u64::MAX
                &&& control.kind == CsdIssuerControlKind::Activate ==> issuer.status
                    == IssuerStatus::Suspended
                &&& control.kind == CsdIssuerControlKind::Suspend ==> issuer.status
                    == IssuerStatus::Active
                &&& control.kind == CsdIssuerControlKind::Revoke ==> issuer.status
                    != IssuerStatus::Revoked
            }
        }),
{
}

/// A control changes the standing of its issuer as it says, one sequence on, and
/// nothing else but that its operation is recorded.
pub proof fn law_what_an_issuer_control_does(
    ledger: Ledger,
    control: CsdIssuerControl,
    submission: Submission,
    timestamp: u64,
)
    requires
        action_outcome(
            ledger,
            Action::IssueCsdIssuerControl { control },
            submission,
            timestamp,
        ).result is Ok,
    ensures
        ({
            let outcome = action_outcome(
                ledger,
                Action::IssueCsdIssuerControl { control },
                submission,
                timestamp,
            );
            let after = outcome.ledger;
            let before = ledger.csd_issuers[control.issuer_id];
            let issuer = after.csd_issuers[control.issuer_id];
            &&& after == (Ledger {
                csd_issuers: ledger.csd_issuers.insert(control.issuer_id, issuer),
                operations: ledger.operations.insert(control.operation_id, outcome.result->Ok_0),
                ..ledger
            })
            &&& control.seal.statement == Ok::<Id, String>(outcome.result->Ok_0)
            &&& issuer.sequence == before.sequence + 1
            &&& before == (CsdIssuerRecord {
                status: before.status,
                sequence: before.sequence,
                ..issuer
            })
            &&& control.kind == CsdIssuerControlKind::Activate ==> issuer.status
                == IssuerStatus::Active
            &&& control.kind == CsdIssuerControlKind::Suspend ==> issuer.status
                == IssuerStatus::Suspended
            &&& control.kind == CsdIssuerControlKind::Revoke ==> issuer.status
                == IssuerStatus::Revoked
        }),
{
}

/// A resident committee is registered exactly where that is approved and new, the
/// committee is valid now, and its venue has none for the epoch.
pub proof fn law_when_a_committee_is_registered(
    ledger: Ledger,
    plan: AdmissionCommitteePlan,
    submission: Submission,
    timestamp: u64,
)
    ensures
        ({
            (action_outcome(
                ledger,
                Action::IssueAdmissionCommittee { plan },
                submission,
                timestamp,
            ).result is Ok) == {
                &&& endorsement_refusal(plan.seal, submission) is None
                &&& plan.valid_from <= timestamp <= plan.valid_until
                &&& !ledger.operations.contains_key(plan.operation_id)
                &&& !ledger.admission_committees.contains_key(
                    Numbered { scope: plan.venue_id, number: plan.epoch },
                )
            }
        }),
{
}

/// A registered committee stands under its venue and epoch with the keys and the
/// validity of its plan. Nothing else changes but that the operation is recorded.
pub proof fn law_what_a_committee_registration_leaves(
    ledger: Ledger,
    plan: AdmissionCommitteePlan,
    submission: Submission,
    timestamp: u64,
)
    requires
        action_outcome(
            ledger,
            Action::IssueAdmissionCommittee { plan },
            submission,
            timestamp,
        ).result is Ok,
    ensures
        ({
            let outcome = action_outcome(
                ledger,
                Action::IssueAdmissionCommittee { plan },
                submission,
                timestamp,
            );
            let after = outcome.ledger;
            let key = Numbered { scope: plan.venue_id, number: plan.epoch };
            let committee = after.admission_committees[key];
            &&& after == (Ledger {
                admission_committees: ledger.admission_committees.insert(key, committee),
                operations: ledger.operations.insert(plan.operation_id, outcome.result->Ok_0),
                ..ledger
            })
            &&& plan.seal.statement == Ok::<Id, String>(outcome.result->Ok_0)
            &&& committee.venue_id == plan.venue_id
            &&& committee.epoch == plan.epoch
            &&& committee.node_keys == plan.node_keys
            &&& committee.valid_from == plan.valid_from
            &&& committee.valid_until == plan.valid_until
            &&& committee.statement == outcome.result->Ok_0
        }),
{
}

/// A settlement verifier is pinned exactly where its statement is approved, it is
/// valid now, and none is pinned under its key.
pub proof fn law_when_a_verifier_is_pinned(
    ledger: Ledger,
    config: SettlementVerifierConfig,
    submission: Submission,
    timestamp: u64,
)
    ensures
        ({
            (action_outcome(
                ledger,
                Action::IssueSettlementVerifier { config },
                submission,
                timestamp,
            ).result is Ok) == {
                &&& config.statement is Ok
                &&& submission.refusal(config.statement->Ok_0) is None
                &&& config.valid_from <= timestamp <= config.valid_until
                &&& !ledger.settlement_verifiers.contains_key(config.key)
            }
        }),
{
}

/// A pinned verifier has every parameter of its configuration. Nothing else changes.
pub proof fn law_what_pinning_a_verifier_leaves(
    ledger: Ledger,
    config: SettlementVerifierConfig,
    submission: Submission,
    timestamp: u64,
)
    requires
        action_outcome(
            ledger,
            Action::IssueSettlementVerifier { config },
            submission,
            timestamp,
        ).result is Ok,
    ensures
        ({
            let outcome = action_outcome(
                ledger,
                Action::IssueSettlementVerifier { config },
                submission,
                timestamp,
            );
            let after = outcome.ledger;
            let verifier = after.settlement_verifiers[config.key];
            &&& after == (Ledger {
                settlement_verifiers: ledger.settlement_verifiers.insert(config.key, verifier),
                ..ledger
            })
            &&& config.statement == Ok::<Id, String>(outcome.result->Ok_0)
            &&& verifier.venue_id == config.venue_id
            &&& verifier.defmi_id == config.defmi_id
            &&& verifier.epoch == config.epoch
            &&& verifier.quote_registry_digest == config.quote_registry_digest
            &&& verifier.quote_eligibility_bits == config.quote_eligibility_bits
            &&& verifier.quote_span_bits == config.quote_span_bits
            &&& verifier.amount_bits == config.amount_bits
            &&& verifier.price_bits == config.price_bits
            &&& verifier.max_horizon == config.max_horizon
            &&& verifier.frost_public_package == config.frost_public_package
            &&& verifier.valid_from == config.valid_from
            &&& verifier.valid_until == config.valid_until
            &&& verifier.statement == outcome.result->Ok_0
        }),
{
}

/// Whether every digest and the signature of an attestation can be read.
pub open spec fn readable(dto: AdmissionAttestationDto) -> bool {
    &&& hex_of(dto.principal_digest@, 32)
    &&& hex_of(dto.ticket_id@, 32)
    &&& hex_of(dto.claim_digest@, 32)
    &&& hex_of(dto.batch_digest@, 32)
    &&& hex_of(dto.order_digest@, 32)
    &&& hex_of(dto.signature@, 64)
}

/// Whether a lane was certified by seven attestations that can be read, each as
/// submitted, under the committee's keys for the venue and epoch of a plan.
pub open spec fn lane_certified(
    lane: SubmittedLane,
    node_keys: Seq<Id>,
    plan: AdmissionBatchPlan,
) -> bool {
    let check = lane.check;
    &&& lane.attestations@.len() == 7
    &&& check.attestations@.len() == 7
    &&& forall|i: int|
        0 <= i < 7 ==> readable(#[trigger] lane.attestations@[i])
    &&& forall|i: int|
        0 <= i < 7 ==> {
            let checked = #[trigger] check.attestations@[i];
            let dto = lane.attestations@[i];
            &&& checked.node == dto.node
            &&& checked.slot == dto.slot
            &&& checked.sequence == dto.sequence
            &&& checked.principal_digest == hex_id_of(dto.principal_digest@)
            &&& checked.ticket_id == hex_id_of(dto.ticket_id@)
            &&& checked.claim_digest == hex_id_of(dto.claim_digest@)
            &&& checked.batch_digest == hex_id_of(dto.batch_digest@)
            &&& checked.order_digest == hex_id_of(dto.order_digest@)
            &&& checked.signature@ == hex_bytes(encode_utf8(dto.signature@))
        }
    &&& check.node_keys@ == node_keys
    &&& check.venue_id == plan.venue_id
    &&& check.epoch == plan.epoch
    &&& lane.certified is Ok
}

/// Whether a certified lane is one of a plan: in its slot, batch and order, with the
/// digest that the plan has at its sequence.
pub open spec fn lane_of_plan(lane: SubmittedLane, plan: AdmissionBatchPlan) -> bool {
    let certified = lane.certified->Ok_0;
    &&& certified.lane.slot == plan.slot
    &&& certified.lane.cluster_digest == plan.batch_digest
    &&& certified.lane.order_digest == plan.order_digest
    &&& 0 < certified.lane.sequence <= plan.admission_digests@.len()
    &&& certified.digest == Some(plan.admission_digests@[certified.lane.sequence - 1])
}

proof fn lemma_attestations(attestations: Seq<AdmissionAttestationDto>, from: nat)
    ensures
        (attestations_refusal(attestations, from) is None) == (forall|i: int|
            from <= i < attestations.len() ==> readable(#[trigger] attestations[i])),
    decreases attestations.len() - from,
{
    if from < attestations.len() {
        lemma_attestations(attestations, from + 1);
    }
}

/// A lane can be certified exactly where its venue has a resident committee for the
/// epoch and it has seven attestations that can be read.
pub proof fn law_when_a_lane_can_be_certified(
    ledger: Ledger,
    plan: AdmissionBatchPlan,
    attestations: Seq<AdmissionAttestationDto>,
)
    ensures
        (lane_check_refusal(ledger, plan, attestations) is None) == {
            &&& ledger.admission_committees.contains_key(
                Numbered { scope: plan.venue_id, number: plan.epoch },
            )
            &&& attestations.len() == 7
            &&& forall|i: int| 0 <= i < 7 ==> readable(#[trigger] attestations[i])
        },
{
    lemma_attestations(attestations, 0);
}

proof fn lemma_lanes(
    lanes: Seq<SubmittedLane>,
    node_keys: Seq<Id>,
    plan: AdmissionBatchPlan,
    from: nat,
)
    ensures
        (lanes_refusal(lanes, node_keys, plan, from) is None) == (forall|i: int|
            from <= i < lanes.len() ==> lane_certified(#[trigger] lanes[i], node_keys, plan)),
    decreases lanes.len() - from,
{
    if from < lanes.len() {
        lemma_attestations(lanes[from as int].attestations@, 0);
        lemma_lanes(lanes, node_keys, plan, from + 1);
    }
}

/// An admission batch is registered exactly where that is approved, in time and new,
/// no batch has its scope, its resident committee is valid now and has sound keys,
/// and the committee certified one lane for every planned digest.
pub proof fn law_when_a_batch_is_registered(
    ledger: Ledger,
    plan: AdmissionBatchPlan,
    lanes: Result<Vec<SubmittedLane>, String>,
    submission: Submission,
    timestamp: u64,
)
    ensures
        ({
            let key = Numbered { scope: plan.venue_id, number: plan.epoch };
            let committee = ledger.admission_committees[key];
            let population = lanes->Ok_0@;
            (action_outcome(
                ledger,
                Action::IssueAdmissionBatch { plan, lanes },
                submission,
                timestamp,
            ).result is Ok) == {
                &&& endorsement_refusal(plan.seal, submission) is None
                &&& timestamp <= plan.expires_at
                &&& !ledger.operations.contains_key(plan.operation_id)
                &&& !ledger.admission_batches.contains_key(plan.batch_id)
                &&& forall|other: Id| #[trigger]
                    ledger.admission_batches.contains_key(other) ==> {
                        ||| ledger.admission_batches[other].venue_id != plan.venue_id
                        ||| ledger.admission_batches[other].epoch != plan.epoch
                        ||| ledger.admission_batches[other].slot != plan.slot
                        ||| ledger.admission_batches[other].batch_digest != plan.batch_digest
                    }
                &&& ledger.admission_committees.contains_key(key)
                &&& committee.valid_from <= timestamp <= committee.valid_until
                &&& forall|i: int|
                    0 <= i < committee.node_keys@.len() ==> ed25519_key(
                        (#[trigger] committee.node_keys@[i]).0,
                    )
                &&& lanes is Ok
                &&& population.len() == plan.admission_digests@.len()
                &&& forall|i: int|
                    0 <= i < population.len() ==> lane_certified(
                        #[trigger] population[i],
                        committee.node_keys@,
                        plan,
                    )
                &&& forall|i: int|
                    0 <= i < population.len() ==> lane_of_plan(#[trigger] population[i], plan)
                &&& forall|i: int, j: int|
                    0 <= i < j < population.len() ==> (
                    #[trigger] population[i]).certified->Ok_0.lane.sequence != (
                    #[trigger] population[j]).certified->Ok_0.lane.sequence
            }
        }),
{
    let key = Numbered { scope: plan.venue_id, number: plan.epoch };
    let node_keys = ledger.admission_committees[key].node_keys@;
    lemma_lanes(lanes->Ok_0@, node_keys, plan, 0);
    assert forall|i: int| 0 <= i < lanes->Ok_0@.len() implies lane_of_plan(
        #[trigger] lanes->Ok_0@[i],
        plan,
    ) == lane_planned(lanes->Ok_0@[i].certified->Ok_0, plan) by {}
    if population_certified(lanes->Ok_0@, plan) {
        assert forall|i: int| 0 <= i < lanes->Ok_0@.len() implies lane_of_plan(
            #[trigger] lanes->Ok_0@[i],
            plan,
        ) by {
            assert(lane_planned(lanes->Ok_0@[i].certified->Ok_0, plan));
        }
    }
}

proof fn lemma_lanes_registered(ledger: Ledger, batch_id: Id, digests: Seq<Id>, from: nat)
    requires
        digests.len() < u64::MAX,
    ensures
        ({
            let after = lanes_registered(ledger, batch_id, digests, from);
            &&& after == (Ledger { admission_entries: after.admission_entries, ..ledger })
            &&& forall|i: int|
                from <= i < digests.len() ==> lane_waits(
                    after,
                    batch_id,
                    #[trigger] digests[i],
                    i + 1,
                )
            &&& forall|key: Numbered|
                !(key.scope == batch_id && from < key.number <= digests.len()) ==> #[trigger]
                same_lane(ledger, after, key)
        }),
    decreases digests.len() - from,
{
    if from < digests.len() {
        let sequence = (from + 1) as u64;
        let key = Numbered { scope: batch_id, number: sequence };
        let next = Ledger {
            admission_entries: ledger.admission_entries.insert(
                key,
                AdmissionEntryRecord {
                    batch_id,
                    sequence,
                    admission_digest: digests[from as int],
                    consumed_by: Id::zero(),
                },
            ),
            ..ledger
        };
        lemma_lanes_registered(next, batch_id, digests, from + 1);
        let after = lanes_registered(ledger, batch_id, digests, from);
        assert(same_lane(next, after, key));
        assert(lane_waits(next, batch_id, digests[from as int], from as int + 1));
        assert forall|other: Numbered|
            !(other.scope == batch_id && from < other.number
                <= digests.len()) implies #[trigger] same_lane(ledger, after, other) by {
            assert(same_lane(next, after, other));
        }
    }
}

/// Whether the lane of a batch at a sequence waits with a digest, unused.
pub open spec fn lane_waits(ledger: Ledger, batch_id: Id, digest: Id, sequence: int) -> bool {
    let key = Numbered { scope: batch_id, number: sequence as u64 };
    let entry = ledger.admission_entries[key];
    &&& ledger.admission_entries.contains_key(key)
    &&& entry.batch_id == batch_id
    &&& entry.sequence == sequence
    &&& entry.admission_digest == digest
    &&& entry.consumed_by == Id::zero()
}

/// Whether two ledgers have the same lane under a key, or both none.
pub open spec fn same_lane(before: Ledger, after: Ledger, key: Numbered) -> bool {
    &&& after.admission_entries.contains_key(key) == before.admission_entries.contains_key(key)
    &&& after.admission_entries[key] == before.admission_entries[key]
}

/// A registered batch is unused, of the scope, population and expiry of its plan, and
/// every planned digest waits as the lane at its own place. No other lane changes,
/// and nothing else but that the operation is recorded.
pub proof fn law_what_a_batch_registration_leaves(
    ledger: Ledger,
    plan: AdmissionBatchPlan,
    lanes: Result<Vec<SubmittedLane>, String>,
    submission: Submission,
    timestamp: u64,
)
    requires
        plan.admission_digests@.len() < u64::MAX,
        action_outcome(
            ledger,
            Action::IssueAdmissionBatch { plan, lanes },
            submission,
            timestamp,
        ).result is Ok,
    ensures
        ({
            let outcome = action_outcome(
                ledger,
                Action::IssueAdmissionBatch { plan, lanes },
                submission,
                timestamp,
            );
            let after = outcome.ledger;
            let batch = after.admission_batches[plan.batch_id];
            let digests = plan.admission_digests@;
            &&& after == (Ledger {
                admission_batches: ledger.admission_batches.insert(plan.batch_id, batch),
                admission_entries: after.admission_entries,
                operations: ledger.operations.insert(plan.operation_id, outcome.result->Ok_0),
                ..ledger
            })
            &&& plan.seal.statement == Ok::<Id, String>(outcome.result->Ok_0)
            &&& batch.venue_id == plan.venue_id
            &&& batch.epoch == plan.epoch
            &&& batch.slot == plan.slot
            &&& batch.batch_digest == plan.batch_digest
            &&& batch.order_digest == plan.order_digest
            &&& batch.population == digests.len()
            &&& batch.consumed == 0
            &&& batch.expires_at == plan.expires_at
            &&& batch.statement == outcome.result->Ok_0
            &&& forall|i: int|
                0 <= i < digests.len() ==> lane_waits(
                    after,
                    plan.batch_id,
                    #[trigger] digests[i],
                    i + 1,
                )
            &&& forall|key: Numbered|
                !(key.scope == plan.batch_id && 0 < key.number <= digests.len()) ==> #[trigger]
                same_lane(ledger, after, key)
        }),
{
    let statement = plan.seal.statement->Ok_0;
    let digests = plan.admission_digests@;
    let stored = Ledger {
        admission_batches: ledger.admission_batches.insert(
            plan.batch_id,
            AdmissionBatchRecord {
                venue_id: plan.venue_id,
                epoch: plan.epoch,
                slot: plan.slot,
                batch_digest: plan.batch_digest,
                order_digest: plan.order_digest,
                population: digests.len() as u64,
                consumed: 0,
                expires_at: plan.expires_at,
                statement,
            },
        ),
        ..ledger
    };
    lemma_lanes_registered(stored, plan.batch_id, digests, 0);
    let registered = lanes_registered(stored, plan.batch_id, digests, 0);
    let after = action_outcome(
        ledger,
        Action::IssueAdmissionBatch { plan, lanes },
        submission,
        timestamp,
    ).ledger;
    assert forall|i: int| 0 <= i < digests.len() implies lane_waits(
        after,
        plan.batch_id,
        #[trigger] digests[i],
        i + 1,
    ) by {
        assert(lane_waits(registered, plan.batch_id, digests[i], i + 1));
    }
    assert forall|key: Numbered|
        !(key.scope == plan.batch_id && 0 < key.number <= digests.len()) implies #[trigger]
    same_lane(ledger, after, key) by {
        assert(same_lane(stored, registered, key));
    }
}

/// A lane is skipped exactly where that is approved and new, the batch is known and
/// in time, and the lane is its next one, as planned and unused.
pub proof fn law_when_a_lane_is_skipped(
    ledger: Ledger,
    advance: AdmissionSlotAdvance,
    submission: Submission,
    timestamp: u64,
)
    ensures
        ({
            let batch = ledger.admission_batches[advance.batch_id];
            let key = Numbered { scope: advance.batch_id, number: advance.sequence };
            let entry = ledger.admission_entries[key];
            (action_outcome(
                ledger,
                Action::IssueAdmissionAdvance { advance },
                submission,
                timestamp,
            ).result is Ok) == {
                &&& endorsement_refusal(advance.seal, submission) is None
                &&& !ledger.operations.contains_key(advance.operation_id)
                &&& ledger.admission_batches.contains_key(advance.batch_id)
                &&& timestamp <= batch.expires_at
                &&& advance.sequence == batch.consumed + 1
                &&& advance.sequence <= batch.population
                &&& ledger.admission_entries.contains_key(key)
                &&& entry.admission_digest == advance.admission_digest
                &&& entry.consumed_by == Id::zero()
            }
        }),
{
}

/// A skipped lane names the operation, and its batch is consumed up to it. Both are
/// otherwise as they were, and nothing else changes but that the operation is
/// recorded.
pub proof fn law_what_skipping_a_lane_leaves(
    ledger: Ledger,
    advance: AdmissionSlotAdvance,
    submission: Submission,
    timestamp: u64,
)
    requires
        action_outcome(
            ledger,
            Action::IssueAdmissionAdvance { advance },
            submission,
            timestamp,
        ).result is Ok,
    ensures
        ({
            let outcome = action_outcome(
                ledger,
                Action::IssueAdmissionAdvance { advance },
                submission,
                timestamp,
            );
            let after = outcome.ledger;
            let key = Numbered { scope: advance.batch_id, number: advance.sequence };
            let batch = after.admission_batches[advance.batch_id];
            let entry = after.admission_entries[key];
            &&& after == (Ledger {
                admission_batches: ledger.admission_batches.insert(advance.batch_id, batch),
                admission_entries: ledger.admission_entries.insert(key, entry),
                operations: ledger.operations.insert(advance.operation_id, outcome.result->Ok_0),
                ..ledger
            })
            &&& advance.seal.statement == Ok::<Id, String>(outcome.result->Ok_0)
            &&& batch.consumed == advance.sequence
            &&& ledger.admission_batches[advance.batch_id] == (AdmissionBatchRecord {
                consumed: ledger.admission_batches[advance.batch_id].consumed,
                ..batch
            })
            &&& entry.consumed_by == advance.operation_id
            &&& ledger.admission_entries[key] == (AdmissionEntryRecord {
                consumed_by: Id::zero(),
                ..entry
            })
        }),
{
}

} // verus!
