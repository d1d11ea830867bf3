//! Admission of requests: resident committees, proof parameters and batches of
//! certified lanes.

use vstd::prelude::*;

use crate::bytes::same_bytes;
use crate::crypto::{ed25519_key, is_ed25519_key};
use crate::endorsement::{
    authorization_refusal, authorize_statement, endorse, endorsement_refusal, Submission,
};
use crate::execution::product::operated;
use crate::execution::reservation::{consume_lane, lane_consumed};
use crate::id::{copied_ids, same_ids, Id};
use crate::order::{
    AdmissionBatchPlan, AdmissionCommitteePlan, AdmissionSlotAdvance, CertifiedAdmissionLane,
    SettlementVerifierConfig,
};
use crate::outcome::{accepted, meets, refuse, unless, verdict, Outcome};
use crate::state::{
    AdmissionBatchRecord, AdmissionCommitteeRecord, AdmissionEntryRecord, Ledger,
    SettlementVerifierRecord, State,
};
use crate::table::Numbered;
use crate::text::{hex_array, hex_id, hex_refusal};

verus! {

/// The number of nodes of a resident committee.
pub const COMMITTEE_NODES: usize = 7;

/// What the registration of a resident committee does.
pub open spec fn register_committee_outcome(
    ledger: Ledger,
    plan: AdmissionCommitteePlan,
    submission: Submission,
    timestamp: u64,
) -> Outcome {
    let key = Numbered { scope: plan.venue_id, number: plan.epoch };
    let statement = plan.seal.statement->Ok_0;
    let refusal = if endorsement_refusal(plan.seal, submission) is Some {
        endorsement_refusal(plan.seal, submission)
    } else if timestamp < plan.valid_from || timestamp > plan.valid_until {
        Some("admission committee is not currently valid"@)
    } else if ledger.operations.contains_key(plan.operation_id) {
        Some("operation identifier was already used"@)
    } else if ledger.admission_committees.contains_key(key) {
        Some("admission committee venue and epoch were reused"@)
    } else {
        None
    };
    let record = AdmissionCommitteeRecord {
        venue_id: plan.venue_id,
        epoch: plan.epoch,
        node_keys: plan.node_keys,
        valid_from: plan.valid_from,
        valid_until: plan.valid_until,
        statement,
    };
    unless(
        refusal,
        ledger,
        accepted(
            operated(
                Ledger {
                    admission_committees: ledger.admission_committees.insert(key, record),
                    ..ledger
                },
                plan.operation_id,
                statement,
            ),
            statement,
        ),
    )
}

/// Registers the resident committee of a venue for an epoch.
pub fn register_admission_committee(
    state: &mut State,
    plan: AdmissionCommitteePlan,
    submission: &Submission,
    timestamp: u64,
) -> (r: Result<Id, String>)
    ensures
        meets(
            r,
            final(state)@,
            register_committee_outcome(old(state)@, plan, *submission, timestamp),
        ),
{
    let statement = endorse(&plan.seal, submission)?;
    if timestamp < plan.valid_from || timestamp > plan.valid_until {
        return refuse("admission committee is not currently valid");
    }
    if state.operations.contains_key(&plan.operation_id) {
        return refuse("operation identifier was already used");
    }
    let key = Numbered { scope: plan.venue_id, number: plan.epoch };
    if state.admission_committees.contains_key(&key) {
        return refuse("admission committee venue and epoch were reused");
    }
    state.operations.insert(plan.operation_id, statement);
    state.admission_committees.insert(
        key,
        AdmissionCommitteeRecord {
            venue_id: plan.venue_id,
            epoch: plan.epoch,
            node_keys: plan.node_keys,
            valid_from: plan.valid_from,
            valid_until: plan.valid_until,
            statement,
        },
    );
    Ok(statement)
}

/// What the registration of proof parameters does.
pub open spec fn register_verifier_outcome(
    ledger: Ledger,
    config: SettlementVerifierConfig,
    submission: Submission,
    timestamp: u64,
) -> Outcome {
    let statement = config.statement->Ok_0;
    let refusal = if authorization_refusal(config.statement, submission) is Some {
        authorization_refusal(config.statement, submission)
    } else if timestamp < config.valid_from || timestamp > config.valid_until {
        Some("settlement verifier is not currently valid"@)
    } else if ledger.settlement_verifiers.contains_key(config.key) {
        Some("settlement verifier venue and epoch were reused"@)
    } else {
        None
    };
    let record = SettlementVerifierRecord {
        venue_id: config.venue_id,
        defmi_id: config.defmi_id,
        epoch: config.epoch,
        quote_registry_digest: config.quote_registry_digest,
        quote_eligibility_bits: config.quote_eligibility_bits,
        quote_span_bits: config.quote_span_bits,
        amount_bits: config.amount_bits,
        price_bits: config.price_bits,
        max_horizon: config.max_horizon,
        frost_public_package: config.frost_public_package,
        valid_from: config.valid_from,
        valid_until: config.valid_until,
        statement,
    };
    unless(
        refusal,
        ledger,
        accepted(
            Ledger {
                settlement_verifiers: ledger.settlement_verifiers.insert(config.key, record),
                ..ledger
            },
            statement,
        ),
    )
}

/// Registers the proof parameters of a venue for an epoch.
pub fn register_settlement_verifier(
    state: &mut State,
    config: SettlementVerifierConfig,
    submission: &Submission,
    timestamp: u64,
) -> (r: Result<Id, String>)
    ensures
        meets(
            r,
            final(state)@,
            register_verifier_outcome(old(state)@, config, *submission, timestamp),
        ),
{
    let statement = authorize_statement(&config.statement, submission)?;
    if timestamp < config.valid_from || timestamp > config.valid_until {
        return refuse("settlement verifier is not currently valid");
    }
    if state.settlement_verifiers.contains_key(&config.key) {
        return refuse("settlement verifier venue and epoch were reused");
    }
    state.settlement_verifiers.insert(
        config.key,
        SettlementVerifierRecord {
            venue_id: config.venue_id,
            defmi_id: config.defmi_id,
            epoch: config.epoch,
            quote_registry_digest: config.quote_registry_digest,
            quote_eligibility_bits: config.quote_eligibility_bits,
            quote_span_bits: config.quote_span_bits,
            amount_bits: config.amount_bits,
            price_bits: config.price_bits,
            max_horizon: config.max_horizon,
            frost_public_package: config.frost_public_package,
            valid_from: config.valid_from,
            valid_until: config.valid_until,
            statement,
        },
    );
    Ok(statement)
}

/// One node's attestation of a lane, as submitted.
#[derive(Debug)]
pub struct AdmissionAttestationDto {
    pub node: u16,
    pub slot: u64,
    pub sequence: u64,
    pub principal_digest: String,
    pub ticket_id: String,
    pub claim_digest: String,
    pub batch_digest: String,
    pub order_digest: String,
    pub signature: String,
}

/// One node's attestation of a lane.
#[derive(Debug)]
pub struct NodeAdmissionAttestation {
    pub node: u16,
    pub slot: u64,
    pub sequence: u64,
    pub principal_digest: Id,
    pub ticket_id: Id,
    pub claim_digest: Id,
    pub batch_digest: Id,
    pub order_digest: Id,
    pub signature: [u8; 64],
}

/// A certified lane with its digest for the venue and epoch of its batch, if it
/// has one.
#[derive(Clone, Copy, Debug)]
pub struct CertifiedLane {
    pub lane: CertifiedAdmissionLane,
    pub digest: Option<Id>,
}

/// What the certification of a lane is verified against: the decoded attestations
/// and the keys of the resident committee, for a venue and an epoch.
#[derive(Debug)]
pub struct LaneCheck {
    pub attestations: Vec<NodeAdmissionAttestation>,
    pub node_keys: Vec<Id>,
    pub venue_id: Id,
    pub epoch: u64,
}

/// A lane as submitted. `check` is what was verified, and `certified` the verdict
/// on it.
#[derive(Debug)]
pub struct SubmittedLane {
    pub attestations: Vec<AdmissionAttestationDto>,
    pub check: LaneCheck,
    pub certified: Result<CertifiedLane, String>,
}

/// Why an attestation cannot be read.
pub open spec fn attestation_refusal(dto: AdmissionAttestationDto) -> Option<Seq<char>> {
    if hex_refusal(dto.principal_digest@, "admissionLanes.principalDigest"@, 32) is Some {
        hex_refusal(dto.principal_digest@, "admissionLanes.principalDigest"@, 32)
    } else if hex_refusal(dto.ticket_id@, "admissionLanes.ticketID"@, 32) is Some {
        hex_refusal(dto.ticket_id@, "admissionLanes.ticketID"@, 32)
    } else if hex_refusal(dto.claim_digest@, "admissionLanes.claimDigest"@, 32) is Some {
        hex_refusal(dto.claim_digest@, "admissionLanes.claimDigest"@, 32)
    } else if hex_refusal(dto.batch_digest@, "admissionLanes.batchDigest"@, 32) is Some {
        hex_refusal(dto.batch_digest@, "admissionLanes.batchDigest"@, 32)
    } else if hex_refusal(dto.order_digest@, "admissionLanes.orderDigest"@, 32) is Some {
        hex_refusal(dto.order_digest@, "admissionLanes.orderDigest"@, 32)
    } else {
        hex_refusal(dto.signature@, "admissionLanes.signature"@, 64)
    }
}

/// Whether an attestation is the one that was submitted.
pub open spec fn attestation_is(
    dto: AdmissionAttestationDto,
    attestation: NodeAdmissionAttestation,
) -> bool {
    &&& attestation.node == dto.node
    &&& attestation.slot == dto.slot
    &&& attestation.sequence == dto.sequence
    &&& attestation.principal_digest == crate::text::hex_id_of(dto.principal_digest@)
    &&& attestation.ticket_id == crate::text::hex_id_of(dto.ticket_id@)
    &&& attestation.claim_digest == crate::text::hex_id_of(dto.claim_digest@)
    &&& attestation.batch_digest == crate::text::hex_id_of(dto.batch_digest@)
    &&& attestation.order_digest == crate::text::hex_id_of(dto.order_digest@)
    &&& attestation.signature@ == crate::text::hex_bytes(
        vstd::utf8::encode_utf8(dto.signature@),
    )
}

/// Reads an attestation.
pub fn attestation_from_dto(dto: &AdmissionAttestationDto) -> (r: Result<
    NodeAdmissionAttestation,
    String,
>)
    ensures
        match r {
            Ok(attestation) => attestation_refusal(*dto) is None && attestation_is(
                *dto,
                attestation,
            ),
            Err(message) => attestation_refusal(*dto) == Some(message@),
        },
{
    let principal_digest = hex_id(
        dto.principal_digest.as_str(),
        "admissionLanes.principalDigest",
    )?;
    let ticket_id = hex_id(dto.ticket_id.as_str(), "admissionLanes.ticketID")?;
    let claim_digest = hex_id(dto.claim_digest.as_str(), "admissionLanes.claimDigest")?;
    let batch_digest = hex_id(dto.batch_digest.as_str(), "admissionLanes.batchDigest")?;
    let order_digest = hex_id(dto.order_digest.as_str(), "admissionLanes.orderDigest")?;
    let signature = hex_array::<64>(dto.signature.as_str(), "admissionLanes.signature")?;
    Ok(
        NodeAdmissionAttestation {
            node: dto.node,
            slot: dto.slot,
            sequence: dto.sequence,
            principal_digest,
            ticket_id,
            claim_digest,
            batch_digest,
            order_digest,
            signature,
        },
    )
}

/// Why one of the attestations from `from` on cannot be read.
pub open spec fn attestations_refusal(
    attestations: Seq<AdmissionAttestationDto>,
    from: nat,
) -> Option<Seq<char>>
    decreases attestations.len() - from,
{
    if from >= attestations.len() {
        None
    } else if attestation_refusal(attestations[from as int]) is Some {
        attestation_refusal(attestations[from as int])
    } else {
        attestations_refusal(attestations, from + 1)
    }
}

/// Why the attestations of a lane cannot be verified: there are not seven, or one
/// cannot be read.
pub open spec fn attested_refusal(attestations: Seq<AdmissionAttestationDto>) -> Option<
    Seq<char>,
> {
    if attestations.len() != COMMITTEE_NODES {
        Some("admission lane needs exactly seven attestations"@)
    } else {
        attestations_refusal(attestations, 0)
    }
}

/// Whether the certification of a lane is to be verified against exactly this.
pub open spec fn lane_check_is(
    attestations: Seq<AdmissionAttestationDto>,
    node_keys: Seq<Id>,
    plan: AdmissionBatchPlan,
    check: LaneCheck,
) -> bool {
    &&& check.attestations@.len() == attestations.len()
    &&& forall|i: int|
        0 <= i < attestations.len() ==> attestation_is(
            attestations[i],
            #[trigger] check.attestations@[i],
        )
    &&& check.node_keys@ == node_keys
    &&& check.venue_id == plan.venue_id
    &&& check.epoch == plan.epoch
}

fn read_attestations(dtos: &Vec<AdmissionAttestationDto>) -> (r: Result<
    Vec<NodeAdmissionAttestation>,
    String,
>)
    ensures
        match r {
            Ok(attestations) => {
                &&& attested_refusal(dtos@) is None
                &&& attestations@.len() == dtos@.len()
                &&& forall|i: int|
                    0 <= i < dtos@.len() ==> attestation_is(
                        dtos@[i],
                        #[trigger] attestations@[i],
                    )
            },
            Err(message) => attested_refusal(dtos@) == Some(message@),
        },
{
    if dtos.len() != COMMITTEE_NODES {
        return refuse("admission lane needs exactly seven attestations");
    }
    let mut attestations: Vec<NodeAdmissionAttestation> = Vec::new();
    let mut index: usize = 0;
    while index < dtos.len()
        invariant
            index <= dtos@.len() == COMMITTEE_NODES,
            attestations@.len() == index,
            forall|i: int|
                0 <= i < index ==> attestation_is(dtos@[i], #[trigger] attestations@[i]),
            attestations_refusal(dtos@, 0) == attestations_refusal(dtos@, index as nat),
        decreases dtos@.len() - index,
    {
        let attestation = attestation_from_dto(&dtos[index])?;
        attestations.push(attestation);
        index = index + 1;
    }
    Ok(attestations)
}

fn do_attestations_match(
    dtos: &Vec<AdmissionAttestationDto>,
    read: &Vec<NodeAdmissionAttestation>,
    checked: &Vec<NodeAdmissionAttestation>,
) -> (r: bool)
    requires
        read@.len() == dtos@.len(),
        forall|i: int| 0 <= i < dtos@.len() ==> attestation_is(dtos@[i], #[trigger] read@[i]),
    ensures
        r == (checked@.len() == dtos@.len() && forall|i: int|
            0 <= i < dtos@.len() ==> attestation_is(dtos@[i], #[trigger] checked@[i])),
{
    if checked.len() != read.len() {
        return false;
    }
    let mut index: usize = 0;
    while index < read.len()
        invariant
            index <= read@.len() == dtos@.len() == checked@.len(),
            forall|i: int| 0 <= i < dtos@.len() ==> attestation_is(dtos@[i], #[trigger] read@[i]),
            forall|i: int|
                0 <= i < index ==> attestation_is(dtos@[i], #[trigger] checked@[i]),
        decreases read@.len() - index,
    {
        let left = &read[index];
        let right = &checked[index];
        assert(attestation_is(dtos@[index as int], read@[index as int]));
        if left.node != right.node || left.slot != right.slot || left.sequence != right.sequence
            || left.principal_digest != right.principal_digest || left.ticket_id
            != right.ticket_id || left.claim_digest != right.claim_digest || left.batch_digest
            != right.batch_digest || left.order_digest != right.order_digest || !same_bytes(
            &left.signature,
            &right.signature,
        ) {
            assert(!attestation_is(dtos@[index as int], checked@[index as int]));
            return false;
        }
        index = index + 1;
    }
    true
}

/// Why there is nothing to verify the certification of a lane against.
pub open spec fn lane_check_refusal(
    ledger: Ledger,
    plan: AdmissionBatchPlan,
    attestations: Seq<AdmissionAttestationDto>,
) -> Option<Seq<char>> {
    let key = Numbered { scope: plan.venue_id, number: plan.epoch };
    if !ledger.admission_committees.contains_key(key) {
        Some("admission batch has no governance-pinned resident committee"@)
    } else {
        attested_refusal(attestations)
    }
}

/// What the certification of a lane is to be verified against: the attestations
/// as submitted, under the keys of the committee that is pinned for the plan.
pub fn lane_check(
    state: &State,
    plan: &AdmissionBatchPlan,
    attestations: &Vec<AdmissionAttestationDto>,
) -> (r: Result<LaneCheck, String>)
    ensures
        match r {
            Ok(check) => {
                let key = Numbered { scope: plan.venue_id, number: plan.epoch };
                &&& lane_check_refusal(state@, *plan, attestations@) is None
                &&& lane_check_is(
                    attestations@,
                    state@.admission_committees[key].node_keys@,
                    *plan,
                    check,
                )
            },
            Err(message) => lane_check_refusal(state@, *plan, attestations@) == Some(message@),
        },
{
    let key = Numbered { scope: plan.venue_id, number: plan.epoch };
    let committee = match state.admission_committees.get(&key) {
        Some(committee) => committee,
        None => return refuse("admission batch has no governance-pinned resident committee"),
    };
    let read = read_attestations(attestations)?;
    Ok(
        LaneCheck {
            attestations: read,
            node_keys: copied_ids(&committee.node_keys),
            venue_id: plan.venue_id,
            epoch: plan.epoch,
        },
    )
}

/// Why a lane is not certified for a plan under the keys of its committee.
pub open spec fn lane_refusal(
    lane: SubmittedLane,
    node_keys: Seq<Id>,
    plan: AdmissionBatchPlan,
) -> Option<Seq<char>> {
    if attested_refusal(lane.attestations@) is Some {
        attested_refusal(lane.attestations@)
    } else if !lane_check_is(lane.attestations@, node_keys, plan, lane.check) {
        Some("admission lane was certified against something else"@)
    } else {
        match lane.certified {
            Ok(_) => None,
            Err(message) => Some(message@),
        }
    }
}

fn check_lane(lane: &SubmittedLane, node_keys: &Vec<Id>, plan: &AdmissionBatchPlan) -> (r: Result<
    CertifiedLane,
    String,
>)
    ensures
        match r {
            Ok(certified) => lane_refusal(*lane, node_keys@, *plan) is None && lane.certified
                == Ok::<CertifiedLane, String>(certified),
            Err(message) => lane_refusal(*lane, node_keys@, *plan) == Some(message@),
        },
{
    let read = read_attestations(&lane.attestations)?;
    let check = &lane.check;
    if !do_attestations_match(&lane.attestations, &read, &check.attestations) || !same_ids(
        &check.node_keys,
        node_keys,
    ) || check.venue_id != plan.venue_id || check.epoch != plan.epoch {
        return refuse("admission lane was certified against something else");
    }
    match &lane.certified {
        Ok(certified) => Ok(*certified),
        Err(message) => Err(message.clone()),
    }
}

/// Why one of the lanes from `from` on is not certified.
pub open spec fn lanes_refusal(
    lanes: Seq<SubmittedLane>,
    node_keys: Seq<Id>,
    plan: AdmissionBatchPlan,
    from: nat,
) -> Option<Seq<char>>
    decreases lanes.len() - from,
{
    if from >= lanes.len() {
        None
    } else if lane_refusal(lanes[from as int], node_keys, plan) is Some {
        lane_refusal(lanes[from as int], node_keys, plan)
    } else {
        lanes_refusal(lanes, node_keys, plan, from + 1)
    }
}

/// Whether a certified lane is the one that a plan has at its sequence. The
/// lanes of a plan are numbered from 1.
pub open spec fn lane_planned(certified: CertifiedLane, plan: AdmissionBatchPlan) -> bool {
    let lane = certified.lane;
    &&& 1 <= lane.sequence <= plan.admission_digests@.len()
    &&& lane.slot == plan.slot
    &&& lane.cluster_digest == plan.batch_digest
    &&& lane.order_digest == plan.order_digest
    &&& certified.digest == Some(plan.admission_digests@[lane.sequence - 1])
}

/// Whether the lanes are exactly the population of a plan: every lane is the
/// one planned at its sequence, and no two lanes have one sequence.
pub open spec fn population_certified(
    lanes: Seq<SubmittedLane>,
    plan: AdmissionBatchPlan,
) -> bool {
    &&& forall|i: int|
        0 <= i < lanes.len() ==> lane_planned((#[trigger] lanes[i]).certified->Ok_0, plan)
    &&& forall|i: int, j: int|
        0 <= i < j < lanes.len() ==> (#[trigger] lanes[i]).certified->Ok_0.lane.sequence != (
        #[trigger] lanes[j]).certified->Ok_0.lane.sequence
}

/// Why submitted lanes are not the certified population of a plan.
pub open spec fn population_refusal(
    lanes: Result<Vec<SubmittedLane>, String>,
    node_keys: Seq<Id>,
    plan: AdmissionBatchPlan,
) -> Option<Seq<char>> {
    match lanes {
        Err(message) => Some(message@),
        Ok(lanes) => if lanes@.len() != plan.admission_digests@.len() {
            Some("admission batch differs from its certified population"@)
        } else if lanes_refusal(lanes@, node_keys, plan, 0) is Some {
            lanes_refusal(lanes@, node_keys, plan, 0)
        } else if !population_certified(lanes@, plan) {
            Some("admission batch differs from its seven-node certified population"@)
        } else {
            None
        },
    }
}

fn check_population(
    submitted: &Result<Vec<SubmittedLane>, String>,
    node_keys: &Vec<Id>,
    plan: &AdmissionBatchPlan,
) -> (r: Result<(), String>)
    ensures
        verdict(r, population_refusal(*submitted, node_keys@, *plan)),
{
    let lanes = match submitted {
        Ok(lanes) => lanes,
        Err(message) => return Err(message.clone()),
    };
    let count: usize = plan.admission_digests.len();
    if lanes.len() != count {
        return refuse("admission batch differs from its certified population");
    }
    let mut certified: Vec<CertifiedLane> = Vec::new();
    let mut index: usize = 0;
    while index < count
        invariant
            *submitted == Ok::<Vec<SubmittedLane>, String>(*lanes),
            index <= count == lanes@.len() == plan.admission_digests@.len(),
            certified@.len() == index,
            forall|i: int|
                0 <= i < index ==> (#[trigger] lanes@[i]).certified == Ok::<CertifiedLane, String>(
                    certified@[i],
                ),
            lanes_refusal(lanes@, node_keys@, *plan, 0) == lanes_refusal(
                lanes@,
                node_keys@,
                *plan,
                index as nat,
            ),
        decreases count - index,
    {
        let lane = check_lane(&lanes[index], node_keys, plan)?;
        certified.push(lane);
        index = index + 1;
    }
    assert(lanes_refusal(lanes@, node_keys@, *plan, 0) is None);
    let mut seen: Vec<bool> = Vec::new();
    let mut place: usize = 0;
    while place < count
        invariant
            place <= count,
            seen@.len() == place,
            forall|i: int| 0 <= i < place ==> !(#[trigger] seen@[i]),
        decreases count - place,
    {
        seen.push(false);
        place = place + 1;
    }
    let mut at: usize = 0;
    while at < count
        invariant
            *submitted == Ok::<Vec<SubmittedLane>, String>(*lanes),
            at <= count == lanes@.len() == plan.admission_digests@.len() == certified@.len()
                == seen@.len(),
            lanes_refusal(lanes@, node_keys@, *plan, 0) is None,
            forall|i: int|
                0 <= i < count ==> (#[trigger] lanes@[i]).certified == Ok::<CertifiedLane, String>(
                    certified@[i],
                ),
            forall|i: int| 0 <= i < at ==> lane_planned(#[trigger] certified@[i], *plan),
            forall|i: int|
                0 <= i < at ==> seen@[(#[trigger] certified@[i]).lane.sequence - 1],
            forall|s: int|
                0 <= s < count && #[trigger] seen@[s] ==> exists|i: int|
                    0 <= i < at && (#[trigger] certified@[i]).lane.sequence == s + 1,
            forall|i: int, j: int|
                0 <= i < j < at ==> (#[trigger] certified@[i]).lane.sequence != (
                #[trigger] certified@[j]).lane.sequence,
        decreases count - at,
    {
        let lane = certified[at];
        let planned = if lane.lane.sequence < 1 || lane.lane.sequence > count as u64
            || lane.lane.slot != plan.slot || lane.lane.cluster_digest != plan.batch_digest
            || lane.lane.order_digest != plan.order_digest {
            false
        } else {
            let place: usize = (lane.lane.sequence - 1) as usize;
            match lane.digest {
                Some(digest) => digest == plan.admission_digests[place],
                None => false,
            }
        };
        if !planned {
            proof {
                assert(!lane_planned(lanes@[at as int].certified->Ok_0, *plan));
            }
            return refuse("admission batch differs from its seven-node certified population");
        }
        let place: usize = (lane.lane.sequence - 1) as usize;
        if seen[place] {
            proof {
                let earlier = choose|i: int|
                    0 <= i < at && (#[trigger] certified@[i]).lane.sequence == place + 1;
                assert(lanes@[earlier].certified->Ok_0.lane.sequence
                    == lanes@[at as int].certified->Ok_0.lane.sequence);
            }
            return refuse("admission batch differs from its seven-node certified population");
        }
        let ghost before = seen@;
        seen[place] = true;
        proof {
            assert forall|s: int| 0 <= s < count && #[trigger] seen@[s] implies exists|i: int|
                0 <= i < at + 1 && (#[trigger] certified@[i]).lane.sequence == s + 1 by {
                if s == place {
                    assert(certified@[at as int].lane.sequence == s + 1);
                } else {
                    assert(before[s]);
                    let earlier = choose|i: int|
                        0 <= i < at && (#[trigger] certified@[i]).lane.sequence == s + 1;
                    assert(certified@[earlier].lane.sequence == s + 1);
                }
            }
            assert forall|i: int, j: int| 0 <= i < j < at + 1 implies (
            #[trigger] certified@[i]).lane.sequence != (
            #[trigger] certified@[j]).lane.sequence by {
                if j == at {
                    assert(before[certified@[i].lane.sequence - 1]);
                }
            }
        }
        at = at + 1;
    }
    proof {
        assert forall|i: int| 0 <= i < lanes@.len() implies lane_planned(
            (#[trigger] lanes@[i]).certified->Ok_0,
            *plan,
        ) by {
            assert(lane_planned(certified@[i], *plan));
        }
        assert forall|i: int, j: int| 0 <= i < j < lanes@.len() implies (
        #[trigger] lanes@[i]).certified->Ok_0.lane.sequence != (
        #[trigger] lanes@[j]).certified->Ok_0.lane.sequence by {
            assert(certified@[i].lane.sequence != certified@[j].lane.sequence);
        }
    }
    Ok(())
}

/// Whether a batch has the scope of a plan.
pub open spec fn same_batch_scope(batch: AdmissionBatchRecord, plan: AdmissionBatchPlan) -> bool {
    &&& batch.venue_id == plan.venue_id
    &&& batch.epoch == plan.epoch
    &&& batch.slot == plan.slot
    &&& batch.batch_digest == plan.batch_digest
}

/// Whether some batch has the scope of a plan already.
pub open spec fn batch_scope_used(ledger: Ledger, plan: AdmissionBatchPlan) -> bool {
    exists|batch_id: Id| #[trigger]
        ledger.admission_batches.contains_key(batch_id) && same_batch_scope(
            ledger.admission_batches[batch_id],
            plan,
        )
}

fn is_batch_scope_used(state: &State, plan: &AdmissionBatchPlan) -> (r: bool)
    ensures
        r == batch_scope_used(state@, *plan),
{
    let count: usize = state.admission_batches.len();
    let mut index: usize = 0;
    while index < count
        invariant
            index <= count == state.admission_batches.count(),
            forall|i: int|
                0 <= i < index ==> !same_batch_scope(
                    #[trigger] state.admission_batches.nth(i),
                    *plan,
                ),
        decreases count - index,
    {
        let batch = state.admission_batches.at(index);
        if batch.venue_id == plan.venue_id && batch.epoch == plan.epoch && batch.slot == plan.slot
            && batch.batch_digest == plan.batch_digest {
            assert(same_batch_scope(
                state@.admission_batches[state.admission_batches.key_at(index as int)],
                *plan,
            ));
            return true;
        }
        index = index + 1;
    }
    false
}

/// Whether every key is an Ed25519 public key.
pub open spec fn keys_valid(keys: Seq<Id>) -> bool {
    forall|i: int| 0 <= i < keys.len() ==> ed25519_key((#[trigger] keys[i]).0)
}

/// Whether all keys are valid.
pub(crate) fn are_keys_valid(keys: &Vec<Id>) -> (r: bool)
    ensures
        r == keys_valid(keys@),
{
    let mut index: usize = 0;
    while index < keys.len()
        invariant
            index <= keys@.len(),
            forall|i: int| 0 <= i < index ==> ed25519_key((#[trigger] keys@[i]).0),
        decreases keys@.len() - index,
    {
        if !is_ed25519_key(&keys[index].0) {
            assert(!ed25519_key(keys@[index as int].0));
            return false;
        }
        index = index + 1;
    }
    true
}

/// Why the registration of an admission batch is refused.
pub open spec fn register_batch_refusal(
    ledger: Ledger,
    plan: AdmissionBatchPlan,
    lanes: Result<Vec<SubmittedLane>, String>,
    submission: Submission,
    timestamp: u64,
) -> Option<Seq<char>> {
    let key = Numbered { scope: plan.venue_id, number: plan.epoch };
    let committee = ledger.admission_committees[key];
    if endorsement_refusal(plan.seal, submission) is Some {
        endorsement_refusal(plan.seal, submission)
    } else if timestamp > plan.expires_at {
        Some("admission batch has expired"@)
    } else if ledger.operations.contains_key(plan.operation_id) {
        Some("operation identifier was already used"@)
    } else if ledger.admission_batches.contains_key(plan.batch_id) || batch_scope_used(
        ledger,
        plan,
    ) {
        Some("admission batch identifier or scope was reused"@)
    } else if !ledger.admission_committees.contains_key(key) {
        Some("admission batch has no governance-pinned resident committee"@)
    } else if timestamp < committee.valid_from || timestamp > committee.valid_until {
        Some("admission committee is not currently valid"@)
    } else if !keys_valid(committee.node_keys@) {
        Some("stored admission committee key is invalid"@)
    } else {
        population_refusal(lanes, committee.node_keys@, plan)
    }
}

/// The ledger with the lanes from `from` on of a batch, each open.
pub open spec fn lanes_registered(
    ledger: Ledger,
    batch_id: Id,
    digests: Seq<Id>,
    from: nat,
) -> Ledger
    decreases digests.len() - from,
{
    if from >= digests.len() {
        ledger
    } else {
        let sequence = (from + 1) as u64;
        lanes_registered(
            Ledger {
                admission_entries: ledger.admission_entries.insert(
                    Numbered { scope: batch_id, number: sequence },
                    AdmissionEntryRecord {
                        batch_id,
                        sequence,
                        admission_digest: digests[from as int],
                        consumed_by: Id::zero(),
                    },
                ),
                ..ledger
            },
            batch_id,
            digests,
            from + 1,
        )
    }
}

fn register_lanes(state: &mut State, batch_id: Id, digests: &Vec<Id>)
    ensures
        final(state)@ == lanes_registered(old(state)@, batch_id, digests@, 0),
{
    let mut index: usize = 0;
    while index < digests.len()
        invariant
            index <= digests@.len(),
            lanes_registered(old(state)@, batch_id, digests@, 0) == lanes_registered(
                state@,
                batch_id,
                digests@,
                index as nat,
            ),
        decreases digests@.len() - index,
    {
        let sequence: u64 = index as u64 + 1;
        let ghost before = state@;
        state.admission_entries.insert(
            Numbered { scope: batch_id, number: sequence },
            AdmissionEntryRecord {
                batch_id,
                sequence,
                admission_digest: digests[index],
                consumed_by: Id::zero(),
            },
        );
        assert(state@ =~= Ledger { admission_entries: state@.admission_entries, ..before });
        index = index + 1;
    }
}

/// What the registration of an admission batch does: the batch is stored with
/// none of its lanes consumed.
pub open spec fn register_batch_outcome(
    ledger: Ledger,
    plan: AdmissionBatchPlan,
    lanes: Result<Vec<SubmittedLane>, String>,
    submission: Submission,
    timestamp: u64,
) -> Outcome {
    let statement = plan.seal.statement->Ok_0;
    let stored = Ledger {
        admission_batches: ledger.admission_batches.insert(
            plan.batch_id,
            AdmissionBatchRecord {
                venue_id: plan.venue_id,
                epoch: plan.epoch,
                slot: plan.slot,
                batch_digest: plan.batch_digest,
                order_digest: plan.order_digest,
                population: plan.admission_digests@.len() as u64,
                consumed: 0,
                expires_at: plan.expires_at,
                statement,
            },
        ),
        ..ledger
    };
    let registered = lanes_registered(stored, plan.batch_id, plan.admission_digests@, 0);
    unless(
        register_batch_refusal(ledger, plan, lanes, submission, timestamp),
        ledger,
        accepted(operated(registered, plan.operation_id, statement), statement),
    )
}

/// Registers a batch of lanes that the resident committee has certified.
pub fn register_admission_batch(
    state: &mut State,
    plan: &AdmissionBatchPlan,
    lanes: &Result<Vec<SubmittedLane>, String>,
    submission: &Submission,
    timestamp: u64,
) -> (r: Result<Id, String>)
    ensures
        meets(
            r,
            final(state)@,
            register_batch_outcome(old(state)@, *plan, *lanes, *submission, timestamp),
        ),
{
    let statement = endorse(&plan.seal, submission)?;
    if timestamp > plan.expires_at {
        return refuse("admission batch has expired");
    }
    if state.operations.contains_key(&plan.operation_id) {
        return refuse("operation identifier was already used");
    }
    if state.admission_batches.contains_key(&plan.batch_id) || is_batch_scope_used(state, plan) {
        return refuse("admission batch identifier or scope was reused");
    }
    let key = Numbered { scope: plan.venue_id, number: plan.epoch };
    let committee = match state.admission_committees.get(&key) {
        Some(committee) => committee,
        None => return refuse("admission batch has no governance-pinned resident committee"),
    };
    if timestamp < committee.valid_from || timestamp > committee.valid_until {
        return refuse("admission committee is not currently valid");
    }
    if !are_keys_valid(&committee.node_keys) {
        return refuse("stored admission committee key is invalid");
    }
    check_population(lanes, &committee.node_keys, plan)?;
    state.admission_batches.insert(
        plan.batch_id,
        AdmissionBatchRecord {
            venue_id: plan.venue_id,
            epoch: plan.epoch,
            slot: plan.slot,
            batch_digest: plan.batch_digest,
            order_digest: plan.order_digest,
            population: plan.admission_digests.len() as u64,
            consumed: 0,
            expires_at: plan.expires_at,
            statement,
        },
    );
    register_lanes(state, plan.batch_id, &plan.admission_digests);
    state.operations.insert(plan.operation_id, statement);
    Ok(statement)
}

/// Why the skipping of a lane is refused.
pub open spec fn advance_refusal(
    ledger: Ledger,
    advance: AdmissionSlotAdvance,
    submission: Submission,
    timestamp: u64,
) -> Option<Seq<char>> {
    let batch = ledger.admission_batches[advance.batch_id];
    let key = Numbered { scope: advance.batch_id, number: advance.sequence };
    let entry = ledger.admission_entries[key];
    if endorsement_refusal(advance.seal, submission) is Some {
        endorsement_refusal(advance.seal, submission)
    } else if ledger.operations.contains_key(advance.operation_id) {
        Some("operation identifier was already used"@)
    } else if !ledger.admission_batches.contains_key(advance.batch_id) {
        Some("admission advance names an unknown batch"@)
    } else if timestamp > batch.expires_at {
        Some("admission batch has expired"@)
    } else if advance.sequence != batch.consumed + 1 || advance.sequence > batch.population {
        Some("admission lane is not the next fixed-population sequence"@)
    } else if !ledger.admission_entries.contains_key(key) {
        Some("admission plan omits its next sequence"@)
    } else if entry.admission_digest != advance.admission_digest || entry.consumed_by
        != Id::zero() {
        Some("admission lane differs from the plan or was already consumed"@)
    } else {
        None
    }
}

/// What the skipping of a lane does.
pub open spec fn advance_outcome(
    ledger: Ledger,
    advance: AdmissionSlotAdvance,
    submission: Submission,
    timestamp: u64,
) -> Outcome {
    let statement = advance.seal.statement->Ok_0;
    unless(
        advance_refusal(ledger, advance, submission, timestamp),
        ledger,
        accepted(
            operated(
                lane_consumed(ledger, advance.batch_id, advance.sequence, advance.operation_id),
                advance.operation_id,
                statement,
            ),
            statement,
        ),
    )
}

/// Skips the next lane of a batch.
pub fn advance_admission(
    state: &mut State,
    advance: &AdmissionSlotAdvance,
    submission: &Submission,
    timestamp: u64,
) -> (r: Result<Id, String>)
    ensures
        meets(r, final(state)@, advance_outcome(old(state)@, *advance, *submission, timestamp)),
{
    let statement = endorse(&advance.seal, submission)?;
    if state.operations.contains_key(&advance.operation_id) {
        return refuse("operation identifier was already used");
    }
    let batch = match state.admission_batches.get(&advance.batch_id) {
        Some(batch) => batch,
        None => return refuse("admission advance names an unknown batch"),
    };
    if timestamp > batch.expires_at {
        return refuse("admission batch has expired");
    }
    if batch.consumed == u64::MAX || advance.sequence != batch.consumed + 1 || advance.sequence
        > batch.population {
        return refuse("admission lane is not the next fixed-population sequence");
    }
    let key = Numbered { scope: advance.batch_id, number: advance.sequence };
    let entry = match state.admission_entries.get(&key) {
        Some(entry) => entry,
        None => return refuse("admission plan omits its next sequence"),
    };
    if entry.admission_digest != advance.admission_digest || entry.consumed_by != Id::zero() {
        return refuse("admission lane differs from the plan or was already consumed");
    }
    consume_lane(state, advance.batch_id, advance.sequence, advance.operation_id);
    state.operations.insert(advance.operation_id, statement);
    Ok(statement)
}

} // verus!
