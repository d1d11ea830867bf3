//! Notes: issuance, spending and the materialization of claims.

use std::sync::Arc;
use vstd::prelude::*;

use crate::endorsement::{endorse, endorsement_refusal, Submission};
use crate::execution::product::{asset_active, is_asset_active, operated};
use crate::id::{same_ids, Id};
use crate::order::{
    NoteClaimMaterialization, NoteIssuance, NoteOutput, NoteSettlementOrder, NoteSpend,
};
use crate::outcome::{
    accepted, advances, done, meets, refusal_of, refuse, refused, repeat, stopped, unless, verdict,
    Outcome, Progress,
};
use crate::state::{
    ClaimStatus, CsdIssuerRecord, IssuerStatus, Ledger, NoteClaimRecord, NoteRecord,
    NoteSerialRecord,
    NullifierRecord, State,
};
use crate::text::same_text;

verus! {

/// The stored form of a note.
pub open spec fn note_record(output: NoteOutput) -> NoteRecord {
    NoteRecord {
        asset_id: output.asset_id,
        one_time: output.one_time,
        value_commitment: output.value_commitment,
        ephemeral: output.ephemeral,
        masked_value: output.masked_value,
        masked_blinding: output.masked_blinding,
        lock_id: output.lock_id,
    }
}

/// Adds a note: it is well formed, its asset is active and its identifier new.
pub open spec fn insert_note_progress(ledger: Ledger, output: NoteOutput) -> Progress {
    if refusal_of(output.shape) is Some {
        stopped(ledger, refusal_of(output.shape)->0)
    } else if !asset_active(ledger, output.asset_id) {
        stopped(ledger, "note output belongs to an inactive or unknown asset"@)
    } else if ledger.notes.contains_key(output.note_id) {
        stopped(ledger, "note output identifier was already used"@)
    } else {
        done(
            Ledger {
                notes: ledger.notes.insert(output.note_id, note_record(output)),
                ..ledger
            },
        )
    }
}

/// Adds a note that is well formed and new.
pub fn insert_note(state: &mut State, output: &NoteOutput) -> (r: Result<(), String>)
    ensures
        advances(r, final(state)@, insert_note_progress(old(state)@, *output)),
{
    repeat(&output.shape)?;
    if !is_asset_active(state, &output.asset_id) {
        return refuse("note output belongs to an inactive or unknown asset");
    }
    if state.notes.contains_key(&output.note_id) {
        return refuse("note output identifier was already used");
    }
    state.notes.insert(
        output.note_id,
        NoteRecord {
            asset_id: output.asset_id,
            one_time: output.one_time,
            value_commitment: output.value_commitment,
            ephemeral: output.ephemeral,
            masked_value: output.masked_value,
            masked_blinding: output.masked_blinding,
            lock_id: output.lock_id,
        },
    );
    Ok(())
}

/// Why the anonymity set from `from` on is refused. All its notes are known and
/// of the spend's asset; where `unlocked` is set none is locked; and where a
/// note is required it is there, under the spend's lock. `found` says whether
/// the required note came before `from`.
pub open spec fn ring_refusal(
    ledger: Ledger,
    spend: NoteSpend,
    required: Option<Id>,
    unlocked: bool,
    found: bool,
    from: nat,
) -> Option<Seq<char>>
    decreases spend.ring@.len() - from,
{
    if from >= spend.ring@.len() {
        if found {
            None
        } else {
            Some("anonymity set omits the required escrow note"@)
        }
    } else {
        let note_id = spend.ring@[from as int];
        let note = ledger.notes[note_id];
        if !ledger.notes.contains_key(note_id) {
            Some("note anonymity set names an unknown note"@)
        } else if note.asset_id != spend.asset_id {
            Some("note anonymity set crosses asset rails"@)
        } else if unlocked && note.lock_id != Id::zero() {
            Some("ordinary note spend includes a reservation-locked note"@)
        } else {
            ring_refusal(
                ledger,
                spend,
                required,
                unlocked,
                found || (required == Some(note_id) && note.lock_id == spend.input_lock_id),
                from + 1,
            )
        }
    }
}

/// Whether one of the outputs exists already.
pub open spec fn reuses_output(ledger: Ledger, outputs: Seq<NoteOutput>) -> bool {
    exists|i: int|
        0 <= i < outputs.len() && ledger.notes.contains_key((#[trigger] outputs[i]).note_id)
}

fn does_reuse_output(state: &State, outputs: &Vec<NoteOutput>) -> (r: bool)
    ensures
        r == reuses_output(state@, outputs@),
{
    let mut index: usize = 0;
    while index < outputs.len()
        invariant
            index <= outputs@.len(),
            forall|i: int|
                0 <= i < index ==> !state@.notes.contains_key((#[trigger] outputs@[i]).note_id),
        decreases outputs@.len() - index,
    {
        if state.notes.contains_key(&outputs[index].note_id) {
            return true;
        }
        index = index + 1;
    }
    false
}

/// Why a spend is refused.
pub open spec fn spend_refusal(
    ledger: Ledger,
    spend: NoteSpend,
    required: Option<Id>,
    unlocked: bool,
) -> Option<Seq<char>> {
    let ring = ring_refusal(ledger, spend, required, unlocked, required is None, 0);
    if refusal_of(spend.shape) is Some {
        refusal_of(spend.shape)
    } else if !asset_active(ledger, spend.asset_id) {
        Some("note spend uses an inactive or unknown asset"@)
    } else if ledger.note_serials.contains_key(spend.serial_point) {
        Some("note serial was already settled"@)
    } else if ring is Some {
        ring
    } else if reuses_output(ledger, spend.outputs@) {
        Some("note spend reuses an existing output"@)
    } else {
        None
    }
}

/// Checks a spend.
pub fn check_note_spend(
    state: &State,
    spend: &NoteSpend,
    required: Option<Id>,
    unlocked: bool,
) -> (r: Result<(), String>)
    ensures
        verdict(r, spend_refusal(state@, *spend, required, unlocked)),
{
    repeat(&spend.shape)?;
    if !is_asset_active(state, &spend.asset_id) {
        return refuse("note spend uses an inactive or unknown asset");
    }
    if state.note_serials.contains_key(&spend.serial_point) {
        return refuse("note serial was already settled");
    }
    let mut found = required.is_none();
    let mut index: usize = 0;
    while index < spend.ring.len()
        invariant
            index <= spend.ring@.len(),
            refusal_of(spend.shape) is None,
            asset_active(state@, spend.asset_id),
            !state@.note_serials.contains_key(spend.serial_point),
            ring_refusal(state@, *spend, required, unlocked, required is None, 0) == ring_refusal(
                state@,
                *spend,
                required,
                unlocked,
                found,
                index as nat,
            ),
        decreases spend.ring@.len() - index,
    {
        let note_id = spend.ring[index];
        let note = match state.notes.get(&note_id) {
            Some(note) => note,
            None => return refuse("note anonymity set names an unknown note"),
        };
        if note.asset_id != spend.asset_id {
            return refuse("note anonymity set crosses asset rails");
        }
        if unlocked && note.lock_id != Id::zero() {
            return refuse("ordinary note spend includes a reservation-locked note");
        }
        if let Some(required_id) = required {
            if required_id == note_id && note.lock_id == spend.input_lock_id {
                found = true;
            }
        }
        index = index + 1;
    }
    if !found {
        return refuse("anonymity set omits the required escrow note");
    }
    if does_reuse_output(state, &spend.outputs) {
        return refuse("note spend reuses an existing output");
    }
    Ok(())
}

/// Adds the notes from `from` on, in order.
pub open spec fn outputs_progress(ledger: Ledger, outputs: Seq<NoteOutput>, from: nat) -> Progress
    decreases outputs.len() - from,
{
    if from >= outputs.len() {
        done(ledger)
    } else {
        let step = insert_note_progress(ledger, outputs[from as int]);
        if step.refusal is Some {
            step
        } else {
            outputs_progress(step.ledger, outputs, from + 1)
        }
    }
}

/// Uses the serial of a spend and adds its outputs.
pub open spec fn apply_spend_progress(
    ledger: Ledger,
    spend: NoteSpend,
    deadline: u64,
    statement: Id,
) -> Progress {
    if ledger.note_serials.contains_key(spend.serial_point) {
        stopped(ledger, "note serial was already settled"@)
    } else {
        outputs_progress(
            Ledger {
                note_serials: ledger.note_serials.insert(
                    spend.serial_point,
                    NoteSerialRecord {
                        deadline,
                        asset_id: spend.asset_id,
                        ring_root: spend.ring_root,
                        statement,
                    },
                ),
                ..ledger
            },
            spend.outputs@,
            0,
        )
    }
}

/// Uses the serial of a spend and adds its outputs.
pub fn apply_note_spend(
    state: &mut State,
    spend: &NoteSpend,
    deadline: u64,
    statement: Id,
) -> (r: Result<(), String>)
    ensures
        advances(r, final(state)@, apply_spend_progress(old(state)@, *spend, deadline, statement)),
{
    if state.note_serials.contains_key(&spend.serial_point) {
        return refuse("note serial was already settled");
    }
    state.note_serials.insert(
        spend.serial_point,
        NoteSerialRecord {
            deadline,
            asset_id: spend.asset_id,
            ring_root: spend.ring_root,
            statement,
        },
    );
    let ghost before = state@;
    assert(apply_spend_progress(old(state)@, *spend, deadline, statement) == outputs_progress(
        before,
        spend.outputs@,
        0,
    ));
    let mut index: usize = 0;
    while index < spend.outputs.len()
        invariant
            index <= spend.outputs@.len(),
            apply_spend_progress(old(state)@, *spend, deadline, statement) == outputs_progress(
                state@,
                spend.outputs@,
                index as nat,
            ),
        decreases spend.outputs@.len() - index,
    {
        insert_note(state, &spend.outputs[index])?;
        index = index + 1;
    }
    Ok(())
}

/// Whether one of the outputs is locked.
pub open spec fn locks_output(outputs: Seq<NoteOutput>) -> bool {
    exists|i: int| 0 <= i < outputs.len() && (#[trigger] outputs[i]).lock_id != Id::zero()
}

fn does_lock_output(outputs: &Vec<NoteOutput>) -> (r: bool)
    ensures
        r == locks_output(outputs@),
{
    let mut index: usize = 0;
    while index < outputs.len()
        invariant
            index <= outputs@.len(),
            forall|i: int| 0 <= i < index ==> (#[trigger] outputs@[i]).lock_id == Id::zero(),
        decreases outputs@.len() - index,
    {
        if outputs[index].lock_id != Id::zero() {
            return true;
        }
        index = index + 1;
    }
    false
}

/// Why an ordinary spend is refused: it touches no reservation lock.
pub open spec fn ordinary_spend_refusal(ledger: Ledger, spend: NoteSpend) -> Option<Seq<char>> {
    if spend.input_lock_id != Id::zero() {
        Some("ordinary note settlement cannot consume a reservation lock"@)
    } else if spend_refusal(ledger, spend, None, true) is Some {
        spend_refusal(ledger, spend, None, true)
    } else if locks_output(spend.outputs@) {
        Some("ordinary note settlement cannot create a reservation lock"@)
    } else {
        None
    }
}

/// Why one of the spends from `from` on is refused.
pub open spec fn ordinary_spends_refusal(
    ledger: Ledger,
    spends: Seq<NoteSpend>,
    from: nat,
) -> Option<Seq<char>>
    decreases spends.len() - from,
{
    if from >= spends.len() {
        None
    } else if ordinary_spend_refusal(ledger, spends[from as int]) is Some {
        ordinary_spend_refusal(ledger, spends[from as int])
    } else {
        ordinary_spends_refusal(ledger, spends, from + 1)
    }
}

fn check_ordinary_spends(state: &State, spends: &Vec<NoteSpend>) -> (r: Result<(), String>)
    ensures
        verdict(r, ordinary_spends_refusal(state@, spends@, 0)),
{
    let mut index: usize = 0;
    while index < spends.len()
        invariant
            index <= spends@.len(),
            ordinary_spends_refusal(state@, spends@, 0) == ordinary_spends_refusal(
                state@,
                spends@,
                index as nat,
            ),
        decreases spends@.len() - index,
    {
        let spend = &spends[index];
        if spend.input_lock_id != Id::zero() {
            return refuse("ordinary note settlement cannot consume a reservation lock");
        }
        check_note_spend(state, spend, None, true)?;
        if does_lock_output(&spend.outputs) {
            return refuse("ordinary note settlement cannot create a reservation lock");
        }
        index = index + 1;
    }
    Ok(())
}

/// Carries out the spends from `from` on, in order.
pub open spec fn apply_spends_progress(
    ledger: Ledger,
    spends: Seq<NoteSpend>,
    deadline: u64,
    statement: Id,
    from: nat,
) -> Progress
    decreases spends.len() - from,
{
    if from >= spends.len() {
        done(ledger)
    } else {
        let step = apply_spend_progress(ledger, spends[from as int], deadline, statement);
        if step.refusal is Some {
            step
        } else {
            apply_spends_progress(step.ledger, spends, deadline, statement, from + 1)
        }
    }
}

fn apply_note_spends(
    state: &mut State,
    spends: &Vec<NoteSpend>,
    deadline: u64,
    statement: Id,
) -> (r: Result<(), String>)
    ensures
        advances(
            r,
            final(state)@,
            apply_spends_progress(old(state)@, spends@, deadline, statement, 0),
        ),
{
    let mut index: usize = 0;
    while index < spends.len()
        invariant
            index <= spends@.len(),
            apply_spends_progress(old(state)@, spends@, deadline, statement, 0)
                == apply_spends_progress(state@, spends@, deadline, statement, index as nat),
        decreases spends@.len() - index,
    {
        apply_note_spend(state, &spends[index], deadline, statement)?;
        index = index + 1;
    }
    Ok(())
}

/// Why a note settlement is refused before anything changes.
pub open spec fn settle_notes_refusal(
    ledger: Ledger,
    order: NoteSettlementOrder,
    submission: Submission,
    timestamp: u64,
) -> Option<Seq<char>> {
    if endorsement_refusal(order.seal, submission) is Some {
        endorsement_refusal(order.seal, submission)
    } else if timestamp > order.deadline {
        Some("note settlement has expired"@)
    } else if ledger.operations.contains_key(order.operation_id) {
        Some("operation identifier was already used"@)
    } else if ledger.nullifiers.contains_key(order.nullifier) {
        Some("payment nullifier was already settled"@)
    } else {
        ordinary_spends_refusal(ledger, order.spends@, 0)
    }
}

/// The ledger with a nullifier used and an operation recorded.
pub open spec fn settled(
    ledger: Ledger,
    nullifier: Id,
    deadline: u64,
    operation_id: Id,
    statement: Id,
) -> Ledger {
    operated(
        Ledger {
            nullifiers: ledger.nullifiers.insert(
                nullifier,
                NullifierRecord { deadline, statement },
            ),
            ..ledger
        },
        operation_id,
        statement,
    )
}

/// What a note settlement does: the nullifier is used, the operation recorded
/// and every spend carried out.
pub open spec fn settle_notes_outcome(
    ledger: Ledger,
    order: NoteSettlementOrder,
    submission: Submission,
    timestamp: u64,
) -> Outcome {
    let statement = order.seal.statement->Ok_0;
    let spent = apply_spends_progress(
        settled(ledger, order.nullifier, order.deadline, order.operation_id, statement),
        order.spends@,
        order.deadline,
        statement,
        0,
    );
    unless(
        settle_notes_refusal(ledger, order, submission, timestamp),
        ledger,
        unless(spent.refusal, spent.ledger, accepted(spent.ledger, statement)),
    )
}

/// Settles between notes.
pub fn settle_notes(
    state: &mut State,
    order: &NoteSettlementOrder,
    submission: &Submission,
    timestamp: u64,
) -> (r: Result<Id, String>)
    ensures
        meets(
            r,
            final(state)@,
            settle_notes_outcome(old(state)@, *order, *submission, timestamp),
        ),
{
    let statement = endorse(&order.seal, submission)?;
    if timestamp > order.deadline {
        return refuse("note settlement has expired");
    }
    if state.operations.contains_key(&order.operation_id) {
        return refuse("operation identifier was already used");
    }
    if state.nullifiers.contains_key(&order.nullifier) {
        return refuse("payment nullifier was already settled");
    }
    check_ordinary_spends(state, &order.spends)?;
    state.nullifiers.insert(
        order.nullifier,
        NullifierRecord { deadline: order.deadline, statement },
    );
    state.operations.insert(order.operation_id, statement);
    apply_note_spends(state, &order.spends, order.deadline, statement)?;
    Ok(statement)
}

/// What an issuer's signature, permission and validity are verified against: the
/// issuer as registered, the statement of the issuance, and the time.
#[derive(Debug)]
pub struct IssuerCheck {
    pub issuer_id: Id,
    pub code: Arc<String>,
    pub jurisdiction: Arc<String>,
    pub operator_entity_commitment: Id,
    pub public_key: Id,
    pub permitted_asset_ids: Arc<Vec<Id>>,
    pub policy_digest: Id,
    pub valid_from: u64,
    pub valid_until: u64,
    pub statement: Id,
    pub now: u64,
}

/// The verdict on an issuer, with what was verified.
#[derive(Debug)]
pub struct IssuerVerdict {
    pub check: IssuerCheck,
    pub verdict: Result<(), String>,
}

/// Whether an issuer is to be verified against exactly this.
pub open spec fn issuer_check_is(
    issuer: CsdIssuerRecord,
    issuer_id: Id,
    statement: Id,
    now: u64,
    check: IssuerCheck,
) -> bool {
    &&& check.issuer_id == issuer_id
    &&& check.code@ == issuer.code@
    &&& check.jurisdiction@ == issuer.jurisdiction@
    &&& check.operator_entity_commitment == issuer.operator_entity_commitment
    &&& check.public_key == issuer.public_key
    &&& check.permitted_asset_ids@ == issuer.permitted_asset_ids@
    &&& check.policy_digest == issuer.policy_digest
    &&& check.valid_from == issuer.valid_from
    &&& check.valid_until == issuer.valid_until
    &&& check.statement == statement
    &&& check.now == now
}

/// What the issuer of an issuance is to be verified against.
pub fn issuer_check(state: &State, issuance: &NoteIssuance, timestamp: u64) -> (r: Result<
    IssuerCheck,
    String,
>)
    ensures
        match r {
            Ok(check) => {
                &&& issuance.seal.refusal() is None
                &&& state@.csd_issuers.contains_key(issuance.issuer_id)
                &&& issuer_check_is(
                    state@.csd_issuers[issuance.issuer_id],
                    issuance.issuer_id,
                    issuance.seal.statement->Ok_0,
                    timestamp,
                    check,
                )
            },
            Err(message) => if issuance.seal.refusal() is Some {
                issuance.seal.refusal() == Some(message@)
            } else {
                &&& !state@.csd_issuers.contains_key(issuance.issuer_id)
                &&& message@ == "note issuance names an unknown CSD issuer"@
            },
        },
{
    let statement = issuance.seal.open()?;
    match state.csd_issuers.get(&issuance.issuer_id) {
        None => refuse("note issuance names an unknown CSD issuer"),
        Some(issuer) => Ok(
            IssuerCheck {
                issuer_id: issuance.issuer_id,
                code: Arc::clone(&issuer.code),
                jurisdiction: Arc::clone(&issuer.jurisdiction),
                operator_entity_commitment: issuer.operator_entity_commitment,
                public_key: issuer.public_key,
                permitted_asset_ids: Arc::clone(&issuer.permitted_asset_ids),
                policy_digest: issuer.policy_digest,
                valid_from: issuer.valid_from,
                valid_until: issuer.valid_until,
                statement,
                now: timestamp,
            },
        ),
    }
}

fn is_issuer_check(
    issuer: &CsdIssuerRecord,
    issuer_id: Id,
    statement: Id,
    now: u64,
    check: &IssuerCheck,
) -> (r: bool)
    ensures
        r == issuer_check_is(*issuer, issuer_id, statement, now, *check),
{
    check.issuer_id == issuer_id && same_text(check.code.as_str(), issuer.code.as_str())
        && same_text(check.jurisdiction.as_str(), issuer.jurisdiction.as_str())
        && check.operator_entity_commitment == issuer.operator_entity_commitment
        && check.public_key == issuer.public_key && same_ids(
        &*check.permitted_asset_ids,
        &*issuer.permitted_asset_ids,
    ) && check.policy_digest == issuer.policy_digest && check.valid_from == issuer.valid_from
        && check.valid_until == issuer.valid_until && check.statement == statement && check.now
        == now
}

/// Why an issuance is refused before the note is added.
pub open spec fn issue_note_refusal(
    ledger: Ledger,
    issuance: NoteIssuance,
    issuer: IssuerVerdict,
    submission: Submission,
    timestamp: u64,
) -> Option<Seq<char>> {
    if endorsement_refusal(issuance.seal, submission) is Some {
        endorsement_refusal(issuance.seal, submission)
    } else if timestamp == 0 {
        Some("note issuance has no consensus timestamp"@)
    } else if ledger.operations.contains_key(issuance.operation_id)
        || ledger.note_issuances.contains_key(issuance.issuance_nonce)
        || ledger.notes.contains_key(issuance.output.note_id) {
        Some("note issuance reuses an operation, nonce, or note"@)
    } else if !ledger.csd_issuers.contains_key(issuance.issuer_id) {
        Some("note issuance names an unknown CSD issuer"@)
    } else if ledger.csd_issuers[issuance.issuer_id].status != IssuerStatus::Active {
        Some("CSD issuer is not active"@)
    } else if !issuer_check_is(
        ledger.csd_issuers[issuance.issuer_id],
        issuance.issuer_id,
        issuance.seal.statement->Ok_0,
        timestamp,
        issuer.check,
    ) {
        Some("note issuer was verified against something else"@)
    } else {
        refusal_of(issuer.verdict)
    }
}

/// What an issuance does: it adds the note and uses the nonce.
pub open spec fn issue_note_outcome(
    ledger: Ledger,
    issuance: NoteIssuance,
    issuer: IssuerVerdict,
    submission: Submission,
    timestamp: u64,
) -> Outcome {
    let statement = issuance.seal.statement->Ok_0;
    let added = insert_note_progress(ledger, issuance.output);
    let issued = Ledger {
        note_issuances: added.ledger.note_issuances.insert(issuance.issuance_nonce, statement),
        ..added.ledger
    };
    unless(
        issue_note_refusal(ledger, issuance, issuer, submission, timestamp),
        ledger,
        unless(
            added.refusal,
            added.ledger,
            accepted(operated(issued, issuance.operation_id, statement), statement),
        ),
    )
}

/// Issues a note. `issuer` is the verdict on its issuer.
pub fn issue_note(
    state: &mut State,
    issuance: &NoteIssuance,
    issuer: &IssuerVerdict,
    submission: &Submission,
    timestamp: u64,
) -> (r: Result<Id, String>)
    ensures
        meets(
            r,
            final(state)@,
            issue_note_outcome(old(state)@, *issuance, *issuer, *submission, timestamp),
        ),
{
    let statement = endorse(&issuance.seal, submission)?;
    if timestamp == 0 {
        return refuse("note issuance has no consensus timestamp");
    }
    if state.operations.contains_key(&issuance.operation_id) || state.note_issuances.contains_key(
        &issuance.issuance_nonce,
    ) || state.notes.contains_key(&issuance.output.note_id) {
        return refuse("note issuance reuses an operation, nonce, or note");
    }
    let record = match state.csd_issuers.get(&issuance.issuer_id) {
        Some(record) => record,
        None => return refuse("note issuance names an unknown CSD issuer"),
    };
    if record.status != IssuerStatus::Active {
        return refuse("CSD issuer is not active");
    }
    if !is_issuer_check(record, issuance.issuer_id, statement, timestamp, &issuer.check) {
        return refuse("note issuer was verified against something else");
    }
    repeat(&issuer.verdict)?;
    insert_note(state, &issuance.output)?;
    state.note_issuances.insert(issuance.issuance_nonce, statement);
    state.operations.insert(issuance.operation_id, statement);
    Ok(statement)
}

/// Why a materialization is refused before the note is added: the note must be
/// exactly what the active claim entitles to.
pub open spec fn materialize_refusal(
    ledger: Ledger,
    materialization: NoteClaimMaterialization,
    submission: Submission,
) -> Option<Seq<char>> {
    let claim = ledger.note_claims[materialization.claim_id];
    if endorsement_refusal(materialization.seal, submission) is Some {
        endorsement_refusal(materialization.seal, submission)
    } else if ledger.operations.contains_key(materialization.operation_id) {
        Some("operation identifier was already used"@)
    } else if !ledger.note_claims.contains_key(materialization.claim_id) {
        Some("note claim is unknown"@)
    } else if claim.status != ClaimStatus::Active || claim.materialization != Id::zero()
        || claim.asset_id != materialization.output.asset_id || claim.value_commitment
        != materialization.output.value_commitment {
        Some("claim materialization changes a final entitlement"@)
    } else {
        None
    }
}

/// What a materialization does: it adds the note and closes the claim.
pub open spec fn materialize_outcome(
    ledger: Ledger,
    materialization: NoteClaimMaterialization,
    submission: Submission,
) -> Outcome {
    let statement = materialization.seal.statement->Ok_0;
    let added = insert_note_progress(ledger, materialization.output);
    let closed = Ledger {
        note_claims: added.ledger.note_claims.insert(
            materialization.claim_id,
            NoteClaimRecord {
                status: ClaimStatus::Materialized,
                materialization: statement,
                ..ledger.note_claims[materialization.claim_id]
            },
        ),
        ..added.ledger
    };
    unless(
        materialize_refusal(ledger, materialization, submission),
        ledger,
        unless(
            added.refusal,
            added.ledger,
            accepted(operated(closed, materialization.operation_id, statement), statement),
        ),
    )
}

/// Turns a claim into a note.
pub fn materialize_note_claim(
    state: &mut State,
    materialization: &NoteClaimMaterialization,
    submission: &Submission,
) -> (r: Result<Id, String>)
    ensures
        meets(
            r,
            final(state)@,
            materialize_outcome(old(state)@, *materialization, *submission),
        ),
{
    let statement = endorse(&materialization.seal, submission)?;
    if state.operations.contains_key(&materialization.operation_id) {
        return refuse("operation identifier was already used");
    }
    let closed = match state.note_claims.get(&materialization.claim_id) {
        None => return refuse("note claim is unknown"),
        Some(claim) => {
            if claim.status != ClaimStatus::Active || claim.materialization != Id::zero()
                || claim.asset_id != materialization.output.asset_id || claim.value_commitment
                != materialization.output.value_commitment {
                return refuse("claim materialization changes a final entitlement");
            }
            NoteClaimRecord {
                asset_id: claim.asset_id,
                value_commitment: claim.value_commitment,
                recipient_commitment: claim.recipient_commitment,
                source_hold_id: claim.source_hold_id,
                kind: claim.kind,
                opening_envelope: Arc::clone(&claim.opening_envelope),
                status: ClaimStatus::Materialized,
                settlement_digest: claim.settlement_digest,
                materialization: statement,
            }
        },
    };
    insert_note(state, &materialization.output)?;
    state.note_claims.insert(materialization.claim_id, closed);
    state.operations.insert(materialization.operation_id, statement);
    Ok(statement)
}

} // verus!
