//! Assets, accounts, guarantors and securities depository issuers.

use std::sync::Arc;
use vstd::prelude::*;

use crate::endorsement::{endorse, endorsement_refusal, Submission};
use crate::execution::product::{
    asset_active, check_legs, is_asset_active, legs_progress, legs_refusal, move_legs, operated,
};
use crate::id::Id;
use crate::order::{
    AccountOpening, AssetDefinition, CsdIssuerControl, CsdIssuerControlKind, CsdIssuerDefinition,
    GuarantorDefinition, SettlementOrder,
};
use crate::outcome::{accepted, meets, refuse, unless, Outcome};
use crate::state::{
    AccountRecord, AssetRecord, CsdIssuerRecord, GuarantorRecord, IssuerStatus, Ledger,
    NullifierRecord, State,
};

verus! {

/// What the registration of an asset does.
pub open spec fn register_asset_outcome(
    ledger: Ledger,
    definition: AssetDefinition,
    submission: Submission,
) -> Outcome {
    let refusal = if endorsement_refusal(definition.seal, submission) is Some {
        endorsement_refusal(definition.seal, submission)
    } else if ledger.assets.contains_key(definition.asset_id) {
        Some("asset identifier is already registered"@)
    } else {
        None
    };
    let record = AssetRecord {
        code: definition.code,
        kind: definition.kind,
        decimals: definition.decimals,
        terms_digest: definition.terms_digest,
        active: true,
    };
    unless(
        refusal,
        ledger,
        accepted(
            Ledger { assets: ledger.assets.insert(definition.asset_id, record), ..ledger },
            definition.seal.statement->Ok_0,
        ),
    )
}

/// Registers an asset.
pub fn register_asset(
    state: &mut State,
    definition: AssetDefinition,
    submission: &Submission,
) -> (r: Result<Id, String>)
    ensures
        meets(r, final(state)@, register_asset_outcome(old(state)@, definition, *submission)),
{
    let statement = endorse(&definition.seal, submission)?;
    if state.assets.contains_key(&definition.asset_id) {
        return refuse("asset identifier is already registered");
    }
    state.assets.insert(
        definition.asset_id,
        AssetRecord {
            code: definition.code,
            kind: definition.kind,
            decimals: definition.decimals,
            terms_digest: definition.terms_digest,
            active: true,
        },
    );
    Ok(statement)
}

/// What the opening of an account does.
pub open spec fn open_account_outcome(
    ledger: Ledger,
    opening: AccountOpening,
    submission: Submission,
) -> Outcome {
    let refusal = if endorsement_refusal(opening.seal, submission) is Some {
        endorsement_refusal(opening.seal, submission)
    } else if !ledger.assets.contains_key(opening.asset_id) {
        Some("account asset is unknown"@)
    } else if !ledger.assets[opening.asset_id].active {
        Some("account asset is inactive"@)
    } else if ledger.accounts.contains_key(opening.handle) {
        Some("account handle is already registered"@)
    } else {
        None
    };
    let record = AccountRecord {
        asset_id: opening.asset_id,
        commitment: opening.commitment,
        sequence: 0,
    };
    unless(
        refusal,
        ledger,
        accepted(
            Ledger { accounts: ledger.accounts.insert(opening.handle, record), ..ledger },
            opening.seal.statement->Ok_0,
        ),
    )
}

/// Opens an account on an active asset.
pub fn open_account(
    state: &mut State,
    opening: &AccountOpening,
    submission: &Submission,
) -> (r: Result<Id, String>)
    ensures
        meets(r, final(state)@, open_account_outcome(old(state)@, *opening, *submission)),
{
    let statement = endorse(&opening.seal, submission)?;
    match state.assets.get(&opening.asset_id) {
        None => return refuse("account asset is unknown"),
        Some(asset) => {
            if !asset.active {
                return refuse("account asset is inactive");
            }
        },
    }
    if state.accounts.contains_key(&opening.handle) {
        return refuse("account handle is already registered");
    }
    state.accounts.insert(
        opening.handle,
        AccountRecord { asset_id: opening.asset_id, commitment: opening.commitment, sequence: 0 },
    );
    Ok(statement)
}

/// What the registration of a guarantor does.
pub open spec fn register_guarantor_outcome(
    ledger: Ledger,
    definition: GuarantorDefinition,
    submission: Submission,
) -> Outcome {
    let refusal = if endorsement_refusal(definition.seal, submission) is Some {
        endorsement_refusal(definition.seal, submission)
    } else if ledger.guarantors.contains_key(definition.guarantor_id) {
        Some("guarantor identifier is already registered"@)
    } else {
        None
    };
    let record = GuarantorRecord {
        kind: definition.kind,
        name: definition.name,
        public_key: definition.public_key,
        risk_policy_digest: definition.risk_policy_digest,
        active: true,
    };
    unless(
        refusal,
        ledger,
        accepted(
            Ledger {
                guarantors: ledger.guarantors.insert(definition.guarantor_id, record),
                ..ledger
            },
            definition.seal.statement->Ok_0,
        ),
    )
}

/// Registers a guarantor.
pub fn register_guarantor(
    state: &mut State,
    definition: GuarantorDefinition,
    submission: &Submission,
) -> (r: Result<Id, String>)
    ensures
        meets(r, final(state)@, register_guarantor_outcome(old(state)@, definition, *submission)),
{
    let statement = endorse(&definition.seal, submission)?;
    if state.guarantors.contains_key(&definition.guarantor_id) {
        return refuse("guarantor identifier is already registered");
    }
    state.guarantors.insert(
        definition.guarantor_id,
        GuarantorRecord {
            kind: definition.kind,
            name: definition.name,
            public_key: definition.public_key,
            risk_policy_digest: definition.risk_policy_digest,
            active: true,
        },
    );
    Ok(statement)
}

/// Whether one of the assets is not active.
pub open spec fn permits_inactive(ledger: Ledger, asset_ids: Seq<Id>) -> bool {
    exists|i: int| 0 <= i < asset_ids.len() && !asset_active(ledger, #[trigger] asset_ids[i])
}

fn does_permit_inactive(state: &State, asset_ids: &Vec<Id>) -> (r: bool)
    ensures
        r == permits_inactive(state@, asset_ids@),
{
    let mut index: usize = 0;
    while index < asset_ids.len()
        invariant
            index <= asset_ids@.len(),
            forall|i: int| 0 <= i < index ==> asset_active(state@, #[trigger] asset_ids@[i]),
        decreases asset_ids@.len() - index,
    {
        if !is_asset_active(state, &asset_ids[index]) {
            return true;
        }
        index = index + 1;
    }
    false
}

/// What the registration of an issuer does.
pub open spec fn register_csd_issuer_outcome(
    ledger: Ledger,
    issuer: CsdIssuerDefinition,
    submission: Submission,
    timestamp: u64,
) -> Outcome {
    let refusal = if endorsement_refusal(issuer.seal, submission) is Some {
        endorsement_refusal(issuer.seal, submission)
    } else if timestamp == 0 || issuer.valid_until < timestamp {
        Some("CSD issuer validity already ended"@)
    } else if permits_inactive(ledger, issuer.permitted_asset_ids@) {
        Some("CSD issuer permits an inactive or unknown asset"@)
    } else if ledger.csd_issuers.contains_key(issuer.issuer_id) {
        Some("CSD issuer identifier was already registered"@)
    } else {
        None
    };
    let record = CsdIssuerRecord {
        code: Arc::new(issuer.code),
        jurisdiction: Arc::new(issuer.jurisdiction),
        operator_entity_commitment: issuer.operator_entity_commitment,
        public_key: issuer.public_key,
        permitted_asset_ids: Arc::new(issuer.permitted_asset_ids),
        policy_digest: issuer.policy_digest,
        valid_from: issuer.valid_from,
        valid_until: issuer.valid_until,
        status: IssuerStatus::Active,
        sequence: 0,
    };
    unless(
        refusal,
        ledger,
        accepted(
            Ledger { csd_issuers: ledger.csd_issuers.insert(issuer.issuer_id, record), ..ledger },
            issuer.seal.statement->Ok_0,
        ),
    )
}

/// Registers an issuer for active assets.
pub fn register_csd_issuer(
    state: &mut State,
    issuer: CsdIssuerDefinition,
    submission: &Submission,
    timestamp: u64,
) -> (r: Result<Id, String>)
    ensures
        meets(
            r,
            final(state)@,
            register_csd_issuer_outcome(old(state)@, issuer, *submission, timestamp),
        ),
{
    let statement = endorse(&issuer.seal, submission)?;
    if timestamp == 0 || issuer.valid_until < timestamp {
        return refuse("CSD issuer validity already ended");
    }
    if does_permit_inactive(state, &issuer.permitted_asset_ids) {
        return refuse("CSD issuer permits an inactive or unknown asset");
    }
    if state.csd_issuers.contains_key(&issuer.issuer_id) {
        return refuse("CSD issuer identifier was already registered");
    }
    state.csd_issuers.insert(
        issuer.issuer_id,
        CsdIssuerRecord {
            code: Arc::new(issuer.code),
            jurisdiction: Arc::new(issuer.jurisdiction),
            operator_entity_commitment: issuer.operator_entity_commitment,
            public_key: issuer.public_key,
            permitted_asset_ids: Arc::new(issuer.permitted_asset_ids),
            policy_digest: issuer.policy_digest,
            valid_from: issuer.valid_from,
            valid_until: issuer.valid_until,
            status: IssuerStatus::Active,
            sequence: 0,
        },
    );
    Ok(statement)
}

/// The standing that a control brings an issuer to, or why it may not.
pub open spec fn controlled_issuer(
    status: IssuerStatus,
    kind: CsdIssuerControlKind,
) -> Result<IssuerStatus, Seq<char>> {
    match kind {
        CsdIssuerControlKind::Activate => if status == IssuerStatus::Suspended {
            Ok(IssuerStatus::Active)
        } else {
            Err("only a suspended CSD issuer can be activated"@)
        },
        CsdIssuerControlKind::Suspend => if status == IssuerStatus::Active {
            Ok(IssuerStatus::Suspended)
        } else {
            Err("only an active CSD issuer can be suspended"@)
        },
        CsdIssuerControlKind::Revoke => Ok(IssuerStatus::Revoked),
    }
}

fn control_issuer_status(status: IssuerStatus, kind: CsdIssuerControlKind) -> (r: Result<
    IssuerStatus,
    String,
>)
    ensures
        match r {
            Ok(next) => controlled_issuer(status, kind) == Ok::<IssuerStatus, Seq<char>>(next),
            Err(message) => controlled_issuer(status, kind) == Err::<IssuerStatus, Seq<char>>(
                message@,
            ),
        },
{
    match kind {
        CsdIssuerControlKind::Activate => {
            if status == IssuerStatus::Suspended {
                Ok(IssuerStatus::Active)
            } else {
                refuse("only a suspended CSD issuer can be activated")
            }
        },
        CsdIssuerControlKind::Suspend => {
            if status == IssuerStatus::Active {
                Ok(IssuerStatus::Suspended)
            } else {
                refuse("only an active CSD issuer can be suspended")
            }
        },
        CsdIssuerControlKind::Revoke => Ok(IssuerStatus::Revoked),
    }
}

/// Why the control of an issuer is refused before anything changes.
pub open spec fn control_csd_issuer_refusal(
    ledger: Ledger,
    control: CsdIssuerControl,
    submission: Submission,
) -> Option<Seq<char>> {
    let record = ledger.csd_issuers[control.issuer_id];
    let next = controlled_issuer(record.status, control.kind);
    if endorsement_refusal(control.seal, submission) is Some {
        endorsement_refusal(control.seal, submission)
    } else if ledger.operations.contains_key(control.operation_id) {
        Some("operation identifier was already used"@)
    } else if !ledger.csd_issuers.contains_key(control.issuer_id) {
        Some("CSD issuer is unknown"@)
    } else if record.sequence != control.before_sequence || record.status
        == IssuerStatus::Revoked {
        Some("CSD issuer control used stale or terminal state"@)
    } else if next is Err {
        Some(next->Err_0)
    } else {
        None
    }
}

/// The ledger with an issuer in a standing, at a sequence.
pub open spec fn issuer_set(
    ledger: Ledger,
    issuer_id: Id,
    status: IssuerStatus,
    sequence: u64,
) -> Ledger {
    Ledger {
        csd_issuers: ledger.csd_issuers.insert(
            issuer_id,
            CsdIssuerRecord { status, sequence, ..ledger.csd_issuers[issuer_id] },
        ),
        ..ledger
    }
}

/// What the control of an issuer does. An issuer at the last sequence takes the
/// standing, and the control fails.
pub open spec fn control_csd_issuer_outcome(
    ledger: Ledger,
    control: CsdIssuerControl,
    submission: Submission,
) -> Outcome {
    let statement = control.seal.statement->Ok_0;
    let record = ledger.csd_issuers[control.issuer_id];
    let status = controlled_issuer(record.status, control.kind)->Ok_0;
    unless(
        control_csd_issuer_refusal(ledger, control, submission),
        ledger,
        if record.sequence == u64::MAX {
            crate::outcome::refused(
                issuer_set(ledger, control.issuer_id, status, record.sequence),
                "CSD issuer sequence overflow"@,
            )
        } else {
            accepted(
                operated(
                    issuer_set(
                        ledger,
                        control.issuer_id,
                        status,
                        (record.sequence + 1) as u64,
                    ),
                    control.operation_id,
                    statement,
                ),
                statement,
            )
        },
    )
}

/// Changes the standing of an issuer. A revoked issuer stays revoked.
pub fn control_csd_issuer(
    state: &mut State,
    control: &CsdIssuerControl,
    submission: &Submission,
) -> (r: Result<Id, String>)
    ensures
        meets(r, final(state)@, control_csd_issuer_outcome(old(state)@, *control, *submission)),
{
    let statement = endorse(&control.seal, submission)?;
    if state.operations.contains_key(&control.operation_id) {
        return refuse("operation identifier was already used");
    }
    let record = match state.csd_issuers.get(&control.issuer_id) {
        Some(record) => record,
        None => return refuse("CSD issuer is unknown"),
    };
    if record.sequence != control.before_sequence || record.status == IssuerStatus::Revoked {
        return refuse("CSD issuer control used stale or terminal state");
    }
    let status = control_issuer_status(record.status, control.kind)?;
    let last = record.sequence == u64::MAX;
    let next = CsdIssuerRecord {
        code: Arc::clone(&record.code),
        jurisdiction: Arc::clone(&record.jurisdiction),
        operator_entity_commitment: record.operator_entity_commitment,
        public_key: record.public_key,
        permitted_asset_ids: Arc::clone(&record.permitted_asset_ids),
        policy_digest: record.policy_digest,
        valid_from: record.valid_from,
        valid_until: record.valid_until,
        status,
        sequence: if last {
            record.sequence
        } else {
            record.sequence + 1
        },
    };
    state.csd_issuers.insert(control.issuer_id, next);
    if last {
        return refuse("CSD issuer sequence overflow");
    }
    state.operations.insert(control.operation_id, statement);
    Ok(statement)
}

/// Why a settlement between accounts is refused before anything changes.
pub open spec fn settle_refusal(
    ledger: Ledger,
    order: SettlementOrder,
    submission: Submission,
    timestamp: u64,
) -> Option<Seq<char>> {
    if endorsement_refusal(order.seal, submission) is Some {
        endorsement_refusal(order.seal, submission)
    } else if timestamp > order.deadline {
        Some("payment instruction has expired"@)
    } else if ledger.operations.contains_key(order.operation_id) {
        Some("operation identifier was already used"@)
    } else if ledger.nullifiers.contains_key(order.nullifier) {
        Some("payment nullifier was already settled"@)
    } else {
        legs_refusal(ledger, order.legs@, "settlement"@, 0)
    }
}

/// What a settlement between accounts does: the nullifier is used, the accounts
/// are moved and the operation is recorded.
pub open spec fn settle_outcome(
    ledger: Ledger,
    order: SettlementOrder,
    submission: Submission,
    timestamp: u64,
) -> Outcome {
    let statement = order.seal.statement->Ok_0;
    let used = Ledger {
        nullifiers: ledger.nullifiers.insert(
            order.nullifier,
            NullifierRecord { deadline: order.deadline, statement },
        ),
        ..ledger
    };
    let moved = legs_progress(used, order.legs@, 0);
    unless(
        settle_refusal(ledger, order, submission, timestamp),
        ledger,
        unless(
            moved.refusal,
            moved.ledger,
            accepted(operated(moved.ledger, order.operation_id, statement), statement),
        ),
    )
}

/// Settles between accounts.
pub fn settle(
    state: &mut State,
    order: &SettlementOrder,
    submission: &Submission,
    timestamp: u64,
) -> (r: Result<Id, String>)
    ensures
        meets(r, final(state)@, settle_outcome(old(state)@, *order, *submission, timestamp)),
{
    let statement = endorse(&order.seal, submission)?;
    if timestamp > order.deadline {
        return refuse("payment instruction has expired");
    }
    if state.operations.contains_key(&order.operation_id) {
        return refuse("operation identifier was already used");
    }
    if state.nullifiers.contains_key(&order.nullifier) {
        return refuse("payment nullifier was already settled");
    }
    check_legs(state, &order.legs, "settlement")?;
    state.nullifiers.insert(
        order.nullifier,
        NullifierRecord { deadline: order.deadline, statement },
    );
    move_legs(state, &order.legs)?;
    state.operations.insert(order.operation_id, statement);
    Ok(statement)
}

} // verus!
