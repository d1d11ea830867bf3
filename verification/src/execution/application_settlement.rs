//! Partial fills of application reservations and their release.

use std::sync::Arc;
use vstd::prelude::*;

use crate::bytes::same_bytes;
use crate::crypto::{
    commitment_difference, commitment_sum, is_ristretto_point, ristretto_difference,
    ristretto_element, ristretto_point, ristretto_sum,
};
use crate::execution::note_product::{claim_progress, store_claim};
use crate::execution::notes::{insert_note, insert_note_progress};
use crate::execution::product::operated;
use crate::id::Id;
use crate::order::{NoteClaim, NoteOutput};
use crate::outcome::{
    accepted, advances, done, meets, refusal_of, refuse, refused, repeat, stopped, unless, verdict,
    Outcome, Progress,
};
use crate::state::{
    ApplicationBinding, ApplicationReservationRecord, ApplicationScope, CreditFacilityRecord,
    CreditHoldRecord, FacilityStatus, HoldStatus, Ledger, NoteClaimKind, NoteRecord,
    NoteSerialRecord, NullifierRecord, State,
};

verus! {

/// The state of a reservation that a fill was made against, and whether the
/// fill closes it.
#[derive(Clone, Copy, Debug)]
pub struct ApplicationSpendHead {
    pub hold_id: Id,
    pub sequence: u64,
    pub previous_receipt: Id,
    pub remaining_commitment: Id,
    pub close: bool,
}

/// What a verified fill takes from one reservation and leaves of it, with the
/// encoded opening of the rest.
#[derive(Debug)]
pub struct VerifiedSide {
    pub consumed: Id,
    pub remaining: Id,
    pub normalized_opening: Arc<Vec<u8>>,
}

/// A fill whose committee certificate and proofs are verified for a scope at a
/// time.
#[derive(Debug)]
pub struct VerifiedFill {
    pub scope: ApplicationScope,
    pub now: u64,
    pub statement: Id,
    pub nullifier: Id,
    pub deadline: u64,
    pub securities: VerifiedSide,
    pub cash: VerifiedSide,
    pub claims: Vec<NoteClaim>,
}

/// A fill of a securities and a cash reservation. `scope_key` is the key of its
/// scope, `batched` says whether it was signed as part of a batch, and
/// `verified` is what its verification found.
#[derive(Debug)]
pub struct ApplicationNoteFill {
    pub operation_id: Id,
    pub before_root: Id,
    pub scope_key: Result<Id, String>,
    pub batched: bool,
    pub securities: ApplicationSpendHead,
    pub cash: ApplicationSpendHead,
    pub securities_asset: Id,
    pub cash_asset: Id,
    pub verified: Result<VerifiedFill, String>,
}

/// Fills that settle together or not at all.
#[derive(Debug)]
pub struct ApplicationNoteFillBatch {
    pub statement: Result<Id, String>,
    pub before_root: Result<Id, String>,
    pub fills: Vec<ApplicationNoteFill>,
}

/// A release whose reason is verified for a scope, the end of the reservation
/// and a time.
#[derive(Clone, Copy, Debug)]
pub struct VerifiedRelease {
    pub scope: ApplicationScope,
    pub valid_until: u64,
    pub now: u64,
    pub statement: Id,
}

/// What a claim to a remainder is derived from.
#[derive(Debug)]
pub struct RefundRequest {
    pub asset_id: Id,
    pub hold_id: Id,
    pub value_commitment: Id,
    pub operation_id: Id,
    pub opening: Arc<Vec<u8>>,
}

/// A claim to a remainder, with what it was derived from.
#[derive(Debug)]
pub struct RefundClaim {
    pub request: RefundRequest,
    pub claim: NoteClaim,
}

/// The release of what is left of a reservation. `verified` is what its
/// verification found, `refund_note` the unlocked note under its derived
/// identifier, and `refund_claim` the claim to a remainder.
#[derive(Debug)]
pub struct ApplicationNoteRelease {
    pub operation_id: Id,
    pub before_root: Id,
    pub hold_id: Id,
    pub sequence: u64,
    pub previous_receipt: Id,
    pub verified: Result<VerifiedRelease, String>,
    pub refund_note: Result<NoteOutput, String>,
    pub refund_claim: Result<RefundClaim, String>,
}

/// Marks the escrowed note of a reservation as spent at its first use, and
/// finds it spent at later ones.
pub open spec fn covenant_progress(
    ledger: Ledger,
    binding: ApplicationBinding,
    escrow_note_id: Id,
    covenant_serial: Id,
    sequence: u64,
    statement: Id,
) -> Progress {
    let spent = ledger.note_serials.contains_key(covenant_serial);
    if sequence == 0 {
        if spent {
            stopped(ledger, "application covenant was already consumed"@)
        } else {
            done(
                Ledger {
                    note_serials: ledger.note_serials.insert(
                        covenant_serial,
                        NoteSerialRecord {
                            deadline: binding.valid_until,
                            asset_id: binding.asset_id,
                            ring_root: escrow_note_id,
                            statement,
                        },
                    ),
                    ..ledger
                },
            )
        }
    } else if !spent {
        stopped(ledger, "application remainder lost its consumed covenant"@)
    } else {
        done(ledger)
    }
}

/// Marks the escrowed note of a reservation as spent at its first use.
pub fn consume_covenant(
    state: &mut State,
    binding: &ApplicationBinding,
    escrow_note_id: Id,
    covenant_serial: Id,
    sequence: u64,
    statement: Id,
) -> (r: Result<(), String>)
    ensures
        advances(
            r,
            final(state)@,
            covenant_progress(
                old(state)@,
                *binding,
                escrow_note_id,
                covenant_serial,
                sequence,
                statement,
            ),
        ),
{
    let spent = state.note_serials.contains_key(&covenant_serial);
    if sequence == 0 {
        if spent {
            return refuse("application covenant was already consumed");
        }
        state.note_serials.insert(
            covenant_serial,
            NoteSerialRecord {
                deadline: binding.valid_until,
                asset_id: binding.asset_id,
                ring_root: escrow_note_id,
                statement,
            },
        );
    } else if !spent {
        return refuse("application remainder lost its consumed covenant");
    }
    Ok(())
}

/// Adds a claim: it is well formed and new.
pub open spec fn insert_claim_progress(
    ledger: Ledger,
    claim: NoteClaim,
    statement: Id,
) -> Progress {
    if refusal_of(claim.shape) is Some {
        stopped(ledger, refusal_of(claim.shape)->0)
    } else if ledger.note_claims.contains_key(claim.claim_id) {
        stopped(ledger, "application claim already exists"@)
    } else {
        claim_progress(ledger, claim, statement)
    }
}

/// Adds a claim.
pub fn insert_claim(state: &mut State, claim: &NoteClaim, statement: Id) -> (r: Result<(), String>)
    ensures
        advances(r, final(state)@, insert_claim_progress(old(state)@, *claim, statement)),
{
    repeat(&claim.shape)?;
    if state.note_claims.contains_key(&claim.claim_id) {
        return refuse("application claim already exists");
    }
    store_claim(state, claim, statement)
}

/// Adds the claims from `from` on, in order.
pub open spec fn insert_claims_progress(
    ledger: Ledger,
    claims: Seq<NoteClaim>,
    statement: Id,
    from: nat,
) -> Progress
    decreases claims.len() - from,
{
    if from >= claims.len() {
        done(ledger)
    } else {
        let step = insert_claim_progress(ledger, claims[from as int], statement);
        if step.refusal is Some {
            step
        } else {
            insert_claims_progress(step.ledger, claims, statement, from + 1)
        }
    }
}

/// Adding claims changes nothing else.
pub proof fn lemma_inserted_claims_keep(
    ledger: Ledger,
    claims: Seq<NoteClaim>,
    statement: Id,
    from: nat,
)
    ensures
        ({
            let after = insert_claims_progress(ledger, claims, statement, from).ledger;
            after == (Ledger { note_claims: after.note_claims, ..ledger })
        }),
    decreases claims.len() - from,
{
    if from < claims.len() {
        let step = insert_claim_progress(ledger, claims[from as int], statement);
        if step.refusal is None {
            lemma_inserted_claims_keep(step.ledger, claims, statement, from + 1);
        }
    }
}

fn insert_claims(state: &mut State, claims: &Vec<NoteClaim>, statement: Id) -> (r: Result<
    (),
    String,
>)
    ensures
        advances(r, final(state)@, insert_claims_progress(old(state)@, claims@, statement, 0)),
{
    let mut index: usize = 0;
    while index < claims.len()
        invariant
            index <= claims@.len(),
            insert_claims_progress(old(state)@, claims@, statement, 0) == insert_claims_progress(
                state@,
                claims@,
                statement,
                index as nat,
            ),
        decreases claims@.len() - index,
    {
        insert_claim(state, &claims[index], statement)?;
        index = index + 1;
    }
    Ok(())
}

/// Why bytes are not a commitment.
pub open spec fn commitment_refusal(encoded: Id) -> Option<Seq<char>> {
    if ristretto_point(encoded.0) {
        None
    } else {
        Some("application commitment is not a canonical Ristretto point"@)
    }
}

/// Checks that bytes are a commitment.
pub fn point(encoded: &Id) -> (r: Result<(), String>)
    ensures
        verdict(r, commitment_refusal(*encoded)),
        r is Ok ==> ristretto_element(encoded.0),
{
    if is_ristretto_point(encoded) {
        Ok(())
    } else {
        refuse("application commitment is not a canonical Ristretto point")
    }
}

/// A facility on the way through a change, with the reason for which the change
/// stopped there, if it did.
pub struct FacilityProgress {
    pub facility: CreditFacilityRecord,
    pub refusal: Option<Seq<char>>,
}

/// The facility at its next sequence.
pub open spec fn sequenced(facility: CreditFacilityRecord) -> FacilityProgress {
    if facility.sequence == u64::MAX {
        FacilityProgress { facility, refusal: Some("application facility sequence overflow"@) }
    } else {
        FacilityProgress {
            facility: CreditFacilityRecord {
                sequence: (facility.sequence + 1) as u64,
                ..facility
            },
            refusal: None,
        }
    }
}

/// The facility with an amount no longer held.
pub open spec fn unheld(facility: CreditFacilityRecord, amount: Id) -> CreditFacilityRecord {
    CreditFacilityRecord {
        held_commitment: Id(ristretto_difference(facility.held_commitment.0, amount.0)),
        ..facility
    }
}

/// The facility with an amount owed.
pub open spec fn owed(facility: CreditFacilityRecord, amount: Id) -> CreditFacilityRecord {
    CreditFacilityRecord {
        outstanding_commitment: Id(ristretto_sum(facility.outstanding_commitment.0, amount.0)),
        ..facility
    }
}

/// The facility with an amount available again.
pub open spec fn freed(facility: CreditFacilityRecord, amount: Id) -> CreditFacilityRecord {
    CreditFacilityRecord {
        available_commitment: Id(ristretto_sum(facility.available_commitment.0, amount.0)),
        ..facility
    }
}

/// What a fill does to a facility: what it consumes goes from held to
/// outstanding, and a closing fill also frees the rest.
pub open spec fn filled_facility(
    facility: CreditFacilityRecord,
    before: Id,
    consumed: Id,
    remainder: Id,
    close: bool,
) -> FacilityProgress {
    let first = unheld(
        facility,
        if close {
            before
        } else {
            consumed
        },
    );
    let second = owed(first, consumed);
    if commitment_refusal(facility.held_commitment) is Some {
        FacilityProgress { facility, refusal: commitment_refusal(facility.held_commitment) }
    } else if commitment_refusal(facility.outstanding_commitment) is Some {
        FacilityProgress {
            facility: first,
            refusal: commitment_refusal(facility.outstanding_commitment),
        }
    } else if !close {
        sequenced(second)
    } else if commitment_refusal(facility.available_commitment) is Some {
        FacilityProgress {
            facility: second,
            refusal: commitment_refusal(facility.available_commitment),
        }
    } else {
        sequenced(freed(second, remainder))
    }
}

/// What a facility has in all: what is available, held and outstanding.
pub open spec fn capacity(facility: CreditFacilityRecord) -> [u8; 32] {
    ristretto_sum(
        facility.available_commitment.0,
        ristretto_sum(facility.held_commitment.0, facility.outstanding_commitment.0),
    )
}

/// Whether a change of a facility keeps what it has in all.
pub open spec fn keeps_capacity(
    before: CreditFacilityRecord,
    after: CreditFacilityRecord,
) -> bool {
    ristretto_point(before.outstanding_commitment.0) ==> {
        &&& ristretto_point(after.outstanding_commitment.0)
        &&& capacity(after) == capacity(before)
    }
}

/// Whether every facility is kept, with what it has in all.
pub open spec fn conserves(before: Ledger, after: Ledger) -> bool {
    forall|id: Id| #[trigger]
        before.credit_facilities.contains_key(id) ==> {
            &&& after.credit_facilities.contains_key(id)
            &&& keeps_capacity(before.credit_facilities[id], after.credit_facilities[id])
        }
}

/// Moving an amount from held to outstanding keeps the sum of the two.
proof fn lemma_moved_to_outstanding(
    held: [u8; 32],
    outstanding: [u8; 32],
    amount: [u8; 32],
    left: [u8; 32],
    owed: [u8; 32],
)
    requires
        ristretto_element(held),
        ristretto_element(outstanding),
        ristretto_element(amount),
        ristretto_element(left),
        ristretto_element(owed),
        ristretto_sum(left, amount) == held,
        owed == ristretto_sum(outstanding, amount),
    ensures
        ristretto_sum(left, owed) == ristretto_sum(held, outstanding),
{
    reveal(ristretto_element);
    assert(ristretto_sum(left, owed) == ristretto_sum(owed, left));
    assert(ristretto_sum(owed, left) == ristretto_sum(outstanding, ristretto_sum(amount, left)));
    assert(ristretto_sum(amount, left) == ristretto_sum(left, amount));
    assert(ristretto_sum(outstanding, held) == ristretto_sum(held, outstanding));
}

/// Moving an amount from held to available keeps the sum of all three.
proof fn lemma_moved_to_available(
    available: [u8; 32],
    held: [u8; 32],
    rest: [u8; 32],
    amount: [u8; 32],
    left: [u8; 32],
)
    requires
        ristretto_element(available),
        ristretto_element(amount),
        ristretto_element(left),
        ristretto_point(rest),
        ristretto_sum(left, amount) == held,
    ensures
        ristretto_sum(ristretto_sum(available, amount), ristretto_sum(left, rest))
            == ristretto_sum(available, ristretto_sum(held, rest)),
{
    reveal(ristretto_element);
    assert(ristretto_point(ristretto_sum(left, rest)));
    assert(ristretto_sum(ristretto_sum(available, amount), ristretto_sum(left, rest))
        == ristretto_sum(available, ristretto_sum(amount, ristretto_sum(left, rest))));
    assert(ristretto_sum(ristretto_sum(amount, left), rest) == ristretto_sum(
        amount,
        ristretto_sum(left, rest),
    ));
    assert(ristretto_sum(amount, left) == ristretto_sum(left, amount));
}

/// Moving one part of an amount from held to outstanding and the other to
/// available keeps the sum of all three.
proof fn lemma_moved_apart(
    available: [u8; 32],
    held: [u8; 32],
    outstanding: [u8; 32],
    consumed: [u8; 32],
    remainder: [u8; 32],
    left: [u8; 32],
    owed: [u8; 32],
)
    requires
        ristretto_element(available),
        ristretto_element(held),
        ristretto_element(outstanding),
        ristretto_element(consumed),
        ristretto_element(remainder),
        ristretto_element(ristretto_sum(consumed, remainder)),
        ristretto_element(left),
        ristretto_element(owed),
        ristretto_sum(left, ristretto_sum(consumed, remainder)) == held,
        owed == ristretto_sum(outstanding, consumed),
    ensures
        ristretto_sum(ristretto_sum(available, remainder), ristretto_sum(left, owed))
            == ristretto_sum(available, ristretto_sum(held, outstanding)),
{
    reveal(ristretto_element);
    let both = ristretto_sum(consumed, remainder);
    let rest = ristretto_sum(left, owed);
    assert(ristretto_sum(ristretto_sum(available, remainder), rest) == ristretto_sum(
        available,
        ristretto_sum(remainder, rest),
    ));
    assert(ristretto_sum(remainder, rest) == ristretto_sum(rest, remainder));
    assert(ristretto_sum(rest, remainder) == ristretto_sum(left, ristretto_sum(owed, remainder)));
    assert(ristretto_sum(owed, remainder) == ristretto_sum(outstanding, both));
    assert(ristretto_sum(outstanding, both) == ristretto_sum(both, outstanding));
    assert(ristretto_sum(ristretto_sum(left, both), outstanding) == ristretto_sum(
        left,
        ristretto_sum(both, outstanding),
    ));
}

fn sequence_facility(facility: &mut CreditFacilityRecord) -> (r: Result<(), String>)
    ensures
        *final(facility) == sequenced(*old(facility)).facility,
        verdict(r, sequenced(*old(facility)).refusal),
{
    if facility.sequence == u64::MAX {
        return refuse("application facility sequence overflow");
    }
    facility.sequence = facility.sequence + 1;
    Ok(())
}

fn fill_facility(
    facility: &mut CreditFacilityRecord,
    before: &Id,
    consumed: &Id,
    remainder: &Id,
    close: bool,
) -> (r: Result<(), String>)
    requires
        ristretto_point(before.0),
        ristretto_point(consumed.0),
        ristretto_point(remainder.0),
        ristretto_element(before.0),
        ristretto_element(consumed.0),
        ristretto_element(remainder.0),
        before.0 == ristretto_sum(consumed.0, remainder.0),
    ensures
        r is Ok ==> keeps_capacity(*old(facility), *final(facility)),
        *final(facility) == filled_facility(
            *old(facility),
            *before,
            *consumed,
            *remainder,
            close,
        ).facility,
        verdict(
            r,
            filled_facility(*old(facility), *before, *consumed, *remainder, close).refusal,
        ),
{
    let ghost start = *facility;
    point(&facility.held_commitment)?;
    facility.held_commitment = if close {
        commitment_difference(&facility.held_commitment, before)
    } else {
        commitment_difference(&facility.held_commitment, consumed)
    };
    point(&facility.outstanding_commitment)?;
    facility.outstanding_commitment = commitment_sum(&facility.outstanding_commitment, consumed);
    if close {
        point(&facility.available_commitment)?;
        facility.available_commitment = commitment_sum(&facility.available_commitment, remainder);
        proof {
            lemma_moved_apart(
                start.available_commitment.0,
                start.held_commitment.0,
                start.outstanding_commitment.0,
                consumed.0,
                remainder.0,
                facility.held_commitment.0,
                facility.outstanding_commitment.0,
            );
        }
    } else {
        proof {
            lemma_moved_to_outstanding(
                start.held_commitment.0,
                start.outstanding_commitment.0,
                consumed.0,
                facility.held_commitment.0,
                facility.outstanding_commitment.0,
            );
        }
    }
    sequence_facility(facility)
}

/// Why a reservation is not at the head that a fill was made against.
pub open spec fn head_refusal(
    ledger: Ledger,
    scope: ApplicationScope,
    head: ApplicationSpendHead,
    asset_id: Id,
    now: u64,
) -> Option<Seq<char>> {
    let record = ledger.application_reservations[head.hold_id];
    if !ledger.application_reservations.contains_key(head.hold_id) {
        Some("application fill has no canonical reservation"@)
    } else if record.binding.scope != scope || record.binding.asset_id != asset_id || record.status
        != HoldStatus::Active || record.sequence != head.sequence || record.head_receipt_spec()
        != head.previous_receipt || record.remaining_spec() != head.remaining_commitment || now
        < record.binding.valid_from || now > record.binding.valid_until {
        Some("application fill differs from its current reservation head"@)
    } else {
        None
    }
}

/// A reservation as it was when a fill was checked.
#[derive(Clone, Copy)]
struct Snapshot {
    binding: ApplicationBinding,
    escrow_note_id: Id,
    covenant_serial: Id,
    status: HoldStatus,
    sequence: u64,
    remaining: Id,
    settlement_digest: Id,
}

spec fn snapshot_of(record: ApplicationReservationRecord) -> Snapshot {
    Snapshot {
        binding: record.binding,
        escrow_note_id: record.escrow_note_id,
        covenant_serial: record.covenant_serial,
        status: record.status,
        sequence: record.sequence,
        remaining: record.remaining_spec(),
        settlement_digest: record.settlement_digest,
    }
}

fn take_snapshot(record: &ApplicationReservationRecord) -> (r: Snapshot)
    ensures
        r == snapshot_of(*record),
{
    Snapshot {
        binding: record.binding,
        escrow_note_id: record.escrow_note_id,
        covenant_serial: record.covenant_serial,
        status: record.status,
        sequence: record.sequence,
        remaining: record.remaining(),
        settlement_digest: record.settlement_digest,
    }
}

pub(crate) fn is_same_scope(left: &ApplicationScope, right: &ApplicationScope) -> (r: bool)
    ensures
        r == (*left == *right),
{
    left.application_binding == right.application_binding && left.venue_id == right.venue_id
        && left.defmi_id == right.defmi_id && left.committee_key_digest
        == right.committee_key_digest && left.committee_epoch == right.committee_epoch
        && left.amount_bits == right.amount_bits
}

fn check_head(
    state: &State,
    scope: &ApplicationScope,
    head: &ApplicationSpendHead,
    asset_id: Id,
    now: u64,
) -> (r: Result<Snapshot, String>)
    ensures
        match r {
            Ok(snapshot) => head_refusal(state@, *scope, *head, asset_id, now) is None && snapshot
                == snapshot_of(state@.application_reservations[head.hold_id]),
            Err(message) => head_refusal(state@, *scope, *head, asset_id, now) == Some(message@),
        },
{
    let record = match state.application_reservations.get(&head.hold_id) {
        Some(record) => record,
        None => return refuse("application fill has no canonical reservation"),
    };
    if !is_same_scope(&record.binding.scope, scope) || record.binding.asset_id != asset_id
        || record.status != HoldStatus::Active || record.sequence != head.sequence
        || record.head_receipt() != head.previous_receipt || record.remaining()
        != head.remaining_commitment || now < record.binding.valid_from || now
        > record.binding.valid_until {
        return refuse("application fill differs from its current reservation head");
    }
    Ok(take_snapshot(record))
}

/// Why one side of a fill is refused before it changes anything; `record` is
/// the reservation as the fill found it.
pub open spec fn side_refusal(
    ledger: Ledger,
    record: ApplicationReservationRecord,
    side: VerifiedSide,
    hold_id: Id,
    asset_id: Id,
) -> Option<Seq<char>> {
    let before = record.remaining_spec();
    let hold = ledger.credit_holds[hold_id];
    let facility = ledger.credit_facilities[record.binding.facility_id];
    if commitment_refusal(before) is Some {
        commitment_refusal(before)
    } else if commitment_refusal(side.consumed) is Some {
        commitment_refusal(side.consumed)
    } else if commitment_refusal(side.remaining) is Some {
        commitment_refusal(side.remaining)
    } else if before != Id(ristretto_sum(side.consumed.0, side.remaining.0)) {
        Some("application fill changes the canonical reserved amount"@)
    } else if !ledger.credit_holds.contains_key(hold_id) {
        Some("application fill credit hold is absent"@)
    } else if hold.status != HoldStatus::Active || hold.amount_commitment != before
        || hold.facility_id != record.binding.facility_id {
        Some("application fill credit hold differs from its head"@)
    } else if !ledger.credit_facilities.contains_key(record.binding.facility_id) {
        Some("application fill facility is absent"@)
    } else if facility.status != FacilityStatus::Active || facility.beneficiary_commitment
        != record.binding.entity_commitment || facility.rail_asset_id != asset_id {
        Some("application fill facility is not eligible"@)
    } else {
        None
    }
}

/// The hold after a fill.
pub open spec fn filled_hold(
    hold: CreditHoldRecord,
    remaining: Id,
    close: bool,
    facility_sequence: u64,
    statement: Id,
) -> CreditHoldRecord {
    CreditHoldRecord {
        amount_commitment: remaining,
        updated_sequence: facility_sequence,
        status: if close {
            HoldStatus::Consumed
        } else {
            hold.status
        },
        settlement_digest: if close {
            statement
        } else {
            hold.settlement_digest
        },
        ..hold
    }
}

/// The reservation after a fill.
pub open spec fn filled_reservation(
    record: ApplicationReservationRecord,
    side: VerifiedSide,
    close: bool,
    statement: Id,
) -> ApplicationReservationRecord {
    ApplicationReservationRecord {
        remaining_commitment: Some(side.remaining),
        sequence: (record.sequence + 1) as u64,
        last_receipt: Some(statement),
        remaining_opening: if close {
            None
        } else {
            Some(side.normalized_opening)
        },
        status: if close {
            HoldStatus::Consumed
        } else {
            record.status
        },
        settlement_digest: if close {
            statement
        } else {
            record.settlement_digest
        },
        ..record
    }
}

/// The ledger with a facility put in place.
pub open spec fn with_facility(
    ledger: Ledger,
    facility_id: Id,
    facility: CreditFacilityRecord,
) -> Ledger {
    Ledger { credit_facilities: ledger.credit_facilities.insert(facility_id, facility), ..ledger }
}

/// The ledger with a hold and its reservation put in place.
pub open spec fn with_hold(
    ledger: Ledger,
    hold_id: Id,
    hold: CreditHoldRecord,
    record: ApplicationReservationRecord,
) -> Ledger {
    Ledger {
        credit_holds: ledger.credit_holds.insert(hold_id, hold),
        application_reservations: ledger.application_reservations.insert(hold_id, record),
        ..ledger
    }
}

/// What one side of a fill does: facility, covenant, hold and reservation move
/// together. `record` is the reservation as the fill found it.
pub open spec fn side_progress(
    ledger: Ledger,
    record: ApplicationReservationRecord,
    side: VerifiedSide,
    head: ApplicationSpendHead,
    asset_id: Id,
    statement: Id,
) -> Progress {
    let binding = record.binding;
    let filled = filled_facility(
        ledger.credit_facilities[binding.facility_id],
        record.remaining_spec(),
        side.consumed,
        side.remaining,
        head.close,
    );
    let moved = with_facility(ledger, binding.facility_id, filled.facility);
    let covenant = covenant_progress(
        moved,
        binding,
        record.escrow_note_id,
        record.covenant_serial,
        record.sequence,
        statement,
    );
    if side_refusal(ledger, record, side, head.hold_id, asset_id) is Some {
        stopped(ledger, side_refusal(ledger, record, side, head.hold_id, asset_id)->0)
    } else if filled.refusal is Some {
        stopped(moved, filled.refusal->0)
    } else if covenant.refusal is Some {
        covenant
    } else if record.sequence == u64::MAX {
        stopped(covenant.ledger, "application reserve sequence overflow"@)
    } else {
        done(
            with_hold(
                covenant.ledger,
                head.hold_id,
                filled_hold(
                    ledger.credit_holds[head.hold_id],
                    side.remaining,
                    head.close,
                    filled.facility.sequence,
                    statement,
                ),
                filled_reservation(record, side, head.close, statement),
            ),
        )
    }
}

fn apply_side(
    state: &mut State,
    Ghost(record): Ghost<ApplicationReservationRecord>,
    snapshot: &Snapshot,
    side: &VerifiedSide,
    head: &ApplicationSpendHead,
    asset_id: Id,
    statement: Id,
) -> (r: Result<(), String>)
    requires
        *snapshot == snapshot_of(record),
    ensures
        advances(
            r,
            final(state)@,
            side_progress(old(state)@, record, *side, *head, asset_id, statement),
        ),
        r is Ok ==> conserves(old(state)@, final(state)@),
{
    let before = snapshot.remaining;
    let binding = &snapshot.binding;
    point(&before)?;
    point(&side.consumed)?;
    point(&side.remaining)?;
    if before != commitment_sum(&side.consumed, &side.remaining) {
        return refuse("application fill changes the canonical reserved amount");
    }
    let mut hold = match state.credit_holds.get(&head.hold_id) {
        Some(hold) => *hold,
        None => return refuse("application fill credit hold is absent"),
    };
    if hold.status != HoldStatus::Active || hold.amount_commitment != before || hold.facility_id
        != binding.facility_id {
        return refuse("application fill credit hold differs from its head");
    }
    let mut facility = match state.credit_facilities.get(&binding.facility_id) {
        Some(facility) => *facility,
        None => return refuse("application fill facility is absent"),
    };
    if facility.status != FacilityStatus::Active || facility.beneficiary_commitment
        != binding.entity_commitment || facility.rail_asset_id != asset_id {
        return refuse("application fill facility is not eligible");
    }
    let filled = fill_facility(
        &mut facility,
        &before,
        &side.consumed,
        &side.remaining,
        head.close,
    );
    state.credit_facilities.insert(binding.facility_id, facility);
    filled?;
    consume_covenant(
        state,
        binding,
        snapshot.escrow_note_id,
        snapshot.covenant_serial,
        snapshot.sequence,
        statement,
    )?;
    if snapshot.sequence == u64::MAX {
        return refuse("application reserve sequence overflow");
    }
    hold.updated_sequence = facility.sequence;
    hold.amount_commitment = side.remaining;
    if head.close {
        hold.status = HoldStatus::Consumed;
        hold.settlement_digest = statement;
    }
    let next = ApplicationReservationRecord {
        binding: *binding,
        escrow_note_id: snapshot.escrow_note_id,
        covenant_serial: snapshot.covenant_serial,
        status: if head.close {
            HoldStatus::Consumed
        } else {
            snapshot.status
        },
        sequence: snapshot.sequence + 1,
        remaining_commitment: Some(side.remaining),
        last_receipt: Some(statement),
        remaining_opening: if head.close {
            None
        } else {
            Some(Arc::clone(&side.normalized_opening))
        },
        settlement_digest: if head.close {
            statement
        } else {
            snapshot.settlement_digest
        },
    };
    state.credit_holds.insert(head.hold_id, hold);
    state.application_reservations.insert(head.hold_id, next);
    Ok(())
}

/// Why a fill is refused before it changes anything.
pub open spec fn fill_refusal(
    ledger: Ledger,
    order: ApplicationNoteFill,
    parent: Id,
    now: u64,
) -> Option<Seq<char>> {
    let key = order.scope_key->Ok_0;
    let scope = ledger.application_reserve_scopes[key];
    let securities = head_refusal(ledger, scope, order.securities, order.securities_asset, now);
    let cash = head_refusal(ledger, scope, order.cash, order.cash_asset, now);
    if order.before_root != parent || ledger.operations.contains_key(order.operation_id) {
        Some("application fill has a stale parent or reused operation"@)
    } else if crate::endorsement::statement_refusal(order.scope_key) is Some {
        crate::endorsement::statement_refusal(order.scope_key)
    } else if !ledger.application_reserve_scopes.contains_key(key) {
        Some("application fill scope is not registered"@)
    } else if securities is Some {
        securities
    } else if cash is Some {
        cash
    } else {
        match order.verified {
            Err(message) => Some(message@),
            Ok(verified) => if verified.scope != scope || verified.now != now {
                Some("application fill was verified for another scope or time"@)
            } else if ledger.nullifiers.contains_key(verified.nullifier) {
                Some("application zkPI was already settled"@)
            } else {
                None
            },
        }
    }
}

/// What carrying out a checked fill does: both sides in turn, then the claims,
/// the nullifier and the operation.
pub open spec fn fill_effect(ledger: Ledger, order: ApplicationNoteFill) -> Outcome {
    let verified = order.verified->Ok_0;
    let statement = verified.statement;
    let securities = side_progress(
        ledger,
        ledger.application_reservations[order.securities.hold_id],
        verified.securities,
        order.securities,
        order.securities_asset,
        statement,
    );
    let cash = side_progress(
        securities.ledger,
        ledger.application_reservations[order.cash.hold_id],
        verified.cash,
        order.cash,
        order.cash_asset,
        statement,
    );
    let claimed = insert_claims_progress(cash.ledger, verified.claims@, statement, 0);
    let used = Ledger {
        nullifiers: claimed.ledger.nullifiers.insert(
            verified.nullifier,
            NullifierRecord { deadline: verified.deadline, statement },
        ),
        ..claimed.ledger
    };
    if securities.refusal is Some {
        refused(securities.ledger, securities.refusal->0)
    } else if cash.refusal is Some {
        refused(cash.ledger, cash.refusal->0)
    } else if claimed.refusal is Some {
        refused(claimed.ledger, claimed.refusal->0)
    } else {
        accepted(operated(used, order.operation_id, statement), statement)
    }
}

/// What a fill on top of `parent` does.
pub open spec fn fill_outcome(
    ledger: Ledger,
    order: ApplicationNoteFill,
    parent: Id,
    now: u64,
) -> Outcome {
    unless(fill_refusal(ledger, order, parent, now), ledger, fill_effect(ledger, order))
}

/// Carries out a fill made on top of `parent`.
pub fn apply_fill(
    state: &mut State,
    order: &ApplicationNoteFill,
    parent: Id,
    now: u64,
) -> (r: Result<Id, String>)
    ensures
        meets(r, final(state)@, fill_outcome(old(state)@, *order, parent, now)),
        r is Ok ==> conserves(old(state)@, final(state)@),
{
    if order.before_root != parent || state.operations.contains_key(&order.operation_id) {
        return refuse("application fill has a stale parent or reused operation");
    }
    let key = crate::endorsement::statement_of(&order.scope_key)?;
    let scope = match state.application_reserve_scopes.get(&key) {
        Some(scope) => scope,
        None => return refuse("application fill scope is not registered"),
    };
    let securities = check_head(state, scope, &order.securities, order.securities_asset, now)?;
    let cash = check_head(state, scope, &order.cash, order.cash_asset, now)?;
    let verified = match &order.verified {
        Ok(verified) => verified,
        Err(message) => return Err(message.clone()),
    };
    if !is_same_scope(&verified.scope, scope) || verified.now != now {
        return refuse("application fill was verified for another scope or time");
    }
    if state.nullifiers.contains_key(&verified.nullifier) {
        return refuse("application zkPI was already settled");
    }
    let ghost before = state@;
    apply_side(
        state,
        Ghost(before.application_reservations[order.securities.hold_id]),
        &securities,
        &verified.securities,
        &order.securities,
        order.securities_asset,
        verified.statement,
    )?;
    apply_side(
        state,
        Ghost(before.application_reservations[order.cash.hold_id]),
        &cash,
        &verified.cash,
        &order.cash,
        order.cash_asset,
        verified.statement,
    )?;
    proof {
        lemma_inserted_claims_keep(state@, verified.claims@, verified.statement, 0);
    }
    insert_claims(state, &verified.claims, verified.statement)?;
    state.nullifiers.insert(
        verified.nullifier,
        NullifierRecord { deadline: verified.deadline, statement: verified.statement },
    );
    state.operations.insert(order.operation_id, verified.statement);
    Ok(verified.statement)
}

/// What a fill does that settles alone.
pub open spec fn fill_alone_outcome(
    ledger: Ledger,
    order: ApplicationNoteFill,
    root: Id,
    now: u64,
) -> Outcome {
    if order.batched {
        refused(ledger, "a signed batch member cannot settle individually"@)
    } else {
        fill_outcome(ledger, order, root, now)
    }
}

/// Fills on top of the current state root. A member of a signed batch does not
/// settle alone.
pub fn fill(state: &mut State, order: &ApplicationNoteFill, root: Id, now: u64) -> (r: Result<
    Id,
    String,
>)
    ensures
        meets(
            r,
            final(state)@,
            fill_alone_outcome(old(state)@, *order, root, now),
        ),
        r is Ok ==> conserves(old(state)@, final(state)@),
{
    if order.batched {
        return refuse("a signed batch member cannot settle individually");
    }
    apply_fill(state, order, root, now)
}

/// Carries out the fills from `from` on, one after the other.
pub open spec fn fills_progress(
    ledger: Ledger,
    fills: Seq<ApplicationNoteFill>,
    parent: Id,
    now: u64,
    from: nat,
) -> Progress
    decreases fills.len() - from,
{
    if from >= fills.len() {
        done(ledger)
    } else {
        let outcome = fill_outcome(ledger, fills[from as int], parent, now);
        match outcome.result {
            Err(message) => stopped(outcome.ledger, message),
            Ok(_) => fills_progress(outcome.ledger, fills, parent, now, from + 1),
        }
    }
}

/// What a batch of fills does: all of them or nothing.
pub open spec fn fill_batch_outcome(
    ledger: Ledger,
    batch: ApplicationNoteFillBatch,
    root: Id,
    now: u64,
) -> Outcome {
    let filled = fills_progress(ledger, batch.fills@, root, now, 0);
    let refusal = if crate::endorsement::statement_refusal(batch.statement) is Some {
        crate::endorsement::statement_refusal(batch.statement)
    } else if crate::endorsement::statement_refusal(batch.before_root) is Some {
        crate::endorsement::statement_refusal(batch.before_root)
    } else if batch.before_root->Ok_0 != root {
        Some("application batch has a stale parent"@)
    } else {
        filled.refusal
    };
    unless(refusal, ledger, accepted(filled.ledger, batch.statement->Ok_0))
}

/// Fills a batch: every member settles, or the state stays as it was.
pub fn fill_batch(
    state: &mut State,
    batch: &ApplicationNoteFillBatch,
    root: Id,
    now: u64,
) -> (r: Result<Id, String>)
    ensures
        meets(r, final(state)@, fill_batch_outcome(old(state)@, *batch, root, now)),
        r is Ok ==> conserves(old(state)@, final(state)@),
{
    let statement = crate::endorsement::statement_of(&batch.statement)?;
    let before_root = crate::endorsement::statement_of(&batch.before_root)?;
    if before_root != root {
        return refuse("application batch has a stale parent");
    }
    let mut candidate = state.share();
    let mut index: usize = 0;
    while index < batch.fills.len()
        invariant
            index <= batch.fills@.len(),
            state@ == old(state)@,
            conserves(old(state)@, candidate@),
            batch.statement == Ok::<Id, String>(statement),
            batch.before_root == Ok::<Id, String>(root),
            fills_progress(old(state)@, batch.fills@, root, now, 0) == fills_progress(
                candidate@,
                batch.fills@,
                root,
                now,
                index as nat,
            ),
        decreases batch.fills@.len() - index,
    {
        apply_fill(&mut candidate, &batch.fills[index], root, now)?;
        index = index + 1;
    }
    *state = candidate;
    Ok(statement)
}

/// What a release does to a facility: what is left goes from held to available.
pub open spec fn released_facility(
    facility: CreditFacilityRecord,
    amount: Id,
) -> FacilityProgress {
    let first = unheld(facility, amount);
    if commitment_refusal(facility.held_commitment) is Some {
        FacilityProgress { facility, refusal: commitment_refusal(facility.held_commitment) }
    } else if commitment_refusal(facility.available_commitment) is Some {
        FacilityProgress {
            facility: first,
            refusal: commitment_refusal(facility.available_commitment),
        }
    } else {
        sequenced(freed(first, amount))
    }
}

fn release_facility(facility: &mut CreditFacilityRecord, amount: &Id) -> (r: Result<(), String>)
    requires
        ristretto_point(amount.0),
        ristretto_element(amount.0),
    ensures
        r is Ok ==> keeps_capacity(*old(facility), *final(facility)),
        *final(facility) == released_facility(*old(facility), *amount).facility,
        verdict(r, released_facility(*old(facility), *amount).refusal),
{
    let ghost start = *facility;
    point(&facility.held_commitment)?;
    facility.held_commitment = commitment_difference(&facility.held_commitment, amount);
    point(&facility.available_commitment)?;
    facility.available_commitment = commitment_sum(&facility.available_commitment, amount);
    proof {
        if ristretto_point(start.outstanding_commitment.0) {
            lemma_moved_to_available(
                start.available_commitment.0,
                start.held_commitment.0,
                start.outstanding_commitment.0,
                amount.0,
                facility.held_commitment.0,
            );
        }
    }
    sequence_facility(facility)
}

/// Whether a note is the escrowed one without its lock. Its identifier and its
/// verdict are the domain's.
pub open spec fn unlocks(escrowed: NoteRecord, output: NoteOutput) -> bool {
    &&& output.asset_id == escrowed.asset_id
    &&& output.one_time == escrowed.one_time
    &&& output.value_commitment == escrowed.value_commitment
    &&& output.ephemeral == escrowed.ephemeral
    &&& output.masked_value == escrowed.masked_value
    &&& output.masked_blinding == escrowed.masked_blinding
    &&& output.lock_id == Id::zero()
}

/// The note that a release before any fill gives back: the escrowed one without
/// its lock. The domain derives its identifier.
pub fn refund_note(state: &State, hold_id: &Id) -> (r: Result<NoteRecord, String>)
    ensures
        match r {
            Ok(note) => {
                let record = state@.application_reservations[*hold_id];
                &&& state@.application_reservations.contains_key(*hold_id)
                &&& state@.notes.contains_key(record.escrow_note_id)
                &&& note == (NoteRecord {
                    lock_id: Id::zero(),
                    ..state@.notes[record.escrow_note_id]
                })
            },
            Err(message) => if !state@.application_reservations.contains_key(*hold_id) {
                message@ == "application release has no reservation"@
            } else {
                &&& !state@.notes.contains_key(
                    state@.application_reservations[*hold_id].escrow_note_id,
                )
                &&& message@ == "application refund note is absent"@
            },
        },
{
    let record = match state.application_reservations.get(hold_id) {
        Some(record) => record,
        None => return refuse("application release has no reservation"),
    };
    match state.notes.get(&record.escrow_note_id) {
        None => refuse("application refund note is absent"),
        Some(note) => {
            let mut unlocked = *note;
            unlocked.lock_id = Id::zero();
            Ok(unlocked)
        },
    }
}

/// Whether a claim is to be derived from the remainder of a reservation.
pub open spec fn requests_remainder(
    record: ApplicationReservationRecord,
    hold_id: Id,
    operation_id: Id,
    request: RefundRequest,
) -> bool {
    &&& record.remaining_opening is Some
    &&& request.asset_id == record.binding.asset_id
    &&& request.hold_id == hold_id
    &&& request.value_commitment == record.remaining_spec()
    &&& request.operation_id == operation_id
    &&& request.opening@ == record.remaining_opening->0@
}

/// What the claim of a release after a fill is to be derived from: the remainder
/// of the reservation, its asset and opening, and the release's operation.
pub fn refund_request(state: &State, hold_id: &Id, operation_id: Id) -> (r: Result<
    RefundRequest,
    String,
>)
    ensures
        match r {
            Ok(request) => {
                &&& state@.application_reservations.contains_key(*hold_id)
                &&& requests_remainder(
                    state@.application_reservations[*hold_id],
                    *hold_id,
                    operation_id,
                    request,
                )
            },
            Err(message) => if !state@.application_reservations.contains_key(*hold_id) {
                message@ == "application release has no reservation"@
            } else {
                &&& state@.application_reservations[*hold_id].remaining_opening is None
                &&& message@ == "application remainder recovery data is absent"@
            },
        },
{
    let record = match state.application_reservations.get(hold_id) {
        Some(record) => record,
        None => return refuse("application release has no reservation"),
    };
    match &record.remaining_opening {
        None => refuse("application remainder recovery data is absent"),
        Some(opening) => Ok(
            RefundRequest {
                asset_id: record.binding.asset_id,
                hold_id: *hold_id,
                value_commitment: record.remaining(),
                operation_id,
                opening: Arc::clone(opening),
            },
        ),
    }
}

/// Whether a claim is a refund of exactly the remainder of a reservation.
pub open spec fn refunds_remainder(
    record: ApplicationReservationRecord,
    order: ApplicationNoteRelease,
    refund: RefundClaim,
) -> bool {
    &&& requests_remainder(record, order.hold_id, order.operation_id, refund.request)
    &&& refund.claim.kind == NoteClaimKind::Refund
    &&& refund.claim.asset_id == record.binding.asset_id
    &&& refund.claim.value_commitment == record.remaining_spec()
    &&& refund.claim.source_hold_id == order.hold_id
}

/// What a release gives back: before any fill the escrowed note itself, after
/// one a claim to the remainder.
pub open spec fn refund_progress(
    ledger: Ledger,
    record: ApplicationReservationRecord,
    order: ApplicationNoteRelease,
    statement: Id,
) -> Progress {
    if record.sequence == 0 {
        if !ledger.notes.contains_key(record.escrow_note_id) {
            stopped(ledger, "application refund note is absent"@)
        } else {
            match order.refund_note {
                Err(message) => stopped(ledger, message@),
                Ok(output) => if !unlocks(ledger.notes[record.escrow_note_id], output) {
                    stopped(ledger, "application refund note differs from its escrow"@)
                } else {
                    insert_note_progress(ledger, output)
                },
            }
        }
    } else if record.remaining_opening is None {
        stopped(ledger, "application remainder recovery data is absent"@)
    } else {
        match order.refund_claim {
            Err(message) => stopped(ledger, message@),
            Ok(refund) => if !refunds_remainder(record, order, refund) {
                stopped(ledger, "application refund claim differs from the remainder"@)
            } else {
                insert_claim_progress(ledger, refund.claim, statement)
            },
        }
    }
}

fn refund(
    state: &mut State,
    snapshot: &Snapshot,
    opening: &Option<Arc<Vec<u8>>>,
    order: &ApplicationNoteRelease,
    statement: Id,
    Ghost(record): Ghost<ApplicationReservationRecord>,
) -> (r: Result<(), String>)
    requires
        *snapshot == snapshot_of(record),
        *opening == record.remaining_opening,
    ensures
        advances(r, final(state)@, refund_progress(old(state)@, record, *order, statement)),
{
    if snapshot.sequence == 0 {
        let note = match state.notes.get(&snapshot.escrow_note_id) {
            Some(note) => *note,
            None => return refuse("application refund note is absent"),
        };
        match &order.refund_note {
            Err(message) => Err(message.clone()),
            Ok(output) => {
                if output.asset_id != note.asset_id || output.one_time != note.one_time
                    || output.value_commitment != note.value_commitment || output.ephemeral
                    != note.ephemeral || output.masked_value != note.masked_value
                    || output.masked_blinding != note.masked_blinding || output.lock_id
                    != Id::zero() {
                    return refuse("application refund note differs from its escrow");
                }
                insert_note(state, output)
            },
        }
    } else {
        let opening = match opening {
            Some(opening) => opening,
            None => return refuse("application remainder recovery data is absent"),
        };
        match &order.refund_claim {
            Err(message) => Err(message.clone()),
            Ok(refund) => {
                let request = &refund.request;
                let claim = &refund.claim;
                if request.asset_id != snapshot.binding.asset_id || request.hold_id
                    != order.hold_id || request.value_commitment != snapshot.remaining
                    || request.operation_id != order.operation_id || !same_bytes(
                    request.opening.as_slice(),
                    opening.as_slice(),
                ) || claim.kind != NoteClaimKind::Refund || claim.asset_id
                    != snapshot.binding.asset_id || claim.value_commitment != snapshot.remaining
                    || claim.source_hold_id != order.hold_id {
                    return refuse("application refund claim differs from the remainder");
                }
                insert_claim(state, claim, statement)
            },
        }
    }
}

/// Why a release is refused before it changes anything.
pub open spec fn release_refusal(
    ledger: Ledger,
    order: ApplicationNoteRelease,
    root: Id,
    now: u64,
) -> Option<Seq<char>> {
    let record = ledger.application_reservations[order.hold_id];
    let verified = order.verified->Ok_0;
    let hold = ledger.credit_holds[order.hold_id];
    if order.before_root != root || ledger.operations.contains_key(order.operation_id) {
        Some("application release has a stale parent or reused operation"@)
    } else if !ledger.application_reservations.contains_key(order.hold_id) {
        Some("application release has no reservation"@)
    } else if record.status != HoldStatus::Active || record.sequence != order.sequence
        || record.head_receipt_spec() != order.previous_receipt {
        Some("application release lost the race with another fill or cancellation"@)
    } else if order.verified is Err {
        Some(order.verified->Err_0@)
    } else if verified.scope != record.binding.scope || verified.valid_until
        != record.binding.valid_until || verified.now != now {
        Some("application release was verified for another scope or time"@)
    } else if !ledger.credit_holds.contains_key(order.hold_id) {
        Some("application release hold is absent"@)
    } else if hold.status != HoldStatus::Active || hold.amount_commitment
        != record.remaining_spec() || hold.facility_id != record.binding.facility_id {
        Some("application release credit hold differs from its head"@)
    } else if commitment_refusal(record.remaining_spec()) is Some {
        commitment_refusal(record.remaining_spec())
    } else if !ledger.credit_facilities.contains_key(record.binding.facility_id) {
        Some("application release facility is absent"@)
    } else {
        None
    }
}

/// What carrying out a checked release does: the facility gets the remainder
/// back, the note or a claim goes to the holder, and the reservation ends.
pub open spec fn release_effect(ledger: Ledger, order: ApplicationNoteRelease) -> Outcome {
    let statement = order.verified->Ok_0.statement;
    let record = ledger.application_reservations[order.hold_id];
    let released = released_facility(
        ledger.credit_facilities[record.binding.facility_id],
        record.remaining_spec(),
    );
    let moved = with_facility(ledger, record.binding.facility_id, released.facility);
    let refunded = refund_progress(moved, record, order, statement);
    let covenant = covenant_progress(
        refunded.ledger,
        record.binding,
        record.escrow_note_id,
        record.covenant_serial,
        record.sequence,
        statement,
    );
    let hold = CreditHoldRecord {
        status: HoldStatus::Released,
        settlement_digest: Id::zero(),
        updated_sequence: released.facility.sequence,
        ..ledger.credit_holds[order.hold_id]
    };
    let ended = ApplicationReservationRecord {
        status: HoldStatus::Released,
        remaining_commitment: Some(record.remaining_spec()),
        remaining_opening: None,
        sequence: (record.sequence + 1) as u64,
        last_receipt: Some(statement),
        settlement_digest: Id::zero(),
        ..record
    };
    if released.refusal is Some {
        refused(moved, released.refusal->0)
    } else if refunded.refusal is Some {
        refused(refunded.ledger, refunded.refusal->0)
    } else if covenant.refusal is Some {
        refused(covenant.ledger, covenant.refusal->0)
    } else if record.sequence == u64::MAX {
        refused(covenant.ledger, "application reserve sequence overflow"@)
    } else {
        accepted(
            operated(
                with_hold(covenant.ledger, order.hold_id, hold, ended),
                order.operation_id,
                statement,
            ),
            statement,
        )
    }
}

/// What a release does.
pub open spec fn release_outcome(
    ledger: Ledger,
    order: ApplicationNoteRelease,
    root: Id,
    now: u64,
) -> Outcome {
    unless(release_refusal(ledger, order, root, now), ledger, release_effect(ledger, order))
}

/// Releases what is left of an application reservation.
pub fn release(state: &mut State, order: &ApplicationNoteRelease, root: Id, now: u64) -> (r:
    Result<Id, String>)
    ensures
        meets(r, final(state)@, release_outcome(old(state)@, *order, root, now)),
        r is Ok ==> conserves(old(state)@, final(state)@),
{
    if order.before_root != root || state.operations.contains_key(&order.operation_id) {
        return refuse("application release has a stale parent or reused operation");
    }
    let record = match state.application_reservations.get(&order.hold_id) {
        Some(record) => record,
        None => return refuse("application release has no reservation"),
    };
    if record.status != HoldStatus::Active || record.sequence != order.sequence
        || record.head_receipt() != order.previous_receipt {
        return refuse("application release lost the race with another fill or cancellation");
    }
    let snapshot = take_snapshot(record);
    let opening = match &record.remaining_opening {
        Some(opening) => Some(Arc::clone(opening)),
        None => None,
    };
    let verified = match &order.verified {
        Ok(verified) => verified,
        Err(message) => return Err(message.clone()),
    };
    if !is_same_scope(&verified.scope, &snapshot.binding.scope) || verified.valid_until
        != snapshot.binding.valid_until || verified.now != now {
        return refuse("application release was verified for another scope or time");
    }
    let statement = verified.statement;
    let mut hold = match state.credit_holds.get(&order.hold_id) {
        Some(hold) => *hold,
        None => return refuse("application release hold is absent"),
    };
    if hold.status != HoldStatus::Active || hold.amount_commitment != snapshot.remaining
        || hold.facility_id != snapshot.binding.facility_id {
        return refuse("application release credit hold differs from its head");
    }
    point(&snapshot.remaining)?;
    let mut facility = match state.credit_facilities.get(&snapshot.binding.facility_id) {
        Some(facility) => *facility,
        None => return refuse("application release facility is absent"),
    };
    let ghost before = state@;
    let released = release_facility(&mut facility, &snapshot.remaining);
    state.credit_facilities.insert(snapshot.binding.facility_id, facility);
    released?;
    refund(
        state,
        &snapshot,
        &opening,
        order,
        statement,
        Ghost(before.application_reservations[order.hold_id]),
    )?;
    consume_covenant(
        state,
        &snapshot.binding,
        snapshot.escrow_note_id,
        snapshot.covenant_serial,
        snapshot.sequence,
        statement,
    )?;
    if snapshot.sequence == u64::MAX {
        return refuse("application reserve sequence overflow");
    }
    hold.status = HoldStatus::Released;
    hold.settlement_digest = Id::zero();
    hold.updated_sequence = facility.sequence;
    let ended = ApplicationReservationRecord {
        binding: snapshot.binding,
        escrow_note_id: snapshot.escrow_note_id,
        covenant_serial: snapshot.covenant_serial,
        status: HoldStatus::Released,
        sequence: snapshot.sequence + 1,
        remaining_commitment: Some(snapshot.remaining),
        last_receipt: Some(statement),
        remaining_opening: None,
        settlement_digest: Id::zero(),
    };
    state.credit_holds.insert(order.hold_id, hold);
    state.application_reservations.insert(order.hold_id, ended);
    state.operations.insert(order.operation_id, statement);
    Ok(statement)
}

} // verus!
