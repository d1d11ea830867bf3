//! What spends, issuances and materializations of notes need and leave behind.

use vstd::prelude::*;

use crate::endorsement::{endorsement_refusal, Submission};
use crate::execution::notes::{
    apply_spend_progress, apply_spends_progress, insert_note_progress, ordinary_spend_refusal,
    ordinary_spends_refusal, outputs_progress, ring_refusal, settled, spend_refusal, IssuerVerdict,
};
use crate::execution::{action_outcome, Action};
use crate::id::Id;
use crate::order::{
    NoteClaimMaterialization, NoteIssuance, NoteOutput, NoteSettlementOrder, NoteSpend,
};
use crate::state::{
    ClaimStatus, IssuerStatus, Ledger, NoteClaimRecord, NoteRecord, NoteSerialRecord,
};

verus! {

/// Whether an output is a note of the ledger, with its own asset, keys, value, masks
/// and lock.
pub open spec fn is_note(ledger: Ledger, output: NoteOutput) -> bool {
    let note = ledger.notes[output.note_id];
    &&& ledger.notes.contains_key(output.note_id)
    &&& note.asset_id == output.asset_id
    &&& note.one_time == output.one_time
    &&& note.value_commitment == output.value_commitment
    &&& note.ephemeral == output.ephemeral
    &&& note.masked_value == output.masked_value
    &&& note.masked_blinding == output.masked_blinding
    &&& note.lock_id == output.lock_id
}

/// Whether an output can become a note: well formed, on an active asset, under an
/// identifier that no note has.
pub open spec fn can_be_note(ledger: Ledger, output: NoteOutput) -> bool {
    &&& output.shape is Ok
    &&& ledger.assets.contains_key(output.asset_id)
    &&& ledger.assets[output.asset_id].active
    &&& !ledger.notes.contains_key(output.note_id)
}

/// Whether no two outputs have one identifier.
pub open spec fn different_notes(outputs: Seq<NoteOutput>) -> bool {
    forall|i: int, j: int|
        0 <= i < j < outputs.len() ==> (#[trigger] outputs[i]).note_id != (
        #[trigger] outputs[j]).note_id
}

/// Whether the serial of a spend is recorded for its asset, ring and settlement.
pub open spec fn is_serial(
    ledger: Ledger,
    spend: NoteSpend,
    deadline: u64,
    statement: Id,
) -> bool {
    let serial = ledger.note_serials[spend.serial_point];
    &&& ledger.note_serials.contains_key(spend.serial_point)
    &&& serial.deadline == deadline
    &&& serial.asset_id == spend.asset_id
    &&& serial.ring_root == spend.ring_root
    &&& serial.statement == statement
}

/// Whether every member of an anonymity set is a note on the asset of the spend.
pub open spec fn ring_on_asset(ledger: Ledger, spend: NoteSpend) -> bool {
    forall|k: int|
        0 <= k < spend.ring@.len() ==> ledger.notes.contains_key(#[trigger] spend.ring@[k])
            && ledger.notes[spend.ring@[k]].asset_id == spend.asset_id
}

/// Whether no member of an anonymity set is locked by a reservation.
pub open spec fn ring_unlocked(ledger: Ledger, spend: NoteSpend) -> bool {
    forall|k: int|
        0 <= k < spend.ring@.len() ==> ledger.notes[#[trigger] spend.ring@[k]].lock_id
            == Id::zero()
}

/// Whether a spend is well formed, of an unspent note on an active asset, from notes
/// of that asset, into outputs that are new.
pub open spec fn spendable(ledger: Ledger, spend: NoteSpend) -> bool {
    &&& spend.shape is Ok
    &&& ledger.assets.contains_key(spend.asset_id)
    &&& ledger.assets[spend.asset_id].active
    &&& !ledger.note_serials.contains_key(spend.serial_point)
    &&& ring_on_asset(ledger, spend)
    &&& forall|i: int|
        0 <= i < spend.outputs@.len() ==> !ledger.notes.contains_key(
            (#[trigger] spend.outputs@[i]).note_id,
        )
}

/// Whether `after` differs from `before` by the outputs of a spend and its serial
/// alone.
pub open spec fn spent_between(
    before: Ledger,
    after: Ledger,
    spend: NoteSpend,
    deadline: u64,
    statement: Id,
) -> bool {
    &&& after == (Ledger {
        notes: after.notes,
        note_serials: before.note_serials.insert(
            spend.serial_point,
            after.note_serials[spend.serial_point],
        ),
        ..before
    })
    &&& is_serial(after, spend, deadline, statement)
    &&& notes_added(before.notes, after.notes, spend.outputs@)
    &&& forall|i: int|
        0 <= i < spend.outputs@.len() ==> is_note(after, #[trigger] spend.outputs@[i])
}

/// Whether the notes after are those before, unchanged, and new ones under the
/// identifiers of the outputs.
pub open spec fn notes_added(
    before: Map<Id, NoteRecord>,
    after: Map<Id, NoteRecord>,
    outputs: Seq<NoteOutput>,
) -> bool {
    &&& forall|note_id: Id| #[trigger]
        before.contains_key(note_id) ==> after.contains_key(note_id) && after[note_id]
            == before[note_id]
    &&& forall|note_id: Id| #[trigger]
        after.contains_key(note_id) && !before.contains_key(note_id) ==> exists|i: int|
            0 <= i < outputs.len() && (#[trigger] outputs[i]).note_id == note_id
}

proof fn lemma_outputs_made(ledger: Ledger, outputs: Seq<NoteOutput>, from: nat)
    requires
        outputs_progress(ledger, outputs, from).refusal is None,
    ensures
        ({
            let after = outputs_progress(ledger, outputs, from).ledger;
            &&& after == (Ledger { notes: after.notes, ..ledger })
            &&& forall|note_id: Id| #[trigger]
                ledger.notes.contains_key(note_id) ==> after.notes.contains_key(note_id)
                    && after.notes[note_id] == ledger.notes[note_id]
            &&& forall|note_id: Id| #[trigger]
                after.notes.contains_key(note_id) && !ledger.notes.contains_key(note_id)
                    ==> exists|i: int|
                    from <= i < outputs.len() && (#[trigger] outputs[i]).note_id == note_id
            &&& forall|i: int|
                from <= i < outputs.len() ==> is_note(after, #[trigger] outputs[i]) && can_be_note(
                    ledger,
                    outputs[i],
                )
            &&& forall|i: int, j: int|
                from <= i < j < outputs.len() ==> (#[trigger] outputs[i]).note_id != (
                #[trigger] outputs[j]).note_id
        }),
    decreases outputs.len() - from,
{
    if from < outputs.len() {
        let next = insert_note_progress(ledger, outputs[from as int]).ledger;
        lemma_outputs_made(next, outputs, from + 1);
        let after = outputs_progress(ledger, outputs, from).ledger;
        assert forall|note_id: Id| #[trigger]
            ledger.notes.contains_key(note_id) implies after.notes.contains_key(note_id)
            && after.notes[note_id] == ledger.notes[note_id] by {
            assert(next.notes.contains_key(note_id));
        }
        assert forall|i: int| from <= i < outputs.len() implies is_note(
            after,
            #[trigger] outputs[i],
        ) && can_be_note(ledger, outputs[i]) by {
            if i == from {
                assert(is_note(next, outputs[i]));
            } else {
                assert(can_be_note(next, outputs[i]));
            }
        }
        assert forall|i: int, j: int| from <= i < j < outputs.len() implies (
        #[trigger] outputs[i]).note_id != (#[trigger] outputs[j]).note_id by {
            assert(can_be_note(next, outputs[j]));
        }
        assert forall|note_id: Id| #[trigger]
            after.notes.contains_key(note_id) && !ledger.notes.contains_key(
                note_id,
            ) implies exists|i: int|
            from <= i < outputs.len() && (#[trigger] outputs[i]).note_id == note_id by {
            if next.notes.contains_key(note_id) {
                assert(outputs[from as int].note_id == note_id);
            }
        }
    }
}

proof fn lemma_outputs_can_be_made(ledger: Ledger, outputs: Seq<NoteOutput>, from: nat)
    requires
        forall|i: int|
            from <= i < outputs.len() ==> can_be_note(ledger, #[trigger] outputs[i]),
        forall|i: int, j: int|
            from <= i < j < outputs.len() ==> (#[trigger] outputs[i]).note_id != (
            #[trigger] outputs[j]).note_id,
    ensures
        outputs_progress(ledger, outputs, from).refusal is None,
    decreases outputs.len() - from,
{
    if from < outputs.len() {
        let first = outputs[from as int];
        assert(can_be_note(ledger, first));
        let next = insert_note_progress(ledger, first).ledger;
        assert forall|i: int| from + 1 <= i < outputs.len() implies can_be_note(
            next,
            #[trigger] outputs[i],
        ) by {
            assert(can_be_note(ledger, outputs[i]));
            assert(outputs[from as int].note_id != outputs[i].note_id);
        }
        lemma_outputs_can_be_made(next, outputs, from + 1);
    }
}

/// A spend that is carried out makes every one of its outputs, at every position, a
/// note with the output's own fields, records its serial, and changes nothing else.
/// Its outputs were well formed, on active assets, new and different.
pub proof fn law_a_spend_makes_every_output(
    ledger: Ledger,
    spend: NoteSpend,
    deadline: u64,
    statement: Id,
)
    requires
        apply_spend_progress(ledger, spend, deadline, statement).refusal is None,
    ensures
        spent_between(
            ledger,
            apply_spend_progress(ledger, spend, deadline, statement).ledger,
            spend,
            deadline,
            statement,
        ),
        !ledger.note_serials.contains_key(spend.serial_point),
        forall|i: int|
            0 <= i < spend.outputs@.len() ==> can_be_note(ledger, #[trigger] spend.outputs@[i]),
        different_notes(spend.outputs@),
{
    let used = Ledger {
        note_serials: ledger.note_serials.insert(
            spend.serial_point,
            NoteSerialRecord {
                deadline,
                asset_id: spend.asset_id,
                ring_root: spend.ring_root,
                statement,
            },
        ),
        ..ledger
    };
    lemma_outputs_made(used, spend.outputs@, 0);
    assert forall|i: int| 0 <= i < spend.outputs@.len() implies can_be_note(
        ledger,
        #[trigger] spend.outputs@[i],
    ) by {
        assert(can_be_note(used, spend.outputs@[i]));
    }
}

/// A spend of an unspent note into well formed, different and new outputs on active
/// assets is carried out.
pub proof fn law_a_sound_spend_is_carried_out(
    ledger: Ledger,
    spend: NoteSpend,
    deadline: u64,
    statement: Id,
)
    requires
        !ledger.note_serials.contains_key(spend.serial_point),
        forall|i: int|
            0 <= i < spend.outputs@.len() ==> can_be_note(ledger, #[trigger] spend.outputs@[i]),
        different_notes(spend.outputs@),
    ensures
        apply_spend_progress(ledger, spend, deadline, statement).refusal is None,
{
    let used = Ledger {
        note_serials: ledger.note_serials.insert(
            spend.serial_point,
            NoteSerialRecord {
                deadline,
                asset_id: spend.asset_id,
                ring_root: spend.ring_root,
                statement,
            },
        ),
        ..ledger
    };
    assert forall|i: int| 0 <= i < spend.outputs@.len() implies can_be_note(
        used,
        #[trigger] spend.outputs@[i],
    ) by {
        assert(can_be_note(ledger, spend.outputs@[i]));
    }
    lemma_outputs_can_be_made(used, spend.outputs@, 0);
}

proof fn lemma_ring(
    ledger: Ledger,
    spend: NoteSpend,
    required: Option<Id>,
    unlocked: bool,
    found: bool,
    from: nat,
)
    ensures
        (ring_refusal(ledger, spend, required, unlocked, found, from) is None) == {
            &&& forall|k: int|
                from <= k < spend.ring@.len() ==> ledger.notes.contains_key(
                    #[trigger] spend.ring@[k],
                ) && ledger.notes[spend.ring@[k]].asset_id == spend.asset_id && (unlocked
                    ==> ledger.notes[spend.ring@[k]].lock_id == Id::zero())
            &&& found || exists|k: int|
                from <= k < spend.ring@.len() && required == Some(#[trigger] spend.ring@[k])
                    && ledger.notes[spend.ring@[k]].lock_id == spend.input_lock_id
        },
    decreases spend.ring@.len() - from,
{
    if from < spend.ring@.len() {
        let note_id = spend.ring@[from as int];
        let fits = required == Some(note_id) && ledger.notes[note_id].lock_id
            == spend.input_lock_id;
        lemma_ring(ledger, spend, required, unlocked, found || fits, from + 1);
        if exists|k: int|
            from <= k < spend.ring@.len() && required == Some(#[trigger] spend.ring@[k])
                && ledger.notes[spend.ring@[k]].lock_id == spend.input_lock_id {
            let k = choose|k: int|
                from <= k < spend.ring@.len() && required == Some(#[trigger] spend.ring@[k])
                    && ledger.notes[spend.ring@[k]].lock_id == spend.input_lock_id;
            assert(k == from || from + 1 <= k);
        }
    }
}

/// A spend that must come from unlocked notes is admitted exactly where it is
/// spendable and no member of its anonymity set is locked.
pub proof fn law_when_an_unlocked_spend_is_admitted(ledger: Ledger, spend: NoteSpend)
    ensures
        (spend_refusal(ledger, spend, None, true) is None) == (spendable(ledger, spend)
            && ring_unlocked(ledger, spend)),
{
    lemma_ring(ledger, spend, None, true, true, 0);
    assert((ring_refusal(ledger, spend, None, true, true, 0) is None) == (ring_on_asset(
        ledger,
        spend,
    ) && ring_unlocked(ledger, spend)));
}

/// A spend of an escrowed note is admitted exactly where it is spendable and the
/// escrowed note, under the lock that the spend names, is in its anonymity set.
pub proof fn law_when_an_escrow_spend_is_admitted(
    ledger: Ledger,
    spend: NoteSpend,
    escrow_note_id: Id,
)
    ensures
        (spend_refusal(ledger, spend, Some(escrow_note_id), false) is None) == {
            &&& spendable(ledger, spend)
            &&& spend.ring@.contains(escrow_note_id)
            &&& ledger.notes[escrow_note_id].lock_id == spend.input_lock_id
        },
{
    lemma_ring(ledger, spend, Some(escrow_note_id), false, false, 0);
    assert((ring_refusal(ledger, spend, Some(escrow_note_id), false, false, 0) is None) == (
    ring_on_asset(ledger, spend) && spend.ring@.contains(escrow_note_id)
        && ledger.notes[escrow_note_id].lock_id == spend.input_lock_id));
}

/// Whether a spend neither frees a reserved note nor reserves one.
pub open spec fn ordinary(ledger: Ledger, spend: NoteSpend) -> bool {
    &&& spend.input_lock_id == Id::zero()
    &&& ring_unlocked(ledger, spend)
    &&& forall|i: int|
        0 <= i < spend.outputs@.len() ==> (#[trigger] spend.outputs@[i]).lock_id == Id::zero()
}

proof fn lemma_ordinary(ledger: Ledger, spends: Seq<NoteSpend>, from: nat)
    ensures
        (ordinary_spends_refusal(ledger, spends, from) is None) == (forall|i: int|
            from <= i < spends.len() ==> spendable(ledger, #[trigger] spends[i]) && ordinary(
                ledger,
                spends[i],
            )),
    decreases spends.len() - from,
{
    if from < spends.len() {
        law_when_an_unlocked_spend_is_admitted(ledger, spends[from as int]);
        assert((ordinary_spend_refusal(ledger, spends[from as int]) is None) == (spendable(
            ledger,
            spends[from as int],
        ) && ordinary(ledger, spends[from as int])));
        lemma_ordinary(ledger, spends, from + 1);
    }
}

/// Whether spends from `from` on could follow each other: different unspent notes
/// into different new outputs.
pub open spec fn spends_fit(ledger: Ledger, spends: Seq<NoteSpend>, from: int) -> bool {
    &&& forall|i: int|
        from <= i < spends.len() ==> !ledger.note_serials.contains_key(
            (#[trigger] spends[i]).serial_point,
        )
    &&& forall|i: int, a: int|
        from <= i < spends.len() && 0 <= a < spends[i].outputs@.len() ==> can_be_note(
            ledger,
            #[trigger] spends[i].outputs@[a],
        )
    &&& forall|i: int, j: int|
        from <= i < j < spends.len() ==> (#[trigger] spends[i]).serial_point != (
        #[trigger] spends[j]).serial_point
    &&& forall|i: int, a: int, j: int, b: int|
        from <= i < spends.len() && from <= j < spends.len() && 0 <= a < spends[i].outputs@.len()
            && 0 <= b < spends[j].outputs@.len() && (i != j || a != b) ==> (
        #[trigger] spends[i].outputs@[a]).note_id != (#[trigger] spends[j].outputs@[b]).note_id
}

proof fn lemma_spends_need(
    ledger: Ledger,
    spends: Seq<NoteSpend>,
    deadline: u64,
    statement: Id,
    from: nat,
)
    requires
        apply_spends_progress(ledger, spends, deadline, statement, from).refusal is None,
    ensures
        spends_fit(ledger, spends, from as int),
        ({
            let after = apply_spends_progress(ledger, spends, deadline, statement, from).ledger;
            &&& after == (Ledger {
                notes: after.notes,
                note_serials: after.note_serials,
                ..ledger
            })
            &&& forall|note_id: Id| #[trigger]
                ledger.notes.contains_key(note_id) ==> after.notes.contains_key(note_id)
                    && after.notes[note_id] == ledger.notes[note_id]
            &&& forall|serial: Id| #[trigger]
                ledger.note_serials.contains_key(serial) ==> after.note_serials.contains_key(serial)
                    && after.note_serials[serial] == ledger.note_serials[serial]
            &&& forall|i: int|
                from <= i < spends.len() ==> is_serial(
                    after,
                    #[trigger] spends[i],
                    deadline,
                    statement,
                )
            &&& forall|i: int, a: int|
                from <= i < spends.len() && 0 <= a < spends[i].outputs@.len() ==> is_note(
                    after,
                    #[trigger] spends[i].outputs@[a],
                )
            &&& forall|note_id: Id| #[trigger]
                after.notes.contains_key(note_id) && !ledger.notes.contains_key(note_id)
                    ==> exists|i: int, a: int|
                    from <= i < spends.len() && 0 <= a < spends[i].outputs@.len() && (
                    #[trigger] spends[i].outputs@[a]).note_id == note_id
            &&& forall|serial: Id| #[trigger]
                after.note_serials.contains_key(serial) && !ledger.note_serials.contains_key(serial)
                    ==> exists|i: int|
                    from <= i < spends.len() && (#[trigger] spends[i]).serial_point == serial
        }),
    decreases spends.len() - from,
{
    if from < spends.len() {
        let first = spends[from as int];
        law_a_spend_makes_every_output(ledger, first, deadline, statement);
        let next = apply_spend_progress(ledger, first, deadline, statement).ledger;
        lemma_spends_need(next, spends, deadline, statement, from + 1);
        assert(spends_fit(ledger, spends, from as int)) by {
            assert forall|i: int, a: int|
                from <= i < spends.len() && 0 <= a < spends[i].outputs@.len() implies can_be_note(
                ledger,
                #[trigger] spends[i].outputs@[a],
            ) by {
                if i > from {
                    assert(can_be_note(next, spends[i].outputs@[a]));
                }
            }
            assert forall|i: int, a: int, j: int, b: int|
                from <= i < spends.len() && from <= j < spends.len() && 0 <= a
                    < spends[i].outputs@.len() && 0 <= b < spends[j].outputs@.len() && (i != j || a
                    != b) implies (#[trigger] spends[i].outputs@[a]).note_id != (
            #[trigger] spends[j].outputs@[b]).note_id by {
                if i == from && j == from {
                    if a < b {
                        assert(first.outputs@[a].note_id != first.outputs@[b].note_id);
                    } else {
                        assert(first.outputs@[b].note_id != first.outputs@[a].note_id);
                    }
                } else if i == from {
                    assert(is_note(next, first.outputs@[a]));
                    assert(can_be_note(next, spends[j].outputs@[b]));
                } else if j == from {
                    assert(is_note(next, first.outputs@[b]));
                    assert(can_be_note(next, spends[i].outputs@[a]));
                }
            }
        }
        let after = apply_spends_progress(ledger, spends, deadline, statement, from).ledger;
        assert forall|i: int, a: int|
            from <= i < spends.len() && 0 <= a < spends[i].outputs@.len() implies is_note(
            after,
            #[trigger] spends[i].outputs@[a],
        ) by {
            if i == from {
                assert(is_note(next, first.outputs@[a]));
            }
        }
        assert forall|note_id: Id| #[trigger]
            after.notes.contains_key(note_id) && !ledger.notes.contains_key(
                note_id,
            ) implies exists|i: int, a: int|
            from <= i < spends.len() && 0 <= a < spends[i].outputs@.len() && (
            #[trigger] spends[i].outputs@[a]).note_id == note_id by {
            if next.notes.contains_key(note_id) {
                let a = choose|a: int|
                    0 <= a < first.outputs@.len() && (#[trigger] first.outputs@[a]).note_id
                        == note_id;
                assert(spends[from as int].outputs@[a].note_id == note_id);
            }
        }
        assert forall|note_id: Id| #[trigger]
            ledger.notes.contains_key(note_id) implies after.notes.contains_key(note_id)
            && after.notes[note_id] == ledger.notes[note_id] by {
            assert(next.notes.contains_key(note_id));
        }
        assert forall|serial: Id| #[trigger]
            ledger.note_serials.contains_key(serial) implies after.note_serials.contains_key(serial)
            && after.note_serials[serial] == ledger.note_serials[serial] by {
            assert(next.note_serials.contains_key(serial));
        }
        assert forall|serial: Id| #[trigger]
            after.note_serials.contains_key(serial) && !ledger.note_serials.contains_key(
                serial,
            ) implies exists|i: int|
            from <= i < spends.len() && (#[trigger] spends[i]).serial_point == serial by {
            if next.note_serials.contains_key(serial) {
                assert(spends[from as int].serial_point == serial);
            }
        }
        assert forall|i: int| from <= i < spends.len() implies is_serial(
            after,
            #[trigger] spends[i],
            deadline,
            statement,
        ) by {
            if i == from {
                assert(is_serial(next, first, deadline, statement));
            }
        }
    }
}

proof fn lemma_spends_suffice(
    ledger: Ledger,
    spends: Seq<NoteSpend>,
    deadline: u64,
    statement: Id,
    from: nat,
)
    requires
        spends_fit(ledger, spends, from as int),
    ensures
        apply_spends_progress(ledger, spends, deadline, statement, from).refusal is None,
    decreases spends.len() - from,
{
    if from < spends.len() {
        let first = spends[from as int];
        assert forall|i: int| 0 <= i < first.outputs@.len() implies can_be_note(
            ledger,
            #[trigger] first.outputs@[i],
        ) by {
            assert(can_be_note(ledger, spends[from as int].outputs@[i]));
        }
        assert forall|i: int, j: int| 0 <= i < j < first.outputs@.len() implies (
        #[trigger] first.outputs@[i]).note_id != (#[trigger] first.outputs@[j]).note_id by {
            assert(spends[from as int].outputs@[i].note_id
                != spends[from as int].outputs@[j].note_id);
        }
        law_a_sound_spend_is_carried_out(ledger, first, deadline, statement);
        law_a_spend_makes_every_output(ledger, first, deadline, statement);
        let next = apply_spend_progress(ledger, first, deadline, statement).ledger;
        assert(spends_fit(next, spends, (from + 1) as int)) by {
            assert forall|i: int, a: int|
                from + 1 <= i < spends.len() && 0 <= a
                    < spends[i].outputs@.len() implies can_be_note(
                next,
                #[trigger] spends[i].outputs@[a],
            ) by {
                let output = spends[i].outputs@[a];
                assert(can_be_note(ledger, output));
                if next.notes.contains_key(output.note_id) {
                    let b = choose|b: int|
                        0 <= b < first.outputs@.len() && (#[trigger] first.outputs@[b]).note_id
                            == output.note_id;
                    assert(spends[from as int].outputs@[b].note_id
                        != spends[i].outputs@[a].note_id);
                }
            }
        }
        lemma_spends_suffice(next, spends, deadline, statement, from + 1);
    }
}

/// A settlement between notes is carried out exactly where it is approved, in time
/// and new, every spend is spendable and ordinary, and its spends are of different
/// notes into different outputs that can become notes.
pub proof fn law_when_notes_are_settled(
    ledger: Ledger,
    order: NoteSettlementOrder,
    submission: Submission,
    timestamp: u64,
)
    ensures
        (action_outcome(
            ledger,
            Action::IssueNoteSettlement { order },
            submission,
            timestamp,
        ).result is Ok) == {
            &&& endorsement_refusal(order.seal, submission) is None
            &&& timestamp <= order.deadline
            &&& !ledger.operations.contains_key(order.operation_id)
            &&& !ledger.nullifiers.contains_key(order.nullifier)
            &&& forall|i: int|
                0 <= i < order.spends@.len() ==> spendable(ledger, #[trigger] order.spends@[i])
                    && ordinary(ledger, order.spends@[i])
            &&& spends_fit(ledger, order.spends@, 0)
        },
{
    let statement = order.seal.statement->Ok_0;
    let used = settled(ledger, order.nullifier, order.deadline, order.operation_id, statement);
    lemma_ordinary(ledger, order.spends@, 0);
    assert forall|output: NoteOutput| #[trigger] can_be_note(used, output) == can_be_note(
        ledger,
        output,
    ) by {}
    assert(spends_fit(used, order.spends@, 0) == spends_fit(ledger, order.spends@, 0)) by {
        if spends_fit(ledger, order.spends@, 0) {
            assert(spends_fit(used, order.spends@, 0));
        }
        if spends_fit(used, order.spends@, 0) {
            assert(spends_fit(ledger, order.spends@, 0));
        }
    }
    if spends_fit(ledger, order.spends@, 0) {
        lemma_spends_suffice(used, order.spends@, order.deadline, statement, 0);
    }
    if apply_spends_progress(used, order.spends@, order.deadline, statement, 0).refusal is None {
        lemma_spends_need(used, order.spends@, order.deadline, statement, 0);
    }
}

/// A settlement between notes that is carried out makes every output of every spend
/// a note with the output's own fields, records every serial, the nullifier and the
/// operation, and keeps everything else as it was.
pub proof fn law_what_a_note_settlement_leaves(
    ledger: Ledger,
    order: NoteSettlementOrder,
    submission: Submission,
    timestamp: u64,
)
    requires
        action_outcome(
            ledger,
            Action::IssueNoteSettlement { order },
            submission,
            timestamp,
        ).result is Ok,
    ensures
        ({
            let outcome = action_outcome(
                ledger,
                Action::IssueNoteSettlement { order },
                submission,
                timestamp,
            );
            let after = outcome.ledger;
            let statement = outcome.result->Ok_0;
            &&& after == (Ledger {
                notes: after.notes,
                note_serials: after.note_serials,
                nullifiers: ledger.nullifiers.insert(
                    order.nullifier,
                    after.nullifiers[order.nullifier],
                ),
                operations: ledger.operations.insert(order.operation_id, statement),
                ..ledger
            })
            &&& after.nullifiers[order.nullifier].deadline == order.deadline
            &&& after.nullifiers[order.nullifier].statement == statement
            &&& forall|i: int, a: int|
                0 <= i < order.spends@.len() && 0 <= a < order.spends@[i].outputs@.len()
                    ==> is_note(after, #[trigger] order.spends@[i].outputs@[a])
            &&& forall|i: int|
                0 <= i < order.spends@.len() ==> is_serial(
                    after,
                    #[trigger] order.spends@[i],
                    order.deadline,
                    statement,
                )
            &&& forall|note_id: Id| #[trigger]
                ledger.notes.contains_key(note_id) ==> after.notes.contains_key(note_id)
                    && after.notes[note_id] == ledger.notes[note_id]
            &&& forall|serial: Id| #[trigger]
                ledger.note_serials.contains_key(serial) ==> after.note_serials.contains_key(serial)
                    && after.note_serials[serial] == ledger.note_serials[serial]
            &&& forall|note_id: Id| #[trigger]
                after.notes.contains_key(note_id) && !ledger.notes.contains_key(note_id)
                    ==> exists|i: int, a: int|
                    0 <= i < order.spends@.len() && 0 <= a < order.spends@[i].outputs@.len() && (
                    #[trigger] order.spends@[i].outputs@[a]).note_id == note_id
            &&& forall|serial: Id| #[trigger]
                after.note_serials.contains_key(serial) && !ledger.note_serials.contains_key(serial)
                    ==> exists|i: int|
                    0 <= i < order.spends@.len() && (#[trigger] order.spends@[i]).serial_point
                        == serial
        }),
{
    let statement = order.seal.statement->Ok_0;
    let used = settled(ledger, order.nullifier, order.deadline, order.operation_id, statement);
    lemma_spends_need(used, order.spends@, order.deadline, statement, 0);
}

/// A note is issued exactly where the issuance is approved, dated and new, its
/// output can become a note, and the verdict on its active issuer is favourable and
/// was given on the issuer as registered, the statement and the time.
pub proof fn law_when_a_note_is_issued(
    ledger: Ledger,
    issuance: NoteIssuance,
    issuer: IssuerVerdict,
    submission: Submission,
    timestamp: u64,
)
    ensures
        ({
            let record = ledger.csd_issuers[issuance.issuer_id];
            let check = issuer.check;
            (action_outcome(
                ledger,
                Action::IssueNote { issuance, issuer },
                submission,
                timestamp,
            ).result is Ok) == {
                &&& endorsement_refusal(issuance.seal, submission) is None
                &&& timestamp != 0
                &&& !ledger.operations.contains_key(issuance.operation_id)
                &&& !ledger.note_issuances.contains_key(issuance.issuance_nonce)
                &&& can_be_note(ledger, issuance.output)
                &&& ledger.csd_issuers.contains_key(issuance.issuer_id)
                &&& record.status == IssuerStatus::Active
                &&& issuer.verdict is Ok
                &&& check.issuer_id == issuance.issuer_id
                &&& check.code@ == record.code@
                &&& check.jurisdiction@ == record.jurisdiction@
                &&& check.operator_entity_commitment == record.operator_entity_commitment
                &&& check.public_key == record.public_key
                &&& check.permitted_asset_ids@ == record.permitted_asset_ids@
                &&& check.policy_digest == record.policy_digest
                &&& check.valid_from == record.valid_from
                &&& check.valid_until == record.valid_until
                &&& Ok::<Id, String>(check.statement) == issuance.seal.statement
                &&& check.now == timestamp
            }
        }),
{
}

/// An issuance makes its output a note, records its nonce and its operation, and
/// changes nothing else.
pub proof fn law_what_an_issuance_leaves(
    ledger: Ledger,
    issuance: NoteIssuance,
    issuer: IssuerVerdict,
    submission: Submission,
    timestamp: u64,
)
    requires
        action_outcome(
            ledger,
            Action::IssueNote { issuance, issuer },
            submission,
            timestamp,
        ).result is Ok,
    ensures
        ({
            let outcome = action_outcome(
                ledger,
                Action::IssueNote { issuance, issuer },
                submission,
                timestamp,
            );
            let after = outcome.ledger;
            let note_id = issuance.output.note_id;
            let statement = outcome.result->Ok_0;
            &&& after == (Ledger {
                notes: ledger.notes.insert(note_id, after.notes[note_id]),
                note_issuances: ledger.note_issuances.insert(issuance.issuance_nonce, statement),
                operations: ledger.operations.insert(issuance.operation_id, statement),
                ..ledger
            })
            &&& is_note(after, issuance.output)
        }),
{
}

/// A claim is turned into a note exactly where that is approved and new, the claim
/// is active and not materialized, the note has its asset and value, and the output
/// can become a note.
pub proof fn law_when_a_claim_is_materialized(
    ledger: Ledger,
    materialization: NoteClaimMaterialization,
    submission: Submission,
    timestamp: u64,
)
    ensures
        ({
            let claim = ledger.note_claims[materialization.claim_id];
            (action_outcome(
                ledger,
                Action::IssueNoteClaimMaterialization { materialization },
                submission,
                timestamp,
            ).result is Ok) == {
                &&& endorsement_refusal(materialization.seal, submission) is None
                &&& !ledger.operations.contains_key(materialization.operation_id)
                &&& ledger.note_claims.contains_key(materialization.claim_id)
                &&& claim.status == ClaimStatus::Active
                &&& claim.materialization == Id::zero()
                &&& materialization.output.asset_id == claim.asset_id
                &&& materialization.output.value_commitment == claim.value_commitment
                &&& can_be_note(ledger, materialization.output)
            }
        }),
{
}

/// A materialization makes its output a note and closes the claim in its own name.
/// What the claim was for stays on record, and nothing else changes but that the
/// operation is recorded.
pub proof fn law_what_a_materialization_leaves(
    ledger: Ledger,
    materialization: NoteClaimMaterialization,
    submission: Submission,
    timestamp: u64,
)
    requires
        action_outcome(
            ledger,
            Action::IssueNoteClaimMaterialization { materialization },
            submission,
            timestamp,
        ).result is Ok,
    ensures
        ({
            let outcome = action_outcome(
                ledger,
                Action::IssueNoteClaimMaterialization { materialization },
                submission,
                timestamp,
            );
            let after = outcome.ledger;
            let note_id = materialization.output.note_id;
            let before = ledger.note_claims[materialization.claim_id];
            let claim = after.note_claims[materialization.claim_id];
            let statement = outcome.result->Ok_0;
            &&& after == (Ledger {
                notes: ledger.notes.insert(note_id, after.notes[note_id]),
                note_claims: ledger.note_claims.insert(materialization.claim_id, claim),
                operations: ledger.operations.insert(materialization.operation_id, statement),
                ..ledger
            })
            &&& is_note(after, materialization.output)
            &&& claim.status == ClaimStatus::Materialized
            &&& claim.materialization == statement
            &&& before == (NoteClaimRecord {
                status: before.status,
                materialization: before.materialization,
                ..claim
            })
        }),
{
}

} // verus!
