//! How identifiers and kinds are spelled in submitted text.

use vstd::prelude::*;
use vstd::utf8::encode_utf8;

use crate::block::lemma_some_id;
use crate::decode::kinds::{
    asset_kind_of, credit_amendment_mode_of, credit_control_action_of, credit_transition_kind_of,
    csd_issuer_control_kind_of, guarantor_kind_of, note_claim_kind_of, reservation_role_of,
};
use crate::decode::lists::{ids_of, ids_refusal};
use crate::id::Id;
use crate::order::{
    CreditAmendmentMode, CreditControlAction, CreditTransitionKind, CsdIssuerControlKind,
};
use crate::state::{AssetKind, GuarantorKind, NoteClaimKind, ReservationRole};
use crate::text::{hex_bytes, hex_id_of, is_hex};

verus! {

/// Whether a text is the hexadecimal form of that many bytes.
pub open spec fn hex_of(text: Seq<char>, width: nat) -> bool {
    &&& is_hex(encode_utf8(text))
    &&& encode_utf8(text).len() == 2 * width
}

/// Whether a text spells an identifier: it is the hexadecimal form of its bytes.
pub open spec fn spells(text: Seq<char>, id: Id) -> bool {
    &&& hex_of(text, 32)
    &&& hex_bytes(encode_utf8(text)) == id.0@
}

/// A text that is the hexadecimal form of 32 bytes is read as the identifier that it
/// spells, and as no other.
pub proof fn law_an_identifier_is_read_as_spelled(text: Seq<char>, id: Id)
    requires
        hex_of(text, 32),
    ensures
        spells(text, id) == (id == hex_id_of(text)),
{
    let bytes = hex_bytes(encode_utf8(text));
    lemma_some_id(bytes);
    let read = hex_id_of(text);
    assert(read.0@ == bytes);
    if spells(text, id) {
        assert(id.0@ == read.0@);
        assert(id.0 =~= read.0);
    }
}

pub proof fn lemma_spelling()
    ensures
        forall|text: Seq<char>, id: Id| #[trigger]
            spells(text, id) == (hex_of(text, 32) && id == hex_id_of(text)),
{
    assert forall|text: Seq<char>, id: Id| #[trigger]
        spells(text, id) == (hex_of(text, 32) && id == hex_id_of(text)) by {
        if hex_of(text, 32) {
            law_an_identifier_is_read_as_spelled(text, id);
        }
    }
}

pub proof fn lemma_ids(texts: Seq<String>, name: Seq<char>, from: nat)
    ensures
        (ids_refusal(texts, name, from) is None) == (forall|i: int|
            from <= i < texts.len() ==> hex_of((#[trigger] texts[i])@, 32)),
    decreases texts.len() - from,
{
    if from < texts.len() {
        lemma_ids(texts, name, from + 1);
    }
}

/// A list of texts is read as the identifiers that they spell, one by one.
pub proof fn lemma_ids_spelled(texts: Seq<String>, ids: Seq<Id>)
    requires
        forall|i: int| 0 <= i < texts.len() ==> hex_of((#[trigger] texts[i])@, 32),
    ensures
        (ids == ids_of(texts)) == {
            &&& ids.len() == texts.len()
            &&& forall|i: int| 0 <= i < texts.len() ==> spells(texts[i]@, #[trigger] ids[i])
        },
{
    lemma_spelling();
    if ids.len() == texts.len() && (forall|i: int|
        0 <= i < texts.len() ==> spells(texts[i]@, #[trigger] ids[i])) {
        assert forall|i: int| 0 <= i < ids.len() implies ids[i] == ids_of(texts)[i] by {
            assert(spells(texts[i]@, ids[i]));
        }
        assert(ids =~= ids_of(texts));
    }
    if ids == ids_of(texts) {
        assert forall|i: int| 0 <= i < texts.len() implies spells(
            texts[i]@,
            #[trigger] ids[i],
        ) by {
            assert(ids[i] == hex_id_of(texts[i]@));
            assert(hex_of(texts[i]@, 32));
        }
    }
}

/// The word for an asset kind.
pub open spec fn asset_kind_text(value: AssetKind) -> Seq<char> {
    match value {
        AssetKind::Cash => "cash"@,
        AssetKind::Security => "security"@,
        AssetKind::Fund => "fund"@,
        AssetKind::Commodity => "commodity"@,
        AssetKind::Carbon => "carbon"@,
        AssetKind::Other => "other"@,
    }
}

/// The words for asset kinds are read as what they say.
pub proof fn law_asset_kind_is_read_as_written(text: Seq<char>, value: AssetKind)
    requires
        text == "cash"@ || text == "security"@ || text == "fund"@ || text == "commodity"@
            || text == "carbon"@ || text == "other"@,
    ensures
        (value == asset_kind_of(text)) == (text == asset_kind_text(value)),
{
    reveal_strlit("cash");
    reveal_strlit("security");
    reveal_strlit("fund");
    reveal_strlit("commodity");
    reveal_strlit("carbon");
    reveal_strlit("other");
    assert("cash"@.len() != "security"@.len());
    assert("cash"@[0] != "fund"@[0]);
    assert("cash"@.len() != "commodity"@.len());
    assert("cash"@.len() != "carbon"@.len());
    assert("cash"@.len() != "other"@.len());
    assert("security"@.len() != "fund"@.len());
    assert("security"@.len() != "commodity"@.len());
    assert("security"@.len() != "carbon"@.len());
    assert("security"@.len() != "other"@.len());
    assert("fund"@.len() != "commodity"@.len());
    assert("fund"@.len() != "carbon"@.len());
    assert("fund"@.len() != "other"@.len());
    assert("commodity"@.len() != "carbon"@.len());
    assert("commodity"@.len() != "other"@.len());
    assert("carbon"@.len() != "other"@.len());
}

/// The word for a guarantor kind.
pub open spec fn guarantor_kind_text(value: GuarantorKind) -> Seq<char> {
    match value {
        GuarantorKind::CentralCounterparty => "ccp"@,
        GuarantorKind::Bank => "bank"@,
        GuarantorKind::SelfGuaranteed => "self"@,
        GuarantorKind::CreditProvider => "credit_provider"@,
    }
}

/// The words for guarantor kinds are read as what they say.
pub proof fn law_guarantor_kind_is_read_as_written(text: Seq<char>, value: GuarantorKind)
    requires
        text == "ccp"@ || text == "bank"@ || text == "self"@,
    ensures
        (value == guarantor_kind_of(text)) == (text == guarantor_kind_text(value)),
{
    reveal_strlit("ccp");
    reveal_strlit("bank");
    reveal_strlit("self");
    reveal_strlit("credit_provider");
    assert("ccp"@.len() != "bank"@.len());
    assert("ccp"@.len() != "self"@.len());
    assert("ccp"@.len() != "credit_provider"@.len());
    assert("bank"@[0] != "self"@[0]);
    assert("bank"@.len() != "credit_provider"@.len());
    assert("self"@.len() != "credit_provider"@.len());
}

/// The word for an issuer control.
pub open spec fn issuer_control_text(value: CsdIssuerControlKind) -> Seq<char> {
    match value {
        CsdIssuerControlKind::Activate => "activate"@,
        CsdIssuerControlKind::Suspend => "suspend"@,
        CsdIssuerControlKind::Revoke => "revoke"@,
    }
}

/// The words for issuer controls are read as what they say.
pub proof fn law_csd_issuer_control_kind_is_read_as_written(
    text: Seq<char>,
    value: CsdIssuerControlKind,
)
    requires
        text == "activate"@ || text == "suspend"@ || text == "revoke"@,
    ensures
        (value == csd_issuer_control_kind_of(text)) == (text == issuer_control_text(value)),
{
    reveal_strlit("activate");
    reveal_strlit("suspend");
    reveal_strlit("revoke");
    assert("activate"@.len() != "suspend"@.len());
    assert("activate"@.len() != "revoke"@.len());
    assert("suspend"@.len() != "revoke"@.len());
}

/// The word for a claim kind.
pub open spec fn claim_kind_text(value: NoteClaimKind) -> Seq<char> {
    match value {
        NoteClaimKind::Delivery => "delivery"@,
        NoteClaimKind::Refund => "refund"@,
    }
}

/// The words for claim kinds are read as what they say.
pub proof fn law_note_claim_kind_is_read_as_written(text: Seq<char>, value: NoteClaimKind)
    requires
        text == "delivery"@ || text == "refund"@,
    ensures
        (value == note_claim_kind_of(text)) == (text == claim_kind_text(value)),
{
    reveal_strlit("delivery");
    reveal_strlit("refund");
    assert("delivery"@.len() != "refund"@.len());
}

/// The word for a transition kind.
pub open spec fn transition_text(value: CreditTransitionKind) -> Seq<char> {
    match value {
        CreditTransitionKind::Hold => "hold"@,
        CreditTransitionKind::Release => "release"@,
        CreditTransitionKind::Consume => "consume"@,
    }
}

/// The words for transition kinds are read as what they say.
pub proof fn law_credit_transition_kind_is_read_as_written(
    text: Seq<char>,
    value: CreditTransitionKind,
)
    requires
        text == "hold"@ || text == "release"@ || text == "consume"@,
    ensures
        (value == credit_transition_kind_of(text)) == (text == transition_text(value)),
{
    reveal_strlit("hold");
    reveal_strlit("release");
    reveal_strlit("consume");
    assert("hold"@.len() != "release"@.len());
    assert("hold"@.len() != "consume"@.len());
    assert("release"@[0] != "consume"@[0]);
}

/// The word for a reservation role.
pub open spec fn role_text(value: ReservationRole) -> Seq<char> {
    match value {
        ReservationRole::Maker => "maker"@,
        ReservationRole::Taker => "taker"@,
    }
}

/// The words for reservation roles are read as what they say.
pub proof fn law_reservation_role_is_read_as_written(text: Seq<char>, value: ReservationRole)
    requires
        text == "maker"@ || text == "taker"@,
    ensures
        (value == reservation_role_of(text)) == (text == role_text(value)),
{
    reveal_strlit("maker");
    reveal_strlit("taker");
    assert("maker"@[0] != "taker"@[0]);
}

/// The word for a facility control.
pub open spec fn facility_control_text(value: CreditControlAction) -> Seq<char> {
    match value {
        CreditControlAction::Activate => "activate"@,
        CreditControlAction::Freeze => "freeze"@,
        CreditControlAction::Close => "close"@,
        CreditControlAction::Default => "default"@,
    }
}

/// The words for facility controls are read as what they say.
pub proof fn law_credit_control_action_is_read_as_written(
    text: Seq<char>,
    value: CreditControlAction,
)
    requires
        text == "activate"@ || text == "freeze"@ || text == "close"@ || text == "default"@,
    ensures
        (value == credit_control_action_of(text)) == (text == facility_control_text(value)),
{
    reveal_strlit("activate");
    reveal_strlit("freeze");
    reveal_strlit("close");
    reveal_strlit("default");
    assert("activate"@.len() != "freeze"@.len());
    assert("activate"@.len() != "close"@.len());
    assert("activate"@.len() != "default"@.len());
    assert("freeze"@.len() != "close"@.len());
    assert("freeze"@.len() != "default"@.len());
    assert("close"@.len() != "default"@.len());
}

/// The word for an amendment mode.
pub open spec fn amendment_text(value: CreditAmendmentMode) -> Seq<char> {
    match value {
        CreditAmendmentMode::WithinLimit => "within_limit"@,
        CreditAmendmentMode::OverLimit => "over_limit"@,
    }
}

/// The words for amendment modes are read as what they say.
pub proof fn law_credit_amendment_mode_is_read_as_written(
    text: Seq<char>,
    value: CreditAmendmentMode,
)
    requires
        text == "within_limit"@ || text == "over_limit"@,
    ensures
        (value == credit_amendment_mode_of(text)) == (text == amendment_text(value)),
{
    reveal_strlit("within_limit");
    reveal_strlit("over_limit");
    assert("within_limit"@.len() != "over_limit"@.len());
}

/// The kinds and roles that are written by name are read back from it.
pub proof fn law_names_are_the_words_that_are_read(
    asset: AssetKind,
    guarantor: GuarantorKind,
    claim: NoteClaimKind,
    role: ReservationRole,
)
    ensures
        asset.name() == asset_kind_text(asset),
        guarantor.name() == guarantor_kind_text(guarantor),
        claim.name() == claim_kind_text(claim),
        role.name() == role_text(role),
{
}

} // verus!
