//! Names of kinds, roles and modes in submitted actions.

use vstd::prelude::*;

use crate::order::{
    CreditAmendmentMode, CreditControlAction, CreditTransitionKind, CsdIssuerControlKind,
};
use crate::state::{AssetKind, GuarantorKind, NoteClaimKind, ReservationRole};
use crate::text::{join, same_text};

verus! {

/// The kind of asset under a name.
pub open spec fn asset_kind_of(text: Seq<char>) -> AssetKind {
    if text == "cash"@ {
        AssetKind::Cash
    } else if text == "security"@ {
        AssetKind::Security
    } else if text == "fund"@ {
        AssetKind::Fund
    } else if text == "commodity"@ {
        AssetKind::Commodity
    } else if text == "carbon"@ {
        AssetKind::Carbon
    } else {
        AssetKind::Other
    }
}

/// Why text is no such name.
pub open spec fn asset_kind_refusal(text: Seq<char>, name: Seq<char>) -> Option<Seq<char>> {
    if text == "cash"@ || text == "security"@ || text == "fund"@ || text == "commodity"@ || text
        == "carbon"@ || text == "other"@ {
        None
    } else {
        Some(name + " is not supported"@)
    }
}

/// Reads such a name.
pub fn read_asset_kind(text: &str, name: &str) -> (r: Result<AssetKind, String>)
    ensures
        match r {
            Ok(value) => {
                &&& asset_kind_refusal(text@, name@) is None
                &&& value == asset_kind_of(text@)
            },
            Err(message) => asset_kind_refusal(text@, name@) == Some(message@),
        },
{
    if same_text(text, "cash") {
        Ok(AssetKind::Cash)
    } else if same_text(text, "security") {
        Ok(AssetKind::Security)
    } else if same_text(text, "fund") {
        Ok(AssetKind::Fund)
    } else if same_text(text, "commodity") {
        Ok(AssetKind::Commodity)
    } else if same_text(text, "carbon") {
        Ok(AssetKind::Carbon)
    } else if same_text(text, "other") {
        Ok(AssetKind::Other)
    } else {
        Err(join(name, " is not supported"))
    }
}

/// The kind of guarantor under a name.
pub open spec fn guarantor_kind_of(text: Seq<char>) -> GuarantorKind {
    if text == "ccp"@ {
        GuarantorKind::CentralCounterparty
    } else if text == "bank"@ {
        GuarantorKind::Bank
    } else {
        GuarantorKind::SelfGuaranteed
    }
}

/// Why text is no such name.
pub open spec fn guarantor_kind_refusal(text: Seq<char>, name: Seq<char>) -> Option<Seq<char>> {
    if text == "ccp"@ || text == "bank"@ || text == "self"@ {
        None
    } else {
        Some(name + " is not supported"@)
    }
}

/// Reads such a name.
pub fn read_guarantor_kind(text: &str, name: &str) -> (r: Result<GuarantorKind, String>)
    ensures
        match r {
            Ok(value) => {
                &&& guarantor_kind_refusal(text@, name@) is None
                &&& value == guarantor_kind_of(text@)
            },
            Err(message) => guarantor_kind_refusal(text@, name@) == Some(message@),
        },
{
    if same_text(text, "ccp") {
        Ok(GuarantorKind::CentralCounterparty)
    } else if same_text(text, "bank") {
        Ok(GuarantorKind::Bank)
    } else if same_text(text, "self") {
        Ok(GuarantorKind::SelfGuaranteed)
    } else {
        Err(join(name, " is not supported"))
    }
}

/// The control of an issuer under a name.
pub open spec fn csd_issuer_control_kind_of(text: Seq<char>) -> CsdIssuerControlKind {
    if text == "activate"@ {
        CsdIssuerControlKind::Activate
    } else if text == "suspend"@ {
        CsdIssuerControlKind::Suspend
    } else {
        CsdIssuerControlKind::Revoke
    }
}

/// Why text is no such name.
pub open spec fn csd_issuer_control_kind_refusal(
    text: Seq<char>,
    name: Seq<char>,
) -> Option<Seq<char>> {
    if text == "activate"@ || text == "suspend"@ || text == "revoke"@ {
        None
    } else {
        Some(name + " is not supported"@)
    }
}

/// Reads such a name.
pub fn read_csd_issuer_control_kind(
    text: &str,
    name: &str,
) -> (r: Result<CsdIssuerControlKind, String>)
    ensures
        match r {
            Ok(value) => {
                &&& csd_issuer_control_kind_refusal(text@, name@) is None
                &&& value == csd_issuer_control_kind_of(text@)
            },
            Err(message) => csd_issuer_control_kind_refusal(text@, name@) == Some(message@),
        },
{
    if same_text(text, "activate") {
        Ok(CsdIssuerControlKind::Activate)
    } else if same_text(text, "suspend") {
        Ok(CsdIssuerControlKind::Suspend)
    } else if same_text(text, "revoke") {
        Ok(CsdIssuerControlKind::Revoke)
    } else {
        Err(join(name, " is not supported"))
    }
}

/// The kind of note claim under a name.
pub open spec fn note_claim_kind_of(text: Seq<char>) -> NoteClaimKind {
    if text == "delivery"@ {
        NoteClaimKind::Delivery
    } else {
        NoteClaimKind::Refund
    }
}

/// Why text is no such name.
pub open spec fn note_claim_kind_refusal(text: Seq<char>, name: Seq<char>) -> Option<Seq<char>> {
    if text == "delivery"@ || text == "refund"@ {
        None
    } else {
        Some(name + " is not supported"@)
    }
}

/// Reads such a name.
pub fn read_note_claim_kind(text: &str, name: &str) -> (r: Result<NoteClaimKind, String>)
    ensures
        match r {
            Ok(value) => {
                &&& note_claim_kind_refusal(text@, name@) is None
                &&& value == note_claim_kind_of(text@)
            },
            Err(message) => note_claim_kind_refusal(text@, name@) == Some(message@),
        },
{
    if same_text(text, "delivery") {
        Ok(NoteClaimKind::Delivery)
    } else if same_text(text, "refund") {
        Ok(NoteClaimKind::Refund)
    } else {
        Err(join(name, " is not supported"))
    }
}

/// The kind of credit transition under a name.
pub open spec fn credit_transition_kind_of(text: Seq<char>) -> CreditTransitionKind {
    if text == "hold"@ {
        CreditTransitionKind::Hold
    } else if text == "release"@ {
        CreditTransitionKind::Release
    } else {
        CreditTransitionKind::Consume
    }
}

/// Why text is no such name.
pub open spec fn credit_transition_kind_refusal(
    text: Seq<char>,
    name: Seq<char>,
) -> Option<Seq<char>> {
    if text == "hold"@ || text == "release"@ || text == "consume"@ {
        None
    } else {
        Some(name + " is not supported"@)
    }
}

/// Reads such a name.
pub fn read_credit_transition_kind(
    text: &str,
    name: &str,
) -> (r: Result<CreditTransitionKind, String>)
    ensures
        match r {
            Ok(value) => {
                &&& credit_transition_kind_refusal(text@, name@) is None
                &&& value == credit_transition_kind_of(text@)
            },
            Err(message) => credit_transition_kind_refusal(text@, name@) == Some(message@),
        },
{
    if same_text(text, "hold") {
        Ok(CreditTransitionKind::Hold)
    } else if same_text(text, "release") {
        Ok(CreditTransitionKind::Release)
    } else if same_text(text, "consume") {
        Ok(CreditTransitionKind::Consume)
    } else {
        Err(join(name, " is not supported"))
    }
}

/// The role of a reservation under a name.
pub open spec fn reservation_role_of(text: Seq<char>) -> ReservationRole {
    if text == "maker"@ {
        ReservationRole::Maker
    } else {
        ReservationRole::Taker
    }
}

/// Why text is no such name.
pub open spec fn reservation_role_refusal(text: Seq<char>, name: Seq<char>) -> Option<Seq<char>> {
    if text == "maker"@ || text == "taker"@ {
        None
    } else {
        Some(name + " is not supported"@)
    }
}

/// Reads such a name.
pub fn read_reservation_role(text: &str, name: &str) -> (r: Result<ReservationRole, String>)
    ensures
        match r {
            Ok(value) => {
                &&& reservation_role_refusal(text@, name@) is None
                &&& value == reservation_role_of(text@)
            },
            Err(message) => reservation_role_refusal(text@, name@) == Some(message@),
        },
{
    if same_text(text, "maker") {
        Ok(ReservationRole::Maker)
    } else if same_text(text, "taker") {
        Ok(ReservationRole::Taker)
    } else {
        Err(join(name, " is not supported"))
    }
}

/// The control of a facility under a name.
pub open spec fn credit_control_action_of(text: Seq<char>) -> CreditControlAction {
    if text == "activate"@ {
        CreditControlAction::Activate
    } else if text == "freeze"@ {
        CreditControlAction::Freeze
    } else if text == "close"@ {
        CreditControlAction::Close
    } else {
        CreditControlAction::Default
    }
}

/// Why text is no such name.
pub open spec fn credit_control_action_refusal(
    text: Seq<char>,
    name: Seq<char>,
) -> Option<Seq<char>> {
    if text == "activate"@ || text == "freeze"@ || text == "close"@ || text == "default"@ {
        None
    } else {
        Some(name + " is not supported"@)
    }
}

/// Reads such a name.
pub fn read_credit_control_action(
    text: &str,
    name: &str,
) -> (r: Result<CreditControlAction, String>)
    ensures
        match r {
            Ok(value) => {
                &&& credit_control_action_refusal(text@, name@) is None
                &&& value == credit_control_action_of(text@)
            },
            Err(message) => credit_control_action_refusal(text@, name@) == Some(message@),
        },
{
    if same_text(text, "activate") {
        Ok(CreditControlAction::Activate)
    } else if same_text(text, "freeze") {
        Ok(CreditControlAction::Freeze)
    } else if same_text(text, "close") {
        Ok(CreditControlAction::Close)
    } else if same_text(text, "default") {
        Ok(CreditControlAction::Default)
    } else {
        Err(join(name, " is not supported"))
    }
}

/// The mode of an amendment under a name.
pub open spec fn credit_amendment_mode_of(text: Seq<char>) -> CreditAmendmentMode {
    if text == "within_limit"@ {
        CreditAmendmentMode::WithinLimit
    } else {
        CreditAmendmentMode::OverLimit
    }
}

/// Why text is no such name.
pub open spec fn credit_amendment_mode_refusal(
    text: Seq<char>,
    name: Seq<char>,
) -> Option<Seq<char>> {
    if text == "within_limit"@ || text == "over_limit"@ {
        None
    } else {
        Some(name + " is not supported"@)
    }
}

/// Reads such a name.
pub fn read_credit_amendment_mode(
    text: &str,
    name: &str,
) -> (r: Result<CreditAmendmentMode, String>)
    ensures
        match r {
            Ok(value) => {
                &&& credit_amendment_mode_refusal(text@, name@) is None
                &&& value == credit_amendment_mode_of(text@)
            },
            Err(message) => credit_amendment_mode_refusal(text@, name@) == Some(message@),
        },
{
    if same_text(text, "within_limit") {
        Ok(CreditAmendmentMode::WithinLimit)
    } else if same_text(text, "over_limit") {
        Ok(CreditAmendmentMode::OverLimit)
    } else {
        Err(join(name, " is not supported"))
    }
}

} // verus!
