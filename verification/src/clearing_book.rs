//! What the machine reads of the clearing book.

use vstd::prelude::*;

use crate::aethel_book::same_choice;
use crate::id::Id;
use crate::table::{Comparable, Record, Table};

verus! {

/// A guarantee facility whose capacity is hidden.
#[derive(Clone, Copy, Debug, PartialEq, Eq)]
pub struct ConfidentialFacility {
    pub facility_id: Id,
    pub guarantor_id: Id,
    pub defmi_facility_id: Id,
    pub settlement_asset_id: Id,
    pub capacity_commitment: Id,
    pub beneficiary_subject_line_id: Id,
    pub sequence: u64,
    pub latest_facility_state_digest: Id,
    pub valid_until: u64,
}

/// Where a reservation of hidden capacity stands. One that is bound to an issuance
/// is still reserved.
#[derive(Clone, Copy, Debug, PartialEq, Eq, Structural)]
pub enum ClearingHoldStatus {
    Reserved,
    Released,
    Consumed,
}

/// A reservation of hidden capacity, with the issuance it is bound to and the
/// settlement that ended it.
#[derive(Clone, Copy, Debug, PartialEq, Eq)]
pub struct ConfidentialHold {
    pub hold_id: Id,
    pub facility_id: Id,
    pub defmi_hold_id: Id,
    pub coverage_commitment: Id,
    pub status: ClearingHoldStatus,
    pub bound_exposure_id: Option<Id>,
    pub defmi_settlement_receipt: Option<Id>,
}

/// A clearing member: the subject line that it proved, and nothing of who it is.
#[derive(Clone, Copy, Debug, PartialEq, Eq)]
pub struct ClearingMember {
    pub subject_line_id: Id,
}

/// The clearing book: the lock on the counterparty's own capital, and the
/// facilities, holds and members by their identifiers.
#[derive(Debug, PartialEq, Eq)]
pub struct ClearingBook {
    pub capital_lock: Id,
    pub facilities: Table<Id, ConfidentialFacility>,
    pub holds: Table<Id, ConfidentialHold>,
    pub members: Table<Id, ClearingMember>,
}

/// Whether one book is over the capital of another and has lost none of its
/// facilities, holds and members.
#[verifier::opaque]
pub open spec fn keeps_clearing_book(before: ClearingBook, after: ClearingBook) -> bool {
    &&& after.capital_lock == before.capital_lock
    &&& forall|id: Id| #[trigger]
        before.facilities@.contains_key(id) ==> after.facilities@.contains_key(id)
    &&& forall|id: Id| #[trigger]
        before.holds@.contains_key(id) ==> after.holds@.contains_key(id)
    &&& forall|id: Id| #[trigger]
        before.members@.contains_key(id) ==> after.members@.contains_key(id)
}

impl ClearingBook {
    /// Whether the book is over the capital of an earlier one and has lost none of
    /// its facilities, holds and members.
    pub fn keeps(&self, before: &ClearingBook) -> (r: bool)
        ensures
            r == keeps_clearing_book(*before, *self),
    {
        proof {
            reveal(keeps_clearing_book);
        }
        self.capital_lock == before.capital_lock && self.facilities.has_keys_of(&before.facilities)
            && self.holds.has_keys_of(&before.holds) && self.members.has_keys_of(&before.members)
    }
}

impl Record for ConfidentialFacility {
    open spec fn same_record(self, other: Self) -> bool {
        self == other
    }
}

impl Comparable for ConfidentialFacility {
    fn is_same_record(&self, other: &Self) -> (r: bool) {
        self.facility_id == other.facility_id && self.guarantor_id == other.guarantor_id
            && self.defmi_facility_id == other.defmi_facility_id && self.settlement_asset_id
            == other.settlement_asset_id && self.capacity_commitment == other.capacity_commitment
            && self.beneficiary_subject_line_id == other.beneficiary_subject_line_id
            && self.sequence == other.sequence && self.latest_facility_state_digest
            == other.latest_facility_state_digest && self.valid_until == other.valid_until
    }
}

impl Record for ConfidentialHold {
    open spec fn same_record(self, other: Self) -> bool {
        self == other
    }
}

impl Comparable for ConfidentialHold {
    fn is_same_record(&self, other: &Self) -> (r: bool) {
        self.hold_id == other.hold_id && self.facility_id == other.facility_id
            && self.defmi_hold_id == other.defmi_hold_id && self.coverage_commitment
            == other.coverage_commitment && self.status == other.status && same_choice(
            &self.bound_exposure_id,
            &other.bound_exposure_id,
        ) && same_choice(&self.defmi_settlement_receipt, &other.defmi_settlement_receipt)
    }
}

impl Record for ClearingMember {
    open spec fn same_record(self, other: Self) -> bool {
        self == other
    }
}

impl Comparable for ClearingMember {
    fn is_same_record(&self, other: &Self) -> (r: bool) {
        self.subject_line_id == other.subject_line_id
    }
}

} // verus!
