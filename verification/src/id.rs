//! Thirty-two byte identifiers, digests, keys and commitments.

use vstd::prelude::*;

verus! {

/// A 32-byte value: an identifier, a digest, a public key or the encoding of a
/// group element.
#[derive(Clone, Copy, Debug, Eq)]
pub struct Id(pub [u8; 32]);

/// Thirty-two zero bytes.
pub const ZERO_BYTES: [u8; 32] = [
    0, 0, 0, 0, 0, 0, 0, 0, 0, 0, 0, 0, 0, 0, 0, 0, 0, 0, 0, 0, 0, 0, 0, 0, 0, 0, 0, 0, 0, 0, 0, 0,
];

impl Id {
    /// The value of 32 zero bytes, which names nothing.
    #[verifier::allow_in_spec]
    pub fn zero() -> Id
        returns
            Id(ZERO_BYTES),
    {
        Id(ZERO_BYTES)
    }
}

impl PartialEq for Id {
    fn eq(&self, other: &Id) -> (r: bool) {
        let mut index: usize = 0;
        while index < 32
            invariant
                index <= 32,
                forall|i: int| 0 <= i < index ==> self.0@[i] == other.0@[i],
            decreases 32 - index,
        {
            if self.0[index] != other.0[index] {
                return false;
            }
            index = index + 1;
        }
        assert(self.0@ =~= other.0@);
        assert(self.0 =~= other.0);
        true
    }
}

impl vstd::std_specs::cmp::PartialEqSpecImpl for Id {
    open spec fn obeys_eq_spec() -> bool {
        true
    }

    open spec fn eq_spec(&self, other: &Id) -> bool {
        *self == *other
    }
}

/// The place of the first difference between two byte strings of one length.
pub open spec fn first_difference(left: Seq<u8>, right: Seq<u8>, at: int) -> bool {
    &&& 0 <= at < left.len()
    &&& at < right.len()
    &&& left[at] != right[at]
    &&& forall|i: int| 0 <= i < at ==> left[i] == right[i]
}

/// Whether `left` comes before `right` in the lexicographic order of bytes.
pub open spec fn bytes_before(left: Seq<u8>, right: Seq<u8>) -> bool {
    exists|at: int| #[trigger] first_difference(left, right, at) && left[at] < right[at]
}

impl Id {
    /// Whether `self` comes before `other` in the order of their bytes.
    pub fn precedes(&self, other: &Id) -> (r: bool)
        ensures
            r == bytes_before(self.0@, other.0@),
    {
        let mut index: usize = 0;
        while index < 32
            invariant
                index <= 32,
                forall|i: int| 0 <= i < index ==> self.0@[i] == other.0@[i],
            decreases 32 - index,
        {
            if self.0[index] != other.0[index] {
                proof {
                    assert(first_difference(self.0@, other.0@, index as int));
                    assert forall|at: int| first_difference(self.0@, other.0@, at) implies at
                        == index by {
                        if at < index {
                        } else if index < at {
                        }
                    }
                }
                return self.0[index] < other.0[index];
            }
            index = index + 1;
        }
        false
    }
}

/// Of two different values exactly one comes first.
pub proof fn lemma_bytes_before_total(left: Id, right: Id)
    ensures
        left != right ==> (bytes_before(left.0@, right.0@) || bytes_before(right.0@, left.0@)),
        !(bytes_before(left.0@, right.0@) && bytes_before(right.0@, left.0@)),
        !bytes_before(left.0@, left.0@),
{
    if left != right {
        lemma_first_difference(left, right, 0);
        let at = choose|at: int| first_difference(left.0@, right.0@, at);
        assert(first_difference(right.0@, left.0@, at));
    }
    if bytes_before(left.0@, right.0@) && bytes_before(right.0@, left.0@) {
        let a = choose|a: int| #[trigger]
            first_difference(left.0@, right.0@, a) && left.0@[a] < right.0@[a];
        let b = choose|b: int| #[trigger]
            first_difference(right.0@, left.0@, b) && right.0@[b] < left.0@[b];
        if a < b {
        } else if b < a {
        }
    }
}

proof fn lemma_first_difference(left: Id, right: Id, from: int)
    requires
        0 <= from <= 32,
        left != right,
        forall|i: int| 0 <= i < from ==> left.0@[i] == right.0@[i],
    ensures
        exists|at: int| first_difference(left.0@, right.0@, at),
    decreases 32 - from,
{
    if from == 32 {
        assert(left.0@ =~= right.0@);
        assert(left.0 =~= right.0);
    } else if left.0@[from] == right.0@[from] {
        lemma_first_difference(left, right, from + 1);
    } else {
        assert(first_difference(left.0@, right.0@, from));
    }
}

/// The order of bytes is transitive.
pub proof fn lemma_bytes_before_transitive(first: Id, second: Id, third: Id)
    requires
        bytes_before(first.0@, second.0@),
        bytes_before(second.0@, third.0@),
    ensures
        bytes_before(first.0@, third.0@),
{
    let a = choose|a: int| #[trigger]
        first_difference(first.0@, second.0@, a) && first.0@[a] < second.0@[a];
    let b = choose|b: int| #[trigger]
        first_difference(second.0@, third.0@, b) && second.0@[b] < third.0@[b];
    let at = if a < b { a } else { b };
    assert(first_difference(first.0@, third.0@, at));
    assert(first.0@[at] < third.0@[at]);
}

/// A copy of identifiers.
pub fn copied_ids(ids: &Vec<Id>) -> (r: Vec<Id>)
    ensures
        r@ == ids@,
{
    let mut copy: Vec<Id> = Vec::new();
    let mut index: usize = 0;
    while index < ids.len()
        invariant
            index <= ids@.len(),
            copy@ == ids@.take(index as int),
        decreases ids@.len() - index,
    {
        copy.push(ids[index]);
        assert(copy@ =~= ids@.take(index + 1));
        index = index + 1;
    }
    assert(copy@ =~= ids@);
    copy
}

/// Whether two lists of identifiers are the same.
pub fn same_ids(left: &Vec<Id>, right: &Vec<Id>) -> (r: bool)
    ensures
        r == (left@ == right@),
{
    if left.len() != right.len() {
        return false;
    }
    let mut index: usize = 0;
    while index < left.len()
        invariant
            index <= left@.len() == right@.len(),
            forall|i: int| 0 <= i < index ==> left@[i] == right@[i],
        decreases left@.len() - index,
    {
        if left[index] != right[index] {
            assert(left@[index as int] != right@[index as int]);
            return false;
        }
        index = index + 1;
    }
    assert(left@ =~= right@);
    true
}

} // verus!
