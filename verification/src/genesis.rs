//! The genesis committee and its wire form.

use vstd::prelude::*;
use vstd::string::*;
use vstd::utf8::{decode_utf8, encode_utf8, valid_utf8};

use crate::bytes::{
    append, append_be, be_bytes, be_value, lemma_be_bytes_len, lemma_be_bytes_of_value,
    lemma_be_value_of_bytes, lemma_byte_ranges, read_be, same_bytes, signed, to_signed,
};
use crate::crypto::{ed25519_key, is_ed25519_key};
use crate::id::{first_difference, ZERO_BYTES};
use crate::outcome::{first, refuse, verdict};
use crate::reader::Reader;
use crate::text::{hex_bytes, hex_vec, is_hex, join};

verus! {

/// The bytes that a genesis starts with: `QOMMGEN1`.
pub const GENESIS_MAGIC: [u8; 8] = [81, 79, 77, 77, 71, 69, 78, 49];

/// The most bytes in a genesis.
pub const MAX_GENESIS_BYTES: usize = 1048576;

/// A member of the committee.
#[derive(Clone, Debug, Eq, PartialEq)]
pub struct CommitteeMember {
    pub node_id: String,
    pub public_key: [u8; 32],
}

/// The first committee, of which `threshold` members must sign.
#[derive(Clone, Debug, Eq, PartialEq)]
pub struct Genesis {
    pub timestamp: i64,
    pub epoch: u64,
    pub threshold: u16,
    pub members: Vec<CommitteeMember>,
}

/// A genesis as configured.
#[derive(Debug)]
pub struct GenesisConfig {
    pub timestamp: i64,
    pub committee: CommitteeConfig,
}

/// A committee as configured.
#[derive(Debug)]
pub struct CommitteeConfig {
    pub epoch: u64,
    pub threshold: u16,
    pub members: Vec<MemberConfig>,
}

/// A member as configured, with its key in hexadecimal.
#[derive(Debug)]
pub struct MemberConfig {
    pub node_id: String,
    pub public_key: String,
}

/// The contents of a member.
pub struct MemberContents {
    pub node_id: Seq<char>,
    pub public_key: [u8; 32],
}

/// The contents of a genesis.
#[verifier::ext_equal]
pub struct GenesisContents {
    pub timestamp: int,
    pub epoch: int,
    pub threshold: int,
    pub members: Seq<MemberContents>,
}

impl View for CommitteeMember {
    type V = MemberContents;

    open spec fn view(&self) -> MemberContents {
        MemberContents { node_id: self.node_id@, public_key: self.public_key }
    }
}

/// The contents of members.
pub open spec fn member_contents(members: Seq<CommitteeMember>) -> Seq<MemberContents> {
    Seq::new(members.len(), |i: int| members[i]@)
}

impl View for Genesis {
    type V = GenesisContents;

    open spec fn view(&self) -> GenesisContents {
        GenesisContents {
            timestamp: self.timestamp as int,
            epoch: self.epoch as int,
            threshold: self.threshold as int,
            members: member_contents(self.members@),
        }
    }
}

/// Whether a byte string comes before another in the order of text: at the
/// first difference it has the smaller byte, or it ends there.
pub open spec fn text_before(left: Seq<u8>, right: Seq<u8>) -> bool {
    ||| exists|at: int| #[trigger] first_difference(left, right, at) && left[at] < right[at]
    ||| left.len() < right.len() && forall|i: int| 0 <= i < left.len() ==> left[i] == right[i]
}

/// Whether text comes before other text.
pub fn is_text_before(left: &[u8], right: &[u8]) -> (r: bool)
    ensures
        r == text_before(left@, right@),
{
    let mut index: usize = 0;
    while index < left.len() && index < right.len()
        invariant
            index <= left@.len(),
            index <= right@.len(),
            forall|i: int| 0 <= i < index ==> left@[i] == right@[i],
        decreases left@.len() - index,
    {
        if left[index] != right[index] {
            proof {
                assert(first_difference(left@, right@, index as int));
                assert forall|at: int| first_difference(left@, right@, at) implies at == index by {
                    if at < index {
                    } else if index < at {
                    }
                }
            }
            return left[index] < right[index];
        }
        index = index + 1;
    }
    left.len() < right.len()
}

/// Whether a byte may stand in the name of a node: an ASCII letter or digit, or
/// one of `._:/+-`.
pub open spec fn name_byte(byte: u8) -> bool {
    ||| 48 <= byte <= 57
    ||| 65 <= byte <= 90
    ||| 97 <= byte <= 122
    ||| byte == 46
    ||| byte == 95
    ||| byte == 58
    ||| byte == 47
    ||| byte == 43
    ||| byte == 45
}

/// Whether text is the name of a node.
pub open spec fn node_name(node_id: Seq<char>) -> bool {
    let bytes = encode_utf8(node_id);
    &&& 0 < bytes.len() <= 128
    &&& forall|i: int| 0 <= i < bytes.len() ==> name_byte(#[trigger] bytes[i])
}

fn is_node_name(node_id: &str) -> (r: bool)
    ensures
        r == node_name(node_id@),
{
    let bytes = node_id.as_bytes();
    if bytes.len() == 0 || bytes.len() > 128 {
        return false;
    }
    let mut index: usize = 0;
    while index < bytes.len()
        invariant
            index <= bytes@.len(),
            bytes@ == encode_utf8(node_id@),
            forall|i: int| 0 <= i < index ==> name_byte(#[trigger] bytes@[i]),
        decreases bytes@.len() - index,
    {
        let byte = bytes[index];
        let allowed = (48 <= byte && byte <= 57) || (65 <= byte && byte <= 90) || (97 <= byte
            && byte <= 122) || byte == 46 || byte == 95 || byte == 58 || byte == 47 || byte == 43
            || byte == 45;
        if !allowed {
            assert(!name_byte(bytes@[index as int]));
            return false;
        }
        index = index + 1;
    }
    true
}

/// Whether the member at `at` has the name or the key of an earlier one.
pub open spec fn repeats_member(members: Seq<MemberContents>, at: int) -> bool {
    exists|i: int|
        0 <= i < at && ((#[trigger] members[i]).node_id == members[at].node_id
            || members[i].public_key == members[at].public_key)
}

/// Why the member at `at` is not valid.
pub open spec fn member_refusal(members: Seq<MemberContents>, at: int) -> Option<Seq<char>> {
    let member = members[at];
    if !node_name(member.node_id) || member.public_key == ZERO_BYTES || repeats_member(
        members,
        at,
    ) {
        Some("genesis committee has an invalid or duplicate member"@)
    } else if at > 0 && !text_before(
        encode_utf8(members[at - 1].node_id),
        encode_utf8(member.node_id),
    ) {
        Some("genesis committee must be sorted by node ID"@)
    } else if !ed25519_key(member.public_key) {
        Some("genesis committee contains an invalid Ed25519 key"@)
    } else {
        None
    }
}

/// Why one of the members from `from` on is not valid.
pub open spec fn members_refusal(members: Seq<MemberContents>, from: nat) -> Option<Seq<char>>
    decreases members.len() - from,
{
    if from >= members.len() {
        None
    } else {
        first(member_refusal(members, from as int), members_refusal(members, from + 1))
    }
}

/// Why a genesis is not valid.
pub open spec fn genesis_refusal(genesis: GenesisContents) -> Option<Seq<char>> {
    if genesis.timestamp < 0 {
        Some("genesis timestamp cannot be negative"@)
    } else if genesis.epoch == 0 || genesis.members.len() == 0 || genesis.members.len() > 64
        || genesis.threshold == 0 || genesis.threshold > genesis.members.len() {
        Some("genesis contains an invalid k-of-n committee"@)
    } else {
        members_refusal(genesis.members, 0)
    }
}

/// The wire form of the members from `from` on.
pub open spec fn member_bytes(members: Seq<MemberContents>, from: nat) -> Seq<u8>
    decreases members.len() - from,
{
    if from >= members.len() {
        seq![]
    } else {
        let node = encode_utf8(members[from as int].node_id);
        be_bytes(node.len() as int, 2) + node + members[from as int].public_key@ + member_bytes(
            members,
            from + 1,
        )
    }
}

/// The wire form of a genesis.
pub open spec fn genesis_bytes(genesis: GenesisContents) -> Seq<u8> {
    GENESIS_MAGIC@ + be_bytes(genesis.timestamp, 8) + be_bytes(genesis.epoch, 8) + be_bytes(
        genesis.threshold,
        2,
    ) + be_bytes(genesis.members.len() as int, 2) + member_bytes(genesis.members, 0)
}

/// Why a genesis has no wire form.
pub open spec fn genesis_encode_refusal(genesis: GenesisContents) -> Option<Seq<char>> {
    if genesis_refusal(genesis) is Some {
        genesis_refusal(genesis)
    } else if genesis_bytes(genesis).len() > MAX_GENESIS_BYTES {
        Some("genesis exceeds the one-MiB limit"@)
    } else {
        None
    }
}

/// The key of 32 bytes.
pub open spec fn key_of(bytes: Seq<u8>) -> [u8; 32] {
    choose|key: [u8; 32]| key@ == bytes
}

/// Reads `count` more members off the front of `rest`, after those in `done`.
/// Gives all of them and what is left.
pub open spec fn read_members(
    done: Seq<MemberContents>,
    rest: Seq<u8>,
    count: nat,
) -> Result<(Seq<MemberContents>, Seq<u8>), Seq<char>>
    decreases count,
{
    if count == 0 {
        Ok((done, rest))
    } else if rest.len() < 2 {
        Err("genesis is truncated"@)
    } else {
        let length = be_value(rest.take(2));
        let after = rest.skip(2);
        if after.len() < length {
            Err("genesis is truncated"@)
        } else if !valid_utf8(after.take(length)) {
            Err("genesis node ID is not UTF-8"@)
        } else if after.skip(length).len() < 32 {
            Err("genesis is truncated"@)
        } else {
            read_members(
                done.push(
                    MemberContents {
                        node_id: decode_utf8(after.take(length)),
                        public_key: key_of(after.skip(length).take(32)),
                    },
                ),
                after.skip(length).skip(32),
                (count - 1) as nat,
            )
        }
    }
}

/// The contents of a genesis in wire form, or why there is none.
pub open spec fn genesis_of(encoded: Seq<u8>) -> Result<GenesisContents, Seq<char>> {
    if encoded.len() == 0 || encoded.len() > MAX_GENESIS_BYTES {
        Err("genesis size is outside 1..=1 MiB"@)
    } else if encoded.len() < 8 {
        Err("genesis is truncated"@)
    } else if encoded.take(8) != GENESIS_MAGIC@ {
        Err("genesis magic or version is unsupported"@)
    } else if encoded.len() < 28 {
        Err("genesis is truncated"@)
    } else {
        let count = be_value(encoded.subrange(26, 28));
        match read_members(seq![], encoded.skip(28), count as nat) {
            Err(message) => Err(message),
            Ok((members, rest)) => {
                let genesis = GenesisContents {
                    timestamp: signed(be_value(encoded.subrange(8, 16))),
                    epoch: be_value(encoded.subrange(16, 24)),
                    threshold: be_value(encoded.subrange(24, 26)),
                    members,
                };
                if rest.len() > 0 {
                    Err("genesis contains trailing bytes"@)
                } else {
                    match genesis_refusal(genesis) {
                        Some(message) => Err(message),
                        None => Ok(genesis),
                    }
                }
            },
        }
    }
}

/// Calls `std::str::from_utf8`, which gives the text of bytes that are valid
/// UTF-8 and fails on others.
#[verifier::external_body]
fn utf8_text(bytes: &[u8]) -> (r: Option<&str>)
    ensures
        match r {
            Some(text) => valid_utf8(bytes@) && encode_utf8(text@) == bytes@,
            None => !valid_utf8(bytes@),
        },
{
    std::str::from_utf8(bytes).ok()
}

fn is_same_key(left: &[u8; 32], right: &[u8; 32]) -> (r: bool)
    ensures
        r == (*left == *right),
{
    let same = same_bytes(left, right);
    proof {
        if same {
            assert(*left =~= *right);
        }
    }
    same
}

impl Genesis {
    /// Checks that the member at `at` repeats no earlier one.
    fn does_repeat(&self, at: usize) -> (r: bool)
        requires
            at < self.members@.len(),
        ensures
            r == repeats_member(self@.members, at as int),
    {
        let member = &self.members[at];
        let mut index: usize = 0;
        while index < at
            invariant
                index <= at < self.members@.len(),
                *member == self.members@[at as int],
                forall|i: int|
                    0 <= i < index ==> (#[trigger] self@.members[i]).node_id != member.node_id@
                        && self@.members[i].public_key != member.public_key,
            decreases at - index,
        {
            let earlier = &self.members[index];
            if earlier.node_id == member.node_id || is_same_key(
                &earlier.public_key,
                &member.public_key,
            ) {
                assert(self@.members[index as int] == earlier@);
                return true;
            }
            index = index + 1;
        }
        false
    }

    /// Checks a genesis: a k-of-n committee of at most 64 members in the order
    /// of their names, with different names and different valid keys.
    pub fn validate(&self) -> (r: Result<(), String>)
        ensures
            verdict(r, genesis_refusal(self@)),
    {
        if self.timestamp < 0 {
            return refuse("genesis timestamp cannot be negative");
        }
        if self.epoch == 0 || self.members.len() == 0 || self.members.len() > 64 || self.threshold
            == 0 || self.threshold as usize > self.members.len() {
            return refuse("genesis contains an invalid k-of-n committee");
        }
        let mut index: usize = 0;
        while index < self.members.len()
            invariant
                index <= self.members@.len(),
                genesis_refusal(self@) == members_refusal(self@.members, 0),
                members_refusal(self@.members, 0) == members_refusal(
                    self@.members,
                    index as nat,
                ),
            decreases self.members@.len() - index,
        {
            let member = &self.members[index];
            assert(self@.members[index as int] == member@);
            if !is_node_name(member.node_id.as_str()) || is_same_key(
                &member.public_key,
                &ZERO_BYTES,
            ) || self.does_repeat(index) {
                return refuse("genesis committee has an invalid or duplicate member");
            }
            if index > 0 {
                let previous = &self.members[index - 1];
                assert(self@.members[index - 1] == previous@);
                if !is_text_before(
                    previous.node_id.as_str().as_bytes(),
                    member.node_id.as_str().as_bytes(),
                ) {
                    return refuse("genesis committee must be sorted by node ID");
                }
            }
            if !is_ed25519_key(&member.public_key) {
                return refuse("genesis committee contains an invalid Ed25519 key");
            }
            index = index + 1;
        }
        Ok(())
    }

    /// The wire form of a genesis.
    pub fn encode(&self) -> (r: Result<Vec<u8>, String>)
        ensures
            match r {
                Ok(encoded) => genesis_encode_refusal(self@) is None && encoded@ == genesis_bytes(
                    self@,
                ),
                Err(message) => genesis_encode_refusal(self@) == Some(message@),
            },
    {
        self.validate()?;
        let mut encoded: Vec<u8> = Vec::new();
        append(&mut encoded, &GENESIS_MAGIC);
        append_be(&mut encoded, self.timestamp as u64, 8);
        append_be(&mut encoded, self.epoch, 8);
        append_be(&mut encoded, self.threshold as u64, 2);
        append_be(&mut encoded, self.members.len() as u64, 2);
        proof {
            assert(encoded@ =~= GENESIS_MAGIC@ + be_bytes(self.timestamp as int, 8) + be_bytes(
                self.epoch as int,
                8,
            ) + be_bytes(self.threshold as int, 2) + be_bytes(self.members@.len() as int, 2));
            assert(encoded@ + member_bytes(self@.members, 0) =~= genesis_bytes(self@));
        }
        let mut index: usize = 0;
        while index < self.members.len()
            invariant
                index <= self.members@.len(),
                genesis_refusal(self@) is None,
                encoded@ + member_bytes(self@.members, index as nat) == genesis_bytes(self@),
            decreases self.members@.len() - index,
        {
            let member = &self.members[index];
            assert(self@.members[index as int] == member@);
            let node = member.node_id.as_str().as_bytes();
            let ghost before = encoded@;
            append_be(&mut encoded, node.len() as u64, 2);
            append(&mut encoded, node);
            append(&mut encoded, &member.public_key);
            assert(encoded@ + member_bytes(self@.members, (index + 1) as nat) =~= before
                + member_bytes(self@.members, index as nat));
            index = index + 1;
        }
        assert(encoded@ + member_bytes(self@.members, index as nat) =~= encoded@);
        if encoded.len() > MAX_GENESIS_BYTES {
            return refuse("genesis exceeds the one-MiB limit");
        }
        Ok(encoded)
    }

    /// Reads a genesis in wire form. Nothing may follow it.
    pub fn decode(encoded: &[u8]) -> (r: Result<Genesis, String>)
        ensures
            match r {
                Ok(genesis) => genesis_of(encoded@) == Ok::<GenesisContents, Seq<char>>(genesis@),
                Err(message) => genesis_of(encoded@) == Err::<GenesisContents, Seq<char>>(
                    message@,
                ),
            },
    {
        if encoded.len() == 0 || encoded.len() > MAX_GENESIS_BYTES {
            return refuse("genesis size is outside 1..=1 MiB");
        }
        let mut reader = Reader::new(encoded, "genesis");
        proof {
            lemma_truncated();
        }
        let magic = reader.take(8)?;
        if !same_bytes(magic, &GENESIS_MAGIC) {
            return refuse("genesis magic or version is unsupported");
        }
        let timestamp_bytes = reader.array::<8>()?;
        let epoch_bytes = reader.array::<8>()?;
        let threshold_bytes = reader.array::<2>()?;
        let count_bytes = reader.array::<2>()?;
        proof {
            assert(timestamp_bytes@ =~= encoded@.subrange(8, 16));
            assert(epoch_bytes@ =~= encoded@.subrange(16, 24));
            assert(threshold_bytes@ =~= encoded@.subrange(24, 26));
            assert(count_bytes@ =~= encoded@.subrange(26, 28));
            assert(reader.rest() =~= encoded@.skip(28));
            lemma_byte_ranges();
            lemma_be_bytes_of_value(threshold_bytes@);
        }
        let timestamp: i64 = to_signed(read_be(&timestamp_bytes));
        let epoch: u64 = read_be(&epoch_bytes);
        let threshold: u16 = read_be(&threshold_bytes) as u16;
        let count: u64 = read_be(&count_bytes);
        let mut members: Vec<CommitteeMember> = Vec::new();
        let mut index: u64 = 0;
        assert(member_contents(members@) =~= Seq::<MemberContents>::empty());
        while index < count
            invariant
                index <= count,
                reader.name() == "genesis"@,
                members@.len() == index,
                "genesis"@ + " is truncated"@ == "genesis is truncated"@,
                read_members(seq![], encoded@.skip(28), count as nat) == read_members(
                    member_contents(members@),
                    reader.rest(),
                    (count - index) as nat,
                ),
                28 <= encoded@.len() <= MAX_GENESIS_BYTES,
                encoded@.take(8) == GENESIS_MAGIC@,
                be_value(encoded@.subrange(26, 28)) == count,
            decreases count - index,
        {
            let length_bytes = reader.array::<2>()?;
            proof {
                lemma_byte_ranges();
                lemma_be_bytes_of_value(length_bytes@);
            }
            let length: u64 = read_be(&length_bytes);
            let node = reader.take(length as usize)?;
            let node_id = match utf8_text(node) {
                Some(text) => text.to_owned(),
                None => return refuse("genesis node ID is not UTF-8"),
            };
            let public_key = reader.array::<32>()?;
            let ghost done = member_contents(members@);
            let member = CommitteeMember { node_id, public_key };
            proof {
                vstd::utf8::encode_utf8_decode_utf8(node_id@);
                let chosen = key_of(public_key@);
                assert(chosen@ == public_key@);
                assert(chosen =~= public_key);
            }
            members.push(member);
            assert(member_contents(members@) =~= done.push(member@));
            index = index + 1;
        }
        if !reader.is_empty() {
            return refuse("genesis contains trailing bytes");
        }
        let genesis = Genesis { timestamp, epoch, threshold, members };
        genesis.validate()?;
        Ok(genesis)
    }
}

/// The bytes of a configured member's name.
pub open spec fn config_key(member: MemberConfig) -> Seq<u8> {
    encode_utf8(member.node_id@)
}

/// The first place from `from` on of a member whose name comes after `key`.
pub open spec fn place_after(sorted: Seq<MemberConfig>, key: Seq<u8>, from: nat) -> nat
    decreases sorted.len() - from,
{
    if from >= sorted.len() {
        sorted.len()
    } else if text_before(key, config_key(sorted[from as int])) {
        from
    } else {
        place_after(sorted, key, from + 1)
    }
}

/// The first `count` members in the order of their names; members of one name
/// stay in the order they are given.
pub open spec fn sorted_members(members: Seq<MemberConfig>, count: nat) -> Seq<MemberConfig>
    decreases count,
{
    if count == 0 {
        seq![]
    } else {
        let sorted = sorted_members(members, (count - 1) as nat);
        let member = members[count - 1];
        sorted.insert(place_after(sorted, config_key(member), 0) as int, member)
    }
}

/// Why one of the configured members from `from` on has no key.
pub open spec fn keys_refusal(members: Seq<MemberConfig>, from: nat) -> Option<Seq<char>>
    decreases members.len() - from,
{
    if from >= members.len() {
        None
    } else {
        let member = members[from as int];
        let text = encode_utf8(member.public_key@);
        if !is_hex(text) {
            Some("member "@ + member.node_id@ + " publicKey is not hexadecimal"@)
        } else if hex_bytes(text).len() != 32 {
            Some("member "@ + member.node_id@ + " publicKey is not 32 bytes"@)
        } else {
            keys_refusal(members, from + 1)
        }
    }
}

/// The committee members that configured members stand for.
pub open spec fn configured_members(members: Seq<MemberConfig>) -> Seq<MemberContents> {
    Seq::new(
        members.len(),
        |i: int|
            MemberContents {
                node_id: members[i].node_id@,
                public_key: key_of(hex_bytes(encode_utf8(members[i].public_key@))),
            },
    )
}

/// The genesis that a configuration stands for.
pub open spec fn configured(config: GenesisConfig) -> GenesisContents {
    let members = config.committee.members@;
    GenesisContents {
        timestamp: config.timestamp as int,
        epoch: config.committee.epoch as int,
        threshold: config.committee.threshold as int,
        members: configured_members(sorted_members(members, members.len())),
    }
}

/// Why a configuration stands for no genesis.
pub open spec fn config_refusal(config: GenesisConfig) -> Option<Seq<char>> {
    let members = config.committee.members@;
    first(
        keys_refusal(sorted_members(members, members.len()), 0),
        genesis_refusal(configured(config)),
    )
}

fn find_place(sorted: &Vec<MemberConfig>, key: &[u8]) -> (r: usize)
    ensures
        r == place_after(sorted@, key@, 0),
        r <= sorted@.len(),
{
    let mut index: usize = 0;
    while index < sorted.len()
        invariant
            index <= sorted@.len(),
            place_after(sorted@, key@, 0) == place_after(sorted@, key@, index as nat),
        decreases sorted@.len() - index,
    {
        if is_text_before(key, sorted[index].node_id.as_str().as_bytes()) {
            return index;
        }
        index = index + 1;
    }
    index
}

fn sort_members(members: Vec<MemberConfig>) -> (r: Vec<MemberConfig>)
    ensures
        r@ == sorted_members(members@, members@.len()),
{
    let ghost given = members@;
    let total: usize = members.len();
    let mut rest = members;
    let mut sorted: Vec<MemberConfig> = Vec::new();
    let mut count: usize = 0;
    assert(rest@ =~= given.skip(0));
    while rest.len() > 0
        invariant
            count + rest@.len() == given.len() == total,
            rest@ == given.skip(count as int),
            sorted@ == sorted_members(given, count as nat),
        decreases rest@.len(),
    {
        let member = rest.remove(0);
        assert(rest@ =~= given.skip(count + 1));
        let place: usize = find_place(&sorted, member.node_id.as_str().as_bytes());
        sorted.insert(place, member);
        proof {
            assert(given[count as int] == member);
        }
        count = count + 1;
    }
    sorted
}

impl GenesisConfig {
    /// The genesis that a configuration stands for. Its members may come in any
    /// order.
    pub fn into_genesis(self) -> (r: Result<Genesis, String>)
        ensures
            match r {
                Ok(genesis) => config_refusal(self) is None && genesis@ == configured(self),
                Err(message) => config_refusal(self) == Some(message@),
            },
    {
        let sorted = sort_members(self.committee.members);
        let mut members: Vec<CommitteeMember> = Vec::new();
        let mut index: usize = 0;
        while index < sorted.len()
            invariant
                index <= sorted@.len(),
                members@.len() == index,
                sorted@ == sorted_members(
                    self.committee.members@,
                    self.committee.members@.len(),
                ),
                forall|i: int|
                    0 <= i < index ==> (#[trigger] members@[i])@ == configured_members(sorted@)[i],
                keys_refusal(sorted@, 0) == keys_refusal(sorted@, index as nat),
            decreases sorted@.len() - index,
        {
            let member = &sorted[index];
            let mut message = join("member ", member.node_id.as_str());
            match hex_vec(member.public_key.as_str()) {
                None => {
                    message.append(" publicKey is not hexadecimal");
                    return Err(message);
                },
                Some(bytes) => {
                    if bytes.len() != 32 {
                        message.append(" publicKey is not 32 bytes");
                        return Err(message);
                    }
                    let mut reader = Reader::new(bytes.as_slice(), "key");
                    let public_key = reader.array::<32>()?;
                    proof {
                        assert(public_key@ =~= bytes@);
                        let chosen = key_of(bytes@);
                        assert(chosen@ == bytes@);
                        assert(chosen =~= public_key);
                    }
                    members.push(CommitteeMember { node_id: member.node_id.clone(), public_key });
                },
            }
            index = index + 1;
        }
        let genesis = Genesis {
            timestamp: self.timestamp,
            epoch: self.committee.epoch,
            threshold: self.committee.threshold,
            members,
        };
        assert(genesis@.members =~= configured(self).members);
        genesis.validate()?;
        Ok(genesis)
    }
}

/// What the committee's authorizer is set up with: the key of each node by its
/// name, in the order of names.
#[derive(Debug)]
pub struct QuorumSetup {
    pub nodes: Vec<CommitteeMember>,
    pub threshold: usize,
    pub epoch: u64,
    pub domain: String,
}

/// The keys by name of the first `count` members. Of two members of one name the
/// later one counts.
pub open spec fn keys_by_name(members: Seq<MemberContents>, count: nat) -> Map<Seq<char>, [u8; 32]>
    decreases count,
{
    if count == 0 {
        Map::empty()
    } else {
        keys_by_name(members, (count - 1) as nat).insert(
            members[count - 1].node_id,
            members[count - 1].public_key,
        )
    }
}

/// Whether nodes are in the order of their names.
pub open spec fn in_name_order(nodes: Seq<CommitteeMember>) -> bool {
    forall|i: int, j: int|
        0 <= i < j < nodes.len() ==> text_before(
            encode_utf8((#[trigger] nodes[i]).node_id@),
            encode_utf8((#[trigger] nodes[j]).node_id@),
        )
}

/// Whether nodes are exactly the entries of a map.
pub open spec fn nodes_are(
    nodes: Seq<CommitteeMember>,
    keys: Map<Seq<char>, [u8; 32]>,
) -> bool {
    &&& forall|i: int|
        0 <= i < nodes.len() ==> keys.contains_key((#[trigger] nodes[i]).node_id@)
            && keys[nodes[i].node_id@] == nodes[i].public_key
    &&& forall|name: Seq<char>| #[trigger]
        keys.contains_key(name) ==> exists|i: int|
            0 <= i < nodes.len() && (#[trigger] nodes[i]).node_id@ == name
}

/// The order of text is total, irreflexive and transitive.
pub proof fn lemma_text_order(first: Seq<u8>, second: Seq<u8>, third: Seq<u8>)
    ensures
        text_before(first, second) || text_before(second, first) || first == second,
        !(text_before(first, second) && text_before(second, first)),
        !text_before(first, first),
        text_before(first, second) && text_before(second, third) ==> text_before(first, third),
{
    if !text_before(first, second) && !text_before(second, first) {
        lemma_same_text(first, second, 0);
    }
    if text_before(first, second) && text_before(second, first) {
        if exists|at: int| #[trigger]
            first_difference(first, second, at) && first[at] < second[at] {
            let a = choose|at: int| #[trigger]
                first_difference(first, second, at) && first[at] < second[at];
            if exists|at: int| #[trigger]
                first_difference(second, first, at) && second[at] < first[at] {
                let b = choose|at: int| #[trigger]
                    first_difference(second, first, at) && second[at] < first[at];
                if a < b {
                } else if b < a {
                }
            }
        }
    }
    if text_before(first, second) && text_before(second, third) {
        lemma_text_transitive(first, second, third);
    }
}

proof fn lemma_same_text(left: Seq<u8>, right: Seq<u8>, from: int)
    requires
        0 <= from <= left.len(),
        from <= right.len(),
        forall|i: int| 0 <= i < from ==> left[i] == right[i],
        !text_before(left, right),
        !text_before(right, left),
    ensures
        left == right,
    decreases left.len() - from,
{
    if from == left.len() || from == right.len() {
        assert(left =~= right);
    } else if left[from] != right[from] {
        assert(first_difference(left, right, from));
        assert(first_difference(right, left, from));
    } else {
        lemma_same_text(left, right, from + 1);
    }
}

proof fn lemma_text_transitive(first: Seq<u8>, second: Seq<u8>, third: Seq<u8>)
    requires
        text_before(first, second),
        text_before(second, third),
    ensures
        text_before(first, third),
{
    let a = if exists|at: int| #[trigger]
        first_difference(first, second, at) && first[at] < second[at] {
        choose|at: int| #[trigger] first_difference(first, second, at) && first[at] < second[at]
    } else {
        first.len() as int
    };
    let b = if exists|at: int| #[trigger]
        first_difference(second, third, at) && second[at] < third[at] {
        choose|at: int| #[trigger] first_difference(second, third, at) && second[at] < third[at]
    } else {
        second.len() as int
    };
    let at = if a < b { a } else { b };
    assert forall|i: int| 0 <= i < at implies first[i] == third[i] by {}
    if at < first.len() {
        assert(first_difference(first, third, at));
        assert(first[at] < third[at]);
    } else {
        assert(first.len() < third.len());
    }
}

/// Puts a key under a name, in its place in the order of names.
fn put_node(nodes: &mut Vec<CommitteeMember>, member: CommitteeMember, Ghost(keys): Ghost<
    Map<Seq<char>, [u8; 32]>,
>)
    requires
        in_name_order(old(nodes)@),
        nodes_are(old(nodes)@, keys),
    ensures
        in_name_order(final(nodes)@),
        nodes_are(final(nodes)@, keys.insert(member.node_id@, member.public_key)),
{
    let ghost before = nodes@;
    let ghost name = encode_utf8(member.node_id@);
    let mut place: usize = 0;
    while place < nodes.len() && is_text_before(
        nodes[place].node_id.as_str().as_bytes(),
        member.node_id.as_str().as_bytes(),
    )
        invariant
            place <= nodes@.len(),
            nodes@ == before,
            name == encode_utf8(member.node_id@),
            forall|i: int|
                0 <= i < place ==> text_before(
                    encode_utf8((#[trigger] nodes@[i]).node_id@),
                    name,
                ),
        decreases nodes@.len() - place,
    {
        place = place + 1;
    }
    proof {
        assert forall|i: int| place < i < before.len() implies text_before(
            name,
            encode_utf8((#[trigger] before[i]).node_id@),
        ) by {
            let at = encode_utf8(before[place as int].node_id@);
            assert(text_before(at, encode_utf8(before[i].node_id@)));
            lemma_text_order(name, at, encode_utf8(before[i].node_id@));
        }
    }
    let replaced = place < nodes.len() && nodes[place].node_id == member.node_id;
    if replaced {
        nodes[place].public_key = member.public_key;
        proof {
            let after = nodes@;
            assert forall|i: int| 0 <= i < after.len() implies (#[trigger] after[i]).node_id@
                == before[i].node_id@ && (i != place ==> after[i] == before[i]) by {}
            assert forall|i: int| 0 <= i < before.len() && i != place implies (
            #[trigger] before[i]).node_id@ != member.node_id@ by {
                lemma_text_order(name, encode_utf8(before[i].node_id@), name);
            }
            lemma_replaced(before, after, member, place as int, keys);
        }
    } else {
        proof {
            if place < before.len() {
                let at = encode_utf8(before[place as int].node_id@);
                lemma_text_order(at, name, name);
                if at == name {
                    crate::text::lemma_same_encoding(
                        before[place as int].node_id@,
                        member.node_id@,
                    );
                }
            }
        }
        nodes.insert(place, member);
        proof {
            lemma_put(before, nodes@, member, place as int, keys);
        }
    }
}

proof fn lemma_replaced(
    before: Seq<CommitteeMember>,
    after: Seq<CommitteeMember>,
    member: CommitteeMember,
    place: int,
    keys: Map<Seq<char>, [u8; 32]>,
)
    requires
        0 <= place < before.len() == after.len(),
        in_name_order(before),
        nodes_are(before, keys),
        forall|i: int|
            0 <= i < after.len() ==> (#[trigger] after[i]).node_id@ == before[i].node_id@ && (i
                != place ==> after[i] == before[i]),
        after[place].public_key == member.public_key,
        before[place].node_id@ == member.node_id@,
        forall|i: int|
            0 <= i < before.len() && i != place ==> (#[trigger] before[i]).node_id@
                != member.node_id@,
    ensures
        in_name_order(after),
        nodes_are(after, keys.insert(member.node_id@, member.public_key)),
{
    let next = keys.insert(member.node_id@, member.public_key);
    assert forall|i: int, j: int| 0 <= i < j < after.len() implies text_before(
        encode_utf8((#[trigger] after[i]).node_id@),
        encode_utf8((#[trigger] after[j]).node_id@),
    ) by {
        assert(text_before(encode_utf8(before[i].node_id@), encode_utf8(before[j].node_id@)));
    }
    assert forall|i: int| 0 <= i < after.len() implies next.contains_key(
        (#[trigger] after[i]).node_id@,
    ) && next[after[i].node_id@] == after[i].public_key by {
        assert(keys.contains_key(before[i].node_id@));
    }
    assert forall|name: Seq<char>| #[trigger] next.contains_key(name) implies exists|i: int|
        0 <= i < after.len() && (#[trigger] after[i]).node_id@ == name by {
        if name == member.node_id@ {
            assert(after[place].node_id@ == name);
        } else {
            assert(keys.contains_key(name));
            let i = choose|i: int|
                0 <= i < before.len() && (#[trigger] before[i]).node_id@ == name;
            assert(after[i].node_id@ == name);
        }
    }
}

proof fn lemma_put(
    before: Seq<CommitteeMember>,
    after: Seq<CommitteeMember>,
    member: CommitteeMember,
    place: int,
    keys: Map<Seq<char>, [u8; 32]>,
)
    requires
        0 <= place <= before.len(),
        in_name_order(before),
        nodes_are(before, keys),
        after == before.insert(place, member),
        forall|i: int|
            0 <= i < place ==> text_before(
                encode_utf8((#[trigger] before[i]).node_id@),
                encode_utf8(member.node_id@),
            ),
        forall|i: int|
            place <= i < before.len() ==> text_before(
                encode_utf8(member.node_id@),
                encode_utf8((#[trigger] before[i]).node_id@),
            ),
    ensures
        in_name_order(after),
        nodes_are(after, keys.insert(member.node_id@, member.public_key)),
{
    let next = keys.insert(member.node_id@, member.public_key);
    let name = encode_utf8(member.node_id@);
    assert forall|i: int| 0 <= i < before.len() implies (#[trigger] before[i]).node_id@
        != member.node_id@ by {
        lemma_text_order(name, encode_utf8(before[i].node_id@), name);
    }
    assert forall|i: int, j: int| 0 <= i < j < after.len() implies text_before(
        encode_utf8((#[trigger] after[i]).node_id@),
        encode_utf8((#[trigger] after[j]).node_id@),
    ) by {
        let a = if i < place { i } else { i - 1 };
        let b = if j < place { j } else { j - 1 };
        if i != place && j != place {
            assert(text_before(encode_utf8(before[a].node_id@), encode_utf8(before[b].node_id@)));
        } else if i == place {
            assert(after[j] == before[b]);
        } else {
            assert(after[i] == before[a]);
        }
    }
    assert forall|i: int| 0 <= i < after.len() implies next.contains_key(
        (#[trigger] after[i]).node_id@,
    ) && next[after[i].node_id@] == after[i].public_key by {
        if i != place {
            let a = if i < place { i } else { i - 1 };
            assert(after[i] == before[a]);
            assert(keys.contains_key(before[a].node_id@));
        }
    }
    assert forall|text: Seq<char>| #[trigger] next.contains_key(text) implies exists|i: int|
        0 <= i < after.len() && (#[trigger] after[i]).node_id@ == text by {
        if text == member.node_id@ {
            assert(after[place].node_id@ == text);
        } else {
            assert(keys.contains_key(text));
            let i = choose|i: int|
                0 <= i < before.len() && (#[trigger] before[i]).node_id@ == text;
            let b = if i < place { i } else { i + 1 };
            assert(after[b] == before[i]);
        }
    }
}

/// Whether one of the members has no valid key.
pub open spec fn has_bad_key(members: Seq<MemberContents>) -> bool {
    exists|i: int| 0 <= i < members.len() && !ed25519_key((#[trigger] members[i]).public_key)
}

impl Genesis {
    /// What the committee's authorizer is set up with.
    pub fn authorizer(&self, domain: &str) -> (r: Result<QuorumSetup, String>)
        ensures
            match r {
                Ok(setup) => {
                    &&& !has_bad_key(self@.members)
                    &&& in_name_order(setup.nodes@)
                    &&& nodes_are(
                        setup.nodes@,
                        keys_by_name(self@.members, self@.members.len()),
                    )
                    &&& setup.threshold == self.threshold
                    &&& setup.epoch == self.epoch
                    &&& setup.domain@ == domain@
                },
                Err(message) => has_bad_key(self@.members) && message@
                    == "genesis committee contains an invalid Ed25519 key"@,
            },
    {
        let mut nodes: Vec<CommitteeMember> = Vec::new();
        let mut index: usize = 0;
        while index < self.members.len()
            invariant
                index <= self.members@.len(),
                in_name_order(nodes@),
                nodes_are(nodes@, keys_by_name(self@.members, index as nat)),
                forall|i: int|
                    0 <= i < index ==> ed25519_key((#[trigger] self@.members[i]).public_key),
            decreases self.members@.len() - index,
        {
            let member = &self.members[index];
            assert(self@.members[index as int] == member@);
            if !is_ed25519_key(&member.public_key) {
                return refuse("genesis committee contains an invalid Ed25519 key");
            }
            put_node(
                &mut nodes,
                CommitteeMember {
                    node_id: member.node_id.clone(),
                    public_key: member.public_key,
                },
                Ghost(keys_by_name(self@.members, index as nat)),
            );
            index = index + 1;
        }
        Ok(
            QuorumSetup {
                nodes,
                threshold: self.threshold as usize,
                epoch: self.epoch,
                domain: domain.to_owned(),
            },
        )
    }
}

/// Whether the numbers of a genesis are those of a `Genesis`.
pub open spec fn in_range(genesis: GenesisContents) -> bool {
    &&& i64::MIN <= genesis.timestamp <= i64::MAX
    &&& 0 <= genesis.epoch <= u64::MAX
    &&& 0 <= genesis.threshold <= u16::MAX
}

/// A genesis that has a wire form is read back from it.
pub proof fn law_genesis_round_trip(genesis: GenesisContents)
    requires
        in_range(genesis),
        genesis_encode_refusal(genesis) is None,
    ensures
        genesis_of(genesis_bytes(genesis)) == Ok::<GenesisContents, Seq<char>>(genesis),
{
    let encoded = genesis_bytes(genesis);
    let count = genesis.members.len();
    lemma_byte_ranges();
    lemma_be_bytes_len(genesis.timestamp, 8);
    lemma_be_bytes_len(genesis.epoch, 8);
    lemma_be_bytes_len(genesis.threshold, 2);
    lemma_be_bytes_len(count as int, 2);
    assert(encoded.take(8) =~= GENESIS_MAGIC@);
    assert(encoded.subrange(8, 16) =~= be_bytes(genesis.timestamp, 8));
    assert(encoded.subrange(16, 24) =~= be_bytes(genesis.epoch, 8));
    assert(encoded.subrange(24, 26) =~= be_bytes(genesis.threshold, 2));
    assert(encoded.subrange(26, 28) =~= be_bytes(count as int, 2));
    assert(encoded.skip(28) =~= member_bytes(genesis.members, 0));
    lemma_be_value_of_bytes(genesis.timestamp, 8);
    lemma_be_value_of_bytes(genesis.epoch, 8);
    lemma_be_value_of_bytes(genesis.threshold, 2);
    lemma_be_value_of_bytes(count as int, 2);
    assert forall|i: int| 0 <= i < count implies node_name(
        (#[trigger] genesis.members[i]).node_id,
    ) by {
        lemma_each_member(genesis.members, 0, i);
    }
    lemma_members_read_back(genesis.members, 0);
    assert(genesis.members.take(0) =~= Seq::<MemberContents>::empty());
    assert(genesis_of(encoded)->Ok_0 =~= genesis);
}

/// A wire form is that of the genesis read from it, so no genesis has two.
pub proof fn law_genesis_wire_is_canonical(encoded: Seq<u8>)
    requires
        genesis_of(encoded) is Ok,
    ensures
        genesis_bytes(genesis_of(encoded)->Ok_0) == encoded,
        genesis_encode_refusal(genesis_of(encoded)->Ok_0) is None,
        in_range(genesis_of(encoded)->Ok_0),
{
    let genesis = genesis_of(encoded)->Ok_0;
    let count = be_value(encoded.subrange(26, 28));
    lemma_byte_ranges();
    lemma_be_bytes_of_value(encoded.subrange(8, 16));
    lemma_be_bytes_of_value(encoded.subrange(16, 24));
    lemma_be_bytes_of_value(encoded.subrange(24, 26));
    lemma_be_bytes_of_value(encoded.subrange(26, 28));
    lemma_members_written_back(seq![], encoded.skip(28), count as nat);
    assert(genesis.members.skip(0) =~= genesis.members);
    assert(genesis_bytes(genesis) =~= encoded);
}

/// Genesis contents with one wire form are one genesis.
pub proof fn law_genesis_wire_is_injective(left: GenesisContents, right: GenesisContents)
    requires
        in_range(left),
        in_range(right),
        genesis_encode_refusal(left) is None,
        genesis_encode_refusal(right) is None,
        genesis_bytes(left) == genesis_bytes(right),
    ensures
        left == right,
{
    law_genesis_round_trip(left);
    law_genesis_round_trip(right);
}

/// A valid committee has between 1 and 64 members, of whom a positive number
/// must sign; their names are well formed and strictly ascending, and their keys
/// are valid and all different.
pub proof fn law_valid_committee(genesis: GenesisContents)
    requires
        genesis_refusal(genesis) is None,
    ensures
        1 <= genesis.members.len() <= 64,
        genesis.threshold != 0,
        genesis.threshold <= genesis.members.len(),
        forall|i: int|
            0 <= i < genesis.members.len() ==> node_name((#[trigger] genesis.members[i]).node_id)
                && ed25519_key(genesis.members[i].public_key),
        forall|i: int, j: int|
            0 <= i < j < genesis.members.len() ==> {
                &&& text_before(
                    encode_utf8((#[trigger] genesis.members[i]).node_id),
                    encode_utf8((#[trigger] genesis.members[j]).node_id),
                )
                &&& genesis.members[i].public_key != genesis.members[j].public_key
            },
{
    let members = genesis.members;
    assert forall|i: int| 0 <= i < members.len() implies node_name(
        (#[trigger] members[i]).node_id,
    ) && ed25519_key(members[i].public_key) by {
        lemma_each_member(members, 0, i);
    }
    assert forall|i: int, j: int| 0 <= i < j < members.len() implies {
        &&& text_before(
            encode_utf8((#[trigger] members[i]).node_id),
            encode_utf8((#[trigger] members[j]).node_id),
        )
        &&& members[i].public_key != members[j].public_key
    } by {
        lemma_each_member(members, 0, j);
        lemma_ascending(members, i, j);
    }
}

/// The members of a configuration are put in the order of their names, and are
/// the members that were given.
pub proof fn law_members_are_sorted(members: Seq<MemberConfig>, count: nat)
    requires
        count <= members.len(),
    ensures
        sorted_members(members, count).to_multiset() == members.take(count as int).to_multiset(),
        forall|i: int, j: int|
            0 <= i < j < sorted_members(members, count).len() ==> !text_before(
                config_key(#[trigger] sorted_members(members, count)[j]),
                config_key(#[trigger] sorted_members(members, count)[i]),
            ),
    decreases count,
{
    broadcast use vstd::seq_lib::group_to_multiset_ensures;

    let after = sorted_members(members, count);
    if count == 0 {
        assert(members.take(0) =~= Seq::<MemberConfig>::empty());
    } else {
        law_members_are_sorted(members, (count - 1) as nat);
        let before = sorted_members(members, (count - 1) as nat);
        let member = members[count - 1];
        let key = config_key(member);
        lemma_place(before, key, 0);
        let place = place_after(before, key, 0);
        assert(members.take(count as int) =~= members.take(count - 1).push(member));
        vstd::seq_lib::to_multiset_insert(before, place as int, member);
        assert forall|i: int, j: int| 0 <= i < j < after.len() implies !text_before(
            config_key(#[trigger] after[j]),
            config_key(#[trigger] after[i]),
        ) by {
            let a = if i < place { i } else { i - 1 };
            let b = if j < place { j } else { j - 1 };
            if i == place {
                assert(after[j] == before[b]);
                lemma_text_order(key, config_key(before[place as int]), config_key(before[b]));
                lemma_text_order(config_key(before[b]), key, config_key(before[place as int]));
                if b > place {
                    assert(!text_before(
                        config_key(before[b]),
                        config_key(before[place as int]),
                    ));
                }
            } else if j == place {
                assert(after[i] == before[a]);
                lemma_text_order(key, config_key(before[a]), key);
            } else {
                assert(after[i] == before[a] && after[j] == before[b]);
            }
        }
    }
}

proof fn lemma_place(sorted: Seq<MemberConfig>, key: Seq<u8>, from: nat)
    requires
        from <= sorted.len(),
    ensures
        from <= place_after(sorted, key, from) <= sorted.len(),
        forall|i: int|
            from <= i < place_after(sorted, key, from) ==> !text_before(
                key,
                config_key(#[trigger] sorted[i]),
            ),
        place_after(sorted, key, from) < sorted.len() ==> text_before(
            key,
            config_key(sorted[place_after(sorted, key, from) as int]),
        ),
    decreases sorted.len() - from,
{
    if from < sorted.len() && !text_before(key, config_key(sorted[from as int])) {
        lemma_place(sorted, key, from + 1);
    }
}

proof fn lemma_each_member(members: Seq<MemberContents>, from: nat, at: int)
    requires
        members_refusal(members, from) is None,
        from <= at < members.len(),
    ensures
        member_refusal(members, at) is None,
    decreases members.len() - from,
{
    if from < at {
        lemma_each_member(members, from + 1, at);
    }
}

proof fn lemma_ascending(members: Seq<MemberContents>, i: int, j: int)
    requires
        members_refusal(members, 0) is None,
        0 <= i < j < members.len(),
    ensures
        text_before(encode_utf8(members[i].node_id), encode_utf8(members[j].node_id)),
    decreases j - i,
{
    lemma_each_member(members, 0, j);
    if i + 1 < j {
        lemma_ascending(members, i, j - 1);
        lemma_text_order(
            encode_utf8(members[i].node_id),
            encode_utf8(members[j - 1].node_id),
            encode_utf8(members[j].node_id),
        );
    }
}

proof fn lemma_members_read_back(members: Seq<MemberContents>, from: nat)
    requires
        from <= members.len(),
        forall|i: int| 0 <= i < members.len() ==> node_name((#[trigger] members[i]).node_id),
    ensures
        read_members(
            members.take(from as int),
            member_bytes(members, from),
            (members.len() - from) as nat,
        ) == Ok::<(Seq<MemberContents>, Seq<u8>), Seq<char>>((members, Seq::<u8>::empty())),
    decreases members.len() - from,
{
    let rest = member_bytes(members, from);
    if from < members.len() {
        let member = members[from as int];
        let node = encode_utf8(member.node_id);
        lemma_byte_ranges();
        lemma_be_bytes_len(node.len() as int, 2);
        lemma_be_value_of_bytes(node.len() as int, 2);
        vstd::utf8::encode_utf8_valid_utf8(member.node_id);
        vstd::utf8::encode_utf8_decode_utf8(member.node_id);
        assert(rest.take(2) =~= be_bytes(node.len() as int, 2));
        let after = rest.skip(2);
        assert(after.take(node.len() as int) =~= node);
        let keyed = after.skip(node.len() as int);
        assert(keyed.take(32) =~= member.public_key@);
        assert(keyed.skip(32) =~= member_bytes(members, from + 1));
        let chosen = key_of(member.public_key@);
        assert(chosen@ == member.public_key@);
        assert(chosen =~= member.public_key);
        assert(members.take(from as int).push(member) =~= members.take(from as int + 1));
        lemma_members_read_back(members, from + 1);
    } else {
        assert(members.take(from as int) =~= members);
        assert(rest =~= Seq::<u8>::empty());
    }
}

proof fn lemma_member_bytes_of_suffix(members: Seq<MemberContents>, from: nat)
    requires
        from <= members.len(),
    ensures
        member_bytes(members, from) == member_bytes(members.skip(from as int), 0),
    decreases members.len() - from,
{
    if from < members.len() {
        let suffix = members.skip(from as int);
        lemma_member_bytes_of_suffix(members, from + 1);
        lemma_member_bytes_of_suffix(suffix, 1);
        assert(suffix.skip(1) =~= members.skip(from as int + 1));
    }
}

proof fn lemma_members_written_back(done: Seq<MemberContents>, rest: Seq<u8>, count: nat)
    requires
        read_members(done, rest, count) is Ok,
    ensures
        ({
            let (members, left) = read_members(done, rest, count)->Ok_0;
            &&& members.len() == done.len() + count
            &&& members.take(done.len() as int) == done
            &&& member_bytes(members.skip(done.len() as int), 0) + left == rest
        }),
    decreases count,
{
    let (members, left) = read_members(done, rest, count)->Ok_0;
    if count == 0 {
        assert(members.take(done.len() as int) =~= done);
        assert(members.skip(done.len() as int) =~= Seq::<MemberContents>::empty());
        assert(member_bytes(members.skip(done.len() as int), 0) + left =~= rest);
    } else {
        let length = be_value(rest.take(2));
        let after = rest.skip(2);
        let node = after.take(length);
        let keyed = after.skip(length);
        let member = MemberContents {
            node_id: decode_utf8(node),
            public_key: key_of(keyed.take(32)),
        };
        let more = done.push(member);
        lemma_be_bytes_of_value(rest.take(2));
        lemma_members_written_back(more, keyed.skip(32), (count - 1) as nat);
        vstd::utf8::decode_utf8_encode_utf8(node);
        assert(key_of(keyed.take(32))@ == keyed.take(32)) by {
            crate::block::lemma_some_id(keyed.take(32));
            let id = choose|id: crate::id::Id| id.0@ == keyed.take(32);
            assert(id.0@ == keyed.take(32));
        }
        let suffix = members.skip(done.len() as int);
        assert(members.take(done.len() as int) =~= done) by {
            assert forall|i: int| 0 <= i < done.len() implies members[i] == done[i] by {
                assert(members.take(more.len() as int)[i] == more[i]);
            }
        }
        assert(suffix[0] == member) by {
            assert(members.take(more.len() as int)[done.len() as int] == member);
        }
        lemma_member_bytes_of_suffix(suffix, 1);
        assert(suffix.skip(1) =~= members.skip(more.len() as int));
        let tail = member_bytes(suffix, 1);
        assert(tail + left == keyed.skip(32));
        assert(be_bytes(length, 2) == rest.take(2));
        assert(member_bytes(suffix, 0) == rest.take(2) + node + keyed.take(32) + tail);
        assert(member_bytes(suffix, 0) + left =~= rest.take(2) + (node + (keyed.take(32) + (tail
            + left))));
        assert(keyed.take(32) + keyed.skip(32) =~= keyed);
        assert(node + keyed =~= after);
        assert(rest.take(2) + after =~= rest);
    }
}

proof fn lemma_truncated()
    ensures
        "genesis"@ + " is truncated"@ == "genesis is truncated"@,
{
    reveal_strlit("genesis");
    reveal_strlit(" is truncated");
    reveal_strlit("genesis is truncated");
    assert("genesis"@ + " is truncated"@ =~= "genesis is truncated"@);
}

} // verus!
