//! Where the parts of blocks and genesis files stand on the wire, which blocks and
//! committees there are, and the order of names, identifiers and bytes.

use vstd::prelude::*;
use vstd::utf8::encode_utf8;

use crate::block::{
    bad_transaction, block_bytes, block_of, block_parent, encode_refusal, lemma_some_id,
    transaction_bytes, BlockContents,
};
use crate::bytes::{be_bytes, be_value, lemma_be_bytes_of_value, lemma_byte_ranges};
use crate::crypto::{ed25519_key, le_value};
use crate::decode::spelling::hex_of;
use crate::genesis::{
    config_refusal, configured, genesis_of, genesis_refusal, key_of, keys_by_name, keys_refusal,
    law_valid_committee, lemma_text_order, member_bytes, members_refusal, node_name,
    repeats_member, sorted_members, text_before, GenesisConfig, GenesisContents, MemberConfig,
    MemberContents,
};
use crate::id::{bytes_before, lemma_bytes_before_total, Id, ZERO_BYTES};
use crate::table::{Key, Numbered};
use crate::text::{decimal, hex_bytes};

verus! {

/// A block that is read has its magic in the first eight bytes, the parent in the next
/// 32, its time and its height as big-endian numbers in eight bytes each, and the
/// number of its transactions in two.
pub proof fn law_where_the_parts_of_a_block_stand(encoded: Seq<u8>)
    requires
        block_of(encoded) is Ok,
    ensures
        ({
            let block = block_of(encoded)->Ok_0;
            &&& 58 <= encoded.len() <= 1572864
            &&& encoded.take(8) == seq![81u8, 79, 77, 77, 66, 76, 75, 49]
            &&& encoded.subrange(8, 40) == block.parent_id.0@
            &&& be_value(encoded.subrange(40, 48)) == block.timestamp
            &&& be_value(encoded.subrange(48, 56)) == block.height
            &&& be_value(encoded.subrange(56, 58)) == block.transactions.len()
        }),
{
    crate::block::law_block_wire_is_canonical(encoded);
    lemma_some_id(encoded.subrange(8, 40));
    assert(block_parent(encoded).0@ == encoded.subrange(8, 40));
    assert(crate::block::BLOCK_MAGIC@ =~= seq![81u8, 79, 77, 77, 66, 76, 75, 49]);
    let count = be_value(encoded.subrange(56, 58));
    lemma_byte_ranges();
    lemma_be_bytes_of_value(encoded.subrange(40, 48));
    lemma_be_bytes_of_value(encoded.subrange(56, 58));
    lemma_transactions_read(seq![], encoded.skip(58), count as nat);
}

proof fn lemma_transactions_read(done: Seq<Seq<u8>>, rest: Seq<u8>, count: nat)
    requires
        crate::block::read_transactions(done, rest, count) is Ok,
    ensures
        crate::block::read_transactions(done, rest, count)->Ok_0.0.len() == done.len() + count,
    decreases count,
{
    if count > 0 {
        let length = be_value(rest.take(4));
        let after = rest.skip(4);
        lemma_transactions_read(
            done.push(after.take(length)),
            after.skip(length),
            (count - 1) as nat,
        );
    }
}

/// One more transaction adds to the end of the wire form the transaction behind its
/// length, a big-endian number in four bytes.
pub proof fn law_transactions_stand_in_order(transactions: Seq<Seq<u8>>, last: Seq<u8>, from: nat)
    requires
        from <= transactions.len(),
    ensures
        transaction_bytes(transactions.push(last), from) == transaction_bytes(transactions, from)
            + be_bytes(last.len() as int, 4) + last,
    decreases transactions.len() - from,
{
    let pushed = transactions.push(last);
    if from < transactions.len() {
        assert(pushed[from as int] == transactions[from as int]);
        law_transactions_stand_in_order(transactions, last, from + 1);
        assert(transaction_bytes(pushed, from) =~= transaction_bytes(transactions, from)
            + be_bytes(last.len() as int, 4) + last);
    } else {
        assert(pushed[from as int] == last);
        assert(transaction_bytes(pushed, from + 1) == Seq::<u8>::empty());
        assert(transaction_bytes(pushed, from) =~= transaction_bytes(transactions, from)
            + be_bytes(last.len() as int, 4) + last);
    }
}

/// A block has a wire form exactly where its time is not negative, it has at most 32
/// transactions, none of them empty or over one mebibyte, and the form is not over one
/// and a half.
pub proof fn law_when_a_block_has_a_wire_form(block: BlockContents)
    ensures
        (encode_refusal(block) is None) == {
            &&& block.timestamp >= 0
            &&& block.transactions.len() <= 32
            &&& forall|i: int|
                0 <= i < block.transactions.len() ==> 0 < (
                #[trigger] block.transactions[i]).len() <= 1048576
            &&& block_bytes(block).len() <= 1572864
        },
{
    if exists|i: int|
        0 <= i < block.transactions.len() && bad_transaction(#[trigger] block.transactions[i]) {
        let i = choose|i: int|
            0 <= i < block.transactions.len() && bad_transaction(#[trigger] block.transactions[i]);
        assert(!(0 < block.transactions[i].len() <= 1048576));
    } else {
        assert forall|i: int| 0 <= i < block.transactions.len() implies 0 < (
        #[trigger] block.transactions[i]).len() <= 1048576 by {
            assert(!bad_transaction(block.transactions[i]));
        }
    }
}

/// A genesis file that is read has its magic in the first eight bytes, its time and
/// its epoch as big-endian numbers in eight bytes each, and its threshold and the
/// number of its members in two each.
pub proof fn law_where_the_parts_of_a_genesis_stand(encoded: Seq<u8>)
    requires
        genesis_of(encoded) is Ok,
    ensures
        ({
            let genesis = genesis_of(encoded)->Ok_0;
            &&& 28 <= encoded.len() <= 1048576
            &&& encoded.take(8) == seq![81u8, 79, 77, 77, 71, 69, 78, 49]
            &&& be_value(encoded.subrange(8, 16)) == genesis.timestamp
            &&& be_value(encoded.subrange(16, 24)) == genesis.epoch
            &&& be_value(encoded.subrange(24, 26)) == genesis.threshold
            &&& be_value(encoded.subrange(26, 28)) == genesis.members.len()
        }),
{
    assert(crate::genesis::GENESIS_MAGIC@ =~= seq![81u8, 79, 77, 77, 71, 69, 78, 49]);
    let count = be_value(encoded.subrange(26, 28));
    lemma_byte_ranges();
    lemma_be_bytes_of_value(encoded.subrange(8, 16));
    lemma_be_bytes_of_value(encoded.subrange(26, 28));
    lemma_members_read(seq![], encoded.skip(28), count as nat);
}

proof fn lemma_members_read(done: Seq<MemberContents>, rest: Seq<u8>, count: nat)
    requires
        crate::genesis::read_members(done, rest, count) is Ok,
    ensures
        crate::genesis::read_members(done, rest, count)->Ok_0.0.len() == done.len() + count,
    decreases count,
{
    if count > 0 {
        let length = be_value(rest.take(2));
        let after = rest.skip(2);
        lemma_members_read(
            done.push(
                MemberContents {
                    node_id: vstd::utf8::decode_utf8(after.take(length)),
                    public_key: crate::genesis::key_of(after.skip(length).take(32)),
                },
            ),
            after.skip(length).skip(32),
            (count - 1) as nat,
        );
    }
}

/// One more member adds to the end of the wire form its name behind its length, a
/// big-endian number in two bytes, and then its key.
pub proof fn law_members_stand_in_order(
    members: Seq<MemberContents>,
    last: MemberContents,
    from: nat,
)
    requires
        from <= members.len(),
    ensures
        member_bytes(members.push(last), from) == member_bytes(members, from) + be_bytes(
            encode_utf8(last.node_id).len() as int,
            2,
        ) + encode_utf8(last.node_id) + last.public_key@,
    decreases members.len() - from,
{
    let pushed = members.push(last);
    let node = encode_utf8(last.node_id);
    if from < members.len() {
        assert(pushed[from as int] == members[from as int]);
        law_members_stand_in_order(members, last, from + 1);
    } else {
        assert(pushed[from as int] == last);
        assert(member_bytes(pushed, from + 1) == Seq::<u8>::empty());
    }
    assert(member_bytes(pushed, from) =~= member_bytes(members, from) + be_bytes(
        node.len() as int,
        2,
    ) + node + last.public_key@);
}

/// Whether members have well formed names in strictly ascending order and valid keys
/// that are all different.
pub open spec fn is_committee(members: Seq<MemberContents>) -> bool {
    &&& forall|i: int|
        0 <= i < members.len() ==> {
            &&& node_name((#[trigger] members[i]).node_id)
            &&& members[i].public_key != ZERO_BYTES
            &&& ed25519_key(members[i].public_key)
        }
    &&& forall|i: int, j: int|
        0 <= i < j < members.len() ==> {
            &&& text_before(
                encode_utf8((#[trigger] members[i]).node_id),
                encode_utf8((#[trigger] members[j]).node_id),
            )
            &&& members[i].public_key != members[j].public_key
        }
}

proof fn lemma_committee(members: Seq<MemberContents>, from: nat)
    requires
        is_committee(members),
    ensures
        members_refusal(members, from) is None,
    decreases members.len() - from,
{
    if from < members.len() {
        let at = from as int;
        assert(node_name(members[at].node_id));
        if repeats_member(members, at) {
            let i = choose|i: int|
                0 <= i < at && ((#[trigger] members[i]).node_id == members[at].node_id
                    || members[i].public_key == members[at].public_key);
            let name = encode_utf8(members[at].node_id);
            assert(text_before(encode_utf8(members[i].node_id), name));
            lemma_text_order(name, name, name);
        }
        if at > 0 {
            assert(text_before(
                encode_utf8(members[at - 1].node_id),
                encode_utf8(members[at].node_id),
            ));
        }
        lemma_committee(members, from + 1);
    }
}

proof fn lemma_no_zero_key(members: Seq<MemberContents>, from: nat, at: int)
    requires
        members_refusal(members, from) is None,
        from <= at < members.len(),
    ensures
        members[at].public_key != ZERO_BYTES,
    decreases at - from,
{
    if from < at {
        lemma_no_zero_key(members, from + 1, at);
    }
}

/// A genesis is valid exactly where its time is not negative, its epoch not zero, it
/// has between 1 and 64 members that are a committee, and between 1 and all of them
/// must sign.
pub proof fn law_when_a_genesis_is_valid(genesis: GenesisContents)
    ensures
        (genesis_refusal(genesis) is None) == {
            &&& genesis.timestamp >= 0
            &&& genesis.epoch != 0
            &&& 1 <= genesis.members.len() <= 64
            &&& genesis.threshold != 0
            &&& genesis.threshold <= genesis.members.len()
            &&& is_committee(genesis.members)
        },
{
    if is_committee(genesis.members) {
        lemma_committee(genesis.members, 0);
    }
    if genesis_refusal(genesis) is None {
        law_valid_committee(genesis);
        assert forall|i: int| 0 <= i < genesis.members.len() implies (
        #[trigger] genesis.members[i]).public_key != ZERO_BYTES by {
            lemma_no_zero_key(genesis.members, 0, i);
        }
        assert(is_committee(genesis.members));
    }
}

/// A configuration is taken as given: its time, epoch and threshold, and of every
/// member, in the order of their names, the name and the key that its text spells.
pub proof fn law_a_configuration_is_taken_as_given(config: GenesisConfig)
    requires
        config_refusal(config) is None,
    ensures
        ({
            let genesis = configured(config);
            let members = config.committee.members@;
            let sorted = sorted_members(members, members.len());
            &&& genesis.timestamp == config.timestamp
            &&& genesis.epoch == config.committee.epoch
            &&& genesis.threshold == config.committee.threshold
            &&& genesis.members.len() == sorted.len()
            &&& forall|i: int|
                0 <= i < sorted.len() ==> {
                    &&& (#[trigger] genesis.members[i]).node_id == sorted[i].node_id@
                    &&& hex_of(sorted[i].public_key@, 32)
                    &&& genesis.members[i].public_key@ == hex_bytes(
                        encode_utf8(sorted[i].public_key@),
                    )
                }
        }),
{
    let genesis = configured(config);
    let members = config.committee.members@;
    let sorted = sorted_members(members, members.len());
    assert forall|i: int| 0 <= i < sorted.len() implies {
        &&& (#[trigger] genesis.members[i]).node_id == sorted[i].node_id@
        &&& hex_of(sorted[i].public_key@, 32)
        &&& genesis.members[i].public_key@ == hex_bytes(encode_utf8(sorted[i].public_key@))
    } by {
        lemma_key_spelled(sorted, 0, i);
        let bytes = hex_bytes(encode_utf8(sorted[i].public_key@));
        lemma_some_id(bytes);
        let id = choose|id: Id| id.0@ == bytes;
        let key = id.0;
        assert(key@ == bytes);
        assert(key_of(bytes)@ == bytes);
    }
}

proof fn lemma_key_spelled(members: Seq<MemberConfig>, from: nat, at: int)
    requires
        keys_refusal(members, from) is None,
        from <= at < members.len(),
    ensures
        hex_of(members[at].public_key@, 32),
    decreases at - from,
{
    if from < at {
        lemma_key_spelled(members, from + 1, at);
    }
}

/// The keys of a committee are those of its members, each under its member's name, and
/// no others.
pub proof fn law_keys_go_by_name(members: Seq<MemberContents>, count: nat)
    requires
        count <= members.len(),
        forall|i: int, j: int|
            0 <= i < j < members.len() ==> (#[trigger] members[i]).node_id != (
            #[trigger] members[j]).node_id,
    ensures
        forall|i: int|
            0 <= i < count ==> {
                &&& keys_by_name(members, count).contains_key((#[trigger] members[i]).node_id)
                &&& keys_by_name(members, count)[members[i].node_id] == members[i].public_key
            },
        forall|name: Seq<char>| #[trigger]
            keys_by_name(members, count).contains_key(name) ==> exists|i: int|
                0 <= i < count && (#[trigger] members[i]).node_id == name,
    decreases count,
{
    if count > 0 {
        let at = (count - 1) as nat;
        law_keys_go_by_name(members, at);
        let keys = keys_by_name(members, count);
        assert forall|i: int| 0 <= i < count implies {
            &&& keys.contains_key((#[trigger] members[i]).node_id)
            &&& keys[members[i].node_id] == members[i].public_key
        } by {
            if i < at {
                assert(members[i].node_id != members[at as int].node_id);
            }
        }
        assert forall|name: Seq<char>| #[trigger] keys.contains_key(name) implies exists|i: int|
            0 <= i < count && (#[trigger] members[i]).node_id == name by {
            if name == members[at as int].node_id {
                assert(members[at as int].node_id == name);
            } else {
                assert(keys_by_name(members, at).contains_key(name));
                let i = choose|i: int| 0 <= i < at && (#[trigger] members[i]).node_id == name;
                assert(members[i].node_id == name);
            }
        }
    }
}

/// The number that decimal digits stand for.
pub open spec fn decimal_value(text: Seq<char>) -> int
    decreases text.len(),
{
    if text.len() == 0 {
        0
    } else {
        10 * decimal_value(text.drop_last()) + (text.last() as int - 48)
    }
}

/// A number that is written in decimal is read back from its digits.
pub proof fn law_a_number_is_read_back_from_its_digits(number: int)
    requires
        0 <= number,
    ensures
        decimal_value(decimal(number)) == number,
        forall|i: int|
            0 <= i < decimal(number).len() ==> '0' <= #[trigger] decimal(number)[i] <= '9',
    decreases number,
{
    if number < 10 {
        assert(decimal(number).drop_last() =~= Seq::<char>::empty());
        assert(decimal_value(decimal(number).drop_last()) == 0);
    } else {
        law_a_number_is_read_back_from_its_digits(number / 10);
        assert(decimal(number).drop_last() =~= decimal(number / 10));
    }
}

/// Identifiers come in the order of their bytes, from the first: the one whose byte is
/// smaller where they first differ comes before the other.
pub proof fn law_identifiers_come_in_the_order_of_their_bytes(left: Id, right: Id, at: int)
    requires
        0 <= at < 32,
        forall|i: int| 0 <= i < at ==> left.0@[i] == right.0@[i],
        left.0@[at] < right.0@[at],
    ensures
        bytes_before(left.0@, right.0@),
        !bytes_before(right.0@, left.0@),
        left.before(right),
        !right.before(left),
{
    assert(crate::id::first_difference(left.0@, right.0@, at));
    if bytes_before(right.0@, left.0@) {
        let other = choose|other: int| #[trigger]
            crate::id::first_difference(right.0@, left.0@, other) && right.0@[other]
                < left.0@[other];
        if other < at {
            assert(left.0@[other] == right.0@[other]);
        } else if at < other {
            assert(right.0@[at] == left.0@[at]);
        }
    }
}

/// Numbered keys come in the order of their scopes, and within one scope in the order
/// of their numbers.
pub proof fn law_numbered_keys_come_by_scope_and_number(left: Numbered, right: Numbered)
    ensures
        left.scope == right.scope ==> left.before(right) == (left.number < right.number),
        bytes_before(left.scope.0@, right.scope.0@) ==> left.before(right) && !right.before(left),
{
    lemma_bytes_before_total(left.scope, right.scope);
    lemma_bytes_before_total(left.scope, left.scope);
}

/// Names come in the order of their bytes, from the first, and one that another starts
/// with comes before it.
pub proof fn law_names_come_in_the_order_of_their_bytes(left: Seq<u8>, right: Seq<u8>, at: int)
    requires
        0 <= at <= left.len(),
        at < right.len(),
        forall|i: int| 0 <= i < at ==> left[i] == right[i],
        at == left.len() || left[at] < right[at],
    ensures
        text_before(left, right),
        !text_before(right, left),
{
    if at < left.len() {
        assert(crate::id::first_difference(left, right, at));
    }
    lemma_text_order(left, right, left);
}

/// A number in big-endian bytes grows by a byte at its end, and one in little-endian
/// bytes by a byte at its start.
pub proof fn law_how_bytes_make_numbers(bytes: Seq<u8>, byte: u8)
    ensures
        be_value(bytes.push(byte)) == 256 * be_value(bytes) + byte,
        le_value(seq![byte] + bytes) == 256 * le_value(bytes) + byte,
        be_value(Seq::empty()) == 0,
        le_value(Seq::empty()) == 0,
{
    assert(bytes.push(byte).drop_last() =~= bytes);
    assert((seq![byte] + bytes).drop_first() =~= bytes);
}

} // verus!
