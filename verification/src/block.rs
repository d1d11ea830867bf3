//! Blocks and their wire form.

use vstd::prelude::*;

use crate::bytes::{
    append, append_be, be_bytes, be_value, lemma_be_bytes_len, lemma_be_bytes_of_value,
    lemma_be_value_of_bytes, lemma_byte_ranges, read_be, same_bytes, signed, to_signed,
};
use crate::crypto::sha256;
use crate::id::Id;
use crate::outcome::refuse;
use crate::reader::Reader;
use crate::text::{decimal, decimal_text};
use vstd::string::*;

verus! {

/// The bytes that a block starts with: `QOMMBLK1`.
pub const BLOCK_MAGIC: [u8; 8] = [81, 79, 77, 77, 66, 76, 75, 49];

/// The most transactions in a block.
pub const MAX_TRANSACTIONS: usize = 32;

/// The most bytes in a transaction.
pub const MAX_TRANSACTION_BYTES: usize = 1048576;

/// The most bytes in a block.
pub const MAX_BLOCK_BYTES: usize = 1572864;

/// A block.
#[derive(Clone, Debug, Eq, PartialEq)]
pub struct Block {
    pub parent_id: Id,
    pub timestamp: i64,
    pub height: u64,
    pub transactions: Vec<Vec<u8>>,
}

/// The contents of a block.
#[verifier::ext_equal]
pub struct BlockContents {
    pub parent_id: Id,
    pub timestamp: int,
    pub height: int,
    pub transactions: Seq<Seq<u8>>,
}

/// The contents of transactions.
pub open spec fn contents(transactions: Seq<Vec<u8>>) -> Seq<Seq<u8>> {
    Seq::new(transactions.len(), |i: int| transactions[i]@)
}

impl View for Block {
    type V = BlockContents;

    open spec fn view(&self) -> BlockContents {
        BlockContents {
            parent_id: self.parent_id,
            timestamp: self.timestamp as int,
            height: self.height as int,
            transactions: contents(self.transactions@),
        }
    }
}

/// Whether a transaction is empty or too large.
pub open spec fn bad_transaction(transaction: Seq<u8>) -> bool {
    transaction.len() == 0 || transaction.len() > MAX_TRANSACTION_BYTES
}

/// Why a block is not valid.
pub open spec fn block_refusal(block: BlockContents) -> Option<Seq<char>> {
    if block.timestamp < 0 {
        Some("block timestamp cannot be negative"@)
    } else if block.transactions.len() > MAX_TRANSACTIONS {
        Some(
            "block has "@ + decimal(block.transactions.len() as int)
                + " transactions; maximum is "@ + decimal(MAX_TRANSACTIONS as int),
        )
    } else if exists|i: int|
        0 <= i < block.transactions.len() && bad_transaction(#[trigger] block.transactions[i]) {
        Some("block contains an empty or oversized transaction"@)
    } else {
        None
    }
}

/// The wire form of the transactions from `from` on: each after its length.
pub open spec fn transaction_bytes(transactions: Seq<Seq<u8>>, from: nat) -> Seq<u8>
    decreases transactions.len() - from,
{
    if from >= transactions.len() {
        seq![]
    } else {
        be_bytes(transactions[from as int].len() as int, 4) + transactions[from as int]
            + transaction_bytes(transactions, from + 1)
    }
}

/// The wire form of a block.
pub open spec fn block_bytes(block: BlockContents) -> Seq<u8> {
    BLOCK_MAGIC@ + block.parent_id.0@ + be_bytes(block.timestamp, 8) + be_bytes(block.height, 8)
        + be_bytes(block.transactions.len() as int, 2) + transaction_bytes(block.transactions, 0)
}

/// Why a block has no wire form.
pub open spec fn encode_refusal(block: BlockContents) -> Option<Seq<char>> {
    if block_refusal(block) is Some {
        block_refusal(block)
    } else if block_bytes(block).len() > MAX_BLOCK_BYTES {
        Some(
            "block has "@ + decimal(block_bytes(block).len() as int) + " bytes; maximum is "@
                + decimal(MAX_BLOCK_BYTES as int),
        )
    } else {
        None
    }
}

/// Reads `count` more transactions off the front of `rest`, after those in
/// `done`. Gives all of them and what is left.
pub open spec fn read_transactions(
    done: Seq<Seq<u8>>,
    rest: Seq<u8>,
    count: nat,
) -> Result<(Seq<Seq<u8>>, Seq<u8>), Seq<char>>
    decreases count,
{
    if count == 0 {
        Ok((done, rest))
    } else if rest.len() < 4 {
        Err("block is truncated"@)
    } else {
        let length = be_value(rest.take(4));
        let after = rest.skip(4);
        if length == 0 || length > MAX_TRANSACTION_BYTES {
            Err("block transaction size is outside the allowed range"@)
        } else if after.len() < length {
            Err("block is truncated"@)
        } else {
            read_transactions(
                done.push(after.take(length)),
                after.skip(length),
                (count - 1) as nat,
            )
        }
    }
}

/// The contents of a block in wire form, or why there is none.
pub open spec fn block_of(encoded: Seq<u8>) -> Result<BlockContents, Seq<char>> {
    if encoded.len() == 0 || encoded.len() > MAX_BLOCK_BYTES {
        Err("block size is outside the allowed range"@)
    } else if encoded.len() < 8 {
        Err("block is truncated"@)
    } else if encoded.take(8) != BLOCK_MAGIC@ {
        Err("block magic or version is unsupported"@)
    } else if encoded.len() < 58 {
        Err("block is truncated"@)
    } else {
        let count = be_value(encoded.subrange(56, 58));
        if count > MAX_TRANSACTIONS {
            Err("block transaction count exceeds the limit"@)
        } else {
            match read_transactions(seq![], encoded.skip(58), count as nat) {
                Err(message) => Err(message),
                Ok((transactions, rest)) => {
                    let block = BlockContents {
                        parent_id: block_parent(encoded),
                        timestamp: signed(be_value(encoded.subrange(40, 48))),
                        height: be_value(encoded.subrange(48, 56)),
                        transactions,
                    };
                    if rest.len() > 0 {
                        Err("block contains trailing bytes"@)
                    } else {
                        match block_refusal(block) {
                            Some(message) => Err(message),
                            None => Ok(block),
                        }
                    }
                },
            }
        }
    }
}

/// The parent of a block in wire form.
pub open spec fn block_parent(encoded: Seq<u8>) -> Id {
    choose|id: Id| id.0@ == encoded.subrange(8, 40)
}

impl Block {
    /// Checks a block.
    pub fn validate(&self) -> (r: Result<(), String>)
        ensures
            crate::outcome::verdict(r, block_refusal(self@)),
    {
        if self.timestamp < 0 {
            return refuse("block timestamp cannot be negative");
        }
        if self.transactions.len() > MAX_TRANSACTIONS {
            let mut message = "block has ".to_owned();
            message.append(decimal_text(self.transactions.len() as u64).as_str());
            message.append(" transactions; maximum is ");
            message.append(decimal_text(MAX_TRANSACTIONS as u64).as_str());
            return Err(message);
        }
        let mut index: usize = 0;
        while index < self.transactions.len()
            invariant
                index <= self.transactions@.len(),
                self.timestamp >= 0,
                self.transactions@.len() <= MAX_TRANSACTIONS,
                forall|i: int|
                    0 <= i < index ==> !bad_transaction(#[trigger] self@.transactions[i]),
            decreases self.transactions@.len() - index,
        {
            let transaction = &self.transactions[index];
            if transaction.len() == 0 || transaction.len() > MAX_TRANSACTION_BYTES {
                assert(bad_transaction(self@.transactions[index as int]));
                return refuse("block contains an empty or oversized transaction");
            }
            index = index + 1;
        }
        Ok(())
    }

    /// The wire form of a block.
    pub fn encode(&self) -> (r: Result<Vec<u8>, String>)
        ensures
            match r {
                Ok(encoded) => encode_refusal(self@) is None && encoded@ == block_bytes(self@),
                Err(message) => encode_refusal(self@) == Some(message@),
            },
    {
        self.validate()?;
        let mut encoded: Vec<u8> = Vec::new();
        append(&mut encoded, &BLOCK_MAGIC);
        append(&mut encoded, &self.parent_id.0);
        append_be(&mut encoded, self.timestamp as u64, 8);
        append_be(&mut encoded, self.height, 8);
        append_be(&mut encoded, self.transactions.len() as u64, 2);
        let ghost header = encoded@;
        proof {
            assert(header =~= BLOCK_MAGIC@ + self.parent_id.0@ + be_bytes(
                self.timestamp as int,
                8,
            ) + be_bytes(self.height as int, 8) + be_bytes(self.transactions@.len() as int, 2));
            assert(header + transaction_bytes(self@.transactions, 0) =~= block_bytes(self@));
        }
        let mut index: usize = 0;
        while index < self.transactions.len()
            invariant
                index <= self.transactions@.len(),
                block_refusal(self@) is None,
                encoded@ + transaction_bytes(self@.transactions, index as nat) == block_bytes(
                    self@,
                ),
            decreases self.transactions@.len() - index,
        {
            let transaction = &self.transactions[index];
            let ghost before = encoded@;
            append_be(&mut encoded, transaction.len() as u64, 4);
            append(&mut encoded, transaction.as_slice());
            assert(encoded@ + transaction_bytes(self@.transactions, (index + 1) as nat) =~= before
                + transaction_bytes(self@.transactions, index as nat));
            index = index + 1;
        }
        assert(encoded@ + transaction_bytes(self@.transactions, index as nat) =~= encoded@);
        if encoded.len() > MAX_BLOCK_BYTES {
            let mut message = "block has ".to_owned();
            message.append(decimal_text(encoded.len() as u64).as_str());
            message.append(" bytes; maximum is ");
            message.append(decimal_text(MAX_BLOCK_BYTES as u64).as_str());
            return Err(message);
        }
        Ok(encoded)
    }

    /// Reads a block in wire form. Nothing may follow it.
    pub fn decode(encoded: &[u8]) -> (r: Result<Block, String>)
        ensures
            match r {
                Ok(block) => block_of(encoded@) == Ok::<BlockContents, Seq<char>>(block@),
                Err(message) => block_of(encoded@) == Err::<BlockContents, Seq<char>>(message@),
            },
    {
        if encoded.len() == 0 || encoded.len() > MAX_BLOCK_BYTES {
            return refuse("block size is outside the allowed range");
        }
        let mut reader = Reader::new(encoded, "block");
        proof {
            lemma_truncated();
        }
        let magic = reader.take(8)?;
        if !same_bytes(magic, &BLOCK_MAGIC) {
            return refuse("block magic or version is unsupported");
        }
        let parent = reader.array::<32>()?;
        let parent_id = Id(parent);
        let timestamp_bytes = reader.take(8)?;
        let height_bytes = reader.take(8)?;
        let count_bytes = reader.take(2)?;
        proof {
            assert(parent@ =~= encoded@.subrange(8, 40));
            assert(timestamp_bytes@ =~= encoded@.subrange(40, 48));
            assert(height_bytes@ =~= encoded@.subrange(48, 56));
            assert(count_bytes@ =~= encoded@.subrange(56, 58));
            assert(reader.rest() =~= encoded@.skip(58));
            let chosen = block_parent(encoded@);
            assert(parent_id.0@ == encoded@.subrange(8, 40));
            assert(chosen.0@ == encoded@.subrange(8, 40));
            assert(chosen.0 =~= parent_id.0);
        }
        let timestamp: i64 = to_signed(read_be(timestamp_bytes));
        let height: u64 = read_be(height_bytes);
        let count: u64 = read_be(count_bytes);
        if count > MAX_TRANSACTIONS as u64 {
            return refuse("block transaction count exceeds the limit");
        }
        let mut transactions: Vec<Vec<u8>> = Vec::new();
        let mut index: u64 = 0;
        assert(contents(transactions@) =~= Seq::<Seq<u8>>::empty());
        while index < count
            invariant
                index <= count <= MAX_TRANSACTIONS,
                reader.name() == "block"@,
                transactions@.len() == index,
                "block"@ + " is truncated"@ == "block is truncated"@,
                read_transactions(seq![], encoded@.skip(58), count as nat) == read_transactions(
                    contents(transactions@),
                    reader.rest(),
                    (count - index) as nat,
                ),
                0 < encoded@.len() <= MAX_BLOCK_BYTES,
                encoded@.len() >= 58,
                encoded@.take(8) == BLOCK_MAGIC@,
                be_value(encoded@.subrange(56, 58)) == count,
            decreases count - index,
        {
            let ghost before = reader.rest();
            let length_bytes = reader.take(4)?;
            let length: u64 = read_be(length_bytes);
            if length == 0 || length > MAX_TRANSACTION_BYTES as u64 {
                return refuse("block transaction size is outside the allowed range");
            }
            let taken = reader.take(length as usize)?;
            let mut transaction: Vec<u8> = Vec::new();
            append(&mut transaction, taken);
            let ghost done = contents(transactions@);
            transactions.push(transaction);
            assert(transaction@ =~= taken@);
            assert(contents(transactions@) =~= done.push(taken@));
            index = index + 1;
        }
        if !reader.is_empty() {
            return refuse("block contains trailing bytes");
        }
        let block = Block { parent_id, timestamp, height, transactions };
        block.validate()?;
        Ok(block)
    }

    /// The identifier of a block: the digest of its wire form.
    pub fn id(&self) -> (r: Result<Id, String>)
        ensures
            match r {
                Ok(id) => encode_refusal(self@) is None && id == Id(sha256(block_bytes(self@))),
                Err(message) => encode_refusal(self@) == Some(message@),
            },
    {
        let encoded = self.encode()?;
        Ok(Id::digest(encoded.as_slice()))
    }
}

/// Whether the numbers of a block are those of a `Block`.
pub open spec fn in_range(block: BlockContents) -> bool {
    &&& i64::MIN <= block.timestamp <= i64::MAX
    &&& 0 <= block.height <= u64::MAX
}

/// A block that has a wire form is read back from it.
pub proof fn law_block_round_trip(block: BlockContents)
    requires
        in_range(block),
        encode_refusal(block) is None,
    ensures
        block_of(block_bytes(block)) == Ok::<BlockContents, Seq<char>>(block),
{
    let encoded = block_bytes(block);
    lemma_byte_ranges();
    lemma_header(block);
    let count = block.transactions.len();
    lemma_be_value_of_bytes(block.timestamp, 8);
    lemma_be_value_of_bytes(block.height, 8);
    lemma_be_value_of_bytes(count as int, 2);
    assert forall|i: int| 0 <= i < count implies !bad_transaction(
        #[trigger] block.transactions[i],
    ) by {}
    lemma_read_back(block.transactions, 0);
    assert(block.transactions.take(0) =~= Seq::<Seq<u8>>::empty());
    assert(block.parent_id.0@ == encoded.subrange(8, 40));
    let parent = block_parent(encoded);
    assert(parent.0@ == encoded.subrange(8, 40));
    assert(parent.0 =~= block.parent_id.0);
    assert(parent == block.parent_id);
    assert(block_of(encoded)->Ok_0 =~= block);
}

/// A wire form is that of the block read from it, so no block has two.
pub proof fn law_block_wire_is_canonical(encoded: Seq<u8>)
    requires
        block_of(encoded) is Ok,
    ensures
        block_bytes(block_of(encoded)->Ok_0) == encoded,
        encode_refusal(block_of(encoded)->Ok_0) is None,
        in_range(block_of(encoded)->Ok_0),
{
    let block = block_of(encoded)->Ok_0;
    let count = be_value(encoded.subrange(56, 58));
    lemma_byte_ranges();
    lemma_be_bytes_of_value(encoded.subrange(56, 58));
    lemma_be_bytes_of_value(encoded.subrange(40, 48));
    lemma_be_bytes_of_value(encoded.subrange(48, 56));
    lemma_written_back(seq![], encoded.skip(58), count as nat);
    let transactions = block.transactions;
    assert(transactions.skip(0) =~= transactions);
    lemma_bytes_of_suffix(transactions, 0);
    assert(block_parent(encoded).0@ == encoded.subrange(8, 40)) by {
        lemma_some_id(encoded.subrange(8, 40));
    }
    assert(block_bytes(block) =~= encoded);
}

/// Blocks with one wire form are one block.
pub proof fn law_block_wire_is_injective(left: BlockContents, right: BlockContents)
    requires
        in_range(left),
        in_range(right),
        encode_refusal(left) is None,
        encode_refusal(right) is None,
        block_bytes(left) == block_bytes(right),
    ensures
        left == right,
{
    law_block_round_trip(left);
    law_block_round_trip(right);
}

/// Thirty-two bytes are some identifier.
pub proof fn lemma_some_id(bytes: Seq<u8>)
    requires
        bytes.len() == 32,
    ensures
        exists|id: Id| id.0@ == bytes,
{
    let array: [u8; 32] = [
        bytes[0], bytes[1], bytes[2], bytes[3], bytes[4], bytes[5], bytes[6], bytes[7],
        bytes[8], bytes[9], bytes[10], bytes[11], bytes[12], bytes[13], bytes[14],
        bytes[15], bytes[16], bytes[17], bytes[18], bytes[19], bytes[20], bytes[21],
        bytes[22], bytes[23], bytes[24], bytes[25], bytes[26], bytes[27], bytes[28],
        bytes[29], bytes[30], bytes[31],
    ];
    assert(array@ =~= bytes);
    assert(Id(array).0@ == bytes);
}

/// Where the parts of a wire form stand.
proof fn lemma_header(block: BlockContents)
    ensures
        ({
            let encoded = block_bytes(block);
            &&& encoded.len() >= 58
            &&& encoded.take(8) == BLOCK_MAGIC@
            &&& encoded.subrange(8, 40) == block.parent_id.0@
            &&& encoded.subrange(40, 48) == be_bytes(block.timestamp, 8)
            &&& encoded.subrange(48, 56) == be_bytes(block.height, 8)
            &&& encoded.subrange(56, 58) == be_bytes(block.transactions.len() as int, 2)
            &&& encoded.skip(58) == transaction_bytes(block.transactions, 0)
        }),
{
    let encoded = block_bytes(block);
    lemma_be_bytes_len(block.timestamp, 8);
    lemma_be_bytes_len(block.height, 8);
    lemma_be_bytes_len(block.transactions.len() as int, 2);
    assert(encoded.take(8) =~= BLOCK_MAGIC@);
    assert(encoded.subrange(8, 40) =~= block.parent_id.0@);
    assert(encoded.subrange(40, 48) =~= be_bytes(block.timestamp, 8));
    assert(encoded.subrange(48, 56) =~= be_bytes(block.height, 8));
    assert(encoded.subrange(56, 58) =~= be_bytes(block.transactions.len() as int, 2));
    assert(encoded.skip(58) =~= transaction_bytes(block.transactions, 0));
}

proof fn lemma_read_back(transactions: Seq<Seq<u8>>, from: nat)
    requires
        from <= transactions.len(),
        forall|i: int| 0 <= i < transactions.len() ==> !bad_transaction(#[trigger] transactions[i]),
    ensures
        read_transactions(
            transactions.take(from as int),
            transaction_bytes(transactions, from),
            (transactions.len() - from) as nat,
        ) == Ok::<(Seq<Seq<u8>>, Seq<u8>), Seq<char>>((transactions, Seq::<u8>::empty())),
    decreases transactions.len() - from,
{
    let rest = transaction_bytes(transactions, from);
    if from < transactions.len() {
        let transaction = transactions[from as int];
        lemma_byte_ranges();
        lemma_be_bytes_len(transaction.len() as int, 4);
        lemma_be_value_of_bytes(transaction.len() as int, 4);
        assert(rest.take(4) =~= be_bytes(transaction.len() as int, 4));
        let after = rest.skip(4);
        assert(after.take(transaction.len() as int) =~= transaction);
        assert(after.skip(transaction.len() as int) =~= transaction_bytes(
            transactions,
            from + 1,
        ));
        assert(transactions.take(from as int).push(transaction) =~= transactions.take(
            from as int + 1,
        ));
        lemma_read_back(transactions, from + 1);
    } else {
        assert(transactions.take(from as int) =~= transactions);
        assert(rest =~= Seq::<u8>::empty());
    }
}

proof fn lemma_bytes_of_suffix(transactions: Seq<Seq<u8>>, from: nat)
    requires
        from <= transactions.len(),
    ensures
        transaction_bytes(transactions, from) == transaction_bytes(
            transactions.skip(from as int),
            0,
        ),
    decreases transactions.len() - from,
{
    if from < transactions.len() {
        let suffix = transactions.skip(from as int);
        lemma_bytes_of_suffix(transactions, from + 1);
        lemma_bytes_of_suffix(suffix, 1);
        assert(suffix.skip(1) =~= transactions.skip(from as int + 1));
    }
}

/// What is read off the front, written again, is what was read.
proof fn lemma_written_back(done: Seq<Seq<u8>>, rest: Seq<u8>, count: nat)
    requires
        read_transactions(done, rest, count) is Ok,
    ensures
        ({
            let (transactions, left) = read_transactions(done, rest, count)->Ok_0;
            &&& transactions.len() == done.len() + count
            &&& transactions.take(done.len() as int) == done
            &&& transaction_bytes(transactions.skip(done.len() as int), 0) + left == rest
        }),
    decreases count,
{
    let (transactions, left) = read_transactions(done, rest, count)->Ok_0;
    if count == 0 {
        assert(transactions.take(done.len() as int) =~= done);
        assert(transactions.skip(done.len() as int) =~= Seq::<Seq<u8>>::empty());
        assert(transaction_bytes(transactions.skip(done.len() as int), 0) + left =~= rest);
    } else {
        let length = be_value(rest.take(4));
        let after = rest.skip(4);
        let transaction = after.take(length);
        let more = done.push(transaction);
        lemma_be_bytes_of_value(rest.take(4));
        lemma_written_back(more, after.skip(length), (count - 1) as nat);
        let suffix = transactions.skip(done.len() as int);
        assert(transactions.take(done.len() as int) =~= more.take(done.len() as int)) by {
            assert(transactions.take(more.len() as int) == more);
            assert forall|i: int| 0 <= i < done.len() implies transactions[i] == more[i] by {
                assert(transactions.take(more.len() as int)[i] == more[i]);
            }
        }
        assert(more.take(done.len() as int) =~= done);
        assert(suffix[0] == transaction) by {
            assert(transactions.take(more.len() as int)[done.len() as int] == transaction);
        }
        lemma_bytes_of_suffix(suffix, 1);
        assert(suffix.skip(1) =~= transactions.skip(more.len() as int));
        let tail = transaction_bytes(suffix, 1);
        assert(tail + left == after.skip(length));
        assert(be_bytes(length, 4) == rest.take(4));
        assert(transaction_bytes(suffix, 0) == rest.take(4) + transaction + tail);
        assert(transaction_bytes(suffix, 0) + left =~= rest.take(4) + (transaction + (tail
            + left)));
        assert(transaction + after.skip(length) =~= after);
        assert(rest.take(4) + after =~= rest);
    }
}

proof fn lemma_truncated()
    ensures
        "block"@ + " is truncated"@ == "block is truncated"@,
{
    reveal_strlit("block");
    reveal_strlit(" is truncated");
    reveal_strlit("block is truncated");
    assert("block"@ + " is truncated"@ =~= "block is truncated"@);
}

} // verus!
