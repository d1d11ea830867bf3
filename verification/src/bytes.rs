//! Big-endian numbers and byte strings.

use vstd::prelude::*;

verus! {

/// The low `width` bytes of a number, most significant first.
pub open spec fn be_bytes(number: int, width: nat) -> Seq<u8>
    decreases width,
{
    if width == 0 {
        seq![]
    } else {
        be_bytes(number / 256, (width - 1) as nat).push((number % 256) as u8)
    }
}

/// The number that bytes stand for, most significant first.
pub open spec fn be_value(bytes: Seq<u8>) -> int
    decreases bytes.len(),
{
    if bytes.len() == 0 {
        0
    } else {
        be_value(bytes.drop_last()) * 256 + bytes.last()
    }
}

/// 256 to the power of `width`.
pub open spec fn byte_range(width: nat) -> int
    decreases width,
{
    if width == 0 {
        1
    } else {
        256 * byte_range((width - 1) as nat)
    }
}

/// A big-endian encoding has the width asked for.
pub proof fn lemma_be_bytes_len(number: int, width: nat)
    ensures
        be_bytes(number, width).len() == width,
    decreases width,
{
    if width > 0 {
        lemma_be_bytes_len(number / 256, (width - 1) as nat);
    }
}

/// The number written in enough bytes is read back.
pub proof fn lemma_be_value_of_bytes(number: int, width: nat)
    requires
        0 <= number < byte_range(width),
    ensures
        be_value(be_bytes(number, width)) == number,
    decreases width,
{
    lemma_be_bytes_len(number, width);
    if width > 0 {
        lemma_be_value_of_bytes(number / 256, (width - 1) as nat);
        assert(be_bytes(number, width).drop_last() =~= be_bytes(number / 256, (width - 1) as nat));
    }
}

/// The bytes read as a number are written back.
pub proof fn lemma_be_bytes_of_value(bytes: Seq<u8>)
    ensures
        be_bytes(be_value(bytes), bytes.len()) == bytes,
        0 <= be_value(bytes) < byte_range(bytes.len()),
    decreases bytes.len(),
{
    if bytes.len() > 0 {
        lemma_be_bytes_of_value(bytes.drop_last());
        let value = be_value(bytes);
        let front = be_value(bytes.drop_last());
        assert(value / 256 == front && value % 256 == bytes.last());
        assert(be_bytes(value, bytes.len()) =~= bytes);
    } else {
        assert(be_bytes(0, 0) =~= bytes);
    }
}

/// The ranges of the widths in use.
pub proof fn lemma_byte_ranges()
    ensures
        byte_range(2) == 0x1_0000,
        byte_range(4) == 0x1_0000_0000,
        byte_range(8) == 0x1_0000_0000_0000_0000,
{
    reveal_with_fuel(byte_range, 9);
}

/// Appends bytes.
pub fn append(out: &mut Vec<u8>, bytes: &[u8])
    ensures
        final(out)@ == old(out)@ + bytes@,
{
    let mut index: usize = 0;
    let ghost before = out@;
    while index < bytes.len()
        invariant
            index <= bytes@.len(),
            out@ == before + bytes@.take(index as int),
        decreases bytes@.len() - index,
    {
        out.push(bytes[index]);
        assert(out@ =~= before + bytes@.take(index + 1));
        index = index + 1;
    }
    assert(bytes@.take(bytes@.len() as int) =~= bytes@);
}

/// Appends the low `width` bytes of a number, most significant first.
pub fn append_be(out: &mut Vec<u8>, number: u64, width: usize)
    requires
        width <= 8,
    ensures
        final(out)@ == old(out)@ + be_bytes(number as int, width as nat),
    decreases width,
{
    if width > 0 {
        let ghost before = out@;
        append_be(out, number / 256, width - 1);
        let low: u64 = number % 256;
        out.push(low as u8);
        assert(out@ =~= before + be_bytes(number as int, width as nat));
    } else {
        assert(out@ =~= old(out)@ + be_bytes(number as int, 0));
    }
}

/// The number in at most eight bytes.
pub fn read_be(bytes: &[u8]) -> (r: u64)
    requires
        bytes@.len() <= 8,
    ensures
        r == be_value(bytes@),
{
    let mut value: u64 = 0;
    let mut index: usize = 0;
    proof {
        lemma_byte_ranges();
        reveal_with_fuel(byte_range, 9);
    }
    while index < bytes.len()
        invariant
            index <= bytes@.len() <= 8,
            value == be_value(bytes@.take(index as int)),
            value < byte_range(index as nat),
        decreases bytes@.len() - index,
    {
        proof {
            reveal_with_fuel(byte_range, 9);
            assert(bytes@.take(index + 1).drop_last() =~= bytes@.take(index as int));
            assert(byte_range((index + 1) as nat) == 256 * byte_range(index as nat));
            assert(byte_range((index + 1) as nat) <= 0x1_0000_0000_0000_0000) by {
                assert(index == 0 || index == 1 || index == 2 || index == 3 || index == 4 || index
                    == 5 || index == 6 || index == 7);
            }
        }
        value = value * 256 + bytes[index] as u64;
        index = index + 1;
    }
    assert(bytes@.take(bytes@.len() as int) =~= bytes@);
    value
}

/// The signed reading of a 64-bit pattern.
pub open spec fn signed(pattern: int) -> int {
    if pattern < 0x8000_0000_0000_0000 {
        pattern
    } else {
        pattern - 0x1_0000_0000_0000_0000
    }
}

/// The signed reading of a 64-bit pattern.
pub fn to_signed(pattern: u64) -> (r: i64)
    ensures
        r == signed(pattern as int),
{
    if pattern < 0x8000_0000_0000_0000 {
        pattern as i64
    } else {
        let below: u64 = u64::MAX - pattern;
        -1 - (below as i64)
    }
}

/// Whether two byte strings are the same.
pub fn same_bytes(left: &[u8], right: &[u8]) -> (r: bool)
    ensures
        r == (left@ == right@),
{
    if left.len() != right.len() {
        return false;
    }
    let mut index: usize = 0;
    while index < left.len()
        invariant
            index <= left@.len() == right@.len(),
            forall|i: int| 0 <= i < index ==> left@[i] == right@[i],
        decreases left@.len() - index,
    {
        if left[index] != right[index] {
            return false;
        }
        index = index + 1;
    }
    assert(left@ =~= right@);
    true
}

/// A copy of bytes.
pub fn copied(bytes: &Vec<u8>) -> (r: Vec<u8>)
    ensures
        r@ == bytes@,
{
    let mut copy: Vec<u8> = Vec::new();
    append(&mut copy, bytes.as_slice());
    assert(copy@ =~= bytes@);
    copy
}

} // verus!
