//! Building and reading text: joined names, decimal numbers and hexadecimal.

use vstd::prelude::*;
use vstd::string::*;
use vstd::utf8::encode_utf8;

use crate::id::Id;

verus! {

/// The two texts, one after the other.
pub fn join(left: &str, right: &str) -> (r: String)
    ensures
        r@ == left@ + right@,
{
    let mut joined = left.to_owned();
    joined.append(right);
    joined
}

/// Text is determined by its bytes.
pub proof fn lemma_same_encoding(left: Seq<char>, right: Seq<char>)
    requires
        encode_utf8(left) == encode_utf8(right),
    ensures
        left == right,
{
    vstd::utf8::encode_utf8_decode_utf8(left);
    vstd::utf8::encode_utf8_decode_utf8(right);
}

/// Whether two texts are the same.
pub fn same_text(left: &str, right: &str) -> (r: bool)
    ensures
        r == (left@ == right@),
{
    let same = crate::bytes::same_bytes(left.as_bytes(), right.as_bytes());
    proof {
        if same {
            lemma_same_encoding(left@, right@);
        }
    }
    same
}

/// The character of a decimal digit.
pub open spec fn digit_char(digit: int) -> char {
    (48 + digit) as char
}

/// A number in decimal, without leading zeros.
pub open spec fn decimal(number: int) -> Seq<char>
    decreases number,
{
    if number < 10 {
        seq![digit_char(number)]
    } else {
        decimal(number / 10).push(digit_char(number % 10))
    }
}

fn digit_text(digit: u64) -> (r: &'static str)
    requires
        digit < 10,
    ensures
        r@ == seq![digit_char(digit as int)],
{
    proof {
        reveal_strlit("0");
        reveal_strlit("1");
        reveal_strlit("2");
        reveal_strlit("3");
        reveal_strlit("4");
        reveal_strlit("5");
        reveal_strlit("6");
        reveal_strlit("7");
        reveal_strlit("8");
        reveal_strlit("9");
    }
    match digit {
        0 => "0",
        1 => "1",
        2 => "2",
        3 => "3",
        4 => "4",
        5 => "5",
        6 => "6",
        7 => "7",
        8 => "8",
        _ => "9",
    }
}

/// A number in decimal, as text.
pub fn decimal_text(number: u64) -> (r: String)
    ensures
        r@ == decimal(number as int),
    decreases number,
{
    if number < 10 {
        let text = digit_text(number).to_owned();
        text
    } else {
        let mut text = decimal_text(number / 10);
        text.append(digit_text(number % 10));
        assert(text@ =~= decimal(number as int));
        text
    }
}

/// Whether a byte is a hexadecimal digit.
pub open spec fn is_hex_digit(byte: u8) -> bool {
    48 <= byte <= 57 || 65 <= byte <= 70 || 97 <= byte <= 102
}

/// The value of a hexadecimal digit.
pub open spec fn hex_digit_value(byte: u8) -> int {
    if byte <= 57 {
        byte - 48
    } else if byte <= 70 {
        byte - 55
    } else {
        byte - 87
    }
}

/// Whether bytes are hexadecimal text: pairs of digits.
pub open spec fn is_hex(text: Seq<u8>) -> bool {
    &&& text.len() % 2 == 0
    &&& forall|i: int| 0 <= i < text.len() ==> is_hex_digit(#[trigger] text[i])
}

/// The bytes that hexadecimal text stands for, one for each pair of digits.
pub open spec fn hex_bytes(text: Seq<u8>) -> Seq<u8> {
    Seq::new(
        text.len() / 2,
        |i: int| (hex_digit_value(text[2 * i]) * 16 + hex_digit_value(text[2 * i + 1])) as u8,
    )
}

/// Calls `hex::decode`. It gives the bytes that pairs of hexadecimal digits of
/// either case stand for, and fails on any other text.
#[verifier::external_body]
fn decode_hex(text: &str) -> (r: Result<Vec<u8>, ()>)
    ensures
        match r {
            Ok(bytes) => is_hex(encode_utf8(text@)) && bytes@ == hex_bytes(encode_utf8(text@)),
            Err(_) => !is_hex(encode_utf8(text@)),
        },
{
    hex::decode(text).map_err(|_| ())
}

/// Decodes hexadecimal text to bytes.
pub fn hex_vec(text: &str) -> (r: Option<Vec<u8>>)
    ensures
        match r {
            Some(bytes) => is_hex(encode_utf8(text@)) && bytes@ == hex_bytes(encode_utf8(text@)),
            None => !is_hex(encode_utf8(text@)),
        },
{
    match decode_hex(text) {
        Ok(bytes) => Some(bytes),
        Err(_) => None,
    }
}

/// The refusal of text under `name` that should be `width` bytes in
/// hexadecimal; `None` for text that is.
pub open spec fn hex_refusal(text: Seq<char>, name: Seq<char>, width: int) -> Option<Seq<char>> {
    let bytes = encode_utf8(text);
    if !is_hex(bytes) {
        Some(name + " is not hexadecimal"@)
    } else if hex_bytes(bytes).len() != width {
        Some(
            name + " has "@ + decimal(hex_bytes(bytes).len() as int) + " bytes; expected "@
                + decimal(width),
        )
    } else {
        None
    }
}

/// Reads `N` bytes of hexadecimal text.
pub fn hex_array<const N: usize>(value: &str, name: &str) -> (r: Result<[u8; N], String>)
    ensures
        match r {
            Ok(bytes) => hex_refusal(value@, name@, N as int) is None && bytes@ == hex_bytes(
                encode_utf8(value@),
            ),
            Err(message) => hex_refusal(value@, name@, N as int) == Some(message@),
        },
{
    match hex_vec(value) {
        None => Err(join(name, " is not hexadecimal")),
        Some(bytes) => {
            if bytes.len() != N {
                let mut message = join(name, " has ");
                message.append(decimal_text(bytes.len() as u64).as_str());
                message.append(" bytes; expected ");
                message.append(decimal_text(N as u64).as_str());
                return Err(message);
            }
            let mut array = [0u8;N];
            let mut index: usize = 0;
            while index < N
                invariant
                    index <= N,
                    bytes@.len() == N,
                    array@.len() == N,
                    forall|i: int| 0 <= i < index ==> array@[i] == bytes@[i],
                decreases N - index,
            {
                array[index] = bytes[index];
                index = index + 1;
            }
            assert(array@ =~= bytes@);
            Ok(array)
        },
    }
}

/// The value of hexadecimal text of 32 bytes.
pub open spec fn hex_id_of(text: Seq<char>) -> Id {
    choose|id: Id| id.0@ == hex_bytes(encode_utf8(text))
}

/// Reads 32 bytes of hexadecimal text.
pub fn hex_id(value: &str, name: &str) -> (r: Result<Id, String>)
    ensures
        match r {
            Ok(id) => hex_refusal(value@, name@, 32) is None && id == hex_id_of(value@),
            Err(message) => hex_refusal(value@, name@, 32) == Some(message@),
        },
{
    let bytes = hex_array::<32>(value, name)?;
    let id = Id(bytes);
    proof {
        assert(id.0@ == hex_bytes(encode_utf8(value@)));
        let chosen = hex_id_of(value@);
        assert(chosen.0@ == hex_bytes(encode_utf8(value@)));
        assert(chosen.0 =~= id.0);
    }
    Ok(id)
}

} // verus!
