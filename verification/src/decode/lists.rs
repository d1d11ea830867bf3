//! Reading lists, and copying verdicts.

use vstd::prelude::*;
use vstd::string::*;

use crate::id::Id;
use crate::text::{decimal, decimal_text, hex_id, hex_id_of, hex_refusal, join};

verus! {

/// A refusal of more items than a limit.
pub open spec fn limit_refusal(count: nat, limit: nat, message: Seq<char>) -> Option<Seq<char>> {
    if count > limit {
        Some(message)
    } else {
        None
    }
}

/// The name of an item of a list: the name of the list with the place of the
/// item in brackets.
pub open spec fn indexed_name(field: Seq<char>, list: Seq<char>, index: int) -> Seq<char> {
    field + list + decimal(index) + "]"@
}

/// The name of an item of a list.
pub fn indexed(field: &str, list: &str, index: usize) -> (r: String)
    ensures
        r@ == indexed_name(field@, list@, index as int),
{
    let mut name = join(field, list);
    name.append(decimal_text(index as u64).as_str());
    name.append("]");
    name
}

/// Why one of the texts from `from` on is not 32 bytes in hexadecimal.
pub open spec fn ids_refusal(texts: Seq<String>, name: Seq<char>, from: nat) -> Option<Seq<char>>
    decreases texts.len() - from,
{
    if from >= texts.len() {
        None
    } else if hex_refusal(texts[from as int]@, name, 32) is Some {
        hex_refusal(texts[from as int]@, name, 32)
    } else {
        ids_refusal(texts, name, from + 1)
    }
}

/// The values of texts of 32 bytes in hexadecimal.
pub open spec fn ids_of(texts: Seq<String>) -> Seq<Id> {
    Seq::new(texts.len(), |i: int| hex_id_of(texts[i]@))
}

/// Reads texts of 32 bytes in hexadecimal.
pub fn read_ids(texts: &Vec<String>, name: &str) -> (r: Result<Vec<Id>, String>)
    ensures
        match r {
            Ok(ids) => ids_refusal(texts@, name@, 0) is None && ids@ == ids_of(texts@),
            Err(message) => ids_refusal(texts@, name@, 0) == Some(message@),
        },
{
    let mut ids: Vec<Id> = Vec::new();
    let mut index: usize = 0;
    while index < texts.len()
        invariant
            index <= texts@.len(),
            ids@ == ids_of(texts@).take(index as int),
            ids_refusal(texts@, name@, 0) == ids_refusal(texts@, name@, index as nat),
        decreases texts@.len() - index,
    {
        let id = hex_id(texts[index].as_str(), name)?;
        ids.push(id);
        assert(ids@ =~= ids_of(texts@).take(index + 1));
        index = index + 1;
    }
    assert(ids@ =~= ids_of(texts@));
    Ok(ids)
}

/// A copy of a verdict.
pub fn copy_shape(shape: &Result<(), String>) -> (r: Result<(), String>)
    ensures
        r == *shape,
{
    match shape {
        Ok(unit) => Ok(*unit),
        Err(message) => Err(message.clone()),
    }
}

/// A copy of a statement.
pub fn copy_statement(statement: &Result<Id, String>) -> (r: Result<Id, String>)
    ensures
        r == *statement,
{
    match statement {
        Ok(value) => Ok(*value),
        Err(message) => Err(message.clone()),
    }
}

/// Whether two messages are the same.
pub open spec fn same_message(
    left: Result<Vec<u8>, String>,
    right: Result<Vec<u8>, String>,
) -> bool {
    match (left, right) {
        (Ok(left), Ok(right)) => left@ == right@,
        (Err(left), Err(right)) => left@ == right@,
        _ => false,
    }
}

/// A copy of a message.
pub fn copy_message(message: &Result<Vec<u8>, String>) -> (r: Result<Vec<u8>, String>)
    ensures
        same_message(r, *message),
{
    match message {
        Ok(bytes) => {
            let mut copy: Vec<u8> = Vec::new();
            crate::bytes::append(&mut copy, bytes.as_slice());
            assert(copy@ =~= bytes@);
            Ok(copy)
        },
        Err(reason) => Err(reason.clone()),
    }
}

} // verus!
