//! Transaction parameters: their keys, and hexadecimal text in them.

use vstd::prelude::*;
use vstd::string::*;
use vstd::utf8::{encode_utf8, is_ascii_chars, is_ascii_chars_encode_utf8};

use crate::outcome::verdict;
use crate::text::{hex_bytes, hex_digit_value, hex_vec, is_hex, join, same_text};

verus! {

/// A JSON value. The members of an object are in the order of their names.
#[derive(Debug)]
pub enum Json {
    Null,
    Bool(bool),
    Unsigned(u64),
    Negative(i64),
    Decimal(String),
    Text(String),
    Array(Vec<Json>),
    Object(Vec<Member>),
}

/// A member of an object.
#[derive(Debug)]
pub struct Member {
    pub name: String,
    pub value: Json,
}

/// A JSON value as a mathematical tree.
pub enum Tree {
    Null,
    Bool(bool),
    Unsigned(u64),
    Negative(i64),
    Decimal(Seq<char>),
    Text(Seq<char>),
    Array(Seq<Tree>),
    Object(Seq<(Seq<char>, Tree)>),
}

/// The tree of a value.
pub open spec fn tree(value: Json) -> Tree
    decreases value,
{
    match value {
        Json::Null => Tree::Null,
        Json::Bool(flag) => Tree::Bool(flag),
        Json::Unsigned(number) => Tree::Unsigned(number),
        Json::Negative(number) => Tree::Negative(number),
        Json::Decimal(text) => Tree::Decimal(text@),
        Json::Text(text) => Tree::Text(text@),
        Json::Array(values) => Tree::Array(
            Seq::new(
                values@.len(),
                |i: int|
                    if 0 <= i < values@.len() {
                        tree(values@[i])
                    } else {
                        Tree::Null
                    },
            ),
        ),
        Json::Object(members) => Tree::Object(
            Seq::new(
                members@.len(),
                |i: int|
                    if 0 <= i < members@.len() {
                        (members@[i].name@, tree(members@[i].value))
                    } else {
                        (Seq::<char>::empty(), Tree::Null)
                    },
            ),
        ),
    }
}

/// The lower-case form of an ASCII letter; other bytes are themselves.
pub open spec fn lower(byte: u8) -> u8 {
    if 65 <= byte <= 90 {
        (byte + 32) as u8
    } else {
        byte
    }
}

/// Whether `word` stands at a place of a text, in letters of either case.
pub open spec fn word_at(text: Seq<u8>, word: Seq<u8>, at: int) -> bool {
    &&& 0 <= at
    &&& at + word.len() <= text.len()
    &&& forall|i: int| 0 <= i < word.len() ==> lower(#[trigger] text[at + i]) == word[i]
}

/// Whether a name holds the word `signature`, in letters of either case.
pub open spec fn names_signature(name: Seq<char>) -> bool {
    exists|at: int| word_at(encode_utf8(name), encode_utf8("signature"@), at)
}

fn has_word(text: &[u8], word: &[u8], at: usize) -> (r: bool)
    requires
        at <= text@.len(),
    ensures
        r == word_at(text@, word@, at as int),
{
    let total: usize = text.len();
    if total - at < word.len() {
        return false;
    }
    let mut index: usize = 0;
    while index < word.len()
        invariant
            index <= word@.len(),
            at + word@.len() <= total == text@.len(),
            forall|i: int| 0 <= i < index ==> lower(#[trigger] text@[at + i]) == word@[i],
        decreases word@.len() - index,
    {
        let byte = text[at + index];
        let lowered: u8 = if byte >= 65 && byte <= 90 {
            byte + 32
        } else {
            byte
        };
        if lowered != word[index] {
            assert(lower(text@[at + index]) != word@[index as int]);
            return false;
        }
        index = index + 1;
    }
    true
}

fn does_name_signature(name: &str) -> (r: bool)
    ensures
        r == names_signature(name@),
{
    let text = name.as_bytes();
    let word = "signature".as_bytes();
    let mut at: usize = 0;
    while at < text.len()
        invariant
            at <= text@.len(),
            text@ == encode_utf8(name@),
            word@ == encode_utf8("signature"@),
            forall|i: int| 0 <= i < at ==> !word_at(text@, word@, i),
        decreases text@.len() - at,
    {
        if has_word(text, word, at) {
            return true;
        }
        at = at + 1;
    }
    let last = has_word(text, word, at);
    proof {
        assert forall|i: int| !last implies !word_at(text@, word@, i) by {
            if i > text@.len() {
                assert(i + word@.len() > text@.len());
            }
        }
    }
    last
}

/// Whether text under a name stands for bytes: it has the length of 32 bytes in
/// hexadecimal, or the name is that of a signature.
pub open spec fn stands_for_bytes(text: Seq<char>, name: Option<Seq<char>>) -> bool {
    encode_utf8(text).len() == 64 || (name is Some && names_signature(name->0))
}

/// What a value under no name is called.
pub open spec fn called(name: Option<Seq<char>>) -> Seq<char> {
    match name {
        Some(name) => name,
        None => "field"@,
    }
}

/// Why the text of a value under a name cannot be turned into bytes: the first
/// text that should be hexadecimal and is not. The members of an object come
/// under their own names, the items of an array under that of the array.
pub open spec fn normalize_refusal(value: Tree, name: Option<Seq<char>>) -> Option<Seq<char>>
    decreases value, 0nat,
{
    match value {
        Tree::Text(text) => if stands_for_bytes(text, name) && !is_hex(encode_utf8(text)) {
            Some(called(name) + " is not hexadecimal"@)
        } else {
            None
        },
        Tree::Array(values) => items_refusal(values, name, 0),
        Tree::Object(members) => members_refusal(members, 0),
        _ => None,
    }
}

/// Why one of the items from `from` on is refused.
pub open spec fn items_refusal(values: Seq<Tree>, name: Option<Seq<char>>, from: nat) -> Option<
    Seq<char>,
>
    decreases values, values.len() - from,
{
    if from >= values.len() {
        None
    } else if normalize_refusal(values[from as int], name) is Some {
        normalize_refusal(values[from as int], name)
    } else {
        items_refusal(values, name, from + 1)
    }
}

/// Why one of the members from `from` on is refused.
pub open spec fn members_refusal(members: Seq<(Seq<char>, Tree)>, from: nat) -> Option<Seq<char>>
    decreases members, members.len() - from,
{
    if from >= members.len() {
        None
    } else if normalize_refusal(members[from as int].1, Some(members[from as int].0)) is Some {
        normalize_refusal(members[from as int].1, Some(members[from as int].0))
    } else {
        members_refusal(members, from + 1)
    }
}

/// Bytes as an array of numbers.
pub open spec fn byte_array(bytes: Seq<u8>) -> Tree {
    Tree::Array(Seq::new(bytes.len(), |i: int| Tree::Unsigned(bytes[i] as u64)))
}

/// The value with its hexadecimal text turned into arrays of bytes. Other text
/// stays as it is.
pub open spec fn normalized(value: Tree, name: Option<Seq<char>>) -> Tree
    decreases value,
{
    match value {
        Tree::Text(text) => if stands_for_bytes(text, name) {
            byte_array(hex_bytes(encode_utf8(text)))
        } else {
            value
        },
        Tree::Array(values) => Tree::Array(
            Seq::new(
                values.len(),
                |i: int|
                    if 0 <= i < values.len() {
                        normalized(values[i], name)
                    } else {
                        Tree::Null
                    },
            ),
        ),
        Tree::Object(members) => Tree::Object(
            Seq::new(
                members.len(),
                |i: int|
                    if 0 <= i < members.len() {
                        (members[i].0, normalized(members[i].1, Some(members[i].0)))
                    } else {
                        (Seq::<char>::empty(), Tree::Null)
                    },
            ),
        ),
        _ => value,
    }
}

/// The view of an optional name.
pub open spec fn named(name: Option<&str>) -> Option<Seq<char>> {
    match name {
        Some(name) => Some(name@),
        None => None,
    }
}

fn bytes_value(bytes: &Vec<u8>) -> (r: Json)
    ensures
        tree(r) == byte_array(bytes@),
{
    let mut values: Vec<Json> = Vec::new();
    let mut index: usize = 0;
    while index < bytes.len()
        invariant
            index <= bytes@.len(),
            values@.len() == index,
            forall|i: int| 0 <= i < index ==> values@[i] == Json::Unsigned(bytes@[i] as u64),
        decreases bytes@.len() - index,
    {
        values.push(Json::Unsigned(bytes[index] as u64));
        index = index + 1;
    }
    let value = Json::Array(values);
    proof {
        match (tree(value), byte_array(bytes@)) {
            (Tree::Array(left), Tree::Array(right)) => {
                assert forall|i: int| 0 <= i < left.len() implies left[i] == right[i] by {
                    assert(tree(values@[i]) == Tree::Unsigned(bytes@[i] as u64));
                }
                assert(left =~= right);
            },
            _ => {},
        }
    }
    value
}

/// Turns the hexadecimal text of a value into arrays of bytes. Only text of the
/// length of 32 bytes and signatures are touched.
pub fn normalize_hex(value: &Json, name: Option<&str>) -> (r: Result<Json, String>)
    ensures
        match r {
            Ok(result) => {
                &&& normalize_refusal(tree(*value), named(name)) is None
                &&& tree(result) == normalized(tree(*value), named(name))
            },
            Err(message) => normalize_refusal(tree(*value), named(name)) == Some(message@),
        },
    decreases *value,
{
    match value {
        Json::Null => Ok(Json::Null),
        Json::Bool(flag) => Ok(Json::Bool(*flag)),
        Json::Unsigned(number) => Ok(Json::Unsigned(*number)),
        Json::Negative(number) => Ok(Json::Negative(*number)),
        Json::Decimal(text) => Ok(Json::Decimal(text.clone())),
        Json::Text(text) => {
            let wanted = text.as_str().as_bytes().len() == 64 || (match name {
                Some(name) => does_name_signature(name),
                None => false,
            });
            if !wanted {
                return Ok(Json::Text(text.clone()));
            }
            match hex_vec(text.as_str()) {
                Some(bytes) => Ok(bytes_value(&bytes)),
                None => Err(
                    match name {
                        Some(name) => join(name, " is not hexadecimal"),
                        None => join("field", " is not hexadecimal"),
                    },
                ),
            }
        },
        Json::Array(values) => {
            let mut items: Vec<Json> = Vec::new();
            let ghost trees = tree(*value)->Array_0;
            let mut index: usize = 0;
            while index < values.len()
                invariant
                    index <= values@.len(),
                    items@.len() == index,
                    *value == Json::Array(*values),
                    trees.len() == values@.len(),
                    forall|i: int| 0 <= i < values@.len() ==> trees[i] == tree(
                        #[trigger] values@[i],
                    ),
                    forall|i: int|
                        0 <= i < index ==> tree(#[trigger] items@[i]) == normalized(
                            trees[i],
                            named(name),
                        ),
                    items_refusal(trees, named(name), 0) == items_refusal(
                        trees,
                        named(name),
                        index as nat,
                    ),
                    normalize_refusal(tree(*value), named(name)) == items_refusal(
                        trees,
                        named(name),
                        0,
                    ),
                decreases values@.len() - index,
            {
                let item = normalize_hex(&values[index], name)?;
                items.push(item);
                index = index + 1;
            }
            let result = Json::Array(items);
            proof {
                let left = tree(result)->Array_0;
                let right = normalized(tree(*value), named(name))->Array_0;
                assert forall|i: int| 0 <= i < left.len() implies left[i] == right[i] by {
                    assert(tree(items@[i]) == normalized(trees[i], named(name)));
                }
                assert(left =~= right);
            }
            Ok(result)
        },
        Json::Object(members) => {
            let mut items: Vec<Member> = Vec::new();
            let ghost trees = tree(*value)->Object_0;
            let mut index: usize = 0;
            while index < members.len()
                invariant
                    index <= members@.len(),
                    items@.len() == index,
                    *value == Json::Object(*members),
                    trees.len() == members@.len(),
                    forall|i: int|
                        0 <= i < members@.len() ==> trees[i] == (
                            (#[trigger] members@[i]).name@,
                            tree(members@[i].value),
                        ),
                    forall|i: int|
                        0 <= i < index ==> (#[trigger] items@[i]).name@ == trees[i].0 && tree(
                            items@[i].value,
                        ) == normalized(trees[i].1, Some(trees[i].0)),
                    members_refusal(trees, 0) == members_refusal(trees, index as nat),
                    normalize_refusal(tree(*value), named(name)) == members_refusal(trees, 0),
                decreases members@.len() - index,
            {
                let member = &members[index];
                assert(decreases_to!(members@ => members@[index as int]));
                let item = normalize_hex(&member.value, Some(member.name.as_str()))?;
                items.push(Member { name: member.name.clone(), value: item });
                index = index + 1;
            }
            let result = Json::Object(items);
            proof {
                let left = tree(result)->Object_0;
                let right = normalized(tree(*value), named(name))->Object_0;
                assert forall|i: int| 0 <= i < left.len() implies left[i] == right[i] by {
                    assert(items@[i].name@ == trees[i].0);
                }
                assert(left =~= right);
            }
            Ok(result)
        },
    }
}

/// Whether a name is among the keys.
pub open spec fn has_key(keys: Seq<String>, name: Seq<char>) -> bool {
    exists|i: int| 0 <= i < keys.len() && (#[trigger] keys[i])@ == name
}

fn is_key(keys: &Vec<String>, name: &str) -> (r: bool)
    ensures
        r == has_key(keys@, name@),
{
    let mut index: usize = 0;
    while index < keys.len()
        invariant
            index <= keys@.len(),
            forall|i: int| 0 <= i < index ==> (#[trigger] keys@[i])@ != name@,
        decreases keys@.len() - index,
    {
        if same_text(keys[index].as_str(), name) {
            assert(keys@[index as int]@ == name@);
            return true;
        }
        index = index + 1;
    }
    false
}

/// The names from `from` on, with a comma and a space between them.
pub open spec fn listed(names: Seq<&str>, from: nat) -> Seq<char>
    decreases names.len() - from,
{
    if from >= names.len() {
        seq![]
    } else if from + 1 == names.len() {
        names[from as int]@
    } else {
        names[from as int]@ + ", "@ + listed(names, from + 1)
    }
}

fn list_names(names: &[&str]) -> (r: String)
    ensures
        r@ == listed(names@, 0),
{
    let mut text = String::new();
    let mut index: usize = 0;
    assert(text@ + listed(names@, 0) =~= listed(names@, 0));
    while index < names.len()
        invariant
            index <= names@.len(),
            text@ + listed(names@, index as nat) == listed(names@, 0),
        decreases names@.len() - index,
    {
        let ghost before = text@;
        text.append(names[index]);
        if index + 1 < names.len() {
            text.append(", ");
        } else {
            assert(listed(names@, (index + 1) as nat) =~= Seq::<char>::empty());
        }
        assert(text@ + listed(names@, (index + 1) as nat) =~= before + listed(
            names@,
            index as nat,
        ));
        index = index + 1;
    }
    assert(text@ + listed(names@, index as nat) =~= text@);
    text
}

/// Why parameters do not have exactly the expected keys.
pub open spec fn keys_refusal(keys: Seq<String>, expected: Seq<&str>) -> Option<Seq<char>> {
    if keys.len() != expected.len() || exists|i: int|
        0 <= i < expected.len() && !has_key(keys, (#[trigger] expected[i])@) {
        Some("transaction parameters must contain exactly "@ + listed(expected, 0))
    } else {
        None
    }
}

/// Checks that parameters have exactly the expected keys.
pub fn require_keys(keys: &Vec<String>, expected: &[&str]) -> (r: Result<(), String>)
    ensures
        verdict(r, keys_refusal(keys@, expected@)),
{
    let mut exact = keys.len() == expected.len();
    let mut index: usize = 0;
    while index < expected.len()
        invariant
            index <= expected@.len(),
            exact == (keys@.len() == expected@.len() && forall|i: int|
                0 <= i < index ==> has_key(keys@, (#[trigger] expected@[i])@)),
        decreases expected@.len() - index,
    {
        if !is_key(keys, expected[index]) {
            assert(!has_key(keys@, expected@[index as int]@));
            exact = false;
        }
        index = index + 1;
    }
    if !exact {
        return Err(
            join("transaction parameters must contain exactly ", list_names(expected).as_str()),
        );
    }
    Ok(())
}

/// The keys of a receivable artifact, with a subject's proof where there is one.
pub open spec fn artifact_keys_refusal(keys: Seq<String>) -> Option<Seq<char>> {
    if has_key(keys, "subjectProof"@) {
        keys_refusal(keys, seq!["request", "subjectProof", "approval", "expectedBeforeRoot"])
    } else {
        keys_refusal(keys, seq!["request", "approval", "expectedBeforeRoot"])
    }
}

/// Checks the keys of a receivable artifact.
pub fn require_aethel_artifact_keys(keys: &Vec<String>) -> (r: Result<(), String>)
    ensures
        verdict(r, artifact_keys_refusal(keys@)),
{
    if is_key(keys, "subjectProof") {
        let expected = ["request", "subjectProof", "approval", "expectedBeforeRoot"];
        assert(expected@ =~= seq!["request", "subjectProof", "approval", "expectedBeforeRoot"]);
        require_keys(keys, &expected)
    } else {
        let expected = ["request", "approval", "expectedBeforeRoot"];
        assert(expected@ =~= seq!["request", "approval", "expectedBeforeRoot"]);
        require_keys(keys, &expected)
    }
}

/// A value with its text turned into bytes is not changed, nor refused, by doing
/// so again.
pub proof fn law_normalizing_again_changes_nothing(value: Tree, name: Option<Seq<char>>)
    ensures
        normalized(normalized(value, name), name) == normalized(value, name),
        normalize_refusal(normalized(value, name), name) is None,
    decreases value,
{
    match value {
        Tree::Text(text) => {
            if stands_for_bytes(text, name) {
                let items = normalized(value, name)->Array_0;
                assert forall|i: int| 0 <= i < items.len() implies settled(
                    #[trigger] items[i],
                    name,
                ) by {
                    assert(items[i] is Unsigned);
                }
                lemma_items_settled(items, name);
            }
        },
        Tree::Array(values) => {
            let items = normalized(value, name)->Array_0;
            assert forall|i: int| 0 <= i < items.len() implies settled(
                #[trigger] items[i],
                name,
            ) by {
                law_normalizing_again_changes_nothing(values[i], name);
            }
            lemma_items_settled(items, name);
        },
        Tree::Object(members) => {
            let parts = normalized(value, name)->Object_0;
            assert forall|i: int| 0 <= i < parts.len() implies settled(
                (#[trigger] parts[i]).1,
                Some(parts[i].0),
            ) by {
                law_normalizing_again_changes_nothing(members[i].1, Some(members[i].0));
            }
            lemma_members_settled(parts, name);
        },
        _ => {},
    }
}

/// A text of 64 bytes, or under the name of a signature in whatever case, is taken
/// exactly where it is hexadecimal, and becomes the list of the bytes that its pairs
/// of digits stand for. Every other text stays as it is.
pub proof fn law_which_texts_become_bytes(text: Seq<char>, name: Option<Seq<char>>)
    ensures
        ({
            let encoded = encode_utf8(text);
            let value = normalized(Tree::Text(text), name);
            let refused = normalize_refusal(Tree::Text(text), name) is Some;
            let word = encode_utf8("signature"@);
            let signature = name is Some && exists|at: int|
                0 <= at && at + word.len() <= encode_utf8(name->0).len()
                    && #[trigger] spelled_at(encode_utf8(name->0), word, at);
            if encoded.len() == 64 || signature {
                &&& refused == !is_hex(encoded)
                &&& !refused ==> {
                    &&& value is Array
                    &&& value->Array_0.len() == encoded.len() / 2
                    &&& forall|i: int|
                        0 <= i < encoded.len() / 2 ==> #[trigger] value->Array_0[i]
                            == Tree::Unsigned(
                            (16 * hex_digit_value(encoded[2 * i]) + hex_digit_value(
                                encoded[2 * i + 1],
                            )) as u8 as u64,
                        )
                }
            } else {
                !refused && value == Tree::Text(text)
            }
        }),
{
    let encoded = encode_utf8(text);
    let word = encode_utf8("signature"@);
    if name is Some {
        let bytes = encode_utf8(name->0);
        assert forall|at: int| #[trigger] word_at(bytes, word, at) == (0 <= at && at + word.len()
            <= bytes.len() && spelled_at(bytes, word, at)) by {
            if word_at(bytes, word, at) {
                assert forall|i: int| 0 <= i < word.len() implies {
                    ||| #[trigger] bytes[at + i] == word[i]
                    ||| 65 <= bytes[at + i] <= 90 && bytes[at + i] + 32 == word[i]
                } by {
                    assert(lower(bytes[at + i]) == word[i]);
                }
            }
            if 0 <= at && at + word.len() <= bytes.len() && spelled_at(bytes, word, at) {
                assert forall|i: int| 0 <= i < word.len() implies lower(#[trigger] bytes[at + i])
                    == word[i] by {
                    lemma_signature_is_lower(i);
                }
            }
        }
        if names_signature(name->0) {
            let at = choose|at: int| word_at(bytes, word, at);
            assert(spelled_at(bytes, word, at));
        }
        if exists|at: int|
            0 <= at && at + word.len() <= bytes.len() && #[trigger] spelled_at(bytes, word, at) {
            let at = choose|at: int|
                0 <= at && at + word.len() <= bytes.len() && #[trigger] spelled_at(
                    bytes,
                    word,
                    at,
                );
            assert(word_at(bytes, word, at));
        }
    }
}

proof fn lemma_signature_is_lower(i: int)
    ensures
        0 <= i < encode_utf8("signature"@).len() ==> 97 <= encode_utf8("signature"@)[i] <= 122,
{
    reveal_strlit("signature");
    let chars = "signature"@;
    assert(chars =~= seq!['s', 'i', 'g', 'n', 'a', 't', 'u', 'r', 'e']);
    assert(is_ascii_chars(chars));
    is_ascii_chars_encode_utf8(chars);
    if 0 <= i < chars.len() {
        assert(chars[i] as u8 == encode_utf8(chars)[i]);
    }
}

/// Whether a text spells a word of small letters at a position, letter by letter,
/// small or capital.
pub open spec fn spelled_at(text: Seq<u8>, word: Seq<u8>, at: int) -> bool {
    forall|i: int|
        0 <= i < word.len() ==> {
            ||| #[trigger] text[at + i] == word[i]
            ||| 65 <= text[at + i] <= 90 && text[at + i] + 32 == word[i]
        }
}

/// The items of a list are normalized one by one, under the name of the list, and the
/// members of an object one by one, each under its own name. All else stays as it is.
pub proof fn law_parts_are_normalized_one_by_one(value: Tree, name: Option<Seq<char>>)
    ensures
        match value {
            Tree::Array(values) => {
                let after = normalized(value, name);
                &&& after is Array
                &&& after->Array_0.len() == values.len()
                &&& forall|i: int|
                    0 <= i < values.len() ==> #[trigger] after->Array_0[i] == normalized(
                        values[i],
                        name,
                    )
                &&& (normalize_refusal(value, name) is None) == (forall|i: int|
                    0 <= i < values.len() ==> normalize_refusal(#[trigger] values[i], name) is None)
            },
            Tree::Object(members) => {
                let after = normalized(value, name);
                &&& after is Object
                &&& after->Object_0.len() == members.len()
                &&& forall|i: int|
                    0 <= i < members.len() ==> {
                        &&& (#[trigger] after->Object_0[i]).0 == members[i].0
                        &&& after->Object_0[i].1 == normalized(members[i].1, Some(members[i].0))
                    }
                &&& (normalize_refusal(value, name) is None) == (forall|i: int|
                    0 <= i < members.len() ==> normalize_refusal(
                        (#[trigger] members[i]).1,
                        Some(members[i].0),
                    ) is None)
            },
            Tree::Text(_) => true,
            _ => normalized(value, name) == value && normalize_refusal(value, name) is None,
        },
{
    match value {
        Tree::Array(values) => {
            lemma_items_refusal(values, name, 0);
        },
        Tree::Object(members) => {
            lemma_members_refusal(members, 0);
        },
        _ => {},
    }
}

proof fn lemma_items_refusal(values: Seq<Tree>, name: Option<Seq<char>>, from: nat)
    ensures
        (items_refusal(values, name, from) is None) == (forall|i: int|
            from <= i < values.len() ==> normalize_refusal(#[trigger] values[i], name) is None),
    decreases values.len() - from,
{
    if from < values.len() {
        lemma_items_refusal(values, name, from + 1);
    }
}

proof fn lemma_members_refusal(members: Seq<(Seq<char>, Tree)>, from: nat)
    ensures
        (members_refusal(members, from) is None) == (forall|i: int|
            from <= i < members.len() ==> normalize_refusal(
                (#[trigger] members[i]).1,
                Some(members[i].0),
            ) is None),
    decreases members.len() - from,
{
    if from < members.len() {
        lemma_members_refusal(members, from + 1);
    }
}

spec fn settled(value: Tree, name: Option<Seq<char>>) -> bool {
    normalized(value, name) == value && normalize_refusal(value, name) is None
}

proof fn lemma_items_settled(items: Seq<Tree>, name: Option<Seq<char>>)
    requires
        forall|i: int| 0 <= i < items.len() ==> settled(#[trigger] items[i], name),
    ensures
        settled(Tree::Array(items), name),
{
    let twice = normalized(Tree::Array(items), name)->Array_0;
    assert forall|i: int| 0 <= i < items.len() implies twice[i] == items[i] by {
        assert(settled(items[i], name));
    }
    assert(twice =~= items);
    lemma_items_pass(items, name, 0);
}

proof fn lemma_members_settled(parts: Seq<(Seq<char>, Tree)>, name: Option<Seq<char>>)
    requires
        forall|i: int|
            0 <= i < parts.len() ==> settled((#[trigger] parts[i]).1, Some(parts[i].0)),
    ensures
        settled(Tree::Object(parts), name),
{
    let twice = normalized(Tree::Object(parts), name)->Object_0;
    assert forall|i: int| 0 <= i < parts.len() implies twice[i] == parts[i] by {
        assert(settled(parts[i].1, Some(parts[i].0)));
    }
    assert(twice =~= parts);
    lemma_members_pass(parts, 0);
}

proof fn lemma_items_pass(values: Seq<Tree>, name: Option<Seq<char>>, from: nat)
    requires
        forall|i: int| 0 <= i < values.len() ==> settled(#[trigger] values[i], name),
    ensures
        items_refusal(values, name, from) is None,
    decreases values.len() - from,
{
    if from < values.len() {
        lemma_items_pass(values, name, from + 1);
    }
}

proof fn lemma_members_pass(members: Seq<(Seq<char>, Tree)>, from: nat)
    requires
        forall|i: int|
            0 <= i < members.len() ==> settled((#[trigger] members[i]).1, Some(members[i].0)),
    ensures
        members_refusal(members, from) is None,
    decreases members.len() - from,
{
    if from < members.len() {
        lemma_members_pass(members, from + 1);
    }
}

} // verus!
