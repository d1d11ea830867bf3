use curve25519_dalek::constants::RISTRETTO_BASEPOINT_POINT as G;
use curve25519_dalek::scalar::Scalar;
use ed25519_dalek::{Signer, SigningKey};
use qomm_avalanche_vm::bytes::{append_be, read_be, same_bytes, to_signed};
use qomm_avalanche_vm::crypto::{
    base64_vec, commitment_difference, commitment_sum, is_canonical_scalar, is_ed25519_key,
    is_ed25519_signed, is_ristretto_point,
};
use qomm_avalanche_vm::id::Id;
use qomm_avalanche_vm::json::{
    normalize_hex, require_aethel_artifact_keys, require_keys, Json, Member,
};
use qomm_avalanche_vm::table::{Numbered, Table};
use qomm_avalanche_vm::text::{decimal_text, hex_array, hex_id, hex_vec};

fn keys(names: &[&str]) -> Vec<String> {
    names.iter().map(|name| name.to_string()).collect()
}

fn numbers(bytes: &[u8]) -> String {
    let items: Vec<String> = bytes.iter().map(|byte| format!("Unsigned({byte})")).collect();
    format!("Array([{}])", items.join(", "))
}

#[test]
fn fixed_width_hex_parser_rejects_wrong_width() {
    assert_eq!(hex_array::<2>("0102", "x").expect("decode"), [1, 2]);
    assert!(hex_array::<2>("01", "x").is_err());
    assert!(hex_array::<2>("zzzz", "x").is_err());
}

#[test]
fn top_level_action_shape_is_closed() {
    let mut params = keys(&["asset", "approval", "expectedBeforeRoot"]);
    assert!(require_keys(&params, &["asset", "approval", "expectedBeforeRoot"]).is_ok());
    params.push("ignored".into());
    assert!(require_keys(&params, &["asset", "approval", "expectedBeforeRoot"]).is_err());
}

#[test]
fn missing_parameters_are_refused() {
    assert_eq!(
        require_keys(
            &keys(&["approval", "expectedBeforeRoot"]),
            &["asset", "approval", "expectedBeforeRoot"]
        ),
        Err("transaction parameters must contain exactly asset, approval, expectedBeforeRoot"
            .to_string())
    );
    assert!(require_aethel_artifact_keys(&keys(&[
        "request",
        "providerApproval",
        "approval",
        "expectedBeforeRoot"
    ]))
    .is_err());
}

#[test]
fn hexadecimal_text_has_either_case() {
    assert_eq!(hex_vec("00fFa0"), Some(vec![0, 255, 160]));
    assert_eq!(hex_vec("0"), None);
    assert_eq!(hex_vec("0g"), None);
    assert_eq!(
        hex_id(&"ab".repeat(32), "name"),
        Ok(Id([0xab; 32]))
    );
    assert_eq!(
        hex_id("ab", "name"),
        Err("name has 1 bytes; expected 32".to_string())
    );
    assert_eq!(
        hex_id("xy", "name"),
        Err("name is not hexadecimal".to_string())
    );
}

#[test]
fn numbers_are_written_in_decimal_and_big_endian() {
    assert_eq!(decimal_text(0), "0");
    assert_eq!(decimal_text(1572864), "1572864");
    assert_eq!(decimal_text(u64::MAX), "18446744073709551615");
    let mut out: Vec<u8> = vec![9];
    append_be(&mut out, 258, 4);
    assert_eq!(out, vec![9, 0, 0, 1, 2]);
    assert_eq!(read_be(&out[1..]), 258);
    assert_eq!(to_signed(u64::MAX), -1);
    assert_eq!(to_signed(5), 5);
    assert!(same_bytes(&[1, 2], &[1, 2]));
    assert!(!same_bytes(&[1, 2], &[1, 3]));
    assert!(!same_bytes(&[1, 2], &[1]));
}

#[test]
fn only_fixed_width_text_and_signatures_become_bytes() {
    let value = Json::Object(vec![
        Member {
            name: "amount".into(),
            value: Json::Text("ff".into()),
        },
        Member {
            name: "items".into(),
            value: Json::Array(vec![Json::Text("0a".repeat(32)), Json::Null]),
        },
        Member {
            name: "makerSIGNATURE".into(),
            value: Json::Text("01ff".into()),
        },
    ]);
    let result = normalize_hex(&value, None).unwrap();
    match &result {
        Json::Object(members) => {
            assert!(matches!(&members[0].value, Json::Text(text) if text == "ff"));
            assert!(matches!(&members[1].value, Json::Array(items)
                if format!("{:?}", items[0]) == numbers(&[10; 32])
                    && matches!(items[1], Json::Null)));
            assert_eq!(format!("{:?}", members[2].value), numbers(&[1, 255]));
        }
        _ => panic!("an object stays an object"),
    }
    let again = normalize_hex(&result, None).unwrap();
    assert_eq!(format!("{again:?}"), format!("{result:?}"));
}

#[test]
fn text_that_should_be_hexadecimal_is_refused_by_name() {
    let bad = Json::Text("zz".repeat(32));
    assert_eq!(
        normalize_hex(&bad, None).unwrap_err(),
        "field is not hexadecimal"
    );
    let nested = Json::Object(vec![Member {
        name: "root".into(),
        value: Json::Array(vec![Json::Text("zz".repeat(32))]),
    }]);
    assert_eq!(
        normalize_hex(&nested, Some("outer")).unwrap_err(),
        "root is not hexadecimal"
    );
    assert_eq!(
        normalize_hex(&Json::Text("nothex".into()), Some("signature")).unwrap_err(),
        "signature is not hexadecimal"
    );
}

#[test]
fn signatures_are_verified_with_their_key() {
    let signer = SigningKey::from_bytes(&[3; 32]);
    let key = signer.verifying_key().to_bytes();
    let signature = signer.sign(b"message").to_bytes();
    assert!(is_ed25519_key(&key));
    assert!(!is_ed25519_key(&[2; 32]));
    assert!(is_ed25519_signed(&key, b"message", &signature));
    assert!(!is_ed25519_signed(&key, b"messagE", &signature));
    assert!(!is_ed25519_signed(&key, b"message", &[0; 64]));
    assert!(!is_ed25519_signed(&[2; 32], b"message", &signature));
}

#[test]
fn commitments_are_added_and_subtracted_as_points() {
    let point = |scalar: u64| Id((G * Scalar::from(scalar)).compress().to_bytes());
    assert!(is_ristretto_point(&point(5)));
    assert!(!is_ristretto_point(&Id([255; 32])));
    assert_eq!(commitment_sum(&point(5), &point(7)), point(12));
    assert_eq!(commitment_difference(&point(12), &point(7)), point(5));
    assert_eq!(commitment_difference(&point(7), &point(7)), Id::zero());
}

#[test]
fn scalars_are_canonical_below_the_group_order() {
    let largest = (Scalar::ZERO - Scalar::ONE).to_bytes();
    assert!(is_canonical_scalar(&Id(largest)));
    let mut order = largest;
    order[0] += 1;
    assert!(!is_canonical_scalar(&Id(order)));
    assert!(is_canonical_scalar(&Id::zero()));
    assert!(!is_canonical_scalar(&Id([255; 32])));
}

#[test]
fn base64_text_is_decoded() {
    assert_eq!(base64_vec("AQID", "zkpi"), Ok(vec![1, 2, 3]));
    assert!(base64_vec("A$==", "zkpi").is_err());
    assert!(base64_vec("AQI", "zkpi").is_err());
}

#[test]
fn tables_keep_one_record_for_each_key_in_order() {
    let mut table: Table<Id, u64> = Table::new();
    assert!(table.is_empty());
    table.insert(Id([2; 32]), 20);
    table.insert(Id([1; 32]), 10);
    table.insert(Id([2; 32]), 21);
    let copy = table.share();
    table.insert(Id([3; 32]), 30);
    assert_eq!(table.len(), 3);
    assert_eq!(*table.at(0), 10);
    assert_eq!(*table.at(1), 21);
    assert_eq!(table.get(&Id([2; 32])), Some(&21));
    assert_eq!(table.get(&Id([9; 32])), None);
    assert!(table.contains_key(&Id([3; 32])));
    assert!(!copy.contains_key(&Id([3; 32])));
    assert_eq!(copy.len(), 2);
    let mut numbered: Table<Numbered, u64> = Table::new();
    for number in [3, 1, 2] {
        numbered.insert(
            Numbered {
                scope: Id([1; 32]),
                number,
            },
            number,
        );
    }
    assert_eq!(*numbered.at(0), 1);
    assert_eq!(*numbered.at(2), 3);
}

#[test]
fn identifiers_are_ordered_by_their_first_different_byte() {
    let mut larger = [0; 32];
    larger[31] = 1;
    assert!(Id::zero().precedes(&Id(larger)));
    assert!(!Id(larger).precedes(&Id::zero()));
    assert!(!Id(larger).precedes(&Id(larger)));
    assert!(Id([1; 32]) == Id([1; 32]));
    assert!(Id([1; 32]) != Id([2; 32]));
}
