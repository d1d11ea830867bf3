use qomm_avalanche_vm::block::{
    Block, BLOCK_MAGIC, MAX_BLOCK_BYTES, MAX_TRANSACTIONS, MAX_TRANSACTION_BYTES,
};
use qomm_avalanche_vm::id::Id;
use sha2::Digest;

fn block(transactions: Vec<Vec<u8>>) -> Block {
    Block {
        parent_id: Id([7; 32]),
        timestamp: 1,
        height: 2,
        transactions,
    }
}

#[test]
fn block_round_trip_and_id_are_canonical() {
    let block = Block {
        parent_id: Id([7; 32]),
        timestamp: 1,
        height: 2,
        transactions: vec![br#"{"method":"test"}"#.to_vec()],
    };
    let bytes = block.encode().expect("encode");
    assert_eq!(Block::decode(&bytes).expect("decode"), block);
    assert_eq!(block.id().expect("ID"), Id::digest(&bytes));
}

#[test]
fn rejects_trailing_bytes() {
    let mut bytes = Block {
        parent_id: Id::zero(),
        timestamp: 0,
        height: 0,
        transactions: vec![],
    }
    .encode()
    .expect("encode");
    bytes.push(0);
    assert!(Block::decode(&bytes).is_err());
}

#[test]
fn block_wire_form_is_laid_out_in_order() {
    let encoded = block(vec![vec![9, 8]]).encode().unwrap();
    let mut expected = BLOCK_MAGIC.to_vec();
    expected.extend_from_slice(&[7; 32]);
    expected.extend_from_slice(&[0, 0, 0, 0, 0, 0, 0, 1]);
    expected.extend_from_slice(&[0, 0, 0, 0, 0, 0, 0, 2]);
    expected.extend_from_slice(&[0, 1]);
    expected.extend_from_slice(&[0, 0, 0, 2, 9, 8]);
    assert_eq!(encoded, expected);
}

#[test]
fn block_limits_are_checked() {
    let mut early = block(vec![]);
    early.timestamp = -1;
    assert_eq!(
        early.validate(),
        Err("block timestamp cannot be negative".to_string())
    );
    assert_eq!(block(vec![vec![1]; MAX_TRANSACTIONS]).validate(), Ok(()));
    assert_eq!(
        block(vec![vec![1]; 33]).validate(),
        Err("block has 33 transactions; maximum is 32".to_string())
    );
    assert_eq!(
        block(vec![vec![]]).validate(),
        Err("block contains an empty or oversized transaction".to_string())
    );
    assert_eq!(
        block(vec![vec![0; MAX_TRANSACTION_BYTES + 1]]).encode(),
        Err("block contains an empty or oversized transaction".to_string())
    );
    assert_eq!(
        block(vec![vec![0; MAX_TRANSACTION_BYTES]; 2]).encode(),
        Err("block has 2097218 bytes; maximum is 1572864".to_string())
    );
}

#[test]
fn block_decoding_names_what_is_wrong() {
    assert_eq!(
        Block::decode(&[]),
        Err("block size is outside the allowed range".to_string())
    );
    assert_eq!(
        Block::decode(&vec![0; MAX_BLOCK_BYTES + 1]),
        Err("block size is outside the allowed range".to_string())
    );
    assert_eq!(
        Block::decode(&[1; 8]),
        Err("block magic or version is unsupported".to_string())
    );
    let encoded = block(vec![vec![5; 3]]).encode().unwrap();
    for length in 1..encoded.len() {
        assert_eq!(
            Block::decode(&encoded[..length]),
            Err("block is truncated".to_string())
        );
    }
    let mut negative = encoded.clone();
    negative[40] = 255;
    assert_eq!(
        Block::decode(&negative),
        Err("block timestamp cannot be negative".to_string())
    );
}

#[test]
fn different_blocks_have_different_wire_forms() {
    let first = block(vec![vec![1], vec![2]]);
    let second = block(vec![vec![1, 2]]);
    assert_ne!(first.encode().unwrap(), second.encode().unwrap());
    assert_ne!(first.id().unwrap(), second.id().unwrap());
}

#[test]
fn block_id_is_the_sha256_of_the_wire_form() {
    let block = block(vec![vec![1]]);
    let digest: [u8; 32] = sha2::Sha256::digest(block.encode().unwrap()).into();
    assert_eq!(block.id(), Ok(Id(digest)));
    assert_eq!(
        Id::digest(b"abc"),
        Id([
            0xba, 0x78, 0x16, 0xbf, 0x8f, 0x01, 0xcf, 0xea, 0x41, 0x41, 0x40, 0xde, 0x5d, 0xae,
            0x22, 0x23, 0xb0, 0x03, 0x61, 0xa3, 0x96, 0x17, 0x7a, 0x9c, 0xb4, 0x10, 0xff, 0x61,
            0xf2, 0x00, 0x15, 0xad,
        ])
    );
}
