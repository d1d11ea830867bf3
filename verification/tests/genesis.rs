use ed25519_dalek::SigningKey;
use qomm_avalanche_vm::genesis::{
    CommitteeConfig, CommitteeMember, Genesis, GenesisConfig, MemberConfig, GENESIS_MAGIC,
};

fn fixture() -> Genesis {
    Genesis {
        timestamp: 0,
        epoch: 1,
        threshold: 1,
        members: vec![CommitteeMember {
            node_id: "node-0".into(),
            public_key: [1; 32],
        }],
    }
}

fn key(seed: u8) -> [u8; 32] {
    SigningKey::from_bytes(&[seed; 32]).verifying_key().to_bytes()
}

fn config(node_id: &str, public_key: &str) -> GenesisConfig {
    GenesisConfig {
        timestamp: 0,
        committee: CommitteeConfig {
            epoch: 1,
            threshold: 1,
            members: vec![MemberConfig {
                node_id: node_id.into(),
                public_key: public_key.into(),
            }],
        },
    }
}

#[test]
fn genesis_wire_round_trip_is_exact() {
    let genesis = fixture();
    let encoded = genesis.encode().expect("encode");
    assert_eq!(Genesis::decode(&encoded).expect("decode"), genesis);
}

#[test]
fn rejects_trailing_and_unsorted_members() {
    let mut encoded = fixture().encode().expect("encode");
    encoded.push(0);
    assert!(Genesis::decode(&encoded).is_err());

    let mut genesis = fixture();
    genesis.members.insert(
        0,
        CommitteeMember {
            node_id: "node-1".into(),
            public_key: [2; 32],
        },
    );
    assert!(genesis.validate().is_err());
}

#[test]
fn genesis_wire_form_is_laid_out_in_order() {
    let mut expected = GENESIS_MAGIC.to_vec();
    expected.extend_from_slice(&[0; 8]);
    expected.extend_from_slice(&[0, 0, 0, 0, 0, 0, 0, 1]);
    expected.extend_from_slice(&[0, 1]);
    expected.extend_from_slice(&[0, 1]);
    expected.extend_from_slice(&[0, 6]);
    expected.extend_from_slice(b"node-0");
    expected.extend_from_slice(&[1; 32]);
    assert_eq!(fixture().encode(), Ok(expected));
}

#[test]
fn genesis_limits_are_checked() {
    let committee = Err("genesis contains an invalid k-of-n committee".to_string());
    let mut genesis = fixture();
    genesis.timestamp = -1;
    assert_eq!(
        genesis.validate(),
        Err("genesis timestamp cannot be negative".to_string())
    );
    let mut genesis = fixture();
    genesis.epoch = 0;
    assert_eq!(genesis.validate(), committee);
    let mut genesis = fixture();
    genesis.threshold = 2;
    assert_eq!(genesis.validate(), committee);
    let mut genesis = fixture();
    genesis.threshold = 0;
    assert_eq!(genesis.validate(), committee);
    let mut genesis = fixture();
    genesis.members.clear();
    assert_eq!(genesis.validate(), committee);
    let mut genesis = fixture();
    genesis.members.push(CommitteeMember {
        node_id: "node-1".into(),
        public_key: [1; 32],
    });
    assert_eq!(
        genesis.validate(),
        Err("genesis committee has an invalid or duplicate member".to_string())
    );
    let mut genesis = fixture();
    genesis.members[0].node_id = String::new();
    assert_eq!(
        genesis.validate(),
        Err("genesis committee has an invalid or duplicate member".to_string())
    );
    let mut genesis = fixture();
    genesis.members = vec![
        CommitteeMember {
            node_id: "node-2".into(),
            public_key: key(1),
        },
        CommitteeMember {
            node_id: "node-1".into(),
            public_key: key(2),
        },
    ];
    assert_eq!(
        genesis.validate(),
        Err("genesis committee must be sorted by node ID".to_string())
    );
    let mut genesis = fixture();
    genesis.members[0].public_key = [2; 32];
    assert_eq!(
        genesis.validate(),
        Err("genesis committee contains an invalid Ed25519 key".to_string())
    );
}

#[test]
fn genesis_text_must_be_utf8() {
    let mut encoded = fixture().encode().unwrap();
    let at = encoded.len() - 33;
    encoded[at] = 0xff;
    assert!(Genesis::decode(&encoded).is_err());
}

#[test]
fn configured_members_are_sorted_into_a_genesis() {
    let genesis = GenesisConfig {
        timestamp: 5,
        committee: CommitteeConfig {
            epoch: 3,
            threshold: 2,
            members: vec![
                MemberConfig {
                    node_id: "node-b".into(),
                    public_key: hex::encode(key(2)),
                },
                MemberConfig {
                    node_id: "node-a".into(),
                    public_key: hex::encode(key(1)),
                },
            ],
        },
    }
    .into_genesis()
    .unwrap();
    assert_eq!(
        genesis,
        Genesis {
            timestamp: 5,
            epoch: 3,
            threshold: 2,
            members: vec![
                CommitteeMember {
                    node_id: "node-a".into(),
                    public_key: key(1),
                },
                CommitteeMember {
                    node_id: "node-b".into(),
                    public_key: key(2),
                },
            ],
        }
    );
    let setup = genesis.authorizer("chain").unwrap();
    assert_eq!(setup.nodes, genesis.members);
    assert_eq!(setup.threshold, 2);
    assert_eq!(setup.epoch, 3);
    assert_eq!(setup.domain, "chain");
}

#[test]
fn configured_keys_must_be_hexadecimal_keys() {
    assert_eq!(
        config("node-0", "zz").into_genesis(),
        Err("member node-0 publicKey is not hexadecimal".to_string())
    );
    assert_eq!(
        config("node-0", "0102").into_genesis(),
        Err("member node-0 publicKey is not 32 bytes".to_string())
    );
    assert_eq!(
        config("node-0", &hex::encode([2_u8; 32])).into_genesis(),
        Err("genesis committee contains an invalid Ed25519 key".to_string())
    );
    assert_eq!(
        config("node-0", &hex::encode([1_u8; 32])).into_genesis(),
        Ok(fixture())
    );
}
