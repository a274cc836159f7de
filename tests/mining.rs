use libark::block::{meets_difficulty, Block, DIFFICULTY, MAX_NONCE, TARGET_BITS};
use libark::blockchain::Blockchain;
use libark::encoding::convert_u64_to_u8_array;
use libark::types::{MiningError, Sha256Hash};
use num_bigint::BigUint;

const GENESIS_TIME: i64 = 1700000123;
const GENESIS_NONCE: u64 = 1129;
const GENESIS_DIGEST: &str = "00000d7492264e92a37f939226cce9f09a9d43302db803e6a8278805d75bedec";
const HELLO_TIME: i64 = 1700000305;
const HELLO_NONCE: u64 = 1821;
const HELLO_DIGEST: &str = "00000c3e21aefe392358670923af29578cb5dbddd15a01f33f21ad6e9faab7b8";
const WORLD_TIME: i64 = 1700000479;
const WORLD_NONCE: u64 = 1642;
const WORLD_DIGEST: &str = "00000605537f6fa1972f448c8a3229efcd9792e2d79f0206c224f18c46ad9f9a";

fn digest_from_hex(s: &str) -> Sha256Hash {
    let mut out = [0u8; 32];
    for i in 0..32 {
        out[i] = u8::from_str_radix(&s[2 * i..2 * i + 2], 16).unwrap();
    }
    out
}

fn below_target(hash: &Sha256Hash) -> bool {
    BigUint::from_bytes_be(hash) < (BigUint::from(1u8) << (256 - 4 * DIFFICULTY))
}

fn mine_ok(timestamp: i64, prev_hash: Sha256Hash, payload: &str, max_nonce: u64) -> Block {
    match Block::mine_at(timestamp, prev_hash, payload, max_nonce) {
        Ok(b) => b,
        Err(e) => panic!("mining failed: {:?}", e),
    }
}

#[test]
fn encoding_keeps_low_seven_bytes() {
    assert_eq!(convert_u64_to_u8_array(0x0102030405060708), [8, 7, 6, 5, 4, 3, 2, 0]);
    assert_eq!(convert_u64_to_u8_array(0), [0; 8]);
    assert_eq!(convert_u64_to_u8_array(u64::MAX), [255, 255, 255, 255, 255, 255, 255, 0]);
    assert_eq!(convert_u64_to_u8_array(1129), [0x69, 0x04, 0, 0, 0, 0, 0, 0]);
}

#[test]
fn headers_are_timestamp_then_prev_hash() {
    let b = Block { timestamp: 1, prev_hash: [0xab; 32], payload: b"ignored".to_vec(), nonce: 7 };
    let mut expected = vec![1u8, 0, 0, 0, 0, 0, 0, 0];
    expected.extend_from_slice(&[0xab; 32]);
    assert_eq!(b.headers(), expected);
}

#[test]
fn headers_of_negative_timestamp() {
    let b = Block { timestamp: -1, prev_hash: [0; 32], payload: Vec::new(), nonce: 0 };
    let h = b.headers();
    assert_eq!(h.len(), 40);
    assert_eq!(&h[..8], &[255, 255, 255, 255, 255, 255, 255, 0]);
    assert_eq!(&h[8..], &[0u8; 32][..]);
}

#[test]
fn calculate_hash_is_sha256_of_header_and_nonce() {
    // 8 bytes of timestamp, 32 of predecessor and 8 of nonce, all zero.
    let b = Block { timestamp: 0, prev_hash: [0; 32], payload: b"payload".to_vec(), nonce: 0 };
    let expected = digest_from_hex("17b0761f87b081d5cf10757ccc89f12be355c70e2e29df288b65b30710dcbcd1");
    assert_eq!(Block::calculate_hash(&b, 0), expected);
    assert_ne!(Block::calculate_hash(&b, 1), expected);
}

#[test]
fn payload_does_not_change_the_digest() {
    let a = Block { timestamp: 5, prev_hash: [3; 32], payload: b"one".to_vec(), nonce: 9 };
    let b = Block { timestamp: 5, prev_hash: [3; 32], payload: b"two".to_vec(), nonce: 9 };
    assert_eq!(a.hash(), b.hash());
}

#[test]
fn hash_equals_calculate_hash_with_own_nonce() {
    let b = mine_ok(GENESIS_TIME, [0; 32], "Genesis", MAX_NONCE);
    assert_eq!(Block::calculate_hash(&b, b.nonce), b.hash());
    let other = Block { timestamp: 42, prev_hash: [9; 32], payload: Vec::new(), nonce: 123456 };
    assert_eq!(Block::calculate_hash(&other, other.nonce), other.hash());
}

#[test]
fn target_boundary() {
    assert_eq!(TARGET_BITS, 236);
    assert!(meets_difficulty(&[0; 32]));
    let mut just_below = [0xff; 32];
    just_below[0] = 0;
    just_below[1] = 0;
    just_below[2] = 0x0f;
    assert!(meets_difficulty(&just_below));
    let mut at_target = [0; 32];
    at_target[2] = 0x10;
    assert!(!meets_difficulty(&at_target));
    assert!(!meets_difficulty(&[0xff; 32]));
}

#[test]
fn mining_finds_first_solving_nonce() {
    let b = mine_ok(GENESIS_TIME, [0; 32], "Genesis", MAX_NONCE);
    assert_eq!(b.timestamp, GENESIS_TIME);
    assert_eq!(b.prev_hash, [0; 32]);
    assert_eq!(b.payload, b"Genesis".to_vec());
    assert_eq!(b.nonce, GENESIS_NONCE);
    assert_eq!(b.hash(), digest_from_hex(GENESIS_DIGEST));
    for n in 0..GENESIS_NONCE {
        assert!(!meets_difficulty(&Block::calculate_hash(&b, n)));
    }
}

#[test]
fn mining_is_deterministic() {
    let a = mine_ok(HELLO_TIME, digest_from_hex(GENESIS_DIGEST), "hello", MAX_NONCE);
    let b = mine_ok(HELLO_TIME, digest_from_hex(GENESIS_DIGEST), "hello", MAX_NONCE);
    assert_eq!(a.nonce, b.nonce);
    assert_eq!(a.hash(), b.hash());
    assert_eq!(a.nonce, HELLO_NONCE);
}

#[test]
fn mined_digest_is_below_target() {
    let b = mine_ok(WORLD_TIME, digest_from_hex(HELLO_DIGEST), "world", MAX_NONCE);
    assert!(below_target(&b.hash()));
    assert!(below_target(&Block::calculate_hash(&b, b.nonce)));
    assert!(!below_target(&Block::calculate_hash(&b, 0)));
}

#[test]
fn zero_bound_reports_iteration() {
    assert_eq!(Block::mine_at(GENESIS_TIME, [0; 32], "Genesis", 0).err(), Some(MiningError::Iteration));
    assert_eq!(Block::mine_at(0, [7; 32], "", 0).err(), Some(MiningError::Iteration));
}

#[test]
fn bound_just_below_solution_reports_iteration() {
    let r = Block::mine_at(GENESIS_TIME, [0; 32], "Genesis", GENESIS_NONCE);
    assert_eq!(r.err(), Some(MiningError::Iteration));
    let b = mine_ok(GENESIS_TIME, [0; 32], "Genesis", GENESIS_NONCE + 1);
    assert_eq!(b.nonce, GENESIS_NONCE);
}

#[test]
fn hello_world_blocks_link() {
    let genesis = mine_ok(GENESIS_TIME, [0; 32], "Genesis", MAX_NONCE);
    let hello = mine_ok(HELLO_TIME, genesis.hash(), "hello", MAX_NONCE);
    let world = mine_ok(WORLD_TIME, hello.hash(), "world", MAX_NONCE);
    assert_eq!(hello.prev_hash, genesis.hash());
    assert_eq!(world.prev_hash, hello.hash());
    assert_eq!(hello.nonce, HELLO_NONCE);
    assert_eq!(world.nonce, WORLD_NONCE);
    assert_eq!(world.hash(), digest_from_hex(WORLD_DIGEST));
    assert!(below_target(&hello.hash()));
    assert!(below_target(&world.hash()));
}

#[test]
fn chain_new_and_add_block() {
    // Mining reads the clock, so the outcome is not fixed; a full search takes
    // several seconds, so one block is appended only after a quick genesis.
    let start = std::time::Instant::now();
    let mut chain = match Blockchain::new() {
        Ok(c) => c,
        Err(e) => {
            assert_eq!(e, MiningError::Iteration);
            return;
        }
    };
    assert_eq!(chain.blocks().len(), 1);
    assert_eq!(chain.blocks()[0].prev_hash, [0; 32]);
    assert_eq!(chain.blocks()[0].payload, b"Genesis".to_vec());
    assert!(below_target(&chain.blocks()[0].hash()));
    if start.elapsed().as_secs() >= 4 {
        return;
    }
    match chain.add_block("hello") {
        Ok(()) => {
            let blocks = chain.blocks();
            assert_eq!(blocks.len(), 2);
            assert_eq!(blocks[1].prev_hash, blocks[0].hash());
            assert_eq!(blocks[1].payload, b"hello".to_vec());
            assert!(below_target(&blocks[1].hash()));
        }
        Err(e) => {
            assert_eq!(e, MiningError::Iteration);
            assert_eq!(chain.blocks().len(), 1);
        }
    }
}
