use rusty_chain::block::{Block, BlockHeader};
use rusty_chain::crypto::{check_pow, hash_sha256};
use rusty_chain::transaction::Transaction;

fn header_json(h: &BlockHeader) -> String {
    format!(
        "{{\"index\":{},\"timestamp\":{},\"previous_hash\":{},\"merkle_root\":{},\"nonce\":{},\"difficulty\":{}}}",
        h.index,
        h.timestamp,
        serde_json::to_string(&h.previous_hash).unwrap(),
        serde_json::to_string(&h.merkle_root).unwrap(),
        h.nonce,
        h.difficulty
    )
}

#[test]
fn test_block_creation() {
    let block = Block::new(0, "genesis".to_string(), vec![], 1);
    assert_eq!(block.header.index, 0);
    assert_eq!(block.header.previous_hash, "genesis");
}

#[test]
fn test_block_mining() {
    let mut block = Block::new(0, "genesis".to_string(), vec![], 2);
    let nonce = block.mine();
    assert!(block.verify_pow());
    assert_eq!(block.header.nonce, nonce);
}

#[test]
fn empty_block_merkle_root_is_hash_of_empty() {
    let block = Block::with_timestamp(3, "prev".to_string(), vec![], 1, 42);
    assert_eq!(block.header.merkle_root, hash_sha256(b"empty"));
    assert_eq!(
        block.header.merkle_root,
        "2e1cfa82b035c26cbbbdae632cea070514eb8b773f616aaeaf668e2f0be8f10d"
    );
    assert_eq!(block.header.nonce, 0);
    assert_eq!(block.header.timestamp, 42);
    assert!(block.hash.is_empty());
}

#[test]
fn merkle_root_hashes_concatenated_ids() {
    let t1 = Transaction::with_timestamp("a".into(), "b".into(), 1.0f64.to_bits(), "1.0", 5);
    let t2 = Transaction::with_timestamp("c".into(), "d".into(), 2.0f64.to_bits(), "2.0", 6);
    let joined = format!("{}{}", t1.id, t2.id);
    let block = Block::with_timestamp(1, "p".into(), vec![t1, t2], 1, 7);
    assert_eq!(block.header.merkle_root, hash_sha256(joined.as_bytes()));
}

#[test]
fn compute_hash_is_hash_of_header_json() {
    let mut block = Block::with_timestamp(7, "a\"b\\c\nd\u{1}é".to_string(), vec![], 3, 1_700_000_000);
    block.header.nonce = u64::MAX;
    let expected = hash_sha256(header_json(&block.header).as_bytes());
    assert_eq!(block.compute_hash(), expected);
    block.header.difficulty = u32::MAX;
    block.header.index = 0;
    assert_eq!(block.compute_hash(), hash_sha256(header_json(&block.header).as_bytes()));
}

#[test]
fn mining_finds_least_working_nonce() {
    let mut block = Block::with_timestamp(1, "prev".to_string(), vec![], 2, 99);
    let nonce = block.mine();
    assert_eq!(block.hash, block.compute_hash());
    assert!(block.hash.starts_with("00"));
    let mut probe = block.clone();
    for n in 0..nonce {
        probe.header.nonce = n;
        assert!(!check_pow(&probe.compute_hash(), 2));
    }
}

#[test]
fn try_mine_agrees_with_mine() {
    let mut a = Block::with_timestamp(2, "x".to_string(), vec![], 1, 5);
    let mut b = a.clone();
    let n = a.mine();
    assert_eq!(b.try_mine(), Some(n));
    assert_eq!(a.hash, b.hash);
}

#[test]
fn verify_pow_reads_recorded_hash() {
    let mut block = Block::with_timestamp(0, "g".to_string(), vec![], 2, 1);
    assert!(!block.verify_pow());
    block.hash = "00ff".to_string();
    assert!(block.verify_pow());
    block.hash = "0f00".to_string();
    assert!(!block.verify_pow());
}
