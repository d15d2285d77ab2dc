use rusty_chain::blockchain::{ChainFault, COINBASE_REWARD};
use rusty_chain::transaction::Transaction;
use rusty_chain::wallet::Wallet;
use rusty_chain::{Blockchain, Store};

fn signed_tx(from_wallet: &Wallet, to_address: &str, amount: f64) -> Transaction {
    let mut tx = Transaction::new(
        from_wallet.address().to_string(),
        to_address.to_string(),
        amount.to_bits(),
        &serde_json::to_string(&amount).unwrap(),
    );
    tx.sign(from_wallet);
    tx
}

#[test]
fn test_blockchain_creation() {
    let blockchain = Blockchain::new();
    assert_eq!(blockchain.chain.len(), 1);
    assert_eq!(blockchain.chain[0].header.index, 0);
}

#[test]
fn test_add_transaction() {
    let mut blockchain = Blockchain::new();
    let wallet = Wallet::new();
    let tx = signed_tx(&wallet, "bob", 10.0);
    blockchain.add_transaction(tx).unwrap();
    assert_eq!(blockchain.transaction_pool.pending_count(), 1);
}

#[test]
fn test_mine_block() {
    let mut blockchain = Blockchain::new();
    let wallet = Wallet::new();
    blockchain
        .add_transaction(signed_tx(&wallet, "bob", 10.0))
        .unwrap();

    blockchain.mine_block("miner1").unwrap();
    assert_eq!(blockchain.chain.len(), 2);
}

#[test]
fn test_chain_validation() {
    let mut blockchain = Blockchain::new();
    let wallet = Wallet::new();
    blockchain
        .add_transaction(signed_tx(&wallet, "bob", 10.0))
        .unwrap();
    blockchain.mine_block("miner1").unwrap();
    assert!(blockchain.is_valid());
}

#[test]
fn test_genesis_block_has_valid_pow() {
    let blockchain = Blockchain::new();
    assert!(blockchain.chain[0].verify_pow());
}

#[test]
fn test_get_latest_block_is_genesis_initially() {
    let blockchain = Blockchain::new();
    assert_eq!(blockchain.get_latest_block().header.index, 0);
}

#[test]
fn test_get_latest_block_updates_after_mining() {
    let mut blockchain = Blockchain::new();
    blockchain.mine_block("miner1").unwrap();
    assert_eq!(blockchain.get_latest_block().header.index, 1);
}

#[test]
fn test_unsigned_transaction_rejected() {
    let mut blockchain = Blockchain::new();
    let tx = Transaction::new("alice".to_string(), "bob".to_string(), 5.0f64.to_bits(), "5.0");
    assert!(blockchain.add_transaction(tx).is_err());
}

#[test]
fn test_transaction_pool_cleared_after_mining() {
    let mut blockchain = Blockchain::new();
    let wallet = Wallet::new();
    blockchain
        .add_transaction(signed_tx(&wallet, "bob", 10.0))
        .unwrap();
    assert_eq!(blockchain.transaction_pool.pending_count(), 1);

    blockchain.mine_block("miner1").unwrap();
    assert_eq!(blockchain.transaction_pool.pending_count(), 0);
}

#[test]
fn test_tampered_chain_is_invalid() {
    let mut blockchain = Blockchain::new();
    blockchain.mine_block("miner1").unwrap();

    // Tamper with the genesis block hash to break chain linkage
    blockchain.chain[0].hash = "tampered_hash".to_string();
    assert!(!blockchain.is_valid());
}

#[test]
fn test_get_stats_after_mining() {
    let mut blockchain = Blockchain::new();
    blockchain.mine_block("miner1").unwrap();

    let stats = blockchain.get_stats();
    assert_eq!(stats.total_blocks, 2);
    assert!(stats.total_transactions >= 1); // at least the coinbase
    assert_eq!(stats.pending_transactions, 0);
    assert_eq!(stats.difficulty, 2);
}

#[test]
fn test_blocks_are_sequentially_indexed() {
    let mut blockchain = Blockchain::new();
    blockchain.mine_block("miner1").unwrap();
    blockchain.mine_block("miner1").unwrap();

    for (i, block) in blockchain.chain.iter().enumerate() {
        assert_eq!(block.header.index, i as u64);
    }
}

#[test]
fn genesis_block_shape() {
    let blockchain = Blockchain::default();
    let genesis = &blockchain.chain[0];
    assert_eq!(genesis.header.previous_hash, "0");
    assert!(genesis.transactions.is_empty());
    assert_eq!(genesis.header.difficulty, 2);
    assert_eq!(genesis.hash, genesis.compute_hash());
    assert_eq!(blockchain.difficulty, 2);
    assert_eq!(blockchain.transaction_pool.pending_count(), 0);
    assert!(blockchain.is_valid());
}

#[test]
fn mined_block_links_and_pays_coinbase() {
    let mut blockchain = Blockchain::new();
    let block = blockchain.mine_block("miner1").unwrap();
    assert_eq!(block.header.previous_hash, blockchain.chain[0].hash);
    assert_eq!(block.header.index, 1);
    assert_eq!(block.hash, blockchain.chain[1].hash);
    assert_eq!(block.transactions.len(), 1);
    let coinbase = &block.transactions[0];
    assert_eq!(coinbase.from, "system");
    assert_eq!(coinbase.to, "miner1");
    assert_eq!(coinbase.amount, COINBASE_REWARD);
    assert_eq!(f64::from_bits(COINBASE_REWARD), 50.0);
    let json = serde_json::to_string(&("system", "miner1", 50.0f64, coinbase.timestamp)).unwrap();
    assert_eq!(coinbase.id, rusty_chain::crypto::hash_sha256(json.as_bytes()));
    assert!(block.verify_pow());
}

#[test]
fn mining_takes_at_most_ten_pending() {
    let mut blockchain = Blockchain::new();
    let wallet = Wallet::new();
    for i in 0..12 {
        blockchain
            .add_transaction(signed_tx(&wallet, &format!("r{}", i), 1.0))
            .unwrap();
    }
    let block = blockchain.mine_block("m").unwrap();
    assert_eq!(block.transactions.len(), 11);
    assert_eq!(block.transactions[1].to, "r0");
    assert_eq!(block.transactions[10].to, "r9");
    assert_eq!(blockchain.transaction_pool.pending_count(), 2);
    assert_eq!(blockchain.transaction_pool.pending_transactions()[0].to, "r10");
    let stats = blockchain.get_stats();
    assert_eq!(stats.total_transactions, 11);
    assert_eq!(stats.latest_hash, block.hash);
    assert!(blockchain.is_valid());
}

#[test]
fn invalid_signed_transaction_is_refused() {
    let mut blockchain = Blockchain::new();
    let wallet = Wallet::new();
    let err = blockchain
        .add_transaction(signed_tx(&wallet, "bob", -3.0))
        .unwrap_err();
    assert_eq!(err, "Invalid transaction");
    // signed by a wallet that is not the sender
    let mut tx = Transaction::new("alice".to_string(), "bob".to_string(), 1.0f64.to_bits(), "1.0");
    tx.sign(&wallet);
    assert!(blockchain.add_transaction(tx).is_err());
    assert_eq!(blockchain.transaction_pool.pending_count(), 0);
}

#[test]
fn validation_reports_first_fault() {
    let mut blockchain = Blockchain::new();
    blockchain.mine_block("a").unwrap();
    blockchain.mine_block("b").unwrap();
    assert_eq!(blockchain.validate(), Ok(()));

    let mut broken = Blockchain::new();
    broken.mine_block("a").unwrap();
    broken.mine_block("b").unwrap();
    broken.chain[1].hash = "00tampered".to_string();
    assert_eq!(broken.validate(), Err(ChainFault::BrokenLink(2)));

    broken.chain[1].hash = "tampered".to_string();
    assert_eq!(broken.validate(), Err(ChainFault::ProofOfWork(1)));

    let mut reindexed = Blockchain::new();
    reindexed.mine_block("a").unwrap();
    reindexed.chain[1].header.index = 5;
    assert_eq!(reindexed.validate(), Err(ChainFault::BadIndex(1)));
    reindexed.chain[0].header.index = u64::MAX;
    assert!(!reindexed.is_valid());
}

#[test]
fn restored_blockchain_keeps_chain_and_pending() {
    let mut blockchain = Blockchain::new();
    let wallet = Wallet::new();
    blockchain.mine_block("m").unwrap();
    blockchain
        .add_transaction(signed_tx(&wallet, "bob", 5.0))
        .unwrap();
    let chain = blockchain.chain.clone();
    let pending = blockchain.transaction_pool.pending_transactions().to_vec();
    let restored = Store::restore_blockchain(chain, pending);
    assert_eq!(restored.chain.len(), blockchain.chain.len());
    assert_eq!(restored.chain[1].hash, blockchain.chain[1].hash);
    assert_eq!(restored.transaction_pool.pending_count(), 1);
    assert_eq!(restored.difficulty, 2);
    assert!(restored.is_valid());
}

#[test]
fn genesis_proof_of_work_is_checked() {
    let mut blockchain = Blockchain::new();
    assert_eq!(blockchain.validate(), Ok(()));
    blockchain.chain[0].hash = "x".to_string();
    assert_eq!(blockchain.validate(), Err(ChainFault::ProofOfWork(0)));
    assert!(!blockchain.is_valid());
}

#[test]
fn mine_block_at_uses_given_times() {
    let mut blockchain = Blockchain::new();
    let block = blockchain.mine_block_at("miner9", 1_234, 5_678).unwrap();
    assert_eq!(block.header.timestamp, 1_234);
    assert_eq!(block.transactions[0].timestamp, 5_678);
    assert_eq!(block.hash.len(), 64);
    let json = serde_json::to_string(&("system", "miner9", 50.0f64, 5_678u64)).unwrap();
    assert_eq!(block.transactions[0].id, rusty_chain::crypto::hash_sha256(json.as_bytes()));
    assert!(blockchain.is_valid());
}
