use rusty_chain::crypto::hash_sha256;
use rusty_chain::transaction::{transaction_id, Transaction, TransactionPool};

fn json_amount(amount: f64) -> String {
    serde_json::to_string(&amount).unwrap()
}

fn new_tx(from: &str, to: &str, amount: f64) -> Transaction {
    Transaction::new(from.to_string(), to.to_string(), amount.to_bits(), &json_amount(amount))
}

#[test]
fn test_transaction_creation() {
    let tx = new_tx("alice", "bob", 10.5);
    assert_eq!(tx.from, "alice");
    assert_eq!(tx.to, "bob");
    assert_eq!(f64::from_bits(tx.amount), 10.5);
    assert!(!tx.id.is_empty());
}

#[test]
fn test_transaction_validity() {
    let valid_tx = new_tx("alice", "bob", 10.0);
    assert!(valid_tx.is_valid());

    let mut invalid_tx = new_tx("alice", "bob", 10.0);
    invalid_tx.amount = (-5.0f64).to_bits();
    assert!(!invalid_tx.is_valid());
}

#[test]
fn test_transaction_pool() {
    let mut pool = TransactionPool::new();
    let tx = new_tx("alice", "bob", 10.0);

    pool.add_transaction(tx).unwrap();
    assert_eq!(pool.pending_count(), 1);

    let txs = pool.take_transactions(1);
    assert_eq!(txs.len(), 1);
    assert_eq!(pool.pending_count(), 0);
}

#[test]
fn transaction_id_is_hash_of_json_tuple() {
    let from = "alice";
    let to = "bo\"b\n";
    let amount = 10.5f64;
    let timestamp = 1_700_000_000u64;
    let json = serde_json::to_string(&(&from, &to, amount, timestamp)).unwrap();
    let expected = hash_sha256(json.as_bytes());
    assert_eq!(transaction_id(from, to, &json_amount(amount), timestamp), expected);

    let tx = Transaction::with_timestamp(
        from.to_string(),
        to.to_string(),
        amount.to_bits(),
        &json_amount(amount),
        timestamp,
    );
    assert_eq!(tx.id, expected);
    assert_eq!(tx.timestamp, timestamp);
    assert!(tx.public_key.is_empty());
    assert!(tx.signature.is_empty());
}

#[test]
fn transaction_id_with_control_characters() {
    let from = "a\u{1}b\tc\\d\u{7f}é";
    let to = "x\r\u{8}\u{c}";
    let amount = 0.1f64;
    let json = serde_json::to_string(&(&from, &to, amount, 0u64)).unwrap();
    assert_eq!(transaction_id(from, to, &json_amount(amount), 0), hash_sha256(json.as_bytes()));
}

#[test]
fn amount_validity_follows_binary64_order() {
    let mut tx = new_tx("alice", "bob", 1.0);
    for (amount, valid) in [
        (1.0f64, true),
        (f64::MIN_POSITIVE, true),
        (5e-324, true),
        (f64::INFINITY, true),
        (f64::MAX, true),
        (0.0, false),
        (-0.0, false),
        (-1.0, false),
        (f64::NEG_INFINITY, false),
        (f64::NAN, false),
    ] {
        tx.amount = amount.to_bits();
        assert_eq!(tx.is_valid(), valid, "amount {:?}", amount);
        assert_eq!(tx.is_valid(), amount > 0.0);
    }
}

#[test]
fn empty_addresses_are_invalid() {
    assert!(!new_tx("", "bob", 1.0).is_valid());
    assert!(!new_tx("alice", "", 1.0).is_valid());
}

#[test]
fn pool_refuses_invalid_transaction() {
    let mut pool = TransactionPool::new();
    let err = pool.add_transaction(new_tx("alice", "bob", -1.0)).unwrap_err();
    assert_eq!(err, "Invalid transaction");
    assert_eq!(pool.pending_count(), 0);
}

#[test]
fn pool_takes_oldest_first() {
    let mut pool = TransactionPool::default();
    for i in 0..5 {
        pool.add_transaction(new_tx("alice", &format!("to{}", i), 1.0)).unwrap();
    }
    let first = pool.take_transactions(2);
    assert_eq!(first.len(), 2);
    assert_eq!(first[0].to, "to0");
    assert_eq!(first[1].to, "to1");
    assert_eq!(pool.pending_count(), 3);
    assert_eq!(pool.pending_transactions()[0].to, "to2");
    let rest = pool.take_transactions(10);
    assert_eq!(rest.len(), 3);
    assert_eq!(rest[2].to, "to4");
    assert_eq!(pool.pending_count(), 0);
    assert_eq!(pool.take_transactions(3).len(), 0);
}

#[test]
fn pool_from_transactions_keeps_order() {
    let txs = vec![new_tx("a", "b", 1.0), new_tx("c", "d", 2.0)];
    let pool = TransactionPool::from_transactions(txs);
    assert_eq!(pool.pending_count(), 2);
    assert_eq!(pool.pending_transactions()[1].from, "c");
}

#[test]
fn clone_keeps_all_fields() {
    let tx = new_tx("alice", "bob", 3.25);
    let copy = tx.clone();
    assert_eq!(copy.from, tx.from);
    assert_eq!(copy.to, tx.to);
    assert_eq!(copy.amount, tx.amount);
    assert_eq!(copy.timestamp, tx.timestamp);
    assert_eq!(copy.id, tx.id);
}
