//! Transactions and the pool of pending transactions.
use vstd::prelude::*;
use vstd::string::{StringExecFns, StringSliceAdditionalSpecFns};
use vstd::utf8::encode_utf8;

use crate::clock::current_timestamp;
use crate::crypto::{hash_sha256, sha256, sha256_hex};
use crate::encoding::{decimal, json_string, push_bytes, push_decimal, push_json_string};
use crate::wallet::{
    address_from_public_key_hex,
    ecdsa_sign,
    address_of_public_key_hex,
    lemma_address_round_trip,
    signature_verifies,
    verify_signature,
    Wallet,
};

verus! {

/// Whether the binary64 number with these bits is greater than zero: the
/// sign bit is clear and the bits are neither those of zero nor those of a
/// NaN (positive infinity counts as positive).
pub open spec fn amount_is_positive(amount: u64) -> bool {
    0 < amount <= 0x7ff0_0000_0000_0000
}

/// The bytes whose hash is a transaction's id: the compact JSON array
/// `[from, to, amount, timestamp]`, with the amount as the JSON text given.
pub open spec fn id_preimage(from: Seq<char>, to: Seq<char>, amount_json: Seq<char>, timestamp: u64) -> Seq<u8> {
    seq![0x5bu8] + json_string(encode_utf8(from)) + seq![0x2cu8] + json_string(encode_utf8(to))
        + seq![0x2cu8] + encode_utf8(amount_json) + seq![0x2cu8] + decimal(timestamp as nat)
        + seq![0x5du8]
}

/// A transaction's id: the SHA-256 hash (hex) of its JSON preimage.
pub open spec fn transaction_id_of(from: Seq<char>, to: Seq<char>, amount_json: Seq<char>, timestamp: u64) -> Seq<char> {
    sha256_hex(id_preimage(from, to, amount_json, timestamp))
}

/// Computes the id of a transaction from its fields; `amount_json` is the
/// JSON rendering of the amount.
pub fn transaction_id(from: &str, to: &str, amount_json: &str, timestamp: u64) -> (id: String)
    ensures
        id@ == transaction_id_of(from@, to@, amount_json@, timestamp),
        id@.len() == 64,
{
    let mut json: Vec<u8> = Vec::new();
    json.push(0x5b);
    push_json_string(&mut json, from);
    json.push(0x2c);
    push_json_string(&mut json, to);
    json.push(0x2c);
    push_bytes(&mut json, amount_json.as_bytes());
    json.push(0x2c);
    push_decimal(&mut json, timestamp);
    json.push(0x5d);
    assert(json@ =~= id_preimage(from@, to@, amount_json@, timestamp));
    hash_sha256(json.as_slice())
}

/// A transfer of `amount` from one address to another.
///
/// `amount` holds the bits (IEEE 754 binary64) of the amount transferred.
/// A signed transaction carries the sender's public key and a signature of
/// its id, both hex-encoded; both are empty until it is signed.
#[derive(Debug)]
pub struct Transaction {
    pub from: String,
    pub to: String,
    pub amount: u64,
    pub timestamp: u64,
    pub id: String,
    pub public_key: String,
    pub signature: String,
}

impl Clone for Transaction {
    fn clone(&self) -> (copy: Self)
        ensures
            copy == *self,
    {
        Transaction {
            from: self.from.clone(),
            to: self.to.clone(),
            amount: self.amount,
            timestamp: self.timestamp,
            id: self.id.clone(),
            public_key: self.public_key.clone(),
            signature: self.signature.clone(),
        }
    }
}

impl Transaction {
    /// What `is_valid` checks: a positive amount and both addresses
    /// present.
    pub open spec fn valid_fields(self) -> bool {
        &&& amount_is_positive(self.amount)
        &&& self.from@.len() > 0
        &&& self.to@.len() > 0
    }

    /// The transaction is signed by its sender: its public key derives the
    /// `from` address, and its signature of the id checks against that key.
    pub open spec fn signed_by_sender(self) -> bool {
        &&& address_of_public_key_hex(self.public_key@) == Some(self.from@)
        &&& signature_verifies(self.public_key@, encode_utf8(self.id@), self.signature@)
    }

    /// An unsigned transaction with the given fields, its id computed from
    /// them.
    pub fn with_timestamp(from: String, to: String, amount: u64, amount_json: &str, timestamp: u64) -> (tx: Self)
        ensures
            tx.from == from,
            tx.to == to,
            tx.amount == amount,
            tx.timestamp == timestamp,
            tx.id@ == transaction_id_of(from@, to@, amount_json@, timestamp),
            tx.id@.len() == 64,
            tx.public_key@.len() == 0,
            tx.signature@.len() == 0,
    {
        let id = transaction_id(from.as_str(), to.as_str(), amount_json, timestamp);
        Transaction {
            from,
            to,
            amount,
            timestamp,
            id,
            public_key: String::new(),
            signature: String::new(),
        }
    }

    /// A new unsigned transaction stamped with the current time.
    /// `amount` holds the bits of the amount and `amount_json` its JSON
    /// rendering.
    pub fn new(from: String, to: String, amount: u64, amount_json: &str) -> (tx: Self)
        ensures
            tx.from == from,
            tx.to == to,
            tx.amount == amount,
            tx.id@ == transaction_id_of(from@, to@, amount_json@, tx.timestamp),
            tx.id@.len() == 64,
            tx.public_key@.len() == 0,
            tx.signature@.len() == 0,
    {
        let timestamp = current_timestamp();
        Self::with_timestamp(from, to, amount, amount_json, timestamp)
    }

    /// Checks that the amount is positive and both addresses are present.
    pub fn is_valid(&self) -> (ok: bool)
        ensures
            ok == self.valid_fields(),
    {
        0 < self.amount && self.amount <= 0x7ff0_0000_0000_0000 && self.from.as_str().unicode_len() > 0
            && self.to.as_str().unicode_len() > 0
    }

    /// Signs the transaction's id with `wallet`, recording the wallet's
    /// public key beside the signature. When the sender is the wallet's
    /// address, the transaction is then signed by its sender.
    pub fn sign(&mut self, wallet: &Wallet)
        ensures
            final(self).from == old(self).from,
            final(self).to == old(self).to,
            final(self).amount == old(self).amount,
            final(self).timestamp == old(self).timestamp,
            final(self).id == old(self).id,
            final(self).public_key@ == crate::encoding::hex_lower(wallet.public_key_bytes()),
            final(self).signature@ == crate::encoding::hex_lower(
                ecdsa_sign(wallet.secret_key_bytes(), sha256(encode_utf8(old(self).id@))),
            ),
            final(self).signature@.len() == 128,
            signature_verifies(final(self).public_key@, encode_utf8(final(self).id@), final(self).signature@),
            old(self).from@ == wallet.address_text() ==> final(self).signed_by_sender(),
    {
        proof {
            use_type_invariant(wallet);
            lemma_address_round_trip(*wallet);
        }
        let public_key = wallet.public_key_hex();
        let signature = wallet.sign(self.id.as_str().as_bytes());
        self.public_key = public_key;
        self.signature = signature;
    }

    /// Checks that the transaction is signed by its sender.
    pub fn has_valid_signature(&self) -> (ok: bool)
        ensures
            ok == self.signed_by_sender(),
            self.public_key@.len() == 0 ==> !ok,
    {
        match address_from_public_key_hex(self.public_key.as_str()) {
            Ok(address) => {
                string_eq(&address, &self.from)
                    && verify_signature(
                    self.public_key.as_str(),
                    self.id.as_str().as_bytes(),
                    self.signature.as_str(),
                )
            },
            Err(_) => false,
        }
    }
}

/// Equality of two strings' contents.
pub(crate) fn string_eq(a: &String, b: &String) -> (eq: bool)
    ensures
        eq == (a@ == b@),
{
    a.eq(b)
}

/// Transactions waiting to be mined, oldest first.
pub struct TransactionPool {
    pending: Vec<Transaction>,
}

impl View for TransactionPool {
    type V = Seq<Transaction>;

    closed spec fn view(&self) -> Seq<Transaction> {
        self.pending@
    }
}

impl TransactionPool {
    /// An empty pool.
    pub fn new() -> (pool: Self)
        ensures
            pool@ == Seq::<Transaction>::empty(),
    {
        TransactionPool { pending: Vec::new() }
    }

    /// A pool holding `transactions`, in their order.
    pub fn from_transactions(transactions: Vec<Transaction>) -> (pool: Self)
        ensures
            pool@ == transactions@,
    {
        TransactionPool { pending: transactions }
    }

    /// The pending transactions, oldest first.
    pub fn pending_transactions(&self) -> (pending: &[Transaction])
        ensures
            pending@ == self@,
    {
        self.pending.as_slice()
    }

    /// Adds a transaction at the end of the pool if it is valid; an invalid
    /// one is refused and the pool is left as it was.
    pub fn add_transaction(&mut self, tx: Transaction) -> (res: Result<(), String>)
        ensures
            tx.valid_fields() ==> res is Ok && final(self)@ == old(self)@.push(tx),
            !tx.valid_fields() ==> (res matches Err(msg) && msg@ == "Invalid transaction"@) && final(self)@ == old(self)@,
    {
        if !tx.is_valid() {
            return Err(String::from_str("Invalid transaction"));
        }
        self.pending.push(tx);
        Ok(())
    }

    /// Removes and returns the `count` oldest transactions (all of them if
    /// fewer are pending), in their order.
    pub fn take_transactions(&mut self, count: usize) -> (taken: Vec<Transaction>)
        ensures
            taken@ == old(self)@.take(min_len(count, old(self)@.len()) as int),
            final(self)@ == old(self)@.skip(min_len(count, old(self)@.len()) as int),
    {
        let n = if count < self.pending.len() {
            count
        } else {
            self.pending.len()
        };
        let rest = self.pending.split_off(n);
        let mut taken = rest;
        std::mem::swap(&mut taken, &mut self.pending);
        taken
    }

    /// Number of pending transactions.
    pub fn pending_count(&self) -> (count: usize)
        ensures
            count == self@.len(),
    {
        self.pending.len()
    }

    /// Puts `transactions` back in front of the pending ones.
    pub(crate) fn restore_front(&mut self, transactions: Vec<Transaction>)
        ensures
            final(self)@ == transactions@ + old(self)@,
    {
        let mut front = transactions;
        std::mem::swap(&mut front, &mut self.pending);
        let mut back = front;
        self.pending.append(&mut back);
    }
}

impl Default for TransactionPool {
    fn default() -> (pool: Self)
        ensures
            pool@ == Seq::<Transaction>::empty(),
    {
        Self::new()
    }
}

/// The smaller of a count and a length.
pub open spec fn min_len(count: usize, len: nat) -> nat {
    if count < len {
        count as nat
    } else {
        len
    }
}

} // verus!
