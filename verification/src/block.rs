//! Blocks: the header that is hashed, the Merkle root of the transactions,
//! and the proof-of-work search over nonces.
use vstd::prelude::*;
use vstd::string::StringSliceAdditionalSpecFns;
use vstd::utf8::encode_utf8;

use crate::clock::current_timestamp;
use crate::crypto::{check_pow, hash_sha256, meets_difficulty, sha256_hex};
use crate::encoding::{decimal, json_string, push_bytes, push_decimal, push_json_string};
use crate::transaction::Transaction;

verus! {

/// The hashed part of a block.
#[derive(Debug)]
pub struct BlockHeader {
    pub index: u64,
    pub timestamp: u64,
    pub previous_hash: String,
    pub merkle_root: String,
    pub nonce: u64,
    pub difficulty: u32,
}

impl Clone for BlockHeader {
    fn clone(&self) -> (copy: Self)
        ensures
            copy == *self,
    {
        BlockHeader {
            index: self.index,
            timestamp: self.timestamp,
            previous_hash: self.previous_hash.clone(),
            merkle_root: self.merkle_root.clone(),
            nonce: self.nonce,
            difficulty: self.difficulty,
        }
    }
}

/// A header and its transactions, with the hash recorded for the header.
#[derive(Debug)]
pub struct Block {
    pub header: BlockHeader,
    pub transactions: Vec<Transaction>,
    pub hash: String,
}

impl Clone for Block {
    fn clone(&self) -> (copy: Self)
        ensures
            copy.header == self.header,
            copy.transactions@ == self.transactions@,
            copy.hash == self.hash,
    {
        let transactions = self.transactions.clone();
        assert forall|i: int| 0 <= i < transactions@.len() implies transactions@[i] == self.transactions@[i] by {
            assert(vstd::pervasive::cloned::<Transaction>(self.transactions[i], transactions[i]));
        }
        assert(transactions@ =~= self.transactions@);
        Block { header: self.header.clone(), transactions, hash: self.hash.clone() }
    }
}

/// The compact JSON object of a header, fields in declaration order:
/// `{"index":..,"timestamp":..,"previous_hash":"..","merkle_root":"..","nonce":..,"difficulty":..}`.
pub open spec fn header_json(header: BlockHeader) -> Seq<u8> {
    "{\"index\":".spec_bytes() + decimal(header.index as nat) + ",\"timestamp\":".spec_bytes()
        + decimal(header.timestamp as nat) + ",\"previous_hash\":".spec_bytes() + json_string(
        encode_utf8(header.previous_hash@),
    ) + ",\"merkle_root\":".spec_bytes() + json_string(encode_utf8(header.merkle_root@))
        + ",\"nonce\":".spec_bytes() + decimal(header.nonce as nat) + ",\"difficulty\":".spec_bytes()
        + decimal(header.difficulty as nat) + "}".spec_bytes()
}

/// The hash of a header: SHA-256 (hex) of its JSON form.
pub open spec fn header_hash(header: BlockHeader) -> Seq<char> {
    sha256_hex(header_json(header))
}

/// The header with its nonce replaced.
pub open spec fn with_nonce(header: BlockHeader, nonce: u64) -> BlockHeader {
    BlockHeader { nonce, ..header }
}

/// Whether a nonce makes the header's hash meet the header's difficulty.
pub open spec fn nonce_works(header: BlockHeader, nonce: u64) -> bool {
    meets_difficulty(header_hash(with_nonce(header, nonce)), header.difficulty)
}

/// The ids of transactions, in order.
pub open spec fn ids_of(transactions: Seq<Transaction>) -> Seq<Seq<char>> {
    transactions.map_values(|tx: Transaction| tx.id@)
}

/// Texts one after the other, as UTF-8 bytes.
pub open spec fn concat_utf8(texts: Seq<Seq<char>>) -> Seq<u8>
    decreases texts.len(),
{
    if texts.len() == 0 {
        seq![]
    } else {
        concat_utf8(texts.drop_last()) + encode_utf8(texts.last())
    }
}

/// The Merkle root of transactions with these ids, simplified: the hash of
/// the concatenated ids, or the hash of the word `empty` when there are
/// none.
pub open spec fn merkle_root_of_ids(ids: Seq<Seq<char>>) -> Seq<char> {
    if ids.len() == 0 {
        sha256_hex("empty".spec_bytes())
    } else {
        sha256_hex(concat_utf8(ids))
    }
}

/// The Merkle root of a list of transactions.
pub open spec fn merkle_root_of(transactions: Seq<Transaction>) -> Seq<char> {
    merkle_root_of_ids(ids_of(transactions))
}

/// The ids' UTF-8 bytes, concatenated in order, as one flat sequence.
proof fn lemma_concat_utf8_is_flatten(ids: Seq<Seq<char>>)
    ensures
        concat_utf8(ids) == ids.map_values(|id: Seq<char>| encode_utf8(id)).flatten_alt(),
    decreases ids.len(),
{
    let bytes = ids.map_values(|id: Seq<char>| encode_utf8(id));
    if ids.len() > 0 {
        lemma_concat_utf8_is_flatten(ids.drop_last());
        assert(bytes.drop_last() =~= ids.drop_last().map_values(|id: Seq<char>| encode_utf8(id)));
    } else {
        assert(bytes =~= Seq::<Seq<u8>>::empty());
    }
}

/// The Merkle root of a non-empty list of transactions is the SHA-256 hash
/// of every transaction's id, as UTF-8 bytes, concatenated in the order of
/// the list; appending a transaction appends its id to what is hashed.
pub proof fn lemma_merkle_root_hashes_every_id(transactions: Seq<Transaction>, tx: Transaction)
    ensures
        transactions.len() > 0 ==> merkle_root_of(transactions) == sha256_hex(
            transactions.map_values(|t: Transaction| encode_utf8(t.id@)).flatten(),
        ),
        merkle_root_of(transactions.push(tx)) == sha256_hex(
            transactions.map_values(|t: Transaction| encode_utf8(t.id@)).flatten() + encode_utf8(tx.id@),
        ),
{
    let ids = ids_of(transactions);
    let bytes = transactions.map_values(|t: Transaction| encode_utf8(t.id@));
    assert(ids.map_values(|id: Seq<char>| encode_utf8(id)) =~= bytes);
    lemma_concat_utf8_is_flatten(ids);
    bytes.lemma_flatten_and_flatten_alt_are_equivalent();
    let pushed = transactions.push(tx);
    let pushed_ids = ids_of(pushed);
    let pushed_bytes = pushed.map_values(|t: Transaction| encode_utf8(t.id@));
    assert(pushed_ids.map_values(|id: Seq<char>| encode_utf8(id)) =~= pushed_bytes);
    lemma_concat_utf8_is_flatten(pushed_ids);
    pushed_bytes.lemma_flatten_and_flatten_alt_are_equivalent();
    assert(pushed_bytes.drop_last() =~= bytes);
    assert(pushed_bytes.flatten_alt() == bytes.flatten_alt() + encode_utf8(tx.id@));
}

impl Block {
    /// A block that is not yet mined (nonce 0, no hash), with the given
    /// creation time.
    pub fn with_timestamp(
        index: u64,
        previous_hash: String,
        transactions: Vec<Transaction>,
        difficulty: u32,
        timestamp: u64,
    ) -> (block: Self)
        ensures
            block.header.index == index,
            block.header.timestamp == timestamp,
            block.header.previous_hash == previous_hash,
            block.header.merkle_root@ == merkle_root_of(transactions@),
            block.header.nonce == 0,
            block.header.difficulty == difficulty,
            block.transactions == transactions,
            block.hash@.len() == 0,
    {
        let merkle_root = Self::compute_merkle_root(transactions.as_slice());
        let header = BlockHeader { index, timestamp, previous_hash, merkle_root, nonce: 0, difficulty };
        Block { header, transactions, hash: String::new() }
    }

    /// Creates a new block (header only, not yet mined) stamped with the
    /// current time.
    pub fn new(index: u64, previous_hash: String, transactions: Vec<Transaction>, difficulty: u32) -> (block: Self)
        ensures
            block.header.index == index,
            block.header.previous_hash == previous_hash,
            block.header.merkle_root@ == merkle_root_of(transactions@),
            block.header.nonce == 0,
            block.header.difficulty == difficulty,
            block.transactions == transactions,
            block.hash@.len() == 0,
    {
        let timestamp = current_timestamp();
        Self::with_timestamp(index, previous_hash, transactions, difficulty, timestamp)
    }

    /// Computes the block hash from the header.
    pub fn compute_hash(&self) -> (hash: String)
        ensures
            hash@ == header_hash(self.header),
            hash@.len() == 64,
    {
        hash_header(&self.header)
    }

    /// Checks that the recorded hash meets the block's difficulty.
    pub fn verify_pow(&self) -> (ok: bool)
        ensures
            ok == meets_difficulty(self.hash@, self.header.difficulty),
    {
        check_pow(self.hash.as_str(), self.header.difficulty)
    }

    /// Mines the block: tries nonces from 0 upwards, recording each nonce and
    /// the resulting hash, and stops at the first nonce whose hash meets the
    /// difficulty, which it returns. Some nonce must work.
    pub fn mine(&mut self) -> (nonce: u64)
        requires
            exists|n: u64| nonce_works(old(self).header, n),
        ensures
            final(self).header == with_nonce(old(self).header, nonce),
            final(self).transactions == old(self).transactions,
            final(self).hash@ == header_hash(final(self).header),
            final(self).hash@.len() == 64,
            meets_difficulty(final(self).hash@, final(self).header.difficulty),
            forall|m: u64| m < nonce ==> !nonce_works(old(self).header, m),
    {
        let ghost start = self.header;
        let ghost witness = choose|n: u64| nonce_works(start, n);
        let mut nonce: u64 = 0;
        loop
            invariant
                nonce_works(start, witness),
                forall|m: u64| m < nonce ==> !nonce_works(start, m),
                self.header == with_nonce(start, self.header.nonce),
                self.transactions == old(self).transactions,
                start == old(self).header,
            decreases u64::MAX - nonce,
        {
            self.header.nonce = nonce;
            self.hash = self.compute_hash();
            assert(self.header == with_nonce(start, nonce));
            if check_pow(self.hash.as_str(), self.header.difficulty) {
                return nonce;
            }
            assert(!nonce_works(start, nonce));
            if nonce == u64::MAX {
                assert(witness <= nonce);
                assert(false);
            }
            nonce = nonce + 1;
        }
    }

    /// Mines the block when some nonce meets the difficulty, with the least
    /// such nonce as `mine` does, and returns that nonce; when none does, returns `None` and leaves the
    /// block unchanged.
    pub fn try_mine(&mut self) -> (found: Option<u64>)
        ensures
            match found {
                Some(nonce) => {
                    &&& final(self).header == with_nonce(old(self).header, nonce)
                    &&& final(self).transactions == old(self).transactions
                    &&& final(self).hash@ == header_hash(final(self).header)
                    &&& final(self).hash@.len() == 64
                    &&& meets_difficulty(final(self).hash@, final(self).header.difficulty)
                    &&& forall|m: u64| m < nonce ==> !nonce_works(old(self).header, m)
                },
                None => {
                    &&& *final(self) == *old(self)
                    &&& forall|m: u64| !nonce_works(old(self).header, m)
                },
            },
    {
        match find_nonce(&self.header) {
            Some(nonce) => {
                self.header.nonce = nonce;
                self.hash = self.compute_hash();
                Some(nonce)
            },
            None => None,
        }
    }

    /// Compute Merkle root (simplified: hash of all transaction ids
    /// concatenated).
    fn compute_merkle_root(transactions: &[Transaction]) -> (root: String)
        ensures
            root@ == merkle_root_of(transactions@),
    {
        if transactions.len() == 0 {
            return hash_sha256("empty".as_bytes());
        }
        let mut ids: Vec<u8> = Vec::new();
        let mut i: usize = 0;
        while i < transactions.len()
            invariant
                i <= transactions@.len(),
                ids@ == concat_utf8(ids_of(transactions@.subrange(0, i as int))),
            decreases transactions@.len() - i,
        {
            push_bytes(&mut ids, transactions[i].id.as_str().as_bytes());
            i = i + 1;
            assert(ids_of(transactions@.subrange(0, i as int)).drop_last() =~= ids_of(
                transactions@.subrange(0, i - 1),
            ));
        }
        assert(transactions@.subrange(0, i as int) =~= transactions@);
        hash_sha256(ids.as_slice())
    }
}

/// SHA-256 (hex) of the JSON form of a header.
fn hash_header(header: &BlockHeader) -> (hash: String)
    ensures
        hash@ == header_hash(*header),
        hash@.len() == 64,
{
    let mut json: Vec<u8> = Vec::new();
    push_bytes(&mut json, "{\"index\":".as_bytes());
    push_decimal(&mut json, header.index);
    push_bytes(&mut json, ",\"timestamp\":".as_bytes());
    push_decimal(&mut json, header.timestamp);
    push_bytes(&mut json, ",\"previous_hash\":".as_bytes());
    push_json_string(&mut json, header.previous_hash.as_str());
    push_bytes(&mut json, ",\"merkle_root\":".as_bytes());
    push_json_string(&mut json, header.merkle_root.as_str());
    push_bytes(&mut json, ",\"nonce\":".as_bytes());
    push_decimal(&mut json, header.nonce);
    push_bytes(&mut json, ",\"difficulty\":".as_bytes());
    push_decimal(&mut json, header.difficulty as u64);
    push_bytes(&mut json, "}".as_bytes());
    assert(json@ =~= header_json(*header));
    hash_sha256(json.as_slice())
}

/// The least nonce that makes the header's hash meet its difficulty, if
/// there is one.
fn find_nonce(header: &BlockHeader) -> (found: Option<u64>)
    ensures
        match found {
            Some(nonce) => nonce_works(*header, nonce) && forall|m: u64| m < nonce ==> !nonce_works(*header, m),
            None => forall|m: u64| !nonce_works(*header, m),
        },
{
    let mut candidate = header.clone();
    let mut nonce: u64 = 0;
    loop
        invariant
            candidate == with_nonce(*header, candidate.nonce),
            forall|m: u64| m < nonce ==> !nonce_works(*header, m),
        decreases u64::MAX - nonce,
    {
        candidate.nonce = nonce;
        assert(candidate == with_nonce(*header, nonce));
        let hash = hash_header(&candidate);
        if check_pow(hash.as_str(), candidate.difficulty) {
            return Some(nonce);
        }
        if nonce == u64::MAX {
            return None;
        }
        nonce = nonce + 1;
    }
}

} // verus!
