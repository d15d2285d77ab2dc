//! The chain of blocks, the pending pool, mining and chain validation.
use vstd::prelude::*;
use vstd::string::StringExecFns;

use crate::block::{
    header_hash, ids_of, merkle_root_of, merkle_root_of_ids, nonce_works, with_nonce, Block, BlockHeader,
};
use crate::clock::current_timestamp;
use crate::crypto::meets_difficulty;
use crate::transaction::{min_len, string_eq, transaction_id_of, Transaction, TransactionPool};

verus! {

/// Difficulty of a new chain.
pub const INITIAL_DIFFICULTY: u32 = 2;

/// Most pending transactions that one mined block takes from the pool.
pub const MAX_POOL_TRANSACTIONS_PER_BLOCK: usize = 10;

/// The mining reward, 50.0, as binary64 bits.
pub const COINBASE_REWARD: u64 = 0x4049_0000_0000_0000;

/// The blocks mined so far, the difficulty of new blocks and the pending
/// transactions.
pub struct Blockchain {
    pub chain: Vec<Block>,
    pub difficulty: u32,
    pub transaction_pool: TransactionPool,
}

/// Figures about a chain.
pub struct BlockchainStats {
    pub total_blocks: usize,
    pub total_transactions: usize,
    pub pending_transactions: usize,
    pub difficulty: u32,
    pub latest_hash: String,
}

/// Why a chain is not valid, with the position of the first block at fault.
#[derive(Debug, Clone, Copy, PartialEq, Eq, Structural)]
pub enum ChainFault {
    /// The block's recorded hash does not meet its difficulty.
    ProofOfWork(usize),
    /// The block's previous hash is not the hash of the block before it.
    BrokenLink(usize),
    /// The block's index does not follow the index of the block before it.
    BadIndex(usize),
}

impl ChainFault {
    /// Position of the block at fault.
    pub open spec fn position(self) -> usize {
        match self {
            ChainFault::ProofOfWork(i) => i,
            ChainFault::BrokenLink(i) => i,
            ChainFault::BadIndex(i) => i,
        }
    }
}

/// Block `i` meets its difficulty, names the hash of block `i - 1` as its
/// previous hash, and carries the next index.
pub open spec fn block_accepted(chain: Seq<Block>, i: int) -> bool {
    &&& meets_difficulty(chain[i].hash@, chain[i].header.difficulty)
    &&& chain[i].header.previous_hash@ == chain[i - 1].hash@
    &&& chain[i].header.index as int == chain[i - 1].header.index as int + 1
}

/// The first block, if any, meets its difficulty.
pub open spec fn genesis_accepted(chain: Seq<Block>) -> bool {
    chain.len() > 0 ==> meets_difficulty(chain[0].hash@, chain[0].header.difficulty)
}

/// Every block meets its difficulty, and every block after the first is
/// linked to the block before it and carries the next index.
pub open spec fn chain_valid(chain: Seq<Block>) -> bool {
    &&& genesis_accepted(chain)
    &&& forall|i: int| 1 <= i < chain.len() ==> block_accepted(chain, i)
}

/// Every block's index is its position in the chain.
pub open spec fn chain_indexed(chain: Seq<Block>) -> bool {
    forall|i: int| 0 <= i < chain.len() ==> #[trigger] chain[i].header.index == i
}

/// The fault of block `i`, the first check that it fails.
pub open spec fn fault_of(chain: Seq<Block>, i: int) -> ChainFault {
    if !meets_difficulty(chain[i].hash@, chain[i].header.difficulty) {
        ChainFault::ProofOfWork(i as usize)
    } else if chain[i].header.previous_hash@ != chain[i - 1].hash@ {
        ChainFault::BrokenLink(i as usize)
    } else {
        ChainFault::BadIndex(i as usize)
    }
}

/// The id of the coinbase transaction paid to `miner` at `timestamp`.
pub open spec fn coinbase_id(miner: Seq<char>, timestamp: u64) -> Seq<char> {
    transaction_id_of(seq!['s', 'y', 's', 't', 'e', 'm'], miner, seq!['5', '0', '.', '0'], timestamp)
}

/// The header, before the nonce search, of the block that mining builds
/// on `chain`: the next index, the given creation time, the hash of the
/// latest block, the Merkle root of transactions with the given ids, nonce
/// 0 and the chain's difficulty.
pub open spec fn is_candidate_header(
    header: BlockHeader,
    chain: Seq<Block>,
    difficulty: u32,
    ids: Seq<Seq<char>>,
    block_time: u64,
) -> bool {
    &&& header.index == chain.len()
    &&& header.timestamp == block_time
    &&& header.previous_hash@ == chain.last().hash@
    &&& header.merkle_root@ == merkle_root_of_ids(ids)
    &&& header.nonce == 0
    &&& header.difficulty == difficulty
}

/// What mining a block on `before` does, for a block created at
/// `block_time` whose coinbase is stamped `coinbase_time`: it takes the
/// oldest pending transactions (at most ten) after the coinbase that pays
/// `miner`, and searches the nonces of the candidate header. When a nonce
/// works, the block mined with the least such nonce is appended and handed
/// back and the taken transactions leave the pool; when none works, the
/// error is returned and nothing changes.
pub open spec fn mining_outcome(
    before: Blockchain,
    after: Blockchain,
    miner: Seq<char>,
    block_time: u64,
    coinbase_time: u64,
    res: Result<Block, String>,
) -> bool {
    let n = before.chain@.len();
    let taken = min_len(MAX_POOL_TRANSACTIONS_PER_BLOCK, before.transaction_pool@.len());
    let ids = seq![coinbase_id(miner, coinbase_time)] + ids_of(before.transaction_pool@.take(taken as int));
    &&& after.difficulty == before.difficulty
    &&& match res {
        Ok(block) => {
            let added = after.chain@[n as int];
            let coinbase = block.transactions@[0];
            &&& after.chain@.len() == n + 1
            &&& after.chain@.subrange(0, n as int) == before.chain@
            &&& added.header == block.header
            &&& added.transactions@ == block.transactions@
            &&& added.hash == block.hash
            &&& is_candidate_header(with_nonce(block.header, 0), before.chain@, before.difficulty, ids, block_time)
            &&& block.header.difficulty == before.difficulty
            &&& block.header.timestamp == block_time
            &&& block.header.merkle_root@ == merkle_root_of(block.transactions@)
            &&& block.hash@ == header_hash(block.header)
            &&& block.hash@.len() == 64
            &&& meets_difficulty(block.hash@, block.header.difficulty)
            &&& forall|m: u64| m < block.header.nonce ==> !nonce_works(block.header, m)
            &&& block.transactions@.len() == taken + 1
            &&& block.transactions@.skip(1) == before.transaction_pool@.take(taken as int)
            &&& coinbase.from@ == seq!['s', 'y', 's', 't', 'e', 'm']
            &&& coinbase.to@ == miner
            &&& coinbase.amount == COINBASE_REWARD
            &&& coinbase.timestamp == coinbase_time
            &&& coinbase.id@ == coinbase_id(miner, coinbase_time)
            &&& after.transaction_pool@ == before.transaction_pool@.skip(taken as int)
            &&& chain_valid(before.chain@) && chain_indexed(before.chain@) ==> chain_valid(after.chain@)
                && chain_indexed(after.chain@)
        },
        Err(msg) => {
            &&& msg@ == "No nonce meets the difficulty target"@
            &&& after.chain == before.chain
            &&& after.transaction_pool@ == before.transaction_pool@
            &&& exists|header: BlockHeader|
                #[trigger] is_candidate_header(header, before.chain@, before.difficulty, ids, block_time)
                    && forall|m: u64| !nonce_works(header, m)
        },
    }
}

/// Number of transactions in all blocks.
pub open spec fn total_transactions_of(chain: Seq<Block>) -> nat
    decreases chain.len(),
{
    if chain.len() == 0 {
        0
    } else {
        total_transactions_of(chain.drop_last()) + chain.last().transactions@.len()
    }
}

/// The block built for the genesis of a chain: index 0, previous hash `0`,
/// no transactions, the initial difficulty; mined when some nonce meets the
/// difficulty, and left unmined (nonce 0, no hash) when none does.
pub open spec fn is_genesis(block: Block) -> bool {
    &&& block.header.index == 0
    &&& block.header.previous_hash@ == seq!['0']
    &&& block.header.merkle_root@ == merkle_root_of(Seq::<Transaction>::empty())
    &&& block.header.difficulty == INITIAL_DIFFICULTY
    &&& block.transactions@.len() == 0
    &&& if exists|n: u64| nonce_works(with_nonce(block.header, 0), n) {
        &&& block.hash@ == header_hash(block.header)
        &&& meets_difficulty(block.hash@, block.header.difficulty)
        &&& forall|m: u64| m < block.header.nonce ==> !nonce_works(block.header, m)
    } else {
        block.header.nonce == 0 && block.hash@.len() == 0
    }
}

impl Blockchain {
    /// A chain holding its genesis block, at the initial difficulty, with no
    /// pending transactions.
    pub fn new() -> (blockchain: Self)
        ensures
            blockchain.chain@.len() == 1,
            is_genesis(blockchain.chain@[0]),
            blockchain.difficulty == INITIAL_DIFFICULTY,
            blockchain.transaction_pool@.len() == 0,
            chain_valid(blockchain.chain@) <==> exists|n: u64|
                nonce_works(with_nonce(blockchain.chain@[0].header, 0), n),
            chain_indexed(blockchain.chain@),
    {
        let mut blockchain = Blockchain {
            chain: Vec::new(),
            difficulty: INITIAL_DIFFICULTY,
            transaction_pool: TransactionPool::new(),
        };
        let genesis = blockchain.create_genesis_block();
        blockchain.chain.push(genesis);
        blockchain
    }

    /// Creates the first block of the chain and mines it.
    fn create_genesis_block(&self) -> (block: Block)
        requires
            self.difficulty == INITIAL_DIFFICULTY,
        ensures
            is_genesis(block),
    {
        let mut block = Block::new(0, String::from_str("0"), Vec::new(), self.difficulty);
        proof {
            reveal_strlit("0");
            assert("0"@ =~= seq!['0']);
        }
        let ghost unmined = block;
        let found = block.try_mine();
        proof {
            assert(with_nonce(unmined.header, 0) == unmined.header);
            match found {
                Some(n) => {
                    assert(block.header == with_nonce(unmined.header, n));
                    assert(with_nonce(block.header, 0) == unmined.header);
                    assert(with_nonce(unmined.header, n) == block.header);
                    assert(nonce_works(unmined.header, n));
                    assert forall|m: u64| m < block.header.nonce implies !nonce_works(block.header, m) by {
                        assert(with_nonce(block.header, m) == with_nonce(unmined.header, m));
                        assert(!nonce_works(unmined.header, m));
                    }
                },
                None => {
                    assert(block == unmined);
                },
            }
        }
        block
    }

    /// The latest block in the chain; the chain must not be empty.
    pub fn get_latest_block(&self) -> (latest: &Block)
        requires
            self.chain@.len() > 0,
        ensures
            *latest == self.chain@.last(),
    {
        &self.chain[self.chain.len() - 1]
    }

    /// Adds a transaction to the pending pool when it is signed by its
    /// sender and valid; otherwise refuses it and leaves the chain as it
    /// was.
    pub fn add_transaction(&mut self, tx: Transaction) -> (res: Result<(), String>)
        ensures
            tx.signed_by_sender() && tx.valid_fields() ==> res is Ok
                && final(self).transaction_pool@ == old(self).transaction_pool@.push(tx),
            !tx.signed_by_sender() ==> (res matches Err(msg) && msg@ == "Transaction signature is invalid"@),
            tx.signed_by_sender() && !tx.valid_fields() ==> (res matches Err(msg) && msg@ == "Invalid transaction"@),
            !(tx.signed_by_sender() && tx.valid_fields()) ==> final(self).transaction_pool@
                == old(self).transaction_pool@,
            tx.public_key@.len() == 0 ==> res is Err,
            final(self).chain == old(self).chain,
            final(self).difficulty == old(self).difficulty,
    {
        if !tx.has_valid_signature() {
            return Err(String::from_str("Transaction signature is invalid"));
        }
        self.transaction_pool.add_transaction(tx)
    }

    /// Mines a new block: takes the oldest pending transactions (at most
    /// ten), puts the coinbase transaction that pays the reward to
    /// `miner_address` in front of them, links the block to the latest one
    /// and mines it. The mined block is appended and handed back. When no
    /// nonce meets the difficulty of the block built, an error is returned
    /// and the chain and the pool are left as they were. The coinbase and
    /// the block are stamped with the current time.
    pub fn mine_block(&mut self, miner_address: &str) -> (res: Result<Block, String>)
        requires
            old(self).chain@.len() > 0,
        ensures
            exists|block_time: u64, coinbase_time: u64|
                mining_outcome(*old(self), *final(self), miner_address@, block_time, coinbase_time, res),
    {
        let coinbase_time = current_timestamp();
        let block_time = current_timestamp();
        self.mine_block_at(miner_address, block_time, coinbase_time)
    }

    /// Mines a new block as `mine_block` does, with the block created at
    /// `block_time` and the coinbase stamped `coinbase_time`.
    pub fn mine_block_at(&mut self, miner_address: &str, block_time: u64, coinbase_time: u64) -> (res: Result<Block, String>)
        requires
            old(self).chain@.len() > 0,
        ensures
            mining_outcome(*old(self), *final(self), miner_address@, block_time, coinbase_time, res),
    {
        let ghost old_chain = self.chain@;
        let ghost old_pool = self.transaction_pool@;
        let latest = self.get_latest_block();
        let previous_hash = latest.hash.clone();
        let index = self.chain.len() as u64;

        // Take up to ten pending transactions.
        let mut transactions = self.transaction_pool.take_transactions(MAX_POOL_TRANSACTIONS_PER_BLOCK);
        let ghost taken = transactions@;

        // The coinbase transaction pays the mining reward.
        let coinbase = Transaction::with_timestamp(
            String::from_str("system"),
            miner_address.to_owned(),
            COINBASE_REWARD,
            "50.0",
            coinbase_time,
        );
        proof {
            reveal_strlit("system");
            reveal_strlit("50.0");
            assert("system"@ =~= seq!['s', 'y', 's', 't', 'e', 'm']);
            assert("50.0"@ =~= seq!['5', '0', '.', '0']);
        }
        let mut block_txs: Vec<Transaction> = Vec::new();
        block_txs.push(coinbase);
        block_txs.append(&mut transactions);
        let ghost ids = seq![coinbase_id(miner_address@, coinbase_time)] + ids_of(taken);
        assert(ids_of(block_txs@) =~= ids);

        let mut block = Block::with_timestamp(index, previous_hash, block_txs, self.difficulty, block_time);
        let ghost candidate = block.header;
        assert(is_candidate_header(candidate, old_chain, self.difficulty, ids, block_time));
        match block.try_mine() {
            Some(nonce) => {
                let copy = block.clone();
                self.chain.push(copy);
                proof {
                    assert(block.header == with_nonce(candidate, nonce));
                    assert(with_nonce(block.header, 0) == candidate);
                    assert forall|m: u64| m < block.header.nonce implies !nonce_works(block.header, m) by {
                        assert(with_nonce(block.header, m) == with_nonce(candidate, m));
                        assert(!nonce_works(candidate, m));
                    }
                    assert(self.chain@.subrange(0, old_chain.len() as int) =~= old_chain);
                    if chain_valid(old_chain) && chain_indexed(old_chain) {
                        lemma_chain_extends(old_chain, self.chain@[old_chain.len() as int]);
                    }
                    assert(self.chain@ == old_chain.push(self.chain@[old_chain.len() as int]));
                    assert(block.transactions@.skip(1) =~= taken);
                }
                Ok(block)
            },
            None => {
                let mut txs = block.transactions;
                let taken_back = txs.split_off(1);
                self.transaction_pool.restore_front(taken_back);
                proof {
                    assert(taken_back@ =~= taken);
                    assert(self.transaction_pool@ =~= old_pool);
                    assert(forall|m: u64| !nonce_works(candidate, m));
                }
                Err(String::from_str("No nonce meets the difficulty target"))
            },
        }
    }

    /// Checks the chain and reports the first block that fails: the first
    /// block's proof of work, then, block by block from the second one, its
    /// proof of work, its link to the block before it, then its index.
    pub fn validate(&self) -> (res: Result<(), ChainFault>)
        ensures
            res is Ok <==> chain_valid(self.chain@),
            res matches Err(fault) ==> {
                let i = fault.position() as int;
                &&& 0 <= i < self.chain@.len()
                &&& i == 0 ==> fault == ChainFault::ProofOfWork(0) && !genesis_accepted(self.chain@)
                &&& i > 0 ==> genesis_accepted(self.chain@)
                    && (forall|j: int| 1 <= j < i ==> block_accepted(self.chain@, j))
                    && fault == fault_of(self.chain@, i)
            },
    {
        if self.chain.len() > 0 && !self.chain[0].verify_pow() {
            return Err(ChainFault::ProofOfWork(0));
        }
        let mut i: usize = 1;
        while i < self.chain.len()
            invariant
                1 <= i,
                i <= self.chain@.len() || self.chain@.len() == 0,
                genesis_accepted(self.chain@),
                forall|j: int| 1 <= j < i ==> block_accepted(self.chain@, j),
            decreases self.chain@.len() - i,
        {
            let current = &self.chain[i];
            let previous = &self.chain[i - 1];
            if !current.verify_pow() {
                assert(!block_accepted(self.chain@, i as int));
                return Err(ChainFault::ProofOfWork(i));
            }
            if !string_eq(&current.header.previous_hash, &previous.hash) {
                assert(!block_accepted(self.chain@, i as int));
                return Err(ChainFault::BrokenLink(i));
            }
            if previous.header.index == u64::MAX || current.header.index != previous.header.index + 1 {
                assert(!block_accepted(self.chain@, i as int));
                return Err(ChainFault::BadIndex(i));
            }
            i = i + 1;
        }
        Ok(())
    }

    /// Validates the entire chain.
    pub fn is_valid(&self) -> (ok: bool)
        ensures
            ok == chain_valid(self.chain@),
    {
        self.validate().is_ok()
    }

    /// Figures about the chain; the chain must not be empty, and its
    /// transactions must be countable in a `usize`.
    pub fn get_stats(&self) -> (stats: BlockchainStats)
        requires
            self.chain@.len() > 0,
            total_transactions_of(self.chain@) <= usize::MAX,
        ensures
            stats.total_blocks == self.chain@.len(),
            stats.total_transactions == total_transactions_of(self.chain@),
            stats.pending_transactions == self.transaction_pool@.len(),
            stats.difficulty == self.difficulty,
            stats.latest_hash == self.chain@.last().hash,
    {
        let mut total: usize = 0;
        let mut i: usize = 0;
        while i < self.chain.len()
            invariant
                i <= self.chain@.len(),
                total == total_transactions_of(self.chain@.subrange(0, i as int)),
                total_transactions_of(self.chain@) <= usize::MAX,
            decreases self.chain@.len() - i,
        {
            proof {
                lemma_total_prefix_monotone(self.chain@, i as int + 1);
                assert(self.chain@.subrange(0, i + 1).drop_last() =~= self.chain@.subrange(0, i as int));
            }
            total = total + self.chain[i].transactions.len();
            i = i + 1;
        }
        assert(self.chain@.subrange(0, i as int) =~= self.chain@);
        BlockchainStats {
            total_blocks: self.chain.len(),
            total_transactions: total,
            pending_transactions: self.transaction_pool.pending_count(),
            difficulty: self.difficulty,
            latest_hash: self.get_latest_block().hash.clone(),
        }
    }
}

impl Default for Blockchain {
    fn default() -> (blockchain: Self)
        ensures
            blockchain.chain@.len() == 1,
            is_genesis(blockchain.chain@[0]),
            blockchain.difficulty == INITIAL_DIFFICULTY,
            blockchain.transaction_pool@.len() == 0,
    {
        Self::new()
    }
}

/// Appending a block that carries the next index, names the hash of the
/// latest block and meets its difficulty keeps a valid, sequentially
/// indexed chain valid and sequentially indexed.
pub proof fn lemma_chain_extends(chain: Seq<Block>, block: Block)
    requires
        chain.len() > 0,
        chain_valid(chain),
        chain_indexed(chain),
        block.header.index == chain.len(),
        block.header.previous_hash@ == chain.last().hash@,
        meets_difficulty(block.hash@, block.header.difficulty),
    ensures
        chain_valid(chain.push(block)),
        chain_indexed(chain.push(block)),
{
    let extended = chain.push(block);
    assert forall|i: int| 1 <= i < extended.len() implies block_accepted(extended, i) by {
        if i < chain.len() {
            assert(block_accepted(chain, i));
        } else {
            assert(chain[i - 1].header.index == i - 1);
        }
    }
    assert forall|i: int| 0 <= i < extended.len() implies #[trigger] extended[i].header.index == i by {
        if i < chain.len() {
            assert(chain[i].header.index == i);
        }
    }
}

/// Counting transactions is additive: the empty chain holds none, and a
/// chain made of two parts holds the transactions of both.
pub proof fn lemma_total_transactions_additive(first: Seq<Block>, second: Seq<Block>)
    ensures
        total_transactions_of(Seq::<Block>::empty()) == 0,
        total_transactions_of(first + second) == total_transactions_of(first) + total_transactions_of(second),
    decreases second.len(),
{
    if second.len() > 0 {
        lemma_total_transactions_additive(first, second.drop_last());
        assert((first + second).drop_last() =~= first + second.drop_last());
    } else {
        assert(first + second =~= first);
    }
}

/// A chain holds the transactions of each of its blocks: appending a block
/// adds exactly the number of transactions in it.
pub proof fn lemma_total_transactions_push(chain: Seq<Block>, block: Block)
    ensures
        total_transactions_of(chain.push(block)) == total_transactions_of(chain) + block.transactions@.len(),
{
    lemma_total_transactions_additive(chain, seq![block]);
    assert(chain + seq![block] =~= chain.push(block));
    assert(seq![block].drop_last() =~= Seq::<Block>::empty());
}

/// What a successful mining step does to the chain: the block handed back
/// is appended after the blocks that were there, carries the next index,
/// names the latest block's hash, was built at the chain's difficulty (not
/// that of any block) with the given creation time, and meets that
/// difficulty; the chain's difficulty stays; the pool loses exactly the
/// transactions taken, which follow the coinbase in the block.
pub proof fn lemma_mined_block_extends_chain(
    before: Blockchain,
    after: Blockchain,
    miner: Seq<char>,
    block_time: u64,
    coinbase_time: u64,
    block: Block,
)
    requires
        mining_outcome(before, after, miner, block_time, coinbase_time, Ok(block)),
    ensures
        after.chain@.len() == before.chain@.len() + 1,
        after.chain@.subrange(0, before.chain@.len() as int) == before.chain@,
        after.chain@.last().header == block.header,
        after.chain@.last().hash == block.hash,
        block.header.index == before.chain@.len(),
        block.header.previous_hash@ == before.chain@.last().hash@,
        block.header.difficulty == before.difficulty,
        block.header.timestamp == block_time,
        meets_difficulty(block.hash@, before.difficulty),
        after.difficulty == before.difficulty,
        block.transactions@[0].timestamp == coinbase_time,
        block.transactions@[0].to@ == miner,
        block.transactions@[0].amount == COINBASE_REWARD,
        block.transactions@.skip(1) + after.transaction_pool@ == before.transaction_pool@,
{
    let taken = min_len(MAX_POOL_TRANSACTIONS_PER_BLOCK, before.transaction_pool@.len());
    let pool = before.transaction_pool@;
    assert(pool.take(taken as int) + pool.skip(taken as int) =~= pool);
}

/// A valid chain whose first block carries index 0 is sequentially
/// indexed: each accepted block carries the index after the one before it.
pub proof fn lemma_valid_chain_is_indexed(chain: Seq<Block>)
    requires
        chain_valid(chain),
        chain.len() > 0,
        chain[0].header.index == 0,
    ensures
        chain_indexed(chain),
{
    assert forall|i: int| 0 <= i < chain.len() implies #[trigger] chain[i].header.index == i by {
        lemma_valid_chain_index_at(chain, i);
    }
}

/// Block `i` of a valid chain whose first index is 0 carries index `i`.
proof fn lemma_valid_chain_index_at(chain: Seq<Block>, i: int)
    requires
        chain_valid(chain),
        0 <= i < chain.len(),
        chain[0].header.index == 0,
    ensures
        chain[i].header.index == i,
    decreases i,
{
    if i > 0 {
        lemma_valid_chain_index_at(chain, i - 1);
        assert(block_accepted(chain, i));
    }
}

/// Replacing the hash recorded for a block with one that the next block does
/// not name as its previous hash makes the chain invalid.
pub proof fn lemma_tampered_hash_breaks_chain(chain: Seq<Block>, i: int, hash: String)
    requires
        0 <= i < chain.len() - 1,
        hash@ != chain[i + 1].header.previous_hash@,
    ensures
        !chain_valid(chain.update(i, Block { hash, ..chain[i] })),
{
    let tampered = chain.update(i, Block { hash, ..chain[i] });
    assert(!block_accepted(tampered, i + 1));
}

/// The count of transactions over a prefix never exceeds the count over
/// the whole chain.
proof fn lemma_total_prefix_monotone(chain: Seq<Block>, k: int)
    requires
        0 <= k <= chain.len(),
    ensures
        total_transactions_of(chain.subrange(0, k)) <= total_transactions_of(chain),
    decreases chain.len() - k,
{
    if k < chain.len() {
        lemma_total_prefix_monotone(chain, k + 1);
        assert(chain.subrange(0, k + 1).drop_last() =~= chain.subrange(0, k));
    } else {
        assert(chain.subrange(0, k) =~= chain);
    }
}

} // verus!
