//! The part of saving and loading a chain that is not file access: what a
//! saved chain turns back into.
use vstd::prelude::*;

use crate::block::Block;
use crate::blockchain::{Blockchain, INITIAL_DIFFICULTY};
use crate::transaction::{Transaction, TransactionPool};

verus! {

/// Saving and loading of blockchains.
pub struct Store;

impl Store {
    /// The blockchain that a saved chain and its saved pending transactions
    /// describe; the difficulty is not saved and starts again at the initial
    /// one.
    pub fn restore_blockchain(chain: Vec<Block>, pending_transactions: Vec<Transaction>) -> (blockchain: Blockchain)
        ensures
            blockchain.chain == chain,
            blockchain.difficulty == INITIAL_DIFFICULTY,
            blockchain.transaction_pool@ == pending_transactions@,
    {
        Blockchain {
            chain,
            difficulty: INITIAL_DIFFICULTY,
            transaction_pool: TransactionPool::from_transactions(pending_transactions),
        }
    }
}

} // verus!
