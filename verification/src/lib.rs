//! A proof-of-work blockchain: transactions signed with secp256k1 wallets,
//! blocks mined over SHA-256 hashes of their headers, and chain validation.
pub mod block;
pub mod blockchain;
pub mod clock;
pub mod crypto;
pub mod encoding;
pub mod persistence;
pub mod transaction;
pub mod wallet;

pub use blockchain::Blockchain;
pub use persistence::Store;
pub use transaction::Transaction;
pub use wallet::Wallet;
