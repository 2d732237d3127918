//! The value types of the ledger.

pub mod entity;
pub mod transaction;
pub mod transaction_state;
pub mod wallet;
pub use entity::{Entity, EntityView};
pub use transaction::{Transaction, TransactionView};
pub use transaction_state::TransactionState;
pub use wallet::Wallet;
