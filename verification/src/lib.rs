//! A minimal coin ledger: wallets with a signed balance, the entities that own
//! them, and transactions that record a movement of coins and its lifecycle.

pub mod error;
pub mod model;
pub mod text;
