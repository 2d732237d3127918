//! The errors that wallets and entities report.

pub mod entity_error;
pub mod wallet_error;
pub use entity_error::EntityError;
pub use wallet_error::WalletError;
