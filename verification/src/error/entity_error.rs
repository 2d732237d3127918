use vstd::prelude::*;

use crate::error::wallet_error::WalletError;

verus! {

/// Why an entity refused an operation: its wallet did, with `error`.
#[derive(Debug, PartialEq, Eq, Structural)]
pub enum EntityError {
    WalletOperationError { error: WalletError },
}

impl Clone for EntityError {
    fn clone(&self) -> (copy: Self)
        ensures
            copy == *self,
    {
        match self {
            EntityError::WalletOperationError { error } => EntityError::WalletOperationError {
                error: error.clone(),
            },
        }
    }
}

impl EntityError {
    /// The text of the message that describes this error: a fixed opening,
    /// then the message of the wallet's error.
    pub open spec fn message_text(&self) -> Seq<char> {
        match *self {
            EntityError::WalletOperationError { error } => {
                "A wallet operation generated the following error -> "@ + error.message_text()
            },
        }
    }

    /// The message that describes this error to a reader.
    pub fn message(&self) -> (text: String)
        ensures
            text@ == self.message_text(),
    {
        match self {
            EntityError::WalletOperationError { error } => {
                let mut text = String::from_str(
                    "A wallet operation generated the following error -> ",
                );
                let cause = error.message();
                text.append(cause.as_str());
                text
            },
        }
    }
}

} // verus!
