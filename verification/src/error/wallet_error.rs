use vstd::prelude::*;

use crate::text::{append_bool, append_decimal_i64, append_decimal_u64, bool_text, decimal_int, decimal_nat};

verus! {

/// Why a wallet refused to change its balance.
///
/// `AddCoinError` and `RemoveCoinError` are generic fallbacks: no operation of
/// the wallet ever reports them.
#[derive(Debug, PartialEq, Eq, Structural)]
pub enum WalletError {
    AddCoinError,
    AddZeroCoinError,
    AddCoinOverflowError { current_amount: i64, added_amount: u32 },
    RemoveCoinError,
    RemoveZeroCoinError,
    RemoveCoinOverflowError { current_amount: i64, removed_amount: u32 },
    RemoveCoinNegativeBalanceError {
        current_amount: i64,
        removed_amount: u32,
        negative_balance_allowed: bool,
    },
}

impl Clone for WalletError {
    fn clone(&self) -> (copy: Self)
        ensures
            copy == *self,
    {
        match *self {
            WalletError::AddCoinError => WalletError::AddCoinError,
            WalletError::AddZeroCoinError => WalletError::AddZeroCoinError,
            WalletError::AddCoinOverflowError { current_amount, added_amount } => {
                WalletError::AddCoinOverflowError { current_amount, added_amount }
            },
            WalletError::RemoveCoinError => WalletError::RemoveCoinError,
            WalletError::RemoveZeroCoinError => WalletError::RemoveZeroCoinError,
            WalletError::RemoveCoinOverflowError { current_amount, removed_amount } => {
                WalletError::RemoveCoinOverflowError { current_amount, removed_amount }
            },
            WalletError::RemoveCoinNegativeBalanceError {
                current_amount,
                removed_amount,
                negative_balance_allowed,
            } => WalletError::RemoveCoinNegativeBalanceError {
                current_amount,
                removed_amount,
                negative_balance_allowed,
            },
        }
    }
}

impl WalletError {
    /// The text of the message that describes this error. Each value that the
    /// error carries stands in it: the amounts as decimal numerals, the flag
    /// as a word.
    pub open spec fn message_text(&self) -> Seq<char> {
        match *self {
            WalletError::AddCoinError => "Impossible to add coin to the wallet. This error should never happen."@,
            WalletError::AddZeroCoinError => "The wallet does not allow to add a zero/null amount of coins."@,
            WalletError::AddCoinOverflowError { current_amount, added_amount } => {
                "An overflow has been detected: the current amount is "@ + decimal_int(
                    current_amount as int,
                ) + " and the added amount is "@ + decimal_nat(added_amount as nat)
            },
            WalletError::RemoveCoinError => "Impossible to remove coin from the wallet. This error should never happen."@,
            WalletError::RemoveZeroCoinError => "The wallet does not allow to remove a zero/null amount of coins."@,
            WalletError::RemoveCoinOverflowError { current_amount, removed_amount } => {
                "An overflow has been detected: the current amount is "@ + decimal_int(
                    current_amount as int,
                ) + " and the removed amount is "@ + decimal_nat(removed_amount as nat)
            },
            WalletError::RemoveCoinNegativeBalanceError {
                current_amount,
                removed_amount,
                negative_balance_allowed,
            } => {
                "Removing coins from this wallet will return a negative balance: the current amount is "@
                    + decimal_int(current_amount as int) + " and the removed amount is "@
                    + decimal_nat(removed_amount as nat) + " and negative balance flag is "@
                    + bool_text(negative_balance_allowed)
            },
        }
    }

    /// The message that describes this error to a reader.
    pub fn message(&self) -> (text: String)
        ensures
            text@ == self.message_text(),
    {
        match *self {
            WalletError::AddCoinError => String::from_str(
                "Impossible to add coin to the wallet. This error should never happen.",
            ),
            WalletError::AddZeroCoinError => String::from_str(
                "The wallet does not allow to add a zero/null amount of coins.",
            ),
            WalletError::AddCoinOverflowError { current_amount, added_amount } => {
                let mut text = String::from_str(
                    "An overflow has been detected: the current amount is ",
                );
                append_decimal_i64(&mut text, current_amount);
                text.append(" and the added amount is ");
                append_decimal_u64(&mut text, added_amount as u64);
                text
            },
            WalletError::RemoveCoinError => String::from_str(
                "Impossible to remove coin from the wallet. This error should never happen.",
            ),
            WalletError::RemoveZeroCoinError => String::from_str(
                "The wallet does not allow to remove a zero/null amount of coins.",
            ),
            WalletError::RemoveCoinOverflowError { current_amount, removed_amount } => {
                let mut text = String::from_str(
                    "An overflow has been detected: the current amount is ",
                );
                append_decimal_i64(&mut text, current_amount);
                text.append(" and the removed amount is ");
                append_decimal_u64(&mut text, removed_amount as u64);
                text
            },
            WalletError::RemoveCoinNegativeBalanceError {
                current_amount,
                removed_amount,
                negative_balance_allowed,
            } => {
                let mut text = String::from_str(
                    "Removing coins from this wallet will return a negative balance: the current amount is ",
                );
                append_decimal_i64(&mut text, current_amount);
                text.append(" and the removed amount is ");
                append_decimal_u64(&mut text, removed_amount as u64);
                text.append(" and negative balance flag is ");
                append_bool(&mut text, negative_balance_allowed);
                text
            },
        }
    }
}

} // verus!
