use vstd::prelude::*;

use crate::error::WalletError;

verus! {

/// A wallet: one signed balance of coins, which may be negative.
#[derive(Debug)]
pub struct Wallet {
    balance: i64,
}

impl View for Wallet {
    type V = int;

    /// A wallet is modelled by its balance.
    open spec fn view(&self) -> int {
        self.spec_get_balance() as int
    }
}

impl Clone for Wallet {
    fn clone(&self) -> (copy: Self)
        ensures
            copy == *self,
    {
        Wallet { balance: self.balance }
    }
}

impl Wallet {
    /// The balance as the machine holds it.
    pub closed spec fn spec_get_balance(&self) -> i64 {
        self.balance
    }

    /// What adding `amount` coins to a wallet with `balance` gives: the new
    /// balance, or the error that leaves the wallet as it was.
    pub open spec fn add_outcome(balance: int, amount: u32) -> Result<int, WalletError>
        recommends
            i64::MIN <= balance <= i64::MAX,
    {
        if amount == 0 {
            Err(WalletError::AddZeroCoinError)
        } else if balance + amount > i64::MAX {
            Err(
                WalletError::AddCoinOverflowError {
                    current_amount: balance as i64,
                    added_amount: amount,
                },
            )
        } else {
            Ok(balance + amount)
        }
    }

    /// What removing `amount` coins from a wallet with `balance` gives: the
    /// new balance, or the error that leaves the wallet as it was. A result
    /// below the signed 64-bit range is an overflow whatever the flag says;
    /// a negative result within the range is refused unless the flag allows it.
    pub open spec fn remove_outcome(
        balance: int,
        amount: u32,
        allow_negative_balance: bool,
    ) -> Result<int, WalletError>
        recommends
            i64::MIN <= balance <= i64::MAX,
    {
        if amount == 0 {
            Err(WalletError::RemoveZeroCoinError)
        } else if balance - amount < i64::MIN {
            Err(
                WalletError::RemoveCoinOverflowError {
                    current_amount: balance as i64,
                    removed_amount: amount,
                },
            )
        } else if balance - amount < 0 && !allow_negative_balance {
            Err(
                WalletError::RemoveCoinNegativeBalanceError {
                    current_amount: balance as i64,
                    removed_amount: amount,
                    negative_balance_allowed: allow_negative_balance,
                },
            )
        } else {
            Ok(balance - amount)
        }
    }

    /// A wallet that holds `balance` coins. Any balance is accepted, a
    /// negative one too.
    pub fn new(balance: i64) -> (wallet: Wallet)
        ensures
            wallet.get_balance() == balance,
    {
        Wallet { balance }
    }

    /// The coins in the wallet.
    #[verifier::when_used_as_spec(spec_get_balance)]
    pub fn get_balance(&self) -> (balance: i64)
        ensures
            balance == self.spec_get_balance(),
    {
        self.balance
    }

    /// Adds `coins_to_add` coins. Adding nothing is an error, and so is a sum
    /// above the signed 64-bit range; on any error the balance stays.
    pub fn add_coins(&mut self, coins_to_add: u32) -> (result: Result<(), WalletError>)
        ensures
            match Self::add_outcome(old(self)@, coins_to_add) {
                Ok(balance) => result is Ok && final(self)@ == balance,
                Err(error) => result == Err::<(), WalletError>(error) && final(self)@ == old(self)@,
            },
            result is Err ==> *final(self) == *old(self),
    {
        if coins_to_add == 0 {
            return Err(WalletError::AddZeroCoinError);
        }
        match self.balance.checked_add(coins_to_add as i64) {
            Some(new_balance) => {
                self.balance = new_balance;
                Ok(())
            },
            None => Err(
                WalletError::AddCoinOverflowError {
                    current_amount: self.balance,
                    added_amount: coins_to_add,
                },
            ),
        }
    }

    /// Removes `coins_to_remove` coins. Removing nothing is an error, and so
    /// is a difference below the signed 64-bit range; a negative difference is
    /// an error unless `allow_negative_balance` is set. On any error the
    /// balance stays.
    pub fn remove_coins(
        &mut self,
        coins_to_remove: u32,
        allow_negative_balance: bool,
    ) -> (result: Result<(), WalletError>)
        ensures
            match Self::remove_outcome(old(self)@, coins_to_remove, allow_negative_balance) {
                Ok(balance) => result is Ok && final(self)@ == balance,
                Err(error) => result == Err::<(), WalletError>(error) && final(self)@ == old(self)@,
            },
            result is Err ==> *final(self) == *old(self),
    {
        if coins_to_remove == 0 {
            return Err(WalletError::RemoveZeroCoinError);
        }
        match self.balance.checked_sub(coins_to_remove as i64) {
            Some(total_coins) => {
                if !allow_negative_balance && total_coins < 0 {
                    return Err(
                        WalletError::RemoveCoinNegativeBalanceError {
                            current_amount: self.balance,
                            removed_amount: coins_to_remove,
                            negative_balance_allowed: allow_negative_balance,
                        },
                    );
                }
                self.balance = total_coins;
                Ok(())
            },
            None => Err(
                WalletError::RemoveCoinOverflowError {
                    current_amount: self.balance,
                    removed_amount: coins_to_remove,
                },
            ),
        }
    }
}

} // verus!
