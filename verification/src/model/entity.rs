use vstd::prelude::*;

use crate::error::{EntityError, WalletError};
use crate::model::wallet::Wallet;

verus! {

/// What an entity is, as plain values: its identifier, its name and the
/// balance of its wallet.
pub struct EntityView {
    pub id: Seq<char>,
    pub name: Seq<char>,
    pub balance: int,
}

/// A person or an organization that owns one wallet.
#[derive(Debug)]
pub struct Entity<'a> {
    id: &'a str,
    name: &'a str,
    wallet: Wallet,
}

impl<'a> View for Entity<'a> {
    type V = EntityView;

    closed spec fn view(&self) -> EntityView {
        EntityView { id: self.id@, name: self.name@, balance: self.wallet@ }
    }
}

impl<'a> Clone for Entity<'a> {
    fn clone(&self) -> (copy: Self)
        ensures
            copy@ == self@,
    {
        Entity { id: self.id, name: self.name, wallet: self.wallet.clone() }
    }
}

impl<'a> Entity<'a> {
    /// What an operation of the entity reports when its wallet reports
    /// `outcome`: success as it is, and the wallet's error wrapped whole.
    pub open spec fn wrap_outcome(outcome: Result<int, WalletError>) -> Result<int, EntityError> {
        match outcome {
            Ok(balance) => Ok(balance),
            Err(error) => Err(EntityError::WalletOperationError { error }),
        }
    }

    /// An entity with the given identifier and name, which owns `wallet`.
    pub fn new(id: &'a str, name: &'a str, wallet: Wallet) -> (entity: Entity<'a>)
        ensures
            entity@ == (EntityView { id: id@, name: name@, balance: wallet@ }),
    {
        Entity { id, name, wallet }
    }

    /// The entity's identifier.
    pub fn get_id(&self) -> (id: &str)
        ensures
            id@ == self@.id,
    {
        self.id
    }

    /// The entity's name.
    pub fn get_name(&self) -> (name: &str)
        ensures
            name@ == self@.name,
    {
        self.name
    }

    /// A copy of the entity's wallet. The copy is a value of its own: what
    /// is done to it does not reach the entity.
    pub fn get_wallet(&self) -> (wallet: Wallet)
        ensures
            wallet@ == self@.balance,
    {
        self.wallet.clone()
    }

    /// Adds coins to the entity's wallet. The wallet decides; its error, if
    /// any, comes back wrapped, and the entity is then unchanged.
    pub fn add_coins(&mut self, coins_to_add: u32) -> (result: Result<(), EntityError>)
        ensures
            match Self::wrap_outcome(Wallet::add_outcome(old(self)@.balance, coins_to_add)) {
                Ok(balance) => result is Ok && final(self)@ == (EntityView { balance, ..old(self)@ }),
                Err(error) => result == Err::<(), EntityError>(error) && final(self)@ == old(self)@,
            },
    {
        match self.wallet.add_coins(coins_to_add) {
            Ok(_) => Ok(()),
            Err(error) => Err(EntityError::WalletOperationError { error }),
        }
    }

    /// Removes coins from the entity's wallet. The wallet decides; its
    /// error, if any, comes back wrapped, and the entity is then unchanged.
    pub fn remove_coins(
        &mut self,
        coins_to_remove: u32,
        allow_negative_balance: bool,
    ) -> (result: Result<(), EntityError>)
        ensures
            match Self::wrap_outcome(
                Wallet::remove_outcome(old(self)@.balance, coins_to_remove, allow_negative_balance),
            ) {
                Ok(balance) => result is Ok && final(self)@ == (EntityView { balance, ..old(self)@ }),
                Err(error) => result == Err::<(), EntityError>(error) && final(self)@ == old(self)@,
            },
    {
        match self.wallet.remove_coins(coins_to_remove, allow_negative_balance) {
            Ok(_) => Ok(()),
            Err(error) => Err(EntityError::WalletOperationError { error }),
        }
    }
}

} // verus!
