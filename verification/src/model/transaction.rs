use vstd::prelude::*;

use crate::model::transaction_state::TransactionState;

verus! {

/// What a transaction records, as plain values.
pub struct TransactionView {
    pub id: Seq<char>,
    pub from_entity_id: Seq<char>,
    pub to_entity_id: Seq<char>,
    pub amount: u32,
    pub description: Seq<char>,
    pub current_state: TransactionState,
    pub state_history: Seq<TransactionState>,
}

/// The record of a movement of coins from one entity to another: who, how
/// much, why, the state it is in and the states it went through, oldest
/// first. The record is taken as given: nothing ties the current state to the
/// history, and no amount is refused.
#[derive(Debug)]
pub struct Transaction {
    id: String,
    from_entity_id: String,
    to_entity_id: String,
    amount: u32,
    description: String,
    current_state: TransactionState,
    state_history: Vec<TransactionState>,
}

impl View for Transaction {
    type V = TransactionView;

    closed spec fn view(&self) -> TransactionView {
        TransactionView {
            id: self.id@,
            from_entity_id: self.from_entity_id@,
            to_entity_id: self.to_entity_id@,
            amount: self.amount,
            description: self.description@,
            current_state: self.current_state,
            state_history: self.state_history@,
        }
    }
}

impl Clone for Transaction {
    fn clone(&self) -> (copy: Self)
        ensures
            copy@ == self@,
    {
        Transaction {
            id: self.id.clone(),
            from_entity_id: self.from_entity_id.clone(),
            to_entity_id: self.to_entity_id.clone(),
            amount: self.amount,
            description: self.description.clone(),
            current_state: self.current_state.clone(),
            state_history: self.get_state_history(),
        }
    }
}

impl Transaction {
    /// A transaction that records exactly what it is given.
    pub fn new(
        id: String,
        from_entity_id: String,
        to_entity_id: String,
        amount: u32,
        description: String,
        current_state: TransactionState,
        state_history: Vec<TransactionState>,
    ) -> (transaction: Transaction)
        ensures
            transaction@ == (TransactionView {
                id: id@,
                from_entity_id: from_entity_id@,
                to_entity_id: to_entity_id@,
                amount,
                description: description@,
                current_state,
                state_history: state_history@,
            }),
    {
        Transaction {
            id,
            from_entity_id,
            to_entity_id,
            amount,
            description,
            current_state,
            state_history,
        }
    }

    /// A copy of the transaction's identifier.
    pub fn get_id(&self) -> (id: String)
        ensures
            id@ == self@.id,
    {
        self.id.clone()
    }

    /// A copy of the identifier of the entity that gives the coins.
    pub fn get_from_entity_id(&self) -> (id: String)
        ensures
            id@ == self@.from_entity_id,
    {
        self.from_entity_id.clone()
    }

    /// A copy of the identifier of the entity that receives the coins.
    pub fn get_to_entity_id(&self) -> (id: String)
        ensures
            id@ == self@.to_entity_id,
    {
        self.to_entity_id.clone()
    }

    /// The number of coins moved.
    pub fn get_amount(&self) -> (amount: u32)
        ensures
            amount == self@.amount,
    {
        self.amount
    }

    /// A copy of the transaction's description.
    pub fn get_description(&self) -> (description: String)
        ensures
            description@ == self@.description,
    {
        self.description.clone()
    }

    /// A copy of the state that the transaction is in.
    pub fn get_current_state(&self) -> (state: TransactionState)
        ensures
            state == self@.current_state,
    {
        self.current_state.clone()
    }

    /// A copy of the states that the transaction went through, oldest first.
    pub fn get_state_history(&self) -> (history: Vec<TransactionState>)
        ensures
            history@ == self@.state_history,
    {
        let history = self.state_history.clone();
        assert(history@ =~= self.state_history@);
        history
    }
}

} // verus!
