use vstd::prelude::*;
use vstd::std_specs::cmp::PartialEqSpec;

verus! {

/// Where a transaction stands in its lifecycle, and the tick at which it got
/// there. No state is barred from following another.
#[derive(Debug)]
pub enum TransactionState {
    Created { timestamp: u64 },
    OnProcess { timestamp: u64 },
    Completed { timestamp: u64 },
    Failed { timestamp: u64 },
    Blocked { timestamp: u64 },
}

impl TransactionState {
    /// The tick that the state carries.
    pub open spec fn timestamp(&self) -> u64 {
        match *self {
            TransactionState::Created { timestamp } => timestamp,
            TransactionState::OnProcess { timestamp } => timestamp,
            TransactionState::Completed { timestamp } => timestamp,
            TransactionState::Failed { timestamp } => timestamp,
            TransactionState::Blocked { timestamp } => timestamp,
        }
    }

    /// Whether the two states are of one variant, whatever their ticks.
    pub open spec fn same_variant(&self, other: &TransactionState) -> bool {
        ||| (*self is Created && *other is Created)
        ||| (*self is OnProcess && *other is OnProcess)
        ||| (*self is Completed && *other is Completed)
        ||| (*self is Failed && *other is Failed)
        ||| (*self is Blocked && *other is Blocked)
    }

    /// Two states compare equal exactly when they are the same value, and
    /// they are the same value exactly when they are of one variant and carry
    /// one tick.
    pub proof fn lemma_eq_is_identity(a: TransactionState, b: TransactionState)
        ensures
            a.eq_spec(&b) <==> a == b,
            a == b <==> a.same_variant(&b) && a.timestamp() == b.timestamp(),
    {
    }

    /// Every state is equal to itself.
    pub proof fn lemma_eq_reflexive(a: TransactionState)
        ensures
            a.eq_spec(&a),
    {
    }

    /// Two states whose ticks differ are unequal, of one variant or not.
    pub proof fn lemma_ne_by_timestamp(a: TransactionState, b: TransactionState)
        requires
            a.timestamp() != b.timestamp(),
        ensures
            !a.eq_spec(&b),
    {
    }

    /// Two states of different variants are unequal, whatever their ticks.
    pub proof fn lemma_ne_by_variant(a: TransactionState, b: TransactionState)
        requires
            !a.same_variant(&b),
        ensures
            !a.eq_spec(&b),
    {
    }
}

impl Clone for TransactionState {
    fn clone(&self) -> (copy: Self)
        ensures
            copy == *self,
    {
        match *self {
            TransactionState::Created { timestamp } => TransactionState::Created { timestamp },
            TransactionState::OnProcess { timestamp } => TransactionState::OnProcess { timestamp },
            TransactionState::Completed { timestamp } => TransactionState::Completed { timestamp },
            TransactionState::Failed { timestamp } => TransactionState::Failed { timestamp },
            TransactionState::Blocked { timestamp } => TransactionState::Blocked { timestamp },
        }
    }
}

impl PartialEq for TransactionState {
    fn eq(&self, other: &Self) -> (equal: bool) {
        match (self, other) {
            (
                TransactionState::Created { timestamp: a },
                TransactionState::Created { timestamp: b },
            ) => *a == *b,
            (
                TransactionState::OnProcess { timestamp: a },
                TransactionState::OnProcess { timestamp: b },
            ) => *a == *b,
            (
                TransactionState::Completed { timestamp: a },
                TransactionState::Completed { timestamp: b },
            ) => *a == *b,
            (
                TransactionState::Failed { timestamp: a },
                TransactionState::Failed { timestamp: b },
            ) => *a == *b,
            (
                TransactionState::Blocked { timestamp: a },
                TransactionState::Blocked { timestamp: b },
            ) => *a == *b,
            _ => false,
        }
    }

    fn ne(&self, other: &Self) -> (unequal: bool) {
        !self.eq(other)
    }
}

impl vstd::std_specs::cmp::PartialEqSpecImpl for TransactionState {
    open spec fn obeys_eq_spec() -> bool {
        true
    }

    /// Equal states are of one variant and carry one tick.
    open spec fn eq_spec(&self, other: &Self) -> bool {
        self.same_variant(other) && self.timestamp() == other.timestamp()
    }
}

} // verus!
