use banana_coin::model::transaction_state::TransactionState::{
    Blocked, Completed, Created, Failed, OnProcess,
};
use banana_coin::model::TransactionState;

#[test]
fn equality() {
    assert!(Created { timestamp: 1 } == Created { timestamp: 1 });
    assert!(OnProcess { timestamp: 2 } == OnProcess { timestamp: 2 });
    assert!(Completed { timestamp: 3 } == Completed { timestamp: 3 });
    assert!(Failed { timestamp: 4 } == Failed { timestamp: 4 });
    assert!(Blocked { timestamp: 5 } == Blocked { timestamp: 5 });
}

#[test]
fn inequality_state() {
    assert!(Created { timestamp: 1 } != OnProcess { timestamp: 1 });
    assert!(OnProcess { timestamp: 2 } != Completed { timestamp: 2 });
    assert!(Completed { timestamp: 3 } != Failed { timestamp: 3 });
    assert!(Failed { timestamp: 4 } != Blocked { timestamp: 4 });
    assert!(Blocked { timestamp: 5 } != Created { timestamp: 5 });
}

#[test]
fn inequality_timestamp() {
    assert!(Created { timestamp: 1 } != Created { timestamp: 2 });
    assert!(OnProcess { timestamp: 2 } != OnProcess { timestamp: 3 });
    assert!(Completed { timestamp: 3 } != Completed { timestamp: 4 });
    assert!(Failed { timestamp: 4 } != Failed { timestamp: 5 });
    assert!(Blocked { timestamp: 5 } != Blocked { timestamp: 6 });
}

fn one_of_each(timestamp: u64) -> Vec<TransactionState> {
    vec![
        Created { timestamp },
        OnProcess { timestamp },
        Completed { timestamp },
        Failed { timestamp },
        Blocked { timestamp },
    ]
}

#[test]
fn states_are_equal_only_with_one_variant_and_one_tick() {
    let ticks: [u64; 4] = [0, 1, 7, u64::MAX];
    for &left_tick in ticks.iter() {
        for &right_tick in ticks.iter() {
            let left = one_of_each(left_tick);
            let right = one_of_each(right_tick);
            for i in 0..left.len() {
                for j in 0..right.len() {
                    let expected = i == j && left_tick == right_tick;
                    assert_eq!(left[i] == right[j], expected);
                    assert_eq!(left[i] != right[j], !expected);
                }
            }
        }
    }
}

#[test]
fn state_clone_is_equal() {
    for state in one_of_each(42) {
        assert_eq!(state.clone(), state);
    }
}
