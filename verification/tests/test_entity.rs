use banana_coin::error::{EntityError, WalletError};
use banana_coin::model::{Entity, Wallet};

#[test]
fn new_entity_holds_what_it_is_given() {
    let entity = Entity::new("id_0001", "john", Wallet::new(0));
    assert_eq!(entity.get_id(), "id_0001");
    assert_eq!(entity.get_name(), "john");
    assert_eq!(entity.get_wallet().get_balance(), 0);

    let entity = Entity::new("", "", Wallet::new(i64::MIN));
    assert_eq!(entity.get_id(), "");
    assert_eq!(entity.get_name(), "");
    assert_eq!(entity.get_wallet().get_balance(), i64::MIN);
}

#[test]
fn entity_wallet_copy_is_independent() {
    let entity = Entity::new("id_0001", "john", Wallet::new(0));
    let mut entity_wallet: Wallet = entity.get_wallet();
    assert_eq!(entity_wallet.add_coins(100), Ok(()));
    assert_eq!(entity.get_wallet().get_balance(), 0);
    assert_eq!(entity_wallet.get_balance(), 100);
    assert_eq!(entity_wallet.remove_coins(500, true), Ok(()));
    assert_eq!(entity.get_wallet().get_balance(), 0);
    assert_eq!(entity_wallet.get_balance(), -400);
}

#[test]
fn entity_add_coins_changes_its_own_wallet() {
    let mut entity = Entity::new("id_0001", "john", Wallet::new(-5));
    assert_eq!(entity.add_coins(100), Ok(()));
    assert_eq!(entity.get_wallet().get_balance(), 95);
    assert_eq!(entity.get_id(), "id_0001");
    assert_eq!(entity.get_name(), "john");
}

#[test]
fn entity_remove_coins_changes_its_own_wallet() {
    let mut entity = Entity::new("id_0001", "john", Wallet::new(100));
    assert_eq!(entity.remove_coins(50, false), Ok(()));
    assert_eq!(entity.get_wallet().get_balance(), 50);
    assert_eq!(entity.remove_coins(60, true), Ok(()));
    assert_eq!(entity.get_wallet().get_balance(), -10);
    assert_eq!(entity.get_id(), "id_0001");
    assert_eq!(entity.get_name(), "john");
}

#[test]
fn entity_wraps_the_error_of_adding_nothing() {
    let mut entity = Entity::new("e", "n", Wallet::new(7));
    assert_eq!(
        entity.add_coins(0),
        Err(EntityError::WalletOperationError { error: WalletError::AddZeroCoinError })
    );
    assert_eq!(entity.get_wallet().get_balance(), 7);
}

#[test]
fn entity_wraps_the_error_of_an_overflowing_sum() {
    let mut entity = Entity::new("e", "n", Wallet::new(i64::MAX));
    assert_eq!(
        entity.add_coins(10),
        Err(EntityError::WalletOperationError {
            error: WalletError::AddCoinOverflowError {
                current_amount: i64::MAX,
                added_amount: 10
            }
        })
    );
    assert_eq!(entity.get_wallet().get_balance(), i64::MAX);
}

#[test]
fn entity_wraps_the_error_of_removing_nothing() {
    for &allow in [false, true].iter() {
        let mut entity = Entity::new("e", "n", Wallet::new(7));
        assert_eq!(
            entity.remove_coins(0, allow),
            Err(EntityError::WalletOperationError { error: WalletError::RemoveZeroCoinError })
        );
        assert_eq!(entity.get_wallet().get_balance(), 7);
    }
}

#[test]
fn entity_wraps_the_error_of_an_overflowing_difference() {
    let mut entity = Entity::new("e", "n", Wallet::new(i64::MIN));
    assert_eq!(
        entity.remove_coins(10, true),
        Err(EntityError::WalletOperationError {
            error: WalletError::RemoveCoinOverflowError {
                current_amount: i64::MIN,
                removed_amount: 10
            }
        })
    );
    assert_eq!(entity.get_wallet().get_balance(), i64::MIN);
}

#[test]
fn entity_wraps_the_error_of_a_negative_balance() {
    let mut entity = Entity::new("e", "n", Wallet::new(0));
    assert_eq!(
        entity.remove_coins(10, false),
        Err(EntityError::WalletOperationError {
            error: WalletError::RemoveCoinNegativeBalanceError {
                current_amount: 0,
                removed_amount: 10,
                negative_balance_allowed: false
            }
        })
    );
    assert_eq!(entity.get_wallet().get_balance(), 0);
}

#[test]
fn entity_reports_what_its_wallet_would() {
    let balances: [i64; 5] = [i64::MIN, -1, 0, 50, i64::MAX];
    let amounts: [u32; 4] = [0, 1, 50, u32::MAX];
    for &balance in balances.iter() {
        for &amount in amounts.iter() {
            let mut wallet = Wallet::new(balance);
            let mut entity = Entity::new("e", "n", Wallet::new(balance));
            let expected = wallet.add_coins(amount);
            let got = entity.add_coins(amount);
            assert_eq!(got, expected.map_err(|error| EntityError::WalletOperationError { error }));
            assert_eq!(entity.get_wallet().get_balance(), wallet.get_balance());
            for &allow in [false, true].iter() {
                let mut wallet = Wallet::new(balance);
                let mut entity = Entity::new("e", "n", Wallet::new(balance));
                let expected = wallet.remove_coins(amount, allow);
                let got = entity.remove_coins(amount, allow);
                assert_eq!(
                    got,
                    expected.map_err(|error| EntityError::WalletOperationError { error })
                );
                assert_eq!(entity.get_wallet().get_balance(), wallet.get_balance());
            }
        }
    }
}

#[test]
fn entity_clone_is_an_entity_of_its_own() {
    let entity = Entity::new("id", "name", Wallet::new(5));
    let mut copy = entity.clone();
    assert_eq!(copy.get_id(), "id");
    assert_eq!(copy.get_name(), "name");
    assert_eq!(copy.add_coins(1), Ok(()));
    assert_eq!(copy.get_wallet().get_balance(), 6);
    assert_eq!(entity.get_wallet().get_balance(), 5);
}
