use coin::coin::Coin;
use coin::error::CoinError;

const ADMIN: &str = "GADMIN000000000000000000000000000000000000000000000000";
const STUDENT: &str = "GSTUDENT0000000000000000000000000000000000000000000000";
const TUTOR: &str = "GTUTOR00000000000000000000000000000000000000000000000000";

fn name(s: &str) -> String {
    s.to_string()
}

fn initialised() -> Coin {
    let mut c = Coin::new();
    assert_eq!(c.init(name(ADMIN)), Ok(()));
    c
}

#[test]
fn test_happy_path_tip_peer_tutor() {
    let mut c = initialised();
    assert_eq!(c.mint(&name(STUDENT), 100), Ok(()));
    assert_eq!(c.transfer(&name(STUDENT), &name(TUTOR), 30), Ok(()));
    assert_eq!(c.balance(&name(STUDENT)), 70);
    assert_eq!(c.balance(&name(TUTOR)), 30);
}

#[test]
fn test_transfer_fails_when_insufficient_balance() {
    let mut c = initialised();
    assert_eq!(c.mint(&name(STUDENT), 10), Ok(()));
    assert_eq!(
        c.transfer(&name(STUDENT), &name(TUTOR), 20),
        Err(CoinError::InsufficientBalance)
    );
    assert_eq!(c.balance(&name(STUDENT)), 10);
    assert_eq!(c.balance(&name(TUTOR)), 0);
    assert_eq!(c.stored_balance(&name(TUTOR)), None);
}

#[test]
fn test_state_correct_after_mint_and_transfer() {
    let mut c = initialised();
    assert_eq!(c.mint(&name(STUDENT), 100), Ok(()));
    assert_eq!(c.mint(&name(TUTOR), 5), Ok(()));
    assert_eq!(c.total_supply(), 105);
    assert_eq!(c.transfer(&name(STUDENT), &name(TUTOR), 30), Ok(()));
    assert_eq!(c.total_supply(), 105);
    assert_eq!(c.balance(&name(STUDENT)), 70);
    assert_eq!(c.balance(&name(TUTOR)), 35);
    assert_eq!(c.balance(&name(ADMIN)), 0);
}

#[test]
fn fresh_ledger_is_empty() {
    let c = Coin::new();
    assert_eq!(c.total_supply(), 0);
    assert_eq!(c.admin(), None);
    assert_eq!(c.balance(&name(STUDENT)), 0);
}

#[test]
fn init_sets_admin_and_zero_supply() {
    let c = initialised();
    assert_eq!(c.admin(), Some(name(ADMIN)));
    assert_eq!(c.total_supply(), 0);
}

#[test]
fn double_init_is_refused() {
    let mut c = initialised();
    assert_eq!(c.init(name(STUDENT)), Err(CoinError::AlreadyInitialized));
    assert_eq!(c.admin(), Some(name(ADMIN)));
}

#[test]
fn mint_before_init_is_refused() {
    let mut c = Coin::new();
    assert_eq!(c.mint(&name(STUDENT), 5), Err(CoinError::NotInitialized));
    assert_eq!(c.total_supply(), 0);
    assert_eq!(c.stored_balance(&name(STUDENT)), None);
}

#[test]
fn mint_of_non_positive_amount_is_refused() {
    let mut c = initialised();
    assert_eq!(c.mint(&name(STUDENT), 0), Err(CoinError::NonPositiveAmount));
    assert_eq!(c.mint(&name(STUDENT), -3), Err(CoinError::NonPositiveAmount));
    assert_eq!(c.total_supply(), 0);
}

#[test]
fn transfer_of_non_positive_amount_is_refused() {
    let mut c = initialised();
    assert_eq!(c.mint(&name(STUDENT), 50), Ok(()));
    assert_eq!(
        c.transfer(&name(STUDENT), &name(TUTOR), 0),
        Err(CoinError::NonPositiveAmount)
    );
    assert_eq!(
        c.transfer(&name(STUDENT), &name(TUTOR), -1),
        Err(CoinError::NonPositiveAmount)
    );
    assert_eq!(c.balance(&name(STUDENT)), 50);
}

#[test]
fn mint_overflow_is_refused() {
    let mut c = initialised();
    assert_eq!(c.mint(&name(STUDENT), i128::MAX), Ok(()));
    assert_eq!(c.mint(&name(TUTOR), 1), Err(CoinError::Overflow));
    assert_eq!(c.total_supply(), i128::MAX);
    assert_eq!(c.balance(&name(TUTOR)), 0);
}

#[test]
fn transfer_overflow_is_refused() {
    // A restored view in which the recipient already holds the maximum.
    let mut c = Coin::restore(Some(name(ADMIN)), i128::MAX);
    c.restore_balance(&name(TUTOR), i128::MAX);
    c.restore_balance(&name(STUDENT), 10);
    assert_eq!(
        c.transfer(&name(STUDENT), &name(TUTOR), 1),
        Err(CoinError::Overflow)
    );
    assert_eq!(c.balance(&name(STUDENT)), 10);
}

#[test]
fn self_transfer_keeps_balance() {
    let mut c = initialised();
    assert_eq!(c.mint(&name(STUDENT), 40), Ok(()));
    assert_eq!(c.transfer(&name(STUDENT), &name(STUDENT), 40), Ok(()));
    assert_eq!(c.balance(&name(STUDENT)), 40);
    assert_eq!(
        c.transfer(&name(STUDENT), &name(STUDENT), 41),
        Err(CoinError::InsufficientBalance)
    );
}

#[test]
fn transfer_round_trip_restores_balances() {
    let mut c = initialised();
    assert_eq!(c.mint(&name(STUDENT), 100), Ok(()));
    assert_eq!(c.transfer(&name(STUDENT), &name(TUTOR), 25), Ok(()));
    assert_eq!(c.transfer(&name(TUTOR), &name(STUDENT), 25), Ok(()));
    assert_eq!(c.balance(&name(STUDENT)), 100);
    assert_eq!(c.balance(&name(TUTOR)), 0);
    assert_eq!(c.total_supply(), 100);
}

#[test]
fn transfer_writes_both_balances() {
    let mut c = initialised();
    assert_eq!(c.mint(&name(STUDENT), 9), Ok(()));
    assert_eq!(c.transfer(&name(STUDENT), &name(TUTOR), 9), Ok(()));
    assert_eq!(c.stored_balance(&name(STUDENT)), Some(0));
    assert_eq!(c.stored_balance(&name(TUTOR)), Some(9));
}

#[test]
fn transfer_works_without_admin() {
    let mut c = Coin::restore(None, 0);
    c.restore_balance(&name(STUDENT), 3);
    assert_eq!(c.transfer(&name(STUDENT), &name(TUTOR), 2), Ok(()));
    assert_eq!(c.balance(&name(TUTOR)), 2);
}

#[test]
fn restore_rebuilds_stored_entries() {
    let mut c = Coin::restore(Some(name(ADMIN)), 77);
    assert_eq!(c.total_supply(), 77);
    assert_eq!(c.stored_balance(&name(STUDENT)), None);
    c.restore_balance(&name(STUDENT), 12);
    c.restore_balance(&name(STUDENT), 13);
    assert_eq!(c.stored_balance(&name(STUDENT)), Some(13));
    assert_eq!(c.mint(&name(STUDENT), 7), Ok(()));
    assert_eq!(c.balance(&name(STUDENT)), 20);
    assert_eq!(c.total_supply(), 84);
}

#[test]
fn many_accounts_keep_separate_balances() {
    let mut c = initialised();
    let names: Vec<String> = (0..20).map(|i| format!("GACCOUNT{}", i)).collect();
    for (i, n) in names.iter().enumerate() {
        assert_eq!(c.mint(n, (i as i128) + 1), Ok(()));
    }
    for (i, n) in names.iter().enumerate() {
        assert_eq!(c.balance(n), (i as i128) + 1);
    }
    assert_eq!(c.total_supply(), 210);
}
