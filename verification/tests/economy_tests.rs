use space_economy::economy::{EconomyContract, LedgerError, TxKind};

const IRON: u64 = 1;
const GOLD: u64 = 2;
const ALICE: u64 = 10;
const BOB: u64 = 11;

#[test]
fn balances_default_to_zero() {
    let ledger = EconomyContract::new();
    assert_eq!(ledger.get_balance(ALICE, IRON), 0);
    assert_eq!(ledger.get_balance(BOB, GOLD), 0);
    assert!(ledger.get_transaction_history(ALICE).is_empty());
}

#[test]
fn credit_and_debit_move_one_balance() {
    let mut ledger = EconomyContract::new();
    assert!(ledger.credit(ALICE, IRON, 70));
    assert_eq!(ledger.get_balance(ALICE, IRON), 70);
    assert_eq!(ledger.get_balance(ALICE, GOLD), 0);
    assert_eq!(ledger.get_balance(BOB, IRON), 0);
    assert!(ledger.debit(ALICE, IRON, 30));
    assert_eq!(ledger.get_balance(ALICE, IRON), 40);
    assert!(!ledger.debit(ALICE, IRON, 41));
    assert_eq!(ledger.get_balance(ALICE, IRON), 40);
}

#[test]
fn credit_refuses_overflow() {
    let mut ledger = EconomyContract::new();
    assert!(ledger.credit(ALICE, IRON, u64::MAX));
    assert!(!ledger.credit(ALICE, IRON, 1));
    assert_eq!(ledger.get_balance(ALICE, IRON), u64::MAX);
}

#[test]
fn transfer_moves_amount_and_conserves_total() {
    let mut ledger = EconomyContract::new();
    ledger.credit(ALICE, IRON, 100);
    ledger.credit(BOB, IRON, 5);
    let before = ledger.get_balance(ALICE, IRON) + ledger.get_balance(BOB, IRON);
    assert!(ledger.transfer_resources(ALICE, BOB, IRON, 40, 7));
    assert_eq!(ledger.get_balance(ALICE, IRON), 60);
    assert_eq!(ledger.get_balance(BOB, IRON), 45);
    assert_eq!(ledger.get_balance(ALICE, IRON) + ledger.get_balance(BOB, IRON), before);
}

#[test]
fn transfer_with_insufficient_balance_fails_without_mutation() {
    let mut ledger = EconomyContract::new();
    ledger.credit(ALICE, IRON, 10);
    ledger.credit(BOB, IRON, 3);
    assert!(!ledger.transfer_resources(ALICE, BOB, IRON, 11, 7));
    assert_eq!(ledger.get_balance(ALICE, IRON), 10);
    assert_eq!(ledger.get_balance(BOB, IRON), 3);
    assert!(ledger.get_transaction_history(ALICE).is_empty());
}

#[test]
fn transfer_of_zero_fails() {
    let mut ledger = EconomyContract::new();
    ledger.credit(ALICE, IRON, 10);
    assert!(!ledger.transfer_resources(ALICE, BOB, IRON, 0, 7));
    assert_eq!(ledger.get_balance(ALICE, IRON), 10);
}

#[test]
fn transfer_to_self_conserves_balance() {
    let mut ledger = EconomyContract::new();
    ledger.credit(ALICE, IRON, 10);
    assert!(ledger.transfer_resources(ALICE, ALICE, IRON, 4, 7));
    assert_eq!(ledger.get_balance(ALICE, IRON), 10);
}

#[test]
fn transfer_appends_a_transaction_to_the_sender_log() {
    let mut ledger = EconomyContract::new();
    ledger.credit(ALICE, IRON, 100);
    assert!(ledger.transfer_resources(ALICE, BOB, IRON, 25, 99));
    let log = ledger.get_transaction_history(ALICE);
    assert_eq!(log.len(), 1);
    assert_eq!(log[0].timestamp, 99);
    assert_eq!(log[0].kind, TxKind::Transfer);
    assert_eq!(log[0].resource, IRON);
    assert_eq!(log[0].amount, 25);
    assert_eq!(log[0].price, 0);
    assert_eq!(log[0].counterparty, BOB);
    assert!(ledger.get_transaction_history(BOB).is_empty());
}

#[test]
fn history_keeps_order_and_grows_only() {
    let mut ledger = EconomyContract::new();
    ledger.credit(ALICE, IRON, 100);
    ledger.transfer_resources(ALICE, BOB, IRON, 1, 1);
    ledger.transfer_resources(ALICE, BOB, IRON, 2, 2);
    ledger.transfer_resources(ALICE, BOB, IRON, 3, 3);
    let log = ledger.get_transaction_history(ALICE);
    assert_eq!(log.len(), 3);
    assert_eq!(log[0].amount, 1);
    assert_eq!(log[1].amount, 2);
    assert_eq!(log[2].amount, 3);
}

#[test]
fn initialize_resource_rejects_a_duplicate() {
    let mut ledger = EconomyContract::new();
    assert_eq!(ledger.initialize_resource(IRON, 100, 0), Ok(()));
    assert_eq!(ledger.initialize_resource(IRON, 100, 5), Err(LedgerError::AlreadyExists));
    assert_eq!(ledger.initialize_resource(GOLD, 40, 5), Ok(()));
}

#[test]
fn buy_moves_resource_and_logs_the_buyer() {
    let mut ledger = EconomyContract::new();
    ledger.initialize_resource(IRON, 100, 1000);
    ledger.credit(BOB, IRON, 80);
    assert!(ledger.buy_resources(ALICE, BOB, IRON, 30, 1000));
    assert_eq!(ledger.get_balance(ALICE, IRON), 30);
    assert_eq!(ledger.get_balance(BOB, IRON), 50);
    let log = ledger.get_transaction_history(ALICE);
    assert_eq!(log.len(), 1);
    assert_eq!(log[0].kind, TxKind::Buy);
    assert_eq!(log[0].price, 100);
    assert_eq!(log[0].counterparty, BOB);
    assert!(ledger.get_transaction_history(BOB).is_empty());
}

#[test]
fn buy_fails_when_the_seller_is_short() {
    let mut ledger = EconomyContract::new();
    ledger.initialize_resource(IRON, 100, 1000);
    ledger.credit(BOB, IRON, 10);
    assert!(!ledger.buy_resources(ALICE, BOB, IRON, 30, 1000));
    assert_eq!(ledger.get_balance(ALICE, IRON), 0);
    assert_eq!(ledger.get_balance(BOB, IRON), 10);
    assert!(ledger.get_transaction_history(ALICE).is_empty());
}

#[test]
fn sell_moves_resource_and_logs_the_seller() {
    let mut ledger = EconomyContract::new();
    ledger.initialize_resource(IRON, 100, 1000);
    ledger.credit(ALICE, IRON, 80);
    assert!(ledger.sell_resources(ALICE, BOB, IRON, 30, 1000));
    assert_eq!(ledger.get_balance(ALICE, IRON), 50);
    assert_eq!(ledger.get_balance(BOB, IRON), 30);
    let log = ledger.get_transaction_history(ALICE);
    assert_eq!(log.len(), 1);
    assert_eq!(log[0].kind, TxKind::Sell);
    assert_eq!(log[0].price, 100);
    assert_eq!(log[0].counterparty, BOB);
}

#[test]
fn market_trend_is_neutral() {
    let ledger = EconomyContract::new();
    assert_eq!(ledger.get_market_trend(IRON), 0);
}
