//! End-to-end tests of the pool lifecycle, the deposit ledger and the
//! settlement resolver.
use liquidity_pool::constants::CREDIT_OUTSTANDING;
use liquidity_pool::constants::MINT_AMOUNT;
use liquidity_pool::constants::POOL_STATE_TAG;
use liquidity_pool::constants::TRANSACTION_TAG;
use liquidity_pool::address::derive_address;
use liquidity_pool::errors::ErrorCode;
use liquidity_pool::ledger::RecordStore;
use liquidity_pool::pool::disable_pool;
use liquidity_pool::pool::enable_pool;
use liquidity_pool::pool::initialize_pool;
use liquidity_pool::token::TokenAccount;
use liquidity_pool::transaction::add_liquidity;
use liquidity_pool::transaction::ask_output;
use liquidity_pool::transaction::settle_action;
use liquidity_pool::transaction::vault_is_funded;
use liquidity_pool::transaction::SettleAction;

#[test]
fn initialize_writes_exact_fields() {
    let p = initialize_pool(42, 1000, 60, 1700000000);
    assert_eq!(p.pool_state.funding_threshold, 1000);
    assert_eq!(p.pool_state.duration_minutes, 60);
    assert_eq!(p.pool_state.credit_outstanding, CREDIT_OUTSTANDING);
    assert!(p.pool_state.is_active);
    assert_eq!(p.pool_state.activation_time, 1700000000);
    assert_eq!(p.pool_vault.balance, 0);
    assert_eq!(p.pool_mint.supply, 0);
    assert_eq!(p.state_address.tag, POOL_STATE_TAG);
    assert_eq!(p.state_address.parent, 42);
}

#[test]
fn disable_clears_active_and_nothing_else() {
    let mut p = initialize_pool(42, 1000, 60, 5);
    disable_pool(&mut p);
    assert!(!p.pool_state.is_active);
    assert_eq!(p.pool_state.activation_time, 5);
    assert_eq!(p.pool_state.funding_threshold, 1000);
    // idempotent: disabling an inactive pool is a no-op
    disable_pool(&mut p);
    assert!(!p.pool_state.is_active);
}

#[test]
fn enable_sets_active_and_refreshes_time() {
    let mut p = initialize_pool(42, 1000, 60, 5);
    disable_pool(&mut p);
    enable_pool(&mut p, 99);
    assert!(p.pool_state.is_active);
    assert_eq!(p.pool_state.activation_time, 99);
    assert_eq!(p.pool_state.funding_threshold, 1000);
    assert_eq!(p.pool_state.credit_outstanding, CREDIT_OUTSTANDING);
}

#[test]
fn deposit_moves_amount_and_records_it() {
    let mut p = initialize_pool(42, 1000, 60, 0);
    let mut ata = TokenAccount { balance: 500 };
    let r = add_liquidity(&mut p, &mut ata, 7, 400);
    assert_eq!(r, Ok(()));
    assert_eq!(ata.balance, 100);
    assert_eq!(p.pool_vault.balance, 400);
    assert_eq!(p.records.get(7), Some(400));
}

#[test]
fn deposit_fails_when_pool_not_active() {
    let mut p = initialize_pool(42, 1000, 60, 0);
    disable_pool(&mut p);
    // ample balance: the activity test comes before balance sufficiency
    let mut rich = TokenAccount { balance: u64::MAX };
    assert_eq!(add_liquidity(&mut p, &mut rich, 7, 1), Err(ErrorCode::PoolNotActive));
    // and with an insufficient balance the answer is the same
    let mut poor = TokenAccount { balance: 0 };
    assert_eq!(add_liquidity(&mut p, &mut poor, 7, 1), Err(ErrorCode::PoolNotActive));
    assert_eq!(p.pool_vault.balance, 0);
    assert_eq!(rich.balance, u64::MAX);
}

#[test]
fn deposit_fails_when_balance_too_small() {
    let mut p = initialize_pool(42, 1000, 60, 0);
    let mut ata = TokenAccount { balance: 399 };
    assert_eq!(add_liquidity(&mut p, &mut ata, 7, 400), Err(ErrorCode::NotEnoughBalance));
    assert_eq!(ata.balance, 399);
    assert_eq!(p.pool_vault.balance, 0);
    assert_eq!(p.records.get(7), None);
}

#[test]
fn second_deposit_fails_with_duplicate_record() {
    let mut p = initialize_pool(42, 1000, 60, 0);
    let mut ata = TokenAccount { balance: 500 };
    assert_eq!(add_liquidity(&mut p, &mut ata, 7, 100), Ok(()));
    assert_eq!(add_liquidity(&mut p, &mut ata, 7, 100), Err(ErrorCode::DuplicateRecord));
    // the open record and the vault are untouched by the refused deposit
    assert_eq!(p.records.get(7), Some(100));
    assert_eq!(p.pool_vault.balance, 100);
    assert_eq!(ata.balance, 400);
}

#[test]
fn deposit_overflowing_vault_fails_transfer() {
    let mut p = initialize_pool(42, 1000, 60, 0);
    let mut whale = TokenAccount { balance: u64::MAX };
    assert_eq!(add_liquidity(&mut p, &mut whale, 1, u64::MAX), Ok(()));
    let mut ata = TokenAccount { balance: 5 };
    assert_eq!(add_liquidity(&mut p, &mut ata, 2, 1), Err(ErrorCode::TransferFailure));
    assert_eq!(ata.balance, 5);
    assert_eq!(p.pool_vault.balance, u64::MAX);
}

#[test]
fn resolve_fails_while_pool_active() {
    let mut p = initialize_pool(42, 1000, 60, 0);
    let mut ata = TokenAccount { balance: 2000 };
    assert_eq!(add_liquidity(&mut p, &mut ata, 7, 2000), Ok(()));
    let mut pata = TokenAccount { balance: 0 };
    assert_eq!(ask_output(&mut p, &mut ata, &mut pata, 7), Err(ErrorCode::PoolStillActive));
    assert_eq!(p.records.get(7), Some(2000));
    assert_eq!(p.pool_vault.balance, 2000);
}

#[test]
fn resolve_without_record_fails_not_found() {
    let mut p = initialize_pool(42, 1000, 60, 0);
    disable_pool(&mut p);
    let mut ata = TokenAccount { balance: 0 };
    let mut pata = TokenAccount { balance: 0 };
    assert_eq!(ask_output(&mut p, &mut ata, &mut pata, 7), Err(ErrorCode::RecordNotFound));
}

#[test]
fn second_resolve_fails_not_found() {
    let mut p = initialize_pool(42, 1000, 60, 0);
    let mut ata = TokenAccount { balance: 400 };
    assert_eq!(add_liquidity(&mut p, &mut ata, 7, 400), Ok(()));
    disable_pool(&mut p);
    let mut pata = TokenAccount { balance: 0 };
    assert_eq!(ask_output(&mut p, &mut ata, &mut pata, 7), Ok(()));
    assert_eq!(p.records.get(7), None);
    assert_eq!(ask_output(&mut p, &mut ata, &mut pata, 7), Err(ErrorCode::RecordNotFound));
}

#[test]
fn funded_pool_mints_fixed_amount() {
    // threshold 1000; a single depositor locks exactly 1000
    let mut p = initialize_pool(42, 1000, 60, 0);
    let mut ata = TokenAccount { balance: 1000 };
    assert_eq!(add_liquidity(&mut p, &mut ata, 7, 1000), Ok(()));
    disable_pool(&mut p);
    let mut pata = TokenAccount { balance: 0 };
    assert_eq!(ask_output(&mut p, &mut ata, &mut pata, 7), Ok(()));
    // fixed mint quantity, no refund, record closed
    assert_eq!(pata.balance, MINT_AMOUNT);
    assert_eq!(p.pool_mint.supply, MINT_AMOUNT);
    assert_eq!(ata.balance, 0);
    assert_eq!(p.pool_vault.balance, 1000);
    assert_eq!(p.records.get(7), None);
}

#[test]
fn underfunded_pool_refunds_exact_deposit() {
    // threshold 1000; a single depositor locks only 400
    let mut p = initialize_pool(42, 1000, 60, 0);
    let mut ata = TokenAccount { balance: 400 };
    assert_eq!(add_liquidity(&mut p, &mut ata, 7, 400), Ok(()));
    disable_pool(&mut p);
    let mut pata = TokenAccount { balance: 0 };
    assert_eq!(ask_output(&mut p, &mut ata, &mut pata, 7), Ok(()));
    // refund of exactly 400; the vault drains back to zero; no shares
    assert_eq!(ata.balance, 400);
    assert_eq!(p.pool_vault.balance, 0);
    assert_eq!(pata.balance, 0);
    assert_eq!(p.pool_mint.supply, 0);
    assert_eq!(p.records.get(7), None);
}

#[test]
fn resolution_order_with_live_balance_rule() {
    // threshold 1000; two depositors lock 600 each, so the vault holds 1200.
    // The decision rule reads the vault balance at each individual call:
    // the first resolution mints and leaves the vault untouched, so the
    // second still sees 1200 >= 1000 and mints as well.
    let mut p = initialize_pool(42, 1000, 60, 0);
    let mut ata_x = TokenAccount { balance: 600 };
    let mut ata_y = TokenAccount { balance: 600 };
    assert_eq!(add_liquidity(&mut p, &mut ata_x, 1, 600), Ok(()));
    assert_eq!(add_liquidity(&mut p, &mut ata_y, 2, 600), Ok(()));
    assert_eq!(p.pool_vault.balance, 1200);
    disable_pool(&mut p);
    let mut pata_x = TokenAccount { balance: 0 };
    assert_eq!(ask_output(&mut p, &mut ata_x, &mut pata_x, 1), Ok(()));
    assert_eq!(pata_x.balance, MINT_AMOUNT);
    assert_eq!(p.pool_vault.balance, 1200);
    let mut pata_y = TokenAccount { balance: 0 };
    assert_eq!(ask_output(&mut p, &mut ata_y, &mut pata_y, 2), Ok(()));
    assert_eq!(pata_y.balance, MINT_AMOUNT);
    assert_eq!(p.pool_vault.balance, 1200);
    assert_eq!(p.pool_mint.supply, 2 * MINT_AMOUNT);
}

#[test]
fn enable_then_disable_without_deposits_changes_no_funds() {
    let mut p = initialize_pool(42, 1000, 60, 0);
    enable_pool(&mut p, 77);
    disable_pool(&mut p);
    assert!(!p.pool_state.is_active);
    assert_eq!(p.pool_state.activation_time, 77);
    assert_eq!(p.pool_vault.balance, 0);
    assert_eq!(p.pool_mint.supply, 0);
    assert_eq!(p.records.get(1), None);
    assert_eq!(p.records.get(7), None);
}

#[test]
fn enable_then_disable_keeps_open_records() {
    let mut p = initialize_pool(42, 1000, 60, 0);
    let mut ata = TokenAccount { balance: 500 };
    assert_eq!(add_liquidity(&mut p, &mut ata, 7, 500), Ok(()));
    disable_pool(&mut p);
    enable_pool(&mut p, 9);
    disable_pool(&mut p);
    assert_eq!(p.pool_vault.balance, 500);
    assert_eq!(p.records.get(7), Some(500));
}

#[test]
fn failed_mint_leaves_record_open_for_retry() {
    let mut p = initialize_pool(42, 10, 60, 0);
    let mut ata = TokenAccount { balance: 50 };
    assert_eq!(add_liquidity(&mut p, &mut ata, 7, 50), Ok(()));
    disable_pool(&mut p);
    // destination share balance cannot grow past u64::MAX
    let mut full = TokenAccount { balance: u64::MAX };
    assert_eq!(ask_output(&mut p, &mut ata, &mut full, 7), Err(ErrorCode::MintFailure));
    // nothing was committed: the record is still open, the vault untouched
    assert_eq!(p.records.get(7), Some(50));
    assert_eq!(p.pool_vault.balance, 50);
    assert_eq!(p.pool_mint.supply, 0);
    // a retry with a usable share account succeeds
    let mut pata = TokenAccount { balance: 0 };
    assert_eq!(ask_output(&mut p, &mut ata, &mut pata, 7), Ok(()));
    assert_eq!(pata.balance, MINT_AMOUNT);
}

#[test]
fn failed_refund_leaves_record_open() {
    let mut p = initialize_pool(42, 1000, 60, 0);
    let mut ata = TokenAccount { balance: 400 };
    assert_eq!(add_liquidity(&mut p, &mut ata, 7, 400), Ok(()));
    disable_pool(&mut p);
    // a destination that cannot take the refund makes the transfer fail
    let mut full = TokenAccount { balance: u64::MAX };
    let mut pata = TokenAccount { balance: 0 };
    assert_eq!(ask_output(&mut p, &mut full, &mut pata, 7), Err(ErrorCode::TransferFailure));
    assert_eq!(p.records.get(7), Some(400));
    assert_eq!(p.pool_vault.balance, 400);
    assert_eq!(full.balance, u64::MAX);
}

#[test]
fn settle_action_follows_threshold() {
    assert_eq!(settle_action(1000, 1000, 600), SettleAction::Mint(MINT_AMOUNT));
    assert_eq!(settle_action(1200, 1000, 600), SettleAction::Mint(MINT_AMOUNT));
    assert_eq!(settle_action(999, 1000, 600), SettleAction::Refund(600));
    assert_eq!(settle_action(0, 1, 5), SettleAction::Refund(5));
    assert!(vault_is_funded(1000, 1000));
    assert!(!vault_is_funded(999, 1000));
}

#[test]
fn derive_address_is_deterministic() {
    let a = derive_address(TRANSACTION_TAG, 7);
    let b = derive_address(TRANSACTION_TAG, 7);
    assert_eq!(a, b);
    assert_eq!(a.tag, TRANSACTION_TAG);
    assert_eq!(a.parent, 7);
    assert_ne!(derive_address(TRANSACTION_TAG, 8), a);
    assert_ne!(derive_address(POOL_STATE_TAG, 7), a);
}

#[test]
fn record_store_create_once_and_close() {
    let mut s = RecordStore::new();
    assert_eq!(s.create(1, 100), Ok(()));
    assert_eq!(s.create(2, 200), Ok(()));
    assert_eq!(s.create(1, 999), Err(ErrorCode::DuplicateRecord));
    assert_eq!(s.get(1), Some(100));
    assert_eq!(s.get(2), Some(200));
    assert_eq!(s.close(1), Ok(100));
    assert_eq!(s.get(1), None);
    assert_eq!(s.get(2), Some(200));
    assert_eq!(s.close(1), Err(ErrorCode::RecordNotFound));
    assert_eq!(s.close(2), Ok(200));
    assert_eq!(s.get(2), None);
}
