use trading_bot::activate_bot;
use trading_bot::deactivate_bot;
use trading_bot::execute_trade;
use trading_bot::initialize_bot;
use trading_bot::Bot;
use trading_bot::BotError;
use trading_bot::BotStore;
use trading_bot::Identity;
use trading_bot::Ledger;
use trading_bot::TransferError;

fn id(n: u64) -> Identity {
    Identity::from_words(n, 0, 0, 0)
}

/// A store with one record for `owner`, plus a funded ledger.
fn setup(risk: u8, owner_balance: u64) -> (BotStore, Ledger, Identity, Identity) {
    let owner = id(1);
    let market = id(2);
    let mut store = BotStore::new();
    assert_eq!(initialize_bot(&mut store, owner, risk, 7), Ok(()));
    let mut ledger = Ledger::new();
    assert!(ledger.open_account(owner, owner_balance));
    assert!(ledger.open_account(market, 0));
    (store, ledger, owner, market)
}

#[test]
fn creation_yields_fresh_inactive_record() {
    let owner = id(1);
    let mut store = BotStore::new();
    assert_eq!(initialize_bot(&mut store, owner, 25, 7), Ok(()));
    let b = store.bot(owner).unwrap();
    assert_eq!(b.owner, owner);
    assert_eq!(b.risk_percentage, 25);
    assert_eq!(b.strategy_type, 7);
    assert!(!b.is_active);
    assert_eq!(b.total_trades, 0);
    assert_eq!(b.successful_trades, 0);
    assert_eq!(b.total_profit, 0);
}

#[test]
fn duplicate_creation_fails_with_allocation_exists() {
    let owner = id(1);
    let mut store = BotStore::new();
    assert_eq!(initialize_bot(&mut store, owner, 25, 7), Ok(()));
    assert_eq!(
        initialize_bot(&mut store, owner, 50, 9),
        Err(BotError::AllocationExists)
    );
    // the stored record is the first one, untouched
    let b = store.bot(owner).unwrap();
    assert_eq!(b.risk_percentage, 25);
    assert_eq!(b.strategy_type, 7);
}

#[test]
fn creation_rejects_risk_above_one_hundred() {
    let owner = id(1);
    let mut store = BotStore::new();
    assert_eq!(
        initialize_bot(&mut store, owner, 101, 0),
        Err(BotError::InvalidRiskPercentage)
    );
    assert!(!store.has_bot(owner));
    // 100 itself is a percentage and is accepted
    assert_eq!(initialize_bot(&mut store, owner, 100, 0), Ok(()));
}

#[test]
fn activation_turns_an_inactive_record_active() {
    let (mut store, _ledger, owner, _market) = setup(25, 0);
    assert_eq!(activate_bot(&mut store, owner, owner), Ok(()));
    assert!(store.bot(owner).unwrap().is_active);
}

#[test]
fn activating_twice_fails_and_changes_nothing() {
    let (mut store, _ledger, owner, _market) = setup(25, 0);
    assert_eq!(activate_bot(&mut store, owner, owner), Ok(()));
    let before = store.bot(owner).unwrap();
    assert_eq!(
        activate_bot(&mut store, owner, owner),
        Err(BotError::AlreadyActive)
    );
    assert_eq!(store.bot(owner).unwrap(), before);
}

#[test]
fn deactivation_turns_an_active_record_inactive() {
    let (mut store, _ledger, owner, _market) = setup(25, 0);
    assert_eq!(activate_bot(&mut store, owner, owner), Ok(()));
    assert_eq!(deactivate_bot(&mut store, owner, owner), Ok(()));
    assert!(!store.bot(owner).unwrap().is_active);
}

#[test]
fn deactivating_an_inactive_record_fails_and_changes_nothing() {
    let (mut store, _ledger, owner, _market) = setup(25, 0);
    let before = store.bot(owner).unwrap();
    assert_eq!(
        deactivate_bot(&mut store, owner, owner),
        Err(BotError::NotActive)
    );
    assert_eq!(store.bot(owner).unwrap(), before);
}

#[test]
fn trade_on_inactive_record_fails_with_not_active() {
    let (mut store, mut ledger, owner, market) = setup(25, 2000);
    assert_eq!(
        execute_trade(&mut store, &mut ledger, owner, owner, market, 1000, true),
        Err(BotError::NotActive)
    );
    assert_eq!(store.bot(owner).unwrap().total_trades, 0);
    assert_eq!(ledger.balance(owner), Some(2000));
    assert_eq!(ledger.balance(market), Some(0));
}

#[test]
fn buy_transfers_sized_amount_and_counts_the_trade() {
    let (mut store, mut ledger, owner, market) = setup(25, 2000);
    assert_eq!(activate_bot(&mut store, owner, owner), Ok(()));
    assert_eq!(
        execute_trade(&mut store, &mut ledger, owner, owner, market, 1000, true),
        Ok(())
    );
    // 1000 * 25 / 100 = 250 moved from owner to market
    assert_eq!(ledger.balance(owner), Some(1750));
    assert_eq!(ledger.balance(market), Some(250));
    assert_eq!(store.bot(owner).unwrap().total_trades, 1);
    assert_eq!(store.bot(owner).unwrap().successful_trades, 0);
    assert_eq!(store.bot(owner).unwrap().total_profit, 0);
}

#[test]
fn trade_sizing_rounds_down() {
    let (mut store, mut ledger, owner, market) = setup(25, 2000);
    assert_eq!(activate_bot(&mut store, owner, owner), Ok(()));
    // 999 * 25 / 100 = 249.75, truncated to 249
    assert_eq!(
        execute_trade(&mut store, &mut ledger, owner, owner, market, 999, true),
        Ok(())
    );
    assert_eq!(ledger.balance(owner), Some(1751));
    assert_eq!(ledger.balance(market), Some(249));
}

#[test]
fn zero_risk_trades_nothing_but_still_counts() {
    let (mut store, mut ledger, owner, market) = setup(0, 100);
    assert_eq!(activate_bot(&mut store, owner, owner), Ok(()));
    assert_eq!(
        execute_trade(&mut store, &mut ledger, owner, owner, market, 1000, true),
        Ok(())
    );
    assert_eq!(ledger.balance(owner), Some(100));
    assert_eq!(ledger.balance(market), Some(0));
    assert_eq!(store.bot(owner).unwrap().total_trades, 1);
}

#[test]
fn full_risk_trades_the_whole_amount() {
    let (mut store, mut ledger, owner, market) = setup(100, 1000);
    assert_eq!(activate_bot(&mut store, owner, owner), Ok(()));
    assert_eq!(
        execute_trade(&mut store, &mut ledger, owner, owner, market, 1000, true),
        Ok(())
    );
    assert_eq!(ledger.balance(owner), Some(0));
    assert_eq!(ledger.balance(market), Some(1000));
}

#[test]
fn unauthorized_caller_mutates_nothing() {
    let (mut store, mut ledger, owner, market) = setup(25, 2000);
    assert_eq!(activate_bot(&mut store, owner, owner), Ok(()));
    let stranger = id(3);
    assert_eq!(
        execute_trade(&mut store, &mut ledger, owner, stranger, market, 1000, true),
        Err(BotError::Unauthorized)
    );
    assert_eq!(
        deactivate_bot(&mut store, owner, stranger),
        Err(BotError::Unauthorized)
    );
    assert_eq!(store.bot(owner).unwrap().total_trades, 0);
    assert!(store.bot(owner).unwrap().is_active);
    assert_eq!(ledger.balance(owner), Some(2000));
    assert_eq!(ledger.balance(market), Some(0));
}

#[test]
fn unauthorized_activation_is_rejected() {
    let (mut store, _ledger, owner, _market) = setup(25, 0);
    let stranger = id(3);
    assert_eq!(
        activate_bot(&mut store, owner, stranger),
        Err(BotError::Unauthorized)
    );
    assert!(!store.bot(owner).unwrap().is_active);
}

#[test]
fn failed_transfer_rolls_the_whole_trade_back() {
    // owner holds 200, the trade needs 250: nothing may move, nothing counts
    let (mut store, mut ledger, owner, market) = setup(25, 200);
    assert_eq!(activate_bot(&mut store, owner, owner), Ok(()));
    assert_eq!(
        execute_trade(&mut store, &mut ledger, owner, owner, market, 1000, true),
        Err(BotError::TransferFailed(TransferError::InsufficientBalance))
    );
    assert_eq!(store.bot(owner).unwrap().total_trades, 0);
    assert_eq!(ledger.balance(owner), Some(200));
    assert_eq!(ledger.balance(market), Some(0));
}

#[test]
fn transfer_to_unknown_account_rolls_back() {
    let (mut store, mut ledger, owner, _market) = setup(25, 2000);
    assert_eq!(activate_bot(&mut store, owner, owner), Ok(()));
    let nowhere = id(9);
    assert_eq!(
        execute_trade(&mut store, &mut ledger, owner, owner, nowhere, 1000, true),
        Err(BotError::TransferFailed(TransferError::UnknownAccount))
    );
    assert_eq!(store.bot(owner).unwrap().total_trades, 0);
    assert_eq!(ledger.balance(owner), Some(2000));
}

#[test]
fn transfer_overflowing_the_destination_rolls_back() {
    let owner = id(1);
    let market = id(2);
    let mut store = BotStore::new();
    assert_eq!(initialize_bot(&mut store, owner, 100, 0), Ok(()));
    assert_eq!(activate_bot(&mut store, owner, owner), Ok(()));
    let mut ledger = Ledger::new();
    assert!(ledger.open_account(owner, 1000));
    assert!(ledger.open_account(market, u64::MAX));
    assert_eq!(
        execute_trade(&mut store, &mut ledger, owner, owner, market, 1, true),
        Err(BotError::TransferFailed(TransferError::BalanceOverflow))
    );
    assert_eq!(store.bot(owner).unwrap().total_trades, 0);
    assert_eq!(ledger.balance(owner), Some(1000));
    assert_eq!(ledger.balance(market), Some(u64::MAX));
}

#[test]
fn sell_counts_the_trade_but_moves_no_value() {
    let (mut store, mut ledger, owner, market) = setup(25, 2000);
    assert_eq!(activate_bot(&mut store, owner, owner), Ok(()));
    assert_eq!(
        execute_trade(&mut store, &mut ledger, owner, owner, market, 1000, false),
        Ok(())
    );
    assert_eq!(ledger.balance(owner), Some(2000));
    assert_eq!(ledger.balance(market), Some(0));
    assert_eq!(store.bot(owner).unwrap().total_trades, 1);
}

#[test]
fn trades_accumulate_one_by_one() {
    let (mut store, mut ledger, owner, market) = setup(10, 1000);
    assert_eq!(activate_bot(&mut store, owner, owner), Ok(()));
    for expected in 1..=3u64 {
        assert_eq!(
            execute_trade(&mut store, &mut ledger, owner, owner, market, 100, true),
            Ok(())
        );
        assert_eq!(store.bot(owner).unwrap().total_trades, expected);
    }
    // 3 trades of 10 each
    assert_eq!(ledger.balance(owner), Some(970));
    assert_eq!(ledger.balance(market), Some(30));
}

#[test]
fn plan_trade_sizes_without_mutating() {
    let owner = id(1);
    let mut bot = Bot::new(owner, 100, 0).unwrap();
    assert_eq!(bot.activate(owner), Ok(()));
    // the whole amount, even at the top of the range
    assert_eq!(bot.plan_trade(owner, u64::MAX), Ok(u64::MAX));
    assert_eq!(bot.total_trades, 0);
    let mut half = Bot::new(owner, 50, 0).unwrap();
    assert_eq!(half.activate(owner), Ok(()));
    assert_eq!(half.plan_trade(owner, u64::MAX), Ok(u64::MAX / 2));
    assert_eq!(half.plan_trade(owner, 3), Ok(1));
}

#[test]
fn bot_new_rejects_only_risk_above_one_hundred() {
    let owner = id(1);
    assert_eq!(Bot::new(owner, 101, 0), Err(BotError::InvalidRiskPercentage));
    assert_eq!(Bot::new(owner, 255, 0), Err(BotError::InvalidRiskPercentage));
    let b = Bot::new(owner, 100, 3).unwrap();
    assert_eq!(b.risk_percentage, 100);
    assert_eq!(b.strategy_type, 3);
    assert!(!b.is_active);
}

#[test]
fn opening_an_account_twice_changes_nothing() {
    let mut ledger = Ledger::new();
    let a = id(4);
    assert!(ledger.open_account(a, 10));
    assert!(!ledger.open_account(a, 99));
    assert_eq!(ledger.balance(a), Some(10));
    assert_eq!(ledger.balance(id(5)), None);
}

#[test]
fn transfer_to_self_is_a_checked_no_op() {
    let mut ledger = Ledger::new();
    let a = id(4);
    assert!(ledger.open_account(a, 10));
    assert_eq!(ledger.transfer(a, a, 10), Ok(()));
    assert_eq!(ledger.balance(a), Some(10));
    assert_eq!(
        ledger.transfer(a, a, 11),
        Err(TransferError::InsufficientBalance)
    );
}
