use solana_buyer::address::{parse_address, Address};
use solana_buyer::swapper::{
    account_to_create, monitor_reading, select_trade_sides, should_sell, swap_user_accounts, AbortReason, MonitorReading, PoolVaults,
    SellPortion, Swapper, TradeOutcome, WorkerAction, WorkerConfig, WorkerEvent, WorkerPhase,
    MAX_LIQUIDITY, MIN_LIQUIDITY, RUG_AMOUNT,
};
use solana_buyer::types::{AccountState, TokenAccount};

fn config() -> WorkerConfig {
    // buy price = notional / held = 100 when held = 1_000
    let mut c = WorkerConfig::standard(100_000);
    c.rug_floor = 55_000_000;
    c
}

fn monitoring(c: WorkerConfig) -> Swapper {
    let mut s = Swapper::new(c);
    assert_eq!(s.on_event(WorkerEvent::LiquidityRead(c.min_liquidity)), WorkerAction::Buy(c.trade_notional));
    assert_eq!(s.on_event(WorkerEvent::BuyConfirmed), WorkerAction::PollMonitor);
    assert_eq!(s.phase, WorkerPhase::Monitoring);
    s
}

fn reading(price: u64) -> MonitorReading {
    // current price = base_vault / target_vault
    MonitorReading { held: 1_000, base_vault: price * 1_000_000_000, target_vault: 1_000_000_000 }
}

#[test]
fn standard_config_values() {
    let c = WorkerConfig::standard(1_000_000);
    assert_eq!(c.min_liquidity, 20_000_000_000);
    assert_eq!(c.max_liquidity, 150_000_000_000);
    assert_eq!(c.rug_floor, RUG_AMOUNT);
    assert_eq!(c.max_monitor_iterations, 100);
    assert_eq!((c.trigger_numerator, c.trigger_denominator), (2, 1));
    assert_eq!(c.sell_portion, SellPortion::All);
}

#[test]
fn price_trigger_sells_at_201_not_199() {
    let c = config();
    assert!(should_sell(&c, &reading(201)));
    assert!(!should_sell(&c, &reading(199)));
    assert!(!should_sell(&c, &reading(200)));
    let mut s = monitoring(c);
    assert_eq!(s.on_event(WorkerEvent::MonitorRead(reading(199))), WorkerAction::PollMonitor);
    assert_eq!(s.on_event(WorkerEvent::MonitorRead(reading(201))), WorkerAction::Sell(1_000));
    assert_eq!(s.on_event(WorkerEvent::SellConfirmed), WorkerAction::Finish(TradeOutcome::Sold));
    assert!(s.is_terminated());
}

#[test]
fn half_portion_sells_half() {
    let mut c = config();
    c.sell_portion = SellPortion::Half;
    let mut s = monitoring(c);
    assert_eq!(s.on_event(WorkerEvent::MonitorRead(reading(500))), WorkerAction::Sell(500));
}

#[test]
fn trigger_compares_exactly_on_huge_values() {
    let c = WorkerConfig {
        trade_notional: u64::MAX,
        trigger_numerator: 3,
        trigger_denominator: 2,
        ..config()
    };
    // lhs = MAX * MAX * 2, rhs = 3 * MAX * MAX: no sell
    let r = MonitorReading { held: u64::MAX, base_vault: u64::MAX, target_vault: u64::MAX };
    assert!(!should_sell(&c, &r));
    // lhs = MAX * MAX * 2, rhs = 3 * MAX * (MAX / 2): sell
    let r = MonitorReading { held: u64::MAX, base_vault: u64::MAX, target_vault: u64::MAX / 2 };
    assert!(should_sell(&c, &r));
    // No tokens held: the buy price is unbounded, never a sell.
    let r = MonitorReading { held: 0, base_vault: u64::MAX, target_vault: 1 };
    assert!(!should_sell(&c, &r));
}

#[test]
fn rug_floor_wins_over_trigger() {
    let c = config();
    let mut s = monitoring(c);
    let r = MonitorReading { held: 1_000, base_vault: 54_999_999, target_vault: 1 };
    assert!(should_sell(&c, &r));
    assert_eq!(s.on_event(WorkerEvent::MonitorRead(r)), WorkerAction::Finish(TradeOutcome::Rugged));
    assert_eq!(s.phase, WorkerPhase::Terminated(TradeOutcome::Rugged));
    let mut s = monitoring(c);
    let at_floor = MonitorReading { held: 1_000, base_vault: 55_000_000, target_vault: 1 };
    assert_eq!(s.on_event(WorkerEvent::MonitorRead(at_floor)), WorkerAction::Finish(TradeOutcome::Rugged));
}

#[test]
fn exhausted_after_exactly_max_iterations() {
    let c = config();
    assert_eq!(c.max_monitor_iterations, 100);
    let mut s = monitoring(c);
    for i in 0..99 {
        assert_eq!(s.on_event(WorkerEvent::MonitorRead(reading(150))), WorkerAction::PollMonitor, "iteration {}", i);
    }
    assert_eq!(s.iterations, 99);
    assert_eq!(s.on_event(WorkerEvent::MonitorRead(reading(150))), WorkerAction::Finish(TradeOutcome::Exhausted));
    assert_eq!(s.iterations, 100);
    assert_eq!(s.phase, WorkerPhase::Terminated(TradeOutcome::Exhausted));
}

#[test]
fn failed_reads_and_sells_use_up_iterations() {
    let mut c = config();
    c.max_monitor_iterations = 3;
    let mut s = monitoring(c);
    assert_eq!(s.on_event(WorkerEvent::MonitorReadFailed), WorkerAction::PollMonitor);
    assert_eq!(s.on_event(WorkerEvent::MonitorRead(reading(300))), WorkerAction::Sell(1_000));
    // an unrelated event keeps the sell pending
    assert_eq!(s.on_event(WorkerEvent::BuyConfirmed), WorkerAction::Sell(1_000));
    assert_eq!(s.on_event(WorkerEvent::SellFailed), WorkerAction::PollMonitor);
    assert_eq!(s.on_event(WorkerEvent::MonitorReadFailed), WorkerAction::Finish(TradeOutcome::Exhausted));
}

#[test]
fn liquidity_gate_bounds_are_inclusive() {
    let c = config();
    for v in [MIN_LIQUIDITY, MAX_LIQUIDITY] {
        let mut s = Swapper::new(c);
        assert_eq!(s.pending(), WorkerAction::ReadLiquidity);
        assert_eq!(s.on_event(WorkerEvent::LiquidityRead(v)), WorkerAction::Buy(100_000));
        assert_eq!(s.phase, WorkerPhase::Buying);
    }
    for v in [MIN_LIQUIDITY - 1, MAX_LIQUIDITY + 1] {
        let mut s = Swapper::new(c);
        let out = TradeOutcome::Aborted(AbortReason::LiquidityOutOfBounds);
        assert_eq!(s.on_event(WorkerEvent::LiquidityRead(v)), WorkerAction::Finish(out));
        assert_eq!(s.phase, WorkerPhase::Terminated(out));
    }
}

#[test]
fn read_and_buy_failures_abort() {
    let c = config();
    let mut s = Swapper::new(c);
    assert_eq!(
        s.on_event(WorkerEvent::LiquidityReadFailed),
        WorkerAction::Finish(TradeOutcome::Aborted(AbortReason::LiquidityReadFailed))
    );
    let mut s = Swapper::new(c);
    s.on_event(WorkerEvent::LiquidityRead(MIN_LIQUIDITY));
    assert_eq!(
        s.on_event(WorkerEvent::BuyFailed),
        WorkerAction::Finish(TradeOutcome::Aborted(AbortReason::BuyFailed))
    );
    // a terminated worker keeps reporting its outcome
    assert_eq!(
        s.on_event(WorkerEvent::BuyConfirmed),
        WorkerAction::Finish(TradeOutcome::Aborted(AbortReason::BuyFailed))
    );
}

fn addr(b: u8) -> Address {
    Address { bytes: [b; 32] }
}

#[test]
fn trade_sides_follow_the_base_asset() {
    let sol = parse_address("So11111111111111111111111111111111111111112").unwrap();
    let pool = PoolVaults { base_mint: sol, quote_mint: addr(7), base_vault: addr(1), quote_vault: addr(2) };
    let t = select_trade_sides(&pool, &sol).unwrap();
    assert!(t.sol_is_base);
    assert_eq!((t.sol_vault.bytes, t.target_vault.bytes, t.target_mint.bytes), ([1; 32], [2; 32], [7; 32]));
    let pool = PoolVaults { base_mint: addr(7), quote_mint: sol, base_vault: addr(1), quote_vault: addr(2) };
    let t = select_trade_sides(&pool, &sol).unwrap();
    assert!(!t.sol_is_base);
    assert_eq!((t.sol_vault.bytes, t.target_vault.bytes, t.target_mint.bytes), ([2; 32], [1; 32], [7; 32]));
    let pool = PoolVaults { base_mint: addr(7), quote_mint: addr(8), base_vault: addr(1), quote_vault: addr(2) };
    assert!(select_trade_sides(&pool, &sol).is_none());
}

fn account(amount: u64) -> TokenAccount {
    TokenAccount {
        mint: addr(1),
        owner: addr(2),
        amount,
        delegate: None,
        state: AccountState::Initialized,
        is_native: None,
        delegated_amount: 0,
        close_authority: None,
    }
}

#[test]
fn monitor_reading_takes_accounts_in_order() {
    let r = monitor_reading(&vec![account(5), account(6), account(7)]).unwrap();
    assert_eq!(r, MonitorReading { held: 5, base_vault: 6, target_vault: 7 });
    assert!(monitor_reading(&vec![account(5), account(6)]).is_none());
}

#[test]
fn swap_direction_follows_the_spent_mint() {
    let (i, o) = swap_user_accounts(&addr(1), &addr(1), &addr(10), &addr(20));
    assert_eq!((i.bytes, o.bytes), ([10; 32], [20; 32]));
    let (i, o) = swap_user_accounts(&addr(1), &addr(2), &addr(10), &addr(20));
    assert_eq!((i.bytes, o.bytes), ([20; 32], [10; 32]));
}

#[test]
fn missing_token_account_is_created() {
    let mint = |b, q| account_to_create(b, q, &addr(1), &addr(2)).map(|a| a.bytes[0]);
    assert_eq!(mint(true, true), None);
    assert_eq!(mint(false, true), Some(1));
    assert_eq!(mint(true, false), Some(2));
    assert_eq!(mint(false, false), Some(2));
}

#[test]
fn spent_mint_decides_the_decimals() {
    assert_eq!(solana_buyer::swapper::in_token_decimals(&addr(1), &addr(1), 9, 6), 9);
    assert_eq!(solana_buyer::swapper::in_token_decimals(&addr(1), &addr(2), 9, 6), 6);
}

#[test]
fn zero_ceiling_ends_exhausted_after_the_buy() {
    let mut c = config();
    c.max_monitor_iterations = 0;
    let mut s = Swapper::new(c);
    assert_eq!(s.on_event(WorkerEvent::LiquidityRead(MIN_LIQUIDITY)), WorkerAction::Buy(100_000));
    assert_eq!(s.on_event(WorkerEvent::BuyConfirmed), WorkerAction::Finish(TradeOutcome::Exhausted));
    assert_eq!(s.phase, WorkerPhase::Terminated(TradeOutcome::Exhausted));
}
