use crate::address::{same_address, Address};
use crate::types::TokenAccount;
use vstd::prelude::*;

verus! {

/// 2^64, the radix of the wide products below.
pub open spec fn radix() -> int {
    0x1_0000_0000_0000_0000int
}

/// Lowest base-asset vault balance a worker buys into (base units).
pub const MIN_LIQUIDITY: u64 = 20_000_000_000;

/// Highest base-asset vault balance a worker buys into (base units).
pub const MAX_LIQUIDITY: u64 = 150_000_000_000;

/// Base-asset vault balance at or below which a pool counts as rugged.
pub const RUG_AMOUNT: u64 = 55_000_000;

/// Base units in one unit of the base trading asset.
pub const LAMPORTS_PER_SOL: u64 = 1_000_000_000;

/// Monitoring iterations before a worker gives up.
pub const MAX_MONITOR_ITERATIONS: u32 = 100;

/// Seconds between monitoring iterations.
pub const POLL_INTERVAL_SECS: u64 = 3;

/// How much of the held target asset a sell hands back.
#[derive(Clone, Copy, Debug, PartialEq, Eq, Structural)]
pub enum SellPortion {
    All,
    Half,
}

/// Static parameters of one trade worker. Amounts are integer base units of
/// the base trading asset; the sell trigger is the ratio
/// `trigger_numerator / trigger_denominator`.
#[derive(Clone, Copy, Debug)]
pub struct WorkerConfig {
    pub trade_notional: u64,
    pub min_liquidity: u64,
    pub max_liquidity: u64,
    pub trigger_numerator: u64,
    pub trigger_denominator: u64,
    pub rug_floor: u64,
    pub max_monitor_iterations: u32,
    pub poll_interval_secs: u64,
    pub sell_portion: SellPortion,
}

impl WorkerConfig {
    /// The standard policy for a trade of `trade_notional` base units: the
    /// liquidity bounds and rug floor above, a sell at twice the buy price of
    /// the whole held balance, 100 iterations three seconds apart.
    pub fn standard(trade_notional: u64) -> (c: WorkerConfig)
        ensures
            c.wf(),
            c.trade_notional == trade_notional,
            c.min_liquidity == MIN_LIQUIDITY,
            c.max_liquidity == MAX_LIQUIDITY,
            c.trigger_numerator == 2,
            c.trigger_denominator == 1,
            c.rug_floor == RUG_AMOUNT,
            c.max_monitor_iterations == MAX_MONITOR_ITERATIONS,
            c.poll_interval_secs == POLL_INTERVAL_SECS,
            c.sell_portion == SellPortion::All,
    {
        WorkerConfig {
            trade_notional,
            min_liquidity: MIN_LIQUIDITY,
            max_liquidity: MAX_LIQUIDITY,
            trigger_numerator: 2,
            trigger_denominator: 1,
            rug_floor: RUG_AMOUNT,
            max_monitor_iterations: MAX_MONITOR_ITERATIONS,
            poll_interval_secs: POLL_INTERVAL_SECS,
            sell_portion: SellPortion::All,
        }
    }

    /// Bounds are ordered and the trigger exceeds one.
    pub open spec fn wf(&self) -> bool {
        &&& self.min_liquidity < self.max_liquidity
        &&& 0 < self.trigger_denominator < self.trigger_numerator
    }
}

/// Why a worker stopped without trading to completion.
#[derive(Clone, Copy, Debug, PartialEq, Eq, Structural)]
pub enum AbortReason {
    /// The worker's pool and accounts could not be read.
    SetupFailed,
    /// Neither side of the pool is the base trading asset.
    UnsupportedPair,
    LiquidityReadFailed,
    LiquidityOutOfBounds,
    BuyFailed,
}

/// The terminal result of one worker.
#[derive(Clone, Copy, Debug, PartialEq, Eq, Structural)]
pub enum TradeOutcome {
    Sold,
    Rugged,
    Exhausted,
    Aborted(AbortReason),
}

/// Where a worker stands.
#[derive(Clone, Copy, Debug, PartialEq, Eq, Structural)]
pub enum WorkerPhase {
    LiquidityCheck,
    Buying,
    Monitoring,
    Selling,
    Terminated(TradeOutcome),
}

/// One monitoring reading: the worker's own target-asset balance and both
/// vault balances of the pool, in base units.
#[derive(Clone, Copy, Debug, PartialEq, Eq, Structural)]
pub struct MonitorReading {
    pub held: u64,
    pub base_vault: u64,
    pub target_vault: u64,
}

/// What the outside world reports back to a worker.
#[derive(Clone, Copy, Debug, PartialEq, Eq, Structural)]
pub enum WorkerEvent {
    LiquidityRead(u64),
    LiquidityReadFailed,
    BuyConfirmed,
    BuyFailed,
    MonitorRead(MonitorReading),
    MonitorReadFailed,
    SellConfirmed,
    SellFailed,
}

/// What a worker asks the outside world to do next.
#[derive(Clone, Copy, Debug, PartialEq, Eq, Structural)]
pub enum WorkerAction {
    /// Read the base-asset vault balance.
    ReadLiquidity,
    /// Buy the target asset with this many base units.
    Buy(u64),
    /// Sleep one poll interval, then take a monitoring reading.
    PollMonitor,
    /// Sell this many base units of the target asset.
    Sell(u64),
    /// Stop with this outcome.
    Finish(TradeOutcome),
}

/// A monitoring reading from the batched read of the worker's own target
/// account, the base-asset vault and the target vault, in that order.
pub fn monitor_reading(accounts: &Vec<TokenAccount>) -> (r: Option<MonitorReading>)
    ensures
        match r {
            Some(m) => accounts@.len() == 3 && m.held == accounts@[0].amount && m.base_vault
                == accounts@[1].amount && m.target_vault == accounts@[2].amount,
            None => accounts@.len() != 3,
        },
{
    if accounts.len() != 3 {
        return None;
    }
    Some(
        MonitorReading {
            held: accounts[0].amount,
            base_vault: accounts[1].amount,
            target_vault: accounts[2].amount,
        },
    )
}

/// Whether the current price `base_vault / target_vault` exceeds the trigger
/// times the buy price `notional / held`, compared without division.
pub open spec fn price_exceeds(cfg: WorkerConfig, r: MonitorReading) -> bool {
    r.base_vault * r.held * cfg.trigger_denominator > cfg.trigger_numerator * cfg.trade_notional
        * r.target_vault
}

/// The amount a sell hands back for a held balance.
pub open spec fn sell_amount(portion: SellPortion, held: u64) -> u64 {
    match portion {
        SellPortion::All => held,
        SellPortion::Half => held / 2,
    }
}

/// Whether a liquidity reading lies within the bounds, both included.
pub open spec fn liquidity_ok(cfg: WorkerConfig, amount: u64) -> bool {
    cfg.min_liquidity <= amount <= cfg.max_liquidity
}

/// The end of one monitoring iteration that did not sell.
pub open spec fn iteration_done(cfg: WorkerConfig, iterations: u32) -> (WorkerPhase, u32, WorkerAction) {
    if iterations + 1 >= cfg.max_monitor_iterations {
        (
            WorkerPhase::Terminated(TradeOutcome::Exhausted),
            (iterations + 1) as u32,
            WorkerAction::Finish(TradeOutcome::Exhausted),
        )
    } else {
        (WorkerPhase::Monitoring, (iterations + 1) as u32, WorkerAction::PollMonitor)
    }
}

/// The action a worker waits on in a phase; repeated for an event that does
/// not belong to the phase.
pub open spec fn pending_action(cfg: WorkerConfig, phase: WorkerPhase, pending_sell: u64) -> WorkerAction {
    match phase {
        WorkerPhase::LiquidityCheck => WorkerAction::ReadLiquidity,
        WorkerPhase::Buying => WorkerAction::Buy(cfg.trade_notional),
        WorkerPhase::Monitoring => WorkerAction::PollMonitor,
        WorkerPhase::Selling => WorkerAction::Sell(pending_sell),
        WorkerPhase::Terminated(o) => WorkerAction::Finish(o),
    }
}

/// A pool's mints and vaults, as its on-chain state gives them.
#[derive(Clone, Copy, Debug)]
pub struct PoolVaults {
    pub base_mint: Address,
    pub quote_mint: Address,
    pub base_vault: Address,
    pub quote_vault: Address,
}

/// Which side of a pool holds the base trading asset and which the target.
#[derive(Clone, Copy, Debug)]
pub struct TradeSides {
    pub sol_vault: Address,
    pub target_vault: Address,
    pub target_mint: Address,
    pub sol_is_base: bool,
}

/// Picks the sides of a pool that trades against `sol`: its base side when
/// the base mint is `sol`, else its quote side when the quote mint is; a pool
/// with neither is not traded.
pub fn select_trade_sides(pool: &PoolVaults, sol: &Address) -> (r: Option<TradeSides>)
    ensures
        match r {
            Some(t) => (
                if pool.base_mint@ == sol@ {
                    t.sol_is_base && t.sol_vault@ == pool.base_vault@ && t.target_vault@
                        == pool.quote_vault@ && t.target_mint@ == pool.quote_mint@
                } else {
                    pool.quote_mint@ == sol@ && !t.sol_is_base && t.sol_vault@ == pool.quote_vault@
                        && t.target_vault@ == pool.base_vault@ && t.target_mint@ == pool.base_mint@
                }
            ),
            None => pool.base_mint@ != sol@ && pool.quote_mint@ != sol@,
        },
{
    if same_address(&pool.base_mint, sol) {
        Some(
            TradeSides {
                sol_vault: pool.base_vault,
                target_vault: pool.quote_vault,
                target_mint: pool.quote_mint,
                sol_is_base: true,
            },
        )
    } else if same_address(&pool.quote_mint, sol) {
        Some(
            TradeSides {
                sol_vault: pool.quote_vault,
                target_vault: pool.base_vault,
                target_mint: pool.base_mint,
                sol_is_base: false,
            },
        )
    } else {
        None
    }
}

/// The user's token accounts a swap spends from and pays into: spending the
/// pool's base mint goes from the user's base account to its quote account,
/// anything else the other way round.
pub fn swap_user_accounts(
    base_mint: &Address,
    in_token: &Address,
    user_base_account: &Address,
    user_quote_account: &Address,
) -> (r: (Address, Address))
    ensures
        in_token@ == base_mint@ ==> r.0@ == user_base_account@ && r.1@ == user_quote_account@,
        in_token@ != base_mint@ ==> r.0@ == user_quote_account@ && r.1@ == user_base_account@,
{
    if same_address(in_token, base_mint) {
        (*user_base_account, *user_quote_account)
    } else {
        (*user_quote_account, *user_base_account)
    }
}

/// The decimal exponent of the mint a swap spends: the base side's when it
/// spends the pool's base mint, the quote side's otherwise.
pub fn in_token_decimals(
    base_mint: &Address,
    in_token: &Address,
    base_decimals: u64,
    quote_decimals: u64,
) -> (r: u64)
    ensures
        r == (if in_token@ == base_mint@ {
            base_decimals
        } else {
            quote_decimals
        }),
{
    if same_address(in_token, base_mint) {
        base_decimals
    } else {
        quote_decimals
    }
}

/// The mint whose associated token account is created before a swap: the
/// quote mint when the user lacks a quote account, else the base mint when
/// the user lacks a base account, else none.
pub fn account_to_create(
    base_account_exists: bool,
    quote_account_exists: bool,
    base_mint: &Address,
    quote_mint: &Address,
) -> (r: Option<Address>)
    ensures
        match r {
            Some(m) => if !quote_account_exists {
                m@ == quote_mint@
            } else {
                !base_account_exists && m@ == base_mint@
            },
            None => quote_account_exists && base_account_exists,
        },
{
    if !quote_account_exists {
        Some(*quote_mint)
    } else if !base_account_exists {
        Some(*base_mint)
    } else {
        None
    }
}

/// The worker's transition: next phase, completed iterations, and action.
pub open spec fn worker_step(
    cfg: WorkerConfig,
    phase: WorkerPhase,
    iterations: u32,
    pending_sell: u64,
    ev: WorkerEvent,
) -> (WorkerPhase, u32, WorkerAction) {
    match (phase, ev) {
        (WorkerPhase::LiquidityCheck, WorkerEvent::LiquidityRead(v)) => if liquidity_ok(cfg, v) {
            (WorkerPhase::Buying, iterations, WorkerAction::Buy(cfg.trade_notional))
        } else {
            let o = TradeOutcome::Aborted(AbortReason::LiquidityOutOfBounds);
            (WorkerPhase::Terminated(o), iterations, WorkerAction::Finish(o))
        },
        (WorkerPhase::LiquidityCheck, WorkerEvent::LiquidityReadFailed) => {
            let o = TradeOutcome::Aborted(AbortReason::LiquidityReadFailed);
            (WorkerPhase::Terminated(o), iterations, WorkerAction::Finish(o))
        },
        (WorkerPhase::Buying, WorkerEvent::BuyConfirmed) => if cfg.max_monitor_iterations == 0 {
            (
                WorkerPhase::Terminated(TradeOutcome::Exhausted),
                0,
                WorkerAction::Finish(TradeOutcome::Exhausted),
            )
        } else {
            (WorkerPhase::Monitoring, 0, WorkerAction::PollMonitor)
        },
        (WorkerPhase::Buying, WorkerEvent::BuyFailed) => {
            let o = TradeOutcome::Aborted(AbortReason::BuyFailed);
            (WorkerPhase::Terminated(o), iterations, WorkerAction::Finish(o))
        },
        (WorkerPhase::Monitoring, WorkerEvent::MonitorRead(r)) => if r.base_vault
            <= cfg.rug_floor {
            (
                WorkerPhase::Terminated(TradeOutcome::Rugged),
                iterations,
                WorkerAction::Finish(TradeOutcome::Rugged),
            )
        } else if price_exceeds(cfg, r) {
            (WorkerPhase::Selling, iterations, WorkerAction::Sell(sell_amount(cfg.sell_portion, r.held)))
        } else {
            iteration_done(cfg, iterations)
        },
        (WorkerPhase::Monitoring, WorkerEvent::MonitorReadFailed) => iteration_done(cfg, iterations),
        (WorkerPhase::Selling, WorkerEvent::SellConfirmed) => (
            WorkerPhase::Terminated(TradeOutcome::Sold),
            iterations,
            WorkerAction::Finish(TradeOutcome::Sold),
        ),
        (WorkerPhase::Selling, WorkerEvent::SellFailed) => iteration_done(cfg, iterations),
        _ => (phase, iterations, pending_action(cfg, phase, pending_sell)),
    }
}

/// A wide product `hi * 2^64 + lo` of a 128-bit and a 64-bit factor.
fn mul_wide(x: u128, k: u64) -> (r: (u128, u64))
    ensures
        r.0 * radix() + r.1 == x * k,
{
    let b: u128 = 0x1_0000_0000_0000_0000u128;
    let xh: u128 = x / b;
    let xl: u128 = x % b;
    assert(xh < b && xl < b);
    assert(xl * (k as u128) <= (b - 1) * (b - 1)) by (nonlinear_arith)
        requires
            xl < b,
            k < b,
            b == 0x1_0000_0000_0000_0000int,
    ;
    assert(xh * (k as u128) <= (b - 1) * (b - 1)) by (nonlinear_arith)
        requires
            xh < b,
            k < b,
            b == 0x1_0000_0000_0000_0000int,
    ;
    let p1: u128 = xl * (k as u128);
    let p2: u128 = xh * (k as u128);
    assert(p1 / b <= b - 2) by (nonlinear_arith)
        requires
            p1 <= (b - 1) * (b - 1),
            b == 0x1_0000_0000_0000_0000int,
    ;
    let hi: u128 = p2 + p1 / b;
    let lo: u64 = (p1 % b) as u64;
    assert(hi * b + lo == x * k) by (nonlinear_arith)
        requires
            x == xh * b + xl,
            p1 == xl * k,
            p2 == xh * k,
            hi == p2 + p1 / b,
            lo == p1 % b,
            p1 == (p1 / b) * b + p1 % b,
            b > 0,
    ;
    (hi, lo)
}

proof fn lemma_wide_order(h1: int, l1: int, h2: int, l2: int)
    requires
        0 <= l1 < radix(),
        0 <= l2 < radix(),
    ensures
        (h1 * radix() + l1 > h2 * radix() + l2) == (h1 > h2 || (h1 == h2 && l1 > l2)),
{
    let b = radix();
    if h1 > h2 {
        assert(h1 * b >= h2 * b + b) by (nonlinear_arith)
            requires
                h1 > h2,
                b > 0,
        ;
    } else if h1 < h2 {
        assert(h2 * b >= h1 * b + b) by (nonlinear_arith)
            requires
                h1 < h2,
                b > 0,
        ;
    }
}

proof fn lemma_u64_product_fits(a: u64, b: u64)
    ensures
        a * b <= u128::MAX,
{
    assert(a * b <= 0xffff_ffff_ffff_ffffint * 0xffff_ffff_ffff_ffffint) by (nonlinear_arith)
        requires
            a <= 0xffff_ffff_ffff_ffffint,
            b <= 0xffff_ffff_ffff_ffffint,
    ;
}

/// Whether a reading triggers a sell: the current price exceeds the trigger
/// times the buy price.
pub fn should_sell(cfg: &WorkerConfig, r: &MonitorReading) -> (b: bool)
    ensures
        b == price_exceeds(*cfg, *r),
{
    proof {
        lemma_u64_product_fits(r.base_vault, r.held);
        lemma_u64_product_fits(cfg.trade_notional, r.target_vault);
    }
    let lhs: u128 = (r.base_vault as u128) * (r.held as u128);
    let rhs: u128 = (cfg.trade_notional as u128) * (r.target_vault as u128);
    let (h1, l1) = mul_wide(lhs, cfg.trigger_denominator);
    let (h2, l2) = mul_wide(rhs, cfg.trigger_numerator);
    proof {
        lemma_wide_order(h1 as int, l1 as int, h2 as int, l2 as int);
        assert(r.base_vault * r.held * cfg.trigger_denominator == lhs * cfg.trigger_denominator)
            by (nonlinear_arith)
            requires
                lhs == r.base_vault * r.held,
        ;
        assert(cfg.trigger_numerator * cfg.trade_notional * r.target_vault == rhs
            * cfg.trigger_numerator) by (nonlinear_arith)
            requires
                rhs == cfg.trade_notional * r.target_vault,
        ;
    }
    h1 > h2 || (h1 == h2 && l1 > l2)
}

/// The sell amount that a worker keeps pending after an action.
pub open spec fn next_pending_sell(pending_sell: u64, a: WorkerAction) -> u64 {
    match a {
        WorkerAction::Sell(x) => x,
        _ => pending_sell,
    }
}

/// A trade worker: liquidity gate, one buy, then a bounded monitor/sell loop.
/// The outside world performs each action it returns and reports back.
#[derive(Clone, Copy, Debug)]
pub struct Swapper {
    pub config: WorkerConfig,
    pub phase: WorkerPhase,
    pub iterations: u32,
    pub pending_sell: u64,
}

impl Swapper {
    /// The configuration is valid and a monitoring worker has iterations left.
    pub open spec fn wf(&self) -> bool {
        &&& self.config.wf()
        &&& (self.phase == WorkerPhase::Monitoring || self.phase == WorkerPhase::Selling)
            ==> self.iterations < self.config.max_monitor_iterations
    }

    /// A worker about to check the pool's liquidity.
    pub fn new(config: WorkerConfig) -> (s: Swapper)
        requires
            config.wf(),
        ensures
            s.wf(),
            s.config == config,
            s.phase == WorkerPhase::LiquidityCheck,
            s.iterations == 0,
    {
        Swapper { config, phase: WorkerPhase::LiquidityCheck, iterations: 0, pending_sell: 0 }
    }

    /// The action the worker is waiting on.
    pub fn pending(&self) -> (a: WorkerAction)
        ensures
            a == pending_action(self.config, self.phase, self.pending_sell),
    {
        match self.phase {
            WorkerPhase::LiquidityCheck => WorkerAction::ReadLiquidity,
            WorkerPhase::Buying => WorkerAction::Buy(self.config.trade_notional),
            WorkerPhase::Monitoring => WorkerAction::PollMonitor,
            WorkerPhase::Selling => WorkerAction::Sell(self.pending_sell),
            WorkerPhase::Terminated(o) => WorkerAction::Finish(o),
        }
    }

    /// Whether the worker has reached an outcome.
    pub fn is_terminated(&self) -> (b: bool)
        ensures
            b == (self.phase is Terminated),
    {
        match self.phase {
            WorkerPhase::Terminated(_) => true,
            _ => false,
        }
    }

    fn finish_iteration(&mut self) -> (a: WorkerAction)
        requires
            old(self).wf(),
            old(self).phase == WorkerPhase::Monitoring || old(self).phase == WorkerPhase::Selling,
        ensures
            (final(self).phase, final(self).iterations, a) == iteration_done(
                old(self).config,
                old(self).iterations,
            ),
            final(self).config == old(self).config,
            final(self).pending_sell == old(self).pending_sell,
            final(self).wf(),
    {
        self.iterations = self.iterations + 1;
        if self.iterations >= self.config.max_monitor_iterations {
            self.phase = WorkerPhase::Terminated(TradeOutcome::Exhausted);
            WorkerAction::Finish(TradeOutcome::Exhausted)
        } else {
            self.phase = WorkerPhase::Monitoring;
            WorkerAction::PollMonitor
        }
    }

    /// Advances the worker by one reported event and returns its next action.
    pub fn on_event(&mut self, ev: WorkerEvent) -> (a: WorkerAction)
        requires
            old(self).wf(),
        ensures
            (final(self).phase, final(self).iterations, a) == worker_step(
                old(self).config,
                old(self).phase,
                old(self).iterations,
                old(self).pending_sell,
                ev,
            ),
            final(self).pending_sell == next_pending_sell(old(self).pending_sell, a),
            final(self).config == old(self).config,
            final(self).wf(),
    {
        match (self.phase, ev) {
            (WorkerPhase::LiquidityCheck, WorkerEvent::LiquidityRead(v)) => {
                if self.config.min_liquidity <= v && v <= self.config.max_liquidity {
                    self.phase = WorkerPhase::Buying;
                    WorkerAction::Buy(self.config.trade_notional)
                } else {
                    let o = TradeOutcome::Aborted(AbortReason::LiquidityOutOfBounds);
                    self.phase = WorkerPhase::Terminated(o);
                    WorkerAction::Finish(o)
                }
            },
            (WorkerPhase::LiquidityCheck, WorkerEvent::LiquidityReadFailed) => {
                let o = TradeOutcome::Aborted(AbortReason::LiquidityReadFailed);
                self.phase = WorkerPhase::Terminated(o);
                WorkerAction::Finish(o)
            },
            (WorkerPhase::Buying, WorkerEvent::BuyConfirmed) => {
                self.iterations = 0;
                if self.config.max_monitor_iterations == 0 {
                    self.phase = WorkerPhase::Terminated(TradeOutcome::Exhausted);
                    WorkerAction::Finish(TradeOutcome::Exhausted)
                } else {
                    self.phase = WorkerPhase::Monitoring;
                    WorkerAction::PollMonitor
                }
            },
            (WorkerPhase::Buying, WorkerEvent::BuyFailed) => {
                let o = TradeOutcome::Aborted(AbortReason::BuyFailed);
                self.phase = WorkerPhase::Terminated(o);
                WorkerAction::Finish(o)
            },
            (WorkerPhase::Monitoring, WorkerEvent::MonitorRead(r)) => {
                if r.base_vault <= self.config.rug_floor {
                    self.phase = WorkerPhase::Terminated(TradeOutcome::Rugged);
                    WorkerAction::Finish(TradeOutcome::Rugged)
                } else if should_sell(&self.config, &r) {
                    let amount = match self.config.sell_portion {
                        SellPortion::All => r.held,
                        SellPortion::Half => r.held / 2,
                    };
                    self.phase = WorkerPhase::Selling;
                    self.pending_sell = amount;
                    WorkerAction::Sell(amount)
                } else {
                    self.finish_iteration()
                }
            },
            (WorkerPhase::Monitoring, WorkerEvent::MonitorReadFailed) => self.finish_iteration(),
            (WorkerPhase::Selling, WorkerEvent::SellConfirmed) => {
                self.phase = WorkerPhase::Terminated(TradeOutcome::Sold);
                WorkerAction::Finish(TradeOutcome::Sold)
            },
            (WorkerPhase::Selling, WorkerEvent::SellFailed) => self.finish_iteration(),
            _ => self.pending(),
        }
    }
}

/// A reading that neither reaches the rug floor nor triggers a sell.
pub open spec fn quiet_reading(cfg: WorkerConfig, r: MonitorReading) -> bool {
    r.base_vault > cfg.rug_floor && !price_exceeds(cfg, r)
}

/// Phase and completed iterations after feeding a worker a run of monitoring readings.
pub open spec fn monitor_run(
    cfg: WorkerConfig,
    phase: WorkerPhase,
    iterations: u32,
    readings: Seq<MonitorReading>,
) -> (WorkerPhase, u32)
    decreases readings.len(),
{
    if readings.len() == 0 {
        (phase, iterations)
    } else {
        let next = worker_step(cfg, phase, iterations, 0, WorkerEvent::MonitorRead(readings[0]));
        monitor_run(cfg, next.0, next.1, readings.subrange(1, readings.len() as int))
    }
}

proof fn lemma_quiet_run(cfg: WorkerConfig, i: u32, readings: Seq<MonitorReading>)
    requires
        cfg.wf(),
        i < cfg.max_monitor_iterations,
        i + readings.len() <= cfg.max_monitor_iterations,
        forall|j: int| 0 <= j < readings.len() ==> quiet_reading(cfg, #[trigger] readings[j]),
    ensures
        monitor_run(cfg, WorkerPhase::Monitoring, i, readings) == (if i + readings.len()
            < cfg.max_monitor_iterations {
            (WorkerPhase::Monitoring, (i + readings.len()) as u32)
        } else {
            (WorkerPhase::Terminated(TradeOutcome::Exhausted), cfg.max_monitor_iterations)
        }),
    decreases readings.len(),
{
    if readings.len() > 0 {
        let rest = readings.subrange(1, readings.len() as int);
        assert(quiet_reading(cfg, readings[0]));
        let next = worker_step(cfg, WorkerPhase::Monitoring, i, 0, WorkerEvent::MonitorRead(readings[0]));
        assert(next == iteration_done(cfg, i));
        assert(monitor_run(cfg, WorkerPhase::Monitoring, i, readings) == monitor_run(cfg, next.0, next.1, rest));
        if i + 1 < cfg.max_monitor_iterations {
            assert forall|j: int| 0 <= j < rest.len() implies quiet_reading(cfg, #[trigger] rest[j]) by {
                assert(rest[j] == readings[j + 1]);
            }
            lemma_quiet_run(cfg, (i + 1) as u32, rest);
        } else {
            assert(rest.len() == 0);
            assert(monitor_run(cfg, next.0, next.1, rest) == (next.0, next.1));
        }
    }
}

/// A worker whose readings never reach the rug floor nor the sell trigger
/// ends `Exhausted` after exactly `max_monitor_iterations` readings, and is
/// still monitoring after any fewer.
pub proof fn law_exhaustion_after_max_iterations(cfg: WorkerConfig, readings: Seq<MonitorReading>)
    requires
        cfg.wf(),
        cfg.max_monitor_iterations > 0,
        readings.len() == cfg.max_monitor_iterations,
        forall|j: int| 0 <= j < readings.len() ==> quiet_reading(cfg, #[trigger] readings[j]),
    ensures
        monitor_run(cfg, WorkerPhase::Monitoring, 0, readings).0 == WorkerPhase::Terminated(
            TradeOutcome::Exhausted,
        ),
        forall|k: int|
            0 <= k < readings.len() ==> (#[trigger] monitor_run(
                cfg,
                WorkerPhase::Monitoring,
                0,
                readings.take(k),
            )).0 == WorkerPhase::Monitoring,
{
    lemma_quiet_run(cfg, 0, readings);
    assert forall|k: int| 0 <= k < readings.len() implies (#[trigger] monitor_run(
        cfg,
        WorkerPhase::Monitoring,
        0,
        readings.take(k),
    )).0 == WorkerPhase::Monitoring by {
        let pre = readings.take(k);
        assert forall|j: int| 0 <= j < pre.len() implies quiet_reading(cfg, #[trigger] pre[j]) by {
            assert(pre[j] == readings[j]);
        }
        lemma_quiet_run(cfg, 0, pre);
    }
}

/// With a ceiling of zero monitoring iterations, a confirmed buy ends the
/// worker `Exhausted` at once.
pub proof fn law_zero_ceiling_exhausted_at_buy(cfg: WorkerConfig, iterations: u32, pending_sell: u64)
    requires
        cfg.max_monitor_iterations == 0,
    ensures
        worker_step(cfg, WorkerPhase::Buying, iterations, pending_sell, WorkerEvent::BuyConfirmed)
            == (
            WorkerPhase::Terminated(TradeOutcome::Exhausted),
            0u32,
            WorkerAction::Finish(TradeOutcome::Exhausted),
        ),
{
}

/// The liquidity gate is inclusive: a reading equal to either bound is
/// bought into, one unit outside either bound aborts as out of bounds.
pub proof fn law_liquidity_gate_inclusive(cfg: WorkerConfig, iterations: u32, pending_sell: u64)
    requires
        cfg.wf(),
    ensures
        worker_step(
            cfg,
            WorkerPhase::LiquidityCheck,
            iterations,
            pending_sell,
            WorkerEvent::LiquidityRead(cfg.min_liquidity),
        ).0 == WorkerPhase::Buying,
        worker_step(
            cfg,
            WorkerPhase::LiquidityCheck,
            iterations,
            pending_sell,
            WorkerEvent::LiquidityRead(cfg.max_liquidity),
        ).0 == WorkerPhase::Buying,
        cfg.min_liquidity > 0 ==> worker_step(
            cfg,
            WorkerPhase::LiquidityCheck,
            iterations,
            pending_sell,
            WorkerEvent::LiquidityRead((cfg.min_liquidity - 1) as u64),
        ).2 == WorkerAction::Finish(TradeOutcome::Aborted(AbortReason::LiquidityOutOfBounds)),
        cfg.max_liquidity < u64::MAX ==> worker_step(
            cfg,
            WorkerPhase::LiquidityCheck,
            iterations,
            pending_sell,
            WorkerEvent::LiquidityRead((cfg.max_liquidity + 1) as u64),
        ).2 == WorkerAction::Finish(TradeOutcome::Aborted(AbortReason::LiquidityOutOfBounds)),
{
}

/// A reading at or below the rug floor ends the worker `Rugged` with no sell,
/// whatever the price.
pub proof fn law_rug_before_sell(
    cfg: WorkerConfig,
    iterations: u32,
    pending_sell: u64,
    r: MonitorReading,
)
    requires
        r.base_vault <= cfg.rug_floor,
    ensures
        worker_step(cfg, WorkerPhase::Monitoring, iterations, pending_sell, WorkerEvent::MonitorRead(r))
            == (
            WorkerPhase::Terminated(TradeOutcome::Rugged),
            iterations,
            WorkerAction::Finish(TradeOutcome::Rugged),
        ),
{
}

/// Above the rug floor, a monitoring reading asks for a sell exactly when the
/// current price exceeds the trigger times the buy price.
pub proof fn law_sell_iff_price_exceeds(
    cfg: WorkerConfig,
    iterations: u32,
    pending_sell: u64,
    r: MonitorReading,
)
    requires
        r.base_vault > cfg.rug_floor,
    ensures
        (worker_step(cfg, WorkerPhase::Monitoring, iterations, pending_sell, WorkerEvent::MonitorRead(r)).2
            is Sell) == price_exceeds(cfg, r),
{
}

} // verus!
