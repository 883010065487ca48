//! The strategy engine: a single-position state machine that consumes the
//! consolidated market view and the account session, decides when to enter
//! and exit, and tracks fills and realized/unrealized profit.

use vstd::math::abs;
use vstd::prelude::*;
use vstd::string::StringExecFns;

use crate::models::{
    Account, AcctCommsChannel, DOMMessage, DOMSummary, OrderStatus, OrderUpdateMessage, Position,
    SimpleQuote, all_flat, empty_depth_model, merge_model, model_of, pct, wf_summary, DepthModel,
};
use crate::decimal::{dec_int, i64_to_string};
use crate::settings::{
    DOM_THRESHOLD, FP_SCALE, LARGE_TRADE, MAX_DEPTH_TOTAL, MAX_POINT_VALUE, MAX_PRICE, MAX_QTY,
    ONE_SECOND, SINGLE_LEG_COMMISSION, TRADE_CLOSE_TRIGGER, TS_PRESSURE_THRESHOLD,
};
use crate::socket_processing::{first_contract_idx, MarketData};
use crate::time_and_sales::{
    clamp_total, first_window_price, last_quote, window_buy_sum, window_sell_sum, OrderAction,
    TimeAndSalesItem, TimeAndSalesPressure,
};

verus! {

// FIXED-POINT PROFIT AND LOSS

/// Saturate an exact result into the `i64` range.
pub open spec fn clamp_i64(x: int) -> int {
    if x > i64::MAX {
        i64::MAX as int
    } else if x < i64::MIN {
        i64::MIN as int
    } else {
        x
    }
}

/// `net * point_value * diff / FP_SCALE`, evaluated as a magnitude with the
/// sign applied afterwards (so truncation is always toward zero).
pub open spec fn signed_scaled_product(net: int, pv: int, diff: int) -> int {
    let mag = abs(net) * pv * abs(diff) / (FP_SCALE as int);
    if (net >= 0) == (diff >= 0) {
        mag
    } else {
        -mag
    }
}

/// Realized profit on close: signed quantity times point value times the
/// price move, less commission on both legs, saturated into `i64`.
pub open spec fn realized_pnl_spec(net: int, pv: int, entry: int, exit: int, comm: int) -> int {
    clamp_i64(signed_scaled_product(net, pv, exit - entry) - 2 * comm * abs(net))
}

/// Unrealized profit while open: for a short, the move from entry down to
/// the ask; for a long, the move from the bid up from entry; zero when flat.
pub open spec fn unrealized_pnl_spec(net: int, pv: int, entry: int, bid: int, ask: int) -> int {
    if net < 0 {
        clamp_i64(signed_scaled_product(abs(net) as int, pv, entry - ask))
    } else if net > 0 {
        clamp_i64(signed_scaled_product(net, pv, bid - entry))
    } else {
        0
    }
}

fn abs_i64(x: i64) -> (r: i64)
    requires
        i64::MIN < x,
    ensures
        r == abs(x as int),
{
    if x < 0 {
        -x
    } else {
        x
    }
}

/// The magnitude part of `signed_scaled_product`, computed exactly in wide
/// arithmetic.
fn scaled_magnitude(net_abs: i64, pv: i64, diff_abs: i64) -> (r: u128)
    requires
        0 <= net_abs <= MAX_QTY,
        0 <= pv <= MAX_POINT_VALUE,
        0 <= diff_abs <= 2 * MAX_PRICE,
    ensures
        r == net_abs * pv * diff_abs / (FP_SCALE as int),
        r <= 0x8000_0000_0000_0000_0000_0000_0000,
{
    proof {
        assert(0 <= net_abs * pv <= 100_000_000_000_000_000_000) by (nonlinear_arith)
            requires
                0 <= net_abs <= 1_000_000_000,
                0 <= pv <= 100_000_000_000;
        assert(0 <= net_abs * pv * diff_abs
            <= 2_000_000_000_000_000_000_000_000_000_000_000) by (nonlinear_arith)
            requires
                0 <= net_abs * pv <= 100_000_000_000_000_000_000,
                0 <= diff_abs <= 20_000_000_000_000;
        assert(0 <= net_abs * pv * diff_abs / 100_000 <= net_abs * pv * diff_abs)
            by (nonlinear_arith)
            requires
                0 <= net_abs * pv * diff_abs;
        assert(net_abs * pv * diff_abs / (FP_SCALE as int) == net_abs * pv * diff_abs
            / 100_000);
    }
    let wide: u128 = (net_abs as u128) * (pv as u128) * (diff_abs as u128);
    wide / (FP_SCALE as u128)
}

/// Realized profit on close, exactly as `realized_pnl_spec`.
pub fn realized_pnl_exec(net: i64, pv: i64, entry: i64, exit: i64, comm: i64) -> (r: i64)
    requires
        -MAX_QTY <= net <= MAX_QTY,
        0 <= pv <= MAX_POINT_VALUE,
        -MAX_PRICE <= entry <= MAX_PRICE,
        -MAX_PRICE <= exit <= MAX_PRICE,
        0 <= comm <= MAX_PRICE,
    ensures
        r == realized_pnl_spec(net as int, pv as int, entry as int, exit as int, comm as int),
{
    let diff: i64 = exit - entry;
    let net_abs: i64 = abs_i64(net);
    let mag: u128 = scaled_magnitude(net_abs, pv, abs_i64(diff));
    let gross: i128 = if (net >= 0) == (diff >= 0) {
        mag as i128
    } else {
        -(mag as i128)
    };
    proof {
        assert(0 <= 2 * (comm as int) * (net_abs as int) <= 2 * MAX_PRICE * MAX_QTY)
            by (nonlinear_arith)
            requires 0 <= comm <= MAX_PRICE, 0 <= net_abs <= MAX_QTY;
    }
    let comm_term: i128 = 2 * (comm as i128) * (net_abs as i128);
    let total: i128 = gross - comm_term;
    clamp_i128_to_i64(total)
}

/// Unrealized profit while open, exactly as `unrealized_pnl_spec`.
pub fn unrealized_pnl_exec(net: i64, pv: i64, entry: i64, bid: i64, ask: i64) -> (r: i64)
    requires
        -MAX_QTY <= net <= MAX_QTY,
        0 <= pv <= MAX_POINT_VALUE,
        -MAX_PRICE <= entry <= MAX_PRICE,
        -MAX_PRICE <= bid <= MAX_PRICE,
        -MAX_PRICE <= ask <= MAX_PRICE,
    ensures
        r == unrealized_pnl_spec(net as int, pv as int, entry as int, bid as int, ask as int),
{
    if net == 0 {
        return 0;
    }
    let net_abs: i64 = abs_i64(net);
    let diff: i64 = if net < 0 {
        entry - ask
    } else {
        bid - entry
    };
    let mag: u128 = scaled_magnitude(net_abs, pv, abs_i64(diff));
    let signed: i128 = if diff >= 0 {
        mag as i128
    } else {
        -(mag as i128)
    };
    proof {
        if net < 0 {
            assert(signed_scaled_product(abs(net as int) as int, pv as int, diff as int) == if diff
                >= 0 {
                mag as int
            } else {
                -(mag as int)
            });
        }
    }
    clamp_i128_to_i64(signed)
}

fn clamp_i128_to_i64(x: i128) -> (r: i64)
    ensures
        r == clamp_i64(x as int),
{
    if x > i64::MAX as i128 {
        i64::MAX
    } else if x < i64::MIN as i128 {
        i64::MIN
    } else {
        x as i64
    }
}

// ORDER TICKETS

/// The wire name of a trade side.
pub open spec fn action_name(a: OrderAction) -> Seq<char> {
    match a {
        OrderAction::Buy => "Buy"@,
        OrderAction::Sell => "Sell"@,
        OrderAction::Unknown => "Unknown"@,
    }
}

/// The JSON body of a market order.
pub open spec fn order_ticket_view(
    a: OrderAction,
    qty: int,
    acct_id: int,
    symbol: Seq<char>,
    account_spec: Seq<char>,
) -> Seq<char> {
    "{\"action\":\""@ + action_name(a) + "\",\"symbol\":\""@ + symbol + "\",\"orderQty\":"@
        + dec_int(qty) + ",\"orderType\":\"Market\",\"accountSpec\":\""@ + account_spec
        + "\",\"accountId\":"@ + dec_int(acct_id) + ",\"isAutomated\":true}"@
}

/// A framed order request: endpoint, request id, blank line, JSON body.
pub open spec fn order_request_view(request_id: int, ticket: Seq<char>) -> Seq<char> {
    "order/placeorder\n"@ + dec_int(request_id) + "\n\n"@ + ticket
}

/// Build the JSON body of a market order. Symbol and account spec are
/// emitted verbatim (they are plain identifiers, never escaped text).
pub fn create_market_order_ticket(
    order_action: OrderAction,
    qty: i64,
    acct_id: i64,
    symbol: &String,
    account_spec: &String,
) -> (r: String)
    ensures
        r@ == order_ticket_view(order_action, qty as int, acct_id as int, symbol@, account_spec@),
{
    let mut s: String = String::from_str("{\"action\":\"");
    match order_action {
        OrderAction::Buy => s.append("Buy"),
        OrderAction::Sell => s.append("Sell"),
        OrderAction::Unknown => s.append("Unknown"),
    }
    s.append("\",\"symbol\":\"");
    s.append(symbol.as_str());
    s.append("\",\"orderQty\":");
    let q = i64_to_string(qty);
    s.append(q.as_str());
    s.append(",\"orderType\":\"Market\",\"accountSpec\":\"");
    s.append(account_spec.as_str());
    s.append("\",\"accountId\":");
    let aid = i64_to_string(acct_id);
    s.append(aid.as_str());
    s.append(",\"isAutomated\":true}");
    s
}

/// Frame an order ticket as a wire request.
pub fn create_order_request(request_id: i64, order_ticket: &String) -> (r: String)
    ensures
        r@ == order_request_view(request_id as int, order_ticket@),
{
    let mut s: String = String::from_str("order/placeorder\n");
    let id = i64_to_string(request_id);
    s.append(id.as_str());
    s.append("\n\n");
    s.append(order_ticket.as_str());
    s
}

/// The next request id for a session that has already sent `len` requests,
/// bumped by `bump` and saturated into `i64`.
pub open spec fn request_id_spec(len: int, bump: int) -> int {
    clamp_i64(len + bump)
}

fn request_id_from(len: usize, bump: i64) -> (r: i64)
    requires
        0 <= bump <= 2,
    ensures
        r == request_id_spec(len as int, bump as int),
{
    if len >= (i64::MAX - 2) as usize {
        proof {
            assert(len + bump > i64::MAX || len as int + bump as int <= i64::MAX);
        }
        if len as u64 > (i64::MAX as u64 - bump as u64) {
            i64::MAX
        } else {
            len as i64 + bump
        }
    } else {
        len as i64 + bump
    }
}

// POSITIONS

/// One position of the strategy: signed net quantity, the entry fill, the
/// exit fill once closed, realized profit and free-text triggers.
#[derive(Debug, Clone)]
pub struct MarketPosition {
    pub account_id: i64,
    pub contract_id: i64,
    pub net_pos: i64,
    pub entry_trigger: String,
    pub entry_fill: Option<OrderStatus>,
    pub exit_trigger: String,
    pub exit_fill: Option<OrderStatus>,
    pub realized_pnl: i64,
}

impl MarketPosition {
    /// An exact copy of this position.
    pub fn duplicate(&self) -> (r: Self)
        ensures
            r == *self,
    {
        MarketPosition {
            account_id: self.account_id,
            contract_id: self.contract_id,
            net_pos: self.net_pos,
            entry_trigger: self.entry_trigger.clone(),
            entry_fill: match &self.entry_fill {
                Some(f) => Some(f.duplicate()),
                None => None,
            },
            exit_trigger: self.exit_trigger.clone(),
            exit_fill: match &self.exit_fill {
                Some(f) => Some(f.duplicate()),
                None => None,
            },
            realized_pnl: self.realized_pnl,
        }
    }

    /// Bounds under which every profit computation on this position fits.
    pub open spec fn wf(self) -> bool {
        &&& -MAX_QTY <= self.net_pos <= MAX_QTY
        &&& match self.entry_fill {
            Some(f) => f.wf(),
            None => true,
        }
        &&& match self.exit_fill {
            Some(f) => f.wf(),
            None => true,
        }
    }

    /// A new, not yet filled position recording what triggered its entry.
    pub fn new_with_trigger(entry_trigger: String) -> (r: Self)
        ensures
            r.account_id == 0,
            r.contract_id == 0,
            r.net_pos == 0,
            r.entry_trigger == entry_trigger,
            r.entry_fill is None,
            r.exit_trigger@ == Seq::<char>::empty(),
            r.exit_fill is None,
            r.realized_pnl == 0,
            r.wf(),
    {
        MarketPosition {
            account_id: 0,
            contract_id: 0,
            net_pos: 0,
            entry_trigger,
            entry_fill: None,
            exit_trigger: String::new(),
            exit_fill: None,
            realized_pnl: 0,
        }
    }

    /// Record the entry fill: quantity signed by the order's side, the fill
    /// stored, the position open.
    pub fn update_from_order_update(self, update: &OrderUpdateMessage) -> (r: Self)
        requires
            update.wf(),
        ensures
            r.account_id == update.data.entity.account_id,
            r.contract_id == update.data.entity.contract_id,
            r.net_pos == if update.data.entity.action is Buy {
                update.data.entity.cum_qty as int
            } else {
                -(update.data.entity.cum_qty as int)
            },
            r.entry_fill == Some(update.data.entity),
            r.exit_fill is None,
            r.realized_pnl == 0,
            r.entry_trigger == self.entry_trigger,
            r.exit_trigger == self.exit_trigger,
            r.wf(),
    {
        MarketPosition {
            account_id: update.data.entity.account_id,
            contract_id: update.data.entity.contract_id,
            net_pos: if matches!(update.data.entity.action, OrderAction::Buy) {
                update.data.entity.cum_qty
            } else {
                -update.data.entity.cum_qty
            },
            entry_fill: Some(update.data.entity.duplicate()),
            exit_fill: None,
            realized_pnl: 0,
            entry_trigger: self.entry_trigger,
            exit_trigger: self.exit_trigger,
        }
    }

    /// A position carrying half of a reversing fill's cumulative quantity,
    /// signed by its side.
    pub fn from_reversal(update: &OrderUpdateMessage) -> (r: Self)
        requires
            update.wf(),
        ensures
            r.account_id == update.data.entity.account_id,
            r.contract_id == update.data.entity.contract_id,
            r.net_pos == if update.data.entity.action is Buy {
                update.data.entity.cum_qty as int / 2
            } else {
                -(update.data.entity.cum_qty as int / 2)
            },
            r.entry_fill == Some(update.data.entity),
            r.exit_fill is None,
            r.realized_pnl == 0,
            r.entry_trigger@ == Seq::<char>::empty(),
            r.exit_trigger@ == Seq::<char>::empty(),
            r.wf(),
    {
        let half: i64 = ((update.data.entity.cum_qty as u64) / 2) as i64;
        MarketPosition {
            account_id: update.data.entity.account_id,
            contract_id: update.data.entity.contract_id,
            net_pos: if matches!(update.data.entity.action, OrderAction::Buy) {
                half
            } else {
                -half
            },
            entry_fill: Some(update.data.entity.duplicate()),
            exit_fill: None,
            realized_pnl: 0,
            entry_trigger: String::new(),
            exit_trigger: String::new(),
        }
    }

    /// Close the position against an exit fill, computing realized profit
    /// from the entry and exit average prices.
    pub fn close(
        self,
        update: &OrderUpdateMessage,
        big_point_value: i64,
        single_leg_commission: i64,
    ) -> (r: Self)
        requires
            self.wf(),
            self.entry_fill is Some,
            update.wf(),
            0 <= big_point_value <= MAX_POINT_VALUE,
            0 <= single_leg_commission <= MAX_PRICE,
        ensures
            r.realized_pnl == realized_pnl_spec(
                self.net_pos as int,
                big_point_value as int,
                self.entry_fill.unwrap().avg_px as int,
                update.data.entity.avg_px as int,
                single_leg_commission as int,
            ),
            r.exit_fill == Some(update.data.entity),
            r.account_id == self.account_id,
            r.contract_id == self.contract_id,
            r.net_pos == self.net_pos,
            r.entry_trigger == self.entry_trigger,
            r.exit_trigger == self.exit_trigger,
            r.entry_fill == self.entry_fill,
            r.wf(),
    {
        let entry_px: i64 = match &self.entry_fill {
            Some(f) => f.avg_px,
            None => 0,
        };
        let realized: i64 = realized_pnl_exec(
            self.net_pos,
            big_point_value,
            entry_px,
            update.data.entity.avg_px,
            single_leg_commission,
        );
        MarketPosition {
            realized_pnl: realized,
            exit_fill: Some(update.data.entity.duplicate()),
            ..self
        }
    }

    /// The wire request that would flatten this position: the opposite side
    /// at the held quantity.
    pub fn create_closing_ticket(
        &self,
        request_id: i64,
        symbol: &String,
        account_spec: &String,
    ) -> (r: String)
        requires
            self.wf(),
        ensures
            r@ == order_request_view(
                request_id as int,
                order_ticket_view(
                    closing_action(self.net_pos as int),
                    abs(self.net_pos as int) as int,
                    self.account_id as int,
                    symbol@,
                    account_spec@,
                ),
            ),
    {
        let action = if self.net_pos > 0 {
            OrderAction::Sell
        } else if self.net_pos < 0 {
            OrderAction::Buy
        } else {
            OrderAction::Unknown
        };
        let ticket = create_market_order_ticket(
            action,
            abs_i64(self.net_pos),
            self.account_id,
            symbol,
            account_spec,
        );
        create_order_request(request_id, &ticket)
    }

    /// Unrealized profit against a synthetic quote; a flat position is
    /// worth zero whether or not it records an entry fill.
    pub fn unrealized_pnl(&self, quote: &SimpleQuote, point_value: i64) -> (r: i64)
        requires
            self.wf(),
            self.net_pos != 0 ==> self.entry_fill is Some,
            0 <= point_value <= MAX_POINT_VALUE,
            -MAX_PRICE <= quote.bid <= MAX_PRICE,
            -MAX_PRICE <= quote.ask <= MAX_PRICE,
        ensures
            r == unrealized_pnl_spec(
                self.net_pos as int,
                point_value as int,
                self.entry_fill.unwrap().avg_px as int,
                quote.bid as int,
                quote.ask as int,
            ),
    {
        let entry_px: i64 = match &self.entry_fill {
            Some(f) => f.avg_px,
            None => 0,
        };
        unrealized_pnl_exec(self.net_pos, point_value, entry_px, quote.bid, quote.ask)
    }

    /// True when the account snapshot's position agrees with this one.
    pub fn matches_account_position(&self, account_position: &Position) -> (r: bool)
        ensures
            r == (self.net_pos == account_position.net_pos && self.account_id
                == account_position.account_id && self.contract_id
                == account_position.contract_id),
    {
        self.net_pos == account_position.net_pos && self.account_id
            == account_position.account_id && self.contract_id == account_position.contract_id
    }
}

/// The side that flattens a signed net quantity.
pub open spec fn closing_action(net: int) -> OrderAction {
    if net > 0 {
        OrderAction::Sell
    } else if net < 0 {
        OrderAction::Buy
    } else {
        OrderAction::Unknown
    }
}

impl Position {
    /// Seed a strategy position from an account-snapshot position: a
    /// synthetic filled entry at the reported net price.
    pub fn to_market_position(&self) -> (r: MarketPosition)
        requires
            self.wf(),
        ensures
            r.account_id == self.account_id,
            r.contract_id == self.contract_id,
            r.net_pos == self.net_pos,
            r.entry_fill is Some,
            r.entry_fill.unwrap().avg_px == self.net_price,
            r.entry_fill.unwrap().action == seed_action(self.net_pos as int),
            r.entry_fill.unwrap().cum_qty == 0,
            r.entry_fill.unwrap().ord_status@ == "Filled"@,
            r.exit_fill is None,
            r.realized_pnl == 0,
            r.entry_trigger@ == Seq::<char>::empty(),
            r.exit_trigger@ == Seq::<char>::empty(),
            r.wf(),
    {
        let action = if self.net_pos != 0 {
            OrderAction::Buy
        } else {
            OrderAction::Unknown
        };
        MarketPosition {
            account_id: self.account_id,
            contract_id: self.contract_id,
            net_pos: self.net_pos,
            entry_fill: Some(OrderStatus::new(self.net_price, action)),
            exit_fill: None,
            realized_pnl: 0,
            entry_trigger: String::new(),
            exit_trigger: String::new(),
        }
    }
}

/// The side recorded on a synthetic entry fill seeded from a snapshot
/// position (any open position is recorded as bought).
pub open spec fn seed_action(net: int) -> OrderAction {
    if net != 0 {
        OrderAction::Buy
    } else {
        OrderAction::Unknown
    }
}

// THE STRATEGY STATE MACHINE

/// Phase of the single-position order lifecycle.
#[derive(Debug, Clone, Copy, PartialEq, Eq, Structural)]
pub enum StrategyStatus {
    Unaware,
    AwaitingTrades,
    SentEntryOrders,
    InATrade,
    SentExitOrders,
}

/// Which leg of a trade an order opens.
#[derive(Debug, Clone, Copy, PartialEq, Eq, Structural)]
pub enum LegType {
    Entry,
    Exit,
}

/// The strategy's whole state: current phase, position history, the
/// monotone extreme trackers used as adaptive thresholds, and the flags
/// marking orders already dispatched in the current phase.
#[derive(Debug, Clone)]
pub struct Strategy {
    pub dom_extreme: DOMSummary,
    pub ts_pressure_extreme: TimeAndSalesPressure,
    pub largest_single_item: Option<TimeAndSalesItem>,
    pub sent_entry_orders: bool,
    pub sent_exit_orders: bool,
    pub status: StrategyStatus,
    pub positions: Vec<MarketPosition>,
}

/// Saturating running total of realized profit over a position history.
pub open spec fn sum_realized(ps: Seq<MarketPosition>) -> int
    decreases ps.len(),
{
    if ps.len() == 0 {
        0
    } else {
        clamp_i64(sum_realized(ps.drop_last()) + ps.last().realized_pnl)
    }
}

impl Strategy {
    pub open spec fn wf(self) -> bool {
        &&& forall|i: int| 0 <= i < self.positions@.len() ==> (#[trigger] self.positions@[i]).wf()
        &&& wf_summary(self.dom_extreme)
        &&& -MAX_DEPTH_TOTAL <= self.ts_pressure_extreme.net <= MAX_DEPTH_TOTAL
    }

    /// The signed quantity of the most recent position, zero with none.
    pub open spec fn spec_net_pos(self) -> int {
        if self.positions@.len() > 0 {
            self.positions@.last().net_pos as int
        } else {
            0
        }
    }

    pub fn net_pos(&self) -> (r: i64)
        ensures
            r == self.spec_net_pos(),
    {
        if self.positions.len() > 0 {
            self.positions[self.positions.len() - 1].net_pos
        } else {
            0
        }
    }

    /// A buy signal opposes a short, a sell signal opposes a long.
    pub open spec fn is_opposite_spec(self, action: OrderAction) -> bool {
        match action {
            OrderAction::Buy => self.spec_net_pos() < 0,
            OrderAction::Sell => self.spec_net_pos() > 0,
            OrderAction::Unknown => false,
        }
    }

    pub fn is_opposite(&self, action: OrderAction) -> (r: bool)
        ensures
            r == self.is_opposite_spec(action),
    {
        match action {
            OrderAction::Buy => self.net_pos() < 0,
            OrderAction::Sell => self.net_pos() > 0,
            OrderAction::Unknown => false,
        }
    }

    pub fn has_open_position(&self) -> (r: bool)
        ensures
            r == (self.positions@.len() > 0 && self.positions@.last().exit_fill is None),
    {
        if self.positions.len() > 0 {
            self.positions[self.positions.len() - 1].exit_fill.is_none()
        } else {
            false
        }
    }

    /// A fresh strategy: unaware, flat, with zeroed extreme trackers.
    pub fn new() -> (r: Self)
        ensures
            r.status is Unaware,
            r.sent_entry_orders == false,
            r.sent_exit_orders == false,
            r.positions@ =~= Seq::<MarketPosition>::empty(),
            r.largest_single_item is None,
            model_of(r.dom_extreme) == empty_depth_model(),
            r.ts_pressure_extreme.net == 0,
            r.wf(),
    {
        Strategy {
            dom_extreme: DOMSummary::new(),
            ts_pressure_extreme: TimeAndSalesPressure::new(),
            status: StrategyStatus::Unaware,
            sent_entry_orders: false,
            sent_exit_orders: false,
            positions: Vec::new(),
            largest_single_item: None,
        }
    }

    /// Total realized profit of the session, saturating.
    pub fn total_pnl(&self) -> (r: i64)
        ensures
            r == sum_realized(self.positions@),
    {
        let ghost ps = self.positions@;
        let mut acc: i64 = 0;
        for i in 0..self.positions.len()
            invariant
                ps == self.positions@,
                acc == sum_realized(ps.take(i as int)),
        {
            proof {
                assert(ps.take(i + 1).drop_last() =~= ps.take(i as int));
                assert(ps.take(i + 1).last() == ps[i as int]);
            }
            let x = self.positions[i].realized_pnl;
            acc = if x >= 0 {
                if acc > i64::MAX - x {
                    i64::MAX
                } else {
                    acc + x
                }
            } else {
                if acc < i64::MIN - x {
                    i64::MIN
                } else {
                    acc + x
                }
            };
        }
        proof {
            assert(ps.take(ps.len() as int) =~= ps);
        }
        acc
    }

    /// Unrealized profit of the open position — zero while it is still
    /// flat. `None` when no position is open, or in the unreachable state
    /// of an open non-flat position without an entry fill to price against.
    pub fn open_pnl(&self, quote: SimpleQuote, point_value: i64) -> (r: Option<i64>)
        requires
            self.wf(),
            0 <= point_value <= MAX_POINT_VALUE,
            -MAX_PRICE <= quote.bid <= MAX_PRICE,
            -MAX_PRICE <= quote.ask <= MAX_PRICE,
        ensures
            r == if self.positions@.len() > 0 && self.positions@.last().exit_fill is None {
                if self.positions@.last().entry_fill is Some || self.positions@.last().net_pos
                    == 0 {
                    Some(
                        unrealized_pnl_spec(
                            self.positions@.last().net_pos as int,
                            point_value as int,
                            self.positions@.last().entry_fill.unwrap().avg_px as int,
                            quote.bid as int,
                            quote.ask as int,
                        ) as i64,
                    )
                } else {
                    None::<i64>
                }
            } else {
                None::<i64>
            },
    {
        if self.positions.len() > 0 {
            let pos = &self.positions[self.positions.len() - 1];
            if pos.exit_fill.is_none() {
                if pos.entry_fill.is_some() || pos.net_pos == 0 {
                    Some(pos.unrealized_pnl(&quote, point_value))
                } else {
                    None
                }
            } else {
                None
            }
        } else {
            None
        }
    }
}

impl Default for Strategy {
    fn default() -> (r: Self)
        ensures
            r.status is Unaware,
            r.sent_entry_orders == false,
            r.sent_exit_orders == false,
            r.positions@ =~= Seq::<MarketPosition>::empty(),
            r.wf(),
    {
        Strategy::new()
    }
}

// SIGNAL GENERATION

/// The quantity a single trade must reach to be a signal on its own: the
/// fixed constant, or the largest previously triggering trade if larger.
pub open spec fn size_trigger_spec(st: Strategy) -> int {
    match st.largest_single_item {
        Some(it) => if it.qty >= LARGE_TRADE {
            it.qty as int
        } else {
            LARGE_TRADE as int
        },
        None => LARGE_TRADE as int,
    }
}

/// Index of the latest tick inside the window whose quantity reaches the
/// trigger.
pub open spec fn last_large_idx(items: Seq<TimeAndSalesItem>, trigger: int, now: int) -> Option<
    int,
>
    decreases items.len(),
{
    if items.len() == 0 {
        None
    } else if items.last().qty >= trigger && items.last().timestamp >= now - ONE_SECOND {
        Some(items.len() - 1)
    } else {
        last_large_idx(items.drop_last(), trigger, now)
    }
}

/// A large trade of known side fires a signal by itself.
pub open spec fn large_fired(st: Strategy, view: MarketData, now: int) -> bool {
    match last_large_idx(view.time_and_sales.items@, size_trigger_spec(st), now) {
        Some(i) => !(view.time_and_sales.items@[i].action is Unknown),
        None => false,
    }
}

/// Left fold of the depth models of every live snapshot message.
pub open spec fn merged_depth_model(mds: Seq<DOMMessage>) -> DepthModel
    decreases mds.len(),
{
    if mds.len() == 0 {
        empty_depth_model()
    } else {
        merge_model(
            merged_depth_model(mds.drop_last()),
            DOMMessage::combined_model(mds.last().data.doms@),
        )
    }
}

/// Net imbalance (sell percent minus buy percent) of a depth model.
pub open spec fn model_net(m: DepthModel) -> int {
    pct(m.ask, m.bid + m.ask) - pct(m.bid, m.bid + m.ask)
}

/// Net trade-flow pressure over the window: buy volume minus sell volume,
/// each saturating.
pub open spec fn pressure_net_spec(items: Seq<TimeAndSalesItem>, now: int) -> int {
    clamp_total(window_buy_sum(items, now)) - clamp_total(window_sell_sum(items, now))
}

/// The adaptive pressure threshold: the fixed constant or the largest
/// pressure magnitude seen, whichever is greater.
pub open spec fn threshold_spec(st: Strategy) -> int {
    if TS_PRESSURE_THRESHOLD > abs(st.ts_pressure_extreme.net as int) {
        TS_PRESSURE_THRESHOLD as int
    } else {
        abs(st.ts_pressure_extreme.net as int) as int
    }
}

/// The signal produced against a strategy state and market view: a large
/// trade of known side wins; otherwise pressure and depth imbalance must
/// both clear their thresholds in the same direction.
pub open spec fn signal_spec(st: Strategy, view: MarketData, now: int) -> OrderAction {
    let items = view.time_and_sales.items@;
    match last_large_idx(items, size_trigger_spec(st), now) {
        Some(i) if !(items[i].action is Unknown) => items[i].action,
        _ => {
            let pn = pressure_net_spec(items, now);
            let dn = model_net(merged_depth_model(view.market_depth@));
            let thr = threshold_spec(st);
            if pn > thr && dn > DOM_THRESHOLD {
                OrderAction::Buy
            } else if pn < -thr && dn < -DOM_THRESHOLD {
                OrderAction::Sell
            } else {
                OrderAction::Unknown
            }
        },
    }
}

/// The trigger description attached to an order fired on this tick.
pub open spec fn trigger_text(st: Strategy, view: MarketData, now: int) -> Seq<char> {
    if large_fired(st, view, now) {
        "large trade"@
    } else {
        "depth and pressure"@
    }
}

/// How one signal evaluation changes the strategy: only the extreme
/// trackers and the large-trade record move, exactly as `extremes_effect`
/// states; the phase-machine fields stay put.
pub open spec fn signal_effect(o: Strategy, n: Strategy, view: MarketData, now: int) -> bool {
    &&& n.status == o.status
    &&& n.positions == o.positions
    &&& n.sent_entry_orders == o.sent_entry_orders
    &&& n.sent_exit_orders == o.sent_exit_orders
    &&& extremes_effect(o, n, view, now)
}

/// Evaluate the signal against the market view, updating the strategy's
/// monotone extreme trackers as a side effect.
pub fn generate_signal(strategy: &mut Strategy, market_data: &MarketData, now_ms: i64) -> (r: (
    OrderAction,
    String,
))
    requires
        old(strategy).wf(),
        market_data.wf(),
    ensures
        final(strategy).wf(),
        signal_effect(*old(strategy), *final(strategy), *market_data, now_ms as int),
        r.0 == signal_spec(*old(strategy), *market_data, now_ms as int),
        !(r.0 is Unknown) ==> r.1@ == trigger_text(*old(strategy), *market_data, now_ms as int),
        r.0 is Unknown ==> r.1@ == Seq::<char>::empty(),
{
    let ghost items = market_data.time_and_sales.items@;
    let size_trigger: i64 = match &strategy.largest_single_item {
        Some(it) => if it.qty >= LARGE_TRADE {
            it.qty
        } else {
            LARGE_TRADE
        },
        None => LARGE_TRADE,
    };
    let n = market_data.time_and_sales.items.len();
    let mut found: Option<usize> = None;
    let mut i: usize = 0;
    while i < n
        invariant
            items == market_data.time_and_sales.items@,
            n == items.len(),
            0 <= i <= n,
            size_trigger == size_trigger_spec(*strategy),
            match found {
                Some(k) => 0 <= k < i && last_large_idx(
                    items.take(i as int),
                    size_trigger as int,
                    now_ms as int,
                ) == Some(k as int),
                None => last_large_idx(items.take(i as int), size_trigger as int, now_ms as int)
                    is None,
            },
        decreases n - i,
    {
        proof {
            assert(items.take(i + 1).drop_last() =~= items.take(i as int));
            assert(items.take(i + 1).last() == items[i as int]);
        }
        let it = &market_data.time_and_sales.items[i];
        if it.qty >= size_trigger && it.timestamp as i128 >= now_ms as i128 - ONE_SECOND as i128 {
            found = Some(i);
        }
        i = i + 1;
    }
    proof {
        assert(items.take(items.len() as int) =~= items);
    }
    if let Some(idx) = found {
        let it = market_data.time_and_sales.items[idx];
        if !it.action.is_unknown() {
            strategy.largest_single_item = Some(it);
            return (it.action, String::from_str("large trade"));
        }
    }
    let ghost mds = market_data.market_depth@;
    let mut dom_summary = DOMSummary::new();
    let m = market_data.market_depth.len();
    let mut j: usize = 0;
    while j < m
        invariant
            mds == market_data.market_depth@,
            market_data.wf(),
            m == mds.len(),
            0 <= j <= m,
            wf_summary(dom_summary),
            model_of(dom_summary) == merged_depth_model(mds.take(j as int)),
        decreases m - j,
    {
        proof {
            assert(mds.take(j + 1).drop_last() =~= mds.take(j as int));
            assert(mds.take(j + 1).last() == mds[j as int]);
        }
        let combined = market_data.market_depth[j].combine();
        dom_summary = dom_summary.sum(combined);
        j = j + 1;
    }
    proof {
        assert(mds.take(mds.len() as int) =~= mds);
    }
    let ts_pressure = market_data.time_and_sales.get_pressure(now_ms);
    let extreme_abs: i64 = abs_i64(strategy.ts_pressure_extreme.net);
    let ts_pressure_threshold: i64 = if TS_PRESSURE_THRESHOLD > extreme_abs {
        TS_PRESSURE_THRESHOLD
    } else {
        extreme_abs
    };
    let buy_signal: bool = ts_pressure.net > ts_pressure_threshold && dom_summary.net
        > DOM_THRESHOLD;
    let sell_signal: bool = ts_pressure.net < -ts_pressure_threshold && dom_summary.net
        < -DOM_THRESHOLD;
    if abs_i64(ts_pressure.net) > extreme_abs {
        strategy.ts_pressure_extreme = ts_pressure;
    }
    if abs_i64(dom_summary.net) > abs_i64(strategy.dom_extreme.net) {
        strategy.dom_extreme = dom_summary;
    }
    if buy_signal {
        (OrderAction::Buy, String::from_str("depth and pressure"))
    } else if sell_signal {
        (OrderAction::Sell, String::from_str("depth and pressure"))
    } else {
        (OrderAction::Unknown, String::new())
    }
}

// THE STRATEGY TICK

/// All session fields of the account channel other than the unsent queue
/// are unchanged.
pub open spec fn acct_rest_same(ao: AcctCommsChannel, an: AcctCommsChannel) -> bool {
    &&& an.connection_established == ao.connection_established
    &&& an.last_heart_beat_ms == ao.last_heart_beat_ms
    &&& an.is_authorized == ao.is_authorized
    &&& an.socket_close == ao.socket_close
    &&& an.terminated == ao.terminated
    &&& an.user_data == ao.user_data
    &&& an.sent_requests == ao.sent_requests
    &&& an.order_update == ao.order_update
    &&& an.order_id_messages == ao.order_id_messages
    &&& an.received_closing_frame == ao.received_closing_frame
}

/// Exactly one request with the given text was queued on the session.
pub open spec fn acct_after_push(
    ao: AcctCommsChannel,
    an: AcctCommsChannel,
    text: Seq<char>,
) -> bool {
    &&& an.unsent_requests@.len() == ao.unsent_requests@.len() + 1
    &&& forall|k: int|
        0 <= k < ao.unsent_requests@.len() ==> an.unsent_requests@[k]
            == ao.unsent_requests@[k]
    &&& an.unsent_requests@.last()@ == text
    &&& acct_rest_same(ao, an)
}

/// Index of the first account with the given name, scanning from `i`.
pub open spec fn first_account_idx(accounts: Seq<Account>, name: Seq<char>, i: int) -> Option<
    int,
>
    decreases accounts.len() - i when 0 <= i <= accounts.len()
{
    if i >= accounts.len() {
        None
    } else if accounts[i].name@ == name {
        Some(i)
    } else {
        first_account_idx(accounts, name, i + 1)
    }
}

/// A just-created position: flat, unfilled, recording its entry trigger.
pub open spec fn fresh_position_matches(p: MarketPosition, trigger: Seq<char>) -> bool {
    &&& p.account_id == 0
    &&& p.contract_id == 0
    &&& p.net_pos == 0
    &&& p.entry_trigger@ == trigger
    &&& p.entry_fill is None
    &&& p.exit_trigger@ == Seq::<char>::empty()
    &&& p.exit_fill is None
    &&& p.realized_pnl == 0
}

pub open spec fn positions_pushed(op: Seq<MarketPosition>, np: Seq<MarketPosition>) -> bool {
    &&& np.len() == op.len() + 1
    &&& forall|k: int| 0 <= k < op.len() ==> np[k] == op[k]
}

pub open spec fn positions_same_but_last(op: Seq<MarketPosition>, np: Seq<MarketPosition>) -> bool {
    &&& op.len() > 0
    &&& np.len() == op.len()
    &&& forall|k: int| 0 <= k < op.len() - 1 ==> np[k] == op[k]
}

/// `q` is `p` with only its exit trigger set to the given text.
pub open spec fn exit_trigger_set(p: MarketPosition, q: MarketPosition, text: Seq<char>) -> bool {
    &&& q.account_id == p.account_id
    &&& q.contract_id == p.contract_id
    &&& q.net_pos == p.net_pos
    &&& q.entry_trigger == p.entry_trigger
    &&& q.entry_fill == p.entry_fill
    &&& q.exit_trigger@ == text
    &&& q.exit_fill == p.exit_fill
    &&& q.realized_pnl == p.realized_pnl
}

/// `q` records `u` as the entry fill of `p`.
pub open spec fn updated_from_fill(p: MarketPosition, q: MarketPosition, u: OrderUpdateMessage) -> bool {
    &&& q.account_id == u.data.entity.account_id
    &&& q.contract_id == u.data.entity.contract_id
    &&& q.net_pos == if u.data.entity.action is Buy {
        u.data.entity.cum_qty as int
    } else {
        -(u.data.entity.cum_qty as int)
    }
    &&& q.entry_fill == Some(u.data.entity)
    &&& q.exit_fill is None
    &&& q.realized_pnl == 0
    &&& q.entry_trigger == p.entry_trigger
    &&& q.exit_trigger == p.exit_trigger
}

/// `q` is `p` closed against exit fill `u` at the given point value.
pub open spec fn closed_against(
    p: MarketPosition,
    q: MarketPosition,
    u: OrderUpdateMessage,
    bpv: int,
) -> bool {
    &&& q.realized_pnl == realized_pnl_spec(
        p.net_pos as int,
        bpv,
        p.entry_fill.unwrap().avg_px as int,
        u.data.entity.avg_px as int,
        SINGLE_LEG_COMMISSION as int,
    )
    &&& q.exit_fill == Some(u.data.entity)
    &&& q.account_id == p.account_id
    &&& q.contract_id == p.contract_id
    &&& q.net_pos == p.net_pos
    &&& q.entry_trigger == p.entry_trigger
    &&& q.exit_trigger == p.exit_trigger
    &&& q.entry_fill == p.entry_fill
}

/// `mp` is the strategy position seeded from snapshot position `p`.
pub open spec fn seeded_from(p: Position, mp: MarketPosition) -> bool {
    &&& mp.account_id == p.account_id
    &&& mp.contract_id == p.contract_id
    &&& mp.net_pos == p.net_pos
    &&& mp.entry_fill is Some
    &&& mp.entry_fill.unwrap().avg_px == p.net_price
    &&& mp.entry_fill.unwrap().action == seed_action(p.net_pos as int)
    &&& mp.exit_fill is None
    &&& mp.realized_pnl == 0
    &&& mp.entry_trigger@ == Seq::<char>::empty()
    &&& mp.exit_trigger@ == Seq::<char>::empty()
}

/// The phase-machine fields of the strategy are unchanged.
pub open spec fn phase_same(so: Strategy, sn: Strategy) -> bool {
    &&& sn.status == so.status
    &&& sn.positions == so.positions
    &&& sn.sent_entry_orders == so.sent_entry_orders
    &&& sn.sent_exit_orders == so.sent_exit_orders
}

/// The extreme trackers of the strategy are unchanged.
pub open spec fn extremes_same(so: Strategy, sn: Strategy) -> bool {
    &&& sn.dom_extreme == so.dom_extreme
    &&& sn.ts_pressure_extreme == so.ts_pressure_extreme
    &&& sn.largest_single_item == so.largest_single_item
}

/// How one signal evaluation changes the extreme trackers and the
/// large-trade record (the phase fields are governed separately).
pub open spec fn extremes_effect(o: Strategy, n: Strategy, view: MarketData, now: int) -> bool {
    let items = view.time_and_sales.items@;
    if large_fired(o, view, now) {
        &&& n.largest_single_item == Some(
            items[last_large_idx(items, size_trigger_spec(o), now).unwrap()],
        )
        &&& n.ts_pressure_extreme == o.ts_pressure_extreme
        &&& n.dom_extreme == o.dom_extreme
    } else {
        &&& n.largest_single_item == o.largest_single_item
        &&& {
            let pn = pressure_net_spec(items, now);
            if abs(pn) > abs(o.ts_pressure_extreme.net as int) {
                &&& n.ts_pressure_extreme.asks_per_second == clamp_total(
                    window_buy_sum(items, now),
                )
                &&& n.ts_pressure_extreme.bids_per_second == clamp_total(
                    window_sell_sum(items, now),
                )
                &&& n.ts_pressure_extreme.net == pn
                &&& n.ts_pressure_extreme.time == now
                &&& n.ts_pressure_extreme.price == first_window_price(items, now)
            } else {
                n.ts_pressure_extreme == o.ts_pressure_extreme
            }
        }
        &&& {
            let dn = model_net(merged_depth_model(view.market_depth@));
            if abs(dn) > abs(o.dom_extreme.net as int) {
                &&& model_of(n.dom_extreme) == merged_depth_model(view.market_depth@)
                &&& wf_summary(n.dom_extreme)
                &&& n.dom_extreme.net == dn
            } else {
                n.dom_extreme == o.dom_extreme
            }
        }
    }
}

/// The effect of queueing an entry order: request pushed, a fresh position
/// appended, the entry flag set, the phase advanced.
pub open spec fn send_entry_effect(
    so: Strategy,
    sn: Strategy,
    ao: AcctCommsChannel,
    an: AcctCommsChannel,
    action: OrderAction,
    trigger: Seq<char>,
    amount: int,
    acct_id: int,
    symv: Seq<char>,
    specv: Seq<char>,
) -> bool {
    &&& acct_after_push(
        ao,
        an,
        order_request_view(
            request_id_spec(ao.sent_requests@.len() as int, 1),
            order_ticket_view(action, amount, acct_id, symv, specv),
        ),
    )
    &&& sn.status is SentEntryOrders
    &&& sn.sent_entry_orders
    &&& sn.sent_exit_orders == so.sent_exit_orders
    &&& positions_pushed(so.positions@, sn.positions@)
    &&& fresh_position_matches(sn.positions@.last(), trigger)
}

/// The effect of queueing an exit order through the generic dispatcher.
pub open spec fn send_exit_effect(
    so: Strategy,
    sn: Strategy,
    ao: AcctCommsChannel,
    an: AcctCommsChannel,
    action: OrderAction,
    trigger: Seq<char>,
    amount: int,
    acct_id: int,
    symv: Seq<char>,
    specv: Seq<char>,
) -> bool {
    &&& acct_after_push(
        ao,
        an,
        order_request_view(
            request_id_spec(ao.sent_requests@.len() as int, 1),
            order_ticket_view(action, amount, acct_id, symv, specv),
        ),
    )
    &&& sn.status is SentExitOrders
    &&& sn.sent_exit_orders
    &&& sn.sent_entry_orders == so.sent_entry_orders
    &&& positions_same_but_last(so.positions@, sn.positions@)
    &&& exit_trigger_set(so.positions@.last(), sn.positions@.last(), trigger)
}

/// Queue a market order on the account session and advance the strategy
/// phase, as decided by the leg. Nothing happens without an account
/// snapshot, without a matching account, or when the leg's flag shows its
/// order already dispatched this phase.
pub fn send_orders(
    action: (OrderAction, String),
    amount: i64,
    account_data: &mut AcctCommsChannel,
    strategy: &mut Strategy,
    leg_type: LegType,
    symbol: &String,
    account_name: &String,
    account_spec: &String,
)
    requires
        old(strategy).wf(),
        leg_type is Exit ==> old(strategy).positions@.len() > 0,
    ensures
        final(strategy).wf(),
        extremes_same(*old(strategy), *final(strategy)),
        match old(account_data).user_data {
            None => phase_same(*old(strategy), *final(strategy)) && *final(account_data)
                == *old(account_data),
            Some(ud) => match first_account_idx(ud.data.accounts@, account_name@, 0) {
                None => phase_same(*old(strategy), *final(strategy)) && *final(account_data)
                    == *old(account_data),
                Some(ai) => match leg_type {
                    LegType::Entry => if old(strategy).sent_entry_orders {
                        phase_same(*old(strategy), *final(strategy)) && *final(account_data)
                            == *old(account_data)
                    } else {
                        send_entry_effect(
                            *old(strategy),
                            *final(strategy),
                            *old(account_data),
                            *final(account_data),
                            action.0,
                            action.1@,
                            amount as int,
                            ud.data.accounts@[ai].id as int,
                            symbol@,
                            account_spec@,
                        )
                    },
                    LegType::Exit => if old(strategy).sent_exit_orders {
                        phase_same(*old(strategy), *final(strategy)) && *final(account_data)
                            == *old(account_data)
                    } else {
                        send_exit_effect(
                            *old(strategy),
                            *final(strategy),
                            *old(account_data),
                            *final(account_data),
                            action.0,
                            action.1@,
                            amount as int,
                            ud.data.accounts@[ai].id as int,
                            symbol@,
                            account_spec@,
                        )
                    },
                },
            },
        },
{
    let acct_id_opt: Option<i64> = match &account_data.user_data {
        None => None,
        Some(ud) => find_account_id(&ud.data.accounts, account_name),
    };
    if let Some(acct_id) = acct_id_opt {
        let dispatch: bool = match leg_type {
            LegType::Entry => !strategy.sent_entry_orders,
            LegType::Exit => !strategy.sent_exit_orders,
        };
        if dispatch {
            let ticket = create_market_order_ticket(action.0, amount, acct_id, symbol,
                account_spec);
            let id = request_id_from(account_data.sent_requests.len(), 1);
            let request = create_order_request(id, &ticket);
            account_data.unsent_requests.push(request);
            match leg_type {
                LegType::Entry => {
                    strategy.sent_entry_orders = true;
                    strategy.status = StrategyStatus::SentEntryOrders;
                    strategy.positions.push(MarketPosition::new_with_trigger(action.1));
                },
                LegType::Exit => {
                    strategy.sent_exit_orders = true;
                    strategy.status = StrategyStatus::SentExitOrders;
                    let idx = strategy.positions.len() - 1;
                    let p = strategy.positions[idx].duplicate();
                    let q = MarketPosition { exit_trigger: action.1, ..p };
                    strategy.positions.set(idx, q);
                },
            }
        }
    }
}

fn find_account_id(accounts: &Vec<Account>, name: &String) -> (r: Option<i64>)
    ensures
        match first_account_idx(accounts@, name@, 0) {
            Some(i) => r == Some(accounts@[i].id),
            None => r is None,
        },
{
    let n = accounts.len();
    let mut i: usize = 0;
    while i < n
        invariant
            n == accounts@.len(),
            0 <= i <= n,
            first_account_idx(accounts@, name@, 0) == first_account_idx(accounts@, name@, i as int),
        decreases n - i,
    {
        if accounts[i].name == *name {
            return Some(accounts[i].id);
        }
        i = i + 1;
    }
    None
}

proof fn lemma_last_quote_bounds(items: Seq<TimeAndSalesItem>, historical_id: int)
    requires
        crate::time_and_sales::items_wf(items),
    ensures
        match last_quote(items, historical_id) {
            Some(q) => -MAX_PRICE <= q.bid <= MAX_PRICE && -MAX_PRICE <= q.ask <= MAX_PRICE,
            None => true,
        },
    decreases items.len(),
{
    if items.len() > 0 {
        if items.last().historical_id == historical_id {
            assert(items[items.len() - 1].wf());
        } else {
            assert(crate::time_and_sales::items_wf(items.drop_last()));
            lemma_last_quote_bounds(items.drop_last(), historical_id);
        }
    }
}

/// What one strategy tick does in the Unaware phase: classify the account
/// snapshot, seeding a position when it shows one.
pub open spec fn step_unaware(
    so: Strategy,
    sn: Strategy,
    ao: AcctCommsChannel,
    an: AcctCommsChannel,
) -> bool {
    &&& an == ao
    &&& match ao.user_data {
        None => phase_same(so, sn),
        Some(ud) => if all_flat(ud.data.positions@) {
            &&& sn.status is AwaitingTrades
            &&& sn.positions == so.positions
            &&& sn.sent_entry_orders == so.sent_entry_orders
            &&& sn.sent_exit_orders == so.sent_exit_orders
        } else {
            &&& sn.status is InATrade
            &&& sn.sent_entry_orders == so.sent_entry_orders
            &&& sn.sent_exit_orders == so.sent_exit_orders
            &&& positions_pushed(so.positions@, sn.positions@)
            &&& seeded_from(ud.data.positions@.last(), sn.positions@.last())
        },
    }
}

/// What one strategy tick does while awaiting trades: a known signal with
/// no entry yet dispatched queues a one-lot entry order.
pub open spec fn step_awaiting(
    so: Strategy,
    sn: Strategy,
    ao: AcctCommsChannel,
    an: AcctCommsChannel,
    view: MarketData,
    now: int,
    symv: Seq<char>,
    namev: Seq<char>,
    specv: Seq<char>,
) -> bool {
    let sig = signal_spec(so, view, now);
    if sig is Unknown || so.sent_entry_orders {
        phase_same(so, sn) && an == ao
    } else {
        match ao.user_data {
            None => phase_same(so, sn) && an == ao,
            Some(ud) => match first_account_idx(ud.data.accounts@, namev, 0) {
                None => phase_same(so, sn) && an == ao,
                Some(ai) => send_entry_effect(
                    so,
                    sn,
                    ao,
                    an,
                    sig,
                    trigger_text(so, view, now),
                    1,
                    ud.data.accounts@[ai].id as int,
                    symv,
                    specv,
                ),
            },
        }
    }
}

/// The fill conditions under which an order update is consumed: an update
/// is present, reports Filled, and matches the latest acknowledged order id.
pub open spec fn fill_arrived(ao: AcctCommsChannel) -> bool {
    &&& ao.order_update is Some
    &&& ao.order_id_messages@.len() > 0
    &&& ao.order_update.unwrap().data.entity.ord_status@ == "Filled"@
    &&& ao.order_update.unwrap().data.entity.order_id
        == ao.order_id_messages@.last().data.order_id
}

/// What one strategy tick does after sending entry orders: a matching fill
/// records the entry and opens the trade.
pub open spec fn step_sententry(
    so: Strategy,
    sn: Strategy,
    ao: AcctCommsChannel,
    an: AcctCommsChannel,
) -> bool {
    &&& an == ao
    &&& if fill_arrived(ao) && so.positions@.len() > 0 {
        &&& sn.status is InATrade
        &&& sn.sent_entry_orders == so.sent_entry_orders
        &&& sn.sent_exit_orders == so.sent_exit_orders
        &&& positions_same_but_last(so.positions@, sn.positions@)
        &&& updated_from_fill(so.positions@.last(), sn.positions@.last(), ao.order_update.unwrap())
    } else {
        phase_same(so, sn)
    }
}

/// What one strategy tick does in a trade: an opposing signal queues a
/// flattening order at once; otherwise a breach of the loss trigger on the
/// latest synthetic quote queues one.
pub open spec fn step_inatrade(
    so: Strategy,
    sn: Strategy,
    ao: AcctCommsChannel,
    an: AcctCommsChannel,
    view: MarketData,
    now: int,
    symv: Seq<char>,
    specv: Seq<char>,
) -> bool {
    if so.positions@.len() == 0 {
        phase_same(so, sn) && an == ao
    } else {
        let pos = so.positions@.last();
        let sig = signal_spec(so, view, now);
        if so.is_opposite_spec(sig) {
            &&& sn.status is SentExitOrders
            &&& sn.sent_entry_orders == so.sent_entry_orders
            &&& if !so.sent_exit_orders {
                &&& acct_after_push(
                    ao,
                    an,
                    order_request_view(
                        request_id_spec(ao.sent_requests@.len() as int, 1),
                        order_ticket_view(
                            closing_action(pos.net_pos as int),
                            abs(pos.net_pos as int) as int,
                            pos.account_id as int,
                            symv,
                            specv,
                        ),
                    ),
                )
                &&& sn.sent_exit_orders
                &&& positions_same_but_last(so.positions@, sn.positions@)
                &&& exit_trigger_set(pos, sn.positions@.last(), trigger_text(so, view, now))
            } else {
                &&& an == ao
                &&& sn.positions == so.positions
                &&& sn.sent_exit_orders == so.sent_exit_orders
            }
        } else {
            match first_contract_idx(view.contract_ids@, pos.contract_id as int, 0) {
                None => phase_same(so, sn) && an == ao,
                Some(ci) => match last_quote(
                    view.time_and_sales.items@,
                    view.contract_ids@[ci].historical_id as int,
                ) {
                    None => phase_same(so, sn) && an == ao,
                    Some(q) => {
                        let pnl = unrealized_pnl_spec(
                            pos.net_pos as int,
                            view.contract_ids@[ci].big_point_value as int,
                            pos.entry_fill.unwrap().avg_px as int,
                            q.bid as int,
                            q.ask as int,
                        );
                        if pos.entry_fill is Some && pnl < -TRADE_CLOSE_TRIGGER
                            && !so.sent_exit_orders {
                            &&& acct_after_push(
                                ao,
                                an,
                                order_request_view(
                                    request_id_spec(ao.sent_requests@.len() as int, 2),
                                    order_ticket_view(
                                        closing_action(pos.net_pos as int),
                                        abs(pos.net_pos as int) as int,
                                        pos.account_id as int,
                                        symv,
                                        specv,
                                    ),
                                ),
                            )
                            &&& sn.status is SentExitOrders
                            &&& sn.sent_exit_orders
                            &&& sn.sent_entry_orders == so.sent_entry_orders
                            &&& positions_same_but_last(so.positions@, sn.positions@)
                            &&& exit_trigger_set(
                                pos,
                                sn.positions@.last(),
                                "unrealized pnl "@ + dec_int(pnl),
                            )
                        } else {
                            phase_same(so, sn) && an == ao
                        }
                    },
                },
            }
        }
    }
}

/// What one strategy tick does after sending exit orders: a matching fill
/// whose record differs from the stored entry fill closes the position and
/// returns the machine to awaiting trades.
pub open spec fn step_sentexit(
    so: Strategy,
    sn: Strategy,
    ao: AcctCommsChannel,
    an: AcctCommsChannel,
    view: MarketData,
) -> bool {
    if fill_arrived(ao) && so.positions@.len() > 0 && so.positions@.last().entry_fill is Some
        && !so.positions@.last().entry_fill.unwrap().same_fill(
        ao.order_update.unwrap().data.entity,
    ) {
        match first_contract_idx(view.contract_ids@, so.positions@.last().contract_id as int, 0) {
            None => phase_same(so, sn) && an == ao,
            Some(ci) => {
                &&& an.order_update is None
                &&& an.connection_established == ao.connection_established
                &&& an.last_heart_beat_ms == ao.last_heart_beat_ms
                &&& an.is_authorized == ao.is_authorized
                &&& an.socket_close == ao.socket_close
                &&& an.terminated == ao.terminated
                &&& an.user_data == ao.user_data
                &&& an.unsent_requests == ao.unsent_requests
                &&& an.sent_requests == ao.sent_requests
                &&& an.order_id_messages == ao.order_id_messages
                &&& an.received_closing_frame == ao.received_closing_frame
                &&& sn.status is AwaitingTrades
                &&& !sn.sent_entry_orders
                &&& !sn.sent_exit_orders
                &&& positions_same_but_last(so.positions@, sn.positions@)
                &&& closed_against(
                    so.positions@.last(),
                    sn.positions@.last(),
                    ao.order_update.unwrap(),
                    view.contract_ids@[ci].big_point_value as int,
                )
            },
        }
    } else {
        phase_same(so, sn) && an == ao
    }
}

/// One tick of the strategy state machine: evaluate the signal (updating
/// the extreme trackers), then act on the current phase exactly as the
/// phase's step relation states.
pub fn calculate(
    strategy: &mut Strategy,
    account_data: &mut AcctCommsChannel,
    market_data: &MarketData,
    now_ms: i64,
    symbol: &String,
    account_name: &String,
    account_spec: &String,
)
    requires
        old(strategy).wf(),
        old(account_data).wf(),
        market_data.wf(),
    ensures
        final(strategy).wf(),
        final(account_data).wf(),
        extremes_effect(*old(strategy), *final(strategy), *market_data, now_ms as int),
        match old(strategy).status {
            StrategyStatus::Unaware => step_unaware(
                *old(strategy),
                *final(strategy),
                *old(account_data),
                *final(account_data),
            ),
            StrategyStatus::AwaitingTrades => step_awaiting(
                *old(strategy),
                *final(strategy),
                *old(account_data),
                *final(account_data),
                *market_data,
                now_ms as int,
                symbol@,
                account_name@,
                account_spec@,
            ),
            StrategyStatus::SentEntryOrders => step_sententry(
                *old(strategy),
                *final(strategy),
                *old(account_data),
                *final(account_data),
            ),
            StrategyStatus::InATrade => step_inatrade(
                *old(strategy),
                *final(strategy),
                *old(account_data),
                *final(account_data),
                *market_data,
                now_ms as int,
                symbol@,
                account_spec@,
            ),
            StrategyStatus::SentExitOrders => step_sentexit(
                *old(strategy),
                *final(strategy),
                *old(account_data),
                *final(account_data),
                *market_data,
            ),
        },
{
    let signal = generate_signal(strategy, market_data, now_ms);
    match strategy.status {
        StrategyStatus::Unaware => {
            let seeded: Option<MarketPosition> = match &account_data.user_data {
                None => None,
                Some(ud) => {
                    if ud.is_flat() {
                        None
                    } else {
                        proof {
                            assert(ud.data.positions@.len() > 0);
                            assert(ud.data.positions@.last().wf());
                        }
                        let k = ud.data.positions.len() - 1;
                        Some(ud.data.positions[k].to_market_position())
                    }
                },
            };
            match &account_data.user_data {
                None => {},
                Some(_) => {
                    match seeded {
                        None => {
                            strategy.status = StrategyStatus::AwaitingTrades;
                        },
                        Some(mp) => {
                            strategy.positions.push(mp);
                            strategy.status = StrategyStatus::InATrade;
                        },
                    }
                },
            }
        },
        StrategyStatus::AwaitingTrades => {
            if !strategy.sent_entry_orders && !signal.0.is_unknown() {
                send_orders(
                    signal,
                    1,
                    account_data,
                    strategy,
                    LegType::Entry,
                    symbol,
                    account_name,
                    account_spec,
                );
            }
        },
        StrategyStatus::SentEntryOrders => {
            let u_opt: Option<OrderUpdateMessage> = match &account_data.order_update {
                Some(u0) => Some(u0.duplicate()),
                None => None,
            };
            if let Some(u) = u_opt {
                if account_data.order_id_messages.len() > 0 {
                    let last_oid = account_data.order_id_messages[account_data
                        .order_id_messages.len() - 1].data.order_id;
                    if u.is_filled() && u.id() == last_oid && strategy.positions.len() > 0 {
                        let idx = strategy.positions.len() - 1;
                        let p = strategy.positions[idx].duplicate();
                        let q = p.update_from_order_update(&u);
                        strategy.positions.set(idx, q);
                        strategy.status = StrategyStatus::InATrade;
                    }
                }
            }
        },
        StrategyStatus::InATrade => {
            if strategy.positions.len() > 0 {
                if strategy.is_opposite(signal.0) {
                    let idx = strategy.positions.len() - 1;
                    if !strategy.sent_exit_orders {
                        let rid = request_id_from(account_data.sent_requests.len(), 1);
                        let req = strategy.positions[idx].create_closing_ticket(
                            rid,
                            symbol,
                            account_spec,
                        );
                        account_data.unsent_requests.push(req);
                        strategy.sent_exit_orders = true;
                        let p = strategy.positions[idx].duplicate();
                        let q = MarketPosition { exit_trigger: signal.1, ..p };
                        strategy.positions.set(idx, q);
                    }
                    strategy.status = StrategyStatus::SentExitOrders;
                } else {
                    let idx = strategy.positions.len() - 1;
                    let pcid = strategy.positions[idx].contract_id;
                    if let Some(ci) = market_data.find_contract_by_id(pcid) {
                        let hist_id = market_data.contract_ids[ci].historical_id;
                        let bpv = market_data.contract_ids[ci].big_point_value;
                        proof {
                            assert(market_data.contract_ids@[ci as int].wf());
                            lemma_last_quote_bounds(
                                market_data.time_and_sales.items@,
                                hist_id as int,
                            );
                        }
                        if let Some(q) = market_data.time_and_sales.get_quote(hist_id) {
                            if strategy.positions[idx].entry_fill.is_some() {
                                let pnl = strategy.positions[idx].unrealized_pnl(&q, bpv);
                                if pnl < -TRADE_CLOSE_TRIGGER && !strategy.sent_exit_orders {
                                    let rid = request_id_from(
                                        account_data.sent_requests.len(),
                                        2,
                                    );
                                    let req = strategy.positions[idx].create_closing_ticket(
                                        rid,
                                        symbol,
                                        account_spec,
                                    );
                                    account_data.unsent_requests.push(req);
                                    strategy.sent_exit_orders = true;
                                    let p = strategy.positions[idx].duplicate();
                                    let mut trig: String = String::from_str("unrealized pnl ");
                                    let ptext = i64_to_string(pnl);
                                    trig.append(ptext.as_str());
                                    let q2 = MarketPosition { exit_trigger: trig, ..p };
                                    strategy.positions.set(idx, q2);
                                    strategy.status = StrategyStatus::SentExitOrders;
                                }
                            }
                        }
                    }
                }
            }
        },
        StrategyStatus::SentExitOrders => {
            let u_opt: Option<OrderUpdateMessage> = match &account_data.order_update {
                Some(u0) => Some(u0.duplicate()),
                None => None,
            };
            if let Some(u) = u_opt {
                if account_data.order_id_messages.len() > 0 {
                    let last_oid = account_data.order_id_messages[account_data
                        .order_id_messages.len() - 1].data.order_id;
                    if u.is_filled() && u.id() == last_oid && strategy.positions.len() > 0 {
                        let idx = strategy.positions.len() - 1;
                        let differs: bool = match &strategy.positions[idx].entry_fill {
                            Some(f) => !f.eq_fill(&u.data.entity),
                            None => false,
                        };
                        if differs {
                            let pcid = strategy.positions[idx].contract_id;
                            if let Some(ci) = market_data.find_contract_by_id(pcid) {
                                let bpv = market_data.contract_ids[ci].big_point_value;
                                proof {
                                    assert(market_data.contract_ids@[ci as int].wf());
                                }
                                account_data.order_update = None;
                                strategy.status = StrategyStatus::AwaitingTrades;
                                strategy.sent_entry_orders = false;
                                strategy.sent_exit_orders = false;
                                let p = strategy.positions[idx].duplicate();
                                let closed = p.close(&u, bpv, SINGLE_LEG_COMMISSION);
                                strategy.positions.set(idx, closed);
                            }
                        }
                    }
                }
            }
        },
    }
}

/// From a trade in progress, a tick whose signal opposes the held direction
/// always moves the strategy to the exit-sent phase on that same tick,
/// whatever the current unrealized profit shows; and when no exit order
/// was dispatched yet this phase, exactly one flattening request is queued
/// and the exit flag set.
pub proof fn lemma_opposing_signal_exits(
    so: Strategy,
    sn: Strategy,
    ao: AcctCommsChannel,
    an: AcctCommsChannel,
    view: MarketData,
    now: int,
    symv: Seq<char>,
    specv: Seq<char>,
)
    requires
        so.status is InATrade,
        so.positions@.len() > 0,
        so.is_opposite_spec(signal_spec(so, view, now)),
        step_inatrade(so, sn, ao, an, view, now, symv, specv),
    ensures
        sn.status is SentExitOrders,
        !so.sent_exit_orders ==> sn.sent_exit_orders && an.unsent_requests@.len()
            == ao.unsent_requests@.len() + 1,
{
}

} // verus!
