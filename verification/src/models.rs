//! Shared data types of the engine: contract descriptors, quote and
//! depth-of-book messages, tick-chart batches, account snapshots, order
//! acknowledgments and fills.
//!
//! Prices and money amounts are scaled by `FP_SCALE`; percentages by the
//! same factor (so `PERCENT_SCALE` represents 100 percent).

use vstd::prelude::*;

use crate::settings::{
    MAX_DEPTH_TOTAL, MAX_POINT_VALUE, MAX_PRICE, MAX_QTY, MAX_TIME_MS, PERCENT_SCALE,
};
use crate::time_and_sales::{clamp_total, OrderAction, TimeAndSalesItem};
use vstd::string::StringExecFns;

verus! {

/// A resolved contract: symbol, contract id, the subscription/historical id
/// bound after subscribing, tick size and point value (both scaled).
#[derive(Debug, Clone)]
pub struct ContractID {
    pub contract_maturity_id: i64,
    pub id: i64,
    pub symbol: String,
    pub provider_tick_size: i64,
    pub status: String,
    pub historical_id: i64,
    pub big_point_value: i64,
}

impl ContractID {
    /// Wire-sanity bound needed before the point value can feed a
    /// profit-and-loss computation.
    pub open spec fn wf(self) -> bool {
        0 <= self.big_point_value <= MAX_POINT_VALUE
    }
}

/// Product metadata as resolved by the contract service.
#[derive(Debug, Clone)]
pub struct ProductInfo {
    pub id: i64,
    pub symbol: String,
    pub currency_id: i64,
    pub product_type: String,
    pub description: String,
    pub exchange_id: i64,
    pub contract_group_id: i64,
    pub risk_discount_contract_group_id: i64,
    pub status: String,
    pub months: String,
    pub is_secured: bool,
    pub value_per_point: i64,
    pub price_format_type: String,
    pub price_format: i64,
    pub tick_size: i64,
}

pub fn to_be_calculated_bool() -> (r: bool)
    ensures
        r == false,
{
    false
}

pub fn to_be_calculated_string() -> (r: String)
    ensures
        r@ == Seq::<char>::empty(),
{
    String::new()
}

pub fn to_be_calculated_int() -> (r: i64)
    ensures
        r == 0,
{
    0
}

/// Synthetic best bid / best ask derived from the latest trade tick of a
/// contract. Prices are scaled by `FP_SCALE`.
#[derive(Debug, Clone, Copy, PartialEq, Eq, Structural)]
pub struct SimpleQuote {
    pub bid: i64,
    pub ask: i64,
}

// QUOTE MESSAGES

#[derive(Debug, Clone, Copy, PartialEq, Eq, Structural)]
pub struct Bid {
    pub price: i64,
    pub size: i64,
}

#[derive(Debug, Clone, Copy, PartialEq, Eq, Structural)]
pub struct HighPrice {
    pub price: i64,
}

#[derive(Debug, Clone, Copy, PartialEq, Eq, Structural)]
pub struct LowPrice {
    pub price: i64,
}

#[derive(Debug, Clone, Copy, PartialEq, Eq, Structural)]
pub struct Offer {
    pub price: i64,
    pub size: i64,
}

#[derive(Debug, Clone, Copy, PartialEq, Eq, Structural)]
pub struct OpenInterest {
    pub size: i64,
}

#[derive(Debug, Clone, Copy, PartialEq, Eq, Structural)]
pub struct OpeningPrice {
    pub price: i64,
}

#[derive(Debug, Clone, Copy, PartialEq, Eq, Structural)]
pub struct SettlementPrice {
    pub price: i64,
}

#[derive(Debug, Clone, Copy, PartialEq, Eq, Structural)]
pub struct TotalTradeVolume {
    pub size: i64,
}

#[derive(Debug, Clone, Copy, PartialEq, Eq, Structural)]
pub struct Trade {
    pub price: i64,
}

#[derive(Debug, Clone, Copy, PartialEq, Eq, Structural)]
pub struct Entries {
    pub bid: Bid,
    pub high_price: HighPrice,
    pub low_price: LowPrice,
    pub offer: Offer,
    pub open_interest: OpenInterest,
    pub opening_price: OpeningPrice,
    pub settlement_price: SettlementPrice,
    pub total_trade_volume: TotalTradeVolume,
    pub trade: Trade,
}

/// One quote snapshot for a contract.
#[derive(Debug, Clone)]
pub struct Quote {
    pub contract_id: i64,
    pub entries: Entries,
    pub id: i64,
    pub timestamp: String,
}

#[derive(Debug, Clone)]
pub struct D {
    pub quotes: Vec<Quote>,
}

/// A quote market payload: replaces the consolidated view's current quote.
#[derive(Debug, Clone)]
pub struct QuoteMessage {
    pub data: D,
    pub event: String,
}

// DEPTH OF MARKET

/// One depth-of-book snapshot for a contract; the timestamp is in epoch
/// milliseconds (resolved when the wire frame is decoded).
#[derive(Debug, Clone)]
pub struct Dom {
    pub bids: Vec<Bid>,
    pub contract_id: i64,
    pub offers: Vec<Offer>,
    pub timestamp: i64,
}

#[derive(Debug, Clone)]
pub struct DOMData {
    pub doms: Vec<Dom>,
}

/// A depth market payload, possibly covering several contracts.
#[derive(Debug, Clone)]
pub struct DOMMessage {
    pub data: DOMData,
    pub event: String,
}

/// Aggregated depth: total bid and ask size, scaled percentages, net
/// imbalance (sell percent minus buy percent) and contributing contract ids.
#[derive(Debug, Clone)]
pub struct DOMSummary {
    pub contract_ids: Vec<i64>,
    pub total_bid: i64,
    pub total_ask: i64,
    pub percent_sells: i64,
    pub percent_buys: i64,
    pub total_orders: i64,
    pub timestamp: i64,
    pub net: i64,
}

/// The mathematical content of a `DOMSummary`: everything else is derived.
pub struct DepthModel {
    pub ids: Seq<i64>,
    pub bid: int,
    pub ask: int,
    pub ts: int,
}

/// `part` out of `total` as a scaled percentage; 0 when the book is empty.
pub open spec fn pct(part: int, total: int) -> int {
    if total == 0 {
        0
    } else {
        PERCENT_SCALE * part / total
    }
}

/// Every id of `b` already occurs in `a`.
pub open spec fn sub_ids(a: Seq<i64>, b: Seq<i64>) -> bool {
    forall|i: int| 0 <= i < b.len() ==> a.contains(#[trigger] b[i])
}

/// `a` followed by those ids of `b` that `a` does not already hold.
pub open spec fn union_ids(a: Seq<i64>, b: Seq<i64>) -> Seq<i64>
    decreases b.len(),
{
    if b.len() == 0 {
        a
    } else {
        let r = union_ids(a, b.drop_last());
        if r.contains(b.last()) {
            r
        } else {
            r.push(b.last())
        }
    }
}

/// The earlier of two timestamps, unless one is zero (then the non-zero
/// one, or zero when both are).
pub open spec fn merge_ts(x: int, y: int) -> int {
    if x != 0 && y != 0 {
        if x <= y {
            x
        } else {
            y
        }
    } else if x == 0 {
        y
    } else {
        x
    }
}

pub open spec fn empty_depth_model() -> DepthModel {
    DepthModel { ids: Seq::empty(), bid: 0, ask: 0, ts: 0 }
}

/// Merging two summaries: when every id of `y` is already counted in `x`
/// the merge is skipped (no double count); otherwise sizes are added
/// (saturating at `MAX_DEPTH_TOTAL`), id sets united and the timestamp rule
/// applied.
pub open spec fn merge_model(x: DepthModel, y: DepthModel) -> DepthModel {
    if sub_ids(x.ids, y.ids) {
        x
    } else {
        DepthModel {
            ids: union_ids(x.ids, y.ids),
            bid: clamp_total(x.bid + y.bid),
            ask: clamp_total(x.ask + y.ask),
            ts: merge_ts(x.ts, y.ts),
        }
    }
}

pub open spec fn model_of(s: DOMSummary) -> DepthModel {
    DepthModel {
        ids: s.contract_ids@,
        bid: s.total_bid as int,
        ask: s.total_ask as int,
        ts: s.timestamp as int,
    }
}

/// A summary is well formed when its sizes are bounded and every derived
/// field agrees with the model.
pub open spec fn wf_summary(s: DOMSummary) -> bool {
    &&& 0 <= s.total_bid <= MAX_DEPTH_TOTAL
    &&& 0 <= s.total_ask <= MAX_DEPTH_TOTAL
    &&& s.total_orders == s.total_bid + s.total_ask
    &&& s.percent_buys == pct(s.total_bid as int, s.total_orders as int)
    &&& s.percent_sells == pct(s.total_ask as int, s.total_orders as int)
    &&& 0 <= s.percent_buys <= PERCENT_SCALE
    &&& 0 <= s.percent_sells <= PERCENT_SCALE
    &&& s.net == s.percent_sells - s.percent_buys
    &&& -MAX_TIME_MS <= s.timestamp <= MAX_TIME_MS
}

/// Total size on the bid side of a book.
pub open spec fn bid_sizes(levels: Seq<Bid>) -> int
    decreases levels.len(),
{
    if levels.len() == 0 {
        0
    } else {
        bid_sizes(levels.drop_last()) + levels.last().size as int
    }
}

/// Total size on the offer side of a book.
pub open spec fn offer_sizes(levels: Seq<Offer>) -> int
    decreases levels.len(),
{
    if levels.len() == 0 {
        0
    } else {
        offer_sizes(levels.drop_last()) + levels.last().size as int
    }
}

proof fn lemma_bid_sizes_nonneg(levels: Seq<Bid>)
    requires
        forall|i: int| 0 <= i < levels.len() ==> 0 <= (#[trigger] levels[i]).size,
    ensures
        bid_sizes(levels) >= 0,
    decreases levels.len(),
{
    if levels.len() > 0 {
        lemma_bid_sizes_nonneg(levels.drop_last());
    }
}

proof fn lemma_offer_sizes_nonneg(levels: Seq<Offer>)
    requires
        forall|i: int| 0 <= i < levels.len() ==> 0 <= (#[trigger] levels[i]).size,
    ensures
        offer_sizes(levels) >= 0,
    decreases levels.len(),
{
    if levels.len() > 0 {
        lemma_offer_sizes_nonneg(levels.drop_last());
    }
}

impl Dom {
    /// Wire-sanity bounds on a decoded depth snapshot.
    pub open spec fn wf(self) -> bool {
        &&& forall|i: int|
            0 <= i < self.bids@.len() ==> 0 <= (#[trigger] self.bids@[i]).size <= MAX_QTY
        &&& forall|i: int|
            0 <= i < self.offers@.len() ==> 0 <= (#[trigger] self.offers@[i]).size <= MAX_QTY
        &&& -MAX_TIME_MS <= self.timestamp <= MAX_TIME_MS
    }

    /// The model this snapshot contributes: its sizes summed per side
    /// (saturating), under its own contract id.
    pub open spec fn model(self) -> DepthModel {
        DepthModel {
            ids: seq![self.contract_id],
            bid: clamp_total(bid_sizes(self.bids@)),
            ask: clamp_total(offer_sizes(self.offers@)),
            ts: self.timestamp as int,
        }
    }

    /// Summarize one snapshot: side totals, scaled percentages and net.
    pub fn get_summary(&self) -> (r: DOMSummary)
        requires
            self.wf(),
        ensures
            wf_summary(r),
            model_of(r) == self.model(),
    {
        let ghost bs = self.bids@;
        let mut bid_total: i64 = 0;
        for i in 0..self.bids.len()
            invariant
                bs == self.bids@,
                self.wf(),
                0 <= bid_total <= MAX_DEPTH_TOTAL,
                bid_total == clamp_total(bid_sizes(bs.take(i as int))),
        {
            proof {
                assert(bs.take(i + 1).drop_last() =~= bs.take(i as int));
                assert(bs.take(i + 1).last() == bs[i as int]);
                assert(forall|j: int|
                    0 <= j < i ==> 0 <= (#[trigger] bs.take(i as int)[j]).size);
                lemma_bid_sizes_nonneg(bs.take(i as int));
            }
            let sz = self.bids[i].size;
            bid_total = if sz > MAX_DEPTH_TOTAL - bid_total {
                MAX_DEPTH_TOTAL
            } else {
                bid_total + sz
            };
        }
        proof {
            assert(bs.take(bs.len() as int) =~= bs);
        }
        let ghost os = self.offers@;
        let mut ask_total: i64 = 0;
        for i in 0..self.offers.len()
            invariant
                os == self.offers@,
                self.wf(),
                0 <= ask_total <= MAX_DEPTH_TOTAL,
                ask_total == clamp_total(offer_sizes(os.take(i as int))),
        {
            proof {
                assert(os.take(i + 1).drop_last() =~= os.take(i as int));
                assert(os.take(i + 1).last() == os[i as int]);
                assert(forall|j: int|
                    0 <= j < i ==> 0 <= (#[trigger] os.take(i as int)[j]).size);
                lemma_offer_sizes_nonneg(os.take(i as int));
            }
            let sz = self.offers[i].size;
            ask_total = if sz > MAX_DEPTH_TOTAL - ask_total {
                MAX_DEPTH_TOTAL
            } else {
                ask_total + sz
            };
        }
        proof {
            assert(os.take(os.len() as int) =~= os);
        }
        let total: i64 = bid_total + ask_total;
        let percent_buys: i64 = pct_exec(bid_total, total);
        let percent_sells: i64 = pct_exec(ask_total, total);
        let mut ids: Vec<i64> = Vec::new();
        ids.push(self.contract_id);
        proof {
            assert(ids@ =~= seq![self.contract_id]);
        }
        DOMSummary {
            contract_ids: ids,
            total_bid: bid_total,
            total_ask: ask_total,
            percent_sells,
            percent_buys,
            total_orders: total,
            timestamp: self.timestamp,
            net: percent_sells - percent_buys,
        }
    }
}

/// Scaled percentage of `part` within `total`, with an empty total giving 0.
fn pct_exec(part: i64, total: i64) -> (r: i64)
    requires
        0 <= part <= total,
        total <= 2 * MAX_DEPTH_TOTAL,
    ensures
        r == pct(part as int, total as int),
        0 <= r <= PERCENT_SCALE,
{
    if total == 0 {
        0
    } else {
        proof {
            assert((PERCENT_SCALE as int) * (part as int) <= 20_000_000_000_000_000_000)
                by (nonlinear_arith)
                requires 0 <= part <= 2_000_000_000_000 && PERCENT_SCALE == 10_000_000;
        }
        let num: u128 = (PERCENT_SCALE as u128) * (part as u128);
        let q: u128 = num / (total as u128);
        proof {
            let p = part as int;
            let t = total as int;
            let ps = PERCENT_SCALE as int;
            assert(ps * p <= ps * t) by (nonlinear_arith)
                requires 0 <= p <= t, ps > 0;
            assert(ps * p / t <= ps * t / t) by (nonlinear_arith)
                requires ps * p <= ps * t, 0 < t;
            assert(ps * t / t == ps) by (nonlinear_arith)
                requires 0 < t;
            assert(ps * p / t >= 0) by (nonlinear_arith)
                requires 0 <= p, 0 < t, ps > 0;
        }
        q as i64
    }
}

impl DOMSummary {
    /// The empty summary: no contracts, zero sizes, zero timestamp.
    pub fn new() -> (r: Self)
        ensures
            wf_summary(r),
            model_of(r) == empty_depth_model(),
    {
        let ids: Vec<i64> = Vec::new();
        proof {
            assert(ids@ =~= Seq::<i64>::empty());
        }
        DOMSummary {
            contract_ids: ids,
            percent_sells: 0,
            percent_buys: 0,
            total_orders: 0,
            timestamp: 0,
            net: 0,
            total_bid: 0,
            total_ask: 0,
        }
    }

    /// Merge another summary into this one. When every contract id of
    /// `other` is already counted here the value is returned unchanged;
    /// otherwise sizes are added (saturating), percentages recomputed, the
    /// id sets united and the timestamp rule applied.
    pub fn sum(self, other: DOMSummary) -> (r: Self)
        requires
            wf_summary(self),
            wf_summary(other),
        ensures
            wf_summary(r),
            model_of(r) == merge_model(model_of(self), model_of(other)),
            sub_ids(self.contract_ids@, other.contract_ids@) ==> r == self,
    {
        let contained: bool = ids_subset(&self.contract_ids, &other.contract_ids);
        if contained {
            self
        } else {
            let ghost a = self.contract_ids@;
            let ghost b = other.contract_ids@;
            let mut all: Vec<i64> = self.contract_ids;
            proof {
                assert(all@ == union_ids(a, b.take(0))) by {
                    assert(b.take(0) =~= Seq::<i64>::empty());
                }
            }
            for i in 0..other.contract_ids.len()
                invariant
                    b == other.contract_ids@,
                    all@ == union_ids(a, b.take(i as int)),
            {
                proof {
                    assert(b.take(i + 1).drop_last() =~= b.take(i as int));
                    assert(b.take(i + 1).last() == b[i as int]);
                }
                let id = other.contract_ids[i];
                if !vec_contains_i64(&all, id) {
                    all.push(id);
                }
            }
            proof {
                assert(b.take(b.len() as int) =~= b);
            }
            let new_bids: i64 = if other.total_bid > MAX_DEPTH_TOTAL - self.total_bid {
                MAX_DEPTH_TOTAL
            } else {
                self.total_bid + other.total_bid
            };
            let new_asks: i64 = if other.total_ask > MAX_DEPTH_TOTAL - self.total_ask {
                MAX_DEPTH_TOTAL
            } else {
                self.total_ask + other.total_ask
            };
            let new_total: i64 = new_bids + new_asks;
            let percent_sells: i64 = pct_exec(new_asks, new_total);
            let percent_buys: i64 = pct_exec(new_bids, new_total);
            let timestamp: i64 = if self.timestamp != 0 && other.timestamp != 0 {
                if self.timestamp <= other.timestamp {
                    self.timestamp
                } else {
                    other.timestamp
                }
            } else if self.timestamp == 0 {
                other.timestamp
            } else {
                self.timestamp
            };
            DOMSummary {
                contract_ids: all,
                percent_sells,
                percent_buys,
                total_orders: new_total,
                net: percent_sells - percent_buys,
                timestamp,
                total_bid: new_bids,
                total_ask: new_asks,
            }
        }
    }
}

/// Merging a summary with itself (or with any summary whose contract ids it
/// already counts) leaves it unchanged: contracts are never double counted.
pub proof fn lemma_merge_self(s: DOMSummary)
    requires
        wf_summary(s),
    ensures
        sub_ids(s.contract_ids@, s.contract_ids@),
        merge_model(model_of(s), model_of(s)) == model_of(s),
{
}

fn vec_contains_i64(v: &Vec<i64>, x: i64) -> (r: bool)
    ensures
        r == v@.contains(x),
{
    for i in 0..v.len()
        invariant
            forall|j: int| 0 <= j < i ==> v@[j] != x,
    {
        if v[i] == x {
            return true;
        }
    }
    false
}

fn ids_subset(a: &Vec<i64>, b: &Vec<i64>) -> (r: bool)
    ensures
        r == sub_ids(a@, b@),
{
    for i in 0..b.len()
        invariant
            forall|j: int| 0 <= j < i ==> a@.contains(#[trigger] b@[j]),
    {
        if !vec_contains_i64(a, b[i]) {
            return false;
        }
    }
    true
}

impl DOMMessage {
    pub open spec fn wf(self) -> bool {
        forall|i: int| 0 <= i < self.data.doms@.len() ==> (#[trigger] self.data.doms@[i]).wf()
    }

    /// Left fold of the per-snapshot models of this message's books.
    pub open spec fn combined_model(doms: Seq<Dom>) -> DepthModel
        decreases doms.len(),
    {
        if doms.len() == 0 {
            empty_depth_model()
        } else {
            merge_model(Self::combined_model(doms.drop_last()), doms.last().model())
        }
    }

    /// Summarize every book of this message and merge the summaries in order.
    pub fn combine(&self) -> (r: DOMSummary)
        requires
            self.wf(),
        ensures
            wf_summary(r),
            model_of(r) == Self::combined_model(self.data.doms@),
    {
        let ghost ds = self.data.doms@;
        let mut total = DOMSummary::new();
        for i in 0..self.data.doms.len()
            invariant
                ds == self.data.doms@,
                self.wf(),
                wf_summary(total),
                model_of(total) == Self::combined_model(ds.take(i as int)),
        {
            proof {
                assert(ds.take(i + 1).drop_last() =~= ds.take(i as int));
                assert(ds.take(i + 1).last() == ds[i as int]);
            }
            let summary = self.data.doms[i].get_summary();
            total = total.sum(summary);
        }
        proof {
            assert(ds.take(ds.len() as int) =~= ds);
        }
        total
    }
}

// SUBSCRIPTION ACKNOWLEDGMENTS

/// A generic request acknowledgment carrying the ids a subscription was
/// bound to.
#[derive(Debug, Clone)]
pub struct WebsocketResponse {
    pub status: i64,
    pub request_id: i64,
    pub data: RequestData,
}

#[derive(Debug, Clone)]
pub struct RequestData {
    pub mode: String,
    pub contract_id: i64,
    pub historical_id: i64,
    pub realtime_id: i64,
}

// TICK CHART MESSAGES

/// One trade event of a chart packet, in units relative to the packet's
/// base price and base timestamp.
#[derive(Debug, Clone, Copy, PartialEq, Eq, Structural)]
pub struct Tick {
    pub ask_relative_price: i64,
    pub ask_size: i64,
    pub bid_relative_price: i64,
    pub bid_size: i64,
    pub tick_id: i64,
    pub relative_price: i64,
    pub tick_volume: i64,
    pub relative_timestamp: i64,
}

/// Inferred trade side: above the quote midpoint is a buy, below a sell.
pub open spec fn side_of(price: int, bid: int, ask: int) -> OrderAction {
    if 2 * price > bid + ask {
        OrderAction::Buy
    } else if 2 * price < bid + ask {
        OrderAction::Sell
    } else {
        OrderAction::Unknown
    }
}

impl Tick {
    /// Resolve this tick against its packet: absolute scaled prices, the
    /// absolute timestamp, the receipt delay against `now_ms`, and the
    /// inferred side.
    pub fn to_ts_item(
        &self,
        base_price: i64,
        tick_size: i64,
        base_timestamp: i64,
        historical_id: i64,
        now_ms: i64,
    ) -> (r: TimeAndSalesItem)
        requires
            -MAX_PRICE <= base_price <= MAX_PRICE,
            -MAX_PRICE <= base_price + tick_size * self.relative_price <= MAX_PRICE,
            -MAX_PRICE <= base_price + tick_size * self.bid_relative_price <= MAX_PRICE,
            -MAX_PRICE <= base_price + tick_size * self.ask_relative_price <= MAX_PRICE,
            -MAX_TIME_MS <= base_timestamp + self.relative_timestamp <= MAX_TIME_MS,
            0 <= self.tick_volume <= MAX_QTY,
            -MAX_TIME_MS <= now_ms <= MAX_TIME_MS,
        ensures
            r.price == base_price + tick_size * self.relative_price,
            r.bid == base_price + tick_size * self.bid_relative_price,
            r.ask == base_price + tick_size * self.ask_relative_price,
            r.timestamp == base_timestamp + self.relative_timestamp,
            r.receipt_delay == now_ms - r.timestamp,
            r.qty == self.tick_volume,
            r.historical_id == historical_id,
            r.action == side_of(r.price as int, r.bid as int, r.ask as int),
            r.wf(),
    {
        let price: i64 = base_price + tick_size * self.relative_price;
        let bid: i64 = base_price + tick_size * self.bid_relative_price;
        let ask: i64 = base_price + tick_size * self.ask_relative_price;
        let timestamp: i64 = base_timestamp + self.relative_timestamp;
        let delay: i64 = now_ms - timestamp;
        let action = if 2 * price > bid + ask {
            OrderAction::Buy
        } else if 2 * price < bid + ask {
            OrderAction::Sell
        } else {
            OrderAction::Unknown
        };
        TimeAndSalesItem {
            historical_id,
            action,
            qty: self.tick_volume,
            price,
            timestamp,
            receipt_delay: delay,
            bid,
            ask,
        }
    }
}

/// One chart packet: a base price (in tick-size units), a base timestamp
/// and a batch of relative ticks. `tick_size` is scaled by `FP_SCALE`.
#[derive(Debug, Clone)]
pub struct Chart {
    pub symbol: String,
    pub contract_id: i64,
    pub base_price: i64,
    pub base_timestamp: i64,
    pub historical_id: i64,
    pub packet_data_source: String,
    pub trade_date: i64,
    pub ticks: Vec<Tick>,
    pub tick_size: i64,
    pub eoh: bool,
}

/// The packet's absolute scaled base price.
pub open spec fn chart_base(c: Chart) -> int {
    c.base_price * c.tick_size
}

/// All resolved values of tick `i` of packet `c` are within wire bounds.
pub open spec fn tick_ok(c: Chart, i: int) -> bool {
    let t = c.ticks@[i];
    &&& -MAX_PRICE <= chart_base(c) + c.tick_size * t.relative_price <= MAX_PRICE
    &&& -MAX_PRICE <= chart_base(c) + c.tick_size * t.bid_relative_price <= MAX_PRICE
    &&& -MAX_PRICE <= chart_base(c) + c.tick_size * t.ask_relative_price <= MAX_PRICE
    &&& -MAX_TIME_MS <= c.base_timestamp + t.relative_timestamp <= MAX_TIME_MS
    &&& 0 <= t.tick_volume <= MAX_QTY
}

/// The whole packet resolves within wire bounds.
pub open spec fn chart_ok(c: Chart) -> bool {
    &&& -MAX_PRICE <= chart_base(c) <= MAX_PRICE
    &&& forall|i: int| 0 <= i < c.ticks@.len() ==> tick_ok(c, i)
}

/// The trade event that tick `i` of packet `c` resolves to.
pub open spec fn chart_item_spec(c: Chart, i: int, now: int) -> TimeAndSalesItem {
    let t = c.ticks@[i];
    let price = chart_base(c) + c.tick_size * t.relative_price;
    let bid = chart_base(c) + c.tick_size * t.bid_relative_price;
    let ask = chart_base(c) + c.tick_size * t.ask_relative_price;
    let ts = c.base_timestamp + t.relative_timestamp;
    (TimeAndSalesItem {
        historical_id: c.historical_id,
        action: side_of(price, bid, ask),
        qty: t.tick_volume,
        price: price as i64,
        bid: bid as i64,
        ask: ask as i64,
        timestamp: ts as i64,
        receipt_delay: (now - ts) as i64,
    })
}

/// The resolved events of a whole packet, in packet order.
pub open spec fn chart_items_spec(c: Chart, now: int) -> Seq<TimeAndSalesItem> {
    Seq::new(c.ticks@.len(), |i: int| chart_item_spec(c, i, now))
}

impl Chart {
    /// Resolve every tick of this packet, or `None` when any resolved value
    /// falls outside the wire bounds (the packet is then dropped as
    /// malformed).
    pub fn get_ts_items(&self, now_ms: i64) -> (r: Option<Vec<TimeAndSalesItem>>)
        requires
            -MAX_TIME_MS <= now_ms <= MAX_TIME_MS,
        ensures
            r is Some <==> chart_ok(*self),
            r is Some ==> r.unwrap()@ == chart_items_spec(*self, now_ms as int),
            r is Some ==> crate::time_and_sales::items_wf(r.unwrap()@),
    {
        proof {
            lemma_i64_product_fits(self.base_price as int, self.tick_size as int);
        }
        let base128: i128 = (self.base_price as i128) * (self.tick_size as i128);
        if base128 < -MAX_PRICE as i128 || base128 > MAX_PRICE as i128 {
            return None;
        }
        let base: i64 = base128 as i64;
        let mut out: Vec<TimeAndSalesItem> = Vec::new();
        let ghost cs = *self;
        for i in 0..self.ticks.len()
            invariant
                cs == *self,
                -MAX_TIME_MS <= now_ms <= MAX_TIME_MS,
                base == chart_base(cs),
                -MAX_PRICE <= base <= MAX_PRICE,
                out@.len() == i,
                forall|j: int| 0 <= j < i ==> tick_ok(cs, j),
                forall|j: int|
                    0 <= j < i ==> out@[j] == chart_item_spec(cs, j, now_ms as int),
                crate::time_and_sales::items_wf(out@),
        {
            let t = self.ticks[i];
            proof {
                lemma_i64_product_fits(self.tick_size as int, t.relative_price as int);
                lemma_i64_product_fits(self.tick_size as int, t.bid_relative_price as int);
                lemma_i64_product_fits(self.tick_size as int, t.ask_relative_price as int);
            }
            let p128: i128 = (base as i128) + (self.tick_size as i128) * (t.relative_price
                as i128);
            let b128: i128 = (base as i128) + (self.tick_size as i128) * (t.bid_relative_price
                as i128);
            let a128: i128 = (base as i128) + (self.tick_size as i128) * (t.ask_relative_price
                as i128);
            let ts128: i128 = (self.base_timestamp as i128) + (t.relative_timestamp as i128);
            if p128 < -MAX_PRICE as i128 || p128 > MAX_PRICE as i128 || b128 < -MAX_PRICE
                as i128 || b128 > MAX_PRICE as i128 || a128 < -MAX_PRICE as i128 || a128
                > MAX_PRICE as i128 || ts128 < -MAX_TIME_MS as i128 || ts128 > MAX_TIME_MS
                as i128 || t.tick_volume < 0 || t.tick_volume > MAX_QTY {
                proof {
                    assert(!tick_ok(cs, i as int));
                }
                return None;
            }
            let item = t.to_ts_item(base, self.tick_size, self.base_timestamp,
                self.historical_id, now_ms);
            out.push(item);
        }
        proof {
            assert(out@ =~= chart_items_spec(cs, now_ms as int));
        }
        Some(out)
    }
}

proof fn lemma_i64_product_fits(a: int, b: int)
    requires
        -0x8000_0000_0000_0000 <= a <= 0x8000_0000_0000_0000,
        -0x8000_0000_0000_0000 <= b <= 0x8000_0000_0000_0000,
    ensures
        -0x4000_0000_0000_0000_0000_0000_0000_0000 <= a * b
            <= 0x4000_0000_0000_0000_0000_0000_0000_0000,
{
    assert(-0x4000_0000_0000_0000_0000_0000_0000_0000 <= a * b
        <= 0x4000_0000_0000_0000_0000_0000_0000_0000) by (nonlinear_arith)
        requires
            -0x8000_0000_0000_0000 <= a <= 0x8000_0000_0000_0000,
            -0x8000_0000_0000_0000 <= b <= 0x8000_0000_0000_0000;
}

#[derive(Debug, Clone)]
pub struct ChartData {
    pub charts: Vec<Chart>,
}

/// A tick-chart market payload: a batch of chart packets.
#[derive(Debug, Clone)]
pub struct TickChart {
    pub data: ChartData,
    pub event: String,
}

/// The resolved events of a batch of packets, concatenated in order.
pub open spec fn charts_items_spec(cs: Seq<Chart>, now: int) -> Seq<TimeAndSalesItem>
    decreases cs.len(),
{
    if cs.len() == 0 {
        Seq::empty()
    } else {
        charts_items_spec(cs.drop_last(), now) + chart_items_spec(cs.last(), now)
    }
}

pub open spec fn charts_ok(cs: Seq<Chart>) -> bool {
    forall|i: int| 0 <= i < cs.len() ==> chart_ok(#[trigger] cs[i])
}

impl TickChart {
    /// Resolve every packet of the batch, or `None` when any packet is
    /// malformed (the whole frame is then dropped).
    pub fn get_all_ts_items(&self, now_ms: i64) -> (r: Option<Vec<TimeAndSalesItem>>)
        requires
            -MAX_TIME_MS <= now_ms <= MAX_TIME_MS,
        ensures
            r is Some <==> charts_ok(self.data.charts@),
            r is Some ==> r.unwrap()@ == charts_items_spec(self.data.charts@, now_ms as int),
            r is Some ==> crate::time_and_sales::items_wf(r.unwrap()@),
    {
        let ghost cs = self.data.charts@;
        let mut out: Vec<TimeAndSalesItem> = Vec::new();
        proof {
            assert(cs.take(0) =~= Seq::<Chart>::empty());
        }
        for i in 0..self.data.charts.len()
            invariant
                cs == self.data.charts@,
                -MAX_TIME_MS <= now_ms <= MAX_TIME_MS,
                forall|j: int| 0 <= j < i ==> chart_ok(#[trigger] cs[j]),
                out@ == charts_items_spec(cs.take(i as int), now_ms as int),
                crate::time_and_sales::items_wf(out@),
        {
            proof {
                assert(cs.take(i + 1).drop_last() =~= cs.take(i as int));
                assert(cs.take(i + 1).last() == cs[i as int]);
            }
            match self.data.charts[i].get_ts_items(now_ms) {
                Some(mut items) => {
                    out.append(&mut items);
                },
                None => {
                    return None;
                },
            }
        }
        proof {
            assert(cs.take(cs.len() as int) =~= cs);
        }
        Some(out)
    }
}

// USER DATA (ACCOUNT SNAPSHOT)

#[derive(Debug, Clone, Copy, PartialEq, Eq, Structural)]
pub struct AccountRiskStatus {
    pub id: i64,
}

/// One trading account of the user.
#[derive(Debug, Clone)]
pub struct Account {
    pub account_type: String,
    pub active: bool,
    pub archived: bool,
    pub auto_liq_profile_id: i64,
    pub clearing_house_id: i64,
    pub id: i64,
    pub legal_status: String,
    pub margin_account_type: String,
    pub name: String,
    pub nickname: String,
    pub risk_category_id: i64,
    pub timestamp: String,
    pub user_id: i64,
}

#[derive(Debug, Clone, Copy, PartialEq, Eq, Structural)]
pub struct TradeDate {
    pub day: i64,
    pub month: i64,
    pub year: i64,
}

/// Cash balance of an account; amounts are scaled.
#[derive(Debug, Clone)]
pub struct CashBalance {
    pub account_id: i64,
    pub amount: i64,
    pub archived: bool,
    pub currency_id: i64,
    pub id: i64,
    pub realized_pn_l: i64,
    pub timestamp: String,
    pub trade_date: TradeDate,
    pub week_realized_pn_l: i64,
}

#[derive(Debug, Clone)]
pub struct ContractGroup {
    pub id: i64,
    pub name: String,
}

#[derive(Debug, Clone)]
pub struct Currency {
    pub id: i64,
    pub name: String,
    pub symbol: String,
}

#[derive(Debug, Clone)]
pub struct Exchange {
    pub cftc_reporting: bool,
    pub complex: String,
    pub free_market_data: bool,
    pub id: i64,
    pub is_secured_default: bool,
    pub market_type: String,
    pub name: String,
    pub span: Option<String>,
    pub time_zone: String,
    pub tradingview_groups: Option<String>,
}

/// Margin snapshot of an account; amounts are scaled.
#[derive(Debug, Clone)]
pub struct MarginSnapshot {
    pub auto_liq_level: i64,
    pub full_initial_margin: i64,
    pub id: i64,
    pub initial_margin: i64,
    pub liq_only_level: i64,
    pub maintenance_margin: i64,
    pub risk_time_period_id: i64,
    pub timestamp: String,
    pub total_used_margin: i64,
}

#[derive(Debug, Clone, Copy, PartialEq, Eq, Structural)]
pub struct UserAccountAutoLiq {
    pub id: i64,
}

#[derive(Debug, Clone, Copy, PartialEq, Eq, Structural)]
pub struct ExpirationDate {
    pub day: i64,
    pub month: i64,
    pub year: i64,
}

#[derive(Debug, Clone, Copy, PartialEq, Eq, Structural)]
pub struct StartDate {
    pub day: i64,
    pub month: i64,
    pub year: i64,
}

/// A plugin subscription of the user; amounts are scaled.
#[derive(Debug, Clone)]
pub struct UserPlugin {
    pub approval: bool,
    pub archived: bool,
    pub autorenewal: Option<bool>,
    pub credit_card_id: Option<i64>,
    pub credit_card_transaction_id: Option<i64>,
    pub entitlement_id: i64,
    pub expiration_date: Option<ExpirationDate>,
    pub id: i64,
    pub paid_amount: i64,
    pub plan_categories: String,
    pub plan_price: i64,
    pub plugin_name: String,
    pub start_date: StartDate,
    pub timestamp: String,
    pub user_id: i64,
}

#[derive(Debug, Clone)]
pub struct UserProperty {
    pub id: i64,
    pub property_id: i64,
    pub user_id: i64,
    pub value: String,
}

#[derive(Debug, Clone, Copy, PartialEq, Eq, Structural)]
pub struct UserReadStatuse {
    pub id: i64,
    pub news_story_id: i64,
}

#[derive(Debug, Clone)]
pub struct User {
    pub creation_timestamp: String,
    pub email: String,
    pub id: i64,
    pub name: String,
    pub professional: bool,
    pub status: String,
    pub timestamp: String,
    pub two_factor_auth: bool,
    pub user_type: String,
}

/// An open or flat position reported by the account snapshot; `net_price`
/// is scaled.
#[derive(Debug, Clone)]
pub struct Position {
    pub account_id: i64,
    pub archived: bool,
    pub bought: i64,
    pub bought_value: i64,
    pub contract_id: i64,
    pub id: i64,
    pub net_pos: i64,
    pub net_price: i64,
    pub prev_pos: i64,
    pub sold: i64,
    pub sold_value: i64,
    pub timestamp: String,
    pub trade_date: TradeDate,
}

impl Position {
    /// Wire-sanity bounds needed before the position can seed the strategy.
    pub open spec fn wf(self) -> bool {
        &&& -MAX_QTY <= self.net_pos <= MAX_QTY
        &&& -MAX_PRICE <= self.net_price <= MAX_PRICE
    }
}

/// The account-state tables the engine reads from a user-data snapshot.
#[derive(Debug, Clone)]
pub struct UserData {
    pub account_risk_statuses: Vec<AccountRiskStatus>,
    pub accounts: Vec<Account>,
    pub cash_balances: Vec<CashBalance>,
    pub contract_groups: Vec<ContractGroup>,
    pub currencies: Vec<Currency>,
    pub exchanges: Vec<Exchange>,
    pub margin_snapshots: Vec<MarginSnapshot>,
    pub positions: Vec<Position>,
    pub user_account_auto_liqs: Vec<UserAccountAutoLiq>,
    pub user_plugins: Vec<UserPlugin>,
    pub user_properties: Vec<UserProperty>,
    pub user_read_statuses: Vec<UserReadStatuse>,
    pub users: Vec<User>,
}

/// A full account snapshot, with its request correlation id and status.
#[derive(Debug, Clone)]
pub struct UserDataMessage {
    pub data: UserData,
    pub request_id: i64,
    pub request_status: i64,
}

/// Every reported position has zero net quantity.
pub open spec fn all_flat(ps: Seq<Position>) -> bool {
    forall|i: int| 0 <= i < ps.len() ==> (#[trigger] ps[i]).net_pos == 0
}

impl UserDataMessage {
    /// Wire-sanity bounds on every position of the snapshot.
    pub open spec fn wf(self) -> bool {
        forall|i: int|
            0 <= i < self.data.positions@.len() ==> (#[trigger] self.data.positions@[i]).wf()
    }

    /// True when the snapshot shows no open position.
    pub fn is_flat(&self) -> (r: bool)
        ensures
            r == all_flat(self.data.positions@),
    {
        for i in 0..self.data.positions.len()
            invariant
                forall|j: int| 0 <= j < i ==> (#[trigger] self.data.positions@[j]).net_pos == 0,
        {
            if self.data.positions[i].net_pos != 0 {
                return false;
            }
        }
        true
    }
}

// ORDER UPDATES AND FILLS

/// A fill / order-status record: scaled average price, cumulative quantity
/// and the server-assigned order id.
#[derive(Debug, Clone)]
pub struct OrderStatus {
    pub account_id: i64,
    pub action: OrderAction,
    pub avg_px: i64,
    pub command_id: i64,
    pub contract_id: i64,
    pub cum_qty: i64,
    pub exec_type: String,
    pub external_cl_ord_id: String,
    pub id: i64,
    pub last_px: i64,
    pub last_qty: i64,
    pub name: String,
    pub ord_status: String,
    pub order_id: i64,
    pub timestamp: String,
}

impl OrderStatus {
    /// Wire-sanity bounds needed before a fill can feed a profit-and-loss
    /// computation.
    pub open spec fn wf(self) -> bool {
        &&& -MAX_PRICE <= self.avg_px <= MAX_PRICE
        &&& 0 <= self.cum_qty <= MAX_QTY
    }

    /// A synthetic filled record carrying only a price and a side, used to
    /// seed a position from an account snapshot.
    pub fn new(avg_px: i64, action: OrderAction) -> (r: Self)
        ensures
            r.avg_px == avg_px,
            r.action == action,
            r.account_id == 0,
            r.command_id == 0,
            r.contract_id == 0,
            r.cum_qty == 0,
            r.exec_type@ == Seq::<char>::empty(),
            r.external_cl_ord_id@ == Seq::<char>::empty(),
            r.id == 0,
            r.last_px == 0,
            r.last_qty == 0,
            r.name@ == Seq::<char>::empty(),
            r.ord_status@ == "Filled"@,
            r.order_id == 0,
            r.timestamp@ == Seq::<char>::empty(),
    {
        OrderStatus {
            account_id: 0,
            action,
            avg_px,
            command_id: 0,
            contract_id: 0,
            cum_qty: 0,
            exec_type: String::new(),
            external_cl_ord_id: String::new(),
            id: 0,
            last_px: 0,
            last_qty: 0,
            name: String::new(),
            ord_status: String::from_str("Filled"),
            order_id: 0,
            timestamp: String::new(),
        }
    }

    /// Field-wise equality of two records, on the views of their strings.
    pub open spec fn same_fill(self, o: OrderStatus) -> bool {
        &&& self.account_id == o.account_id
        &&& self.action == o.action
        &&& self.avg_px == o.avg_px
        &&& self.command_id == o.command_id
        &&& self.contract_id == o.contract_id
        &&& self.cum_qty == o.cum_qty
        &&& self.exec_type@ == o.exec_type@
        &&& self.external_cl_ord_id@ == o.external_cl_ord_id@
        &&& self.id == o.id
        &&& self.last_px == o.last_px
        &&& self.last_qty == o.last_qty
        &&& self.name@ == o.name@
        &&& self.ord_status@ == o.ord_status@
        &&& self.order_id == o.order_id
        &&& self.timestamp@ == o.timestamp@
    }

    /// An exact copy of this record.
    pub fn duplicate(&self) -> (r: Self)
        ensures
            r == *self,
    {
        OrderStatus {
            account_id: self.account_id,
            action: self.action,
            avg_px: self.avg_px,
            command_id: self.command_id,
            contract_id: self.contract_id,
            cum_qty: self.cum_qty,
            exec_type: self.exec_type.clone(),
            external_cl_ord_id: self.external_cl_ord_id.clone(),
            id: self.id,
            last_px: self.last_px,
            last_qty: self.last_qty,
            name: self.name.clone(),
            ord_status: self.ord_status.clone(),
            order_id: self.order_id,
            timestamp: self.timestamp.clone(),
        }
    }

    /// Decide `same_fill` executably.
    pub fn eq_fill(&self, o: &OrderStatus) -> (r: bool)
        ensures
            r == self.same_fill(*o),
    {
        self.account_id == o.account_id && self.action == o.action && self.avg_px
            == o.avg_px && self.command_id == o.command_id && self.contract_id == o.contract_id
            && self.cum_qty == o.cum_qty && self.exec_type == o.exec_type
            && self.external_cl_ord_id == o.external_cl_ord_id && self.id == o.id
            && self.last_px == o.last_px && self.last_qty == o.last_qty && self.name == o.name
            && self.ord_status == o.ord_status && self.order_id == o.order_id && self.timestamp
            == o.timestamp
    }
}

#[derive(Debug, Clone)]
pub struct OrderUpdate {
    pub entity: OrderStatus,
    pub entity_type: String,
    pub event_type: String,
}

/// An order-status event pushed by the account session.
#[derive(Debug, Clone)]
pub struct OrderUpdateMessage {
    pub data: OrderUpdate,
    pub event: String,
}

impl OrderUpdateMessage {
    /// True when the event reports the order as filled.
    pub fn is_filled(&self) -> (r: bool)
        ensures
            r == (self.data.entity.ord_status@ == "Filled"@),
    {
        let filled: String = String::from_str("Filled");
        self.data.entity.ord_status == filled
    }

    /// The server-assigned order id the event is about.
    pub fn id(&self) -> (r: i64)
        ensures
            r == self.data.entity.order_id,
    {
        self.data.entity.order_id
    }

    /// Wire-sanity bounds needed before the event can feed a position.
    pub open spec fn wf(self) -> bool {
        self.data.entity.wf()
    }

    /// An exact copy of this event.
    pub fn duplicate(&self) -> (r: Self)
        ensures
            r == *self,
    {
        OrderUpdateMessage {
            data: OrderUpdate {
                entity: self.data.entity.duplicate(),
                entity_type: self.data.entity_type.clone(),
                event_type: self.data.event_type.clone(),
            },
            event: self.event.clone(),
        }
    }
}

// ORDER-ID ACKNOWLEDGMENTS

#[derive(Debug, Clone, Copy, PartialEq, Eq, Structural)]
pub struct OrderID {
    pub order_id: i64,
}

/// Acknowledgment that an order request was accepted, with the
/// server-assigned order id.
#[derive(Debug, Clone, Copy, PartialEq, Eq, Structural)]
pub struct OrderIDMessage {
    pub data: OrderID,
    pub request_id: i64,
    pub request_status: i64,
}

// ACCOUNT SESSION STATE

/// Shared state of the account connection: protocol phase flags, heartbeat
/// timing, the outbound queues and the latest inbound account payloads.
#[derive(Debug, Clone)]
pub struct AcctCommsChannel {
    pub connection_established: bool,
    pub last_heart_beat_ms: i64,
    pub is_authorized: bool,
    pub socket_close: bool,
    pub terminated: bool,
    pub user_data: Option<UserDataMessage>,
    pub unsent_requests: Vec<String>,
    pub sent_requests: Vec<String>,
    pub order_update: Option<OrderUpdateMessage>,
    pub order_id_messages: Vec<OrderIDMessage>,
    pub received_closing_frame: bool,
}

impl AcctCommsChannel {
    /// Wire-sanity bounds on the inbound payloads the session holds.
    pub open spec fn wf(self) -> bool {
        &&& match self.user_data {
            Some(ud) => ud.wf(),
            None => true,
        }
        &&& match self.order_update {
            Some(u) => u.wf(),
            None => true,
        }
    }

    /// A fresh session holding the given initial outbound requests; the
    /// heartbeat timer starts at `now_ms`.
    pub fn new(requests: Vec<String>, now_ms: i64) -> (r: Self)
        ensures
            r.connection_established == false,
            r.last_heart_beat_ms == now_ms,
            r.is_authorized == false,
            r.socket_close == false,
            r.terminated == false,
            r.user_data is None,
            r.unsent_requests == requests,
            r.sent_requests@ =~= Seq::<String>::empty(),
            r.order_update is None,
            r.order_id_messages@ =~= Seq::<OrderIDMessage>::empty(),
            r.received_closing_frame == false,
    {
        AcctCommsChannel {
            last_heart_beat_ms: now_ms,
            is_authorized: false,
            socket_close: false,
            terminated: false,
            user_data: None,
            connection_established: false,
            unsent_requests: requests,
            sent_requests: Vec::new(),
            order_update: None,
            order_id_messages: Vec::new(),
            received_closing_frame: false,
        }
    }
}

} // verus!
