//! Trade ticks (time and sales), the rolling trade-flow-pressure window, and
//! derived per-contract quotes.

use vstd::prelude::*;

use crate::models::SimpleQuote;
use crate::settings::{MAX_DEPTH_TOTAL, MAX_PRICE, MAX_QTY, MAX_TIME_MS, ONE_SECOND};

verus! {

/// Inferred side of an executed trade, derived from its price relative to
/// the quote midpoint at trade time.
#[derive(Debug, Clone, Copy, PartialEq, Eq, Structural)]
pub enum OrderAction {
    Buy,
    Sell,
    Unknown,
}

impl OrderAction {
    pub fn is_unknown(&self) -> (r: bool)
        ensures
            r == (*self is Unknown),
    {
        matches!(self, OrderAction::Unknown)
    }
}

/// One executed trade: quantity, scaled price, the synthetic bid/ask at trade
/// time, the event timestamp and the receipt latency, all in plain integers.
#[derive(Debug, Clone, Copy, PartialEq, Eq, Structural)]
pub struct TimeAndSalesItem {
    pub historical_id: i64,
    pub action: OrderAction,
    pub qty: i64,
    pub price: i64,
    pub bid: i64,
    pub ask: i64,
    pub timestamp: i64,
    pub receipt_delay: i64,
}

impl TimeAndSalesItem {
    /// Wire-sanity bounds: quantities are non-negative and bounded, prices
    /// and timestamps bounded, so that every sum and product in the engine
    /// provably fits its machine type.
    pub open spec fn wf(self) -> bool {
        &&& 0 <= self.qty <= MAX_QTY
        &&& -MAX_PRICE <= self.price <= MAX_PRICE
        &&& -MAX_PRICE <= self.bid <= MAX_PRICE
        &&& -MAX_PRICE <= self.ask <= MAX_PRICE
        &&& -MAX_TIME_MS <= self.timestamp <= MAX_TIME_MS
    }
}

/// Buy-side and sell-side volume over the trailing window, and their net.
/// `asks_per_second` counts buy-side quantity (trades lifting the ask),
/// `bids_per_second` sell-side quantity (trades hitting the bid).
#[derive(Debug, Clone, Copy, PartialEq, Eq, Structural)]
pub struct TimeAndSalesPressure {
    pub bids_per_second: i64,
    pub asks_per_second: i64,
    pub net: i64,
    pub time: i64,
    pub price: i64,
}

impl TimeAndSalesPressure {
    pub fn new() -> (r: Self)
        ensures
            r == (TimeAndSalesPressure {
                bids_per_second: 0,
                asks_per_second: 0,
                net: 0,
                time: 0,
                price: 0,
            }),
    {
        TimeAndSalesPressure { bids_per_second: 0, asks_per_second: 0, net: 0, time: 0, price: 0 }
    }
}

impl Default for TimeAndSalesPressure {
    fn default() -> (r: Self)
        ensures
            r == (TimeAndSalesPressure {
                bids_per_second: 0,
                asks_per_second: 0,
                net: 0,
                time: 0,
                price: 0,
            }),
    {
        TimeAndSalesPressure::new()
    }
}

/// True when `item` falls in the trailing window ending at `now`.
pub open spec fn in_window(item: TimeAndSalesItem, now: int) -> bool {
    item.timestamp >= now - ONE_SECOND
}

/// Sums saturate at `MAX_DEPTH_TOTAL` instead of overflowing.
pub open spec fn clamp_total(x: int) -> int {
    if x > MAX_DEPTH_TOTAL {
        MAX_DEPTH_TOTAL as int
    } else {
        x
    }
}

/// Total buy-side quantity inside the window.
pub open spec fn window_buy_sum(items: Seq<TimeAndSalesItem>, now: int) -> int
    decreases items.len(),
{
    if items.len() == 0 {
        0
    } else {
        window_buy_sum(items.drop_last(), now) + if in_window(items.last(), now)
            && items.last().action is Buy {
            items.last().qty as int
        } else {
            0
        }
    }
}

/// Total sell-side quantity inside the window.
pub open spec fn window_sell_sum(items: Seq<TimeAndSalesItem>, now: int) -> int
    decreases items.len(),
{
    if items.len() == 0 {
        0
    } else {
        window_sell_sum(items.drop_last(), now) + if in_window(items.last(), now)
            && items.last().action is Sell {
            items.last().qty as int
        } else {
            0
        }
    }
}

/// Index of the earliest tick inside the window, scanning from `i`.
pub open spec fn first_window_idx(items: Seq<TimeAndSalesItem>, now: int, i: int) -> Option<int>
    decreases items.len() - i when 0 <= i <= items.len()
{
    if i >= items.len() {
        None
    } else if in_window(items[i], now) {
        Some(i)
    } else {
        first_window_idx(items, now, i + 1)
    }
}

/// Price of the earliest tick inside the window, or 0 with an empty window.
pub open spec fn first_window_price(items: Seq<TimeAndSalesItem>, now: int) -> int {
    match first_window_idx(items, now, 0) {
        Some(j) => items[j].price as int,
        None => 0,
    }
}

/// The last tick of the given subscription, as a synthetic quote.
pub open spec fn last_quote(items: Seq<TimeAndSalesItem>, historical_id: int) -> Option<
    SimpleQuote,
>
    decreases items.len(),
{
    if items.len() == 0 {
        None
    } else if items.last().historical_id == historical_id {
        Some(SimpleQuote { bid: items.last().bid, ask: items.last().ask })
    } else {
        last_quote(items.drop_last(), historical_id)
    }
}

/// The last tick of the given side whose quantity is maximal among that side
/// (ties resolved toward the latest tick).
pub open spec fn largest_of_side(items: Seq<TimeAndSalesItem>, act: OrderAction) -> Option<
    TimeAndSalesItem,
>
    decreases items.len(),
{
    if items.len() == 0 {
        None
    } else {
        let rest = largest_of_side(items.drop_last(), act);
        if items.last().action == act && (rest is None || items.last().qty
            >= rest.unwrap().qty) {
            Some(items.last())
        } else {
            rest
        }
    }
}

/// The time-ordered, append-only store of trade ticks.
#[derive(Debug, Clone)]
pub struct TimeAndSalesCollection {
    pub items: Vec<TimeAndSalesItem>,
}

pub open spec fn items_wf(items: Seq<TimeAndSalesItem>) -> bool {
    forall|i: int| 0 <= i < items.len() ==> (#[trigger] items[i]).wf()
}

proof fn lemma_window_sums_nonneg(items: Seq<TimeAndSalesItem>, now: int)
    requires
        items_wf(items),
    ensures
        window_buy_sum(items, now) >= 0,
        window_sell_sum(items, now) >= 0,
    decreases items.len(),
{
    if items.len() > 0 {
        assert(items_wf(items.drop_last()));
        lemma_window_sums_nonneg(items.drop_last(), now);
    }
}

impl TimeAndSalesCollection {
    pub open spec fn wf(self) -> bool {
        items_wf(self.items@)
    }

    pub fn new() -> (r: Self)
        ensures
            r.items@ =~= Seq::<TimeAndSalesItem>::empty(),
            r.wf(),
    {
        TimeAndSalesCollection { items: Vec::new() }
    }

    /// Buy and sell volume over the trailing window ending at `now_ms`, each
    /// saturating at `MAX_DEPTH_TOTAL`; `net` is buy minus sell volume.
    pub fn get_pressure(&self, now_ms: i64) -> (r: TimeAndSalesPressure)
        requires
            self.wf(),
        ensures
            r.asks_per_second == clamp_total(window_buy_sum(self.items@, now_ms as int)),
            r.bids_per_second == clamp_total(window_sell_sum(self.items@, now_ms as int)),
            0 <= r.asks_per_second <= MAX_DEPTH_TOTAL,
            0 <= r.bids_per_second <= MAX_DEPTH_TOTAL,
            r.net == r.asks_per_second - r.bids_per_second,
            r.time == now_ms,
            r.price == first_window_price(self.items@, now_ms as int),
    {
        let ghost s = self.items@;
        let ghost now = now_ms as int;
        let mut buys: i64 = 0;
        let mut sells: i64 = 0;
        let mut price: i64 = 0;
        let mut seen: bool = false;
        proof {
            assert(s.take(0) =~= Seq::<TimeAndSalesItem>::empty());
        }
        for i in 0..self.items.len()
            invariant
                s == self.items@,
                now == now_ms as int,
                self.wf(),
                0 <= buys <= MAX_DEPTH_TOTAL,
                0 <= sells <= MAX_DEPTH_TOTAL,
                buys == clamp_total(window_buy_sum(s.take(i as int), now)),
                sells == clamp_total(window_sell_sum(s.take(i as int), now)),
                seen ==> first_window_idx(s, now, 0) is Some && price == first_window_price(
                    s,
                    now,
                ),
                !seen ==> first_window_idx(s, now, 0) == first_window_idx(s, now, i as int)
                    && price == 0,
        {
            let it = self.items[i];
            proof {
                assert(s.take(i + 1).drop_last() =~= s.take(i as int));
                assert(s.take(i + 1).last() == s[i as int]);
                assert(items_wf(s.take(i as int))) by {
                    assert(forall|j: int|
                        0 <= j < i ==> (#[trigger] s.take(i as int)[j]) == s[j]);
                }
                lemma_window_sums_nonneg(s.take(i as int), now);
            }
            if it.timestamp as i128 >= now_ms as i128 - ONE_SECOND as i128 {
                if !seen {
                    price = it.price;
                    seen = true;
                }
                match it.action {
                    OrderAction::Buy => {
                        buys = if it.qty > MAX_DEPTH_TOTAL - buys {
                            MAX_DEPTH_TOTAL
                        } else {
                            buys + it.qty
                        };
                    },
                    OrderAction::Sell => {
                        sells = if it.qty > MAX_DEPTH_TOTAL - sells {
                            MAX_DEPTH_TOTAL
                        } else {
                            sells + it.qty
                        };
                    },
                    OrderAction::Unknown => {},
                }
            }
        }
        proof {
            assert(s.take(s.len() as int) =~= s);
        }
        TimeAndSalesPressure { bids_per_second: sells, asks_per_second: buys, net: buys - sells, time: now_ms, price }
    }

    /// The synthetic quote carried by the latest tick of the subscription,
    /// if any tick of it has been seen.
    pub fn get_quote(&self, historical_id: i64) -> (r: Option<SimpleQuote>)
        ensures
            r == last_quote(self.items@, historical_id as int),
    {
        let ghost s = self.items@;
        let mut found: Option<SimpleQuote> = None;
        for i in 0..self.items.len()
            invariant
                s == self.items@,
                found == last_quote(s.take(i as int), historical_id as int),
        {
            proof {
                assert(s.take(i + 1).drop_last() =~= s.take(i as int));
                assert(s.take(i + 1).last() == s[i as int]);
            }
            let it = self.items[i];
            if it.historical_id == historical_id {
                found = Some(SimpleQuote { bid: it.bid, ask: it.ask });
            }
        }
        proof {
            assert(s.take(s.len() as int) =~= s);
        }
        found
    }

    /// The buy-side tick of largest quantity, latest among equals.
    pub fn largest_buy(&self) -> (r: Option<TimeAndSalesItem>)
        ensures
            r == largest_of_side(self.items@, OrderAction::Buy),
    {
        self.largest_of(OrderAction::Buy)
    }

    /// The sell-side tick of largest quantity, latest among equals.
    pub fn largest_sell(&self) -> (r: Option<TimeAndSalesItem>)
        ensures
            r == largest_of_side(self.items@, OrderAction::Sell),
    {
        self.largest_of(OrderAction::Sell)
    }

    fn largest_of(&self, act: OrderAction) -> (r: Option<TimeAndSalesItem>)
        ensures
            r == largest_of_side(self.items@, act),
    {
        let ghost s = self.items@;
        let mut best: Option<TimeAndSalesItem> = None;
        for i in 0..self.items.len()
            invariant
                s == self.items@,
                best == largest_of_side(s.take(i as int), act),
        {
            proof {
                assert(s.take(i + 1).drop_last() =~= s.take(i as int));
                assert(s.take(i + 1).last() == s[i as int]);
            }
            let it = self.items[i];
            let replace: bool = match &best {
                None => it.action == act,
                Some(b) => it.action == act && it.qty >= b.qty,
            };
            if replace {
                best = Some(it);
            }
        }
        proof {
            assert(s.take(s.len() as int) =~= s);
        }
        best
    }
}

impl Default for TimeAndSalesCollection {
    fn default() -> (r: Self)
        ensures
            r.items@ =~= Seq::<TimeAndSalesItem>::empty(),
    {
        TimeAndSalesCollection::new()
    }
}

} // verus!
