//! The consolidated view: trade-flow pressure, quotes, tick resolution and
//! signal generation.

use tradebot::models::{Bid, DOMData, DOMMessage, Dom, Offer, Position, Tick, TradeDate};
use tradebot::socket_processing::{sort_ticks, MarketData};
use tradebot::strategy::{generate_signal, Strategy};
use tradebot::time_and_sales::{OrderAction, TimeAndSalesCollection, TimeAndSalesItem};

fn tick(action: OrderAction, qty: i64, ts: i64) -> TimeAndSalesItem {
    TimeAndSalesItem {
        historical_id: 3,
        action,
        qty,
        price: 1_000_000,
        bid: 999_000,
        ask: 1_001_000,
        timestamp: ts,
        receipt_delay: 0,
    }
}

#[test]
fn pressure_counts_only_the_trailing_window() {
    // Sell 5 at t = -1500 ms, buy 10 at t = -500 ms, evaluated at t = 0
    // with a 1000 ms window: only the buy counts, net +10.
    let mut c = TimeAndSalesCollection::new();
    c.items.push(tick(OrderAction::Sell, 5, 98_500));
    c.items.push(tick(OrderAction::Buy, 10, 99_500));
    let p = c.get_pressure(100_000);
    assert_eq!(p.asks_per_second, 10);
    assert_eq!(p.bids_per_second, 0);
    assert_eq!(p.net, 10);
    assert_eq!(p.time, 100_000);
}

#[test]
fn pressure_ignores_unknown_sides() {
    let mut c = TimeAndSalesCollection::new();
    c.items.push(tick(OrderAction::Unknown, 50, 99_900));
    c.items.push(tick(OrderAction::Buy, 7, 99_900));
    c.items.push(tick(OrderAction::Sell, 3, 99_901));
    let p = c.get_pressure(100_000);
    assert_eq!(p.asks_per_second, 7);
    assert_eq!(p.bids_per_second, 3);
    assert_eq!(p.net, 4);
}

#[test]
fn quote_comes_from_the_latest_tick_of_the_subscription() {
    let mut c = TimeAndSalesCollection::new();
    let mut a = tick(OrderAction::Buy, 1, 1);
    a.bid = 100;
    a.ask = 200;
    let mut b = tick(OrderAction::Buy, 1, 2);
    b.bid = 300;
    b.ask = 400;
    let mut other = tick(OrderAction::Buy, 1, 3);
    other.historical_id = 99;
    other.bid = 1;
    other.ask = 2;
    c.items.push(a);
    c.items.push(b);
    c.items.push(other);
    let q = c.get_quote(3).expect("quote for subscription 3");
    assert_eq!(q.bid, 300);
    assert_eq!(q.ask, 400);
    assert!(c.get_quote(1234).is_none());
}

#[test]
fn largest_trades_per_side() {
    let mut c = TimeAndSalesCollection::new();
    c.items.push(tick(OrderAction::Buy, 5, 1));
    c.items.push(tick(OrderAction::Sell, 9, 2));
    c.items.push(tick(OrderAction::Buy, 8, 3));
    c.items.push(tick(OrderAction::Buy, 8, 4));
    let lb = c.largest_buy().expect("a buy exists");
    // Latest among equal quantities.
    assert_eq!(lb.qty, 8);
    assert_eq!(lb.timestamp, 4);
    let ls = c.largest_sell().expect("a sell exists");
    assert_eq!(ls.qty, 9);
    assert!(TimeAndSalesCollection::new().largest_buy().is_none());
}

#[test]
fn tick_side_is_derived_from_the_midpoint() {
    let t = Tick {
        ask_relative_price: 2,
        ask_size: 0,
        bid_relative_price: 0,
        bid_size: 0,
        tick_id: 1,
        relative_price: 2,
        tick_volume: 4,
        relative_timestamp: 10,
    };
    // base 100.00, tick size 0.25: price 100.50, bid 100.00, ask 100.50;
    // price above the midpoint 100.25 is a buy.
    let item = t.to_ts_item(10_000_000, 25_000, 1_000, 77, 5_000);
    assert!(matches!(item.action, OrderAction::Buy));
    assert_eq!(item.price, 10_050_000);
    assert_eq!(item.timestamp, 1_010);
    assert_eq!(item.receipt_delay, 3_990);
    assert_eq!(item.historical_id, 77);

    let mid = Tick { relative_price: 1, ..t };
    // price 100.25 equals the midpoint: side unknown.
    let item2 = mid.to_ts_item(10_000_000, 25_000, 1_000, 77, 5_000);
    assert!(matches!(item2.action, OrderAction::Unknown));
    let below = Tick { relative_price: 0, ..t };
    let item3 = below.to_ts_item(10_000_000, 25_000, 1_000, 77, 5_000);
    assert!(matches!(item3.action, OrderAction::Sell));
}

#[test]
fn sorting_ticks_is_stable_on_timestamps() {
    let a = tick(OrderAction::Buy, 1, 5);
    let b = tick(OrderAction::Sell, 2, 3);
    let c = tick(OrderAction::Buy, 3, 5);
    let sorted = sort_ticks(vec![a, b, c]);
    assert_eq!(sorted.len(), 3);
    assert_eq!(sorted[0].timestamp, 3);
    assert_eq!(sorted[1].qty, 1);
    assert_eq!(sorted[2].qty, 3);
}

#[test]
fn large_trade_signal_beats_depth_and_updates_the_record() {
    let mut strategy = Strategy::new();
    let mut view = MarketData::new(Vec::new());
    view.append_ticks(vec![tick(OrderAction::Buy, 450, 99_800)]);
    let (action, reason) = generate_signal(&mut strategy, &view, 100_000);
    assert!(matches!(action, OrderAction::Buy));
    assert_eq!(reason, "large trade");
    let recorded = strategy.largest_single_item.expect("record updated");
    assert_eq!(recorded.qty, 450);
    // The threshold adapted: a 420-lot trade no longer triggers.
    let mut view2 = MarketData::new(Vec::new());
    view2.append_ticks(vec![tick(OrderAction::Buy, 420, 99_900)]);
    let (action2, _) = generate_signal(&mut strategy, &view2, 100_000);
    assert!(matches!(action2, OrderAction::Unknown));
}

#[test]
fn depth_and_pressure_signal_requires_both_thresholds() {
    let mut strategy = Strategy::new();
    let mut view = MarketData::new(Vec::new());
    // Pressure: 200 + 200 buys in the window, under the large-trade size.
    view.append_ticks(vec![
        tick(OrderAction::Buy, 200, 99_700),
        tick(OrderAction::Buy, 200, 99_800),
    ]);
    // Depth imbalance: 80 offered vs 20 bid, net +60 percent.
    view.market_depth.push(DOMMessage {
        data: DOMData {
            doms: vec![Dom {
                bids: vec![Bid { price: 0, size: 20 }],
                contract_id: 1,
                offers: vec![Offer { price: 0, size: 80 }],
                timestamp: 99_000,
            }],
        },
        event: String::from("md"),
    });
    let (action, reason) = generate_signal(&mut strategy, &view, 100_000);
    assert!(matches!(action, OrderAction::Buy));
    assert_eq!(reason, "depth and pressure");
    // The extreme trackers grew.
    assert_eq!(strategy.ts_pressure_extreme.net, 400);
    assert_eq!(strategy.dom_extreme.net, 6_000_000);
    // With balanced depth the same pressure is not enough.
    let mut strategy2 = Strategy::new();
    let mut view2 = MarketData::new(Vec::new());
    view2.append_ticks(vec![tick(OrderAction::Buy, 399, 99_800)]);
    let (action2, _) = generate_signal(&mut strategy2, &view2, 100_000);
    assert!(matches!(action2, OrderAction::Unknown));
}

#[test]
fn snapshot_position_seeds_a_market_position() {
    let p = Position {
        account_id: 7,
        archived: false,
        bought: 0,
        bought_value: 0,
        contract_id: 11,
        id: 1,
        net_pos: -3,
        net_price: 10_000_000,
        prev_pos: 0,
        sold: 0,
        sold_value: 0,
        timestamp: String::new(),
        trade_date: TradeDate { day: 1, month: 2, year: 2022 },
    };
    let mp = p.to_market_position();
    assert_eq!(mp.net_pos, -3);
    assert_eq!(mp.account_id, 7);
    assert_eq!(mp.contract_id, 11);
    assert!(mp.matches_account_position(&p));
    let f = mp.entry_fill.expect("synthetic entry fill");
    assert_eq!(f.avg_px, 10_000_000);
    assert_eq!(f.ord_status, "Filled");
}
