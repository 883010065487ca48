//! The strategy state machine: profit formulas, signals and phase steps.

use tradebot::models::{
    AcctCommsChannel, OrderID, OrderIDMessage, OrderStatus, OrderUpdate, OrderUpdateMessage,
};
use tradebot::socket_processing::MarketData;
use tradebot::strategy::{
    calculate, realized_pnl_exec, unrealized_pnl_exec, MarketPosition, Strategy, StrategyStatus,
};
use tradebot::time_and_sales::{OrderAction, TimeAndSalesItem};

fn tick(historical_id: i64, action: OrderAction, qty: i64, ts: i64) -> TimeAndSalesItem {
    TimeAndSalesItem {
        historical_id,
        action,
        qty,
        price: 1_000_000,
        bid: 999_000,
        ask: 1_001_000,
        timestamp: ts,
        receipt_delay: 0,
    }
}

fn filled_update(order_id: i64, avg_px: i64, action: OrderAction, cum_qty: i64)
    -> OrderUpdateMessage {
    OrderUpdateMessage {
        data: OrderUpdate {
            entity: OrderStatus {
                account_id: 7,
                action,
                avg_px,
                command_id: 0,
                contract_id: 11,
                cum_qty,
                exec_type: String::new(),
                external_cl_ord_id: String::new(),
                id: 0,
                last_px: 0,
                last_qty: 0,
                name: String::new(),
                ord_status: String::from("Filled"),
                order_id,
                timestamp: String::new(),
            },
            entity_type: String::from("Order"),
            event_type: String::from("Updated"),
        },
        event: String::from("props"),
    }
}

fn open_long(net: i64, entry_px: i64) -> MarketPosition {
    MarketPosition {
        account_id: 7,
        contract_id: 11,
        net_pos: net,
        entry_trigger: String::new(),
        entry_fill: Some(OrderStatus::new(entry_px, OrderAction::Buy)),
        exit_trigger: String::new(),
        exit_fill: None,
        realized_pnl: 0,
    }
}

#[test]
fn realized_pnl_long_example() {
    // Entry 100, exit 102, two lots long, point value 50, commission 2.05:
    // 2*50*2 - 2*2.05*2 = 191.8 currency units.
    let r = realized_pnl_exec(2, 5_000_000, 10_000_000, 10_200_000, 205_000);
    assert_eq!(r, 19_180_000);
}

#[test]
fn realized_pnl_short_example() {
    // Short three lots, entry 100, exit 97, point value 20, commission 2.05:
    // 3*20*3 - 2*2.05*3 = 167.7 currency units.
    let r = realized_pnl_exec(-3, 2_000_000, 10_000_000, 9_700_000, 205_000);
    assert_eq!(r, 16_770_000);
}

#[test]
fn unrealized_pnl_sides() {
    // Long one lot from 100.00, bid 101.00: 1 * 50 * 1.00 = 50.
    let long = unrealized_pnl_exec(1, 5_000_000, 10_000_000, 10_100_000, 10_150_000);
    assert_eq!(long, 5_000_000);
    // Short two lots from 100.00, ask 101.00: loses 2 * 50 * 1.00 = 100.
    let short = unrealized_pnl_exec(-2, 5_000_000, 10_000_000, 10_050_000, 10_100_000);
    assert_eq!(short, -10_000_000);
    // Flat is zero.
    assert_eq!(unrealized_pnl_exec(0, 5_000_000, 10_000_000, 1, 2), 0);
}

#[test]
fn close_records_exit_fill_and_profit() {
    let pos = open_long(2, 10_000_000);
    let update = filled_update(5, 10_200_000, OrderAction::Sell, 2);
    let closed = pos.close(&update, 5_000_000, 205_000);
    assert_eq!(closed.realized_pnl, 19_180_000);
    assert!(closed.exit_fill.is_some());
    assert_eq!(closed.net_pos, 2);
}

#[test]
fn opposing_signal_always_exits_the_trade() {
    // In a trade, long; a sell-side large trade arrives: the very same tick
    // must move the machine to SentExitOrders, whatever the open profit is.
    let mut strategy = Strategy::new();
    strategy.status = StrategyStatus::InATrade;
    strategy.positions.push(open_long(1, 10_000_000));
    let mut acct = AcctCommsChannel::new(Vec::new(), 0);
    let mut view = MarketData::new(Vec::new());
    view.append_ticks(vec![tick(3, OrderAction::Sell, 500, 99_900)]);
    calculate(
        &mut strategy,
        &mut acct,
        &view,
        100_000,
        &String::from("ESH2"),
        &String::from("ACCT-1"),
        &String::from("trader"),
    );
    assert!(matches!(strategy.status, StrategyStatus::SentExitOrders));
    assert!(strategy.sent_exit_orders);
    // A flattening order was queued: opposite side, held quantity.
    assert_eq!(acct.unsent_requests.len(), 1);
    assert!(acct.unsent_requests[0].starts_with("order/placeorder\n1\n\n"));
    assert!(acct.unsent_requests[0].contains("\"action\":\"Sell\""));
    assert!(acct.unsent_requests[0].contains("\"orderQty\":1"));
}

#[test]
fn entry_fill_moves_to_in_a_trade() {
    let mut strategy = Strategy::new();
    strategy.status = StrategyStatus::SentEntryOrders;
    strategy.sent_entry_orders = true;
    strategy.positions.push(MarketPosition::new_with_trigger(String::from("t")));
    let mut acct = AcctCommsChannel::new(Vec::new(), 0);
    acct.order_update = Some(filled_update(42, 10_000_000, OrderAction::Buy, 2));
    acct.order_id_messages.push(OrderIDMessage {
        data: OrderID { order_id: 42 },
        request_id: 1,
        request_status: 200,
    });
    let view = MarketData::new(Vec::new());
    calculate(
        &mut strategy,
        &mut acct,
        &view,
        100_000,
        &String::from("ESH2"),
        &String::from("ACCT-1"),
        &String::from("trader"),
    );
    assert!(matches!(strategy.status, StrategyStatus::InATrade));
    let p = strategy.positions.last().unwrap();
    assert_eq!(p.net_pos, 2);
    assert_eq!(p.account_id, 7);
    assert!(p.entry_fill.is_some());
}

#[test]
fn stale_entry_fill_does_not_match_wrong_order_id() {
    let mut strategy = Strategy::new();
    strategy.status = StrategyStatus::SentEntryOrders;
    strategy.positions.push(MarketPosition::new_with_trigger(String::from("t")));
    let mut acct = AcctCommsChannel::new(Vec::new(), 0);
    acct.order_update = Some(filled_update(42, 10_000_000, OrderAction::Buy, 2));
    acct.order_id_messages.push(OrderIDMessage {
        data: OrderID { order_id: 43 },
        request_id: 1,
        request_status: 200,
    });
    let view = MarketData::new(Vec::new());
    calculate(
        &mut strategy,
        &mut acct,
        &view,
        100_000,
        &String::from("ESH2"),
        &String::from("ACCT-1"),
        &String::from("trader"),
    );
    assert!(matches!(strategy.status, StrategyStatus::SentEntryOrders));
}

#[test]
fn total_pnl_sums_over_positions() {
    let mut strategy = Strategy::new();
    let mut a = open_long(1, 0);
    a.realized_pnl = 5;
    let mut b = open_long(1, 0);
    b.realized_pnl = -2;
    strategy.positions.push(a);
    strategy.positions.push(b);
    assert_eq!(strategy.total_pnl(), 3);
}

#[test]
fn reversal_takes_half_the_cumulative_quantity() {
    let update = filled_update(8, 10_000_000, OrderAction::Sell, 6);
    let p = MarketPosition::from_reversal(&update);
    assert_eq!(p.net_pos, -3);
    assert_eq!(p.account_id, 7);
    assert!(p.entry_fill.is_some());
    let buy = filled_update(8, 10_000_000, OrderAction::Buy, 5);
    assert_eq!(MarketPosition::from_reversal(&buy).net_pos, 2);
}

#[test]
fn open_pnl_follows_the_open_position() {
    let mut strategy = Strategy::new();
    let quote = tradebot::models::SimpleQuote { bid: 10_100_000, ask: 10_150_000 };
    assert_eq!(strategy.open_pnl(quote, 5_000_000), None);
    // A just-opened position, still flat and unfilled, is worth zero.
    strategy.positions.push(MarketPosition::new_with_trigger(String::from("t")));
    assert_eq!(strategy.open_pnl(quote, 5_000_000), Some(0));
    strategy.positions.clear();
    strategy.positions.push(open_long(1, 10_000_000));
    assert_eq!(strategy.open_pnl(quote, 5_000_000), Some(5_000_000));
    let update = filled_update(5, 10_200_000, OrderAction::Sell, 1);
    let idx = strategy.positions.len() - 1;
    let closed = strategy.positions[idx].clone().close(&update, 5_000_000, 205_000);
    strategy.positions[idx] = closed;
    assert_eq!(strategy.open_pnl(quote, 5_000_000), None);
}

#[test]
fn fill_records_compare_field_by_field() {
    let a = filled_update(5, 10_200_000, OrderAction::Sell, 2);
    let b = filled_update(5, 10_200_000, OrderAction::Sell, 2);
    assert!(a.data.entity.eq_fill(&b.data.entity));
    let c = filled_update(5, 10_200_001, OrderAction::Sell, 2);
    assert!(!a.data.entity.eq_fill(&c.data.entity));
    let copy = a.duplicate();
    assert!(copy.data.entity.eq_fill(&a.data.entity));
}

#[test]
fn net_pos_and_opposition() {
    let mut strategy = Strategy::new();
    assert_eq!(strategy.net_pos(), 0);
    assert!(!strategy.is_opposite(OrderAction::Buy));
    strategy.positions.push(open_long(-2, 0));
    assert_eq!(strategy.net_pos(), -2);
    assert!(strategy.is_opposite(OrderAction::Buy));
    assert!(!strategy.is_opposite(OrderAction::Sell));
    assert!(!strategy.is_opposite(OrderAction::Unknown));
    assert!(strategy.has_open_position());
}
