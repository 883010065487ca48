//! Full order-lifecycle scenarios through the strategy tick.

use tradebot::models::{
    Account, AcctCommsChannel, ContractID, OrderID, OrderIDMessage, OrderStatus, OrderUpdate,
    OrderUpdateMessage, Position, TradeDate, UserData, UserDataMessage,
};
use tradebot::socket_processing::MarketData;
use tradebot::strategy::{calculate, MarketPosition, Strategy, StrategyStatus};
use tradebot::time_and_sales::{OrderAction, TimeAndSalesItem};

fn run_tick(strategy: &mut Strategy, acct: &mut AcctCommsChannel, view: &MarketData) {
    calculate(
        strategy,
        acct,
        view,
        100_000,
        &String::from("ESH2"),
        &String::from("ACCT-1"),
        &String::from("trader"),
    );
}

fn account(id: i64, name: &str) -> Account {
    Account {
        account_type: String::new(),
        active: true,
        archived: false,
        auto_liq_profile_id: 0,
        clearing_house_id: 0,
        id,
        legal_status: String::new(),
        margin_account_type: String::new(),
        name: String::from(name),
        nickname: String::new(),
        risk_category_id: 0,
        timestamp: String::new(),
        user_id: 0,
    }
}

fn snapshot(accounts: Vec<Account>, positions: Vec<Position>) -> UserDataMessage {
    UserDataMessage {
        data: UserData {
            account_risk_statuses: Vec::new(),
            accounts,
            cash_balances: Vec::new(),
            contract_groups: Vec::new(),
            currencies: Vec::new(),
            exchanges: Vec::new(),
            margin_snapshots: Vec::new(),
            positions,
            user_account_auto_liqs: Vec::new(),
            user_plugins: Vec::new(),
            user_read_statuses: Vec::new(),
            user_properties: Vec::new(),
            users: Vec::new(),
        },
        request_id: 2,
        request_status: 200,
    }
}

fn open_position(net: i64) -> Position {
    Position {
        account_id: 7,
        archived: false,
        bought: 0,
        bought_value: 0,
        contract_id: 11,
        id: 1,
        net_pos: net,
        net_price: 10_000_000,
        prev_pos: 0,
        sold: 0,
        sold_value: 0,
        timestamp: String::new(),
        trade_date: TradeDate { day: 1, month: 1, year: 2022 },
    }
}

fn es_contract() -> ContractID {
    ContractID {
        contract_maturity_id: 0,
        id: 11,
        symbol: String::from("ESH2"),
        provider_tick_size: 25_000,
        status: String::new(),
        historical_id: 77,
        big_point_value: 5_000_000,
    }
}

fn filled(order_id: i64, avg_px: i64, action: OrderAction, cum_qty: i64) -> OrderUpdateMessage {
    OrderUpdateMessage {
        data: OrderUpdate {
            entity: OrderStatus {
                account_id: 7,
                action,
                avg_px,
                command_id: 0,
                contract_id: 11,
                cum_qty,
                exec_type: String::new(),
                external_cl_ord_id: String::new(),
                id: 0,
                last_px: 0,
                last_qty: 0,
                name: String::new(),
                ord_status: String::from("Filled"),
                order_id,
                timestamp: String::new(),
            },
            entity_type: String::from("Order"),
            event_type: String::from("Updated"),
        },
        event: String::from("props"),
    }
}

#[test]
fn unaware_with_open_position_seeds_and_enters_the_trade() {
    let mut strategy = Strategy::new();
    let mut acct = AcctCommsChannel::new(Vec::new(), 0);
    acct.user_data = Some(snapshot(vec![account(7, "ACCT-1")], vec![open_position(2)]));
    let view = MarketData::new(Vec::new());
    run_tick(&mut strategy, &mut acct, &view);
    assert!(matches!(strategy.status, StrategyStatus::InATrade));
    assert_eq!(strategy.positions.len(), 1);
    assert_eq!(strategy.positions[0].net_pos, 2);
    assert_eq!(strategy.positions[0].contract_id, 11);
}

#[test]
fn unaware_with_flat_account_awaits_trades() {
    let mut strategy = Strategy::new();
    let mut acct = AcctCommsChannel::new(Vec::new(), 0);
    acct.user_data = Some(snapshot(vec![account(7, "ACCT-1")], vec![open_position(0)]));
    let view = MarketData::new(Vec::new());
    run_tick(&mut strategy, &mut acct, &view);
    assert!(matches!(strategy.status, StrategyStatus::AwaitingTrades));
    assert!(strategy.positions.is_empty());
}

#[test]
fn unaware_without_snapshot_stays_unaware() {
    let mut strategy = Strategy::new();
    let mut acct = AcctCommsChannel::new(Vec::new(), 0);
    let view = MarketData::new(Vec::new());
    run_tick(&mut strategy, &mut acct, &view);
    assert!(matches!(strategy.status, StrategyStatus::Unaware));
}

#[test]
fn signal_while_awaiting_queues_a_one_lot_entry() {
    let mut strategy = Strategy::new();
    strategy.status = StrategyStatus::AwaitingTrades;
    let mut acct = AcctCommsChannel::new(Vec::new(), 0);
    acct.user_data = Some(snapshot(vec![account(7, "ACCT-1")], Vec::new()));
    let mut view = MarketData::new(vec![es_contract()]);
    view.append_ticks(vec![TimeAndSalesItem {
        historical_id: 77,
        action: OrderAction::Buy,
        qty: 500,
        price: 10_000_000,
        bid: 9_999_000,
        ask: 10_001_000,
        timestamp: 99_900,
        receipt_delay: 0,
    }]);
    run_tick(&mut strategy, &mut acct, &view);
    assert!(matches!(strategy.status, StrategyStatus::SentEntryOrders));
    assert!(strategy.sent_entry_orders);
    assert_eq!(strategy.positions.len(), 1);
    assert_eq!(strategy.positions[0].entry_trigger, "large trade");
    assert_eq!(acct.unsent_requests.len(), 1);
    assert!(acct.unsent_requests[0].contains("\"action\":\"Buy\""));
    assert!(acct.unsent_requests[0].contains("\"orderQty\":1"));
    assert!(acct.unsent_requests[0].contains("\"accountId\":7"));
    // A second tick with the entry already dispatched queues nothing more.
    run_tick(&mut strategy, &mut acct, &view);
    assert_eq!(acct.unsent_requests.len(), 1);
}

#[test]
fn exit_fill_closes_the_position_with_realized_profit() {
    // Long two lots from 100.00; the exit filled at 102.00; point value 50
    // and commission 2.05 per leg give 191.80 realized.
    let mut strategy = Strategy::new();
    strategy.status = StrategyStatus::SentExitOrders;
    strategy.sent_entry_orders = true;
    strategy.sent_exit_orders = true;
    strategy.positions.push(MarketPosition {
        account_id: 7,
        contract_id: 11,
        net_pos: 2,
        entry_trigger: String::from("t"),
        entry_fill: Some(OrderStatus::new(10_000_000, OrderAction::Buy)),
        exit_trigger: String::from("x"),
        exit_fill: None,
        realized_pnl: 0,
    });
    let mut acct = AcctCommsChannel::new(Vec::new(), 0);
    acct.order_update = Some(filled(9, 10_200_000, OrderAction::Sell, 2));
    acct.order_id_messages.push(OrderIDMessage {
        data: OrderID { order_id: 9 },
        request_id: 3,
        request_status: 200,
    });
    let view = MarketData::new(vec![es_contract()]);
    run_tick(&mut strategy, &mut acct, &view);
    assert!(matches!(strategy.status, StrategyStatus::AwaitingTrades));
    assert!(!strategy.sent_entry_orders);
    assert!(!strategy.sent_exit_orders);
    assert!(acct.order_update.is_none());
    let closed = strategy.positions.last().unwrap();
    assert_eq!(closed.realized_pnl, 19_180_000);
    assert!(closed.exit_fill.is_some());
    assert_eq!(strategy.total_pnl(), 19_180_000);
}

#[test]
fn deep_unrealized_loss_triggers_the_protective_exit() {
    // Long one lot from 100.00 while the synthetic bid sits at 89.00:
    // unrealized -550.00 breaches the -500 trigger.
    let mut strategy = Strategy::new();
    strategy.status = StrategyStatus::InATrade;
    strategy.positions.push(MarketPosition {
        account_id: 7,
        contract_id: 11,
        net_pos: 1,
        entry_trigger: String::new(),
        entry_fill: Some(OrderStatus::new(10_000_000, OrderAction::Buy)),
        exit_trigger: String::new(),
        exit_fill: None,
        realized_pnl: 0,
    });
    let mut acct = AcctCommsChannel::new(Vec::new(), 0);
    let mut view = MarketData::new(vec![es_contract()]);
    view.append_ticks(vec![TimeAndSalesItem {
        historical_id: 77,
        action: OrderAction::Unknown,
        qty: 1,
        price: 8_900_000,
        bid: 8_900_000,
        ask: 8_901_000,
        timestamp: 99_990,
        receipt_delay: 0,
    }]);
    run_tick(&mut strategy, &mut acct, &view);
    assert!(matches!(strategy.status, StrategyStatus::SentExitOrders));
    assert!(strategy.sent_exit_orders);
    assert_eq!(acct.unsent_requests.len(), 1);
    // The protective exit uses the second request-id slot.
    assert!(acct.unsent_requests[0].starts_with("order/placeorder\n2\n\n"));
    // Unrealized -550.00 (scaled), recorded in the trigger text.
    assert_eq!(
        strategy.positions.last().unwrap().exit_trigger,
        "unrealized pnl -55000000"
    );
}

#[test]
fn small_unrealized_loss_keeps_the_trade_open() {
    let mut strategy = Strategy::new();
    strategy.status = StrategyStatus::InATrade;
    strategy.positions.push(MarketPosition {
        account_id: 7,
        contract_id: 11,
        net_pos: 1,
        entry_trigger: String::new(),
        entry_fill: Some(OrderStatus::new(10_000_000, OrderAction::Buy)),
        exit_trigger: String::new(),
        exit_fill: None,
        realized_pnl: 0,
    });
    let mut acct = AcctCommsChannel::new(Vec::new(), 0);
    let mut view = MarketData::new(vec![es_contract()]);
    // Bid 99.00: unrealized -50.00, inside the trigger.
    view.append_ticks(vec![TimeAndSalesItem {
        historical_id: 77,
        action: OrderAction::Unknown,
        qty: 1,
        price: 9_900_000,
        bid: 9_900_000,
        ask: 9_901_000,
        timestamp: 99_990,
        receipt_delay: 0,
    }]);
    run_tick(&mut strategy, &mut acct, &view);
    assert!(matches!(strategy.status, StrategyStatus::InATrade));
    assert!(acct.unsent_requests.is_empty());
}
