//! Session protocol behavior: heartbeats, drain plans, inbound dispatch.

use tradebot::acct_socket::{acct_drain_plan, process_acct_message, AcctSend};
use tradebot::md_socket::{
    md_drain_plan, MarketDataIncoming, MarketDataOutgoing, MarketDataRequest, MdSend,
    RequestStatus,
};
use tradebot::models::AcctCommsChannel;
use tradebot::reconnect::{reconnect_tally, should_halt};
use tradebot::socket_processing::{classify_frame, process_message, FrameKind, MarketData};

#[test]
fn heartbeat_fires_at_exactly_the_idle_threshold() {
    let acct = AcctCommsChannel::new(Vec::new(), 0);
    // 2499 ms idle: no heartbeat.
    let plan = acct_drain_plan(&acct, 2499);
    assert!(!plan.contains(&AcctSend::Heartbeat));
    // 2500 ms idle: one heartbeat.
    let plan = acct_drain_plan(&acct, 2500);
    assert_eq!(plan, vec![AcctSend::Heartbeat]);
}

#[test]
fn no_heartbeat_on_terminated_or_closing_session() {
    let mut acct = AcctCommsChannel::new(Vec::new(), 0);
    acct.terminated = true;
    assert!(!acct_drain_plan(&acct, 10_000).contains(&AcctSend::Heartbeat));
    let mut acct2 = AcctCommsChannel::new(Vec::new(), 0);
    acct2.received_closing_frame = true;
    assert!(acct_drain_plan(&acct2, 10_000).is_empty());
}

#[test]
fn acct_drain_sends_first_queued_request_once_connected() {
    let mut acct = AcctCommsChannel::new(
        vec![String::from("req-a"), String::from("req-b")],
        0,
    );
    // Not yet connected: nothing drains.
    assert!(acct_drain_plan(&acct, 100).is_empty());
    acct.connection_established = true;
    let plan = acct_drain_plan(&acct, 100);
    assert_eq!(plan, vec![AcctSend::QueuedFront]);
}

#[test]
fn acct_queue_is_first_in_first_out() {
    let mut acct = AcctCommsChannel::new(
        vec![String::from("first"), String::from("second")],
        0,
    );
    acct.connection_established = true;
    tradebot::acct_socket::acct_note_queued_sent(&mut acct);
    assert_eq!(acct.unsent_requests, vec![String::from("second")]);
    assert_eq!(acct.sent_requests, vec![String::from("first")]);
}

#[test]
fn md_drain_auths_then_subscribes_then_closes() {
    let reqs = vec![
        MarketDataRequest::new(tradebot::md_socket::MarketData::Chart, "ESM2"),
        MarketDataRequest::new(tradebot::md_socket::MarketData::DepthOfMarket, "NQM2"),
    ];
    let mut out = MarketDataOutgoing::new(reqs, 0);
    let mut inc = MarketDataIncoming::new();
    // Nothing before the connection opens.
    assert!(md_drain_plan(&out, &inc, 100).is_empty());
    inc.connection_established = true;
    assert_eq!(md_drain_plan(&out, &inc, 100), vec![MdSend::Auth]);
    // Once authorized (auth already audited), every unsent subscription.
    inc.is_authorized = true;
    out.sent_requests.push(String::from("auth"));
    assert_eq!(
        md_drain_plan(&out, &inc, 100),
        vec![MdSend::Subscribe { idx: 0 }, MdSend::Subscribe { idx: 1 }]
    );
    // After a close request: unsubscribe everything sent, then close.
    out.data_requests[0].status = RequestStatus::Sent;
    out.data_requests[1].status = RequestStatus::Canceled;
    out.socket_close = true;
    let plan = md_drain_plan(&out, &inc, 100);
    assert_eq!(
        plan,
        vec![MdSend::Unsubscribe { idx: 0 }, MdSend::CloseFrame]
    );
}

#[test]
fn md_heartbeat_at_threshold() {
    let out = MarketDataOutgoing::new(Vec::new(), 0);
    let inc = MarketDataIncoming::new();
    assert!(!md_drain_plan(&out, &inc, 2499).contains(&MdSend::Heartbeat));
    assert!(md_drain_plan(&out, &inc, 2500).contains(&MdSend::Heartbeat));
}

#[test]
fn correct_ack_authorizes_the_account_session() {
    let mut acct = AcctCommsChannel::new(Vec::new(), 0);
    process_acct_message(&mut acct, "[{\"i\":1,\"s\":200}]");
    assert!(acct.is_authorized);
}

#[test]
fn wrong_correlation_id_does_not_authorize() {
    let mut acct = AcctCommsChannel::new(Vec::new(), 0);
    process_acct_message(&mut acct, "[{\"i\":2,\"s\":200}]");
    assert!(!acct.is_authorized);
    process_acct_message(&mut acct, "[{\"i\":1,\"s\":500}]");
    assert!(!acct.is_authorized);
}

#[test]
fn order_id_ack_and_snapshot_route_by_shape() {
    let mut acct = AcctCommsChannel::new(Vec::new(), 0);
    process_acct_message(
        &mut acct,
        "[{\"i\":3,\"s\":200,\"d\":{\"orderId\":987}}]",
    );
    assert_eq!(acct.order_id_messages.len(), 1);
    assert_eq!(acct.order_id_messages[0].data.order_id, 987);
    process_acct_message(
        &mut acct,
        "[{\"i\":2,\"s\":200,\"d\":{\"accounts\":[{\"id\":7,\"name\":\"ACCT-1\"}],\"positions\":[]}}]",
    );
    let ud = acct.user_data.as_ref().expect("snapshot stored");
    assert_eq!(ud.data.accounts.len(), 1);
    assert_eq!(ud.data.accounts[0].id, 7);
    assert!(acct.user_data.as_ref().unwrap().is_flat());
}

#[test]
fn order_update_routes_on_two_key_objects() {
    let mut acct = AcctCommsChannel::new(Vec::new(), 0);
    let frame = "[{\"e\":\"props\",\"d\":{\"entityType\":\"Order\",\"eventType\":\"Updated\",\"entity\":{\"accountId\":7,\"action\":\"Buy\",\"avgPx\":4500.25,\"contractId\":11,\"cumQty\":2,\"ordStatus\":\"Filled\",\"orderId\":42}}}]";
    process_acct_message(&mut acct, frame);
    let u = acct.order_update.as_ref().expect("update stored");
    assert!(u.is_filled());
    assert_eq!(u.id(), 42);
    assert_eq!(u.data.entity.avg_px, 450_025_000);
}

#[test]
fn malformed_frames_change_nothing() {
    let mut acct = AcctCommsChannel::new(Vec::new(), 0);
    process_acct_message(&mut acct, "not json at all");
    process_acct_message(&mut acct, "{\"i\":1,\"s\":200}");
    process_acct_message(&mut acct, "[{\"x\":1,\"y\":2,\"z\":3}]");
    assert!(!acct.is_authorized);
    assert!(acct.user_data.is_none());
    assert!(acct.order_update.is_none());
    assert!(acct.order_id_messages.is_empty());
}

#[test]
fn frame_classification_by_leading_character() {
    assert!(matches!(classify_frame("o"), FrameKind::Open));
    assert!(matches!(classify_frame("h"), FrameKind::HeartbeatFrame));
    match classify_frame("a[{\"i\":1}]") {
        FrameKind::DataFrame(p) => assert_eq!(p, "[{\"i\":1}]"),
        _ => panic!("expected a data frame"),
    }
    assert!(matches!(classify_frame(""), FrameKind::OtherFrame));
    assert!(matches!(classify_frame("x"), FrameKind::OtherFrame));
}

#[test]
fn md_auth_ack_authorizes_and_sub_ack_binds_id() {
    let mut inc = MarketDataIncoming::new();
    let out = MarketDataOutgoing::new(
        vec![MarketDataRequest::new(tradebot::md_socket::MarketData::Chart, "ESM2")],
        0,
    );
    let mut view = MarketData::new(vec![tradebot::models::ContractID {
        contract_maturity_id: 0,
        id: 1001,
        symbol: String::from("ESM2"),
        provider_tick_size: 25_000,
        status: String::new(),
        historical_id: 0,
        big_point_value: 5_000_000,
    }]);
    process_message("[{\"i\":1,\"s\":200}]", &mut inc, &out, &mut view, 100_000);
    assert!(inc.is_authorized);
    // Subscription ack for request id 2 binds the historical id to the
    // contract whose symbol matches request index 0.
    process_message(
        "[{\"s\":200,\"i\":2,\"d\":{\"mode\":\"realtime\",\"historicalId\":77}}]",
        &mut inc,
        &out,
        &mut view,
        100_000,
    );
    assert_eq!(inc.request_responses.len(), 1);
    assert_eq!(view.contract_ids[0].historical_id, 77);
}

#[test]
fn depth_snapshots_replace_per_contract() {
    let mut inc = MarketDataIncoming::new();
    let out = MarketDataOutgoing::new(Vec::new(), 0);
    let mut view = MarketData::new(Vec::new());
    let dom1 = "[{\"e\":\"md\",\"d\":{\"doms\":[{\"contractId\":5,\"timestamp\":\"2022-03-01T00:00:00Z\",\"bids\":[{\"price\":4500.0,\"size\":10}],\"offers\":[{\"price\":4500.25,\"size\":20}]}]}}]";
    let dom2 = "[{\"e\":\"md\",\"d\":{\"doms\":[{\"contractId\":5,\"timestamp\":\"2022-03-01T00:00:01Z\",\"bids\":[{\"price\":4500.0,\"size\":30}],\"offers\":[{\"price\":4500.25,\"size\":40}]}]}}]";
    process_message(dom1, &mut inc, &out, &mut view, 100_000);
    assert_eq!(view.market_depth.len(), 1);
    process_message(dom2, &mut inc, &out, &mut view, 100_000);
    // Replaced, not appended.
    assert_eq!(view.market_depth.len(), 1);
    assert_eq!(view.market_depth[0].data.doms[0].bids[0].size, 30);
}

#[test]
fn chart_batches_append_sorted_ticks() {
    let mut inc = MarketDataIncoming::new();
    let out = MarketDataOutgoing::new(Vec::new(), 0);
    let mut view = MarketData::new(Vec::new());
    // Two ticks out of order; tick size 0.25 so prices scale exactly.
    let chart = "[{\"e\":\"chart\",\"d\":{\"charts\":[{\"bp\":18000,\"bt\":99000,\"id\":77,\"ts\":0.25,\"tks\":[{\"id\":2,\"p\":4,\"s\":3,\"t\":600,\"b\":0,\"a\":8},{\"id\":1,\"p\":0,\"s\":5,\"t\":100,\"b\":-4,\"a\":4}]}]}}]";
    process_message(chart, &mut inc, &out, &mut view, 100_000);
    let items = &view.time_and_sales.items;
    assert_eq!(items.len(), 2);
    assert!(items[0].timestamp <= items[1].timestamp);
    assert_eq!(items[0].timestamp, 99_100);
    // Price 18000 * 0.25 = 4500.00, scaled.
    assert_eq!(items[0].price, 450_000_000);
    assert_eq!(items[0].qty, 5);
}

#[test]
fn subscription_lifecycle_notes() {
    let reqs = vec![MarketDataRequest::new(tradebot::md_socket::MarketData::Quote, "ESM2")];
    let mut out = MarketDataOutgoing::new(reqs, 0);
    assert!(out.data_requests[0].is_unsent());
    tradebot::md_socket::md_note_subscribe_sent(&mut out, 0, String::from("sub-text"));
    assert!(out.data_requests[0].is_sent());
    assert_eq!(out.sent_requests, vec![String::from("sub-text")]);
    tradebot::md_socket::md_note_unsubscribe_sent(&mut out, 0);
    assert!(!out.data_requests[0].is_sent());
    assert!(!out.data_requests[0].is_unsent());
    tradebot::md_socket::md_note_heartbeat_sent(&mut out, 777);
    assert_eq!(out.last_heart_beat_ms, 777);
    out.socket_close = true;
    tradebot::md_socket::md_note_close_attempted(&mut out);
    assert!(!out.socket_close);
}

#[test]
fn reconnect_storm_trips_the_breaker() {
    let mut attempts: u32 = 0;
    attempts = reconnect_tally(attempts, 10);
    assert!(!should_halt(attempts));
    attempts = reconnect_tally(attempts, 30);
    assert!(!should_halt(attempts));
    attempts = reconnect_tally(attempts, 59);
    // Three fast cycles: the fourth attempt never happens.
    assert!(should_halt(attempts));
}

#[test]
fn slow_cycle_resets_the_breaker() {
    let mut attempts: u32 = 0;
    attempts = reconnect_tally(attempts, 10);
    attempts = reconnect_tally(attempts, 20);
    attempts = reconnect_tally(attempts, 60);
    assert_eq!(attempts, 0);
    assert!(!should_halt(attempts));
}
