//! Wire text: decimal parsing, request framing, URLs and timestamps.

use tradebot::api_client::{Protocol, ResourceType, Server, TradovateAPIClient};
use tradebot::decimal::parse_scaled_decimal;
use tradebot::decode::{parse_dom_message, parse_order_update};
use tradebot::md_socket::{get_tick_chart_request_body, MarketData, MarketDataRequest};
use tradebot::strategy::{create_market_order_ticket, create_order_request};
use tradebot::time_and_sales::OrderAction;

#[test]
fn scaled_decimal_round_values() {
    assert_eq!(parse_scaled_decimal("4500.25"), Some(450_025_000));
    assert_eq!(parse_scaled_decimal("2.05"), Some(205_000));
    assert_eq!(parse_scaled_decimal("0"), Some(0));
    assert_eq!(parse_scaled_decimal("-1.5"), Some(-150_000));
    assert_eq!(parse_scaled_decimal("100"), Some(10_000_000));
}

#[test]
fn scaled_decimal_truncates_past_five_places() {
    assert_eq!(parse_scaled_decimal("0.123456789"), Some(12_345));
    assert_eq!(parse_scaled_decimal("-0.000001"), Some(0));
}

#[test]
fn scaled_decimal_rejects_malformed_text() {
    assert_eq!(parse_scaled_decimal(""), None);
    assert_eq!(parse_scaled_decimal("abc"), None);
    assert_eq!(parse_scaled_decimal("1e3"), None);
    assert_eq!(parse_scaled_decimal("1."), None);
    assert_eq!(parse_scaled_decimal(".5"), None);
    assert_eq!(parse_scaled_decimal("-"), None);
    assert_eq!(parse_scaled_decimal("1.2.3"), None);
}

#[test]
fn scaled_decimal_enforces_the_magnitude_cap() {
    // 100000000.00000 scaled is exactly the cap.
    assert_eq!(parse_scaled_decimal("100000000"), Some(10_000_000_000_000));
    assert_eq!(parse_scaled_decimal("100000001"), None);
    assert_eq!(parse_scaled_decimal("99999999999999999999999"), None);
}

#[test]
fn order_ticket_text_is_exact() {
    let ticket = create_market_order_ticket(
        OrderAction::Buy,
        1,
        77,
        &String::from("ESH2"),
        &String::from("trader"),
    );
    assert_eq!(
        ticket,
        "{\"action\":\"Buy\",\"symbol\":\"ESH2\",\"orderQty\":1,\"orderType\":\"Market\",\"accountSpec\":\"trader\",\"accountId\":77,\"isAutomated\":true}"
    );
    let request = create_order_request(3, &ticket);
    assert!(request.starts_with("order/placeorder\n3\n\n{\"action\":\"Buy\""));
}

#[test]
fn negative_ids_render_with_sign() {
    let ticket = create_market_order_ticket(
        OrderAction::Sell,
        12,
        -5,
        &String::from("NQ"),
        &String::from("t"),
    );
    assert!(ticket.contains("\"accountId\":-5"));
    assert!(ticket.contains("\"orderQty\":12"));
}

#[test]
fn urls_for_each_service() {
    let client = TradovateAPIClient::new(Server::Demo, "MyApp", "0.2", String::from("dev-1"));
    assert_eq!(
        client.url(ResourceType::Trading, Protocol::Https),
        "https://demo.tradovateapi.com"
    );
    assert_eq!(
        client.url(ResourceType::MarketData, Protocol::Wss),
        "wss://md.tradovateapi.com/v1/websocket"
    );
    let live = TradovateAPIClient::new(Server::Live, "MyApp", "0.2", String::from("dev-1"));
    assert_eq!(
        live.url(ResourceType::Trading, Protocol::Https),
        "https://live.tradovateapi.com"
    );
}

#[test]
fn websocket_urls_are_normalized() {
    // The URL parser drops the scheme's default port: the text truly went
    // through normalization, not back out unchanged.
    let p = Protocol::Wss;
    assert_eq!(
        p.add_prefix("example.com:443"),
        "wss://example.com/v1/websocket"
    );
}

#[test]
fn auth_and_sync_requests() {
    let mut client = TradovateAPIClient::new(Server::Demo, "MyApp", "0.2", String::from("d"));
    client.access_token = String::from("token-abc");
    client.user_id = 42;
    assert_eq!(
        client.ws_auth_msg(ResourceType::Trading),
        "authorize\n1\n\ntoken-abc"
    );
    assert_eq!(
        client.get_user_sync_request(),
        "user/syncrequest\n2\n\n{\"users\":[42]}"
    );
}

#[test]
fn token_lifetime_decisions() {
    let mut client = TradovateAPIClient::new(Server::Demo, "a", "b", String::from("d"));
    client.token_expiration_time = 1_000_000;
    // Valid until the expiry instant.
    assert!(client.token_is_valid(999_999));
    assert!(!client.token_is_valid(1_000_000));
    // Renewal becomes due inside the 240-second window before expiry.
    assert!(!client.needs_renewal(700_000));
    assert!(client.needs_renewal(800_001));
}

#[test]
fn subscription_request_text() {
    let req = MarketDataRequest::new(MarketData::DepthOfMarket, "ESM2");
    assert_eq!(req.subscribe(2, &String::new()), "md/subscribeDOM\n2\n\n{\"symbol\":\"ESM2\"}");
    assert_eq!(
        req.unsubscribe(2),
        "md/unsubscribeDOM\n2\n\n{\"symbol\":\"ESM2\"}"
    );
    assert_eq!(req.summarize(), "ESM2 DepthOfMarket");
    let mut chart = MarketDataRequest::new(MarketData::Chart, "NQM2");
    chart.historical_id = 9;
    let from = String::from("2022-03-01T00:00:00Z");
    let sub = chart.subscribe(3, &from);
    assert!(sub.starts_with("md/getChart\n3\n\n{\"symbol\":\"NQM2\""));
    assert!(sub.contains("\"asFarAsTimestamp\":\"2022-03-01T00:00:00Z\""));
    assert_eq!(chart.unsubscribe(3), "md/cancelChart\n3\n\n{\"subscriptionId\":9}");
    let body = get_tick_chart_request_body(&String::from("S"), &from);
    assert!(body.contains("\"underlyingType\":\"Tick\""));
}

#[test]
fn rfc3339_timestamps_become_epoch_milliseconds() {
    let text = "{\"e\":\"md\",\"d\":{\"doms\":[{\"contractId\":5,\"timestamp\":\"2022-03-01T00:00:00Z\",\"bids\":[],\"offers\":[]}]}}";
    let v: serde_json::Value = serde_json::from_str(text).unwrap();
    let m = parse_dom_message(&v, 7).expect("depth message decodes");
    assert_eq!(m.data.doms[0].timestamp, 1_646_092_800_000);
}

#[test]
fn unreadable_timestamp_falls_back_to_now() {
    let text = "{\"e\":\"md\",\"d\":{\"doms\":[{\"contractId\":5,\"timestamp\":\"soon\",\"bids\":[],\"offers\":[]}]}}";
    let v: serde_json::Value = serde_json::from_str(text).unwrap();
    let m = parse_dom_message(&v, 12345).expect("depth message decodes");
    assert_eq!(m.data.doms[0].timestamp, 12345);
}

#[test]
fn oversized_wire_values_are_rejected_as_malformed() {
    // A level size above the quantity cap poisons the whole message.
    let text = "{\"e\":\"md\",\"d\":{\"doms\":[{\"contractId\":5,\"timestamp\":\"x\",\"bids\":[{\"price\":1.0,\"size\":2000000000}],\"offers\":[]}]}}";
    let v: serde_json::Value = serde_json::from_str(text).unwrap();
    assert!(parse_dom_message(&v, 0).is_none());
    // An order update whose quantity is negative is rejected.
    let upd = "{\"e\":\"props\",\"d\":{\"entityType\":\"Order\",\"eventType\":\"U\",\"entity\":{\"accountId\":1,\"action\":\"Buy\",\"avgPx\":1.0,\"contractId\":1,\"cumQty\":-2,\"ordStatus\":\"Filled\",\"orderId\":1}}}";
    let v2: serde_json::Value = serde_json::from_str(upd).unwrap();
    assert!(parse_order_update(&v2).is_none());
}
