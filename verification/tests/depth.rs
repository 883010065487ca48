//! Depth-of-book summaries and merging.

use tradebot::models::{Bid, DOMData, DOMMessage, DOMSummary, Dom, Offer};

fn summary_of(contract_id: i64, bid: i64, ask: i64, ts: i64) -> DOMSummary {
    let dom = Dom {
        bids: vec![Bid { price: 0, size: bid }],
        contract_id,
        offers: vec![Offer { price: 0, size: ask }],
        timestamp: ts,
    };
    dom.get_summary()
}

#[test]
fn merge_two_contracts_sums_and_recomputes_percentages() {
    let a = summary_of(1, 100, 50, 1000);
    let b = summary_of(2, 10, 10, 2000);
    let merged = a.sum(b);
    assert_eq!(merged.total_bid, 110);
    assert_eq!(merged.total_ask, 60);
    assert_eq!(merged.total_orders, 170);
    // 64.70588% and 35.29411%, scaled by 100000.
    assert_eq!(merged.percent_buys, 6_470_588);
    assert_eq!(merged.percent_sells, 3_529_411);
    assert_eq!(merged.net, -2_941_177);
    assert_eq!(merged.contract_ids, vec![1, 2]);
    // Earlier of the two (non-zero) timestamps.
    assert_eq!(merged.timestamp, 1000);
}

#[test]
fn merge_with_itself_is_identity() {
    let a = summary_of(1, 100, 50, 1000);
    let again = summary_of(1, 100, 50, 1000);
    let merged = a.sum(again);
    assert_eq!(merged.total_bid, 100);
    assert_eq!(merged.total_ask, 50);
    assert_eq!(merged.total_orders, 150);
    assert_eq!(merged.contract_ids, vec![1]);
    assert_eq!(merged.timestamp, 1000);
}

#[test]
fn merge_timestamp_rules() {
    let a = summary_of(1, 1, 1, 0);
    let b = summary_of(2, 1, 1, 500);
    // One side zero: take the non-zero.
    assert_eq!(a.sum(b).timestamp, 500);
    let c = summary_of(3, 1, 1, 0);
    let d = summary_of(4, 1, 1, 0);
    // Both zero: stays zero.
    assert_eq!(c.sum(d).timestamp, 0);
}

#[test]
fn empty_summary_is_neutral_for_percentages() {
    let e = DOMSummary::new();
    assert_eq!(e.total_orders, 0);
    assert_eq!(e.percent_buys, 0);
    assert_eq!(e.percent_sells, 0);
    assert_eq!(e.net, 0);
}

#[test]
fn combine_merges_books_of_one_message() {
    let m = DOMMessage {
        data: DOMData {
            doms: vec![
                Dom {
                    bids: vec![Bid { price: 0, size: 100 }],
                    contract_id: 1,
                    offers: vec![Offer { price: 0, size: 50 }],
                    timestamp: 1000,
                },
                Dom {
                    bids: vec![Bid { price: 0, size: 10 }],
                    contract_id: 2,
                    offers: vec![Offer { price: 0, size: 10 }],
                    timestamp: 2000,
                },
            ],
        },
        event: String::from("md"),
    };
    let merged = m.combine();
    assert_eq!(merged.total_bid, 110);
    assert_eq!(merged.total_ask, 60);
    assert_eq!(merged.net, -2_941_177);
}

#[test]
fn summary_with_empty_book_has_zero_percentages() {
    let s = summary_of(9, 0, 0, 7);
    assert_eq!(s.total_orders, 0);
    assert_eq!(s.percent_buys, 0);
    assert_eq!(s.percent_sells, 0);
}
