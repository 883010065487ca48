//! Readers from wire JSON values into the engine's typed messages. Each
//! reader is specified against the document's content model (`JsonModel`):
//! it returns `Some` exactly when the content holds the message's required
//! readings, and the returned record's fields equal those readings. Every
//! number that will enter an arithmetic path is range-checked here, so the
//! typed results also carry their well-formedness.

use vstd::prelude::*;

use crate::acct_socket::AcctObjShape;
use crate::decimal::parse_scaled_decimal;
use crate::models::{
    Account, AccountRiskStatus, Bid, CashBalance, Chart, ChartData, ContractGroup, Currency, D,
    DOMData, DOMMessage, Dom, Entries, Exchange, HighPrice, LowPrice, MarginSnapshot, Offer,
    OpenInterest, OpeningPrice, OrderID, OrderIDMessage, OrderStatus, OrderUpdate,
    OrderUpdateMessage, Position, Quote, QuoteMessage, RequestData, SettlementPrice, Tick,
    TickChart, TotalTradeVolume, Trade, TradeDate, UserData, UserDataMessage, UserPlugin,
    UserProperty, UserReadStatuse, User, WebsocketResponse,
};
use crate::decimal::scaled_of;
use crate::outside::{
    elems_of, field_of, fields_of, json_array_len, json_as_bool, json_as_i64, json_as_string,
    json_get_field, json_get_index, json_model, json_number_text, json_object_len,
    obj_bool_or_false, obj_int, obj_int_or0, obj_num_text, obj_text, obj_text_or_empty,
    parse_rfc3339_millis, rfc3339_millis_of, JsonModel,
};
use crate::settings::{MAX_PRICE, MAX_QTY, MAX_TIME_MS};
use crate::time_and_sales::OrderAction;
use vstd::string::StringExecFns;

verus! {

/// A number field as a scaled fixed-point value within the price bound.
pub open spec fn obj_scaled(m: JsonModel, key: Seq<char>) -> Option<i64> {
    match obj_num_text(m, key) {
        Some(t) => match scaled_of(t) {
            Some(x) => if -MAX_PRICE <= x <= MAX_PRICE {
                Some(x)
            } else {
                None
            },
            None => None,
        },
        None => None,
    }
}

pub open spec fn obj_scaled_or0(m: JsonModel, key: Seq<char>) -> i64 {
    match obj_scaled(m, key) {
        Some(x) => x,
        None => 0,
    }
}

/// An integer field within the quantity bound.
pub open spec fn obj_qty(m: JsonModel, key: Seq<char>) -> Option<i64> {
    match obj_int(m, key) {
        Some(x) => if 0 <= x <= MAX_QTY {
            Some(x)
        } else {
            None
        },
        None => None,
    }
}

/// A text field naming a trade side.
pub open spec fn obj_action(m: JsonModel, key: Seq<char>) -> Option<OrderAction> {
    match obj_text(m, key) {
        Some(t) => if t == "Buy"@ {
            Some(OrderAction::Buy)
        } else if t == "Sell"@ {
            Some(OrderAction::Sell)
        } else if t == "Unknown"@ {
            Some(OrderAction::Unknown)
        } else {
            None
        },
        None => None,
    }
}

pub(crate) fn get_i64(v: &serde_json::Value, key: &str) -> (r: Option<i64>)
    ensures
        r == obj_int(json_model(*v), key@),
{
    match json_get_field(v, key) {
        Some(f) => json_as_i64(f),
        None => None,
    }
}

fn get_i64_or_zero(v: &serde_json::Value, key: &str) -> (r: i64)
    ensures
        r == obj_int_or0(json_model(*v), key@),
{
    match get_i64(v, key) {
        Some(x) => x,
        None => 0,
    }
}

pub(crate) fn get_string(v: &serde_json::Value, key: &str) -> (r: Option<String>)
    ensures
        match r {
            Some(s) => obj_text(json_model(*v), key@) == Some(s@),
            None => obj_text(json_model(*v), key@) is None,
        },
{
    match json_get_field(v, key) {
        Some(f) => json_as_string(f),
        None => None,
    }
}

fn get_string_or_empty(v: &serde_json::Value, key: &str) -> (r: String)
    ensures
        r@ == obj_text_or_empty(json_model(*v), key@),
{
    match get_string(v, key) {
        Some(s) => s,
        None => String::new(),
    }
}

fn get_bool_or_false(v: &serde_json::Value, key: &str) -> (r: bool)
    ensures
        r == obj_bool_or_false(json_model(*v), key@),
{
    match json_get_field(v, key) {
        Some(f) => match json_as_bool(f) {
            Some(b) => b,
            None => false,
        },
        None => false,
    }
}

/// A number field as a scaled fixed-point value, range-checked.
fn get_scaled(v: &serde_json::Value, key: &str) -> (r: Option<i64>)
    ensures
        r == obj_scaled(json_model(*v), key@),
        match r {
            Some(x) => -MAX_PRICE <= x <= MAX_PRICE,
            None => true,
        },
{
    match json_get_field(v, key) {
        Some(f) => match json_number_text(f) {
            Some(text) => match parse_scaled_decimal(text.as_str()) {
                Some(x) => if -MAX_PRICE <= x && x <= MAX_PRICE {
                    Some(x)
                } else {
                    None
                },
                None => None,
            },
            None => None,
        },
        None => None,
    }
}

fn get_scaled_or_zero(v: &serde_json::Value, key: &str) -> (r: i64)
    ensures
        r == obj_scaled_or0(json_model(*v), key@),
        -MAX_PRICE <= r <= MAX_PRICE,
{
    match get_scaled(v, key) {
        Some(x) => x,
        None => 0,
    }
}

/// A quantity field, range-checked into `[0, MAX_QTY]`.
fn get_qty(v: &serde_json::Value, key: &str) -> (r: Option<i64>)
    ensures
        r == obj_qty(json_model(*v), key@),
        match r {
            Some(x) => 0 <= x <= MAX_QTY,
            None => true,
        },
{
    match get_i64(v, key) {
        Some(x) => if 0 <= x && x <= MAX_QTY {
            Some(x)
        } else {
            None
        },
        None => None,
    }
}

/// A trade side field: one of the three wire names.
fn get_action(v: &serde_json::Value, key: &str) -> (r: Option<OrderAction>)
    ensures
        r == obj_action(json_model(*v), key@),
{
    match get_string(v, key) {
        Some(s) => {
            let buy: String = String::from_str("Buy");
            let sell: String = String::from_str("Sell");
            let unknown: String = String::from_str("Unknown");
            if s == buy {
                Some(OrderAction::Buy)
            } else if s == sell {
                Some(OrderAction::Sell)
            } else if s == unknown {
                Some(OrderAction::Unknown)
            } else {
                None
            }
        },
        None => None,
    }
}

/// The object holds everything a subscription acknowledgment requires.
pub open spec fn ws_response_parses(m: JsonModel) -> bool {
    &&& obj_int(m, "s"@) is Some
    &&& obj_int(m, "i"@) is Some
    &&& match field_of(m, "d"@) {
        Some(dm) => obj_text(dm, "mode"@) is Some,
        None => false,
    }
}

/// `w` is exactly the acknowledgment the object describes.
pub open spec fn ws_response_matches(m: JsonModel, w: WebsocketResponse) -> bool {
    &&& obj_int(m, "s"@) == Some(w.status)
    &&& obj_int(m, "i"@) == Some(w.request_id)
    &&& match field_of(m, "d"@) {
        Some(dm) => {
            &&& obj_text(dm, "mode"@) == Some(w.data.mode@)
            &&& w.data.contract_id == obj_int_or0(dm, "subscriptionId"@)
            &&& w.data.historical_id == obj_int_or0(dm, "historicalId"@)
            &&& w.data.realtime_id == obj_int_or0(dm, "realtimeId"@)
        },
        None => false,
    }
}

pub open spec fn ws_response_parse_rel(m: JsonModel, r: Option<WebsocketResponse>) -> bool {
    match r {
        Some(w) => ws_response_parses(m) && ws_response_matches(m, w),
        None => !ws_response_parses(m),
    }
}

/// Read a subscription acknowledgment: correlation id, status and the
/// bound ids.
pub fn parse_ws_response(v: &serde_json::Value) -> (r: Option<WebsocketResponse>)
    ensures
        ws_response_parse_rel(json_model(*v), r),
{
    let status = match get_i64(v, "s") {
        Some(x) => x,
        None => {
            return None;
        },
    };
    let request_id = match get_i64(v, "i") {
        Some(x) => x,
        None => {
            return None;
        },
    };
    let d = match json_get_field(v, "d") {
        Some(x) => x,
        None => {
            return None;
        },
    };
    let mode = match get_string(d, "mode") {
        Some(x) => x,
        None => {
            return None;
        },
    };
    Some(
        WebsocketResponse {
            status,
            request_id,
            data: RequestData {
                mode,
                contract_id: get_i64_or_zero(d, "subscriptionId"),
                historical_id: get_i64_or_zero(d, "historicalId"),
                realtime_id: get_i64_or_zero(d, "realtimeId"),
            },
        },
    )
}

/// The object holds everything an order-id acknowledgment requires.
pub open spec fn order_id_parses(m: JsonModel) -> bool {
    &&& obj_int(m, "i"@) is Some
    &&& obj_int(m, "s"@) is Some
    &&& match field_of(m, "d"@) {
        Some(dm) => obj_int(dm, "orderId"@) is Some,
        None => false,
    }
}

/// `o` is exactly the acknowledgment the object describes.
pub open spec fn order_id_matches(m: JsonModel, o: OrderIDMessage) -> bool {
    &&& obj_int(m, "i"@) == Some(o.request_id)
    &&& obj_int(m, "s"@) == Some(o.request_status)
    &&& match field_of(m, "d"@) {
        Some(dm) => obj_int(dm, "orderId"@) == Some(o.data.order_id),
        None => false,
    }
}

pub open spec fn order_id_parse_rel(m: JsonModel, r: Option<OrderIDMessage>) -> bool {
    match r {
        Some(o) => order_id_parses(m) && order_id_matches(m, o),
        None => !order_id_parses(m),
    }
}

/// Read an order-id acknowledgment.
pub fn parse_order_id(v: &serde_json::Value) -> (r: Option<OrderIDMessage>)
    ensures
        order_id_parse_rel(json_model(*v), r),
{
    let request_id = match get_i64(v, "i") {
        Some(x) => x,
        None => {
            return None;
        },
    };
    let request_status = match get_i64(v, "s") {
        Some(x) => x,
        None => {
            return None;
        },
    };
    let d = match json_get_field(v, "d") {
        Some(x) => x,
        None => {
            return None;
        },
    };
    let order_id = match get_i64(d, "orderId") {
        Some(x) => x,
        None => {
            return None;
        },
    };
    Some(OrderIDMessage { data: OrderID { order_id }, request_id, request_status })
}

/// The object holds everything an order-status event requires, with its
/// price and quantity inside the wire bounds.
pub open spec fn order_update_parses(m: JsonModel) -> bool {
    &&& obj_text(m, "e"@) is Some
    &&& match field_of(m, "d"@) {
        Some(dm) => {
            &&& obj_text(dm, "entityType"@) is Some
            &&& obj_text(dm, "eventType"@) is Some
            &&& match field_of(dm, "entity"@) {
                Some(em) => {
                    &&& obj_int(em, "accountId"@) is Some
                    &&& obj_action(em, "action"@) is Some
                    &&& obj_scaled(em, "avgPx"@) is Some
                    &&& obj_int(em, "contractId"@) is Some
                    &&& obj_qty(em, "cumQty"@) is Some
                    &&& obj_text(em, "ordStatus"@) is Some
                    &&& obj_int(em, "orderId"@) is Some
                },
                None => false,
            }
        },
        None => false,
    }
}

/// `u` is exactly the event the object describes; fields the engine never
/// requires decode to their defaults when absent.
pub open spec fn order_update_matches(m: JsonModel, u: OrderUpdateMessage) -> bool {
    &&& obj_text(m, "e"@) == Some(u.event@)
    &&& match field_of(m, "d"@) {
        Some(dm) => {
            &&& obj_text(dm, "entityType"@) == Some(u.data.entity_type@)
            &&& obj_text(dm, "eventType"@) == Some(u.data.event_type@)
            &&& match field_of(dm, "entity"@) {
                Some(em) => {
                    &&& obj_int(em, "accountId"@) == Some(u.data.entity.account_id)
                    &&& obj_action(em, "action"@) == Some(u.data.entity.action)
                    &&& obj_scaled(em, "avgPx"@) == Some(u.data.entity.avg_px)
                    &&& obj_int(em, "contractId"@) == Some(u.data.entity.contract_id)
                    &&& obj_qty(em, "cumQty"@) == Some(u.data.entity.cum_qty)
                    &&& obj_text(em, "ordStatus"@) == Some(u.data.entity.ord_status@)
                    &&& obj_int(em, "orderId"@) == Some(u.data.entity.order_id)
                    &&& u.data.entity.command_id == obj_int_or0(em, "commandId"@)
                    &&& u.data.entity.exec_type@ == obj_text_or_empty(em, "execType"@)
                    &&& u.data.entity.external_cl_ord_id@ == obj_text_or_empty(
                        em,
                        "externalClOrdId"@,
                    )
                    &&& u.data.entity.id == obj_int_or0(em, "id"@)
                    &&& u.data.entity.last_px == obj_scaled_or0(em, "lastPx"@)
                    &&& u.data.entity.last_qty == obj_int_or0(em, "lastQty"@)
                    &&& u.data.entity.name@ == obj_text_or_empty(em, "name"@)
                    &&& u.data.entity.timestamp@ == obj_text_or_empty(em, "timestamp"@)
                },
                None => false,
            }
        },
        None => false,
    }
}

pub open spec fn order_update_parse_rel(m: JsonModel, r: Option<OrderUpdateMessage>) -> bool {
    match r {
        Some(u) => order_update_parses(m) && order_update_matches(m, u) && u.wf(),
        None => !order_update_parses(m),
    }
}

/// Read an order-status event; its price and quantity are range-checked.
pub fn parse_order_update(v: &serde_json::Value) -> (r: Option<OrderUpdateMessage>)
    ensures
        order_update_parse_rel(json_model(*v), r),
        match r {
            Some(u) => u.wf(),
            None => true,
        },
{
    let event = match get_string(v, "e") {
        Some(x) => x,
        None => {
            return None;
        },
    };
    let d = match json_get_field(v, "d") {
        Some(x) => x,
        None => {
            return None;
        },
    };
    let entity = match json_get_field(d, "entity") {
        Some(x) => x,
        None => {
            return None;
        },
    };
    let entity_type = match get_string(d, "entityType") {
        Some(x) => x,
        None => {
            return None;
        },
    };
    let event_type = match get_string(d, "eventType") {
        Some(x) => x,
        None => {
            return None;
        },
    };
    let account_id = match get_i64(entity, "accountId") {
        Some(x) => x,
        None => {
            return None;
        },
    };
    let action = match get_action(entity, "action") {
        Some(x) => x,
        None => {
            return None;
        },
    };
    let avg_px = match get_scaled(entity, "avgPx") {
        Some(x) => x,
        None => {
            return None;
        },
    };
    let contract_id = match get_i64(entity, "contractId") {
        Some(x) => x,
        None => {
            return None;
        },
    };
    let cum_qty = match get_qty(entity, "cumQty") {
        Some(x) => x,
        None => {
            return None;
        },
    };
    let ord_status = match get_string(entity, "ordStatus") {
        Some(x) => x,
        None => {
            return None;
        },
    };
    let order_id = match get_i64(entity, "orderId") {
        Some(x) => x,
        None => {
            return None;
        },
    };
    Some(
        OrderUpdateMessage {
            data: OrderUpdate {
                entity: OrderStatus {
                    account_id,
                    action,
                    avg_px,
                    command_id: get_i64_or_zero(entity, "commandId"),
                    contract_id,
                    cum_qty,
                    exec_type: get_string_or_empty(entity, "execType"),
                    external_cl_ord_id: get_string_or_empty(entity, "externalClOrdId"),
                    id: get_i64_or_zero(entity, "id"),
                    last_px: get_scaled_or_zero(entity, "lastPx"),
                    last_qty: get_i64_or_zero(entity, "lastQty"),
                    name: get_string_or_empty(entity, "name"),
                    ord_status,
                    order_id,
                    timestamp: get_string_or_empty(entity, "timestamp"),
                },
                entity_type,
                event_type,
            },
            event,
        },
    )
}

/// The object holds what an account record requires.
pub open spec fn account_parses(m: JsonModel) -> bool {
    &&& obj_int(m, "id"@) is Some
    &&& obj_text(m, "name"@) is Some
}

/// `a` is exactly the account the object describes.
pub open spec fn account_matches(m: JsonModel, a: Account) -> bool {
    &&& obj_int(m, "id"@) == Some(a.id)
    &&& obj_text(m, "name"@) == Some(a.name@)
    &&& a.account_type@ == obj_text_or_empty(m, "accountType"@)
    &&& a.active == obj_bool_or_false(m, "active"@)
    &&& a.archived == obj_bool_or_false(m, "archived"@)
    &&& a.auto_liq_profile_id == obj_int_or0(m, "autoLiqProfileId"@)
    &&& a.clearing_house_id == obj_int_or0(m, "clearingHouseId"@)
    &&& a.legal_status@ == obj_text_or_empty(m, "legalStatus"@)
    &&& a.margin_account_type@ == obj_text_or_empty(m, "marginAccountType"@)
    &&& a.nickname@ == obj_text_or_empty(m, "nickname"@)
    &&& a.risk_category_id == obj_int_or0(m, "riskCategoryId"@)
    &&& a.timestamp@ == obj_text_or_empty(m, "timestamp"@)
    &&& a.user_id == obj_int_or0(m, "userId"@)
}

pub open spec fn accounts_parse(es: Seq<JsonModel>) -> bool {
    forall|k: int| 0 <= k < es.len() ==> account_parses(#[trigger] es[k])
}

pub open spec fn accounts_list_rel(m: JsonModel, r: Option<Vec<Account>>) -> bool {
    match r {
        Some(list) => m is Arr && accounts_parse(elems_of(m)) && list@.len() == elems_of(
            m,
        ).len() && (forall|k: int|
            0 <= k < list@.len() ==> account_matches(elems_of(m)[k], #[trigger] list@[k])),
        None => !(m is Arr && accounts_parse(elems_of(m))),
    }
}

fn parse_accounts(v: &serde_json::Value) -> (r: Option<Vec<Account>>)
    ensures
        accounts_list_rel(json_model(*v), r),
{
    let ghost m = json_model(*v);
    let n = match json_array_len(v) {
        Some(x) => x,
        None => {
            return None;
        },
    };
    let ghost es = elems_of(m);
    let mut out: Vec<Account> = Vec::new();
    let mut i: usize = 0;
    while i < n
        invariant
            m == json_model(*v),
            m is Arr,
            es == elems_of(m),
            n == es.len(),
            0 <= i <= n,
            out@.len() == i,
            forall|k: int| 0 <= k < i ==> account_parses(#[trigger] es[k]),
            forall|k: int| 0 <= k < i ==> account_matches(es[k], #[trigger] out@[k]),
        decreases n - i,
    {
        let el = match json_get_index(v, i) {
            Some(x) => x,
            None => {
                proof {
                    assert(false);
                }
                return None;
            },
        };
        let id = match get_i64(el, "id") {
            Some(x) => x,
            None => {
                proof {
                    assert(!account_parses(es[i as int]));
                }
                return None;
            },
        };
        let name = match get_string(el, "name") {
            Some(x) => x,
            None => {
                proof {
                    assert(!account_parses(es[i as int]));
                }
                return None;
            },
        };
        out.push(
            Account {
                account_type: get_string_or_empty(el, "accountType"),
                active: get_bool_or_false(el, "active"),
                archived: get_bool_or_false(el, "archived"),
                auto_liq_profile_id: get_i64_or_zero(el, "autoLiqProfileId"),
                clearing_house_id: get_i64_or_zero(el, "clearingHouseId"),
                id,
                legal_status: get_string_or_empty(el, "legalStatus"),
                margin_account_type: get_string_or_empty(el, "marginAccountType"),
                name,
                nickname: get_string_or_empty(el, "nickname"),
                risk_category_id: get_i64_or_zero(el, "riskCategoryId"),
                timestamp: get_string_or_empty(el, "timestamp"),
                user_id: get_i64_or_zero(el, "userId"),
            },
        );
        i = i + 1;
    }
    Some(out)
}

/// The object holds what a position record requires, with its net
/// quantity inside the wire bound.
pub open spec fn position_parses(m: JsonModel) -> bool {
    &&& obj_int(m, "accountId"@) is Some
    &&& obj_int(m, "contractId"@) is Some
    &&& match obj_int(m, "netPos"@) {
        Some(x) => -MAX_QTY <= x <= MAX_QTY,
        None => false,
    }
}

/// `p` is exactly the position the object describes.
pub open spec fn position_matches(m: JsonModel, p: Position) -> bool {
    &&& obj_int(m, "accountId"@) == Some(p.account_id)
    &&& obj_int(m, "contractId"@) == Some(p.contract_id)
    &&& obj_int(m, "netPos"@) == Some(p.net_pos)
    &&& p.archived == obj_bool_or_false(m, "archived"@)
    &&& p.bought == obj_int_or0(m, "bought"@)
    &&& p.bought_value == obj_scaled_or0(m, "boughtValue"@)
    &&& p.id == obj_int_or0(m, "id"@)
    &&& p.net_price == obj_scaled_or0(m, "netPrice"@)
    &&& p.prev_pos == obj_int_or0(m, "prevPos"@)
    &&& p.sold == obj_int_or0(m, "sold"@)
    &&& p.sold_value == obj_scaled_or0(m, "soldValue"@)
    &&& p.timestamp@ == obj_text_or_empty(m, "timestamp"@)
    &&& p.trade_date == (TradeDate { day: 0, month: 0, year: 0 })
}

pub open spec fn positions_parse(es: Seq<JsonModel>) -> bool {
    forall|k: int| 0 <= k < es.len() ==> position_parses(#[trigger] es[k])
}

pub open spec fn positions_list_rel(m: JsonModel, r: Option<Vec<Position>>) -> bool {
    match r {
        Some(list) => m is Arr && positions_parse(elems_of(m)) && list@.len() == elems_of(
            m,
        ).len() && (forall|k: int|
            0 <= k < list@.len() ==> position_matches(elems_of(m)[k], #[trigger] list@[k])),
        None => !(m is Arr && positions_parse(elems_of(m))),
    }
}

fn parse_positions(v: &serde_json::Value) -> (r: Option<Vec<Position>>)
    ensures
        positions_list_rel(json_model(*v), r),
        match r {
            Some(ps) => forall|i: int| 0 <= i < ps@.len() ==> (#[trigger] ps@[i]).wf(),
            None => true,
        },
{
    let ghost m = json_model(*v);
    let n = match json_array_len(v) {
        Some(x) => x,
        None => {
            return None;
        },
    };
    let ghost es = elems_of(m);
    let mut out: Vec<Position> = Vec::new();
    let mut i: usize = 0;
    while i < n
        invariant
            m == json_model(*v),
            m is Arr,
            es == elems_of(m),
            n == es.len(),
            0 <= i <= n,
            out@.len() == i,
            forall|k: int| 0 <= k < i ==> position_parses(#[trigger] es[k]),
            forall|k: int| 0 <= k < i ==> position_matches(es[k], #[trigger] out@[k]),
            forall|j: int| 0 <= j < out@.len() ==> (#[trigger] out@[j]).wf(),
        decreases n - i,
    {
        let el = match json_get_index(v, i) {
            Some(x) => x,
            None => {
                proof {
                    assert(false);
                }
                return None;
            },
        };
        let account_id = match get_i64(el, "accountId") {
            Some(x) => x,
            None => {
                proof {
                    assert(!position_parses(es[i as int]));
                }
                return None;
            },
        };
        let contract_id = match get_i64(el, "contractId") {
            Some(x) => x,
            None => {
                proof {
                    assert(!position_parses(es[i as int]));
                }
                return None;
            },
        };
        let net_pos = match get_i64(el, "netPos") {
            Some(x) => if -MAX_QTY <= x && x <= MAX_QTY {
                x
            } else {
                proof {
                    assert(!position_parses(es[i as int]));
                }
                return None;
            },
            None => {
                proof {
                    assert(!position_parses(es[i as int]));
                }
                return None;
            },
        };
        out.push(
            Position {
                account_id,
                archived: get_bool_or_false(el, "archived"),
                bought: get_i64_or_zero(el, "bought"),
                bought_value: get_scaled_or_zero(el, "boughtValue"),
                contract_id,
                id: get_i64_or_zero(el, "id"),
                net_pos,
                net_price: get_scaled_or_zero(el, "netPrice"),
                prev_pos: get_i64_or_zero(el, "prevPos"),
                sold: get_i64_or_zero(el, "sold"),
                sold_value: get_scaled_or_zero(el, "soldValue"),
                timestamp: get_string_or_empty(el, "timestamp"),
                trade_date: TradeDate { day: 0, month: 0, year: 0 },
            },
        );
        i = i + 1;
    }
    Some(out)
}

/// The object holds everything an account snapshot requires.
pub open spec fn user_data_parses(m: JsonModel) -> bool {
    &&& obj_int(m, "i"@) is Some
    &&& obj_int(m, "s"@) is Some
    &&& match field_of(m, "d"@) {
        Some(dm) => {
            &&& match field_of(dm, "accounts"@) {
                Some(am) => am is Arr && accounts_parse(elems_of(am)),
                None => false,
            }
            &&& match field_of(dm, "positions"@) {
                Some(pm) => pm is Arr && positions_parse(elems_of(pm)),
                None => false,
            }
        },
        None => false,
    }
}

/// `msg` is exactly the snapshot the object describes: its accounts and
/// positions element for element, the remaining tables empty.
pub open spec fn user_data_matches(m: JsonModel, msg: UserDataMessage) -> bool {
    &&& obj_int(m, "i"@) == Some(msg.request_id)
    &&& obj_int(m, "s"@) == Some(msg.request_status)
    &&& match field_of(m, "d"@) {
        Some(dm) => {
            &&& match field_of(dm, "accounts"@) {
                Some(am) => msg.data.accounts@.len() == elems_of(am).len() && (forall|k: int|
                    0 <= k < msg.data.accounts@.len() ==> account_matches(
                        elems_of(am)[k],
                        #[trigger] msg.data.accounts@[k],
                    )),
                None => false,
            }
            &&& match field_of(dm, "positions"@) {
                Some(pm) => msg.data.positions@.len() == elems_of(pm).len() && (forall|k: int|
                    0 <= k < msg.data.positions@.len() ==> position_matches(
                        elems_of(pm)[k],
                        #[trigger] msg.data.positions@[k],
                    )),
                None => false,
            }
        },
        None => false,
    }
    &&& msg.data.account_risk_statuses@.len() == 0
    &&& msg.data.cash_balances@.len() == 0
    &&& msg.data.contract_groups@.len() == 0
    &&& msg.data.currencies@.len() == 0
    &&& msg.data.exchanges@.len() == 0
    &&& msg.data.margin_snapshots@.len() == 0
    &&& msg.data.user_account_auto_liqs@.len() == 0
    &&& msg.data.user_plugins@.len() == 0
    &&& msg.data.user_properties@.len() == 0
    &&& msg.data.user_read_statuses@.len() == 0
    &&& msg.data.users@.len() == 0
}

pub open spec fn user_data_parse_rel(m: JsonModel, r: Option<UserDataMessage>) -> bool {
    match r {
        Some(d) => user_data_parses(m) && user_data_matches(m, d) && d.wf(),
        None => !user_data_parses(m),
    }
}

/// Read a full account snapshot. Only the tables the engine consumes
/// (accounts and positions) are decoded; the remaining tables are left
/// empty.
pub fn parse_user_data(v: &serde_json::Value) -> (r: Option<UserDataMessage>)
    ensures
        user_data_parse_rel(json_model(*v), r),
        match r {
            Some(d) => d.wf(),
            None => true,
        },
{
    let request_id = match get_i64(v, "i") {
        Some(x) => x,
        None => {
            return None;
        },
    };
    let request_status = match get_i64(v, "s") {
        Some(x) => x,
        None => {
            return None;
        },
    };
    let d = match json_get_field(v, "d") {
        Some(x) => x,
        None => {
            return None;
        },
    };
    let accounts_v = match json_get_field(d, "accounts") {
        Some(x) => x,
        None => {
            return None;
        },
    };
    let positions_v = match json_get_field(d, "positions") {
        Some(x) => x,
        None => {
            return None;
        },
    };
    let accounts = match parse_accounts(accounts_v) {
        Some(x) => x,
        None => {
            return None;
        },
    };
    let positions = match parse_positions(positions_v) {
        Some(x) => x,
        None => {
            return None;
        },
    };
    Some(
        UserDataMessage {
            data: UserData {
                account_risk_statuses: Vec::<AccountRiskStatus>::new(),
                accounts,
                cash_balances: Vec::<CashBalance>::new(),
                contract_groups: Vec::<ContractGroup>::new(),
                currencies: Vec::<Currency>::new(),
                exchanges: Vec::<Exchange>::new(),
                margin_snapshots: Vec::<MarginSnapshot>::new(),
                positions,
                user_account_auto_liqs: Vec::<crate::models::UserAccountAutoLiq>::new(),
                user_plugins: Vec::<UserPlugin>::new(),
                user_properties: Vec::<UserProperty>::new(),
                user_read_statuses: Vec::<UserReadStatuse>::new(),
                users: Vec::<User>::new(),
            },
            request_id,
            request_status,
        },
    )
}

/// Every field of the shape equals the corresponding reading of the
/// object's content.
pub open spec fn acct_shape_rel(m: JsonModel, sh: AcctObjShape) -> bool {
    &&& sh.is_object == (m is Obj)
    &&& (m is Obj ==> sh.key_count == fields_of(m).len())
    &&& sh.has_i == (field_of(m, "i"@) is Some)
    &&& sh.has_s == (field_of(m, "s"@) is Some)
    &&& sh.i_val == obj_int(m, "i"@)
    &&& sh.s_val == obj_int(m, "s"@)
    &&& order_update_parse_rel(m, sh.order_update)
    &&& order_id_parse_rel(m, sh.order_id)
    &&& user_data_parse_rel(m, sh.user_data)
}

/// Extract the structural facts and attempted readings routing needs from
/// one inbound account object.
pub fn acct_shape(v: &serde_json::Value) -> (sh: AcctObjShape)
    ensures
        sh.wf(),
        acct_shape_rel(json_model(*v), sh),
{
    let obj_len = json_object_len(v);
    let (is_object, key_count): (bool, usize) = match obj_len {
        Some(n) => (true, n),
        None => (false, 0),
    };
    AcctObjShape {
        is_object,
        key_count,
        has_i: json_get_field(v, "i").is_some(),
        has_s: json_get_field(v, "s").is_some(),
        i_val: get_i64(v, "i"),
        s_val: get_i64(v, "s"),
        order_update: parse_order_update(v),
        order_id: parse_order_id(v),
        user_data: parse_user_data(v),
    }
}

/// Read a quote snapshot message.
/// The scaled price of a nested entry object, zero when absent.
pub open spec fn nested_price_or0(m: JsonModel, key: Seq<char>) -> i64 {
    match field_of(m, key) {
        Some(f) => obj_scaled_or0(f, "price"@),
        None => 0,
    }
}

/// The size of a nested entry object, zero when absent.
pub open spec fn nested_size_or0(m: JsonModel, key: Seq<char>) -> i64 {
    match field_of(m, key) {
        Some(f) => obj_int_or0(f, "size"@),
        None => 0,
    }
}

/// `e` is exactly the entry table the object describes, absent entries as
/// zeros.
pub open spec fn entries_matches(m: JsonModel, e: Entries) -> bool {
    &&& e.bid.price == nested_price_or0(m, "Bid"@)
    &&& e.bid.size == nested_size_or0(m, "Bid"@)
    &&& e.high_price.price == nested_price_or0(m, "HighPrice"@)
    &&& e.low_price.price == nested_price_or0(m, "LowPrice"@)
    &&& e.offer.price == nested_price_or0(m, "Offer"@)
    &&& e.offer.size == nested_size_or0(m, "Offer"@)
    &&& e.open_interest.size == nested_size_or0(m, "OpenInterest"@)
    &&& e.opening_price.price == nested_price_or0(m, "OpeningPrice"@)
    &&& e.settlement_price.price == nested_price_or0(m, "SettlementPrice"@)
    &&& e.total_trade_volume.size == nested_size_or0(m, "TotalTradeVolume"@)
    &&& e.trade.price == nested_price_or0(m, "Trade"@)
}

/// The object holds what one quote snapshot requires.
pub open spec fn quote_parses(m: JsonModel) -> bool {
    &&& obj_int(m, "contractId"@) is Some
    &&& obj_int(m, "id"@) is Some
    &&& field_of(m, "entries"@) is Some
}

/// `q` is exactly the quote the object describes.
pub open spec fn quote_matches(m: JsonModel, q: Quote) -> bool {
    &&& obj_int(m, "contractId"@) == Some(q.contract_id)
    &&& obj_int(m, "id"@) == Some(q.id)
    &&& q.timestamp@ == obj_text_or_empty(m, "timestamp"@)
    &&& match field_of(m, "entries"@) {
        Some(em) => entries_matches(em, q.entries),
        None => false,
    }
}

pub open spec fn quotes_parse(es: Seq<JsonModel>) -> bool {
    forall|k: int| 0 <= k < es.len() ==> quote_parses(#[trigger] es[k])
}

/// The object holds everything a quote message requires.
pub open spec fn quote_message_parses(m: JsonModel) -> bool {
    &&& obj_text(m, "e"@) is Some
    &&& match field_of(m, "d"@) {
        Some(dm) => match field_of(dm, "quotes"@) {
            Some(qm) => qm is Arr && quotes_parse(elems_of(qm)),
            None => false,
        },
        None => false,
    }
}

/// `msg` is exactly the quote message the object describes.
pub open spec fn quote_message_matches(m: JsonModel, msg: QuoteMessage) -> bool {
    &&& obj_text(m, "e"@) == Some(msg.event@)
    &&& match field_of(m, "d"@) {
        Some(dm) => match field_of(dm, "quotes"@) {
            Some(qm) => msg.data.quotes@.len() == elems_of(qm).len() && (forall|k: int|
                0 <= k < msg.data.quotes@.len() ==> quote_matches(
                    elems_of(qm)[k],
                    #[trigger] msg.data.quotes@[k],
                )),
            None => false,
        },
        None => false,
    }
}

pub open spec fn quote_message_parse_rel(m: JsonModel, r: Option<QuoteMessage>) -> bool {
    match r {
        Some(msg) => quote_message_parses(m) && quote_message_matches(m, msg),
        None => !quote_message_parses(m),
    }
}

/// Read a quote snapshot message.
pub fn parse_quote_message(v: &serde_json::Value) -> (r: Option<QuoteMessage>)
    ensures
        quote_message_parse_rel(json_model(*v), r),
{
    let event = match get_string(v, "e") {
        Some(x) => x,
        None => {
            return None;
        },
    };
    let d = match json_get_field(v, "d") {
        Some(x) => x,
        None => {
            return None;
        },
    };
    let quotes_v = match json_get_field(d, "quotes") {
        Some(x) => x,
        None => {
            return None;
        },
    };
    let ghost qm = json_model(*quotes_v);
    let n = match json_array_len(quotes_v) {
        Some(x) => x,
        None => {
            return None;
        },
    };
    let ghost es = elems_of(qm);
    let mut quotes: Vec<Quote> = Vec::new();
    let mut i: usize = 0;
    while i < n
        invariant
            field_of(json_model(*v), "d"@) == Some(json_model(*d)),
            field_of(json_model(*d), "quotes"@) == Some(qm),
            qm == json_model(*quotes_v),
            qm is Arr,
            es == elems_of(qm),
            n == es.len(),
            0 <= i <= n,
            quotes@.len() == i,
            forall|k: int| 0 <= k < i ==> quote_parses(#[trigger] es[k]),
            forall|k: int| 0 <= k < i ==> quote_matches(es[k], #[trigger] quotes@[k]),
        decreases n - i,
    {
        let el = match json_get_index(quotes_v, i) {
            Some(x) => x,
            None => {
                proof {
                    assert(false);
                }
                return None;
            },
        };
        let contract_id = match get_i64(el, "contractId") {
            Some(x) => x,
            None => {
                proof {
                    assert(!quote_parses(es[i as int]));
                }
                return None;
            },
        };
        let id = match get_i64(el, "id") {
            Some(x) => x,
            None => {
                proof {
                    assert(!quote_parses(es[i as int]));
                }
                return None;
            },
        };
        let timestamp = get_string_or_empty(el, "timestamp");
        let entries_v = match json_get_field(el, "entries") {
            Some(x) => x,
            None => {
                proof {
                    assert(!quote_parses(es[i as int]));
                }
                return None;
            },
        };
        let entries = parse_entries(entries_v);
        quotes.push(Quote { contract_id, entries, id, timestamp });
        i = i + 1;
    }
    Some(QuoteMessage { data: D { quotes }, event })
}

fn parse_entries(v: &serde_json::Value) -> (r: Entries)
    ensures
        entries_matches(json_model(*v), r),
{
    let bid_v = json_get_field(v, "Bid");
    let offer_v = json_get_field(v, "Offer");
    let (bid_price, bid_size): (i64, i64) = match bid_v {
        Some(b) => (get_scaled_or_zero(b, "price"), get_i64_or_zero(b, "size")),
        None => (0, 0),
    };
    let (offer_price, offer_size): (i64, i64) = match offer_v {
        Some(o) => (get_scaled_or_zero(o, "price"), get_i64_or_zero(o, "size")),
        None => (0, 0),
    };
    Entries {
        bid: Bid { price: bid_price, size: bid_size },
        high_price: HighPrice { price: scaled_field(v, "HighPrice") },
        low_price: LowPrice { price: scaled_field(v, "LowPrice") },
        offer: Offer { price: offer_price, size: offer_size },
        open_interest: OpenInterest { size: size_field(v, "OpenInterest") },
        opening_price: OpeningPrice { price: scaled_field(v, "OpeningPrice") },
        settlement_price: SettlementPrice { price: scaled_field(v, "SettlementPrice") },
        total_trade_volume: TotalTradeVolume { size: size_field(v, "TotalTradeVolume") },
        trade: Trade { price: scaled_field(v, "Trade") },
    }
}

fn scaled_field(v: &serde_json::Value, key: &str) -> (r: i64)
    ensures
        r == nested_price_or0(json_model(*v), key@),
{
    match json_get_field(v, key) {
        Some(f) => get_scaled_or_zero(f, "price"),
        None => 0,
    }
}

fn size_field(v: &serde_json::Value, key: &str) -> (r: i64)
    ensures
        r == nested_size_or0(json_model(*v), key@),
{
    match json_get_field(v, key) {
        Some(f) => get_i64_or_zero(f, "size"),
        None => 0,
    }
}

/// The object holds what one book level requires, inside the wire bounds.
pub open spec fn level_parses(m: JsonModel) -> bool {
    &&& obj_scaled(m, "price"@) is Some
    &&& obj_qty(m, "size"@) is Some
}

pub open spec fn bid_level_matches(m: JsonModel, b: Bid) -> bool {
    &&& obj_scaled(m, "price"@) == Some(b.price)
    &&& obj_qty(m, "size"@) == Some(b.size)
}

pub open spec fn offer_level_matches(m: JsonModel, o: Offer) -> bool {
    &&& obj_scaled(m, "price"@) == Some(o.price)
    &&& obj_qty(m, "size"@) == Some(o.size)
}

pub open spec fn levels_parse(es: Seq<JsonModel>) -> bool {
    forall|k: int| 0 <= k < es.len() ==> level_parses(#[trigger] es[k])
}

pub open spec fn bid_levels_rel(m: JsonModel, r: Option<Vec<Bid>>) -> bool {
    match r {
        Some(ls) => m is Arr && levels_parse(elems_of(m)) && ls@.len() == elems_of(m).len()
            && (forall|k: int|
            0 <= k < ls@.len() ==> bid_level_matches(elems_of(m)[k], #[trigger] ls@[k])),
        None => !(m is Arr && levels_parse(elems_of(m))),
    }
}

pub open spec fn offer_levels_rel(m: JsonModel, r: Option<Vec<Offer>>) -> bool {
    match r {
        Some(ls) => m is Arr && levels_parse(elems_of(m)) && ls@.len() == elems_of(m).len()
            && (forall|k: int|
            0 <= k < ls@.len() ==> offer_level_matches(elems_of(m)[k], #[trigger] ls@[k])),
        None => !(m is Arr && levels_parse(elems_of(m))),
    }
}

fn parse_levels_bid(v: &serde_json::Value) -> (r: Option<Vec<Bid>>)
    ensures
        bid_levels_rel(json_model(*v), r),
        match r {
            Some(ls) => forall|i: int| 0 <= i < ls@.len() ==> 0 <= (#[trigger] ls@[i]).size
                <= MAX_QTY,
            None => true,
        },
{
    let ghost m = json_model(*v);
    let n = match json_array_len(v) {
        Some(x) => x,
        None => {
            return None;
        },
    };
    let ghost es = elems_of(m);
    let mut out: Vec<Bid> = Vec::new();
    let mut i: usize = 0;
    while i < n
        invariant
            m == json_model(*v),
            m is Arr,
            es == elems_of(m),
            n == es.len(),
            0 <= i <= n,
            out@.len() == i,
            forall|k: int| 0 <= k < i ==> level_parses(#[trigger] es[k]),
            forall|k: int| 0 <= k < i ==> bid_level_matches(es[k], #[trigger] out@[k]),
            forall|j: int| 0 <= j < out@.len() ==> 0 <= (#[trigger] out@[j]).size <= MAX_QTY,
        decreases n - i,
    {
        let el = match json_get_index(v, i) {
            Some(x) => x,
            None => {
                proof {
                    assert(false);
                }
                return None;
            },
        };
        let price = match get_scaled(el, "price") {
            Some(x) => x,
            None => {
                proof {
                    assert(!level_parses(es[i as int]));
                }
                return None;
            },
        };
        let size = match get_qty(el, "size") {
            Some(x) => x,
            None => {
                proof {
                    assert(!level_parses(es[i as int]));
                }
                return None;
            },
        };
        out.push(Bid { price, size });
        i = i + 1;
    }
    Some(out)
}

fn parse_levels_offer(v: &serde_json::Value) -> (r: Option<Vec<Offer>>)
    ensures
        offer_levels_rel(json_model(*v), r),
        match r {
            Some(ls) => forall|i: int| 0 <= i < ls@.len() ==> 0 <= (#[trigger] ls@[i]).size
                <= MAX_QTY,
            None => true,
        },
{
    let ghost m = json_model(*v);
    let n = match json_array_len(v) {
        Some(x) => x,
        None => {
            return None;
        },
    };
    let ghost es = elems_of(m);
    let mut out: Vec<Offer> = Vec::new();
    let mut i: usize = 0;
    while i < n
        invariant
            m == json_model(*v),
            m is Arr,
            es == elems_of(m),
            n == es.len(),
            0 <= i <= n,
            out@.len() == i,
            forall|k: int| 0 <= k < i ==> level_parses(#[trigger] es[k]),
            forall|k: int| 0 <= k < i ==> offer_level_matches(es[k], #[trigger] out@[k]),
            forall|j: int| 0 <= j < out@.len() ==> 0 <= (#[trigger] out@[j]).size <= MAX_QTY,
        decreases n - i,
    {
        let el = match json_get_index(v, i) {
            Some(x) => x,
            None => {
                proof {
                    assert(false);
                }
                return None;
            },
        };
        let price = match get_scaled(el, "price") {
            Some(x) => x,
            None => {
                proof {
                    assert(!level_parses(es[i as int]));
                }
                return None;
            },
        };
        let size = match get_qty(el, "size") {
            Some(x) => x,
            None => {
                proof {
                    assert(!level_parses(es[i as int]));
                }
                return None;
            },
        };
        out.push(Offer { price, size });
        i = i + 1;
    }
    Some(out)
}

/// The object holds what one book snapshot requires.
pub open spec fn dom_parses(m: JsonModel) -> bool {
    &&& obj_int(m, "contractId"@) is Some
    &&& match field_of(m, "bids"@) {
        Some(bm) => bm is Arr && levels_parse(elems_of(bm)),
        None => false,
    }
    &&& match field_of(m, "offers"@) {
        Some(om) => om is Arr && levels_parse(elems_of(om)),
        None => false,
    }
}

/// The timestamp a book snapshot resolves to: its RFC 3339 text when it
/// reads and lies in range, otherwise `now`.
pub open spec fn dom_ts(m: JsonModel, now: int) -> int {
    match rfc3339_millis_of(obj_text_or_empty(m, "timestamp"@)) {
        Some(t) => if -MAX_TIME_MS <= t <= MAX_TIME_MS {
            t as int
        } else {
            now
        },
        None => now,
    }
}

/// `dom` is exactly the book snapshot the object describes.
pub open spec fn dom_matches(m: JsonModel, dom: Dom, now: int) -> bool {
    &&& obj_int(m, "contractId"@) == Some(dom.contract_id)
    &&& dom.timestamp == dom_ts(m, now)
    &&& match field_of(m, "bids"@) {
        Some(bm) => dom.bids@.len() == elems_of(bm).len() && (forall|k: int|
            0 <= k < dom.bids@.len() ==> bid_level_matches(
                elems_of(bm)[k],
                #[trigger] dom.bids@[k],
            )),
        None => false,
    }
    &&& match field_of(m, "offers"@) {
        Some(om) => dom.offers@.len() == elems_of(om).len() && (forall|k: int|
            0 <= k < dom.offers@.len() ==> offer_level_matches(
                elems_of(om)[k],
                #[trigger] dom.offers@[k],
            )),
        None => false,
    }
}

pub open spec fn doms_parse(es: Seq<JsonModel>) -> bool {
    forall|k: int| 0 <= k < es.len() ==> dom_parses(#[trigger] es[k])
}

/// The object holds everything a depth message requires, with at least
/// one book.
pub open spec fn dom_message_parses(m: JsonModel) -> bool {
    &&& obj_text(m, "e"@) is Some
    &&& match field_of(m, "d"@) {
        Some(dm) => match field_of(dm, "doms"@) {
            Some(am) => am is Arr && elems_of(am).len() > 0 && doms_parse(elems_of(am)),
            None => false,
        },
        None => false,
    }
}

/// `msg` is exactly the depth message the object describes.
pub open spec fn dom_message_matches(m: JsonModel, msg: DOMMessage, now: int) -> bool {
    &&& obj_text(m, "e"@) == Some(msg.event@)
    &&& match field_of(m, "d"@) {
        Some(dm) => match field_of(dm, "doms"@) {
            Some(am) => msg.data.doms@.len() == elems_of(am).len() && (forall|k: int|
                0 <= k < msg.data.doms@.len() ==> dom_matches(
                    elems_of(am)[k],
                    #[trigger] msg.data.doms@[k],
                    now,
                )),
            None => false,
        },
        None => false,
    }
}

pub open spec fn dom_message_parse_rel(m: JsonModel, r: Option<DOMMessage>, now: int) -> bool {
    match r {
        Some(msg) => dom_message_parses(m) && dom_message_matches(m, msg, now) && msg.wf()
            && msg.data.doms@.len() > 0,
        None => !dom_message_parses(m),
    }
}

/// Read a depth message. Level sizes are range-checked; an unreadable or
/// out-of-range timestamp falls back to `now_ms`; a message without books
/// is malformed.
pub fn parse_dom_message(v: &serde_json::Value, now_ms: i64) -> (r: Option<DOMMessage>)
    requires
        -MAX_TIME_MS <= now_ms <= MAX_TIME_MS,
    ensures
        dom_message_parse_rel(json_model(*v), r, now_ms as int),
        match r {
            Some(m) => m.wf() && m.data.doms@.len() > 0,
            None => true,
        },
{
    let event = match get_string(v, "e") {
        Some(x) => x,
        None => {
            return None;
        },
    };
    let d = match json_get_field(v, "d") {
        Some(x) => x,
        None => {
            return None;
        },
    };
    let doms_v = match json_get_field(d, "doms") {
        Some(x) => x,
        None => {
            return None;
        },
    };
    let ghost am = json_model(*doms_v);
    let n = match json_array_len(doms_v) {
        Some(x) => x,
        None => {
            return None;
        },
    };
    if n == 0 {
        return None;
    }
    let ghost es = elems_of(am);
    let mut doms: Vec<Dom> = Vec::new();
    let mut i: usize = 0;
    while i < n
        invariant
            -MAX_TIME_MS <= now_ms <= MAX_TIME_MS,
            field_of(json_model(*v), "d"@) == Some(json_model(*d)),
            field_of(json_model(*d), "doms"@) == Some(am),
            am == json_model(*doms_v),
            am is Arr,
            es == elems_of(am),
            n == es.len(),
            0 <= i <= n,
            doms@.len() == i,
            forall|k: int| 0 <= k < i ==> dom_parses(#[trigger] es[k]),
            forall|k: int| 0 <= k < i ==> dom_matches(es[k], #[trigger] doms@[k], now_ms as int),
            forall|j: int| 0 <= j < doms@.len() ==> (#[trigger] doms@[j]).wf(),
        decreases n - i,
    {
        let el = match json_get_index(doms_v, i) {
            Some(x) => x,
            None => {
                proof {
                    assert(false);
                }
                return None;
            },
        };
        let contract_id = match get_i64(el, "contractId") {
            Some(x) => x,
            None => {
                proof {
                    assert(!dom_parses(es[i as int]));
                }
                return None;
            },
        };
        let bids_v = match json_get_field(el, "bids") {
            Some(x) => x,
            None => {
                proof {
                    assert(!dom_parses(es[i as int]));
                }
                return None;
            },
        };
        let offers_v = match json_get_field(el, "offers") {
            Some(x) => x,
            None => {
                proof {
                    assert(!dom_parses(es[i as int]));
                }
                return None;
            },
        };
        let bids = match parse_levels_bid(bids_v) {
            Some(x) => x,
            None => {
                proof {
                    assert(!dom_parses(es[i as int]));
                }
                return None;
            },
        };
        let offers = match parse_levels_offer(offers_v) {
            Some(x) => x,
            None => {
                proof {
                    assert(!dom_parses(es[i as int]));
                }
                return None;
            },
        };
        let ts_text = get_string_or_empty(el, "timestamp");
        let timestamp: i64 = match parse_rfc3339_millis(ts_text.as_str()) {
            Some(t) => if -MAX_TIME_MS <= t && t <= MAX_TIME_MS {
                t
            } else {
                now_ms
            },
            None => now_ms,
        };
        doms.push(Dom { bids, contract_id, offers, timestamp });
        i = i + 1;
    }
    Some(DOMMessage { data: DOMData { doms }, event })
}

/// The object holds what one relative trade event requires.
pub open spec fn tick_parses(m: JsonModel) -> bool {
    &&& obj_int(m, "id"@) is Some
    &&& obj_int(m, "p"@) is Some
    &&& obj_int(m, "s"@) is Some
    &&& obj_int(m, "t"@) is Some
}

/// `t` is exactly the relative trade event the object describes.
pub open spec fn tick_matches(m: JsonModel, t: Tick) -> bool {
    &&& obj_int(m, "id"@) == Some(t.tick_id)
    &&& obj_int(m, "p"@) == Some(t.relative_price)
    &&& obj_int(m, "s"@) == Some(t.tick_volume)
    &&& obj_int(m, "t"@) == Some(t.relative_timestamp)
    &&& t.ask_relative_price == obj_int_or0(m, "a"@)
    &&& t.ask_size == obj_int_or0(m, "as"@)
    &&& t.bid_relative_price == obj_int_or0(m, "b"@)
    &&& t.bid_size == obj_int_or0(m, "bs"@)
}

pub open spec fn ticks_parse(es: Seq<JsonModel>) -> bool {
    forall|k: int| 0 <= k < es.len() ==> tick_parses(#[trigger] es[k])
}

pub open spec fn ticks_list_rel(m: JsonModel, r: Option<Vec<Tick>>) -> bool {
    match r {
        Some(ls) => m is Arr && ticks_parse(elems_of(m)) && ls@.len() == elems_of(m).len()
            && (forall|k: int|
            0 <= k < ls@.len() ==> tick_matches(elems_of(m)[k], #[trigger] ls@[k])),
        None => !(m is Arr && ticks_parse(elems_of(m))),
    }
}

/// The object holds what one chart packet requires.
pub open spec fn chart_parses(m: JsonModel) -> bool {
    &&& obj_int(m, "bp"@) is Some
    &&& obj_int(m, "bt"@) is Some
    &&& obj_int(m, "id"@) is Some
    &&& obj_scaled(m, "ts"@) is Some
    &&& match field_of(m, "tks"@) {
        Some(tm) => tm is Arr && ticks_parse(elems_of(tm)),
        None => false,
    }
}

/// `c` is exactly the chart packet the object describes.
pub open spec fn chart_matches(m: JsonModel, c: Chart) -> bool {
    &&& obj_int(m, "bp"@) == Some(c.base_price)
    &&& obj_int(m, "bt"@) == Some(c.base_timestamp)
    &&& obj_int(m, "id"@) == Some(c.historical_id)
    &&& obj_scaled(m, "ts"@) == Some(c.tick_size)
    &&& c.symbol@ == obj_text_or_empty(m, "symbol"@)
    &&& c.contract_id == obj_int_or0(m, "contractId"@)
    &&& c.packet_data_source@ == obj_text_or_empty(m, "s"@)
    &&& c.trade_date == obj_int_or0(m, "td"@)
    &&& c.eoh == obj_bool_or_false(m, "eoh"@)
    &&& match field_of(m, "tks"@) {
        Some(tm) => c.ticks@.len() == elems_of(tm).len() && (forall|k: int|
            0 <= k < c.ticks@.len() ==> tick_matches(elems_of(tm)[k], #[trigger] c.ticks@[k])),
        None => false,
    }
}

pub open spec fn chart_list_parses(es: Seq<JsonModel>) -> bool {
    forall|k: int| 0 <= k < es.len() ==> chart_parses(#[trigger] es[k])
}

/// The object holds everything a tick-chart batch requires.
pub open spec fn tick_chart_parses(m: JsonModel) -> bool {
    &&& obj_text(m, "e"@) is Some
    &&& match field_of(m, "d"@) {
        Some(dm) => match field_of(dm, "charts"@) {
            Some(cm) => cm is Arr && chart_list_parses(elems_of(cm)),
            None => false,
        },
        None => false,
    }
}

/// `tc` is exactly the tick-chart batch the object describes.
pub open spec fn tick_chart_matches(m: JsonModel, tc: TickChart) -> bool {
    &&& obj_text(m, "e"@) == Some(tc.event@)
    &&& match field_of(m, "d"@) {
        Some(dm) => match field_of(dm, "charts"@) {
            Some(cm) => tc.data.charts@.len() == elems_of(cm).len() && (forall|k: int|
                0 <= k < tc.data.charts@.len() ==> chart_matches(
                    elems_of(cm)[k],
                    #[trigger] tc.data.charts@[k],
                )),
            None => false,
        },
        None => false,
    }
}

pub open spec fn tick_chart_parse_rel(m: JsonModel, r: Option<TickChart>) -> bool {
    match r {
        Some(tc) => tick_chart_parses(m) && tick_chart_matches(m, tc),
        None => !tick_chart_parses(m),
    }
}

/// Read a tick-chart batch; range validation happens when the packets are
/// resolved into trade events.
pub fn parse_tick_chart(v: &serde_json::Value) -> (r: Option<TickChart>)
    ensures
        tick_chart_parse_rel(json_model(*v), r),
{
    let event = match get_string(v, "e") {
        Some(x) => x,
        None => {
            return None;
        },
    };
    let d = match json_get_field(v, "d") {
        Some(x) => x,
        None => {
            return None;
        },
    };
    let charts_v = match json_get_field(d, "charts") {
        Some(x) => x,
        None => {
            return None;
        },
    };
    let ghost cm = json_model(*charts_v);
    let n = match json_array_len(charts_v) {
        Some(x) => x,
        None => {
            return None;
        },
    };
    let ghost es = elems_of(cm);
    let mut charts: Vec<Chart> = Vec::new();
    let mut i: usize = 0;
    while i < n
        invariant
            field_of(json_model(*v), "d"@) == Some(json_model(*d)),
            field_of(json_model(*d), "charts"@) == Some(cm),
            cm == json_model(*charts_v),
            cm is Arr,
            es == elems_of(cm),
            n == es.len(),
            0 <= i <= n,
            charts@.len() == i,
            forall|k: int| 0 <= k < i ==> chart_parses(#[trigger] es[k]),
            forall|k: int| 0 <= k < i ==> chart_matches(es[k], #[trigger] charts@[k]),
        decreases n - i,
    {
        let el = match json_get_index(charts_v, i) {
            Some(x) => x,
            None => {
                proof {
                    assert(false);
                }
                return None;
            },
        };
        let base_price = match get_i64(el, "bp") {
            Some(x) => x,
            None => {
                proof {
                    assert(!chart_parses(es[i as int]));
                }
                return None;
            },
        };
        let base_timestamp = match get_i64(el, "bt") {
            Some(x) => x,
            None => {
                proof {
                    assert(!chart_parses(es[i as int]));
                }
                return None;
            },
        };
        let historical_id = match get_i64(el, "id") {
            Some(x) => x,
            None => {
                proof {
                    assert(!chart_parses(es[i as int]));
                }
                return None;
            },
        };
        let tick_size = match get_scaled(el, "ts") {
            Some(x) => x,
            None => {
                proof {
                    assert(!chart_parses(es[i as int]));
                }
                return None;
            },
        };
        let tks_v = match json_get_field(el, "tks") {
            Some(x) => x,
            None => {
                proof {
                    assert(!chart_parses(es[i as int]));
                }
                return None;
            },
        };
        let ticks = match parse_ticks(tks_v) {
            Some(x) => x,
            None => {
                proof {
                    assert(!chart_parses(es[i as int]));
                }
                return None;
            },
        };
        charts.push(
            Chart {
                symbol: get_string_or_empty(el, "symbol"),
                contract_id: get_i64_or_zero(el, "contractId"),
                base_price,
                base_timestamp,
                historical_id,
                packet_data_source: get_string_or_empty(el, "s"),
                trade_date: get_i64_or_zero(el, "td"),
                ticks,
                tick_size,
                eoh: get_bool_or_false(el, "eoh"),
            },
        );
        i = i + 1;
    }
    Some(TickChart { data: ChartData { charts }, event })
}

fn parse_ticks(v: &serde_json::Value) -> (r: Option<Vec<Tick>>)
    ensures
        ticks_list_rel(json_model(*v), r),
{
    let ghost m = json_model(*v);
    let n = match json_array_len(v) {
        Some(x) => x,
        None => {
            return None;
        },
    };
    let ghost es = elems_of(m);
    let mut out: Vec<Tick> = Vec::new();
    let mut i: usize = 0;
    while i < n
        invariant
            m == json_model(*v),
            m is Arr,
            es == elems_of(m),
            n == es.len(),
            0 <= i <= n,
            out@.len() == i,
            forall|k: int| 0 <= k < i ==> tick_parses(#[trigger] es[k]),
            forall|k: int| 0 <= k < i ==> tick_matches(es[k], #[trigger] out@[k]),
        decreases n - i,
    {
        let el = match json_get_index(v, i) {
            Some(x) => x,
            None => {
                proof {
                    assert(false);
                }
                return None;
            },
        };
        let tick_id = match get_i64(el, "id") {
            Some(x) => x,
            None => {
                proof {
                    assert(!tick_parses(es[i as int]));
                }
                return None;
            },
        };
        let relative_price = match get_i64(el, "p") {
            Some(x) => x,
            None => {
                proof {
                    assert(!tick_parses(es[i as int]));
                }
                return None;
            },
        };
        let tick_volume = match get_i64(el, "s") {
            Some(x) => x,
            None => {
                proof {
                    assert(!tick_parses(es[i as int]));
                }
                return None;
            },
        };
        let relative_timestamp = match get_i64(el, "t") {
            Some(x) => x,
            None => {
                proof {
                    assert(!tick_parses(es[i as int]));
                }
                return None;
            },
        };
        out.push(
            Tick {
                ask_relative_price: get_i64_or_zero(el, "a"),
                ask_size: get_i64_or_zero(el, "as"),
                bid_relative_price: get_i64_or_zero(el, "b"),
                bid_size: get_i64_or_zero(el, "bs"),
                tick_id,
                relative_price,
                tick_volume,
                relative_timestamp,
            },
        );
        i = i + 1;
    }
    Some(out)
}

} // verus!
