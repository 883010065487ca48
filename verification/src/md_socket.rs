//! The market-data session: subscription requests and their lifecycle, the
//! session's outbound state, and the per-tick outbound drain plan.

use vstd::prelude::*;
use vstd::string::StringExecFns;

use crate::models::WebsocketResponse;
use crate::decimal::{dec_int, i64_to_string};
use crate::settings::HEARTBEAT_IDLE_MS;

verus! {

/// The kinds of market data a subscription can ask for.
#[derive(Debug, Clone, Copy, PartialEq, Eq, Structural)]
pub enum MarketData {
    DepthOfMarket,
    Quote,
    Histogram,
    Chart,
}

/// Lifecycle of one subscription request.
#[derive(Debug, Clone, Copy, PartialEq, Eq, Structural)]
pub enum RequestStatus {
    Sent,
    Unsent,
    Canceled,
}

/// One market-data subscription: what to subscribe to, for which symbol,
/// and the ids bound once the server acknowledges.
#[derive(Debug, Clone)]
pub struct MarketDataRequest {
    pub data_type: MarketData,
    pub symbol: String,
    pub status: RequestStatus,
    pub contract_id: i64,
    pub historical_id: i64,
}

/// The subscribe endpoint of a data kind.
pub open spec fn subscribe_endpoint(k: MarketData) -> Seq<char> {
    match k {
        MarketData::DepthOfMarket => "md/subscribeDOM"@,
        MarketData::Quote => "md/subscribeQuote"@,
        MarketData::Histogram => "md/subscribeHistogram"@,
        MarketData::Chart => "md/getChart"@,
    }
}

/// The unsubscribe endpoint of a data kind.
pub open spec fn unsubscribe_endpoint(k: MarketData) -> Seq<char> {
    match k {
        MarketData::DepthOfMarket => "md/unsubscribeDOM"@,
        MarketData::Quote => "md/unsubscribeQuote"@,
        MarketData::Histogram => "md/unsubscribeHistogram"@,
        MarketData::Chart => "md/cancelChart"@,
    }
}

/// The printed name of a data kind.
pub open spec fn data_kind_name(k: MarketData) -> Seq<char> {
    match k {
        MarketData::DepthOfMarket => "DepthOfMarket"@,
        MarketData::Quote => "Quote"@,
        MarketData::Histogram => "Histogram"@,
        MarketData::Chart => "Chart"@,
    }
}

/// The JSON body of a tick-chart request: one-tick bars back to the given
/// RFC 3339 timestamp.
pub open spec fn tick_chart_body_view(symbol: Seq<char>, as_far_ts: Seq<char>) -> Seq<char> {
    "{\"symbol\":\""@ + symbol
        + "\",\"chartDescription\":{\"underlyingType\":\"Tick\",\"elementSize\":1,\"elementSizeUnit\":\"UnderlyingUnits\"},\"timeRange\":{\"asFarAsTimestamp\":\""@
        + as_far_ts + "\"}}"@
}

/// Build the JSON body of a tick-chart request.
pub fn get_tick_chart_request_body(symbol: &String, as_far_ts: &String) -> (r: String)
    ensures
        r@ == tick_chart_body_view(symbol@, as_far_ts@),
{
    let mut s: String = String::from_str("{\"symbol\":\"");
    s.append(symbol.as_str());
    s.append(
        "\",\"chartDescription\":{\"underlyingType\":\"Tick\",\"elementSize\":1,\"elementSizeUnit\":\"UnderlyingUnits\"},\"timeRange\":{\"asFarAsTimestamp\":\"",
    );
    s.append(as_far_ts.as_str());
    s.append("\"}}");
    s
}

/// The framed subscribe request of a subscription under a request id.
pub open spec fn subscribe_view(
    req: MarketDataRequest,
    request_id: int,
    chart_from_ts: Seq<char>,
) -> Seq<char> {
    let body = if req.data_type is Chart {
        tick_chart_body_view(req.symbol@, chart_from_ts)
    } else {
        "{\"symbol\":\""@ + req.symbol@ + "\"}"@
    };
    subscribe_endpoint(req.data_type) + "\n"@ + dec_int(request_id) + "\n\n"@ + body
}

/// The framed unsubscribe request of a subscription under a request id.
pub open spec fn unsubscribe_view(req: MarketDataRequest, request_id: int) -> Seq<char> {
    let body = if req.data_type is Chart {
        "{\"subscriptionId\":"@ + dec_int(req.historical_id as int) + "}"@
    } else {
        "{\"symbol\":\""@ + req.symbol@ + "\"}"@
    };
    unsubscribe_endpoint(req.data_type) + "\n"@ + dec_int(request_id) + "\n\n"@ + body
}

impl MarketDataRequest {
    /// A new, unsent subscription for a symbol.
    pub fn new(data_type: MarketData, symbol: &str) -> (r: Self)
        ensures
            r.data_type == data_type,
            r.symbol@ == symbol@,
            r.status is Unsent,
            r.contract_id == 0,
            r.historical_id == 0,
    {
        MarketDataRequest {
            data_type,
            symbol: symbol.to_owned(),
            status: RequestStatus::Unsent,
            contract_id: 0,
            historical_id: 0,
        }
    }

    /// The framed subscribe request; chart subscriptions carry the
    /// caller-supplied window start timestamp.
    pub fn subscribe(&self, request_id: i32, chart_from_ts: &String) -> (r: String)
        ensures
            r@ == subscribe_view(*self, request_id as int, chart_from_ts@),
    {
        let endpoint: &str = match self.data_type {
            MarketData::DepthOfMarket => "md/subscribeDOM",
            MarketData::Quote => "md/subscribeQuote",
            MarketData::Histogram => "md/subscribeHistogram",
            MarketData::Chart => "md/getChart",
        };
        let body: String = if matches!(self.data_type, MarketData::Chart) {
            get_tick_chart_request_body(&self.symbol, chart_from_ts)
        } else {
            let mut b: String = String::from_str("{\"symbol\":\"");
            b.append(self.symbol.as_str());
            b.append("\"}");
            b
        };
        let mut s: String = endpoint.to_owned();
        s.append("\n");
        let id = i64_to_string(request_id as i64);
        s.append(id.as_str());
        s.append("\n\n");
        s.append(body.as_str());
        s
    }

    /// The framed unsubscribe request.
    pub fn unsubscribe(&self, request_id: i32) -> (r: String)
        ensures
            r@ == unsubscribe_view(*self, request_id as int),
    {
        let endpoint: &str = match self.data_type {
            MarketData::DepthOfMarket => "md/unsubscribeDOM",
            MarketData::Quote => "md/unsubscribeQuote",
            MarketData::Histogram => "md/unsubscribeHistogram",
            MarketData::Chart => "md/cancelChart",
        };
        let body: String = if matches!(self.data_type, MarketData::Chart) {
            let mut b: String = String::from_str("{\"subscriptionId\":");
            let hid = i64_to_string(self.historical_id);
            b.append(hid.as_str());
            b.append("}");
            b
        } else {
            let mut b: String = String::from_str("{\"symbol\":\"");
            b.append(self.symbol.as_str());
            b.append("\"}");
            b
        };
        let mut s: String = endpoint.to_owned();
        s.append("\n");
        let id = i64_to_string(request_id as i64);
        s.append(id.as_str());
        s.append("\n\n");
        s.append(body.as_str());
        s
    }

    pub fn is_unsent(&self) -> (r: bool)
        ensures
            r == (self.status is Unsent),
    {
        matches!(self.status, RequestStatus::Unsent)
    }

    pub fn is_sent(&self) -> (r: bool)
        ensures
            r == (self.status is Sent),
    {
        matches!(self.status, RequestStatus::Sent)
    }

    /// A short printable description: symbol, space, data kind.
    pub fn summarize(&self) -> (r: String)
        ensures
            r@ == self.symbol@ + " "@ + data_kind_name(self.data_type),
    {
        let mut s: String = self.symbol.clone();
        s.append(" ");
        match self.data_type {
            MarketData::DepthOfMarket => s.append("DepthOfMarket"),
            MarketData::Quote => s.append("Quote"),
            MarketData::Histogram => s.append("Histogram"),
            MarketData::Chart => s.append("Chart"),
        }
        s
    }
}

/// Outbound state of the market-data session.
#[derive(Debug, Clone)]
pub struct MarketDataOutgoing {
    pub outgoing_messages: Vec<String>,
    pub last_heart_beat_ms: i64,
    pub socket_close: bool,
    pub terminated: bool,
    pub data_requests: Vec<MarketDataRequest>,
    pub sent_requests: Vec<String>,
    pub received_closing_frame: bool,
}

impl MarketDataOutgoing {
    /// A fresh outbound state holding the planned subscriptions; the
    /// heartbeat timer starts at `now_ms`.
    pub fn new(data_requests: Vec<MarketDataRequest>, now_ms: i64) -> (r: Self)
        ensures
            r.outgoing_messages@ =~= Seq::<String>::empty(),
            r.last_heart_beat_ms == now_ms,
            r.socket_close == false,
            r.terminated == false,
            r.data_requests == data_requests,
            r.sent_requests@ =~= Seq::<String>::empty(),
            r.received_closing_frame == false,
    {
        MarketDataOutgoing {
            outgoing_messages: Vec::new(),
            last_heart_beat_ms: now_ms,
            socket_close: false,
            terminated: false,
            data_requests,
            sent_requests: Vec::new(),
            received_closing_frame: false,
        }
    }
}

/// Inbound protocol state of the market-data session.
#[derive(Debug, Clone)]
pub struct MarketDataIncoming {
    pub connection_established: bool,
    pub is_authorized: bool,
    pub request_responses: Vec<WebsocketResponse>,
}

impl MarketDataIncoming {
    pub fn new() -> (r: Self)
        ensures
            r.connection_established == false,
            r.is_authorized == false,
            r.request_responses@ =~= Seq::<WebsocketResponse>::empty(),
    {
        MarketDataIncoming {
            connection_established: false,
            request_responses: Vec::new(),
            is_authorized: false,
        }
    }
}

impl Default for MarketDataIncoming {
    fn default() -> (r: Self)
        ensures
            r.connection_established == false,
            r.is_authorized == false,
            r.request_responses@ =~= Seq::<WebsocketResponse>::empty(),
    {
        MarketDataIncoming::new()
    }
}

// THE OUTBOUND DRAIN PLAN

/// A heartbeat is due once the session has idled a full interval, and never
/// on a terminated or closing session.
pub open spec fn heartbeat_due(
    last_hb: int,
    now: int,
    terminated: bool,
    received_close: bool,
) -> bool {
    &&& now - last_hb >= HEARTBEAT_IDLE_MS
    &&& !terminated
    &&& !received_close
}

/// One planned outbound action of the market-data drain, in the order the
/// plan lists them. Payload texts are produced by the session's own
/// builders (`subscribe`, `unsubscribe`, the auth request); a heartbeat is
/// the empty-array frame.
#[derive(Debug, Clone, Copy, PartialEq, Eq, Structural)]
pub enum MdSend {
    Heartbeat,
    Queued { idx: usize },
    Auth,
    Subscribe { idx: usize },
    Unsubscribe { idx: usize },
    CloseFrame,
}

/// Planned sends for every still-unsent subscription, in order.
pub open spec fn subs_plan(reqs: Seq<MarketDataRequest>) -> Seq<MdSend>
    decreases reqs.len(),
{
    if reqs.len() == 0 {
        Seq::empty()
    } else {
        subs_plan(reqs.drop_last()) + if reqs.last().status is Unsent {
            seq![MdSend::Subscribe { idx: (reqs.len() - 1) as usize }]
        } else {
            Seq::empty()
        }
    }
}

/// Planned unsubscribes for every currently-sent subscription, in order.
pub open spec fn unsubs_plan(reqs: Seq<MarketDataRequest>) -> Seq<MdSend>
    decreases reqs.len(),
{
    if reqs.len() == 0 {
        Seq::empty()
    } else {
        unsubs_plan(reqs.drop_last()) + if reqs.last().status is Sent {
            seq![MdSend::Unsubscribe { idx: (reqs.len() - 1) as usize }]
        } else {
            Seq::empty()
        }
    }
}

/// Planned sends for the queued free-form messages, in order.
pub open spec fn queued_plan(n: int) -> Seq<MdSend> {
    Seq::new(n as nat, |i: int| MdSend::Queued { idx: i as usize })
}

/// The full outbound plan of one market-data drain tick: nothing on a
/// closing session; else a due heartbeat, the queued messages, the one-time
/// authorization, every unsent subscription once authorized, and the close
/// handshake when a close was requested.
pub open spec fn md_plan_spec(
    out: MarketDataOutgoing,
    inc: MarketDataIncoming,
    now: int,
) -> Seq<MdSend> {
    if out.received_closing_frame {
        Seq::empty()
    } else {
        (if heartbeat_due(
            out.last_heart_beat_ms as int,
            now,
            out.terminated,
            out.received_closing_frame,
        ) {
            seq![MdSend::Heartbeat]
        } else {
            Seq::empty()
        }) + (if out.outgoing_messages@.len() > 0 && !out.terminated {
            queued_plan(out.outgoing_messages@.len() as int)
        } else {
            Seq::empty()
        }) + (if inc.connection_established && out.sent_requests@.len() == 0 {
            seq![MdSend::Auth]
        } else {
            Seq::empty()
        }) + (if inc.is_authorized && out.sent_requests@.len() < out.data_requests@.len() + 2 {
            subs_plan(out.data_requests@)
        } else {
            Seq::empty()
        }) + (if out.socket_close {
            unsubs_plan(out.data_requests@) + seq![MdSend::CloseFrame]
        } else {
            Seq::empty()
        })
    }
}

/// Compute the outbound plan of this drain tick.
#[verifier::rlimit(90)]
pub fn md_drain_plan(out: &MarketDataOutgoing, inc: &MarketDataIncoming, now_ms: i64) -> (r:
    Vec<MdSend>)
    ensures
        r@ == md_plan_spec(*out, *inc, now_ms as int),
{
    let mut plan: Vec<MdSend> = Vec::new();
    if out.received_closing_frame {
        proof {
            assert(plan@ =~= md_plan_spec(*out, *inc, now_ms as int));
        }
        return plan;
    }
    if now_ms as i128 - out.last_heart_beat_ms as i128 >= HEARTBEAT_IDLE_MS as i128
        && !out.terminated && !out.received_closing_frame {
        plan.push(MdSend::Heartbeat);
    }
    let ghost after_hb = plan@;
    if out.outgoing_messages.len() > 0 && !out.terminated {
        let n = out.outgoing_messages.len();
        let mut i: usize = 0;
        while i < n
            invariant
                0 <= i <= n,
                plan@ == after_hb + queued_plan(i as int),
            decreases n - i,
        {
            plan.push(MdSend::Queued { idx: i });
            proof {
                assert(after_hb + queued_plan(i + 1) =~= (after_hb + queued_plan(i as int)).push(
                    MdSend::Queued { idx: i },
                ));
            }
            i = i + 1;
        }
    }
    let ghost after_queued = plan@;
    if inc.connection_established && out.sent_requests.len() == 0 {
        plan.push(MdSend::Auth);
    }
    let ghost after_auth = plan@;
    let room: bool = out.sent_requests.len() < out.data_requests.len()
        || out.sent_requests.len() - out.data_requests.len() < 2;
    proof {
        assert(room == (out.sent_requests@.len() < out.data_requests@.len() + 2));
    }
    if inc.is_authorized && room {
        let ghost reqs = out.data_requests@;
        let n = out.data_requests.len();
        let mut i: usize = 0;
        while i < n
            invariant
                reqs == out.data_requests@,
                n == reqs.len(),
                0 <= i <= n,
                plan@ == after_auth + subs_plan(reqs.take(i as int)),
            decreases n - i,
        {
            proof {
                assert(reqs.take(i + 1).drop_last() =~= reqs.take(i as int));
                assert(reqs.take(i + 1).last() == reqs[i as int]);
            }
            if out.data_requests[i].is_unsent() {
                plan.push(MdSend::Subscribe { idx: i });
            }
            i = i + 1;
        }
        proof {
            assert(reqs.take(reqs.len() as int) =~= reqs);
        }
    }
    let ghost after_subs = plan@;
    if out.socket_close {
        let ghost reqs = out.data_requests@;
        let n = out.data_requests.len();
        let mut i: usize = 0;
        while i < n
            invariant
                reqs == out.data_requests@,
                n == reqs.len(),
                0 <= i <= n,
                plan@ == after_subs + unsubs_plan(reqs.take(i as int)),
            decreases n - i,
        {
            proof {
                assert(reqs.take(i + 1).drop_last() =~= reqs.take(i as int));
                assert(reqs.take(i + 1).last() == reqs[i as int]);
            }
            if out.data_requests[i].is_sent() {
                plan.push(MdSend::Unsubscribe { idx: i });
            }
            i = i + 1;
        }
        proof {
            assert(reqs.take(reqs.len() as int) =~= reqs);
        }
        plan.push(MdSend::CloseFrame);
    }
    proof {
        let spec_hb = if heartbeat_due(
            out.last_heart_beat_ms as int,
            now_ms as int,
            out.terminated,
            out.received_closing_frame,
        ) {
            seq![MdSend::Heartbeat]
        } else {
            Seq::<MdSend>::empty()
        };
        let spec_q = if out.outgoing_messages@.len() > 0 && !out.terminated {
            queued_plan(out.outgoing_messages@.len() as int)
        } else {
            Seq::<MdSend>::empty()
        };
        let spec_au = if inc.connection_established && out.sent_requests@.len() == 0 {
            seq![MdSend::Auth]
        } else {
            Seq::<MdSend>::empty()
        };
        let spec_sb = if inc.is_authorized && out.sent_requests@.len() < out.data_requests@.len()
            + 2 {
            subs_plan(out.data_requests@)
        } else {
            Seq::<MdSend>::empty()
        };
        let spec_cl = if out.socket_close {
            unsubs_plan(out.data_requests@) + seq![MdSend::CloseFrame]
        } else {
            Seq::<MdSend>::empty()
        };
        assert(after_hb =~= spec_hb);
        assert(after_queued =~= after_hb + spec_q);
        assert(after_auth =~= after_queued + spec_au);
        assert(after_subs =~= after_auth + spec_sb);
        assert(plan@ =~= after_subs + spec_cl);
        assert(plan@ =~= spec_hb + spec_q + spec_au + spec_sb + spec_cl);
        assert(plan@ =~= md_plan_spec(*out, *inc, now_ms as int));
    }
    plan
}

/// Record a sent heartbeat: the idle timer restarts now.
pub fn md_note_heartbeat_sent(out: &mut MarketDataOutgoing, now_ms: i64)
    ensures
        final(out).last_heart_beat_ms == now_ms,
        final(out).outgoing_messages == old(out).outgoing_messages,
        final(out).socket_close == old(out).socket_close,
        final(out).terminated == old(out).terminated,
        final(out).data_requests == old(out).data_requests,
        final(out).sent_requests == old(out).sent_requests,
        final(out).received_closing_frame == old(out).received_closing_frame,
{
    out.last_heart_beat_ms = now_ms;
}

/// Record that every queued free-form message was attempted: the queue is
/// cleared whatever the outcomes were.
pub fn md_note_outgoing_drained(out: &mut MarketDataOutgoing)
    ensures
        final(out).outgoing_messages@ =~= Seq::<String>::empty(),
        final(out).last_heart_beat_ms == old(out).last_heart_beat_ms,
        final(out).socket_close == old(out).socket_close,
        final(out).terminated == old(out).terminated,
        final(out).data_requests == old(out).data_requests,
        final(out).sent_requests == old(out).sent_requests,
        final(out).received_closing_frame == old(out).received_closing_frame,
{
    out.outgoing_messages = Vec::new();
}

/// Record a sent authorization request in the audit list.
pub fn md_note_auth_sent(out: &mut MarketDataOutgoing, request: String)
    ensures
        final(out).sent_requests@ == old(out).sent_requests@.push(request),
        final(out).outgoing_messages == old(out).outgoing_messages,
        final(out).last_heart_beat_ms == old(out).last_heart_beat_ms,
        final(out).socket_close == old(out).socket_close,
        final(out).terminated == old(out).terminated,
        final(out).data_requests == old(out).data_requests,
        final(out).received_closing_frame == old(out).received_closing_frame,
{
    out.sent_requests.push(request);
}

/// Record a sent subscribe request: the subscription is marked sent and the
/// request text audited.
pub fn md_note_subscribe_sent(out: &mut MarketDataOutgoing, idx: usize, request: String)
    requires
        idx < old(out).data_requests@.len(),
    ensures
        final(out).data_requests@.len() == old(out).data_requests@.len(),
        final(out).data_requests@[idx as int].status is Sent,
        final(out).data_requests@[idx as int].data_type == old(out).data_requests@[idx as int].data_type,
        final(out).data_requests@[idx as int].symbol == old(out).data_requests@[idx as int].symbol,
        final(out).data_requests@[idx as int].contract_id == old(out).data_requests@[idx as int].contract_id,
        final(out).data_requests@[idx as int].historical_id == old(out).data_requests@[idx as int].historical_id,
        forall|k: int|
            0 <= k < old(out).data_requests@.len() && k != idx ==> final(out).data_requests@[k]
                == old(out).data_requests@[k],
        final(out).sent_requests@ == old(out).sent_requests@.push(request),
        final(out).outgoing_messages == old(out).outgoing_messages,
        final(out).last_heart_beat_ms == old(out).last_heart_beat_ms,
        final(out).socket_close == old(out).socket_close,
        final(out).terminated == old(out).terminated,
        final(out).received_closing_frame == old(out).received_closing_frame,
{
    let r = &out.data_requests[idx];
    let updated = MarketDataRequest {
        data_type: r.data_type,
        symbol: r.symbol.clone(),
        status: RequestStatus::Sent,
        contract_id: r.contract_id,
        historical_id: r.historical_id,
    };
    out.data_requests.set(idx, updated);
    out.sent_requests.push(request);
}

/// Record a sent unsubscribe request: the subscription is marked canceled.
pub fn md_note_unsubscribe_sent(out: &mut MarketDataOutgoing, idx: usize)
    requires
        idx < old(out).data_requests@.len(),
    ensures
        final(out).data_requests@.len() == old(out).data_requests@.len(),
        final(out).data_requests@[idx as int].status is Canceled,
        final(out).data_requests@[idx as int].data_type == old(out).data_requests@[idx as int].data_type,
        final(out).data_requests@[idx as int].symbol == old(out).data_requests@[idx as int].symbol,
        final(out).data_requests@[idx as int].contract_id == old(out).data_requests@[idx as int].contract_id,
        final(out).data_requests@[idx as int].historical_id == old(out).data_requests@[idx as int].historical_id,
        forall|k: int|
            0 <= k < old(out).data_requests@.len() && k != idx ==> final(out).data_requests@[k]
                == old(out).data_requests@[k],
        final(out).sent_requests == old(out).sent_requests,
        final(out).outgoing_messages == old(out).outgoing_messages,
        final(out).last_heart_beat_ms == old(out).last_heart_beat_ms,
        final(out).socket_close == old(out).socket_close,
        final(out).terminated == old(out).terminated,
        final(out).received_closing_frame == old(out).received_closing_frame,
{
    let r = &out.data_requests[idx];
    let updated = MarketDataRequest {
        data_type: r.data_type,
        symbol: r.symbol.clone(),
        status: RequestStatus::Canceled,
        contract_id: r.contract_id,
        historical_id: r.historical_id,
    };
    out.data_requests.set(idx, updated);
}

/// Record that the close handshake was issued: the close request is no
/// longer pending.
pub fn md_note_close_attempted(out: &mut MarketDataOutgoing)
    ensures
        final(out).socket_close == false,
        final(out).outgoing_messages == old(out).outgoing_messages,
        final(out).last_heart_beat_ms == old(out).last_heart_beat_ms,
        final(out).terminated == old(out).terminated,
        final(out).data_requests == old(out).data_requests,
        final(out).sent_requests == old(out).sent_requests,
        final(out).received_closing_frame == old(out).received_closing_frame,
{
    out.socket_close = false;
}

proof fn lemma_contains_concat<A>(a: Seq<A>, b: Seq<A>, x: A)
    ensures
        (a + b).contains(x) <==> a.contains(x) || b.contains(x),
{
    if (a + b).contains(x) {
        let i = choose|i: int| 0 <= i < (a + b).len() && (a + b)[i] == x;
        if i < a.len() {
            assert(a[i] == x);
        } else {
            assert(b[i - a.len()] == x);
        }
    }
    if a.contains(x) {
        let i = choose|i: int| 0 <= i < a.len() && a[i] == x;
        assert((a + b)[i] == x);
    }
    if b.contains(x) {
        let i = choose|i: int| 0 <= i < b.len() && b[i] == x;
        assert((a + b)[a.len() + i] == x);
    }
}

proof fn lemma_subs_plan_no_heartbeat(reqs: Seq<MarketDataRequest>)
    ensures
        !subs_plan(reqs).contains(MdSend::Heartbeat),
        !unsubs_plan(reqs).contains(MdSend::Heartbeat),
    decreases reqs.len(),
{
    if reqs.len() > 0 {
        lemma_subs_plan_no_heartbeat(reqs.drop_last());
        lemma_contains_concat(
            subs_plan(reqs.drop_last()),
            if reqs.last().status is Unsent {
                seq![MdSend::Subscribe { idx: (reqs.len() - 1) as usize }]
            } else {
                Seq::empty()
            },
            MdSend::Heartbeat,
        );
        lemma_contains_concat(
            unsubs_plan(reqs.drop_last()),
            if reqs.last().status is Sent {
                seq![MdSend::Unsubscribe { idx: (reqs.len() - 1) as usize }]
            } else {
                Seq::empty()
            },
            MdSend::Heartbeat,
        );
    }
}

/// The market-data drain sends a heartbeat on a tick exactly when the
/// session has idled a full interval and is neither terminated nor being
/// closed by the peer.
pub proof fn lemma_md_heartbeat_iff(out: MarketDataOutgoing, inc: MarketDataIncoming, now: int)
    ensures
        md_plan_spec(out, inc, now).contains(MdSend::Heartbeat) <==> (now
            - out.last_heart_beat_ms >= HEARTBEAT_IDLE_MS && !out.terminated
            && !out.received_closing_frame),
{
    let hb = if heartbeat_due(
        out.last_heart_beat_ms as int,
        now,
        out.terminated,
        out.received_closing_frame,
    ) {
        seq![MdSend::Heartbeat]
    } else {
        Seq::<MdSend>::empty()
    };
    let queued = if out.outgoing_messages@.len() > 0 && !out.terminated {
        queued_plan(out.outgoing_messages@.len() as int)
    } else {
        Seq::<MdSend>::empty()
    };
    let auth = if inc.connection_established && out.sent_requests@.len() == 0 {
        seq![MdSend::Auth]
    } else {
        Seq::<MdSend>::empty()
    };
    let subs = if inc.is_authorized && out.sent_requests@.len() < out.data_requests@.len() + 2 {
        subs_plan(out.data_requests@)
    } else {
        Seq::<MdSend>::empty()
    };
    let close = if out.socket_close {
        unsubs_plan(out.data_requests@) + seq![MdSend::CloseFrame]
    } else {
        Seq::<MdSend>::empty()
    };
    if !out.received_closing_frame {
        lemma_contains_concat(hb + queued + auth + subs, close, MdSend::Heartbeat);
        lemma_contains_concat(hb + queued + auth, subs, MdSend::Heartbeat);
        lemma_contains_concat(hb + queued, auth, MdSend::Heartbeat);
        lemma_contains_concat(hb, queued, MdSend::Heartbeat);
        lemma_subs_plan_no_heartbeat(out.data_requests@);
        if out.socket_close {
            lemma_contains_concat(
                unsubs_plan(out.data_requests@),
                seq![MdSend::CloseFrame],
                MdSend::Heartbeat,
            );
        }
        assert(!queued.contains(MdSend::Heartbeat)) by {
            if queued.contains(MdSend::Heartbeat) {
                let i = choose|i: int| 0 <= i < queued.len() && queued[i] == MdSend::Heartbeat;
            }
        }
        if heartbeat_due(
            out.last_heart_beat_ms as int,
            now,
            out.terminated,
            out.received_closing_frame,
        ) {
            assert(hb[0] == MdSend::Heartbeat);
            assert(hb.contains(MdSend::Heartbeat));
        }
    }
}

} // verus!
