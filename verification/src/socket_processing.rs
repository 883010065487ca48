//! The consolidated market view: latest quote, one live depth snapshot per
//! contract, and the append-only, time-ordered trade-tick store.

use vstd::multiset::Multiset;
use vstd::prelude::*;
use vstd::seq_lib::lemma_multiset_commutative;
use vstd::string::StrSliceExecFns;
use vstd::string::StringExecFns;

use crate::decode::{
    dom_message_matches, dom_message_parse_rel, dom_message_parses, get_i64, get_string,
    parse_dom_message, parse_quote_message, parse_tick_chart, parse_ws_response,
    quote_message_matches, quote_message_parse_rel, quote_message_parses,
    tick_chart_matches, tick_chart_parse_rel, tick_chart_parses, ws_response_matches,
    ws_response_parse_rel, ws_response_parses,
};
use crate::md_socket::{MarketDataIncoming, MarketDataOutgoing};
use crate::models::{
    charts_items_spec, charts_ok, ContractID, DOMMessage, QuoteMessage, TickChart,
    WebsocketResponse,
};
use crate::outside::{
    elems_of, field_of, fields_of, json_array_len, json_first_key, json_get_field,
    json_get_index, json_model, json_object_len, json_of_text, json_parse, obj_int, obj_text,
    JsonModel,
};
use crate::settings::MAX_TIME_MS;
use crate::time_and_sales::{items_wf, TimeAndSalesCollection, TimeAndSalesItem};

verus! {

/// Ticks ordered by their event timestamp.
pub open spec fn sorted_by_ts(s: Seq<TimeAndSalesItem>) -> bool {
    forall|i: int, j: int| 0 <= i < j < s.len() ==> s[i].timestamp <= s[j].timestamp
}

/// Sort a batch of ticks by timestamp (stable: equal timestamps keep their
/// order); the result holds exactly the input's ticks.
pub fn sort_ticks(v: Vec<TimeAndSalesItem>) -> (r: Vec<TimeAndSalesItem>)
    ensures
        sorted_by_ts(r@),
        r@.to_multiset() == v@.to_multiset(),
        r@.len() == v@.len(),
        items_wf(v@) ==> items_wf(r@),
{
    let ghost s = v@;
    let mut out: Vec<TimeAndSalesItem> = Vec::new();
    proof {
        assert(s.take(0) =~= Seq::<TimeAndSalesItem>::empty());
        assert(s.take(0).to_multiset() =~= Seq::<TimeAndSalesItem>::empty().to_multiset());
    }
    for i in 0..v.len()
        invariant
            s == v@,
            sorted_by_ts(out@),
            out@.to_multiset() == s.take(i as int).to_multiset(),
            out@.len() == i,
    {
        let it = v[i];
        let mut j: usize = 0;
        while j < out.len() && out[j].timestamp <= it.timestamp
            invariant
                0 <= j <= out@.len(),
                forall|k: int| 0 <= k < j ==> out@[k].timestamp <= it.timestamp,
            decreases out@.len() - j,
        {
            j = j + 1;
        }
        let ghost before = out@;
        out.insert(j, it);
        proof {
            assert(out@ =~= before.take(j as int) + seq![it] + before.skip(j as int));
            assert(before =~= before.take(j as int) + before.skip(j as int));
            lemma_multiset_commutative(before.take(j as int), before.skip(j as int));
            lemma_multiset_commutative(before.take(j as int) + seq![it], before.skip(j as int));
            lemma_multiset_commutative(before.take(j as int), seq![it]);
            assert(seq![it].to_multiset() =~= Multiset::<TimeAndSalesItem>::empty().insert(it))
                by {
                assert(seq![it] =~= Seq::<TimeAndSalesItem>::empty().push(it));
                Seq::<TimeAndSalesItem>::empty().to_multiset_ensures();
            }
            assert(out@.to_multiset() =~= before.to_multiset().insert(it));
            assert(s.take(i + 1).drop_last() =~= s.take(i as int));
            assert(s.take(i + 1) =~= s.take(i as int).push(it));
            s.take(i as int).to_multiset_ensures();
            assert(s.take(i + 1).to_multiset() =~= s.take(i as int).to_multiset().insert(it));
            // Sortedness: everything before position j is <= it, everything
            // after was > it or came after a larger element.
            assert forall|a: int, b: int| 0 <= a < b < out@.len() implies out@[a].timestamp
                <= out@[b].timestamp by {
                if a < j && b == j {
                } else if a == j && b > j {
                    assert(out@[b] == before[b - 1]);
                    if j < before.len() {
                        assert(before[j as int].timestamp > it.timestamp);
                    }
                } else if a < j && b > j {
                    assert(out@[a] == before[a]);
                    assert(out@[b] == before[b - 1]);
                } else if a > j && b > j {
                    assert(out@[a] == before[a - 1]);
                    assert(out@[b] == before[b - 1]);
                }
            }
        }
    }
    proof {
        assert(s.take(s.len() as int) =~= s);
        if items_wf(s) {
            broadcast use vstd::seq_lib::group_to_multiset_ensures;

            assert forall|i: int| 0 <= i < out@.len() implies (#[trigger] out@[i]).wf() by {
                assert(out@.contains(out@[i]));
                assert(out@.to_multiset().count(out@[i]) > 0);
                assert(s.contains(out@[i]));
                let j = choose|j: int| 0 <= j < s.len() && s[j] == out@[i];
                assert(s[j].wf());
            }
        }
    }
    out
}

/// Index of the first depth message whose first book belongs to the given
/// contract, scanning from `i`.
pub open spec fn first_depth_idx(mds: Seq<DOMMessage>, contract_id: int, i: int) -> Option<int>
    decreases mds.len() - i when 0 <= i <= mds.len()
{
    if i >= mds.len() {
        None
    } else if mds[i].data.doms@.len() > 0 && mds[i].data.doms@[0].contract_id == contract_id {
        Some(i)
    } else {
        first_depth_idx(mds, contract_id, i + 1)
    }
}

/// Index of the first contract descriptor with the given contract id,
/// scanning from `i`.
pub open spec fn first_contract_idx(cs: Seq<ContractID>, id: int, i: int) -> Option<int>
    decreases cs.len() - i when 0 <= i <= cs.len()
{
    if i >= cs.len() {
        None
    } else if cs[i].id == id {
        Some(i)
    } else {
        first_contract_idx(cs, id, i + 1)
    }
}

/// The per-process consolidated view of the market.
#[derive(Debug, Clone)]
pub struct MarketData {
    pub quote: Option<QuoteMessage>,
    pub market_depth: Vec<DOMMessage>,
    pub time_and_sales: TimeAndSalesCollection,
    pub contract_ids: Vec<ContractID>,
}

impl MarketData {
    pub open spec fn wf(self) -> bool {
        &&& forall|i: int|
            0 <= i < self.market_depth@.len() ==> (#[trigger] self.market_depth@[i]).wf()
        &&& self.time_and_sales.wf()
        &&& forall|i: int|
            0 <= i < self.contract_ids@.len() ==> (#[trigger] self.contract_ids@[i]).wf()
    }

    /// A fresh view over the given resolved contracts.
    pub fn new(contract_ids: Vec<ContractID>) -> (r: Self)
        requires
            forall|i: int| 0 <= i < contract_ids@.len() ==> (#[trigger] contract_ids@[i]).wf(),
        ensures
            r.quote is None,
            r.market_depth@ =~= Seq::<DOMMessage>::empty(),
            r.time_and_sales.items@ =~= Seq::<TimeAndSalesItem>::empty(),
            r.contract_ids == contract_ids,
            r.wf(),
    {
        MarketData {
            quote: None,
            market_depth: Vec::new(),
            time_and_sales: TimeAndSalesCollection::new(),
            contract_ids,
        }
    }

    /// Replace the current quote snapshot.
    pub fn apply_quote(&mut self, q: QuoteMessage)
        requires
            old(self).wf(),
        ensures
            final(self).quote == Some(q),
            final(self).market_depth == old(self).market_depth,
            final(self).time_and_sales == old(self).time_and_sales,
            final(self).contract_ids == old(self).contract_ids,
            final(self).wf(),
    {
        self.quote = Some(q);
    }

    /// Install a depth message: a new snapshot for a contract replaces the
    /// previous one for the same contract, never appends beside it.
    pub fn apply_depth(&mut self, m: DOMMessage)
        requires
            old(self).wf(),
            m.wf(),
            m.data.doms@.len() > 0,
        ensures
            final(self).market_depth@ == match first_depth_idx(
                old(self).market_depth@,
                m.data.doms@[0].contract_id as int,
                0,
            ) {
                Some(i) => old(self).market_depth@.update(i, m),
                None => old(self).market_depth@.push(m),
            },
            final(self).quote == old(self).quote,
            final(self).time_and_sales == old(self).time_and_sales,
            final(self).contract_ids == old(self).contract_ids,
            final(self).wf(),
    {
        let ghost mds = old(self).market_depth@;
        let key: i64 = m.data.doms[0].contract_id;
        let n = self.market_depth.len();
        let mut i: usize = 0;
        while i < n
            invariant
                self.market_depth@ == mds,
                mds == old(self).market_depth@,
                self.quote == old(self).quote,
                self.time_and_sales == old(self).time_and_sales,
                self.contract_ids == old(self).contract_ids,
                old(self).wf(),
                m.wf(),
                m.data.doms@.len() > 0,
                key == m.data.doms@[0].contract_id,
                n == mds.len(),
                0 <= i <= n,
                first_depth_idx(mds, key as int, 0) == first_depth_idx(mds, key as int, i as int),
            decreases n - i,
        {
            let hit: bool = self.market_depth[i].data.doms.len() > 0
                && self.market_depth[i].data.doms[0].contract_id == key;
            if hit {
                proof {
                    assert(first_depth_idx(mds, key as int, i as int) == Some(i as int));
                }
                self.market_depth.set(i, m);
                proof {
                    assert forall|k: int|
                        0 <= k < self.market_depth@.len() implies (#[trigger] self
                        .market_depth@[k]).wf() by {
                        if k != i {
                            assert(self.market_depth@[k] == mds[k]);
                        }
                    }
                }
                return ;
            }
            i = i + 1;
        }
        proof {
            assert(first_depth_idx(mds, key as int, n as int) is None);
        }
        self.market_depth.push(m);
        proof {
            assert forall|k: int|
                0 <= k < self.market_depth@.len() implies (#[trigger] self.market_depth@[k]).wf()
                by {
                if k < mds.len() {
                    assert(self.market_depth@[k] == mds[k]);
                }
            }
        }
    }

    /// Append a sorted batch of ticks to the trade store.
    pub fn append_ticks(&mut self, items: Vec<TimeAndSalesItem>)
        requires
            old(self).wf(),
            items_wf(items@),
            sorted_by_ts(items@),
        ensures
            final(self).time_and_sales.items@ == old(self).time_and_sales.items@ + items@,
            final(self).quote == old(self).quote,
            final(self).market_depth == old(self).market_depth,
            final(self).contract_ids == old(self).contract_ids,
            final(self).wf(),
    {
        let ghost old_items = self.time_and_sales.items@;
        let ghost batch = items@;
        let mut rest = items;
        self.time_and_sales.items.append(&mut rest);
        proof {
            assert(self.time_and_sales.items@ =~= old_items + batch);
            assert forall|i: int|
                0 <= i < self.time_and_sales.items@.len() implies (#[trigger] self
                .time_and_sales.items@[i]).wf() by {
                if i < old_items.len() {
                    assert(self.time_and_sales.items@[i] == old_items[i]);
                } else {
                    assert(self.time_and_sales.items@[i] == batch[i - old_items.len()]);
                }
            }
        }
    }

    /// Bind the subscription (historical) id assigned by the server to every
    /// contract descriptor with the given symbol.
    pub fn bind_historical_id(&mut self, symbol: &String, historical_id: i64)
        requires
            old(self).wf(),
        ensures
            final(self).contract_ids@.len() == old(self).contract_ids@.len(),
            forall|j: int|
                0 <= j < old(self).contract_ids@.len() ==> final(self).contract_ids@[j]
                    == if old(self).contract_ids@[j].symbol@ == symbol@ {
                    (ContractID { historical_id, ..old(self).contract_ids@[j] })
                } else {
                    old(self).contract_ids@[j]
                },
            final(self).quote == old(self).quote,
            final(self).market_depth == old(self).market_depth,
            final(self).time_and_sales == old(self).time_and_sales,
            final(self).wf(),
    {
        let n = self.contract_ids.len();
        let mut i: usize = 0;
        while i < n
            invariant
                n == self.contract_ids@.len(),
                n == old(self).contract_ids@.len(),
                0 <= i <= n,
                forall|j: int|
                    0 <= j < n ==> (#[trigger] old(self).contract_ids@[j]).wf(),
                forall|j: int|
                    i <= j < n ==> self.contract_ids@[j] == old(self).contract_ids@[j],
                forall|j: int|
                    0 <= j < i ==> self.contract_ids@[j] == if old(
                        self,
                    ).contract_ids@[j].symbol@ == symbol@ {
                        (ContractID { historical_id, ..old(self).contract_ids@[j] })
                    } else {
                        old(self).contract_ids@[j]
                    },
                self.quote == old(self).quote,
                self.market_depth == old(self).market_depth,
                self.time_and_sales == old(self).time_and_sales,
                old(self).wf(),
            decreases n - i,
        {
            if self.contract_ids[i].symbol == *symbol {
                let c = &self.contract_ids[i];
                let updated = ContractID {
                    contract_maturity_id: c.contract_maturity_id,
                    id: c.id,
                    symbol: c.symbol.clone(),
                    provider_tick_size: c.provider_tick_size,
                    status: c.status.clone(),
                    historical_id,
                    big_point_value: c.big_point_value,
                };
                proof {
                    assert(old(self).contract_ids@[i as int].symbol@ == symbol@);
                    assert(updated == (ContractID {
                        historical_id,
                        ..old(self).contract_ids@[i as int]
                    }));
                }
                self.contract_ids.set(i, updated);
            } else {
                proof {
                    assert(old(self).contract_ids@[i as int].symbol@ != symbol@);
                }
            }
            i = i + 1;
        }
        proof {
            assert forall|j: int|
                0 <= j < self.contract_ids@.len() implies (#[trigger] self.contract_ids@[j]).wf()
                by {
                assert(old(self).contract_ids@[j].wf());
            }
        }
    }

    /// Index of the first contract descriptor with the given contract id.
    pub fn find_contract_by_id(&self, id: i64) -> (r: Option<usize>)
        ensures
            match r {
                Some(i) => first_contract_idx(self.contract_ids@, id as int, 0) == Some(i as int)
                    && i < self.contract_ids@.len() && self.contract_ids@[i as int].id == id,
                None => first_contract_idx(self.contract_ids@, id as int, 0) is None,
            },
    {
        let n = self.contract_ids.len();
        let mut i: usize = 0;
        while i < n
            invariant
                n == self.contract_ids@.len(),
                0 <= i <= n,
                first_contract_idx(self.contract_ids@, id as int, 0) == first_contract_idx(
                    self.contract_ids@,
                    id as int,
                    i as int,
                ),
            decreases n - i,
        {
            if self.contract_ids[i].id == id {
                return Some(i);
            }
            i = i + 1;
        }
        None
    }
}

// INBOUND FRAMES

/// What a raw inbound frame is, by its leading control character.
#[derive(Debug, Clone)]
pub enum FrameKind {
    /// `'o'`: the connection's open acknowledgment.
    Open,
    /// `'h'`: a heartbeat, a no-op.
    HeartbeatFrame,
    /// `'a'`: a data frame; the payload is the rest of the text.
    DataFrame(String),
    /// Empty, or any other leading character: logged and discarded.
    OtherFrame,
}

/// Classify a raw text frame by its leading control character.
pub fn classify_frame(msg: &str) -> (r: FrameKind)
    ensures
        match r {
            FrameKind::Open => msg@.len() > 0 && msg@[0] == 'o',
            FrameKind::HeartbeatFrame => msg@.len() > 0 && msg@[0] == 'h',
            FrameKind::DataFrame(p) => msg@.len() > 0 && msg@[0] == 'a' && p@ == msg@.subrange(
                1,
                msg@.len() as int,
            ),
            FrameKind::OtherFrame => msg@.len() == 0 || (msg@[0] != 'o' && msg@[0] != 'h'
                && msg@[0] != 'a'),
        },
{
    let n: usize = msg.unicode_len();
    if n == 0 {
        return FrameKind::OtherFrame;
    }
    let c: char = msg.get_char(0);
    if c == 'o' {
        FrameKind::Open
    } else if c == 'h' {
        FrameKind::HeartbeatFrame
    } else if c == 'a' {
        let rest: &str = msg.substring_char(1, n);
        FrameKind::DataFrame(rest.to_owned())
    } else {
        FrameKind::OtherFrame
    }
}

// MARKET-DATA MESSAGE CLASSIFICATION

/// Which shape the nested data object announces, by its first key.
#[derive(Debug, Clone, Copy, PartialEq, Eq, Structural)]
pub enum MdDataKind {
    Charts,
    Quotes,
    Doms,
    OtherKey,
    NoData,
}

/// What an inbound market-data object was classified as.
#[derive(Debug, Clone)]
pub enum MdMsg {
    /// A generic two-key `{i, s}` acknowledgment.
    AuthAck { i: i64, s: i64 },
    /// A subscription acknowledgment.
    SubAck(WebsocketResponse),
    /// A tick-chart batch.
    TickBatch(TickChart),
    /// A quote snapshot.
    QuoteSnap(QuoteMessage),
    /// A depth snapshot.
    DomSnap(DOMMessage),
    /// Anything else: logged and discarded, never fatal.
    Unrecognized,
}

/// The structural facts about one inbound market-data object that routing
/// reads, together with the typed readings attempted on it.
pub struct MdObjShape {
    pub is_object: bool,
    pub key_count: usize,
    pub has_s: bool,
    pub i_val: Option<i64>,
    pub s_val: Option<i64>,
    pub ws_response: Option<WebsocketResponse>,
    pub is_market_event: bool,
    pub data_kind: MdDataKind,
    pub tick_chart: Option<TickChart>,
    pub quote_msg: Option<QuoteMessage>,
    pub dom_msg: Option<DOMMessage>,
}

impl MdObjShape {
    pub open spec fn wf(self) -> bool {
        match self.dom_msg {
            Some(m) => m.wf() && m.data.doms@.len() > 0,
            None => true,
        }
    }
}

/// The routing precedence of the market-data session, in this exact order:
/// an object with a status field is an acknowledgment (the two-key `{i, s}`
/// form generic, any other a subscription acknowledgment); otherwise a
/// market event routes on the first key of its data object; whatever fails
/// its reading is unrecognized.
pub open spec fn md_classify_rel(sh: MdObjShape, m: MdMsg) -> bool {
    if !sh.is_object {
        m is Unrecognized
    } else if sh.has_s {
        if sh.key_count == 2 {
            if sh.i_val is Some && sh.s_val is Some {
                m == (MdMsg::AuthAck { i: sh.i_val.unwrap(), s: sh.s_val.unwrap() })
            } else {
                m is Unrecognized
            }
        } else {
            match sh.ws_response {
                Some(w) => m == MdMsg::SubAck(w),
                None => m is Unrecognized,
            }
        }
    } else if sh.is_market_event {
        match sh.data_kind {
            MdDataKind::Charts => match sh.tick_chart {
                Some(tc) => m == MdMsg::TickBatch(tc),
                None => m is Unrecognized,
            },
            MdDataKind::Quotes => match sh.quote_msg {
                Some(q) => m == MdMsg::QuoteSnap(q),
                None => m is Unrecognized,
            },
            MdDataKind::Doms => match sh.dom_msg {
                Some(dm) => m == MdMsg::DomSnap(dm),
                None => m is Unrecognized,
            },
            _ => m is Unrecognized,
        }
    } else {
        m is Unrecognized
    }
}

/// Classify one inbound market-data object by the routing precedence.
pub fn classify_md_object(sh: MdObjShape) -> (m: MdMsg)
    ensures
        md_classify_rel(sh, m),
{
    if !sh.is_object {
        MdMsg::Unrecognized
    } else if sh.has_s {
        if sh.key_count == 2 {
            match (sh.i_val, sh.s_val) {
                (Some(i), Some(s)) => MdMsg::AuthAck { i, s },
                _ => MdMsg::Unrecognized,
            }
        } else {
            match sh.ws_response {
                Some(w) => MdMsg::SubAck(w),
                None => MdMsg::Unrecognized,
            }
        }
    } else if sh.is_market_event {
        match sh.data_kind {
            MdDataKind::Charts => match sh.tick_chart {
                Some(tc) => MdMsg::TickBatch(tc),
                None => MdMsg::Unrecognized,
            },
            MdDataKind::Quotes => match sh.quote_msg {
                Some(q) => MdMsg::QuoteSnap(q),
                None => MdMsg::Unrecognized,
            },
            MdDataKind::Doms => match sh.dom_msg {
                Some(dm) => MdMsg::DomSnap(dm),
                None => MdMsg::Unrecognized,
            },
            _ => MdMsg::Unrecognized,
        }
    } else {
        MdMsg::Unrecognized
    }
}

pub open spec fn md_msg_wf(m: MdMsg) -> bool {
    match m {
        MdMsg::DomSnap(d) => d.wf() && d.data.doms@.len() > 0,
        _ => true,
    }
}

/// The data kind the first key of the nested data object announces.
pub open spec fn spec_data_kind(m: JsonModel) -> MdDataKind {
    match field_of(m, "d"@) {
        Some(dm) => if dm is Obj && fields_of(dm).len() > 0 {
            if fields_of(dm)[0].0 == "charts"@ {
                MdDataKind::Charts
            } else if fields_of(dm)[0].0 == "quotes"@ {
                MdDataKind::Quotes
            } else if fields_of(dm)[0].0 == "doms"@ {
                MdDataKind::Doms
            } else {
                MdDataKind::OtherKey
            }
        } else {
            MdDataKind::NoData
        },
        None => MdDataKind::NoData,
    }
}

/// Every field of the shape equals the corresponding reading of the
/// object's content.
pub open spec fn md_shape_rel(m: JsonModel, sh: MdObjShape, now: int) -> bool {
    &&& sh.is_object == (m is Obj)
    &&& (m is Obj ==> sh.key_count == fields_of(m).len())
    &&& sh.has_s == (field_of(m, "s"@) is Some)
    &&& sh.i_val == obj_int(m, "i"@)
    &&& sh.s_val == obj_int(m, "s"@)
    &&& ws_response_parse_rel(m, sh.ws_response)
    &&& sh.is_market_event == (obj_text(m, "e"@) == Some("md"@) || obj_text(m, "e"@) == Some(
        "chart"@,
    ))
    &&& sh.data_kind == spec_data_kind(m)
    &&& tick_chart_parse_rel(m, sh.tick_chart)
    &&& quote_message_parse_rel(m, sh.quote_msg)
    &&& dom_message_parse_rel(m, sh.dom_msg, now)
}

/// Extract the structural facts and attempted readings routing needs from
/// one inbound market-data object.
pub fn md_shape(v: &serde_json::Value, now_ms: i64) -> (sh: MdObjShape)
    requires
        -MAX_TIME_MS <= now_ms <= MAX_TIME_MS,
    ensures
        sh.wf(),
        md_shape_rel(json_model(*v), sh, now_ms as int),
{
    let obj_len = json_object_len(v);
    let (is_object, key_count): (bool, usize) = match obj_len {
        Some(n) => (true, n),
        None => (false, 0),
    };
    let e_val = get_string(v, "e");
    let md_name: String = String::from_str("md");
    let chart_name: String = String::from_str("chart");
    let is_market_event: bool = match &e_val {
        Some(e) => *e == md_name || *e == chart_name,
        None => false,
    };
    let data_kind: MdDataKind = match json_get_field(v, "d") {
        Some(d) => match json_first_key(d) {
            Some(k) => {
                let charts_name: String = String::from_str("charts");
                let quotes_name: String = String::from_str("quotes");
                let doms_name: String = String::from_str("doms");
                if k == charts_name {
                    MdDataKind::Charts
                } else if k == quotes_name {
                    MdDataKind::Quotes
                } else if k == doms_name {
                    MdDataKind::Doms
                } else {
                    MdDataKind::OtherKey
                }
            },
            None => MdDataKind::NoData,
        },
        None => MdDataKind::NoData,
    };
    MdObjShape {
        is_object,
        key_count,
        has_s: json_get_field(v, "s").is_some(),
        i_val: get_i64(v, "i"),
        s_val: get_i64(v, "s"),
        ws_response: parse_ws_response(v),
        is_market_event,
        data_kind,
        tick_chart: parse_tick_chart(v),
        quote_msg: parse_quote_message(v),
        dom_msg: parse_dom_message(v, now_ms),
    }
}

/// The contract descriptors of `v1` are those of `v0` with the historical
/// id bound on every descriptor of the given symbol.
pub open spec fn view_bound(
    v0: MarketData,
    v1: MarketData,
    symbol: Seq<char>,
    historical_id: i64,
) -> bool {
    &&& v1.contract_ids@.len() == v0.contract_ids@.len()
    &&& forall|j: int|
        0 <= j < v0.contract_ids@.len() ==> v1.contract_ids@[j] == if v0.contract_ids@[
            j
        ].symbol@ == symbol {
            (ContractID { historical_id, ..v0.contract_ids@[j] })
        } else {
            v0.contract_ids@[j]
        }
    &&& v1.quote == v0.quote
    &&& v1.market_depth == v0.market_depth
    &&& v1.time_and_sales == v0.time_and_sales
}

/// The trade store of `v1` is that of `v0` with the given events appended
/// in timestamp order.
pub open spec fn view_ticks_appended(
    v0: MarketData,
    v1: MarketData,
    items: Seq<TimeAndSalesItem>,
) -> bool {
    let n0 = v0.time_and_sales.items@.len() as int;
    &&& v1.time_and_sales.items@.len() == n0 + items.len()
    &&& v1.time_and_sales.items@.take(n0) == v0.time_and_sales.items@
    &&& sorted_by_ts(v1.time_and_sales.items@.skip(n0))
    &&& v1.time_and_sales.items@.skip(n0).to_multiset() == items.to_multiset()
    &&& v1.quote == v0.quote
    &&& v1.market_depth == v0.market_depth
    &&& v1.contract_ids == v0.contract_ids
}

/// The depth store of `v1` is that of `v0` with the message's snapshot
/// replacing the previous one for its contract, or appended when none was
/// held.
pub open spec fn view_depth_replaced(v0: MarketData, v1: MarketData, d: DOMMessage) -> bool {
    &&& v1.market_depth@ == match first_depth_idx(
        v0.market_depth@,
        d.data.doms@[0].contract_id as int,
        0,
    ) {
        Some(i) => v0.market_depth@.update(i, d),
        None => v0.market_depth@.push(d),
    }
    &&& v1.quote == v0.quote
    &&& v1.time_and_sales == v0.time_and_sales
    &&& v1.contract_ids == v0.contract_ids
}

/// How one classified market-data message changes the inbound session
/// state and the consolidated view.
pub open spec fn md_apply_rel(
    inc0: MarketDataIncoming,
    inc1: MarketDataIncoming,
    out: MarketDataOutgoing,
    v0: MarketData,
    v1: MarketData,
    m: MdMsg,
    now: int,
) -> bool {
    match m {
        MdMsg::AuthAck { i, s } => {
            &&& inc1.is_authorized == (inc0.is_authorized || (i == 1 && s == 200))
            &&& inc1.connection_established == inc0.connection_established
            &&& inc1.request_responses == inc0.request_responses
            &&& v1 == v0
        },
        MdMsg::SubAck(w) => {
            &&& inc1.request_responses@ == inc0.request_responses@.push(w)
            &&& inc1.is_authorized == inc0.is_authorized
            &&& inc1.connection_established == inc0.connection_established
            &&& if w.data.historical_id > 0 && 2 <= w.request_id && w.request_id - 2
                < out.data_requests@.len() {
                view_bound(
                    v0,
                    v1,
                    out.data_requests@[w.request_id - 2].symbol@,
                    w.data.historical_id,
                )
            } else {
                v1 == v0
            }
        },
        MdMsg::TickBatch(tc) => {
            &&& inc1 == inc0
            &&& if charts_ok(tc.data.charts@) {
                view_ticks_appended(v0, v1, charts_items_spec(tc.data.charts@, now))
            } else {
                v1 == v0
            }
        },
        MdMsg::QuoteSnap(q) => {
            &&& inc1 == inc0
            &&& v1.quote == Some(q)
            &&& v1.market_depth == v0.market_depth
            &&& v1.time_and_sales == v0.time_and_sales
            &&& v1.contract_ids == v0.contract_ids
        },
        MdMsg::DomSnap(d) => {
            &&& inc1 == inc0
            &&& view_depth_replaced(v0, v1, d)
        },
        MdMsg::Unrecognized => {
            &&& inc1 == inc0
            &&& v1 == v0
        },
    }
}

/// Apply one classified market-data message: acknowledgments update the
/// inbound session state, market payloads update the consolidated view,
/// a subscription acknowledgment binds its assigned id.
pub fn apply_md_msg(
    inc: &mut MarketDataIncoming,
    out: &MarketDataOutgoing,
    view: &mut MarketData,
    m: MdMsg,
    now_ms: i64,
)
    requires
        old(view).wf(),
        md_msg_wf(m),
        -MAX_TIME_MS <= now_ms <= MAX_TIME_MS,
    ensures
        final(view).wf(),
        md_apply_rel(*old(inc), *final(inc), *out, *old(view), *final(view), m, now_ms as int),
{
    match m {
        MdMsg::AuthAck { i, s } => {
            if i == 1 && s == 200 {
                inc.is_authorized = true;
            }
        },
        MdMsg::SubAck(w) => {
            let hid = w.data.historical_id;
            let rid = w.request_id;
            if hid > 0 && rid >= 2 {
                let off: u64 = (rid - 2) as u64;
                if off < out.data_requests.len() as u64 {
                    let idx: usize = off as usize;
                    let symbol = out.data_requests[idx].symbol.clone();
                    view.bind_historical_id(&symbol, hid);
                }
            }
            inc.request_responses.push(w);
        },
        MdMsg::TickBatch(tc) => {
            match tc.get_all_ts_items(now_ms) {
                Some(items) => {
                    let sorted = sort_ticks(items);
                    let ghost sg = sorted@;
                    let ghost n0 = view.time_and_sales.items@.len() as int;
                    view.append_ticks(sorted);
                    proof {
                        assert(view.time_and_sales.items@.take(n0) =~= old(
                            view,
                        ).time_and_sales.items@);
                        assert(view.time_and_sales.items@.skip(n0) =~= sg);
                    }
                },
                None => {},
            }
        },
        MdMsg::QuoteSnap(q) => {
            view.apply_quote(q);
        },
        MdMsg::DomSnap(d) => {
            view.apply_depth(d);
        },
        MdMsg::Unrecognized => {},
    }
}

/// One inbound object classified directly against the document's content:
/// the routing precedence of `md_classify_rel`, with the extracted shape
/// replaced by the readings it stands for.
pub open spec fn md_classified(e: JsonModel, m: MdMsg, now: int) -> bool {
    if !(e is Obj) {
        m is Unrecognized
    } else if field_of(e, "s"@) is Some {
        if fields_of(e).len() == 2 {
            if obj_int(e, "i"@) is Some && obj_int(e, "s"@) is Some {
                m == (MdMsg::AuthAck { i: obj_int(e, "i"@).unwrap(), s: obj_int(e, "s"@).unwrap() })
            } else {
                m is Unrecognized
            }
        } else {
            if ws_response_parses(e) {
                match m {
                    MdMsg::SubAck(w) => ws_response_matches(e, w),
                    _ => false,
                }
            } else {
                m is Unrecognized
            }
        }
    } else if obj_text(e, "e"@) == Some("md"@) || obj_text(e, "e"@) == Some("chart"@) {
        match spec_data_kind(e) {
            MdDataKind::Charts => if tick_chart_parses(e) {
                match m {
                    MdMsg::TickBatch(tc) => tick_chart_matches(e, tc),
                    _ => false,
                }
            } else {
                m is Unrecognized
            },
            MdDataKind::Quotes => if quote_message_parses(e) {
                match m {
                    MdMsg::QuoteSnap(q) => quote_message_matches(e, q),
                    _ => false,
                }
            } else {
                m is Unrecognized
            },
            MdDataKind::Doms => if dom_message_parses(e) {
                match m {
                    MdMsg::DomSnap(dmsg) => dom_message_matches(e, dmsg, now) && dmsg.wf()
                        && dmsg.data.doms@.len() > 0,
                    _ => false,
                }
            } else {
                m is Unrecognized
            },
            _ => m is Unrecognized,
        }
    } else {
        m is Unrecognized
    }
}

/// An accurate shape classified by the shape precedence is classified by
/// the content precedence.
proof fn lemma_md_classified_from_shape(e: JsonModel, sh: MdObjShape, m: MdMsg, now: int)
    requires
        md_shape_rel(e, sh, now),
        md_classify_rel(sh, m),
    ensures
        md_classified(e, m, now),
{
}

/// The session and view after dispatching one classified object of
/// content `e`.
pub open spec fn md_obj_step(
    inc0: MarketDataIncoming,
    v0: MarketData,
    inc1: MarketDataIncoming,
    v1: MarketData,
    out: MarketDataOutgoing,
    e: JsonModel,
    now: int,
) -> bool {
    exists|m: MdMsg|
        (#[trigger] md_classified(e, m, now)) && md_apply_rel(inc0, inc1, out, v0, v1, m, now)
}

/// The session and view after dispatching, in order, one object per
/// element of the document's array.
pub open spec fn md_steps(
    inc0: MarketDataIncoming,
    v0: MarketData,
    inc1: MarketDataIncoming,
    v1: MarketData,
    out: MarketDataOutgoing,
    es: Seq<JsonModel>,
    now: int,
) -> bool
    decreases es.len(),
{
    if es.len() == 0 {
        inc1 == inc0 && v1 == v0
    } else {
        exists|imid: MarketDataIncoming, vmid: MarketData|
            (#[trigger] md_obj_step(inc0, v0, imid, vmid, out, es.first(), now)) && md_steps(
                imid,
                vmid,
                inc1,
                v1,
                out,
                es.drop_first(),
                now,
            )
    }
}

proof fn lemma_md_steps_extend(
    inc0: MarketDataIncoming,
    v0: MarketData,
    inc1: MarketDataIncoming,
    v1: MarketData,
    inc2: MarketDataIncoming,
    v2: MarketData,
    out: MarketDataOutgoing,
    es: Seq<JsonModel>,
    e: JsonModel,
    now: int,
)
    requires
        md_steps(inc0, v0, inc1, v1, out, es, now),
        md_obj_step(inc1, v1, inc2, v2, out, e, now),
    ensures
        md_steps(inc0, v0, inc2, v2, out, es.push(e), now),
    decreases es.len(),
{
    if es.len() == 0 {
        assert(es.push(e).first() == e);
        assert(es.push(e).drop_first() =~= Seq::<JsonModel>::empty());
        assert(md_obj_step(inc0, v0, inc2, v2, out, es.push(e).first(), now));
        assert(md_steps(inc2, v2, inc2, v2, out, es.push(e).drop_first(), now));
    } else {
        let (imid, vmid) = choose|imid: MarketDataIncoming, vmid: MarketData|
            (#[trigger] md_obj_step(inc0, v0, imid, vmid, out, es.first(), now)) && md_steps(
                imid,
                vmid,
                inc1,
                v1,
                out,
                es.drop_first(),
                now,
            );
        lemma_md_steps_extend(imid, vmid, inc1, v1, inc2, v2, out, es.drop_first(), e, now);
        assert(es.push(e).first() == es.first());
        assert(es.push(e).drop_first() =~= es.drop_first().push(e));
        assert(md_obj_step(inc0, v0, imid, vmid, out, es.push(e).first(), now));
        assert(md_steps(imid, vmid, inc2, v2, out, es.push(e).drop_first(), now));
    }
}

/// Dispatch one inbound market-data data frame: parse the payload, then
/// classify and apply each object of its array in order. A payload that is
/// not valid JSON, or not an array, is dropped whole with session and view
/// untouched; no frame is fatal.
pub fn process_message(
    message: &str,
    inc: &mut MarketDataIncoming,
    out: &MarketDataOutgoing,
    view: &mut MarketData,
    now_ms: i64,
)
    requires
        old(view).wf(),
        -MAX_TIME_MS <= now_ms <= MAX_TIME_MS,
    ensures
        final(view).wf(),
        match json_of_text(message@) {
            Some(doc) => if doc is Arr {
                md_steps(
                    *old(inc),
                    *old(view),
                    *final(inc),
                    *final(view),
                    *out,
                    elems_of(doc),
                    now_ms as int,
                )
            } else {
                *final(inc) == *old(inc) && *final(view) == *old(view)
            },
            None => *final(inc) == *old(inc) && *final(view) == *old(view),
        },
{
    let root = match json_parse(message) {
        Some(r) => r,
        None => {
            return ;
        },
    };
    let ghost doc = json_model(root);
    let n = match json_array_len(&root) {
        Some(x) => x,
        None => {
            return ;
        },
    };
    let ghost es = elems_of(doc);
    proof {
        assert(es.take(0) =~= Seq::<JsonModel>::empty());
    }
    let mut i: usize = 0;
    while i < n
        invariant
            view.wf(),
            -MAX_TIME_MS <= now_ms <= MAX_TIME_MS,
            doc == json_model(root),
            doc is Arr,
            es == elems_of(doc),
            n == es.len(),
            0 <= i <= n,
            md_steps(*old(inc), *old(view), *inc, *view, *out, es.take(i as int), now_ms as int),
        decreases n - i,
    {
        match json_get_index(&root, i) {
            Some(el) => {
                let ghost inc_pre = *inc;
                let ghost view_pre = *view;
                let sh = md_shape(el, now_ms);
                let ghost shg = sh;
                let m = classify_md_object(sh);
                let ghost mg = m;
                proof {
                    assert(md_msg_wf(m));
                    lemma_md_classified_from_shape(es[i as int], shg, mg, now_ms as int);
                }
                apply_md_msg(inc, out, view, m, now_ms);
                proof {
                    assert(md_obj_step(
                        inc_pre,
                        view_pre,
                        *inc,
                        *view,
                        *out,
                        es[i as int],
                        now_ms as int,
                    )) by {
                        assert(md_classified(es[i as int], mg, now_ms as int) && md_apply_rel(
                            inc_pre,
                            *inc,
                            *out,
                            view_pre,
                            *view,
                            mg,
                            now_ms as int,
                        ));
                    }
                    lemma_md_steps_extend(
                        *old(inc),
                        *old(view),
                        inc_pre,
                        view_pre,
                        *inc,
                        *view,
                        *out,
                        es.take(i as int),
                        es[i as int],
                        now_ms as int,
                    );
                    assert(es.take(i + 1) =~= es.take(i as int).push(es[i as int]));
                }
            },
            None => {
                proof {
                    assert(false);
                }
            },
        }
        i = i + 1;
    }
    proof {
        assert(es.take(es.len() as int) =~= es);
    }
}

} // verus!
