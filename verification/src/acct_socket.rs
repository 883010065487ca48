//! The account session: inbound message classification in its exact
//! precedence order, the state each message kind updates, and the per-tick
//! outbound drain plan.

use vstd::prelude::*;

use crate::decode::{
    acct_shape_rel, order_id_matches, order_id_parses, order_update_matches,
    order_update_parses, user_data_matches, user_data_parses,
};
use crate::md_socket::heartbeat_due;
use crate::models::{
    AcctCommsChannel, OrderIDMessage, OrderUpdateMessage, UserDataMessage,
};
use crate::outside::{
    elems_of, field_of, fields_of, json_array_len, json_get_index, json_model, json_of_text,
    json_parse, obj_int, JsonModel,
};
use crate::settings::HEARTBEAT_IDLE_MS;

verus! {

// INBOUND CLASSIFICATION

/// What an inbound account data object was classified as.
#[derive(Debug, Clone)]
pub enum AcctMsg {
    /// A generic two-key `{i, s}` acknowledgment.
    AuthAck { i: i64, s: i64 },
    /// An order-status event.
    OrderUpdateMsg(OrderUpdateMessage),
    /// An order-id acknowledgment.
    OrderIdMsg(OrderIDMessage),
    /// A full account snapshot.
    UserDataMsg(UserDataMessage),
    /// Anything else: logged and dropped, never fatal.
    Unrecognized,
}

/// The structural facts about one inbound JSON object that routing reads,
/// together with the typed readings that were attempted on it. The readings
/// are `Some` exactly where the object parses as that shape.
pub struct AcctObjShape {
    pub is_object: bool,
    pub key_count: usize,
    pub has_i: bool,
    pub has_s: bool,
    pub i_val: Option<i64>,
    pub s_val: Option<i64>,
    pub order_update: Option<OrderUpdateMessage>,
    pub order_id: Option<OrderIDMessage>,
    pub user_data: Option<UserDataMessage>,
}

impl AcctObjShape {
    pub open spec fn wf(self) -> bool {
        &&& match self.order_update {
            Some(u) => u.wf(),
            None => true,
        }
        &&& match self.user_data {
            Some(d) => d.wf(),
            None => true,
        }
    }
}

/// The routing precedence of the account session, in this exact order: a
/// two-key object holding `i` and `s` is a generic acknowledgment; any
/// other two-key object is read as an order-status event; everything else
/// is read as an order-id acknowledgment, then as an account snapshot;
/// whatever fails every reading is unrecognized.
pub open spec fn acct_classify_rel(sh: AcctObjShape, m: AcctMsg) -> bool {
    if !sh.is_object {
        m is Unrecognized
    } else if sh.key_count == 2 && sh.has_i && sh.has_s {
        if sh.i_val is Some && sh.s_val is Some {
            m == (AcctMsg::AuthAck { i: sh.i_val.unwrap(), s: sh.s_val.unwrap() })
        } else {
            m is Unrecognized
        }
    } else if sh.key_count == 2 {
        match sh.order_update {
            Some(u) => m == AcctMsg::OrderUpdateMsg(u),
            None => m is Unrecognized,
        }
    } else {
        match sh.order_id {
            Some(o) => m == AcctMsg::OrderIdMsg(o),
            None => match sh.user_data {
                Some(d) => m == AcctMsg::UserDataMsg(d),
                None => m is Unrecognized,
            },
        }
    }
}

/// Classify one inbound account object by the routing precedence.
pub fn classify_acct_object(sh: AcctObjShape) -> (m: AcctMsg)
    ensures
        acct_classify_rel(sh, m),
{
    if !sh.is_object {
        AcctMsg::Unrecognized
    } else if sh.key_count == 2 && sh.has_i && sh.has_s {
        match (sh.i_val, sh.s_val) {
            (Some(i), Some(s)) => AcctMsg::AuthAck { i, s },
            _ => AcctMsg::Unrecognized,
        }
    } else if sh.key_count == 2 {
        match sh.order_update {
            Some(u) => AcctMsg::OrderUpdateMsg(u),
            None => AcctMsg::Unrecognized,
        }
    } else {
        match sh.order_id {
            Some(o) => AcctMsg::OrderIdMsg(o),
            None => match sh.user_data {
                Some(d) => AcctMsg::UserDataMsg(d),
                None => AcctMsg::Unrecognized,
            },
        }
    }
}

pub open spec fn acct_msg_wf(m: AcctMsg) -> bool {
    match m {
        AcctMsg::OrderUpdateMsg(u) => u.wf(),
        AcctMsg::UserDataMsg(d) => d.wf(),
        _ => true,
    }
}

/// How one classified message changes the account session: the correct
/// `{i:1, s:200}` acknowledgment authorizes it (any other leaves it as it
/// was), an order update and a snapshot replace their fields, an order-id
/// acknowledgment is appended to the history, and an unrecognized object
/// changes nothing.
pub open spec fn acct_apply_rel(
    ao: AcctCommsChannel,
    an: AcctCommsChannel,
    m: AcctMsg,
) -> bool {
    &&& an.connection_established == ao.connection_established
    &&& an.last_heart_beat_ms == ao.last_heart_beat_ms
    &&& an.socket_close == ao.socket_close
    &&& an.terminated == ao.terminated
    &&& an.unsent_requests == ao.unsent_requests
    &&& an.sent_requests == ao.sent_requests
    &&& an.received_closing_frame == ao.received_closing_frame
    &&& match m {
        AcctMsg::AuthAck { i, s } => {
            &&& an.is_authorized == (ao.is_authorized || (i == 1 && s == 200))
            &&& an.user_data == ao.user_data
            &&& an.order_update == ao.order_update
            &&& an.order_id_messages == ao.order_id_messages
        },
        AcctMsg::OrderUpdateMsg(u) => {
            &&& an.is_authorized == ao.is_authorized
            &&& an.user_data == ao.user_data
            &&& an.order_update == Some(u)
            &&& an.order_id_messages == ao.order_id_messages
        },
        AcctMsg::OrderIdMsg(o) => {
            &&& an.is_authorized == ao.is_authorized
            &&& an.user_data == ao.user_data
            &&& an.order_update == ao.order_update
            &&& an.order_id_messages@ == ao.order_id_messages@.push(o)
        },
        AcctMsg::UserDataMsg(d) => {
            &&& an.is_authorized == ao.is_authorized
            &&& an.user_data == Some(d)
            &&& an.order_update == ao.order_update
            &&& an.order_id_messages == ao.order_id_messages
        },
        AcctMsg::Unrecognized => {
            &&& an.is_authorized == ao.is_authorized
            &&& an.user_data == ao.user_data
            &&& an.order_update == ao.order_update
            &&& an.order_id_messages == ao.order_id_messages
        },
    }
}

/// Apply one classified message to the account session.
pub fn apply_acct_msg(a: &mut AcctCommsChannel, m: AcctMsg)
    requires
        old(a).wf(),
        acct_msg_wf(m),
    ensures
        final(a).wf(),
        acct_apply_rel(*old(a), *final(a), m),
{
    match m {
        AcctMsg::AuthAck { i, s } => {
            if i == 1 && s == 200 {
                a.is_authorized = true;
            }
        },
        AcctMsg::OrderUpdateMsg(u) => {
            a.order_update = Some(u);
        },
        AcctMsg::OrderIdMsg(o) => {
            a.order_id_messages.push(o);
        },
        AcctMsg::UserDataMsg(d) => {
            a.user_data = Some(d);
        },
        AcctMsg::Unrecognized => {},
    }
}

/// One inbound object classified directly against the document's content:
/// the routing precedence of `acct_classify_rel`, with the extracted shape
/// replaced by the readings it stands for.
pub open spec fn acct_classified(e: JsonModel, m: AcctMsg) -> bool {
    if !(e is Obj) {
        m is Unrecognized
    } else if fields_of(e).len() == 2 && field_of(e, "i"@) is Some && field_of(e, "s"@)
        is Some {
        if obj_int(e, "i"@) is Some && obj_int(e, "s"@) is Some {
            m == (AcctMsg::AuthAck { i: obj_int(e, "i"@).unwrap(), s: obj_int(e, "s"@).unwrap() })
        } else {
            m is Unrecognized
        }
    } else if fields_of(e).len() == 2 {
        if order_update_parses(e) {
            match m {
                AcctMsg::OrderUpdateMsg(u) => order_update_matches(e, u) && u.wf(),
                _ => false,
            }
        } else {
            m is Unrecognized
        }
    } else {
        if order_id_parses(e) {
            match m {
                AcctMsg::OrderIdMsg(o) => order_id_matches(e, o),
                _ => false,
            }
        } else if user_data_parses(e) {
            match m {
                AcctMsg::UserDataMsg(d) => user_data_matches(e, d) && d.wf(),
                _ => false,
            }
        } else {
            m is Unrecognized
        }
    }
}

/// An accurate shape classified by the shape precedence is classified by
/// the content precedence.
proof fn lemma_acct_classified_from_shape(e: JsonModel, sh: AcctObjShape, m: AcctMsg)
    requires
        acct_shape_rel(e, sh),
        acct_classify_rel(sh, m),
    ensures
        acct_classified(e, m),
{
}

/// The session after dispatching one classified object of content `e`.
pub open spec fn acct_obj_step(
    a0: AcctCommsChannel,
    a1: AcctCommsChannel,
    e: JsonModel,
) -> bool {
    exists|m: AcctMsg| (#[trigger] acct_classified(e, m)) && acct_apply_rel(a0, a1, m)
}

/// The session after dispatching, in order, one object per element of the
/// document's array.
pub open spec fn acct_steps(
    a0: AcctCommsChannel,
    a1: AcctCommsChannel,
    es: Seq<JsonModel>,
) -> bool
    decreases es.len(),
{
    if es.len() == 0 {
        a1 == a0
    } else {
        exists|mid: AcctCommsChannel|
            (#[trigger] acct_obj_step(a0, mid, es.first())) && acct_steps(
                mid,
                a1,
                es.drop_first(),
            )
    }
}

proof fn lemma_acct_steps_extend(
    a0: AcctCommsChannel,
    a1: AcctCommsChannel,
    a2: AcctCommsChannel,
    es: Seq<JsonModel>,
    e: JsonModel,
)
    requires
        acct_steps(a0, a1, es),
        acct_obj_step(a1, a2, e),
    ensures
        acct_steps(a0, a2, es.push(e)),
    decreases es.len(),
{
    if es.len() == 0 {
        assert(es.push(e).first() == e);
        assert(es.push(e).drop_first() =~= Seq::<JsonModel>::empty());
        assert(acct_obj_step(a0, a2, es.push(e).first()));
        assert(acct_steps(a2, a2, es.push(e).drop_first()));
    } else {
        let mid = choose|mid: AcctCommsChannel|
            (#[trigger] acct_obj_step(a0, mid, es.first())) && acct_steps(
                mid,
                a1,
                es.drop_first(),
            );
        lemma_acct_steps_extend(mid, a1, a2, es.drop_first(), e);
        assert(es.push(e).first() == es.first());
        assert(es.push(e).drop_first() =~= es.drop_first().push(e));
        assert(acct_obj_step(a0, mid, es.push(e).first()));
        assert(acct_steps(mid, a2, es.push(e).drop_first()));
    }
}

/// Dispatch one inbound account data frame: parse the payload, then
/// classify and apply each object of its array in order. A payload that is
/// not valid JSON, or not an array, is dropped whole with the session
/// untouched; no frame is fatal.
pub fn process_acct_message(a: &mut AcctCommsChannel, payload: &str)
    requires
        old(a).wf(),
    ensures
        final(a).wf(),
        match json_of_text(payload@) {
            Some(doc) => if doc is Arr {
                acct_steps(*old(a), *final(a), elems_of(doc))
            } else {
                *final(a) == *old(a)
            },
            None => *final(a) == *old(a),
        },
{
    let root = match json_parse(payload) {
        Some(r) => r,
        None => {
            return ;
        },
    };
    let ghost doc = json_model(root);
    let n = match json_array_len(&root) {
        Some(x) => x,
        None => {
            return ;
        },
    };
    let ghost es = elems_of(doc);
    proof {
        assert(es.take(0) =~= Seq::<JsonModel>::empty());
    }
    let mut i: usize = 0;
    while i < n
        invariant
            a.wf(),
            doc == json_model(root),
            doc is Arr,
            es == elems_of(doc),
            n == es.len(),
            0 <= i <= n,
            acct_steps(*old(a), *a, es.take(i as int)),
        decreases n - i,
    {
        match json_get_index(&root, i) {
            Some(el) => {
                let ghost a_pre = *a;
                let sh = crate::decode::acct_shape(el);
                let ghost shg = sh;
                let m = classify_acct_object(sh);
                let ghost mg = m;
                proof {
                    assert(acct_msg_wf(m));
                    lemma_acct_classified_from_shape(es[i as int], shg, mg);
                }
                apply_acct_msg(a, m);
                proof {
                    assert(acct_obj_step(a_pre, *a, es[i as int])) by {
                        assert(acct_classified(es[i as int], mg) && acct_apply_rel(
                            a_pre,
                            *a,
                            mg,
                        ));
                    }
                    lemma_acct_steps_extend(*old(a), a_pre, *a, es.take(i as int), es[i as int]);
                    assert(es.take(i + 1) =~= es.take(i as int).push(es[i as int]));
                }
            },
            None => {
                proof {
                    assert(false);
                }
            },
        }
        i = i + 1;
    }
    proof {
        assert(es.take(es.len() as int) =~= es);
    }
}

// THE OUTBOUND DRAIN PLAN

/// One planned outbound action of the account drain, in plan order. The
/// queued item is always the front of the unsent queue.
#[derive(Debug, Clone, Copy, PartialEq, Eq, Structural)]
pub enum AcctSend {
    Heartbeat,
    QueuedFront,
    CloseFrame,
}

/// The outbound plan of one account drain tick: nothing on a closing
/// session; else a due heartbeat, the first queued request while the
/// connection stands, and the close frame when a close was requested.
pub open spec fn acct_plan_spec(a: AcctCommsChannel, now: int) -> Seq<AcctSend> {
    if a.received_closing_frame {
        Seq::empty()
    } else {
        (if heartbeat_due(
            a.last_heart_beat_ms as int,
            now,
            a.terminated,
            a.received_closing_frame,
        ) {
            seq![AcctSend::Heartbeat]
        } else {
            Seq::empty()
        }) + (if a.connection_established && a.unsent_requests@.len() > 0 {
            seq![AcctSend::QueuedFront]
        } else {
            Seq::empty()
        }) + (if a.socket_close {
            seq![AcctSend::CloseFrame]
        } else {
            Seq::empty()
        })
    }
}

/// Compute the outbound plan of this drain tick.
pub fn acct_drain_plan(a: &AcctCommsChannel, now_ms: i64) -> (r: Vec<AcctSend>)
    ensures
        r@ == acct_plan_spec(*a, now_ms as int),
{
    let mut plan: Vec<AcctSend> = Vec::new();
    if a.received_closing_frame {
        proof {
            assert(plan@ =~= acct_plan_spec(*a, now_ms as int));
        }
        return plan;
    }
    if now_ms as i128 - a.last_heart_beat_ms as i128 >= HEARTBEAT_IDLE_MS as i128
        && !a.terminated && !a.received_closing_frame {
        plan.push(AcctSend::Heartbeat);
    }
    if a.connection_established && a.unsent_requests.len() > 0 {
        plan.push(AcctSend::QueuedFront);
    }
    if a.socket_close {
        plan.push(AcctSend::CloseFrame);
    }
    proof {
        assert(plan@ =~= acct_plan_spec(*a, now_ms as int));
    }
    plan
}

/// Record a sent heartbeat: the idle timer restarts now.
pub fn acct_note_heartbeat_sent(a: &mut AcctCommsChannel, now_ms: i64)
    ensures
        final(a).last_heart_beat_ms == now_ms,
        final(a).connection_established == old(a).connection_established,
        final(a).is_authorized == old(a).is_authorized,
        final(a).socket_close == old(a).socket_close,
        final(a).terminated == old(a).terminated,
        final(a).user_data == old(a).user_data,
        final(a).unsent_requests == old(a).unsent_requests,
        final(a).sent_requests == old(a).sent_requests,
        final(a).order_update == old(a).order_update,
        final(a).order_id_messages == old(a).order_id_messages,
        final(a).received_closing_frame == old(a).received_closing_frame,
{
    a.last_heart_beat_ms = now_ms;
}

/// Record the front queued request as sent: it moves, in order, from the
/// unsent queue to the audit list (the queue is a strict first-in
/// first-out queue).
pub fn acct_note_queued_sent(a: &mut AcctCommsChannel)
    requires
        old(a).unsent_requests@.len() > 0,
    ensures
        final(a).unsent_requests@ == old(a).unsent_requests@.subrange(
            1,
            old(a).unsent_requests@.len() as int,
        ),
        final(a).sent_requests@ == old(a).sent_requests@.push(old(a).unsent_requests@[0]),
        final(a).connection_established == old(a).connection_established,
        final(a).last_heart_beat_ms == old(a).last_heart_beat_ms,
        final(a).is_authorized == old(a).is_authorized,
        final(a).socket_close == old(a).socket_close,
        final(a).terminated == old(a).terminated,
        final(a).user_data == old(a).user_data,
        final(a).order_update == old(a).order_update,
        final(a).order_id_messages == old(a).order_id_messages,
        final(a).received_closing_frame == old(a).received_closing_frame,
{
    let item = a.unsent_requests.remove(0);
    a.sent_requests.push(item);
}

/// Record that the close frame was issued: the close request is no longer
/// pending.
pub fn acct_note_close_attempted(a: &mut AcctCommsChannel)
    ensures
        final(a).socket_close == false,
        final(a).connection_established == old(a).connection_established,
        final(a).last_heart_beat_ms == old(a).last_heart_beat_ms,
        final(a).is_authorized == old(a).is_authorized,
        final(a).terminated == old(a).terminated,
        final(a).user_data == old(a).user_data,
        final(a).unsent_requests == old(a).unsent_requests,
        final(a).sent_requests == old(a).sent_requests,
        final(a).order_update == old(a).order_update,
        final(a).order_id_messages == old(a).order_id_messages,
        final(a).received_closing_frame == old(a).received_closing_frame,
{
    a.socket_close = false;
}

/// Record that the peer closed the connection.
pub fn acct_note_peer_closed(a: &mut AcctCommsChannel)
    ensures
        final(a).received_closing_frame == true,
        final(a).connection_established == old(a).connection_established,
        final(a).last_heart_beat_ms == old(a).last_heart_beat_ms,
        final(a).is_authorized == old(a).is_authorized,
        final(a).socket_close == old(a).socket_close,
        final(a).terminated == old(a).terminated,
        final(a).user_data == old(a).user_data,
        final(a).unsent_requests == old(a).unsent_requests,
        final(a).sent_requests == old(a).sent_requests,
        final(a).order_update == old(a).order_update,
        final(a).order_id_messages == old(a).order_id_messages,
{
    a.received_closing_frame = true;
}

/// Record that the connection's open frame arrived.
pub fn acct_note_connection_opened(a: &mut AcctCommsChannel)
    ensures
        final(a).connection_established == true,
        final(a).received_closing_frame == old(a).received_closing_frame,
        final(a).last_heart_beat_ms == old(a).last_heart_beat_ms,
        final(a).is_authorized == old(a).is_authorized,
        final(a).socket_close == old(a).socket_close,
        final(a).terminated == old(a).terminated,
        final(a).user_data == old(a).user_data,
        final(a).unsent_requests == old(a).unsent_requests,
        final(a).sent_requests == old(a).sent_requests,
        final(a).order_update == old(a).order_update,
        final(a).order_id_messages == old(a).order_id_messages,
{
    a.connection_established = true;
}

/// The account drain sends a heartbeat on a tick exactly when the session
/// has idled a full interval and is neither terminated nor being closed by
/// the peer.
pub proof fn lemma_acct_heartbeat_iff(a: AcctCommsChannel, now: int)
    ensures
        acct_plan_spec(a, now).contains(AcctSend::Heartbeat) <==> (now - a.last_heart_beat_ms
            >= HEARTBEAT_IDLE_MS && !a.terminated && !a.received_closing_frame),
{
    if !a.received_closing_frame {
        let hb = if heartbeat_due(
            a.last_heart_beat_ms as int,
            now,
            a.terminated,
            a.received_closing_frame,
        ) {
            seq![AcctSend::Heartbeat]
        } else {
            Seq::<AcctSend>::empty()
        };
        let q = if a.connection_established && a.unsent_requests@.len() > 0 {
            seq![AcctSend::QueuedFront]
        } else {
            Seq::<AcctSend>::empty()
        };
        let c = if a.socket_close {
            seq![AcctSend::CloseFrame]
        } else {
            Seq::<AcctSend>::empty()
        };
        assert(acct_plan_spec(a, now) == hb + q + c);
        if (hb + q + c).contains(AcctSend::Heartbeat) {
            let i = choose|i: int|
                0 <= i < (hb + q + c).len() && (hb + q + c)[i] == AcctSend::Heartbeat;
            assert(i < hb.len());
        }
        if hb.len() == 1 {
            assert((hb + q + c)[0] == AcctSend::Heartbeat);
        }
    }
}

} // verus!
