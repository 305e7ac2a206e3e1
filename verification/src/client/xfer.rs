//! Reliable delivery of packets that need an acknowledgement: every such
//! packet gets the next sequence number, waits in a queue until it is sent
//! and stays there until the peer acknowledges it.
use vstd::prelude::*;

use crate::proto::json::JsonBody;
use crate::proto::v1::{
    envelope_json, envelope_text, packet_type_num, IdRef, PacketRef, PacketType, ResponseRef,
    ServerPushRef, ServerPushTypeRef, Status,
};

verus! {

/// Packets waiting before this many stay unsent make the queue full.
pub const QUEUE_LIMIT: usize = 64;

/// Abstract state of the delivery queue.
pub struct XferView {
    /// queued packets with their sequence numbers, oldest first
    pub que: Seq<(i64, Seq<char>)>,
    /// last sequence number handed out
    pub tail_sn: i64,
    /// how many queued packets have been sent
    pub send_index: nat,
    /// highest sequence number received from the peer
    pub recv_sn: i64,
    /// highest sequence number acknowledged to the peer
    pub sent_ack_sn: i64,
}

pub struct Xfer {
    que: std::collections::VecDeque<(i64, String)>,
    tail_sn: i64,
    send_index: usize,
    recv_sn: i64,
    sent_ack_sn: i64,
}

/// The sequence numbers of a queue are strictly increasing and none is
/// above `tail`.
pub open spec fn ordered_below(que: Seq<(i64, Seq<char>)>, tail: i64) -> bool {
    &&& forall|i: int, j: int| 0 <= i < j < que.len() ==> que[i].0 < que[j].0
    &&& forall|i: int| 0 <= i < que.len() ==> que[i].0 <= tail
}

/// How many packets at the front of the queue an acknowledgement of `sn`
/// covers.
pub open spec fn acked_prefix_len(que: Seq<(i64, Seq<char>)>, sn: i64) -> nat
    decreases que.len(),
{
    if que.len() == 0 || que[0].0 > sn {
        0
    } else {
        1 + acked_prefix_len(que.drop_first(), sn)
    }
}

/// The acknowledgement a new packet carries and the acknowledged number
/// afterwards, for an explicit `msg_id` or else the pending one.
pub open spec fn fill_ack(v: XferView, msg_id: Option<i64>) -> (Option<i64>, i64) {
    match msg_id {
        Some(a) => (Some(a), if v.sent_ack_sn < a {
            a
        } else {
            v.sent_ack_sn
        }),
        None => if v.sent_ack_sn < v.recv_sn {
            (Some(v.recv_sn), v.recv_sn)
        } else {
            (None, v.sent_ack_sn)
        },
    }
}

/// The JSON text of a packet numbered `sn` of kind `typ`.
pub open spec fn qos1_json(typ: PacketType, sn: i64, body: Seq<char>, ack: Option<i64>) -> Seq<
    char,
> {
    envelope_json(
        Some(packet_type_num(typ) as int),
        Some(sn as int),
        Some(body),
        match ack {
            Some(a) => Some(a as int),
            None => None,
        },
    )
}

/// `x1` is `x0` with a packet of kind `typ` and body `body` queued under
/// sequence number `sn`, acknowledging `msg_id` or what is pending.
pub open spec fn queued(x0: XferView, x1: XferView, typ: PacketType, body: Seq<char>, msg_id: Option<i64>, sn: i64) -> bool {
    &&& sn == x0.tail_sn + 1
    &&& x1.tail_sn == sn
    &&& x1.que == x0.que.push((sn, qos1_json(typ, sn, body, fill_ack(x0, msg_id).0)))
    &&& x1.sent_ack_sn == fill_ack(x0, msg_id).1
    &&& x1.send_index == x0.send_index
    &&& x1.recv_sn == x0.recv_sn
}

impl XferView {
    pub open spec fn wf(self) -> bool {
        &&& self.send_index <= self.que.len()
        &&& ordered_below(self.que, self.tail_sn)
    }

    /// An acknowledgement of `sn` only covers packets that were sent.
    pub open spec fn acks_only_sent(self, sn: i64) -> bool {
        acked_prefix_len(self.que, sn) <= self.send_index
    }
}

impl View for Xfer {
    type V = XferView;

    closed spec fn view(&self) -> XferView {
        XferView {
            que: self.que@.map_values(|e: (i64, String)| (e.0, e.1@)),
            tail_sn: self.tail_sn,
            send_index: self.send_index as nat,
            recv_sn: self.recv_sn,
            sent_ack_sn: self.sent_ack_sn,
        }
    }
}

proof fn lemma_acked_prefix_bound(que: Seq<(i64, Seq<char>)>, sn: i64)
    ensures
        acked_prefix_len(que, sn) <= que.len(),
        forall|i: int| 0 <= i < acked_prefix_len(que, sn) ==> que[i].0 <= sn,
        acked_prefix_len(que, sn) < que.len() ==> que[acked_prefix_len(que, sn) as int].0 > sn,
    decreases que.len(),
{
    if que.len() != 0 && que[0].0 <= sn {
        lemma_acked_prefix_bound(que.drop_first(), sn);
        assert forall|i: int| 0 <= i < acked_prefix_len(que, sn) implies que[i].0 <= sn by {
            if i > 0 {
                assert(que[i] == que.drop_first()[i - 1]);
            }
        }
    }
}

proof fn lemma_acked_prefix_skip(que: Seq<(i64, Seq<char>)>, sn: i64, k: nat)
    requires
        k <= acked_prefix_len(que, sn),
    ensures
        acked_prefix_len(que.skip(k as int), sn) == acked_prefix_len(que, sn) - k,
    decreases k,
{
    lemma_acked_prefix_bound(que, sn);
    if k > 0 {
        assert(que.skip(k as int) =~= que.drop_first().skip(k - 1));
        lemma_acked_prefix_skip(que.drop_first(), sn, (k - 1) as nat);
    } else {
        assert(que.skip(0) =~= que);
    }
}

/// Acknowledging `sn` drops exactly the leading packets numbered at most
/// `sn`: every packet left is numbered above `sn`, and acknowledging `sn`
/// again drops nothing more.
pub proof fn lemma_ack_leaves_only_later(v: XferView, sn: i64)
    requires
        v.wf(),
    ensures
        forall|i: int|
            0 <= i < v.que.skip(acked_prefix_len(v.que, sn) as int).len() ==> v.que.skip(
                acked_prefix_len(v.que, sn) as int,
            )[i].0 > sn,
        acked_prefix_len(v.que.skip(acked_prefix_len(v.que, sn) as int), sn) == 0,
{
    lemma_acked_prefix_bound(v.que, sn);
    let n = acked_prefix_len(v.que, sn);
    let rest = v.que.skip(n as int);
    assert forall|i: int| 0 <= i < rest.len() implies rest[i].0 > sn by {
        assert(rest[i] == v.que[n + i]);
        if i > 0 {
            assert(v.que[n as int].0 < v.que[n + i].0);
        }
    }
    lemma_acked_prefix_skip(v.que, sn, n);
}

/// A packet queued with no explicit acknowledgement carries whatever was
/// received and not yet acknowledged; afterwards nothing is owed.
pub proof fn lemma_queued_packet_settles_acks(v: XferView)
    ensures
        fill_ack(v, None).1 >= v.recv_sn,
        v.sent_ack_sn < v.recv_sn ==> fill_ack(v, None).0 == Some(v.recv_sn),
        v.sent_ack_sn >= v.recv_sn ==> fill_ack(v, None) == (None::<i64>, v.sent_ack_sn),
{
}

/// A queued packet's number is above every number already queued, so the
/// queue stays ordered.
pub proof fn lemma_queueing_keeps_order(v: XferView, typ: PacketType, body: Seq<char>, msg_id: Option<i64>, w: XferView, sn: i64)
    requires
        v.wf(),
        queued(v, w, typ, body, msg_id, sn),
    ensures
        w.wf(),
        forall|i: int| 0 <= i < v.que.len() ==> #[trigger] v.que[i].0 < sn,
{
    assert forall|i: int, j: int| 0 <= i < j < w.que.len() implies w.que[i].0 < w.que[j].0 by {
        assert(w.que[i] == v.que[i]);
        if j < v.que.len() {
            assert(w.que[j] == v.que[j]);
        }
    }
    assert forall|i: int| 0 <= i < w.que.len() implies w.que[i].0 <= w.tail_sn by {
        if i < v.que.len() {
            assert(w.que[i] == v.que[i]);
        }
    }
}

impl Xfer {
    pub fn new() -> (r: Self)
        ensures
            r@.que.len() == 0,
            r@.tail_sn == 0,
            r@.send_index == 0,
            r@.recv_sn == 0,
            r@.sent_ack_sn == 0,
            r@.wf(),
    {
        let r = Xfer {
            que: std::collections::VecDeque::new(),
            tail_sn: 0,
            send_index: 0,
            recv_sn: 0,
            sent_ack_sn: 0,
        };
        assert(r@.que =~= Seq::<(i64, Seq<char>)>::empty());
        r
    }

    /// The last sequence number handed out.
    pub fn tail_sn(&self) -> (r: i64)
        ensures
            r == self@.tail_sn,
    {
        self.tail_sn
    }

    pub fn is_full(&self) -> (r: bool)
        ensures
            r == (self@.que.len() >= QUEUE_LIMIT),
    {
        self.que.len() >= QUEUE_LIMIT
    }

    /// Tells whether acknowledging `sn` covers only packets already sent,
    /// as `update_recv_ack` needs.
    pub fn acks_only_sent(&self, sn: i64) -> (r: bool)
        requires
            self@.wf(),
        ensures
            r == self@.acks_only_sent(sn),
    {
        proof {
            lemma_acked_prefix_bound(self@.que, sn);
        }
        if self.send_index < self.que.len() {
            let r = self.que[self.send_index].0 > sn;
            proof {
                if r {
                    if acked_prefix_len(self@.que, sn) > self.send_index {
                        assert(self@.que[self.send_index as int].0 <= sn);
                    }
                } else {
                    if acked_prefix_len(self@.que, sn) <= self.send_index {
                        if acked_prefix_len(self@.que, sn) < self.send_index {
                            assert(self@.que[acked_prefix_len(self@.que, sn) as int].0
                                < self@.que[self.send_index as int].0);
                        }
                    }
                }
            }
            r
        } else {
            true
        }
    }

    /// After reconnecting: drops what the peer acknowledged and sends the
    /// rest again from the start.
    pub fn init_recv_ack(&mut self, sn: i64)
        requires
            old(self)@.wf(),
            old(self)@.acks_only_sent(sn),
        ensures
            final(self)@.que == old(self)@.que.skip(acked_prefix_len(old(self)@.que, sn) as int),
            final(self)@.send_index == 0,
            final(self)@.tail_sn == old(self)@.tail_sn,
            final(self)@.recv_sn == old(self)@.recv_sn,
            final(self)@.sent_ack_sn == old(self)@.sent_ack_sn,
            final(self)@.wf(),
    {
        self.update_recv_ack(sn);
        self.send_index = 0;
    }

    /// Drops the packets that the peer acknowledges with `sn`.
    pub fn update_recv_ack(&mut self, sn: i64)
        requires
            old(self)@.wf(),
            old(self)@.acks_only_sent(sn),
        ensures
            final(self)@.que == old(self)@.que.skip(acked_prefix_len(old(self)@.que, sn) as int),
            final(self)@.send_index == old(self)@.send_index - acked_prefix_len(old(self)@.que, sn),
            final(self)@.tail_sn == old(self)@.tail_sn,
            final(self)@.recv_sn == old(self)@.recv_sn,
            final(self)@.sent_ack_sn == old(self)@.sent_ack_sn,
            final(self)@.wf(),
    {
        let ghost q0 = self@.que;
        let ghost n = acked_prefix_len(q0, sn);
        let ghost k: nat = 0;
        proof {
            lemma_acked_prefix_bound(q0, sn);
            assert(q0.skip(0) =~= q0);
        }
        while self.que.len() > 0 && self.que[0].0 <= sn
            invariant
                k <= n,
                n == acked_prefix_len(q0, sn),
                n <= old(self)@.send_index,
                n <= q0.len(),
                self@.que == q0.skip(k as int),
                self@.send_index == old(self)@.send_index - k,
                self@.tail_sn == old(self)@.tail_sn,
                self@.recv_sn == old(self)@.recv_sn,
                self@.sent_ack_sn == old(self)@.sent_ack_sn,
                old(self)@.wf(),
                q0 == old(self)@.que,
                acked_prefix_len(q0.skip(k as int), sn) == n - k,
            decreases self.que.len(),
        {
            proof {
                if k == n {
                    assert(self@.que[0].0 == self.que@[0].0);
                    assert(acked_prefix_len(self@.que, sn) > 0);
                }
                lemma_acked_prefix_skip(q0, sn, (k + 1) as nat);
            }
            self.send_index = self.send_index - 1;
            let ghost prevq = self.que@;
            self.que.pop_front();
            proof {
                k = k + 1;
                assert forall|i: int| 0 <= i < self@.que.len() implies self@.que[i] == q0.skip(
                    k as int,
                )[i] by {
                    assert(self.que@[i] == prevq[i + 1]);
                    assert(q0.skip(k as int)[i] == q0.skip(k - 1)[i + 1]);
                }
                assert(self@.que =~= q0.skip(k as int));
            }
        }
        proof {
            if k < n {
                lemma_acked_prefix_bound(q0, sn);
                assert(q0.skip(k as int)[0] == q0[k as int]);
                assert(self.que@.len() > 0);
                assert(self@.que[0].0 == self.que@[0].0);
            }
            assert(k == n);
            let q = self@.que;
            assert forall|i: int, j: int| 0 <= i < j < q.len() implies q[i].0 < q[j].0 by {
                assert(q[i] == q0[k + i]);
                assert(q[j] == q0[k + j]);
            }
            assert forall|i: int| 0 <= i < q.len() implies q[i].0 <= self.tail_sn by {
                assert(q[i] == q0[k + i]);
            }
        }
    }

    /// Records that the peer sent sequence number `sn`.
    pub fn update_recv_sn(&mut self, sn: i64)
        ensures
            final(self)@.recv_sn == (if sn > old(self)@.recv_sn {
                sn
            } else {
                old(self)@.recv_sn
            }),
            final(self)@.que == old(self)@.que,
            final(self)@.tail_sn == old(self)@.tail_sn,
            final(self)@.send_index == old(self)@.send_index,
            final(self)@.sent_ack_sn == old(self)@.sent_ack_sn,
    {
        if sn > self.recv_sn {
            self.recv_sn = sn;
        }
    }

    /// Forgets what was acknowledged to the peer.
    pub fn clear_send_ack(&mut self)
        ensures
            final(self)@.sent_ack_sn == 0,
            final(self)@.que == old(self)@.que,
            final(self)@.tail_sn == old(self)@.tail_sn,
            final(self)@.send_index == old(self)@.send_index,
            final(self)@.recv_sn == old(self)@.recv_sn,
    {
        self.sent_ack_sn = 0;
    }

    fn fill_ack_into(&mut self, msg_id: Option<i64>) -> (r: Option<i64>)
        ensures
            (r, final(self)@.sent_ack_sn) == fill_ack(old(self)@, msg_id),
            final(self)@.que == old(self)@.que,
            final(self)@.tail_sn == old(self)@.tail_sn,
            final(self)@.send_index == old(self)@.send_index,
            final(self)@.recv_sn == old(self)@.recv_sn,
    {
        match msg_id {
            Some(ack) => {
                if self.sent_ack_sn < ack {
                    self.sent_ack_sn = ack;
                }
                Some(ack)
            },
            None => {
                if self.sent_ack_sn < self.recv_sn {
                    self.sent_ack_sn = self.recv_sn;
                    Some(self.recv_sn)
                } else {
                    None
                }
            },
        }
    }

    /// Queues a packet of kind `typ` with JSON body `body_json` under the
    /// next sequence number, which it returns. It acknowledges `msg_id`, or
    /// else whatever is received and not yet acknowledged.
    pub fn add_qos1_json(&mut self, typ: PacketType, body_json: &str, msg_id: Option<i64>) -> (r:
        Result<i64, serde_json::Error>)
        requires
            old(self)@.wf(),
            old(self)@.tail_sn < i64::MAX,
        ensures
            final(self)@.wf(),
            final(self)@.sent_ack_sn == fill_ack(old(self)@, msg_id).1,
            final(self)@.send_index == old(self)@.send_index,
            final(self)@.recv_sn == old(self)@.recv_sn,
            r matches Ok(sn) && {
                &&& sn == old(self)@.tail_sn + 1
                &&& final(self)@.tail_sn == sn
                &&& final(self)@.que == old(self)@.que.push(
                    (sn, qos1_json(typ, sn, body_json@, fill_ack(old(self)@, msg_id).0)),
                )
            },
    {
        let sn = self.tail_sn + 1;
        let ack = self.fill_ack_into(msg_id);
        let packet_json = envelope_text(Some(typ.as_num()), Some(sn), Some(body_json), ack)?;
        let ghost before = self@;
        self.que.push_back((sn, packet_json));
        self.tail_sn = sn;
        proof {
            assert(self@.que =~= before.que.push(
                (sn, qos1_json(typ, sn, body_json@, fill_ack(old(self)@, msg_id).0)),
            ));
            let q = self@.que;
            assert forall|i: int, j: int| 0 <= i < j < q.len() implies q[i].0 < q[j].0 by {
                if j < q.len() - 1 {
                    assert(q[i] == before.que[i]);
                    assert(q[j] == before.que[j]);
                } else {
                    assert(q[i] == before.que[i]);
                }
            }
        }
        Ok(sn)
    }

    /// Queues a push that the peer acknowledges when it likes.
    pub fn add_push_json(&mut self, body_json: &str) -> (r: Result<i64, serde_json::Error>)
        requires
            old(self)@.wf(),
            old(self)@.tail_sn < i64::MAX,
        ensures
            final(self)@.wf(),
            final(self)@.sent_ack_sn == fill_ack(old(self)@, None).1,
            final(self)@.send_index == old(self)@.send_index,
            final(self)@.recv_sn == old(self)@.recv_sn,
            r matches Ok(sn) && {
                &&& sn == old(self)@.tail_sn + 1
                &&& final(self)@.tail_sn == sn
                &&& final(self)@.que == old(self)@.que.push(
                    (sn, qos1_json(PacketType::Push1, sn, body_json@, fill_ack(old(self)@, None).0)),
                )
            },
    {
        self.add_qos1_json(PacketType::Push1, body_json, None)
    }

    /// Queues a packet whose body is the JSON text of `body`.
    pub fn add_qos1_typed<B: JsonBody>(&mut self, typ: PacketType, body: &B, msg_id: Option<i64>) -> (r:
        Result<i64, serde_json::Error>)
        requires
            old(self)@.wf(),
            old(self)@.tail_sn < i64::MAX,
        ensures
            final(self)@.wf(),
            final(self)@.send_index == old(self)@.send_index,
            final(self)@.recv_sn == old(self)@.recv_sn,
            r matches Ok(sn) && {
                &&& sn == old(self)@.tail_sn + 1
                &&& final(self)@.tail_sn == sn
                &&& final(self)@.sent_ack_sn == fill_ack(old(self)@, msg_id).1
                &&& final(self)@.que == old(self)@.que.push(
                    (sn, qos1_json(typ, sn, body.json(), fill_ack(old(self)@, msg_id).0)),
                )
            },
    {
        let body_json = body.to_json()?;
        self.add_qos1_json(typ, body_json.as_str(), msg_id)
    }

    /// Queues a push whose body is the JSON text of `body`.
    pub fn add_push_typed<B: JsonBody>(&mut self, body: &B) -> (r: Result<i64, serde_json::Error>)
        requires
            old(self)@.wf(),
            old(self)@.tail_sn < i64::MAX,
        ensures
            final(self)@.wf(),
            final(self)@.send_index == old(self)@.send_index,
            final(self)@.recv_sn == old(self)@.recv_sn,
            r matches Ok(sn) && {
                &&& sn == old(self)@.tail_sn + 1
                &&& final(self)@.tail_sn == sn
                &&& final(self)@.sent_ack_sn == fill_ack(old(self)@, None).1
                &&& final(self)@.que == old(self)@.que.push(
                    (sn, qos1_json(PacketType::Push1, sn, body.json(), fill_ack(old(self)@, None).0)),
                )
            },
    {
        self.add_qos1_typed(PacketType::Push1, body, None)
    }

    /// Queues the push announcing that user `user_id` is ready.
    pub fn add_user_ready(&mut self, user_id: &str) -> (r: Result<i64, serde_json::Error>)
        requires
            old(self)@.wf(),
            old(self)@.tail_sn < i64::MAX,
        ensures
            final(self)@.wf(),
            final(self)@.send_index == old(self)@.send_index,
            final(self)@.recv_sn == old(self)@.recv_sn,
            r matches Ok(sn) && {
                &&& sn == old(self)@.tail_sn + 1
                &&& final(self)@.tail_sn == sn
                &&& final(self)@.que == old(self)@.que.push(
                    (
                        sn,
                        qos1_json(
                            PacketType::Push1,
                            sn,
                            (ServerPushRef { typ: ServerPushTypeRef::UReady(IdRef { id: user_id }) }).json(),
                            fill_ack(old(self)@, None).0,
                        ),
                    ),
                )
            },
    {
        self.add_push_typed(&ServerPushRef::user_ready(IdRef { id: user_id }))
    }

    /// Queues a response to request `msg_id` whose body is the JSON text of
    /// `body`.
    pub fn add_response_typed<B: JsonBody>(&mut self, body: &B, msg_id: Option<i64>) -> (r: Result<
        i64,
        serde_json::Error,
    >)
        requires
            old(self)@.wf(),
            old(self)@.tail_sn < i64::MAX,
        ensures
            final(self)@.wf(),
            final(self)@.send_index == old(self)@.send_index,
            final(self)@.recv_sn == old(self)@.recv_sn,
            r matches Ok(sn) && {
                &&& sn == old(self)@.tail_sn + 1
                &&& final(self)@.tail_sn == sn
                &&& final(self)@.sent_ack_sn == fill_ack(old(self)@, msg_id).1
                &&& final(self)@.que == old(self)@.que.push(
                    (sn, qos1_json(PacketType::Response, sn, body.json(), fill_ack(old(self)@, msg_id).0)),
                )
            },
    {
        self.add_qos1_typed(PacketType::Response, body, msg_id)
    }

    /// Queues a failed response to request `msg_id` carrying `status`.
    pub fn add_response_fail(&mut self, msg_id: Option<i64>, status: &Status) -> (r: Result<
        i64,
        serde_json::Error,
    >)
        requires
            old(self)@.wf(),
            old(self)@.tail_sn < i64::MAX,
        ensures
            final(self)@.wf(),
            final(self)@.send_index == old(self)@.send_index,
            final(self)@.recv_sn == old(self)@.recv_sn,
            r matches Ok(sn) && {
                &&& sn == old(self)@.tail_sn + 1
                &&& final(self)@.tail_sn == sn
                &&& final(self)@.sent_ack_sn == fill_ack(old(self)@, msg_id).1
                &&& final(self)@.que == old(self)@.que.push(
                    (
                        sn,
                        qos1_json(
                            PacketType::Response,
                            sn,
                            (ResponseRef { status: Some(status), typ: None }).json(),
                            fill_ack(old(self)@, msg_id).0,
                        ),
                    ),
                )
            },
    {
        let response = ResponseRef { status: Some(status), typ: None };
        self.add_response_typed(&response, msg_id)
    }

    /// The next queued packet not sent yet.
    pub fn next_unsent(&self) -> (r: Option<String>)
        requires
            self@.wf(),
        ensures
            self@.send_index < self@.que.len() ==> (r matches Some(p) && p@ == self@.que[self@.send_index as int].1),
            self@.send_index == self@.que.len() ==> r is None,
    {
        if self.send_index < self.que.len() {
            let p = self.que[self.send_index].1.clone();
            Some(p)
        } else {
            None
        }
    }

    /// Counts the next queued packet as sent.
    pub fn mark_sent(&mut self)
        requires
            old(self)@.wf(),
            old(self)@.send_index < old(self)@.que.len(),
        ensures
            final(self)@.send_index == old(self)@.send_index + 1,
            final(self)@.que == old(self)@.que,
            final(self)@.tail_sn == old(self)@.tail_sn,
            final(self)@.recv_sn == old(self)@.recv_sn,
            final(self)@.sent_ack_sn == old(self)@.sent_ack_sn,
            final(self)@.wf(),
    {
        if self.send_index < self.que.len() {
            self.send_index = self.send_index + 1;
        }
    }

    /// The acknowledgement packet owed to the peer, if any.
    pub fn pending_ack(&self) -> (r: Option<Result<String, serde_json::Error>>)
        ensures
            self@.sent_ack_sn < self@.recv_sn ==> (r matches Some(Ok(t)) && t@ == envelope_json(
                None,
                None,
                None,
                Some(self@.recv_sn as int),
            )),
            self@.sent_ack_sn >= self@.recv_sn ==> r is None,
    {
        if self.sent_ack_sn < self.recv_sn {
            Some(PacketRef::ack_json(self.recv_sn))
        } else {
            None
        }
    }

    /// Counts the owed acknowledgement as sent.
    pub fn mark_ack_sent(&mut self)
        ensures
            final(self)@.sent_ack_sn == old(self)@.recv_sn,
            final(self)@.que == old(self)@.que,
            final(self)@.tail_sn == old(self)@.tail_sn,
            final(self)@.send_index == old(self)@.send_index,
            final(self)@.recv_sn == old(self)@.recv_sn,
    {
        self.sent_ack_sn = self.recv_sn;
    }

    /// Numbers a packet that needs no acknowledgement and returns its JSON
    /// text; it is sent at once, not queued. The caller flushes the queue
    /// before sending it.
    pub fn push0_packet<B: JsonBody>(&mut self, body: &B) -> (r: Result<String, serde_json::Error>)
        requires
            old(self)@.wf(),
            old(self)@.tail_sn < i64::MAX,
        ensures
            final(self)@.wf(),
            final(self)@.que == old(self)@.que,
            final(self)@.send_index == old(self)@.send_index,
            final(self)@.recv_sn == old(self)@.recv_sn,
            r matches Ok(t) && {
                &&& final(self)@.tail_sn == old(self)@.tail_sn + 1
                &&& final(self)@.sent_ack_sn == fill_ack(old(self)@, None).1
                &&& t@ == qos1_json(
                    PacketType::Push0,
                    (old(self)@.tail_sn + 1) as i64,
                    body.json(),
                    fill_ack(old(self)@, None).0,
                )
            },
    {
        let body_json = body.to_json()?;
        let sn = self.tail_sn + 1;
        let ack = self.fill_ack_into(None);
        let json = envelope_text(
            Some(PacketType::Push0.as_num()),
            Some(sn),
            Some(body_json.as_str()),
            ack,
        )?;
        self.tail_sn = sn;
        proof {
            let q = self@.que;
            assert forall|i: int| 0 <= i < q.len() implies q[i].0 <= self.tail_sn by {}
        }
        Ok(json)
    }
}

} // verus!
