//! The room state kept for the host application, and the callbacks it
//! gets: pushes from the server update the known users and their streams,
//! responses resolve the host's pending calls.
use vstd::prelude::*;

use super::defines::{
    glue_stream_type_of, request_frame, to_proto_stream_type, ChatArgs, ConnXCall, ConnXReturn,
    MuteCall, MuteReturn, OnCreateXResponse, PubCall, PubReturn, Status, StreamType, SubCall,
    SubReturn, ToBody, TreeNode, UPubCall, UPubReturn, UnsubCall, UnsubReturn,
};
use crate::client::xfer::{queued, Xfer, XferView};
use crate::proto::json::{json_obj, opt_bool_m, opt_raw_m, str_m, JsonBody};
use crate::proto::response::ResponseType;
use crate::proto::v1::{PacketType, Response};
use crate::proto::v1_ser::{
    BatchEndRequestSer, CloseSessionRequestSer, CreateWebrtcTransportRequestSer, JsonText,
    SubscribeRequestSer, UnsubscribeRequestSer,
};
use super::error::{ClientError, ForeignError};
use super::hearing::Hearing;
use crate::kit::astr::AStr;
use crate::kit::text::str_eq;
use crate::kit::text::{spec_strip_prefix, strip_prefix};
use crate::proto::v1::{
    stream_ids_unique, stream_type_of, ChatNotice, ServerPush, ServerPushType, Stream, TreeState, UserState,
};
use crate::proto::v1;

verus! {

pub struct OnOpenedArgs {
    pub session_id: String,
}

pub struct OnClosedArgs {
    pub status: Status,
}

pub struct OnCreatedXArgs {
    pub dir: i32,
    pub response: OnCreateXResponse,
}

pub struct OnRoomChatArgs {
    pub chat: ChatArgs,
}

pub struct OnUserChatArgs {
    pub chat: ChatArgs,
}

pub struct OnUserJoinedArgs {
    pub user_id: String,
    pub tree: Vec<TreeNode>,
}

pub struct OnUserLeavedArgs {
    pub user_id: String,
}

pub struct OnAddStreamArgs {
    pub user_id: String,
    pub stype: StreamType,
    pub muted: bool,
}

pub struct OnUpdateStreamArgs {
    pub user_id: String,
    pub stype: StreamType,
    pub muted: bool,
}

pub struct OnRemoveStreamArgs {
    pub user_id: String,
    pub stype: StreamType,
}

pub struct OnUpdateUserTreeArgs {
    pub user_id: String,
    pub node: TreeNode,
}

pub struct OnUpdateRoomTreeArgs {
    pub node: TreeNode,
}

/// Callbacks the host application implements. Each callback appends
/// what it was handed, with its answer, to the record `heard`.
pub trait Listener {
    fn on_opened(&self, args: OnOpenedArgs, heard: &mut Hearing) -> (r: Result<(), ForeignError>)
        ensures
            final(heard).calls() == old(heard).calls().push(Logged { call: opened_call(args), answer: r }),
    ;

    fn on_closed(&self, args: OnClosedArgs, heard: &mut Hearing) -> (r: Result<(), ForeignError>)
        ensures
            final(heard).calls() == old(heard).calls().push(Logged { call: closed_call(args), answer: r }),
    ;

    fn on_created_x(&self, args: OnCreatedXArgs, heard: &mut Hearing) -> (r: Result<(), ForeignError>)
        ensures
            final(heard).calls() == old(heard).calls().push(Logged { call: created_x_call(args), answer: r }),
    ;

    fn on_room_chat(&self, args: OnRoomChatArgs, heard: &mut Hearing) -> (r: Result<(), ForeignError>)
        ensures
            final(heard).calls() == old(heard).calls().push(Logged { call: room_chat_call(args), answer: r }),
    ;

    fn on_user_chat(&self, args: OnUserChatArgs, heard: &mut Hearing) -> (r: Result<(), ForeignError>)
        ensures
            final(heard).calls() == old(heard).calls().push(Logged { call: user_chat_call(args), answer: r }),
    ;

    fn on_room_ready(&self, heard: &mut Hearing) -> (r: Result<(), ForeignError>)
        ensures
            final(heard).calls() == old(heard).calls().push(Logged { call: Call::RoomReady, answer: r }),
    ;

    fn on_user_joined(&self, args: OnUserJoinedArgs, heard: &mut Hearing) -> (r: Result<(), ForeignError>)
        ensures
            final(heard).calls() == old(heard).calls().push(Logged { call: user_joined_call(args), answer: r }),
    ;

    fn on_user_leaved(&self, args: OnUserLeavedArgs, heard: &mut Hearing) -> (r: Result<(), ForeignError>)
        ensures
            final(heard).calls() == old(heard).calls().push(Logged { call: user_leaved_call(args), answer: r }),
    ;

    fn on_add_stream(&self, args: OnAddStreamArgs, heard: &mut Hearing) -> (r: Result<(), ForeignError>)
        ensures
            final(heard).calls() == old(heard).calls().push(Logged { call: add_stream_call(args), answer: r }),
    ;

    fn on_update_stream(&self, args: OnUpdateStreamArgs, heard: &mut Hearing) -> (r: Result<(), ForeignError>)
        ensures
            final(heard).calls() == old(heard).calls().push(Logged { call: update_stream_call(args), answer: r }),
    ;

    fn on_remove_stream(&self, args: OnRemoveStreamArgs, heard: &mut Hearing) -> (r: Result<(), ForeignError>)
        ensures
            final(heard).calls() == old(heard).calls().push(Logged { call: remove_stream_call(args), answer: r }),
    ;

    fn on_update_user_tree(&self, args: OnUpdateUserTreeArgs, heard: &mut Hearing) -> (r: Result<(), ForeignError>)
        ensures
            final(heard).calls() == old(heard).calls().push(Logged { call: update_user_tree_call(args), answer: r }),
    ;

    fn on_update_room_tree(&self, args: OnUpdateRoomTreeArgs, heard: &mut Hearing) -> (r: Result<(), ForeignError>)
        ensures
            final(heard).calls() == old(heard).calls().push(Logged { call: update_room_tree_call(args), answer: r }),
    ;
}

/// Resolves a pending transport connection. The call appends what it was handed, with
/// its answer, to the record `heard`.
pub trait CbResolveConnX {
    fn resolve(&self, response: ConnXReturn, heard: &mut Hearing) -> (r: Result<(), ForeignError>)
        ensures
            final(heard).calls() == old(heard).calls().push(Logged { call: Call::ResolvedConnX, answer: r }),
    ;
}

/// Resolves a pending publication. The call appends what it was handed, with
/// its answer, to the record `heard`.
pub trait CbResolvePub {
    fn resolve(&self, response: PubReturn, heard: &mut Hearing) -> (r: Result<(), ForeignError>)
        ensures
            final(heard).calls() == old(heard).calls().push(Logged { call: resolved_pub_call(response), answer: r }),
    ;
}

/// Resolves a pending unpublication. The call appends what it was handed, with
/// its answer, to the record `heard`.
pub trait OnResolveUPub {
    fn resolve(&self, response: UPubReturn, heard: &mut Hearing) -> (r: Result<(), ForeignError>)
        ensures
            final(heard).calls() == old(heard).calls().push(Logged { call: Call::ResolvedUPub, answer: r }),
    ;
}

/// Resolves a pending mute change. The call appends what it was handed, with
/// its answer, to the record `heard`.
pub trait CbResolveMute {
    fn resolve(&self, response: MuteReturn, heard: &mut Hearing) -> (r: Result<(), ForeignError>)
        ensures
            final(heard).calls() == old(heard).calls().push(Logged { call: Call::ResolvedMute, answer: r }),
    ;
}

/// Resolves a pending subscription. The call appends what it was handed, with
/// its answer, to the record `heard`.
pub trait CbResolveSub {
    fn resolve(&self, response: SubReturn, heard: &mut Hearing) -> (r: Result<(), ForeignError>)
        ensures
            final(heard).calls() == old(heard).calls().push(Logged { call: resolved_sub_call(response), answer: r }),
    ;
}

/// Resolves a pending unsubscription. The call appends what it was handed, with
/// its answer, to the record `heard`.
pub trait CbResolveUSub {
    fn resolve(&self, response: UnsubReturn, heard: &mut Hearing) -> (r: Result<(), ForeignError>)
        ensures
            final(heard).calls() == old(heard).calls().push(Logged { call: Call::ResolvedUSub, answer: r }),
    ;
}

/// A tree operation by its characters.
pub struct NodeView {
    pub path: Seq<char>,
    pub value: Option<Seq<char>>,
    pub prune: Option<bool>,
}

pub open spec fn opt_view(v: Option<String>) -> Option<Seq<char>> {
    match v {
        Some(s) => Some(s@),
        None => None,
    }
}

pub open spec fn node_view(n: TreeNode) -> NodeView {
    NodeView { path: n.path@, value: opt_view(n.value), prune: n.prune }
}

pub open spec fn nodes_view(t: Seq<TreeNode>) -> Seq<NodeView> {
    t.map_values(|n: TreeNode| node_view(n))
}

/// A callback made to the host, by what it was handed. Stream types are
/// given by their numbers; the host gets the stream type of that number.
pub enum Call {
    Opened(Seq<char>),
    Closed(i32, Seq<char>),
    /// direction, transport id, ICE parameters, ICE candidates, DTLS
    /// parameters
    CreatedX(i32, Seq<char>, Option<Seq<char>>, Seq<char>, Option<Seq<char>>),
    /// from, to, body
    RoomChat(Seq<char>, Seq<char>, Seq<char>),
    /// from, to, body
    UserChat(Seq<char>, Seq<char>, Seq<char>),
    RoomReady,
    UserJoined(Seq<char>, Seq<NodeView>),
    UserLeaved(Seq<char>),
    /// user, stream type number, muted
    AddStream(Seq<char>, i32, bool),
    /// user, stream type number, muted
    UpdateStream(Seq<char>, i32, bool),
    /// user, stream type number
    RemoveStream(Seq<char>, i32),
    UpdateUserTree(Seq<char>, NodeView),
    UpdateRoomTree(NodeView),
    ResolvedConnX,
    ResolvedPub(Seq<char>),
    ResolvedUPub,
    ResolvedMute,
    /// transport id, consumer id, producer id, stream id, RTP parameters
    ResolvedSub(Seq<char>, Seq<char>, Seq<char>, Seq<char>, Option<Seq<char>>),
    ResolvedUSub,
}

/// A callback made and what the host answered.
pub struct Logged {
    pub call: Call,
    pub answer: Result<(), ForeignError>,
}

/// The log of a plan whose callbacks all succeeded.
pub open spec fn ok_log(p: Seq<Call>) -> Seq<Logged> {
    p.map_values(|c: Call| Logged { call: c, answer: Ok(()) })
}

/// The stream type number a callback carries, if any.
pub open spec fn stype_of_call(c: Call) -> Option<i32> {
    match c {
        Call::AddStream(_, s, _) => Some(s),
        Call::UpdateStream(_, s, _) => Some(s),
        Call::RemoveStream(_, s) => Some(s),
        _ => None,
    }
}

pub open spec fn call_valid(c: Call) -> bool {
    match stype_of_call(c) {
        Some(s) => stream_type_of(s) is Some,
        None => true,
    }
}

/// Every stream type number in the plan names a stream type.
pub open spec fn calls_valid(p: Seq<Call>) -> bool {
    forall|i: int| 0 <= i < p.len() ==> #[trigger] call_valid(p[i])
}

/// `t` is what carrying out plan `p` logged, ending with `r`: the callbacks
/// are made in order until one fails or carries a number that names no
/// stream type; success means that all were made and accepted, and a
/// failed callback ends the run with the host's own error.
pub open spec fn ran(p: Seq<Call>, t: Seq<Logged>, r: Result<(), ClientError>) -> bool {
    match r {
        Ok(_) => t == ok_log(p) && calls_valid(p),
        Err(ClientError::Callback(e)) => {
            &&& 1 <= t.len() <= p.len()
            &&& t.drop_last() == ok_log(p.take(t.len() - 1))
            &&& t.last() == Logged { call: p[t.len() - 1], answer: Err(e) }
            &&& calls_valid(p.take(t.len() as int))
        },
        Err(ClientError::InvalidStreamType(v)) => {
            &&& t.len() < p.len()
            &&& t == ok_log(p.take(t.len() as int))
            &&& stype_of_call(p[t.len() as int]) == Some(v)
            &&& stream_type_of(v) is None
            &&& calls_valid(p.take(t.len() as int))
        },
        _ => false,
    }
}

pub proof fn lemma_ran_empty()
    ensures
        ran(Seq::empty(), Seq::empty(), Ok(())),
{
    assert(ok_log(Seq::empty()) =~= Seq::<Logged>::empty());
}

/// Carrying out `p1` in full and then `p2` is carrying out `p1 + p2`.
pub proof fn lemma_ran_then(
    p1: Seq<Call>,
    t1: Seq<Logged>,
    p2: Seq<Call>,
    t2: Seq<Logged>,
    r: Result<(), ClientError>,
)
    requires
        ran(p1, t1, Ok(())),
        ran(p2, t2, r),
    ensures
        ran(p1 + p2, t1 + t2, r),
{
    let p = p1 + p2;
    let t = t1 + t2;
    assert(t1.len() == p1.len());
    match r {
        Ok(_) => {
            assert(t =~= ok_log(p));
            assert forall|i: int| 0 <= i < p.len() implies #[trigger] call_valid(p[i]) by {
                if i < p1.len() {
                    assert(call_valid(p1[i]));
                } else {
                    assert(call_valid(p2[i - p1.len()]));
                }
            }
        },
        Err(ClientError::Callback(_)) => {
            let k = t2.len();
            assert(p.take(t.len() - 1) =~= p1 + p2.take(k - 1));
            assert(t.drop_last() =~= t1 + t2.drop_last());
            assert(ok_log(p1 + p2.take(k - 1)) =~= ok_log(p1) + ok_log(p2.take(k - 1)));
            assert(p[t.len() - 1] == p2[k - 1]);
            assert(p.take(t.len() as int) =~= p1 + p2.take(k as int));
            assert forall|i: int| 0 <= i < p.take(t.len() as int).len() implies #[trigger] call_valid(
                p.take(t.len() as int)[i],
            ) by {
                if i < p1.len() {
                    assert(call_valid(p1[i]));
                } else {
                    assert(call_valid(p2.take(k as int)[i - p1.len()]));
                }
            }
        },
        Err(ClientError::InvalidStreamType(v)) => {
            let k = t2.len();
            assert(p.take(t.len() as int) =~= p1 + p2.take(k as int));
            assert(ok_log(p1 + p2.take(k as int)) =~= ok_log(p1) + ok_log(p2.take(k as int)));
            assert(p[t.len() as int] == p2[k as int]);
            assert forall|i: int| 0 <= i < p.take(t.len() as int).len() implies #[trigger] call_valid(
                p.take(t.len() as int)[i],
            ) by {
                if i < p1.len() {
                    assert(call_valid(p1[i]));
                } else {
                    assert(call_valid(p2.take(k as int)[i - p1.len()]));
                }
            }
        },
        _ => {},
    }
}

/// A plan cut short by a failure is also a cut-short run of any longer
/// plan that starts with it.
pub proof fn lemma_ran_stopped(p1: Seq<Call>, t1: Seq<Logged>, r: Result<(), ClientError>, p2: Seq<Call>)
    requires
        ran(p1, t1, r),
        r is Err,
    ensures
        ran(p1 + p2, t1, r),
{
    let p = p1 + p2;
    match r {
        Err(ClientError::Callback(_)) => {
            assert(p.take(t1.len() - 1) =~= p1.take(t1.len() - 1));
            assert(p.take(t1.len() as int) =~= p1.take(t1.len() as int));
        },
        Err(ClientError::InvalidStreamType(v)) => {
            assert(p.take(t1.len() as int) =~= p1.take(t1.len() as int));
        },
        _ => {},
    }
}

/// `after` is `before` followed by what carrying out plan `p` logged,
/// ending with `r`.
pub open spec fn extends(before: Seq<Logged>, after: Seq<Logged>, p: Seq<Call>, r: Result<(), ClientError>) -> bool {
    &&& before.len() <= after.len()
    &&& after.take(before.len() as int) == before
    &&& ran(p, after.skip(before.len() as int), r)
}

pub proof fn lemma_extends_none(a: Seq<Logged>)
    ensures
        extends(a, a, Seq::empty(), Ok(())),
{
    assert(a.take(a.len() as int) =~= a);
    assert(a.skip(a.len() as int) =~= Seq::<Logged>::empty());
    lemma_ran_empty();
}

pub proof fn lemma_extends_then(
    a: Seq<Logged>,
    b: Seq<Logged>,
    c: Seq<Logged>,
    p1: Seq<Call>,
    p2: Seq<Call>,
    r: Result<(), ClientError>,
)
    requires
        extends(a, b, p1, Ok(())),
        extends(b, c, p2, r),
    ensures
        extends(a, c, p1 + p2, r),
{
    assert(c.take(a.len() as int) =~= b.take(a.len() as int));
    assert(c.skip(a.len() as int) =~= b.skip(a.len() as int) + c.skip(b.len() as int));
    lemma_ran_then(p1, b.skip(a.len() as int), p2, c.skip(b.len() as int), r);
}

pub proof fn lemma_extends_stop(
    a: Seq<Logged>,
    b: Seq<Logged>,
    p1: Seq<Call>,
    r: Result<(), ClientError>,
    p2: Seq<Call>,
)
    requires
        extends(a, b, p1, r),
        r is Err,
    ensures
        extends(a, b, p1 + p2, r),
{
    lemma_ran_stopped(p1, b.skip(a.len() as int), r, p2);
}

/// Holds the host's listener and the record of every callback made to it.
pub struct Notifier<L> {
    listener: L,
    heard: Hearing,
}

/// The failure of a callback: the host's error, carried.
fn callback_result(res: Result<(), ForeignError>) -> (r: Result<(), ClientError>)
    ensures
        r == match res {
            Ok(_) => Ok::<(), ClientError>(()),
            Err(e) => Err(ClientError::Callback(e)),
        },
{
    match res {
        Ok(()) => Ok(()),
        Err(e) => Err(ClientError::Callback(e)),
    }
}

/// The host's stream type for a number, or the error for a number that
/// names none.
fn host_stream_type(v: i32) -> (r: Result<StreamType, ClientError>)
    ensures
        r matches Ok(t) ==> glue_stream_type_of(v) == Some(t) && stream_type_of(v) is Some,
        r is Err ==> r == Err::<StreamType, ClientError>(ClientError::InvalidStreamType(v))
            && stream_type_of(v) is None,
{
    match StreamType::from_value(v) {
        Ok(t) => Ok(t),
        Err(e) => Err(ClientError::InvalidStreamType(v)),
    }
}

/// What the host is handed by each callback, as a logged call.
pub open spec fn opened_call(a: OnOpenedArgs) -> Call {
    Call::Opened(a.session_id@)
}

pub open spec fn closed_call(a: OnClosedArgs) -> Call {
    Call::Closed(a.status.code, a.status.reason@)
}

pub open spec fn created_x_call(a: OnCreatedXArgs) -> Call {
    Call::CreatedX(
        a.dir,
        a.response.xid@,
        opt_view(a.response.ice_param),
        a.response.ice_candidates@,
        opt_view(a.response.dtls),
    )
}

pub open spec fn room_chat_call(a: OnRoomChatArgs) -> Call {
    Call::RoomChat(a.chat.from@, a.chat.to@, a.chat.body@)
}

pub open spec fn user_chat_call(a: OnUserChatArgs) -> Call {
    Call::UserChat(a.chat.from@, a.chat.to@, a.chat.body@)
}

pub open spec fn user_joined_call(a: OnUserJoinedArgs) -> Call {
    Call::UserJoined(a.user_id@, nodes_view(a.tree@))
}

pub open spec fn user_leaved_call(a: OnUserLeavedArgs) -> Call {
    Call::UserLeaved(a.user_id@)
}

/// The number of the host's stream type.
pub open spec fn host_stream_type_number(t: StreamType) -> i32 {
    v1::stream_type_value(to_proto_stream_type(t))
}

pub open spec fn add_stream_call(a: OnAddStreamArgs) -> Call {
    Call::AddStream(a.user_id@, host_stream_type_number(a.stype), a.muted)
}

pub open spec fn update_stream_call(a: OnUpdateStreamArgs) -> Call {
    Call::UpdateStream(a.user_id@, host_stream_type_number(a.stype), a.muted)
}

pub open spec fn remove_stream_call(a: OnRemoveStreamArgs) -> Call {
    Call::RemoveStream(a.user_id@, host_stream_type_number(a.stype))
}

pub open spec fn update_user_tree_call(a: OnUpdateUserTreeArgs) -> Call {
    Call::UpdateUserTree(a.user_id@, node_view(a.node))
}

pub open spec fn update_room_tree_call(a: OnUpdateRoomTreeArgs) -> Call {
    Call::UpdateRoomTree(node_view(a.node))
}

pub open spec fn resolved_pub_call(a: PubReturn) -> Call {
    Call::ResolvedPub(a.producer_id@)
}

pub open spec fn resolved_sub_call(a: SubReturn) -> Call {
    Call::ResolvedSub(a.x_id@, a.consumer_id@, a.producer_id@, a.stream_id@, opt_view(a.rtp))
}

proof fn lemma_host_stream_type_number(v: i32, t: StreamType)
    requires
        glue_stream_type_of(v) == Some(t),
    ensures
        host_stream_type_number(t) == v,
{
}

impl<L: Listener> Notifier<L> {
    pub fn new(listener: L) -> (r: Self)
        ensures
            r.log() == Seq::<Logged>::empty(),
            r.listener() == listener,
    {
        Notifier { listener, heard: Hearing::new() }
    }

    /// The callbacks made so far, oldest first, with the host's answers.
    pub closed spec fn log(&self) -> Seq<Logged> {
        self.heard.calls()
    }

    pub closed spec fn listener(&self) -> L {
        self.listener
    }

    /// The outcome of callback `c`, just made and recorded with its answer
    /// `res` after the record `before`.
    fn logged(&self, c: Ghost<Call>, before: Ghost<Seq<Logged>>, res: Result<(), ForeignError>) -> (r: Result<
        (),
        ClientError,
    >)
        requires
            call_valid(c@),
            self.log() == before@.push(Logged { call: c@, answer: res }),
        ensures
            extends(before@, self.log(), seq![c@], r),
    {
        proof {
            let p = seq![c@];
            let t = seq![Logged { call: c@, answer: res }];
            assert(self.log().take(before@.len() as int) =~= before@);
            assert(self.log().skip(before@.len() as int) =~= t);
            assert(p.take(1) =~= p);
            assert(p.take(0) =~= Seq::<Call>::empty());
            assert(ok_log(Seq::<Call>::empty()) =~= Seq::<Logged>::empty());
            assert(t.drop_last() =~= Seq::<Logged>::empty());
            assert(ok_log(p) =~= seq![Logged { call: c@, answer: Ok(()) }]);
            assert(t.last() == Logged { call: p[0], answer: res });
            assert(calls_valid(p.take(1)));
        }
        let ghost res0 = res;
        let r = callback_result(res);
        proof {
            let t = self.log().skip(before@.len() as int);
            match res0 {
                Ok(u) => {
                    assert(u == ());
                    assert(res0 == Ok::<(), ForeignError>(()));
                    assert(t =~= ok_log(seq![c@]));
                },
                Err(e) => {
                    assert(r == Err::<(), ClientError>(ClientError::Callback(e)));
                    assert(t.last() == Logged { call: seq![c@][t.len() - 1], answer: Err(e) });
                },
            }
        }
        r
    }

    /// Stops before a callback whose stream type number names no type.
    fn refused(&self, c: Ghost<Call>, v: i32) -> (r: Result<(), ClientError>)
        requires
            stype_of_call(c@) == Some(v),
            stream_type_of(v) is None,
        ensures
            r == Err::<(), ClientError>(ClientError::InvalidStreamType(v)),
            extends(self.log(), self.log(), seq![c@], r),
    {
        proof {
            let a = self.log();
            assert(a.take(a.len() as int) =~= a);
            assert(a.skip(a.len() as int) =~= Seq::<Logged>::empty());
            assert(seq![c@].take(0) =~= Seq::<Call>::empty());
            assert(ok_log(Seq::<Call>::empty()) =~= Seq::<Logged>::empty());
        }
        Err(ClientError::InvalidStreamType(v))
    }

    pub fn opened(&mut self, session_id: String) -> (r: Result<(), ClientError>)
        ensures
            extends(old(self).log(), final(self).log(), seq![Call::Opened(session_id@)], r),
            final(self).listener() == old(self).listener(),
    {
        let args = OnOpenedArgs { session_id };
        let c = Ghost(opened_call(args));
        let ghost before = self.log();
        let res = self.listener.on_opened(args, &mut self.heard);
        self.logged(c, Ghost(before), res)
    }

    pub fn closed(&mut self, status: Status) -> (r: Result<(), ClientError>)
        ensures
            extends(old(self).log(), final(self).log(), seq![Call::Closed(status.code, status.reason@)], r),
            final(self).listener() == old(self).listener(),
    {
        let args = OnClosedArgs { status };
        let c = Ghost(closed_call(args));
        let ghost before = self.log();
        let res = self.listener.on_closed(args, &mut self.heard);
        self.logged(c, Ghost(before), res)
    }

    pub fn created_x(&mut self, dir: i32, response: OnCreateXResponse) -> (r: Result<(), ClientError>)
        ensures
            extends(
                old(self).log(),
                final(self).log(),
                seq![
                    Call::CreatedX(
                        dir,
                        response.xid@,
                        opt_view(response.ice_param),
                        response.ice_candidates@,
                        opt_view(response.dtls),
                    ),
                ],
                r,
            ),
            final(self).listener() == old(self).listener(),
    {
        let args = OnCreatedXArgs { dir, response };
        let c = Ghost(created_x_call(args));
        let ghost before = self.log();
        let res = self.listener.on_created_x(args, &mut self.heard);
        self.logged(c, Ghost(before), res)
    }

    pub fn room_chat(&mut self, from: String, to: String, body: String) -> (r: Result<(), ClientError>)
        ensures
            extends(old(self).log(), final(self).log(), seq![Call::RoomChat(from@, to@, body@)], r),
            final(self).listener() == old(self).listener(),
    {
        let args = OnRoomChatArgs { chat: ChatArgs { from, to, body } };
        let c = Ghost(room_chat_call(args));
        let ghost before = self.log();
        let res = self.listener.on_room_chat(args, &mut self.heard);
        self.logged(c, Ghost(before), res)
    }

    pub fn user_chat(&mut self, from: String, to: String, body: String) -> (r: Result<(), ClientError>)
        ensures
            extends(old(self).log(), final(self).log(), seq![Call::UserChat(from@, to@, body@)], r),
            final(self).listener() == old(self).listener(),
    {
        let args = OnUserChatArgs { chat: ChatArgs { from, to, body } };
        let c = Ghost(user_chat_call(args));
        let ghost before = self.log();
        let res = self.listener.on_user_chat(args, &mut self.heard);
        self.logged(c, Ghost(before), res)
    }

    pub fn room_ready(&mut self) -> (r: Result<(), ClientError>)
        ensures
            extends(old(self).log(), final(self).log(), seq![Call::RoomReady], r),
            final(self).listener() == old(self).listener(),
    {
        let ghost before = self.log();
        let res = self.listener.on_room_ready(&mut self.heard);
        self.logged(Ghost(Call::RoomReady), Ghost(before), res)
    }

    pub fn user_joined(&mut self, user_id: String, tree: Vec<TreeNode>) -> (r: Result<(), ClientError>)
        ensures
            extends(old(self).log(), final(self).log(), seq![Call::UserJoined(user_id@, nodes_view(tree@))], r),
            final(self).listener() == old(self).listener(),
    {
        let args = OnUserJoinedArgs { user_id, tree };
        let c = Ghost(user_joined_call(args));
        let ghost before = self.log();
        let res = self.listener.on_user_joined(args, &mut self.heard);
        self.logged(c, Ghost(before), res)
    }

    pub fn user_leaved(&mut self, user_id: String) -> (r: Result<(), ClientError>)
        ensures
            extends(old(self).log(), final(self).log(), seq![Call::UserLeaved(user_id@)], r),
            final(self).listener() == old(self).listener(),
    {
        let args = OnUserLeavedArgs { user_id };
        let c = Ghost(user_leaved_call(args));
        let ghost before = self.log();
        let res = self.listener.on_user_leaved(args, &mut self.heard);
        self.logged(c, Ghost(before), res)
    }

    /// Announces a stream of type number `v`; stops with an error when `v`
    /// names no stream type.
    pub fn add_stream(&mut self, user_id: String, v: i32, muted: bool) -> (r: Result<(), ClientError>)
        ensures
            extends(old(self).log(), final(self).log(), seq![Call::AddStream(user_id@, v, muted)], r),
            final(self).listener() == old(self).listener(),
    {
        let c = Ghost(Call::AddStream(user_id@, v, muted));
        let stype = match host_stream_type(v) {
            Ok(t) => t,
            Err(_) => {
                return self.refused(c, v);
            },
        };
        let args = OnAddStreamArgs { user_id, stype, muted };
        proof {
            lemma_host_stream_type_number(v, args.stype);
        }
        let c = Ghost(add_stream_call(args));
        let ghost before = self.log();
        let res = self.listener.on_add_stream(args, &mut self.heard);
        self.logged(c, Ghost(before), res)
    }

    pub fn update_stream(&mut self, user_id: String, v: i32, muted: bool) -> (r: Result<(), ClientError>)
        ensures
            extends(old(self).log(), final(self).log(), seq![Call::UpdateStream(user_id@, v, muted)], r),
            final(self).listener() == old(self).listener(),
    {
        let c = Ghost(Call::UpdateStream(user_id@, v, muted));
        let stype = match host_stream_type(v) {
            Ok(t) => t,
            Err(_) => {
                return self.refused(c, v);
            },
        };
        let args = OnUpdateStreamArgs { user_id, stype, muted };
        proof {
            lemma_host_stream_type_number(v, args.stype);
        }
        let c = Ghost(update_stream_call(args));
        let ghost before = self.log();
        let res = self.listener.on_update_stream(args, &mut self.heard);
        self.logged(c, Ghost(before), res)
    }

    pub fn remove_stream(&mut self, user_id: String, v: i32) -> (r: Result<(), ClientError>)
        ensures
            extends(old(self).log(), final(self).log(), seq![Call::RemoveStream(user_id@, v)], r),
            final(self).listener() == old(self).listener(),
    {
        let c = Ghost(Call::RemoveStream(user_id@, v));
        let stype = match host_stream_type(v) {
            Ok(t) => t,
            Err(_) => {
                return self.refused(c, v);
            },
        };
        let args = OnRemoveStreamArgs { user_id, stype };
        proof {
            lemma_host_stream_type_number(v, args.stype);
        }
        let c = Ghost(remove_stream_call(args));
        let ghost before = self.log();
        let res = self.listener.on_remove_stream(args, &mut self.heard);
        self.logged(c, Ghost(before), res)
    }

    pub fn update_user_tree(&mut self, user_id: String, node: TreeNode) -> (r: Result<(), ClientError>)
        ensures
            extends(old(self).log(), final(self).log(), seq![Call::UpdateUserTree(user_id@, node_view(node))], r),
            final(self).listener() == old(self).listener(),
    {
        let args = OnUpdateUserTreeArgs { user_id, node };
        let c = Ghost(update_user_tree_call(args));
        let ghost before = self.log();
        let res = self.listener.on_update_user_tree(args, &mut self.heard);
        self.logged(c, Ghost(before), res)
    }

    pub fn update_room_tree(&mut self, node: TreeNode) -> (r: Result<(), ClientError>)
        ensures
            extends(old(self).log(), final(self).log(), seq![Call::UpdateRoomTree(node_view(node))], r),
            final(self).listener() == old(self).listener(),
    {
        let args = OnUpdateRoomTreeArgs { node };
        let c = Ghost(update_room_tree_call(args));
        let ghost before = self.log();
        let res = self.listener.on_update_room_tree(args, &mut self.heard);
        self.logged(c, Ghost(before), res)
    }

}


/// `a` is the first part of `b`.
pub open spec fn is_prefix<T>(a: Seq<T>, b: Seq<T>) -> bool {
    a.len() <= b.len() && b.take(a.len() as int) == a
}

pub proof fn lemma_prefix_concat<T>(a: Seq<T>, b: Seq<T>)
    ensures
        is_prefix(a, a + b),
{
    assert((a + b).take(a.len() as int) =~= a);
}

pub proof fn lemma_prefix_trans<T>(a: Seq<T>, b: Seq<T>, c: Seq<T>)
    requires
        is_prefix(a, b),
        is_prefix(b, c),
    ensures
        is_prefix(a, c),
{
    assert(c.take(a.len() as int) =~= b.take(a.len() as int));
}

/// A run cut short by a failure is a cut-short run of every plan that
/// starts with what was planned.
pub proof fn lemma_extends_prefix_stop(
    a: Seq<Logged>,
    b: Seq<Logged>,
    p1: Seq<Call>,
    r: Result<(), ClientError>,
    p: Seq<Call>,
)
    requires
        extends(a, b, p1, r),
        r is Err,
        is_prefix(p1, p),
    ensures
        extends(a, b, p, r),
{
    assert(p =~= p1 + p.skip(p1.len() as int));
    lemma_extends_stop(a, b, p1, r, p.skip(p1.len() as int));
}

/// Where a user is in joining the room.
#[derive(Debug, Clone, Copy, PartialEq, Eq, Structural)]
pub enum UserStage {
    /// known, not announced yet
    Init,
    /// announced to the host
    Ready,
}

/// What the client knows of a user.
#[derive(Debug)]
pub struct UserCell {
    pub user_id: AStr,
    pub state: UserState,
    /// tree operations received before the user was announced
    pub tree: Vec<TreeNode>,
    pub stage: UserStage,
}

/// Whether the user publishes a camera, microphone and screen stream, and
/// if so whether it is muted.
#[derive(Debug, Clone, Copy, PartialEq, Eq)]
pub struct UserBrief {
    pub camera_muted: Option<bool>,
    pub mic_muted: Option<bool>,
    pub screen_muted: Option<bool>,
}

/// The stream stored under id `id` (the first such entry).
pub open spec fn find_stream(streams: Seq<(String, Stream)>, id: Seq<char>) -> Option<Stream>
    decreases streams.len(),
{
    if streams.len() == 0 {
        None
    } else if streams[0].0@ == id {
        Some(streams[0].1)
    } else {
        find_stream(streams.drop_first(), id)
    }
}

/// Whether the first stream of type number `v` is muted, if there is one.
pub open spec fn first_muted(streams: Seq<(String, Stream)>, v: i32) -> Option<bool>
    decreases streams.len(),
{
    if streams.len() == 0 {
        None
    } else if streams[0].1.stype == v {
        Some(streams[0].1.muted)
    } else {
        first_muted(streams.drop_first(), v)
    }
}

proof fn lemma_find_stream_skip(s: Seq<(String, Stream)>, id: Seq<char>, i: int)
    requires
        0 <= i < s.len(),
        s[i].0@ != id,
    ensures
        find_stream(s.skip(i), id) == find_stream(s.skip(i + 1), id),
{
    assert(s.skip(i).drop_first() =~= s.skip(i + 1));
}

proof fn lemma_first_muted_skip(s: Seq<(String, Stream)>, v: i32, i: int)
    requires
        0 <= i < s.len(),
        s[i].1.stype != v,
    ensures
        first_muted(s.skip(i), v) == first_muted(s.skip(i + 1), v),
{
    assert(s.skip(i).drop_first() =~= s.skip(i + 1));
}

/// Looks up the stream stored under `id`.
fn find_stream_index(streams: &Vec<(String, Stream)>, id: &str) -> (r: Option<usize>)
    ensures
        match r {
            Some(j) => j < streams@.len() && find_stream(streams@, id@) == Some(streams@[j as int].1),
            None => find_stream(streams@, id@) is None,
        },
{
    let mut i: usize = 0;
    proof {
        assert(streams@.skip(0) =~= streams@);
    }
    while i < streams.len()
        invariant
            i <= streams@.len(),
            find_stream(streams@, id@) == find_stream(streams@.skip(i as int), id@),
        decreases streams.len() - i,
    {
        if str_eq(streams[i].0.as_str(), id) {
            proof {
                assert(streams@.skip(i as int)[0] == streams@[i as int]);
            }
            return Some(i);
        }
        proof {
            lemma_find_stream_skip(streams@, id@, i as int);
        }
        i = i + 1;
    }
    proof {
        assert(streams@.skip(i as int).len() == 0);
    }
    None
}

/// The plan for one stream the user had: gone, replaced by another
/// producer, or changed in muting.
pub open spec fn old_step(uid: Seq<char>, e: (String, Stream), new: Seq<(String, Stream)>) -> Seq<Call> {
    match find_stream(new, e.0@) {
        Some(ns) => if e.1.producer_id@ != ns.producer_id@ {
            seq![Call::RemoveStream(uid, e.1.stype), Call::AddStream(uid, ns.stype, ns.muted)]
        } else if e.1.muted != ns.muted {
            seq![Call::UpdateStream(uid, e.1.stype, ns.muted)]
        } else {
            Seq::empty()
        },
        None => seq![Call::RemoveStream(uid, e.1.stype)],
    }
}

pub open spec fn old_part(uid: Seq<char>, olds: Seq<(String, Stream)>, new: Seq<(String, Stream)>) -> Seq<
    Call,
>
    decreases olds.len(),
{
    if olds.len() == 0 {
        Seq::empty()
    } else {
        old_part(uid, olds.drop_last(), new) + old_step(uid, olds.last(), new)
    }
}

/// The plan for one stream the user has now: announced when it is new.
pub open spec fn new_step(uid: Seq<char>, e: (String, Stream), old: Seq<(String, Stream)>) -> Seq<Call> {
    if find_stream(old, e.0@) is None {
        seq![Call::AddStream(uid, e.1.stype, e.1.muted)]
    } else {
        Seq::empty()
    }
}

pub open spec fn new_part(uid: Seq<char>, news: Seq<(String, Stream)>, old: Seq<(String, Stream)>) -> Seq<
    Call,
>
    decreases news.len(),
{
    if news.len() == 0 {
        Seq::empty()
    } else {
        new_part(uid, news.drop_last(), old) + new_step(uid, news.last(), old)
    }
}

/// The callbacks that tell the host how a user's streams changed from
/// `old` to `new`: first for each stream it had, in order, then for each
/// new stream, in order.
pub open spec fn delta_calls(uid: Seq<char>, old: Seq<(String, Stream)>, new: Seq<(String, Stream)>) -> Seq<
    Call,
> {
    old_part(uid, old, new) + new_part(uid, new, old)
}

proof fn lemma_old_part_prefix(uid: Seq<char>, s: Seq<(String, Stream)>, new: Seq<(String, Stream)>, i: int)
    requires
        0 <= i <= s.len(),
    ensures
        is_prefix(old_part(uid, s.take(i), new), old_part(uid, s, new)),
    decreases s.len() - i,
{
    if i == s.len() {
        assert(s.take(i) =~= s);
        assert(old_part(uid, s, new).take(old_part(uid, s, new).len() as int) =~= old_part(uid, s, new));
    } else {
        lemma_old_part_prefix(uid, s, new, i + 1);
        assert(s.take(i + 1).drop_last() =~= s.take(i));
        lemma_prefix_concat(old_part(uid, s.take(i), new), old_step(uid, s.take(i + 1).last(), new));
        lemma_prefix_trans(
            old_part(uid, s.take(i), new),
            old_part(uid, s.take(i + 1), new),
            old_part(uid, s, new),
        );
    }
}

proof fn lemma_new_part_prefix(uid: Seq<char>, s: Seq<(String, Stream)>, old: Seq<(String, Stream)>, i: int)
    requires
        0 <= i <= s.len(),
    ensures
        is_prefix(new_part(uid, s.take(i), old), new_part(uid, s, old)),
    decreases s.len() - i,
{
    if i == s.len() {
        assert(s.take(i) =~= s);
        assert(new_part(uid, s, old).take(new_part(uid, s, old).len() as int) =~= new_part(uid, s, old));
    } else {
        lemma_new_part_prefix(uid, s, old, i + 1);
        assert(s.take(i + 1).drop_last() =~= s.take(i));
        lemma_prefix_concat(new_part(uid, s.take(i), old), new_step(uid, s.take(i + 1).last(), old));
        lemma_prefix_trans(
            new_part(uid, s.take(i), old),
            new_part(uid, s.take(i + 1), old),
            new_part(uid, s, old),
        );
    }
}

impl UserCell {
    /// Tells the host how the user's streams change from the current state
    /// to `new_state`, as `delta_calls` plans it.
    #[verifier::spinoff_prover]
    pub fn delta<L: Listener>(&self, new_state: &UserState, listener: &mut Notifier<L>) -> (r: Result<
        (),
        ClientError,
    >)
        ensures
            extends(
                old(listener).log(),
                final(listener).log(),
                delta_calls(self.user_id@, self.state.streams@, new_state.streams@),
                r,
            ),
            final(listener).listener() == old(listener).listener(),
    {
        let ghost uid = self.user_id@;
        let ghost olds = self.state.streams@;
        let ghost news = new_state.streams@;
        let ghost plan = delta_calls(uid, olds, news);
        let ghost log0 = listener.log();
        let old_streams = &self.state.streams;
        let new_streams = &new_state.streams;
        let mut i: usize = 0;
        proof {
            lemma_extends_none(log0);
            assert(olds.take(0) =~= Seq::<(String, Stream)>::empty());
        }
        while i < old_streams.len()
            invariant
                i <= old_streams@.len(),
                old_streams@ == olds,
                new_streams@ == news,
                uid == self.user_id@,
                olds == self.state.streams@,
                news == new_state.streams@,
                plan == delta_calls(uid, olds, news),
                extends(log0, listener.log(), old_part(uid, olds.take(i as int), news), Ok(())),
                listener.listener == old(listener).listener(),
                log0 == old(listener).log(),
            decreases old_streams.len() - i,
        {
            let ghost before = listener.log();
            let r = self.delta_old_step(&old_streams[i], new_streams, listener);
            proof {
                assert(olds.take(i + 1).drop_last() =~= olds.take(i as int));
                assert(olds.take(i + 1).last() == olds[i as int]);
                assert(old_part(uid, olds.take(i + 1), news) == old_part(uid, olds.take(i as int), news)
                    + old_step(uid, olds[i as int], news));
                lemma_extends_then(
                    log0,
                    before,
                    listener.log(),
                    old_part(uid, olds.take(i as int), news),
                    old_step(uid, olds[i as int], news),
                    r,
                );
            }
            if r.is_err() {
                proof {
                    lemma_old_part_prefix(uid, olds, news, i + 1);
                    lemma_prefix_concat(old_part(uid, olds, news), new_part(uid, news, olds));
                    lemma_prefix_trans(
                        old_part(uid, olds.take(i + 1), news),
                        old_part(uid, olds, news),
                        plan,
                    );
                    lemma_extends_prefix_stop(
                        log0,
                        listener.log(),
                        old_part(uid, olds.take(i + 1), news),
                        r,
                        plan,
                    );
                }
                return r;
            }
            i = i + 1;
        }
        proof {
            assert(olds.take(i as int) =~= olds);
            assert(news.take(0) =~= Seq::<(String, Stream)>::empty());
            lemma_extends_none(listener.log());
        }
        let ghost mid = listener.log();
        let mut j: usize = 0;
        while j < new_streams.len()
            invariant
                j <= new_streams@.len(),
                old_streams@ == olds,
                new_streams@ == news,
                uid == self.user_id@,
                olds == self.state.streams@,
                news == new_state.streams@,
                plan == delta_calls(uid, olds, news),
                extends(log0, mid, old_part(uid, olds, news), Ok(())),
                extends(mid, listener.log(), new_part(uid, news.take(j as int), olds), Ok(())),
                listener.listener == old(listener).listener(),
                log0 == old(listener).log(),
            decreases new_streams.len() - j,
        {
            let ghost before = listener.log();
            let r = self.delta_new_step(&new_streams[j], old_streams, listener);
            proof {
                assert(news.take(j + 1).drop_last() =~= news.take(j as int));
                assert(news.take(j + 1).last() == news[j as int]);
                assert(new_part(uid, news.take(j + 1), olds) == new_part(uid, news.take(j as int), olds)
                    + new_step(uid, news[j as int], olds));
                lemma_extends_then(
                    mid,
                    before,
                    listener.log(),
                    new_part(uid, news.take(j as int), olds),
                    new_step(uid, news[j as int], olds),
                    r,
                );
            }
            if r.is_err() {
                proof {
                    lemma_new_part_prefix(uid, news, olds, j + 1);
                    lemma_extends_prefix_stop(
                        mid,
                        listener.log(),
                        new_part(uid, news.take(j + 1), olds),
                        r,
                        new_part(uid, news, olds),
                    );
                    lemma_extends_then(
                        log0,
                        mid,
                        listener.log(),
                        old_part(uid, olds, news),
                        new_part(uid, news, olds),
                        r,
                    );
                }
                return r;
            }
            j = j + 1;
        }
        proof {
            assert(news.take(j as int) =~= news);
            lemma_extends_then(
                log0,
                mid,
                listener.log(),
                old_part(uid, olds, news),
                new_part(uid, news, olds),
                Ok(()),
            );
        }
        Ok(())
    }

    fn delta_old_step<L: Listener>(&self, e: &(String, Stream), new_streams: &Vec<(String, Stream)>, listener: &mut Notifier<L>) -> (r: Result<(), ClientError>)
        ensures
            extends(old(listener).log(), final(listener).log(), old_step(self.user_id@, *e, new_streams@), r),
            final(listener).listener() == old(listener).listener(),
    {
        let ghost uid = self.user_id@;
        let os = &e.1;
        match find_stream_index(new_streams, e.0.as_str()) {
            Some(k) => {
                let ns = &new_streams[k].1;
                if !str_eq(os.producer_id.as_str(), ns.producer_id.as_str()) {
                    let ghost a = listener.log();
                    let r1 = listener.remove_stream(self.user_id.to_string(), os.stype);
                    if r1.is_err() {
                        proof {
                            lemma_extends_stop(a, listener.log(), seq![Call::RemoveStream(uid, os.stype)], r1, seq![Call::AddStream(uid, ns.stype, ns.muted)]);
                            assert(seq![Call::RemoveStream(uid, os.stype)] + seq![Call::AddStream(uid, ns.stype, ns.muted)] =~= old_step(uid, *e, new_streams@));
                        }
                        return r1;
                    }
                    let ghost b = listener.log();
                    let r2 = listener.add_stream(self.user_id.to_string(), ns.stype, ns.muted);
                    proof {
                        lemma_extends_then(a, b, listener.log(), seq![Call::RemoveStream(uid, os.stype)], seq![Call::AddStream(uid, ns.stype, ns.muted)], r2);
                        assert(seq![Call::RemoveStream(uid, os.stype)] + seq![Call::AddStream(uid, ns.stype, ns.muted)] =~= old_step(uid, *e, new_streams@));
                    }
                    r2
                } else if os.muted != ns.muted {
                    listener.update_stream(self.user_id.to_string(), os.stype, ns.muted)
                } else {
                    proof {
                        lemma_extends_none(listener.log());
                    }
                    Ok(())
                }
            },
            None => listener.remove_stream(self.user_id.to_string(), os.stype),
        }
    }

    fn delta_new_step<L: Listener>(&self, e: &(String, Stream), old_streams: &Vec<(String, Stream)>, listener: &mut Notifier<L>) -> (r: Result<(), ClientError>)
        ensures
            extends(old(listener).log(), final(listener).log(), new_step(self.user_id@, *e, old_streams@), r),
            final(listener).listener() == old(listener).listener(),
    {
        match find_stream_index(old_streams, e.0.as_str()) {
            Some(_) => {
                proof {
                    lemma_extends_none(listener.log());
                }
                Ok(())
            },
            None => listener.add_stream(self.user_id.to_string(), e.1.stype, e.1.muted),
        }
    }

    /// Which of the three stream types the user publishes, and muted or not.
    pub fn brief(&self) -> (r: UserBrief)
        ensures
            r.camera_muted == first_muted(self.state.streams@, 1),
            r.mic_muted == first_muted(self.state.streams@, 2),
            r.screen_muted == first_muted(self.state.streams@, 3),
    {
        UserBrief {
            camera_muted: self.stream_muted(crate::proto::v1::StreamType::Camera),
            mic_muted: self.stream_muted(crate::proto::v1::StreamType::Mic),
            screen_muted: self.stream_muted(crate::proto::v1::StreamType::Screen),
        }
    }

    fn stream_muted(&self, stype: crate::proto::v1::StreamType) -> (r: Option<bool>)
        ensures
            r == first_muted(self.state.streams@, crate::proto::v1::stream_type_value(stype)),
    {
        let v = stype.value();
        let streams = &self.state.streams;
        let mut i: usize = 0;
        proof {
            assert(streams@.skip(0) =~= streams@);
        }
        while i < streams.len()
            invariant
                i <= streams@.len(),
                v == crate::proto::v1::stream_type_value(stype),
                streams@ == self.state.streams@,
                first_muted(streams@, v) == first_muted(streams@.skip(i as int), v),
            decreases streams.len() - i,
        {
            if streams[i].1.stype == v {
                proof {
                    assert(streams@.skip(i as int)[0] == streams@[i as int]);
                }
                return Some(streams[i].1.muted);
            }
            proof {
                lemma_first_muted_skip(streams@, v, i as int);
            }
            i = i + 1;
        }
        proof {
            assert(streams@.skip(i as int).len() == 0);
        }
        None
    }
}


/// An announcement of a stream of type number `v`, when the user has one.
pub open spec fn opt_add(uid: Seq<char>, v: i32, m: Option<bool>) -> Seq<Call> {
    match m {
        Some(b) => seq![Call::AddStream(uid, v, b)],
        None => Seq::empty(),
    }
}

/// Announcing a user: the user with the tree operations held back for it,
/// then its camera, microphone and screen streams, those it has.
pub open spec fn joined_calls(uid: Seq<char>, tree: Seq<TreeNode>, streams: Seq<(String, Stream)>) -> Seq<
    Call,
> {
    seq![Call::UserJoined(uid, nodes_view(tree))] + opt_add(uid, 1, first_muted(streams, 1)) + opt_add(
        uid,
        2,
        first_muted(streams, 2),
    ) + opt_add(uid, 3, first_muted(streams, 3))
}

/// The cell with its held-back tree operations handed over.
pub open spec fn tree_taken(before: UserCell, after: UserCell) -> bool {
    &&& after.user_id == before.user_id
    &&& after.state == before.state
    &&& after.stage == before.stage
    &&& after.tree@.len() == 0
}

/// Announces a user, as `joined_calls` plans it; the cell's held-back tree
/// operations go to the host.
#[verifier::spinoff_prover]
fn fire_user_joined<L: Listener>(listener: &mut Notifier<L>, user_id: &str, user: &mut UserCell) -> (r:
    Result<(), ClientError>)
    ensures
        extends(
            old(listener).log(),
            final(listener).log(),
            joined_calls(user_id@, old(user).tree@, old(user).state.streams@),
            r,
        ),
        tree_taken(*old(user), *final(user)),
        final(listener).listener() == old(listener).listener(),
{
    let ghost uid = user_id@;
    let ghost streams = user.state.streams@;
    let ghost log0 = listener.log();
    let mut tree: Vec<TreeNode> = Vec::new();
    std::mem::swap(&mut tree, &mut user.tree);
    let brief = user.brief();
    let ghost p1 = seq![Call::UserJoined(uid, nodes_view(tree@))];
    let ghost p2 = opt_add(uid, 1, first_muted(streams, 1));
    let ghost p3 = opt_add(uid, 2, first_muted(streams, 2));
    let ghost p4 = opt_add(uid, 3, first_muted(streams, 3));
    let ghost plan = joined_calls(uid, tree@, streams);
    assert(plan == p1 + p2 + p3 + p4);
    let r = listener.user_joined(user_id.to_owned(), tree);
    if r.is_err() {
        proof {
            lemma_prefix_concat(p1, p2 + p3 + p4);
            assert(p1 + (p2 + p3 + p4) =~= plan);
            lemma_extends_prefix_stop(log0, listener.log(), p1, r, plan);
        }
        return r;
    }
    let ghost l1 = listener.log();
    let r = match brief.camera_muted {
        Some(m) => listener.add_stream(user_id.to_owned(), 1, m),
        None => {
            proof {
                lemma_extends_none(l1);
            }
            Ok(())
        },
    };
    proof {
        lemma_extends_then(log0, l1, listener.log(), p1, p2, r);
    }
    if r.is_err() {
        proof {
            lemma_prefix_concat(p1 + p2, p3 + p4);
            assert(p1 + p2 + (p3 + p4) =~= plan);
            lemma_extends_prefix_stop(log0, listener.log(), p1 + p2, r, plan);
        }
        return r;
    }
    let ghost l2 = listener.log();
    let r = match brief.mic_muted {
        Some(m) => listener.add_stream(user_id.to_owned(), 2, m),
        None => {
            proof {
                lemma_extends_none(l2);
            }
            Ok(())
        },
    };
    proof {
        lemma_extends_then(log0, l2, listener.log(), p1 + p2, p3, r);
    }
    if r.is_err() {
        proof {
            lemma_prefix_concat(p1 + p2 + p3, p4);
            lemma_extends_prefix_stop(log0, listener.log(), p1 + p2 + p3, r, plan);
        }
        return r;
    }
    let ghost l3 = listener.log();
    let r = match brief.screen_muted {
        Some(m) => listener.add_stream(user_id.to_owned(), 3, m),
        None => {
            proof {
                lemma_extends_none(l3);
            }
            Ok(())
        },
    };
    proof {
        lemma_extends_then(log0, l3, listener.log(), p1 + p2 + p3, p4, r);
    }
    r
}

/// The index of the user with id `id`, or -1.
pub open spec fn user_index(users: Seq<(AStr, UserCell)>, id: Seq<char>) -> int {
    if exists|i: int| 0 <= i < users.len() && #[trigger] users[i].0@ == id {
        choose|i: int| 0 <= i < users.len() && #[trigger] users[i].0@ == id
    } else {
        -1
    }
}

/// No two users share an id, and each cell is named by its key.
pub open spec fn users_wf(users: Seq<(AStr, UserCell)>) -> bool {
    &&& forall|i: int, j: int|
        0 <= i < j < users.len() ==> #[trigger] users[i].0@ != #[trigger] users[j].0@
    &&& forall|i: int| 0 <= i < users.len() ==> #[trigger] users[i].1.user_id@ == users[i].0@
}

/// `out` is the status of a closing notice: the one given, else the
/// success status (code 0, empty reason).
pub open spec fn status_or_default(s: Option<v1::Status>, out: v1::Status) -> bool {
    match s {
        Some(x) => out == x,
        None => out.code == 0 && out.reason@.len() == 0,
    }
}

/// The callbacks a chat notice gets: sent by a user (`u.` id), to the room
/// (`r.` id) or to a user (`u.` id); other notices are ignored.
pub open spec fn chat_calls(n: ChatNotice) -> Seq<Call> {
    match spec_strip_prefix(n.from@, "u."@) {
        None => Seq::empty(),
        Some(from) => match spec_strip_prefix(n.to@, "r."@) {
            Some(room) => seq![Call::RoomChat(from, room, n.body@)],
            None => match spec_strip_prefix(n.to@, "u."@) {
                Some(to) => seq![Call::UserChat(from, to, n.body@)],
                None => Seq::empty(),
            },
        },
    }
}

/// The node a tree operation becomes.
pub open spec fn tree_node_of(t: TreeState) -> TreeNode {
    TreeNode { path: t.path, value: t.value, prune: t.prune }
}

/// The callbacks announcing every known user, in order, after the room.
pub open spec fn ready_calls(users: Seq<(AStr, UserCell)>) -> Seq<Call>
    decreases users.len(),
{
    if users.len() == 0 {
        Seq::empty()
    } else {
        ready_calls(users.drop_last()) + joined_calls(
            users.last().0@,
            users.last().1.tree@,
            users.last().1.state.streams@,
        )
    }
}

/// The callbacks that a push other than a closing notice or a nameless
/// user tree gets, given the known users and whether the room is ready.
pub open spec fn push_calls(users: Seq<(AStr, UserCell)>, room_ready: bool, push: ServerPushType) -> Seq<Call> {
    match push {
        ServerPushType::Closed(_) => Seq::empty(),
        ServerPushType::Chat(n) => chat_calls(n),
        ServerPushType::UInit(id) => if user_index(users, id.id@) >= 0 {
            seq![Call::UserLeaved(id.id@)]
        } else {
            Seq::empty()
        },
        ServerPushType::UReady(id) => {
            let i = user_index(users, id.id@);
            if i >= 0 && room_ready {
                joined_calls(id.id@, users[i].1.tree@, users[i].1.state.streams@)
            } else {
                Seq::empty()
            }
        },
        ServerPushType::UFull(st) => {
            let i = user_index(users, st.id@);
            if i < 0 {
                Seq::empty()
            } else {
                let cell = users[i].1;
                match cell.stage {
                    UserStage::Init => Seq::empty(),
                    UserStage::Ready => if !st.online || st.inst_id@ != cell.state.inst_id@ {
                        seq![Call::UserLeaved(users[i].0@)]
                    } else {
                        delta_calls(cell.user_id@, cell.state.streams@, st.streams@)
                    },
                }
            }
        },
        ServerPushType::UTree(t) => match t.id {
            None => Seq::empty(),
            Some(uid) => {
                let i = user_index(users, uid@);
                if i >= 0 && users[i].1.stage == UserStage::Ready {
                    seq![Call::UpdateUserTree(uid@, node_view(tree_node_of(t)))]
                } else {
                    Seq::empty()
                }
            },
        },
        ServerPushType::RTree(t) => seq![Call::UpdateRoomTree(node_view(tree_node_of(t)))],
        ServerPushType::RReady(_) => seq![Call::RoomReady] + ready_calls(users),
    }
}

/// `after` is `users` with the entry at `i` replaced by `(users[i].0,
/// cell)`.
pub open spec fn replaced_at(users: Seq<(AStr, UserCell)>, i: int, cell: UserCell, after: Seq<(AStr, UserCell)>) -> bool {
    after == users.update(i, (users[i].0, cell))
}

/// `after` is `users` without entry `i` and with `(users[i].0, cell)` added
/// last.
pub open spec fn moved_last(users: Seq<(AStr, UserCell)>, i: int, cell: UserCell, after: Seq<(AStr, UserCell)>) -> bool {
    after == users.remove(i).push((users[i].0, cell))
}

/// `after` is `users` with the held-back tree operations of the first `m`
/// users handed over and the others as they were.
pub open spec fn announced_upto(users: Seq<(AStr, UserCell)>, after: Seq<(AStr, UserCell)>, m: int) -> bool {
    &&& 0 <= m <= users.len()
    &&& after.len() == users.len()
    &&& forall|k: int|
        #![trigger after[k]]
        0 <= k < users.len() ==> after[k].0 == users[k].0 && if k < m {
            tree_taken(users[k].1, after[k].1)
        } else {
            after[k].1 == users[k].1
        }
}

/// The known users and the readiness of the room after a push whose
/// handling stopped at a failed callback; `told` says whether the first
/// callback was made and accepted. A full state of a known user leaves it
/// dropped; the room-ready push leaves the room ready once the host
/// accepted its callback, and the users announced so far without their
/// held-back tree operations; any other push leaves things as on success.
pub open spec fn push_failed_next(
    users: Seq<(AStr, UserCell)>,
    room_ready: bool,
    push: ServerPushType,
    after: Seq<(AStr, UserCell)>,
    after_ready: bool,
    told: bool,
) -> bool {
    match push {
        ServerPushType::RReady(_) => {
            &&& after_ready == (room_ready || told)
            &&& after.len() == users.len()
            &&& exists|m: int| #[trigger] announced_upto(users, after, m)
        },
        ServerPushType::UFull(st) => after_ready == room_ready && after == users.remove(user_index(users, st.id@)),
        _ => push_next(users, room_ready, push, after, after_ready),
    }
}

/// The known users and the readiness of the room after a push that was
/// handled with no failure.
pub open spec fn push_next(
    users: Seq<(AStr, UserCell)>,
    room_ready: bool,
    push: ServerPushType,
    after: Seq<(AStr, UserCell)>,
    after_ready: bool,
) -> bool {
    match push {
        ServerPushType::RReady(_) => {
            &&& after_ready
            &&& after.len() == users.len()
            &&& forall|k: int|
                0 <= k < users.len() ==> #[trigger] after[k].0 == users[k].0 && tree_taken(
                    users[k].1,
                    after[k].1,
                )
        },
        _ => after_ready == room_ready && match push {
            ServerPushType::UInit(id) => {
                let i = user_index(users, id.id@);
                if i >= 0 {
                    after == users.remove(i)
                } else {
                    after == users
                }
            },
            ServerPushType::UReady(id) => {
                let i = user_index(users, id.id@);
                if i < 0 {
                    after == users
                } else {
                    let c = users[i].1;
                    exists|n: UserCell|
                        {
                            &&& #[trigger] replaced_at(users, i, n, after)
                            &&& n.stage == UserStage::Ready
                            &&& n.user_id == c.user_id
                            &&& n.state == c.state
                            &&& if room_ready {
                                n.tree@.len() == 0
                            } else {
                                n.tree == c.tree
                            }
                        }
                }
            },
            ServerPushType::UFull(st) => {
                let i = user_index(users, st.id@);
                if i < 0 {
                    &&& after.len() == users.len() + 1
                    &&& after.drop_last() == users
                    &&& after.last().0@ == st.id@
                    &&& after.last().1.user_id@ == st.id@
                    &&& after.last().1.state == st
                    &&& after.last().1.tree@.len() == 0
                    &&& after.last().1.stage == UserStage::Init
                } else {
                    let c = users[i].1;
                    if !st.online {
                        after == users.remove(i)
                    } else {
                        let stage = if c.stage == UserStage::Ready && st.inst_id@ != c.state.inst_id@ {
                            UserStage::Init
                        } else {
                            c.stage
                        };
                        moved_last(
                            users,
                            i,
                            UserCell { user_id: c.user_id, state: st, tree: c.tree, stage },
                            after,
                        )
                    }
                }
            },
            ServerPushType::UTree(t) => match t.id {
                None => after == users,
                Some(uid) => {
                    let i = user_index(users, uid@);
                    if i >= 0 && users[i].1.stage == UserStage::Init {
                        let c = users[i].1;
                        exists|n: UserCell|
                            {
                                &&& #[trigger] replaced_at(users, i, n, after)
                                &&& n.user_id == c.user_id
                                &&& n.state == c.state
                                &&& n.stage == c.stage
                                &&& n.tree@ == c.tree@.push(tree_node_of(t))
                            }
                    } else {
                        after == users
                    }
                },
            },
            _ => after == users,
        },
    }
}


/// What to do with the response to a pending request.
pub enum Resolver {
    /// a transport was asked for in direction `dir`
    CreateX(i32),
    BatchEnd,
    Leave,
    ConnX(Box<dyn CbResolveConnX>),
    Pub(Box<dyn CbResolvePub>),
    UPub(Box<dyn OnResolveUPub>),
    Mute(Box<dyn CbResolveMute>),
    /// transport id, producer id and stream id of the subscription
    Sub(String, String, String, Box<dyn CbResolveSub>),
    USub(Box<dyn CbResolveUSub>),
}

/// The room as the client knows it, and the requests waiting for a
/// response.
pub struct DelegateImpl<L> {
    notifier: Notifier<L>,
    users: Vec<(AStr, UserCell)>,
    response_handlers: Vec<(i64, Resolver)>,
    dlink_x_id: Option<String>,
    got_room_ready: bool,
}

/// No two pending requests share a sequence number.
pub open spec fn handlers_wf(h: Seq<(i64, Resolver)>) -> bool {
    forall|i: int, j: int| 0 <= i < j < h.len() ==> #[trigger] h[i].0 != #[trigger] h[j].0
}

proof fn lemma_user_index_at(users: Seq<(AStr, UserCell)>, id: Seq<char>, i: int)
    requires
        users_wf(users),
        0 <= i < users.len(),
        users[i].0@ == id,
    ensures
        user_index(users, id) == i,
{
    assert(exists|k: int| 0 <= k < users.len() && #[trigger] users[k].0@ == id);
    let k = choose|k: int| 0 <= k < users.len() && #[trigger] users[k].0@ == id;
    if k < i {
        assert(users[k].0@ != users[i].0@);
    } else if k > i {
        assert(users[i].0@ != users[k].0@);
    }
}

proof fn lemma_user_index_none(users: Seq<(AStr, UserCell)>, id: Seq<char>)
    requires
        forall|k: int| 0 <= k < users.len() ==> #[trigger] users[k].0@ != id,
    ensures
        user_index(users, id) == -1,
{
}

proof fn lemma_user_index_range(users: Seq<(AStr, UserCell)>, id: Seq<char>)
    ensures
        -1 <= user_index(users, id) < users.len(),
        user_index(users, id) >= 0 ==> users[user_index(users, id)].0@ == id,
{
}

#[verifier::spinoff_prover]
proof fn lemma_users_wf_remove(users: Seq<(AStr, UserCell)>, i: int)
    requires
        users_wf(users),
        0 <= i < users.len(),
    ensures
        users_wf(users.remove(i)),
{
    let u = users.remove(i);
    assert forall|a: int, b: int| 0 <= a < b < u.len() implies #[trigger] u[a].0@ != #[trigger] u[b].0@ by {
        let a0 = if a < i { a } else { a + 1 };
        let b0 = if b < i { b } else { b + 1 };
        assert(u[a] == users[a0]);
        assert(u[b] == users[b0]);
    }
    assert forall|a: int| 0 <= a < u.len() implies #[trigger] u[a].1.user_id@ == u[a].0@ by {
        let a0 = if a < i { a } else { a + 1 };
        assert(u[a] == users[a0]);
    }
}

#[verifier::spinoff_prover]
proof fn lemma_users_wf_push(users: Seq<(AStr, UserCell)>, e: (AStr, UserCell))
    requires
        users_wf(users),
        forall|k: int| 0 <= k < users.len() ==> #[trigger] users[k].0@ != e.0@,
        e.1.user_id@ == e.0@,
    ensures
        users_wf(users.push(e)),
{
    let u = users.push(e);
    assert forall|a: int, b: int| 0 <= a < b < u.len() implies #[trigger] u[a].0@ != #[trigger] u[b].0@ by {
        if b == users.len() {
            assert(u[a] == users[a]);
        } else {
            assert(u[a] == users[a]);
            assert(u[b] == users[b]);
        }
    }
    assert forall|a: int| 0 <= a < u.len() implies #[trigger] u[a].1.user_id@ == u[a].0@ by {
        if a < users.len() {
            assert(u[a] == users[a]);
            assert(users[a].1.user_id@ == users[a].0@);
        } else {
            assert(u[a] == e);
        }
    }
}

#[verifier::spinoff_prover]
proof fn lemma_users_wf_update(users: Seq<(AStr, UserCell)>, i: int, c: UserCell)
    requires
        users_wf(users),
        0 <= i < users.len(),
        c.user_id@ == users[i].0@,
    ensures
        users_wf(users.update(i, (users[i].0, c))),
{
    let u = users.update(i, (users[i].0, c));
    assert forall|a: int, b: int| 0 <= a < b < u.len() implies #[trigger] u[a].0@ != #[trigger] u[b].0@ by {
        assert(u[a].0 == users[a].0);
        assert(u[b].0 == users[b].0);
    }
    assert forall|a: int| 0 <= a < u.len() implies #[trigger] u[a].1.user_id@ == u[a].0@ by {
        if a != i {
            assert(u[a] == users[a]);
            assert(users[a].1.user_id@ == users[a].0@);
        } else {
            assert(u[a] == (users[i].0, c));
        }
    }
}


/// The position of the pending request numbered `sn`, or -1.
pub open spec fn handler_index(h: Seq<(i64, Resolver)>, sn: i64) -> int {
    if exists|i: int| 0 <= i < h.len() && #[trigger] h[i].0 == sn {
        choose|i: int| 0 <= i < h.len() && #[trigger] h[i].0 == sn
    } else {
        -1
    }
}

/// The pending requests after registering `res` under `sn`, replacing what
/// was registered under it.
pub open spec fn handlers_insert(h: Seq<(i64, Resolver)>, sn: i64, res: Resolver) -> Seq<(i64, Resolver)> {
    let i = handler_index(h, sn);
    if i >= 0 {
        h.remove(i).push((sn, res))
    } else {
        h.push((sn, res))
    }
}

proof fn lemma_handler_index_at(h: Seq<(i64, Resolver)>, sn: i64, i: int)
    requires
        handlers_wf(h),
        0 <= i < h.len(),
        h[i].0 == sn,
    ensures
        handler_index(h, sn) == i,
{
    assert(exists|k: int| 0 <= k < h.len() && #[trigger] h[k].0 == sn);
    let k = choose|k: int| 0 <= k < h.len() && #[trigger] h[k].0 == sn;
    if k < i {
        assert(h[k].0 != h[i].0);
    } else if k > i {
        assert(h[i].0 != h[k].0);
    }
}

proof fn lemma_handlers_wf_remove(h: Seq<(i64, Resolver)>, i: int)
    requires
        handlers_wf(h),
        0 <= i < h.len(),
    ensures
        handlers_wf(h.remove(i)),
        forall|k: int| 0 <= k < h.remove(i).len() ==> #[trigger] h.remove(i)[k].0 != h[i].0,
{
    let u = h.remove(i);
    assert forall|a: int, b: int| 0 <= a < b < u.len() implies #[trigger] u[a].0 != #[trigger] u[b].0 by {
        let a0 = if a < i { a } else { a + 1 };
        let b0 = if b < i { b } else { b + 1 };
        assert(u[a] == h[a0]);
        assert(u[b] == h[b0]);
    }
    assert forall|k: int| 0 <= k < u.len() implies #[trigger] u[k].0 != h[i].0 by {
        let k0 = if k < i { k } else { k + 1 };
        assert(u[k] == h[k0]);
    }
}

proof fn lemma_handlers_wf_push(h: Seq<(i64, Resolver)>, e: (i64, Resolver))
    requires
        handlers_wf(h),
        forall|k: int| 0 <= k < h.len() ==> #[trigger] h[k].0 != e.0,
    ensures
        handlers_wf(h.push(e)),
{
    let u = h.push(e);
    assert forall|a: int, b: int| 0 <= a < b < u.len() implies #[trigger] u[a].0 != #[trigger] u[b].0 by {
        assert(u[a] == h[a]);
        if b < h.len() {
            assert(u[b] == h[b]);
        }
    }
}

/// What a response resolves for a pending request: the callbacks to make,
/// or the error of a response of another kind.
pub open spec fn resolution(res: Resolver, t: ResponseType) -> Result<Seq<Call>, ClientError> {
    match res {
        Resolver::CreateX(dir) => match t {
            ResponseType::CreateX(x) => Ok(
                seq![Call::CreatedX(dir, x.xid@, opt_view(x.ice_param), x.ice_candidates@, opt_view(x.dtls))],
            ),
            _ => Err(ClientError::UnexpectedResponse("Sub")),
        },
        Resolver::BatchEnd => Ok(Seq::empty()),
        Resolver::Leave => match t {
            ResponseType::Close(_) => Ok(Seq::empty()),
            _ => Err(ClientError::UnexpectedResponse("Close")),
        },
        Resolver::ConnX(_) => match t {
            ResponseType::ConnX(_) => Ok(seq![Call::ResolvedConnX]),
            _ => Err(ClientError::UnexpectedResponse("ConnX")),
        },
        Resolver::Pub(_) => match t {
            ResponseType::Pub(p) => Ok(seq![Call::ResolvedPub(p.producer_id@)]),
            _ => Err(ClientError::UnexpectedResponse("Pub")),
        },
        Resolver::UPub(_) => match t {
            ResponseType::UPub(_) => Ok(seq![Call::ResolvedUPub]),
            _ => Err(ClientError::UnexpectedResponse("UPub")),
        },
        Resolver::Mute(_) => match t {
            ResponseType::Mute(_) => Ok(seq![Call::ResolvedMute]),
            _ => Err(ClientError::UnexpectedResponse("Mute")),
        },
        Resolver::Sub(x, p, s, _) => match t {
            ResponseType::Sub(rsp) => Ok(
                seq![Call::ResolvedSub(x@, rsp.consumer_id@, p@, s@, opt_view(rsp.rtp))],
            ),
            _ => Err(ClientError::UnexpectedResponse("Sub")),
        },
        Resolver::USub(_) => match t {
            ResponseType::USub(_) => Ok(seq![Call::ResolvedUSub]),
            _ => Err(ClientError::UnexpectedResponse("USub")),
        },
    }
}

/// The receiving transport after a response: a created transport of
/// direction 1 (receiving) becomes it.
pub open spec fn dlink_after(res: Resolver, t: ResponseType, before: Option<Seq<char>>) -> Option<Seq<char>> {
    match (res, t) {
        (Resolver::CreateX(dir), ResponseType::CreateX(x)) => if dir == 1 {
            Some(x.xid@)
        } else {
            before
        },
        _ => before,
    }
}

/// The first stream of type number `v`, with its id.
pub open spec fn first_stream_of_type(streams: Seq<(String, Stream)>, v: i32) -> Option<(String, Stream)>
    decreases streams.len(),
{
    if streams.len() == 0 {
        None
    } else if streams[0].1.stype == v {
        Some(streams[0])
    } else {
        first_stream_of_type(streams.drop_first(), v)
    }
}

proof fn lemma_first_stream_skip(s: Seq<(String, Stream)>, v: i32, i: int)
    requires
        0 <= i < s.len(),
        s[i].1.stype != v,
    ensures
        first_stream_of_type(s.skip(i), v) == first_stream_of_type(s.skip(i + 1), v),
{
    assert(s.skip(i).drop_first() =~= s.skip(i + 1));
}

fn find_stream_of_type(streams: &Vec<(String, Stream)>, v: i32) -> (r: Option<usize>)
    ensures
        match r {
            Some(j) => j < streams@.len() && first_stream_of_type(streams@, v) == Some(streams@[j as int]),
            None => first_stream_of_type(streams@, v) is None,
        },
{
    let mut i: usize = 0;
    proof {
        assert(streams@.skip(0) =~= streams@);
    }
    while i < streams.len()
        invariant
            i <= streams@.len(),
            first_stream_of_type(streams@, v) == first_stream_of_type(streams@.skip(i as int), v),
        decreases streams.len() - i,
    {
        if streams[i].1.stype == v {
            proof {
                assert(streams@.skip(i as int)[0] == streams@[i as int]);
            }
            return Some(i);
        }
        proof {
            lemma_first_stream_skip(streams@, v, i as int);
        }
        i = i + 1;
    }
    proof {
        assert(streams@.skip(i as int).len() == 0);
    }
    None
}

/// A call of the host waiting to be sent.
pub enum Op {
    /// leave the room, ending it when `end` is set
    Leave(Option<bool>),
    ConnX(ConnXCall, Box<dyn CbResolveConnX>),
    Pub(PubCall, Box<dyn CbResolvePub>),
    UPub(UPubCall, Box<dyn OnResolveUPub>),
    Mute(MuteCall, Box<dyn CbResolveMute>),
    Sub(SubCall, Box<dyn CbResolveSub>),
    USub(UnsubCall, Box<dyn CbResolveUSub>),
}

/// The body of the request that asks for a transport in direction `dir`.
pub open spec fn create_x_body(dir: i32) -> Seq<char> {
    request_frame(
        "\"CreateX\""@,
        json_obj(
            seq![str_m("\"roomId\""@, ""@)] + seq![crate::proto::json::int_m("\"dir\""@, dir as int)]
                + seq![crate::proto::json::int_m("\"kind\""@, 0)] + opt_raw_m("\"dtls\""@, None),
        ),
    )
}

/// The body of the request that ends the opening batch.
pub open spec fn batch_end_body() -> Seq<char> {
    request_frame("\"BEnd\""@, crate::proto::render::empty_obj())
}

/// The body of the request that leaves the room.
pub open spec fn leave_body(end: Option<bool>) -> Seq<char> {
    request_frame("\"Close\""@, json_obj(seq![str_m("\"room_id\""@, ""@)] + opt_bool_m("\"end\""@, end)))
}

/// The body of the request that subscribes to stream `sid` of producer
/// `pid` on transport `xid`.
pub open spec fn sub_body(sid: Seq<char>, pid: Seq<char>, xid: Seq<char>) -> Seq<char> {
    request_frame(
        "\"Sub\""@,
        json_obj(
            seq![str_m("\"roomId\""@, ""@)] + seq![str_m("\"streamId\""@, sid)] + seq![
                str_m("\"producerId\""@, pid),
            ] + seq![str_m("\"xid\""@, xid)] + opt_raw_m("\"preferredLayers\""@, None),
        ),
    )
}

/// The body of the request that ends subscription `cid`.
pub open spec fn unsub_body(cid: Seq<char>) -> Seq<char> {
    request_frame(
        "\"USub\""@,
        json_obj(seq![str_m("\"roomId\""@, ""@)] + seq![str_m("\"consumerId\""@, cid)]),
    )
}

/// The stream a subscription asks for: the first stream of the requested
/// type that the user publishes.
pub open spec fn sub_target(c: SubCall, users: Seq<(AStr, UserCell)>) -> (String, Stream) {
    first_stream_of_type(
        users[user_index(users, c.user_id@)].1.state.streams@,
        crate::proto::v1::stream_type_value(to_proto_stream_type(c.stype)),
    ).unwrap()
}

/// The body of the request an op sends, given the known users and the
/// receiving transport.
pub open spec fn op_body(op: Op, users: Seq<(AStr, UserCell)>, dlink: Option<String>) -> Seq<char> {
    match op {
        Op::Leave(end) => leave_body(end),
        Op::ConnX(c, _) => c.body_json(),
        Op::Pub(c, _) => c.body_json(),
        Op::UPub(c, _) => c.body_json(),
        Op::Mute(c, _) => c.body_json(),
        Op::USub(c, _) => unsub_body(c.consumer_id@),
        Op::Sub(c, _) => {
            let e = sub_target(c, users);
            sub_body(e.0@, e.1.producer_id@, dlink.unwrap()@)
        },
    }
}

/// What resolves the response to the request an op sends.
pub open spec fn op_resolver(op: Op, users: Seq<(AStr, UserCell)>, dlink: Option<String>) -> Resolver {
    match op {
        Op::Leave(_) => Resolver::Leave,
        Op::ConnX(_, cb) => Resolver::ConnX(cb),
        Op::Pub(_, cb) => Resolver::Pub(cb),
        Op::UPub(_, cb) => Resolver::UPub(cb),
        Op::Mute(_, cb) => Resolver::Mute(cb),
        Op::USub(_, cb) => Resolver::USub(cb),
        Op::Sub(c, cb) => {
            let e = sub_target(c, users);
            Resolver::Sub(dlink.unwrap(), e.1.producer_id, e.0, cb)
        },
    }
}

/// Why an op cannot be sent: only a subscription can fail before it is
/// sent, for a user that is not known, a receiving transport that is not
/// there yet or a stream type the user does not publish.
pub open spec fn op_refused(op: Op, users: Seq<(AStr, UserCell)>, dlink: Option<String>) -> Option<ClientError> {
    match op {
        Op::Sub(c, _) => {
            let i = user_index(users, c.user_id@);
            if i < 0 {
                Some(ClientError::UserNotFound)
            } else if dlink is None {
                Some(ClientError::NoDownlinkTransport)
            } else if first_stream_of_type(
                users[i].1.state.streams@,
                crate::proto::v1::stream_type_value(to_proto_stream_type(c.stype)),
            ) is None {
                Some(ClientError::StreamNotFound)
            } else {
                None
            }
        },
        _ => None,
    }
}

/// The fake producer id handed back at once for a publication: the stream
/// type's name followed by `_0`.
pub fn fake_producer_id(stype: StreamType) -> (r: String)
    ensures
        r@ == crate::proto::v1::stream_type_name(to_proto_stream_type(stype)) + "_0"@,
{
    let mut out = stype.as_str().to_owned();
    out.append("_0");
    out
}

proof fn lemma_user_index_absent(users: Seq<(AStr, UserCell)>, id: Seq<char>)
    requires
        user_index(users, id) == -1,
    ensures
        forall|k: int| 0 <= k < users.len() ==> #[trigger] users[k].0@ != id,
{
    if exists|k: int| 0 <= k < users.len() && #[trigger] users[k].0@ == id {
        let k = choose|k: int| 0 <= k < users.len() && #[trigger] users[k].0@ == id;
        assert(users[k].0@ == id);
    }
}

#[verifier::spinoff_prover]
proof fn lemma_users_wf_move_last(users: Seq<(AStr, UserCell)>, i: int, c: UserCell)
    requires
        users_wf(users),
        0 <= i < users.len(),
        c.user_id@ == users[i].0@,
    ensures
        users_wf(users.remove(i).push((users[i].0, c))),
{
    lemma_users_wf_remove(users, i);
    let u = users.remove(i);
    assert forall|k: int| 0 <= k < u.len() implies #[trigger] u[k].0@ != users[i].0@ by {
        if k < i {
            assert(u[k] == users[k]);
        } else {
            assert(u[k] == users[k + 1]);
        }
    }
    lemma_users_wf_push(u, (users[i].0, c));
}

proof fn lemma_ready_calls_prefix(users: Seq<(AStr, UserCell)>, i: int)
    requires
        0 <= i <= users.len(),
    ensures
        is_prefix(ready_calls(users.take(i)), ready_calls(users)),
    decreases users.len() - i,
{
    if i == users.len() {
        assert(users.take(i) =~= users);
        assert(ready_calls(users).take(ready_calls(users).len() as int) =~= ready_calls(users));
    } else {
        lemma_ready_calls_prefix(users, i + 1);
        assert(users.take(i + 1).drop_last() =~= users.take(i));
        lemma_prefix_concat(
            ready_calls(users.take(i)),
            joined_calls(users[i].0@, users[i].1.tree@, users[i].1.state.streams@),
        );
        lemma_prefix_trans(ready_calls(users.take(i)), ready_calls(users.take(i + 1)), ready_calls(users));
    }
}

impl<L: Listener> DelegateImpl<L> {
    pub closed spec fn users(&self) -> Seq<(AStr, UserCell)> {
        self.users@
    }

    pub closed spec fn room_ready(&self) -> bool {
        self.got_room_ready
    }

    pub closed spec fn handlers(&self) -> Seq<(i64, Resolver)> {
        self.response_handlers@
    }

    /// Id of the receiving transport, once created.
    pub closed spec fn dlink_x_id(&self) -> Option<String> {
        self.dlink_x_id
    }

    /// Every callback made to the host so far.
    pub closed spec fn log(&self) -> Seq<Logged> {
        self.notifier.log()
    }

    pub closed spec fn listener(&self) -> L {
        self.notifier.listener
    }

    pub open spec fn wf(&self) -> bool {
        users_wf(self.users()) && handlers_wf(self.handlers())
    }

    pub fn new(listener: L) -> (r: Self)
        ensures
            r.wf(),
            r.users().len() == 0,
            r.handlers().len() == 0,
            !r.room_ready(),
            r.dlink_x_id() is None,
            r.log() == Seq::<Logged>::empty(),
            r.listener() == listener,
    {
        DelegateImpl {
            notifier: Notifier::new(listener),
            users: Vec::new(),
            response_handlers: Vec::new(),
            dlink_x_id: None,
            got_room_ready: false,
        }
    }

    /// The position of the user with id `id`.
    fn find_user(&self, id: &str) -> (r: Option<usize>)
        requires
            users_wf(self.users@),
        ensures
            match r {
                Some(i) => i < self.users@.len() && user_index(self.users@, id@) == i,
                None => user_index(self.users@, id@) == -1,
            },
    {
        let mut i: usize = 0;
        while i < self.users.len()
            invariant
                i <= self.users@.len(),
                users_wf(self.users@),
                forall|k: int| 0 <= k < i ==> #[trigger] self.users@[k].0@ != id@,
            decreases self.users.len() - i,
        {
            if str_eq(self.users[i].0.as_str(), id) {
                proof {
                    lemma_user_index_at(self.users@, id@, i as int);
                }
                return Some(i);
            }
            i = i + 1;
        }
        proof {
            lemma_user_index_none(self.users@, id@);
        }
        None
    }

    fn on_chat(&mut self, notice: ChatNotice) -> (r: Result<(), ClientError>)
        ensures
            extends(old(self).notifier.log(), final(self).notifier.log(), chat_calls(notice), r),
            final(self).notifier.listener() == old(self).notifier.listener(),
            final(self).users@ == old(self).users@,
            final(self).got_room_ready == old(self).got_room_ready,
            final(self).response_handlers@ == old(self).response_handlers@,
            final(self).dlink_x_id == old(self).dlink_x_id,
    {
        let ghost n = notice;
        let ChatNotice { from, to, body } = notice;
        let from_user_id = match strip_prefix(from.as_str(), "u.") {
            Some(f) => f,
            None => {
                proof {
                    lemma_extends_none(self.notifier.log());
                }
                return Ok(());
            },
        };
        if let Some(room_id) = strip_prefix(to.as_str(), "r.") {
            self.notifier.room_chat(from_user_id.to_owned(), room_id.to_owned(), body)
        } else if let Some(to_user_id) = strip_prefix(to.as_str(), "u.") {
            self.notifier.user_chat(from_user_id.to_owned(), to_user_id.to_owned(), body)
        } else {
            proof {
                lemma_extends_none(self.notifier.log());
            }
            Ok(())
        }
    }

    #[verifier::spinoff_prover]
    fn on_user_init(&mut self, user_id: String) -> (r: Result<(), ClientError>)
        requires
            old(self).wf(),
        ensures
            final(self).wf(),
            extends(
                old(self).notifier.log(),
                final(self).notifier.log(),
                push_calls(old(self).users@, old(self).got_room_ready, ServerPushType::UInit(v1::Id { id: user_id })),
                r,
            ),
            push_next(old(self).users@, old(self).got_room_ready, ServerPushType::UInit(v1::Id { id: user_id }), final(self).users@, final(self).got_room_ready),
            final(self).notifier.listener() == old(self).notifier.listener(),
            final(self).response_handlers@ == old(self).response_handlers@,
            final(self).dlink_x_id == old(self).dlink_x_id,
    {
        match self.find_user(user_id.as_str()) {
            Some(i) => {
                proof {
                    lemma_users_wf_remove(self.users@, i as int);
                }
                let _cell = self.users.remove(i);
                self.notifier.user_leaved(user_id)
            },
            None => {
                proof {
                    lemma_extends_none(self.notifier.log());
                }
                Ok(())
            },
        }
    }

    #[verifier::spinoff_prover]
    fn on_user_ready(&mut self, user_id: String) -> (r: Result<(), ClientError>)
        requires
            old(self).wf(),
        ensures
            final(self).wf(),
            extends(
                old(self).notifier.log(),
                final(self).notifier.log(),
                push_calls(old(self).users@, old(self).got_room_ready, ServerPushType::UReady(v1::Id { id: user_id })),
                r,
            ),
            push_next(old(self).users@, old(self).got_room_ready, ServerPushType::UReady(v1::Id { id: user_id }), final(self).users@, final(self).got_room_ready),
            final(self).notifier.listener() == old(self).notifier.listener(),
            final(self).response_handlers@ == old(self).response_handlers@,
            final(self).dlink_x_id == old(self).dlink_x_id,
    {
        let ghost users0 = self.users@;
        match self.find_user(user_id.as_str()) {
            Some(i) => {
                let (key, mut cell) = self.users.remove(i);
                cell.stage = UserStage::Ready;
                let r = if self.got_room_ready {
                    fire_user_joined(&mut self.notifier, user_id.as_str(), &mut cell)
                } else {
                    proof {
                        lemma_extends_none(self.notifier.log());
                    }
                    Ok(())
                };
                proof {
                    assert(users0[i as int].1.user_id@ == users0[i as int].0@);
                    lemma_users_wf_update(users0, i as int, cell);
                }
                self.users.insert(i, (key, cell));
                proof {
                    assert(self.users@ =~= users0.update(i as int, (users0[i as int].0, cell)));
                    assert(replaced_at(users0, i as int, cell, self.users@));
                }
                r
            },
            None => {
                proof {
                    lemma_extends_none(self.notifier.log());
                }
                Ok(())
            },
        }
    }

    #[verifier::spinoff_prover]
    fn on_user_full(&mut self, st: UserState) -> (r: Result<(), ClientError>)
        requires
            old(self).wf(),
        ensures
            final(self).wf(),
            extends(
                old(self).notifier.log(),
                final(self).notifier.log(),
                push_calls(old(self).users@, old(self).got_room_ready, ServerPushType::UFull(st)),
                r,
            ),
            r is Ok ==> push_next(old(self).users@, old(self).got_room_ready, ServerPushType::UFull(st), final(self).users@, final(self).got_room_ready),
            r is Err ==> final(self).users@ == old(self).users@.remove(user_index(old(self).users@, st.id@)),
            final(self).got_room_ready == old(self).got_room_ready,
            final(self).notifier.listener() == old(self).notifier.listener(),
            final(self).response_handlers@ == old(self).response_handlers@,
            final(self).dlink_x_id == old(self).dlink_x_id,
    {
        let ghost users0 = self.users@;
        let ghost st0 = st;
        match self.find_user(st.id.as_str()) {
            Some(i) => {
                proof {
                    lemma_users_wf_remove(users0, i as int);
                    lemma_users_wf_move_last(users0, i as int, UserCell { user_id: users0[i as int].1.user_id, state: st0, tree: users0[i as int].1.tree, stage: UserStage::Init });
                    lemma_users_wf_move_last(users0, i as int, UserCell { user_id: users0[i as int].1.user_id, state: st0, tree: users0[i as int].1.tree, stage: UserStage::Ready });
                }
                let (user_id, mut cell) = self.users.remove(i);
                match cell.stage {
                    UserStage::Init => {
                        proof {
                            lemma_extends_none(self.notifier.log());
                        }
                        if !st.online {
                            return Ok(());
                        }
                    },
                    UserStage::Ready => {
                        if !st.online {
                            return self.notifier.user_leaved(user_id.to_string());
                        }
                        if !str_eq(st.inst_id.as_str(), cell.state.inst_id.as_str()) {
                            let r = self.notifier.user_leaved(user_id.to_string());
                            if r.is_err() {
                                return r;
                            }
                            cell.stage = UserStage::Init;
                        } else {
                            let r = cell.delta(&st, &mut self.notifier);
                            if r.is_err() {
                                return r;
                            }
                        }
                    },
                }
                cell.state = st;
                proof {
                    let c = users0[i as int].1;
                    let stage = if c.stage == UserStage::Ready && st0.inst_id@ != c.state.inst_id@ {
                        UserStage::Init
                    } else {
                        c.stage
                    };
                    assert(cell == UserCell { user_id: c.user_id, state: st0, tree: c.tree, stage });
                }
                self.users.push((user_id, cell));
                proof {
                    let c = users0[i as int].1;
                    let stage = if c.stage == UserStage::Ready && st0.inst_id@ != c.state.inst_id@ {
                        UserStage::Init
                    } else {
                        c.stage
                    };
                    assert(moved_last(users0, i as int, UserCell { user_id: c.user_id, state: st0, tree: c.tree, stage }, self.users@));
                }
                Ok(())
            },
            None => {
                proof {
                    lemma_user_index_absent(users0, st0.id@);
                }
                let key = AStr::from_str(st.id.as_str());
                let cell = UserCell {
                    user_id: AStr::from_str(st.id.as_str()),
                    state: st,
                    tree: Vec::new(),
                    stage: UserStage::Init,
                };
                proof {
                    lemma_users_wf_push(users0, (key, cell));
                    lemma_extends_none(self.notifier.log());
                }
                self.users.push((key, cell));
                assert(self.users@.drop_last() =~= users0);
                Ok(())
            },
        }
    }

    #[verifier::spinoff_prover]
    fn on_user_tree(&mut self, t: TreeState) -> (r: Result<(), ClientError>)
        requires
            old(self).wf(),
        ensures
            final(self).wf(),
            t.id is None ==> (r matches Err(ClientError::NoTreeUserId) && final(self).notifier.log()
                == old(self).notifier.log() && final(self).users@ == old(self).users@),
            t.id is Some ==> extends(
                old(self).notifier.log(),
                final(self).notifier.log(),
                push_calls(old(self).users@, old(self).got_room_ready, ServerPushType::UTree(t)),
                r,
            ),
            t.id is Some ==> push_next(old(self).users@, old(self).got_room_ready, ServerPushType::UTree(t), final(self).users@, final(self).got_room_ready),
            final(self).got_room_ready == old(self).got_room_ready,
            final(self).notifier.listener() == old(self).notifier.listener(),
            final(self).response_handlers@ == old(self).response_handlers@,
            final(self).dlink_x_id == old(self).dlink_x_id,
    {
        let ghost users0 = self.users@;
        let ghost t0 = t;
        let TreeState { path, value, id, prune } = t;
        let user_id = match id {
            Some(u) => u,
            None => {
                return Err(ClientError::NoTreeUserId);
            },
        };
        let node = TreeNode { path, value, prune };
        assert(node == tree_node_of(t0));
        match self.find_user(user_id.as_str()) {
            None => {
                proof {
                    lemma_extends_none(self.notifier.log());
                }
                Ok(())
            },
            Some(i) => {
                if self.users[i].1.stage == UserStage::Ready {
                    self.notifier.update_user_tree(user_id, node)
                } else {
                    let (key, mut cell) = self.users.remove(i);
                    cell.tree.push(node);
                    proof {
                        assert(users0[i as int].1.user_id@ == users0[i as int].0@);
                        lemma_users_wf_update(users0, i as int, cell);
                    }
                    self.users.insert(i, (key, cell));
                    proof {
                        assert(self.users@ =~= users0.update(i as int, (users0[i as int].0, cell)));
                        assert(replaced_at(users0, i as int, cell, self.users@));
                        lemma_extends_none(self.notifier.log());
                    }
                    Ok(())
                }
            },
        }
    }

    #[verifier::spinoff_prover]
    fn on_room_ready(&mut self, id: v1::Id) -> (r: Result<(), ClientError>)
        requires
            old(self).wf(),
        ensures
            final(self).wf(),
            extends(
                old(self).notifier.log(),
                final(self).notifier.log(),
                seq![Call::RoomReady] + ready_calls(old(self).users@),
                r,
            ),
            r is Ok ==> push_next(old(self).users@, old(self).got_room_ready, ServerPushType::RReady(id), final(self).users@, final(self).got_room_ready),
            r is Err ==> push_failed_next(
                old(self).users@,
                old(self).got_room_ready,
                ServerPushType::RReady(id),
                final(self).users@,
                final(self).got_room_ready,
                final(self).notifier.log().len() > old(self).notifier.log().len()
                    && final(self).notifier.log()[old(self).notifier.log().len() as int].answer is Ok,
            ),
            final(self).notifier.listener() == old(self).notifier.listener(),
            final(self).response_handlers@ == old(self).response_handlers@,
            final(self).dlink_x_id == old(self).dlink_x_id,
    {
        let ghost users0 = self.users@;
        let ghost log0 = self.notifier.log();
        let ghost plan = seq![Call::RoomReady] + ready_calls(users0);
        let r = self.notifier.room_ready();
        if r.is_err() {
            proof {
                lemma_prefix_concat(seq![Call::RoomReady], ready_calls(users0));
                lemma_extends_prefix_stop(log0, self.notifier.log(), seq![Call::RoomReady], r, plan);
                let t = self.notifier.log().skip(log0.len() as int);
                assert(self.notifier.log()[log0.len() as int] == t[0]);
                assert(announced_upto(users0, self.users@, 0));
            }
            return r;
        }
        self.got_room_ready = true;
        let ghost log1 = self.notifier.log();
        let mut i: usize = 0;
        proof {
            assert(users0.take(0) =~= Seq::<(AStr, UserCell)>::empty());
            lemma_extends_none(log1);
        }
        while i < self.users.len()
            invariant
                i <= self.users@.len(),
                self.users@.len() == users0.len(),
                users_wf(users0),
                handlers_wf(self.response_handlers@),
                forall|k: int| 0 <= k < i ==> #[trigger] self.users@[k].0 == users0[k].0 && tree_taken(users0[k].1, self.users@[k].1),
                forall|k: int| i <= k < users0.len() ==> #[trigger] self.users@[k] == users0[k],
                extends(log0, log1, seq![Call::RoomReady], Ok(())),
                extends(log1, self.notifier.log(), ready_calls(users0.take(i as int)), Ok(())),
                plan == seq![Call::RoomReady] + ready_calls(users0),
                self.got_room_ready,
                self.notifier.listener() == old(self).notifier.listener(),
                self.response_handlers@ == old(self).response_handlers@,
                self.dlink_x_id == old(self).dlink_x_id,
                log0 == old(self).notifier.log(),
                users0 == old(self).users@,
            decreases self.users.len() - i,
        {
            let ghost before = self.notifier.log();
            let ghost cur = self.users@;
            let (key, mut cell) = self.users.remove(i);
            let r = fire_user_joined(&mut self.notifier, key.as_str(), &mut cell);
            self.users.insert(i, (key, cell));
            proof {
                assert(self.users@ =~= cur.update(i as int, (cur[i as int].0, cell)));
                assert(users0.take(i + 1).drop_last() =~= users0.take(i as int));
                assert(users0.take(i + 1).last() == users0[i as int]);
                assert(ready_calls(users0.take(i + 1)) == ready_calls(users0.take(i as int)) + joined_calls(
                    users0[i as int].0@,
                    users0[i as int].1.tree@,
                    users0[i as int].1.state.streams@,
                ));
                lemma_extends_then(
                    log1,
                    before,
                    self.notifier.log(),
                    ready_calls(users0.take(i as int)),
                    joined_calls(users0[i as int].0@, users0[i as int].1.tree@, users0[i as int].1.state.streams@),
                    r,
                );
            }
            if r.is_err() {
                proof {
                    lemma_ready_calls_prefix(users0, i + 1);
                    lemma_extends_prefix_stop(log1, self.notifier.log(), ready_calls(users0.take(i + 1)), r, ready_calls(users0));
                    lemma_extends_then(log0, log1, self.notifier.log(), seq![Call::RoomReady], ready_calls(users0), r);
                    let t1 = log1.skip(log0.len() as int);
                    assert(log1[log0.len() as int] == t1[0]);
                    assert(self.notifier.log().take(log1.len() as int)[log0.len() as int] == log1[log0.len() as int]);
                    assert forall|k: int|
                        #![trigger self.users@[k]]
                        0 <= k < users0.len() implies self.users@[k].0 == users0[k].0 && if k < i + 1 {
                            tree_taken(users0[k].1, self.users@[k].1)
                        } else {
                            self.users@[k].1 == users0[k].1
                        } by {
                        if k != i {
                            assert(self.users@[k] == cur[k]);
                        } else {
                            assert(cur[k] == users0[k]);
                        }
                    }
                    assert(announced_upto(users0, self.users@, i + 1));
                    assert forall|a: int, b: int| 0 <= a < b < self.users@.len() implies #[trigger] self.users@[a].0@ != #[trigger] self.users@[b].0@ by {
                        assert(self.users@[a].0 == users0[a].0);
                        assert(self.users@[b].0 == users0[b].0);
                    }
                    assert forall|a: int| 0 <= a < self.users@.len() implies #[trigger] self.users@[a].1.user_id@ == self.users@[a].0@ by {
                        assert(self.users@[a].0 == users0[a].0);
                        assert(self.users@[a].1.user_id == users0[a].1.user_id);
                        assert(users0[a].1.user_id@ == users0[a].0@);
                    }
                    assert(users_wf(self.users@));
                }
                return r;
            }
            i = i + 1;
        }
        proof {
            assert(users0.take(i as int) =~= users0);
            lemma_extends_then(log0, log1, self.notifier.log(), seq![Call::RoomReady], ready_calls(users0), Ok(()));
            assert forall|a: int, b: int| 0 <= a < b < self.users@.len() implies #[trigger] self.users@[a].0@ != #[trigger] self.users@[b].0@ by {
                assert(self.users@[a].0 == users0[a].0);
                assert(self.users@[b].0 == users0[b].0);
            }
        }
        Ok(())
    }

    /// Handles a push from the server: updates the known users and tells
    /// the host what changed, as `push_calls` plans it. A closing notice
    /// fails with its status (the success status when it has none); a user
    /// tree update that names no user fails too; in both cases nothing else
    /// happens. Success means that every planned callback was made and
    /// accepted, and the users then are as `push_next` says; a callback
    /// that fails stops the handling, and the users then are as
    /// `push_failed_next` says.
    #[verifier::spinoff_prover]
    pub fn handle_server_push(&mut self, push: ServerPush) -> (r: Result<(), ClientError>)
        requires
            old(self).wf(),
            push.typ matches ServerPushType::UFull(st) ==> st.wf(),
        ensures
            final(self).wf(),
            final(self).listener() == old(self).listener(),
            final(self).handlers() == old(self).handlers(),
            final(self).dlink_x_id() == old(self).dlink_x_id(),
            match push.typ {
                ServerPushType::Closed(n) => {
                    &&& r matches Err(ClientError::Closed(s)) && status_or_default(n.status, s)
                    &&& final(self).log() == old(self).log()
                    &&& final(self).users() == old(self).users()
                    &&& final(self).room_ready() == old(self).room_ready()
                },
                ServerPushType::UTree(t) if t.id is None => {
                    &&& r matches Err(ClientError::NoTreeUserId)
                    &&& final(self).log() == old(self).log()
                    &&& final(self).users() == old(self).users()
                    &&& final(self).room_ready() == old(self).room_ready()
                },
                _ => {
                    &&& extends(
                        old(self).log(),
                        final(self).log(),
                        push_calls(old(self).users(), old(self).room_ready(), push.typ),
                        r,
                    )
                    &&& r is Ok ==> push_next(
                        old(self).users(),
                        old(self).room_ready(),
                        push.typ,
                        final(self).users(),
                        final(self).room_ready(),
                    )
                    &&& r is Err ==> push_failed_next(
                        old(self).users(),
                        old(self).room_ready(),
                        push.typ,
                        final(self).users(),
                        final(self).room_ready(),
                        final(self).log().len() > old(self).log().len() && final(self).log()[old(self).log().len() as int].answer is Ok,
                    )
                },
            },
    {
        match push.typ {
            ServerPushType::Closed(notice) => {
                let status = match notice.status {
                    Some(s) => s,
                    None => v1::Status::ok(),
                };
                Err(ClientError::Closed(status))
            },
            ServerPushType::Chat(notice) => self.on_chat(notice),
            ServerPushType::UInit(id) => self.on_user_init(id.id),
            ServerPushType::UReady(id) => self.on_user_ready(id.id),
            ServerPushType::UFull(st) => self.on_user_full(st),
            ServerPushType::UTree(t) => self.on_user_tree(t),
            ServerPushType::RTree(t) => {
                let node = TreeNode::from(t);
                self.notifier.update_room_tree(node)
            },
            ServerPushType::RReady(id) => self.on_room_ready(id),
        }
    }

    fn find_handler(&self, sn: i64) -> (r: Option<usize>)
        requires
            handlers_wf(self.response_handlers@),
        ensures
            match r {
                Some(i) => i < self.response_handlers@.len() && handler_index(self.response_handlers@, sn) == i,
                None => handler_index(self.response_handlers@, sn) == -1,
            },
    {
        let mut i: usize = 0;
        while i < self.response_handlers.len()
            invariant
                i <= self.response_handlers@.len(),
                handlers_wf(self.response_handlers@),
                forall|k: int| 0 <= k < i ==> #[trigger] self.response_handlers@[k].0 != sn,
            decreases self.response_handlers.len() - i,
        {
            if self.response_handlers[i].0 == sn {
                proof {
                    lemma_handler_index_at(self.response_handlers@, sn, i as int);
                }
                return Some(i);
            }
            i = i + 1;
        }
        None
    }

    fn insert_handler(&mut self, sn: i64, res: Resolver)
        requires
            old(self).wf(),
        ensures
            final(self).wf(),
            final(self).response_handlers@ == handlers_insert(old(self).response_handlers@, sn, res),
            final(self).users@ == old(self).users@,
            final(self).got_room_ready == old(self).got_room_ready,
            final(self).dlink_x_id == old(self).dlink_x_id,
            final(self).notifier == old(self).notifier,
    {
        let ghost h0 = self.response_handlers@;
        match self.find_handler(sn) {
            Some(i) => {
                proof {
                    lemma_handlers_wf_remove(h0, i as int);
                    lemma_handlers_wf_push(h0.remove(i as int), (sn, res));
                }
                let _old = self.response_handlers.remove(i);
                self.response_handlers.push((sn, res));
            },
            None => {
                proof {
                    if exists|k: int| 0 <= k < h0.len() && #[trigger] h0[k].0 == sn {
                        let k = choose|k: int| 0 <= k < h0.len() && #[trigger] h0[k].0 == sn;
                        assert(h0[k].0 == sn);
                    }
                    lemma_handlers_wf_push(h0, (sn, res));
                }
                self.response_handlers.push((sn, res));
            },
        }
    }

    /// Queues a request with body `body` and waits for its response with
    /// `res`.
    fn send_request<B: JsonBody>(&mut self, xfer: &mut Xfer, body: &B, res: Resolver) -> (r: Result<i64, ClientError>)
        requires
            old(self).wf(),
            old(xfer)@.wf(),
            old(xfer)@.tail_sn < i64::MAX,
        ensures
            final(self).wf(),
            final(xfer)@.wf(),
            r matches Ok(sn) && queued(old(xfer)@, final(xfer)@, PacketType::Request, body.json(), None, sn)
                && final(self).response_handlers@ == handlers_insert(old(self).response_handlers@, sn, res),
            final(xfer)@.send_index == old(xfer)@.send_index,
            final(xfer)@.recv_sn == old(xfer)@.recv_sn,
            final(self).users@ == old(self).users@,
            final(self).got_room_ready == old(self).got_room_ready,
            final(self).dlink_x_id == old(self).dlink_x_id,
            final(self).notifier == old(self).notifier,
    {
        let sn = match xfer.add_qos1_typed(PacketType::Request, body, None) {
            Ok(sn) => sn,
            Err(e) => {
                return Err(ClientError::Json(e));
            },
        };
        self.insert_handler(sn, res);
        Ok(sn)
    }

    fn req_create_x(&mut self, xfer: &mut Xfer, dir: i32) -> (r: Result<i64, ClientError>)
        requires
            old(self).wf(),
            old(xfer)@.wf(),
            old(xfer)@.tail_sn < i64::MAX,
        ensures
            final(self).wf(),
            final(xfer)@.wf(),
            r matches Ok(sn) && queued(old(xfer)@, final(xfer)@, PacketType::Request, create_x_body(dir), None, sn)
                && final(self).response_handlers@ == handlers_insert(old(self).response_handlers@, sn, Resolver::CreateX(dir)),
            final(self).users@ == old(self).users@,
            final(self).got_room_ready == old(self).got_room_ready,
            final(self).dlink_x_id == old(self).dlink_x_id,
            final(self).notifier == old(self).notifier,
    {
        let room_id = "";
        let msg = (CreateWebrtcTransportRequestSer { room_id, dir, kind: 0, dtls: Option::<JsonText>::None }).into_msg();
        assert(msg.json() == create_x_body(dir));
        self.send_request(xfer, &msg, Resolver::CreateX(dir))
    }

    fn req_batch_end(&mut self, xfer: &mut Xfer) -> (r: Result<i64, ClientError>)
        requires
            old(self).wf(),
            old(xfer)@.wf(),
            old(xfer)@.tail_sn < i64::MAX,
        ensures
            final(self).wf(),
            final(xfer)@.wf(),
            r matches Ok(sn) && queued(old(xfer)@, final(xfer)@, PacketType::Request, batch_end_body(), None, sn)
                && final(self).response_handlers@ == handlers_insert(old(self).response_handlers@, sn, Resolver::BatchEnd),
            final(self).users@ == old(self).users@,
            final(self).got_room_ready == old(self).got_room_ready,
            final(self).dlink_x_id == old(self).dlink_x_id,
            final(self).notifier == old(self).notifier,
    {
        let msg = (BatchEndRequestSer {  }).into_msg();
        self.send_request(xfer, &msg, Resolver::BatchEnd)
    }

    /// Queues, once a session is open, the requests for the sending and
    /// the receiving transport and the end of the opening batch.
    pub fn on_opening(&mut self, xfer: &mut Xfer) -> (r: Result<(), ClientError>)
        requires
            old(self).wf(),
            old(xfer)@.wf(),
            old(xfer)@.tail_sn < i64::MAX - 2,
        ensures
            final(self).wf(),
            final(xfer)@.wf(),
            r is Ok,
            exists|x1: XferView, x2: XferView|
                {
                    &&& queued(old(xfer)@, x1, PacketType::Request, create_x_body(0), None, (old(xfer)@.tail_sn + 1) as i64)
                    &&& #[trigger] queued(x1, x2, PacketType::Request, create_x_body(1), None, (old(xfer)@.tail_sn + 2) as i64)
                    &&& queued(x2, final(xfer)@, PacketType::Request, batch_end_body(), None, (old(xfer)@.tail_sn + 3) as i64)
                },
            final(self).handlers() == handlers_insert(
                handlers_insert(
                    handlers_insert(old(self).handlers(), (old(xfer)@.tail_sn + 1) as i64, Resolver::CreateX(0)),
                    (old(xfer)@.tail_sn + 2) as i64,
                    Resolver::CreateX(1),
                ),
                (old(xfer)@.tail_sn + 3) as i64,
                Resolver::BatchEnd,
            ),
            final(self).users() == old(self).users(),
            final(self).room_ready() == old(self).room_ready(),
            final(self).dlink_x_id() == old(self).dlink_x_id(),
            final(self).log() == old(self).log(),
            final(self).listener() == old(self).listener(),
    {
        let ghost x0 = xfer@;
        self.req_create_x(xfer, 0)?;
        let ghost x1 = xfer@;
        self.req_create_x(xfer, 1)?;
        let ghost x2 = xfer@;
        self.req_batch_end(xfer)?;
        assert(queued(x0, x1, PacketType::Request, create_x_body(0), None, (x0.tail_sn + 1) as i64));
        assert(queued(x1, x2, PacketType::Request, create_x_body(1), None, (x0.tail_sn + 2) as i64));
        assert(queued(x2, xfer@, PacketType::Request, batch_end_body(), None, (x0.tail_sn + 3) as i64));
        Ok(())
    }

    /// Tells the host that the session is open.
    pub fn on_opened(&mut self, session_id: String) -> (r: Result<(), ClientError>)
        ensures
            extends(old(self).log(), final(self).log(), seq![Call::Opened(session_id@)], r),
            final(self).users() == old(self).users(),
            final(self).handlers() == old(self).handlers(),
            final(self).room_ready() == old(self).room_ready(),
            final(self).dlink_x_id() == old(self).dlink_x_id(),
            final(self).listener() == old(self).listener(),
    {
        self.notifier.opened(session_id)
    }

    /// Tells the host that the session is closed, with its final status.
    pub fn on_closed(&mut self, status: v1::Status) -> (r: Result<(), ClientError>)
        ensures
            extends(old(self).log(), final(self).log(), seq![Call::Closed(status.code, status.reason@)], r),
            final(self).users() == old(self).users(),
            final(self).handlers() == old(self).handlers(),
            final(self).room_ready() == old(self).room_ready(),
            final(self).dlink_x_id() == old(self).dlink_x_id(),
            final(self).listener() == old(self).listener(),
    {
        let s = Status::from(status);
        self.notifier.closed(s)
    }

    fn resolve(&mut self, res: Resolver, t: ResponseType) -> (r: Result<(), ClientError>)
        requires
            old(self).wf(),
        ensures
            final(self).wf(),
            match resolution(res, t) {
                Err(e) => r == Err::<(), ClientError>(e) && final(self).notifier.log() == old(self).notifier.log(),
                Ok(p) => extends(old(self).notifier.log(), final(self).notifier.log(), p, r),
            },
            resolution(res, t) is Ok ==> opt_view(final(self).dlink_x_id) == dlink_after(res, t, opt_view(old(self).dlink_x_id)),
            resolution(res, t) is Err ==> final(self).dlink_x_id == old(self).dlink_x_id,
            final(self).users@ == old(self).users@,
            final(self).got_room_ready == old(self).got_room_ready,
            final(self).response_handlers@ == old(self).response_handlers@,
            final(self).notifier.listener() == old(self).notifier.listener(),
    {
        match res {
            Resolver::CreateX(dir) => {
                let rsp = match OnCreateXResponse::try_from(t) {
                    Ok(v) => v,
                    Err(e) => {
                        return Err(e);
                    },
                };
                if dir == 1 {
                    self.dlink_x_id = Some(rsp.xid.clone());
                }
                self.notifier.created_x(dir, rsp)
            },
            Resolver::BatchEnd => {
                proof {
                    lemma_extends_none(self.notifier.log());
                }
                Ok(())
            },
            Resolver::Leave => {
                match t {
                    ResponseType::Close(_) => {
                        proof {
                            lemma_extends_none(self.notifier.log());
                        }
                        Ok(())
                    },
                    _ => Err(ClientError::UnexpectedResponse("Close")),
                }
            },
            Resolver::ConnX(cb) => {
                let ret = match ConnXReturn::try_from(t) {
                    Ok(v) => v,
                    Err(e) => {
                        return Err(e);
                    },
                };
                let ghost before = self.notifier.log();
                let out = cb.resolve(ret, &mut self.notifier.heard);
                self.notifier.logged(Ghost(Call::ResolvedConnX), Ghost(before), out)
            },
            Resolver::Pub(cb) => {
                let ret = match PubReturn::try_from(t) {
                    Ok(v) => v,
                    Err(e) => {
                        return Err(e);
                    },
                };
                let c = Ghost(resolved_pub_call(ret));
                let ghost before = self.notifier.log();
                let out = cb.resolve(ret, &mut self.notifier.heard);
                self.notifier.logged(c, Ghost(before), out)
            },
            Resolver::UPub(cb) => {
                let ret = match UPubReturn::try_from(t) {
                    Ok(v) => v,
                    Err(e) => {
                        return Err(e);
                    },
                };
                let ghost before = self.notifier.log();
                let out = cb.resolve(ret, &mut self.notifier.heard);
                self.notifier.logged(Ghost(Call::ResolvedUPub), Ghost(before), out)
            },
            Resolver::Mute(cb) => {
                let ret = match MuteReturn::try_from(t) {
                    Ok(v) => v,
                    Err(e) => {
                        return Err(e);
                    },
                };
                let ghost before = self.notifier.log();
                let out = cb.resolve(ret, &mut self.notifier.heard);
                self.notifier.logged(Ghost(Call::ResolvedMute), Ghost(before), out)
            },
            Resolver::Sub(x_id, producer_id, stream_id, cb) => {
                let ret = match SubReturn::try_new(x_id, producer_id, stream_id, t) {
                    Ok(v) => v,
                    Err(e) => {
                        return Err(e);
                    },
                };
                let c = Ghost(resolved_sub_call(ret));
                let ghost before = self.notifier.log();
                let out = cb.resolve(ret, &mut self.notifier.heard);
                self.notifier.logged(c, Ghost(before), out)
            },
            Resolver::USub(cb) => {
                let ret = match UnsubReturn::try_new(t) {
                    Ok(v) => v,
                    Err(e) => {
                        return Err(e);
                    },
                };
                let ghost before = self.notifier.log();
                let out = cb.resolve(ret, &mut self.notifier.heard);
                self.notifier.logged(Ghost(Call::ResolvedUSub), Ghost(before), out)
            },
        }
    }

    /// Handles the response to request `ack`: the request stops waiting; a
    /// response with a failure status is dropped; otherwise what it
    /// resolves is handed to the host, as `resolution` plans it.
    #[verifier::spinoff_prover]
    pub fn on_response(&mut self, ack: i64, response: Response) -> (r: Result<(), ClientError>)
        requires
            old(self).wf(),
        ensures
            final(self).wf(),
            final(self).users() == old(self).users(),
            final(self).room_ready() == old(self).room_ready(),
            final(self).listener() == old(self).listener(),
            ({
                let i = handler_index(old(self).handlers(), ack);
                if i < 0 {
                    &&& r == Err::<(), ClientError>(ClientError::NoResponseHandler(ack))
                    &&& final(self).handlers() == old(self).handlers()
                    &&& final(self).log() == old(self).log()
                    &&& final(self).dlink_x_id() == old(self).dlink_x_id()
                } else {
                    let res = old(self).handlers()[i].1;
                    &&& final(self).handlers() == old(self).handlers().remove(i)
                    &&& if response.status matches Some(s) && s.code != 0 {
                        &&& r is Ok
                        &&& final(self).log() == old(self).log()
                        &&& final(self).dlink_x_id() == old(self).dlink_x_id()
                    } else {
                        match response.typ {
                            None => {
                                &&& r == Err::<(), ClientError>(ClientError::NoResponseType)
                                &&& final(self).log() == old(self).log()
                                &&& final(self).dlink_x_id() == old(self).dlink_x_id()
                            },
                            Some(t) => match resolution(res, t) {
                                Err(e) => {
                                    &&& r == Err::<(), ClientError>(e)
                                    &&& final(self).log() == old(self).log()
                                    &&& final(self).dlink_x_id() == old(self).dlink_x_id()
                                },
                                Ok(p) => {
                                    &&& extends(old(self).log(), final(self).log(), p, r)
                                    &&& opt_view(final(self).dlink_x_id()) == dlink_after(
                                        res,
                                        t,
                                        opt_view(old(self).dlink_x_id()),
                                    )
                                },
                            },
                        }
                    }
                }
            }),
    {
        let i = match self.find_handler(ack) {
            Some(i) => i,
            None => {
                return Err(ClientError::NoResponseHandler(ack));
            },
        };
        proof {
            lemma_handlers_wf_remove(self.response_handlers@, i as int);
        }
        let (_, res) = self.response_handlers.remove(i);
        let Response { status, typ } = response;
        if let Some(s) = &status {
            if s.code != 0 {
                return Ok(());
            }
        }
        let t = match typ {
            Some(t) => t,
            None => {
                return Err(ClientError::NoResponseType);
            },
        };
        self.resolve(res, t)
    }

    /// Sends the request of a host call, as `op_body` and `op_resolver` say, unless
    /// `op_refused` gives why it cannot be sent.
    #[verifier::spinoff_prover]
    pub fn process_op(&mut self, xfer: &mut Xfer, op: Op) -> (r: Result<(), ClientError>)
        requires
            old(self).wf(),
            old(xfer)@.wf(),
            old(xfer)@.tail_sn < i64::MAX,
        ensures
            final(self).wf(),
            final(xfer)@.wf(),
            final(self).users() == old(self).users(),
            final(self).room_ready() == old(self).room_ready(),
            final(self).dlink_x_id() == old(self).dlink_x_id(),
            final(self).log() == old(self).log(),
            final(self).listener() == old(self).listener(),
            match op_refused(op, old(self).users(), old(self).dlink_x_id()) {
                Some(e) => r == Err::<(), ClientError>(e) && final(self).handlers() == old(self).handlers()
                    && final(xfer)@ == old(xfer)@,
                None => {
                    &&& r is Ok
                    &&& queued(
                        old(xfer)@,
                        final(xfer)@,
                        PacketType::Request,
                        op_body(op, old(self).users(), old(self).dlink_x_id()),
                        None,
                        (old(xfer)@.tail_sn + 1) as i64,
                    )
                    &&& final(self).handlers() == handlers_insert(
                        old(self).handlers(),
                        (old(xfer)@.tail_sn + 1) as i64,
                        op_resolver(op, old(self).users(), old(self).dlink_x_id()),
                    )
                },
            },
    {
        let ghost op0 = op;
        let ghost users0 = self.users@;
        let ghost dlink0 = self.dlink_x_id;
        let ghost x0 = xfer@;
        let ghost body: Seq<char>;
        let ghost res0: Resolver;
        let r = match op {
            Op::Leave(end) => {
                let room_id = "";
                let msg = (CloseSessionRequestSer { room_id, end }).into_msg();
                let res = Resolver::Leave;
                proof {
                    body = msg.json();
                    res0 = res;
                    assert(body == op_body(op0, users0, dlink0) && res0 == op_resolver(op0, users0, dlink0));
                }
                self.send_request(xfer, &msg, res)
            },
            Op::ConnX(call, cb) => {
                let msg = call.to_body_typed();
                let res = Resolver::ConnX(cb);
                proof {
                    body = msg.json();
                    res0 = res;
                    assert(body == op_body(op0, users0, dlink0) && res0 == op_resolver(op0, users0, dlink0));
                }
                self.send_request(xfer, &msg, res)
            },
            Op::Pub(call, cb) => {
                let msg = call.to_body_typed();
                let res = Resolver::Pub(cb);
                proof {
                    body = msg.json();
                    res0 = res;
                    assert(body == op_body(op0, users0, dlink0) && res0 == op_resolver(op0, users0, dlink0));
                }
                self.send_request(xfer, &msg, res)
            },
            Op::UPub(call, cb) => {
                let msg = call.to_body_typed();
                let res = Resolver::UPub(cb);
                proof {
                    body = msg.json();
                    res0 = res;
                    assert(body == op_body(op0, users0, dlink0) && res0 == op_resolver(op0, users0, dlink0));
                }
                self.send_request(xfer, &msg, res)
            },
            Op::Mute(call, cb) => {
                let msg = call.to_body_typed();
                let res = Resolver::Mute(cb);
                proof {
                    body = msg.json();
                    res0 = res;
                    assert(body == op_body(op0, users0, dlink0) && res0 == op_resolver(op0, users0, dlink0));
                }
                self.send_request(xfer, &msg, res)
            },
            Op::USub(call, cb) => {
                let room_id = "";
                let msg = (UnsubscribeRequestSer { room_id, consumer_id: call.consumer_id.as_str() }).into_msg();
                let res = Resolver::USub(cb);
                proof {
                    body = msg.json();
                    res0 = res;
                    assert(body == op_body(op0, users0, dlink0) && res0 == op_resolver(op0, users0, dlink0));
                }
                self.send_request(xfer, &msg, res)
            },
            Op::Sub(call, cb) => {
                let i = match self.find_user(call.user_id.as_str()) {
                    Some(i) => i,
                    None => {
                        return Err(ClientError::UserNotFound);
                    },
                };
                let x_id = match &self.dlink_x_id {
                    Some(x) => x.clone(),
                    None => {
                        return Err(ClientError::NoDownlinkTransport);
                    },
                };
                let k = match find_stream_of_type(&self.users[i].1.state.streams, call.stype.value()) {
                    Some(k) => k,
                    None => {
                        return Err(ClientError::StreamNotFound);
                    },
                };
                let stream_id = self.users[i].1.state.streams[k].0.clone();
                let producer_id = self.users[i].1.state.streams[k].1.producer_id.clone();
                let room_id = "";
                let msg = (SubscribeRequestSer {
                    room_id,
                    stream_id: stream_id.as_str(),
                    producer_id: producer_id.as_str(),
                    xid: x_id.as_str(),
                    preferred_layers: None,
                }).into_msg();
                let res = Resolver::Sub(x_id.clone(), producer_id.clone(), stream_id.clone(), cb);
                proof {
                    body = msg.json();
                    res0 = res;
                    let v = crate::proto::v1::stream_type_value(to_proto_stream_type(call.stype));
                    let e = users0[i as int].1.state.streams@[k as int];
                    assert(user_index(users0, call.user_id@) == i);
                    assert(first_stream_of_type(users0[i as int].1.state.streams@, v) == Some(e));
                    assert(body == sub_body(e.0@, e.1.producer_id@, dlink0.unwrap()@));
                    assert(body == op_body(op0, users0, dlink0) && res0 == op_resolver(op0, users0, dlink0));
                }
                self.send_request(xfer, &msg, res)
            },
        };
        proof {
            assert(op_refused(op0, users0, dlink0) is None);
            assert(body == op_body(op0, users0, dlink0) && res0 == op_resolver(op0, users0, dlink0));
            assert(queued(x0, xfer@, PacketType::Request, body, None, (x0.tail_sn + 1) as i64));
            assert(self.response_handlers@ == handlers_insert(old(self).response_handlers@, (x0.tail_sn + 1) as i64, res0));
        }
        match r {
            Ok(_) => Ok(()),
            Err(e) => Err(e),
        }
    }
}





pub(crate) proof fn lemma_find_stream_unique(s: Seq<(String, Stream)>, i: int)
    requires
        stream_ids_unique(s),
        0 <= i < s.len(),
    ensures
        find_stream(s, s[i].0@) == Some(s[i].1),
    decreases i,
{
    if i > 0 {
        assert(s[0].0@ != s[i].0@);
        let t = s.drop_first();
        assert forall|a: int, b: int| 0 <= a < b < t.len() implies #[trigger] t[a].0@ != #[trigger] t[b].0@ by {
            assert(t[a] == s[a + 1]);
            assert(t[b] == s[b + 1]);
        }
        assert(t[i - 1] == s[i]);
        lemma_find_stream_unique(t, i - 1);
    }
}

proof fn lemma_old_part_silent(uid: Seq<char>, s: Seq<(String, Stream)>, n: int)
    requires
        stream_ids_unique(s),
        0 <= n <= s.len(),
    ensures
        old_part(uid, s.take(n), s) == Seq::<Call>::empty(),
    decreases n,
{
    if n > 0 {
        lemma_old_part_silent(uid, s, n - 1);
        assert(s.take(n).drop_last() =~= s.take(n - 1));
        lemma_find_stream_unique(s, n - 1);
        assert(old_step(uid, s.take(n).last(), s) =~= Seq::<Call>::empty());
        assert(old_part(uid, s.take(n), s) =~= Seq::<Call>::empty());
    } else {
        assert(s.take(0).len() == 0);
    }
}

proof fn lemma_new_part_silent(uid: Seq<char>, s: Seq<(String, Stream)>, n: int)
    requires
        stream_ids_unique(s),
        0 <= n <= s.len(),
    ensures
        new_part(uid, s.take(n), s) == Seq::<Call>::empty(),
    decreases n,
{
    if n > 0 {
        lemma_new_part_silent(uid, s, n - 1);
        assert(s.take(n).drop_last() =~= s.take(n - 1));
        lemma_find_stream_unique(s, n - 1);
        assert(new_step(uid, s.take(n).last(), s) =~= Seq::<Call>::empty());
        assert(new_part(uid, s.take(n), s) =~= Seq::<Call>::empty());
    } else {
        assert(s.take(0).len() == 0);
    }
}

/// A user whose streams did not change gets no stream callbacks: the
/// delta of a state (with distinct stream ids) against itself is empty.
pub proof fn lemma_delta_of_same_streams_is_silent(uid: Seq<char>, s: Seq<(String, Stream)>)
    requires
        stream_ids_unique(s),
    ensures
        delta_calls(uid, s, s) == Seq::<Call>::empty(),
{
    lemma_old_part_silent(uid, s, s.len() as int);
    lemma_new_part_silent(uid, s, s.len() as int);
    assert(s.take(s.len() as int) =~= s);
    assert(delta_calls(uid, s, s) =~= Seq::<Call>::empty());
}

/// A user dropped from the table is no longer known: no entry of the
/// table without position `user_index(users, id)` has id `id`.
pub proof fn lemma_removed_user_is_unknown(users: Seq<(AStr, UserCell)>, id: Seq<char>)
    requires
        users_wf(users),
        user_index(users, id) >= 0,
    ensures
        user_index(users.remove(user_index(users, id)), id) == -1,
{
    let i = user_index(users, id);
    lemma_user_index_range(users, id);
    let u = users.remove(i);
    assert forall|k: int| 0 <= k < u.len() implies #[trigger] u[k].0@ != id by {
        if k < i {
            assert(u[k] == users[k]);
            assert(users[k].0@ != users[i].0@);
        } else {
            assert(u[k] == users[k + 1]);
            assert(users[i].0@ != users[k + 1].0@);
        }
    }
    lemma_user_index_none(u, id);
}

/// A user-init push leaves its user unknown, whatever callbacks it made.
pub proof fn lemma_user_init_forgets(
    users: Seq<(AStr, UserCell)>,
    ready: bool,
    id: v1::Id,
    after: Seq<(AStr, UserCell)>,
    after_ready: bool,
)
    requires
        users_wf(users),
        push_next(users, ready, ServerPushType::UInit(id), after, after_ready),
    ensures
        user_index(after, id.id@) == -1,
        after_ready == ready,
{
    if user_index(users, id.id@) >= 0 {
        lemma_removed_user_is_unknown(users, id.id@);
    }
}

/// A full state of a user not known before registers it, not announced,
/// with no callback.
pub proof fn lemma_new_user_registers_silently(users: Seq<(AStr, UserCell)>, ready: bool, st: UserState)
    requires
        user_index(users, st.id@) == -1,
    ensures
        push_calls(users, ready, ServerPushType::UFull(st)) == Seq::<Call>::empty(),
{
}

/// The room-ready push announces the room first and then every known user
/// in table order, and afterwards no user holds back tree operations.
pub proof fn lemma_room_ready_announces_everyone(
    users: Seq<(AStr, UserCell)>,
    ready: bool,
    id: v1::Id,
    after: Seq<(AStr, UserCell)>,
    after_ready: bool,
)
    requires
        push_next(users, ready, ServerPushType::RReady(id), after, after_ready),
    ensures
        push_calls(users, ready, ServerPushType::RReady(id)) == seq![Call::RoomReady] + ready_calls(users),
        after_ready,
        forall|k: int| 0 <= k < after.len() ==> (#[trigger] after[k]).1.tree@.len() == 0,
{
    assert forall|k: int| 0 <= k < after.len() implies (#[trigger] after[k]).1.tree@.len() == 0 by {
        assert(after[k].0 == users[k].0);
        assert(tree_taken(users[k].1, after[k].1));
    }
}

/// A response resolves its request once: afterwards nothing waits under
/// its number.
pub proof fn lemma_response_consumes_request(h: Seq<(i64, Resolver)>, ack: i64)
    requires
        handlers_wf(h),
        handler_index(h, ack) >= 0,
    ensures
        handler_index(h.remove(handler_index(h, ack)), ack) == -1,
{
    let i = handler_index(h, ack);
    assert(0 <= i < h.len() && h[i].0 == ack);
    lemma_handlers_wf_remove(h, i);
    let u = h.remove(i);
    if exists|k: int| 0 <= k < u.len() && #[trigger] u[k].0 == ack {
        let k = choose|k: int| 0 <= k < u.len() && #[trigger] u[k].0 == ack;
        assert(u[k].0 != h[i].0);
    }
}

/// Registering a request under a number makes it the one waiting under
/// that number, and keeps the numbers distinct.
pub proof fn lemma_insert_registers(h: Seq<(i64, Resolver)>, sn: i64, res: Resolver)
    requires
        handlers_wf(h),
    ensures
        handlers_wf(handlers_insert(h, sn, res)),
        handler_index(handlers_insert(h, sn, res), sn) == handlers_insert(h, sn, res).len() - 1,
{
    let i = handler_index(h, sn);
    let base = if i >= 0 {
        h.remove(i)
    } else {
        h
    };
    if i >= 0 {
        assert(0 <= i < h.len() && h[i].0 == sn);
        lemma_handlers_wf_remove(h, i);
    } else {
        assert forall|k: int| 0 <= k < h.len() implies #[trigger] h[k].0 != sn by {
            if h[k].0 == sn {
                assert(exists|j: int| 0 <= j < h.len() && #[trigger] h[j].0 == sn);
            }
        }
    }
    lemma_handlers_wf_push(base, (sn, res));
    let n = base.push((sn, res));
    lemma_handler_index_at(n, sn, n.len() - 1);
}

} // verus!
