use std::cell::RefCell;
use std::rc::Rc;

use vvclient::client::xfer::Xfer;
use vvclient::glue::client::{
    fake_producer_id, CbResolvePub, CbResolveSub, DelegateImpl, Listener, OnAddStreamArgs,
    OnClosedArgs, OnCreatedXArgs, OnOpenedArgs, OnRemoveStreamArgs, OnRoomChatArgs,
    OnUpdateRoomTreeArgs, OnUpdateStreamArgs, OnUpdateUserTreeArgs, OnUserChatArgs,
    OnUserJoinedArgs, OnUserLeavedArgs, Op,
};
use vvclient::glue::defines::{
    ClientInfo as HostClientInfo, PubCall, PubReturn, SignalConfig, StreamType, SubCall, SubReturn,
    UnsubReturn,
};
use vvclient::glue::hearing::Hearing;
use vvclient::glue::error::{ClientError, ForeignError};
use vvclient::proto::response::ResponseType;
use vvclient::proto::v1::{
    ChatNotice, ClosedNotice, CreateWebrtcTransportResponse, Id, PublishResponse, Response,
    ServerPush, ServerPushType, Status, Stream, SubscribeResponse, TreeState, UserState,
};

#[derive(Clone, Default)]
struct Recorder {
    calls: Rc<RefCell<Vec<String>>>,
    fail_on: Option<&'static str>,
}

impl Recorder {
    fn log(&self, s: String) -> Result<(), ForeignError> {
        let fail = match self.fail_on {
            Some(p) => s.starts_with(p),
            None => false,
        };
        self.calls.borrow_mut().push(s);
        if fail {
            Err(ForeignError::Busy)
        } else {
            Ok(())
        }
    }

    fn take(&self) -> Vec<String> {
        std::mem::take(&mut *self.calls.borrow_mut())
    }
}

impl Listener for Recorder {
    fn on_opened(&self, args: OnOpenedArgs, _heard: &mut Hearing) -> Result<(), ForeignError> {
        self.log(format!("opened {}", args.session_id))
    }

    fn on_closed(&self, args: OnClosedArgs, _heard: &mut Hearing) -> Result<(), ForeignError> {
        self.log(format!("closed {} {}", args.status.code, args.status.reason))
    }

    fn on_created_x(&self, args: OnCreatedXArgs, _heard: &mut Hearing) -> Result<(), ForeignError> {
        self.log(format!("created_x {} {}", args.dir, args.response.xid))
    }

    fn on_room_chat(&self, args: OnRoomChatArgs, _heard: &mut Hearing) -> Result<(), ForeignError> {
        self.log(format!("room_chat {} {} {}", args.chat.from, args.chat.to, args.chat.body))
    }

    fn on_user_chat(&self, args: OnUserChatArgs, _heard: &mut Hearing) -> Result<(), ForeignError> {
        self.log(format!("user_chat {} {} {}", args.chat.from, args.chat.to, args.chat.body))
    }

    fn on_room_ready(&self, _heard: &mut Hearing) -> Result<(), ForeignError> {
        self.log("room_ready".to_string())
    }

    fn on_user_joined(&self, args: OnUserJoinedArgs, _heard: &mut Hearing) -> Result<(), ForeignError> {
        let paths: Vec<String> = args.tree.iter().map(|n| n.path.clone()).collect();
        self.log(format!("joined {} [{}]", args.user_id, paths.join(",")))
    }

    fn on_user_leaved(&self, args: OnUserLeavedArgs, _heard: &mut Hearing) -> Result<(), ForeignError> {
        self.log(format!("leaved {}", args.user_id))
    }

    fn on_add_stream(&self, args: OnAddStreamArgs, _heard: &mut Hearing) -> Result<(), ForeignError> {
        self.log(format!("add {} {} {}", args.user_id, args.stype.as_str(), args.muted))
    }

    fn on_update_stream(&self, args: OnUpdateStreamArgs, _heard: &mut Hearing) -> Result<(), ForeignError> {
        self.log(format!("update {} {} {}", args.user_id, args.stype.as_str(), args.muted))
    }

    fn on_remove_stream(&self, args: OnRemoveStreamArgs, _heard: &mut Hearing) -> Result<(), ForeignError> {
        self.log(format!("remove {} {}", args.user_id, args.stype.as_str()))
    }

    fn on_update_user_tree(&self, args: OnUpdateUserTreeArgs, _heard: &mut Hearing) -> Result<(), ForeignError> {
        self.log(format!("user_tree {} {}", args.user_id, args.node.path))
    }

    fn on_update_room_tree(&self, args: OnUpdateRoomTreeArgs, _heard: &mut Hearing) -> Result<(), ForeignError> {
        self.log(format!("room_tree {}", args.node.path))
    }
}

fn stream(stype: i32, producer: &str, muted: bool) -> Stream {
    Stream { seq: 1, stype, producer_id: producer.to_string(), muted }
}

fn user(id: &str, online: bool, inst: &str, streams: Vec<(&str, Stream)>) -> UserState {
    UserState {
        id: id.to_string(),
        online,
        streams: streams.into_iter().map(|(k, v)| (k.to_string(), v)).collect(),
        ext: None,
        inst_id: inst.to_string(),
    }
}

fn push(typ: ServerPushType) -> ServerPush {
    ServerPush { typ }
}

fn full(u: UserState) -> ServerPush {
    push(ServerPushType::UFull(u))
}

fn id(s: &str) -> Id {
    Id { id: s.to_string() }
}

fn tree(path: &str, owner: Option<&str>) -> TreeState {
    TreeState { path: path.to_string(), value: Some("v".to_string()), id: owner.map(|s| s.to_string()), prune: None }
}

#[test]
fn room_ready_announces_known_users_with_their_streams() {
    let rec = Recorder::default();
    let mut d = DelegateImpl::new(rec.clone());
    d.handle_server_push(full(user(
        "u1",
        true,
        "i1",
        vec![("cam", stream(1, "p1", false)), ("mic", stream(2, "p2", true))],
    )))
    .unwrap();
    d.handle_server_push(push(ServerPushType::UTree(tree("a/b", Some("u1"))))).unwrap();
    assert!(rec.take().is_empty());
    d.handle_server_push(push(ServerPushType::RReady(id("room")))).unwrap();
    assert_eq!(
        rec.take(),
        vec!["room_ready", "joined u1 [a/b]", "add u1 camera false", "add u1 mic true"]
    );
}

#[test]
fn user_ready_after_room_ready_announces_the_user() {
    let rec = Recorder::default();
    let mut d = DelegateImpl::new(rec.clone());
    d.handle_server_push(push(ServerPushType::RReady(id("room")))).unwrap();
    d.handle_server_push(full(user("u2", true, "i1", vec![("scr", stream(3, "p9", false))]))).unwrap();
    rec.take();
    d.handle_server_push(push(ServerPushType::UReady(id("u2")))).unwrap();
    assert_eq!(rec.take(), vec!["joined u2 []", "add u2 screen false"]);
    d.handle_server_push(push(ServerPushType::UTree(tree("x", Some("u2"))))).unwrap();
    assert_eq!(rec.take(), vec!["user_tree u2 x"]);
}

#[test]
fn stream_changes_of_a_ready_user() {
    let rec = Recorder::default();
    let mut d = DelegateImpl::new(rec.clone());
    d.handle_server_push(push(ServerPushType::RReady(id("room")))).unwrap();
    d.handle_server_push(full(user(
        "u1",
        true,
        "i1",
        vec![("cam", stream(1, "p1", false)), ("mic", stream(2, "p2", false)), ("scr", stream(3, "p3", false))],
    )))
    .unwrap();
    d.handle_server_push(push(ServerPushType::UReady(id("u1")))).unwrap();
    rec.take();
    // camera gets a new producer, microphone is muted, screen is gone
    d.handle_server_push(full(user(
        "u1",
        true,
        "i1",
        vec![("cam", stream(1, "p1b", false)), ("mic", stream(2, "p2", true))],
    )))
    .unwrap();
    assert_eq!(
        rec.take(),
        vec!["remove u1 camera", "add u1 camera false", "update u1 mic true", "remove u1 screen"]
    );
    // the screen comes back
    d.handle_server_push(full(user(
        "u1",
        true,
        "i1",
        vec![("cam", stream(1, "p1b", false)), ("mic", stream(2, "p2", true)), ("scr2", stream(3, "p4", true))],
    )))
    .unwrap();
    assert_eq!(rec.take(), vec!["add u1 screen true"]);
    // the same state again changes nothing
    d.handle_server_push(full(user(
        "u1",
        true,
        "i1",
        vec![("cam", stream(1, "p1b", false)), ("mic", stream(2, "p2", true)), ("scr2", stream(3, "p4", true))],
    )))
    .unwrap();
    assert!(rec.take().is_empty());
}

#[test]
fn offline_or_new_instance_leaves() {
    let rec = Recorder::default();
    let mut d = DelegateImpl::new(rec.clone());
    d.handle_server_push(push(ServerPushType::RReady(id("room")))).unwrap();
    d.handle_server_push(full(user("u1", true, "i1", vec![]))).unwrap();
    d.handle_server_push(push(ServerPushType::UReady(id("u1")))).unwrap();
    rec.take();
    d.handle_server_push(full(user("u1", true, "i2", vec![]))).unwrap();
    assert_eq!(rec.take(), vec!["leaved u1"]);
    // not announced again: a user-ready push is needed
    d.handle_server_push(full(user("u1", false, "i2", vec![]))).unwrap();
    assert!(rec.take().is_empty());
    d.handle_server_push(push(ServerPushType::UReady(id("u1")))).unwrap();
    assert!(rec.take().is_empty());
}

#[test]
fn user_init_forgets_a_known_user() {
    let rec = Recorder::default();
    let mut d = DelegateImpl::new(rec.clone());
    d.handle_server_push(full(user("u1", true, "i1", vec![]))).unwrap();
    d.handle_server_push(push(ServerPushType::UInit(id("u1")))).unwrap();
    assert_eq!(rec.take(), vec!["leaved u1"]);
    d.handle_server_push(push(ServerPushType::UInit(id("u1")))).unwrap();
    assert!(rec.take().is_empty());
}

#[test]
fn chat_routing() {
    let rec = Recorder::default();
    let mut d = DelegateImpl::new(rec.clone());
    let chat = |from: &str, to: &str| {
        push(ServerPushType::Chat(ChatNotice { from: from.to_string(), to: to.to_string(), body: "hi".to_string() }))
    };
    d.handle_server_push(chat("u.alice", "r.room1")).unwrap();
    d.handle_server_push(chat("u.alice", "u.bob")).unwrap();
    d.handle_server_push(chat("x.alice", "u.bob")).unwrap();
    d.handle_server_push(chat("u.alice", "z.bob")).unwrap();
    assert_eq!(rec.take(), vec!["room_chat alice room1 hi", "user_chat alice bob hi"]);
}

#[test]
fn closing_notice_and_nameless_tree_fail() {
    let rec = Recorder::default();
    let mut d = DelegateImpl::new(rec.clone());
    let r = d.handle_server_push(push(ServerPushType::Closed(ClosedNotice {
        status: Some(Status { code: 7, reason: "bye".to_string() }),
    })));
    match r {
        Err(ClientError::Closed(s)) => assert_eq!((s.code, s.reason.as_str()), (7, "bye")),
        other => panic!("unexpected {:?}", other),
    }
    let r = d.handle_server_push(push(ServerPushType::Closed(ClosedNotice { status: None })));
    match r {
        Err(ClientError::Closed(s)) => assert_eq!(s.code, 0),
        other => panic!("unexpected {:?}", other),
    }
    let r = d.handle_server_push(push(ServerPushType::UTree(tree("a", None))));
    assert!(matches!(r, Err(ClientError::NoTreeUserId)));
    d.handle_server_push(push(ServerPushType::RTree(tree("room/k", None)))).unwrap();
    assert_eq!(rec.take(), vec!["room_tree room/k"]);
}

#[test]
fn invalid_stream_type_stops_the_delta() {
    let rec = Recorder::default();
    let mut d = DelegateImpl::new(rec.clone());
    d.handle_server_push(full(user("u1", true, "i1", vec![]))).unwrap();
    d.handle_server_push(push(ServerPushType::UReady(id("u1")))).unwrap();
    let r = d.handle_server_push(full(user("u1", true, "i1", vec![("odd", stream(9, "p", false))])));
    assert!(matches!(r, Err(ClientError::InvalidStreamType(9))));
}

#[test]
fn failing_callback_stops_the_push() {
    let rec = Recorder { calls: Default::default(), fail_on: Some("joined") };
    let mut d = DelegateImpl::new(rec.clone());
    d.handle_server_push(full(user("u1", true, "i1", vec![("cam", stream(1, "p1", false))]))).unwrap();
    let r = d.handle_server_push(push(ServerPushType::RReady(id("room"))));
    assert!(matches!(r, Err(ClientError::Callback(ForeignError::Busy))));
    assert_eq!(rec.take(), vec!["room_ready", "joined u1 []"]);
}

struct PubSink(Rc<RefCell<Vec<String>>>);

impl CbResolvePub for PubSink {
    fn resolve(&self, response: PubReturn, _heard: &mut Hearing) -> Result<(), ForeignError> {
        self.0.borrow_mut().push(response.producer_id);
        Ok(())
    }
}

struct SubSink(Rc<RefCell<Vec<String>>>);

impl CbResolveSub for SubSink {
    fn resolve(&self, r: SubReturn, _heard: &mut Hearing) -> Result<(), ForeignError> {
        self.0.borrow_mut().push(format!("{} {} {} {}", r.x_id, r.consumer_id, r.producer_id, r.stream_id));
        Ok(())
    }
}

fn created(xid: &str) -> Response {
    Response {
        status: None,
        typ: Some(ResponseType::CreateX(CreateWebrtcTransportResponse {
            xid: xid.to_string(),
            ice_param: None,
            ice_candidates: "[]".to_string(),
            dtls: None,
        })),
    }
}

#[test]
fn opening_requests_and_their_responses() {
    let rec = Recorder::default();
    let mut d = DelegateImpl::new(rec.clone());
    let mut x = Xfer::new();
    d.on_opening(&mut x).unwrap();
    let mut sent = Vec::new();
    while let Some(p) = x.next_unsent() {
        sent.push(p);
        x.mark_sent();
    }
    assert_eq!(
        sent,
        vec![
            r#"{"typ":3,"sn":1,"body":"{\"typ\":{\"CreateX\":{\"roomId\":\"\",\"dir\":0,\"kind\":0}}}"}"#,
            r#"{"typ":3,"sn":2,"body":"{\"typ\":{\"CreateX\":{\"roomId\":\"\",\"dir\":1,\"kind\":0}}}"}"#,
            r#"{"typ":3,"sn":3,"body":"{\"typ\":{\"BEnd\":{}}}"}"#,
        ]
    );
    d.on_response(2, created("down")).unwrap();
    d.on_response(1, created("up")).unwrap();
    assert_eq!(rec.take(), vec!["created_x 1 down", "created_x 0 up"]);
    let r = d.on_response(1, created("again"));
    assert!(matches!(r, Err(ClientError::NoResponseHandler(1))));
    d.on_response(3, Response { status: Some(Status { code: 5, reason: "no".to_string() }), typ: None }).unwrap();

    // a subscription uses the receiving transport and the user's stream
    d.handle_server_push(full(user("u9", true, "i", vec![("cam9", stream(1, "prod9", false))]))).unwrap();
    let subs = Rc::new(RefCell::new(Vec::new()));
    let op = Op::Sub(SubCall { user_id: "u9".to_string(), stype: StreamType::Camera }, Box::new(SubSink(subs.clone())));
    d.process_op(&mut x, op).unwrap();
    let packet = x.next_unsent().unwrap();
    assert_eq!(
        packet,
        r#"{"typ":3,"sn":4,"body":"{\"typ\":{\"Sub\":{\"roomId\":\"\",\"streamId\":\"cam9\",\"producerId\":\"prod9\",\"xid\":\"down\"}}}"}"#
    );
    let rsp = Response {
        status: None,
        typ: Some(ResponseType::Sub(SubscribeResponse { consumer_id: "c1".to_string(), rtp: None })),
    };
    d.on_response(4, rsp).unwrap();
    assert_eq!(*subs.borrow(), vec!["down c1 prod9 cam9".to_string()]);
}

#[test]
fn subscription_refusals() {
    let rec = Recorder::default();
    let mut d = DelegateImpl::new(rec.clone());
    let mut x = Xfer::new();
    let sink = Rc::new(RefCell::new(Vec::new()));
    let sub = |u: &str, t: StreamType| {
        Op::Sub(SubCall { user_id: u.to_string(), stype: t }, Box::new(SubSink(sink.clone())))
    };
    assert!(matches!(d.process_op(&mut x, sub("nobody", StreamType::Mic)), Err(ClientError::UserNotFound)));
    d.handle_server_push(full(user("u1", true, "i", vec![("cam", stream(1, "p", false))]))).unwrap();
    assert!(matches!(d.process_op(&mut x, sub("u1", StreamType::Mic)), Err(ClientError::NoDownlinkTransport)));
    d.on_opening(&mut x).unwrap();
    d.on_response(2, created("down")).unwrap();
    assert!(matches!(d.process_op(&mut x, sub("u1", StreamType::Mic)), Err(ClientError::StreamNotFound)));
}

#[test]
fn publication_resolves_with_the_producer() {
    let rec = Recorder::default();
    let mut d = DelegateImpl::new(rec.clone());
    let mut x = Xfer::new();
    let got = Rc::new(RefCell::new(Vec::new()));
    let call = PubCall { x_id: "up".to_string(), stype: StreamType::Mic, rtp: Some("{\"codecs\":[]}".to_string()), muted: Some(true) };
    d.process_op(&mut x, Op::Pub(call, Box::new(PubSink(got.clone())))).unwrap();
    assert_eq!(
        x.next_unsent().unwrap(),
        r#"{"typ":3,"sn":1,"body":"{\"typ\":{\"Pub\":{\"roomId\":\"\",\"xid\":\"up\",\"streamId\":\"mic\",\"stype\":2,\"rtp\":{\"codecs\":[]},\"audioType\":0,\"muted\":true}}}"}"#
    );
    let wrong = Response { status: None, typ: Some(ResponseType::Sub(SubscribeResponse { consumer_id: "c".to_string(), rtp: None })) };
    let r = d.on_response(1, wrong);
    assert!(matches!(r, Err(ClientError::UnexpectedResponse("Pub"))));
    assert!(got.borrow().is_empty());
    assert_eq!(fake_producer_id(StreamType::Mic), "mic_0");
}

#[test]
fn published_response_reaches_the_resolver() {
    let rec = Recorder::default();
    let mut d = DelegateImpl::new(rec.clone());
    let mut x = Xfer::new();
    let got = Rc::new(RefCell::new(Vec::new()));
    let call = PubCall { x_id: "up".to_string(), stype: StreamType::Camera, rtp: None, muted: None };
    d.process_op(&mut x, Op::Pub(call, Box::new(PubSink(got.clone())))).unwrap();
    let ok = Response { status: None, typ: Some(ResponseType::Pub(PublishResponse { producer_id: "prod-1".to_string() })) };
    d.on_response(1, ok).unwrap();
    assert_eq!(*got.borrow(), vec!["prod-1".to_string()]);
}

#[test]
fn leave_and_closed() {
    let rec = Recorder::default();
    let mut d = DelegateImpl::new(rec.clone());
    let mut x = Xfer::new();
    d.process_op(&mut x, Op::Leave(Some(true))).unwrap();
    assert_eq!(
        x.next_unsent().unwrap(),
        r#"{"typ":3,"sn":1,"body":"{\"typ\":{\"Close\":{\"room_id\":\"\",\"end\":true}}}"}"#
    );
    d.on_opened("s-1".to_string()).unwrap();
    d.on_closed(Status { code: 0, reason: String::new() }).unwrap();
    assert_eq!(rec.take(), vec!["opened s-1", "closed 0 "]);
}

#[test]
fn signal_config_becomes_join_config() {
    let cfg = SignalConfig {
        user_id: "u1".to_string(),
        room_id: "r1".to_string(),
        ignore_server_cert: true,
        token: Some("tk".to_string()),
        client_info: Some(HostClientInfo {
            platform: Some("Android".to_string()),
            sdk_name: None,
            sdk_version: Some("2".to_string()),
            device: Some(vec![("model".to_string(), "x".to_string())]),
        }),
    };
    let j = cfg.into_signal_join_config();
    assert_eq!(j.user_id.as_str(), "u1");
    assert_eq!(j.room_id.as_str(), "r1");
    assert_eq!(j.advance.batch, Some(true));
    assert!(j.advance.connection.ignore_server_cert);
    assert_eq!(j.advance.token.as_ref().map(|t| t.as_str()), Some("tk"));
    let ci = j.advance.client_info.unwrap();
    assert_eq!(ci.platform.as_ref().map(|t| t.as_str()), Some("Android"));
    assert!(ci.sdk_name.is_none());
    let dev = ci.device.unwrap();
    assert_eq!((dev[0].0.as_str(), dev[0].1.as_str()), ("model", "x"));

    let plain = SignalConfig {
        user_id: "a".to_string(),
        room_id: "b".to_string(),
        ignore_server_cert: false,
        token: None,
        client_info: None,
    };
    let j = plain.into_join_config();
    assert_eq!(j.advance.batch, None);
    assert!(j.advance.client_info.is_none());
    assert!(!j.advance.connection.ignore_server_cert);
}

#[test]
fn failed_stream_callback_drops_the_user() {
    // the host refuses to hear of a muted microphone
    let rec = Recorder { calls: Default::default(), fail_on: Some("update u1 mic") };
    let mut d = DelegateImpl::new(rec.clone());
    d.handle_server_push(push(ServerPushType::RReady(id("room")))).unwrap();
    d.handle_server_push(full(user("u1", true, "i1", vec![("mic", stream(2, "p2", false))]))).unwrap();
    d.handle_server_push(push(ServerPushType::UReady(id("u1")))).unwrap();
    assert_eq!(rec.take(), vec!["room_ready", "joined u1 []", "add u1 mic false"]);
    let r = d.handle_server_push(full(user("u1", true, "i1", vec![("mic", stream(2, "p2", true))])));
    assert!(matches!(r, Err(ClientError::Callback(ForeignError::Busy))));
    assert_eq!(rec.take(), vec!["update u1 mic true"]);
    // the user is no longer known: its next state registers it afresh, silently
    d.handle_server_push(full(user("u1", true, "i1", vec![("mic", stream(2, "p2", false))]))).unwrap();
    assert!(rec.take().is_empty());
    d.handle_server_push(push(ServerPushType::UReady(id("u1")))).unwrap();
    assert_eq!(rec.take(), vec!["joined u1 []", "add u1 mic false"]);
}

#[test]
fn refused_room_ready_leaves_the_room_not_ready() {
    let rec = Recorder { calls: Default::default(), fail_on: Some("room_ready") };
    let mut d = DelegateImpl::new(rec.clone());
    d.handle_server_push(full(user("u1", true, "i1", vec![]))).unwrap();
    let r = d.handle_server_push(push(ServerPushType::RReady(id("room"))));
    assert!(matches!(r, Err(ClientError::Callback(ForeignError::Busy))));
    assert_eq!(rec.take(), vec!["room_ready"]);
    // the room is not ready: a ready user is not announced
    d.handle_server_push(push(ServerPushType::UReady(id("u1")))).unwrap();
    assert!(rec.take().is_empty());
}

#[test]
fn client_error_texts() {
    assert_eq!(ClientError::UnexpectedResponse("USub").message(), "Unexpect response of [USub]");
    assert_eq!(ClientError::NoTreeUserId.message(), "no user_id in user tree");
    assert_eq!(ClientError::InvalidStreamType(9).message(), "invalid StreamType [9]");
    assert_eq!(ClientError::NoResponseHandler(5).message(), "Not found response handler for ack [5]");
    assert_eq!(ClientError::Callback(ForeignError::Busy).message(), "Busy");
    assert_eq!(
        ClientError::Callback(ForeignError::Unexpected("gone".to_string())).message(),
        "Unexpected error [gone]"
    );
    assert_eq!(
        ClientError::Closed(Status { code: 3, reason: "bye".to_string() }).message(),
        "Status { code: 3, reason: \"bye\" }"
    );
    let wrong = ResponseType::Sub(SubscribeResponse { consumer_id: "c".to_string(), rtp: None });
    let e = UnsubReturn::try_new(wrong).err().unwrap();
    assert!(e.message().starts_with("Unexpect response of [USub]"));
}
