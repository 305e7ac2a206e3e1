use std::time::Duration;

use vvclient::client::endpoint::{check_url, ws_scheme, UrlError};
use vvclient::client::frames::{Frame, RecvState, TungConfig};

use vvclient::client::defines::{ClientInfo, ConnectionConfig, JoinAdvanceArgs, JoinConfig};
use vvclient::client::worker::{
    after_work, check_guard, final_status, open_packet_body, open_response, open_session_packet,
    describe, push_closes, status_from_error, Flag, HeartbeatConfig, RecvCancelMode, Route, Session,
    ShutdownMode, WorkStep, WorkerError,
};
use vvclient::client::xfer::{Xfer, QUEUE_LIMIT};
use vvclient::glue::error::ClientError;
use vvclient::kit::astr::AStr;
use vvclient::proto::response::ResponseType;
use vvclient::proto::v1_ser::JsonText;
use vvclient::proto::v1::{
    ClosedNotice, HeartbeatResponse, Id, OpenSessionResponse, PacketMeta, PacketRef, PacketType,
    Response, ServerPush, ServerPushType, Status, UpdateTreeRequest,
};

fn st(code: i32, reason: &str) -> Status {
    Status { code, reason: reason.to_string() }
}

#[test]
fn xfer_numbers_queues_and_resends() {
    let mut x = Xfer::new();
    assert_eq!(x.next_unsent(), None);
    assert_eq!(x.add_push_json("{}").unwrap(), 1);
    assert_eq!(x.add_qos1_json(PacketType::Request, "{\"a\":1}", None).unwrap(), 2);
    assert_eq!(x.next_unsent().unwrap(), r#"{"typ":6,"sn":1,"body":"{}"}"#);
    x.mark_sent();
    assert_eq!(x.next_unsent().unwrap(), r#"{"typ":3,"sn":2,"body":"{\"a\":1}"}"#);
    // only the first packet went out: an ack of 2 would cover an unsent one
    assert!(x.acks_only_sent(1));
    assert!(!x.acks_only_sent(2));
    x.update_recv_ack(1);
    assert_eq!(x.next_unsent().unwrap(), r#"{"typ":3,"sn":2,"body":"{\"a\":1}"}"#);
    x.mark_sent();
    assert_eq!(x.next_unsent(), None);
    // after reconnecting, what is not acknowledged goes out again
    x.init_recv_ack(0);
    assert_eq!(x.next_unsent().unwrap(), r#"{"typ":3,"sn":2,"body":"{\"a\":1}"}"#);
    x.mark_sent();
    x.update_recv_ack(2);
    assert_eq!(x.next_unsent(), None);
    assert_eq!(x.add_push_json("{}").unwrap(), 3);
}

#[test]
fn xfer_carries_pending_ack() {
    let mut x = Xfer::new();
    assert!(x.pending_ack().is_none());
    x.update_recv_sn(5);
    x.update_recv_sn(4);
    assert_eq!(x.pending_ack().unwrap().unwrap(), r#"{"ack":5}"#);
    x.add_push_json("{}").unwrap();
    assert_eq!(x.next_unsent().unwrap(), r#"{"typ":6,"sn":1,"body":"{}","ack":5}"#);
    assert!(x.pending_ack().is_none());
    x.mark_sent();
    // an explicit request number is acknowledged even when older
    x.add_qos1_json(PacketType::Response, "{}", Some(3)).unwrap();
    assert_eq!(x.next_unsent().unwrap(), r#"{"typ":4,"sn":2,"body":"{}","ack":3}"#);
    x.clear_send_ack();
    assert_eq!(x.pending_ack().unwrap().unwrap(), r#"{"ack":5}"#);
    x.mark_ack_sent();
    assert!(x.pending_ack().is_none());
}

#[test]
fn xfer_full_at_limit() {
    let mut x = Xfer::new();
    for _ in 0..QUEUE_LIMIT - 1 {
        x.add_push_json("{}").unwrap();
    }
    assert!(!x.is_full());
    x.add_push_json("{}").unwrap();
    assert!(x.is_full());
}

#[test]
fn xfer_push0_numbered_not_queued() {
    let mut x = Xfer::new();
    let t = x.push0_packet(&JsonText("{\"id\":\"u\"}")).unwrap();
    assert_eq!(t, r#"{"typ":5,"sn":1,"body":"{\"id\":\"u\"}"}"#);
    assert_eq!(x.next_unsent(), None);
    assert_eq!(x.add_push_json("{}").unwrap(), 2);
}

#[test]
fn xfer_user_ready_and_failed_response() {
    let mut x = Xfer::new();
    x.add_user_ready("u1").unwrap();
    assert_eq!(
        x.next_unsent().unwrap(),
        r#"{"typ":6,"sn":1,"body":"{\"typ\":{\"UReady\":{\"id\":\"u1\"}}}"}"#
    );
    x.mark_sent();
    x.add_response_fail(Some(9), &st(7, "no")).unwrap();
    assert_eq!(
        x.next_unsent().unwrap(),
        r#"{"typ":4,"sn":2,"body":"{\"status\":{\"code\":7,\"reason\":\"no\"},\"typ\":null}","ack":9}"#
    );
}

#[test]
fn shutdown_modes() {
    assert_eq!(ShutdownMode::from_u8(0), ShutdownMode::Running);
    assert_eq!(ShutdownMode::from_u8(1), ShutdownMode::Graceful);
    assert_eq!(ShutdownMode::from_u8(2), ShutdownMode::Force);
    assert_eq!(ShutdownMode::from_u8(9), ShutdownMode::Running);
    assert_eq!(ShutdownMode::Force.as_u8(), 2);
    assert_eq!(ShutdownMode::from_u8(ShutdownMode::Graceful.as_u8()), ShutdownMode::Graceful);
    assert_eq!(ShutdownMode::for_stop(true), ShutdownMode::Force);
    assert_eq!(ShutdownMode::for_stop(false), ShutdownMode::Graceful);
    assert!(RecvCancelMode::Connect.should_break(ShutdownMode::Graceful));
    assert!(!RecvCancelMode::Work.should_break(ShutdownMode::Graceful));
    assert!(RecvCancelMode::Work.should_break(ShutdownMode::Force));
    assert!(!RecvCancelMode::Connect.should_break(ShutdownMode::Running));
}

#[test]
fn guards_and_statuses() {
    assert!(check_guard(Some(())).is_ok());
    assert!(matches!(check_guard(None), Err(WorkerError::GotClosed)));
    let mut f = Flag::default();
    assert!(f.check_guard(Some(())).is_ok());
    assert!(f.got_closed.is_none());
    assert!(f.check_guard(None).is_err());
    assert_eq!(f.got_closed, Some(st(0, "")));

    assert_eq!(
        status_from_error(&WorkerError::HeartbeatTimeout),
        st(Status::INTERNAL_ERROR_CODE, "internal error: [heartbeat timeout]")
    );
    assert_eq!(status_from_error(&WorkerError::OpenStatus(st(403, "denied"))), st(403, "denied"));
    assert_eq!(
        status_from_error(&WorkerError::Delegate(ClientError::Closed(st(0, "bye")))),
        st(0, "bye")
    );
    assert_eq!(
        status_from_error(&WorkerError::Io("reach max timeout".to_string())),
        st(Status::INTERNAL_ERROR_CODE, "internal error: [reach max timeout]")
    );
    assert!(matches!(
        after_work(false, false, Err(WorkerError::Io("gone".to_string()))),
        WorkStep::Reconnect
    ));
}

#[test]
fn after_work_decisions() {
    assert!(matches!(after_work(true, false, Err(WorkerError::HeartbeatTimeout)), WorkStep::Finish));
    assert!(matches!(after_work(false, false, Ok(())), WorkStep::Reconnect));
    assert!(matches!(after_work(false, false, Err(WorkerError::HeartbeatTimeout)), WorkStep::Reconnect));
    assert!(matches!(
        after_work(false, false, Err(WorkerError::OpenStatus(st(0, "")))),
        WorkStep::Finish
    ));
    assert!(matches!(
        after_work(false, true, Err(WorkerError::EmptyBody)),
        WorkStep::Fail(WorkerError::EmptyBody)
    ));
    assert_eq!(final_status(Ok(()), Some(st(5, "x"))), st(0, ""));
    assert_eq!(final_status(Err(WorkerError::GotClosed), Some(st(5, "x"))), st(5, "x"));
    assert_eq!(final_status(Err(WorkerError::OpenStatus(st(9, "y"))), None), st(9, "y"));
}

#[test]
fn open_response_checks() {
    let p = PacketRef { typ: Some(6), sn: None, body: Some("{}"), ack: None };
    assert!(matches!(open_packet_body(&p), Err(WorkerError::InvalidOpenPacket(Some(6)))));
    let p = PacketRef { typ: Some(4), sn: None, body: None, ack: None };
    assert!(matches!(open_packet_body(&p), Err(WorkerError::EmptyBody)));
    let p = PacketRef { typ: Some(4), sn: None, body: Some("b"), ack: None };
    assert_eq!(open_packet_body(&p).unwrap(), "b");

    let ok = OpenSessionResponse { session_id: "s1".to_string(), conn_id: "c1".to_string() };
    let r = open_response(Response { status: None, typ: Some(ResponseType::Open(ok.clone())) });
    assert_eq!(r.unwrap(), ok);
    let r = open_response(Response { status: Some(st(0, "")), typ: Some(ResponseType::Open(ok)) });
    assert!(matches!(r, Err(WorkerError::OpenStatus(s)) if s.code == 0));
    assert!(matches!(
        open_response(Response { status: None, typ: None }),
        Err(WorkerError::NoResponseType)
    ));
    assert!(matches!(
        open_response(Response { status: None, typ: Some(ResponseType::HB(HeartbeatResponse {})) }),
        Err(WorkerError::UnexpectedResponseType)
    ));
}

#[test]
fn closing_pushes() {
    let p = ServerPush { typ: ServerPushType::Closed(ClosedNotice { status: Some(st(3, "kick")) }) };
    assert_eq!(push_closes(p).unwrap_err(), st(3, "kick"));
    let p = ServerPush { typ: ServerPushType::Closed(ClosedNotice { status: None }) };
    assert_eq!(push_closes(p).unwrap_err(), st(0, ""));
    let p = ServerPush { typ: ServerPushType::UInit(Id { id: "u".to_string() }) };
    assert_eq!(push_closes(p.clone()).unwrap(), p);
}

fn session(now: u64) -> Session {
    let rsp = OpenSessionResponse { session_id: "s1".to_string(), conn_id: "c1".to_string() };
    Session::new(rsp, Xfer::new(), now)
}

#[test]
fn heartbeat_schedule() {
    let cfg = HeartbeatConfig { enable: true, interval_ms: 1000, timeout_ms: 3000 };
    let mut s = session(100);
    assert_eq!(s.session_id(), "s1");
    assert_eq!(s.conn_id(), "c1");
    assert_eq!(s.heartbeat_deadline(cfg), Some(1100));
    assert_eq!(s.heartbeat_tick(500, cfg).unwrap(), None);
    assert_eq!(s.heartbeat_tick(1100, cfg).unwrap(), Some(1));
    assert!(s.has_pending_heartbeat());
    assert_eq!(
        s.xfer().next_unsent().unwrap(),
        r#"{"typ":3,"sn":1,"body":"{\"typ\":{\"HB\":{}}}"}"#
    );
    assert_eq!(s.heartbeat_deadline(cfg), Some(2100));
    assert_eq!(s.last_heartbeat_at(), 1100);
    // a heartbeat is pending: no second one
    assert_eq!(s.heartbeat_tick(2200, cfg).unwrap(), None);
    let mut rsp = Response { status: None, typ: Some(ResponseType::HB(HeartbeatResponse {})) };
    assert!(s.try_handle_heartbeat_response(1, &mut rsp).unwrap());
    assert!(!s.has_pending_heartbeat());
    s.on_recv(2500);
    assert!(matches!(s.heartbeat_tick(5500, cfg), Err(WorkerError::HeartbeatTimeout)));
    let off = HeartbeatConfig { enable: false, interval_ms: 1000, timeout_ms: 3000 };
    assert_eq!(s.heartbeat_tick(99999, off).unwrap(), None);
    assert_eq!(s.heartbeat_deadline(off), None);
}

#[test]
fn heartbeat_responses() {
    let mut s = session(0);
    s.set_pending_heartbeat(4);
    let mut other = Response { status: Some(st(2, "x")), typ: None };
    assert!(!s.try_handle_heartbeat_response(4, &mut other).unwrap());
    assert_eq!(other.status, Some(st(2, "x")));
    let mut early = Response { status: None, typ: Some(ResponseType::HB(HeartbeatResponse {})) };
    assert!(s.try_handle_heartbeat_response(3, &mut early).unwrap());
    assert!(s.has_pending_heartbeat());
    let mut bad = Response { status: Some(st(8, "hb")), typ: Some(ResponseType::HB(HeartbeatResponse {})) };
    assert!(matches!(
        s.try_handle_heartbeat_response(4, &mut bad),
        Err(WorkerError::HeartbeatFailed(x)) if x == st(8, "hb")
    ));
    assert!(bad.status.is_none());
}

#[test]
fn packets_are_routed() {
    let mut s = session(0);
    let mut x = s.take_xfer();
    x.add_push_json("{}").unwrap();
    x.mark_sent();
    s.put_xfer(x);
    let meta = PacketMeta { typ: Some(4), sn: Some(7), ack: Some(1) };
    assert_eq!(s.route_packet(10, &meta).unwrap(), Route::Response(1));
    assert_eq!(s.xfer().next_unsent(), None);
    assert_eq!(s.xfer().tail_sn(), 1);
    assert_eq!(s.xfer().pending_ack().unwrap().unwrap(), r#"{"ack":7}"#);
    let meta = PacketMeta { typ: Some(6), sn: Some(0), ack: None };
    assert_eq!(s.route_packet(11, &meta).unwrap(), Route::Push);
    assert_eq!(s.xfer().pending_ack().unwrap().unwrap(), r#"{"ack":7}"#);
    let meta = PacketMeta { typ: None, sn: Some(9), ack: None };
    assert_eq!(s.route_packet(12, &meta).unwrap(), Route::Skip);
    assert_eq!(s.xfer().pending_ack().unwrap().unwrap(), r#"{"ack":9}"#);
    let meta = PacketMeta { typ: Some(4), sn: None, ack: None };
    assert!(matches!(s.route_packet(13, &meta), Err(WorkerError::NoAckInResponse)));
    let meta = PacketMeta { typ: Some(3), sn: None, ack: None };
    assert!(matches!(s.route_packet(14, &meta), Err(WorkerError::UnknownPacket(_))));
}

#[test]
fn open_packet_text() {
    let mut advance = JoinAdvanceArgs::default();
    advance.token = Some(AStr::from_str("tk"));
    advance.batch = Some(true);
    advance.user_tree = Some(vec![UpdateTreeRequest {
        path: Some(AStr::from_str("a")),
        value: None,
        prune: Some(true),
    }]);
    let mut ci = ClientInfo::default();
    ci.platform = Some(AStr::from_str("Linux"));
    ci.sdk_version = Some(AStr::from_str("1.0"));
    ci.device = Some(vec![(AStr::from_str("k"), AStr::from_str("v"))]);
    assert!(ci.is_wf());
    advance.client_info = Some(ci);
    let config = JoinConfig {
        user_id: AStr::from_str("u1"),
        room_id: AStr::from_str("r1"),
        advance,
    };
    assert_eq!(
        open_session_packet(&config).unwrap(),
        r#"{"typ":3,"body":"{\"typ\":{\"Open\":{\"user_id\":\"u1\",\"room_id\":\"r1\",\"client_info\":{\"platform\":\"Linux\",\"sdk\":{\"version\":\"1.0\"},\"device\":{\"k\":\"v\"}},\"token\":\"tk\",\"user_tree\":[{\"path\":\"a\",\"prune\":true}],\"batch\":true}}}"}"#
    );
    let plain = JoinConfig {
        user_id: AStr::from_str("u\"2"),
        room_id: AStr::from_str("r"),
        advance: JoinAdvanceArgs::default(),
    };
    assert_eq!(
        open_session_packet(&plain).unwrap(),
        r#"{"typ":3,"body":"{\"typ\":{\"Open\":{\"user_id\":\"u\\\"2\",\"room_id\":\"r\"}}}"}"#
    );
}

#[test]
fn connection_defaults() {
    let c = ConnectionConfig::default();
    assert_eq!(c.connect_timeout(), Duration::from_secs(5));
    assert_eq!(c.max_timeout(), Duration::from_secs(10));
    assert_eq!(c.retry_interval(), Duration::from_secs(1));
    assert!(c.heartbeat_enable());
    assert_eq!(c.heartbeat_interval(), Duration::from_secs(10));
    assert_eq!(c.heartbeat_timeout(), Duration::from_secs(30));
    let mut c2 = ConnectionConfig::default();
    c2.heartbeat_enable = Some(false);
    c2.connect_timeout = Some(Duration::from_millis(250));
    assert!(!c2.heartbeat_enable());
    assert_eq!(c2.connect_timeout(), Duration::from_millis(250));
}

#[test]
fn frames_end_waits() {
    let cfg = TungConfig::default();
    assert!(!cfg.ignore_tls_cert && !cfg.disable_nagle);
    let mut st = RecvState::new();
    assert!(!st.has_packet());
    assert!(!st.on_frame(Frame::Binary));
    assert!(!st.on_frame(Frame::Ping(vec![1, 2])));
    assert!(!st.on_frame(Frame::Pong));
    assert!(st.on_frame(Frame::Text("hello".to_string())));
    assert!(st.has_packet());
    assert_eq!(st.take_ping(), Some(vec![1, 2]));
    assert_eq!(st.take_ping(), None);
    assert_eq!(st.take_packet(), Some("hello".to_string()));
    assert_eq!(st.take_packet(), None);
    assert!(!st.closed);
    assert!(st.on_frame(Frame::Close));
    assert!(st.closed);
    let mut st2 = RecvState::new();
    assert!(st2.on_frame(Frame::End));
    assert!(st2.closed && !st2.has_packet());
}

#[test]
fn server_address_schemes() {
    assert_eq!(check_url("wss://127.0.0.1:11443/ws"), Ok(()));
    assert_eq!(check_url("WS://example.com/ws"), Ok(()));
    assert_eq!(check_url("http://example.com/ws"), Err(UrlError::Unsupported("http".to_string())));
    assert_eq!(check_url("/ws"), Err(UrlError::NoScheme));
    assert_eq!(check_url("not a uri"), Err(UrlError::Invalid));
    assert!(ws_scheme("wS"));
    assert!(ws_scheme("WsS"));
    assert!(!ws_scheme("wsss"));
    assert!(!ws_scheme("w"));
}

#[test]
fn device_keys_form_a_map() {
    let mut ci = ClientInfo::default();
    assert!(ci.is_wf());
    ci.device = Some(vec![
        (AStr::from_str("os"), AStr::from_str("a")),
        (AStr::from_str("model"), AStr::from_str("b")),
        (AStr::from_str("os"), AStr::from_str("c")),
    ]);
    assert!(!ci.is_wf());
    let mut advance = JoinAdvanceArgs::default();
    advance.client_info = Some(ci);
    let config = JoinConfig { user_id: AStr::from_str("u"), room_id: AStr::from_str("r"), advance };
    assert!(!config.is_wf());
}

#[test]
fn describe_names_each_error() {
    assert_eq!(describe(&WorkerError::GotClosed), "got closed");
    assert_eq!(describe(&WorkerError::NoAckInResponse), "no ack field in response");
    assert_eq!(describe(&WorkerError::EmptyBody), "empty body");
    assert_eq!(describe(&WorkerError::Io("x".to_string())), "connection failed");
}

#[test]
fn worker_error_texts() {
    let failed = WorkerError::HeartbeatFailed(st(5, "slow"));
    assert_eq!(failed.message(), "heartbeat failed: code 5, reason slow");
    assert_eq!(status_from_error(&failed), st(1001, "internal error: [heartbeat failed: code 5, reason slow]"));
    assert_eq!(WorkerError::HeartbeatTimeout.message(), "heartbeat timeout");
    assert_eq!(WorkerError::Io("reset".to_string()).message(), "reset");
}

#[test]
fn url_error_texts() {
    let url = "http://example.com/ws";
    assert_eq!(check_url(url).unwrap_err().message(url), "unsupported scheme [http]");
    assert_eq!(check_url("/ws").unwrap_err().message("/ws"), "url has no scheme");
    assert_eq!(check_url("not a uri").unwrap_err().message("not a uri"), "invalid url [not a uri]");
    assert!(check_url("WSS://h/x").is_ok());
}
