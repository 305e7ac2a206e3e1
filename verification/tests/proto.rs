use vvclient::kit::astr::AStr;
use vvclient::proto::json::{str_member, JsonBody};
use vvclient::proto::v1::{PacketRef, PacketType, UpdateTreeRequest};
use vvclient::proto::v1_ser::{
    ClientInfoSer, IterSer, OpenSessionRequestSer, PacketSer, StrMapSer, SubscribeRequestSer,
    UpdateTreeRequestSer,
};
use vvclient::proto::v1::{stream_type_from, IdRef, InvalidStreamType, ServerPushRef, StreamType};

#[test]
fn v1_ser_test() {
    let user_tree = Some(vec![
        UpdateTreeRequest {
            path: Some(AStr::from_str("foo/bar")),
            value: Some(AStr::from_str("value-123")),
            prune: None,
        },
        UpdateTreeRequest {
            path: Some(AStr::from_str("root/child")),
            value: Some(AStr::from_str("child-xyz")),
            prune: Some(true),
        },
    ]);

    let req = OpenSessionRequestSer {
        user_id: "John",
        room_id: "Room1",
        user_ext: Some("ext-abc"),
        user_tree: user_tree
            .as_ref()
            .map(|x| IterSer(x.iter().map(|y| UpdateTreeRequestSer::from_request(y)).collect())),
        batch: None,
        client_info: Option::<ClientInfoSer<'static>>::None,
        token: None,
    };

    let packet = PacketSer {
        typ: Some(PacketType::Request.as_num()),
        sn: Some(1),
        body: Some(req.into_body()),
        ack: None,
    };

    let json = packet.to_json().unwrap();
    assert_eq!(
        json,
        r#"{"typ":3,"sn":1,"body":"{\"typ\":{\"Open\":{\"user_id\":\"John\",\"room_id\":\"Room1\",\"user_ext\":\"ext-abc\",\"user_tree\":[{\"path\":\"foo/bar\",\"value\":\"value-123\"},{\"path\":\"root/child\",\"value\":\"child-xyz\",\"prune\":true}]}}}"}"#,
    );
}

#[test]
fn quote_escapes_like_serde_json() {
    assert_eq!(str_member("\"k\"", "a\"b\\c\n").unwrap(), "\"k\":\"a\\\"b\\\\c\\n\"");
    assert_eq!(str_member("\"k\"", "plain").unwrap(), "\"k\":\"plain\"");
}

#[test]
fn envelope_skips_absent_fields() {
    let p = PacketRef::qos1(7, PacketType::Push1, "{\"x\":1}");
    assert_eq!(p.to_json().unwrap(), r#"{"typ":6,"sn":7,"body":"{\"x\":1}"}"#);
    assert_eq!(PacketRef::ack_json(42).unwrap(), r#"{"ack":42}"#);
    assert_eq!(
        PacketRef::qos0_json(PacketType::Push0, "{}").unwrap(),
        r#"{"typ":5,"body":"{}"}"#
    );
}

#[test]
fn negative_numbers_render() {
    let p = PacketRef { typ: Some(-3), sn: Some(-9000000000), body: None, ack: Some(0) };
    assert_eq!(p.to_json().unwrap(), r#"{"typ":-3,"sn":-9000000000,"ack":0}"#);
}

#[test]
fn client_info_with_device_pairs() {
    let ci = ClientInfoSer {
        platform: Some("Android"),
        sdk: None,
        device: Some(StrMapSer(vec![("model", "x1"), ("os", "14")])),
    };
    assert_eq!(
        ci.to_json().unwrap(),
        r#"{"platform":"Android","device":{"model":"x1","os":"14"}}"#
    );
}

#[test]
fn v1_test() {
    let msg = PacketRef::qos1(1, PacketType::Request, "foo");
    let json = msg.to_json().unwrap();
    println!("{json}");
    assert_eq!(json, r#"{"typ":3,"sn":1,"body":"foo"}"#);
    let obj: serde_json::Value = serde_json::from_str(&json).unwrap();
    println!("{obj:?}");
    assert_eq!(obj["typ"], 3);
    assert_eq!(obj["sn"], 1);
    assert_eq!(obj["body"], "foo");
    assert!(obj.get("ack").is_none());
}

#[test]
fn status_text_quotes_the_reason() {
    let s = vvclient::proto::v1::Status { code: -7, reason: "bad \"id\"\n".to_string() };
    assert_eq!(s.to_text(), r#"Status { code: -7, reason: "bad \"id\"\n" }"#);
    let ok = vvclient::proto::v1::Status::ok();
    assert_eq!(ok.to_text(), r#"Status { code: 0, reason: "" }"#);
}

#[test]
fn subscribe_body_displays_the_message_json() {
    let x = SubscribeRequestSer { room_id: "", stream_id: "camera", producer_id: "p1", xid: "x1", preferred_layers: None };
    let shown = x.clone().into_body().display_text().unwrap();
    let msg = x.into_msg().to_json().unwrap();
    assert_eq!(shown, msg);
    assert_eq!(msg, r#"{"typ":{"Sub":{"roomId":"","streamId":"camera","producerId":"p1","xid":"x1"}}}"#);
}

#[test]
fn strings_are_escaped_as_serde_json_does() {
    assert_eq!(str_member("\"k\"", "a\"b\\c\u{1}\n\u{8}\u{1f}é").unwrap(), r#""k":"a\"b\\c\u0001\n\b\u001fé""#);
}

#[test]
fn stream_type_error_texts() {
    assert_eq!(StreamType::from_value(2).unwrap(), StreamType::Mic);
    assert_eq!(StreamType::from_value(7).unwrap_err().message(), "invalid StreamType [7]");
    assert_eq!(InvalidStreamType { value: -1 }.message(), "invalid StreamType [-1]");
    assert_eq!(stream_type_from(0).unwrap_err().message(), "unknown stream type [0]");
}

#[test]
fn server_push_user_ready_json() {
    let p = ServerPushRef::user_ready(IdRef { id: "u1" });
    assert_eq!(p.to_json().unwrap(), r#"{"typ":{"UReady":{"id":"u1"}}}"#);
}
