//! What the requests sent for the host's calls say, on the wire.
use vstd::prelude::*;

use super::client::{op_body, push_calls, user_index, Call, NodeView, Op, UserCell, UserStage};
use crate::proto::v1::ServerPushType;
use crate::client::laws::{lemma_obj_member, occurs_in};
use super::defines::PubCall;
use super::client::{leave_body, unsub_body, sub_body, create_x_body, chat_calls, op_resolver, resolution, sub_target, Resolver};
use crate::proto::response::ResponseType;
use crate::proto::v1::{CreateWebrtcTransportResponse, PublishResponse, SubscribeResponse};
use crate::proto::v1::ChatNotice;
use super::defines::{request_frame, to_proto_stream_type, ConnXCall, MuteCall, StreamType, UPubCall, ToBody};
use crate::kit::astr::AStr;
use crate::proto::json::{json_obj, json_str, join_commas};
use crate::proto::render::tagged;

verus! {

/// The name the server knows a host stream type by.
pub open spec fn wire_stream_name(t: StreamType) -> Seq<char> {
    match t {
        StreamType::Camera => "camera"@,
        StreamType::Mic => "mic"@,
        StreamType::Screen => "screen"@,
    }
}

proof fn lemma_wire_stream_name(t: StreamType)
    ensures
        crate::proto::v1::stream_type_name(to_proto_stream_type(t)) == wire_stream_name(t),
{
    reveal_strlit("camera");
    reveal_strlit("mic");
    reveal_strlit("screen");
    assert(crate::proto::v1::stream_type_name(to_proto_stream_type(t)) =~= wire_stream_name(t));
}

proof fn lemma_obj1(a: Seq<char>)
    ensures
        json_obj(seq![a]) == seq!['{'] + a + seq!['}'],
{
}

proof fn lemma_obj2(a: Seq<char>, b: Seq<char>)
    ensures
        json_obj(seq![a, b]) == seq!['{'] + a + seq![','] + b + seq!['}'],
{
    reveal_with_fuel(join_commas, 2);
    assert(seq![a, b].drop_last() =~= seq![a]);
}

proof fn lemma_obj3(a: Seq<char>, b: Seq<char>, c: Seq<char>)
    ensures
        json_obj(seq![a, b, c]) == seq!['{'] + a + seq![','] + b + seq![','] + c + seq!['}'],
{
    reveal_with_fuel(join_commas, 3);
    assert(seq![a, b, c].drop_last() =~= seq![a, b]);
    assert(seq![a, b].drop_last() =~= seq![a]);
    assert(join_commas(seq![a, b, c]) =~= a + seq![','] + b + seq![','] + c);
}

/// A request framed as `{"typ":{<kind>:<request>}}`.
proof fn lemma_frame(kind: Seq<char>, r: Seq<char>)
    ensures
        request_frame(kind, r) == "{\"typ\":{"@ + kind + seq![':'] + r + "}}"@,
{
    reveal_strlit("{\"typ\":{");
    reveal_strlit("}}");
    reveal_strlit("\"typ\"");
    let inner = crate::proto::json::member(kind, r);
    lemma_obj1(inner);
    lemma_obj1(crate::proto::json::member("\"typ\""@, tagged(kind, r)));
    assert(request_frame(kind, r) =~= "{\"typ\":{"@ + kind + seq![':'] + r + "}}"@);
}

/// The empty string as a JSON literal.
proof fn lemma_empty_json_str()
    ensures
        json_str(""@) == "\"\""@,
{
    reveal_strlit("");
    reveal_strlit("\"\"");
    assert(json_str(""@) =~= "\"\""@);
}

/// The text of a boolean.
pub open spec fn wire_bool(b: bool) -> Seq<char> {
    if b {
        "true"@
    } else {
        "false"@
    }
}

proof fn lemma_wire_bool(b: bool)
    ensures
        crate::proto::json::json_bool(b) == wire_bool(b),
{
    reveal_strlit("true");
    reveal_strlit("false");
    assert(crate::proto::json::json_bool(b) =~= wire_bool(b));
}

proof fn lemma_mute_pieces()
    ensures
        "{\"typ\":{\"Mute\":{\"roomId\":\"\",\"streamId\":"@ == "{\"typ\":{"@ + "\"Mute\""@ + seq![':'] + seq!['{']
            + "\"roomId\""@ + seq![':'] + "\"\""@ + seq![','] + "\"streamId\""@ + seq![':'],
        ",\"muted\":"@ == seq![','] + "\"muted\""@ + seq![':'],
        "}}}"@ == seq!['}'] + "}}"@,
{
    reveal_strlit("{\"typ\":{\"Mute\":{\"roomId\":\"\",\"streamId\":");
    reveal_strlit(",\"muted\":");
    reveal_strlit("}}}");
    reveal_strlit("{\"typ\":{");
    reveal_strlit("}}");
    reveal_strlit("\"Mute\"");
    reveal_strlit("\"roomId\"");
    reveal_strlit("\"streamId\"");
    reveal_strlit("\"muted\"");
    reveal_strlit("\"\"");
    assert("{\"typ\":{\"Mute\":{\"roomId\":\"\",\"streamId\":"@ =~= "{\"typ\":{"@ + "\"Mute\""@ + seq![':'] + seq![
        '{',
    ] + "\"roomId\""@ + seq![':'] + "\"\""@ + seq![','] + "\"streamId\""@ + seq![':']);
    assert(",\"muted\":"@ =~= seq![','] + "\"muted\""@ + seq![':']);
    assert("}}}"@ =~= seq!['}'] + "}}"@);
}

/// A request of three members, framed, as text.
proof fn lemma_frame3(kind: Seq<char>, ka: Seq<char>, va: Seq<char>, kb: Seq<char>, vb: Seq<char>, km: Seq<char>, vm: Seq<char>)
    ensures
        request_frame(
            kind,
            json_obj(
                seq![
                    crate::proto::json::member(ka, va),
                    crate::proto::json::member(kb, vb),
                    crate::proto::json::member(km, vm),
                ],
            ),
        ) == "{\"typ\":{"@ + kind + seq![':'] + seq!['{'] + ka + seq![':'] + va + seq![','] + kb + seq![':'] + vb
            + seq![','] + km + seq![':'] + vm + seq!['}'] + "}}"@,
{
    let a = crate::proto::json::member(ka, va);
    let b = crate::proto::json::member(kb, vb);
    let m = crate::proto::json::member(km, vm);
    lemma_obj3(a, b, m);
    lemma_frame(kind, json_obj(seq![a, b, m]));
    assert(request_frame(kind, json_obj(seq![a, b, m])) =~= "{\"typ\":{"@ + kind + seq![':'] + seq!['{'] + ka
        + seq![':'] + va + seq![','] + kb + seq![':'] + vb + seq![','] + km + seq![':'] + vm + seq!['}'] + "}}"@);
}

/// The body of a mute request, on the wire.
proof fn lemma_mute_text(c: MuteCall)
    ensures
        c.body_json() == "{\"typ\":{\"Mute\":{\"roomId\":\"\",\"streamId\":"@ + json_str(wire_stream_name(c.stype))
            + ",\"muted\":"@ + wire_bool(c.muted) + "}}}"@,
{
    let name = crate::proto::v1::stream_type_name(to_proto_stream_type(c.stype));
    lemma_wire_stream_name(c.stype);
    lemma_wire_bool(c.muted);
    lemma_empty_json_str();
    let a = crate::proto::json::str_m("\"roomId\""@, ""@);
    let b = crate::proto::json::str_m("\"streamId\""@, name);
    let m = crate::proto::json::bool_m("\"muted\""@, c.muted);
    assert(c.request_json() == json_obj(seq![a, b, m])) by {
        assert(seq![a] + crate::proto::json::opt_str_m("\"producerId\""@, None) + crate::proto::json::opt_str_m(
            "\"streamId\""@,
            Some(name),
        ) + seq![m] =~= seq![a, b, m]);
    }
    let w = wire_bool(c.muted);
    let j = json_str(name);
    lemma_frame3("\"Mute\""@, "\"roomId\""@, "\"\""@, "\"streamId\""@, j, "\"muted\""@, w);
    lemma_mute_pieces();
    let head = "{\"typ\":{"@ + "\"Mute\""@ + seq![':'] + seq!['{'] + "\"roomId\""@ + seq![':'] + "\"\""@ + seq![','] + "\"streamId\""@ + seq![':'];
    assert(c.body_json() == head + j + seq![','] + "\"muted\""@ + seq![':'] + w + seq!['}'] + "}}"@);
    assert(head + j + seq![','] + "\"muted\""@ + seq![':'] + w + seq!['}'] + "}}"@ =~= head + j + (seq![','] + "\"muted\""@ + seq![':']) + w + (seq!['}'] + "}}"@));
}


/// Muting: the request sent for `Mute(c, ..)` names the stream by the
/// name of its type and carries the host's flag as its `muted` member, so
/// it asks to mute exactly when the host asked to mute.
pub proof fn lemma_mute_request_carries_flag(op: Op, users: Seq<(AStr, UserCell)>, dlink: Option<String>)
    ensures
        op matches Op::Mute(c, _) ==> op_body(op, users, dlink) == "{\"typ\":{\"Mute\":{\"roomId\":\"\",\"streamId\":"@
            + json_str(wire_stream_name(c.stype)) + ",\"muted\":"@ + wire_bool(c.muted) + "}}}"@,
{
    if let Op::Mute(c, _) = op {
        lemma_mute_text(c);
    }
}


/// A request of one member, framed, as text.
proof fn lemma_frame1(kind: Seq<char>, ka: Seq<char>, va: Seq<char>)
    ensures
        request_frame(kind, json_obj(seq![crate::proto::json::member(ka, va)])) == "{\"typ\":{"@ + kind + seq![':']
            + seq!['{'] + ka + seq![':'] + va + seq!['}'] + "}}"@,
{
    let a = crate::proto::json::member(ka, va);
    lemma_obj1(a);
    lemma_frame(kind, json_obj(seq![a]));
    assert(request_frame(kind, json_obj(seq![a])) =~= "{\"typ\":{"@ + kind + seq![':'] + seq!['{'] + ka + seq![':']
        + va + seq!['}'] + "}}"@);
}

/// A request of two members, framed, as text.
proof fn lemma_frame2(kind: Seq<char>, ka: Seq<char>, va: Seq<char>, kb: Seq<char>, vb: Seq<char>)
    ensures
        request_frame(
            kind,
            json_obj(seq![crate::proto::json::member(ka, va), crate::proto::json::member(kb, vb)]),
        ) == "{\"typ\":{"@ + kind + seq![':'] + seq!['{'] + ka + seq![':'] + va + seq![','] + kb + seq![':'] + vb
            + seq!['}'] + "}}"@,
{
    let a = crate::proto::json::member(ka, va);
    let b = crate::proto::json::member(kb, vb);
    lemma_obj2(a, b);
    lemma_frame(kind, json_obj(seq![a, b]));
    assert(request_frame(kind, json_obj(seq![a, b])) =~= "{\"typ\":{"@ + kind + seq![':'] + seq!['{'] + ka
        + seq![':'] + va + seq![','] + kb + seq![':'] + vb + seq!['}'] + "}}"@);
}

proof fn lemma_upub_pieces()
    ensures
        "{\"typ\":{\"UPub\":{\"roomId\":\"\",\"streamId\":"@ == "{\"typ\":{"@ + "\"UPub\""@ + seq![':'] + seq!['{']
            + "\"roomId\""@ + seq![':'] + "\"\""@ + seq![','] + "\"streamId\""@ + seq![':'],
        "}}}"@ == seq!['}'] + "}}"@,
{
    reveal_strlit("{\"typ\":{\"UPub\":{\"roomId\":\"\",\"streamId\":");
    reveal_strlit("}}}");
    reveal_strlit("{\"typ\":{");
    reveal_strlit("}}");
    reveal_strlit("\"UPub\"");
    reveal_strlit("\"roomId\"");
    reveal_strlit("\"streamId\"");
    reveal_strlit("\"\"");
    assert("{\"typ\":{\"UPub\":{\"roomId\":\"\",\"streamId\":"@ =~= "{\"typ\":{"@ + "\"UPub\""@ + seq![':'] + seq![
        '{',
    ] + "\"roomId\""@ + seq![':'] + "\"\""@ + seq![','] + "\"streamId\""@ + seq![':']);
    assert("}}}"@ =~= seq!['}'] + "}}"@);
}

/// The body of an unpublish request, on the wire.
proof fn lemma_upub_text(c: UPubCall)
    ensures
        c.body_json() == "{\"typ\":{\"UPub\":{\"roomId\":\"\",\"streamId\":"@ + json_str(wire_stream_name(c.stype))
            + "}}}"@,
{
    let name = crate::proto::v1::stream_type_name(to_proto_stream_type(c.stype));
    lemma_wire_stream_name(c.stype);
    lemma_empty_json_str();
    let a = crate::proto::json::str_m("\"roomId\""@, ""@);
    let b = crate::proto::json::str_m("\"streamId\""@, name);
    assert(c.request_json() == json_obj(seq![a, b])) by {
        assert(seq![a] + crate::proto::json::opt_str_m("\"producerId\""@, None) + crate::proto::json::opt_str_m(
            "\"streamId\""@,
            Some(name),
        ) =~= seq![a, b]);
    }
    let j = json_str(name);
    lemma_frame2("\"UPub\""@, "\"roomId\""@, "\"\""@, "\"streamId\""@, j);
    lemma_upub_pieces();
    let head = "{\"typ\":{"@ + "\"UPub\""@ + seq![':'] + seq!['{'] + "\"roomId\""@ + seq![':'] + "\"\""@ + seq![','] + "\"streamId\""@ + seq![':'];
    assert(c.body_json() == head + j + seq!['}'] + "}}"@);
    assert(head + j + seq!['}'] + "}}"@ =~= head + j + (seq!['}'] + "}}"@));
}

/// Unpublishing: the request sent for `UPub(c, ..)` names the stream by the
/// name of its type as its `streamId`, and names no producer.
pub proof fn lemma_unpublish_names_the_stream(op: Op, users: Seq<(AStr, UserCell)>, dlink: Option<String>)
    ensures
        op matches Op::UPub(c, _) ==> op_body(op, users, dlink) == "{\"typ\":{\"UPub\":{\"roomId\":\"\",\"streamId\":"@
            + json_str(wire_stream_name(c.stype)) + "}}}"@,
{
    if let Op::UPub(c, _) = op {
        lemma_upub_text(c);
    }
}

proof fn lemma_connx_pieces()
    ensures
        "{\"typ\":{\"ConnX\":{\"xid\":"@ == "{\"typ\":{"@ + "\"ConnX\""@ + seq![':'] + seq!['{'] + "\"xid\""@ + seq![':'],
        ",\"dtls\":"@ == seq![','] + "\"dtls\""@ + seq![':'],
        "}}}"@ == seq!['}'] + "}}"@,
{
    reveal_strlit("{\"typ\":{\"ConnX\":{\"xid\":");
    reveal_strlit(",\"dtls\":");
    reveal_strlit("}}}");
    reveal_strlit("{\"typ\":{");
    reveal_strlit("}}");
    reveal_strlit("\"ConnX\"");
    reveal_strlit("\"xid\"");
    reveal_strlit("\"dtls\"");
    assert("{\"typ\":{\"ConnX\":{\"xid\":"@ =~= "{\"typ\":{"@ + "\"ConnX\""@ + seq![':'] + seq!['{'] + "\"xid\""@ + seq![':']);
    assert(",\"dtls\":"@ =~= seq![','] + "\"dtls\""@ + seq![':']);
    assert("}}}"@ =~= seq!['}'] + "}}"@);
}

/// The body of a transport connection request, on the wire.
proof fn lemma_connx_text(c: ConnXCall)
    ensures
        c.body_json() == match c.dtls {
            Some(d) => "{\"typ\":{\"ConnX\":{\"xid\":"@ + json_str(c.xid@) + ",\"dtls\":"@ + d@ + "}}}"@,
            None => "{\"typ\":{\"ConnX\":{\"xid\":"@ + json_str(c.xid@) + "}}}"@,
        },
{
    let j = json_str(c.xid@);
    let a = crate::proto::json::str_m("\"xid\""@, c.xid@);
    lemma_connx_pieces();
    let head = "{\"typ\":{"@ + "\"ConnX\""@ + seq![':'] + seq!['{'] + "\"xid\""@ + seq![':'];
    match c.dtls {
        Some(d) => {
            let b = crate::proto::json::member("\"dtls\""@, d@);
            assert(c.request_json() == json_obj(seq![a, b])) by {
                assert(seq![a] + crate::proto::json::opt_raw_m("\"dtls\""@, Some(d@)) =~= seq![a, b]);
            }
            lemma_frame2("\"ConnX\""@, "\"xid\""@, j, "\"dtls\""@, d@);
            assert(c.body_json() == head + j + seq![','] + "\"dtls\""@ + seq![':'] + d@ + seq!['}'] + "}}"@);
            assert(head + j + seq![','] + "\"dtls\""@ + seq![':'] + d@ + seq!['}'] + "}}"@ =~= head + j + (seq![',']
                + "\"dtls\""@ + seq![':']) + d@ + (seq!['}'] + "}}"@));
        },
        None => {
            assert(c.request_json() == json_obj(seq![a])) by {
                assert(seq![a] + crate::proto::json::opt_raw_m("\"dtls\""@, None) =~= seq![a]);
            }
            lemma_frame1("\"ConnX\""@, "\"xid\""@, j);
            assert(c.body_json() == head + j + seq!['}'] + "}}"@);
            assert(head + j + seq!['}'] + "}}"@ =~= head + j + (seq!['}'] + "}}"@));
        },
    }
}

/// Connecting a transport: the request sent for `ConnX(c, ..)` carries the
/// transport id, and the host's DTLS parameters as its `dtls` member,
/// exactly when the host gave them.
pub proof fn lemma_connect_carries_dtls(op: Op, users: Seq<(AStr, UserCell)>, dlink: Option<String>)
    ensures
        op matches Op::ConnX(c, _) ==> op_body(op, users, dlink) == match c.dtls {
            Some(d) => "{\"typ\":{\"ConnX\":{\"xid\":"@ + json_str(c.xid@) + ",\"dtls\":"@ + d@ + "}}}"@,
            None => "{\"typ\":{\"ConnX\":{\"xid\":"@ + json_str(c.xid@) + "}}}"@,
        },
{
    if let Op::ConnX(c, _) = op {
        lemma_connx_text(c);
    }
}


/// The characters of an optional text.
pub open spec fn chars_of(v: Option<String>) -> Option<Seq<char>> {
    match v {
        Some(s) => Some(s@),
        None => None,
    }
}

/// Tree updates: the host is handed the tree operation of the push as it
/// came, its path, its value (present or absent) and its prune flag: for
/// the room's tree always, for a user's tree when the user is known and
/// announced.
pub proof fn lemma_tree_push_hands_node_unchanged(users: Seq<(AStr, UserCell)>, ready: bool, push: ServerPushType)
    ensures
        push matches ServerPushType::RTree(t) ==> push_calls(users, ready, push) == seq![
            Call::UpdateRoomTree(NodeView { path: t.path@, value: chars_of(t.value), prune: t.prune }),
        ],
        push matches ServerPushType::UTree(t) ==> (t.id matches Some(u) ==> (user_index(users, u@) >= 0
            && users[user_index(users, u@)].1.stage == UserStage::Ready ==> push_calls(users, ready, push) == seq![
            Call::UpdateUserTree(u@, NodeView { path: t.path@, value: chars_of(t.value), prune: t.prune }),
        ])),
{
}


/// The digit the server knows a host stream type by.
pub open spec fn wire_stream_number(t: StreamType) -> Seq<char> {
    match t {
        StreamType::Camera => "1"@,
        StreamType::Mic => "2"@,
        StreamType::Screen => "3"@,
    }
}

proof fn lemma_wire_stream_number(t: StreamType)
    ensures
        crate::proto::json::dec_int(crate::proto::v1::stream_type_value(to_proto_stream_type(t)) as int)
            == wire_stream_number(t),
{
    reveal_strlit("1");
    reveal_strlit("2");
    reveal_strlit("3");
    let v = crate::proto::v1::stream_type_value(to_proto_stream_type(t)) as int;
    assert(crate::proto::json::dec_nat(v as nat) =~= wire_stream_number(t));
}

/// The members of a publish request, in order.
spec fn pub_members(c: PubCall) -> Seq<Seq<char>> {
    seq![crate::proto::json::str_m("\"roomId\""@, ""@)] + seq![crate::proto::json::str_m("\"xid\""@, c.x_id@)]
        + seq![
        crate::proto::json::str_m(
            "\"streamId\""@,
            crate::proto::v1::stream_type_name(to_proto_stream_type(c.stype)),
        ),
    ] + seq![
        crate::proto::json::int_m(
            "\"stype\""@,
            crate::proto::v1::stream_type_value(to_proto_stream_type(c.stype)) as int,
        ),
    ] + crate::proto::json::opt_raw_m("\"rtp\""@, super::defines::opt_string(c.rtp)) + seq![
        crate::proto::json::int_m("\"audioType\""@, 0),
    ] + crate::proto::json::opt_bool_m("\"muted\""@, c.muted)
}

/// Publishing: the publish request carries, each as its own member, the
/// transport, the stream named after its type, the type's number, the
/// host's RTP parameters when given, and the host's muted flag when given.
pub proof fn lemma_publish_request_carries_call(op: Op, users: Seq<(AStr, UserCell)>, dlink: Option<String>)
    ensures
        op matches Op::Pub(c, _) ==> {
            let r = op_body(op, users, dlink);
            &&& occurs_in(",\"xid\":"@ + json_str(c.x_id@), r)
            &&& occurs_in(",\"streamId\":"@ + json_str(wire_stream_name(c.stype)), r)
            &&& occurs_in(",\"stype\":"@ + wire_stream_number(c.stype), r)
            &&& (c.rtp matches Some(p) ==> occurs_in(",\"rtp\":"@ + p@, r))
            &&& (c.muted matches Some(m) ==> occurs_in(",\"muted\":"@ + wire_bool(m), r))
        },
{
    if let Op::Pub(c, _) = op {
        assert(c.request_json() == json_obj(pub_members(c)));
        let req = c.request_json();
        lemma_frame(request_kind_pub(), req);
        lemma_pub_members(c);
        lemma_in_frame(request_kind_pub(), req, ",\"xid\":"@ + json_str(c.x_id@));
        lemma_in_frame(request_kind_pub(), req, ",\"streamId\":"@ + json_str(wire_stream_name(c.stype)));
        lemma_in_frame(request_kind_pub(), req, ",\"stype\":"@ + wire_stream_number(c.stype));
        if let Some(p) = c.rtp {
            lemma_in_frame(request_kind_pub(), req, ",\"rtp\":"@ + p@);
        }
        if let Some(m) = c.muted {
            lemma_in_frame(request_kind_pub(), req, ",\"muted\":"@ + wire_bool(m));
        }
    }
}

spec fn request_kind_pub() -> Seq<char> {
    "\"Pub\""@
}

/// What occurs in a request occurs in its frame.
proof fn lemma_in_frame(kind: Seq<char>, r: Seq<char>, m: Seq<char>)
    requires
        occurs_in(m, r),
    ensures
        occurs_in(m, request_frame(kind, r)),
{
    lemma_frame(kind, r);
    crate::client::laws::lemma_occurs_in_suffix(m, "{\"typ\":{"@ + kind + seq![':'], r);
    crate::client::laws::lemma_occurs_in_prefix(m, "{\"typ\":{"@ + kind + seq![':'] + r, "}}"@);
}

proof fn lemma_pub_members(c: PubCall)
    ensures
        occurs_in(",\"xid\":"@ + json_str(c.x_id@), c.request_json()),
        occurs_in(",\"streamId\":"@ + json_str(wire_stream_name(c.stype)), c.request_json()),
        occurs_in(",\"stype\":"@ + wire_stream_number(c.stype), c.request_json()),
        c.rtp matches Some(p) ==> occurs_in(",\"rtp\":"@ + p@, c.request_json()),
        c.muted matches Some(m) ==> occurs_in(",\"muted\":"@ + wire_bool(m), c.request_json()),
{
    let ms = pub_members(c);
    assert(c.request_json() == json_obj(ms));
    let room = crate::proto::json::str_m("\"roomId\""@, ""@);
    let xid = crate::proto::json::str_m("\"xid\""@, c.x_id@);
    let name = crate::proto::v1::stream_type_name(to_proto_stream_type(c.stype));
    let sid = crate::proto::json::str_m("\"streamId\""@, name);
    let num = crate::proto::json::int_m(
        "\"stype\""@,
        crate::proto::v1::stream_type_value(to_proto_stream_type(c.stype)) as int,
    );
    let rtp = crate::proto::json::opt_raw_m("\"rtp\""@, super::defines::opt_string(c.rtp));
    let aud = seq![crate::proto::json::int_m("\"audioType\""@, 0)];
    let mu = crate::proto::json::opt_bool_m("\"muted\""@, c.muted);
    lemma_wire_stream_name(c.stype);
    lemma_wire_stream_number(c.stype);
    reveal_strlit(",\"xid\":");
    reveal_strlit("\"xid\"");
    reveal_strlit(",\"streamId\":");
    reveal_strlit("\"streamId\"");
    reveal_strlit(",\"stype\":");
    reveal_strlit("\"stype\"");
    assert(ms =~= seq![room] + seq![xid] + (seq![sid] + seq![num] + rtp + aud + mu));
    lemma_obj_member(seq![room], xid, seq![sid] + seq![num] + rtp + aud + mu);
    assert(",\"xid\":"@ + json_str(c.x_id@) =~= seq![','] + xid);
    assert(ms =~= (seq![room] + seq![xid]) + seq![sid] + (seq![num] + rtp + aud + mu));
    lemma_obj_member(seq![room] + seq![xid], sid, seq![num] + rtp + aud + mu);
    assert(",\"streamId\":"@ + json_str(wire_stream_name(c.stype)) =~= seq![','] + sid);
    assert(ms =~= (seq![room] + seq![xid] + seq![sid]) + seq![num] + (rtp + aud + mu));
    lemma_obj_member(seq![room] + seq![xid] + seq![sid], num, rtp + aud + mu);
    assert(",\"stype\":"@ + wire_stream_number(c.stype) =~= seq![','] + num);
    if let Some(p) = c.rtp {
        let m = crate::proto::json::member("\"rtp\""@, p@);
        reveal_strlit(",\"rtp\":");
        reveal_strlit("\"rtp\"");
        assert(ms =~= (seq![room] + seq![xid] + seq![sid] + seq![num]) + seq![m] + (aud + mu));
        lemma_obj_member(seq![room] + seq![xid] + seq![sid] + seq![num], m, aud + mu);
        assert(",\"rtp\":"@ + p@ =~= seq![','] + m);
    }
    if let Some(b) = c.muted {
        let m = crate::proto::json::bool_m("\"muted\""@, b);
        lemma_wire_bool(b);
        reveal_strlit(",\"muted\":");
        reveal_strlit("\"muted\"");
        assert(ms =~= (seq![room] + seq![xid] + seq![sid] + seq![num] + rtp + aud) + seq![m] + Seq::<Seq<char>>::empty());
        lemma_obj_member(seq![room] + seq![xid] + seq![sid] + seq![num] + rtp + aud, m, Seq::empty());
        assert(",\"muted\":"@ + wire_bool(b) =~= seq![','] + m);
    }
}


proof fn lemma_head_pieces()
    ensures
        "{\"typ\":{\"Close\":{\"room_id\":\"\""@ == "{\"typ\":{"@ + "\"Close\""@ + seq![':'] + seq!['{'] + "\"room_id\""@
            + seq![':'] + "\"\""@,
        ",\"end\":"@ == seq![','] + "\"end\""@ + seq![':'],
        "{\"typ\":{\"USub\":{\"roomId\":\"\",\"consumerId\":"@ == "{\"typ\":{"@ + "\"USub\""@ + seq![':'] + seq!['{']
            + "\"roomId\""@ + seq![':'] + "\"\""@ + seq![','] + "\"consumerId\""@ + seq![':'],
        "}}}"@ == seq!['}'] + "}}"@,
{
    reveal_strlit("{\"typ\":{\"Close\":{\"room_id\":\"\"");
    reveal_strlit(",\"end\":");
    reveal_strlit("{\"typ\":{\"USub\":{\"roomId\":\"\",\"consumerId\":");
    reveal_strlit("}}}");
    reveal_strlit("{\"typ\":{");
    reveal_strlit("}}");
    reveal_strlit("\"Close\"");
    reveal_strlit("\"USub\"");
    reveal_strlit("\"room_id\"");
    reveal_strlit("\"roomId\"");
    reveal_strlit("\"consumerId\"");
    reveal_strlit("\"end\"");
    reveal_strlit("\"\"");
    assert("{\"typ\":{\"Close\":{\"room_id\":\"\""@ =~= "{\"typ\":{"@ + "\"Close\""@ + seq![':'] + seq!['{'] + "\"room_id\""@
        + seq![':'] + "\"\""@);
    assert(",\"end\":"@ =~= seq![','] + "\"end\""@ + seq![':']);
    assert("{\"typ\":{\"USub\":{\"roomId\":\"\",\"consumerId\":"@ =~= "{\"typ\":{"@ + "\"USub\""@ + seq![':'] + seq![
        '{',
    ] + "\"roomId\""@ + seq![':'] + "\"\""@ + seq![','] + "\"consumerId\""@ + seq![':']);
    assert("}}}"@ =~= seq!['}'] + "}}"@);
}

/// Leaving: the request sent for `Leave(end)` asks to close the session
/// and carries the host's `end` flag exactly when the host gave one.
pub proof fn lemma_leave_request_carries_end(end: Option<bool>)
    ensures
        leave_body(end) == match end {
            Some(b) => "{\"typ\":{\"Close\":{\"room_id\":\"\""@ + ",\"end\":"@ + wire_bool(b) + "}}}"@,
            None => "{\"typ\":{\"Close\":{\"room_id\":\"\""@ + "}}}"@,
        },
{
    lemma_head_pieces();
    lemma_empty_json_str();
    let a = crate::proto::json::str_m("\"room_id\""@, ""@);
    let head = "{\"typ\":{"@ + "\"Close\""@ + seq![':'] + seq!['{'] + "\"room_id\""@ + seq![':'] + "\"\""@;
    match end {
        Some(b) => {
            lemma_wire_bool(b);
            let m = crate::proto::json::bool_m("\"end\""@, b);
            assert(seq![a] + crate::proto::json::opt_bool_m("\"end\""@, end) =~= seq![a, m]);
            lemma_frame2("\"Close\""@, "\"room_id\""@, "\"\""@, "\"end\""@, wire_bool(b));
            assert(leave_body(end) == head + seq![','] + "\"end\""@ + seq![':'] + wire_bool(b) + seq!['}'] + "}}"@);
            assert(head + seq![','] + "\"end\""@ + seq![':'] + wire_bool(b) + seq!['}'] + "}}"@ =~= head + (seq![',']
                + "\"end\""@ + seq![':']) + wire_bool(b) + (seq!['}'] + "}}"@));
        },
        None => {
            assert(seq![a] + crate::proto::json::opt_bool_m("\"end\""@, end) =~= seq![a]);
            lemma_frame1("\"Close\""@, "\"room_id\""@, "\"\""@);
            assert(leave_body(end) == head + seq!['}'] + "}}"@);
            assert(head + seq!['}'] + "}}"@ =~= head + (seq!['}'] + "}}"@));
        },
    }
}

/// Unsubscribing: the request names the subscription by the consumer id
/// the host gave.
pub proof fn lemma_unsubscribe_names_the_consumer(cid: Seq<char>)
    ensures
        unsub_body(cid) == "{\"typ\":{\"USub\":{\"roomId\":\"\",\"consumerId\":"@ + json_str(cid) + "}}}"@,
{
    lemma_head_pieces();
    lemma_empty_json_str();
    let a = crate::proto::json::str_m("\"roomId\""@, ""@);
    let b = crate::proto::json::str_m("\"consumerId\""@, cid);
    assert(seq![a] + seq![b] =~= seq![a, b]);
    lemma_frame2("\"USub\""@, "\"roomId\""@, "\"\""@, "\"consumerId\""@, json_str(cid));
    let head = "{\"typ\":{"@ + "\"USub\""@ + seq![':'] + seq!['{'] + "\"roomId\""@ + seq![':'] + "\"\""@ + seq![','] + "\"consumerId\""@ + seq![':'];
    assert(unsub_body(cid) == head + json_str(cid) + seq!['}'] + "}}"@);
    assert(head + json_str(cid) + seq!['}'] + "}}"@ =~= head + json_str(cid) + (seq!['}'] + "}}"@));
}

/// Subscribing: the request names the stream id and the producer of the
/// stream chosen for the call, and the receiving transport.
pub proof fn lemma_subscribe_names_stream_producer_and_transport(sid: Seq<char>, pid: Seq<char>, xid: Seq<char>)
    ensures
        occurs_in(",\"streamId\":"@ + json_str(sid), sub_body(sid, pid, xid)),
        occurs_in(",\"producerId\":"@ + json_str(pid), sub_body(sid, pid, xid)),
        occurs_in(",\"xid\":"@ + json_str(xid), sub_body(sid, pid, xid)),
{
    let room = crate::proto::json::str_m("\"roomId\""@, ""@);
    let s = crate::proto::json::str_m("\"streamId\""@, sid);
    let p = crate::proto::json::str_m("\"producerId\""@, pid);
    let x = crate::proto::json::str_m("\"xid\""@, xid);
    let ms = seq![room] + seq![s] + seq![p] + seq![x] + crate::proto::json::opt_raw_m("\"preferredLayers\""@, None);
    let req = json_obj(ms);
    assert(ms =~= seq![room] + seq![s] + seq![p, x]);
    lemma_obj_member(seq![room], s, seq![p, x]);
    assert(ms =~= seq![room, s] + seq![p] + seq![x]);
    lemma_obj_member(seq![room, s], p, seq![x]);
    assert(ms =~= seq![room, s, p] + seq![x] + Seq::<Seq<char>>::empty());
    lemma_obj_member(seq![room, s, p], x, Seq::empty());
    reveal_strlit(",\"streamId\":");
    reveal_strlit("\"streamId\"");
    reveal_strlit(",\"producerId\":");
    reveal_strlit("\"producerId\"");
    reveal_strlit(",\"xid\":");
    reveal_strlit("\"xid\"");
    assert(",\"streamId\":"@ + json_str(sid) =~= seq![','] + s);
    assert(",\"producerId\":"@ + json_str(pid) =~= seq![','] + p);
    assert(",\"xid\":"@ + json_str(xid) =~= seq![','] + x);
    lemma_in_frame("\"Sub\""@, req, ",\"streamId\":"@ + json_str(sid));
    lemma_in_frame("\"Sub\""@, req, ",\"producerId\":"@ + json_str(pid));
    lemma_in_frame("\"Sub\""@, req, ",\"xid\":"@ + json_str(xid));
}

/// Asking for a transport: the request carries the direction asked for.
pub proof fn lemma_create_transport_carries_direction(dir: i32)
    ensures
        occurs_in(",\"dir\":"@ + crate::proto::json::dec_int(dir as int), create_x_body(dir)),
{
    let room = crate::proto::json::str_m("\"roomId\""@, ""@);
    let d = crate::proto::json::int_m("\"dir\""@, dir as int);
    let k = crate::proto::json::int_m("\"kind\""@, 0);
    let ms = seq![room] + seq![d] + seq![k] + crate::proto::json::opt_raw_m("\"dtls\""@, None);
    assert(ms =~= seq![room] + seq![d] + seq![k]);
    lemma_obj_member(seq![room], d, seq![k]);
    reveal_strlit(",\"dir\":");
    reveal_strlit("\"dir\"");
    assert(",\"dir\":"@ + crate::proto::json::dec_int(dir as int) =~= seq![','] + d);
    lemma_in_frame("\"CreateX\""@, json_obj(ms), ",\"dir\":"@ + crate::proto::json::dec_int(dir as int));
}

/// Chat: a message from user `u.<f>` to room `r.<r>` reaches the host as a
/// room chat from `f` to `r`; one to user `u.<t>` as a user chat from `f`
/// to `t`; the body as it came.
pub proof fn lemma_chat_reaches_host(n: ChatNotice, f: Seq<char>, t: Seq<char>)
    ensures
        n.from@ == "u."@ + f && n.to@ == "r."@ + t ==> chat_calls(n) == seq![Call::RoomChat(f, t, n.body@)],
        n.from@ == "u."@ + f && n.to@ == "u."@ + t ==> chat_calls(n) == seq![Call::UserChat(f, t, n.body@)],
{
    reveal_strlit("u.");
    reveal_strlit("r.");
    if n.from@ == "u."@ + f {
        assert(n.from@.subrange(0, 2) =~= "u."@);
        assert(n.from@.subrange(2, n.from@.len() as int) =~= f);
        if n.to@ == "r."@ + t {
            assert(n.to@.subrange(0, 2) =~= "r."@);
            assert(n.to@.subrange(2, n.to@.len() as int) =~= t);
        }
        if n.to@ == "u."@ + t {
            assert(n.to@.subrange(0, 2) =~= "u."@);
            assert(n.to@.subrange(0, 2)[0] == 'u');
            assert("r."@[0] == 'r');
            assert(n.to@.subrange(0, 2) != "r."@);
            assert(n.to@.subrange(2, n.to@.len() as int) =~= t);
        }
    }
}


/// Subscribing, request and answer: the request for `Sub(c, ..)` names
/// the stream chosen for the call, its producer and the receiving
/// transport; when the subscription is answered, the host is handed that
/// same transport, producer and stream with the consumer id and RTP
/// parameters of the answer.
pub proof fn lemma_subscription_resolves_what_was_asked(
    op: Op,
    users: Seq<(AStr, UserCell)>,
    dlink: Option<String>,
    rsp: SubscribeResponse,
)
    ensures
        op matches Op::Sub(c, _) ==> dlink matches Some(x) ==> {
            let e = sub_target(c, users);
            &&& op_body(op, users, dlink) == sub_body(e.0@, e.1.producer_id@, x@)
            &&& resolution(op_resolver(op, users, dlink), ResponseType::Sub(rsp)) == Ok::<Seq<Call>, super::error::ClientError>(
                seq![Call::ResolvedSub(x@, rsp.consumer_id@, e.1.producer_id@, e.0@, chars_of(rsp.rtp))],
            )
        },
{
}

/// Answers hand the host what the server answered: a publication its
/// producer id, a created transport its id, ICE parameters, candidates
/// and DTLS parameters with the direction asked for.
pub proof fn lemma_answers_reach_host(cb: Box<dyn super::client::CbResolvePub>, p: PublishResponse, dir: i32, x: CreateWebrtcTransportResponse)
    ensures
        resolution(Resolver::Pub(cb), ResponseType::Pub(p)) == Ok::<Seq<Call>, super::error::ClientError>(
            seq![Call::ResolvedPub(p.producer_id@)],
        ),
        resolution(Resolver::CreateX(dir), ResponseType::CreateX(x)) == Ok::<Seq<Call>, super::error::ClientError>(
            seq![Call::CreatedX(dir, x.xid@, chars_of(x.ice_param), x.ice_candidates@, chars_of(x.dtls))],
        ),
{
}

} // verus!
