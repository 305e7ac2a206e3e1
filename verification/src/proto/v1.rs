use vstd::prelude::*;

use super::json::{dec_int, dec_text, json_obj, json_str, member, member_text, obj_text, quote, texts};
use crate::kit::astr::AStr;
use crate::kit::text::str_eq;

verus! {

/// The kind of a wire packet, carried in the `typ` field of the envelope.
#[derive(Debug, Clone, Copy, PartialEq, Eq, Structural)]
pub enum PacketType {
    Request,
    Response,
    Push0,
    Push1,
    Push2,
}

/// Wire number of each packet kind.
pub open spec fn packet_type_num(t: PacketType) -> i32 {
    match t {
        PacketType::Request => 3,
        PacketType::Response => 4,
        PacketType::Push0 => 5,
        PacketType::Push1 => 6,
        PacketType::Push2 => 7,
    }
}

/// The packet kind whose wire number is `v`, if any.
pub open spec fn packet_type_from_num(v: i32) -> Option<PacketType> {
    if v == 3 {
        Some(PacketType::Request)
    } else if v == 4 {
        Some(PacketType::Response)
    } else if v == 5 {
        Some(PacketType::Push0)
    } else if v == 6 {
        Some(PacketType::Push1)
    } else if v == 7 {
        Some(PacketType::Push2)
    } else {
        None
    }
}

impl PacketType {
    pub fn from_num(v: i32) -> (r: Option<Self>)
        ensures
            r == packet_type_from_num(v),
    {
        match v {
            3 => Some(PacketType::Request),
            4 => Some(PacketType::Response),
            5 => Some(PacketType::Push0),
            6 => Some(PacketType::Push1),
            7 => Some(PacketType::Push2),
            _ => None,
        }
    }

    pub fn as_num(&self) -> (r: i32)
        ensures
            r == packet_type_num(*self),
    {
        match self {
            PacketType::Request => 3,
            PacketType::Response => 4,
            PacketType::Push0 => 5,
            PacketType::Push1 => 6,
            PacketType::Push2 => 7,
        }
    }
}

/// Decoding the wire number of a packet kind gives that kind back.
pub proof fn lemma_packet_type_num_roundtrip(t: PacketType)
    ensures
        packet_type_from_num(packet_type_num(t)) == Some(t),
{
}

/// A wire number that decodes to a kind is that kind's wire number.
pub proof fn lemma_packet_type_from_num_inverse(v: i32)
    ensures
        packet_type_from_num(v) matches Some(t) ==> packet_type_num(t) == v,
        packet_type_from_num(v) is Some <==> 3 <= v <= 7,
{
}


/// The packet envelope: every frame on the websocket is one of these, as a
/// JSON object whose absent fields are left out.
#[derive(Clone, Debug, PartialEq, Default)]
pub struct PacketRef<'a> {
    /// see `PacketType`
    pub typ: Option<i32>,
    /// sequence number
    pub sn: Option<i64>,
    /// JSON text of the body
    pub body: Option<&'a str>,
    /// acknowledged sequence number
    pub ack: Option<i64>,
}

/// Quoted member names of the envelope.
pub open spec fn key_typ() -> Seq<char> {
    seq!['"', 't', 'y', 'p', '"']
}

pub open spec fn key_sn() -> Seq<char> {
    seq!['"', 's', 'n', '"']
}

pub open spec fn key_body() -> Seq<char> {
    seq!['"', 'b', 'o', 'd', 'y', '"']
}

pub open spec fn key_ack() -> Seq<char> {
    seq!['"', 'a', 'c', 'k', '"']
}

/// The member for an optional integer field: none when absent.
pub open spec fn opt_int_member(key: Seq<char>, v: Option<int>) -> Seq<Seq<char>> {
    match v {
        Some(x) => seq![member(key, dec_int(x))],
        None => Seq::empty(),
    }
}

/// The member for an optional string field: none when absent.
pub open spec fn opt_str_member(key: Seq<char>, v: Option<Seq<char>>) -> Seq<Seq<char>> {
    match v {
        Some(x) => seq![member(key, json_str(x))],
        None => Seq::empty(),
    }
}

/// The JSON text of an envelope with the given fields, in the order
/// `typ`, `sn`, `body`, `ack`, absent fields skipped.
pub open spec fn envelope_json(
    typ: Option<int>,
    sn: Option<int>,
    body: Option<Seq<char>>,
    ack: Option<int>,
) -> Seq<char> {
    json_obj(
        opt_int_member(key_typ(), typ) + opt_int_member(key_sn(), sn) + opt_str_member(
            key_body(),
            body,
        ) + opt_int_member(key_ack(), ack),
    )
}

pub open spec fn opt_i32(v: Option<i32>) -> Option<int> {
    match v {
        Some(x) => Some(x as int),
        None => None,
    }
}

pub open spec fn opt_i64(v: Option<i64>) -> Option<int> {
    match v {
        Some(x) => Some(x as int),
        None => None,
    }
}

pub open spec fn opt_text(v: Option<&str>) -> Option<Seq<char>> {
    match v {
        Some(x) => Some(x@),
        None => None,
    }
}

/// `sn` as a packet reports it: absent and zero both mean "no sequence number".
pub open spec fn effective_sn(sn: Option<i64>) -> Option<i64> {
    match sn {
        Some(v) => if v == 0 {
            None
        } else {
            Some(v)
        },
        None => None,
    }
}

/// The packet kind named by an optional wire number.
pub open spec fn typ_of(typ: Option<i32>) -> Option<PacketType> {
    match typ {
        Some(v) => packet_type_from_num(v),
        None => None,
    }
}

impl<'a> PacketRef<'a> {
    /// The JSON text of this envelope.
    pub open spec fn json(&self) -> Seq<char> {
        envelope_json(opt_i32(self.typ), opt_i64(self.sn), opt_text(self.body), opt_i64(self.ack))
    }

    pub fn typ(&self) -> (r: Option<PacketType>)
        ensures
            r == typ_of(self.typ),
    {
        match self.typ {
            Some(v) => PacketType::from_num(v),
            None => None,
        }
    }

    /// A packet that needs no acknowledgement.
    pub fn qos0(typ: PacketType, body: &'a str) -> (r: Self)
        ensures
            r.sn is None,
            r.typ == Some(packet_type_num(typ)),
            r.body == Some(body),
            r.ack is None,
    {
        PacketRef { sn: None, typ: Some(typ.as_num()), body: Some(body), ack: None }
    }

    /// A packet carrying sequence number `sn`, to be acknowledged.
    pub fn qos1(sn: i64, typ: PacketType, body: &'a str) -> (r: Self)
        ensures
            r.sn == Some(sn),
            r.typ == Some(packet_type_num(typ)),
            r.body == Some(body),
            r.ack is None,
    {
        PacketRef { sn: Some(sn), typ: Some(typ.as_num()), body: Some(body), ack: None }
    }

    pub fn sn(&self) -> (r: Option<i64>)
        ensures
            r == effective_sn(self.sn),
    {
        match self.sn {
            None => None,
            Some(0) => None,
            Some(v) => Some(v),
        }
    }

    pub fn to_meta(&self) -> (r: PacketMeta)
        ensures
            r.typ == self.typ,
            r.sn == self.sn,
            r.ack == self.ack,
    {
        PacketMeta { typ: self.typ, sn: self.sn, ack: self.ack }
    }

    /// Renders the envelope as JSON text.
    pub fn to_json(&self) -> (r: Result<String, serde_json::Error>)
        ensures
            r matches Ok(t) && t@ == self.json(),
            self.body is None ==> r is Ok,
    {
        envelope_text(self.typ, self.sn, self.body, self.ack)
    }

    /// The JSON text of an envelope that only acknowledges `sn`.
    pub fn ack_json(sn: i64) -> (r: Result<String, serde_json::Error>)
        ensures
            r matches Ok(t) && t@ == envelope_json(None, None, None, Some(sn as int)),
    {
        envelope_text(None, None, None, Some(sn))
    }

    /// The JSON text of `qos0(typ, body)`.
    pub fn qos0_json(typ: PacketType, body: &'a str) -> (r: Result<String, serde_json::Error>)
        ensures
            r matches Ok(t) && t@ == envelope_json(
                Some(packet_type_num(typ) as int),
                None,
                Some(body@),
                None,
            ),
    {
        Self::qos0(typ, body).to_json()
    }
}

/// Renders an envelope from its fields.
pub fn envelope_text(typ: Option<i32>, sn: Option<i64>, body: Option<&str>, ack: Option<i64>) -> (r:
    Result<String, serde_json::Error>)
    ensures
        r matches Ok(t) && t@ == envelope_json(opt_i32(typ), opt_i64(sn), opt_text(body), opt_i64(ack)),
        body is None ==> r is Ok,
{
    let mut members: Vec<String> = Vec::new();
    let ghost want = opt_int_member(key_typ(), opt_i32(typ)) + opt_int_member(key_sn(), opt_i64(sn))
        + opt_str_member(key_body(), opt_text(body)) + opt_int_member(key_ack(), opt_i64(ack));
    proof {
        reveal_strlit("\"typ\"");
        reveal_strlit("\"sn\"");
        reveal_strlit("\"body\"");
        reveal_strlit("\"ack\"");
        assert("\"typ\""@ =~= key_typ());
        assert("\"sn\""@ =~= key_sn());
        assert("\"body\""@ =~= key_body());
        assert("\"ack\""@ =~= key_ack());
    }
    if let Some(v) = typ {
        let m = member_text("\"typ\"", dec_text(v as i64).as_str());
        members.push(m);
    }
    assert(texts(members@) =~= opt_int_member(key_typ(), opt_i32(typ)));
    if let Some(v) = sn {
        let m = member_text("\"sn\"", dec_text(v).as_str());
        members.push(m);
    }
    assert(texts(members@) =~= opt_int_member(key_typ(), opt_i32(typ)) + opt_int_member(
        key_sn(),
        opt_i64(sn),
    ));
    if let Some(b) = body {
        let q = quote(b)?;
        let m = member_text("\"body\"", q.as_str());
        members.push(m);
    }
    assert(texts(members@) =~= opt_int_member(key_typ(), opt_i32(typ)) + opt_int_member(
        key_sn(),
        opt_i64(sn),
    ) + opt_str_member(key_body(), opt_text(body)));
    if let Some(v) = ack {
        let m = member_text("\"ack\"", dec_text(v).as_str());
        members.push(m);
    }
    assert(texts(members@) =~= want);
    Ok(obj_text(&members))
}

/// The header fields of an envelope.
#[derive(Clone, Debug, PartialEq, Default)]
pub struct PacketMeta {
    pub typ: Option<i32>,
    pub sn: Option<i64>,
    pub ack: Option<i64>,
}

impl PacketMeta {
    pub fn typ(&self) -> (r: Option<PacketType>)
        ensures
            r == typ_of(self.typ),
    {
        match self.typ {
            Some(v) => PacketType::from_num(v),
            None => None,
        }
    }
}

/// Kind of a pushed body.
#[derive(Debug, Clone, Copy, PartialEq, Eq, Structural)]
pub enum BodyType {
    UserInit,
    UserState,
    UserTree,
    UserReady,
    RoomTree,
    RoomReady,
    Chat,
}

pub open spec fn body_type_num(t: BodyType) -> i32 {
    match t {
        BodyType::UserInit => 1,
        BodyType::UserState => 2,
        BodyType::UserTree => 3,
        BodyType::UserReady => 4,
        BodyType::RoomTree => 5,
        BodyType::RoomReady => 6,
        BodyType::Chat => 7,
    }
}

impl BodyType {
    pub fn as_num(&self) -> (r: i32)
        ensures
            r == body_type_num(*self),
    {
        match self {
            BodyType::UserInit => 1,
            BodyType::UserState => 2,
            BodyType::UserTree => 3,
            BodyType::UserReady => 4,
            BodyType::RoomTree => 5,
            BodyType::RoomReady => 6,
            BodyType::Chat => 7,
        }
    }
}

/// Result status of a request; code 0 is success.
#[derive(Clone, Debug, PartialEq, Default)]
pub struct Status {
    pub code: i32,
    pub reason: String,
}

/// A status wrapped as an error together with a context message.
#[derive(Clone, Debug, PartialEq)]
pub struct StatusError {
    pub status: Status,
    pub context: String,
}

impl Status {
    /// Code given to failures that carry no status of their own.
    pub const INTERNAL_ERROR_CODE: i32 = 1001;

    /// Fails with this status as the error, under `context`.
    pub fn with_context<T>(self, context: String) -> (r: Result<T, StatusError>)
        ensures
            r matches Err(e) && e.status == self && e.context == context,
    {
        Err(StatusError { status: self, context })
    }

    /// The success status (code 0, empty reason).
    pub fn ok() -> (r: Status)
        ensures
            r.code == 0,
            r.reason@ == Seq::<char>::empty(),
    {
        Status { code: 0, reason: String::new() }
    }

    /// A field-for-field copy.
    pub fn copy(&self) -> (r: Status)
        ensures
            r == *self,
    {
        Status { code: self.code, reason: self.reason.clone() }
    }

    /// The text of the status: `Status { code: <code>, reason: <reason> }`,
    /// the reason quoted and escaped as its debug text.
    pub fn to_text(&self) -> (r: String)
        ensures
            r@ == status_text(*self),
    {
        let mut out = "Status { code: ".to_owned();
        out.append(crate::proto::json::dec_text(self.code as i64).as_str());
        out.append(", reason: ");
        out.append(debug_quote(self.reason.as_str()).as_str());
        out.append(" }");
        out
    }
}

/// The text of a status: `Status { code: <code>, reason: <reason> }`, the
/// reason quoted and escaped as its debug text.
pub open spec fn status_text(s: Status) -> Seq<char> {
    "Status { code: "@ + dec_int(s.code as int) + ", reason: "@ + debug_str(s.reason@) + " }"@
}

/// The debug text of a string: quoted, with quotes, backslashes and
/// control characters escaped.
pub uninterp spec fn debug_str(s: Seq<char>) -> Seq<char>;

/// Formats `s` with `{:?}`. The contract names the text `debug_str(s@)`, a
/// function of the characters of `s` alone.
#[verifier::external_body]
fn debug_quote(s: &str) -> (r: String)
    ensures
        r@ == debug_str(s@),
{
    format!("{s:?}")
}

/// Identifier notice (user init / ready, room ready).
#[derive(Clone, Debug, PartialEq)]
pub struct IdRef<'a> {
    pub id: &'a str,
}

#[derive(Clone, Debug, PartialEq)]
pub struct Id {
    pub id: String,
}

#[derive(Clone, Debug, PartialEq)]
pub struct ClosedNoticeRef<'a> {
    pub status: Option<&'a Status>,
}

#[derive(Clone, Debug, PartialEq)]
pub struct ClosedNotice {
    pub status: Option<Status>,
}

#[derive(Clone, Debug, PartialEq)]
pub struct RoomNotice {
    pub room_id: String,
    pub seq: i64,
    pub json: String,
}

#[derive(Clone, Debug, PartialEq)]
pub struct ChNoticeRef<'a> {
    pub id: &'a str,
    pub seq: i64,
    pub body: &'a str,
}

#[derive(Clone, Debug, PartialEq)]
pub struct PushAck {
    pub seq: i64,
}

#[derive(Clone, Debug, PartialEq)]
pub struct ChatNoticeRef<'a> {
    pub from: &'a str,
    pub to: &'a str,
    pub body: &'a str,
}

/// A chat message pushed by the server; `from` is `u.<user>`, `to` is
/// `r.<room>` or `u.<user>`.
#[derive(Clone, Debug, PartialEq)]
pub struct ChatNotice {
    pub from: String,
    pub to: String,
    pub body: String,
}

#[derive(Clone, Debug, PartialEq)]
pub struct TreeStateRef<'a> {
    pub path: &'a str,
    pub value: Option<&'a str>,
    pub id: Option<&'a str>,
    pub prune: Option<bool>,
}

/// One operation on a user's or the room's key/value tree.
#[derive(Clone, Debug, PartialEq)]
pub struct TreeState {
    pub path: String,
    pub value: Option<String>,
    pub id: Option<String>,
    pub prune: Option<bool>,
}

/// A media stream a user publishes.
#[derive(Clone, Debug, PartialEq)]
pub struct Stream {
    pub seq: i64,
    pub stype: i32,
    pub producer_id: String,
    pub muted: bool,
}

/// The full state of a user; `streams` holds each stream under its id, in
/// the order the server map was walked.
#[derive(Clone, Debug, PartialEq)]
pub struct UserState {
    pub id: String,
    pub online: bool,
    pub streams: Vec<(String, Stream)>,
    pub ext: Option<String>,
    pub inst_id: String,
}

/// No two streams of a state share an id.
pub open spec fn stream_ids_unique(s: Seq<(String, Stream)>) -> bool {
    forall|i: int, j: int| 0 <= i < j < s.len() ==> #[trigger] s[i].0@ != #[trigger] s[j].0@
}

impl UserState {
    /// The streams are a map from stream id: no id occurs twice.
    pub open spec fn wf(&self) -> bool {
        stream_ids_unique(self.streams@)
    }

    pub fn is_wf(&self) -> (r: bool)
        ensures
            r == self.wf(),
    {
        let s = &self.streams;
        let mut j: usize = 1;
        while j < s.len()
            invariant
                s@ == self.streams@,
                1 <= j || s@.len() == 0,
                j <= s@.len() || s@.len() == 0,
                forall|a: int, b: int| 0 <= a < b < j && b < s@.len() ==> #[trigger] s@[a].0@ != #[trigger] s@[b].0@,
            decreases s.len() - j,
        {
            let mut i: usize = 0;
            while i < j
                invariant
                    s@ == self.streams@,
                    i <= j < s@.len(),
                    forall|a: int, b: int| 0 <= a < b < j ==> #[trigger] s@[a].0@ != #[trigger] s@[b].0@,
                    forall|a: int| 0 <= a < i ==> #[trigger] s@[a].0@ != s@[j as int].0@,
                decreases j - i,
            {
                if str_eq(s[i].0.as_str(), s[j].0.as_str()) {
                    assert(s@[i as int].0@ == s@[j as int].0@);
                    assert(!stream_ids_unique(s@));
                    return false;
                }
                i = i + 1;
            }
            j = j + 1;
        }
        true
    }
}

/// A push from the server to the client.
#[derive(Clone, Debug, PartialEq)]
pub struct ServerPushRef<'a> {
    pub typ: ServerPushTypeRef<'a>,
}

impl<'a> ServerPushRef<'a> {
    pub fn closed(v: ClosedNoticeRef<'a>) -> (r: Self)
        ensures
            r.typ == ServerPushTypeRef::Closed(v),
    {
        Self { typ: ServerPushTypeRef::Closed(v) }
    }

    pub fn chat(v: ChatNoticeRef<'a>) -> (r: Self)
        ensures
            r.typ == ServerPushTypeRef::Chat(v),
    {
        Self { typ: ServerPushTypeRef::Chat(v) }
    }

    pub fn user_init(v: IdRef<'a>) -> (r: Self)
        ensures
            r.typ == ServerPushTypeRef::UInit(v),
    {
        Self { typ: ServerPushTypeRef::UInit(v) }
    }

    pub fn user_ready(v: IdRef<'a>) -> (r: Self)
        ensures
            r.typ == ServerPushTypeRef::UReady(v),
    {
        Self { typ: ServerPushTypeRef::UReady(v) }
    }

    pub fn user_full(v: &'a UserState) -> (r: Self)
        ensures
            r.typ == ServerPushTypeRef::UFull(v),
    {
        Self { typ: ServerPushTypeRef::UFull(v) }
    }

    pub fn user_tree(v: TreeStateRef<'a>) -> (r: Self)
        ensures
            r.typ == ServerPushTypeRef::UTree(v),
    {
        Self { typ: ServerPushTypeRef::UTree(v) }
    }

    pub fn room_tree(v: TreeStateRef<'a>) -> (r: Self)
        ensures
            r.typ == ServerPushTypeRef::RTree(v),
    {
        Self { typ: ServerPushTypeRef::RTree(v) }
    }

    pub fn room_ready(v: IdRef<'a>) -> (r: Self)
        ensures
            r.typ == ServerPushTypeRef::RReady(v),
    {
        Self { typ: ServerPushTypeRef::RReady(v) }
    }
}

#[derive(Clone, Debug, PartialEq)]
pub enum ServerPushTypeRef<'a> {
    Closed(ClosedNoticeRef<'a>),
    Chat(ChatNoticeRef<'a>),
    /// User Init
    UInit(IdRef<'a>),
    /// User Ready
    UReady(IdRef<'a>),
    /// User Full
    UFull(&'a UserState),
    /// User Tree
    UTree(TreeStateRef<'a>),
    /// Room Tree
    RTree(TreeStateRef<'a>),
    /// Room Ready
    RReady(IdRef<'a>),
}

#[derive(Clone, Debug, PartialEq)]
pub struct ServerPush {
    pub typ: ServerPushType,
}

#[derive(Clone, Debug, PartialEq)]
pub enum ServerPushType {
    Closed(ClosedNotice),
    Chat(ChatNotice),
    /// User Init
    UInit(Id),
    /// User Ready
    UReady(Id),
    /// User Full
    UFull(UserState),
    /// User Tree
    UTree(TreeState),
    /// Room Tree
    RTree(TreeState),
    /// Room Ready
    RReady(Id),
}

/// A request from the client, as the server reads it.
#[derive(Clone, Debug, PartialEq)]
pub struct ClientMessage {
    pub typ: Option<super::client_message::MsgType>,
}

pub type ClientRequest = ClientMessage;

pub type ServerResponse = Response;

#[derive(Clone, Debug, PartialEq)]
pub struct OpenSessionRequest {
    pub user_id: String,
    pub room_id: String,
    pub user_ext: Option<String>,
    pub user_tree: Option<Vec<UpdateTreeRequest>>,
    pub batch: Option<bool>,
}

#[derive(Clone, Debug, PartialEq)]
pub struct ReconnectRequest {
    pub session_id: String,
    /// number of the reconnect attempt, from 1 up
    pub try_seq: i64,
    /// `try_seq` of the last successful reconnect, 0 at first
    pub last_success_seq: i64,
    /// always 20250901
    pub magic: i32,
}

#[derive(Clone, Debug, PartialEq)]
pub struct RoomCursor {
    pub room_id: String,
    pub seq: i64,
}

#[derive(Clone, Debug, PartialEq)]
pub struct MuteRequest {
    pub room_id: String,
    pub producer_id: Option<String>,
    pub stream_id: Option<String>,
    pub muted: bool,
}

#[derive(Clone, Debug, PartialEq)]
pub struct LayerRequest {
    pub room_id: String,
    pub consumer_id: String,
    pub preferred_layers: Option<PreferredLayers>,
}

#[derive(Clone, Debug, PartialEq)]
pub struct EndRequest {}

#[derive(Clone, Debug, PartialEq)]
pub struct UpdateExtRequest {
    pub ext: Option<String>,
}

/// One operation on a key/value tree sent by the client.
#[derive(Clone, Debug, PartialEq)]
pub struct UpdateTreeRequest {
    pub path: Option<AStr>,
    pub value: Option<AStr>,
    pub prune: Option<bool>,
}

#[derive(Clone, Debug, PartialEq)]
pub struct ChatRequest {
    /// empty for the room
    pub to: Option<String>,
    pub body: String,
}

#[derive(Clone, Debug, PartialEq)]
pub struct BatchEndRequest {}

#[derive(Clone, Debug, PartialEq)]
pub struct BatchEndResponse {}

#[derive(Clone, Debug, PartialEq)]
pub struct OpenSessionResponse {
    pub session_id: String,
    /// connection id
    pub conn_id: String,
}

#[derive(Clone, Debug, PartialEq)]
pub struct CloseSessionResponse {}

#[derive(Clone, Debug, PartialEq)]
pub struct ReconnectResponse {
    /// connection id
    pub conn_id: String,
}

#[derive(Clone, Debug, PartialEq)]
pub struct CloseSessionRequest {
    pub room_id: String,
    /// whether the room is ended too
    pub end: Option<bool>,
}

#[derive(Clone, Debug, PartialEq)]
pub struct ResponseRef<'a> {
    pub status: Option<&'a Status>,
    pub typ: Option<super::response::ResponseType>,
}

/// A response from the server; a status with a non-zero code is a failure.
#[derive(Clone, Debug, PartialEq)]
pub struct Response {
    pub status: Option<Status>,
    pub typ: Option<super::response::ResponseType>,
}

/// Parameters of a WebRTC transport to create. `dtls` is the JSON text of
/// the client's DTLS parameters.
#[derive(Clone, Debug, PartialEq)]
pub struct CreateWebrtcTransportRequest {
    pub room_id: String,
    /// see `Direction`
    pub dir: i32,
    /// see `MediaKind`
    pub kind: i32,
    pub dtls: Option<String>,
}

/// A created WebRTC transport. `ice_param`, `dtls` are JSON texts,
/// `ice_candidates` is the JSON text of the candidate list.
#[derive(Clone, Debug, PartialEq)]
pub struct CreateWebrtcTransportResponse {
    pub xid: String,
    pub ice_param: Option<String>,
    pub ice_candidates: String,
    pub dtls: Option<String>,
}

/// Direction of a transport.
#[derive(Clone, Copy, Debug, PartialEq, Eq, Hash, Structural)]
pub enum Direction {
    /// sending
    Inbound,
    /// receiving
    Outbound,
}

pub open spec fn direction_value(d: Direction) -> i32 {
    match d {
        Direction::Inbound => 0,
        Direction::Outbound => 1,
    }
}

pub open spec fn direction_name(d: Direction) -> Seq<char> {
    match d {
        Direction::Inbound => seq!['I', 'N', 'B', 'O', 'U', 'N', 'D'],
        Direction::Outbound => seq!['O', 'U', 'T', 'B', 'O', 'U', 'N', 'D'],
    }
}

pub open spec fn direction_from_name(s: Seq<char>) -> Option<Direction> {
    if s == direction_name(Direction::Inbound) {
        Some(Direction::Inbound)
    } else if s == direction_name(Direction::Outbound) {
        Some(Direction::Outbound)
    } else {
        None
    }
}

impl Direction {
    pub fn value(&self) -> (r: i32)
        ensures
            r == direction_value(*self),
    {
        match self {
            Direction::Inbound => 0,
            Direction::Outbound => 1,
        }
    }

    /// Name used in the protobuf definition.
    pub fn as_str_name(&self) -> (r: &'static str)
        ensures
            r@ == direction_name(*self),
    {
        proof {
            reveal_strlit("INBOUND");
            reveal_strlit("OUTBOUND");
        }
        match self {
            Direction::Inbound => "INBOUND",
            Direction::Outbound => "OUTBOUND",
        }
    }

    /// The direction whose protobuf name is `value`.
    pub fn from_str_name(value: &str) -> (r: Option<Self>)
        ensures
            r == direction_from_name(value@),
    {
        proof {
            reveal_strlit("INBOUND");
            reveal_strlit("OUTBOUND");
        }
        if str_eq(value, "INBOUND") {
            assert("INBOUND"@ =~= direction_name(Direction::Inbound));
            Some(Self::Inbound)
        } else if str_eq(value, "OUTBOUND") {
            assert("INBOUND"@ =~= direction_name(Direction::Inbound));
            assert("OUTBOUND"@ =~= direction_name(Direction::Outbound));
            Some(Self::Outbound)
        } else {
            assert("INBOUND"@ =~= direction_name(Direction::Inbound));
            assert("OUTBOUND"@ =~= direction_name(Direction::Outbound));
            None
        }
    }
}

/// Media kind of a transport.
#[derive(Clone, Copy, Debug, PartialEq, Eq, Hash, Structural)]
pub enum MediaKind {
    /// audio and video
    AudioVideo,
    Audio,
    Video,
}

pub open spec fn media_kind_name(k: MediaKind) -> Seq<char> {
    match k {
        MediaKind::AudioVideo => seq!['A', 'U', 'D', 'I', 'O', '_', 'V', 'I', 'D', 'E', 'O'],
        MediaKind::Audio => seq!['A', 'U', 'D', 'I', 'O'],
        MediaKind::Video => seq!['V', 'I', 'D', 'E', 'O'],
    }
}

pub open spec fn media_kind_from_name(s: Seq<char>) -> Option<MediaKind> {
    if s == media_kind_name(MediaKind::AudioVideo) {
        Some(MediaKind::AudioVideo)
    } else if s == media_kind_name(MediaKind::Audio) {
        Some(MediaKind::Audio)
    } else if s == media_kind_name(MediaKind::Video) {
        Some(MediaKind::Video)
    } else {
        None
    }
}

impl MediaKind {
    /// Name used in the protobuf definition.
    pub fn as_str_name(&self) -> (r: &'static str)
        ensures
            r@ == media_kind_name(*self),
    {
        proof {
            reveal_strlit("AUDIO_VIDEO");
            reveal_strlit("AUDIO");
            reveal_strlit("VIDEO");
        }
        match self {
            MediaKind::AudioVideo => "AUDIO_VIDEO",
            MediaKind::Audio => "AUDIO",
            MediaKind::Video => "VIDEO",
        }
    }

    /// The kind whose protobuf name is `value`.
    pub fn from_str_name(value: &str) -> (r: Option<Self>)
        ensures
            r == media_kind_from_name(value@),
    {
        proof {
            reveal_strlit("AUDIO_VIDEO");
            reveal_strlit("AUDIO");
            reveal_strlit("VIDEO");
            assert("AUDIO_VIDEO"@ =~= media_kind_name(MediaKind::AudioVideo));
            assert("AUDIO"@ =~= media_kind_name(MediaKind::Audio));
            assert("VIDEO"@ =~= media_kind_name(MediaKind::Video));
        }
        if str_eq(value, "AUDIO_VIDEO") {
            Some(Self::AudioVideo)
        } else if str_eq(value, "AUDIO") {
            Some(Self::Audio)
        } else if str_eq(value, "VIDEO") {
            Some(Self::Video)
        } else {
            None
        }
    }
}

/// Parameters to connect a transport; `dtls` is JSON text.
#[derive(Clone, Debug, PartialEq)]
pub struct ConnectWebrtcTransportRequest {
    pub xid: String,
    pub dtls: Option<String>,
}

/// Parameters to publish a stream; `rtp` is JSON text.
#[derive(Clone, Debug, PartialEq)]
pub struct PublishRequest {
    pub room_id: String,
    pub xid: String,
    pub stream_id: String,
    pub stype: i32,
    pub rtp: Option<String>,
    pub audio_type: i32,
    pub muted: Option<bool>,
}

#[derive(Clone, Debug, PartialEq)]
pub struct UnPublishRequest {
    pub room_id: String,
    pub producer_id: Option<String>,
    pub stream_id: Option<String>,
}

#[derive(Clone, Debug, PartialEq)]
pub struct SubscribeRequest {
    pub room_id: String,
    pub stream_id: String,
    pub producer_id: String,
    pub xid: String,
    pub preferred_layers: Option<PreferredLayers>,
}

#[derive(Clone, Debug, PartialEq)]
pub struct UnSubscribeRequest {
    pub room_id: String,
    pub consumer_id: String,
}

/// How a subscribed audio stream is routed.
#[derive(Clone, Copy, Debug, PartialEq, Eq, Hash, Structural)]
pub enum AudioType {
    RoutableAudio,
    ExclusiveAudio,
    PriorityRoomAudio,
}

/// Spatial / temporal layer preference (`temporal_layer < 0` leaves it unset).
#[derive(Clone, Copy, Debug, PartialEq, Eq)]
pub struct PreferredLayers {
    pub spatial_layer: u32,
    pub temporal_layer: i32,
}

#[derive(Clone, Debug, PartialEq)]
pub struct ConnectWebrtcTransportResponse {}

#[derive(Clone, Debug, PartialEq)]
pub struct PublishResponse {
    pub producer_id: String,
}

#[derive(Clone, Debug, PartialEq)]
pub struct UnPublishResponse {}

/// A subscription; `rtp` is JSON text.
#[derive(Clone, Debug, PartialEq)]
pub struct SubscribeResponse {
    pub consumer_id: String,
    pub rtp: Option<String>,
}

#[derive(Clone, Debug, PartialEq)]
pub struct UnSubscribeResponse {}

#[derive(Clone, Debug, PartialEq)]
pub struct MuteResponse {}

#[derive(Clone, Debug, PartialEq)]
pub struct LayerResponse {}

#[derive(Clone, Debug, PartialEq)]
pub struct EndResponse {
    pub updated: bool,
}

#[derive(Clone, Debug, PartialEq)]
pub struct UpdateExtResponse {}

#[derive(Clone, Debug, PartialEq)]
pub struct UpdateTreeResponse {}

#[derive(Clone, Debug, PartialEq)]
pub struct ChatResponse {}

#[derive(Clone, Debug, PartialEq)]
pub struct HeartbeatResponse {}

/// Kind of a published stream.
#[derive(Debug, Clone, Copy, PartialEq, Eq, Structural)]
pub enum StreamType {
    Camera,
    Mic,
    Screen,
}

pub open spec fn stream_type_value(t: StreamType) -> i32 {
    match t {
        StreamType::Camera => 1,
        StreamType::Mic => 2,
        StreamType::Screen => 3,
    }
}

pub open spec fn stream_type_of(v: i32) -> Option<StreamType> {
    if v == 1 {
        Some(StreamType::Camera)
    } else if v == 2 {
        Some(StreamType::Mic)
    } else if v == 3 {
        Some(StreamType::Screen)
    } else {
        None
    }
}

pub open spec fn stream_type_name(t: StreamType) -> Seq<char> {
    match t {
        StreamType::Camera => seq!['c', 'a', 'm', 'e', 'r', 'a'],
        StreamType::Mic => seq!['m', 'i', 'c'],
        StreamType::Screen => seq!['s', 'c', 'r', 'e', 'e', 'n'],
    }
}

/// A value that names no stream type.
#[derive(Clone, Copy, Debug, PartialEq, Eq)]
pub struct InvalidStreamType {
    pub value: i32,
}

/// `<prefix>[<decimal value>]`.
pub open spec fn bracketed_int(prefix: Seq<char>, v: int) -> Seq<char> {
    prefix + "["@ + dec_int(v) + "]"@
}

pub fn bracketed_int_text(prefix: &str, v: i64) -> (r: String)
    ensures
        r@ == bracketed_int(prefix@, v as int),
{
    let mut out = prefix.to_owned();
    out.append("[");
    out.append(dec_text(v).as_str());
    out.append("]");
    out
}

impl InvalidStreamType {
    /// The error's text: `invalid StreamType [<value>]`.
    pub fn message(&self) -> (r: String)
        ensures
            r@ == bracketed_int("invalid StreamType "@, self.value as int),
    {
        bracketed_int_text("invalid StreamType ", self.value as i64)
    }
}

/// A value that names no stream type, as `stream_type_from` reports it.
#[derive(Clone, Copy, Debug, PartialEq, Eq)]
pub struct UnknownStreamType {
    pub value: i32,
}

impl UnknownStreamType {
    /// The error's text: `unknown stream type [<value>]`.
    pub fn message(&self) -> (r: String)
        ensures
            r@ == bracketed_int("unknown stream type "@, self.value as int),
    {
        bracketed_int_text("unknown stream type ", self.value as i64)
    }
}

impl StreamType {
    pub fn from_value(value: i32) -> (r: Result<Self, InvalidStreamType>)
        ensures
            r matches Ok(t) ==> stream_type_of(value) == Some(t),
            r matches Err(e) ==> stream_type_of(value) is None && e.value == value,
    {
        match value {
            1 => Ok(StreamType::Camera),
            2 => Ok(StreamType::Mic),
            3 => Ok(StreamType::Screen),
            _ => Err(InvalidStreamType { value }),
        }
    }

    pub fn value(&self) -> (r: i32)
        ensures
            r == stream_type_value(*self),
    {
        match self {
            StreamType::Camera => 1,
            StreamType::Mic => 2,
            StreamType::Screen => 3,
        }
    }

    /// The name of the stream type numbered `value`.
    pub fn value_str(value: i32) -> (r: Result<&'static str, InvalidStreamType>)
        ensures
            r matches Ok(s) ==> stream_type_of(value) matches Some(t) && s@ == stream_type_name(t),
            r matches Err(e) ==> stream_type_of(value) is None && e.value == value,
    {
        match Self::from_value(value) {
            Ok(t) => Ok(t.as_str()),
            Err(e) => Err(e),
        }
    }

    pub fn as_str(&self) -> (r: &'static str)
        ensures
            r@ == stream_type_name(*self),
    {
        proof {
            reveal_strlit("camera");
            reveal_strlit("mic");
            reveal_strlit("screen");
        }
        match self {
            StreamType::Camera => "camera",
            StreamType::Mic => "mic",
            StreamType::Screen => "screen",
        }
    }
}

/// Decoding the number of a stream type gives that type back.
pub proof fn lemma_stream_type_roundtrip(t: StreamType)
    ensures
        stream_type_of(stream_type_value(t)) == Some(t),
{
}

/// The media kind carried by a stream: audio or video.
#[derive(Debug, Clone, Copy, PartialEq, Eq, Structural)]
pub enum RtpMediaKind {
    Audio,
    Video,
}

/// The stream type numbered `value` with the media kind it carries.
pub fn stream_type_from(value: i32) -> (r: Result<(StreamType, RtpMediaKind), UnknownStreamType>)
    ensures
        r matches Ok(p) ==> stream_type_of(value) == Some(p.0) && p.1 == (if p.0 == StreamType::Mic {
            RtpMediaKind::Audio
        } else {
            RtpMediaKind::Video
        }),
        r matches Err(e) ==> stream_type_of(value) is None && e.value == value,
{
    match value {
        1 => Ok((StreamType::Camera, RtpMediaKind::Video)),
        2 => Ok((StreamType::Mic, RtpMediaKind::Audio)),
        3 => Ok((StreamType::Screen, RtpMediaKind::Video)),
        _ => Err(UnknownStreamType { value }),
    }
}


/// Reading back the protobuf name of a direction gives the direction.
pub proof fn lemma_direction_name_roundtrip(d: Direction)
    ensures
        direction_from_name(direction_name(d)) == Some(d),
{
    assert(direction_name(Direction::Inbound) != direction_name(Direction::Outbound));
}

/// Reading back the protobuf name of a media kind gives the kind.
pub proof fn lemma_media_kind_name_roundtrip(k: MediaKind)
    ensures
        media_kind_from_name(media_kind_name(k)) == Some(k),
{
    assert(media_kind_name(MediaKind::AudioVideo).len() == 11);
    assert(media_kind_name(MediaKind::Audio)[0] == 'A');
    assert(media_kind_name(MediaKind::Video)[0] == 'V');
    assert(media_kind_name(MediaKind::AudioVideo) != media_kind_name(MediaKind::Audio));
    assert(media_kind_name(MediaKind::AudioVideo) != media_kind_name(MediaKind::Video));
    assert(media_kind_name(MediaKind::Audio) != media_kind_name(MediaKind::Video));
}

/// The name of the stream type numbered `v` is the name of that type.
pub proof fn lemma_stream_type_names_distinct(a: StreamType, b: StreamType)
    ensures
        stream_type_name(a) == stream_type_name(b) ==> a == b,
        stream_type_value(a) == stream_type_value(b) ==> a == b,
{
    assert(stream_type_name(StreamType::Camera)[0] == 'c');
    assert(stream_type_name(StreamType::Mic)[0] == 'm');
    assert(stream_type_name(StreamType::Screen)[0] == 's');
}

} // verus!
