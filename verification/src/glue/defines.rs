//! Records exchanged with the host application: configuration, call
//! arguments, call results and the values handed to callbacks.
use vstd::prelude::*;

use super::error::ClientError;
use crate::client::defines::{ClientInfo as ClientInfoInner, ConnectionConfig, JoinAdvanceArgs, JoinConfig};
use crate::kit::astr::AStr;
use crate::proto::json::{json_obj, member, opt_bool_m, opt_raw_m, opt_str_m, str_m, int_m, bool_m, JsonBody};
use crate::proto::render::tagged;
use crate::proto::response::ResponseType;
use crate::proto::v1;
use crate::proto::v1::InvalidStreamType;
use crate::proto::v1_ser::{
    ClientRequestSer, ConnXTypeSer, ConnectWebrtcTransportRequestSer, JsonText, MuteRequestSer,
    MuteTypeSer, PublishRequestSer, PublishTypeSer, UnPublishRequestSer, UnPublishTypeSer,
};

verus! {

/// What the host gives to open a session.
#[derive(Debug)]
pub struct SignalConfig {
    pub user_id: String,
    pub room_id: String,
    pub ignore_server_cert: bool,
    pub token: Option<String>,
    pub client_info: Option<ClientInfo>,
}

/// What the host tells about itself; `device` holds key/value pairs.
#[derive(Debug, Clone)]
pub struct ClientInfo {
    pub platform: Option<String>,
    pub sdk_name: Option<String>,
    pub sdk_version: Option<String>,
    pub device: Option<Vec<(String, String)>>,
}

pub open spec fn opt_string(v: Option<String>) -> Option<Seq<char>> {
    match v {
        Some(s) => Some(s@),
        None => None,
    }
}

pub open spec fn opt_astr(v: Option<AStr>) -> Option<Seq<char>> {
    match v {
        Some(s) => Some(s@),
        None => None,
    }
}

fn opt_into_astr(v: Option<String>) -> (r: Option<AStr>)
    ensures
        opt_astr(r) == opt_string(v),
{
    match v {
        Some(s) => Some(AStr::from_string(s)),
        None => None,
    }
}

/// The client information as the client keeps it.
pub open spec fn client_info_matches(inner: ClientInfoInner, outer: ClientInfo) -> bool {
    &&& opt_astr(inner.platform) == opt_string(outer.platform)
    &&& opt_astr(inner.sdk_name) == opt_string(outer.sdk_name)
    &&& opt_astr(inner.sdk_version) == opt_string(outer.sdk_version)
    &&& match (inner.device, outer.device) {
        (Some(a), Some(b)) => a@.len() == b@.len() && forall|i: int|
            0 <= i < a@.len() ==> #[trigger] a@[i].0@ == b@[i].0@ && a@[i].1@ == b@[i].1@,
        (None, None) => true,
        _ => false,
    }
}

/// No key occurs twice among device pairs, as in a map.
pub open spec fn host_device_keys_unique(d: Seq<(String, String)>) -> bool {
    forall|i: int, j: int| 0 <= i < j < d.len() ==> #[trigger] d[i].0@ != #[trigger] d[j].0@
}

impl ClientInfo {
    /// The device pairs, if any, are a map: no key occurs twice.
    pub open spec fn wf(&self) -> bool {
        match self.device {
            Some(d) => host_device_keys_unique(d@),
            None => true,
        }
    }
}

impl SignalConfig {
    pub open spec fn wf(&self) -> bool {
        match self.client_info {
            Some(ci) => ci.wf(),
            None => true,
        }
    }
}

fn device_into(m: Vec<(String, String)>) -> (r: Vec<(AStr, AStr)>)
    ensures
        r@.len() == m@.len(),
        forall|i: int| 0 <= i < r@.len() ==> #[trigger] r@[i].0@ == m@[i].0@ && r@[i].1@ == m@[i].1@,
{
    let mut out: Vec<(AStr, AStr)> = Vec::new();
    let mut i: usize = 0;
    while i < m.len()
        invariant
            i <= m.len(),
            out@.len() == i,
            forall|j: int| 0 <= j < i ==> #[trigger] out@[j].0@ == m@[j].0@ && out@[j].1@ == m@[j].1@,
        decreases m.len() - i,
    {
        let k = AStr::from_str(m[i].0.as_str());
        let v = AStr::from_str(m[i].1.as_str());
        out.push((k, v));
        i = i + 1;
    }
    out
}

impl ClientInfo {
    /// The same information as the client keeps it.
    pub fn into_inner(self) -> (r: ClientInfoInner)
        ensures
            client_info_matches(r, self),
            self.wf() ==> r.wf(),
    {
        let device = match self.device {
            Some(m) => Some(device_into(m)),
            None => None,
        };
        ClientInfoInner {
            platform: opt_into_astr(self.platform),
            sdk_name: opt_into_astr(self.sdk_name),
            sdk_version: opt_into_astr(self.sdk_version),
            device,
        }
    }
}

impl SignalConfig {
    /// The join configuration: identities, token and client information
    /// from the record, the certificate choice in the connection settings,
    /// every other setting at its default.
    pub fn into_join_config(self) -> (r: JoinConfig)
        ensures
            r.user_id@ == self.user_id@,
            r.room_id@ == self.room_id@,
            r.advance.connection.is_default_but_cert(self.ignore_server_cert),
            opt_astr(r.advance.token) == opt_string(self.token),
            r.advance.user_ext is None,
            r.advance.user_tree is None,
            r.advance.batch is None,
            self.wf() ==> r.wf(),
            match (r.advance.client_info, self.client_info) {
                (Some(a), Some(b)) => client_info_matches(a, b),
                (None, None) => true,
                _ => false,
            },
    {
        let client_info = match self.client_info {
            Some(ci) => Some(ci.into_inner()),
            None => None,
        };
        let mut connection = ConnectionConfig::default();
        connection.ignore_server_cert = self.ignore_server_cert;
        JoinConfig {
            user_id: AStr::from_string(self.user_id),
            room_id: AStr::from_string(self.room_id),
            advance: JoinAdvanceArgs {
                user_ext: None,
                user_tree: None,
                connection,
                batch: None,
                token: opt_into_astr(self.token),
                client_info,
            },
        }
    }
}

impl SignalConfig {
    /// The join configuration of a signalling client: that of
    /// `into_join_config`, with the opening requests sent as one batch.
    pub fn into_signal_join_config(self) -> (r: JoinConfig)
        ensures
            r.user_id@ == self.user_id@,
            r.room_id@ == self.room_id@,
            r.advance.connection.is_default_but_cert(self.ignore_server_cert),
            opt_astr(r.advance.token) == opt_string(self.token),
            r.advance.user_ext is None,
            r.advance.user_tree is None,
            r.advance.batch == Some(true),
            self.wf() ==> r.wf(),
            match (r.advance.client_info, self.client_info) {
                (Some(a), Some(b)) => client_info_matches(a, b),
                (None, None) => true,
                _ => false,
            },
    {
        let mut config = self.into_join_config();
        config.advance.batch = Some(true);
        config
    }
}

/// Result status of a request, as the host sees it; code 0 is success.
#[derive(Debug)]
pub struct Status {
    pub code: i32,
    pub reason: String,
}

impl Status {
    /// Code 0 with reason `OK`.
    pub fn success() -> (r: Self)
        ensures
            r.code == 0,
            r.reason@ == "OK"@,
    {
        Status { code: 0, reason: "OK".to_owned() }
    }
}

impl Default for Status {
    fn default() -> (r: Self)
        ensures
            r.code == 0,
            r.reason@ == "OK"@,
    {
        Self::success()
    }
}

impl From<v1::Status> for Status {
    fn from(value: v1::Status) -> (r: Self) {
        Status { code: value.code, reason: value.reason }
    }
}

impl vstd::std_specs::convert::FromSpecImpl<v1::Status> for Status {
    open spec fn obeys_from_spec() -> bool {
        true
    }

    open spec fn from_spec(v: v1::Status) -> Status {
        Status { code: v.code, reason: v.reason }
    }
}

impl From<Status> for v1::Status {
    fn from(value: Status) -> (r: Self) {
        v1::Status { code: value.code, reason: value.reason }
    }
}

impl vstd::std_specs::convert::FromSpecImpl<Status> for v1::Status {
    open spec fn obeys_from_spec() -> bool {
        true
    }

    open spec fn from_spec(v: Status) -> v1::Status {
        v1::Status { code: v.code, reason: v.reason }
    }
}

/// Kind of a published stream, as the host names it.
#[derive(Debug, Clone, Copy, PartialEq, Eq, Structural)]
pub enum StreamType {
    Camera,
    Mic,
    Screen,
}

pub open spec fn to_proto_stream_type(t: StreamType) -> v1::StreamType {
    match t {
        StreamType::Camera => v1::StreamType::Camera,
        StreamType::Mic => v1::StreamType::Mic,
        StreamType::Screen => v1::StreamType::Screen,
    }
}

pub open spec fn from_proto_stream_type(t: v1::StreamType) -> StreamType {
    match t {
        v1::StreamType::Camera => StreamType::Camera,
        v1::StreamType::Mic => StreamType::Mic,
        v1::StreamType::Screen => StreamType::Screen,
    }
}

/// The host-side type numbered `value`, if any.
pub open spec fn glue_stream_type_of(value: i32) -> Option<StreamType> {
    match v1::stream_type_of(value) {
        Some(t) => Some(from_proto_stream_type(t)),
        None => None,
    }
}

impl StreamType {
    pub fn from_value(value: i32) -> (r: Result<Self, InvalidStreamType>)
        ensures
            r matches Ok(t) ==> glue_stream_type_of(value) == Some(t),
            r matches Err(e) ==> glue_stream_type_of(value) is None && e.value == value,
    {
        match v1::StreamType::from_value(value) {
            Ok(t) => Ok(StreamType::from(t)),
            Err(e) => Err(e),
        }
    }

    pub fn value(&self) -> (r: i32)
        ensures
            r == v1::stream_type_value(to_proto_stream_type(*self)),
    {
        match self {
            StreamType::Camera => 1,
            StreamType::Mic => 2,
            StreamType::Screen => 3,
        }
    }

    pub fn value_str(value: i32) -> (r: Result<&'static str, InvalidStreamType>)
        ensures
            r matches Ok(s) ==> v1::stream_type_of(value) matches Some(t) && s@
                == v1::stream_type_name(t),
            r matches Err(e) ==> v1::stream_type_of(value) is None && e.value == value,
    {
        v1::StreamType::value_str(value)
    }

    pub fn as_str(&self) -> (r: &'static str)
        ensures
            r@ == v1::stream_type_name(to_proto_stream_type(*self)),
    {
        v1::StreamType::from(*self).as_str()
    }
}

impl From<v1::StreamType> for StreamType {
    fn from(value: v1::StreamType) -> (r: Self) {
        match value {
            v1::StreamType::Camera => StreamType::Camera,
            v1::StreamType::Mic => StreamType::Mic,
            v1::StreamType::Screen => StreamType::Screen,
        }
    }
}

impl vstd::std_specs::convert::FromSpecImpl<v1::StreamType> for StreamType {
    open spec fn obeys_from_spec() -> bool {
        true
    }

    open spec fn from_spec(v: v1::StreamType) -> StreamType {
        from_proto_stream_type(v)
    }
}

impl From<StreamType> for v1::StreamType {
    fn from(value: StreamType) -> (r: Self) {
        match value {
            StreamType::Camera => v1::StreamType::Camera,
            StreamType::Mic => v1::StreamType::Mic,
            StreamType::Screen => v1::StreamType::Screen,
        }
    }
}

impl vstd::std_specs::convert::FromSpecImpl<StreamType> for v1::StreamType {
    open spec fn obeys_from_spec() -> bool {
        true
    }

    open spec fn from_spec(v: StreamType) -> v1::StreamType {
        to_proto_stream_type(v)
    }
}

/// Converting a stream type to the host's naming and back gives it back.
pub proof fn lemma_stream_type_conversion_roundtrip(t: StreamType, p: v1::StreamType)
    ensures
        from_proto_stream_type(to_proto_stream_type(t)) == t,
        to_proto_stream_type(from_proto_stream_type(p)) == p,
{
}

/// One tree operation handed to the host.
#[derive(Debug)]
pub struct TreeNode {
    pub path: String,
    pub value: Option<String>,
    pub prune: Option<bool>,
}

impl From<v1::TreeState> for TreeNode {
    fn from(value: v1::TreeState) -> (r: Self) {
        TreeNode { path: value.path, value: value.value, prune: value.prune }
    }
}

impl vstd::std_specs::convert::FromSpecImpl<v1::TreeState> for TreeNode {
    open spec fn obeys_from_spec() -> bool {
        true
    }

    open spec fn from_spec(v: v1::TreeState) -> TreeNode {
        TreeNode { path: v.path, value: v.value, prune: v.prune }
    }
}

/// A chat message: sender, receiver (a user or the room) and text.
#[derive(Debug)]
pub struct ChatArgs {
    pub from: String,
    pub to: String,
    pub body: String,
}

/// A created transport. `ice_param` and `dtls` are JSON texts,
/// `ice_candidates` the JSON text of the candidate list.
#[derive(Debug)]
pub struct OnCreateXResponse {
    pub xid: String,
    pub ice_param: Option<String>,
    pub ice_candidates: String,
    pub dtls: Option<String>,
}

impl TryFrom<v1::CreateWebrtcTransportResponse> for OnCreateXResponse {
    type Error = ClientError;

    fn try_from(value: v1::CreateWebrtcTransportResponse) -> (r: Result<Self, ClientError>) {
        Ok(OnCreateXResponse {
            xid: value.xid,
            ice_param: value.ice_param,
            ice_candidates: value.ice_candidates,
            dtls: value.dtls,
        })
    }
}

impl vstd::std_specs::convert::TryFromSpecImpl<v1::CreateWebrtcTransportResponse> for OnCreateXResponse {
    open spec fn obeys_try_from_spec() -> bool {
        true
    }

    open spec fn try_from_spec(v: v1::CreateWebrtcTransportResponse) -> Result<Self, ClientError> {
        Ok(
            OnCreateXResponse {
                xid: v.xid,
                ice_param: v.ice_param,
                ice_candidates: v.ice_candidates,
                dtls: v.dtls,
            },
        )
    }
}

impl TryFrom<ResponseType> for OnCreateXResponse {
    type Error = ClientError;

    fn try_from(response: ResponseType) -> (r: Result<Self, ClientError>) {
        match response {
            ResponseType::CreateX(v) => OnCreateXResponse::try_from(v),
            _ => Err(ClientError::UnexpectedResponse("Sub")),
        }
    }
}

impl vstd::std_specs::convert::TryFromSpecImpl<ResponseType> for OnCreateXResponse {
    open spec fn obeys_try_from_spec() -> bool {
        true
    }

    open spec fn try_from_spec(v: ResponseType) -> Result<Self, ClientError> {
        match v {
            ResponseType::CreateX(x) => Ok(
                OnCreateXResponse {
                    xid: x.xid,
                    ice_param: x.ice_param,
                    ice_candidates: x.ice_candidates,
                    dtls: x.dtls,
                },
            ),
            _ => Err(ClientError::UnexpectedResponse("Sub")),
        }
    }
}

/// A request whose body the client renders to JSON text.
pub trait ToBody {
    /// The JSON text of the request body.
    spec fn body_json(&self) -> Seq<char>;

    fn to_body_json(&self) -> (r: Result<String, serde_json::Error>)
        ensures
            r matches Ok(t) && t@ == self.body_json(),
    ;
}

/// `{"typ":{"<kind>":<request>}}`, the frame of every request body.
pub open spec fn request_frame(kind: Seq<char>, request: Seq<char>) -> Seq<char> {
    json_obj(seq![member("\"typ\""@, tagged(kind, request))])
}

/// Connecting a transport; `dtls` is the JSON text of the client's DTLS
/// parameters.
#[derive(Debug)]
pub struct ConnXCall {
    pub xid: String,
    pub dtls: Option<String>,
}

impl ConnXCall {
    pub open spec fn request_json(&self) -> Seq<char> {
        json_obj(seq![str_m("\"xid\""@, self.xid@)] + opt_raw_m("\"dtls\""@, opt_string(self.dtls)))
    }

    pub fn to_body_typed<'a>(&'a self) -> (r: ClientRequestSer<
        ConnXTypeSer<ConnectWebrtcTransportRequestSer<'a, JsonText<'a>>>,
    >)
        ensures
            r.json() == request_frame("\"ConnX\""@, self.request_json()),
    {
        let dtls = match &self.dtls {
            Some(d) => Some(JsonText(d.as_str())),
            None => None,
        };
        (ConnectWebrtcTransportRequestSer { xid: self.xid.as_str(), dtls }).into_msg()
    }
}

impl ToBody for ConnXCall {
    open spec fn body_json(&self) -> Seq<char> {
        request_frame("\"ConnX\""@, self.request_json())
    }

    fn to_body_json(&self) -> (r: Result<String, serde_json::Error>) {
        self.to_body_typed().to_json()
    }
}

#[derive(Debug)]
pub struct ConnXReturn {}

impl TryFrom<ResponseType> for ConnXReturn {
    type Error = ClientError;

    fn try_from(response: ResponseType) -> (r: Result<Self, ClientError>) {
        match response {
            ResponseType::ConnX(_rsp) => Ok(ConnXReturn {  }),
            _ => Err(ClientError::UnexpectedResponse("ConnX")),
        }
    }
}

impl vstd::std_specs::convert::TryFromSpecImpl<ResponseType> for ConnXReturn {
    open spec fn obeys_try_from_spec() -> bool {
        true
    }

    open spec fn try_from_spec(v: ResponseType) -> Result<Self, ClientError> {
        match v {
            ResponseType::ConnX(_) => Ok(ConnXReturn {  }),
            _ => Err(ClientError::UnexpectedResponse("ConnX")),
        }
    }
}

/// Publishing a stream; `rtp` is the JSON text of the RTP parameters.
#[derive(Debug)]
pub struct PubCall {
    pub x_id: String,
    pub stype: StreamType,
    pub rtp: Option<String>,
    pub muted: Option<bool>,
}

impl PubCall {
    /// The stream is named after its type; the room is the session's own.
    pub open spec fn request_json(&self) -> Seq<char> {
        json_obj(
            seq![str_m("\"roomId\""@, ""@)] + seq![str_m("\"xid\""@, self.x_id@)]
                + seq![str_m("\"streamId\""@, v1::stream_type_name(to_proto_stream_type(self.stype)))]
                + seq![int_m("\"stype\""@, v1::stream_type_value(to_proto_stream_type(self.stype)) as int)]
                + opt_raw_m("\"rtp\""@, opt_string(self.rtp)) + seq![int_m("\"audioType\""@, 0)]
                + opt_bool_m("\"muted\""@, self.muted),
        )
    }

    pub fn to_body_typed<'a>(&'a self) -> (r: ClientRequestSer<
        PublishTypeSer<PublishRequestSer<'a, JsonText<'a>>>,
    >)
        ensures
            r.json() == request_frame("\"Pub\""@, self.request_json()),
    {
        let rtp = match &self.rtp {
            Some(d) => Some(JsonText(d.as_str())),
            None => None,
        };
        let room_id = "";
        (PublishRequestSer {
            room_id,
            xid: self.x_id.as_str(),
            stream_id: self.stype.as_str(),
            stype: self.stype.value(),
            rtp,
            audio_type: 0,
            muted: self.muted,
        }).into_msg()
    }
}

impl ToBody for PubCall {
    open spec fn body_json(&self) -> Seq<char> {
        request_frame("\"Pub\""@, self.request_json())
    }

    fn to_body_json(&self) -> (r: Result<String, serde_json::Error>) {
        self.to_body_typed().to_json()
    }
}

#[derive(Debug)]
pub struct PubReturn {
    pub producer_id: String,
}

impl TryFrom<ResponseType> for PubReturn {
    type Error = ClientError;

    fn try_from(response: ResponseType) -> (r: Result<Self, ClientError>) {
        match response {
            ResponseType::Pub(rsp) => Ok(PubReturn { producer_id: rsp.producer_id }),
            _ => Err(ClientError::UnexpectedResponse("Pub")),
        }
    }
}

impl vstd::std_specs::convert::TryFromSpecImpl<ResponseType> for PubReturn {
    open spec fn obeys_try_from_spec() -> bool {
        true
    }

    open spec fn try_from_spec(v: ResponseType) -> Result<Self, ClientError> {
        match v {
            ResponseType::Pub(rsp) => Ok(PubReturn { producer_id: rsp.producer_id }),
            _ => Err(ClientError::UnexpectedResponse("Pub")),
        }
    }
}

/// Unpublishing the stream of a type.
#[derive(Debug)]
pub struct UPubCall {
    pub stype: StreamType,
}

impl UPubCall {
    pub open spec fn request_json(&self) -> Seq<char> {
        json_obj(
            seq![str_m("\"roomId\""@, ""@)] + opt_str_m("\"producerId\""@, None) + opt_str_m(
                "\"streamId\""@,
                Some(v1::stream_type_name(to_proto_stream_type(self.stype))),
            ),
        )
    }

    pub fn to_body_typed<'a>(&'a self) -> (r: ClientRequestSer<UnPublishTypeSer<UnPublishRequestSer<'a>>>)
        ensures
            r.json() == request_frame("\"UPub\""@, self.request_json()),
    {
        let room_id = "";
        let r = (UnPublishRequestSer {
            room_id,
            producer_id: None,
            stream_id: Some(self.stype.as_str()),
        }).into_msg();
        assert(r.json() =~= request_frame("\"UPub\""@, self.request_json()));
        r
    }
}

impl ToBody for UPubCall {
    open spec fn body_json(&self) -> Seq<char> {
        request_frame("\"UPub\""@, self.request_json())
    }

    fn to_body_json(&self) -> (r: Result<String, serde_json::Error>) {
        self.to_body_typed().to_json()
    }
}

#[derive(Debug)]
pub struct UPubReturn {}

impl TryFrom<ResponseType> for UPubReturn {
    type Error = ClientError;

    fn try_from(response: ResponseType) -> (r: Result<Self, ClientError>) {
        match response {
            ResponseType::UPub(_rsp) => Ok(UPubReturn {  }),
            _ => Err(ClientError::UnexpectedResponse("UPub")),
        }
    }
}

impl vstd::std_specs::convert::TryFromSpecImpl<ResponseType> for UPubReturn {
    open spec fn obeys_try_from_spec() -> bool {
        true
    }

    open spec fn try_from_spec(v: ResponseType) -> Result<Self, ClientError> {
        match v {
            ResponseType::UPub(_) => Ok(UPubReturn {  }),
            _ => Err(ClientError::UnexpectedResponse("UPub")),
        }
    }
}

/// Muting or unmuting the stream of a type.
#[derive(Debug)]
pub struct MuteCall {
    pub stype: StreamType,
    pub muted: bool,
}

impl MuteCall {
    pub open spec fn request_json(&self) -> Seq<char> {
        json_obj(
            seq![str_m("\"roomId\""@, ""@)] + opt_str_m("\"producerId\""@, None) + opt_str_m(
                "\"streamId\""@,
                Some(v1::stream_type_name(to_proto_stream_type(self.stype))),
            ) + seq![bool_m("\"muted\""@, self.muted)],
        )
    }

    pub fn to_body_typed<'a>(&'a self) -> (r: ClientRequestSer<MuteTypeSer<MuteRequestSer<'a>>>)
        ensures
            r.json() == request_frame("\"Mute\""@, self.request_json()),
    {
        let room_id = "";
        let r = (MuteRequestSer {
            room_id,
            producer_id: None,
            stream_id: Some(self.stype.as_str()),
            muted: self.muted,
        }).into_msg();
        assert(r.json() =~= request_frame("\"Mute\""@, self.request_json()));
        r
    }
}

impl ToBody for MuteCall {
    open spec fn body_json(&self) -> Seq<char> {
        request_frame("\"Mute\""@, self.request_json())
    }

    fn to_body_json(&self) -> (r: Result<String, serde_json::Error>) {
        self.to_body_typed().to_json()
    }
}

#[derive(Debug)]
pub struct MuteReturn {}

impl TryFrom<ResponseType> for MuteReturn {
    type Error = ClientError;

    fn try_from(response: ResponseType) -> (r: Result<Self, ClientError>) {
        match response {
            ResponseType::Mute(_rsp) => Ok(MuteReturn {  }),
            _ => Err(ClientError::UnexpectedResponse("Mute")),
        }
    }
}

impl vstd::std_specs::convert::TryFromSpecImpl<ResponseType> for MuteReturn {
    open spec fn obeys_try_from_spec() -> bool {
        true
    }

    open spec fn try_from_spec(v: ResponseType) -> Result<Self, ClientError> {
        match v {
            ResponseType::Mute(_) => Ok(MuteReturn {  }),
            _ => Err(ClientError::UnexpectedResponse("Mute")),
        }
    }
}

/// Subscribing to the stream of a type that a user publishes.
#[derive(Debug)]
pub struct SubCall {
    pub user_id: String,
    pub stype: StreamType,
}

/// A subscription; `rtp` is the JSON text of the RTP parameters.
#[derive(Debug)]
pub struct SubReturn {
    pub x_id: String,
    pub consumer_id: String,
    pub producer_id: String,
    pub stream_id: String,
    pub rtp: Option<String>,
}

impl SubReturn {
    pub fn try_new(x_id: String, producer_id: String, stream_id: String, response: ResponseType) -> (r:
        Result<Self, ClientError>)
        ensures
            match response {
                ResponseType::Sub(rsp) => r matches Ok(v) && v.consumer_id == rsp.consumer_id
                    && v.rtp == rsp.rtp && v.x_id == x_id && v.producer_id == producer_id
                    && v.stream_id == stream_id,
                _ => r == Err::<Self, ClientError>(ClientError::UnexpectedResponse("Sub")),
            },
    {
        match response {
            ResponseType::Sub(rsp) => Ok(
                SubReturn { consumer_id: rsp.consumer_id, rtp: rsp.rtp, x_id, producer_id, stream_id },
            ),
            _ => Err(ClientError::UnexpectedResponse("Sub")),
        }
    }
}

/// Ending a subscription.
#[derive(Debug)]
pub struct UnsubCall {
    pub consumer_id: String,
}

#[derive(Debug)]
pub struct UnsubReturn {}

impl UnsubReturn {
    pub fn try_new(response: ResponseType) -> (r: Result<Self, ClientError>)
        ensures
            match response {
                ResponseType::USub(_) => r is Ok,
                _ => r == Err::<Self, ClientError>(ClientError::UnexpectedResponse("USub")),
            },
    {
        match response {
            ResponseType::USub(_rsp) => Ok(UnsubReturn {  }),
            _ => Err(ClientError::UnexpectedResponse("USub")),
        }
    }
}

} // verus!
