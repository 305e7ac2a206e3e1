//! Requests the client sends, as borrowed views rendered to JSON text in
//! the layout the server reads: absent optional fields are left out and an
//! enum variant is an object with the variant name as its one key.
use vstd::prelude::*;

use super::fmt_writer::JsonDisplay;
use super::json::{
    bool_m, bool_member, int_m, int_member, json_arr, json_obj, json_str, member, member_text,
    obj_text, arr_text, opt_bool_m, opt_bool_member_text, opt_int_m, opt_int_member_text,
    opt_raw_m, opt_raw_member_text, opt_str_m, opt_str_member_text, opt_strs, push_member,
    push_opt_member, str_m, str_member, texts, JsonBody,
};
use super::render::{empty_obj, empty_obj_text, tagged, tagged_text};
use super::v1::{PreferredLayers, UpdateTreeRequest};

verus! {

/// The optional text held by an optional `&str`.
pub open spec fn opt_chars(v: Option<&str>) -> Option<Seq<char>> {
    match v {
        Some(x) => Some(x@),
        None => None,
    }
}

/// The JSON text of an optional value, if present.
pub open spec fn opt_json<B: JsonBody>(v: Option<B>) -> Option<Seq<char>> {
    match v {
        Some(x) => Some(x.json()),
        None => None,
    }
}

/// Renders an optional value.
pub fn opt_to_json<B: JsonBody>(v: &Option<B>) -> (r: Result<Option<String>, serde_json::Error>)
    ensures
        r matches Ok(o) && match o {
            Some(t) => v.is_some() && t@ == v.unwrap().json(),
            None => v.is_none(),
        },
{
    match v {
        Some(x) => {
            let t = x.to_json()?;
            Ok(Some(t))
        },
        None => Ok(None),
    }
}

/// A member holding an optional value, rendered.
fn opt_value_member<B: JsonBody>(key: &str, v: &Option<B>) -> (r: Result<Option<String>, serde_json::Error>)
    ensures
        r matches Ok(o) && opt_strs(o) == opt_raw_m(key@, opt_json(*v)),
{
    let t = opt_to_json(v)?;
    Ok(opt_raw_member_text(key, t))
}

/// JSON text passed through as it is (parameters that the caller already
/// holds in JSON form).
#[derive(Clone, Debug, PartialEq)]
pub struct JsonText<'a>(pub &'a str);

impl<'a> JsonBody for JsonText<'a> {
    open spec fn json(&self) -> Seq<char> {
        self.0@
    }

    fn to_json(&self) -> (r: Result<String, serde_json::Error>) {
        Ok(self.0.to_owned())
    }
}

/// String pairs rendered as a JSON object, in the order given.
#[derive(Clone, Debug, PartialEq)]
pub struct StrMapSer<'a>(pub Vec<(&'a str, &'a str)>);

impl<'a> JsonBody for StrMapSer<'a> {
    open spec fn json(&self) -> Seq<char> {
        json_obj(self.0@.map_values(|p: (&'a str, &'a str)| str_m(json_str(p.0@), p.1@)))
    }

    fn to_json(&self) -> (r: Result<String, serde_json::Error>) {
        let ghost f = |p: (&'a str, &'a str)| str_m(json_str(p.0@), p.1@);
        let mut ms: Vec<String> = Vec::new();
        let mut i: usize = 0;
        while i < self.0.len()
            invariant
                i <= self.0.len(),
                texts(ms@) =~= self.0@.take(i as int).map_values(f),
                f == (|p: (&'a str, &'a str)| str_m(json_str(p.0@), p.1@)),
            decreases self.0.len() - i,
        {
            let (k, v) = self.0[i];
            let key = super::json::quote(k)?;
            let m = str_member(key.as_str(), v)?;
            push_member(&mut ms, m);
            proof {
                assert(self.0@.take(i + 1) =~= self.0@.take(i as int).push(self.0@[i as int]));
                assert(self.0@.take(i + 1).map_values(f) =~= self.0@.take(i as int).map_values(
                    f,
                ).push(f(self.0@[i as int])));
            }
            i = i + 1;
        }
        assert(self.0@.take(self.0.len() as int) =~= self.0@);
        Ok(obj_text(&ms))
    }
}

/// A list rendered as a JSON array, in order.
#[derive(Clone, Debug, PartialEq)]
pub struct IterSer<T>(pub Vec<T>);

impl<T: JsonBody> JsonBody for IterSer<T> {
    open spec fn json(&self) -> Seq<char> {
        json_arr(self.0@.map_values(|x: T| x.json()))
    }

    fn to_json(&self) -> (r: Result<String, serde_json::Error>) {
        let ghost f = |x: T| x.json();
        let mut ms: Vec<String> = Vec::new();
        let mut i: usize = 0;
        while i < self.0.len()
            invariant
                i <= self.0.len(),
                texts(ms@) =~= self.0@.take(i as int).map_values(f),
                f == (|x: T| x.json()),
            decreases self.0.len() - i,
        {
            let t = self.0[i].to_json()?;
            push_member(&mut ms, t);
            proof {
                assert(self.0@.take(i + 1) =~= self.0@.take(i as int).push(self.0@[i as int]));
                assert(self.0@.take(i + 1).map_values(f) =~= self.0@.take(i as int).map_values(
                    f,
                ).push(f(self.0@[i as int])));
            }
            i = i + 1;
        }
        assert(self.0@.take(self.0.len() as int) =~= self.0@);
        Ok(arr_text(&ms))
    }
}

/// Outer frame of every request: `{"typ": <request kind>}`.
#[derive(Clone, Debug, PartialEq)]
pub struct ClientRequestSer<T> {
    pub typ: T,
}

impl<T: JsonBody> JsonBody for ClientRequestSer<T> {
    open spec fn json(&self) -> Seq<char> {
        json_obj(seq![member("\"typ\""@, self.typ.json())])
    }

    fn to_json(&self) -> (r: Result<String, serde_json::Error>) {
        let t = self.typ.to_json()?;
        let mut ms: Vec<String> = Vec::new();
        push_member(&mut ms, member_text("\"typ\"", t.as_str()));
        assert(texts(ms@) =~= seq![member("\"typ\""@, self.typ.json())]);
        Ok(obj_text(&ms))
    }
}

/// The envelope with a typed body.
#[derive(Clone, Debug, PartialEq)]
pub struct PacketSer<B> {
    /// see `PacketType`
    pub typ: Option<i32>,
    /// sequence number
    pub sn: Option<i64>,
    pub body: Option<B>,
    /// acknowledged sequence number
    pub ack: Option<i64>,
}

pub open spec fn opt_i32_int(v: Option<i32>) -> Option<int> {
    match v {
        Some(x) => Some(x as int),
        None => None,
    }
}

pub open spec fn opt_i64_int(v: Option<i64>) -> Option<int> {
    match v {
        Some(x) => Some(x as int),
        None => None,
    }
}

fn widen_i32(v: Option<i32>) -> (r: Option<i64>)
    ensures
        opt_i64_int(r) == opt_i32_int(v),
{
    match v {
        Some(x) => Some(x as i64),
        None => None,
    }
}

impl<B: JsonBody> JsonBody for PacketSer<B> {
    open spec fn json(&self) -> Seq<char> {
        json_obj(
            opt_int_m("\"typ\""@, opt_i32_int(self.typ)) + opt_int_m(
                "\"sn\""@,
                opt_i64_int(self.sn),
            ) + opt_raw_m("\"body\""@, opt_json(self.body)) + opt_int_m(
                "\"ack\""@,
                opt_i64_int(self.ack),
            ),
        )
    }

    fn to_json(&self) -> (r: Result<String, serde_json::Error>) {
        let body = opt_value_member("\"body\"", &self.body)?;
        let mut ms: Vec<String> = Vec::new();
        push_opt_member(&mut ms, opt_int_member_text("\"typ\"", widen_i32(self.typ)));
        push_opt_member(&mut ms, opt_int_member_text("\"sn\"", self.sn));
        push_opt_member(&mut ms, body);
        push_opt_member(&mut ms, opt_int_member_text("\"ack\"", self.ack));
        assert(texts(ms@) =~= opt_int_m("\"typ\""@, opt_i32_int(self.typ)) + opt_int_m(
            "\"sn\""@,
            opt_i64_int(self.sn),
        ) + opt_raw_m("\"body\""@, opt_json(self.body)) + opt_int_m(
            "\"ack\""@,
            opt_i64_int(self.ack),
        ));
        Ok(obj_text(&ms))
    }
}

/// Request kind of opening a session.
#[derive(Clone, Debug, PartialEq)]
pub enum OpenTypeSer<T> {
    Open(T),
}

impl<T: JsonBody> JsonBody for OpenTypeSer<T> {
    open spec fn json(&self) -> Seq<char> {
        match self {
            OpenTypeSer::Open(t) => tagged("\"Open\""@, t.json()),
        }
    }

    fn to_json(&self) -> (r: Result<String, serde_json::Error>) {
        match self {
            OpenTypeSer::Open(t) => {
                let inner = t.to_json()?;
                Ok(tagged_text("\"Open\"", inner.as_str()))
            },
        }
    }
}

/// Opening a session. `UTREE` renders the initial user tree, `DEVICE` the
/// device map of the client information.
#[derive(Clone, Debug, PartialEq)]
pub struct OpenSessionRequestSer<'a, UTREE, DEVICE> {
    pub user_id: &'a str,
    pub room_id: &'a str,
    pub client_info: Option<ClientInfoSer<'a, DEVICE>>,
    pub token: Option<&'a str>,
    pub user_ext: Option<&'a str>,
    pub user_tree: Option<UTREE>,
    pub batch: Option<bool>,
}

impl<'a, UTREE: JsonBody, DEVICE: JsonBody> JsonBody for OpenSessionRequestSer<'a, UTREE, DEVICE> {
    open spec fn json(&self) -> Seq<char> {
        json_obj(
            seq![str_m("\"user_id\""@, self.user_id@)]
            + seq![str_m("\"room_id\""@, self.room_id@)]
            + opt_raw_m("\"client_info\""@, opt_json(self.client_info))
            + opt_str_m("\"token\""@, opt_chars(self.token))
            + opt_str_m("\"user_ext\""@, opt_chars(self.user_ext))
            + opt_raw_m("\"user_tree\""@, opt_json(self.user_tree))
            + opt_bool_m("\"batch\""@, self.batch)
        )
    }

    fn to_json(&self) -> (r: Result<String, serde_json::Error>) {
        let mut ms: Vec<String> = Vec::new();
        push_member(&mut ms, str_member("\"user_id\"", self.user_id)?);
        push_member(&mut ms, str_member("\"room_id\"", self.room_id)?);
        push_opt_member(&mut ms, opt_value_member("\"client_info\"", &self.client_info)?);
        push_opt_member(&mut ms, opt_str_member_text("\"token\"", self.token)?);
        push_opt_member(&mut ms, opt_str_member_text("\"user_ext\"", self.user_ext)?);
        push_opt_member(&mut ms, opt_value_member("\"user_tree\"", &self.user_tree)?);
        push_opt_member(&mut ms, opt_bool_member_text("\"batch\"", self.batch));
        assert(texts(ms@) =~= seq![str_m("\"user_id\""@, self.user_id@)]
            + seq![str_m("\"room_id\""@, self.room_id@)]
            + opt_raw_m("\"client_info\""@, opt_json(self.client_info))
            + opt_str_m("\"token\""@, opt_chars(self.token))
            + opt_str_m("\"user_ext\""@, opt_chars(self.user_ext))
            + opt_raw_m("\"user_tree\""@, opt_json(self.user_tree))
            + opt_bool_m("\"batch\""@, self.batch));
        Ok(obj_text(&ms))
    }
}

impl<'a, UTREE, DEVICE> OpenSessionRequestSer<'a, UTREE, DEVICE> {
    /// The request framed as `{"typ":{"Open":...}}`.
    fn into_msg(self) -> (r: ClientRequestSer<OpenTypeSer<Self>>)
        ensures
            r.typ == OpenTypeSer::Open(self),
    {
        ClientRequestSer { typ: OpenTypeSer::Open(self) }
    }

    /// The framed request carried as JSON text.
    pub fn into_body(self) -> (r: JsonDisplay<ClientRequestSer<OpenTypeSer<Self>>>)
        ensures
            r.0.typ == OpenTypeSer::Open(self),
    {
        JsonDisplay(self.into_msg())
    }
}

/// What the client tells about itself.
#[derive(Clone, Debug, PartialEq)]
pub struct ClientInfoSer<'a, DEVICE = StrMapSer<'a>> {
    /// platform, such as Android / iOS / Windows
    pub platform: Option<&'a str>,
    pub sdk: Option<SdkInfoSer<'a>>,
    /// platform specific device information, as key/value pairs
    pub device: Option<DEVICE>,
}

impl<'a, DEVICE: JsonBody> JsonBody for ClientInfoSer<'a, DEVICE> {
    open spec fn json(&self) -> Seq<char> {
        json_obj(
            opt_str_m("\"platform\""@, opt_chars(self.platform))
            + opt_raw_m("\"sdk\""@, opt_json(self.sdk))
            + opt_raw_m("\"device\""@, opt_json(self.device))
        )
    }

    fn to_json(&self) -> (r: Result<String, serde_json::Error>) {
        let mut ms: Vec<String> = Vec::new();
        push_opt_member(&mut ms, opt_str_member_text("\"platform\"", self.platform)?);
        push_opt_member(&mut ms, opt_value_member("\"sdk\"", &self.sdk)?);
        push_opt_member(&mut ms, opt_value_member("\"device\"", &self.device)?);
        assert(texts(ms@) =~= opt_str_m("\"platform\""@, opt_chars(self.platform))
            + opt_raw_m("\"sdk\""@, opt_json(self.sdk))
            + opt_raw_m("\"device\""@, opt_json(self.device)));
        Ok(obj_text(&ms))
    }
}

#[derive(Clone, Debug, PartialEq)]
pub struct SdkInfoSer<'a> {
    pub name: Option<&'a str>,
    pub version: Option<&'a str>,
}

impl<'a> JsonBody for SdkInfoSer<'a> {
    open spec fn json(&self) -> Seq<char> {
        json_obj(
            opt_str_m("\"name\""@, opt_chars(self.name))
            + opt_str_m("\"version\""@, opt_chars(self.version))
        )
    }

    fn to_json(&self) -> (r: Result<String, serde_json::Error>) {
        let mut ms: Vec<String> = Vec::new();
        push_opt_member(&mut ms, opt_str_member_text("\"name\"", self.name)?);
        push_opt_member(&mut ms, opt_str_member_text("\"version\"", self.version)?);
        assert(texts(ms@) =~= opt_str_m("\"name\""@, opt_chars(self.name))
            + opt_str_m("\"version\""@, opt_chars(self.version)));
        Ok(obj_text(&ms))
    }
}

/// Request kind of resuming a session.
#[derive(Clone, Debug, PartialEq)]
pub enum ReconnTypeSer<T> {
    Reconn(T),
}

impl<T: JsonBody> JsonBody for ReconnTypeSer<T> {
    open spec fn json(&self) -> Seq<char> {
        match self {
            ReconnTypeSer::Reconn(t) => tagged("\"Reconn\""@, t.json()),
        }
    }

    fn to_json(&self) -> (r: Result<String, serde_json::Error>) {
        match self {
            ReconnTypeSer::Reconn(t) => {
                let inner = t.to_json()?;
                Ok(tagged_text("\"Reconn\"", inner.as_str()))
            },
        }
    }
}

/// Resuming a session after the connection dropped.
#[derive(Clone, Debug, PartialEq)]
pub struct ReconnectRequestSer<'a> {
    pub session_id: &'a str,
    pub token: Option<&'a str>,
    /// number of this attempt, from 1 up, counted whether or not it succeeds
    pub try_seq: i64,
    /// `try_seq` of the last attempt that succeeded, 0 at first
    pub last_success_seq: i64,
    /// always 20250901
    pub magic: i32,
}

impl<'a> JsonBody for ReconnectRequestSer<'a> {
    open spec fn json(&self) -> Seq<char> {
        json_obj(
            seq![str_m("\"session_id\""@, self.session_id@)]
            + opt_str_m("\"token\""@, opt_chars(self.token))
            + seq![int_m("\"try_seq\""@, self.try_seq as int)]
            + seq![int_m("\"last_success_seq\""@, self.last_success_seq as int)]
            + seq![int_m("\"magic\""@, self.magic as int)]
        )
    }

    fn to_json(&self) -> (r: Result<String, serde_json::Error>) {
        let mut ms: Vec<String> = Vec::new();
        push_member(&mut ms, str_member("\"session_id\"", self.session_id)?);
        push_opt_member(&mut ms, opt_str_member_text("\"token\"", self.token)?);
        push_member(&mut ms, int_member("\"try_seq\"", self.try_seq as i64));
        push_member(&mut ms, int_member("\"last_success_seq\"", self.last_success_seq as i64));
        push_member(&mut ms, int_member("\"magic\"", self.magic as i64));
        assert(texts(ms@) =~= seq![str_m("\"session_id\""@, self.session_id@)]
            + opt_str_m("\"token\""@, opt_chars(self.token))
            + seq![int_m("\"try_seq\""@, self.try_seq as int)]
            + seq![int_m("\"last_success_seq\""@, self.last_success_seq as int)]
            + seq![int_m("\"magic\""@, self.magic as int)]);
        Ok(obj_text(&ms))
    }
}

impl<'a> ReconnectRequestSer<'a> {
    /// The request framed as `{"typ":{"Reconn":...}}`.
    fn into_msg(self) -> (r: ClientRequestSer<ReconnTypeSer<Self>>)
        ensures
            r.typ == ReconnTypeSer::Reconn(self),
    {
        ClientRequestSer { typ: ReconnTypeSer::Reconn(self) }
    }

    /// The framed request carried as JSON text.
    pub fn into_body(self) -> (r: JsonDisplay<ClientRequestSer<ReconnTypeSer<Self>>>)
        ensures
            r.0.typ == ReconnTypeSer::Reconn(self),
    {
        JsonDisplay(self.into_msg())
    }
}

/// One operation on the user tree, borrowed.
#[derive(Clone, Debug, PartialEq)]
pub struct UpdateTreeRequestSer<'a> {
    pub path: Option<&'a str>,
    pub value: Option<&'a str>,
    pub prune: Option<bool>,
}

impl<'a> UpdateTreeRequestSer<'a> {
    /// Borrows the fields of an owned tree operation.
    pub fn from_request(src: &'a UpdateTreeRequest) -> (r: Self)
        ensures
            opt_chars(r.path) == match src.path {
                Some(p) => Some(p@),
                None => None,
            },
            opt_chars(r.value) == match src.value {
                Some(v) => Some(v@),
                None => None,
            },
            r.prune == src.prune,
    {
        let path = match &src.path {
            Some(p) => Some(p.as_str()),
            None => None,
        };
        let value = match &src.value {
            Some(v) => Some(v.as_str()),
            None => None,
        };
        UpdateTreeRequestSer { path, value, prune: src.prune }
    }
}

impl<'a> JsonBody for UpdateTreeRequestSer<'a> {
    open spec fn json(&self) -> Seq<char> {
        json_obj(
            opt_str_m("\"path\""@, opt_chars(self.path))
            + opt_str_m("\"value\""@, opt_chars(self.value))
            + opt_bool_m("\"prune\""@, self.prune)
        )
    }

    fn to_json(&self) -> (r: Result<String, serde_json::Error>) {
        let mut ms: Vec<String> = Vec::new();
        push_opt_member(&mut ms, opt_str_member_text("\"path\"", self.path)?);
        push_opt_member(&mut ms, opt_str_member_text("\"value\"", self.value)?);
        push_opt_member(&mut ms, opt_bool_member_text("\"prune\"", self.prune));
        assert(texts(ms@) =~= opt_str_m("\"path\""@, opt_chars(self.path))
            + opt_str_m("\"value\""@, opt_chars(self.value))
            + opt_bool_m("\"prune\""@, self.prune));
        Ok(obj_text(&ms))
    }
}

/// Request kind of creating a transport.
#[derive(Clone, Debug, PartialEq)]
pub enum CreateXTypeSer<T> {
    CreateX(T),
}

impl<T: JsonBody> JsonBody for CreateXTypeSer<T> {
    open spec fn json(&self) -> Seq<char> {
        match self {
            CreateXTypeSer::CreateX(t) => tagged("\"CreateX\""@, t.json()),
        }
    }

    fn to_json(&self) -> (r: Result<String, serde_json::Error>) {
        match self {
            CreateXTypeSer::CreateX(t) => {
                let inner = t.to_json()?;
                Ok(tagged_text("\"CreateX\"", inner.as_str()))
            },
        }
    }
}

/// Creating a WebRTC transport; `DTLS` renders the client's DTLS
/// parameters.
#[derive(Clone, Debug, PartialEq)]
pub struct CreateWebrtcTransportRequestSer<'a, DTLS> {
    pub room_id: &'a str,
    /// see `Direction`
    pub dir: i32,
    /// see `MediaKind`
    pub kind: i32,
    pub dtls: Option<DTLS>,
}

impl<'a, DTLS: JsonBody> JsonBody for CreateWebrtcTransportRequestSer<'a, DTLS> {
    open spec fn json(&self) -> Seq<char> {
        json_obj(
            seq![str_m("\"roomId\""@, self.room_id@)]
            + seq![int_m("\"dir\""@, self.dir as int)]
            + seq![int_m("\"kind\""@, self.kind as int)]
            + opt_raw_m("\"dtls\""@, opt_json(self.dtls))
        )
    }

    fn to_json(&self) -> (r: Result<String, serde_json::Error>) {
        let mut ms: Vec<String> = Vec::new();
        push_member(&mut ms, str_member("\"roomId\"", self.room_id)?);
        push_member(&mut ms, int_member("\"dir\"", self.dir as i64));
        push_member(&mut ms, int_member("\"kind\"", self.kind as i64));
        push_opt_member(&mut ms, opt_value_member("\"dtls\"", &self.dtls)?);
        assert(texts(ms@) =~= seq![str_m("\"roomId\""@, self.room_id@)]
            + seq![int_m("\"dir\""@, self.dir as int)]
            + seq![int_m("\"kind\""@, self.kind as int)]
            + opt_raw_m("\"dtls\""@, opt_json(self.dtls)));
        Ok(obj_text(&ms))
    }
}

impl<'a, DTLS> CreateWebrtcTransportRequestSer<'a, DTLS> {
    /// The request framed as `{"typ":{"CreateX":...}}`.
    pub fn into_msg(self) -> (r: ClientRequestSer<CreateXTypeSer<Self>>)
        ensures
            r.typ == CreateXTypeSer::CreateX(self),
    {
        ClientRequestSer { typ: CreateXTypeSer::CreateX(self) }
    }

    /// The framed request carried as JSON text.
    pub fn into_body(self) -> (r: JsonDisplay<ClientRequestSer<CreateXTypeSer<Self>>>)
        ensures
            r.0.typ == CreateXTypeSer::CreateX(self),
    {
        JsonDisplay(self.into_msg())
    }
}

/// Request kind of connecting a transport.
#[derive(Clone, Debug, PartialEq)]
pub enum ConnXTypeSer<T> {
    ConnX(T),
}

impl<T: JsonBody> JsonBody for ConnXTypeSer<T> {
    open spec fn json(&self) -> Seq<char> {
        match self {
            ConnXTypeSer::ConnX(t) => tagged("\"ConnX\""@, t.json()),
        }
    }

    fn to_json(&self) -> (r: Result<String, serde_json::Error>) {
        match self {
            ConnXTypeSer::ConnX(t) => {
                let inner = t.to_json()?;
                Ok(tagged_text("\"ConnX\"", inner.as_str()))
            },
        }
    }
}

/// Connecting a transport with the client's DTLS parameters.
#[derive(Clone, Debug, PartialEq)]
pub struct ConnectWebrtcTransportRequestSer<'a, DTLS> {
    /// transport id
    pub xid: &'a str,
    pub dtls: Option<DTLS>,
}

impl<'a, DTLS: JsonBody> JsonBody for ConnectWebrtcTransportRequestSer<'a, DTLS> {
    open spec fn json(&self) -> Seq<char> {
        json_obj(
            seq![str_m("\"xid\""@, self.xid@)]
            + opt_raw_m("\"dtls\""@, opt_json(self.dtls))
        )
    }

    fn to_json(&self) -> (r: Result<String, serde_json::Error>) {
        let mut ms: Vec<String> = Vec::new();
        push_member(&mut ms, str_member("\"xid\"", self.xid)?);
        push_opt_member(&mut ms, opt_value_member("\"dtls\"", &self.dtls)?);
        assert(texts(ms@) =~= seq![str_m("\"xid\""@, self.xid@)]
            + opt_raw_m("\"dtls\""@, opt_json(self.dtls)));
        Ok(obj_text(&ms))
    }
}

impl<'a, DTLS> ConnectWebrtcTransportRequestSer<'a, DTLS> {
    /// The request framed as `{"typ":{"ConnX":...}}`.
    pub fn into_msg(self) -> (r: ClientRequestSer<ConnXTypeSer<Self>>)
        ensures
            r.typ == ConnXTypeSer::ConnX(self),
    {
        ClientRequestSer { typ: ConnXTypeSer::ConnX(self) }
    }
}

/// An ICE candidate; the protocol and the two kinds are given by their
/// wire names (`udp`/`tcp`, `host`, `passive`).
#[derive(Clone, Debug, PartialEq, Eq, Hash, PartialOrd, Ord)]
pub struct IceCandidateSer<'a> {
    /// identifier that lets ICE correlate candidates seen on several transports
    pub foundation: &'a str,
    pub priority: u32,
    /// IP address or host name
    pub ip: &'a str,
    pub protocol: &'a str,
    pub port: u16,
    /// candidate type (always `host`)
    pub candidate_type: &'a str,
    /// TCP candidate type (always `passive`)
    pub tcp_type: Option<&'a str>,
}

impl<'a> JsonBody for IceCandidateSer<'a> {
    open spec fn json(&self) -> Seq<char> {
        json_obj(
            seq![str_m("\"foundation\""@, self.foundation@)]
            + seq![int_m("\"priority\""@, self.priority as int)]
            + seq![str_m("\"ip\""@, self.ip@)]
            + seq![str_m("\"protocol\""@, self.protocol@)]
            + seq![int_m("\"port\""@, self.port as int)]
            + seq![str_m("\"type\""@, self.candidate_type@)]
            + opt_str_m("\"tcpType\""@, opt_chars(self.tcp_type))
        )
    }

    fn to_json(&self) -> (r: Result<String, serde_json::Error>) {
        let mut ms: Vec<String> = Vec::new();
        push_member(&mut ms, str_member("\"foundation\"", self.foundation)?);
        push_member(&mut ms, int_member("\"priority\"", self.priority as i64));
        push_member(&mut ms, str_member("\"ip\"", self.ip)?);
        push_member(&mut ms, str_member("\"protocol\"", self.protocol)?);
        push_member(&mut ms, int_member("\"port\"", self.port as i64));
        push_member(&mut ms, str_member("\"type\"", self.candidate_type)?);
        push_opt_member(&mut ms, opt_str_member_text("\"tcpType\"", self.tcp_type)?);
        assert(texts(ms@) =~= seq![str_m("\"foundation\""@, self.foundation@)]
            + seq![int_m("\"priority\""@, self.priority as int)]
            + seq![str_m("\"ip\""@, self.ip@)]
            + seq![str_m("\"protocol\""@, self.protocol@)]
            + seq![int_m("\"port\""@, self.port as int)]
            + seq![str_m("\"type\""@, self.candidate_type@)]
            + opt_str_m("\"tcpType\""@, opt_chars(self.tcp_type)));
        Ok(obj_text(&ms))
    }
}

/// Request kind of publishing a stream.
#[derive(Clone, Debug, PartialEq)]
pub enum PublishTypeSer<T> {
    Pub(T),
}

impl<T: JsonBody> JsonBody for PublishTypeSer<T> {
    open spec fn json(&self) -> Seq<char> {
        match self {
            PublishTypeSer::Pub(t) => tagged("\"Pub\""@, t.json()),
        }
    }

    fn to_json(&self) -> (r: Result<String, serde_json::Error>) {
        match self {
            PublishTypeSer::Pub(t) => {
                let inner = t.to_json()?;
                Ok(tagged_text("\"Pub\"", inner.as_str()))
            },
        }
    }
}

/// Publishing a stream; `RTP` renders the RTP parameters.
#[derive(Clone, Debug, PartialEq)]
pub struct PublishRequestSer<'a, RTP> {
    pub room_id: &'a str,
    /// sending transport id
    pub xid: &'a str,
    pub stream_id: &'a str,
    /// stream type
    pub stype: i32,
    pub rtp: Option<RTP>,
    /// see `AudioType`
    pub audio_type: i32,
    pub muted: Option<bool>,
}

impl<'a, RTP: JsonBody> JsonBody for PublishRequestSer<'a, RTP> {
    open spec fn json(&self) -> Seq<char> {
        json_obj(
            seq![str_m("\"roomId\""@, self.room_id@)]
            + seq![str_m("\"xid\""@, self.xid@)]
            + seq![str_m("\"streamId\""@, self.stream_id@)]
            + seq![int_m("\"stype\""@, self.stype as int)]
            + opt_raw_m("\"rtp\""@, opt_json(self.rtp))
            + seq![int_m("\"audioType\""@, self.audio_type as int)]
            + opt_bool_m("\"muted\""@, self.muted)
        )
    }

    fn to_json(&self) -> (r: Result<String, serde_json::Error>) {
        let mut ms: Vec<String> = Vec::new();
        push_member(&mut ms, str_member("\"roomId\"", self.room_id)?);
        push_member(&mut ms, str_member("\"xid\"", self.xid)?);
        push_member(&mut ms, str_member("\"streamId\"", self.stream_id)?);
        push_member(&mut ms, int_member("\"stype\"", self.stype as i64));
        push_opt_member(&mut ms, opt_value_member("\"rtp\"", &self.rtp)?);
        push_member(&mut ms, int_member("\"audioType\"", self.audio_type as i64));
        push_opt_member(&mut ms, opt_bool_member_text("\"muted\"", self.muted));
        assert(texts(ms@) =~= seq![str_m("\"roomId\""@, self.room_id@)]
            + seq![str_m("\"xid\""@, self.xid@)]
            + seq![str_m("\"streamId\""@, self.stream_id@)]
            + seq![int_m("\"stype\""@, self.stype as int)]
            + opt_raw_m("\"rtp\""@, opt_json(self.rtp))
            + seq![int_m("\"audioType\""@, self.audio_type as int)]
            + opt_bool_m("\"muted\""@, self.muted));
        Ok(obj_text(&ms))
    }
}

impl<'a, RTP> PublishRequestSer<'a, RTP> {
    /// The request framed as `{"typ":{"Pub":...}}`.
    pub fn into_msg(self) -> (r: ClientRequestSer<PublishTypeSer<Self>>)
        ensures
            r.typ == PublishTypeSer::Pub(self),
    {
        ClientRequestSer { typ: PublishTypeSer::Pub(self) }
    }
}

/// Request kind of unpublishing a stream.
#[derive(Clone, Debug, PartialEq)]
pub enum UnPublishTypeSer<T> {
    UPub(T),
}

impl<T: JsonBody> JsonBody for UnPublishTypeSer<T> {
    open spec fn json(&self) -> Seq<char> {
        match self {
            UnPublishTypeSer::UPub(t) => tagged("\"UPub\""@, t.json()),
        }
    }

    fn to_json(&self) -> (r: Result<String, serde_json::Error>) {
        match self {
            UnPublishTypeSer::UPub(t) => {
                let inner = t.to_json()?;
                Ok(tagged_text("\"UPub\"", inner.as_str()))
            },
        }
    }
}

/// Unpublishing a stream, named by producer id or stream id.
#[derive(Clone, Debug, PartialEq)]
pub struct UnPublishRequestSer<'a> {
    pub room_id: &'a str,
    pub producer_id: Option<&'a str>,
    pub stream_id: Option<&'a str>,
}

impl<'a> JsonBody for UnPublishRequestSer<'a> {
    open spec fn json(&self) -> Seq<char> {
        json_obj(
            seq![str_m("\"roomId\""@, self.room_id@)]
            + opt_str_m("\"producerId\""@, opt_chars(self.producer_id))
            + opt_str_m("\"streamId\""@, opt_chars(self.stream_id))
        )
    }

    fn to_json(&self) -> (r: Result<String, serde_json::Error>) {
        let mut ms: Vec<String> = Vec::new();
        push_member(&mut ms, str_member("\"roomId\"", self.room_id)?);
        push_opt_member(&mut ms, opt_str_member_text("\"producerId\"", self.producer_id)?);
        push_opt_member(&mut ms, opt_str_member_text("\"streamId\"", self.stream_id)?);
        assert(texts(ms@) =~= seq![str_m("\"roomId\""@, self.room_id@)]
            + opt_str_m("\"producerId\""@, opt_chars(self.producer_id))
            + opt_str_m("\"streamId\""@, opt_chars(self.stream_id)));
        Ok(obj_text(&ms))
    }
}

impl<'a> UnPublishRequestSer<'a> {
    /// The request framed as `{"typ":{"UPub":...}}`.
    pub fn into_msg(self) -> (r: ClientRequestSer<UnPublishTypeSer<Self>>)
        ensures
            r.typ == UnPublishTypeSer::UPub(self),
    {
        ClientRequestSer { typ: UnPublishTypeSer::UPub(self) }
    }
}

/// Request kind of muting a stream.
#[derive(Clone, Debug, PartialEq)]
pub enum MuteTypeSer<T> {
    Mute(T),
}

impl<T: JsonBody> JsonBody for MuteTypeSer<T> {
    open spec fn json(&self) -> Seq<char> {
        match self {
            MuteTypeSer::Mute(t) => tagged("\"Mute\""@, t.json()),
        }
    }

    fn to_json(&self) -> (r: Result<String, serde_json::Error>) {
        match self {
            MuteTypeSer::Mute(t) => {
                let inner = t.to_json()?;
                Ok(tagged_text("\"Mute\"", inner.as_str()))
            },
        }
    }
}

/// Muting or unmuting a stream.
#[derive(Clone, Debug, PartialEq)]
pub struct MuteRequestSer<'a> {
    pub room_id: &'a str,
    pub producer_id: Option<&'a str>,
    pub stream_id: Option<&'a str>,
    pub muted: bool,
}

impl<'a> JsonBody for MuteRequestSer<'a> {
    open spec fn json(&self) -> Seq<char> {
        json_obj(
            seq![str_m("\"roomId\""@, self.room_id@)]
            + opt_str_m("\"producerId\""@, opt_chars(self.producer_id))
            + opt_str_m("\"streamId\""@, opt_chars(self.stream_id))
            + seq![bool_m("\"muted\""@, self.muted)]
        )
    }

    fn to_json(&self) -> (r: Result<String, serde_json::Error>) {
        let mut ms: Vec<String> = Vec::new();
        push_member(&mut ms, str_member("\"roomId\"", self.room_id)?);
        push_opt_member(&mut ms, opt_str_member_text("\"producerId\"", self.producer_id)?);
        push_opt_member(&mut ms, opt_str_member_text("\"streamId\"", self.stream_id)?);
        push_member(&mut ms, bool_member("\"muted\"", self.muted));
        assert(texts(ms@) =~= seq![str_m("\"roomId\""@, self.room_id@)]
            + opt_str_m("\"producerId\""@, opt_chars(self.producer_id))
            + opt_str_m("\"streamId\""@, opt_chars(self.stream_id))
            + seq![bool_m("\"muted\""@, self.muted)]);
        Ok(obj_text(&ms))
    }
}

impl<'a> MuteRequestSer<'a> {
    /// The request framed as `{"typ":{"Mute":...}}`.
    pub fn into_msg(self) -> (r: ClientRequestSer<MuteTypeSer<Self>>)
        ensures
            r.typ == MuteTypeSer::Mute(self),
    {
        ClientRequestSer { typ: MuteTypeSer::Mute(self) }
    }
}

/// Request kind of subscribing to a stream.
#[derive(Clone, Debug, PartialEq)]
pub enum SubTypeSer<T> {
    Sub(T),
}

impl<T: JsonBody> JsonBody for SubTypeSer<T> {
    open spec fn json(&self) -> Seq<char> {
        match self {
            SubTypeSer::Sub(t) => tagged("\"Sub\""@, t.json()),
        }
    }

    fn to_json(&self) -> (r: Result<String, serde_json::Error>) {
        match self {
            SubTypeSer::Sub(t) => {
                let inner = t.to_json()?;
                Ok(tagged_text("\"Sub\"", inner.as_str()))
            },
        }
    }
}

/// Subscribing to a stream of another user.
#[derive(Clone, Debug, PartialEq)]
pub struct SubscribeRequestSer<'a> {
    pub room_id: &'a str,
    pub stream_id: &'a str,
    pub producer_id: &'a str,
    /// receiving transport id
    pub xid: &'a str,
    /// spatial / temporal layer
    pub preferred_layers: Option<PreferredLayers>,
}

impl JsonBody for PreferredLayers {
    open spec fn json(&self) -> Seq<char> {
        json_obj(
            seq![int_m("\"spatialLayer\""@, self.spatial_layer as int)]
            + seq![int_m("\"temporalLayer\""@, self.temporal_layer as int)]
        )
    }

    fn to_json(&self) -> (r: Result<String, serde_json::Error>) {
        let mut ms: Vec<String> = Vec::new();
        push_member(&mut ms, int_member("\"spatialLayer\"", self.spatial_layer as i64));
        push_member(&mut ms, int_member("\"temporalLayer\"", self.temporal_layer as i64));
        assert(texts(ms@) =~= seq![int_m("\"spatialLayer\""@, self.spatial_layer as int)]
            + seq![int_m("\"temporalLayer\""@, self.temporal_layer as int)]);
        Ok(obj_text(&ms))
    }
}

impl<'a> JsonBody for SubscribeRequestSer<'a> {
    open spec fn json(&self) -> Seq<char> {
        json_obj(
            seq![str_m("\"roomId\""@, self.room_id@)]
            + seq![str_m("\"streamId\""@, self.stream_id@)]
            + seq![str_m("\"producerId\""@, self.producer_id@)]
            + seq![str_m("\"xid\""@, self.xid@)]
            + opt_raw_m("\"preferredLayers\""@, opt_json(self.preferred_layers))
        )
    }

    fn to_json(&self) -> (r: Result<String, serde_json::Error>) {
        let mut ms: Vec<String> = Vec::new();
        push_member(&mut ms, str_member("\"roomId\"", self.room_id)?);
        push_member(&mut ms, str_member("\"streamId\"", self.stream_id)?);
        push_member(&mut ms, str_member("\"producerId\"", self.producer_id)?);
        push_member(&mut ms, str_member("\"xid\"", self.xid)?);
        push_opt_member(&mut ms, opt_value_member("\"preferredLayers\"", &self.preferred_layers)?);
        assert(texts(ms@) =~= seq![str_m("\"roomId\""@, self.room_id@)]
            + seq![str_m("\"streamId\""@, self.stream_id@)]
            + seq![str_m("\"producerId\""@, self.producer_id@)]
            + seq![str_m("\"xid\""@, self.xid@)]
            + opt_raw_m("\"preferredLayers\""@, opt_json(self.preferred_layers)));
        Ok(obj_text(&ms))
    }
}

impl<'a> SubscribeRequestSer<'a> {
    /// The request framed as `{"typ":{"Sub":...}}`.
    pub fn into_msg(self) -> (r: ClientRequestSer<SubTypeSer<Self>>)
        ensures
            r.typ == SubTypeSer::Sub(self),
    {
        ClientRequestSer { typ: SubTypeSer::Sub(self) }
    }

    /// The framed request carried as JSON text.
    pub fn into_body(self) -> (r: JsonDisplay<ClientRequestSer<SubTypeSer<Self>>>)
        ensures
            r.0.typ == SubTypeSer::Sub(self),
    {
        JsonDisplay(self.into_msg())
    }
}

/// Request kind of unsubscribing.
#[derive(Clone, Debug, PartialEq)]
pub enum USubTypeSer<T> {
    USub(T),
}

impl<T: JsonBody> JsonBody for USubTypeSer<T> {
    open spec fn json(&self) -> Seq<char> {
        match self {
            USubTypeSer::USub(t) => tagged("\"USub\""@, t.json()),
        }
    }

    fn to_json(&self) -> (r: Result<String, serde_json::Error>) {
        match self {
            USubTypeSer::USub(t) => {
                let inner = t.to_json()?;
                Ok(tagged_text("\"USub\"", inner.as_str()))
            },
        }
    }
}

/// Ending a subscription.
#[derive(Clone, Debug, PartialEq)]
pub struct UnsubscribeRequestSer<'a> {
    pub room_id: &'a str,
    pub consumer_id: &'a str,
}

impl<'a> JsonBody for UnsubscribeRequestSer<'a> {
    open spec fn json(&self) -> Seq<char> {
        json_obj(
            seq![str_m("\"roomId\""@, self.room_id@)]
            + seq![str_m("\"consumerId\""@, self.consumer_id@)]
        )
    }

    fn to_json(&self) -> (r: Result<String, serde_json::Error>) {
        let mut ms: Vec<String> = Vec::new();
        push_member(&mut ms, str_member("\"roomId\"", self.room_id)?);
        push_member(&mut ms, str_member("\"consumerId\"", self.consumer_id)?);
        assert(texts(ms@) =~= seq![str_m("\"roomId\""@, self.room_id@)]
            + seq![str_m("\"consumerId\""@, self.consumer_id@)]);
        Ok(obj_text(&ms))
    }
}

impl<'a> UnsubscribeRequestSer<'a> {
    /// The request framed as `{"typ":{"USub":...}}`.
    pub fn into_msg(self) -> (r: ClientRequestSer<USubTypeSer<Self>>)
        ensures
            r.typ == USubTypeSer::USub(self),
    {
        ClientRequestSer { typ: USubTypeSer::USub(self) }
    }

    /// The framed request carried as JSON text.
    pub fn into_body(self) -> (r: JsonDisplay<ClientRequestSer<USubTypeSer<Self>>>)
        ensures
            r.0.typ == USubTypeSer::USub(self),
    {
        JsonDisplay(self.into_msg())
    }
}

/// Ends a batch of requests.
#[derive(Clone, Debug, PartialEq)]
pub struct BatchEndRequestSer {}

impl JsonBody for BatchEndRequestSer {
    open spec fn json(&self) -> Seq<char> {
        empty_obj()
    }

    fn to_json(&self) -> (r: Result<String, serde_json::Error>) {
        Ok(empty_obj_text())
    }
}

impl BatchEndRequestSer {
    /// The request framed as `{"typ":{"BEnd":...}}`.
    pub fn into_msg(self) -> (r: ClientRequestSer<BatchEndTypeSer<Self>>)
        ensures
            r.typ == BatchEndTypeSer::BEnd(self),
    {
        ClientRequestSer { typ: BatchEndTypeSer::BEnd(self) }
    }

    /// The framed request carried as JSON text.
    pub fn into_body(self) -> (r: JsonDisplay<ClientRequestSer<BatchEndTypeSer<Self>>>)
        ensures
            r.0.typ == BatchEndTypeSer::BEnd(self),
    {
        JsonDisplay(self.into_msg())
    }
}

/// Request kind of ending a batch.
#[derive(Clone, Debug, PartialEq)]
pub enum BatchEndTypeSer<T> {
    BEnd(T),
}

impl<T: JsonBody> JsonBody for BatchEndTypeSer<T> {
    open spec fn json(&self) -> Seq<char> {
        match self {
            BatchEndTypeSer::BEnd(t) => tagged("\"BEnd\""@, t.json()),
        }
    }

    fn to_json(&self) -> (r: Result<String, serde_json::Error>) {
        match self {
            BatchEndTypeSer::BEnd(t) => {
                let inner = t.to_json()?;
                Ok(tagged_text("\"BEnd\"", inner.as_str()))
            },
        }
    }
}

/// A heartbeat.
#[derive(Clone, Debug, PartialEq)]
pub struct HeartbeatRequestSer {}

impl JsonBody for HeartbeatRequestSer {
    open spec fn json(&self) -> Seq<char> {
        empty_obj()
    }

    fn to_json(&self) -> (r: Result<String, serde_json::Error>) {
        Ok(empty_obj_text())
    }
}

impl HeartbeatRequestSer {
    /// The request framed as `{"typ":{"HB":...}}`.
    pub fn into_msg(self) -> (r: ClientRequestSer<HeartbeatTypeSer<Self>>)
        ensures
            r.typ == HeartbeatTypeSer::HB(self),
    {
        ClientRequestSer { typ: HeartbeatTypeSer::HB(self) }
    }

    /// The framed request carried as JSON text.
    pub fn into_body(self) -> (r: JsonDisplay<ClientRequestSer<HeartbeatTypeSer<Self>>>)
        ensures
            r.0.typ == HeartbeatTypeSer::HB(self),
    {
        JsonDisplay(self.into_msg())
    }
}

/// Request kind of a heartbeat.
#[derive(Clone, Debug, PartialEq)]
pub enum HeartbeatTypeSer<T> {
    HB(T),
}

impl<T: JsonBody> JsonBody for HeartbeatTypeSer<T> {
    open spec fn json(&self) -> Seq<char> {
        match self {
            HeartbeatTypeSer::HB(t) => tagged("\"HB\""@, t.json()),
        }
    }

    fn to_json(&self) -> (r: Result<String, serde_json::Error>) {
        match self {
            HeartbeatTypeSer::HB(t) => {
                let inner = t.to_json()?;
                Ok(tagged_text("\"HB\"", inner.as_str()))
            },
        }
    }
}

/// Request kind of closing the session.
#[derive(Clone, Debug, PartialEq)]
pub enum CloseSessionTypeSer<T> {
    Close(T),
}

impl<T: JsonBody> JsonBody for CloseSessionTypeSer<T> {
    open spec fn json(&self) -> Seq<char> {
        match self {
            CloseSessionTypeSer::Close(t) => tagged("\"Close\""@, t.json()),
        }
    }

    fn to_json(&self) -> (r: Result<String, serde_json::Error>) {
        match self {
            CloseSessionTypeSer::Close(t) => {
                let inner = t.to_json()?;
                Ok(tagged_text("\"Close\"", inner.as_str()))
            },
        }
    }
}

/// Leaving the room, and ending it when `end` is set.
#[derive(Clone, Debug, PartialEq)]
pub struct CloseSessionRequestSer<'a> {
    pub room_id: &'a str,
    pub end: Option<bool>,
}

impl<'a> JsonBody for CloseSessionRequestSer<'a> {
    open spec fn json(&self) -> Seq<char> {
        json_obj(
            seq![str_m("\"room_id\""@, self.room_id@)]
            + opt_bool_m("\"end\""@, self.end)
        )
    }

    fn to_json(&self) -> (r: Result<String, serde_json::Error>) {
        let mut ms: Vec<String> = Vec::new();
        push_member(&mut ms, str_member("\"room_id\"", self.room_id)?);
        push_opt_member(&mut ms, opt_bool_member_text("\"end\"", self.end));
        assert(texts(ms@) =~= seq![str_m("\"room_id\""@, self.room_id@)]
            + opt_bool_m("\"end\""@, self.end));
        Ok(obj_text(&ms))
    }
}

impl<'a> CloseSessionRequestSer<'a> {
    /// The request framed as `{"typ":{"Close":...}}`.
    pub fn into_msg(self) -> (r: ClientRequestSer<CloseSessionTypeSer<Self>>)
        ensures
            r.typ == CloseSessionTypeSer::Close(self),
    {
        ClientRequestSer { typ: CloseSessionTypeSer::Close(self) }
    }

    /// The framed request carried as JSON text.
    pub fn into_body(self) -> (r: JsonDisplay<ClientRequestSer<CloseSessionTypeSer<Self>>>)
        ensures
            r.0.typ == CloseSessionTypeSer::Close(self),
    {
        JsonDisplay(self.into_msg())
    }
}


} // verus!
