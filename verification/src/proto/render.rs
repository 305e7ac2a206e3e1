//! JSON text of the pushes and responses the server side sends.
use vstd::prelude::*;

use super::json::{
    bool_m, bool_member, int_m, int_member, json_null, json_obj, json_str, member, member_text,
    null_text, obj_text, opt_m, quote, raw_or_null, raw_or_null_text, str_m, str_member, texts,
    JsonBody,
};
use super::response::ResponseType;
use super::v1::{
    ChatNoticeRef, ClosedNoticeRef, IdRef, ResponseRef, ServerPushRef, ServerPushTypeRef, Status,
    Stream, TreeStateRef, UserState,
};

verus! {

/// `{"tag":inner}`, the form of an enum variant.
pub open spec fn tagged(tag: Seq<char>, inner: Seq<char>) -> Seq<char> {
    json_obj(seq![member(tag, inner)])
}

pub fn tagged_text(tag: &str, inner: &str) -> (r: String)
    ensures
        r@ == tagged(tag@, inner@),
{
    let mut members: Vec<String> = Vec::new();
    members.push(member_text(tag, inner));
    assert(texts(members@) =~= seq![member(tag@, inner@)]);
    obj_text(&members)
}

/// `{}`.
pub open spec fn empty_obj() -> Seq<char> {
    json_obj(Seq::empty())
}

pub fn empty_obj_text() -> (r: String)
    ensures
        r@ == empty_obj(),
{
    let members: Vec<String> = Vec::new();
    assert(texts(members@) =~= Seq::<Seq<char>>::empty());
    obj_text(&members)
}

pub open spec fn status_json(s: Status) -> Seq<char> {
    json_obj(seq![int_m("\"code\""@, s.code as int), str_m("\"reason\""@, s.reason@)])
}

pub fn status_text(s: &Status) -> (r: Result<String, serde_json::Error>)
    ensures
        r matches Ok(t) && t@ == status_json(*s),
{
    let mut members: Vec<String> = Vec::new();
    members.push(int_member("\"code\"", s.code as i64));
    members.push(str_member("\"reason\"", s.reason.as_str())?);
    assert(texts(members@) =~= seq![
        int_m("\"code\""@, s.code as int),
        str_m("\"reason\""@, s.reason@),
    ]);
    Ok(obj_text(&members))
}

pub open spec fn stream_json(st: Stream) -> Seq<char> {
    json_obj(
        seq![
            int_m("\"seq\""@, st.seq as int),
            int_m("\"stype\""@, st.stype as int),
            str_m("\"producer_id\""@, st.producer_id@),
            bool_m("\"muted\""@, st.muted),
        ],
    )
}

pub fn stream_text(st: &Stream) -> (r: Result<String, serde_json::Error>)
    ensures
        r matches Ok(t) && t@ == stream_json(*st),
{
    let mut members: Vec<String> = Vec::new();
    members.push(int_member("\"seq\"", st.seq));
    members.push(int_member("\"stype\"", st.stype as i64));
    members.push(str_member("\"producer_id\"", st.producer_id.as_str())?);
    members.push(bool_member("\"muted\"", st.muted));
    assert(texts(members@) =~= seq![
        int_m("\"seq\""@, st.seq as int),
        int_m("\"stype\""@, st.stype as int),
        str_m("\"producer_id\""@, st.producer_id@),
        bool_m("\"muted\""@, st.muted),
    ]);
    Ok(obj_text(&members))
}

/// The streams of a user as a JSON object keyed by stream id.
pub open spec fn streams_json(streams: Seq<(String, Stream)>) -> Seq<char> {
    json_obj(streams.map_values(|p: (String, Stream)| member(json_str(p.0@), stream_json(p.1))))
}

pub fn streams_text(streams: &Vec<(String, Stream)>) -> (r: Result<String, serde_json::Error>)
    ensures
        r matches Ok(t) && t@ == streams_json(streams@),
{
    let mut members: Vec<String> = Vec::new();
    let ghost f = |p: (String, Stream)| member(json_str(p.0@), stream_json(p.1));
    let mut i: usize = 0;
    while i < streams.len()
        invariant
            i <= streams.len(),
            texts(members@) =~= streams@.take(i as int).map_values(f),
            f == (|p: (String, Stream)| member(json_str(p.0@), stream_json(p.1))),
        decreases streams.len() - i,
    {
        let key = quote(streams[i].0.as_str())?;
        let value = stream_text(&streams[i].1)?;
        let ghost before = members@;
        members.push(member_text(key.as_str(), value.as_str()));
        proof {
            assert(texts(members@) =~= texts(before).push(f(streams@[i as int])));
            assert(streams@.take(i + 1) =~= streams@.take(i as int).push(streams@[i as int]));
            assert(streams@.take(i + 1).map_values(f) =~= streams@.take(i as int).map_values(
                f,
            ).push(f(streams@[i as int])));
        }
        i = i + 1;
    }
    assert(streams@.take(streams.len() as int) =~= streams@);
    Ok(obj_text(&members))
}

pub open spec fn user_state_json(u: UserState) -> Seq<char> {
    json_obj(
        seq![str_m("\"id\""@, u.id@), bool_m("\"online\""@, u.online), member(
            "\"streams\""@,
            streams_json(u.streams@),
        )] + opt_m(
            match u.ext {
                Some(e) => Some(str_m("\"ext\""@, e@)),
                None => None,
            },
        ) + seq![str_m("\"inst_id\""@, u.inst_id@)],
    )
}

pub fn user_state_text(u: &UserState) -> (r: Result<String, serde_json::Error>)
    ensures
        r matches Ok(t) && t@ == user_state_json(*u),
{
    let mut members: Vec<String> = Vec::new();
    members.push(str_member("\"id\"", u.id.as_str())?);
    members.push(bool_member("\"online\"", u.online));
    let streams = streams_text(&u.streams)?;
    members.push(member_text("\"streams\"", streams.as_str()));
    match &u.ext {
        Some(e) => {
            members.push(str_member("\"ext\"", e.as_str())?);
        },
        None => {},
    }
    members.push(str_member("\"inst_id\"", u.inst_id.as_str())?);
    assert(texts(members@) =~= seq![str_m("\"id\""@, u.id@), bool_m("\"online\""@, u.online), member(
            "\"streams\""@,
            streams_json(u.streams@),
        )] + opt_m(
            match u.ext {
                Some(e) => Some(str_m("\"ext\""@, e@)),
                None => None,
            },
        ) + seq![str_m("\"inst_id\""@, u.inst_id@)]);
    Ok(obj_text(&members))
}

pub open spec fn id_json(v: IdRef) -> Seq<char> {
    json_obj(seq![str_m("\"id\""@, v.id@)])
}

pub fn id_text(v: &IdRef) -> (r: Result<String, serde_json::Error>)
    ensures
        r matches Ok(t) && t@ == id_json(*v),
{
    let mut members: Vec<String> = Vec::new();
    members.push(str_member("\"id\"", v.id)?);
    assert(texts(members@) =~= seq![str_m("\"id\""@, v.id@)]);
    Ok(obj_text(&members))
}

pub open spec fn closed_json(v: ClosedNoticeRef) -> Seq<char> {
    json_obj(
        opt_m(
            match v.status {
                Some(s) => Some(member("\"status\""@, status_json(*s))),
                None => None,
            },
        ),
    )
}

pub fn closed_text(v: &ClosedNoticeRef) -> (r: Result<String, serde_json::Error>)
    ensures
        r matches Ok(t) && t@ == closed_json(*v),
{
    let mut members: Vec<String> = Vec::new();
    match v.status {
        Some(s) => {
            let st = status_text(s)?;
            members.push(member_text("\"status\"", st.as_str()));
        },
        None => {},
    }
    assert(texts(members@) =~= opt_m(
        match v.status {
            Some(s) => Some(member("\"status\""@, status_json(*s))),
            None => None,
        },
    ));
    Ok(obj_text(&members))
}

pub open spec fn chat_json(v: ChatNoticeRef) -> Seq<char> {
    json_obj(
        seq![
            str_m("\"from\""@, v.from@),
            str_m("\"to\""@, v.to@),
            str_m("\"body\""@, v.body@),
        ],
    )
}

pub fn chat_text(v: &ChatNoticeRef) -> (r: Result<String, serde_json::Error>)
    ensures
        r matches Ok(t) && t@ == chat_json(*v),
{
    let mut members: Vec<String> = Vec::new();
    members.push(str_member("\"from\"", v.from)?);
    members.push(str_member("\"to\"", v.to)?);
    members.push(str_member("\"body\"", v.body)?);
    assert(texts(members@) =~= seq![
        str_m("\"from\""@, v.from@),
        str_m("\"to\""@, v.to@),
        str_m("\"body\""@, v.body@),
    ]);
    Ok(obj_text(&members))
}

pub open spec fn tree_json(v: TreeStateRef) -> Seq<char> {
    json_obj(
        seq![str_m("\"path\""@, v.path@)] + opt_m(
            match v.value {
                Some(x) => Some(str_m("\"value\""@, x@)),
                None => None,
            },
        ) + opt_m(
            match v.id {
                Some(x) => Some(str_m("\"id\""@, x@)),
                None => None,
            },
        ) + opt_m(
            match v.prune {
                Some(x) => Some(bool_m("\"prune\""@, x)),
                None => None,
            },
        ),
    )
}

pub fn tree_text(v: &TreeStateRef) -> (r: Result<String, serde_json::Error>)
    ensures
        r matches Ok(t) && t@ == tree_json(*v),
{
    let mut members: Vec<String> = Vec::new();
    members.push(str_member("\"path\"", v.path)?);
    if let Some(x) = v.value {
        members.push(str_member("\"value\"", x)?);
    }
    if let Some(x) = v.id {
        members.push(str_member("\"id\"", x)?);
    }
    if let Some(x) = v.prune {
        members.push(bool_member("\"prune\"", x));
    }
    assert(texts(members@) =~= seq![str_m("\"path\""@, v.path@)] + opt_m(
        match v.value {
            Some(x) => Some(str_m("\"value\""@, x@)),
            None => None,
        },
    ) + opt_m(
        match v.id {
            Some(x) => Some(str_m("\"id\""@, x@)),
            None => None,
        },
    ) + opt_m(
        match v.prune {
            Some(x) => Some(bool_m("\"prune\""@, x)),
            None => None,
        },
    ));
    Ok(obj_text(&members))
}

pub open spec fn push_type_json(t: ServerPushTypeRef) -> Seq<char> {
    match t {
        ServerPushTypeRef::Closed(v) => tagged("\"Closed\""@, closed_json(v)),
        ServerPushTypeRef::Chat(v) => tagged("\"Chat\""@, chat_json(v)),
        ServerPushTypeRef::UInit(v) => tagged("\"UInit\""@, id_json(v)),
        ServerPushTypeRef::UReady(v) => tagged("\"UReady\""@, id_json(v)),
        ServerPushTypeRef::UFull(v) => tagged("\"UFull\""@, user_state_json(*v)),
        ServerPushTypeRef::UTree(v) => tagged("\"UTree\""@, tree_json(v)),
        ServerPushTypeRef::RTree(v) => tagged("\"RTree\""@, tree_json(v)),
        ServerPushTypeRef::RReady(v) => tagged("\"RReady\""@, id_json(v)),
    }
}

impl<'a> JsonBody for ServerPushRef<'a> {
    open spec fn json(&self) -> Seq<char> {
        json_obj(seq![member("\"typ\""@, push_type_json(self.typ))])
    }

    fn to_json(&self) -> (r: Result<String, serde_json::Error>) {
        let inner = match &self.typ {
            ServerPushTypeRef::Closed(v) => tagged_text("\"Closed\"", closed_text(v)?.as_str()),
            ServerPushTypeRef::Chat(v) => tagged_text("\"Chat\"", chat_text(v)?.as_str()),
            ServerPushTypeRef::UInit(v) => tagged_text("\"UInit\"", id_text(v)?.as_str()),
            ServerPushTypeRef::UReady(v) => tagged_text("\"UReady\"", id_text(v)?.as_str()),
            ServerPushTypeRef::UFull(v) => tagged_text("\"UFull\"", user_state_text(v)?.as_str()),
            ServerPushTypeRef::UTree(v) => tagged_text("\"UTree\"", tree_text(v)?.as_str()),
            ServerPushTypeRef::RTree(v) => tagged_text("\"RTree\"", tree_text(v)?.as_str()),
            ServerPushTypeRef::RReady(v) => tagged_text("\"RReady\"", id_text(v)?.as_str()),
        };
        Ok(tagged_text("\"typ\"", inner.as_str()))
    }
}

/// The JSON text of a response payload.
pub open spec fn response_type_json(t: ResponseType) -> Seq<char> {
    match t {
        ResponseType::Open(v) => tagged(
            "\"Open\""@,
            json_obj(
                seq![str_m("\"session_id\""@, v.session_id@), str_m("\"conn_id\""@, v.conn_id@)],
            ),
        ),
        ResponseType::Reconn(v) => tagged(
            "\"Reconn\""@,
            json_obj(seq![str_m("\"conn_id\""@, v.conn_id@)]),
        ),
        ResponseType::Close(_) => tagged("\"Close\""@, empty_obj()),
        ResponseType::CreateX(v) => tagged(
            "\"CreateX\""@,
            json_obj(
                seq![
                    str_m("\"xid\""@, v.xid@),
                    member(
                        "\"iceParam\""@,
                        raw_or_null(
                            match v.ice_param {
                                Some(x) => Some(x@),
                                None => None,
                            },
                        ),
                    ),
                    member("\"iceCandidates\""@, v.ice_candidates@),
                    member(
                        "\"dtls\""@,
                        raw_or_null(
                            match v.dtls {
                                Some(x) => Some(x@),
                                None => None,
                            },
                        ),
                    ),
                ],
            ),
        ),
        ResponseType::ConnX(_) => tagged("\"ConnX\""@, empty_obj()),
        ResponseType::Pub(v) => tagged(
            "\"Pub\""@,
            json_obj(seq![str_m("\"producerId\""@, v.producer_id@)]),
        ),
        ResponseType::UPub(_) => tagged("\"UPub\""@, empty_obj()),
        ResponseType::Sub(v) => tagged(
            "\"Sub\""@,
            json_obj(
                seq![
                    str_m("\"consumerId\""@, v.consumer_id@),
                    member(
                        "\"rtp\""@,
                        raw_or_null(
                            match v.rtp {
                                Some(x) => Some(x@),
                                None => None,
                            },
                        ),
                    ),
                ],
            ),
        ),
        ResponseType::USub(_) => tagged("\"USub\""@, empty_obj()),
        ResponseType::Mute(_) => tagged("\"Mute\""@, empty_obj()),
        ResponseType::Layer(_) => tagged("\"Layer\""@, empty_obj()),
        ResponseType::End(v) => tagged(
            "\"End\""@,
            json_obj(seq![bool_m("\"updated\""@, v.updated)]),
        ),
        ResponseType::UpExt(_) => tagged("\"UpExt\""@, empty_obj()),
        ResponseType::UpUTree(_) => tagged("\"UpUTree\""@, empty_obj()),
        ResponseType::UpRTree(_) => tagged("\"UpRTree\""@, empty_obj()),
        ResponseType::Chat(_) => tagged("\"Chat\""@, empty_obj()),
        ResponseType::BEnd(_) => tagged("\"BEnd\""@, empty_obj()),
        ResponseType::HB(_) => tagged("\"HB\""@, empty_obj()),
    }
}

fn opt_str_ref(v: &Option<String>) -> (r: Option<&str>)
    ensures
        match v {
            Some(x) => r matches Some(y) && y@ == x@,
            None => r is None,
        },
{
    match v {
        Some(x) => Some(x.as_str()),
        None => None,
    }
}

pub fn response_type_text(t: &ResponseType) -> (r: Result<String, serde_json::Error>)
    ensures
        r matches Ok(s) && s@ == response_type_json(*t),
{
    match t {
        ResponseType::Open(v) => {
            let mut m: Vec<String> = Vec::new();
            m.push(str_member("\"session_id\"", v.session_id.as_str())?);
            m.push(str_member("\"conn_id\"", v.conn_id.as_str())?);
            assert(texts(m@) =~= seq![
                str_m("\"session_id\""@, v.session_id@),
                str_m("\"conn_id\""@, v.conn_id@),
            ]);
            Ok(tagged_text("\"Open\"", obj_text(&m).as_str()))
        },
        ResponseType::Reconn(v) => {
            let mut m: Vec<String> = Vec::new();
            m.push(str_member("\"conn_id\"", v.conn_id.as_str())?);
            assert(texts(m@) =~= seq![str_m("\"conn_id\""@, v.conn_id@)]);
            Ok(tagged_text("\"Reconn\"", obj_text(&m).as_str()))
        },
        ResponseType::Close(_) => Ok(tagged_text("\"Close\"", empty_obj_text().as_str())),
        ResponseType::CreateX(v) => {
            let mut m: Vec<String> = Vec::new();
            m.push(str_member("\"xid\"", v.xid.as_str())?);
            m.push(
                member_text("\"iceParam\"", raw_or_null_text(opt_str_ref(&v.ice_param)).as_str()),
            );
            m.push(member_text("\"iceCandidates\"", v.ice_candidates.as_str()));
            m.push(member_text("\"dtls\"", raw_or_null_text(opt_str_ref(&v.dtls)).as_str()));
            assert(texts(m@) =~= seq![
                str_m("\"xid\""@, v.xid@),
                member(
                    "\"iceParam\""@,
                    raw_or_null(
                        match v.ice_param {
                            Some(x) => Some(x@),
                            None => None,
                        },
                    ),
                ),
                member("\"iceCandidates\""@, v.ice_candidates@),
                member(
                    "\"dtls\""@,
                    raw_or_null(
                        match v.dtls {
                            Some(x) => Some(x@),
                            None => None,
                        },
                    ),
                ),
            ]);
            Ok(tagged_text("\"CreateX\"", obj_text(&m).as_str()))
        },
        ResponseType::ConnX(_) => Ok(tagged_text("\"ConnX\"", empty_obj_text().as_str())),
        ResponseType::Pub(v) => {
            let mut m: Vec<String> = Vec::new();
            m.push(str_member("\"producerId\"", v.producer_id.as_str())?);
            assert(texts(m@) =~= seq![str_m("\"producerId\""@, v.producer_id@)]);
            Ok(tagged_text("\"Pub\"", obj_text(&m).as_str()))
        },
        ResponseType::UPub(_) => Ok(tagged_text("\"UPub\"", empty_obj_text().as_str())),
        ResponseType::Sub(v) => {
            let mut m: Vec<String> = Vec::new();
            m.push(str_member("\"consumerId\"", v.consumer_id.as_str())?);
            m.push(member_text("\"rtp\"", raw_or_null_text(opt_str_ref(&v.rtp)).as_str()));
            assert(texts(m@) =~= seq![
                str_m("\"consumerId\""@, v.consumer_id@),
                member(
                    "\"rtp\""@,
                    raw_or_null(
                        match v.rtp {
                            Some(x) => Some(x@),
                            None => None,
                        },
                    ),
                ),
            ]);
            Ok(tagged_text("\"Sub\"", obj_text(&m).as_str()))
        },
        ResponseType::USub(_) => Ok(tagged_text("\"USub\"", empty_obj_text().as_str())),
        ResponseType::Mute(_) => Ok(tagged_text("\"Mute\"", empty_obj_text().as_str())),
        ResponseType::Layer(_) => Ok(tagged_text("\"Layer\"", empty_obj_text().as_str())),
        ResponseType::End(v) => {
            let mut m: Vec<String> = Vec::new();
            m.push(bool_member("\"updated\"", v.updated));
            assert(texts(m@) =~= seq![bool_m("\"updated\""@, v.updated)]);
            Ok(tagged_text("\"End\"", obj_text(&m).as_str()))
        },
        ResponseType::UpExt(_) => Ok(tagged_text("\"UpExt\"", empty_obj_text().as_str())),
        ResponseType::UpUTree(_) => Ok(tagged_text("\"UpUTree\"", empty_obj_text().as_str())),
        ResponseType::UpRTree(_) => Ok(tagged_text("\"UpRTree\"", empty_obj_text().as_str())),
        ResponseType::Chat(_) => Ok(tagged_text("\"Chat\"", empty_obj_text().as_str())),
        ResponseType::BEnd(_) => Ok(tagged_text("\"BEnd\"", empty_obj_text().as_str())),
        ResponseType::HB(_) => Ok(tagged_text("\"HB\"", empty_obj_text().as_str())),
    }
}

impl<'a> JsonBody for ResponseRef<'a> {
    open spec fn json(&self) -> Seq<char> {
        json_obj(
            seq![
                member(
                    "\"status\""@,
                    match self.status {
                        Some(s) => status_json(*s),
                        None => json_null(),
                    },
                ),
                member(
                    "\"typ\""@,
                    match self.typ {
                        Some(t) => response_type_json(t),
                        None => json_null(),
                    },
                ),
            ],
        )
    }

    fn to_json(&self) -> (r: Result<String, serde_json::Error>) {
        let status = match self.status {
            Some(s) => status_text(s)?,
            None => null_text(),
        };
        let typ = match &self.typ {
            Some(t) => response_type_text(t)?,
            None => null_text(),
        };
        let mut m: Vec<String> = Vec::new();
        m.push(member_text("\"status\"", status.as_str()));
        m.push(member_text("\"typ\"", typ.as_str()));
        assert(texts(m@) =~= seq![
            member(
                "\"status\""@,
                match self.status {
                    Some(s) => status_json(*s),
                    None => json_null(),
                },
            ),
            member(
                "\"typ\""@,
                match self.typ {
                    Some(t) => response_type_json(t),
                    None => json_null(),
                },
            ),
        ]);
        Ok(obj_text(&m))
    }
}

} // verus!
