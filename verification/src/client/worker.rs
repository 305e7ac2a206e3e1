//! The decisions of the connection worker: how a session is opened, how
//! received packets are routed, when heartbeats go out or the connection
//! counts as lost, and how the worker ends. Times are milliseconds on a
//! monotonic clock, handed in by the caller.
use vstd::prelude::*;

use super::xfer::{acked_prefix_len, queued, Xfer, XferView};
use crate::glue::error::{client_error_text, ClientError};
use crate::kit::text::{bracketed, bracketed_text};
use crate::proto::json::JsonBody;
use crate::proto::response::ResponseType;
use crate::proto::v1::{
    effective_sn, typ_of, OpenSessionResponse, PacketMeta, PacketRef, PacketType, Response,
    ServerPush, ServerPushType, Status,
};
use super::defines::{ClientInfo, JoinConfig};
use crate::glue::defines::{opt_astr, request_frame};
use crate::kit::astr::AStr;
use crate::proto::json::{
    dec_int, dec_text, json_arr, json_obj, json_str, opt_bool_m, opt_int_m, opt_raw_m, opt_str_m, str_m,
};
use crate::proto::v1::UpdateTreeRequest;
use crate::proto::v1_ser::{
    ClientInfoSer, HeartbeatRequestSer, IterSer, OpenSessionRequestSer, PacketSer, SdkInfoSer,
    StrMapSer, UpdateTreeRequestSer,
};

verus! {

/// How the host asked the worker to stop.
#[derive(Clone, Copy, Debug, PartialEq, Eq, Structural)]
pub enum ShutdownMode {
    /// no stop asked for
    Running,
    /// stop once the room is left
    Graceful,
    /// stop now
    Force,
}

pub open spec fn shutdown_mode_num(m: ShutdownMode) -> u8 {
    match m {
        ShutdownMode::Running => 0,
        ShutdownMode::Graceful => 1,
        ShutdownMode::Force => 2,
    }
}

impl ShutdownMode {
    /// The mode stored as `v`; unknown numbers mean no stop.
    pub fn from_u8(v: u8) -> (r: Self)
        ensures
            r == (if v == 1 {
                ShutdownMode::Graceful
            } else if v == 2 {
                ShutdownMode::Force
            } else {
                ShutdownMode::Running
            }),
    {
        match v {
            1 => ShutdownMode::Graceful,
            2 => ShutdownMode::Force,
            _ => ShutdownMode::Running,
        }
    }

    /// The number the mode is stored as.
    pub fn as_u8(self) -> (r: u8)
        ensures
            r == shutdown_mode_num(self),
    {
        match self {
            ShutdownMode::Running => 0,
            ShutdownMode::Graceful => 1,
            ShutdownMode::Force => 2,
        }
    }

    /// The mode a host stop asks for: forced or graceful.
    pub fn for_stop(force: bool) -> (r: Self)
        ensures
            r == (if force {
                ShutdownMode::Force
            } else {
                ShutdownMode::Graceful
            }),
    {
        if force {
            ShutdownMode::Force
        } else {
            ShutdownMode::Graceful
        }
    }
}

/// Storing a mode as its number and reading it back gives it back.
pub proof fn lemma_shutdown_mode_roundtrip(m: ShutdownMode)
    ensures
        (if shutdown_mode_num(m) == 1 {
            ShutdownMode::Graceful
        } else if shutdown_mode_num(m) == 2 {
            ShutdownMode::Force
        } else {
            ShutdownMode::Running
        }) == m,
{
}

/// What the worker is waiting for when a stop may interrupt it.
#[derive(Clone, Copy, Debug, PartialEq, Eq, Structural)]
pub enum RecvCancelMode {
    /// connecting or opening: any stop interrupts
    Connect,
    /// working in a session: only a forced stop interrupts
    Work,
}

pub open spec fn breaks(c: RecvCancelMode, m: ShutdownMode) -> bool {
    match c {
        RecvCancelMode::Connect => m != ShutdownMode::Running,
        RecvCancelMode::Work => m == ShutdownMode::Force,
    }
}

impl RecvCancelMode {
    pub fn should_break(self, mode: ShutdownMode) -> (r: bool)
        ensures
            r == breaks(self, mode),
    {
        match self {
            RecvCancelMode::Connect => mode != ShutdownMode::Running,
            RecvCancelMode::Work => mode == ShutdownMode::Force,
        }
    }
}

/// A forced stop interrupts whatever the worker waits for; no stop
/// interrupts nothing; a graceful stop interrupts connecting only.
pub proof fn lemma_breaks_order(c: RecvCancelMode)
    ensures
        breaks(c, ShutdownMode::Force),
        !breaks(c, ShutdownMode::Running),
        breaks(c, ShutdownMode::Graceful) <==> c == RecvCancelMode::Connect,
{
}

/// Why the worker stopped working in a session.
#[derive(Debug)]
pub enum WorkerError {
    /// the host dropped its handle
    GotClosed,
    /// nothing was received for the heartbeat timeout
    HeartbeatTimeout,
    /// a heartbeat response carried a failure status
    HeartbeatFailed(Status),
    /// a response without the number of the request it answers
    NoAckInResponse,
    /// a packet of a kind the client does not take
    UnknownPacket(PacketMeta),
    /// the open response is not a response
    InvalidOpenPacket(Option<i32>),
    /// the open response has no body
    EmptyBody,
    /// the open response carries a status
    OpenStatus(Status),
    /// the open response has no typed payload
    NoResponseType,
    /// the open response is of another kind
    UnexpectedResponseType,
    /// rendering JSON text failed
    Json(serde_json::Error),
    /// the room logic failed
    Delegate(ClientError),
    /// the connection failed or a received text could not be read; the
    /// text says what happened
    Io(String),
}

/// Turns `None` (the host dropped its handle) into an error.
pub fn check_guard(r: Option<()>) -> (res: Result<(), WorkerError>)
    ensures
        r is Some <==> res is Ok,
        res is Err ==> res matches Err(WorkerError::GotClosed),
{
    match r {
        Some(()) => Ok(()),
        None => Err(WorkerError::GotClosed),
    }
}

/// What the worker remembers across a session: the status it was closed
/// with, if the host dropped its handle or the server closed it.
#[derive(Debug, Default)]
pub struct Flag {
    pub got_closed: Option<Status>,
}

impl Flag {
    /// As `check_guard`; a dropped handle also counts as closed with the
    /// success status.
    pub fn check_guard(&mut self, r: Option<()>) -> (res: Result<(), WorkerError>)
        ensures
            r is Some <==> res is Ok,
            res is Err ==> res matches Err(WorkerError::GotClosed),
            r is Some ==> final(self).got_closed == old(self).got_closed,
            r is None ==> (final(self).got_closed matches Some(s) && s.code == 0 && s.reason@.len() == 0),
    {
        let res = check_guard(r);
        if res.is_err() {
            self.got_closed = Some(Status::ok());
        }
        res
    }
}

/// The status an error counts as: its own status when it carries the
/// server's, else an internal error.
pub open spec fn error_status_code(e: WorkerError) -> i32 {
    match e {
        WorkerError::OpenStatus(s) => s.code,
        WorkerError::Delegate(ClientError::Closed(s)) => s.code,
        _ => Status::INTERNAL_ERROR_CODE,
    }
}

/// The short description of an error, as it appears in the reason of the
/// status that an error without a status of its own counts as.
pub open spec fn error_description(e: WorkerError) -> Seq<char> {
    match e {
        WorkerError::GotClosed => "got closed"@,
        WorkerError::HeartbeatTimeout => "heartbeat timeout"@,
        WorkerError::HeartbeatFailed(_) => "heartbeat failed"@,
        WorkerError::NoAckInResponse => "no ack field in response"@,
        WorkerError::UnknownPacket(_) => "unknown packet"@,
        WorkerError::InvalidOpenPacket(_) => "invalid packet type"@,
        WorkerError::EmptyBody => "empty body"@,
        WorkerError::OpenStatus(_) => "open response status"@,
        WorkerError::NoResponseType => "invalid response type"@,
        WorkerError::UnexpectedResponseType => "unexpect response type"@,
        WorkerError::Json(_) => "invalid json"@,
        WorkerError::Delegate(_) => "delegate failed"@,
        WorkerError::Io(_) => "connection failed"@,
    }
}

/// A short description of an error that carries no status of its own.
pub fn describe(e: &WorkerError) -> (r: &'static str)
    ensures
        r@ == error_description(*e),
{
    match e {
        WorkerError::GotClosed => "got closed",
        WorkerError::HeartbeatTimeout => "heartbeat timeout",
        WorkerError::HeartbeatFailed(_) => "heartbeat failed",
        WorkerError::NoAckInResponse => "no ack field in response",
        WorkerError::UnknownPacket(_) => "unknown packet",
        WorkerError::InvalidOpenPacket(_) => "invalid packet type",
        WorkerError::EmptyBody => "empty body",
        WorkerError::OpenStatus(_) => "open response status",
        WorkerError::NoResponseType => "invalid response type",
        WorkerError::UnexpectedResponseType => "unexpect response type",
        WorkerError::Json(_) => "invalid json",
        WorkerError::Delegate(_) => "delegate failed",
        WorkerError::Io(_) => "connection failed",
    }
}

/// The text of an error: a failed heartbeat gives its code and reason,
/// the room logic its own text, a connection failure what happened, and
/// the others their description.
pub open spec fn worker_error_text(e: WorkerError) -> Seq<char> {
    match e {
        WorkerError::HeartbeatFailed(s) => "heartbeat failed: code "@ + dec_int(s.code as int) + ", reason "@
            + s.reason@,
        WorkerError::Delegate(c) => client_error_text(c),
        WorkerError::Io(t) => t@,
        _ => error_description(e),
    }
}

impl WorkerError {
    /// What went wrong, as text.
    pub fn message(&self) -> (r: String)
        ensures
            r@ == worker_error_text(*self),
    {
        match self {
            WorkerError::HeartbeatFailed(s) => {
                let mut out = "heartbeat failed: code ".to_owned();
                out.append(dec_text(s.code as i64).as_str());
                out.append(", reason ");
                out.append(s.reason.as_str());
                out
            },
            WorkerError::Delegate(c) => c.message(),
            WorkerError::Io(t) => t.clone(),
            _ => describe(self).to_owned(),
        }
    }
}

/// The status an error counts as; an error with no status of its own gets
/// the internal error code and the reason `internal error: [<its text>]`.
pub fn status_from_error(e: &WorkerError) -> (r: Status)
    ensures
        r.code == error_status_code(*e),
        e matches WorkerError::OpenStatus(s) ==> r == s,
        e matches WorkerError::Delegate(ClientError::Closed(s)) ==> r == s,
        !(e is OpenStatus || e matches WorkerError::Delegate(ClientError::Closed(_)))
            ==> r.reason@ == bracketed("internal error: "@, worker_error_text(*e)),
{
    match e {
        WorkerError::OpenStatus(s) => s.copy(),
        WorkerError::Delegate(ClientError::Closed(s)) => s.copy(),
        _ => {
            let what = e.message();
            let reason = bracketed_text("internal error: ", what.as_str());
            Status { code: Status::INTERNAL_ERROR_CODE, reason }
        },
    }
}

/// What the worker does after working in a session ended with `r`.
#[derive(Debug)]
pub enum WorkStep {
    /// stop with success
    Finish,
    /// stop with this error
    Fail(WorkerError),
    /// reconnect and go on
    Reconnect,
}

/// After working in a session: a closed session finishes; once the host
/// dropped its handle an error ends the worker; otherwise an error whose
/// status is success finishes and anything else reconnects.
pub fn after_work(got_closed: bool, rx_closed: bool, r: Result<(), WorkerError>) -> (step: WorkStep)
    ensures
        got_closed ==> step is Finish,
        !got_closed && rx_closed ==> match r {
            Ok(_) => step is Reconnect,
            Err(e) => step matches WorkStep::Fail(f) && f == e,
        },
        !got_closed && !rx_closed ==> match r {
            Ok(_) => step is Reconnect,
            Err(e) => if error_status_code(e) == 0 {
                step is Finish
            } else {
                step is Reconnect
            },
        },
{
    if got_closed {
        return WorkStep::Finish;
    }
    match r {
        Ok(()) => WorkStep::Reconnect,
        Err(e) => {
            if rx_closed {
                WorkStep::Fail(e)
            } else {
                let status = status_from_error(&e);
                if status.code == 0 {
                    WorkStep::Finish
                } else {
                    WorkStep::Reconnect
                }
            }
        },
    }
}

/// The status the worker reports when it ends: success for a clean end,
/// else the status the session was closed with, else the error's status.
pub fn final_status(r: Result<(), WorkerError>, got_closed: Option<Status>) -> (s: Status)
    ensures
        r is Ok ==> s.code == 0 && s.reason@.len() == 0,
        r matches Err(e) ==> match got_closed {
            Some(g) => s == g,
            None => {
                &&& s.code == error_status_code(e)
                &&& e matches WorkerError::OpenStatus(t) ==> s == t
                &&& e matches WorkerError::Delegate(ClientError::Closed(t)) ==> s == t
                &&& !(e is OpenStatus || e matches WorkerError::Delegate(ClientError::Closed(_)))
                    ==> s.reason@ == bracketed("internal error: "@, worker_error_text(e))
            },
        },
{
    match r {
        Ok(()) => Status::ok(),
        Err(e) => match got_closed {
            Some(g) => g,
            None => status_from_error(&e),
        },
    }
}

/// The body of an open response: it must be a response with a body.
pub fn open_packet_body<'a>(packet: &PacketRef<'a>) -> (r: Result<&'a str, WorkerError>)
    ensures
        typ_of(packet.typ) != Some(PacketType::Response) ==> (r matches Err(WorkerError::InvalidOpenPacket(t))
            && t == packet.typ),
        typ_of(packet.typ) == Some(PacketType::Response) ==> match packet.body {
            Some(b) => r == Ok::<&str, WorkerError>(b),
            None => r matches Err(WorkerError::EmptyBody),
        },
{
    match packet.typ() {
        Some(PacketType::Response) => {},
        _ => {
            return Err(WorkerError::InvalidOpenPacket(packet.typ));
        },
    }
    match packet.body {
        Some(b) => Ok(b),
        None => Err(WorkerError::EmptyBody),
    }
}

/// The opened session from the open response: a response that carries a
/// status (any status) fails with it; it must carry an open payload.
pub fn open_response(rsp: Response) -> (r: Result<OpenSessionResponse, WorkerError>)
    ensures
        match rsp.status {
            Some(s) => r matches Err(WorkerError::OpenStatus(x)) && x == s,
            None => match rsp.typ {
                None => r matches Err(WorkerError::NoResponseType),
                Some(ResponseType::Open(o)) => r == Ok::<OpenSessionResponse, WorkerError>(o),
                Some(_) => r matches Err(WorkerError::UnexpectedResponseType),
            },
        },
{
    let Response { status, typ } = rsp;
    if let Some(s) = status {
        return Err(WorkerError::OpenStatus(s));
    }
    match typ {
        None => Err(WorkerError::NoResponseType),
        Some(ResponseType::Open(o)) => Ok(o),
        Some(_) => Err(WorkerError::UnexpectedResponseType),
    }
}

/// A push that closes the session gives the status it was closed with
/// (success when it carries none); any other push goes on.
pub fn push_closes(push: ServerPush) -> (r: Result<ServerPush, Status>)
    ensures
        match push.typ {
            ServerPushType::Closed(n) => match n.status {
                Some(s) => r == Err::<ServerPush, Status>(s),
                None => r matches Err(s) && s.code == 0 && s.reason@.len() == 0,
            },
            _ => r == Ok::<ServerPush, Status>(push),
        },
{
    match push.typ {
        ServerPushType::Closed(n) => match n.status {
            Some(s) => Err(s),
            None => Err(Status::ok()),
        },
        other => Ok(ServerPush { typ: other }),
    }
}

/// The body of a heartbeat request.
pub open spec fn heartbeat_body() -> Seq<char> {
    crate::glue::defines::request_frame("\"HB\""@, crate::proto::render::empty_obj())
}

/// Heartbeat settings, in milliseconds.
#[derive(Clone, Copy, Debug, PartialEq, Eq)]
pub struct HeartbeatConfig {
    pub enable: bool,
    pub interval_ms: u64,
    pub timeout_ms: u64,
}

/// Where a received packet goes.
#[derive(Clone, Copy, Debug, PartialEq, Eq, Structural)]
pub enum Route {
    /// nothing more to do with it
    Skip,
    /// a response to request `ack`
    Response(i64),
    /// a push
    Push,
}

/// The time between `then` and `now`, zero when `now` is earlier.
pub open spec fn elapsed(now: u64, then: u64) -> int {
    if now >= then {
        now - then
    } else {
        0
    }
}

/// An open session: its ids, its delivery queue and its heartbeat state.
pub struct Session {
    session_id: String,
    conn_id: String,
    xfer: Xfer,
    heartbeat_started: bool,
    last_rx_at: u64,
    last_hb_at: u64,
    pending_hb_sn: Option<i64>,
}

impl Session {
    pub closed spec fn xfer_view(&self) -> XferView {
        self.xfer@
    }

    pub closed spec fn heartbeat_started(&self) -> bool {
        self.heartbeat_started
    }

    /// When something was last received.
    pub closed spec fn last_rx_at(&self) -> u64 {
        self.last_rx_at
    }

    /// When a heartbeat was last sent.
    pub closed spec fn last_hb_at(&self) -> u64 {
        self.last_hb_at
    }

    /// The heartbeat waiting for its response.
    pub closed spec fn pending_hb_sn(&self) -> Option<i64> {
        self.pending_hb_sn
    }

    pub closed spec fn id(&self) -> Seq<char> {
        self.session_id@
    }

    pub closed spec fn conn(&self) -> Seq<char> {
        self.conn_id@
    }

    /// A session opened at `now` with the ids of the open response and
    /// the queue the opening requests went into; heartbeats start.
    pub fn new(rsp: OpenSessionResponse, xfer: Xfer, now: u64) -> (r: Self)
        ensures
            r.id() == rsp.session_id@,
            r.conn() == rsp.conn_id@,
            r.xfer_view() == xfer@,
            r.heartbeat_started(),
            r.last_rx_at() == now,
            r.last_hb_at() == now,
            r.pending_hb_sn() is None,
    {
        let mut s = Session {
            session_id: rsp.session_id,
            conn_id: rsp.conn_id,
            xfer,
            heartbeat_started: false,
            last_rx_at: now,
            last_hb_at: now,
            pending_hb_sn: None,
        };
        s.start_heartbeat(now);
        s
    }

    pub fn session_id(&self) -> (r: &str)
        ensures
            r@ == self.id(),
    {
        self.session_id.as_str()
    }

    pub fn conn_id(&self) -> (r: &str)
        ensures
            r@ == self.conn(),
    {
        self.conn_id.as_str()
    }

    pub fn xfer(&self) -> (r: &Xfer)
        ensures
            r@ == self.xfer_view(),
    {
        &self.xfer
    }

    /// Hands the queue to `f`-like steps of the caller: the queue is taken
    /// out and must be put back with `put_xfer`.
    pub fn take_xfer(&mut self) -> (r: Xfer)
        ensures
            r@ == old(self).xfer_view(),
            final(self).xfer_view().wf(),
            final(self).id() == old(self).id(),
            final(self).conn() == old(self).conn(),
            final(self).heartbeat_started() == old(self).heartbeat_started(),
            final(self).last_rx_at() == old(self).last_rx_at(),
            final(self).last_hb_at() == old(self).last_hb_at(),
            final(self).pending_hb_sn() == old(self).pending_hb_sn(),
    {
        let mut x = Xfer::new();
        std::mem::swap(&mut x, &mut self.xfer);
        x
    }

    /// Puts a queue back into the session.
    pub fn put_xfer(&mut self, xfer: Xfer)
        ensures
            final(self).xfer_view() == xfer@,
            final(self).id() == old(self).id(),
            final(self).conn() == old(self).conn(),
            final(self).heartbeat_started() == old(self).heartbeat_started(),
            final(self).last_rx_at() == old(self).last_rx_at(),
            final(self).last_hb_at() == old(self).last_hb_at(),
            final(self).pending_hb_sn() == old(self).pending_hb_sn(),
    {
        self.xfer = xfer;
    }

    fn start_heartbeat(&mut self, now: u64)
        ensures
            final(self).heartbeat_started,
            final(self).last_rx_at == now,
            final(self).last_hb_at == now,
            final(self).pending_hb_sn is None,
            final(self).xfer@ == old(self).xfer@,
            final(self).session_id == old(self).session_id,
            final(self).conn_id == old(self).conn_id,
    {
        self.heartbeat_started = true;
        self.last_rx_at = now;
        self.last_hb_at = now;
        self.pending_hb_sn = None;
    }

    /// When a heartbeat was last sent.
    pub fn last_heartbeat_at(&self) -> (r: u64)
        ensures
            r == self.last_hb_at(),
    {
        self.last_hb_at
    }

    /// Something was received at `now`.
    pub fn on_recv(&mut self, now: u64)
        ensures
            final(self).last_rx_at() == now,
            final(self).last_hb_at() == old(self).last_hb_at(),
            final(self).heartbeat_started() == old(self).heartbeat_started(),
            final(self).pending_hb_sn() == old(self).pending_hb_sn(),
            final(self).xfer_view() == old(self).xfer_view(),
            final(self).id() == old(self).id(),
            final(self).conn() == old(self).conn(),
    {
        self.last_rx_at = now;
    }

    /// A heartbeat was sent at `now`.
    pub fn on_heartbeat_sent(&mut self, now: u64)
        ensures
            final(self).last_hb_at() == now,
            final(self).last_rx_at() == old(self).last_rx_at(),
            final(self).heartbeat_started() == old(self).heartbeat_started(),
            final(self).pending_hb_sn() == old(self).pending_hb_sn(),
            final(self).xfer_view() == old(self).xfer_view(),
            final(self).id() == old(self).id(),
            final(self).conn() == old(self).conn(),
    {
        self.last_hb_at = now;
    }

    /// A heartbeat is due once `interval` passed since the last one.
    pub fn heartbeat_due(&self, now: u64, interval_ms: u64) -> (r: bool)
        ensures
            r == (self.heartbeat_started() && elapsed(now, self.last_hb_at()) >= interval_ms),
    {
        self.heartbeat_started && now.saturating_sub(self.last_hb_at) >= interval_ms
    }

    /// The connection counts as lost once nothing was received for
    /// `timeout`.
    pub fn heartbeat_timed_out(&self, now: u64, timeout_ms: u64) -> (r: bool)
        ensures
            r == (self.heartbeat_started() && elapsed(now, self.last_rx_at()) >= timeout_ms),
    {
        self.heartbeat_started && now.saturating_sub(self.last_rx_at) >= timeout_ms
    }

    /// When the next heartbeat is due, if heartbeats are on.
    pub fn heartbeat_deadline(&self, cfg: HeartbeatConfig) -> (r: Option<u64>)
        requires
            self.last_hb_at() + cfg.interval_ms <= u64::MAX,
        ensures
            r == (if cfg.enable && self.heartbeat_started() {
                Some((self.last_hb_at() + cfg.interval_ms) as u64)
            } else {
                None
            }),
    {
        if !cfg.enable {
            return None;
        }
        if !self.heartbeat_started {
            return None;
        }
        Some(self.last_hb_at + cfg.interval_ms)
    }

    pub fn has_pending_heartbeat(&self) -> (r: bool)
        ensures
            r == self.pending_hb_sn() is Some,
    {
        self.pending_hb_sn.is_some()
    }

    pub fn set_pending_heartbeat(&mut self, sn: i64)
        ensures
            final(self).pending_hb_sn() == Some(sn),
            final(self).last_rx_at() == old(self).last_rx_at(),
            final(self).last_hb_at() == old(self).last_hb_at(),
            final(self).heartbeat_started() == old(self).heartbeat_started(),
            final(self).xfer_view() == old(self).xfer_view(),
            final(self).id() == old(self).id(),
            final(self).conn() == old(self).conn(),
    {
        self.pending_hb_sn = Some(sn);
    }

    /// Consumes a heartbeat response: a failure status fails; an answer to
    /// the pending heartbeat or a later one clears it. Other responses are
    /// not consumed.
    pub fn try_handle_heartbeat_response(&mut self, ack: i64, response: &mut Response) -> (r: Result<
        bool,
        WorkerError,
    >)
        ensures
            !(old(response).typ matches Some(ResponseType::HB(_))) ==> r == Ok::<bool, WorkerError>(false)
                && *final(response) == *old(response) && final(self).pending_hb_sn() == old(self).pending_hb_sn(),
            old(response).typ matches Some(ResponseType::HB(_)) ==> {
                &&& final(response).status is None
                &&& final(response).typ == old(response).typ
                &&& match old(response).status {
                    Some(s) if s.code != 0 => r matches Err(WorkerError::HeartbeatFailed(x)) && x == s
                        && final(self).pending_hb_sn() == old(self).pending_hb_sn(),
                    _ => r == Ok::<bool, WorkerError>(true) && final(self).pending_hb_sn() == (match old(self).pending_hb_sn() {
                        Some(p) => if ack >= p {
                            None
                        } else {
                            Some(p)
                        },
                        None => None,
                    }),
                }
            },
            final(self).last_rx_at() == old(self).last_rx_at(),
            final(self).last_hb_at() == old(self).last_hb_at(),
            final(self).heartbeat_started() == old(self).heartbeat_started(),
            final(self).xfer_view() == old(self).xfer_view(),
            final(self).id() == old(self).id(),
            final(self).conn() == old(self).conn(),
    {
        let is_hb = match &response.typ {
            Some(ResponseType::HB(_)) => true,
            _ => false,
        };
        if !is_hb {
            return Ok(false);
        }
        let status = match response.status.take() {
            Some(s) => s,
            None => Status::ok(),
        };
        if status.code != 0 {
            return Err(WorkerError::HeartbeatFailed(status));
        }
        if let Some(pending) = self.pending_hb_sn {
            if ack >= pending {
                self.pending_hb_sn = None;
            }
        }
        Ok(true)
    }

    /// On a heartbeat tick at `now`: with heartbeats on, a silence of the
    /// timeout loses the connection; a due heartbeat with none pending is
    /// queued (the result then is its sequence number) and counts as sent.
    pub fn heartbeat_tick(&mut self, now: u64, cfg: HeartbeatConfig) -> (r: Result<Option<i64>, WorkerError>)
        requires
            old(self).xfer_view().wf(),
            old(self).xfer_view().tail_sn < i64::MAX,
        ensures
            final(self).xfer_view().wf(),
            final(self).id() == old(self).id(),
            final(self).conn() == old(self).conn(),
            final(self).last_rx_at() == old(self).last_rx_at(),
            final(self).heartbeat_started() == old(self).heartbeat_started(),
            !cfg.enable ==> r == Ok::<Option<i64>, WorkerError>(None) && final(self).xfer_view()
                == old(self).xfer_view() && final(self).pending_hb_sn() == old(self).pending_hb_sn()
                && final(self).last_hb_at() == old(self).last_hb_at(),
            cfg.enable && old(self).heartbeat_started() && elapsed(now, old(self).last_rx_at()) >= cfg.timeout_ms
                ==> (r matches Err(WorkerError::HeartbeatTimeout) && final(self).xfer_view() == old(self).xfer_view()),
            cfg.enable && !(old(self).heartbeat_started() && elapsed(now, old(self).last_rx_at()) >= cfg.timeout_ms)
                ==> {
                if old(self).heartbeat_started() && elapsed(now, old(self).last_hb_at()) >= cfg.interval_ms
                    && old(self).pending_hb_sn() is None {
                    match r {
                        Ok(Some(sn)) => {
                            &&& queued(old(self).xfer_view(), final(self).xfer_view(), PacketType::Request,
                                heartbeat_body(), None, sn)
                            &&& final(self).pending_hb_sn() == Some(sn)
                            &&& final(self).last_hb_at() == now
                        },
                        _ => false,
                    }
                } else {
                    &&& r == Ok::<Option<i64>, WorkerError>(None)
                    &&& final(self).xfer_view() == old(self).xfer_view()
                    &&& final(self).pending_hb_sn() == old(self).pending_hb_sn()
                    &&& final(self).last_hb_at() == old(self).last_hb_at()
                }
            },
    {
        if !cfg.enable {
            return Ok(None);
        }
        if self.heartbeat_timed_out(now, cfg.timeout_ms) {
            return Err(WorkerError::HeartbeatTimeout);
        }
        if self.heartbeat_due(now, cfg.interval_ms) && !self.has_pending_heartbeat() {
            let msg = (HeartbeatRequestSer {  }).into_msg();
            assert(msg.json() == heartbeat_body());
            let sn = match self.xfer.add_qos1_typed(PacketType::Request, &msg, None) {
                Ok(sn) => sn,
                Err(e) => {
                    return Err(WorkerError::Json(e));
                },
            };
            self.pending_hb_sn = Some(sn);
            self.last_hb_at = now;
            return Ok(Some(sn));
        }
        Ok(None)
    }

    /// Takes in the header of a received packet at `now`: the
    /// acknowledgement drops what it covers from the queue, the sequence
    /// number is noted for acknowledging, and the kind says where the
    /// packet goes.
    pub fn route_packet(&mut self, now: u64, meta: &PacketMeta) -> (r: Result<Route, WorkerError>)
        requires
            old(self).xfer_view().wf(),
            meta.ack matches Some(a) ==> old(self).xfer_view().acks_only_sent(a),
        ensures
            final(self).xfer_view().wf(),
            final(self).last_rx_at() == now,
            final(self).last_hb_at() == old(self).last_hb_at(),
            final(self).pending_hb_sn() == old(self).pending_hb_sn(),
            final(self).heartbeat_started() == old(self).heartbeat_started(),
            final(self).id() == old(self).id(),
            final(self).conn() == old(self).conn(),
            final(self).xfer_view().que == match meta.ack {
                Some(a) => old(self).xfer_view().que.skip(acked_prefix_len(old(self).xfer_view().que, a) as int),
                None => old(self).xfer_view().que,
            },
            final(self).xfer_view().recv_sn == match effective_sn(meta.sn) {
                Some(s) => if s > old(self).xfer_view().recv_sn {
                    s
                } else {
                    old(self).xfer_view().recv_sn
                },
                None => old(self).xfer_view().recv_sn,
            },
            final(self).xfer_view().send_index == old(self).xfer_view().send_index - match meta.ack {
                Some(a) => acked_prefix_len(old(self).xfer_view().que, a),
                None => 0,
            },
            final(self).xfer_view().tail_sn == old(self).xfer_view().tail_sn,
            final(self).xfer_view().sent_ack_sn == old(self).xfer_view().sent_ack_sn,
            match typ_of(meta.typ) {
                None => r == Ok::<Route, WorkerError>(Route::Skip),
                Some(PacketType::Response) => match meta.ack {
                    Some(a) => r == Ok::<Route, WorkerError>(Route::Response(a)),
                    None => r matches Err(WorkerError::NoAckInResponse),
                },
                Some(PacketType::Request) => r matches Err(WorkerError::UnknownPacket(m)) && m == *meta,
                Some(_) => r == Ok::<Route, WorkerError>(Route::Push),
            },
    {
        self.on_recv(now);
        if let Some(ack_sn) = meta.ack {
            self.xfer.update_recv_ack(ack_sn);
        }
        let sn = match meta.sn {
            None => None,
            Some(0) => None,
            Some(v) => Some(v),
        };
        if let Some(s) = sn {
            self.xfer.update_recv_sn(s);
        }
        match meta.typ() {
            None => Ok(Route::Skip),
            Some(PacketType::Response) => match meta.ack {
                Some(a) => Ok(Route::Response(a)),
                None => Err(WorkerError::NoAckInResponse),
            },
            Some(PacketType::Request) => Err(
                WorkerError::UnknownPacket(PacketMeta { typ: meta.typ, sn: meta.sn, ack: meta.ack }),
            ),
            Some(_) => Ok(Route::Push),
        }
    }
}


/// The JSON text of one operation of the initial user tree.
pub open spec fn tree_op_json(u: UpdateTreeRequest) -> Seq<char> {
    json_obj(
        opt_str_m("\"path\""@, opt_astr(u.path)) + opt_str_m("\"value\""@, opt_astr(u.value)) + opt_bool_m(
            "\"prune\""@,
            u.prune,
        ),
    )
}

/// The JSON text of the device pairs, in order.
pub open spec fn device_json(d: Seq<(AStr, AStr)>) -> Seq<char> {
    json_obj(d.map_values(|p: (AStr, AStr)| str_m(json_str(p.0@), p.1@)))
}

/// The JSON text of the client information: the SDK part only when a name
/// or a version is given.
pub open spec fn client_info_json(ci: ClientInfo) -> Seq<char> {
    let sdk = if ci.sdk_name is Some || ci.sdk_version is Some {
        Some(
            json_obj(
                opt_str_m("\"name\""@, opt_astr(ci.sdk_name)) + opt_str_m(
                    "\"version\""@,
                    opt_astr(ci.sdk_version),
                ),
            ),
        )
    } else {
        None
    };
    json_obj(
        opt_str_m("\"platform\""@, opt_astr(ci.platform)) + opt_raw_m("\"sdk\""@, sdk) + opt_raw_m(
            "\"device\""@,
            match ci.device {
                Some(d) => Some(device_json(d@)),
                None => None,
            },
        ),
    )
}

/// The JSON text of the open request for a join.
pub open spec fn open_request_json(c: JoinConfig) -> Seq<char> {
    json_obj(
        seq![str_m("\"user_id\""@, c.user_id@)] + seq![str_m("\"room_id\""@, c.room_id@)] + opt_raw_m(
            "\"client_info\""@,
            match c.advance.client_info {
                Some(ci) => Some(client_info_json(ci)),
                None => None,
            },
        ) + opt_str_m("\"token\""@, opt_astr(c.advance.token)) + opt_str_m(
            "\"user_ext\""@,
            opt_astr(c.advance.user_ext),
        ) + opt_raw_m(
            "\"user_tree\""@,
            match c.advance.user_tree {
                Some(t) => Some(json_arr(t@.map_values(|u: UpdateTreeRequest| tree_op_json(u)))),
                None => None,
            },
        ) + opt_bool_m("\"batch\""@, c.advance.batch),
    )
}

/// The JSON text of the packet that opens a session: a request with no
/// sequence number whose body is the open request as a JSON string.
pub open spec fn open_packet_json(c: JoinConfig) -> Seq<char> {
    json_obj(
        opt_int_m("\"typ\""@, Some(3)) + opt_int_m("\"sn\""@, None) + opt_raw_m(
            "\"body\""@,
            Some(json_str(request_frame("\"Open\""@, open_request_json(c)))),
        ) + opt_int_m("\"ack\""@, None),
    )
}

fn tree_ops<'a>(t: &'a Vec<UpdateTreeRequest>) -> (r: IterSer<UpdateTreeRequestSer<'a>>)
    ensures
        r.json() == json_arr(t@.map_values(|u: UpdateTreeRequest| tree_op_json(u))),
{
    let mut v: Vec<UpdateTreeRequestSer<'a>> = Vec::new();
    let mut i: usize = 0;
    while i < t.len()
        invariant
            i <= t@.len(),
            v@.len() == i,
            forall|j: int| 0 <= j < i ==> #[trigger] v@[j].json() == tree_op_json(t@[j]),
        decreases t.len() - i,
    {
        let u = UpdateTreeRequestSer::from_request(&t[i]);
        v.push(u);
        i = i + 1;
    }
    let r = IterSer(v);
    assert(r.0@.map_values(|x: UpdateTreeRequestSer<'a>| x.json()) =~= t@.map_values(
        |u: UpdateTreeRequest| tree_op_json(u),
    ));
    r
}

fn device_pairs<'a>(d: &'a Vec<(AStr, AStr)>) -> (r: StrMapSer<'a>)
    ensures
        r.json() == device_json(d@),
{
    let mut v: Vec<(&'a str, &'a str)> = Vec::new();
    let mut i: usize = 0;
    while i < d.len()
        invariant
            i <= d@.len(),
            v@.len() == i,
            forall|j: int| 0 <= j < i ==> #[trigger] v@[j].0@ == d@[j].0@ && v@[j].1@ == d@[j].1@,
        decreases d.len() - i,
    {
        v.push((d[i].0.as_str(), d[i].1.as_str()));
        i = i + 1;
    }
    let r = StrMapSer(v);
    assert(r.0@.map_values(|p: (&'a str, &'a str)| str_m(json_str(p.0@), p.1@)) =~= d@.map_values(
        |p: (AStr, AStr)| str_m(json_str(p.0@), p.1@),
    ));
    r
}

fn opt_astr_str<'a>(v: &'a Option<AStr>) -> (r: Option<&'a str>)
    ensures
        match r {
            Some(s) => v.is_some() && s@ == v.unwrap()@,
            None => v.is_none(),
        },
{
    match v {
        Some(s) => Some(s.as_str()),
        None => None,
    }
}

fn client_info_ser<'a>(ci: &'a ClientInfo) -> (r: ClientInfoSer<'a, StrMapSer<'a>>)
    ensures
        r.json() == client_info_json(*ci),
{
    let sdk = if ci.sdk_name.is_some() || ci.sdk_version.is_some() {
        Some(SdkInfoSer { name: opt_astr_str(&ci.sdk_name), version: opt_astr_str(&ci.sdk_version) })
    } else {
        None
    };
    let device = match &ci.device {
        Some(d) => Some(device_pairs(d)),
        None => None,
    };
    ClientInfoSer { platform: opt_astr_str(&ci.platform), sdk, device }
}

/// The JSON text of the packet that opens a session for `config`.
pub fn open_session_packet(config: &JoinConfig) -> (r: Result<String, serde_json::Error>)
    requires
        config.wf(),
    ensures
        r matches Ok(t) && t@ == open_packet_json(*config),
{
    let client_info = match &config.advance.client_info {
        Some(ci) => Some(client_info_ser(ci)),
        None => None,
    };
    let user_tree = match &config.advance.user_tree {
        Some(t) => Some(tree_ops(t)),
        None => None,
    };
    let req = OpenSessionRequestSer {
        user_id: config.user_id.as_str(),
        room_id: config.room_id.as_str(),
        client_info,
        token: opt_astr_str(&config.advance.token),
        user_ext: opt_astr_str(&config.advance.user_ext),
        user_tree,
        batch: config.advance.batch,
    };
    let packet = PacketSer {
        typ: Some(PacketType::Request.as_num()),
        sn: None,
        body: Some(req.into_body()),
        ack: None,
    };
    packet.to_json()
}

} // verus!
