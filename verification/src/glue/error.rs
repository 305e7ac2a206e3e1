//! Errors handed to the host application.
use vstd::prelude::*;

use crate::kit::text::{bracketed, bracketed_text};
use crate::proto::v1::{bracketed_int, bracketed_int_text, status_text, InvalidStreamType, Status};

verus! {

/// An error raised by a host callback.
#[derive(Clone, Debug, PartialEq)]
pub enum ForeignError {
    Busy,
    /// an unexpected failure with its reason
    Unexpected(String),
}

/// What went wrong inside the client.
#[derive(Debug)]
pub enum ClientError {
    /// a response of another kind than the request expects; names the
    /// expected kind
    UnexpectedResponse(&'static str),
    /// rendering JSON text failed
    Json(serde_json::Error),
    /// no user with the id the request names
    UserNotFound,
    /// the receiving transport is not created yet
    NoDownlinkTransport,
    /// the user publishes no stream of the type the request names
    StreamNotFound,
    /// a stream carries a type number that names no stream type
    InvalidStreamType(i32),
    /// a response acknowledges a request that is not waiting
    NoResponseHandler(i64),
    /// a response carries no typed payload
    NoResponseType,
    /// a user tree update names no user
    NoTreeUserId,
    /// the server closed the session with this status
    Closed(Status),
    /// a host callback failed
    Callback(ForeignError),
}

/// The text of a host error: `Busy`, or `Unexpected error [<reason>]`.
pub open spec fn foreign_error_text(e: ForeignError) -> Seq<char> {
    match e {
        ForeignError::Busy => "Busy"@,
        ForeignError::Unexpected(s) => bracketed("Unexpected error "@, s@),
    }
}

impl ForeignError {
    pub fn message(&self) -> (r: String)
        ensures
            r@ == foreign_error_text(*self),
    {
        match self {
            ForeignError::Busy => "Busy".to_owned(),
            ForeignError::Unexpected(s) => bracketed_text("Unexpected error ", s.as_str()),
        }
    }
}

/// The text of a client error.
pub open spec fn client_error_text(e: ClientError) -> Seq<char> {
    match e {
        ClientError::UnexpectedResponse(k) => bracketed("Unexpect response of "@, k@),
        ClientError::Json(_) => "invalid json"@,
        ClientError::UserNotFound => "Not found user"@,
        ClientError::NoDownlinkTransport => "no dlink_x_id"@,
        ClientError::StreamNotFound => "can't find stream for sub"@,
        ClientError::InvalidStreamType(v) => bracketed_int("invalid StreamType "@, v as int),
        ClientError::NoResponseHandler(ack) => bracketed_int(
            "Not found response handler for ack "@,
            ack as int,
        ),
        ClientError::NoResponseType => "no typ field in response"@,
        ClientError::NoTreeUserId => "no user_id in user tree"@,
        ClientError::Closed(s) => status_text(s),
        ClientError::Callback(f) => foreign_error_text(f),
    }
}

impl ClientError {
    /// What went wrong, as text.
    pub fn message(&self) -> (r: String)
        ensures
            r@ == client_error_text(*self),
    {
        match self {
            ClientError::UnexpectedResponse(k) => bracketed_text("Unexpect response of ", k),
            ClientError::Json(_) => "invalid json".to_owned(),
            ClientError::UserNotFound => "Not found user".to_owned(),
            ClientError::NoDownlinkTransport => "no dlink_x_id".to_owned(),
            ClientError::StreamNotFound => "can't find stream for sub".to_owned(),
            ClientError::InvalidStreamType(v) => bracketed_int_text("invalid StreamType ", *v as i64),
            ClientError::NoResponseHandler(ack) => bracketed_int_text(
                "Not found response handler for ack ",
                *ack,
            ),
            ClientError::NoResponseType => "no typ field in response".to_owned(),
            ClientError::NoTreeUserId => "no user_id in user tree".to_owned(),
            ClientError::Closed(s) => s.to_text(),
            ClientError::Callback(f) => f.message(),
        }
    }
}

/// The error type of the client's entry points.
#[derive(Debug)]
pub struct Error {
    e: ClientError,
}

impl Error {
    pub closed spec fn kind(&self) -> ClientError {
        self.e
    }

    pub fn new(e: ClientError) -> (r: Error)
        ensures
            r.kind() == e,
    {
        Error { e }
    }

    pub fn inner(&self) -> (r: &ClientError)
        ensures
            *r == self.kind(),
    {
        &self.e
    }

    /// The error's text.
    pub fn message(&self) -> (r: String)
        ensures
            r@ == client_error_text(self.kind()),
    {
        self.e.message()
    }

    /// The error's text with the debug view of the error; an error of the
    /// client carries no chain of contexts, so this is its text.
    pub fn debug(&self) -> (r: String)
        ensures
            r@ == client_error_text(self.kind()),
    {
        self.e.message()
    }
}

impl From<ForeignError> for Error {
    fn from(value: ForeignError) -> (r: Error) {
        Error { e: ClientError::Callback(value) }
    }
}

impl vstd::std_specs::convert::FromSpecImpl<ForeignError> for Error {
    open spec fn obeys_from_spec() -> bool {
        true
    }

    closed spec fn from_spec(v: ForeignError) -> Error {
        Error { e: ClientError::Callback(v) }
    }
}

/// The error of a stream type number that names no type.
pub fn invalid_stream_type(e: InvalidStreamType) -> (r: ClientError)
    ensures
        r == ClientError::InvalidStreamType(e.value),
{
    ClientError::InvalidStreamType(e.value)
}

} // verus!
