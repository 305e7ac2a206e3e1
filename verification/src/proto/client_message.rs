//! The typed payload of a client request.
use vstd::prelude::*;

use super::v1::{
    BatchEndRequest, ChatRequest, CloseSessionRequest, ConnectWebrtcTransportRequest,
    CreateWebrtcTransportRequest, EndRequest, LayerRequest, MuteRequest, OpenSessionRequest,
    PublishRequest, ReconnectRequest, SubscribeRequest, UnPublishRequest, UnSubscribeRequest,
    UpdateExtRequest, UpdateTreeRequest,
};

verus! {

#[derive(Clone, Debug, PartialEq)]
pub enum MsgType {
    Open(OpenSessionRequest),
    Reconn(ReconnectRequest),
    Close(CloseSessionRequest),
    CreateX(CreateWebrtcTransportRequest),
    ConnX(ConnectWebrtcTransportRequest),
    Pub(PublishRequest),
    UPub(UnPublishRequest),
    Sub(SubscribeRequest),
    USub(UnSubscribeRequest),
    Mute(MuteRequest),
    Layer(LayerRequest),
    End(EndRequest),
    UpExt(UpdateExtRequest),
    UpUTree(UpdateTreeRequest),
    UpRTree(UpdateTreeRequest),
    Chat(ChatRequest),
    BEnd(BatchEndRequest),
}

} // verus!
