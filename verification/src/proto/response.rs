//! The typed payload of a server response.
use vstd::prelude::*;

use super::v1::{
    BatchEndResponse, ChatResponse, CloseSessionResponse, ConnectWebrtcTransportResponse,
    CreateWebrtcTransportResponse, EndResponse, HeartbeatResponse, LayerResponse, MuteResponse,
    OpenSessionResponse, PublishResponse, ReconnectResponse, SubscribeResponse, UnPublishResponse,
    UnSubscribeResponse, UpdateExtResponse, UpdateTreeResponse,
};

verus! {

#[derive(Clone, Debug, PartialEq)]
pub enum ResponseType {
    Open(OpenSessionResponse),
    Reconn(ReconnectResponse),
    Close(CloseSessionResponse),
    CreateX(CreateWebrtcTransportResponse),
    ConnX(ConnectWebrtcTransportResponse),
    Pub(PublishResponse),
    UPub(UnPublishResponse),
    Sub(SubscribeResponse),
    USub(UnSubscribeResponse),
    Mute(MuteResponse),
    Layer(LayerResponse),
    End(EndResponse),
    UpExt(UpdateExtResponse),
    UpUTree(UpdateTreeResponse),
    UpRTree(UpdateTreeResponse),
    Chat(ChatResponse),
    BEnd(BatchEndResponse),
    HB(HeartbeatResponse),
}

} // verus!
