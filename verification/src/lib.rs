//! Verified core of the vvclient signalling client: the wire envelope,
//! the reliable-delivery queue, the room/user state machine and the
//! call/return records exchanged with the host application.

pub mod kit;
pub mod proto;
pub mod client;
pub mod glue;
pub mod trace_error;
