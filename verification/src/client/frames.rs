//! What the websocket reader keeps between frames: the text packet that
//! ended the last wait, a ping still to be answered, and whether the
//! connection closed.
use vstd::prelude::*;

verus! {

/// Settings of the websocket connector.
#[derive(Debug, Clone)]
pub struct TungConfig {
    /// accept any server certificate
    pub ignore_tls_cert: bool,
    /// disable Nagle's algorithm
    pub disable_nagle: bool,
}

impl Default for TungConfig {
    fn default() -> (r: Self)
        ensures
            !r.ignore_tls_cert,
            !r.disable_nagle,
    {
        TungConfig { ignore_tls_cert: false, disable_nagle: false }
    }
}

/// A websocket frame as the reader sees it.
#[derive(Debug, Clone, PartialEq)]
pub enum Frame {
    Text(String),
    Binary,
    Ping(Vec<u8>),
    Pong,
    Close,
    /// the stream ended
    End,
}

/// The reader's state between frames.
#[derive(Debug, Clone, PartialEq)]
pub struct RecvState {
    /// a text packet not taken yet
    pub packet: Option<String>,
    /// the payload of a ping not answered yet
    pub ping: Option<Vec<u8>>,
    pub closed: bool,
}

impl RecvState {
    pub fn new() -> (r: Self)
        ensures
            r.packet is None,
            r.ping is None,
            !r.closed,
    {
        RecvState { packet: None, ping: None, closed: false }
    }

    /// A packet waits to be taken: there is nothing to wait for.
    pub fn has_packet(&self) -> (r: bool)
        ensures
            r == self.packet is Some,
    {
        self.packet.is_some()
    }

    /// Takes in one frame; the result tells whether the wait ends. A text
    /// frame is kept as the packet, a ping's payload is kept for the
    /// answer, a close frame or the end of the stream closes; binary
    /// frames and pongs are ignored.
    pub fn on_frame(&mut self, f: Frame) -> (done: bool)
        ensures
            match f {
                Frame::Text(t) => done && final(self).packet == Some(t) && final(self).ping == old(self).ping
                    && final(self).closed == old(self).closed,
                Frame::Ping(d) => !done && final(self).ping == Some(d) && final(self).packet == old(self).packet
                    && final(self).closed == old(self).closed,
                Frame::Close | Frame::End => done && final(self).closed && final(self).packet == old(self).packet
                    && final(self).ping == old(self).ping,
                Frame::Binary | Frame::Pong => !done && *final(self) == *old(self),
            },
    {
        match f {
            Frame::Text(t) => {
                self.packet = Some(t);
                true
            },
            Frame::Ping(d) => {
                self.ping = Some(d);
                false
            },
            Frame::Close | Frame::End => {
                self.closed = true;
                true
            },
            Frame::Binary | Frame::Pong => false,
        }
    }

    /// The ping payload to answer with a pong, if any; it is answered once.
    pub fn take_ping(&mut self) -> (r: Option<Vec<u8>>)
        ensures
            r == old(self).ping,
            final(self).ping is None,
            final(self).packet == old(self).packet,
            final(self).closed == old(self).closed,
    {
        self.ping.take()
    }

    /// The packet that ended the wait, if any; it is taken once.
    pub fn take_packet(&mut self) -> (r: Option<String>)
        ensures
            r == old(self).packet,
            final(self).packet is None,
            final(self).ping == old(self).ping,
            final(self).closed == old(self).closed,
    {
        self.packet.take()
    }
}

} // verus!
