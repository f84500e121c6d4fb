//! The WebTransport side of the connection abstraction. The wire protocol
//! is not hooked up yet, so this adapter answers like an idle transport:
//! sends succeed without carrying data and the inbound stream is ended.

use vstd::prelude::*;

use crate::engine::TerminalMessage;
use crate::session::ConnectionType;

verus! {

/// A terminal connection carried over WebTransport.
#[derive(Debug)]
pub struct WebTransportConnection {
    pub id: String,
}

impl WebTransportConnection {
    /// Wrap a freshly accepted WebTransport session under its id.
    pub fn new(id: String) -> (r: WebTransportConnection)
        ensures
            r.id@ == id@,
    {
        WebTransportConnection { id }
    }

    pub fn id(&self) -> (r: &String)
        ensures
            r@ == self.id@,
    {
        &self.id
    }

    pub fn connection_type(&self) -> (r: ConnectionType)
        ensures
            r == ConnectionType::WebTransport,
    {
        ConnectionType::WebTransport
    }

    /// Accepted and dropped until the wire protocol is hooked up.
    pub fn send_text(&mut self, _message: &str) -> (r: Result<(), String>)
        ensures
            r is Ok,
            *final(self) == *old(self),
    {
        Ok(())
    }

    /// Accepted and dropped until the wire protocol is hooked up.
    pub fn send_binary(&mut self, _data: &[u8]) -> (r: Result<(), String>)
        ensures
            r is Ok,
            *final(self) == *old(self),
    {
        Ok(())
    }

    /// No messages arrive: the stream reports its end.
    pub fn receive(&mut self) -> (r: Option<Result<TerminalMessage, String>>)
        ensures
            r is None,
            *final(self) == *old(self),
    {
        None
    }

    /// Closing the idle transport always succeeds.
    pub fn close(&mut self) -> (r: Result<(), String>)
        ensures
            r is Ok,
            *final(self) == *old(self),
    {
        Ok(())
    }
}

} // verus!
