//! A connection as far as it can be told apart from its byte pipe: the
//! bytes that have arrived and belong to no finished frame yet, and whether
//! a request is in flight.
//!
//! The owner of the pipe writes the bytes that `send` returns and hands the
//! bytes it reads to `receive`. When its deadline passes it calls `expire`.

use vstd::prelude::*;
use crate::errors::DeviceError;
use crate::packets::PacketKind;
use crate::errors::EncodeError;
use crate::protocol::frame::{encode_extended, spec_extended_request};
use crate::protocol::{
    receive, receive_extended, spec_receive, spec_receive_extended, Received, ReceivedView, Reply,
    Request,
};
use crate::varint::VAR_U16_MAX;
use crate::wire::{append, copy_range};

verus! {

/// The state of one connection.
#[derive(Debug, PartialEq, Eq)]
pub struct Connection {
    input: Vec<u8>,
    in_flight: bool,
}

impl Connection {
    /// The bytes that have arrived and belong to no finished frame yet.
    pub closed spec fn spec_input(&self) -> Seq<u8> {
        self.input@
    }

    /// Whether a request awaits its reply.
    pub closed spec fn spec_in_flight(&self) -> bool {
        self.in_flight
    }

    /// A connection on which nothing has happened yet.
    pub fn new() -> (r: Self)
        ensures
            r.spec_input() == Seq::<u8>::empty(),
            !r.spec_in_flight(),
    {
        Connection { input: Vec::new(), in_flight: false }
    }

    /// Whether a request awaits its reply.
    pub fn in_flight(&self) -> (r: bool)
        ensures
            r == self.spec_in_flight(),
    {
        self.in_flight
    }

    /// The number of bytes held back for a frame that is not whole yet.
    pub fn pending(&self) -> (r: usize)
        ensures
            r == self.spec_input().len(),
    {
        self.input.len()
    }

    /// Takes a request in flight and returns the bytes to write for it.
    /// While a request is in flight any other is refused as `Busy`; a
    /// request that cannot be encoded is refused and leaves the connection
    /// free.
    pub fn send(&mut self, request: &Request) -> (r: Result<Vec<u8>, DeviceError>)
        ensures
            final(self).spec_input() == old(self).spec_input(),
            old(self).spec_in_flight() ==> r == Err::<Vec<u8>, DeviceError>(DeviceError::Busy)
                && final(self).spec_in_flight(),
            !old(self).spec_in_flight() ==> match request.spec_frame() {
                Ok(frame) => r is Ok && r->Ok_0@ == frame && final(self).spec_in_flight(),
                Err(e) => r == Err::<Vec<u8>, DeviceError>(DeviceError::Encode(e)) && !final(self).spec_in_flight(),
            },
    {
        if self.in_flight {
            return Err(DeviceError::Busy);
        }
        match request.encode() {
            Ok(frame) => {
                self.in_flight = true;
                Ok(frame)
            },
            Err(e) => Err(DeviceError::Encode(e)),
        }
    }

    /// Takes in the bytes that were read and looks for the reply to the
    /// request of `kind`. As long as the reply is not whole the bytes are
    /// kept and `None` comes back. A reply or a failure ends the flight and
    /// drops the bytes it is done with.
    pub fn receive(&mut self, kind: PacketKind, incoming: &[u8]) -> (r: Result<
        Option<Reply>,
        DeviceError,
    >)
        ensures
            match spec_receive(kind, old(self).spec_input() + incoming@) {
                ReceivedView::Incomplete => r is Ok && r->Ok_0 is None && final(self).spec_input()
                    == old(self).spec_input() + incoming@ && final(self).spec_in_flight() == old(self).spec_in_flight(),
                ReceivedView::Reply { reply, consumed } => r is Ok && r->Ok_0 is Some
                    && r->Ok_0->Some_0@ == reply && final(self).spec_input() == (old(self).spec_input() + incoming@).skip(consumed as int) && !final(self).spec_in_flight(),
                ReceivedView::Failed { error, consumed } => r == Err::<
                    Option<Reply>,
                    DeviceError,
                >(error) && final(self).spec_input() == (old(self).spec_input()
                    + incoming@).skip(consumed as int) && !final(self).spec_in_flight(),
            },
    {
        append(&mut self.input, incoming);
        let outcome = receive(kind, self.input.as_slice());
        match outcome {
            Received::Incomplete => Ok(None),
            Received::Reply { reply, consumed } => {
                self.drop_front(consumed);
                self.in_flight = false;
                Ok(Some(reply))
            },
            Received::Failed { error, consumed } => {
                self.drop_front(consumed);
                self.in_flight = false;
                Err(error)
            },
        }
    }

    /// Takes an extended command that the catalog does not hold in flight
    /// and returns the bytes to write for it. While a request is in flight
    /// any other is refused as `Busy`; a payload that is too long for the
    /// length field is refused and leaves the connection free.
    pub fn send_extended(&mut self, extended: u8, payload: &[u8]) -> (r: Result<
        Vec<u8>,
        DeviceError,
    >)
        ensures
            final(self).spec_input() == old(self).spec_input(),
            old(self).spec_in_flight() ==> r == Err::<Vec<u8>, DeviceError>(DeviceError::Busy)
                && final(self).spec_in_flight(),
            !old(self).spec_in_flight() && payload@.len() <= VAR_U16_MAX ==> r is Ok
                && r->Ok_0@ == spec_extended_request(extended, payload@) && final(self).spec_in_flight(),
            !old(self).spec_in_flight() && payload@.len() > VAR_U16_MAX ==> r == Err::<
                Vec<u8>,
                DeviceError,
            >(DeviceError::Encode(EncodeError::VarShortTooLarge)) && !final(self).spec_in_flight(),
    {
        if self.in_flight {
            return Err(DeviceError::Busy);
        }
        match encode_extended(extended, payload) {
            Ok(frame) => {
                self.in_flight = true;
                Ok(frame)
            },
            Err(e) => Err(DeviceError::Encode(e)),
        }
    }

    /// Takes in the bytes that were read and looks for the reply to an
    /// extended command that the catalog does not hold. As long as the
    /// reply is not whole the bytes are kept and `None` comes back. The
    /// reply, which is its payload as it is, or a failure ends the flight
    /// and drops the bytes it is done with.
    pub fn receive_extended(&mut self, extended: u8, incoming: &[u8]) -> (r: Result<
        Option<Reply>,
        DeviceError,
    >)
        ensures
            match spec_receive_extended(extended, old(self).spec_input() + incoming@) {
                ReceivedView::Incomplete => r is Ok && r->Ok_0 is None && final(self).spec_input()
                    == old(self).spec_input() + incoming@ && final(self).spec_in_flight() == old(self).spec_in_flight(),
                ReceivedView::Reply { reply, consumed } => r is Ok && r->Ok_0 is Some
                    && r->Ok_0->Some_0@ == reply && final(self).spec_input() == (old(
                    self).spec_input() + incoming@).skip(consumed as int)
                    && !final(self).spec_in_flight(),
                ReceivedView::Failed { error, consumed } => r == Err::<
                    Option<Reply>,
                    DeviceError,
                >(error) && final(self).spec_input() == (old(self).spec_input()
                    + incoming@).skip(consumed as int) && !final(self).spec_in_flight(),
            },
    {
        append(&mut self.input, incoming);
        let outcome = receive_extended(extended, self.input.as_slice());
        match outcome {
            Received::Incomplete => Ok(None),
            Received::Reply { reply, consumed } => {
                self.drop_front(consumed);
                self.in_flight = false;
                Ok(Some(reply))
            },
            Received::Failed { error, consumed } => {
                self.drop_front(consumed);
                self.in_flight = false;
                Err(error)
            },
        }
    }

    /// Ends the flight because the deadline has passed. The bytes of a
    /// frame that is not whole yet are kept for a later call of `receive`.
    pub fn expire(&mut self) -> (r: DeviceError)
        ensures
            r == DeviceError::Timeout,
            final(self).spec_input() == old(self).spec_input(),
            !final(self).spec_in_flight(),
    {
        self.in_flight = false;
        DeviceError::Timeout
    }

    fn drop_front(&mut self, n: usize)
        requires
            n <= old(self).input@.len(),
        ensures
            final(self).input@ == old(self).input@.skip(n as int),
            final(self).in_flight == old(self).in_flight,
    {
        let rest = copy_range(self.input.as_slice(), n, self.input.len());
        assert(rest@ =~= self.input@.skip(n as int));
        self.input = rest;
    }
}

/// What a handshake does next.
#[derive(Clone, Debug, PartialEq, Eq)]
pub enum HandshakeAction {
    /// Write these bytes and wait for the reply once more.
    Send(Vec<u8>),
    /// The reply has come.
    Return(Reply),
    /// The handshake has failed.
    Abort(DeviceError),
}

/// What happened while a handshake waited.
#[derive(Clone, Debug, PartialEq, Eq)]
pub enum HandshakeEvent {
    /// The reply has come.
    Reply(Reply),
    /// The wait has ended without one.
    Error(DeviceError),
}

/// A request that is sent again each time its reply fails to come in time,
/// up to a number of times.
#[derive(Debug, PartialEq, Eq)]
pub struct Handshake {
    frame: Vec<u8>,
    retries_left: u32,
}

impl Handshake {
    /// The bytes that are written at every try.
    pub closed spec fn spec_frame(&self) -> Seq<u8> {
        self.frame@
    }

    /// The number of times the request may still be sent again.
    pub closed spec fn spec_retries_left(&self) -> u32 {
        self.retries_left
    }

    /// Starts a handshake and returns it with the bytes of the first try,
    /// unless the request cannot be encoded.
    pub fn start(request: &Request, max_retries: u32) -> (r: Result<
        (Handshake, Vec<u8>),
        DeviceError,
    >)
        ensures
            match request.spec_frame() {
                Ok(frame) => r is Ok && r->Ok_0.1@ == frame && r->Ok_0.0.spec_frame() == frame
                    && r->Ok_0.0.spec_retries_left() == max_retries,
                Err(e) => r is Err && r->Err_0 == DeviceError::Encode(e),
            },
    {
        match request.encode() {
            Ok(frame) => {
                let again = copy_range(frame.as_slice(), 0, frame.len());
                assert(again@ =~= frame@);
                Ok((Handshake { frame: again, retries_left: max_retries }, frame))
            },
            Err(e) => Err(DeviceError::Encode(e)),
        }
    }

    /// Decides what follows an event. A reply is returned. A timeout sends
    /// the same bytes again while tries are left and is the failure once
    /// none is. Any other error is the failure at once.
    pub fn step(&mut self, event: HandshakeEvent) -> (r: HandshakeAction)
        ensures
            final(self).spec_frame() == old(self).spec_frame(),
            match event {
                HandshakeEvent::Reply(reply) => r == HandshakeAction::Return(reply) && final(self).spec_retries_left() == old(self).spec_retries_left(),
                HandshakeEvent::Error(DeviceError::Timeout) => if old(self).spec_retries_left()
                    > 0 {
                    &&& r matches HandshakeAction::Send(bytes)
                    &&& bytes@ == old(self).spec_frame()
                    &&& final(self).spec_retries_left() == old(self).spec_retries_left() - 1
                } else {
                    &&& r == HandshakeAction::Abort(DeviceError::Timeout)
                    &&& final(self).spec_retries_left() == 0
                },
                HandshakeEvent::Error(e) => r == HandshakeAction::Abort(e) && final(self).spec_retries_left() == old(self).spec_retries_left(),
            },
    {
        match event {
            HandshakeEvent::Reply(reply) => HandshakeAction::Return(reply),
            HandshakeEvent::Error(DeviceError::Timeout) => {
                if self.retries_left > 0 {
                    self.retries_left = self.retries_left - 1;
                    let again = copy_range(self.frame.as_slice(), 0, self.frame.len());
                    assert(again@ =~= self.frame@);
                    HandshakeAction::Send(again)
                } else {
                    HandshakeAction::Abort(DeviceError::Timeout)
                }
            },
            HandshakeEvent::Error(e) => HandshakeAction::Abort(e),
        }
    }
}

} // verus!
