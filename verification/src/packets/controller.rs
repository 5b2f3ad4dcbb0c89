//! The packets that reach through a controller: the user FIFO, which carries
//! a program's standard streams, and the radio channel switch.

use vstd::prelude::*;
use crate::errors::DecodeError;
use crate::string::{spec_decode_var, spec_encode_var, VarLengthString};
use crate::v5::meta::V5ControllerChannel;
use crate::wire::append;
use vstd::slice::slice_subrange;

verus! {

/// The channel of a program's standard streams.
pub const STDIO_CHANNEL: u8 = 1;

/// The most bytes one FIFO packet carries.
pub const USER_FIFO_MAX: usize = 224;

#[derive(Debug, Clone, PartialEq, Eq)]
pub struct UserFifoPayload {
    /// stdio channel is 1, other channels unknown.
    pub channel: u8,
    /// Write (stdin) bytes.
    pub write: Option<VarLengthString<224>>,
}

/// The payload of a FIFO request: the channel, the length of what is
/// written, terminator included, and what is written with its terminator; a
/// request that writes nothing has a zero length and ends there.
pub open spec fn spec_user_fifo_payload(channel: u8, write: Option<Seq<u8>>) -> Seq<u8> {
    match write {
        Some(bytes) => seq![channel, (bytes.len() + 1) as u8] + spec_encode_var(bytes),
        None => seq![channel, 0u8],
    }
}

impl UserFifoPayload {
    /// What is written, as plain bytes.
    pub open spec fn spec_write(self) -> Option<Seq<u8>> {
        match self.write {
            Some(w) => Some(w@),
            None => None,
        }
    }

    /// The bytes of the payload.
    pub fn encode(&self) -> (r: Vec<u8>)
        ensures
            r@ == spec_user_fifo_payload(self.channel, self.spec_write()),
    {
        let mut encoded: Vec<u8> = Vec::new();
        encoded.push(self.channel);
        match &self.write {
            Some(write) => {
                let encoded_write = write.encode();
                encoded.push(encoded_write.len() as u8);
                assert(encoded@ =~= seq![self.channel, (write@.len() + 1) as u8]);
                append(&mut encoded, encoded_write.as_slice());
            },
            None => {
                encoded.push(0);
                assert(encoded@ =~= seq![self.channel, 0u8]);
            },
        }
        encoded
    }
}

#[derive(Debug, Clone, PartialEq, Eq)]
pub struct UserFifoReplyPayload {
    /// stdio channel is 1, other channels unknown.
    pub channel: u8,
    /// Bytes read from stdout.
    pub data: Option<VarLengthString<224>>,
}

/// What a FIFO reply says: the channel, and the terminated string that
/// follows it where anything follows.
pub open spec fn spec_decode_user_fifo_reply(payload: Seq<u8>) -> Result<
    (u8, Option<Seq<u8>>),
    DecodeError,
> {
    if payload.len() == 0 {
        Err(DecodeError::UnexpectedEnd)
    } else if payload.len() == 1 {
        Ok((payload[0], None))
    } else {
        match spec_decode_var(payload.subrange(1, payload.len() as int), USER_FIFO_MAX as nat) {
            Ok(s) => Ok((payload[0], Some(s))),
            Err(e) => Err(e),
        }
    }
}

impl UserFifoReplyPayload {
    /// What was read, as plain bytes.
    pub open spec fn spec_data(self) -> Option<Seq<u8>> {
        match self.data {
            Some(d) => Some(d@),
            None => None,
        }
    }

    /// Reads a FIFO reply.
    pub fn decode(payload: &[u8]) -> (r: Result<UserFifoReplyPayload, DecodeError>)
        ensures
            match spec_decode_user_fifo_reply(payload@) {
                Ok((channel, data)) => r is Ok && r->Ok_0.channel == channel
                    && r->Ok_0.spec_data() == data,
                Err(e) => r == Err::<UserFifoReplyPayload, DecodeError>(e),
            },
    {
        if payload.len() == 0 {
            return Err(DecodeError::UnexpectedEnd);
        }
        let channel: u8 = payload[0];
        if payload.len() == 1 {
            return Ok(UserFifoReplyPayload { channel, data: None });
        }
        match VarLengthString::<224>::decode(slice_subrange(payload, 1, payload.len())) {
            Ok((read, _)) => Ok(UserFifoReplyPayload { channel, data: Some(read) }),
            Err(e) => Err(e),
        }
    }
}

/// The payload that asks for `limit` bytes of a channel and writes `data`
/// to it in raw form: the channel, the limit, then the data as they are.
pub open spec fn spec_serial_payload(channel: u8, limit: u8, data: Seq<u8>) -> Seq<u8> {
    seq![channel, limit] + data
}

/// The bytes of a raw FIFO payload.
pub fn encode_serial(channel: u8, limit: u8, data: &[u8]) -> (r: Vec<u8>)
    ensures
        r@ == spec_serial_payload(channel, limit, data@),
{
    let mut out: Vec<u8> = Vec::new();
    out.push(channel);
    out.push(limit);
    assert(out@ =~= seq![channel, limit]);
    append(&mut out, data);
    out
}

/// The payload that switches the radio channel.
pub open spec fn spec_switch_payload(channel: V5ControllerChannel) -> Seq<u8> {
    seq![channel.spec_code()]
}

/// The bytes of the payload that switches the radio channel.
pub fn encode_switch(channel: V5ControllerChannel) -> (r: Vec<u8>)
    ensures
        r@ == spec_switch_payload(channel),
{
    let mut out: Vec<u8> = Vec::new();
    out.push(channel.code());
    out
}

} // verus!
