//! Collecting the brick's reply and deciding whether it acknowledges the last
//! frame. The transport itself stays with the caller: it performs each read
//! and hands the outcome to `next_read_step`.

use crate::{accepts, ProtocolHandler};
use vstd::prelude::*;

verus! {

/// A reply must hold at least the four preamble bytes and the tag byte.
pub const MIN_REPLY_LEN: usize = 5;

/// Why an exchange with the brick failed.
#[derive(Debug)]
pub enum LinkError {
    /// The transport could not be opened, configured or signalled.
    TransportInit(String),
    /// Writing the frame failed.
    Write,
    /// A read failed for a reason other than a timeout.
    Read(String),
    /// Fewer than `MIN_REPLY_LEN` bytes arrived before the timeout.
    NoAnswer,
    /// The reply does not acknowledge the last frame.
    Mismatch { reply: Vec<u8>, last_sent: Option<u8> },
}

/// The outcome of one read on the transport.
#[derive(Debug)]
pub enum ReadEvent {
    /// These bytes arrived.
    Received(Vec<u8>),
    /// No more bytes arrived within the read timeout.
    TimedOut,
    /// The read failed; the transport's description of the failure.
    Failed(String),
}

/// What to do after a read.
#[derive(Debug)]
pub enum ReadStep {
    /// Read again; the bytes received so far.
    Continue(Vec<u8>),
    /// The exchange is over, with this result.
    Finished(Result<(), LinkError>),
}

/// Whether `r` is the result of checking the complete reply `reply` in link
/// state `s`.
pub open spec fn reply_verdict(s: crate::LinkState, reply: Seq<u8>, r: Result<(), LinkError>) -> bool {
    if reply.len() < MIN_REPLY_LEN {
        r matches Err(LinkError::NoAnswer)
    } else if accepts(s, reply[1]) {
        r is Ok
    } else {
        match r {
            Err(LinkError::Mismatch { reply: got, last_sent }) => got@ == reply && last_sent
                == s.last_sent,
            _ => false,
        }
    }
}

/// Checks a complete reply: too short a reply is no answer; otherwise its
/// byte at offset 1 must acknowledge the last frame.
pub fn evaluate_reply(handler: &mut ProtocolHandler, reply: Vec<u8>) -> (r: Result<(), LinkError>)
    ensures
        final(handler)@ == old(handler)@,
        reply_verdict(old(handler)@, reply@, r),
{
    if reply.len() >= MIN_REPLY_LEN {
        match handler.check_response(reply[1]) {
            Ok(()) => Ok(()),
            Err(()) => {
                let last_sent = handler.last_sent_tag();
                Err(LinkError::Mismatch { reply, last_sent })
            },
        }
    } else {
        Err(LinkError::NoAnswer)
    }
}

/// One step of receiving a reply: bytes are appended to those received so
/// far, a timeout ends the reply and checks it, a failed read ends the
/// exchange with `LinkError::Read`.
pub fn next_read_step(handler: &mut ProtocolHandler, received: Vec<u8>, event: ReadEvent) -> (r:
    ReadStep)
    ensures
        final(handler)@ == old(handler)@,
        match event {
            ReadEvent::Received(bytes) => (r matches ReadStep::Continue(all) && all@ == received@
                + bytes@),
            ReadEvent::TimedOut => (r matches ReadStep::Finished(res) && reply_verdict(
                old(handler)@,
                received@,
                res,
            )),
            ReadEvent::Failed(msg) => (r matches ReadStep::Finished(Err(LinkError::Read(m)))
                && m@ == msg@),
        },
{
    match event {
        ReadEvent::Received(bytes) => {
            let mut all = received;
            let mut more = bytes;
            all.append(&mut more);
            ReadStep::Continue(all)
        },
        ReadEvent::TimedOut => ReadStep::Finished(evaluate_reply(handler, received)),
        ReadEvent::Failed(msg) => ReadStep::Finished(Err(LinkError::Read(msg))),
    }
}

} // verus!
