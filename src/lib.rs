//! Host-side command protocol for a programmable brick on a half-duplex
//! serial link: the opcode catalog, frame encoding with toggle bit and
//! checksum, and acknowledgement checking.

pub mod opcodes;
pub mod laws;
pub mod reply;

use opcodes::{body_of, lemma_body_nonempty, OpCodes};
use vstd::prelude::*;

verus! {

/// The first four bytes of every frame.
pub open spec fn preamble() -> Seq<u8> {
    seq![0xfeu8, 0x00, 0x00, 0xff]
}

/// Wrapping 8-bit sum of the bytes.
pub open spec fn wrapping_sum(body: Seq<u8>) -> u8
    decreases body.len(),
{
    if body.len() == 0 {
        0
    } else {
        wrapping_sum(body.drop_last()).wrapping_add(body.last())
    }
}

/// Each byte followed by its bitwise complement.
pub open spec fn byte_pairs(body: Seq<u8>) -> Seq<u8>
    decreases body.len(),
{
    if body.len() == 0 {
        Seq::empty()
    } else {
        byte_pairs(body.drop_last()) + seq![body.last(), !body.last()]
    }
}

/// The frame that carries a body: preamble, the byte pairs of the body, and
/// the checksum with its complement.
pub open spec fn frame_bytes(body: Seq<u8>) -> Seq<u8> {
    preamble() + byte_pairs(body) + seq![wrapping_sum(body), !wrapping_sum(body)]
}

/// The link state of a protocol handler.
pub struct LinkState {
    /// First body byte of the most recent frame, as sent.
    pub last_sent: Option<u8>,
    /// Whether the next line-mode frame carries the toggle bit.
    pub toggle: bool,
    /// In byte-code mode the toggle bit is never set.
    pub byte_code_mode: bool,
}

/// Whether the next frame built in state `s` carries the toggle bit.
pub open spec fn toggle_applies(s: LinkState) -> bool {
    s.toggle && !s.byte_code_mode
}

/// The body as it goes on the wire in state `s`: the opcode's body, with bit
/// 0x08 set on its first byte when the toggle bit applies.
pub open spec fn sent_body(s: LinkState, op: OpCodes) -> Seq<u8> {
    let body = body_of(op);
    if toggle_applies(s) {
        body.update(0, body[0] | 0x08)
    } else {
        body
    }
}

/// The frame that `create_msg` builds for `op` in state `s`.
pub open spec fn frame_of(s: LinkState, op: OpCodes) -> Seq<u8> {
    frame_bytes(sent_body(s, op))
}

/// The link state after a frame for `op` has been built in state `s`.
pub open spec fn next_state(s: LinkState, op: OpCodes) -> LinkState {
    LinkState {
        last_sent: Some(sent_body(s, op)[0]),
        toggle: !s.toggle,
        byte_code_mode: s.byte_code_mode,
    }
}

/// Whether `response` acknowledges the last frame sent in state `s`: it is the
/// complement of that frame's tag byte.
pub open spec fn accepts(s: LinkState, response: u8) -> bool {
    match s.last_sent {
        Some(tag) => response == !tag,
        None => false,
    }
}

/// Holds the link state: the tag of the last frame, the toggle bit phase and
/// the mode.
#[derive(Debug)]
pub struct ProtocolHandler {
    /// The first body byte of the last frame, to check the reply against.
    last_send_opcode: Option<u8>,
    /// Whether the next frame sets the toggle bit (line mode only).
    toggle_bit_was_set: bool,
    /// In byte-code mode the toggle bit is not used.
    byte_code_mode: bool,
}

impl View for ProtocolHandler {
    type V = LinkState;

    closed spec fn view(&self) -> LinkState {
        LinkState {
            last_sent: self.last_send_opcode,
            toggle: self.toggle_bit_was_set,
            byte_code_mode: self.byte_code_mode,
        }
    }
}

impl ProtocolHandler {
    /// A handler that has sent nothing yet, with the toggle bit clear.
    pub fn new(byte_code_mode: bool) -> (r: Self)
        ensures
            r@ == (LinkState { last_sent: None, toggle: false, byte_code_mode }),
    {
        ProtocolHandler { last_send_opcode: None, toggle_bit_was_set: false, byte_code_mode }
    }

    /// Frames an opcode: sets the toggle bit on every second line-mode frame,
    /// appends each byte with its complement and the checksum pair, and
    /// records the tag byte for checking the reply.
    pub fn create_msg(&mut self, opcode: OpCodes) -> (r: Vec<u8>)
        ensures
            r@ == frame_of(old(self)@, opcode),
            final(self)@ == next_state(old(self)@, opcode),
    {
        let mut msg: Vec<u8> = vec![0xfe, 0x00, 0x00, 0xff];
        let mut body: Vec<u8> = opcode.serialize();
        proof {
            lemma_body_nonempty(opcode);
        }
        let ghost sent = sent_body(self@, opcode);
        if self.toggle_bit_was_set && !self.byte_code_mode {
            let first = body[0] | 0x08;
            body.set(0, first);
        }
        assert(body@ =~= sent);
        self.toggle_bit_was_set = !self.toggle_bit_was_set;

        let mut checksum: u8 = 0;
        let mut i: usize = 0;
        while i < body.len()
            invariant
                0 <= i <= body.len(),
                body@ == sent,
                msg@ == preamble() + byte_pairs(body@.take(i as int)),
                checksum == wrapping_sum(body@.take(i as int)),
            decreases body.len() - i,
        {
            let byte = body[i];
            proof {
                assert(body@.take(i + 1).drop_last() =~= body@.take(i as int));
            }
            msg.push(byte);
            msg.push(!byte);
            checksum = checksum.wrapping_add(byte);
            i = i + 1;
        }
        assert(body@.take(i as int) =~= sent);
        msg.push(checksum);
        msg.push(!checksum);
        assert(msg@ =~= frame_bytes(sent));
        proof {
            lemma_first_pair(sent);
        }
        self.last_send_opcode = Some(msg[4]);
        msg
    }

    /// The tag byte of the last frame, if any was built.
    pub fn last_sent_tag(&self) -> (r: Option<u8>)
        ensures
            r == self@.last_sent,
    {
        self.last_send_opcode
    }

    /// Checks the first byte of a reply: it must be the complement of the
    /// tag byte of the last frame.
    pub fn check_response(&mut self, response: u8) -> (r: Result<(), ()>)
        ensures
            final(self)@ == old(self)@,
            r is Ok <==> accepts(old(self)@, response),
    {
        match self.last_send_opcode {
            Some(last_opcode) => {
                if response == !last_opcode {
                    Ok(())
                } else {
                    Err(())
                }
            },
            None => Err(()),
        }
    }
}

/// The first body byte stands right after the preamble.
pub(crate) proof fn lemma_first_pair(body: Seq<u8>)
    requires
        body.len() >= 1,
    ensures
        frame_bytes(body)[4] == body[0],
        frame_bytes(body)[5] == !body[0],
{
    lemma_pairs_start(body);
    lemma_byte_pairs_len(body);
    let f = frame_bytes(body);
    assert(f == preamble() + byte_pairs(body) + seq![wrapping_sum(body), !wrapping_sum(body)]);
    assert(f[4] == byte_pairs(body)[0]);
    assert(f[5] == byte_pairs(body)[1]);
}

pub(crate) proof fn lemma_pairs_start(body: Seq<u8>)
    requires
        body.len() >= 1,
    ensures
        byte_pairs(body)[0] == body[0],
        byte_pairs(body)[1] == !body[0],
    decreases body.len(),
{
    if body.len() > 1 {
        let rest = body.drop_last();
        lemma_pairs_start(rest);
        lemma_byte_pairs_len(rest);
        assert(rest[0] == body[0]);
    } else {
        assert(body.drop_last().len() == 0);
        assert(byte_pairs(body.drop_last()) =~= Seq::<u8>::empty());
    }
}

pub proof fn lemma_byte_pairs_len(body: Seq<u8>)
    ensures
        byte_pairs(body).len() == 2 * body.len(),
    decreases body.len(),
{
    if body.len() > 0 {
        lemma_byte_pairs_len(body.drop_last());
    }
}

} // verus!
