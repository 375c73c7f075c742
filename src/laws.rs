//! Properties of framing and acknowledgement that hold across calls.

use crate::opcodes::{body_of, lemma_body_nonempty, OpCodes};
use crate::{
    accepts, byte_pairs, frame_bytes, frame_of, lemma_byte_pairs_len, next_state, preamble,
    sent_body, toggle_applies, wrapping_sum, LinkState,
};
use vstd::prelude::*;

verus! {

/// Plain integer sum of the bytes.
pub open spec fn byte_total(body: Seq<u8>) -> int
    decreases body.len(),
{
    if body.len() == 0 {
        0
    } else {
        byte_total(body.drop_last()) + body.last()
    }
}

/// The checksum is the sum of the bytes modulo 256.
pub proof fn checksum_is_sum_mod_256(body: Seq<u8>)
    ensures
        wrapping_sum(body) as int == byte_total(body) % 256,
    decreases body.len(),
{
    if body.len() > 0 {
        checksum_is_sum_mod_256(body.drop_last());
    }
}

/// Each body byte `b` stands in the byte pairs as `b` followed by `!b`.
pub proof fn byte_pairs_layout(body: Seq<u8>)
    ensures
        byte_pairs(body).len() == 2 * body.len(),
        forall|i: int|
            0 <= i < body.len() ==> #[trigger] byte_pairs(body)[2 * i] == body[i] && byte_pairs(
                body,
            )[2 * i + 1] == !body[i],
    decreases body.len(),
{
    lemma_byte_pairs_len(body);
    if body.len() > 0 {
        let rest = body.drop_last();
        byte_pairs_layout(rest);
        assert forall|i: int| 0 <= i < body.len() implies #[trigger] byte_pairs(body)[2 * i]
            == body[i] && byte_pairs(body)[2 * i + 1] == !body[i] by {
            if i < rest.len() {
                assert(byte_pairs(rest)[2 * i] == rest[i]);
            }
        }
    }
}

/// Layout of a frame: the preamble, each body byte with its complement, then
/// the checksum (the wrapping sum of the body) and its complement.
pub proof fn frame_layout(body: Seq<u8>)
    ensures
        frame_bytes(body).len() == 2 * body.len() + 6,
        frame_bytes(body).subrange(0, 4) == preamble(),
        forall|i: int|
            0 <= i < body.len() ==> #[trigger] frame_bytes(body)[4 + 2 * i] == body[i]
                && frame_bytes(body)[5 + 2 * i] == !body[i],
        frame_bytes(body)[2 * body.len() as int + 4] == wrapping_sum(body),
        frame_bytes(body)[2 * body.len() as int + 5] == !frame_bytes(body)[2 * body.len() as int + 4],
{
    byte_pairs_layout(body);
    let f = frame_bytes(body);
    let p = byte_pairs(body);
    assert(f.subrange(0, 4) =~= preamble());
    assert forall|i: int| 0 <= i < body.len() implies #[trigger] f[4 + 2 * i] == body[i] && f[5
        + 2 * i] == !body[i] by {
        assert(p[2 * i] == body[i]);
        assert(f[4 + 2 * i] == p[2 * i]);
        assert(f[5 + 2 * i] == p[2 * i + 1]);
    }
}

/// With the toggle bit clear, or in byte-code mode, a frame carries the
/// opcode's body unchanged.
pub proof fn untoggled_frame_is_plain(s: LinkState, op: OpCodes)
    requires
        !toggle_applies(s),
    ensures
        frame_of(s, op) == frame_bytes(body_of(op)),
{
}

/// Serialization depends on the opcode alone, and the link state changes at
/// most bit 0x08 of the first body byte: every other byte, and the length,
/// stay as the opcode's body has them.
pub proof fn body_independent_of_link_state(s: LinkState, a: OpCodes, b: OpCodes)
    requires
        a == b,
    ensures
        body_of(a) == body_of(b),
        sent_body(s, a).len() == body_of(a).len(),
        sent_body(s, a).subrange(1, body_of(a).len() as int) == body_of(a).subrange(
            1,
            body_of(a).len() as int,
        ),
        sent_body(s, a)[0] == body_of(a)[0] || sent_body(s, a)[0] == body_of(a)[0] | 0x08,
{
    lemma_body_nonempty(a);
    assert(sent_body(s, a).subrange(1, body_of(a).len() as int) =~= body_of(a).subrange(
        1,
        body_of(a).len() as int,
    ));
}

/// In line mode the toggle bit is set on every second frame, whatever the
/// opcodes; in byte-code mode it is never set.
pub proof fn toggle_alternates(s: LinkState, a: OpCodes, b: OpCodes)
    ensures
        next_state(s, a).byte_code_mode == s.byte_code_mode,
        next_state(next_state(s, a), b).toggle == s.toggle,
        !s.byte_code_mode ==> toggle_applies(next_state(s, a)) == !toggle_applies(s),
        s.byte_code_mode ==> !toggle_applies(next_state(s, a)),
{
}

/// From a clear toggle bit in line mode, four frames of `Alive` carry the
/// one-byte bodies 0x10, 0x18, 0x10, 0x18, and the toggle bit is clear again.
pub proof fn alive_tags_alternate(s0: LinkState)
    requires
        !s0.toggle,
        !s0.byte_code_mode,
    ensures
        sent_body(s0, OpCodes::Alive) == seq![0x10u8],
        sent_body(next_state(s0, OpCodes::Alive), OpCodes::Alive) == seq![0x18u8],
        sent_body(next_state(next_state(s0, OpCodes::Alive), OpCodes::Alive), OpCodes::Alive)
            == seq![0x10u8],
        sent_body(
            next_state(next_state(next_state(s0, OpCodes::Alive), OpCodes::Alive), OpCodes::Alive),
            OpCodes::Alive,
        ) == seq![0x18u8],
        !next_state(
            next_state(next_state(next_state(s0, OpCodes::Alive), OpCodes::Alive), OpCodes::Alive),
            OpCodes::Alive,
        ).toggle,
{
    assert(0x10u8 | 0x08u8 == 0x18u8) by (bit_vector);
    let s1 = next_state(s0, OpCodes::Alive);
    let s3 = next_state(next_state(s1, OpCodes::Alive), OpCodes::Alive);
    assert(sent_body(s1, OpCodes::Alive) =~= seq![0x18u8]);
    assert(sent_body(s3, OpCodes::Alive) =~= seq![0x18u8]);
}

/// After a frame is built, a reply byte is accepted exactly when it is the
/// complement of the frame's tag byte (the byte after the preamble).
pub proof fn accepts_complement_of_sent_tag(s: LinkState, op: OpCodes, reply: u8)
    ensures
        accepts(next_state(s, op), reply) <==> reply == !frame_of(s, op)[4],
{
    lemma_body_nonempty(op);
    crate::lemma_first_pair(sent_body(s, op));
}

/// Before any frame is built, no reply byte is accepted.
pub proof fn nothing_accepted_before_send(byte_code_mode: bool, reply: u8)
    ensures
        !accepts(LinkState { last_sent: None, toggle: false, byte_code_mode }, reply),
{
}

} // verus!
