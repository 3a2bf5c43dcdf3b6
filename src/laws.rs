use vstd::prelude::*;

use crate::bytes::be_u32;
use crate::plugin::{merged, CustomInfoView, DecodeError, FlagField, PacketDirection, Stage};
use crate::wire::{len_word, spec_body, spec_decode, spec_header, spec_trace, status_of};

verus! {

/// The four bytes of `v`, most significant first.
pub open spec fn u32_be_bytes(v: u32) -> Seq<u8> {
    seq![(v >> 24u32) as u8, (v >> 16u32) as u8, (v >> 8u32) as u8, v as u8]
}

/// A length word as an encoder writes it: the top bit set and the length below it
/// where there is a length, zero where there is none.
pub open spec fn len_word_bytes(len: Option<u32>) -> Seq<u8> {
    match len {
        Some(v) => u32_be_bytes(v | 0x8000_0000u32),
        None => u32_be_bytes(0),
    }
}

/// The header as an encoder writes it.
pub open spec fn header_bytes(req_len: Option<u32>, resp_len: Option<u32>, id: Option<u32>) -> Seq<u8> {
    len_word_bytes(req_len) + len_word_bytes(resp_len) + match id {
        Some(i) => seq![1u8] + u32_be_bytes(i),
        None => seq![0u8],
    }
}

/// A length that fits in 31 bits, or none.
pub open spec fn fits_31_bits(len: Option<u32>) -> bool {
    match len {
        Some(v) => v < 0x8000_0000u32,
        None => true,
    }
}

proof fn lemma_be_u32_bytes(v: u32, rest: Seq<u8>, pre: Seq<u8>)
    ensures
        be_u32(pre + u32_be_bytes(v) + rest, pre.len() as int) == v,
{
    let b = pre + u32_be_bytes(v) + rest;
    let o = pre.len() as int;
    assert(b[o] == (v >> 24u32) as u8);
    assert(b[o + 1] == (v >> 16u32) as u8);
    assert(b[o + 2] == (v >> 8u32) as u8);
    assert(b[o + 3] == v as u8);
    assert(((((v >> 24u32) as u8) as u32) << 24u32) | ((((v >> 16u32) as u8) as u32) << 16u32)
        | ((((v >> 8u32) as u8) as u32) << 8u32) | ((v as u8) as u32) == v) by (bit_vector);
}

proof fn lemma_len_word(len: Option<u32>, rest: Seq<u8>, pre: Seq<u8>)
    requires
        fits_31_bits(len),
    ensures
        len_word(pre + len_word_bytes(len) + rest, pre.len() as int) == len,
{
    match len {
        Some(v) => {
            lemma_be_u32_bytes(v | 0x8000_0000u32, rest, pre);
            assert(v < 0x8000_0000u32 ==> (v | 0x8000_0000u32) & 0x8000_0000u32 != 0
                && (v | 0x8000_0000u32) & 0x7fff_ffffu32 == v) by (bit_vector);
        },
        None => {
            lemma_be_u32_bytes(0, rest, pre);
            assert(0u32 & 0x8000_0000u32 == 0) by (bit_vector);
        },
    }
}

/// A buffer shorter than the nine header bytes is refused as too short for the header,
/// whatever the direction.
pub proof fn lemma_short_buffer(b: Seq<u8>, dir: PacketDirection)
    requires
        b.len() < 9,
    ensures
        spec_decode(b, dir) == Err::<CustomInfoView, DecodeError>(DecodeError::TooShort(Stage::Header)),
{
}

/// A presence flag other than 0 or 1, met where the layout puts it, fails decoding with
/// that flag's error, so no record comes out.
pub proof fn lemma_invalid_flags(b: Seq<u8>, dir: PacketDirection)
    ensures
        b.len() >= 9 && b[8] > 1 ==> spec_decode(b, dir) == Err::<CustomInfoView, DecodeError>(
            DecodeError::InvalidFlag(FlagField::HasCorrelationId),
        ),
        spec_header(b) matches Ok((_, _, _, o)) ==> (dir == PacketDirection::ServerToClient && o
            + 1 < b.len() && status_of(b[o]) is Some && b[o + 1] > 1 ==> spec_decode(b, dir)
            == Err::<CustomInfoView, DecodeError>(DecodeError::InvalidFlag(FlagField::HasCode))),
        spec_header(b) matches Ok((_, _, _, o1)) ==> (spec_body(b, o1, dir) matches Ok(
            (_, _, o2),
        ) ==> (o2 < b.len() && b[o2] > 1 ==> spec_decode(b, dir) == Err::<
            CustomInfoView,
            DecodeError,
        >(DecodeError::InvalidFlag(FlagField::HasTrace)))),
        spec_header(b) matches Ok((_, _, _, o1)) ==> (spec_body(b, o1, dir) matches Ok(
            (_, _, o2),
        ) ==> (spec_trace(b, o2) matches Ok((_, o3)) ==> (o3 < b.len() && b[o3] > 1
            ==> spec_decode(b, dir) == Err::<CustomInfoView, DecodeError>(
            DecodeError::InvalidFlag(FlagField::HasKv),
        )))),
{
}

proof fn lemma_decoded_header(b: Seq<u8>, dir: PacketDirection)
    ensures
        spec_decode(b, dir) matches Ok(m) ==> spec_header(b) matches Ok((r1, r2, i, _)) && m.req_len
            == r1 && m.resp_len == r2 && m.request_id == i,
{
}

proof fn lemma_header_bytes(req_len: Option<u32>, resp_len: Option<u32>, id: Option<u32>, rest: Seq<u8>)
    requires
        fits_31_bits(req_len),
        fits_31_bits(resp_len),
    ensures
        spec_header(header_bytes(req_len, resp_len, id) + rest) == Ok::<
            (Option<u32>, Option<u32>, Option<u32>, int),
            DecodeError,
        >((req_len, resp_len, id, header_bytes(req_len, resp_len, id).len() as int)),
{
    let w1 = len_word_bytes(req_len);
    let w2 = len_word_bytes(resp_len);
    let tail = match id {
        Some(i) => seq![1u8] + u32_be_bytes(i),
        None => seq![0u8],
    };
    let b = header_bytes(req_len, resp_len, id) + rest;
    assert(b =~= Seq::<u8>::empty() + w1 + (w2 + tail + rest));
    lemma_len_word(req_len, w2 + tail + rest, Seq::<u8>::empty());
    assert(b =~= w1 + w2 + (tail + rest));
    lemma_len_word(resp_len, tail + rest, w1);
    assert(b[8] == tail[0]);
    match id {
        Some(i) => {
            assert(b =~= (w1 + w2 + seq![1u8]) + u32_be_bytes(i) + rest);
            lemma_be_u32_bytes(i, rest, w1 + w2 + seq![1u8]);
        },
        None => {},
    }
}

/// An encoder's header, followed by anything, decodes to exactly the lengths and id it
/// was written with, the presence bit masked out of each length; a record decoded from
/// such bytes carries them.
pub proof fn lemma_header_round_trip(
    req_len: Option<u32>,
    resp_len: Option<u32>,
    id: Option<u32>,
    rest: Seq<u8>,
    dir: PacketDirection,
)
    requires
        fits_31_bits(req_len),
        fits_31_bits(resp_len),
    ensures
        spec_header(header_bytes(req_len, resp_len, id) + rest) == Ok::<
            (Option<u32>, Option<u32>, Option<u32>, int),
            DecodeError,
        >((req_len, resp_len, id, header_bytes(req_len, resp_len, id).len() as int)),
        spec_decode(header_bytes(req_len, resp_len, id) + rest, dir) matches Ok(m) ==> m.req_len
            == req_len && m.resp_len == resp_len && m.request_id == id,
{
    lemma_header_bytes(req_len, resp_len, id, rest);
    lemma_decoded_header(header_bytes(req_len, resp_len, id) + rest, dir);
}

/// Merging the same counterpart twice appends its attributes twice: a merge is meant
/// to be made once per exchange.
pub proof fn lemma_merge_twice(base: CustomInfoView, incoming: CustomInfoView)
    ensures
        merged(merged(base, incoming), incoming).attributes == base.attributes
            + incoming.attributes + incoming.attributes,
        incoming.attributes.len() > 0 ==> merged(merged(base, incoming), incoming) != merged(
            base,
            incoming,
        ),
{
    let once = merged(base, incoming);
    let twice = merged(once, incoming);
    if incoming.attributes.len() > 0 {
        assert(twice.attributes.len() > once.attributes.len());
    }
}

/// A trace id that `base` has survives a merge; where it has none, the counterpart's is
/// taken.
pub proof fn lemma_merge_trace_id(base: CustomInfoView, incoming: CustomInfoView)
    ensures
        base.trace.trace_id is Some ==> merged(base, incoming).trace.trace_id
            == base.trace.trace_id,
        base.trace.trace_id is None ==> merged(base, incoming).trace.trace_id
            == incoming.trace.trace_id,
{
}

} // verus!
