//! The outer envelope: a four-byte little-endian kind tag, then the payload.

use crate::packet_type::EPacketType;
use crate::tank_packet::TankPacket;
use crate::wire::{le_bytes, le_u32, lemma_le_bytes_then_read, push_u32_le, read_u32_le};
use vstd::prelude::*;
use vstd::slice::slice_subrange;
use vstd::utf8::encode_utf8;

verus! {

/// The size of the kind tag in bytes.
pub const TAG_SIZE: usize = 4;

/// `n` zero bytes.
pub open spec fn zeros(n: nat) -> Seq<u8> {
    Seq::new(n, |i: int| 0u8)
}

/// The frame of a textual message: the tag, then the text in UTF-8.
pub open spec fn text_frame(kind: EPacketType, message: Seq<char>) -> Seq<u8> {
    le_bytes(kind.tag() as int) + encode_utf8(message)
}

/// The frame of an action packet: the game-packet tag, the header, and as
/// many zero bytes as the header declares extended data.
pub open spec fn raw_frame(packet: TankPacket) -> Seq<u8> {
    le_bytes(EPacketType::NetMessageGamePacket.tag() as int) + packet.header_bytes() + zeros(
        packet.extended_data_length as nat,
    )
}

/// What an inbound frame holds: its kind and its payload. A frame shorter
/// than the tag holds nothing.
pub open spec fn frame_parts(data: Seq<u8>) -> Option<(EPacketType, Seq<u8>)> {
    if data.len() < 4 {
        None
    } else {
        Some((EPacketType::of_tag(le_u32(data.subrange(0, 4)) as u32), data.skip(4)))
    }
}

/// Frames a textual message.
pub fn encode_text(kind: EPacketType, message: &str) -> (r: Vec<u8>)
    ensures
        r@ == text_frame(kind, message@),
{
    let mut out: Vec<u8> = Vec::new();
    push_u32_le(&mut out, kind.to_u32());
    out.extend_from_slice(message.as_bytes());
    assert(out@ =~= text_frame(kind, message@));
    out
}

/// Frames an action packet. The frame is exactly as long as the tag, the
/// header and the declared extended data together.
pub fn encode_raw(packet: &TankPacket) -> (r: Vec<u8>)
    ensures
        r@ == raw_frame(*packet),
        r@.len() == 4 + 56 + packet.extended_data_length,
{
    let mut out: Vec<u8> = Vec::new();
    push_u32_le(&mut out, EPacketType::NetMessageGamePacket.to_u32());
    packet.write_header(&mut out);
    let ghost head = out@;
    let mut i: u32 = 0;
    while i < packet.extended_data_length
        invariant
            i <= packet.extended_data_length,
            out@ == head + zeros(i as nat),
        decreases packet.extended_data_length - i,
    {
        out.push(0u8);
        i += 1;
        assert(out@ =~= head + zeros(i as nat));
    }
    proof {
        crate::tank_packet::lemma_header_len(*packet);
        lemma_le_bytes_then_read(EPacketType::NetMessageGamePacket.tag() as int);
    }
    out
}

/// Splits an inbound frame into its kind and its payload.
pub fn split_frame(data: &[u8]) -> (r: Option<(EPacketType, &[u8])>)
    ensures
        match r {
            Some((kind, payload)) => frame_parts(data@) == Some((kind, payload@)),
            None => frame_parts(data@).is_none(),
        },
{
    if data.len() < TAG_SIZE {
        return None;
    }
    let tag: u32 = read_u32_le(slice_subrange(data, 0, TAG_SIZE));
    let payload = slice_subrange(data, TAG_SIZE, data.len());
    assert(payload@ =~= data@.skip(4));
    Some((EPacketType::from(tag), payload))
}

/// A frame that was made from a kind and a text is split into that kind and
/// the bytes of the text.
pub proof fn law_text_frame_parts(kind: EPacketType, message: Seq<char>)
    ensures
        frame_parts(text_frame(kind, message)) == Some((kind, encode_utf8(message))),
{
    lemma_le_bytes_then_read(kind.tag() as int);
    let frame = text_frame(kind, message);
    assert(frame.subrange(0, 4) =~= le_bytes(kind.tag() as int));
    assert(frame.skip(4) =~= encode_utf8(message));
}

} // verus!
