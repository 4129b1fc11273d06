//! The action packet: a fixed header of 56 bytes, followed on the wire by as
//! many bytes of extended data as the header declares.

use crate::tank_packet_type::{ETankPacketType, TANK_PACKET_TYPE_COUNT};
use crate::wire::{
    as_signed, as_unsigned, i32_at, le_bytes, le_u32, lemma_le_bytes_then_read,
    lemma_read_then_le_bytes, lemma_signed_unsigned, push_i32_le, push_u32_le, u32_at,
};
use vstd::prelude::*;

verus! {

/// The size of the fixed header in bytes.
pub const TANK_PACKET_SIZE: usize = 56;

/// The header of an action packet. The five coordinate fields travel as
/// IEEE 754 single-precision numbers; the header keeps their bit patterns.
#[derive(Debug, Clone, Copy, PartialEq, Eq, Structural)]
pub struct TankPacket {
    pub _type: ETankPacketType,
    pub unk1: u8,
    pub unk2: u8,
    pub unk3: u8,
    pub net_id: u32,
    pub unk4: u32,
    pub flags: u32,
    pub unk6: u32,
    pub value: u32,
    pub vector_x: u32,
    pub vector_y: u32,
    pub vector_x2: u32,
    pub vector_y2: u32,
    pub unk12: u32,
    pub int_x: i32,
    pub int_y: i32,
    pub extended_data_length: u32,
}

/// Why a buffer is not an action packet.
#[derive(Debug, Clone, Copy, PartialEq, Eq, Structural)]
pub enum DecodeError {
    /// The buffer is shorter than the fixed header.
    TooShort,
    /// The header declares another number of extended bytes than follow it.
    LengthMismatch,
}

/// Why a header and its extended data do not make a packet.
#[derive(Debug, Clone, Copy, PartialEq, Eq, Structural)]
pub enum EncodeError {
    /// The header declares another number of extended bytes than were given.
    LengthMismatch,
}

/// The four bytes of `data` that start at `offset`.
pub open spec fn field(data: Seq<u8>, offset: int) -> Seq<u8> {
    data.subrange(offset, offset + 4)
}

/// The header that the first 56 bytes of `data` spell.
pub open spec fn parsed(data: Seq<u8>) -> TankPacket
    recommends
        data.len() >= 56,
{
    TankPacket {
        _type: ETankPacketType::of_tag(data[0]),
        unk1: data[1],
        unk2: data[2],
        unk3: data[3],
        net_id: le_u32(field(data, 4)) as u32,
        unk4: le_u32(field(data, 8)) as u32,
        flags: le_u32(field(data, 12)) as u32,
        unk6: le_u32(field(data, 16)) as u32,
        value: le_u32(field(data, 20)) as u32,
        vector_x: le_u32(field(data, 24)) as u32,
        vector_y: le_u32(field(data, 28)) as u32,
        vector_x2: le_u32(field(data, 32)) as u32,
        vector_y2: le_u32(field(data, 36)) as u32,
        unk12: le_u32(field(data, 40)) as u32,
        int_x: as_signed(le_u32(field(data, 44))) as i32,
        int_y: as_signed(le_u32(field(data, 48))) as i32,
        extended_data_length: le_u32(field(data, 52)) as u32,
    }
}

/// What decoding `data` gives: the header, or the reason why there is none.
pub open spec fn decoded(data: Seq<u8>) -> Result<TankPacket, DecodeError> {
    if data.len() < 56 {
        Err(DecodeError::TooShort)
    } else if le_u32(field(data, 52)) != data.len() - 56 {
        Err(DecodeError::LengthMismatch)
    } else {
        Ok(parsed(data))
    }
}

/// A buffer that holds a packet in its canonical form: a header whose tag is
/// the tag of an action kind, and exactly the extended bytes it declares.
pub open spec fn canonical(data: Seq<u8>) -> bool {
    &&& data.len() >= 56
    &&& le_u32(field(data, 52)) == data.len() - 56
    &&& data[0] < TANK_PACKET_TYPE_COUNT
}

impl TankPacket {
    /// The 56 bytes of this header.
    pub open spec fn header_bytes(self) -> Seq<u8> {
        seq![self._type.tag(), self.unk1, self.unk2, self.unk3]
            + le_bytes(self.net_id as int)
            + le_bytes(self.unk4 as int)
            + le_bytes(self.flags as int)
            + le_bytes(self.unk6 as int)
            + le_bytes(self.value as int)
            + le_bytes(self.vector_x as int)
            + le_bytes(self.vector_y as int)
            + le_bytes(self.vector_x2 as int)
            + le_bytes(self.vector_y2 as int)
            + le_bytes(self.unk12 as int)
            + le_bytes(as_unsigned(self.int_x as int))
            + le_bytes(as_unsigned(self.int_y as int))
            + le_bytes(self.extended_data_length as int)
    }

    /// What encoding this header with `extended` gives.
    pub open spec fn encoded(self, extended: Seq<u8>) -> Result<Seq<u8>, EncodeError> {
        if extended.len() != self.extended_data_length {
            Err(EncodeError::LengthMismatch)
        } else {
            Ok(self.header_bytes() + extended)
        }
    }

    /// The header with every field zero: a state packet without data.
    pub open spec fn zero() -> TankPacket {
        TankPacket {
            _type: ETankPacketType::NetGamePacketState,
            unk1: 0,
            unk2: 0,
            unk3: 0,
            net_id: 0,
            unk4: 0,
            flags: 0,
            unk6: 0,
            value: 0,
            vector_x: 0,
            vector_y: 0,
            vector_x2: 0,
            vector_y2: 0,
            unk12: 0,
            int_x: 0,
            int_y: 0,
            extended_data_length: 0,
        }
    }

    /// Appends the 56 bytes of this header to `out`.
    pub fn write_header(&self, out: &mut Vec<u8>)
        ensures
            final(out)@ == old(out)@ + self.header_bytes(),
    {
        out.push(self._type.to_u8());
        out.push(self.unk1);
        out.push(self.unk2);
        out.push(self.unk3);
        assert(out@ =~= old(out)@ + seq![self._type.tag(), self.unk1, self.unk2, self.unk3]);
        push_u32_le(out, self.net_id);
        push_u32_le(out, self.unk4);
        push_u32_le(out, self.flags);
        push_u32_le(out, self.unk6);
        push_u32_le(out, self.value);
        push_u32_le(out, self.vector_x);
        push_u32_le(out, self.vector_y);
        push_u32_le(out, self.vector_x2);
        push_u32_le(out, self.vector_y2);
        push_u32_le(out, self.unk12);
        push_i32_le(out, self.int_x);
        push_i32_le(out, self.int_y);
        push_u32_le(out, self.extended_data_length);
        assert(out@ =~= old(out)@ + self.header_bytes());
    }

    /// Encodes the header followed by its extended data. Fails when the
    /// header declares another length than `extended` has.
    pub fn encode(&self, extended: &[u8]) -> (r: Result<Vec<u8>, EncodeError>)
        ensures
            match r {
                Ok(bytes) => self.encoded(extended@) == Ok::<Seq<u8>, EncodeError>(bytes@),
                Err(e) => self.encoded(extended@) == Err::<Seq<u8>, EncodeError>(e),
            },
    {
        if extended.len() != self.extended_data_length as usize {
            return Err(EncodeError::LengthMismatch);
        }
        let mut out: Vec<u8> = Vec::new();
        self.write_header(&mut out);
        out.extend_from_slice(extended);
        assert(out@ =~= self.header_bytes() + extended@);
        Ok(out)
    }

    /// Decodes the header at the start of `data`. Fails on a buffer shorter
    /// than the header, and on one whose header declares another number of
    /// extended bytes than follow it.
    pub fn decode(data: &[u8]) -> (r: Result<TankPacket, DecodeError>)
        ensures
            r == decoded(data@),
    {
        if data.len() < TANK_PACKET_SIZE {
            return Err(DecodeError::TooShort);
        }
        let declared: u32 = u32_at(data, 52);
        if declared as usize != data.len() - TANK_PACKET_SIZE {
            return Err(DecodeError::LengthMismatch);
        }
        let packet = TankPacket {
            _type: ETankPacketType::from(data[0]),
            unk1: data[1],
            unk2: data[2],
            unk3: data[3],
            net_id: u32_at(data, 4),
            unk4: u32_at(data, 8),
            flags: u32_at(data, 12),
            unk6: u32_at(data, 16),
            value: u32_at(data, 20),
            vector_x: u32_at(data, 24),
            vector_y: u32_at(data, 28),
            vector_x2: u32_at(data, 32),
            vector_y2: u32_at(data, 36),
            unk12: u32_at(data, 40),
            int_x: i32_at(data, 44),
            int_y: i32_at(data, 48),
            extended_data_length: declared,
        };
        Ok(packet)
    }

    /// The extended data that follows the header in `data`.
    pub fn extended_data(data: &[u8]) -> (r: &[u8])
        requires
            data@.len() >= 56,
        ensures
            r@ == data@.skip(56),
    {
        vstd::slice::slice_subrange(data, TANK_PACKET_SIZE, data.len())
    }
}

impl Default for TankPacket {
    fn default() -> (r: TankPacket)
        ensures
            r == TankPacket::zero(),
    {
        TankPacket {
            _type: ETankPacketType::NetGamePacketState,
            unk1: 0,
            unk2: 0,
            unk3: 0,
            net_id: 0,
            unk4: 0,
            flags: 0,
            unk6: 0,
            value: 0,
            vector_x: 0,
            vector_y: 0,
            vector_x2: 0,
            vector_y2: 0,
            unk12: 0,
            int_x: 0,
            int_y: 0,
            extended_data_length: 0,
        }
    }
}

/// A header is always 56 bytes long.
pub proof fn lemma_header_len(packet: TankPacket)
    ensures
        packet.header_bytes().len() == 56,
{
    lemma_pieces(packet);
}

proof fn lemma_pieces(packet: TankPacket)
    ensures
        le_bytes(packet.net_id as int).len() == 4,
        le_bytes(packet.unk4 as int).len() == 4,
        le_bytes(packet.flags as int).len() == 4,
        le_bytes(packet.unk6 as int).len() == 4,
        le_bytes(packet.value as int).len() == 4,
        le_bytes(packet.vector_x as int).len() == 4,
        le_bytes(packet.vector_y as int).len() == 4,
        le_bytes(packet.vector_x2 as int).len() == 4,
        le_bytes(packet.vector_y2 as int).len() == 4,
        le_bytes(packet.unk12 as int).len() == 4,
        le_bytes(as_unsigned(packet.int_x as int)).len() == 4,
        le_bytes(as_unsigned(packet.int_y as int)).len() == 4,
        le_bytes(packet.extended_data_length as int).len() == 4,
        le_u32(le_bytes(packet.net_id as int)) == packet.net_id,
        le_u32(le_bytes(packet.unk4 as int)) == packet.unk4,
        le_u32(le_bytes(packet.flags as int)) == packet.flags,
        le_u32(le_bytes(packet.unk6 as int)) == packet.unk6,
        le_u32(le_bytes(packet.value as int)) == packet.value,
        le_u32(le_bytes(packet.vector_x as int)) == packet.vector_x,
        le_u32(le_bytes(packet.vector_y as int)) == packet.vector_y,
        le_u32(le_bytes(packet.vector_x2 as int)) == packet.vector_x2,
        le_u32(le_bytes(packet.vector_y2 as int)) == packet.vector_y2,
        le_u32(le_bytes(packet.unk12 as int)) == packet.unk12,
        as_signed(le_u32(le_bytes(as_unsigned(packet.int_x as int)))) == packet.int_x,
        as_signed(le_u32(le_bytes(as_unsigned(packet.int_y as int)))) == packet.int_y,
        le_u32(le_bytes(packet.extended_data_length as int)) == packet.extended_data_length,
{
    lemma_le_bytes_then_read(packet.net_id as int);
    lemma_le_bytes_then_read(packet.unk4 as int);
    lemma_le_bytes_then_read(packet.flags as int);
    lemma_le_bytes_then_read(packet.unk6 as int);
    lemma_le_bytes_then_read(packet.value as int);
    lemma_le_bytes_then_read(packet.vector_x as int);
    lemma_le_bytes_then_read(packet.vector_y as int);
    lemma_le_bytes_then_read(packet.vector_x2 as int);
    lemma_le_bytes_then_read(packet.vector_y2 as int);
    lemma_le_bytes_then_read(packet.unk12 as int);
    lemma_signed_unsigned(0, packet.int_x as int);
    lemma_signed_unsigned(0, packet.int_y as int);
    lemma_le_bytes_then_read(as_unsigned(packet.int_x as int));
    lemma_le_bytes_then_read(as_unsigned(packet.int_y as int));
    lemma_le_bytes_then_read(packet.extended_data_length as int);
}

proof fn lemma_field_back(data: Seq<u8>, offset: int)
    requires
        0 <= offset,
        offset + 4 <= data.len(),
    ensures
        0 <= le_u32(field(data, offset)) < 0x1_0000_0000,
        le_bytes(le_u32(field(data, offset))) == field(data, offset),
        le_bytes(as_unsigned(as_signed(le_u32(field(data, offset))))) == field(data, offset),
{
    lemma_read_then_le_bytes(field(data, offset));
    lemma_signed_unsigned(le_u32(field(data, offset)), 0);
}

proof fn lemma_extend(data: Seq<u8>, offset: int)
    requires
        0 <= offset,
        offset + 4 <= data.len(),
    ensures
        data.subrange(0, offset) + field(data, offset) == data.subrange(0, offset + 4),
{
    assert(data.subrange(0, offset) + field(data, offset) =~= data.subrange(0, offset + 4));
}

/// Decoding a canonical buffer and encoding the header with the bytes that
/// follow it gives the buffer back, byte for byte.
pub proof fn law_decode_then_encode(data: Seq<u8>)
    requires
        canonical(data),
    ensures
        decoded(data) == Ok::<TankPacket, DecodeError>(parsed(data)),
        parsed(data).encoded(data.skip(56)) == Ok::<Seq<u8>, EncodeError>(data),
{
    let p = parsed(data);
    lemma_field_back(data, 4);
    lemma_field_back(data, 8);
    lemma_field_back(data, 12);
    lemma_field_back(data, 16);
    lemma_field_back(data, 20);
    lemma_field_back(data, 24);
    lemma_field_back(data, 28);
    lemma_field_back(data, 32);
    lemma_field_back(data, 36);
    lemma_field_back(data, 40);
    lemma_field_back(data, 44);
    lemma_field_back(data, 48);
    lemma_field_back(data, 52);
    lemma_signed_unsigned(le_u32(field(data, 44)), 0);
    lemma_signed_unsigned(le_u32(field(data, 48)), 0);
    crate::tank_packet_type::lemma_tag_round_trip(ETankPacketType::NetGamePacketState, data[0]);
    assert(seq![p._type.tag(), p.unk1, p.unk2, p.unk3] =~= data.subrange(0, 4));
    lemma_extend(data, 4);
    lemma_extend(data, 8);
    lemma_extend(data, 12);
    lemma_extend(data, 16);
    lemma_extend(data, 20);
    lemma_extend(data, 24);
    lemma_extend(data, 28);
    lemma_extend(data, 32);
    lemma_extend(data, 36);
    lemma_extend(data, 40);
    lemma_extend(data, 44);
    lemma_extend(data, 48);
    lemma_extend(data, 52);
    assert(p.header_bytes() == data.subrange(0, 56));
    assert(data.subrange(0, 56) + data.skip(56) =~= data);
}

/// Where the first bytes of `data` are `head` followed by the four bytes of
/// `piece`, the field of `data` behind `head` is `piece`, and `head` stands
/// before it.
proof fn lemma_last_piece(data: Seq<u8>, head: Seq<u8>, piece: Seq<u8>)
    requires
        piece.len() == 4,
        data.len() >= head.len() + 4,
        data.subrange(0, head.len() as int + 4) == head + piece,
    ensures
        field(data, head.len() as int) == piece,
        data.subrange(0, head.len() as int) == head,
{
    let n = head.len() as int;
    let front = data.subrange(0, n + 4);
    assert(field(data, n) =~= front.subrange(n, n + 4));
    assert(front.subrange(n, n + 4) =~= piece);
    assert(data.subrange(0, n) =~= front.subrange(0, n));
    assert(front.subrange(0, n) =~= head);
}

/// Encoding a header with data of the declared length and decoding the
/// bytes gives the header back.
pub proof fn law_encode_then_decode(packet: TankPacket, extended: Seq<u8>)
    requires
        extended.len() == packet.extended_data_length,
    ensures
        decoded(packet.header_bytes() + extended) == Ok::<TankPacket, DecodeError>(packet),
        (packet.header_bytes() + extended).skip(56) == extended,
        canonical(packet.header_bytes() + extended),
{
    let data = packet.header_bytes() + extended;
    lemma_pieces(packet);
    crate::tank_packet_type::lemma_tag_round_trip(packet._type, 0);
    let s0 = seq![packet._type.tag(), packet.unk1, packet.unk2, packet.unk3];
    let p1 = le_bytes(packet.net_id as int);
    let p2 = le_bytes(packet.unk4 as int);
    let p3 = le_bytes(packet.flags as int);
    let p4 = le_bytes(packet.unk6 as int);
    let p5 = le_bytes(packet.value as int);
    let p6 = le_bytes(packet.vector_x as int);
    let p7 = le_bytes(packet.vector_y as int);
    let p8 = le_bytes(packet.vector_x2 as int);
    let p9 = le_bytes(packet.vector_y2 as int);
    let p10 = le_bytes(packet.unk12 as int);
    let p11 = le_bytes(as_unsigned(packet.int_x as int));
    let p12 = le_bytes(as_unsigned(packet.int_y as int));
    let p13 = le_bytes(packet.extended_data_length as int);
    let s1 = s0 + p1;
    let s2 = s1 + p2;
    let s3 = s2 + p3;
    let s4 = s3 + p4;
    let s5 = s4 + p5;
    let s6 = s5 + p6;
    let s7 = s6 + p7;
    let s8 = s7 + p8;
    let s9 = s8 + p9;
    let s10 = s9 + p10;
    let s11 = s10 + p11;
    let s12 = s11 + p12;
    assert(data == s12 + p13 + extended);
    assert(data.subrange(0, 56) =~= s12 + p13);
    lemma_last_piece(data, s12, p13);
    lemma_last_piece(data, s11, p12);
    lemma_last_piece(data, s10, p11);
    lemma_last_piece(data, s9, p10);
    lemma_last_piece(data, s8, p9);
    lemma_last_piece(data, s7, p8);
    lemma_last_piece(data, s6, p7);
    lemma_last_piece(data, s5, p6);
    lemma_last_piece(data, s4, p5);
    lemma_last_piece(data, s3, p4);
    lemma_last_piece(data, s2, p3);
    lemma_last_piece(data, s1, p2);
    lemma_last_piece(data, s0, p1);
    assert(data[0] == s0[0] && data[1] == s0[1] && data[2] == s0[2] && data[3] == s0[3]) by {
        let front = data.subrange(0, 4);
        assert(front[0] == data[0] && front[1] == data[1] && front[2] == data[2] && front[3]
            == data[3]);
    }
    assert(data.skip(56) =~= extended);
    assert(parsed(data) == packet);
}

} // verus!
