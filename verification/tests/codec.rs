use growbot::frame::{encode_raw, encode_text, split_frame};
use growbot::packet_type::EPacketType;
use growbot::tank_packet::{DecodeError, EncodeError, TankPacket, TANK_PACKET_SIZE};
use growbot::tank_packet_type::ETankPacketType;
use growbot::wire::{i32_at, push_i32_le, push_u32_le, u32_at};

fn sample_buffer(tag: u8, extra: &[u8]) -> Vec<u8> {
    let mut data: Vec<u8> = Vec::new();
    data.push(tag);
    data.extend_from_slice(&[7, 8, 9]);
    for i in 0..12u8 {
        data.extend_from_slice(&[i, i.wrapping_mul(3), 0xA0 + i, 0xF0 | i]);
    }
    data.extend_from_slice(&(extra.len() as u32).to_le_bytes());
    data.extend_from_slice(extra);
    data
}

#[test]
fn action_kind_from_byte() {
    assert_eq!(ETankPacketType::from(0u8), ETankPacketType::NetGamePacketState);
    assert_eq!(ETankPacketType::from(1u8), ETankPacketType::NetGamePacketCallFunction);
    assert_eq!(ETankPacketType::from(3u8), ETankPacketType::NetGamePacketTileChangeRequest);
    assert_eq!(ETankPacketType::from(11u8), ETankPacketType::NetGamePacketItemActivateObjectRequest);
    assert_eq!(ETankPacketType::from(39u8), ETankPacketType::NetGamePacketSendPlayerTributeData);
}

#[test]
fn action_kind_unknown_byte_reads_as_state() {
    assert_eq!(ETankPacketType::from(40u8), ETankPacketType::NetGamePacketState);
    assert_eq!(ETankPacketType::from(255u8), ETankPacketType::NetGamePacketState);
}

#[test]
fn action_kind_tag_round_trip() {
    for tag in 0..40u8 {
        assert_eq!(ETankPacketType::from(tag).to_u8(), tag);
    }
}

#[test]
fn outer_kind_from_number() {
    assert_eq!(EPacketType::from(1u32), EPacketType::NetMessageServerHello);
    assert_eq!(EPacketType::from(2u32), EPacketType::NetMessageGenericText);
    assert_eq!(EPacketType::from(3u32), EPacketType::NetMessageGameMessage);
    assert_eq!(EPacketType::from(4u32), EPacketType::NetMessageGamePacket);
    assert_eq!(EPacketType::from(77u32), EPacketType::NetMessageUnknown);
    assert_eq!(EPacketType::NetMessageGamePacket.to_u32(), 4);
}

#[test]
fn little_endian_read() {
    let data = [0x01u8, 0x02, 0x03, 0x04, 0xFF, 0xFF, 0xFF, 0xFF];
    assert_eq!(u32_at(&data, 0), 0x0403_0201);
    assert_eq!(u32_at(&data, 1), 0xFF04_0302);
    assert_eq!(i32_at(&data, 4), -1);
    assert_eq!(i32_at(&data, 0), 0x0403_0201);
}

#[test]
fn little_endian_write() {
    let mut out: Vec<u8> = vec![9];
    push_u32_le(&mut out, 0x0403_0201);
    push_i32_le(&mut out, -2);
    assert_eq!(out, vec![9, 1, 2, 3, 4, 0xFE, 0xFF, 0xFF, 0xFF]);
}

#[test]
fn decode_reads_every_field() {
    let mut data: Vec<u8> = vec![3, 1, 2, 3];
    for v in [10u32, 11, 12, 13, 14, 0x4200_0000, 0x4280_0000, 17, 18, 19] {
        data.extend_from_slice(&v.to_le_bytes());
    }
    data.extend_from_slice(&(-5i32).to_le_bytes());
    data.extend_from_slice(&(6i32).to_le_bytes());
    data.extend_from_slice(&(2u32).to_le_bytes());
    data.extend_from_slice(&[0xAA, 0xBB]);
    let packet = TankPacket::decode(&data).unwrap();
    assert_eq!(packet._type, ETankPacketType::NetGamePacketTileChangeRequest);
    assert_eq!((packet.unk1, packet.unk2, packet.unk3), (1, 2, 3));
    assert_eq!(packet.net_id, 10);
    assert_eq!(packet.unk4, 11);
    assert_eq!(packet.flags, 12);
    assert_eq!(packet.unk6, 13);
    assert_eq!(packet.value, 14);
    assert_eq!(f32::from_bits(packet.vector_x), 32.0);
    assert_eq!(f32::from_bits(packet.vector_y), 64.0);
    assert_eq!(packet.vector_x2, 17);
    assert_eq!(packet.vector_y2, 18);
    assert_eq!(packet.unk12, 19);
    assert_eq!(packet.int_x, -5);
    assert_eq!(packet.int_y, 6);
    assert_eq!(packet.extended_data_length, 2);
    assert_eq!(TankPacket::extended_data(&data), &[0xAA, 0xBB]);
}

#[test]
fn decode_then_encode_gives_the_buffer_back() {
    for extra in [&[][..], &[1u8][..], &[5u8, 4, 3, 2, 1, 0, 255][..]] {
        for tag in [0u8, 1, 11, 39] {
            let data = sample_buffer(tag, extra);
            let packet = TankPacket::decode(&data).unwrap();
            let again = packet.encode(TankPacket::extended_data(&data)).unwrap();
            assert_eq!(again, data);
        }
    }
}

#[test]
fn encode_then_decode_gives_the_header_back() {
    let mut packet = TankPacket::default();
    packet._type = ETankPacketType::NetGamePacketState;
    packet.flags = 34;
    packet.int_x = -1;
    packet.int_y = -1;
    packet.vector_x = 96.0f32.to_bits();
    packet.extended_data_length = 3;
    let bytes = packet.encode(&[1, 2, 3]).unwrap();
    assert_eq!(bytes.len(), TANK_PACKET_SIZE + 3);
    assert_eq!(TankPacket::decode(&bytes), Ok(packet));
}

#[test]
fn decode_short_buffer_fails() {
    assert_eq!(TankPacket::decode(&[]), Err(DecodeError::TooShort));
    assert_eq!(TankPacket::decode(&[0u8; 55]), Err(DecodeError::TooShort));
    assert!(TankPacket::decode(&[0u8; 56]).is_ok());
}

#[test]
fn decode_length_mismatch_fails() {
    let mut data = sample_buffer(0, &[1, 2, 3]);
    data.pop();
    assert_eq!(TankPacket::decode(&data), Err(DecodeError::LengthMismatch));
    data.push(3);
    data.push(4);
    assert_eq!(TankPacket::decode(&data), Err(DecodeError::LengthMismatch));
}

#[test]
fn encode_length_mismatch_fails() {
    let mut packet = TankPacket::default();
    packet.extended_data_length = 2;
    assert_eq!(packet.encode(&[1]), Err(EncodeError::LengthMismatch));
    assert_eq!(packet.encode(&[1, 2, 3]), Err(EncodeError::LengthMismatch));
}

#[test]
fn default_packet_is_all_zero() {
    let bytes = TankPacket::default().encode(&[]).unwrap();
    assert_eq!(bytes, vec![0u8; 56]);
}

#[test]
fn text_frame_is_tag_then_text() {
    let frame = encode_text(EPacketType::NetMessageGenericText, "action|input\n");
    assert_eq!(&frame[..4], &[2, 0, 0, 0]);
    assert_eq!(&frame[4..], "action|input\n".as_bytes());
    let utf8 = encode_text(EPacketType::NetMessageGameMessage, "h\u{e9}");
    assert_eq!(utf8, vec![3, 0, 0, 0, b'h', 0xC3, 0xA9]);
}

#[test]
fn raw_frame_has_exact_length() {
    let mut packet = TankPacket::default();
    packet._type = ETankPacketType::NetGamePacketItemActivateRequest;
    packet.value = 48;
    let frame = encode_raw(&packet);
    assert_eq!(frame.len(), 4 + 56);
    assert_eq!(&frame[..4], &[4, 0, 0, 0]);
    assert_eq!(frame[4], 10);
    assert_eq!(&frame[24..28], &[48, 0, 0, 0]);
    packet.extended_data_length = 5;
    let longer = encode_raw(&packet);
    assert_eq!(longer.len(), 4 + 56 + 5);
    assert_eq!(&longer[60..], &[0, 0, 0, 0, 0]);
    assert_eq!(TankPacket::decode(&longer[4..]), Ok(packet));
}

#[test]
fn split_frame_reads_kind_and_payload() {
    let (kind, payload) = split_frame(&[4, 0, 0, 0, 9, 8]).unwrap();
    assert_eq!(kind, EPacketType::NetMessageGamePacket);
    assert_eq!(payload, &[9, 8]);
    let (kind, payload) = split_frame(&[1, 0, 0, 0]).unwrap();
    assert_eq!(kind, EPacketType::NetMessageServerHello);
    assert!(payload.is_empty());
    assert!(split_frame(&[1, 0, 0]).is_none());
    let (kind, _) = split_frame(&[0, 1, 0, 0]).unwrap();
    assert_eq!(kind, EPacketType::NetMessageUnknown);
}
