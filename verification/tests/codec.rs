//! Byte-exact codec checks: decode, encode, checksums, and the two
//! length variants.
use zigbee_unpi::unpi::{
    LenType, LenTypeInfo, MessageType, Subsystem, UnpiPacket, UnpiPacketError,
};

#[test]
fn unpi_test_unpi_empty() {
    let data = [0xFEu8, 0x00, 0x25, 0x37, 0x12];
    let packet = UnpiPacket::from_bytes(&data[..], LenTypeInfo::OneByte).unwrap();
    assert_eq!(packet.type_subsystem, (MessageType::SREQ, Subsystem::Zdo));
    assert_eq!(packet.command, 0x37);
    assert_eq!(packet.payload.len(), 0);
}

#[test]
fn unpi_test_unpi_payload() {
    let data = [0xfe, 0x02, 0x25, 0x37, 0x55, 0xdd, 0x98];
    let packet = UnpiPacket::from_bytes(&data[..], LenTypeInfo::OneByte).unwrap();
    assert_eq!(packet.type_subsystem, (MessageType::SREQ, Subsystem::Zdo));
    assert_eq!(packet.command, 0x37);
    assert_eq!(packet.payload, [0x55, 0xdd]);
}

#[test]
fn unpi_test_unpi_to_bytes() {
    let packet = UnpiPacket::from_payload(
        &[0x55u8, 0xdd],
        LenTypeInfo::OneByte,
        (MessageType::SREQ, Subsystem::Zdo),
        0x37,
    );
    let out = packet.to_bytes();
    assert_eq!(&out[..], &[0xFE, 0x02, 0x25, 0x37, 0x55, 0xdd, 0x98]);
}

#[test]
fn unpi_test_unpi_double_len() {
    let data = [0xFEu8, 0x04, 0x00, 0x25, 0x04, 0x01, 0x02, 0x03, 0x04, 0x21];
    let packet = UnpiPacket::from_bytes(&data[..], LenTypeInfo::TwoByte).unwrap();
    let checksum = UnpiPacket::checksum_buffer(&data[1..data.len() - 1]);
    assert_eq!(packet.len, LenType::TwoByte(0x04));
    assert_eq!(packet.type_subsystem, (MessageType::SREQ, Subsystem::Zdo));
    assert_eq!(packet.command, 0x04);
    assert_eq!(packet.payload, [0x01, 0x02, 0x03, 0x04]);
    assert_eq!(checksum, packet.fcs);
    assert_eq!(checksum, packet.checksum());
}

#[test]
fn mod_test_unpi_empty() {
    let data = [0xFEu8, 0x00, 0x25, 0x37, 0x12];
    let packet = UnpiPacket::from_bytes(&data[..], LenTypeInfo::OneByte).unwrap();
    assert_eq!(packet.type_subsystem, (MessageType::SREQ, Subsystem::Zdo));
    assert_eq!(packet.command, 0x37);
    assert_eq!(packet.payload.len(), 0);
}

#[test]
fn mod_test_unpi_empty_wrong_checksum() {
    let data = [0xFEu8, 0x00, 0x25, 0x37, 0x01];
    let packet = UnpiPacket::from_bytes(&data[..], LenTypeInfo::OneByte);
    assert_eq!(packet, Err(UnpiPacketError::InvalidFcs((0x01, 0x12))));
}

#[test]
fn mod_test_unpi_payload() {
    let data = [0xfe, 0x02, 0x25, 0x37, 0x55, 0xdd, 0x98];
    let packet = UnpiPacket::from_bytes(&data[..], LenTypeInfo::OneByte).unwrap();
    assert_eq!(packet.type_subsystem, (MessageType::SREQ, Subsystem::Zdo));
    assert_eq!(packet.command, 0x37);
    assert_eq!(packet.payload, [0x55, 0xdd]);
}

#[test]
fn mod_test_unpi_payload_to_from_bytes() {
    let data = [0xfe, 0x02, 0x25, 0x37, 0x55, 0xdd, 0x98];
    let packet = UnpiPacket::from_bytes(&data[..], LenTypeInfo::OneByte).unwrap();
    let out = packet.to_bytes();
    assert_eq!(&out[..], &data[..]);
}

#[test]
fn mod_test_unpi_to_bytes() {
    let packet = UnpiPacket::from_payload(
        &[0x55u8, 0xdd],
        LenTypeInfo::OneByte,
        (MessageType::SREQ, Subsystem::Zdo),
        0x37,
    );
    let out = packet.to_bytes();
    assert_eq!(&out[..], &[0xFE, 0x02, 0x25, 0x37, 0x55, 0xdd, 0x98]);
}

#[test]
fn mod_test_unpi_double_len() {
    let data = [0xFEu8, 0x04, 0x00, 0x25, 0x04, 0x01, 0x02, 0x03, 0x04, 0x21];
    let packet = UnpiPacket::from_bytes(&data[..], LenTypeInfo::TwoByte).unwrap();
    let checksum = UnpiPacket::checksum_buffer(&data[1..data.len() - 1]);
    assert_eq!(packet.len, LenType::TwoByte(0x04));
    assert_eq!(packet.type_subsystem, (MessageType::SREQ, Subsystem::Zdo));
    assert_eq!(packet.command, 0x04);
    assert_eq!(packet.payload, [0x01, 0x02, 0x03, 0x04]);
    assert_eq!(checksum, packet.fcs);
    assert_eq!(checksum, packet.checksum());
}

#[test]
fn mod_test_unpi_double_len_wrong_checksum() {
    let data = [0xFEu8, 0x04, 0x00, 0x25, 0x04, 0x01, 0x02, 0x03, 0x04, 0x02];
    let packet = UnpiPacket::from_bytes(&data[..], LenTypeInfo::TwoByte);
    assert_eq!(packet, Err(UnpiPacketError::InvalidFcs((0x02, 0x21))));
}

#[test]
fn mod_test_unpi_double_len_to_from_bytes() {
    let data = [0xFEu8, 0x04, 0x00, 0x25, 0x04, 0x01, 0x02, 0x03, 0x04, 0x21];
    let packet = UnpiPacket::from_bytes(&data[..], LenTypeInfo::TwoByte).unwrap();
    let out = packet.to_bytes();
    assert_eq!(&out[..], &data[..]);
}

#[test]
fn test_parse_message() {
    let data = [
        0xfe, 0x0e, 0x61, 0x02, 0x02, 0x00, 0x02, 0x06, 0x03, 0xd9, 0x14, 0x34, 0x01, 0x02, 0x00,
        0x00, 0x00, 0x00, 0x92,
    ];
    let packet = UnpiPacket::from_bytes(&data[..], LenTypeInfo::OneByte).unwrap();
    assert_eq!(packet.len, LenType::OneByte(14));
    assert_eq!(packet.type_subsystem, (MessageType::SRESP, Subsystem::Sys));
    assert_eq!(packet.command, 2);
    assert_eq!(packet.payload, [2, 0, 2, 6, 3, 217, 20, 52, 1, 2, 0, 0, 0, 0]);
    assert_eq!(packet.checksum(), packet.fcs);
    assert_eq!(packet.checksum(), 0x92);
}

#[test]
fn decode_rejects_missing_sof() {
    let data = [0x00u8, 0x00, 0x25, 0x37, 0x12];
    let packet = UnpiPacket::from_bytes(&data[..], LenTypeInfo::OneByte);
    assert_eq!(packet, Err(UnpiPacketError::InvalidStartOfFrame(0x00)));
}

#[test]
fn decode_rejects_truncated_frame() {
    let data = [0xFEu8, 0x02, 0x25, 0x37, 0x55];
    let packet = UnpiPacket::from_bytes(&data[..], LenTypeInfo::OneByte);
    assert_eq!(packet, Err(UnpiPacketError::IoError));
}

#[test]
fn corrupted_byte_is_caught_by_fcs() {
    // flip one bit in every byte the checksum covers: each flip must
    // surface as an FCS mismatch
    let data = [0xFEu8, 0x02, 0x25, 0x37, 0x55, 0xdd, 0x98];
    for i in 2..data.len() {
        let mut corrupted = data;
        corrupted[i] ^= 0x40;
        match UnpiPacket::from_bytes(&corrupted[..], LenTypeInfo::OneByte) {
            Err(UnpiPacketError::InvalidFcs(_)) => {}
            other => panic!("{:?}", other),
        }
    }
}

#[test]
fn round_trip_arbitrary_payloads() {
    let payloads: [&[u8]; 3] = [&[], &[0x01], &[0xaa, 0xbb, 0xcc, 0xdd, 0xee]];
    for payload in payloads {
        let packet = UnpiPacket::from_payload(
            payload,
            LenTypeInfo::OneByte,
            (MessageType::AREQ, Subsystem::Util),
            0x0a,
        );
        let bytes = packet.to_bytes();
        let decoded = UnpiPacket::from_bytes(&bytes[..], LenTypeInfo::OneByte).unwrap();
        assert_eq!(decoded, packet);
    }
}

#[test]
fn test_unpi_empty() {
    let data = [0xFEu8, 0x00, 0x25, 0x37, 0x12];
    let packet = UnpiPacket::from_bytes(&data[..], LenTypeInfo::OneByte).unwrap();
    assert_eq!(packet.type_subsystem, (MessageType::SREQ, Subsystem::Zdo));
    assert_eq!(packet.command, 0x37);
    assert_eq!(packet.payload.len(), 0);
}

#[test]
fn test_unpi_empty_wrong_checksum() {
    let data = [0xFEu8, 0x00, 0x25, 0x37, 0x01];
    let packet = UnpiPacket::from_bytes(&data[..], LenTypeInfo::OneByte);
    assert_eq!(packet, Err(UnpiPacketError::InvalidFcs((0x01, 0x12))));
}

#[test]
fn test_unpi_payload() {
    let data = [0xfe, 0x02, 0x25, 0x37, 0x55, 0xdd, 0x98];
    let packet = UnpiPacket::from_bytes(&data[..], LenTypeInfo::OneByte).unwrap();
    assert_eq!(packet.type_subsystem, (MessageType::SREQ, Subsystem::Zdo));
    assert_eq!(packet.command, 0x37);
    assert_eq!(packet.payload, [0x55, 0xdd]);
}

#[test]
fn test_unpi_payload_to_from_bytes() {
    let data = [0xfe, 0x02, 0x25, 0x37, 0x55, 0xdd, 0x98];
    let packet = UnpiPacket::from_bytes(&data[..], LenTypeInfo::OneByte).unwrap();
    let out = packet.to_bytes();
    assert_eq!(&out[..], &data[..]);
}

#[test]
fn test_unpi_to_bytes() {
    let packet = UnpiPacket::from_payload(
        &[0x55u8, 0xdd],
        LenTypeInfo::OneByte,
        (MessageType::SREQ, Subsystem::Zdo),
        0x37,
    );
    let out = packet.to_bytes();
    assert_eq!(&out[..], &[0xFE, 0x02, 0x25, 0x37, 0x55, 0xdd, 0x98]);
}

#[test]
fn test_unpi_double_len() {
    let data = [0xFEu8, 0x04, 0x00, 0x25, 0x04, 0x01, 0x02, 0x03, 0x04, 0x21];
    let packet = UnpiPacket::from_bytes(&data[..], LenTypeInfo::TwoByte).unwrap();
    let checksum = UnpiPacket::checksum_buffer(&data[1..data.len() - 1]);
    assert_eq!(packet.len, LenType::TwoByte(0x04));
    assert_eq!(packet.type_subsystem, (MessageType::SREQ, Subsystem::Zdo));
    assert_eq!(packet.command, 0x04);
    assert_eq!(packet.payload, [0x01, 0x02, 0x03, 0x04]);
    assert_eq!(checksum, packet.fcs);
    assert_eq!(checksum, packet.checksum());
}

#[test]
fn test_unpi_double_len_wrong_checksum() {
    let data = [0xFEu8, 0x04, 0x00, 0x25, 0x04, 0x01, 0x02, 0x03, 0x04, 0x02];
    let packet = UnpiPacket::from_bytes(&data[..], LenTypeInfo::TwoByte);
    assert_eq!(packet, Err(UnpiPacketError::InvalidFcs((0x02, 0x21))));
}

#[test]
fn test_unpi_double_len_to_from_bytes() {
    let data = [0xFEu8, 0x04, 0x00, 0x25, 0x04, 0x01, 0x02, 0x03, 0x04, 0x21];
    let packet = UnpiPacket::from_bytes(&data[..], LenTypeInfo::TwoByte).unwrap();
    let out = packet.to_bytes();
    assert_eq!(&out[..], &data[..]);
}
