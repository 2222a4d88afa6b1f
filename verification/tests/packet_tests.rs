use bytes::Bytes;
use rs_utp::packet::{
    Extension, InvalidPacketType, InvalidVersion, Packet, PacketBuilder, PacketError, PacketHeader,
    PacketHeaderError, PacketType, Version, MAX_PAYLOAD_SIZE, PACKET_HEADER_LEN,
};

const ALL_TYPES: [PacketType; 5] = [
    PacketType::Data,
    PacketType::Fin,
    PacketType::State,
    PacketType::Reset,
    PacketType::Syn,
];

fn sample_headers() -> Vec<PacketHeader> {
    let mut out = Vec::new();
    let extensions = [
        Extension::NoExtension,
        Extension::SelectiveAck,
        Extension::Unknown(2),
        Extension::Unknown(200),
        Extension::Unknown(255),
    ];
    let u16s = [0u16, 1, 0x00ff, 0x1234, 0x8000, u16::MAX];
    let u32s = [0u32, 1, 0x0102_0304, 0x8000_0000, u32::MAX];
    let mut i = 0usize;
    for t in ALL_TYPES {
        for e in extensions {
            for k in 0..u16s.len() {
                out.push(PacketHeader {
                    packet_type: t,
                    version: Version::V1,
                    extension: e,
                    conn_id: u16s[k],
                    timestamp: u32s[(i + 1) % u32s.len()],
                    timestamp_diff: u32s[(i + 2) % u32s.len()],
                    wnd_size: u32s[(i + 3) % u32s.len()],
                    seq_nr: u16s[(k + 1) % u16s.len()],
                    ack_nr: u16s[(k + 2) % u16s.len()],
                });
                i += 1;
            }
        }
    }
    out
}

fn encode_header(h: &PacketHeader) -> Vec<u8> {
    let mut buf = Vec::new();
    h.encode_to(&mut buf);
    buf
}

#[test]
fn test_header_roundtrip() {
    for header in sample_headers() {
        let buf = encode_header(&header);
        assert_eq!(buf.len(), PACKET_HEADER_LEN);
        let decoded = PacketHeader::decode(&buf);
        assert!(decoded.is_ok());
        assert_eq!(decoded.unwrap(), header);
    }
}

#[test]
fn test_header_exact_bytes() {
    let header = PacketHeader {
        packet_type: PacketType::State,
        version: Version::V1,
        extension: Extension::SelectiveAck,
        conn_id: 0x1234,
        timestamp: 0x0102_0304,
        timestamp_diff: 0xA0B0_C0D0,
        wnd_size: 0x0000_0500,
        seq_nr: 0xBEEF,
        ack_nr: 0x0001,
    };
    let expected: Vec<u8> = vec![
        0x21, 0x01, 0x12, 0x34, 0x01, 0x02, 0x03, 0x04, 0xA0, 0xB0, 0xC0, 0xD0, 0x00, 0x00, 0x05,
        0x00, 0xBE, 0xEF, 0x00, 0x01,
    ];
    assert_eq!(encode_header(&header), expected);
}

#[test]
fn test_header_decode_ignores_trailing_bytes() {
    let header = sample_headers()[7].clone();
    let mut buf = encode_header(&header);
    buf.extend_from_slice(&[9, 9, 9]);
    assert_eq!(PacketHeader::decode(&buf).unwrap(), header);
}

#[test]
fn test_header_decode_reencodes_input() {
    let bytes: Vec<u8> = (0u8..20).map(|i| if i == 0 { 0x41 } else { i.wrapping_mul(37) }).collect();
    let decoded = PacketHeader::decode(&bytes).unwrap();
    assert_eq!(decoded.packet_type, PacketType::Syn);
    assert_eq!(encode_header(&decoded), bytes);
}

#[test]
fn test_decode_invalid_length() {
    for header in sample_headers().iter().take(10) {
        let encoded = encode_header(header);
        for truncated_len in 0..PACKET_HEADER_LEN {
            let result = Packet::decode(&encoded[..truncated_len]);
            match result {
                Err(PacketError::InvalidHeader(PacketHeaderError::InvalidLen(n))) => {
                    assert_eq!(n, truncated_len)
                }
                other => panic!("unexpected {:?}", other),
            }
        }
    }
}

#[test]
fn test_decode_invalid_packet_type() {
    for header in sample_headers() {
        let mut encoded = encode_header(&header);
        let kept_ver = encoded[0] & 0x0F;
        encoded[0] = kept_ver | 0x50;
        let result = Packet::decode(&encoded);
        assert!(matches!(
            result,
            Err(PacketError::InvalidHeader(PacketHeaderError::InvalidPacketType(InvalidPacketType(5))))
        ));
    }
    let mut encoded = encode_header(&sample_headers()[0]);
    encoded[0] = 0xF1;
    assert!(matches!(
        PacketHeader::decode(&encoded),
        Err(PacketHeaderError::InvalidPacketType(InvalidPacketType(15)))
    ));
}

#[test]
fn test_decode_invalid_version() {
    for header in sample_headers() {
        let mut encoded = encode_header(&header);
        let kept_type = encoded[0] & 0xF0;
        encoded[0] = kept_type | 0x00;
        let result = Packet::decode(&encoded);
        assert!(matches!(
            result,
            Err(PacketError::InvalidHeader(PacketHeaderError::InvalidVersion(InvalidVersion(0))))
        ));
    }
}

#[test]
fn test_decode_type_checked_before_version() {
    let mut encoded = encode_header(&sample_headers()[0]);
    encoded[0] = 0x72;
    assert!(matches!(
        PacketHeader::decode(&encoded),
        Err(PacketHeaderError::InvalidPacketType(InvalidPacketType(7)))
    ));
}

fn sample_payloads() -> Vec<Vec<u8>> {
    vec![
        vec![],
        vec![0],
        vec![1, 2, 3, 4, 5],
        (0..MAX_PAYLOAD_SIZE).map(|i| (i * 7 % 256) as u8).collect(),
    ]
}

#[test]
fn test_packet_roundtrip() {
    for (i, header) in sample_headers().into_iter().enumerate() {
        let payloads = sample_payloads();
        let payload = Bytes::from(payloads[i % payloads.len()].clone());
        let packet = Packet::new(header, payload);
        let mut bytes = Vec::new();
        packet.encode_to(&mut bytes);
        let decoded = Packet::decode(&bytes);
        assert!(decoded.is_ok());
        assert_eq!(decoded.unwrap(), packet);
    }
}

#[test]
fn test_encode_packet() {
    for (i, header) in sample_headers().into_iter().enumerate() {
        let payloads = sample_payloads();
        let payload = Bytes::from(payloads[(i + 1) % payloads.len()].clone());
        let packet = Packet::new(header, payload);
        let mut buf = Vec::new();
        packet.encode_to(&mut buf);
        let expected_len = PACKET_HEADER_LEN + packet.payload.len();
        assert_eq!(buf.len(), expected_len);
        let decoded = Packet::decode(&buf);
        assert!(decoded.is_ok());
        assert_eq!(decoded.unwrap(), packet);
    }
}

#[test]
fn test_encode_matches_encode_to_and_appends() {
    let packet = PacketBuilder::new(PacketType::Data, 7, 8, 9, 10)
        .payload(Bytes::from(vec![0xAA, 0xBB]))
        .build();
    let mut buf = vec![1, 2, 3];
    packet.encode_to(&mut buf);
    assert_eq!(&buf[..3], &[1, 2, 3]);
    let encoded = packet.encode();
    assert_eq!(encoded.as_ref(), &buf[3..]);
    assert_eq!(encoded.as_ref().len(), PACKET_HEADER_LEN + 2);
    assert_eq!(&encoded.as_ref()[PACKET_HEADER_LEN..], &[0xAA, 0xBB]);
}

#[test]
fn test_decode_payload_is_rest_of_datagram() {
    let mut buf = encode_header(&sample_headers()[3]);
    buf.extend_from_slice(&[5, 6, 7]);
    let p = Packet::decode(&buf).unwrap();
    assert_eq!(p.payload.as_ref(), &[5, 6, 7]);
    assert_eq!(p.payload.len(), 3);
}

#[test]
fn test_packet_getters() {
    let header = sample_headers()[11].clone();
    let p = Packet::new(header.clone(), Bytes::new());
    assert_eq!(p.packet_type(), header.packet_type);
    assert_eq!(p.version(), header.version);
    assert_eq!(p.extension(), header.extension);
    assert_eq!(p.conn_id(), header.conn_id);
    assert_eq!(p.timestamp(), header.timestamp);
    assert_eq!(p.timestamp_diff(), header.timestamp_diff);
    assert_eq!(p.wnd_size(), header.wnd_size);
    assert_eq!(p.seq_nr(), header.seq_nr);
    assert_eq!(p.ack_nr(), header.ack_nr);
}

#[test]
fn test_builder_defaults_and_setters() {
    let p = PacketBuilder::new(PacketType::Syn, 42, 1000, 500, 77).build();
    assert_eq!(p.packet_type(), PacketType::Syn);
    assert_eq!(p.version(), Version::V1);
    assert_eq!(p.extension(), Extension::NoExtension);
    assert_eq!(p.conn_id(), 42);
    assert_eq!(p.timestamp(), 1000);
    assert_eq!(p.timestamp_diff(), 0);
    assert_eq!(p.wnd_size(), 500);
    assert_eq!(p.seq_nr(), 77);
    assert_eq!(p.ack_nr(), 0);
    assert!(p.payload.is_empty());

    let p = PacketBuilder::new(PacketType::Data, 1, 2, 3, 4)
        .timestamp(10)
        .timestamp_diff(11)
        .wnd_size(12)
        .seq_nr(13)
        .ack_nr(14)
        .payload(Bytes::from(vec![1, 2]))
        .build();
    assert_eq!(p.timestamp(), 10);
    assert_eq!(p.timestamp_diff(), 11);
    assert_eq!(p.wnd_size(), 12);
    assert_eq!(p.seq_nr(), 13);
    assert_eq!(p.ack_nr(), 14);
    assert_eq!(p.payload.as_ref(), &[1, 2]);
}

#[test]
fn test_packet_type_conversions() {
    for (code, t) in ALL_TYPES.iter().enumerate() {
        assert_eq!(u8::from(*t), code as u8);
        assert_eq!(PacketType::try_from(code as u8).unwrap(), *t);
    }
    for v in 5u8..=255 {
        assert!(matches!(PacketType::try_from(v), Err(InvalidPacketType(x)) if x == v));
    }
}

#[test]
fn test_packet_type_to_string() {
    assert_eq!(PacketType::Data.to_string(), "ST_DATA");
    assert_eq!(PacketType::Fin.to_string(), "ST_FIN");
    assert_eq!(PacketType::State.to_string(), "ST_STATE");
    assert_eq!(PacketType::Reset.to_string(), "ST_RESET");
    assert_eq!(PacketType::Syn.to_string(), "ST_SYN");
}

#[test]
fn test_version_conversions() {
    assert_eq!(u8::from(Version::V1), 1);
    assert_eq!(Version::try_from(1).unwrap(), Version::V1);
    assert!(matches!(Version::try_from(0), Err(InvalidVersion(0))));
    assert!(matches!(Version::try_from(2), Err(InvalidVersion(2))));
}

#[test]
fn test_extension_conversions() {
    assert_eq!(Extension::from(0u8), Extension::NoExtension);
    assert_eq!(Extension::from(1u8), Extension::SelectiveAck);
    assert_eq!(Extension::from(9u8), Extension::Unknown(9));
    for v in 0u8..=255 {
        assert_eq!(u8::from(Extension::from(v)), v);
    }
    assert_eq!(u8::from(Extension::NoExtension), 0);
    assert_eq!(u8::from(Extension::SelectiveAck), 1);
    assert_eq!(u8::from(Extension::Unknown(1)), 1);
}

#[test]
fn test_error_conversions() {
    assert!(matches!(InvalidVersion::from(3u8), InvalidVersion(3)));
    assert!(matches!(InvalidPacketType::from(6u8), InvalidPacketType(6)));
    assert!(matches!(
        PacketHeaderError::from(InvalidPacketType(6)),
        PacketHeaderError::InvalidPacketType(InvalidPacketType(6))
    ));
    assert!(matches!(
        PacketHeaderError::from(InvalidVersion(3)),
        PacketHeaderError::InvalidVersion(InvalidVersion(3))
    ));
    assert!(matches!(
        PacketError::from(PacketHeaderError::InvalidLen(4)),
        PacketError::InvalidHeader(PacketHeaderError::InvalidLen(4))
    ));
}

#[test]
fn test_packet_clone_keeps_payload() {
    let p = PacketBuilder::new(PacketType::Data, 3, 4, 5, 6)
        .payload(Bytes::from(vec![9, 8, 7]))
        .build();
    let q = p.clone();
    assert_eq!(q.payload.as_ref(), &[9, 8, 7]);
    assert_eq!(q, p);
}

#[test]
fn test_builder_setter_order_irrelevant() {
    let a = PacketBuilder::new(PacketType::Fin, 1, 2, 3, 4)
        .timestamp(10)
        .timestamp_diff(11)
        .wnd_size(12)
        .seq_nr(13)
        .ack_nr(14)
        .payload(Bytes::from(vec![1]))
        .build();
    let b = PacketBuilder::new(PacketType::Fin, 1, 2, 3, 4)
        .payload(Bytes::from(vec![1]))
        .ack_nr(14)
        .seq_nr(13)
        .wnd_size(12)
        .timestamp_diff(11)
        .timestamp(10)
        .build();
    assert_eq!(a, b);
}
