use sep_data::output_data::SEOutputData;
use sep_data::output_data::SEOutputDataId;
use sep_data::packet::PACKET_HEADER_SIZE;
use sep_data::packet::PacketHeader;
use sep_data::packet::ParseFailedError;
use sep_data::packet::SubPacketHeader;
use sep_data::packet::parse_packet;
use sep_data::packet::parse_packet_data;
use sep_data::packet::parse_packet_header;
use sep_data::packet::parse_sub_packet;
use sep_data::packet::parse_sub_packet_data;
use sep_data::packet::parse_sub_packet_header;
use sep_data::wire::DecodeError;

const SUB_PACKET_HEADER_SIZE: usize = 2 + 2;

const PACKET_EMPTY: &[u8] = &[
    0x53, 0x45, 0x50, 0x44, // Sync Id
    0x00, 0x04, // Packet type
    0x00, 0x00, // Packet length
];

const PACKET_FRAME_NUMBER: &[u8] = &[
    // Packet Header
    0x53, 0x45, 0x50, 0x44, // Sync Id
    0x00, 0x04, // Packet type
    0x00, 0x08, // Packet length
    // Subpacket header
    0x00, 0x01, // Id (0x0001 = SEFrameNumber)
    0x00, 0x04, // Length
    // Subpacket data
    0x00, 0x00, 0x45, 0x9B,
];

const PACKET_TIME_STAMP_FRAME_NUMBER: &[u8] = &[
    // Packet Header
    0x53, 0x45, 0x50, 0x44, // Sync Id
    0x00, 0x04, // Packet type
    0x00, 0x14, // Packet length
    // Subpacket header
    0x00, 0x03, // Id (0x0003 = SETimeStamp)
    0x00, 0x08, // Length
    // Subpacket data
    0x00, 0x00, 0x04, 0x12, 0xDE, 0x00, 0x01, 0x00, // Subpacket header
    0x00, 0x01, // Id (0x0001 = SEFrameNumber)
    0x00, 0x04, // Length
    // Subpacket data
    0x00, 0x00, 0x45, 0x9B,
];

const INCOMPLETE_PACKET_FRAME_NUMBER: &[u8] = &[
    // Packet Header
    0x53, 0x45, 0x50, 0x44, // Sync Id
    0x00, 0x04, // Packet type
    0x00, 0x08, // Packet length
    // Subpacket header
    0x00, 0x01, // Id (0x0001 = SEFrameNumber)
    0x00, 0x04, // Length
          // Missing: Subpacket data
];

#[test]
fn test_parse_packet_header() {
    assert_eq!(
        parse_packet_header(PACKET_EMPTY),
        Ok(PacketHeader { length: 0 })
    );

    assert_eq!(
        parse_packet_header(PACKET_FRAME_NUMBER),
        Ok(PacketHeader { length: 8 })
    );

    let invalid_sync_id: &[u8] = &[
        0x53, 0x45, 0x66, 0x66, // Sync Id
        0x00, 0x04, // Packet type
        0x00, 0x00, // Packet length
    ];
    assert!(parse_packet_header(invalid_sync_id).is_err());

    let invalid_type: &[u8] = &[
        0x53, 0x45, 0x50, 0x44, // Sync Id
        0x00, 0x03, // Packet type
        0x00, 0x00, // Packet length
    ];
    assert!(parse_packet_header(invalid_type).is_err());

    let empty: &[u8] = &[];
    assert_eq!(parse_packet_header(empty), Err(ParseFailedError {}))
}

#[test]
fn test_parse_sub_packet_header() {
    let sub_packet = &PACKET_FRAME_NUMBER[PACKET_HEADER_SIZE..];
    assert_eq!(
        parse_sub_packet_header(sub_packet, 0),
        Ok((
            SubPacketHeader {
                id: SEOutputDataId::SEFrameNumber,
                length: 4
            },
            SUB_PACKET_HEADER_SIZE
        ))
    );

    let sub_packet = &PACKET_TIME_STAMP_FRAME_NUMBER[PACKET_HEADER_SIZE..];
    assert_eq!(
        parse_sub_packet_header(sub_packet, 0),
        Ok((
            SubPacketHeader {
                id: SEOutputDataId::SETimeStamp,
                length: 8
            },
            SUB_PACKET_HEADER_SIZE
        ))
    );

    let empty: &[u8] = &[];
    assert_eq!(
        parse_sub_packet_header(empty, 0),
        Err(DecodeError::Truncated)
    )
}

#[test]
fn test_parse_sub_packet_data() {
    let sub_packet = &PACKET_FRAME_NUMBER[PACKET_HEADER_SIZE..];
    let sub_packet_data = &sub_packet[SUB_PACKET_HEADER_SIZE..];
    assert_eq!(
        parse_sub_packet_data(SEOutputDataId::SEFrameNumber, sub_packet_data, 0),
        Ok((SEOutputData::SEFrameNumber(17819), 4))
    );

    let sub_packet = &PACKET_TIME_STAMP_FRAME_NUMBER[PACKET_HEADER_SIZE..];
    let sub_packet_data = &sub_packet[SUB_PACKET_HEADER_SIZE..];
    assert_eq!(
        parse_sub_packet_data(SEOutputDataId::SETimeStamp, sub_packet_data, 0),
        Ok((SEOutputData::SETimeStamp(4479080464640), 8))
    );
}

#[test]
fn test_parse_sub_packet() {
    let sub_packet = &PACKET_FRAME_NUMBER[PACKET_HEADER_SIZE..];
    assert_eq!(
        parse_sub_packet(sub_packet, 0),
        Ok((SEOutputData::SEFrameNumber(17819), 8))
    );

    let sub_packet = &PACKET_TIME_STAMP_FRAME_NUMBER[PACKET_HEADER_SIZE..];
    assert_eq!(
        parse_sub_packet(sub_packet, 0),
        Ok((SEOutputData::SETimeStamp(4479080464640), SUB_PACKET_HEADER_SIZE + 8))
    );

    let sub_packet = &INCOMPLETE_PACKET_FRAME_NUMBER[PACKET_HEADER_SIZE..];
    assert_eq!(parse_sub_packet(sub_packet, 0), Err(DecodeError::Truncated));
}

#[test]
fn test_parse_packet_data() {
    let packet = &PACKET_FRAME_NUMBER;
    let header = parse_packet_header(packet).unwrap();
    assert_eq!(
        parse_packet_data(header, &packet[PACKET_HEADER_SIZE..]),
        Ok(vec![SEOutputData::SEFrameNumber(17819)])
    );

    let packet = &PACKET_TIME_STAMP_FRAME_NUMBER;
    let header = parse_packet_header(packet).unwrap();
    assert_eq!(
        parse_packet_data(header, &packet[PACKET_HEADER_SIZE..]),
        Ok(vec![
            SEOutputData::SETimeStamp(4479080464640),
            SEOutputData::SEFrameNumber(17819)
        ])
    );

    let packet = &INCOMPLETE_PACKET_FRAME_NUMBER;
    let header = parse_packet_header(packet).unwrap();
    assert_eq!(
        parse_packet_data(header, &packet[PACKET_HEADER_SIZE..]),
        Err(ParseFailedError {})
    );
}

#[test]
fn test_parse_packet_frame_number() {
    assert_eq!(
        parse_packet(PACKET_FRAME_NUMBER),
        Ok(vec![SEOutputData::SEFrameNumber(17819)])
    );
}

#[test]
fn test_parse_packet_empty_body() {
    assert_eq!(parse_packet(PACKET_EMPTY), Ok(vec![]));
}

#[test]
fn test_sub_packet_unknown_field() {
    // Field id 200 is outside the closed set.
    let sub_packet: &[u8] = &[0x00, 0xC8, 0x00, 0x04, 0x00, 0x00, 0x00, 0x00];
    assert_eq!(
        parse_sub_packet(sub_packet, 0),
        Err(DecodeError::UnknownField)
    );
}

#[test]
fn test_sub_packet_not_implemented_field() {
    // The tracking-state id is reserved and must fail, never be skipped.
    let sub_packet: &[u8] = &[0x00, 0x3A, 0x00, 0x04, 0x00, 0x00, 0x00, 0x00];
    assert_eq!(
        parse_sub_packet(sub_packet, 0),
        Err(DecodeError::NotImplemented)
    );
}

#[test]
fn test_sub_packet_exact_consumption() {
    // A frame number declares 5 payload bytes, but its decoder takes 4:
    // the sub-packet is invalid, not partially decoded.
    let sub_packet: &[u8] = &[0x00, 0x01, 0x00, 0x05, 0x00, 0x00, 0x45, 0x9B, 0x00];
    assert_eq!(
        parse_sub_packet(sub_packet, 0),
        Err(DecodeError::InvalidPacket)
    );
}

#[test]
fn test_packet_body_no_trailing_bytes() {
    // The body declares 9 bytes but its one sub-packet tiles only 8:
    // the leftover byte invalidates the whole body.
    let packet: &[u8] = &[
        0x53, 0x45, 0x50, 0x44, 0x00, 0x04, 0x00, 0x09, // header, length 9
        0x00, 0x01, 0x00, 0x04, // sub-packet header
        0x00, 0x00, 0x45, 0x9B, // frame number payload
        0x07, // trailing byte inside the declared body
    ];
    assert_eq!(parse_packet(packet), Err(ParseFailedError {}));
}
