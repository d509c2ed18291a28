use doip2http::codec::{
    decode_header, encode_doip_message, header_has_valid_version, DiagnosticPayloadType, DoipHeader,
    VehicleConnectionPayloadType, HEADER_LEN,
};

#[test]
fn encode_frames_header_and_payload() {
    let payload = [0x10u8, 0x03];
    let frame = encode_doip_message(0x8001, Some(&payload[..]));
    assert_eq!(frame, vec![0x02, 0xFD, 0x80, 0x01, 0x00, 0x00, 0x00, 0x02, 0x10, 0x03]);
}

#[test]
fn encode_without_payload_has_zero_length() {
    let frame = encode_doip_message(0x0007, None);
    assert_eq!(frame, vec![0x02, 0xFD, 0x00, 0x07, 0x00, 0x00, 0x00, 0x00]);
}

#[test]
fn encode_long_payload_length_is_big_endian() {
    let payload = vec![0xAAu8; 0x0102];
    let frame = encode_doip_message(0x1234, Some(&payload[..]));
    assert_eq!(frame.len(), 8 + 0x0102);
    assert_eq!(&frame[0..8], &[0x02, 0xFD, 0x12, 0x34, 0x00, 0x00, 0x01, 0x02]);
    assert!(frame[8..].iter().all(|b| *b == 0xAA));
}

#[test]
fn decode_reads_type_and_length() {
    let header = [0x02u8, 0xFD, 0x00, 0x06, 0x01, 0x02, 0x03, 0x04];
    let h = decode_header(&header);
    assert_eq!(h, DoipHeader { payload_type: 0x0006, payload_len: 0x01020304 });
}

#[test]
fn codec_round_trip_on_examples() {
    for (kind, len) in [(0u16, 0usize), (0x8001, 6), (0xFFFF, 65535), (0x0005, 300)] {
        let payload: Vec<u8> = (0..len).map(|i| (i % 251) as u8).collect();
        let frame = encode_doip_message(kind, Some(&payload[..]));
        let h = decode_header(&frame[0..HEADER_LEN]);
        assert_eq!(h.payload_type, kind);
        assert_eq!(h.payload_len as usize, len);
        assert_eq!(&frame[HEADER_LEN..], &payload[..]);
    }
}

#[test]
fn payload_type_codes() {
    assert_eq!(VehicleConnectionPayloadType::RoutingActivationRequest.code(), 0x0005);
    assert_eq!(VehicleConnectionPayloadType::RoutingActivationResponse.code(), 0x0006);
    assert_eq!(VehicleConnectionPayloadType::AliveCheckResponse.code(), 0x0008);
    assert_eq!(DiagnosticPayloadType::DiagnosticMessage.code(), 0x8001);
    assert_eq!(DiagnosticPayloadType::DiagnosticNegativeAck.code(), 0x8003);
}

#[test]
fn header_version_check() {
    assert!(header_has_valid_version(&[0x02, 0xFD, 0, 6, 0, 0, 0, 5]));
    assert!(!header_has_valid_version(&[0x02, 0x01, 0, 6, 0, 0, 0, 5]));
    assert!(!header_has_valid_version(&[0x01, 0xFD, 0, 6, 0, 0, 0, 5]));
    let frame = encode_doip_message(0x8001, None);
    assert!(header_has_valid_version(&frame[0..8]));
}
