use opcua_nodes::secure_channel::{DecodingLimits, OpenSecureChannelResponse};
use opcua_types::{
    BinaryEncoder, ByteString, ChannelSecurityToken, DateTime, DecodingOptions, DiagnosticInfo, ExtensionObject,
    ResponseHeader, StatusCode,
};

fn limits() -> DecodingLimits {
    let options = DecodingOptions::default();
    DecodingLimits {
        client_offset_seconds: 0,
        client_offset_nanos: 0,
        max_chunk_count: options.max_chunk_count,
        max_string_length: options.max_string_length,
        max_byte_string_length: options.max_byte_string_length,
        max_array_length: options.max_array_length,
    }
}

fn header() -> ResponseHeader {
    ResponseHeader {
        timestamp: DateTime::null(),
        request_handle: 5,
        service_result: StatusCode::Good,
        service_diagnostics: DiagnosticInfo::null(),
        string_table: None,
        additional_header: ExtensionObject::null(),
    }
}

fn token() -> ChannelSecurityToken {
    ChannelSecurityToken { channel_id: 7, token_id: 3, created_at: DateTime::null(), revised_lifetime: 600_000 }
}

fn response(nonce: Option<Vec<u8>>) -> OpenSecureChannelResponse {
    OpenSecureChannelResponse {
        response_header: header(),
        server_protocol_version: 0x0102_0304,
        security_token: token(),
        server_nonce: nonce,
    }
}

fn reference_encoding(nonce: Option<Vec<u8>>) -> Vec<u8> {
    opcua_types::OpenSecureChannelResponse {
        response_header: header(),
        server_protocol_version: 0x0102_0304,
        security_token: token(),
        server_nonce: ByteString { value: nonce },
    }
    .encode_to_vec()
}

#[test]
fn object_id_is_the_binary_encoding() {
    assert_eq!(response(None).object_id(), 449);
}

#[test]
fn encodes_fields_in_order() {
    let r = response(Some(vec![9, 8, 7]));
    let bytes = r.encode();
    assert_eq!(bytes, reference_encoding(Some(vec![9, 8, 7])));
    assert_eq!(r.byte_len(), bytes.len());
    assert_eq!(r.checked_byte_len(), Some(bytes.len()));
    let header_len = header().byte_len();
    // The protocol version, little-endian, right after the header.
    assert_eq!(&bytes[header_len..header_len + 4], &[4, 3, 2, 1]);
    // The nonce: its length, then its bytes.
    let n = bytes.len();
    assert_eq!(&bytes[n - 7..], &[3, 0, 0, 0, 9, 8, 7]);
    // A null nonce is written as length -1.
    let null = response(None).encode();
    assert_eq!(&null[null.len() - 4..], &[0xff, 0xff, 0xff, 0xff]);
    assert_eq!(null, reference_encoding(None));
}

#[test]
fn decodes_what_was_encoded() {
    let options = limits();
    for nonce in [None, Some(vec![]), Some(vec![1, 2, 3, 4, 5])] {
        let r = response(nonce.clone());
        let mut bytes = r.encode();
        let len = bytes.len();
        bytes.extend_from_slice(&[0xAA, 0xBB]);
        let (back, read) = OpenSecureChannelResponse::decode(&bytes, &options).unwrap();
        assert_eq!(read, len);
        assert_eq!(back.server_protocol_version, 0x0102_0304);
        assert_eq!(back.server_nonce, nonce);
        assert_eq!(back.security_token, token());
        assert_eq!(back.response_header, header());
    }
}

#[test]
fn decoding_fails_on_short_input() {
    let options = limits();
    let bytes = response(Some(vec![1, 2, 3])).encode();
    let header_len = header().byte_len();
    // Cut inside the protocol version.
    assert_eq!(OpenSecureChannelResponse::decode(&bytes[..header_len + 2], &options).unwrap_err(), 0x8007_0000);
    // Cut inside the nonce.
    assert!(OpenSecureChannelResponse::decode(&bytes[..bytes.len() - 1], &options).is_err());
    // Nothing at all.
    assert!(OpenSecureChannelResponse::decode(&[], &options).is_err());
}

#[test]
fn decoding_reads_only_the_message() {
    let options = limits();
    let bytes = response(Some(vec![6, 6])).encode();
    let (_, read) = OpenSecureChannelResponse::decode(&bytes, &options).unwrap();
    assert_eq!(read, bytes.len());
    // Every shorter prefix is refused.
    for k in 0..bytes.len() {
        assert!(OpenSecureChannelResponse::decode(&bytes[..k], &options).is_err());
    }
    // Whatever follows, the same response is read.
    for tail in [vec![], vec![0], vec![0xff; 9]] {
        let mut longer = bytes.clone();
        longer.extend_from_slice(&tail);
        let (back, read) = OpenSecureChannelResponse::decode(&longer, &options).unwrap();
        assert_eq!(read, bytes.len());
        assert_eq!(back.server_nonce, Some(vec![6, 6]));
    }
}

#[test]
fn decoding_subtracts_the_client_offset() {
    let mut r = response(None);
    r.security_token.created_at = DateTime::ymd_hms(2020, 6, 1, 12, 0, 0);
    let bytes = r.encode();
    let mut options = limits();
    options.client_offset_seconds = 3600;
    let (back, _) = OpenSecureChannelResponse::decode(&bytes, &options).unwrap();
    assert_eq!(back.security_token.created_at, DateTime::ymd_hms(2020, 6, 1, 11, 0, 0));
    options.client_offset_seconds = -1;
    options.client_offset_nanos = -500_000_000;
    let (back, _) = OpenSecureChannelResponse::decode(&bytes, &options).unwrap();
    assert_eq!(back.security_token.created_at, DateTime::ymd_hms_nano(2020, 6, 1, 12, 0, 1, 500_000_000));
}

#[test]
fn decoding_keeps_to_the_byte_string_limit() {
    let bytes = response(Some(vec![1, 2, 3])).encode();
    let mut options = limits();
    options.max_byte_string_length = 2;
    assert_eq!(OpenSecureChannelResponse::decode(&bytes, &options).unwrap_err(), 0x8007_0000);
    options.max_byte_string_length = 3;
    assert!(OpenSecureChannelResponse::decode(&bytes, &options).is_ok());
}

/// A response whose header's diagnostic info nests `levels` deep, with zero fields.
fn nested_response_bytes(levels: usize) -> Vec<u8> {
    let mut b = vec![0u8; 16];
    b.extend(std::iter::repeat(0x40u8).take(levels - 1));
    b.push(0);
    // No string table, a null additional header.
    b.extend_from_slice(&[0xff, 0xff, 0xff, 0xff, 0, 0, 0]);
    // Protocol version, token, null nonce.
    b.extend_from_slice(&[0u8; 24]);
    b.extend_from_slice(&[0xff, 0xff, 0xff, 0xff]);
    b
}

#[test]
fn diagnostic_nesting_is_bounded() {
    let options = limits();
    let deepest = nested_response_bytes(1024);
    let (r, read) = OpenSecureChannelResponse::decode(&deepest, &options).unwrap();
    assert_eq!(read, deepest.len());
    // It encodes back to the same bytes.
    assert_eq!(r.checked_byte_len(), Some(deepest.len()));
    assert_eq!(r.checked_encode(), Some(deepest.clone()));
    // One level more is refused before it is decoded.
    let deeper = nested_response_bytes(1025);
    assert_eq!(OpenSecureChannelResponse::decode(&deeper, &options).unwrap_err(), 0x8008_0000);
}

#[test]
fn times_past_the_tick_range_are_not_encoded() {
    let mut bytes = response(None).encode();
    // The token's creation time: ten seconds short of the largest tick count.
    let at = header().byte_len() + 4 + 8;
    bytes[at..at + 8].copy_from_slice(&(i64::MAX - 100_000_000).to_le_bytes());
    let mut options = limits();
    let (back, _) = OpenSecureChannelResponse::decode(&bytes, &options).unwrap();
    // Past the year 9999 a time is written as the largest tick count.
    let again = back.checked_encode().unwrap();
    assert_eq!(&again[at..at + 8], &i64::MAX.to_le_bytes());
    // An hour later the ticks no longer fit in 64 bits.
    options.client_offset_seconds = -3600;
    let (later, _) = OpenSecureChannelResponse::decode(&bytes, &options).unwrap();
    assert_eq!(later.checked_encode(), None);
    assert!(later.checked_byte_len().is_some());
}

#[test]
fn truncated_encodings_are_refused() {
    let options = limits();
    for nonce in [None, Some(vec![]), Some(vec![7; 40])] {
        let bytes = response(nonce).encode();
        for k in 0..bytes.len() {
            assert!(OpenSecureChannelResponse::decode(&bytes[..k], &options).is_err());
        }
    }
}
