use codecrafters_kafka::parser::{parse_message, DecodeError, Header, Message};
use codecrafters_kafka::{
    append_response_body, append_response_header, create_response, handle_request,
    is_api_ver_valid, update_msg_size, Config,
};

fn request(api_key: i16, api_version: i16, corr_id: i32) -> Vec<u8> {
    let mut b = Vec::new();
    b.extend_from_slice(&8i32.to_be_bytes());
    b.extend_from_slice(&api_key.to_be_bytes());
    b.extend_from_slice(&api_version.to_be_bytes());
    b.extend_from_slice(&corr_id.to_be_bytes());
    b
}

fn api_versions_body(api_key: i16) -> Vec<u8> {
    let k = api_key.to_be_bytes();
    vec![0, k[0], k[1], 0, 0, 0, 4, 0, 0, 0, 0, 0, 0]
}

fn error_code_of(response: &[u8]) -> i16 {
    i16::from_be_bytes([response[8], response[9]])
}

#[test]
fn scenario_supported_version() {
    let req = vec![0, 0, 0, 8, 0, 0x12, 0, 4, 0, 0, 0, 7];
    let resp = handle_request(&req).unwrap();
    let mut expected = vec![0, 0, 0, 0x13, 0, 0, 0, 7, 0, 0];
    expected.extend_from_slice(&api_versions_body(18));
    assert_eq!(resp, expected);
    assert_eq!(resp.len(), 23);
}

#[test]
fn scenario_unsupported_version() {
    let req = vec![0, 0, 0, 8, 0, 0x12, 0, 5, 0, 0, 0, 7];
    let resp = handle_request(&req).unwrap();
    assert_eq!(&resp[8..10], &[0x00, 0x23]);
    assert_eq!(&resp[4..8], &[0, 0, 0, 7]);
}

#[test]
fn scenario_truncated_size_field() {
    let truncated = handle_request(&[0, 0]);
    assert_eq!(
        truncated,
        Err(DecodeError::TruncatedFrame { field_offset: 0, available: 2 })
    );
    let zero_length = handle_request(&[0, 0, 0, 0]);
    assert_eq!(
        zero_length,
        Err(DecodeError::TruncatedFrame { field_offset: 4, available: 0 })
    );
    assert_ne!(truncated, zero_length);
    assert_eq!(handle_request(&[]), Err(DecodeError::EndOfStream));
}

#[test]
fn truncation_names_the_cut_field() {
    let full = request(18, 4, 7);
    let expected = [
        (1, 0, 1),
        (3, 0, 3),
        (5, 4, 1),
        (6, 6, 0),
        (7, 6, 1),
        (8, 8, 0),
        (11, 8, 3),
    ];
    for (n, field_offset, available) in expected {
        assert_eq!(
            parse_message(&full[..n]),
            Err(DecodeError::TruncatedFrame { field_offset, available })
        );
    }
}

#[test]
fn parse_reads_every_field() {
    let req = vec![0, 0, 0, 8, 0x12, 0x34, 0xff, 0xfe, 0x80, 0, 0, 1];
    let msg = parse_message(&req).unwrap();
    assert_eq!(msg.size, 8);
    assert_eq!(msg.header.req_api_key, 0x1234);
    assert_eq!(msg.header.req_api_ver, -2);
    assert_eq!(msg.header.corr_id, i32::MIN + 1);
}

#[test]
fn parse_ignores_bytes_after_header() {
    let mut req = request(18, 3, 99);
    req.extend_from_slice(&[1, 2, 3]);
    let msg = parse_message(&req).unwrap();
    assert_eq!(msg, Message::new(8, Header::new(18, 3, 99)));
}

#[test]
fn correlation_id_echoed_for_extremes() {
    for corr_id in [i32::MIN, -1, 0, 7, i32::MAX] {
        let resp = handle_request(&request(18, 4, corr_id)).unwrap();
        assert_eq!(&resp[4..8], &corr_id.to_be_bytes());
    }
}

#[test]
fn error_code_by_version() {
    for v in [i16::MIN, -1, 0, 3, 4] {
        let resp = create_response(Message::new(8, Header::new(18, v, 1)));
        assert_eq!(error_code_of(&resp), 0);
    }
    for v in [5, 6, 100, i16::MAX] {
        let resp = create_response(Message::new(8, Header::new(18, v, 1)));
        assert_eq!(error_code_of(&resp), 35);
    }
}

#[test]
fn size_field_counts_trailing_bytes() {
    for v in [0, 5] {
        let resp = create_response(Message::new(8, Header::new(18, v, 42)));
        let size = i32::from_be_bytes([resp[0], resp[1], resp[2], resp[3]]);
        assert_eq!(size as usize, resp.len() - 4);
    }
}

#[test]
fn response_header_reads_back() {
    let resp = create_response(Message::new(8, Header::new(3, 9, -123456)));
    assert_eq!(i32::from_be_bytes([resp[4], resp[5], resp[6], resp[7]]), -123456);
    assert_eq!(error_code_of(&resp), 35);
}

#[test]
fn api_key_extremes_echoed() {
    for key in [i16::MIN, i16::MAX] {
        let resp = create_response(Message::new(8, Header::new(key, 0, 1)));
        assert_eq!(i16::from_be_bytes([resp[11], resp[12]]), key);
        assert_eq!(&resp[10..], &api_versions_body(key)[..]);
    }
}

#[test]
fn update_msg_size_patches_larger_buffer() {
    let mut buf = vec![0xaa; 4];
    buf.extend(std::iter::repeat(7u8).take(300));
    update_msg_size(&mut buf);
    assert_eq!(&buf[..4], &[0, 0, 1, 0x2c]);
    assert_eq!(buf.len(), 304);
    assert!(buf[4..].iter().all(|b| *b == 7));
}

#[test]
fn update_msg_size_on_bare_size_field() {
    let mut buf = vec![9, 9, 9, 9];
    update_msg_size(&mut buf);
    assert_eq!(buf, vec![0, 0, 0, 0]);
}

#[test]
fn header_appends_placeholder_and_correlation_id() {
    let mut buf = vec![1];
    append_response_header(&mut buf, &0x01020304);
    assert_eq!(buf, vec![1, 0, 0, 0, 0, 1, 2, 3, 4]);
}

#[test]
fn body_layout() {
    let mut buf = vec![5];
    append_response_body(&mut buf, &-2);
    assert_eq!(buf, vec![5, 0, 0xff, 0xfe, 0, 0, 0, 4, 0, 0, 0, 0, 0, 0]);
}

#[test]
fn version_validity() {
    assert!(is_api_ver_valid(&4));
    assert!(is_api_ver_valid(&i16::MIN));
    assert!(!is_api_ver_valid(&5));
    assert!(!is_api_ver_valid(&i16::MAX));
}

#[test]
fn default_socket_string() {
    let config = Config::default();
    assert_eq!("127.0.0.1:9092", config.to_socket_string());
}

#[test]
fn constructors_keep_fields() {
    let h = Header::new(-1, 2, -3);
    assert_eq!((h.req_api_key, h.req_api_ver, h.corr_id), (-1, 2, -3));
    let m = Message::new(-4, h);
    assert_eq!(m.size, -4);
    assert_eq!(m.header, h);
}

#[test]
fn socket_string_of_other_address() {
    let config = Config::new([10, 200, 3, 0], 80);
    assert_eq!(config.to_socket_string(), "10.200.3.0:80");
    let config = Config::new([255, 255, 255, 255], 65535);
    assert_eq!(config.to_socket_string(), "255.255.255.255:65535");
}
