use pasori::errors::{Error, ProtocolError};
use pasori::felica::{
    build_polling_request, build_read_request, compute_read_timeout_us, parse_polling_response,
    parse_read_response, BlockCode, Card, PollingRequestCode, PollingTimeSlot, ServiceCode,
};

#[test]
fn service_code_bytes_are_little_endian() {
    assert_eq!(ServiceCode::new(0x200b).to_bytes(), [0x0b, 0x20]);
    assert_eq!(ServiceCode::new(0x090f).to_bytes(), [0x0f, 0x09]);
}

#[test]
fn short_block_code_is_two_bytes_top_bit_clear() {
    let bytes = BlockCode::new(5, None, 0).to_bytes();
    assert_eq!(bytes, vec![0x00, 5]);
    assert_eq!(bytes[0] & 0x80, 0x00);
}

#[test]
fn long_block_code_is_three_bytes_top_bit_set_little_endian() {
    let bytes = BlockCode::new(300, None, 0).to_bytes();
    assert_eq!(bytes.len(), 3);
    assert_eq!(bytes[0] & 0x80, 0x80);
    // 300 = 0x012c, little-endian in bytes 2..3
    assert_eq!(&bytes[1..3], &[0x2c, 0x01]);
}

#[test]
fn block_code_packs_mode_and_list_order() {
    let bytes = BlockCode::new(2, Some(0x03), 0x05).to_bytes();
    assert_eq!(bytes, vec![0x35, 2]);
}

#[test]
fn polling_request_with_filter() {
    let req = build_polling_request(
        Some(0x809c),
        PollingRequestCode::SystemCode,
        PollingTimeSlot::Slot0,
    );
    assert_eq!(req, vec![0x00, 0x80, 0x9c, 0x01, 0x00]);
}

#[test]
fn polling_request_without_filter_uses_wildcard() {
    let req = build_polling_request(
        None,
        PollingRequestCode::NoRequest,
        PollingTimeSlot::Slot3,
    );
    assert_eq!(req, vec![0x00, 0xff, 0xff, 0x00, 0x03]);
}

#[test]
fn polling_response_with_system_code() {
    let mut res: Vec<u8> = vec![0x14, 0x01];
    res.extend_from_slice(&[0x01, 0x02, 0x03, 0x04, 0x05, 0x06, 0x07, 0x08]);
    res.extend_from_slice(&[0xa0, 0xa1, 0xa2, 0xa3, 0xa4, 0xa5, 0xa6, 0xa7]);
    res.extend_from_slice(&[0x80, 0x9c]);
    let parsed = parse_polling_response(&res, PollingRequestCode::SystemCode).unwrap();
    assert_eq!(parsed.card.idm(), [0x01, 0x02, 0x03, 0x04, 0x05, 0x06, 0x07, 0x08]);
    assert_eq!(parsed.card.pmm(), [0xa0, 0xa1, 0xa2, 0xa3, 0xa4, 0xa5, 0xa6, 0xa7]);
    assert_eq!(parsed.card.system_code(), Some(0x809c));
    assert_eq!(parsed.request_result, Some(0x809c));
}

#[test]
fn polling_response_trailing_ignored_without_system_code_request() {
    let mut res: Vec<u8> = vec![0x14, 0x01];
    res.extend_from_slice(&[0; 16]);
    res.extend_from_slice(&[0x80, 0x9c]);
    let parsed = parse_polling_response(&res, PollingRequestCode::NoRequest).unwrap();
    assert_eq!(parsed.card.system_code(), None);
    assert_eq!(parsed.request_result, Some(0x809c));
}

#[test]
fn polling_response_without_trailing_bytes() {
    let mut res: Vec<u8> = vec![0x12, 0x01];
    res.extend_from_slice(&[0; 16]);
    let parsed = parse_polling_response(&res, PollingRequestCode::SystemCode).unwrap();
    assert_eq!(parsed.card.system_code(), None);
    assert_eq!(parsed.request_result, None);
}

#[test]
fn polling_response_bad_length_prefix() {
    let mut res: Vec<u8> = vec![0x13, 0x01];
    res.extend_from_slice(&[0; 16]);
    assert_eq!(
        parse_polling_response(&res, PollingRequestCode::SystemCode),
        Err(Error::Protocol(ProtocolError::DeviceReportedError))
    );
}

#[test]
fn polling_response_bad_response_code() {
    let mut res: Vec<u8> = vec![0x12, 0x02];
    res.extend_from_slice(&[0; 16]);
    assert_eq!(
        parse_polling_response(&res, PollingRequestCode::SystemCode),
        Err(Error::Protocol(ProtocolError::ResponseCodeMismatch))
    );
}

#[test]
fn read_request_bytes() {
    let card = Card::new([1, 2, 3, 4, 5, 6, 7, 8], [0; 8], None);
    let req = build_read_request(
        &card,
        &vec![ServiceCode::new(0x200b)],
        &vec![BlockCode::new(0, None, 0)],
    );
    assert_eq!(
        req,
        vec![0x06, 1, 2, 3, 4, 5, 6, 7, 8, 0x01, 0x0b, 0x20, 0x01, 0x00, 0x00]
    );
}

#[test]
fn read_request_counts_blocks_not_services() {
    let card = Card::new([0; 8], [0; 8], None);
    let req = build_read_request(
        &card,
        &vec![ServiceCode::new(0x0001)],
        &vec![BlockCode::new(0, None, 0), BlockCode::new(1, None, 0)],
    );
    // one service, two blocks
    assert_eq!(req[9], 0x01);
    assert_eq!(req[12], 0x02);
}

#[test]
fn read_timeout_exact_value() {
    // a = b = e = 0: one unit per block plus one unit
    assert_eq!(compute_read_timeout_us(0x00, 1), 604);
    // the timing byte of the end-to-end scenario: a=4, b=4, e=2
    assert_eq!(compute_read_timeout_us(0xa4, 1), 48330);
}

#[test]
fn read_timeout_monotonic_in_block_count() {
    for pmm_byte in [0x00u8, 0x5b, 0xa4, 0xff] {
        let mut prev = compute_read_timeout_us(pmm_byte, 0);
        for n in 1..16 {
            let next = compute_read_timeout_us(pmm_byte, n);
            assert!(next >= prev);
            prev = next;
        }
    }
}

#[test]
fn read_timeout_deterministic() {
    assert_eq!(
        compute_read_timeout_us(0x5b, 7),
        compute_read_timeout_us(0x5b, 7)
    );
}

#[test]
fn read_response_single_block() {
    let idm = [1, 2, 3, 4, 5, 6, 7, 8];
    let mut res: Vec<u8> = vec![29, 0x07];
    res.extend_from_slice(&idm);
    res.extend_from_slice(&[0x00, 0x00, 0x01]);
    let block: Vec<u8> = (0..16).collect();
    res.extend_from_slice(&block);
    let parsed = parse_read_response(&res, &idm).unwrap();
    assert_eq!(parsed.status_flag1, 0);
    assert_eq!(parsed.status_flag2, 0);
    assert_eq!(parsed.block_data, vec![block]);
}

#[test]
fn read_response_nonzero_status_is_device_error() {
    let idm = [0; 8];
    let mut res: Vec<u8> = vec![13, 0x07];
    res.extend_from_slice(&idm);
    res.extend_from_slice(&[0x01, 0xa6, 0x00]);
    assert_eq!(
        parse_read_response(&res, &idm),
        Err(Error::Protocol(ProtocolError::NonZeroStatus))
    );
}

#[test]
fn read_response_wrong_idm_rejected() {
    let idm = [1, 2, 3, 4, 5, 6, 7, 8];
    let mut res: Vec<u8> = vec![13, 0x07];
    res.extend_from_slice(&[9; 8]);
    res.extend_from_slice(&[0x00, 0x00, 0x00]);
    assert_eq!(
        parse_read_response(&res, &idm),
        Err(Error::Protocol(ProtocolError::DeviceReportedError))
    );
}

#[test]
fn read_response_wrong_code_rejected() {
    let idm = [0; 8];
    let mut res: Vec<u8> = vec![13, 0x09];
    res.extend_from_slice(&idm);
    res.extend_from_slice(&[0x00, 0x00, 0x00]);
    assert_eq!(
        parse_read_response(&res, &idm),
        Err(Error::Protocol(ProtocolError::ResponseCodeMismatch))
    );
}
