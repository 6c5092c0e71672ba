use st3215::servo_protocol::{
    build_action, build_packet, build_ping, build_read, build_reg_write, build_reset,
    build_write, calc_checksum, frame_declares_short_length, parse_response, ResponseError,
    ADDR_CURRENT_POSITION, ADDR_TARGET_POSITION, BROADCAST_ID, INST_READ, INST_WRITE,
};

#[test]
fn checksum_of_ping_frame() {
    assert_eq!(calc_checksum(1, 2, 1, &[]), 0xFB);
}

#[test]
fn checksum_of_read_frame() {
    // 1 + 4 + 2 + 0x38 + 2 = 0x41, complement 0xBE
    assert_eq!(calc_checksum(1, 4, INST_READ, &[0x38, 0x02]), 0xBE);
}

#[test]
fn checksum_wraps_modulo_256() {
    let params = vec![0xFFu8; 300];
    let total: u32 = 7 + 8 + 9 + 300 * 0xFF;
    assert_eq!(calc_checksum(7, 8, 9, &params), !((total % 256) as u8));
}

#[test]
fn checksum_closes_the_byte_sum() {
    let params = [0x10u8, 0x20, 0x30, 0xFE];
    let c = calc_checksum(3, 6, 0x03, &params);
    let sum: u32 = 3 + 6 + 3 + params.iter().map(|b| *b as u32).sum::<u32>() + c as u32;
    assert_eq!(sum % 256, 255);
}

#[test]
fn ping_frame() {
    assert_eq!(build_ping(1), vec![0xFF, 0xFF, 0x01, 0x02, 0x01, 0xFB]);
}

#[test]
fn read_frame() {
    assert_eq!(
        build_read(1, ADDR_CURRENT_POSITION, 2),
        vec![0xFF, 0xFF, 0x01, 0x04, 0x02, 0x38, 0x02, 0xBE]
    );
}

#[test]
fn write_frame() {
    let p = build_write(1, ADDR_TARGET_POSITION, &[0x00, 0x08]);
    // 1 + 5 + 3 + 42 + 0 + 8 = 59 = 0x3B, complement 0xC4
    assert_eq!(p, vec![0xFF, 0xFF, 0x01, 0x05, 0x03, 42, 0x00, 0x08, 0xC4]);
}

#[test]
fn reg_write_frame_differs_only_in_instruction_and_checksum() {
    let w = build_write(2, 40, &[1]);
    let r = build_reg_write(2, 40, &[1]);
    assert_eq!(w.len(), r.len());
    assert_eq!(r[4], 0x04);
    assert_eq!(r[r.len() - 1], w[w.len() - 1] - 1);
    assert_eq!(&w[..4], &r[..4]);
    assert_eq!(&w[5..w.len() - 1], &r[5..r.len() - 1]);
}

#[test]
fn action_frame_is_broadcast() {
    assert_eq!(build_action(), vec![0xFF, 0xFF, BROADCAST_ID, 0x02, 0x05, 0xFA]);
}

#[test]
fn reset_frame() {
    assert_eq!(build_reset(1), vec![0xFF, 0xFF, 0x01, 0x02, 0x06, 0xF6]);
}

#[test]
fn packet_length_byte_keeps_low_byte() {
    let params = vec![0u8; 254];
    let p = build_packet(5, INST_WRITE, &params);
    assert_eq!(p.len(), 260);
    assert_eq!(p[3], 0);
    assert_eq!(p[259], calc_checksum(5, 0, INST_WRITE, &params));
}

#[test]
fn parse_reply_ok() {
    // reply of servo 1, no error, position 0x0800
    let c = calc_checksum(1, 4, 0, &[0x00, 0x08]);
    let buf = [0xFF, 0xFF, 0x01, 0x04, 0x00, 0x00, 0x08, c];
    assert_eq!(parse_response(&buf), Ok((1, 0, vec![0x00, 0x08])));
}

#[test]
fn parse_ignores_trailing_bytes() {
    let mut buf = build_ping(3);
    buf.extend_from_slice(&[0xAA, 0xBB]);
    assert_eq!(parse_response(&buf), Ok((3, 0x01, vec![])));
}

#[test]
fn parse_too_short() {
    assert_eq!(parse_response(&[0xFF, 0xFF, 1, 2, 0]), Err(ResponseError::TooShort));
}

#[test]
fn parse_bad_header() {
    assert_eq!(parse_response(&[0xFF, 0xFE, 1, 2, 0, 0xFC]), Err(ResponseError::BadHeader));
}

#[test]
fn parse_incomplete() {
    assert_eq!(
        parse_response(&[0xFF, 0xFF, 1, 5, 0, 1, 2]),
        Err(ResponseError::Incomplete { expected_len: 9, actual_len: 7 })
    );
}

#[test]
fn parse_checksum_mismatch() {
    assert_eq!(
        parse_response(&[0xFF, 0xFF, 1, 2, 0, 0x00]),
        Err(ResponseError::ChecksumMismatch { expected: 0xFC, actual: 0x00 })
    );
}

#[test]
fn short_length_byte_is_flagged() {
    assert!(frame_declares_short_length(&[0xFF, 0xFF, 1, 1, 0, 0]));
    assert!(frame_declares_short_length(&[0xFF, 0xFF, 1, 0, 0, 0]));
    assert!(!frame_declares_short_length(&[0xFF, 0xFF, 1, 2, 0, 0xFC]));
    assert!(!frame_declares_short_length(&[0xFF, 0xFF, 1, 1, 0]));
}

#[test]
fn built_frames_parse_back() {
    for n in [0usize, 1, 2, 17, 253] {
        let params: Vec<u8> = (0..n).map(|i| (i * 7 + 3) as u8).collect();
        let p = build_packet(9, 0x2A, &params);
        assert_eq!(parse_response(&p), Ok((9, 0x2A, params)));
    }
}

#[test]
fn corrupted_byte_is_detected() {
    let p = build_write(4, 42, &[1, 2, 3]);
    for k in [2usize, 4, 5, 6, 7, 8] {
        let mut q = p.clone();
        q[k] ^= 0x40;
        assert!(matches!(parse_response(&q), Err(ResponseError::ChecksumMismatch { .. })));
    }
}
