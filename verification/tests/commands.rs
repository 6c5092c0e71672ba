use st3215::commands::{
    decode_status, frame_complete, move_packets, port_type_label, read_reply_data,
    register_read_requests, register_reading, PortKind, ReadEvent, ReceiveStep, ReplyError,
    ResponseCollector, StatusError, StatusReading, STATUS_BLOCK_LEN,
};
use st3215::servo_protocol::{
    build_packet, build_read, build_write, calc_checksum, get_register_table, ResponseError,
    ADDR_ACCELERATION, ADDR_TARGET_POSITION, ADDR_TORQUE_SWITCH,
};

fn reply(id: u8, error: u8, data: &[u8]) -> Vec<u8> {
    build_packet(id, error, data)
}

#[test]
fn frame_complete_needs_whole_frame() {
    let r = reply(1, 0, &[1, 2]);
    assert!(frame_complete(&r));
    assert!(!frame_complete(&r[..r.len() - 1]));
    assert!(!frame_complete(&[0xFF, 0xFF, 1, 2, 0]));
    assert!(!frame_complete(&[0xFE, 0xFF, 1, 2, 0, 0xFC]));
}

#[test]
fn collector_stops_on_complete_frame() {
    let r = reply(1, 0, &[5, 6, 7]);
    let mut c = ResponseCollector::new();
    assert_eq!(c.feed(ReadEvent::Read(r[..4].to_vec())), ReceiveStep::Continue);
    assert_eq!(c.feed(ReadEvent::Read(r[4..].to_vec())), ReceiveStep::Stop);
    assert_eq!(c.received(), &r[..]);
    assert_eq!(c.into_response(), Some(r));
}

#[test]
fn collector_timeout_rules() {
    let mut c = ResponseCollector::new();
    assert_eq!(c.feed(ReadEvent::TimedOut), ReceiveStep::Continue);
    assert_eq!(c.feed(ReadEvent::Read(vec![0xFF])), ReceiveStep::Continue);
    assert_eq!(c.feed(ReadEvent::TimedOut), ReceiveStep::Stop);
    assert_eq!(c.into_response(), Some(vec![0xFF]));
}

#[test]
fn collector_end_of_data_and_failure() {
    let mut c = ResponseCollector::new();
    assert_eq!(c.feed(ReadEvent::Read(vec![])), ReceiveStep::Stop);
    assert_eq!(c.feed(ReadEvent::Failed), ReceiveStep::Abort);
    assert_eq!(c.into_response(), None);
}

#[test]
fn decode_status_block() {
    let data = [0x00, 0x08, 0x9C, 0xFF, 0x10, 0x00, 121, 35, 0, 0, 1, 0, 0, 0x2C, 0x01];
    assert_eq!(
        decode_status(0x20, &data),
        Ok(StatusReading {
            position: 2048,
            speed: -100,
            load: 16,
            voltage: 121,
            temperature: 35,
            current: 300,
            moving: true,
            error: 0x20,
        })
    );
    assert_eq!(STATUS_BLOCK_LEN as usize, data.len());
}

#[test]
fn decode_status_incomplete() {
    assert_eq!(decode_status(0, &[0; 14]), Err(StatusError::Incomplete { received: 14 }));
}

#[test]
fn move_without_acceleration() {
    let p = move_packets(1, 2048, 1000, 0);
    assert_eq!(p.len(), 2);
    assert_eq!(p[0], build_write(1, ADDR_TORQUE_SWITCH, &[1]));
    assert_eq!(p[1], build_write(1, ADDR_TARGET_POSITION, &[0x00, 0x08, 0, 0, 0xE8, 0x03]));
}

#[test]
fn move_with_acceleration_and_negative_position() {
    let p = move_packets(3, -2, 0xFFFF, 50);
    assert_eq!(p.len(), 3);
    assert_eq!(p[0], build_write(3, ADDR_TORQUE_SWITCH, &[1]));
    assert_eq!(p[1], build_write(3, ADDR_ACCELERATION, &[50]));
    assert_eq!(p[2], build_write(3, ADDR_TARGET_POSITION, &[0xFE, 0xFF, 0, 0, 0xFF, 0xFF]));
}

#[test]
fn moved_position_reads_back() {
    for pos in [-32768i16, -2, -1, 0, 1, 2048, 32767] {
        let p = move_packets(1, pos, 0, 0);
        let target = &p[1];
        let mut block = vec![target[6], target[7]];
        block.extend_from_slice(&[0; 13]);
        assert_eq!(decode_status(0, &block).unwrap().position, pos);
    }
}

#[test]
fn read_reply_ok_and_errors() {
    assert_eq!(read_reply_data(&reply(1, 0, &[9, 8])), Ok(vec![9, 8]));
    assert_eq!(read_reply_data(&reply(1, 0x20, &[9, 8])), Err(ReplyError::Servo(0x20)));
    assert_eq!(
        read_reply_data(&[0xFF, 0xFF, 1]),
        Err(ReplyError::Frame(ResponseError::TooShort))
    );
}

#[test]
fn register_reading_cases() {
    let ok = reply(1, 0x20, &[7]);
    assert_eq!(register_reading(13, Some(&ok)), (13, vec![7]));
    let bad = [0xFF, 0xFF, 1, 3, 0, 7, 0];
    assert_eq!(register_reading(13, Some(&bad)), (13, vec![]));
    assert_eq!(register_reading(13, None), (13, vec![]));
}

#[test]
fn read_requests_cover_table() {
    let reqs = register_read_requests(2);
    let table = get_register_table();
    assert_eq!(reqs.len(), table.len());
    for (req, reg) in reqs.iter().zip(table.iter()) {
        assert_eq!(req.0, reg.address);
        assert_eq!(req.1, build_read(2, reg.address, reg.bytes));
    }
}

#[test]
fn port_labels() {
    assert_eq!(port_type_label(&PortKind::Usb { product: Some("CH340".to_string()) }), "USB - CH340");
    assert_eq!(port_type_label(&PortKind::Usb { product: None }), "USB - ");
    assert_eq!(port_type_label(&PortKind::Bluetooth), "Bluetooth");
    assert_eq!(port_type_label(&PortKind::Pci), "PCI");
    assert_eq!(port_type_label(&PortKind::Unknown), "Unknown");
}

#[test]
fn checksum_helper_matches_reply() {
    let r = reply(6, 0, &[1]);
    assert_eq!(r[r.len() - 1], calc_checksum(6, 3, 0, &[1]));
}
