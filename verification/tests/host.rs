use libmctp::smbus_request::MCTPSMBusContextRequest;
use libmctp::vendor_packets::VendorIDFormat;
use libtock::host::{
    Header, ManticoreHost, ResponseStep, DEST_BUFFER_SIZE, DEST_ID, FIRMWARE_VERSION, MY_ID,
};
use libtock::mctp::decode_packet_would_panic;

const PCI_VENDOR: VendorIDFormat = VendorIDFormat { format: 0, data: 0x1414, numeric_value: 4 };

/// A vendor-defined packet addressed to this device, as a device at 0x10 sends it.
fn response_packet(msg: &[u8]) -> Vec<u8> {
    let mut buf = [0u8; 64];
    let len = MCTPSMBusContextRequest::new(0x10)
        .vendor_defined(MY_ID, &PCI_VENDOR, msg, &mut buf)
        .unwrap();
    buf[..len].to_vec()
}

/// The shared buffer after the device sent `packet`: everything but the
/// address byte, padded to the buffer's size.
fn shared_of(packet: &[u8]) -> Vec<u8> {
    let mut shared = packet[1..].to_vec();
    shared.resize(64, 0);
    shared
}

#[test]
fn request_writes_firmware_version_query() {
    let mut host = ManticoreHost::new(MY_ID);
    let header = Header { command: FIRMWARE_VERSION, is_request: true };
    let w = host.request(header, &[]);
    assert_eq!(w.address, DEST_ID as usize);
    assert_eq!(w.len, 14);
    assert_eq!(w.data.len(), 31);
    assert_eq!(
        &w.data[..14],
        &[0x0F, 11, 0x47, 0x01, 0x0B, 0x23, 0xC8, 0x7E, 0x14, 0x14, 0x00, 0x01, 0x00, 0x5B]
    );
    assert!(w.data[14..].iter().all(|b| *b == 0));
}

#[test]
fn request_appends_the_message() {
    let mut host = ManticoreHost::new(MY_ID);
    let header = Header { command: FIRMWARE_VERSION, is_request: true };
    let w = host.request(header, &[0]);
    let mut expected = [0u8; 32];
    let len = MCTPSMBusContextRequest::new(MY_ID)
        .vendor_defined(0x0B, &PCI_VENDOR, &[0x00, 0x01, 0x00, 0x00], &mut expected)
        .unwrap();
    assert_eq!(len, 16);
    assert_eq!(w.len, 15);
    assert_eq!(w.data, expected[1..].to_vec());
    assert_eq!(w.data[1], 12);
    assert_eq!(&w.data[10..14], &[0x00, 0x01, 0x00, 0x00]);
}

#[test]
fn requests_with_different_messages_differ() {
    let mut host = ManticoreHost::new(MY_ID);
    let header = Header { command: FIRMWARE_VERSION, is_request: true };
    let a = host.request(header, &[1, 2, 3]);
    let b = host.request(header, &[1, 2, 4]);
    assert_eq!(a.len, 17);
    assert_eq!(&a.data[13..16], &[1, 2, 3]);
    assert_eq!(&b.data[13..16], &[1, 2, 4]);
    assert_ne!(a.data, b.data);
    let full = host.request(header, &[0xAB; 17]);
    assert_eq!(full.len, 31);
    assert_eq!(&full.data[13..30], &[0xAB; 17]);
}

#[test]
fn request_carries_the_command_byte() {
    let mut host = ManticoreHost::new(MY_ID);
    let w = host.request(Header { command: 0x87, is_request: true }, &[]);
    assert_eq!(&w.data[10..13], &[0x00, 0x87, 0x00]);
}

#[test]
fn request_write_drops_the_address_byte() {
    let mut buf = [0u8; 32];
    for (i, b) in buf.iter_mut().enumerate() {
        *b = i as u8;
    }
    let w = ManticoreHost::request_write(&buf, Ok(10)).unwrap();
    assert_eq!(w.len, 9);
    assert_eq!(w.data, buf[1..].to_vec());
    assert!(ManticoreHost::request_write(&buf, Err(())).is_none());
    assert!(ManticoreHost::request_write(&buf, Ok(0)).is_none());
}

#[test]
fn response_starts_with_the_smbus_header() {
    let host = ManticoreHost::new(MY_ID);
    let mut buf = [1u8; 4];
    assert_eq!(host.response_begin(&mut buf), ResponseStep::ReadHeader { address: 0x10, len: 4 });
    assert_eq!(buf, [1u8; 4]);
}

#[test]
fn response_length_is_byte_count_plus_four() {
    let mut host = ManticoreHost::new(MY_ID);
    assert_eq!(
        host.response_length(&[0x0F, 11, 0x21]),
        ResponseStep::ReadPacket { address: DEST_ID as usize, len: 15 }
    );
    assert_eq!(host.response_length(&[0x0E, 11, 0x21]), ResponseStep::Fault);
}

#[test]
fn firmware_version_response_is_copied_out() {
    let mut host = ManticoreHost::new(MY_ID);
    let packet = response_packet(&[0x00, 0x01, 0x00, 0xAA, 0xBB]);
    let shared = shared_of(&packet);
    let len = match host.response_length(&shared[..3]) {
        ResponseStep::ReadPacket { len, .. } => len,
        other => panic!("unexpected {:?}", other),
    };
    assert_eq!(len, packet.len());
    let mut buf = [0xFFu8; 8];
    let step = host.response(len, &shared, &mut buf);
    assert_eq!(
        step,
        ResponseStep::Done(Some(Header { command: FIRMWARE_VERSION, is_request: false }))
    );
    assert_eq!(buf, [0x00, 0xAA, 0xBB, 0xFF, 0xFF, 0xFF, 0xFF, 0xFF]);
}

#[test]
fn other_vendor_gives_no_header() {
    let mut host = ManticoreHost::new(MY_ID);
    let other = VendorIDFormat { format: 0, data: 0x1415, numeric_value: 4 };
    let mut raw = [0u8; 64];
    let len = MCTPSMBusContextRequest::new(0x10)
        .vendor_defined(MY_ID, &other, &[0x00, 0x01, 0x00, 0xAA], &mut raw)
        .unwrap();
    let shared = shared_of(&raw[..len]);
    let mut buf = [0xFFu8; 4];
    assert_eq!(host.response(len, &shared, &mut buf), ResponseStep::Done(None));
    assert_eq!(buf, [0xFF; 4]);
}

#[test]
fn corrupted_packet_is_a_fault() {
    let mut host = ManticoreHost::new(MY_ID);
    let mut packet = response_packet(&[0x00, 0x01, 0x00, 0xAA]);
    let last = packet.len() - 1;
    packet[last] ^= 0xFF;
    let shared = shared_of(&packet);
    let mut buf = [0u8; 4];
    assert_eq!(host.response(packet.len(), &shared, &mut buf), ResponseStep::Fault);
    assert_eq!(buf, [0u8; 4]);
}

#[test]
fn oversized_packet_is_a_fault() {
    let mut host = ManticoreHost::new(MY_ID);
    let shared = vec![0u8; 64];
    let mut buf = [0u8; 4];
    assert_eq!(host.response(DEST_BUFFER_SIZE + 1, &shared, &mut buf), ResponseStep::Fault);
    assert_eq!(host.response(0, &shared, &mut buf), ResponseStep::Fault);
}

#[test]
fn answer_too_long_for_the_buffer_is_a_fault() {
    let mut host = ManticoreHost::new(MY_ID);
    let packet = response_packet(&[0x00, 0x01, 0x00, 1, 2, 3]);
    let shared = shared_of(&packet);
    let mut buf = [0u8; 2];
    assert_eq!(host.response(packet.len(), &shared, &mut buf), ResponseStep::Fault);
    assert_eq!(buf, [0u8; 2]);
}

#[test]
fn handle_payload_checks_the_first_three_bytes() {
    let mut buf = [9u8; 3];
    assert_eq!(
        ManticoreHost::handle_payload(&[0x14, 0x14, 0x00, 0x01, 7, 8], &mut buf),
        ResponseStep::Done(Some(Header { command: FIRMWARE_VERSION, is_request: false }))
    );
    assert_eq!(buf, [7, 8, 9]);

    let mut buf = [9u8; 3];
    assert_eq!(ManticoreHost::handle_payload(&[0x13], &mut buf), ResponseStep::Done(None));
    assert_eq!(ManticoreHost::handle_payload(&[0x14, 0x00], &mut buf), ResponseStep::Done(None));
    assert_eq!(ManticoreHost::handle_payload(&[0x14, 0x14, 0x01], &mut buf), ResponseStep::Done(None));
    assert_eq!(ManticoreHost::handle_payload(&[], &mut buf), ResponseStep::Fault);
    assert_eq!(ManticoreHost::handle_payload(&[0x14], &mut buf), ResponseStep::Fault);
    assert_eq!(ManticoreHost::handle_payload(&[0x14, 0x14], &mut buf), ResponseStep::Fault);
    assert_eq!(ManticoreHost::handle_payload(&[0x14, 0x14, 0x00], &mut buf), ResponseStep::Fault);
    assert_eq!(
        ManticoreHost::handle_payload(&[0x14, 0x14, 0x00, 0, 1, 2, 3, 4], &mut buf),
        ResponseStep::Fault
    );
    assert_eq!(buf, [9u8; 3]);
}

#[test]
fn decode_panic_guard() {
    assert!(decode_packet_would_panic(&[0u8; 8]));
    // Vendor-defined PCI packet of nine bytes: the payload slice would be reversed.
    let mut p = [0u8; 9];
    p[4] = 0x01;
    p[8] = 0x7E;
    assert!(decode_packet_would_panic(&p));
    let mut p10 = [0u8; 10];
    p10[4] = 0x01;
    p10[8] = 0x7E;
    assert!(!decode_packet_would_panic(&p10));
    // Bad header version: decoding fails without panicking.
    p[4] = 0x02;
    assert!(!decode_packet_would_panic(&p));
    // Control request with a command code that has no known length.
    let mut c = [0u8; 13];
    c[4] = 0x01;
    c[9] = 0x80;
    c[10] = 0x09;
    assert!(decode_packet_would_panic(&c));
    c[10] = 0x02;
    assert!(!decode_packet_would_panic(&c));
    // Control response with an unknown completion code.
    c[9] = 0x00;
    c[11] = 0x06;
    assert!(decode_packet_would_panic(&c));
    c[11] = 0x01;
    assert!(!decode_packet_would_panic(&c));
    // A real packet decodes.
    assert!(!decode_packet_would_panic(&response_packet(&[0x00, 0x01, 0x00])));
}

#[test]
fn most_recent_response_is_kept_until_the_next_request() {
    let mut host = ManticoreHost::new(MY_ID);
    let packet = response_packet(&[0x00, 0x01, 0x00, 0xAA, 0xBB]);
    let shared = shared_of(&packet);
    let mut buf = [0xFFu8; 8];
    let done = host.response(packet.len(), &shared, &mut buf);
    assert_eq!(
        done,
        ResponseStep::Done(Some(Header { command: FIRMWARE_VERSION, is_request: false }))
    );

    // Asked again, the host gives the same response without reading the bus.
    let mut again = [0xFFu8; 8];
    assert_eq!(host.response_begin(&mut again), done);
    assert_eq!(again, buf);

    // A buffer too small for the remembered answer is a fault.
    let mut small = [0u8; 2];
    assert_eq!(host.response_begin(&mut small), ResponseStep::Fault);
    assert_eq!(small, [0u8; 2]);

    // A new request forgets it.
    host.request(Header { command: FIRMWARE_VERSION, is_request: true }, &[]);
    let mut fresh = [0u8; 8];
    assert_eq!(host.response_begin(&mut fresh), ResponseStep::ReadHeader { address: 0x10, len: 4 });
    assert_eq!(fresh, [0u8; 8]);
}

#[test]
fn other_response_is_kept_too() {
    let mut host = ManticoreHost::new(MY_ID);
    let other = VendorIDFormat { format: 0, data: 0x1415, numeric_value: 4 };
    let mut raw = [0u8; 64];
    let len = MCTPSMBusContextRequest::new(0x10)
        .vendor_defined(MY_ID, &other, &[0x00, 0x01, 0x00], &mut raw)
        .unwrap();
    let shared = shared_of(&raw[..len]);
    let mut buf = [3u8; 4];
    assert_eq!(host.response(len, &shared, &mut buf), ResponseStep::Done(None));
    assert_eq!(host.response_begin(&mut buf), ResponseStep::Done(None));
    assert_eq!(buf, [3u8; 4]);
}

#[test]
fn fault_keeps_nothing() {
    let mut host = ManticoreHost::new(MY_ID);
    let shared = vec![0u8; 64];
    let mut buf = [0u8; 4];
    assert_eq!(host.response(5, &shared, &mut buf), ResponseStep::Fault);
    assert_eq!(host.response_begin(&mut buf), ResponseStep::ReadHeader { address: 0x10, len: 4 });
}

#[test]
fn response_needs_only_the_packet_bytes() {
    let mut host = ManticoreHost::new(MY_ID);
    let packet = response_packet(&[0x00, 0x01, 0x00, 0x42]);
    let shared = packet[1..].to_vec();
    let mut buf = [9u8; 2];
    assert_eq!(
        host.response(packet.len(), &shared, &mut buf),
        ResponseStep::Done(Some(Header { command: FIRMWARE_VERSION, is_request: false }))
    );
    assert_eq!(buf, [0x00, 0x42]);
}
