use tentacli::opcode::{CMSG_WARDEN_DATA, LOGIN_CHALLENGE, REALM_LIST, SMSG_WARDEN_DATA};
use tentacli::reader::{
    is_long_packet, login_body_len, parse_world_header, world_body_len, ReadFault, ReadRequest,
    ReadStage, Reader,
};
use tentacli::writer::{OutgoingPacket, WriteRequest, WriteStage, Writer};

fn bytes(q: ReadRequest) -> usize {
    match q {
        ReadRequest::Bytes(n) => n,
        _ => panic!("expected a read"),
    }
}

#[test]
fn short_header_fields() {
    let h = parse_world_header(&[0x00, 0x06, 0xEE, 0x01]);
    assert_eq!(h.size, 6);
    assert_eq!(h.opcode, 0x01EE);
}

#[test]
fn long_header_fields() {
    let h = parse_world_header(&[0x81, 0x02, 0x03, 0x34, 0x12]);
    // The size keeps the flag bit: all 24 bits are read as they stand.
    assert_eq!(h.size, 0x810203);
    assert_eq!(h.opcode, 0x1234);
}

#[test]
fn long_flag_is_the_high_bit() {
    assert!(!is_long_packet(0x7F));
    assert!(is_long_packet(0x80));
    assert!(is_long_packet(0xFF));
}

#[test]
fn body_length_excludes_the_opcode() {
    assert_eq!(world_body_len(2), 0);
    assert_eq!(world_body_len(6), 4);
}

#[test]
fn login_body_lengths() {
    assert_eq!(login_body_len(LOGIN_CHALLENGE), 32);
    assert_eq!(login_body_len(0x01), 32);
    assert_eq!(login_body_len(REALM_LIST), 128);
    assert_eq!(login_body_len(0x02), 0);
}

#[test]
fn encrypted_world_packet_round() {
    let mut r = Reader::new(false, true);
    assert_eq!(bytes(r.read()), 4);
    match r.feed(vec![9, 9, 9, 9], false).unwrap() {
        ReadRequest::DecryptHeader(h) => assert_eq!(h, vec![9, 9, 9, 9]),
        _ => panic!("header must be decrypted"),
    }
    assert_eq!(bytes(r.feed(vec![0x00, 0x05, 0x10, 0x00], false).unwrap()), 3);
    match r.feed(vec![1, 2, 3], false).unwrap() {
        ReadRequest::Packet(p) => {
            assert_eq!(p.opcode, 0x10);
            assert_eq!(p.body, vec![1, 2, 3]);
            assert!(p.header.is_empty());
        }
        _ => panic!("packet expected"),
    }
    assert!(matches!(r.stage, ReadStage::Idle));
}

#[test]
fn first_header_after_sync_is_plain() {
    let mut r = Reader::new(true, true);
    assert_eq!(bytes(r.read()), 4);
    assert_eq!(bytes(r.feed(vec![0x00, 0x02, 0x01, 0x00], false).unwrap()), 0);
    assert!(!r.need_sync);
    match r.feed(vec![], false).unwrap() {
        ReadRequest::Packet(p) => {
            assert_eq!(p.opcode, 1);
            assert!(p.body.is_empty());
        }
        _ => panic!("packet expected"),
    }
    r.read();
    assert!(matches!(r.feed(vec![0, 0, 0, 0], false).unwrap(), ReadRequest::DecryptHeader(_)));
}

#[test]
fn long_header_reads_a_fifth_byte() {
    let mut r = Reader::new(true, true);
    r.read();
    assert_eq!(bytes(r.feed(vec![0x80, 0x00, 0x04, 0x01], false).unwrap()), 1);
    // The flag bit stays part of the 24-bit size.
    let n = bytes(r.feed(vec![0x02], false).unwrap());
    assert_eq!(n, 0x800004 - 2);
    match r.feed(vec![7; n], false).unwrap() {
        ReadRequest::Packet(p) => {
            assert_eq!(p.opcode, 0x0201);
            assert_eq!(p.body.len(), n);
        }
        _ => panic!("packet expected"),
    }
}

#[test]
fn undersized_header_is_refused() {
    let mut r = Reader::new(true, true);
    r.read();
    let fault = r.feed(vec![0x00, 0x01, 0x00, 0x00], false);
    assert!(matches!(fault, Err(ReadFault::BodySizeUnderflow { size: 1 })));
}

#[test]
fn warden_body_is_decrypted_when_a_cipher_exists() {
    let mut r = Reader::new(true, true);
    r.read();
    let op = SMSG_WARDEN_DATA.to_le_bytes();
    assert_eq!(bytes(r.feed(vec![0x00, 0x04, op[0], op[1]], true).unwrap()), 2);
    match r.feed(vec![5, 6], true).unwrap() {
        ReadRequest::DecryptWardenBody(b) => assert_eq!(b, vec![5, 6]),
        _ => panic!("warden decryption expected"),
    }
    match r.feed(vec![50, 60], true).unwrap() {
        ReadRequest::Packet(p) => {
            assert_eq!(p.opcode, SMSG_WARDEN_DATA);
            assert_eq!(p.body, vec![50, 60]);
        }
        _ => panic!("packet expected"),
    }
}

#[test]
fn warden_body_passes_without_a_cipher() {
    let mut r = Reader::new(true, true);
    r.read();
    let op = SMSG_WARDEN_DATA.to_le_bytes();
    r.feed(vec![0x00, 0x03, op[0], op[1]], false).unwrap();
    assert!(matches!(r.feed(vec![5], false).unwrap(), ReadRequest::Packet(_)));
}

#[test]
fn login_packets() {
    let mut r = Reader::new(false, false);
    assert_eq!(bytes(r.read()), 1);
    assert_eq!(bytes(r.feed(vec![REALM_LIST], false).unwrap()), 128);
    match r.feed(vec![3; 128], false).unwrap() {
        ReadRequest::Packet(p) => {
            assert_eq!(p.opcode, REALM_LIST as u16);
            assert_eq!(p.body.len(), 128);
        }
        _ => panic!("packet expected"),
    }
    r.read();
    match r.feed(vec![0x33], false).unwrap() {
        ReadRequest::Packet(p) => {
            assert_eq!(p.opcode, 0x33);
            assert!(p.body.is_empty());
        }
        _ => panic!("packet expected"),
    }
}

fn packet(opcode: u32, data: Vec<u8>) -> OutgoingPacket {
    OutgoingPacket { opcode, data, json_details: String::new() }
}

#[test]
fn plain_writer_sends_data_as_is() {
    let mut w = Writer::new(false, false);
    match w.write(&packet(1, vec![1, 2, 3])) {
        WriteRequest::Send(b) => assert_eq!(b, vec![1, 2, 3]),
        _ => panic!("send expected"),
    }
}

#[test]
fn first_packet_after_sync_leaves_plain() {
    let mut w = Writer::new(true, true);
    match w.write(&packet(0x37, vec![0, 4, 0x37, 0, 0, 0])) {
        WriteRequest::Send(b) => assert_eq!(b, vec![0, 4, 0x37, 0, 0, 0]),
        _ => panic!("send expected"),
    }
    assert!(!w.need_sync);
    assert!(matches!(w.write(&packet(0x37, vec![0; 6])), WriteRequest::EncryptHeader(_)));
}

#[test]
fn encrypted_header_is_joined_with_the_body() {
    let mut w = Writer::new(false, true);
    match w.write(&packet(0x37, vec![1, 2, 3, 4, 5, 6, 7, 8])) {
        WriteRequest::EncryptHeader(h) => assert_eq!(h, vec![1, 2, 3, 4, 5, 6]),
        _ => panic!("header encryption expected"),
    }
    match w.feed(vec![11, 12, 13, 14, 15, 16], true) {
        WriteRequest::Send(b) => assert_eq!(b, vec![11, 12, 13, 14, 15, 16, 7, 8]),
        _ => panic!("send expected"),
    }
    assert!(matches!(w.stage, WriteStage::Idle));
}

#[test]
fn warden_answer_body_is_encrypted_too() {
    let mut w = Writer::new(false, true);
    w.write(&packet(CMSG_WARDEN_DATA, vec![1, 2, 3, 4, 5, 6, 7, 8]));
    match w.feed(vec![11, 12, 13, 14, 15, 16], true) {
        WriteRequest::EncryptWardenBody(b) => assert_eq!(b, vec![7, 8]),
        _ => panic!("warden encryption expected"),
    }
    match w.feed(vec![70, 80], true) {
        WriteRequest::Send(b) => assert_eq!(b, vec![11, 12, 13, 14, 15, 16, 70, 80]),
        _ => panic!("send expected"),
    }
}

#[test]
fn warden_answer_without_cipher_keeps_its_body() {
    let mut w = Writer::new(false, true);
    w.write(&packet(CMSG_WARDEN_DATA, vec![1, 2, 3, 4, 5, 6, 7]));
    match w.feed(vec![0; 6], false) {
        WriteRequest::Send(b) => assert_eq!(b, vec![0, 0, 0, 0, 0, 0, 7]),
        _ => panic!("send expected"),
    }
}

#[test]
fn fresh_connection_halves() {
    let world = tentacli::connection::stream_halves(true);
    assert!(world.reader.decrypting && world.reader.need_sync);
    assert!(world.writer.encrypting && world.writer.need_sync);
    assert!(world.warden);
    let login = tentacli::connection::stream_halves(false);
    assert!(!login.reader.decrypting && !login.reader.need_sync);
    assert!(!login.writer.encrypting && !login.writer.need_sync);
    assert!(!login.warden);
}
