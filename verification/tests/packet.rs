use libicmp::packet::checksum::compute_checksum;
use libicmp::packet::header::{
    Header, ECHO_REPLY_CODE, ECHO_REPLY_TYPE, ECHO_REQUEST_CODE, ECHO_REQUEST_TYPE, HEADER_SIZE,
};
use libicmp::packet::packet::{DecodeError, EchoRequest};

#[test]
fn header_constants() {
    assert_eq!(HEADER_SIZE, 8);
    assert_eq!(ECHO_REPLY_TYPE, 0);
    assert_eq!(ECHO_REQUEST_TYPE, 8);
    assert_eq!(ECHO_REPLY_CODE, 0);
    assert_eq!(ECHO_REQUEST_CODE, 0);
}

#[test]
fn header_new_starts_with_zero_checksum() {
    let h = Header::new(8, 0, 0x1234_0001);
    assert_eq!(h.get_type(), 8);
    assert_eq!(h.get_code(), 0);
    assert_eq!(h.get_checksum(), 0);
    assert_eq!(h.get_data(), 0x1234_0001);
    assert_eq!(h.as_bytes(), [0x08, 0x00, 0x00, 0x00, 0x12, 0x34, 0x00, 0x01]);
}

#[test]
fn header_bytes_are_in_network_order() {
    let mut h = Header::new(0xab, 0xcd, 0x0102_0304);
    h.set_checksum(0xbeef);
    assert_eq!(h.as_bytes(), [0xab, 0xcd, 0xbe, 0xef, 0x01, 0x02, 0x03, 0x04]);
}

#[test]
fn header_from_uses_the_first_eight_bytes() {
    let h = Header::from(&[0x00, 0x03, 0xbe, 0xef, 0x12, 0x34, 0x00, 0x02, 0xff, 0xff]);
    assert_eq!(h.get_type(), 0);
    assert_eq!(h.get_code(), 3);
    assert_eq!(h.get_checksum(), 0xbeef);
    assert_eq!(h.get_data(), 0x1234_0002);
}

#[test]
fn header_set_data_changes_only_the_data() {
    let mut h = Header::new(8, 0, 1);
    h.set_checksum(7);
    h.set_data(0xdead_beef);
    assert_eq!(h.get_data(), 0xdead_beef);
    assert_eq!(h.get_checksum(), 7);
    assert_eq!(h.get_type(), 8);
}

#[test]
fn header_do_checksum() {
    let mut h = Header::new(8, 0, 0x1234_0001);
    h.do_checksum();
    assert_eq!(h.get_checksum(), 0xe5ca);
    // a stale checksum does not enter the new one
    h.set_checksum(0x5555);
    h.do_checksum();
    assert_eq!(h.get_checksum(), 0xe5ca);
    assert_eq!(compute_checksum(&h.as_bytes()), 0);
}

#[test]
fn echo_new_is_a_request_with_sequence_zero() {
    let e = EchoRequest::new(0x1234);
    assert_eq!(e.id(), 0x1234);
    assert_eq!(e.seq(), 0);
    assert_eq!(e.len(), 8);
    assert_eq!(e.get_type(), ECHO_REQUEST_TYPE);
    assert!(!e.is_reply());
    assert_eq!(e.get_checksum(), 0);
    assert!(e.payload().is_empty());
    assert_eq!(e.as_bytes(), [0x08, 0x00, 0x00, 0x00, 0x12, 0x34, 0x00, 0x00]);
}

#[test]
fn echo_inc_seq_counts_up_and_wraps() {
    let mut e = EchoRequest::new(0xffff);
    e.inc_seq();
    assert_eq!((e.id(), e.seq()), (0xffff, 1));
    e.inc_seq();
    assert_eq!((e.id(), e.seq()), (0xffff, 2));
    let mut e = EchoRequest::with_payload(ECHO_REQUEST_TYPE, 7, 65535, vec![1, 2, 3]);
    e.inc_seq();
    assert_eq!((e.id(), e.seq()), (7, 0));
    assert_eq!(e.payload(), &[1, 2, 3]);
    e.inc_seq();
    assert_eq!((e.id(), e.seq()), (7, 1));
}

#[test]
fn echo_encode_known_bytes() {
    let mut e = EchoRequest::new(0x1234);
    e.inc_seq();
    assert_eq!(e.encode(), vec![0x08, 0x00, 0xe5, 0xca, 0x12, 0x34, 0x00, 0x01]);
    let r = EchoRequest::with_payload(ECHO_REPLY_TYPE, 0x1234, 2, vec![0xaa, 0xbb, 0xcc]);
    // 0x0000 + 0x1234 + 0x0002 + 0xaabb + 0xcc00 = 0x188f1 -> 0x88f2 -> !0x88f2 = 0x770d
    assert_eq!(
        r.encode(),
        vec![0x00, 0x00, 0x77, 0x0d, 0x12, 0x34, 0x00, 0x02, 0xaa, 0xbb, 0xcc]
    );
    assert_eq!(r.len(), 11);
}

#[test]
fn echo_do_checksum_covers_the_payload() {
    let mut r = EchoRequest::with_payload(ECHO_REPLY_TYPE, 0x1234, 2, vec![0xaa, 0xbb, 0xcc]);
    assert!(!r.verify_checksum());
    r.do_checksum();
    assert_eq!(r.get_checksum(), 0x770d);
    assert!(r.verify_checksum());
    assert_eq!(r.as_bytes(), [0x00, 0x00, 0x77, 0x0d, 0x12, 0x34, 0x00, 0x02]);
}

#[test]
fn decode_rejects_short_buffers() {
    let bytes = [0x08u8, 0x00, 0xe5, 0xca, 0x12, 0x34, 0x00];
    for n in 0..8 {
        match EchoRequest::decode(&bytes[..n.min(7)]) {
            Err(e) => assert_eq!(e, DecodeError::TooShort),
            Ok(_) => assert_eq!(n, 8),
        }
    }
    for n in 0..=7 {
        assert!(matches!(EchoRequest::decode(&bytes[..n]), Err(DecodeError::TooShort)));
    }
}

#[test]
fn decode_accepts_eight_bytes_and_keeps_the_rest_as_payload() {
    let e = EchoRequest::decode(&[0x08, 0x00, 0xe5, 0xca, 0x12, 0x34, 0x00, 0x01]).unwrap();
    assert_eq!((e.get_type(), e.id(), e.seq(), e.len()), (8, 0x1234, 1, 8));
    assert!(e.payload().is_empty());
    assert!(e.verify_checksum());
    let e = EchoRequest::decode(&[0, 0, 0, 0, 0xab, 0xcd, 0x00, 0x09, 1, 2, 3, 4, 5]).unwrap();
    assert_eq!((e.get_type(), e.id(), e.seq(), e.len()), (0, 0xabcd, 9, 13));
    assert_eq!(e.payload(), &[1, 2, 3, 4, 5]);
    assert!(e.is_reply());
}

#[test]
fn decode_does_not_check_the_checksum() {
    let e = EchoRequest::decode(&[0x08, 0x00, 0x00, 0x01, 0x12, 0x34, 0x00, 0x01]).unwrap();
    assert_eq!(e.get_checksum(), 1);
    assert!(!e.verify_checksum());
    assert_eq!(e.id(), 0x1234);
}

#[test]
fn from_reads_like_decode() {
    let e = EchoRequest::from(&[0x00, 0x00, 0x77, 0x0d, 0x12, 0x34, 0x00, 0x02, 0xaa, 0xbb, 0xcc]);
    assert_eq!((e.id(), e.seq()), (0x1234, 2));
    assert_eq!(e.payload(), &[0xaa, 0xbb, 0xcc]);
    assert!(e.verify_checksum());
}

#[test]
fn codec_round_trip() {
    for (id, seq, n) in [(0u16, 0u16, 0usize), (0x1234, 1, 1), (0xffff, 0xffff, 2), (1, 65535, 57), (0x8000, 0x00ff, 1024), (42, 4242, 1025)] {
        let payload: Vec<u8> = (0..n).map(|i| (i * 7 + 3) as u8).collect();
        let m = EchoRequest::with_payload(ECHO_REQUEST_TYPE, id, seq, payload.clone());
        let bytes = m.encode();
        assert_eq!(bytes.len(), 8 + n);
        let d = EchoRequest::decode(&bytes).unwrap();
        assert_eq!(d.id(), id);
        assert_eq!(d.seq(), seq);
        assert_eq!(d.payload(), &payload[..]);
        assert_eq!(d.get_type(), ECHO_REQUEST_TYPE);
        assert_eq!(d.encode(), bytes);
    }
}

#[test]
fn encoded_checksum_is_self_verifying() {
    for n in 0..=1025usize {
        let payload: Vec<u8> = (0..n).map(|i| (i * 31 + n) as u8).collect();
        let m = EchoRequest::with_payload(ECHO_REPLY_TYPE, 0xbeef, n as u16, payload);
        let bytes = m.encode();
        let sent = u16::from_be_bytes([bytes[2], bytes[3]]);
        let mut zeroed = bytes.clone();
        zeroed[2] = 0;
        zeroed[3] = 0;
        assert_eq!(compute_checksum(&zeroed), sent);
        assert_eq!(compute_checksum(&bytes), 0);
        let d = EchoRequest::decode(&bytes).unwrap();
        assert_eq!(d.get_checksum(), sent);
        assert!(d.verify_checksum());
    }
}
