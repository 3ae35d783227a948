use sctp::addr::encode;
use sctp::addr::TransportAddress;
use sctp::error::SctpError;
use sctp::notification::notification_error_parse;
use sctp::notification::notification_parse;
use sctp::notification::AssocChangeState;
use sctp::notification::Notification;
use sctp::notification::NotificationError;
use sctp::notification::PaddrChangeState;
use sctp::notification::SendFailedState;
use sctp::sys::sctp_sn_type;

fn push_u16(buf: &mut Vec<u8>, x: u16) {
    buf.push((x % 0x100) as u8);
    buf.push((x / 0x100) as u8);
}

fn push_u32(buf: &mut Vec<u8>, x: u32) {
    buf.push((x % 0x100) as u8);
    buf.push(((x >> 8) % 0x100) as u8);
    buf.push(((x >> 16) % 0x100) as u8);
    buf.push((x >> 24) as u8);
}

fn push_i32(buf: &mut Vec<u8>, x: i32) {
    push_u32(buf, x as u32);
}

/// A buffer with the common header: type, flags, and declared length.
fn header(sn_type: u16, flags: u16, length: u32) -> Vec<u8> {
    let mut buf = Vec::new();
    push_u16(&mut buf, sn_type);
    push_u16(&mut buf, flags);
    push_u32(&mut buf, length);
    buf
}

#[test]
fn decode_assoc_change_with_data() {
    let mut buf = header(32769, 0, 23);
    push_u16(&mut buf, 0); // state: communication up
    push_u16(&mut buf, 2); // error: heartbeat success
    push_u16(&mut buf, 5); // outbound streams
    push_u16(&mut buf, 6); // inbound streams
    push_i32(&mut buf, 9); // association id
    buf.extend_from_slice(&[1, 2, 3]);
    match notification_parse(&buf).unwrap().unwrap() {
        Notification::AssocChange(n) => {
            assert_eq!(n.state, AssocChangeState::CommUp);
            assert_eq!(n.error, NotificationError::HeartbeatSuccess);
            assert_eq!(n.outbound_streams, 5);
            assert_eq!(n.inbound_streams, 6);
            assert_eq!(n.assoc_id, 9);
            assert_eq!(n.data, vec![1, 2, 3]);
        }
        other => panic!("wrong variant: {:?}", other),
    }
}

#[test]
fn decode_assoc_change_states() {
    let states = [
        (0u16, AssocChangeState::CommUp),
        (1, AssocChangeState::CommLost),
        (2, AssocChangeState::Restart),
        (3, AssocChangeState::ShutdownComplete),
        (4, AssocChangeState::CantStartAssoc),
        (5, AssocChangeState::Unknown),
    ];
    for (raw, expected) in states {
        let mut buf = header(32769, 0, 20);
        push_u16(&mut buf, raw);
        push_u16(&mut buf, 0);
        push_u16(&mut buf, 0);
        push_u16(&mut buf, 0);
        push_i32(&mut buf, 0);
        match notification_parse(&buf).unwrap().unwrap() {
            Notification::AssocChange(n) => {
                assert_eq!(n.state, expected);
                assert!(n.data.is_empty());
            }
            other => panic!("wrong variant: {:?}", other),
        }
    }
}

#[test]
fn decode_paddr_change() {
    let mut buf = header(32770, 0, 148);
    let addr = TransportAddress::V4 { addr: 0x0a00_0001, port: 7777 };
    let mut storage = encode(&addr);
    storage.resize(128, 0);
    buf.extend_from_slice(&storage);
    push_i32(&mut buf, 3); // state: address added
    push_i32(&mut buf, 1); // error: received sack
    push_i32(&mut buf, -2); // association id
    match notification_parse(&buf).unwrap().unwrap() {
        Notification::PaddrChange(n) => {
            assert_eq!(n.addr, addr);
            assert_eq!(n.state, PaddrChangeState::AddrAdded);
            assert_eq!(n.error, NotificationError::ReceivedSack);
            assert_eq!(n.assoc_id, -2);
        }
        other => panic!("wrong variant: {:?}", other),
    }
}

#[test]
fn decode_paddr_change_bad_family_is_hard_failure() {
    let mut buf = header(32770, 0, 148);
    let mut storage = vec![0u8; 128];
    storage[0] = 42; // unknown family tag
    buf.extend_from_slice(&storage);
    push_i32(&mut buf, 0);
    push_i32(&mut buf, 0);
    push_i32(&mut buf, 0);
    assert_eq!(notification_parse(&buf), Err(SctpError::UnsupportedFamily(42)));
}

#[test]
fn decode_remote_error_with_data() {
    let mut buf = header(32772, 0, 18);
    push_u16(&mut buf, 6); // error: peer faulty
    push_u16(&mut buf, 0); // padding before the association id
    push_i32(&mut buf, 11);
    buf.extend_from_slice(&[0xde, 0xad]);
    match notification_parse(&buf).unwrap().unwrap() {
        Notification::RemoteError(n) => {
            assert_eq!(n.error, NotificationError::PeerFaulty);
            assert_eq!(n.assoc_id, 11);
            assert_eq!(n.data, vec![0xde, 0xad]);
        }
        other => panic!("wrong variant: {:?}", other),
    }
}

#[test]
fn decode_send_failed() {
    // The disposition lives in the header's flags field.
    let mut buf = header(32771, 1, 52);
    push_u32(&mut buf, 5); // error, stored as 32 bits
    push_u16(&mut buf, 3); // stream
    push_u16(&mut buf, 4); // ssn
    push_u16(&mut buf, 0); // flags
    push_u16(&mut buf, 0); // padding inside the control record
    push_u32(&mut buf, 77); // ppid
    push_u32(&mut buf, 88); // context
    push_u32(&mut buf, 99); // time to live
    push_u32(&mut buf, 111); // tsn
    push_u32(&mut buf, 222); // cumulative tsn
    push_i32(&mut buf, 6); // control record's association id
    push_i32(&mut buf, 6); // association id
    buf.extend_from_slice(&[9, 8, 7, 6]);
    match notification_parse(&buf).unwrap().unwrap() {
        Notification::SendFailed(n) => {
            assert_eq!(n.state, SendFailedState::DataSent);
            assert_eq!(n.error, NotificationError::ShutdownGuardExpires);
            assert_eq!(n.info.sinfo_stream, 3);
            assert_eq!(n.info.sinfo_ssn, 4);
            assert_eq!(n.info.sinfo_ppid, 77);
            assert_eq!(n.info.sinfo_cumtsn, 222);
            assert_eq!(n.assoc_id, 6);
            assert_eq!(n.data, vec![9, 8, 7, 6]);
        }
        other => panic!("wrong variant: {:?}", other),
    }
}

#[test]
fn decode_shutdown() {
    let mut buf = header(32773, 0, 12);
    push_i32(&mut buf, 21);
    match notification_parse(&buf).unwrap().unwrap() {
        Notification::Shutdown(n) => assert_eq!(n.assoc_id, 21),
        other => panic!("wrong variant: {:?}", other),
    }
}

#[test]
fn decode_partial_delivery() {
    let mut buf = header(32774, 0, 16);
    push_u32(&mut buf, 0); // indication: aborted
    push_i32(&mut buf, 5);
    match notification_parse(&buf).unwrap().unwrap() {
        Notification::PartialDelivery(n) => {
            assert_eq!(n.indication, 0);
            assert_eq!(n.assoc_id, 5);
        }
        other => panic!("wrong variant: {:?}", other),
    }
}

#[test]
fn decode_adaptation() {
    let mut buf = header(32775, 0, 16);
    push_u32(&mut buf, 0xaabbccdd);
    push_i32(&mut buf, 1);
    match notification_parse(&buf).unwrap().unwrap() {
        Notification::Adaptation(n) => {
            assert_eq!(n.adaptation_ind, 0xaabbccdd);
            assert_eq!(n.assoc_id, 1);
        }
        other => panic!("wrong variant: {:?}", other),
    }
}

#[test]
fn decode_authkey() {
    let mut buf = header(32776, 0, 20);
    push_u16(&mut buf, 2);
    push_u16(&mut buf, 3);
    push_u32(&mut buf, 0); // indication: new key
    push_i32(&mut buf, 8);
    match notification_parse(&buf).unwrap().unwrap() {
        Notification::Authkey(n) => {
            assert_eq!(n.keynumber, 2);
            assert_eq!(n.altkeynumber, 3);
            assert_eq!(n.indication, 0);
            assert_eq!(n.assoc_id, 8);
        }
        other => panic!("wrong variant: {:?}", other),
    }
}

#[test]
fn decode_sender_dry() {
    let mut buf = header(32777, 0, 12);
    push_i32(&mut buf, -1);
    match notification_parse(&buf).unwrap().unwrap() {
        Notification::SenderDry(n) => assert_eq!(n.assoc_id, -1),
        other => panic!("wrong variant: {:?}", other),
    }
}

#[test]
fn length_mismatch_is_no_notification_for_every_tag() {
    // A buffer whose declared length differs from its actual length is not
    // a notification, whichever of the nine variant tags it carries.
    for tag in 32769u16..=32777 {
        let mut buf = header(tag, 0, 200);
        buf.resize(160, 0);
        assert_eq!(notification_parse(&buf).unwrap(), None, "tag {}", tag);
        let mut short = header(tag, 0, 12);
        short.resize(16, 0);
        assert_eq!(notification_parse(&short).unwrap(), None, "tag {}", tag);
    }
}

#[test]
fn truncated_variant_is_no_notification() {
    // Declared length equals the buffer length but is too short for the
    // tagged variant's fixed part: no partial decode.
    let mut buf = header(32769, 0, 12);
    push_i32(&mut buf, 0);
    assert_eq!(notification_parse(&buf).unwrap(), None);
    let mut paddr = header(32770, 0, 20);
    paddr.resize(20, 0);
    assert_eq!(notification_parse(&paddr).unwrap(), None);
}

#[test]
fn unknown_tag_is_no_notification() {
    let mut buf = header(40000, 0, 12);
    push_i32(&mut buf, 0);
    assert_eq!(notification_parse(&buf).unwrap(), None);
}

#[test]
fn base_tag_is_no_notification() {
    let mut buf = header(32768, 0, 12);
    push_i32(&mut buf, 0);
    assert_eq!(notification_parse(&buf).unwrap(), None);
}

#[test]
fn tiny_buffer_is_no_notification() {
    assert_eq!(notification_parse(&[1, 2, 3]).unwrap(), None);
    assert_eq!(notification_parse(&[]).unwrap(), None);
}

#[test]
fn error_code_mapping() {
    assert_eq!(notification_error_parse(0), NotificationError::FailedThreshold);
    assert_eq!(notification_error_parse(1), NotificationError::ReceivedSack);
    assert_eq!(notification_error_parse(2), NotificationError::HeartbeatSuccess);
    assert_eq!(notification_error_parse(3), NotificationError::ResponseToUserRequest);
    assert_eq!(notification_error_parse(4), NotificationError::InternalError);
    assert_eq!(notification_error_parse(5), NotificationError::ShutdownGuardExpires);
    assert_eq!(notification_error_parse(6), NotificationError::PeerFaulty);
    assert_eq!(notification_error_parse(7), NotificationError::Unknown);
    assert_eq!(notification_error_parse(u16::MAX), NotificationError::Unknown);
}

#[test]
fn sn_type_round_trip() {
    for raw in 32768u16..=32777 {
        let tag = sctp_sn_type::from_u16(raw).unwrap();
        assert_eq!(tag.as_u16(), raw);
    }
    assert_eq!(sctp_sn_type::from_u16(32767), None);
    assert_eq!(sctp_sn_type::from_u16(32778), None);
}
