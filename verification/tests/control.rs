use sctp::addr::encode;
use sctp::addr::encode_list;
use sctp::addr::TransportAddress;
use sctp::error::SctpError;
use sctp::event::Event;
use sctp::notification::Notification;
use sctp::socket::clamp_len;
use sctp::socket::cvt;
use sctp::socket::max_len;
use sctp::socket::prepare_multihome;
use sctp::socket::process_recvmsg;
use sctp::socket::timeout_to_timeval;
use sctp::socket::timeval_to_timeout;
use sctp::socket::BindOp;
use sctp::socket::Timeval;
use sctp::sys::MSG_NOTIFICATION;

#[test]
fn mask_constructors_are_distinct_bits() {
    let all = [
        Event::data_io(),
        Event::association(),
        Event::address(),
        Event::send_failure(),
        Event::peer_error(),
        Event::shutdown(),
        Event::partial_delivery(),
        Event::adaptation_layer(),
        Event::authentication(),
        Event::sender_dry(),
    ];
    for (i, a) in all.iter().enumerate() {
        assert_eq!(a.as_usize().count_ones(), 1);
        for (j, b) in all.iter().enumerate() {
            if i != j {
                assert_eq!(a.intersection(*b).as_usize(), 0);
            }
        }
    }
}

#[test]
fn mask_insert_remove_contains() {
    let mut m = Event::empty();
    assert!(!m.contains(Event::association()));
    m.insert(Event::association());
    m.insert(Event::shutdown());
    assert!(m.contains(Event::association()));
    assert!(m.contains(Event::shutdown()));
    assert!(!m.contains(Event::data_io()));
    m.remove(Event::association());
    assert!(!m.contains(Event::association()));
    assert!(m.contains(Event::shutdown()));
}

#[test]
fn mask_insert_remove_is_noop() {
    // Insert then remove of the same event on a mask that did not hold it.
    let mut m = Event::data_io();
    m.insert(Event::sender_dry());
    m.insert(Event::peer_error());
    let before = m;
    m.insert(Event::authentication());
    m.remove(Event::authentication());
    assert_eq!(m, before);
}

#[test]
fn mask_set_operations() {
    let a = Event::data_io().union(Event::shutdown());
    let b = Event::shutdown().union(Event::sender_dry());
    assert_eq!(a.intersection(b), Event::shutdown());
    assert_eq!(a.difference(b), Event::data_io());
    assert_eq!(a.symmetric_difference(b), Event::data_io().union(Event::sender_dry()));
    assert!(a.complement().contains(Event::sender_dry()));
    assert!(!a.complement().contains(Event::data_io()));
}

#[test]
fn subscription_record_exact_fields() {
    // The record sets exactly the fields of the subset and no others.
    let m = Event::association().union(Event::sender_dry()).union(Event::address());
    let r = m.to_subscription_record();
    assert_eq!(r.sctp_data_io_event, 0);
    assert_eq!(r.sctp_association_event, 1);
    assert_eq!(r.sctp_address_event, 1);
    assert_eq!(r.sctp_send_failure_event, 0);
    assert_eq!(r.sctp_peer_error_event, 0);
    assert_eq!(r.sctp_shutdown_event, 0);
    assert_eq!(r.sctp_partial_delivery_event, 0);
    assert_eq!(r.sctp_adaptation_layer_event, 0);
    assert_eq!(r.sctp_authentication_event, 0);
    assert_eq!(r.sctp_sender_dry_event, 1);
}

#[test]
fn subscription_record_from_bits() {
    // data-io, association, and shutdown, built from the raw bits.
    let m = Event::from(0b0000100011usize);
    assert_eq!(m, Event::data_io().union(Event::association()).union(Event::shutdown()));
    let r = m.to_subscription_record();
    assert_eq!(r.sctp_data_io_event, 1);
    assert_eq!(r.sctp_association_event, 1);
    assert_eq!(r.sctp_shutdown_event, 1);
    assert_eq!(r.sctp_address_event, 0);
    assert_eq!(r.sctp_sender_dry_event, 0);
}

#[test]
fn subscription_record_all_and_none() {
    let none = Event::empty().to_subscription_record();
    assert_eq!(none.sctp_data_io_event, 0);
    assert_eq!(none.sctp_sender_dry_event, 0);
    let mut m = Event::empty();
    m.insert(Event::data_io());
    m.insert(Event::association());
    m.insert(Event::address());
    m.insert(Event::send_failure());
    m.insert(Event::peer_error());
    m.insert(Event::shutdown());
    m.insert(Event::partial_delivery());
    m.insert(Event::adaptation_layer());
    m.insert(Event::authentication());
    m.insert(Event::sender_dry());
    let all = m.to_subscription_record();
    assert_eq!(all.sctp_data_io_event, 1);
    assert_eq!(all.sctp_association_event, 1);
    assert_eq!(all.sctp_address_event, 1);
    assert_eq!(all.sctp_send_failure_event, 1);
    assert_eq!(all.sctp_peer_error_event, 1);
    assert_eq!(all.sctp_shutdown_event, 1);
    assert_eq!(all.sctp_partial_delivery_event, 1);
    assert_eq!(all.sctp_adaptation_layer_event, 1);
    assert_eq!(all.sctp_authentication_event, 1);
    assert_eq!(all.sctp_sender_dry_event, 1);
}

#[test]
fn subscribing_without_data_io_drops_it() {
    // The record is an overwrite at the OS level: a mask without data-io
    // clears that field, it is not implicitly kept.
    let r = Event::association().to_subscription_record();
    assert_eq!(r.sctp_data_io_event, 0);
}

#[test]
fn default_subscription_is_data_io_only() {
    let r = sctp::event::default_subscription_record();
    assert_eq!(r.sctp_data_io_event, 1);
    assert_eq!(r.sctp_association_event, 0);
    assert_eq!(r.sctp_sender_dry_event, 0);
}

#[test]
fn timeout_zero_is_rejected() {
    assert_eq!(timeout_to_timeval(Some((0, 0))), Err(SctpError::InvalidInput));
}

#[test]
fn timeout_submicrosecond_becomes_one_microsecond() {
    // Nanoseconds that round to zero microseconds must not collapse to the
    // "no timeout" sentinel.
    assert_eq!(
        timeout_to_timeval(Some((0, 999))),
        Ok(Timeval { tv_sec: 0, tv_usec: 1 })
    );
    assert_eq!(
        timeout_to_timeval(Some((0, 1))),
        Ok(Timeval { tv_sec: 0, tv_usec: 1 })
    );
}

#[test]
fn timeout_ordinary_values() {
    assert_eq!(
        timeout_to_timeval(Some((5, 0))),
        Ok(Timeval { tv_sec: 5, tv_usec: 0 })
    );
    assert_eq!(
        timeout_to_timeval(Some((0, 1_500_000))),
        Ok(Timeval { tv_sec: 0, tv_usec: 1500 })
    );
    assert_eq!(
        timeout_to_timeval(Some((2, 250_000))),
        Ok(Timeval { tv_sec: 2, tv_usec: 250 })
    );
}

#[test]
fn timeout_none_is_sentinel() {
    assert_eq!(timeout_to_timeval(None), Ok(Timeval { tv_sec: 0, tv_usec: 0 }));
}

#[test]
fn timeout_seconds_saturate() {
    assert_eq!(
        timeout_to_timeval(Some((u64::MAX, 0))),
        Ok(Timeval { tv_sec: i64::MAX, tv_usec: 0 })
    );
}

#[test]
fn timeval_back_to_timeout() {
    assert_eq!(timeval_to_timeout(Timeval { tv_sec: 0, tv_usec: 0 }), None);
    assert_eq!(
        timeval_to_timeout(Timeval { tv_sec: 3, tv_usec: 250 }),
        Some((3, 250_000))
    );
    assert_eq!(
        timeval_to_timeout(Timeval { tv_sec: 0, tv_usec: 1 }),
        Some((0, 1000))
    );
}

#[test]
fn empty_address_list_is_rejected_before_any_call() {
    let addrs: Vec<TransportAddress> = Vec::new();
    assert_eq!(prepare_multihome(&addrs), Err(SctpError::InvalidInput));
}

#[test]
fn multihome_family_selection() {
    let v4 = TransportAddress::V4 { addr: 0x7f00_0001, port: 1 };
    let v6 = TransportAddress::V6 { addr: 1, port: 1, flowinfo: 0, scope_id: 0 };
    let (family, buf) = prepare_multihome(&vec![v4, v4]).unwrap();
    assert_eq!(family, sctp::addr::AF_INET);
    assert_eq!(buf, encode_list(&vec![v4, v4]));
    let (family6, buf6) = prepare_multihome(&vec![v4, v6]).unwrap();
    assert_eq!(family6, sctp::addr::AF_INET6);
    assert_eq!(buf6.len(), 44);
}

#[test]
fn cvt_classifies_return_values() {
    assert_eq!(cvt(-1i32, 13), Err(SctpError::Sys(13)));
    assert_eq!(cvt(0i32, 13), Ok(0));
    assert_eq!(cvt(42i64, 7), Ok(42));
    assert_eq!(cvt(-1isize, 4), Err(SctpError::Sys(4)));
    assert_eq!(cvt(-2i32, 9), Ok(-2));
}

#[test]
fn clamp_len_caps_at_platform_maximum() {
    assert_eq!(clamp_len(10), 10);
    assert_eq!(clamp_len(usize::MAX), max_len());
    assert_eq!(max_len(), isize::MAX as usize);
}

#[test]
fn error_messages() {
    assert_eq!(SctpError::InvalidInput.message(), "invalid input");
    assert_eq!(SctpError::UnsupportedFamily(99).message(), "unsupported address family");
    assert_eq!(SctpError::AddrNotAvailable.message(), "address not available");
    assert_eq!(SctpError::Sys(13).message(), "system error");
}

#[test]
fn bind_op_flags() {
    assert_eq!(BindOp::AddAddr.flag(), 1);
    assert_eq!(BindOp::RemAddr.flag(), 2);
}

#[test]
fn recvmsg_data_path() {
    let msg = [9u8, 9, 9, 9, 9];
    let v4 = TransportAddress::V4 { addr: 0x7f00_0001, port: 3333 };
    let mut storage = encode(&v4);
    storage.resize(128, 0);
    let out = process_recvmsg(&msg, 5, 0, &storage, 128, 3).unwrap();
    assert_eq!(out.byte_count, 5);
    assert_eq!(out.stream, 3);
    assert_eq!(out.sender, Some(v4));
    assert!(out.notification.is_none());
}

#[test]
fn recvmsg_notification_path() {
    // A shutdown notification: type, flags, length, association id.
    let buf = [0x05u8, 0x80, 0, 0, 12, 0, 0, 0, 21, 0, 0, 0];
    let storage = [0u8; 128];
    let out = process_recvmsg(&buf, 12, MSG_NOTIFICATION, &storage, 128, 0).unwrap();
    match out.notification {
        Some(Notification::Shutdown(n)) => assert_eq!(n.assoc_id, 21),
        other => panic!("wrong notification: {:?}", other),
    }
    // The all-zero storage has family 0: the sender decode failure is
    // swallowed, never masking the received bytes.
    assert_eq!(out.sender, None);
    assert_eq!(out.byte_count, 12);
}

#[test]
fn recvmsg_without_flag_treats_notification_bytes_as_data() {
    let buf = [0x05u8, 0x80, 0, 0, 12, 0, 0, 0, 21, 0, 0, 0];
    let storage = [0u8; 128];
    let out = process_recvmsg(&buf, 12, 0, &storage, 128, 1).unwrap();
    assert!(out.notification.is_none());
}
