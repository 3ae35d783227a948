use sctp::addr::encode;
use sctp::addr::encode_list;
use sctp::addr::parse_addr_list;
use sctp::addr::sockaddr_to_addr;
use sctp::addr::TransportAddress;
use sctp::addr::AF_INET;
use sctp::addr::AF_INET6;
use sctp::addr::SOCKADDR_IN6_LEN;
use sctp::addr::SOCKADDR_IN_LEN;
use sctp::error::SctpError;

fn v4_loopback() -> TransportAddress {
    TransportAddress::V4 { addr: 0x7f00_0001, port: 5000 }
}

fn v6_loopback() -> TransportAddress {
    TransportAddress::V6 { addr: 1, port: 8080, flowinfo: 0x1234_5678, scope_id: 3 }
}

#[test]
fn encode_v4_layout() {
    let bytes = encode(&v4_loopback());
    assert_eq!(bytes.len(), SOCKADDR_IN_LEN);
    // Family tag in host order, port in network order, address bytes, padding.
    assert_eq!(&bytes[0..2], &[2, 0]);
    assert_eq!(&bytes[2..4], &[0x13, 0x88]);
    assert_eq!(&bytes[4..8], &[127, 0, 0, 1]);
    assert_eq!(&bytes[8..16], &[0u8; 8]);
}

#[test]
fn encode_v6_layout() {
    let a = TransportAddress::V6 {
        addr: 0x2001_0db8_0000_0000_0000_0000_0000_0042,
        port: 443,
        flowinfo: 0x0102_0304,
        scope_id: 0x0a0b_0c0d,
    };
    let bytes = encode(&a);
    assert_eq!(bytes.len(), SOCKADDR_IN6_LEN);
    assert_eq!(&bytes[0..2], &[10, 0]);
    assert_eq!(&bytes[2..4], &[0x01, 0xbb]);
    // flowinfo is a host-order field: little-endian bytes.
    assert_eq!(&bytes[4..8], &[0x04, 0x03, 0x02, 0x01]);
    // The address itself is network order.
    assert_eq!(&bytes[8..12], &[0x20, 0x01, 0x0d, 0xb8]);
    assert_eq!(bytes[23], 0x42);
    assert_eq!(&bytes[24..28], &[0x0d, 0x0c, 0x0b, 0x0a]);
}

#[test]
fn round_trip_v4() {
    let a = v4_loopback();
    let bytes = encode(&a);
    let back = sockaddr_to_addr(&bytes, bytes.len()).unwrap();
    assert_eq!(back, a);
}

#[test]
fn round_trip_v6() {
    let a = v6_loopback();
    let bytes = encode(&a);
    let back = sockaddr_to_addr(&bytes, bytes.len()).unwrap();
    assert_eq!(back, a);
}

#[test]
fn round_trip_extreme_values() {
    let cases = [
        TransportAddress::V4 { addr: 0, port: 0 },
        TransportAddress::V4 { addr: u32::MAX, port: u16::MAX },
        TransportAddress::V6 { addr: 0, port: 0, flowinfo: 0, scope_id: 0 },
        TransportAddress::V6 {
            addr: u128::MAX,
            port: u16::MAX,
            flowinfo: u32::MAX,
            scope_id: u32::MAX,
        },
    ];
    for a in cases {
        let bytes = encode(&a);
        assert_eq!(sockaddr_to_addr(&bytes, bytes.len()).unwrap(), a);
    }
}

#[test]
fn decode_unknown_family() {
    let mut bytes = encode(&v4_loopback());
    bytes[0] = 99;
    bytes[1] = 0;
    assert_eq!(
        sockaddr_to_addr(&bytes, bytes.len()),
        Err(SctpError::UnsupportedFamily(99))
    );
}

#[test]
fn decode_short_declared_length() {
    let bytes = encode(&v4_loopback());
    assert_eq!(
        sockaddr_to_addr(&bytes, SOCKADDR_IN_LEN - 1),
        Err(SctpError::InvalidInput)
    );
    let bytes6 = encode(&v6_loopback());
    assert_eq!(
        sockaddr_to_addr(&bytes6, SOCKADDR_IN6_LEN - 1),
        Err(SctpError::InvalidInput)
    );
}

#[test]
fn decode_empty_buffer() {
    let bytes: Vec<u8> = Vec::new();
    assert_eq!(sockaddr_to_addr(&bytes, 128), Err(SctpError::InvalidInput));
}

#[test]
fn decode_ignores_trailing_storage() {
    // A 128-byte storage whose head is a valid IPv4 structure decodes the
    // same as the bare structure.
    let mut storage = encode(&v4_loopback());
    storage.resize(128, 0xee);
    assert_eq!(
        sockaddr_to_addr(&storage, 128).unwrap(),
        v4_loopback()
    );
}

#[test]
fn encode_list_packs_naturally() {
    let addrs = vec![v4_loopback(), v6_loopback(), v4_loopback()];
    let buf = encode_list(&addrs);
    assert_eq!(buf.len(), SOCKADDR_IN_LEN + SOCKADDR_IN6_LEN + SOCKADDR_IN_LEN);
    assert_eq!(&buf[0..16], encode(&v4_loopback()).as_slice());
    assert_eq!(&buf[16..44], encode(&v6_loopback()).as_slice());
    assert_eq!(&buf[44..60], encode(&v4_loopback()).as_slice());
}

#[test]
fn encode_list_empty_is_empty() {
    let addrs: Vec<TransportAddress> = Vec::new();
    assert_eq!(encode_list(&addrs).len(), 0);
}

#[test]
fn parse_addr_list_two_families() {
    let addrs = vec![v6_loopback(), v4_loopback()];
    let buf = encode_list(&addrs);
    let back = parse_addr_list(&buf, 2).unwrap();
    assert_eq!(back, addrs);
}

#[test]
fn parse_addr_list_unknown_family() {
    let mut buf = encode_list(&vec![v4_loopback(), v4_loopback()]);
    buf[16] = 77;
    assert_eq!(parse_addr_list(&buf, 2), Err(SctpError::UnsupportedFamily(77)));
}

#[test]
fn parse_addr_list_truncated() {
    let buf = encode_list(&vec![v4_loopback()]);
    assert_eq!(parse_addr_list(&buf, 2), Err(SctpError::InvalidInput));
    assert_eq!(parse_addr_list(&buf[0..10], 1), Err(SctpError::InvalidInput));
}

#[test]
fn parse_addr_list_zero_count() {
    let buf: Vec<u8> = Vec::new();
    assert_eq!(parse_addr_list(&buf, 0).unwrap(), Vec::new());
}

#[test]
fn family_constants() {
    assert_eq!(AF_INET, 2);
    assert_eq!(AF_INET6, 10);
}
