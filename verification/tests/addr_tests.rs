use quic_shim::addr::PeerAddr;
use quic_shim::addr::parse_sockaddr_in;
use quic_shim::errors::ShimError;

fn sockaddr_in_bytes(ip: [u8; 4], port: u16) -> Vec<u8> {
    let mut b = vec![0u8; 16];
    b[0] = 2; // AF_INET, little-endian host order
    b[1] = 0;
    b[2] = (port >> 8) as u8; // network order
    b[3] = (port & 0xff) as u8;
    b[4] = ip[0];
    b[5] = ip[1];
    b[6] = ip[2];
    b[7] = ip[3];
    b
}

#[test]
fn parse_well_formed_ipv4() {
    let b = sockaddr_in_bytes([1, 2, 3, 4], 9000);
    let r = parse_sockaddr_in(&b, 16);
    assert_eq!(r, Some(PeerAddr { ip: 0x0102_0304, port: 9000 }));
}

#[test]
fn parse_wrong_stated_length() {
    let b = sockaddr_in_bytes([1, 2, 3, 4], 9000);
    assert_eq!(parse_sockaddr_in(&b, 12), None);
    assert_eq!(parse_sockaddr_in(&b, 17), None);
    assert_eq!(parse_sockaddr_in(&b, 0), None);
}

#[test]
fn parse_short_buffer() {
    let b = vec![2u8, 0, 0x23, 0x28, 1, 2, 3, 4];
    assert_eq!(parse_sockaddr_in(&b, 16), None);
}

#[test]
fn parse_wrong_family() {
    let mut b = sockaddr_in_bytes([1, 2, 3, 4], 9000);
    b[0] = 10; // AF_INET6
    assert_eq!(parse_sockaddr_in(&b, 16), None);
}

#[test]
fn parse_port_and_ip_are_network_order() {
    let b = sockaddr_in_bytes([192, 168, 0, 1], 0x1234);
    let r = parse_sockaddr_in(&b, 16).unwrap();
    assert_eq!(r.ip, 0xc0a8_0001);
    assert_eq!(r.port, 0x1234);
}

#[test]
fn peer_keys_distinguish_addresses() {
    let a = PeerAddr { ip: 0x0102_0304, port: 9000 };
    let b = PeerAddr { ip: 0x0102_0304, port: 9001 };
    let c = PeerAddr { ip: 0x0102_0305, port: 9000 };
    assert_ne!(a.key(), b.key());
    assert_ne!(a.key(), c.key());
    assert_ne!(b.key(), c.key());
    assert_eq!(a.key(), PeerAddr { ip: 0x0102_0304, port: 9000 }.key());
}

#[test]
fn errno_values() {
    assert_eq!(ShimError::AddressParse.errno(), 22);
    assert_eq!(ShimError::BadDescriptor.errno(), 9);
    assert_eq!(ShimError::HandshakeFailure.errno(), 104);
    assert_eq!(ShimError::ProtocolViolation.errno(), 71);
    assert_eq!(ShimError::TransportUnavailable.errno(), 101);
    assert_eq!(ShimError::WouldBlock.errno(), 11);
    assert_eq!(ShimError::Unsupported.errno(), 95);
}
