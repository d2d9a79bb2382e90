use sock5s::acceptor::{Socks5Acceptor, Step};
use sock5s::connector::{after_failure, Forward, Socks5Connector};
use sock5s::error::{Error, IoFailure};
use sock5s::target::{Endpoint, IpAddress, SocketV4, SocketV6, Socks5Target};
use sock5s::udp::{encode_header, parse_datagram, Socks5UdpClient};

fn v4(a: u8, b: u8, c: u8, d: u8, port: u16) -> Endpoint {
    Endpoint::V4(SocketV4 { ip: [a, b, c, d], port })
}

fn v6(ip: [u8; 16], port: u16) -> Endpoint {
    Endpoint::V6(SocketV6 { ip, port })
}

fn mapped(a: u8, b: u8, c: u8, d: u8) -> [u8; 16] {
    [0, 0, 0, 0, 0, 0, 0, 0, 0, 0, 0xff, 0xff, a, b, c, d]
}

fn forwarder(dual_stack: bool) -> Socks5Connector {
    let mut connector =
        Socks5Connector::new(Socks5Target::V4(SocketV4 { ip: [0, 0, 0, 0], port: 0 }));
    connector.udp_bind(!dual_stack);
    connector
}

fn datagram_to_domain(name: &str, port: u16, payload: &[u8]) -> Vec<u8> {
    let mut data = vec![0u8, 0, 0, 3, name.len() as u8];
    data.extend_from_slice(name.as_bytes());
    data.extend_from_slice(&port.to_be_bytes());
    data.extend_from_slice(payload);
    data
}

fn associate_session(request: &[u8]) -> Socks5Acceptor {
    let mut acceptor = Socks5Acceptor::new(v4(192, 0, 2, 7, 50000));
    assert_eq!(acceptor.authenticate(&[5, 1, 0]), Step::Done(vec![5, 0]));
    assert_eq!(acceptor.accept_command(request), Step::Done(vec![]));
    acceptor
}

#[test]
fn datagram_header_is_parsed() {
    let data = [0u8, 0, 0, 1, 8, 8, 8, 8, 0, 53, b'h', b'i'];
    let (target, offset) = parse_datagram(&data).unwrap();
    assert_eq!(target, Socks5Target::V4(SocketV4 { ip: [8, 8, 8, 8], port: 53 }));
    assert_eq!(offset, 10);
    assert_eq!(&data[offset..], b"hi");
}

#[test]
fn datagram_with_domain_is_parsed() {
    let data = datagram_to_domain("example.com", 53, b"query");
    let (target, offset) = parse_datagram(&data).unwrap();
    assert_eq!(target, Socks5Target::Domain((String::from("example.com"), 53)));
    assert_eq!(offset, 18);
    assert_eq!(&data[offset..], b"query");
}

#[test]
fn datagram_without_payload_is_parsed() {
    let data = [0u8, 0, 0, 1, 8, 8, 8, 8, 0, 53];
    let (_, offset) = parse_datagram(&data).unwrap();
    assert_eq!(offset, data.len());
}

#[test]
fn datagram_with_fragment_number_is_refused() {
    assert_eq!(parse_datagram(&[0, 0, 1, 1, 8, 8, 8, 8, 0, 53]), Err(Error::InvalidUdpRequest));
    assert_eq!(parse_datagram(&[0, 1, 0, 1, 8, 8, 8, 8, 0, 53]), Err(Error::InvalidUdpRequest));
    assert_eq!(parse_datagram(&[1, 0, 0, 1, 8, 8, 8, 8, 0, 53]), Err(Error::InvalidUdpRequest));
}

#[test]
fn truncated_datagram_is_refused() {
    assert_eq!(parse_datagram(&[]), Err(Error::InvalidUdpRequest));
    assert_eq!(parse_datagram(&[0, 0, 0]), Err(Error::InvalidUdpRequest));
    assert_eq!(parse_datagram(&[0, 0, 0, 1]), Err(Error::InvalidUdpRequest));
    assert_eq!(parse_datagram(&[0, 0, 0, 1, 8, 8, 8, 8, 0]), Err(Error::InvalidUdpRequest));
    assert_eq!(parse_datagram(&[0, 0, 0, 3, 5, b'a', b'b', 0, 53]), Err(Error::InvalidUdpRequest));
}

#[test]
fn datagram_with_unknown_address_type_is_refused() {
    assert_eq!(
        parse_datagram(&[0, 0, 0, 9, 8, 8, 8, 8, 0, 53]),
        Err(Error::UnsupportedAddressType)
    );
}

#[test]
fn datagram_with_invalid_domain_is_refused() {
    assert_eq!(parse_datagram(&[0, 0, 0, 3, 1, 0xff, 0, 53, 1, 2]), Err(Error::InvalidDomain));
}

#[test]
fn header_for_the_client() {
    assert_eq!(encode_header(&v4(8, 8, 8, 8, 53)), vec![0, 0, 0, 1, 8, 8, 8, 8, 0, 53]);
    assert_eq!(
        encode_header(&v6(mapped(8, 8, 4, 4), 53)),
        vec![0, 0, 0, 1, 8, 8, 4, 4, 0, 53]
    );
    let mut expected = vec![0u8, 0, 0, 4];
    expected.extend_from_slice(&[0x20; 16]);
    expected.extend_from_slice(&[0, 53]);
    assert_eq!(encode_header(&v6([0x20; 16], 53)), expected);
}

#[test]
fn header_for_the_client_parses_back() {
    let mut data = encode_header(&v6(mapped(8, 8, 4, 4), 53));
    data.extend_from_slice(b"answer");
    let (target, offset) = parse_datagram(&data).unwrap();
    assert_eq!(target.endpoint(), Some(v4(8, 8, 4, 4, 53)));
    assert_eq!(&data[offset..], b"answer");
}

#[test]
fn bind_addresses() {
    let mut connector = forwarder(true);
    assert_eq!(connector.udp_bind(false), v6([0; 16], 0));
    assert!(!connector.is_ipv4_only());
    assert_eq!(connector.udp_bind(true), v4(0, 0, 0, 0, 0));
    assert!(connector.is_ipv4_only());
    assert_eq!(Socks5Acceptor::udp_bind_address(&v4(192, 0, 2, 1, 1080)), v4(192, 0, 2, 1, 0));
}

#[test]
fn bind_fixes_the_mode() {
    let connector = Socks5Connector::new(Socks5Target::V4(SocketV4 { ip: [0; 4], port: 0 }));
    assert!(!connector.is_ipv4_only());
    assert!(!forwarder(true).is_ipv4_only());
    assert!(forwarder(false).is_ipv4_only());
}

#[test]
fn dual_stack_sends_ipv4_in_mapped_form() {
    let data = [0u8, 0, 0, 1, 8, 8, 8, 8, 0, 53, 7];
    assert_eq!(
        forwarder(true).forward_udp(&data),
        Ok(Forward::Send { to: v6(mapped(8, 8, 8, 8), 53), payload: 10 })
    );
}

#[test]
fn dual_stack_sends_ipv6_as_it_is() {
    let mut data = vec![0u8, 0, 0, 4];
    data.extend_from_slice(&[0x20; 16]);
    data.extend_from_slice(&[0, 53, 7]);
    assert_eq!(
        forwarder(true).forward_udp(&data),
        Ok(Forward::Send { to: v6([0x20; 16], 53), payload: 22 })
    );
}

#[test]
fn ipv4_only_sends_ipv4_as_it_is() {
    let data = [0u8, 0, 0, 1, 8, 8, 8, 8, 0, 53, 7];
    assert_eq!(
        forwarder(false).forward_udp(&data),
        Ok(Forward::Send { to: v4(8, 8, 8, 8, 53), payload: 10 })
    );
}

#[test]
fn ipv4_only_drops_pure_ipv6() {
    let mut data = vec![0u8, 0, 0, 4];
    data.extend_from_slice(&[0x20; 16]);
    data.extend_from_slice(&[0, 53, 7]);
    assert_eq!(forwarder(false).forward_udp(&data), Ok(Forward::Drop));
}

#[test]
fn ipv4_only_unmaps_mapped_ipv6() {
    let mut data = vec![0u8, 0, 0, 4];
    data.extend_from_slice(&mapped(8, 8, 8, 8));
    data.extend_from_slice(&[0, 53, 7]);
    assert_eq!(
        forwarder(false).forward_udp(&data),
        Ok(Forward::Send { to: v4(8, 8, 8, 8, 53), payload: 22 })
    );
}

#[test]
fn forward_refuses_bad_datagrams() {
    assert_eq!(forwarder(true).forward_udp(&[0, 0, 9, 1, 8, 8, 8, 8, 0, 53]), Err(Error::InvalidUdpRequest));
    assert_eq!(forwarder(true).forward_udp(&[0, 0, 0, 7, 8, 8, 8, 8, 0, 53]), Err(Error::UnsupportedAddressType));
    assert_eq!(forwarder(true).forward_udp(&[0, 0, 0, 3, 1, 0x80, 0, 53]), Err(Error::InvalidDomain));
}

#[test]
fn two_datagrams_to_one_domain_trigger_one_lookup() {
    let mut connector = forwarder(true);
    let first = datagram_to_domain("example.com", 53, b"one");
    let second = datagram_to_domain("example.com", 5353, b"two");
    let mut lookups = 0;
    for data in [first, second].iter() {
        let mut route = connector.forward_udp(data).unwrap();
        if let Forward::Resolve { domain, port } = route {
            assert_eq!(domain, "example.com");
            assert_eq!(port, 53);
            lookups += 1;
            connector.resolved(domain, &[IpAddress::V4([93, 184, 216, 34])]);
            route = connector.forward_udp(data).unwrap();
        }
        let port = if lookups == 1 && data.ends_with(b"one") { 53 } else { 5353 };
        assert_eq!(
            route,
            Forward::Send { to: v6(mapped(93, 184, 216, 34), port), payload: 18 }
        );
    }
    assert_eq!(lookups, 1);
}

#[test]
fn cache_answers_per_name() {
    let mut connector = forwarder(false);
    assert_eq!(connector.cached(&String::from("a.example")), None);
    connector.resolved(String::from("a.example"), &[IpAddress::V4([1, 1, 1, 1])]);
    connector.resolved(String::from("b.example"), &[IpAddress::V4([2, 2, 2, 2])]);
    assert_eq!(connector.cached(&String::from("a.example")), Some(IpAddress::V4([1, 1, 1, 1])));
    assert_eq!(connector.cached(&String::from("b.example")), Some(IpAddress::V4([2, 2, 2, 2])));
    assert_eq!(connector.cached(&String::from("c.example")), None);
    assert_eq!(
        connector.forward_udp(&datagram_to_domain("b.example", 7, b"x")),
        Ok(Forward::Send { to: v4(2, 2, 2, 2, 7), payload: 16 })
    );
    assert_eq!(
        connector.forward_udp(&datagram_to_domain("c.example", 7, b"x")),
        Ok(Forward::Resolve { domain: String::from("c.example"), port: 7 })
    );
}

#[test]
fn failed_lookup_is_cached_as_negative() {
    let mut connector = forwarder(true);
    let data = datagram_to_domain("nowhere.example", 53, b"x");
    assert_eq!(
        connector.forward_udp(&data),
        Ok(Forward::Resolve { domain: String::from("nowhere.example"), port: 53 })
    );
    connector.resolved(String::from("nowhere.example"), &[]);
    assert_eq!(
        connector.cached(&String::from("nowhere.example")),
        Some(IpAddress::V4([0, 0, 0, 0]))
    );
    assert_eq!(connector.forward_udp(&data), Ok(Forward::Drop));
    assert_eq!(connector.forward_udp(&data), Ok(Forward::Drop));
}

#[test]
fn ipv4_only_skips_ipv6_answers() {
    let mut connector = forwarder(false);
    connector.resolved(
        String::from("both.example"),
        &[IpAddress::V6([0x20; 16]), IpAddress::V4([5, 6, 7, 8]), IpAddress::V4([9, 9, 9, 9])],
    );
    assert_eq!(connector.cached(&String::from("both.example")), Some(IpAddress::V4([5, 6, 7, 8])));
    connector.resolved(String::from("six.example"), &[IpAddress::V6([0x20; 16])]);
    assert_eq!(connector.cached(&String::from("six.example")), Some(IpAddress::V4([0; 4])));
    assert_eq!(connector.forward_udp(&datagram_to_domain("six.example", 1, b"")), Ok(Forward::Drop));
}

#[test]
fn dual_stack_takes_the_first_answer() {
    let mut connector = forwarder(true);
    connector.resolved(
        String::from("both.example"),
        &[IpAddress::V6([0x20; 16]), IpAddress::V4([5, 6, 7, 8])],
    );
    assert_eq!(
        connector.forward_udp(&datagram_to_domain("both.example", 443, b"x")),
        Ok(Forward::Send { to: v6([0x20; 16], 443), payload: 19 })
    );
}

#[test]
fn transient_failures_are_passed_over() {
    assert_eq!(after_failure(IoFailure::ConnectionRefused), Ok(()));
    assert_eq!(after_failure(IoFailure::ConnectionReset), Ok(()));
    assert_eq!(after_failure(IoFailure::ConnectionAborted), Ok(()));
    assert_eq!(after_failure(IoFailure::NetworkUnreachable), Ok(()));
    assert_eq!(after_failure(IoFailure::HostUnreachable), Ok(()));
    assert_eq!(after_failure(IoFailure::TimedOut), Err(Error::Io(IoFailure::TimedOut)));
    assert_eq!(after_failure(IoFailure::Other), Err(Error::Io(IoFailure::Other)));
}

#[test]
fn associate_reply_and_client() {
    let acceptor = associate_session(&[5, 3, 0, 1, 0, 0, 0, 0, 0x30, 0x39]);
    let (reply, client) = acceptor.associate_udp(&v4(192, 0, 2, 1, 40000)).unwrap();
    assert_eq!(reply, vec![5, 0, 0, 1, 192, 0, 2, 1, 0x9c, 0x40]);
    assert_eq!(client, Socks5UdpClient::new(v4(192, 0, 2, 7, 12345)));
    assert_eq!(client.client_addr, v4(192, 0, 2, 7, 12345));
}

#[test]
fn associate_reply_unmaps_the_bound_address() {
    let acceptor = associate_session(&[5, 3, 0, 1, 0, 0, 0, 0, 0, 0]);
    let (reply, client) = acceptor.associate_udp(&v6(mapped(192, 0, 2, 1), 40000)).unwrap();
    assert_eq!(reply, vec![5, 0, 0, 1, 192, 0, 2, 1, 0x9c, 0x40]);
    assert_eq!(client.client_addr, v4(192, 0, 2, 7, 0));
}

#[test]
fn associate_with_invalid_domain_fails() {
    let acceptor = associate_session(&[5, 3, 0, 3, 1, 0xff, 0, 0]);
    assert_eq!(acceptor.associate_udp(&v4(192, 0, 2, 1, 40000)), Err(Error::InvalidDomain));
}

#[test]
fn failed_bind_after_associate_is_reported() {
    let acceptor = associate_session(&[5, 3, 0, 1, 0, 0, 0, 0, 0, 0]);
    assert_eq!(acceptor.closed(1), vec![5, 1, 1, 1, 0, 0, 0, 0, 0, 0]);
}

#[test]
fn declared_port_pins_the_client() {
    let client = Socks5UdpClient::new(v4(192, 0, 2, 7, 12345));
    assert_eq!(client.declared(), Some(v4(192, 0, 2, 7, 12345)));
    assert_eq!(client.confirm(&v4(192, 0, 2, 7, 12345)), Ok(v4(192, 0, 2, 7, 12345)));
}

#[test]
fn port_zero_binds_to_the_first_sender() {
    let client = Socks5UdpClient::new(v4(192, 0, 2, 7, 0));
    assert_eq!(client.declared(), None);
    assert_eq!(client.confirm(&v4(192, 0, 2, 7, 6000)), Ok(v4(192, 0, 2, 7, 6000)));
}

#[test]
fn first_sender_with_another_address_is_refused() {
    let client = Socks5UdpClient::new(v4(192, 0, 2, 7, 0));
    assert_eq!(client.confirm(&v4(192, 0, 2, 8, 6000)), Err(Error::InvalidUdpClient));
    assert_eq!(client.confirm(&v6(mapped(192, 0, 2, 7), 6000)), Err(Error::InvalidUdpClient));
}

#[test]
fn cache_is_empty_until_a_name_is_on_record() {
    let mut connector = forwarder(true);
    assert!(connector.cache_is_empty());
    connector.resolved(String::from("a.example"), &[]);
    assert!(!connector.cache_is_empty());
    assert!(!connector.is_ipv4_only());
}
