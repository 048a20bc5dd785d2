use compio_lite::udp::{each_addr, io_outcome, send_to_target, SocketError, UdpSocket};
use socket2::{Domain, SockAddr, Socket, Type};

/// The unspecified address of `domain` with port 0, as an unbound socket
/// reports it.
fn wildcard(domain: Domain) -> SockAddr {
    Socket::new(domain, Type::DGRAM, None).unwrap().local_addr().unwrap()
}

fn port_of(addr: &SockAddr) -> u16 {
    addr.as_socket().unwrap().port()
}

#[test]
fn bind_keeps_the_address() {
    let socket = UdpSocket::bind(&[wildcard(Domain::IPV4)]).unwrap();
    let local = socket.local_addr().unwrap();
    assert!(local.is_ipv4());
    assert_ne!(port_of(&local), 0);
}

#[test]
fn bind_with_no_address_is_refused() {
    assert!(matches!(UdpSocket::bind(&[]), Err(SocketError::NoAddresses)));
}

#[test]
fn connect_with_no_address_is_refused() {
    let socket = UdpSocket::bind(&[wildcard(Domain::IPV4)]).unwrap();
    assert!(matches!(socket.connect(&[]), Err(SocketError::NoAddresses)));
}

#[test]
fn bind_falls_back_to_the_next_address() {
    let taken = UdpSocket::bind(&[wildcard(Domain::IPV4)]).unwrap();
    let taken_addr = taken.local_addr().unwrap();
    let socket = UdpSocket::bind(&[taken_addr.clone(), wildcard(Domain::IPV4)]).unwrap();
    let local = socket.local_addr().unwrap();
    assert_ne!(port_of(&local), port_of(&taken_addr));
}

#[test]
fn bind_reports_the_last_error() {
    let taken = UdpSocket::bind(&[wildcard(Domain::IPV4)]).unwrap();
    let taken_addr = taken.local_addr().unwrap();
    let result = UdpSocket::bind(&[taken_addr.clone(), taken_addr]);
    assert!(matches!(result, Err(SocketError::Io(_))));
}

#[test]
fn peer_addr_of_unconnected_socket_fails() {
    let socket = UdpSocket::bind(&[wildcard(Domain::IPV4)]).unwrap();
    assert!(matches!(socket.peer_addr(), Err(SocketError::Io(_))));
}

#[test]
fn try_clone_shares_the_socket() {
    let socket = UdpSocket::bind(&[wildcard(Domain::IPV4)]).unwrap();
    let clone = socket.try_clone().unwrap();
    assert_eq!(socket.local_addr().unwrap(), clone.local_addr().unwrap());
}

fn bound_ports(n: usize) -> (Vec<UdpSocket>, Vec<SockAddr>) {
    let sockets: Vec<UdpSocket> =
        (0..n).map(|_| UdpSocket::bind(&[wildcard(Domain::IPV4)]).unwrap()).collect();
    let addrs = sockets.iter().map(|s| s.local_addr().unwrap()).collect();
    (sockets, addrs)
}

#[test]
fn send_to_target_takes_the_first_address() {
    let (_sockets, targets) = bound_ports(2);
    let target = send_to_target(&targets).unwrap();
    assert_eq!(*target, targets[0]);
    assert!(matches!(send_to_target(&[]), Err(SocketError::NoAddresses)));
}

#[test]
fn each_addr_returns_the_first_success() {
    let (_sockets, targets) = bound_ports(3);
    let second_port = port_of(&targets[1]);
    let first_port = port_of(&targets[0]);
    let result = each_addr(&targets, |a: &SockAddr| {
        let port = port_of(a);
        if port == first_port {
            Err(std::io::Error::other("refused"))
        } else {
            Ok(port)
        }
    });
    assert_eq!(result.ok(), Some(second_port));
}

#[test]
fn each_addr_returns_the_last_error() {
    let (_sockets, targets) = bound_ports(2);
    let result: Result<(), SocketError> = each_addr(&targets, |a: &SockAddr| {
        Err(std::io::Error::other(format!("port {}", port_of(a))))
    });
    match result {
        Err(SocketError::Io(e)) => assert_eq!(e.to_string(), format!("port {}", port_of(&targets[1]))),
        _ => panic!("expected the last error"),
    }
}

#[test]
fn connect_reports_the_error_of_the_last_address() {
    let socket = UdpSocket::bind(&[wildcard(Domain::IPV4)]).unwrap();
    // An IPv6 peer cannot be set on an IPv4 socket.
    let result = socket.connect(&[wildcard(Domain::IPV6), wildcard(Domain::IPV6)]);
    assert!(matches!(result, Err(SocketError::Io(_))));
    assert!(matches!(socket.peer_addr(), Err(SocketError::Io(_))));
}

#[test]
fn bind_to_the_given_address() {
    let probe = UdpSocket::bind(&[wildcard(Domain::IPV4)]).unwrap();
    let wanted = probe.local_addr().unwrap();
    drop(probe);
    let socket = UdpSocket::bind(&[wanted.clone()]).unwrap();
    assert_eq!(socket.local_addr().unwrap(), wanted);
}

#[test]
fn io_outcome_keeps_value_and_error() {
    assert!(matches!(io_outcome(Ok::<u8, std::io::Error>(4)), Ok(4)));
    match io_outcome::<u8>(Err(std::io::Error::other("boom"))) {
        Err(SocketError::Io(e)) => assert_eq!(e.to_string(), "boom"),
        _ => panic!("expected the same error"),
    }
}
