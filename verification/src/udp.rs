//! A UDP socket over `socket2`, with the address-by-address logic of binding,
//! connecting and choosing where to send verified.
//!
//! Resolving host names is left to the caller: every operation here takes the
//! candidate addresses already resolved, in the order in which they are tried.

use socket2::{Domain, Protocol, SockAddr, Socket, Type};
use vstd::prelude::*;

verus! {

#[verifier::external_type_specification]
#[verifier::external_body]
pub struct ExIoError(std::io::Error);

#[verifier::external_type_specification]
#[verifier::external_body]
pub struct ExSocket(Socket);

#[verifier::external_type_specification]
#[verifier::external_body]
pub struct ExSockAddr(SockAddr);

#[verifier::external_type_specification]
#[verifier::external_body]
pub struct ExDomain(Domain);

#[verifier::external_type_specification]
#[verifier::external_body]
pub struct ExType(Type);

#[verifier::external_type_specification]
#[verifier::external_body]
pub struct ExProtocol(Protocol);

/// Why a socket operation failed.
#[derive(Debug)]
pub enum SocketError {
    /// There was no address to try.
    NoAddresses,
    /// The operating system refused the operation; the error it gave.
    Io(std::io::Error),
}

/// `SockAddr::domain`: the address family of `addr`. Nothing is stated of
/// the result.
#[verifier::external_body]
fn sockaddr_domain(addr: &SockAddr) -> Domain {
    addr.domain()
}

/// `Socket::new`: opens a socket of the given domain, type and protocol. The
/// outcome rests on the operating system; nothing is stated of it.
#[verifier::external_body]
fn socket_new(domain: Domain, ty: Type, protocol: Option<Protocol>) -> std::io::Result<Socket> {
    Socket::new(domain, ty, protocol)
}

/// `Type::DGRAM`, socket2's datagram socket type. Nothing is stated of its value.
#[verifier::external_body]
fn datagram_type() -> Type {
    Type::DGRAM
}

/// `Protocol::UDP`, socket2's UDP protocol number. Nothing is stated of its value.
#[verifier::external_body]
fn udp_protocol() -> Protocol {
    Protocol::UDP
}

/// `Socket::bind`: binds `socket` to `addr`. The outcome rests on the
/// operating system; nothing is stated of it.
#[verifier::external_body]
fn socket_bind(socket: &Socket, addr: &SockAddr) -> std::io::Result<()> {
    socket.bind(addr)
}

/// `Socket::connect`: sets the peer of `socket` to `addr`. The outcome rests
/// on the operating system; nothing is stated of it.
#[verifier::external_body]
fn socket_connect(socket: &Socket, addr: &SockAddr) -> std::io::Result<()> {
    socket.connect(addr)
}

/// `Socket::try_clone`: a new handle to the same socket. The outcome rests on
/// the operating system; nothing is stated of it.
#[verifier::external_body]
fn socket_try_clone(socket: &Socket) -> std::io::Result<Socket> {
    socket.try_clone()
}

/// `Socket::peer_addr`: the address `socket` is connected to. The outcome
/// rests on the operating system; nothing is stated of it.
#[verifier::external_body]
fn socket_peer_addr(socket: &Socket) -> std::io::Result<SockAddr> {
    socket.peer_addr()
}

/// `Socket::local_addr`: the address `socket` is bound to. The outcome rests
/// on the operating system; nothing is stated of it.
#[verifier::external_body]
fn socket_local_addr(socket: &Socket) -> std::io::Result<SockAddr> {
    socket.local_addr()
}

/// What the library reports of an operating-system call's outcome `attempt`:
/// its value on success, its error as `SocketError::Io` on failure.
pub fn io_outcome<T>(attempt: std::io::Result<T>) -> (outcome: Result<T, SocketError>)
    ensures
        attempt matches Ok(v) ==> outcome matches Ok(w) && w == v,
        attempt matches Err(e) ==> outcome matches Err(SocketError::Io(f)) && f == e,
{
    match attempt {
        Ok(v) => Ok(v),
        Err(e) => Err(SocketError::Io(e)),
    }
}

/// Each of the first `n` addresses was tried with `f`, and `f` failed on it.
pub open spec fn failed_before<T, F: Fn(&SockAddr) -> std::io::Result<T>>(
    f: F,
    addrs: Seq<SockAddr>,
    n: int,
) -> bool {
    forall|j: int| 0 <= j < n ==> #[trigger] failed_on(f, addrs[j])
}

/// `f` can fail on `addr`, with some error.
pub open spec fn failed_on<T, F: Fn(&SockAddr) -> std::io::Result<T>>(f: F, addr: SockAddr) -> bool {
    exists|e: std::io::Error| #[trigger] f.ensures((&addr,), Err(e))
}

/// Tries `f` on each address in turn and returns the first success. When all
/// fail, the error of the last attempt is returned; when there is no address
/// at all, `NoAddresses`.
pub fn each_addr<T, F: Fn(&SockAddr) -> std::io::Result<T>>(addrs: &[SockAddr], f: F) -> (result:
    Result<T, SocketError>)
    requires
        forall|i: int| 0 <= i < addrs@.len() ==> f.requires((&addrs@[i],)),
    ensures
        result matches Err(SocketError::NoAddresses) <==> addrs@.len() == 0,
        result matches Ok(v) ==> exists|i: int|
            0 <= i < addrs@.len() && f.ensures((&addrs@[i],), Ok(v)) && failed_before(f, addrs@, i),
        result matches Err(SocketError::Io(e)) ==> {
            &&& addrs@.len() > 0
            &&& f.ensures((&addrs@[addrs@.len() - 1],), Err(e))
            &&& failed_before(f, addrs@, addrs@.len() - 1)
        },
{
    let mut last_err: Option<std::io::Error> = None;
    let mut i: usize = 0;
    while i < addrs.len()
        invariant
            i <= addrs@.len(),
            forall|k: int| 0 <= k < addrs@.len() ==> f.requires((&addrs@[k],)),
            failed_before(f, addrs@, i as int),
            i == 0 <==> last_err is None,
            last_err matches Some(e) ==> f.ensures((&addrs@[i - 1],), Err(e)),
        decreases addrs@.len() - i,
    {
        let attempt = f(&addrs[i]);
        match attempt {
            Ok(v) => {
                return Ok(v);
            },
            Err(e) => {
                proof {
                    let ghost n = i as int;
                    assert(failed_on(f, addrs@[n]));
                    assert forall|j: int| 0 <= j < n + 1 implies #[trigger] failed_on(
                        f,
                        addrs@[j],
                    ) by {
                        if j < n {
                            assert(failed_before(f, addrs@, n));
                        }
                    }
                }
                last_err = Some(e);
            },
        }
        i = i + 1;
    }
    match last_err {
        Some(e) => Err(SocketError::Io(e)),
        None => Err(SocketError::NoAddresses),
    }
}

/// `addr.domain()` was asked and answered `domain`.
pub closed spec fn family_reported(addr: SockAddr, domain: Domain) -> bool {
    sockaddr_domain.ensures((&addr,), domain)
}

/// `ty` is the value read from `Type::DGRAM`.
pub closed spec fn datagram_reported(ty: Type) -> bool {
    datagram_type.ensures((), ty)
}

/// `protocol` is the value read from `Protocol::UDP`.
pub closed spec fn udp_reported(protocol: Protocol) -> bool {
    udp_protocol.ensures((), protocol)
}

/// `Socket::new(domain, ty, protocol)` was asked and answered `answer`.
pub closed spec fn opened_reported(
    domain: Domain,
    ty: Type,
    protocol: Option<Protocol>,
    answer: std::io::Result<Socket>,
) -> bool {
    socket_new.ensures((domain, ty, protocol), answer)
}

/// `socket.bind(addr)` was asked and answered `answer`.
pub closed spec fn bind_reported(socket: Socket, addr: SockAddr, answer: std::io::Result<()>) -> bool {
    socket_bind.ensures((&socket, &addr), answer)
}

/// `socket.connect(addr)` was asked and answered `answer`.
pub closed spec fn connect_reported(
    socket: Socket,
    addr: SockAddr,
    answer: std::io::Result<()>,
) -> bool {
    socket_connect.ensures((&socket, &addr), answer)
}

/// `socket.try_clone()` was asked and answered `answer`.
pub closed spec fn clone_reported(socket: Socket, answer: std::io::Result<Socket>) -> bool {
    socket_try_clone.ensures((&socket,), answer)
}

/// `socket.peer_addr()` was asked and answered `answer`.
pub closed spec fn peer_reported(socket: Socket, answer: std::io::Result<SockAddr>) -> bool {
    socket_peer_addr.ensures((&socket,), answer)
}

/// `socket.local_addr()` was asked and answered `answer`.
pub closed spec fn local_reported(socket: Socket, answer: std::io::Result<SockAddr>) -> bool {
    socket_local_addr.ensures((&socket,), answer)
}

/// `domain` is the family of `addr`, and `ty` and `protocol` are the datagram
/// type and the UDP protocol.
pub open spec fn udp_parts(addr: SockAddr, domain: Domain, ty: Type, protocol: Protocol) -> bool {
    family_reported(addr, domain) && datagram_reported(ty) && udp_reported(protocol)
}

/// `socket` was opened as a UDP datagram socket in the family of `addr` and
/// then bound to `addr`.
pub open spec fn bound_udp(addr: SockAddr, socket: Socket) -> bool {
    exists|domain: Domain, ty: Type, protocol: Protocol|
        #[trigger] udp_parts(addr, domain, ty, protocol) && opened_reported(
            domain,
            ty,
            Some(protocol),
            Ok(socket),
        ) && bind_reported(socket, addr, Ok(()))
}

/// Opening a UDP datagram socket in the family of `addr` failed with `e`, or
/// one was opened and binding it to `addr` failed with `e`.
pub open spec fn open_failed(addr: SockAddr, e: std::io::Error) -> bool {
    exists|domain: Domain, ty: Type, protocol: Protocol|
        #[trigger] udp_parts(addr, domain, ty, protocol) && (opened_reported(
            domain,
            ty,
            Some(protocol),
            Err(e),
        ) || exists|socket: Socket|
            opened_reported(domain, ty, Some(protocol), Ok(socket)) && #[trigger] bind_reported(
                socket,
                addr,
                Err(e),
            ))
}

/// Opening and binding a UDP socket at `addr` failed, with some error.
pub open spec fn open_fails(addr: SockAddr) -> bool {
    exists|e: std::io::Error| #[trigger] open_failed(addr, e)
}

/// Connecting `socket` to `addr` failed, with some error.
pub open spec fn connect_fails(socket: Socket, addr: SockAddr) -> bool {
    exists|e: std::io::Error| #[trigger] connect_reported(socket, addr, Err(e))
}

/// `socket` was bound at `addrs[i]`, after opening and binding at each
/// earlier address had failed.
pub open spec fn bound_at(addrs: Seq<SockAddr>, i: int, socket: Socket) -> bool {
    &&& 0 <= i < addrs.len()
    &&& bound_udp(addrs[i], socket)
    &&& forall|j: int| 0 <= j < i ==> #[trigger] open_fails(addrs[j])
}

/// `socket` was connected to `addrs[i]`, after connecting it to each earlier
/// address had failed.
pub open spec fn connected_at(addrs: Seq<SockAddr>, i: int, socket: Socket) -> bool {
    &&& 0 <= i < addrs.len()
    &&& connect_reported(socket, addrs[i], Ok(()))
    &&& forall|j: int| 0 <= j < i ==> #[trigger] connect_fails(socket, addrs[j])
}

/// Opens a UDP socket in the family of `addr` and binds it there.
fn open_bound_udp(addr: &SockAddr) -> (result: std::io::Result<Socket>)
    ensures
        result matches Ok(socket) ==> bound_udp(*addr, socket),
        result matches Err(e) ==> open_failed(*addr, e),
{
    let domain = sockaddr_domain(addr);
    let ty = datagram_type();
    let protocol = udp_protocol();
    assert(udp_parts(*addr, domain, ty, protocol));
    let opened = socket_new(domain, ty, Some(protocol));
    assert(opened_reported(domain, ty, Some(protocol), opened));
    let socket = match opened {
        Ok(socket) => socket,
        Err(e) => {
            assert(open_failed(*addr, e));
            return Err(e);
        },
    };
    let bound = socket_bind(&socket, addr);
    assert(bind_reported(socket, *addr, bound));
    match bound {
        Ok(unit) => {
            assert(bound == Ok::<(), std::io::Error>(unit));
            assert(bound_udp(*addr, socket));
            Ok(socket)
        },
        Err(e) => {
            assert(open_failed(*addr, e));
            Err(e)
        },
    }
}

/// A UDP socket.
///
/// It can talk to many remotes (`bind`, then choose a target for each
/// datagram with `send_to_target`), or, after `connect`, to one.
#[derive(Debug)]
pub struct UdpSocket {
    inner: Socket,
}

impl UdpSocket {
    /// The socket2 socket this UDP socket is made of.
    pub closed spec fn raw(&self) -> Socket {
        self.inner
    }

    /// Creates a UDP socket bound to the first of `addrs` that a socket can be
    /// bound to, trying them in order.
    pub fn bind(addrs: &[SockAddr]) -> (result: Result<UdpSocket, SocketError>)
        ensures
            result matches Err(SocketError::NoAddresses) <==> addrs@.len() == 0,
            result matches Ok(socket) ==> exists|i: int| #[trigger] bound_at(addrs@, i, socket.raw()),
            result matches Err(SocketError::Io(e)) ==> {
                &&& addrs@.len() > 0
                &&& open_failed(addrs@[addrs@.len() - 1], e)
                &&& forall|j: int| 0 <= j < addrs@.len() - 1 ==> #[trigger] open_fails(addrs@[j])
            },
    {
        let f = |addr: &SockAddr| -> (r: std::io::Result<Socket>)
            ensures
                r matches Ok(socket) ==> bound_udp(*addr, socket),
                r matches Err(e) ==> open_failed(*addr, e),
            { open_bound_udp(addr) };
        let outcome = each_addr(addrs, f);
        proof {
            assert forall|j: int| 0 <= j < addrs@.len() && #[trigger] failed_on(f, addrs@[j]) implies open_fails(
                addrs@[j],
            ) by {
                let e = choose|e: std::io::Error| f.ensures((&addrs@[j],), Err(e));
                assert(open_failed(addrs@[j], e));
            }
        }
        match outcome {
            Ok(inner) => {
                let udp = UdpSocket { inner };
                proof {
                    let i = choose|i: int|
                        0 <= i < addrs@.len() && f.ensures((&addrs@[i],), Ok(inner))
                            && failed_before(f, addrs@, i);
                    assert(bound_udp(addrs@[i], udp.raw()));
                    assert forall|j: int| 0 <= j < i implies #[trigger] open_fails(addrs@[j]) by {
                        assert(failed_on(f, addrs@[j]));
                    }
                    assert(bound_at(addrs@, i, udp.raw()));
                }
                let result: Result<UdpSocket, SocketError> = Ok(udp);
                assert(result->Ok_0.raw() == udp.raw());
                result
            },
            Err(e) => {
                proof {
                    let n = addrs@.len() - 1;
                    assert forall|j: int| 0 <= j < n implies #[trigger] open_fails(addrs@[j]) by {
                        assert(failed_on(f, addrs@[j]));
                    }
                }
                Err(e)
            },
        }
    }

    /// Connects the socket to the first of `addrs` that it can be connected
    /// to, trying them in order: `send` and `recv` then go to and come from
    /// that remote only.
    pub fn connect(&self, addrs: &[SockAddr]) -> (result: Result<(), SocketError>)
        ensures
            result matches Err(SocketError::NoAddresses) <==> addrs@.len() == 0,
            result is Ok ==> exists|i: int| #[trigger] connected_at(addrs@, i, self.raw()),
            result matches Err(SocketError::Io(e)) ==> {
                &&& addrs@.len() > 0
                &&& connect_reported(self.raw(), addrs@[addrs@.len() - 1], Err(e))
                &&& forall|j: int|
                    0 <= j < addrs@.len() - 1 ==> #[trigger] connect_fails(self.raw(), addrs@[j])
            },
    {
        let inner = &self.inner;
        let f = |addr: &SockAddr| -> (r: std::io::Result<()>)
            ensures
                connect_reported(*inner, *addr, r),
            { socket_connect(inner, addr) };
        let outcome = each_addr(addrs, f);
        proof {
            assert forall|j: int| 0 <= j < addrs@.len() && #[trigger] failed_on(f, addrs@[j]) implies connect_fails(
                self.raw(),
                addrs@[j],
            ) by {
                let e = choose|e: std::io::Error| f.ensures((&addrs@[j],), Err(e));
                assert(connect_reported(self.raw(), addrs@[j], Err(e)));
            }
            if outcome is Ok {
                let i = choose|i: int|
                    0 <= i < addrs@.len() && f.ensures((&addrs@[i],), Ok(()))
                        && failed_before(f, addrs@, i);
                assert(connect_reported(self.raw(), addrs@[i], Ok(())));
                assert forall|j: int| 0 <= j < i implies #[trigger] connect_fails(
                    self.raw(),
                    addrs@[j],
                ) by {
                    assert(failed_on(f, addrs@[j]));
                }
                assert(connected_at(addrs@, i, self.raw()));
            }
            if outcome is Err {
                let n = addrs@.len() - 1;
                assert forall|j: int| 0 <= j < n implies #[trigger] connect_fails(
                    self.raw(),
                    addrs@[j],
                ) by {
                    assert(failed_on(f, addrs@[j]));
                }
            }
        }
        outcome
    }

    /// Creates a new, independently owned handle to the same socket.
    pub fn try_clone(&self) -> (result: Result<UdpSocket, SocketError>)
        ensures
            !(result matches Err(SocketError::NoAddresses)),
            result matches Ok(clone) ==> clone_reported(self.raw(), Ok(clone.raw())),
            result matches Err(SocketError::Io(e)) ==> clone_reported(self.raw(), Err(e)),
    {
        let cloned = socket_try_clone(&self.inner);
        assert(clone_reported(self.raw(), cloned));
        match io_outcome(cloned) {
            Ok(inner) => Ok(UdpSocket { inner }),
            Err(e) => Err(e),
        }
    }

    /// The address of the remote this socket is connected to.
    pub fn peer_addr(&self) -> (result: Result<SockAddr, SocketError>)
        ensures
            !(result matches Err(SocketError::NoAddresses)),
            result matches Ok(addr) ==> peer_reported(self.raw(), Ok(addr)),
            result matches Err(SocketError::Io(e)) ==> peer_reported(self.raw(), Err(e)),
    {
        let answer = socket_peer_addr(&self.inner);
        assert(peer_reported(self.raw(), answer));
        io_outcome(answer)
    }

    /// The local address this socket is bound to.
    pub fn local_addr(&self) -> (result: Result<SockAddr, SocketError>)
        ensures
            !(result matches Err(SocketError::NoAddresses)),
            result matches Ok(addr) ==> local_reported(self.raw(), Ok(addr)),
            result matches Err(SocketError::Io(e)) ==> local_reported(self.raw(), Err(e)),
    {
        let answer = socket_local_addr(&self.inner);
        assert(local_reported(self.raw(), answer));
        io_outcome(answer)
    }

    /// The socket2 socket underneath, for sending and receiving.
    pub fn socket(&self) -> (inner: &Socket)
        ensures
            *inner == self.raw(),
    {
        &self.inner
    }
}

/// Where `send_to` sends a datagram: the first of the resolved addresses;
/// `NoAddresses` when there is none.
pub fn send_to_target(addrs: &[SockAddr]) -> (target: Result<&SockAddr, SocketError>)
    ensures
        addrs@.len() == 0 ==> target matches Err(SocketError::NoAddresses),
        addrs@.len() > 0 ==> (target matches Ok(a) && *a == addrs@[0]),
{
    if addrs.len() == 0 {
        Err(SocketError::NoAddresses)
    } else {
        Ok(&addrs[0])
    }
}

} // verus!
