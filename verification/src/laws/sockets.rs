//! What sockets are made as, and which operations they come down to.
use vstd::prelude::*;

use crate::addr::{any_address, IpAddr, SocketAddr};
use crate::dialogue::{outcome, requests, Dialogue, Reply, Request};
use crate::errno::NetError;
use crate::exchange::{AcceptWorld, Accepting, ReceiveWorld, Receiving};
use crate::kinds::{Domain, SocketType};
use crate::net::{NetCall, SocketInner, TcpOp, UdpOp};
use crate::socket::{makes_connections, protocol_of, SocketState};

verus! {

/// Law: streams and sequenced packets are connections over TCP, datagrams go over
/// UDP, and there is nothing behind the other types.
pub proof fn types_have_protocols(socket_type: SocketType)
    ensures
        protocol_of(socket_type) == Some(SocketInner::Tcp) <==> socket_type
            == SocketType::SOCK_STREAM || socket_type == SocketType::SOCK_SEQPACKET,
        protocol_of(socket_type) == Some(SocketInner::Udp) <==> socket_type
            == SocketType::SOCK_DGRAM,
        makes_connections(socket_type) <==> socket_type == SocketType::SOCK_STREAM || socket_type
            == SocketType::SOCK_SEQPACKET,
{
}

/// Law: a new socket is what it was told to be, has buffers of 64 KiB and the
/// congestion control `reno`, and nothing is set on it.
pub proof fn fresh_sockets_are_plain(domain: Domain, socket_type: SocketType, inner: SocketInner)
    ensures
        ({
            let socket = SocketState::fresh(domain, socket_type, inner);
            &&& socket.domain == domain
            &&& socket.socket_type == socket_type
            &&& socket.inner == inner
            &&& !socket.close_exec
            &&& socket.recv_timeout is None
            &&& !socket.reuse_addr
            &&& !socket.dont_route
            &&& socket.send_buf_size == 65536
            &&& socket.recv_buf_size == 65536
            &&& socket.congestion == seq!['r', 'e', 'n', 'o']
        }),
{
    reveal_strlit("reno");
    assert("reno"@ =~= seq!['r', 'e', 'n', 'o']);
}

/// Law: a socket calls the operation that is for the protocol behind it, and is well
/// formed if and only if that protocol is the one of its type.
pub proof fn calls_go_to_the_protocol(socket: SocketState, tcp: TcpOp, udp: UdpOp)
    ensures
        socket.inner == SocketInner::Tcp ==> socket.call(tcp, udp) == NetCall::Tcp(tcp),
        socket.inner == SocketInner::Udp ==> socket.call(tcp, udp) == NetCall::Udp(udp),
        socket.wf() <==> protocol_of(socket.socket_type) == Some(socket.inner),
{
}

/// Law: a socket listens, and accepts, through the operation of its protocol for
/// that if it is a stream or of sequenced packets, and not at all otherwise. What it
/// accepts is the connection that was made, unless that or naming its peer failed.
pub proof fn connections_listen_and_accept(socket: SocketState, world: AcceptWorld)
    ensures
        ({
            let connects = socket.socket_type == SocketType::SOCK_STREAM || socket.socket_type
                == SocketType::SOCK_SEQPACKET;
            let accepted = outcome(socket.accept(), |d: Accepting| world.reply(d));
            let asked = requests(socket.accept(), |d: Accepting| world.reply(d));
            &&& connects ==> socket.listen() == Ok::<NetCall, NetError>(NetCall::Tcp(TcpOp::Listen))
            &&& !connects ==> socket.listen() == Err::<NetCall, NetError>(NetError::Unsupported)
            &&& !connects ==> asked.len() == 0 && accepted == Err::<SocketAddr, NetError>(
                NetError::Unsupported,
            )
            &&& connects && world.connection is Ok ==> accepted == world.peer
            &&& connects ==> (world.connection matches Err(error) ==> accepted == Err::<
                SocketAddr,
                NetError,
            >(error))
        }),
{
    crate::exchange::accept_result(socket, world);
}

/// Law: what a socket received is as many bytes as the protocol gave, from the peer
/// of the connection or from the sender of the datagram, and the protocol is told to
/// wait for the socket's timeout and no other.
pub proof fn receiving_is_as_the_protocol_says(
    socket: SocketState,
    world: ReceiveWorld,
    len: usize,
    from: SocketAddr,
)
    ensures
        ({
            let received = outcome(socket.recv_from(), |d: Receiving| world.reply(d));
            let asked = requests(socket.recv_from(), |d: Receiving| world.reply(d));
            &&& socket.inner == SocketInner::Tcp && world.peer == Ok::<SocketAddr, NetError>(from)
                && world.stream == Ok::<usize, NetError>(len) ==> received == Ok::<
                (usize, SocketAddr),
                NetError,
            >((len, from))
            &&& socket.inner == SocketInner::Tcp && world.peer is Ok ==> asked.last()
                == Request::Net(NetCall::Tcp(TcpOp::Recv(socket.recv_timeout)))
            &&& socket.inner == SocketInner::Udp ==> received == world.datagram && asked.last()
                == Request::Net(NetCall::Udp(UdpOp::RecvFrom(socket.recv_timeout)))
        }),
{
    crate::exchange::recv_from_result(socket, world);
}

/// Law: accepting and receiving go on with every reply of the kind that they ask for.
pub proof fn exchanges_go_on(accepting: Accepting, receiving: Receiving, reply: Reply)
    ensures
        accepting is Waiting ==> accepting.asks() == Request::Net(NetCall::Tcp(TcpOp::Accept)) && (
        accepting.accepts(reply) <==> reply is Outcome),
        accepting is Naming ==> accepting.asks() == Request::AcceptedPeer && (accepting.accepts(
            reply,
        ) <==> reply is Named),
        receiving is Naming ==> (receiving.accepts(reply) <==> reply is Named),
        receiving is Stream ==> (receiving.accepts(reply) <==> reply is Count),
        receiving is Datagram ==> (receiving.accepts(reply) <==> reply is Received),
{
}

/// Law: the address that stands for every host address is all zeros.
pub proof fn any_address_is_zero()
    ensures
        any_address() == (SocketAddr { addr: IpAddr(0, 0, 0, 0), port: 0 }),
{
}

} // verus!
