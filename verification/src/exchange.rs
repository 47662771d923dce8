//! What a socket does in more than one operation of the protocol behind it:
//! accepting a connection, and receiving.
use vstd::prelude::*;

use crate::addr::SocketAddr;
use crate::dialogue::{Dialogue, Reply, Request, Step};
use crate::errno::NetError;
use crate::kinds::SocketType;
use crate::net::{NetCall, SocketInner, TcpOp, TimeVal, UdpOp};
use crate::socket::{Socket, SocketState};

verus! {

/// Accepting a connection, with the address of the peer as its result.
#[derive(Clone, Copy, PartialEq, Eq, Structural, Debug)]
pub enum Accepting {
    /// The protocol waits for a connection.
    Waiting,
    /// A connection was made; its peer is to be named.
    Naming,
}

impl Dialogue for Accepting {
    type Output = Result<SocketAddr, NetError>;

    open spec fn asks(self) -> Request {
        match self {
            Accepting::Waiting => Request::Net(NetCall::Tcp(TcpOp::Accept)),
            Accepting::Naming => Request::AcceptedPeer,
        }
    }

    open spec fn accepts(self, reply: Reply) -> bool {
        match self {
            Accepting::Waiting => reply is Outcome,
            Accepting::Naming => reply is Named,
        }
    }

    open spec fn next(self, reply: Reply) -> Step<Accepting, Result<SocketAddr, NetError>> {
        match (self, reply) {
            (Accepting::Waiting, Reply::Outcome(Ok(_))) => Step::Ask(Accepting::Naming),
            (Accepting::Waiting, Reply::Outcome(Err(error))) => Step::Return(Err(error)),
            (Accepting::Naming, Reply::Named(peer)) => Step::Return(peer),
            _ => Step::Return(Err(NetError::Unsupported)),
        }
    }

    open spec fn rank(self) -> nat {
        match self {
            Accepting::Waiting => 1,
            Accepting::Naming => 0,
        }
    }

    proof fn advances(self, reply: Reply) {
    }

    fn request(&self) -> (request: Request) {
        match self {
            Accepting::Waiting => Request::Net(NetCall::Tcp(TcpOp::Accept)),
            Accepting::Naming => Request::AcceptedPeer,
        }
    }

    fn admits(&self, reply: &Reply) -> (admitted: bool) {
        match (*self, *reply) {
            (Accepting::Waiting, Reply::Outcome(_)) => true,
            (Accepting::Naming, Reply::Named(_)) => true,
            _ => false,
        }
    }

    fn resume(self, reply: Reply) -> (step: Step<Accepting, Result<SocketAddr, NetError>>) {
        match (self, reply) {
            (Accepting::Waiting, Reply::Outcome(Ok(_))) => Step::Ask(Accepting::Naming),
            (Accepting::Waiting, Reply::Outcome(Err(error))) => Step::Return(Err(error)),
            (Accepting::Naming, Reply::Named(peer)) => Step::Return(peer),
            _ => Step::Return(Err(NetError::Unsupported)),
        }
    }
}

/// Receiving, with the number of bytes and the address of the sender as its
/// result.
#[derive(Clone, Copy, PartialEq, Eq, Debug)]
pub enum Receiving {
    /// The peer of a connection is to be named.
    Naming { timeout: Option<TimeVal> },
    /// A connection waits for bytes.
    Stream { peer: SocketAddr, timeout: Option<TimeVal> },
    /// A datagram is waited for.
    Datagram { timeout: Option<TimeVal> },
}

impl Dialogue for Receiving {
    type Output = Result<(usize, SocketAddr), NetError>;

    open spec fn asks(self) -> Request {
        match self {
            Receiving::Naming { .. } => Request::Net(NetCall::Tcp(TcpOp::PeerAddr)),
            Receiving::Stream { timeout, .. } => Request::Net(NetCall::Tcp(TcpOp::Recv(timeout))),
            Receiving::Datagram { timeout } => Request::Net(
                NetCall::Udp(UdpOp::RecvFrom(timeout)),
            ),
        }
    }

    open spec fn accepts(self, reply: Reply) -> bool {
        match self {
            Receiving::Naming { .. } => reply is Named,
            Receiving::Stream { .. } => reply is Count,
            Receiving::Datagram { .. } => reply is Received,
        }
    }

    open spec fn next(self, reply: Reply) -> Step<
        Receiving,
        Result<(usize, SocketAddr), NetError>,
    > {
        match (self, reply) {
            (Receiving::Naming { .. }, Reply::Named(Err(error))) => Step::Return(Err(error)),
            (Receiving::Naming { timeout }, Reply::Named(Ok(peer))) => Step::Ask(
                Receiving::Stream { peer, timeout },
            ),
            (Receiving::Stream { .. }, Reply::Count(Err(error))) => Step::Return(Err(error)),
            (Receiving::Stream { peer, .. }, Reply::Count(Ok(len))) => Step::Return(
                Ok((len, peer)),
            ),
            (Receiving::Datagram { .. }, Reply::Received(result)) => Step::Return(result),
            _ => Step::Return(Err(NetError::Unsupported)),
        }
    }

    open spec fn rank(self) -> nat {
        match self {
            Receiving::Naming { .. } => 1,
            _ => 0,
        }
    }

    proof fn advances(self, reply: Reply) {
    }

    fn request(&self) -> (request: Request) {
        match *self {
            Receiving::Naming { .. } => Request::Net(NetCall::Tcp(TcpOp::PeerAddr)),
            Receiving::Stream { timeout, .. } => Request::Net(NetCall::Tcp(TcpOp::Recv(timeout))),
            Receiving::Datagram { timeout } => Request::Net(
                NetCall::Udp(UdpOp::RecvFrom(timeout)),
            ),
        }
    }

    fn admits(&self, reply: &Reply) -> (admitted: bool) {
        match (*self, *reply) {
            (Receiving::Naming { .. }, Reply::Named(_)) => true,
            (Receiving::Stream { .. }, Reply::Count(_)) => true,
            (Receiving::Datagram { .. }, Reply::Received(_)) => true,
            _ => false,
        }
    }

    fn resume(self, reply: Reply) -> (step: Step<
        Receiving,
        Result<(usize, SocketAddr), NetError>,
    >) {
        match (self, reply) {
            (Receiving::Naming { .. }, Reply::Named(Err(error))) => Step::Return(Err(error)),
            (Receiving::Naming { timeout }, Reply::Named(Ok(peer))) => Step::Ask(
                Receiving::Stream { peer, timeout },
            ),
            (Receiving::Stream { .. }, Reply::Count(Err(error))) => Step::Return(Err(error)),
            (Receiving::Stream { peer, .. }, Reply::Count(Ok(len))) => Step::Return(
                Ok((len, peer)),
            ),
            (Receiving::Datagram { .. }, Reply::Received(result)) => Step::Return(result),
            _ => Step::Return(Err(NetError::Unsupported)),
        }
    }
}

impl SocketState {
    /// How accepting a connection on the socket begins.
    pub open spec fn accept(self) -> Step<Accepting, Result<SocketAddr, NetError>> {
        if crate::socket::makes_connections(self.socket_type) {
            Step::Ask(Accepting::Waiting)
        } else {
            Step::Return(Err(NetError::Unsupported))
        }
    }

    /// How receiving on the socket begins.
    pub open spec fn recv_from(self) -> Step<Receiving, Result<(usize, SocketAddr), NetError>> {
        match self.inner {
            SocketInner::Tcp => Step::Ask(Receiving::Naming { timeout: self.recv_timeout }),
            SocketInner::Udp => Step::Ask(Receiving::Datagram { timeout: self.recv_timeout }),
        }
    }
}

impl Socket {
    /// Begins to accept a connection. Where that succeeds,
    /// [`Socket::accepted`] is the socket of the connection.
    pub fn accept(&self) -> (step: Step<Accepting, Result<SocketAddr, NetError>>)
        ensures
            step == self@.accept(),
    {
        if self.kind() != SocketType::SOCK_STREAM && self.kind() != SocketType::SOCK_SEQPACKET {
            return Step::Return(Err(NetError::Unsupported));
        }
        match self.protocol() {
            SocketInner::Tcp => Step::Ask(Accepting::Waiting),
            SocketInner::Udp => Step::Return(Err(NetError::Unsupported)),
        }
    }

    /// Begins to receive.
    pub fn recv_from(&self) -> (step: Step<Receiving, Result<(usize, SocketAddr), NetError>>)
        ensures
            step == self@.recv_from(),
    {
        match self.protocol() {
            SocketInner::Tcp => Step::Ask(Receiving::Naming { timeout: self.get_recv_timeout() }),
            SocketInner::Udp => Step::Ask(Receiving::Datagram { timeout: self.get_recv_timeout() }),
        }
    }
}

/// What each operation gives, while a connection is accepted.
pub struct AcceptWorld {
    pub connection: Result<(), NetError>,
    pub peer: Result<SocketAddr, NetError>,
}

impl AcceptWorld {
    /// The reply that each request gets.
    pub open spec fn reply(self, dialogue: Accepting) -> Reply {
        match dialogue {
            Accepting::Waiting => Reply::Outcome(self.connection),
            Accepting::Naming => Reply::Named(self.peer),
        }
    }
}

/// Law: a socket accepts only if its type makes connections; then it accepts
/// with the peer of the connection, unless making the connection or naming the
/// peer fails, which is how accepting fails then. The protocol is asked for a
/// connection once, for its peer only once there is one, and for nothing where the
/// type makes no connections.
pub proof fn accept_result(socket: SocketState, world: AcceptWorld)
    ensures
        crate::dialogue::outcome(socket.accept(), |d: Accepting| world.reply(d)) == (
        if !crate::socket::makes_connections(socket.socket_type) {
            Err(NetError::Unsupported)
        } else if world.connection is Err {
            Err(world.connection->Err_0)
        } else {
            world.peer
        }),
        crate::dialogue::requests(socket.accept(), |d: Accepting| world.reply(d)) == (
        if !crate::socket::makes_connections(socket.socket_type) {
            Seq::empty()
        } else if world.connection is Err {
            seq![Request::Net(NetCall::Tcp(TcpOp::Accept))]
        } else {
            seq![Request::Net(NetCall::Tcp(TcpOp::Accept)), Request::AcceptedPeer]
        }),
{
    reveal_with_fuel(crate::dialogue::outcome, 3);
    reveal_with_fuel(crate::dialogue::requests, 3);
}

/// What each operation gives, while something is received.
pub struct ReceiveWorld {
    pub peer: Result<SocketAddr, NetError>,
    pub stream: Result<usize, NetError>,
    pub datagram: Result<(usize, SocketAddr), NetError>,
}

impl ReceiveWorld {
    /// The reply that each request gets.
    pub open spec fn reply(self, dialogue: Receiving) -> Reply {
        match dialogue {
            Receiving::Naming { .. } => Reply::Named(self.peer),
            Receiving::Stream { .. } => Reply::Count(self.stream),
            Receiving::Datagram { .. } => Reply::Received(self.datagram),
        }
    }
}

/// Law: a connection receives from its peer, and only if it has one; a datagram
/// socket receives what the protocol gives. Either waits no longer than the
/// socket's timeout.
pub proof fn recv_from_result(socket: SocketState, world: ReceiveWorld)
    ensures
        crate::dialogue::outcome(socket.recv_from(), |d: Receiving| world.reply(d)) == (
        match socket.inner {
            SocketInner::Udp => world.datagram,
            SocketInner::Tcp => match (world.peer, world.stream) {
                (Err(error), _) => Err(error),
                (Ok(_), Err(error)) => Err(error),
                (Ok(peer), Ok(len)) => Ok((len, peer)),
            },
        }),
        crate::dialogue::requests(socket.recv_from(), |d: Receiving| world.reply(d)) == (
        match socket.inner {
            SocketInner::Udp => seq![
                Request::Net(NetCall::Udp(UdpOp::RecvFrom(socket.recv_timeout))),
            ],
            SocketInner::Tcp => if world.peer is Err {
                seq![Request::Net(NetCall::Tcp(TcpOp::PeerAddr))]
            } else {
                seq![
                    Request::Net(NetCall::Tcp(TcpOp::PeerAddr)),
                    Request::Net(NetCall::Tcp(TcpOp::Recv(socket.recv_timeout))),
                ]
            },
        }),
{
    reveal_with_fuel(crate::dialogue::outcome, 3);
    reveal_with_fuel(crate::dialogue::requests, 3);
}

} // verus!
