//! The operations that the network stack offers on the protocols behind sockets.
use vstd::prelude::*;

use crate::addr::SocketAddr;

verus! {

/// The network protocol behind a socket.
#[derive(Clone, Copy, PartialEq, Eq, Structural, Debug)]
pub enum SocketInner {
    Tcp,
    Udp,
}

/// A span of time.
#[derive(Clone, Copy, PartialEq, Eq, Structural, Debug)]
pub struct TimeVal {
    pub sec: usize,
    pub usec: usize,
}

/// An operation on a TCP socket.
#[derive(Clone, Copy, PartialEq, Eq, Debug)]
pub enum TcpOp {
    SetNonblocking(bool),
    IsNonblocking,
    IsConnected,
    LocalAddr,
    PeerAddr,
    Bind(SocketAddr),
    Listen,
    Accept,
    Connect(SocketAddr),
    Send,
    /// Receive, waiting no longer than told, if told.
    Recv(Option<TimeVal>),
    Close,
    /// Reset the connection, if the protocol has one.
    Abort,
    /// Send a probe after so many idle seconds, or none, if the protocol has a
    /// connection.
    SetKeepAlive(Option<u64>),
    /// Whether probes are sent, if the protocol has a connection.
    KeepAlive,
    /// Whether small pieces are held back to be sent together.
    SetNagleEnabled(bool),
    NagleEnabled,
    Flush,
    Read,
    Write,
    Poll,
}

/// An operation on a UDP socket.
#[derive(Clone, Copy, PartialEq, Eq, Debug)]
pub enum UdpOp {
    SetNonblocking(bool),
    IsNonblocking,
    IsOpen,
    LocalAddr,
    PeerAddr,
    Bind(SocketAddr),
    Connect(SocketAddr),
    Send,
    SendTo(SocketAddr),
    /// Receive, waiting no longer than told, if told.
    RecvFrom(Option<TimeVal>),
    Shutdown,
    Read,
    Write,
    Poll,
}

/// An operation on the protocol behind a socket.
#[derive(Clone, Copy, PartialEq, Eq, Debug)]
pub enum NetCall {
    Tcp(TcpOp),
    Udp(UdpOp),
}

/// What polling a protocol tells.
#[derive(Clone, Copy, PartialEq, Eq, Structural, Debug)]
pub struct PollState {
    pub readable: bool,
    pub writable: bool,
}

} // verus!
