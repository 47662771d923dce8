//! A socket: what the system calls keep of one beside the protocol behind it.
use vstd::prelude::*;

use crate::addr::SocketAddr;
use crate::errno::NetError;
use crate::kinds::{Domain, SocketType};
use crate::net::{NetCall, PollState, SocketInner, TcpOp, TimeVal, UdpOp};

verus! {

/// The size of a new socket's buffers, in bytes.
pub const DEFAULT_BUF_SIZE: u64 = 0x1_0000;

/// What a socket holds.
pub struct SocketState {
    pub domain: Domain,
    pub socket_type: SocketType,
    pub inner: SocketInner,
    pub close_exec: bool,
    pub recv_timeout: Option<TimeVal>,
    pub reuse_addr: bool,
    pub dont_route: bool,
    pub send_buf_size: u64,
    pub recv_buf_size: u64,
    pub congestion: Seq<char>,
}

/// Whether sockets of this type make connections.
pub open spec fn makes_connections(socket_type: SocketType) -> bool {
    socket_type == SocketType::SOCK_STREAM || socket_type == SocketType::SOCK_SEQPACKET
}

/// The protocol behind sockets of this type, where there is one.
pub open spec fn protocol_of(socket_type: SocketType) -> Option<SocketInner> {
    if makes_connections(socket_type) {
        Some(SocketInner::Tcp)
    } else if socket_type == SocketType::SOCK_DGRAM {
        Some(SocketInner::Udp)
    } else {
        None
    }
}

impl SocketState {
    /// A socket on which no option has been set.
    pub open spec fn fresh(domain: Domain, socket_type: SocketType, inner: SocketInner) -> Self {
        SocketState {
            domain,
            socket_type,
            inner,
            close_exec: false,
            recv_timeout: None,
            reuse_addr: false,
            dont_route: false,
            send_buf_size: DEFAULT_BUF_SIZE,
            recv_buf_size: DEFAULT_BUF_SIZE,
            congestion: "reno"@,
        }
    }

    /// The protocol behind the socket is that of its type.
    pub open spec fn wf(self) -> bool {
        protocol_of(self.socket_type) == Some(self.inner)
    }

    /// The one of two operations that is for the protocol behind the socket.
    pub open spec fn call(self, tcp: TcpOp, udp: UdpOp) -> NetCall {
        match self.inner {
            SocketInner::Tcp => NetCall::Tcp(tcp),
            SocketInner::Udp => NetCall::Udp(udp),
        }
    }

    /// The operation that lets the socket listen, where it can.
    pub open spec fn listen(self) -> Result<NetCall, NetError> {
        if makes_connections(self.socket_type) {
            Ok(NetCall::Tcp(TcpOp::Listen))
        } else {
            Err(NetError::Unsupported)
        }
    }
}

/// The status of an open file that a socket has, too.
#[derive(Clone, Copy, PartialEq, Eq, Structural, Debug)]
pub struct OpenFlags {
    /// The file is closed when another program is executed.
    pub close_exec: bool,
    /// Operations on the file do not wait.
    pub non_block: bool,
}

/// A socket, but for the protocol behind it: of that, only which it is.
///
/// A method that comes down to an operation of the protocol gives that operation,
/// to be called on it.
pub struct Socket {
    domain: Domain,
    socket_type: SocketType,
    inner: SocketInner,
    close_exec: bool,
    recv_timeout: Option<TimeVal>,
    reuse_addr: bool,
    dont_route: bool,
    send_buf_size: u64,
    recv_buf_size: u64,
    congestion: String,
}

impl View for Socket {
    type V = SocketState;

    closed spec fn view(&self) -> SocketState {
        SocketState {
            domain: self.domain,
            socket_type: self.socket_type,
            inner: self.inner,
            close_exec: self.close_exec,
            recv_timeout: self.recv_timeout,
            reuse_addr: self.reuse_addr,
            dont_route: self.dont_route,
            send_buf_size: self.send_buf_size,
            recv_buf_size: self.recv_buf_size,
            congestion: self.congestion@,
        }
    }
}

impl Socket {
    /// The protocol behind a socket is that of its type.
    #[verifier::type_invariant]
    spec fn inv(self) -> bool {
        protocol_of(self.socket_type) == Some(self.inner)
    }

    fn fresh(domain: Domain, socket_type: SocketType, inner: SocketInner) -> (socket: Socket)
        requires
            protocol_of(socket_type) == Some(inner),
        ensures
            socket@ == SocketState::fresh(domain, socket_type, inner),
    {
        Socket {
            domain,
            socket_type,
            inner,
            close_exec: false,
            recv_timeout: None,
            reuse_addr: false,
            dont_route: false,
            send_buf_size: DEFAULT_BUF_SIZE,
            recv_buf_size: DEFAULT_BUF_SIZE,
            congestion: "reno".to_owned(),
        }
    }

    /// A new socket. Only sockets of a type with a protocol behind it can be made.
    pub fn new(domain: Domain, socket_type: SocketType) -> (socket: Socket)
        requires
            protocol_of(socket_type) is Some,
        ensures
            socket@ == SocketState::fresh(domain, socket_type, protocol_of(socket_type).unwrap()),
            socket@.wf(),
    {
        let inner: SocketInner = match socket_type {
            SocketType::SOCK_STREAM | SocketType::SOCK_SEQPACKET => SocketInner::Tcp,
            _ => SocketInner::Udp,
        };
        Socket::fresh(domain, socket_type, inner)
    }

    /// The protocol behind the socket.
    pub fn protocol(&self) -> (inner: SocketInner)
        ensures
            inner == self@.inner,
            self@.wf(),
    {
        proof {
            use_type_invariant(self);
        }
        self.inner
    }

    /// The type of the socket.
    pub fn kind(&self) -> (socket_type: SocketType)
        ensures
            socket_type == self@.socket_type,
    {
        self.socket_type
    }

    /// The socket of a connection that this socket accepted.
    pub fn accepted(&self) -> (socket: Socket)
        requires
            makes_connections(self@.socket_type),
        ensures
            socket@ == SocketState::fresh(self@.domain, self@.socket_type, SocketInner::Tcp),
            socket@.wf(),
    {
        Socket::fresh(self.domain, self.socket_type, SocketInner::Tcp)
    }

    pub fn get_recv_timeout(&self) -> (val: Option<TimeVal>)
        ensures
            val == self@.recv_timeout,
    {
        self.recv_timeout
    }

    pub fn get_reuse_addr(&self) -> (flag: bool)
        ensures
            flag == self@.reuse_addr,
    {
        self.reuse_addr
    }

    pub fn get_dont_route(&self) -> (flag: bool)
        ensures
            flag == self@.dont_route,
    {
        self.dont_route
    }

    pub fn get_send_buf_size(&self) -> (size: u64)
        ensures
            size == self@.send_buf_size,
    {
        self.send_buf_size
    }

    pub fn get_recv_buf_size(&self) -> (size: u64)
        ensures
            size == self@.recv_buf_size,
    {
        self.recv_buf_size
    }

    pub fn get_congestion(&self) -> (congestion: String)
        ensures
            congestion@ == self@.congestion,
    {
        self.congestion.clone()
    }

    pub fn set_recv_timeout(&mut self, val: Option<TimeVal>)
        ensures
            final(self)@ == (SocketState { recv_timeout: val, ..old(self)@ }),
    {
        proof {
            use_type_invariant(&*self);
        }
        self.recv_timeout = val;
    }

    pub fn set_reuse_addr(&mut self, flag: bool)
        ensures
            final(self)@ == (SocketState { reuse_addr: flag, ..old(self)@ }),
    {
        proof {
            use_type_invariant(&*self);
        }
        self.reuse_addr = flag;
    }

    pub fn set_send_buf_size(&mut self, size: u64)
        ensures
            final(self)@ == (SocketState { send_buf_size: size, ..old(self)@ }),
    {
        proof {
            use_type_invariant(&*self);
        }
        self.send_buf_size = size;
    }

    pub fn set_recv_buf_size(&mut self, size: u64)
        ensures
            final(self)@ == (SocketState { recv_buf_size: size, ..old(self)@ }),
    {
        proof {
            use_type_invariant(&*self);
        }
        self.recv_buf_size = size;
    }

    pub fn set_congestion(&mut self, congestion: String)
        ensures
            final(self)@ == (SocketState { congestion: congestion@, ..old(self)@ }),
    {
        proof {
            use_type_invariant(&*self);
        }
        self.congestion = congestion;
    }

    /// Marks the socket to be closed when another program is executed.
    pub fn set_close_exec(&mut self)
        ensures
            final(self)@ == (SocketState { close_exec: true, ..old(self)@ }),
    {
        proof {
            use_type_invariant(&*self);
        }
        self.close_exec = true;
    }

    pub fn set_nonblocking(&self, nonblocking: bool) -> (call: NetCall)
        ensures
            call == self@.call(
                TcpOp::SetNonblocking(nonblocking),
                UdpOp::SetNonblocking(nonblocking),
            ),
    {
        match self.inner {
            SocketInner::Tcp => NetCall::Tcp(TcpOp::SetNonblocking(nonblocking)),
            SocketInner::Udp => NetCall::Udp(UdpOp::SetNonblocking(nonblocking)),
        }
    }

    pub fn is_nonblocking(&self) -> (call: NetCall)
        ensures
            call == self@.call(TcpOp::IsNonblocking, UdpOp::IsNonblocking),
    {
        match self.inner {
            SocketInner::Tcp => NetCall::Tcp(TcpOp::IsNonblocking),
            SocketInner::Udp => NetCall::Udp(UdpOp::IsNonblocking),
        }
    }

    /// Socket may send or recv.
    pub fn is_connected(&self) -> (call: NetCall)
        ensures
            call == self@.call(TcpOp::IsConnected, UdpOp::IsOpen),
    {
        match self.inner {
            SocketInner::Tcp => NetCall::Tcp(TcpOp::IsConnected),
            SocketInner::Udp => NetCall::Udp(UdpOp::IsOpen),
        }
    }

    /// Return bound address.
    pub fn name(&self) -> (call: NetCall)
        ensures
            call == self@.call(TcpOp::LocalAddr, UdpOp::LocalAddr),
    {
        match self.inner {
            SocketInner::Tcp => NetCall::Tcp(TcpOp::LocalAddr),
            SocketInner::Udp => NetCall::Udp(UdpOp::LocalAddr),
        }
    }

    /// Return peer address.
    pub fn peer_name(&self) -> (call: NetCall)
        ensures
            call == self@.call(TcpOp::PeerAddr, UdpOp::PeerAddr),
    {
        match self.inner {
            SocketInner::Tcp => NetCall::Tcp(TcpOp::PeerAddr),
            SocketInner::Udp => NetCall::Udp(UdpOp::PeerAddr),
        }
    }

    pub fn bind(&self, addr: SocketAddr) -> (call: NetCall)
        ensures
            call == self@.call(TcpOp::Bind(addr), UdpOp::Bind(addr)),
    {
        match self.inner {
            SocketInner::Tcp => NetCall::Tcp(TcpOp::Bind(addr)),
            SocketInner::Udp => NetCall::Udp(UdpOp::Bind(addr)),
        }
    }

    /// Listen to the bound address.
    ///
    /// Only support socket with type SOCK_STREAM or SOCK_SEQPACKET
    ///
    /// Err(Unsupported): EOPNOTSUPP
    pub fn listen(&self) -> (call: Result<NetCall, NetError>)
        ensures
            call == self@.listen(),
    {
        proof {
            use_type_invariant(self);
        }
        if self.socket_type != SocketType::SOCK_STREAM && self.socket_type
            != SocketType::SOCK_SEQPACKET {
            return Err(NetError::Unsupported);
        }
        match self.inner {
            SocketInner::Tcp => Ok(NetCall::Tcp(TcpOp::Listen)),
            SocketInner::Udp => Err(NetError::Unsupported),
        }
    }

    pub fn connect(&self, addr: SocketAddr) -> (call: NetCall)
        ensures
            call == self@.call(TcpOp::Connect(addr), UdpOp::Connect(addr)),
    {
        match self.inner {
            SocketInner::Tcp => NetCall::Tcp(TcpOp::Connect(addr)),
            SocketInner::Udp => NetCall::Udp(UdpOp::Connect(addr)),
        }
    }

    /// Whether the socket is bound, where `local` is what asking for its bound
    /// address (see [`Socket::name`]) gave.
    pub fn is_bound(&self, local: Result<SocketAddr, NetError>) -> (bound: bool)
        ensures
            bound == (local is Ok),
    {
        local.is_ok()
    }

    /// The operation that sends to `addr`; a connection sends to its peer.
    pub fn sendto(&self, addr: SocketAddr) -> (call: NetCall)
        ensures
            call == self@.call(TcpOp::Send, UdpOp::SendTo(addr)),
    {
        match self.inner {
            SocketInner::Tcp => NetCall::Tcp(TcpOp::Send),
            SocketInner::Udp => NetCall::Udp(UdpOp::SendTo(addr)),
        }
    }

    /// For shutdown(fd, SHUT_WR)
    pub fn shutdown(&self) -> (call: NetCall)
        ensures
            call == self@.call(TcpOp::Close, UdpOp::Shutdown),
    {
        match self.inner {
            SocketInner::Udp => NetCall::Udp(UdpOp::Shutdown),
            SocketInner::Tcp => NetCall::Tcp(TcpOp::Close),
        }
    }

    /// For shutdown(fd, SHUT_RDWR)
    pub fn abort(&self) -> (call: NetCall)
        ensures
            call == self@.call(TcpOp::Abort, UdpOp::Shutdown),
    {
        match self.inner {
            SocketInner::Udp => NetCall::Udp(UdpOp::Shutdown),
            SocketInner::Tcp => NetCall::Tcp(TcpOp::Abort),
        }
    }

    pub fn read(&self) -> (call: NetCall)
        ensures
            call == self@.call(TcpOp::Read, UdpOp::Read),
    {
        match self.inner {
            SocketInner::Tcp => NetCall::Tcp(TcpOp::Read),
            SocketInner::Udp => NetCall::Udp(UdpOp::Read),
        }
    }

    pub fn write(&self) -> (call: NetCall)
        ensures
            call == self@.call(TcpOp::Write, UdpOp::Write),
    {
        match self.inner {
            SocketInner::Tcp => NetCall::Tcp(TcpOp::Write),
            SocketInner::Udp => NetCall::Udp(UdpOp::Write),
        }
    }

    /// A socket cannot be flushed.
    pub fn flush(&self) -> (result: Result<(), NetError>)
        ensures
            result == Err::<(), NetError>(NetError::Unsupported),
    {
        Err(NetError::Unsupported)
    }

    /// The operation that polls the socket.
    pub fn poll(&self) -> (call: NetCall)
        ensures
            call == self@.call(TcpOp::Poll, UdpOp::Poll),
    {
        match self.inner {
            SocketInner::Tcp => NetCall::Tcp(TcpOp::Poll),
            SocketInner::Udp => NetCall::Udp(UdpOp::Poll),
        }
    }

    /// Whether there is something to read, where `polled` is what polling the
    /// socket (see [`Socket::poll`]) gave.
    pub fn readable(&self, polled: Result<PollState, NetError>) -> (readable: bool)
        ensures
            readable == (polled matches Ok(state) && state.readable),
    {
        match polled {
            Ok(state) => state.readable,
            Err(_) => false,
        }
    }

    /// Whether something can be written, where `polled` is what polling the
    /// socket (see [`Socket::poll`]) gave.
    pub fn writable(&self, polled: Result<PollState, NetError>) -> (writable: bool)
        ensures
            writable == (polled matches Ok(state) && state.writable),
    {
        match polled {
            Ok(state) => state.writable,
            Err(_) => false,
        }
    }

    /// The same as [`Socket::readable`].
    pub fn ready_to_read(&self, polled: Result<PollState, NetError>) -> (ready: bool)
        ensures
            ready == (polled matches Ok(state) && state.readable),
    {
        self.readable(polled)
    }

    /// The same as [`Socket::writable`].
    pub fn ready_to_write(&self, polled: Result<PollState, NetError>) -> (ready: bool)
        ensures
            ready == (polled matches Ok(state) && state.writable),
    {
        self.writable(polled)
    }

    /// A socket is no program.
    pub fn executable(&self) -> (executable: bool)
        ensures
            !executable,
    {
        false
    }

    /// The status of the socket as a file, where `nonblocking` is what asking it
    /// whether it blocks (see [`Socket::is_nonblocking`]) gave.
    pub fn get_status(&self, nonblocking: bool) -> (flags: OpenFlags)
        ensures
            flags == (OpenFlags { close_exec: self@.close_exec, non_block: nonblocking }),
    {
        OpenFlags { close_exec: self.close_exec, non_block: nonblocking }
    }

    /// Sets the status of the socket as a file, of which only whether it blocks can
    /// be set: the operation that does it, and whether the status can be set.
    pub fn set_status(&self, flags: OpenFlags) -> (result: (NetCall, bool))
        ensures
            result.0 == self@.call(
                TcpOp::SetNonblocking(flags.non_block),
                UdpOp::SetNonblocking(flags.non_block),
            ),
            result.1,
    {
        (self.set_nonblocking(flags.non_block), true)
    }
}

} // verus!
