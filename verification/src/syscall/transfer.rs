//! Sending and receiving: `sendto` and `recvfrom`.
use vstd::prelude::*;

use crate::addr::{any_address, unspecified_address, SocketAddr};
use crate::dialogue::{outcome, requests, Dialogue, FileRef, Reply, Request, Step};
use crate::errno::{ErrorNo, NetError, FAILURE};
use crate::net::{NetCall, SocketInner, TcpOp, UdpOp};

verus! {

/// `sendto`, stopped at a request.
#[derive(Clone, Copy, PartialEq, Eq, Debug)]
pub enum SendTo {
    /// The file descriptor is looked up.
    LookingUp { fd: usize, buf: usize, len: usize, addr: usize, addr_len: usize },
    /// The bytes to send are checked.
    CheckingBuf { inner: SocketInner, buf: usize, len: usize, addr: usize, addr_len: usize },
    /// The memory of the address to send to is checked.
    CheckingAddr { inner: SocketInner, buf: usize, len: usize, addr: usize, addr_len: usize },
    /// The address to send to is read.
    ReadingAddr { inner: SocketInner, buf: usize, len: usize, addr: usize },
    /// A datagram socket tells whether it is bound.
    FindingLocal { buf: usize, len: usize, target: Option<SocketAddr> },
    /// A datagram socket is bound.
    Binding { buf: usize, len: usize, target: Option<SocketAddr> },
    /// A datagram socket tells whether it has a peer.
    FindingPeer { buf: usize, len: usize },
    /// A connection tells whether it is established.
    FindingConnection { buf: usize, len: usize },
    /// The bytes are sent.
    Sending { call: NetCall, buf: usize, len: usize },
}

impl SendTo {
    /// How sending goes on once the address to send to is known, if there is one.
    pub open spec fn addressed(
        inner: SocketInner,
        buf: usize,
        len: usize,
        target: Option<SocketAddr>,
    ) -> Step<SendTo, isize> {
        match inner {
            SocketInner::Udp => Step::Ask(SendTo::FindingLocal { buf, len, target }),
            SocketInner::Tcp => match target {
                Some(_) => Step::Return(ErrorNo::EISCONN.code()),
                None => Step::Ask(SendTo::FindingConnection { buf, len }),
            },
        }
    }

    /// How a bound datagram socket goes on.
    pub open spec fn bound(buf: usize, len: usize, target: Option<SocketAddr>) -> Step<
        SendTo,
        isize,
    > {
        match target {
            Some(addr) => Step::Ask(
                SendTo::Sending { call: NetCall::Udp(UdpOp::SendTo(addr)), buf, len },
            ),
            None => Step::Ask(SendTo::FindingPeer { buf, len }),
        }
    }

    fn go_addressed(
        inner: SocketInner,
        buf: usize,
        len: usize,
        target: Option<SocketAddr>,
    ) -> (step: Step<SendTo, isize>)
        ensures
            step == SendTo::addressed(inner, buf, len, target),
    {
        match inner {
            SocketInner::Udp => Step::Ask(SendTo::FindingLocal { buf, len, target }),
            SocketInner::Tcp => match target {
                Some(_) => Step::Return(ErrorNo::EISCONN.code()),
                None => Step::Ask(SendTo::FindingConnection { buf, len }),
            },
        }
    }

    fn go_bound(buf: usize, len: usize, target: Option<SocketAddr>) -> (step: Step<SendTo, isize>)
        ensures
            step == SendTo::bound(buf, len, target),
    {
        match target {
            Some(addr) => Step::Ask(
                SendTo::Sending { call: NetCall::Udp(UdpOp::SendTo(addr)), buf, len },
            ),
            None => Step::Ask(SendTo::FindingPeer { buf, len }),
        }
    }
}

/// What sending results in, given what the network stack says.
pub open spec fn sent_value(sent: Result<usize, NetError>) -> isize {
    match sent {
        Ok(len) => len as isize,
        Err(NetError::Interrupted) => ErrorNo::EINTR.code(),
        Err(_) => FAILURE,
    }
}

impl Dialogue for SendTo {
    type Output = isize;

    open spec fn asks(self) -> Request {
        match self {
            SendTo::LookingUp { fd, .. } => Request::LookUp(fd),
            SendTo::CheckingBuf { buf, len, .. } => Request::CheckRange(
                buf,
                buf.wrapping_add(len),
            ),
            SendTo::CheckingAddr { addr, addr_len, .. } => Request::CheckRange(
                addr,
                addr.wrapping_add(addr_len),
            ),
            SendTo::ReadingAddr { addr, .. } => Request::ReadAddress(addr),
            SendTo::FindingLocal { .. } => Request::Net(NetCall::Udp(UdpOp::LocalAddr)),
            SendTo::Binding { .. } => Request::Net(NetCall::Udp(UdpOp::Bind(any_address()))),
            SendTo::FindingPeer { .. } => Request::Net(NetCall::Udp(UdpOp::PeerAddr)),
            SendTo::FindingConnection { .. } => Request::Net(NetCall::Tcp(TcpOp::IsConnected)),
            SendTo::Sending { call, buf, len } => Request::Send(call, buf, len),
        }
    }

    /// Binding to any address must not fail.
    open spec fn accepts(self, reply: Reply) -> bool {
        match self {
            SendTo::LookingUp { .. } => reply is File,
            SendTo::CheckingBuf { .. } => reply is Usable,
            SendTo::CheckingAddr { .. } => reply is Usable,
            SendTo::ReadingAddr { .. } => reply is Address,
            SendTo::FindingLocal { .. } => reply is Named,
            SendTo::Binding { .. } => reply matches Reply::Outcome(Ok(_)),
            SendTo::FindingPeer { .. } => reply is Named,
            SendTo::FindingConnection { .. } => reply is Flag,
            SendTo::Sending { .. } => reply is Count,
        }
    }

    open spec fn next(self, reply: Reply) -> Step<SendTo, isize> {
        match (self, reply) {
            (SendTo::LookingUp { buf, len, addr, addr_len, .. }, Reply::File(file)) => match file {
                FileRef::Missing => Step::Return(ErrorNo::EBADF.code()),
                FileRef::NotSocket => Step::Return(ErrorNo::ENOTSOCK.code()),
                FileRef::Socket(inner) => if buf == 0 {
                    Step::Return(ErrorNo::EFAULT.code())
                } else {
                    Step::Ask(SendTo::CheckingBuf { inner, buf, len, addr, addr_len })
                },
            },
            (SendTo::CheckingBuf { inner, buf, len, addr, addr_len }, Reply::Usable(usable)) => {
                if !usable {
                    Step::Return(ErrorNo::EFAULT.code())
                } else if addr != 0 && addr_len != 0 {
                    Step::Ask(SendTo::CheckingAddr { inner, buf, len, addr, addr_len })
                } else {
                    SendTo::addressed(inner, buf, len, None)
                }
            },
            (SendTo::CheckingAddr { inner, buf, len, addr, .. }, Reply::Usable(usable)) => {
                if !usable {
                    Step::Return(ErrorNo::EFAULT.code())
                } else {
                    Step::Ask(SendTo::ReadingAddr { inner, buf, len, addr })
                }
            },
            (SendTo::ReadingAddr { inner, buf, len, .. }, Reply::Address(target)) => {
                SendTo::addressed(inner, buf, len, Some(target))
            },
            (SendTo::FindingLocal { buf, len, target }, Reply::Named(local)) => match local {
                Ok(_) => SendTo::bound(buf, len, target),
                Err(_) => Step::Ask(SendTo::Binding { buf, len, target }),
            },
            (SendTo::Binding { buf, len, target }, Reply::Outcome(_)) => {
                SendTo::bound(buf, len, target)
            },
            (SendTo::FindingPeer { buf, len }, Reply::Named(peer)) => match peer {
                Ok(_) => Step::Ask(
                    SendTo::Sending { call: NetCall::Udp(UdpOp::Send), buf, len },
                ),
                Err(_) => Step::Return(ErrorNo::ENOTCONN.code()),
            },
            (SendTo::FindingConnection { buf, len }, Reply::Flag(connected)) => if connected {
                Step::Ask(SendTo::Sending { call: NetCall::Tcp(TcpOp::Send), buf, len })
            } else {
                Step::Return(ErrorNo::ENOTCONN.code())
            },
            (SendTo::Sending { .. }, Reply::Count(sent)) => Step::Return(sent_value(sent)),
            _ => Step::Return(FAILURE),
        }
    }

    open spec fn rank(self) -> nat {
        match self {
            SendTo::LookingUp { .. } => 7,
            SendTo::CheckingBuf { .. } => 6,
            SendTo::CheckingAddr { .. } => 5,
            SendTo::ReadingAddr { .. } => 4,
            SendTo::FindingLocal { .. } => 3,
            SendTo::Binding { .. } => 2,
            SendTo::FindingPeer { .. } => 1,
            SendTo::FindingConnection { .. } => 1,
            SendTo::Sending { .. } => 0,
        }
    }

    proof fn advances(self, reply: Reply) {
    }

    fn request(&self) -> (request: Request) {
        match *self {
            SendTo::LookingUp { fd, .. } => Request::LookUp(fd),
            SendTo::CheckingBuf { buf, len, .. } => Request::CheckRange(
                buf,
                buf.wrapping_add(len),
            ),
            SendTo::CheckingAddr { addr, addr_len, .. } => Request::CheckRange(
                addr,
                addr.wrapping_add(addr_len),
            ),
            SendTo::ReadingAddr { addr, .. } => Request::ReadAddress(addr),
            SendTo::FindingLocal { .. } => Request::Net(NetCall::Udp(UdpOp::LocalAddr)),
            SendTo::Binding { .. } => Request::Net(
                NetCall::Udp(UdpOp::Bind(unspecified_address())),
            ),
            SendTo::FindingPeer { .. } => Request::Net(NetCall::Udp(UdpOp::PeerAddr)),
            SendTo::FindingConnection { .. } => Request::Net(NetCall::Tcp(TcpOp::IsConnected)),
            SendTo::Sending { call, buf, len } => Request::Send(call, buf, len),
        }
    }

    fn admits(&self, reply: &Reply) -> (admitted: bool) {
        match (*self, *reply) {
            (SendTo::LookingUp { .. }, Reply::File(_)) => true,
            (SendTo::CheckingBuf { .. }, Reply::Usable(_)) => true,
            (SendTo::CheckingAddr { .. }, Reply::Usable(_)) => true,
            (SendTo::ReadingAddr { .. }, Reply::Address(_)) => true,
            (SendTo::FindingLocal { .. }, Reply::Named(_)) => true,
            (SendTo::Binding { .. }, Reply::Outcome(Ok(_))) => true,
            (SendTo::FindingPeer { .. }, Reply::Named(_)) => true,
            (SendTo::FindingConnection { .. }, Reply::Flag(_)) => true,
            (SendTo::Sending { .. }, Reply::Count(_)) => true,
            _ => false,
        }
    }

    fn resume(self, reply: Reply) -> (step: Step<SendTo, isize>) {
        match (self, reply) {
            (SendTo::LookingUp { buf, len, addr, addr_len, .. }, Reply::File(file)) => match file {
                FileRef::Missing => Step::Return(ErrorNo::EBADF.code()),
                FileRef::NotSocket => Step::Return(ErrorNo::ENOTSOCK.code()),
                FileRef::Socket(inner) => if buf == 0 {
                    Step::Return(ErrorNo::EFAULT.code())
                } else {
                    Step::Ask(SendTo::CheckingBuf { inner, buf, len, addr, addr_len })
                },
            },
            (SendTo::CheckingBuf { inner, buf, len, addr, addr_len }, Reply::Usable(usable)) => {
                if !usable {
                    Step::Return(ErrorNo::EFAULT.code())
                } else if addr != 0 && addr_len != 0 {
                    Step::Ask(SendTo::CheckingAddr { inner, buf, len, addr, addr_len })
                } else {
                    SendTo::go_addressed(inner, buf, len, None)
                }
            },
            (SendTo::CheckingAddr { inner, buf, len, addr, .. }, Reply::Usable(usable)) => {
                if !usable {
                    Step::Return(ErrorNo::EFAULT.code())
                } else {
                    Step::Ask(SendTo::ReadingAddr { inner, buf, len, addr })
                }
            },
            (SendTo::ReadingAddr { inner, buf, len, .. }, Reply::Address(target)) => {
                SendTo::go_addressed(inner, buf, len, Some(target))
            },
            (SendTo::FindingLocal { buf, len, target }, Reply::Named(local)) => match local {
                Ok(_) => SendTo::go_bound(buf, len, target),
                Err(_) => Step::Ask(SendTo::Binding { buf, len, target }),
            },
            (SendTo::Binding { buf, len, target }, Reply::Outcome(_)) => {
                SendTo::go_bound(buf, len, target)
            },
            (SendTo::FindingPeer { buf, len }, Reply::Named(peer)) => match peer {
                Ok(_) => Step::Ask(
                    SendTo::Sending { call: NetCall::Udp(UdpOp::Send), buf, len },
                ),
                Err(_) => Step::Return(ErrorNo::ENOTCONN.code()),
            },
            (SendTo::FindingConnection { buf, len }, Reply::Flag(connected)) => if connected {
                Step::Ask(SendTo::Sending { call: NetCall::Tcp(TcpOp::Send), buf, len })
            } else {
                Step::Return(ErrorNo::ENOTCONN.code())
            },
            (SendTo::Sending { .. }, Reply::Count(sent)) => match sent {
                Ok(len) => Step::Return(len as isize),
                Err(NetError::Interrupted) => Step::Return(ErrorNo::EINTR.code()),
                Err(_) => Step::Return(FAILURE),
            },
            _ => Step::Return(FAILURE),
        }
    }
}

/// What the outside gives, while `sendto` runs.
pub struct SendToWorld {
    /// What the file descriptor stands for.
    pub file: FileRef,
    /// Whether the bytes to send can be used.
    pub buf_usable: bool,
    /// Whether the memory of the address to send to can be used.
    pub addr_usable: bool,
    /// The address to send to.
    pub target: SocketAddr,
    /// The address that the socket is bound to.
    pub local: Result<SocketAddr, NetError>,
    /// The address of the socket's peer.
    pub peer: Result<SocketAddr, NetError>,
    /// Whether the connection is established.
    pub connected: bool,
    /// What sending gives.
    pub sent: Result<usize, NetError>,
}

impl SendToWorld {
    /// The reply that each request gets.
    pub open spec fn reply(self, dialogue: SendTo) -> Reply {
        match dialogue {
            SendTo::LookingUp { .. } => Reply::File(self.file),
            SendTo::CheckingBuf { .. } => Reply::Usable(self.buf_usable),
            SendTo::CheckingAddr { .. } => Reply::Usable(self.addr_usable),
            SendTo::ReadingAddr { .. } => Reply::Address(self.target),
            SendTo::FindingLocal { .. } => Reply::Named(self.local),
            SendTo::Binding { .. } => Reply::Outcome(Ok(())),
            SendTo::FindingPeer { .. } => Reply::Named(self.peer),
            SendTo::FindingConnection { .. } => Reply::Flag(self.connected),
            SendTo::Sending { .. } => Reply::Count(self.sent),
        }
    }

    /// What the call results in from `step` on.
    pub open spec fn result(self, step: Step<SendTo, isize>) -> isize {
        outcome(step, |dialogue: SendTo| self.reply(dialogue))
    }

    /// What the call asks for from `step` on.
    pub open spec fn requests(self, step: Step<SendTo, isize>) -> Seq<Request> {
        requests(step, |dialogue: SendTo| self.reply(dialogue))
    }

    /// Why `sendto` does not send, if it does not.
    pub open spec fn refusal(self, buf: usize, addressed: bool) -> Option<ErrorNo> {
        match self.file {
            FileRef::Missing => Some(ErrorNo::EBADF),
            FileRef::NotSocket => Some(ErrorNo::ENOTSOCK),
            FileRef::Socket(inner) => if buf == 0 || !self.buf_usable || (addressed
                && !self.addr_usable) {
                Some(ErrorNo::EFAULT)
            } else if inner == SocketInner::Tcp && addressed {
                Some(ErrorNo::EISCONN)
            } else if inner == SocketInner::Tcp && !self.connected {
                Some(ErrorNo::ENOTCONN)
            } else if inner == SocketInner::Udp && !addressed && self.peer is Err {
                Some(ErrorNo::ENOTCONN)
            } else {
                None
            },
        }
    }
}

/// Whether the arguments of a call say that there is an address to send to.
pub open spec fn has_target(addr: usize, addr_len: usize) -> bool {
    addr != 0 && addr_len != 0
}

/// Sends the `len` bytes at `buf`, to the socket address at `addr` if `addr_len`
/// says that there is one, and to the socket's peer otherwise.
///
/// Calling sendto() will bind the socket if it's not bound.
pub fn syscall_sendto(
    fd: usize,
    buf: usize,
    len: usize,
    _flags: usize,
    addr: usize,
    addr_len: usize,
) -> (step: Step<SendTo, isize>)
    ensures
        step == Step::<SendTo, isize>::Ask(SendTo::LookingUp { fd, buf, len, addr, addr_len }),
        forall|world: SendToWorld| #[trigger]
            world.result(step) == match world.refusal(buf, has_target(addr, addr_len)) {
                Some(error) => error.code(),
                None => sent_value(world.sent),
            },
{
    proof {
        assert forall|world: SendToWorld| #[trigger]
            world.result(
                Step::<SendTo, isize>::Ask(SendTo::LookingUp { fd, buf, len, addr, addr_len }),
            ) == match world.refusal(buf, has_target(addr, addr_len)) {
                Some(error) => error.code(),
                None => sent_value(world.sent),
            } by {
            reveal_with_fuel(outcome, 9);
        }
    }
    Step::Ask(SendTo::LookingUp { fd, buf, len, addr, addr_len })
}

/// Law: `sendto` sends the bytes that it was told to, once and last, after their
/// memory was found usable, if nothing keeps it from sending; an unbound datagram
/// socket is bound to any address before it sends. If something keeps it from
/// sending, nothing is sent.
pub proof fn sendto_sends_once(
    fd: usize,
    buf: usize,
    len: usize,
    addr: usize,
    addr_len: usize,
    world: SendToWorld,
)
    ensures
        ({
            let asked = world.requests(
                Step::<SendTo, isize>::Ask(SendTo::LookingUp { fd, buf, len, addr, addr_len }),
            );
            let opening = seq![
                Request::LookUp(fd),
                Request::CheckRange(buf, buf.wrapping_add(len)),
            ];
            let binding = if world.local is Ok {
                seq![Request::Net(NetCall::Udp(UdpOp::LocalAddr))]
            } else {
                seq![
                    Request::Net(NetCall::Udp(UdpOp::LocalAddr)),
                    Request::Net(NetCall::Udp(UdpOp::Bind(any_address()))),
                ]
            };
            match world.refusal(buf, has_target(addr, addr_len)) {
                Some(_) => forall|i: int|
                    0 <= i < asked.len() ==> !((#[trigger] asked[i]) is Send),
                None => if world.file == FileRef::Socket(SocketInner::Tcp) {
                    asked == opening + seq![
                        Request::Net(NetCall::Tcp(TcpOp::IsConnected)),
                        Request::Send(NetCall::Tcp(TcpOp::Send), buf, len),
                    ]
                } else if has_target(addr, addr_len) {
                    asked == opening + seq![
                        Request::CheckRange(addr, addr.wrapping_add(addr_len)),
                        Request::ReadAddress(addr),
                    ] + binding + seq![
                        Request::Send(NetCall::Udp(UdpOp::SendTo(world.target)), buf, len),
                    ]
                } else {
                    asked == opening + binding + seq![
                        Request::Net(NetCall::Udp(UdpOp::PeerAddr)),
                        Request::Send(NetCall::Udp(UdpOp::Send), buf, len),
                    ]
                },
            }
        }),
{
    reveal_with_fuel(requests, 9);
}

/// `recvfrom`, stopped at a request.
#[derive(Clone, Copy, PartialEq, Eq, Debug)]
pub enum RecvFrom {
    /// The file descriptor is looked up.
    LookingUp { fd: usize, buf: usize, len: usize, addr_buf: usize, addr_len: usize },
    /// The memory of the room for the sender's address is checked.
    CheckingLen { buf: usize, len: usize, addr_buf: usize, addr_len: usize },
    /// The room for the sender's address is read.
    ReadingLen { buf: usize, len: usize, addr_buf: usize, addr_len: usize },
    /// The memory for the sender's address is checked.
    CheckingBuf { buf: usize, len: usize, addr_buf: usize, addr_len: usize, room: u32 },
    /// Bytes are received.
    Receiving { buf: usize, len: usize, addr_buf: usize, addr_len: usize },
    /// The sender's address is written.
    Writing { received: usize, sender: SocketAddr, addr_buf: usize, addr_len: usize },
}

/// What receiving results in, given what the network stack says.
pub open spec fn received_value(received: Result<(usize, SocketAddr), NetError>) -> isize {
    match received {
        Ok((len, _)) => len as isize,
        Err(NetError::ConnectionRefused) => 0,
        Err(NetError::Interrupted) => ErrorNo::EINTR.code(),
        Err(NetError::Timeout) => ErrorNo::EAGAIN.code(),
        Err(NetError::WouldBlock) => ErrorNo::EAGAIN.code(),
        Err(_) => FAILURE,
    }
}

impl Dialogue for RecvFrom {
    type Output = isize;

    open spec fn asks(self) -> Request {
        match self {
            RecvFrom::LookingUp { fd, .. } => Request::LookUp(fd),
            RecvFrom::CheckingLen { addr_len, .. } => Request::CheckAddress(addr_len),
            RecvFrom::ReadingLen { addr_len, .. } => Request::ReadWord(addr_len),
            RecvFrom::CheckingBuf { addr_buf, room, .. } => Request::CheckRange(
                addr_buf,
                addr_buf.wrapping_add(room as usize),
            ),
            RecvFrom::Receiving { buf, len, .. } => Request::Receive(buf, len),
            RecvFrom::Writing { sender, addr_buf, addr_len, .. } => Request::WriteAddress(
                sender,
                addr_buf,
                addr_len,
            ),
        }
    }

    open spec fn accepts(self, reply: Reply) -> bool {
        match self {
            RecvFrom::LookingUp { .. } => reply is File,
            RecvFrom::CheckingLen { .. } => reply is Usable,
            RecvFrom::ReadingLen { .. } => reply is Word,
            RecvFrom::CheckingBuf { .. } => reply is Usable,
            RecvFrom::Receiving { .. } => reply is Received,
            RecvFrom::Writing { .. } => reply is Done,
        }
    }

    open spec fn next(self, reply: Reply) -> Step<RecvFrom, isize> {
        match (self, reply) {
            (RecvFrom::LookingUp { buf, len, addr_buf, addr_len, .. }, Reply::File(file)) => {
                match file {
                    FileRef::Missing => Step::Return(ErrorNo::EBADF.code()),
                    FileRef::NotSocket => Step::Return(ErrorNo::ENOTSOCK.code()),
                    FileRef::Socket(_) => if addr_len != 0 {
                        Step::Ask(RecvFrom::CheckingLen { buf, len, addr_buf, addr_len })
                    } else {
                        Step::Ask(RecvFrom::Receiving { buf, len, addr_buf, addr_len })
                    },
                }
            },
            (RecvFrom::CheckingLen { buf, len, addr_buf, addr_len }, Reply::Usable(usable)) => {
                if !usable {
                    Step::Return(ErrorNo::EFAULT.code())
                } else if addr_buf != 0 {
                    Step::Ask(RecvFrom::ReadingLen { buf, len, addr_buf, addr_len })
                } else {
                    Step::Ask(RecvFrom::Receiving { buf, len, addr_buf, addr_len })
                }
            },
            (RecvFrom::ReadingLen { buf, len, addr_buf, addr_len }, Reply::Word(room)) => {
                Step::Ask(RecvFrom::CheckingBuf { buf, len, addr_buf, addr_len, room })
            },
            (
                RecvFrom::CheckingBuf { buf, len, addr_buf, addr_len, .. },
                Reply::Usable(usable),
            ) => if !usable {
                Step::Return(ErrorNo::EFAULT.code())
            } else {
                Step::Ask(RecvFrom::Receiving { buf, len, addr_buf, addr_len })
            },
            (RecvFrom::Receiving { addr_buf, addr_len, .. }, Reply::Received(result)) => {
                match result {
                    Ok((received, sender)) => if addr_buf != 0 && addr_len != 0 {
                        Step::Ask(RecvFrom::Writing { received, sender, addr_buf, addr_len })
                    } else {
                        Step::Return(received as isize)
                    },
                    Err(NetError::ConnectionRefused) => Step::Return(0),
                    Err(NetError::Interrupted) => Step::Return(ErrorNo::EINTR.code()),
                    Err(NetError::Timeout) => Step::Return(ErrorNo::EAGAIN.code()),
                    Err(NetError::WouldBlock) => Step::Return(ErrorNo::EAGAIN.code()),
                    Err(_) => Step::Return(FAILURE),
                }
            },
            (RecvFrom::Writing { received, .. }, Reply::Done) => Step::Return(received as isize),
            _ => Step::Return(FAILURE),
        }
    }

    open spec fn rank(self) -> nat {
        match self {
            RecvFrom::LookingUp { .. } => 5,
            RecvFrom::CheckingLen { .. } => 4,
            RecvFrom::ReadingLen { .. } => 3,
            RecvFrom::CheckingBuf { .. } => 2,
            RecvFrom::Receiving { .. } => 1,
            RecvFrom::Writing { .. } => 0,
        }
    }

    proof fn advances(self, reply: Reply) {
    }

    fn request(&self) -> (request: Request) {
        match *self {
            RecvFrom::LookingUp { fd, .. } => Request::LookUp(fd),
            RecvFrom::CheckingLen { addr_len, .. } => Request::CheckAddress(addr_len),
            RecvFrom::ReadingLen { addr_len, .. } => Request::ReadWord(addr_len),
            RecvFrom::CheckingBuf { addr_buf, room, .. } => Request::CheckRange(
                addr_buf,
                addr_buf.wrapping_add(room as usize),
            ),
            RecvFrom::Receiving { buf, len, .. } => Request::Receive(buf, len),
            RecvFrom::Writing { sender, addr_buf, addr_len, .. } => Request::WriteAddress(
                sender,
                addr_buf,
                addr_len,
            ),
        }
    }

    fn admits(&self, reply: &Reply) -> (admitted: bool) {
        match (*self, *reply) {
            (RecvFrom::LookingUp { .. }, Reply::File(_)) => true,
            (RecvFrom::CheckingLen { .. }, Reply::Usable(_)) => true,
            (RecvFrom::ReadingLen { .. }, Reply::Word(_)) => true,
            (RecvFrom::CheckingBuf { .. }, Reply::Usable(_)) => true,
            (RecvFrom::Receiving { .. }, Reply::Received(_)) => true,
            (RecvFrom::Writing { .. }, Reply::Done) => true,
            _ => false,
        }
    }

    fn resume(self, reply: Reply) -> (step: Step<RecvFrom, isize>) {
        match (self, reply) {
            (RecvFrom::LookingUp { buf, len, addr_buf, addr_len, .. }, Reply::File(file)) => {
                match file {
                    FileRef::Missing => Step::Return(ErrorNo::EBADF.code()),
                    FileRef::NotSocket => Step::Return(ErrorNo::ENOTSOCK.code()),
                    FileRef::Socket(_) => if addr_len != 0 {
                        Step::Ask(RecvFrom::CheckingLen { buf, len, addr_buf, addr_len })
                    } else {
                        Step::Ask(RecvFrom::Receiving { buf, len, addr_buf, addr_len })
                    },
                }
            },
            (RecvFrom::CheckingLen { buf, len, addr_buf, addr_len }, Reply::Usable(usable)) => {
                if !usable {
                    Step::Return(ErrorNo::EFAULT.code())
                } else if addr_buf != 0 {
                    Step::Ask(RecvFrom::ReadingLen { buf, len, addr_buf, addr_len })
                } else {
                    Step::Ask(RecvFrom::Receiving { buf, len, addr_buf, addr_len })
                }
            },
            (RecvFrom::ReadingLen { buf, len, addr_buf, addr_len }, Reply::Word(room)) => {
                Step::Ask(RecvFrom::CheckingBuf { buf, len, addr_buf, addr_len, room })
            },
            (
                RecvFrom::CheckingBuf { buf, len, addr_buf, addr_len, .. },
                Reply::Usable(usable),
            ) => if !usable {
                Step::Return(ErrorNo::EFAULT.code())
            } else {
                Step::Ask(RecvFrom::Receiving { buf, len, addr_buf, addr_len })
            },
            (RecvFrom::Receiving { addr_buf, addr_len, .. }, Reply::Received(result)) => {
                match result {
                    Ok((received, sender)) => if addr_buf != 0 && addr_len != 0 {
                        Step::Ask(RecvFrom::Writing { received, sender, addr_buf, addr_len })
                    } else {
                        Step::Return(received as isize)
                    },
                    Err(NetError::ConnectionRefused) => Step::Return(0),
                    Err(NetError::Interrupted) => Step::Return(ErrorNo::EINTR.code()),
                    Err(NetError::Timeout) => Step::Return(ErrorNo::EAGAIN.code()),
                    Err(NetError::WouldBlock) => Step::Return(ErrorNo::EAGAIN.code()),
                    Err(_) => Step::Return(FAILURE),
                }
            },
            (RecvFrom::Writing { received, .. }, Reply::Done) => Step::Return(received as isize),
            _ => Step::Return(FAILURE),
        }
    }
}

/// What the outside gives, while `recvfrom` runs.
pub struct RecvFromWorld {
    /// What the file descriptor stands for.
    pub file: FileRef,
    /// Whether the memory of the room for the sender's address can be used.
    pub len_usable: bool,
    /// The room for the sender's address.
    pub room: u32,
    /// Whether the memory for the sender's address can be used.
    pub addr_usable: bool,
    /// What receiving gives.
    pub received: Result<(usize, SocketAddr), NetError>,
}

impl RecvFromWorld {
    /// The reply that each request gets.
    pub open spec fn reply(self, dialogue: RecvFrom) -> Reply {
        match dialogue {
            RecvFrom::LookingUp { .. } => Reply::File(self.file),
            RecvFrom::CheckingLen { .. } => Reply::Usable(self.len_usable),
            RecvFrom::ReadingLen { .. } => Reply::Word(self.room),
            RecvFrom::CheckingBuf { .. } => Reply::Usable(self.addr_usable),
            RecvFrom::Receiving { .. } => Reply::Received(self.received),
            RecvFrom::Writing { .. } => Reply::Done,
        }
    }

    /// What the call results in from `step` on.
    pub open spec fn result(self, step: Step<RecvFrom, isize>) -> isize {
        outcome(step, |dialogue: RecvFrom| self.reply(dialogue))
    }

    /// What the call asks for from `step` on.
    pub open spec fn requests(self, step: Step<RecvFrom, isize>) -> Seq<Request> {
        requests(step, |dialogue: RecvFrom| self.reply(dialogue))
    }

    /// Why `recvfrom` does not receive, if it does not.
    pub open spec fn refusal(self, addr_buf: usize, addr_len: usize) -> Option<ErrorNo> {
        match self.file {
            FileRef::Missing => Some(ErrorNo::EBADF),
            FileRef::NotSocket => Some(ErrorNo::ENOTSOCK),
            FileRef::Socket(_) => if addr_len != 0 && (!self.len_usable || (addr_buf != 0
                && !self.addr_usable)) {
                Some(ErrorNo::EFAULT)
            } else {
                None
            },
        }
    }
}

/// Receives up to `len` bytes into the memory at `buf`. Where `addr_buf` and
/// `addr_len` are given, the sender's address is written to `addr_buf`, as far as
/// the word at `addr_len` says there is room, and that word is set to its length.
pub fn syscall_recvfrom(
    fd: usize,
    buf: usize,
    len: usize,
    _flags: usize,
    addr_buf: usize,
    addr_len: usize,
) -> (step: Step<RecvFrom, isize>)
    ensures
        step == Step::<RecvFrom, isize>::Ask(
            RecvFrom::LookingUp { fd, buf, len, addr_buf, addr_len },
        ),
        forall|world: RecvFromWorld| #[trigger]
            world.result(step) == match world.refusal(addr_buf, addr_len) {
                Some(error) => error.code(),
                None => received_value(world.received),
            },
{
    proof {
        assert forall|world: RecvFromWorld| #[trigger]
            world.result(
                Step::<RecvFrom, isize>::Ask(
                    RecvFrom::LookingUp { fd, buf, len, addr_buf, addr_len },
                ),
            ) == match world.refusal(addr_buf, addr_len) {
                Some(error) => error.code(),
                None => received_value(world.received),
            } by {
            reveal_with_fuel(outcome, 7);
        }
    }
    Step::Ask(RecvFrom::LookingUp { fd, buf, len, addr_buf, addr_len })
}

/// Law: `recvfrom` receives once, into the memory that it was told to, if nothing
/// keeps it from receiving, and not at all otherwise. It writes the sender's
/// address only after it received, only where it was told to, and only after all
/// of the room there was found usable.
pub proof fn recvfrom_receives_once(
    fd: usize,
    buf: usize,
    len: usize,
    addr_buf: usize,
    addr_len: usize,
    world: RecvFromWorld,
)
    ensures
        ({
            let asked = world.requests(
                Step::<RecvFrom, isize>::Ask(
                    RecvFrom::LookingUp { fd, buf, len, addr_buf, addr_len },
                ),
            );
            let checks = if addr_len == 0 {
                seq![Request::LookUp(fd)]
            } else if addr_buf == 0 {
                seq![Request::LookUp(fd), Request::CheckAddress(addr_len)]
            } else {
                seq![
                    Request::LookUp(fd),
                    Request::CheckAddress(addr_len),
                    Request::ReadWord(addr_len),
                    Request::CheckRange(addr_buf, addr_buf.wrapping_add(world.room as usize)),
                ]
            };
            match world.refusal(addr_buf, addr_len) {
                Some(_) => asked.is_prefix_of(checks),
                None => if addr_buf != 0 && addr_len != 0 && world.received is Ok {
                    asked == checks + seq![
                        Request::Receive(buf, len),
                        Request::WriteAddress(world.received->Ok_0.1, addr_buf, addr_len),
                    ]
                } else {
                    asked == checks + seq![Request::Receive(buf, len)]
                },
            }
        }),
{
    reveal_with_fuel(requests, 7);
}

} // verus!
