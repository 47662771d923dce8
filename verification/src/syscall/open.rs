//! Making sockets: `socket` and `accept4`.
use vstd::prelude::*;

use crate::addr::SocketAddr;
use crate::dialogue::{outcome, requests, Dialogue, FileRef, Reply, Request, Step};
use crate::errno::{ErrorNo, NetError, FAILURE};
use crate::kinds::{Domain, SocketType, SOCKET_TYPE_MASK, SOCK_CLOEXEC, SOCK_NONBLOCK};
use crate::socket::protocol_of;

verus! {

/// `socket`, stopped at a request.
#[derive(Clone, Copy, PartialEq, Eq, Structural, Debug)]
pub enum Opening {
    /// The socket is made.
    Making { domain: Domain, socket_type: SocketType, nonblocking: bool, close_exec: bool },
    /// The socket is told not to block.
    Unblocking { close_exec: bool },
    /// A file descriptor is taken.
    Allocating { close_exec: bool },
    /// The socket is put behind the file descriptor.
    Installing { fd: usize, close_exec: bool },
}

impl Dialogue for Opening {
    type Output = isize;

    open spec fn asks(self) -> Request {
        match self {
            Opening::Making { domain, socket_type, .. } => Request::Open(domain, socket_type),
            Opening::Unblocking { .. } => Request::MakeNonblocking,
            Opening::Allocating { .. } => Request::AllocateDescriptor,
            Opening::Installing { fd, close_exec } => Request::Install(fd, close_exec),
        }
    }

    open spec fn accepts(self, reply: Reply) -> bool {
        match self {
            Opening::Making { .. } => reply is Done,
            Opening::Unblocking { .. } => reply is Done,
            Opening::Allocating { .. } => reply is Descriptor,
            Opening::Installing { .. } => reply is Done,
        }
    }

    open spec fn next(self, reply: Reply) -> Step<Opening, isize> {
        match (self, reply) {
            (Opening::Making { nonblocking, close_exec, .. }, Reply::Done) => if nonblocking {
                Step::Ask(Opening::Unblocking { close_exec })
            } else {
                Step::Ask(Opening::Allocating { close_exec })
            },
            (Opening::Unblocking { close_exec }, Reply::Done) => Step::Ask(
                Opening::Allocating { close_exec },
            ),
            (Opening::Allocating { close_exec }, Reply::Descriptor(free)) => match free {
                None => Step::Return(ErrorNo::EMFILE.code()),
                Some(fd) => Step::Ask(Opening::Installing { fd, close_exec }),
            },
            (Opening::Installing { fd, .. }, Reply::Done) => Step::Return(fd as isize),
            _ => Step::Return(FAILURE),
        }
    }

    open spec fn rank(self) -> nat {
        match self {
            Opening::Making { .. } => 3,
            Opening::Unblocking { .. } => 2,
            Opening::Allocating { .. } => 1,
            Opening::Installing { .. } => 0,
        }
    }

    proof fn advances(self, reply: Reply) {
    }

    fn request(&self) -> (request: Request) {
        match *self {
            Opening::Making { domain, socket_type, .. } => Request::Open(domain, socket_type),
            Opening::Unblocking { .. } => Request::MakeNonblocking,
            Opening::Allocating { .. } => Request::AllocateDescriptor,
            Opening::Installing { fd, close_exec } => Request::Install(fd, close_exec),
        }
    }

    fn admits(&self, reply: &Reply) -> (admitted: bool) {
        match (*self, *reply) {
            (Opening::Making { .. }, Reply::Done) => true,
            (Opening::Unblocking { .. }, Reply::Done) => true,
            (Opening::Allocating { .. }, Reply::Descriptor(_)) => true,
            (Opening::Installing { .. }, Reply::Done) => true,
            _ => false,
        }
    }

    fn resume(self, reply: Reply) -> (step: Step<Opening, isize>) {
        match (self, reply) {
            (Opening::Making { nonblocking, close_exec, .. }, Reply::Done) => if nonblocking {
                Step::Ask(Opening::Unblocking { close_exec })
            } else {
                Step::Ask(Opening::Allocating { close_exec })
            },
            (Opening::Unblocking { close_exec }, Reply::Done) => Step::Ask(
                Opening::Allocating { close_exec },
            ),
            (Opening::Allocating { close_exec }, Reply::Descriptor(free)) => match free {
                None => Step::Return(ErrorNo::EMFILE.code()),
                Some(fd) => Step::Ask(Opening::Installing { fd, close_exec }),
            },
            (Opening::Installing { fd, .. }, Reply::Done) => Step::Return(fd as isize),
            _ => Step::Return(FAILURE),
        }
    }
}

/// What the outside gives, while `socket` runs.
pub struct OpenWorld {
    /// The free file descriptor, if there is one.
    pub free: Option<usize>,
}

impl OpenWorld {
    /// The reply that each request gets.
    pub open spec fn reply(self, dialogue: Opening) -> Reply {
        match dialogue {
            Opening::Allocating { .. } => Reply::Descriptor(self.free),
            _ => Reply::Done,
        }
    }

    /// What the call results in from `step` on.
    pub open spec fn result(self, step: Step<Opening, isize>) -> isize {
        outcome(step, |dialogue: Opening| self.reply(dialogue))
    }

    /// What the call asks for from `step` on.
    pub open spec fn requests(self, step: Step<Opening, isize>) -> Seq<Request> {
        requests(step, |dialogue: Opening| self.reply(dialogue))
    }
}

/// The type that the number `s_type` names, beside the flags that it holds.
pub open spec fn type_in(s_type: usize) -> Option<SocketType> {
    SocketType::of_number(s_type & SOCKET_TYPE_MASK)
}

/// How `socket` begins.
pub open spec fn socket_begins(domain: usize, s_type: usize) -> Step<Opening, isize> {
    match (Domain::of_number(domain), type_in(s_type)) {
        (None, _) => Step::Return(ErrorNo::EAFNOSUPPORT.code()),
        (Some(_), None) => Step::Return(ErrorNo::EINVAL.code()),
        (Some(domain), Some(socket_type)) => Step::Ask(
            Opening::Making {
                domain,
                socket_type,
                nonblocking: s_type & SOCK_NONBLOCK != 0,
                close_exec: s_type & SOCK_CLOEXEC != 0,
            },
        ),
    }
}

/// Whether `socket` can be called with these numbers: sockets of a type that is
/// known and has no protocol behind it cannot be made.
pub open spec fn can_be_made(domain: usize, s_type: usize) -> bool {
    match (Domain::of_number(domain), type_in(s_type)) {
        (Some(_), Some(socket_type)) => protocol_of(socket_type) is Some,
        _ => true,
    }
}

/// Whether `socket` can be called with these numbers.
pub fn can_make(domain: usize, s_type: usize) -> (can: bool)
    ensures
        can == can_be_made(domain, s_type),
{
    match (Domain::try_from(domain), SocketType::try_from(s_type & SOCKET_TYPE_MASK)) {
        (Ok(_), Ok(socket_type)) => match socket_type {
            SocketType::SOCK_STREAM => true,
            SocketType::SOCK_SEQPACKET => true,
            SocketType::SOCK_DGRAM => true,
            _ => false,
        },
        _ => true,
    }
}

/// Makes a socket and puts it behind a new file descriptor.
pub fn syscall_socket(domain: usize, s_type: usize, _protocol: usize) -> (step: Step<
    Opening,
    isize,
>)
    requires
        can_be_made(domain, s_type),
    ensures
        step == socket_begins(domain, s_type),
        forall|world: OpenWorld| #[trigger]
            world.result(step) == if Domain::of_number(domain) is None {
                ErrorNo::EAFNOSUPPORT.code()
            } else if type_in(s_type) is None {
                ErrorNo::EINVAL.code()
            } else {
                match world.free {
                    None => ErrorNo::EMFILE.code(),
                    Some(fd) => fd as isize,
                }
            },
{
    let step: Step<Opening, isize> = match Domain::try_from(domain) {
        Err(_) => Step::Return(ErrorNo::EAFNOSUPPORT.code()),
        Ok(domain) => match SocketType::try_from(s_type & SOCKET_TYPE_MASK) {
            Err(_) => Step::Return(ErrorNo::EINVAL.code()),
            Ok(socket_type) => Step::Ask(
                Opening::Making {
                    domain,
                    socket_type,
                    nonblocking: s_type & SOCK_NONBLOCK != 0,
                    close_exec: s_type & SOCK_CLOEXEC != 0,
                },
            ),
        },
    };
    proof {
        assert forall|world: OpenWorld| #[trigger]
            world.result(step) == if Domain::of_number(domain) is None {
                ErrorNo::EAFNOSUPPORT.code()
            } else if type_in(s_type) is None {
                ErrorNo::EINVAL.code()
            } else {
                match world.free {
                    None => ErrorNo::EMFILE.code(),
                    Some(fd) => fd as isize,
                }
            } by {
            reveal_with_fuel(outcome, 6);
        }
    }
    step
}

/// Law: `socket` makes the socket that it was told to, lets it not block if and
/// only if told so, and puts it behind the descriptor that it results in, marked
/// to be closed when another program is executed if and only if told so. Numbers
/// that name no address family or no type make nothing.
pub proof fn socket_makes_what_it_returns(domain: usize, s_type: usize, world: OpenWorld)
    ensures
        world.requests(socket_begins(domain, s_type)) == match (
            Domain::of_number(domain),
            type_in(s_type),
        ) {
            (Some(domain), Some(socket_type)) => seq![Request::Open(domain, socket_type)] + (
            if s_type & SOCK_NONBLOCK != 0 {
                seq![Request::MakeNonblocking, Request::AllocateDescriptor]
            } else {
                seq![Request::AllocateDescriptor]
            }) + (match world.free {
                Some(fd) => seq![Request::Install(fd, s_type & SOCK_CLOEXEC != 0)],
                None => Seq::empty(),
            }),
            _ => Seq::empty(),
        },
{
    reveal_with_fuel(requests, 6);
}

/// `accept4`, stopped at a request.
#[derive(Clone, Copy, PartialEq, Eq, Structural, Debug)]
pub enum Accept4 {
    /// The file descriptor is looked up.
    LookingUp { fd: usize, addr_buf: usize, addr_len: usize, flags: usize },
    /// A connection is accepted.
    Accepting { addr_buf: usize, addr_len: usize, flags: usize },
    /// The address of the peer is written.
    Writing { peer: SocketAddr, addr_buf: usize, addr_len: usize, flags: usize },
    /// A file descriptor is taken.
    Allocating { flags: usize },
    /// The new socket is told not to block.
    Unblocking { fd: usize, flags: usize },
    /// The new socket is put behind the file descriptor.
    Installing { fd: usize, flags: usize },
}

/// What a failure to accept results in.
pub open spec fn accept_failure(error: NetError) -> isize {
    match error {
        NetError::Unsupported => ErrorNo::EOPNOTSUPP.code(),
        NetError::Interrupted => ErrorNo::EINTR.code(),
        NetError::WouldBlock => ErrorNo::EAGAIN.code(),
        _ => FAILURE,
    }
}

impl Dialogue for Accept4 {
    type Output = isize;

    open spec fn asks(self) -> Request {
        match self {
            Accept4::LookingUp { fd, .. } => Request::LookUp(fd),
            Accept4::Accepting { .. } => Request::Accept,
            Accept4::Writing { peer, addr_buf, addr_len, .. } => Request::WriteAddress(
                peer,
                addr_buf,
                addr_len,
            ),
            Accept4::Allocating { .. } => Request::AllocateDescriptor,
            Accept4::Unblocking { .. } => Request::MakeNonblocking,
            Accept4::Installing { fd, flags } => Request::Install(fd, flags & SOCK_CLOEXEC != 0),
        }
    }

    open spec fn accepts(self, reply: Reply) -> bool {
        match self {
            Accept4::LookingUp { .. } => reply is File,
            Accept4::Accepting { .. } => reply is Named,
            Accept4::Writing { .. } => reply is Done,
            Accept4::Allocating { .. } => reply is Descriptor,
            Accept4::Unblocking { .. } => reply is Done,
            Accept4::Installing { .. } => reply is Done,
        }
    }

    open spec fn next(self, reply: Reply) -> Step<Accept4, isize> {
        match (self, reply) {
            (Accept4::LookingUp { addr_buf, addr_len, flags, .. }, Reply::File(file)) => {
                match file {
                    FileRef::Missing => Step::Return(ErrorNo::EBADF.code()),
                    FileRef::NotSocket => Step::Return(ErrorNo::ENOTSOCK.code()),
                    FileRef::Socket(_) => Step::Ask(
                        Accept4::Accepting { addr_buf, addr_len, flags },
                    ),
                }
            },
            (Accept4::Accepting { addr_buf, addr_len, flags }, Reply::Named(accepted)) => {
                match accepted {
                    Ok(peer) => Step::Ask(Accept4::Writing { peer, addr_buf, addr_len, flags }),
                    Err(error) => Step::Return(accept_failure(error)),
                }
            },
            (Accept4::Writing { flags, .. }, Reply::Done) => Step::Ask(
                Accept4::Allocating { flags },
            ),
            (Accept4::Allocating { flags }, Reply::Descriptor(free)) => match free {
                None => Step::Return(ErrorNo::EMFILE.code()),
                Some(fd) => if flags & SOCK_NONBLOCK != 0 {
                    Step::Ask(Accept4::Unblocking { fd, flags })
                } else {
                    Step::Ask(Accept4::Installing { fd, flags })
                },
            },
            (Accept4::Unblocking { fd, flags }, Reply::Done) => Step::Ask(
                Accept4::Installing { fd, flags },
            ),
            (Accept4::Installing { fd, .. }, Reply::Done) => Step::Return(fd as isize),
            _ => Step::Return(FAILURE),
        }
    }

    open spec fn rank(self) -> nat {
        match self {
            Accept4::LookingUp { .. } => 5,
            Accept4::Accepting { .. } => 4,
            Accept4::Writing { .. } => 3,
            Accept4::Allocating { .. } => 2,
            Accept4::Unblocking { .. } => 1,
            Accept4::Installing { .. } => 0,
        }
    }

    proof fn advances(self, reply: Reply) {
    }

    fn request(&self) -> (request: Request) {
        match *self {
            Accept4::LookingUp { fd, .. } => Request::LookUp(fd),
            Accept4::Accepting { .. } => Request::Accept,
            Accept4::Writing { peer, addr_buf, addr_len, .. } => Request::WriteAddress(
                peer,
                addr_buf,
                addr_len,
            ),
            Accept4::Allocating { .. } => Request::AllocateDescriptor,
            Accept4::Unblocking { .. } => Request::MakeNonblocking,
            Accept4::Installing { fd, flags } => Request::Install(fd, flags & SOCK_CLOEXEC != 0),
        }
    }

    fn admits(&self, reply: &Reply) -> (admitted: bool) {
        match (*self, *reply) {
            (Accept4::LookingUp { .. }, Reply::File(_)) => true,
            (Accept4::Accepting { .. }, Reply::Named(_)) => true,
            (Accept4::Writing { .. }, Reply::Done) => true,
            (Accept4::Allocating { .. }, Reply::Descriptor(_)) => true,
            (Accept4::Unblocking { .. }, Reply::Done) => true,
            (Accept4::Installing { .. }, Reply::Done) => true,
            _ => false,
        }
    }

    fn resume(self, reply: Reply) -> (step: Step<Accept4, isize>) {
        match (self, reply) {
            (Accept4::LookingUp { addr_buf, addr_len, flags, .. }, Reply::File(file)) => {
                match file {
                    FileRef::Missing => Step::Return(ErrorNo::EBADF.code()),
                    FileRef::NotSocket => Step::Return(ErrorNo::ENOTSOCK.code()),
                    FileRef::Socket(_) => Step::Ask(
                        Accept4::Accepting { addr_buf, addr_len, flags },
                    ),
                }
            },
            (Accept4::Accepting { addr_buf, addr_len, flags }, Reply::Named(accepted)) => {
                match accepted {
                    Ok(peer) => Step::Ask(Accept4::Writing { peer, addr_buf, addr_len, flags }),
                    Err(NetError::Unsupported) => Step::Return(ErrorNo::EOPNOTSUPP.code()),
                    Err(NetError::Interrupted) => Step::Return(ErrorNo::EINTR.code()),
                    Err(NetError::WouldBlock) => Step::Return(ErrorNo::EAGAIN.code()),
                    Err(_) => Step::Return(FAILURE),
                }
            },
            (Accept4::Writing { flags, .. }, Reply::Done) => Step::Ask(
                Accept4::Allocating { flags },
            ),
            (Accept4::Allocating { flags }, Reply::Descriptor(free)) => match free {
                None => Step::Return(ErrorNo::EMFILE.code()),
                Some(fd) => if flags & SOCK_NONBLOCK != 0 {
                    Step::Ask(Accept4::Unblocking { fd, flags })
                } else {
                    Step::Ask(Accept4::Installing { fd, flags })
                },
            },
            (Accept4::Unblocking { fd, flags }, Reply::Done) => Step::Ask(
                Accept4::Installing { fd, flags },
            ),
            (Accept4::Installing { fd, .. }, Reply::Done) => Step::Return(fd as isize),
            _ => Step::Return(FAILURE),
        }
    }
}

/// What the outside gives, while `accept4` runs.
pub struct Accept4World {
    /// What the file descriptor stands for.
    pub file: FileRef,
    /// What accepting gives: the address of the peer.
    pub accepted: Result<SocketAddr, NetError>,
    /// The free file descriptor, if there is one.
    pub free: Option<usize>,
}

impl Accept4World {
    /// The reply that each request gets.
    pub open spec fn reply(self, dialogue: Accept4) -> Reply {
        match dialogue {
            Accept4::LookingUp { .. } => Reply::File(self.file),
            Accept4::Accepting { .. } => Reply::Named(self.accepted),
            Accept4::Allocating { .. } => Reply::Descriptor(self.free),
            _ => Reply::Done,
        }
    }

    /// What the call results in from `step` on.
    pub open spec fn result(self, step: Step<Accept4, isize>) -> isize {
        outcome(step, |dialogue: Accept4| self.reply(dialogue))
    }

    /// What the call asks for from `step` on.
    pub open spec fn requests(self, step: Step<Accept4, isize>) -> Seq<Request> {
        requests(step, |dialogue: Accept4| self.reply(dialogue))
    }

    /// What the call has to result in.
    pub open spec fn value(self) -> isize {
        match (self.file, self.accepted, self.free) {
            (FileRef::Missing, _, _) => ErrorNo::EBADF.code(),
            (FileRef::NotSocket, _, _) => ErrorNo::ENOTSOCK.code(),
            (FileRef::Socket(_), Err(error), _) => accept_failure(error),
            (FileRef::Socket(_), Ok(_), None) => ErrorNo::EMFILE.code(),
            (FileRef::Socket(_), Ok(_), Some(fd)) => fd as isize,
        }
    }
}

/// Accepts a connection on a socket and puts the socket of the connection behind a
/// new file descriptor. The address of the peer is written to `addr_buf`, as far as
/// the word at `addr_len` says there is room, and that word is set to its length.
pub fn syscall_accept4(fd: usize, addr_buf: usize, addr_len: usize, flags: usize) -> (step: Step<
    Accept4,
    isize,
>)
    ensures
        step == Step::<Accept4, isize>::Ask(Accept4::LookingUp { fd, addr_buf, addr_len, flags }),
        forall|world: Accept4World| #[trigger] world.result(step) == world.value(),
{
    let dialogue: Accept4 = Accept4::LookingUp { fd, addr_buf, addr_len, flags };
    proof {
        assert forall|world: Accept4World| #[trigger]
            world.result(Step::<Accept4, isize>::Ask(dialogue)) == world.value() by {
            reveal_with_fuel(outcome, 8);
        }
    }
    Step::Ask(dialogue)
}

/// Law: `accept4` writes the address of the peer that it accepted, lets the new
/// socket not block if and only if told so, and puts it behind the descriptor that
/// it results in, marked to be closed when another program is executed if and only
/// if told so. Where nothing is accepted, nothing is written and no descriptor is
/// taken.
pub proof fn accept4_installs_what_it_returns(
    fd: usize,
    addr_buf: usize,
    addr_len: usize,
    flags: usize,
    world: Accept4World,
)
    ensures
        world.requests(
            Step::<Accept4, isize>::Ask(Accept4::LookingUp { fd, addr_buf, addr_len, flags }),
        ) == match (world.file, world.accepted) {
            (FileRef::Socket(_), Ok(peer)) => seq![
                Request::LookUp(fd),
                Request::Accept,
                Request::WriteAddress(peer, addr_buf, addr_len),
                Request::AllocateDescriptor,
            ] + (match world.free {
                Some(new_fd) => if flags & SOCK_NONBLOCK != 0 {
                    seq![
                        Request::MakeNonblocking,
                        Request::Install(new_fd, flags & SOCK_CLOEXEC != 0),
                    ]
                } else {
                    seq![Request::Install(new_fd, flags & SOCK_CLOEXEC != 0)]
                },
                None => Seq::empty(),
            }),
            (FileRef::Socket(_), Err(_)) => seq![Request::LookUp(fd), Request::Accept],
            _ => seq![Request::LookUp(fd)],
        },
{
    reveal_with_fuel(requests, 8);
}

} // verus!
