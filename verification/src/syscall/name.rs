//! The two ends of a socket: `bind`, `listen`, `connect`, `getsockname` and
//! `getpeername`.
use vstd::prelude::*;

use crate::addr::SocketAddr;
use crate::dialogue::{outcome, requests, Dialogue, FileRef, Reply, Request, Step};
use crate::errno::{ErrorNo, NetError, FAILURE};

verus! {

/// `bind`, stopped at a request.
#[derive(Clone, Copy, PartialEq, Eq, Structural, Debug)]
pub enum Bind {
    /// The file descriptor is looked up.
    LookingUp { fd: usize, addr: usize },
    /// The address to bind to is read.
    Reading { file: FileRef, addr: usize },
    /// The socket is bound.
    Binding { target: SocketAddr },
}

impl Dialogue for Bind {
    type Output = isize;

    open spec fn asks(self) -> Request {
        match self {
            Bind::LookingUp { fd, .. } => Request::LookUp(fd),
            Bind::Reading { addr, .. } => Request::ReadAddress(addr),
            Bind::Binding { target } => Request::Bind(target),
        }
    }

    open spec fn accepts(self, reply: Reply) -> bool {
        match self {
            Bind::LookingUp { .. } => reply is File,
            Bind::Reading { .. } => reply is Address,
            Bind::Binding { .. } => reply is Outcome,
        }
    }

    open spec fn next(self, reply: Reply) -> Step<Bind, isize> {
        match (self, reply) {
            (Bind::LookingUp { addr, .. }, Reply::File(file)) => match file {
                FileRef::Missing => Step::Return(ErrorNo::EBADF.code()),
                _ => Step::Ask(Bind::Reading { file, addr }),
            },
            (Bind::Reading { file, .. }, Reply::Address(target)) => match file {
                FileRef::Socket(_) => Step::Ask(Bind::Binding { target }),
                _ => Step::Return(ErrorNo::ENOTSOCK.code()),
            },
            (Bind::Binding { .. }, Reply::Outcome(bound)) => match bound {
                Ok(_) => Step::Return(0),
                Err(_) => Step::Return(FAILURE),
            },
            _ => Step::Return(FAILURE),
        }
    }

    open spec fn rank(self) -> nat {
        match self {
            Bind::LookingUp { .. } => 2,
            Bind::Reading { .. } => 1,
            Bind::Binding { .. } => 0,
        }
    }

    proof fn advances(self, reply: Reply) {
    }

    fn request(&self) -> (request: Request) {
        match *self {
            Bind::LookingUp { fd, .. } => Request::LookUp(fd),
            Bind::Reading { addr, .. } => Request::ReadAddress(addr),
            Bind::Binding { target } => Request::Bind(target),
        }
    }

    fn admits(&self, reply: &Reply) -> (admitted: bool) {
        match (*self, *reply) {
            (Bind::LookingUp { .. }, Reply::File(_)) => true,
            (Bind::Reading { .. }, Reply::Address(_)) => true,
            (Bind::Binding { .. }, Reply::Outcome(_)) => true,
            _ => false,
        }
    }

    fn resume(self, reply: Reply) -> (step: Step<Bind, isize>) {
        match (self, reply) {
            (Bind::LookingUp { addr, .. }, Reply::File(file)) => match file {
                FileRef::Missing => Step::Return(ErrorNo::EBADF.code()),
                _ => Step::Ask(Bind::Reading { file, addr }),
            },
            (Bind::Reading { file, .. }, Reply::Address(target)) => match file {
                FileRef::Socket(_) => Step::Ask(Bind::Binding { target }),
                _ => Step::Return(ErrorNo::ENOTSOCK.code()),
            },
            (Bind::Binding { .. }, Reply::Outcome(bound)) => match bound {
                Ok(_) => Step::Return(0),
                Err(_) => Step::Return(FAILURE),
            },
            _ => Step::Return(FAILURE),
        }
    }
}

/// What the outside gives, while `bind` runs.
pub struct BindWorld {
    /// What the file descriptor stands for.
    pub file: FileRef,
    /// The address to bind to.
    pub addr: SocketAddr,
    /// What binding gives.
    pub bound: Result<(), NetError>,
}

impl BindWorld {
    /// The reply that each request gets.
    pub open spec fn reply(self, dialogue: Bind) -> Reply {
        match dialogue {
            Bind::LookingUp { .. } => Reply::File(self.file),
            Bind::Reading { .. } => Reply::Address(self.addr),
            Bind::Binding { .. } => Reply::Outcome(self.bound),
        }
    }

    /// What the call results in from `step` on.
    pub open spec fn result(self, step: Step<Bind, isize>) -> isize {
        outcome(step, |dialogue: Bind| self.reply(dialogue))
    }

    /// What the call asks for from `step` on.
    pub open spec fn requests(self, step: Step<Bind, isize>) -> Seq<Request> {
        requests(step, |dialogue: Bind| self.reply(dialogue))
    }

    /// What the call has to result in.
    pub open spec fn value(self) -> isize {
        match self.file {
            FileRef::Missing => ErrorNo::EBADF.code(),
            FileRef::NotSocket => ErrorNo::ENOTSOCK.code(),
            FileRef::Socket(_) => if self.bound is Ok {
                0
            } else {
                FAILURE
            },
        }
    }
}

/// Binds a socket to the socket address at `addr`.
pub fn syscall_bind(fd: usize, addr: usize, _addr_len: usize) -> (step: Step<Bind, isize>)
    ensures
        step == Step::<Bind, isize>::Ask(Bind::LookingUp { fd, addr }),
        forall|world: BindWorld| #[trigger] world.result(step) == world.value(),
{
    let dialogue: Bind = Bind::LookingUp { fd, addr };
    proof {
        assert forall|world: BindWorld| #[trigger]
            world.result(Step::<Bind, isize>::Ask(dialogue)) == world.value() by {
            reveal_with_fuel(outcome, 5);
        }
    }
    Step::Ask(dialogue)
}

/// Law: `bind` binds a socket, and nothing else, to the address that it was told.
pub proof fn bind_binds_once(fd: usize, addr: usize, world: BindWorld)
    ensures
        world.requests(Step::<Bind, isize>::Ask(Bind::LookingUp { fd, addr })) == match world.file {
            FileRef::Missing => seq![Request::LookUp(fd)],
            FileRef::NotSocket => seq![Request::LookUp(fd), Request::ReadAddress(addr)],
            FileRef::Socket(_) => seq![
                Request::LookUp(fd),
                Request::ReadAddress(addr),
                Request::Bind(world.addr),
            ],
        },
{
    reveal_with_fuel(requests, 5);
}

/// `listen`, stopped at a request.
#[derive(Clone, Copy, PartialEq, Eq, Structural, Debug)]
pub enum Listen {
    /// The file descriptor is looked up.
    LookingUp { fd: usize },
    /// The socket is told to listen.
    Listening,
}

impl Dialogue for Listen {
    type Output = isize;

    open spec fn asks(self) -> Request {
        match self {
            Listen::LookingUp { fd } => Request::LookUp(fd),
            Listen::Listening => Request::Listen,
        }
    }

    open spec fn accepts(self, reply: Reply) -> bool {
        match self {
            Listen::LookingUp { .. } => reply is File,
            Listen::Listening => reply is Outcome,
        }
    }

    open spec fn next(self, reply: Reply) -> Step<Listen, isize> {
        match (self, reply) {
            (Listen::LookingUp { .. }, Reply::File(file)) => match file {
                FileRef::Missing => Step::Return(ErrorNo::EBADF.code()),
                FileRef::NotSocket => Step::Return(ErrorNo::ENOTSOCK.code()),
                FileRef::Socket(_) => Step::Ask(Listen::Listening),
            },
            (Listen::Listening, Reply::Outcome(listening)) => match listening {
                Ok(_) => Step::Return(0),
                Err(NetError::Unsupported) => Step::Return(ErrorNo::EOPNOTSUPP.code()),
                Err(_) => Step::Return(FAILURE),
            },
            _ => Step::Return(FAILURE),
        }
    }

    open spec fn rank(self) -> nat {
        match self {
            Listen::LookingUp { .. } => 1,
            Listen::Listening => 0,
        }
    }

    proof fn advances(self, reply: Reply) {
    }

    fn request(&self) -> (request: Request) {
        match *self {
            Listen::LookingUp { fd } => Request::LookUp(fd),
            Listen::Listening => Request::Listen,
        }
    }

    fn admits(&self, reply: &Reply) -> (admitted: bool) {
        match (*self, *reply) {
            (Listen::LookingUp { .. }, Reply::File(_)) => true,
            (Listen::Listening, Reply::Outcome(_)) => true,
            _ => false,
        }
    }

    fn resume(self, reply: Reply) -> (step: Step<Listen, isize>) {
        match (self, reply) {
            (Listen::LookingUp { .. }, Reply::File(file)) => match file {
                FileRef::Missing => Step::Return(ErrorNo::EBADF.code()),
                FileRef::NotSocket => Step::Return(ErrorNo::ENOTSOCK.code()),
                FileRef::Socket(_) => Step::Ask(Listen::Listening),
            },
            (Listen::Listening, Reply::Outcome(listening)) => match listening {
                Ok(_) => Step::Return(0),
                Err(NetError::Unsupported) => Step::Return(ErrorNo::EOPNOTSUPP.code()),
                Err(_) => Step::Return(FAILURE),
            },
            _ => Step::Return(FAILURE),
        }
    }
}

/// What the outside gives, while `listen` runs.
pub struct ListenWorld {
    /// What the file descriptor stands for.
    pub file: FileRef,
    /// What listening gives.
    pub listening: Result<(), NetError>,
}

impl ListenWorld {
    /// The reply that each request gets.
    pub open spec fn reply(self, dialogue: Listen) -> Reply {
        match dialogue {
            Listen::LookingUp { .. } => Reply::File(self.file),
            Listen::Listening => Reply::Outcome(self.listening),
        }
    }

    /// What the call results in from `step` on.
    pub open spec fn result(self, step: Step<Listen, isize>) -> isize {
        outcome(step, |dialogue: Listen| self.reply(dialogue))
    }

    /// What the call asks for from `step` on.
    pub open spec fn requests(self, step: Step<Listen, isize>) -> Seq<Request> {
        requests(step, |dialogue: Listen| self.reply(dialogue))
    }

    /// What the call has to result in.
    pub open spec fn value(self) -> isize {
        match self.file {
            FileRef::Missing => ErrorNo::EBADF.code(),
            FileRef::NotSocket => ErrorNo::ENOTSOCK.code(),
            FileRef::Socket(_) => match self.listening {
                Ok(_) => 0,
                Err(NetError::Unsupported) => ErrorNo::EOPNOTSUPP.code(),
                Err(_) => FAILURE,
            },
        }
    }
}

/// Lets a socket listen to the address that it is bound to. A socket that makes no
/// connections cannot listen: `EOPNOTSUPP`. The number of connections that may wait
/// cannot be changed.
pub fn syscall_listen(fd: usize, _backlog: usize) -> (step: Step<Listen, isize>)
    ensures
        step == Step::<Listen, isize>::Ask(Listen::LookingUp { fd }),
        forall|world: ListenWorld| #[trigger] world.result(step) == world.value(),
{
    let dialogue: Listen = Listen::LookingUp { fd };
    proof {
        assert forall|world: ListenWorld| #[trigger]
            world.result(Step::<Listen, isize>::Ask(dialogue)) == world.value() by {
            reveal_with_fuel(outcome, 4);
        }
    }
    Step::Ask(dialogue)
}

/// Law: `listen` lets a socket, and nothing else, listen.
pub proof fn listen_listens_once(fd: usize, world: ListenWorld)
    ensures
        world.requests(Step::<Listen, isize>::Ask(Listen::LookingUp { fd })) == if world.file
            is Socket {
            seq![Request::LookUp(fd), Request::Listen]
        } else {
            seq![Request::LookUp(fd)]
        },
{
    reveal_with_fuel(requests, 4);
}

/// What connecting results in, given what the network stack says.
pub open spec fn connected_value(connected: Result<(), NetError>) -> isize {
    match connected {
        Ok(_) => 0,
        Err(NetError::WouldBlock) => ErrorNo::EINPROGRESS.code(),
        Err(NetError::Interrupted) => ErrorNo::EINTR.code(),
        Err(NetError::AlreadyExists) => ErrorNo::EISCONN.code(),
        Err(_) => FAILURE,
    }
}

/// `connect`, stopped at a request.
#[derive(Clone, Copy, PartialEq, Eq, Structural, Debug)]
pub enum Connect {
    /// The file descriptor is looked up.
    LookingUp { fd: usize, addr_buf: usize },
    /// The address to connect to is read.
    Reading { addr_buf: usize },
    /// The socket is connected.
    Connecting { addr: SocketAddr },
}

impl Dialogue for Connect {
    type Output = isize;

    open spec fn asks(self) -> Request {
        match self {
            Connect::LookingUp { fd, .. } => Request::LookUp(fd),
            Connect::Reading { addr_buf } => Request::ReadAddress(addr_buf),
            Connect::Connecting { addr } => Request::Connect(addr),
        }
    }

    open spec fn accepts(self, reply: Reply) -> bool {
        match self {
            Connect::LookingUp { .. } => reply is File,
            Connect::Reading { .. } => reply is Address,
            Connect::Connecting { .. } => reply is Outcome,
        }
    }

    open spec fn next(self, reply: Reply) -> Step<Connect, isize> {
        match (self, reply) {
            (Connect::LookingUp { addr_buf, .. }, Reply::File(file)) => match file {
                FileRef::Missing => Step::Return(ErrorNo::EBADF.code()),
                FileRef::NotSocket => Step::Return(ErrorNo::ENOTSOCK.code()),
                FileRef::Socket(_) => Step::Ask(Connect::Reading { addr_buf }),
            },
            (Connect::Reading { .. }, Reply::Address(addr)) => Step::Ask(
                Connect::Connecting { addr },
            ),
            (Connect::Connecting { .. }, Reply::Outcome(connected)) => Step::Return(
                connected_value(connected),
            ),
            _ => Step::Return(FAILURE),
        }
    }

    open spec fn rank(self) -> nat {
        match self {
            Connect::LookingUp { .. } => 2,
            Connect::Reading { .. } => 1,
            Connect::Connecting { .. } => 0,
        }
    }

    proof fn advances(self, reply: Reply) {
    }

    fn request(&self) -> (request: Request) {
        match *self {
            Connect::LookingUp { fd, .. } => Request::LookUp(fd),
            Connect::Reading { addr_buf } => Request::ReadAddress(addr_buf),
            Connect::Connecting { addr } => Request::Connect(addr),
        }
    }

    fn admits(&self, reply: &Reply) -> (admitted: bool) {
        match (*self, *reply) {
            (Connect::LookingUp { .. }, Reply::File(_)) => true,
            (Connect::Reading { .. }, Reply::Address(_)) => true,
            (Connect::Connecting { .. }, Reply::Outcome(_)) => true,
            _ => false,
        }
    }

    fn resume(self, reply: Reply) -> (step: Step<Connect, isize>) {
        match (self, reply) {
            (Connect::LookingUp { addr_buf, .. }, Reply::File(file)) => match file {
                FileRef::Missing => Step::Return(ErrorNo::EBADF.code()),
                FileRef::NotSocket => Step::Return(ErrorNo::ENOTSOCK.code()),
                FileRef::Socket(_) => Step::Ask(Connect::Reading { addr_buf }),
            },
            (Connect::Reading { .. }, Reply::Address(addr)) => Step::Ask(
                Connect::Connecting { addr },
            ),
            (Connect::Connecting { .. }, Reply::Outcome(connected)) => match connected {
                Ok(_) => Step::Return(0),
                Err(NetError::WouldBlock) => Step::Return(ErrorNo::EINPROGRESS.code()),
                Err(NetError::Interrupted) => Step::Return(ErrorNo::EINTR.code()),
                Err(NetError::AlreadyExists) => Step::Return(ErrorNo::EISCONN.code()),
                Err(_) => Step::Return(FAILURE),
            },
            _ => Step::Return(FAILURE),
        }
    }
}

/// What the outside gives, while `connect` runs.
pub struct ConnectWorld {
    /// What the file descriptor stands for.
    pub file: FileRef,
    /// The address to connect to.
    pub addr: SocketAddr,
    /// What connecting gives.
    pub connected: Result<(), NetError>,
}

impl ConnectWorld {
    /// The reply that each request gets.
    pub open spec fn reply(self, dialogue: Connect) -> Reply {
        match dialogue {
            Connect::LookingUp { .. } => Reply::File(self.file),
            Connect::Reading { .. } => Reply::Address(self.addr),
            Connect::Connecting { .. } => Reply::Outcome(self.connected),
        }
    }

    /// What the call results in from `step` on.
    pub open spec fn result(self, step: Step<Connect, isize>) -> isize {
        outcome(step, |dialogue: Connect| self.reply(dialogue))
    }

    /// What the call asks for from `step` on.
    pub open spec fn requests(self, step: Step<Connect, isize>) -> Seq<Request> {
        requests(step, |dialogue: Connect| self.reply(dialogue))
    }

    /// What the call has to result in.
    pub open spec fn value(self) -> isize {
        match self.file {
            FileRef::Missing => ErrorNo::EBADF.code(),
            FileRef::NotSocket => ErrorNo::ENOTSOCK.code(),
            FileRef::Socket(_) => connected_value(self.connected),
        }
    }
}

/// Connects a socket to the socket address at `addr_buf`.
pub fn syscall_connect(fd: usize, addr_buf: usize, _addr_len: usize) -> (step: Step<Connect, isize>)
    ensures
        step == Step::<Connect, isize>::Ask(Connect::LookingUp { fd, addr_buf }),
        forall|world: ConnectWorld| #[trigger] world.result(step) == world.value(),
{
    let dialogue: Connect = Connect::LookingUp { fd, addr_buf };
    proof {
        assert forall|world: ConnectWorld| #[trigger]
            world.result(Step::<Connect, isize>::Ask(dialogue)) == world.value() by {
            reveal_with_fuel(outcome, 5);
        }
    }
    Step::Ask(dialogue)
}

/// Law: `connect` connects a socket, and nothing else, to the address that it was
/// told.
pub proof fn connect_connects_once(fd: usize, addr_buf: usize, world: ConnectWorld)
    ensures
        world.requests(
            Step::<Connect, isize>::Ask(Connect::LookingUp { fd, addr_buf }),
        ) == if world.file is Socket {
            seq![
                Request::LookUp(fd),
                Request::ReadAddress(addr_buf),
                Request::Connect(world.addr),
            ]
        } else {
            seq![Request::LookUp(fd)]
        },
{
    reveal_with_fuel(requests, 5);
}

/// `getsockname`, stopped at a request.
#[derive(Clone, Copy, PartialEq, Eq, Structural, Debug)]
pub enum GetSockName {
    /// The file descriptor is looked up.
    LookingUp { fd: usize, addr: usize, addr_len: usize },
    /// The socket tells the address that it is bound to.
    Naming { addr: usize, addr_len: usize },
    /// The address is written.
    Writing { name: SocketAddr, addr: usize, addr_len: usize },
}

impl Dialogue for GetSockName {
    type Output = isize;

    open spec fn asks(self) -> Request {
        match self {
            GetSockName::LookingUp { fd, .. } => Request::LookUp(fd),
            GetSockName::Naming { .. } => Request::Name,
            GetSockName::Writing { name, addr, addr_len } => Request::WriteAddress(
                name,
                addr,
                addr_len,
            ),
        }
    }

    open spec fn accepts(self, reply: Reply) -> bool {
        match self {
            GetSockName::LookingUp { .. } => reply is File,
            GetSockName::Naming { .. } => reply is Named,
            GetSockName::Writing { .. } => reply is Done,
        }
    }

    open spec fn next(self, reply: Reply) -> Step<GetSockName, isize> {
        match (self, reply) {
            (GetSockName::LookingUp { addr, addr_len, .. }, Reply::File(file)) => match file {
                FileRef::Missing => Step::Return(ErrorNo::EBADF.code()),
                FileRef::NotSocket => Step::Return(ErrorNo::ENOTSOCK.code()),
                FileRef::Socket(_) => Step::Ask(GetSockName::Naming { addr, addr_len }),
            },
            (GetSockName::Naming { addr, addr_len }, Reply::Named(name)) => match name {
                Ok(name) => Step::Ask(GetSockName::Writing { name, addr, addr_len }),
                Err(_) => Step::Return(FAILURE),
            },
            (GetSockName::Writing { .. }, Reply::Done) => Step::Return(0),
            _ => Step::Return(FAILURE),
        }
    }

    open spec fn rank(self) -> nat {
        match self {
            GetSockName::LookingUp { .. } => 2,
            GetSockName::Naming { .. } => 1,
            GetSockName::Writing { .. } => 0,
        }
    }

    proof fn advances(self, reply: Reply) {
    }

    fn request(&self) -> (request: Request) {
        match *self {
            GetSockName::LookingUp { fd, .. } => Request::LookUp(fd),
            GetSockName::Naming { .. } => Request::Name,
            GetSockName::Writing { name, addr, addr_len } => Request::WriteAddress(
                name,
                addr,
                addr_len,
            ),
        }
    }

    fn admits(&self, reply: &Reply) -> (admitted: bool) {
        match (*self, *reply) {
            (GetSockName::LookingUp { .. }, Reply::File(_)) => true,
            (GetSockName::Naming { .. }, Reply::Named(_)) => true,
            (GetSockName::Writing { .. }, Reply::Done) => true,
            _ => false,
        }
    }

    fn resume(self, reply: Reply) -> (step: Step<GetSockName, isize>) {
        match (self, reply) {
            (GetSockName::LookingUp { addr, addr_len, .. }, Reply::File(file)) => match file {
                FileRef::Missing => Step::Return(ErrorNo::EBADF.code()),
                FileRef::NotSocket => Step::Return(ErrorNo::ENOTSOCK.code()),
                FileRef::Socket(_) => Step::Ask(GetSockName::Naming { addr, addr_len }),
            },
            (GetSockName::Naming { addr, addr_len }, Reply::Named(name)) => match name {
                Ok(name) => Step::Ask(GetSockName::Writing { name, addr, addr_len }),
                Err(_) => Step::Return(FAILURE),
            },
            (GetSockName::Writing { .. }, Reply::Done) => Step::Return(0),
            _ => Step::Return(FAILURE),
        }
    }
}

/// What the outside gives, while `getsockname` runs.
pub struct GetSockNameWorld {
    /// What the file descriptor stands for.
    pub file: FileRef,
    /// The address that the socket is bound to.
    pub name: Result<SocketAddr, NetError>,
}

impl GetSockNameWorld {
    /// The reply that each request gets.
    pub open spec fn reply(self, dialogue: GetSockName) -> Reply {
        match dialogue {
            GetSockName::LookingUp { .. } => Reply::File(self.file),
            GetSockName::Naming { .. } => Reply::Named(self.name),
            GetSockName::Writing { .. } => Reply::Done,
        }
    }

    /// What the call results in from `step` on.
    pub open spec fn result(self, step: Step<GetSockName, isize>) -> isize {
        outcome(step, |dialogue: GetSockName| self.reply(dialogue))
    }

    /// What the call asks for from `step` on.
    pub open spec fn requests(self, step: Step<GetSockName, isize>) -> Seq<Request> {
        requests(step, |dialogue: GetSockName| self.reply(dialogue))
    }

    /// What the call has to result in.
    pub open spec fn value(self) -> isize {
        match self.file {
            FileRef::Missing => ErrorNo::EBADF.code(),
            FileRef::NotSocket => ErrorNo::ENOTSOCK.code(),
            FileRef::Socket(_) => if self.name is Ok {
                0
            } else {
                FAILURE
            },
        }
    }
}

/// Writes the address that a socket is bound to, to `addr`, as far as the word at
/// `addr_len` says there is room, and sets that word to its length.
pub fn syscall_get_sock_name(fd: usize, addr: usize, addr_len: usize) -> (step: Step<
    GetSockName,
    isize,
>)
    ensures
        step == Step::<GetSockName, isize>::Ask(GetSockName::LookingUp { fd, addr, addr_len }),
        forall|world: GetSockNameWorld| #[trigger] world.result(step) == world.value(),
{
    let dialogue: GetSockName = GetSockName::LookingUp { fd, addr, addr_len };
    proof {
        assert forall|world: GetSockNameWorld| #[trigger]
            world.result(Step::<GetSockName, isize>::Ask(dialogue)) == world.value() by {
            reveal_with_fuel(outcome, 5);
        }
    }
    Step::Ask(dialogue)
}

/// Law: `getsockname` writes the address that the socket is bound to, and nothing
/// where there is none.
pub proof fn getsockname_writes_the_name(
    fd: usize,
    addr: usize,
    addr_len: usize,
    world: GetSockNameWorld,
)
    ensures
        world.requests(
            Step::<GetSockName, isize>::Ask(GetSockName::LookingUp { fd, addr, addr_len }),
        ) == match (world.file, world.name) {
            (FileRef::Socket(_), Ok(name)) => seq![
                Request::LookUp(fd),
                Request::Name,
                Request::WriteAddress(name, addr, addr_len),
            ],
            (FileRef::Socket(_), Err(_)) => seq![Request::LookUp(fd), Request::Name],
            _ => seq![Request::LookUp(fd)],
        },
{
    reveal_with_fuel(requests, 5);
}

/// `getpeername`, stopped at a request.
#[derive(Clone, Copy, PartialEq, Eq, Structural, Debug)]
pub enum GetPeerName {
    /// The file descriptor is looked up.
    LookingUp { fd: usize, addr_buf: usize, addr_len: usize },
    /// The memory of the room for the address is checked.
    CheckingLen { file: FileRef, addr_buf: usize, addr_len: usize },
    /// The room for the address is read.
    ReadingLen { file: FileRef, addr_buf: usize, addr_len: usize },
    /// The memory for the address is checked.
    CheckingBuf { file: FileRef, addr_buf: usize, addr_len: usize, room: u32 },
    /// The socket tells the address of its peer.
    Naming { addr_buf: usize, addr_len: usize },
    /// The address is written.
    Writing { peer: SocketAddr, addr_buf: usize, addr_len: usize },
}

impl Dialogue for GetPeerName {
    type Output = isize;

    open spec fn asks(self) -> Request {
        match self {
            GetPeerName::LookingUp { fd, .. } => Request::LookUp(fd),
            GetPeerName::CheckingLen { addr_len, .. } => Request::CheckWord(addr_len),
            GetPeerName::ReadingLen { addr_len, .. } => Request::ReadWord(addr_len),
            GetPeerName::CheckingBuf { addr_buf, room, .. } => Request::CheckRange(
                addr_buf,
                addr_buf.wrapping_add(room as usize),
            ),
            GetPeerName::Naming { .. } => Request::PeerName,
            GetPeerName::Writing { peer, addr_buf, addr_len } => Request::WriteAddress(
                peer,
                addr_buf,
                addr_len,
            ),
        }
    }

    /// A socket has a peer or is not connected; nothing else can keep the peer from
    /// being named.
    open spec fn accepts(self, reply: Reply) -> bool {
        match self {
            GetPeerName::LookingUp { .. } => reply is File,
            GetPeerName::CheckingLen { .. } => reply is Usable,
            GetPeerName::ReadingLen { .. } => reply is Word,
            GetPeerName::CheckingBuf { .. } => reply is Usable,
            GetPeerName::Naming { .. } => match reply {
                Reply::Named(Ok(_)) => true,
                Reply::Named(Err(error)) => error == NetError::NotConnected,
                _ => false,
            },
            GetPeerName::Writing { .. } => reply is Done,
        }
    }

    open spec fn next(self, reply: Reply) -> Step<GetPeerName, isize> {
        match (self, reply) {
            (GetPeerName::LookingUp { addr_buf, addr_len, .. }, Reply::File(file)) => match file {
                FileRef::Missing => Step::Return(ErrorNo::EBADF.code()),
                _ => Step::Ask(GetPeerName::CheckingLen { file, addr_buf, addr_len }),
            },
            (GetPeerName::CheckingLen { file, addr_buf, addr_len }, Reply::Usable(usable)) => {
                if usable {
                    Step::Ask(GetPeerName::ReadingLen { file, addr_buf, addr_len })
                } else {
                    Step::Return(ErrorNo::EFAULT.code())
                }
            },
            (GetPeerName::ReadingLen { file, addr_buf, addr_len }, Reply::Word(room)) => {
                if room >= 0x8000_0000 {
                    Step::Return(ErrorNo::EINVAL.code())
                } else {
                    Step::Ask(GetPeerName::CheckingBuf { file, addr_buf, addr_len, room })
                }
            },
            (GetPeerName::CheckingBuf { file, addr_buf, addr_len, .. }, Reply::Usable(usable)) => {
                if !usable {
                    Step::Return(ErrorNo::EFAULT.code())
                } else {
                    match file {
                        FileRef::Socket(_) => Step::Ask(
                            GetPeerName::Naming { addr_buf, addr_len },
                        ),
                        _ => Step::Return(ErrorNo::ENOTSOCK.code()),
                    }
                }
            },
            (GetPeerName::Naming { addr_buf, addr_len }, Reply::Named(peer)) => match peer {
                Ok(peer) => Step::Ask(GetPeerName::Writing { peer, addr_buf, addr_len }),
                Err(_) => Step::Return(ErrorNo::ENOTCONN.code()),
            },
            (GetPeerName::Writing { .. }, Reply::Done) => Step::Return(0),
            _ => Step::Return(FAILURE),
        }
    }

    open spec fn rank(self) -> nat {
        match self {
            GetPeerName::LookingUp { .. } => 5,
            GetPeerName::CheckingLen { .. } => 4,
            GetPeerName::ReadingLen { .. } => 3,
            GetPeerName::CheckingBuf { .. } => 2,
            GetPeerName::Naming { .. } => 1,
            GetPeerName::Writing { .. } => 0,
        }
    }

    proof fn advances(self, reply: Reply) {
    }

    fn request(&self) -> (request: Request) {
        match *self {
            GetPeerName::LookingUp { fd, .. } => Request::LookUp(fd),
            GetPeerName::CheckingLen { addr_len, .. } => Request::CheckWord(addr_len),
            GetPeerName::ReadingLen { addr_len, .. } => Request::ReadWord(addr_len),
            GetPeerName::CheckingBuf { addr_buf, room, .. } => Request::CheckRange(
                addr_buf,
                addr_buf.wrapping_add(room as usize),
            ),
            GetPeerName::Naming { .. } => Request::PeerName,
            GetPeerName::Writing { peer, addr_buf, addr_len } => Request::WriteAddress(
                peer,
                addr_buf,
                addr_len,
            ),
        }
    }

    fn admits(&self, reply: &Reply) -> (admitted: bool) {
        match (*self, *reply) {
            (GetPeerName::LookingUp { .. }, Reply::File(_)) => true,
            (GetPeerName::CheckingLen { .. }, Reply::Usable(_)) => true,
            (GetPeerName::ReadingLen { .. }, Reply::Word(_)) => true,
            (GetPeerName::CheckingBuf { .. }, Reply::Usable(_)) => true,
            (GetPeerName::Naming { .. }, Reply::Named(Ok(_))) => true,
            (
                GetPeerName::Naming { .. },
                Reply::Named(Err(NetError::NotConnected)),
            ) => true,
            (GetPeerName::Writing { .. }, Reply::Done) => true,
            _ => false,
        }
    }

    fn resume(self, reply: Reply) -> (step: Step<GetPeerName, isize>) {
        match (self, reply) {
            (GetPeerName::LookingUp { addr_buf, addr_len, .. }, Reply::File(file)) => match file {
                FileRef::Missing => Step::Return(ErrorNo::EBADF.code()),
                _ => Step::Ask(GetPeerName::CheckingLen { file, addr_buf, addr_len }),
            },
            (GetPeerName::CheckingLen { file, addr_buf, addr_len }, Reply::Usable(usable)) => {
                if usable {
                    Step::Ask(GetPeerName::ReadingLen { file, addr_buf, addr_len })
                } else {
                    Step::Return(ErrorNo::EFAULT.code())
                }
            },
            (GetPeerName::ReadingLen { file, addr_buf, addr_len }, Reply::Word(room)) => {
                if room >= 0x8000_0000 {
                    Step::Return(ErrorNo::EINVAL.code())
                } else {
                    Step::Ask(GetPeerName::CheckingBuf { file, addr_buf, addr_len, room })
                }
            },
            (GetPeerName::CheckingBuf { file, addr_buf, addr_len, .. }, Reply::Usable(usable)) => {
                if !usable {
                    Step::Return(ErrorNo::EFAULT.code())
                } else {
                    match file {
                        FileRef::Socket(_) => Step::Ask(
                            GetPeerName::Naming { addr_buf, addr_len },
                        ),
                        _ => Step::Return(ErrorNo::ENOTSOCK.code()),
                    }
                }
            },
            (GetPeerName::Naming { addr_buf, addr_len }, Reply::Named(peer)) => match peer {
                Ok(peer) => Step::Ask(GetPeerName::Writing { peer, addr_buf, addr_len }),
                Err(_) => Step::Return(ErrorNo::ENOTCONN.code()),
            },
            (GetPeerName::Writing { .. }, Reply::Done) => Step::Return(0),
            _ => Step::Return(FAILURE),
        }
    }
}

/// What the outside gives, while `getpeername` runs.
pub struct GetPeerNameWorld {
    /// What the file descriptor stands for.
    pub file: FileRef,
    /// Whether the memory of the room for the address can be used.
    pub len_usable: bool,
    /// The room for the address.
    pub room: u32,
    /// Whether the memory for the address can be used.
    pub addr_usable: bool,
    /// The address of the peer, if there is one.
    pub peer: Option<SocketAddr>,
}

impl GetPeerNameWorld {
    /// The reply that each request gets.
    pub open spec fn reply(self, dialogue: GetPeerName) -> Reply {
        match dialogue {
            GetPeerName::LookingUp { .. } => Reply::File(self.file),
            GetPeerName::CheckingLen { .. } => Reply::Usable(self.len_usable),
            GetPeerName::ReadingLen { .. } => Reply::Word(self.room),
            GetPeerName::CheckingBuf { .. } => Reply::Usable(self.addr_usable),
            GetPeerName::Naming { .. } => Reply::Named(
                match self.peer {
                    Some(peer) => Ok(peer),
                    None => Err(NetError::NotConnected),
                },
            ),
            GetPeerName::Writing { .. } => Reply::Done,
        }
    }

    /// What the call results in from `step` on.
    pub open spec fn result(self, step: Step<GetPeerName, isize>) -> isize {
        outcome(step, |dialogue: GetPeerName| self.reply(dialogue))
    }

    /// What the call asks for from `step` on.
    pub open spec fn requests(self, step: Step<GetPeerName, isize>) -> Seq<Request> {
        requests(step, |dialogue: GetPeerName| self.reply(dialogue))
    }

    /// Why the peer is not asked for its name, if it is not. A room for the address
    /// that is negative as a signed number is not valid.
    pub open spec fn refusal(self) -> Option<ErrorNo> {
        if self.file == FileRef::Missing {
            Some(ErrorNo::EBADF)
        } else if !self.len_usable {
            Some(ErrorNo::EFAULT)
        } else if self.room > i32::MAX {
            Some(ErrorNo::EINVAL)
        } else if !self.addr_usable {
            Some(ErrorNo::EFAULT)
        } else if self.file == FileRef::NotSocket {
            Some(ErrorNo::ENOTSOCK)
        } else {
            None
        }
    }

    /// What the call has to result in.
    pub open spec fn value(self) -> isize {
        match (self.refusal(), self.peer) {
            (Some(error), _) => error.code(),
            (None, None) => ErrorNo::ENOTCONN.code(),
            (None, Some(_)) => 0,
        }
    }
}

/// Writes the address of a socket's peer to `addr_buf`, as far as the word at
/// `addr_len` says there is room, and sets that word to its length.
pub fn syscall_getpeername(fd: usize, addr_buf: usize, addr_len: usize) -> (step: Step<
    GetPeerName,
    isize,
>)
    ensures
        step == Step::<GetPeerName, isize>::Ask(GetPeerName::LookingUp { fd, addr_buf, addr_len }),
        forall|world: GetPeerNameWorld| #[trigger] world.result(step) == world.value(),
{
    let dialogue: GetPeerName = GetPeerName::LookingUp { fd, addr_buf, addr_len };
    proof {
        assert forall|world: GetPeerNameWorld| #[trigger]
            world.result(Step::<GetPeerName, isize>::Ask(dialogue)) == world.value() by {
            reveal_with_fuel(outcome, 8);
        }
    }
    Step::Ask(dialogue)
}

/// Law: `getpeername` writes the address of the peer, and only after all of the room
/// for it was found usable; where there is no peer to be named, nothing is written.
pub proof fn getpeername_writes_the_peer(
    fd: usize,
    addr_buf: usize,
    addr_len: usize,
    world: GetPeerNameWorld,
)
    ensures
        ({
            let asked = world.requests(
                Step::<GetPeerName, isize>::Ask(
                    GetPeerName::LookingUp { fd, addr_buf, addr_len },
                ),
            );
            let checks = seq![
                Request::LookUp(fd),
                Request::CheckWord(addr_len),
                Request::ReadWord(addr_len),
                Request::CheckRange(addr_buf, addr_buf.wrapping_add(world.room as usize)),
            ];
            match (world.refusal(), world.peer) {
                (Some(_), _) => asked.is_prefix_of(checks),
                (None, None) => asked == checks + seq![Request::PeerName],
                (None, Some(peer)) => asked == checks + seq![
                    Request::PeerName,
                    Request::WriteAddress(peer, addr_buf, addr_len),
                ],
            }
        }),
{
    reveal_with_fuel(requests, 8);
}

} // verus!
